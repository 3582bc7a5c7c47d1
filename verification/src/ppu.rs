//! The picture processing unit: scans the objects of each line, draws the frame dot by dot
//! and keeps LY and the mode bits of STAT up to date. It works on the whole address space.
pub mod tile;
pub mod oam;
pub mod masks;
pub mod constants;

use vstd::prelude::*;
use crate::memory::RAM;
use crate::ppu::tile::{Tile, GbPalette, TILE_SIZE, TILE_WIDTH, TILE_HEIGHT, tile_pixel, shade_char};
use crate::ppu::oam::{OAM, OAM_BYTE_SIZE};
use crate::ppu::masks::{LCDCMasks, LCDStatMasks, PPUMode, ppu_mode_bits, lcdc_mask, lcdc_bit};
use crate::ppu::constants::{
    SCREEN_PIXELS, SCREEN_WIDTH, SCREEN_HEIGHT, LINE_DOTS, SCAN_OAM_DOTS, FRAME_LINES, OAM_NUMBERS,
    MAX_SPRITE_PER_LINE, MAP_TILES, MAP_ROW_TILES, MAP_ROW_PIXELS, MAP_HEIGHT_PIXELS, VRAM_BLOCK_0_ADDRESS,
    VRAM_BLOCK_1_ADDRESS, VRAM_BLOCK_2_ADDRESS, BG_DATA_1_ADDRESS, OAM_AREA_ADDRESS, IF_ADDRESS, LCDC_ADDRESS,
    LCD_STAT_ADDRESS, SCY_ADDRESS, SCX_ADDRESS, LY_ADDRESS,
};

verus! {

/// The last dot of the object scan.
pub const SCAN_OAM_DOTS_END: usize = 79;
/// The last dot a line draws in.
pub const DRAW_DOTS_END: usize = 370;
/// The dot horizontal blank starts at.
pub const HBLANK_DOTS_START: usize = 371;

/// The PPU's memory, frame and counters.
pub struct PpuView {
    pub memory: Seq<u8>,
    pub frame: Seq<GbPalette>,
    pub line_dots: usize,
    pub screen_dot: usize,
    pub dots_penalties: usize,
    pub dots_penalties_counter: usize,
    pub line_oam: Seq<OAM>,
    pub line_oam_number: usize,
}

impl PpuView {
    pub open spec fn byte(self, address: u16) -> u8 {
        self.memory[address as int]
    }

    pub open spec fn written(self, address: u16, data: u8) -> PpuView {
        PpuView { memory: self.memory.update(address as int, data), ..self }
    }

    pub open spec fn lcdc(self) -> u8 {
        self.byte(LCDC_ADDRESS)
    }

    pub open spec fn line(self) -> u8 {
        self.byte(LY_ADDRESS)
    }

    pub open spec fn scx(self) -> u8 {
        self.byte(SCX_ADDRESS)
    }

    pub open spec fn scy(self) -> u8 {
        self.byte(SCY_ADDRESS)
    }

    /// The counters stay in range: a dot of the line, a pixel of the row, at most ten
    /// objects, the drawing penalty (at most 7 dots) only between dot 80 and horizontal blank.
    pub open spec fn wf(self) -> bool {
        &&& self.memory.len() == 0x10000
        &&& self.frame.len() == SCREEN_PIXELS
        &&& self.line_dots < LINE_DOTS
        &&& self.screen_dot <= SCREEN_WIDTH
        &&& self.dots_penalties <= 7
        &&& (self.line_dots <= SCAN_OAM_DOTS || self.line_dots >= HBLANK_DOTS_START ==> self.dots_penalties == 0)
        &&& self.dots_penalties_counter == 0
        &&& self.line_oam.len() <= MAX_SPRITE_PER_LINE
    }

    /// The invariant inside a dot, between its work and the move to the next dot: the
    /// penalty may already be counted on dot 80.
    pub open spec fn wf_within_dot(self) -> bool {
        &&& self.memory.len() == 0x10000
        &&& self.frame.len() == SCREEN_PIXELS
        &&& self.line_dots < LINE_DOTS
        &&& self.screen_dot <= SCREEN_WIDTH
        &&& self.dots_penalties <= 7
        &&& (self.line_dots < SCAN_OAM_DOTS || self.line_dots >= HBLANK_DOTS_START ==> self.dots_penalties == 0)
        &&& self.dots_penalties_counter == 0
        &&& self.line_oam.len() <= MAX_SPRITE_PER_LINE
    }
}

/// Law: a read of the PPU's memory gives back the last byte written at that address, and a
/// write leaves every other address as it was.
pub proof fn lemma_ppu_memory_read_after_write(v: PpuView, address: u16, other: u16, data: u8)
    requires
        v.memory.len() == 0x10000,
    ensures
        v.written(address, data).byte(address) == data,
        other != address ==> v.written(address, data).byte(other) == v.byte(other),
{
}

proof fn lemma_mode_bits_in_stat(stat: u8, bits: u8)
    by (bit_vector)
    requires
        bits < 4,
    ensures
        ((stat & 0xFC) | bits) & 0x03 == bits,
        ((stat & 0xFC) | bits) & 0xFC == stat & 0xFC,
{
}

/// Law: the mode bits of STAT (0xFF41) follow the dot of the line, and LY (0xFF44) counts the
/// lines. A line has 456 dots and a frame 154 lines. Moving to dot 0 moves LY to the next
/// line and sets mode 2 (OAM scan) on lines 0 to 143, mode 1 (VBlank) on lines 144 to 153;
/// dot 80 sets mode 3 (drawing) and dot 371 mode 0 (horizontal blank) on the visible lines,
/// while lines 144 to 153 keep mode 1. The other STAT bits are kept, and the other dots
/// leave STAT and LY alone. The first dot of line 144 enters VBlank and requests the VBlank
/// interrupt (IF bit 0); no other dot touches IF.
pub proof fn lemma_stat_mode_follows_dot(v: PpuView)
    requires
        v.wf(),
        v.line() < 154,
    ensures
        ({
            let line = v.line() as int;
            let w = advance_dot(v, v.line());
            let ld = (v.line_dots + 1) % 456;
            let mode = w.byte(0xFF41) & 0x03;
            &&& w.byte(0xFF41) & 0xFC == v.byte(0xFF41) & 0xFC
            &&& w.byte(0xFF0F) == v.byte(0xFF0F)
            &&& ld == 0 ==> w.byte(0xFF44) == (line + 1) % 154 && mode == (if (line + 1) % 154 < 144 { 2u8 } else { 1u8 })
            &&& ld == 80 ==> w.byte(0xFF44) == line && mode == (if line < 144 { 3u8 } else { 1u8 })
            &&& ld == 371 ==> w.byte(0xFF44) == line && mode == (if line < 144 { 0u8 } else { 1u8 })
            &&& ld != 0 && ld != 80 && ld != 371 ==> w.byte(0xFF44) == line && w.byte(0xFF41) == v.byte(0xFF41)
        }),
        ({
            let w = execute_dot(v);
            &&& v.line() == 144 && v.line_dots == 0 ==> w.byte(0xFF0F) == v.byte(0xFF0F) | 0x01
                && w.byte(0xFF41) & 0x03 == 1 && w.byte(0xFF41) & 0xFC == v.byte(0xFF41) & 0xFC
            &&& !(v.line() == 144 && v.line_dots == 0) ==> w.byte(0xFF0F) == v.byte(0xFF0F) && w.byte(0xFF41) == v.byte(0xFF41)
                && w.byte(0xFF44) == v.byte(0xFF44)
        }),
{
    let stat = v.byte(0xFF41);
    lemma_mode_bits_in_stat(stat, 0);
    lemma_mode_bits_in_stat(stat, 1);
    lemma_mode_bits_in_stat(stat, 2);
    lemma_mode_bits_in_stat(stat, 3);
}

/// STAT with its mode bits set to a mode.
pub open spec fn with_mode(v: PpuView, mode: PPUMode) -> PpuView {
    v.written(LCD_STAT_ADDRESS, (v.byte(LCD_STAT_ADDRESS) & 0xFC) | ppu_mode_bits(mode))
}

/// The address of a tile's first byte. Objects, and the background while LCDC bit 4 is set,
/// take tiles 0..=255 from 0x8000; otherwise tiles 128..=255 come from 0x8800 and 0..=127
/// from 0x9000.
pub open spec fn tile_address(lcdc: u8, tile_id: u8, bg_win: bool) -> int {
    if bg_win && lcdc & 0x10 == 0 {
        (if tile_id > 127 { 0x8800int } else { 0x9000int }) + (tile_id % 128) * 16
    } else {
        0x8000 + tile_id * 16
    }
}

/// The 16 bytes of a tile.
pub open spec fn tile_data(v: PpuView, tile_id: u8, bg_win: bool) -> Seq<u8> {
    let a = tile_address(v.lcdc(), tile_id, bg_win);
    v.memory.subrange(a, a + 16)
}

/// The OAM address of entry `id`, as a 16-bit address.
pub open spec fn oam_address(id: usize) -> int {
    (id * 4 + 0xFE00) % 0x10000
}

/// The object of OAM entry `id`.
pub open spec fn oam_at(v: PpuView, id: usize) -> OAM {
    let a = oam_address(id);
    let attributes = v.memory[a + 3];
    OAM {
        id: Some(id),
        y: v.memory[a],
        x: v.memory[a + 1],
        tile_id: v.memory[a + 2],
        priority: attributes & 0x80 != 0,
        y_flip: attributes & 0x40 != 0,
        x_flip: attributes & 0x20 != 0,
        palette: attributes & 0x10 != 0,
    }
}

/// The background map entry under screen pixel `(x, y)`, after scrolling.
pub open spec fn bg_chr_id(v: PpuView, x: u8, y: u8) -> int {
    ((v.scx() + x) % 256) / 8 + (((v.scy() + y) % 256) / 8) * 32
}

/// The tile number of background map entry `id`.
pub open spec fn bg_chr(v: PpuView, id: int) -> u8 {
    v.memory[(0x9800 + id) % 0x10000]
}

/// Whether LCDC selects 8x16 objects.
pub open spec fn tile_mode(v: PpuView) -> bool {
    v.lcdc() & 0x04 != 0
}

/// One dot of the object scan: the first 40 dots each look at one OAM entry and keep it
/// when it covers the line, up to ten objects.
pub open spec fn scan_step(v: PpuView, line: int) -> PpuView {
    if v.line_dots < OAM_NUMBERS && v.line_oam.len() < MAX_SPRITE_PER_LINE {
        let oam = oam_at(v, v.line_dots);
        let height = if tile_mode(v) { 16int } else { 8int };
        if oam.y - 16 <= line && oam.y - 16 + height > line {
            PpuView { line_oam: v.line_oam.push(oam), ..v }
        } else {
            v
        }
    } else {
        v
    }
}

/// The pixel the line's current object puts at the current dot, if any: none when the
/// object does not cover the dot or its pixel has colour 0.
pub open spec fn object_pixel(v: PpuView, line: int) -> Option<GbPalette> {
    let oam = v.line_oam[v.line_oam_number as int];
    let obj_dot = v.screen_dot - (oam.x - 8);
    let obj_line = line - (oam.y - 16);
    if 0 <= obj_dot < 8 && 0 <= obj_line < 8 {
        let pixel = tile_pixel(tile_data(v, oam.tile_id, false), obj_dot + obj_line * 8);
        if pixel != GbPalette::White { Some(pixel) } else { None }
    } else {
        None
    }
}

/// The background pixel at the current dot, after scrolling.
pub open spec fn background_pixel(v: PpuView, line: int) -> GbPalette {
    let chr = bg_chr(v, bg_chr_id(v, v.screen_dot as u8, line as u8));
    let x_tile = ((v.scx() + v.screen_dot) % 256) % 8;
    let y_tile = ((v.scy() + line) % 256) % 8;
    tile_pixel(tile_data(v, chr, true), x_tile + y_tile * 8)
}

/// The frame after drawing the current pixel of a line: the pixel of the line's current
/// object when objects are on (nothing when it is transparent or off the object), else the
/// background pixel when the background is on, else colour 0.
pub open spec fn drawn_frame(v: PpuView, line: int) -> Seq<GbPalette> {
    let idx = v.screen_dot + line * SCREEN_WIDTH;
    if v.lcdc() & 0x02 != 0 && v.line_oam_number < v.line_oam.len() {
        match object_pixel(v, line) {
            Some(pixel) => v.frame.update(idx, pixel),
            None => v.frame,
        }
    } else if v.lcdc() & 0x01 != 0 {
        v.frame.update(idx, background_pixel(v, line))
    } else {
        v.frame.update(idx, GbPalette::White)
    }
}

/// One drawing dot: the next pixel of the line, while the line has pixels left.
pub open spec fn draw_step(v: PpuView, line: int) -> PpuView {
    if v.screen_dot < SCREEN_WIDTH {
        PpuView { frame: drawn_frame(v, line), screen_dot: (v.screen_dot + 1) as usize, ..v }
    } else {
        v
    }
}

/// Whether the next dot enters vertical blank and requests the VBlank interrupt: the first
/// dot of line 144.
pub open spec fn requests_vblank(v: PpuView) -> bool {
    v.line() == 144 && v.line_dots == 0
}

/// The work of a dot: entering VBlank on line 144 (mode 1, VBlank interrupt requested), or on
/// a visible line the object scan, the drawing (after adding the scroll penalty on dot 80)
/// or nothing during horizontal blank.
pub open spec fn execute_dot(v: PpuView) -> PpuView {
    let line = v.line();
    if line > 143 {
        if requests_vblank(v) {
            let v1 = with_mode(v, PPUMode::VBlank);
            v1.written(IF_ADDRESS, v1.byte(IF_ADDRESS) | 0x01)
        } else {
            v
        }
    } else {
        let v1 = if v.line_dots == SCAN_OAM_DOTS {
            PpuView { dots_penalties: (v.dots_penalties + v.scx() % 8) as usize, ..v }
        } else {
            v
        };
        if v1.line_dots <= SCAN_OAM_DOTS_END {
            scan_step(v1, line as int)
        } else if v1.line_dots <= DRAW_DOTS_END {
            draw_step(v1, line as int)
        } else {
            v1
        }
    }
}

/// The mode a line shows for a step of its dots: lines 144 to 153 stay in vertical blank.
pub open spec fn line_mode(line: int, m: PPUMode) -> PPUMode {
    if line < SCREEN_HEIGHT { m } else { PPUMode::VBlank }
}

/// The move to the next dot: a new line (LY moved on; mode 2, OAM scan, or mode 1 on the
/// vertical blank lines) at dot 0, drawing (mode 3) at dot 80, horizontal blank (mode 0) at
/// dot 371, which also skips the penalty dots and clears the line's objects and pixel
/// counter. Lines 144 to 153 keep mode 1 throughout.
pub open spec fn advance_dot(v: PpuView, line: u8) -> PpuView {
    if v.dots_penalties_counter > 0 {
        PpuView { dots_penalties_counter: (v.dots_penalties_counter - 1) as usize, ..v }
    } else {
        let ld = ((v.line_dots + 1) % LINE_DOTS as int) as usize;
        let v1 = PpuView { line_dots: ld, ..v };
        if ld == 0 {
            let next = (line + 1) % FRAME_LINES as int;
            with_mode(v1, line_mode(next, PPUMode::OAMScan)).written(LY_ADDRESS, next as u8)
        } else if ld == SCAN_OAM_DOTS {
            with_mode(v1, line_mode(line as int, PPUMode::Drawing))
        } else if ld == HBLANK_DOTS_START {
            with_mode(
                PpuView {
                    line_dots: (HBLANK_DOTS_START + v.dots_penalties) as usize,
                    dots_penalties: 0,
                    line_oam: Seq::empty(),
                    line_oam_number: 0,
                    screen_dot: 0,
                    ..v1
                },
                line_mode(line as int, PPUMode::HBlank),
            )
        } else {
            v1
        }
    }
}

/// The characters of one row of the text picture of the screen: one per pixel, or two when
/// doubled, and a line break.
pub open spec fn text_width(doubled: bool) -> int {
    if doubled { 2 * SCREEN_WIDTH + 1 } else { SCREEN_WIDTH + 1 }
}

/// Character `k` of the text picture of a frame: row `k / text_width`, the line break at the
/// end of each row, else the shade of the pixel under the column.
pub open spec fn frame_char(frame: Seq<GbPalette>, doubled: bool, k: int) -> char {
    let w = text_width(doubled);
    let row = k / w;
    let col = k % w;
    if col == w - 1 {
        '\n'
    } else {
        shade_char(frame[row * SCREEN_WIDTH + if doubled { col / 2 } else { col }])
    }
}

/// The text picture of a frame: its 144 rows of shade characters, each row ended by a line
/// break.
pub open spec fn frame_text(frame: Seq<GbPalette>, doubled: bool) -> Seq<char> {
    Seq::new((SCREEN_HEIGHT * text_width(doubled)) as nat, |k: int| frame_char(frame, doubled, k))
}

proof fn lemma_row_col(i: int, c: int, w: int)
    requires
        0 <= c < w,
    ensures
        (i * w + c) / w == i,
        (i * w + c) % w == c,
{
    vstd::arithmetic::div_mod::lemma_fundamental_div_mod_converse(i * w + c, w, i, c);
}

/// The PPU.
pub struct PPU {
    memory: RAM,
    frame: Vec<GbPalette>,
    line_dots: usize,
    screen_dot: usize,
    dots_penalties: usize,
    dots_penalties_counter: usize,
    line_oam: Vec<OAM>,
    line_oam_number: usize,
}

impl View for PPU {
    type V = PpuView;

    closed spec fn view(&self) -> PpuView {
        PpuView {
            memory: self.memory.contents(),
            frame: self.frame@,
            line_dots: self.line_dots,
            screen_dot: self.screen_dot,
            dots_penalties: self.dots_penalties,
            dots_penalties_counter: self.dots_penalties_counter,
            line_oam: self.line_oam@,
            line_oam_number: self.line_oam_number,
        }
    }
}


proof fn lemma_flag_bit(x: u8, bit: u8, mask: u8, flag: bool)
    by (bit_vector)
    requires
        bit < 8,
        mask == 1u8 << bit,
    ensures
        (x & !mask) | ((if flag { 1u8 } else { 0u8 }) << bit) == if flag { x | mask } else { x & !mask },
{
}

proof fn lemma_truncate_address(x: usize)
    by (bit_vector)
    ensures
        (x as u16) == x % 0x10000,
{
}

impl PPU {
    /// A PPU working on a memory, with a blank frame and all counters at 0.
    pub fn new(memory: RAM) -> (r: Self)
        requires
            memory.wf(),
        ensures
            r@.memory == memory.contents(),
            r@.frame == Seq::new(SCREEN_PIXELS as nat, |i: int| GbPalette::White),
            r@.line_dots == 0 && r@.screen_dot == 0 && r@.dots_penalties == 0,
            r@.dots_penalties_counter == 0 && r@.line_oam_number == 0,
            r@.line_oam == Seq::<OAM>::empty(),
            r@.wf(),
    {
        let mut frame: Vec<GbPalette> = Vec::new();
        let mut i: usize = 0;
        while i < SCREEN_PIXELS
            invariant
                i <= SCREEN_PIXELS,
                frame@ == Seq::new(i as nat, |j: int| GbPalette::White),
            decreases SCREEN_PIXELS - i,
        {
            frame.push(GbPalette::White);
            i = i + 1;
        }
        Self {
            memory,
            frame,
            line_dots: 0,
            screen_dot: 0,
            dots_penalties: 0,
            dots_penalties_counter: 0,
            line_oam: Vec::new(),
            line_oam_number: 0,
        }
    }

    pub fn read_memory(&self, address: u16) -> (r: u8)
        requires
            self@.wf_within_dot(),
        ensures
            r == self@.byte(address),
    {
        self.memory.read(address)
    }

    pub fn write_memory(&mut self, address: u16, data: u8)
        requires
            old(self)@.wf_within_dot(),
        ensures
            final(self)@ == old(self)@.written(address, data),
    {
        self.memory.write(address, data)
    }

    /// The memory the PPU works on.
    pub fn memory(&self) -> (r: &RAM)
        ensures
            r.contents() == self@.memory,
    {
        &self.memory
    }

    /// The memory the PPU works on, to change it from outside: what is written there is what
    /// the PPU reads afterwards.
    pub fn memory_mut(&mut self) -> (r: &mut RAM)
        ensures
            r.contents() == old(self)@.memory,
            final(self)@ == (PpuView { memory: final(r).contents(), ..old(self)@ }),
    {
        &mut self.memory
    }

    /// The dot of the current line.
    pub fn line_dots(&self) -> (r: usize)
        ensures
            r == self@.line_dots,
    {
        self.line_dots
    }

    /// The pixel of the line drawn next.
    pub fn screen_dot(&self) -> (r: usize)
        ensures
            r == self@.screen_dot,
    {
        self.screen_dot
    }

    /// The frame drawn so far, row by row.
    pub fn frame(&self) -> (r: &Vec<GbPalette>)
        ensures
            r@ == self@.frame,
    {
        &self.frame
    }

    /// Sets the mode bits of STAT.
    fn set_mode(&mut self, mode: PPUMode)
        requires
            old(self)@.wf_within_dot(),
        ensures
            final(self)@ == with_mode(old(self)@, mode),
    {
        let register = self.read_memory(LCD_STAT_ADDRESS) & !LCDStatMasks::PPUMode.mask();
        assert(!0x03u8 == 0xFCu8) by (bit_vector);
        self.write_memory(LCD_STAT_ADDRESS, register | mode.bits());
    }

    /// The tile `tile_id`, from the object tile area, or from the area LCDC selects for the
    /// background and window when `bg_win` holds.
    pub fn get_tile(&self, tile_id: u8, bg_win: bool) -> (r: Tile)
        requires
            self@.wf_within_dot(),
        ensures
            r.data@ == tile_data(self@, tile_id, bg_win),
    {
        let mut data: [u8; 16] = [0; 16];
        let lcdc = self.read_memory(LCDC_ADDRESS);
        let old_tile_id = tile_id;
        let mut tile_id = tile_id;
        let mut start_address = VRAM_BLOCK_0_ADDRESS;
        if bg_win {
            let bg_wind_tile = (lcdc & LCDCMasks::BgWinTilesArea.mask()) == 0;
            if bg_wind_tile {
                start_address = if tile_id > 127 { VRAM_BLOCK_1_ADDRESS } else { VRAM_BLOCK_2_ADDRESS };
                tile_id = tile_id % 128;
            }
        }
        start_address = start_address + tile_id as usize * TILE_SIZE;
        let mut i: usize = 0;
        while i < TILE_SIZE
            invariant
                i <= TILE_SIZE,
                start_address == tile_address(self@.lcdc(), old_tile_id, bg_win),
                start_address + 16 <= 0x10000,
                self@.wf_within_dot(),
                forall|k: int| 0 <= k < i ==> #[trigger] data@[k] == self@.memory[start_address + k],
                data@.len() == 16,
            decreases TILE_SIZE - i,
        {
            data[i] = self.read_memory((start_address + i) as u16);
            i = i + 1;
        }
        assert(data@ =~= tile_data(self@, old_tile_id, bg_win));
        Tile::new(data)
    }

    /// One dot of the PPU. On a visible line the first 80 dots scan OAM for the objects of
    /// the line, the next ones draw its 160 pixels (after as many penalty dots as SCX mod 8),
    /// the rest are horizontal blank; lines 144 to 153 are vertical blank, entered with a
    /// VBlank interrupt request. LY and the mode bits of STAT follow.
    pub fn cycle(&mut self)
        requires
            old(self)@.wf(),
        ensures
            final(self)@ == advance_dot(execute_dot(old(self)@), old(self)@.line()),
            final(self)@.wf(),
    {
        let line = self.get_line() as usize;
        if line > SCREEN_HEIGHT - 1 {
            if line == SCREEN_HEIGHT && self.line_dots == 0 {
                self.set_mode(PPUMode::VBlank);
                let old_if = self.read_memory(IF_ADDRESS);
                self.write_memory(IF_ADDRESS, old_if | 0x01);
            }
        } else {
            if self.line_dots == SCAN_OAM_DOTS {
                let scx = self.get_scx() as usize;
                self.dots_penalties = self.dots_penalties + scx % 8;
            }
            if self.line_dots <= SCAN_OAM_DOTS_END {
                self.scan_oam_dot(line);
            } else if self.line_dots <= DRAW_DOTS_END {
                self.draw_dot(line);
            }
        }
        self.advance(line);
    }

    /// One dot of the object scan.
    fn scan_oam_dot(&mut self, line: usize)
        requires
            old(self)@.wf_within_dot(),
            old(self)@.line_dots <= SCAN_OAM_DOTS_END,
            line < SCREEN_HEIGHT,
        ensures
            final(self)@ == scan_step(old(self)@, line as int),
            final(self)@.wf_within_dot(),
    {
        if self.line_dots < OAM_NUMBERS && self.line_oam.len() < MAX_SPRITE_PER_LINE {
            let line_isize = line as isize;
            let tile_mod = self.get_tile_mode();
            let oam = self.get_oam(self.line_dots);
            let oam_y_screen = oam.get_y_screen();
            let tile_height: usize = TILE_HEIGHT * (if tile_mod { 2 } else { 1 });
            if oam_y_screen <= line_isize && (oam_y_screen + tile_height as isize) > line_isize {
                self.line_oam.push(oam);
            }
        }
    }

    /// The pixel the line's current object puts at the current dot, if any.
    fn object_pixel(&self, line: usize) -> (r: Option<GbPalette>)
        requires
            self@.wf_within_dot(),
            line < SCREEN_HEIGHT,
            self.line_oam_number < self@.line_oam.len(),
        ensures
            r == object_pixel(self@, line as int),
    {
        let oam = self.line_oam[self.line_oam_number];
        let obj_dot = self.screen_dot as isize - oam.get_x_screen();
        if obj_dot >= 0 && obj_dot < TILE_WIDTH as isize {
            let obj_line = line as isize - oam.get_y_screen();
            if obj_line >= 0 && obj_line < TILE_HEIGHT as isize {
                let tile = self.get_tile(oam.get_tile_id(), false);
                let tile_pixel_index = obj_dot + obj_line * TILE_WIDTH as isize;
                let picture = tile.to_picture();
                let pixel = picture[tile_pixel_index as usize];
                if pixel != GbPalette::White {
                    return Some(pixel);
                }
            }
        }
        None
    }

    /// The background pixel at the current dot.
    fn background_pixel(&self, line: usize) -> (r: GbPalette)
        requires
            self@.wf_within_dot(),
            line < SCREEN_HEIGHT,
            line == self@.line(),
            self@.screen_dot < SCREEN_WIDTH,
        ensures
            r == background_pixel(self@, line as int),
    {
        let chr_id = self.get_bg_chr_id(self.screen_dot as u8, line as u8);
        let chr = self.get_bg_chr(chr_id);
        let tile = self.get_tile(chr, true);
        let x_tile = self.get_bg_x() as usize % TILE_WIDTH;
        let y_tile = self.get_bg_y() as usize % TILE_HEIGHT;
        let picture = tile.to_picture();
        let k = x_tile + y_tile * TILE_WIDTH;
        picture[k]
    }

    /// One drawing dot.
    fn draw_dot(&mut self, line: usize)
        requires
            old(self)@.wf_within_dot(),
            line < SCREEN_HEIGHT,
            line == old(self)@.line(),
        ensures
            final(self)@ == draw_step(old(self)@, line as int),
            final(self)@.wf_within_dot(),
    {
        if self.screen_dot < SCREEN_WIDTH {
            let screen_pixel_index = self.screen_dot + line * SCREEN_WIDTH;
            let is_bg_enabled = self.is_bg_win_enabled();
            let is_sprite_enabled = self.is_obj_enabled();
            if is_sprite_enabled && self.line_oam_number < self.line_oam.len() {
                match self.object_pixel(line) {
                    Some(pixel) => self.frame.set(screen_pixel_index, pixel),
                    None => {},
                }
            } else if is_bg_enabled {
                let pixel = self.background_pixel(line);
                self.frame.set(screen_pixel_index, pixel);
            } else {
                self.frame.set(screen_pixel_index, GbPalette::White);
            }
            self.screen_dot = self.screen_dot + 1;
        }
    }

    /// The move to the next dot. The objects of a line are kept in OAM order, as the scan
    /// found them, so drawing needs no sort.
    fn advance(&mut self, line: usize)
        requires
            old(self)@.wf_within_dot(),
            line == old(self)@.line(),
        ensures
            final(self)@ == advance_dot(old(self)@, line as u8),
            final(self)@.wf(),
    {
        if self.dots_penalties_counter > 0 {
            self.dots_penalties_counter = self.dots_penalties_counter - 1;
        } else {
            self.line_dots = (self.line_dots + 1) % LINE_DOTS;
            if self.line_dots == 0 {
                let next_line = (line + 1) % FRAME_LINES;
                self.set_mode(Self::mode_of_line(next_line, PPUMode::OAMScan));
                self.write_memory(LY_ADDRESS, next_line as u8);
            } else if self.line_dots == SCAN_OAM_DOTS {
                self.set_mode(Self::mode_of_line(line, PPUMode::Drawing));
            } else if self.line_dots == HBLANK_DOTS_START {
                let penalties = self.dots_penalties;
                self.dots_penalties = 0;
                self.line_dots = self.line_dots + penalties;
                self.set_mode(Self::mode_of_line(line, PPUMode::HBlank));
                self.line_oam.clear();
                self.line_oam_number = 0;
                self.screen_dot = 0;
            }
        }
    }

    fn mode_of_line(line: usize, m: PPUMode) -> (r: PPUMode)
        ensures
            r == line_mode(line as int, m),
    {
        if line < SCREEN_HEIGHT { m } else { PPUMode::VBlank }
    }

    /// Whether objects are 8x16 (two tiles) rather than 8x8.
    pub fn get_tile_mode(&self) -> (r: bool)
        requires
            self@.wf_within_dot(),
        ensures
            r == tile_mode(self@),
    {
        let lcdc = self.read_memory(LCDC_ADDRESS);
        (lcdc & LCDCMasks::ObjSize.mask()) != 0
    }

    /// Whether the background and window are drawn.
    pub fn is_bg_win_enabled(&self) -> (r: bool)
        requires
            self@.wf_within_dot(),
        ensures
            r == (self@.lcdc() & 0x01 != 0),
    {
        let lcdc = self.read_memory(LCDC_ADDRESS);
        (lcdc & LCDCMasks::BgWinEnabled.mask()) != 0
    }

    /// Whether objects are drawn.
    pub fn is_obj_enabled(&self) -> (r: bool)
        requires
            self@.wf_within_dot(),
        ensures
            r == (self@.lcdc() & 0x02 != 0),
    {
        let lcdc = self.read_memory(LCDC_ADDRESS);
        (lcdc & LCDCMasks::ObjEnabled.mask()) != 0
    }

    /// The 1024 tiles of the background map at 0x9800, in map order.
    pub fn get_bg(&self) -> (r: Vec<Tile>)
        requires
            self@.wf_within_dot(),
        ensures
            r@.len() == MAP_TILES,
            forall|i: int| 0 <= i < MAP_TILES ==> (#[trigger] r@[i]).data@ == tile_data(self@, bg_chr(self@, i), true),
    {
        let mut tiles: Vec<Tile> = Vec::new();
        let mut i: usize = 0;
        while i < MAP_TILES
            invariant
                i <= MAP_TILES,
                self@.wf_within_dot(),
                tiles@.len() == i,
                forall|k: int| 0 <= k < i ==> (#[trigger] tiles@[k]).data@ == tile_data(self@, bg_chr(self@, k), true),
            decreases MAP_TILES - i,
        {
            let chr = self.get_bg_chr(i);
            tiles.push(self.get_tile(chr, true));
            i = i + 1;
        }
        tiles
    }

    /// LY, the line being drawn.
    pub fn get_line(&self) -> (r: u8)
        requires
            self@.wf_within_dot(),
        ensures
            r == self@.line(),
    {
        self.read_memory(LY_ADDRESS)
    }

    /// Whether the next dot enters vertical blank and requests the VBlank interrupt.
    pub fn requests_vblank(&self) -> (r: bool)
        requires
            self@.wf_within_dot(),
        ensures
            r == requests_vblank(self@),
    {
        self.get_line() == SCREEN_HEIGHT as u8 && self.line_dots == 0
    }

    /// STAT, the LCD status register.
    pub fn get_stat(&self) -> (r: u8)
        requires
            self@.wf_within_dot(),
        ensures
            r == self@.byte(LCD_STAT_ADDRESS),
    {
        self.read_memory(LCD_STAT_ADDRESS)
    }

    /// SCY, the background's vertical scroll.
    pub fn get_scy(&self) -> (r: u8)
        requires
            self@.wf_within_dot(),
        ensures
            r == self@.scy(),
    {
        self.read_memory(SCY_ADDRESS)
    }

    /// SCX, the background's horizontal scroll.
    pub fn get_scx(&self) -> (r: u8)
        requires
            self@.wf_within_dot(),
        ensures
            r == self@.scx(),
    {
        self.read_memory(SCX_ADDRESS)
    }

    /// The object of OAM entry `id` (entries lie four bytes apart from 0xFE00; the address
    /// wraps at 16 bits).
    pub fn get_oam(&self, id: usize) -> (r: OAM)
        requires
            self@.wf_within_dot(),
            id * OAM_BYTE_SIZE + OAM_AREA_ADDRESS <= usize::MAX,
            oam_address(id) + 3 <= 0xFFFF,
        ensures
            r == oam_at(self@, id),
    {
        let full = id * OAM_BYTE_SIZE + OAM_AREA_ADDRESS;
        proof {
            lemma_truncate_address(full);
        }
        let address = full as u16;
        let y = self.read_memory(address);
        let x = self.read_memory(address + 1);
        let tile_id = self.read_memory(address + 2);
        let attributes = self.read_memory(address + 3);
        OAM::new(y, x, tile_id, attributes, Some(id))
    }

    /// The column of the background map under the current pixel.
    pub fn get_bg_x(&self) -> (r: u8)
        requires
            self@.wf_within_dot(),
        ensures
            r == (self@.scx() + self@.screen_dot) % 256,
    {
        ((self.get_scx() as usize + self.screen_dot) % MAP_ROW_PIXELS) as u8
    }

    /// The row of the background map under the current line.
    pub fn get_bg_y(&self) -> (r: u8)
        requires
            self@.wf_within_dot(),
        ensures
            r == (self@.scy() + self@.line()) % 256,
    {
        ((self.get_scy() as usize + self.get_line() as usize) % MAP_HEIGHT_PIXELS) as u8
    }

    /// The tile number of background map entry `id`.
    pub fn get_bg_chr(&self, id: usize) -> (r: u8)
        requires
            self@.wf_within_dot(),
            BG_DATA_1_ADDRESS + id <= usize::MAX,
        ensures
            r == bg_chr(self@, id as int),
    {
        let full = BG_DATA_1_ADDRESS + id;
        proof {
            lemma_truncate_address(full);
        }
        self.read_memory(full as u16)
    }

    /// The frame as text: a character per pixel (two when `doubled`), each row ended by a
    /// line break.
    pub fn get_frame_string(&self, doubled: bool) -> (r: Vec<char>)
        requires
            self@.wf_within_dot(),
        ensures
            r@ == frame_text(self@.frame, doubled),
    {
        let ghost frame = self@.frame;
        let ghost w = text_width(doubled);
        let m: usize = if doubled { 2 } else { 1 };
        let mut s: Vec<char> = Vec::new();
        let mut i: usize = 0;
        while i < SCREEN_HEIGHT
            invariant
                i <= SCREEN_HEIGHT,
                frame == self@.frame,
                frame.len() == SCREEN_PIXELS,
                w == text_width(doubled),
                m == if doubled { 2usize } else { 1usize },
                s@.len() == i * w,
                forall|k: int| 0 <= k < s@.len() ==> s@[k] == frame_char(frame, doubled, k),
            decreases SCREEN_HEIGHT - i,
        {
            let mut j: usize = 0;
            while j < SCREEN_WIDTH
                invariant
                    i < SCREEN_HEIGHT,
                    j <= SCREEN_WIDTH,
                    frame == self@.frame,
                    frame.len() == SCREEN_PIXELS,
                    w == text_width(doubled),
                    m == if doubled { 2usize } else { 1usize },
                    s@.len() == i * w + j * m,
                    forall|k: int| 0 <= k < s@.len() ==> s@[k] == frame_char(frame, doubled, k),
                decreases SCREEN_WIDTH - j,
            {
                assert(i * SCREEN_WIDTH + j < SCREEN_PIXELS) by (nonlinear_arith)
                    requires
                        i < SCREEN_HEIGHT,
                        j < SCREEN_WIDTH,
                ;
                let c = self.frame[j + i * SCREEN_WIDTH].shade_char();
                proof {
                    lemma_row_col(i as int, (j * m) as int, w);
                }
                s.push(c);
                if doubled {
                    proof {
                        lemma_row_col(i as int, (j * m + 1) as int, w);
                    }
                    s.push(c);
                }
                j = j + 1;
            }
            proof {
                lemma_row_col(i as int, w - 1, w);
            }
            s.push('\n');
            assert(s@.len() == (i + 1) * w) by (nonlinear_arith)
                requires
                    s@.len() == i * w + SCREEN_WIDTH * m + 1,
                    w == SCREEN_WIDTH * m + 1,
            ;
            i = i + 1;
        }
        assert(s@ =~= frame_text(frame, doubled));
        s
    }

    /// The background map entry under screen pixel `(x, y)`, after scrolling.
    pub fn get_bg_chr_id(&self, x: u8, y: u8) -> (r: usize)
        requires
            self@.wf_within_dot(),
        ensures
            r == bg_chr_id(self@, x, y),
    {
        let scy = self.get_scy() as usize;
        let scx = self.get_scx() as usize;
        let y = (scy + y as usize) % MAP_HEIGHT_PIXELS;
        let x = (scx + x as usize) % MAP_ROW_PIXELS;
        let map_row = y / TILE_HEIGHT;
        let map_column = x / TILE_WIDTH;
        map_column + map_row * MAP_ROW_TILES
    }

    /// Whether an LCDC bit is set.
    pub fn get_lcdc_flag(&self, mask: LCDCMasks) -> (r: bool)
        requires
            self@.wf_within_dot(),
        ensures
            r == (self@.lcdc() & lcdc_mask(mask) != 0),
    {
        (self.read_memory(LCDC_ADDRESS) & mask.mask()) != 0
    }

    /// Sets or clears an LCDC bit; the other bits stay.
    pub fn set_lcdc_flag(&mut self, mask: LCDCMasks, flag: bool)
        requires
            old(self)@.wf_within_dot(),
        ensures
            final(self)@ == old(self)@.written(
                LCDC_ADDRESS,
                if flag { old(self)@.lcdc() | lcdc_mask(mask) } else { old(self)@.lcdc() & !lcdc_mask(mask) },
            ),
    {
        let flag_byte = self.read_memory(LCDC_ADDRESS);
        let base_mask = !mask.mask();
        let bit_num = mask.bit();
        let flag_bit: u8 = if flag { 1 } else { 0 };
        proof {
            let m = lcdc_mask(mask);
            let b = lcdc_bit(mask);
            assert(m == 1u8 << b) by (bit_vector)
                requires
                    (b == 0 && m == 0x01) || (b == 1 && m == 0x02) || (b == 2 && m == 0x04) || (b == 3 && m == 0x08)
                    || (b == 4 && m == 0x10) || (b == 5 && m == 0x20) || (b == 6 && m == 0x40) || (b == 7 && m == 0x80),
            ;
            lemma_flag_bit(flag_byte, bit_num, lcdc_mask(mask), flag);
        }
        self.write_memory(LCDC_ADDRESS, flag_byte & base_mask | (flag_bit << bit_num));
    }

    /// Whether LCDC turns on BG and window display.
    pub fn get_bg_win_enabled_flag(&self) -> (r: bool)
        requires
            self@.wf_within_dot(),
        ensures
            r == (self@.lcdc() & lcdc_mask(LCDCMasks::BgWinEnabled) != 0),
    {
        self.get_lcdc_flag(LCDCMasks::BgWinEnabled)
    }

    /// Turns BG and window display on or off in LCDC.
    pub fn set_bg_win_enabled_flag(&mut self, flag: bool)
        requires
            old(self)@.wf_within_dot(),
        ensures
            final(self)@ == old(self)@.written(
                LCDC_ADDRESS,
                if flag { old(self)@.lcdc() | lcdc_mask(LCDCMasks::BgWinEnabled) } else { old(self)@.lcdc() & !lcdc_mask(LCDCMasks::BgWinEnabled) },
            ),
    {
        self.set_lcdc_flag(LCDCMasks::BgWinEnabled, flag)
    }

    /// Whether LCDC turns on object display.
    pub fn get_obj_enabled_flag(&self) -> (r: bool)
        requires
            self@.wf_within_dot(),
        ensures
            r == (self@.lcdc() & lcdc_mask(LCDCMasks::ObjEnabled) != 0),
    {
        self.get_lcdc_flag(LCDCMasks::ObjEnabled)
    }

    /// Turns object display on or off in LCDC.
    pub fn set_obj_enabled_flag(&mut self, flag: bool)
        requires
            old(self)@.wf_within_dot(),
        ensures
            final(self)@ == old(self)@.written(
                LCDC_ADDRESS,
                if flag { old(self)@.lcdc() | lcdc_mask(LCDCMasks::ObjEnabled) } else { old(self)@.lcdc() & !lcdc_mask(LCDCMasks::ObjEnabled) },
            ),
    {
        self.set_lcdc_flag(LCDCMasks::ObjEnabled, flag)
    }

    /// Whether LCDC turns on 8x16 objects.
    pub fn get_obj_size_flag(&self) -> (r: bool)
        requires
            self@.wf_within_dot(),
        ensures
            r == (self@.lcdc() & lcdc_mask(LCDCMasks::ObjSize) != 0),
    {
        self.get_lcdc_flag(LCDCMasks::ObjSize)
    }

    /// Turns 8x16 objects on or off in LCDC.
    pub fn set_obj_size_flag(&mut self, flag: bool)
        requires
            old(self)@.wf_within_dot(),
        ensures
            final(self)@ == old(self)@.written(
                LCDC_ADDRESS,
                if flag { old(self)@.lcdc() | lcdc_mask(LCDCMasks::ObjSize) } else { old(self)@.lcdc() & !lcdc_mask(LCDCMasks::ObjSize) },
            ),
    {
        self.set_lcdc_flag(LCDCMasks::ObjSize, flag)
    }

    /// Whether LCDC turns on the 0x9C00 background map.
    pub fn get_bg_tile_map_area_flag(&self) -> (r: bool)
        requires
            self@.wf_within_dot(),
        ensures
            r == (self@.lcdc() & lcdc_mask(LCDCMasks::BgTileMapArea) != 0),
    {
        self.get_lcdc_flag(LCDCMasks::BgTileMapArea)
    }

    /// Turns the 0x9C00 background map on or off in LCDC.
    pub fn set_bg_tile_map_area_flag(&mut self, flag: bool)
        requires
            old(self)@.wf_within_dot(),
        ensures
            final(self)@ == old(self)@.written(
                LCDC_ADDRESS,
                if flag { old(self)@.lcdc() | lcdc_mask(LCDCMasks::BgTileMapArea) } else { old(self)@.lcdc() & !lcdc_mask(LCDCMasks::BgTileMapArea) },
            ),
    {
        self.set_lcdc_flag(LCDCMasks::BgTileMapArea, flag)
    }

    /// Whether LCDC turns on the 0x8000 tile area for background and window.
    pub fn get_bg_win_tiles_area_flag(&self) -> (r: bool)
        requires
            self@.wf_within_dot(),
        ensures
            r == (self@.lcdc() & lcdc_mask(LCDCMasks::BgWinTilesArea) != 0),
    {
        self.get_lcdc_flag(LCDCMasks::BgWinTilesArea)
    }

    /// Turns the 0x8000 tile area for background and window on or off in LCDC.
    pub fn set_bg_win_tiles_area_flag(&mut self, flag: bool)
        requires
            old(self)@.wf_within_dot(),
        ensures
            final(self)@ == old(self)@.written(
                LCDC_ADDRESS,
                if flag { old(self)@.lcdc() | lcdc_mask(LCDCMasks::BgWinTilesArea) } else { old(self)@.lcdc() & !lcdc_mask(LCDCMasks::BgWinTilesArea) },
            ),
    {
        self.set_lcdc_flag(LCDCMasks::BgWinTilesArea, flag)
    }

    /// Whether LCDC turns on window display.
    pub fn get_win_enabled_flag(&self) -> (r: bool)
        requires
            self@.wf_within_dot(),
        ensures
            r == (self@.lcdc() & lcdc_mask(LCDCMasks::WinEnabled) != 0),
    {
        self.get_lcdc_flag(LCDCMasks::WinEnabled)
    }

    /// Turns window display on or off in LCDC.
    pub fn set_win_enabled_flag(&mut self, flag: bool)
        requires
            old(self)@.wf_within_dot(),
        ensures
            final(self)@ == old(self)@.written(
                LCDC_ADDRESS,
                if flag { old(self)@.lcdc() | lcdc_mask(LCDCMasks::WinEnabled) } else { old(self)@.lcdc() & !lcdc_mask(LCDCMasks::WinEnabled) },
            ),
    {
        self.set_lcdc_flag(LCDCMasks::WinEnabled, flag)
    }

    /// Whether LCDC turns on the 0x9C00 window map.
    pub fn get_win_tile_map_area_flag(&self) -> (r: bool)
        requires
            self@.wf_within_dot(),
        ensures
            r == (self@.lcdc() & lcdc_mask(LCDCMasks::WinTileMapArea) != 0),
    {
        self.get_lcdc_flag(LCDCMasks::WinTileMapArea)
    }

    /// Turns the 0x9C00 window map on or off in LCDC.
    pub fn set_win_tile_map_area_flag(&mut self, flag: bool)
        requires
            old(self)@.wf_within_dot(),
        ensures
            final(self)@ == old(self)@.written(
                LCDC_ADDRESS,
                if flag { old(self)@.lcdc() | lcdc_mask(LCDCMasks::WinTileMapArea) } else { old(self)@.lcdc() & !lcdc_mask(LCDCMasks::WinTileMapArea) },
            ),
    {
        self.set_lcdc_flag(LCDCMasks::WinTileMapArea, flag)
    }

    /// Whether LCDC turns on the LCD.
    pub fn get_lcd_enabled_flag(&self) -> (r: bool)
        requires
            self@.wf_within_dot(),
        ensures
            r == (self@.lcdc() & lcdc_mask(LCDCMasks::LcdEnabled) != 0),
    {
        self.get_lcdc_flag(LCDCMasks::LcdEnabled)
    }

    /// Turns the LCD on or off in LCDC.
    pub fn set_lcd_enabled_flag(&mut self, flag: bool)
        requires
            old(self)@.wf_within_dot(),
        ensures
            final(self)@ == old(self)@.written(
                LCDC_ADDRESS,
                if flag { old(self)@.lcdc() | lcdc_mask(LCDCMasks::LcdEnabled) } else { old(self)@.lcdc() & !lcdc_mask(LCDCMasks::LcdEnabled) },
            ),
    {
        self.set_lcdc_flag(LCDCMasks::LcdEnabled, flag)
    }
}

} // verus!

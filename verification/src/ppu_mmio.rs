//! The memory-mapped parts of the PPU: video RAM and the LCD registers.
use vstd::prelude::*;
use crate::types::{Address, Byte};
use crate::memory::{MemoryBlock, MemoryBlockView};

verus! {

pub const VRAM_START_ADDRESS: u16 = 0x8000;
pub const VRAM_END_ADDRESS: u16 = 0x9FFF;
pub const LCDC_ADDRESS: u16 = 0xFF40;
pub const STAT_ADDRESS: u16 = 0xFF41;
pub const SCY_ADDRESS: u16 = 0xFF42;
pub const SCX_ADDRESS: u16 = 0xFF43;
pub const LY_ADDRESS: u16 = 0xFF44;
pub const LYC_ADDRESS: u16 = 0xFF45;
pub const BGP_ADDRESS: u16 = 0xFF47;
pub const OBP0_ADDRESS: u16 = 0xFF48;
pub const OBP1_ADDRESS: u16 = 0xFF49;
pub const WY_ADDRESS: u16 = 0xFF4A;
pub const WX_ADDRESS: u16 = 0xFF4B;

/// Lines of a frame, the 144 visible ones and 10 of vertical blank.
pub const SCAN_LINES: u8 = 154;

/// Whether an address is in video RAM.
pub open spec fn is_vram(address: u16) -> bool {
    VRAM_START_ADDRESS <= address <= VRAM_END_ADDRESS
}

/// Whether an address is one of the LCD registers (0xFF46 is the DMA register).
pub open spec fn is_lcd_register(address: u16) -> bool {
    LCDC_ADDRESS <= address <= WX_ADDRESS && address != 0xFF46
}

/// The values of the LCD registers and video RAM.
pub struct PpuMmioView {
    pub vram: MemoryBlockView,
    pub lcdc: u8,
    pub stat: u8,
    pub scy: u8,
    pub scx: u8,
    pub ly: u8,
    pub lyc: u8,
    pub bgp: u8,
    pub obp0: u8,
    pub obp1: u8,
    pub wy: u8,
    pub wx: u8,
}

/// The STAT interrupt line of the LCD registers.
pub open spec fn stat_line(v: PpuMmioView) -> bool {
    let mode = v.stat & 0x03;
    ||| v.stat & 0x40 != 0 && v.ly == v.lyc
    ||| v.stat & 0x08 != 0 && mode == 0
    ||| v.stat & 0x10 != 0 && mode == 1
    ||| v.stat & 0x20 != 0 && mode == 2
}

/// Law: each source of the STAT interrupt line is the bit Pan Docs gives it. While the PPU is in
/// mode 0 (horizontal blank), 1 (vertical blank) or 2 (OAM scan), the line is high when bit 3,
/// 4 or 5 of STAT is set, and then only that bit matters among the three; during mode 3
/// (drawing), which has no source, and in any mode whose bit is clear, the line is high
/// exactly when the LY == LYC source (bit 6) is on and LY equals LYC. Turning a source bit on
/// never lowers the line.
pub proof fn lemma_stat_line_sources(v: PpuMmioView, bit: u8)
    requires
        bit == 0x08 || bit == 0x10 || bit == 0x20 || bit == 0x40,
    ensures
        v.stat & 0x03 == 0 && v.stat & 0x08 != 0 ==> stat_line(v),
        v.stat & 0x03 == 1 && v.stat & 0x10 != 0 ==> stat_line(v),
        v.stat & 0x03 == 2 && v.stat & 0x20 != 0 ==> stat_line(v),
        v.stat & 0x40 != 0 && v.ly == v.lyc ==> stat_line(v),
        v.stat & 0x03 == 3 ==> (stat_line(v) == (v.stat & 0x40 != 0 && v.ly == v.lyc)),
        v.stat & 0x03 == 0 && v.stat & 0x08 == 0 ==> (stat_line(v) == (v.stat & 0x40 != 0 && v.ly == v.lyc)),
        v.stat & 0x03 == 1 && v.stat & 0x10 == 0 ==> (stat_line(v) == (v.stat & 0x40 != 0 && v.ly == v.lyc)),
        v.stat & 0x03 == 2 && v.stat & 0x20 == 0 ==> (stat_line(v) == (v.stat & 0x40 != 0 && v.ly == v.lyc)),
        stat_line(v) ==> stat_line(PpuMmioView { stat: v.stat | bit, ..v }),
{
    let s = v.stat;
    assert((s | bit) & 0x03 == s & 0x03 && (s & 0x08 != 0 ==> (s | bit) & 0x08 != 0)
        && (s & 0x10 != 0 ==> (s | bit) & 0x10 != 0) && (s & 0x20 != 0 ==> (s | bit) & 0x20 != 0)
        && (s & 0x40 != 0 ==> (s | bit) & 0x40 != 0)) by (bit_vector)
        requires
            bit == 0x08 || bit == 0x10 || bit == 0x20 || bit == 0x40,
    ;
}

impl PpuMmioView {
    /// Video RAM covers exactly 0x8000 ..= 0x9FFF.
    pub open spec fn wf(self) -> bool {
        self.vram.start == VRAM_START_ADDRESS && self.vram.data.len() == 0x2000
    }

    pub open spec fn read(self, address: u16) -> u8 {
        if is_vram(address) {
            self.vram.byte(address)
        } else if address == LCDC_ADDRESS {
            self.lcdc
        } else if address == STAT_ADDRESS {
            self.stat
        } else if address == SCY_ADDRESS {
            self.scy
        } else if address == SCX_ADDRESS {
            self.scx
        } else if address == LY_ADDRESS {
            self.ly
        } else if address == LYC_ADDRESS {
            self.lyc
        } else if address == BGP_ADDRESS {
            self.bgp
        } else if address == OBP0_ADDRESS {
            self.obp0
        } else if address == OBP1_ADDRESS {
            self.obp1
        } else if address == WY_ADDRESS {
            self.wy
        } else {
            self.wx
        }
    }

    pub open spec fn written(self, address: u16, data: u8) -> PpuMmioView {
        if is_vram(address) {
            PpuMmioView { vram: self.vram.written(address, data), ..self }
        } else if address == LCDC_ADDRESS {
            PpuMmioView { lcdc: data, ..self }
        } else if address == STAT_ADDRESS {
            PpuMmioView { stat: data, ..self }
        } else if address == SCY_ADDRESS {
            PpuMmioView { scy: data, ..self }
        } else if address == SCX_ADDRESS {
            PpuMmioView { scx: data, ..self }
        } else if address == LY_ADDRESS {
            PpuMmioView { ly: data, ..self }
        } else if address == LYC_ADDRESS {
            PpuMmioView { lyc: data, ..self }
        } else if address == BGP_ADDRESS {
            PpuMmioView { bgp: data, ..self }
        } else if address == OBP0_ADDRESS {
            PpuMmioView { obp0: data, ..self }
        } else if address == OBP1_ADDRESS {
            PpuMmioView { obp1: data, ..self }
        } else if address == WY_ADDRESS {
            PpuMmioView { wy: data, ..self }
        } else {
            PpuMmioView { wx: data, ..self }
        }
    }
}

/// Video RAM and the LCD registers.
pub struct PpuMmio {
    vram: MemoryBlock,
    lcdc: Byte,
    stat: Byte,
    scy: Byte,
    scx: Byte,
    ly: Byte,
    lyc: Byte,
    bgp: Byte,
    obp0: Byte,
    obp1: Byte,
    wy: Byte,
    wx: Byte,
}

impl View for PpuMmio {
    type V = PpuMmioView;

    closed spec fn view(&self) -> PpuMmioView {
        PpuMmioView {
            vram: self.vram@,
            lcdc: self.lcdc,
            stat: self.stat,
            scy: self.scy,
            scx: self.scx,
            ly: self.ly,
            lyc: self.lyc,
            bgp: self.bgp,
            obp0: self.obp0,
            obp1: self.obp1,
            wy: self.wy,
            wx: self.wx,
        }
    }
}

impl PpuMmio {
    pub fn new() -> (r: Self)
        ensures
            r@.wf(),
            r@.vram.data == Seq::new(0x2000, |i: int| 0u8),
            r@.lcdc == 0 && r@.stat == 0 && r@.scy == 0 && r@.scx == 0 && r@.ly == 0,
            r@.lyc == 0 && r@.bgp == 0 && r@.obp0 == 0 && r@.obp1 == 0 && r@.wy == 0 && r@.wx == 0,
    {
        Self {
            vram: MemoryBlock::vram(),
            lcdc: 0,
            stat: 0,
            scy: 0,
            scx: 0,
            ly: 0,
            lyc: 0,
            bgp: 0,
            obp0: 0,
            obp1: 0,
            wy: 0,
            wx: 0,
        }
    }

    /// Moves LY to the next scan line, back to 0 after the last of a frame.
    pub fn tick(&mut self)
        ensures
            final(self)@ == (PpuMmioView { ly: ((old(self)@.ly + 1) % (SCAN_LINES as int)) as u8, ..old(self)@ }),
    {
        self.ly = ((self.ly as u16 + 1) % (SCAN_LINES as u16)) as u8;
    }

    pub fn vram(&self) -> (r: &MemoryBlock)
        ensures
            r@ == self@.vram,
    {
        &self.vram
    }

    /// The STAT interrupt line: high while LY equals LYC with its source enabled (STAT bit 6),
    /// or while the PPU is in a mode whose source is enabled (bit 3 for mode 0, bit 4 for mode
    /// 1, bit 5 for mode 2). The LCD interrupt is requested when it rises.
    pub fn irq(&self) -> (r: bool)
        ensures
            r == stat_line(self@),
    {
        let mode = self.stat & 0x03;
        (self.stat & 0x40 != 0 && self.ly == self.lyc)
            || (self.stat & 0x08 != 0 && mode == 0)
            || (self.stat & 0x10 != 0 && mode == 1)
            || (self.stat & 0x20 != 0 && mode == 2)
    }

    pub fn lcdc(&self) -> (r: Byte)
        ensures
            r == self@.lcdc,
    {
        self.lcdc
    }

    pub fn read(&self, address: Address) -> (r: Byte)
        requires
            self@.wf(),
            is_vram(address.0) || is_lcd_register(address.0),
        ensures
            r == self@.read(address.0),
    {
        let a = address.0;
        if VRAM_START_ADDRESS <= a && a <= VRAM_END_ADDRESS {
            self.vram.read(address)
        } else if a == LCDC_ADDRESS {
            self.lcdc
        } else if a == STAT_ADDRESS {
            self.stat
        } else if a == SCY_ADDRESS {
            self.scy
        } else if a == SCX_ADDRESS {
            self.scx
        } else if a == LY_ADDRESS {
            self.ly
        } else if a == LYC_ADDRESS {
            self.lyc
        } else if a == BGP_ADDRESS {
            self.bgp
        } else if a == OBP0_ADDRESS {
            self.obp0
        } else if a == OBP1_ADDRESS {
            self.obp1
        } else if a == WY_ADDRESS {
            self.wy
        } else {
            self.wx
        }
    }

    pub fn write(&mut self, address: Address, data: Byte)
        requires
            old(self)@.wf(),
            is_vram(address.0) || is_lcd_register(address.0),
        ensures
            final(self)@ == old(self)@.written(address.0, data),
            final(self)@.wf(),
    {
        let a = address.0;
        if VRAM_START_ADDRESS <= a && a <= VRAM_END_ADDRESS {
            self.vram.write(address, data);
        } else if a == LCDC_ADDRESS {
            self.lcdc = data;
        } else if a == STAT_ADDRESS {
            self.stat = data;
        } else if a == SCY_ADDRESS {
            self.scy = data;
        } else if a == SCX_ADDRESS {
            self.scx = data;
        } else if a == LY_ADDRESS {
            self.ly = data;
        } else if a == LYC_ADDRESS {
            self.lyc = data;
        } else if a == BGP_ADDRESS {
            self.bgp = data;
        } else if a == OBP0_ADDRESS {
            self.obp0 = data;
        } else if a == OBP1_ADDRESS {
            self.obp1 = data;
        } else if a == WY_ADDRESS {
            self.wy = data;
        } else {
            self.wx = data;
        }
    }
}

} // verus!

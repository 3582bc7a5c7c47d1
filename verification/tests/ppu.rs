use yaemulator::memory::RAM;
use yaemulator::ppu::constants::{LCDC_ADDRESS, LY_ADDRESS, LCD_STAT_ADDRESS, IF_ADDRESS, VRAM_BLOCK_0_ADDRESS, VRAM_BLOCK_1_ADDRESS, VRAM_BLOCK_2_ADDRESS};
use yaemulator::ppu::tile::{TILE_SIZE, GbPalette};
use yaemulator::ppu::masks::LCDCMasks;
use yaemulator::ppu::PPU;

const LCDC: u16 = LCDC_ADDRESS;

#[test]
fn test_new_ppu() {
    let mut mem = RAM::new();
    mem.write(LCDC, 0xFE);
    let mut ppu = PPU::new(mem);
    assert_eq!(ppu.read_memory(LCDC), 0xFE);
    // A write to the memory the PPU was given is what it reads next.
    ppu.memory_mut().write(LCDC, 0xFD);
    assert_eq!(ppu.read_memory(LCDC), 0xFD);
}

#[test]
fn test_ppu_get_tile() {
    let mut mem = RAM::new();
    let test_sprite: [u8; TILE_SIZE] = [
        0x00, 0x3C,
        0x3C, 0x66,
        0x5A, 0xDB,
        0x5A, 0x81,
        0x7E, 0x99,
        0x5A, 0xDB,
        0x3C, 0x7E,
        0x00, 0x3C,
    ];
    let tile_id: u8 = 3;
    let tile_address = VRAM_BLOCK_0_ADDRESS + TILE_SIZE * tile_id as usize;
    for i in 0..TILE_SIZE {
        mem.write((tile_address + i) as u16, test_sprite[i]);
    }
    let ppu = PPU::new(mem);
    let result_tile = ppu.get_tile(tile_id, false);
    assert_eq!(result_tile.data, test_sprite);
}

#[test]
fn test_ppu_get_bg_win_tile() {
    let mut mem = RAM::new();
    let test_sprite: [u8; TILE_SIZE] = [
        0x00, 0x3C,
        0x3C, 0x66,
        0x5A, 0xDB,
        0x5A, 0x81,
        0x7E, 0x99,
        0x5A, 0xDB,
        0x3C, 0x7E,
        0x00, 0x3C,
    ];
    let tile_id: u8 = 128;
    let tile_address = VRAM_BLOCK_1_ADDRESS;
    for i in 0..TILE_SIZE {
        mem.write((tile_address + i) as u16, test_sprite[i]);
    }
    mem.write(LCDC, 0xFF);
    let mut ppu = PPU::new(mem);
    let result_tile = ppu.get_tile(tile_id, true);
    assert_eq!(result_tile.data, test_sprite);

    ppu.write_memory(LCDC, 0);
    for i in 0..TILE_SIZE {
        ppu.write_memory((tile_address + i) as u16, 0);
    }
    let tile_id: u8 = 0;
    let tile_address = VRAM_BLOCK_2_ADDRESS;
    for i in 0..TILE_SIZE {
        ppu.write_memory((tile_address + i) as u16, test_sprite[i]);
    }
    let result_tile = ppu.get_tile(tile_id, true);
    assert_eq!(result_tile.data, test_sprite);
}

#[test]
fn test_ppu_lcdc_flags() {
    let masks = [
        LCDCMasks::BgWinEnabled,
        LCDCMasks::ObjEnabled,
        LCDCMasks::ObjSize,
        LCDCMasks::BgTileMapArea,
        LCDCMasks::BgWinTilesArea,
        LCDCMasks::WinEnabled,
        LCDCMasks::WinTileMapArea,
        LCDCMasks::LcdEnabled,
    ];
    for m in masks {
        let mut mem = RAM::new();
        mem.write(LCDC, m.mask());
        let mut ppu = PPU::new(mem);
        assert!(ppu.get_lcdc_flag(m));
        ppu.set_lcdc_flag(m, false);
        assert_eq!(ppu.read_memory(LCDC) & m.mask(), 0);
        ppu.set_lcdc_flag(m, true);
        assert_ne!(ppu.read_memory(LCDC) & m.mask(), 0);
    }
}

#[test]
fn test_ppu_named_lcdc_flags() {
    let mut ppu = PPU::new(RAM::new());
    ppu.set_lcd_enabled_flag(true);
    assert_eq!(ppu.read_memory(LCDC), 0x80);
    assert!(ppu.get_lcd_enabled_flag());
    ppu.set_obj_size_flag(true);
    assert_eq!(ppu.read_memory(LCDC), 0x84);
    assert!(ppu.get_obj_size_flag());
    assert!(ppu.get_tile_mode());
    ppu.set_lcd_enabled_flag(false);
    assert_eq!(ppu.read_memory(LCDC), 0x04);
    assert!(!ppu.get_bg_win_enabled_flag());
    assert!(!ppu.get_win_enabled_flag());
}

#[test]
fn test_ppu_line_moves_on_after_456_dots() {
    let mut ppu = PPU::new(RAM::new());
    for _ in 0..455 {
        ppu.cycle();
    }
    assert_eq!(ppu.get_line(), 0);
    ppu.cycle();
    assert_eq!(ppu.get_line(), 1);
    // Back in the object scan of the new line: mode 2.
    assert_eq!(ppu.read_memory(LCD_STAT_ADDRESS) & 0x03, 2);
}

#[test]
fn test_ppu_enters_vblank_on_line_144() {
    let mut mem = RAM::new();
    mem.write(LY_ADDRESS, 144);
    let mut ppu = PPU::new(mem);
    ppu.cycle();
    assert_eq!(ppu.read_memory(LCD_STAT_ADDRESS) & 0x03, 1);
    assert_eq!(ppu.read_memory(IF_ADDRESS) & 0x01, 1);
}

#[test]
fn test_ppu_modes_over_a_line() {
    let mut ppu = PPU::new(RAM::new());
    for _ in 0..80 {
        ppu.cycle();
    }
    assert_eq!(ppu.read_memory(LCD_STAT_ADDRESS) & 0x03, 3);
    for _ in 0..291 {
        ppu.cycle();
    }
    assert_eq!(ppu.read_memory(LCD_STAT_ADDRESS) & 0x03, 0);
}

#[test]
fn test_ppu_vblank_lines_stay_in_mode_1() {
    let mut mem = RAM::new();
    mem.write(LY_ADDRESS, 143);
    let mut ppu = PPU::new(mem);
    for _ in 0..456 {
        ppu.cycle();
    }
    assert_eq!(ppu.get_line(), 144);
    assert_eq!(ppu.read_memory(LCD_STAT_ADDRESS) & 0x03, 1);
    // Through the rest of line 144 and the following lines, mode 1 holds.
    for _ in 0..(456 * 9) {
        ppu.cycle();
        assert_eq!(ppu.read_memory(LCD_STAT_ADDRESS) & 0x03, 1);
    }
    assert_eq!(ppu.get_line(), 153);
    for _ in 0..456 {
        ppu.cycle();
    }
    assert_eq!(ppu.get_line(), 0);
    assert_eq!(ppu.read_memory(LCD_STAT_ADDRESS) & 0x03, 2);
}

#[test]
fn test_ppu_draws_background() {
    let mut mem = RAM::new();
    // Background on, tiles from 0x8000; map entry 0 is tile 1, whose first row is all colour 3.
    mem.write(LCDC, 0x11);
    mem.write(0x9800, 1);
    mem.write(0x8010, 0xFF);
    mem.write(0x8011, 0xFF);
    let mut ppu = PPU::new(mem);
    for _ in 0..(80 + 8) {
        ppu.cycle();
    }
    let frame = ppu.frame();
    for x in 0..8 {
        assert_eq!(frame[x], GbPalette::Black);
    }
    assert_eq!(frame[160], GbPalette::White);
}

#[test]
fn test_ppu_get_oam() {
    let mut mem = RAM::new();
    mem.write(0xFE04, 40);
    mem.write(0xFE05, 20);
    mem.write(0xFE06, 7);
    mem.write(0xFE07, 0xA0);
    let ppu = PPU::new(mem);
    let oam = ppu.get_oam(1);
    assert_eq!(oam.id, Some(1));
    assert_eq!(oam.get_y_screen(), 24);
    assert_eq!(oam.get_x_screen(), 12);
    assert_eq!(oam.get_tile_id(), 7);
    assert!(oam.priority && oam.x_flip && !oam.y_flip && !oam.palette);
}

#[test]
fn test_ppu_background_map_helpers() {
    let mut mem = RAM::new();
    mem.write(0xFF42, 8);
    mem.write(0xFF43, 250);
    mem.write(0x9800 + 33, 0x42);
    let ppu = PPU::new(mem);
    assert_eq!(ppu.get_scy(), 8);
    assert_eq!(ppu.get_scx(), 250);
    // (250 + 14) % 256 = 8 -> column 1; (8 + 0) -> row 1.
    assert_eq!(ppu.get_bg_chr_id(14, 0), 33);
    assert_eq!(ppu.get_bg_chr(33), 0x42);
    assert_eq!(ppu.get_bg_x(), 250);
    assert_eq!(ppu.get_bg_y(), 8);
    assert_eq!(ppu.get_bg().len(), 1024);
    assert!(!ppu.is_bg_win_enabled());
    assert!(!ppu.is_obj_enabled());
}

#[test]
fn test_ppu_frame_string() {
    let mut mem = RAM::new();
    mem.write(LCDC, 0x11);
    mem.write(0x9800, 1);
    mem.write(0x8010, 0xFF);
    mem.write(0x8011, 0xFF);
    let mut ppu = PPU::new(mem);
    let blank = ppu.get_frame_string(false);
    assert_eq!(blank.len(), 144 * 161);
    assert!(blank.iter().enumerate().all(|(k, c)| if k % 161 == 160 { *c == '\n' } else { *c == ' ' }));
    for _ in 0..(80 + 8) {
        ppu.cycle();
    }
    let text: String = ppu.get_frame_string(false).into_iter().collect();
    let first_row: Vec<char> = text.lines().next().unwrap().chars().collect();
    assert_eq!(first_row.len(), 160);
    assert_eq!(first_row[0], '\u{2588}');
    assert_eq!(first_row[7], '\u{2588}');
    assert_eq!(first_row[8], ' ');
    let doubled = ppu.get_frame_string(true);
    assert_eq!(doubled.len(), 144 * 321);
    assert_eq!(doubled[15], '\u{2588}');
    assert_eq!(doubled[16], ' ');
    assert_eq!(doubled[320], '\n');
}

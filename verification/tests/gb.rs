use yaemulator::cartridge::Cartridge;
use yaemulator::gb::GB;
use yaemulator::input::{GBInputButtonsBits, GBInputDPadBits};
use yaemulator::ppu::tile::GbPalette;
use yaemulator::types::Address;

#[test]
fn gb_new_is_empty() {
    let gb = GB::new(None);
    assert!(gb.cartridge().is_none());
    assert_eq!(gb.cpu().registers.get_pc(), 0);
    assert_eq!(gb.read(Address(0x0100)), 0xFF);
    assert_eq!(gb.oam_memory().read(Address(0xFE00)), 0);
    assert_eq!(gb.vram().read(Address(0x8000)), 0);
}

#[test]
fn gb_memory_round_trip() {
    let mut gb = GB::new(None);
    gb.write(Address(0xC123), 0x77);
    assert_eq!(gb.read(Address(0xC123)), 0x77);
    gb.write(Address(0xFF90), 0x66);
    assert_eq!(gb.read(Address(0xFF90)), 0x66);
}

#[test]
fn gb_buttons_request_the_joypad_interrupt() {
    let mut gb = GB::new(None);
    gb.press_button(GBInputButtonsBits::Start, true);
    assert!(gb.joypad_view().start);
    assert_eq!(gb.read(Address(0xFF0F)) & 0x10, 0x10);
    gb.write(Address(0xFF0F), 0);
    gb.press_dpad(GBInputDPadBits::Left, false);
    assert!(!gb.joypad_view().left);
    assert_eq!(gb.read(Address(0xFF0F)), 0);
    gb.press_dpad(GBInputDPadBits::Left, true);
    assert!(gb.joypad().input.left);
}

#[test]
fn gb_set_use_boot_points_at_entry() {
    let mut gb = GB::new(None);
    gb.set_use_boot(true);
    assert_eq!(gb.cpu().registers.get_pc(), 0x0100);
    gb.boot();
    assert_eq!(gb.cpu().registers.get_pc(), 0x0100);
}

#[test]
fn gb_runs_t_cycles() {
    let mut gb = GB::new(None);
    let mut rom = vec![0u8; 0x8000];
    rom[0x147] = 0x01;
    assert!(gb.insert_cartridge(Some(Cartridge::new(rom, "nop.gb".to_string()))));
    assert!(gb.cartridge().is_some());
    for _ in 0..8 {
        gb.tick();
    }
    // Two M-cycles: the first fetched a NOP, the second ran it and fetched the next one.
    assert_eq!(gb.cpu().registers.get_pc(), 2);
    assert_eq!(gb.ppu().get_line(), 0);
    assert!(!gb.insert_cartridge(None));
    assert!(gb.cartridge().is_none());
}

#[test]
fn gb_ppu_reaches_the_lcd_registers_and_if() {
    let mut gb = GB::new(None);
    let mut rom = vec![0u8; 0x8000];
    rom[0x147] = 0x01;
    assert!(gb.insert_cartridge(Some(Cartridge::new(rom, "nop.gb".to_string()))));
    for _ in 0..456 {
        gb.tick();
    }
    assert_eq!(gb.ppu_mmio().read(Address(0xFF44)), 1);
    assert_eq!(gb.ppu_mmio().read(Address(0xFF41)) & 0x03, 2);
    assert_eq!(gb.read(Address(0xFF0F)) & 0x01, 0);
    for _ in 0..(143 * 456) {
        gb.tick();
    }
    assert_eq!(gb.ppu_mmio().read(Address(0xFF44)), 144);
    // The first dot of line 144 requests the VBlank interrupt.
    gb.tick();
    assert_eq!(gb.read(Address(0xFF0F)) & 0x01, 1);
    assert_eq!(gb.ppu_mmio().read(Address(0xFF41)) & 0x03, 1);
}

#[test]
fn gb_stat_mode_2_source_requests_the_lcd_interrupt() {
    let mut gb = GB::new(None);
    let mut rom = vec![0u8; 0x8000];
    rom[0x147] = 0x01;
    assert!(gb.insert_cartridge(Some(Cartridge::new(rom, "nop.gb".to_string()))));
    // Enable the mode 2 (OAM scan) source of the STAT interrupt through the bus.
    gb.write(Address(0xFF41), 0x20);
    for _ in 0..455 {
        gb.tick();
    }
    assert_eq!(gb.read(Address(0xFF0F)) & 0x02, 0);
    gb.tick();
    // Line 1 begins with the OAM scan: the STAT line rises.
    assert_eq!(gb.read(Address(0xFF44)), 1);
    assert_eq!(gb.read(Address(0xFF41)) & 0x23, 0x22);
    assert_eq!(gb.read(Address(0xFF0F)) & 0x02, 0x02);
}

#[test]
fn gb_ppu_draws_what_the_bus_wrote() {
    let mut gb = GB::new(None);
    let mut rom = vec![0u8; 0x8000];
    rom[0x147] = 0x01;
    assert!(gb.insert_cartridge(Some(Cartridge::new(rom, "nop.gb".to_string()))));
    // Background on with tiles from 0x8000; map entry 0 is tile 1, whose first row is colour 3.
    gb.write(Address(0xFF40), 0x91);
    gb.write(Address(0x9800), 1);
    gb.write(Address(0x8010), 0xFF);
    gb.write(Address(0x8011), 0xFF);
    for _ in 0..456 {
        gb.tick();
    }
    let frame = gb.ppu().frame();
    for x in 0..8 {
        assert_eq!(frame[x], GbPalette::Black);
    }
    assert_eq!(frame[8], GbPalette::White);
    // With the LCD on, the screen shows the PPU's frame; off, a blank one.
    assert_eq!(gb.frame()[0], GbPalette::Black);
    gb.write(Address(0xFF40), 0x11);
    assert!(gb.frame().iter().all(|p| *p == GbPalette::White));
    assert_eq!(gb.frame().len(), 160 * 144);
}

#[test]
fn gb_stat_source_enabled_by_the_cpu_requests_the_lcd_interrupt() {
    let mut gb = GB::new(None);
    let mut rom = vec![0u8; 0x8000];
    rom[0x147] = 0x01;
    assert!(gb.insert_cartridge(Some(Cartridge::new(rom, "nop.gb".to_string()))));
    gb.tick();
    assert_eq!(gb.read(Address(0xFF0F)) & 0x02, 0);
    // LY == LYC == 0: enabling the LYC source raises the line.
    gb.write(Address(0xFF41), 0x40);
    gb.tick();
    assert_eq!(gb.read(Address(0xFF41)) & 0x04, 0x04);
    assert_eq!(gb.read(Address(0xFF0F)) & 0x02, 0x02);
}

#[test]
fn gb_stat_rise_from_a_cpu_write_is_requested_in_the_same_t_cycle() {
    let mut gb = GB::new(None);
    let mut rom = vec![0u8; 0x8000];
    rom[0x147] = 0x01;
    // LD A, 0x40; LDH [0x41], A: enables the LYC source while LY == LYC == 0.
    rom[0] = 0x3E;
    rom[1] = 0x40;
    rom[2] = 0xE0;
    rom[3] = 0x41;
    assert!(gb.insert_cartridge(Some(Cartridge::new(rom, "stat.gb".to_string()))));
    // Fetch (1 M-cycle), LD A, imm8 (2), then the write in the second M-cycle of LDH.
    for _ in 0..19 {
        gb.tick();
    }
    assert_eq!(gb.read(Address(0xFF41)) & 0x40, 0);
    assert_eq!(gb.read(Address(0xFF0F)) & 0x02, 0);
    gb.tick();
    assert_eq!(gb.read(Address(0xFF41)) & 0x40, 0x40);
    assert_eq!(gb.read(Address(0xFF0F)) & 0x02, 0x02);
}

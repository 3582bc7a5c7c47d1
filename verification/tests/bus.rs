use yaemulator::bus::{Bus, MmioContext};
use yaemulator::cartridge::Cartridge;
use yaemulator::dma::DMA;
use yaemulator::types::Address;

#[test]
fn bus_reads_back_what_it_wrote_to_plain_memory() {
    let mut bus = Bus::new();
    let mut ctx = MmioContext::new();
    for (a, d) in [(0xC000u16, 0x11u8), (0xDFFF, 0x22), (0xFE00, 0x33), (0xFE9F, 0x44), (0xFF80, 0x55), (0xFFFE, 0x66)] {
        bus.write(&mut ctx, Address(a), d);
        assert_eq!(bus.read(&ctx, Address(a)), d);
    }
    // Each write left the other addresses alone.
    assert_eq!(bus.read(&ctx, Address(0xC000)), 0x11);
    assert_eq!(bus.read(&ctx, Address(0xC001)), 0x00);
}

#[test]
fn bus_empty_cartridge_slot_reads_ff() {
    let mut bus = Bus::new();
    let mut ctx = MmioContext::new();
    assert_eq!(bus.read(&ctx, Address(0x0000)), 0xFF);
    assert_eq!(bus.read(&ctx, Address(0x7FFF)), 0xFF);
    assert_eq!(bus.read(&ctx, Address(0xA000)), 0xFF);
    bus.write(&mut ctx, Address(0x2000), 0x05);
    assert_eq!(bus.read(&ctx, Address(0x2000)), 0xFF);
}

#[test]
fn bus_interrupt_and_dma_registers() {
    let mut bus = Bus::new();
    let mut ctx = MmioContext::new();
    bus.write(&mut ctx, Address(0xFFFF), 0x1F);
    bus.write(&mut ctx, Address(0xFF0F), 0x01);
    assert_eq!(bus.read(&ctx, Address(0xFFFF)), 0x1F);
    assert_eq!(bus.read(&ctx, Address(0xFF0F)), 0x01);
    assert!(!ctx.dma_mmio.enabled());
    bus.write(&mut ctx, Address(0xFF46), 0xC1);
    assert_eq!(bus.read(&ctx, Address(0xFF46)), 0xC1);
    assert!(ctx.dma_mmio.enabled());
}

#[test]
fn dma_copies_160_bytes_into_oam() {
    let mut bus = Bus::new();
    let mut ctx = MmioContext::new();
    for i in 0..160u16 {
        bus.write(&mut ctx, Address(0xC100 + i), (i as u8) ^ 0x5A);
    }
    bus.write(&mut ctx, Address(0xFF46), 0xC1);
    let mut dma = DMA::new();
    // One byte every four T-cycles.
    for _ in 0..(160 * 4) {
        dma.tick(&mut bus, &mut ctx);
    }
    for i in 0..160u16 {
        assert_eq!(bus.read(&ctx, Address(0xFE00 + i)), (i as u8) ^ 0x5A);
    }
    // The next tick ends the transfer.
    dma.tick(&mut bus, &mut ctx);
    assert!(!ctx.dma_mmio.enabled());
    assert_eq!(ctx.dma_mmio.value(), 0xC1);
}

#[test]
fn dma_waits_for_the_register() {
    let mut bus = Bus::new();
    let mut ctx = MmioContext::new();
    bus.write(&mut ctx, Address(0xC000), 0x99);
    let mut dma = DMA::default();
    for _ in 0..8 {
        dma.tick(&mut bus, &mut ctx);
    }
    assert_eq!(bus.read(&ctx, Address(0xFE00)), 0x00);
}

#[test]
fn bus_cartridge_ram_window_reads_ff_and_ignores_writes() {
    let mut rom = vec![0u8; 0x8000];
    rom[0x147] = 0x01;
    rom[0x4000] = 0x42;
    let mut bus = Bus::new();
    let mut ctx = MmioContext::new();
    ctx.rom_mmio = Some(Cartridge::new(rom, "ram_window.gb".to_string()));
    assert_eq!(bus.read(&ctx, Address(0x4000)), 0x42);
    bus.write(&mut ctx, Address(0xA000), 0x12);
    bus.write(&mut ctx, Address(0xBFFF), 0x34);
    assert_eq!(bus.read(&ctx, Address(0xA000)), 0xFF);
    assert_eq!(bus.read(&ctx, Address(0xBFFF)), 0xFF);
    assert_eq!(bus.read(&ctx, Address(0x4000)), 0x42);
}

#[test]
fn dma_copies_a_page_into_oam_in_640_t_cycles() {
    let mut bus = Bus::new();
    let mut ctx = MmioContext::new();
    for i in 0..160u16 {
        bus.write(&mut ctx, Address(0xC100 + i), (i as u8) ^ 0x5A);
    }
    let mut dma = DMA::new();
    bus.write(&mut ctx, Address(0xFF46), 0xC1);
    for _ in 0..639 {
        dma.tick(&mut bus, &mut ctx);
    }
    // The last byte is copied on the 640th T-cycle.
    assert_eq!(bus.read(&ctx, Address(0xFE9F)), 0x00);
    dma.tick(&mut bus, &mut ctx);
    for i in 0..160u16 {
        assert_eq!(bus.read(&ctx, Address(0xFE00 + i)), (i as u8) ^ 0x5A);
    }
    assert!(ctx.dma_mmio.enabled());
    dma.tick(&mut bus, &mut ctx);
    assert!(!ctx.dma_mmio.enabled());
    assert_eq!(ctx.dma_mmio.value(), 0xC1);
}

#[test]
fn bus_vram_and_lcd_registers_read_back_what_was_written() {
    let mut bus = Bus::new();
    let mut ctx = MmioContext::new();
    for (a, d) in [(0x8000u16, 0x12u8), (0x9FFF, 0x34), (0xFF40, 0x91), (0xFF42, 0x07), (0xFF4B, 0x58)] {
        bus.write(&mut ctx, Address(a), d);
        assert_eq!(bus.read(&ctx, Address(a)), d);
    }
}

use yaemulator::apu::envelope::{Envelope, EnvelopeDirection};
use yaemulator::apu::noise_channel::NoiseChannel;
use yaemulator::apu::channels::WaveChannel;
use yaemulator::apu::{ApuMmio, APU};
use yaemulator::bios::BIOS;
use yaemulator::cpu_mmio::CpuMmio;
use yaemulator::input::{GBInput, InputMapping, Joypad, GB_A_BUTTON, GB_B_BUTTON};
use yaemulator::interrupt_registers::{InterruptFlags, InterruptFlagsMask, InterruptRegisters};
use yaemulator::memory::{MemoryBlock, RAM};
use yaemulator::ppu_mmio::PpuMmio;
use yaemulator::types::Address;

#[test]
fn ram_reads_back_writes() {
    let mut ram = RAM::new();
    ram.write(0x1234, 0xAB);
    assert_eq!(ram.read(0x1234), 0xAB);
    assert_eq!(ram.read(0x1235), 0x00);
    ram.write(0x1235, 0xCD);
    assert_eq!(ram.read_vec(0x1234, 2), &[0xAB, 0xCD]);
}

#[test]
fn memory_block_covers_its_range() {
    let mut wram = MemoryBlock::wram();
    assert!(wram.contains(Address(0xC000)));
    assert!(wram.contains(Address(0xDFFF)));
    assert!(!wram.contains(Address(0xE000)));
    wram.write(Address(0xD000), 7);
    assert_eq!(wram.read(Address(0xD000)), 7);
    let block = MemoryBlock::new(0x10, 0x1F);
    assert!(block.contains(Address(0x1F)) && !block.contains(Address(0x0F)));
}

#[test]
fn interrupt_registers_read_and_write() {
    let mut ir = InterruptRegisters::new();
    ir.write(Address(0xFFFF), 0x05);
    ir.write(Address(0xFF0F), 0x04);
    assert_eq!(ir.read(Address(0xFFFF)), 0x05);
    assert!(ir.get_vblank_enabled() && !ir.get_lcd_enabled() && ir.get_timer_enabled());
    assert!(ir.get_timer_interrupt() && !ir.get_vblank_interrupt());
    ir.set_if_bit(InterruptFlagsMask::JoyPad);
    assert_eq!(ir.get_if(), 0x14);
    assert!(ir.get_joypad_interrupt());
    let flags = InterruptFlags::new(0x1F);
    assert!(flags.v_blank && flags.joy_pad);
}

#[test]
fn cpu_mmio_serves_hram_and_interrupts() {
    let mut m = CpuMmio::new();
    m.write(Address(0xFF80), 0x42);
    assert_eq!(m.read(Address(0xFF80)), 0x42);
    m.request_interrupt(InterruptFlagsMask::Timer);
    assert_eq!(m.read(Address(0xFF0F)), 0x04);
    assert_eq!(m.hram().read(Address(0xFF80)), 0x42);
}

#[test]
fn ppu_mmio_registers() {
    let mut p = PpuMmio::new();
    p.write(Address(0xFF40), 0x91);
    assert_eq!(p.lcdc(), 0x91);
    p.write(Address(0x8000), 0x3C);
    assert_eq!(p.read(Address(0x8000)), 0x3C);
    let ly = p.read(Address(0xFF44));
    p.tick();
    assert_eq!(p.read(Address(0xFF44)), (ly + 1) % 154);
}

#[test]
fn envelope_steps_and_stays_in_range() {
    let mut e = Envelope::new();
    e.trigger(14, EnvelopeDirection::Up);
    e.tick();
    assert_eq!(e.volume(), 15);
    e.tick();
    assert_eq!(e.volume(), 15);
    e.trigger(1, EnvelopeDirection::Down);
    e.tick();
    e.tick();
    assert_eq!(e.volume(), 0);
}

#[test]
fn noise_channel_registers() {
    let mut n = NoiseChannel::new();
    n.write(Address(0xFF21), 0xA8);
    assert_eq!(n.read(Address(0xFF21)), 0xA8);
    assert_eq!(n.volume(), 0x0A);
    assert_eq!(n.envelope_direction(), EnvelopeDirection::Down);
    n.set_nr43(0x08);
    assert!(!n.short_mode());
    n.set_nr43(0x18);
    assert!(n.short_mode());
    assert_eq!(n.short_mode_as_u8(), 0x10);
}

#[test]
fn apu_tick_and_writes() {
    let mut apu = APU::new();
    apu.tick();
    apu.write(Address(0xFF21), 0xF0);
    apu.write(Address(0xFF24), 0x77);
    let mut mmio = ApuMmio::new();
    mmio.write(Address(0xFF24), 0x77);
    assert_eq!(mmio.read(Address(0xFF24)), 0xFF);
}

#[test]
fn wave_setters_write_their_own_register() {
    let mut wave = WaveChannel::new();
    wave.set_nr30(0x80);
    assert_eq!(wave.nr30(), 0x80);
    assert_eq!(wave.nr31(), 0);
    assert_eq!(wave.nr32(), 0);
    assert_eq!(wave.nr33(), 0);
    assert_eq!(wave.nr34(), 0);
    wave.set_nr31(0x11);
    wave.set_nr32(0x22);
    wave.set_nr33(0x33);
    wave.set_nr34(0x44);
    assert_eq!(wave.nr30(), 0x80);
    assert_eq!(wave.nr31(), 0x11);
    assert_eq!(wave.nr32(), 0x22);
    assert_eq!(wave.nr33(), 0x33);
    assert_eq!(wave.nr34(), 0x44);
}

#[test]
fn joypad_reads_selected_nibble() {
    let mut j = Joypad::new();
    assert_eq!(j.read(), 0xFF);
    j.input.a = true;
    j.write(0x10);
    // Buttons selected (bit 5 clear): A pressed reads 0.
    assert_eq!(j.read(), 0xD0 | 0x0E);
    j.write(0x20);
    j.input.up = true;
    assert_eq!(j.read(), 0xE0 | 0x0B);
    let released = GBInput::released();
    assert_eq!(released.get_buttons_byte(), 0x0F);
    assert_eq!(released.get_dpad_byte(), 0x0F);
}

#[test]
fn input_mapping_starts_with_a() {
    let mut m = InputMapping::new();
    assert_eq!(m.get_key_code(GB_A_BUTTON), Some(&0x5A));
    assert_eq!(m.get_key_code(GB_B_BUTTON), None);
    m.set_mapping(GB_B_BUTTON, 0x58);
    assert_eq!(m.get_key_code(GB_B_BUTTON), Some(&0x58));
}

#[test]
fn bios_starts_zeroed_and_loads_data() {
    let mut bios = BIOS::new();
    assert_eq!(bios.len(), 256);
    assert_eq!(bios.read(0), 0);
    let mut data = vec![0u8; 256];
    data[0] = 0x31;
    data[255] = 0x50;
    bios.load_bios_data(data, "dmg_boot.bin".to_string());
    assert_eq!(bios.read(0), 0x31);
    assert_eq!(bios.read(255), 0x50);
}

#[test]
fn stat_line_follows_its_enabled_sources() {
    let mut m = PpuMmio::new();
    assert!(!m.irq());
    // LY == LYC (both 0) with its source enabled.
    m.write(Address(0xFF41), 0x40);
    assert!(m.irq());
    m.write(Address(0xFF45), 5);
    assert!(!m.irq());
    // Mode 2 with its source enabled.
    m.write(Address(0xFF41), 0x22);
    assert!(m.irq());
    m.write(Address(0xFF41), 0x12);
    assert!(!m.irq());
    m.write(Address(0xFF41), 0x08);
    assert!(m.irq());
}

//! A Game Boy (DMG) emulator core: CPU registers and micro-coded execution,
//! memory-mapped devices and bus, PPU helpers, DMA, APU noise channel,
//! cartridge header and MBC1 banking, joypad encoding.
pub mod types;
pub mod registers;
pub mod microcode;
pub mod alu;
pub mod instructions;
pub mod cpu;
pub mod memory;
pub mod interrupt_registers;
pub mod cpu_mmio;
pub mod ppu_mmio;
pub mod apu;
pub mod cartridge;
pub mod input;
pub mod bus;
pub mod dma;
pub mod ppu;
pub mod bios;
pub mod gb;

use vstd::prelude::*;

verus! {

} // verus!

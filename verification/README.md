# yaemulator

A Game Boy (DMG) emulator core written in Verus: every function of the library carries a
contract that the verifier proves.

## Layout

- `src/registers.rs`, `src/alu.rs`: the SM83 registers, flags and ALU operations.
- `src/microcode.rs`, `src/instructions*`: micro-operations and the opcode tables (unprefixed,
  0xCB-prefixed and interrupt routines), plus the decimal adjust.
- `src/cpu.rs`, `src/cpu/*`: the CPU, one micro-operation per M-cycle.
- `src/bus.rs`, `src/memory.rs`, `src/cpu_mmio.rs`, `src/interrupt_registers.rs`, `src/dma.rs`:
  the bus, its memories and memory-mapped registers, and the OAM DMA.
- `src/ppu.rs`, `src/ppu/*`, `src/ppu_mmio.rs`: the PPU, tiles, objects and LCD registers.
- `src/apu.rs`, `src/apu/*`: the APU divider, noise channel and envelope.
- `src/cartridge.rs`, `src/cartridge/*`: the cartridge header and the MBC1 controller.
- `src/input.rs`, `src/bios.rs`, `src/gb.rs`: the joypad, the boot ROM and the whole console.
- `app/lib.rs`: reading ROM and boot ROM files, text descriptions, and printing frames as text.
- `tests/`: tests of the library.

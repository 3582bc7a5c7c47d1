//! The memory-mapped parts of the CPU: the interrupt registers and high RAM.
use vstd::prelude::*;
use crate::types::{Address, Byte};
use crate::memory::{MemoryBlock, MemoryBlockView};
use crate::interrupt_registers::{InterruptRegisters, InterruptRegistersView, is_interrupt_register};

verus! {

pub const HRAM_START_ADDRESS: u16 = 0xFF80;
pub const HRAM_END_ADDRESS: u16 = 0xFFFE;

/// Whether an address is in high RAM.
pub open spec fn is_hram(address: u16) -> bool {
    HRAM_START_ADDRESS <= address <= HRAM_END_ADDRESS
}

/// The state of the CPU's memory-mapped registers and high RAM.
pub struct CpuMmioView {
    pub interrupts: InterruptRegistersView,
    pub hram: MemoryBlockView,
}

impl CpuMmioView {
    /// High RAM covers exactly 0xFF80 ..= 0xFFFE.
    pub open spec fn wf(self) -> bool {
        self.hram.start == HRAM_START_ADDRESS && self.hram.data.len() == 0x7F
    }

    pub open spec fn read(self, address: u16) -> u8 {
        if is_hram(address) {
            self.hram.byte(address)
        } else {
            self.interrupts.read(address)
        }
    }

    pub open spec fn written(self, address: u16, data: u8) -> CpuMmioView {
        if is_hram(address) {
            CpuMmioView { hram: self.hram.written(address, data), ..self }
        } else {
            CpuMmioView { interrupts: self.interrupts.written(address, data), ..self }
        }
    }
}

pub struct CpuMmio {
    interrupt_registers: InterruptRegisters,
    hram: MemoryBlock,
}

impl View for CpuMmio {
    type V = CpuMmioView;

    closed spec fn view(&self) -> CpuMmioView {
        CpuMmioView { interrupts: self.interrupt_registers@, hram: self.hram@ }
    }
}

impl CpuMmio {
    pub fn new() -> (r: Self)
        ensures
            r@.wf(),
            r@.interrupts == (InterruptRegistersView { ie: 0, iflag: 0 }),
            r@.hram.data == Seq::new(0x7F, |i: int| 0u8),
    {
        Self { interrupt_registers: InterruptRegisters::new(), hram: MemoryBlock::hram() }
    }

    pub fn interrupt_registers(&self) -> (r: &InterruptRegisters)
        ensures
            r@ == self@.interrupts,
    {
        &self.interrupt_registers
    }

    /// Requests an interrupt by setting its bit in IF.
    pub fn request_interrupt(&mut self, mask: crate::interrupt_registers::InterruptFlagsMask)
        ensures
            final(self)@ == (CpuMmioView {
                interrupts: InterruptRegistersView {
                    iflag: old(self)@.interrupts.iflag
                        | crate::interrupt_registers::interrupt_flag_mask(mask),
                    ..old(self)@.interrupts
                },
                ..old(self)@
            }),
    {
        self.interrupt_registers.set_if_bit(mask);
    }

    pub fn hram(&self) -> (r: &MemoryBlock)
        ensures
            r@ == self@.hram,
    {
        &self.hram
    }

    /// Reads high RAM, IE or IF.
    pub fn read(&self, address: Address) -> (r: Byte)
        requires
            self@.wf(),
            is_hram(address.0) || is_interrupt_register(address.0),
        ensures
            r == self@.read(address.0),
    {
        if HRAM_START_ADDRESS <= address.0 && address.0 <= HRAM_END_ADDRESS {
            self.hram.read(address)
        } else {
            self.interrupt_registers.read(address)
        }
    }

    /// Writes high RAM, IE or IF.
    pub fn write(&mut self, address: Address, data: Byte)
        requires
            old(self)@.wf(),
            is_hram(address.0) || is_interrupt_register(address.0),
        ensures
            final(self)@ == old(self)@.written(address.0, data),
            final(self)@.wf(),
    {
        if HRAM_START_ADDRESS <= address.0 && address.0 <= HRAM_END_ADDRESS {
            self.hram.write(address, data);
        } else {
            self.interrupt_registers.write(address, data);
        }
    }
}

impl Default for CpuMmio {
    fn default() -> (r: Self)
        ensures
            r@.wf(),
            r@.interrupts == (InterruptRegistersView { ie: 0, iflag: 0 }),
            r@.hram.data == Seq::new(0x7F, |i: int| 0u8),
    {
        Self::new()
    }
}

} // verus!

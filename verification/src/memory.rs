//! Byte-addressed memories: the flat 64 KiB RAM and the fixed blocks mapped on the bus.
use vstd::prelude::*;
use crate::types::{Address, Byte};

verus! {

pub const RST_INSTRUCIONS: usize = 0x0000;
pub const ROM_METADATA: usize = 0x0100;
pub const USER_PROGRAM_ADDRESS: usize = 0x0150;
pub const VRAM_ADDRESS: usize = 0x8000;
pub const EXTERNAL_RAM_ADDRESS: usize = 0xA000;
pub const WRAM_ADDRESS: usize = 0xC000;
pub const WRAM_SIZE: usize = 0x2000;
pub const OAM_RAM_ADDRESS: usize = 0xFE00;
pub const INTERNAL_RAM_ADDRESS: usize = 0xFF00;
pub const HRAM_ADDRESS: usize = 0xFF80;

/// The whole 64 KiB address space as plain memory.
pub struct RAM {
    memory: Vec<u8>,
}

impl RAM {
    /// The contents, one byte per address.
    pub closed spec fn contents(self) -> Seq<u8> {
        self.memory@
    }

    /// One byte for each of the 65536 addresses.
    pub open spec fn wf(self) -> bool {
        self.contents().len() == 0x10000
    }

    /// Every byte reads 0.
    pub fn new() -> (r: Self)
        ensures
            r.contents() == Seq::new(0x10000, |i: int| 0u8),
            r.wf(),
    {
        let mut memory: Vec<u8> = Vec::new();
        let mut i: usize = 0;
        while i < 0x10000
            invariant
                i <= 0x10000,
                memory@ == Seq::new(i as nat, |j: int| 0u8),
            decreases 0x10000 - i,
        {
            memory.push(0);
            i = i + 1;
        }
        RAM { memory }
    }

    pub fn read(&self, address: u16) -> (r: u8)
        requires
            self.wf(),
        ensures
            r == self.contents()[address as int],
    {
        self.memory[address as usize]
    }

    pub fn write(&mut self, address: u16, byte: u8)
        requires
            old(self).wf(),
        ensures
            final(self).contents() == old(self).contents().update(address as int, byte),
            final(self).wf(),
    {
        self.memory.set(address as usize, byte);
    }

    /// The `length` bytes from `start_address` on.
    pub fn read_vec(&self, start_address: usize, length: usize) -> (r: &[u8])
        requires
            self.wf(),
            start_address + length <= 0x10000,
        ensures
            r@ == self.contents().subrange(start_address as int, start_address + length),
    {
        vstd::slice::slice_subrange(self.memory.as_slice(), start_address, start_address + length)
    }
}

/// A block of memory mapped at a fixed range of addresses.
pub struct MemoryBlock {
    start: u16,
    data: Vec<u8>,
}

/// The contents of a memory block and where it starts.
pub struct MemoryBlockView {
    pub start: u16,
    pub data: Seq<u8>,
}

impl MemoryBlockView {
    /// Whether the block holds the byte at this address.
    pub open spec fn contains(self, address: u16) -> bool {
        self.start <= address && address - self.start < self.data.len()
    }

    /// The byte at an address the block holds.
    pub open spec fn byte(self, address: u16) -> u8 {
        self.data[address - self.start]
    }

    /// The block with one byte written.
    pub open spec fn written(self, address: u16, data: u8) -> MemoryBlockView {
        MemoryBlockView { start: self.start, data: self.data.update(address - self.start, data) }
    }
}

impl View for MemoryBlock {
    type V = MemoryBlockView;

    closed spec fn view(&self) -> MemoryBlockView {
        MemoryBlockView { start: self.start, data: self.data@ }
    }
}

impl MemoryBlock {
    /// A zeroed block covering `start ..= end`.
    pub fn new(start: u16, end: u16) -> (r: Self)
        requires
            start <= end,
        ensures
            r@.start == start,
            r@.data == Seq::new((end - start + 1) as nat, |i: int| 0u8),
    {
        let len: usize = (end - start) as usize + 1;
        let mut data: Vec<u8> = Vec::new();
        let mut i: usize = 0;
        while i < len
            invariant
                i <= len,
                len == end - start + 1,
                data@ == Seq::new(i as nat, |j: int| 0u8),
            decreases len - i,
        {
            data.push(0);
            i = i + 1;
        }
        MemoryBlock { start, data }
    }

    /// Work RAM, 0xC000 ..= 0xDFFF.
    pub fn wram() -> (r: Self)
        ensures
            r@.start == 0xC000,
            r@.data == Seq::new(0x2000, |i: int| 0u8),
    {
        Self::new(0xC000, 0xDFFF)
    }

    /// High RAM, 0xFF80 ..= 0xFFFE.
    pub fn hram() -> (r: Self)
        ensures
            r@.start == 0xFF80,
            r@.data == Seq::new(0x7F, |i: int| 0u8),
    {
        Self::new(0xFF80, 0xFFFE)
    }

    /// Video RAM, 0x8000 ..= 0x9FFF.
    pub fn vram() -> (r: Self)
        ensures
            r@.start == 0x8000,
            r@.data == Seq::new(0x2000, |i: int| 0u8),
    {
        Self::new(0x8000, 0x9FFF)
    }

    /// Object attribute memory, 0xFE00 ..= 0xFE9F.
    pub fn oam() -> (r: Self)
        ensures
            r@.start == 0xFE00,
            r@.data == Seq::new(0xA0, |i: int| 0u8),
    {
        Self::new(0xFE00, 0xFE9F)
    }

    /// Whether the block holds the byte at this address.
    pub fn contains(&self, address: Address) -> (r: bool)
        ensures
            r == self@.contains(address.0),
    {
        self.start <= address.0 && ((address.0 - self.start) as usize) < self.data.len()
    }

    pub fn read(&self, address: Address) -> (r: Byte)
        requires
            self@.contains(address.0),
        ensures
            r == self@.byte(address.0),
    {
        self.data[(address.0 - self.start) as usize]
    }

    pub fn write(&mut self, address: Address, data: Byte)
        requires
            old(self)@.contains(address.0),
        ensures
            final(self)@ == old(self)@.written(address.0, data),
    {
        let idx = (address.0 - self.start) as usize;
        self.data.set(idx, data);
    }
}

} // verus!

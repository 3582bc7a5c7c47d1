//! The 256-byte boot ROM.
use vstd::prelude::*;

verus! {

/// Bytes of the boot ROM.
pub const BIOS_SIZE: usize = 256;

/// The boot ROM and the path it was loaded from.
pub struct BIOS {
    memory: Vec<u8>,
    bios: String,
}

impl BIOS {
    /// The bytes of the boot ROM.
    pub closed spec fn contents(&self) -> Seq<u8> {
        self.memory@
    }

    /// The path the boot ROM was loaded from, empty until one is loaded.
    pub closed spec fn path(&self) -> Seq<char> {
        self.bios@
    }

    /// A zeroed boot ROM with no path.
    pub fn new() -> (r: Self)
        ensures
            r.contents() == Seq::new(BIOS_SIZE as nat, |i: int| 0u8),
            r.path() == Seq::<char>::empty(),
    {
        let mut memory: Vec<u8> = Vec::new();
        let mut i: usize = 0;
        while i < BIOS_SIZE
            invariant
                i <= BIOS_SIZE,
                memory@ == Seq::new(i as nat, |j: int| 0u8),
            decreases BIOS_SIZE - i,
        {
            memory.push(0);
            i = i + 1;
        }
        Self { memory, bios: String::new() }
    }

    /// The byte at an address of the boot ROM.
    pub fn read(&self, address: u16) -> (r: u8)
        requires
            address < self.contents().len(),
        ensures
            r == self.contents()[address as int],
    {
        self.memory[address as usize]
    }

    /// Takes the 256 bytes read from the file at `path` as the boot ROM.
    pub fn load_bios_data(&mut self, buffer: Vec<u8>, path: String)
        requires
            buffer@.len() == BIOS_SIZE,
        ensures
            final(self).contents() == buffer@,
            final(self).path() == path@,
    {
        self.memory = buffer;
        self.bios = path;
    }

    /// The size of the boot ROM in bytes.
    pub fn len(&self) -> (r: usize)
        ensures
            r == self.contents().len(),
    {
        self.memory.len()
    }
}

} // verus!

use vstd::prelude::*;

verus! {

/// A byte of the Game Boy memory map.
pub type Byte = u8;

/// A 16-bit address of the Game Boy memory map.
#[derive(Clone, Copy, Debug, PartialEq, Eq, Structural)]
pub struct Address(pub u16);

impl Address {
    /// The address as a 16-bit integer.
    pub fn as_u16(&self) -> (r: u16)
        ensures
            r == self.0,
    {
        self.0
    }

    /// The address as an index.
    pub fn as_usize(&self) -> (r: usize)
        ensures
            r == self.0 as usize,
    {
        self.0 as usize
    }
}

} // verus!

//! Object attribute entries: where a sprite is, which tile it shows and how.
use vstd::prelude::*;

verus! {

/// Bytes of one entry in object attribute memory.
pub const OAM_BYTE_SIZE: usize = 4;

/// The bits of an entry's attribute byte.
#[derive(Copy, Clone, Debug, PartialEq, Eq, Structural)]
pub enum AttributesMasks {
    Priority,
    YFlip,
    XFlip,
    Palette,
}

/// The bit of the attribute byte a flag owns.
pub open spec fn attributes_mask(m: AttributesMasks) -> u8 {
    match m {
        AttributesMasks::Priority => 0x80,
        AttributesMasks::YFlip => 0x40,
        AttributesMasks::XFlip => 0x20,
        AttributesMasks::Palette => 0x10,
    }
}

impl AttributesMasks {
    pub fn mask(self) -> (r: u8)
        ensures
            r == attributes_mask(self),
    {
        match self {
            AttributesMasks::Priority => 0x80,
            AttributesMasks::YFlip => 0x40,
            AttributesMasks::XFlip => 0x20,
            AttributesMasks::Palette => 0x10,
        }
    }
}

/// An object: its index in OAM when it came from there, its position (the screen position
/// plus 16 vertically and 8 horizontally), its tile and its attribute flags.
#[derive(Copy, Clone, Debug, PartialEq, Eq, Structural)]
pub struct OAM {
    pub id: Option<usize>,
    pub y: u8,
    pub x: u8,
    pub tile_id: u8,
    /// BG and window colours 1 to 3 are drawn over the object.
    pub priority: bool,
    pub y_flip: bool,
    pub x_flip: bool,
    /// OBP1 instead of OBP0.
    pub palette: bool,
}

impl OAM {
    /// An object from its four OAM bytes.
    pub fn new(y: u8, x: u8, tile_id: u8, attributes: u8, id: Option<usize>) -> (r: Self)
        ensures
            r == (OAM {
                id,
                y,
                x,
                tile_id,
                priority: attributes & 0x80 != 0,
                y_flip: attributes & 0x40 != 0,
                x_flip: attributes & 0x20 != 0,
                palette: attributes & 0x10 != 0,
            }),
    {
        let priority = (attributes & AttributesMasks::Priority.mask()) != 0;
        let y_flip = (attributes & AttributesMasks::YFlip.mask()) != 0;
        let x_flip = (attributes & AttributesMasks::XFlip.mask()) != 0;
        let palette = (attributes & AttributesMasks::Palette.mask()) != 0;
        Self { id, y, x, tile_id, priority, y_flip, x_flip, palette }
    }

    /// The screen line of the object's top row.
    pub fn get_y_screen(&self) -> (r: isize)
        ensures
            r == self.y - 16,
    {
        self.y as isize - 16
    }

    /// The screen column of the object's left pixel.
    pub fn get_x_screen(&self) -> (r: isize)
        ensures
            r == self.x - 8,
    {
        self.x as isize - 8
    }

    pub fn get_tile_id(&self) -> (r: u8)
        ensures
            r == self.tile_id,
    {
        self.tile_id
    }
}

} // verus!

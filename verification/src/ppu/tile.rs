//! Tiles: 8x8 pictures of 2-bit colours, stored as 16 bytes, two per row.
use vstd::prelude::*;

verus! {

pub const TILE_WIDTH: usize = 8;
pub const TILE_HEIGHT: usize = 8;
pub const TILE_SIZE: usize = 16;

/// The four shades of the DMG, by colour index.
#[derive(Debug, Copy, Clone, PartialEq, Eq, Structural)]
pub enum GbPalette {
    White,
    LightGray,
    DarkGray,
    Black,
}

/// The colours a screen shows for the four shades.
#[derive(Debug, Copy, Clone, PartialEq, Eq, Structural)]
pub enum RGBPalette {
    White,
    LightGray,
    DarkGray,
    Black,
}

/// The 0xRRGGBB colour of a shade.
pub open spec fn rgb_value(c: RGBPalette) -> u32 {
    match c {
        RGBPalette::White => 0xD1EE54,
        RGBPalette::LightGray => 0x94B860,
        RGBPalette::DarkGray => 0x87AB54,
        RGBPalette::Black => 0x0C0F08,
    }
}

impl RGBPalette {
    /// The 0xRRGGBB colour of this shade.
    pub fn value(self) -> (r: u32)
        ensures
            r == rgb_value(self),
    {
        match self {
            RGBPalette::White => 0xD1EE54,
            RGBPalette::LightGray => 0x94B860,
            RGBPalette::DarkGray => 0x87AB54,
            RGBPalette::Black => 0x0C0F08,
        }
    }
}

/// The colour index of a shade.
pub open spec fn palette_index(p: GbPalette) -> u8 {
    match p {
        GbPalette::White => 0,
        GbPalette::LightGray => 1,
        GbPalette::DarkGray => 2,
        GbPalette::Black => 3,
    }
}

/// The character a text picture of the screen shows for a shade: blank for white, then
/// light, dark and full block.
pub open spec fn shade_char(p: GbPalette) -> char {
    match p {
        GbPalette::White => ' ',
        GbPalette::LightGray => '\u{2591}',
        GbPalette::DarkGray => '\u{2593}',
        GbPalette::Black => '\u{2588}',
    }
}

impl GbPalette {
    /// The character a text picture of the screen shows for this shade.
    pub fn shade_char(self) -> (r: char)
        ensures
            r == shade_char(self),
    {
        match self {
            GbPalette::White => ' ',
            GbPalette::LightGray => '\u{2591}',
            GbPalette::DarkGray => '\u{2593}',
            GbPalette::Black => '\u{2588}',
        }
    }
}

/// The shade of the two low bits of a byte.
pub open spec fn palette_of(byte: u8) -> GbPalette {
    let i = byte % 4;
    if i == 0 {
        GbPalette::White
    } else if i == 1 {
        GbPalette::LightGray
    } else if i == 2 {
        GbPalette::DarkGray
    } else {
        GbPalette::Black
    }
}

/// A byte with bit `i` moved to bit `2 * i`, every odd bit cleared.
pub open spec fn expanded(byte: u8) -> u16 {
    ((byte & 0x01) as u16) | (((byte & 0x02) as u16) << 1u16) | (((byte & 0x04) as u16) << 2u16)
        | (((byte & 0x08) as u16) << 3u16) | (((byte & 0x10) as u16) << 4u16)
        | (((byte & 0x20) as u16) << 5u16) | (((byte & 0x40) as u16) << 6u16)
        | (((byte & 0x80) as u16) << 7u16)
}

/// The bits below bit `i` of a byte.
pub open spec fn low_bits(byte: u8, i: u8) -> u8 {
    byte & (((1u16 << i) - 1) as u8)
}

proof fn lemma_expand_step(byte: u8, i: u8, result: u16)
    by (bit_vector)
    requires
        i < 8,
        result == expanded(low_bits(byte, i)),
    ensures
        result | (((byte & (1u8 << i)) as u16) << (i as u16)) == expanded(low_bits(byte, (i + 1) as u8)),
{
}

proof fn lemma_expand_ends(byte: u8)
    by (bit_vector)
    ensures
        expanded(low_bits(byte, 0)) == 0,
        low_bits(byte, 8) == byte,
{
}

/// Spreads the bits of a byte over the even bits of a word: bit `i` goes to bit `2 * i`.
pub fn expand_bits(byte: u8) -> (r: u16)
    ensures
        r == expanded(byte),
{
    let mut result: u16 = 0;
    let mut i: u8 = 0;
    proof {
        lemma_expand_ends(byte);
    }
    while i < 8
        invariant
            i <= 8,
            result == expanded(low_bits(byte, i)),
            low_bits(byte, 8) == byte,
        decreases 8 - i,
    {
        proof {
            lemma_expand_step(byte, i, result);
        }
        result = result | (((byte & (1u8 << i)) as u16) << (i as u16));
        i = i + 1;
    }
    result
}

/// The colour index of pixel `j` (0 leftmost) of a row: bit `7 - j` of the low byte plus
/// twice bit `7 - j` of the high byte.
pub open spec fn pixel_index(low: u8, high: u8, j: int) -> u8 {
    let s = (7 - j) as u8;
    (((low >> s) & 1) + 2 * ((high >> s) & 1)) as u8
}

/// The shade of pixel `k` of a tile, row by row from the top left.
pub open spec fn tile_pixel(data: Seq<u8>, k: int) -> GbPalette {
    palette_of(pixel_index(data[2 * (k / 8)], data[2 * (k / 8) + 1], k % 8))
}

proof fn lemma_row_pixel(low: u8, high: u8, bit: u8, shift: u16)
    by (bit_vector)
    requires
        bit < 8,
        shift == 2 * bit,
    ensures
        ((((expanded(high) << 1u16) | expanded(low)) & (3u16 << shift)) >> shift) as u8
            == ((low >> bit) & 1) + 2 * ((high >> bit) & 1),
{
}

/// A tile: two bytes per row, the low bits of the colour indexes first.
#[derive(Debug, Clone)]
pub struct Tile {
    pub data: [u8; 16],
}

impl Tile {
    pub fn new(tile: [u8; 16]) -> (r: Self)
        ensures
            r.data == tile,
    {
        Self { data: tile }
    }

    /// The 64 shades of the tile, row by row from the top left.
    pub fn to_picture(&self) -> (r: [GbPalette; 64])
        ensures
            forall|k: int| 0 <= k < 64 ==> #[trigger] r[k] == tile_pixel(self.data@, k),
    {
        let mut picture = [GbPalette::White; 64];
        let mut i: usize = 0;
        while i < 8
            invariant
                i <= 8,
                forall|k: int| 0 <= k < 8 * i ==> #[trigger] picture[k] == tile_pixel(self.data@, k),
            decreases 8 - i,
        {
            let byte1 = self.data[i * 2];
            let byte2 = self.data[i * 2 + 1];
            let byte1_expanded = expand_bits(byte1);
            let byte2_expanded = expand_bits(byte2) << 1;
            let resulting_byte = byte2_expanded | byte1_expanded;
            let mut j: usize = 0;
            while j < 8
                invariant
                    i < 8,
                    j <= 8,
                    byte1 == self.data@[2 * i as int],
                    byte2 == self.data@[2 * i as int + 1],
                    resulting_byte == (expanded(byte2) << 1u16) | expanded(byte1),
                    forall|k: int| 0 <= k < 8 * i + j ==> #[trigger] picture[k] == tile_pixel(self.data@, k),
                decreases 8 - j,
            {
                let shift = ((7 - j) * 2) as u16;
                proof {
                    lemma_row_pixel(byte1, byte2, (7 - j) as u8, shift);
                }
                picture[i * 8 + j] = Self::half_nibble_to_palette(((resulting_byte & (3u16 << shift)) >> shift) as u8);
                proof {
                    let k = (i * 8 + j) as int;
                    assert(k / 8 == i as int && k % 8 == j as int);
                }
                j = j + 1;
            }
            i = i + 1;
        }
        picture
    }

    /// The shade of the two low bits of a byte.
    pub fn half_nibble_to_palette(byte: u8) -> (r: GbPalette)
        ensures
            r == palette_of(byte),
    {
        let i = byte & 3;
        assert(byte & 3 == byte % 4) by (bit_vector);
        match i {
            0 => GbPalette::White,
            1 => GbPalette::LightGray,
            2 => GbPalette::DarkGray,
            3 => GbPalette::Black,
            _ => GbPalette::White,
        }
    }
}

} // verus!

//! The joypad: button states, the P1 register that reports them, and key mappings.
use vstd::prelude::*;
use std::collections::HashMap;
use crate::types::Byte;

verus! {

pub const GB_A_BUTTON: u32 = 0x00;
pub const GB_B_BUTTON: u32 = 0x01;
pub const GB_START_BUTTON: u32 = 0x02;
pub const GB_SELECT_BUTTON: u32 = 0x03;
pub const GB_UP_BUTTON: u32 = 0x04;
pub const GB_DOWN_BUTTON: u32 = 0x05;
pub const GB_LEFT_BUTTON: u32 = 0x06;
pub const GB_RIGHT_BUTTON: u32 = 0x07;

/// Address of the joypad register P1.
pub const JOYPAD_ADDRESS: u16 = 0xFF00;

#[derive(Copy, Clone, Debug, PartialEq, Eq, Structural)]
pub enum GBInputSelectionBits {
    Buttons,
    DPad,
}

impl GBInputSelectionBits {
    pub fn mask(self) -> (r: u8)
        ensures
            r == (match self {
                GBInputSelectionBits::Buttons => 0b_0100_0000u8,
                GBInputSelectionBits::DPad => 0b_0010_0000u8,
            }),
    {
        match self {
            GBInputSelectionBits::Buttons => 0b_0100_0000,
            GBInputSelectionBits::DPad => 0b_0010_0000,
        }
    }
}

/// The button bits of the low nibble of P1.
#[derive(Copy, Clone, Debug, PartialEq, Eq, Structural)]
pub enum GBInputButtonsBits {
    A,
    B,
    Select,
    Start,
}

pub open spec fn button_mask(b: GBInputButtonsBits) -> u8 {
    match b {
        GBInputButtonsBits::A => 0b_0000_0001,
        GBInputButtonsBits::B => 0b_0000_0010,
        GBInputButtonsBits::Select => 0b_0000_0100,
        GBInputButtonsBits::Start => 0b_0000_1000,
    }
}

impl GBInputButtonsBits {
    pub fn mask(self) -> (r: u8)
        ensures
            r == button_mask(self),
    {
        match self {
            GBInputButtonsBits::A => 0b_0000_0001,
            GBInputButtonsBits::B => 0b_0000_0010,
            GBInputButtonsBits::Select => 0b_0000_0100,
            GBInputButtonsBits::Start => 0b_0000_1000,
        }
    }
}

/// The direction bits of the low nibble of P1.
#[derive(Copy, Clone, Debug, PartialEq, Eq, Structural)]
pub enum GBInputDPadBits {
    Right,
    Left,
    Up,
    Down,
}

pub open spec fn dpad_mask(d: GBInputDPadBits) -> u8 {
    match d {
        GBInputDPadBits::Right => 0b_0000_0001,
        GBInputDPadBits::Left => 0b_0000_0010,
        GBInputDPadBits::Up => 0b_0000_0100,
        GBInputDPadBits::Down => 0b_0000_1000,
    }
}

impl GBInputDPadBits {
    pub fn mask(self) -> (r: u8)
        ensures
            r == dpad_mask(self),
    {
        match self {
            GBInputDPadBits::Right => 0b_0000_0001,
            GBInputDPadBits::Left => 0b_0000_0010,
            GBInputDPadBits::Up => 0b_0000_0100,
            GBInputDPadBits::Down => 0b_0000_1000,
        }
    }
}

/// The key code mapped to each button.
pub struct GBInputMapping {
    pub a: u32,
    pub b: u32,
    pub start: u32,
    pub select: u32,
    pub up: u32,
    pub down: u32,
    pub left: u32,
    pub right: u32,
}

impl GBInputMapping {
    pub fn new() -> (r: Self)
        ensures
            r.a == 0 && r.b == 0 && r.start == 0 && r.select == 0,
            r.up == 0 && r.down == 0 && r.left == 0 && r.right == 0,
    {
        Self { a: 0, b: 0, start: 0, select: 0, up: 0, down: 0, left: 0, right: 0 }
    }
}

/// 0 when pressed, the bit's value when not.
pub open spec fn released_bit(pressed: bool, bit: u8) -> u8 {
    if pressed { 0 } else { bit }
}

/// Each button of the Game Boy: true while it is pressed.
#[derive(Copy, Clone, Debug, PartialEq, Eq, Structural)]
pub struct GBInput {
    pub a: bool,
    pub b: bool,
    pub start: bool,
    pub select: bool,
    pub up: bool,
    pub down: bool,
    pub left: bool,
    pub right: bool,
}

impl GBInput {
    /// The low nibble of P1 when the buttons are selected: a bit is 0 while its button is
    /// pressed and 1 otherwise.
    pub open spec fn buttons_byte(self) -> u8 {
        (released_bit(self.a, 1) + released_bit(self.b, 2) + released_bit(self.select, 4)
            + released_bit(self.start, 8)) as u8
    }

    /// The low nibble of P1 when the directions are selected.
    pub open spec fn dpad_byte(self) -> u8 {
        (released_bit(self.right, 1) + released_bit(self.left, 2) + released_bit(self.up, 4)
            + released_bit(self.down, 8)) as u8
    }

    pub fn get_buttons_byte(&self) -> (r: u8)
        ensures
            r == self.buttons_byte(),
    {
        (if self.a { 0 } else { GBInputButtonsBits::A.mask() })
            + (if self.b { 0 } else { GBInputButtonsBits::B.mask() })
            + (if self.select { 0 } else { GBInputButtonsBits::Select.mask() })
            + (if self.start { 0 } else { GBInputButtonsBits::Start.mask() })
    }

    pub fn get_dpad_byte(&self) -> (r: u8)
        ensures
            r == self.dpad_byte(),
    {
        (if self.right { 0 } else { GBInputDPadBits::Right.mask() })
            + (if self.left { 0 } else { GBInputDPadBits::Left.mask() })
            + (if self.up { 0 } else { GBInputDPadBits::Up.mask() })
            + (if self.down { 0 } else { GBInputDPadBits::Down.mask() })
    }

    /// No button pressed.
    pub fn released() -> (r: Self)
        ensures
            !r.a && !r.b && !r.start && !r.select && !r.up && !r.down && !r.left && !r.right,
    {
        Self { a: false, b: false, start: false, select: false, up: false, down: false, left: false, right: false }
    }
}

impl Default for GBInput {
    fn default() -> (r: Self)
        ensures
            !r.a && !r.b && !r.start && !r.select && !r.up && !r.down && !r.left && !r.right,
    {
        Self::released()
    }
}

/// Law: with no button pressed both nibbles read 0xF.
pub proof fn lemma_released_reads_all_ones(input: GBInput)
    requires
        !input.a && !input.b && !input.start && !input.select,
        !input.up && !input.down && !input.left && !input.right,
    ensures
        input.buttons_byte() == 0x0F,
        input.dpad_byte() == 0x0F,
{
}

proof fn lemma_p1_bits(s: u8, w: bool, x: bool, y: bool, z: bool)
    by (bit_vector)
    ensures
        ({
            let low = ((if w { 0u8 } else { 1u8 }) + (if x { 0u8 } else { 2u8 }) + (if y { 0u8 } else { 4u8 })
                + (if z { 0u8 } else { 8u8 })) as u8;
            let r = (0xC0u8 + (s & 0x30) + low) as u8;
            &&& r & 0xC0 == 0xC0
            &&& r & 0x30 == s & 0x30
            &&& (r & 0x01 == 0) == w
            &&& (r & 0x02 == 0) == x
            &&& (r & 0x04 == 0) == y
            &&& (r & 0x08 == 0) == z
        }),
        ((0xC0u8 + (s & 0x30) + 0x0Fu8) as u8) & 0x0F == 0x0F,
        ((0xC0u8 + (s & 0x30) + 0x0Fu8) as u8) & 0x30 == s & 0x30,
        ((0xC0u8 + (s & 0x30) + 0x0Fu8) as u8) & 0xC0 == 0xC0,
{
}

/// The joypad register P1: the selection written in bits 4 and 5 and the buttons.
pub struct Joypad {
    pub select: u8,
    pub input: GBInput,
}

impl Joypad {
    /// What reading P1 gives: the unused bits 6 and 7 read 1, bits 4 and 5 the selection;
    /// the low nibble holds the buttons when bit 5 is 0, else the directions when bit 4 is
    /// 0, else 0xF.
    pub open spec fn read_spec(self) -> u8 {
        let low = if self.select & 0x20 == 0 {
            self.input.buttons_byte()
        } else if self.select & 0x10 == 0 {
            self.input.dpad_byte()
        } else {
            0x0F
        };
        (0xC0 + (self.select & 0x30) + low) as u8
    }

    pub fn new() -> (r: Self)
        ensures
            r.select == 0x30,
            !r.input.a && !r.input.b && !r.input.start && !r.input.select,
            !r.input.up && !r.input.down && !r.input.left && !r.input.right,
    {
        Self { select: 0x30, input: GBInput::released() }
    }

    pub fn read(&self) -> (r: Byte)
        ensures
            r == self.read_spec(),
    {
        let select = self.select;
        let sel = select & 0x30;
        assert(sel <= 0x30) by (bit_vector)
            requires
                sel == select & 0x30,
        ;
        let low = if self.select & 0x20 == 0 {
            self.input.get_buttons_byte()
        } else if self.select & 0x10 == 0 {
            self.input.get_dpad_byte()
        } else {
            0x0F
        };
        0xC0 + sel + low
    }

    /// Keeps bits 4 and 5 of the written byte as the selection.
    pub fn write(&mut self, data: Byte)
        ensures
            final(self).select == data & 0x30,
            final(self).input == old(self).input,
    {
        self.select = data & 0x30;
    }
}

/// Maps the Game Boy buttons to key codes.
pub struct InputMapping {
    mapping: HashMap<u32, u32>,
    gb_mapping: GBInputMapping,
}

impl InputMapping {
    /// The key code of each mapped button.
    pub closed spec fn spec_mapping(&self) -> Map<u32, u32> {
        self.mapping@
    }

    /// A mapping with button A on key code 0x5A.
    pub fn new() -> (r: Self)
        ensures
            r.spec_mapping() == Map::<u32, u32>::empty().insert(GB_A_BUTTON, 0x5A),
    {
        broadcast use vstd::std_specs::hash::group_hash_axioms;
        let mut hashmap: HashMap<u32, u32> = HashMap::new();
        hashmap.insert(GB_A_BUTTON, 0x5A);
        let gb_map = GBInputMapping::new();
        Self { mapping: hashmap, gb_mapping: gb_map }
    }

    pub fn set_mapping(&mut self, input_code: u32, key_code: u32)
        ensures
            final(self).spec_mapping() == old(self).spec_mapping().insert(input_code, key_code),
    {
        broadcast use vstd::std_specs::hash::group_hash_axioms;
        self.mapping.insert(input_code, key_code);
    }

    pub fn get_key_code(&self, input_code: u32) -> (r: Option<&u32>)
        ensures
            match r {
                Some(k) => self.spec_mapping().contains_key(input_code) && *k == self.spec_mapping()[input_code],
                None => !self.spec_mapping().contains_key(input_code),
            },
    {
        broadcast use vstd::std_specs::hash::group_hash_axioms;
        self.mapping.get(&input_code)
    }
}


/// Law: reading P1. Bits 6 and 7 read 1 and bits 4 and 5 give back the selection. With bit 5
/// clear (buttons selected) bits 0 to 3 read 0 exactly while A, B, Select and Start are
/// pressed; with bit 5 set and bit 4 clear (directions selected) while Right, Left, Up and
/// Down are pressed; with neither selected the low nibble reads 0xF.
pub proof fn lemma_p1_reads_pressed_buttons(j: Joypad)
    ensures
        ({
            let r = j.read_spec();
            &&& r & 0xC0 == 0xC0
            &&& r & 0x30 == j.select & 0x30
            &&& j.select & 0x20 == 0 ==> {
                &&& (r & 0x01 == 0) == j.input.a
                &&& (r & 0x02 == 0) == j.input.b
                &&& (r & 0x04 == 0) == j.input.select
                &&& (r & 0x08 == 0) == j.input.start
            }
            &&& j.select & 0x20 != 0 && j.select & 0x10 == 0 ==> {
                &&& (r & 0x01 == 0) == j.input.right
                &&& (r & 0x02 == 0) == j.input.left
                &&& (r & 0x04 == 0) == j.input.up
                &&& (r & 0x08 == 0) == j.input.down
            }
            &&& j.select & 0x30 == 0x30 ==> r & 0x0F == 0x0F
        }),
{
    let i = j.input;
    lemma_p1_bits(j.select, i.a, i.b, i.select, i.start);
    lemma_p1_bits(j.select, i.right, i.left, i.up, i.down);
    let sel = j.select;
    assert(sel & 0x30 == 0x30 ==> sel & 0x20 != 0 && sel & 0x10 != 0) by (bit_vector);
}

} // verus!

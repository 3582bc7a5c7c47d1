//! The interrupt enable (IE) and interrupt flag (IF) registers.
use vstd::prelude::*;
use crate::types::{Address, Byte};

verus! {

pub const INTERRUPT_VBLANK_ADDR: u16 = 0x40;
pub const INTERRUPT_STAT_ADDR: u16 = 0x48;
pub const INTERRUPT_TIMER_ADDR: u16 = 0x50;
pub const INTERRUPT_SERIAL_ADDR: u16 = 0x58;
pub const INTERRUPT_JOYPAD_ADDR: u16 = 0x60;

/// Address of the IE register.
pub const IE_ADDRESS: u16 = 0xFFFF;
/// Address of the IF register.
pub const IF_ADDRESS: u16 = 0xFF0F;

/// The bits of the IE register.
#[derive(Debug, Copy, Clone, PartialEq, Eq, Structural)]
pub enum InterruptEnableMask {
    JoyPad,
    Serial,
    Timer,
    LCD,
    VBlank,
}

/// The bits of the IF register.
#[derive(Debug, Copy, Clone, PartialEq, Eq, Structural)]
pub enum InterruptFlagsMask {
    JoyPad,
    Serial,
    Timer,
    LCD,
    VBlank,
}

/// The bit an interrupt source has in IE and IF.
pub open spec fn interrupt_flag_mask(m: InterruptFlagsMask) -> u8 {
    match m {
        InterruptFlagsMask::JoyPad => 0b0001_0000,
        InterruptFlagsMask::Serial => 0b0000_1000,
        InterruptFlagsMask::Timer => 0b0000_0100,
        InterruptFlagsMask::LCD => 0b0000_0010,
        InterruptFlagsMask::VBlank => 0b0000_0001,
    }
}

impl InterruptFlagsMask {
    pub fn mask(self) -> (r: u8)
        ensures
            r == interrupt_flag_mask(self),
    {
        match self {
            InterruptFlagsMask::JoyPad => 0b0001_0000,
            InterruptFlagsMask::Serial => 0b0000_1000,
            InterruptFlagsMask::Timer => 0b0000_0100,
            InterruptFlagsMask::LCD => 0b0000_0010,
            InterruptFlagsMask::VBlank => 0b0000_0001,
        }
    }
}

impl InterruptEnableMask {
    pub fn mask(self) -> (r: u8)
        ensures
            r == match self {
                InterruptEnableMask::JoyPad => 0b0001_0000u8,
                InterruptEnableMask::Serial => 0b0000_1000u8,
                InterruptEnableMask::Timer => 0b0000_0100u8,
                InterruptEnableMask::LCD => 0b0000_0010u8,
                InterruptEnableMask::VBlank => 0b0000_0001u8,
            },
    {
        match self {
            InterruptEnableMask::JoyPad => 0b0001_0000,
            InterruptEnableMask::Serial => 0b0000_1000,
            InterruptEnableMask::Timer => 0b0000_0100,
            InterruptEnableMask::LCD => 0b0000_0010,
            InterruptEnableMask::VBlank => 0b0000_0001,
        }
    }
}

/// A quick view of the five interrupt bits of an IF or IE value.
pub struct InterruptFlags {
    pub joy_pad: bool,
    pub serial: bool,
    pub timer: bool,
    pub lcd: bool,
    pub v_blank: bool,
}

impl InterruptFlags {
    pub fn new(byte: u8) -> (r: Self)
        ensures
            r.joy_pad == (byte & 0b0001_0000 != 0),
            r.serial == (byte & 0b0000_1000 != 0),
            r.timer == (byte & 0b0000_0100 != 0),
            r.lcd == (byte & 0b0000_0010 != 0),
            r.v_blank == (byte & 0b0000_0001 != 0),
    {
        Self {
            joy_pad: (byte & InterruptFlagsMask::JoyPad.mask()) != 0,
            serial: (byte & InterruptFlagsMask::Serial.mask()) != 0,
            timer: (byte & InterruptFlagsMask::Timer.mask()) != 0,
            lcd: (byte & InterruptFlagsMask::LCD.mask()) != 0,
            v_blank: (byte & InterruptFlagsMask::VBlank.mask()) != 0,
        }
    }
}

/// The values of IE and IF.
#[derive(Debug, Clone, Copy, PartialEq, Eq, Structural)]
pub struct InterruptRegistersView {
    pub ie: u8,
    pub iflag: u8,
}

/// The IE and IF registers.
pub struct InterruptRegisters {
    ie: u8,
    iflag: u8,
}

impl View for InterruptRegisters {
    type V = InterruptRegistersView;

    closed spec fn view(&self) -> InterruptRegistersView {
        InterruptRegistersView { ie: self.ie, iflag: self.iflag }
    }
}

/// Whether an address is one of the two interrupt registers.
pub open spec fn is_interrupt_register(address: u16) -> bool {
    address == IE_ADDRESS || address == IF_ADDRESS
}

impl InterruptRegistersView {
    /// What reading a register gives.
    pub open spec fn read(self, address: u16) -> u8 {
        if address == IE_ADDRESS {
            self.ie
        } else {
            self.iflag
        }
    }

    /// The registers after writing one.
    pub open spec fn written(self, address: u16, data: u8) -> InterruptRegistersView {
        if address == IE_ADDRESS {
            InterruptRegistersView { ie: data, ..self }
        } else {
            InterruptRegistersView { iflag: data, ..self }
        }
    }
}

impl InterruptRegisters {
    pub fn new() -> (r: Self)
        ensures
            r@ == (InterruptRegistersView { ie: 0, iflag: 0 }),
    {
        Self { ie: 0, iflag: 0 }
    }

    pub fn get_ie(&self) -> (r: u8)
        ensures
            r == self@.ie,
    {
        self.ie
    }

    pub fn set_ie(&mut self, val: u8)
        ensures
            final(self)@ == (InterruptRegistersView { ie: val, ..old(self)@ }),
    {
        self.ie = val;
    }

    pub fn get_if(&self) -> (r: u8)
        ensures
            r == self@.iflag,
    {
        self.iflag
    }

    pub fn set_if(&mut self, val: u8)
        ensures
            final(self)@ == (InterruptRegistersView { iflag: val, ..old(self)@ }),
    {
        self.iflag = val;
    }

    /// Requests an interrupt: sets its bit in IF.
    pub fn set_if_bit(&mut self, mask: InterruptFlagsMask)
        ensures
            final(self)@ == (InterruptRegistersView {
                iflag: old(self)@.iflag | interrupt_flag_mask(mask),
                ..old(self)@
            }),
    {
        self.iflag = self.iflag | mask.mask();
    }

    pub fn get_vblank_enabled(&self) -> (r: bool)
        ensures
            r == (self@.ie & 0b0000_0001 != 0),
    {
        (self.ie & 0b0000_0001) != 0
    }

    pub fn get_lcd_enabled(&self) -> (r: bool)
        ensures
            r == (self@.ie & 0b0000_0010 != 0),
    {
        (self.ie & 0b0000_0010) != 0
    }

    pub fn get_timer_enabled(&self) -> (r: bool)
        ensures
            r == (self@.ie & 0b0000_0100 != 0),
    {
        (self.ie & 0b0000_0100) != 0
    }

    pub fn get_serial_enabled(&self) -> (r: bool)
        ensures
            r == (self@.ie & 0b0000_1000 != 0),
    {
        (self.ie & 0b0000_1000) != 0
    }

    pub fn get_joypad_enabled(&self) -> (r: bool)
        ensures
            r == (self@.ie & 0b0001_0000 != 0),
    {
        (self.ie & 0b0001_0000) != 0
    }

    pub fn get_vblank_interrupt(&self) -> (r: bool)
        ensures
            r == (self@.iflag & 0b0000_0001 != 0),
    {
        (self.iflag & 0b0000_0001) != 0
    }

    pub fn get_lcd_interrupt(&self) -> (r: bool)
        ensures
            r == (self@.iflag & 0b0000_0010 != 0),
    {
        (self.iflag & 0b0000_0010) != 0
    }

    pub fn get_timer_interrupt(&self) -> (r: bool)
        ensures
            r == (self@.iflag & 0b0000_0100 != 0),
    {
        (self.iflag & 0b0000_0100) != 0
    }

    pub fn get_serial_interrupt(&self) -> (r: bool)
        ensures
            r == (self@.iflag & 0b0000_1000 != 0),
    {
        (self.iflag & 0b0000_1000) != 0
    }

    pub fn get_joypad_interrupt(&self) -> (r: bool)
        ensures
            r == (self@.iflag & 0b0001_0000 != 0),
    {
        (self.iflag & 0b0001_0000) != 0
    }

    /// Reads IE or IF.
    pub fn read(&self, address: Address) -> (r: Byte)
        requires
            is_interrupt_register(address.0),
        ensures
            r == self@.read(address.0),
    {
        if address.0 == IE_ADDRESS {
            self.ie
        } else {
            self.iflag
        }
    }

    /// Writes IE or IF.
    pub fn write(&mut self, address: Address, data: Byte)
        requires
            is_interrupt_register(address.0),
        ensures
            final(self)@ == old(self)@.written(address.0, data),
    {
        if address.0 == IE_ADDRESS {
            self.ie = data;
        } else {
            self.iflag = data;
        }
    }
}

impl Default for InterruptRegisters {
    fn default() -> (r: Self)
        ensures
            r@ == (InterruptRegistersView { ie: 0, iflag: 0 }),
    {
        Self::new()
    }
}

} // verus!

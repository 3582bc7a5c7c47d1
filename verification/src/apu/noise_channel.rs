//! The noise channel: a linear-feedback shift register gated by a volume envelope.
use vstd::prelude::*;
use crate::types::{Address, Byte};
use crate::apu::envelope::{Envelope, EnvelopeDirection};

verus! {

pub const NR41: u16 = 0xFF20;
pub const NR42: u16 = 0xFF21;
pub const NR43: u16 = 0xFF22;
pub const NR44: u16 = 0xFF23;

/// The fields of NR42.
#[derive(Debug, Clone, Copy, PartialEq, Eq, Structural)]
pub enum NoiseNR42Masks {
    Volume,
    EnvDir,
    SweepPace,
}

impl NoiseNR42Masks {
    pub fn mask(self) -> (r: u8)
        ensures
            r == match self {
                NoiseNR42Masks::Volume => 0b1111_0000u8,
                NoiseNR42Masks::EnvDir => 0b0000_1000u8,
                NoiseNR42Masks::SweepPace => 0b0000_0111u8,
            },
    {
        match self {
            NoiseNR42Masks::Volume => 0b1111_0000,
            NoiseNR42Masks::EnvDir => 0b0000_1000,
            NoiseNR42Masks::SweepPace => 0b0000_0111,
        }
    }
}

/// The fields of NR43.
#[derive(Debug, Clone, Copy, PartialEq, Eq, Structural)]
pub enum NoiseNR43Masks {
    Z,
    LfsrWidth,
}

impl NoiseNR43Masks {
    pub fn mask(self) -> (r: u8)
        ensures
            r == match self {
                NoiseNR43Masks::Z => 0b1000_0000u8,
                NoiseNR43Masks::LfsrWidth => 0b0001_0000u8,
            },
    {
        match self {
            NoiseNR43Masks::Z => 0b1000_0000,
            NoiseNR43Masks::LfsrWidth => 0b0001_0000,
        }
    }
}

/// The fields of NR44.
#[derive(Debug, Clone, Copy, PartialEq, Eq, Structural)]
pub enum NoiseNR44Masks {
    Trigger,
    LengthEnable,
    UpperPeriod,
    UnusedBits,
}

impl NoiseNR44Masks {
    pub fn mask(self) -> (r: u8)
        ensures
            r == match self {
                NoiseNR44Masks::Trigger => 0b1000_0000u8,
                NoiseNR44Masks::LengthEnable => 0b0100_0000u8,
                NoiseNR44Masks::UpperPeriod => 0b0000_0111u8,
                NoiseNR44Masks::UnusedBits => 0b0011_1000u8,
            },
    {
        match self {
            NoiseNR44Masks::Trigger => 0b1000_0000,
            NoiseNR44Masks::LengthEnable => 0b0100_0000,
            NoiseNR44Masks::UpperPeriod => 0b0000_0111,
            NoiseNR44Masks::UnusedBits => 0b0011_1000,
        }
    }
}

/// Whether an address is one of the noise channel registers.
pub open spec fn is_noise_register(address: u16) -> bool {
    NR41 <= address <= NR44
}

/// The LFSR after one shift: bit 0 xor bit 1 goes into bit 14, and also into bit 6 in
/// the short (7-bit) mode.
pub open spec fn lfsr_shift(lfsr: u16, short: bool) -> u16 {
    let feedback = (lfsr & 0x01) ^ ((lfsr & 0x02) >> 1u16);
    let long = ((lfsr >> 1u16) & !(1u16 << 14u16)) | (feedback << 14u16);
    if short {
        (long & !(1u16 << 6u16)) | (feedback << 6u16)
    } else {
        long
    }
}

/// The values of the channel's registers and LFSR.
pub struct NoiseChannelView {
    pub nr41: u8,
    pub nr42: u8,
    pub nr43: u8,
    pub nr44: u8,
    pub lfsr: u16,
    pub envelope_volume: u8,
    pub envelope_direction: EnvelopeDirection,
}

impl NoiseChannelView {
    /// The initial volume set in NR42.
    pub open spec fn volume(self) -> u8 {
        self.nr42 >> 4u8
    }

    /// The envelope direction of NR42: bit 3 set means down.
    pub open spec fn direction(self) -> EnvelopeDirection {
        if self.nr42 & 0x08 != 0 {
            EnvelopeDirection::Down
        } else {
            EnvelopeDirection::Up
        }
    }

    /// The channel after a trigger: the LFSR is all ones and the envelope restarts.
    pub open spec fn triggered(self) -> NoiseChannelView {
        NoiseChannelView {
            lfsr: 0xFFFF,
            envelope_volume: self.volume(),
            envelope_direction: self.direction(),
            ..self
        }
    }

    pub open spec fn read(self, address: u16) -> u8 {
        if address == NR41 {
            self.nr41
        } else if address == NR42 {
            self.nr42
        } else if address == NR43 {
            self.nr43
        } else {
            self.nr44
        }
    }

    /// The channel after a register write; writing NR44 with bit 7 set triggers it.
    pub open spec fn written(self, address: u16, data: u8) -> NoiseChannelView {
        if address == NR41 {
            NoiseChannelView { nr41: data, ..self }
        } else if address == NR42 {
            NoiseChannelView { nr42: data, ..self }
        } else if address == NR43 {
            NoiseChannelView { nr43: data, ..self }
        } else if data & 0x80 != 0 {
            NoiseChannelView { nr44: data, ..self }.triggered()
        } else {
            NoiseChannelView { nr44: data, ..self }
        }
    }
}

pub struct NoiseChannel {
    nr41: u8,
    nr42: u8,
    nr43: u8,
    nr44: u8,
    lfsr: u16,
    envelope: Envelope,
}

impl View for NoiseChannel {
    type V = NoiseChannelView;

    closed spec fn view(&self) -> NoiseChannelView {
        NoiseChannelView {
            nr41: self.nr41,
            nr42: self.nr42,
            nr43: self.nr43,
            nr44: self.nr44,
            lfsr: self.lfsr,
            envelope_volume: self.envelope.spec_volume(),
            envelope_direction: self.envelope.spec_direction(),
        }
    }
}

impl NoiseChannel {
    pub fn new() -> (r: NoiseChannel)
        ensures
            r@ == (NoiseChannelView {
                nr41: 0,
                nr42: 0,
                nr43: 0,
                nr44: 0,
                lfsr: 0,
                envelope_volume: 0,
                envelope_direction: EnvelopeDirection::Down,
            }),
    {
        NoiseChannel { nr41: 0, nr42: 0, nr43: 0, nr44: 0, lfsr: 0, envelope: Envelope::new() }
    }

    /// Whether the LFSR runs in its short (7-bit) mode.
    pub fn short_mode(&self) -> (r: bool)
        ensures
            r == (self@.nr43 & 0x10 != 0),
    {
        (self.nr43 & NoiseNR43Masks::LfsrWidth.mask()) != 0
    }

    pub fn short_mode_as_u8(&self) -> (r: u8)
        ensures
            r == self@.nr43 & 0x10,
    {
        self.nr43 & NoiseNR43Masks::LfsrWidth.mask()
    }

    /// Shifts the LFSR once.
    pub fn shift(&mut self)
        ensures
            final(self)@ == (NoiseChannelView {
                lfsr: lfsr_shift(old(self)@.lfsr, old(self)@.nr43 & 0x10 != 0),
                ..old(self)@
            }),
    {
        let lfsr = self.lfsr;
        let bit14: u16 = (lfsr & 0x01) ^ ((lfsr & 0x02) >> 1);
        self.lfsr = ((lfsr >> 1) & !(1u16 << 14)) | (bit14 << 14);
        if self.short_mode() {
            self.lfsr = (self.lfsr & !(1u16 << 6)) | (bit14 << 6);
        }
    }

    /// The channel output: 1 when bit 0 of the LFSR is clear.
    pub fn lfsr_output_bit(&self) -> (r: u8)
        ensures
            r == (if self@.lfsr % 2 == 0 { 1u8 } else { 0u8 }),
    {
        if self.lfsr % 2 == 0 { 1 } else { 0 }
    }

    /// The initial volume set in NR42 (its high nibble).
    pub fn volume(&self) -> (r: u8)
        ensures
            r == self@.volume(),
            r < 16,
    {
        let nr42 = self.nr42;
        let v = nr42 >> 4;
        assert(v < 16) by (bit_vector)
            requires
                v == nr42 >> 4u8,
        ;
        v
    }

    pub fn envelope_direction(&self) -> (r: EnvelopeDirection)
        ensures
            r == self@.direction(),
    {
        if (self.nr42 & NoiseNR42Masks::EnvDir.mask()) != 0 {
            return EnvelopeDirection::Down;
        }
        EnvelopeDirection::Up
    }

    /// Restarts the channel: LFSR all ones, envelope from the NR42 volume and direction.
    pub fn trigger(&mut self)
        ensures
            final(self)@ == old(self)@.triggered(),
    {
        self.lfsr = 0xFFFF;
        let volume = self.volume();
        let direction = self.envelope_direction();
        self.envelope.trigger(volume, direction);
    }

    pub fn set_nr41(&mut self, val: Byte)
        ensures
            final(self)@ == (NoiseChannelView { nr41: val, ..old(self)@ }),
    {
        self.nr41 = val;
    }

    pub fn set_nr42(&mut self, val: Byte)
        ensures
            final(self)@ == (NoiseChannelView { nr42: val, ..old(self)@ }),
    {
        self.nr42 = val;
    }

    pub fn set_nr43(&mut self, val: Byte)
        ensures
            final(self)@ == (NoiseChannelView { nr43: val, ..old(self)@ }),
    {
        self.nr43 = val;
    }

    /// Writes NR44; bit 7 triggers the channel.
    pub fn set_nr44(&mut self, val: Byte)
        ensures
            final(self)@ == old(self)@.written(NR44, val),
    {
        self.nr44 = val;
        if (self.nr44 & NoiseNR44Masks::Trigger.mask()) != 0 {
            self.trigger();
        }
    }

    pub fn read(&self, address: Address) -> (r: Byte)
        requires
            is_noise_register(address.0),
        ensures
            r == self@.read(address.0),
    {
        if address.0 == NR41 {
            self.nr41
        } else if address.0 == NR42 {
            self.nr42
        } else if address.0 == NR43 {
            self.nr43
        } else {
            self.nr44
        }
    }

    pub fn write(&mut self, address: Address, data: Byte)
        requires
            is_noise_register(address.0),
        ensures
            final(self)@ == old(self)@.written(address.0, data),
    {
        if address.0 == NR41 {
            self.set_nr41(data);
        } else if address.0 == NR42 {
            self.set_nr42(data);
        } else if address.0 == NR43 {
            self.set_nr43(data);
        } else {
            self.set_nr44(data);
        }
    }

    /// The output level: the NR42 volume while the LFSR output bit is 1, else 0.
    pub fn output_volume(&self) -> (r: u8)
        ensures
            r == (if self@.lfsr % 2 == 0 { self@.volume() } else { 0u8 }),
    {
        self.volume() * self.lfsr_output_bit()
    }
}

} // verus!

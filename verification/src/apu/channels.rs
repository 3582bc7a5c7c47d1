//! The pulse, wave and sweep parts of the sound channels.
use vstd::prelude::*;

verus! {

#[derive(Debug, Clone, Copy, PartialEq, Eq, Structural)]
pub enum SweepDirection {
    Down,
    Up,
}

/// The frequency sweep of pulse channel 1.
pub struct Sweep {
    pub period: u8,
    pub negate: bool,
    pub shift: u8,
    pub timer: u8,
    pub shadow_freq: u16,
}

impl Sweep {
    pub fn new() -> (r: Self)
        ensures
            r.period == 0 && !r.negate && r.shift == 0 && r.timer == 0 && r.shadow_freq == 0,
    {
        Self { period: 0, negate: false, shift: 0, timer: 0, shadow_freq: 0 }
    }
}

pub const APU_NR10_CHANNEL_SWEEP_ADDRESS: u16 = 0xFF10;
pub const APU_NR14_CHANNEL_CONTROL_ADDRESS: u16 = 0xFF14;
pub const APU_NR21_CHANNEL_TIMER_ADDRESS: u16 = 0xFF16;
pub const APU_NR24_CHANNEL_CONTROL_ADDRESS: u16 = 0xFF19;

/// A pulse channel; it holds no state yet.
pub struct PulseChannel {}

impl PulseChannel {
    pub fn new(sweep: bool) -> (r: Self) {
        Self {}
    }
}

pub const APU_WAVE_PATTERN_START_ADDRESS: u16 = 0xFF30;
pub const APU_WAVE_PATTERN_END_ADDRESS: u16 = 0xFF3F;

/// The wave channel registers NR30 ..= NR34 and its 16-byte pattern RAM.
pub struct WaveChannel {
    nr30: u8,
    nr31: u8,
    nr32: u8,
    nr33: u8,
    nr34: u8,
    ram: [u8; 16],
}

/// The five wave channel registers.
pub struct WaveRegisters {
    pub nr30: u8,
    pub nr31: u8,
    pub nr32: u8,
    pub nr33: u8,
    pub nr34: u8,
}

impl View for WaveChannel {
    type V = WaveRegisters;

    closed spec fn view(&self) -> WaveRegisters {
        WaveRegisters { nr30: self.nr30, nr31: self.nr31, nr32: self.nr32, nr33: self.nr33, nr34: self.nr34 }
    }
}

impl WaveChannel {
    /// The 16 bytes of the wave pattern RAM.
    pub closed spec fn spec_ram(&self) -> Seq<u8> {
        self.ram@
    }

    /// A silent channel: every register 0 and the pattern RAM cleared.
    pub fn new() -> (r: WaveChannel)
        ensures
            r@ == (WaveRegisters { nr30: 0, nr31: 0, nr32: 0, nr33: 0, nr34: 0 }),
            r.spec_ram() == Seq::new(16, |i: int| 0u8),
    {
        let r = WaveChannel { nr30: 0, nr31: 0, nr32: 0, nr33: 0, nr34: 0, ram: [0; 16] };
        assert(r.ram@ =~= Seq::new(16, |i: int| 0u8));
        r
    }

    pub fn nr30(&self) -> (r: u8)
        ensures
            r == self@.nr30,
    {
        self.nr30
    }

    pub fn nr31(&self) -> (r: u8)
        ensures
            r == self@.nr31,
    {
        self.nr31
    }

    pub fn nr32(&self) -> (r: u8)
        ensures
            r == self@.nr32,
    {
        self.nr32
    }

    pub fn nr33(&self) -> (r: u8)
        ensures
            r == self@.nr33,
    {
        self.nr33
    }

    pub fn nr34(&self) -> (r: u8)
        ensures
            r == self@.nr34,
    {
        self.nr34
    }

    /// Writes NR30; the other registers and the pattern RAM are kept.
    pub fn set_nr30(&mut self, value: u8)
        ensures
            final(self)@ == (WaveRegisters { nr30: value, ..old(self)@ }),
            final(self).spec_ram() == old(self).spec_ram(),
    {
        self.nr30 = value;
    }

    /// Writes NR31; the other registers and the pattern RAM are kept.
    pub fn set_nr31(&mut self, value: u8)
        ensures
            final(self)@ == (WaveRegisters { nr31: value, ..old(self)@ }),
            final(self).spec_ram() == old(self).spec_ram(),
    {
        self.nr31 = value;
    }

    /// Writes NR32; the other registers and the pattern RAM are kept.
    pub fn set_nr32(&mut self, value: u8)
        ensures
            final(self)@ == (WaveRegisters { nr32: value, ..old(self)@ }),
            final(self).spec_ram() == old(self).spec_ram(),
    {
        self.nr32 = value;
    }

    /// Writes NR33; the other registers and the pattern RAM are kept.
    pub fn set_nr33(&mut self, value: u8)
        ensures
            final(self)@ == (WaveRegisters { nr33: value, ..old(self)@ }),
            final(self).spec_ram() == old(self).spec_ram(),
    {
        self.nr33 = value;
    }

    /// Writes NR34; the other registers and the pattern RAM are kept.
    pub fn set_nr34(&mut self, value: u8)
        ensures
            final(self)@ == (WaveRegisters { nr34: value, ..old(self)@ }),
            final(self).spec_ram() == old(self).spec_ram(),
    {
        self.nr34 = value;
    }
}

} // verus!

//! The audio processing unit.
pub mod envelope;
pub mod noise_channel;
pub mod channels;

use vstd::prelude::*;
use crate::types::{Address, Byte};
use crate::apu::noise_channel::{NoiseChannel, NoiseChannelView, is_noise_register};
use crate::apu::channels::{PulseChannel, WaveChannel};

verus! {

pub const APU_NR50_MASTER_VOLUME_ADDRESS: u16 = 0xFF24;
pub const APU_NR51_SOUND_PANNING_ADDRESS: u16 = 0xFF25;
pub const APU_NR52_MASTER_CONTROL_ADDRESS: u16 = 0xFF26;

pub const NR10_ADDRESS: u16 = 0xFF10;
pub const WAVE_RAM_START_ADDRESS: u16 = 0xFF30;
pub const WAVE_RAM_END_ADDRESS: u16 = 0xFF39;

/// The addresses a write to the APU handles: NR10, the noise channel, the master volume,
/// panning and control registers, and the wave pattern RAM.
pub open spec fn apu_writable(address: u16) -> bool {
    ||| address == NR10_ADDRESS
    ||| is_noise_register(address)
    ||| APU_NR50_MASTER_VOLUME_ADDRESS <= address <= APU_NR52_MASTER_CONTROL_ADDRESS
    ||| WAVE_RAM_START_ADDRESS <= address <= WAVE_RAM_END_ADDRESS
}

/// Whether an address is among the sound registers or the wave pattern RAM.
pub open spec fn is_apu_address(address: u16) -> bool {
    0xFF10 <= address <= 0xFF3F
}

/// The APU: the noise channel and the divider that paces it.
pub struct APU {
    noise: NoiseChannel,
    div: u16,
}

impl APU {
    pub closed spec fn spec_div(&self) -> u16 {
        self.div
    }

    /// The state of the noise channel.
    pub closed spec fn spec_noise(&self) -> NoiseChannelView {
        self.noise@
    }

    /// A write to the sound registers: the noise channel takes its registers; NR10, the
    /// master registers and wave RAM are not emulated and the write is dropped.
    pub fn write(&mut self, address: Address, data: Byte)
        requires
            apu_writable(address.0),
        ensures
            final(self).spec_div() == old(self).spec_div(),
            final(self).spec_noise() == if is_noise_register(address.0) {
                old(self).spec_noise().written(address.0, data)
            } else {
                old(self).spec_noise()
            },
    {
        let a = address.0;
        if a == NR10_ADDRESS {
        } else if crate::apu::noise_channel::NR41 <= a && a <= crate::apu::noise_channel::NR44 {
            self.noise.write(address, data);
        } else if APU_NR50_MASTER_VOLUME_ADDRESS <= a && a <= APU_NR52_MASTER_CONTROL_ADDRESS {
        } else {
        }
    }

    pub fn new() -> (r: APU)
        ensures
            r.spec_div() == u16::MAX,
    {
        Self { noise: NoiseChannel::new(), div: u16::MAX }
    }

    /// Advances the divider by one, wrapping to 0 after 0xFFFF.
    pub fn tick(&mut self)
        ensures
            final(self).spec_div() == (if old(self).spec_div() == u16::MAX { 0 } else { (old(self).spec_div() + 1) as u16 }),
    {
        self.div = if self.div == u16::MAX { 0 } else { self.div + 1 };
    }
}

/// What the sound registers hold: the wave channel's registers and pattern RAM and the noise
/// channel.
pub struct ApuMmioView {
    pub wave: crate::apu::channels::WaveRegisters,
    pub wave_ram: Seq<u8>,
    pub noise: NoiseChannelView,
}

/// The memory-mapped sound registers. Reads give 0xFF and writes are dropped.
pub struct ApuMmio {
    sqr0: PulseChannel,
    sqr1: PulseChannel,
    wave: WaveChannel,
    noise: NoiseChannel,
}

impl View for ApuMmio {
    type V = ApuMmioView;

    closed spec fn view(&self) -> ApuMmioView {
        ApuMmioView { wave: self.wave@, wave_ram: self.wave.spec_ram(), noise: self.noise@ }
    }
}

impl ApuMmio {
    /// The registers of the wave channel.
    pub closed spec fn spec_wave(&self) -> crate::apu::channels::WaveRegisters {
        self.wave@
    }

    /// The state of the noise channel.
    pub closed spec fn spec_noise(&self) -> NoiseChannelView {
        self.noise@
    }

    /// The wave pattern RAM.
    pub closed spec fn spec_wave_ram(&self) -> Seq<u8> {
        self.wave.spec_ram()
    }

    /// Silent channels: the wave and noise registers, the wave RAM and the LFSR all 0, the
    /// noise envelope at volume 0 going down.
    pub fn new() -> (r: Self)
        ensures
            r.spec_wave() == (crate::apu::channels::WaveRegisters { nr30: 0, nr31: 0, nr32: 0, nr33: 0, nr34: 0 }),
            r.spec_wave_ram() == Seq::new(16, |i: int| 0u8),
            r@.wave == r.spec_wave() && r@.wave_ram == r.spec_wave_ram() && r@.noise == r.spec_noise(),
            r.spec_noise() == (NoiseChannelView {
                nr41: 0,
                nr42: 0,
                nr43: 0,
                nr44: 0,
                lfsr: 0,
                envelope_volume: 0,
                envelope_direction: crate::apu::envelope::EnvelopeDirection::Down,
            }),
    {
        Self {
            sqr0: PulseChannel::new(true),
            sqr1: PulseChannel::new(false),
            wave: WaveChannel::new(),
            noise: NoiseChannel::new(),
        }
    }

    pub fn read(&self, address: Address) -> (r: Byte)
        ensures
            r == 0xFF,
    {
        0xFF
    }

    pub fn write(&mut self, address: Address, data: Byte)
        ensures
            *final(self) == *old(self),
    {
    }
}

/// The APU with its memory-mapped registers.
pub struct ApuCtx {
    pub apu: APU,
    pub mmio: ApuMmio,
}

} // verus!

//! The volume envelope: a volume that steps down to 0 or up to 15.
use vstd::prelude::*;

verus! {

#[derive(Debug, Clone, Copy, PartialEq, Eq, Structural)]
pub enum EnvelopeDirection {
    Down,
    Up,
}

/// Envelope steps per second.
pub const ENVELOPE_FREQUENCY: u16 = 128;

pub struct Envelope {
    volume: u8,
    direction: EnvelopeDirection,
}

/// The volume after one envelope step.
pub open spec fn envelope_step(volume: u8, direction: EnvelopeDirection) -> u8 {
    match direction {
        EnvelopeDirection::Down => if volume == 0 { 0 } else { (volume - 1) as u8 },
        EnvelopeDirection::Up => if volume >= 15 { 15 } else { (volume + 1) as u8 },
    }
}

impl Envelope {
    pub closed spec fn spec_volume(&self) -> u8 {
        self.volume
    }

    pub closed spec fn spec_direction(&self) -> EnvelopeDirection {
        self.direction
    }

    pub fn new() -> (r: Envelope)
        ensures
            r.spec_volume() == 0,
            r.spec_direction() == EnvelopeDirection::Down,
    {
        Envelope { volume: 0, direction: EnvelopeDirection::Down }
    }

    /// Restarts the envelope from a volume in a direction.
    pub fn trigger(&mut self, volume: u8, direction: EnvelopeDirection)
        ensures
            final(self).spec_volume() == volume,
            final(self).spec_direction() == direction,
    {
        self.volume = volume;
        self.direction = direction;
    }

    /// One envelope step: the volume moves by one in its direction, staying within 0 and 15
    /// (a louder volume stepping up is brought down to 15).
    pub fn tick(&mut self)
        ensures
            final(self).spec_volume() == envelope_step(old(self).spec_volume(), old(self).spec_direction()),
            final(self).spec_direction() == old(self).spec_direction(),
    {
        match self.direction {
            EnvelopeDirection::Down => self.volume = self.volume.saturating_sub(1),
            EnvelopeDirection::Up => {
                let up = self.volume.saturating_add(1);
                self.volume = if up < 15 { up } else { 15 };
            },
        }
    }

    pub fn volume(&self) -> (r: u8)
        ensures
            r == self.spec_volume(),
    {
        self.volume
    }
}

/// Law: a volume of at most 15 stays at most 15, whatever the direction.
pub proof fn lemma_envelope_stays_in_range(volume: u8, direction: EnvelopeDirection)
    requires
        volume <= 15,
    ensures
        envelope_step(volume, direction) <= 15,
{
}

} // verus!

//! The envelope generator shared by the pulse and noise channels: a divider
//! feeding a decay level that can loop when the halt flag doubles as loop.

use vstd::prelude::*;

verus! {

#[derive(Clone, Copy, Debug, PartialEq, Eq, Structural)]
pub struct Envelope {
    /// Set by a length-load write; consumed by the next quarter-frame clock.
    pub start: bool,
    pub decay_level: u8,
    pub divider: u8,

    pub constant_volume: bool,
    pub constant_volume_value: u8,
}

impl Envelope {
    /// The envelope as it leaves reset.
    pub open spec fn initial_spec() -> Envelope {
        Envelope {
            start: false,
            decay_level: 0,
            divider: 0,
            constant_volume: false,
            constant_volume_value: 0,
        }
    }

    /// The envelope after one quarter-frame clock: a pending start reloads
    /// decay 15 and the divider; otherwise the divider counts down and, on
    /// underflow, the decay level steps down or wraps to 15 when halted.
    pub open spec fn clock_spec(&self, length_counter_halt: bool, constant_volume: bool, volume: u8) -> Envelope {
        if self.start {
            Envelope {
                start: false,
                decay_level: 15,
                divider: volume,
                constant_volume,
                constant_volume_value: volume,
            }
        } else if self.divider > 0 {
            Envelope {
                divider: (self.divider - 1) as u8,
                constant_volume,
                constant_volume_value: volume,
                ..*self
            }
        } else {
            Envelope {
                divider: volume,
                decay_level: if self.decay_level > 0 {
                    (self.decay_level - 1) as u8
                } else if length_counter_halt {
                    15u8
                } else {
                    0u8
                },
                constant_volume,
                constant_volume_value: volume,
                ..*self
            }
        }
    }

    /// The current output volume: the constant field when selected, else the
    /// decay level.
    pub open spec fn volume_spec(&self) -> u8 {
        if self.constant_volume {
            self.constant_volume_value
        } else {
            self.decay_level
        }
    }

    pub fn new() -> (r: Envelope)
        ensures
            r.start == false,
            r.decay_level == 0,
            r.divider == 0,
            r.constant_volume == false,
            r.constant_volume_value == 0,
    {
        Envelope {
            start: false,
            decay_level: 0,
            divider: 0,
            constant_volume: false,
            constant_volume_value: 0,
        }
    }

    pub fn clock(&mut self, length_counter_halt: bool, constant_volume: bool, volume: u8)
        ensures
            *final(self) == old(self).clock_spec(length_counter_halt, constant_volume, volume),
    {
        self.constant_volume = constant_volume;
        self.constant_volume_value = volume;

        if self.start {
            self.start = false;
            self.decay_level = 15;
            self.divider = volume;
        } else if self.divider > 0 {
            self.divider = self.divider - 1;
        } else {
            self.divider = volume;

            if self.decay_level > 0 {
                self.decay_level = self.decay_level - 1;
            } else if length_counter_halt {
                self.decay_level = 15;
            }
        }
    }

    pub fn get_volume(&self) -> (r: u8)
        ensures
            r == self.volume_spec(),
    {
        if self.constant_volume {
            self.constant_volume_value
        } else {
            self.decay_level
        }
    }
}

} // verus!

//! The noise channel: a 15-bit linear-feedback shift register clocked by a
//! period table, gated by the length counter and the envelope.

use vstd::prelude::*;

verus! {

use super::envelope::Envelope;
use super::{length_table_spec, length_table_value};

/// The 16-entry noise period table indexed by the low nibble of $400E.
pub open spec fn noise_period_spec(index: u8) -> u16 {
    if index == 0 {
        4u16
    } else if index == 1 {
        8u16
    } else if index == 2 {
        16u16
    } else if index == 3 {
        32u16
    } else if index == 4 {
        64u16
    } else if index == 5 {
        96u16
    } else if index == 6 {
        128u16
    } else if index == 7 {
        160u16
    } else if index == 8 {
        202u16
    } else if index == 9 {
        254u16
    } else if index == 10 {
        380u16
    } else if index == 11 {
        508u16
    } else if index == 12 {
        762u16
    } else if index == 13 {
        1016u16
    } else if index == 14 {
        2034u16
    } else {
        4068u16
    }
}

/// One entry of the noise period table.
pub fn noise_period_value(index: u8) -> (r: u16)
    requires
        index < 16,
    ensures
        r == noise_period_spec(index),
{
    if index == 0 {
        4
    } else if index == 1 {
        8
    } else if index == 2 {
        16
    } else if index == 3 {
        32
    } else if index == 4 {
        64
    } else if index == 5 {
        96
    } else if index == 6 {
        128
    } else if index == 7 {
        160
    } else if index == 8 {
        202
    } else if index == 9 {
        254
    } else if index == 10 {
        380
    } else if index == 11 {
        508
    } else if index == 12 {
        762
    } else if index == 13 {
        1016
    } else if index == 14 {
        2034
    } else {
        4068
    }
}

/// The register after one LFSR step: bit 0 XOR the tap (bit 1, or bit 6 in
/// short-period mode) feeds bit 14 after a right shift.
pub open spec fn lfsr_step_spec(register: u16, short_mode: bool) -> u16 {
    let tap: u16 = if short_mode {
        (register >> 6) & 1
    } else {
        (register >> 1) & 1
    };
    let feedback: u16 = (register & 1) ^ tap;
    ((register >> 1) | (feedback << 14)) as u16
}

pub struct NoiseChannel {
    pub length_counter_halt: bool,
    pub constant_volume: bool,
    pub volume: u8,
    /// False is the normal 32767-step sequence; true the 93-step one.
    pub mode: bool,
    pub period_index: u8,

    pub timer_period: u16,
    pub timer: u16,
    pub length_counter: u8,

    pub enabled: bool,
    pub shift_register: u16,
    pub envelope: Envelope,
}

impl NoiseChannel {
    /// The channel after an enable-bit change.
    pub open spec fn set_enabled_spec(&self, enabled: bool) -> NoiseChannel {
        NoiseChannel {
            enabled,
            length_counter: if enabled {
                self.length_counter
            } else {
                0u8
            },
            ..*self
        }
    }

    /// The channel after a $400C write.
    pub open spec fn write_control_spec(&self, value: u8) -> NoiseChannel {
        NoiseChannel {
            length_counter_halt: value & 0x20 != 0,
            constant_volume: value & 0x10 != 0,
            volume: (value & 0x0F) as u8,
            ..*self
        }
    }

    /// The channel after a $400E write.
    pub open spec fn write_period_spec(&self, value: u8) -> NoiseChannel {
        NoiseChannel {
            mode: value & 0x80 != 0,
            period_index: (value & 0x0F) as u8,
            timer_period: noise_period_spec((value & 0x0F) as u8),
            ..*self
        }
    }

    /// The channel after a $400F write.
    pub open spec fn write_length_load_spec(&self, value: u8) -> NoiseChannel {
        NoiseChannel {
            length_counter: if self.enabled {
                length_table_spec(((value >> 3) & 0x1F) as u8)
            } else {
                self.length_counter
            },
            envelope: Envelope { start: true, ..self.envelope },
            ..*self
        }
    }

    /// The channel after one CPU/2 timer step.
    pub open spec fn clock_timer_spec(&self) -> NoiseChannel {
        if self.timer == 0 {
            NoiseChannel {
                timer: self.timer_period,
                shift_register: lfsr_step_spec(self.shift_register, self.mode),
                ..*self
            }
        } else {
            NoiseChannel { timer: (self.timer - 1) as u16, ..*self }
        }
    }

    /// The channel after one quarter-frame envelope clock.
    pub open spec fn clock_envelope_spec(&self) -> NoiseChannel {
        NoiseChannel {
            envelope: self.envelope.clock_spec(
                self.length_counter_halt,
                self.constant_volume,
                self.volume,
            ),
            ..*self
        }
    }

    /// The channel after one half-frame length clock.
    pub open spec fn clock_length_counter_spec(&self) -> NoiseChannel {
        NoiseChannel {
            length_counter: if !self.length_counter_halt && self.length_counter > 0 {
                (self.length_counter - 1) as u8
            } else {
                self.length_counter
            },
            ..*self
        }
    }

    pub fn new() -> (r: NoiseChannel)
        ensures
            !r.length_counter_halt,
            !r.constant_volume,
            r.volume == 0,
            !r.mode,
            r.period_index == 0,
            r.timer_period == 0,
            r.timer == 0,
            r.shift_register == 1,
            !r.enabled,
            r.length_counter == 0,
            r.envelope == Envelope::initial_spec(),
    {
        NoiseChannel {
            length_counter_halt: false,
            constant_volume: false,
            volume: 0,
            mode: false,
            period_index: 0,
            timer_period: 0,
            timer: 0,
            shift_register: 1,
            enabled: false,
            length_counter: 0,
            envelope: Envelope::new(),
        }
    }

    /// Clearing the enable bit zeroes the length counter; while clear it
    /// stays zero.
    pub fn set_enabled(&mut self, enabled: bool)
        ensures
            *final(self) == old(self).set_enabled_spec(enabled),
    {
        self.enabled = enabled;

        if !self.enabled {
            self.length_counter = 0;
        }
    }

    /// A $400C write: halt and volume fields.
    pub fn write_control(&mut self, value: u8)
        ensures
            *final(self) == old(self).write_control_spec(value),
    {
        self.length_counter_halt = value & 0x20 != 0;
        self.constant_volume = value & 0x10 != 0;
        self.volume = value & 0x0F;
    }

    /// A $400E write: the mode bit and the period picked from the table.
    pub fn write_period(&mut self, value: u8)
        ensures
            *final(self) == old(self).write_period_spec(value),
    {
        self.mode = value & 0x80 != 0;
        self.period_index = value & 0x0F;
        proof {
            let v = value;
            assert((v & 0x0F) < 16) by (bit_vector);
        }
        self.timer_period = noise_period_value(self.period_index);
    }

    /// A $400F write: the length counter loads while enabled, and the
    /// envelope is told to start.
    pub fn write_length_load(&mut self, value: u8)
        ensures
            *final(self) == old(self).write_length_load_spec(value),
    {
        let length_index: u8 = (value >> 3) & 0x1F;
        if self.enabled {
            self.length_counter = length_table_value(length_index);
        }

        self.envelope.start = true;
    }

    /// One CPU/2 timer step: underflow reloads the period and steps the
    /// LFSR.
    pub fn clock_timer(&mut self)
        ensures
            *final(self) == old(self).clock_timer_spec(),
    {
        if self.timer == 0 {
            self.timer = self.timer_period;

            let tap: u16 = if self.mode {
                (self.shift_register >> 6) & 1
            } else {
                (self.shift_register >> 1) & 1
            };
            let feedback: u16 = (self.shift_register & 1) ^ tap;

            self.shift_register = (self.shift_register >> 1) | (feedback << 14);
        } else {
            self.timer = self.timer - 1;
        }
    }

    /// One quarter-frame envelope clock.
    pub fn clock_envelope(&mut self)
        ensures
            *final(self) == old(self).clock_envelope_spec(),
    {
        self.envelope.clock(self.length_counter_halt, self.constant_volume, self.volume);
    }

    /// One half-frame length clock.
    pub fn clock_length_counter(&mut self)
        ensures
            *final(self) == old(self).clock_length_counter_spec(),
    {
        if !self.length_counter_halt && self.length_counter > 0 {
            self.length_counter = self.length_counter - 1;
        }
    }

    /// The channel's digital level: 0 when disabled, spent, or when LFSR bit
    /// 0 is set; else the envelope volume.
    pub open spec fn output_spec(&self) -> u8 {
        if !self.enabled || self.length_counter == 0 {
            0u8
        } else if self.shift_register & 1 == 1 {
            0u8
        } else {
            self.envelope.volume_spec()
        }
    }

    pub fn output(&self) -> (r: u8)
        ensures
            r == self.output_spec(),
    {
        if !self.enabled || self.length_counter == 0 {
            return 0;
        }

        if self.shift_register & 1 == 1 {
            return 0;
        }

        self.envelope.get_volume()
    }
}

} // verus!

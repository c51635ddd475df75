//! The triangle channel: a 32-step ramp gated by both the length and the
//! linear counter.

use vstd::prelude::*;

verus! {

use super::{length_table_spec, length_table_value};

/// The 32-step triangle sequence: 15 down to 0, then 0 up to 15.
pub open spec fn triangle_step_spec(position: u8) -> u8 {
    if position < 16 {
        (15 - position) as u8
    } else {
        (position - 16) as u8
    }
}

pub struct TriangleChannel {
    pub counter_halt: bool,
    pub linear_reload: u8,
    pub linear_counter: u8,
    pub linear_reload_flag: bool,
    pub timer_period: u16,
    pub timer: u16,
    pub length_counter: u8,

    pub enabled: bool,
    pub sequence_position: u8,
}

impl TriangleChannel {
    /// The channel after an enable-bit change.
    pub open spec fn set_enabled_spec(&self, enabled: bool) -> TriangleChannel {
        TriangleChannel {
            enabled,
            length_counter: if enabled {
                self.length_counter
            } else {
                0u8
            },
            ..*self
        }
    }

    /// The channel after a $4008 write.
    pub open spec fn write_control_spec(&self, value: u8) -> TriangleChannel {
        TriangleChannel {
            counter_halt: value & 0x80 != 0,
            linear_reload: (value & 0x7F) as u8,
            ..*self
        }
    }

    /// The channel after a $400A write.
    pub open spec fn write_timer_low_spec(&self, value: u8) -> TriangleChannel {
        TriangleChannel {
            timer_period: ((self.timer_period & 0x0700) | value as u16) as u16,
            ..*self
        }
    }

    /// The channel after a $400B write.
    pub open spec fn write_timer_high_spec(&self, value: u8) -> TriangleChannel {
        TriangleChannel {
            length_counter: if self.enabled {
                length_table_spec(((value >> 3) & 0x1F) as u8)
            } else {
                self.length_counter
            },
            timer_period: ((self.timer_period & 0x00FF) | (((value & 0x07) as u16) << 8)) as u16,
            linear_reload_flag: true,
            ..*self
        }
    }

    /// The channel after one CPU-rate timer step.
    pub open spec fn clock_timer_spec(&self) -> TriangleChannel {
        if self.timer == 0 {
            TriangleChannel {
                timer: self.timer_period,
                sequence_position: if self.length_counter > 0 && self.linear_counter > 0 {
                    (self.sequence_position.wrapping_add(1) & 0x1F) as u8
                } else {
                    self.sequence_position
                },
                ..*self
            }
        } else {
            TriangleChannel { timer: (self.timer - 1) as u16, ..*self }
        }
    }

    /// The channel after one quarter-frame linear-counter clock.
    pub open spec fn clock_linear_counter_spec(&self) -> TriangleChannel {
        TriangleChannel {
            linear_counter: if self.linear_reload_flag {
                self.linear_reload
            } else if self.linear_counter > 0 {
                (self.linear_counter - 1) as u8
            } else {
                0u8
            },
            linear_reload_flag: if !self.counter_halt {
                false
            } else {
                self.linear_reload_flag
            },
            ..*self
        }
    }

    /// The channel after one half-frame length clock.
    pub open spec fn clock_length_counter_spec(&self) -> TriangleChannel {
        TriangleChannel {
            length_counter: if !self.counter_halt && self.length_counter > 0 {
                (self.length_counter - 1) as u8
            } else {
                self.length_counter
            },
            ..*self
        }
    }

    pub fn new() -> (r: TriangleChannel)
        ensures
            !r.counter_halt,
            r.linear_reload == 0,
            r.linear_counter == 0,
            !r.linear_reload_flag,
            r.timer_period == 0,
            r.timer == 0,
            r.length_counter == 0,
            !r.enabled,
            r.sequence_position == 0,
    {
        TriangleChannel {
            counter_halt: false,
            linear_reload: 0,
            linear_counter: 0,
            linear_reload_flag: false,
            timer_period: 0,
            timer: 0,
            length_counter: 0,
            enabled: false,
            sequence_position: 0,
        }
    }

    /// Clearing the enable bit zeroes the length counter; while clear it
    /// stays zero.
    pub fn set_enabled(&mut self, enabled: bool)
        ensures
            *final(self) == old(self).set_enabled_spec(enabled),
    {
        self.enabled = enabled;

        if !self.enabled {
            self.length_counter = 0;
        }
    }

    /// A $4008 write: the halt/control bit and the 7-bit linear reload.
    pub fn write_control(&mut self, value: u8)
        ensures
            *final(self) == old(self).write_control_spec(value),
    {
        self.counter_halt = value & 0x80 != 0;
        self.linear_reload = value & 0x7F;
    }

    /// A $400A write: the low eight timer bits.
    pub fn write_timer_low(&mut self, value: u8)
        ensures
            *final(self) == old(self).write_timer_low_spec(value),
    {
        self.timer_period = (self.timer_period & 0x0700) | value as u16;
    }

    /// A $400B write: the high three timer bits; the length counter loads
    /// while enabled; the linear counter is marked for reload.
    pub fn write_timer_high(&mut self, value: u8)
        ensures
            *final(self) == old(self).write_timer_high_spec(value),
    {
        let length_index: u8 = (value >> 3) & 0x1F;
        if self.enabled {
            self.length_counter = length_table_value(length_index);
        }

        self.timer_period = (self.timer_period & 0x00FF) | (((value & 0x07) as u16) << 8);

        self.linear_reload_flag = true;
    }

    /// One CPU-rate timer step: the sequence advances on underflow only when
    /// both the length and linear counters are live.
    pub fn clock_timer(&mut self)
        ensures
            *final(self) == old(self).clock_timer_spec(),
    {
        if self.timer == 0 {
            self.timer = self.timer_period;

            if self.length_counter > 0 && self.linear_counter > 0 {
                self.sequence_position = self.sequence_position.wrapping_add(1) & 0x1F;
            }
        } else {
            self.timer = self.timer - 1;
        }
    }

    /// One quarter-frame linear-counter clock: reload or count down, and the
    /// reload flag clears unless the control bit holds it.
    pub fn clock_linear_counter(&mut self)
        ensures
            *final(self) == old(self).clock_linear_counter_spec(),
    {
        if self.linear_reload_flag {
            self.linear_counter = self.linear_reload;
        } else if self.linear_counter > 0 {
            self.linear_counter = self.linear_counter - 1;
        }

        if !self.counter_halt {
            self.linear_reload_flag = false;
        }
    }

    /// One half-frame length clock.
    pub fn clock_length_counter(&mut self)
        ensures
            *final(self) == old(self).clock_length_counter_spec(),
    {
        if !self.counter_halt && self.length_counter > 0 {
            self.length_counter = self.length_counter - 1;
        }
    }

    /// The current ramp step, or 0 when the timer period is under 2 (the
    /// ultrasonic range the mixer silences).
    pub open spec fn raw_output_spec(&self) -> u8 {
        if self.timer_period < 2 {
            0u8
        } else {
            triangle_step_spec((self.sequence_position & 0x1F) as u8)
        }
    }

    pub fn raw_output(&self) -> (r: u8)
        ensures
            r == self.raw_output_spec(),
    {
        if self.timer_period < 2 {
            return 0;
        }

        let position: u8 = self.sequence_position & 0x1F;
        proof {
            let p = position;
            let q = self.sequence_position;
            assert(p == (q & 0x1F) && p < 32) by (bit_vector)
                requires
                    p == (q & 0x1F),
            ;
        }
        if position < 16 {
            15 - position
        } else {
            position - 16
        }
    }
}

} // verus!

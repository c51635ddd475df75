//! A pulse channel: duty sequencer, 11-bit timer, envelope, sweep unit, and
//! length counter.

use vstd::prelude::*;

verus! {

use super::envelope::Envelope;
use super::{length_table_spec, length_table_value};

/// The bit of the 8-step duty sequence a channel emits at one position.
pub open spec fn duty_bit_spec(duty_cycle: u8, position: u8) -> u8 {
    if duty_cycle == 0 {
        if position == 1 {
            1u8
        } else {
            0u8
        }
    } else if duty_cycle == 1 {
        if position == 1 || position == 2 {
            1u8
        } else {
            0u8
        }
    } else if duty_cycle == 2 {
        if 1 <= position <= 4 {
            1u8
        } else {
            0u8
        }
    } else {
        if position == 0 || position >= 3 {
            1u8
        } else {
            0u8
        }
    }
}

/// The sweep divider with its reload flag, mute comparator, and the pending
/// period update it hands back to the channel.
#[derive(Clone, Copy, Debug, PartialEq, Eq, Structural)]
pub struct SweepUnit {
    pub divider: u8,
    pub reload: bool,
    pub muting: bool,
    pub period_update: Option<u16>,
}

impl SweepUnit {
    /// The unit as it leaves reset.
    pub open spec fn initial_spec() -> SweepUnit {
        SweepUnit { divider: 0, reload: false, muting: false, period_update: Option::None }
    }

    /// One half-frame sweep clock: recompute the mute condition, emit the
    /// target period when the divider fires un-muted, and run the divider.
    pub open spec fn clock_spec(&self, enabled: bool, period: u8, timer_period: u16, target_period: u16) -> SweepUnit {
        let muting = timer_period < 8 || target_period > 0x7FF;
        let period_update = if self.divider == 0 && enabled && !muting {
            Option::Some(target_period)
        } else {
            Option::<u16>::None
        };
        let (divider, reload) = if self.divider == 0 || self.reload {
            (period, false)
        } else {
            ((self.divider - 1) as u8, self.reload)
        };
        SweepUnit { divider, reload, muting, period_update }
    }

    pub fn new() -> (r: SweepUnit)
        ensures
            r.divider == 0,
            !r.reload,
            !r.muting,
            r.period_update is None,
    {
        SweepUnit { divider: 0, reload: false, muting: false, period_update: Option::None }
    }

    pub fn clock(&mut self, enabled: bool, period: u8, timer_period: u16, target_period: u16)
        ensures
            *final(self) == old(self).clock_spec(enabled, period, timer_period, target_period),
    {
        self.period_update = Option::None;

        self.muting = timer_period < 8 || target_period > 0x7FF;

        if self.divider == 0 && enabled && !self.muting {
            self.period_update = Option::Some(target_period);
        }

        if self.divider == 0 || self.reload {
            self.divider = period;
            self.reload = false;
        } else {
            self.divider = self.divider - 1;
        }
    }

    /// Hands out and clears the pending period update.
    pub fn get_period_update(&mut self) -> (r: Option<u16>)
        ensures
            r == old(self).period_update,
            *final(self) == (SweepUnit { period_update: Option::<u16>::None, ..*old(self) }),
    {
        let r = self.period_update;
        self.period_update = Option::None;
        r
    }

    pub fn is_muting(&self) -> (r: bool)
        ensures
            r == self.muting,
    {
        self.muting
    }

    /// Marks the divider for reload at its next clock.
    pub fn set_reload(&mut self)
        ensures
            *final(self) == (SweepUnit { reload: true, ..*old(self) }),
    {
        self.reload = true;
    }
}

pub struct PulseChannel {
    pub duty_cycle: u8,
    pub length_counter_halt: bool,
    pub constant_volume: bool,
    pub volume: u8,

    pub sweep_enabled: bool,
    pub sweep_period: u8,
    pub sweep_negate: bool,
    pub sweep_shift: u8,

    pub timer_period: u16,
    pub timer: u16,
    pub length_counter: u8,

    pub enabled: bool,
    pub duty_position: u8,
    pub envelope: Envelope,
    pub sweep_unit: SweepUnit,
}

impl PulseChannel {
    /// The channel after an enable-bit change.
    pub open spec fn set_enabled_spec(&self, enabled: bool) -> PulseChannel {
        PulseChannel {
            enabled,
            length_counter: if enabled {
                self.length_counter
            } else {
                0u8
            },
            ..*self
        }
    }

    /// The channel after a $4000/$4004 write.
    pub open spec fn write_control_spec(&self, value: u8) -> PulseChannel {
        PulseChannel {
            duty_cycle: ((value >> 6) & 0x03) as u8,
            length_counter_halt: value & 0x20 != 0,
            constant_volume: value & 0x10 != 0,
            volume: (value & 0x0F) as u8,
            ..*self
        }
    }

    /// The channel after a $4001/$4005 write.
    pub open spec fn write_sweep_spec(&self, value: u8) -> PulseChannel {
        PulseChannel {
            sweep_enabled: value & 0x80 != 0,
            sweep_period: ((value >> 4) & 0x07) as u8,
            sweep_negate: value & 0x08 != 0,
            sweep_shift: (value & 0x07) as u8,
            sweep_unit: SweepUnit { reload: true, ..self.sweep_unit },
            ..*self
        }
    }

    /// The channel after a $4002/$4006 write.
    pub open spec fn write_timer_low_spec(&self, value: u8) -> PulseChannel {
        PulseChannel {
            timer_period: ((self.timer_period & 0x0700) | value as u16) as u16,
            ..*self
        }
    }

    /// The channel after a $4003/$4007 write.
    pub open spec fn write_timer_high_spec(&self, value: u8) -> PulseChannel {
        PulseChannel {
            length_counter: if self.enabled {
                length_table_spec(((value >> 3) & 0x1F) as u8)
            } else {
                self.length_counter
            },
            timer_period: ((self.timer_period & 0x00FF) | (((value & 0x07) as u16) << 8)) as u16,
            duty_position: 0,
            envelope: Envelope { start: true, ..self.envelope },
            ..*self
        }
    }

    /// The channel after one half-frame sweep clock.
    pub open spec fn clock_sweep_spec(&self, channel_number: u8) -> PulseChannel {
        let target = self.sweep_target_spec(channel_number);
        let unit = self.sweep_unit.clock_spec(
            self.sweep_enabled,
            self.sweep_period,
            self.timer_period,
            target,
        );
        PulseChannel {
            sweep_unit: SweepUnit { period_update: Option::<u16>::None, ..unit },
            timer_period: if unit.period_update is Some {
                unit.period_update->0
            } else {
                self.timer_period
            },
            ..*self
        }
    }

    /// The channel after one CPU/2 timer step.
    pub open spec fn clock_timer_spec(&self) -> PulseChannel {
        if self.timer == 0 {
            PulseChannel {
                timer: self.timer_period,
                duty_position: (self.duty_position.wrapping_add(1) & 0x07) as u8,
                ..*self
            }
        } else {
            PulseChannel { timer: (self.timer - 1) as u16, ..*self }
        }
    }

    /// The channel after one half-frame length clock.
    pub open spec fn clock_length_counter_spec(&self) -> PulseChannel {
        PulseChannel {
            length_counter: if !self.length_counter_halt && self.length_counter > 0 {
                (self.length_counter - 1) as u8
            } else {
                self.length_counter
            },
            ..*self
        }
    }

    /// The channel after one quarter-frame envelope clock.
    pub open spec fn clock_envelope_spec(&self) -> PulseChannel {
        PulseChannel {
            envelope: self.envelope.clock_spec(
                self.length_counter_halt,
                self.constant_volume,
                self.volume,
            ),
            ..*self
        }
    }

    /// The period the sweep aims for: shifted period subtracted (channel 1
    /// takes one more off), or added, wrapping as the adder does.
    pub open spec fn sweep_target_spec(&self, channel_number: u8) -> u16 {
        let change = (self.timer_period >> ((self.sweep_shift & 0x07) as u16)) as u16;
        if self.sweep_negate {
            if channel_number == 1 {
                self.timer_period.wrapping_sub(change).wrapping_sub(1)
            } else {
                self.timer_period.wrapping_sub(change)
            }
        } else {
            self.timer_period.wrapping_add(change)
        }
    }

    pub fn new() -> (r: PulseChannel)
        ensures
            r.enabled == false,
            r.length_counter == 0,
            r.timer_period == 0,
            r.timer == 0,
            r.duty_cycle == 0,
            r.duty_position == 0,
            r.volume == 0,
            !r.constant_volume,
            !r.length_counter_halt,
            !r.sweep_enabled,
            r.sweep_period == 0,
            !r.sweep_negate,
            r.sweep_shift == 0,
            r.envelope == Envelope::initial_spec(),
            r.sweep_unit == SweepUnit::initial_spec(),
    {
        PulseChannel {
            duty_cycle: 0,
            length_counter_halt: false,
            constant_volume: false,
            volume: 0,

            sweep_enabled: false,
            sweep_period: 0,
            sweep_negate: false,
            sweep_shift: 0,

            timer: 0,
            timer_period: 0,
            length_counter: 0,

            enabled: false,
            duty_position: 0,
            envelope: Envelope::new(),
            sweep_unit: SweepUnit::new(),
        }
    }

    /// Clearing the enable bit zeroes the length counter; while clear it
    /// stays zero, as the length-load write also checks the bit.
    pub fn set_enabled(&mut self, enabled: bool)
        ensures
            *final(self) == old(self).set_enabled_spec(enabled),
    {
        self.enabled = enabled;

        if !self.enabled {
            self.length_counter = 0;
        }
    }

    pub fn length_counter(&self) -> (r: u8)
        ensures
            r == self.length_counter,
    {
        self.length_counter
    }

    /// A $4000/$4004 write: duty, halt, and volume fields.
    pub fn write_control(&mut self, value: u8)
        ensures
            *final(self) == old(self).write_control_spec(value),
    {
        self.duty_cycle = (value >> 6) & 0x03;
        self.length_counter_halt = value & 0x20 != 0;
        self.constant_volume = value & 0x10 != 0;
        self.volume = value & 0x0F;
    }

    /// A $4001/$4005 write: sweep fields, and the sweep divider reloads.
    pub fn write_sweep(&mut self, value: u8)
        ensures
            *final(self) == old(self).write_sweep_spec(value),
    {
        self.sweep_enabled = value & 0x80 != 0;
        self.sweep_period = (value >> 4) & 0x07;
        self.sweep_negate = value & 0x08 != 0;
        self.sweep_shift = value & 0x07;

        self.sweep_unit.set_reload();
    }

    /// A $4002/$4006 write: the low eight timer bits.
    pub fn write_timer_low(&mut self, value: u8)
        ensures
            *final(self) == old(self).write_timer_low_spec(value),
    {
        self.timer_period = (self.timer_period & 0x0700) | value as u16;
    }

    /// A $4003/$4007 write: the high three timer bits; the length counter
    /// loads from the table while the channel is enabled; the duty sequence
    /// restarts and the envelope is told to start.
    pub fn write_timer_high(&mut self, value: u8)
        ensures
            *final(self) == old(self).write_timer_high_spec(value),
    {
        let length_index: u8 = (value >> 3) & 0x1F;
        if self.enabled {
            self.length_counter = length_table_value(length_index);
        }

        self.timer_period = (self.timer_period & 0x00FF) | (((value & 0x07) as u16) << 8);

        self.duty_position = 0;
        self.envelope.start = true;
    }

    /// One half-frame sweep clock; an emitted target becomes the new period.
    pub fn clock_sweep(&mut self, channel_number: u8)
        ensures
            *final(self) == old(self).clock_sweep_spec(channel_number),
    {
        let shift: u16 = (self.sweep_shift & 0x07) as u16;
        proof {
            let sh = self.sweep_shift;
            assert(((sh & 0x07) as u16) < 16) by (bit_vector);
        }
        let change_amount: u16 = self.timer_period >> shift;

        let target_period: u16 = if self.sweep_negate {
            if channel_number == 1 {
                self.timer_period.wrapping_sub(change_amount).wrapping_sub(1)
            } else {
                self.timer_period.wrapping_sub(change_amount)
            }
        } else {
            self.timer_period.wrapping_add(change_amount)
        };

        self.sweep_unit.clock(self.sweep_enabled, self.sweep_period, self.timer_period, target_period);

        match self.sweep_unit.get_period_update() {
            Option::Some(period_update) => {
                self.timer_period = period_update;
            },
            Option::None => {},
        }
    }

    /// One CPU/2 timer step: underflow reloads the period and advances the
    /// duty position.
    pub fn clock_timer(&mut self)
        ensures
            *final(self) == old(self).clock_timer_spec(),
    {
        if self.timer == 0 {
            self.timer = self.timer_period;
            self.duty_position = self.duty_position.wrapping_add(1) & 0x07;
        } else {
            self.timer = self.timer - 1;
        }
    }

    /// One half-frame length clock: counts down unless halted or already 0.
    pub fn clock_length_counter(&mut self)
        ensures
            *final(self) == old(self).clock_length_counter_spec(),
    {
        if !self.length_counter_halt && self.length_counter > 0 {
            self.length_counter = self.length_counter - 1;
        }
    }

    /// One quarter-frame envelope clock.
    pub fn clock_envelope(&mut self)
        ensures
            *final(self) == old(self).clock_envelope_spec(),
    {
        self.envelope.clock(self.length_counter_halt, self.constant_volume, self.volume);
    }

    /// The channel's digital level, 0 to 15: silent when disabled, the
    /// length counter is spent, the period is under 8, the sweep mutes, or
    /// the duty bit is 0; else the envelope volume.
    pub open spec fn output_spec(&self) -> u8 {
        if !self.enabled || self.length_counter == 0 {
            0u8
        } else if self.timer_period < 8 || self.sweep_unit.muting {
            0u8
        } else if duty_bit_spec(self.duty_cycle, (self.duty_position & 0x07) as u8) == 0 {
            0u8
        } else {
            self.envelope.volume_spec()
        }
    }

    pub fn output(&self) -> (r: u8)
        ensures
            r == self.output_spec(),
    {
        if !self.enabled || self.length_counter == 0 {
            return 0;
        }

        if self.timer_period < 8 || self.sweep_unit.is_muting() {
            return 0;
        }

        let duty = Self::duty_bit(self.duty_cycle, self.duty_position & 0x07);
        if duty == 0 {
            return 0;
        }

        self.envelope.get_volume()
    }

    /// One entry of the four 8-step duty sequences.
    pub fn duty_bit(duty_cycle: u8, position: u8) -> (r: u8)
        ensures
            r == duty_bit_spec(duty_cycle, position),
    {
        if duty_cycle == 0 {
            if position == 1 {
                1
            } else {
                0
            }
        } else if duty_cycle == 1 {
            if position == 1 || position == 2 {
                1
            } else {
                0
            }
        } else if duty_cycle == 2 {
            if 1 <= position && position <= 4 {
                1
            } else {
                0
            }
        } else {
            if position == 0 || position >= 3 {
                1
            } else {
                0
            }
        }
    }
}

} // verus!

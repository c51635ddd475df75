//! The APU frame sequencer: the four- and five-step modes, the delayed
//! $4017 write, and the frame IRQ.

use vstd::prelude::*;

verus! {

#[derive(Clone, Copy, Debug, PartialEq, Eq, Structural)]
pub enum FrameCounterMode {
    FourStep,
    FiveStep,
}

/// What one frame-counter clock asks of the channels: quarter-frame
/// envelope/linear clocks, half-frame length/sweep clocks, and the IRQ level.
#[derive(Clone, Copy, Debug, PartialEq, Eq, Structural)]
pub struct ClockSignals {
    pub clock_envelopes: bool,
    pub clock_length: bool,
    pub irq: bool,
}

impl ClockSignals {
    pub open spec fn quiet() -> ClockSignals {
        ClockSignals { clock_envelopes: false, clock_length: false, irq: false }
    }
}

#[derive(Clone, Copy, Debug, PartialEq, Eq, Structural)]
pub struct FrameCounter {
    pub mode: FrameCounterMode,
    /// CPU cycles since the last sequence restart.
    pub cycle_counter: u32,
    pub irq_inhibit: bool,
    pub irq_flag: bool,

    /// Cycles until a pending $4017 byte takes effect.
    pub write_delay_counter: u8,
    pub pending_write: Option<u8>,
}

impl FrameCounter {
    /// The counter as it leaves reset: four-step mode, no IRQ, no pending
    /// write.
    pub open spec fn initial_spec() -> FrameCounter {
        FrameCounter {
            mode: FrameCounterMode::FourStep,
            cycle_counter: 0,
            irq_inhibit: false,
            irq_flag: false,
            write_delay_counter: 0,
            pending_write: Option::None,
        }
    }

    pub fn new() -> (r: FrameCounter)
        ensures
            r == Self::initial_spec(),
    {
        FrameCounter {
            mode: FrameCounterMode::FourStep,
            cycle_counter: 0,
            irq_inhibit: false,
            irq_flag: false,
            write_delay_counter: 0,
            pending_write: Option::None,
        }
    }

    /// Buffers a $4017 byte. It takes effect 3 CPU cycles later when the
    /// write lands on an even cycle and 4 when on an odd one; until then the
    /// old mode keeps running.
    pub fn write(&mut self, value: u8, odd_cycle: bool)
        ensures
            *final(self) == (FrameCounter {
                pending_write: Option::Some(value),
                write_delay_counter: if odd_cycle {
                    4u8
                } else {
                    3u8
                },
                ..*old(self)
            }),
    {
        self.pending_write = Option::Some(value);
        self.write_delay_counter = if odd_cycle {
            4
        } else {
            3
        };
    }

    /// The state after a pending $4017 byte takes effect: the mode and the
    /// inhibit bit latch, the inhibit bit clears the IRQ flag at once, and
    /// the sequence restarts.
    pub open spec fn apply_write_spec(&self, value: u8) -> FrameCounter {
        FrameCounter {
            mode: if value & 0x80 != 0 {
                FrameCounterMode::FiveStep
            } else {
                FrameCounterMode::FourStep
            },
            irq_inhibit: value & 0x40 != 0,
            irq_flag: if value & 0x40 != 0 {
                false
            } else {
                self.irq_flag
            },
            cycle_counter: 0,
            write_delay_counter: 0,
            pending_write: Option::None,
        }
    }

    /// The counter state and the pending-write signals after the delayed
    /// write stage of one clock.
    pub open spec fn step_write_spec(&self) -> (FrameCounter, ClockSignals) {
        if self.write_delay_counter > 0 {
            let fc = FrameCounter {
                write_delay_counter: (self.write_delay_counter - 1) as u8,
                ..*self
            };
            if fc.write_delay_counter == 0 && self.pending_write is Some {
                let value = self.pending_write->0;
                let applied = self.apply_write_spec(value);
                let signals = if value & 0x80 != 0 {
                    ClockSignals { clock_envelopes: true, clock_length: true, irq: false }
                } else {
                    ClockSignals::quiet()
                };
                (applied, signals)
            } else {
                (fc, ClockSignals::quiet())
            }
        } else {
            (*self, ClockSignals::quiet())
        }
    }

    /// The sequencer events of the four-step mode at a given (already
    /// incremented) cycle count: quarter frames at 7457, 14913, 22371, and
    /// 29829; half frames at 14913 and 29829; the IRQ armed at 29828 and
    /// 29829; period 29830.
    pub open spec fn four_step_spec(counter: u32, irq_inhibit: bool, irq_flag: bool, signals: ClockSignals) -> (u32, bool, ClockSignals) {
        if counter == 7457 || counter == 22371 {
            (counter, irq_flag, ClockSignals { clock_envelopes: true, ..signals })
        } else if counter == 14913 {
            (counter, irq_flag, ClockSignals { clock_envelopes: true, clock_length: true, ..signals })
        } else if counter == 29828 {
            (counter, irq_flag || !irq_inhibit, signals)
        } else if counter == 29829 {
            (
                counter,
                irq_flag || !irq_inhibit,
                ClockSignals { clock_envelopes: true, clock_length: true, ..signals },
            )
        } else if counter == 29830 {
            (0, irq_flag, signals)
        } else {
            (counter, irq_flag, signals)
        }
    }

    /// The sequencer events of the five-step mode: quarter frames at 7457,
    /// 14913, 22371, and 37281; half frames at 14913 and 37281; no IRQ;
    /// period 37282.
    pub open spec fn five_step_spec(counter: u32, signals: ClockSignals) -> (u32, ClockSignals) {
        if counter == 7457 || counter == 22371 {
            (counter, ClockSignals { clock_envelopes: true, ..signals })
        } else if counter == 14913 || counter == 37281 {
            (counter, ClockSignals { clock_envelopes: true, clock_length: true, ..signals })
        } else if counter == 37282 {
            (0, signals)
        } else {
            (counter, signals)
        }
    }

    /// One full frame-counter clock: the delayed-write stage, the counter
    /// increment, the mode's sequencer events, and the IRQ level.
    pub open spec fn clock_spec(&self) -> (FrameCounter, ClockSignals) {
        let (fc0, signals0) = self.step_write_spec();
        let counter1 = (fc0.cycle_counter + 1) as u32;
        if fc0.mode is FourStep {
            let (counter2, irq_flag2, signals2) = Self::four_step_spec(
                counter1,
                fc0.irq_inhibit,
                fc0.irq_flag,
                signals0,
            );
            (
                FrameCounter { cycle_counter: counter2, irq_flag: irq_flag2, ..fc0 },
                ClockSignals { irq: irq_flag2 && !fc0.irq_inhibit, ..signals2 },
            )
        } else {
            let (counter2, signals2) = Self::five_step_spec(counter1, signals0);
            (
                FrameCounter { cycle_counter: counter2, ..fc0 },
                ClockSignals { irq: fc0.irq_flag && !fc0.irq_inhibit, ..signals2 },
            )
        }
    }

    /// The counter never runs past its mode's period.
    pub open spec fn wf(&self) -> bool {
        match self.mode {
            FrameCounterMode::FourStep => self.cycle_counter < 29830,
            FrameCounterMode::FiveStep => self.cycle_counter < 37282,
        }
    }

    /// Advances the sequencer by one CPU cycle.
    pub fn clock(&mut self) -> (signals: ClockSignals)
        requires
            old(self).wf(),
        ensures
            (*final(self), signals) == old(self).clock_spec(),
            final(self).wf(),
    {
        let mut signals = ClockSignals { clock_envelopes: false, clock_length: false, irq: false };

        if self.write_delay_counter > 0 {
            self.write_delay_counter = self.write_delay_counter - 1;

            if self.write_delay_counter == 0 {
                match self.pending_write {
                    Option::Some(value) => {
                        let new_mode = if value & 0x80 != 0 {
                            FrameCounterMode::FiveStep
                        } else {
                            FrameCounterMode::FourStep
                        };

                        self.irq_inhibit = value & 0x40 != 0;
                        if self.irq_inhibit {
                            self.irq_flag = false;
                        }

                        self.cycle_counter = 0;
                        self.mode = new_mode;

                        if value & 0x80 != 0 {
                            signals.clock_envelopes = true;
                            signals.clock_length = true;
                        }

                        self.pending_write = Option::None;
                    },
                    Option::None => {},
                }
            }
        }

        self.cycle_counter = self.cycle_counter + 1;

        match self.mode {
            FrameCounterMode::FourStep => {
                if self.cycle_counter == 7457 || self.cycle_counter == 22371 {
                    signals.clock_envelopes = true;
                } else if self.cycle_counter == 14913 {
                    signals.clock_envelopes = true;
                    signals.clock_length = true;
                } else if self.cycle_counter == 29828 {
                    if !self.irq_inhibit {
                        self.irq_flag = true;
                    }
                } else if self.cycle_counter == 29829 {
                    signals.clock_envelopes = true;
                    signals.clock_length = true;

                    if !self.irq_inhibit {
                        self.irq_flag = true;
                    }
                } else if self.cycle_counter == 29830 {
                    self.cycle_counter = 0;
                }
            },
            FrameCounterMode::FiveStep => {
                if self.cycle_counter == 7457 || self.cycle_counter == 22371 {
                    signals.clock_envelopes = true;
                } else if self.cycle_counter == 14913 || self.cycle_counter == 37281 {
                    signals.clock_envelopes = true;
                    signals.clock_length = true;
                } else if self.cycle_counter == 37282 {
                    self.cycle_counter = 0;
                }
            },
        }

        signals.irq = self.irq_flag && !self.irq_inhibit;

        signals
    }
}


/// The sequencer state after `n` clocks.
pub open spec fn clock_iter_spec(fc: FrameCounter, n: nat) -> FrameCounter
    decreases n,
{
    if n == 0 {
        fc
    } else {
        clock_iter_spec(fc, (n - 1) as nat).clock_spec().0
    }
}

/// In four-step mode with no write pending, the sequencer is periodic with
/// period 29830: the mode, inhibit bit, and pending state stay put and the
/// cycle counter advances modulo 29830, so the IRQ arming points at 29828
/// and 29829 recur every 29830 CPU cycles.
pub proof fn lemma_four_step_period(fc: FrameCounter, n: nat)
    requires
        fc.mode is FourStep,
        fc.pending_write is None,
        fc.cycle_counter < 29830,
    ensures
        clock_iter_spec(fc, n).mode is FourStep,
        clock_iter_spec(fc, n).pending_write is None,
        clock_iter_spec(fc, n).irq_inhibit == fc.irq_inhibit,
        clock_iter_spec(fc, n).cycle_counter == (fc.cycle_counter + n) % 29830,
    decreases n,
{
    if n == 0 {
        vstd::arithmetic::div_mod::lemma_small_mod(fc.cycle_counter as nat, 29830nat);
    } else {
        lemma_four_step_period(fc, (n - 1) as nat);
        let prev = clock_iter_spec(fc, (n - 1) as nat);
        vstd::arithmetic::div_mod::lemma_fundamental_div_mod(
            fc.cycle_counter + (n - 1),
            29830,
        );
        vstd::arithmetic::div_mod::lemma_fundamental_div_mod(fc.cycle_counter + n, 29830);
    }
}

/// One clock from cycle 29827 or 29828 of an uninhibited four-step sequence
/// arms the frame IRQ and reports the level.
pub proof fn lemma_four_step_arms_irq(fc: FrameCounter)
    requires
        fc.mode is FourStep,
        fc.pending_write is None,
        !fc.irq_inhibit,
        fc.cycle_counter == 29827 || fc.cycle_counter == 29828,
    ensures
        fc.clock_spec().0.irq_flag,
        fc.clock_spec().1.irq,
{
}

} // verus!

//! The audio processing unit: two pulse channels, triangle, noise, DMC, the
//! frame sequencer, and the CPU-visible register window at $4000-$4017. The
//! channels expose their digital levels; analog mixing is the host's.

use vstd::prelude::*;

pub mod dmc_channel;
pub mod envelope;
pub mod frame_counter;
pub mod noise_channel;
pub mod pulse_channel;
pub mod triangle_channel;

verus! {

use crate::cartridge::Cartridge;
use dmc_channel::{dmc_rate_spec, DmcChannel};
use frame_counter::{ClockSignals, FrameCounter};
use noise_channel::NoiseChannel;
use pulse_channel::PulseChannel;
use triangle_channel::TriangleChannel;

/// The 32-entry length-counter table indexed by the 5-bit load field.
pub open spec fn length_table_spec(index: u8) -> u8 {
    if index == 0 {
        10u8
    } else if index == 1 {
        254u8
    } else if index == 2 {
        20u8
    } else if index == 3 {
        2u8
    } else if index == 4 {
        40u8
    } else if index == 5 {
        4u8
    } else if index == 6 {
        80u8
    } else if index == 7 {
        6u8
    } else if index == 8 {
        160u8
    } else if index == 9 {
        8u8
    } else if index == 10 {
        60u8
    } else if index == 11 {
        10u8
    } else if index == 12 {
        14u8
    } else if index == 13 {
        12u8
    } else if index == 14 {
        26u8
    } else if index == 15 {
        14u8
    } else if index == 16 {
        12u8
    } else if index == 17 {
        16u8
    } else if index == 18 {
        24u8
    } else if index == 19 {
        18u8
    } else if index == 20 {
        48u8
    } else if index == 21 {
        20u8
    } else if index == 22 {
        96u8
    } else if index == 23 {
        22u8
    } else if index == 24 {
        192u8
    } else if index == 25 {
        24u8
    } else if index == 26 {
        72u8
    } else if index == 27 {
        26u8
    } else if index == 28 {
        16u8
    } else if index == 29 {
        28u8
    } else if index == 30 {
        32u8
    } else {
        30u8
    }
}

/// One entry of the length-counter table.
pub fn length_table_value(index: u8) -> (r: u8)
    ensures
        r == length_table_spec(index),
{
    if index == 0 {
        10
    } else if index == 1 {
        254
    } else if index == 2 {
        20
    } else if index == 3 {
        2
    } else if index == 4 {
        40
    } else if index == 5 {
        4
    } else if index == 6 {
        80
    } else if index == 7 {
        6
    } else if index == 8 {
        160
    } else if index == 9 {
        8
    } else if index == 10 {
        60
    } else if index == 11 {
        10
    } else if index == 12 {
        14
    } else if index == 13 {
        12
    } else if index == 14 {
        26
    } else if index == 15 {
        14
    } else if index == 16 {
        12
    } else if index == 17 {
        16
    } else if index == 18 {
        24
    } else if index == 19 {
        18
    } else if index == 20 {
        48
    } else if index == 21 {
        20
    } else if index == 22 {
        96
    } else if index == 23 {
        22
    } else if index == 24 {
        192
    } else if index == 25 {
        24
    } else if index == 26 {
        72
    } else if index == 27 {
        26
    } else if index == 28 {
        16
    } else if index == 29 {
        28
    } else if index == 30 {
        32
    } else {
        30
    }
}
pub struct Apu {
    pub pulse_1: PulseChannel,
    pub pulse_2: PulseChannel,
    pub triangle: TriangleChannel,
    pub noise: NoiseChannel,
    pub dmc: DmcChannel,

    pub frame_counter: FrameCounter,
    /// CPU cycles since power-on; its parity schedules the CPU/2 timers and
    /// the $4017 write delay.
    pub cycle: u64,
    pub frame_irq: bool,
    pub dmc_irq: bool,
}

impl Apu {
    /// The frame counter never runs past its period.
    pub open spec fn wf(&self) -> bool {
        self.frame_counter.wf()
    }

    pub fn new() -> (r: Apu)
        ensures
            r.wf(),
            r.pulse_1.length_counter == 0,
            r.pulse_2.length_counter == 0,
            !r.pulse_1.enabled,
            !r.pulse_2.enabled,
            r.triangle.length_counter == 0,
            r.noise.length_counter == 0,
            r.dmc.bytes_remaining == 0,
            r.frame_counter == FrameCounter::initial_spec(),
            r.cycle == 0,
            !r.frame_irq,
            !r.dmc_irq,
    {
        Apu {
            pulse_1: PulseChannel::new(),
            pulse_2: PulseChannel::new(),
            triangle: TriangleChannel::new(),
            noise: NoiseChannel::new(),
            dmc: DmcChannel::new(),

            frame_counter: FrameCounter::new(),
            cycle: 0,
            frame_irq: false,
            dmc_irq: false,
        }
    }

    /// The $4015 status byte: one live-length bit per channel, the DMC
    /// activity bit, and the two IRQ flags.
    pub open spec fn status_byte_spec(&self) -> u8 {
        (((if self.pulse_1.length_counter > 0 { 0x01u8 } else { 0u8 })
            | (if self.pulse_2.length_counter > 0 { 0x02u8 } else { 0u8 })
            | (if self.triangle.length_counter > 0 { 0x04u8 } else { 0u8 })
            | (if self.noise.length_counter > 0 { 0x08u8 } else { 0u8 })
            | (if self.dmc.bytes_remaining > 0 { 0x10u8 } else { 0u8 })
            | (if self.frame_irq { 0x40u8 } else { 0u8 })
            | (if self.dmc_irq { 0x80u8 } else { 0u8 })) as u8)
    }

    /// A $4015 read: reports the status byte and acknowledges the frame IRQ,
    /// both the latched level and the sequencer's flag.
    pub fn read_status(&mut self) -> (r: u8)
        ensures
            r == old(self).status_byte_spec(),
            *final(self) == (Apu {
                frame_irq: false,
                frame_counter: (FrameCounter { irq_flag: false, ..old(self).frame_counter }),
                ..*old(self)
            }),
    {
        let status: u8 = (if self.pulse_1.length_counter > 0 {
            0x01u8
        } else {
            0u8
        }) | (if self.pulse_2.length_counter > 0 {
            0x02u8
        } else {
            0u8
        }) | (if self.triangle.length_counter > 0 {
            0x04u8
        } else {
            0u8
        }) | (if self.noise.length_counter > 0 {
            0x08u8
        } else {
            0u8
        }) | (if self.dmc.bytes_remaining > 0 {
            0x10u8
        } else {
            0u8
        }) | (if self.frame_irq {
            0x40u8
        } else {
            0u8
        }) | (if self.dmc_irq {
            0x80u8
        } else {
            0u8
        });

        self.frame_irq = false;
        self.frame_counter.irq_flag = false;

        status
    }

    /// The whole APU after a $4015 write: each channel takes its enable
    /// bit, and a pending DMC interrupt is acknowledged.
    pub open spec fn write_status_spec(&self, value: u8) -> Apu {
        let dmc = if value & 0x10 != 0 {
            if !self.dmc.enabled || self.dmc.bytes_remaining == 0 {
                DmcChannel {
                    enabled: true,
                    current_address: self.dmc.sample_address,
                    bytes_remaining: self.dmc.sample_length,
                    needs_init: true,
                    ..self.dmc
                }
            } else {
                DmcChannel { enabled: true, ..self.dmc }
            }
        } else {
            DmcChannel { enabled: false, bytes_remaining: 0, ..self.dmc }
        };
        Apu {
            pulse_1: self.pulse_1.set_enabled_spec(value & 0x01 != 0),
            pulse_2: self.pulse_2.set_enabled_spec(value & 0x02 != 0),
            triangle: self.triangle.set_enabled_spec(value & 0x04 != 0),
            noise: self.noise.set_enabled_spec(value & 0x08 != 0),
            dmc: (DmcChannel { interrupt_flag: false, ..dmc }),
            ..*self
        }
    }

    /// The whole APU after a CPU write of $4000-$4017: the addressed
    /// register takes the value, $4015 is the enable mask, $4017 schedules
    /// the delayed frame-counter write, and the unused slots do nothing.
    pub open spec fn cpu_write_spec(&self, address: u16, value: u8, odd_cycle: bool) -> Apu {
        if address == 0x4000 {
            Apu { pulse_1: self.pulse_1.write_control_spec(value), ..*self }
        } else if address == 0x4001 {
            Apu { pulse_1: self.pulse_1.write_sweep_spec(value), ..*self }
        } else if address == 0x4002 {
            Apu { pulse_1: self.pulse_1.write_timer_low_spec(value), ..*self }
        } else if address == 0x4003 {
            Apu { pulse_1: self.pulse_1.write_timer_high_spec(value), ..*self }
        } else if address == 0x4004 {
            Apu { pulse_2: self.pulse_2.write_control_spec(value), ..*self }
        } else if address == 0x4005 {
            Apu { pulse_2: self.pulse_2.write_sweep_spec(value), ..*self }
        } else if address == 0x4006 {
            Apu { pulse_2: self.pulse_2.write_timer_low_spec(value), ..*self }
        } else if address == 0x4007 {
            Apu { pulse_2: self.pulse_2.write_timer_high_spec(value), ..*self }
        } else if address == 0x4008 {
            Apu { triangle: self.triangle.write_control_spec(value), ..*self }
        } else if address == 0x400A {
            Apu { triangle: self.triangle.write_timer_low_spec(value), ..*self }
        } else if address == 0x400B {
            Apu { triangle: self.triangle.write_timer_high_spec(value), ..*self }
        } else if address == 0x400C {
            Apu { noise: self.noise.write_control_spec(value), ..*self }
        } else if address == 0x400E {
            Apu { noise: self.noise.write_period_spec(value), ..*self }
        } else if address == 0x400F {
            Apu { noise: self.noise.write_length_load_spec(value), ..*self }
        } else if address == 0x4010 {
            Apu {
                dmc: (DmcChannel {
                    irq_enabled: value & 0x80 != 0,
                    loop_flag: value & 0x40 != 0,
                    rate_index: (value & 0x0F) as u8,
                    timer_period: dmc_rate_spec((value & 0x0F) as u8),
                    interrupt_flag: if value & 0x80 == 0 {
                        false
                    } else {
                        self.dmc.interrupt_flag
                    },
                    ..self.dmc
                }),
                ..*self
            }
        } else if address == 0x4011 {
            Apu { dmc: (DmcChannel { output_level: (value & 0x7F) as u8, ..self.dmc }), ..*self }
        } else if address == 0x4012 {
            Apu {
                dmc: (DmcChannel {
                    sample_address: (0xC000 + (value as u16) * 64) as u16,
                    ..self.dmc
                }),
                ..*self
            }
        } else if address == 0x4013 {
            Apu {
                dmc: (DmcChannel {
                    sample_length: ((value as u16) * 16 + 1) as u16,
                    ..self.dmc
                }),
                ..*self
            }
        } else if address == 0x4015 {
            self.write_status_spec(value)
        } else if address == 0x4017 {
            Apu {
                frame_counter: (FrameCounter {
                    pending_write: Option::Some(value),
                    write_delay_counter: if odd_cycle {
                        4u8
                    } else {
                        3u8
                    },
                    ..self.frame_counter
                }),
                ..*self
            }
        } else {
            *self
        }
    }

    /// A $4015 write: each clear bit silences its channel's length counter
    /// at once, and a pending DMC interrupt is acknowledged.
    pub fn write_status(&mut self, value: u8)
        ensures
            *final(self) == old(self).write_status_spec(value),
            final(self).pulse_1 == old(self).pulse_1.set_enabled_spec(value & 0x01 != 0),
            final(self).pulse_2 == old(self).pulse_2.set_enabled_spec(value & 0x02 != 0),
            value & 0x01 == 0 ==> final(self).pulse_1.length_counter == 0,
            value & 0x02 == 0 ==> final(self).pulse_2.length_counter == 0,
            value & 0x04 == 0 ==> final(self).triangle.length_counter == 0,
            value & 0x08 == 0 ==> final(self).noise.length_counter == 0,
            value & 0x10 == 0 ==> final(self).dmc.bytes_remaining == 0,
            final(self).triangle.enabled == (value & 0x04 != 0),
            final(self).noise.enabled == (value & 0x08 != 0),
            final(self).dmc.enabled == (value & 0x10 != 0),
            !final(self).dmc.interrupt_flag,
            final(self).frame_counter == old(self).frame_counter,
            final(self).frame_irq == old(self).frame_irq,
            final(self).cycle == old(self).cycle,
    {
        self.pulse_1.set_enabled(value & 0x01 != 0);
        self.pulse_2.set_enabled(value & 0x02 != 0);
        self.triangle.set_enabled(value & 0x04 != 0);
        self.noise.set_enabled(value & 0x08 != 0);
        self.dmc.set_enabled(value & 0x10 != 0);

        self.dmc.clear_interrupt();
    }

    /// A CPU read of $4000-$4017: only $4015 responds; the rest of the
    /// window is write-only and reads as open bus.
    pub fn cpu_read(&mut self, address: u16) -> (r: u8)
        ensures
            address == 0x4015 ==> r == old(self).status_byte_spec() && *final(self) == (Apu {
                frame_irq: false,
                frame_counter: (FrameCounter { irq_flag: false, ..old(self).frame_counter }),
                ..*old(self)
            }),
            address != 0x4015 ==> r == 0 && *final(self) == *old(self),
    {
        if address == 0x4015 {
            self.read_status()
        } else {
            0
        }
    }

    /// A CPU write of $4000-$4017 lands in the addressed channel register,
    /// the enable mask, or the frame counter; $4017 takes its parity-aware
    /// delay from the current cycle.
    #[verifier::rlimit(100)]
    pub fn cpu_write(&mut self, address: u16, value: u8)
        requires
            0x4000 <= address <= 0x4017,
        ensures
            final(self).cycle == old(self).cycle,
            final(self).frame_irq == old(self).frame_irq,
            *final(self) == old(self).cpu_write_spec(address, value, old(self).cycle & 1 == 1),
            address == 0x4000 ==> *final(self) == (Apu {
                pulse_1: old(self).pulse_1.write_control_spec(value),
                ..*old(self)
            }),
            address == 0x4003 ==> final(self).pulse_1 == old(self).pulse_1.write_timer_high_spec(
                value,
            ),
            address == 0x4007 ==> final(self).pulse_2 == old(self).pulse_2.write_timer_high_spec(
                value,
            ),
            address == 0x400B ==> final(self).triangle == old(self).triangle.write_timer_high_spec(
                value,
            ),
            address == 0x400F ==> final(self).noise == old(self).noise.write_length_load_spec(
                value,
            ),
            address == 0x4015 ==> {
                &&& (value & 0x01 == 0 ==> final(self).pulse_1.length_counter == 0)
                &&& (value & 0x02 == 0 ==> final(self).pulse_2.length_counter == 0)
                &&& (value & 0x04 == 0 ==> final(self).triangle.length_counter == 0)
                &&& (value & 0x08 == 0 ==> final(self).noise.length_counter == 0)
                &&& (value & 0x10 == 0 ==> final(self).dmc.bytes_remaining == 0)
            },
            address == 0x4017 ==> *final(self) == (Apu {
                frame_counter: (FrameCounter {
                    pending_write: Option::Some(value),
                    write_delay_counter: if old(self).cycle & 1 == 1 {
                        4u8
                    } else {
                        3u8
                    },
                    ..old(self).frame_counter
                }),
                ..*old(self)
            }),
            final(self).frame_counter.cycle_counter == old(self).frame_counter.cycle_counter,
            final(self).frame_counter.mode == old(self).frame_counter.mode,
            old(self).wf() ==> final(self).wf(),
    {
        if address == 0x4000 {
            self.pulse_1.write_control(value);
        } else if address == 0x4001 {
            self.pulse_1.write_sweep(value);
        } else if address == 0x4002 {
            self.pulse_1.write_timer_low(value);
        } else if address == 0x4003 {
            self.pulse_1.write_timer_high(value);
        } else if address == 0x4004 {
            self.pulse_2.write_control(value);
        } else if address == 0x4005 {
            self.pulse_2.write_sweep(value);
        } else if address == 0x4006 {
            self.pulse_2.write_timer_low(value);
        } else if address == 0x4007 {
            self.pulse_2.write_timer_high(value);
        } else if address == 0x4008 {
            self.triangle.write_control(value);
        } else if address == 0x4009 {
            // Unused.
        } else if address == 0x400A {
            self.triangle.write_timer_low(value);
        } else if address == 0x400B {
            self.triangle.write_timer_high(value);
        } else if address == 0x400C {
            self.noise.write_control(value);
        } else if address == 0x400D {
            // Unused.
        } else if address == 0x400E {
            self.noise.write_period(value);
        } else if address == 0x400F {
            self.noise.write_length_load(value);
        } else if address == 0x4010 {
            self.dmc.write_flags(value);
        } else if address == 0x4011 {
            self.dmc.write_direct_load(value);
        } else if address == 0x4012 {
            self.dmc.write_sample_address(value);
        } else if address == 0x4013 {
            self.dmc.write_sample_length(value);
        } else if address == 0x4014 {
            // OAM-DMA belongs to the bus, not the APU.
        } else if address == 0x4015 {
            self.write_status(value);
        } else if address == 0x4016 {
            // Controller strobe belongs to the bus.
        } else {
            self.frame_counter.write(value, self.cycle & 1 == 1);
        }
    }

    /// One CPU cycle: the frame sequencer fires its signals into the
    /// envelopes, lengths, and sweeps; the pulse and noise timers run every
    /// other cycle, the triangle and DMC every cycle; the IRQ levels latch.
    pub fn clock(&mut self, cart: &mut Cartridge)
        requires
            old(self).wf(),
        ensures
            final(self).wf(),
            *final(cart) == *old(cart),
            final(self).cycle == old(self).cycle.wrapping_add(1),
            ({
                let (fc, signals) = old(self).frame_counter.clock_spec();
                &&& final(self).frame_counter == fc
                &&& final(self).frame_irq == signals.irq
                &&& ({
                    let p1 = if signals.clock_envelopes {
                        old(self).pulse_1.clock_envelope_spec()
                    } else {
                        old(self).pulse_1
                    };
                    let p1 = if signals.clock_length {
                        p1.clock_length_counter_spec().clock_sweep_spec(1)
                    } else {
                        p1
                    };
                    let p1 = if old(self).cycle & 1 == 0 {
                        p1.clock_timer_spec()
                    } else {
                        p1
                    };
                    final(self).pulse_1 == p1
                })
                &&& ({
                    let p2 = if signals.clock_envelopes {
                        old(self).pulse_2.clock_envelope_spec()
                    } else {
                        old(self).pulse_2
                    };
                    let p2 = if signals.clock_length {
                        p2.clock_length_counter_spec().clock_sweep_spec(2)
                    } else {
                        p2
                    };
                    let p2 = if old(self).cycle & 1 == 0 {
                        p2.clock_timer_spec()
                    } else {
                        p2
                    };
                    final(self).pulse_2 == p2
                })
                &&& ({
                    let t = if signals.clock_envelopes {
                        old(self).triangle.clock_linear_counter_spec()
                    } else {
                        old(self).triangle
                    };
                    let t = if signals.clock_length {
                        t.clock_length_counter_spec()
                    } else {
                        t
                    };
                    final(self).triangle == t.clock_timer_spec()
                })
                &&& ({
                    let n = if signals.clock_envelopes {
                        old(self).noise.clock_envelope_spec()
                    } else {
                        old(self).noise
                    };
                    let n = if signals.clock_length {
                        n.clock_length_counter_spec()
                    } else {
                        n
                    };
                    let n = if old(self).cycle & 1 == 0 {
                        n.clock_timer_spec()
                    } else {
                        n
                    };
                    final(self).noise == n
                })
                &&& final(self).dmc == old(self).dmc.clock_timer_spec(*old(cart))
                &&& final(self).dmc_irq == final(self).dmc.interrupt_flag
            }),
    {
        let signals = self.frame_counter.clock();

        if signals.clock_envelopes {
            self.pulse_1.clock_envelope();
            self.pulse_2.clock_envelope();
            self.noise.clock_envelope();
            self.triangle.clock_linear_counter();
        }

        if signals.clock_length {
            self.pulse_1.clock_length_counter();
            self.pulse_1.clock_sweep(1);
            self.pulse_2.clock_length_counter();
            self.pulse_2.clock_sweep(2);
            self.triangle.clock_length_counter();
            self.noise.clock_length_counter();
        }

        self.frame_irq = signals.irq;

        if (self.cycle & 1) == 0 {
            self.pulse_1.clock_timer();
            self.pulse_2.clock_timer();
            self.noise.clock_timer();
        }

        self.triangle.clock_timer();
        self.dmc.clock_timer(cart);

        self.dmc_irq = self.dmc.get_interrupt();

        self.cycle = self.cycle.wrapping_add(1);
    }

    /// Whether either IRQ line is held.
    pub fn irq_pending(&self) -> (r: bool)
        ensures
            r == (self.frame_irq || self.dmc_irq),
    {
        self.frame_irq || self.dmc_irq
    }
}

} // verus!

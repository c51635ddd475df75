//! The delta-modulation channel: a sample reader fetching bytes from CPU
//! address space through the cartridge, an 8-bit shift register, and a 7-bit
//! output level stepped by plus or minus 2.

use vstd::prelude::*;

verus! {

use crate::cartridge::Cartridge;

/// The 16-entry DMC rate table indexed by the low nibble of $4010.
pub open spec fn dmc_rate_spec(index: u8) -> u16 {
    if index == 0 {
        428u16
    } else if index == 1 {
        380u16
    } else if index == 2 {
        340u16
    } else if index == 3 {
        320u16
    } else if index == 4 {
        286u16
    } else if index == 5 {
        254u16
    } else if index == 6 {
        226u16
    } else if index == 7 {
        214u16
    } else if index == 8 {
        190u16
    } else if index == 9 {
        160u16
    } else if index == 10 {
        142u16
    } else if index == 11 {
        128u16
    } else if index == 12 {
        106u16
    } else if index == 13 {
        84u16
    } else if index == 14 {
        72u16
    } else {
        54u16
    }
}

/// One entry of the DMC rate table.
pub fn dmc_rate_value(index: u8) -> (r: u16)
    requires
        index < 16,
    ensures
        r == dmc_rate_spec(index),
{
    if index == 0 {
        428
    } else if index == 1 {
        380
    } else if index == 2 {
        340
    } else if index == 3 {
        320
    } else if index == 4 {
        286
    } else if index == 5 {
        254
    } else if index == 6 {
        226
    } else if index == 7 {
        214
    } else if index == 8 {
        190
    } else if index == 9 {
        160
    } else if index == 10 {
        142
    } else if index == 11 {
        128
    } else if index == 12 {
        106
    } else if index == 13 {
        84
    } else if index == 14 {
        72
    } else {
        54
    }
}

#[derive(Clone, Copy, Debug, PartialEq, Eq, Structural)]
pub struct DmcChannel {
    pub irq_enabled: bool,
    pub loop_flag: bool,
    pub rate_index: u8,
    pub output_level: u8,
    pub sample_address: u16,
    pub sample_length: u16,

    pub timer_period: u16,
    pub timer: u16,

    pub enabled: bool,
    pub current_address: u16,
    pub bytes_remaining: u16,

    pub sample_buffer: u8,
    pub sample_buffer_empty: bool,

    pub shift_register: u8,
    pub bits_remaining: u8,
    pub silence_flag: bool,

    pub interrupt_flag: bool,
    /// Set when enabling restarted the sample: the first fetch happens at
    /// once rather than on the next timer underflow.
    pub needs_init: bool,
}

impl DmcChannel {
    /// The channel after one sample byte arrives: the buffer fills, the
    /// address advances wrapping $FFFF to $8000, and exhausting the sample
    /// either restarts it (loop) or arms the IRQ (when enabled).
    pub open spec fn fill_spec(&self, byte: u8) -> DmcChannel {
        let advanced = if self.current_address == 0xFFFF {
            0x8000u16
        } else {
            (self.current_address + 1) as u16
        };
        let remaining = if self.bytes_remaining > 0 {
            (self.bytes_remaining - 1) as u16
        } else {
            0u16
        };
        let s = DmcChannel {
            sample_buffer: byte,
            sample_buffer_empty: false,
            current_address: advanced,
            bytes_remaining: remaining,
            ..*self
        };
        if remaining == 0 {
            if self.loop_flag {
                DmcChannel {
                    current_address: self.sample_address,
                    bytes_remaining: self.sample_length,
                    ..s
                }
            } else if self.irq_enabled {
                DmcChannel { interrupt_flag: true, ..s }
            } else {
                s
            }
        } else {
            s
        }
    }

    /// The channel after one output-unit step: an empty buffer asserts
    /// silence for the next eight bits, a full one moves into the shift
    /// register, and each un-silenced bit nudges the level by 2 within
    /// 0 to 126.
    pub open spec fn output_unit_spec(&self) -> DmcChannel {
        let s = if self.bits_remaining == 0 {
            if self.sample_buffer_empty {
                DmcChannel { bits_remaining: 8, silence_flag: true, ..*self }
            } else {
                DmcChannel {
                    bits_remaining: 8,
                    silence_flag: false,
                    shift_register: self.sample_buffer,
                    sample_buffer_empty: true,
                    ..*self
                }
            }
        } else {
            *self
        };
        let s2 = if !s.silence_flag {
            DmcChannel {
                output_level: if s.shift_register & 1 == 1 {
                    if s.output_level <= 124 {
                        (s.output_level + 2) as u8
                    } else {
                        126u8
                    }
                } else {
                    if s.output_level >= 2 {
                        (s.output_level - 2) as u8
                    } else {
                        0u8
                    }
                },
                shift_register: (s.shift_register >> 1) as u8,
                ..s
            }
        } else {
            s
        };
        DmcChannel { bits_remaining: (s2.bits_remaining - 1) as u8, ..s2 }
    }

    /// The channel after one CPU-rate clock against a cartridge: a pending
    /// restart fetches at once; a timer underflow steps the output unit and
    /// refills the buffer when it emptied with bytes left.
    pub open spec fn clock_timer_spec(&self, cart: Cartridge) -> DmcChannel {
        let s1 = if self.needs_init && self.sample_buffer_empty && self.bytes_remaining > 0 {
            DmcChannel {
                needs_init: false,
                ..self.fill_spec(cart.cpu_read_spec(self.current_address))
            }
        } else {
            *self
        };
        if s1.timer == 0 {
            let s2 = (DmcChannel { timer: s1.timer_period, ..s1 }).output_unit_spec();
            if s2.bits_remaining == 0 && s2.sample_buffer_empty && s2.bytes_remaining > 0 {
                s2.fill_spec(cart.cpu_read_spec(s2.current_address))
            } else {
                s2
            }
        } else {
            DmcChannel { timer: (s1.timer - 1) as u16, ..s1 }
        }
    }

    pub fn new() -> (r: DmcChannel)
        ensures
            !r.irq_enabled,
            !r.loop_flag,
            r.rate_index == 0,
            r.output_level == 0,
            r.sample_address == 0,
            r.sample_length == 0,
            r.timer_period == dmc_rate_spec(0),
            r.timer == dmc_rate_spec(0),
            !r.enabled,
            r.current_address == 0,
            r.bytes_remaining == 0,
            r.sample_buffer == 0,
            r.sample_buffer_empty,
            r.shift_register == 0,
            r.bits_remaining == 0,
            !r.silence_flag,
            !r.interrupt_flag,
            !r.needs_init,
    {
        DmcChannel {
            irq_enabled: false,
            loop_flag: false,
            rate_index: 0,
            output_level: 0,
            sample_address: 0,
            sample_length: 0,

            timer_period: 428,
            timer: 428,

            enabled: false,
            current_address: 0,
            bytes_remaining: 0,

            sample_buffer: 0,
            sample_buffer_empty: true,
            shift_register: 0,
            bits_remaining: 0,
            silence_flag: false,
            interrupt_flag: false,
            needs_init: false,
        }
    }

    /// A $4015 bit-4 change: disabling empties the sample; enabling with an
    /// exhausted sample restarts it from the programmed address and length.
    pub fn set_enabled(&mut self, enabled: bool)
        ensures
            *final(self) == if enabled {
                if !old(self).enabled || old(self).bytes_remaining == 0 {
                    (DmcChannel {
                        enabled: true,
                        current_address: old(self).sample_address,
                        bytes_remaining: old(self).sample_length,
                        needs_init: true,
                        ..*old(self)
                    })
                } else {
                    (DmcChannel { enabled: true, ..*old(self) })
                }
            } else {
                (DmcChannel { enabled: false, bytes_remaining: 0, ..*old(self) })
            },
    {
        let was_enabled = self.enabled;
        self.enabled = enabled;

        if self.enabled {
            if !was_enabled || self.bytes_remaining == 0 {
                self.current_address = self.sample_address;
                self.bytes_remaining = self.sample_length;
                self.needs_init = true;
            }
        } else {
            self.bytes_remaining = 0;
        }
    }

    /// A $4010 write: IRQ enable, loop, and the rate from the table.
    /// Clearing IRQ enable drops a pending interrupt at once.
    pub fn write_flags(&mut self, value: u8)
        ensures
            *final(self) == (DmcChannel {
                irq_enabled: value & 0x80 != 0,
                loop_flag: value & 0x40 != 0,
                rate_index: (value & 0x0F) as u8,
                timer_period: dmc_rate_spec((value & 0x0F) as u8),
                interrupt_flag: if value & 0x80 == 0 {
                    false
                } else {
                    old(self).interrupt_flag
                },
                ..*old(self)
            }),
    {
        self.irq_enabled = value & 0x80 != 0;
        self.loop_flag = value & 0x40 != 0;
        self.rate_index = value & 0x0F;
        proof {
            let v = value;
            assert((v & 0x0F) < 16) by (bit_vector);
        }
        self.timer_period = dmc_rate_value(self.rate_index);

        if !self.irq_enabled {
            self.interrupt_flag = false;
        }
    }

    /// A $4011 write: the 7-bit output level loads directly.
    pub fn write_direct_load(&mut self, value: u8)
        ensures
            *final(self) == (DmcChannel { output_level: (value & 0x7F) as u8, ..*old(self) }),
    {
        self.output_level = value & 0x7F;
    }

    /// A $4012 write: sample address = $C000 + 64 times the value.
    pub fn write_sample_address(&mut self, value: u8)
        ensures
            *final(self) == (DmcChannel {
                sample_address: (0xC000 + (value as u16) * 64) as u16,
                ..*old(self)
            }),
    {
        self.sample_address = 0xC000 + (value as u16) * 64;
    }

    /// A $4013 write: sample length = 16 times the value plus 1.
    pub fn write_sample_length(&mut self, value: u8)
        ensures
            *final(self) == (DmcChannel {
                sample_length: ((value as u16) * 16 + 1) as u16,
                ..*old(self)
            }),
    {
        self.sample_length = (value as u16) * 16 + 1;
    }

    /// One CPU-rate clock; sample fetches read through the cartridge, which
    /// they leave unchanged.
    pub fn clock_timer(&mut self, cart: &mut Cartridge)
        ensures
            *final(self) == old(self).clock_timer_spec(*old(cart)),
            *final(cart) == *old(cart),
    {
        if self.needs_init && self.sample_buffer_empty && self.bytes_remaining > 0 {
            self.fill_sample_buffer(cart);
            self.needs_init = false;
        }

        if self.timer == 0 {
            self.timer = self.timer_period;

            self.clock_output_unit();

            if self.bits_remaining == 0 && self.sample_buffer_empty && self.bytes_remaining > 0 {
                self.fill_sample_buffer(cart);
            }
        } else {
            self.timer = self.timer - 1;
        }
    }

    /// Fetches the next sample byte from the cartridge into the buffer.
    fn fill_sample_buffer(&mut self, cart: &mut Cartridge)
        ensures
            *final(self) == old(self).fill_spec(old(cart).cpu_read_spec(old(
                self,
            ).current_address)),
            *final(cart) == *old(cart),
    {
        self.sample_buffer = cart.cpu_read(self.current_address);
        self.sample_buffer_empty = false;

        self.current_address = if self.current_address == 0xFFFF {
            0x8000
        } else {
            self.current_address + 1
        };

        if self.bytes_remaining > 0 {
            self.bytes_remaining = self.bytes_remaining - 1;
        }

        if self.bytes_remaining == 0 {
            if self.loop_flag {
                self.current_address = self.sample_address;
                self.bytes_remaining = self.sample_length;
            } else if self.irq_enabled {
                self.interrupt_flag = true;
            }
        }
    }

    /// One output-unit step.
    fn clock_output_unit(&mut self)
        ensures
            *final(self) == old(self).output_unit_spec(),
    {
        if self.bits_remaining == 0 {
            self.bits_remaining = 8;

            if self.sample_buffer_empty {
                self.silence_flag = true;
            } else {
                self.silence_flag = false;
                self.shift_register = self.sample_buffer;
                self.sample_buffer_empty = true;
            }
        }

        if !self.silence_flag {
            let bit = self.shift_register & 1;

            if bit == 1 {
                if self.output_level <= 124 {
                    self.output_level = self.output_level + 2;
                } else {
                    self.output_level = 126;
                }
            } else if self.output_level >= 2 {
                self.output_level = self.output_level - 2;
            } else {
                self.output_level = 0;
            }

            self.shift_register = self.shift_register >> 1;
        }

        if self.bits_remaining > 0 {
            self.bits_remaining = self.bits_remaining - 1;
        }
    }

    /// The 7-bit level the mixer samples.
    pub fn output(&self) -> (r: u8)
        ensures
            r == if self.enabled {
                self.output_level
            } else {
                0u8
            },
    {
        if self.enabled {
            self.output_level
        } else {
            0
        }
    }

    pub fn get_interrupt(&self) -> (r: bool)
        ensures
            r == self.interrupt_flag,
    {
        self.interrupt_flag
    }

    pub fn clear_interrupt(&mut self)
        ensures
            *final(self) == (DmcChannel { interrupt_flag: false, ..*old(self) }),
    {
        self.interrupt_flag = false;
    }
}

} // verus!

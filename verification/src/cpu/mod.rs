//! The 6502 CPU core: registers, the status flag set, the stack discipline,
//! NMI/IRQ dispatch, and the fetch/decode/execute step.

use vstd::prelude::*;

pub mod addressing;
pub mod instructions;
pub mod mem;
pub mod opcode;

verus! {

use crate::bus::Bus;
use instructions::Instruction;
use opcode::Opcode;

/// The 6502 status register P as its eight flags. The pushed-byte layout is
/// C, Z, I, D, B, U, V, N from bit 0 up; U always reads 1 and B is only ever
/// set inside a pushed copy.
#[derive(Clone, Copy, Debug, PartialEq, Eq, Structural)]
pub struct StatusFlags {
    pub carry: bool,
    pub zero: bool,
    pub interrupt_disable: bool,
    pub decimal_mode: bool,
    pub break_command: bool,
    pub unused: bool,
    pub overflow: bool,
    pub negative: bool,
}

impl StatusFlags {
    /// P as it leaves reset: interrupts disabled and the fixed bit set.
    pub open spec fn initial_spec() -> StatusFlags {
        StatusFlags {
            carry: false,
            zero: false,
            interrupt_disable: true,
            decimal_mode: false,
            break_command: false,
            unused: true,
            overflow: false,
            negative: false,
        }
    }

    /// The packed byte, flags at their architectural bit positions.
    pub open spec fn bits_spec(&self) -> u8 {
        ((if self.carry {
            0x01u8
        } else {
            0u8
        }) | (if self.zero {
            0x02u8
        } else {
            0u8
        }) | (if self.interrupt_disable {
            0x04u8
        } else {
            0u8
        }) | (if self.decimal_mode {
            0x08u8
        } else {
            0u8
        }) | (if self.break_command {
            0x10u8
        } else {
            0u8
        }) | (if self.unused {
            0x20u8
        } else {
            0u8
        }) | (if self.overflow {
            0x40u8
        } else {
            0u8
        }) | (if self.negative {
            0x80u8
        } else {
            0u8
        })) as u8
    }

    /// The byte a push places on the stack: the live flags with U forced to
    /// 1 and B carrying the push's reason.
    pub open spec fn push_bits_spec(&self, b_flag: bool) -> u8 {
        (StatusFlags { break_command: b_flag, unused: true, ..*self }).bits_spec()
    }

    /// The flags a pull restores: every bit from the byte except B, forced
    /// to 0, and U, forced to 1.
    pub open spec fn from_bits_spec(bits: u8) -> StatusFlags {
        StatusFlags {
            carry: bits & 0x01 != 0,
            zero: bits & 0x02 != 0,
            interrupt_disable: bits & 0x04 != 0,
            decimal_mode: bits & 0x08 != 0,
            break_command: false,
            unused: true,
            overflow: bits & 0x40 != 0,
            negative: bits & 0x80 != 0,
        }
    }

    pub fn new() -> (r: StatusFlags)
        ensures
            r == StatusFlags::initial_spec(),
    {
        StatusFlags {
            carry: false,
            zero: false,
            interrupt_disable: true,
            decimal_mode: false,
            break_command: false,
            unused: true,
            overflow: false,
            negative: false,
        }
    }

    /// Packs the flags into a byte.
    pub fn bits(&self) -> (r: u8)
        ensures
            r == self.bits_spec(),
    {
        (if self.carry {
            0x01u8
        } else {
            0u8
        }) | (if self.zero {
            0x02u8
        } else {
            0u8
        }) | (if self.interrupt_disable {
            0x04u8
        } else {
            0u8
        }) | (if self.decimal_mode {
            0x08u8
        } else {
            0u8
        }) | (if self.break_command {
            0x10u8
        } else {
            0u8
        }) | (if self.unused {
            0x20u8
        } else {
            0u8
        }) | (if self.overflow {
            0x40u8
        } else {
            0u8
        }) | (if self.negative {
            0x80u8
        } else {
            0u8
        })
    }

    /// The byte a push places on the stack.
    pub fn push_bits(&self, b_flag: bool) -> (r: u8)
        ensures
            r == self.push_bits_spec(b_flag),
    {
        let copy = StatusFlags { break_command: b_flag, unused: true, ..*self };
        copy.bits()
    }

    /// The flags a pull restores.
    pub fn from_bits(bits: u8) -> (r: StatusFlags)
        ensures
            r == Self::from_bits_spec(bits),
    {
        StatusFlags {
            carry: bits & 0x01 != 0,
            zero: bits & 0x02 != 0,
            interrupt_disable: bits & 0x04 != 0,
            decimal_mode: bits & 0x08 != 0,
            break_command: false,
            unused: true,
            overflow: bits & 0x40 != 0,
            negative: bits & 0x80 != 0,
        }
    }
}

/// Packing the flags and pulling them back restores every flag but B, which
/// is forced clear, and U, which is forced set — whatever B was pushed as.
pub proof fn lemma_status_push_pull_roundtrip(s: StatusFlags, b_flag: bool)
    ensures
        StatusFlags::from_bits_spec(s.push_bits_spec(b_flag)) == (StatusFlags {
            break_command: false,
            unused: true,
            ..s
        }),
{
    let c: u8 = if s.carry {
        0x01u8
    } else {
        0u8
    };
    let z: u8 = if s.zero {
        0x02u8
    } else {
        0u8
    };
    let i: u8 = if s.interrupt_disable {
        0x04u8
    } else {
        0u8
    };
    let d: u8 = if s.decimal_mode {
        0x08u8
    } else {
        0u8
    };
    let b: u8 = if b_flag {
        0x10u8
    } else {
        0u8
    };
    let v: u8 = if s.overflow {
        0x40u8
    } else {
        0u8
    };
    let n: u8 = if s.negative {
        0x80u8
    } else {
        0u8
    };
    let packed = s.push_bits_spec(b_flag);
    assert(packed == c | z | i | d | b | 0x20 | v | n);
    assert(((c | z | i | d | b | 0x20 | v | n) & 0x01 != 0) == (c == 0x01) && ((c | z | i | d | b
        | 0x20 | v | n) & 0x02 != 0) == (z == 0x02) && ((c | z | i | d | b | 0x20 | v | n) & 0x04
        != 0) == (i == 0x04) && ((c | z | i | d | b | 0x20 | v | n) & 0x08 != 0) == (d == 0x08)
        && ((c | z | i | d | b | 0x20 | v | n) & 0x40 != 0) == (v == 0x40) && ((c | z | i | d | b
        | 0x20 | v | n) & 0x80 != 0) == (n == 0x80)) by (bit_vector)
        requires
            c == 0 || c == 0x01,
            z == 0 || z == 0x02,
            i == 0 || i == 0x04,
            d == 0 || d == 0x08,
            b == 0 || b == 0x10,
            v == 0 || v == 0x40,
            n == 0 || n == 0x80,
    ;
}

/// The byte a wellformed P packs to always has bit 5 (U) set and bit 4 (B)
/// clear.
pub proof fn lemma_status_bits_u_set_b_clear(s: StatusFlags)
    requires
        s.unused,
        !s.break_command,
    ensures
        s.bits_spec() & 0x20 != 0,
        s.bits_spec() & 0x10 == 0,
{
    let c: u8 = if s.carry {
        0x01u8
    } else {
        0u8
    };
    let z: u8 = if s.zero {
        0x02u8
    } else {
        0u8
    };
    let i: u8 = if s.interrupt_disable {
        0x04u8
    } else {
        0u8
    };
    let d: u8 = if s.decimal_mode {
        0x08u8
    } else {
        0u8
    };
    let v: u8 = if s.overflow {
        0x40u8
    } else {
        0u8
    };
    let n: u8 = if s.negative {
        0x80u8
    } else {
        0u8
    };
    assert(s.bits_spec() == c | z | i | d | 0 | 0x20 | v | n);
    assert(((c | z | i | d | 0 | 0x20 | v | n) & 0x20 != 0) && ((c | z | i | d | 0 | 0x20 | v | n)
        & 0x10 == 0)) by (bit_vector)
        requires
            c == 0 || c == 0x01,
            z == 0 || z == 0x02,
            i == 0 || i == 0x04,
            d == 0 || d == 0x08,
            v == 0 || v == 0x40,
            n == 0 || n == 0x80,
    ;
}

pub struct Cpu {
    pub pc: u16,
    pub sp: u8,
    pub a: u8,
    pub x: u8,
    pub y: u8,
    pub status: StatusFlags,
    pub halted: bool,

    pub bus: Bus,

    pub cycles: u64,
}

impl Cpu {
    /// The invariant every step preserves: the fixed status bits hold their
    /// architectural values and the bus regions keep their sizes.
    pub open spec fn wf(&self) -> bool {
        &&& self.status.unused
        &&& !self.status.break_command
        &&& self.bus.wf()
    }

    pub fn new(bus: Bus) -> (r: Cpu)
        requires
            bus.wf(),
        ensures
            r.wf(),
            r.pc == 0,
            r.sp == 0xFD,
            r.a == 0,
            r.x == 0,
            r.y == 0,
            r.status == StatusFlags::initial_spec(),
            !r.halted,
            r.bus == bus,
            r.cycles == 0,
    {
        Cpu {
            pc: 0,
            sp: 0xFD,
            a: 0,
            x: 0,
            y: 0,
            status: StatusFlags::new(),
            halted: false,
            bus,
            cycles: 0,
        }
    }

    /// Reset: registers cleared, SP forced to $FD, I and U forced, and PC
    /// loaded from the little-endian vector at $FFFC. The 7 reset cycles
    /// are charged to the cycle counter; the outer loop advances the PPU
    /// and APU to match.
    pub fn reset(&mut self)
        requires
            old(self).wf(),
        ensures
            final(self).wf(),
            final(self).bus.ppu.cycle == old(self).bus.ppu.cycle,
            final(self).bus.ppu.scanline == old(self).bus.ppu.scanline,
            final(self).bus.ppu.frame == old(self).bus.ppu.frame,
            final(self).a == 0,
            final(self).x == 0,
            final(self).y == 0,
            final(self).sp == 0xFD,
            final(self).status == StatusFlags::initial_spec(),
            !final(self).halted,
            final(self).cycles == old(self).cycles.wrapping_add(7),
            final(self).bus == old(self).bus,
            final(self).pc == (old(self).bus.cartridge.cpu_read_spec(0xFFFC) as u16) | ((old(self).bus.cartridge.cpu_read_spec(0xFFFD) as u16) << 8),
    {
        self.a = 0;
        self.x = 0;
        self.y = 0;
        self.sp = 0xFD;
        self.status = StatusFlags::new();
        self.halted = false;

        self.pc = self.read_u16(0xFFFC);
        self.cycles = self.cycles.wrapping_add(7);
    }

    /// A little-endian 16-bit read; the high byte's address wraps at the
    /// top of the address space.
    pub fn read_u16(&mut self, address: u16) -> (r: u16)
        requires
            old(self).wf(),
        ensures
            final(self).wf(),
            final(self).bus.ppu.cycle == old(self).bus.ppu.cycle,
            final(self).bus.ppu.scanline == old(self).bus.ppu.scanline,
            final(self).bus.ppu.frame == old(self).bus.ppu.frame,
            final(self).pc == old(self).pc,
            final(self).sp == old(self).sp,
            final(self).a == old(self).a,
            final(self).x == old(self).x,
            final(self).y == old(self).y,
            final(self).status == old(self).status,
            final(self).halted == old(self).halted,
            final(self).cycles == old(self).cycles,
            final(self).bus.ram == old(self).bus.ram,
            final(self).bus.cartridge == old(self).bus.cartridge,
            final(self).bus.nmi_pending == old(self).bus.nmi_pending,
            final(self).bus.irq_pending == old(self).bus.irq_pending,
            final(self).bus.dma_stall == old(self).bus.dma_stall,
            final(self).bus.odd_cycle == old(self).bus.odd_cycle,
            0x4020 <= address < 0xFFFF ==> r == (old(self).bus.cartridge.cpu_read_spec(address)
                as u16) | ((old(self).bus.cartridge.cpu_read_spec((address + 1) as u16) as u16)
                << 8) && *final(self) == *old(self),
            address < 0x1FFF ==> r == (old(self).bus.ram@[(address & 0x07FF) as int] as u16) | ((
            old(self).bus.ram@[(((address + 1) as u16) & 0x07FF) as int] as u16) << 8) && *final(self)
                == *old(self),
    {
        let low_byte = self.bus.read(address) as u16;
        let high_byte = self.bus.read(address.wrapping_add(1)) as u16;
        low_byte | (high_byte << 8)
    }

    /// Pushes one byte at $0100 | SP; the stack pointer wraps within the
    /// page and the zero page is never touched.
    pub fn stack_push(&mut self, value: u8)
        requires
            old(self).wf(),
        ensures
            final(self).wf(),
            final(self).bus.ppu.cycle == old(self).bus.ppu.cycle,
            final(self).bus.ppu.scanline == old(self).bus.ppu.scanline,
            final(self).bus.ppu.frame == old(self).bus.ppu.frame,
            final(self).bus.ram@ == old(self).bus.ram@.update(0x100 + old(self).sp as int, value),
            forall|i: int| 0 <= i < 0x100 ==> final(self).bus.ram@[i] == old(self).bus.ram@[i],
            final(self).sp == old(self).sp.wrapping_sub(1),
            final(self).pc == old(self).pc,
            final(self).a == old(self).a,
            final(self).x == old(self).x,
            final(self).y == old(self).y,
            final(self).status == old(self).status,
            final(self).halted == old(self).halted,
            final(self).cycles == old(self).cycles,
            final(self).bus == (Bus {
                ram: final(self).bus.ram,
                ..old(self).bus
            }),
    {
        let address: u16 = 0x0100 + self.sp as u16;
        proof {
            let sp = self.sp;
            assert(((0x0100 + sp as u16) as u16 & 0x07FF) == 0x0100 + sp as u16) by (bit_vector);
        }
        self.bus.write(address, value);
        self.sp = self.sp.wrapping_sub(1);
    }

    /// Pulls one byte from $0100 | (SP + 1).
    pub fn stack_pop(&mut self) -> (r: u8)
        requires
            old(self).wf(),
        ensures
            final(self).wf(),
            final(self).bus.ppu.cycle == old(self).bus.ppu.cycle,
            final(self).bus.ppu.scanline == old(self).bus.ppu.scanline,
            final(self).bus.ppu.frame == old(self).bus.ppu.frame,
            final(self).sp == old(self).sp.wrapping_add(1),
            r == old(self).bus.ram@[0x100 + old(self).sp.wrapping_add(1) as int],
            final(self).pc == old(self).pc,
            final(self).a == old(self).a,
            final(self).x == old(self).x,
            final(self).y == old(self).y,
            final(self).status == old(self).status,
            final(self).halted == old(self).halted,
            final(self).cycles == old(self).cycles,
            final(self).bus == old(self).bus,
    {
        self.sp = self.sp.wrapping_add(1);
        let address: u16 = 0x0100 + self.sp as u16;
        proof {
            let sp = self.sp;
            assert(((0x0100 + sp as u16) as u16 & 0x07FF) == 0x0100 + sp as u16) by (bit_vector);
        }
        self.bus.read(address)
    }

    /// Pushes a 16-bit value, high byte first.
    pub fn stack_push_u16(&mut self, value: u16)
        requires
            old(self).wf(),
        ensures
            final(self).wf(),
            final(self).bus.ppu.cycle == old(self).bus.ppu.cycle,
            final(self).bus.ppu.scanline == old(self).bus.ppu.scanline,
            final(self).bus.ppu.frame == old(self).bus.ppu.frame,
            final(self).bus.ram@ == old(self).bus.ram@.update(
                0x100 + old(self).sp as int,
                (value >> 8) as u8,
            ).update(0x100 + old(self).sp.wrapping_sub(1) as int, (value & 0xFF) as u8),
            forall|i: int| 0 <= i < 0x100 ==> final(self).bus.ram@[i] == old(self).bus.ram@[i],
            final(self).sp == old(self).sp.wrapping_sub(2),
            final(self).pc == old(self).pc,
            final(self).a == old(self).a,
            final(self).x == old(self).x,
            final(self).y == old(self).y,
            final(self).status == old(self).status,
            final(self).halted == old(self).halted,
            final(self).cycles == old(self).cycles,
            final(self).bus == (Bus {
                ram: final(self).bus.ram,
                ..old(self).bus
            }),
    {
        let high_byte = (value >> 8) as u8;
        let low_byte = (value & 0xFF) as u8;
        self.stack_push(high_byte);
        self.stack_push(low_byte);
    }

    /// Pulls a 16-bit value, low byte first.
    pub fn stack_pop_u16(&mut self) -> (r: u16)
        requires
            old(self).wf(),
        ensures
            final(self).wf(),
            final(self).bus.ppu.cycle == old(self).bus.ppu.cycle,
            final(self).bus.ppu.scanline == old(self).bus.ppu.scanline,
            final(self).bus.ppu.frame == old(self).bus.ppu.frame,
            final(self).sp == old(self).sp.wrapping_add(2),
            r == (old(self).bus.ram@[0x100 + old(self).sp.wrapping_add(1) as int] as u16) | ((old(self).bus.ram@[0x100 + old(self).sp.wrapping_add(2) as int] as u16) << 8),
            final(self).pc == old(self).pc,
            final(self).a == old(self).a,
            final(self).x == old(self).x,
            final(self).y == old(self).y,
            final(self).status == old(self).status,
            final(self).halted == old(self).halted,
            final(self).cycles == old(self).cycles,
            final(self).bus == old(self).bus,
    {
        let low_byte = self.stack_pop() as u16;
        let high_byte = self.stack_pop() as u16;
        low_byte | (high_byte << 8)
    }

    /// Z tracks whether the value is zero.
    pub fn set_zero_flag(&mut self, value: u8)
        ensures
            *final(self) == (Cpu {
                status: (StatusFlags { zero: value == 0, ..old(self).status }),
                ..*old(self)
            }),
    {
        self.status.zero = value == 0;
    }

    /// N tracks bit 7 of the value.
    pub fn set_negative_flag(&mut self, value: u8)
        ensures
            *final(self) == (Cpu {
                status: (StatusFlags { negative: value & 0x80 != 0, ..old(self).status }),
                ..*old(self)
            }),
    {
        self.status.negative = value & 0x80 != 0;
    }

    /// Z and N from one value, as every load and arithmetic result sets them.
    pub fn set_zero_and_negative_flags(&mut self, value: u8)
        ensures
            *final(self) == (Cpu {
                status: (StatusFlags {
                    zero: value == 0,
                    negative: value & 0x80 != 0,
                    ..old(self).status
                }),
                ..*old(self)
            }),
    {
        self.set_zero_flag(value);
        self.set_negative_flag(value);
    }

    /// Loads A and sets Z and N from it.
    pub fn set_register_a(&mut self, value: u8)
        ensures
            *final(self) == (Cpu {
                a: value,
                status: (StatusFlags {
                    zero: value == 0,
                    negative: value & 0x80 != 0,
                    ..old(self).status
                }),
                ..*old(self)
            }),
    {
        self.a = value;
        self.set_zero_and_negative_flags(value);
    }

    /// Loads X and sets Z and N from it.
    pub fn set_register_x(&mut self, value: u8)
        ensures
            *final(self) == (Cpu {
                x: value,
                status: (StatusFlags {
                    zero: value == 0,
                    negative: value & 0x80 != 0,
                    ..old(self).status
                }),
                ..*old(self)
            }),
    {
        self.x = value;
        self.set_zero_and_negative_flags(value);
    }

    /// Loads Y and sets Z and N from it.
    pub fn set_register_y(&mut self, value: u8)
        ensures
            *final(self) == (Cpu {
                y: value,
                status: (StatusFlags {
                    zero: value == 0,
                    negative: value & 0x80 != 0,
                    ..old(self).status
                }),
                ..*old(self)
            }),
    {
        self.y = value;
        self.set_zero_and_negative_flags(value);
    }

    /// Services an interrupt: PC and P (with B clear, U set) are pushed, I
    /// is set, and PC loads from the vector.
    pub fn handle_interrupt(&mut self, interrupt_vector: u16)
        requires
            old(self).wf(),
            interrupt_vector == 0xFFFA || interrupt_vector == 0xFFFE,
        ensures
            final(self).wf(),
            final(self).bus.ppu.cycle == old(self).bus.ppu.cycle,
            final(self).bus.ppu.scanline == old(self).bus.ppu.scanline,
            final(self).bus.ppu.frame == old(self).bus.ppu.frame,
            final(self).sp == old(self).sp.wrapping_sub(3),
            final(self).status == (StatusFlags {
                interrupt_disable: true,
                ..old(self).status
            }),
            final(self).a == old(self).a,
            final(self).x == old(self).x,
            final(self).y == old(self).y,
            final(self).halted == old(self).halted,
            final(self).cycles == old(self).cycles,
            final(self).pc == (old(self).bus.cartridge.cpu_read_spec(interrupt_vector) as u16) | ((
            old(self).bus.cartridge.cpu_read_spec((interrupt_vector + 1) as u16) as u16) << 8),
            final(self).bus.ram@ == old(self).bus.ram@.update(
                0x100 + old(self).sp as int,
                (old(self).pc >> 8) as u8,
            ).update(0x100 + old(self).sp.wrapping_sub(1) as int, (old(self).pc & 0xFF) as u8)
                .update(
                0x100 + old(self).sp.wrapping_sub(2) as int,
                old(self).status.push_bits_spec(false),
            ),
            forall|i: int| 0 <= i < 0x100 ==> final(self).bus.ram@[i] == old(self).bus.ram@[i],
            final(self).bus == (Bus {
                ram: final(self).bus.ram,
                ..old(self).bus
            }),
    {
        self.stack_push_u16(self.pc);

        let pushed = self.status.push_bits(false);
        self.stack_push(pushed);

        self.status.interrupt_disable = true;

        self.pc = self.read_u16(interrupt_vector);
    }

    /// Runs one complete instruction and returns its cycle count: the
    /// table's base cycles plus the page-cross and branch-taken bonuses,
    /// plus an OAM-DMA stall of 513 or 514 cycles when the instruction
    /// triggered one. Interrupts are polled first: a pending NMI, or a
    /// pending IRQ with I clear, is serviced instead at 7 cycles. The fixed
    /// status bits U = 1 and B = 0 hold afterwards, as `wf` states.
    #[verifier::rlimit(100)]
    pub fn step(&mut self) -> (cycles: u64)
        requires
            old(self).wf(),
        ensures
            final(self).wf(),
            final(self).bus.ppu.cycle == old(self).bus.ppu.cycle,
            final(self).bus.ppu.scanline == old(self).bus.ppu.scanline,
            final(self).bus.ppu.frame == old(self).bus.ppu.frame,
            final(self).status.unused,
            !final(self).status.break_command,
            1 <= cycles <= 8 + 2 + 514,
            final(self).cycles == old(self).cycles.wrapping_add(cycles),
            old(self).bus.nmi_pending ==> cycles == 7 && final(self).status.interrupt_disable
                && final(self).sp == old(self).sp.wrapping_sub(3) && final(self).pc == (old(self).bus.cartridge.cpu_read_spec(0xFFFA) as u16) | ((old(self).bus.cartridge.cpu_read_spec(0xFFFB) as u16) << 8),
            !old(self).bus.nmi_pending && old(self).bus.irq_pending && !old(self).status.interrupt_disable ==> cycles == 7 && final(self).status.interrupt_disable
                && final(self).sp == old(self).sp.wrapping_sub(3) && final(self).pc == (old(self).bus.cartridge.cpu_read_spec(0xFFFE) as u16) | ((old(self).bus.cartridge.cpu_read_spec(0xFFFF) as u16) << 8),
            !old(self).bus.nmi_pending && !(old(self).bus.irq_pending && !old(self).status.interrupt_disable) && old(self).pc >= 0x4020 ==> ({
                let b = old(self).bus.cartridge.cpu_read_spec(old(self).pc);
                &&& opcode::base_cycles_spec(b) <= cycles
                &&& cycles <= opcode::base_cycles_spec(b) + 2 + 514
                &&& (opcode::instruction_spec(b) matches Instruction::KIL ==> final(self).halted)
            }),
            // The committed instruction costs exactly its table entry's base
            // cycles plus the page-cross and branch-taken bonuses; an
            // OAM-DMA write alone adds its 513- or 514-cycle stall on top.
            !old(self).bus.nmi_pending && !(old(self).bus.irq_pending && !old(self).status.interrupt_disable) && addressing::pure_byte_region_spec(old(self).pc) ==> ({
                let b = addressing::pure_byte_spec(
                    old(self).bus.ram@,
                    old(self).bus.cartridge,
                    old(self).pc,
                );
                let operand_pc = addressing::word_add_spec(old(self).pc, 1);
                instructions::extra_cycles_pure_spec(
                    old(self).bus.ram@,
                    old(self).bus.cartridge,
                    opcode::instruction_spec(b),
                    opcode::mode_spec(b),
                    operand_pc,
                ) ==> ({
                    let base = opcode::base_cycles_spec(b) as u64;
                    let extra = instructions::extra_cycles_spec(
                        old(self).bus.ram@,
                        old(self).bus.cartridge,
                        old(self).status,
                        old(self).x,
                        old(self).y,
                        opcode::instruction_spec(b),
                        opcode::mode_spec(b),
                        operand_pc,
                    ) as u64;
                    ||| cycles == base + extra
                    ||| cycles == base + extra + 513
                    ||| cycles == base + extra + 514
                })
            }),
            final(self).bus.nmi_pending == false || !old(self).bus.nmi_pending,
    {
        self.bus.odd_cycle = self.cycles % 2 == 1;

        if self.bus.poll_nmi() {
            self.handle_interrupt(0xFFFA);
            self.cycles = self.cycles.wrapping_add(7);
            return 7;
        }
        let irq = self.bus.poll_irq();
        if irq && !self.status.interrupt_disable {
            self.handle_interrupt(0xFFFE);
            self.cycles = self.cycles.wrapping_add(7);
            return 7;
        }

        let pc = self.pc;
        let opcode_byte = self.bus.read(pc);
        self.pc = self.pc.wrapping_add(1);
        proof {
            addressing::lemma_mod_65536(pc as int + 1);
        }

        let op = Opcode::lookup(opcode_byte);
        let operand_pc = self.pc;

        // Control-flow instructions compute their own destination; every
        // other instruction has PC moved past its operands first.
        if !op.instruction.is_control_flow() {
            self.pc = self.pc.wrapping_add((op.size_bytes - 1) as u16);
        }

        let cycles_before = self.cycles;
        let extra = self.execute_instruction(op, operand_pc);
        let stall = self.bus.take_dma_stall();

        let cycles: u64 = op.cycles as u64 + extra as u64 + stall;
        self.cycles = cycles_before.wrapping_add(cycles);

        cycles
    }
}


/// Pushing the accumulator and pulling it straight back returns the pushed
/// value: the stack page cell written by PHA at $0100 | SP is exactly the
/// cell PLA reads after the pointer dips and recovers.
pub proof fn lemma_stack_push_pull_roundtrip(ram: Seq<u8>, sp: u8, a: u8)
    requires
        ram.len() == 2048,
    ensures
        ram.update(0x100 + sp as int, a)[0x100 + (sp.wrapping_sub(1)).wrapping_add(1) as int]
            == a,
{
    assert((sp.wrapping_sub(1)).wrapping_add(1) == sp) by (bit_vector);
}

} // verus!

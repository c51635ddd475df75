//! The thirteen 6502 addressing modes, resolved to an effective address and
//! a page-crossing flag.

use vstd::prelude::*;

verus! {

use super::Cpu;

#[derive(Clone, Copy, Debug, PartialEq, Eq, Structural)]
pub enum AddressingMode {
    Implied,
    Accumulator,
    Immediate,
    ZeroPage,
    ZeroPageX,
    ZeroPageY,
    Relative,
    Absolute,
    AbsoluteX,
    AbsoluteY,
    Indirect,
    IndirectX,
    IndirectY,
}

/// Where the high byte of an indirect JMP pointer is fetched: the 6502 does
/// not carry into the high byte, so a pointer ending in $FF wraps to the
/// start of its own page.
pub open spec fn indirect_high_addr_spec(pointer: u16) -> u16 {
    if pointer & 0x00FF == 0x00FF {
        (pointer & 0xFF00) as u16
    } else {
        (pointer + 1) as u16
    }
}

/// The indirect-JMP page-wrap law: for any pointer on a page boundary the
/// high byte comes from the same page, never from the next one.
pub proof fn lemma_indirect_jmp_page_wrap(pointer: u16)
    requires
        pointer & 0x00FF == 0x00FF,
    ensures
        indirect_high_addr_spec(pointer) == pointer & 0xFF00,
        indirect_high_addr_spec(pointer) != pointer + 1,
{
    assert((pointer & 0xFF00) != pointer + 1 || !(pointer & 0x00FF == 0x00FF)) by (bit_vector);
}

/// Whether two addresses lie in different 256-byte pages.
pub open spec fn page_crossed_spec(base: u16, address: u16) -> bool {
    base & 0xFF00 != address & 0xFF00
}

/// The byte a CPU read returns at a side-effect-free address: work RAM
/// below $2000 or cartridge space from $4020 up.
pub open spec fn pure_byte_spec(ram: Seq<u8>, cart: crate::cartridge::Cartridge, address: u16) -> u8 {
    if address < 0x2000 {
        ram[(address & 0x07FF) as int]
    } else {
        cart.cpu_read_spec(address)
    }
}

/// The addresses whose CPU reads have no side effect: work RAM and
/// cartridge space.
pub open spec fn pure_byte_region_spec(address: u16) -> bool {
    address < 0x2000 || 0x4020 <= address
}

/// The addresses from which a little-endian word read, both bytes included,
/// has no side effect.
pub open spec fn pure_word_region_spec(address: u16) -> bool {
    address < 0x1FFF || (0x4020 <= address < 0xFFFF)
}

/// The little-endian word at a side-effect-free address.
pub open spec fn pure_word_spec(ram: Seq<u8>, cart: crate::cartridge::Cartridge, address: u16) -> u16 {
    (pure_byte_spec(ram, cart, address) as u16) | ((pure_byte_spec(
        ram,
        cart,
        ((address + 1) % 0x10000) as u16,
    ) as u16) << 8)
}

/// A 16-bit add that wraps, as the 6502's address arithmetic does.
pub open spec fn word_add_spec(a: u16, b: u16) -> u16 {
    ((a + b) % 0x10000) as u16
}

/// A byte sign-extended to 16 bits, as a relative branch offset is.
pub open spec fn sign_extend_spec(b: u8) -> u16 {
    if b < 0x80 {
        b as u16
    } else {
        (b as u16 | 0xFF00) as u16
    }
}

/// Whether a mode's operand fetches touch only side-effect-free addresses,
/// so that the resolved address is a function of RAM, the cartridge, and
/// the registers alone. The zero-page pointer fetches of the pre- and
/// post-indexed indirect modes always are; the indirect JMP pointer itself
/// must be.
pub open spec fn operand_pure_spec(
    ram: Seq<u8>,
    cart: crate::cartridge::Cartridge,
    mode: AddressingMode,
    pc: u16,
) -> bool {
    match mode {
        AddressingMode::Implied | AddressingMode::Accumulator | AddressingMode::Immediate => true,
        AddressingMode::ZeroPage | AddressingMode::ZeroPageX | AddressingMode::ZeroPageY
            | AddressingMode::Relative | AddressingMode::IndirectX
            | AddressingMode::IndirectY => pure_byte_region_spec(pc),
        AddressingMode::Absolute | AddressingMode::AbsoluteX
            | AddressingMode::AbsoluteY => pure_word_region_spec(pc),
        AddressingMode::Indirect => pure_word_region_spec(pc) && ({
            let pointer = pure_word_spec(ram, cart, pc);
            pure_byte_region_spec(pointer) && pure_byte_region_spec(
                indirect_high_addr_spec(pointer),
            )
        }),
    }
}

/// The effective address and page-crossing flag each mode resolves to, as a
/// function of RAM, the cartridge, the index registers, and the program
/// counter, for operand bytes in side-effect-free regions. The indirect
/// mode goes through `indirect_high_addr_spec`, so it carries the JMP
/// page-wrap quirk.
pub open spec fn resolved_operand_spec(
    ram: Seq<u8>,
    cart: crate::cartridge::Cartridge,
    x: u8,
    y: u8,
    pc_reg: u16,
    mode: AddressingMode,
    pc: u16,
) -> (u16, bool) {
    match mode {
        AddressingMode::Implied | AddressingMode::Accumulator => (0u16, false),
        AddressingMode::Immediate => (pc, false),
        AddressingMode::ZeroPage => (pure_byte_spec(ram, cart, pc) as u16, false),
        AddressingMode::ZeroPageX => (
            ((pure_byte_spec(ram, cart, pc) + x) % 256) as u16,
            false,
        ),
        AddressingMode::ZeroPageY => (
            ((pure_byte_spec(ram, cart, pc) + y) % 256) as u16,
            false,
        ),
        AddressingMode::Relative => ({
            let target = word_add_spec(pc_reg, sign_extend_spec(pure_byte_spec(ram, cart, pc)));
            (target, page_crossed_spec(pc_reg, target))
        }),
        AddressingMode::Absolute => (pure_word_spec(ram, cart, pc), false),
        AddressingMode::AbsoluteX => ({
            let base = pure_word_spec(ram, cart, pc);
            let address = word_add_spec(base, x as u16);
            (address, page_crossed_spec(base, address))
        }),
        AddressingMode::AbsoluteY => ({
            let base = pure_word_spec(ram, cart, pc);
            let address = word_add_spec(base, y as u16);
            (address, page_crossed_spec(base, address))
        }),
        AddressingMode::Indirect => ({
            let pointer = pure_word_spec(ram, cart, pc);
            let low = pure_byte_spec(ram, cart, pointer) as u16;
            let high = pure_byte_spec(ram, cart, indirect_high_addr_spec(pointer)) as u16;
            ((high << 8) | low, false)
        }),
        AddressingMode::IndirectX => ({
            let pointer = (pure_byte_spec(ram, cart, pc) + x) % 256;
            let low = ram[pointer as int] as u16;
            let high = ram[((pointer + 1) % 256) as int] as u16;
            ((high << 8) | low, false)
        }),
        AddressingMode::IndirectY => ({
            let pointer = pure_byte_spec(ram, cart, pc);
            let low = ram[pointer as int] as u16;
            let high = ram[((pointer + 1) % 256) as int] as u16;
            let base = ((high << 8) | low) as u16;
            let address = word_add_spec(base, y as u16);
            (address, page_crossed_spec(base, address))
        }),
    }
}

/// The modulus a wrapping byte sum reduces by, written out for the solver.
pub(crate) proof fn lemma_mod_256(s: int)
    requires
        0 <= s < 512,
    ensures
        s % 256 == if s >= 256 {
            s - 256
        } else {
            s
        },
{
    if s >= 256 {
        assert(s % 256 == (s - 256) % 256) by (nonlinear_arith)
            requires
                256 <= s < 512,
        ;
        vstd::arithmetic::div_mod::lemma_small_mod((s - 256) as nat, 256nat);
    } else {
        vstd::arithmetic::div_mod::lemma_small_mod(s as nat, 256nat);
    }
}

/// The modulus a wrapping word sum reduces by, written out for the solver.
pub(crate) proof fn lemma_mod_65536(s: int)
    requires
        0 <= s < 0x20000,
    ensures
        s % 0x10000 == if s >= 0x10000 {
            s - 0x10000
        } else {
            s
        },
{
    if s >= 0x10000 {
        assert(s % 0x10000 == (s - 0x10000) % 0x10000) by (nonlinear_arith)
            requires
                0x10000 <= s < 0x20000,
        ;
        vstd::arithmetic::div_mod::lemma_small_mod((s - 0x10000) as nat, 0x10000nat);
    } else {
        vstd::arithmetic::div_mod::lemma_small_mod(s as nat, 0x10000nat);
    }
}

/// Whether a mode's operand value is itself a function of RAM and the
/// cartridge: the fetches and the resolved address all lie in
/// side-effect-free regions.
pub open spec fn operand_value_pure_spec(
    ram: Seq<u8>,
    cart: crate::cartridge::Cartridge,
    x: u8,
    y: u8,
    pc_reg: u16,
    mode: AddressingMode,
    pc: u16,
) -> bool {
    operand_pure_spec(ram, cart, mode, pc) && pure_byte_region_spec(
        resolved_operand_spec(ram, cart, x, y, pc_reg, mode, pc).0,
    )
}

/// The operand byte a mode fetches, when it is pure: the accumulator, the
/// immediate byte, or the byte under the resolved address.
pub open spec fn operand_value_spec(
    ram: Seq<u8>,
    cart: crate::cartridge::Cartridge,
    a: u8,
    x: u8,
    y: u8,
    pc_reg: u16,
    mode: AddressingMode,
    pc: u16,
) -> u8 {
    match mode {
        AddressingMode::Accumulator => a,
        AddressingMode::Immediate => pure_byte_spec(ram, cart, pc),
        _ => pure_byte_spec(ram, cart, resolved_operand_spec(ram, cart, x, y, pc_reg, mode, pc).0),
    }
}

impl Cpu {
    /// The address the high pointer byte of an indirect JMP is read from.
    pub fn indirect_high_addr(pointer: u16) -> (r: u16)
        ensures
            r == indirect_high_addr_spec(pointer),
    {
        if pointer & 0x00FF == 0x00FF {
            pointer & 0xFF00
        } else {
            proof {
                let p = pointer;
                assert(p & 0x00FF != 0x00FF ==> p < 0xFFFF) by (bit_vector);
            }
            pointer + 1
        }
    }

    /// Resolves an addressing mode to `(effective_address, page_crossed)`.
    /// Zero-page modes wrap within the zero page and never cross; absolute
    /// indexed modes and post-indexed indirect report a crossing when the
    /// index carries into the high byte; the indirect mode reproduces the
    /// page-wrap quirk of the JMP pointer fetch.
    pub fn get_operand_address(&mut self, mode: AddressingMode, pc: u16) -> (r: (u16, bool))
        requires
            old(self).wf(),
        ensures
            final(self).wf(),
            final(self).bus.ppu.cycle == old(self).bus.ppu.cycle,
            final(self).bus.ppu.scanline == old(self).bus.ppu.scanline,
            final(self).bus.ppu.frame == old(self).bus.ppu.frame,
            final(self).pc == old(self).pc,
            final(self).sp == old(self).sp,
            final(self).a == old(self).a,
            final(self).x == old(self).x,
            final(self).y == old(self).y,
            final(self).status == old(self).status,
            final(self).halted == old(self).halted,
            final(self).cycles == old(self).cycles,
            final(self).bus.ram == old(self).bus.ram,
            final(self).bus.nmi_pending == old(self).bus.nmi_pending,
            final(self).bus.irq_pending == old(self).bus.irq_pending,
            final(self).bus.dma_stall == old(self).bus.dma_stall,
            final(self).bus.odd_cycle == old(self).bus.odd_cycle,
            final(self).bus.cartridge == old(self).bus.cartridge,
            mode == AddressingMode::Implied || mode == AddressingMode::Accumulator ==> r == (
                0u16,
                false,
            ) && *final(self) == *old(self),
            mode == AddressingMode::Immediate ==> r == (pc, false) && *final(self) == *old(self),
            mode == AddressingMode::ZeroPage || mode == AddressingMode::ZeroPageX || mode
                == AddressingMode::ZeroPageY ==> r.0 < 0x100 && r.1 == false,
            mode == AddressingMode::Absolute || mode == AddressingMode::Indirect || mode
                == AddressingMode::IndirectX ==> r.1 == false,
            operand_pure_spec(old(self).bus.ram@, old(self).bus.cartridge, mode, pc) ==> r
                == resolved_operand_spec(
                old(self).bus.ram@,
                old(self).bus.cartridge,
                old(self).x,
                old(self).y,
                old(self).pc,
                mode,
                pc,
            ) && *final(self) == *old(self),
    {
        match mode {
            AddressingMode::Implied | AddressingMode::Accumulator => (0, false),
            AddressingMode::Immediate => (pc, false),
            AddressingMode::ZeroPage => {
                let address = self.bus.read(pc) as u16;
                (address, false)
            },
            AddressingMode::ZeroPageX => {
                let base = self.bus.read(pc);
                let address = base.wrapping_add(self.x) as u16;
                proof {
                    lemma_mod_256(base as int + self.x as int);
                }
                (address, false)
            },
            AddressingMode::ZeroPageY => {
                let base = self.bus.read(pc);
                let address = base.wrapping_add(self.y) as u16;
                proof {
                    lemma_mod_256(base as int + self.y as int);
                }
                (address, false)
            },
            _ => self.get_operand_address_wide(mode, pc),
        }
    }

    /// The modes whose operand is a full word or goes through a branch
    /// offset: relative branches and the absolute family; the indirect modes
    /// are delegated.
    fn get_operand_address_wide(&mut self, mode: AddressingMode, pc: u16) -> (r: (u16, bool))
        requires
            old(self).wf(),
            (mode matches (AddressingMode::Relative | AddressingMode::Absolute
                | AddressingMode::AbsoluteX | AddressingMode::AbsoluteY | AddressingMode::Indirect
                | AddressingMode::IndirectX | AddressingMode::IndirectY)),
        ensures
            final(self).wf(),
            final(self).bus.ppu.cycle == old(self).bus.ppu.cycle,
            final(self).bus.ppu.scanline == old(self).bus.ppu.scanline,
            final(self).bus.ppu.frame == old(self).bus.ppu.frame,
            final(self).pc == old(self).pc,
            final(self).sp == old(self).sp,
            final(self).a == old(self).a,
            final(self).x == old(self).x,
            final(self).y == old(self).y,
            final(self).status == old(self).status,
            final(self).halted == old(self).halted,
            final(self).cycles == old(self).cycles,
            final(self).bus.ram == old(self).bus.ram,
            final(self).bus.nmi_pending == old(self).bus.nmi_pending,
            final(self).bus.irq_pending == old(self).bus.irq_pending,
            final(self).bus.dma_stall == old(self).bus.dma_stall,
            final(self).bus.odd_cycle == old(self).bus.odd_cycle,
            final(self).bus.cartridge == old(self).bus.cartridge,
            mode == AddressingMode::Absolute || mode == AddressingMode::Indirect || mode
                == AddressingMode::IndirectX ==> r.1 == false,
            operand_pure_spec(old(self).bus.ram@, old(self).bus.cartridge, mode, pc) ==> r
                == resolved_operand_spec(
                old(self).bus.ram@,
                old(self).bus.cartridge,
                old(self).x,
                old(self).y,
                old(self).pc,
                mode,
                pc,
            ) && *final(self) == *old(self),
    {
        match mode {
            AddressingMode::Relative => {
                let offset = self.bus.read(pc);
                let delta: u16 = if offset < 0x80 {
                    offset as u16
                } else {
                    (offset as u16) | 0xFF00
                };
                let address = self.pc.wrapping_add(delta);
                proof {
                    lemma_mod_65536(self.pc as int + delta as int);
                }
                (address, (self.pc & 0xFF00) != (address & 0xFF00))
            },
            AddressingMode::Absolute => {
                let address = self.read_u16(pc);
                (address, false)
            },
            AddressingMode::AbsoluteX => {
                let base = self.read_u16(pc);
                let address = base.wrapping_add(self.x as u16);
                proof {
                    lemma_mod_65536(base as int + self.x as int);
                }
                (address, (base & 0xFF00) != (address & 0xFF00))
            },
            AddressingMode::AbsoluteY => {
                let base = self.read_u16(pc);
                let address = base.wrapping_add(self.y as u16);
                proof {
                    lemma_mod_65536(base as int + self.y as int);
                }
                (address, (base & 0xFF00) != (address & 0xFF00))
            },
            _ => self.get_operand_address_indirect(mode, pc),
        }
    }

    /// The three indirect modes: the JMP pointer with its page-wrap quirk,
    /// and the pre- and post-indexed zero-page pointers.
    fn get_operand_address_indirect(&mut self, mode: AddressingMode, pc: u16) -> (r: (u16, bool))
        requires
            old(self).wf(),
            (mode matches (AddressingMode::Indirect | AddressingMode::IndirectX
                | AddressingMode::IndirectY)),
        ensures
            final(self).wf(),
            final(self).bus.ppu.cycle == old(self).bus.ppu.cycle,
            final(self).bus.ppu.scanline == old(self).bus.ppu.scanline,
            final(self).bus.ppu.frame == old(self).bus.ppu.frame,
            final(self).pc == old(self).pc,
            final(self).sp == old(self).sp,
            final(self).a == old(self).a,
            final(self).x == old(self).x,
            final(self).y == old(self).y,
            final(self).status == old(self).status,
            final(self).halted == old(self).halted,
            final(self).cycles == old(self).cycles,
            final(self).bus.ram == old(self).bus.ram,
            final(self).bus.nmi_pending == old(self).bus.nmi_pending,
            final(self).bus.irq_pending == old(self).bus.irq_pending,
            final(self).bus.dma_stall == old(self).bus.dma_stall,
            final(self).bus.odd_cycle == old(self).bus.odd_cycle,
            final(self).bus.cartridge == old(self).bus.cartridge,
            mode == AddressingMode::Indirect || mode == AddressingMode::IndirectX ==> r.1 == false,
            operand_pure_spec(old(self).bus.ram@, old(self).bus.cartridge, mode, pc) ==> r
                == resolved_operand_spec(
                old(self).bus.ram@,
                old(self).bus.cartridge,
                old(self).x,
                old(self).y,
                old(self).pc,
                mode,
                pc,
            ) && *final(self) == *old(self),
    {
        match mode {
            AddressingMode::Indirect => {
                let pointer = self.read_u16(pc);

                let low_byte = self.bus.read(pointer) as u16;
                let high_byte = self.bus.read(Self::indirect_high_addr(pointer)) as u16;

                let address = (high_byte << 8) | low_byte;
                (address, false)
            },
            AddressingMode::IndirectX => {
                let base = self.bus.read(pc);
                let pointer = base.wrapping_add(self.x);
                proof {
                    lemma_mod_256(base as int + self.x as int);
                    let p = pointer;
                    assert(((p as u16) & 0x07FF) == p as u16 && ((p.wrapping_add(1) as u16)
                        & 0x07FF) == p.wrapping_add(1) as u16) by (bit_vector);
                    lemma_mod_256(pointer as int + 1);
                }

                let low_byte = self.bus.read(pointer as u16) as u16;
                let high_byte = self.bus.read(pointer.wrapping_add(1) as u16) as u16;

                let address = (high_byte << 8) | low_byte;
                (address, false)
            },
            _ => {
                let pointer = self.bus.read(pc) as u16;

                proof {
                    let p = pointer;
                    assert((p & 0x07FF) == p && (((p + 1) as u16 & 0xFF) & 0x07FF) == ((p
                        + 1) as u16 & 0xFF) && ((p + 1) as u16 & 0xFF) == ((p + 1) as u16 % 256))
                        by (bit_vector)
                        requires
                            p < 0x100,
                    ;
                }
                let low_byte = self.bus.read(pointer) as u16;
                let high_byte = self.bus.read((pointer + 1) & 0xFF) as u16;

                let base = (high_byte << 8) | low_byte;
                let address = base.wrapping_add(self.y as u16);
                proof {
                    lemma_mod_65536(base as int + self.y as int);
                }
                (address, (base & 0xFF00) != (address & 0xFF00))
            },
        }
    }

    /// Fetches the operand value for a mode: the accumulator, the immediate
    /// byte, or the byte under the resolved address, with the crossing flag.
    pub fn read_operand(&mut self, mode: AddressingMode, pc: u16) -> (r: (u8, bool))
        requires
            old(self).wf(),
        ensures
            final(self).wf(),
            final(self).bus.ppu.cycle == old(self).bus.ppu.cycle,
            final(self).bus.ppu.scanline == old(self).bus.ppu.scanline,
            final(self).bus.ppu.frame == old(self).bus.ppu.frame,
            final(self).pc == old(self).pc,
            final(self).sp == old(self).sp,
            final(self).a == old(self).a,
            final(self).x == old(self).x,
            final(self).y == old(self).y,
            final(self).status == old(self).status,
            final(self).halted == old(self).halted,
            final(self).cycles == old(self).cycles,
            final(self).bus.ram == old(self).bus.ram,
            final(self).bus.nmi_pending == old(self).bus.nmi_pending,
            final(self).bus.irq_pending == old(self).bus.irq_pending,
            final(self).bus.dma_stall == old(self).bus.dma_stall,
            final(self).bus.odd_cycle == old(self).bus.odd_cycle,
            final(self).bus.cartridge == old(self).bus.cartridge,
            mode == AddressingMode::Accumulator ==> r == (old(self).a, false) && *final(self)
                == *old(self),
            mode == AddressingMode::ZeroPage || mode == AddressingMode::ZeroPageX || mode
                == AddressingMode::ZeroPageY || mode == AddressingMode::Implied || mode
                == AddressingMode::Immediate || mode == AddressingMode::Absolute || mode
                == AddressingMode::Indirect || mode == AddressingMode::IndirectX ==> r.1 == false,
            operand_pure_spec(old(self).bus.ram@, old(self).bus.cartridge, mode, pc) ==> r.1
                == resolved_operand_spec(
                old(self).bus.ram@,
                old(self).bus.cartridge,
                old(self).x,
                old(self).y,
                old(self).pc,
                mode,
                pc,
            ).1,
            operand_value_pure_spec(
                old(self).bus.ram@,
                old(self).bus.cartridge,
                old(self).x,
                old(self).y,
                old(self).pc,
                mode,
                pc,
            ) ==> r.0 == operand_value_spec(
                old(self).bus.ram@,
                old(self).bus.cartridge,
                old(self).a,
                old(self).x,
                old(self).y,
                old(self).pc,
                mode,
                pc,
            ) && *final(self) == *old(self),
    {
        match mode {
            AddressingMode::Accumulator => (self.a, false),
            AddressingMode::Immediate => {
                let value = self.bus.read(pc);
                (value, false)
            },
            _ => {
                let (address, page_crossed) = self.get_operand_address(mode, pc);
                let value = self.bus.read(address);
                (value, page_crossed)
            },
        }
    }
}

} // verus!

//! The 6502 instruction set: the mnemonic enum, the per-instruction
//! handlers, and the dispatcher. Each handler returns the extra cycles its
//! page-cross or branch-taken behaviour earned, and the dispatcher hands
//! that to the step's cycle accounting.

use vstd::prelude::*;

verus! {

use super::addressing::{
    operand_pure_spec, page_crossed_spec, pure_byte_region_spec, pure_byte_spec,
    resolved_operand_spec, sign_extend_spec, word_add_spec, AddressingMode,
};
use super::opcode::Opcode;
use super::{Cpu, StatusFlags};
use crate::bus::Bus;

#[derive(Clone, Copy, Debug, PartialEq, Eq, Structural)]
#[allow(clippy::upper_case_acronyms)]
pub enum Instruction {
    // Load/store operations.
    LDA,
    LDX,
    LDY,
    STA,
    STX,
    STY,
    // Register transfers.
    TAX,
    TAY,
    TXA,
    TYA,
    // Stack operations.
    TSX,
    TXS,
    PHA,
    PHP,
    PLA,
    PLP,
    // Logical.
    AND,
    EOR,
    ORA,
    BIT,
    // Arithmetic.
    ADC,
    SBC,
    CMP,
    CPX,
    CPY,
    // Increments and decrements.
    INC,
    INX,
    INY,
    DEC,
    DEX,
    DEY,
    // Shifts.
    ASL,
    LSR,
    ROL,
    ROR,
    // Jumps and calls.
    JMP,
    JSR,
    RTS,
    // Branches.
    BCC,
    BCS,
    BEQ,
    BMI,
    BNE,
    BPL,
    BVC,
    BVS,
    // Status flag changes.
    CLC,
    CLD,
    CLI,
    CLV,
    SEC,
    SED,
    SEI,
    // System functions.
    BRK,
    NOP,
    RTI,
    // Undocumented.
    AAC,
    AAX,
    ARR,
    ASR,
    ATX,
    AXA,
    AXS,
    DCP,
    DOP,
    ISC,
    KIL,
    LAR,
    LAX,
    RLA,
    RRA,
    SLO,
    SRE,
    SXA,
    SYA,
    TOP,
    XAA,
    XAS,
}

impl Instruction {
    /// Whether the instruction steers PC itself: such instructions compute
    /// their destination from the PC after the opcode byte, so the step
    /// must not pre-advance PC over the operands.
    pub open spec fn is_control_flow_spec(&self) -> bool {
        self matches Instruction::JMP || self matches Instruction::JSR
            || self matches Instruction::RTS || self matches Instruction::BCC
            || self matches Instruction::BCS || self matches Instruction::BEQ
            || self matches Instruction::BMI || self matches Instruction::BNE
            || self matches Instruction::BPL || self matches Instruction::BVC
            || self matches Instruction::BVS || self matches Instruction::BRK
            || self matches Instruction::RTI
    }


    /// The eight conditional branches.
    pub open spec fn is_branch_spec(&self) -> bool {
        self matches Instruction::BCC || self matches Instruction::BCS
            || self matches Instruction::BEQ || self matches Instruction::BMI
            || self matches Instruction::BNE || self matches Instruction::BPL
            || self matches Instruction::BVC || self matches Instruction::BVS
    }

    /// The instructions that pay one extra cycle when their operand fetch
    /// crosses a page; all others absorb the crossing in their base cost.
    pub open spec fn pays_page_cross_spec(&self) -> bool {
        self matches Instruction::LDA || self matches Instruction::LDX
            || self matches Instruction::LDY || self matches Instruction::AND
            || self matches Instruction::EOR || self matches Instruction::ORA
            || self matches Instruction::ADC || self matches Instruction::SBC
            || self matches Instruction::CMP || self matches Instruction::CPX
            || self matches Instruction::CPY || self matches Instruction::LAX
            || self matches Instruction::LAR || self matches Instruction::TOP
    }

    /// Whether the mnemonic belongs to the documented set.
    pub open spec fn is_documented_spec(&self) -> bool {
        !(self matches Instruction::AAC || self matches Instruction::AAX
            || self matches Instruction::ARR || self matches Instruction::ASR
            || self matches Instruction::ATX || self matches Instruction::AXA
            || self matches Instruction::AXS || self matches Instruction::DCP
            || self matches Instruction::DOP || self matches Instruction::ISC
            || self matches Instruction::KIL || self matches Instruction::LAR
            || self matches Instruction::LAX || self matches Instruction::RLA
            || self matches Instruction::RRA || self matches Instruction::SLO
            || self matches Instruction::SRE || self matches Instruction::SXA
            || self matches Instruction::SYA || self matches Instruction::TOP
            || self matches Instruction::XAA || self matches Instruction::XAS)
    }

    pub fn is_documented(&self) -> (r: bool)
        ensures
            r == self.is_documented_spec(),
    {
        !matches!(
            self,
            Instruction::AAC
                | Instruction::AAX
                | Instruction::ARR
                | Instruction::ASR
                | Instruction::ATX
                | Instruction::AXA
                | Instruction::AXS
                | Instruction::DCP
                | Instruction::DOP
                | Instruction::ISC
                | Instruction::KIL
                | Instruction::LAR
                | Instruction::LAX
                | Instruction::RLA
                | Instruction::RRA
                | Instruction::SLO
                | Instruction::SRE
                | Instruction::SXA
                | Instruction::SYA
                | Instruction::TOP
                | Instruction::XAA
                | Instruction::XAS
        )
    }

    pub fn is_control_flow(&self) -> (r: bool)
        ensures
            r == self.is_control_flow_spec(),
    {
        matches!(
            self,
            Instruction::JMP
                | Instruction::JSR
                | Instruction::RTS
                | Instruction::BCC
                | Instruction::BCS
                | Instruction::BEQ
                | Instruction::BMI
                | Instruction::BNE
                | Instruction::BPL
                | Instruction::BVC
                | Instruction::BVS
                | Instruction::BRK
                | Instruction::RTI
        )
    }
}

/// The ADC/SBC sum A + M + C over the 8-bit accumulator.
pub open spec fn adc_sum_spec(a: u8, value: u8, carry: bool) -> u8 {
    ((a + value + (if carry {
        1int
    } else {
        0int
    })) % 256) as u8
}

/// The carry out of the ADC/SBC sum.
pub open spec fn adc_carry_spec(a: u8, value: u8, carry: bool) -> bool {
    a + value + (if carry {
        1int
    } else {
        0int
    }) > 0xFF
}

/// The signed overflow of the ADC/SBC sum, the 6502 way: the result differs
/// in sign from both operands' expectation.
pub open spec fn adc_overflow_spec(a: u8, value: u8, carry: bool) -> bool {
    (value ^ adc_sum_spec(a, value, carry)) & (adc_sum_spec(a, value, carry) ^ a) & 0x80 != 0
}

/// The comparison flags: C when the register is at least the operand, Z and
/// N from the wrapped difference.
pub open spec fn compare_flags_spec(s: StatusFlags, value: u8, reg: u8) -> StatusFlags {
    StatusFlags {
        carry: value <= reg,
        zero: reg.wrapping_sub(value) == 0,
        negative: reg.wrapping_sub(value) & 0x80 != 0,
        ..s
    }
}

/// Z and N as one value sets them.
pub open spec fn zn_spec(s: StatusFlags, v: u8) -> StatusFlags {
    StatusFlags { zero: v == 0, negative: v & 0x80 != 0, ..s }
}

/// Whether a branch instruction takes its branch under the given flags.
pub open spec fn branch_taken_spec(s: StatusFlags, i: Instruction) -> bool {
    match i {
        Instruction::BCC => !s.carry,
        Instruction::BCS => s.carry,
        Instruction::BEQ => s.zero,
        Instruction::BNE => !s.zero,
        Instruction::BMI => s.negative,
        Instruction::BPL => !s.negative,
        Instruction::BVC => !s.overflow,
        Instruction::BVS => s.overflow,
        _ => false,
    }
}

/// Where a taken branch whose offset byte sits at `pc` lands: the address
/// after the offset byte plus the sign-extended offset.
pub open spec fn branch_target_spec(ram: Seq<u8>, cart: crate::cartridge::Cartridge, pc: u16) -> u16 {
    word_add_spec(word_add_spec(pc, 1), sign_extend_spec(pure_byte_spec(ram, cart, pc)))
}

/// Whether an instruction's cycle surcharge is a function of RAM and the
/// cartridge alone: the operand fetches are pure; a branch's offset byte
/// is; and a page-cross payer is not in the relative mode, whose resolution
/// depends on the live program counter instead.
pub open spec fn extra_cycles_pure_spec(
    ram: Seq<u8>,
    cart: crate::cartridge::Cartridge,
    i: Instruction,
    mode: AddressingMode,
    pc: u16,
) -> bool {
    &&& operand_pure_spec(ram, cart, mode, pc)
    &&& (i.is_branch_spec() ==> pure_byte_region_spec(pc))
    &&& (i.pays_page_cross_spec() ==> !(mode matches AddressingMode::Relative))
}

/// The cycles an instruction earns beyond its base cost: one for a
/// page-crossing operand fetch on the instructions that pay it, one for a
/// taken branch, and one more when the taken branch crosses a page.
pub open spec fn extra_cycles_spec(
    ram: Seq<u8>,
    cart: crate::cartridge::Cartridge,
    status: StatusFlags,
    x: u8,
    y: u8,
    instruction: Instruction,
    mode: AddressingMode,
    pc: u16,
) -> u8 {
    if instruction.is_branch_spec() {
        if branch_taken_spec(status, instruction) {
            let target = branch_target_spec(ram, cart, pc);
            if page_crossed_spec(word_add_spec(pc, 1), target) {
                2u8
            } else {
                1u8
            }
        } else {
            0u8
        }
    } else if instruction.pays_page_cross_spec() {
        if resolved_operand_spec(ram, cart, x, y, pc, mode, pc).1 {
            1u8
        } else {
            0u8
        }
    } else {
        0u8
    }
}

/// The exact effect of each implied-mode instruction — register transfers,
/// register steps, flag changes, the stack quartet, NOP, and the jam — as a
/// relation the dispatcher promises between the state before and after.
pub open spec fn implied_effect_spec(pre: Cpu, post: Cpu, i: Instruction) -> bool {
    &&& (i matches Instruction::TAX ==> post == (Cpu {
        x: pre.a,
        status: zn_spec(pre.status, pre.a),
        ..pre
    }))
    &&& (i matches Instruction::TAY ==> post == (Cpu {
        y: pre.a,
        status: zn_spec(pre.status, pre.a),
        ..pre
    }))
    &&& (i matches Instruction::TXA ==> post == (Cpu {
        a: pre.x,
        status: zn_spec(pre.status, pre.x),
        ..pre
    }))
    &&& (i matches Instruction::TYA ==> post == (Cpu {
        a: pre.y,
        status: zn_spec(pre.status, pre.y),
        ..pre
    }))
    &&& (i matches Instruction::TSX ==> post == (Cpu {
        x: pre.sp,
        status: zn_spec(pre.status, pre.sp),
        ..pre
    }))
    &&& (i matches Instruction::TXS ==> post == (Cpu { sp: pre.x, ..pre }))
    &&& (i matches Instruction::INX ==> post == (Cpu {
        x: pre.x.wrapping_add(1),
        status: zn_spec(pre.status, pre.x.wrapping_add(1)),
        ..pre
    }))
    &&& (i matches Instruction::INY ==> post == (Cpu {
        y: pre.y.wrapping_add(1),
        status: zn_spec(pre.status, pre.y.wrapping_add(1)),
        ..pre
    }))
    &&& (i matches Instruction::DEX ==> post == (Cpu {
        x: pre.x.wrapping_sub(1),
        status: zn_spec(pre.status, pre.x.wrapping_sub(1)),
        ..pre
    }))
    &&& (i matches Instruction::DEY ==> post == (Cpu {
        y: pre.y.wrapping_sub(1),
        status: zn_spec(pre.status, pre.y.wrapping_sub(1)),
        ..pre
    }))
    &&& (i matches Instruction::CLC ==> post == (Cpu {
        status: (StatusFlags { carry: false, ..pre.status }),
        ..pre
    }))
    &&& (i matches Instruction::CLD ==> post == (Cpu {
        status: (StatusFlags { decimal_mode: false, ..pre.status }),
        ..pre
    }))
    &&& (i matches Instruction::CLI ==> post == (Cpu {
        status: (StatusFlags { interrupt_disable: false, ..pre.status }),
        ..pre
    }))
    &&& (i matches Instruction::CLV ==> post == (Cpu {
        status: (StatusFlags { overflow: false, ..pre.status }),
        ..pre
    }))
    &&& (i matches Instruction::SEC ==> post == (Cpu {
        status: (StatusFlags { carry: true, ..pre.status }),
        ..pre
    }))
    &&& (i matches Instruction::SED ==> post == (Cpu {
        status: (StatusFlags { decimal_mode: true, ..pre.status }),
        ..pre
    }))
    &&& (i matches Instruction::SEI ==> post == (Cpu {
        status: (StatusFlags { interrupt_disable: true, ..pre.status }),
        ..pre
    }))
    &&& (i matches Instruction::NOP ==> post == pre)
    &&& (i matches Instruction::KIL ==> post == (Cpu { halted: true, ..pre }))
    &&& (i matches Instruction::PHA ==> post.bus.ram@ == pre.bus.ram@.update(
        0x100 + pre.sp as int,
        pre.a,
    ) && post == (Cpu {
        sp: pre.sp.wrapping_sub(1),
        bus: (Bus { ram: post.bus.ram, ..pre.bus }),
        ..pre
    }))
    &&& (i matches Instruction::PHP ==> post.bus.ram@ == pre.bus.ram@.update(
        0x100 + pre.sp as int,
        pre.status.push_bits_spec(true),
    ) && post == (Cpu {
        sp: pre.sp.wrapping_sub(1),
        bus: (Bus { ram: post.bus.ram, ..pre.bus }),
        ..pre
    }))
    &&& (i matches Instruction::PLA ==> post == (Cpu {
        sp: pre.sp.wrapping_add(1),
        a: pre.bus.ram@[0x100 + pre.sp.wrapping_add(1) as int],
        status: zn_spec(pre.status, pre.bus.ram@[0x100 + pre.sp.wrapping_add(1) as int]),
        ..pre
    }))
    &&& (i matches Instruction::PLP ==> post == (Cpu {
        sp: pre.sp.wrapping_add(1),
        status: StatusFlags::from_bits_spec(pre.bus.ram@[0x100 + pre.sp.wrapping_add(1) as int]),
        ..pre
    }))
}

impl Cpu {
    /// Dispatches one decoded instruction. The returned extra cycles are
    /// exactly the page-cross and branch bonuses of `extra_cycles_spec`
    /// whenever the operand fetches are pure, and each implied-mode
    /// instruction's effect on the registers is promised one by one.
    pub fn execute_instruction(&mut self, op: Opcode, operand_pc: u16) -> (extra: u8)
        requires
            old(self).wf(),
        ensures
            final(self).wf(),
            final(self).bus.ppu.cycle == old(self).bus.ppu.cycle,
            final(self).bus.ppu.scanline == old(self).bus.ppu.scanline,
            final(self).bus.ppu.frame == old(self).bus.ppu.frame,
            extra <= 2,
            op.instruction matches Instruction::KIL ==> final(self).halted,
            extra_cycles_pure_spec(
                old(self).bus.ram@,
                old(self).bus.cartridge,
                op.instruction,
                op.mode,
                operand_pc,
            ) ==> extra == extra_cycles_spec(
                old(self).bus.ram@,
                old(self).bus.cartridge,
                old(self).status,
                old(self).x,
                old(self).y,
                op.instruction,
                op.mode,
                operand_pc,
            ),
            implied_effect_spec(*old(self), *final(self), op.instruction),
            op.instruction matches Instruction::JMP && operand_pure_spec(
                old(self).bus.ram@,
                old(self).bus.cartridge,
                op.mode,
                operand_pc,
            ) ==> final(self).pc == resolved_operand_spec(
                old(self).bus.ram@,
                old(self).bus.cartridge,
                old(self).x,
                old(self).y,
                old(self).pc,
                op.mode,
                operand_pc,
            ).0,
    {
        if op.instruction.is_documented() {
            self.execute_documented(op, operand_pc)
        } else {
            self.execute_undocumented(op, operand_pc)
        }
    }

    /// The documented loads and stores; the rest of the documented set is
    /// delegated.
    fn execute_documented(&mut self, op: Opcode, operand_pc: u16) -> (extra: u8)
        requires
            old(self).wf(),
            op.instruction.is_documented_spec(),
        ensures
            final(self).wf(),
            final(self).bus.ppu.cycle == old(self).bus.ppu.cycle,
            final(self).bus.ppu.scanline == old(self).bus.ppu.scanline,
            final(self).bus.ppu.frame == old(self).bus.ppu.frame,
            extra <= 2,
            extra_cycles_pure_spec(
                old(self).bus.ram@,
                old(self).bus.cartridge,
                op.instruction,
                op.mode,
                operand_pc,
            ) ==> extra == extra_cycles_spec(
                old(self).bus.ram@,
                old(self).bus.cartridge,
                old(self).status,
                old(self).x,
                old(self).y,
                op.instruction,
                op.mode,
                operand_pc,
            ),
            implied_effect_spec(*old(self), *final(self), op.instruction),
            op.instruction matches Instruction::JMP && operand_pure_spec(
                old(self).bus.ram@,
                old(self).bus.cartridge,
                op.mode,
                operand_pc,
            ) ==> final(self).pc == resolved_operand_spec(
                old(self).bus.ram@,
                old(self).bus.cartridge,
                old(self).x,
                old(self).y,
                old(self).pc,
                op.mode,
                operand_pc,
            ).0,
    {
        match op.instruction {
            Instruction::LDA => self.lda(op.mode, operand_pc),
            Instruction::LDX => self.ldx(op.mode, operand_pc),
            Instruction::LDY => self.ldy(op.mode, operand_pc),
            Instruction::STA => self.sta(op.mode, operand_pc),
            Instruction::STX => self.stx(op.mode, operand_pc),
            Instruction::STY => self.sty(op.mode, operand_pc),

            _ => self.execute_documented_transfer(op, operand_pc),
        }
    }

    /// The documented register transfers; the stack operations and the rest
    /// of the documented set are delegated.
    fn execute_documented_transfer(&mut self, op: Opcode, operand_pc: u16) -> (extra: u8)
        requires
            old(self).wf(),
            (op.instruction matches (Instruction::TAX | Instruction::TAY | Instruction::TXA
                | Instruction::TYA | Instruction::TSX | Instruction::TXS | Instruction::PHA
                | Instruction::PHP | Instruction::PLA | Instruction::PLP | Instruction::AND
                | Instruction::EOR | Instruction::ORA | Instruction::BIT | Instruction::ADC
                | Instruction::SBC | Instruction::CMP | Instruction::CPX | Instruction::CPY
                | Instruction::INC | Instruction::INX | Instruction::INY | Instruction::DEC
                | Instruction::DEX | Instruction::DEY | Instruction::ASL | Instruction::LSR
                | Instruction::ROL | Instruction::ROR | Instruction::JMP | Instruction::JSR
                | Instruction::RTS | Instruction::BCC | Instruction::BCS | Instruction::BEQ
                | Instruction::BMI | Instruction::BNE | Instruction::BPL | Instruction::BVC
                | Instruction::BVS | Instruction::CLC | Instruction::CLD | Instruction::CLI
                | Instruction::CLV | Instruction::SEC | Instruction::SED | Instruction::SEI
                | Instruction::BRK | Instruction::NOP | Instruction::RTI)),
        ensures
            final(self).wf(),
            final(self).bus.ppu.cycle == old(self).bus.ppu.cycle,
            final(self).bus.ppu.scanline == old(self).bus.ppu.scanline,
            final(self).bus.ppu.frame == old(self).bus.ppu.frame,
            extra <= 2,
            extra_cycles_pure_spec(
                old(self).bus.ram@,
                old(self).bus.cartridge,
                op.instruction,
                op.mode,
                operand_pc,
            ) ==> extra == extra_cycles_spec(
                old(self).bus.ram@,
                old(self).bus.cartridge,
                old(self).status,
                old(self).x,
                old(self).y,
                op.instruction,
                op.mode,
                operand_pc,
            ),
            implied_effect_spec(*old(self), *final(self), op.instruction),
            op.instruction matches Instruction::JMP && operand_pure_spec(
                old(self).bus.ram@,
                old(self).bus.cartridge,
                op.mode,
                operand_pc,
            ) ==> final(self).pc == resolved_operand_spec(
                old(self).bus.ram@,
                old(self).bus.cartridge,
                old(self).x,
                old(self).y,
                old(self).pc,
                op.mode,
                operand_pc,
            ).0,
    {
        match op.instruction {
            Instruction::TAX => self.tax(),
            Instruction::TAY => self.tay(),
            Instruction::TXA => self.txa(),
            Instruction::TYA => self.tya(),

            Instruction::TSX => self.tsx(),
            Instruction::TXS => self.txs(),

            _ => self.execute_documented_stack(op, operand_pc),
        }
    }

    /// The documented stack pushes and pulls; the rest of the documented set
    /// is delegated.
    fn execute_documented_stack(&mut self, op: Opcode, operand_pc: u16) -> (extra: u8)
        requires
            old(self).wf(),
            (op.instruction matches (Instruction::PHA | Instruction::PHP | Instruction::PLA
                | Instruction::PLP | Instruction::AND | Instruction::EOR | Instruction::ORA
                | Instruction::BIT | Instruction::ADC | Instruction::SBC | Instruction::CMP
                | Instruction::CPX | Instruction::CPY | Instruction::INC | Instruction::INX
                | Instruction::INY | Instruction::DEC | Instruction::DEX | Instruction::DEY
                | Instruction::ASL | Instruction::LSR | Instruction::ROL | Instruction::ROR
                | Instruction::JMP | Instruction::JSR | Instruction::RTS | Instruction::BCC
                | Instruction::BCS | Instruction::BEQ | Instruction::BMI | Instruction::BNE
                | Instruction::BPL | Instruction::BVC | Instruction::BVS | Instruction::CLC
                | Instruction::CLD | Instruction::CLI | Instruction::CLV | Instruction::SEC
                | Instruction::SED | Instruction::SEI | Instruction::BRK | Instruction::NOP
                | Instruction::RTI)),
        ensures
            final(self).wf(),
            final(self).bus.ppu.cycle == old(self).bus.ppu.cycle,
            final(self).bus.ppu.scanline == old(self).bus.ppu.scanline,
            final(self).bus.ppu.frame == old(self).bus.ppu.frame,
            extra <= 2,
            extra_cycles_pure_spec(
                old(self).bus.ram@,
                old(self).bus.cartridge,
                op.instruction,
                op.mode,
                operand_pc,
            ) ==> extra == extra_cycles_spec(
                old(self).bus.ram@,
                old(self).bus.cartridge,
                old(self).status,
                old(self).x,
                old(self).y,
                op.instruction,
                op.mode,
                operand_pc,
            ),
            implied_effect_spec(*old(self), *final(self), op.instruction),
            op.instruction matches Instruction::JMP && operand_pure_spec(
                old(self).bus.ram@,
                old(self).bus.cartridge,
                op.mode,
                operand_pc,
            ) ==> final(self).pc == resolved_operand_spec(
                old(self).bus.ram@,
                old(self).bus.cartridge,
                old(self).x,
                old(self).y,
                old(self).pc,
                op.mode,
                operand_pc,
            ).0,
    {
        match op.instruction {
            Instruction::PHA => self.pha(),
            Instruction::PHP => self.php(),
            Instruction::PLA => self.pla(),
            Instruction::PLP => self.plp(),

            _ => self.execute_documented_logic(op, operand_pc),
        }
    }

    /// The documented logic, arithmetic, and increment instructions; the
    /// shifts, jumps, branches, and system functions are delegated.
    #[verifier::rlimit(100)]
    fn execute_documented_logic(&mut self, op: Opcode, operand_pc: u16) -> (extra: u8)
        requires
            old(self).wf(),
            (op.instruction matches (Instruction::AND | Instruction::EOR | Instruction::ORA
                | Instruction::BIT | Instruction::ADC | Instruction::SBC | Instruction::CMP
                | Instruction::CPX | Instruction::CPY | Instruction::INC | Instruction::INX
                | Instruction::INY | Instruction::DEC | Instruction::DEX | Instruction::DEY
                | Instruction::ASL | Instruction::LSR | Instruction::ROL | Instruction::ROR
                | Instruction::JMP | Instruction::JSR | Instruction::RTS | Instruction::BCC
                | Instruction::BCS | Instruction::BEQ | Instruction::BMI | Instruction::BNE
                | Instruction::BPL | Instruction::BVC | Instruction::BVS | Instruction::CLC
                | Instruction::CLD | Instruction::CLI | Instruction::CLV | Instruction::SEC
                | Instruction::SED | Instruction::SEI | Instruction::BRK | Instruction::NOP
                | Instruction::RTI)),
        ensures
            final(self).wf(),
            final(self).bus.ppu.cycle == old(self).bus.ppu.cycle,
            final(self).bus.ppu.scanline == old(self).bus.ppu.scanline,
            final(self).bus.ppu.frame == old(self).bus.ppu.frame,
            extra <= 2,
            extra_cycles_pure_spec(
                old(self).bus.ram@,
                old(self).bus.cartridge,
                op.instruction,
                op.mode,
                operand_pc,
            ) ==> extra == extra_cycles_spec(
                old(self).bus.ram@,
                old(self).bus.cartridge,
                old(self).status,
                old(self).x,
                old(self).y,
                op.instruction,
                op.mode,
                operand_pc,
            ),
            implied_effect_spec(*old(self), *final(self), op.instruction),
            op.instruction matches Instruction::JMP && operand_pure_spec(
                old(self).bus.ram@,
                old(self).bus.cartridge,
                op.mode,
                operand_pc,
            ) ==> final(self).pc == resolved_operand_spec(
                old(self).bus.ram@,
                old(self).bus.cartridge,
                old(self).x,
                old(self).y,
                old(self).pc,
                op.mode,
                operand_pc,
            ).0,
    {
        match op.instruction {
            Instruction::AND => self.and(op.mode, operand_pc),
            Instruction::EOR => self.eor(op.mode, operand_pc),
            Instruction::ORA => self.ora(op.mode, operand_pc),
            Instruction::BIT => self.bit(op.mode, operand_pc),

            Instruction::ADC => self.adc(op.mode, operand_pc),
            Instruction::SBC => self.sbc(op.mode, operand_pc),
            Instruction::CMP => self.cmp(op.mode, operand_pc),
            Instruction::CPX => self.cpx(op.mode, operand_pc),
            Instruction::CPY => self.cpy(op.mode, operand_pc),

            Instruction::INC => self.inc(op.mode, operand_pc),
            Instruction::INX => self.inx(),
            Instruction::INY => self.iny(),
            Instruction::DEC => self.dec(op.mode, operand_pc),
            Instruction::DEX => self.dex(),
            Instruction::DEY => self.dey(),

            _ => self.execute_documented_rest(op, operand_pc),
        }
    }

    /// The documented shifts, jumps, branches, flag changes, and system
    /// functions.
    #[verifier::rlimit(100)]
    fn execute_documented_rest(&mut self, op: Opcode, operand_pc: u16) -> (extra: u8)
        requires
            old(self).wf(),
            (op.instruction matches (Instruction::ASL | Instruction::LSR | Instruction::ROL
                | Instruction::ROR | Instruction::JMP | Instruction::JSR | Instruction::RTS
                | Instruction::BCC | Instruction::BCS | Instruction::BEQ | Instruction::BMI
                | Instruction::BNE | Instruction::BPL | Instruction::BVC | Instruction::BVS
                | Instruction::CLC | Instruction::CLD | Instruction::CLI | Instruction::CLV
                | Instruction::SEC | Instruction::SED | Instruction::SEI | Instruction::BRK
                | Instruction::NOP | Instruction::RTI)),
        ensures
            final(self).wf(),
            final(self).bus.ppu.cycle == old(self).bus.ppu.cycle,
            final(self).bus.ppu.scanline == old(self).bus.ppu.scanline,
            final(self).bus.ppu.frame == old(self).bus.ppu.frame,
            extra <= 2,
            extra_cycles_pure_spec(
                old(self).bus.ram@,
                old(self).bus.cartridge,
                op.instruction,
                op.mode,
                operand_pc,
            ) ==> extra == extra_cycles_spec(
                old(self).bus.ram@,
                old(self).bus.cartridge,
                old(self).status,
                old(self).x,
                old(self).y,
                op.instruction,
                op.mode,
                operand_pc,
            ),
            implied_effect_spec(*old(self), *final(self), op.instruction),
            op.instruction matches Instruction::JMP && operand_pure_spec(
                old(self).bus.ram@,
                old(self).bus.cartridge,
                op.mode,
                operand_pc,
            ) ==> final(self).pc == resolved_operand_spec(
                old(self).bus.ram@,
                old(self).bus.cartridge,
                old(self).x,
                old(self).y,
                old(self).pc,
                op.mode,
                operand_pc,
            ).0,
    {
        match op.instruction {
            Instruction::ASL => {
                if matches!(op.mode, AddressingMode::Accumulator) {
                    self.asl_accumulator()
                } else {
                    self.asl(op.mode, operand_pc)
                }
            },
            Instruction::LSR => {
                if matches!(op.mode, AddressingMode::Accumulator) {
                    self.lsr_accumulator()
                } else {
                    self.lsr(op.mode, operand_pc)
                }
            },
            Instruction::ROL => {
                if matches!(op.mode, AddressingMode::Accumulator) {
                    self.rol_accumulator()
                } else {
                    self.rol(op.mode, operand_pc)
                }
            },
            Instruction::ROR => {
                if matches!(op.mode, AddressingMode::Accumulator) {
                    self.ror_accumulator()
                } else {
                    self.ror(op.mode, operand_pc)
                }
            },

            Instruction::JMP => self.jmp(op.mode, operand_pc),
            Instruction::JSR => self.jsr(op.mode, operand_pc),
            Instruction::RTS => self.rts(),

            Instruction::BCC => {
                let taken = !self.status.carry;
                self.branch_if(operand_pc, taken)
            },
            Instruction::BCS => {
                let taken = self.status.carry;
                self.branch_if(operand_pc, taken)
            },
            Instruction::BEQ => {
                let taken = self.status.zero;
                self.branch_if(operand_pc, taken)
            },
            Instruction::BMI => {
                let taken = self.status.negative;
                self.branch_if(operand_pc, taken)
            },
            Instruction::BNE => {
                let taken = !self.status.zero;
                self.branch_if(operand_pc, taken)
            },
            Instruction::BPL => {
                let taken = !self.status.negative;
                self.branch_if(operand_pc, taken)
            },
            Instruction::BVC => {
                let taken = !self.status.overflow;
                self.branch_if(operand_pc, taken)
            },
            Instruction::BVS => {
                let taken = self.status.overflow;
                self.branch_if(operand_pc, taken)
            },

            Instruction::CLC => {
                self.status.carry = false;
                0
            },
            Instruction::CLD => {
                self.status.decimal_mode = false;
                0
            },
            Instruction::CLI => {
                self.status.interrupt_disable = false;
                0
            },
            Instruction::CLV => {
                self.status.overflow = false;
                0
            },
            Instruction::SEC => {
                self.status.carry = true;
                0
            },
            Instruction::SED => {
                self.status.decimal_mode = true;
                0
            },
            Instruction::SEI => {
                self.status.interrupt_disable = true;
                0
            },

            Instruction::BRK => self.brk(),
            Instruction::NOP => 0,
            Instruction::RTI => self.rti(),
            _ => 0,
        }
    }

    /// The undocumented set up to the double NOPs; the rest is delegated.
    #[verifier::rlimit(100)]
    fn execute_undocumented(&mut self, op: Opcode, operand_pc: u16) -> (extra: u8)
        requires
            old(self).wf(),
            !op.instruction.is_documented_spec(),
        ensures
            final(self).wf(),
            final(self).bus.ppu.cycle == old(self).bus.ppu.cycle,
            final(self).bus.ppu.scanline == old(self).bus.ppu.scanline,
            final(self).bus.ppu.frame == old(self).bus.ppu.frame,
            extra <= 2,
            op.instruction matches Instruction::KIL ==> final(self).halted,
            extra_cycles_pure_spec(
                old(self).bus.ram@,
                old(self).bus.cartridge,
                op.instruction,
                op.mode,
                operand_pc,
            ) ==> extra == extra_cycles_spec(
                old(self).bus.ram@,
                old(self).bus.cartridge,
                old(self).status,
                old(self).x,
                old(self).y,
                op.instruction,
                op.mode,
                operand_pc,
            ),
            implied_effect_spec(*old(self), *final(self), op.instruction),
    {
        match op.instruction {
            Instruction::AAC => self.aac(operand_pc),
            Instruction::AAX => self.aax(op.mode, operand_pc),
            Instruction::ARR => self.arr(operand_pc),
            Instruction::ASR => self.asr(operand_pc),
            Instruction::ATX => self.atx(operand_pc),
            Instruction::AXA => self.axa(op.mode, operand_pc),
            Instruction::AXS => self.axs(operand_pc),
            Instruction::DCP => self.dcp(op.mode, operand_pc),
            Instruction::DOP => {
                let _ = self.read_operand(op.mode, operand_pc);
                0
            },
            _ => self.execute_undocumented_rest(op, operand_pc),
        }
    }

    /// The rest of the undocumented set, the jam included.
    #[verifier::rlimit(100)]
    fn execute_undocumented_rest(&mut self, op: Opcode, operand_pc: u16) -> (extra: u8)
        requires
            old(self).wf(),
            (op.instruction matches (Instruction::ISC | Instruction::KIL | Instruction::LAR
                | Instruction::LAX | Instruction::RLA | Instruction::RRA | Instruction::SLO
                | Instruction::SRE | Instruction::SXA | Instruction::SYA | Instruction::TOP
                | Instruction::XAA | Instruction::XAS)),
        ensures
            final(self).wf(),
            final(self).bus.ppu.cycle == old(self).bus.ppu.cycle,
            final(self).bus.ppu.scanline == old(self).bus.ppu.scanline,
            final(self).bus.ppu.frame == old(self).bus.ppu.frame,
            extra <= 2,
            op.instruction matches Instruction::KIL ==> final(self).halted,
            extra_cycles_pure_spec(
                old(self).bus.ram@,
                old(self).bus.cartridge,
                op.instruction,
                op.mode,
                operand_pc,
            ) ==> extra == extra_cycles_spec(
                old(self).bus.ram@,
                old(self).bus.cartridge,
                old(self).status,
                old(self).x,
                old(self).y,
                op.instruction,
                op.mode,
                operand_pc,
            ),
            implied_effect_spec(*old(self), *final(self), op.instruction),
    {
        match op.instruction {
            Instruction::ISC => self.isc(op.mode, operand_pc),
            Instruction::KIL => self.kil(),
            Instruction::LAR => self.lar(op.mode, operand_pc),
            Instruction::LAX => self.lax(op.mode, operand_pc),
            Instruction::RLA => self.rla(op.mode, operand_pc),
            Instruction::RRA => self.rra(op.mode, operand_pc),
            Instruction::SLO => self.slo(op.mode, operand_pc),
            Instruction::SRE => self.sre(op.mode, operand_pc),
            Instruction::SXA => self.sxa(op.mode, operand_pc),
            Instruction::SYA => self.sya(op.mode, operand_pc),
            Instruction::TOP => self.top(op.mode, operand_pc),
            Instruction::XAA => self.xaa(op.mode, operand_pc),
            Instruction::XAS => self.xas(op.mode, operand_pc),
            _ => 0,
        }
    }

    fn lda(&mut self, mode: AddressingMode, operand_pc: u16) -> (extra: u8)
        requires
            old(self).wf(),
        ensures
            final(self).wf(),
            final(self).bus.ppu.cycle == old(self).bus.ppu.cycle,
            final(self).bus.ppu.scanline == old(self).bus.ppu.scanline,
            final(self).bus.ppu.frame == old(self).bus.ppu.frame,
            extra <= 1,
            operand_pure_spec(old(self).bus.ram@, old(self).bus.cartridge, mode, operand_pc) && !(
            mode matches AddressingMode::Relative) ==> extra == (if resolved_operand_spec(
                old(self).bus.ram@,
                old(self).bus.cartridge,
                old(self).x,
                old(self).y,
                operand_pc,
                mode,
                operand_pc,
            ).1 {
                1u8
            } else {
                0u8
            }),
    {
        let (value, page_crossed) = self.read_operand(mode, operand_pc);
        self.set_register_a(value);

        if page_crossed {
            1
        } else {
            0
        }
    }

    fn ldx(&mut self, mode: AddressingMode, operand_pc: u16) -> (extra: u8)
        requires
            old(self).wf(),
        ensures
            final(self).wf(),
            final(self).bus.ppu.cycle == old(self).bus.ppu.cycle,
            final(self).bus.ppu.scanline == old(self).bus.ppu.scanline,
            final(self).bus.ppu.frame == old(self).bus.ppu.frame,
            extra <= 1,
            operand_pure_spec(old(self).bus.ram@, old(self).bus.cartridge, mode, operand_pc) && !(
            mode matches AddressingMode::Relative) ==> extra == (if resolved_operand_spec(
                old(self).bus.ram@,
                old(self).bus.cartridge,
                old(self).x,
                old(self).y,
                operand_pc,
                mode,
                operand_pc,
            ).1 {
                1u8
            } else {
                0u8
            }),
    {
        let (value, page_crossed) = self.read_operand(mode, operand_pc);
        self.set_register_x(value);

        if page_crossed {
            1
        } else {
            0
        }
    }

    fn ldy(&mut self, mode: AddressingMode, operand_pc: u16) -> (extra: u8)
        requires
            old(self).wf(),
        ensures
            final(self).wf(),
            final(self).bus.ppu.cycle == old(self).bus.ppu.cycle,
            final(self).bus.ppu.scanline == old(self).bus.ppu.scanline,
            final(self).bus.ppu.frame == old(self).bus.ppu.frame,
            extra <= 1,
            operand_pure_spec(old(self).bus.ram@, old(self).bus.cartridge, mode, operand_pc) && !(
            mode matches AddressingMode::Relative) ==> extra == (if resolved_operand_spec(
                old(self).bus.ram@,
                old(self).bus.cartridge,
                old(self).x,
                old(self).y,
                operand_pc,
                mode,
                operand_pc,
            ).1 {
                1u8
            } else {
                0u8
            }),
    {
        let (value, page_crossed) = self.read_operand(mode, operand_pc);
        self.set_register_y(value);

        if page_crossed {
            1
        } else {
            0
        }
    }

    fn sta(&mut self, mode: AddressingMode, operand_pc: u16) -> (extra: u8)
        requires
            old(self).wf(),
        ensures
            final(self).wf(),
            final(self).bus.ppu.cycle == old(self).bus.ppu.cycle,
            final(self).bus.ppu.scanline == old(self).bus.ppu.scanline,
            final(self).bus.ppu.frame == old(self).bus.ppu.frame,
            extra == 0,
    {
        let (address, _) = self.get_operand_address(mode, operand_pc);
        self.bus.write(address, self.a);
        0
    }

    fn stx(&mut self, mode: AddressingMode, operand_pc: u16) -> (extra: u8)
        requires
            old(self).wf(),
        ensures
            final(self).wf(),
            final(self).bus.ppu.cycle == old(self).bus.ppu.cycle,
            final(self).bus.ppu.scanline == old(self).bus.ppu.scanline,
            final(self).bus.ppu.frame == old(self).bus.ppu.frame,
            extra == 0,
    {
        let (address, _) = self.get_operand_address(mode, operand_pc);
        self.bus.write(address, self.x);
        0
    }

    fn sty(&mut self, mode: AddressingMode, operand_pc: u16) -> (extra: u8)
        requires
            old(self).wf(),
        ensures
            final(self).wf(),
            final(self).bus.ppu.cycle == old(self).bus.ppu.cycle,
            final(self).bus.ppu.scanline == old(self).bus.ppu.scanline,
            final(self).bus.ppu.frame == old(self).bus.ppu.frame,
            extra == 0,
    {
        let (address, _) = self.get_operand_address(mode, operand_pc);
        self.bus.write(address, self.y);
        0
    }

    fn tax(&mut self) -> (extra: u8)
        ensures
            *final(self) == (Cpu {
                x: old(self).a,
                status: (StatusFlags {
                    zero: old(self).a == 0,
                    negative: old(self).a & 0x80 != 0,
                    ..old(self).status
                }),
                ..*old(self)
            }),
            extra == 0,
    {
        let value = self.a;
        self.set_register_x(value);
        0
    }

    fn tay(&mut self) -> (extra: u8)
        ensures
            *final(self) == (Cpu {
                y: old(self).a,
                status: (StatusFlags {
                    zero: old(self).a == 0,
                    negative: old(self).a & 0x80 != 0,
                    ..old(self).status
                }),
                ..*old(self)
            }),
            extra == 0,
    {
        let value = self.a;
        self.set_register_y(value);
        0
    }

    fn txa(&mut self) -> (extra: u8)
        ensures
            *final(self) == (Cpu {
                a: old(self).x,
                status: (StatusFlags {
                    zero: old(self).x == 0,
                    negative: old(self).x & 0x80 != 0,
                    ..old(self).status
                }),
                ..*old(self)
            }),
            extra == 0,
    {
        let value = self.x;
        self.set_register_a(value);
        0
    }

    fn tya(&mut self) -> (extra: u8)
        ensures
            *final(self) == (Cpu {
                a: old(self).y,
                status: (StatusFlags {
                    zero: old(self).y == 0,
                    negative: old(self).y & 0x80 != 0,
                    ..old(self).status
                }),
                ..*old(self)
            }),
            extra == 0,
    {
        let value = self.y;
        self.set_register_a(value);
        0
    }

    fn tsx(&mut self) -> (extra: u8)
        ensures
            *final(self) == (Cpu {
                x: old(self).sp,
                status: (StatusFlags {
                    zero: old(self).sp == 0,
                    negative: old(self).sp & 0x80 != 0,
                    ..old(self).status
                }),
                ..*old(self)
            }),
            extra == 0,
    {
        let value = self.sp;
        self.x = value;
        self.set_zero_and_negative_flags(value);
        0
    }

    fn txs(&mut self) -> (extra: u8)
        ensures
            *final(self) == (Cpu { sp: old(self).x, ..*old(self) }),
            extra == 0,
    {
        self.sp = self.x;
        0
    }

    /// PHA: A goes to the stack untouched.
    fn pha(&mut self) -> (extra: u8)
        requires
            old(self).wf(),
        ensures
            final(self).wf(),
            final(self).bus.ppu.cycle == old(self).bus.ppu.cycle,
            final(self).bus.ppu.scanline == old(self).bus.ppu.scanline,
            final(self).bus.ppu.frame == old(self).bus.ppu.frame,
            final(self).bus.ram@ == old(self).bus.ram@.update(
                0x100 + old(self).sp as int,
                old(self).a,
            ),
            *final(self) == (Cpu {
                sp: old(self).sp.wrapping_sub(1),
                bus: (Bus { ram: final(self).bus.ram, ..old(self).bus }),
                ..*old(self)
            }),
            extra == 0,
    {
        let value = self.a;
        self.stack_push(value);
        0
    }

    /// PHP: P goes to the stack with B and U both set in the pushed byte.
    fn php(&mut self) -> (extra: u8)
        requires
            old(self).wf(),
        ensures
            final(self).wf(),
            final(self).bus.ppu.cycle == old(self).bus.ppu.cycle,
            final(self).bus.ppu.scanline == old(self).bus.ppu.scanline,
            final(self).bus.ppu.frame == old(self).bus.ppu.frame,
            final(self).bus.ram@ == old(self).bus.ram@.update(
                0x100 + old(self).sp as int,
                old(self).status.push_bits_spec(true),
            ),
            *final(self) == (Cpu {
                sp: old(self).sp.wrapping_sub(1),
                bus: (Bus { ram: final(self).bus.ram, ..old(self).bus }),
                ..*old(self)
            }),
            extra == 0,
    {
        let pushed = self.status.push_bits(true);
        self.stack_push(pushed);
        0
    }

    /// PLA: A loads from the stack and Z and N follow it.
    fn pla(&mut self) -> (extra: u8)
        requires
            old(self).wf(),
        ensures
            final(self).wf(),
            final(self).bus.ppu.cycle == old(self).bus.ppu.cycle,
            final(self).bus.ppu.scanline == old(self).bus.ppu.scanline,
            final(self).bus.ppu.frame == old(self).bus.ppu.frame,
            *final(self) == (Cpu {
                sp: old(self).sp.wrapping_add(1),
                a: old(self).bus.ram@[0x100 + old(self).sp.wrapping_add(1) as int],
                status: zn_spec(
                    old(self).status,
                    old(self).bus.ram@[0x100 + old(self).sp.wrapping_add(1) as int],
                ),
                ..*old(self)
            }),
            extra == 0,
    {
        let value = self.stack_pop();
        self.set_register_a(value);
        0
    }

    /// PLP: P restores from the stack except B, forced 0, and U, forced 1.
    fn plp(&mut self) -> (extra: u8)
        requires
            old(self).wf(),
        ensures
            final(self).wf(),
            final(self).bus.ppu.cycle == old(self).bus.ppu.cycle,
            final(self).bus.ppu.scanline == old(self).bus.ppu.scanline,
            final(self).bus.ppu.frame == old(self).bus.ppu.frame,
            *final(self) == (Cpu {
                sp: old(self).sp.wrapping_add(1),
                status: StatusFlags::from_bits_spec(
                    old(self).bus.ram@[0x100 + old(self).sp.wrapping_add(1) as int],
                ),
                ..*old(self)
            }),
            extra == 0,
    {
        let value = self.stack_pop();
        self.status = StatusFlags::from_bits(value);
        0
    }

    fn and(&mut self, mode: AddressingMode, operand_pc: u16) -> (extra: u8)
        requires
            old(self).wf(),
        ensures
            final(self).wf(),
            final(self).bus.ppu.cycle == old(self).bus.ppu.cycle,
            final(self).bus.ppu.scanline == old(self).bus.ppu.scanline,
            final(self).bus.ppu.frame == old(self).bus.ppu.frame,
            extra <= 1,
            operand_pure_spec(old(self).bus.ram@, old(self).bus.cartridge, mode, operand_pc) && !(
            mode matches AddressingMode::Relative) ==> extra == (if resolved_operand_spec(
                old(self).bus.ram@,
                old(self).bus.cartridge,
                old(self).x,
                old(self).y,
                operand_pc,
                mode,
                operand_pc,
            ).1 {
                1u8
            } else {
                0u8
            }),
    {
        let (value, page_crossed) = self.read_operand(mode, operand_pc);
        let result = value & self.a;
        self.set_register_a(result);

        if page_crossed {
            1
        } else {
            0
        }
    }

    fn eor(&mut self, mode: AddressingMode, operand_pc: u16) -> (extra: u8)
        requires
            old(self).wf(),
        ensures
            final(self).wf(),
            final(self).bus.ppu.cycle == old(self).bus.ppu.cycle,
            final(self).bus.ppu.scanline == old(self).bus.ppu.scanline,
            final(self).bus.ppu.frame == old(self).bus.ppu.frame,
            extra <= 1,
            operand_pure_spec(old(self).bus.ram@, old(self).bus.cartridge, mode, operand_pc) && !(
            mode matches AddressingMode::Relative) ==> extra == (if resolved_operand_spec(
                old(self).bus.ram@,
                old(self).bus.cartridge,
                old(self).x,
                old(self).y,
                operand_pc,
                mode,
                operand_pc,
            ).1 {
                1u8
            } else {
                0u8
            }),
    {
        let (value, page_crossed) = self.read_operand(mode, operand_pc);
        let result = self.a ^ value;
        self.set_register_a(result);

        if page_crossed {
            1
        } else {
            0
        }
    }

    fn ora(&mut self, mode: AddressingMode, operand_pc: u16) -> (extra: u8)
        requires
            old(self).wf(),
        ensures
            final(self).wf(),
            final(self).bus.ppu.cycle == old(self).bus.ppu.cycle,
            final(self).bus.ppu.scanline == old(self).bus.ppu.scanline,
            final(self).bus.ppu.frame == old(self).bus.ppu.frame,
            extra <= 1,
            operand_pure_spec(old(self).bus.ram@, old(self).bus.cartridge, mode, operand_pc) && !(
            mode matches AddressingMode::Relative) ==> extra == (if resolved_operand_spec(
                old(self).bus.ram@,
                old(self).bus.cartridge,
                old(self).x,
                old(self).y,
                operand_pc,
                mode,
                operand_pc,
            ).1 {
                1u8
            } else {
                0u8
            }),
    {
        let (value, page_crossed) = self.read_operand(mode, operand_pc);
        let result = self.a | value;
        self.set_register_a(result);

        if page_crossed {
            1
        } else {
            0
        }
    }

    /// BIT: Z from A AND M, N from bit 7 of M, V from bit 6 of M.
    fn bit(&mut self, mode: AddressingMode, operand_pc: u16) -> (extra: u8)
        requires
            old(self).wf(),
        ensures
            final(self).wf(),
            final(self).bus.ppu.cycle == old(self).bus.ppu.cycle,
            final(self).bus.ppu.scanline == old(self).bus.ppu.scanline,
            final(self).bus.ppu.frame == old(self).bus.ppu.frame,
            extra == 0,
    {
        let (value, _) = self.read_operand(mode, operand_pc);
        let result = self.a & value;

        self.status.zero = result == 0;
        self.status.negative = value & 0x80 != 0;
        self.status.overflow = value & 0x40 != 0;
        0
    }

    fn adc(&mut self, mode: AddressingMode, operand_pc: u16) -> (extra: u8)
        requires
            old(self).wf(),
        ensures
            final(self).wf(),
            final(self).bus.ppu.cycle == old(self).bus.ppu.cycle,
            final(self).bus.ppu.scanline == old(self).bus.ppu.scanline,
            final(self).bus.ppu.frame == old(self).bus.ppu.frame,
            extra <= 1,
            operand_pure_spec(old(self).bus.ram@, old(self).bus.cartridge, mode, operand_pc) && !(
            mode matches AddressingMode::Relative) ==> extra == (if resolved_operand_spec(
                old(self).bus.ram@,
                old(self).bus.cartridge,
                old(self).x,
                old(self).y,
                operand_pc,
                mode,
                operand_pc,
            ).1 {
                1u8
            } else {
                0u8
            }),
    {
        let (value, page_crossed) = self.read_operand(mode, operand_pc);
        self.add_value_to_register_a(value);

        if page_crossed {
            1
        } else {
            0
        }
    }

    /// SBC is ADC of the ones-complement of the operand.
    fn sbc(&mut self, mode: AddressingMode, operand_pc: u16) -> (extra: u8)
        requires
            old(self).wf(),
        ensures
            final(self).wf(),
            final(self).bus.ppu.cycle == old(self).bus.ppu.cycle,
            final(self).bus.ppu.scanline == old(self).bus.ppu.scanline,
            final(self).bus.ppu.frame == old(self).bus.ppu.frame,
            extra <= 1,
            operand_pure_spec(old(self).bus.ram@, old(self).bus.cartridge, mode, operand_pc) && !(
            mode matches AddressingMode::Relative) ==> extra == (if resolved_operand_spec(
                old(self).bus.ram@,
                old(self).bus.cartridge,
                old(self).x,
                old(self).y,
                operand_pc,
                mode,
                operand_pc,
            ).1 {
                1u8
            } else {
                0u8
            }),
    {
        let (value, page_crossed) = self.read_operand(mode, operand_pc);
        self.add_value_to_register_a(value ^ 0xFF);

        if page_crossed {
            1
        } else {
            0
        }
    }

    fn cmp(&mut self, mode: AddressingMode, operand_pc: u16) -> (extra: u8)
        requires
            old(self).wf(),
        ensures
            final(self).wf(),
            final(self).bus.ppu.cycle == old(self).bus.ppu.cycle,
            final(self).bus.ppu.scanline == old(self).bus.ppu.scanline,
            final(self).bus.ppu.frame == old(self).bus.ppu.frame,
            extra <= 1,
            operand_pure_spec(old(self).bus.ram@, old(self).bus.cartridge, mode, operand_pc) && !(
            mode matches AddressingMode::Relative) ==> extra == (if resolved_operand_spec(
                old(self).bus.ram@,
                old(self).bus.cartridge,
                old(self).x,
                old(self).y,
                operand_pc,
                mode,
                operand_pc,
            ).1 {
                1u8
            } else {
                0u8
            }),
    {
        let reg = self.a;
        self.compare(mode, operand_pc, reg)
    }

    fn cpx(&mut self, mode: AddressingMode, operand_pc: u16) -> (extra: u8)
        requires
            old(self).wf(),
        ensures
            final(self).wf(),
            final(self).bus.ppu.cycle == old(self).bus.ppu.cycle,
            final(self).bus.ppu.scanline == old(self).bus.ppu.scanline,
            final(self).bus.ppu.frame == old(self).bus.ppu.frame,
            extra <= 1,
            operand_pure_spec(old(self).bus.ram@, old(self).bus.cartridge, mode, operand_pc) && !(
            mode matches AddressingMode::Relative) ==> extra == (if resolved_operand_spec(
                old(self).bus.ram@,
                old(self).bus.cartridge,
                old(self).x,
                old(self).y,
                operand_pc,
                mode,
                operand_pc,
            ).1 {
                1u8
            } else {
                0u8
            }),
    {
        let reg = self.x;
        self.compare(mode, operand_pc, reg)
    }

    fn cpy(&mut self, mode: AddressingMode, operand_pc: u16) -> (extra: u8)
        requires
            old(self).wf(),
        ensures
            final(self).wf(),
            final(self).bus.ppu.cycle == old(self).bus.ppu.cycle,
            final(self).bus.ppu.scanline == old(self).bus.ppu.scanline,
            final(self).bus.ppu.frame == old(self).bus.ppu.frame,
            extra <= 1,
            operand_pure_spec(old(self).bus.ram@, old(self).bus.cartridge, mode, operand_pc) && !(
            mode matches AddressingMode::Relative) ==> extra == (if resolved_operand_spec(
                old(self).bus.ram@,
                old(self).bus.cartridge,
                old(self).x,
                old(self).y,
                operand_pc,
                mode,
                operand_pc,
            ).1 {
                1u8
            } else {
                0u8
            }),
    {
        let reg = self.y;
        self.compare(mode, operand_pc, reg)
    }

    fn inc(&mut self, mode: AddressingMode, operand_pc: u16) -> (extra: u8)
        requires
            old(self).wf(),
        ensures
            final(self).wf(),
            final(self).bus.ppu.cycle == old(self).bus.ppu.cycle,
            final(self).bus.ppu.scanline == old(self).bus.ppu.scanline,
            final(self).bus.ppu.frame == old(self).bus.ppu.frame,
            extra == 0,
    {
        let (address, _) = self.get_operand_address(mode, operand_pc);
        let value = self.bus.read(address);
        let result = value.wrapping_add(1);

        self.bus.write(address, result);
        self.set_zero_and_negative_flags(result);
        0
    }

    fn inx(&mut self) -> (extra: u8)
        ensures
            *final(self) == (Cpu {
                x: old(self).x.wrapping_add(1),
                status: (StatusFlags {
                    zero: old(self).x.wrapping_add(1) == 0,
                    negative: old(self).x.wrapping_add(1) & 0x80 != 0,
                    ..old(self).status
                }),
                ..*old(self)
            }),
            extra == 0,
    {
        let value = self.x.wrapping_add(1);
        self.set_register_x(value);
        0
    }

    fn iny(&mut self) -> (extra: u8)
        ensures
            *final(self) == (Cpu {
                y: old(self).y.wrapping_add(1),
                status: (StatusFlags {
                    zero: old(self).y.wrapping_add(1) == 0,
                    negative: old(self).y.wrapping_add(1) & 0x80 != 0,
                    ..old(self).status
                }),
                ..*old(self)
            }),
            extra == 0,
    {
        let value = self.y.wrapping_add(1);
        self.set_register_y(value);
        0
    }

    fn dec(&mut self, mode: AddressingMode, operand_pc: u16) -> (extra: u8)
        requires
            old(self).wf(),
        ensures
            final(self).wf(),
            final(self).bus.ppu.cycle == old(self).bus.ppu.cycle,
            final(self).bus.ppu.scanline == old(self).bus.ppu.scanline,
            final(self).bus.ppu.frame == old(self).bus.ppu.frame,
            extra == 0,
    {
        let (address, _) = self.get_operand_address(mode, operand_pc);
        let value = self.bus.read(address);
        let result = value.wrapping_sub(1);

        self.bus.write(address, result);
        self.set_zero_and_negative_flags(result);
        0
    }

    fn dex(&mut self) -> (extra: u8)
        ensures
            *final(self) == (Cpu {
                x: old(self).x.wrapping_sub(1),
                status: (StatusFlags {
                    zero: old(self).x.wrapping_sub(1) == 0,
                    negative: old(self).x.wrapping_sub(1) & 0x80 != 0,
                    ..old(self).status
                }),
                ..*old(self)
            }),
            extra == 0,
    {
        let value = self.x.wrapping_sub(1);
        self.set_register_x(value);
        0
    }

    fn dey(&mut self) -> (extra: u8)
        ensures
            *final(self) == (Cpu {
                y: old(self).y.wrapping_sub(1),
                status: (StatusFlags {
                    zero: old(self).y.wrapping_sub(1) == 0,
                    negative: old(self).y.wrapping_sub(1) & 0x80 != 0,
                    ..old(self).status
                }),
                ..*old(self)
            }),
            extra == 0,
    {
        let value = self.y.wrapping_sub(1);
        self.set_register_y(value);
        0
    }

    /// ASL on A: the high bit enters C and the value doubles modulo 256.
    fn asl_accumulator(&mut self) -> (extra: u8)
        ensures
            *final(self) == (Cpu {
                a: old(self).a.wrapping_mul(2),
                status: (StatusFlags {
                    carry: old(self).a >= 0x80,
                    zero: old(self).a.wrapping_mul(2) == 0,
                    negative: old(self).a.wrapping_mul(2) & 0x80 != 0,
                    ..old(self).status
                }),
                ..*old(self)
            }),
            extra == 0,
    {
        let value = self.a;
        self.status.carry = value >> 7 == 1;
        proof {
            let v = value;
            assert((v >> 7 == 1) == (v >= 0x80) && (v << 1) == v.wrapping_mul(2)) by (bit_vector);
        }

        let result = value << 1;
        self.set_register_a(result);
        0
    }

    fn asl(&mut self, mode: AddressingMode, operand_pc: u16) -> (extra: u8)
        requires
            old(self).wf(),
        ensures
            final(self).wf(),
            final(self).bus.ppu.cycle == old(self).bus.ppu.cycle,
            final(self).bus.ppu.scanline == old(self).bus.ppu.scanline,
            final(self).bus.ppu.frame == old(self).bus.ppu.frame,
            extra == 0,
    {
        let (address, _) = self.get_operand_address(mode, operand_pc);
        let value = self.bus.read(address);

        self.status.carry = value >> 7 == 1;

        let result = value << 1;
        self.bus.write(address, result);
        self.set_zero_and_negative_flags(result);
        0
    }

    /// LSR on A: the low bit enters C and the value halves.
    fn lsr_accumulator(&mut self) -> (extra: u8)
        ensures
            *final(self) == (Cpu {
                a: old(self).a / 2,
                status: (StatusFlags {
                    carry: old(self).a & 1 == 1,
                    zero: old(self).a / 2 == 0,
                    negative: false,
                    ..old(self).status
                }),
                ..*old(self)
            }),
            extra == 0,
    {
        let value = self.a;
        self.status.carry = value & 1 == 1;
        proof {
            let v = value;
            assert((v >> 1) == v / 2 && ((v >> 1) & 0x80) == 0) by (bit_vector);
        }

        let result = value >> 1;
        self.set_register_a(result);
        0
    }

    fn lsr(&mut self, mode: AddressingMode, operand_pc: u16) -> (extra: u8)
        requires
            old(self).wf(),
        ensures
            final(self).wf(),
            final(self).bus.ppu.cycle == old(self).bus.ppu.cycle,
            final(self).bus.ppu.scanline == old(self).bus.ppu.scanline,
            final(self).bus.ppu.frame == old(self).bus.ppu.frame,
            extra == 0,
    {
        let (address, _) = self.get_operand_address(mode, operand_pc);
        let value = self.bus.read(address);

        self.status.carry = value & 1 == 1;

        let result = value >> 1;
        self.bus.write(address, result);
        self.set_zero_and_negative_flags(result);
        0
    }

    /// ROL on A: C enters bit 0 while bit 7 leaves into C.
    fn rol_accumulator(&mut self) -> (extra: u8)
        ensures
            ({
                let rotated = if old(self).status.carry {
                    (old(self).a.wrapping_mul(2) | 1u8) as u8
                } else {
                    old(self).a.wrapping_mul(2)
                };
                *final(self) == (Cpu {
                    a: rotated,
                    status: (StatusFlags {
                        carry: old(self).a >= 0x80,
                        zero: rotated == 0,
                        negative: rotated & 0x80 != 0,
                        ..old(self).status
                    }),
                    ..*old(self)
                })
            }),
            extra == 0,
    {
        let value = self.a;
        let carry = self.status.carry;

        self.status.carry = value >> 7 == 1;
        proof {
            let v = value;
            assert((v >> 7 == 1) == (v >= 0x80) && (v << 1) == v.wrapping_mul(2) && ((v << 1) | 1)
                == (v.wrapping_mul(2) | 1)) by (bit_vector);
        }

        let mut result = value << 1;
        if carry {
            result = result | 1;
        }
        self.set_register_a(result);
        0
    }

    fn rol(&mut self, mode: AddressingMode, operand_pc: u16) -> (extra: u8)
        requires
            old(self).wf(),
        ensures
            final(self).wf(),
            final(self).bus.ppu.cycle == old(self).bus.ppu.cycle,
            final(self).bus.ppu.scanline == old(self).bus.ppu.scanline,
            final(self).bus.ppu.frame == old(self).bus.ppu.frame,
            extra == 0,
    {
        let (address, _) = self.get_operand_address(mode, operand_pc);
        let value = self.bus.read(address);
        let carry = self.status.carry;

        self.status.carry = value >> 7 == 1;

        let mut result = value << 1;
        if carry {
            result = result | 1;
        }
        self.bus.write(address, result);
        self.set_zero_and_negative_flags(result);
        0
    }

    /// ROR on A: C enters bit 7 while bit 0 leaves into C.
    fn ror_accumulator(&mut self) -> (extra: u8)
        ensures
            ({
                let rotated = if old(self).status.carry {
                    (old(self).a / 2 | 0x80u8) as u8
                } else {
                    old(self).a / 2
                };
                *final(self) == (Cpu {
                    a: rotated,
                    status: (StatusFlags {
                        carry: old(self).a & 1 == 1,
                        zero: rotated == 0,
                        negative: rotated & 0x80 != 0,
                        ..old(self).status
                    }),
                    ..*old(self)
                })
            }),
            extra == 0,
    {
        let value = self.a;
        let carry = self.status.carry;

        self.status.carry = value & 1 == 1;
        proof {
            let v = value;
            assert((v >> 1) == v / 2 && ((v >> 1) | 0x80) == (v / 2 | 0x80)) by (bit_vector);
        }

        let mut result = value >> 1;
        if carry {
            result = result | 0x80;
        }
        self.set_register_a(result);
        0
    }

    fn ror(&mut self, mode: AddressingMode, operand_pc: u16) -> (extra: u8)
        requires
            old(self).wf(),
        ensures
            final(self).wf(),
            final(self).bus.ppu.cycle == old(self).bus.ppu.cycle,
            final(self).bus.ppu.scanline == old(self).bus.ppu.scanline,
            final(self).bus.ppu.frame == old(self).bus.ppu.frame,
            extra == 0,
    {
        let (address, _) = self.get_operand_address(mode, operand_pc);
        let value = self.bus.read(address);
        let carry = self.status.carry;

        self.status.carry = value & 1 == 1;

        let mut result = value >> 1;
        if carry {
            result = result | 0x80;
        }
        self.bus.write(address, result);
        self.set_zero_and_negative_flags(result);
        0
    }

    /// JMP: PC moves to the resolved address; the indirect mode carries the
    /// page-wrap quirk through the resolution.
    fn jmp(&mut self, mode: AddressingMode, operand_pc: u16) -> (extra: u8)
        requires
            old(self).wf(),
        ensures
            final(self).wf(),
            final(self).bus.ppu.cycle == old(self).bus.ppu.cycle,
            final(self).bus.ppu.scanline == old(self).bus.ppu.scanline,
            final(self).bus.ppu.frame == old(self).bus.ppu.frame,
            extra == 0,
            operand_pure_spec(old(self).bus.ram@, old(self).bus.cartridge, mode, operand_pc)
                ==> final(self).pc == resolved_operand_spec(
                old(self).bus.ram@,
                old(self).bus.cartridge,
                old(self).x,
                old(self).y,
                old(self).pc,
                mode,
                operand_pc,
            ).0 && *final(self) == (Cpu { pc: final(self).pc, ..*old(self) }),
    {
        let (target_address, _) = self.get_operand_address(mode, operand_pc);
        self.pc = target_address;
        0
    }

    /// JSR: the address of the call's last byte goes to the stack.
    fn jsr(&mut self, mode: AddressingMode, operand_pc: u16) -> (extra: u8)
        requires
            old(self).wf(),
        ensures
            final(self).wf(),
            final(self).bus.ppu.cycle == old(self).bus.ppu.cycle,
            final(self).bus.ppu.scanline == old(self).bus.ppu.scanline,
            final(self).bus.ppu.frame == old(self).bus.ppu.frame,
            extra == 0,
    {
        let (target_address, _) = self.get_operand_address(mode, operand_pc);

        let return_address = self.pc.wrapping_add(1);
        self.stack_push_u16(return_address);

        self.pc = target_address;
        0
    }

    /// RTS: PC resumes one past the pushed return address.
    fn rts(&mut self) -> (extra: u8)
        requires
            old(self).wf(),
        ensures
            final(self).wf(),
            final(self).bus.ppu.cycle == old(self).bus.ppu.cycle,
            final(self).bus.ppu.scanline == old(self).bus.ppu.scanline,
            final(self).bus.ppu.frame == old(self).bus.ppu.frame,
            extra == 0,
    {
        let return_address = self.stack_pop_u16();
        self.pc = return_address.wrapping_add(1);
        0
    }

    /// BRK: PC past the padding byte and P with B set go to the stack, I is
    /// set, and PC loads from $FFFE.
    fn brk(&mut self) -> (extra: u8)
        requires
            old(self).wf(),
        ensures
            final(self).wf(),
            final(self).bus.ppu.cycle == old(self).bus.ppu.cycle,
            final(self).bus.ppu.scanline == old(self).bus.ppu.scanline,
            final(self).bus.ppu.frame == old(self).bus.ppu.frame,
            final(self).status.interrupt_disable,
            extra == 0,
    {
        self.pc = self.pc.wrapping_add(1);
        let pc = self.pc;
        self.stack_push_u16(pc);

        let pushed = self.status.push_bits(true);
        self.stack_push(pushed);

        self.status.interrupt_disable = true;

        self.pc = self.read_u16(0xFFFE);
        0
    }

    /// RTI: P returns from the stack with B cleared and U set, then PC.
    fn rti(&mut self) -> (extra: u8)
        requires
            old(self).wf(),
        ensures
            final(self).wf(),
            final(self).bus.ppu.cycle == old(self).bus.ppu.cycle,
            final(self).bus.ppu.scanline == old(self).bus.ppu.scanline,
            final(self).bus.ppu.frame == old(self).bus.ppu.frame,
            final(self).status == StatusFlags::from_bits_spec(
                old(self).bus.ram@[0x100 + old(self).sp.wrapping_add(1) as int],
            ),
            final(self).sp == old(self).sp.wrapping_add(3),
            extra == 0,
    {
        let status = self.stack_pop();
        self.status = StatusFlags::from_bits(status);

        self.pc = self.stack_pop_u16();
        0
    }

    fn aac(&mut self, operand_pc: u16) -> (extra: u8)
        requires
            old(self).wf(),
        ensures
            final(self).wf(),
            final(self).bus.ppu.cycle == old(self).bus.ppu.cycle,
            final(self).bus.ppu.scanline == old(self).bus.ppu.scanline,
            final(self).bus.ppu.frame == old(self).bus.ppu.frame,
            extra == 0,
    {
        let value = self.bus.read(operand_pc);
        let a = self.a;
        self.set_register_a(value & a);
        self.status.carry = self.status.negative;
        0
    }

    fn aax(&mut self, mode: AddressingMode, operand_pc: u16) -> (extra: u8)
        requires
            old(self).wf(),
        ensures
            final(self).wf(),
            final(self).bus.ppu.cycle == old(self).bus.ppu.cycle,
            final(self).bus.ppu.scanline == old(self).bus.ppu.scanline,
            final(self).bus.ppu.frame == old(self).bus.ppu.frame,
            extra == 0,
    {
        let (address, _) = self.get_operand_address(mode, operand_pc);
        self.bus.write(address, self.a & self.x);
        0
    }

    fn arr(&mut self, operand_pc: u16) -> (extra: u8)
        requires
            old(self).wf(),
        ensures
            final(self).wf(),
            final(self).bus.ppu.cycle == old(self).bus.ppu.cycle,
            final(self).bus.ppu.scanline == old(self).bus.ppu.scanline,
            final(self).bus.ppu.frame == old(self).bus.ppu.frame,
            extra == 0,
    {
        let value = self.bus.read(operand_pc);
        let a = self.a;
        self.set_register_a(value & a);
        let _ = self.ror_accumulator();

        let result = self.a;
        let bit_5 = (result >> 5) & 1;
        let bit_6 = (result >> 6) & 1;

        self.status.carry = bit_6 == 1;
        self.status.overflow = bit_5 ^ bit_6 == 1;
        self.set_zero_and_negative_flags(result);
        0
    }

    fn asr(&mut self, operand_pc: u16) -> (extra: u8)
        requires
            old(self).wf(),
        ensures
            final(self).wf(),
            final(self).bus.ppu.cycle == old(self).bus.ppu.cycle,
            final(self).bus.ppu.scanline == old(self).bus.ppu.scanline,
            final(self).bus.ppu.frame == old(self).bus.ppu.frame,
            extra == 0,
    {
        let value = self.bus.read(operand_pc);
        let a = self.a;
        self.set_register_a(value & a);
        let _ = self.lsr_accumulator();
        0
    }

    fn atx(&mut self, operand_pc: u16) -> (extra: u8)
        requires
            old(self).wf(),
        ensures
            final(self).wf(),
            final(self).bus.ppu.cycle == old(self).bus.ppu.cycle,
            final(self).bus.ppu.scanline == old(self).bus.ppu.scanline,
            final(self).bus.ppu.frame == old(self).bus.ppu.frame,
            extra == 0,
    {
        let _ = self.lda(AddressingMode::Immediate, operand_pc);
        let _ = self.tax();
        0
    }

    fn axa(&mut self, mode: AddressingMode, operand_pc: u16) -> (extra: u8)
        requires
            old(self).wf(),
        ensures
            final(self).wf(),
            final(self).bus.ppu.cycle == old(self).bus.ppu.cycle,
            final(self).bus.ppu.scanline == old(self).bus.ppu.scanline,
            final(self).bus.ppu.frame == old(self).bus.ppu.frame,
            extra == 0,
    {
        let (address, _) = self.get_operand_address(mode, operand_pc);

        let result = self.a & self.x & ((address >> 8) as u8);
        self.bus.write(address, result);
        0
    }

    fn axs(&mut self, operand_pc: u16) -> (extra: u8)
        requires
            old(self).wf(),
        ensures
            final(self).wf(),
            final(self).bus.ppu.cycle == old(self).bus.ppu.cycle,
            final(self).bus.ppu.scanline == old(self).bus.ppu.scanline,
            final(self).bus.ppu.frame == old(self).bus.ppu.frame,
            extra == 0,
    {
        let value = self.bus.read(operand_pc);

        let a_and_x = self.a & self.x;
        let result = a_and_x.wrapping_sub(value);

        self.status.carry = value <= a_and_x;
        self.set_register_x(result);
        0
    }

    fn dcp(&mut self, mode: AddressingMode, operand_pc: u16) -> (extra: u8)
        requires
            old(self).wf(),
        ensures
            final(self).wf(),
            final(self).bus.ppu.cycle == old(self).bus.ppu.cycle,
            final(self).bus.ppu.scanline == old(self).bus.ppu.scanline,
            final(self).bus.ppu.frame == old(self).bus.ppu.frame,
            extra == 0,
    {
        let (address, _) = self.get_operand_address(mode, operand_pc);
        let value = self.bus.read(address);

        let result = value.wrapping_sub(1);
        self.bus.write(address, result);

        self.status.carry = result <= self.a;
        let diff = self.a.wrapping_sub(result);
        self.set_zero_and_negative_flags(diff);
        0
    }

    fn isc(&mut self, mode: AddressingMode, operand_pc: u16) -> (extra: u8)
        requires
            old(self).wf(),
        ensures
            final(self).wf(),
            final(self).bus.ppu.cycle == old(self).bus.ppu.cycle,
            final(self).bus.ppu.scanline == old(self).bus.ppu.scanline,
            final(self).bus.ppu.frame == old(self).bus.ppu.frame,
            extra == 0,
    {
        let (address, _) = self.get_operand_address(mode, operand_pc);
        let value = self.bus.read(address);
        let result = value.wrapping_add(1);

        self.bus.write(address, result);
        self.set_zero_and_negative_flags(result);
        self.add_value_to_register_a(result ^ 0xFF);
        0
    }

    /// KIL: the processor jams; the emulator loop observes `halted`.
    fn kil(&mut self) -> (extra: u8)
        ensures
            *final(self) == (Cpu { halted: true, ..*old(self) }),
            extra == 0,
    {
        self.halted = true;
        0
    }

    fn lar(&mut self, mode: AddressingMode, operand_pc: u16) -> (extra: u8)
        requires
            old(self).wf(),
        ensures
            final(self).wf(),
            final(self).bus.ppu.cycle == old(self).bus.ppu.cycle,
            final(self).bus.ppu.scanline == old(self).bus.ppu.scanline,
            final(self).bus.ppu.frame == old(self).bus.ppu.frame,
            extra <= 1,
            operand_pure_spec(old(self).bus.ram@, old(self).bus.cartridge, mode, operand_pc) && !(
            mode matches AddressingMode::Relative) ==> extra == (if resolved_operand_spec(
                old(self).bus.ram@,
                old(self).bus.cartridge,
                old(self).x,
                old(self).y,
                operand_pc,
                mode,
                operand_pc,
            ).1 {
                1u8
            } else {
                0u8
            }),
    {
        let (value, page_crossed) = self.read_operand(mode, operand_pc);

        let result = value & self.sp;
        self.a = result;
        self.x = result;
        self.sp = result;
        self.set_zero_and_negative_flags(result);

        if page_crossed {
            1
        } else {
            0
        }
    }

    fn lax(&mut self, mode: AddressingMode, operand_pc: u16) -> (extra: u8)
        requires
            old(self).wf(),
        ensures
            final(self).wf(),
            final(self).bus.ppu.cycle == old(self).bus.ppu.cycle,
            final(self).bus.ppu.scanline == old(self).bus.ppu.scanline,
            final(self).bus.ppu.frame == old(self).bus.ppu.frame,
            extra <= 1,
            operand_pure_spec(old(self).bus.ram@, old(self).bus.cartridge, mode, operand_pc) && !(
            mode matches AddressingMode::Relative) ==> extra == (if resolved_operand_spec(
                old(self).bus.ram@,
                old(self).bus.cartridge,
                old(self).x,
                old(self).y,
                operand_pc,
                mode,
                operand_pc,
            ).1 {
                1u8
            } else {
                0u8
            }),
    {
        let (value, page_crossed) = self.read_operand(mode, operand_pc);

        self.set_register_a(value);
        self.x = self.a;

        if page_crossed {
            1
        } else {
            0
        }
    }

    fn rla(&mut self, mode: AddressingMode, operand_pc: u16) -> (extra: u8)
        requires
            old(self).wf(),
        ensures
            final(self).wf(),
            final(self).bus.ppu.cycle == old(self).bus.ppu.cycle,
            final(self).bus.ppu.scanline == old(self).bus.ppu.scanline,
            final(self).bus.ppu.frame == old(self).bus.ppu.frame,
            extra == 0,
    {
        let (address, _) = self.get_operand_address(mode, operand_pc);
        let value = self.bus.read(address);
        let carry = self.status.carry;

        self.status.carry = value >> 7 == 1;

        let mut result = value << 1;
        if carry {
            result = result | 1;
        }
        self.bus.write(address, result);
        self.set_zero_and_negative_flags(result);

        let a = self.a;
        self.set_register_a(result & a);
        0
    }

    fn rra(&mut self, mode: AddressingMode, operand_pc: u16) -> (extra: u8)
        requires
            old(self).wf(),
        ensures
            final(self).wf(),
            final(self).bus.ppu.cycle == old(self).bus.ppu.cycle,
            final(self).bus.ppu.scanline == old(self).bus.ppu.scanline,
            final(self).bus.ppu.frame == old(self).bus.ppu.frame,
            extra == 0,
    {
        let (address, _) = self.get_operand_address(mode, operand_pc);
        let value = self.bus.read(address);
        let carry = self.status.carry;

        self.status.carry = value & 1 == 1;

        let mut result = value >> 1;
        if carry {
            result = result | 0x80;
        }
        self.bus.write(address, result);
        self.set_zero_and_negative_flags(result);

        self.add_value_to_register_a(result);
        0
    }

    fn slo(&mut self, mode: AddressingMode, operand_pc: u16) -> (extra: u8)
        requires
            old(self).wf(),
        ensures
            final(self).wf(),
            final(self).bus.ppu.cycle == old(self).bus.ppu.cycle,
            final(self).bus.ppu.scanline == old(self).bus.ppu.scanline,
            final(self).bus.ppu.frame == old(self).bus.ppu.frame,
            extra == 0,
    {
        let (address, _) = self.get_operand_address(mode, operand_pc);
        let value = self.bus.read(address);

        self.status.carry = value >> 7 == 1;

        let result = value << 1;
        self.bus.write(address, result);
        self.set_zero_and_negative_flags(result);

        let a = self.a;
        self.set_register_a(result | a);
        0
    }

    fn sre(&mut self, mode: AddressingMode, operand_pc: u16) -> (extra: u8)
        requires
            old(self).wf(),
        ensures
            final(self).wf(),
            final(self).bus.ppu.cycle == old(self).bus.ppu.cycle,
            final(self).bus.ppu.scanline == old(self).bus.ppu.scanline,
            final(self).bus.ppu.frame == old(self).bus.ppu.frame,
            extra == 0,
    {
        let (address, _) = self.get_operand_address(mode, operand_pc);
        let value = self.bus.read(address);

        self.status.carry = value & 1 == 1;

        let result = value >> 1;
        self.bus.write(address, result);
        self.set_zero_and_negative_flags(result);

        let a = self.a;
        self.set_register_a(result ^ a);
        0
    }

    fn sxa(&mut self, mode: AddressingMode, operand_pc: u16) -> (extra: u8)
        requires
            old(self).wf(),
        ensures
            final(self).wf(),
            final(self).bus.ppu.cycle == old(self).bus.ppu.cycle,
            final(self).bus.ppu.scanline == old(self).bus.ppu.scanline,
            final(self).bus.ppu.frame == old(self).bus.ppu.frame,
            extra == 0,
    {
        let (address, _) = self.get_operand_address(mode, operand_pc);

        let result = self.x & ((address >> 8) as u8).wrapping_add(1);
        self.bus.write(address, result);
        0
    }

    fn sya(&mut self, mode: AddressingMode, operand_pc: u16) -> (extra: u8)
        requires
            old(self).wf(),
        ensures
            final(self).wf(),
            final(self).bus.ppu.cycle == old(self).bus.ppu.cycle,
            final(self).bus.ppu.scanline == old(self).bus.ppu.scanline,
            final(self).bus.ppu.frame == old(self).bus.ppu.frame,
            extra == 0,
    {
        let (address, _) = self.get_operand_address(mode, operand_pc);

        let result = self.y & ((address >> 8) as u8).wrapping_add(1);
        self.bus.write(address, result);
        0
    }

    fn top(&mut self, mode: AddressingMode, operand_pc: u16) -> (extra: u8)
        requires
            old(self).wf(),
        ensures
            final(self).wf(),
            final(self).bus.ppu.cycle == old(self).bus.ppu.cycle,
            final(self).bus.ppu.scanline == old(self).bus.ppu.scanline,
            final(self).bus.ppu.frame == old(self).bus.ppu.frame,
            extra <= 1,
            operand_pure_spec(old(self).bus.ram@, old(self).bus.cartridge, mode, operand_pc) && !(
            mode matches AddressingMode::Relative) ==> extra == (if resolved_operand_spec(
                old(self).bus.ram@,
                old(self).bus.cartridge,
                old(self).x,
                old(self).y,
                operand_pc,
                mode,
                operand_pc,
            ).1 {
                1u8
            } else {
                0u8
            }),
    {
        let (_, page_crossed) = self.read_operand(mode, operand_pc);

        if page_crossed {
            1
        } else {
            0
        }
    }

    fn xaa(&mut self, mode: AddressingMode, operand_pc: u16) -> (extra: u8)
        requires
            old(self).wf(),
        ensures
            final(self).wf(),
            final(self).bus.ppu.cycle == old(self).bus.ppu.cycle,
            final(self).bus.ppu.scanline == old(self).bus.ppu.scanline,
            final(self).bus.ppu.frame == old(self).bus.ppu.frame,
            extra == 0,
    {
        self.a = self.x;
        let a = self.a;
        self.set_zero_and_negative_flags(a);

        let (value, _) = self.read_operand(mode, operand_pc);
        let a2 = self.a;
        self.set_register_a(value & a2);
        0
    }

    fn xas(&mut self, mode: AddressingMode, operand_pc: u16) -> (extra: u8)
        requires
            old(self).wf(),
        ensures
            final(self).wf(),
            final(self).bus.ppu.cycle == old(self).bus.ppu.cycle,
            final(self).bus.ppu.scanline == old(self).bus.ppu.scanline,
            final(self).bus.ppu.frame == old(self).bus.ppu.frame,
            extra == 0,
    {
        let (address, _) = self.get_operand_address(mode, operand_pc);

        let value = self.a & self.x;
        self.sp = value;

        let stored = ((address >> 8) as u8).wrapping_add(1) & self.sp;
        self.bus.write(address, stored);
        0
    }

    /// The ADC core: A takes A + value + C modulo 256, C takes the carry
    /// out, V the signed overflow, and Z and N follow the result.
    pub fn add_value_to_register_a(&mut self, value: u8)
        ensures
            *final(self) == (Cpu {
                a: adc_sum_spec(old(self).a, value, old(self).status.carry),
                status: (StatusFlags {
                    carry: adc_carry_spec(old(self).a, value, old(self).status.carry),
                    overflow: adc_overflow_spec(old(self).a, value, old(self).status.carry),
                    zero: adc_sum_spec(old(self).a, value, old(self).status.carry) == 0,
                    negative: adc_sum_spec(old(self).a, value, old(self).status.carry) & 0x80
                        != 0,
                    ..old(self).status
                }),
                ..*old(self)
            }),
    {
        let carry_in: u16 = if self.status.carry {
            1
        } else {
            0
        };
        let sum: u16 = self.a as u16 + value as u16 + carry_in;

        self.status.carry = sum > 0xFF;

        let result: u8 = (sum % 256) as u8;
        self.status.overflow = (value ^ result) & (result ^ self.a) & 0x80 != 0;

        self.set_register_a(result);
    }

    /// The CMP/CPX/CPY core over the fetched operand.
    fn compare(&mut self, mode: AddressingMode, operand_pc: u16, compare_with: u8) -> (extra: u8)
        requires
            old(self).wf(),
        ensures
            final(self).wf(),
            final(self).bus.ppu.cycle == old(self).bus.ppu.cycle,
            final(self).bus.ppu.scanline == old(self).bus.ppu.scanline,
            final(self).bus.ppu.frame == old(self).bus.ppu.frame,
            extra <= 1,
            operand_pure_spec(old(self).bus.ram@, old(self).bus.cartridge, mode, operand_pc) && !(
            mode matches AddressingMode::Relative) ==> extra == (if resolved_operand_spec(
                old(self).bus.ram@,
                old(self).bus.cartridge,
                old(self).x,
                old(self).y,
                operand_pc,
                mode,
                operand_pc,
            ).1 {
                1u8
            } else {
                0u8
            }),
            final(self).a == old(self).a,
            final(self).x == old(self).x,
            final(self).y == old(self).y,
    {
        let (value, page_crossed) = self.read_operand(mode, operand_pc);
        self.apply_compare(value, compare_with);

        if page_crossed {
            1
        } else {
            0
        }
    }

    /// The comparison flag update alone: C when the register is at least
    /// the operand, Z and N from the wrapped difference — so comparing any
    /// value with itself leaves C and Z both set.
    pub fn apply_compare(&mut self, value: u8, compare_with: u8)
        ensures
            *final(self) == (Cpu {
                status: compare_flags_spec(old(self).status, value, compare_with),
                ..*old(self)
            }),
    {
        self.status.carry = value <= compare_with;
        let diff = compare_with.wrapping_sub(value);
        self.set_zero_and_negative_flags(diff);
    }

    /// A taken branch moves PC to the offset target and costs one extra
    /// cycle, or two when the target lies in another page; a skipped branch
    /// moves past the offset byte for free.
    fn branch_if(&mut self, operand_pc: u16, condition: bool) -> (extra: u8)
        requires
            old(self).wf(),
        ensures
            final(self).wf(),
            final(self).bus.ppu.cycle == old(self).bus.ppu.cycle,
            final(self).bus.ppu.scanline == old(self).bus.ppu.scanline,
            final(self).bus.ppu.frame == old(self).bus.ppu.frame,
            !condition ==> extra == 0 && *final(self) == (Cpu {
                pc: operand_pc.wrapping_add(1),
                ..*old(self)
            }),
            condition ==> 1 <= extra <= 2,
            condition && pure_byte_region_spec(operand_pc) ==> ({
                let target = branch_target_spec(
                    old(self).bus.ram@,
                    old(self).bus.cartridge,
                    operand_pc,
                );
                &&& extra == (if page_crossed_spec(word_add_spec(operand_pc, 1), target) {
                    2u8
                } else {
                    1u8
                })
                &&& *final(self) == (Cpu { pc: target, ..*old(self) })
            }),
    {
        if condition {
            let offset = self.bus.read(operand_pc);
            let delta: u16 = if offset < 0x80 {
                offset as u16
            } else {
                (offset as u16) | 0xFF00
            };
            let branch_base_address = operand_pc.wrapping_add(1);
            let target_address = branch_base_address.wrapping_add(delta);
            proof {
                super::addressing::lemma_mod_65536(operand_pc as int + 1);
                super::addressing::lemma_mod_65536(
                    branch_base_address as int + delta as int,
                );
            }

            let page_crossed = branch_base_address & 0xFF00 != target_address & 0xFF00;
            self.pc = target_address;

            if page_crossed {
                2
            } else {
                1
            }
        } else {
            self.pc = operand_pc.wrapping_add(1);
            0
        }
    }
}


/// Comparing any value with itself leaves C and Z set and N clear.
pub proof fn lemma_compare_value_with_itself(s: StatusFlags, v: u8)
    ensures
        compare_flags_spec(s, v, v).carry,
        compare_flags_spec(s, v, v).zero,
        !compare_flags_spec(s, v, v).negative,
{
    assert(v.wrapping_sub(v) == 0);
    assert(0u8 & 0x80 == 0) by (bit_vector);
}

/// Adding 0 to 0 with carry clear leaves A at 0 with Z set and C, V, and N
/// all clear.
pub proof fn lemma_adc_zero_plus_zero()
    ensures
        adc_sum_spec(0, 0, false) == 0,
        !adc_carry_spec(0, 0, false),
        !adc_overflow_spec(0, 0, false),
{
    assert(adc_sum_spec(0, 0, false) == 0);
    assert((0u8 ^ 0u8) & (0u8 ^ 0u8) & 0x80 == 0) by (bit_vector);
}

/// The value after `n` left shifts of the accumulator.
pub open spec fn asl_iter_spec(v: u8, n: nat) -> u8
    decreases n,
{
    if n == 0 {
        v
    } else {
        asl_iter_spec(v, (n - 1) as nat).wrapping_mul(2)
    }
}

/// Shifting a value left `n` times equals the value times two to the `n`,
/// modulo 256.
pub proof fn lemma_asl_iterated(v: u8, n: nat)
    ensures
        asl_iter_spec(v, n) == (v * vstd::arithmetic::power2::pow2(n)) % 256,
    decreases n,
{
    if n == 0 {
        vstd::arithmetic::power2::lemma_pow2(0);
        vstd::arithmetic::power::lemma_pow0(2);
        assert((v as int * 1) % 256 == v as int % 256);
        vstd::arithmetic::div_mod::lemma_small_mod(v as nat, 256nat);
    } else {
        lemma_asl_iterated(v, (n - 1) as nat);
        let p = vstd::arithmetic::power2::pow2((n - 1) as nat);
        assert(vstd::arithmetic::power2::pow2(n) == 2 * p) by {
            vstd::arithmetic::power2::lemma_pow2_unfold(n);
        }
        let prev = asl_iter_spec(v, (n - 1) as nat);
        assert(prev == (v * p) % 256);
        assert(prev.wrapping_mul(2) == (prev * 2) % 256);
        vstd::arithmetic::div_mod::lemma_mul_mod_noop_left(v * p, 2, 256);
        assert((v * p) * 2 == v * (2 * p)) by (nonlinear_arith);
    }
}

/// An even run of left shifts of 0 leaves 0 — as does any run at all.
pub proof fn lemma_asl_of_zero_stays_zero(n: nat)
    ensures
        asl_iter_spec(0, n) == 0,
    decreases n,
{
    if n > 0 {
        lemma_asl_of_zero_stays_zero((n - 1) as nat);
    }
}

} // verus!

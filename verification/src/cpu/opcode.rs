//! The opcode table: one entry per byte with mnemonic, instruction,
//! addressing mode, size, base cycle count, and the page-cross and
//! branch-taken cycle bonuses. The table is total over all 256 bytes,
//! the undocumented set included.

use vstd::prelude::*;

verus! {

use super::addressing::AddressingMode;
use super::instructions::Instruction;

#[derive(Clone, Copy, Debug)]
pub struct Opcode {
    pub opcode: u8,
    pub mnemonic: &'static str,
    pub instruction: Instruction,
    pub mode: AddressingMode,
    pub size_bytes: u8,
    pub cycles: u8,
    pub additional_cycle_on_page_cross: bool,
    pub additional_cycle_on_branch_taken: bool,
}

impl Opcode {
    pub fn new(
        opcode: u8,
        mnemonic: &'static str,
        instruction: Instruction,
        mode: AddressingMode,
        size_bytes: u8,
        cycles: u8,
        additional_cycle_on_page_cross: bool,
        additional_cycle_on_branch_taken: bool,
    ) -> (r: Opcode)
        ensures
            r.opcode == opcode,
            r.instruction == instruction,
            r.mode == mode,
            r.size_bytes == size_bytes,
            r.cycles == cycles,
            r.additional_cycle_on_page_cross == additional_cycle_on_page_cross,
            r.additional_cycle_on_branch_taken == additional_cycle_on_branch_taken,
    {
        Opcode {
            opcode,
            mnemonic,
            instruction,
            mode,
            size_bytes,
            cycles,
            additional_cycle_on_page_cross,
            additional_cycle_on_branch_taken,
        }
    }

    /// Looks a byte up in the table.
    pub fn lookup(opcode: u8) -> (r: Opcode)
        ensures
            r.opcode == opcode,
            r.instruction == instruction_spec(opcode),
            r.mode == mode_spec(opcode),
            r.size_bytes == size_spec(opcode),
            r.cycles == base_cycles_spec(opcode),
            r.additional_cycle_on_page_cross == page_cross_bonus_spec(opcode),
            r.additional_cycle_on_branch_taken == branch_bonus_spec(opcode),
            1 <= r.size_bytes <= 3,
            1 <= r.cycles <= 8,
    {
        let r = Self::lookup_entry(opcode);
        proof {
            lemma_table_bounds(opcode);
        }
        r
    }

    fn lookup_entry(opcode: u8) -> (r: Opcode)
        ensures
            r.opcode == opcode,
            r.instruction == instruction_spec(opcode),
            r.mode == mode_spec(opcode),
            r.size_bytes == size_spec(opcode),
            r.cycles == base_cycles_spec(opcode),
            r.additional_cycle_on_page_cross == page_cross_bonus_spec(opcode),
            r.additional_cycle_on_branch_taken == branch_bonus_spec(opcode),
    {
        if opcode < 64 {
            Self::lookup_quarter_0(opcode)
        } else if opcode < 128 {
            Self::lookup_quarter_1(opcode)
        } else if opcode < 192 {
            Self::lookup_quarter_2(opcode)
        } else {
            Self::lookup_quarter_3(opcode)
        }
    }

    #[verifier::rlimit(100)]
    fn lookup_quarter_0(opcode: u8) -> (r: Opcode)
        requires
            0 <= opcode < 64,
        ensures
            r.opcode == opcode,
            r.instruction == instruction_spec(opcode),
            r.mode == mode_spec(opcode),
            r.size_bytes == size_spec(opcode),
            r.cycles == base_cycles_spec(opcode),
            r.additional_cycle_on_page_cross == page_cross_bonus_spec(opcode),
            r.additional_cycle_on_branch_taken == branch_bonus_spec(opcode),
    {
        match opcode {
            0x00 => Opcode::new(0x00, "BRK", Instruction::BRK, AddressingMode::Implied, 2, 7, false, false),
            0x01 => Opcode::new(0x01, "ORA", Instruction::ORA, AddressingMode::IndirectX, 2, 6, false, false),
            0x02 => Opcode::new(0x02, "KIL", Instruction::KIL, AddressingMode::Implied, 1, 1, false, false),
            0x03 => Opcode::new(0x03, "SLO", Instruction::SLO, AddressingMode::IndirectX, 2, 8, false, false),
            0x04 => Opcode::new(0x04, "DOP", Instruction::DOP, AddressingMode::ZeroPage, 2, 3, false, false),
            0x05 => Opcode::new(0x05, "ORA", Instruction::ORA, AddressingMode::ZeroPage, 2, 3, false, false),
            0x06 => Opcode::new(0x06, "ASL", Instruction::ASL, AddressingMode::ZeroPage, 2, 5, false, false),
            0x07 => Opcode::new(0x07, "SLO", Instruction::SLO, AddressingMode::ZeroPage, 2, 5, false, false),
            0x08 => Opcode::new(0x08, "PHP", Instruction::PHP, AddressingMode::Implied, 1, 3, false, false),
            0x09 => Opcode::new(0x09, "ORA", Instruction::ORA, AddressingMode::Immediate, 2, 2, false, false),
            0x0A => Opcode::new(0x0A, "ASL", Instruction::ASL, AddressingMode::Accumulator, 1, 2, false, false),
            0x0B => Opcode::new(0x0B, "AAC", Instruction::AAC, AddressingMode::Immediate, 2, 2, false, false),
            0x0C => Opcode::new(0x0C, "TOP", Instruction::TOP, AddressingMode::Absolute, 3, 4, false, false),
            0x0D => Opcode::new(0x0D, "ORA", Instruction::ORA, AddressingMode::Absolute, 3, 4, false, false),
            0x0E => Opcode::new(0x0E, "ASL", Instruction::ASL, AddressingMode::Absolute, 3, 6, false, false),
            0x0F => Opcode::new(0x0F, "SLO", Instruction::SLO, AddressingMode::Absolute, 3, 6, false, false),
            0x10 => Opcode::new(0x10, "BPL", Instruction::BPL, AddressingMode::Relative, 2, 2, true, true),
            0x11 => Opcode::new(0x11, "ORA", Instruction::ORA, AddressingMode::IndirectY, 2, 5, true, false),
            0x12 => Opcode::new(0x12, "KIL", Instruction::KIL, AddressingMode::Implied, 1, 1, false, false),
            0x13 => Opcode::new(0x13, "SLO", Instruction::SLO, AddressingMode::IndirectY, 2, 8, false, false),
            0x14 => Opcode::new(0x14, "DOP", Instruction::DOP, AddressingMode::ZeroPageX, 2, 4, false, false),
            0x15 => Opcode::new(0x15, "ORA", Instruction::ORA, AddressingMode::ZeroPageX, 2, 4, false, false),
            0x16 => Opcode::new(0x16, "ASL", Instruction::ASL, AddressingMode::ZeroPageX, 2, 6, false, false),
            0x17 => Opcode::new(0x17, "SLO", Instruction::SLO, AddressingMode::ZeroPageX, 2, 6, false, false),
            0x18 => Opcode::new(0x18, "CLC", Instruction::CLC, AddressingMode::Implied, 1, 2, false, false),
            0x19 => Opcode::new(0x19, "ORA", Instruction::ORA, AddressingMode::AbsoluteY, 3, 4, true, false),
            0x1A => Opcode::new(0x1A, "NOP", Instruction::NOP, AddressingMode::Implied, 1, 2, false, false),
            0x1B => Opcode::new(0x1B, "SLO", Instruction::SLO, AddressingMode::AbsoluteY, 3, 7, false, false),
            0x1C => Opcode::new(0x1C, "TOP", Instruction::TOP, AddressingMode::AbsoluteX, 3, 4, true, false),
            0x1D => Opcode::new(0x1D, "ORA", Instruction::ORA, AddressingMode::AbsoluteX, 3, 4, true, false),
            0x1E => Opcode::new(0x1E, "ASL", Instruction::ASL, AddressingMode::AbsoluteX, 3, 7, false, false),
            0x1F => Opcode::new(0x1F, "SLO", Instruction::SLO, AddressingMode::AbsoluteX, 3, 7, false, false),
            0x20 => Opcode::new(0x20, "JSR", Instruction::JSR, AddressingMode::Absolute, 3, 6, false, false),
            0x21 => Opcode::new(0x21, "AND", Instruction::AND, AddressingMode::IndirectX, 2, 6, false, false),
            0x22 => Opcode::new(0x22, "KIL", Instruction::KIL, AddressingMode::Implied, 1, 1, false, false),
            0x23 => Opcode::new(0x23, "RLA", Instruction::RLA, AddressingMode::IndirectX, 2, 8, false, false),
            0x24 => Opcode::new(0x24, "BIT", Instruction::BIT, AddressingMode::ZeroPage, 2, 3, false, false),
            0x25 => Opcode::new(0x25, "AND", Instruction::AND, AddressingMode::ZeroPage, 2, 3, false, false),
            0x26 => Opcode::new(0x26, "ROL", Instruction::ROL, AddressingMode::ZeroPage, 2, 5, false, false),
            0x27 => Opcode::new(0x27, "RLA", Instruction::RLA, AddressingMode::ZeroPage, 2, 5, false, false),
            0x28 => Opcode::new(0x28, "PLP", Instruction::PLP, AddressingMode::Implied, 1, 4, false, false),
            0x29 => Opcode::new(0x29, "AND", Instruction::AND, AddressingMode::Immediate, 2, 2, false, false),
            0x2A => Opcode::new(0x2A, "ROL", Instruction::ROL, AddressingMode::Accumulator, 1, 2, false, false),
            0x2B => Opcode::new(0x2B, "AAC", Instruction::AAC, AddressingMode::Immediate, 2, 2, false, false),
            0x2C => Opcode::new(0x2C, "BIT", Instruction::BIT, AddressingMode::Absolute, 3, 4, false, false),
            0x2D => Opcode::new(0x2D, "AND", Instruction::AND, AddressingMode::Absolute, 3, 4, false, false),
            0x2E => Opcode::new(0x2E, "ROL", Instruction::ROL, AddressingMode::Absolute, 3, 6, false, false),
            0x2F => Opcode::new(0x2F, "RLA", Instruction::RLA, AddressingMode::Absolute, 3, 6, false, false),
            0x30 => Opcode::new(0x30, "BMI", Instruction::BMI, AddressingMode::Relative, 2, 2, true, true),
            0x31 => Opcode::new(0x31, "AND", Instruction::AND, AddressingMode::IndirectY, 2, 5, true, false),
            0x32 => Opcode::new(0x32, "KIL", Instruction::KIL, AddressingMode::Implied, 1, 1, false, false),
            0x33 => Opcode::new(0x33, "RLA", Instruction::RLA, AddressingMode::IndirectY, 2, 8, false, false),
            0x34 => Opcode::new(0x34, "DOP", Instruction::DOP, AddressingMode::ZeroPageX, 2, 4, false, false),
            0x35 => Opcode::new(0x35, "AND", Instruction::AND, AddressingMode::ZeroPageX, 2, 4, false, false),
            0x36 => Opcode::new(0x36, "ROL", Instruction::ROL, AddressingMode::ZeroPageX, 2, 6, false, false),
            0x37 => Opcode::new(0x37, "RLA", Instruction::RLA, AddressingMode::ZeroPageX, 2, 6, false, false),
            0x38 => Opcode::new(0x38, "SEC", Instruction::SEC, AddressingMode::Implied, 1, 2, false, false),
            0x39 => Opcode::new(0x39, "AND", Instruction::AND, AddressingMode::AbsoluteY, 3, 4, true, false),
            0x3A => Opcode::new(0x3A, "NOP", Instruction::NOP, AddressingMode::Implied, 1, 2, false, false),
            0x3B => Opcode::new(0x3B, "RLA", Instruction::RLA, AddressingMode::AbsoluteY, 3, 7, false, false),
            0x3C => Opcode::new(0x3C, "TOP", Instruction::TOP, AddressingMode::AbsoluteX, 3, 4, true, false),
            0x3D => Opcode::new(0x3D, "AND", Instruction::AND, AddressingMode::AbsoluteX, 3, 4, true, false),
            0x3E => Opcode::new(0x3E, "ROL", Instruction::ROL, AddressingMode::AbsoluteX, 3, 7, false, false),
            _ => Opcode::new(0x3F, "RLA", Instruction::RLA, AddressingMode::AbsoluteX, 3, 7, false, false),
        }
    }

    #[verifier::rlimit(100)]
    fn lookup_quarter_1(opcode: u8) -> (r: Opcode)
        requires
            64 <= opcode < 128,
        ensures
            r.opcode == opcode,
            r.instruction == instruction_spec(opcode),
            r.mode == mode_spec(opcode),
            r.size_bytes == size_spec(opcode),
            r.cycles == base_cycles_spec(opcode),
            r.additional_cycle_on_page_cross == page_cross_bonus_spec(opcode),
            r.additional_cycle_on_branch_taken == branch_bonus_spec(opcode),
    {
        match opcode {
            0x40 => Opcode::new(0x40, "RTI", Instruction::RTI, AddressingMode::Implied, 1, 6, false, false),
            0x41 => Opcode::new(0x41, "EOR", Instruction::EOR, AddressingMode::IndirectX, 2, 6, false, false),
            0x42 => Opcode::new(0x42, "KIL", Instruction::KIL, AddressingMode::Implied, 1, 1, false, false),
            0x43 => Opcode::new(0x43, "SRE", Instruction::SRE, AddressingMode::IndirectX, 2, 8, false, false),
            0x44 => Opcode::new(0x44, "DOP", Instruction::DOP, AddressingMode::ZeroPage, 2, 3, false, false),
            0x45 => Opcode::new(0x45, "EOR", Instruction::EOR, AddressingMode::ZeroPage, 2, 3, false, false),
            0x46 => Opcode::new(0x46, "LSR", Instruction::LSR, AddressingMode::ZeroPage, 2, 5, false, false),
            0x47 => Opcode::new(0x47, "SRE", Instruction::SRE, AddressingMode::ZeroPage, 2, 5, false, false),
            0x48 => Opcode::new(0x48, "PHA", Instruction::PHA, AddressingMode::Implied, 1, 3, false, false),
            0x49 => Opcode::new(0x49, "EOR", Instruction::EOR, AddressingMode::Immediate, 2, 2, false, false),
            0x4A => Opcode::new(0x4A, "LSR", Instruction::LSR, AddressingMode::Accumulator, 1, 2, false, false),
            0x4B => Opcode::new(0x4B, "ASR", Instruction::ASR, AddressingMode::Immediate, 2, 2, false, false),
            0x4C => Opcode::new(0x4C, "JMP", Instruction::JMP, AddressingMode::Absolute, 3, 3, false, false),
            0x4D => Opcode::new(0x4D, "EOR", Instruction::EOR, AddressingMode::Absolute, 3, 4, false, false),
            0x4E => Opcode::new(0x4E, "LSR", Instruction::LSR, AddressingMode::Absolute, 3, 6, false, false),
            0x4F => Opcode::new(0x4F, "SRE", Instruction::SRE, AddressingMode::Absolute, 3, 6, false, false),
            0x50 => Opcode::new(0x50, "BVC", Instruction::BVC, AddressingMode::Relative, 2, 2, true, true),
            0x51 => Opcode::new(0x51, "EOR", Instruction::EOR, AddressingMode::IndirectY, 2, 5, true, false),
            0x52 => Opcode::new(0x52, "KIL", Instruction::KIL, AddressingMode::Implied, 1, 1, false, false),
            0x53 => Opcode::new(0x53, "SRE", Instruction::SRE, AddressingMode::IndirectY, 2, 8, false, false),
            0x54 => Opcode::new(0x54, "DOP", Instruction::DOP, AddressingMode::ZeroPageX, 2, 4, false, false),
            0x55 => Opcode::new(0x55, "EOR", Instruction::EOR, AddressingMode::ZeroPageX, 2, 4, false, false),
            0x56 => Opcode::new(0x56, "LSR", Instruction::LSR, AddressingMode::ZeroPageX, 2, 6, false, false),
            0x57 => Opcode::new(0x57, "SRE", Instruction::SRE, AddressingMode::ZeroPageX, 2, 6, false, false),
            0x58 => Opcode::new(0x58, "CLI", Instruction::CLI, AddressingMode::Implied, 1, 2, false, false),
            0x59 => Opcode::new(0x59, "EOR", Instruction::EOR, AddressingMode::AbsoluteY, 3, 4, true, false),
            0x5A => Opcode::new(0x5A, "NOP", Instruction::NOP, AddressingMode::Implied, 1, 2, false, false),
            0x5B => Opcode::new(0x5B, "SRE", Instruction::SRE, AddressingMode::AbsoluteY, 3, 7, false, false),
            0x5C => Opcode::new(0x5C, "TOP", Instruction::TOP, AddressingMode::AbsoluteX, 3, 4, true, false),
            0x5D => Opcode::new(0x5D, "EOR", Instruction::EOR, AddressingMode::AbsoluteX, 3, 4, true, false),
            0x5E => Opcode::new(0x5E, "LSR", Instruction::LSR, AddressingMode::AbsoluteX, 3, 7, false, false),
            0x5F => Opcode::new(0x5F, "SRE", Instruction::SRE, AddressingMode::AbsoluteX, 3, 7, false, false),
            0x60 => Opcode::new(0x60, "RTS", Instruction::RTS, AddressingMode::Implied, 1, 6, false, false),
            0x61 => Opcode::new(0x61, "ADC", Instruction::ADC, AddressingMode::IndirectX, 2, 6, false, false),
            0x62 => Opcode::new(0x62, "KIL", Instruction::KIL, AddressingMode::Implied, 1, 1, false, false),
            0x63 => Opcode::new(0x63, "RRA", Instruction::RRA, AddressingMode::IndirectX, 2, 8, false, false),
            0x64 => Opcode::new(0x64, "DOP", Instruction::DOP, AddressingMode::ZeroPage, 2, 3, false, false),
            0x65 => Opcode::new(0x65, "ADC", Instruction::ADC, AddressingMode::ZeroPage, 2, 3, false, false),
            0x66 => Opcode::new(0x66, "ROR", Instruction::ROR, AddressingMode::ZeroPage, 2, 5, false, false),
            0x67 => Opcode::new(0x67, "RRA", Instruction::RRA, AddressingMode::ZeroPage, 2, 5, false, false),
            0x68 => Opcode::new(0x68, "PLA", Instruction::PLA, AddressingMode::Implied, 1, 4, false, false),
            0x69 => Opcode::new(0x69, "ADC", Instruction::ADC, AddressingMode::Immediate, 2, 2, false, false),
            0x6A => Opcode::new(0x6A, "ROR", Instruction::ROR, AddressingMode::Accumulator, 1, 2, false, false),
            0x6B => Opcode::new(0x6B, "ARR", Instruction::ARR, AddressingMode::Immediate, 2, 2, false, false),
            0x6C => Opcode::new(0x6C, "JMP", Instruction::JMP, AddressingMode::Indirect, 3, 5, false, false),
            0x6D => Opcode::new(0x6D, "ADC", Instruction::ADC, AddressingMode::Absolute, 3, 4, false, false),
            0x6E => Opcode::new(0x6E, "ROR", Instruction::ROR, AddressingMode::Absolute, 3, 6, false, false),
            0x6F => Opcode::new(0x6F, "RRA", Instruction::RRA, AddressingMode::Absolute, 3, 6, false, false),
            0x70 => Opcode::new(0x70, "BVS", Instruction::BVS, AddressingMode::Relative, 2, 2, true, true),
            0x71 => Opcode::new(0x71, "ADC", Instruction::ADC, AddressingMode::IndirectY, 2, 5, true, false),
            0x72 => Opcode::new(0x72, "KIL", Instruction::KIL, AddressingMode::Implied, 1, 1, false, false),
            0x73 => Opcode::new(0x73, "RRA", Instruction::RRA, AddressingMode::IndirectY, 2, 8, false, false),
            0x74 => Opcode::new(0x74, "DOP", Instruction::DOP, AddressingMode::ZeroPageX, 2, 4, false, false),
            0x75 => Opcode::new(0x75, "ADC", Instruction::ADC, AddressingMode::ZeroPageX, 2, 4, false, false),
            0x76 => Opcode::new(0x76, "ROR", Instruction::ROR, AddressingMode::ZeroPageX, 2, 6, false, false),
            0x77 => Opcode::new(0x77, "RRA", Instruction::RRA, AddressingMode::ZeroPageX, 2, 6, false, false),
            0x78 => Opcode::new(0x78, "SEI", Instruction::SEI, AddressingMode::Implied, 1, 2, false, false),
            0x79 => Opcode::new(0x79, "ADC", Instruction::ADC, AddressingMode::AbsoluteY, 3, 4, true, false),
            0x7A => Opcode::new(0x7A, "NOP", Instruction::NOP, AddressingMode::Implied, 1, 2, false, false),
            0x7B => Opcode::new(0x7B, "RRA", Instruction::RRA, AddressingMode::AbsoluteY, 3, 7, false, false),
            0x7C => Opcode::new(0x7C, "TOP", Instruction::TOP, AddressingMode::AbsoluteX, 3, 4, true, false),
            0x7D => Opcode::new(0x7D, "ADC", Instruction::ADC, AddressingMode::AbsoluteX, 3, 4, true, false),
            0x7E => Opcode::new(0x7E, "ROR", Instruction::ROR, AddressingMode::AbsoluteX, 3, 7, false, false),
            _ => Opcode::new(0x7F, "RRA", Instruction::RRA, AddressingMode::AbsoluteX, 3, 7, false, false),
        }
    }

    #[verifier::rlimit(100)]
    fn lookup_quarter_2(opcode: u8) -> (r: Opcode)
        requires
            128 <= opcode < 192,
        ensures
            r.opcode == opcode,
            r.instruction == instruction_spec(opcode),
            r.mode == mode_spec(opcode),
            r.size_bytes == size_spec(opcode),
            r.cycles == base_cycles_spec(opcode),
            r.additional_cycle_on_page_cross == page_cross_bonus_spec(opcode),
            r.additional_cycle_on_branch_taken == branch_bonus_spec(opcode),
    {
        match opcode {
            0x80 => Opcode::new(0x80, "DOP", Instruction::DOP, AddressingMode::Immediate, 2, 2, false, false),
            0x81 => Opcode::new(0x81, "STA", Instruction::STA, AddressingMode::IndirectX, 2, 6, false, false),
            0x82 => Opcode::new(0x82, "DOP", Instruction::DOP, AddressingMode::Immediate, 2, 2, false, false),
            0x83 => Opcode::new(0x83, "AAX", Instruction::AAX, AddressingMode::IndirectX, 2, 6, false, false),
            0x84 => Opcode::new(0x84, "STY", Instruction::STY, AddressingMode::ZeroPage, 2, 3, false, false),
            0x85 => Opcode::new(0x85, "STA", Instruction::STA, AddressingMode::ZeroPage, 2, 3, false, false),
            0x86 => Opcode::new(0x86, "STX", Instruction::STX, AddressingMode::ZeroPage, 2, 3, false, false),
            0x87 => Opcode::new(0x87, "AAX", Instruction::AAX, AddressingMode::ZeroPage, 2, 3, false, false),
            0x88 => Opcode::new(0x88, "DEY", Instruction::DEY, AddressingMode::Implied, 1, 2, false, false),
            0x89 => Opcode::new(0x89, "DOP", Instruction::DOP, AddressingMode::Immediate, 2, 2, false, false),
            0x8A => Opcode::new(0x8A, "TXA", Instruction::TXA, AddressingMode::Implied, 1, 2, false, false),
            0x8B => Opcode::new(0x8B, "XAA", Instruction::XAA, AddressingMode::Immediate, 2, 2, false, false),
            0x8C => Opcode::new(0x8C, "STY", Instruction::STY, AddressingMode::Absolute, 3, 4, false, false),
            0x8D => Opcode::new(0x8D, "STA", Instruction::STA, AddressingMode::Absolute, 3, 4, false, false),
            0x8E => Opcode::new(0x8E, "STX", Instruction::STX, AddressingMode::Absolute, 3, 4, false, false),
            0x8F => Opcode::new(0x8F, "AAX", Instruction::AAX, AddressingMode::Absolute, 3, 4, false, false),
            0x90 => Opcode::new(0x90, "BCC", Instruction::BCC, AddressingMode::Relative, 2, 2, true, true),
            0x91 => Opcode::new(0x91, "STA", Instruction::STA, AddressingMode::IndirectY, 2, 6, false, false),
            0x92 => Opcode::new(0x92, "KIL", Instruction::KIL, AddressingMode::Implied, 1, 1, false, false),
            0x93 => Opcode::new(0x93, "AXA", Instruction::AXA, AddressingMode::IndirectY, 2, 6, false, false),
            0x94 => Opcode::new(0x94, "STY", Instruction::STY, AddressingMode::ZeroPageX, 2, 4, false, false),
            0x95 => Opcode::new(0x95, "STA", Instruction::STA, AddressingMode::ZeroPageX, 2, 4, false, false),
            0x96 => Opcode::new(0x96, "STX", Instruction::STX, AddressingMode::ZeroPageY, 2, 4, false, false),
            0x97 => Opcode::new(0x97, "AAX", Instruction::AAX, AddressingMode::ZeroPageY, 2, 4, false, false),
            0x98 => Opcode::new(0x98, "TYA", Instruction::TYA, AddressingMode::Implied, 1, 2, false, false),
            0x99 => Opcode::new(0x99, "STA", Instruction::STA, AddressingMode::AbsoluteY, 3, 5, false, false),
            0x9A => Opcode::new(0x9A, "TXS", Instruction::TXS, AddressingMode::Implied, 1, 2, false, false),
            0x9B => Opcode::new(0x9B, "XAS", Instruction::XAS, AddressingMode::AbsoluteY, 3, 5, false, false),
            0x9C => Opcode::new(0x9C, "SYA", Instruction::SYA, AddressingMode::AbsoluteX, 3, 5, false, false),
            0x9D => Opcode::new(0x9D, "STA", Instruction::STA, AddressingMode::AbsoluteX, 3, 5, false, false),
            0x9E => Opcode::new(0x9E, "SXA", Instruction::SXA, AddressingMode::AbsoluteY, 3, 5, false, false),
            0x9F => Opcode::new(0x9F, "AXA", Instruction::AXA, AddressingMode::AbsoluteY, 3, 5, false, false),
            0xA0 => Opcode::new(0xA0, "LDY", Instruction::LDY, AddressingMode::Immediate, 2, 2, false, false),
            0xA1 => Opcode::new(0xA1, "LDA", Instruction::LDA, AddressingMode::IndirectX, 2, 6, false, false),
            0xA2 => Opcode::new(0xA2, "LDX", Instruction::LDX, AddressingMode::Immediate, 2, 2, false, false),
            0xA3 => Opcode::new(0xA3, "LAX", Instruction::LAX, AddressingMode::IndirectX, 2, 6, false, false),
            0xA4 => Opcode::new(0xA4, "LDY", Instruction::LDY, AddressingMode::ZeroPage, 2, 3, false, false),
            0xA5 => Opcode::new(0xA5, "LDA", Instruction::LDA, AddressingMode::ZeroPage, 2, 3, false, false),
            0xA6 => Opcode::new(0xA6, "LDX", Instruction::LDX, AddressingMode::ZeroPage, 2, 3, false, false),
            0xA7 => Opcode::new(0xA7, "LAX", Instruction::LAX, AddressingMode::ZeroPage, 2, 3, false, false),
            0xA8 => Opcode::new(0xA8, "TAY", Instruction::TAY, AddressingMode::Implied, 1, 2, false, false),
            0xA9 => Opcode::new(0xA9, "LDA", Instruction::LDA, AddressingMode::Immediate, 2, 2, false, false),
            0xAA => Opcode::new(0xAA, "TAX", Instruction::TAX, AddressingMode::Implied, 1, 2, false, false),
            0xAB => Opcode::new(0xAB, "ATX", Instruction::ATX, AddressingMode::Immediate, 2, 2, false, false),
            0xAC => Opcode::new(0xAC, "LDY", Instruction::LDY, AddressingMode::Absolute, 3, 4, false, false),
            0xAD => Opcode::new(0xAD, "LDA", Instruction::LDA, AddressingMode::Absolute, 3, 4, false, false),
            0xAE => Opcode::new(0xAE, "LDX", Instruction::LDX, AddressingMode::Absolute, 3, 4, false, false),
            0xAF => Opcode::new(0xAF, "LAX", Instruction::LAX, AddressingMode::Absolute, 3, 4, false, false),
            0xB0 => Opcode::new(0xB0, "BCS", Instruction::BCS, AddressingMode::Relative, 2, 2, true, true),
            0xB1 => Opcode::new(0xB1, "LDA", Instruction::LDA, AddressingMode::IndirectY, 2, 5, true, false),
            0xB2 => Opcode::new(0xB2, "KIL", Instruction::KIL, AddressingMode::Implied, 1, 1, false, false),
            0xB3 => Opcode::new(0xB3, "LAX", Instruction::LAX, AddressingMode::IndirectY, 2, 5, true, false),
            0xB4 => Opcode::new(0xB4, "LDY", Instruction::LDY, AddressingMode::ZeroPageX, 2, 4, false, false),
            0xB5 => Opcode::new(0xB5, "LDA", Instruction::LDA, AddressingMode::ZeroPageX, 2, 4, false, false),
            0xB6 => Opcode::new(0xB6, "LDX", Instruction::LDX, AddressingMode::ZeroPageY, 2, 4, false, false),
            0xB7 => Opcode::new(0xB7, "LAX", Instruction::LAX, AddressingMode::ZeroPageY, 2, 4, false, false),
            0xB8 => Opcode::new(0xB8, "CLV", Instruction::CLV, AddressingMode::Implied, 1, 2, false, false),
            0xB9 => Opcode::new(0xB9, "LDA", Instruction::LDA, AddressingMode::AbsoluteY, 3, 4, true, false),
            0xBA => Opcode::new(0xBA, "TSX", Instruction::TSX, AddressingMode::Implied, 1, 2, false, false),
            0xBB => Opcode::new(0xBB, "LAR", Instruction::LAR, AddressingMode::AbsoluteY, 3, 4, true, false),
            0xBC => Opcode::new(0xBC, "LDY", Instruction::LDY, AddressingMode::AbsoluteX, 3, 4, true, false),
            0xBD => Opcode::new(0xBD, "LDA", Instruction::LDA, AddressingMode::AbsoluteX, 3, 4, true, false),
            0xBE => Opcode::new(0xBE, "LDX", Instruction::LDX, AddressingMode::AbsoluteY, 3, 4, true, false),
            _ => Opcode::new(0xBF, "LAX", Instruction::LAX, AddressingMode::AbsoluteY, 3, 4, true, false),
        }
    }

    #[verifier::rlimit(100)]
    fn lookup_quarter_3(opcode: u8) -> (r: Opcode)
        requires
            192 <= opcode < 256,
        ensures
            r.opcode == opcode,
            r.instruction == instruction_spec(opcode),
            r.mode == mode_spec(opcode),
            r.size_bytes == size_spec(opcode),
            r.cycles == base_cycles_spec(opcode),
            r.additional_cycle_on_page_cross == page_cross_bonus_spec(opcode),
            r.additional_cycle_on_branch_taken == branch_bonus_spec(opcode),
    {
        match opcode {
            0xC0 => Opcode::new(0xC0, "CPY", Instruction::CPY, AddressingMode::Immediate, 2, 2, false, false),
            0xC1 => Opcode::new(0xC1, "CMP", Instruction::CMP, AddressingMode::IndirectX, 2, 6, false, false),
            0xC2 => Opcode::new(0xC2, "DOP", Instruction::DOP, AddressingMode::Immediate, 2, 2, false, false),
            0xC3 => Opcode::new(0xC3, "DCP", Instruction::DCP, AddressingMode::IndirectX, 2, 8, false, false),
            0xC4 => Opcode::new(0xC4, "CPY", Instruction::CPY, AddressingMode::ZeroPage, 2, 3, false, false),
            0xC5 => Opcode::new(0xC5, "CMP", Instruction::CMP, AddressingMode::ZeroPage, 2, 3, false, false),
            0xC6 => Opcode::new(0xC6, "DEC", Instruction::DEC, AddressingMode::ZeroPage, 2, 5, false, false),
            0xC7 => Opcode::new(0xC7, "DCP", Instruction::DCP, AddressingMode::ZeroPage, 2, 5, false, false),
            0xC8 => Opcode::new(0xC8, "INY", Instruction::INY, AddressingMode::Implied, 1, 2, false, false),
            0xC9 => Opcode::new(0xC9, "CMP", Instruction::CMP, AddressingMode::Immediate, 2, 2, false, false),
            0xCA => Opcode::new(0xCA, "DEX", Instruction::DEX, AddressingMode::Implied, 1, 2, false, false),
            0xCB => Opcode::new(0xCB, "AXS", Instruction::AXS, AddressingMode::Immediate, 2, 2, false, false),
            0xCC => Opcode::new(0xCC, "CPY", Instruction::CPY, AddressingMode::Absolute, 3, 4, false, false),
            0xCD => Opcode::new(0xCD, "CMP", Instruction::CMP, AddressingMode::Absolute, 3, 4, false, false),
            0xCE => Opcode::new(0xCE, "DEC", Instruction::DEC, AddressingMode::Absolute, 3, 6, false, false),
            0xCF => Opcode::new(0xCF, "DCP", Instruction::DCP, AddressingMode::Absolute, 3, 6, false, false),
            0xD0 => Opcode::new(0xD0, "BNE", Instruction::BNE, AddressingMode::Relative, 2, 2, true, true),
            0xD1 => Opcode::new(0xD1, "CMP", Instruction::CMP, AddressingMode::IndirectY, 2, 5, true, false),
            0xD2 => Opcode::new(0xD2, "KIL", Instruction::KIL, AddressingMode::Implied, 1, 1, false, false),
            0xD3 => Opcode::new(0xD3, "DCP", Instruction::DCP, AddressingMode::IndirectY, 2, 8, false, false),
            0xD4 => Opcode::new(0xD4, "DOP", Instruction::DOP, AddressingMode::ZeroPageX, 2, 4, false, false),
            0xD5 => Opcode::new(0xD5, "CMP", Instruction::CMP, AddressingMode::ZeroPageX, 2, 4, false, false),
            0xD6 => Opcode::new(0xD6, "DEC", Instruction::DEC, AddressingMode::ZeroPageX, 2, 6, false, false),
            0xD7 => Opcode::new(0xD7, "DCP", Instruction::DCP, AddressingMode::ZeroPageX, 2, 6, false, false),
            0xD8 => Opcode::new(0xD8, "CLD", Instruction::CLD, AddressingMode::Implied, 1, 2, false, false),
            0xD9 => Opcode::new(0xD9, "CMP", Instruction::CMP, AddressingMode::AbsoluteY, 3, 4, true, false),
            0xDA => Opcode::new(0xDA, "NOP", Instruction::NOP, AddressingMode::Implied, 1, 2, false, false),
            0xDB => Opcode::new(0xDB, "DCP", Instruction::DCP, AddressingMode::AbsoluteY, 3, 7, false, false),
            0xDC => Opcode::new(0xDC, "TOP", Instruction::TOP, AddressingMode::AbsoluteX, 3, 4, true, false),
            0xDD => Opcode::new(0xDD, "CMP", Instruction::CMP, AddressingMode::AbsoluteX, 3, 4, true, false),
            0xDE => Opcode::new(0xDE, "DEC", Instruction::DEC, AddressingMode::AbsoluteX, 3, 7, false, false),
            0xDF => Opcode::new(0xDF, "DCP", Instruction::DCP, AddressingMode::AbsoluteX, 3, 7, false, false),
            0xE0 => Opcode::new(0xE0, "CPX", Instruction::CPX, AddressingMode::Immediate, 2, 2, false, false),
            0xE1 => Opcode::new(0xE1, "SBC", Instruction::SBC, AddressingMode::IndirectX, 2, 6, false, false),
            0xE2 => Opcode::new(0xE2, "DOP", Instruction::DOP, AddressingMode::Immediate, 2, 2, false, false),
            0xE3 => Opcode::new(0xE3, "ISC", Instruction::ISC, AddressingMode::IndirectX, 2, 8, false, false),
            0xE4 => Opcode::new(0xE4, "CPX", Instruction::CPX, AddressingMode::ZeroPage, 2, 3, false, false),
            0xE5 => Opcode::new(0xE5, "SBC", Instruction::SBC, AddressingMode::ZeroPage, 2, 3, false, false),
            0xE6 => Opcode::new(0xE6, "INC", Instruction::INC, AddressingMode::ZeroPage, 2, 5, false, false),
            0xE7 => Opcode::new(0xE7, "ISC", Instruction::ISC, AddressingMode::ZeroPage, 2, 5, false, false),
            0xE8 => Opcode::new(0xE8, "INX", Instruction::INX, AddressingMode::Implied, 1, 2, false, false),
            0xE9 => Opcode::new(0xE9, "SBC", Instruction::SBC, AddressingMode::Immediate, 2, 2, false, false),
            0xEA => Opcode::new(0xEA, "NOP", Instruction::NOP, AddressingMode::Implied, 1, 2, false, false),
            0xEB => Opcode::new(0xEB, "SBC", Instruction::SBC, AddressingMode::Immediate, 2, 2, false, false),
            0xEC => Opcode::new(0xEC, "CPX", Instruction::CPX, AddressingMode::Absolute, 3, 4, false, false),
            0xED => Opcode::new(0xED, "SBC", Instruction::SBC, AddressingMode::Absolute, 3, 4, false, false),
            0xEE => Opcode::new(0xEE, "INC", Instruction::INC, AddressingMode::Absolute, 3, 6, false, false),
            0xEF => Opcode::new(0xEF, "ISC", Instruction::ISC, AddressingMode::Absolute, 3, 6, false, false),
            0xF0 => Opcode::new(0xF0, "BEQ", Instruction::BEQ, AddressingMode::Relative, 2, 2, true, true),
            0xF1 => Opcode::new(0xF1, "SBC", Instruction::SBC, AddressingMode::IndirectY, 2, 5, true, false),
            0xF2 => Opcode::new(0xF2, "KIL", Instruction::KIL, AddressingMode::Implied, 1, 1, false, false),
            0xF3 => Opcode::new(0xF3, "ISC", Instruction::ISC, AddressingMode::IndirectY, 2, 8, false, false),
            0xF4 => Opcode::new(0xF4, "DOP", Instruction::DOP, AddressingMode::ZeroPageX, 2, 4, false, false),
            0xF5 => Opcode::new(0xF5, "SBC", Instruction::SBC, AddressingMode::ZeroPageX, 2, 4, false, false),
            0xF6 => Opcode::new(0xF6, "INC", Instruction::INC, AddressingMode::ZeroPageX, 2, 6, false, false),
            0xF7 => Opcode::new(0xF7, "ISC", Instruction::ISC, AddressingMode::ZeroPageX, 2, 6, false, false),
            0xF8 => Opcode::new(0xF8, "SED", Instruction::SED, AddressingMode::Implied, 1, 2, false, false),
            0xF9 => Opcode::new(0xF9, "SBC", Instruction::SBC, AddressingMode::AbsoluteY, 3, 4, true, false),
            0xFA => Opcode::new(0xFA, "NOP", Instruction::NOP, AddressingMode::Implied, 1, 2, false, false),
            0xFB => Opcode::new(0xFB, "ISC", Instruction::ISC, AddressingMode::AbsoluteY, 3, 7, false, false),
            0xFC => Opcode::new(0xFC, "TOP", Instruction::TOP, AddressingMode::AbsoluteX, 3, 4, true, false),
            0xFD => Opcode::new(0xFD, "SBC", Instruction::SBC, AddressingMode::AbsoluteX, 3, 4, true, false),
            0xFE => Opcode::new(0xFE, "INC", Instruction::INC, AddressingMode::AbsoluteX, 3, 7, false, false),
            _ => Opcode::new(0xFF, "ISC", Instruction::ISC, AddressingMode::AbsoluteX, 3, 7, false, false),
        }
    }
}

/// The instruction the table assigns to a byte.
pub open spec fn instruction_spec(b: u8) -> Instruction {
    if b == 0x00 {
        Instruction::BRK
    } else if b == 0x01 || b == 0x05 || b == 0x09 || b == 0x0D || b == 0x11 || b == 0x15 || b == 0x19 || b == 0x1D {
        Instruction::ORA
    } else if b == 0x02 || b == 0x12 || b == 0x22 || b == 0x32 || b == 0x42 || b == 0x52 || b == 0x62 || b == 0x72 || b == 0x92 || b == 0xB2 || b == 0xD2 || b == 0xF2 {
        Instruction::KIL
    } else if b == 0x03 || b == 0x07 || b == 0x0F || b == 0x13 || b == 0x17 || b == 0x1B || b == 0x1F {
        Instruction::SLO
    } else if b == 0x04 || b == 0x14 || b == 0x34 || b == 0x44 || b == 0x54 || b == 0x64 || b == 0x74 || b == 0x80 || b == 0x82 || b == 0x89 || b == 0xC2 || b == 0xD4 || b == 0xE2 || b == 0xF4 {
        Instruction::DOP
    } else if b == 0x06 || b == 0x0A || b == 0x0E || b == 0x16 || b == 0x1E {
        Instruction::ASL
    } else if b == 0x08 {
        Instruction::PHP
    } else if b == 0x0B || b == 0x2B {
        Instruction::AAC
    } else if b == 0x0C || b == 0x1C || b == 0x3C || b == 0x5C || b == 0x7C || b == 0xDC || b == 0xFC {
        Instruction::TOP
    } else if b == 0x10 {
        Instruction::BPL
    } else if b == 0x18 {
        Instruction::CLC
    } else if b == 0x1A || b == 0x3A || b == 0x5A || b == 0x7A || b == 0xDA || b == 0xEA || b == 0xFA {
        Instruction::NOP
    } else if b == 0x20 {
        Instruction::JSR
    } else if b == 0x21 || b == 0x25 || b == 0x29 || b == 0x2D || b == 0x31 || b == 0x35 || b == 0x39 || b == 0x3D {
        Instruction::AND
    } else if b == 0x23 || b == 0x27 || b == 0x2F || b == 0x33 || b == 0x37 || b == 0x3B || b == 0x3F {
        Instruction::RLA
    } else if b == 0x24 || b == 0x2C {
        Instruction::BIT
    } else if b == 0x26 || b == 0x2A || b == 0x2E || b == 0x36 || b == 0x3E {
        Instruction::ROL
    } else if b == 0x28 {
        Instruction::PLP
    } else if b == 0x30 {
        Instruction::BMI
    } else if b == 0x38 {
        Instruction::SEC
    } else if b == 0x40 {
        Instruction::RTI
    } else if b == 0x41 || b == 0x45 || b == 0x49 || b == 0x4D || b == 0x51 || b == 0x55 || b == 0x59 || b == 0x5D {
        Instruction::EOR
    } else if b == 0x43 || b == 0x47 || b == 0x4F || b == 0x53 || b == 0x57 || b == 0x5B || b == 0x5F {
        Instruction::SRE
    } else if b == 0x46 || b == 0x4A || b == 0x4E || b == 0x56 || b == 0x5E {
        Instruction::LSR
    } else if b == 0x48 {
        Instruction::PHA
    } else if b == 0x4B {
        Instruction::ASR
    } else if b == 0x4C || b == 0x6C {
        Instruction::JMP
    } else if b == 0x50 {
        Instruction::BVC
    } else if b == 0x58 {
        Instruction::CLI
    } else if b == 0x60 {
        Instruction::RTS
    } else if b == 0x61 || b == 0x65 || b == 0x69 || b == 0x6D || b == 0x71 || b == 0x75 || b == 0x79 || b == 0x7D {
        Instruction::ADC
    } else if b == 0x63 || b == 0x67 || b == 0x6F || b == 0x73 || b == 0x77 || b == 0x7B || b == 0x7F {
        Instruction::RRA
    } else if b == 0x66 || b == 0x6A || b == 0x6E || b == 0x76 || b == 0x7E {
        Instruction::ROR
    } else if b == 0x68 {
        Instruction::PLA
    } else if b == 0x6B {
        Instruction::ARR
    } else if b == 0x70 {
        Instruction::BVS
    } else if b == 0x78 {
        Instruction::SEI
    } else if b == 0x81 || b == 0x85 || b == 0x8D || b == 0x91 || b == 0x95 || b == 0x99 || b == 0x9D {
        Instruction::STA
    } else if b == 0x83 || b == 0x87 || b == 0x8F || b == 0x97 {
        Instruction::AAX
    } else if b == 0x84 || b == 0x8C || b == 0x94 {
        Instruction::STY
    } else if b == 0x86 || b == 0x8E || b == 0x96 {
        Instruction::STX
    } else if b == 0x88 {
        Instruction::DEY
    } else if b == 0x8A {
        Instruction::TXA
    } else if b == 0x8B {
        Instruction::XAA
    } else if b == 0x90 {
        Instruction::BCC
    } else if b == 0x93 || b == 0x9F {
        Instruction::AXA
    } else if b == 0x98 {
        Instruction::TYA
    } else if b == 0x9A {
        Instruction::TXS
    } else if b == 0x9B {
        Instruction::XAS
    } else if b == 0x9C {
        Instruction::SYA
    } else if b == 0x9E {
        Instruction::SXA
    } else if b == 0xA0 || b == 0xA4 || b == 0xAC || b == 0xB4 || b == 0xBC {
        Instruction::LDY
    } else if b == 0xA1 || b == 0xA5 || b == 0xA9 || b == 0xAD || b == 0xB1 || b == 0xB5 || b == 0xB9 || b == 0xBD {
        Instruction::LDA
    } else if b == 0xA2 || b == 0xA6 || b == 0xAE || b == 0xB6 || b == 0xBE {
        Instruction::LDX
    } else if b == 0xA3 || b == 0xA7 || b == 0xAF || b == 0xB3 || b == 0xB7 || b == 0xBF {
        Instruction::LAX
    } else if b == 0xA8 {
        Instruction::TAY
    } else if b == 0xAA {
        Instruction::TAX
    } else if b == 0xAB {
        Instruction::ATX
    } else if b == 0xB0 {
        Instruction::BCS
    } else if b == 0xB8 {
        Instruction::CLV
    } else if b == 0xBA {
        Instruction::TSX
    } else if b == 0xBB {
        Instruction::LAR
    } else if b == 0xC0 || b == 0xC4 || b == 0xCC {
        Instruction::CPY
    } else if b == 0xC1 || b == 0xC5 || b == 0xC9 || b == 0xCD || b == 0xD1 || b == 0xD5 || b == 0xD9 || b == 0xDD {
        Instruction::CMP
    } else if b == 0xC3 || b == 0xC7 || b == 0xCF || b == 0xD3 || b == 0xD7 || b == 0xDB || b == 0xDF {
        Instruction::DCP
    } else if b == 0xC6 || b == 0xCE || b == 0xD6 || b == 0xDE {
        Instruction::DEC
    } else if b == 0xC8 {
        Instruction::INY
    } else if b == 0xCA {
        Instruction::DEX
    } else if b == 0xCB {
        Instruction::AXS
    } else if b == 0xD0 {
        Instruction::BNE
    } else if b == 0xD8 {
        Instruction::CLD
    } else if b == 0xE0 || b == 0xE4 || b == 0xEC {
        Instruction::CPX
    } else if b == 0xE1 || b == 0xE5 || b == 0xE9 || b == 0xEB || b == 0xED || b == 0xF1 || b == 0xF5 || b == 0xF9 || b == 0xFD {
        Instruction::SBC
    } else if b == 0xE3 || b == 0xE7 || b == 0xEF || b == 0xF3 || b == 0xF7 || b == 0xFB || b == 0xFF {
        Instruction::ISC
    } else if b == 0xE6 || b == 0xEE || b == 0xF6 || b == 0xFE {
        Instruction::INC
    } else if b == 0xE8 {
        Instruction::INX
    } else if b == 0xF0 {
        Instruction::BEQ
    } else {
        Instruction::SED
    }
}

/// The addressing mode the table assigns to a byte.
pub open spec fn mode_spec(b: u8) -> AddressingMode {
    if b == 0x00 || b == 0x02 || b == 0x08 || b == 0x12 || b == 0x18 || b == 0x1A || b == 0x22 || b == 0x28 || b == 0x32 || b == 0x38 || b == 0x3A || b == 0x40 || b == 0x42 || b == 0x48 || b == 0x52 || b == 0x58 || b == 0x5A || b == 0x60 || b == 0x62 || b == 0x68 || b == 0x72 || b == 0x78 || b == 0x7A || b == 0x88 || b == 0x8A || b == 0x92 || b == 0x98 || b == 0x9A || b == 0xA8 || b == 0xAA || b == 0xB2 || b == 0xB8 || b == 0xBA || b == 0xC8 || b == 0xCA || b == 0xD2 || b == 0xD8 || b == 0xDA || b == 0xE8 || b == 0xEA || b == 0xF2 || b == 0xF8 || b == 0xFA {
        AddressingMode::Implied
    } else if b == 0x01 || b == 0x03 || b == 0x21 || b == 0x23 || b == 0x41 || b == 0x43 || b == 0x61 || b == 0x63 || b == 0x81 || b == 0x83 || b == 0xA1 || b == 0xA3 || b == 0xC1 || b == 0xC3 || b == 0xE1 || b == 0xE3 {
        AddressingMode::IndirectX
    } else if b == 0x04 || b == 0x05 || b == 0x06 || b == 0x07 || b == 0x24 || b == 0x25 || b == 0x26 || b == 0x27 || b == 0x44 || b == 0x45 || b == 0x46 || b == 0x47 || b == 0x64 || b == 0x65 || b == 0x66 || b == 0x67 || b == 0x84 || b == 0x85 || b == 0x86 || b == 0x87 || b == 0xA4 || b == 0xA5 || b == 0xA6 || b == 0xA7 || b == 0xC4 || b == 0xC5 || b == 0xC6 || b == 0xC7 || b == 0xE4 || b == 0xE5 || b == 0xE6 || b == 0xE7 {
        AddressingMode::ZeroPage
    } else if b == 0x09 || b == 0x0B || b == 0x29 || b == 0x2B || b == 0x49 || b == 0x4B || b == 0x69 || b == 0x6B || b == 0x80 || b == 0x82 || b == 0x89 || b == 0x8B || b == 0xA0 || b == 0xA2 || b == 0xA9 || b == 0xAB || b == 0xC0 || b == 0xC2 || b == 0xC9 || b == 0xCB || b == 0xE0 || b == 0xE2 || b == 0xE9 || b == 0xEB {
        AddressingMode::Immediate
    } else if b == 0x0A || b == 0x2A || b == 0x4A || b == 0x6A {
        AddressingMode::Accumulator
    } else if b == 0x0C || b == 0x0D || b == 0x0E || b == 0x0F || b == 0x20 || b == 0x2C || b == 0x2D || b == 0x2E || b == 0x2F || b == 0x4C || b == 0x4D || b == 0x4E || b == 0x4F || b == 0x6D || b == 0x6E || b == 0x6F || b == 0x8C || b == 0x8D || b == 0x8E || b == 0x8F || b == 0xAC || b == 0xAD || b == 0xAE || b == 0xAF || b == 0xCC || b == 0xCD || b == 0xCE || b == 0xCF || b == 0xEC || b == 0xED || b == 0xEE || b == 0xEF {
        AddressingMode::Absolute
    } else if b == 0x10 || b == 0x30 || b == 0x50 || b == 0x70 || b == 0x90 || b == 0xB0 || b == 0xD0 || b == 0xF0 {
        AddressingMode::Relative
    } else if b == 0x11 || b == 0x13 || b == 0x31 || b == 0x33 || b == 0x51 || b == 0x53 || b == 0x71 || b == 0x73 || b == 0x91 || b == 0x93 || b == 0xB1 || b == 0xB3 || b == 0xD1 || b == 0xD3 || b == 0xF1 || b == 0xF3 {
        AddressingMode::IndirectY
    } else if b == 0x14 || b == 0x15 || b == 0x16 || b == 0x17 || b == 0x34 || b == 0x35 || b == 0x36 || b == 0x37 || b == 0x54 || b == 0x55 || b == 0x56 || b == 0x57 || b == 0x74 || b == 0x75 || b == 0x76 || b == 0x77 || b == 0x94 || b == 0x95 || b == 0xB4 || b == 0xB5 || b == 0xD4 || b == 0xD5 || b == 0xD6 || b == 0xD7 || b == 0xF4 || b == 0xF5 || b == 0xF6 || b == 0xF7 {
        AddressingMode::ZeroPageX
    } else if b == 0x19 || b == 0x1B || b == 0x39 || b == 0x3B || b == 0x59 || b == 0x5B || b == 0x79 || b == 0x7B || b == 0x99 || b == 0x9B || b == 0x9E || b == 0x9F || b == 0xB9 || b == 0xBB || b == 0xBE || b == 0xBF || b == 0xD9 || b == 0xDB || b == 0xF9 || b == 0xFB {
        AddressingMode::AbsoluteY
    } else if b == 0x1C || b == 0x1D || b == 0x1E || b == 0x1F || b == 0x3C || b == 0x3D || b == 0x3E || b == 0x3F || b == 0x5C || b == 0x5D || b == 0x5E || b == 0x5F || b == 0x7C || b == 0x7D || b == 0x7E || b == 0x7F || b == 0x9C || b == 0x9D || b == 0xBC || b == 0xBD || b == 0xDC || b == 0xDD || b == 0xDE || b == 0xDF || b == 0xFC || b == 0xFD || b == 0xFE || b == 0xFF {
        AddressingMode::AbsoluteX
    } else if b == 0x6C {
        AddressingMode::Indirect
    } else {
        AddressingMode::ZeroPageY
    }
}

/// The instruction size in bytes, the opcode byte included.
pub open spec fn size_spec(b: u8) -> u8 {
    if b == 0x00 || b == 0x01 || b == 0x03 || b == 0x04 || b == 0x05 || b == 0x06 || b == 0x07 || b == 0x09 || b == 0x0B || b == 0x10 || b == 0x11 || b == 0x13 || b == 0x14 || b == 0x15 || b == 0x16 || b == 0x17 || b == 0x21 || b == 0x23 || b == 0x24 || b == 0x25 || b == 0x26 || b == 0x27 || b == 0x29 || b == 0x2B || b == 0x30 || b == 0x31 || b == 0x33 || b == 0x34 || b == 0x35 || b == 0x36 || b == 0x37 || b == 0x41 || b == 0x43 || b == 0x44 || b == 0x45 || b == 0x46 || b == 0x47 || b == 0x49 || b == 0x4B || b == 0x50 || b == 0x51 || b == 0x53 || b == 0x54 || b == 0x55 || b == 0x56 || b == 0x57 || b == 0x61 || b == 0x63 || b == 0x64 || b == 0x65 || b == 0x66 || b == 0x67 || b == 0x69 || b == 0x6B || b == 0x70 || b == 0x71 || b == 0x73 || b == 0x74 || b == 0x75 || b == 0x76 || b == 0x77 || b == 0x80 || b == 0x81 || b == 0x82 || b == 0x83 || b == 0x84 || b == 0x85 || b == 0x86 || b == 0x87 || b == 0x89 || b == 0x8B || b == 0x90 || b == 0x91 || b == 0x93 || b == 0x94 || b == 0x95 || b == 0x96 || b == 0x97 || b == 0xA0 || b == 0xA1 || b == 0xA2 || b == 0xA3 || b == 0xA4 || b == 0xA5 || b == 0xA6 || b == 0xA7 || b == 0xA9 || b == 0xAB || b == 0xB0 || b == 0xB1 || b == 0xB3 || b == 0xB4 || b == 0xB5 || b == 0xB6 || b == 0xB7 || b == 0xC0 || b == 0xC1 || b == 0xC2 || b == 0xC3 || b == 0xC4 || b == 0xC5 || b == 0xC6 || b == 0xC7 || b == 0xC9 || b == 0xCB || b == 0xD0 || b == 0xD1 || b == 0xD3 || b == 0xD4 || b == 0xD5 || b == 0xD6 || b == 0xD7 || b == 0xE0 || b == 0xE1 || b == 0xE2 || b == 0xE3 || b == 0xE4 || b == 0xE5 || b == 0xE6 || b == 0xE7 || b == 0xE9 || b == 0xEB || b == 0xF0 || b == 0xF1 || b == 0xF3 || b == 0xF4 || b == 0xF5 || b == 0xF6 || b == 0xF7 {
        2u8
    } else if b == 0x02 || b == 0x08 || b == 0x0A || b == 0x12 || b == 0x18 || b == 0x1A || b == 0x22 || b == 0x28 || b == 0x2A || b == 0x32 || b == 0x38 || b == 0x3A || b == 0x40 || b == 0x42 || b == 0x48 || b == 0x4A || b == 0x52 || b == 0x58 || b == 0x5A || b == 0x60 || b == 0x62 || b == 0x68 || b == 0x6A || b == 0x72 || b == 0x78 || b == 0x7A || b == 0x88 || b == 0x8A || b == 0x92 || b == 0x98 || b == 0x9A || b == 0xA8 || b == 0xAA || b == 0xB2 || b == 0xB8 || b == 0xBA || b == 0xC8 || b == 0xCA || b == 0xD2 || b == 0xD8 || b == 0xDA || b == 0xE8 || b == 0xEA || b == 0xF2 || b == 0xF8 || b == 0xFA {
        1u8
    } else {
        3u8
    }
}

/// The base cycle count before page-cross and branch bonuses.
pub open spec fn base_cycles_spec(b: u8) -> u8 {
    if b == 0x00 || b == 0x1B || b == 0x1E || b == 0x1F || b == 0x3B || b == 0x3E || b == 0x3F || b == 0x5B || b == 0x5E || b == 0x5F || b == 0x7B || b == 0x7E || b == 0x7F || b == 0xDB || b == 0xDE || b == 0xDF || b == 0xFB || b == 0xFE || b == 0xFF {
        7u8
    } else if b == 0x01 || b == 0x0E || b == 0x0F || b == 0x16 || b == 0x17 || b == 0x20 || b == 0x21 || b == 0x2E || b == 0x2F || b == 0x36 || b == 0x37 || b == 0x40 || b == 0x41 || b == 0x4E || b == 0x4F || b == 0x56 || b == 0x57 || b == 0x60 || b == 0x61 || b == 0x6E || b == 0x6F || b == 0x76 || b == 0x77 || b == 0x81 || b == 0x83 || b == 0x91 || b == 0x93 || b == 0xA1 || b == 0xA3 || b == 0xC1 || b == 0xCE || b == 0xCF || b == 0xD6 || b == 0xD7 || b == 0xE1 || b == 0xEE || b == 0xEF || b == 0xF6 || b == 0xF7 {
        6u8
    } else if b == 0x02 || b == 0x12 || b == 0x22 || b == 0x32 || b == 0x42 || b == 0x52 || b == 0x62 || b == 0x72 || b == 0x92 || b == 0xB2 || b == 0xD2 || b == 0xF2 {
        1u8
    } else if b == 0x03 || b == 0x13 || b == 0x23 || b == 0x33 || b == 0x43 || b == 0x53 || b == 0x63 || b == 0x73 || b == 0xC3 || b == 0xD3 || b == 0xE3 || b == 0xF3 {
        8u8
    } else if b == 0x04 || b == 0x05 || b == 0x08 || b == 0x24 || b == 0x25 || b == 0x44 || b == 0x45 || b == 0x48 || b == 0x4C || b == 0x64 || b == 0x65 || b == 0x84 || b == 0x85 || b == 0x86 || b == 0x87 || b == 0xA4 || b == 0xA5 || b == 0xA6 || b == 0xA7 || b == 0xC4 || b == 0xC5 || b == 0xE4 || b == 0xE5 {
        3u8
    } else if b == 0x06 || b == 0x07 || b == 0x11 || b == 0x26 || b == 0x27 || b == 0x31 || b == 0x46 || b == 0x47 || b == 0x51 || b == 0x66 || b == 0x67 || b == 0x6C || b == 0x71 || b == 0x99 || b == 0x9B || b == 0x9C || b == 0x9D || b == 0x9E || b == 0x9F || b == 0xB1 || b == 0xB3 || b == 0xC6 || b == 0xC7 || b == 0xD1 || b == 0xE6 || b == 0xE7 || b == 0xF1 {
        5u8
    } else if b == 0x09 || b == 0x0A || b == 0x0B || b == 0x10 || b == 0x18 || b == 0x1A || b == 0x29 || b == 0x2A || b == 0x2B || b == 0x30 || b == 0x38 || b == 0x3A || b == 0x49 || b == 0x4A || b == 0x4B || b == 0x50 || b == 0x58 || b == 0x5A || b == 0x69 || b == 0x6A || b == 0x6B || b == 0x70 || b == 0x78 || b == 0x7A || b == 0x80 || b == 0x82 || b == 0x88 || b == 0x89 || b == 0x8A || b == 0x8B || b == 0x90 || b == 0x98 || b == 0x9A || b == 0xA0 || b == 0xA2 || b == 0xA8 || b == 0xA9 || b == 0xAA || b == 0xAB || b == 0xB0 || b == 0xB8 || b == 0xBA || b == 0xC0 || b == 0xC2 || b == 0xC8 || b == 0xC9 || b == 0xCA || b == 0xCB || b == 0xD0 || b == 0xD8 || b == 0xDA || b == 0xE0 || b == 0xE2 || b == 0xE8 || b == 0xE9 || b == 0xEA || b == 0xEB || b == 0xF0 || b == 0xF8 || b == 0xFA {
        2u8
    } else {
        4u8
    }
}

/// Whether a crossed page adds one cycle.
pub open spec fn page_cross_bonus_spec(b: u8) -> bool {
    if b == 0x00 || b == 0x01 || b == 0x02 || b == 0x03 || b == 0x04 || b == 0x05 || b == 0x06 || b == 0x07 || b == 0x08 || b == 0x09 || b == 0x0A || b == 0x0B || b == 0x0C || b == 0x0D || b == 0x0E || b == 0x0F || b == 0x12 || b == 0x13 || b == 0x14 || b == 0x15 || b == 0x16 || b == 0x17 || b == 0x18 || b == 0x1A || b == 0x1B || b == 0x1E || b == 0x1F || b == 0x20 || b == 0x21 || b == 0x22 || b == 0x23 || b == 0x24 || b == 0x25 || b == 0x26 || b == 0x27 || b == 0x28 || b == 0x29 || b == 0x2A || b == 0x2B || b == 0x2C || b == 0x2D || b == 0x2E || b == 0x2F || b == 0x32 || b == 0x33 || b == 0x34 || b == 0x35 || b == 0x36 || b == 0x37 || b == 0x38 || b == 0x3A || b == 0x3B || b == 0x3E || b == 0x3F || b == 0x40 || b == 0x41 || b == 0x42 || b == 0x43 || b == 0x44 || b == 0x45 || b == 0x46 || b == 0x47 || b == 0x48 || b == 0x49 || b == 0x4A || b == 0x4B || b == 0x4C || b == 0x4D || b == 0x4E || b == 0x4F || b == 0x52 || b == 0x53 || b == 0x54 || b == 0x55 || b == 0x56 || b == 0x57 || b == 0x58 || b == 0x5A || b == 0x5B || b == 0x5E || b == 0x5F || b == 0x60 || b == 0x61 || b == 0x62 || b == 0x63 || b == 0x64 || b == 0x65 || b == 0x66 || b == 0x67 || b == 0x68 || b == 0x69 || b == 0x6A || b == 0x6B || b == 0x6C || b == 0x6D || b == 0x6E || b == 0x6F || b == 0x72 || b == 0x73 || b == 0x74 || b == 0x75 || b == 0x76 || b == 0x77 || b == 0x78 || b == 0x7A || b == 0x7B || b == 0x7E || b == 0x7F || b == 0x80 || b == 0x81 || b == 0x82 || b == 0x83 || b == 0x84 || b == 0x85 || b == 0x86 || b == 0x87 || b == 0x88 || b == 0x89 || b == 0x8A || b == 0x8B || b == 0x8C || b == 0x8D || b == 0x8E || b == 0x8F || b == 0x91 || b == 0x92 || b == 0x93 || b == 0x94 || b == 0x95 || b == 0x96 || b == 0x97 || b == 0x98 || b == 0x99 || b == 0x9A || b == 0x9B || b == 0x9C || b == 0x9D || b == 0x9E || b == 0x9F || b == 0xA0 || b == 0xA1 || b == 0xA2 || b == 0xA3 || b == 0xA4 || b == 0xA5 || b == 0xA6 || b == 0xA7 || b == 0xA8 || b == 0xA9 || b == 0xAA || b == 0xAB || b == 0xAC || b == 0xAD || b == 0xAE || b == 0xAF || b == 0xB2 || b == 0xB4 || b == 0xB5 || b == 0xB6 || b == 0xB7 || b == 0xB8 || b == 0xBA || b == 0xC0 || b == 0xC1 || b == 0xC2 || b == 0xC3 || b == 0xC4 || b == 0xC5 || b == 0xC6 || b == 0xC7 || b == 0xC8 || b == 0xC9 || b == 0xCA || b == 0xCB || b == 0xCC || b == 0xCD || b == 0xCE || b == 0xCF || b == 0xD2 || b == 0xD3 || b == 0xD4 || b == 0xD5 || b == 0xD6 || b == 0xD7 || b == 0xD8 || b == 0xDA || b == 0xDB || b == 0xDE || b == 0xDF || b == 0xE0 || b == 0xE1 || b == 0xE2 || b == 0xE3 || b == 0xE4 || b == 0xE5 || b == 0xE6 || b == 0xE7 || b == 0xE8 || b == 0xE9 || b == 0xEA || b == 0xEB || b == 0xEC || b == 0xED || b == 0xEE || b == 0xEF || b == 0xF2 || b == 0xF3 || b == 0xF4 || b == 0xF5 || b == 0xF6 || b == 0xF7 || b == 0xF8 || b == 0xFA || b == 0xFB || b == 0xFE || b == 0xFF {
        false
    } else {
        true
    }
}

/// Whether taking the branch adds a cycle, two when it crosses a page.
pub open spec fn branch_bonus_spec(b: u8) -> bool {
    if b == 0x00 || b == 0x01 || b == 0x02 || b == 0x03 || b == 0x04 || b == 0x05 || b == 0x06 || b == 0x07 || b == 0x08 || b == 0x09 || b == 0x0A || b == 0x0B || b == 0x0C || b == 0x0D || b == 0x0E || b == 0x0F || b == 0x11 || b == 0x12 || b == 0x13 || b == 0x14 || b == 0x15 || b == 0x16 || b == 0x17 || b == 0x18 || b == 0x19 || b == 0x1A || b == 0x1B || b == 0x1C || b == 0x1D || b == 0x1E || b == 0x1F || b == 0x20 || b == 0x21 || b == 0x22 || b == 0x23 || b == 0x24 || b == 0x25 || b == 0x26 || b == 0x27 || b == 0x28 || b == 0x29 || b == 0x2A || b == 0x2B || b == 0x2C || b == 0x2D || b == 0x2E || b == 0x2F || b == 0x31 || b == 0x32 || b == 0x33 || b == 0x34 || b == 0x35 || b == 0x36 || b == 0x37 || b == 0x38 || b == 0x39 || b == 0x3A || b == 0x3B || b == 0x3C || b == 0x3D || b == 0x3E || b == 0x3F || b == 0x40 || b == 0x41 || b == 0x42 || b == 0x43 || b == 0x44 || b == 0x45 || b == 0x46 || b == 0x47 || b == 0x48 || b == 0x49 || b == 0x4A || b == 0x4B || b == 0x4C || b == 0x4D || b == 0x4E || b == 0x4F || b == 0x51 || b == 0x52 || b == 0x53 || b == 0x54 || b == 0x55 || b == 0x56 || b == 0x57 || b == 0x58 || b == 0x59 || b == 0x5A || b == 0x5B || b == 0x5C || b == 0x5D || b == 0x5E || b == 0x5F || b == 0x60 || b == 0x61 || b == 0x62 || b == 0x63 || b == 0x64 || b == 0x65 || b == 0x66 || b == 0x67 || b == 0x68 || b == 0x69 || b == 0x6A || b == 0x6B || b == 0x6C || b == 0x6D || b == 0x6E || b == 0x6F || b == 0x71 || b == 0x72 || b == 0x73 || b == 0x74 || b == 0x75 || b == 0x76 || b == 0x77 || b == 0x78 || b == 0x79 || b == 0x7A || b == 0x7B || b == 0x7C || b == 0x7D || b == 0x7E || b == 0x7F || b == 0x80 || b == 0x81 || b == 0x82 || b == 0x83 || b == 0x84 || b == 0x85 || b == 0x86 || b == 0x87 || b == 0x88 || b == 0x89 || b == 0x8A || b == 0x8B || b == 0x8C || b == 0x8D || b == 0x8E || b == 0x8F || b == 0x91 || b == 0x92 || b == 0x93 || b == 0x94 || b == 0x95 || b == 0x96 || b == 0x97 || b == 0x98 || b == 0x99 || b == 0x9A || b == 0x9B || b == 0x9C || b == 0x9D || b == 0x9E || b == 0x9F || b == 0xA0 || b == 0xA1 || b == 0xA2 || b == 0xA3 || b == 0xA4 || b == 0xA5 || b == 0xA6 || b == 0xA7 || b == 0xA8 || b == 0xA9 || b == 0xAA || b == 0xAB || b == 0xAC || b == 0xAD || b == 0xAE || b == 0xAF || b == 0xB1 || b == 0xB2 || b == 0xB3 || b == 0xB4 || b == 0xB5 || b == 0xB6 || b == 0xB7 || b == 0xB8 || b == 0xB9 || b == 0xBA || b == 0xBB || b == 0xBC || b == 0xBD || b == 0xBE || b == 0xBF || b == 0xC0 || b == 0xC1 || b == 0xC2 || b == 0xC3 || b == 0xC4 || b == 0xC5 || b == 0xC6 || b == 0xC7 || b == 0xC8 || b == 0xC9 || b == 0xCA || b == 0xCB || b == 0xCC || b == 0xCD || b == 0xCE || b == 0xCF || b == 0xD1 || b == 0xD2 || b == 0xD3 || b == 0xD4 || b == 0xD5 || b == 0xD6 || b == 0xD7 || b == 0xD8 || b == 0xD9 || b == 0xDA || b == 0xDB || b == 0xDC || b == 0xDD || b == 0xDE || b == 0xDF || b == 0xE0 || b == 0xE1 || b == 0xE2 || b == 0xE3 || b == 0xE4 || b == 0xE5 || b == 0xE6 || b == 0xE7 || b == 0xE8 || b == 0xE9 || b == 0xEA || b == 0xEB || b == 0xEC || b == 0xED || b == 0xEE || b == 0xEF || b == 0xF1 || b == 0xF2 || b == 0xF3 || b == 0xF4 || b == 0xF5 || b == 0xF6 || b == 0xF7 || b == 0xF8 || b == 0xF9 || b == 0xFA || b == 0xFB || b == 0xFC || b == 0xFD || b == 0xFE || b == 0xFF {
        false
    } else {
        true
    }
}

/// Every table entry has a size of 1 to 3 bytes and a base cost of 1 to 8
/// cycles.
pub proof fn lemma_table_bounds(b: u8)
    ensures
        1 <= size_spec(b) <= 3,
        1 <= base_cycles_spec(b) <= 8,
{
}

} // verus!

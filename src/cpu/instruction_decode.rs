use vstd::prelude::*;

use crate::cpu::{AddressingMode, Byte, Instruction, Opcode, Result, Writeback};

verus! {

impl Instruction {
    pub open spec fn spec_new(
        opcode: Opcode,
        addressing_mode: AddressingMode,
        writeback: Writeback,
        byte_length: usize,
        ticks: usize,
    ) -> Instruction {
        Instruction { opcode, addressing_mode, writeback, byte_length, ticks }
    }

    /// The entry of an unassigned opcode.
    pub open spec fn spec_invalid(opcode: Byte) -> Instruction {
        Instruction::spec_new(
            Opcode::Invalid(opcode),
            AddressingMode::NoMode,
            Writeback::NoWriteback,
            0,
            0,
        )
    }
}

/// The documented NMOS 6502 instruction set: mnemonic, addressing mode,
/// writeback target, length in bytes and base tick count of each opcode,
/// one row of sixteen opcodes at a time.
pub open spec fn instruction_for(opcode: Byte) -> Instruction {
    match opcode / 16 {
        0 => spec_row_0(opcode),
        1 => spec_row_1(opcode),
        2 => spec_row_2(opcode),
        3 => spec_row_3(opcode),
        4 => spec_row_4(opcode),
        5 => spec_row_5(opcode),
        6 => spec_row_6(opcode),
        7 => spec_row_7(opcode),
        8 => spec_row_8(opcode),
        9 => spec_row_9(opcode),
        10 => spec_row_a(opcode),
        11 => spec_row_b(opcode),
        12 => spec_row_c(opcode),
        13 => spec_row_d(opcode),
        14 => spec_row_e(opcode),
        _ => spec_row_f(opcode),
    }
}

pub open spec fn spec_row_0(opcode: Byte) -> Instruction {
    match opcode {
        0x00 => Instruction::spec_new(Opcode::BRK, AddressingMode::Implicit, Writeback::PC, 1, 7),
        0x01 => Instruction::spec_new(Opcode::ORA, AddressingMode::IndirectX, Writeback::Accumulator, 2, 6),
        0x05 => Instruction::spec_new(Opcode::ORA, AddressingMode::ZeroPage, Writeback::Accumulator, 2, 3),
        0x06 => Instruction::spec_new(Opcode::ASL, AddressingMode::ZeroPage, Writeback::Memory, 2, 5),
        0x08 => Instruction::spec_new(Opcode::PHP, AddressingMode::Implicit, Writeback::SP, 1, 3),
        0x09 => Instruction::spec_new(Opcode::ORA, AddressingMode::Immediate, Writeback::Accumulator, 2, 2),
        0x0A => Instruction::spec_new(Opcode::ASL, AddressingMode::Accumulator, Writeback::Accumulator, 1, 2),
        0x0D => Instruction::spec_new(Opcode::ORA, AddressingMode::Absolute, Writeback::Accumulator, 3, 4),
        0x0E => Instruction::spec_new(Opcode::ASL, AddressingMode::Absolute, Writeback::Memory, 3, 6),
        _ => Instruction::spec_invalid(opcode),
    }
}

pub open spec fn spec_row_1(opcode: Byte) -> Instruction {
    match opcode {
        0x10 => Instruction::spec_new(Opcode::BPL, AddressingMode::Relative, Writeback::PC, 2, 2),
        0x11 => Instruction::spec_new(Opcode::ORA, AddressingMode::IndirectY, Writeback::Accumulator, 2, 5),
        0x15 => Instruction::spec_new(Opcode::ORA, AddressingMode::ZeroPageX, Writeback::Accumulator, 2, 4),
        0x16 => Instruction::spec_new(Opcode::ASL, AddressingMode::ZeroPageX, Writeback::Memory, 2, 6),
        0x18 => Instruction::spec_new(Opcode::CLC, AddressingMode::Implicit, Writeback::NoWriteback, 1, 2),
        0x19 => Instruction::spec_new(Opcode::ORA, AddressingMode::AbsoluteY, Writeback::Accumulator, 3, 4),
        0x1D => Instruction::spec_new(Opcode::ORA, AddressingMode::AbsoluteX, Writeback::Accumulator, 3, 4),
        0x1E => Instruction::spec_new(Opcode::ASL, AddressingMode::AbsoluteX, Writeback::Memory, 3, 7),
        _ => Instruction::spec_invalid(opcode),
    }
}

pub open spec fn spec_row_2(opcode: Byte) -> Instruction {
    match opcode {
        0x20 => Instruction::spec_new(Opcode::JSR, AddressingMode::Absolute, Writeback::PC, 3, 6),
        0x21 => Instruction::spec_new(Opcode::AND, AddressingMode::IndirectX, Writeback::Accumulator, 2, 6),
        0x24 => Instruction::spec_new(Opcode::BIT, AddressingMode::ZeroPage, Writeback::NoWriteback, 2, 3),
        0x25 => Instruction::spec_new(Opcode::AND, AddressingMode::ZeroPage, Writeback::Accumulator, 2, 3),
        0x26 => Instruction::spec_new(Opcode::ROL, AddressingMode::ZeroPage, Writeback::Memory, 2, 5),
        0x28 => Instruction::spec_new(Opcode::PLP, AddressingMode::Implicit, Writeback::PS, 1, 4),
        0x29 => Instruction::spec_new(Opcode::AND, AddressingMode::Immediate, Writeback::Accumulator, 2, 2),
        0x2A => Instruction::spec_new(Opcode::ROL, AddressingMode::Accumulator, Writeback::Accumulator, 1, 2),
        0x2C => Instruction::spec_new(Opcode::BIT, AddressingMode::Absolute, Writeback::NoWriteback, 3, 4),
        0x2D => Instruction::spec_new(Opcode::AND, AddressingMode::Absolute, Writeback::Accumulator, 3, 4),
        0x2E => Instruction::spec_new(Opcode::ROL, AddressingMode::Absolute, Writeback::Memory, 3, 6),
        _ => Instruction::spec_invalid(opcode),
    }
}

pub open spec fn spec_row_3(opcode: Byte) -> Instruction {
    match opcode {
        0x30 => Instruction::spec_new(Opcode::BMI, AddressingMode::Relative, Writeback::PC, 2, 2),
        0x31 => Instruction::spec_new(Opcode::AND, AddressingMode::IndirectY, Writeback::Accumulator, 2, 5),
        0x35 => Instruction::spec_new(Opcode::AND, AddressingMode::ZeroPageX, Writeback::Accumulator, 2, 4),
        0x36 => Instruction::spec_new(Opcode::ROL, AddressingMode::ZeroPageX, Writeback::Memory, 2, 6),
        0x38 => Instruction::spec_new(Opcode::SEC, AddressingMode::Implicit, Writeback::NoWriteback, 1, 2),
        0x39 => Instruction::spec_new(Opcode::AND, AddressingMode::AbsoluteY, Writeback::Accumulator, 3, 4),
        0x3D => Instruction::spec_new(Opcode::AND, AddressingMode::AbsoluteX, Writeback::Accumulator, 3, 4),
        0x3E => Instruction::spec_new(Opcode::ROL, AddressingMode::AbsoluteX, Writeback::Memory, 3, 7),
        _ => Instruction::spec_invalid(opcode),
    }
}

pub open spec fn spec_row_4(opcode: Byte) -> Instruction {
    match opcode {
        0x40 => Instruction::spec_new(Opcode::RTI, AddressingMode::Implicit, Writeback::PC, 1, 6),
        0x41 => Instruction::spec_new(Opcode::EOR, AddressingMode::IndirectX, Writeback::Accumulator, 2, 6),
        0x45 => Instruction::spec_new(Opcode::EOR, AddressingMode::ZeroPage, Writeback::Accumulator, 2, 3),
        0x46 => Instruction::spec_new(Opcode::LSR, AddressingMode::ZeroPage, Writeback::Memory, 2, 5),
        0x48 => Instruction::spec_new(Opcode::PHA, AddressingMode::Implicit, Writeback::SP, 1, 3),
        0x49 => Instruction::spec_new(Opcode::EOR, AddressingMode::Immediate, Writeback::Accumulator, 2, 2),
        0x4A => Instruction::spec_new(Opcode::LSR, AddressingMode::Accumulator, Writeback::Accumulator, 1, 2),
        0x4C => Instruction::spec_new(Opcode::JMP, AddressingMode::Absolute, Writeback::PC, 3, 3),
        0x4D => Instruction::spec_new(Opcode::EOR, AddressingMode::Absolute, Writeback::Accumulator, 3, 4),
        0x4E => Instruction::spec_new(Opcode::LSR, AddressingMode::Absolute, Writeback::Memory, 3, 6),
        _ => Instruction::spec_invalid(opcode),
    }
}

pub open spec fn spec_row_5(opcode: Byte) -> Instruction {
    match opcode {
        0x50 => Instruction::spec_new(Opcode::BVC, AddressingMode::Relative, Writeback::PC, 2, 2),
        0x51 => Instruction::spec_new(Opcode::EOR, AddressingMode::IndirectY, Writeback::Accumulator, 2, 5),
        0x55 => Instruction::spec_new(Opcode::EOR, AddressingMode::ZeroPageX, Writeback::Accumulator, 2, 4),
        0x56 => Instruction::spec_new(Opcode::LSR, AddressingMode::ZeroPageX, Writeback::Memory, 2, 6),
        0x58 => Instruction::spec_new(Opcode::CLI, AddressingMode::Implicit, Writeback::NoWriteback, 1, 2),
        0x59 => Instruction::spec_new(Opcode::EOR, AddressingMode::AbsoluteY, Writeback::Accumulator, 3, 4),
        0x5D => Instruction::spec_new(Opcode::EOR, AddressingMode::AbsoluteX, Writeback::Accumulator, 3, 4),
        0x5E => Instruction::spec_new(Opcode::LSR, AddressingMode::AbsoluteX, Writeback::Memory, 3, 7),
        _ => Instruction::spec_invalid(opcode),
    }
}

pub open spec fn spec_row_6(opcode: Byte) -> Instruction {
    match opcode {
        0x60 => Instruction::spec_new(Opcode::RTS, AddressingMode::Implicit, Writeback::PC, 1, 6),
        0x61 => Instruction::spec_new(Opcode::ADC, AddressingMode::IndirectX, Writeback::Accumulator, 2, 6),
        0x65 => Instruction::spec_new(Opcode::ADC, AddressingMode::ZeroPage, Writeback::Accumulator, 2, 3),
        0x66 => Instruction::spec_new(Opcode::ROR, AddressingMode::ZeroPage, Writeback::Memory, 2, 5),
        0x68 => Instruction::spec_new(Opcode::PLA, AddressingMode::Implicit, Writeback::Accumulator, 1, 4),
        0x69 => Instruction::spec_new(Opcode::ADC, AddressingMode::Immediate, Writeback::Accumulator, 2, 2),
        0x6A => Instruction::spec_new(Opcode::ROR, AddressingMode::Accumulator, Writeback::Accumulator, 1, 2),
        0x6C => Instruction::spec_new(Opcode::JMP, AddressingMode::Indirect, Writeback::PC, 3, 5),
        0x6D => Instruction::spec_new(Opcode::ADC, AddressingMode::Absolute, Writeback::Accumulator, 3, 4),
        0x6E => Instruction::spec_new(Opcode::ROR, AddressingMode::Absolute, Writeback::Memory, 3, 6),
        _ => Instruction::spec_invalid(opcode),
    }
}

pub open spec fn spec_row_7(opcode: Byte) -> Instruction {
    match opcode {
        0x70 => Instruction::spec_new(Opcode::BVS, AddressingMode::Relative, Writeback::PC, 2, 2),
        0x71 => Instruction::spec_new(Opcode::ADC, AddressingMode::IndirectY, Writeback::Accumulator, 2, 5),
        0x75 => Instruction::spec_new(Opcode::ADC, AddressingMode::ZeroPageX, Writeback::Accumulator, 2, 4),
        0x76 => Instruction::spec_new(Opcode::ROR, AddressingMode::ZeroPageX, Writeback::Memory, 2, 6),
        0x78 => Instruction::spec_new(Opcode::SEI, AddressingMode::Implicit, Writeback::NoWriteback, 1, 2),
        0x79 => Instruction::spec_new(Opcode::ADC, AddressingMode::AbsoluteY, Writeback::Accumulator, 3, 4),
        0x7D => Instruction::spec_new(Opcode::ADC, AddressingMode::AbsoluteX, Writeback::Accumulator, 3, 4),
        0x7E => Instruction::spec_new(Opcode::ROR, AddressingMode::AbsoluteX, Writeback::Memory, 3, 7),
        _ => Instruction::spec_invalid(opcode),
    }
}

pub open spec fn spec_row_8(opcode: Byte) -> Instruction {
    match opcode {
        0x81 => Instruction::spec_new(Opcode::STA, AddressingMode::IndirectX, Writeback::Memory, 2, 6),
        0x84 => Instruction::spec_new(Opcode::STY, AddressingMode::ZeroPage, Writeback::Memory, 2, 3),
        0x85 => Instruction::spec_new(Opcode::STA, AddressingMode::ZeroPage, Writeback::Memory, 2, 3),
        0x86 => Instruction::spec_new(Opcode::STX, AddressingMode::ZeroPage, Writeback::Memory, 2, 3),
        0x88 => Instruction::spec_new(Opcode::DEY, AddressingMode::Implicit, Writeback::Y, 1, 2),
        0x8A => Instruction::spec_new(Opcode::TXA, AddressingMode::Implicit, Writeback::Accumulator, 1, 2),
        0x8C => Instruction::spec_new(Opcode::STY, AddressingMode::Absolute, Writeback::Memory, 3, 4),
        0x8D => Instruction::spec_new(Opcode::STA, AddressingMode::Absolute, Writeback::Memory, 3, 4),
        0x8E => Instruction::spec_new(Opcode::STX, AddressingMode::Absolute, Writeback::Memory, 3, 4),
        _ => Instruction::spec_invalid(opcode),
    }
}

pub open spec fn spec_row_9(opcode: Byte) -> Instruction {
    match opcode {
        0x90 => Instruction::spec_new(Opcode::BCC, AddressingMode::Relative, Writeback::PC, 2, 2),
        0x91 => Instruction::spec_new(Opcode::STA, AddressingMode::IndirectY, Writeback::Memory, 2, 6),
        0x94 => Instruction::spec_new(Opcode::STY, AddressingMode::ZeroPageX, Writeback::Memory, 2, 3),
        0x95 => Instruction::spec_new(Opcode::STA, AddressingMode::ZeroPageX, Writeback::Memory, 2, 4),
        0x96 => Instruction::spec_new(Opcode::STX, AddressingMode::ZeroPageY, Writeback::Memory, 2, 4),
        0x98 => Instruction::spec_new(Opcode::TYA, AddressingMode::Implicit, Writeback::Accumulator, 1, 2),
        0x99 => Instruction::spec_new(Opcode::STA, AddressingMode::AbsoluteY, Writeback::Memory, 3, 5),
        0x9A => Instruction::spec_new(Opcode::TXS, AddressingMode::Implicit, Writeback::SP, 1, 2),
        0x9D => Instruction::spec_new(Opcode::STA, AddressingMode::AbsoluteX, Writeback::Memory, 3, 5),
        _ => Instruction::spec_invalid(opcode),
    }
}

pub open spec fn spec_row_a(opcode: Byte) -> Instruction {
    match opcode {
        0xA0 => Instruction::spec_new(Opcode::LDY, AddressingMode::Immediate, Writeback::Y, 2, 2),
        0xA1 => Instruction::spec_new(Opcode::LDA, AddressingMode::IndirectX, Writeback::Accumulator, 2, 6),
        0xA2 => Instruction::spec_new(Opcode::LDX, AddressingMode::Immediate, Writeback::X, 2, 2),
        0xA4 => Instruction::spec_new(Opcode::LDY, AddressingMode::ZeroPage, Writeback::Y, 2, 3),
        0xA5 => Instruction::spec_new(Opcode::LDA, AddressingMode::ZeroPage, Writeback::Accumulator, 2, 3),
        0xA6 => Instruction::spec_new(Opcode::LDX, AddressingMode::ZeroPage, Writeback::X, 2, 3),
        0xA8 => Instruction::spec_new(Opcode::TAY, AddressingMode::Implicit, Writeback::Y, 1, 2),
        0xA9 => Instruction::spec_new(Opcode::LDA, AddressingMode::Immediate, Writeback::Accumulator, 2, 2),
        0xAA => Instruction::spec_new(Opcode::TAX, AddressingMode::Implicit, Writeback::X, 1, 2),
        0xAC => Instruction::spec_new(Opcode::LDY, AddressingMode::Absolute, Writeback::Y, 3, 4),
        0xAD => Instruction::spec_new(Opcode::LDA, AddressingMode::Absolute, Writeback::Accumulator, 3, 4),
        0xAE => Instruction::spec_new(Opcode::LDX, AddressingMode::Absolute, Writeback::X, 3, 4),
        _ => Instruction::spec_invalid(opcode),
    }
}

pub open spec fn spec_row_b(opcode: Byte) -> Instruction {
    match opcode {
        0xB0 => Instruction::spec_new(Opcode::BCS, AddressingMode::Relative, Writeback::PC, 2, 2),
        0xB1 => Instruction::spec_new(Opcode::LDA, AddressingMode::IndirectY, Writeback::Accumulator, 2, 5),
        0xB4 => Instruction::spec_new(Opcode::LDY, AddressingMode::ZeroPageX, Writeback::Y, 2, 4),
        0xB5 => Instruction::spec_new(Opcode::LDA, AddressingMode::ZeroPageX, Writeback::Accumulator, 2, 4),
        0xB6 => Instruction::spec_new(Opcode::LDX, AddressingMode::ZeroPageY, Writeback::X, 2, 4),
        0xB8 => Instruction::spec_new(Opcode::CLV, AddressingMode::Implicit, Writeback::NoWriteback, 1, 2),
        0xB9 => Instruction::spec_new(Opcode::LDA, AddressingMode::AbsoluteY, Writeback::Accumulator, 3, 4),
        0xBA => Instruction::spec_new(Opcode::TSX, AddressingMode::Implicit, Writeback::X, 1, 2),
        0xBC => Instruction::spec_new(Opcode::LDY, AddressingMode::AbsoluteX, Writeback::Y, 3, 4),
        0xBD => Instruction::spec_new(Opcode::LDA, AddressingMode::AbsoluteX, Writeback::Accumulator, 3, 4),
        0xBE => Instruction::spec_new(Opcode::LDX, AddressingMode::AbsoluteY, Writeback::X, 3, 4),
        _ => Instruction::spec_invalid(opcode),
    }
}

pub open spec fn spec_row_c(opcode: Byte) -> Instruction {
    match opcode {
        0xC0 => Instruction::spec_new(Opcode::CPY, AddressingMode::Immediate, Writeback::NoWriteback, 2, 2),
        0xC1 => Instruction::spec_new(Opcode::CMP, AddressingMode::IndirectX, Writeback::NoWriteback, 2, 6),
        0xC4 => Instruction::spec_new(Opcode::CPY, AddressingMode::ZeroPage, Writeback::NoWriteback, 2, 3),
        0xC5 => Instruction::spec_new(Opcode::CMP, AddressingMode::ZeroPage, Writeback::NoWriteback, 2, 3),
        0xC6 => Instruction::spec_new(Opcode::DEC, AddressingMode::ZeroPage, Writeback::Memory, 2, 5),
        0xC8 => Instruction::spec_new(Opcode::INY, AddressingMode::Implicit, Writeback::Y, 1, 2),
        0xC9 => Instruction::spec_new(Opcode::CMP, AddressingMode::Immediate, Writeback::NoWriteback, 2, 3),
        0xCA => Instruction::spec_new(Opcode::DEX, AddressingMode::Implicit, Writeback::X, 1, 2),
        0xCC => Instruction::spec_new(Opcode::CPY, AddressingMode::Absolute, Writeback::NoWriteback, 3, 4),
        0xCD => Instruction::spec_new(Opcode::CMP, AddressingMode::Absolute, Writeback::NoWriteback, 3, 4),
        0xCE => Instruction::spec_new(Opcode::DEC, AddressingMode::Absolute, Writeback::Memory, 3, 6),
        _ => Instruction::spec_invalid(opcode),
    }
}

pub open spec fn spec_row_d(opcode: Byte) -> Instruction {
    match opcode {
        0xD0 => Instruction::spec_new(Opcode::BNE, AddressingMode::Relative, Writeback::PC, 2, 2),
        0xD1 => Instruction::spec_new(Opcode::CMP, AddressingMode::IndirectY, Writeback::NoWriteback, 2, 5),
        0xD5 => Instruction::spec_new(Opcode::CMP, AddressingMode::ZeroPageX, Writeback::NoWriteback, 2, 4),
        0xD6 => Instruction::spec_new(Opcode::DEC, AddressingMode::ZeroPageX, Writeback::Memory, 2, 6),
        0xD8 => Instruction::spec_new(Opcode::CLD, AddressingMode::Implicit, Writeback::NoWriteback, 1, 2),
        0xD9 => Instruction::spec_new(Opcode::CMP, AddressingMode::AbsoluteY, Writeback::NoWriteback, 3, 4),
        0xDD => Instruction::spec_new(Opcode::CMP, AddressingMode::AbsoluteX, Writeback::NoWriteback, 3, 4),
        0xDE => Instruction::spec_new(Opcode::DEC, AddressingMode::AbsoluteX, Writeback::Memory, 3, 7),
        _ => Instruction::spec_invalid(opcode),
    }
}

pub open spec fn spec_row_e(opcode: Byte) -> Instruction {
    match opcode {
        0xE0 => Instruction::spec_new(Opcode::CPX, AddressingMode::Immediate, Writeback::NoWriteback, 2, 2),
        0xE1 => Instruction::spec_new(Opcode::SBC, AddressingMode::IndirectX, Writeback::Accumulator, 2, 6),
        0xE4 => Instruction::spec_new(Opcode::CPX, AddressingMode::ZeroPage, Writeback::NoWriteback, 2, 3),
        0xE5 => Instruction::spec_new(Opcode::SBC, AddressingMode::ZeroPage, Writeback::Accumulator, 2, 3),
        0xE6 => Instruction::spec_new(Opcode::INC, AddressingMode::ZeroPage, Writeback::Memory, 2, 5),
        0xE8 => Instruction::spec_new(Opcode::INX, AddressingMode::Implicit, Writeback::X, 1, 2),
        0xE9 => Instruction::spec_new(Opcode::SBC, AddressingMode::Immediate, Writeback::Accumulator, 2, 2),
        0xEA => Instruction::spec_new(Opcode::NOP, AddressingMode::Implicit, Writeback::NoWriteback, 1, 2),
        0xEC => Instruction::spec_new(Opcode::CPX, AddressingMode::Absolute, Writeback::NoWriteback, 3, 4),
        0xED => Instruction::spec_new(Opcode::SBC, AddressingMode::Absolute, Writeback::Accumulator, 3, 4),
        0xEE => Instruction::spec_new(Opcode::INC, AddressingMode::Absolute, Writeback::Memory, 3, 6),
        _ => Instruction::spec_invalid(opcode),
    }
}

pub open spec fn spec_row_f(opcode: Byte) -> Instruction {
    match opcode {
        0xF0 => Instruction::spec_new(Opcode::BEQ, AddressingMode::Relative, Writeback::PC, 2, 2),
        0xF1 => Instruction::spec_new(Opcode::SBC, AddressingMode::IndirectY, Writeback::Accumulator, 2, 5),
        0xF5 => Instruction::spec_new(Opcode::SBC, AddressingMode::ZeroPageX, Writeback::Accumulator, 2, 4),
        0xF6 => Instruction::spec_new(Opcode::INC, AddressingMode::ZeroPageX, Writeback::Memory, 2, 6),
        0xF8 => Instruction::spec_new(Opcode::SED, AddressingMode::Implicit, Writeback::NoWriteback, 1, 2),
        0xF9 => Instruction::spec_new(Opcode::SBC, AddressingMode::AbsoluteY, Writeback::Accumulator, 3, 4),
        0xFD => Instruction::spec_new(Opcode::SBC, AddressingMode::AbsoluteX, Writeback::Accumulator, 3, 4),
        0xFE => Instruction::spec_new(Opcode::INC, AddressingMode::AbsoluteX, Writeback::Memory, 3, 7),
        _ => Instruction::spec_invalid(opcode),
    }
}

/// The table entry for one opcode.
fn table_entry(opcode: Byte) -> (r: Instruction)
    ensures
        r == instruction_for(opcode),
{
    match opcode / 16 {
        0 => row_0(opcode),
        1 => row_1(opcode),
        2 => row_2(opcode),
        3 => row_3(opcode),
        4 => row_4(opcode),
        5 => row_5(opcode),
        6 => row_6(opcode),
        7 => row_7(opcode),
        8 => row_8(opcode),
        9 => row_9(opcode),
        10 => row_a(opcode),
        11 => row_b(opcode),
        12 => row_c(opcode),
        13 => row_d(opcode),
        14 => row_e(opcode),
        _ => row_f(opcode),
    }
}

fn row_0(opcode: Byte) -> (r: Instruction)
    ensures
        r == spec_row_0(opcode),
{
    match opcode {
        0x00 => Instruction::new(Opcode::BRK, AddressingMode::Implicit, Writeback::PC, 1, 7),
        0x01 => Instruction::new(Opcode::ORA, AddressingMode::IndirectX, Writeback::Accumulator, 2, 6),
        0x05 => Instruction::new(Opcode::ORA, AddressingMode::ZeroPage, Writeback::Accumulator, 2, 3),
        0x06 => Instruction::new(Opcode::ASL, AddressingMode::ZeroPage, Writeback::Memory, 2, 5),
        0x08 => Instruction::new(Opcode::PHP, AddressingMode::Implicit, Writeback::SP, 1, 3),
        0x09 => Instruction::new(Opcode::ORA, AddressingMode::Immediate, Writeback::Accumulator, 2, 2),
        0x0A => Instruction::new(Opcode::ASL, AddressingMode::Accumulator, Writeback::Accumulator, 1, 2),
        0x0D => Instruction::new(Opcode::ORA, AddressingMode::Absolute, Writeback::Accumulator, 3, 4),
        0x0E => Instruction::new(Opcode::ASL, AddressingMode::Absolute, Writeback::Memory, 3, 6),
        _ => Instruction::new(
            Opcode::Invalid(opcode),
            AddressingMode::NoMode,
            Writeback::NoWriteback,
            0,
            0,
        ),
    }
}

fn row_1(opcode: Byte) -> (r: Instruction)
    ensures
        r == spec_row_1(opcode),
{
    match opcode {
        0x10 => Instruction::new(Opcode::BPL, AddressingMode::Relative, Writeback::PC, 2, 2),
        0x11 => Instruction::new(Opcode::ORA, AddressingMode::IndirectY, Writeback::Accumulator, 2, 5),
        0x15 => Instruction::new(Opcode::ORA, AddressingMode::ZeroPageX, Writeback::Accumulator, 2, 4),
        0x16 => Instruction::new(Opcode::ASL, AddressingMode::ZeroPageX, Writeback::Memory, 2, 6),
        0x18 => Instruction::new(Opcode::CLC, AddressingMode::Implicit, Writeback::NoWriteback, 1, 2),
        0x19 => Instruction::new(Opcode::ORA, AddressingMode::AbsoluteY, Writeback::Accumulator, 3, 4),
        0x1D => Instruction::new(Opcode::ORA, AddressingMode::AbsoluteX, Writeback::Accumulator, 3, 4),
        0x1E => Instruction::new(Opcode::ASL, AddressingMode::AbsoluteX, Writeback::Memory, 3, 7),
        _ => Instruction::new(
            Opcode::Invalid(opcode),
            AddressingMode::NoMode,
            Writeback::NoWriteback,
            0,
            0,
        ),
    }
}

fn row_2(opcode: Byte) -> (r: Instruction)
    ensures
        r == spec_row_2(opcode),
{
    match opcode {
        0x20 => Instruction::new(Opcode::JSR, AddressingMode::Absolute, Writeback::PC, 3, 6),
        0x21 => Instruction::new(Opcode::AND, AddressingMode::IndirectX, Writeback::Accumulator, 2, 6),
        0x24 => Instruction::new(Opcode::BIT, AddressingMode::ZeroPage, Writeback::NoWriteback, 2, 3),
        0x25 => Instruction::new(Opcode::AND, AddressingMode::ZeroPage, Writeback::Accumulator, 2, 3),
        0x26 => Instruction::new(Opcode::ROL, AddressingMode::ZeroPage, Writeback::Memory, 2, 5),
        0x28 => Instruction::new(Opcode::PLP, AddressingMode::Implicit, Writeback::PS, 1, 4),
        0x29 => Instruction::new(Opcode::AND, AddressingMode::Immediate, Writeback::Accumulator, 2, 2),
        0x2A => Instruction::new(Opcode::ROL, AddressingMode::Accumulator, Writeback::Accumulator, 1, 2),
        0x2C => Instruction::new(Opcode::BIT, AddressingMode::Absolute, Writeback::NoWriteback, 3, 4),
        0x2D => Instruction::new(Opcode::AND, AddressingMode::Absolute, Writeback::Accumulator, 3, 4),
        0x2E => Instruction::new(Opcode::ROL, AddressingMode::Absolute, Writeback::Memory, 3, 6),
        _ => Instruction::new(
            Opcode::Invalid(opcode),
            AddressingMode::NoMode,
            Writeback::NoWriteback,
            0,
            0,
        ),
    }
}

fn row_3(opcode: Byte) -> (r: Instruction)
    ensures
        r == spec_row_3(opcode),
{
    match opcode {
        0x30 => Instruction::new(Opcode::BMI, AddressingMode::Relative, Writeback::PC, 2, 2),
        0x31 => Instruction::new(Opcode::AND, AddressingMode::IndirectY, Writeback::Accumulator, 2, 5),
        0x35 => Instruction::new(Opcode::AND, AddressingMode::ZeroPageX, Writeback::Accumulator, 2, 4),
        0x36 => Instruction::new(Opcode::ROL, AddressingMode::ZeroPageX, Writeback::Memory, 2, 6),
        0x38 => Instruction::new(Opcode::SEC, AddressingMode::Implicit, Writeback::NoWriteback, 1, 2),
        0x39 => Instruction::new(Opcode::AND, AddressingMode::AbsoluteY, Writeback::Accumulator, 3, 4),
        0x3D => Instruction::new(Opcode::AND, AddressingMode::AbsoluteX, Writeback::Accumulator, 3, 4),
        0x3E => Instruction::new(Opcode::ROL, AddressingMode::AbsoluteX, Writeback::Memory, 3, 7),
        _ => Instruction::new(
            Opcode::Invalid(opcode),
            AddressingMode::NoMode,
            Writeback::NoWriteback,
            0,
            0,
        ),
    }
}

fn row_4(opcode: Byte) -> (r: Instruction)
    ensures
        r == spec_row_4(opcode),
{
    match opcode {
        0x40 => Instruction::new(Opcode::RTI, AddressingMode::Implicit, Writeback::PC, 1, 6),
        0x41 => Instruction::new(Opcode::EOR, AddressingMode::IndirectX, Writeback::Accumulator, 2, 6),
        0x45 => Instruction::new(Opcode::EOR, AddressingMode::ZeroPage, Writeback::Accumulator, 2, 3),
        0x46 => Instruction::new(Opcode::LSR, AddressingMode::ZeroPage, Writeback::Memory, 2, 5),
        0x48 => Instruction::new(Opcode::PHA, AddressingMode::Implicit, Writeback::SP, 1, 3),
        0x49 => Instruction::new(Opcode::EOR, AddressingMode::Immediate, Writeback::Accumulator, 2, 2),
        0x4A => Instruction::new(Opcode::LSR, AddressingMode::Accumulator, Writeback::Accumulator, 1, 2),
        0x4C => Instruction::new(Opcode::JMP, AddressingMode::Absolute, Writeback::PC, 3, 3),
        0x4D => Instruction::new(Opcode::EOR, AddressingMode::Absolute, Writeback::Accumulator, 3, 4),
        0x4E => Instruction::new(Opcode::LSR, AddressingMode::Absolute, Writeback::Memory, 3, 6),
        _ => Instruction::new(
            Opcode::Invalid(opcode),
            AddressingMode::NoMode,
            Writeback::NoWriteback,
            0,
            0,
        ),
    }
}

fn row_5(opcode: Byte) -> (r: Instruction)
    ensures
        r == spec_row_5(opcode),
{
    match opcode {
        0x50 => Instruction::new(Opcode::BVC, AddressingMode::Relative, Writeback::PC, 2, 2),
        0x51 => Instruction::new(Opcode::EOR, AddressingMode::IndirectY, Writeback::Accumulator, 2, 5),
        0x55 => Instruction::new(Opcode::EOR, AddressingMode::ZeroPageX, Writeback::Accumulator, 2, 4),
        0x56 => Instruction::new(Opcode::LSR, AddressingMode::ZeroPageX, Writeback::Memory, 2, 6),
        0x58 => Instruction::new(Opcode::CLI, AddressingMode::Implicit, Writeback::NoWriteback, 1, 2),
        0x59 => Instruction::new(Opcode::EOR, AddressingMode::AbsoluteY, Writeback::Accumulator, 3, 4),
        0x5D => Instruction::new(Opcode::EOR, AddressingMode::AbsoluteX, Writeback::Accumulator, 3, 4),
        0x5E => Instruction::new(Opcode::LSR, AddressingMode::AbsoluteX, Writeback::Memory, 3, 7),
        _ => Instruction::new(
            Opcode::Invalid(opcode),
            AddressingMode::NoMode,
            Writeback::NoWriteback,
            0,
            0,
        ),
    }
}

fn row_6(opcode: Byte) -> (r: Instruction)
    ensures
        r == spec_row_6(opcode),
{
    match opcode {
        0x60 => Instruction::new(Opcode::RTS, AddressingMode::Implicit, Writeback::PC, 1, 6),
        0x61 => Instruction::new(Opcode::ADC, AddressingMode::IndirectX, Writeback::Accumulator, 2, 6),
        0x65 => Instruction::new(Opcode::ADC, AddressingMode::ZeroPage, Writeback::Accumulator, 2, 3),
        0x66 => Instruction::new(Opcode::ROR, AddressingMode::ZeroPage, Writeback::Memory, 2, 5),
        0x68 => Instruction::new(Opcode::PLA, AddressingMode::Implicit, Writeback::Accumulator, 1, 4),
        0x69 => Instruction::new(Opcode::ADC, AddressingMode::Immediate, Writeback::Accumulator, 2, 2),
        0x6A => Instruction::new(Opcode::ROR, AddressingMode::Accumulator, Writeback::Accumulator, 1, 2),
        0x6C => Instruction::new(Opcode::JMP, AddressingMode::Indirect, Writeback::PC, 3, 5),
        0x6D => Instruction::new(Opcode::ADC, AddressingMode::Absolute, Writeback::Accumulator, 3, 4),
        0x6E => Instruction::new(Opcode::ROR, AddressingMode::Absolute, Writeback::Memory, 3, 6),
        _ => Instruction::new(
            Opcode::Invalid(opcode),
            AddressingMode::NoMode,
            Writeback::NoWriteback,
            0,
            0,
        ),
    }
}

fn row_7(opcode: Byte) -> (r: Instruction)
    ensures
        r == spec_row_7(opcode),
{
    match opcode {
        0x70 => Instruction::new(Opcode::BVS, AddressingMode::Relative, Writeback::PC, 2, 2),
        0x71 => Instruction::new(Opcode::ADC, AddressingMode::IndirectY, Writeback::Accumulator, 2, 5),
        0x75 => Instruction::new(Opcode::ADC, AddressingMode::ZeroPageX, Writeback::Accumulator, 2, 4),
        0x76 => Instruction::new(Opcode::ROR, AddressingMode::ZeroPageX, Writeback::Memory, 2, 6),
        0x78 => Instruction::new(Opcode::SEI, AddressingMode::Implicit, Writeback::NoWriteback, 1, 2),
        0x79 => Instruction::new(Opcode::ADC, AddressingMode::AbsoluteY, Writeback::Accumulator, 3, 4),
        0x7D => Instruction::new(Opcode::ADC, AddressingMode::AbsoluteX, Writeback::Accumulator, 3, 4),
        0x7E => Instruction::new(Opcode::ROR, AddressingMode::AbsoluteX, Writeback::Memory, 3, 7),
        _ => Instruction::new(
            Opcode::Invalid(opcode),
            AddressingMode::NoMode,
            Writeback::NoWriteback,
            0,
            0,
        ),
    }
}

fn row_8(opcode: Byte) -> (r: Instruction)
    ensures
        r == spec_row_8(opcode),
{
    match opcode {
        0x81 => Instruction::new(Opcode::STA, AddressingMode::IndirectX, Writeback::Memory, 2, 6),
        0x84 => Instruction::new(Opcode::STY, AddressingMode::ZeroPage, Writeback::Memory, 2, 3),
        0x85 => Instruction::new(Opcode::STA, AddressingMode::ZeroPage, Writeback::Memory, 2, 3),
        0x86 => Instruction::new(Opcode::STX, AddressingMode::ZeroPage, Writeback::Memory, 2, 3),
        0x88 => Instruction::new(Opcode::DEY, AddressingMode::Implicit, Writeback::Y, 1, 2),
        0x8A => Instruction::new(Opcode::TXA, AddressingMode::Implicit, Writeback::Accumulator, 1, 2),
        0x8C => Instruction::new(Opcode::STY, AddressingMode::Absolute, Writeback::Memory, 3, 4),
        0x8D => Instruction::new(Opcode::STA, AddressingMode::Absolute, Writeback::Memory, 3, 4),
        0x8E => Instruction::new(Opcode::STX, AddressingMode::Absolute, Writeback::Memory, 3, 4),
        _ => Instruction::new(
            Opcode::Invalid(opcode),
            AddressingMode::NoMode,
            Writeback::NoWriteback,
            0,
            0,
        ),
    }
}

fn row_9(opcode: Byte) -> (r: Instruction)
    ensures
        r == spec_row_9(opcode),
{
    match opcode {
        0x90 => Instruction::new(Opcode::BCC, AddressingMode::Relative, Writeback::PC, 2, 2),
        0x91 => Instruction::new(Opcode::STA, AddressingMode::IndirectY, Writeback::Memory, 2, 6),
        0x94 => Instruction::new(Opcode::STY, AddressingMode::ZeroPageX, Writeback::Memory, 2, 3),
        0x95 => Instruction::new(Opcode::STA, AddressingMode::ZeroPageX, Writeback::Memory, 2, 4),
        0x96 => Instruction::new(Opcode::STX, AddressingMode::ZeroPageY, Writeback::Memory, 2, 4),
        0x98 => Instruction::new(Opcode::TYA, AddressingMode::Implicit, Writeback::Accumulator, 1, 2),
        0x99 => Instruction::new(Opcode::STA, AddressingMode::AbsoluteY, Writeback::Memory, 3, 5),
        0x9A => Instruction::new(Opcode::TXS, AddressingMode::Implicit, Writeback::SP, 1, 2),
        0x9D => Instruction::new(Opcode::STA, AddressingMode::AbsoluteX, Writeback::Memory, 3, 5),
        _ => Instruction::new(
            Opcode::Invalid(opcode),
            AddressingMode::NoMode,
            Writeback::NoWriteback,
            0,
            0,
        ),
    }
}

fn row_a(opcode: Byte) -> (r: Instruction)
    ensures
        r == spec_row_a(opcode),
{
    match opcode {
        0xA0 => Instruction::new(Opcode::LDY, AddressingMode::Immediate, Writeback::Y, 2, 2),
        0xA1 => Instruction::new(Opcode::LDA, AddressingMode::IndirectX, Writeback::Accumulator, 2, 6),
        0xA2 => Instruction::new(Opcode::LDX, AddressingMode::Immediate, Writeback::X, 2, 2),
        0xA4 => Instruction::new(Opcode::LDY, AddressingMode::ZeroPage, Writeback::Y, 2, 3),
        0xA5 => Instruction::new(Opcode::LDA, AddressingMode::ZeroPage, Writeback::Accumulator, 2, 3),
        0xA6 => Instruction::new(Opcode::LDX, AddressingMode::ZeroPage, Writeback::X, 2, 3),
        0xA8 => Instruction::new(Opcode::TAY, AddressingMode::Implicit, Writeback::Y, 1, 2),
        0xA9 => Instruction::new(Opcode::LDA, AddressingMode::Immediate, Writeback::Accumulator, 2, 2),
        0xAA => Instruction::new(Opcode::TAX, AddressingMode::Implicit, Writeback::X, 1, 2),
        0xAC => Instruction::new(Opcode::LDY, AddressingMode::Absolute, Writeback::Y, 3, 4),
        0xAD => Instruction::new(Opcode::LDA, AddressingMode::Absolute, Writeback::Accumulator, 3, 4),
        0xAE => Instruction::new(Opcode::LDX, AddressingMode::Absolute, Writeback::X, 3, 4),
        _ => Instruction::new(
            Opcode::Invalid(opcode),
            AddressingMode::NoMode,
            Writeback::NoWriteback,
            0,
            0,
        ),
    }
}

fn row_b(opcode: Byte) -> (r: Instruction)
    ensures
        r == spec_row_b(opcode),
{
    match opcode {
        0xB0 => Instruction::new(Opcode::BCS, AddressingMode::Relative, Writeback::PC, 2, 2),
        0xB1 => Instruction::new(Opcode::LDA, AddressingMode::IndirectY, Writeback::Accumulator, 2, 5),
        0xB4 => Instruction::new(Opcode::LDY, AddressingMode::ZeroPageX, Writeback::Y, 2, 4),
        0xB5 => Instruction::new(Opcode::LDA, AddressingMode::ZeroPageX, Writeback::Accumulator, 2, 4),
        0xB6 => Instruction::new(Opcode::LDX, AddressingMode::ZeroPageY, Writeback::X, 2, 4),
        0xB8 => Instruction::new(Opcode::CLV, AddressingMode::Implicit, Writeback::NoWriteback, 1, 2),
        0xB9 => Instruction::new(Opcode::LDA, AddressingMode::AbsoluteY, Writeback::Accumulator, 3, 4),
        0xBA => Instruction::new(Opcode::TSX, AddressingMode::Implicit, Writeback::X, 1, 2),
        0xBC => Instruction::new(Opcode::LDY, AddressingMode::AbsoluteX, Writeback::Y, 3, 4),
        0xBD => Instruction::new(Opcode::LDA, AddressingMode::AbsoluteX, Writeback::Accumulator, 3, 4),
        0xBE => Instruction::new(Opcode::LDX, AddressingMode::AbsoluteY, Writeback::X, 3, 4),
        _ => Instruction::new(
            Opcode::Invalid(opcode),
            AddressingMode::NoMode,
            Writeback::NoWriteback,
            0,
            0,
        ),
    }
}

fn row_c(opcode: Byte) -> (r: Instruction)
    ensures
        r == spec_row_c(opcode),
{
    match opcode {
        0xC0 => Instruction::new(Opcode::CPY, AddressingMode::Immediate, Writeback::NoWriteback, 2, 2),
        0xC1 => Instruction::new(Opcode::CMP, AddressingMode::IndirectX, Writeback::NoWriteback, 2, 6),
        0xC4 => Instruction::new(Opcode::CPY, AddressingMode::ZeroPage, Writeback::NoWriteback, 2, 3),
        0xC5 => Instruction::new(Opcode::CMP, AddressingMode::ZeroPage, Writeback::NoWriteback, 2, 3),
        0xC6 => Instruction::new(Opcode::DEC, AddressingMode::ZeroPage, Writeback::Memory, 2, 5),
        0xC8 => Instruction::new(Opcode::INY, AddressingMode::Implicit, Writeback::Y, 1, 2),
        0xC9 => Instruction::new(Opcode::CMP, AddressingMode::Immediate, Writeback::NoWriteback, 2, 3),
        0xCA => Instruction::new(Opcode::DEX, AddressingMode::Implicit, Writeback::X, 1, 2),
        0xCC => Instruction::new(Opcode::CPY, AddressingMode::Absolute, Writeback::NoWriteback, 3, 4),
        0xCD => Instruction::new(Opcode::CMP, AddressingMode::Absolute, Writeback::NoWriteback, 3, 4),
        0xCE => Instruction::new(Opcode::DEC, AddressingMode::Absolute, Writeback::Memory, 3, 6),
        _ => Instruction::new(
            Opcode::Invalid(opcode),
            AddressingMode::NoMode,
            Writeback::NoWriteback,
            0,
            0,
        ),
    }
}

fn row_d(opcode: Byte) -> (r: Instruction)
    ensures
        r == spec_row_d(opcode),
{
    match opcode {
        0xD0 => Instruction::new(Opcode::BNE, AddressingMode::Relative, Writeback::PC, 2, 2),
        0xD1 => Instruction::new(Opcode::CMP, AddressingMode::IndirectY, Writeback::NoWriteback, 2, 5),
        0xD5 => Instruction::new(Opcode::CMP, AddressingMode::ZeroPageX, Writeback::NoWriteback, 2, 4),
        0xD6 => Instruction::new(Opcode::DEC, AddressingMode::ZeroPageX, Writeback::Memory, 2, 6),
        0xD8 => Instruction::new(Opcode::CLD, AddressingMode::Implicit, Writeback::NoWriteback, 1, 2),
        0xD9 => Instruction::new(Opcode::CMP, AddressingMode::AbsoluteY, Writeback::NoWriteback, 3, 4),
        0xDD => Instruction::new(Opcode::CMP, AddressingMode::AbsoluteX, Writeback::NoWriteback, 3, 4),
        0xDE => Instruction::new(Opcode::DEC, AddressingMode::AbsoluteX, Writeback::Memory, 3, 7),
        _ => Instruction::new(
            Opcode::Invalid(opcode),
            AddressingMode::NoMode,
            Writeback::NoWriteback,
            0,
            0,
        ),
    }
}

fn row_e(opcode: Byte) -> (r: Instruction)
    ensures
        r == spec_row_e(opcode),
{
    match opcode {
        0xE0 => Instruction::new(Opcode::CPX, AddressingMode::Immediate, Writeback::NoWriteback, 2, 2),
        0xE1 => Instruction::new(Opcode::SBC, AddressingMode::IndirectX, Writeback::Accumulator, 2, 6),
        0xE4 => Instruction::new(Opcode::CPX, AddressingMode::ZeroPage, Writeback::NoWriteback, 2, 3),
        0xE5 => Instruction::new(Opcode::SBC, AddressingMode::ZeroPage, Writeback::Accumulator, 2, 3),
        0xE6 => Instruction::new(Opcode::INC, AddressingMode::ZeroPage, Writeback::Memory, 2, 5),
        0xE8 => Instruction::new(Opcode::INX, AddressingMode::Implicit, Writeback::X, 1, 2),
        0xE9 => Instruction::new(Opcode::SBC, AddressingMode::Immediate, Writeback::Accumulator, 2, 2),
        0xEA => Instruction::new(Opcode::NOP, AddressingMode::Implicit, Writeback::NoWriteback, 1, 2),
        0xEC => Instruction::new(Opcode::CPX, AddressingMode::Absolute, Writeback::NoWriteback, 3, 4),
        0xED => Instruction::new(Opcode::SBC, AddressingMode::Absolute, Writeback::Accumulator, 3, 4),
        0xEE => Instruction::new(Opcode::INC, AddressingMode::Absolute, Writeback::Memory, 3, 6),
        _ => Instruction::new(
            Opcode::Invalid(opcode),
            AddressingMode::NoMode,
            Writeback::NoWriteback,
            0,
            0,
        ),
    }
}

fn row_f(opcode: Byte) -> (r: Instruction)
    ensures
        r == spec_row_f(opcode),
{
    match opcode {
        0xF0 => Instruction::new(Opcode::BEQ, AddressingMode::Relative, Writeback::PC, 2, 2),
        0xF1 => Instruction::new(Opcode::SBC, AddressingMode::IndirectY, Writeback::Accumulator, 2, 5),
        0xF5 => Instruction::new(Opcode::SBC, AddressingMode::ZeroPageX, Writeback::Accumulator, 2, 4),
        0xF6 => Instruction::new(Opcode::INC, AddressingMode::ZeroPageX, Writeback::Memory, 2, 6),
        0xF8 => Instruction::new(Opcode::SED, AddressingMode::Implicit, Writeback::NoWriteback, 1, 2),
        0xF9 => Instruction::new(Opcode::SBC, AddressingMode::AbsoluteY, Writeback::Accumulator, 3, 4),
        0xFD => Instruction::new(Opcode::SBC, AddressingMode::AbsoluteX, Writeback::Accumulator, 3, 4),
        0xFE => Instruction::new(Opcode::INC, AddressingMode::AbsoluteX, Writeback::Memory, 3, 7),
        _ => Instruction::new(
            Opcode::Invalid(opcode),
            AddressingMode::NoMode,
            Writeback::NoWriteback,
            0,
            0,
        ),
    }
}

/// The decoder table is consistent for every opcode byte: an unassigned slot
/// holds `Invalid` of its own byte, no addressing mode, no writeback, and a
/// length and tick count of 0; an assigned slot, and only such a slot, has a
/// length of 1 to 3 bytes and an addressing mode that the resolver knows.
pub proof fn decoder_table_is_consistent(opcode: Byte)
    ensures
        (instruction_for(opcode).opcode is Invalid) == (instruction_for(opcode).byte_length == 0),
        instruction_for(opcode).opcode is Invalid ==> instruction_for(opcode)
            == Instruction::spec_invalid(opcode),
        !(instruction_for(opcode).opcode is Invalid) ==> {
            &&& 1 <= instruction_for(opcode).byte_length <= 3
            &&& instruction_for(opcode).addressing_mode != AddressingMode::NoMode
        },
{
}

/// The 256-entry decoder table, built once.
pub struct InstructionDecoder {
    decode_table: Vec<Instruction>,
}

impl InstructionDecoder {
    pub fn new() -> (r: Self)
        ensures
            crate::cpu::InstructionDecoder::inv(&r),
    {
        let mut decode_table: Vec<Instruction> = Vec::new();
        let mut i: usize = 0;
        while i < 256
            invariant
                i <= 256,
                decode_table@.len() == i,
                forall|j: int| 0 <= j < i ==> #[trigger] decode_table@[j] == instruction_for(j as u8),
            decreases 256 - i,
        {
            decode_table.push(table_entry(i as u8));
            i = i + 1;
        }
        InstructionDecoder { decode_table }
    }
}

impl crate::cpu::InstructionDecoder for InstructionDecoder {
    closed spec fn inv(&self) -> bool {
        &&& self.decode_table@.len() == 256
        &&& forall|j: int| 0 <= j < 256 ==> #[trigger] self.decode_table@[j] == instruction_for(j as u8)
    }

    open spec fn decoded(&self, opcode: Byte) -> Instruction {
        instruction_for(opcode)
    }

    fn decode(&self, opcode: Byte) -> (r: Result<&Instruction>) {
        Ok(&self.decode_table[opcode as usize])
    }
}

} // verus!

use mos6502::cpu::instruction_decode::InstructionDecoder;
use mos6502::cpu::InstructionDecoder as _;
use mos6502::cpu::{AddressingMode, Instruction, Opcode, Writeback};

#[test]
fn every_unassigned_slot_is_invalid_of_its_byte() {
    let decoder = InstructionDecoder::new();
    let mut assigned = 0;
    for b in 0..=255u8 {
        let instruction = decoder.decode(b).unwrap();
        match instruction.opcode {
            Opcode::Invalid(raw) => {
                assert_eq!(raw, b);
                assert_eq!(instruction.byte_length, 0);
                assert_eq!(instruction.ticks, 0);
                assert_eq!(instruction.addressing_mode, AddressingMode::NoMode);
                assert_eq!(instruction.writeback, Writeback::NoWriteback);
            },
            _ => {
                assigned += 1;
                assert!(1 <= instruction.byte_length && instruction.byte_length <= 3);
                assert_ne!(instruction.addressing_mode, AddressingMode::NoMode);
            },
        }
    }
    assert_eq!(assigned, 151);
}

#[test]
fn known_entries() {
    let decoder = InstructionDecoder::new();
    assert_eq!(
        *decoder.decode(0xa9).unwrap(),
        Instruction::new(Opcode::LDA, AddressingMode::Immediate, Writeback::Accumulator, 2, 2)
    );
    assert_eq!(
        *decoder.decode(0x00).unwrap(),
        Instruction::new(Opcode::BRK, AddressingMode::Implicit, Writeback::PC, 1, 7)
    );
    assert_eq!(
        *decoder.decode(0x6c).unwrap(),
        Instruction::new(Opcode::JMP, AddressingMode::Indirect, Writeback::PC, 3, 5)
    );
    assert_eq!(
        *decoder.decode(0xfe).unwrap(),
        Instruction::new(Opcode::INC, AddressingMode::AbsoluteX, Writeback::Memory, 3, 7)
    );
    assert_eq!(
        *decoder.decode(0x9a).unwrap(),
        Instruction::new(Opcode::TXS, AddressingMode::Implicit, Writeback::SP, 1, 2)
    );
    assert_eq!(decoder.decode(0xff).unwrap().opcode, Opcode::Invalid(0xff));
}

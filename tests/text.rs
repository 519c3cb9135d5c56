use mos6502::cpu::registers::{Registers, StatusBits};
use mos6502::cpu::{Error, ErrorType, Opcode};
use mos6502::disassembler::execution::trace_line;
use mos6502::text::{hex_min_string, hex_padded_string};

#[test]
fn hex_rendering() {
    assert_eq!(hex_padded_string(0x0a, 4), "000a");
    assert_eq!(hex_padded_string(0xbeef, 4), "beef");
    assert_eq!(hex_padded_string(0x7, 2), "07");
    assert_eq!(hex_min_string(0), "0");
    assert_eq!(hex_min_string(0x1f), "1f");
    assert_eq!(hex_min_string(0xff00), "ff00");
}

#[test]
fn error_messages() {
    assert_eq!(
        Error::with_pc(0x1234, ErrorType::InvalidInstruction(0x02)).message(),
        "Invalid instruction (02) at 0x1234"
    );
    assert_eq!(
        Error::without_pc(ErrorType::AddressOutOfRange(0xa)).message(),
        "Address out of range (0x000a)"
    );
    assert_eq!(
        Error::with_pc(0xff00, ErrorType::InvalidAddressingMode).message(),
        "Invalid addressing mode at 0xff00"
    );
    assert_eq!(Error::without_pc(ErrorType::MissingData).message(), "Missing data");
    assert_eq!(Error::without_pc(ErrorType::MissingAddress).message(), "Missing address");
}

#[test]
fn register_description() {
    let mut r = Registers::new();
    assert_eq!(r.describe(), "PC: 0000 SP: ff A: 00 X: 00 Y: 00 PCnext: 0000 ");
    r.pc = 0x0200;
    r.pc_next = 0x0203;
    r.sp = 0xfd;
    r.x = 1;
    r.set_flag(StatusBits::Carry);
    r.set_flag(StatusBits::Zero);
    r.set_flag(StatusBits::Neg);
    assert_eq!(r.describe(), "PC: 0200 SP: fd A: 00 X: 01 Y: 00 PCnext: 0203 CZV");
}

#[test]
fn trace_lines() {
    assert_eq!(trace_line(0xff00, &Opcode::LDA, Some(0xff01), Some(0x42)), "ff00 : LDA &ff01 #42");
    assert_eq!(trace_line(0x0010, &Opcode::NOP, None, None), "0010 : NOP");
    assert_eq!(trace_line(0x0400, &Opcode::Invalid(0x02), None, None), "0400 : (02)");
    assert_eq!(Opcode::TXS.mnemonic(), "TXS");
}

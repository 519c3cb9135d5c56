use mos6502::cpu::address::AddressAndDataDispatch;
use mos6502::cpu::dispatch::Dispatcher;
use mos6502::cpu::instruction_decode::InstructionDecoder;
use mos6502::cpu::ram::Ram;
use mos6502::cpu::registers::Registers;
use mos6502::cpu::writeback::WritebackUnit;
use mos6502::cpu::ExecutionUnit as _;
use mos6502::cpu::{ExecutionResult, Memory, Opcode, Result};
use mos6502::disassembler::execution::ExecutionUnit;

#[test]
fn disassembler_construct() {
    let _unit: ExecutionUnit<Ram> = ExecutionUnit::new();
}

#[test]
fn disassembler_walks_a_program_without_running_it() -> Result<()> {
    // LDA #$42; STA $10; (invalid 02); JMP $0000
    let program = [0xa9u8, 0x42, 0x85, 0x10, 0x02, 0x4c, 0x00, 0x00];
    let mut memory = Ram::new(0x10000);
    for (i, b) in program.iter().enumerate() {
        memory.write_byte(i as u16, *b)?;
    }
    let mut cpu = Dispatcher::new(
        Registers::new(),
        memory,
        InstructionDecoder::new(),
        AddressAndDataDispatch::new(),
        ExecutionUnit::new(),
        WritebackUnit::new(),
    );
    let mut pcs = vec![];
    for _ in 0..4 {
        cpu.dispatch()?;
        pcs.push(cpu.registers.pc);
    }
    assert_eq!(pcs, vec![2, 4, 5, 8]);
    assert_eq!(cpu.registers.a, 0);
    assert_eq!(cpu.memory.read_byte(0x10)?, 0);
    Ok(())
}

#[test]
fn disassembler_execute_changes_nothing() -> Result<()> {
    let unit = ExecutionUnit::new();
    let mut memory = Ram::new(0x10);
    let mut registers = Registers::new();
    let before = registers;
    let r = unit.execute(&Opcode::BRK, None, None, &mut memory, &mut registers)?;
    assert_eq!(r, ExecutionResult::NoResult);
    assert_eq!(registers, before);
    Ok(())
}

use mos6502::cpu::address::AddressAndDataDispatch;
use mos6502::cpu::dispatch::Dispatcher;
use mos6502::cpu::execution::ExecutionUnit;
use mos6502::cpu::instruction_decode::InstructionDecoder;
use mos6502::cpu::memory::OverlayMemory;
use mos6502::cpu::ram::Ram;
use mos6502::cpu::registers::{Registers, StatusBits};
use mos6502::cpu::rom::Rom;
use mos6502::cpu::writeback::WritebackUnit;
use mos6502::cpu::{Error, ErrorType, Memory, Result};

type Machine =
    Dispatcher<InstructionDecoder, AddressAndDataDispatch<Ram>, Ram, ExecutionUnit<Ram>, WritebackUnit<Ram>>;

fn machine(program: &[u8], at: u16) -> Result<Machine> {
    let mut memory = Ram::new(0x10000);
    for (i, b) in program.iter().enumerate() {
        memory.write_byte(at + i as u16, *b)?;
    }
    let mut registers = Registers::new();
    registers.pc = at;
    Ok(Dispatcher::new(
        registers,
        memory,
        InstructionDecoder::new(),
        AddressAndDataDispatch::new(),
        ExecutionUnit::new(),
        WritebackUnit::new(),
    ))
}

#[test]
fn immediate_load_step() -> Result<()> {
    let mut cpu = machine(&[0xa9, 0x42, 0x00], 0)?;
    cpu.dispatch()?;
    assert_eq!(cpu.registers.a, 0x42);
    assert!(!cpu.registers.negative());
    assert!(!cpu.registers.zero());
    assert_eq!(cpu.registers.pc, 2);
    Ok(())
}

#[test]
fn adc_with_overflow_step() -> Result<()> {
    let mut cpu = machine(&[0x69, 0x01], 0)?;
    cpu.registers.a = 0x7f;
    cpu.dispatch()?;
    assert_eq!(cpu.registers.a, 0x80);
    assert!(cpu.registers.negative());
    assert!(!cpu.registers.zero());
    assert!(!cpu.registers.carry());
    assert!(cpu.registers.overflow());
    assert_eq!(cpu.registers.pc, 2);
    Ok(())
}

#[test]
fn adc_wrap_and_carry_step() -> Result<()> {
    let mut cpu = machine(&[0x69, 0x01], 0)?;
    cpu.registers.a = 0xff;
    cpu.dispatch()?;
    assert_eq!(cpu.registers.a, 0x00);
    assert!(!cpu.registers.negative());
    assert!(cpu.registers.zero());
    assert!(cpu.registers.carry());
    assert!(!cpu.registers.overflow());
    Ok(())
}

#[test]
fn branch_taken_and_not_taken() -> Result<()> {
    let mut cpu = machine(&[0xf0, 0xff], 0x10)?;
    cpu.registers.set_flag(StatusBits::Zero);
    cpu.dispatch()?;
    assert_eq!(cpu.registers.pc, 0x11);

    let mut cpu = machine(&[0xf0, 0xff], 0x10)?;
    cpu.registers.clear_flag(StatusBits::Zero);
    cpu.dispatch()?;
    assert_eq!(cpu.registers.pc, 0x12);
    Ok(())
}

#[test]
fn brk_step_jumps_through_vector() -> Result<()> {
    let mut cpu = machine(&[0x00], 0xff00)?;
    cpu.memory.write_word(0xfffe, 0x1234)?;
    cpu.registers.ps = 0x40;
    cpu.dispatch()?;
    assert_eq!(cpu.registers.pc, 0x1234);
    assert_eq!(cpu.registers.sp, 0xfc);
    assert_eq!(cpu.memory.read_byte(0x1fd)?, 0x50);
    assert_eq!(cpu.memory.read_word(0x1fe)?, 0xff02);
    Ok(())
}

#[test]
fn store_and_read_modify_write_go_to_memory() -> Result<()> {
    // LDA #$05; STA $40; INC $40; ASL $40; LDX $40
    let mut cpu = machine(&[0xa9, 0x05, 0x85, 0x40, 0xe6, 0x40, 0x06, 0x40, 0xa6, 0x40], 0x0200)?;
    for _ in 0..5 {
        cpu.dispatch()?;
    }
    assert_eq!(cpu.memory.read_byte(0x40)?, 0x0c);
    assert_eq!(cpu.registers.x, 0x0c);
    assert_eq!(cpu.registers.pc, 0x020a);
    Ok(())
}

#[test]
fn subroutine_call_and_return() -> Result<()> {
    // 0x0200: JSR $0300; INX   0x0300: INY; RTS
    let mut cpu = machine(&[0x20, 0x00, 0x03, 0xe8], 0x0200)?;
    cpu.memory.write_byte(0x0300, 0xc8)?;
    cpu.memory.write_byte(0x0301, 0x60)?;
    cpu.dispatch()?;
    assert_eq!(cpu.registers.pc, 0x0300);
    cpu.dispatch()?;
    cpu.dispatch()?;
    assert_eq!(cpu.registers.pc, 0x0203);
    cpu.dispatch()?;
    assert_eq!((cpu.registers.x, cpu.registers.y, cpu.registers.sp), (1, 1, 0xff));
    Ok(())
}

#[test]
fn plp_loads_the_status_byte() -> Result<()> {
    // LDA #$C3; PHA; PLP
    let mut cpu = machine(&[0xa9, 0xc3, 0x48, 0x28], 0)?;
    for _ in 0..3 {
        cpu.dispatch()?;
    }
    assert_eq!(cpu.registers.ps, 0xc3);
    assert_eq!(cpu.registers.sp, 0xff);
    Ok(())
}

#[test]
fn invalid_opcode_step_fails_and_moves_on() -> Result<()> {
    let mut cpu = machine(&[0x02], 0x0400)?;
    let r = cpu.dispatch();
    assert_eq!(r, Err(Error::with_pc(0x0400, ErrorType::InvalidInstruction(0x02))));
    assert_eq!(cpu.registers.pc, 0x0401);
    Ok(())
}

#[test]
fn fetch_out_of_range_fails() {
    let memory = Ram::new(0x10);
    let mut registers = Registers::new();
    registers.pc = 0x20;
    let mut cpu = Dispatcher::new(
        registers,
        memory,
        InstructionDecoder::new(),
        AddressAndDataDispatch::new(),
        ExecutionUnit::new(),
        WritebackUnit::new(),
    );
    assert_eq!(cpu.dispatch(), Err(Error::without_pc(ErrorType::AddressOutOfRange(0x20))));
    assert_eq!(cpu.registers.pc, 0x20);
}

#[test]
fn program_in_rom_overlay_runs() -> Result<()> {
    let mut image = vec![0xea; 0x100];
    // 0xff00: LDY #$07; STY $10; then NOPs
    image[0] = 0xa0;
    image[1] = 0x07;
    image[2] = 0x84;
    image[3] = 0x10;
    let memory = OverlayMemory::new(Ram::new(0x10000), Rom::new(image), 0xff00);
    let mut registers = Registers::new();
    registers.pc = 0xff00;
    let mut cpu = Dispatcher::new(
        registers,
        memory,
        InstructionDecoder::new(),
        AddressAndDataDispatch::new(),
        ExecutionUnit::new(),
        WritebackUnit::new(),
    );
    cpu.dispatch()?;
    cpu.dispatch()?;
    cpu.dispatch()?;
    assert_eq!(cpu.memory.read_byte(0x10)?, 0x07);
    assert_eq!(cpu.registers.pc, 0xff05);
    Ok(())
}

use core::marker::PhantomData;

use vstd::prelude::*;

use crate::cpu::address::{add16, lemma_wrapping_add};
use crate::cpu::model::{high_byte, low_byte, word_of, MemView};
use crate::cpu::registers::{lemma_flag_writes_are_independent, Registers, StatusBits};
use crate::cpu::{
    Address, Byte, Data, Error, ErrorType, ExecutionResult, Memory, Opcode, Outcome, Result, Word,
};

verus! {

/// The stack lives in page 1.
pub const STACK_BASE: Address = 0x100;

/// The address of the stack slot that `sp` points at.
pub open spec fn stack_address(sp: u8) -> Address {
    (STACK_BASE + sp) as Address
}

pub open spec fn inc8(v: u8) -> u8 {
    if v == 0xff {
        0
    } else {
        (v + 1) as u8
    }
}

pub open spec fn dec8(v: u8) -> u8 {
    if v == 0 {
        0xff
    } else {
        (v - 1) as u8
    }
}

/// Bit 7, the sign of a byte.
pub open spec fn bit7(v: u8) -> bool {
    v & 0x80 != 0
}

/// A push writes at the slot `sp` points at, then moves `sp` down.
pub open spec fn spec_push_byte(value: Byte, memory: MemView, registers: Registers) -> Outcome<()> {
    let (after, r) = memory.write_byte(stack_address(registers.sp), value);
    match r {
        Ok(()) => (Ok(()), Registers { sp: dec8(registers.sp), ..registers }, after),
        Err(e) => (Err(e), registers, after),
    }
}

/// A word push stores the high byte first, so that the low byte ends up at the
/// lower address.
pub open spec fn spec_push_word(value: Word, memory: MemView, registers: Registers) -> Outcome<()> {
    let (r, regs, after) = spec_push_byte(high_byte(value), memory, registers);
    match r {
        Ok(()) => spec_push_byte(low_byte(value), after, regs),
        Err(e) => (Err(e), regs, after),
    }
}

/// A pop moves `sp` up, then reads the slot it points at.
pub open spec fn spec_pop_byte(memory: MemView, registers: Registers) -> (Result<Byte>, Registers) {
    let regs = Registers { sp: inc8(registers.sp), ..registers };
    (memory.read_byte(stack_address(regs.sp)), regs)
}

/// A word pop takes the low byte first.
pub open spec fn spec_pop_word(memory: MemView, registers: Registers) -> (Result<Word>, Registers) {
    let (lo, regs) = spec_pop_byte(memory, registers);
    match lo {
        Ok(l) => {
            let (hi, regs2) = spec_pop_byte(memory, regs);
            match hi {
                Ok(h) => (Ok(word_of(l, h)), regs2),
                Err(e) => (Err(e), regs2),
            }
        },
        Err(e) => (Err(e), regs),
    }
}

/// `N` and `Z` from a result byte.
pub open spec fn with_nz(registers: Registers, v: u8) -> Registers {
    registers.with_flag(StatusBits::Neg, bit7(v)).with_flag(StatusBits::Zero, v == 0)
}

/// `A + d + C`, with `N`, `Z`, `C` and `V` from the sum.
pub open spec fn spec_adc(registers: Registers, d: u8) -> (u8, Registers) {
    let carry: int = if registers.flag(StatusBits::Carry) {
        1
    } else {
        0
    };
    let sum: int = registers.a + d + carry;
    let r = (sum % 256) as u8;
    let sign_a = bit7(registers.a);
    let sign_d = bit7(d);
    (
        r,
        registers.with_flag(StatusBits::Neg, bit7(r)).with_flag(StatusBits::Zero, r == 0).with_flag(
            StatusBits::Carry,
            sum > 255,
        ).with_flag(StatusBits::Ovf, sign_a == sign_d && sign_a != bit7(r)),
    )
}

/// The byte that an instruction computes from its operand `d`, and the
/// registers with its flags.
pub open spec fn spec_data_operation(opcode: Opcode, d: u8, registers: Registers) -> (u8, Registers) {
    let carry = registers.flag(StatusBits::Carry);
    match opcode {
        Opcode::ADC => spec_adc(registers, d),
        Opcode::SBC => spec_adc(registers, !d),
        Opcode::AND => (registers.a & d, with_nz(registers, registers.a & d)),
        Opcode::ORA => (registers.a | d, with_nz(registers, registers.a | d)),
        Opcode::EOR => (registers.a ^ d, with_nz(registers, registers.a ^ d)),
        Opcode::ASL => {
            let r = ((d * 2) % 256) as u8;
            (r, with_nz(registers.with_flag(StatusBits::Carry, bit7(d)), r))
        },
        Opcode::LSR => {
            let r = d / 2;
            (r, with_nz(registers.with_flag(StatusBits::Carry, d % 2 == 1), r))
        },
        Opcode::ROL => {
            let r = ((d * 2) % 256 + if carry {
                1int
            } else {
                0
            }) as u8;
            (r, with_nz(registers.with_flag(StatusBits::Carry, bit7(d)), r))
        },
        Opcode::ROR => {
            let r = (d / 2 + if carry {
                128int
            } else {
                0
            }) as u8;
            (r, with_nz(registers.with_flag(StatusBits::Carry, d % 2 == 1), r))
        },
        Opcode::INC => (inc8(d), with_nz(registers, inc8(d))),
        Opcode::DEC => (dec8(d), with_nz(registers, dec8(d))),
        _ => (d, with_nz(registers, d)),
    }
}

/// `C := reg >= d`, `Z := reg == d`, `N := bit 7 of reg - d`.
pub open spec fn spec_compare(register: u8, d: u8, registers: Registers) -> Registers {
    let diff = ((register - d + 256) % 256) as u8;
    registers.with_flag(StatusBits::Neg, bit7(diff)).with_flag(
        StatusBits::Zero,
        register == d,
    ).with_flag(StatusBits::Carry, register >= d)
}

/// The register value that an implied-operand instruction produces.
pub open spec fn spec_register_value(opcode: Opcode, registers: Registers) -> u8 {
    match opcode {
        Opcode::INX => inc8(registers.x),
        Opcode::INY => inc8(registers.y),
        Opcode::DEX => dec8(registers.x),
        Opcode::DEY => dec8(registers.y),
        Opcode::TAX => registers.a,
        Opcode::TAY => registers.a,
        Opcode::TSX => registers.sp,
        Opcode::TXA => registers.x,
        _ => registers.y,
    }
}

pub open spec fn fail(
    kind: ErrorType,
    memory: MemView,
    registers: Registers,
) -> Outcome<ExecutionResult> {
    (Err(Error::spec_with_pc(registers.pc, kind)), registers, memory)
}

pub open spec fn done(
    result: ExecutionResult,
    memory: MemView,
    registers: Registers,
) -> Outcome<ExecutionResult> {
    (Ok(result), registers, memory)
}

/// A branch yields its target when `taken`, and nothing otherwise.
pub open spec fn spec_branch(
    taken: bool,
    address: Option<Address>,
    memory: MemView,
    registers: Registers,
) -> Outcome<ExecutionResult> {
    if taken {
        match address {
            Some(a) => done(ExecutionResult::Address(a), memory, registers),
            None => fail(ErrorType::MissingAddress, memory, registers),
        }
    } else {
        done(ExecutionResult::NoResult, memory, registers)
    }
}

/// BRK: set B, push `PC + 2` and the status byte, jump through the vector at
/// `0xFFFE`.
pub open spec fn spec_brk(memory: MemView, registers: Registers) -> Outcome<ExecutionResult> {
    let regs = registers.with_flag(StatusBits::Brk, true);
    let (r1, regs1, m1) = spec_push_word(add16(regs.pc, 2), memory, regs);
    match r1 {
        Err(e) => (Err(e), regs1, m1),
        Ok(()) => {
            let (r2, regs2, m2) = spec_push_byte(regs1.ps, m1, regs1);
            match r2 {
                Err(e) => (Err(e), regs2, m2),
                Ok(()) => match m2.read_word(0xfffe) {
                    Ok(target) => done(ExecutionResult::Address(target), m2, regs2),
                    Err(e) => (Err(e), regs2, m2),
                },
            }
        },
    }
}

/// The effect of one instruction on its operands, as the table of the
/// instruction set documents it.
pub open spec fn spec_execution(
    opcode: Opcode,
    data: Option<Data>,
    address: Option<Address>,
    memory: MemView,
    registers: Registers,
) -> Outcome<ExecutionResult> {
    match opcode {
        Opcode::ADC | Opcode::SBC | Opcode::AND | Opcode::ORA | Opcode::EOR | Opcode::ASL
        | Opcode::LSR | Opcode::ROL | Opcode::ROR | Opcode::INC | Opcode::DEC | Opcode::LDA
        | Opcode::LDX | Opcode::LDY => match data {
            Some(d) => {
                let (v, regs) = spec_data_operation(opcode, d, registers);
                done(ExecutionResult::Data(v), memory, regs)
            },
            None => fail(ErrorType::MissingData, memory, registers),
        },
        Opcode::CMP | Opcode::CPX | Opcode::CPY => match data {
            Some(d) => {
                let register = match opcode {
                    Opcode::CMP => registers.a,
                    Opcode::CPX => registers.x,
                    _ => registers.y,
                };
                done(ExecutionResult::NoResult, memory, spec_compare(register, d, registers))
            },
            None => fail(ErrorType::MissingData, memory, registers),
        },
        Opcode::BIT => match data {
            Some(d) => done(
                ExecutionResult::NoResult,
                memory,
                registers.with_flag(StatusBits::Neg, bit7(d)).with_flag(
                    StatusBits::Ovf,
                    d & 0x40 != 0,
                ).with_flag(StatusBits::Zero, registers.a & d == 0),
            ),
            None => fail(ErrorType::MissingData, memory, registers),
        },
        Opcode::BCC => spec_branch(!registers.flag(StatusBits::Carry), address, memory, registers),
        Opcode::BCS => spec_branch(registers.flag(StatusBits::Carry), address, memory, registers),
        Opcode::BEQ => spec_branch(registers.flag(StatusBits::Zero), address, memory, registers),
        Opcode::BNE => spec_branch(!registers.flag(StatusBits::Zero), address, memory, registers),
        Opcode::BMI => spec_branch(registers.flag(StatusBits::Neg), address, memory, registers),
        Opcode::BPL => spec_branch(!registers.flag(StatusBits::Neg), address, memory, registers),
        Opcode::BVS => spec_branch(registers.flag(StatusBits::Ovf), address, memory, registers),
        Opcode::BVC => spec_branch(!registers.flag(StatusBits::Ovf), address, memory, registers),
        Opcode::BRK => spec_brk(memory, registers),
        Opcode::CLC => done(
            ExecutionResult::NoResult,
            memory,
            registers.with_flag(StatusBits::Carry, false),
        ),
        Opcode::CLD => done(
            ExecutionResult::NoResult,
            memory,
            registers.with_flag(StatusBits::Dec, false),
        ),
        Opcode::CLI => done(
            ExecutionResult::NoResult,
            memory,
            registers.with_flag(StatusBits::Int, false),
        ),
        Opcode::CLV => done(
            ExecutionResult::NoResult,
            memory,
            registers.with_flag(StatusBits::Ovf, false),
        ),
        Opcode::SEC => done(
            ExecutionResult::NoResult,
            memory,
            registers.with_flag(StatusBits::Carry, true),
        ),
        Opcode::SED => done(
            ExecutionResult::NoResult,
            memory,
            registers.with_flag(StatusBits::Dec, true),
        ),
        Opcode::SEI => done(
            ExecutionResult::NoResult,
            memory,
            registers.with_flag(StatusBits::Int, true),
        ),
        Opcode::INX | Opcode::INY | Opcode::DEX | Opcode::DEY | Opcode::TAX | Opcode::TAY
        | Opcode::TSX | Opcode::TXA | Opcode::TYA => {
            let v = spec_register_value(opcode, registers);
            done(ExecutionResult::Data(v), memory, with_nz(registers, v))
        },
        Opcode::TXS => done(
            ExecutionResult::NoResult,
            memory,
            Registers { sp: registers.x, ..registers },
        ),
        Opcode::STA => done(ExecutionResult::Data(registers.a), memory, registers),
        Opcode::STX => done(ExecutionResult::Data(registers.x), memory, registers),
        Opcode::STY => done(ExecutionResult::Data(registers.y), memory, registers),
        Opcode::JMP => match address {
            Some(a) => done(ExecutionResult::Address(a), memory, registers),
            None => fail(ErrorType::MissingAddress, memory, registers),
        },
        Opcode::JSR => match address {
            Some(a) => {
                let (r, regs, m) = spec_push_word(add16(registers.pc, 2), memory, registers);
                match r {
                    Ok(()) => done(ExecutionResult::Address(a), m, regs),
                    Err(e) => (Err(e), regs, m),
                }
            },
            None => fail(ErrorType::MissingAddress, memory, registers),
        },
        Opcode::RTS => {
            let (r, regs) = spec_pop_word(memory, registers);
            match r {
                Ok(w) => done(ExecutionResult::Address(add16(w, 1)), memory, regs),
                Err(e) => (Err(e), regs, memory),
            }
        },
        Opcode::RTI => {
            let (p, regs) = spec_pop_byte(memory, registers);
            match p {
                Ok(ps) => {
                    let (r, regs2) = spec_pop_word(memory, Registers { ps, ..regs });
                    match r {
                        Ok(w) => done(ExecutionResult::Address(w), memory, regs2),
                        Err(e) => (Err(e), regs2, memory),
                    }
                },
                Err(e) => (Err(e), regs, memory),
            }
        },
        Opcode::PHA => {
            let (r, regs, m) = spec_push_byte(registers.a, memory, registers);
            match r {
                Ok(()) => done(ExecutionResult::NoResult, m, regs),
                Err(e) => (Err(e), regs, m),
            }
        },
        Opcode::PHP => {
            let (r, regs, m) = spec_push_byte(registers.ps, memory, registers);
            match r {
                Ok(()) => done(ExecutionResult::NoResult, m, regs),
                Err(e) => (Err(e), regs, m),
            }
        },
        Opcode::PLA => {
            let (r, regs) = spec_pop_byte(memory, registers);
            match r {
                Ok(v) => done(ExecutionResult::Data(v), memory, with_nz(regs, v)),
                Err(e) => (Err(e), regs, memory),
            }
        },
        Opcode::PLP => {
            let (r, regs) = spec_pop_byte(memory, registers);
            match r {
                Ok(v) => done(ExecutionResult::Data(v), memory, regs),
                Err(e) => (Err(e), regs, memory),
            }
        },
        Opcode::NOP => done(ExecutionResult::NoResult, memory, registers),
        Opcode::Invalid(b) => fail(ErrorType::InvalidInstruction(b), memory, registers),
    }
}

/// The execution unit of the processor.
pub struct ExecutionUnit<M> {
    phantom: PhantomData<M>,
}

impl<M> ExecutionUnit<M> where M: Memory {
    pub fn new() -> Self {
        ExecutionUnit { phantom: PhantomData }
    }

    pub fn push_byte(&self, value: Byte, memory: &mut M, registers: &mut Registers) -> (r: Result<
        (),
    >)
        requires
            old(memory).inv(),
        ensures
            final(memory).inv(),
            (r, *final(registers), final(memory).model()) == spec_push_byte(
                value,
                old(memory).model(),
                *old(registers),
            ),
    {
        match memory.write_byte(registers.sp as Address + STACK_BASE, value) {
            Ok(()) => {
                registers.sp = registers.sp.wrapping_sub(1);
                Ok(())
            },
            Err(e) => Err(e),
        }
    }

    pub fn push_word(&self, value: Word, memory: &mut M, registers: &mut Registers) -> (r: Result<
        (),
    >)
        requires
            old(memory).inv(),
        ensures
            final(memory).inv(),
            (r, *final(registers), final(memory).model()) == spec_push_word(
                value,
                old(memory).model(),
                *old(registers),
            ),
    {
        match self.push_byte((value / 256) as Byte, memory, registers) {
            Ok(()) => self.push_byte((value % 256) as Byte, memory, registers),
            Err(e) => Err(e),
        }
    }

    pub fn pop_byte(&self, memory: &mut M, registers: &mut Registers) -> (r: Result<Byte>)
        requires
            old(memory).inv(),
        ensures
            *final(memory) == *old(memory),
            (r, *final(registers)) == spec_pop_byte(old(memory).model(), *old(registers)),
    {
        registers.sp = registers.sp.wrapping_add(1);
        memory.read_byte(registers.sp as Address + STACK_BASE)
    }

    pub fn pop_word(&self, memory: &mut M, registers: &mut Registers) -> (r: Result<Word>)
        requires
            old(memory).inv(),
        ensures
            *final(memory) == *old(memory),
            (r, *final(registers)) == spec_pop_word(old(memory).model(), *old(registers)),
    {
        match self.pop_byte(memory, registers) {
            Ok(lsb) => match self.pop_byte(memory, registers) {
                Ok(msb) => Ok(lsb as Word + msb as Word * 256),
                Err(e) => Err(e),
            },
            Err(e) => Err(e),
        }
    }

    fn set_nz(&self, value: u8, registers: &mut Registers)
        ensures
            *final(registers) == with_nz(*old(registers), value),
    {
        registers.write_flag(StatusBits::Neg, value & 0x80 != 0);
        registers.write_flag(StatusBits::Zero, value == 0);
    }

    /// Sets the flags of a comparison of `register` with `data`.
    fn compare(&self, register: Byte, data: Byte, registers: &mut Registers)
        ensures
            *final(registers) == spec_compare(register, data, *old(registers)),
    {
        let diff = register.wrapping_sub(data);
        registers.write_flag(StatusBits::Neg, diff & 0x80 != 0);
        registers.write_flag(StatusBits::Zero, register == data);
        registers.write_flag(StatusBits::Carry, register >= data);
    }

    fn add_with_carry(&self, data: Byte, registers: &mut Registers) -> (r: Byte)
        ensures
            (r, *final(registers)) == spec_adc(*old(registers), data),
    {
        let carry: u16 = if registers.carry() {
            1
        } else {
            0
        };
        let sum: u16 = registers.a as u16 + data as u16 + carry;
        let result = (sum % 256) as u8;
        let sign_a = registers.a & 0x80 != 0;
        let sign_d = data & 0x80 != 0;
        let sign_r = result & 0x80 != 0;
        registers.write_flag(StatusBits::Neg, sign_r);
        registers.write_flag(StatusBits::Zero, result == 0);
        registers.write_flag(StatusBits::Carry, sum > 255);
        registers.write_flag(StatusBits::Ovf, sign_a == sign_d && sign_a != sign_r);
        result
    }

    /// The byte computed from the operand, with its flags.
    fn data_operation(&self, opcode: &Opcode, data: Byte, registers: &mut Registers) -> (r: Byte)
        ensures
            (r, *final(registers)) == spec_data_operation(*opcode, data, *old(registers)),
    {
        let carry = registers.carry();
        let result = match opcode {
            Opcode::ADC => {
                return self.add_with_carry(data, registers);
            },
            Opcode::SBC => {
                return self.add_with_carry(!data, registers);
            },
            Opcode::AND => registers.a & data,
            Opcode::ORA => registers.a | data,
            Opcode::EOR => registers.a ^ data,
            Opcode::ASL => {
                registers.write_flag(StatusBits::Carry, data & 0x80 != 0);
                ((data as u16 * 2) % 256) as u8
            },
            Opcode::LSR => {
                registers.write_flag(StatusBits::Carry, data % 2 == 1);
                data / 2
            },
            Opcode::ROL => {
                registers.write_flag(StatusBits::Carry, data & 0x80 != 0);
                ((data as u16 * 2) % 256 + if carry {
                    1
                } else {
                    0
                }) as u8
            },
            Opcode::ROR => {
                registers.write_flag(StatusBits::Carry, data % 2 == 1);
                (data / 2 + if carry {
                    128
                } else {
                    0
                }) as u8
            },
            Opcode::INC => data.wrapping_add(1),
            Opcode::DEC => data.wrapping_sub(1),
            _ => data,
        };
        self.set_nz(result, registers);
        result
    }

    fn branch(&self, taken: bool, address: Option<Address>, registers: &Registers) -> (r: Result<
        ExecutionResult,
    >)
        ensures
            forall|m: MemView| r == (#[trigger] spec_branch(taken, address, m, *registers)).0,
    {
        if taken {
            match address {
                Some(a) => Ok(ExecutionResult::Address(a)),
                None => Err(Error::with_pc(registers.pc, ErrorType::MissingAddress)),
            }
        } else {
            Ok(ExecutionResult::NoResult)
        }
    }

    fn brk(&self, memory: &mut M, registers: &mut Registers) -> (r: Result<ExecutionResult>)
        requires
            old(memory).inv(),
        ensures
            final(memory).inv(),
            (r, *final(registers), final(memory).model()) == spec_brk(
                old(memory).model(),
                *old(registers),
            ),
    {
        registers.write_flag(StatusBits::Brk, true);
        proof {
            lemma_wrapping_add(registers.pc, 2);
        }
        match self.push_word(registers.pc.wrapping_add(2), memory, registers) {
            Ok(()) => {},
            Err(e) => {
                return Err(e);
            },
        }
        match self.push_byte(registers.ps, memory, registers) {
            Ok(()) => {},
            Err(e) => {
                return Err(e);
            },
        }
        match memory.read_word(0xfffe) {
            Ok(target) => Ok(ExecutionResult::Address(target)),
            Err(e) => Err(e),
        }
    }
}

impl<M> crate::cpu::ExecutionUnit<M> for ExecutionUnit<M> where M: Memory {
    open spec fn spec_execute(
        &self,
        opcode: Opcode,
        data: Option<Data>,
        address: Option<Address>,
        memory: MemView,
        registers: Registers,
    ) -> Outcome<ExecutionResult> {
        spec_execution(opcode, data, address, memory, registers)
    }

    #[verifier::rlimit(40)]
    fn execute(
        &self,
        opcode: &Opcode,
        data: Option<Data>,
        address: Option<Address>,
        memory: &mut M,
        registers: &mut Registers,
    ) -> (r: Result<ExecutionResult>) {
        match opcode {
            Opcode::ADC | Opcode::SBC | Opcode::AND | Opcode::ORA | Opcode::EOR | Opcode::ASL
            | Opcode::LSR | Opcode::ROL | Opcode::ROR | Opcode::INC | Opcode::DEC | Opcode::LDA
            | Opcode::LDX | Opcode::LDY => match data {
                Some(d) => Ok(ExecutionResult::Data(self.data_operation(opcode, d, registers))),
                None => Err(Error::with_pc(registers.pc, ErrorType::MissingData)),
            },
            Opcode::CMP | Opcode::CPX | Opcode::CPY => match data {
                Some(d) => {
                    let register = match opcode {
                        Opcode::CMP => registers.a,
                        Opcode::CPX => registers.x,
                        _ => registers.y,
                    };
                    self.compare(register, d, registers);
                    Ok(ExecutionResult::NoResult)
                },
                None => Err(Error::with_pc(registers.pc, ErrorType::MissingData)),
            },
            Opcode::BIT => match data {
                Some(d) => {
                    let result = registers.a & d;
                    registers.write_flag(StatusBits::Neg, d & 0x80 != 0);
                    registers.write_flag(StatusBits::Ovf, d & 0x40 != 0);
                    registers.write_flag(StatusBits::Zero, result == 0);
                    Ok(ExecutionResult::NoResult)
                },
                None => Err(Error::with_pc(registers.pc, ErrorType::MissingData)),
            },
            Opcode::BCC => self.branch(!registers.carry(), address, registers),
            Opcode::BCS => self.branch(registers.carry(), address, registers),
            Opcode::BEQ => self.branch(registers.zero(), address, registers),
            Opcode::BNE => self.branch(!registers.zero(), address, registers),
            Opcode::BMI => self.branch(registers.negative(), address, registers),
            Opcode::BPL => self.branch(!registers.negative(), address, registers),
            Opcode::BVS => self.branch(registers.overflow(), address, registers),
            Opcode::BVC => self.branch(!registers.overflow(), address, registers),
            Opcode::BRK => self.brk(memory, registers),
            Opcode::CLC => {
                registers.clear_flag(StatusBits::Carry);
                Ok(ExecutionResult::NoResult)
            },
            Opcode::CLD => {
                registers.clear_flag(StatusBits::Dec);
                Ok(ExecutionResult::NoResult)
            },
            Opcode::CLI => {
                registers.clear_flag(StatusBits::Int);
                Ok(ExecutionResult::NoResult)
            },
            Opcode::CLV => {
                registers.clear_flag(StatusBits::Ovf);
                Ok(ExecutionResult::NoResult)
            },
            Opcode::SEC => {
                registers.set_flag(StatusBits::Carry);
                Ok(ExecutionResult::NoResult)
            },
            Opcode::SED => {
                registers.set_flag(StatusBits::Dec);
                Ok(ExecutionResult::NoResult)
            },
            Opcode::SEI => {
                registers.set_flag(StatusBits::Int);
                Ok(ExecutionResult::NoResult)
            },
            Opcode::INX | Opcode::INY | Opcode::DEX | Opcode::DEY | Opcode::TAX | Opcode::TAY
            | Opcode::TSX | Opcode::TXA | Opcode::TYA => {
                let value = match opcode {
                    Opcode::INX => registers.x.wrapping_add(1),
                    Opcode::INY => registers.y.wrapping_add(1),
                    Opcode::DEX => registers.x.wrapping_sub(1),
                    Opcode::DEY => registers.y.wrapping_sub(1),
                    Opcode::TAX => registers.a,
                    Opcode::TAY => registers.a,
                    Opcode::TSX => registers.sp,
                    Opcode::TXA => registers.x,
                    _ => registers.y,
                };
                self.set_nz(value, registers);
                Ok(ExecutionResult::Data(value))
            },
            Opcode::TXS => {
                registers.sp = registers.x;
                Ok(ExecutionResult::NoResult)
            },
            Opcode::STA => Ok(ExecutionResult::Data(registers.a)),
            Opcode::STX => Ok(ExecutionResult::Data(registers.x)),
            Opcode::STY => Ok(ExecutionResult::Data(registers.y)),
            Opcode::JMP => match address {
                Some(a) => Ok(ExecutionResult::Address(a)),
                None => Err(Error::with_pc(registers.pc, ErrorType::MissingAddress)),
            },
            Opcode::JSR => match address {
                Some(a) => {
                    proof {
                        lemma_wrapping_add(registers.pc, 2);
                    }
                    match self.push_word(registers.pc.wrapping_add(2), memory, registers) {
                        Ok(()) => Ok(ExecutionResult::Address(a)),
                        Err(e) => Err(e),
                    }
                },
                None => Err(Error::with_pc(registers.pc, ErrorType::MissingAddress)),
            },
            Opcode::RTS => match self.pop_word(memory, registers) {
                Ok(w) => {
                    proof {
                        lemma_wrapping_add(w, 1);
                    }
                    Ok(ExecutionResult::Address(w.wrapping_add(1)))
                },
                Err(e) => Err(e),
            },
            Opcode::RTI => match self.pop_byte(memory, registers) {
                Ok(ps) => {
                    registers.ps = ps;
                    match self.pop_word(memory, registers) {
                        Ok(w) => Ok(ExecutionResult::Address(w)),
                        Err(e) => Err(e),
                    }
                },
                Err(e) => Err(e),
            },
            Opcode::PHA => match self.push_byte(registers.a, memory, registers) {
                Ok(()) => Ok(ExecutionResult::NoResult),
                Err(e) => Err(e),
            },
            Opcode::PHP => match self.push_byte(registers.ps, memory, registers) {
                Ok(()) => Ok(ExecutionResult::NoResult),
                Err(e) => Err(e),
            },
            Opcode::PLA => match self.pop_byte(memory, registers) {
                Ok(v) => {
                    self.set_nz(v, registers);
                    Ok(ExecutionResult::Data(v))
                },
                Err(e) => Err(e),
            },
            Opcode::PLP => match self.pop_byte(memory, registers) {
                Ok(v) => Ok(ExecutionResult::Data(v)),
                Err(e) => Err(e),
            },
            Opcode::NOP => Ok(ExecutionResult::NoResult),
            Opcode::Invalid(b) => Err(
                Error::with_pc(registers.pc, ErrorType::InvalidInstruction(*b)),
            ),
        }
    }
}

/// The stack slot that `sp` points at lies in page 1 whatever `sp` is, and a
/// push changes no byte outside page 1.
pub proof fn stack_stays_in_page_one(value: Byte, memory: MemView, registers: Registers)
    ensures
        0x0100 <= stack_address(registers.sp) <= 0x01ff,
        0x0100 <= stack_address(spec_pop_byte(memory, registers).1.sp) <= 0x01ff,
        forall|a: Address|
            !(0x0100 <= a <= 0x01ff) ==> #[trigger] spec_push_byte(
                value,
                memory,
                registers,
            ).2.read_byte(a) == memory.read_byte(a),
{
}

/// The execution unit writes memory only through the stack: whatever the
/// instruction and its operands, every byte outside page 1 reads as before.
pub proof fn execution_writes_only_the_stack(
    opcode: Opcode,
    data: Option<Data>,
    address: Option<Address>,
    memory: MemView,
    registers: Registers,
)
    ensures
        forall|a: Address|
            !(0x0100 <= a <= 0x01ff) ==> #[trigger] spec_execution(
                opcode,
                data,
                address,
                memory,
                registers,
            ).2.read_byte(a) == memory.read_byte(a),
{
    assert forall|v: Byte, m: MemView, r: Registers, a: Address|
        !(0x0100 <= a <= 0x01ff) implies #[trigger] spec_push_byte(v, m, r).2.read_byte(a)
        == m.read_byte(a) by {
        stack_stays_in_page_one(v, m, r);
    }
}

/// A byte pushed and then popped comes back, and the registers, the stack
/// pointer among them, are as before; this holds wherever the stack pointer
/// is, as long as the slot it points at is RAM.
pub proof fn push_then_pop_byte(value: Byte, memory: MemView, registers: Registers)
    requires
        memory.holds(stack_address(registers.sp)),
        memory.cells[stack_address(registers.sp) as int] is Ram,
    ensures
        spec_push_byte(value, memory, registers).0 is Ok,
        spec_pop_byte(
            spec_push_byte(value, memory, registers).2,
            spec_push_byte(value, memory, registers).1,
        ) == (Ok::<Byte, Error>(value), registers),
{
}

/// A word pushed and then popped comes back, and the registers are as before;
/// this holds across the wrap of the stack pointer from 0x00 to 0xFF, as long
/// as the two slots the word takes are RAM.
pub proof fn push_then_pop_word(value: Word, memory: MemView, registers: Registers)
    requires
        memory.holds(stack_address(registers.sp)),
        memory.cells[stack_address(registers.sp) as int] is Ram,
        memory.holds(stack_address(dec8(registers.sp))),
        memory.cells[stack_address(dec8(registers.sp)) as int] is Ram,
    ensures
        spec_push_word(value, memory, registers).0 is Ok,
        spec_pop_word(
            spec_push_word(value, memory, registers).2,
            spec_push_word(value, memory, registers).1,
        ) == (Ok::<Word, Error>(value), registers),
{
    let hi_slot = stack_address(registers.sp);
    let lo_slot = stack_address(dec8(registers.sp));
    assert(hi_slot != lo_slot);
    let pushed = memory.store(hi_slot, high_byte(value)).store(lo_slot, low_byte(value));
    assert(pushed.cells[hi_slot as int] == crate::cpu::model::Cell::Ram(high_byte(value)));
    assert(pushed.cells[lo_slot as int] == crate::cpu::model::Cell::Ram(low_byte(value)));
    assert(word_of(low_byte(value), high_byte(value)) == value);
}

/// Whether an instruction documents that it may change `bit`.
pub open spec fn documented_flag(opcode: Opcode, bit: StatusBits) -> bool {
    let nz = bit == StatusBits::Neg || bit == StatusBits::Zero;
    match opcode {
        Opcode::ADC | Opcode::SBC => nz || bit == StatusBits::Carry || bit == StatusBits::Ovf,
        Opcode::ASL | Opcode::LSR | Opcode::ROL | Opcode::ROR | Opcode::CMP | Opcode::CPX
        | Opcode::CPY => nz || bit == StatusBits::Carry,
        Opcode::AND | Opcode::ORA | Opcode::EOR | Opcode::INC | Opcode::DEC | Opcode::INX
        | Opcode::INY | Opcode::DEX | Opcode::DEY | Opcode::LDA | Opcode::LDX | Opcode::LDY
        | Opcode::TAX | Opcode::TAY | Opcode::TSX | Opcode::TXA | Opcode::TYA | Opcode::PLA => nz,
        Opcode::BIT => nz || bit == StatusBits::Ovf,
        Opcode::BRK => bit == StatusBits::Brk,
        Opcode::CLC | Opcode::SEC => bit == StatusBits::Carry,
        Opcode::CLI | Opcode::SEI => bit == StatusBits::Int,
        Opcode::CLD | Opcode::SED => bit == StatusBits::Dec,
        Opcode::CLV => bit == StatusBits::Ovf,
        Opcode::PLP | Opcode::RTI => true,
        _ => false,
    }
}

/// Every instruction but PLP and RTI, which load the whole status byte,
/// changes only the flags it documents, and never bit 7, whether it succeeds
/// or fails.
pub proof fn only_documented_flags_change(
    opcode: Opcode,
    data: Option<Data>,
    address: Option<Address>,
    memory: MemView,
    registers: Registers,
)
    requires
        opcode != Opcode::PLP,
        opcode != Opcode::RTI,
    ensures
        forall|bit: StatusBits|
            !documented_flag(opcode, bit) ==> #[trigger] spec_execution(
                opcode,
                data,
                address,
                memory,
                registers,
            ).1.flag(bit) == registers.flag(bit),
        spec_execution(opcode, data, address, memory, registers).1.ps & 0x80 == registers.ps
            & 0x80,
{
    lemma_flag_writes_are_independent();
}

} // verus!

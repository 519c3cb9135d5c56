use core::marker::PhantomData;

use vstd::prelude::*;

use crate::cpu::model::MemView;
use crate::cpu::registers::Registers;
use crate::cpu::{Address, Error, ErrorType, ExecutionResult, Memory, Outcome, Result, Writeback};

verus! {

/// How a result is committed to its target. Accumulator, X, Y, PS and Memory
/// take a byte, PC takes an address; SP and NoWriteback change nothing.
pub open spec fn spec_commit(
    target: Writeback,
    result: ExecutionResult,
    address: Option<Address>,
    memory: MemView,
    registers: Registers,
) -> Outcome<()> {
    let missing_data = (
        Err(Error::spec_with_pc(registers.pc, ErrorType::MissingData)),
        registers,
        memory,
    );
    match target {
        Writeback::Accumulator => match result {
            ExecutionResult::Data(b) => (Ok(()), Registers { a: b, ..registers }, memory),
            _ => missing_data,
        },
        Writeback::X => match result {
            ExecutionResult::Data(b) => (Ok(()), Registers { x: b, ..registers }, memory),
            _ => missing_data,
        },
        Writeback::Y => match result {
            ExecutionResult::Data(b) => (Ok(()), Registers { y: b, ..registers }, memory),
            _ => missing_data,
        },
        Writeback::PS => match result {
            ExecutionResult::Data(b) => (Ok(()), Registers { ps: b, ..registers }, memory),
            _ => missing_data,
        },
        Writeback::Memory => match result {
            ExecutionResult::Data(b) => match address {
                Some(a) => {
                    let (after, r) = memory.write_byte(a, b);
                    (r, registers, after)
                },
                None => (
                    Err(Error::spec_with_pc(registers.pc, ErrorType::MissingAddress)),
                    registers,
                    memory,
                ),
            },
            _ => missing_data,
        },
        Writeback::PC => match result {
            ExecutionResult::Address(a) => (Ok(()), Registers { pc_next: a, ..registers }, memory),
            _ => (
                Err(Error::spec_with_pc(registers.pc, ErrorType::MissingAddress)),
                registers,
                memory,
            ),
        },
        Writeback::SP => (Ok(()), registers, memory),
        Writeback::NoWriteback => (Ok(()), registers, memory),
    }
}

/// The writeback unit of the processor.
pub struct WritebackUnit<M> {
    phantom: PhantomData<M>,
}

impl<M> WritebackUnit<M> where M: Memory {
    pub fn new() -> Self {
        WritebackUnit { phantom: PhantomData }
    }
}

impl<M> crate::cpu::WritebackUnit<M> for WritebackUnit<M> where M: Memory {
    open spec fn spec_writeback(
        &self,
        target: Writeback,
        result: ExecutionResult,
        address: Option<Address>,
        memory: MemView,
        registers: Registers,
    ) -> Outcome<()> {
        spec_commit(target, result, address, memory, registers)
    }

    fn writeback(
        &self,
        target: &Writeback,
        result: ExecutionResult,
        address: Option<Address>,
        memory: &mut M,
        registers: &mut Registers,
    ) -> (r: Result<()>) {
        match (target, result) {
            (Writeback::Accumulator, ExecutionResult::Data(b)) => {
                registers.a = b;
                Ok(())
            },
            (Writeback::X, ExecutionResult::Data(b)) => {
                registers.x = b;
                Ok(())
            },
            (Writeback::Y, ExecutionResult::Data(b)) => {
                registers.y = b;
                Ok(())
            },
            (Writeback::PS, ExecutionResult::Data(b)) => {
                registers.ps = b;
                Ok(())
            },
            (Writeback::Memory, ExecutionResult::Data(b)) => match address {
                Some(a) => memory.write_byte(a, b),
                None => Err(Error::with_pc(registers.pc, ErrorType::MissingAddress)),
            },
            (Writeback::PC, ExecutionResult::Address(a)) => {
                registers.pc_next = a;
                Ok(())
            },
            (Writeback::PC, _) => Err(Error::with_pc(registers.pc, ErrorType::MissingAddress)),
            (Writeback::SP, _) => Ok(()),
            (Writeback::NoWriteback, _) => Ok(()),
            (_, _) => Err(Error::with_pc(registers.pc, ErrorType::MissingData)),
        }
    }
}

} // verus!

use vstd::prelude::*;

use crate::cpu::address::{add16, lemma_wrapping_add};
use crate::cpu::address::AddressAndDataDispatch;
use crate::cpu::execution::execution_writes_only_the_stack;
use crate::cpu::model::MemView;
use crate::cpu::registers::Registers;
use crate::cpu::{
    execution, instruction_decode, writeback, Address, AddressDataDispatcher, Data,
    ExecutionResult, ExecutionUnit, InstructionDecoder, Memory, Opcode, Outcome, Result, Writeback,
    WritebackUnit,
};

verus! {

/// Sequences one instruction through the decoder, the resolver, the execution
/// unit and the writeback unit, then moves the program counter on.
pub struct Dispatcher<I, A, M, E, W> where
    I: InstructionDecoder,
    M: Memory,
    A: AddressDataDispatcher<M>,
    E: ExecutionUnit<M>,
    W: WritebackUnit<M>,
 {
    pub instruction_decoder: I,
    pub address_dispatcher: A,
    pub memory: M,
    pub registers: Registers,
    pub execution_unit: E,
    pub writeback_unit: W,
}

impl<I, A, M, E, W> Dispatcher<I, A, M, E, W> where
    I: InstructionDecoder,
    M: Memory,
    A: AddressDataDispatcher<M>,
    E: ExecutionUnit<M>,
    W: WritebackUnit<M>,
 {
    pub open spec fn inv(&self) -> bool {
        self.instruction_decoder.inv() && self.memory.inv()
    }

    /// One step from the current registers and memory: fetch the opcode at
    /// `pc`, decode it, set `pc_next` past it, resolve its operands, execute
    /// it, commit a result if there is one, and move `pc` to `pc_next`. An
    /// unassigned opcode is handed to the execution unit with no operands and
    /// `pc_next = pc + 1`, and `pc` moves on whatever it returns. Any other
    /// failure stops the step where it happens.
    pub open spec fn spec_step(&self) -> Outcome<()> {
        let regs = self.registers;
        let mem = self.memory.model();
        match mem.read_byte(regs.pc) {
            Err(e) => (Err(e), regs, mem),
            Ok(opcode) => {
                let instr = self.instruction_decoder.decoded(opcode);
                if instr.opcode is Invalid {
                    let regs1 = Registers { pc_next: add16(regs.pc, 1), ..regs };
                    let (r, regs2, m2) = self.execution_unit.spec_execute(
                        instr.opcode,
                        None,
                        None,
                        mem,
                        regs1,
                    );
                    let moved = Registers { pc: regs2.pc_next, ..regs2 };
                    match r {
                        Ok(_) => (Ok(()), moved, m2),
                        Err(e) => (Err(e), moved, m2),
                    }
                } else {
                    let regs1 = Registers {
                        pc_next: add16(regs.pc, (instr.byte_length as u16) as int),
                        ..regs
                    };
                    let mode = instr.addressing_mode;
                    match self.address_dispatcher.spec_address(mode, mem, regs1) {
                        Err(e) => (Err(e), regs1, mem),
                        Ok(address) => match self.address_dispatcher.spec_data(mode, mem, regs1) {
                            Err(e) => (Err(e), regs1, mem),
                            Ok(data) => {
                                let (r, regs2, m2) = self.execution_unit.spec_execute(
                                    instr.opcode,
                                    data,
                                    address,
                                    mem,
                                    regs1,
                                );
                                match r {
                                    Err(e) => (Err(e), regs2, m2),
                                    Ok(result) => if result == ExecutionResult::NoResult {
                                        (Ok(()), Registers { pc: regs2.pc_next, ..regs2 }, m2)
                                    } else {
                                        let (w, regs3, m3) = self.writeback_unit.spec_writeback(
                                            instr.writeback,
                                            result,
                                            address,
                                            m2,
                                            regs2,
                                        );
                                        match w {
                                            Err(e) => (Err(e), regs3, m3),
                                            Ok(()) => (
                                                Ok(()),
                                                Registers { pc: regs3.pc_next, ..regs3 },
                                                m3,
                                            ),
                                        }
                                    },
                                }
                            },
                        },
                    }
                }
            },
        }
    }

    /// The address that the current instruction commits a byte to, if its
    /// writeback target is memory and its effective address resolves.
    pub open spec fn store_target(&self) -> Option<Address> {
        let regs = self.registers;
        let mem = self.memory.model();
        match mem.read_byte(regs.pc) {
            Ok(opcode) => {
                let instr = self.instruction_decoder.decoded(opcode);
                let regs1 = Registers {
                    pc_next: add16(regs.pc, (instr.byte_length as u16) as int),
                    ..regs
                };
                if instr.writeback == Writeback::Memory {
                    match self.address_dispatcher.spec_address(instr.addressing_mode, mem, regs1) {
                        Ok(Some(a)) => Some(a),
                        _ => None,
                    }
                } else {
                    None
                }
            },
            Err(_) => None,
        }
    }

    pub fn new(
        registers: Registers,
        memory: M,
        instruction_decoder: I,
        address_dispatcher: A,
        execution_unit: E,
        writeback_unit: W,
    ) -> (r: Self)
        ensures
            r == (Dispatcher {
                instruction_decoder,
                address_dispatcher,
                memory,
                registers,
                execution_unit,
                writeback_unit,
            }),
    {
        Dispatcher {
            instruction_decoder,
            address_dispatcher,
            memory,
            registers,
            execution_unit,
            writeback_unit,
        }
    }

    /// Runs one instruction.
    pub fn dispatch(&mut self) -> (r: Result<()>)
        requires
            old(self).inv(),
        ensures
            final(self).inv(),
            final(self).instruction_decoder == old(self).instruction_decoder,
            final(self).address_dispatcher == old(self).address_dispatcher,
            final(self).execution_unit == old(self).execution_unit,
            final(self).writeback_unit == old(self).writeback_unit,
            (r, final(self).registers, final(self).memory.model()) == old(self).spec_step(),
    {
        let opcode = match self.memory.read_byte(self.registers.pc) {
            Ok(b) => b,
            Err(e) => {
                return Err(e);
            },
        };
        let instruction = match self.instruction_decoder.decode(opcode) {
            Ok(i) => *i,
            Err(e) => {
                return Err(e);
            },
        };
        match instruction.opcode {
            Opcode::Invalid(_) => {
                proof {
                    lemma_wrapping_add(self.registers.pc, 1);
                }
                self.registers.pc_next = self.registers.pc.wrapping_add(1);
                let result = self.execution_unit.execute(
                    &instruction.opcode,
                    None,
                    None,
                    &mut self.memory,
                    &mut self.registers,
                );
                self.registers.pc = self.registers.pc_next;
                match result {
                    Ok(_) => Ok(()),
                    Err(e) => Err(e),
                }
            },
            _ => {
                proof {
                    lemma_wrapping_add(self.registers.pc, instruction.byte_length as u16);
                }
                self.registers.pc_next = self.registers.pc.wrapping_add(
                    instruction.byte_length as u16,
                );
                let address = match self.address_dispatcher.get_address(
                    &instruction.addressing_mode,
                    &self.memory,
                    &self.registers,
                ) {
                    Ok(a) => a,
                    Err(e) => {
                        return Err(e);
                    },
                };
                let data = match self.address_dispatcher.get_data(
                    &instruction.addressing_mode,
                    &self.memory,
                    &self.registers,
                ) {
                    Ok(d) => d,
                    Err(e) => {
                        return Err(e);
                    },
                };
                let result = match self.execution_unit.execute(
                    &instruction.opcode,
                    data,
                    address,
                    &mut self.memory,
                    &mut self.registers,
                ) {
                    Ok(r) => r,
                    Err(e) => {
                        return Err(e);
                    },
                };
                if result != ExecutionResult::NoResult {
                    match self.writeback_unit.writeback(
                        &instruction.writeback,
                        result,
                        address,
                        &mut self.memory,
                        &mut self.registers,
                    ) {
                        Ok(()) => {},
                        Err(e) => {
                            return Err(e);
                        },
                    }
                }
                self.registers.pc = self.registers.pc_next;
                Ok(())
            },
        }
    }
}

/// With the processor's own units, a step changes no byte outside the stack
/// page but the one that the instruction stores to: whatever the memory and
/// the registers, and whether the step succeeds or fails.
pub proof fn step_writes_only_stack_or_store_target<M: Memory>(
    cpu: Dispatcher<
        instruction_decode::InstructionDecoder,
        AddressAndDataDispatch<M>,
        M,
        execution::ExecutionUnit<M>,
        writeback::WritebackUnit<M>,
    >,
)
    ensures
        forall|a: Address|
            !(0x0100 <= a <= 0x01ff) && cpu.store_target() != Some(a) ==> #[trigger] cpu.spec_step().2.read_byte(a)
                == cpu.memory.model().read_byte(a),
{
    assert forall|
        op: Opcode,
        d: Option<Data>,
        ad: Option<Address>,
        m: MemView,
        r: Registers,
        a: Address,
    | !(0x0100 <= a <= 0x01ff) implies #[trigger] execution::spec_execution(
        op,
        d,
        ad,
        m,
        r,
    ).2.read_byte(a) == m.read_byte(a) by {
        execution_writes_only_the_stack(op, d, ad, m, r);
    }
}

} // verus!

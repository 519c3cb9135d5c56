use core::marker::PhantomData;

use vstd::prelude::*;
use vstd::string::StringExecFns;

use crate::cpu::model::MemView;
use crate::cpu::registers::Registers;
use crate::cpu::{Address, Data, ExecutionResult, Memory, Opcode, Outcome, Result};
use crate::text::{hex_min, hex_min_string, hex_padded, hex_padded_string};

verus! {

/// The line that traces one instruction: `pc : mnemonic &address #data`, in
/// hex, the address and data parts only where the instruction has them; an
/// unassigned opcode shows as its byte in parentheses.
pub open spec fn spec_trace_line(
    pc: Address,
    opcode: Opcode,
    address: Option<Address>,
    data: Option<Data>,
) -> Seq<char> {
    let head = match opcode {
        Opcode::Invalid(o) => hex_padded(pc as nat, 4) + " : "@ + "("@ + hex_padded(o as nat, 2)
            + ")"@,
        _ => hex_padded(pc as nat, 4) + " : "@ + opcode.spec_mnemonic(),
    };
    let with_address = match address {
        Some(a) => head + " &"@ + hex_min(a as nat),
        None => head,
    };
    match data {
        Some(d) => with_address + " #"@ + hex_min(d as nat),
        None => with_address,
    }
}

pub fn trace_line(pc: Address, opcode: &Opcode, address: Option<Address>, data: Option<Data>) -> (r:
    String)
    ensures
        r@ == spec_trace_line(pc, *opcode, address, data),
{
    let mut s = hex_padded_string(pc, 4);
    s.append(" : ");
    match opcode {
        Opcode::Invalid(o) => {
            s.append("(");
            s.append(hex_padded_string(*o as u16, 2).as_str());
            s.append(")");
        },
        _ => {
            s.append(opcode.mnemonic());
        },
    }
    if let Some(a) = address {
        s.append(" &");
        s.append(hex_min_string(a).as_str());
    }
    if let Some(d) = data {
        s.append(" #");
        s.append(hex_min_string(d as u16).as_str());
    }
    s
}

/// An execution unit that runs nothing: every instruction, assigned or not,
/// succeeds with no result and leaves registers and memory alone, so that a
/// dispatcher driven by it walks through a program one instruction at a time.
/// What it would show of each step is `trace_line`.
pub struct ExecutionUnit<M> {
    phantom: PhantomData<M>,
}

impl<M> ExecutionUnit<M> where M: Memory {
    pub fn new() -> Self {
        ExecutionUnit { phantom: PhantomData }
    }
}

impl<M> crate::cpu::ExecutionUnit<M> for ExecutionUnit<M> where M: Memory {
    open spec fn spec_execute(
        &self,
        opcode: Opcode,
        data: Option<Data>,
        address: Option<Address>,
        memory: MemView,
        registers: Registers,
    ) -> Outcome<ExecutionResult> {
        (Ok(ExecutionResult::NoResult), registers, memory)
    }

    fn execute(
        &self,
        _opcode: &Opcode,
        _data: Option<Data>,
        _address: Option<Address>,
        _memory: &mut M,
        _registers: &mut Registers,
    ) -> (r: Result<ExecutionResult>) {
        Ok(ExecutionResult::NoResult)
    }
}

} // verus!

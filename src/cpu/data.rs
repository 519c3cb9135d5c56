use core::marker::PhantomData;

use vstd::prelude::*;

use crate::cpu::address::{operand_data, AddressAndDataDispatch};
use crate::cpu::registers::Registers;
use crate::cpu::{AddressDataDispatcher, AddressingMode, Data, Memory, Result};

verus! {

/// Fetches only the operand byte of an addressing mode.
pub struct DataDispatcher<M> {
    phantom: PhantomData<M>,
}

impl<M> DataDispatcher<M> where M: Memory {
    pub fn new() -> Self {
        DataDispatcher { phantom: PhantomData }
    }

    pub fn dispatch(&self, mode: &AddressingMode, memory: &M, registers: &Registers) -> (r: Result<
        Option<Data>,
    >)
        requires
            memory.inv(),
        ensures
            r == operand_data(*mode, memory.model(), *registers),
    {
        let resolver: AddressAndDataDispatch<M> = AddressAndDataDispatch::new();
        resolver.get_data(mode, memory, registers)
    }
}

} // verus!

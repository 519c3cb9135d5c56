use core::marker::PhantomData;

use vstd::prelude::*;

use crate::cpu::model::MemView;
use crate::cpu::registers::Registers;
use crate::cpu::{Address, AddressingMode, Data, Error, ErrorType, Memory, Result};

verus! {

/// `a + b` in wrapping 16-bit arithmetic.
pub open spec fn add16(a: u16, b: int) -> u16 {
    ((a + b) % 0x10000) as u16
}

/// The signed value of an 8-bit branch offset.
pub open spec fn sign_extend(b: u8) -> int {
    if b < 128 {
        b as int
    } else {
        b - 256
    }
}

/// The effective address of an addressing mode; the operand bytes follow the
/// opcode at `pc + 1` (and `pc + 2`).
pub open spec fn effective_address(
    mode: AddressingMode,
    memory: MemView,
    registers: Registers,
) -> Result<Option<Address>> {
    let operand = add16(registers.pc, 1);
    match mode {
        AddressingMode::Implicit => Ok(None),
        AddressingMode::Accumulator => Ok(None),
        AddressingMode::Immediate => Ok(Some(operand)),
        AddressingMode::ZeroPage => match memory.read_byte(operand) {
            Ok(b) => Ok(Some(b as u16)),
            Err(e) => Err(e),
        },
        AddressingMode::ZeroPageX => match memory.read_byte(operand) {
            Ok(b) => Ok(Some(((b + registers.x) as u16) & 0xff)),
            Err(e) => Err(e),
        },
        AddressingMode::ZeroPageY => match memory.read_byte(operand) {
            Ok(b) => Ok(Some(((b + registers.y) as u16) & 0xff)),
            Err(e) => Err(e),
        },
        AddressingMode::Relative => match memory.read_byte(operand) {
            Ok(b) => Ok(Some(add16(registers.pc_next, sign_extend(b)))),
            Err(e) => Err(e),
        },
        AddressingMode::Absolute => match memory.read_word(operand) {
            Ok(w) => Ok(Some(w)),
            Err(e) => Err(e),
        },
        AddressingMode::AbsoluteX => match memory.read_word(operand) {
            Ok(w) => Ok(Some(add16(w, registers.x as int))),
            Err(e) => Err(e),
        },
        AddressingMode::AbsoluteY => match memory.read_word(operand) {
            Ok(w) => Ok(Some(add16(w, registers.y as int))),
            Err(e) => Err(e),
        },
        AddressingMode::Indirect => match memory.read_word(operand) {
            Ok(w) => match memory.read_word(w) {
                Ok(target) => Ok(Some(target)),
                Err(e) => Err(e),
            },
            Err(e) => Err(e),
        },
        AddressingMode::IndirectX => match memory.read_word(operand) {
            Ok(w) => match memory.read_word(add16(w, registers.x as int) & 0xff) {
                Ok(target) => Ok(Some(target)),
                Err(e) => Err(e),
            },
            Err(e) => Err(e),
        },
        AddressingMode::IndirectY => match memory.read_word(operand) {
            Ok(w) => match memory.read_word(w) {
                Ok(target) => Ok(Some(add16(target, registers.y as int))),
                Err(e) => Err(e),
            },
            Err(e) => Err(e),
        },
        AddressingMode::NoMode => Err(
            Error::spec_with_pc(registers.pc, ErrorType::InvalidAddressingMode),
        ),
    }
}

/// The operand byte of an addressing mode: none for implicit operands, the
/// accumulator for accumulator mode, otherwise the byte at the effective
/// address.
pub open spec fn operand_data(
    mode: AddressingMode,
    memory: MemView,
    registers: Registers,
) -> Result<Option<Data>> {
    match mode {
        AddressingMode::Implicit => Ok(None),
        AddressingMode::Accumulator => Ok(Some(registers.a)),
        _ => match effective_address(mode, memory, registers) {
            Ok(Some(a)) => match memory.read_byte(a) {
                Ok(b) => Ok(Some(b)),
                Err(e) => Err(e),
            },
            Ok(None) => Ok(None),
            Err(e) => Err(e),
        },
    }
}

pub proof fn lemma_wrapping_add(a: u16, b: u16)
    ensures
        vstd::wrapping::u16_specs::wrapping_add(a, b) == add16(a, b as int),
{
}

/// The resolver of the standard addressing modes.
pub struct AddressAndDataDispatch<M> {
    phantom: PhantomData<M>,
}

impl<M> AddressAndDataDispatch<M> where M: Memory {
    pub fn new() -> Self {
        AddressAndDataDispatch { phantom: PhantomData }
    }

    fn operand(registers: &Registers) -> (r: Address)
        ensures
            r == add16(registers.pc, 1),
    {
        proof {
            lemma_wrapping_add(registers.pc, 1);
        }
        registers.pc.wrapping_add(1)
    }

    fn implicit(&self, _memory: &M, _registers: &Registers) -> (r: Result<Option<Address>>)
        ensures
            r == Ok::<Option<Address>, Error>(None),
    {
        Ok(None)
    }

    fn accumulator(&self, _memory: &M, _registers: &Registers) -> (r: Result<Option<Address>>)
        ensures
            r == Ok::<Option<Address>, Error>(None),
    {
        Ok(None)
    }

    fn immediate(&self, memory: &M, registers: &Registers) -> (r: Result<Option<Address>>)
        requires
            memory.inv(),
        ensures
            r == effective_address(AddressingMode::Immediate, memory.model(), *registers),
    {
        Ok(Some(Self::operand(registers)))
    }

    fn zero_page(&self, memory: &M, registers: &Registers) -> (r: Result<Option<Address>>)
        requires
            memory.inv(),
        ensures
            r == effective_address(AddressingMode::ZeroPage, memory.model(), *registers),
    {
        match memory.read_byte(Self::operand(registers)) {
            Ok(zero_page) => Ok(Some(zero_page as u16)),
            Err(e) => Err(e),
        }
    }

    fn zero_page_x(&self, memory: &M, registers: &Registers) -> (r: Result<Option<Address>>)
        requires
            memory.inv(),
        ensures
            r == effective_address(AddressingMode::ZeroPageX, memory.model(), *registers),
    {
        match memory.read_byte(Self::operand(registers)) {
            Ok(zero_page) => Ok(Some((zero_page as u16 + registers.x as u16) & 0x00ff)),
            Err(e) => Err(e),
        }
    }

    fn zero_page_y(&self, memory: &M, registers: &Registers) -> (r: Result<Option<Address>>)
        requires
            memory.inv(),
        ensures
            r == effective_address(AddressingMode::ZeroPageY, memory.model(), *registers),
    {
        match memory.read_byte(Self::operand(registers)) {
            Ok(zero_page) => Ok(Some((zero_page as u16 + registers.y as u16) & 0x00ff)),
            Err(e) => Err(e),
        }
    }

    fn relative(&self, memory: &M, registers: &Registers) -> (r: Result<Option<Address>>)
        requires
            memory.inv(),
        ensures
            r == effective_address(AddressingMode::Relative, memory.model(), *registers),
    {
        match memory.read_byte(Self::operand(registers)) {
            Ok(offset) => {
                if offset < 128 {
                    Ok(Some(registers.pc_next.wrapping_add(offset as u16)))
                } else {
                    Ok(Some(registers.pc_next.wrapping_sub(256 - offset as u16)))
                }
            },
            Err(e) => Err(e),
        }
    }

    fn absolute(&self, memory: &M, registers: &Registers) -> (r: Result<Option<Address>>)
        requires
            memory.inv(),
        ensures
            r == effective_address(AddressingMode::Absolute, memory.model(), *registers),
    {
        match memory.read_word(Self::operand(registers)) {
            Ok(address) => Ok(Some(address)),
            Err(e) => Err(e),
        }
    }

    fn absolute_x(&self, memory: &M, registers: &Registers) -> (r: Result<Option<Address>>)
        requires
            memory.inv(),
        ensures
            r == effective_address(AddressingMode::AbsoluteX, memory.model(), *registers),
    {
        match memory.read_word(Self::operand(registers)) {
            Ok(address) => {
                proof {
                    lemma_wrapping_add(address, registers.x as u16);
                }
                Ok(Some(address.wrapping_add(registers.x as u16)))
            },
            Err(e) => Err(e),
        }
    }

    fn absolute_y(&self, memory: &M, registers: &Registers) -> (r: Result<Option<Address>>)
        requires
            memory.inv(),
        ensures
            r == effective_address(AddressingMode::AbsoluteY, memory.model(), *registers),
    {
        match memory.read_word(Self::operand(registers)) {
            Ok(address) => {
                proof {
                    lemma_wrapping_add(address, registers.y as u16);
                }
                Ok(Some(address.wrapping_add(registers.y as u16)))
            },
            Err(e) => Err(e),
        }
    }

    fn indirect(&self, memory: &M, registers: &Registers) -> (r: Result<Option<Address>>)
        requires
            memory.inv(),
        ensures
            r == effective_address(AddressingMode::Indirect, memory.model(), *registers),
    {
        match memory.read_word(Self::operand(registers)) {
            Ok(indir_address) => match memory.read_word(indir_address) {
                Ok(address) => Ok(Some(address)),
                Err(e) => Err(e),
            },
            Err(e) => Err(e),
        }
    }

    fn indirect_x(&self, memory: &M, registers: &Registers) -> (r: Result<Option<Address>>)
        requires
            memory.inv(),
        ensures
            r == effective_address(AddressingMode::IndirectX, memory.model(), *registers),
    {
        match memory.read_word(Self::operand(registers)) {
            Ok(indir_address) => {
                proof {
                    lemma_wrapping_add(indir_address, registers.x as u16);
                }
                let zero_page = indir_address.wrapping_add(registers.x as u16) & 0xff;
                match memory.read_word(zero_page) {
                    Ok(address) => Ok(Some(address)),
                    Err(e) => Err(e),
                }
            },
            Err(e) => Err(e),
        }
    }

    fn indirect_y(&self, memory: &M, registers: &Registers) -> (r: Result<Option<Address>>)
        requires
            memory.inv(),
        ensures
            r == effective_address(AddressingMode::IndirectY, memory.model(), *registers),
    {
        match memory.read_word(Self::operand(registers)) {
            Ok(indir_address) => match memory.read_word(indir_address) {
                Ok(address) => {
                    proof {
                        lemma_wrapping_add(address, registers.y as u16);
                    }
                    Ok(Some(address.wrapping_add(registers.y as u16)))
                },
                Err(e) => Err(e),
            },
            Err(e) => Err(e),
        }
    }
}

impl<M> crate::cpu::AddressDataDispatcher<M> for AddressAndDataDispatch<M> where M: Memory {
    open spec fn spec_address(
        &self,
        mode: AddressingMode,
        memory: MemView,
        registers: Registers,
    ) -> Result<Option<Address>> {
        effective_address(mode, memory, registers)
    }

    open spec fn spec_data(
        &self,
        mode: AddressingMode,
        memory: MemView,
        registers: Registers,
    ) -> Result<Option<Data>> {
        operand_data(mode, memory, registers)
    }

    fn get_address(&self, mode: &AddressingMode, memory: &M, registers: &Registers) -> (r: Result<
        Option<Address>,
    >) {
        match mode {
            AddressingMode::Implicit => self.implicit(memory, registers),
            AddressingMode::Accumulator => self.accumulator(memory, registers),
            AddressingMode::Immediate => self.immediate(memory, registers),
            AddressingMode::ZeroPage => self.zero_page(memory, registers),
            AddressingMode::ZeroPageX => self.zero_page_x(memory, registers),
            AddressingMode::ZeroPageY => self.zero_page_y(memory, registers),
            AddressingMode::Relative => self.relative(memory, registers),
            AddressingMode::Absolute => self.absolute(memory, registers),
            AddressingMode::AbsoluteX => self.absolute_x(memory, registers),
            AddressingMode::AbsoluteY => self.absolute_y(memory, registers),
            AddressingMode::Indirect => self.indirect(memory, registers),
            AddressingMode::IndirectX => self.indirect_x(memory, registers),
            AddressingMode::IndirectY => self.indirect_y(memory, registers),
            AddressingMode::NoMode => Err(
                Error::with_pc(registers.pc, ErrorType::InvalidAddressingMode),
            ),
        }
    }

    fn get_data(&self, mode: &AddressingMode, memory: &M, registers: &Registers) -> (r: Result<
        Option<Data>,
    >) {
        match mode {
            AddressingMode::Implicit => Ok(None),
            AddressingMode::Accumulator => Ok(Some(registers.a)),
            _ => match self.get_address(mode, memory, registers) {
                Ok(Some(address)) => match memory.read_byte(address) {
                    Ok(b) => Ok(Some(b)),
                    Err(e) => Err(e),
                },
                Ok(None) => Ok(None),
                Err(e) => Err(e),
            },
        }
    }
}

/// Every zero-page mode, indexed or not, yields an address in page 0.
pub proof fn zero_page_addresses_stay_in_page_zero(
    mode: AddressingMode,
    memory: MemView,
    registers: Registers,
)
    requires
        mode == AddressingMode::ZeroPage || mode == AddressingMode::ZeroPageX || mode
            == AddressingMode::ZeroPageY,
    ensures
        effective_address(mode, memory, registers) matches Ok(Some(a)) ==> a < 0x0100,
{
    if let Ok(b) = memory.read_byte(add16(registers.pc, 1)) {
        let sx = (b + registers.x) as u16;
        let sy = (b + registers.y) as u16;
        assert(sx & 0xff < 0x100 && sy & 0xff < 0x100) by (bit_vector);
    }
}

} // verus!

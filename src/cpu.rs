use vstd::prelude::*;

use self::model::MemView;
use crate::text::{hex_padded, hex_padded_string};
use vstd::string::StringExecFns;
use self::registers::Registers;

pub mod address;
pub mod data;
pub mod dispatch;
pub mod execution;
pub mod instruction_decode;
pub mod memory;
pub mod model;
pub mod ram;
pub mod registers;
pub mod rom;
pub mod writeback;

verus! {

pub type Byte = u8;

pub type Word = u16;

pub type Address = Word;

pub type Data = Byte;

#[derive(Debug, Clone, Copy, PartialEq, Eq, Structural)]
pub enum ErrorType {
    AddressOutOfRange(Address),
    InvalidAddressingMode,
    InvalidInstruction(Byte),
    MissingData,
    MissingAddress,
}

/// A failure of one step, with the program counter of the instruction that
/// caused it where one is known.
#[derive(Debug, Clone, Copy, PartialEq, Eq, Structural)]
pub struct Error {
    pub pc: Option<Address>,
    pub error_type: ErrorType,
}

pub type Result<T> = core::result::Result<T, Error>;

impl Error {
    pub open spec fn spec_with_pc(pc: Address, error_type: ErrorType) -> Error {
        Error { pc: Some(pc), error_type }
    }

    pub open spec fn spec_without_pc(error_type: ErrorType) -> Error {
        Error { pc: None, error_type }
    }

    pub fn with_pc(pc: Address, error_type: ErrorType) -> (r: Self)
        ensures
            r == Error::spec_with_pc(pc, error_type),
    {
        Error { pc: Some(pc), error_type }
    }

    pub fn without_pc(error_type: ErrorType) -> (r: Self)
        ensures
            r == Error::spec_without_pc(error_type),
    {
        Error { pc: None, error_type }
    }

    pub open spec fn spec_message(self) -> Seq<char> {
        let head = match self.error_type {
            ErrorType::AddressOutOfRange(addr) => "Address out of range (0x"@ + hex_padded(
                addr as nat,
                4,
            ) + ")"@,
            ErrorType::InvalidAddressingMode => "Invalid addressing mode"@,
            ErrorType::InvalidInstruction(opcode) => "Invalid instruction ("@ + hex_padded(
                opcode as nat,
                2,
            ) + ")"@,
            ErrorType::MissingData => "Missing data"@,
            ErrorType::MissingAddress => "Missing address"@,
        };
        match self.pc {
            Some(pc) => head + " at 0x"@ + hex_padded(pc as nat, 4),
            None => head,
        }
    }

    /// The text that describes this error, e.g.
    /// `Invalid instruction (02) at 0x1234`.
    pub fn message(&self) -> (r: String)
        ensures
            r@ == self.spec_message(),
    {
        let mut s = match self.error_type {
            ErrorType::AddressOutOfRange(addr) => {
                let mut s = String::from_str("Address out of range (0x");
                s.append(hex_padded_string(addr, 4).as_str());
                s.append(")");
                s
            },
            ErrorType::InvalidAddressingMode => String::from_str("Invalid addressing mode"),
            ErrorType::InvalidInstruction(opcode) => {
                let mut s = String::from_str("Invalid instruction (");
                s.append(hex_padded_string(opcode as u16, 2).as_str());
                s.append(")");
                s
            },
            ErrorType::MissingData => String::from_str("Missing data"),
            ErrorType::MissingAddress => String::from_str("Missing address"),
        };
        if let Some(pc) = self.pc {
            s.append(" at 0x");
            s.append(hex_padded_string(pc, 4).as_str());
        }
        s
    }
}

/// A byte store over the 16-bit address space. `model` is what the processor
/// sees of it; every operation is stated over that view.
pub trait Memory: Sized {
    spec fn model(&self) -> MemView;

    /// The well-formedness of the store.
    spec fn inv(&self) -> bool;

    proof fn lemma_model_wf(&self)
        requires
            self.inv(),
        ensures
            self.model().wf(),
    ;

    fn length(&self) -> (r: usize)
        requires
            self.inv(),
        ensures
            r as nat == self.model().length,
    ;

    /// Whether a write past the end of the store succeeds and changes
    /// nothing (true of read-only stores) rather than failing.
    fn ignores_stray_writes(&self) -> (r: bool)
        requires
            self.inv(),
        ensures
            r == self.model().ignores_stray_writes,
    ;

    fn read_byte(&self, address: Address) -> (r: Result<Byte>)
        requires
            self.inv(),
        ensures
            r == self.model().read_byte(address),
    ;

    fn read_word(&self, address: Address) -> (r: Result<Word>)
        requires
            self.inv(),
        ensures
            r == self.model().read_word(address),
    ;

    fn write_byte(&mut self, address: Address, data: Byte) -> (r: Result<()>)
        requires
            old(self).inv(),
        ensures
            final(self).inv(),
            (final(self).model(), r) == old(self).model().write_byte(address, data),
    ;

    fn write_word(&mut self, address: Address, data: Word) -> (r: Result<()>)
        requires
            old(self).inv(),
        ensures
            final(self).inv(),
            (final(self).model(), r) == old(self).model().write_word(address, data),
    ;
}

/// The 56 mnemonics, and the raw byte of an unassigned opcode.
#[allow(clippy::upper_case_acronyms)]
#[derive(Debug, Clone, Copy, PartialEq, Eq, Structural)]
pub enum Opcode {
    ADC,
    AND,
    ASL,
    BCC,
    BCS,
    BEQ,
    BIT,
    BMI,
    BNE,
    BPL,
    BRK,
    BVC,
    BVS,
    CLC,
    CLD,
    CLI,
    CLV,
    CMP,
    CPX,
    CPY,
    DEC,
    DEX,
    DEY,
    EOR,
    INC,
    INX,
    INY,
    JMP,
    JSR,
    LDA,
    LDX,
    LDY,
    LSR,
    NOP,
    ORA,
    PHA,
    PHP,
    PLA,
    PLP,
    ROL,
    ROR,
    RTI,
    RTS,
    SBC,
    SEC,
    SED,
    SEI,
    STA,
    STX,
    STY,
    TAX,
    TAY,
    TSX,
    TXA,
    TXS,
    TYA,
    Invalid(Byte),
}

impl Opcode {
    pub open spec fn spec_mnemonic(self) -> Seq<char> {
        match self {
            Opcode::ADC => "ADC"@,
            Opcode::AND => "AND"@,
            Opcode::ASL => "ASL"@,
            Opcode::BCC => "BCC"@,
            Opcode::BCS => "BCS"@,
            Opcode::BEQ => "BEQ"@,
            Opcode::BIT => "BIT"@,
            Opcode::BMI => "BMI"@,
            Opcode::BNE => "BNE"@,
            Opcode::BPL => "BPL"@,
            Opcode::BRK => "BRK"@,
            Opcode::BVC => "BVC"@,
            Opcode::BVS => "BVS"@,
            Opcode::CLC => "CLC"@,
            Opcode::CLD => "CLD"@,
            Opcode::CLI => "CLI"@,
            Opcode::CLV => "CLV"@,
            Opcode::CMP => "CMP"@,
            Opcode::CPX => "CPX"@,
            Opcode::CPY => "CPY"@,
            Opcode::DEC => "DEC"@,
            Opcode::DEX => "DEX"@,
            Opcode::DEY => "DEY"@,
            Opcode::EOR => "EOR"@,
            Opcode::INC => "INC"@,
            Opcode::INX => "INX"@,
            Opcode::INY => "INY"@,
            Opcode::JMP => "JMP"@,
            Opcode::JSR => "JSR"@,
            Opcode::LDA => "LDA"@,
            Opcode::LDX => "LDX"@,
            Opcode::LDY => "LDY"@,
            Opcode::LSR => "LSR"@,
            Opcode::NOP => "NOP"@,
            Opcode::ORA => "ORA"@,
            Opcode::PHA => "PHA"@,
            Opcode::PHP => "PHP"@,
            Opcode::PLA => "PLA"@,
            Opcode::PLP => "PLP"@,
            Opcode::ROL => "ROL"@,
            Opcode::ROR => "ROR"@,
            Opcode::RTI => "RTI"@,
            Opcode::RTS => "RTS"@,
            Opcode::SBC => "SBC"@,
            Opcode::SEC => "SEC"@,
            Opcode::SED => "SED"@,
            Opcode::SEI => "SEI"@,
            Opcode::STA => "STA"@,
            Opcode::STX => "STX"@,
            Opcode::STY => "STY"@,
            Opcode::TAX => "TAX"@,
            Opcode::TAY => "TAY"@,
            Opcode::TSX => "TSX"@,
            Opcode::TXA => "TXA"@,
            Opcode::TXS => "TXS"@,
            Opcode::TYA => "TYA"@,
            Opcode::Invalid(_) => "Invalid"@,
        }
    }

    /// The three-letter name of the instruction.
    pub fn mnemonic(&self) -> (r: &'static str)
        ensures
            r@ == self.spec_mnemonic(),
    {
        match self {
            Opcode::ADC => "ADC",
            Opcode::AND => "AND",
            Opcode::ASL => "ASL",
            Opcode::BCC => "BCC",
            Opcode::BCS => "BCS",
            Opcode::BEQ => "BEQ",
            Opcode::BIT => "BIT",
            Opcode::BMI => "BMI",
            Opcode::BNE => "BNE",
            Opcode::BPL => "BPL",
            Opcode::BRK => "BRK",
            Opcode::BVC => "BVC",
            Opcode::BVS => "BVS",
            Opcode::CLC => "CLC",
            Opcode::CLD => "CLD",
            Opcode::CLI => "CLI",
            Opcode::CLV => "CLV",
            Opcode::CMP => "CMP",
            Opcode::CPX => "CPX",
            Opcode::CPY => "CPY",
            Opcode::DEC => "DEC",
            Opcode::DEX => "DEX",
            Opcode::DEY => "DEY",
            Opcode::EOR => "EOR",
            Opcode::INC => "INC",
            Opcode::INX => "INX",
            Opcode::INY => "INY",
            Opcode::JMP => "JMP",
            Opcode::JSR => "JSR",
            Opcode::LDA => "LDA",
            Opcode::LDX => "LDX",
            Opcode::LDY => "LDY",
            Opcode::LSR => "LSR",
            Opcode::NOP => "NOP",
            Opcode::ORA => "ORA",
            Opcode::PHA => "PHA",
            Opcode::PHP => "PHP",
            Opcode::PLA => "PLA",
            Opcode::PLP => "PLP",
            Opcode::ROL => "ROL",
            Opcode::ROR => "ROR",
            Opcode::RTI => "RTI",
            Opcode::RTS => "RTS",
            Opcode::SBC => "SBC",
            Opcode::SEC => "SEC",
            Opcode::SED => "SED",
            Opcode::SEI => "SEI",
            Opcode::STA => "STA",
            Opcode::STX => "STX",
            Opcode::STY => "STY",
            Opcode::TAX => "TAX",
            Opcode::TAY => "TAY",
            Opcode::TSX => "TSX",
            Opcode::TXA => "TXA",
            Opcode::TXS => "TXS",
            Opcode::TYA => "TYA",
            Opcode::Invalid(_) => "Invalid",
        }
    }
}

#[derive(Debug, Clone, Copy, PartialEq, Eq, Structural)]
pub enum AddressingMode {
    Implicit,
    Accumulator,
    Immediate,
    ZeroPage,
    ZeroPageX,
    ZeroPageY,
    Relative,
    Absolute,
    AbsoluteX,
    AbsoluteY,
    Indirect,
    IndirectX,
    IndirectY,
    /// Only for unassigned opcodes.
    NoMode,
}

/// Where the result of an instruction is committed.
#[derive(Debug, Clone, Copy, PartialEq, Eq, Structural)]
pub enum Writeback {
    Accumulator,
    X,
    Y,
    Memory,
    PC,
    SP,
    PS,
    NoWriteback,
}

/// One entry of the decoder table.
#[derive(Debug, Clone, Copy, PartialEq, Eq, Structural)]
pub struct Instruction {
    pub opcode: Opcode,
    pub addressing_mode: AddressingMode,
    pub writeback: Writeback,
    pub byte_length: usize,
    pub ticks: usize,
}

impl Instruction {
    pub fn new(
        opcode: Opcode,
        addressing_mode: AddressingMode,
        writeback: Writeback,
        byte_length: usize,
        ticks: usize,
    ) -> (r: Self)
        ensures
            r == (Instruction { opcode, addressing_mode, writeback, byte_length, ticks }),
    {
        Instruction { opcode, addressing_mode, writeback, byte_length, ticks }
    }
}

/// What the execution unit hands to the writeback unit.
#[derive(Debug, Clone, Copy, PartialEq, Eq, Structural)]
pub enum ExecutionResult {
    /// Only flags (or the stack) changed.
    NoResult,
    /// A byte to commit.
    Data(Data),
    /// A new program counter.
    Address(Address),
}

/// What a step of a unit leaves behind: its result, the registers and the
/// memory.
pub type Outcome<T> = (Result<T>, Registers, MemView);

pub trait InstructionDecoder {
    spec fn inv(&self) -> bool;

    /// The table entry for `opcode`.
    spec fn decoded(&self, opcode: Byte) -> Instruction;

    fn decode(&self, opcode: Byte) -> (r: Result<&Instruction>)
        requires
            self.inv(),
        ensures
            r is Ok,
            r matches Ok(i) ==> *i == self.decoded(opcode),
    ;
}

/// Resolves an addressing mode to the effective address and the operand.
pub trait AddressDataDispatcher<M> where M: Memory {
    spec fn spec_address(
        &self,
        mode: AddressingMode,
        memory: MemView,
        registers: Registers,
    ) -> Result<Option<Address>>;

    spec fn spec_data(
        &self,
        mode: AddressingMode,
        memory: MemView,
        registers: Registers,
    ) -> Result<Option<Data>>;

    fn get_address(&self, mode: &AddressingMode, memory: &M, registers: &Registers) -> (r: Result<
        Option<Address>,
    >)
        requires
            memory.inv(),
        ensures
            r == self.spec_address(*mode, memory.model(), *registers),
    ;

    fn get_data(&self, mode: &AddressingMode, memory: &M, registers: &Registers) -> (r: Result<
        Option<Data>,
    >)
        requires
            memory.inv(),
        ensures
            r == self.spec_data(*mode, memory.model(), *registers),
    ;
}

/// Carries out one instruction on its resolved operands.
pub trait ExecutionUnit<M> where M: Memory {
    spec fn spec_execute(
        &self,
        opcode: Opcode,
        data: Option<Data>,
        address: Option<Address>,
        memory: MemView,
        registers: Registers,
    ) -> Outcome<ExecutionResult>;

    fn execute(
        &self,
        opcode: &Opcode,
        data: Option<Data>,
        address: Option<Address>,
        memory: &mut M,
        registers: &mut Registers,
    ) -> (r: Result<ExecutionResult>)
        requires
            old(memory).inv(),
        ensures
            final(memory).inv(),
            (r, *final(registers), final(memory).model()) == self.spec_execute(
                *opcode,
                data,
                address,
                old(memory).model(),
                *old(registers),
            ),
    ;
}

/// Commits the result of an instruction to its destination.
pub trait WritebackUnit<M> where M: Memory {
    spec fn spec_writeback(
        &self,
        target: Writeback,
        result: ExecutionResult,
        address: Option<Address>,
        memory: MemView,
        registers: Registers,
    ) -> Outcome<()>;

    fn writeback(
        &self,
        target: &Writeback,
        result: ExecutionResult,
        address: Option<Address>,
        memory: &mut M,
        registers: &mut Registers,
    ) -> (r: Result<()>)
        requires
            old(memory).inv(),
        ensures
            final(memory).inv(),
            (r, *final(registers), final(memory).model()) == self.spec_writeback(
                *target,
                result,
                address,
                old(memory).model(),
                *old(registers),
            ),
    ;
}

} // verus!

use vstd::prelude::*;

use crate::cpu::{Address, Data};
use crate::text::{hex_padded, hex_padded_string};
use vstd::string::StringExecFns;

verus! {

/// The programmer-visible registers. `pc_next` is where the program counter
/// goes at the end of the current step; `ps` is the packed status byte.
#[derive(Debug, Clone, Copy, PartialEq, Eq, Structural)]
pub struct Registers {
    pub pc: Address,
    pub sp: Data,
    pub a: Data,
    pub x: Data,
    pub y: Data,
    pub pc_next: Address,
    pub ps: Data,
}

/// The flags of the status byte, bit 0 (carry) to bit 6 (negative).
#[derive(Debug, Clone, Copy, PartialEq, Eq, Structural)]
pub enum StatusBits {
    Carry,
    Zero,
    Int,
    Dec,
    Brk,
    Ovf,
    Neg,
}

impl StatusBits {
    pub open spec fn spec_mask(self) -> u8 {
        match self {
            StatusBits::Carry => 0x01,
            StatusBits::Zero => 0x02,
            StatusBits::Int => 0x04,
            StatusBits::Dec => 0x08,
            StatusBits::Brk => 0x10,
            StatusBits::Ovf => 0x20,
            StatusBits::Neg => 0x40,
        }
    }

    /// The bit of the status byte that holds this flag.
    pub fn mask(self) -> (r: u8)
        ensures
            r == self.spec_mask(),
    {
        match self {
            StatusBits::Carry => 0x01,
            StatusBits::Zero => 0x02,
            StatusBits::Int => 0x04,
            StatusBits::Dec => 0x08,
            StatusBits::Brk => 0x10,
            StatusBits::Ovf => 0x20,
            StatusBits::Neg => 0x40,
        }
    }
}

/// Whether `bit` is set in the status byte `p`.
pub open spec fn has_flag(p: u8, bit: StatusBits) -> bool {
    p & bit.spec_mask() != 0
}

/// The status byte `p` with `bit` set to `value` and every other bit kept.
pub open spec fn with_flag(p: u8, bit: StatusBits, value: bool) -> u8 {
    if value {
        p | bit.spec_mask()
    } else {
        p & !bit.spec_mask()
    }
}

/// `s` followed by `t` when `cond` holds, else `s`.
pub open spec fn append_if(s: Seq<char>, cond: bool, t: Seq<char>) -> Seq<char> {
    if cond {
        s + t
    } else {
        s
    }
}

impl Registers {
    pub open spec fn spec_describe(self) -> Seq<char> {
        let fields = "PC: "@ + hex_padded(self.pc as nat, 4) + " SP: "@ + hex_padded(
            self.sp as nat,
            2,
        ) + " A: "@ + hex_padded(self.a as nat, 2) + " X: "@ + hex_padded(self.x as nat, 2)
            + " Y: "@ + hex_padded(self.y as nat, 2) + " PCnext: "@ + hex_padded(
            self.pc_next as nat,
            4,
        ) + " "@;
        append_if(
            append_if(
                append_if(
                    append_if(
                        append_if(
                            append_if(
                                append_if(fields, self.flag(StatusBits::Carry), "C"@),
                                self.flag(StatusBits::Zero),
                                "Z"@,
                            ),
                            self.flag(StatusBits::Int),
                            "I"@,
                        ),
                        self.flag(StatusBits::Dec),
                        "D"@,
                    ),
                    self.flag(StatusBits::Brk),
                    "B"@,
                ),
                self.flag(StatusBits::Ovf),
                "O"@,
            ),
            self.flag(StatusBits::Neg),
            "V"@,
        )
    }

    /// The registers in hex, then the letters of the flags that are set, e.g.
    /// `PC: 0200 SP: fd A: 00 X: 01 Y: 00 PCnext: 0203 CZ`.
    pub fn describe(&self) -> (r: String)
        ensures
            r@ == self.spec_describe(),
    {
        let mut s = String::from_str("PC: ");
        s.append(hex_padded_string(self.pc, 4).as_str());
        s.append(" SP: ");
        s.append(hex_padded_string(self.sp as u16, 2).as_str());
        s.append(" A: ");
        s.append(hex_padded_string(self.a as u16, 2).as_str());
        s.append(" X: ");
        s.append(hex_padded_string(self.x as u16, 2).as_str());
        s.append(" Y: ");
        s.append(hex_padded_string(self.y as u16, 2).as_str());
        s.append(" PCnext: ");
        s.append(hex_padded_string(self.pc_next, 4).as_str());
        s.append(" ");
        if self.carry() {
            s.append("C");
        }
        if self.zero() {
            s.append("Z");
        }
        if self.interrupt() {
            s.append("I");
        }
        if self.dec() {
            s.append("D");
        }
        if self.brk() {
            s.append("B");
        }
        if self.overflow() {
            s.append("O");
        }
        if self.negative() {
            s.append("V");
        }
        s
    }

    pub open spec fn flag(self, bit: StatusBits) -> bool {
        has_flag(self.ps, bit)
    }

    pub open spec fn with_flag(self, bit: StatusBits, value: bool) -> Registers {
        Registers { ps: with_flag(self.ps, bit, value), ..self }
    }

    /// All registers zero but the stack pointer, which starts at the top of
    /// the stack page.
    pub fn new() -> (r: Self)
        ensures
            r == (Registers { pc: 0, sp: 0xff, a: 0, x: 0, y: 0, pc_next: 0, ps: 0 }),
    {
        Registers { pc: 0x0000, sp: 0xff, a: 0x00, x: 0x00, y: 0x00, pc_next: 0x0000, ps: 0x00 }
    }

    pub fn get_flag(&self, bit: StatusBits) -> (r: bool)
        ensures
            r == self.flag(bit),
    {
        (self.ps & bit.mask()) != 0
    }

    pub fn set_flag(&mut self, bit: StatusBits)
        ensures
            *final(self) == old(self).with_flag(bit, true),
    {
        self.ps = self.ps | bit.mask();
    }

    pub fn clear_flag(&mut self, bit: StatusBits)
        ensures
            *final(self) == old(self).with_flag(bit, false),
    {
        self.ps = self.ps & !bit.mask();
    }

    pub fn write_flag(&mut self, bit: StatusBits, value: bool)
        ensures
            *final(self) == old(self).with_flag(bit, value),
    {
        if value {
            self.set_flag(bit);
        } else {
            self.clear_flag(bit);
        }
    }

    pub fn carry(&self) -> (r: bool)
        ensures
            r == self.flag(StatusBits::Carry),
    {
        self.get_flag(StatusBits::Carry)
    }

    pub fn zero(&self) -> (r: bool)
        ensures
            r == self.flag(StatusBits::Zero),
    {
        self.get_flag(StatusBits::Zero)
    }

    pub fn interrupt(&self) -> (r: bool)
        ensures
            r == self.flag(StatusBits::Int),
    {
        self.get_flag(StatusBits::Int)
    }

    pub fn dec(&self) -> (r: bool)
        ensures
            r == self.flag(StatusBits::Dec),
    {
        self.get_flag(StatusBits::Dec)
    }

    pub fn brk(&self) -> (r: bool)
        ensures
            r == self.flag(StatusBits::Brk),
    {
        self.get_flag(StatusBits::Brk)
    }

    pub fn overflow(&self) -> (r: bool)
        ensures
            r == self.flag(StatusBits::Ovf),
    {
        self.get_flag(StatusBits::Ovf)
    }

    pub fn negative(&self) -> (r: bool)
        ensures
            r == self.flag(StatusBits::Neg),
    {
        self.get_flag(StatusBits::Neg)
    }
}

/// Setting a flag and reading it back gives the value set; the other flags
/// read as before.
pub proof fn lemma_flag_after_write(p: u8, bit: StatusBits, value: bool, other: StatusBits)
    ensures
        has_flag(with_flag(p, bit, value), bit) == value,
        other != bit ==> has_flag(with_flag(p, bit, value), other) == has_flag(p, other),
{
    let m = bit.spec_mask();
    let o = other.spec_mask();
    assert(m == 1 || m == 2 || m == 4 || m == 8 || m == 16 || m == 32 || m == 64);
    assert(o == 1 || o == 2 || o == 4 || o == 8 || o == 16 || o == 32 || o == 64);
    assert(((p | m) & m != 0) && ((p & !m) & m == 0)) by (bit_vector)
        requires
            m == 1 || m == 2 || m == 4 || m == 8 || m == 16 || m == 32 || m == 64,
    ;
    if other != bit {
        assert(m != o);
        assert(((p | m) & o != 0) == (p & o != 0) && ((p & !m) & o != 0) == (p & o != 0))
            by (bit_vector)
            requires
                m == 1 || m == 2 || m == 4 || m == 8 || m == 16 || m == 32 || m == 64,
                o == 1 || o == 2 || o == 4 || o == 8 || o == 16 || o == 32 || o == 64,
                m != o,
        ;
    }
}

/// Writing one flag leaves every other flag and bit 7 as they were.
pub proof fn lemma_flag_writes_are_independent()
    ensures
        forall|p: u8, bit: StatusBits, value: bool, other: StatusBits|
            other != bit ==> #[trigger] has_flag(with_flag(p, bit, value), other) == has_flag(
                p,
                other,
            ),
        forall|p: u8, bit: StatusBits, value: bool|
            #[trigger] with_flag(p, bit, value) & 0x80 == p & 0x80,
{
    assert forall|p: u8, bit: StatusBits, value: bool, other: StatusBits|
        other != bit implies #[trigger] has_flag(with_flag(p, bit, value), other) == has_flag(
            p,
            other,
        ) by {
        lemma_flag_after_write(p, bit, value, other);
    }
    assert forall|p: u8, bit: StatusBits, value: bool|
        #[trigger] with_flag(p, bit, value) & 0x80 == p & 0x80 by {
        let m = bit.spec_mask();
        assert((p | m) & 0x80 == p & 0x80 && (p & !m) & 0x80 == p & 0x80) by (bit_vector)
            requires
                m == 1 || m == 2 || m == 4 || m == 8 || m == 16 || m == 32 || m == 64,
        ;
    }
}

} // verus!

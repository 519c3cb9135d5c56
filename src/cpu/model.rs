//! The mathematical model of a memory as the processor sees it: one cell for
//! each address of the 16-bit address space that the store backs.
use vstd::prelude::*;

use crate::cpu::{Address, Error, ErrorType};

verus! {

/// The size of the 16-bit address space.
pub const ADDRESS_SPACE: usize = 0x10000;

/// What backs one address.
pub enum Cell {
    /// A byte that reads give back and writes replace.
    Ram(u8),
    /// A byte that reads give back and writes leave alone.
    Rom(u8),
}

impl Cell {
    pub open spec fn value(self) -> u8 {
        match self {
            Cell::Ram(b) => b,
            Cell::Rom(b) => b,
        }
    }
}

/// The view of a memory: its length, the cells that back the addresses below
/// that length (at most the whole address space), and whether a write to an
/// address past the end is ignored (it succeeds) or refused.
pub struct MemView {
    pub length: nat,
    pub cells: Seq<Cell>,
    pub ignores_stray_writes: bool,
}

/// The number of addresses that a store of `length` bytes backs.
pub open spec fn backed(length: nat) -> nat {
    if length < ADDRESS_SPACE {
        length
    } else {
        ADDRESS_SPACE as nat
    }
}

/// The little-endian word made of a low and a high byte.
pub open spec fn word_of(lo: u8, hi: u8) -> u16 {
    (lo + 256 * hi) as u16
}

pub open spec fn low_byte(w: u16) -> u8 {
    (w % 256) as u8
}

pub open spec fn high_byte(w: u16) -> u8 {
    (w / 256) as u8
}

pub open spec fn out_of_range(a: Address) -> Error {
    Error::spec_without_pc(ErrorType::AddressOutOfRange(a))
}

impl MemView {
    pub open spec fn wf(self) -> bool {
        self.cells.len() == backed(self.length)
    }

    /// Whether the store backs index `i`.
    pub open spec fn holds_index(self, i: int) -> bool {
        0 <= i < self.cells.len()
    }

    pub open spec fn holds(self, a: Address) -> bool {
        self.holds_index(a as int)
    }

    pub open spec fn read_byte(self, a: Address) -> Result<u8, Error> {
        if self.holds(a) {
            Ok(self.cells[a as int].value())
        } else {
            Err(out_of_range(a))
        }
    }

    /// The word whose low byte is at `a` and high byte at `a + 1`. There is no
    /// wrap: a word at the last address has its high byte outside the store.
    pub open spec fn read_word(self, a: Address) -> Result<u16, Error> {
        if self.holds(a) && self.holds_index(a + 1) {
            Ok(word_of(self.cells[a as int].value(), self.cells[a + 1].value()))
        } else {
            Err(out_of_range(a))
        }
    }

    /// Whether a write at index `i` succeeds.
    pub open spec fn accepts_write_at(self, i: int) -> bool {
        self.holds_index(i) || self.ignores_stray_writes
    }

    pub open spec fn accepts_write(self, a: Address) -> bool {
        self.accepts_write_at(a as int)
    }

    /// The memory after an accepted write of `b` at index `i`: only a RAM cell
    /// changes.
    pub open spec fn store_at(self, i: int, b: u8) -> MemView {
        if self.holds_index(i) && self.cells[i] is Ram {
            MemView { cells: self.cells.update(i, Cell::Ram(b)), ..self }
        } else {
            self
        }
    }

    pub open spec fn store(self, a: Address, b: u8) -> MemView {
        self.store_at(a as int, b)
    }

    pub open spec fn write_byte(self, a: Address, b: u8) -> (MemView, Result<(), Error>) {
        if self.accepts_write(a) {
            (self.store(a, b), Ok(()))
        } else {
            (self, Err(out_of_range(a)))
        }
    }

    /// A word write stores the low byte at `a` and the high byte at `a + 1`,
    /// or, if either write would be refused, changes nothing.
    pub open spec fn write_word(self, a: Address, w: u16) -> (MemView, Result<(), Error>) {
        if self.accepts_write(a) && self.accepts_write_at(a + 1) {
            (self.store(a, low_byte(w)).store_at(a + 1, high_byte(w)), Ok(()))
        } else {
            (self, Err(out_of_range(a)))
        }
    }
}

} // verus!

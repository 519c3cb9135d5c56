use vstd::prelude::*;

use crate::cpu::model::{backed, Cell, MemView, ADDRESS_SPACE};
use crate::cpu::{Address, Byte, Error, ErrorType, Memory, Result, Word};

verus! {

/// Read-write memory of a fixed size. Addresses past the end are refused.
pub struct Ram {
    memory: Vec<u8>,
}

impl Ram {
    /// A RAM of `size` bytes, all zero.
    pub fn new(size: usize) -> (r: Self)
        ensures
            r.inv(),
            r.model().length == size,
            r.model().cells.len() == backed(size as nat),
            !r.model().ignores_stray_writes,
            forall|i: int| 0 <= i < r.model().cells.len() ==> #[trigger] r.model().cells[i] == Cell::Ram(0),
    {
        let memory = vec![0u8; size];
        proof {
            assert forall|i: int| 0 <= i < memory@.len() implies memory@[i] == 0u8 by {
                assert(cloned(0u8, memory@[i]));
            }
        }
        Ram { memory }
    }
}

impl Memory for Ram {
    closed spec fn model(&self) -> MemView {
        MemView {
            length: self.memory@.len(),
            cells: Seq::new(backed(self.memory@.len()), |i: int| Cell::Ram(self.memory@[i])),
            ignores_stray_writes: false,
        }
    }

    /// Every backed address is a RAM cell, and writes past the end fail.
    open spec fn inv(&self) -> bool {
        &&& self.model().wf()
        &&& !self.model().ignores_stray_writes
        &&& forall|i: int| 0 <= i < self.model().cells.len() ==> #[trigger] self.model().cells[i] is Ram
    }

    proof fn lemma_model_wf(&self) {
    }

    fn length(&self) -> (r: usize) {
        self.memory.len()
    }

    fn ignores_stray_writes(&self) -> (r: bool) {
        false
    }

    fn read_byte(&self, address: Address) -> (r: Result<Byte>) {
        let uaddr = address as usize;
        if uaddr >= self.memory.len() {
            return Err(Error::without_pc(ErrorType::AddressOutOfRange(address)));
        }
        Ok(self.memory[uaddr])
    }

    fn read_word(&self, address: Address) -> (r: Result<Word>) {
        let lo_addr = address as usize;
        let hi_addr = lo_addr + 1;
        if hi_addr >= self.memory.len() || hi_addr >= ADDRESS_SPACE {
            return Err(Error::without_pc(ErrorType::AddressOutOfRange(address)));
        }
        let lo = self.memory[lo_addr] as u16;
        let hi = self.memory[hi_addr] as u16;
        Ok(lo + hi * 256)
    }

    fn write_byte(&mut self, address: Address, data: Byte) -> (r: Result<()>) {
        let uaddr = address as usize;
        if uaddr >= self.memory.len() {
            return Err(Error::without_pc(ErrorType::AddressOutOfRange(address)));
        }
        self.memory.set(uaddr, data);
        proof {
            assert(final(self).model().cells =~= old(self).model().store(address, data).cells);
        }
        Ok(())
    }

    fn write_word(&mut self, address: Address, data: Word) -> (r: Result<()>) {
        let lo_addr = address as usize;
        let hi_addr = lo_addr + 1;
        if hi_addr >= self.memory.len() || hi_addr >= ADDRESS_SPACE {
            return Err(Error::without_pc(ErrorType::AddressOutOfRange(address)));
        }
        self.memory.set(lo_addr, (data % 256) as u8);
        self.memory.set(hi_addr, (data / 256) as u8);
        proof {
            let m = old(self).model();
            let w = m.store(address, (data % 256) as u8).store_at(
                address + 1,
                (data / 256) as u8,
            );
            assert(final(self).model().cells =~= w.cells);
        }
        Ok(())
    }
}

} // verus!

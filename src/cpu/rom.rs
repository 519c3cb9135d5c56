use vstd::prelude::*;

use crate::cpu::model::{backed, Cell, MemView, ADDRESS_SPACE};
use crate::cpu::{Address, Byte, Error, ErrorType, Memory, Result, Word};

verus! {

/// Read-only memory holding a fixed image. Every write succeeds and changes
/// nothing.
pub struct Rom {
    memory: Vec<u8>,
}

impl Rom {
    /// A ROM that holds `image`.
    pub fn new(image: Vec<u8>) -> (r: Self)
        ensures
            r.inv(),
            r.model().length == image@.len(),
            r.model().cells.len() == backed(image@.len()),
            r.model().ignores_stray_writes,
            forall|i: int|
                0 <= i < r.model().cells.len() ==> #[trigger] r.model().cells[i] == Cell::Rom(
                    image@[i],
                ),
    {
        Rom { memory: image }
    }
}

impl Memory for Rom {
    closed spec fn model(&self) -> MemView {
        MemView {
            length: self.memory@.len(),
            cells: Seq::new(backed(self.memory@.len()), |i: int| Cell::Rom(self.memory@[i])),
            ignores_stray_writes: true,
        }
    }

    /// Every backed address is a ROM cell, and writes past the end succeed.
    open spec fn inv(&self) -> bool {
        &&& self.model().wf()
        &&& self.model().ignores_stray_writes
        &&& forall|i: int| 0 <= i < self.model().cells.len() ==> #[trigger] self.model().cells[i] is Rom
    }

    proof fn lemma_model_wf(&self) {
    }

    fn length(&self) -> (r: usize) {
        self.memory.len()
    }

    fn ignores_stray_writes(&self) -> (r: bool) {
        true
    }

    fn read_byte(&self, address: Address) -> (r: Result<Byte>) {
        let uaddr = address as usize;
        if uaddr >= self.memory.len() {
            return Err(Error::without_pc(ErrorType::AddressOutOfRange(address)));
        }
        Ok(self.memory[uaddr])
    }

    fn read_word(&self, address: Address) -> (r: Result<Word>) {
        let lo_addr = address as usize;
        let hi_addr = lo_addr + 1;
        if hi_addr >= self.memory.len() || hi_addr >= ADDRESS_SPACE {
            return Err(Error::without_pc(ErrorType::AddressOutOfRange(address)));
        }
        let lo = self.memory[lo_addr] as u16;
        let hi = self.memory[hi_addr] as u16;
        Ok(lo + hi * 256)
    }

    fn write_byte(&mut self, _address: Address, _data: Byte) -> (r: Result<()>) {
        Ok(())
    }

    fn write_word(&mut self, _address: Address, _data: Word) -> (r: Result<()>) {
        Ok(())
    }
}

} // verus!

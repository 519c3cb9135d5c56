use vstd::prelude::*;

use crate::cpu::model::{MemView, ADDRESS_SPACE};
use crate::cpu::{Address, Byte, Error, ErrorType, Memory, Result, Word};

verus! {

/// The view of `overlay` mapped over `base` at `offset`: addresses in
/// `[offset, offset + overlay length)` show the overlay's cells, the others
/// the base's. Length and stray writes are the base's.
pub open spec fn overlay_view(base: MemView, overlay: MemView, offset: Address) -> MemView {
    MemView {
        length: base.length,
        cells: Seq::new(
            base.cells.len(),
            |i: int|
                if offset <= i < offset + overlay.cells.len() {
                    overlay.cells[i - offset]
                } else {
                    base.cells[i]
                },
        ),
        ignores_stray_writes: base.ignores_stray_writes,
    }
}

/// A memory made of a base memory and a smaller one mapped over part of it
/// (typically a ROM at the top of a RAM).
pub struct OverlayMemory<M, O> where M: Memory, O: Memory {
    pub base_memory: M,
    pub overlay_memory: O,
    pub overlay_offset: Address,
}

impl<M, O> OverlayMemory<M, O> where M: Memory, O: Memory {
    /// Maps `overlay_memory` over `base_memory` from `overlay_offset` on. The
    /// overlay must lie inside the base.
    pub fn new(base_memory: M, overlay_memory: O, overlay_offset: Address) -> (r: Self)
        requires
            base_memory.inv(),
            overlay_memory.inv(),
            overlay_offset + overlay_memory.model().length <= base_memory.model().length,
        ensures
            r.inv(),
            r.base_memory == base_memory,
            r.overlay_memory == overlay_memory,
            r.overlay_offset == overlay_offset,
            r.model() == overlay_view(
                base_memory.model(),
                overlay_memory.model(),
                overlay_offset,
            ),
    {
        OverlayMemory { base_memory, overlay_memory, overlay_offset }
    }

    /// Whether `address` falls in the overlay's window.
    fn in_overlay(&self, address: Address) -> (r: bool)
        requires
            self.inv(),
        ensures
            r == (self.overlay_offset <= address < self.overlay_offset + self.overlay_memory.model().length),
    {
        address >= self.overlay_offset && ((address - self.overlay_offset) as usize)
            < self.overlay_memory.length()
    }

    /// The overlay's own address for `address`, if it falls in the window.
    fn get_in_overlay(&self, address: Address) -> (r: Option<Address>)
        requires
            self.inv(),
        ensures
            r == (if self.overlay_offset <= address < self.overlay_offset
                + self.overlay_memory.model().length {
                Some((address - self.overlay_offset) as Address)
            } else {
                None::<Address>
            }),
    {
        if !self.in_overlay(address) {
            return None;
        }
        Some(address - self.overlay_offset)
    }

    /// Whether an address falls in the window does not depend on how much of
    /// the overlay lies past the address space.
    proof fn lemma_window(&self, address: Address)
        requires
            self.inv(),
        ensures
            self.model().wf(),
            (self.overlay_offset <= address < self.overlay_offset + self.overlay_memory.model().length) == (
            self.overlay_offset <= address < self.overlay_offset
                + self.overlay_memory.model().cells.len()),
            (self.overlay_offset <= address < self.overlay_offset + self.overlay_memory.model().length) ==> (
            address as int) < self.model().cells.len(),
    {
        self.base_memory.lemma_model_wf();
        self.overlay_memory.lemma_model_wf();
    }
}

impl<M, O> Memory for OverlayMemory<M, O> where M: Memory, O: Memory {
    open spec fn model(&self) -> MemView {
        overlay_view(self.base_memory.model(), self.overlay_memory.model(), self.overlay_offset)
    }

    open spec fn inv(&self) -> bool {
        &&& self.base_memory.inv()
        &&& self.overlay_memory.inv()
        &&& self.overlay_offset + self.overlay_memory.model().length <= self.base_memory.model().length
    }

    proof fn lemma_model_wf(&self) {
        self.base_memory.lemma_model_wf();
        self.overlay_memory.lemma_model_wf();
    }

    fn length(&self) -> (r: usize) {
        self.base_memory.length()
    }

    fn ignores_stray_writes(&self) -> (r: bool) {
        self.base_memory.ignores_stray_writes()
    }

    fn read_byte(&self, address: Address) -> (r: Result<Byte>) {
        proof {
            self.lemma_window(address);
        }
        if let Some(overlay_addr) = self.get_in_overlay(address) {
            self.overlay_memory.read_byte(overlay_addr)
        } else {
            self.base_memory.read_byte(address)
        }
    }

    fn read_word(&self, address: Address) -> (r: Result<Word>) {
        proof {
            self.lemma_model_wf();
        }
        if address == 0xffff {
            // The high byte would lie past the 16-bit address space.
            return Err(Error::without_pc(ErrorType::AddressOutOfRange(address)));
        }
        let lo = self.read_byte(address);
        let hi = self.read_byte(address + 1);
        match (lo, hi) {
            (Ok(l), Ok(h)) => Ok(l as u16 + h as u16 * 256),
            _ => Err(Error::without_pc(ErrorType::AddressOutOfRange(address))),
        }
    }

    /// A write inside the window goes to the overlay and leaves the base
    /// alone; a write outside it goes to the base and leaves the overlay alone.
    fn write_byte(&mut self, address: Address, data: Byte) -> (r: Result<()>)
        ensures
            final(self).overlay_offset == old(self).overlay_offset,
            old(self).overlay_offset <= address < old(self).overlay_offset
                + old(self).overlay_memory.model().length ==> {
                &&& final(self).base_memory == old(self).base_memory
                &&& (final(self).overlay_memory.model(), r) == old(
                    self,
                ).overlay_memory.model().write_byte((address - old(self).overlay_offset) as u16, data)
            },
            !(old(self).overlay_offset <= address < old(self).overlay_offset
                + old(self).overlay_memory.model().length) ==> {
                &&& final(self).overlay_memory == old(self).overlay_memory
                &&& (final(self).base_memory.model(), r) == old(
                    self,
                ).base_memory.model().write_byte(address, data)
            },
    {
        proof {
            self.lemma_window(address);
        }
        let ghost before = self.model();
        if let Some(overlay_addr) = self.get_in_overlay(address) {
            let r = self.overlay_memory.write_byte(overlay_addr, data);
            proof {
                self.overlay_memory.lemma_model_wf();
                assert(self.model().cells =~= before.store(address, data).cells);
            }
            r
        } else {
            let r = self.base_memory.write_byte(address, data);
            proof {
                self.base_memory.lemma_model_wf();
                assert(self.model().cells =~= before.store(address, data).cells);
            }
            r
        }
    }

    /// A word whose two bytes lie inside the window leaves the base alone; one
    /// whose two bytes lie outside it leaves the overlay alone.
    fn write_word(&mut self, address: Address, data: Word) -> (r: Result<()>)
        ensures
            final(self).overlay_offset == old(self).overlay_offset,
            old(self).overlay_offset <= address && address + 1 < old(self).overlay_offset
                + old(self).overlay_memory.model().length ==> final(self).base_memory == old(
                self,
            ).base_memory,
            (address + 1 < old(self).overlay_offset || old(self).overlay_offset
                + old(self).overlay_memory.model().length <= address) ==> final(self).overlay_memory
                == old(self).overlay_memory,
    {
        let ghost before = self.model();
        proof {
            self.lemma_model_wf();
        }
        let lo = (data % 256) as u8;
        let hi = (data / 256) as u8;
        let stray = self.ignores_stray_writes();
        let backed = if self.length() < ADDRESS_SPACE {
            self.length()
        } else {
            ADDRESS_SPACE
        };
        let hi_index = address as usize + 1;
        if !(((address as usize) < backed || stray) && (hi_index < backed || stray)) {
            return Err(Error::without_pc(ErrorType::AddressOutOfRange(address)));
        }
        let r = self.write_byte(address, lo);
        proof {
            self.lemma_model_wf();
        }
        if address < 0xffff {
            let r2 = self.write_byte(address + 1, hi);
        }
        Ok(())
    }
}

} // verus!

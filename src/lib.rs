//! An interpreter core for the MOS 6502: a verified fetch / decode / resolve /
//! execute / writeback pipeline over a layered 16-bit memory.
pub mod cpu;
pub mod disassembler;
pub mod text;

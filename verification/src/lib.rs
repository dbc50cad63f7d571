//! An emulator core for the MOS 6502: registers, status flags, a 64 KiB
//! memory, the addressing modes and the instruction set, with every routine
//! verified against a mathematical model of the machine.

pub mod cpu;
pub mod instructions;
pub mod laws;
mod routines;
pub mod semantics;
pub mod word;

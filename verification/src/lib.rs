//! Instruction-set simulator for the Game Boy's 8-bit CPU core: the register
//! file with its flag semantics, the opcode decoder, the memory bus with its
//! boot-ROM overlay, the interrupt controller, and the fetch-decode-execute
//! engine, each with a verified contract over a mathematical machine model.

pub mod words;
pub mod registers;
pub mod instructions;
pub mod interrupts;
pub mod bus;
pub mod alu;
pub mod cpu;
pub mod laws;

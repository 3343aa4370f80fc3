//! Instruction-execution core of an LR35902-class 8-bit CPU: register file,
//! flat 64 KiB memory, arithmetic/logic unit and the opcode decoder/executor.
pub mod registers;
pub mod mmu;
pub mod alu;
pub mod cpu;

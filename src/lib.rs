//! Instruction-execution core of a Sharp LR35902, the 8-bit processor of a
//! 1989 handheld console: registers and flags, the arithmetic primitives, the
//! opcode handlers, the two 256-entry opcode tables and the fetch-execute step.
pub mod flags;
pub mod memory;
pub mod cpu;
pub mod alu;
pub mod load;
pub mod arith;
pub mod control;
pub mod bits;
pub mod effects;
pub mod dispatch;
pub mod laws;

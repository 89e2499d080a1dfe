//! The CPU core: decode table, execution engine and instruction semantics.

pub mod opcode;
pub mod state;
pub mod cpu;
pub mod instructions;

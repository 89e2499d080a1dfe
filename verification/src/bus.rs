//! Grouping of the CPU with the work RAM it shares the address space with.

pub mod bus;

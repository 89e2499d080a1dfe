//! An emulator core for the MOS 6502 derivative found in the NES.

pub mod utils;

pub mod bus;
pub mod cpu;
pub mod nes;
pub mod rom;
pub mod memory;
pub mod ram;

//! The console: a CPU at power-up, the parsed cartridge, and the work RAM.

use vstd::prelude::*;

use crate::cpu::cpu::CPU;
use crate::memory::Memory;
use crate::ram::{RAM, RAM_SIZE};
use crate::rom::{rom_well_formed, ROMReadError, ROM};

verus! {

/// A whole console, assembled from a cartridge image's bytes.
pub struct NES {
    /// The CPU, at its power-up state over zeroed memory.
    pub cpu: CPU,
    /// The cartridge, or why its image could not be parsed.
    pub rom: Result<ROM, ROMReadError>,
    /// The 2 KB of work RAM, zeroed.
    pub wram: RAM,
}

impl NES {
    /// Builds a console from a cartridge image's bytes: a powered-up CPU
    /// over zeroed memory, the parsed cartridge, and zeroed work RAM.
    pub fn new(data: &Vec<u8>) -> (r: NES)
        ensures
            r.cpu.wf(),
            r.cpu@.a == 0 && r.cpu@.x == 0 && r.cpu@.y == 0,
            r.cpu@.p == 0x34u8 && r.cpu@.sp == 0xfdu8 && r.cpu@.pc == 0u16,
            forall|a: int| 0 <= a < crate::memory::MEMORY_SIZE ==> r.cpu@.mem[a] == 0u8,
            r.rom is Ok <==> rom_well_formed(data@),
            r.wram.wf(),
            forall|a: int| 0 <= a < RAM_SIZE ==> r.wram@[a] == 0u8,
    {
        NES { cpu: CPU::new(Memory::new()), rom: ROM::load(data), wram: RAM::new() }
    }
}

} // verus!

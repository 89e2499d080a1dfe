//! The bus as an owner of the chips on it.

use vstd::prelude::*;

use crate::cpu::cpu::CPU;
use crate::ram::RAM;

verus! {

/// The CPU and the work RAM, owned together so that exactly one component
/// drives the address space during an instruction.
pub struct Bus {
    pub cpu: CPU,
    pub wram: RAM,
}

impl Bus {
    /// Assembles a bus from its chips.
    pub fn new(cpu: CPU, wram: RAM) -> (r: Bus)
        ensures
            r.cpu == cpu,
            r.wram == wram,
    {
        Bus { cpu, wram }
    }
}

} // verus!

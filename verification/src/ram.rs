//! The console's 2 KB of work RAM, as a component of its own.
//!
//! The CPU core itself executes against the full bus (`crate::memory`); this
//! type models the physical RAM chip that a bus implementation maps into the
//! address space.

use vstd::prelude::*;

verus! {

/// The number of bytes of work RAM.
pub const RAM_SIZE: usize = 0x800;

/// A 2 KB random-access memory.
pub struct RAM {
    pub data: Vec<u8>,
}

impl View for RAM {
    type V = Seq<u8>;

    open spec fn view(&self) -> Seq<u8> {
        self.data@
    }
}

impl RAM {
    /// The RAM holds exactly its 2 KB.
    pub open spec fn wf(&self) -> bool {
        self@.len() == RAM_SIZE
    }

    /// A RAM of all zero bytes.
    pub fn new() -> (r: RAM)
        ensures
            r.wf(),
            forall|a: int| 0 <= a < RAM_SIZE ==> r@[a] == 0u8,
    {
        let data: Vec<u8> = vec![0u8; RAM_SIZE];
        RAM { data }
    }

    /// Reads the byte at `address`.
    pub fn read_byte(&self, address: u16) -> (r: u8)
        requires
            self.wf(),
            address < RAM_SIZE,
        ensures
            r == self@[address as int],
    {
        self.data[address as usize]
    }

    /// Reads the little-endian word at `address`.
    pub fn read_word(&self, address: u16) -> (r: u16)
        requires
            self.wf(),
            address + 1 < RAM_SIZE,
        ensures
            r == self@[address as int] + self@[address + 1] * 0x100,
    {
        let lower_byte = self.data[address as usize] as u16;
        let upper_byte = self.data[address as usize + 1] as u16;
        upper_byte * 0x100 + lower_byte
    }

    /// Writes `byte` at `address`; every other byte keeps its value.
    pub fn write(&mut self, address: u16, byte: u8)
        requires
            old(self).wf(),
            address < RAM_SIZE,
        ensures
            final(self).wf(),
            final(self)@ == old(self)@.update(address as int, byte),
    {
        self.data[address as usize] = byte;
    }
}

} // verus!

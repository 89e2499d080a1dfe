//! The memory bus the CPU core executes against: a byte-addressable 16-bit
//! address space.
//!
//! Addressing wraps within the 64 KB space — no address is out of bounds at
//! this layer.  Words are little-endian: the low byte sits at the given
//! address and the high byte at the following one.

use vstd::prelude::*;

verus! {

/// The number of addressable bytes: the full 16-bit address space.
pub const MEMORY_SIZE: usize = 0x10000;

/// The address after `addr`, wrapping within the 64 KB space.
pub open spec fn spec_next_addr(addr: u16) -> u16 {
    if addr == 0xffff {
        0u16
    } else {
        (addr + 1) as u16
    }
}

/// The little-endian word at `addr`: low byte there, high byte at the
/// following address (wrapping within the space).
pub open spec fn spec_read_word(mem: Seq<u8>, addr: u16) -> u16 {
    (mem[addr as int] + mem[spec_next_addr(addr) as int] * 0x100) as u16
}

/// A byte-addressable 64 KB memory.
pub struct Memory {
    pub data: Vec<u8>,
}

impl View for Memory {
    type V = Seq<u8>;

    open spec fn view(&self) -> Seq<u8> {
        self.data@
    }
}

impl Memory {
    /// The memory covers the whole 16-bit address space.
    pub open spec fn wf(&self) -> bool {
        self@.len() == MEMORY_SIZE
    }

    /// A memory of all zero bytes.
    pub fn new() -> (r: Memory)
        ensures
            r.wf(),
            forall|a: int| 0 <= a < MEMORY_SIZE ==> r@[a] == 0u8,
    {
        let data: Vec<u8> = vec![0u8; MEMORY_SIZE];
        Memory { data }
    }

    /// Reads the byte at `address`.
    pub fn read_byte(&self, address: u16) -> (r: u8)
        requires
            self.wf(),
        ensures
            r == self@[address as int],
    {
        self.data[address as usize]
    }

    /// Reads the little-endian word at `address`; the high byte comes from
    /// the following address, wrapping within the 64 KB space.
    pub fn read_word(&self, address: u16) -> (r: u16)
        requires
            self.wf(),
        ensures
            r == spec_read_word(self@, address),
    {
        let lower_byte = self.data[address as usize] as u16;
        let upper_addr: u16 = if address == 0xffff {
            0
        } else {
            address + 1
        };
        let upper_byte = self.data[upper_addr as usize] as u16;
        upper_byte * 0x100 + lower_byte
    }

    /// Writes `byte` at `address`; every other byte keeps its value.
    pub fn write(&mut self, address: u16, byte: u8)
        requires
            old(self).wf(),
        ensures
            final(self).wf(),
            final(self)@ == old(self)@.update(address as int, byte),
    {
        self.data[address as usize] = byte;
    }
}

} // verus!

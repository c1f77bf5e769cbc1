//! The memory that the processor addresses: a flat array with one byte for
//! each 16-bit address.

use vstd::prelude::*;

verus! {

/// Number of bytes of memory: the whole range of a 16-bit address, so that
/// every effective address is a valid index.
pub const MEMORY_SIZE: usize = 0x10000;

/// The memory, reached by indexed reads and writes.
pub struct Memory {
    bytes: [u8; MEMORY_SIZE],
}

impl View for Memory {
    type V = Seq<u8>;

    /// The contents, one byte for each address from 0 to `0xFFFF`.
    open spec fn view(&self) -> Seq<u8> {
        Seq::new(MEMORY_SIZE as nat, |addr: int| self.contents()[addr])
    }
}

impl Memory {
    /// The bytes as they are stored.
    pub closed spec fn contents(&self) -> Seq<u8> {
        self.bytes@
    }

    /// A memory in which every byte is 0.
    pub fn new() -> (mem: Memory)
        ensures
            mem@ == Seq::new(MEMORY_SIZE as nat, |addr: int| 0u8),
    {
        Memory { bytes: [0u8;MEMORY_SIZE] }
    }

    /// Reads the byte at an address.
    pub fn read(&self, addr: u16) -> (value: u8)
        ensures
            value == self@[addr as int],
    {
        self.bytes[addr as usize]
    }

    /// Writes the byte at an address.
    pub fn write(&mut self, addr: u16, value: u8)
        ensures
            final(self)@ == old(self)@.update(addr as int, value),
    {
        self.bytes[addr as usize] = value;
    }
}

} // verus!

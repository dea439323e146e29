//! The memory bus: a byte-addressable 64 KiB surface.
//!
//! The core only needs a read/write contract over the full 16-bit address
//! space; bank switching and I/O-register redirection belong to the external
//! memory controller, not here.

use vstd::prelude::*;

verus! {

/// The number of addressable bytes: the full 16-bit address space.
pub const MEMORY_SIZE: usize = 0x10000;

/// A byte-addressable memory of exactly `MEMORY_SIZE` bytes.
pub struct MemoryBus {
    pub memory: Vec<u8>,
}

impl MemoryBus {
    /// Well-formedness: the backing storage covers the whole address space,
    /// so every 16-bit address is in range.
    pub open spec fn wf(&self) -> bool {
        self.memory@.len() == MEMORY_SIZE
    }

    /// A memory image with every byte zero.
    pub fn new() -> (r: MemoryBus)
        ensures
            r.wf(),
            forall|i: int| 0 <= i < MEMORY_SIZE ==> r.memory@[i] == 0,
    {
        let mut memory: Vec<u8> = Vec::new();
        while memory.len() < MEMORY_SIZE
            invariant
                memory@.len() <= MEMORY_SIZE,
                forall|i: int| 0 <= i < memory@.len() ==> memory@[i] == 0,
            decreases MEMORY_SIZE - memory@.len(),
        {
            memory.push(0);
        }
        MemoryBus { memory }
    }

    /// Reads the byte at an address; total over the 16-bit address space.
    pub fn read_byte(&self, address: u16) -> (r: u8)
        requires
            self.wf(),
        ensures
            r == self.memory@[address as int],
    {
        self.memory[address as usize]
    }

    /// Writes one byte at an address; every other byte is unchanged.
    pub fn write_byte(&mut self, address: u16, value: u8)
        requires
            old(self).wf(),
        ensures
            final(self).wf(),
            final(self).memory@ == old(self).memory@.update(address as int, value),
    {
        self.memory[address as usize] = value;
    }
}

} // verus!

use vstd::prelude::*;

verus! {

pub const MEMORY_MAP_LENGTH: usize = 65536;

/// A flat map of the 64 KiB address space.
pub struct Memory {
    pub map: [u8; MEMORY_MAP_LENGTH],
}

impl Memory {
    /// A memory map that holds only zeros.
    pub fn new() -> (m: Memory)
        ensures
            forall|i: int| 0 <= i < MEMORY_MAP_LENGTH ==> m.map@[i] == 0,
    {
        Memory { map: [0u8; MEMORY_MAP_LENGTH] }
    }

    /// Sets every byte back to zero.
    pub fn reset(&mut self)
        ensures
            forall|i: int| 0 <= i < MEMORY_MAP_LENGTH ==> final(self).map@[i] == 0,
    {
        self.map = [0u8; MEMORY_MAP_LENGTH];
    }

    /// Writes `value` at `address`.
    pub fn set(&mut self, address: usize, value: u8)
        requires
            address < MEMORY_MAP_LENGTH,
        ensures
            final(self).map@ == old(self).map@.update(address as int, value),
    {
        self.map[address] = value;
    }
}

} // verus!

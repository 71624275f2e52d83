use vstd::prelude::*;
use crate::bus::{Bus, Readable};
use crate::processor::register::{Register, wrap16};

verus! {

/// The program counter.
pub struct ProgramCounter {
    value: u16,
}

impl View for ProgramCounter {
    type V = u16;

    closed spec fn view(&self) -> u16 {
        self.value
    }
}

impl ProgramCounter {
    /// Execution starts at 0x100, the cartridge's entry point.
    pub fn new() -> (r: ProgramCounter)
        ensures
            r@ == 0x100,
    {
        ProgramCounter { value: 0x100 }
    }

    /// Reads the byte the counter points at, then steps the counter.
    pub fn fetch<H: Bus>(&mut self, bus: &H) -> (r: u8)
        ensures
            r == H::spec_read(bus@, old(self)@),
            final(self)@ == wrap16(old(self)@ + 1),
    {
        let value = bus.read(self.value);
        self.increment();
        value
    }

    /// Reads the byte the counter points at.
    pub fn peek<H: Bus>(&mut self, bus: &H) -> (r: u8)
        ensures
            r == H::spec_read(bus@, old(self)@),
            final(self)@ == old(self)@,
    {
        bus.read(self.value)
    }

    /// Reads the little-endian 16-bit value the counter points at; the counter must not
    /// be at the last address.
    pub fn peek16<H: Bus>(&mut self, bus: &H) -> (r: u16)
        requires
            old(self)@ < 0xFFFF,
        ensures
            r == H::spec_read(bus@, (old(self)@ + 1) as u16) * 256 + H::spec_read(bus@, old(self)@),
            final(self)@ == old(self)@,
    {
        proof {
            crate::processor::register::lemma_byte_ops();
        }
        ((bus.read(self.value + 1) as u16) << 8u16) | (bus.read(self.value) as u16)
    }
}

impl Register for ProgramCounter {
    fn get(&self) -> (r: u16) {
        self.value
    }

    fn set(&mut self, value: u16) {
        self.value = value
    }

    fn increment(&mut self) {
        self.value = self.value.wrapping_add(1);
    }

    fn decrement(&mut self) {
        self.value = self.value.wrapping_sub(1);
    }
}

} // verus!

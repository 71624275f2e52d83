use vstd::prelude::*;
use crate::bus::{Bus, FlatBus, Readable, Writable};
use crate::processor::register::{Register, wrap16, high_byte, low_byte};

verus! {

/// The stack pointer. The stack grows downwards, 16 bits at a time, high byte first.
pub struct StackPointer {
    value: u16,
}

impl View for StackPointer {
    type V = u16;

    closed spec fn view(&self) -> u16 {
        self.value
    }
}

/// The bus after pushing `value` with the stack pointer at `sp`.
pub open spec fn spec_push<H: Bus>(bus: H::V, sp: u16, value: u16) -> H::V {
    H::spec_write(
        H::spec_write(bus, wrap16(sp - 1), high_byte(value)),
        wrap16(sp - 2),
        low_byte(value),
    )
}

/// The value popped with the stack pointer at `sp`.
pub open spec fn spec_pop<H: Bus>(bus: H::V, sp: u16) -> u16 {
    (H::spec_read(bus, wrap16(sp + 1)) * 256 + H::spec_read(bus, sp)) as u16
}

impl StackPointer {
    /// The stack starts at 0xFFFE, the top of high RAM.
    pub fn new() -> (r: StackPointer)
        ensures
            r@ == 0xFFFE,
    {
        StackPointer { value: 0xFFFE }
    }

    /// Reads the byte on top of the stack.
    pub fn peek<H: Bus>(&mut self, bus: &H) -> (r: u8)
        ensures
            r == H::spec_read(bus@, old(self)@),
            final(self)@ == old(self)@,
    {
        bus.read(self.value)
    }

    /// Pushes the high byte, then the low byte, of `value`.
    pub fn push<H: Bus>(&mut self, bus: &mut H, value: u16)
        ensures
            final(self)@ == wrap16(old(self)@ - 2),
            final(bus)@ == spec_push::<H>(old(bus)@, old(self)@, value),
    {
        proof {
            crate::processor::register::lemma_byte_ops();
        }
        self.decrement();
        bus.write(self.value, (value >> 8u16) as u8);
        self.decrement();
        bus.write(self.value, value as u8);
    }

    /// Pops the low byte, then the high byte, of a 16-bit value.
    pub fn pop<H: Bus>(&mut self, bus: &H) -> (r: u16)
        ensures
            final(self)@ == wrap16(old(self)@ + 2),
            r == spec_pop::<H>(bus@, old(self)@),
    {
        let low = bus.read(self.value) as u16;
        self.increment();
        let high = bus.read(self.value) as u16;
        self.increment();
        proof {
            crate::processor::register::lemma_byte_ops();
        }
        let r = low | (high << 8u16);
        assert(r == high * 256 + low) by (bit_vector)
            requires
                low < 256,
                high < 256,
                r == low | (high << 8u16),
        ;
        r
    }
}

impl Register for StackPointer {
    fn get(&self) -> (r: u16) {
        self.value
    }

    fn set(&mut self, value: u16) {
        self.value = value;
    }

    fn increment(&mut self) {
        self.value = self.value.wrapping_add(1);
    }

    fn decrement(&mut self) {
        self.value = self.value.wrapping_sub(1);
    }
}

/// On a bus that reads back what was written (a flat memory), a pop just after a push
/// gives back the value pushed.
pub proof fn lemma_stack_round_trip(memory: (Seq<u8>, bool), sp: u16, value: u16)
    requires
        memory.0.len() == 65536,
    ensures
        spec_pop::<FlatBus>(spec_push::<FlatBus>(memory, sp, value), wrap16(sp - 2)) == value,
{
    crate::processor::register::lemma_byte_ops();
    let pushed = spec_push::<FlatBus>(memory, sp, value);
    assert(wrap16(wrap16(sp - 2) + 1) == wrap16(sp - 1));
    assert(wrap16(sp - 2) != wrap16(sp - 1));
    assert(FlatBus::spec_read(pushed, wrap16(sp - 2)) == low_byte(value));
    assert(FlatBus::spec_read(pushed, wrap16(sp - 1)) == high_byte(value));
}

} // verus!

use vstd::prelude::*;
use crate::processor::interrupt::Interrupt;

verus! {

/// Something that answers reads in the 16-bit address space.
pub trait Readable: View + Sized {
    /// The byte read at `address` in state `v`.
    spec fn spec_read(v: Self::V, address: u16) -> u8;

    fn read(&self, address: u16) -> (r: u8)
        ensures
            r == Self::spec_read(self@, address),
    ;
}

/// Something that takes writes in the 16-bit address space.
pub trait Writable: View + Sized {
    /// The state after writing `value` at `address` in state `v`.
    spec fn spec_write(v: Self::V, address: u16, value: u8) -> Self::V;

    fn write(&mut self, address: u16, value: u8)
        ensures
            final(self)@ == Self::spec_write(old(self)@, address, value),
    ;
}

/// The memory bus seen by the processor: reads, writes and the interrupt lines.
pub trait Bus: Readable + Writable {
    /// The requested and enabled interrupt of highest priority, whatever the master flag.
    spec fn spec_pending_interrupt(v: Self::V) -> Option<Interrupt>;

    /// The interrupt master enable flag.
    spec fn spec_master_interrupt_enable(v: Self::V) -> bool;

    /// The state with the master flag set to `value`.
    spec fn spec_toggle_interrupts(v: Self::V, value: bool) -> Self::V;

    /// The state once `interrupt` is taken by the processor.
    spec fn spec_service_interrupt(v: Self::V, interrupt: Interrupt) -> Self::V;

    /// The state with `interrupt` requested.
    spec fn spec_request_interrupt(v: Self::V, interrupt: Interrupt) -> Self::V;

    fn pending_interrupt(&self) -> (r: Option<Interrupt>)
        ensures
            r == Self::spec_pending_interrupt(self@),
    ;

    fn master_interrupt_enable(&self) -> (r: bool)
        ensures
            r == Self::spec_master_interrupt_enable(self@),
    ;

    fn toggle_interrupts(&mut self, value: bool)
        ensures
            final(self)@ == Self::spec_toggle_interrupts(old(self)@, value),
    ;

    fn service_interrupt(&mut self, interrupt: Interrupt)
        ensures
            final(self)@ == Self::spec_service_interrupt(old(self)@, interrupt),
    ;

    fn request_interrupt(&mut self, interrupt: Interrupt)
        ensures
            final(self)@ == Self::spec_request_interrupt(old(self)@, interrupt),
    ;
}

/// A bus backed by a flat 64 KiB memory and a master interrupt flag, on which no
/// interrupt is ever pending.
pub struct FlatBus {
    pub memory: [u8; 65536],
    pub interrupts_enabled: bool,
}

impl FlatBus {
    /// A bus whose memory holds only zeros, with interrupts disabled.
    pub fn new() -> (r: FlatBus)
        ensures
            forall|i: int| 0 <= i < 65536 ==> r.memory@[i] == 0,
            !r.interrupts_enabled,
    {
        FlatBus { memory: [0u8; 65536], interrupts_enabled: false }
    }
}

impl View for FlatBus {
    type V = (Seq<u8>, bool);

    open spec fn view(&self) -> (Seq<u8>, bool) {
        (self.memory@, self.interrupts_enabled)
    }
}

impl Readable for FlatBus {
    open spec fn spec_read(v: (Seq<u8>, bool), address: u16) -> u8 {
        v.0[address as int]
    }

    fn read(&self, address: u16) -> (r: u8) {
        self.memory[address as usize]
    }
}

impl Writable for FlatBus {
    open spec fn spec_write(v: (Seq<u8>, bool), address: u16, value: u8) -> (Seq<u8>, bool) {
        (v.0.update(address as int, value), v.1)
    }

    fn write(&mut self, address: u16, value: u8) {
        self.memory[address as usize] = value;
    }
}

impl Bus for FlatBus {
    open spec fn spec_pending_interrupt(v: (Seq<u8>, bool)) -> Option<Interrupt> {
        None
    }

    open spec fn spec_master_interrupt_enable(v: (Seq<u8>, bool)) -> bool {
        v.1
    }

    open spec fn spec_toggle_interrupts(v: (Seq<u8>, bool), value: bool) -> (Seq<u8>, bool) {
        (v.0, value)
    }

    open spec fn spec_service_interrupt(v: (Seq<u8>, bool), interrupt: Interrupt) -> (Seq<u8>, bool) {
        v
    }

    open spec fn spec_request_interrupt(v: (Seq<u8>, bool), interrupt: Interrupt) -> (Seq<u8>, bool) {
        v
    }

    fn pending_interrupt(&self) -> (r: Option<Interrupt>) {
        None
    }

    fn master_interrupt_enable(&self) -> (r: bool) {
        self.interrupts_enabled
    }

    fn toggle_interrupts(&mut self, value: bool) {
        self.interrupts_enabled = value;
    }

    fn service_interrupt(&mut self, interrupt: Interrupt) {
    }

    fn request_interrupt(&mut self, interrupt: Interrupt) {
    }
}

} // verus!

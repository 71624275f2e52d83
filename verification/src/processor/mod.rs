pub mod alu_runs;
pub mod decoder;
pub mod flag_register;
pub mod instruction;
pub mod interrupt;
pub mod lr35902;
pub mod program_counter;
pub mod register;
pub mod registers;
pub mod stack_pointer;

use vstd::prelude::*;
use crate::processor::registers::{RegisterFile, Registers};

verus! {

/// How the processor is halted.
#[derive(Copy, Clone, Debug, PartialEq, Eq, Structural)]
pub enum HaltMode {
    /// Halted until an interrupt is pending.
    Normal,
    /// `HALT` ran with interrupts disabled and one pending: the next instruction is
    /// executed twice.
    Bugged,
    /// Not halted.
    Running,
}

/// The state of the processor.
pub struct ProcessorView {
    pub regs: RegisterFile,
    pub halt_mode: HaltMode,
    pub cycles_left: u8,
    pub pending_ei: bool,
}

/// The LR35902 processor: its registers and the state between instructions.
pub struct Processor {
    pub registers: Registers,
    halt_mode: HaltMode,
    cycles_left: u8,
    pending_ei: bool,
}

impl View for Processor {
    type V = ProcessorView;

    closed spec fn view(&self) -> ProcessorView {
        ProcessorView {
            regs: self.registers@,
            halt_mode: self.halt_mode,
            cycles_left: self.cycles_left,
            pending_ei: self.pending_ei,
        }
    }
}

impl Processor {
    /// The processor after boot.
    pub open spec fn new_view() -> ProcessorView {
        ProcessorView {
            regs: RegisterFile { af: 0, bc: 0, de: 0xFF56, hl: 0xD, sp: 0xFFFE, pc: 0x100 },
            halt_mode: HaltMode::Running,
            cycles_left: 0,
            pending_ei: false,
        }
    }

    /// A processor with the registers as after boot, running, with no instruction in
    /// progress.
    pub fn new() -> (r: Processor)
        ensures
            r@ == Processor::new_view(),
    {
        Processor {
            registers: Registers::new(),
            halt_mode: HaltMode::Running,
            cycles_left: 0,
            pending_ei: false,
        }
    }

    /// The cycles left before the next instruction starts.
    pub fn cycles_left(&self) -> (r: u8)
        ensures
            r == self@.cycles_left,
    {
        self.cycles_left
    }

    pub fn halt_mode(&self) -> (r: HaltMode)
        ensures
            r == self@.halt_mode,
    {
        self.halt_mode
    }
}

} // verus!

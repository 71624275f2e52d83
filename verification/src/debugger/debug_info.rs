use vstd::prelude::*;
use crate::processor::instruction::InstructionInfo;
use crate::processor::registers::Registers;

verus! {

/// What the debugger is shown before an instruction runs: the registers, the address of
/// the instruction and the instruction.
pub struct DebugInfo<'a> {
    pub registers: &'a Registers,
    pub line: u16,
    pub instruction: &'a InstructionInfo,
}

} // verus!

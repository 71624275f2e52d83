use vstd::prelude::*;
use crate::processor::flag_register::Flag;
use crate::processor::registers::{RegisterType, spec_is16bit};

verus! {

#[derive(Copy, Clone, Debug, PartialEq, Eq, Structural)]
pub enum InstructionMnemonic {
    LD,
    LDHL,
    LDI,
    LDD,
    PUSH,
    POP,
    ADD,
    ADC,
    SUB,
    SBC,
    AND,
    XOR,
    OR,
    CP,
    INC,
    DEC,
    DAA,
    CPL,
    RLCA,
    RLA,
    RRCA,
    RRA,
    RLC,
    RL,
    RRC,
    RR,
    SLA,
    SWAP,
    SRA,
    SRL,
    BIT,
    SET,
    RES,
    CCF,
    SCF,
    NOP,
    HALT,
    STOP,
    DI,
    EI,
    JP,
    JR,
    CALL,
    RET,
    RETI,
    RST,
    /// The 0xCB prefix: the next byte is an opcode of the extended table.
    CB,
}

/// How an address operand is found. The `Inc` forms add 0xFF00.
#[derive(Copy, Clone, Debug, PartialEq, Eq, Structural)]
pub enum AddressType {
    Register(RegisterType),
    IncRegister(RegisterType),
    /// A 16-bit address following the opcode.
    Immediate,
    /// An 8-bit offset from 0xFF00 following the opcode.
    IncImmediate,
}

/// A place an instruction writes to.
#[derive(Copy, Clone, Debug, PartialEq, Eq, Structural)]
pub enum Reference {
    Register(RegisterType),
    Address(AddressType),
}

pub open spec fn spec_reference_is16bit(reference: Reference) -> bool {
    match reference {
        Reference::Register(register) => spec_is16bit(register),
        Reference::Address(_) => false,
    }
}

impl Reference {
    /// Whether the reference names a 16-bit register.
    pub fn is16bit(&self) -> (r: bool)
        ensures
            r == spec_reference_is16bit(*self),
    {
        match self {
            Reference::Register(register) => register.is16bit(),
            Reference::Address(_) => false,
        }
    }
}

/// A value an instruction reads.
#[derive(Copy, Clone, Debug, PartialEq, Eq, Structural)]
pub enum ValueType {
    Constant(u16),
    Register(RegisterType),
    /// An 8-bit value following the opcode.
    Immediate,
    /// A 16-bit value following the opcode.
    Immediate16,
    /// The byte at an address.
    Address(AddressType),
}

#[derive(Copy, Clone, Debug, PartialEq, Eq, Structural)]
pub enum Operand {
    Reference(Reference),
    Value(ValueType),
    /// A flag and the value it must have for the instruction to take effect.
    Condition(Flag, bool),
}

/// Whether an opcode belongs to the base table or to the extended (0xCB) one.
#[derive(Copy, Clone, Debug, PartialEq, Eq, Structural)]
pub enum Prefix {
    Base,
    CB,
}

/// A decoded instruction.
pub struct InstructionInfo {
    opcode: u8,
    mnemonic: InstructionMnemonic,
    operands: Option<Vec<Operand>>,
    cycle_count: u8,
}

/// The mathematical content of a decoded instruction.
pub struct InstructionView {
    pub opcode: u8,
    pub mnemonic: InstructionMnemonic,
    pub operands: Option<Seq<Operand>>,
    pub cycle_count: u8,
}

impl View for InstructionInfo {
    type V = InstructionView;

    closed spec fn view(&self) -> InstructionView {
        InstructionView {
            opcode: self.opcode,
            mnemonic: self.mnemonic,
            operands: match self.operands {
                Some(v) => Some(v@),
                None => None,
            },
            cycle_count: self.cycle_count,
        }
    }
}

impl InstructionInfo {
    pub fn new(
        opcode: u8,
        mnemonic: InstructionMnemonic,
        operands: Option<Vec<Operand>>,
        cycle_count: u8,
    ) -> (r: InstructionInfo)
        ensures
            r@ == (InstructionView {
                opcode,
                mnemonic,
                operands: match operands {
                    Some(v) => Some(v@),
                    None => None,
                },
                cycle_count,
            }),
    {
        InstructionInfo { opcode, mnemonic, operands, cycle_count }
    }

    pub fn opcode(&self) -> (r: u8)
        ensures
            r == self@.opcode,
    {
        self.opcode
    }

    pub fn mnemonic(&self) -> (r: &InstructionMnemonic)
        ensures
            *r == self@.mnemonic,
    {
        &self.mnemonic
    }

    pub fn operands(&self) -> (r: &Option<Vec<Operand>>)
        ensures
            match *r {
                Some(v) => self@.operands == Some(v@),
                None => self@.operands is None,
            },
    {
        &self.operands
    }

    pub fn cycle_count(&self) -> (r: u8)
        ensures
            r == self@.cycle_count,
    {
        self.cycle_count
    }
}

} // verus!

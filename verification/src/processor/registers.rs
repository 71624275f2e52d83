use vstd::prelude::*;
use crate::processor::flag_register::{Flag, FlagRegister, flag_mask};
use crate::processor::program_counter::ProgramCounter;
use crate::processor::register::{
    DualRegister, Register, high_byte, low_byte, join_bytes, lemma_join_split,
};
use crate::processor::stack_pointer::StackPointer;

verus! {

pub const DEFAULT_BC: u16 = 0;

pub const DEFAULT_DE: u16 = 0xFF56;

pub const DEFAULT_HL: u16 = 0xD;

/// The registers that instructions name: the six 16-bit ones and the eight 8-bit halves.
#[derive(PartialEq, Eq, Copy, Clone, Debug, Structural)]
pub enum RegisterType {
    AF,
    A,
    F,
    BC,
    B,
    C,
    DE,
    D,
    E,
    HL,
    H,
    L,
    SP,
    PC,
}

pub open spec fn spec_is16bit(register: RegisterType) -> bool {
    match register {
        RegisterType::AF | RegisterType::BC | RegisterType::DE | RegisterType::HL
        | RegisterType::SP | RegisterType::PC => true,
        _ => false,
    }
}

impl RegisterType {
    pub fn is16bit(&self) -> (r: bool)
        ensures
            r == spec_is16bit(*self),
    {
        *self == RegisterType::AF || *self == RegisterType::BC || *self == RegisterType::DE
            || *self == RegisterType::HL || *self == RegisterType::SP || *self
            == RegisterType::PC
    }

    /// The register's name in lower case.
    pub fn name(&self) -> (r: &'static str)
        ensures
            r@ == register_name(*self),
    {
        match self {
            RegisterType::A => "a",
            RegisterType::F => "f",
            RegisterType::AF => "af",
            RegisterType::B => "b",
            RegisterType::C => "c",
            RegisterType::BC => "bc",
            RegisterType::D => "d",
            RegisterType::E => "e",
            RegisterType::DE => "de",
            RegisterType::H => "h",
            RegisterType::L => "l",
            RegisterType::HL => "hl",
            RegisterType::SP => "sp",
            RegisterType::PC => "pc",
        }
    }
}

/// The name of a register in lower case, as the debugger's prompt takes it.
pub open spec fn register_name(register: RegisterType) -> Seq<char> {
    match register {
        RegisterType::A => "a"@,
        RegisterType::F => "f"@,
        RegisterType::AF => "af"@,
        RegisterType::B => "b"@,
        RegisterType::C => "c"@,
        RegisterType::BC => "bc"@,
        RegisterType::D => "d"@,
        RegisterType::E => "e"@,
        RegisterType::DE => "de"@,
        RegisterType::H => "h"@,
        RegisterType::L => "l"@,
        RegisterType::HL => "hl"@,
        RegisterType::SP => "sp"@,
        RegisterType::PC => "pc"@,
    }
}

/// The values of the six 16-bit registers.
#[derive(PartialEq, Eq, Copy, Clone, Debug, Structural)]
pub struct RegisterFile {
    pub af: u16,
    pub bc: u16,
    pub de: u16,
    pub hl: u16,
    pub sp: u16,
    pub pc: u16,
}

/// The value of a register; an 8-bit register reads as its half of its pair.
pub open spec fn reg_value(rf: RegisterFile, register: RegisterType) -> u16 {
    match register {
        RegisterType::AF => rf.af,
        RegisterType::A => high_byte(rf.af) as u16,
        RegisterType::F => low_byte(rf.af) as u16,
        RegisterType::BC => rf.bc,
        RegisterType::B => high_byte(rf.bc) as u16,
        RegisterType::C => low_byte(rf.bc) as u16,
        RegisterType::DE => rf.de,
        RegisterType::D => high_byte(rf.de) as u16,
        RegisterType::E => low_byte(rf.de) as u16,
        RegisterType::HL => rf.hl,
        RegisterType::H => high_byte(rf.hl) as u16,
        RegisterType::L => low_byte(rf.hl) as u16,
        RegisterType::SP => rf.sp,
        RegisterType::PC => rf.pc,
    }
}

/// The registers with `register` set to `value`; an 8-bit register takes the low byte
/// of `value` and keeps the other half of its pair.
#[verifier::opaque]
pub open spec fn with_reg(rf: RegisterFile, register: RegisterType, value: u16) -> RegisterFile {
    let v = low_byte(value);
    match register {
        RegisterType::AF => RegisterFile { af: value, ..rf },
        RegisterType::A => RegisterFile { af: join_bytes(v, low_byte(rf.af)), ..rf },
        RegisterType::F => RegisterFile { af: join_bytes(high_byte(rf.af), v), ..rf },
        RegisterType::BC => RegisterFile { bc: value, ..rf },
        RegisterType::B => RegisterFile { bc: join_bytes(v, low_byte(rf.bc)), ..rf },
        RegisterType::C => RegisterFile { bc: join_bytes(high_byte(rf.bc), v), ..rf },
        RegisterType::DE => RegisterFile { de: value, ..rf },
        RegisterType::D => RegisterFile { de: join_bytes(v, low_byte(rf.de)), ..rf },
        RegisterType::E => RegisterFile { de: join_bytes(high_byte(rf.de), v), ..rf },
        RegisterType::HL => RegisterFile { hl: value, ..rf },
        RegisterType::H => RegisterFile { hl: join_bytes(v, low_byte(rf.hl)), ..rf },
        RegisterType::L => RegisterFile { hl: join_bytes(high_byte(rf.hl), v), ..rf },
        RegisterType::SP => RegisterFile { sp: value, ..rf },
        RegisterType::PC => RegisterFile { pc: value, ..rf },
    }
}

/// The flag byte (F).
pub open spec fn flags_of(rf: RegisterFile) -> u8 {
    low_byte(rf.af)
}

/// Whether a flag is set.
pub open spec fn flag_value(rf: RegisterFile, flag: Flag) -> bool {
    flags_of(rf) & flag_mask(flag) != 0
}

/// The registers with the flag byte replaced.
pub open spec fn with_flags(rf: RegisterFile, flags: u8) -> RegisterFile {
    RegisterFile { af: join_bytes(high_byte(rf.af), flags), ..rf }
}

/// The registers with one flag set to `value`.
#[verifier::opaque]
pub open spec fn with_flag(rf: RegisterFile, flag: Flag, value: bool) -> RegisterFile {
    with_flags(
        rf,
        if value {
            flags_of(rf) | flag_mask(flag)
        } else {
            flags_of(rf) & !flag_mask(flag)
        },
    )
}

/// The registers of the processor.
pub struct Registers {
    pub af: FlagRegister,
    pub bc: DualRegister,
    pub de: DualRegister,
    pub hl: DualRegister,
    pub stack_pointer: StackPointer,
    pub program_counter: ProgramCounter,
}

impl View for Registers {
    type V = RegisterFile;

    open spec fn view(&self) -> RegisterFile {
        RegisterFile {
            af: self.af@,
            bc: self.bc@,
            de: self.de@,
            hl: self.hl@,
            sp: self.stack_pointer@,
            pc: self.program_counter@,
        }
    }
}

impl Registers {
    pub fn new() -> (r: Registers)
        ensures
            r@ == (RegisterFile {
                af: 0,
                bc: DEFAULT_BC,
                de: DEFAULT_DE,
                hl: DEFAULT_HL,
                sp: 0xFFFE,
                pc: 0x100,
            }),
    {
        Registers {
            af: FlagRegister::new(),
            bc: DualRegister::from(DEFAULT_BC),
            de: DualRegister::from(DEFAULT_DE),
            hl: DualRegister::from(DEFAULT_HL),
            stack_pointer: StackPointer::new(),
            program_counter: ProgramCounter::new(),
        }
    }

    pub fn reg(&self, register: RegisterType) -> (r: u16)
        ensures
            r == reg_value(self@, register),
    {
        proof {
            lemma_join_split();
        }
        match register {
            RegisterType::AF => self.af.register().get(),
            RegisterType::BC => self.bc.get(),
            RegisterType::DE => self.de.get(),
            RegisterType::HL => self.hl.get(),
            RegisterType::SP => self.stack_pointer.get(),
            RegisterType::PC => self.program_counter.get(),
            RegisterType::A => self.af.accumulator().get() as u16,
            RegisterType::F => self.af.flags().get() as u16,
            RegisterType::B => self.bc.high.get() as u16,
            RegisterType::C => self.bc.low.get() as u16,
            RegisterType::D => self.de.high.get() as u16,
            RegisterType::E => self.de.low.get() as u16,
            RegisterType::H => self.hl.high.get() as u16,
            RegisterType::L => self.hl.low.get() as u16,
        }
    }

    pub fn set_reg(&mut self, register: RegisterType, value: u16)
        ensures
            final(self)@ == with_reg(old(self)@, register, value),
    {
        proof {
            lemma_join_split();
            crate::processor::register::lemma_byte_ops();
            reveal(with_reg);
        }
        let byte = value as u8;
        match register {
            RegisterType::A => {
                self.af.set_accumulator(byte);
            },
            RegisterType::F => {
                self.af.set_flags(byte);
            },
            RegisterType::AF => {
                self.af.set(value);
            },
            RegisterType::B => {
                self.bc.high.set(byte);
            },
            RegisterType::C => {
                self.bc.low.set(byte);
            },
            RegisterType::BC => {
                self.bc.set(value);
            },
            RegisterType::D => {
                self.de.high.set(byte);
            },
            RegisterType::E => {
                self.de.low.set(byte);
            },
            RegisterType::DE => {
                self.de.set(value);
            },
            RegisterType::H => {
                self.hl.high.set(byte);
            },
            RegisterType::L => {
                self.hl.low.set(byte);
            },
            RegisterType::HL => {
                self.hl.set(value);
            },
            RegisterType::PC => self.program_counter.set(value),
            RegisterType::SP => self.stack_pointer.set(value),
        }
    }
}


/// Setting a flag sets that flag, keeps the other flags and A, and keeps the other
/// registers.
pub proof fn lemma_with_flag_effect(rf: RegisterFile, flag: Flag, value: bool)
    ensures
        flag_value(with_flag(rf, flag, value), flag) == value,
        forall|other: Flag| other != flag ==> #[trigger] flag_value(with_flag(rf, flag, value), other)
            == flag_value(rf, other),
        high_byte(with_flag(rf, flag, value).af) == high_byte(rf.af),
        with_flag(rf, flag, value).bc == rf.bc,
        with_flag(rf, flag, value).de == rf.de,
        with_flag(rf, flag, value).hl == rf.hl,
        with_flag(rf, flag, value).sp == rf.sp,
        with_flag(rf, flag, value).pc == rf.pc,
{
    reveal(with_flag);
    crate::processor::register::lemma_join_split();
    let f = flags_of(rf);
    let m = flag_mask(flag);
    assert(((f | m) & m != 0) && (f & !m) & m == 0) by (bit_vector)
        requires
            m == 16 || m == 32 || m == 64 || m == 128,
    ;
    assert forall|other: Flag| other != flag implies #[trigger] flag_value(with_flag(rf, flag, value), other)
        == flag_value(rf, other) by {
        let n = flag_mask(other);
        assert(((f | m) & n != 0) == (f & n != 0) && ((f & !m) & n != 0) == (f & n != 0)) by (bit_vector)
            requires
                m == 16 || m == 32 || m == 64 || m == 128,
                n == 16 || n == 32 || n == 64 || n == 128,
                m != n,
        ;
    }
}

/// Setting A to `value` puts its low byte in A and keeps the flags and the other
/// registers.
pub proof fn lemma_with_a_effect(rf: RegisterFile, value: u16)
    ensures
        high_byte(with_reg(rf, RegisterType::A, value).af) == low_byte(value),
        flags_of(with_reg(rf, RegisterType::A, value)) == flags_of(rf),
        with_reg(rf, RegisterType::A, value).bc == rf.bc,
        with_reg(rf, RegisterType::A, value).de == rf.de,
        with_reg(rf, RegisterType::A, value).hl == rf.hl,
        with_reg(rf, RegisterType::A, value).sp == rf.sp,
        with_reg(rf, RegisterType::A, value).pc == rf.pc,
{
    reveal(with_reg);
    crate::processor::register::lemma_join_split();
}

} // verus!

use vstd::prelude::*;
use crate::processor::register::{
    DualRegister, SingleRegister, high_byte, low_byte, join_bytes, lemma_join_split,
};
use crate::util::bitflags::Bitflags;

verus! {

/// The four flags of the F register.
#[derive(Copy, Clone, Debug, PartialEq, Eq, Structural)]
pub enum Flag {
    /// Set when an addition goes past 0xFF (or 0xFFFF), or a subtraction borrows.
    Carry,
    HalfCarry,
    AddSub,
    /// Set when a result is zero.
    Zero,
}

/// The bit of a flag in the F register.
pub open spec fn flag_mask(flag: Flag) -> u8 {
    match flag {
        Flag::Carry => 16,
        Flag::HalfCarry => 32,
        Flag::AddSub => 64,
        Flag::Zero => 128,
    }
}

impl Flag {
    pub fn mask(&self) -> (r: u8)
        ensures
            r == flag_mask(*self),
    {
        match self {
            Flag::Carry => 16,
            Flag::HalfCarry => 32,
            Flag::AddSub => 64,
            Flag::Zero => 128,
        }
    }
}

/// Whether adding `a` and `b` carries out of the low nibble.
pub open spec fn spec_half_carry_add(a: u8, b: u8) -> bool {
    (a % 16) + (b % 16) > 15
}

/// Whether adding `a` and `b` carries out of the byte.
pub open spec fn spec_carry_add(a: u8, b: u8) -> bool {
    a + b > 255
}

/// Whether adding `a` and `b` carries out of the low 12 bits.
pub open spec fn spec_half_carry_add16(a: u16, b: u16) -> bool {
    (a % 4096) + (b % 4096) > 4095
}

/// Whether subtracting `b` from `a` borrows from the high nibble.
pub open spec fn spec_half_carry_sub(a: u8, b: u8) -> bool {
    a % 16 < b % 16
}

pub fn half_carry_add(a: u8, b: u8) -> (r: bool)
    ensures
        r == spec_half_carry_add(a, b),
{
    (a % 16) + (b % 16) > 15
}

pub fn carry_add(a: u8, b: u8) -> (r: bool)
    ensures
        r == spec_carry_add(a, b),
{
    (a as u16) + (b as u16) > 255
}

pub fn half_carry_add16(a: u16, b: u16) -> (r: bool)
    ensures
        r == spec_half_carry_add16(a, b),
{
    (a % 4096) + (b % 4096) > 4095
}

pub fn half_carry_sub(a: u8, b: u8) -> (r: bool)
    ensures
        r == spec_half_carry_sub(a, b),
{
    a % 16 < b % 16
}

/// The AF register pair: the accumulator in the high byte, the flags in the low byte.
pub struct FlagRegister {
    pub register: DualRegister,
}

impl View for FlagRegister {
    type V = u16;

    open spec fn view(&self) -> u16 {
        self.register@
    }
}

impl FlagRegister {
    pub fn new() -> (r: FlagRegister)
        ensures
            r@ == 0,
    {
        FlagRegister { register: DualRegister::new() }
    }

    pub fn accumulator(&self) -> (r: &SingleRegister)
        ensures
            r@ == high_byte(self@),
    {
        proof {
            lemma_join_split();
        }
        &self.register.high
    }

    pub fn flags(&self) -> (r: &SingleRegister)
        ensures
            r@ == low_byte(self@),
    {
        proof {
            lemma_join_split();
        }
        &self.register.low
    }

    pub fn set_accumulator(&mut self, value: u8)
        ensures
            final(self)@ == join_bytes(value, low_byte(old(self)@)),
    {
        proof {
            lemma_join_split();
        }
        self.register.high.set(value);
    }

    pub fn set_flags(&mut self, value: u8)
        ensures
            final(self)@ == join_bytes(high_byte(old(self)@), value),
    {
        proof {
            lemma_join_split();
        }
        self.register.low.set(value);
    }

    pub fn set(&mut self, value: u16)
        ensures
            final(self)@ == value,
    {
        self.register.set(value);
    }

    pub fn register(&self) -> (r: &DualRegister)
        ensures
            r@ == self@,
    {
        &self.register
    }
}

impl Bitflags<Flag> for FlagRegister {
    open spec fn spec_mask(flag: Flag) -> u8 {
        flag_mask(flag)
    }

    open spec fn spec_register_of(v: u16) -> u8 {
        low_byte(v)
    }

    open spec fn spec_with_register(v: u16, value: u8) -> u16 {
        join_bytes(high_byte(v), value)
    }

    fn mask(flag: Flag) -> (m: u8) {
        flag.mask()
    }

    fn register(&self) -> (r: u8) {
        proof {
            lemma_join_split();
        }
        self.register.low.get()
    }

    fn set_register(&mut self, value: u8) {
        self.set_flags(value);
    }
}

} // verus!

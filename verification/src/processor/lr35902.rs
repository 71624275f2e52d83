use vstd::prelude::*;
use crate::bus::{Bus, Readable, Writable};
use crate::processor::flag_register::{
    Flag, carry_add, half_carry_add, half_carry_add16, half_carry_sub, spec_carry_add,
    spec_half_carry_add, spec_half_carry_add16, spec_half_carry_sub,
};
use crate::processor::instruction::{
    AddressType, InstructionInfo, InstructionMnemonic, InstructionView, Operand, Prefix,
    Reference, ValueType, spec_reference_is16bit,
};
use crate::processor::decoder::{Decoder, spec_decode, spec_decode_opcode};
use crate::processor::register::{
    Register, high_byte, low_byte, join_bytes, wrap16, wrap8, lemma_byte_ops,
};
use crate::processor::registers::{
    RegisterFile, RegisterType, reg_value, with_reg, flag_value, with_flag,
};
use crate::processor::stack_pointer::{spec_pop, spec_push};
use crate::processor::{HaltMode, Processor, ProcessorView};
use crate::util::bitflags::Bitflags;
use crate::util::bits::{bit_set, with_bit};

verus! {

// ---------------------------------------------------------------------------------------
// The state changes of the primitive operations.
// ---------------------------------------------------------------------------------------

/// The state with other registers.
pub open spec fn with_regs(s: ProcessorView, regs: RegisterFile) -> ProcessorView {
    ProcessorView { regs, ..s }
}

/// The state with one register set.
pub open spec fn set_reg_state(s: ProcessorView, register: RegisterType, value: u16) -> ProcessorView {
    with_regs(s, with_reg(s.regs, register, value))
}

/// The state with one flag set.
pub open spec fn set_flag_state(s: ProcessorView, flag: Flag, value: bool) -> ProcessorView {
    with_regs(s, with_flag(s.regs, flag, value))
}

/// Reading the byte at the program counter and stepping it.
pub open spec fn spec_immediate<H: Bus>(s: ProcessorView, b: H::V) -> (ProcessorView, u8) {
    (set_reg_state(s, RegisterType::PC, wrap16(s.regs.pc + 1)), H::spec_read(b, s.regs.pc))
}

/// Reading a little-endian 16-bit value at the program counter and stepping past it.
pub open spec fn spec_immediate16<H: Bus>(s: ProcessorView, b: H::V) -> (ProcessorView, u16) {
    let (s1, low) = spec_immediate::<H>(s, b);
    let (s2, high) = spec_immediate::<H>(s1, b);
    (s2, join_bytes(high, low))
}

/// The address an address operand designates; immediates are read and stepped past.
pub open spec fn spec_operand_address<H: Bus>(
    s: ProcessorView,
    b: H::V,
    address: AddressType,
) -> (ProcessorView, u16) {
    match address {
        AddressType::Register(register) => (s, reg_value(s.regs, register)),
        AddressType::IncRegister(register) => (s, wrap16(reg_value(s.regs, register) + 0xFF00)),
        AddressType::Immediate => spec_immediate16::<H>(s, b),
        AddressType::IncImmediate => {
            let (s1, offset) = spec_immediate::<H>(s, b);
            (s1, wrap16(offset + 0xFF00))
        },
    }
}

/// The value a value operand designates.
pub open spec fn spec_operand_value<H: Bus>(
    s: ProcessorView,
    b: H::V,
    value: ValueType,
) -> (ProcessorView, u16) {
    match value {
        ValueType::Constant(constant) => (s, constant),
        ValueType::Register(register) => (s, reg_value(s.regs, register)),
        ValueType::Immediate => {
            let (s1, n) = spec_immediate::<H>(s, b);
            (s1, n as u16)
        },
        ValueType::Immediate16 => spec_immediate16::<H>(s, b),
        ValueType::Address(address) => {
            let (s1, a) = spec_operand_address::<H>(s, b, address);
            (s1, H::spec_read(b, a) as u16)
        },
    }
}

/// Whether a flag has the value a condition asks for.
pub open spec fn spec_operand_condition(s: ProcessorView, flag: Flag, value: bool) -> bool {
    flag_value(s.regs, flag) == value
}

/// The value a reference currently holds.
pub open spec fn spec_reference<H: Bus>(
    s: ProcessorView,
    b: H::V,
    reference: Reference,
) -> (ProcessorView, u16) {
    match reference {
        Reference::Register(register) => (s, reg_value(s.regs, register)),
        Reference::Address(address) => {
            let (s1, a) = spec_operand_address::<H>(s, b, address);
            (s1, H::spec_read(b, a) as u16)
        },
    }
}

/// Storing a value through a reference: a register takes it whole, memory takes its
/// low byte, and its high byte at the next address when it does not fit a byte.
pub open spec fn spec_set_reference<H: Bus>(
    s: ProcessorView,
    b: H::V,
    reference: Reference,
    value: u16,
) -> (ProcessorView, H::V) {
    match reference {
        Reference::Register(register) => (set_reg_state(s, register, value), b),
        Reference::Address(address) => {
            let (s1, a) = spec_operand_address::<H>(s, b, address);
            let b1 = H::spec_write(b, a, low_byte(value));
            if value > 0xFF {
                (s1, H::spec_write(b1, (a + 1) as u16, high_byte(value)))
            } else {
                (s1, b1)
            }
        },
    }
}

/// A store through a reference does not need the address past 0xFFFF.
pub open spec fn spec_set_reference_defined<H: Bus>(
    s: ProcessorView,
    b: H::V,
    reference: Reference,
    value: u16,
) -> bool {
    match reference {
        Reference::Register(_) => true,
        Reference::Address(address) => value > 0xFF ==> spec_operand_address::<H>(
            s,
            b,
            address,
        ).1 < 0xFFFF,
    }
}

} // verus!

verus! {

// ---------------------------------------------------------------------------------------
// The state changes of the instructions.
// ---------------------------------------------------------------------------------------

/// The low byte of a register.
pub open spec fn reg8(s: ProcessorView, register: RegisterType) -> u8 {
    low_byte(reg_value(s.regs, register))
}

/// The accumulator.
pub open spec fn acc(s: ProcessorView) -> u8 {
    reg8(s, RegisterType::A)
}

/// The carry flag as 0 or 1.
pub open spec fn carry_bit(s: ProcessorView) -> u8 {
    if flag_value(s.regs, Flag::Carry) { 1 } else { 0 }
}

/// The four flags set in the order Z, N, H, C.
pub open spec fn set_znhc(s: ProcessorView, z: bool, n: bool, h: bool, c: bool) -> ProcessorView {
    set_flag_state(
        set_flag_state(set_flag_state(set_flag_state(s, Flag::Zero, z), Flag::AddSub, n), Flag::HalfCarry, h),
        Flag::Carry,
        c,
    )
}

/// `LD`: the value is stored through the reference.
pub open spec fn spec_ld<H: Bus>(
    s: ProcessorView,
    b: H::V,
    reference: Reference,
    value: u16,
) -> (ProcessorView, H::V) {
    spec_set_reference::<H>(s, b, reference, value)
}

/// `LDD`: a load, then HL is decremented.
pub open spec fn spec_ldd<H: Bus>(
    s: ProcessorView,
    b: H::V,
    reference: Reference,
    value: ValueType,
) -> (ProcessorView, H::V) {
    let (s1, v) = spec_operand_value::<H>(s, b, value);
    let (s2, b2) = spec_ld::<H>(s1, b, reference, v);
    spec_dec::<H>(s2, b2, Reference::Register(RegisterType::HL))
}

/// `LDI`: a load, then HL is incremented.
pub open spec fn spec_ldi<H: Bus>(
    s: ProcessorView,
    b: H::V,
    reference: Reference,
    value: ValueType,
) -> (ProcessorView, H::V) {
    let (s1, v) = spec_operand_value::<H>(s, b, value);
    let (s2, b2) = spec_ld::<H>(s1, b, reference, v);
    spec_inc::<H>(s2, b2, Reference::Register(RegisterType::HL))
}

/// The 8-bit immediate read as a signed offset, extended to 16 bits.
pub open spec fn sign_extend(n: u8) -> u16 {
    if n < 128 { n as u16 } else { (n + 0xFF00) as u16 }
}

/// `LDHL SP,n`: HL takes SP plus the signed immediate; H and C come from the low bytes,
/// Z and N are cleared.
pub open spec fn spec_ldhl<H: Bus>(s: ProcessorView, b: H::V) -> ProcessorView {
    let (s1, n8) = spec_immediate::<H>(s, b);
    let n = sign_extend(n8);
    let sp = s1.regs.sp;
    let s2 = set_flag_state(s1, Flag::HalfCarry, spec_half_carry_add(low_byte(sp), low_byte(n)));
    let s3 = set_flag_state(s2, Flag::Carry, spec_carry_add(low_byte(sp), low_byte(n)));
    let s4 = set_flag_state(s3, Flag::Zero, false);
    let s5 = set_flag_state(s4, Flag::AddSub, false);
    set_reg_state(s5, RegisterType::HL, wrap16(sp + n))
}

/// Pushing a 16-bit value: SP goes down by two.
pub open spec fn spec_push_stack<H: Bus>(s: ProcessorView, b: H::V, value: u16) -> (ProcessorView, H::V) {
    (
        set_reg_state(s, RegisterType::SP, wrap16(s.regs.sp - 2)),
        spec_push::<H>(b, s.regs.sp, value),
    )
}

/// Popping a 16-bit value: SP goes up by two.
pub open spec fn spec_pop_stack<H: Bus>(s: ProcessorView, b: H::V) -> (ProcessorView, u16) {
    (set_reg_state(s, RegisterType::SP, wrap16(s.regs.sp + 2)), spec_pop::<H>(b, s.regs.sp))
}

/// `POP`: the popped value goes into the register.
pub open spec fn spec_pop_reg<H: Bus>(s: ProcessorView, b: H::V, register: RegisterType) -> ProcessorView {
    let (s1, v) = spec_pop_stack::<H>(s, b);
    set_reg_state(s1, register, v)
}

/// `ADD r,n` (8 bits): the register takes the wrapped sum; N cleared, Z, H and C from
/// the sum.
pub open spec fn spec_add(s: ProcessorView, register: RegisterType, value: u8) -> ProcessorView {
    let rv = reg8(s, register);
    let result = wrap8(rv + value);
    let s1 = set_reg_state(s, register, result as u16);
    let s2 = set_flag_state(s1, Flag::AddSub, false);
    let s3 = set_flag_state(s2, Flag::Zero, result == 0);
    let s4 = set_flag_state(s3, Flag::HalfCarry, spec_half_carry_add(rv, value));
    set_flag_state(s4, Flag::Carry, rv + value > 255)
}

/// `ADD rr,nn` (16 bits): the register takes the wrapped sum; N cleared, H from bit 11,
/// C from bit 15; Z kept.
pub open spec fn spec_add16(s: ProcessorView, register: RegisterType, value: u16) -> ProcessorView {
    let rv = reg_value(s.regs, register);
    let s1 = set_reg_state(s, register, wrap16(rv + value));
    let s2 = set_flag_state(s1, Flag::AddSub, false);
    let s3 = set_flag_state(s2, Flag::HalfCarry, spec_half_carry_add16(rv, value));
    set_flag_state(s3, Flag::Carry, rv + value > 0xFFFF)
}

/// `ADC A,n`: A takes A + n + carry, wrapped.
pub open spec fn spec_adc(s: ProcessorView, value: u8) -> ProcessorView {
    let carry = carry_bit(s);
    let a = acc(s);
    let add_value = wrap8(value + carry);
    let overflow = value + carry > 255;
    let result = wrap8(a + add_value);
    let s1 = set_reg_state(s, RegisterType::A, result as u16);
    let s2 = set_flag_state(s1, Flag::AddSub, false);
    let s3 = set_flag_state(s2, Flag::Zero, result == 0);
    let s4 = set_flag_state(
        s3,
        Flag::HalfCarry,
        spec_half_carry_add(value, carry) || spec_half_carry_add(a, add_value),
    );
    set_flag_state(s4, Flag::Carry, overflow || a + add_value > 255)
}

/// The flags of `A - n` (N set, Z, H and C from the difference), and the difference.
pub open spec fn spec_base_sub(s: ProcessorView, value: u8) -> (ProcessorView, u8) {
    let a = acc(s);
    let result = wrap8(a - value);
    let s1 = set_flag_state(s, Flag::AddSub, true);
    let s2 = set_flag_state(s1, Flag::Zero, result == 0);
    let s3 = set_flag_state(s2, Flag::HalfCarry, spec_half_carry_sub(a, value));
    (set_flag_state(s3, Flag::Carry, a < value), result)
}

/// `SUB n`: A takes A - n.
pub open spec fn spec_sub(s: ProcessorView, value: u8) -> ProcessorView {
    let (s1, result) = spec_base_sub(s, value);
    set_reg_state(s1, RegisterType::A, result as u16)
}

/// `SBC A,n`: A takes A - (n + carry), wrapped.
pub open spec fn spec_sbc(s: ProcessorView, value: u8) -> ProcessorView {
    let carry = carry_bit(s);
    let a = acc(s);
    let sub_value = wrap8(value + carry);
    let overflow = value + carry > 255;
    let result = wrap8(a - sub_value);
    let s1 = set_reg_state(s, RegisterType::A, result as u16);
    let s2 = set_flag_state(s1, Flag::AddSub, true);
    let s3 = set_flag_state(s2, Flag::Zero, result == 0);
    let s4 = set_flag_state(s3, Flag::HalfCarry, a % 16 < value % 16 + carry);
    set_flag_state(s4, Flag::Carry, overflow || a < sub_value)
}

/// `AND n`: A takes A & n; Z from the result, N cleared, H set, C cleared.
pub open spec fn spec_and(s: ProcessorView, value: u8) -> ProcessorView {
    let result = acc(s) & value;
    let s1 = set_reg_state(s, RegisterType::A, result as u16);
    set_znhc(s1, result == 0, false, true, false)
}

/// `OR n`: A takes A | n; Z from the result, N, H and C cleared.
pub open spec fn spec_or(s: ProcessorView, value: u8) -> ProcessorView {
    let result = acc(s) | value;
    let s1 = set_reg_state(s, RegisterType::A, result as u16);
    set_znhc(s1, result == 0, false, false, false)
}

/// `XOR n`: A takes A ^ n; Z from the result, N, H and C cleared.
pub open spec fn spec_xor(s: ProcessorView, value: u8) -> ProcessorView {
    let result = acc(s) ^ value;
    let s1 = set_reg_state(s, RegisterType::A, result as u16);
    set_znhc(s1, result == 0, false, false, false)
}

/// `CP n`: the flags of `A - n`; A is kept.
pub open spec fn spec_cp(s: ProcessorView, value: u8) -> ProcessorView {
    spec_base_sub(s, value).0
}

/// `INC` of an 8-bit operand: Z and H from the result, N cleared, C kept.
pub open spec fn spec_inc8<H: Bus>(s: ProcessorView, b: H::V, reference: Reference) -> (ProcessorView, H::V) {
    let (s1, v) = spec_reference::<H>(s, b, reference);
    let value = low_byte(v);
    let result = wrap8(value + 1);
    let (s2, b2) = spec_set_reference::<H>(s1, b, reference, result as u16);
    let s3 = set_flag_state(s2, Flag::Zero, result == 0);
    let s4 = set_flag_state(s3, Flag::AddSub, false);
    (set_flag_state(s4, Flag::HalfCarry, spec_half_carry_add(value, 1)), b2)
}

/// `INC` of a 16-bit register: no flag changes.
pub open spec fn spec_inc16<H: Bus>(s: ProcessorView, b: H::V, reference: Reference) -> (ProcessorView, H::V) {
    let (s1, v) = spec_reference::<H>(s, b, reference);
    spec_set_reference::<H>(s1, b, reference, wrap16(v + 1))
}

pub open spec fn spec_inc<H: Bus>(s: ProcessorView, b: H::V, reference: Reference) -> (ProcessorView, H::V) {
    if spec_reference_is16bit(reference) {
        spec_inc16::<H>(s, b, reference)
    } else {
        spec_inc8::<H>(s, b, reference)
    }
}

/// `DEC` of an 8-bit operand: N set, Z and H from the result, C kept.
pub open spec fn spec_dec8<H: Bus>(s: ProcessorView, b: H::V, reference: Reference) -> (ProcessorView, H::V) {
    let (s1, v) = spec_reference::<H>(s, b, reference);
    let value = low_byte(v);
    let result = wrap8(value - 1);
    let (s2, b2) = spec_set_reference::<H>(s1, b, reference, result as u16);
    let s3 = set_flag_state(s2, Flag::AddSub, true);
    let s4 = set_flag_state(s3, Flag::Zero, result == 0);
    (set_flag_state(s4, Flag::HalfCarry, value % 16 < 1), b2)
}

/// `DEC` of a 16-bit register: no flag changes.
pub open spec fn spec_dec16<H: Bus>(s: ProcessorView, b: H::V, reference: Reference) -> (ProcessorView, H::V) {
    let (s1, v) = spec_reference::<H>(s, b, reference);
    spec_set_reference::<H>(s1, b, reference, wrap16(v - 1))
}

pub open spec fn spec_dec<H: Bus>(s: ProcessorView, b: H::V, reference: Reference) -> (ProcessorView, H::V) {
    if spec_reference_is16bit(reference) {
        spec_dec16::<H>(s, b, reference)
    } else {
        spec_dec8::<H>(s, b, reference)
    }
}

/// The adjustment `DAA` applies, from the flags and A.
pub open spec fn daa_adjust(a: u8, n: bool, c: bool, h: bool) -> u8 {
    let low: u8 = if h || (!n && a % 16 > 9) { 6 } else { 0 };
    if c || (!n && a > 0x99) { (low | 0x60) as u8 } else { low }
}

/// `DAA`: A is adjusted to binary-coded decimal after an addition or a subtraction; C is
/// set if it was set or the adjustment needed it, Z from the result, H cleared.
pub open spec fn spec_daa(s: ProcessorView) -> ProcessorView {
    let a = acc(s);
    let n = flag_value(s.regs, Flag::AddSub);
    let c = flag_value(s.regs, Flag::Carry);
    let h = flag_value(s.regs, Flag::HalfCarry);
    let u = daa_adjust(a, n, c, h);
    let s1 = if c || (!n && a > 0x99) { set_flag_state(s, Flag::Carry, true) } else { s };
    let result = if n { wrap8(a - u) } else { wrap8(a + u) };
    let s2 = set_reg_state(s1, RegisterType::A, result as u16);
    let s3 = set_flag_state(s2, Flag::Zero, result == 0);
    set_flag_state(s3, Flag::HalfCarry, false)
}

/// `CPL`: A takes its complement; N and H set.
pub open spec fn spec_cpl(s: ProcessorView) -> ProcessorView {
    let s1 = set_reg_state(s, RegisterType::A, !reg_value(s.regs, RegisterType::A));
    let s2 = set_flag_state(s1, Flag::AddSub, true);
    set_flag_state(s2, Flag::HalfCarry, true)
}

/// `CCF`: C flipped; N and H cleared.
pub open spec fn spec_ccf(s: ProcessorView) -> ProcessorView {
    let s1 = set_flag_state(s, Flag::Carry, !flag_value(s.regs, Flag::Carry));
    let s2 = set_flag_state(s1, Flag::AddSub, false);
    set_flag_state(s2, Flag::HalfCarry, false)
}

/// `SCF`: C set; N and H cleared.
pub open spec fn spec_scf(s: ProcessorView) -> ProcessorView {
    let s1 = set_flag_state(s, Flag::Carry, true);
    let s2 = set_flag_state(s1, Flag::AddSub, false);
    set_flag_state(s2, Flag::HalfCarry, false)
}

/// A byte rotated left by one.
pub open spec fn rotl1(v: u8) -> u8 {
    ((v << 1u8) | (v >> 7u8)) as u8
}

/// A byte rotated right by one.
pub open spec fn rotr1(v: u8) -> u8 {
    ((v >> 1u8) | (v << 7u8)) as u8
}

/// A byte with its two nibbles swapped.
pub open spec fn swap_nibbles(v: u8) -> u8 {
    ((v << 4u8) | (v >> 4u8)) as u8
}

/// The rotate-left-circular common part: C takes bit 7, the operand is rotated left, N and
/// H are cleared. Returns the rotated byte too.
pub open spec fn spec_base_rlc<H: Bus>(s: ProcessorView, b: H::V, reference: Reference) -> (ProcessorView, H::V, u8) {
    let (s1, v) = spec_reference::<H>(s, b, reference);
    let value = low_byte(v);
    let s2 = set_flag_state(s1, Flag::Carry, bit_set(value, 7));
    let result = rotl1(value);
    let (s3, b3) = spec_set_reference::<H>(s2, b, reference, result as u16);
    let s4 = set_flag_state(s3, Flag::AddSub, false);
    (set_flag_state(s4, Flag::HalfCarry, false), b3, result)
}

/// The rotate-left-through-carry common part: C takes bit 7 and the old C enters bit 0.
pub open spec fn spec_base_rl<H: Bus>(s: ProcessorView, b: H::V, reference: Reference) -> (ProcessorView, H::V, u8) {
    let (s1, v) = spec_reference::<H>(s, b, reference);
    let value = low_byte(v);
    let old_flag = carry_bit(s1);
    let s2 = set_flag_state(s1, Flag::Carry, bit_set(value, 7));
    let result = ((value << 1u8) | old_flag) as u8;
    let (s3, b3) = spec_set_reference::<H>(s2, b, reference, result as u16);
    let s4 = set_flag_state(s3, Flag::AddSub, false);
    (set_flag_state(s4, Flag::HalfCarry, false), b3, result)
}

/// The rotate-right-circular common part: C takes bit 0, the operand is rotated right.
pub open spec fn spec_base_rrc<H: Bus>(s: ProcessorView, b: H::V, reference: Reference) -> (ProcessorView, H::V, u8) {
    let (s1, v) = spec_reference::<H>(s, b, reference);
    let value = low_byte(v);
    let s2 = set_flag_state(s1, Flag::Carry, bit_set(value, 0));
    let result = rotr1(value);
    let (s3, b3) = spec_set_reference::<H>(s2, b, reference, result as u16);
    let s4 = set_flag_state(s3, Flag::AddSub, false);
    (set_flag_state(s4, Flag::HalfCarry, false), b3, result)
}

/// The rotate-right-through-carry common part: C takes bit 0 and the old C enters bit 7.
pub open spec fn spec_base_rr<H: Bus>(s: ProcessorView, b: H::V, reference: Reference) -> (ProcessorView, H::V, u8) {
    let (s1, v) = spec_reference::<H>(s, b, reference);
    let value = low_byte(v);
    let old_flag = carry_bit(s1);
    let s2 = set_flag_state(s1, Flag::Carry, bit_set(value, 0));
    let result = ((value >> 1u8) | (old_flag << 7u8)) as u8;
    let (s3, b3) = spec_set_reference::<H>(s2, b, reference, result as u16);
    let s4 = set_flag_state(s3, Flag::AddSub, false);
    (set_flag_state(s4, Flag::HalfCarry, false), b3, result)
}

/// Z set from a rotation's result.
pub open spec fn with_zero<H: Bus>(r: (ProcessorView, H::V, u8)) -> (ProcessorView, H::V) {
    (set_flag_state(r.0, Flag::Zero, r.2 == 0), r.1)
}

/// A rotation of A: Z cleared.
pub open spec fn without_zero<H: Bus>(r: (ProcessorView, H::V, u8)) -> (ProcessorView, H::V) {
    (set_flag_state(r.0, Flag::Zero, false), r.1)
}

/// `SWAP`: the nibbles are swapped; Z from the result, N, H and C cleared.
pub open spec fn spec_swap<H: Bus>(s: ProcessorView, b: H::V, reference: Reference) -> (ProcessorView, H::V) {
    let (s1, v) = spec_reference::<H>(s, b, reference);
    let result = swap_nibbles(low_byte(v));
    let (s2, b2) = spec_set_reference::<H>(s1, b, reference, result as u16);
    (set_znhc(s2, result == 0, false, false, false), b2)
}

/// `SLA`: C takes bit 7, the operand is shifted left; Z from the result, N and H cleared.
pub open spec fn spec_sla<H: Bus>(s: ProcessorView, b: H::V, reference: Reference) -> (ProcessorView, H::V) {
    let (s1, v) = spec_reference::<H>(s, b, reference);
    let value = low_byte(v);
    let s2 = set_flag_state(s1, Flag::Carry, bit_set(value, 7));
    let result = (value << 1u8) as u8;
    let (s3, b3) = spec_set_reference::<H>(s2, b, reference, result as u16);
    let s4 = set_flag_state(s3, Flag::Zero, result == 0);
    let s5 = set_flag_state(s4, Flag::AddSub, false);
    (set_flag_state(s5, Flag::HalfCarry, false), b3)
}

/// `SRA`: C takes bit 0, the operand is shifted right with bit 7 kept; Z from the result,
/// N and H cleared.
pub open spec fn spec_sra<H: Bus>(s: ProcessorView, b: H::V, reference: Reference) -> (ProcessorView, H::V) {
    let (s1, value) = spec_reference::<H>(s, b, reference);
    let msb: u16 = if bit_set(low_byte(value), 7) { 1 } else { 0 };
    let s2 = set_flag_state(s1, Flag::Carry, bit_set(low_byte(value), 0));
    let result = ((value >> 1u16) | (msb << 7u16)) as u16;
    let (s3, b3) = spec_set_reference::<H>(s2, b, reference, result);
    let s4 = set_flag_state(s3, Flag::Zero, result == 0);
    let s5 = set_flag_state(s4, Flag::AddSub, false);
    (set_flag_state(s5, Flag::HalfCarry, false), b3)
}

/// `SRL`: C takes bit 0, the operand is shifted right; Z from the result, N and H cleared.
pub open spec fn spec_srl<H: Bus>(s: ProcessorView, b: H::V, reference: Reference) -> (ProcessorView, H::V) {
    let (s1, value) = spec_reference::<H>(s, b, reference);
    let s2 = set_flag_state(s1, Flag::Carry, bit_set(low_byte(value), 0));
    let result = (value >> 1u16) as u16;
    let (s3, b3) = spec_set_reference::<H>(s2, b, reference, result);
    let s4 = set_flag_state(s3, Flag::Zero, result == 0);
    let s5 = set_flag_state(s4, Flag::AddSub, false);
    (set_flag_state(s5, Flag::HalfCarry, false), b3)
}

/// `BIT b`: Z set when the bit is clear, N cleared, H set.
pub open spec fn spec_bit<H: Bus>(s: ProcessorView, b: H::V, bit: u8, reference: Reference) -> ProcessorView {
    let (s1, v) = spec_reference::<H>(s, b, reference);
    let s2 = set_flag_state(s1, Flag::Zero, !bit_set(low_byte(v), bit));
    let s3 = set_flag_state(s2, Flag::AddSub, false);
    set_flag_state(s3, Flag::HalfCarry, true)
}

/// `SET b` / `RES b`: the bit is set or cleared; no flag changes.
pub open spec fn spec_set_bit<H: Bus>(
    s: ProcessorView,
    b: H::V,
    bit: u8,
    reference: Reference,
    value: bool,
) -> (ProcessorView, H::V) {
    let (s1, v) = spec_reference::<H>(s, b, reference);
    spec_set_reference::<H>(s1, b, reference, with_bit(low_byte(v), bit, value) as u16)
}

/// `JR`: PC moves by a signed offset, wrapping around.
pub open spec fn spec_jr(s: ProcessorView, inc: i8) -> ProcessorView {
    set_reg_state(s, RegisterType::PC, wrap16(s.regs.pc + inc))
}

/// `CALL` and `RST`: PC is pushed, then set to the address.
pub open spec fn spec_call<H: Bus>(s: ProcessorView, b: H::V, address: u16) -> (ProcessorView, H::V) {
    let (s1, b1) = spec_push_stack::<H>(s, b, s.regs.pc);
    (set_reg_state(s1, RegisterType::PC, address), b1)
}

/// `RET`: PC is popped.
pub open spec fn spec_ret<H: Bus>(s: ProcessorView, b: H::V) -> ProcessorView {
    let (s1, address) = spec_pop_stack::<H>(s, b);
    set_reg_state(s1, RegisterType::PC, address)
}

/// `EI` takes effect: the master flag set, nothing pending.
pub open spec fn spec_immediate_ei<H: Bus>(s: ProcessorView, b: H::V) -> (ProcessorView, H::V) {
    (ProcessorView { pending_ei: false, ..s }, H::spec_toggle_interrupts(b, true))
}

/// `RETI`: a return, then interrupts enabled at once.
pub open spec fn spec_reti<H: Bus>(s: ProcessorView, b: H::V) -> (ProcessorView, H::V) {
    spec_immediate_ei::<H>(spec_ret::<H>(s, b), b)
}

/// `HALT`: the bugged mode when interrupts are disabled and one is pending, the normal
/// halt otherwise.
pub open spec fn spec_halt<H: Bus>(s: ProcessorView, b: H::V) -> ProcessorView {
    if !H::spec_master_interrupt_enable(b) && H::spec_pending_interrupt(b) is Some {
        ProcessorView { halt_mode: HaltMode::Bugged, ..s }
    } else {
        ProcessorView { halt_mode: HaltMode::Normal, ..s }
    }
}

} // verus!

verus! {

// ---------------------------------------------------------------------------------------
// The primitive operations.
// ---------------------------------------------------------------------------------------

/// The primitive operations of the LR35902 on its registers and its bus.
pub trait LR35902 {
    fn immediate<H: Bus>(&mut self, bus: &H) -> u8;

    fn immediate16<H: Bus>(&mut self, bus: &H) -> u16;

    fn reg(&self, register: RegisterType) -> u16;

    fn set_reg(&mut self, register: RegisterType, value: u16);

    fn address<H: Bus>(&self, bus: &H, address: u16) -> u8;

    fn set_address<H: Bus>(&self, bus: &mut H, address: u16, value: u8);

    fn flag(&self, flag: Flag) -> bool;

    fn set_flag(&mut self, flag: Flag, value: bool);

    fn push_stack<H: Bus>(&mut self, bus: &mut H, value: u16);

    fn pop_stack<H: Bus>(&mut self, bus: &mut H) -> u16;

    fn halt<H: Bus>(&mut self, bus: &H);

    fn stop(&mut self);

    fn ei(&mut self);

    fn immediate_ei<H: Bus>(&mut self, bus: &mut H);
}

impl LR35902 for Processor {
    /// Reads the byte at PC and steps PC.
    fn immediate<H: Bus>(&mut self, bus: &H) -> (r: u8)
        ensures
            (final(self)@, r) == spec_immediate::<H>(old(self)@, bus@),
    {
        proof {
            reveal(with_reg);
        }
        self.registers.program_counter.fetch(bus)
    }

    /// Reads the little-endian 16-bit value at PC and steps PC past it.
    fn immediate16<H: Bus>(&mut self, bus: &H) -> (r: u16)
        ensures
            (final(self)@, r) == spec_immediate16::<H>(old(self)@, bus@),
    {
        proof {
            lemma_byte_ops();
        }
        let low = self.immediate(bus) as u16;
        let high = self.immediate(bus) as u16;
        let r = low | (high << 8u16);
        assert(r == high * 256 + low) by (bit_vector)
            requires
                low < 256,
                high < 256,
                r == low | (high << 8u16),
        ;
        r
    }

    fn reg(&self, register: RegisterType) -> (r: u16)
        ensures
            r == reg_value(self@.regs, register),
    {
        self.registers.reg(register)
    }

    fn set_reg(&mut self, register: RegisterType, value: u16)
        ensures
            final(self)@ == set_reg_state(old(self)@, register, value),
    {
        self.registers.set_reg(register, value);
    }

    fn address<H: Bus>(&self, bus: &H, address: u16) -> (r: u8)
        ensures
            r == H::spec_read(bus@, address),
    {
        bus.read(address)
    }

    fn set_address<H: Bus>(&self, bus: &mut H, address: u16, value: u8)
        ensures
            final(bus)@ == H::spec_write(old(bus)@, address, value),
    {
        bus.write(address, value);
    }

    fn flag(&self, flag: Flag) -> (r: bool)
        ensures
            r == flag_value(self@.regs, flag),
    {
        self.registers.af.flag(flag)
    }

    fn set_flag(&mut self, flag: Flag, value: bool)
        ensures
            final(self)@ == set_flag_state(old(self)@, flag, value),
    {
        proof {
            reveal(with_flag);
        }
        self.registers.af.set_flag(flag, value);
    }

    fn push_stack<H: Bus>(&mut self, bus: &mut H, value: u16)
        ensures
            (final(self)@, final(bus)@) == spec_push_stack::<H>(old(self)@, old(bus)@, value),
    {
        proof {
            reveal(with_reg);
        }
        self.registers.stack_pointer.push(bus, value);
    }

    fn pop_stack<H: Bus>(&mut self, bus: &mut H) -> (r: u16)
        ensures
            (final(self)@, r) == spec_pop_stack::<H>(old(self)@, old(bus)@),
            final(bus)@ == old(bus)@,
    {
        proof {
            reveal(with_reg);
        }
        self.registers.stack_pointer.pop(bus)
    }

    fn halt<H: Bus>(&mut self, bus: &H)
        ensures
            final(self)@ == spec_halt::<H>(old(self)@, bus@),
    {
        if !bus.master_interrupt_enable() && bus.pending_interrupt().is_some() {
            self.halt_mode = HaltMode::Bugged;
        } else {
            self.halt_mode = HaltMode::Normal;
        }
    }

    /// Halts until an interrupt is pending.
    fn stop(&mut self)
        ensures
            final(self)@ == (ProcessorView { halt_mode: HaltMode::Normal, ..old(self)@ }),
    {
        self.halt_mode = HaltMode::Normal;
    }

    /// Interrupts are enabled before the next instruction.
    fn ei(&mut self)
        ensures
            final(self)@ == (ProcessorView { pending_ei: true, ..old(self)@ }),
    {
        self.pending_ei = true;
    }

    fn immediate_ei<H: Bus>(&mut self, bus: &mut H)
        ensures
            (final(self)@, final(bus)@) == spec_immediate_ei::<H>(old(self)@, old(bus)@),
    {
        bus.toggle_interrupts(true);
        self.pending_ei = false;
    }
}

} // verus!

verus! {

// ---------------------------------------------------------------------------------------
// Operands and instructions.
// ---------------------------------------------------------------------------------------

impl Processor {
    pub fn operand_value<H: Bus>(&mut self, bus: &mut H, value: ValueType) -> (r: u16)
        ensures
            (final(self)@, r) == spec_operand_value::<H>(old(self)@, old(bus)@, value),
            final(bus)@ == old(bus)@,
    {
        match value {
            ValueType::Constant(value) => value,
            ValueType::Register(reg) => self.reg(reg),
            ValueType::Immediate => self.immediate(bus) as u16,
            ValueType::Immediate16 => self.immediate16(bus),
            ValueType::Address(address) => {
                let address = self.operand_address(bus, address);
                self.address(bus, address) as u16
            },
        }
    }

    pub fn operand_address<H: Bus>(&mut self, bus: &mut H, address: AddressType) -> (r: u16)
        ensures
            (final(self)@, r) == spec_operand_address::<H>(old(self)@, old(bus)@, address),
            final(bus)@ == old(bus)@,
    {
        match address {
            AddressType::Register(reg) => self.reg(reg),
            AddressType::IncRegister(reg) => self.reg(reg).wrapping_add(0xFF00),
            AddressType::Immediate => self.immediate16(bus),
            AddressType::IncImmediate => (self.immediate(bus) as u16).wrapping_add(0xFF00),
        }
    }

    pub fn operand_condition(&self, flag: Flag, value: bool) -> (r: bool)
        ensures
            r == spec_operand_condition(self@, flag, value),
    {
        self.flag(flag) == value
    }

    pub fn reference<H: Bus>(&mut self, bus: &mut H, reference: Reference) -> (r: u16)
        ensures
            (final(self)@, r) == spec_reference::<H>(old(self)@, old(bus)@, reference),
            final(bus)@ == old(bus)@,
    {
        match reference {
            Reference::Register(register) => self.reg(register),
            Reference::Address(address) => {
                let address = self.operand_address(bus, address);
                bus.read(address) as u16
            },
        }
    }

    /// The address an address operand designates, without stepping past an immediate.
    pub fn peek_operand_address<H: Bus>(&self, bus: &H, address: AddressType) -> (r: u16)
        ensures
            r == spec_operand_address::<H>(self@, bus@, address).1,
    {
        match address {
            AddressType::Register(reg) => self.reg(reg),
            AddressType::IncRegister(reg) => self.reg(reg).wrapping_add(0xFF00),
            AddressType::Immediate => {
                let pc = self.reg(RegisterType::PC);
                proof {
                    let s1 = spec_immediate::<H>(self@, bus@).0;
                    assert(s1.regs.pc == wrap16(pc + 1)) by {
                        reveal(with_reg);
                    }
                }
                let low = bus.read(pc) as u16;
                let high = bus.read(pc.wrapping_add(1)) as u16;
                let r = low | (high << 8u16);
                assert(r == high * 256 + low) by (bit_vector)
                    requires
                        r == low | (high << 8u16),
                        low < 256,
                        high < 256,
                ;
                r
            },
            AddressType::IncImmediate => {
                let pc = self.reg(RegisterType::PC);
                (bus.read(pc) as u16).wrapping_add(0xFF00)
            },
        }
    }

    /// Whether a store of `value` through the reference stays within the address space.
    pub fn reference_fits<H: Bus>(&self, bus: &H, reference: Reference, value: u16) -> (r: bool)
        ensures
            r == spec_set_reference_defined::<H>(self@, bus@, reference, value),
    {
        match reference {
            Reference::Register(_) => true,
            Reference::Address(address) => {
                if value > 0xFF {
                    self.peek_operand_address(bus, address) < 0xFFFF
                } else {
                    true
                }
            },
        }
    }

    pub fn set_reference<H: Bus>(&mut self, bus: &mut H, reference: Reference, value: u16)
        requires
            spec_set_reference_defined::<H>(old(self)@, old(bus)@, reference, value),
        ensures
            (final(self)@, final(bus)@) == spec_set_reference::<H>(old(self)@, old(bus)@, reference, value),
    {
        proof {
            lemma_byte_ops();
        }
        match reference {
            Reference::Register(register) => {
                self.set_reg(register, value);
            },
            Reference::Address(address) => {
                let address = self.operand_address(bus, address);
                self.set_address(bus, address, value as u8);
                if value > 0xFF {
                    self.set_address(bus, address + 1, (value >> 8u16) as u8);
                }
            },
        };
    }

    pub fn ld<H: Bus>(&mut self, bus: &mut H, reference: Reference, value: u16)
        requires
            spec_set_reference_defined::<H>(old(self)@, old(bus)@, reference, value),
        ensures
            (final(self)@, final(bus)@) == spec_ld::<H>(old(self)@, old(bus)@, reference, value),
    {
        self.set_reference(bus, reference, value);
    }

    pub fn ldd<H: Bus>(&mut self, bus: &mut H, reg: Reference, value: ValueType)
        requires
            spec_set_reference_defined::<H>(
                spec_operand_value::<H>(old(self)@, old(bus)@, value).0,
                old(bus)@,
                reg,
                spec_operand_value::<H>(old(self)@, old(bus)@, value).1,
            ),
        ensures
            (final(self)@, final(bus)@) == spec_ldd::<H>(old(self)@, old(bus)@, reg, value),
    {
        let value = self.operand_value(bus, value);
        self.ld(bus, reg, value);
        self.dec(bus, Reference::Register(RegisterType::HL));
    }

    pub fn ldi<H: Bus>(&mut self, bus: &mut H, reg: Reference, value: ValueType)
        requires
            spec_set_reference_defined::<H>(
                spec_operand_value::<H>(old(self)@, old(bus)@, value).0,
                old(bus)@,
                reg,
                spec_operand_value::<H>(old(self)@, old(bus)@, value).1,
            ),
        ensures
            (final(self)@, final(bus)@) == spec_ldi::<H>(old(self)@, old(bus)@, reg, value),
    {
        let value = self.operand_value(bus, value);
        self.ld(bus, reg, value);
        self.inc(bus, Reference::Register(RegisterType::HL));
    }

    /// Writes SP plus the signed immediate to HL.
    #[verifier::rlimit(50)]
    pub fn ldhl<H: Bus>(&mut self, bus: &H)
        ensures
            final(self)@ == spec_ldhl::<H>(old(self)@, bus@),
    {
        proof {
            lemma_byte_ops();
        }
        let n8 = self.immediate(bus);
        let n: u16 = if n8 < 128 { n8 as u16 } else { n8 as u16 + 0xFF00 };
        let sp = self.reg(RegisterType::SP);
        let value = sp.wrapping_add(n);
        self.set_flag(Flag::HalfCarry, half_carry_add(sp as u8, n as u8));
        self.set_flag(Flag::Carry, carry_add(sp as u8, n as u8));
        self.set_flag(Flag::Zero, false);
        self.set_flag(Flag::AddSub, false);
        self.set_reg(RegisterType::HL, value);
    }

    pub fn push<H: Bus>(&mut self, bus: &mut H, value: u16)
        ensures
            (final(self)@, final(bus)@) == spec_push_stack::<H>(old(self)@, old(bus)@, value),
    {
        self.push_stack(bus, value);
    }

    pub fn pop<H: Bus>(&mut self, bus: &mut H, register: RegisterType)
        ensures
            final(self)@ == spec_pop_reg::<H>(old(self)@, old(bus)@, register),
            final(bus)@ == old(bus)@,
    {
        let value = self.pop_stack(bus);
        self.set_reg(register, value);
    }

    pub fn add(&mut self, register: RegisterType, value: u8)
        ensures
            final(self)@ == spec_add(old(self)@, register, value),
    {
        proof {
            lemma_byte_ops();
        }
        let reg_value = self.reg(register) as u8;
        let sum: u16 = reg_value as u16 + value as u16;
        let result = (sum % 256) as u8;
        let carry = sum > 255;
        self.set_reg(register, result as u16);
        self.set_flag(Flag::AddSub, false);
        self.set_flag(Flag::Zero, result == 0);
        self.set_flag(Flag::HalfCarry, half_carry_add(reg_value, value));
        self.set_flag(Flag::Carry, carry);
    }

    pub fn add16(&mut self, register: RegisterType, value: u16)
        ensures
            final(self)@ == spec_add16(old(self)@, register, value),
    {
        let reg_value = self.reg(register);
        let sum: u32 = reg_value as u32 + value as u32;
        let result = (sum % 65536) as u16;
        let carry = sum > 0xFFFF;
        self.set_reg(register, result);
        self.set_flag(Flag::AddSub, false);
        self.set_flag(Flag::HalfCarry, half_carry_add16(reg_value, value));
        self.set_flag(Flag::Carry, carry);
    }

    #[verifier::rlimit(50)]
    pub fn adc(&mut self, value: u8)
        ensures
            final(self)@ == spec_adc(old(self)@, value),
    {
        proof {
            lemma_byte_ops();
        }
        let carry: u8 = if self.flag(Flag::Carry) { 1 } else { 0 };
        let a = self.reg(RegisterType::A) as u8;
        let add_sum: u16 = value as u16 + carry as u16;
        let add_value = (add_sum % 256) as u8;
        let overflow = add_sum > 255;
        let sum: u16 = a as u16 + add_value as u16;
        let result = (sum % 256) as u8;
        let result_overflow = sum > 255;
        self.set_reg(RegisterType::A, result as u16);
        self.set_flag(Flag::AddSub, false);
        self.set_flag(Flag::Zero, result == 0);
        self.set_flag(Flag::HalfCarry, half_carry_add(value, carry) || half_carry_add(a, add_value));
        self.set_flag(Flag::Carry, overflow || result_overflow);
    }

    /// Sets the flags of `A - value` and returns the difference; A is kept.
    pub fn base_sub(&mut self, value: u8) -> (r: u8)
        ensures
            (final(self)@, r) == spec_base_sub(old(self)@, value),
    {
        proof {
            lemma_byte_ops();
        }
        let reg_value = self.reg(RegisterType::A) as u8;
        let result = reg_value.wrapping_sub(value);
        self.set_flag(Flag::AddSub, true);
        self.set_flag(Flag::Zero, result == 0);
        self.set_flag(Flag::HalfCarry, half_carry_sub(reg_value, value));
        self.set_flag(Flag::Carry, reg_value < value);
        result
    }

    pub fn sub(&mut self, value: u8)
        ensures
            final(self)@ == spec_sub(old(self)@, value),
    {
        let result = self.base_sub(value);
        self.set_reg(RegisterType::A, result as u16);
    }

    #[verifier::rlimit(50)]
    pub fn sbc(&mut self, value: u8)
        ensures
            final(self)@ == spec_sbc(old(self)@, value),
    {
        proof {
            lemma_byte_ops();
        }
        let carry: u8 = if self.flag(Flag::Carry) { 1 } else { 0 };
        let reg_value = self.reg(RegisterType::A) as u8;
        let sub_sum: u16 = value as u16 + carry as u16;
        let sub_value = (sub_sum % 256) as u8;
        let overflow = sub_sum > 255;
        let result = reg_value.wrapping_sub(sub_value);
        self.set_reg(RegisterType::A, result as u16);
        self.set_flag(Flag::AddSub, true);
        self.set_flag(Flag::Zero, result == 0);
        self.set_flag(Flag::HalfCarry, reg_value % 16 < (value % 16) + carry);
        self.set_flag(Flag::Carry, overflow || reg_value < sub_value);
    }

    pub fn and(&mut self, value: u8)
        ensures
            final(self)@ == spec_and(old(self)@, value),
    {
        proof {
            lemma_byte_ops();
        }
        let a = self.reg(RegisterType::A) as u8;
        let result = a & value;
        self.set_reg(RegisterType::A, result as u16);
        self.set_flag(Flag::Zero, result == 0);
        self.set_flag(Flag::AddSub, false);
        self.set_flag(Flag::HalfCarry, true);
        self.set_flag(Flag::Carry, false);
    }

    pub fn or(&mut self, value: u8)
        ensures
            final(self)@ == spec_or(old(self)@, value),
    {
        proof {
            lemma_byte_ops();
        }
        let a = self.reg(RegisterType::A) as u8;
        let result = a | value;
        self.set_reg(RegisterType::A, result as u16);
        self.set_flag(Flag::Zero, result == 0);
        self.set_flag(Flag::AddSub, false);
        self.set_flag(Flag::HalfCarry, false);
        self.set_flag(Flag::Carry, false);
    }

    pub fn xor(&mut self, value: u8)
        ensures
            final(self)@ == spec_xor(old(self)@, value),
    {
        proof {
            lemma_byte_ops();
        }
        let a = self.reg(RegisterType::A) as u8;
        let result = a ^ value;
        self.set_reg(RegisterType::A, result as u16);
        self.set_flag(Flag::Zero, result == 0);
        self.set_flag(Flag::AddSub, false);
        self.set_flag(Flag::HalfCarry, false);
        self.set_flag(Flag::Carry, false);
    }

    pub fn cp(&mut self, value: u8)
        ensures
            final(self)@ == spec_cp(old(self)@, value),
    {
        self.base_sub(value);
    }

    pub fn inc<H: Bus>(&mut self, bus: &mut H, reference: Reference)
        ensures
            (final(self)@, final(bus)@) == spec_inc::<H>(old(self)@, old(bus)@, reference),
    {
        if reference.is16bit() {
            self.inc16(bus, reference)
        } else {
            self.inc8(bus, reference)
        }
    }

    #[verifier::rlimit(50)]
    pub fn inc8<H: Bus>(&mut self, bus: &mut H, reference: Reference)
        ensures
            (final(self)@, final(bus)@) == spec_inc8::<H>(old(self)@, old(bus)@, reference),
    {
        proof {
            lemma_byte_ops();
        }
        let value = self.reference(bus, reference) as u8;
        let result = value.wrapping_add(1);
        self.set_reference(bus, reference, result as u16);
        self.set_flag(Flag::Zero, result == 0);
        self.set_flag(Flag::AddSub, false);
        self.set_flag(Flag::HalfCarry, half_carry_add(value, 1));
    }

    #[verifier::rlimit(50)]
    pub fn inc16<H: Bus>(&mut self, bus: &mut H, reference: Reference)
        requires
            spec_reference_is16bit(reference),
        ensures
            (final(self)@, final(bus)@) == spec_inc16::<H>(old(self)@, old(bus)@, reference),
    {
        let value = self.reference(bus, reference);
        let result = value.wrapping_add(1);
        self.set_reference(bus, reference, result);
    }

    pub fn dec<H: Bus>(&mut self, bus: &mut H, reference: Reference)
        ensures
            (final(self)@, final(bus)@) == spec_dec::<H>(old(self)@, old(bus)@, reference),
    {
        if reference.is16bit() {
            self.dec16(bus, reference)
        } else {
            self.dec8(bus, reference)
        }
    }

    #[verifier::rlimit(50)]
    pub fn dec8<H: Bus>(&mut self, bus: &mut H, reference: Reference)
        ensures
            (final(self)@, final(bus)@) == spec_dec8::<H>(old(self)@, old(bus)@, reference),
    {
        proof {
            lemma_byte_ops();
        }
        let value = self.reference(bus, reference) as u8;
        let result = value.wrapping_sub(1);
        self.set_reference(bus, reference, result as u16);
        self.set_flag(Flag::AddSub, true);
        self.set_flag(Flag::Zero, result == 0);
        self.set_flag(Flag::HalfCarry, value % 16 < 1);
    }

    #[verifier::rlimit(50)]
    pub fn dec16<H: Bus>(&mut self, bus: &mut H, reference: Reference)
        requires
            spec_reference_is16bit(reference),
        ensures
            (final(self)@, final(bus)@) == spec_dec16::<H>(old(self)@, old(bus)@, reference),
    {
        let value = self.reference(bus, reference);
        self.set_reference(bus, reference, value.wrapping_sub(1));
    }

    /// Decimal adjustment of A, after the method of the nesdev forums.
    #[verifier::rlimit(50)]
    pub fn daa(&mut self)
        ensures
            final(self)@ == spec_daa(old(self)@),
    {
        proof {
            lemma_byte_ops();
        }
        let mut a = self.reg(RegisterType::A) as u8;
        let flag_n = self.flag(Flag::AddSub);
        let flag_c = self.flag(Flag::Carry);
        let flag_h = self.flag(Flag::HalfCarry);
        let mut u: u8 = 0;
        if flag_h || (!flag_n && (a % 16) > 9) {
            u = 6;
        }
        if flag_c || (!flag_n && a > 0x99) {
            u = u | 0x60;
            self.set_flag(Flag::Carry, true);
        }
        a = if flag_n {
            a.wrapping_sub(u)
        } else {
            a.wrapping_add(u)
        };
        self.set_reg(RegisterType::A, a as u16);
        self.set_flag(Flag::Zero, a == 0);
        self.set_flag(Flag::HalfCarry, false);
    }

    pub fn cpl(&mut self)
        ensures
            final(self)@ == spec_cpl(old(self)@),
    {
        let a = self.reg(RegisterType::A);
        self.set_reg(RegisterType::A, !a);
        self.set_flag(Flag::AddSub, true);
        self.set_flag(Flag::HalfCarry, true);
    }

    pub fn ccf(&mut self)
        ensures
            final(self)@ == spec_ccf(old(self)@),
    {
        let value = self.flag(Flag::Carry);
        self.set_flag(Flag::Carry, !value);
        self.set_flag(Flag::AddSub, false);
        self.set_flag(Flag::HalfCarry, false);
    }

    pub fn scf(&mut self)
        ensures
            final(self)@ == spec_scf(old(self)@),
    {
        self.set_flag(Flag::Carry, true);
        self.set_flag(Flag::AddSub, false);
        self.set_flag(Flag::HalfCarry, false);
    }

    /// Disables interrupts.
    pub fn di<H: Bus>(&mut self, bus: &mut H)
        ensures
            final(self)@ == old(self)@,
            final(bus)@ == H::spec_toggle_interrupts(old(bus)@, false),
    {
        bus.toggle_interrupts(false);
    }
}

} // verus!

verus! {

impl Processor {
    pub fn base_rlc<H: Bus>(&mut self, bus: &mut H, reference: Reference) -> (r: u8)
        ensures
            (final(self)@, final(bus)@, r) == spec_base_rlc::<H>(old(self)@, old(bus)@, reference),
    {
        proof {
            lemma_byte_ops();
        }
        let value = self.reference(bus, reference) as u8;
        self.set_flag(Flag::Carry, crate::util::bits::get_bit(value, 7));
        let result = (value << 1u8) | (value >> 7u8);
        self.set_reference(bus, reference, result as u16);
        self.set_flag(Flag::AddSub, false);
        self.set_flag(Flag::HalfCarry, false);
        result
    }

    pub fn rlc<H: Bus>(&mut self, bus: &mut H, reference: Reference)
        ensures
            (final(self)@, final(bus)@) == with_zero::<H>(spec_base_rlc::<H>(old(self)@, old(bus)@, reference)),
    {
        let result = self.base_rlc(bus, reference);
        self.set_flag(Flag::Zero, result == 0);
    }

    pub fn rlca<H: Bus>(&mut self, bus: &mut H)
        ensures
            (final(self)@, final(bus)@) == without_zero::<H>(
                spec_base_rlc::<H>(old(self)@, old(bus)@, Reference::Register(RegisterType::A)),
            ),
    {
        self.base_rlc(bus, Reference::Register(RegisterType::A));
        self.set_flag(Flag::Zero, false);
    }

    pub fn base_rl<H: Bus>(&mut self, bus: &mut H, reference: Reference) -> (r: u8)
        ensures
            (final(self)@, final(bus)@, r) == spec_base_rl::<H>(old(self)@, old(bus)@, reference),
    {
        proof {
            lemma_byte_ops();
        }
        let value = self.reference(bus, reference) as u8;
        let old_flag: u8 = if self.flag(Flag::Carry) { 1 } else { 0 };
        self.set_flag(Flag::Carry, crate::util::bits::get_bit(value, 7));
        let value = (value << 1u8) | old_flag;
        self.set_reference(bus, reference, value as u16);
        self.set_flag(Flag::AddSub, false);
        self.set_flag(Flag::HalfCarry, false);
        value
    }

    pub fn rl<H: Bus>(&mut self, bus: &mut H, reference: Reference)
        ensures
            (final(self)@, final(bus)@) == with_zero::<H>(spec_base_rl::<H>(old(self)@, old(bus)@, reference)),
    {
        let value = self.base_rl(bus, reference);
        self.set_flag(Flag::Zero, value == 0);
    }

    pub fn rla<H: Bus>(&mut self, bus: &mut H)
        ensures
            (final(self)@, final(bus)@) == without_zero::<H>(
                spec_base_rl::<H>(old(self)@, old(bus)@, Reference::Register(RegisterType::A)),
            ),
    {
        self.base_rl(bus, Reference::Register(RegisterType::A));
        self.set_flag(Flag::Zero, false);
    }

    pub fn base_rrc<H: Bus>(&mut self, bus: &mut H, reference: Reference) -> (r: u8)
        ensures
            (final(self)@, final(bus)@, r) == spec_base_rrc::<H>(old(self)@, old(bus)@, reference),
    {
        proof {
            lemma_byte_ops();
        }
        let value = self.reference(bus, reference) as u8;
        self.set_flag(Flag::Carry, crate::util::bits::get_bit(value, 0));
        let result = (value >> 1u8) | (value << 7u8);
        self.set_reference(bus, reference, result as u16);
        self.set_flag(Flag::AddSub, false);
        self.set_flag(Flag::HalfCarry, false);
        result
    }

    pub fn rrc<H: Bus>(&mut self, bus: &mut H, reference: Reference)
        ensures
            (final(self)@, final(bus)@) == with_zero::<H>(spec_base_rrc::<H>(old(self)@, old(bus)@, reference)),
    {
        let value = self.base_rrc(bus, reference);
        self.set_flag(Flag::Zero, value == 0);
    }

    pub fn rrca<H: Bus>(&mut self, bus: &mut H)
        ensures
            (final(self)@, final(bus)@) == without_zero::<H>(
                spec_base_rrc::<H>(old(self)@, old(bus)@, Reference::Register(RegisterType::A)),
            ),
    {
        self.base_rrc(bus, Reference::Register(RegisterType::A));
        self.set_flag(Flag::Zero, false);
    }

    pub fn base_rr<H: Bus>(&mut self, bus: &mut H, reference: Reference) -> (r: u8)
        ensures
            (final(self)@, final(bus)@, r) == spec_base_rr::<H>(old(self)@, old(bus)@, reference),
    {
        proof {
            lemma_byte_ops();
        }
        let value = self.reference(bus, reference) as u8;
        let old_flag: u8 = if self.flag(Flag::Carry) { 1 } else { 0 };
        self.set_flag(Flag::Carry, crate::util::bits::get_bit(value, 0));
        let value = (value >> 1u8) | (old_flag << 7u8);
        self.set_reference(bus, reference, value as u16);
        self.set_flag(Flag::AddSub, false);
        self.set_flag(Flag::HalfCarry, false);
        value
    }

    pub fn rr<H: Bus>(&mut self, bus: &mut H, reference: Reference)
        ensures
            (final(self)@, final(bus)@) == with_zero::<H>(spec_base_rr::<H>(old(self)@, old(bus)@, reference)),
    {
        let result = self.base_rr(bus, reference);
        self.set_flag(Flag::Zero, result == 0);
    }

    pub fn rra<H: Bus>(&mut self, bus: &mut H)
        ensures
            (final(self)@, final(bus)@) == without_zero::<H>(
                spec_base_rr::<H>(old(self)@, old(bus)@, Reference::Register(RegisterType::A)),
            ),
    {
        self.base_rr(bus, Reference::Register(RegisterType::A));
        self.set_flag(Flag::Zero, false);
    }

    pub fn swap<H: Bus>(&mut self, bus: &mut H, reference: Reference)
        ensures
            (final(self)@, final(bus)@) == spec_swap::<H>(old(self)@, old(bus)@, reference),
    {
        proof {
            lemma_byte_ops();
        }
        let value = self.reference(bus, reference) as u8;
        let value = (value << 4u8) | (value >> 4u8);
        self.set_reference(bus, reference, value as u16);
        self.set_flag(Flag::Zero, value == 0);
        self.set_flag(Flag::AddSub, false);
        self.set_flag(Flag::HalfCarry, false);
        self.set_flag(Flag::Carry, false);
    }

    pub fn sla<H: Bus>(&mut self, bus: &mut H, reference: Reference)
        ensures
            (final(self)@, final(bus)@) == spec_sla::<H>(old(self)@, old(bus)@, reference),
    {
        proof {
            lemma_byte_ops();
        }
        let value = self.reference(bus, reference) as u8;
        self.set_flag(Flag::Carry, crate::util::bits::get_bit(value, 7));
        let value = value << 1u8;
        self.set_reference(bus, reference, value as u16);
        self.set_flag(Flag::Zero, value == 0);
        self.set_flag(Flag::AddSub, false);
        self.set_flag(Flag::HalfCarry, false);
    }

    pub fn sra<H: Bus>(&mut self, bus: &mut H, reference: Reference)
        ensures
            (final(self)@, final(bus)@) == spec_sra::<H>(old(self)@, old(bus)@, reference),
    {
        proof {
            lemma_byte_ops();
        }
        let value = self.reference(bus, reference);
        let msb: u16 = if crate::util::bits::get_bit(value as u8, 7) { 1 } else { 0 };
        self.set_flag(Flag::Carry, crate::util::bits::get_bit(value as u8, 0));
        let shifted = (value >> 1u16) | (msb << 7u16);
        assert(value <= 0xFF ==> shifted <= 0xFF) by (bit_vector)
            requires
                msb <= 1,
                shifted == (value >> 1u16) | (msb << 7u16),
        ;
        let value = shifted;
        self.set_reference(bus, reference, value);
        self.set_flag(Flag::Zero, value == 0);
        self.set_flag(Flag::AddSub, false);
        self.set_flag(Flag::HalfCarry, false);
    }

    pub fn srl<H: Bus>(&mut self, bus: &mut H, reference: Reference)
        ensures
            (final(self)@, final(bus)@) == spec_srl::<H>(old(self)@, old(bus)@, reference),
    {
        proof {
            lemma_byte_ops();
        }
        let value = self.reference(bus, reference);
        self.set_flag(Flag::Carry, crate::util::bits::get_bit(value as u8, 0));
        let shifted = value >> 1u16;
        assert(value <= 0xFF ==> shifted <= 0xFF) by (bit_vector)
            requires
                shifted == value >> 1u16,
        ;
        let value = shifted;
        self.set_reference(bus, reference, value);
        self.set_flag(Flag::Zero, value == 0);
        self.set_flag(Flag::AddSub, false);
        self.set_flag(Flag::HalfCarry, false);
    }

    pub fn bit<H: Bus>(&mut self, bus: &mut H, bit: u8, reference: Reference)
        requires
            bit < 8,
        ensures
            final(self)@ == spec_bit::<H>(old(self)@, old(bus)@, bit, reference),
            final(bus)@ == old(bus)@,
    {
        proof {
            lemma_byte_ops();
        }
        let value = self.reference(bus, reference) as u8;
        self.set_flag(Flag::Zero, !crate::util::bits::get_bit(value, bit));
        self.set_flag(Flag::AddSub, false);
        self.set_flag(Flag::HalfCarry, true);
    }

    pub fn set<H: Bus>(&mut self, bus: &mut H, bit: u8, reference: Reference)
        requires
            bit < 8,
        ensures
            (final(self)@, final(bus)@) == spec_set_bit::<H>(old(self)@, old(bus)@, bit, reference, true),
    {
        proof {
            lemma_byte_ops();
        }
        let value = self.reference(bus, reference) as u8;
        self.set_reference(bus, reference, crate::util::bits::set_bit(value, bit, true) as u16);
    }

    pub fn res<H: Bus>(&mut self, bus: &mut H, bit: u8, reference: Reference)
        requires
            bit < 8,
        ensures
            (final(self)@, final(bus)@) == spec_set_bit::<H>(old(self)@, old(bus)@, bit, reference, false),
    {
        proof {
            lemma_byte_ops();
        }
        let value = self.reference(bus, reference) as u8;
        self.set_reference(bus, reference, crate::util::bits::set_bit(value, bit, false) as u16);
    }

    pub fn jp(&mut self, address: u16)
        ensures
            final(self)@ == set_reg_state(old(self)@, RegisterType::PC, address),
    {
        self.set_reg(RegisterType::PC, address);
    }

    pub fn jr(&mut self, inc: i8)
        ensures
            final(self)@ == spec_jr(old(self)@, inc),
    {
        let pc = self.reg(RegisterType::PC);
        let result = if inc < 0 {
            pc.wrapping_sub((0 - (inc as i16)) as u16)
        } else {
            pc.wrapping_add(inc as u16)
        };
        self.set_reg(RegisterType::PC, result);
    }

    pub fn call<H: Bus>(&mut self, bus: &mut H, address: u16)
        ensures
            (final(self)@, final(bus)@) == spec_call::<H>(old(self)@, old(bus)@, address),
    {
        let pc = self.reg(RegisterType::PC);
        self.push_stack(bus, pc);
        self.jp(address);
    }

    pub fn rst<H: Bus>(&mut self, bus: &mut H, address: u16)
        ensures
            (final(self)@, final(bus)@) == spec_call::<H>(old(self)@, old(bus)@, address),
    {
        let pc = self.reg(RegisterType::PC);
        self.push_stack(bus, pc);
        self.jp(address);
    }

    pub fn ret<H: Bus>(&mut self, bus: &mut H)
        ensures
            final(self)@ == spec_ret::<H>(old(self)@, old(bus)@),
            final(bus)@ == old(bus)@,
    {
        let address = self.pop_stack(bus);
        self.jp(address);
    }

    pub fn reti<H: Bus>(&mut self, bus: &mut H)
        ensures
            (final(self)@, final(bus)@) == spec_reti::<H>(old(self)@, old(bus)@),
    {
        self.ret(bus);
        self.immediate_ei(bus);
    }
}

} // verus!

verus! {

// ---------------------------------------------------------------------------------------
// Executing decoded instructions.
// ---------------------------------------------------------------------------------------

/// Why an instruction could not be executed.
#[derive(Copy, Clone, Debug, PartialEq, Eq, Structural)]
pub enum InstructionError {
    /// The operands are not of the kinds the mnemonic takes.
    WrongOperands,
    /// The mnemonic takes operands and the instruction has none.
    MissingOperands,
    /// A 16-bit value would be stored at 0xFFFF, its high byte past the address space.
    AddressOverflow,
}

/// The operands an instruction indexes are there.
pub open spec fn operands_defined(i: InstructionView) -> bool {
    match i.operands {
        None => true,
        Some(ops) => match i.mnemonic {
            InstructionMnemonic::LD | InstructionMnemonic::LDD | InstructionMnemonic::LDI
            | InstructionMnemonic::ADD | InstructionMnemonic::BIT | InstructionMnemonic::SET
            | InstructionMnemonic::RES => ops.len() >= 2,
            InstructionMnemonic::PUSH | InstructionMnemonic::POP | InstructionMnemonic::ADC
            | InstructionMnemonic::SUB | InstructionMnemonic::SBC | InstructionMnemonic::AND
            | InstructionMnemonic::OR | InstructionMnemonic::XOR | InstructionMnemonic::CP
            | InstructionMnemonic::INC | InstructionMnemonic::DEC | InstructionMnemonic::RLC
            | InstructionMnemonic::RL | InstructionMnemonic::RRC | InstructionMnemonic::RR
            | InstructionMnemonic::SWAP | InstructionMnemonic::SLA | InstructionMnemonic::SRA
            | InstructionMnemonic::SRL | InstructionMnemonic::RST | InstructionMnemonic::RET => ops.len() >= 1,
            _ => true,
        },
    }
}

/// No opcode of the extended table decodes to the prefix itself.
pub proof fn lemma_cb_table_has_no_prefix(opcode: u8)
    ensures
        spec_decode(opcode, Prefix::CB) is Some,
        spec_decode(opcode, Prefix::CB).unwrap().mnemonic != InstructionMnemonic::CB,
        spec_decode(opcode, Prefix::CB).unwrap().mnemonic != InstructionMnemonic::LD,
        spec_decode(opcode, Prefix::CB).unwrap().mnemonic != InstructionMnemonic::LDD,
        spec_decode(opcode, Prefix::CB).unwrap().mnemonic != InstructionMnemonic::LDI,
{
}

/// The result of executing an instruction other than the prefix, and the processor and
/// bus after it. An operand error leaves both unchanged; a load that would store a 16-bit
/// value at 0xFFFF stops once its value is read.
pub open spec fn spec_execute_base<H: Bus>(
    s: ProcessorView,
    b: H::V,
    i: InstructionView,
) -> (Result<(), InstructionError>, ProcessorView, H::V) {
    let missing = (Err(InstructionError::MissingOperands), s, b);
    let wrong = (Err(InstructionError::WrongOperands), s, b);
    match i.mnemonic {
        InstructionMnemonic::LD | InstructionMnemonic::LDD | InstructionMnemonic::LDI => match i.operands {
            Some(ops) => match (ops[0], ops[1]) {
                (Operand::Reference(r), Operand::Value(v)) => {
                    let (s1, value) = spec_operand_value::<H>(s, b, v);
                    if !spec_set_reference_defined::<H>(s1, b, r, value) {
                        (Err(InstructionError::AddressOverflow), s1, b)
                    } else {
                        let (s2, b2) = if i.mnemonic == InstructionMnemonic::LD {
                            spec_ld::<H>(s1, b, r, value)
                        } else if i.mnemonic == InstructionMnemonic::LDD {
                            spec_ldd::<H>(s, b, r, v)
                        } else {
                            spec_ldi::<H>(s, b, r, v)
                        };
                        (Ok(()), s2, b2)
                    }
                },
                _ => wrong,
            },
            None => missing,
        },
        InstructionMnemonic::LDHL => (Ok(()), spec_ldhl::<H>(s, b), b),
        InstructionMnemonic::PUSH => match i.operands {
            Some(ops) => match ops[0] {
                Operand::Value(v) => {
                    let (s1, value) = spec_operand_value::<H>(s, b, v);
                    let (s2, b2) = spec_push_stack::<H>(s1, b, value);
                    (Ok(()), s2, b2)
                },
                _ => wrong,
            },
            None => missing,
        },
        InstructionMnemonic::POP => match i.operands {
            Some(ops) => match ops[0] {
                Operand::Reference(Reference::Register(r)) => (Ok(()), spec_pop_reg::<H>(s, b, r), b),
                _ => wrong,
            },
            None => missing,
        },
        InstructionMnemonic::ADD => match i.operands {
            Some(ops) => match (ops[0], ops[1]) {
                (Operand::Reference(Reference::Register(r)), Operand::Value(v)) => {
                    let (s1, value) = spec_operand_value::<H>(s, b, v);
                    if crate::processor::registers::spec_is16bit(r) {
                        (Ok(()), spec_add16(s1, r, value), b)
                    } else {
                        (Ok(()), spec_add(s1, r, low_byte(value)), b)
                    }
                },
                _ => wrong,
            },
            None => missing,
        },
        InstructionMnemonic::ADC | InstructionMnemonic::SUB | InstructionMnemonic::SBC
        | InstructionMnemonic::AND | InstructionMnemonic::OR | InstructionMnemonic::XOR
        | InstructionMnemonic::CP => match i.operands {
            Some(ops) => match ops[0] {
                Operand::Value(v) => {
                    let (s1, value) = spec_operand_value::<H>(s, b, v);
                    let n = low_byte(value);
                    let s2 = match i.mnemonic {
                        InstructionMnemonic::ADC => spec_adc(s1, n),
                        InstructionMnemonic::SUB => spec_sub(s1, n),
                        InstructionMnemonic::SBC => spec_sbc(s1, n),
                        InstructionMnemonic::AND => spec_and(s1, n),
                        InstructionMnemonic::OR => spec_or(s1, n),
                        InstructionMnemonic::XOR => spec_xor(s1, n),
                        _ => spec_cp(s1, n),
                    };
                    (Ok(()), s2, b)
                },
                _ => wrong,
            },
            None => missing,
        },
        InstructionMnemonic::INC | InstructionMnemonic::DEC => match i.operands {
            Some(ops) => match ops[0] {
                Operand::Reference(r) => {
                    let (s1, b1) = if i.mnemonic == InstructionMnemonic::INC {
                        spec_inc::<H>(s, b, r)
                    } else {
                        spec_dec::<H>(s, b, r)
                    };
                    (Ok(()), s1, b1)
                },
                _ => wrong,
            },
            None => missing,
        },
        InstructionMnemonic::DAA => (Ok(()), spec_daa(s), b),
        InstructionMnemonic::CPL => (Ok(()), spec_cpl(s), b),
        InstructionMnemonic::CCF => (Ok(()), spec_ccf(s), b),
        InstructionMnemonic::SCF => (Ok(()), spec_scf(s), b),
        InstructionMnemonic::NOP => (Ok(()), s, b),
        InstructionMnemonic::HALT => (Ok(()), spec_halt::<H>(s, b), b),
        InstructionMnemonic::STOP => (Ok(()), ProcessorView { halt_mode: HaltMode::Normal, ..s }, b),
        InstructionMnemonic::DI => (Ok(()), s, H::spec_toggle_interrupts(b, false)),
        InstructionMnemonic::EI => (Ok(()), ProcessorView { pending_ei: true, ..s }, b),
        InstructionMnemonic::RLC | InstructionMnemonic::RL | InstructionMnemonic::RRC
        | InstructionMnemonic::RR | InstructionMnemonic::SWAP => match i.operands {
            Some(ops) => match ops[0] {
                Operand::Reference(r) => {
                    let (s1, b1) = match i.mnemonic {
                        InstructionMnemonic::RLC => with_zero::<H>(spec_base_rlc::<H>(s, b, r)),
                        InstructionMnemonic::RL => with_zero::<H>(spec_base_rl::<H>(s, b, r)),
                        InstructionMnemonic::RRC => with_zero::<H>(spec_base_rrc::<H>(s, b, r)),
                        InstructionMnemonic::RR => with_zero::<H>(spec_base_rr::<H>(s, b, r)),
                        _ => spec_swap::<H>(s, b, r),
                    };
                    (Ok(()), s1, b1)
                },
                _ => wrong,
            },
            None => missing,
        },
        InstructionMnemonic::RLCA => {
            let (s1, b1) = without_zero::<H>(spec_base_rlc::<H>(s, b, Reference::Register(RegisterType::A)));
            (Ok(()), s1, b1)
        },
        InstructionMnemonic::RLA => {
            let (s1, b1) = without_zero::<H>(spec_base_rl::<H>(s, b, Reference::Register(RegisterType::A)));
            (Ok(()), s1, b1)
        },
        InstructionMnemonic::RRCA => {
            let (s1, b1) = without_zero::<H>(spec_base_rrc::<H>(s, b, Reference::Register(RegisterType::A)));
            (Ok(()), s1, b1)
        },
        InstructionMnemonic::RRA => {
            let (s1, b1) = without_zero::<H>(spec_base_rr::<H>(s, b, Reference::Register(RegisterType::A)));
            (Ok(()), s1, b1)
        },
        InstructionMnemonic::SLA | InstructionMnemonic::SRA | InstructionMnemonic::SRL => match i.operands {
            Some(ops) => match ops[0] {
                Operand::Reference(r) => {
                    let (s1, b1) = match i.mnemonic {
                        InstructionMnemonic::SLA => spec_sla::<H>(s, b, r),
                        InstructionMnemonic::SRA => spec_sra::<H>(s, b, r),
                        _ => spec_srl::<H>(s, b, r),
                    };
                    (Ok(()), s1, b1)
                },
                _ => wrong,
            },
            None => missing,
        },
        InstructionMnemonic::BIT | InstructionMnemonic::SET | InstructionMnemonic::RES => match i.operands {
            Some(ops) => match (ops[0], ops[1]) {
                (Operand::Value(ValueType::Constant(value)), Operand::Reference(r)) => {
                    let bit = low_byte(value);
                    match i.mnemonic {
                        InstructionMnemonic::BIT => (Ok(()), spec_bit::<H>(s, b, bit, r), b),
                        InstructionMnemonic::SET => {
                            let (s1, b1) = spec_set_bit::<H>(s, b, bit, r, true);
                            (Ok(()), s1, b1)
                        },
                        _ => {
                            let (s1, b1) = spec_set_bit::<H>(s, b, bit, r, false);
                            (Ok(()), s1, b1)
                        },
                    }
                },
                _ => wrong,
            },
            None => missing,
        },
        InstructionMnemonic::JP | InstructionMnemonic::JR | InstructionMnemonic::CALL => match i.operands {
            Some(ops) => if ops.len() == 1 {
                match ops[0] {
                    Operand::Value(v) => {
                        let (s1, address) = spec_operand_value::<H>(s, b, v);
                        let (s2, b2) = spec_jump::<H>(s1, b, i.mnemonic, address);
                        (Ok(()), s2, b2)
                    },
                    _ => wrong,
                }
            } else if ops.len() == 2 {
                match (ops[0], ops[1]) {
                    (Operand::Condition(flag, value), Operand::Value(v)) => {
                        let (s1, address) = spec_operand_value::<H>(s, b, v);
                        if spec_operand_condition(s1, flag, value) {
                            let (s2, b2) = spec_jump::<H>(s1, b, i.mnemonic, address);
                            (Ok(()), s2, b2)
                        } else {
                            (Ok(()), s1, b)
                        }
                    },
                    _ => wrong,
                }
            } else {
                (Ok(()), s, b)
            },
            None => missing,
        },
        InstructionMnemonic::RST => match i.operands {
            Some(ops) => match ops[0] {
                Operand::Value(ValueType::Constant(v)) => {
                    let (s1, b1) = spec_call::<H>(s, b, v);
                    (Ok(()), s1, b1)
                },
                _ => wrong,
            },
            None => missing,
        },
        InstructionMnemonic::RET => match i.operands {
            Some(ops) => match ops[0] {
                Operand::Condition(flag, value) => if spec_operand_condition(s, flag, value) {
                    (Ok(()), spec_ret::<H>(s, b), b)
                } else {
                    (Ok(()), s, b)
                },
                _ => wrong,
            },
            None => (Ok(()), spec_ret::<H>(s, b), b),
        },
        InstructionMnemonic::RETI => {
            let (s1, b1) = spec_reti::<H>(s, b);
            (Ok(()), s1, b1)
        },
        InstructionMnemonic::CB => (Ok(()), s, b),
    }
}

/// Running the instruction of the extended table at PC, if the opcode has one.
pub open spec fn spec_execute_extended<H: Bus>(s: ProcessorView, b: H::V) -> (Result<(), InstructionError>, ProcessorView, H::V, u8) {
    let (s1, opcode) = spec_immediate::<H>(s, b);
    match spec_decode(opcode, Prefix::CB) {
        Some(i) => {
            let r = spec_execute_base::<H>(s1, b, i);
            (r.0, r.1, r.2, i.cycle_count)
        },
        None => (Ok(()), s1, b, 0),
    }
}

/// The result of executing an instruction, and the processor and bus after it. An error
/// leaves both unchanged. The prefix runs the instruction of the extended table that
/// follows it.
pub open spec fn spec_execute<H: Bus>(
    s: ProcessorView,
    b: H::V,
    i: InstructionView,
) -> (Result<(), InstructionError>, ProcessorView, H::V) {
    if i.mnemonic == InstructionMnemonic::CB {
        let r = spec_execute_extended::<H>(s, b);
        (Ok(()), r.1, r.2)
    } else {
        spec_execute_base::<H>(s, b, i)
    }
}

/// `JP`, `JR` or `CALL` to an address (for `JR`, the address read as a signed offset).
pub open spec fn spec_jump<H: Bus>(
    s: ProcessorView,
    b: H::V,
    mnemonic: InstructionMnemonic,
    address: u16,
) -> (ProcessorView, H::V) {
    if mnemonic == InstructionMnemonic::JP {
        (set_reg_state(s, RegisterType::PC, address), b)
    } else if mnemonic == InstructionMnemonic::JR {
        (spec_jr(s, address as i8), b)
    } else {
        spec_call::<H>(s, b, address)
    }
}

/// Reading an opcode at PC under a prefix, and executing its instruction: the
/// processor and bus after it, the instruction's cycle count (0 when the opcode has no
/// instruction) and the result of the instruction.
pub open spec fn spec_execute_next<H: Bus>(
    s: ProcessorView,
    b: H::V,
    prefix: Prefix,
) -> (ProcessorView, H::V, u8, Result<(), InstructionError>) {
    let (s1, opcode) = spec_immediate::<H>(s, b);
    match spec_decode(opcode, prefix) {
        Some(i) => {
            let r = spec_execute::<H>(s1, b, i);
            (r.1, r.2, i.cycle_count, r.0)
        },
        None => (s1, b, 0, Ok(())),
    }
}

/// An instruction other than the prefix can be executed without going out of bounds: its
/// operands are there and a bit number is below 8.
pub open spec fn spec_execute_base_defined<H: Bus>(s: ProcessorView, b: H::V, i: InstructionView) -> bool {
    operands_defined(i) && match i.mnemonic {
        InstructionMnemonic::BIT | InstructionMnemonic::SET | InstructionMnemonic::RES => match i.operands {
            Some(ops) => match (ops[0], ops[1]) {
                (Operand::Value(ValueType::Constant(value)), Operand::Reference(_)) => low_byte(value) < 8,
                _ => true,
            },
            None => true,
        },
        _ => true,
    }
}

/// The instruction of the extended table at PC can be executed and succeeds.
pub open spec fn spec_execute_extended_defined<H: Bus>(s: ProcessorView, b: H::V) -> bool {
    let (s1, opcode) = spec_immediate::<H>(s, b);
    match spec_decode(opcode, Prefix::CB) {
        Some(i) => spec_execute_base_defined::<H>(s1, b, i) && spec_execute_base::<H>(s1, b, i).0 is Ok,
        None => true,
    }
}

/// The instruction can be executed without going out of bounds; the prefix, when the
/// instruction of the extended table that follows it can be.
pub open spec fn spec_execute_defined<H: Bus>(s: ProcessorView, b: H::V, i: InstructionView) -> bool {
    if i.mnemonic == InstructionMnemonic::CB {
        operands_defined(i) && spec_execute_extended_defined::<H>(s, b)
    } else {
        spec_execute_base_defined::<H>(s, b, i)
    }
}

/// The opcode at PC has no instruction, or its instruction can be executed and succeeds.
pub open spec fn spec_execute_next_defined<H: Bus>(s: ProcessorView, b: H::V, prefix: Prefix) -> bool {
    let (s1, opcode) = spec_immediate::<H>(s, b);
    match spec_decode(opcode, prefix) {
        Some(i) => spec_execute_defined::<H>(s1, b, i),
        None => true,
    }
}

} // verus!

verus! {

impl Processor {
    /// Executes a decoded instruction.
    #[verifier::rlimit(100)]
    pub fn execute<H: Bus>(&mut self, bus: &mut H, instruction: InstructionInfo) -> (r: Result<(), InstructionError>)
        requires
            spec_execute_defined::<H>(old(self)@, old(bus)@, instruction@),
        ensures
            (r, final(self)@, final(bus)@) == spec_execute::<H>(old(self)@, old(bus)@, instruction@),
        decreases (if instruction@.mnemonic == InstructionMnemonic::CB { 6int } else { 0int }),
    {
        let mnemonic = *instruction.mnemonic();
        match mnemonic {
            InstructionMnemonic::LD | InstructionMnemonic::LDD | InstructionMnemonic::LDI | InstructionMnemonic::LDHL | InstructionMnemonic::PUSH | InstructionMnemonic::POP => self.execute_load(bus, &instruction),
            InstructionMnemonic::ADD | InstructionMnemonic::ADC | InstructionMnemonic::SUB | InstructionMnemonic::SBC | InstructionMnemonic::AND | InstructionMnemonic::OR | InstructionMnemonic::XOR | InstructionMnemonic::CP | InstructionMnemonic::INC | InstructionMnemonic::DEC => self.execute_arithmetic(bus, &instruction),
            InstructionMnemonic::RLC | InstructionMnemonic::RL | InstructionMnemonic::RRC | InstructionMnemonic::RR | InstructionMnemonic::SWAP | InstructionMnemonic::SLA | InstructionMnemonic::SRA | InstructionMnemonic::SRL => self.execute_shift(bus, &instruction),
            InstructionMnemonic::BIT | InstructionMnemonic::SET | InstructionMnemonic::RES => self.execute_bits(bus, &instruction),
            InstructionMnemonic::JP | InstructionMnemonic::JR | InstructionMnemonic::CALL | InstructionMnemonic::RST | InstructionMnemonic::RET => self.execute_jump(bus, &instruction),
            InstructionMnemonic::DAA | InstructionMnemonic::CPL | InstructionMnemonic::CCF | InstructionMnemonic::SCF | InstructionMnemonic::NOP | InstructionMnemonic::HALT | InstructionMnemonic::STOP | InstructionMnemonic::DI | InstructionMnemonic::EI | InstructionMnemonic::RLCA | InstructionMnemonic::RLA | InstructionMnemonic::RRCA | InstructionMnemonic::RRA | InstructionMnemonic::RETI => self.execute_simple(bus, &instruction),
            InstructionMnemonic::CB => self.execute_prefixed(bus, &instruction),

        }
    }

    /// Executes the prefix: the instruction of the extended table that follows it.
    fn execute_prefixed<H: Bus>(&mut self, bus: &mut H, instruction: &InstructionInfo) -> (r: Result<(), InstructionError>)
        requires
            spec_execute_defined::<H>(old(self)@, old(bus)@, instruction@),
            instruction@.mnemonic == InstructionMnemonic::CB,
        ensures
            (r, final(self)@, final(bus)@) == spec_execute::<H>(old(self)@, old(bus)@, instruction@),
        decreases 5int,
    {
        self.cb(bus);
        Ok(())
    }

    /// Executes an instruction without operands other than the prefix.
    #[verifier::rlimit(100)]
    #[verifier::spinoff_prover]
    fn execute_simple<H: Bus>(&mut self, bus: &mut H, instruction: &InstructionInfo) -> (r: Result<(), InstructionError>)
        requires
            spec_execute_defined::<H>(old(self)@, old(bus)@, instruction@),
            instruction@.mnemonic == InstructionMnemonic::DAA || instruction@.mnemonic == InstructionMnemonic::CPL || instruction@.mnemonic == InstructionMnemonic::CCF || instruction@.mnemonic == InstructionMnemonic::SCF || instruction@.mnemonic == InstructionMnemonic::NOP || instruction@.mnemonic == InstructionMnemonic::HALT || instruction@.mnemonic == InstructionMnemonic::STOP || instruction@.mnemonic == InstructionMnemonic::DI || instruction@.mnemonic == InstructionMnemonic::EI || instruction@.mnemonic == InstructionMnemonic::RLCA || instruction@.mnemonic == InstructionMnemonic::RLA || instruction@.mnemonic == InstructionMnemonic::RRCA || instruction@.mnemonic == InstructionMnemonic::RRA || instruction@.mnemonic == InstructionMnemonic::RETI,
        ensures
            (r, final(self)@, final(bus)@) == spec_execute::<H>(old(self)@, old(bus)@, instruction@),
    {
        let mnemonic = *instruction.mnemonic();
        match mnemonic {
            InstructionMnemonic::DAA => self.daa(),
            InstructionMnemonic::CPL => self.cpl(),
            InstructionMnemonic::CCF => self.ccf(),
            InstructionMnemonic::SCF => self.scf(),
            InstructionMnemonic::NOP => {},
            InstructionMnemonic::HALT => self.halt(bus),
            InstructionMnemonic::STOP => self.stop(),
            InstructionMnemonic::DI => self.di(bus),
            InstructionMnemonic::EI => self.ei(),
            InstructionMnemonic::RLCA => self.rlca(bus),
            InstructionMnemonic::RLA => self.rla(bus),
            InstructionMnemonic::RRCA => self.rrca(bus),
            InstructionMnemonic::RRA => self.rra(bus),
            InstructionMnemonic::RETI => self.reti(bus),
            _ => {},
        };
        Ok(())
    }

    /// Executes a load, a stack push or a pop.
    #[verifier::rlimit(100)]
    #[verifier::spinoff_prover]
    fn execute_load<H: Bus>(&mut self, bus: &mut H, instruction: &InstructionInfo) -> (r: Result<(), InstructionError>)
        requires
            spec_execute_defined::<H>(old(self)@, old(bus)@, instruction@),
            instruction@.mnemonic == InstructionMnemonic::LD || instruction@.mnemonic == InstructionMnemonic::LDD || instruction@.mnemonic == InstructionMnemonic::LDI || instruction@.mnemonic == InstructionMnemonic::LDHL || instruction@.mnemonic == InstructionMnemonic::PUSH || instruction@.mnemonic == InstructionMnemonic::POP,
        ensures
            (r, final(self)@, final(bus)@) == spec_execute::<H>(old(self)@, old(bus)@, instruction@),
    {
        let mnemonic = *instruction.mnemonic();
        match mnemonic {
            InstructionMnemonic::LD | InstructionMnemonic::LDD | InstructionMnemonic::LDI => {
                if let Some(operands) = instruction.operands() {
                    if let (Operand::Reference(r), Operand::Value(v)) = (operands[0], operands[1]) {
                        let value = self.operand_value(bus, v);
                        if !self.reference_fits(bus, r, value) {
                            return Err(InstructionError::AddressOverflow);
                        }
                        self.ld(bus, r, value);
                        match mnemonic {
                            InstructionMnemonic::LDD => self.dec(bus, Reference::Register(RegisterType::HL)),
                            InstructionMnemonic::LDI => self.inc(bus, Reference::Register(RegisterType::HL)),
                            _ => {},
                        };
                    } else {
                        return Err(InstructionError::WrongOperands);
                    }
                } else {
                    return Err(InstructionError::MissingOperands);
                }
            },
            InstructionMnemonic::LDHL => self.ldhl(bus),
            InstructionMnemonic::PUSH => {
                if let Some(operands) = instruction.operands() {
                    if let Operand::Value(value) = operands[0] {
                        let value = self.operand_value(bus, value);
                        self.push(bus, value);
                    } else {
                        return Err(InstructionError::WrongOperands);
                    }
                } else {
                    return Err(InstructionError::MissingOperands);
                }
            },
            InstructionMnemonic::POP => {
                if let Some(operands) = instruction.operands() {
                    if let Operand::Reference(Reference::Register(r)) = operands[0] {
                        self.pop(bus, r);
                    } else {
                        return Err(InstructionError::WrongOperands);
                    }
                } else {
                    return Err(InstructionError::MissingOperands);
                }
            },
            _ => {},
        };
        Ok(())
    }

    /// Executes an arithmetic or logic instruction, or an increment or decrement.
    #[verifier::rlimit(100)]
    #[verifier::spinoff_prover]
    fn execute_arithmetic<H: Bus>(&mut self, bus: &mut H, instruction: &InstructionInfo) -> (r: Result<(), InstructionError>)
        requires
            spec_execute_defined::<H>(old(self)@, old(bus)@, instruction@),
            instruction@.mnemonic == InstructionMnemonic::ADD || instruction@.mnemonic == InstructionMnemonic::ADC || instruction@.mnemonic == InstructionMnemonic::SUB || instruction@.mnemonic == InstructionMnemonic::SBC || instruction@.mnemonic == InstructionMnemonic::AND || instruction@.mnemonic == InstructionMnemonic::OR || instruction@.mnemonic == InstructionMnemonic::XOR || instruction@.mnemonic == InstructionMnemonic::CP || instruction@.mnemonic == InstructionMnemonic::INC || instruction@.mnemonic == InstructionMnemonic::DEC,
        ensures
            (r, final(self)@, final(bus)@) == spec_execute::<H>(old(self)@, old(bus)@, instruction@),
    {
        let mnemonic = *instruction.mnemonic();
        match mnemonic {
            InstructionMnemonic::ADD => {
                if let Some(operands) = instruction.operands() {
                    if let (Operand::Reference(Reference::Register(r)), Operand::Value(v)) = (
                        operands[0],
                        operands[1],
                    ) {
                        proof {
                            lemma_byte_ops();
                        }
                        let value = self.operand_value(bus, v);
                        if r.is16bit() {
                            self.add16(r, value);
                        } else {
                            self.add(r, value as u8);
                        }
                    } else {
                        return Err(InstructionError::WrongOperands);
                    }
                } else {
                    return Err(InstructionError::MissingOperands);
                }
            },
            InstructionMnemonic::ADC | InstructionMnemonic::SUB | InstructionMnemonic::SBC
            | InstructionMnemonic::AND | InstructionMnemonic::OR | InstructionMnemonic::XOR => {
                if let Some(operands) = instruction.operands() {
                    if let Operand::Value(v) = operands[0] {
                        proof {
                            lemma_byte_ops();
                        }
                        let value = self.operand_value(bus, v) as u8;
                        match mnemonic {
                            InstructionMnemonic::ADC => self.adc(value),
                            InstructionMnemonic::SUB => self.sub(value),
                            InstructionMnemonic::SBC => self.sbc(value),
                            InstructionMnemonic::AND => self.and(value),
                            InstructionMnemonic::OR => self.or(value),
                            _ => self.xor(value),
                        };
                    } else {
                        return Err(InstructionError::WrongOperands);
                    }
                } else {
                    return Err(InstructionError::MissingOperands);
                }
            },
            InstructionMnemonic::CP => {
                if let Some(operands) = instruction.operands() {
                    if let Operand::Value(value) = operands[0] {
                        proof {
                            lemma_byte_ops();
                        }
                        let value = self.operand_value(bus, value);
                        self.cp(value as u8);
                    } else {
                        return Err(InstructionError::WrongOperands);
                    }
                } else {
                    return Err(InstructionError::MissingOperands);
                }
            },
            InstructionMnemonic::INC | InstructionMnemonic::DEC => {
                if let Some(operands) = instruction.operands() {
                    if let Operand::Reference(reference) = operands[0] {
                        if let InstructionMnemonic::INC = mnemonic {
                            self.inc(bus, reference);
                        } else {
                            self.dec(bus, reference);
                        }
                    } else {
                        return Err(InstructionError::WrongOperands);
                    }
                } else {
                    return Err(InstructionError::MissingOperands);
                }
            },
            _ => {},
        };
        Ok(())
    }

    /// Executes a rotation, a nibble swap or a shift.
    #[verifier::rlimit(100)]
    #[verifier::spinoff_prover]
    fn execute_shift<H: Bus>(&mut self, bus: &mut H, instruction: &InstructionInfo) -> (r: Result<(), InstructionError>)
        requires
            spec_execute_defined::<H>(old(self)@, old(bus)@, instruction@),
            instruction@.mnemonic == InstructionMnemonic::RLC || instruction@.mnemonic == InstructionMnemonic::RL || instruction@.mnemonic == InstructionMnemonic::RRC || instruction@.mnemonic == InstructionMnemonic::RR || instruction@.mnemonic == InstructionMnemonic::SWAP || instruction@.mnemonic == InstructionMnemonic::SLA || instruction@.mnemonic == InstructionMnemonic::SRA || instruction@.mnemonic == InstructionMnemonic::SRL,
        ensures
            (r, final(self)@, final(bus)@) == spec_execute::<H>(old(self)@, old(bus)@, instruction@),
    {
        let mnemonic = *instruction.mnemonic();
        match mnemonic {
            InstructionMnemonic::RLC | InstructionMnemonic::RL | InstructionMnemonic::RRC
            | InstructionMnemonic::RR | InstructionMnemonic::SWAP => {
                if let Some(operands) = instruction.operands() {
                    if let Operand::Reference(r) = operands[0] {
                        match mnemonic {
                            InstructionMnemonic::RLC => self.rlc(bus, r),
                            InstructionMnemonic::RL => self.rl(bus, r),
                            InstructionMnemonic::RRC => self.rrc(bus, r),
                            InstructionMnemonic::RR => self.rr(bus, r),
                            _ => self.swap(bus, r),
                        };
                    } else {
                        return Err(InstructionError::WrongOperands);
                    }
                } else {
                    return Err(InstructionError::MissingOperands);
                }
            },
            InstructionMnemonic::SLA | InstructionMnemonic::SRA | InstructionMnemonic::SRL => {
                if let Some(operands) = instruction.operands() {
                    if let Operand::Reference(r) = operands[0] {
                        match mnemonic {
                            InstructionMnemonic::SLA => self.sla(bus, r),
                            InstructionMnemonic::SRA => self.sra(bus, r),
                            _ => self.srl(bus, r),
                        };
                    } else {
                        return Err(InstructionError::WrongOperands);
                    }
                } else {
                    return Err(InstructionError::MissingOperands);
                }
            },
            _ => {},
        };
        Ok(())
    }

    /// Executes a bit test, set or reset.
    #[verifier::rlimit(100)]
    #[verifier::spinoff_prover]
    fn execute_bits<H: Bus>(&mut self, bus: &mut H, instruction: &InstructionInfo) -> (r: Result<(), InstructionError>)
        requires
            spec_execute_defined::<H>(old(self)@, old(bus)@, instruction@),
            instruction@.mnemonic == InstructionMnemonic::BIT || instruction@.mnemonic == InstructionMnemonic::SET || instruction@.mnemonic == InstructionMnemonic::RES,
        ensures
            (r, final(self)@, final(bus)@) == spec_execute::<H>(old(self)@, old(bus)@, instruction@),
    {
        let mnemonic = *instruction.mnemonic();
        match mnemonic {
            InstructionMnemonic::BIT | InstructionMnemonic::SET | InstructionMnemonic::RES => {
                if let Some(operands) = instruction.operands() {
                    if let (Operand::Value(ValueType::Constant(value)), Operand::Reference(r)) = (
                        operands[0],
                        operands[1],
                    ) {
                        proof {
                            lemma_byte_ops();
                        }
                        let value = value as u8;
                        match mnemonic {
                            InstructionMnemonic::BIT => self.bit(bus, value, r),
                            InstructionMnemonic::SET => self.set(bus, value, r),
                            _ => self.res(bus, value, r),
                        };
                    } else {
                        return Err(InstructionError::WrongOperands);
                    }
                } else {
                    return Err(InstructionError::MissingOperands);
                }
            },
            _ => {},
        };
        Ok(())
    }

    /// Executes a jump, a call, a restart or a return.
    #[verifier::rlimit(100)]
    fn execute_jump<H: Bus>(&mut self, bus: &mut H, instruction: &InstructionInfo) -> (r: Result<(), InstructionError>)
        requires
            spec_execute_defined::<H>(old(self)@, old(bus)@, instruction@),
            instruction@.mnemonic == InstructionMnemonic::JP || instruction@.mnemonic == InstructionMnemonic::JR || instruction@.mnemonic == InstructionMnemonic::CALL || instruction@.mnemonic == InstructionMnemonic::RST || instruction@.mnemonic == InstructionMnemonic::RET,
        ensures
            (r, final(self)@, final(bus)@) == spec_execute::<H>(old(self)@, old(bus)@, instruction@),
    {
        let mnemonic = *instruction.mnemonic();
        match mnemonic {
            InstructionMnemonic::JP | InstructionMnemonic::JR | InstructionMnemonic::CALL => {
                if let Some(operands) = instruction.operands() {
                    if operands.len() == 1 {
                        if let Operand::Value(value) = operands[0] {
                            let address = self.operand_value(bus, value);
                            self.jump(bus, mnemonic, address);
                        } else {
                            return Err(InstructionError::WrongOperands);
                        }
                    } else if operands.len() == 2 {
                        if let (Operand::Condition(flag, condition), Operand::Value(value)) = (
                            operands[0],
                            operands[1],
                        ) {
                            let address = self.operand_value(bus, value);
                            if self.operand_condition(flag, condition) {
                                self.jump(bus, mnemonic, address);
                            }
                        } else {
                            return Err(InstructionError::WrongOperands);
                        }
                    }
                } else {
                    return Err(InstructionError::MissingOperands);
                }
            },
            InstructionMnemonic::RST => {
                if let Some(operands) = instruction.operands() {
                    if let Operand::Value(ValueType::Constant(v)) = operands[0] {
                        self.rst(bus, v);
                    } else {
                        return Err(InstructionError::WrongOperands);
                    }
                } else {
                    return Err(InstructionError::MissingOperands);
                }
            },
            InstructionMnemonic::RET => {
                if let Some(operands) = instruction.operands() {
                    if let Operand::Condition(flag, condition) = operands[0] {
                        if self.operand_condition(flag, condition) {
                            self.ret(bus);
                        }
                    } else {
                        return Err(InstructionError::WrongOperands);
                    }
                } else {
                    self.ret(bus);
                }
            },
            _ => {},
        };
        Ok(())
    }

    /// `JP`, `JR` or `CALL` to an address.
    fn jump<H: Bus>(&mut self, bus: &mut H, mnemonic: InstructionMnemonic, address: u16)
        ensures
            (final(self)@, final(bus)@) == spec_jump::<H>(old(self)@, old(bus)@, mnemonic, address),
    {
        match mnemonic {
            InstructionMnemonic::JP => {
                self.jp(address);
            },
            InstructionMnemonic::JR => {
                self.jr(address as i8);
            },
            _ => {
                self.call(bus, address);
            },
        }
    }

    /// Executes the instruction of the extended table that follows the prefix.
    pub fn cb<H: Bus>(&mut self, bus: &mut H)
        requires
            spec_execute_next_defined::<H>(old(self)@, old(bus)@, Prefix::CB),
        ensures
            (final(self)@, final(bus)@) == (
                spec_execute_next::<H>(old(self)@, old(bus)@, Prefix::CB).0,
                spec_execute_next::<H>(old(self)@, old(bus)@, Prefix::CB).1,
            ),
        decreases 4int,
    {
        let _ = self.execute_next(bus, Prefix::CB);
    }

    /// Reads the opcode at PC, decodes it under the prefix and executes it; returns its
    /// cycle count (0 when the opcode has no instruction) and the result of the
    /// instruction.
    pub fn execute_next<H: Bus>(&mut self, bus: &mut H, prefix: Prefix) -> (r: (u8, Result<(), InstructionError>))
        requires
            spec_execute_next_defined::<H>(old(self)@, old(bus)@, prefix),
        ensures
            (final(self)@, final(bus)@, r.0, r.1) == spec_execute_next::<H>(old(self)@, old(bus)@, prefix),
            r.0 <= 32,
        decreases (if prefix == Prefix::Base { 7int } else { 3int }),
    {
        let opcode = self.immediate(bus);
        proof {
            lemma_cycle_counts(opcode, prefix);
        }
        if let Some(instruction) = Decoder::decode(opcode, prefix) {
            proof {
                lemma_cb_table_has_no_prefix(opcode);
            }
            let cycle_count = instruction.cycle_count();
            let result = self.execute(bus, instruction);
            (cycle_count, result)
        } else {
            (0, Ok(()))
        }
    }
}

} // verus!

verus! {

/// Every decoded instruction takes at most 32 cycles.
pub proof fn lemma_cycle_counts(opcode: u8, prefix: Prefix)
    ensures
        spec_decode(opcode, prefix) matches Some(i) ==> i.cycle_count <= 32,
{
    reveal(crate::processor::decoder::spec_decode_opcode);
}

/// The processor and bus once a pending interrupt is noticed: the processor wakes up, and
/// if the master flag is on the interrupt is taken: PC is pushed and set to its routine.
pub open spec fn spec_interrupt_entry<H: Bus>(s: ProcessorView, b: H::V) -> (ProcessorView, H::V) {
    match H::spec_pending_interrupt(b) {
        Some(interrupt) => {
            let s0 = ProcessorView { halt_mode: HaltMode::Running, ..s };
            if H::spec_master_interrupt_enable(b) {
                let b0 = H::spec_service_interrupt(b, interrupt);
                let (s1, b1) = spec_push_stack::<H>(s0, b0, s0.regs.pc);
                (
                    set_reg_state(s1, RegisterType::PC, crate::processor::interrupt::interrupt_address(interrupt)),
                    b1,
                )
            } else {
                (s0, b)
            }
        },
        None => (s, b),
    }
}

/// The state once a pending `EI` has taken effect.
pub open spec fn spec_apply_ei<H: Bus>(s: ProcessorView, b: H::V) -> (ProcessorView, H::V) {
    if s.pending_ei {
        spec_immediate_ei::<H>(s, b)
    } else {
        (s, b)
    }
}

/// Whether the processor starts an instruction in this cycle.
pub open spec fn starts_instruction(s: ProcessorView) -> bool {
    s.cycles_left == 0 && s.halt_mode != HaltMode::Normal
}

/// One machine cycle. An interrupt is handled first; then, if no instruction is in
/// progress and the processor is not halted, the next instruction runs (twice from the
/// same PC after the halt bug) and its cycles are counted down in the cycles that follow.
/// The result is that of the instruction that failed, if one did (a failed first run is
/// not repeated).
pub open spec fn spec_step<H: Bus>(s: ProcessorView, b: H::V) -> (ProcessorView, H::V, Result<(), InstructionError>) {
    let (s1, b1) = spec_interrupt_entry::<H>(s, b);
    if starts_instruction(s1) {
        let (s2, b2) = spec_apply_ei::<H>(s1, b1);
        let pc = s2.regs.pc;
        let (s3, b3, c, r) = spec_execute_next::<H>(s2, b2, Prefix::Base);
        let s3 = ProcessorView { cycles_left: c, ..s3 };
        if r is Err {
            (s3, b3, r)
        } else if s3.halt_mode == HaltMode::Bugged {
            let s4 = set_reg_state(ProcessorView { halt_mode: HaltMode::Running, ..s3 }, RegisterType::PC, pc);
            let (s5, b5, c2, r2) = spec_execute_next::<H>(s4, b3, Prefix::Base);
            (ProcessorView { cycles_left: (c + c2) as u8, ..s5 }, b5, r2)
        } else {
            (s3, b3, Ok(()))
        }
    } else if s1.cycles_left > 0 {
        (ProcessorView { cycles_left: (s1.cycles_left - 1) as u8, ..s1 }, b1, Ok(()))
    } else {
        (s1, b1, Ok(()))
    }
}

impl Processor {
    /// Notices a pending interrupt: the processor wakes up, and if the master flag is on
    /// the interrupt is taken.
    fn enter_interrupt<H: Bus>(&mut self, bus: &mut H)
        ensures
            (final(self)@, final(bus)@) == spec_interrupt_entry::<H>(old(self)@, old(bus)@),
    {
        let interrupt = bus.pending_interrupt();
        if let Some(interrupt) = interrupt {
            self.halt_mode = HaltMode::Running;
            if bus.master_interrupt_enable() {
                bus.service_interrupt(interrupt);
                let pc = self.registers.program_counter.get();
                self.push_stack(bus, pc);
                self.jp(interrupt.address());
            }
        }
    }

    /// Runs one machine cycle; an error where an instruction could not complete (a
    /// 16-bit store at 0xFFFF).
    #[verifier::rlimit(50)]
    pub fn step<H: Bus>(&mut self, bus: &mut H) -> (r: Result<(), InstructionError>)
        ensures
            (final(self)@, final(bus)@, r) == spec_step::<H>(old(self)@, old(bus)@),
    {
        self.enter_interrupt(bus);
        if self.cycles_left == 0 && self.halt_mode != HaltMode::Normal {
            if self.pending_ei {
                self.immediate_ei(bus);
            }
            let pc = self.registers.program_counter.get();
            proof {
                lemma_execute_next_defined::<H>(self@, bus@, Prefix::Base);
            }
            let (first, result) = self.execute_next(bus, Prefix::Base);
            self.cycles_left = first;
            if let Err(e) = result {
                return Err(e);
            }
            // the halt bug: the instruction after HALT is executed twice
            if self.halt_mode == HaltMode::Bugged {
                self.halt_mode = HaltMode::Running;
                self.set_reg(RegisterType::PC, pc);
                proof {
                    lemma_execute_next_defined::<H>(self@, bus@, Prefix::Base);
                }
                let (second, result) = self.execute_next(bus, Prefix::Base);
                self.cycles_left = first + second;
                return result;
            }
        } else if self.cycles_left > 0 {
            self.cycles_left = self.cycles_left - 1;
        }
        Ok(())
    }
}

/// The operands of an instruction are of the kinds its mnemonic takes, and a bit
/// number is below 8.
pub open spec fn well_shaped(i: InstructionView) -> bool {
    match i.operands {
        None => match i.mnemonic {
            InstructionMnemonic::LD | InstructionMnemonic::LDD | InstructionMnemonic::LDI
            | InstructionMnemonic::PUSH | InstructionMnemonic::POP | InstructionMnemonic::ADD
            | InstructionMnemonic::ADC | InstructionMnemonic::SUB | InstructionMnemonic::SBC
            | InstructionMnemonic::AND | InstructionMnemonic::OR | InstructionMnemonic::XOR
            | InstructionMnemonic::CP | InstructionMnemonic::INC | InstructionMnemonic::DEC
            | InstructionMnemonic::RLC | InstructionMnemonic::RL | InstructionMnemonic::RRC
            | InstructionMnemonic::RR | InstructionMnemonic::SWAP | InstructionMnemonic::SLA
            | InstructionMnemonic::SRA | InstructionMnemonic::SRL | InstructionMnemonic::BIT
            | InstructionMnemonic::SET | InstructionMnemonic::RES | InstructionMnemonic::JP
            | InstructionMnemonic::JR | InstructionMnemonic::CALL | InstructionMnemonic::RST => false,
            _ => true,
        },
        Some(ops) => match i.mnemonic {
            InstructionMnemonic::LD | InstructionMnemonic::LDD | InstructionMnemonic::LDI =>
                ops.len() >= 2 && ops[0] is Reference && ops[1] is Value,
            InstructionMnemonic::PUSH => ops.len() >= 1 && ops[0] is Value,
            InstructionMnemonic::POP => ops.len() >= 1 && ops[0] matches Operand::Reference(Reference::Register(_)),
            InstructionMnemonic::ADD => ops.len() >= 2 && (ops[0] matches Operand::Reference(Reference::Register(_)))
                && ops[1] is Value,
            InstructionMnemonic::ADC | InstructionMnemonic::SUB | InstructionMnemonic::SBC
            | InstructionMnemonic::AND | InstructionMnemonic::OR | InstructionMnemonic::XOR
            | InstructionMnemonic::CP => ops.len() >= 1 && ops[0] is Value,
            InstructionMnemonic::INC | InstructionMnemonic::DEC | InstructionMnemonic::RLC
            | InstructionMnemonic::RL | InstructionMnemonic::RRC | InstructionMnemonic::RR
            | InstructionMnemonic::SWAP | InstructionMnemonic::SLA | InstructionMnemonic::SRA
            | InstructionMnemonic::SRL => ops.len() >= 1 && ops[0] is Reference,
            InstructionMnemonic::BIT | InstructionMnemonic::SET | InstructionMnemonic::RES =>
                ops.len() >= 2 && (match ops[0] {
                    Operand::Value(ValueType::Constant(v)) => low_byte(v) < 8,
                    _ => false,
                }) && ops[1] is Reference,
            InstructionMnemonic::JP | InstructionMnemonic::JR | InstructionMnemonic::CALL =>
                (ops.len() == 1 && ops[0] is Value) || (ops.len() == 2 && ops[0] is Condition && ops[1] is Value),
            InstructionMnemonic::RST => ops.len() >= 1 && ops[0] matches Operand::Value(ValueType::Constant(_)),
            InstructionMnemonic::RET => ops.len() >= 1 && ops[0] is Condition,
            _ => true,
        },
    }
}

/// An instruction of the right shape runs without an operand error, whatever the state;
/// only a load can fail, where it would store a 16-bit value at 0xFFFF.
pub proof fn lemma_well_shaped_runs<H: Bus>(s: ProcessorView, b: H::V, i: InstructionView)
    requires
        well_shaped(i),
        i.mnemonic != InstructionMnemonic::CB,
    ensures
        spec_execute_base_defined::<H>(s, b, i),
        spec_execute_base::<H>(s, b, i).0 is Ok
            || spec_execute_base::<H>(s, b, i).0 == Err::<(), InstructionError>(InstructionError::AddressOverflow),
        (i.mnemonic != InstructionMnemonic::LD && i.mnemonic != InstructionMnemonic::LDD
            && i.mnemonic != InstructionMnemonic::LDI) ==> spec_execute_base::<H>(s, b, i).0 is Ok,
{
}

/// Every instruction of the two tables is of the right shape.
pub proof fn lemma_decoded_well_shaped(opcode: u8, prefix: Prefix)
    ensures
        spec_decode(opcode, prefix) matches Some(i) ==> well_shaped(i),
{
    reveal(spec_decode_opcode);
}

/// Every instruction that the decoder gives can be executed, whatever the state of the
/// processor and the bus, and runs without an operand error: it succeeds, or it is a load
/// that would store a 16-bit value at 0xFFFF.
pub proof fn lemma_decoded_instructions_run<H: Bus>(s: ProcessorView, b: H::V, opcode: u8, prefix: Prefix)
    ensures
        spec_decode(opcode, prefix) matches Some(i) ==> {
            &&& spec_execute_defined::<H>(s, b, i)
            &&& spec_execute::<H>(s, b, i).0 is Ok
                || spec_execute::<H>(s, b, i).0 == Err::<(), InstructionError>(InstructionError::AddressOverflow)
        },
{
    lemma_decoded_well_shaped(opcode, prefix);
    if let Some(i) = spec_decode(opcode, prefix) {
        if i.mnemonic != InstructionMnemonic::CB {
            lemma_well_shaped_runs::<H>(s, b, i);
        } else {
            let (s1, op) = spec_immediate::<H>(s, b);
            lemma_decoded_well_shaped(op, Prefix::CB);
            lemma_cb_table_has_no_prefix(op);
            lemma_well_shaped_runs::<H>(s1, b, spec_decode(op, Prefix::CB).unwrap());
        }
    }
}

/// Reading and executing the next instruction can always be done.
pub proof fn lemma_execute_next_defined<H: Bus>(s: ProcessorView, b: H::V, prefix: Prefix)
    ensures
        spec_execute_next_defined::<H>(s, b, prefix),
{
    let (s1, opcode) = spec_immediate::<H>(s, b);
    lemma_decoded_instructions_run::<H>(s1, b, opcode, prefix);
}


/// A taken interrupt jumps to its vector: with the master flag on and an interrupt
/// pending, PC becomes the vector whose position above 0x40, in steps of 8, is that of
/// the interrupt's request bit (VBlank 0x40, LCD status 0x48, timer 0x50, serial 0x58,
/// keypad 0x60).
pub proof fn lemma_interrupt_entry_vector<H: Bus>(s: ProcessorView, b: H::V, interrupt: crate::processor::interrupt::Interrupt)
    requires
        H::spec_pending_interrupt(b) == Some(interrupt),
        H::spec_master_interrupt_enable(b),
    ensures
        spec_interrupt_entry::<H>(s, b).0.regs.pc == crate::processor::interrupt::interrupt_address(interrupt),
        0x40 <= spec_interrupt_entry::<H>(s, b).0.regs.pc <= 0x60,
        spec_interrupt_entry::<H>(s, b).0.regs.pc % 8 == 0,
        crate::processor::interrupt::interrupt_bit(interrupt) == vstd::arithmetic::power2::pow2(
            ((spec_interrupt_entry::<H>(s, b).0.regs.pc - 0x40) / 8) as nat),
{
    reveal(with_reg);
    crate::processor::interrupt::lemma_interrupt_vectors(interrupt);
    let s0 = ProcessorView { halt_mode: HaltMode::Running, ..s };
    let b0 = H::spec_service_interrupt(b, interrupt);
    let (s1, b1) = spec_push_stack::<H>(s0, b0, s0.regs.pc);
    assert(spec_interrupt_entry::<H>(s, b).0 == set_reg_state(s1, RegisterType::PC,
        crate::processor::interrupt::interrupt_address(interrupt)));
}


/// The four flags of a state are Z, N, H and C as given.
pub open spec fn flags_are(t: ProcessorView, z: bool, n: bool, h: bool, c: bool) -> bool {
    &&& flag_value(t.regs, Flag::Zero) == z
    &&& flag_value(t.regs, Flag::AddSub) == n
    &&& flag_value(t.regs, Flag::HalfCarry) == h
    &&& flag_value(t.regs, Flag::Carry) == c
}

/// The registers other than A and F are the same in both states.
pub open spec fn others_kept(s: ProcessorView, t: ProcessorView) -> bool {
    t.regs.bc == s.regs.bc && t.regs.de == s.regs.de && t.regs.hl == s.regs.hl && t.regs.sp == s.regs.sp
        && t.regs.pc == s.regs.pc
}

/// One flag set, with what that does to the registers.
proof fn lemma_set_flag(s: ProcessorView, flag: Flag, value: bool)
    ensures
        flag_value(set_flag_state(s, flag, value).regs, flag) == value,
        forall|other: Flag| other != flag ==> #[trigger] flag_value(set_flag_state(s, flag, value).regs, other)
            == flag_value(s.regs, other),
        acc(set_flag_state(s, flag, value)) == acc(s),
        others_kept(s, set_flag_state(s, flag, value)),
{
    crate::processor::registers::lemma_with_flag_effect(s.regs, flag, value);
}

/// A set, with what that does to the registers.
proof fn lemma_set_a(s: ProcessorView, value: u8)
    ensures
        acc(set_reg_state(s, RegisterType::A, value as u16)) == value,
        forall|f: Flag| #[trigger] flag_value(set_reg_state(s, RegisterType::A, value as u16).regs, f)
            == flag_value(s.regs, f),
        others_kept(s, set_reg_state(s, RegisterType::A, value as u16)),
{
    crate::processor::registers::lemma_with_a_effect(s.regs, value as u16);
}

/// The four flags set in the order Z, N, H, C.
proof fn lemma_set_znhc(s: ProcessorView, z: bool, n: bool, h: bool, c: bool)
    ensures
        flags_are(set_znhc(s, z, n, h, c), z, n, h, c),
        acc(set_znhc(s, z, n, h, c)) == acc(s),
        others_kept(s, set_znhc(s, z, n, h, c)),
{
    let s1 = set_flag_state(s, Flag::Zero, z);
    let s2 = set_flag_state(s1, Flag::AddSub, n);
    let s3 = set_flag_state(s2, Flag::HalfCarry, h);
    lemma_set_flag(s, Flag::Zero, z);
    lemma_set_flag(s1, Flag::AddSub, n);
    lemma_set_flag(s2, Flag::HalfCarry, h);
    lemma_set_flag(s3, Flag::Carry, c);
}

/// `ADD A,n`: A becomes `(A + n) mod 256`; Z is set exactly when that is 0, N is
/// cleared, H is set when the low nibbles add past 15, C when the sum passes 255. The
/// other registers are kept.
#[verifier::spinoff_prover]
#[verifier::rlimit(40)]
pub proof fn lemma_add_a(s: ProcessorView, v: u8)
    ensures
        acc(spec_add(s, RegisterType::A, v)) == (acc(s) + v) % 256,
        flags_are(spec_add(s, RegisterType::A, v), (acc(s) + v) % 256 == 0, false,
            acc(s) % 16 + v % 16 >= 16, acc(s) + v >= 256),
        others_kept(s, spec_add(s, RegisterType::A, v)),
{
    let a = acc(s);
    let result = wrap8(a + v);
    let s1 = set_reg_state(s, RegisterType::A, result as u16);
    let s2 = set_flag_state(s1, Flag::AddSub, false);
    let s3 = set_flag_state(s2, Flag::Zero, result == 0);
    let s4 = set_flag_state(s3, Flag::HalfCarry, spec_half_carry_add(a, v));
    lemma_set_a(s, result);
    lemma_set_flag(s1, Flag::AddSub, false);
    lemma_set_flag(s2, Flag::Zero, result == 0);
    lemma_set_flag(s3, Flag::HalfCarry, spec_half_carry_add(a, v));
    lemma_set_flag(s4, Flag::Carry, a + v > 255);
}

/// `ADC A,n`: A becomes `(A + n + carry) mod 256`; Z is set exactly when that is 0, N is
/// cleared, H is set when the low nibbles and the carry add past 15, C when the sum
/// passes 255. The other registers are kept.

/// The arithmetic of adding or subtracting a byte and a carry in two steps.
proof fn lemma_carry_arith(a: u8, v: u8, c: u8)
    requires
        c <= 1,
    ensures
        wrap8(a + wrap8(v + c)) == (a + v + c) % 256,
        (v + c > 255 || a + wrap8(v + c) > 255) == (a + v + c >= 256),
        (spec_half_carry_add(v, c) || spec_half_carry_add(a, wrap8(v + c))) == (a % 16 + v % 16 + c >= 16),
        wrap8(a - wrap8(v + c)) == (a - v - c) % 256,
        (v + c > 255 || a < wrap8(v + c)) == (a < v + c),
{
    if v + c == 256 {
        assert(wrap8(v + c) == 0);
    } else {
        assert(wrap8(v + c) == v + c);
    }
}

#[verifier::spinoff_prover]
#[verifier::rlimit(40)]
pub proof fn lemma_adc_a(s: ProcessorView, v: u8)
    ensures
        ({
            let a = acc(s);
            let c: int = if flag_value(s.regs, Flag::Carry) { 1 } else { 0 };
            &&& acc(spec_adc(s, v)) == (a + v + c) % 256
            &&& flags_are(spec_adc(s, v), (a + v + c) % 256 == 0, false, a % 16 + v % 16 + c >= 16, a + v + c >= 256)
            &&& others_kept(s, spec_adc(s, v))
        }),
{
    let carry = carry_bit(s);
    let a = acc(s);
    let add_value = wrap8(v + carry);
    let result = wrap8(a + add_value);
    let s1 = set_reg_state(s, RegisterType::A, result as u16);
    let s2 = set_flag_state(s1, Flag::AddSub, false);
    let s3 = set_flag_state(s2, Flag::Zero, result == 0);
    let h = spec_half_carry_add(v, carry) || spec_half_carry_add(a, add_value);
    let s4 = set_flag_state(s3, Flag::HalfCarry, h);
    lemma_set_a(s, result);
    lemma_set_flag(s1, Flag::AddSub, false);
    lemma_set_flag(s2, Flag::Zero, result == 0);
    lemma_set_flag(s3, Flag::HalfCarry, h);
    lemma_set_flag(s4, Flag::Carry, v + carry > 255 || a + add_value > 255);
    lemma_carry_arith(a, v, carry);
}

/// `SUB n`: A becomes `(A - n) mod 256`; Z is set exactly when that is 0, N is set, H is
/// set when the low nibble of n exceeds that of A, C when n exceeds A. `CP n` sets the
/// same flags and keeps A. The other registers are kept.
#[verifier::spinoff_prover]
#[verifier::rlimit(40)]
pub proof fn lemma_sub_cp(s: ProcessorView, v: u8)
    ensures
        acc(spec_sub(s, v)) == (acc(s) - v) % 256,
        flags_are(spec_sub(s, v), (acc(s) - v) % 256 == 0, true, acc(s) % 16 < v % 16, acc(s) < v),
        others_kept(s, spec_sub(s, v)),
        acc(spec_cp(s, v)) == acc(s),
        flags_are(spec_cp(s, v), (acc(s) - v) % 256 == 0, true, acc(s) % 16 < v % 16, acc(s) < v),
        others_kept(s, spec_cp(s, v)),
{
    let a = acc(s);
    let result = wrap8(a - v);
    let s1 = set_flag_state(s, Flag::AddSub, true);
    let s2 = set_flag_state(s1, Flag::Zero, result == 0);
    let s3 = set_flag_state(s2, Flag::HalfCarry, spec_half_carry_sub(a, v));
    let s4 = set_flag_state(s3, Flag::Carry, a < v);
    lemma_set_flag(s, Flag::AddSub, true);
    lemma_set_flag(s1, Flag::Zero, result == 0);
    lemma_set_flag(s2, Flag::HalfCarry, spec_half_carry_sub(a, v));
    lemma_set_flag(s3, Flag::Carry, a < v);
    lemma_set_a(s4, result);
}

/// `SBC A,n`: A becomes `(A - n - carry) mod 256`; Z is set exactly when that is 0, N
/// is set, H is set when the low nibble of n plus the carry exceeds that of A, C when n
/// plus the carry exceeds A. The other registers are kept.
#[verifier::spinoff_prover]
#[verifier::rlimit(40)]
pub proof fn lemma_sbc_a(s: ProcessorView, v: u8)
    ensures
        ({
            let a = acc(s);
            let c: int = if flag_value(s.regs, Flag::Carry) { 1 } else { 0 };
            &&& acc(spec_sbc(s, v)) == (a - v - c) % 256
            &&& flags_are(spec_sbc(s, v), (a - v - c) % 256 == 0, true, a % 16 < v % 16 + c, a < v + c)
            &&& others_kept(s, spec_sbc(s, v))
        }),
{
    let carry = carry_bit(s);
    let a = acc(s);
    let sub_value = wrap8(v + carry);
    let result = wrap8(a - sub_value);
    let s1 = set_reg_state(s, RegisterType::A, result as u16);
    let s2 = set_flag_state(s1, Flag::AddSub, true);
    let s3 = set_flag_state(s2, Flag::Zero, result == 0);
    let s4 = set_flag_state(s3, Flag::HalfCarry, a % 16 < v % 16 + carry);
    lemma_set_a(s, result);
    lemma_set_flag(s1, Flag::AddSub, true);
    lemma_set_flag(s2, Flag::Zero, result == 0);
    lemma_set_flag(s3, Flag::HalfCarry, a % 16 < v % 16 + carry);
    lemma_set_flag(s4, Flag::Carry, v + carry > 255 || a < sub_value);
    lemma_carry_arith(a, v, carry);
}

/// `AND n`, `OR n`, `XOR n`: A becomes the bitwise operation of A and n; Z is set exactly
/// when that is 0, N and C are cleared, H is set for `AND` only. The other registers are
/// kept.
#[verifier::spinoff_prover]
#[verifier::rlimit(40)]
pub proof fn lemma_logic_a(s: ProcessorView, v: u8)
    ensures
        acc(spec_and(s, v)) == acc(s) & v,
        flags_are(spec_and(s, v), acc(s) & v == 0, false, true, false),
        others_kept(s, spec_and(s, v)),
        acc(spec_or(s, v)) == acc(s) | v,
        flags_are(spec_or(s, v), acc(s) | v == 0, false, false, false),
        others_kept(s, spec_or(s, v)),
        acc(spec_xor(s, v)) == acc(s) ^ v,
        flags_are(spec_xor(s, v), acc(s) ^ v == 0, false, false, false),
        others_kept(s, spec_xor(s, v)),
{
    let a = acc(s);
    lemma_set_a(s, a & v);
    lemma_set_znhc(set_reg_state(s, RegisterType::A, (a & v) as u16), a & v == 0, false, true, false);
    lemma_set_a(s, a | v);
    lemma_set_znhc(set_reg_state(s, RegisterType::A, (a | v) as u16), a | v == 0, false, false, false);
    lemma_set_a(s, a ^ v);
    lemma_set_znhc(set_reg_state(s, RegisterType::A, (a ^ v) as u16), a ^ v == 0, false, false, false);
}



/// The byte functions of the rotations, as arithmetic: a left rotation doubles and brings
/// bit 7 round to bit 0, a right rotation halves and brings bit 0 round to bit 7, and a
/// nibble swap exchanges the two hexadecimal digits.
pub proof fn lemma_byte_rotations(v: u8)
    ensures
        rotl1(v) == (v * 2) % 256 + v / 128,
        rotr1(v) == v / 2 + (v % 2) * 128,
        swap_nibbles(v) == (v % 16) * 16 + v / 16,
{
    assert(
        ((v << 1u8) | (v >> 7u8)) as u8 == (v * 2) % 256 + v / 128
        && ((v >> 1u8) | (v << 7u8)) as u8 == v / 2 + (v % 2) * 128
        && ((v << 4u8) | (v >> 4u8)) as u8 == (v % 16) * 16 + v / 16
    ) by (bit_vector);
}

/// The rotations and shifts of A through the extended table, as arithmetic on A and the
/// carry `c`: RLC gives `2A mod 256 + A / 128`, RL `2A mod 256 + c`, RRC
/// `A / 2 + (A mod 2) 128`, RR `A / 2 + 128 c`; SLA gives `2A mod 256`, SRA `A / 2` with
/// bit 7 kept, SRL `A / 2`. The left ones put the old bit 7 in C, the right ones the old
/// bit 0. N and H are cleared; the bus is kept.
#[verifier::spinoff_prover]
#[verifier::rlimit(60)]
pub proof fn lemma_rotations_of_a<H: Bus>(s: ProcessorView, b: H::V)
    ensures
        ({
            let a = acc(s);
            let c: int = if flag_value(s.regs, Flag::Carry) { 1 } else { 0 };
            let reference = Reference::Register(RegisterType::A);
            let rlc = spec_base_rlc::<H>(s, b, reference);
            let rl = spec_base_rl::<H>(s, b, reference);
            let rrc = spec_base_rrc::<H>(s, b, reference);
            let rr = spec_base_rr::<H>(s, b, reference);
            let sla = spec_sla::<H>(s, b, reference);
            let sra = spec_sra::<H>(s, b, reference);
            let srl = spec_srl::<H>(s, b, reference);
            &&& rlc.2 == (a * 2) % 256 + a / 128 && acc(rlc.0) == rlc.2 && rlc.1 == b
            &&& flag_value(rlc.0.regs, Flag::Carry) == (a >= 128)
            &&& !flag_value(rlc.0.regs, Flag::AddSub) && !flag_value(rlc.0.regs, Flag::HalfCarry)
            &&& rl.2 == (a * 2) % 256 + c && acc(rl.0) == rl.2 && rl.1 == b
            &&& flag_value(rl.0.regs, Flag::Carry) == (a >= 128)
            &&& !flag_value(rl.0.regs, Flag::AddSub) && !flag_value(rl.0.regs, Flag::HalfCarry)
            &&& rrc.2 == a / 2 + (a % 2) * 128 && acc(rrc.0) == rrc.2 && rrc.1 == b
            &&& flag_value(rrc.0.regs, Flag::Carry) == (a % 2 == 1)
            &&& !flag_value(rrc.0.regs, Flag::AddSub) && !flag_value(rrc.0.regs, Flag::HalfCarry)
            &&& rr.2 == a / 2 + c * 128 && acc(rr.0) == rr.2 && rr.1 == b
            &&& flag_value(rr.0.regs, Flag::Carry) == (a % 2 == 1)
            &&& !flag_value(rr.0.regs, Flag::AddSub) && !flag_value(rr.0.regs, Flag::HalfCarry)
            &&& acc(sla.0) == (a * 2) % 256 && sla.1 == b
            &&& flags_are(sla.0, (a * 2) % 256 == 0, false, false, a >= 128)
            &&& acc(sra.0) == a / 2 + (if a >= 128 { 128int } else { 0 }) && sra.1 == b
            &&& flags_are(sra.0, a / 2 + (if a >= 128 { 128int } else { 0 }) == 0, false, false, a % 2 == 1)
            &&& acc(srl.0) == a / 2 && srl.1 == b
            &&& flags_are(srl.0, a / 2 == 0, false, false, a % 2 == 1)
        }),
{
    let a = acc(s);
    let v = reg_value(s.regs, RegisterType::A);
    let cb = carry_bit(s);
    assert(v == a as u16);
    assert(
        ((a << 1u8) | (a >> 7u8)) as u8 == (a * 2) % 256 + a / 128
        && ((a >> 1u8) | (a << 7u8)) as u8 == a / 2 + (a % 2) * 128
        && (cb <= 1 ==> ((a << 1u8) | cb) as u8 == (a * 2) % 256 + cb)
        && (cb <= 1 ==> ((a >> 1u8) | (cb << 7u8)) as u8 == a / 2 + cb * 128)
        && (a << 1u8) as u8 == (a * 2) % 256
        && (((a >> 7u8) & 1 == 1) == (a >= 128))
        && (((a >> 0u8) & 1 == 1) == (a % 2 == 1))
        && (((a as u16 >> 1u16) | ((if a >= 128 { 1u16 } else { 0u16 }) << 7u16)) as u16 == a / 2 + (if a
            >= 128 { 128u16 } else { 0u16 }))
        && ((a as u16 >> 1u16) as u16 == a / 2)
    ) by (bit_vector);
    // RLC, RL, RRC, RR: C, then A, then N and H.
    let reference = Reference::Register(RegisterType::A);
    let c7 = bit_set(a, 7);
    let c0 = bit_set(a, 0);
    lemma_set_flag(s, Flag::Carry, c7);
    lemma_set_flag(s, Flag::Carry, c0);
    let s7 = set_flag_state(s, Flag::Carry, c7);
    let s0 = set_flag_state(s, Flag::Carry, c0);
    let results: Seq<(ProcessorView, u8)> = seq![
        (s7, rotl1(a)),
        (s7, ((a << 1u8) | cb) as u8),
        (s0, rotr1(a)),
        (s0, ((a >> 1u8) | (cb << 7u8)) as u8),
        (s7, (a << 1u8) as u8),
    ];
    assert forall|k: int| 0 <= k < 5 implies {
        let (st, r) = #[trigger] results[k];
        let t1 = set_reg_state(st, RegisterType::A, r as u16);
        let t2 = set_flag_state(t1, Flag::AddSub, false);
        let t3 = set_flag_state(t2, Flag::HalfCarry, false);
        let t4 = set_flag_state(t1, Flag::Zero, r == 0);
        let t5 = set_flag_state(t4, Flag::AddSub, false);
        let t6 = set_flag_state(t5, Flag::HalfCarry, false);
        &&& acc(t3) == r && flag_value(t3.regs, Flag::Carry) == flag_value(st.regs, Flag::Carry)
        &&& !flag_value(t3.regs, Flag::AddSub) && !flag_value(t3.regs, Flag::HalfCarry)
        &&& flags_are(t6, r == 0, false, false, flag_value(st.regs, Flag::Carry)) && acc(t6) == r
    } by {
        let (st, r) = results[k];
        let t1 = set_reg_state(st, RegisterType::A, r as u16);
        let t2 = set_flag_state(t1, Flag::AddSub, false);
        let t4 = set_flag_state(t1, Flag::Zero, r == 0);
        let t5 = set_flag_state(t4, Flag::AddSub, false);
        lemma_set_a(st, r);
        lemma_set_flag(t1, Flag::AddSub, false);
        lemma_set_flag(t2, Flag::HalfCarry, false);
        lemma_set_flag(t1, Flag::Zero, r == 0);
        lemma_set_flag(t4, Flag::AddSub, false);
        lemma_set_flag(t5, Flag::HalfCarry, false);
    }
    assert(results[0] == (s7, rotl1(a)));
    assert(results[1] == (s7, ((a << 1u8) | cb) as u8));
    assert(results[2] == (s0, rotr1(a)));
    assert(results[3] == (s0, ((a >> 1u8) | (cb << 7u8)) as u8));
    assert(results[4] == (s7, (a << 1u8) as u8));
    // SRA and SRL store a 16-bit value below 0x100.
    let sra_r: u16 = ((v >> 1u16) | ((if bit_set(a, 7) { 1u16 } else { 0u16 }) << 7u16)) as u16;
    let srl_r: u16 = (v >> 1u16) as u16;
    let t1 = set_reg_state(s0, RegisterType::A, sra_r);
    let u1 = set_reg_state(s0, RegisterType::A, srl_r);
    assert(sra_r == (sra_r as u8) as u16);
    assert(srl_r == (srl_r as u8) as u16);
    lemma_set_a(s0, sra_r as u8);
    lemma_set_a(s0, srl_r as u8);
    lemma_set_flag(t1, Flag::Zero, sra_r == 0);
    lemma_set_flag(set_flag_state(t1, Flag::Zero, sra_r == 0), Flag::AddSub, false);
    lemma_set_flag(set_flag_state(set_flag_state(t1, Flag::Zero, sra_r == 0), Flag::AddSub, false), Flag::HalfCarry, false);
    lemma_set_flag(u1, Flag::Zero, srl_r == 0);
    lemma_set_flag(set_flag_state(u1, Flag::Zero, srl_r == 0), Flag::AddSub, false);
    lemma_set_flag(set_flag_state(set_flag_state(u1, Flag::Zero, srl_r == 0), Flag::AddSub, false), Flag::HalfCarry, false);
}


/// `INC` and `DEC` of A: A becomes `(A + 1) mod 256` or `(A - 1) mod 256`; Z is set
/// exactly when that is 0; N is cleared by `INC` and set by `DEC`; H is set when the low
/// nibble carries (it was 0xF) or borrows (it was 0); C is kept, and so are the bus and
/// the other registers.
#[verifier::spinoff_prover]
#[verifier::rlimit(40)]
pub proof fn lemma_inc_dec_a<H: Bus>(s: ProcessorView, b: H::V)
    ensures
        ({
            let a = acc(s);
            let c = flag_value(s.regs, Flag::Carry);
            let reference = Reference::Register(RegisterType::A);
            let inc = spec_inc8::<H>(s, b, reference);
            let dec = spec_dec8::<H>(s, b, reference);
            &&& acc(inc.0) == (a + 1) % 256 && inc.1 == b && others_kept(s, inc.0)
            &&& flags_are(inc.0, (a + 1) % 256 == 0, false, a % 16 == 15, c)
            &&& acc(dec.0) == (a - 1) % 256 && dec.1 == b && others_kept(s, dec.0)
            &&& flags_are(dec.0, (a - 1) % 256 == 0, true, a % 16 == 0, c)
        }),
{
    let a = acc(s);
    let v = reg_value(s.regs, RegisterType::A);
    assert(low_byte(v) == a);
    let up = wrap8(a + 1);
    let down = wrap8(a - 1);
    let i1 = set_reg_state(s, RegisterType::A, up as u16);
    let i2 = set_flag_state(i1, Flag::Zero, up == 0);
    let i3 = set_flag_state(i2, Flag::AddSub, false);
    lemma_set_a(s, up);
    lemma_set_flag(i1, Flag::Zero, up == 0);
    lemma_set_flag(i2, Flag::AddSub, false);
    lemma_set_flag(i3, Flag::HalfCarry, spec_half_carry_add(a, 1));
    let d1 = set_reg_state(s, RegisterType::A, down as u16);
    let d2 = set_flag_state(d1, Flag::AddSub, true);
    let d3 = set_flag_state(d2, Flag::Zero, down == 0);
    lemma_set_a(s, down);
    lemma_set_flag(d1, Flag::AddSub, true);
    lemma_set_flag(d2, Flag::Zero, down == 0);
    lemma_set_flag(d3, Flag::HalfCarry, a % 16 < 1);
}

} // verus!

use vstd::prelude::*;
use crate::processor::flag_register::Flag;
use crate::processor::instruction::{
    AddressType as Addr, InstructionInfo, InstructionMnemonic, InstructionView, Operand, Prefix,
    Reference as Ref, ValueType,
};
use crate::processor::registers::{RegisterType as Reg, spec_is16bit};

verus! {

/// The view of an instruction made of its parts.
pub open spec fn instr(
    opcode: u8,
    mnemonic: InstructionMnemonic,
    operands: Option<Seq<Operand>>,
    cycle_count: u8,
) -> InstructionView {
    InstructionView { opcode, mnemonic, operands, cycle_count }
}

pub open spec fn spec_ld_rr(opcode: u8, r1: Reg, r2: Reg) -> InstructionView {
    let cycle_count: u8 = if spec_is16bit(r1) || spec_is16bit(r2) { 8 } else { 4 };
    let target = if spec_is16bit(r1) {
        Ref::Address(Addr::Register(r1))
    } else {
        Ref::Register(r1)
    };
    let source = if spec_is16bit(r2) {
        ValueType::Address(Addr::Register(r2))
    } else {
        ValueType::Register(r2)
    };
    instr(
        opcode,
        InstructionMnemonic::LD,
        Some(seq![Operand::Reference(target), Operand::Value(source)]),
        cycle_count,
    )
}

/// The destination register of `LD r1,r2` for opcodes 0x40 to 0x7F, by row.
pub open spec fn spec_ld_target(opcode: u8) -> Option<Reg> {
    if 0x78 <= opcode <= 0x7F {
        Some(Reg::A)
    } else if 0x40 <= opcode <= 0x47 {
        Some(Reg::B)
    } else if 0x48 <= opcode <= 0x4F {
        Some(Reg::C)
    } else if 0x50 <= opcode <= 0x57 {
        Some(Reg::D)
    } else if 0x58 <= opcode <= 0x5F {
        Some(Reg::E)
    } else if 0x60 <= opcode <= 0x67 {
        Some(Reg::H)
    } else if 0x68 <= opcode <= 0x6F {
        Some(Reg::L)
    } else if 0x70 <= opcode <= 0x77 {
        Some(Reg::HL)
    } else {
        None
    }
}

/// The source register of `LD r1,r2`, by the low three bits of the opcode.
pub open spec fn spec_ld_source(opcode: u8) -> Reg {
    let low = opcode % 8;
    if low == 0 {
        Reg::B
    } else if low == 1 {
        Reg::C
    } else if low == 2 {
        Reg::D
    } else if low == 3 {
        Reg::E
    } else if low == 4 {
        Reg::H
    } else if low == 5 {
        Reg::L
    } else if low == 6 {
        Reg::HL
    } else {
        Reg::A
    }
}

pub open spec fn spec_parse_ld_rr(opcode: u8) -> Option<InstructionView> {
    match spec_ld_target(opcode) {
        Some(r1) => Some(spec_ld_rr(opcode, r1, spec_ld_source(opcode))),
        None => None,
    }
}

pub open spec fn spec_ld_rn(opcode: u8, register: Reg) -> InstructionView {
    let cycle_count: u8 = if register == Reg::HL { 12 } else { 8 };
    let target = if register == Reg::HL {
        Ref::Address(Addr::Register(Reg::HL))
    } else {
        Ref::Register(register)
    };
    instr(
        opcode,
        InstructionMnemonic::LD,
        Some(seq![Operand::Reference(target), Operand::Value(ValueType::Immediate)]),
        cycle_count,
    )
}

pub open spec fn spec_ld_rn16(opcode: u8, register: Reg) -> InstructionView {
    instr(
        opcode,
        InstructionMnemonic::LD,
        Some(
            seq![
                Operand::Reference(Ref::Register(register)),
                Operand::Value(ValueType::Address(Addr::Immediate)),
            ],
        ),
        16,
    )
}

pub open spec fn spec_ld_n16r(opcode: u8, register: Reg) -> InstructionView {
    instr(
        opcode,
        InstructionMnemonic::LD,
        Some(
            seq![
                Operand::Reference(Ref::Address(Addr::Immediate)),
                Operand::Value(ValueType::Register(register)),
            ],
        ),
        16,
    )
}

pub open spec fn spec_ld_r16n16(opcode: u8, register: Reg) -> InstructionView {
    instr(
        opcode,
        InstructionMnemonic::LD,
        Some(
            seq![
                Operand::Reference(Ref::Register(register)),
                Operand::Value(ValueType::Immediate16),
            ],
        ),
        12,
    )
}

pub open spec fn spec_push(opcode: u8, register: Reg) -> InstructionView {
    instr(
        opcode,
        InstructionMnemonic::PUSH,
        Some(seq![Operand::Value(ValueType::Register(register))]),
        16,
    )
}

pub open spec fn spec_pop(opcode: u8, register: Reg) -> InstructionView {
    instr(
        opcode,
        InstructionMnemonic::POP,
        Some(seq![Operand::Reference(Ref::Register(register))]),
        12,
    )
}

/// An arithmetic or logic instruction on A and a register, or the byte at (HL): `ADD`
/// names A as its destination, the others take only the source.
pub open spec fn spec_alu(opcode: u8, register: Reg, mnemonic: InstructionMnemonic) -> InstructionView {
    let cycle_count: u8 = if register == Reg::HL { 8 } else { 4 };
    let source = if register == Reg::HL {
        ValueType::Address(Addr::Register(Reg::HL))
    } else {
        ValueType::Register(register)
    };
    instr(
        opcode,
        mnemonic,
        if mnemonic == InstructionMnemonic::ADD {
            Some(seq![Operand::Reference(Ref::Register(Reg::A)), Operand::Value(source)])
        } else {
            Some(seq![Operand::Value(source)])
        },
        cycle_count,
    )
}

pub open spec fn spec_add_an(opcode: u8, register: Reg) -> InstructionView {
    spec_alu(opcode, register, InstructionMnemonic::ADD)
}

pub open spec fn spec_adc_an(opcode: u8, register: Reg) -> InstructionView {
    spec_alu(opcode, register, InstructionMnemonic::ADC)
}

pub open spec fn spec_sub_an(opcode: u8, register: Reg) -> InstructionView {
    spec_alu(opcode, register, InstructionMnemonic::SUB)
}

pub open spec fn spec_sbc_an(opcode: u8, register: Reg) -> InstructionView {
    spec_alu(opcode, register, InstructionMnemonic::SBC)
}

pub open spec fn spec_and(opcode: u8, register: Reg) -> InstructionView {
    spec_alu(opcode, register, InstructionMnemonic::AND)
}

pub open spec fn spec_or(opcode: u8, register: Reg) -> InstructionView {
    spec_alu(opcode, register, InstructionMnemonic::OR)
}

pub open spec fn spec_xor(opcode: u8, register: Reg) -> InstructionView {
    spec_alu(opcode, register, InstructionMnemonic::XOR)
}

pub open spec fn spec_cp(opcode: u8, register: Reg) -> InstructionView {
    spec_alu(opcode, register, InstructionMnemonic::CP)
}

pub open spec fn spec_incdec(opcode: u8, register: Reg, mnemonic: InstructionMnemonic) -> InstructionView {
    let cycle_count: u8 = if spec_is16bit(register) { 8 } else { 4 };
    instr(opcode, mnemonic, Some(seq![Operand::Reference(Ref::Register(register))]), cycle_count)
}

pub open spec fn spec_inc(opcode: u8, register: Reg) -> InstructionView {
    spec_incdec(opcode, register, InstructionMnemonic::INC)
}

pub open spec fn spec_dec(opcode: u8, register: Reg) -> InstructionView {
    spec_incdec(opcode, register, InstructionMnemonic::DEC)
}

pub open spec fn spec_add_hl(opcode: u8, register: Reg) -> InstructionView {
    instr(
        opcode,
        InstructionMnemonic::ADD,
        Some(
            seq![
                Operand::Reference(Ref::Register(Reg::HL)),
                Operand::Value(ValueType::Register(register)),
            ],
        ),
        8,
    )
}

pub open spec fn spec_rlc(opcode: u8, register: Reg) -> InstructionView {
    instr(opcode, InstructionMnemonic::RLC, Some(seq![Operand::Reference(Ref::Register(register))]), 8)
}

pub open spec fn spec_jp(opcode: u8, flag: Flag, value: bool) -> InstructionView {
    instr(
        opcode,
        InstructionMnemonic::JP,
        Some(
            seq![
                Operand::Condition(flag, value),
                Operand::Value(ValueType::Immediate16),
            ],
        ),
        12,
    )
}

pub open spec fn spec_jr(opcode: u8, flag: Flag, value: bool) -> InstructionView {
    instr(
        opcode,
        InstructionMnemonic::JR,
        Some(
            seq![
                Operand::Condition(flag, value),
                Operand::Value(ValueType::Immediate),
            ],
        ),
        8,
    )
}

pub open spec fn spec_call(opcode: u8, flag: Flag, value: bool) -> InstructionView {
    instr(
        opcode,
        InstructionMnemonic::CALL,
        Some(
            seq![
                Operand::Condition(flag, value),
                Operand::Value(ValueType::Immediate16),
            ],
        ),
        12,
    )
}

pub open spec fn spec_rst(opcode: u8, address: u16) -> InstructionView {
    instr(opcode, InstructionMnemonic::RST, Some(seq![Operand::Value(ValueType::Constant(address))]), 32)
}

pub open spec fn spec_ret(opcode: u8, flag: Flag, value: bool) -> InstructionView {
    instr(opcode, InstructionMnemonic::RET, Some(seq![Operand::Condition(flag, value)]), 8)
}

/// The instruction of an opcode of the base table, if it has one.
#[verifier::opaque]
pub open spec fn spec_decode_opcode(opcode: u8) -> Option<InstructionView> {
    match opcode {
        0x00 => Some(instr(opcode, InstructionMnemonic::NOP, None, 0)),
        0x06 => Some(spec_ld_rn(opcode, Reg::B)),
        0x0E => Some(spec_ld_rn(opcode, Reg::C)),
        0x16 => Some(spec_ld_rn(opcode, Reg::D)),
        0x1E => Some(spec_ld_rn(opcode, Reg::E)),
        0x26 => Some(spec_ld_rn(opcode, Reg::H)),
        0x2E => Some(spec_ld_rn(opcode, Reg::L)),
        0x36 => Some(spec_ld_rn(opcode, Reg::HL)),
        0x76 => Some(instr(opcode, InstructionMnemonic::HALT, None, 4)),
        o if 0x40 <= o && o <= 0x7F => spec_parse_ld_rr(opcode),
        0x0A => Some(spec_ld_rr(opcode, Reg::A, Reg::BC)),
        0x1A => Some(spec_ld_rr(opcode, Reg::A, Reg::DE)),
        0xFA => Some(spec_ld_rn16(opcode, Reg::A)),
        0x3E => Some(instr(opcode, InstructionMnemonic::LD, Some(seq![Operand::Reference(Ref::Register(Reg::A)), Operand::Value(ValueType::Immediate)]), 8)),
        0x02 => Some(spec_ld_rr(opcode, Reg::BC, Reg::A)),
        0x12 => Some(spec_ld_rr(opcode, Reg::DE, Reg::A)),
        0xEA => Some(spec_ld_n16r(opcode, Reg::A)),
        0xF2 => Some(instr(opcode, InstructionMnemonic::LD, Some(seq![Operand::Reference(Ref::Register(Reg::A)), Operand::Value(ValueType::Address(Addr::IncRegister(Reg::C)))]), 8)),
        0xE2 => Some(instr(opcode, InstructionMnemonic::LD, Some(seq![Operand::Reference(Ref::Address(Addr::IncRegister(Reg::C))), Operand::Value(ValueType::Register(Reg::A))]), 8)),
        0x3A => Some(instr(opcode, InstructionMnemonic::LDD, Some(seq![Operand::Reference(Ref::Register(Reg::A)), Operand::Value(ValueType::Address(Addr::Register(Reg::HL)))]), 8)),
        0x32 => Some(instr(opcode, InstructionMnemonic::LDD, Some(seq![Operand::Reference(Ref::Address(Addr::Register(Reg::HL))), Operand::Value(ValueType::Register(Reg::A))]), 8)),
        0x2A => Some(instr(opcode, InstructionMnemonic::LDI, Some(seq![Operand::Reference(Ref::Register(Reg::A)), Operand::Value(ValueType::Address(Addr::Register(Reg::HL)))]), 8)),
        0x22 => Some(instr(opcode, InstructionMnemonic::LDI, Some(seq![Operand::Reference(Ref::Address(Addr::Register(Reg::HL))), Operand::Value(ValueType::Register(Reg::A))]), 8)),
        0xE0 => Some(instr(opcode, InstructionMnemonic::LD, Some(seq![Operand::Reference(Ref::Address(Addr::IncImmediate)), Operand::Value(ValueType::Register(Reg::A))]), 12)),
        0xF0 => Some(instr(opcode, InstructionMnemonic::LD, Some(seq![Operand::Reference(Ref::Register(Reg::A)), Operand::Value(ValueType::Address(Addr::IncImmediate))]), 12)),
        0x01 => Some(spec_ld_r16n16(opcode, Reg::BC)),
        0x11 => Some(spec_ld_r16n16(opcode, Reg::DE)),
        0x21 => Some(spec_ld_r16n16(opcode, Reg::HL)),
        0x31 => Some(spec_ld_r16n16(opcode, Reg::SP)),
        0xF9 => Some(instr(opcode, InstructionMnemonic::LD, Some(seq![Operand::Reference(Ref::Register(Reg::SP)), Operand::Value(ValueType::Register(Reg::HL))]), 8)),
        0xF8 => Some(instr(opcode, InstructionMnemonic::LDHL, Some(seq![Operand::Value(ValueType::Register(Reg::SP)), Operand::Value(ValueType::Immediate)]), 12)),
        0x08 => Some(instr(opcode, InstructionMnemonic::LD, Some(seq![Operand::Reference(Ref::Address(Addr::Immediate)), Operand::Value(ValueType::Register(Reg::SP))]), 20)),
        0xF5 => Some(spec_push(opcode, Reg::AF)),
        0xC5 => Some(spec_push(opcode, Reg::BC)),
        0xD5 => Some(spec_push(opcode, Reg::DE)),
        0xE5 => Some(spec_push(opcode, Reg::HL)),
        0xF1 => Some(spec_pop(opcode, Reg::AF)),
        0xC1 => Some(spec_pop(opcode, Reg::BC)),
        0xD1 => Some(spec_pop(opcode, Reg::DE)),
        0xE1 => Some(spec_pop(opcode, Reg::HL)),
        0x87 => Some(spec_add_an(opcode, Reg::A)),
        0x80 => Some(spec_add_an(opcode, Reg::B)),
        0x81 => Some(spec_add_an(opcode, Reg::C)),
        0x82 => Some(spec_add_an(opcode, Reg::D)),
        0x83 => Some(spec_add_an(opcode, Reg::E)),
        0x84 => Some(spec_add_an(opcode, Reg::H)),
        0x85 => Some(spec_add_an(opcode, Reg::L)),
        0x86 => Some(spec_add_an(opcode, Reg::HL)),
        0xC6 => Some(instr(opcode, InstructionMnemonic::ADD, Some(seq![Operand::Reference(Ref::Register(Reg::A)), Operand::Value(ValueType::Immediate)]), 8)),
        0x8F => Some(spec_adc_an(opcode, Reg::A)),
        0x88 => Some(spec_adc_an(opcode, Reg::B)),
        0x89 => Some(spec_adc_an(opcode, Reg::C)),
        0x8A => Some(spec_adc_an(opcode, Reg::D)),
        0x8B => Some(spec_adc_an(opcode, Reg::E)),
        0x8C => Some(spec_adc_an(opcode, Reg::H)),
        0x8D => Some(spec_adc_an(opcode, Reg::L)),
        0x8E => Some(spec_adc_an(opcode, Reg::HL)),
        0xCE => Some(instr(opcode, InstructionMnemonic::ADC, Some(seq![Operand::Value(ValueType::Immediate)]), 8)),
        0x97 => Some(spec_sub_an(opcode, Reg::A)),
        0x90 => Some(spec_sub_an(opcode, Reg::B)),
        0x91 => Some(spec_sub_an(opcode, Reg::C)),
        0x92 => Some(spec_sub_an(opcode, Reg::D)),
        0x93 => Some(spec_sub_an(opcode, Reg::E)),
        0x94 => Some(spec_sub_an(opcode, Reg::H)),
        0x95 => Some(spec_sub_an(opcode, Reg::L)),
        0x96 => Some(spec_sub_an(opcode, Reg::HL)),
        0xD6 => Some(instr(opcode, InstructionMnemonic::SUB, Some(seq![Operand::Value(ValueType::Immediate)]), 8)),
        0x9F => Some(spec_sbc_an(opcode, Reg::A)),
        0x98 => Some(spec_sbc_an(opcode, Reg::B)),
        0x99 => Some(spec_sbc_an(opcode, Reg::C)),
        0x9A => Some(spec_sbc_an(opcode, Reg::D)),
        0x9B => Some(spec_sbc_an(opcode, Reg::E)),
        0x9C => Some(spec_sbc_an(opcode, Reg::H)),
        0x9D => Some(spec_sbc_an(opcode, Reg::L)),
        0x9E => Some(spec_sbc_an(opcode, Reg::HL)),
        0xDE => Some(instr(opcode, InstructionMnemonic::SBC, Some(seq![Operand::Value(ValueType::Immediate)]), 8)),
        0xA7 => Some(spec_and(opcode, Reg::A)),
        0xA0 => Some(spec_and(opcode, Reg::B)),
        0xA1 => Some(spec_and(opcode, Reg::C)),
        0xA2 => Some(spec_and(opcode, Reg::D)),
        0xA3 => Some(spec_and(opcode, Reg::E)),
        0xA4 => Some(spec_and(opcode, Reg::H)),
        0xA5 => Some(spec_and(opcode, Reg::L)),
        0xA6 => Some(spec_and(opcode, Reg::HL)),
        0xE6 => Some(instr(opcode, InstructionMnemonic::AND, Some(seq![Operand::Value(ValueType::Immediate)]), 8)),
        0xB7 => Some(spec_or(opcode, Reg::A)),
        0xB0 => Some(spec_or(opcode, Reg::B)),
        0xB1 => Some(spec_or(opcode, Reg::C)),
        0xB2 => Some(spec_or(opcode, Reg::D)),
        0xB3 => Some(spec_or(opcode, Reg::E)),
        0xB4 => Some(spec_or(opcode, Reg::H)),
        0xB5 => Some(spec_or(opcode, Reg::L)),
        0xB6 => Some(spec_or(opcode, Reg::HL)),
        0xF6 => Some(instr(opcode, InstructionMnemonic::OR, Some(seq![Operand::Value(ValueType::Immediate)]), 8)),
        0xAF => Some(spec_xor(opcode, Reg::A)),
        0xA8 => Some(spec_xor(opcode, Reg::B)),
        0xA9 => Some(spec_xor(opcode, Reg::C)),
        0xAA => Some(spec_xor(opcode, Reg::D)),
        0xAB => Some(spec_xor(opcode, Reg::E)),
        0xAC => Some(spec_xor(opcode, Reg::H)),
        0xAD => Some(spec_xor(opcode, Reg::L)),
        0xAE => Some(spec_xor(opcode, Reg::HL)),
        0xEE => Some(instr(opcode, InstructionMnemonic::XOR, Some(seq![Operand::Value(ValueType::Immediate)]), 8)),
        0xBF => Some(spec_cp(opcode, Reg::A)),
        0xB8 => Some(spec_cp(opcode, Reg::B)),
        0xB9 => Some(spec_cp(opcode, Reg::C)),
        0xBA => Some(spec_cp(opcode, Reg::D)),
        0xBB => Some(spec_cp(opcode, Reg::E)),
        0xBC => Some(spec_cp(opcode, Reg::H)),
        0xBD => Some(spec_cp(opcode, Reg::L)),
        0xBE => Some(spec_cp(opcode, Reg::HL)),
        0xFE => Some(instr(opcode, InstructionMnemonic::CP, Some(seq![Operand::Value(ValueType::Immediate)]), 8)),
        0x3C => Some(spec_inc(opcode, Reg::A)),
        0x04 => Some(spec_inc(opcode, Reg::B)),
        0x0C => Some(spec_inc(opcode, Reg::C)),
        0x14 => Some(spec_inc(opcode, Reg::D)),
        0x1C => Some(spec_inc(opcode, Reg::E)),
        0x24 => Some(spec_inc(opcode, Reg::H)),
        0x2C => Some(spec_inc(opcode, Reg::L)),
        0x34 => Some(instr(opcode, InstructionMnemonic::INC, Some(seq![Operand::Reference(Ref::Address(Addr::Register(Reg::HL)))]), 12)),
        0x3D => Some(spec_dec(opcode, Reg::A)),
        0x05 => Some(spec_dec(opcode, Reg::B)),
        0x0D => Some(spec_dec(opcode, Reg::C)),
        0x15 => Some(spec_dec(opcode, Reg::D)),
        0x1D => Some(spec_dec(opcode, Reg::E)),
        0x25 => Some(spec_dec(opcode, Reg::H)),
        0x2D => Some(spec_dec(opcode, Reg::L)),
        0x35 => Some(instr(opcode, InstructionMnemonic::DEC, Some(seq![Operand::Reference(Ref::Address(Addr::Register(Reg::HL)))]), 12)),
        0x09 => Some(spec_add_hl(opcode, Reg::BC)),
        0x19 => Some(spec_add_hl(opcode, Reg::DE)),
        0x29 => Some(spec_add_hl(opcode, Reg::HL)),
        0x39 => Some(spec_add_hl(opcode, Reg::SP)),
        0xE8 => Some(instr(opcode, InstructionMnemonic::ADD, Some(seq![Operand::Reference(Ref::Register(Reg::SP)), Operand::Value(ValueType::Immediate)]), 16)),
        0x03 => Some(spec_inc(opcode, Reg::BC)),
        0x13 => Some(spec_inc(opcode, Reg::DE)),
        0x23 => Some(spec_inc(opcode, Reg::HL)),
        0x33 => Some(spec_inc(opcode, Reg::SP)),
        0x0B => Some(spec_dec(opcode, Reg::BC)),
        0x1B => Some(spec_dec(opcode, Reg::DE)),
        0x2B => Some(spec_dec(opcode, Reg::HL)),
        0x3B => Some(spec_dec(opcode, Reg::SP)),
        0x27 => Some(instr(opcode, InstructionMnemonic::DAA, None, 4)),
        0x2F => Some(instr(opcode, InstructionMnemonic::CPL, None, 4)),
        0x3F => Some(instr(opcode, InstructionMnemonic::CCF, None, 4)),
        0x37 => Some(instr(opcode, InstructionMnemonic::SCF, None, 4)),
        0x10 => Some(instr(opcode, InstructionMnemonic::STOP, None, 4)),
        0xF3 => Some(instr(opcode, InstructionMnemonic::DI, None, 4)),
        0xFB => Some(instr(opcode, InstructionMnemonic::EI, None, 4)),
        0x07 => Some(instr(opcode, InstructionMnemonic::RLCA, None, 4)),
        0x17 => Some(instr(opcode, InstructionMnemonic::RLA, None, 4)),
        0x0F => Some(instr(opcode, InstructionMnemonic::RRCA, None, 4)),
        0x1F => Some(instr(opcode, InstructionMnemonic::RRA, None, 4)),
        0xCB => Some(instr(opcode, InstructionMnemonic::CB, None, 4)),
        0xC3 => Some(instr(opcode, InstructionMnemonic::JP, Some(seq![Operand::Value(ValueType::Immediate16)]), 12)),
        0xC2 => Some(spec_jp(opcode, Flag::Zero, false)),
        0xCA => Some(spec_jp(opcode, Flag::Zero, true)),
        0xD2 => Some(spec_jp(opcode, Flag::Carry, false)),
        0xDA => Some(spec_jp(opcode, Flag::Carry, true)),
        0xE9 => Some(instr(opcode, InstructionMnemonic::JP, Some(seq![Operand::Value(ValueType::Register(Reg::HL))]), 4)),
        0x18 => Some(instr(opcode, InstructionMnemonic::JR, Some(seq![Operand::Value(ValueType::Immediate)]), 8)),
        0x20 => Some(spec_jr(opcode, Flag::Zero, false)),
        0x28 => Some(spec_jr(opcode, Flag::Zero, true)),
        0x30 => Some(spec_jr(opcode, Flag::Carry, false)),
        0x38 => Some(spec_jr(opcode, Flag::Carry, true)),
        0xCD => Some(instr(opcode, InstructionMnemonic::CALL, Some(seq![Operand::Value(ValueType::Immediate16)]), 12)),
        0xC4 => Some(spec_call(opcode, Flag::Zero, false)),
        0xCC => Some(spec_call(opcode, Flag::Zero, true)),
        0xD4 => Some(spec_call(opcode, Flag::Carry, false)),
        0xDC => Some(spec_call(opcode, Flag::Carry, true)),
        0xC7 => Some(spec_rst(opcode, 0x00)),
        0xCF => Some(spec_rst(opcode, 0x08)),
        0xD7 => Some(spec_rst(opcode, 0x10)),
        0xDF => Some(spec_rst(opcode, 0x18)),
        0xE7 => Some(spec_rst(opcode, 0x20)),
        0xEF => Some(spec_rst(opcode, 0x28)),
        0xF7 => Some(spec_rst(opcode, 0x30)),
        0xFF => Some(spec_rst(opcode, 0x38)),
        0xC9 => Some(instr(opcode, InstructionMnemonic::RET, None, 8)),
        0xC0 => Some(spec_ret(opcode, Flag::Zero, false)),
        0xC8 => Some(spec_ret(opcode, Flag::Zero, true)),
        0xD0 => Some(spec_ret(opcode, Flag::Carry, false)),
        0xD8 => Some(spec_ret(opcode, Flag::Carry, true)),
        0xD9 => Some(instr(opcode, InstructionMnemonic::RETI, None, 8)),
        _ => None,
    }
}

/// The register an extended opcode works on, by its low three bits; `HL` stands for
/// the byte at (HL).
pub open spec fn spec_cb_register(opcode: u8) -> Reg {
    spec_ld_source(opcode)
}

/// The operand an extended opcode works on.
pub open spec fn spec_cb_reference(opcode: u8) -> Ref {
    if opcode % 8 == 6 {
        Ref::Address(Addr::Register(Reg::HL))
    } else {
        Ref::Register(spec_cb_register(opcode))
    }
}

/// The mnemonic of an extended opcode, by its top five bits.
pub open spec fn spec_cb_mnemonic(opcode: u8) -> InstructionMnemonic {
    let row = opcode / 8;
    if row == 0 {
        InstructionMnemonic::RLC
    } else if row == 1 {
        InstructionMnemonic::RRC
    } else if row == 2 {
        InstructionMnemonic::RL
    } else if row == 3 {
        InstructionMnemonic::RR
    } else if row == 4 {
        InstructionMnemonic::SLA
    } else if row == 5 {
        InstructionMnemonic::SRA
    } else if row == 6 {
        InstructionMnemonic::SWAP
    } else if row == 7 {
        InstructionMnemonic::SRL
    } else if row < 16 {
        InstructionMnemonic::BIT
    } else if row < 24 {
        InstructionMnemonic::RES
    } else {
        InstructionMnemonic::SET
    }
}

/// The instruction of an opcode of the extended (0xCB) table: the rotations, shifts and
/// swap take the operand alone, `BIT`, `RES` and `SET` take the bit number first.
pub open spec fn spec_decode_cb_opcode(opcode: u8) -> InstructionView {
    let reference = spec_cb_reference(opcode);
    let cycle_count: u8 = if opcode % 8 != 6 {
        8
    } else if 0x40 <= opcode < 0x80 {
        12
    } else {
        16
    };
    if opcode < 0x40 {
        instr(opcode, spec_cb_mnemonic(opcode), Some(seq![Operand::Reference(reference)]), cycle_count)
    } else {
        instr(
            opcode,
            spec_cb_mnemonic(opcode),
            Some(
                seq![
                    Operand::Value(ValueType::Constant(((opcode / 8) % 8) as u16)),
                    Operand::Reference(reference),
                ],
            ),
            cycle_count,
        )
    }
}

/// The instruction of an opcode under a prefix.
pub open spec fn spec_decode(opcode: u8, prefix: Prefix) -> Option<InstructionView> {
    match prefix {
        Prefix::Base => spec_decode_opcode(opcode),
        Prefix::CB => Some(spec_decode_cb_opcode(opcode)),
    }
}

/// A vector holding one operand.
fn single(operand: Operand) -> (v: Vec<Operand>)
    ensures
        v@ == seq![operand],
{
    let mut v = Vec::new();
    v.push(operand);
    v
}

pub struct Decoder;

impl Decoder {
    /// Decodes an opcode of the base table; `None` for the opcodes that have no
    /// instruction.
    #[verifier::rlimit(40)]
    pub fn decode_opcode(opcode: u8) -> (r: Option<InstructionInfo>)
        ensures
            match r {
                Some(i) => spec_decode_opcode(opcode) == Some(i@),
                None => spec_decode_opcode(opcode) is None,
            },
    {
        proof {
            reveal(spec_decode_opcode);
        }
        match opcode {
            0x00 => Some(InstructionInfo::new(opcode, InstructionMnemonic::NOP, None, 0)),
            0x06 => Some(Self::ld_rn(opcode, Reg::B)),
            0x0E => Some(Self::ld_rn(opcode, Reg::C)),
            0x16 => Some(Self::ld_rn(opcode, Reg::D)),
            0x1E => Some(Self::ld_rn(opcode, Reg::E)),
            0x26 => Some(Self::ld_rn(opcode, Reg::H)),
            0x2E => Some(Self::ld_rn(opcode, Reg::L)),
            0x36 => Some(Self::ld_rn(opcode, Reg::HL)),
            0x76 => Some(InstructionInfo::new(opcode, InstructionMnemonic::HALT, None, 4)),
            o if 0x40 <= o && o <= 0x7F => Self::parse_ld_rr(opcode),
            0x0A => Some(Self::ld_rr(opcode, Reg::A, Reg::BC)),
            0x1A => Some(Self::ld_rr(opcode, Reg::A, Reg::DE)),
            0xFA => Some(Self::ld_rn16(opcode, Reg::A)),
            0x3E => Some(InstructionInfo::new(opcode, InstructionMnemonic::LD, Some(vec![Operand::Reference(Ref::Register(Reg::A)), Operand::Value(ValueType::Immediate)]), 8)),
            0x02 => Some(Self::ld_rr(opcode, Reg::BC, Reg::A)),
            0x12 => Some(Self::ld_rr(opcode, Reg::DE, Reg::A)),
            0xEA => Some(Self::ld_n16r(opcode, Reg::A)),
            0xF2 => Some(InstructionInfo::new(opcode, InstructionMnemonic::LD, Some(vec![Operand::Reference(Ref::Register(Reg::A)), Operand::Value(ValueType::Address(Addr::IncRegister(Reg::C)))]), 8)),
            0xE2 => Some(InstructionInfo::new(opcode, InstructionMnemonic::LD, Some(vec![Operand::Reference(Ref::Address(Addr::IncRegister(Reg::C))), Operand::Value(ValueType::Register(Reg::A))]), 8)),
            0x3A => Some(InstructionInfo::new(opcode, InstructionMnemonic::LDD, Some(vec![Operand::Reference(Ref::Register(Reg::A)), Operand::Value(ValueType::Address(Addr::Register(Reg::HL)))]), 8)),
            0x32 => Some(InstructionInfo::new(opcode, InstructionMnemonic::LDD, Some(vec![Operand::Reference(Ref::Address(Addr::Register(Reg::HL))), Operand::Value(ValueType::Register(Reg::A))]), 8)),
            0x2A => Some(InstructionInfo::new(opcode, InstructionMnemonic::LDI, Some(vec![Operand::Reference(Ref::Register(Reg::A)), Operand::Value(ValueType::Address(Addr::Register(Reg::HL)))]), 8)),
            0x22 => Some(InstructionInfo::new(opcode, InstructionMnemonic::LDI, Some(vec![Operand::Reference(Ref::Address(Addr::Register(Reg::HL))), Operand::Value(ValueType::Register(Reg::A))]), 8)),
            0xE0 => Some(InstructionInfo::new(opcode, InstructionMnemonic::LD, Some(vec![Operand::Reference(Ref::Address(Addr::IncImmediate)), Operand::Value(ValueType::Register(Reg::A))]), 12)),
            0xF0 => Some(InstructionInfo::new(opcode, InstructionMnemonic::LD, Some(vec![Operand::Reference(Ref::Register(Reg::A)), Operand::Value(ValueType::Address(Addr::IncImmediate))]), 12)),
            0x01 => Some(Self::ld_r16n16(opcode, Reg::BC)),
            0x11 => Some(Self::ld_r16n16(opcode, Reg::DE)),
            0x21 => Some(Self::ld_r16n16(opcode, Reg::HL)),
            0x31 => Some(Self::ld_r16n16(opcode, Reg::SP)),
            0xF9 => Some(InstructionInfo::new(opcode, InstructionMnemonic::LD, Some(vec![Operand::Reference(Ref::Register(Reg::SP)), Operand::Value(ValueType::Register(Reg::HL))]), 8)),
            0xF8 => Some(InstructionInfo::new(opcode, InstructionMnemonic::LDHL, Some(vec![Operand::Value(ValueType::Register(Reg::SP)), Operand::Value(ValueType::Immediate)]), 12)),
            0x08 => Some(InstructionInfo::new(opcode, InstructionMnemonic::LD, Some(vec![Operand::Reference(Ref::Address(Addr::Immediate)), Operand::Value(ValueType::Register(Reg::SP))]), 20)),
            0xF5 => Some(Self::push(opcode, Reg::AF)),
            0xC5 => Some(Self::push(opcode, Reg::BC)),
            0xD5 => Some(Self::push(opcode, Reg::DE)),
            0xE5 => Some(Self::push(opcode, Reg::HL)),
            0xF1 => Some(Self::pop(opcode, Reg::AF)),
            0xC1 => Some(Self::pop(opcode, Reg::BC)),
            0xD1 => Some(Self::pop(opcode, Reg::DE)),
            0xE1 => Some(Self::pop(opcode, Reg::HL)),
            0x87 => Some(Self::add_an(opcode, Reg::A)),
            0x80 => Some(Self::add_an(opcode, Reg::B)),
            0x81 => Some(Self::add_an(opcode, Reg::C)),
            0x82 => Some(Self::add_an(opcode, Reg::D)),
            0x83 => Some(Self::add_an(opcode, Reg::E)),
            0x84 => Some(Self::add_an(opcode, Reg::H)),
            0x85 => Some(Self::add_an(opcode, Reg::L)),
            0x86 => Some(Self::add_an(opcode, Reg::HL)),
            0xC6 => Some(InstructionInfo::new(opcode, InstructionMnemonic::ADD, Some(vec![Operand::Reference(Ref::Register(Reg::A)), Operand::Value(ValueType::Immediate)]), 8)),
            0x8F => Some(Self::adc_an(opcode, Reg::A)),
            0x88 => Some(Self::adc_an(opcode, Reg::B)),
            0x89 => Some(Self::adc_an(opcode, Reg::C)),
            0x8A => Some(Self::adc_an(opcode, Reg::D)),
            0x8B => Some(Self::adc_an(opcode, Reg::E)),
            0x8C => Some(Self::adc_an(opcode, Reg::H)),
            0x8D => Some(Self::adc_an(opcode, Reg::L)),
            0x8E => Some(Self::adc_an(opcode, Reg::HL)),
            0xCE => Some(InstructionInfo::new(opcode, InstructionMnemonic::ADC, Some(single(Operand::Value(ValueType::Immediate))), 8)),
            0x97 => Some(Self::sub_an(opcode, Reg::A)),
            0x90 => Some(Self::sub_an(opcode, Reg::B)),
            0x91 => Some(Self::sub_an(opcode, Reg::C)),
            0x92 => Some(Self::sub_an(opcode, Reg::D)),
            0x93 => Some(Self::sub_an(opcode, Reg::E)),
            0x94 => Some(Self::sub_an(opcode, Reg::H)),
            0x95 => Some(Self::sub_an(opcode, Reg::L)),
            0x96 => Some(Self::sub_an(opcode, Reg::HL)),
            0xD6 => Some(InstructionInfo::new(opcode, InstructionMnemonic::SUB, Some(single(Operand::Value(ValueType::Immediate))), 8)),
            0x9F => Some(Self::sbc_an(opcode, Reg::A)),
            0x98 => Some(Self::sbc_an(opcode, Reg::B)),
            0x99 => Some(Self::sbc_an(opcode, Reg::C)),
            0x9A => Some(Self::sbc_an(opcode, Reg::D)),
            0x9B => Some(Self::sbc_an(opcode, Reg::E)),
            0x9C => Some(Self::sbc_an(opcode, Reg::H)),
            0x9D => Some(Self::sbc_an(opcode, Reg::L)),
            0x9E => Some(Self::sbc_an(opcode, Reg::HL)),
            0xDE => Some(InstructionInfo::new(opcode, InstructionMnemonic::SBC, Some(single(Operand::Value(ValueType::Immediate))), 8)),
            0xA7 => Some(Self::and(opcode, Reg::A)),
            0xA0 => Some(Self::and(opcode, Reg::B)),
            0xA1 => Some(Self::and(opcode, Reg::C)),
            0xA2 => Some(Self::and(opcode, Reg::D)),
            0xA3 => Some(Self::and(opcode, Reg::E)),
            0xA4 => Some(Self::and(opcode, Reg::H)),
            0xA5 => Some(Self::and(opcode, Reg::L)),
            0xA6 => Some(Self::and(opcode, Reg::HL)),
            0xE6 => Some(InstructionInfo::new(opcode, InstructionMnemonic::AND, Some(single(Operand::Value(ValueType::Immediate))), 8)),
            0xB7 => Some(Self::or(opcode, Reg::A)),
            0xB0 => Some(Self::or(opcode, Reg::B)),
            0xB1 => Some(Self::or(opcode, Reg::C)),
            0xB2 => Some(Self::or(opcode, Reg::D)),
            0xB3 => Some(Self::or(opcode, Reg::E)),
            0xB4 => Some(Self::or(opcode, Reg::H)),
            0xB5 => Some(Self::or(opcode, Reg::L)),
            0xB6 => Some(Self::or(opcode, Reg::HL)),
            0xF6 => Some(InstructionInfo::new(opcode, InstructionMnemonic::OR, Some(single(Operand::Value(ValueType::Immediate))), 8)),
            0xAF => Some(Self::xor(opcode, Reg::A)),
            0xA8 => Some(Self::xor(opcode, Reg::B)),
            0xA9 => Some(Self::xor(opcode, Reg::C)),
            0xAA => Some(Self::xor(opcode, Reg::D)),
            0xAB => Some(Self::xor(opcode, Reg::E)),
            0xAC => Some(Self::xor(opcode, Reg::H)),
            0xAD => Some(Self::xor(opcode, Reg::L)),
            0xAE => Some(Self::xor(opcode, Reg::HL)),
            0xEE => Some(InstructionInfo::new(opcode, InstructionMnemonic::XOR, Some(single(Operand::Value(ValueType::Immediate))), 8)),
            0xBF => Some(Self::cp(opcode, Reg::A)),
            0xB8 => Some(Self::cp(opcode, Reg::B)),
            0xB9 => Some(Self::cp(opcode, Reg::C)),
            0xBA => Some(Self::cp(opcode, Reg::D)),
            0xBB => Some(Self::cp(opcode, Reg::E)),
            0xBC => Some(Self::cp(opcode, Reg::H)),
            0xBD => Some(Self::cp(opcode, Reg::L)),
            0xBE => Some(Self::cp(opcode, Reg::HL)),
            0xFE => Some(InstructionInfo::new(opcode, InstructionMnemonic::CP, Some(single(Operand::Value(ValueType::Immediate))), 8)),
            0x3C => Some(Self::inc(opcode, Reg::A)),
            0x04 => Some(Self::inc(opcode, Reg::B)),
            0x0C => Some(Self::inc(opcode, Reg::C)),
            0x14 => Some(Self::inc(opcode, Reg::D)),
            0x1C => Some(Self::inc(opcode, Reg::E)),
            0x24 => Some(Self::inc(opcode, Reg::H)),
            0x2C => Some(Self::inc(opcode, Reg::L)),
            0x34 => Some(InstructionInfo::new(opcode, InstructionMnemonic::INC, Some(single(Operand::Reference(Ref::Address(Addr::Register(Reg::HL))))), 12)),
            0x3D => Some(Self::dec(opcode, Reg::A)),
            0x05 => Some(Self::dec(opcode, Reg::B)),
            0x0D => Some(Self::dec(opcode, Reg::C)),
            0x15 => Some(Self::dec(opcode, Reg::D)),
            0x1D => Some(Self::dec(opcode, Reg::E)),
            0x25 => Some(Self::dec(opcode, Reg::H)),
            0x2D => Some(Self::dec(opcode, Reg::L)),
            0x35 => Some(InstructionInfo::new(opcode, InstructionMnemonic::DEC, Some(single(Operand::Reference(Ref::Address(Addr::Register(Reg::HL))))), 12)),
            0x09 => Some(Self::add_hl(opcode, Reg::BC)),
            0x19 => Some(Self::add_hl(opcode, Reg::DE)),
            0x29 => Some(Self::add_hl(opcode, Reg::HL)),
            0x39 => Some(Self::add_hl(opcode, Reg::SP)),
            0xE8 => Some(InstructionInfo::new(opcode, InstructionMnemonic::ADD, Some(vec![Operand::Reference(Ref::Register(Reg::SP)), Operand::Value(ValueType::Immediate)]), 16)),
            0x03 => Some(Self::inc(opcode, Reg::BC)),
            0x13 => Some(Self::inc(opcode, Reg::DE)),
            0x23 => Some(Self::inc(opcode, Reg::HL)),
            0x33 => Some(Self::inc(opcode, Reg::SP)),
            0x0B => Some(Self::dec(opcode, Reg::BC)),
            0x1B => Some(Self::dec(opcode, Reg::DE)),
            0x2B => Some(Self::dec(opcode, Reg::HL)),
            0x3B => Some(Self::dec(opcode, Reg::SP)),
            0x27 => Some(InstructionInfo::new(opcode, InstructionMnemonic::DAA, None, 4)),
            0x2F => Some(InstructionInfo::new(opcode, InstructionMnemonic::CPL, None, 4)),
            0x3F => Some(InstructionInfo::new(opcode, InstructionMnemonic::CCF, None, 4)),
            0x37 => Some(InstructionInfo::new(opcode, InstructionMnemonic::SCF, None, 4)),
            0x10 => Some(InstructionInfo::new(opcode, InstructionMnemonic::STOP, None, 4)),
            0xF3 => Some(InstructionInfo::new(opcode, InstructionMnemonic::DI, None, 4)),
            0xFB => Some(InstructionInfo::new(opcode, InstructionMnemonic::EI, None, 4)),
            0x07 => Some(InstructionInfo::new(opcode, InstructionMnemonic::RLCA, None, 4)),
            0x17 => Some(InstructionInfo::new(opcode, InstructionMnemonic::RLA, None, 4)),
            0x0F => Some(InstructionInfo::new(opcode, InstructionMnemonic::RRCA, None, 4)),
            0x1F => Some(InstructionInfo::new(opcode, InstructionMnemonic::RRA, None, 4)),
            0xCB => Some(InstructionInfo::new(opcode, InstructionMnemonic::CB, None, 4)),
            0xC3 => Some(InstructionInfo::new(opcode, InstructionMnemonic::JP, Some(single(Operand::Value(ValueType::Immediate16))), 12)),
            0xC2 => Some(Self::jp(opcode, Flag::Zero, false)),
            0xCA => Some(Self::jp(opcode, Flag::Zero, true)),
            0xD2 => Some(Self::jp(opcode, Flag::Carry, false)),
            0xDA => Some(Self::jp(opcode, Flag::Carry, true)),
            0xE9 => Some(InstructionInfo::new(opcode, InstructionMnemonic::JP, Some(single(Operand::Value(ValueType::Register(Reg::HL)))), 4)),
            0x18 => Some(InstructionInfo::new(opcode, InstructionMnemonic::JR, Some(single(Operand::Value(ValueType::Immediate))), 8)),
            0x20 => Some(Self::jr(opcode, Flag::Zero, false)),
            0x28 => Some(Self::jr(opcode, Flag::Zero, true)),
            0x30 => Some(Self::jr(opcode, Flag::Carry, false)),
            0x38 => Some(Self::jr(opcode, Flag::Carry, true)),
            0xCD => Some(InstructionInfo::new(opcode, InstructionMnemonic::CALL, Some(single(Operand::Value(ValueType::Immediate16))), 12)),
            0xC4 => Some(Self::call(opcode, Flag::Zero, false)),
            0xCC => Some(Self::call(opcode, Flag::Zero, true)),
            0xD4 => Some(Self::call(opcode, Flag::Carry, false)),
            0xDC => Some(Self::call(opcode, Flag::Carry, true)),
            0xC7 => Some(Self::rst(opcode, 0x00)),
            0xCF => Some(Self::rst(opcode, 0x08)),
            0xD7 => Some(Self::rst(opcode, 0x10)),
            0xDF => Some(Self::rst(opcode, 0x18)),
            0xE7 => Some(Self::rst(opcode, 0x20)),
            0xEF => Some(Self::rst(opcode, 0x28)),
            0xF7 => Some(Self::rst(opcode, 0x30)),
            0xFF => Some(Self::rst(opcode, 0x38)),
            0xC9 => Some(InstructionInfo::new(opcode, InstructionMnemonic::RET, None, 8)),
            0xC0 => Some(Self::ret(opcode, Flag::Zero, false)),
            0xC8 => Some(Self::ret(opcode, Flag::Zero, true)),
            0xD0 => Some(Self::ret(opcode, Flag::Carry, false)),
            0xD8 => Some(Self::ret(opcode, Flag::Carry, true)),
            0xD9 => Some(InstructionInfo::new(opcode, InstructionMnemonic::RETI, None, 8)),
            _ => None,
        }
    }

    /// Decodes an opcode under a prefix.
    pub fn decode(opcode: u8, prefix: Prefix) -> (r: Option<InstructionInfo>)
        ensures
            match r {
                Some(i) => spec_decode(opcode, prefix) == Some(i@),
                None => spec_decode(opcode, prefix) is None,
            },
    {
        match prefix {
            Prefix::Base => Self::decode_opcode(opcode),
            Prefix::CB => Some(Self::decode_cb_opcode(opcode)),
        }
    }

    /// Decodes an opcode of the extended (0xCB) table; every opcode has an instruction.
    pub fn decode_cb_opcode(opcode: u8) -> (r: InstructionInfo)
        ensures
            r@ == spec_decode_cb_opcode(opcode),
    {
        let reference = if opcode % 8 == 6 {
            Ref::Address(Addr::Register(Reg::HL))
        } else {
            Ref::Register(Self::ld_source(opcode))
        };
        let row: u8 = opcode / 8;
        let mnemonic = if row == 0 {
            InstructionMnemonic::RLC
        } else if row == 1 {
            InstructionMnemonic::RRC
        } else if row == 2 {
            InstructionMnemonic::RL
        } else if row == 3 {
            InstructionMnemonic::RR
        } else if row == 4 {
            InstructionMnemonic::SLA
        } else if row == 5 {
            InstructionMnemonic::SRA
        } else if row == 6 {
            InstructionMnemonic::SWAP
        } else if row == 7 {
            InstructionMnemonic::SRL
        } else if row < 16 {
            InstructionMnemonic::BIT
        } else if row < 24 {
            InstructionMnemonic::RES
        } else {
            InstructionMnemonic::SET
        };
        let cycle_count: u8 = if opcode % 8 != 6 {
            8
        } else if 0x40 <= opcode && opcode < 0x80 {
            12
        } else {
            16
        };
        if opcode < 0x40 {
            InstructionInfo::new(opcode, mnemonic, Some(single(Operand::Reference(reference))), cycle_count)
        } else {
            InstructionInfo::new(
                opcode,
                mnemonic,
                Some(
                    vec![
                        Operand::Value(ValueType::Constant((row % 8) as u16)),
                        Operand::Reference(reference),
                    ],
                ),
                cycle_count,
            )
        }
    }

    /// The source register of `LD r1,r2`, by the low three bits of the opcode.
    fn ld_source(opcode: u8) -> (r: Reg)
        ensures
            r == spec_ld_source(opcode),
    {
        match opcode % 8 {
            0 => Reg::B,
            1 => Reg::C,
            2 => Reg::D,
            3 => Reg::E,
            4 => Reg::H,
            5 => Reg::L,
            6 => Reg::HL,
            _ => Reg::A,
        }
    }

    fn parse_ld_rr(opcode: u8) -> (r: Option<InstructionInfo>)
        ensures
            match r {
                Some(i) => spec_parse_ld_rr(opcode) == Some(i@),
                None => spec_parse_ld_rr(opcode) is None,
            },
    {
        let r1 = match opcode {
            o if 0x78 <= o && o <= 0x7F => Some(Reg::A),
            o if 0x40 <= o && o <= 0x47 => Some(Reg::B),
            o if 0x48 <= o && o <= 0x4F => Some(Reg::C),
            o if 0x50 <= o && o <= 0x57 => Some(Reg::D),
            o if 0x58 <= o && o <= 0x5F => Some(Reg::E),
            o if 0x60 <= o && o <= 0x67 => Some(Reg::H),
            o if 0x68 <= o && o <= 0x6F => Some(Reg::L),
            o if 0x70 <= o && o <= 0x77 => Some(Reg::HL),
            _ => None,
        };
        match r1 {
            Some(r1) => Some(Self::ld_rr(opcode, r1, Self::ld_source(opcode))),
            None => None,
        }
    }

    fn ld_rr(opcode: u8, r1: Reg, r2: Reg) -> (r: InstructionInfo)
        ensures
            r@ == spec_ld_rr(opcode, r1, r2),
    {
        let cycle_count: u8 = if r1.is16bit() || r2.is16bit() { 8 } else { 4 };
        let target = if r1.is16bit() {
            Ref::Address(Addr::Register(r1))
        } else {
            Ref::Register(r1)
        };
        let source = if r2.is16bit() {
            ValueType::Address(Addr::Register(r2))
        } else {
            ValueType::Register(r2)
        };
        InstructionInfo::new(
            opcode,
            InstructionMnemonic::LD,
            Some(vec![Operand::Reference(target), Operand::Value(source)]),
            cycle_count,
        )
    }

    fn ld_rn(opcode: u8, register: Reg) -> (r: InstructionInfo)
        ensures
            r@ == spec_ld_rn(opcode, register),
    {
        let cycle_count: u8 = if register == Reg::HL { 12 } else { 8 };
        let target = if register == Reg::HL {
            Ref::Address(Addr::Register(Reg::HL))
        } else {
            Ref::Register(register)
        };
        InstructionInfo::new(
            opcode,
            InstructionMnemonic::LD,
            Some(vec![Operand::Reference(target), Operand::Value(ValueType::Immediate)]),
            cycle_count,
        )
    }

    fn ld_rn16(opcode: u8, register: Reg) -> (r: InstructionInfo)
        ensures
            r@ == spec_ld_rn16(opcode, register),
    {
        InstructionInfo::new(
            opcode,
            InstructionMnemonic::LD,
            Some(
                vec![
                    Operand::Reference(Ref::Register(register)),
                    Operand::Value(ValueType::Address(Addr::Immediate)),
                ],
            ),
            16,
        )
    }

    fn ld_n16r(opcode: u8, register: Reg) -> (r: InstructionInfo)
        ensures
            r@ == spec_ld_n16r(opcode, register),
    {
        InstructionInfo::new(
            opcode,
            InstructionMnemonic::LD,
            Some(
                vec![
                    Operand::Reference(Ref::Address(Addr::Immediate)),
                    Operand::Value(ValueType::Register(register)),
                ],
            ),
            16,
        )
    }

    fn ld_r16n16(opcode: u8, register: Reg) -> (r: InstructionInfo)
        ensures
            r@ == spec_ld_r16n16(opcode, register),
    {
        InstructionInfo::new(
            opcode,
            InstructionMnemonic::LD,
            Some(
                vec![
                    Operand::Reference(Ref::Register(register)),
                    Operand::Value(ValueType::Immediate16),
                ],
            ),
            12,
        )
    }

    fn push(opcode: u8, register: Reg) -> (r: InstructionInfo)
        ensures
            r@ == spec_push(opcode, register),
    {
        InstructionInfo::new(
            opcode,
            InstructionMnemonic::PUSH,
            Some(single(Operand::Value(ValueType::Register(register)))),
            16,
        )
    }

    fn pop(opcode: u8, register: Reg) -> (r: InstructionInfo)
        ensures
            r@ == spec_pop(opcode, register),
    {
        InstructionInfo::new(
            opcode,
            InstructionMnemonic::POP,
            Some(single(Operand::Reference(Ref::Register(register)))),
            12,
        )
    }

    fn add_an(opcode: u8, register: Reg) -> (r: InstructionInfo)
        ensures
            r@ == spec_add_an(opcode, register),
    {
        Self::alu(opcode, register, InstructionMnemonic::ADD)
    }

    fn adc_an(opcode: u8, register: Reg) -> (r: InstructionInfo)
        ensures
            r@ == spec_adc_an(opcode, register),
    {
        Self::alu(opcode, register, InstructionMnemonic::ADC)
    }

    fn sub_an(opcode: u8, register: Reg) -> (r: InstructionInfo)
        ensures
            r@ == spec_sub_an(opcode, register),
    {
        Self::alu(opcode, register, InstructionMnemonic::SUB)
    }

    fn sbc_an(opcode: u8, register: Reg) -> (r: InstructionInfo)
        ensures
            r@ == spec_sbc_an(opcode, register),
    {
        Self::alu(opcode, register, InstructionMnemonic::SBC)
    }

    fn and(opcode: u8, register: Reg) -> (r: InstructionInfo)
        ensures
            r@ == spec_and(opcode, register),
    {
        Self::alu(opcode, register, InstructionMnemonic::AND)
    }

    fn or(opcode: u8, register: Reg) -> (r: InstructionInfo)
        ensures
            r@ == spec_or(opcode, register),
    {
        Self::alu(opcode, register, InstructionMnemonic::OR)
    }

    fn xor(opcode: u8, register: Reg) -> (r: InstructionInfo)
        ensures
            r@ == spec_xor(opcode, register),
    {
        Self::alu(opcode, register, InstructionMnemonic::XOR)
    }

    fn cp(opcode: u8, register: Reg) -> (r: InstructionInfo)
        ensures
            r@ == spec_cp(opcode, register),
    {
        Self::alu(opcode, register, InstructionMnemonic::CP)
    }

    fn inc(opcode: u8, register: Reg) -> (r: InstructionInfo)
        ensures
            r@ == spec_inc(opcode, register),
    {
        Self::incdec(opcode, register, InstructionMnemonic::INC)
    }

    fn dec(opcode: u8, register: Reg) -> (r: InstructionInfo)
        ensures
            r@ == spec_dec(opcode, register),
    {
        Self::incdec(opcode, register, InstructionMnemonic::DEC)
    }

    fn incdec(opcode: u8, register: Reg, mnemonic: InstructionMnemonic) -> (r: InstructionInfo)
        ensures
            r@ == spec_incdec(opcode, register, mnemonic),
    {
        let cycle_count: u8 = if register.is16bit() { 8 } else { 4 };
        InstructionInfo::new(
            opcode,
            mnemonic,
            Some(single(Operand::Reference(Ref::Register(register)))),
            cycle_count,
        )
    }

    fn alu(opcode: u8, register: Reg, mnemonic: InstructionMnemonic) -> (r: InstructionInfo)
        ensures
            r@ == spec_alu(opcode, register, mnemonic),
    {
        let cycle_count: u8 = if register == Reg::HL { 8 } else { 4 };
        let source = if register == Reg::HL {
            ValueType::Address(Addr::Register(Reg::HL))
        } else {
            ValueType::Register(register)
        };
        let operands = if mnemonic == InstructionMnemonic::ADD {
            vec![Operand::Reference(Ref::Register(Reg::A)), Operand::Value(source)]
        } else {
            single(Operand::Value(source))
        };
        InstructionInfo::new(opcode, mnemonic, Some(operands), cycle_count)
    }

    fn add_hl(opcode: u8, register: Reg) -> (r: InstructionInfo)
        ensures
            r@ == spec_add_hl(opcode, register),
    {
        InstructionInfo::new(
            opcode,
            InstructionMnemonic::ADD,
            Some(
                vec![
                    Operand::Reference(Ref::Register(Reg::HL)),
                    Operand::Value(ValueType::Register(register)),
                ],
            ),
            8,
        )
    }

    /// `RLC` on a register, as the extended table encodes it.
    pub fn rlc(opcode: u8, register: Reg) -> (r: InstructionInfo)
        ensures
            r@ == spec_rlc(opcode, register),
    {
        InstructionInfo::new(
            opcode,
            InstructionMnemonic::RLC,
            Some(single(Operand::Reference(Ref::Register(register)))),
            8,
        )
    }

    fn jp(opcode: u8, flag: Flag, value: bool) -> (r: InstructionInfo)
        ensures
            r@ == spec_jp(opcode, flag, value),
    {
        InstructionInfo::new(
            opcode,
            InstructionMnemonic::JP,
            Some(
                vec![
                    Operand::Condition(flag, value),
                    Operand::Value(ValueType::Immediate16),
                ],
            ),
            12,
        )
    }

    fn jr(opcode: u8, flag: Flag, value: bool) -> (r: InstructionInfo)
        ensures
            r@ == spec_jr(opcode, flag, value),
    {
        InstructionInfo::new(
            opcode,
            InstructionMnemonic::JR,
            Some(
                vec![
                    Operand::Condition(flag, value),
                    Operand::Value(ValueType::Immediate),
                ],
            ),
            8,
        )
    }

    fn call(opcode: u8, flag: Flag, value: bool) -> (r: InstructionInfo)
        ensures
            r@ == spec_call(opcode, flag, value),
    {
        InstructionInfo::new(
            opcode,
            InstructionMnemonic::CALL,
            Some(
                vec![
                    Operand::Condition(flag, value),
                    Operand::Value(ValueType::Immediate16),
                ],
            ),
            12,
        )
    }

    fn rst(opcode: u8, address: u16) -> (r: InstructionInfo)
        ensures
            r@ == spec_rst(opcode, address),
    {
        InstructionInfo::new(
            opcode,
            InstructionMnemonic::RST,
            Some(single(Operand::Value(ValueType::Constant(address)))),
            32,
        )
    }

    fn ret(opcode: u8, flag: Flag, value: bool) -> (r: InstructionInfo)
        ensures
            r@ == spec_ret(opcode, flag, value),
    {
        InstructionInfo::new(
            opcode,
            InstructionMnemonic::RET,
            Some(single(Operand::Condition(flag, value))),
            8,
        )
    }
}

/// The opcodes of the base table that no instruction uses.
pub open spec fn unused_opcode(opcode: u8) -> bool {
    opcode == 0xD3 || opcode == 0xDB || opcode == 0xDD || opcode == 0xE3 || opcode == 0xE4
        || opcode == 0xEB || opcode == 0xEC || opcode == 0xED || opcode == 0xF4 || opcode == 0xFC
        || opcode == 0xFD
}

/// Every opcode of the base table decodes to an instruction, except the eleven unused
/// ones; every opcode of the extended table decodes.
pub proof fn lemma_decode_coverage(opcode: u8)
    ensures
        spec_decode(opcode, Prefix::Base) is None <==> unused_opcode(opcode),
        spec_decode(opcode, Prefix::CB) is Some,
{
    reveal(spec_decode_opcode);
}

/// The operands that the low three bits of an opcode name, as sources: B, C, D, E, H, L,
/// the byte at (HL), A.
pub open spec fn source_by_low_bits() -> Seq<ValueType> {
    seq![
        ValueType::Register(Reg::B),
        ValueType::Register(Reg::C),
        ValueType::Register(Reg::D),
        ValueType::Register(Reg::E),
        ValueType::Register(Reg::H),
        ValueType::Register(Reg::L),
        ValueType::Address(Addr::Register(Reg::HL)),
        ValueType::Register(Reg::A),
    ]
}

/// The same eight operands as destinations: B, C, D, E, H, L, the byte at (HL), A.
pub open spec fn target_by_index() -> Seq<Ref> {
    seq![
        Ref::Register(Reg::B),
        Ref::Register(Reg::C),
        Ref::Register(Reg::D),
        Ref::Register(Reg::E),
        Ref::Register(Reg::H),
        Ref::Register(Reg::L),
        Ref::Address(Addr::Register(Reg::HL)),
        Ref::Register(Reg::A),
    ]
}

/// The operations of the eight rows of the arithmetic block 0x80-0xBF.
pub open spec fn alu_operations() -> Seq<InstructionMnemonic> {
    seq![
        InstructionMnemonic::ADD,
        InstructionMnemonic::ADC,
        InstructionMnemonic::SUB,
        InstructionMnemonic::SBC,
        InstructionMnemonic::AND,
        InstructionMnemonic::XOR,
        InstructionMnemonic::OR,
        InstructionMnemonic::CP,
    ]
}

/// The operations of the first eight rows of the extended table.
pub open spec fn cb_shift_operations() -> Seq<InstructionMnemonic> {
    seq![
        InstructionMnemonic::RLC,
        InstructionMnemonic::RRC,
        InstructionMnemonic::RL,
        InstructionMnemonic::RR,
        InstructionMnemonic::SLA,
        InstructionMnemonic::SRA,
        InstructionMnemonic::SWAP,
        InstructionMnemonic::SRL,
    ]
}

/// In the arithmetic block 0x80-0xBF, bits 3-5 of the opcode pick the operation (ADD,
/// ADC, SUB, SBC, AND, XOR, OR, CP) and the low three bits the source (B, C, D, E, H, L,
/// (HL), A); ADD also names A as its destination. An operation on (HL) takes 8 cycles,
/// the others 4.
pub proof fn lemma_alu_block(opcode: u8)
    requires
        0x80 <= opcode <= 0xBF,
    ensures
        spec_decode_opcode(opcode) matches Some(i)
            && i.opcode == opcode
            && i.mnemonic == alu_operations()[(opcode - 0x80) / 8]
            && i.operands == (if opcode < 0x88 {
                Some(seq![Operand::Reference(Ref::Register(Reg::A)), Operand::Value(source_by_low_bits()[(opcode % 8) as int])])
            } else {
                Some(seq![Operand::Value(source_by_low_bits()[(opcode % 8) as int])])
            })
            && i.cycle_count == (if opcode % 8 == 6 { 8u8 } else { 4u8 }),
{
    reveal(spec_decode_opcode);
}

/// In the load block 0x40-0x7F (but 0x76, HALT), bits 3-5 of the opcode pick the
/// destination and the low three bits the source, both in the order B, C, D, E, H, L,
/// (HL), A. A load through (HL) takes 8 cycles, the others 4.
pub proof fn lemma_load_block(opcode: u8)
    requires
        0x40 <= opcode <= 0x7F,
        opcode != 0x76,
    ensures
        spec_decode_opcode(opcode) matches Some(i)
            && i.opcode == opcode
            && i.mnemonic == InstructionMnemonic::LD
            && i.operands == Some(seq![
                Operand::Reference(target_by_index()[(opcode - 0x40) / 8]),
                Operand::Value(source_by_low_bits()[(opcode % 8) as int]),
            ])
            && i.cycle_count == (if opcode % 8 == 6 || (opcode - 0x40) / 8 == 6 { 8u8 } else { 4u8 }),
{
    reveal(spec_decode_opcode);
}

/// In the extended table the low three bits of the opcode pick the operand (B, C, D, E,
/// H, L, (HL), A). Below 0x40, bits 3-5 pick the rotation or shift; from 0x40 on, the
/// blocks are BIT, RES and SET, and bits 3-5 give the bit number. An operation on
/// (HL) takes 16 cycles (12 for BIT), the others 8.
pub proof fn lemma_cb_table(opcode: u8)
    ensures
        spec_decode(opcode, Prefix::CB) matches Some(i)
            && i.opcode == opcode
            && i.mnemonic == (if opcode < 0x40 {
                cb_shift_operations()[(opcode / 8) as int]
            } else if opcode < 0x80 {
                InstructionMnemonic::BIT
            } else if opcode < 0xC0 {
                InstructionMnemonic::RES
            } else {
                InstructionMnemonic::SET
            })
            && i.operands == (if opcode < 0x40 {
                Some(seq![Operand::Reference(target_by_index()[(opcode % 8) as int])])
            } else {
                Some(seq![
                    Operand::Value(ValueType::Constant(((opcode / 8) % 8) as u16)),
                    Operand::Reference(target_by_index()[(opcode % 8) as int]),
                ])
            })
            && i.cycle_count == (if opcode % 8 != 6 { 8u8 } else if 0x40 <= opcode < 0x80 { 12u8 } else { 16u8 }),
{
}

/// The register pairs that bits 4-5 of an opcode name: BC, DE, HL, SP.
pub open spec fn pair_by_index() -> Seq<Reg> {
    seq![Reg::BC, Reg::DE, Reg::HL, Reg::SP]
}

/// The register pairs of the stack instructions, by bits 4-5: BC, DE, HL, AF.
pub open spec fn stack_pair_by_index() -> Seq<Reg> {
    seq![Reg::BC, Reg::DE, Reg::HL, Reg::AF]
}

/// The conditions that bits 3-4 of a conditional jump, call or return name: NZ, Z, NC,
/// C.
pub open spec fn condition_by_index() -> Seq<Operand> {
    seq![
        Operand::Condition(Flag::Zero, false),
        Operand::Condition(Flag::Zero, true),
        Operand::Condition(Flag::Carry, false),
        Operand::Condition(Flag::Carry, true),
    ]
}

/// The arithmetic operations on an immediate byte (0xC6, 0xCE, ..., 0xFE) follow the
/// rows of the arithmetic block: ADD, ADC, SUB, SBC, AND, XOR, OR, CP, each in 8 cycles.
pub proof fn lemma_immediate_alu(opcode: u8)
    requires
        0xC0 <= opcode,
        opcode % 8 == 6,
    ensures
        spec_decode_opcode(opcode) matches Some(i)
            && i.mnemonic == alu_operations()[(opcode - 0xC0) / 8]
            && i.operands == (if opcode == 0xC6 {
                Some(seq![Operand::Reference(Ref::Register(Reg::A)), Operand::Value(ValueType::Immediate)])
            } else {
                Some(seq![Operand::Value(ValueType::Immediate)])
            })
            && i.cycle_count == 8,
{
    reveal(spec_decode_opcode);
}

/// In the first quarter of the table, the columns 4, 5 and 6 increment, decrement and
/// load an immediate byte into the operand that bits 3-5 name (B, C, D, E, H, L, (HL),
/// A): 4 cycles for INC and DEC, 8 for the load, 4 more on (HL) (8 more for INC and DEC).
pub proof fn lemma_first_quarter_8bit(opcode: u8)
    requires
        opcode < 0x40,
        opcode % 8 == 4 || opcode % 8 == 5 || opcode % 8 == 6,
    ensures
        spec_decode_opcode(opcode) matches Some(i)
            && i.mnemonic == (if opcode % 8 == 4 {
                InstructionMnemonic::INC
            } else if opcode % 8 == 5 {
                InstructionMnemonic::DEC
            } else {
                InstructionMnemonic::LD
            })
            && i.operands == (if opcode % 8 == 6 {
                Some(seq![Operand::Reference(target_by_index()[(opcode / 8) as int]), Operand::Value(ValueType::Immediate)])
            } else {
                Some(seq![Operand::Reference(target_by_index()[(opcode / 8) as int])])
            })
            && i.cycle_count == (if opcode / 8 == 6 {
                12u8
            } else if opcode % 8 == 6 {
                8u8
            } else {
                4u8
            }),
{
    reveal(spec_decode_opcode);
}

/// In the first quarter of the table, the columns 1, 3, 9 and 0xB load an immediate word
/// into, increment, add to HL, and decrement the pair that bits 4-5 name (BC, DE, HL,
/// SP).
pub proof fn lemma_first_quarter_16bit(opcode: u8)
    requires
        opcode < 0x40,
        opcode % 16 == 1 || opcode % 16 == 3 || opcode % 16 == 9 || opcode % 16 == 0xB,
    ensures
        spec_decode_opcode(opcode) matches Some(i) && ({
            let pair = pair_by_index()[(opcode / 16) as int];
            if opcode % 16 == 1 {
                i.mnemonic == InstructionMnemonic::LD && i.cycle_count == 12
                    && i.operands == Some(seq![Operand::Reference(Ref::Register(pair)), Operand::Value(ValueType::Immediate16)])
            } else if opcode % 16 == 9 {
                i.mnemonic == InstructionMnemonic::ADD && i.cycle_count == 8
                    && i.operands == Some(seq![Operand::Reference(Ref::Register(Reg::HL)), Operand::Value(ValueType::Register(pair))])
            } else {
                i.mnemonic == (if opcode % 16 == 3 { InstructionMnemonic::INC } else { InstructionMnemonic::DEC })
                    && i.cycle_count == 8 && i.operands == Some(seq![Operand::Reference(Ref::Register(pair))])
            }
        }),
{
    reveal(spec_decode_opcode);
}

/// In the last quarter of the table, the columns 1 and 5 pop and push the pair that bits
/// 4-5 name (BC, DE, HL, AF), and the column 7 restarts at `opcode - 0xC7`.
pub proof fn lemma_stack_and_restarts(opcode: u8)
    requires
        0xC0 <= opcode,
        opcode % 16 == 1 || opcode % 16 == 5 || opcode % 8 == 7,
    ensures
        spec_decode_opcode(opcode) matches Some(i) && ({
            let pair = stack_pair_by_index()[((opcode - 0xC0) / 16) as int];
            if opcode % 8 == 7 {
                i.mnemonic == InstructionMnemonic::RST && i.cycle_count == 32
                    && i.operands == Some(seq![Operand::Value(ValueType::Constant((opcode - 0xC7) as u16))])
            } else if opcode % 16 == 1 {
                i.mnemonic == InstructionMnemonic::POP && i.cycle_count == 12
                    && i.operands == Some(seq![Operand::Reference(Ref::Register(pair))])
            } else {
                i.mnemonic == InstructionMnemonic::PUSH && i.cycle_count == 16
                    && i.operands == Some(seq![Operand::Value(ValueType::Register(pair))])
            }
        }),
{
    reveal(spec_decode_opcode);
}

/// The conditional relative jumps (0x20-0x38), returns (0xC0-0xD8), jumps (0xC2-0xDA)
/// and calls (0xC4-0xDC) take the condition that bits 3-4 name (NZ, Z, NC, C) first.
pub proof fn lemma_conditional_branches(opcode: u8)
    requires
        (0x20 <= opcode <= 0x38 && opcode % 8 == 0)
            || (0xC0 <= opcode <= 0xDC && (opcode % 8 == 0 || opcode % 8 == 2 || opcode % 8 == 4)),
    ensures
        spec_decode_opcode(opcode) matches Some(i) && ({
            let condition = condition_by_index()[((opcode / 8) % 4) as int];
            if opcode < 0x40 {
                i.mnemonic == InstructionMnemonic::JR && i.cycle_count == 8
                    && i.operands == Some(seq![condition, Operand::Value(ValueType::Immediate)])
            } else if opcode % 8 == 0 {
                i.mnemonic == InstructionMnemonic::RET && i.cycle_count == 8
                    && i.operands == Some(seq![condition])
            } else if opcode % 8 == 2 {
                i.mnemonic == InstructionMnemonic::JP && i.cycle_count == 12
                    && i.operands == Some(seq![condition, Operand::Value(ValueType::Immediate16)])
            } else {
                i.mnemonic == InstructionMnemonic::CALL && i.cycle_count == 12
                    && i.operands == Some(seq![condition, Operand::Value(ValueType::Immediate16)])
            }
        }),
{
    reveal(spec_decode_opcode);
}

} // verus!

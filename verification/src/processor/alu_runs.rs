use vstd::prelude::*;
use crate::bus::Bus;
use crate::processor::decoder::spec_decode_opcode;
use crate::processor::instruction::{InstructionMnemonic, Operand, ValueType};
use crate::processor::lr35902::{
    InstructionError, reg8, spec_adc, spec_add, spec_and, spec_cp, spec_execute, spec_or, spec_sbc, spec_sub,
    spec_xor,
};
use crate::processor::register::low_byte;
use crate::processor::registers::{RegisterType, reg_value};
use crate::processor::ProcessorView;

verus! {

/// The 8-bit registers that the low three bits of an opcode name (6 stands for (HL)).
pub open spec fn register_by_low_bits() -> Seq<RegisterType> {
    seq![
        RegisterType::B,
        RegisterType::C,
        RegisterType::D,
        RegisterType::E,
        RegisterType::H,
        RegisterType::L,
        RegisterType::HL,
        RegisterType::A,
    ]
}

/// Running an opcode of the arithmetic block 0x80-0xBF whose source is a register (not
/// (HL)) applies the operation of its row (ADD, ADC, SUB, SBC, AND, XOR, OR, CP) to A and
/// the value of the register that its low three bits name; it completes and leaves the
/// bus as it is.
#[verifier::spinoff_prover]
#[verifier::rlimit(100)]
pub proof fn lemma_alu_block_runs<H: Bus>(s: ProcessorView, b: H::V, opcode: u8)
    requires
        0x80 <= opcode <= 0xBF,
        opcode % 8 != 6,
    ensures
        ({
            let v = reg8(s, register_by_low_bits()[(opcode % 8) as int]);
            let row = (opcode - 0x80) / 8;
            let t = if row == 0 {
                spec_add(s, RegisterType::A, v)
            } else if row == 1 {
                spec_adc(s, v)
            } else if row == 2 {
                spec_sub(s, v)
            } else if row == 3 {
                spec_sbc(s, v)
            } else if row == 4 {
                spec_and(s, v)
            } else if row == 5 {
                spec_xor(s, v)
            } else if row == 6 {
                spec_or(s, v)
            } else {
                spec_cp(s, v)
            };
            spec_execute::<H>(s, b, spec_decode_opcode(opcode)->0) == (Ok::<(), InstructionError>(()), t, b)
        }),
{
    crate::processor::decoder::lemma_alu_block(opcode);
    let i = spec_decode_opcode(opcode)->0;
    let r = register_by_low_bits()[(opcode % 8) as int];
    let src = ValueType::Register(r);
    assert(crate::processor::decoder::source_by_low_bits()[(opcode % 8) as int] == src);
    assert(low_byte(reg_value(s.regs, r)) == reg8(s, r));
    assert(spec_execute::<H>(s, b, i) == crate::processor::lr35902::spec_execute_base::<H>(s, b, i));
    assert(crate::processor::lr35902::spec_operand_value::<H>(s, b, src) == (s, reg_value(s.regs, r)));
    let row = (opcode - 0x80) / 8;
    let ops = crate::processor::decoder::alu_operations();
    if row == 0 {
        assert(i.mnemonic == InstructionMnemonic::ADD);
    } else if row == 1 {
        assert(ops[1] == InstructionMnemonic::ADC);
    } else if row == 2 {
        assert(ops[2] == InstructionMnemonic::SUB);
    } else if row == 3 {
        assert(ops[3] == InstructionMnemonic::SBC);
    } else if row == 4 {
        assert(ops[4] == InstructionMnemonic::AND);
    } else if row == 5 {
        assert(ops[5] == InstructionMnemonic::XOR);
    } else if row == 6 {
        assert(ops[6] == InstructionMnemonic::OR);
    } else {
        assert(ops[7] == InstructionMnemonic::CP);
    }
    if opcode < 0x88 {
        assert(i.operands->0 == seq![Operand::Reference(crate::processor::instruction::Reference::Register(RegisterType::A)), Operand::Value(src)]);
    } else {
        assert(i.operands->0 == seq![Operand::Value(src)]);
    }
}


} // verus!

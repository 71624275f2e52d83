use rustyboy::processor::decoder::Decoder;
use rustyboy::processor::instruction::{InstructionMnemonic, Operand, Prefix, Reference, ValueType};
use rustyboy::processor::registers::RegisterType;

#[test]
fn coverage() {
    let mut not_covered = Vec::new();
    let empty_instr = vec![0xD3, 0xDB, 0xDD, 0xE3, 0xE4, 0xEB, 0xEC, 0xED, 0xF4, 0xFC, 0xFD];
    let empty: Vec<String> = Vec::new();
    for i in 0..0xff {
        if !empty_instr.contains(&i) && Decoder::decode_opcode(i).is_none() {
            not_covered.push(format!("{:X}", i));
        }
    }
    assert_eq!(not_covered, empty);
}

#[test]
fn unused_opcodes_decode_to_nothing() {
    for i in [0xD3u8, 0xDB, 0xDD, 0xE3, 0xE4, 0xEB, 0xEC, 0xED, 0xF4, 0xFC, 0xFD] {
        assert!(Decoder::decode_opcode(i).is_none());
    }
}

#[test]
fn decodes_ld_b_n() {
    let instruction = Decoder::decode_opcode(0x06).unwrap();
    assert_eq!(*instruction.mnemonic(), InstructionMnemonic::LD);
    assert_eq!(instruction.cycle_count(), 8);
    let operands = instruction.operands().clone().unwrap();
    assert_eq!(operands[0], Operand::Reference(Reference::Register(RegisterType::B)));
    assert_eq!(operands[1], Operand::Value(ValueType::Immediate));
}

#[test]
fn decodes_extended_table() {
    let instruction = Decoder::decode(0x37, Prefix::CB).unwrap();
    assert_eq!(*instruction.mnemonic(), InstructionMnemonic::SWAP);
    let prefix = Decoder::decode(0xCB, Prefix::Base).unwrap();
    assert_eq!(*prefix.mnemonic(), InstructionMnemonic::CB);
}

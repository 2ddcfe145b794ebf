//! The opcode table.
use defenestrate::devices::cpu::structs::{AddressingMode, Instruction};
use defenestrate::devices::cpu::utils::{bytes_to_addr, decode_instruction};

#[test]
fn decodes_instruction_correctly() {
    let res = decode_instruction(0xEA);
    assert_eq!(res.0, AddressingMode::Impl);
    assert_eq!(res.1, Instruction::NOP);
}

#[test]
fn decodes_illegal_opcode_correctly() {
    let res = decode_instruction(0xFB);
    assert_eq!(res.0, AddressingMode::AbsY);
    assert_eq!(res.1, Instruction::NOP);
}

#[test]
fn decodes_unmapped_opcode() {
    let res = decode_instruction(0xF2);
    assert_eq!(res.0, AddressingMode::Impl);
    assert_eq!(res.1, Instruction::NOP);
}

#[test]
fn decodes_a_sample_of_documented_opcodes() {
    assert_eq!(decode_instruction(0x00), (AddressingMode::Impl, Instruction::BRK));
    assert_eq!(decode_instruction(0x20), (AddressingMode::Abs, Instruction::JSR));
    assert_eq!(decode_instruction(0x6C), (AddressingMode::AbsInd, Instruction::JMP));
    assert_eq!(decode_instruction(0x4C), (AddressingMode::Abs, Instruction::JMP));
    assert_eq!(decode_instruction(0xA9), (AddressingMode::Imm, Instruction::LDA));
    assert_eq!(decode_instruction(0xB6), (AddressingMode::ZPY, Instruction::LDX));
    assert_eq!(decode_instruction(0xBE), (AddressingMode::AbsY, Instruction::LDX));
    assert_eq!(decode_instruction(0x91), (AddressingMode::IndY, Instruction::STA));
    assert_eq!(decode_instruction(0x81), (AddressingMode::IndX, Instruction::STA));
    assert_eq!(decode_instruction(0x0A), (AddressingMode::Accum, Instruction::ASL));
    assert_eq!(decode_instruction(0xD0), (AddressingMode::Rel, Instruction::BNE));
    assert_eq!(decode_instruction(0xEB), (AddressingMode::Imm, Instruction::SBC));
    assert_eq!(decode_instruction(0x9A), (AddressingMode::Impl, Instruction::TXS));
}

#[test]
fn unofficial_nops_keep_their_length() {
    assert_eq!(decode_instruction(0x04), (AddressingMode::ZP, Instruction::NOP));
    assert_eq!(decode_instruction(0x0C), (AddressingMode::Abs, Instruction::NOP));
    assert_eq!(decode_instruction(0x1C), (AddressingMode::AbsX, Instruction::NOP));
    assert_eq!(decode_instruction(0x80), (AddressingMode::Imm, Instruction::NOP));
    assert_eq!(decode_instruction(0xA3), (AddressingMode::IndX, Instruction::NOP));
    assert_eq!(decode_instruction(0x97), (AddressingMode::ZPY, Instruction::NOP));
}

#[test]
fn joins_bytes_little_endian() {
    assert_eq!(bytes_to_addr(0x34, 0x12), 0x1234);
    assert_eq!(bytes_to_addr(0xFF, 0x00), 0x00FF);
    assert_eq!(bytes_to_addr(0x00, 0xFF), 0xFF00);
}

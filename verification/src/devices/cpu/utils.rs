//! Instruction decoding and the small helpers the processor shares.
use vstd::prelude::*;
use super::structs::{AddressingMode, Instruction};

verus! {

/// The 16-bit address whose low byte is `fst` and whose high byte is `snd`.
pub open spec fn bytes_to_addr_spec(fst: u8, snd: u8) -> u16 {
    ((snd as u16) << 8) | (fst as u16)
}

/// Joins a low byte `fst` and a high byte `snd` into an address.
#[verifier::when_used_as_spec(bytes_to_addr_spec)]
pub fn bytes_to_addr(fst: u8, snd: u8) -> (r: u16)
    ensures
        r == bytes_to_addr_spec(fst, snd),
{
    ((snd as u16) << 8) | (fst as u16)
}

/// The joined address is `fst + 256 * snd`, and its halves are the two bytes.
pub proof fn bytes_to_addr_value(fst: u8, snd: u8)
    ensures
        bytes_to_addr_spec(fst, snd) == fst + 256 * snd,
        (bytes_to_addr_spec(fst, snd) & 0xFF) as u8 == fst,
        (bytes_to_addr_spec(fst, snd) >> 8) as u8 == snd,
{
    assert({
        let joined = ((snd as u16) << 8) | (fst as u16);
        &&& joined == fst + 256 * snd
        &&& ((joined & 0xFF) as u8) == fst
        &&& ((joined >> 8) as u8) == snd
    }) by (bit_vector);
}

/// The addressing mode of an opcode, read off the opcode matrix: within a
/// column (the low five bits) all opcodes address alike, but for the few
/// rows named here.
pub open spec fn addressing_mode_of(opcode: u8) -> AddressingMode {
    let row = opcode / 32;
    let col = opcode % 32;
    if col == 0x00 {
        if row >= 4 {
            AddressingMode::Imm
        } else if row == 1 {
            AddressingMode::Abs
        } else {
            AddressingMode::Impl
        }
    } else if col == 0x02 {
        if row >= 4 {
            AddressingMode::Imm
        } else {
            AddressingMode::Impl
        }
    } else if col == 0x01 || col == 0x03 {
        AddressingMode::IndX
    } else if 0x04 <= col <= 0x07 {
        AddressingMode::ZP
    } else if col == 0x09 || col == 0x0B {
        AddressingMode::Imm
    } else if col == 0x0A {
        if row < 4 {
            AddressingMode::Accum
        } else {
            AddressingMode::Impl
        }
    } else if 0x0C <= col <= 0x0F {
        if opcode == 0x6C {
            AddressingMode::AbsInd
        } else {
            AddressingMode::Abs
        }
    } else if col == 0x10 {
        AddressingMode::Rel
    } else if col == 0x11 || col == 0x13 {
        AddressingMode::IndY
    } else if 0x14 <= col <= 0x17 {
        if col >= 0x16 && (row == 4 || row == 5) {
            AddressingMode::ZPY
        } else {
            AddressingMode::ZPX
        }
    } else if col == 0x19 || col == 0x1B {
        AddressingMode::AbsY
    } else if 0x1C <= col <= 0x1F {
        if col >= 0x1E && (row == 4 || row == 5) {
            AddressingMode::AbsY
        } else {
            AddressingMode::AbsX
        }
    } else {
        AddressingMode::Impl
    }
}

/// The mnemonic that the group `cc == 1` gives to row `aaa`.
pub open spec fn alu_group(aaa: int) -> Instruction {
    if aaa == 0 {
        Instruction::ORA
    } else if aaa == 1 {
        Instruction::AND
    } else if aaa == 2 {
        Instruction::EOR
    } else if aaa == 3 {
        Instruction::ADC
    } else if aaa == 4 {
        Instruction::STA
    } else if aaa == 5 {
        Instruction::LDA
    } else if aaa == 6 {
        Instruction::CMP
    } else {
        Instruction::SBC
    }
}

/// The mnemonic that the group `cc == 2` gives to row `aaa`.
pub open spec fn rmw_group(aaa: int) -> Instruction {
    if aaa == 0 {
        Instruction::ASL
    } else if aaa == 1 {
        Instruction::ROL
    } else if aaa == 2 {
        Instruction::LSR
    } else if aaa == 3 {
        Instruction::ROR
    } else if aaa == 4 {
        Instruction::STX
    } else if aaa == 5 {
        Instruction::LDX
    } else if aaa == 6 {
        Instruction::DEC
    } else {
        Instruction::INC
    }
}

/// The mnemonic of row `aaa` in the column of one-byte instructions `$x8`.
pub open spec fn stack_and_index_column(aaa: int) -> Instruction {
    if aaa == 0 {
        Instruction::PHP
    } else if aaa == 1 {
        Instruction::PLP
    } else if aaa == 2 {
        Instruction::PHA
    } else if aaa == 3 {
        Instruction::PLA
    } else if aaa == 4 {
        Instruction::DEY
    } else if aaa == 5 {
        Instruction::TAY
    } else if aaa == 6 {
        Instruction::INY
    } else {
        Instruction::INX
    }
}

/// The mnemonic of row `aaa` in the column of branches.
pub open spec fn branch_column(aaa: int) -> Instruction {
    if aaa == 0 {
        Instruction::BPL
    } else if aaa == 1 {
        Instruction::BMI
    } else if aaa == 2 {
        Instruction::BVC
    } else if aaa == 3 {
        Instruction::BVS
    } else if aaa == 4 {
        Instruction::BCC
    } else if aaa == 5 {
        Instruction::BCS
    } else if aaa == 6 {
        Instruction::BNE
    } else {
        Instruction::BEQ
    }
}

/// The mnemonic of row `aaa` in the column of flag instructions `$x8` of the
/// odd rows of sixteen.
pub open spec fn flag_column(aaa: int) -> Instruction {
    if aaa == 0 {
        Instruction::CLC
    } else if aaa == 1 {
        Instruction::SEC
    } else if aaa == 2 {
        Instruction::CLI
    } else if aaa == 3 {
        Instruction::SEI
    } else if aaa == 4 {
        Instruction::TYA
    } else if aaa == 5 {
        Instruction::CLV
    } else if aaa == 6 {
        Instruction::CLD
    } else {
        Instruction::SED
    }
}

/// The mnemonic of an opcode in the group `cc == 0`.
pub open spec fn control_group(aaa: int, bbb: int) -> Instruction {
    if bbb == 0 {
        if aaa == 0 {
            Instruction::BRK
        } else if aaa == 1 {
            Instruction::JSR
        } else if aaa == 2 {
            Instruction::RTI
        } else if aaa == 3 {
            Instruction::RTS
        } else if aaa == 5 {
            Instruction::LDY
        } else if aaa == 6 {
            Instruction::CPY
        } else if aaa == 7 {
            Instruction::CPX
        } else {
            Instruction::NOP
        }
    } else if bbb == 1 || bbb == 3 {
        if aaa == 1 {
            Instruction::BIT
        } else if bbb == 3 && (aaa == 2 || aaa == 3) {
            Instruction::JMP
        } else if aaa == 4 {
            Instruction::STY
        } else if aaa == 5 {
            Instruction::LDY
        } else if aaa == 6 {
            Instruction::CPY
        } else if aaa == 7 {
            Instruction::CPX
        } else {
            Instruction::NOP
        }
    } else if bbb == 2 {
        stack_and_index_column(aaa)
    } else if bbb == 4 {
        branch_column(aaa)
    } else if bbb == 5 {
        if aaa == 4 {
            Instruction::STY
        } else if aaa == 5 {
            Instruction::LDY
        } else {
            Instruction::NOP
        }
    } else if bbb == 6 {
        flag_column(aaa)
    } else {
        if aaa == 5 {
            Instruction::LDY
        } else {
            Instruction::NOP
        }
    }
}

/// The mnemonic of an opcode.  An opcode is `aaabbbcc` in binary: `cc` picks
/// a group, `aaa` the operation within it, `bbb` the addressing.  Opcodes
/// that the processor does not document, and those it does not have, are
/// NOP.
pub open spec fn mnemonic_of(opcode: u8) -> Instruction {
    let aaa = (opcode / 32) as int;
    let bbb = ((opcode / 4) % 8) as int;
    let cc = (opcode % 4) as int;
    if cc == 1 {
        if opcode == 0x89 {
            Instruction::NOP
        } else {
            alu_group(aaa)
        }
    } else if cc == 2 {
        if bbb == 0 {
            if aaa == 5 {
                Instruction::LDX
            } else {
                Instruction::NOP
            }
        } else if bbb == 2 {
            if aaa < 4 {
                rmw_group(aaa)
            } else if aaa == 4 {
                Instruction::TXA
            } else if aaa == 5 {
                Instruction::TAX
            } else if aaa == 6 {
                Instruction::DEX
            } else {
                Instruction::NOP
            }
        } else if bbb == 4 {
            Instruction::NOP
        } else if bbb == 6 {
            if aaa == 4 {
                Instruction::TXS
            } else if aaa == 5 {
                Instruction::TSX
            } else {
                Instruction::NOP
            }
        } else if bbb == 7 && aaa == 4 {
            Instruction::NOP
        } else {
            rmw_group(aaa)
        }
    } else if cc == 3 {
        if opcode == 0xEB {
            Instruction::SBC
        } else {
            Instruction::NOP
        }
    } else {
        control_group(aaa, bbb)
    }
}

/// The bytes an instruction occupies, opcode included.
pub open spec fn instruction_length(mode: AddressingMode) -> u16 {
    match mode {
        AddressingMode::Impl | AddressingMode::Accum => 1,
        AddressingMode::Abs
        | AddressingMode::AbsX
        | AddressingMode::AbsY
        | AddressingMode::AbsInd => 3,
        _ => 2,
    }
}

/// Decodes an opcode into its addressing mode and mnemonic.
///
/// Undocumented opcodes decode as NOP with the addressing mode of the real
/// instruction, so that they have its length; opcodes that halt the real
/// processor decode as a one-byte NOP.
#[inline]
pub fn decode_instruction(instr: u8) -> (r: (AddressingMode, Instruction))
    ensures
        r.0 == addressing_mode_of(instr),
        r.1 == mnemonic_of(instr),
{
    match instr {
        0x00 => (AddressingMode::Impl, Instruction::BRK),
        0x01 => (AddressingMode::IndX, Instruction::ORA),
        0x03 => (AddressingMode::IndX, Instruction::NOP),
        0x04 => (AddressingMode::ZP, Instruction::NOP),
        0x05 => (AddressingMode::ZP, Instruction::ORA),
        0x06 => (AddressingMode::ZP, Instruction::ASL),
        0x07 => (AddressingMode::ZP, Instruction::NOP),
        0x08 => (AddressingMode::Impl, Instruction::PHP),
        0x09 => (AddressingMode::Imm, Instruction::ORA),
        0x0A => (AddressingMode::Accum, Instruction::ASL),
        0x0B => (AddressingMode::Imm, Instruction::NOP),
        0x0C => (AddressingMode::Abs, Instruction::NOP),
        0x0D => (AddressingMode::Abs, Instruction::ORA),
        0x0E => (AddressingMode::Abs, Instruction::ASL),
        0x0F => (AddressingMode::Abs, Instruction::NOP),

        0x10 => (AddressingMode::Rel, Instruction::BPL),
        0x11 => (AddressingMode::IndY, Instruction::ORA),
        0x13 => (AddressingMode::IndY, Instruction::NOP),
        0x14 => (AddressingMode::ZPX, Instruction::NOP),
        0x15 => (AddressingMode::ZPX, Instruction::ORA),
        0x16 => (AddressingMode::ZPX, Instruction::ASL),
        0x17 => (AddressingMode::ZPX, Instruction::NOP),
        0x18 => (AddressingMode::Impl, Instruction::CLC),
        0x19 => (AddressingMode::AbsY, Instruction::ORA),
        0x1A => (AddressingMode::Impl, Instruction::NOP),
        0x1B => (AddressingMode::AbsY, Instruction::NOP),
        0x1C => (AddressingMode::AbsX, Instruction::NOP),
        0x1D => (AddressingMode::AbsX, Instruction::ORA),
        0x1E => (AddressingMode::AbsX, Instruction::ASL),
        0x1F => (AddressingMode::AbsX, Instruction::NOP),

        0x20 => (AddressingMode::Abs, Instruction::JSR),
        0x21 => (AddressingMode::IndX, Instruction::AND),
        0x23 => (AddressingMode::IndX, Instruction::NOP),
        0x24 => (AddressingMode::ZP, Instruction::BIT),
        0x25 => (AddressingMode::ZP, Instruction::AND),
        0x26 => (AddressingMode::ZP, Instruction::ROL),
        0x27 => (AddressingMode::ZP, Instruction::NOP),
        0x28 => (AddressingMode::Impl, Instruction::PLP),
        0x29 => (AddressingMode::Imm, Instruction::AND),
        0x2A => (AddressingMode::Accum, Instruction::ROL),
        0x2B => (AddressingMode::Imm, Instruction::NOP),
        0x2C => (AddressingMode::Abs, Instruction::BIT),
        0x2D => (AddressingMode::Abs, Instruction::AND),
        0x2E => (AddressingMode::Abs, Instruction::ROL),
        0x2F => (AddressingMode::Abs, Instruction::NOP),

        0x30 => (AddressingMode::Rel, Instruction::BMI),
        0x31 => (AddressingMode::IndY, Instruction::AND),
        0x33 => (AddressingMode::IndY, Instruction::NOP),
        0x34 => (AddressingMode::ZPX, Instruction::NOP),
        0x35 => (AddressingMode::ZPX, Instruction::AND),
        0x36 => (AddressingMode::ZPX, Instruction::ROL),
        0x37 => (AddressingMode::ZPX, Instruction::NOP),
        0x38 => (AddressingMode::Impl, Instruction::SEC),
        0x39 => (AddressingMode::AbsY, Instruction::AND),
        0x3A => (AddressingMode::Impl, Instruction::NOP),
        0x3B => (AddressingMode::AbsY, Instruction::NOP),
        0x3C => (AddressingMode::AbsX, Instruction::NOP),
        0x3D => (AddressingMode::AbsX, Instruction::AND),
        0x3E => (AddressingMode::AbsX, Instruction::ROL),
        0x3F => (AddressingMode::AbsX, Instruction::NOP),

        0x40 => (AddressingMode::Impl, Instruction::RTI),
        0x41 => (AddressingMode::IndX, Instruction::EOR),
        0x43 => (AddressingMode::IndX, Instruction::NOP),
        0x44 => (AddressingMode::ZP, Instruction::NOP),
        0x45 => (AddressingMode::ZP, Instruction::EOR),
        0x46 => (AddressingMode::ZP, Instruction::LSR),
        0x47 => (AddressingMode::ZP, Instruction::NOP),
        0x48 => (AddressingMode::Impl, Instruction::PHA),
        0x49 => (AddressingMode::Imm, Instruction::EOR),
        0x4A => (AddressingMode::Accum, Instruction::LSR),
        0x4B => (AddressingMode::Imm, Instruction::NOP),
        0x4C => (AddressingMode::Abs, Instruction::JMP),
        0x4D => (AddressingMode::Abs, Instruction::EOR),
        0x4E => (AddressingMode::Abs, Instruction::LSR),
        0x4F => (AddressingMode::Abs, Instruction::NOP),

        0x50 => (AddressingMode::Rel, Instruction::BVC),
        0x51 => (AddressingMode::IndY, Instruction::EOR),
        0x53 => (AddressingMode::IndY, Instruction::NOP),
        0x54 => (AddressingMode::ZPX, Instruction::NOP),
        0x55 => (AddressingMode::ZPX, Instruction::EOR),
        0x56 => (AddressingMode::ZPX, Instruction::LSR),
        0x57 => (AddressingMode::ZPX, Instruction::NOP),
        0x58 => (AddressingMode::Impl, Instruction::CLI),
        0x59 => (AddressingMode::AbsY, Instruction::EOR),
        0x5A => (AddressingMode::Impl, Instruction::NOP),
        0x5B => (AddressingMode::AbsY, Instruction::NOP),
        0x5C => (AddressingMode::AbsX, Instruction::NOP),
        0x5D => (AddressingMode::AbsX, Instruction::EOR),
        0x5E => (AddressingMode::AbsX, Instruction::LSR),
        0x5F => (AddressingMode::AbsX, Instruction::NOP),

        0x60 => (AddressingMode::Impl, Instruction::RTS),
        0x61 => (AddressingMode::IndX, Instruction::ADC),
        0x63 => (AddressingMode::IndX, Instruction::NOP),
        0x64 => (AddressingMode::ZP, Instruction::NOP),
        0x65 => (AddressingMode::ZP, Instruction::ADC),
        0x66 => (AddressingMode::ZP, Instruction::ROR),
        0x67 => (AddressingMode::ZP, Instruction::NOP),
        0x68 => (AddressingMode::Impl, Instruction::PLA),
        0x69 => (AddressingMode::Imm, Instruction::ADC),
        0x6A => (AddressingMode::Accum, Instruction::ROR),
        0x6B => (AddressingMode::Imm, Instruction::NOP),
        0x6C => (AddressingMode::AbsInd, Instruction::JMP),
        0x6D => (AddressingMode::Abs, Instruction::ADC),
        0x6E => (AddressingMode::Abs, Instruction::ROR),
        0x6F => (AddressingMode::Abs, Instruction::NOP),

        0x70 => (AddressingMode::Rel, Instruction::BVS),
        0x71 => (AddressingMode::IndY, Instruction::ADC),
        0x73 => (AddressingMode::IndY, Instruction::NOP),
        0x74 => (AddressingMode::ZPX, Instruction::NOP),
        0x75 => (AddressingMode::ZPX, Instruction::ADC),
        0x76 => (AddressingMode::ZPX, Instruction::ROR),
        0x77 => (AddressingMode::ZPX, Instruction::NOP),
        0x78 => (AddressingMode::Impl, Instruction::SEI),
        0x79 => (AddressingMode::AbsY, Instruction::ADC),
        0x7A => (AddressingMode::Impl, Instruction::NOP),
        0x7B => (AddressingMode::AbsY, Instruction::NOP),
        0x7C => (AddressingMode::AbsX, Instruction::NOP),
        0x7D => (AddressingMode::AbsX, Instruction::ADC),
        0x7E => (AddressingMode::AbsX, Instruction::ROR),
        0x7F => (AddressingMode::AbsX, Instruction::NOP),

        0x80 => (AddressingMode::Imm, Instruction::NOP),
        0x81 => (AddressingMode::IndX, Instruction::STA),
        0x82 => (AddressingMode::Imm, Instruction::NOP),
        0x83 => (AddressingMode::IndX, Instruction::NOP),
        0x84 => (AddressingMode::ZP, Instruction::STY),
        0x85 => (AddressingMode::ZP, Instruction::STA),
        0x86 => (AddressingMode::ZP, Instruction::STX),
        0x87 => (AddressingMode::ZP, Instruction::NOP),
        0x88 => (AddressingMode::Impl, Instruction::DEY),
        0x89 => (AddressingMode::Imm, Instruction::NOP),
        0x8A => (AddressingMode::Impl, Instruction::TXA),
        0x8B => (AddressingMode::Imm, Instruction::NOP),
        0x8C => (AddressingMode::Abs, Instruction::STY),
        0x8D => (AddressingMode::Abs, Instruction::STA),
        0x8E => (AddressingMode::Abs, Instruction::STX),
        0x8F => (AddressingMode::Abs, Instruction::NOP),

        0x90 => (AddressingMode::Rel, Instruction::BCC),
        0x91 => (AddressingMode::IndY, Instruction::STA),
        0x93 => (AddressingMode::IndY, Instruction::NOP),
        0x94 => (AddressingMode::ZPX, Instruction::STY),
        0x95 => (AddressingMode::ZPX, Instruction::STA),
        0x96 => (AddressingMode::ZPY, Instruction::STX),
        0x97 => (AddressingMode::ZPY, Instruction::NOP),
        0x98 => (AddressingMode::Impl, Instruction::TYA),
        0x99 => (AddressingMode::AbsY, Instruction::STA),
        0x9A => (AddressingMode::Impl, Instruction::TXS),
        0x9B => (AddressingMode::AbsY, Instruction::NOP),
        0x9C => (AddressingMode::AbsX, Instruction::NOP),
        0x9D => (AddressingMode::AbsX, Instruction::STA),
        0x9E => (AddressingMode::AbsY, Instruction::NOP),
        0x9F => (AddressingMode::AbsY, Instruction::NOP),

        0xA0 => (AddressingMode::Imm, Instruction::LDY),
        0xA1 => (AddressingMode::IndX, Instruction::LDA),
        0xA2 => (AddressingMode::Imm, Instruction::LDX),
        0xA3 => (AddressingMode::IndX, Instruction::NOP),
        0xA4 => (AddressingMode::ZP, Instruction::LDY),
        0xA5 => (AddressingMode::ZP, Instruction::LDA),
        0xA6 => (AddressingMode::ZP, Instruction::LDX),
        0xA7 => (AddressingMode::ZP, Instruction::NOP),
        0xA8 => (AddressingMode::Impl, Instruction::TAY),
        0xA9 => (AddressingMode::Imm, Instruction::LDA),
        0xAA => (AddressingMode::Impl, Instruction::TAX),
        0xAB => (AddressingMode::Imm, Instruction::NOP),
        0xAC => (AddressingMode::Abs, Instruction::LDY),
        0xAD => (AddressingMode::Abs, Instruction::LDA),
        0xAE => (AddressingMode::Abs, Instruction::LDX),
        0xAF => (AddressingMode::Abs, Instruction::NOP),

        0xB0 => (AddressingMode::Rel, Instruction::BCS),
        0xB1 => (AddressingMode::IndY, Instruction::LDA),
        0xB3 => (AddressingMode::IndY, Instruction::NOP),
        0xB4 => (AddressingMode::ZPX, Instruction::LDY),
        0xB5 => (AddressingMode::ZPX, Instruction::LDA),
        0xB6 => (AddressingMode::ZPY, Instruction::LDX),
        0xB7 => (AddressingMode::ZPY, Instruction::NOP),
        0xB8 => (AddressingMode::Impl, Instruction::CLV),
        0xB9 => (AddressingMode::AbsY, Instruction::LDA),
        0xBA => (AddressingMode::Impl, Instruction::TSX),
        0xBB => (AddressingMode::AbsY, Instruction::NOP),
        0xBC => (AddressingMode::AbsX, Instruction::LDY),
        0xBD => (AddressingMode::AbsX, Instruction::LDA),
        0xBE => (AddressingMode::AbsY, Instruction::LDX),
        0xBF => (AddressingMode::AbsY, Instruction::NOP),

        0xC0 => (AddressingMode::Imm, Instruction::CPY),
        0xC1 => (AddressingMode::IndX, Instruction::CMP),
        0xC2 => (AddressingMode::Imm, Instruction::NOP),
        0xC3 => (AddressingMode::IndX, Instruction::NOP),
        0xC4 => (AddressingMode::ZP, Instruction::CPY),
        0xC5 => (AddressingMode::ZP, Instruction::CMP),
        0xC6 => (AddressingMode::ZP, Instruction::DEC),
        0xC7 => (AddressingMode::ZP, Instruction::NOP),
        0xC8 => (AddressingMode::Impl, Instruction::INY),
        0xC9 => (AddressingMode::Imm, Instruction::CMP),
        0xCA => (AddressingMode::Impl, Instruction::DEX),
        0xCB => (AddressingMode::Imm, Instruction::NOP),
        0xCC => (AddressingMode::Abs, Instruction::CPY),
        0xCD => (AddressingMode::Abs, Instruction::CMP),
        0xCE => (AddressingMode::Abs, Instruction::DEC),
        0xCF => (AddressingMode::Abs, Instruction::NOP),

        0xD0 => (AddressingMode::Rel, Instruction::BNE),
        0xD1 => (AddressingMode::IndY, Instruction::CMP),
        0xD3 => (AddressingMode::IndY, Instruction::NOP),
        0xD4 => (AddressingMode::ZPX, Instruction::NOP),
        0xD5 => (AddressingMode::ZPX, Instruction::CMP),
        0xD6 => (AddressingMode::ZPX, Instruction::DEC),
        0xD7 => (AddressingMode::ZPX, Instruction::NOP),
        0xD8 => (AddressingMode::Impl, Instruction::CLD),
        0xD9 => (AddressingMode::AbsY, Instruction::CMP),
        0xDA => (AddressingMode::Impl, Instruction::NOP),
        0xDB => (AddressingMode::AbsY, Instruction::NOP),
        0xDC => (AddressingMode::AbsX, Instruction::NOP),
        0xDD => (AddressingMode::AbsX, Instruction::CMP),
        0xDE => (AddressingMode::AbsX, Instruction::DEC),
        0xDF => (AddressingMode::AbsX, Instruction::NOP),

        0xE0 => (AddressingMode::Imm, Instruction::CPX),
        0xE1 => (AddressingMode::IndX, Instruction::SBC),
        0xE2 => (AddressingMode::Imm, Instruction::NOP),
        0xE3 => (AddressingMode::IndX, Instruction::NOP),
        0xE4 => (AddressingMode::ZP, Instruction::CPX),
        0xE5 => (AddressingMode::ZP, Instruction::SBC),
        0xE6 => (AddressingMode::ZP, Instruction::INC),
        0xE7 => (AddressingMode::ZP, Instruction::NOP),
        0xE8 => (AddressingMode::Impl, Instruction::INX),
        0xE9 => (AddressingMode::Imm, Instruction::SBC),
        0xEA => (AddressingMode::Impl, Instruction::NOP),
        0xEB => (AddressingMode::Imm, Instruction::SBC),
        0xEC => (AddressingMode::Abs, Instruction::CPX),
        0xED => (AddressingMode::Abs, Instruction::SBC),
        0xEE => (AddressingMode::Abs, Instruction::INC),
        0xEF => (AddressingMode::Abs, Instruction::NOP),

        0xF0 => (AddressingMode::Rel, Instruction::BEQ),
        0xF1 => (AddressingMode::IndY, Instruction::SBC),
        0xF3 => (AddressingMode::IndY, Instruction::NOP),
        0xF4 => (AddressingMode::ZPX, Instruction::NOP),
        0xF5 => (AddressingMode::ZPX, Instruction::SBC),
        0xF6 => (AddressingMode::ZPX, Instruction::INC),
        0xF7 => (AddressingMode::ZPX, Instruction::NOP),
        0xF8 => (AddressingMode::Impl, Instruction::SED),
        0xF9 => (AddressingMode::AbsY, Instruction::SBC),
        0xFA => (AddressingMode::Impl, Instruction::NOP),
        0xFB => (AddressingMode::AbsY, Instruction::NOP),
        0xFC => (AddressingMode::AbsX, Instruction::NOP),
        0xFD => (AddressingMode::AbsX, Instruction::SBC),
        0xFE => (AddressingMode::AbsX, Instruction::INC),
        0xFF => (AddressingMode::AbsX, Instruction::NOP),

        _ => (AddressingMode::Impl, Instruction::NOP),
    }
}

} // verus!

//! The arithmetic of the processor, on plain bytes.
//!
//! Each operation is stated over the integers and computed on machine words.
use vstd::prelude::*;
use super::structs::Instruction;

verus! {

/// The byte read as a two's complement number.
pub open spec fn as_signed(b: u8) -> int {
    if b < 128 {
        b as int
    } else {
        b - 256
    }
}

/// What an addition or subtraction leaves: the byte for the accumulator, and
/// the carry and overflow flags.
#[derive(Debug, Clone, Copy, PartialEq, Eq, Structural)]
pub struct Sum {
    pub value: u8,
    pub carry: bool,
    pub overflow: bool,
}

/// `a + m + carry`: the sum modulo 256, carry where the unsigned sum passes
/// 255, overflow where the signed sum leaves `-128..=127`.
pub open spec fn adc_spec(a: u8, m: u8, carry: bool) -> Sum {
    let c: int = if carry { 1 } else { 0 };
    let signed = as_signed(a) + as_signed(m) + c;
    Sum {
        value: ((a + m + c) % 256) as u8,
        carry: a + m + c > 255,
        overflow: signed < -128 || signed > 127,
    }
}

/// `a - m - borrow`, where the borrow is the carry flag inverted: the
/// difference modulo 256, carry where no borrow was needed, overflow where
/// the signed difference leaves `-128..=127`.
pub open spec fn sbc_spec(a: u8, m: u8, carry: bool) -> Sum {
    let borrow: int = if carry { 0 } else { 1 };
    let signed = as_signed(a) - as_signed(m) - borrow;
    Sum {
        value: ((a - m - borrow) % 256) as u8,
        carry: a - m - borrow >= 0,
        overflow: signed < -128 || signed > 127,
    }
}

proof fn lemma_sign_bits(a: u8, m: u8, v: u8)
    by (bit_vector)
    ensures
        ((a ^ v) & (m ^ v) & 0x80 != 0) <==> ((a < 128) == (m < 128) && (a < 128) != (v < 128)),
        !m == 255 - m,
{
}

/// Adds with carry.
pub fn adc(a: u8, m: u8, carry: bool) -> (r: Sum)
    ensures
        r == adc_spec(a, m, carry),
{
    let c: u16 = if carry { 1 } else { 0 };
    let total: u16 = a as u16 + m as u16 + c;
    let value: u8 = (total % 256) as u8;
    proof {
        lemma_sign_bits(a, m, value);
    }
    Sum { value, carry: total > 0xFF, overflow: (a ^ value) & (m ^ value) & 0x80 != 0 }
}

/// Subtracts with borrow, as the processor does it: by adding the operand's
/// complement.
pub fn sbc(a: u8, m: u8, carry: bool) -> (r: Sum)
    ensures
        r == sbc_spec(a, m, carry),
{
    proof {
        lemma_sign_bits(a, m, 0);
    }
    adc(a, !m, carry)
}

/// What a comparison leaves in the flags.
#[derive(Debug, Clone, Copy, PartialEq, Eq, Structural)]
pub struct Comparison {
    pub carry: bool,
    pub zero: bool,
    pub negative: bool,
}

/// Compares a register with an operand: carry where `reg >= m`, zero where
/// they are equal, negative by bit 7 of their difference modulo 256.
pub open spec fn compare_spec(reg: u8, m: u8) -> Comparison {
    Comparison { carry: reg >= m, zero: reg == m, negative: (reg - m) % 256 >= 128 }
}

/// Compares a register with an operand.
pub fn compare(reg: u8, m: u8) -> (r: Comparison)
    ensures
        r == compare_spec(reg, m),
{
    let diff: u8 = reg.wrapping_sub(m);
    Comparison { carry: reg >= m, zero: diff == 0, negative: diff >= 128 }
}

/// What a shift, a rotation, an increment or a decrement of a byte leaves:
/// the new byte, and the bit that left it.
#[derive(Debug, Clone, Copy, PartialEq, Eq, Structural)]
pub struct Shifted {
    pub value: u8,
    pub carry: bool,
}

/// The byte `m` after the read-modify-write instruction `instr`, with
/// `carry` as the carry flag before it.  The carry that comes out is the bit
/// shifted out; INC and DEC hand the old carry on.
pub open spec fn modify_spec(instr: Instruction, m: u8, carry: bool) -> Shifted {
    let c: int = if carry { 1 } else { 0 };
    match instr {
        Instruction::ASL => Shifted { value: ((2 * m) % 256) as u8, carry: m >= 128 },
        Instruction::ROL => Shifted { value: ((2 * m + c) % 256) as u8, carry: m >= 128 },
        Instruction::LSR => Shifted { value: (m / 2) as u8, carry: m % 2 == 1 },
        Instruction::ROR => Shifted { value: (m / 2 + 128 * c) as u8, carry: m % 2 == 1 },
        Instruction::INC => Shifted { value: ((m + 1) % 256) as u8, carry },
        Instruction::DEC => Shifted { value: ((m - 1) % 256) as u8, carry },
        _ => Shifted { value: m, carry },
    }
}

/// Applies a read-modify-write instruction to a byte.
pub fn modify(instr: Instruction, m: u8, carry: bool) -> (r: Shifted)
    ensures
        r == modify_spec(instr, m, carry),
{
    let c: u16 = if carry { 1 } else { 0 };
    let wide: u16 = m as u16;
    match instr {
        Instruction::ASL => Shifted { value: ((2 * wide) % 256) as u8, carry: m >= 128 },
        Instruction::ROL => Shifted { value: ((2 * wide + c) % 256) as u8, carry: m >= 128 },
        Instruction::LSR => Shifted { value: m / 2, carry: m % 2 == 1 },
        Instruction::ROR => Shifted { value: (wide / 2 + 128 * c) as u8, carry: m % 2 == 1 },
        Instruction::INC => Shifted { value: m.wrapping_add(1), carry },
        Instruction::DEC => Shifted { value: m.wrapping_sub(1), carry },
        _ => Shifted { value: m, carry },
    }
}

/// Shifting and rotating are the bit operations of their names.
pub proof fn modify_is_bitwise(m: u8, carry: bool)
    ensures
        modify_spec(Instruction::ASL, m, carry).value == m << 1u8,
        modify_spec(Instruction::LSR, m, carry).value == m >> 1u8,
        modify_spec(Instruction::ROL, m, carry).value == (m << 1u8) | (if carry { 1u8 } else { 0u8 }),
        modify_spec(Instruction::ROR, m, carry).value == (m >> 1u8) | (if carry { 0x80u8 } else { 0u8 }),
{
    assert({
        &&& ((2 * m) % 256) as u8 == m << 1u8
        &&& ((2 * m + 1) % 256) as u8 == (m << 1u8) | 1u8
        &&& (m << 1u8) | 0u8 == m << 1u8
        &&& (m / 2) as u8 == m >> 1u8
        &&& (m / 2 + 128) as u8 == (m >> 1u8) | 0x80u8
        &&& (m >> 1u8) | 0u8 == m >> 1u8
    }) by (bit_vector);
}

} // verus!

//! The trace line: one line of text for each instruction, in the layout of
//! the reference logs that processor emulators are compared with.
//!
//! ```text
//! PCCC  BB BB BB  MNE OPERAND                     A:AA X:XX Y:YY P:PP SP:SS PPU:ccc,lll CYC:n
//! ```
use vstd::prelude::*;
use vstd::string::*;
use super::cpu::Cpu6502;
use super::structs::{AddressingMode, CpuState, Instruction};
use super::utils::{bytes_to_addr, bytes_to_addr_spec};
use crate::devices::bus::Motherboard;

verus! {

/// The byte that the trace shows where a byte cannot be peeked.
pub const UNREADABLE: u8 = 0xA5;

/// Width of the column of instruction bytes.
pub const BYTES_WIDTH: usize = 8;

/// Width of the column of the disassembly.
pub const DISASSEMBLY_WIDTH: usize = 32;

/// The text of a hexadecimal digit.
pub open spec fn hex_digit_spec(n: u8) -> Seq<char> {
    match n {
        0 => "0"@,
        1 => "1"@,
        2 => "2"@,
        3 => "3"@,
        4 => "4"@,
        5 => "5"@,
        6 => "6"@,
        7 => "7"@,
        8 => "8"@,
        9 => "9"@,
        10 => "A"@,
        11 => "B"@,
        12 => "C"@,
        13 => "D"@,
        14 => "E"@,
        _ => "F"@,
    }
}

/// The text of a digit, hexadecimal or decimal.
pub fn hex_digit(n: u8) -> (s: &'static str)
    ensures
        s@ == hex_digit_spec(n),
{
    match n {
        0 => "0",
        1 => "1",
        2 => "2",
        3 => "3",
        4 => "4",
        5 => "5",
        6 => "6",
        7 => "7",
        8 => "8",
        9 => "9",
        10 => "A",
        11 => "B",
        12 => "C",
        13 => "D",
        14 => "E",
        _ => "F",
    }
}

/// A byte as two hexadecimal digits.
pub open spec fn hex2(b: u8) -> Seq<char> {
    hex_digit_spec(b / 16) + hex_digit_spec(b % 16)
}

/// An address as four hexadecimal digits.
pub open spec fn hex4(w: u16) -> Seq<char> {
    hex2((w / 256) as u8) + hex2((w % 256) as u8)
}

/// A number in decimal, without leading zeros.
pub open spec fn decimal(n: nat) -> Seq<char>
    decreases n,
{
    if n < 10 {
        hex_digit_spec(n as u8)
    } else {
        decimal(n / 10) + hex_digit_spec((n % 10) as u8)
    }
}

/// `count` spaces.
pub open spec fn spaces(count: nat) -> Seq<char>
    decreases count,
{
    if count == 0 {
        Seq::<char>::empty()
    } else {
        spaces((count - 1) as nat) + " "@
    }
}

/// A text filled with spaces on the right up to `width` characters; a
/// longer text stays as it is.
pub open spec fn padded(text: Seq<char>, width: nat) -> Seq<char> {
    text + spaces((if text.len() < width { width - text.len() } else { 0 }) as nat)
}

/// The three letters of a mnemonic.
pub open spec fn mnemonic_spec(instr: Instruction) -> Seq<char> {
    match instr {
        Instruction::ADC => "ADC"@,
        Instruction::AND => "AND"@,
        Instruction::ASL => "ASL"@,
        Instruction::BIT => "BIT"@,
        Instruction::BPL => "BPL"@,
        Instruction::BMI => "BMI"@,
        Instruction::BVC => "BVC"@,
        Instruction::BVS => "BVS"@,
        Instruction::BCC => "BCC"@,
        Instruction::BCS => "BCS"@,
        Instruction::BNE => "BNE"@,
        Instruction::BEQ => "BEQ"@,
        Instruction::BRK => "BRK"@,
        Instruction::CMP => "CMP"@,
        Instruction::CPX => "CPX"@,
        Instruction::CPY => "CPY"@,
        Instruction::DEC => "DEC"@,
        Instruction::EOR => "EOR"@,
        Instruction::CLC => "CLC"@,
        Instruction::SEC => "SEC"@,
        Instruction::CLI => "CLI"@,
        Instruction::SEI => "SEI"@,
        Instruction::CLV => "CLV"@,
        Instruction::CLD => "CLD"@,
        Instruction::SED => "SED"@,
        Instruction::INC => "INC"@,
        Instruction::JMP => "JMP"@,
        Instruction::JSR => "JSR"@,
        Instruction::LDA => "LDA"@,
        Instruction::LDX => "LDX"@,
        Instruction::LDY => "LDY"@,
        Instruction::LSR => "LSR"@,
        Instruction::NOP => "NOP"@,
        Instruction::ORA => "ORA"@,
        Instruction::TAX => "TAX"@,
        Instruction::TXA => "TXA"@,
        Instruction::DEX => "DEX"@,
        Instruction::INX => "INX"@,
        Instruction::TAY => "TAY"@,
        Instruction::TYA => "TYA"@,
        Instruction::DEY => "DEY"@,
        Instruction::INY => "INY"@,
        Instruction::ROL => "ROL"@,
        Instruction::ROR => "ROR"@,
        Instruction::RTI => "RTI"@,
        Instruction::RTS => "RTS"@,
        Instruction::SBC => "SBC"@,
        Instruction::STA => "STA"@,
        Instruction::STX => "STX"@,
        Instruction::STY => "STY"@,
        Instruction::TXS => "TXS"@,
        Instruction::TSX => "TSX"@,
        Instruction::PHA => "PHA"@,
        Instruction::PLA => "PLA"@,
        Instruction::PHP => "PHP"@,
        Instruction::PLP => "PLP"@,
    }
}

/// The name of a mnemonic.
pub fn mnemonic(instr: Instruction) -> (s: &'static str)
    ensures
        s@ == mnemonic_spec(instr),
{
    match instr {
        Instruction::ADC => "ADC",
        Instruction::AND => "AND",
        Instruction::ASL => "ASL",
        Instruction::BIT => "BIT",
        Instruction::BPL => "BPL",
        Instruction::BMI => "BMI",
        Instruction::BVC => "BVC",
        Instruction::BVS => "BVS",
        Instruction::BCC => "BCC",
        Instruction::BCS => "BCS",
        Instruction::BNE => "BNE",
        Instruction::BEQ => "BEQ",
        Instruction::BRK => "BRK",
        Instruction::CMP => "CMP",
        Instruction::CPX => "CPX",
        Instruction::CPY => "CPY",
        Instruction::DEC => "DEC",
        Instruction::EOR => "EOR",
        Instruction::CLC => "CLC",
        Instruction::SEC => "SEC",
        Instruction::CLI => "CLI",
        Instruction::SEI => "SEI",
        Instruction::CLV => "CLV",
        Instruction::CLD => "CLD",
        Instruction::SED => "SED",
        Instruction::INC => "INC",
        Instruction::JMP => "JMP",
        Instruction::JSR => "JSR",
        Instruction::LDA => "LDA",
        Instruction::LDX => "LDX",
        Instruction::LDY => "LDY",
        Instruction::LSR => "LSR",
        Instruction::NOP => "NOP",
        Instruction::ORA => "ORA",
        Instruction::TAX => "TAX",
        Instruction::TXA => "TXA",
        Instruction::DEX => "DEX",
        Instruction::INX => "INX",
        Instruction::TAY => "TAY",
        Instruction::TYA => "TYA",
        Instruction::DEY => "DEY",
        Instruction::INY => "INY",
        Instruction::ROL => "ROL",
        Instruction::ROR => "ROR",
        Instruction::RTI => "RTI",
        Instruction::RTS => "RTS",
        Instruction::SBC => "SBC",
        Instruction::STA => "STA",
        Instruction::STX => "STX",
        Instruction::STY => "STY",
        Instruction::TXS => "TXS",
        Instruction::TSX => "TSX",
        Instruction::PHA => "PHA",
        Instruction::PLA => "PLA",
        Instruction::PHP => "PHP",
        Instruction::PLP => "PLP",
    }
}

/// What the trace shows of the machine around the processor: bytes of
/// memory, read without disturbing it, and the place of the picture
/// processor.
#[derive(Debug, Clone, Copy, PartialEq, Eq, Structural)]
pub struct Peeked {
    /// The byte at the effective address
    pub data: u8,
    /// The byte at the zero page address that the operand names
    pub pointer_low: u8,
    /// The byte behind it, within the zero page
    pub pointer_high: u8,
    /// The dot that the picture processor is at
    pub column: u16,
    /// The scanline that the picture processor is at
    pub scanline: u16,
}

/// What the trace of `state` shows of the memory behind `bus`, with the
/// picture processor at dot `column` of `scanline`.  A byte that cannot be
/// peeked shows as `$A5`.
pub open spec fn peeked_spec<B: Motherboard>(
    state: CpuState,
    bus: B,
    column: u16,
    scanline: u16,
) -> Peeked {
    let op1 = (state.instruction >> 8) as u8;
    Peeked {
        data: unwrap_or_unreadable(bus.peek_spec(state.addr)),
        pointer_low: unwrap_or_unreadable(bus.peek_spec(op1 as u16)),
        pointer_high: unwrap_or_unreadable(bus.peek_spec(op1.wrapping_add(1) as u16)),
        column,
        scanline,
    }
}

/// The byte, or `$A5` where there is none.
pub open spec fn unwrap_or_unreadable(byte: Option<u8>) -> u8 {
    match byte {
        Some(b) => b,
        None => UNREADABLE,
    }
}

/// The column of instruction bytes: as many bytes as the instruction has,
/// two digits each, with a space between them.
pub open spec fn bytes_column(state: CpuState) -> Seq<char> {
    let b0 = state.instruction as u8;
    let b1 = (state.instruction >> 8) as u8;
    let b2 = (state.instruction >> 16) as u8;
    match state.addr_mode {
        AddressingMode::Abs
        | AddressingMode::AbsX
        | AddressingMode::AbsY
        | AddressingMode::AbsInd => hex2(b0) + " "@ + hex2(b1) + " "@ + hex2(b2),
        AddressingMode::Accum | AddressingMode::Impl => hex2(b0),
        _ => hex2(b0) + " "@ + hex2(b1),
    }
}

/// A text with the operand of the instruction appended as the disassembly
/// shows it, by addressing mode: the operand, the address that it resolves
/// to, and the byte found there.
pub open spec fn with_operand(text: Seq<char>, state: CpuState, peeked: Peeked) -> Seq<char> {
    let b1 = (state.instruction >> 8) as u8;
    let b2 = (state.instruction >> 16) as u8;
    let operand = bytes_to_addr_spec(b1, b2);
    let addr = state.addr;
    let data = peeked.data;
    match state.addr_mode {
        AddressingMode::Abs => if state.instr == Instruction::JMP || state.instr
            == Instruction::JSR {
            text + " $"@ + hex4(addr)
        } else {
            text + " $"@ + hex4(addr) + " = "@ + hex2(data)
        },
        AddressingMode::AbsX => text + " $"@ + hex4(operand) + ",X @ "@ + hex4(addr) + " = "@
            + hex2(data),
        AddressingMode::AbsY => text + " $"@ + hex4(operand) + ",Y @ "@ + hex4(addr) + " = "@
            + hex2(data),
        AddressingMode::AbsInd => text + " ($"@ + hex4(operand) + ") = "@ + hex4(addr),
        AddressingMode::Imm => text + " #$"@ + hex2(b1),
        AddressingMode::ZP => text + " $"@ + hex2(addr as u8) + " = "@ + hex2(data),
        AddressingMode::ZPX => text + " $"@ + hex2(b1) + ",X @ "@ + hex2(addr as u8) + " = "@
            + hex2(data),
        AddressingMode::ZPY => text + " $"@ + hex2(b1) + ",Y @ "@ + hex2(addr as u8) + " = "@
            + hex2(data),
        AddressingMode::Impl => text,
        AddressingMode::Rel => text + " $"@ + hex4(addr),
        AddressingMode::Accum => text + " A"@,
        AddressingMode::IndX => text + " ($"@ + hex2(b1) + ",X) @ "@ + hex2(
            state.x.wrapping_add(b1),
        ) + " = "@ + hex4(addr) + " = "@ + hex2(data),
        AddressingMode::IndY => text + " ($"@ + hex2(b1) + "),Y = "@ + hex4(
            bytes_to_addr_spec(peeked.pointer_low, peeked.pointer_high),
        ) + " @ "@ + hex4(addr) + " = "@ + hex2(data),
    }
}

/// The disassembly of the instruction: its mnemonic and its operand.
pub open spec fn disassembly(state: CpuState, peeked: Peeked) -> Seq<char> {
    with_operand(mnemonic_spec(state.instr), state, peeked)
}

/// A text filled with spaces on the left up to `width` characters; a longer
/// text stays as it is.
pub open spec fn right_aligned(text: Seq<char>, width: nat) -> Seq<char> {
    spaces((if text.len() < width { width - text.len() } else { 0 }) as nat) + text
}

/// The column of registers: A, X, Y, P and S in hexadecimal, the dot and
/// the scanline of the picture processor in decimal, three characters wide
/// each, and the cycles run so far in decimal.
pub open spec fn registers_column(state: CpuState, peeked: Peeked) -> Seq<char> {
    "A:"@ + hex2(state.acc) + " X:"@ + hex2(state.x) + " Y:"@ + hex2(state.y) + " P:"@ + hex2(
        state.status.bits,
    ) + " SP:"@ + hex2(state.stack) + " PPU:"@ + right_aligned(decimal(peeked.column as nat), 3)
        + ","@ + right_aligned(decimal(peeked.scanline as nat), 3) + " CYC:"@ + decimal(
        state.tot_cycles as nat,
    )
}

/// The trace line of an instruction that was fetched, decoded and resolved,
/// and not yet executed.
pub open spec fn trace_line(state: CpuState, peeked: Peeked) -> Seq<char> {
    hex4(state.pc) + "  "@ + padded(bytes_column(state), BYTES_WIDTH as nat) + "  "@ + padded(
        disassembly(state, peeked),
        DISASSEMBLY_WIDTH as nat,
    ) + registers_column(state, peeked)
}

/// Appends a byte as two hexadecimal digits.
fn push_hex2(s: &mut String, b: u8)
    ensures
        final(s)@ == old(s)@ + hex2(b),
{
    s.append(hex_digit(b / 16));
    s.append(hex_digit(b % 16));
    assert(s@ =~= old(s)@ + hex2(b));
}

/// Appends an address as four hexadecimal digits.
fn push_hex4(s: &mut String, w: u16)
    ensures
        final(s)@ == old(s)@ + hex4(w),
{
    push_hex2(s, (w / 256) as u8);
    push_hex2(s, (w % 256) as u8);
    assert(s@ =~= old(s)@ + hex4(w));
}

/// Appends a number in decimal.
fn push_decimal(s: &mut String, n: u32)
    ensures
        final(s)@ == old(s)@ + decimal(n as nat),
    decreases n,
{
    if n >= 10 {
        push_decimal(s, n / 10);
    }
    s.append(hex_digit((n % 10) as u8));
    assert(s@ =~= old(s)@ + decimal(n as nat));
}

/// Fills a text with spaces up to `width` characters.
fn pad(s: String, width: usize) -> (r: String)
    ensures
        r@ == padded(s@, width as nat),
{
    let len: usize = s.as_str().unicode_len();
    let mut r = s;
    let mut count: usize = 0;
    let target: usize = if len < width { width - len } else { 0 };
    assert(r@ =~= s@ + spaces(0));
    while count < target
        invariant
            count <= target,
            r@ == s@ + spaces(count as nat),
        decreases target - count,
    {
        r.append(" ");
        count += 1;
        assert(r@ =~= s@ + spaces(count as nat));
    }
    r
}

/// Appends a number in decimal, with spaces before it up to three
/// characters.
fn push_aligned(s: &mut String, n: u16)
    ensures
        final(s)@ == old(s)@ + right_aligned(decimal(n as nat), 3),
{
    let mut digits = String::new();
    push_decimal(&mut digits, n as u32);
    assert(digits@ =~= decimal(n as nat));
    let len: usize = digits.as_str().unicode_len();
    let target: usize = if len < 3 { 3 - len } else { 0 };
    let mut count: usize = 0;
    assert(s@ =~= old(s)@ + spaces(0));
    while count < target
        invariant
            count <= target,
            s@ == old(s)@ + spaces(count as nat),
        decreases target - count,
    {
        s.append(" ");
        count += 1;
        assert(s@ =~= old(s)@ + spaces(count as nat));
    }
    s.append(digits.as_str());
    assert(s@ =~= old(s)@ + right_aligned(decimal(n as nat), 3));
}

/// Reads what the trace shows from memory.
fn peek_for_trace<B: Motherboard>(state: &CpuState, bus: &B, column: u16, scanline: u16) -> (p:
    Peeked)
    ensures
        p == peeked_spec(*state, *bus, column, scanline),
{
    let op1: u8 = (state.instruction >> 8) as u8;
    let data: u8 = match bus.peek(state.addr) {
        Some(b) => b,
        None => UNREADABLE,
    };
    let pointer_low: u8 = match bus.peek(op1 as u16) {
        Some(b) => b,
        None => UNREADABLE,
    };
    let pointer_high: u8 = match bus.peek(op1.wrapping_add(1) as u16) {
        Some(b) => b,
        None => UNREADABLE,
    };
    Peeked { data, pointer_low, pointer_high, column, scanline }
}

/// Writes the column of instruction bytes.
fn format_bytes(state: &CpuState) -> (s: String)
    ensures
        s@ == bytes_column(*state),
{
    let b0: u8 = state.instruction as u8;
    let b1: u8 = (state.instruction >> 8) as u8;
    let b2: u8 = (state.instruction >> 16) as u8;
    let mut s = String::new();
    push_hex2(&mut s, b0);
    match state.addr_mode {
        AddressingMode::Abs
        | AddressingMode::AbsX
        | AddressingMode::AbsY
        | AddressingMode::AbsInd => {
            s.append(" ");
            push_hex2(&mut s, b1);
            s.append(" ");
            push_hex2(&mut s, b2);
        },
        AddressingMode::Accum | AddressingMode::Impl => {},
        _ => {
            s.append(" ");
            push_hex2(&mut s, b1);
        },
    }
    assert(s@ =~= bytes_column(*state));
    s
}

/// Appends " = " and a byte.
fn push_value(s: &mut String, data: u8)
    ensures
        final(s)@ == old(s)@ + " = "@ + hex2(data),
{
    s.append(" = ");
    push_hex2(s, data);
}

/// Writes the disassembly: the mnemonic and its operand.
fn format_disassembly(state: &CpuState, peeked: Peeked) -> (s: String)
    ensures
        s@ == disassembly(*state, peeked),
{
    let b1: u8 = (state.instruction >> 8) as u8;
    let b2: u8 = (state.instruction >> 16) as u8;
    let operand: u16 = bytes_to_addr(b1, b2);
    let addr: u16 = state.addr;
    let data: u8 = peeked.data;
    let mut s = String::new();
    s.append(mnemonic(state.instr));
    assert(s@ =~= mnemonic_spec(state.instr));
    match state.addr_mode {
        AddressingMode::Abs => {
            s.append(" $");
            push_hex4(&mut s, addr);
            if !(state.instr == Instruction::JMP || state.instr == Instruction::JSR) {
                push_value(&mut s, data);
            }
        },
        AddressingMode::AbsX => {
            s.append(" $");
            push_hex4(&mut s, operand);
            s.append(",X @ ");
            push_hex4(&mut s, addr);
            push_value(&mut s, data);
        },
        AddressingMode::AbsY => {
            s.append(" $");
            push_hex4(&mut s, operand);
            s.append(",Y @ ");
            push_hex4(&mut s, addr);
            push_value(&mut s, data);
        },
        AddressingMode::AbsInd => {
            s.append(" ($");
            push_hex4(&mut s, operand);
            s.append(") = ");
            push_hex4(&mut s, addr);
        },
        AddressingMode::Imm => {
            s.append(" #$");
            push_hex2(&mut s, b1);
        },
        AddressingMode::ZP => {
            s.append(" $");
            push_hex2(&mut s, addr as u8);
            push_value(&mut s, data);
        },
        AddressingMode::ZPX => {
            s.append(" $");
            push_hex2(&mut s, b1);
            s.append(",X @ ");
            push_hex2(&mut s, addr as u8);
            push_value(&mut s, data);
        },
        AddressingMode::ZPY => {
            s.append(" $");
            push_hex2(&mut s, b1);
            s.append(",Y @ ");
            push_hex2(&mut s, addr as u8);
            push_value(&mut s, data);
        },
        AddressingMode::Impl => {},
        AddressingMode::Rel => {
            s.append(" $");
            push_hex4(&mut s, addr);
        },
        AddressingMode::Accum => {
            s.append(" A");
        },
        AddressingMode::IndX => {
            s.append(" ($");
            push_hex2(&mut s, b1);
            s.append(",X) @ ");
            push_hex2(&mut s, state.x.wrapping_add(b1));
            s.append(" = ");
            push_hex4(&mut s, addr);
            push_value(&mut s, data);
        },
        AddressingMode::IndY => {
            s.append(" ($");
            push_hex2(&mut s, b1);
            s.append("),Y = ");
            push_hex4(&mut s, bytes_to_addr(peeked.pointer_low, peeked.pointer_high));
            s.append(" @ ");
            push_hex4(&mut s, addr);
            push_value(&mut s, data);
        },
    }
    s
}

/// Writes the column of registers.
fn format_registers(state: &CpuState, peeked: Peeked) -> (s: String)
    ensures
        s@ == registers_column(*state, peeked),
{
    let mut s = String::new();
    s.append("A:");
    push_hex2(&mut s, state.acc);
    s.append(" X:");
    push_hex2(&mut s, state.x);
    s.append(" Y:");
    push_hex2(&mut s, state.y);
    s.append(" P:");
    push_hex2(&mut s, state.status.bits());
    s.append(" SP:");
    push_hex2(&mut s, state.stack);
    s.append(" PPU:");
    push_aligned(&mut s, peeked.column);
    s.append(",");
    push_aligned(&mut s, peeked.scanline);
    s.append(" CYC:");
    push_decimal(&mut s, state.tot_cycles);
    assert(s@ =~= registers_column(*state, peeked));
    s
}

/// Writes the trace line of an instruction from what was peeked for it.
pub fn format_trace(state: &CpuState, peeked: Peeked) -> (line: String)
    ensures
        line@ == trace_line(*state, peeked),
{
    let bytes = pad(format_bytes(state), BYTES_WIDTH);
    let disassembly = pad(format_disassembly(state, peeked), DISASSEMBLY_WIDTH);
    let registers = format_registers(state, peeked);
    let mut line = String::new();
    push_hex4(&mut line, state.pc);
    line.append("  ");
    line.append(bytes.as_str());
    line.append("  ");
    line.append(disassembly.as_str());
    line.append(registers.as_str());
    assert(line@ =~= trace_line(*state, peeked));
    line
}

/// Writes the trace line of the instruction that the processor has fetched,
/// decoded and resolved, with the picture processor at dot `column` of
/// `scanline`.  Memory is peeked, not read: the line shows `A5` for a byte
/// that cannot be had without side effects.
pub fn print_debug_at<B: Motherboard>(cpu: &Cpu6502, bus: &B, column: u16, scanline: u16) -> (line:
    String)
    ensures
        line@ == trace_line(cpu.state, peeked_spec(cpu.state, *bus, column, scanline)),
{
    let peeked = peek_for_trace(&cpu.state, bus, column, scanline);
    format_trace(&cpu.state, peeked)
}

/// Writes the trace line of the instruction that the processor has fetched,
/// decoded and resolved, for a processor on a bus without a picture
/// processor: its place shows as zero.
pub fn print_debug<B: Motherboard>(cpu: &Cpu6502, bus: &B) -> (line: String)
    ensures
        line@ == trace_line(cpu.state, peeked_spec(cpu.state, *bus, 0, 0)),
{
    print_debug_at(cpu, bus, 0, 0)
}

} // verus!

//! Registers, flags, addressing modes and mnemonics of the processor.
use vstd::prelude::*;

verus! {

/// The processor status register P.
#[derive(Debug, Clone, Copy, PartialEq, Eq, Structural)]
pub struct Status {
    pub bits: u8,
}

impl Status {
    pub const CARRY: u8 = 0x01;

    pub const ZERO: u8 = 0x02;

    pub const IRQ_DISABLE: u8 = 0x04;

    pub const DECIMAL: u8 = 0x08;

    pub const BREAK: u8 = 0x10;

    pub const UNUSED: u8 = 0x20;

    pub const OVERFLOW: u8 = 0x40;

    pub const NEGATIVE: u8 = 0x80;

    /// The register holding exactly `bits`; every bit of P is a flag.
    pub fn from_bits_truncate(bits: u8) -> (r: Status)
        ensures
            r.bits == bits,
    {
        Status { bits }
    }

    /// The register as a byte.
    pub fn bits(&self) -> (r: u8)
        ensures
            r == self.bits,
    {
        self.bits
    }

    /// Whether every flag of `flag` is set.
    pub open spec fn contains_spec(&self, flag: u8) -> bool {
        self.bits & flag == flag
    }

    /// Whether every flag of `flag` is set.
    #[verifier::when_used_as_spec(contains_spec)]
    pub fn contains(&self, flag: u8) -> (r: bool)
        ensures
            r == self.contains_spec(flag),
    {
        self.bits & flag == flag
    }

    /// The register with the flags of `flag` set.
    pub open spec fn with(self, flag: u8) -> Status {
        Status { bits: self.bits | flag }
    }

    /// The register with the flags of `flag` cleared.
    pub open spec fn without(self, flag: u8) -> Status {
        Status { bits: self.bits & !flag }
    }

    /// The register with the flags of `flag` set or cleared as `value` says.
    pub open spec fn assign(self, flag: u8, value: bool) -> Status {
        if value {
            self.with(flag)
        } else {
            self.without(flag)
        }
    }

    /// Sets the flags of `flag`.
    pub fn insert(&mut self, flag: u8)
        ensures
            *final(self) == old(self).with(flag),
    {
        self.bits = self.bits | flag;
    }

    /// Clears the flags of `flag`.
    pub fn remove(&mut self, flag: u8)
        ensures
            *final(self) == old(self).without(flag),
    {
        self.bits = self.bits & !flag;
    }

    /// Sets the flags of `flag` if `value` holds, and clears them if not.
    pub fn set(&mut self, flag: u8, value: bool)
        ensures
            *final(self) == old(self).assign(flag, value),
    {
        if value {
            self.insert(flag);
        } else {
            self.remove(flag);
        }
    }
}

/// How an instruction finds its operand.
#[derive(Debug, Clone, Copy, PartialEq, Eq, Structural)]
pub enum AddressingMode {
    /// Zero page
    ZP,
    /// Zero page indexed by X
    ZPX,
    /// Zero page indexed by Y
    ZPY,
    /// Absolute indexed by X
    AbsX,
    /// Absolute indexed by Y
    AbsY,
    /// Indexed indirect, `(d,X)`
    IndX,
    /// Indirect indexed, `(d),Y`
    IndY,
    /// No operand
    Impl,
    /// The accumulator is the operand
    Accum,
    /// The operand is the byte after the opcode
    Imm,
    /// A signed offset from the program counter
    Rel,
    /// Absolute indirect, used by JMP alone
    AbsInd,
    /// A 16-bit address follows the opcode
    Abs,
}

/// The mnemonic of an instruction.
#[derive(Debug, Clone, Copy, PartialEq, Eq, Structural)]
pub enum Instruction {
    /// Add with carry
    ADC,
    /// Bitwise and with the accumulator
    AND,
    /// Arithmetic shift left
    ASL,
    /// Test bits
    BIT,
    /// Branch on plus
    BPL,
    /// Branch on minus
    BMI,
    /// Branch on overflow clear
    BVC,
    /// Branch on overflow set
    BVS,
    /// Branch on carry clear
    BCC,
    /// Branch on carry set
    BCS,
    /// Branch on not equal
    BNE,
    /// Branch on equal
    BEQ,
    /// Software interrupt
    BRK,
    /// Compare with the accumulator
    CMP,
    /// Compare with X
    CPX,
    /// Compare with Y
    CPY,
    /// Decrement memory
    DEC,
    /// Bitwise exclusive or with the accumulator
    EOR,
    /// Clear carry
    CLC,
    /// Set carry
    SEC,
    /// Clear interrupt mask
    CLI,
    /// Set interrupt mask
    SEI,
    /// Clear overflow
    CLV,
    /// Clear decimal
    CLD,
    /// Set decimal
    SED,
    /// Increment memory
    INC,
    /// Jump
    JMP,
    /// Jump to subroutine
    JSR,
    /// Load the accumulator
    LDA,
    /// Load X
    LDX,
    /// Load Y
    LDY,
    /// Logical shift right
    LSR,
    /// No operation
    NOP,
    /// Bitwise or with the accumulator
    ORA,
    /// Transfer A to X
    TAX,
    /// Transfer X to A
    TXA,
    /// Decrement X
    DEX,
    /// Increment X
    INX,
    /// Transfer A to Y
    TAY,
    /// Transfer Y to A
    TYA,
    /// Decrement Y
    DEY,
    /// Increment Y
    INY,
    /// Rotate left through carry
    ROL,
    /// Rotate right through carry
    ROR,
    /// Return from interrupt
    RTI,
    /// Return from subroutine
    RTS,
    /// Subtract with carry
    SBC,
    /// Store the accumulator
    STA,
    /// Store X
    STX,
    /// Store Y
    STY,
    /// Transfer X to the stack pointer
    TXS,
    /// Transfer the stack pointer to X
    TSX,
    /// Push the accumulator
    PHA,
    /// Pull the accumulator
    PLA,
    /// Push the status register
    PHP,
    /// Pull the status register
    PLP,
}

/// The registers of the processor and what it last fetched and decoded.
#[derive(Debug, Clone, Copy, PartialEq, Eq, Structural)]
pub struct CpuState {
    /// The accumulator A
    pub acc: u8,
    /// The index register X
    pub x: u8,
    /// The index register Y
    pub y: u8,
    /// The stack pointer S, an index into page 1 (`$0100..=$01FF`)
    pub stack: u8,
    /// The program counter
    pub pc: u16,
    /// The last fetched instruction word: opcode in the low byte, then the
    /// two bytes that follow it
    pub instruction: u32,
    /// The status register P
    pub status: Status,
    /// Cycles run since power-on, modulo 2^32
    pub tot_cycles: u32,
    /// The effective address of the current instruction
    pub addr: u16,
    /// The addressing mode of the current instruction
    pub addr_mode: AddressingMode,
    /// The mnemonic of the current instruction
    pub instr: Instruction,
}

impl CpuState {
    /// The state of the registers at power-on.
    pub open spec fn power_on() -> CpuState {
        CpuState {
            acc: 0,
            x: 0,
            y: 0,
            stack: 0xFD,
            pc: 0,
            instruction: 0xEA,
            status: Status { bits: 0x24 },
            tot_cycles: 7,
            addr: 0,
            addr_mode: AddressingMode::Impl,
            instr: Instruction::NOP,
        }
    }

    /// The registers at power-on: A, X and Y clear, S at `$FD`, P holding
    /// the interrupt mask and the unused bit, seven cycles on the clock.
    pub fn new() -> (s: CpuState)
        ensures
            s == CpuState::power_on(),
    {
        CpuState {
            acc: 0,
            x: 0,
            y: 0,
            stack: 0xFD,
            pc: 0,
            instruction: 0xEA,
            status: Status::from_bits_truncate(0x24),
            tot_cycles: 7,
            addr: 0,
            addr_mode: AddressingMode::Impl,
            instr: Instruction::NOP,
        }
    }
}

} // verus!

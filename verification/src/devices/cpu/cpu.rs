//! The interpreter of the 2A03: fetch, decode, address resolution, execution,
//! interrupts and cycle counting.
//!
//! A step of the processor is a function of the processor and of the owner
//! of its bus.  The functions whose names end in `_spec` are that function,
//! piece by piece; the executable methods are proved to compute them.
use vstd::prelude::*;
use super::alu::{adc, adc_spec, compare, compare_spec, modify, modify_spec, sbc, sbc_spec};
use super::structs::{AddressingMode, CpuState, Instruction, Status};
use super::trace::{peeked_spec, print_debug_at, trace_line};
use super::utils::{
    addressing_mode_of,
    bytes_to_addr,
    bytes_to_addr_spec,
    decode_instruction,
    instruction_length,
    mnemonic_of,
};
use crate::devices::bus::Motherboard;

verus! {

/// Address of the NMI vector.
pub const NMI_VECTOR: u16 = 0xFFFA;

/// Address of the reset vector.
pub const RESET_VECTOR: u16 = 0xFFFC;

/// Address of the vector that IRQ and BRK share.
pub const IRQ_VECTOR: u16 = 0xFFFE;

/// Cycles that servicing an interrupt takes.
pub const INTERRUPT_CYCLES: u32 = 7;

/// The processor: its registers, the cycles the current instruction still
/// has to wait, and the interrupt it has latched.
#[derive(Debug, Clone, Copy, PartialEq, Eq, Structural)]
pub struct Cpu6502 {
    /// The registers and the decoded instruction
    pub state: CpuState,
    /// Cycles left of the instruction in flight
    pub cycles: u32,
    /// Whether an interrupt waits for the next instruction boundary
    pub interrupt_pending: bool,
    /// Whether the waiting interrupt is an IRQ (`true`) or an NMI (`false`)
    pub maskable_interrupt: bool,
    /// Whether resolving the last address crossed a page
    pub oops_cycle: bool,
}

/// The high byte of an address.
pub open spec fn high_byte(addr: u16) -> u8 {
    (addr >> 8) as u8
}

/// The low byte of an address.
pub open spec fn low_byte(addr: u16) -> u8 {
    addr as u8
}

/// The address of the stack slot that `stack` points at.
pub open spec fn stack_addr(stack: u8) -> u16 {
    (0x0100 + stack) as u16
}

/// The status register with Z and N set from `value`.
pub open spec fn with_zn(status: Status, value: u8) -> Status {
    status.assign(Status::ZERO, value == 0).assign(Status::NEGATIVE, value >= 128)
}

/// Whether two addresses lie on different pages.
pub open spec fn pages_differ(a: u16, b: u16) -> bool {
    a / 256 != b / 256
}

/// Whether the mnemonic is one of the eight branches.
pub open spec fn is_branch(instr: Instruction) -> bool {
    match instr {
        Instruction::BPL
        | Instruction::BMI
        | Instruction::BVC
        | Instruction::BVS
        | Instruction::BCC
        | Instruction::BCS
        | Instruction::BNE
        | Instruction::BEQ => true,
        _ => false,
    }
}

/// Whether a branch is taken under the given flags.  False for anything but
/// a branch.
pub open spec fn branch_taken(instr: Instruction, status: Status) -> bool {
    match instr {
        Instruction::BPL => !status.contains(Status::NEGATIVE),
        Instruction::BMI => status.contains(Status::NEGATIVE),
        Instruction::BVC => !status.contains(Status::OVERFLOW),
        Instruction::BVS => status.contains(Status::OVERFLOW),
        Instruction::BCC => !status.contains(Status::CARRY),
        Instruction::BCS => status.contains(Status::CARRY),
        Instruction::BNE => !status.contains(Status::ZERO),
        Instruction::BEQ => status.contains(Status::ZERO),
        _ => false,
    }
}

/// Whether the mnemonic reads its operand and changes registers only.
pub open spec fn is_read_instruction(instr: Instruction) -> bool {
    match instr {
        Instruction::ADC
        | Instruction::AND
        | Instruction::BIT
        | Instruction::CMP
        | Instruction::CPX
        | Instruction::CPY
        | Instruction::EOR
        | Instruction::LDA
        | Instruction::LDX
        | Instruction::LDY
        | Instruction::ORA
        | Instruction::SBC => true,
        _ => false,
    }
}

/// Whether the mnemonic reads a byte, changes it and writes it back.
pub open spec fn is_modify_instruction(instr: Instruction) -> bool {
    match instr {
        Instruction::ASL
        | Instruction::LSR
        | Instruction::ROL
        | Instruction::ROR
        | Instruction::INC
        | Instruction::DEC => true,
        _ => false,
    }
}

/// Whether the mnemonic stores a register.
pub open spec fn is_store_instruction(instr: Instruction) -> bool {
    match instr {
        Instruction::STA | Instruction::STX | Instruction::STY => true,
        _ => false,
    }
}

/// Cycles that fetching an instruction and resolving its address take, by
/// addressing mode, where nothing crosses a page.
pub open spec fn addressing_cycles(mode: AddressingMode) -> u32 {
    match mode {
        AddressingMode::Impl | AddressingMode::Accum | AddressingMode::Imm | AddressingMode::Rel => 2,
        AddressingMode::ZP => 3,
        AddressingMode::ZPX | AddressingMode::ZPY => 4,
        AddressingMode::Abs | AddressingMode::AbsX | AddressingMode::AbsY => 4,
        AddressingMode::AbsInd | AddressingMode::IndY => 5,
        AddressingMode::IndX => 6,
    }
}

/// Whether an indexed mode pays its page-crossing cycle whether or not a
/// page is crossed, as stores and read-modify-write instructions do.
pub open spec fn index_always_paid(mode: AddressingMode) -> bool {
    match mode {
        AddressingMode::AbsX | AddressingMode::AbsY | AddressingMode::IndY => true,
        _ => false,
    }
}

/// Whether an undocumented opcode reads a byte, changes it and writes it
/// back: the opcodes of the fourth column of the opcode matrix that join a
/// shift, a rotation, an increment or a decrement with an operation on the
/// accumulator.
pub open spec fn undocumented_modify(opcode: u8, mode: AddressingMode) -> bool {
    opcode % 4 == 3 && mode != AddressingMode::Imm && (opcode / 32 <= 3 || opcode / 32 >= 6)
}

/// Whether an undocumented opcode stores to memory.
pub open spec fn undocumented_store(opcode: u8, mode: AddressingMode) -> bool {
    opcode == 0x9C || opcode == 0x9E || (opcode % 4 == 3 && opcode / 32 == 4 && mode
        != AddressingMode::Imm)
}

/// Cycles of an instruction without its branch penalty: the cycles of its
/// addressing mode, the page-crossing cycle where `oops` says that an
/// indexed mode crossed a page, and what the instruction itself adds.
///
/// An undocumented opcode runs as NOP, but is charged the cycles that the
/// processor takes for it: `opcode` tells whether it modifies memory,
/// stores to it, or only reads.
pub open spec fn instruction_cycles(
    instr: Instruction,
    mode: AddressingMode,
    oops: bool,
    opcode: u8,
) -> u32 {
    let addressing = addressing_cycles(mode);
    let crossing: u32 = if oops && index_always_paid(mode) { 1 } else { 0 };
    let fixed: u32 = if index_always_paid(mode) { 1 } else { 0 };
    let undocumented = instr == Instruction::NOP;
    if is_modify_instruction(instr) || (undocumented && undocumented_modify(opcode, mode)) {
        if mode == AddressingMode::Accum {
            2
        } else {
            (addressing + fixed + 2) as u32
        }
    } else if is_store_instruction(instr) || (undocumented && undocumented_store(opcode, mode)) {
        (addressing + fixed) as u32
    } else {
        match instr {
            Instruction::JMP => if mode == AddressingMode::AbsInd { 5 } else { 3 },
            Instruction::JSR | Instruction::RTS | Instruction::RTI => 6,
            Instruction::BRK => 7,
            Instruction::PHA | Instruction::PHP => 3,
            Instruction::PLA | Instruction::PLP => 4,
            _ => (addressing + crossing) as u32,
        }
    }
}

/// Extra cycles of a branch: one where it is taken, and one more where the
/// target lies on another page than the instruction that follows the branch.
/// `state` is the state after the address was resolved: `pc` is past the
/// branch, `addr` is its target.
pub open spec fn branch_penalty(state: CpuState) -> u32 {
    if branch_taken(state.instr, state.status) {
        if pages_differ(state.pc, state.addr) { 2 } else { 1 }
    } else {
        0
    }
}

/// The registers after an instruction that only reads its operand `m`.
pub open spec fn read_instruction_spec(state: CpuState, m: u8) -> CpuState {
    let carry = state.status.contains(Status::CARRY);
    match state.instr {
        Instruction::LDA => CpuState { acc: m, status: with_zn(state.status, m), ..state },
        Instruction::LDX => CpuState { x: m, status: with_zn(state.status, m), ..state },
        Instruction::LDY => CpuState { y: m, status: with_zn(state.status, m), ..state },
        Instruction::AND => CpuState {
            acc: state.acc & m,
            status: with_zn(state.status, state.acc & m),
            ..state
        },
        Instruction::EOR => CpuState {
            acc: state.acc ^ m,
            status: with_zn(state.status, state.acc ^ m),
            ..state
        },
        Instruction::ORA => CpuState {
            acc: state.acc | m,
            status: with_zn(state.status, state.acc | m),
            ..state
        },
        Instruction::ADC => {
            let sum = adc_spec(state.acc, m, carry);
            CpuState {
                acc: sum.value,
                status: with_zn(
                    state.status.assign(Status::CARRY, sum.carry).assign(
                        Status::OVERFLOW,
                        sum.overflow,
                    ),
                    sum.value,
                ),
                ..state
            }
        },
        Instruction::SBC => {
            let sum = sbc_spec(state.acc, m, carry);
            CpuState {
                acc: sum.value,
                status: with_zn(
                    state.status.assign(Status::CARRY, sum.carry).assign(
                        Status::OVERFLOW,
                        sum.overflow,
                    ),
                    sum.value,
                ),
                ..state
            }
        },
        Instruction::CMP => CpuState { status: compared(state.status, state.acc, m), ..state },
        Instruction::CPX => CpuState { status: compared(state.status, state.x, m), ..state },
        Instruction::CPY => CpuState { status: compared(state.status, state.y, m), ..state },
        Instruction::BIT => CpuState {
            status: Status {
                bits: (state.status.assign(Status::ZERO, state.acc & m == 0).bits & 0x3F) | (m
                    & 0xC0),
            },
            ..state
        },
        _ => state,
    }
}

/// The status register after comparing `reg` with `m`.
pub open spec fn compared(status: Status, reg: u8, m: u8) -> Status {
    let c = compare_spec(reg, m);
    status.assign(Status::CARRY, c.carry).assign(Status::ZERO, c.zero).assign(
        Status::NEGATIVE,
        c.negative,
    )
}

/// The registers after an instruction that works on registers and flags
/// alone.
pub open spec fn register_instruction_spec(state: CpuState) -> CpuState {
    match state.instr {
        Instruction::CLC => CpuState { status: state.status.without(Status::CARRY), ..state },
        Instruction::SEC => CpuState { status: state.status.with(Status::CARRY), ..state },
        Instruction::CLI => CpuState { status: state.status.without(Status::IRQ_DISABLE), ..state },
        Instruction::SEI => CpuState { status: state.status.with(Status::IRQ_DISABLE), ..state },
        Instruction::CLV => CpuState { status: state.status.without(Status::OVERFLOW), ..state },
        Instruction::CLD => CpuState { status: state.status.without(Status::DECIMAL), ..state },
        Instruction::SED => CpuState { status: state.status.with(Status::DECIMAL), ..state },
        Instruction::TAX => CpuState {
            x: state.acc,
            status: with_zn(state.status, state.acc),
            ..state
        },
        Instruction::TXA => CpuState { acc: state.x, status: with_zn(state.status, state.x), ..state },
        Instruction::TAY => CpuState {
            y: state.acc,
            status: with_zn(state.status, state.acc),
            ..state
        },
        Instruction::TYA => CpuState { acc: state.y, status: with_zn(state.status, state.y), ..state },
        Instruction::TSX => CpuState {
            x: state.stack,
            status: with_zn(state.status, state.stack),
            ..state
        },
        Instruction::TXS => CpuState { stack: state.x, ..state },
        Instruction::INX => CpuState {
            x: state.x.wrapping_add(1),
            status: with_zn(state.status, state.x.wrapping_add(1)),
            ..state
        },
        Instruction::DEX => CpuState {
            x: state.x.wrapping_sub(1),
            status: with_zn(state.status, state.x.wrapping_sub(1)),
            ..state
        },
        Instruction::INY => CpuState {
            y: state.y.wrapping_add(1),
            status: with_zn(state.status, state.y.wrapping_add(1)),
            ..state
        },
        Instruction::DEY => CpuState {
            y: state.y.wrapping_sub(1),
            status: with_zn(state.status, state.y.wrapping_sub(1)),
            ..state
        },
        Instruction::JMP => CpuState { pc: state.addr, ..state },
        Instruction::BPL
        | Instruction::BMI
        | Instruction::BVC
        | Instruction::BVS
        | Instruction::BCC
        | Instruction::BCS
        | Instruction::BNE
        | Instruction::BEQ => if branch_taken(state.instr, state.status) {
            CpuState { pc: state.addr, ..state }
        } else {
            state
        },
        _ => state,
    }
}

/// The operand of the current instruction and the bus after reading it: the
/// byte after the opcode, the accumulator, or the byte at the effective
/// address.
pub open spec fn operand_spec<B: Motherboard>(state: CpuState, bus: B) -> (u8, B) {
    match state.addr_mode {
        AddressingMode::Imm => ((state.instruction >> 8) as u8, bus),
        AddressingMode::Accum => (state.acc, bus),
        _ => bus.read_spec(state.addr),
    }
}

/// Registers and bus after `data` was pushed: written at the stack pointer,
/// which then moves down, wrapping within page 1.
pub open spec fn push_spec<B: Motherboard>(state: CpuState, bus: B, data: u8) -> (CpuState, B) {
    (
        CpuState { stack: state.stack.wrapping_sub(1), ..state },
        bus.write_spec(stack_addr(state.stack), data),
    )
}

/// The byte pulled, and registers and bus after the pull: the stack pointer
/// moves up, wrapping within page 1, and the byte it then points at is read.
pub open spec fn pop_spec<B: Motherboard>(state: CpuState, bus: B) -> (u8, CpuState, B) {
    let stack = state.stack.wrapping_add(1);
    let (data, bus1) = bus.read_spec(stack_addr(stack));
    (data, CpuState { stack, ..state }, bus1)
}

/// Registers and bus after a read-modify-write instruction.
pub open spec fn modify_instruction_spec<B: Motherboard>(state: CpuState, bus: B) -> (CpuState, B) {
    let (m, bus1) = operand_spec(state, bus);
    let shifted = modify_spec(state.instr, m, state.status.contains(Status::CARRY));
    let status = with_zn(state.status.assign(Status::CARRY, shifted.carry), shifted.value);
    if state.addr_mode == AddressingMode::Accum {
        (CpuState { acc: shifted.value, status, ..state }, bus1)
    } else {
        (CpuState { status, ..state }, bus1.write_spec(state.addr, shifted.value))
    }
}

/// The byte that a store instruction stores.
pub open spec fn stored_register(state: CpuState) -> u8 {
    match state.instr {
        Instruction::STA => state.acc,
        Instruction::STX => state.x,
        _ => state.y,
    }
}

/// Registers and bus after JSR: the address of the last byte of the
/// instruction is pushed, high byte first, and execution goes on at the
/// operand.
pub open spec fn jsr_spec<B: Motherboard>(state: CpuState, bus: B) -> (CpuState, B) {
    let ret = state.pc.wrapping_sub(1);
    let (s1, b1) = push_spec(state, bus, high_byte(ret));
    let (s2, b2) = push_spec(s1, b1, low_byte(ret));
    (CpuState { pc: state.addr, ..s2 }, b2)
}

/// Registers and bus after RTS: the address pulled, low byte first, plus
/// one.
pub open spec fn rts_spec<B: Motherboard>(state: CpuState, bus: B) -> (CpuState, B) {
    let (fst, s1, b1) = pop_spec(state, bus);
    let (snd, s2, b2) = pop_spec(s1, b1);
    (CpuState { pc: bytes_to_addr_spec(fst, snd).wrapping_add(1), ..s2 }, b2)
}

/// Registers and bus after RTI: the flags are pulled, with the unused bit
/// forced on, then the program counter, low byte first.
pub open spec fn rti_spec<B: Motherboard>(state: CpuState, bus: B) -> (CpuState, B) {
    let (flags, s1, b1) = pop_spec(state, bus);
    let (fst, s2, b2) = pop_spec(s1, b1);
    let (snd, s3, b3) = pop_spec(s2, b2);
    (
        CpuState {
            pc: bytes_to_addr_spec(fst, snd),
            status: Status { bits: flags | Status::UNUSED },
            ..s3
        },
        b3,
    )
}

/// Registers and bus after the program counter and the flags were pushed
/// and the program counter was loaded from `vector`: the entry into an
/// interrupt handler.  The flags are pushed with the unused bit set and the
/// break bit as `brk` says; the interrupt mask is set after the push.
pub open spec fn interrupt_entry_spec<B: Motherboard>(
    state: CpuState,
    bus: B,
    vector: u16,
    brk: bool,
) -> (CpuState, B) {
    let (s1, b1) = push_spec(state, bus, high_byte(state.pc));
    let (s2, b2) = push_spec(s1, b1, low_byte(state.pc));
    let pushed = state.status.assign(Status::BREAK, brk).with(Status::UNUSED);
    let (s3, b3) = push_spec(s2, b2, pushed.bits);
    let (fst, b4) = b3.read_spec(vector);
    let (snd, b5) = b4.read_spec(vector.wrapping_add(1));
    (
        CpuState {
            pc: bytes_to_addr_spec(fst, snd),
            status: pushed.with(Status::IRQ_DISABLE),
            ..s3
        },
        b5,
    )
}

/// Registers and bus after PLA.
pub open spec fn pla_spec<B: Motherboard>(state: CpuState, bus: B) -> (CpuState, B) {
    let (data, s1, b1) = pop_spec(state, bus);
    (CpuState { acc: data, status: with_zn(s1.status, data), ..s1 }, b1)
}

/// Registers and bus after PLP: the flags pulled, with the break bit off and
/// the unused bit on.
pub open spec fn plp_spec<B: Motherboard>(state: CpuState, bus: B) -> (CpuState, B) {
    let (data, s1, b1) = pop_spec(state, bus);
    (CpuState { status: Status { bits: (data & 0xEF) | 0x20 }, ..s1 }, b1)
}

/// Registers and bus after the current instruction was executed on its
/// resolved address.
pub open spec fn execute_spec<B: Motherboard>(state: CpuState, bus: B) -> (CpuState, B) {
    if is_read_instruction(state.instr) {
        let (m, bus1) = operand_spec(state, bus);
        (read_instruction_spec(state, m), bus1)
    } else if is_modify_instruction(state.instr) {
        modify_instruction_spec(state, bus)
    } else if is_store_instruction(state.instr) {
        (state, bus.write_spec(state.addr, stored_register(state)))
    } else {
        match state.instr {
            Instruction::JSR => jsr_spec(state, bus),
            Instruction::RTS => rts_spec(state, bus),
            Instruction::RTI => rti_spec(state, bus),
            Instruction::BRK => interrupt_entry_spec(state, bus, IRQ_VECTOR, true),
            Instruction::PHA => push_spec(state, bus, state.acc),
            Instruction::PHP => push_spec(state, bus, state.status.bits | 0x30),
            Instruction::PLA => pla_spec(state, bus),
            Instruction::PLP => plp_spec(state, bus),
            _ => (register_instruction_spec(state), bus),
        }
    }
}

impl Cpu6502 {
    /// The processor at power-on.
    pub open spec fn power_on() -> Cpu6502 {
        Cpu6502 {
            state: CpuState::power_on(),
            cycles: 0,
            interrupt_pending: false,
            maskable_interrupt: false,
            oops_cycle: false,
        }
    }

    /// A processor in its power-on state.  The program counter is zero until
    /// the owner of the bus loads it from the reset vector.
    pub fn new() -> (cpu: Cpu6502)
        ensures
            cpu == Cpu6502::power_on(),
    {
        Cpu6502 {
            state: CpuState::new(),
            cycles: 0,
            interrupt_pending: false,
            maskable_interrupt: false,
            oops_cycle: false,
        }
    }

    /// The processor after one clock cycle, and whether it was idle: a busy
    /// processor moves one cycle from the instruction in flight to the total,
    /// an idle one stays as it is.
    pub open spec fn tick_spec(self) -> (bool, Cpu6502) {
        if self.cycles > 0 {
            (
                false,
                Cpu6502 {
                    state: CpuState {
                        tot_cycles: self.state.tot_cycles.wrapping_add(1),
                        ..self.state
                    },
                    cycles: (self.cycles - 1) as u32,
                    ..self
                },
            )
        } else {
            (true, self)
        }
    }

    /// Runs one clock cycle.  Returns `true` where the instruction in flight
    /// is complete, so that the next one can be executed.
    pub fn tick(&mut self) -> (idle: bool)
        ensures
            (idle, *final(self)) == old(self).tick_spec(),
    {
        if self.cycles > 0 {
            self.state.tot_cycles = self.state.tot_cycles.wrapping_add(1);
            self.cycles -= 1;
            return false;
        }
        true
    }

    /// Sets flags of the status register.
    pub fn set_flag(&mut self, flag: u8)
        ensures
            *final(self) == (Cpu6502 {
                state: CpuState { status: old(self).state.status.with(flag), ..old(self).state },
                ..*old(self)
            }),
    {
        self.state.status.insert(flag);
    }

    /// Clears flags of the status register.
    pub fn clear_flag(&mut self, flag: u8)
        ensures
            *final(self) == (Cpu6502 {
                state: CpuState { status: old(self).state.status.without(flag), ..old(self).state },
                ..*old(self)
            }),
    {
        self.state.status.remove(flag);
    }

    /// Moves the program counter to `addr`.
    pub fn jmp(&mut self, addr: u16)
        ensures
            *final(self) == (Cpu6502 {
                state: CpuState { pc: addr, ..old(self).state },
                ..*old(self)
            }),
    {
        self.state.pc = addr;
    }

    /// The processor with a non-maskable interrupt latched.
    pub open spec fn trigger_nmi_spec(self) -> Cpu6502 {
        Cpu6502 { interrupt_pending: true, maskable_interrupt: false, ..self }
    }

    /// Latches a non-maskable interrupt.  It is serviced at the next
    /// instruction boundary, and replaces an IRQ that was waiting.
    pub fn trigger_nmi(&mut self)
        ensures
            *final(self) == old(self).trigger_nmi_spec(),
    {
        self.interrupt_pending = true;
        self.maskable_interrupt = false;
    }

    /// The processor after an interrupt request: latched unless the
    /// interrupt mask is set.
    pub open spec fn trigger_irq_spec(self) -> Cpu6502 {
        if self.state.status.contains(Status::IRQ_DISABLE) {
            self
        } else {
            Cpu6502 { interrupt_pending: true, maskable_interrupt: true, ..self }
        }
    }

    /// Requests a maskable interrupt.  The request is dropped while the
    /// interrupt mask is set.
    pub fn trigger_irq(&mut self)
        ensures
            *final(self) == old(self).trigger_irq_spec(),
    {
        if self.state.status.contains(Status::IRQ_DISABLE) {
            return ;
        }
        self.interrupt_pending = true;
        self.maskable_interrupt = true;
    }

    /// Advances the program counter, wrapping at the end of memory.
    fn adv_pc(&mut self, increment: u16)
        ensures
            *final(self) == (Cpu6502 {
                state: CpuState {
                    pc: old(self).state.pc.wrapping_add(increment),
                    ..old(self).state
                },
                ..*old(self)
            }),
    {
        self.state.pc = self.state.pc.wrapping_add(increment);
    }

    /// Sets Z where `val` is zero and clears it elsewhere.
    fn check_zero(&mut self, val: u8)
        ensures
            *final(self) == (Cpu6502 {
                state: CpuState {
                    status: old(self).state.status.assign(Status::ZERO, val == 0),
                    ..old(self).state
                },
                ..*old(self)
            }),
    {
        self.state.status.set(Status::ZERO, val == 0);
    }

    /// Copies bit 7 of `op` into N.
    fn check_negative(&mut self, op: u8)
        ensures
            *final(self) == (Cpu6502 {
                state: CpuState {
                    status: old(self).state.status.assign(Status::NEGATIVE, op >= 128),
                    ..old(self).state
                },
                ..*old(self)
            }),
    {
        self.state.status.set(Status::NEGATIVE, op >= 128);
    }

    /// Pushes a byte onto the stack.
    fn push_stack<B: Motherboard>(&mut self, bus: &mut B, data: u8)
        ensures
            *final(self) == (Cpu6502 {
                state: push_spec(old(self).state, *old(bus), data).0,
                ..*old(self)
            }),
            *final(bus) == push_spec(old(self).state, *old(bus), data).1,
    {
        let addr: u16 = 0x0100 + self.state.stack as u16;
        bus.write(addr, data);
        self.state.stack = self.state.stack.wrapping_sub(1);
    }

    /// Pulls a byte from the stack.
    fn pop_stack<B: Motherboard>(&mut self, bus: &mut B) -> (data: u8)
        ensures
            data == pop_spec(old(self).state, *old(bus)).0,
            *final(self) == (Cpu6502 {
                state: pop_spec(old(self).state, *old(bus)).1,
                ..*old(self)
            }),
            *final(bus) == pop_spec(old(self).state, *old(bus)).2,
    {
        self.state.stack = self.state.stack.wrapping_add(1);
        let addr: u16 = 0x0100 + self.state.stack as u16;
        bus.read(addr)
    }

    /// The processor and the bus after a pending interrupt was serviced, and
    /// whether one was: the program counter and the flags are pushed, the
    /// program counter is loaded from the vector of the interrupt, and seven
    /// cycles are charged.
    pub open spec fn run_interrupt_spec<B: Motherboard>(self, bus: B) -> (bool, Cpu6502, B) {
        if !self.interrupt_pending {
            (false, self, bus)
        } else {
            let vector = if self.maskable_interrupt { IRQ_VECTOR } else { NMI_VECTOR };
            let (state, bus1) = interrupt_entry_spec(self.state, bus, vector, false);
            (
                true,
                Cpu6502 {
                    state,
                    interrupt_pending: false,
                    cycles: self.cycles.wrapping_add(INTERRUPT_CYCLES),
                    ..self
                },
                bus1,
            )
        }
    }

    /// Pushes the program counter and status and enters the handler at
    /// `vector`.
    fn enter_interrupt<B: Motherboard>(&mut self, bus: &mut B, vector: u16, brk: bool)
        ensures
            *final(self) == (Cpu6502 {
                state: interrupt_entry_spec(old(self).state, *old(bus), vector, brk).0,
                ..*old(self)
            }),
            *final(bus) == interrupt_entry_spec(old(self).state, *old(bus), vector, brk).1,
    {
        let pc: u16 = self.state.pc;
        self.push_stack(bus, (pc >> 8) as u8);
        self.push_stack(bus, pc as u8);
        self.state.status.set(Status::BREAK, brk);
        self.state.status.insert(Status::UNUSED);
        let status: u8 = self.state.status.bits();
        self.push_stack(bus, status);
        self.state.status.insert(Status::IRQ_DISABLE);
        let fst: u8 = bus.read(vector);
        let snd: u8 = bus.read(vector.wrapping_add(1));
        self.state.pc = bytes_to_addr(fst, snd);
    }

    /// Services the pending interrupt, if there is one, and says whether
    /// there was.
    fn run_interrupt<B: Motherboard>(&mut self, bus: &mut B) -> (serviced: bool)
        ensures
            (serviced, *final(self), *final(bus)) == old(self).run_interrupt_spec(*old(bus)),
    {
        if !self.interrupt_pending {
            return false;
        }
        self.interrupt_pending = false;
        let vector: u16 = if self.maskable_interrupt { IRQ_VECTOR } else { NMI_VECTOR };
        self.enter_interrupt(bus, vector, false);
        self.cycles = self.cycles.wrapping_add(INTERRUPT_CYCLES);
        true
    }

    /// The instruction word at the program counter and the bus after it was
    /// read: the opcode in the low byte, then the two bytes that follow it.
    pub open spec fn fetch_opcode_spec<B: Motherboard>(self, bus: B) -> (u32, B) {
        let pc = self.state.pc;
        let (opcode, b1) = bus.read_spec(pc);
        let (operand1, b2) = b1.read_spec(pc.wrapping_add(1));
        let (operand2, b3) = b2.read_spec(pc.wrapping_add(2));
        ((opcode as u32) | ((operand1 as u32) << 8) | ((operand2 as u32) << 16), b3)
    }

    /// Reads the next instruction word from the bus.  Three bytes are read
    /// whatever the length of the instruction turns out to be.
    fn fetch_opcode<B: Motherboard>(&self, bus: &mut B) -> (word: u32)
        ensures
            (word, *final(bus)) == self.fetch_opcode_spec(*old(bus)),
    {
        let pc: u16 = self.state.pc;
        let opcode: u8 = bus.read(pc);
        let operand1: u8 = bus.read(pc.wrapping_add(1));
        let operand2: u8 = bus.read(pc.wrapping_add(2));
        (opcode as u32) | ((operand1 as u32) << 8) | ((operand2 as u32) << 16)
    }

    /// The processor after `instruction` was decoded.
    pub open spec fn decode_opcode_spec(self, instruction: u32) -> Cpu6502 {
        Cpu6502 {
            state: CpuState {
                instruction,
                addr_mode: addressing_mode_of(instruction as u8),
                instr: mnemonic_of(instruction as u8),
                ..self.state
            },
            ..self
        }
    }

    /// Decodes an instruction word and keeps it, with its addressing mode
    /// and mnemonic, as the current instruction.
    fn decode_opcode(&mut self, instruction: u32)
        ensures
            *final(self) == old(self).decode_opcode_spec(instruction),
    {
        let decoded = decode_instruction(instruction as u8);
        self.state.instruction = instruction;
        self.state.addr_mode = decoded.0;
        self.state.instr = decoded.1;
    }

    /// The effective address of the current instruction, with the processor
    /// and the bus after it was resolved.  The program counter moves past
    /// the instruction; `oops_cycle` tells whether indexing crossed a page.
    pub open spec fn get_addr_spec<B: Motherboard>(self, bus: B, instruction: u32) -> (
        u16,
        Cpu6502,
        B,
    ) {
        let op1 = (instruction >> 8) as u8;
        let op2 = (instruction >> 16) as u8;
        let mode = self.state.addr_mode;
        let pc = self.state.pc.wrapping_add(instruction_length(mode));
        let cpu = Cpu6502 { state: CpuState { pc, ..self.state }, oops_cycle: false, ..self };
        match mode {
            AddressingMode::Abs => (bytes_to_addr_spec(op1, op2), cpu, bus),
            AddressingMode::AbsInd => {
                let (fst, b1) = bus.read_spec(bytes_to_addr_spec(op1, op2));
                let (snd, b2) = b1.read_spec(bytes_to_addr_spec(op1.wrapping_add(1), op2));
                (bytes_to_addr_spec(fst, snd), cpu, b2)
            },
            AddressingMode::AbsX => (
                bytes_to_addr_spec(op1, op2).wrapping_add(self.state.x as u16),
                Cpu6502 { oops_cycle: self.state.x + op1 > 0xFF, ..cpu },
                bus,
            ),
            AddressingMode::AbsY => (
                bytes_to_addr_spec(op1, op2).wrapping_add(self.state.y as u16),
                Cpu6502 { oops_cycle: self.state.y + op1 > 0xFF, ..cpu },
                bus,
            ),
            AddressingMode::Accum | AddressingMode::Impl | AddressingMode::Imm => (0, cpu, bus),
            AddressingMode::IndX => {
                let ptr = op1.wrapping_add(self.state.x);
                let (fst, b1) = bus.read_spec(ptr as u16);
                let (snd, b2) = b1.read_spec(ptr.wrapping_add(1) as u16);
                (bytes_to_addr_spec(fst, snd), cpu, b2)
            },
            AddressingMode::IndY => {
                let (fst, b1) = bus.read_spec(op1 as u16);
                let (snd, b2) = b1.read_spec(op1.wrapping_add(1) as u16);
                (
                    bytes_to_addr_spec(fst, snd).wrapping_add(self.state.y as u16),
                    Cpu6502 { oops_cycle: self.state.y + fst > 0xFF, ..cpu },
                    b2,
                )
            },
            AddressingMode::Rel => (pc.wrapping_add((op1 as i8) as u16), cpu, bus),
            AddressingMode::ZP => (op1 as u16, cpu, bus),
            AddressingMode::ZPX => (op1.wrapping_add(self.state.x) as u16, cpu, bus),
            AddressingMode::ZPY => (op1.wrapping_add(self.state.y) as u16, cpu, bus),
        }
    }

    /// Resolves the effective address of the current instruction and moves
    /// the program counter past it.
    fn get_addr<B: Motherboard>(&mut self, bus: &mut B, instruction: u32) -> (addr: u16)
        ensures
            (addr, *final(self), *final(bus)) == old(self).get_addr_spec(*old(bus), instruction),
    {
        let op1: u8 = (instruction >> 8) as u8;
        let op2: u8 = (instruction >> 16) as u8;
        self.adv_pc(1);
        self.oops_cycle = false;
        match self.state.addr_mode {
            AddressingMode::Abs => {
                self.adv_pc(2);
                bytes_to_addr(op1, op2)
            },
            AddressingMode::AbsInd => {
                self.adv_pc(2);
                let fst: u8 = bus.read(bytes_to_addr(op1, op2));
                let snd: u8 = bus.read(bytes_to_addr(op1.wrapping_add(1), op2));
                bytes_to_addr(fst, snd)
            },
            AddressingMode::AbsX => {
                self.adv_pc(2);
                self.oops_cycle = self.state.x as u16 + op1 as u16 > 0xFF;
                bytes_to_addr(op1, op2).wrapping_add(self.state.x as u16)
            },
            AddressingMode::AbsY => {
                self.adv_pc(2);
                self.oops_cycle = self.state.y as u16 + op1 as u16 > 0xFF;
                bytes_to_addr(op1, op2).wrapping_add(self.state.y as u16)
            },
            AddressingMode::Accum | AddressingMode::Impl => 0x0000,
            AddressingMode::Imm => {
                self.adv_pc(1);
                0x0000
            },
            AddressingMode::IndX => {
                self.adv_pc(1);
                let ptr: u8 = op1.wrapping_add(self.state.x);
                let fst: u8 = bus.read(ptr as u16);
                let snd: u8 = bus.read(ptr.wrapping_add(1) as u16);
                bytes_to_addr(fst, snd)
            },
            AddressingMode::IndY => {
                self.adv_pc(1);
                let fst: u8 = bus.read(op1 as u16);
                let snd: u8 = bus.read(op1.wrapping_add(1) as u16);
                self.oops_cycle = self.state.y as u16 + fst as u16 > 0xFF;
                bytes_to_addr(fst, snd).wrapping_add(self.state.y as u16)
            },
            AddressingMode::Rel => {
                self.adv_pc(1);
                self.state.pc.wrapping_add((op1 as i8) as u16)
            },
            AddressingMode::ZP => {
                self.adv_pc(1);
                op1 as u16
            },
            AddressingMode::ZPX => {
                self.adv_pc(1);
                op1.wrapping_add(self.state.x) as u16
            },
            AddressingMode::ZPY => {
                self.adv_pc(1);
                op1.wrapping_add(self.state.y) as u16
            },
        }
    }

    /// Reads the operand of the current instruction.
    fn read<B: Motherboard>(&self, bus: &mut B) -> (data: u8)
        ensures
            (data, *final(bus)) == operand_spec(self.state, *old(bus)),
    {
        match self.state.addr_mode {
            AddressingMode::Imm => (self.state.instruction >> 8) as u8,
            AddressingMode::Accum => self.state.acc,
            _ => bus.read(self.state.addr),
        }
    }

    /// Writes a byte to the effective address.
    fn write<B: Motherboard>(&self, bus: &mut B, data: u8)
        ensures
            *final(bus) == old(bus).write_spec(self.state.addr, data),
    {
        bus.write(self.state.addr, data);
    }

    /// Sets Z and N from a result.
    fn check_result(&mut self, value: u8)
        ensures
            *final(self) == (Cpu6502 {
                state: CpuState {
                    status: with_zn(old(self).state.status, value),
                    ..old(self).state
                },
                ..*old(self)
            }),
    {
        self.check_zero(value);
        self.check_negative(value);
    }

    /// Sets the flags of a comparison of `reg` with `m`.
    fn op_compare(&mut self, reg: u8, m: u8)
        ensures
            *final(self) == (Cpu6502 {
                state: CpuState {
                    status: compared(old(self).state.status, reg, m),
                    ..old(self).state
                },
                ..*old(self)
            }),
    {
        let c = compare(reg, m);
        self.state.status.set(Status::CARRY, c.carry);
        self.state.status.set(Status::ZERO, c.zero);
        self.state.status.set(Status::NEGATIVE, c.negative);
    }

    /// Puts the outcome of an addition or subtraction into A and the flags.
    fn op_arithmetic(&mut self, carry: bool, overflow: bool, value: u8)
        ensures
            *final(self) == (Cpu6502 {
                state: CpuState {
                    acc: value,
                    status: with_zn(
                        old(self).state.status.assign(Status::CARRY, carry).assign(
                            Status::OVERFLOW,
                            overflow,
                        ),
                        value,
                    ),
                    ..old(self).state
                },
                ..*old(self)
            }),
    {
        self.state.status.set(Status::CARRY, carry);
        self.state.status.set(Status::OVERFLOW, overflow);
        self.state.acc = value;
        self.check_result(value);
    }

    /// Executes an instruction that reads its operand: loads, logic,
    /// arithmetic, comparisons and BIT.
    fn op_read<B: Motherboard>(&mut self, bus: &mut B)
        requires
            is_read_instruction(old(self).state.instr),
        ensures
            *final(self) == (Cpu6502 {
                state: execute_spec(old(self).state, *old(bus)).0,
                ..*old(self)
            }),
            *final(bus) == execute_spec(old(self).state, *old(bus)).1,
    {
        let m: u8 = self.read(bus);
        let carry: bool = self.state.status.contains(Status::CARRY);
        match self.state.instr {
            Instruction::LDA => {
                self.state.acc = m;
                self.check_result(m);
            },
            Instruction::LDX => {
                self.state.x = m;
                self.check_result(m);
            },
            Instruction::LDY => {
                self.state.y = m;
                self.check_result(m);
            },
            Instruction::AND => {
                let value: u8 = self.state.acc & m;
                self.state.acc = value;
                self.check_result(value);
            },
            Instruction::EOR => {
                let value: u8 = self.state.acc ^ m;
                self.state.acc = value;
                self.check_result(value);
            },
            Instruction::ORA => {
                let value: u8 = self.state.acc | m;
                self.state.acc = value;
                self.check_result(value);
            },
            Instruction::ADC => {
                let sum = adc(self.state.acc, m, carry);
                self.op_arithmetic(sum.carry, sum.overflow, sum.value);
            },
            Instruction::SBC => {
                let sum = sbc(self.state.acc, m, carry);
                self.op_arithmetic(sum.carry, sum.overflow, sum.value);
            },
            Instruction::CMP => {
                self.op_compare(self.state.acc, m);
            },
            Instruction::CPX => {
                self.op_compare(self.state.x, m);
            },
            Instruction::CPY => {
                self.op_compare(self.state.y, m);
            },
            Instruction::BIT => {
                self.check_zero(self.state.acc & m);
                self.state.status = Status::from_bits_truncate(
                    (self.state.status.bits() & 0x3F) | (m & 0xC0),
                );
            },
            _ => {},
        }
    }

    /// Executes a shift, a rotation, INC or DEC on the accumulator or on
    /// memory.
    fn op_modify<B: Motherboard>(&mut self, bus: &mut B)
        requires
            is_modify_instruction(old(self).state.instr),
        ensures
            *final(self) == (Cpu6502 {
                state: execute_spec(old(self).state, *old(bus)).0,
                ..*old(self)
            }),
            *final(bus) == execute_spec(old(self).state, *old(bus)).1,
    {
        let m: u8 = self.read(bus);
        let shifted = modify(self.state.instr, m, self.state.status.contains(Status::CARRY));
        self.state.status.set(Status::CARRY, shifted.carry);
        self.check_result(shifted.value);
        if self.state.addr_mode == AddressingMode::Accum {
            self.state.acc = shifted.value;
        } else {
            self.write(bus, shifted.value);
        }
    }

    /// Executes STA, STX or STY.
    fn op_store<B: Motherboard>(&mut self, bus: &mut B)
        requires
            is_store_instruction(old(self).state.instr),
        ensures
            *final(self) == *old(self),
            (final(self).state, *final(bus)) == execute_spec(old(self).state, *old(bus)),
    {
        let data: u8 = match self.state.instr {
            Instruction::STA => self.state.acc,
            Instruction::STX => self.state.x,
            _ => self.state.y,
        };
        self.write(bus, data);
    }

    /// Whether the current instruction is a branch that the flags take.
    fn takes_branch(&self) -> (taken: bool)
        ensures
            taken == branch_taken(self.state.instr, self.state.status),
    {
        let status = self.state.status;
        match self.state.instr {
            Instruction::BPL => !status.contains(Status::NEGATIVE),
            Instruction::BMI => status.contains(Status::NEGATIVE),
            Instruction::BVC => !status.contains(Status::OVERFLOW),
            Instruction::BVS => status.contains(Status::OVERFLOW),
            Instruction::BCC => !status.contains(Status::CARRY),
            Instruction::BCS => status.contains(Status::CARRY),
            Instruction::BNE => !status.contains(Status::ZERO),
            Instruction::BEQ => status.contains(Status::ZERO),
            _ => false,
        }
    }

    /// Executes an instruction that touches registers and flags only:
    /// flag instructions, transfers, the index increments and decrements,
    /// JMP, the branches and NOP.
    fn op_register(&mut self)
        ensures
            *final(self) == (Cpu6502 {
                state: register_instruction_spec(old(self).state),
                ..*old(self)
            }),
    {
        match self.state.instr {
            Instruction::CLC => self.clear_flag(Status::CARRY),
            Instruction::SEC => self.set_flag(Status::CARRY),
            Instruction::CLI => self.clear_flag(Status::IRQ_DISABLE),
            Instruction::SEI => self.set_flag(Status::IRQ_DISABLE),
            Instruction::CLV => self.clear_flag(Status::OVERFLOW),
            Instruction::CLD => self.clear_flag(Status::DECIMAL),
            Instruction::SED => self.set_flag(Status::DECIMAL),
            Instruction::TAX => {
                self.state.x = self.state.acc;
                self.check_result(self.state.x);
            },
            Instruction::TXA => {
                self.state.acc = self.state.x;
                self.check_result(self.state.acc);
            },
            Instruction::TAY => {
                self.state.y = self.state.acc;
                self.check_result(self.state.y);
            },
            Instruction::TYA => {
                self.state.acc = self.state.y;
                self.check_result(self.state.acc);
            },
            Instruction::TSX => {
                self.state.x = self.state.stack;
                self.check_result(self.state.x);
            },
            Instruction::TXS => {
                self.state.stack = self.state.x;
            },
            Instruction::INX => {
                self.state.x = self.state.x.wrapping_add(1);
                self.check_result(self.state.x);
            },
            Instruction::DEX => {
                self.state.x = self.state.x.wrapping_sub(1);
                self.check_result(self.state.x);
            },
            Instruction::INY => {
                self.state.y = self.state.y.wrapping_add(1);
                self.check_result(self.state.y);
            },
            Instruction::DEY => {
                self.state.y = self.state.y.wrapping_sub(1);
                self.check_result(self.state.y);
            },
            Instruction::JMP => self.jmp(self.state.addr),
            Instruction::BPL
            | Instruction::BMI
            | Instruction::BVC
            | Instruction::BVS
            | Instruction::BCC
            | Instruction::BCS
            | Instruction::BNE
            | Instruction::BEQ => {
                if self.takes_branch() {
                    self.jmp(self.state.addr);
                }
            },
            _ => {},
        }
    }

    /// Executes JSR, RTS, RTI, BRK and the four stack instructions.
    fn op_stack<B: Motherboard>(&mut self, bus: &mut B)
        requires
            !is_read_instruction(old(self).state.instr),
            !is_modify_instruction(old(self).state.instr),
            !is_store_instruction(old(self).state.instr),
        ensures
            *final(self) == (Cpu6502 {
                state: execute_spec(old(self).state, *old(bus)).0,
                ..*old(self)
            }),
            *final(bus) == execute_spec(old(self).state, *old(bus)).1,
    {
        match self.state.instr {
            Instruction::JSR => {
                let ret: u16 = self.state.pc.wrapping_sub(1);
                self.push_stack(bus, (ret >> 8) as u8);
                self.push_stack(bus, ret as u8);
                self.jmp(self.state.addr);
            },
            Instruction::RTS => {
                let fst: u8 = self.pop_stack(bus);
                let snd: u8 = self.pop_stack(bus);
                self.jmp(bytes_to_addr(fst, snd).wrapping_add(1));
            },
            Instruction::RTI => {
                let flags: u8 = self.pop_stack(bus);
                let fst: u8 = self.pop_stack(bus);
                let snd: u8 = self.pop_stack(bus);
                self.state.status = Status::from_bits_truncate(flags | Status::UNUSED);
                self.jmp(bytes_to_addr(fst, snd));
            },
            Instruction::BRK => {
                self.enter_interrupt(bus, IRQ_VECTOR, true);
            },
            Instruction::PHA => {
                self.push_stack(bus, self.state.acc);
            },
            Instruction::PHP => {
                self.push_stack(bus, self.state.status.bits() | 0x30);
            },
            Instruction::PLA => {
                let data: u8 = self.pop_stack(bus);
                self.state.acc = data;
                self.check_result(data);
            },
            Instruction::PLP => {
                let data: u8 = self.pop_stack(bus);
                self.state.status = Status::from_bits_truncate((data & 0xEF) | 0x20);
            },
            _ => {
                self.op_register();
            },
        }
    }

    /// The cycles that the current instruction takes, given the state after
    /// its address was resolved.
    pub open spec fn cycles_spec(self) -> u32 {
        (instruction_cycles(
            self.state.instr,
            self.state.addr_mode,
            self.oops_cycle,
            self.state.instruction as u8,
        ) + branch_penalty(self.state)) as u32
    }

    /// Counts the cycles of the current instruction.
    fn count_cycles(&self) -> (n: u32)
        ensures
            n == self.cycles_spec(),
            2 <= n <= 8,
    {
        let instr = self.state.instr;
        let mode = self.state.addr_mode;
        let addressing: u32 = match mode {
            AddressingMode::Impl
            | AddressingMode::Accum
            | AddressingMode::Imm
            | AddressingMode::Rel => 2,
            AddressingMode::ZP => 3,
            AddressingMode::ZPX | AddressingMode::ZPY => 4,
            AddressingMode::Abs | AddressingMode::AbsX | AddressingMode::AbsY => 4,
            AddressingMode::AbsInd | AddressingMode::IndY => 5,
            AddressingMode::IndX => 6,
        };
        let indexed: bool = match mode {
            AddressingMode::AbsX | AddressingMode::AbsY | AddressingMode::IndY => true,
            _ => false,
        };
        let fixed: u32 = if indexed { 1 } else { 0 };
        let opcode: u8 = self.state.instruction as u8;
        let undocumented: bool = instr == Instruction::NOP;
        let fourth_column: bool = opcode % 4 == 3 && mode != AddressingMode::Imm;
        let row: u8 = opcode / 32;
        let modifies: bool = match instr {
            Instruction::ASL
            | Instruction::LSR
            | Instruction::ROL
            | Instruction::ROR
            | Instruction::INC
            | Instruction::DEC => true,
            _ => undocumented && fourth_column && (row <= 3 || row >= 6),
        };
        let stores: bool = match instr {
            Instruction::STA | Instruction::STX | Instruction::STY => true,
            _ => undocumented && (opcode == 0x9C || opcode == 0x9E || (fourth_column && row == 4)),
        };
        if modifies {
            if mode == AddressingMode::Accum {
                2
            } else {
                addressing + fixed + 2
            }
        } else if stores {
            addressing + fixed
        } else {
            match instr {
                Instruction::JMP => if mode == AddressingMode::AbsInd { 5 } else { 3 },
                Instruction::JSR | Instruction::RTS | Instruction::RTI => 6,
                Instruction::BRK => 7,
                Instruction::PHA | Instruction::PHP => 3,
                Instruction::PLA | Instruction::PLP => 4,
                _ => {
                    let crossing: u32 = if self.oops_cycle && indexed { 1 } else { 0 };
                    let penalty: u32 = if self.takes_branch() {
                        if self.state.pc / 256 != self.state.addr / 256 { 2 } else { 1 }
                    } else {
                        0
                    };
                    addressing + crossing + penalty
                },
            }
        }
    }

    /// The processor and the bus after the current instruction, already
    /// decoded and resolved, was executed and its cycles were charged.
    pub open spec fn exec_instr_spec<B: Motherboard>(self, bus: B) -> (Cpu6502, B) {
        let (state, bus1) = execute_spec(self.state, bus);
        (Cpu6502 { state, cycles: self.cycles.wrapping_add(self.cycles_spec()), ..self }, bus1)
    }

    /// Executes the current instruction and charges its cycles.
    fn exec_instr<B: Motherboard>(&mut self, bus: &mut B)
        ensures
            (*final(self), *final(bus)) == old(self).exec_instr_spec(*old(bus)),
    {
        let n: u32 = self.count_cycles();
        match self.state.instr {
            Instruction::ADC
            | Instruction::AND
            | Instruction::BIT
            | Instruction::CMP
            | Instruction::CPX
            | Instruction::CPY
            | Instruction::EOR
            | Instruction::LDA
            | Instruction::LDX
            | Instruction::LDY
            | Instruction::ORA
            | Instruction::SBC => self.op_read(bus),
            Instruction::ASL
            | Instruction::LSR
            | Instruction::ROL
            | Instruction::ROR
            | Instruction::INC
            | Instruction::DEC => self.op_modify(bus),
            Instruction::STA | Instruction::STX | Instruction::STY => self.op_store(bus),
            _ => self.op_stack(bus),
        }
        self.cycles = self.cycles.wrapping_add(n);
    }

    /// The processor and the bus at the point where the next instruction is
    /// ready to be executed: a pending interrupt was serviced, and the
    /// instruction at the program counter was fetched, decoded and resolved.
    #[verifier::opaque]
    pub open spec fn resolve_spec<B: Motherboard>(self, bus: B) -> (Cpu6502, B) {
        let (_serviced, c1, b1) = self.run_interrupt_spec(bus);
        let (word, b2) = c1.fetch_opcode_spec(b1);
        let c2 = c1.decode_opcode_spec(word);
        let (addr, c3, b3) = c2.get_addr_spec(b2, word);
        (Cpu6502 { state: CpuState { addr, ..c3.state }, ..c3 }, b3)
    }

    /// Services a pending interrupt, then fetches, decodes and resolves the
    /// instruction at the program counter.
    fn resolve<B: Motherboard>(&mut self, bus: &mut B)
        ensures
            (*final(self), *final(bus)) == old(self).resolve_spec(*old(bus)),
    {
        reveal(Cpu6502::resolve_spec);
        self.run_interrupt(bus);
        let word: u32 = self.fetch_opcode(bus);
        self.decode_opcode(word);
        let addr: u16 = self.get_addr(bus, word);
        self.state.addr = addr;
    }

    /// The processor and the bus after one whole instruction: a pending
    /// interrupt is serviced, the instruction at the program counter is
    /// fetched, decoded, resolved and executed.
    #[verifier::opaque]
    pub open spec fn exec_spec<B: Motherboard>(self, bus: B) -> (Cpu6502, B) {
        let (cpu, bus1) = self.resolve_spec(bus);
        cpu.exec_instr_spec(bus1)
    }

    /// Executes one instruction, after servicing the interrupt that waits,
    /// if one does.  The cycles of the instruction are added to `cycles`;
    /// `tick` then runs them down.
    pub fn exec<B: Motherboard>(&mut self, bus: &mut B)
        ensures
            (*final(self), *final(bus)) == old(self).exec_spec(*old(bus)),
    {
        reveal(Cpu6502::exec_spec);
        self.resolve(bus);
        self.exec_instr(bus);
    }

    /// The registers as the trace line of the next instruction shows them:
    /// those of the instruction when it is ready to be executed, with the
    /// program counter still at its first byte.  Where an interrupt was
    /// latched, the instruction is the first of the handler: the line
    /// shows the address of the handler beside the bytes found there, and
    /// the stack pointer and flags as the entry into the handler left them.
    pub open spec fn traced_spec<B: Motherboard>(self, bus: B) -> CpuState {
        CpuState {
            pc: self.run_interrupt_spec(bus).1.state.pc,
            ..self.resolve_spec(bus).0.state
        }
    }

    /// The trace line of the next instruction, with the picture processor at
    /// dot `column` of `scanline`.
    pub open spec fn trace_spec<B: Motherboard>(self, bus: B, column: u16, scanline: u16) -> Seq<
        char,
    > {
        trace_line(
            self.traced_spec(bus),
            peeked_spec(self.traced_spec(bus), self.resolve_spec(bus).1, column, scanline),
        )
    }

    /// Executes one instruction as `exec` does, and returns its trace line.
    /// The line is written when the instruction is ready to be executed;
    /// it shows the picture processor at dot `column` of `scanline`.  Where
    /// an interrupt is serviced first, the line is that of the first
    /// instruction of the handler.
    pub fn debug_at<B: Motherboard>(&mut self, bus: &mut B, column: u16, scanline: u16) -> (line:
        String)
        ensures
            (*final(self), *final(bus)) == old(self).exec_spec(*old(bus)),
            line@ == old(self).trace_spec(*old(bus), column, scanline),
    {
        reveal(Cpu6502::resolve_spec);
        reveal(Cpu6502::exec_spec);
        self.run_interrupt(bus);
        let old_pc: u16 = self.state.pc;
        let word: u32 = self.fetch_opcode(bus);
        self.decode_opcode(word);
        let addr: u16 = self.get_addr(bus, word);
        self.state.addr = addr;
        let new_pc: u16 = self.state.pc;
        self.state.pc = old_pc;
        let line = print_debug_at(self, bus, column, scanline);
        self.state.pc = new_pc;
        self.exec_instr(bus);
        line
    }

    /// Executes one instruction as `exec` does, and returns its trace line,
    /// for a processor on a bus without a picture processor: its place
    /// shows as zero.
    pub fn debug<B: Motherboard>(&mut self, bus: &mut B) -> (line: String)
        ensures
            (*final(self), *final(bus)) == old(self).exec_spec(*old(bus)),
            line@ == old(self).trace_spec(*old(bus), 0, 0),
    {
        self.debug_at(bus, 0, 0)
    }

    /// The processor and the bus after a reset: the stack pointer drops by
    /// three, the interrupt mask is set, and the program counter is loaded
    /// from the reset vector.  Memory and the other registers stay.
    pub open spec fn reset_spec<B: Motherboard>(self, bus: B) -> (Cpu6502, B) {
        let (fst, b1) = bus.read_spec(RESET_VECTOR);
        let (snd, b2) = b1.read_spec(RESET_VECTOR.wrapping_add(1));
        (
            Cpu6502 {
                state: CpuState {
                    stack: self.state.stack.wrapping_sub(3),
                    status: self.state.status.with(Status::IRQ_DISABLE),
                    pc: bytes_to_addr_spec(fst, snd),
                    ..self.state
                },
                ..self
            },
            b2,
        )
    }

    /// Resets the processor, as the reset line of the console does.
    pub fn reset<B: Motherboard>(&mut self, bus: &mut B)
        ensures
            (*final(self), *final(bus)) == old(self).reset_spec(*old(bus)),
    {
        let fst: u8 = bus.read(RESET_VECTOR);
        let snd: u8 = bus.read(RESET_VECTOR.wrapping_add(1));
        self.state.stack = self.state.stack.wrapping_sub(3);
        self.state.status.insert(Status::IRQ_DISABLE);
        self.state.pc = bytes_to_addr(fst, snd);
    }
}

/// An owner of a processor, such as the console.
pub trait WithCpu {
    /// The processor that the owner holds.
    spec fn cpu_spec(&self) -> Cpu6502;

    /// The processor.
    fn cpu(&self) -> (cpu: &Cpu6502)
        ensures
            *cpu == self.cpu_spec(),
    ;

    /// The processor, to be changed in place.
    fn cpu_mut(&mut self) -> (cpu: &mut Cpu6502)
        ensures
            *cpu == old(self).cpu_spec(),
            final(self).cpu_spec() == *final(cpu),
    ;
}

} // verus!

//! What holds of every instruction, whatever the bus.
use vstd::prelude::*;
use super::alu::{adc_spec, compare_spec, sbc_spec};
use super::cpu::{
    branch_penalty,
    branch_taken,
    execute_spec,
    index_always_paid,
    instruction_cycles,
    interrupt_entry_spec,
    is_branch,
    is_read_instruction,
    operand_spec,
    pages_differ,
    pop_spec,
    push_spec,
    read_instruction_spec,
    stack_addr,
    undocumented_modify,
    undocumented_store,
    with_zn,
    Cpu6502,
    INTERRUPT_CYCLES,
    IRQ_VECTOR,
    NMI_VECTOR,
};
use super::structs::{AddressingMode, CpuState, Instruction, Status};
use super::utils::{addressing_mode_of, bytes_to_addr_spec, instruction_length, mnemonic_of};
use crate::devices::bus::Motherboard;

verus! {

/// Whether no read and no write takes the bus out of `keeps`.
pub open spec fn kept_by_bus<B: Motherboard>(keeps: spec_fn(B) -> bool) -> bool {
    &&& forall|b: B, addr: u16| keeps(b) ==> keeps(#[trigger] b.read_spec(addr).1)
    &&& forall|b: B, addr: u16, data: u8| keeps(b) ==> keeps(#[trigger] b.write_spec(addr, data))
}

/// Entering an interrupt handler keeps what the bus keeps.
pub proof fn interrupt_entry_keeps<B: Motherboard>(
    state: CpuState,
    bus: B,
    vector: u16,
    brk: bool,
    keeps: spec_fn(B) -> bool,
)
    requires
        kept_by_bus(keeps),
        keeps(bus),
    ensures
        keeps(interrupt_entry_spec(state, bus, vector, brk).1),
{
    let (s1, b1) = push_spec(state, bus, super::cpu::high_byte(state.pc));
    let (s2, b2) = push_spec(s1, b1, super::cpu::low_byte(state.pc));
    assert(keeps(b2));
}

/// Getting an instruction ready keeps what the bus keeps.
pub proof fn resolve_keeps<B: Motherboard>(cpu: Cpu6502, bus: B, keeps: spec_fn(B) -> bool)
    requires
        kept_by_bus(keeps),
        keeps(bus),
    ensures
        keeps(cpu.resolve_spec(bus).1),
{
    reveal(Cpu6502::resolve_spec);
    let (_serviced, c1, b1) = cpu.run_interrupt_spec(bus);
    if cpu.interrupt_pending {
        interrupt_entry_keeps(
            cpu.state,
            bus,
            if cpu.maskable_interrupt {
                super::cpu::IRQ_VECTOR
            } else {
                super::cpu::NMI_VECTOR
            },
            false,
            keeps,
        );
    }
    assert(keeps(b1));
    let (word, b2) = c1.fetch_opcode_spec(b1);
    assert(keeps(b2));
}

/// Executing a resolved instruction keeps what the bus keeps.
pub proof fn execute_keeps<B: Motherboard>(state: CpuState, bus: B, keeps: spec_fn(B) -> bool)
    requires
        kept_by_bus(keeps),
        keeps(bus),
    ensures
        keeps(execute_spec(state, bus).1),
{
    interrupt_entry_keeps(state, bus, super::cpu::IRQ_VECTOR, true, keeps);
    let (m, b1) = operand_spec(state, bus);
    assert(keeps(b1));
    let (d1, s1, p1) = pop_spec(state, bus);
    let (d2, s2, p2) = pop_spec(s1, p1);
    assert(keeps(p2));
    let (q1, r1) = push_spec(state, bus, super::cpu::high_byte(state.pc.wrapping_sub(1)));
    assert(keeps(r1));
}

/// An instruction keeps whatever no read and no write of the bus disturbs.
pub proof fn exec_keeps<B: Motherboard>(cpu: Cpu6502, bus: B, keeps: spec_fn(B) -> bool)
    requires
        kept_by_bus(keeps),
        keeps(bus),
    ensures
        keeps(cpu.exec_spec(bus).1),
{
    reveal(Cpu6502::exec_spec);
    resolve_keeps(cpu, bus, keeps);
    let (c, b) = cpu.resolve_spec(bus);
    execute_keeps(c.state, b, keeps);
}

/// A reset keeps whatever no read and no write of the bus disturbs.
pub proof fn reset_keeps<B: Motherboard>(cpu: Cpu6502, bus: B, keeps: spec_fn(B) -> bool)
    requires
        kept_by_bus(keeps),
        keeps(bus),
    ensures
        keeps(cpu.reset_spec(bus).1),
{
}

/// The cycles of each documented instruction in each of its addressing
/// modes, without page crossings and branches taken, as the data sheet of
/// the processor lists them.  `None` for a pairing that the processor does
/// not document.
pub open spec fn documented_cycles(instr: Instruction, mode: AddressingMode) -> Option<u32> {
    match instr {
        Instruction::ADC
        | Instruction::AND
        | Instruction::CMP
        | Instruction::EOR
        | Instruction::LDA
        | Instruction::ORA
        | Instruction::SBC => match mode {
            AddressingMode::Imm => Some(2),
            AddressingMode::ZP => Some(3),
            AddressingMode::ZPX => Some(4),
            AddressingMode::Abs => Some(4),
            AddressingMode::AbsX => Some(4),
            AddressingMode::AbsY => Some(4),
            AddressingMode::IndX => Some(6),
            AddressingMode::IndY => Some(5),
            _ => None,
        },
        Instruction::STA => match mode {
            AddressingMode::ZP => Some(3),
            AddressingMode::ZPX => Some(4),
            AddressingMode::Abs => Some(4),
            AddressingMode::AbsX => Some(5),
            AddressingMode::AbsY => Some(5),
            AddressingMode::IndX => Some(6),
            AddressingMode::IndY => Some(6),
            _ => None,
        },
        Instruction::ASL | Instruction::LSR | Instruction::ROL | Instruction::ROR => match mode {
            AddressingMode::Accum => Some(2),
            AddressingMode::ZP => Some(5),
            AddressingMode::ZPX => Some(6),
            AddressingMode::Abs => Some(6),
            AddressingMode::AbsX => Some(7),
            _ => None,
        },
        Instruction::INC | Instruction::DEC => match mode {
            AddressingMode::ZP => Some(5),
            AddressingMode::ZPX => Some(6),
            AddressingMode::Abs => Some(6),
            AddressingMode::AbsX => Some(7),
            _ => None,
        },
        Instruction::BIT => match mode {
            AddressingMode::ZP => Some(3),
            AddressingMode::Abs => Some(4),
            _ => None,
        },
        Instruction::CPX | Instruction::CPY => match mode {
            AddressingMode::Imm => Some(2),
            AddressingMode::ZP => Some(3),
            AddressingMode::Abs => Some(4),
            _ => None,
        },
        Instruction::LDX => match mode {
            AddressingMode::Imm => Some(2),
            AddressingMode::ZP => Some(3),
            AddressingMode::ZPY => Some(4),
            AddressingMode::Abs => Some(4),
            AddressingMode::AbsY => Some(4),
            _ => None,
        },
        Instruction::LDY => match mode {
            AddressingMode::Imm => Some(2),
            AddressingMode::ZP => Some(3),
            AddressingMode::ZPX => Some(4),
            AddressingMode::Abs => Some(4),
            AddressingMode::AbsX => Some(4),
            _ => None,
        },
        Instruction::STX => match mode {
            AddressingMode::ZP => Some(3),
            AddressingMode::ZPY => Some(4),
            AddressingMode::Abs => Some(4),
            _ => None,
        },
        Instruction::STY => match mode {
            AddressingMode::ZP => Some(3),
            AddressingMode::ZPX => Some(4),
            AddressingMode::Abs => Some(4),
            _ => None,
        },
        Instruction::JMP => match mode {
            AddressingMode::Abs => Some(3),
            AddressingMode::AbsInd => Some(5),
            _ => None,
        },
        Instruction::JSR => match mode {
            AddressingMode::Abs => Some(6),
            _ => None,
        },
        Instruction::BPL
        | Instruction::BMI
        | Instruction::BVC
        | Instruction::BVS
        | Instruction::BCC
        | Instruction::BCS
        | Instruction::BNE
        | Instruction::BEQ => match mode {
            AddressingMode::Rel => Some(2),
            _ => None,
        },
        Instruction::BRK => match mode {
            AddressingMode::Impl => Some(7),
            _ => None,
        },
        Instruction::RTI | Instruction::RTS => match mode {
            AddressingMode::Impl => Some(6),
            _ => None,
        },
        Instruction::PHA | Instruction::PHP => match mode {
            AddressingMode::Impl => Some(3),
            _ => None,
        },
        Instruction::PLA | Instruction::PLP => match mode {
            AddressingMode::Impl => Some(4),
            _ => None,
        },
        _ => match mode {
            AddressingMode::Impl => Some(2),
            _ => None,
        },
    }
}

/// Whether an instruction pays a cycle more where indexing crosses a page:
/// those that only read do, in the three indexed modes that can cross one.
pub open spec fn pays_for_crossing(instr: Instruction, mode: AddressingMode) -> bool {
    (is_read_instruction(instr) || instr == Instruction::NOP) && index_always_paid(mode)
}

/// The interpreter charges every documented instruction what the data sheet
/// lists for it, and one cycle more where it pays for a page crossing.
pub proof fn charges_documented_cycles(opcode: u8, oops: bool)
    requires
        documented_cycles(mnemonic_of(opcode), addressing_mode_of(opcode)) is Some,
    ensures
        instruction_cycles(mnemonic_of(opcode), addressing_mode_of(opcode), oops, opcode)
            == documented_cycles(mnemonic_of(opcode), addressing_mode_of(opcode))->Some_0 + (
        if oops && pays_for_crossing(mnemonic_of(opcode), addressing_mode_of(opcode)) {
            1int
        } else {
            0int
        }),
{
}

/// The undocumented opcodes that modify memory take the cycles of a
/// documented instruction that modifies memory, in every addressing mode
/// that they have; those that store take the cycles of a store.
pub proof fn charges_undocumented_cycles(opcode: u8, oops: bool)
    requires
        mnemonic_of(opcode) == Instruction::NOP,
    ensures
        ({
            let mode = addressing_mode_of(opcode);
            let cycles = instruction_cycles(Instruction::NOP, mode, oops, opcode);
            &&& undocumented_modify(opcode, mode) ==> cycles == match mode {
                AddressingMode::ZP => 5int,
                AddressingMode::ZPX => 6int,
                AddressingMode::Abs => 6int,
                AddressingMode::AbsX => 7int,
                AddressingMode::AbsY => 7int,
                AddressingMode::IndX => 8int,
                _ => 8int,
            }
            &&& undocumented_store(opcode, mode) ==> cycles == instruction_cycles(
                Instruction::STA,
                mode,
                oops,
                opcode,
            )
            &&& mode == AddressingMode::Impl ==> cycles == 2
        }),
{
}

/// An instruction adds to the cycles in flight exactly its own cycles, with
/// its penalties, and seven more where an interrupt was serviced before it.
/// Running the cycles down then adds as many to the total.
pub proof fn step_charges_its_cycles<B: Motherboard>(cpu: Cpu6502, bus: B)
    ensures
        ({
            let ready = cpu.resolve_spec(bus).0;
            let after = cpu.exec_spec(bus).0;
            let interrupt = if cpu.interrupt_pending {
                INTERRUPT_CYCLES
            } else {
                0
            };
            &&& ready.cycles == cpu.cycles.wrapping_add(interrupt)
            &&& after.cycles == ready.cycles.wrapping_add(ready.cycles_spec())
            &&& ready.cycles_spec() == instruction_cycles(
                ready.state.instr,
                ready.state.addr_mode,
                ready.oops_cycle,
                ready.state.instruction as u8,
            ) + branch_penalty(ready.state)
            &&& ready.state.instr == mnemonic_of(ready.state.instruction as u8)
            &&& ready.state.addr_mode == addressing_mode_of(ready.state.instruction as u8)
            &&& after.state.tot_cycles == cpu.state.tot_cycles
        }),
{
    reveal(Cpu6502::resolve_spec);
    reveal(Cpu6502::exec_spec);
    let (_serviced, c1, b1) = cpu.run_interrupt_spec(bus);
    let (word, b2) = c1.fetch_opcode_spec(b1);
    let c2 = c1.decode_opcode_spec(word);
    let (addr, c3, b3) = c2.get_addr_spec(b2, word);
    let c4 = Cpu6502 { state: CpuState { addr, ..c3.state }, ..c3 };
    let (state, b4) = execute_spec(c4.state, b3);
    execute_keeps_total(c4.state, b3);
}

/// Executing an instruction leaves the total of cycles alone: only `tick`
/// counts.
pub proof fn execute_keeps_total<B: Motherboard>(state: CpuState, bus: B)
    ensures
        execute_spec(state, bus).0.tot_cycles == state.tot_cycles,
{
}

/// An instruction takes between two and eight cycles.
pub proof fn cycles_are_bounded(cpu: Cpu6502)
    ensures
        2 <= cpu.cycles_spec() <= 8,
{
}

/// A branch that is not taken costs two cycles, a branch taken within the
/// page three, a branch taken to another page four.
pub proof fn branch_costs(cpu: Cpu6502)
    requires
        is_branch(cpu.state.instr),
        cpu.state.addr_mode == AddressingMode::Rel,
        !cpu.oops_cycle,
    ensures
        cpu.cycles_spec() == if !branch_taken(cpu.state.instr, cpu.state.status) {
            2int
        } else if pages_differ(cpu.state.pc, cpu.state.addr) {
            4int
        } else {
            3int
        },
{
}

/// Resolving a relative address never flags a page crossing of its own:
/// the crossing of a branch is charged by the branch.
pub proof fn relative_mode_has_no_oops<B: Motherboard>(cpu: Cpu6502, bus: B, word: u32)
    requires
        cpu.state.addr_mode == AddressingMode::Rel,
    ensures
        !cpu.get_addr_spec(bus, word).1.oops_cycle,
        cpu.get_addr_spec(bus, word).0 == cpu.state.pc.wrapping_add(2).wrapping_add(
            (((word >> 8) as u8) as i8) as u16,
        ),
{
}

/// The address that an indirect jump reads the high byte of its target
/// from: the byte behind the pointer within the page of the pointer.  A
/// pointer at the last byte of a page has its high byte read from the first
/// byte of the same page, not of the next.
pub proof fn indirect_jump_stays_in_page<B: Motherboard>(cpu: Cpu6502, bus: B, word: u32)
    requires
        cpu.state.addr_mode == AddressingMode::AbsInd,
    ensures
        ({
            let pointer = bytes_to_addr_spec((word >> 8) as u8, (word >> 16) as u8);
            let (low, bus1) = bus.read_spec(pointer);
            let (high, bus2) = bus1.read_spec(
                (pointer & 0xFF00) | (pointer.wrapping_add(1) & 0x00FF),
            );
            &&& cpu.get_addr_spec(bus, word).0 == bytes_to_addr_spec(low, high)
            &&& cpu.get_addr_spec(bus, word).2 == bus2
            &&& pointer & 0x00FF == 0x00FF ==> (pointer & 0xFF00) | (pointer.wrapping_add(1)
                & 0x00FF) == pointer & 0xFF00
        }),
{
    let op1 = (word >> 8) as u8;
    let op2 = (word >> 16) as u8;
    let next = op1.wrapping_add(1);
    let pointer = bytes_to_addr_spec(op1, op2);
    assert(bytes_to_addr_spec(next, op2) == (pointer & 0xFF00) | (pointer.wrapping_add(1)
        & 0x00FF) && (pointer & 0x00FF == 0x00FF ==> (pointer & 0xFF00) | (pointer.wrapping_add(1)
        & 0x00FF) == pointer & 0xFF00)) by {
        let after = pointer.wrapping_add(1);
        assert(after == if pointer == 0xFFFF {
            0
        } else {
            (pointer + 1) as u16
        });
        lemma_same_page(op1, op2, next, pointer, after);
    }
}

proof fn lemma_same_page(op1: u8, op2: u8, next: u8, pointer: u16, after: u16)
    by (bit_vector)
    requires
        pointer == ((op2 as u16) << 8) | (op1 as u16),
        next == if op1 == 0xFF {
            0u8
        } else {
            (op1 + 1) as u8
        },
        after == if pointer == 0xFFFF {
            0u16
        } else {
            (pointer + 1) as u16
        },
    ensures
        ((op2 as u16) << 8) | (next as u16) == (pointer & 0xFF00) | (after & 0x00FF),
        pointer & 0x00FF == 0x00FF ==> (pointer & 0xFF00) | (after & 0x00FF) == pointer & 0xFF00,
{
}

/// The stack wraps within page 1: a push with the stack pointer at `$00`
/// writes `$0100` and leaves the pointer at `$FF`; a pull with the pointer
/// at `$FF` moves it to `$00` and reads `$0100`.
pub proof fn stack_wraps<B: Motherboard>(state: CpuState, bus: B, data: u8)
    ensures
        state.stack == 0x00 ==> push_spec(state, bus, data) == (
            CpuState { stack: 0xFF, ..state },
            bus.write_spec(0x0100, data),
        ),
        state.stack == 0xFF ==> pop_spec(state, bus) == (
            bus.read_spec(0x0100).0,
            CpuState { stack: 0x00, ..state },
            bus.read_spec(0x0100).1,
        ),
        0x0100 <= stack_addr(state.stack) <= 0x01FF,
        push_spec(state, bus, data).0.stack == (state.stack + 255) % 256,
        pop_spec(state, bus).1.stack == (state.stack + 1) % 256,
{
}

/// An interrupt that is latched when an instruction begins is serviced
/// before the instruction is fetched: the program counter and the flags are
/// pushed, and the instruction that runs is the one at the address in the
/// vector of the interrupt.
pub proof fn latched_interrupt_runs_first<B: Motherboard>(cpu: Cpu6502, bus: B)
    requires
        cpu.interrupt_pending,
    ensures
        ({
            let vector = if cpu.maskable_interrupt {
                IRQ_VECTOR
            } else {
                NMI_VECTOR
            };
            let (entered, bus1) = interrupt_entry_spec(cpu.state, bus, vector, false);
            let handler = Cpu6502 { state: entered, ..cpu };
            let ready = cpu.resolve_spec(bus).0;
            &&& !ready.interrupt_pending
            &&& ready.state.instruction == handler.fetch_opcode_spec(bus1).0
            &&& ready.state.stack == cpu.state.stack.wrapping_sub(3)
            &&& ready.state.status.contains(Status::IRQ_DISABLE)
        }),
{
    let vector = if cpu.maskable_interrupt {
        IRQ_VECTOR
    } else {
        NMI_VECTOR
    };
    reveal(Cpu6502::resolve_spec);
    let pushed = cpu.state.status.assign(Status::BREAK, false).with(Status::UNUSED);
    flag_reads_back(pushed, Status::IRQ_DISABLE, true, Status::IRQ_DISABLE);
    let (_serviced, c1, b1) = cpu.run_interrupt_spec(bus);
    let (word, b2) = c1.fetch_opcode_spec(b1);
    let c2 = c1.decode_opcode_spec(word);
    let (addr, c3, b3) = c2.get_addr_spec(b2, word);
}

/// A trigger of the NMI line latches an interrupt whatever the flags are;
/// a request on the IRQ line latches one unless the interrupt mask is set.
pub proof fn nmi_cannot_be_masked(cpu: Cpu6502)
    ensures
        cpu.trigger_nmi_spec().interrupt_pending,
        !cpu.trigger_nmi_spec().maskable_interrupt,
        cpu.state.status.contains(Status::IRQ_DISABLE) ==> cpu.trigger_irq_spec() == cpu,
{
}

proof fn lemma_flag_bits(bits: u8, flag: u8, other: u8)
    by (bit_vector)
    requires
        flag == 0x01 || flag == 0x02 || flag == 0x04 || flag == 0x08 || flag == 0x10 || flag
            == 0x20 || flag == 0x40 || flag == 0x80,
        other == 0x01 || other == 0x02 || other == 0x04 || other == 0x08 || other == 0x10 || other
            == 0x20 || other == 0x40 || other == 0x80,
    ensures
        ((bits | flag) & other == other) == (other == flag || bits & other == other),
        ((bits & !flag) & other == other) == (other != flag && bits & other == other),
{
}

/// Whether `flag` is one of the eight flags of the status register.
pub open spec fn is_flag(flag: u8) -> bool {
    flag == Status::CARRY || flag == Status::ZERO || flag == Status::IRQ_DISABLE || flag
        == Status::DECIMAL || flag == Status::BREAK || flag == Status::UNUSED || flag
        == Status::OVERFLOW || flag == Status::NEGATIVE
}

/// A flag that was set reads as set, one that was cleared reads as clear,
/// and neither disturbs another flag.
pub proof fn flag_reads_back(status: Status, flag: u8, value: bool, other: u8)
    requires
        is_flag(flag),
        is_flag(other),
    ensures
        status.assign(flag, value).contains(other) == if other == flag {
            value
        } else {
            status.contains(other)
        },
        status.with(flag).contains(other) == (other == flag || status.contains(other)),
        status.without(flag).contains(other) == (other != flag && status.contains(other)),
{
    lemma_flag_bits(status.bits, flag, other);
}

/// Setting or clearing one flag, read through each of the eight flags.
pub proof fn status_reads_back(status: Status, flag: u8, value: bool)
    requires
        is_flag(flag),
    ensures
        status.assign(flag, value).contains(flag) == value,
        flag != Status::CARRY ==> status.assign(flag, value).contains(Status::CARRY)
            == status.contains(Status::CARRY),
        flag != Status::ZERO ==> status.assign(flag, value).contains(Status::ZERO)
            == status.contains(Status::ZERO),
        flag != Status::IRQ_DISABLE ==> status.assign(flag, value).contains(Status::IRQ_DISABLE)
            == status.contains(Status::IRQ_DISABLE),
        flag != Status::DECIMAL ==> status.assign(flag, value).contains(Status::DECIMAL)
            == status.contains(Status::DECIMAL),
        flag != Status::BREAK ==> status.assign(flag, value).contains(Status::BREAK)
            == status.contains(Status::BREAK),
        flag != Status::UNUSED ==> status.assign(flag, value).contains(Status::UNUSED)
            == status.contains(Status::UNUSED),
        flag != Status::OVERFLOW ==> status.assign(flag, value).contains(Status::OVERFLOW)
            == status.contains(Status::OVERFLOW),
        flag != Status::NEGATIVE ==> status.assign(flag, value).contains(Status::NEGATIVE)
            == status.contains(Status::NEGATIVE),
{
    flag_reads_back(status, flag, value, Status::CARRY);
    flag_reads_back(status, flag, value, Status::ZERO);
    flag_reads_back(status, flag, value, Status::IRQ_DISABLE);
    flag_reads_back(status, flag, value, Status::DECIMAL);
    flag_reads_back(status, flag, value, Status::BREAK);
    flag_reads_back(status, flag, value, Status::UNUSED);
    flag_reads_back(status, flag, value, Status::OVERFLOW);
    flag_reads_back(status, flag, value, Status::NEGATIVE);
}

/// Resolving an instruction moves the program counter past it: by one, two
/// or three bytes, as its addressing mode says.  This holds of the
/// undocumented opcodes too, which run as NOP.
pub proof fn program_counter_moves_by_length<B: Motherboard>(cpu: Cpu6502, bus: B)
    requires
        !cpu.interrupt_pending,
    ensures
        ({
            let ready = cpu.resolve_spec(bus).0.state;
            &&& ready.pc == cpu.state.pc.wrapping_add(instruction_length(ready.addr_mode))
            &&& 1 <= instruction_length(ready.addr_mode) <= 3
            &&& ready.addr_mode == addressing_mode_of(ready.instruction as u8)
        }),
{
    reveal(Cpu6502::resolve_spec);
}

/// NOP changes neither the registers nor the bus, whatever its addressing
/// mode.
pub proof fn nop_changes_nothing<B: Motherboard>(state: CpuState, bus: B)
    requires
        state.instr == Instruction::NOP,
    ensures
        execute_spec(state, bus) == (state, bus),
{
}

proof fn lemma_test_bits(bits: u8, m: u8)
    by (bit_vector)
    ensures
        (((bits & 0x3F) | (m & 0xC0)) & 0x80 == 0x80) == (m >= 128),
        (((bits & 0x3F) | (m & 0xC0)) & 0x40 == 0x40) == (m & 0x40 != 0),
        (((bits & 0x3F) | (m & 0xC0)) & 0x02 == 0x02) == (bits & 0x02 == 0x02),
        (((bits & 0x3F) | (m & 0xC0)) & 0x01 == 0x01) == (bits & 0x01 == 0x01),
        (((bits & 0x3F) | (m & 0xC0)) & 0x04 == 0x04) == (bits & 0x04 == 0x04),
        (((bits & 0x3F) | (m & 0xC0)) & 0x08 == 0x08) == (bits & 0x08 == 0x08),
{
}

/// What the flags say after an addition or a subtraction: C the carry out
/// of the unsigned sum, or that no borrow was needed; V that the signed
/// result left the range of a byte; Z that the result is zero; N its bit 7.
/// The other flags stay.
pub proof fn arithmetic_sets_flags(state: CpuState, m: u8)
    requires
        state.instr == Instruction::ADC || state.instr == Instruction::SBC,
    ensures
        ({
            let carry = state.status.contains(Status::CARRY);
            let sum = if state.instr == Instruction::ADC {
                adc_spec(state.acc, m, carry)
            } else {
                sbc_spec(state.acc, m, carry)
            };
            let after = read_instruction_spec(state, m);
            &&& after.acc == sum.value
            &&& after.status.contains(Status::CARRY) == sum.carry
            &&& after.status.contains(Status::OVERFLOW) == sum.overflow
            &&& after.status.contains(Status::ZERO) == (sum.value == 0)
            &&& after.status.contains(Status::NEGATIVE) == (sum.value >= 128)
            &&& after.status.contains(Status::IRQ_DISABLE) == state.status.contains(
                Status::IRQ_DISABLE,
            )
            &&& after.status.contains(Status::DECIMAL) == state.status.contains(Status::DECIMAL)
            &&& after.status.contains(Status::BREAK) == state.status.contains(Status::BREAK)
            &&& after.status.contains(Status::UNUSED) == state.status.contains(Status::UNUSED)
        }),
{
    let carry = state.status.contains(Status::CARRY);
    let sum = if state.instr == Instruction::ADC {
        adc_spec(state.acc, m, carry)
    } else {
        sbc_spec(state.acc, m, carry)
    };
    let s1 = state.status.assign(Status::CARRY, sum.carry);
    let s2 = s1.assign(Status::OVERFLOW, sum.overflow);
    let s3 = s2.assign(Status::ZERO, sum.value == 0);
    status_reads_back(state.status, Status::CARRY, sum.carry);
    status_reads_back(s1, Status::OVERFLOW, sum.overflow);
    status_reads_back(s2, Status::ZERO, sum.value == 0);
    status_reads_back(s3, Status::NEGATIVE, sum.value >= 128);
}

/// What the flags say after a comparison: C that the register is not below
/// the operand, Z that they are equal, N bit 7 of their difference.
pub proof fn comparison_sets_flags(state: CpuState, m: u8)
    requires
        state.instr == Instruction::CMP || state.instr == Instruction::CPX || state.instr
            == Instruction::CPY,
    ensures
        ({
            let reg = if state.instr == Instruction::CMP {
                state.acc
            } else if state.instr == Instruction::CPX {
                state.x
            } else {
                state.y
            };
            let after = read_instruction_spec(state, m);
            &&& after.status.contains(Status::CARRY) == (reg >= m)
            &&& after.status.contains(Status::ZERO) == (reg == m)
            &&& after.status.contains(Status::NEGATIVE) == ((reg - m) % 256 >= 128)
            &&& after.status.contains(Status::OVERFLOW) == state.status.contains(Status::OVERFLOW)
            &&& after.acc == state.acc
            &&& after.x == state.x
            &&& after.y == state.y
        }),
{
    let reg = if state.instr == Instruction::CMP {
        state.acc
    } else if state.instr == Instruction::CPX {
        state.x
    } else {
        state.y
    };
    let c = compare_spec(reg, m);
    let s1 = state.status.assign(Status::CARRY, c.carry);
    let s2 = s1.assign(Status::ZERO, c.zero);
    status_reads_back(state.status, Status::CARRY, c.carry);
    status_reads_back(s1, Status::ZERO, c.zero);
    status_reads_back(s2, Status::NEGATIVE, c.negative);
}

/// What the flags say after BIT: N and V are bits 7 and 6 of the operand,
/// Z says that the accumulator and the operand share no bit.  The
/// accumulator and the carry stay.
pub proof fn bit_copies_the_top_bits(state: CpuState, m: u8)
    requires
        state.instr == Instruction::BIT,
    ensures
        ({
            let after = read_instruction_spec(state, m);
            &&& after.status.contains(Status::NEGATIVE) == (m >= 128)
            &&& after.status.contains(Status::OVERFLOW) == (m & 0x40 != 0)
            &&& after.status.contains(Status::ZERO) == (state.acc & m == 0)
            &&& after.status.contains(Status::CARRY) == state.status.contains(Status::CARRY)
            &&& after.acc == state.acc
        }),
{
    let tested = state.status.assign(Status::ZERO, state.acc & m == 0);
    status_reads_back(state.status, Status::ZERO, state.acc & m == 0);
    lemma_test_bits(tested.bits, m);
}

/// What the flags say after a load or a transfer into a register: Z that
/// the byte is zero, N its bit 7.
pub proof fn loads_set_zero_and_negative(status: Status, value: u8)
    ensures
        with_zn(status, value).contains(Status::ZERO) == (value == 0),
        with_zn(status, value).contains(Status::NEGATIVE) == (value >= 128),
        with_zn(status, value).contains(Status::CARRY) == status.contains(Status::CARRY),
        with_zn(status, value).contains(Status::OVERFLOW) == status.contains(Status::OVERFLOW),
        with_zn(status, value).contains(Status::IRQ_DISABLE) == status.contains(
            Status::IRQ_DISABLE,
        ),
{
    let s1 = status.assign(Status::ZERO, value == 0);
    status_reads_back(status, Status::ZERO, value == 0);
    status_reads_back(s1, Status::NEGATIVE, value >= 128);
}

} // verus!

//! The processor, instruction by instruction, on the console's own bus.
use defenestrate::devices::bus::Motherboard;
use defenestrate::devices::cartridge::nrom::NROMCartridge;
use defenestrate::devices::cpu::alu::{adc, compare, modify, sbc};
use defenestrate::devices::cpu::cpu::Cpu6502;
use defenestrate::devices::cpu::structs::{AddressingMode, CpuState, Instruction, Status};
use defenestrate::devices::nes::Nes;

const PROGRAM: u16 = 0x0200;

/// An image of 16 KiB of program memory with `program` at `$8000` (and at
/// its mirror `$C000`), and the three vectors given.
fn image(program: &[u8], nmi: u16, reset: u16, irq: u16) -> Vec<u8> {
    let mut buf = vec![0x4E, 0x45, 0x53, 0x1A, 1, 1, 0, 0];
    buf.extend_from_slice(&[0u8; 8]);
    let mut prg = vec![0xEAu8; 0x4000];
    prg[..program.len()].copy_from_slice(program);
    prg[0x3FFA] = nmi as u8;
    prg[0x3FFB] = (nmi >> 8) as u8;
    prg[0x3FFC] = reset as u8;
    prg[0x3FFD] = (reset >> 8) as u8;
    prg[0x3FFE] = irq as u8;
    prg[0x3FFF] = (irq >> 8) as u8;
    buf.extend_from_slice(&prg);
    buf.extend_from_slice(&[0u8; 0x2000]);
    buf
}

/// A console with `program` in internal memory at `$0200` and the program
/// counter on it.
fn console(program: &[u8]) -> Nes<NROMCartridge> {
    let mut nes = Nes::new_from_buf(&image(&[], 0x9000, 0x8000, 0xA000)).ok().unwrap();
    for (i, byte) in program.iter().enumerate() {
        nes.write(PROGRAM + i as u16, *byte);
    }
    nes.cpu.state.pc = PROGRAM;
    nes
}

fn flag(nes: &Nes<NROMCartridge>, mask: u8) -> bool {
    nes.cpu.state.status.contains(mask)
}

#[test]
fn processor_power_on_state() {
    let cpu = Cpu6502::new();
    assert_eq!(cpu.state, CpuState::new());
    assert_eq!(cpu.state.acc, 0);
    assert_eq!(cpu.state.x, 0);
    assert_eq!(cpu.state.y, 0);
    assert_eq!(cpu.state.stack, 0xFD);
    assert_eq!(cpu.state.status.bits(), 0x24);
    assert_eq!(cpu.state.tot_cycles, 7);
    assert_eq!(cpu.cycles, 0);
    assert!(!cpu.interrupt_pending);
}

#[test]
fn reset_vector_is_loaded_at_power_on() {
    let nes = Nes::new_from_buf(&image(&[], 0, 0x8000, 0)).ok().unwrap();
    assert_eq!(nes.cpu.state.pc, 0x8000);
    assert_eq!(nes.cpu.state.stack, 0xFD);
    assert!(flag(&nes, Status::IRQ_DISABLE));
}

#[test]
fn reset_keeps_memory_and_drops_the_stack_pointer() {
    let mut nes = console(&[]);
    nes.write(0x0010, 0x77);
    nes.cpu.state.status = Status::from_bits_truncate(0x00);
    nes.cpu.state.acc = 0x12;
    nes.reset();
    assert_eq!(nes.cpu.state.pc, 0x8000);
    assert_eq!(nes.cpu.state.stack, 0xFA);
    assert_eq!(nes.cpu.state.status.bits(), 0x04);
    assert_eq!(nes.cpu.state.acc, 0x12);
    assert_eq!(nes.peek(0x0010), Some(0x77));
}

#[test]
fn adc_carry() {
    let mut nes = console(&[0x69, 0x50]);
    nes.cpu.state.acc = 0x50;
    nes.cpu.state.status.remove(Status::CARRY);
    nes.dbg_step_cpu();
    assert_eq!(nes.cpu.state.acc, 0xA0);
    assert!(flag(&nes, Status::OVERFLOW));
    assert!(flag(&nes, Status::NEGATIVE));
    assert!(!flag(&nes, Status::CARRY));
    assert!(!flag(&nes, Status::ZERO));
}

#[test]
fn sbc_borrow() {
    let mut nes = console(&[0xE9, 0xB0]);
    nes.cpu.state.acc = 0x50;
    nes.cpu.state.status.insert(Status::CARRY);
    nes.dbg_step_cpu();
    assert_eq!(nes.cpu.state.acc, 0xA0);
    assert!(!flag(&nes, Status::CARRY));
    assert!(flag(&nes, Status::OVERFLOW));
    assert!(flag(&nes, Status::NEGATIVE));
    assert!(!flag(&nes, Status::ZERO));
}

#[test]
fn arithmetic_on_plain_bytes() {
    let sum = adc(0x50, 0x50, false);
    assert_eq!((sum.value, sum.carry, sum.overflow), (0xA0, false, true));
    let sum = adc(0xFF, 0x01, false);
    assert_eq!((sum.value, sum.carry, sum.overflow), (0x00, true, false));
    let sum = adc(0x7F, 0x00, true);
    assert_eq!((sum.value, sum.carry, sum.overflow), (0x80, false, true));
    let sum = adc(0x80, 0x80, false);
    assert_eq!((sum.value, sum.carry, sum.overflow), (0x00, true, true));
    let sum = sbc(0x50, 0xB0, true);
    assert_eq!((sum.value, sum.carry, sum.overflow), (0xA0, false, true));
    let sum = sbc(0x50, 0x10, true);
    assert_eq!((sum.value, sum.carry, sum.overflow), (0x40, true, false));
    let sum = sbc(0x00, 0x00, false);
    assert_eq!((sum.value, sum.carry, sum.overflow), (0xFF, false, false));
    let c = compare(0x10, 0x10);
    assert_eq!((c.carry, c.zero, c.negative), (true, true, false));
    let c = compare(0x10, 0x20);
    assert_eq!((c.carry, c.zero, c.negative), (false, false, true));
    let c = compare(0x80, 0x01);
    assert_eq!((c.carry, c.zero, c.negative), (true, false, false));
}

#[test]
fn shifts_and_rotations_on_plain_bytes() {
    let r = modify(Instruction::ASL, 0x81, false);
    assert_eq!((r.value, r.carry), (0x02, true));
    let r = modify(Instruction::LSR, 0x81, true);
    assert_eq!((r.value, r.carry), (0x40, true));
    let r = modify(Instruction::ROL, 0x81, true);
    assert_eq!((r.value, r.carry), (0x03, true));
    let r = modify(Instruction::ROL, 0xC0, false);
    assert_eq!((r.value, r.carry), (0x80, true));
    let r = modify(Instruction::ROR, 0x01, true);
    assert_eq!((r.value, r.carry), (0x80, true));
    let r = modify(Instruction::INC, 0xFF, true);
    assert_eq!((r.value, r.carry), (0x00, true));
    let r = modify(Instruction::DEC, 0x00, false);
    assert_eq!((r.value, r.carry), (0xFF, false));
}

#[test]
fn bit_copies_the_top_bits_of_memory() {
    let mut nes = console(&[0x24, 0x10]);
    nes.write(0x0010, 0xC0);
    nes.cpu.state.acc = 0x01;
    nes.dbg_step_cpu();
    assert!(flag(&nes, Status::NEGATIVE));
    assert!(flag(&nes, Status::OVERFLOW));
    assert!(flag(&nes, Status::ZERO));
    assert_eq!(nes.cpu.state.acc, 0x01);
}

#[test]
fn push_then_pull_restores_a_and_s() {
    let mut nes = console(&[0x48, 0xA9, 0x00, 0x68]);
    nes.cpu.state.acc = 0x5A;
    let stack = nes.cpu.state.stack;
    nes.dbg_step_cpu();
    assert_eq!(nes.cpu.state.stack, stack.wrapping_sub(1));
    assert_eq!(nes.peek(0x0100 + stack as u16), Some(0x5A));
    nes.dbg_step_cpu();
    assert_eq!(nes.cpu.state.acc, 0x00);
    nes.dbg_step_cpu();
    assert_eq!(nes.cpu.state.acc, 0x5A);
    assert_eq!(nes.cpu.state.stack, stack);
}

#[test]
fn stack_wraps_around() {
    let mut nes = console(&[0x48, 0x48, 0x68, 0x68]);
    nes.cpu.state.stack = 0x00;
    nes.cpu.state.acc = 0x11;
    nes.dbg_step_cpu();
    assert_eq!(nes.cpu.state.stack, 0xFF);
    assert_eq!(nes.peek(0x0100), Some(0x11));
    nes.cpu.state.acc = 0x22;
    nes.dbg_step_cpu();
    assert_eq!(nes.cpu.state.stack, 0xFE);
    assert_eq!(nes.peek(0x01FF), Some(0x22));
    nes.dbg_step_cpu();
    assert_eq!((nes.cpu.state.acc, nes.cpu.state.stack), (0x22, 0xFF));
    nes.dbg_step_cpu();
    assert_eq!((nes.cpu.state.acc, nes.cpu.state.stack), (0x11, 0x00));
}

fn cycles_of(program: &[u8], setup: fn(&mut Nes<NROMCartridge>)) -> u32 {
    let mut nes = console(program);
    setup(&mut nes);
    let before = nes.cpu.state.tot_cycles;
    nes.dbg_step_cpu();
    assert_eq!(nes.cpu.cycles, 0);
    nes.cpu.state.tot_cycles - before
}

#[test]
fn branch_cycles() {
    // BEQ with Z clear: not taken
    assert_eq!(cycles_of(&[0xF0, 0x10], |_| {}), 2);
    // BNE with Z clear: taken, target $0212 on the page of $0202
    assert_eq!(cycles_of(&[0xD0, 0x10], |_| {}), 3);
    // BNE backwards across the page: target $01F2
    assert_eq!(cycles_of(&[0xD0, 0xF0], |_| {}), 4);
    // BNE forwards across the page from $02F0: target $0302
    let mut nes = console(&[]);
    nes.write(0x02F0, 0xD0);
    nes.write(0x02F1, 0x10);
    nes.cpu.state.pc = 0x02F0;
    let before = nes.cpu.state.tot_cycles;
    nes.dbg_step_cpu();
    assert_eq!(nes.cpu.state.pc, 0x0302);
    assert_eq!(nes.cpu.state.tot_cycles - before, 4);
}

#[test]
fn branch_targets() {
    let mut nes = console(&[0xD0, 0x10]);
    nes.dbg_step_cpu();
    assert_eq!(nes.cpu.state.pc, 0x0212);
    let mut nes = console(&[0xD0, 0xFE]);
    nes.dbg_step_cpu();
    assert_eq!(nes.cpu.state.pc, 0x0200);
    let mut nes = console(&[0xF0, 0x10]);
    nes.dbg_step_cpu();
    assert_eq!(nes.cpu.state.pc, 0x0202);
}

#[test]
fn page_crossing_costs_a_cycle_for_reads_only() {
    // LDA $02F0,X with X = $20 crosses into page 3
    assert_eq!(cycles_of(&[0xBD, 0xF0, 0x02], |nes| nes.cpu.state.x = 0x20), 5);
    assert_eq!(cycles_of(&[0xBD, 0xF0, 0x02], |nes| nes.cpu.state.x = 0x0F), 4);
    // STA $02F0,X always takes five
    assert_eq!(cycles_of(&[0x9D, 0xF0, 0x02], |nes| nes.cpu.state.x = 0x20), 5);
    assert_eq!(cycles_of(&[0x9D, 0xF0, 0x02], |nes| nes.cpu.state.x = 0x00), 5);
    // LDA ($10),Y with the pointer at $02F0 and Y = $20
    let crossing = |nes: &mut Nes<NROMCartridge>| {
        nes.write(0x0010, 0xF0);
        nes.write(0x0011, 0x02);
        nes.cpu.state.y = 0x20;
    };
    assert_eq!(cycles_of(&[0xB1, 0x10], crossing), 6);
    assert_eq!(cycles_of(&[0x91, 0x10], crossing), 6);
    // INC $02F0,X always takes seven
    assert_eq!(cycles_of(&[0xFE, 0xF0, 0x02], |nes| nes.cpu.state.x = 0x20), 7);
}

#[test]
fn documented_cycle_counts() {
    let table: [(u8, u32); 143] = [
        (0x69, 2), (0x65, 3), (0x75, 4), (0x6D, 4), (0x7D, 4), (0x79, 4), (0x61, 6), (0x71, 5),
        (0x29, 2), (0x25, 3), (0x35, 4), (0x2D, 4), (0x3D, 4), (0x39, 4), (0x21, 6), (0x31, 5),
        (0x0A, 2), (0x06, 5), (0x16, 6), (0x0E, 6), (0x1E, 7),
        (0x24, 3), (0x2C, 4),
        (0x00, 7),
        (0x18, 2), (0xD8, 2), (0x58, 2), (0xB8, 2),
        (0xC9, 2), (0xC5, 3), (0xD5, 4), (0xCD, 4), (0xDD, 4), (0xD9, 4), (0xC1, 6), (0xD1, 5),
        (0xE0, 2), (0xE4, 3), (0xEC, 4),
        (0xC0, 2), (0xC4, 3), (0xCC, 4),
        (0xC6, 5), (0xD6, 6), (0xCE, 6), (0xDE, 7),
        (0xCA, 2), (0x88, 2),
        (0x49, 2), (0x45, 3), (0x55, 4), (0x4D, 4), (0x5D, 4), (0x59, 4), (0x41, 6), (0x51, 5),
        (0xE6, 5), (0xF6, 6), (0xEE, 6), (0xFE, 7),
        (0xE8, 2), (0xC8, 2),
        (0x4C, 3), (0x6C, 5),
        (0x20, 6),
        (0xA9, 2), (0xA5, 3), (0xB5, 4), (0xAD, 4), (0xBD, 4), (0xB9, 4), (0xA1, 6), (0xB1, 5),
        (0xA2, 2), (0xA6, 3), (0xB6, 4), (0xAE, 4), (0xBE, 4),
        (0xA0, 2), (0xA4, 3), (0xB4, 4), (0xAC, 4), (0xBC, 4),
        (0x4A, 2), (0x46, 5), (0x56, 6), (0x4E, 6), (0x5E, 7),
        (0xEA, 2),
        (0x09, 2), (0x05, 3), (0x15, 4), (0x0D, 4), (0x1D, 4), (0x19, 4), (0x01, 6), (0x11, 5),
        (0x48, 3), (0x08, 3), (0x68, 4), (0x28, 4),
        (0x2A, 2), (0x26, 5), (0x36, 6), (0x2E, 6), (0x3E, 7),
        (0x6A, 2), (0x66, 5), (0x76, 6), (0x6E, 6), (0x7E, 7),
        (0x40, 6), (0x60, 6),
        (0xE9, 2), (0xE5, 3), (0xF5, 4), (0xED, 4), (0xFD, 4), (0xF9, 4), (0xE1, 6), (0xF1, 5),
        (0x38, 2), (0xF8, 2), (0x78, 2),
        (0x85, 3), (0x95, 4), (0x8D, 4), (0x9D, 5), (0x99, 5), (0x81, 6), (0x91, 6),
        (0x86, 3), (0x96, 4), (0x8E, 4),
        (0x84, 3), (0x94, 4), (0x8C, 4),
        (0xAA, 2), (0xA8, 2), (0xBA, 2), (0x8A, 2), (0x9A, 2), (0x98, 2),
    ];
    for (opcode, cycles) in table {
        let mut nes = console(&[opcode, 0x40, 0x00]);
        let before = nes.cpu.state.tot_cycles;
        nes.dbg_step_cpu();
        assert_eq!(nes.cpu.state.tot_cycles - before, cycles, "opcode {:02X}", opcode);
        assert_eq!(nes.cpu.cycles, 0, "opcode {:02X}", opcode);
    }
}

#[test]
fn instructions_advance_the_program_counter_by_their_length() {
    let lengths: [(u8, u16); 12] = [
        (0xEA, 1), (0x0A, 1), (0xA9, 2), (0xA5, 2), (0xB5, 2), (0xB6, 2), (0xA1, 2), (0xB1, 2),
        (0xAD, 3), (0xBD, 3), (0xB9, 3), (0x0C, 3),
    ];
    for (opcode, length) in lengths {
        let mut nes = console(&[opcode, 0x40, 0x00]);
        nes.dbg_step_cpu();
        assert_eq!(nes.cpu.state.pc, PROGRAM + length, "opcode {:02X}", opcode);
    }
}

#[test]
fn unknown_opcodes_are_one_byte_nops() {
    for opcode in [0x02u8, 0x12, 0x22, 0x92, 0xB2, 0xF2] {
        let mut nes = console(&[opcode, 0xFF, 0xFF]);
        let before = nes.cpu.state;
        nes.dbg_step_cpu();
        assert_eq!(nes.cpu.state.pc, PROGRAM + 1);
        assert_eq!(nes.cpu.state.instr, Instruction::NOP);
        assert_eq!(nes.cpu.state.addr_mode, AddressingMode::Impl);
        assert_eq!(nes.cpu.state.acc, before.acc);
        assert_eq!(nes.cpu.state.status, before.status);
        assert_eq!(nes.cpu.state.tot_cycles, before.tot_cycles + 2);
    }
}

#[test]
fn indirect_jump_reads_its_high_byte_from_the_same_page() {
    let mut nes = console(&[0x6C, 0xFF, 0x03]);
    nes.write(0x03FF, 0x34);
    nes.write(0x0300, 0x12);
    nes.write(0x0400, 0x56);
    nes.dbg_step_cpu();
    assert_eq!(nes.cpu.state.pc, 0x1234);
    let mut nes = console(&[0x6C, 0x10, 0x03]);
    nes.write(0x0310, 0x34);
    nes.write(0x0311, 0x12);
    nes.dbg_step_cpu();
    assert_eq!(nes.cpu.state.pc, 0x1234);
}

#[test]
fn zero_page_indexing_wraps() {
    let mut nes = console(&[0xB5, 0xF0]);
    nes.write(0x0010, 0x99);
    nes.cpu.state.x = 0x20;
    nes.dbg_step_cpu();
    assert_eq!(nes.cpu.state.addr, 0x0010);
    assert_eq!(nes.cpu.state.acc, 0x99);
    // (d,X): the pointer wraps within the zero page
    let mut nes = console(&[0xA1, 0xFF]);
    nes.write(0x00FF, 0x34);
    nes.write(0x0000, 0x06);
    nes.write(0x0634, 0x77);
    nes.dbg_step_cpu();
    assert_eq!(nes.cpu.state.addr, 0x0634);
    assert_eq!(nes.cpu.state.acc, 0x77);
    // (d),Y
    let mut nes = console(&[0xB1, 0xFF]);
    nes.write(0x00FF, 0x30);
    nes.write(0x0000, 0x06);
    nes.write(0x0634, 0x78);
    nes.cpu.state.y = 0x04;
    nes.dbg_step_cpu();
    assert_eq!(nes.cpu.state.acc, 0x78);
}

#[test]
fn subroutine_call_and_return() {
    let mut nes = console(&[0x20, 0x10, 0x02]);
    nes.write(0x0210, 0x60);
    nes.dbg_step_cpu();
    assert_eq!(nes.cpu.state.pc, 0x0210);
    assert_eq!(nes.cpu.state.stack, 0xFB);
    assert_eq!(nes.peek(0x01FD), Some(0x02));
    assert_eq!(nes.peek(0x01FC), Some(0x02));
    nes.dbg_step_cpu();
    assert_eq!(nes.cpu.state.pc, 0x0203);
    assert_eq!(nes.cpu.state.stack, 0xFD);
}

#[test]
fn nmi_is_serviced_before_the_next_fetch() {
    let mut nes = console(&[0xA9, 0x11]);
    nes.cpu.trigger_nmi();
    let before = nes.cpu.state.tot_cycles;
    nes.dbg_step_cpu();
    // The handler at $9000 holds NOP: the load at $0200 has not run.
    assert_eq!(nes.cpu.state.pc, 0x9001);
    assert_eq!(nes.cpu.state.acc, 0x00);
    assert_eq!(nes.cpu.state.instr, Instruction::NOP);
    assert!(!nes.cpu.interrupt_pending);
    assert_eq!(nes.cpu.state.stack, 0xFA);
    assert_eq!(nes.peek(0x01FD), Some(0x02));
    assert_eq!(nes.peek(0x01FC), Some(0x00));
    assert_eq!(nes.peek(0x01FB), Some(0x24));
    assert!(flag(&nes, Status::IRQ_DISABLE));
    assert_eq!(nes.cpu.state.tot_cycles - before, 7 + 2);
}

#[test]
fn irq_is_masked_by_the_interrupt_flag() {
    let mut nes = console(&[0xEA]);
    nes.cpu.trigger_irq();
    assert!(!nes.cpu.interrupt_pending);
    nes.cpu.state.status.remove(Status::IRQ_DISABLE);
    nes.cpu.trigger_irq();
    assert!(nes.cpu.interrupt_pending);
    assert!(nes.cpu.maskable_interrupt);
    nes.dbg_step_cpu();
    assert_eq!(nes.cpu.state.pc, 0xA001);
    assert!(flag(&nes, Status::IRQ_DISABLE));
    // an NMI replaces a waiting IRQ
    nes.cpu.state.status.remove(Status::IRQ_DISABLE);
    nes.cpu.trigger_irq();
    nes.cpu.trigger_nmi();
    assert!(!nes.cpu.maskable_interrupt);
}

#[test]
fn brk_pushes_the_break_flag() {
    let mut nes = console(&[0x00]);
    nes.cpu.state.status = Status::from_bits_truncate(0x00);
    nes.dbg_step_cpu();
    assert_eq!(nes.cpu.state.pc, 0xA000);
    assert_eq!(nes.peek(0x01FB), Some(0x30));
    assert!(flag(&nes, Status::IRQ_DISABLE));
}

#[test]
fn rti_restores_flags_and_program_counter() {
    let mut nes = console(&[0x40]);
    nes.cpu.state.stack = 0xFA;
    nes.write(0x01FB, 0x87);
    nes.write(0x01FC, 0x34);
    nes.write(0x01FD, 0x12);
    nes.dbg_step_cpu();
    assert_eq!(nes.cpu.state.status.bits(), 0xA7);
    assert_eq!(nes.cpu.state.pc, 0x1234);
    assert_eq!(nes.cpu.state.stack, 0xFD);
}

#[test]
fn plp_ignores_the_break_flag() {
    let mut nes = console(&[0x28]);
    nes.cpu.state.stack = 0xFC;
    nes.write(0x01FD, 0xFF);
    nes.dbg_step_cpu();
    assert_eq!(nes.cpu.state.status.bits(), 0xEF);
    let mut nes = console(&[0x08]);
    nes.cpu.state.status = Status::from_bits_truncate(0x00);
    nes.dbg_step_cpu();
    assert_eq!(nes.peek(0x01FD), Some(0x30));
}

#[test]
fn read_modify_write_on_memory_and_accumulator() {
    let mut nes = console(&[0xE6, 0x10, 0x0A, 0x4E, 0x10, 0x00]);
    nes.write(0x0010, 0xFF);
    nes.dbg_step_cpu();
    assert_eq!(nes.peek(0x0010), Some(0x00));
    assert!(flag(&nes, Status::ZERO));
    nes.cpu.state.acc = 0x81;
    nes.dbg_step_cpu();
    assert_eq!(nes.cpu.state.acc, 0x02);
    assert!(flag(&nes, Status::CARRY));
    nes.write(0x0010, 0x03);
    nes.dbg_step_cpu();
    assert_eq!(nes.peek(0x0010), Some(0x01));
    assert!(flag(&nes, Status::CARRY));
}

#[test]
fn transfers_and_flags() {
    let mut nes = console(&[0xAA, 0xE8, 0x9A, 0xBA, 0x38, 0xF8, 0x18, 0xD8, 0x58, 0xB8]);
    nes.cpu.state.acc = 0xFF;
    nes.dbg_step_cpu();
    assert_eq!(nes.cpu.state.x, 0xFF);
    assert!(flag(&nes, Status::NEGATIVE));
    nes.dbg_step_cpu();
    assert_eq!(nes.cpu.state.x, 0x00);
    assert!(flag(&nes, Status::ZERO));
    nes.dbg_step_cpu();
    assert_eq!(nes.cpu.state.stack, 0x00);
    nes.dbg_step_cpu();
    assert_eq!(nes.cpu.state.x, 0x00);
    nes.dbg_step_cpu();
    assert!(flag(&nes, Status::CARRY));
    nes.dbg_step_cpu();
    assert!(flag(&nes, Status::DECIMAL));
    nes.dbg_step_cpu();
    assert!(!flag(&nes, Status::CARRY));
    nes.dbg_step_cpu();
    assert!(!flag(&nes, Status::DECIMAL));
    nes.dbg_step_cpu();
    assert!(!flag(&nes, Status::IRQ_DISABLE));
    nes.cpu.state.status.insert(Status::OVERFLOW);
    nes.dbg_step_cpu();
    assert!(!flag(&nes, Status::OVERFLOW));
}

#[test]
fn status_register_flags() {
    let mut status = Status::from_bits_truncate(0x24);
    assert!(status.contains(Status::IRQ_DISABLE));
    assert!(status.contains(Status::UNUSED));
    assert!(!status.contains(Status::CARRY));
    status.set(Status::CARRY, true);
    assert_eq!(status.bits(), 0x25);
    status.set(Status::IRQ_DISABLE, false);
    assert_eq!(status.bits(), 0x21);
    status.insert(Status::NEGATIVE);
    status.remove(Status::UNUSED);
    assert_eq!(status.bits(), 0x81);
}

#[test]
fn tick_runs_the_cycles_down() {
    let mut cpu = Cpu6502::new();
    assert!(cpu.tick());
    assert_eq!(cpu.state.tot_cycles, 7);
    cpu.cycles = 2;
    assert!(!cpu.tick());
    assert!(!cpu.tick());
    assert_eq!(cpu.state.tot_cycles, 9);
    assert!(cpu.tick());
    assert_eq!(cpu.state.tot_cycles, 9);
    cpu.cycles = 1;
    cpu.state.tot_cycles = u32::MAX;
    assert!(!cpu.tick());
    assert_eq!(cpu.state.tot_cycles, 0);
}

#[test]
fn set_clear_and_jump() {
    let mut cpu = Cpu6502::new();
    cpu.set_flag(Status::CARRY);
    assert_eq!(cpu.state.status.bits(), 0x25);
    cpu.clear_flag(Status::IRQ_DISABLE);
    assert_eq!(cpu.state.status.bits(), 0x21);
    cpu.jmp(0xC000);
    assert_eq!(cpu.state.pc, 0xC000);
}

#[test]
fn trace_of_the_first_instruction() {
    let mut nes = Nes::new_from_buf(&image(&[0x4C, 0xF5, 0xC5], 0, 0xC000, 0)).ok().unwrap();
    assert_eq!(nes.cpu.state.pc, 0xC000);
    let line = nes.dbg_step_cpu();
    assert_eq!(
        line,
        "C000  4C F5 C5  JMP $C5F5                       A:00 X:00 Y:00 P:24 SP:FD PPU:  0,  0 CYC:7"
    );
    assert_eq!(nes.cpu.state.pc, 0xC5F5);
    assert_eq!(nes.cpu.state.tot_cycles, 10);
    let line = nes.dbg_step_cpu();
    assert_eq!(
        line,
        "C5F5  EA        NOP                             A:00 X:00 Y:00 P:24 SP:FD PPU:  0,  0 CYC:10"
    );
}

#[test]
fn trace_shows_unreadable_bytes() {
    // LDA $2002 reads a port that cannot be peeked
    let mut nes = console(&[0xAD, 0x02, 0x20]);
    let line = nes.dbg_step_cpu();
    assert!(line.starts_with("0200  AD 02 20  LDA $2002 = A5 "));
}

#[test]
fn undocumented_opcodes_take_the_cycles_of_the_real_instruction() {
    let table: [(u8, u32); 22] = [
        // read-modify-write: SLO, RLA, SRE, RRA, DCP, ISC
        (0x07, 5), (0x17, 6), (0x0F, 6), (0x1F, 7), (0x1B, 7), (0x03, 8), (0x13, 8),
        (0x27, 5), (0x47, 5), (0x67, 5), (0xC7, 5), (0xE7, 5), (0xFF, 7),
        // stores: SAX, SHY, SHX
        (0x87, 3), (0x97, 4), (0x8F, 4), (0x83, 6), (0x9C, 5), (0x9E, 5),
        // loads: LAX
        (0xA7, 3), (0xB3, 5),
        // immediates
        (0x0B, 2),
    ];
    for (opcode, cycles) in table {
        let mut nes = console(&[opcode, 0x40, 0x00]);
        let before = nes.cpu.state;
        nes.dbg_step_cpu();
        assert_eq!(nes.cpu.state.tot_cycles - before.tot_cycles, cycles, "opcode {:02X}", opcode);
        assert_eq!(nes.cpu.state.instr, Instruction::NOP);
        assert_eq!(nes.cpu.state.acc, before.acc);
        assert_eq!(nes.peek(0x0040), Some(0));
    }
    // unofficial NOPs read: a page crossing costs them a cycle
    assert_eq!(cycles_of(&[0x1C, 0xF0, 0x02], |nes| nes.cpu.state.x = 0x20), 5);
    assert_eq!(cycles_of(&[0x1C, 0xF0, 0x02], |nes| nes.cpu.state.x = 0x00), 4);
    assert_eq!(cycles_of(&[0x04, 0x10], |_| {}), 3);
}

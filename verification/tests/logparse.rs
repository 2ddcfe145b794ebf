//! Reading trace lines back, as a comparison with a reference log does.
use defenestrate::devices::cpu::structs::{AddressingMode, CpuState, Instruction, Status};
use defenestrate::devices::cpu::trace::{format_trace, Peeked};
use defenestrate::devices::nes::Nes;

pub struct EmulatorState<'a> {
    pub pc: u16,
    pub instr: &'a str,
    pub disasm: &'a str,
    pub acc: u8,
    pub xreg: u8,
    pub yreg: u8,
    pub status: u8,
    pub stack: u8,
    pub ppu_col: u16,
    pub ppu_scanline: u16,
    pub cycle: u32,
}

pub fn parse_line(line: &str) -> EmulatorState {
    EmulatorState {
        pc: u16::from_str_radix(&line[0..4], 16).unwrap(),
        instr: &line[6..14],
        disasm: &line[16..48],
        acc: u8::from_str_radix(&line[50..52], 16).unwrap(),
        xreg: u8::from_str_radix(&line[55..57], 16).unwrap(),
        yreg: u8::from_str_radix(&line[60..62], 16).unwrap(),
        status: u8::from_str_radix(&line[65..67], 16).unwrap(),
        stack: u8::from_str_radix(&line[71..73], 16).unwrap(),
        ppu_col: u16::from_str_radix(&line[78..81].trim(), 10).unwrap(),
        ppu_scanline: u16::from_str_radix(&line[82..85].trim(), 10).unwrap(),
        cycle: u32::from_str_radix(&line[90..], 10).unwrap(),
    }
}

#[test]
fn parses_correctly() {
    let line = parse_line("D101  C1 80     CMP ($80,X) @ 80 = 0200 = 00    A:80 X:00 Y:68 P:A4 SP:FB PPU: 66, 30 CYC:3439");
    assert_eq!(line.pc, 0xD101, "Program counter mismatch");
    assert_eq!(line.instr, "C1 80   ", "Instruction mismatch");
    assert_eq!(
        line.disasm, "CMP ($80,X) @ 80 = 0200 = 00    ",
        "Disassembly mismatch"
    );
    assert_eq!(line.acc, 0x80, "Accumulator mismatch");
    assert_eq!(line.xreg, 0x00, "X register mismatch");
    assert_eq!(line.yreg, 0x68, "Y register mismatch");
    assert_eq!(line.status, 0xA4, "Status register mismatch");
    assert_eq!(line.stack, 0xFB, "Stack pointer mismatch");
    assert_eq!(line.ppu_col, 66, "PPU column counter mismatch");
    assert_eq!(line.ppu_scanline, 30, "PPU scanline counter mismatch");
    assert_eq!(line.cycle, 3439, "Cycle counter mismatch");
}

fn state(instruction: u32, addr_mode: AddressingMode, instr: Instruction, addr: u16) -> CpuState {
    CpuState {
        acc: 0x80,
        x: 0x00,
        y: 0x68,
        stack: 0xFB,
        pc: 0xD101,
        instruction,
        status: Status { bits: 0xA4 },
        tot_cycles: 3439,
        addr,
        addr_mode,
        instr,
    }
}

#[test]
fn trace_line_reads_back() {
    let s = state(0x0080C1, AddressingMode::IndX, Instruction::CMP, 0x0200);
    let line = format_trace(&s, Peeked { data: 0, pointer_low: 0, pointer_high: 0, column: 0, scanline: 0 });
    assert_eq!(
        line,
        "D101  C1 80     CMP ($80,X) @ 80 = 0200 = 00    A:80 X:00 Y:68 P:A4 SP:FB PPU:  0,  0 CYC:3439"
    );
    let parsed = parse_line(&line);
    assert_eq!(parsed.pc, 0xD101);
    assert_eq!(parsed.instr, "C1 80   ");
    assert_eq!(parsed.disasm, "CMP ($80,X) @ 80 = 0200 = 00    ");
    assert_eq!(parsed.acc, 0x80);
    assert_eq!(parsed.yreg, 0x68);
    assert_eq!(parsed.status, 0xA4);
    assert_eq!(parsed.stack, 0xFB);
    assert_eq!(parsed.ppu_col, 0);
    assert_eq!(parsed.ppu_scanline, 0);
    assert_eq!(parsed.cycle, 3439);
}

#[test]
fn trace_line_of_each_addressing_mode() {
    let peeked = Peeked { data: 0x5A, pointer_low: 0x34, pointer_high: 0x12, column: 0, scanline: 0 };
    let cases: Vec<(u32, AddressingMode, Instruction, u16, &str, &str)> = vec![
        (0xC5F54C, AddressingMode::Abs, Instruction::JMP, 0xC5F5, "4C F5 C5", "JMP $C5F5"),
        (0x06788D, AddressingMode::Abs, Instruction::STA, 0x0678, "8D 78 06", "STA $0678 = 5A"),
        (0x0600BD, AddressingMode::AbsX, Instruction::LDA, 0x0610, "BD 00 06", "LDA $0600,X @ 0610 = 5A"),
        (0x0600B9, AddressingMode::AbsY, Instruction::LDA, 0x0668, "B9 00 06", "LDA $0600,Y @ 0668 = 5A"),
        (0x02006C, AddressingMode::AbsInd, Instruction::JMP, 0xDB7E, "6C 00 02", "JMP ($0200) = DB7E"),
        (0x0010A9, AddressingMode::Imm, Instruction::LDA, 0x0000, "A9 10", "LDA #$10"),
        (0x001085, AddressingMode::ZP, Instruction::STA, 0x0010, "85 10", "STA $10 = 5A"),
        (0x0010B5, AddressingMode::ZPX, Instruction::LDA, 0x0015, "B5 10", "LDA $10,X @ 15 = 5A"),
        (0x0010B6, AddressingMode::ZPY, Instruction::LDX, 0x0078, "B6 10", "LDX $10,Y @ 78 = 5A"),
        (0x0000EA, AddressingMode::Impl, Instruction::NOP, 0x0000, "EA", "NOP"),
        (0x0004D0, AddressingMode::Rel, Instruction::BNE, 0xD107, "D0 04", "BNE $D107"),
        (0x00000A, AddressingMode::Accum, Instruction::ASL, 0x0000, "0A", "ASL A"),
        (0x0080A1, AddressingMode::IndX, Instruction::LDA, 0x0200, "A1 80", "LDA ($80,X) @ 80 = 0200 = 5A"),
        (0x0089B1, AddressingMode::IndY, Instruction::LDA, 0x129C, "B1 89", "LDA ($89),Y = 1234 @ 129C = 5A"),
    ];
    for (word, mode, instr, addr, bytes, disasm) in cases {
        let line = format_trace(&state(word, mode, instr, addr), peeked);
        let expected = format!(
            "D101  {:8}  {:32}A:80 X:00 Y:68 P:A4 SP:FB PPU:  0,  0 CYC:3439",
            bytes, disasm
        );
        assert_eq!(line, expected);
    }
}

#[test]
fn cycle_count_prints_in_decimal() {
    let mut s = state(0x0000EA, AddressingMode::Impl, Instruction::NOP, 0);
    s.tot_cycles = 7;
    let peeked = Peeked { data: 0, pointer_low: 0, pointer_high: 0, column: 0, scanline: 0 };
    assert!(format_trace(&s, peeked).ends_with(" CYC:7"));
    s.tot_cycles = 0;
    assert!(format_trace(&s, peeked).ends_with(" CYC:0"));
    s.tot_cycles = 4294967295;
    assert!(format_trace(&s, peeked).ends_with(" CYC:4294967295"));
    s.tot_cycles = 10;
    assert!(format_trace(&s, peeked).ends_with(" CYC:10"));
}

#[test]
fn picture_processor_position_is_right_aligned() {
    let s = state(0x0080C1, AddressingMode::IndX, Instruction::CMP, 0x0200);
    let peeked = Peeked { data: 0, pointer_low: 0, pointer_high: 0, column: 66, scanline: 30 };
    let line = format_trace(&s, peeked);
    assert_eq!(
        line,
        "D101  C1 80     CMP ($80,X) @ 80 = 0200 = 00    A:80 X:00 Y:68 P:A4 SP:FB PPU: 66, 30 CYC:3439"
    );
    let parsed = parse_line(&line);
    assert_eq!(parsed.ppu_col, 66);
    assert_eq!(parsed.ppu_scanline, 30);
    let peeked = Peeked { data: 0, pointer_low: 0, pointer_high: 0, column: 340, scanline: 7 };
    assert!(format_trace(&s, peeked).ends_with(" PPU:340,  7 CYC:3439"));
}

/// Compares everything but the place of the picture processor, which stands
/// still while the processor is stepped alone.
fn assert_logs_eq(left: &EmulatorState, right: &EmulatorState) {
    assert_eq!(left.pc, right.pc, "Program counter mismatch");
    assert_eq!(left.instr, right.instr, "Instruction mismatch");
    assert_eq!(left.disasm, right.disasm, "Disassembly mismatch");
    assert_eq!(left.acc, right.acc, "Accumulator mismatch");
    assert_eq!(left.xreg, right.xreg, "X register mismatch");
    assert_eq!(left.yreg, right.yreg, "Y register mismatch");
    assert_eq!(left.status, right.status, "Status register mismatch");
    assert_eq!(left.stack, right.stack, "Stack pointer mismatch");
    assert_eq!(left.cycle, right.cycle, "Cycle counter mismatch");
}

#[test]
fn trace_matches_a_reference_log() {
    let gold_log = [
        "C000  4C F5 C5  JMP $C5F5                       A:00 X:00 Y:00 P:24 SP:FD PPU:  0, 21 CYC:7",
        "C5F5  A2 00     LDX #$00                        A:00 X:00 Y:00 P:24 SP:FD PPU:  0, 30 CYC:10",
        "C5F7  86 00     STX $00 = 00                    A:00 X:00 Y:00 P:26 SP:FD PPU:  0, 36 CYC:12",
        "C5F9  86 10     STX $10 = 00                    A:00 X:00 Y:00 P:26 SP:FD PPU:  0, 45 CYC:15",
        "C5FB  86 11     STX $11 = 00                    A:00 X:00 Y:00 P:26 SP:FD PPU:  0, 54 CYC:18",
        "C5FD  20 2D C7  JSR $C72D                       A:00 X:00 Y:00 P:26 SP:FD PPU:  0, 63 CYC:21",
        "C72D  EA        NOP                             A:00 X:00 Y:00 P:26 SP:FB PPU:  0, 81 CYC:27",
        "C72E  38        SEC                             A:00 X:00 Y:00 P:26 SP:FB PPU:  0, 87 CYC:29",
        "C72F  B0 04     BCS $C735                       A:00 X:00 Y:00 P:27 SP:FB PPU:  0, 93 CYC:31",
        "C735  EA        NOP                             A:00 X:00 Y:00 P:27 SP:FB PPU:  0,102 CYC:34",
        "C736  18        CLC                             A:00 X:00 Y:00 P:27 SP:FB PPU:  0,108 CYC:36",
        "C737  B0 03     BCS $C73C                       A:00 X:00 Y:00 P:26 SP:FB PPU:  0,114 CYC:38",
        "C739  4C 40 C7  JMP $C740                       A:00 X:00 Y:00 P:26 SP:FB PPU:  0,120 CYC:40",
    ];
    let mut prg = vec![0u8; 0x4000];
    prg[0x0000..0x0003].copy_from_slice(&[0x4C, 0xF5, 0xC5]);
    prg[0x05F5..0x0600].copy_from_slice(&[
        0xA2, 0x00, 0x86, 0x00, 0x86, 0x10, 0x86, 0x11, 0x20, 0x2D, 0xC7,
    ]);
    prg[0x072D..0x073C].copy_from_slice(&[
        0xEA, 0x38, 0xB0, 0x04, 0x00, 0x00, 0x00, 0x00, 0xEA, 0x18, 0xB0, 0x03, 0x4C, 0x40, 0xC7,
    ]);
    prg[0x3FFC] = 0x00;
    prg[0x3FFD] = 0xC0;
    let mut buf = vec![0x4E, 0x45, 0x53, 0x1A, 1, 1, 0, 0];
    buf.extend_from_slice(&[0u8; 8]);
    buf.extend_from_slice(&prg);
    buf.extend_from_slice(&[0u8; 0x2000]);
    let mut nes = Nes::new_from_buf(&buf).ok().unwrap();
    nes.cpu.state.pc = 0xC000;
    for gold_line in gold_log {
        let raw_log = nes.dbg_step_cpu();
        let log = parse_line(&raw_log);
        let gold = parse_line(gold_line);
        assert_logs_eq(&log, &gold);
    }
}

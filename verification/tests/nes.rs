//! The console: bus routing, open bus, sprite memory transfer and the master
//! clock.
use defenestrate::devices::bus::cpu_memory_map::{match_addr, Device};
use defenestrate::devices::bus::{Bus, BusDevice, BusPeekResult, Motherboard, Range};
use defenestrate::devices::cartridge::nrom::NROMCartridge;
use defenestrate::devices::cartridge::utils::WithCartridge;
use defenestrate::devices::cartridge::RomError;
use defenestrate::devices::cpu::cpu::WithCpu;
use defenestrate::devices::mem::Ram;
use defenestrate::devices::nes::Nes;
use defenestrate::devices::ppu::ppu::WithPpu;

fn image(program: &[u8], nmi: u16, reset: u16) -> Vec<u8> {
    let mut buf = vec![0x4E, 0x45, 0x53, 0x1A, 1, 1, 0, 0];
    buf.extend_from_slice(&[0u8; 8]);
    let mut prg = vec![0xEAu8; 0x4000];
    prg[..program.len()].copy_from_slice(program);
    prg[0x3FFA] = nmi as u8;
    prg[0x3FFB] = (nmi >> 8) as u8;
    prg[0x3FFC] = reset as u8;
    prg[0x3FFD] = (reset >> 8) as u8;
    buf.extend_from_slice(&prg);
    buf.extend_from_slice(&[0u8; 0x2000]);
    buf
}

#[test]
fn constructs_nes() {
    let cart = NROMCartridge::of_zeros();
    // just testing that it doesn't fault
    let _nes = Nes::new(cart);
}

#[test]
fn advances_emu() {
    let cart = NROMCartridge::of_zeros();
    let mut nes = Nes::new(cart);
    // again testing that it doesn't fault
    nes.dbg_step_cpu();
}

#[test]
fn rejects_a_bad_image() {
    assert_eq!(Nes::new_from_buf(&[]).err(), Some(RomError::Truncated));
    let mut buf = image(&[], 0, 0x8000);
    buf[0] = 0x00;
    assert_eq!(Nes::new_from_buf(&buf).err(), Some(RomError::BadMagic));
    let mut buf = image(&[], 0, 0x8000);
    buf[6] = 0x20;
    assert_eq!(Nes::new_from_buf(&buf).err(), Some(RomError::UnsupportedMapper(2)));
}

#[test]
fn routes_addresses_to_devices() {
    assert_eq!(match_addr(0x0000), (Device::RAM, 0x0000));
    assert_eq!(match_addr(0x07FF), (Device::RAM, 0x07FF));
    assert_eq!(match_addr(0x0800), (Device::RAM, 0x0000));
    assert_eq!(match_addr(0x1FFF), (Device::RAM, 0x07FF));
    assert_eq!(match_addr(0x2000), (Device::PPUControl, 0));
    assert_eq!(match_addr(0x2007), (Device::PPUControl, 7));
    assert_eq!(match_addr(0x2008), (Device::PPUControl, 0));
    assert_eq!(match_addr(0x3FFF), (Device::PPUControl, 7));
    assert_eq!(match_addr(0x4000), (Device::Unmapped, 0x4000));
    assert_eq!(match_addr(0x4014), (Device::OamDma, 0));
    assert_eq!(match_addr(0x401F), (Device::Unmapped, 0x401F));
    assert_eq!(match_addr(0x4020), (Device::Cartridge, 0x0000));
    assert_eq!(match_addr(0x8000), (Device::Cartridge, 0x3FE0));
    assert_eq!(match_addr(0xFFFF), (Device::Cartridge, 0xBFDF));
}

#[test]
fn ranges_map_addresses() {
    let range = Range::new(0x2000, 0x3FFF, 0x0007);
    assert_eq!(range.map(0x1FFF), None);
    assert_eq!(range.map(0x2000), Some(0));
    assert_eq!(range.map(0x200A), Some(2));
    assert_eq!(range.map(0x3FFF), Some(7));
    assert_eq!(range.map(0x4000), None);
    let range = Range::new_unmasked(0x4020, 0xFFFF);
    assert_eq!(range.map(0x4020), Some(0));
    assert_eq!(range.map(0xFFFF), Some(0xBFDF));
    assert_eq!(range.map(0x401F), None);
}

#[test]
fn peek_results() {
    assert_eq!(BusPeekResult::Result(7).unwrap(9), 7);
    assert_eq!(BusPeekResult::Unmapped.unwrap(9), 9);
    assert_eq!(BusPeekResult::MutableRead.unwrap(9), 9);
    assert_eq!(BusPeekResult::Result(7).to_optional(), Some(7));
    assert_eq!(BusPeekResult::Unmapped.to_optional(), None);
    assert_eq!(BusPeekResult::MutableRead.to_optional(), None);
}

#[test]
fn ram_is_mirrored_three_times() {
    let mut nes = Nes::new(NROMCartridge::of_zeros());
    for (addr, data) in [(0x0000u16, 0x11u8), (0x0123, 0x22), (0x07FF, 0x33)] {
        for from in 0..4u16 {
            nes.write(addr + from * 0x0800, data.wrapping_add(from as u8));
            for to in 0..4u16 {
                assert_eq!(nes.read(addr + to * 0x0800), data.wrapping_add(from as u8));
                assert_eq!(nes.peek(addr + to * 0x0800), Some(data.wrapping_add(from as u8)));
            }
        }
    }
    assert_eq!(nes.read(0x0001), 0);
}

#[test]
fn unmapped_reads_return_the_last_byte() {
    let mut nes = Nes::new_from_buf(&image(&[0x4C], 0, 0x8000)).ok().unwrap();
    nes.write(0x0010, 0x5A);
    assert_eq!(nes.read(0x0010), 0x5A);
    assert_eq!(nes.read(0x4000), 0x5A);
    assert_eq!(nes.read(0x4014), 0x5A);
    assert_eq!(nes.read(0x401F), 0x5A);
    assert_eq!(nes.read(0x8000), 0x4C);
    assert_eq!(nes.read(0x4017), 0x4C);
    // the cartridge answers nothing below $8000
    assert_eq!(nes.read(0x4020), 0x4C);
    assert_eq!(nes.read(0x7FFF), 0x4C);
    // writes are not latched, whether or not anything takes them
    nes.write(0x4000, 0x77);
    assert_eq!(nes.read(0x4001), 0x4C);
    nes.write(0x0010, 0x78);
    assert_eq!(nes.read(0x4001), 0x4C);
    nes.write(0x2001, 0x00);
    assert_eq!(nes.read(0x4001), 0x4C);
    assert_eq!(nes.last_bus_value, 0x4C);
    assert_eq!(nes.read(0x0010), 0x78);
    assert_eq!(nes.read(0x4001), 0x78);
    assert_eq!(nes.peek(0x4000), None);
    assert_eq!(nes.peek(0x2002), None);
    assert_eq!(nes.peek(0x6000), None);
    assert_eq!(nes.peek(0x8000), Some(0x4C));
}

#[test]
fn program_memory_ignores_writes() {
    let mut nes = Nes::new_from_buf(&image(&[0x4C], 0, 0x8000)).ok().unwrap();
    nes.write(0x8000, 0x00);
    assert_eq!(nes.read(0x8000), 0x4C);
    assert_eq!(nes.read(0xC000), 0x4C);
}

#[test]
fn ports_are_mirrored_every_eight_bytes() {
    let mut nes = Nes::new(NROMCartridge::of_zeros());
    nes.write(0x2001, 0x1E);
    assert_eq!(nes.ppu().state.mask, 0x1E);
    nes.write(0x3FF9, 0x08);
    assert_eq!(nes.ppu().state.mask, 0x08);
    nes.write(0x2006, 0x3F);
    nes.write(0x2006, 0x10);
    nes.write(0x2007, 0x3F);
    nes.write(0x2006, 0x3F);
    nes.write(0x2006, 0x00);
    assert_eq!(nes.read(0x2007), 0x3F);
}

#[test]
fn oam_dma() {
    let mut nes = Nes::new(NROMCartridge::of_zeros());
    for i in 0..256u16 {
        nes.write(0x0200 + i, i as u8);
    }
    nes.write(0x2003, 0x00);
    // power-on leaves the cycle count at 7: an odd cycle
    assert_eq!(nes.cpu().state.tot_cycles, 7);
    nes.write(0x4014, 0x02);
    for i in 0..256usize {
        assert_eq!(nes.ppu().state.oam[i], i as u8);
    }
    assert_eq!(nes.dma_cycles, 514);
    nes.cpu_mut().state.tot_cycles = 8;
    nes.dma_cycles = 0;
    nes.write(0x4014, 0x02);
    assert_eq!(nes.dma_cycles, 513);
}

#[test]
fn oam_dma_starts_at_the_sprite_address_and_stalls_the_processor() {
    // LDA #$02; STA $4014
    let mut nes = Nes::new_from_buf(&image(&[0xA9, 0x02, 0x8D, 0x14, 0x40], 0, 0x8000))
        .ok()
        .unwrap();
    for i in 0..256u16 {
        nes.write(0x0200 + i, i as u8);
    }
    nes.write(0x2003, 0x10);
    nes.dbg_step_cpu();
    let before = nes.cpu().state.tot_cycles;
    assert_eq!(before, 9);
    nes.dbg_step_cpu();
    assert_eq!(nes.ppu().state.oam[0x10], 0x00);
    assert_eq!(nes.ppu().state.oam[0x11], 0x01);
    assert_eq!(nes.ppu().state.oam[0x0F], 0xFF);
    assert_eq!(nes.ppu().state.oam_addr, 0x10);
    assert_eq!(nes.cpu().state.tot_cycles - before, 4 + 514);
    assert_eq!(nes.dma_cycles, 0);
}

#[test]
fn a_frame_takes_89342_dots() {
    let mut nes = Nes::new(NROMCartridge::of_zeros());
    assert_eq!(nes.tick_frame().len(), 256 * 240 * 3);
    assert_eq!(nes.cycles, 89342);
    nes.tick_frame();
    assert_eq!(nes.cycles, 2 * 89342);
    // from the middle of a frame, only the rest of the frame is run
    for _ in 0..1000 {
        nes.tick();
    }
    nes.tick_frame();
    assert_eq!(nes.cycles, 3 * 89342);
}

#[test]
fn the_processor_runs_on_every_third_dot() {
    // an endless loop: JMP $8000
    let mut nes = Nes::new_from_buf(&image(&[0x4C, 0x00, 0x80], 0, 0x8000)).ok().unwrap();
    nes.tick_frame();
    // of 29780 turns, every fourth is spent on finding the processor idle
    let cycles = nes.cpu().state.tot_cycles - 7;
    assert_eq!(cycles, 29780 / 4 * 3);
    assert_eq!(89342 / 3, 29780);
}

#[test]
fn master_counter_starts_over_at_a_multiple_of_three() {
    let mut nes = Nes::new(NROMCartridge::of_zeros());
    nes.cycles = 0xFFFF_FFFD;
    nes.tick();
    assert_eq!(nes.cycles, 0xFFFF_FFFE);
    nes.tick();
    assert_eq!(nes.cycles, 0);
    nes.tick();
    assert_eq!(nes.cycles, 1);
}

#[test]
fn vblank_nmi_reaches_the_processor() {
    // $8000: JMP $8000; NMI handler at $9000
    let mut nes = Nes::new_from_buf(&image(&[0x4C, 0x00, 0x80], 0x9000, 0x8000)).ok().unwrap();
    // the status register powers on with the flag set: read it away first
    assert_eq!(nes.read(0x2002) & 0x80, 0x80);
    nes.write(0x2000, 0x80);
    assert!(!nes.ppu().is_vblank());
    let mut entered = false;
    for _ in 0..89342 {
        nes.tick();
        if nes.cpu().state.pc >= 0x9000 && nes.cpu().state.pc < 0x9010 {
            entered = true;
            break;
        }
    }
    assert!(entered);
    assert!(nes.ppu().state.scanline >= 241);
    assert!(!nes.ppu().is_vblank());
    assert_eq!(nes.cpu().state.stack, 0xFA);
}

#[test]
fn debug_data() {
    let mut nes = Nes::new(NROMCartridge::of_zeros());
    nes.write(0x2006, 0x20);
    nes.write(0x2006, 0x05);
    nes.write(0x2007, 0x42);
    nes.write(0x2006, 0x3F);
    nes.write(0x2006, 0x01);
    nes.write(0x2007, 0x2A);
    let (nametables, palette, chr) = nes.dump_debug_data();
    assert_eq!(nametables.len(), 0x800);
    assert_eq!(nametables[5], 0x42);
    assert_eq!(palette.len(), 32);
    assert_eq!(palette[1], 0x2A);
    assert_eq!(chr.len(), 0x2000);
    assert_eq!(nes.cart().nametable[5], 0x42);
    nes.cart_mut().nametable[5] = 0x43;
    nes.ppu_mut().state.mask = 0x08;
    assert_eq!(nes.dump_debug_data().0[5], 0x43);
}

#[test]
fn plain_memory_device() {
    let mut ram = Ram::new(16);
    assert_eq!(ram.len(), 16);
    assert_eq!(ram.peek(3), BusPeekResult::Result(0));
    ram.write(3, 0x99);
    assert_eq!(ram.read(3, 0), 0x99);
    assert_eq!(ram.peek(16), BusPeekResult::Unmapped);
    assert_eq!(ram.read(16, 0x55), 0x55);
    ram.write(16, 0x11);
    let ram = Ram::new_from_buf(4, &[1, 2, 3, 4]);
    assert_eq!(ram.peek(2), BusPeekResult::Result(3));
    assert_eq!(ram.peek(4), BusPeekResult::Unmapped);
    let mut bus = Bus::new();
    bus.map_device(Ram::new(0x800), 0x0000, 0x1FFF, 0x07FF);
    bus.write(0x0801, 0x42);
    assert_eq!(bus.read(0x1801), 0x42);
    assert_eq!(bus.read(0x2000), 0x42);
}

#[test]
fn swapping_the_cartridge_resets_the_processor() {
    let mut nes = Nes::new_from_buf(&image(&[0x4C], 0, 0x8000)).ok().unwrap();
    nes.write(0x0010, 0x77);
    let other = defenestrate::devices::cartridge::from_rom(&image(&[0xA9], 0, 0x8123)).ok().unwrap();
    let first = nes.load_cart(other);
    assert_eq!(first.prg[0], 0x4C);
    assert_eq!(nes.cpu().state.pc, 0x8123);
    assert_eq!(nes.cpu().state.stack, 0xFA);
    assert_eq!(nes.read(0x8000), 0xA9);
    assert_eq!(nes.peek(0x0010), Some(0x77));
    let second = nes.load_cart_without_reset(first);
    assert_eq!(second.prg[0], 0xA9);
    assert_eq!(nes.cpu().state.pc, 0x8123);
    assert_eq!(nes.read(0x8000), 0x4C);
}

#[test]
fn picture_of_character_memory() {
    let mut buf = image(&[], 0, 0x8000);
    let chr = 16 + 0x4000;
    // tile 0, pixel row 0: colours 3 2 1 0 0 0 0 0
    buf[chr] = 0b1010_0000;
    buf[chr + 8] = 0b1100_0000;
    // tile 17 (second row of tiles, second tile), pixel row 3: colour 1 at the right edge
    buf[chr + 0x110 + 3] = 0b0000_0001;
    let mut nes = Nes::new_from_buf(&buf).ok().unwrap();
    let grey = nes.get_chr(false);
    assert_eq!(grey.len(), 256 * 128 * 3);
    assert_eq!(&grey[0..12], &[0xF8, 0xF8, 0xF8, 0xBC, 0xBC, 0xBC, 0x7C, 0x7C, 0x7C, 0, 0, 0]);
    let at = ((8 + 3) * 128 + 8 + 7) * 3;
    assert_eq!(&grey[at..at + 3], &[0x7C, 0x7C, 0x7C]);
    assert_eq!(&grey[at - 3..at], &[0, 0, 0]);
    nes.write(0x2006, 0x3F);
    nes.write(0x2006, 0x01);
    nes.write(0x2007, 0x21);
    let colour = nes.get_chr(true);
    assert_eq!(&colour[at..at + 3], &[93, 179, 255]);
    assert_eq!(&colour[9..12], &[101, 101, 101]);
}

#[test]
fn picture_of_the_palette() {
    let mut nes = Nes::new(NROMCartridge::of_zeros());
    nes.write(0x2006, 0x3F);
    nes.write(0x2006, 0x02);
    nes.write(0x2007, 0x21);
    let strip = nes.get_palletes();
    assert_eq!(strip.len(), 128 * 2 * 3);
    assert_eq!(&strip[0..3], &[101, 101, 101]);
    for column in 8..12 {
        assert_eq!(&strip[column * 3..column * 3 + 3], &[93, 179, 255]);
        assert_eq!(&strip[(128 + column) * 3..(128 + column) * 3 + 3], &[93, 179, 255]);
    }
    assert_eq!(&strip[12 * 3..12 * 3 + 3], &[101, 101, 101]);
}

#[test]
fn status_line() {
    let nes = Nes::new_from_buf(&image(&[0x4C], 0, 0xC000)).ok().unwrap();
    assert_eq!(
        nes.get_status(),
        "C000  EA        NOP                             A:00 X:00 Y:00 P:24 SP:FD PPU:  0,  0 CYC:7"
    );
}

#[test]
fn trace_shows_where_the_picture_processor_stands() {
    let mut nes = Nes::new_from_buf(&image(&[0x4C, 0x00, 0x80], 0, 0x8000)).ok().unwrap();
    for _ in 0..(341 * 5 + 17) {
        nes.tick();
    }
    let line = nes.get_status();
    assert!(line.contains(" PPU: 17,  5 CYC:"), "{}", line);
    let line = nes.dbg_step_cpu();
    assert!(line.contains(" PPU: 17,  5 CYC:"), "{}", line);
}

#[test]
fn steps_one_instruction_from_a_chosen_address() {
    let mut nes = Nes::new_from_buf(&image(&[0xEA, 0xA9, 0x42], 0, 0x8000)).ok().unwrap();
    nes.set_pc(0x8001);
    nes.step_emulator();
    assert_eq!(nes.cpu().state.acc, 0x42);
    assert_eq!(nes.cpu().state.pc, 0x8003);
    assert_eq!(nes.cpu().state.tot_cycles, 9);
    assert_eq!(nes.cpu().cycles, 0);
    assert_eq!((nes.ppu().state.scanline, nes.ppu().state.pixel_cycle), (0, 0));
}

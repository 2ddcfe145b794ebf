//! The picture processor: ports, palette, address registers and the dot
//! clock.
use defenestrate::devices::bus::{BusDevice, BusPeekResult};
use defenestrate::devices::cartridge::nrom::NROMCartridge;
use defenestrate::devices::cartridge::utils::ICartridge;
use defenestrate::devices::ppu::ppu::{palette_index, Ppu2C02, PpuPaletteRam};
use defenestrate::devices::ppu::structs::{
    PpuControlPorts, PpuMaskFlags, PpuStatusFlags, PALLETE_TABLE,
};

fn parts() -> (Ppu2C02, NROMCartridge) {
    (Ppu2C02::new(), NROMCartridge::of_zeros())
}

fn set_address(ppu: &mut Ppu2C02, cart: &mut NROMCartridge, addr: u16) {
    ppu.control_port_write(cart, PpuControlPorts::PPUADDR, (addr >> 8) as u8);
    ppu.control_port_write(cart, PpuControlPorts::PPUADDR, addr as u8);
}

fn clock_to(ppu: &mut Ppu2C02, cart: &mut NROMCartridge, scanline: u16, dot: u16) {
    while ppu.state.scanline != scanline || ppu.state.pixel_cycle != dot {
        ppu.clock(cart);
    }
}

#[test]
fn picture_processor_power_on_state() {
    let ppu = Ppu2C02::new();
    assert_eq!(ppu.state.status, 0xA0);
    assert_eq!((ppu.state.scanline, ppu.state.pixel_cycle), (0, 0));
    assert!(!ppu.is_frame_ready());
    assert!(!ppu.is_vblank());
    assert!(!ppu.is_rendering());
    assert_eq!(ppu.get_buffer().len(), 256 * 240 * 3);
    assert_eq!(ppu.dump_palettes(), &[0u8; 32]);
}

#[test]
fn palette_mirror() {
    let (mut ppu, mut cart) = parts();
    set_address(&mut ppu, &mut cart, 0x3F10);
    ppu.control_port_write(&mut cart, PpuControlPorts::PPUDATA, 0x3F);
    set_address(&mut ppu, &mut cart, 0x3F00);
    assert_eq!(ppu.control_port_read(&mut cart, PpuControlPorts::PPUDATA), 0x3F);
    assert_eq!(ppu.dump_palettes()[0], 0x3F);
}

#[test]
fn palette_aliases_read_and_write_both_ways() {
    for alias in [0x10u16, 0x14, 0x18, 0x1C] {
        let mut palette = PpuPaletteRam::new();
        palette.write(alias, 0x21);
        assert_eq!(palette.peek(alias - 0x10), BusPeekResult::Result(0x21));
        assert_eq!(palette.read(alias, 0), 0x21);
        palette.write(alias - 0x10, 0x15);
        assert_eq!(palette.read(alias, 0), 0x15);
        assert_eq!(palette_index(alias), alias - 0x10);
    }
    let mut palette = PpuPaletteRam::new();
    palette.write(0x11, 0x07);
    assert_eq!(palette.read(0x01, 0xFF), 0x00);
    assert_eq!(palette.read(0x11, 0xFF), 0x07);
    assert_eq!(palette.read(0x31, 0xFF), 0x07);
}

#[test]
fn data_port_reads_are_buffered() {
    let (mut ppu, mut cart) = parts();
    set_address(&mut ppu, &mut cart, 0x2000);
    ppu.control_port_write(&mut cart, PpuControlPorts::PPUDATA, 0x11);
    ppu.control_port_write(&mut cart, PpuControlPorts::PPUDATA, 0x22);
    ppu.control_port_write(&mut cart, PpuControlPorts::PPUDATA, 0x33);
    set_address(&mut ppu, &mut cart, 0x2000);
    // the first read returns what was in the buffer before
    assert_eq!(ppu.control_port_read(&mut cart, PpuControlPorts::PPUDATA), 0x00);
    assert_eq!(ppu.control_port_read(&mut cart, PpuControlPorts::PPUDATA), 0x11);
    assert_eq!(ppu.control_port_read(&mut cart, PpuControlPorts::PPUDATA), 0x22);
    assert_eq!(ppu.control_port_read(&mut cart, PpuControlPorts::PPUDATA), 0x33);
    assert_eq!(ppu.state.v, 0x2004);
}

#[test]
fn data_port_steps_by_one_or_by_thirty_two() {
    let (mut ppu, mut cart) = parts();
    set_address(&mut ppu, &mut cart, 0x2155);
    assert_eq!(ppu.state.v, 0x2155);
    assert_eq!(ppu.state.t, 0x2155);
    ppu.control_port_read(&mut cart, PpuControlPorts::PPUDATA);
    assert_eq!(ppu.state.v, 0x2156);
    ppu.control_port_write(&mut cart, PpuControlPorts::PPUCTRL, 0x04);
    set_address(&mut ppu, &mut cart, 0x2155);
    ppu.control_port_read(&mut cart, PpuControlPorts::PPUDATA);
    assert_eq!(ppu.state.v, 0x2175);
    ppu.control_port_write(&mut cart, PpuControlPorts::PPUDATA, 0);
    assert_eq!(ppu.state.v, 0x2195);
    // the high two bits of the first byte are dropped
    set_address(&mut ppu, &mut cart, 0xFFFF);
    assert_eq!(ppu.state.v, 0x3FFF);
    // and the address stays within fifteen bits
    ppu.state.v = 0x7FFF;
    ppu.control_port_read(&mut cart, PpuControlPorts::PPUDATA);
    assert_eq!(ppu.state.v, 0x001F);
}

#[test]
fn status_read_clears_vblank_and_the_write_latch() {
    let (mut ppu, mut cart) = parts();
    ppu.control_port_write(&mut cart, PpuControlPorts::PPUADDR, 0x21);
    assert!(ppu.state.w);
    ppu.state.status = 0xE0;
    ppu.state.vblank_nmi_ready = true;
    // the low five bits come from the last byte on the ports
    assert_eq!(ppu.control_port_read(&mut cart, PpuControlPorts::PPUSTATUS), 0xE1);
    assert_eq!(ppu.state.status, 0x60);
    assert!(!ppu.state.w);
    assert!(!ppu.is_vblank());
    assert_eq!(ppu.control_port_read(&mut cart, PpuControlPorts::PPUSTATUS), 0x61);
}

#[test]
fn write_only_ports_read_as_open_bus() {
    let (mut ppu, mut cart) = parts();
    ppu.control_port_write(&mut cart, PpuControlPorts::PPUMASK, 0x1E);
    assert_eq!(ppu.state.mask, 0x1E);
    for port in [0u16, 1, 3, 5, 6] {
        assert_eq!(ppu.control_port_read(&mut cart, port), 0x1E);
    }
    // a write to the status port only leaves its byte on the ports
    ppu.control_port_write(&mut cart, PpuControlPorts::PPUSTATUS, 0x55);
    assert_eq!(ppu.state.status, 0xA0);
    assert_eq!(ppu.control_port_read(&mut cart, PpuControlPorts::PPUCTRL), 0x55);
    ppu.control_port_write(&mut cart, 9, 0x66);
    assert_eq!(ppu.control_port_read(&mut cart, 9), 0x66);
}

#[test]
fn sprite_memory_ports() {
    let (mut ppu, mut cart) = parts();
    ppu.control_port_write(&mut cart, PpuControlPorts::OAMADDR, 0xFE);
    ppu.control_port_write(&mut cart, PpuControlPorts::OAMDATA, 0x11);
    ppu.control_port_write(&mut cart, PpuControlPorts::OAMDATA, 0x22);
    ppu.control_port_write(&mut cart, PpuControlPorts::OAMDATA, 0x33);
    assert_eq!(ppu.state.oam_addr, 0x01);
    assert_eq!(ppu.state.oam[0xFE], 0x11);
    assert_eq!(ppu.state.oam[0xFF], 0x22);
    assert_eq!(ppu.state.oam[0x00], 0x33);
    ppu.control_port_write(&mut cart, PpuControlPorts::OAMADDR, 0xFF);
    assert_eq!(ppu.control_port_read(&mut cart, PpuControlPorts::OAMDATA), 0x22);
    assert_eq!(ppu.state.oam_addr, 0xFF);
    ppu.write_oam(0x10, 0x99);
    assert_eq!(ppu.state.oam[0x10], 0x99);
}

#[test]
fn scroll_port_fills_t_and_fine_x() {
    let (mut ppu, mut cart) = parts();
    ppu.control_port_write(&mut cart, PpuControlPorts::PPUSCROLL, 0x7D);
    assert_eq!(ppu.state.x, 5);
    assert_eq!(ppu.state.t, 0x000F);
    assert!(ppu.state.w);
    ppu.control_port_write(&mut cart, PpuControlPorts::PPUSCROLL, 0x5E);
    assert_eq!(ppu.state.t, 0x616F);
    assert!(!ppu.state.w);
    ppu.control_port_write(&mut cart, PpuControlPorts::PPUCTRL, 0x03);
    assert_eq!(ppu.state.t, 0x6D6F);
    assert_eq!(ppu.state.v, 0);
}

#[test]
fn enabling_nmi_during_vblank_raises_it_at_once() {
    let (mut ppu, mut cart) = parts();
    ppu.state.status = 0x80;
    ppu.control_port_write(&mut cart, PpuControlPorts::PPUCTRL, 0x80);
    assert!(ppu.is_vblank());
    ppu.ack_vblank();
    assert!(!ppu.is_vblank());
    // every write that asks for the NMI while the flag is set raises it
    ppu.control_port_write(&mut cart, PpuControlPorts::PPUCTRL, 0x80);
    assert!(ppu.is_vblank());
    ppu.ack_vblank();
    // a write that does not ask for it raises nothing
    ppu.control_port_write(&mut cart, PpuControlPorts::PPUCTRL, 0x00);
    assert!(!ppu.is_vblank());
    // once the flag was read away, nothing is raised
    ppu.control_port_read(&mut cart, PpuControlPorts::PPUSTATUS);
    ppu.control_port_write(&mut cart, PpuControlPorts::PPUCTRL, 0x80);
    assert!(!ppu.is_vblank());
    // outside vertical blanking nothing is raised
    let (mut ppu, mut cart) = parts();
    ppu.state.status = 0x00;
    ppu.control_port_write(&mut cart, PpuControlPorts::PPUCTRL, 0x80);
    assert!(!ppu.is_vblank());
}

#[test]
fn a_frame_has_89342_dots() {
    let (mut ppu, mut cart) = parts();
    let mut dots = 0u32;
    loop {
        ppu.clock(&mut cart);
        dots += 1;
        assert!(ppu.state.pixel_cycle <= 340);
        assert!(ppu.state.scanline <= 261);
        if ppu.is_frame_ready() {
            break;
        }
    }
    assert_eq!(dots, 262 * 341);
    assert_eq!(dots, 89342);
    assert_eq!((ppu.state.scanline, ppu.state.pixel_cycle), (0, 0));
    ppu.clock(&mut cart);
    assert!(!ppu.is_frame_ready());
}

#[test]
fn vblank_begins_at_scanline_241_dot_1_and_ends_on_the_pre_render_line() {
    let (mut ppu, mut cart) = parts();
    ppu.state.status = 0x00;
    clock_to(&mut ppu, &mut cart, 241, 1);
    assert_eq!(ppu.state.status & PpuStatusFlags::VBLANK, 0);
    ppu.clock(&mut cart);
    assert_eq!(ppu.state.status & PpuStatusFlags::VBLANK, PpuStatusFlags::VBLANK);
    assert!(!ppu.is_vblank());
    ppu.state.status |= PpuStatusFlags::SPRITE_0_HIT | PpuStatusFlags::SPRITE_OVERFLOW;
    clock_to(&mut ppu, &mut cart, 261, 1);
    assert_eq!(ppu.state.status & 0xE0, 0xE0);
    ppu.clock(&mut cart);
    assert_eq!(ppu.state.status & 0xE0, 0x00);
}

#[test]
fn vblank_raises_nmi_where_enabled() {
    let (mut ppu, mut cart) = parts();
    ppu.control_port_write(&mut cart, PpuControlPorts::PPUCTRL, 0x80);
    clock_to(&mut ppu, &mut cart, 241, 2);
    assert!(ppu.is_vblank());
}

#[test]
fn coarse_y_wraps_at_29_and_at_31() {
    let run = |v: u16| -> u16 {
        let (mut ppu, mut cart) = parts();
        ppu.state.mask = PpuMaskFlags::BG_ENABLE;
        ppu.state.scanline = 100;
        ppu.state.pixel_cycle = 256;
        ppu.state.v = v;
        ppu.clock(&mut cart);
        ppu.state.v
    };
    // dot 256 also ends a tile: the tile column moves on from 5 to 6
    // fine Y 7, coarse Y 29: row 0 of the other nametable
    assert_eq!(run(0x7000 | (29 << 5) | 0x0005), 0x0806);
    assert_eq!(run(0x7800 | (29 << 5) | 0x0005), 0x0006);
    // fine Y 7, coarse Y 31: row 0 of the same nametable
    assert_eq!(run(0x7000 | (31 << 5) | 0x0005), 0x0006);
    assert_eq!(run(0x7800 | (31 << 5) | 0x0005), 0x0806);
    // fine Y 7, coarse Y 5: row 6
    assert_eq!(run(0x7000 | (5 << 5)), (6 << 5) | 0x0001);
    // fine Y 3: fine Y 4
    assert_eq!(run(0x3000 | (29 << 5)), 0x4000 | (29 << 5) | 0x0001);
}

#[test]
fn coarse_x_wraps_into_the_next_nametable() {
    let run = |v: u16| -> u16 {
        let (mut ppu, mut cart) = parts();
        ppu.state.mask = PpuMaskFlags::BG_ENABLE;
        ppu.state.scanline = 100;
        ppu.state.pixel_cycle = 8;
        ppu.state.v = v;
        ppu.clock(&mut cart);
        ppu.state.v
    };
    assert_eq!(run(0x0000), 0x0001);
    assert_eq!(run(0x001F), 0x0400);
    assert_eq!(run(0x041F), 0x0000);
    assert_eq!(run(0x7BFF), 0x7FE0);
}

#[test]
fn address_registers_stand_still_while_rendering_is_off() {
    let (mut ppu, mut cart) = parts();
    ppu.state.v = 0x7BFF;
    ppu.state.t = 0x0000;
    for _ in 0..89342 {
        ppu.clock(&mut cart);
        assert_eq!(ppu.state.v, 0x7BFF);
    }
}

#[test]
fn address_registers_keep_fifteen_bits_while_rendering() {
    let (mut ppu, mut cart) = parts();
    ppu.state.mask = PpuMaskFlags::BG_ENABLE | PpuMaskFlags::SPRITE_ENABLE;
    ppu.state.v = 0x7FFF;
    ppu.state.t = 0x7FFF;
    for _ in 0..(2 * 89342) {
        ppu.clock(&mut cart);
        assert!(ppu.state.v <= 0x7FFF);
    }
}

#[test]
fn position_is_reloaded_from_t() {
    let (mut ppu, mut cart) = parts();
    ppu.state.mask = PpuMaskFlags::BG_ENABLE;
    ppu.state.scanline = 10;
    ppu.state.pixel_cycle = 257;
    ppu.state.v = 0x7FFF;
    ppu.state.t = 0x0000;
    ppu.clock(&mut cart);
    assert_eq!(ppu.state.v, 0x7BE0);
    ppu.state.scanline = 261;
    ppu.state.pixel_cycle = 280;
    ppu.state.t = 0x0000;
    ppu.state.v = 0x7FFF;
    ppu.clock(&mut cart);
    assert_eq!(ppu.state.v, 0x041F);
    ppu.state.pixel_cycle = 305;
    ppu.state.v = 0x7FFF;
    ppu.clock(&mut cart);
    assert_eq!(ppu.state.v, 0x7FFF);
}

#[test]
fn backdrop_fills_the_picture_while_rendering_is_off() {
    let (mut ppu, mut cart) = parts();
    set_address(&mut ppu, &mut cart, 0x3F00);
    ppu.control_port_write(&mut cart, PpuControlPorts::PPUDATA, 0x21);
    while !ppu.is_frame_ready() {
        ppu.clock(&mut cart);
    }
    let frame = ppu.get_buffer();
    for (row, column) in [(0usize, 0usize), (0, 4), (10, 100), (239, 255), (120, 3)] {
        let at = (row * 256 + column) * 3;
        assert_eq!(frame[at], PALLETE_TABLE[0x21 * 3]);
        assert_eq!(frame[at + 1], PALLETE_TABLE[0x21 * 3 + 1]);
        assert_eq!(frame[at + 2], PALLETE_TABLE[0x21 * 3 + 2]);
    }
    assert_eq!(PALLETE_TABLE[0x21 * 3], 93);
    assert_eq!(PALLETE_TABLE[0x21 * 3 + 1], 179);
    assert_eq!(PALLETE_TABLE[0x21 * 3 + 2], 255);
}

fn cart_with_solid_tile() -> NROMCartridge {
    // tile 1: every pixel has colour 1; tile 2: every pixel has colour 3
    let mut buf = vec![0x4E, 0x45, 0x53, 0x1A, 1, 1, 0, 0];
    buf.extend_from_slice(&[0u8; 8]);
    buf.extend_from_slice(&[0u8; 0x4000]);
    let mut chr = vec![0u8; 0x2000];
    for row in 0..8 {
        chr[0x10 + row] = 0xFF;
        chr[0x20 + row] = 0xFF;
        chr[0x28 + row] = 0xFF;
    }
    buf.extend_from_slice(&chr);
    defenestrate::devices::cartridge::from_rom(&buf).ok().unwrap()
}

#[test]
fn background_tiles_are_drawn() {
    let mut ppu = Ppu2C02::new();
    let mut cart = cart_with_solid_tile();
    // the whole first nametable shows tile 1, in palette 0
    for i in 0..0x3C0u16 {
        cart.write_chr(0x2000 + i, 1);
    }
    set_address(&mut ppu, &mut cart, 0x3F00);
    ppu.control_port_write(&mut cart, PpuControlPorts::PPUDATA, 0x0F);
    ppu.control_port_write(&mut cart, PpuControlPorts::PPUDATA, 0x30);
    set_address(&mut ppu, &mut cart, 0x0000);
    ppu.control_port_write(&mut cart, PpuControlPorts::PPUMASK, PpuMaskFlags::BG_ENABLE);
    // one frame to fill the pipeline, one to look at
    for _ in 0..2 {
        ppu.clock(&mut cart);
        while !ppu.is_frame_ready() {
            ppu.clock(&mut cart);
        }
    }
    let frame = ppu.get_buffer();
    let at = (100 * 256 + 128) * 3;
    assert_eq!(&frame[at..at + 3], &PALLETE_TABLE[0x30 * 3..0x30 * 3 + 3]);
    assert_eq!(&frame[at..at + 3], &[254, 254, 255]);
}

#[test]
fn ninth_sprite_on_a_line_sets_the_overflow_flag() {
    let (mut ppu, mut cart) = parts();
    for sprite in 0..9usize {
        ppu.write_oam((sprite * 4) as u8, 50);
    }
    for sprite in 9..64usize {
        ppu.write_oam((sprite * 4) as u8, 200);
    }
    ppu.state.status = 0;
    clock_to(&mut ppu, &mut cart, 49, 258);
    assert_eq!(ppu.state.sprite_count, 0);
    assert_eq!(ppu.state.status & PpuStatusFlags::SPRITE_OVERFLOW, 0);
    clock_to(&mut ppu, &mut cart, 50, 258);
    assert_eq!(ppu.state.sprite_count, 8);
    assert_eq!(ppu.state.status & PpuStatusFlags::SPRITE_OVERFLOW, PpuStatusFlags::SPRITE_OVERFLOW);
    assert!(ppu.state.sprite0_on_line);
    // eight sprites on a line do not overflow
    let (mut ppu, mut cart) = parts();
    for sprite in 0..64usize {
        ppu.write_oam((sprite * 4) as u8, if sprite < 8 { 50 } else { 200 });
    }
    ppu.state.status = 0;
    clock_to(&mut ppu, &mut cart, 57, 258);
    assert_eq!(ppu.state.sprite_count, 8);
    assert_eq!(ppu.state.status & PpuStatusFlags::SPRITE_OVERFLOW, 0);
    clock_to(&mut ppu, &mut cart, 58, 258);
    assert_eq!(ppu.state.sprite_count, 0);
}

#[test]
fn sprite_evaluation_copies_the_sprite_into_its_slot() {
    let (mut ppu, mut cart) = parts();
    for sprite in 0..64usize {
        ppu.write_oam((sprite * 4) as u8, 240);
    }
    ppu.write_oam(12, 20);
    ppu.write_oam(13, 0x02);
    ppu.write_oam(14, 0x21);
    ppu.write_oam(15, 0x40);
    clock_to(&mut ppu, &mut cart, 23, 258);
    assert_eq!(ppu.state.sprite_count, 1);
    assert_eq!(&ppu.state.secondary_oam[0..4], &[20, 0x02, 0x21, 0x40]);
    assert_eq!(ppu.state.secondary_oam[4], 0xFF);
    assert_eq!(ppu.state.sprite_x_counters[0], 0x40);
    assert_eq!(ppu.state.sprite_attr_latches[0], 0x21);
    assert!(!ppu.state.sprite0_on_line);
    // sixteen pixels high: the sprite is still in range on its tenth row
    ppu.state.control = 0x20;
    clock_to(&mut ppu, &mut cart, 30, 258);
    assert_eq!(ppu.state.sprite_count, 1);
    ppu.state.control = 0x00;
    clock_to(&mut ppu, &mut cart, 31, 258);
    assert_eq!(ppu.state.sprite_count, 0);
}

#[test]
fn sprite_zero_hit() {
    let mut ppu = Ppu2C02::new();
    let mut cart = cart_with_solid_tile();
    for i in 0..0x3C0u16 {
        cart.write_chr(0x2000 + i, 1);
    }
    for sprite in 0..64usize {
        ppu.write_oam((sprite * 4) as u8, 240);
    }
    ppu.write_oam(0, 100);
    ppu.write_oam(1, 0x02);
    ppu.write_oam(2, 0x00);
    ppu.write_oam(3, 0x80);
    ppu.control_port_write(
        &mut cart,
        PpuControlPorts::PPUMASK,
        PpuMaskFlags::BG_ENABLE | PpuMaskFlags::SPRITE_ENABLE,
    );
    ppu.state.status = 0;
    clock_to(&mut ppu, &mut cart, 100, 0);
    assert_eq!(ppu.state.status & PpuStatusFlags::SPRITE_0_HIT, 0);
    clock_to(&mut ppu, &mut cart, 102, 0);
    assert_eq!(ppu.state.status & PpuStatusFlags::SPRITE_0_HIT, PpuStatusFlags::SPRITE_0_HIT);
}

#[test]
fn repeated_reads_step_through_memory() {
    let (mut ppu, mut cart) = parts();
    for i in 0..8u16 {
        cart.write_chr(0x2000 + i * 32, 0x40 + i as u8);
    }
    ppu.control_port_write(&mut cart, PpuControlPorts::PPUCTRL, 0x04);
    set_address(&mut ppu, &mut cart, 0x2000);
    let mut results = Vec::new();
    for n in 1..=6u16 {
        results.push(ppu.control_port_read(&mut cart, PpuControlPorts::PPUDATA));
        assert_eq!(ppu.state.v, (0x2000 + n * 32) & 0x7FFF);
    }
    // the n-th read returns what lies n - 2 steps from the start
    assert_eq!(&results[1..], &[0x40, 0x41, 0x42, 0x43, 0x44]);
    // the address wraps within fifteen bits
    ppu.state.v = 0x7FF0;
    ppu.control_port_read(&mut cart, PpuControlPorts::PPUDATA);
    assert_eq!(ppu.state.v, 0x0010);
}

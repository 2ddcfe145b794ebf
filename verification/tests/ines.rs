//! The ROM image header and the cartridge built from an image.
use defenestrate::devices::bus::BusPeekResult;
use defenestrate::devices::cartridge::ines::{parse_ines_header, INesFlags6, INesHeader};
use defenestrate::devices::cartridge::nrom::NROMCartridge;
use defenestrate::devices::cartridge::utils::ICartridge;
use defenestrate::devices::cartridge::{from_rom, RomError};

#[test]
fn should_parse_header() {
    const INES_HEADER_DATA: [u8; 16] = [
        0x0, 0x0, 0x0, 0x0, 0x0, 0x1, 0x2, 0x3, 0x4, 0x5, 0x6, 0x0, 0x0, 0x0, 0x0, 0x0,
    ];
    let header = parse_ines_header(&INES_HEADER_DATA);
    assert_eq!(header.prg_size, 1, "PRG size mismatch");
    assert_eq!(header.prg_size, 1, "PRG size mismatch");
    assert_eq!(header.chr_size, 1, "CHR size mismatch");
    assert_eq!(header.flags_6.bits(), 2, "Flags6 mismatch");
    assert_eq!(header.flags_7.bits(), 3, "Flags7 mismatch");
    assert_eq!(header.flags_8, 4, "Flags8 mismatch");
    assert_eq!(header.flags_9, 5, "Flags9 mismatch");
    assert_eq!(header.flags_10, 6, "Flags10 mismatch");
}

#[test]
fn inesheader_decodes_correctly() {
    let ines_header_data = [
        0x0, 0x0, 0x0, 0x0, 0x0, 0x1, 0x2, 0x3, 0x4, 0x5, 0x6, 0x0, 0x0, 0x0, 0x0, 0x0,
    ];

    let header = INesHeader::from_bytes(ines_header_data);
    assert_eq!(header.prg_size, 1, "PRG size mismatch");
    assert_eq!(header.chr_size, 1, "CHR size mismatch");
    assert_eq!(header.flags_6.bits(), 2, "Flags6 mismatch");
    assert_eq!(header.flags_7.bits(), 3, "Flags7 mismatch");
    assert_eq!(header.flags_8, 4, "Flags8 mismatch");
    assert_eq!(header.flags_9, 5, "Flags9 mismatch");
    assert_eq!(header.flags_10, 6, "Flags10 mismatch");
}

fn image(prg_units: u8, chr_units: u8, flags_6: u8, flags_7: u8) -> Vec<u8> {
    let mut buf = vec![0x4E, 0x45, 0x53, 0x1A, prg_units, chr_units, flags_6, flags_7];
    buf.extend_from_slice(&[0u8; 8]);
    if flags_6 & 0x04 != 0 {
        buf.extend_from_slice(&[0xEE; 512]);
    }
    for i in 0..(prg_units as usize * 0x4000) {
        buf.push((i % 251) as u8);
    }
    for i in 0..(chr_units as usize * 0x2000) {
        buf.push((i % 241) as u8);
    }
    buf
}

#[test]
fn mapper_number_joins_both_nibbles() {
    let header = INesHeader::from_bytes([0, 0, 0, 0, 1, 1, 0x40, 0x10, 0, 0, 0, 0, 0, 0, 0, 0]);
    assert_eq!(header.mapper(), 0x14);
    assert!(!header.flags_6.contains(INesFlags6::MIRRORING));
}

#[test]
fn zero_sizes_count_as_one() {
    let header = INesHeader::from_bytes([0; 16]);
    assert_eq!(header.prg_size, 1);
    assert_eq!(header.chr_size, 1);
    assert!(header.chr_ram);
    assert_eq!(header.image_len(), 16 + 0x4000);
    assert_eq!(header.prg_start(), 16);
}

#[test]
fn rejects_short_image() {
    assert_eq!(from_rom(&[0x4E, 0x45, 0x53]).err(), Some(RomError::Truncated));
}

#[test]
fn rejects_wrong_magic() {
    let mut buf = image(1, 1, 0, 0);
    buf[3] = 0x1B;
    assert_eq!(from_rom(&buf).err(), Some(RomError::BadMagic));
}

#[test]
fn rejects_other_mappers() {
    let buf = image(1, 1, 0x10, 0x00);
    assert_eq!(from_rom(&buf).err(), Some(RomError::UnsupportedMapper(1)));
    let buf = image(1, 1, 0x00, 0x40);
    assert_eq!(from_rom(&buf).err(), Some(RomError::UnsupportedMapper(0x40)));
}

#[test]
fn rejects_truncated_memory() {
    let mut buf = image(2, 1, 0, 0);
    buf.pop();
    assert_eq!(from_rom(&buf).err(), Some(RomError::Truncated));
    let buf = image(1, 1, 0, 0);
    assert_eq!(from_rom(&buf[..16 + 0x4000]).err(), Some(RomError::Truncated));
}

#[test]
fn should_mirror_prg_reads_in_16k_image() {
    let buf = image(1, 1, 0, 0);
    let cart = from_rom(&buf).ok().unwrap();
    const NROM_OFFSET: u16 = 0x3FE0;
    let left = cart.peek_prg(0x3FFF + NROM_OFFSET).unwrap(0);
    let right = cart.peek_prg(0x7FFF + NROM_OFFSET).unwrap(0);
    assert_eq!(left, (0x3FFF % 251) as u8);
    assert_eq!(left, right, "Mirrors don't align");
}

#[test]
fn does_not_mirror_32k_image() {
    let buf = image(2, 1, 0, 0);
    let cart = from_rom(&buf).ok().unwrap();
    assert_eq!(cart.peek_prg(0x3FE0), BusPeekResult::Result(0));
    assert_eq!(cart.peek_prg(0x3FE0 + 0x3FFF).unwrap(0), (0x3FFF % 251) as u8);
    assert_eq!(cart.peek_prg(0x3FE0 + 0x7FFF).unwrap(0), (0x7FFF % 251) as u8);
}

#[test]
fn program_memory_is_unmapped_below_8000() {
    let buf = image(1, 1, 0, 0);
    let mut cart = from_rom(&buf).ok().unwrap();
    assert_eq!(cart.peek_prg(0x3FDF), BusPeekResult::Unmapped);
    assert_eq!(cart.peek_prg(0x0000), BusPeekResult::Unmapped);
    assert_eq!(cart.peek_prg(0xBFE0), BusPeekResult::Unmapped);
    assert_eq!(cart.read_prg(0x0000, 0x5A), 0x5A);
}

#[test]
fn should_read_chr_from_image() {
    let buf = image(1, 1, 0, 0);
    let cart = from_rom(&buf).ok().unwrap();
    assert_eq!(cart.peek_chr(0x0020).unwrap(0), 0x20);
    assert_eq!(cart.dump_chr().len(), 0x2000);
    assert_eq!(cart.dump_chr()[0x1FFF], (0x1FFF % 241) as u8);
    assert_eq!(cart.dump_nametables().len(), 0x800);
}

#[test]
fn trainer_is_skipped() {
    let buf = image(1, 1, 0x04, 0);
    let cart = from_rom(&buf).ok().unwrap();
    assert_eq!(cart.peek_prg(0x3FE0 + 5).unwrap(0), 5);
    assert_eq!(cart.peek_chr(7).unwrap(0), 7);
}

#[test]
fn rom_writes_are_dropped() {
    let buf = image(1, 1, 0, 0);
    let mut cart = from_rom(&buf).ok().unwrap();
    cart.write_prg(0x3FE0, 0x99);
    cart.write_chr(0x0010, 0x99);
    assert_eq!(cart.peek_prg(0x3FE0).unwrap(0), 0);
    assert_eq!(cart.peek_chr(0x0010).unwrap(0), 0x10);
}

#[test]
fn character_ram_takes_writes() {
    let buf = image(1, 0, 0, 0);
    let mut cart = from_rom(&buf).ok().unwrap();
    assert_eq!(cart.peek_chr(0x0010).unwrap(1), 0);
    cart.write_chr(0x0010, 0x99);
    assert_eq!(cart.read_chr(0x0010, 0), 0x99);
}

#[test]
fn horizontal_mirroring_pairs_nametables_side_by_side() {
    let buf = image(1, 1, 0, 0);
    let mut cart = from_rom(&buf).ok().unwrap();
    cart.write_chr(0x2005, 0x11);
    cart.write_chr(0x2805, 0x22);
    assert_eq!(cart.peek_chr(0x2405).unwrap(0), 0x11);
    assert_eq!(cart.peek_chr(0x2C05).unwrap(0), 0x22);
    assert_eq!(cart.peek_chr(0x3005).unwrap(0), 0x11);
    assert_eq!(cart.dump_nametables()[0x005], 0x11);
    assert_eq!(cart.dump_nametables()[0x405], 0x22);
}

#[test]
fn vertical_mirroring_pairs_nametables_one_above_the_other() {
    let buf = image(1, 1, 0x01, 0);
    let mut cart = from_rom(&buf).ok().unwrap();
    cart.write_chr(0x2005, 0x11);
    cart.write_chr(0x2405, 0x22);
    assert_eq!(cart.peek_chr(0x2805).unwrap(0), 0x11);
    assert_eq!(cart.peek_chr(0x2C05).unwrap(0), 0x22);
    assert_eq!(cart.dump_nametables()[0x405], 0x22);
}

#[test]
fn cartridge_of_zeros_is_blank() {
    let cart = NROMCartridge::of_zeros();
    assert_eq!(cart.peek_prg(0xBFDF), BusPeekResult::Result(0));
    assert_eq!(cart.peek_chr(0x1FFF), BusPeekResult::Result(0));
}

//! Cartridges: the interface the console sees, the ROM image format, and the
//! one mapper that ships.
use vstd::prelude::*;

pub mod ines;
pub mod nrom;
pub mod utils;

use ines::{parse_ines_header, parse_ines_header_spec, INesHeader, INES_HEADER_LEN};
use nrom::NROMCartridge;

verus! {

/// Why a ROM image was turned down.
#[derive(Debug, Clone, Copy, PartialEq, Eq, Structural)]
pub enum RomError {
    /// The image is shorter than its header, or than the program and
    /// character memory that its header announces
    Truncated,
    /// The image does not begin with `NES` and the byte `$1A`
    BadMagic,
    /// The image asks for a mapper other than mapper 0
    UnsupportedMapper(u8),
}

/// Whether the image begins with the four bytes of the format's signature.
pub open spec fn has_magic(buf: Seq<u8>) -> bool {
    buf.len() >= 4 && buf[0] == 0x4E && buf[1] == 0x45 && buf[2] == 0x53 && buf[3] == 0x1A
}

/// What is wrong with a ROM image, if anything.  The checks are made in this
/// order: the header is there, the signature is right, the mapper is
/// mapper 0, program and character memory are complete.
pub open spec fn rom_defect(buf: Seq<u8>) -> Option<RomError> {
    if buf.len() < INES_HEADER_LEN {
        Some(RomError::Truncated)
    } else if !has_magic(buf) {
        Some(RomError::BadMagic)
    } else if parse_ines_header_spec(buf).mapper() != 0 {
        Some(RomError::UnsupportedMapper(parse_ines_header_spec(buf).mapper()))
    } else if buf.len() < parse_ines_header_spec(buf).image_len() {
        Some(RomError::Truncated)
    } else {
        None
    }
}

/// Builds the cartridge that a ROM image describes.
///
/// The image is accepted exactly where `rom_defect` finds nothing wrong with
/// it, and the error is the defect found.
pub fn from_rom(buf: &[u8]) -> (r: Result<NROMCartridge, RomError>)
    ensures
        match r {
            Ok(cart) => rom_defect(buf@) is None && cart.holds(
                parse_ines_header_spec(buf@),
                buf@,
            ),
            Err(e) => rom_defect(buf@) == Some(e),
        },
{
    if buf.len() < INES_HEADER_LEN {
        return Err(RomError::Truncated);
    }
    if buf[0] != 0x4E || buf[1] != 0x45 || buf[2] != 0x53 || buf[3] != 0x1A {
        return Err(RomError::BadMagic);
    }
    let header: INesHeader = parse_ines_header(buf);
    let mapper: u8 = header.mapper();
    if mapper != 0 {
        return Err(RomError::UnsupportedMapper(mapper));
    }
    proof {
        header.lemma_parsed_sizes(buf@);
    }
    if buf.len() < header.image_len() {
        return Err(RomError::Truncated);
    }
    Ok(NROMCartridge::new(header, buf))
}

} // verus!

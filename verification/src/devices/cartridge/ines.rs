//! The header of an iNES ROM image.
use vstd::prelude::*;

verus! {

/// Length of the header.
pub const INES_HEADER_LEN: usize = 16;

/// Length of the trainer that may follow the header.
pub const TRAINER_LEN: usize = 512;

/// Length of one unit of program memory.
pub const PRG_UNIT: usize = 0x4000;

/// Length of one unit of character memory.
pub const CHR_UNIT: usize = 0x2000;

/// Byte 6 of the header: mirroring, battery, trainer, four-screen, and the
/// low nibble of the mapper number.
#[derive(Debug, Clone, Copy, PartialEq, Eq, Structural)]
pub struct INesFlags6 {
    pub bits: u8,
}

impl INesFlags6 {
    /// Clear for horizontal mirroring, set for vertical
    pub const MIRRORING: u8 = 0x01;

    /// Battery-backed memory on board
    pub const HAS_PERSISTENT_MEMORY: u8 = 0x02;

    /// A 512-byte trainer precedes program memory
    pub const HAS_TRAINER: u8 = 0x04;

    /// Four-screen nametable memory on board
    pub const USE_FOUR_SCREEN_VRAM: u8 = 0x08;

    /// The low nibble of the mapper number, in the high nibble of the byte
    pub const LOWER_MAPPER_NIBBLE: u8 = 0xF0;

    /// The flags in `bits`; every bit of the byte has a meaning.
    pub fn from_bits_truncate(bits: u8) -> (r: INesFlags6)
        ensures
            r.bits == bits,
    {
        INesFlags6 { bits }
    }

    /// The flags as a byte.
    pub fn bits(&self) -> (r: u8)
        ensures
            r == self.bits,
    {
        self.bits
    }

    /// Whether every bit of `flag` is set.
    pub open spec fn contains_spec(&self, flag: u8) -> bool {
        self.bits & flag == flag
    }

    /// Whether every bit of `flag` is set.
    #[verifier::when_used_as_spec(contains_spec)]
    pub fn contains(&self, flag: u8) -> (r: bool)
        ensures
            r == self.contains_spec(flag),
    {
        self.bits & flag == flag
    }
}

/// Byte 7 of the header: console type, format version, and the high nibble
/// of the mapper number.
#[derive(Debug, Clone, Copy, PartialEq, Eq, Structural)]
pub struct INesFlags7 {
    pub bits: u8,
}

impl INesFlags7 {
    /// Made for the VS Unisystem
    pub const VS_UNISYSTEM_ROM: u8 = 0x01;

    /// Made for the PlayChoice-10
    pub const PLAYCHOICE_10: u8 = 0x02;

    /// Holds binary 10 where the rest of the header is in the 2.0 format
    pub const IS_INES_2_0: u8 = 0x0C;

    /// The high nibble of the mapper number
    pub const UPPER_MAPPER_NIBBLE: u8 = 0xF0;

    /// The flags in `bits`; every bit of the byte has a meaning.
    pub fn from_bits_truncate(bits: u8) -> (r: INesFlags7)
        ensures
            r.bits == bits,
    {
        INesFlags7 { bits }
    }

    /// The flags as a byte.
    pub fn bits(&self) -> (r: u8)
        ensures
            r == self.bits,
    {
        self.bits
    }

    /// Whether every bit of `flag` is set.
    pub open spec fn contains_spec(&self, flag: u8) -> bool {
        self.bits & flag == flag
    }

    /// Whether every bit of `flag` is set.
    #[verifier::when_used_as_spec(contains_spec)]
    pub fn contains(&self, flag: u8) -> (r: bool)
        ensures
            r == self.contains_spec(flag),
    {
        self.bits & flag == flag
    }
}

/// What the header of a ROM image says.
#[derive(Debug, Clone, Copy, PartialEq, Eq, Structural)]
pub struct INesHeader {
    /// Program memory in units of 16 KiB; a zero in the image counts as one
    pub prg_size: usize,
    /// Character memory in units of 8 KiB; a zero in the image counts as one
    pub chr_size: usize,
    /// Whether the image holds no character memory, so that the cartridge
    /// carries writable memory in its place
    pub chr_ram: bool,
    /// Mapper, mirroring, battery, trainer
    pub flags_6: INesFlags6,
    /// Mapper, console type, format version
    pub flags_7: INesFlags7,
    /// Size of program RAM, rarely used
    pub flags_8: u8,
    /// Television system, rarely used
    pub flags_9: u8,
    /// Television system and program RAM, rarely used
    pub flags_10: u8,
}

/// The header that the first bytes of an image give.  The signature in
/// bytes 0 to 3 is not looked at.
pub open spec fn parse_ines_header_spec(bytes: Seq<u8>) -> INesHeader {
    INesHeader {
        prg_size: if bytes[4] == 0 { 1 } else { bytes[4] as usize },
        chr_size: if bytes[5] == 0 { 1 } else { bytes[5] as usize },
        chr_ram: bytes[5] == 0,
        flags_6: INesFlags6 { bits: bytes[6] },
        flags_7: INesFlags7 { bits: bytes[7] },
        flags_8: bytes[8],
        flags_9: bytes[9],
        flags_10: bytes[10],
    }
}

/// Reads the header from the first bytes of a ROM image.
pub fn parse_ines_header(bytes: &[u8]) -> (header: INesHeader)
    requires
        bytes.len() >= 11,
    ensures
        header == parse_ines_header_spec(bytes@),
{
    INesHeader {
        prg_size: if bytes[4] == 0 { 1 } else { bytes[4] as usize },
        chr_size: if bytes[5] == 0 { 1 } else { bytes[5] as usize },
        chr_ram: bytes[5] == 0,
        flags_6: INesFlags6::from_bits_truncate(bytes[6]),
        flags_7: INesFlags7::from_bits_truncate(bytes[7]),
        flags_8: bytes[8],
        flags_9: bytes[9],
        flags_10: bytes[10],
    }
}

impl INesHeader {
    /// Reads the header from the 16 bytes that an image begins with.
    pub fn from_bytes(bytes: [u8; 16]) -> (header: INesHeader)
        ensures
            header == parse_ines_header_spec(bytes@),
    {
        INesHeader {
            prg_size: if bytes[4] == 0 { 1 } else { bytes[4] as usize },
            chr_size: if bytes[5] == 0 { 1 } else { bytes[5] as usize },
            chr_ram: bytes[5] == 0,
            flags_6: INesFlags6::from_bits_truncate(bytes[6]),
            flags_7: INesFlags7::from_bits_truncate(bytes[7]),
            flags_8: bytes[8],
            flags_9: bytes[9],
            flags_10: bytes[10],
        }
    }

    /// The mapper number: its high nibble from byte 7, its low nibble from
    /// byte 6.
    pub open spec fn mapper_spec(&self) -> u8 {
        (self.flags_7.bits & 0xF0) | (self.flags_6.bits >> 4)
    }

    /// The mapper number.
    #[verifier::when_used_as_spec(mapper_spec)]
    pub fn mapper(&self) -> (r: u8)
        ensures
            r == self.mapper_spec(),
    {
        (self.flags_7.bits() & INesFlags7::UPPER_MAPPER_NIBBLE) | (self.flags_6.bits() >> 4)
    }

    /// Whether a trainer sits between the header and program memory.
    pub open spec fn has_trainer(&self) -> bool {
        self.flags_6.contains(INesFlags6::HAS_TRAINER)
    }

    /// Where program memory begins in the image.
    pub open spec fn prg_start_spec(&self) -> usize {
        if self.has_trainer() {
            (INES_HEADER_LEN + TRAINER_LEN) as usize
        } else {
            INES_HEADER_LEN
        }
    }

    /// Where program memory begins in the image: behind the header, and
    /// behind the trainer where there is one.
    #[verifier::when_used_as_spec(prg_start_spec)]
    pub fn prg_start(&self) -> (r: usize)
        ensures
            r == self.prg_start_spec(),
    {
        if self.flags_6.contains(INesFlags6::HAS_TRAINER) {
            INES_HEADER_LEN + TRAINER_LEN
        } else {
            INES_HEADER_LEN
        }
    }

    /// Whether the sizes are such as a header can hold: a byte each.
    pub open spec fn sizes_fit(&self) -> bool {
        self.prg_size <= 255 && self.chr_size <= 255
    }

    /// The length of program memory in the image.
    pub open spec fn prg_len(&self) -> int {
        PRG_UNIT * self.prg_size
    }

    /// The length of character memory in the image: none where the
    /// cartridge carries writable memory.
    pub open spec fn chr_len(&self) -> int {
        if self.chr_ram {
            0
        } else {
            CHR_UNIT * self.chr_size
        }
    }

    /// The length of an image with this header.
    pub open spec fn image_len_spec(&self) -> usize {
        (self.prg_start() + self.prg_len() + self.chr_len()) as usize
    }

    /// The length of an image with this header: header, trainer, program
    /// memory and character memory.
    #[verifier::when_used_as_spec(image_len_spec)]
    pub fn image_len(&self) -> (r: usize)
        requires
            self.sizes_fit(),
        ensures
            r == self.image_len_spec(),
            r == self.prg_start() + self.prg_len() + self.chr_len(),
    {
        let chr: usize = if self.chr_ram { 0 } else { CHR_UNIT * self.chr_size };
        self.prg_start() + PRG_UNIT * self.prg_size + chr
    }

    /// A header read from an image holds sizes that fit.
    pub proof fn lemma_parsed_sizes(self, bytes: Seq<u8>)
        requires
            self == parse_ines_header_spec(bytes),
        ensures
            self.sizes_fit(),
            self.prg_size >= 1,
            self.chr_size >= 1,
    {
    }
}

} // verus!

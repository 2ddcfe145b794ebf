//! Mapper 0: program and character memory wired straight to the buses.
use vstd::prelude::*;
use super::ines::{INesFlags6, INesHeader, PRG_UNIT};
use super::utils::ICartridge;
use crate::devices::bus::BusPeekResult;

verus! {

/// Local address at which program memory begins: `$8000` on the processor's
/// bus.
pub const NROM_PRG_START: u16 = 0x3FE0;

/// Local address at which program memory ends: `$FFFF` on the processor's
/// bus.
pub const NROM_PRG_END: u16 = 0xBFDF;

/// First address of the nametables on the picture processor's bus.
pub const NAMETABLE_START: u16 = 0x2000;

/// A cartridge without bank switching: 16 or 32 KiB of program memory,
/// 8 KiB of character memory, and 2 KiB behind the four nametables.
pub struct NROMCartridge {
    /// Character memory
    pub chr: [u8; 0x2000],
    /// Program memory; a 16 KiB program fills the lower half
    pub prg: [u8; 0x8000],
    /// The memory behind the nametables
    pub nametable: [u8; 0x800],
    /// Whether character memory can be written
    pub chr_ram: bool,
    /// Whether the nametables are mirrored horizontally, not vertically
    pub use_horizontal_mirroring: bool,
    /// Whether program memory is 16 KiB, seen twice
    pub is_16k: bool,
}

/// Where in the 2 KiB behind the nametables the byte of a nametable address
/// lies.  Horizontal mirroring drops address bit 10 and moves bit 11 into
/// its place; vertical mirroring drops bit 11.
pub open spec fn nametable_index_spec(addr: u16, horizontal: bool) -> u16 {
    let nt = (addr - NAMETABLE_START) as u16;
    if horizontal {
        (nt & 0x3FF) | ((addr & 0x800) >> 1)
    } else {
        nt & 0x7FF
    }
}

/// The index into the memory behind the nametables for a nametable address.
#[verifier::when_used_as_spec(nametable_index_spec)]
pub fn nametable_index(addr: u16, horizontal: bool) -> (r: u16)
    requires
        addr >= NAMETABLE_START,
    ensures
        r == nametable_index_spec(addr, horizontal),
        r < 0x800,
{
    let nt: u16 = addr - NAMETABLE_START;
    proof {
        lemma_nametable_index(addr, nt);
    }
    if horizontal {
        (nt & 0x3FF) | ((addr & 0x800) >> 1)
    } else {
        nt & 0x7FF
    }
}

proof fn lemma_nametable_index(addr: u16, nt: u16)
    by (bit_vector)
    ensures
        ((nt & 0x3FF) | ((addr & 0x800) >> 1)) < 0x800,
        (nt & 0x7FF) < 0x800,
{
}

/// Where in program memory the byte of a local address lies: 16 KiB repeat,
/// 32 KiB do not.
pub open spec fn prg_index(addr: u16, is_16k: bool) -> int {
    if is_16k {
        (addr - NROM_PRG_START) % 0x4000
    } else {
        addr - NROM_PRG_START
    }
}

impl NROMCartridge {
    /// How much of the image's program memory the cartridge takes: all of
    /// it, up to 32 KiB.
    pub open spec fn prg_taken(header: INesHeader) -> int {
        if header.prg_size >= 2 {
            0x8000
        } else {
            PRG_UNIT * header.prg_size
        }
    }

    /// Whether the cartridge is the one that the image `buf` with the header
    /// `header` describes: program and character memory as in the image,
    /// zero where the image gives nothing, the memory behind the nametables
    /// clear.
    pub open spec fn holds(&self, header: INesHeader, buf: Seq<u8>) -> bool {
        &&& forall|i: int|
            0 <= i < 0x8000 ==> self.prg[i] == if i < Self::prg_taken(header) {
                buf[header.prg_start() + i]
            } else {
                0
            }
        &&& forall|i: int|
            0 <= i < 0x2000 ==> self.chr[i] == if header.chr_ram {
                0
            } else {
                buf[header.prg_start() + header.prg_len() + i]
            }
        &&& forall|i: int| 0 <= i < 0x800 ==> self.nametable[i] == 0
        &&& self.chr_ram == header.chr_ram
        &&& self.use_horizontal_mirroring == !header.flags_6.contains(INesFlags6::MIRRORING)
        &&& self.is_16k == (header.prg_size <= 1)
    }

    /// Builds the cartridge from a ROM image and its header.
    pub fn new(header: INesHeader, buf: &[u8]) -> (cart: NROMCartridge)
        requires
            header.sizes_fit(),
            header.chr_size >= 1,
            buf.len() >= header.image_len(),
        ensures
            cart.holds(header, buf@),
    {
        let prg_start: usize = header.prg_start();
        let taken: usize = if header.prg_size >= 2 { 0x8000 } else { PRG_UNIT * header.prg_size };
        let chr_start: usize = prg_start + PRG_UNIT * header.prg_size;
        let mut prg = [0u8;0x8000];
        let mut i: usize = 0;
        while i < taken
            invariant
                i <= taken <= 0x8000,
                prg_start + taken <= buf.len(),
                forall|j: int|
                    0 <= j < 0x8000 ==> prg[j] == if j < i {
                        buf@[prg_start + j]
                    } else {
                        0
                    },
            decreases taken - i,
        {
            prg[i] = buf[prg_start + i];
            i += 1;
        }
        let mut chr = [0u8;0x2000];
        if !header.chr_ram {
            let mut k: usize = 0;
            while k < 0x2000
                invariant
                    k <= 0x2000,
                    chr_start + 0x2000 <= buf.len(),
                    forall|j: int|
                        0 <= j < 0x2000 ==> chr[j] == if j < k {
                            buf@[chr_start + j]
                        } else {
                            0
                        },
                decreases 0x2000 - k,
            {
                chr[k] = buf[chr_start + k];
                k += 1;
            }
        }
        NROMCartridge {
            chr,
            prg,
            nametable: [0u8;0x800],
            chr_ram: header.chr_ram,
            use_horizontal_mirroring: !header.flags_6.contains(INesFlags6::MIRRORING),
            is_16k: header.prg_size <= 1,
        }
    }

    /// A cartridge whose 16 KiB of program memory and whose character memory
    /// are zero, mirrored horizontally.
    pub fn of_zeros() -> (cart: NROMCartridge)
        ensures
            forall|i: int| 0 <= i < 0x8000 ==> cart.prg[i] == 0,
            forall|i: int| 0 <= i < 0x2000 ==> cart.chr[i] == 0,
            forall|i: int| 0 <= i < 0x800 ==> cart.nametable[i] == 0,
            !cart.chr_ram,
            cart.use_horizontal_mirroring,
            cart.is_16k,
    {
        NROMCartridge {
            chr: [0u8;0x2000],
            prg: [0u8;0x8000],
            nametable: [0u8;0x800],
            chr_ram: false,
            use_horizontal_mirroring: true,
            is_16k: true,
        }
    }
}

impl ICartridge for NROMCartridge {
    open spec fn read_chr_spec(self, addr: u16, last_bus_value: u8) -> (u8, Self) {
        (self.peek_chr_spec(addr).unwrap(last_bus_value), self)
    }

    open spec fn peek_chr_spec(self, addr: u16) -> BusPeekResult {
        if addr < NAMETABLE_START {
            BusPeekResult::Result(self.chr[addr as int])
        } else {
            BusPeekResult::Result(
                self.nametable[nametable_index(addr, self.use_horizontal_mirroring) as int],
            )
        }
    }

    open spec fn write_chr_spec(self, addr: u16, value: u8) -> Self {
        if addr < NAMETABLE_START {
            if self.chr_ram {
                NROMCartridge {
                    chr: vstd::array::spec_array_update(self.chr, addr as int, value),
                    ..self
                }
            } else {
                self
            }
        } else {
            NROMCartridge {
                nametable: vstd::array::spec_array_update(
                    self.nametable,
                    nametable_index(addr, self.use_horizontal_mirroring) as int,
                    value,
                ),
                ..self
            }
        }
    }

    open spec fn read_prg_spec(self, addr: u16, last_bus_value: u8) -> (u8, Self) {
        (self.peek_prg_spec(addr).unwrap(last_bus_value), self)
    }

    open spec fn peek_prg_spec(self, addr: u16) -> BusPeekResult {
        if NROM_PRG_START <= addr <= NROM_PRG_END {
            BusPeekResult::Result(self.prg[prg_index(addr, self.is_16k)])
        } else {
            BusPeekResult::Unmapped
        }
    }

    open spec fn write_prg_spec(self, addr: u16, value: u8) -> Self {
        self
    }

    open spec fn chr_spec(self) -> Seq<u8> {
        self.chr@
    }

    open spec fn nametables_spec(self) -> Seq<u8> {
        self.nametable@
    }

    fn read_chr(&mut self, addr: u16, last_bus_value: u8) -> (r: u8) {
        self.peek_chr(addr).unwrap(last_bus_value)
    }

    fn peek_chr(&self, addr: u16) -> (r: BusPeekResult) {
        if addr < NAMETABLE_START {
            return BusPeekResult::Result(self.chr[addr as usize]);
        }
        let index: u16 = nametable_index(addr, self.use_horizontal_mirroring);
        BusPeekResult::Result(self.nametable[index as usize])
    }

    fn write_chr(&mut self, addr: u16, value: u8) {
        if addr < NAMETABLE_START {
            if self.chr_ram {
                self.chr[addr as usize] = value;
            }
            return ;
        }
        let index: u16 = nametable_index(addr, self.use_horizontal_mirroring);
        self.nametable[index as usize] = value;
    }

    fn read_prg(&mut self, addr: u16, last_bus_value: u8) -> (r: u8) {
        self.peek_prg(addr).unwrap(last_bus_value)
    }

    fn peek_prg(&self, addr: u16) -> (r: BusPeekResult) {
        if addr < NROM_PRG_START || addr > NROM_PRG_END {
            return BusPeekResult::Unmapped;
        }
        let offset: u16 = addr - NROM_PRG_START;
        let index: u16 = if self.is_16k { offset % 0x4000 } else { offset };
        BusPeekResult::Result(self.prg[index as usize])
    }

    fn write_prg(&mut self, _addr: u16, _value: u8) {
    }

    fn dump_chr(&self) -> (r: &[u8]) {
        &self.chr
    }

    fn dump_nametables(&self) -> (r: &[u8]) {
        &self.nametable
    }
}

proof fn lemma_mirrors(addr: u16)
    by (bit_vector)
    requires
        0x2000 <= addr < 0x2400,
    ensures
        ({
            let a = (addr - 0x2000) as u16;
            let b = (addr + 0x0400 - 0x2000) as u16;
            let c = (addr + 0x0800 - 0x2000) as u16;
            let d = (addr + 0x0C00 - 0x2000) as u16;
            let e = (addr + 0x1000 - 0x2000) as u16;
            &&& (a & 0x3FF) | ((addr & 0x800) >> 1) == a
            &&& (b & 0x3FF) | (((addr + 0x0400) as u16 & 0x800) >> 1) == a
            &&& (c & 0x3FF) | (((addr + 0x0800) as u16 & 0x800) >> 1) == a + 0x400
            &&& (d & 0x3FF) | (((addr + 0x0C00) as u16 & 0x800) >> 1) == a + 0x400
            &&& (e & 0x3FF) | (((addr + 0x1000) as u16 & 0x800) >> 1) == a
            &&& a & 0x7FF == a
            &&& b & 0x7FF == a + 0x400
            &&& c & 0x7FF == a
            &&& d & 0x7FF == a + 0x400
            &&& e & 0x7FF == a
        }),
{
}

/// Which nametables share memory.  With horizontal mirroring the two upper
/// nametables are one and the two lower ones are one; with vertical
/// mirroring the two left ones are one and the two right ones are one.
/// Either way the addresses from `$3000` repeat those from `$2000`.
pub proof fn nametables_mirror(addr: u16)
    requires
        0x2000 <= addr < 0x2400,
    ensures
        nametable_index_spec(addr, true) == addr - 0x2000,
        nametable_index_spec((addr + 0x0400) as u16, true) == addr - 0x2000,
        nametable_index_spec((addr + 0x0800) as u16, true) == addr - 0x2000 + 0x400,
        nametable_index_spec((addr + 0x0C00) as u16, true) == addr - 0x2000 + 0x400,
        nametable_index_spec((addr + 0x1000) as u16, true) == addr - 0x2000,
        nametable_index_spec(addr, false) == addr - 0x2000,
        nametable_index_spec((addr + 0x0400) as u16, false) == addr - 0x2000 + 0x400,
        nametable_index_spec((addr + 0x0800) as u16, false) == addr - 0x2000,
        nametable_index_spec((addr + 0x0C00) as u16, false) == addr - 0x2000 + 0x400,
        nametable_index_spec((addr + 0x1000) as u16, false) == addr - 0x2000,
{
    lemma_mirrors(addr);
}

/// Program memory of 16 KiB is seen twice: at `$8000` and at `$C000` of the
/// processor's bus.  Below `$8000` the cartridge does not answer.
pub proof fn program_memory_mirrors(cart: NROMCartridge, addr: u16)
    requires
        NROM_PRG_START <= addr < NROM_PRG_START + 0x4000,
    ensures
        cart.is_16k ==> cart.peek_prg_spec((addr + 0x4000) as u16) == cart.peek_prg_spec(addr),
        cart.peek_prg_spec(addr) == BusPeekResult::Result(cart.prg[addr - NROM_PRG_START]),
        !cart.is_16k ==> cart.peek_prg_spec((addr + 0x4000) as u16) == BusPeekResult::Result(
            cart.prg[addr - NROM_PRG_START + 0x4000],
        ),
        forall|below: u16|
            below < NROM_PRG_START ==> #[trigger] cart.peek_prg_spec(below)
                == BusPeekResult::Unmapped,
{
}

/// A byte written to a nametable reads back, and program memory and
/// read-only character memory keep what they hold whatever is written.
pub proof fn writes_reach_nametables_only(cart: NROMCartridge, addr: u16, data: u8)
    ensures
        addr >= NAMETABLE_START ==> cart.write_chr_spec(addr, data).peek_chr_spec(addr)
            == BusPeekResult::Result(data),
        addr < NAMETABLE_START && !cart.chr_ram ==> cart.write_chr_spec(addr, data) == cart,
        addr < NAMETABLE_START && cart.chr_ram ==> cart.write_chr_spec(addr, data).peek_chr_spec(
            addr,
        ) == BusPeekResult::Result(data),
        cart.write_prg_spec(addr, data) == cart,
{
    if addr >= NAMETABLE_START {
        lemma_nametable_index(addr, (addr - NAMETABLE_START) as u16);
        vstd::array::axiom_spec_array_update(
            cart.nametable,
            nametable_index_spec(addr, cart.use_horizontal_mirroring) as int,
            data,
        );
    } else {
        vstd::array::axiom_spec_array_update(cart.chr, addr as int, data);
    }
}

} // verus!

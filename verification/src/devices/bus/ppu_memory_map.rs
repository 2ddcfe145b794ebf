//! What answers where on the picture processor's bus.
use vstd::prelude::*;

verus! {

/// The devices on the picture processor's bus.
#[derive(Debug, Clone, Copy, PartialEq, Eq, Structural)]
pub enum Device {
    /// Pattern tables and nametables, both reached through the cartridge
    CartridgeOrNametable,
    /// The 32 bytes of palette memory inside the picture processor
    PaletteRAM,
}

/// First address of palette memory.
pub const PPU_PALETTE_START_ADDR: u16 = 0x3F00;

/// First address of the nametables.
pub const PPU_NAMETABLE_START_ADDR: u16 = 0x2000;

/// The device that answers at `addr` and the address local to it.  The bus
/// has 14 address lines, so addresses repeat every `$4000`.  Below `$3F00`
/// the cartridge answers, at the address itself; above, palette memory
/// answers, at the address modulo 32.
pub open spec fn match_addr_spec(addr: u16) -> (Device, u16) {
    let a = addr % 0x4000;
    if a < PPU_PALETTE_START_ADDR {
        (Device::CartridgeOrNametable, a)
    } else {
        (Device::PaletteRAM, a % 32)
    }
}

/// Routes an address of the picture processor's bus to a device and an
/// address local to that device.
#[verifier::when_used_as_spec(match_addr_spec)]
pub fn match_addr(addr: u16) -> (r: (Device, u16))
    ensures
        r == match_addr_spec(addr),
{
    let a: u16 = addr % 0x4000;
    if a < PPU_PALETTE_START_ADDR {
        (Device::CartridgeOrNametable, a)
    } else {
        (Device::PaletteRAM, a % 32)
    }
}

} // verus!

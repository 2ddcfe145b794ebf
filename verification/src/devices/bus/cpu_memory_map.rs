//! What answers where on the processor's bus.
use vstd::prelude::*;
use super::Range;

verus! {

/// The devices on the processor's bus.
#[derive(Debug, Clone, Copy, PartialEq, Eq, Structural)]
pub enum Device {
    /// The cartridge's program memory
    Cartridge,
    /// The 2 KiB of internal memory
    RAM,
    /// The eight register ports of the picture processor
    PPUControl,
    /// The port that starts a sprite memory transfer
    OamDma,
    /// Nothing: the bus floats
    Unmapped,
}

/// First address of internal memory.
pub const RAM_START_ADDR: u16 = 0x0000;

/// Last address that mirrors internal memory.
pub const RAM_END_ADDR: u16 = 0x1FFF;

/// Mask that folds the mirrors of internal memory onto its 2 KiB.
pub const RAM_MASK: u16 = 0x07FF;

/// First address of the picture processor's ports.
pub const PPU_REGISTER_START_ADDR: u16 = 0x2000;

/// Last address that mirrors the picture processor's ports.
pub const PPU_REGISTER_END_ADDR: u16 = 0x3FFF;

/// Mask that folds the mirrors of the ports onto the eight of them.
pub const PPU_REGISTER_MASK: u16 = 0x0007;

/// Address of the sprite memory transfer port.
pub const OAM_DMA_ADDR: u16 = 0x4014;

/// First address that the cartridge answers.
pub const CART_START_ADDR: u16 = 0x4020;

/// The device that answers at `addr` and the address local to it: internal
/// memory folded onto 2 KiB, the ports folded onto eight, the cartridge
/// counted from its first address.  Where nothing answers the address is
/// handed back unchanged.
pub open spec fn match_addr_spec(addr: u16) -> (Device, u16) {
    if addr >= CART_START_ADDR {
        (Device::Cartridge, (addr - CART_START_ADDR) as u16)
    } else if addr <= RAM_END_ADDR {
        (Device::RAM, addr & RAM_MASK)
    } else if addr <= PPU_REGISTER_END_ADDR {
        (Device::PPUControl, ((addr - PPU_REGISTER_START_ADDR) as u16) & PPU_REGISTER_MASK)
    } else if addr == OAM_DMA_ADDR {
        (Device::OamDma, 0)
    } else {
        (Device::Unmapped, addr)
    }
}

/// Routes an address of the processor's bus to a device and an address
/// local to that device.
#[verifier::when_used_as_spec(match_addr_spec)]
pub fn match_addr(addr: u16) -> (r: (Device, u16))
    ensures
        r == match_addr_spec(addr),
{
    let cartridge = Range::new_unmasked(CART_START_ADDR, 0xFFFF);
    let ram = Range::new(RAM_START_ADDR, RAM_END_ADDR, RAM_MASK);
    let ppu = Range::new(PPU_REGISTER_START_ADDR, PPU_REGISTER_END_ADDR, PPU_REGISTER_MASK);
    let dma = Range::new(OAM_DMA_ADDR, OAM_DMA_ADDR, 0);
    proof {
        if addr >= CART_START_ADDR {
            lemma_masks((addr - CART_START_ADDR) as u16);
        }
        lemma_masks(0);
    }
    if let Some(local) = cartridge.map(addr) {
        (Device::Cartridge, local)
    } else if let Some(local) = ram.map(addr) {
        (Device::RAM, local)
    } else if let Some(local) = ppu.map(addr) {
        (Device::PPUControl, local)
    } else if let Some(local) = dma.map(addr) {
        (Device::OamDma, local)
    } else {
        (Device::Unmapped, addr)
    }
}

proof fn lemma_masks(addr: u16)
    by (bit_vector)
    ensures
        addr & 0xFFFF == addr,
        addr & 0 == 0,
{
}

/// Local addresses stay within the device: internal memory has 2048 bytes,
/// the picture processor eight ports.  The four mirrors of a byte of
/// internal memory are one byte.
pub proof fn match_addr_bounds(addr: u16)
    ensures
        match_addr_spec(addr).0 == Device::RAM ==> match_addr_spec(addr).1 < 0x800,
        match_addr_spec(addr).0 == Device::PPUControl ==> match_addr_spec(addr).1 < 8,
        addr < 0x800 ==> {
            &&& match_addr_spec(addr) == (Device::RAM, addr)
            &&& match_addr_spec((addr + 0x0800) as u16) == (Device::RAM, addr)
            &&& match_addr_spec((addr + 0x1000) as u16) == (Device::RAM, addr)
            &&& match_addr_spec((addr + 0x1800) as u16) == (Device::RAM, addr)
        },
{
    assert({
        &&& addr & 0x07FF < 0x800
        &&& (((addr - 0x2000) as u16) & 0x0007) < 8
        &&& addr < 0x800 ==> {
            &&& addr & 0x07FF == addr
            &&& ((addr + 0x0800) as u16) & 0x07FF == addr
            &&& ((addr + 0x1000) as u16) & 0x07FF == addr
            &&& ((addr + 0x1800) as u16) & 0x07FF == addr
        }
    }) by (bit_vector);
}

} // verus!

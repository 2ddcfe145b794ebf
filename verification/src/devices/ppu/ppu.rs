//! The picture processor: its ports, its bus, and the dot clock that draws
//! the picture.
//!
//! A dot of the picture processor is a function of the picture processor and
//! the cartridge.  The functions whose names end in `_spec` are that
//! function, piece by piece; the executable methods are proved to compute
//! them.
use vstd::prelude::*;
use vstd::array::spec_array_update;
use super::structs::{
    PpuAddressPart,
    PpuControlFlags,
    PpuControlPorts,
    PpuMaskFlags,
    PpuState,
    PpuStatusFlags,
    LAST_DOT,
    POST_RENDER_SCANLINE,
    PRE_RENDER_SCANLINE,
};
use crate::devices::bus::ppu_memory_map;
use crate::devices::bus::{BusDevice, BusPeekResult};
use crate::devices::cartridge::utils::ICartridge;

verus! {

/// Offset of the attribute tables within a nametable.
pub const ATTR_TABLE_OFFSET: u16 = 0x3C0;

/// The 32 bytes of palette memory.
pub struct PpuPaletteRam {
    pub palette_buffer: [u8; 32],
}

/// The place in palette memory that an address reaches.  The first entry of
/// each sprite palette is the first entry of the background palette of the
/// same number.
pub open spec fn palette_index_spec(addr: u16) -> u16 {
    let a = addr % 32;
    if a == 0x10 || a == 0x14 || a == 0x18 || a == 0x1C {
        (a - 0x10) as u16
    } else {
        a
    }
}

/// The index into palette memory for an address.
#[verifier::when_used_as_spec(palette_index_spec)]
pub fn palette_index(addr: u16) -> (r: u16)
    ensures
        r == palette_index_spec(addr),
        r < 32,
{
    let a: u16 = addr % 32;
    match a {
        0x10 => 0x00,
        0x14 => 0x04,
        0x18 => 0x08,
        0x1C => 0x0C,
        _ => a,
    }
}

impl PpuPaletteRam {
    /// Palette memory with every entry zero.
    pub fn new() -> (r: PpuPaletteRam)
        ensures
            forall|i: int| 0 <= i < 32 ==> r.palette_buffer[i] == 0,
    {
        PpuPaletteRam { palette_buffer: [0u8;32] }
    }

    /// The entry that `addr` reaches.
    pub open spec fn peek_spec(self, addr: u16) -> u8 {
        self.palette_buffer[palette_index(addr) as int]
    }

    /// Palette memory after `data` was written to the entry that `addr`
    /// reaches.
    pub open spec fn write_spec(self, addr: u16, data: u8) -> PpuPaletteRam {
        PpuPaletteRam {
            palette_buffer: spec_array_update(self.palette_buffer, palette_index(addr) as int, data),
        }
    }

}

impl BusDevice for PpuPaletteRam {
    /// A read returns the entry that the address reaches, and changes
    /// nothing.
    open spec fn read_post(self, addr: u16, last_bus_value: u8, value: u8, next: Self) -> bool {
        value == self.peek_spec(addr) && next == self
    }

    /// A peek returns the entry that the address reaches.
    open spec fn peek_post(self, addr: u16, result: BusPeekResult) -> bool {
        result == BusPeekResult::Result(self.peek_spec(addr))
    }

    /// A write replaces the entry that the address reaches.
    open spec fn write_post(self, addr: u16, value: u8, next: Self) -> bool {
        next == self.write_spec(addr, value)
    }

    fn read(&mut self, addr: u16, last_bus_value: u8) -> (r: u8) {
        self.peek(addr).unwrap(last_bus_value)
    }

    fn peek(&self, addr: u16) -> (r: BusPeekResult) {
        BusPeekResult::Result(self.palette_buffer[palette_index(addr) as usize])
    }

    fn write(&mut self, addr: u16, value: u8) {
        self.palette_buffer[palette_index(addr) as usize] = value;
    }
}

/// The address register after the tile column moved on by one: from the
/// last column it returns to the first and changes to the other nametable
/// of the row.
pub open spec fn coarse_x_incremented(v: u16) -> u16 {
    if v & PpuAddressPart::COARSE_X == 31 {
        (v & !PpuAddressPart::COARSE_X) ^ PpuAddressPart::NAMETABLE_X
    } else {
        v.wrapping_add(1)
    }
}

/// The tile row that follows `row`: from row 29, the last of a nametable,
/// and from row 31 it is row 0.
pub open spec fn next_coarse_y(row: u16) -> u16 {
    if row == 29 || row == 31 {
        0
    } else {
        row.wrapping_add(1)
    }
}

/// The address register after the pixel row moved on by one.  From the last
/// pixel row of a tile the tile row moves on; from tile row 29 it returns
/// to row 0 and changes to the other nametable of the column, from row 31
/// it returns to row 0 in the same nametable.
pub open spec fn fine_y_incremented(v: u16) -> u16 {
    if v & PpuAddressPart::FINE_Y != 0x7000 {
        v.wrapping_add(0x1000)
    } else {
        let cleared = v & !PpuAddressPart::FINE_Y;
        let row = (cleared & PpuAddressPart::COARSE_Y) >> 5;
        let flipped = if row == 29 {
            cleared ^ PpuAddressPart::NAMETABLE_Y
        } else {
            cleared
        };
        (flipped & !PpuAddressPart::COARSE_Y) | (next_coarse_y(row) << 5)
    }
}

/// The bits of `v` and `t` that hold the horizontal position.
pub const X_ADDR_PART: u16 = 0x041F;

/// The bits of `v` and `t` that hold the vertical position.
pub const Y_ADDR_PART: u16 = 0x7BE0;

/// `v` with its horizontal position taken from `t`.
pub open spec fn x_transferred(v: u16, t: u16) -> u16 {
    (v & !X_ADDR_PART) | (t & X_ADDR_PART)
}

/// `v` with its vertical position taken from `t`.
pub open spec fn y_transferred(v: u16, t: u16) -> u16 {
    (v & !Y_ADDR_PART) | (t & Y_ADDR_PART)
}

/// The address of the nametable byte of the tile that `v` points at.
pub open spec fn nametable_addr(v: u16) -> u16 {
    ppu_memory_map::PPU_NAMETABLE_START_ADDR | (v & 0x0FFF)
}

/// The address of the attribute byte of the tile that `v` points at.
pub open spec fn attribute_addr(v: u16) -> u16 {
    ppu_memory_map::PPU_NAMETABLE_START_ADDR | ATTR_TABLE_OFFSET | (v & 0x0C00) | ((v >> 4)
        & 0x38) | ((v >> 2) & 0x07)
}

/// The two palette bits of the tile that `v` points at, picked from its
/// attribute byte: bit 1 of the tile row picks the upper or lower half of
/// the byte, bit 1 of the tile column the left or right pair of bits.
pub open spec fn attribute_of(byte: u8, v: u16) -> u8 {
    let by_row = if ((v & PpuAddressPart::COARSE_Y) >> 5) & 0x02 != 0 {
        byte >> 4
    } else {
        byte
    };
    let by_column = if (v & PpuAddressPart::COARSE_X) & 0x02 != 0 {
        by_row >> 2
    } else {
        by_row
    };
    by_column & 3
}

/// The address of the low bit plane of a background tile's pixel row.
pub open spec fn pattern_addr(control: u8, tile: u8, v: u16) -> u16 {
    (((control & PpuControlFlags::BG_TILE_SELECT) as u16) << 8) | ((tile as u16) << 4) | ((v
        & PpuAddressPart::FINE_Y) >> 12)
}

/// The address of the low bit plane of a sprite's pixel row.
pub open spec fn sprite_pattern_addr(control: u8, tile: u8, row: u16) -> u16 {
    (((control & PpuControlFlags::SPRITE_TILE_SELECT) as u16) << 9) | ((tile as u16) << 4) | row
}

/// The height of sprites in pixels.
pub open spec fn sprite_height(control: u8) -> u16 {
    if control & PpuControlFlags::SPRITE_MODE_SELECT != 0 {
        16
    } else {
        8
    }
}

/// Whether a sprite whose top is at `y` shows on `scanline`.
pub open spec fn sprite_in_range(scanline: u16, y: u8, control: u8) -> bool {
    0 <= scanline - y < sprite_height(control)
}

/// A pixel on its way to the picture.
#[derive(Debug, Clone, Copy, PartialEq, Eq, Structural)]
pub struct Pixel {
    /// Colour within the palette; 0 is transparent
    pub pixel: u8,
    /// Palette number
    pub palette: u8,
    /// Whether the pixel goes behind the background
    pub behind: bool,
    /// Whether the pixel belongs to sprite 0
    pub sprite0: bool,
}

/// What shows where a background pixel and a sprite pixel meet: the sprite
/// where it is not transparent and the background is, or the sprite is in
/// front; the background elsewhere.
pub open spec fn composed(bg: Pixel, sprite: Pixel) -> Pixel {
    if sprite.pixel != 0 && (bg.pixel == 0 || !sprite.behind) {
        sprite
    } else {
        bg
    }
}

/// The address in palette memory of a pixel's colour.  Transparent pixels
/// show the backdrop, the first entry.
pub open spec fn color_addr(p: Pixel) -> u16 {
    if p.pixel == 0 {
        ppu_memory_map::PPU_PALETTE_START_ADDR
    } else {
        ppu_memory_map::PPU_PALETTE_START_ADDR | (((p.palette as u16) << 2) | (p.pixel as u16))
    }
}

/// The picture processor.
pub struct Ppu2C02 {
    /// Palette memory
    pub palette: PpuPaletteRam,
    /// Registers, sprite memory and the picture
    pub state: PpuState,
}

impl Ppu2C02 {
    /// Whether `ppu` is the picture processor at power-on.
    pub open spec fn is_power_on(ppu: Ppu2C02) -> bool {
        &&& ppu.state.v == 0
        &&& ppu.state.t == 0
        &&& ppu.state.x == 0
        &&& !ppu.state.w
        &&& ppu.state.bg_tile_hi_shift_reg == 0
        &&& ppu.state.bg_tile_lo_shift_reg == 0
        &&& ppu.state.bg_attr_hi_shift_reg == 0
        &&& ppu.state.bg_attr_lo_shift_reg == 0
        &&& ppu.state.bg_attr_latch == 0
        &&& !ppu.state.sprite0_on_line
        &&& ppu.state.sprite_count == 0
        &&& ppu.state.temp_nt_byte == 0
        &&& ppu.state.temp_at_byte == 0
        &&& ppu.state.temp_bg_lo_byte == 0
        &&& ppu.state.temp_bg_hi_byte == 0
        &&& ppu.state.control == 0
        &&& ppu.state.mask == 0
        &&& ppu.state.status == 0xA0
        &&& ppu.state.oam_addr == 0
        &&& ppu.state.pixel_cycle == 0
        &&& ppu.state.scanline == 0
        &&& !ppu.state.frame_ready
        &&& !ppu.state.vblank_nmi_ready
        &&& ppu.state.ppudata_buffer == 0
        &&& ppu.state.last_control_port_value == 0
        &&& ppu.state.last_bus_value == 0
        &&& forall|i: int| 0 <= i < 8 ==> ppu.state.sprite_tile_hi_shift_regs[i] == 0
        &&& forall|i: int| 0 <= i < 8 ==> ppu.state.sprite_tile_lo_shift_regs[i] == 0
        &&& forall|i: int| 0 <= i < 8 ==> ppu.state.sprite_x_counters[i] == 0
        &&& forall|i: int| 0 <= i < 8 ==> ppu.state.sprite_attr_latches[i] == 0
        &&& forall|i: int| 0 <= i < 256 ==> ppu.state.oam[i] == 0
        &&& forall|i: int| 0 <= i < 32 ==> ppu.state.secondary_oam[i] == 0
        &&& forall|i: int| 0 <= i < 184320 ==> ppu.state.frame_data[i] == 0
        &&& forall|i: int| 0 <= i < 32 ==> ppu.palette.palette_buffer[i] == 0
    }

    /// The picture processor at power-on: at the first dot of the first
    /// scanline, all memory clear, the status register at `$A0`.
    pub fn new() -> (ppu: Ppu2C02)
        ensures
            Ppu2C02::is_power_on(ppu),
            ppu.inv(),
    {
        Ppu2C02 {
            palette: PpuPaletteRam::new(),
            state: PpuState {
                v: 0,
                t: 0,
                x: 0,
                w: false,
                bg_tile_hi_shift_reg: 0,
                bg_tile_lo_shift_reg: 0,
                bg_attr_hi_shift_reg: 0,
                bg_attr_lo_shift_reg: 0,
                bg_attr_latch: 0,
                sprite_tile_hi_shift_regs: [0u8;8],
                sprite_tile_lo_shift_regs: [0u8;8],
                sprite_x_counters: [0u8;8],
                sprite_attr_latches: [0u8;8],
                sprite0_on_line: false,
                sprite_count: 0,
                temp_nt_byte: 0,
                temp_at_byte: 0,
                temp_bg_lo_byte: 0,
                temp_bg_hi_byte: 0,
                control: 0,
                mask: 0,
                status: 0xA0,
                oam_addr: 0,
                oam: [0u8;256],
                secondary_oam: [0u8;32],
                pixel_cycle: 0,
                scanline: 0,
                frame_ready: false,
                frame_data: [0u8;184320],
                vblank_nmi_ready: false,
                ppudata_buffer: 0,
                last_control_port_value: 0,
                last_bus_value: 0,
            },
        }
    }

    /// What holds of the picture processor between any two dots: the dot and
    /// the scanline are on the grid of 341 by 262, the address registers
    /// have fifteen bits, the fine scroll three, and no more than eight
    /// sprites are counted on a scanline.
    pub open spec fn inv(self) -> bool {
        &&& self.state.pixel_cycle <= LAST_DOT
        &&& self.state.scanline <= PRE_RENDER_SCANLINE
        &&& self.state.v <= PpuAddressPart::ALL
        &&& self.state.t <= PpuAddressPart::ALL
        &&& self.state.x <= 7
        &&& self.state.sprite_count <= 8
    }

    /// Tests whether the picture processor is on its grid, with registers
    /// of their proper widths.
    pub fn holds_invariant(&self) -> (r: bool)
        ensures
            r == self.inv(),
    {
        self.state.pixel_cycle <= LAST_DOT && self.state.scanline <= PRE_RENDER_SCANLINE
            && self.state.v <= PpuAddressPart::ALL && self.state.t <= PpuAddressPart::ALL
            && self.state.x <= 7 && self.state.sprite_count <= 8
    }

    /// Whether an NMI waits to be passed on to the processor.
    pub fn is_vblank(&self) -> (r: bool)
        ensures
            r == self.state.vblank_nmi_ready,
    {
        self.state.vblank_nmi_ready
    }

    /// The picture processor after the waiting NMI was passed on.
    pub open spec fn ack_vblank_spec(self) -> Ppu2C02 {
        Ppu2C02 { state: PpuState { vblank_nmi_ready: false, ..self.state }, ..self }
    }

    /// Acknowledges the NMI, so that it is passed on once.
    pub fn ack_vblank(&mut self)
        ensures
            *final(self) == old(self).ack_vblank_spec(),
    {
        self.state.vblank_nmi_ready = false;
    }

    /// Whether the last dot completed a frame.
    pub fn is_frame_ready(&self) -> (r: bool)
        ensures
            r == self.state.frame_ready,
    {
        self.state.frame_ready
    }

    /// The picture: 240 rows of 256 pixels, red, green and blue of each.
    pub fn get_buffer(&self) -> (r: &[u8])
        ensures
            r@ == self.state.frame_data@,
    {
        &self.state.frame_data
    }

    /// The picture processor after a byte was put into sprite memory.
    pub open spec fn write_oam_spec(self, addr: u8, data: u8) -> Ppu2C02 {
        Ppu2C02 {
            state: PpuState { oam: spec_array_update(self.state.oam, addr as int, data), ..self.state },
            ..self
        }
    }

    /// Puts a byte into sprite memory, as a sprite memory transfer does.
    pub fn write_oam(&mut self, addr: u8, data: u8)
        ensures
            *final(self) == old(self).write_oam_spec(addr, data),
    {
        self.state.oam[addr as usize] = data;
    }

    /// Palette memory, for inspection.
    pub fn dump_palettes(&self) -> (r: &[u8])
        ensures
            r@ == self.palette.palette_buffer@,
    {
        &self.palette.palette_buffer
    }

    /// Whether background or sprites are switched on.
    pub open spec fn rendering_enabled(self) -> bool {
        self.state.mask & PpuMaskFlags::RENDERING != 0
    }

    /// Whether the picture processor is drawing: rendering is switched on
    /// and the scanline is a visible one.
    pub open spec fn is_rendering_spec(&self) -> bool {
        self.rendering_enabled() && self.state.scanline < POST_RENDER_SCANLINE
    }

    /// Whether the picture processor is drawing.
    #[verifier::when_used_as_spec(is_rendering_spec)]
    pub fn is_rendering(&self) -> (r: bool)
        ensures
            r == self.is_rendering_spec(),
    {
        self.state.mask & PpuMaskFlags::RENDERING != 0 && self.state.scanline
            < POST_RENDER_SCANLINE
    }

    /// The byte read from the picture processor's bus, and the picture
    /// processor and the cartridge after the read.  The byte stays on the
    /// bus.
    pub open spec fn read_spec<C: ICartridge>(self, cart: C, addr: u16) -> (u8, Ppu2C02, C) {
        let (device, local) = ppu_memory_map::match_addr(addr);
        let (r, cart1) = match device {
            ppu_memory_map::Device::CartridgeOrNametable => cart.read_chr_spec(
                local,
                self.state.last_bus_value,
            ),
            ppu_memory_map::Device::PaletteRAM => (self.palette.peek_spec(local), cart),
        };
        (r, Ppu2C02 { state: PpuState { last_bus_value: r, ..self.state }, ..self }, cart1)
    }

    /// Reads from the picture processor's bus.
    pub fn read<C: ICartridge>(&mut self, cart: &mut C, addr: u16) -> (r: u8)
        ensures
            (r, *final(self), *final(cart)) == old(self).read_spec(*old(cart), addr),
    {
        let (device, local) = ppu_memory_map::match_addr(addr);
        let response: u8 = match device {
            ppu_memory_map::Device::CartridgeOrNametable => cart.read_chr(
                local,
                self.state.last_bus_value,
            ),
            ppu_memory_map::Device::PaletteRAM => self.palette.read(
                local,
                self.state.last_bus_value,
            ),
        };
        self.state.last_bus_value = response;
        response
    }

    /// The picture processor and the cartridge after a write to the picture
    /// processor's bus.  The byte stays on the bus.
    pub open spec fn write_spec<C: ICartridge>(self, cart: C, addr: u16, data: u8) -> (
        Ppu2C02,
        C,
    ) {
        let (device, local) = ppu_memory_map::match_addr(addr);
        let ppu = Ppu2C02 { state: PpuState { last_bus_value: data, ..self.state }, ..self };
        match device {
            ppu_memory_map::Device::CartridgeOrNametable => (ppu, cart.write_chr_spec(local, data)),
            ppu_memory_map::Device::PaletteRAM => (
                Ppu2C02 { palette: self.palette.write_spec(local, data), ..ppu },
                cart,
            ),
        }
    }

    /// Writes to the picture processor's bus.
    pub fn write<C: ICartridge>(&mut self, cart: &mut C, addr: u16, data: u8)
        ensures
            (*final(self), *final(cart)) == old(self).write_spec(*old(cart), addr, data),
    {
        let (device, local) = ppu_memory_map::match_addr(addr);
        self.state.last_bus_value = data;
        match device {
            ppu_memory_map::Device::CartridgeOrNametable => cart.write_chr(local, data),
            ppu_memory_map::Device::PaletteRAM => self.palette.write(local, data),
        }
    }

    /// The picture processor with `v` replaced.
    pub open spec fn with_v(self, v: u16) -> Ppu2C02 {
        Ppu2C02 { state: PpuState { v, ..self.state }, ..self }
    }

    /// The picture processor after the tile column moved on, which it does
    /// only while rendering is switched on.
    pub open spec fn inc_coarse_x_spec(self) -> Ppu2C02 {
        if self.rendering_enabled() {
            self.with_v(coarse_x_incremented(self.state.v))
        } else {
            self
        }
    }

    /// Moves on to the next tile column.
    pub(crate) fn inc_coarse_x(&mut self)
        ensures
            *final(self) == old(self).inc_coarse_x_spec(),
    {
        if self.state.mask & PpuMaskFlags::RENDERING == 0 {
            return ;
        }
        if self.state.v & PpuAddressPart::COARSE_X == 31 {
            self.state.v = (self.state.v & !PpuAddressPart::COARSE_X) ^ PpuAddressPart::NAMETABLE_X;
        } else {
            self.state.v = self.state.v.wrapping_add(1);
        }
    }

    /// The picture processor after the pixel row moved on, which it does
    /// only while rendering is switched on.
    pub open spec fn inc_fine_y_spec(self) -> Ppu2C02 {
        if self.rendering_enabled() {
            self.with_v(fine_y_incremented(self.state.v))
        } else {
            self
        }
    }

    /// Moves on to the next pixel row.
    pub(crate) fn inc_fine_y(&mut self)
        ensures
            *final(self) == old(self).inc_fine_y_spec(),
    {
        if self.state.mask & PpuMaskFlags::RENDERING == 0 {
            return ;
        }
        if self.state.v & PpuAddressPart::FINE_Y != 0x7000 {
            self.state.v = self.state.v.wrapping_add(0x1000);
        } else {
            let cleared: u16 = self.state.v & !PpuAddressPart::FINE_Y;
            let row: u16 = (cleared & PpuAddressPart::COARSE_Y) >> 5;
            let mut flipped: u16 = cleared;
            let mut new_y: u16 = row.wrapping_add(1);
            if row == 29 {
                new_y = 0;
                flipped = cleared ^ PpuAddressPart::NAMETABLE_Y;
            } else if row == 31 {
                new_y = 0;
            }
            self.state.v = (flipped & !PpuAddressPart::COARSE_Y) | (new_y << 5);
        }
    }

    /// The picture processor after the horizontal position was reloaded,
    /// which it is only while rendering is switched on.
    pub open spec fn transfer_x_addr_spec(self) -> Ppu2C02 {
        if self.rendering_enabled() {
            self.with_v(x_transferred(self.state.v, self.state.t))
        } else {
            self
        }
    }

    /// Reloads the horizontal position of `v` from `t`.
    pub(crate) fn transfer_x_addr(&mut self)
        ensures
            *final(self) == old(self).transfer_x_addr_spec(),
    {
        if self.state.mask & PpuMaskFlags::RENDERING == 0 {
            return ;
        }
        self.state.v = (self.state.v & !X_ADDR_PART) | (self.state.t & X_ADDR_PART);
    }

    /// The picture processor after the vertical position was reloaded,
    /// which it is only while rendering is switched on.
    pub open spec fn transfer_y_addr_spec(self) -> Ppu2C02 {
        if self.rendering_enabled() {
            self.with_v(y_transferred(self.state.v, self.state.t))
        } else {
            self
        }
    }

    /// Reloads the vertical position of `v` from `t`.
    pub(crate) fn transfer_y_addr(&mut self)
        ensures
            *final(self) == old(self).transfer_y_addr_spec(),
    {
        if self.state.mask & PpuMaskFlags::RENDERING == 0 {
            return ;
        }
        self.state.v = (self.state.v & !Y_ADDR_PART) | (self.state.t & Y_ADDR_PART);
    }

    /// The picture processor after the tile that was fetched moved into the
    /// shift registers: its bit planes into their low halves, its palette
    /// into all of the palette registers.
    pub open spec fn transfer_registers_spec(self) -> Ppu2C02 {
        let s = self.state;
        Ppu2C02 {
            state: PpuState {
                bg_tile_lo_shift_reg: (s.bg_tile_lo_shift_reg & 0xFF00) | (s.temp_bg_lo_byte as u16),
                bg_tile_hi_shift_reg: (s.bg_tile_hi_shift_reg & 0xFF00) | (s.temp_bg_hi_byte as u16),
                bg_attr_latch: s.temp_at_byte,
                bg_attr_lo_shift_reg: if s.temp_at_byte & 0x01 != 0 { 0xFF } else { 0 },
                bg_attr_hi_shift_reg: if s.temp_at_byte & 0x02 != 0 { 0xFF } else { 0 },
                ..s
            },
            ..self
        }
    }

    /// Moves the fetched tile into the shift registers.
    pub(crate) fn transfer_registers(&mut self)
        ensures
            *final(self) == old(self).transfer_registers_spec(),
    {
        self.state.bg_tile_lo_shift_reg = (self.state.bg_tile_lo_shift_reg & 0xFF00) | (
        self.state.temp_bg_lo_byte as u16);
        self.state.bg_tile_hi_shift_reg = (self.state.bg_tile_hi_shift_reg & 0xFF00) | (
        self.state.temp_bg_hi_byte as u16);
        self.state.bg_attr_latch = self.state.temp_at_byte;
        self.state.bg_attr_lo_shift_reg = if self.state.temp_at_byte & 0x01 != 0 { 0xFF } else { 0 };
        self.state.bg_attr_hi_shift_reg = if self.state.temp_at_byte & 0x02 != 0 { 0xFF } else { 0 };
    }

    /// The state after the sprites from `i` on moved by a dot: a sprite that
    /// has not begun counts down, one that has begun shifts.
    pub open spec fn shift_sprites_from(state: PpuState, i: int) -> PpuState
        decreases 8 - i,
    {
        if 0 <= i < 8 {
            if state.sprite_x_counters[i] > 0 {
                Self::shift_sprites_from(
                    PpuState {
                        sprite_x_counters: spec_array_update(
                            state.sprite_x_counters,
                            i,
                            (state.sprite_x_counters[i] - 1) as u8,
                        ),
                        ..state
                    },
                    i + 1,
                )
            } else {
                Self::shift_sprites_from(
                    PpuState {
                        sprite_tile_hi_shift_regs: spec_array_update(
                            state.sprite_tile_hi_shift_regs,
                            i,
                            state.sprite_tile_hi_shift_regs[i] << 1u8,
                        ),
                        sprite_tile_lo_shift_regs: spec_array_update(
                            state.sprite_tile_lo_shift_regs,
                            i,
                            state.sprite_tile_lo_shift_regs[i] << 1u8,
                        ),
                        ..state
                    },
                    i + 1,
                )
            }
        } else {
            state
        }
    }

    /// The picture processor after its shift registers moved by a dot: those
    /// of the background while the background is switched on, those of the
    /// sprites while sprites are switched on and the dot is one of 1 to 257.
    pub open spec fn update_shift_regs_spec(self) -> Ppu2C02 {
        let s = self.state;
        let bg = if s.mask & PpuMaskFlags::BG_ENABLE != 0 {
            PpuState {
                bg_tile_hi_shift_reg: s.bg_tile_hi_shift_reg << 1u16,
                bg_tile_lo_shift_reg: s.bg_tile_lo_shift_reg << 1u16,
                bg_attr_lo_shift_reg: s.bg_attr_lo_shift_reg << 1u8,
                bg_attr_hi_shift_reg: s.bg_attr_hi_shift_reg << 1u8,
                ..s
            }
        } else {
            s
        };
        if s.mask & PpuMaskFlags::SPRITE_ENABLE != 0 && 1 <= s.pixel_cycle <= 257 {
            Ppu2C02 { state: Self::shift_sprites_from(bg, 0), ..self }
        } else {
            Ppu2C02 { state: bg, ..self }
        }
    }

    /// Moves the shift registers by a dot.
    pub(crate) fn update_shift_regs(&mut self)
        ensures
            *final(self) == old(self).update_shift_regs_spec(),
    {
        if self.state.mask & PpuMaskFlags::BG_ENABLE != 0 {
            self.state.bg_tile_hi_shift_reg = self.state.bg_tile_hi_shift_reg << 1u16;
            self.state.bg_tile_lo_shift_reg = self.state.bg_tile_lo_shift_reg << 1u16;
            self.state.bg_attr_lo_shift_reg = self.state.bg_attr_lo_shift_reg << 1u8;
            self.state.bg_attr_hi_shift_reg = self.state.bg_attr_hi_shift_reg << 1u8;
        }
        if self.state.mask & PpuMaskFlags::SPRITE_ENABLE != 0 && self.state.pixel_cycle >= 1
            && self.state.pixel_cycle <= 257 {
            let ghost start = self.state;
            let mut i: usize = 0;
            while i < 8
                invariant
                    i <= 8,
                    self.palette == old(self).palette,
                    Self::shift_sprites_from(self.state, i as int) == Self::shift_sprites_from(
                        start,
                        0,
                    ),
                decreases 8 - i,
            {
                if self.state.sprite_x_counters[i] > 0 {
                    self.state.sprite_x_counters[i] = self.state.sprite_x_counters[i] - 1;
                } else {
                    self.state.sprite_tile_hi_shift_regs[i] = self.state.sprite_tile_hi_shift_regs[i]
                        << 1u8;
                    self.state.sprite_tile_lo_shift_regs[i] = self.state.sprite_tile_lo_shift_regs[i]
                        << 1u8;
                }
                i += 1;
            }
        }
    }
}

/// The address register after an access through `$2007` outside rendering:
/// moved on by 32 where the control register says so, by 1 where not, and
/// kept to fifteen bits.
pub open spec fn data_address_incremented(v: u16, control: u8) -> u16 {
    if control & PpuControlFlags::VRAM_INCREMENT_SELECT != 0 {
        PpuAddressPart::ALL & v.wrapping_add(32)
    } else {
        PpuAddressPart::ALL & v.wrapping_add(1)
    }
}

/// `t` after a write to the control register: the nametable bits of the
/// byte become bits 10 and 11.
pub open spec fn t_after_control(t: u16, data: u8) -> u16 {
    (t & (PpuAddressPart::ALL & !(PpuAddressPart::NAMETABLE_X | PpuAddressPart::NAMETABLE_Y))) | ((
    (data & PpuControlFlags::NAMETABLE_BASE_SELECT) as u16) << 10)
}

/// `t` after the first write of a pair to the scroll register: the high
/// five bits of the byte become the tile column.
pub open spec fn t_after_scroll_x(t: u16, data: u8) -> u16 {
    (t & !PpuAddressPart::COARSE_X) | (((data as u16) >> 3) & PpuAddressPart::COARSE_X)
}

/// `t` after the second write of a pair to the scroll register: the low
/// three bits of the byte become the pixel row, the high five the tile row.
pub open spec fn t_after_scroll_y(t: u16, data: u8) -> u16 {
    (t & !(PpuAddressPart::FINE_Y | PpuAddressPart::COARSE_Y)) | ((0x07 & (data as u16)) << 12) | (((
    data as u16) & 0xF8) << 2)
}

/// `t` after the first write of a pair to the address register: the low six
/// bits of the byte become bits 8 to 13, and bit 14 is cleared.
pub open spec fn t_after_addr_high(t: u16, data: u8) -> u16 {
    (t & 0x00FF) | (((data as u16) & 0x3F) << 8)
}

/// `t` after the second write of a pair to the address register: the byte
/// becomes the low byte.
pub open spec fn t_after_addr_low(t: u16, data: u8) -> u16 {
    (t & 0xFF00) | (data as u16)
}

impl Ppu2C02 {
    /// The picture processor after an access through `$2007` moved the
    /// address on.  While the picture is drawn, the access moves the tile
    /// column and the pixel row on instead.
    pub open spec fn data_access_spec(self) -> Ppu2C02 {
        if self.is_rendering() {
            self.inc_coarse_x_spec().inc_fine_y_spec()
        } else {
            self.with_v(data_address_incremented(self.state.v, self.state.control))
        }
    }

    /// Moves the address on after an access through `$2007`.
    pub(crate) fn data_access(&mut self)
        ensures
            *final(self) == old(self).data_access_spec(),
    {
        if !self.is_rendering() {
            if self.state.control & PpuControlFlags::VRAM_INCREMENT_SELECT != 0 {
                self.state.v = PpuAddressPart::ALL & self.state.v.wrapping_add(32);
            } else {
                self.state.v = PpuAddressPart::ALL & self.state.v.wrapping_add(1);
            }
        } else {
            self.inc_coarse_x();
            self.inc_fine_y();
        }
    }

    /// Whether `v` points into palette memory.
    pub open spec fn points_at_palette(self) -> bool {
        self.state.v % 0x4000 >= ppu_memory_map::PPU_PALETTE_START_ADDR
    }

    /// The byte that a read of the status port returns: the three flags, and
    /// in the low five bits what was last seen on the ports.
    pub open spec fn status_value(self) -> u8 {
        (self.state.status & !PpuStatusFlags::STATUS_IGNORED) | (self.state.last_control_port_value
            & PpuStatusFlags::STATUS_IGNORED)
    }

    /// The byte read through `$2007`, and the picture processor and the
    /// cartridge after the read.
    ///
    /// Below palette memory the read returns what the read before it left
    /// in the buffer, and leaves the byte at `v` there.  In palette memory
    /// it returns the palette entry at `v`, and leaves in the buffer the
    /// byte at `v & $0FFF`.  Either way `v` then moves on.
    pub open spec fn read_data_spec<C: ICartridge>(self, cart: C) -> (u8, Ppu2C02, C) {
        let addr = self.state.v;
        let moved = self.data_access_spec();
        if self.points_at_palette() {
            let (data, p1, c1) = moved.read_spec(cart, addr);
            let (buffer, p2, c2) = p1.read_spec(c1, addr & 0x0FFF);
            (
                data,
                Ppu2C02 {
                    state: PpuState {
                        ppudata_buffer: buffer,
                        last_control_port_value: data,
                        ..p2.state
                    },
                    ..p2
                },
                c2,
            )
        } else {
            let (buffer, p1, c1) = moved.read_spec(cart, addr);
            let data = self.state.ppudata_buffer;
            (
                data,
                Ppu2C02 {
                    state: PpuState {
                        ppudata_buffer: buffer,
                        last_control_port_value: data,
                        ..p1.state
                    },
                    ..p1
                },
                c1,
            )
        }
    }

    /// Reads through `$2007`.
    pub(crate) fn read_data<C: ICartridge>(&mut self, cart: &mut C) -> (r: u8)
        ensures
            (r, *final(self), *final(cart)) == old(self).read_data_spec(*old(cart)),
    {
        let addr: u16 = self.state.v;
        let buffered: u8 = self.state.ppudata_buffer;
        self.data_access();
        if addr % 0x4000 >= ppu_memory_map::PPU_PALETTE_START_ADDR {
            let data: u8 = self.read(cart, addr);
            let buffer: u8 = self.read(cart, addr & 0x0FFF);
            self.state.ppudata_buffer = buffer;
            self.state.last_control_port_value = data;
            return data;
        }
        let buffer: u8 = self.read(cart, addr);
        self.state.ppudata_buffer = buffer;
        self.state.last_control_port_value = buffered;
        buffered
    }

    /// The byte that the processor reads from a port, and the picture
    /// processor and the cartridge after the read.  `port_addr` is the
    /// number of the port, `0..=7`.
    ///
    /// The status port returns the flags and clears the vertical blanking
    /// flag, the write latch and the waiting NMI.  The sprite data port
    /// returns the byte of sprite memory that the sprite address points at.
    /// The data port reads video memory.  The other ports cannot be read:
    /// they return what was last seen on the ports.
    pub open spec fn control_port_read_spec<C: ICartridge>(self, cart: C, port_addr: u16) -> (
        u8,
        Ppu2C02,
        C,
    ) {
        if port_addr == PpuControlPorts::PPUSTATUS {
            let status = self.status_value();
            (
                status,
                Ppu2C02 {
                    state: PpuState {
                        status: self.state.status & !(PpuStatusFlags::VBLANK
                            | PpuStatusFlags::STATUS_IGNORED),
                        w: false,
                        vblank_nmi_ready: false,
                        last_control_port_value: status,
                        ..self.state
                    },
                    ..self
                },
                cart,
            )
        } else if port_addr == PpuControlPorts::OAMDATA {
            (self.state.oam[self.state.oam_addr as int], self, cart)
        } else if port_addr == PpuControlPorts::PPUDATA {
            self.read_data_spec(cart)
        } else {
            (self.state.last_control_port_value, self, cart)
        }
    }

    /// Reads a port on behalf of the processor.
    pub fn control_port_read<C: ICartridge>(&mut self, cart: &mut C, port_addr: u16) -> (r: u8)
        ensures
            (r, *final(self), *final(cart)) == old(self).control_port_read_spec(
                *old(cart),
                port_addr,
            ),
    {
        if port_addr == PpuControlPorts::PPUSTATUS {
            let status: u8 = (self.state.status & !PpuStatusFlags::STATUS_IGNORED) | (
            self.state.last_control_port_value & PpuStatusFlags::STATUS_IGNORED);
            self.state.status = self.state.status & !(PpuStatusFlags::VBLANK
                | PpuStatusFlags::STATUS_IGNORED);
            self.state.w = false;
            self.state.vblank_nmi_ready = false;
            self.state.last_control_port_value = status;
            status
        } else if port_addr == PpuControlPorts::OAMDATA {
            self.state.oam[self.state.oam_addr as usize]
        } else if port_addr == PpuControlPorts::PPUDATA {
            self.read_data(cart)
        } else {
            self.state.last_control_port_value
        }
    }

    /// The picture processor after a write to the control register.  The
    /// byte is kept, and its nametable bits go to `t`.  Where the byte asks
    /// for the NMI while the vertical blanking flag is set, an NMI is raised
    /// at once.
    pub open spec fn write_control_spec(self, data: u8) -> Ppu2C02 {
        let s = self.state;
        let raised = s.status & PpuStatusFlags::VBLANK != 0 && data
            & PpuControlFlags::VBLANK_NMI_ENABLE != 0;
        Ppu2C02 {
            state: PpuState {
                control: data,
                t: t_after_control(s.t, data),
                vblank_nmi_ready: s.vblank_nmi_ready || raised,
                ..s
            },
            ..self
        }
    }

    /// The picture processor after a write to the scroll register: the
    /// first write of a pair sets the horizontal scroll, the second the
    /// vertical.
    pub open spec fn write_scroll_spec(self, data: u8) -> Ppu2C02 {
        let s = self.state;
        if !s.w {
            Ppu2C02 {
                state: PpuState { x: data & 0x07, t: t_after_scroll_x(s.t, data), w: true, ..s },
                ..self
            }
        } else {
            Ppu2C02 { state: PpuState { t: t_after_scroll_y(s.t, data), w: false, ..s }, ..self }
        }
    }

    /// The picture processor after a write to the address register: the
    /// first write of a pair sets the high byte of `t`, the second its low
    /// byte, and then `v` becomes `t`.
    pub open spec fn write_addr_spec(self, data: u8) -> Ppu2C02 {
        let s = self.state;
        if !s.w {
            Ppu2C02 { state: PpuState { t: t_after_addr_high(s.t, data), w: true, ..s }, ..self }
        } else {
            Ppu2C02 {
                state: PpuState {
                    t: t_after_addr_low(s.t, data),
                    v: t_after_addr_low(s.t, data),
                    w: false,
                    ..s
                },
                ..self
            }
        }
    }

    /// The picture processor and the cartridge after the processor wrote
    /// `data` to a port.  `port_addr` is the number of the port, `0..=7`;
    /// a write to the status port, or to a port that does not exist, leaves
    /// only the byte on the ports.
    pub open spec fn control_port_write_spec<C: ICartridge>(
        self,
        cart: C,
        port_addr: u16,
        data: u8,
    ) -> (Ppu2C02, C) {
        let ppu = Ppu2C02 {
            state: PpuState { last_control_port_value: data, ..self.state },
            ..self
        };
        let s = ppu.state;
        if port_addr == PpuControlPorts::PPUCTRL {
            (ppu.write_control_spec(data), cart)
        } else if port_addr == PpuControlPorts::PPUMASK {
            (Ppu2C02 { state: PpuState { mask: data, ..s }, ..ppu }, cart)
        } else if port_addr == PpuControlPorts::OAMADDR {
            (Ppu2C02 { state: PpuState { oam_addr: data, ..s }, ..ppu }, cart)
        } else if port_addr == PpuControlPorts::OAMDATA {
            (
                Ppu2C02 {
                    state: PpuState {
                        oam: spec_array_update(s.oam, s.oam_addr as int, data),
                        oam_addr: s.oam_addr.wrapping_add(1),
                        ..s
                    },
                    ..ppu
                },
                cart,
            )
        } else if port_addr == PpuControlPorts::PPUSCROLL {
            (ppu.write_scroll_spec(data), cart)
        } else if port_addr == PpuControlPorts::PPUADDR {
            (ppu.write_addr_spec(data), cart)
        } else if port_addr == PpuControlPorts::PPUDATA {
            let (p1, c1) = ppu.write_spec(cart, s.v, data);
            (p1.data_access_spec(), c1)
        } else {
            (ppu, cart)
        }
    }

    /// Writes a port on behalf of the processor.
    pub fn control_port_write<C: ICartridge>(&mut self, cart: &mut C, port_addr: u16, data: u8)
        ensures
            (*final(self), *final(cart)) == old(self).control_port_write_spec(
                *old(cart),
                port_addr,
                data,
            ),
    {
        self.state.last_control_port_value = data;
        if port_addr == PpuControlPorts::PPUCTRL {
            if self.state.status & PpuStatusFlags::VBLANK != 0 && data
                & PpuControlFlags::VBLANK_NMI_ENABLE != 0 {
                self.state.vblank_nmi_ready = true;
            }
            self.state.control = data;
            self.state.t = (self.state.t & (PpuAddressPart::ALL & !(PpuAddressPart::NAMETABLE_X
                | PpuAddressPart::NAMETABLE_Y))) | (((data
                & PpuControlFlags::NAMETABLE_BASE_SELECT) as u16) << 10);
        } else if port_addr == PpuControlPorts::PPUMASK {
            self.state.mask = data;
        } else if port_addr == PpuControlPorts::OAMADDR {
            self.state.oam_addr = data;
        } else if port_addr == PpuControlPorts::OAMDATA {
            self.state.oam[self.state.oam_addr as usize] = data;
            self.state.oam_addr = self.state.oam_addr.wrapping_add(1);
        } else if port_addr == PpuControlPorts::PPUSCROLL {
            if !self.state.w {
                self.state.x = data & 0x07;
                self.state.t = (self.state.t & !PpuAddressPart::COARSE_X) | (((data as u16) >> 3)
                    & PpuAddressPart::COARSE_X);
                self.state.w = true;
            } else {
                self.state.t = (self.state.t & !(PpuAddressPart::FINE_Y | PpuAddressPart::COARSE_Y))
                    | ((0x07 & (data as u16)) << 12) | (((data as u16) & 0xF8) << 2);
                self.state.w = false;
            }
        } else if port_addr == PpuControlPorts::PPUADDR {
            if !self.state.w {
                self.state.t = (self.state.t & 0x00FF) | (((data as u16) & 0x3F) << 8);
                self.state.w = true;
            } else {
                self.state.t = (self.state.t & 0xFF00) | (data as u16);
                self.state.v = self.state.t;
                self.state.w = false;
            }
        } else if port_addr == PpuControlPorts::PPUDATA {
            self.write(cart, self.state.v, data);
            self.data_access();
        }
    }
}

/// An owner of a picture processor, such as the console.
pub trait WithPpu {
    /// The picture processor that the owner holds.
    spec fn ppu_spec(&self) -> Ppu2C02;

    /// The picture processor.
    fn ppu(&self) -> (ppu: &Ppu2C02)
        ensures
            *ppu == self.ppu_spec(),
    ;

    /// The picture processor, to be changed in place.
    fn ppu_mut(&mut self) -> (ppu: &mut Ppu2C02)
        ensures
            *ppu == old(self).ppu_spec(),
            final(self).ppu_spec() == *final(ppu),
    ;
}

} // verus!

//! The dot clock of the picture processor: background fetches, sprite
//! evaluation, address stepping, and the pixel that each dot puts out.
use vstd::prelude::*;
use vstd::array::{spec_array_fill_for_copy_type, spec_array_update};
use super::ppu::{
    attribute_addr,
    attribute_of,
    color_addr,
    composed,
    nametable_addr,
    pattern_addr,
    sprite_height,
    sprite_in_range,
    sprite_pattern_addr,
    Pixel,
    Ppu2C02,
};
use super::structs::{
    master_color,
    PpuAddressPart,
    PpuControlFlags,
    PpuMaskFlags,
    PpuOamAttributes,
    PpuState,
    PpuStatusFlags,
    FRAME_PIXELS,
    LAST_DOT,
    PALLETE_TABLE,
    POST_RENDER_SCANLINE,
    PRE_RENDER_SCANLINE,
    VBLANK_SCANLINE,
};
use crate::devices::bus::ppu_memory_map;
use crate::devices::cartridge::utils::ICartridge;

verus! {

/// The dot at which the sprites of a scanline are picked.
pub const SPRITE_EVALUATION_DOT: u16 = 257;

/// Whether the dot is one at which the background is fetched.
pub open spec fn in_fetch_range(dot: u16) -> bool {
    (1 <= dot <= 256) || (321 <= dot <= 336)
}

/// Whether the scanline is drawn or prepares drawing.
pub open spec fn is_render_line(scanline: u16) -> bool {
    scanline < POST_RENDER_SCANLINE || scanline == PRE_RENDER_SCANLINE
}

/// The state with sprite `sprite` of sprite memory put into the next free
/// slot of the scanline: its four bytes, its attribute and its column.
pub open spec fn with_slot(state: PpuState, sprite: int) -> PpuState {
    let slot = state.sprite_count as int;
    let from = state.oam;
    let to = state.secondary_oam;
    PpuState {
        secondary_oam: spec_array_update(
            spec_array_update(
                spec_array_update(
                    spec_array_update(to, slot * 4, from[sprite * 4]),
                    slot * 4 + 1,
                    from[sprite * 4 + 1],
                ),
                slot * 4 + 2,
                from[sprite * 4 + 2],
            ),
            slot * 4 + 3,
            from[sprite * 4 + 3],
        ),
        sprite_attr_latches: spec_array_update(state.sprite_attr_latches, slot, from[sprite * 4 + 2]),
        sprite_x_counters: spec_array_update(state.sprite_x_counters, slot, from[sprite * 4 + 3]),
        sprite0_on_line: if slot == 0 {
            sprite == 0
        } else {
            state.sprite0_on_line
        },
        sprite_count: (slot + 1) as u8,
        ..state
    }
}

/// The state after the sprites from `sprite` on were looked at for the
/// scanline.  A sprite in range takes the next free slot; the ninth sets
/// the overflow flag and ends the search.
pub open spec fn evaluate_from(state: PpuState, sprite: int) -> PpuState
    decreases 64 - sprite,
{
    if 0 <= sprite < 64 {
        if sprite_in_range(state.scanline, state.oam[sprite * 4], state.control) {
            if state.sprite_count >= 8 {
                PpuState { status: state.status | PpuStatusFlags::SPRITE_OVERFLOW, ..state }
            } else {
                evaluate_from(with_slot(state, sprite), sprite + 1)
            }
        } else {
            evaluate_from(state, sprite + 1)
        }
    } else {
        state
    }
}

/// The state with the sprite slots emptied: sprite memory of the scanline
/// filled with `$FF`, the shift registers clear, nothing counted.
pub open spec fn slots_cleared(state: PpuState) -> PpuState {
    PpuState {
        secondary_oam: spec_array_fill_for_copy_type::<u8, 32>(0xFF),
        sprite_tile_hi_shift_regs: spec_array_fill_for_copy_type::<u8, 8>(0),
        sprite_tile_lo_shift_regs: spec_array_fill_for_copy_type::<u8, 8>(0),
        sprite_x_counters: spec_array_fill_for_copy_type::<u8, 8>(0xFF),
        sprite_attr_latches: spec_array_fill_for_copy_type::<u8, 8>(0),
        sprite0_on_line: false,
        sprite_count: 0,
        ..state
    }
}

/// The pixel that the background shift registers put out: its colour from
/// the bit planes, its palette from the palette registers, each at the bit
/// that the fine scroll picks.  Transparent while the background is off.
pub open spec fn background_pixel(state: PpuState) -> Pixel {
    if state.mask & PpuMaskFlags::BG_ENABLE != 0 {
        let tile_bit: u16 = 0x8000u16 >> (state.x % 8);
        let attr_bit: u8 = 0x80u8 >> (state.x % 8);
        let hi: int = if state.bg_tile_hi_shift_reg & tile_bit != 0 { 1 } else { 0 };
        let lo: int = if state.bg_tile_lo_shift_reg & tile_bit != 0 { 1 } else { 0 };
        let palette_hi: int = if state.bg_attr_hi_shift_reg & attr_bit != 0 { 1 } else { 0 };
        let palette_lo: int = if state.bg_attr_lo_shift_reg & attr_bit != 0 { 1 } else { 0 };
        Pixel {
            pixel: (2 * hi + lo) as u8,
            palette: (2 * palette_hi + palette_lo) as u8,
            behind: false,
            sprite0: false,
        }
    } else {
        Pixel { pixel: 0, palette: 0, behind: false, sprite0: false }
    }
}

/// The colour that sprite slot `i` puts out: the top bits of its two shift
/// registers.
pub open spec fn sprite_color(state: PpuState, i: int) -> u8 {
    let hi: int = if state.sprite_tile_hi_shift_regs[i] >= 128 { 1 } else { 0 };
    let lo: int = if state.sprite_tile_lo_shift_regs[i] >= 128 { 1 } else { 0 };
    (2 * hi + lo) as u8
}

/// The pixel of the first sprite slot from `i` on that has begun and is not
/// transparent; a transparent pixel where there is none.
pub open spec fn sprite_pixel_from(state: PpuState, i: int) -> Pixel
    decreases 8 - i,
{
    if 0 <= i < 8 {
        if state.sprite_x_counters[i] == 0 && sprite_color(state, i) != 0 {
            Pixel {
                pixel: sprite_color(state, i),
                palette: ((state.sprite_attr_latches[i] & PpuOamAttributes::PALLETE) + 4) as u8,
                behind: state.sprite_attr_latches[i] & PpuOamAttributes::BACKGROUND_PRIORITY != 0,
                sprite0: i == 0 && state.sprite0_on_line,
            }
        } else {
            sprite_pixel_from(state, i + 1)
        }
    } else {
        Pixel { pixel: 0, palette: 0, behind: false, sprite0: false }
    }
}

/// The pixel that the sprites put out.  Transparent while sprites are off.
pub open spec fn sprite_pixel(state: PpuState) -> Pixel {
    if state.mask & PpuMaskFlags::SPRITE_ENABLE != 0 {
        sprite_pixel_from(state, 0)
    } else {
        Pixel { pixel: 0, palette: 0, behind: false, sprite0: false }
    }
}

/// Whether a background pixel and a sprite pixel that meet at `dot` make a
/// sprite 0 hit: neither is transparent, the sprite is sprite 0, and the
/// dot is not one of the leftmost eight while the mask register hides
/// background or sprites there.
pub open spec fn is_sprite0_hit(mask: u8, dot: u16, bg: Pixel, sprite: Pixel) -> bool {
    &&& bg.pixel != 0
    &&& sprite.pixel != 0
    &&& sprite.sprite0
    &&& (dot >= 8 || mask & (PpuMaskFlags::BG_LEFT_ENABLE | PpuMaskFlags::SPRITE_LEFT_ENABLE)
        == PpuMaskFlags::BG_LEFT_ENABLE | PpuMaskFlags::SPRITE_LEFT_ENABLE)
}

impl Ppu2C02 {
    /// The picture processor with another state.
    pub open spec fn with_state(self, state: PpuState) -> Ppu2C02 {
        Ppu2C02 { state, ..self }
    }

    /// The picture processor and the cartridge after the background work of
    /// a dot on a scanline that is drawn or prepares drawing.
    ///
    /// On a fetch dot the shift registers move; then, by the place of the
    /// dot in its group of eight: the fetched tile moves into the shift
    /// registers and the next nametable byte is read, or the attribute is
    /// read, or one bit plane of the tile, or the tile column moves on.  On
    /// dots 337 and 339 the nametable is read and nothing is kept.
    pub open spec fn background_step_spec<C: ICartridge>(self, cart: C) -> (Ppu2C02, C) {
        let dot = self.state.pixel_cycle;
        if in_fetch_range(dot) {
            let p0 = self.update_shift_regs_spec();
            let v = p0.state.v;
            let phase = (dot - 1) % 8;
            if phase == 0 {
                let (byte, p1, c1) = p0.transfer_registers_spec().read_spec(
                    cart,
                    nametable_addr(v),
                );
                (p1.with_state(PpuState { temp_nt_byte: byte, ..p1.state }), c1)
            } else if phase == 2 {
                let (byte, p1, c1) = p0.read_spec(cart, attribute_addr(v));
                (p1.with_state(PpuState { temp_at_byte: attribute_of(byte, v), ..p1.state }), c1)
            } else if phase == 4 {
                let (byte, p1, c1) = p0.read_spec(
                    cart,
                    pattern_addr(p0.state.control, p0.state.temp_nt_byte, v),
                );
                (p1.with_state(PpuState { temp_bg_lo_byte: byte, ..p1.state }), c1)
            } else if phase == 6 {
                let (byte, p1, c1) = p0.read_spec(
                    cart,
                    pattern_addr(p0.state.control, p0.state.temp_nt_byte, v) | 8,
                );
                (p1.with_state(PpuState { temp_bg_hi_byte: byte, ..p1.state }), c1)
            } else if phase == 7 {
                (p0.inc_coarse_x_spec(), cart)
            } else {
                (p0, cart)
            }
        } else if dot == 337 || dot == 339 {
            let (_byte, p1, c1) = self.read_spec(cart, nametable_addr(self.state.v));
            (p1, c1)
        } else {
            (self, cart)
        }
    }

    /// Does the background work of a dot.
    fn background_step<C: ICartridge>(&mut self, cart: &mut C)
        ensures
            (*final(self), *final(cart)) == old(self).background_step_spec(*old(cart)),
    {
        let dot: u16 = self.state.pixel_cycle;
        if (dot >= 1 && dot <= 256) || (dot >= 321 && dot <= 336) {
            self.update_shift_regs();
            let v: u16 = self.state.v;
            let phase: u16 = (dot - 1) % 8;
            if phase == 0 {
                self.transfer_registers();
                let byte: u8 = self.read(
                    cart,
                    ppu_memory_map::PPU_NAMETABLE_START_ADDR | (v & 0x0FFF),
                );
                self.state.temp_nt_byte = byte;
            } else if phase == 2 {
                let byte: u8 = self.read(
                    cart,
                    ppu_memory_map::PPU_NAMETABLE_START_ADDR | super::ppu::ATTR_TABLE_OFFSET | (v
                        & 0x0C00) | ((v >> 4) & 0x38) | ((v >> 2) & 0x07),
                );
                let mut attribute: u8 = byte;
                if ((v & PpuAddressPart::COARSE_Y) >> 5) & 0x02 != 0 {
                    attribute = attribute >> 4;
                }
                if (v & PpuAddressPart::COARSE_X) & 0x02 != 0 {
                    attribute = attribute >> 2;
                }
                self.state.temp_at_byte = attribute & 3;
            } else if phase == 4 {
                let addr: u16 = self.background_pattern_addr();
                let byte: u8 = self.read(cart, addr);
                self.state.temp_bg_lo_byte = byte;
            } else if phase == 6 {
                let addr: u16 = self.background_pattern_addr();
                let byte: u8 = self.read(cart, addr | 8);
                self.state.temp_bg_hi_byte = byte;
            } else if phase == 7 {
                self.inc_coarse_x();
            }
        } else if dot == 337 || dot == 339 {
            let v: u16 = self.state.v;
            let _ = self.read(cart, ppu_memory_map::PPU_NAMETABLE_START_ADDR | (v & 0x0FFF));
        }
    }

    /// The address of the low bit plane of the tile that was fetched last.
    fn background_pattern_addr(&self) -> (addr: u16)
        ensures
            addr == pattern_addr(self.state.control, self.state.temp_nt_byte, self.state.v),
    {
        (((self.state.control & PpuControlFlags::BG_TILE_SELECT) as u16) << 8) | ((
        self.state.temp_nt_byte as u16) << 4) | ((self.state.v & PpuAddressPart::FINE_Y) >> 12)
    }

    /// The picture processor and the cartridge after the pixel rows of the
    /// sprites in the slots from `i` on were read into the shift registers.
    pub open spec fn fetch_sprites_from<C: ICartridge>(self, cart: C, i: int) -> (Ppu2C02, C)
        decreases 8 - i,
    {
        if 0 <= i < 8 && i < self.state.sprite_count {
            let s = self.state;
            let row = s.scanline.wrapping_sub(s.secondary_oam[i * 4] as u16);
            let addr = sprite_pattern_addr(s.control, s.secondary_oam[i * 4 + 1], row);
            let (lo, p1, c1) = self.read_spec(cart, addr);
            let (hi, p2, c2) = p1.read_spec(c1, addr.wrapping_add(8));
            p2.with_state(
                PpuState {
                    sprite_tile_lo_shift_regs: spec_array_update(
                        p2.state.sprite_tile_lo_shift_regs,
                        i,
                        lo,
                    ),
                    sprite_tile_hi_shift_regs: spec_array_update(
                        p2.state.sprite_tile_hi_shift_regs,
                        i,
                        hi,
                    ),
                    ..p2.state
                },
            ).fetch_sprites_from(c2, i + 1)
        } else {
            (self, cart)
        }
    }

    /// The picture processor and the cartridge after the sprite work of a
    /// dot: on dot 257 of a visible scanline the sprites of the scanline
    /// are picked from sprite memory, beginning at the sprite that the
    /// sprite address points into, and their pixel rows are read.
    pub open spec fn sprite_step_spec<C: ICartridge>(self, cart: C) -> (Ppu2C02, C) {
        let s = self.state;
        if s.scanline < POST_RENDER_SCANLINE && s.pixel_cycle == SPRITE_EVALUATION_DOT {
            self.with_state(evaluate_from(slots_cleared(s), (s.oam_addr / 4) as int)).fetch_sprites_from(
                cart,
                0,
            )
        } else {
            (self, cart)
        }
    }

    /// Picks the sprites of the scanline.
    fn evaluate_sprites(&mut self)
        ensures
            *final(self) == old(self).with_state(
                evaluate_from(slots_cleared(old(self).state), (old(self).state.oam_addr / 4) as int),
            ),
    {
        self.state.secondary_oam = [0xFFu8;32];
        self.state.sprite_tile_hi_shift_regs = [0u8;8];
        self.state.sprite_tile_lo_shift_regs = [0u8;8];
        self.state.sprite_x_counters = [0xFFu8;8];
        self.state.sprite_attr_latches = [0u8;8];
        self.state.sprite0_on_line = false;
        self.state.sprite_count = 0;
        let ghost start = self.state;
        let first: usize = (self.state.oam_addr / 4) as usize;
        let height: u16 = if self.state.control & PpuControlFlags::SPRITE_MODE_SELECT != 0 {
            16
        } else {
            8
        };
        let mut sprite: usize = first;
        let mut done: bool = false;
        while sprite < 64 && !done
            invariant
                sprite <= 64,
                self.palette == old(self).palette,
                self.state.sprite_count <= 8,
                height == sprite_height(self.state.control),
                !done ==> evaluate_from(self.state, sprite as int) == evaluate_from(
                    start,
                    first as int,
                ),
                done ==> self.state == evaluate_from(start, first as int),
            decreases 64 - sprite + (if done { 0int } else { 1int }),
        {
            let y: u16 = self.state.oam[sprite * 4] as u16;
            if self.state.scanline >= y && self.state.scanline - y < height {
                if self.state.sprite_count >= 8 {
                    self.state.status = self.state.status | PpuStatusFlags::SPRITE_OVERFLOW;
                    done = true;
                } else {
                    let slot: usize = self.state.sprite_count as usize;
                    self.state.secondary_oam[slot * 4] = self.state.oam[sprite * 4];
                    self.state.secondary_oam[slot * 4 + 1] = self.state.oam[sprite * 4 + 1];
                    self.state.secondary_oam[slot * 4 + 2] = self.state.oam[sprite * 4 + 2];
                    self.state.secondary_oam[slot * 4 + 3] = self.state.oam[sprite * 4 + 3];
                    self.state.sprite_attr_latches[slot] = self.state.oam[sprite * 4 + 2];
                    self.state.sprite_x_counters[slot] = self.state.oam[sprite * 4 + 3];
                    if slot == 0 {
                        self.state.sprite0_on_line = sprite == 0;
                    }
                    self.state.sprite_count = self.state.sprite_count + 1;
                    sprite += 1;
                }
            } else {
                sprite += 1;
            }
        }
    }

    /// Reads the pixel rows of the sprites that were picked.
    fn fetch_sprites<C: ICartridge>(&mut self, cart: &mut C)
        ensures
            (*final(self), *final(cart)) == old(self).fetch_sprites_from(*old(cart), 0),
    {
        let ghost start = *self;
        let ghost start_cart = *cart;
        let mut i: usize = 0;
        while i < 8 && i < self.state.sprite_count as usize
            invariant
                i <= 8,
                self.fetch_sprites_from(*cart, i as int) == start.fetch_sprites_from(start_cart, 0),
            decreases 8 - i,
        {
            let row: u16 = self.state.scanline.wrapping_sub(self.state.secondary_oam[i * 4] as u16);
            let addr: u16 = (((self.state.control & PpuControlFlags::SPRITE_TILE_SELECT) as u16)
                << 9) | ((self.state.secondary_oam[i * 4 + 1] as u16) << 4) | row;
            let lo: u8 = self.read(cart, addr);
            let hi: u8 = self.read(cart, addr.wrapping_add(8));
            self.state.sprite_tile_lo_shift_regs[i] = lo;
            self.state.sprite_tile_hi_shift_regs[i] = hi;
            i += 1;
        }
    }

    /// Does the sprite work of a dot.
    fn sprite_step<C: ICartridge>(&mut self, cart: &mut C)
        ensures
            (*final(self), *final(cart)) == old(self).sprite_step_spec(*old(cart)),
    {
        if self.state.scanline < POST_RENDER_SCANLINE && self.state.pixel_cycle
            == SPRITE_EVALUATION_DOT {
            self.evaluate_sprites();
            self.fetch_sprites(cart);
        }
    }

    /// The picture processor after the address stepping of a dot on a
    /// scanline that is drawn or prepares drawing: the pixel row moves on
    /// at dot 256, the horizontal position is reloaded at dot 257.  On the
    /// pre-render scanline the three flags are cleared at dot 1 and the
    /// vertical position is reloaded on dots 280 to 304.
    pub open spec fn address_step_spec(self) -> Ppu2C02 {
        let dot = self.state.pixel_cycle;
        let p1 = if dot == 256 {
            self.inc_fine_y_spec()
        } else {
            self
        };
        let p2 = if dot == 257 {
            p1.transfer_x_addr_spec()
        } else {
            p1
        };
        if self.state.scanline == PRE_RENDER_SCANLINE {
            let p3 = if dot == 1 {
                p2.with_state(
                    PpuState {
                        status: p2.state.status & !(PpuStatusFlags::SPRITE_0_HIT
                            | PpuStatusFlags::SPRITE_OVERFLOW | PpuStatusFlags::VBLANK),
                        ..p2.state
                    },
                )
            } else {
                p2
            };
            if 280 <= dot <= 304 {
                p3.transfer_y_addr_spec()
            } else {
                p3
            }
        } else {
            p2
        }
    }

    /// Does the address stepping of a dot.
    fn address_step(&mut self)
        ensures
            *final(self) == old(self).address_step_spec(),
    {
        let dot: u16 = self.state.pixel_cycle;
        if dot == 256 {
            self.inc_fine_y();
        }
        if dot == 257 {
            self.transfer_x_addr();
        }
        if self.state.scanline == PRE_RENDER_SCANLINE {
            if dot == 1 {
                self.state.status = self.state.status & !(PpuStatusFlags::SPRITE_0_HIT
                    | PpuStatusFlags::SPRITE_OVERFLOW | PpuStatusFlags::VBLANK);
            }
            if dot >= 280 && dot <= 304 {
                self.transfer_y_addr();
            }
        }
    }

    /// The picture processor after vertical blanking began, which it does
    /// at dot 1 of scanline 241: the flag is set, and an NMI waits where
    /// the control register asks for one.
    pub open spec fn vblank_step_spec(self) -> Ppu2C02 {
        let s = self.state;
        if s.scanline == VBLANK_SCANLINE && s.pixel_cycle == 1 {
            self.with_state(
                PpuState {
                    vblank_nmi_ready: s.control & PpuControlFlags::VBLANK_NMI_ENABLE != 0,
                    status: s.status | PpuStatusFlags::VBLANK,
                    ..s
                },
            )
        } else {
            self
        }
    }

    /// Begins vertical blanking where the dot is the one for it.
    fn vblank_step(&mut self)
        ensures
            *final(self) == old(self).vblank_step_spec(),
    {
        if self.state.scanline == VBLANK_SCANLINE && self.state.pixel_cycle == 1 {
            self.state.vblank_nmi_ready = self.state.control & PpuControlFlags::VBLANK_NMI_ENABLE
                != 0;
            self.state.status = self.state.status | PpuStatusFlags::VBLANK;
        }
    }

    /// The picture processor with the pixel `index` of the picture painted
    /// in the colour `color` of the master palette.  Pixels beyond the
    /// picture are dropped.
    pub open spec fn with_pixel(self, index: int, color: u8) -> Ppu2C02 {
        if 0 <= index < FRAME_PIXELS {
            self.with_state(
                PpuState {
                    frame_data: spec_array_update(
                        spec_array_update(
                            spec_array_update(
                                self.state.frame_data,
                                index * 3,
                                master_color(color, 0),
                            ),
                            index * 3 + 1,
                            master_color(color, 1),
                        ),
                        index * 3 + 2,
                        master_color(color, 2),
                    ),
                    ..self.state
                },
            )
        } else {
            self
        }
    }

    /// Paints a pixel of the picture.
    fn put_pixel(&mut self, index: usize, color: u8)
        ensures
            *final(self) == old(self).with_pixel(index as int, color),
    {
        if index < FRAME_PIXELS {
            let base: usize = (color % 64) as usize * 3;
            self.state.frame_data[index * 3] = PALLETE_TABLE[base];
            self.state.frame_data[index * 3 + 1] = PALLETE_TABLE[base + 1];
            self.state.frame_data[index * 3 + 2] = PALLETE_TABLE[base + 2];
        }
    }

    /// The background pixel of this dot.
    fn background_pixel(&self) -> (p: Pixel)
        ensures
            p == background_pixel(self.state),
    {
        if self.state.mask & PpuMaskFlags::BG_ENABLE != 0 {
            let tile_bit: u16 = 0x8000u16 >> (self.state.x % 8);
            let attr_bit: u8 = 0x80u8 >> (self.state.x % 8);
            let hi: u8 = if self.state.bg_tile_hi_shift_reg & tile_bit != 0 { 1 } else { 0 };
            let lo: u8 = if self.state.bg_tile_lo_shift_reg & tile_bit != 0 { 1 } else { 0 };
            let palette_hi: u8 = if self.state.bg_attr_hi_shift_reg & attr_bit != 0 { 1 } else { 0 };
            let palette_lo: u8 = if self.state.bg_attr_lo_shift_reg & attr_bit != 0 { 1 } else { 0 };
            Pixel {
                pixel: 2 * hi + lo,
                palette: 2 * palette_hi + palette_lo,
                behind: false,
                sprite0: false,
            }
        } else {
            Pixel { pixel: 0, palette: 0, behind: false, sprite0: false }
        }
    }

    /// The sprite pixel of this dot.
    fn sprite_pixel(&self) -> (p: Pixel)
        ensures
            p == sprite_pixel(self.state),
    {
        let mut found = Pixel { pixel: 0, palette: 0, behind: false, sprite0: false };
        if self.state.mask & PpuMaskFlags::SPRITE_ENABLE != 0 {
            let mut i: usize = 0;
            while i < 8 && found.pixel == 0
                invariant
                    i <= 8,
                    found.pixel == 0 ==> sprite_pixel_from(self.state, i as int)
                        == sprite_pixel_from(self.state, 0) && found == (Pixel {
                        pixel: 0,
                        palette: 0,
                        behind: false,
                        sprite0: false,
                    }),
                    found.pixel != 0 ==> found == sprite_pixel_from(self.state, 0),
                decreases 8 - i,
            {
                let hi: u8 = if self.state.sprite_tile_hi_shift_regs[i] >= 128 { 1 } else { 0 };
                let lo: u8 = if self.state.sprite_tile_lo_shift_regs[i] >= 128 { 1 } else { 0 };
                let color: u8 = 2 * hi + lo;
                if self.state.sprite_x_counters[i] == 0 && color != 0 {
                    let attr: u8 = self.state.sprite_attr_latches[i];
                    proof {
                        lemma_palette_bits(attr);
                    }
                    found = Pixel {
                        pixel: color,
                        palette: (attr & PpuOamAttributes::PALLETE) + 4,
                        behind: attr & PpuOamAttributes::BACKGROUND_PRIORITY != 0,
                        sprite0: i == 0 && self.state.sprite0_on_line,
                    };
                }
                i += 1;
            }
        }
        found
    }

    /// The picture processor and the cartridge after the pixel of this dot
    /// was put out.
    ///
    /// On dots 4 to 259 of a visible scanline the background pixel and the
    /// sprite pixel are composed, a sprite 0 hit is flagged, the colour is
    /// read from palette memory, and the pixel `scanline * 256 + dot` of the
    /// picture is painted.  On dots 0 to 3 of a visible scanline that pixel
    /// is painted in the backdrop colour.
    pub open spec fn pixel_step_spec<C: ICartridge>(self, cart: C) -> (Ppu2C02, C) {
        let s = self.state;
        let index = s.scanline * 256 + s.pixel_cycle;
        if s.scanline < POST_RENDER_SCANLINE && 4 <= s.pixel_cycle <= 259 {
            let bg = background_pixel(s);
            let sprite = sprite_pixel(s);
            let flagged = if is_sprite0_hit(s.mask, s.pixel_cycle, bg, sprite) {
                self.with_state(PpuState { status: s.status | PpuStatusFlags::SPRITE_0_HIT, ..s })
            } else {
                self
            };
            let (color, p1, c1) = flagged.read_spec(cart, color_addr(composed(bg, sprite)));
            (p1.with_pixel(index, color), c1)
        } else if s.scanline < POST_RENDER_SCANLINE && s.pixel_cycle < 4 {
            let (color, p1, c1) = self.read_spec(cart, ppu_memory_map::PPU_PALETTE_START_ADDR);
            (p1.with_pixel(index, color), c1)
        } else {
            (self, cart)
        }
    }

    /// Puts out the pixel of this dot.
    fn pixel_step<C: ICartridge>(&mut self, cart: &mut C)
        ensures
            (*final(self), *final(cart)) == old(self).pixel_step_spec(*old(cart)),
    {
        let dot: u16 = self.state.pixel_cycle;
        if self.state.scanline < POST_RENDER_SCANLINE && dot <= 259 {
            let index: usize = self.state.scanline as usize * 256 + dot as usize;
            if dot >= 4 {
                let bg = self.background_pixel();
                let sprite = self.sprite_pixel();
                let left_shown: u8 = PpuMaskFlags::BG_LEFT_ENABLE | PpuMaskFlags::SPRITE_LEFT_ENABLE;
                if bg.pixel != 0 && sprite.pixel != 0 && sprite.sprite0 && (dot >= 8
                    || self.state.mask & left_shown == left_shown) {
                    self.state.status = self.state.status | PpuStatusFlags::SPRITE_0_HIT;
                }
                let shown = if sprite.pixel != 0 && (bg.pixel == 0 || !sprite.behind) {
                    sprite
                } else {
                    bg
                };
                let addr: u16 = if shown.pixel == 0 {
                    ppu_memory_map::PPU_PALETTE_START_ADDR
                } else {
                    ppu_memory_map::PPU_PALETTE_START_ADDR | (((shown.palette as u16) << 2) | (
                    shown.pixel as u16))
                };
                let color: u8 = self.read(cart, addr);
                self.put_pixel(index, color);
            } else {
                let color: u8 = self.read(cart, ppu_memory_map::PPU_PALETTE_START_ADDR);
                self.put_pixel(index, color);
            }
        }
    }

    /// The picture processor after the dot counter moved on: to the next
    /// dot, from the last dot of a scanline to the first of the next, from
    /// the last dot of the pre-render scanline to the first dot of the
    /// first scanline, which completes a frame.
    pub open spec fn advance_spec(self) -> Ppu2C02 {
        let s = self.state;
        if s.pixel_cycle >= LAST_DOT {
            if s.scanline >= PRE_RENDER_SCANLINE {
                self.with_state(PpuState { pixel_cycle: 0, scanline: 0, frame_ready: true, ..s })
            } else {
                self.with_state(
                    PpuState {
                        pixel_cycle: 0,
                        scanline: (s.scanline + 1) as u16,
                        frame_ready: false,
                        ..s
                    },
                )
            }
        } else {
            self.with_state(
                PpuState { pixel_cycle: (s.pixel_cycle + 1) as u16, frame_ready: false, ..s },
            )
        }
    }

    /// Moves the dot counter on.
    fn advance(&mut self)
        ensures
            *final(self) == old(self).advance_spec(),
    {
        self.state.frame_ready = false;
        if self.state.pixel_cycle >= LAST_DOT {
            self.state.pixel_cycle = 0;
            if self.state.scanline >= PRE_RENDER_SCANLINE {
                self.state.scanline = 0;
                self.state.frame_ready = true;
            } else {
                self.state.scanline = self.state.scanline + 1;
            }
        } else {
            self.state.pixel_cycle = self.state.pixel_cycle + 1;
        }
    }

    /// The picture processor and the cartridge after one dot.
    pub open spec fn clock_spec<C: ICartridge>(self, cart: C) -> (Ppu2C02, C) {
        let (p1, c1) = if is_render_line(self.state.scanline) {
            let (a, ca) = self.background_step_spec(cart);
            let (b, cb) = a.sprite_step_spec(ca);
            (b.address_step_spec(), cb)
        } else {
            (self, cart)
        };
        let (p2, c2) = p1.vblank_step_spec().pixel_step_spec(c1);
        (p2.advance_spec(), c2)
    }

    /// Runs the picture processor for one dot: fetches for the background,
    /// picks sprites, steps the address registers, raises vertical
    /// blanking, paints a pixel, and moves on to the next dot.
    pub fn clock<C: ICartridge>(&mut self, cart: &mut C)
        ensures
            (*final(self), *final(cart)) == old(self).clock_spec(*old(cart)),
    {
        if self.state.scanline < POST_RENDER_SCANLINE || self.state.scanline == PRE_RENDER_SCANLINE {
            self.background_step(cart);
            self.sprite_step(cart);
            self.address_step();
        }
        self.vblank_step();
        self.pixel_step(cart);
        self.advance();
    }
}

proof fn lemma_palette_bits(attr: u8)
    by (bit_vector)
    ensures
        attr & 0x03 <= 3,
{
}

} // verus!

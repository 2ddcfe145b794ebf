//! What every step of the picture processor keeps: its place on the grid of
//! dots and scanlines, and the width of its address registers.
use vstd::prelude::*;
use super::ppu::{
    coarse_x_incremented,
    data_address_incremented,
    fine_y_incremented,
    next_coarse_y,
    t_after_addr_high,
    t_after_addr_low,
    t_after_control,
    t_after_scroll_x,
    t_after_scroll_y,
    x_transferred,
    y_transferred,
    Ppu2C02,
};
use super::render::{evaluate_from, is_render_line, slots_cleared, with_slot};
use super::structs::{PpuAddressPart, PpuState, LAST_DOT, PRE_RENDER_SCANLINE};
use crate::devices::cartridge::utils::ICartridge;

verus! {

/// Whether two states are at the same dot of the same scanline with the
/// same registers for addresses, scroll, control and mask.
pub open spec fn same_place(a: PpuState, b: PpuState) -> bool {
    &&& a.pixel_cycle == b.pixel_cycle
    &&& a.scanline == b.scanline
    &&& a.frame_ready == b.frame_ready
    &&& a.v == b.v
    &&& a.t == b.t
    &&& a.x == b.x
    &&& a.w == b.w
    &&& a.control == b.control
    &&& a.mask == b.mask
    &&& a.oam_addr == b.oam_addr
}

proof fn lemma_register_bounds(v: u16, t: u16, row: u16, data: u8)
    by (bit_vector)
    requires
        v <= 0x7FFF,
        t <= 0x7FFF,
        row <= 31,
    ensures
        v & 0x001F != 31 ==> v + 1 <= 0x7FFF,
        (v & !0x001Fu16) ^ 0x0400 <= 0x7FFF,
        v & 0x7000 != 0x7000 ==> v + 0x1000 <= 0x7FFF,
        ((v & !0x7000u16) & 0x03E0) >> 5 <= 31,
        ((v & !0x7000u16) & !0x03E0u16) | (row << 5) <= 0x7FFF,
        (((v & !0x7000u16) ^ 0x0800) & !0x03E0u16) | (row << 5) <= 0x7FFF,
        (v & !0x041Fu16) | (t & 0x041F) <= 0x7FFF,
        (v & !0x7BE0u16) | (t & 0x7BE0) <= 0x7FFF,
        (t & (0x7FFFu16 & !(0x0400u16 | 0x0800u16))) | (((data & 0x03) as u16) << 10) <= 0x7FFF,
        (t & !0x001Fu16) | (((data as u16) >> 3) & 0x001F) <= 0x7FFF,
        (t & !(0x7000u16 | 0x03E0u16)) | ((0x07 & (data as u16)) << 12) | (((data as u16) & 0xF8)
            << 2) <= 0x7FFF,
        (t & 0x00FF) | (((data as u16) & 0x3F) << 8) <= 0x7FFF,
        (t & 0xFF00) | (data as u16) <= 0x7FFF,
        0x7FFFu16 & row <= 0x7FFF,
        data & 0x07 <= 7,
{
}

proof fn lemma_mask_bound(w: u16)
    by (bit_vector)
    ensures
        0x7FFFu16 & w <= 0x7FFF,
{
}

/// The address registers keep their fifteen bits through every operation
/// that the ports and the dot clock apply to them.
pub proof fn registers_stay_in_fifteen_bits(v: u16, t: u16, control: u8, data: u8)
    requires
        v <= PpuAddressPart::ALL,
        t <= PpuAddressPart::ALL,
    ensures
        coarse_x_incremented(v) <= PpuAddressPart::ALL,
        fine_y_incremented(v) <= PpuAddressPart::ALL,
        x_transferred(v, t) <= PpuAddressPart::ALL,
        y_transferred(v, t) <= PpuAddressPart::ALL,
        data_address_incremented(v, control) <= PpuAddressPart::ALL,
        t_after_control(t, data) <= PpuAddressPart::ALL,
        t_after_scroll_x(t, data) <= PpuAddressPart::ALL,
        t_after_scroll_y(t, data) <= PpuAddressPart::ALL,
        t_after_addr_high(t, data) <= PpuAddressPart::ALL,
        t_after_addr_low(t, data) <= PpuAddressPart::ALL,
        data & 0x07 <= 7,
{
    let row = ((v & !PpuAddressPart::FINE_Y) & PpuAddressPart::COARSE_Y) >> 5;
    lemma_register_bounds(v, t, 0, data);
    lemma_register_bounds(v, t, next_coarse_y(row), data);
    lemma_mask_bound(v.wrapping_add(32));
    lemma_mask_bound(v.wrapping_add(1));
}

/// Moving the sprite shift registers leaves the place and the sprite count.
pub proof fn shift_sprites_keeps_place(state: PpuState, i: int)
    ensures
        same_place(Ppu2C02::shift_sprites_from(state, i), state),
        Ppu2C02::shift_sprites_from(state, i).sprite_count == state.sprite_count,
        Ppu2C02::shift_sprites_from(state, i).status == state.status,
        Ppu2C02::shift_sprites_from(state, i).vblank_nmi_ready == state.vblank_nmi_ready,
    decreases 8 - i,
{
    if 0 <= i < 8 {
        if state.sprite_x_counters[i] > 0 {
            shift_sprites_keeps_place(
                PpuState {
                    sprite_x_counters: vstd::array::spec_array_update(
                        state.sprite_x_counters,
                        i,
                        (state.sprite_x_counters[i] - 1) as u8,
                    ),
                    ..state
                },
                i + 1,
            );
        } else {
            shift_sprites_keeps_place(
                PpuState {
                    sprite_tile_hi_shift_regs: vstd::array::spec_array_update(
                        state.sprite_tile_hi_shift_regs,
                        i,
                        state.sprite_tile_hi_shift_regs[i] << 1u8,
                    ),
                    sprite_tile_lo_shift_regs: vstd::array::spec_array_update(
                        state.sprite_tile_lo_shift_regs,
                        i,
                        state.sprite_tile_lo_shift_regs[i] << 1u8,
                    ),
                    ..state
                },
                i + 1,
            );
        }
    }
}

/// Picking sprites leaves the place, and never counts more than eight.
pub proof fn evaluate_keeps_place(state: PpuState, sprite: int)
    requires
        state.sprite_count <= 8,
    ensures
        same_place(evaluate_from(state, sprite), state),
        evaluate_from(state, sprite).sprite_count <= 8,
        evaluate_from(state, sprite).vblank_nmi_ready == state.vblank_nmi_ready,
    decreases 64 - sprite,
{
    if 0 <= sprite < 64 {
        if super::ppu::sprite_in_range(state.scanline, state.oam[sprite * 4], state.control) {
            if state.sprite_count < 8 {
                evaluate_keeps_place(with_slot(state, sprite), sprite + 1);
            }
        } else {
            evaluate_keeps_place(state, sprite + 1);
        }
    }
}

/// Reading the pixel rows of the sprites leaves the place and the sprite
/// count.
pub proof fn fetch_sprites_keeps_place<C: ICartridge>(ppu: Ppu2C02, cart: C, i: int)
    ensures
        same_place(ppu.fetch_sprites_from(cart, i).0.state, ppu.state),
        ppu.fetch_sprites_from(cart, i).0.state.sprite_count == ppu.state.sprite_count,
        ppu.fetch_sprites_from(cart, i).0.state.vblank_nmi_ready == ppu.state.vblank_nmi_ready,
    decreases 8 - i,
{
    if 0 <= i < 8 && i < ppu.state.sprite_count {
        let s = ppu.state;
        let row = s.scanline.wrapping_sub(s.secondary_oam[i * 4] as u16);
        let addr = super::ppu::sprite_pattern_addr(s.control, s.secondary_oam[i * 4 + 1], row);
        let (lo, p1, c1) = ppu.read_spec(cart, addr);
        let (hi, p2, c2) = p1.read_spec(c1, addr.wrapping_add(8));
        let p3 = p2.with_state(
            PpuState {
                sprite_tile_lo_shift_regs: vstd::array::spec_array_update(
                    p2.state.sprite_tile_lo_shift_regs,
                    i,
                    lo,
                ),
                sprite_tile_hi_shift_regs: vstd::array::spec_array_update(
                    p2.state.sprite_tile_hi_shift_regs,
                    i,
                    hi,
                ),
                ..p2.state
            },
        );
        fetch_sprites_keeps_place(p3, c2, i + 1);
    }
}

/// Whether `after` is at the dot and scanline of `before`, and keeps the
/// invariant.
pub open spec fn stays(before: Ppu2C02, after: Ppu2C02) -> bool {
    &&& after.inv()
    &&& after.state.pixel_cycle == before.state.pixel_cycle
    &&& after.state.scanline == before.state.scanline
    &&& after.state.frame_ready == before.state.frame_ready
}

/// A read from the picture processor's bus stays in place.
pub proof fn read_stays<C: ICartridge>(ppu: Ppu2C02, cart: C, addr: u16)
    requires
        ppu.inv(),
    ensures
        stays(ppu, ppu.read_spec(cart, addr).1),
        same_place(ppu.read_spec(cart, addr).1.state, ppu.state),
        ppu.read_spec(cart, addr).1.state.sprite_count == ppu.state.sprite_count,
{
}

/// Moving the shift registers stays in place.
pub proof fn update_shift_regs_stays(ppu: Ppu2C02)
    requires
        ppu.inv(),
    ensures
        stays(ppu, ppu.update_shift_regs_spec()),
        same_place(ppu.update_shift_regs_spec().state, ppu.state),
{
    let s = ppu.state;
    let bg = if s.mask & super::structs::PpuMaskFlags::BG_ENABLE != 0 {
        PpuState {
            bg_tile_hi_shift_reg: s.bg_tile_hi_shift_reg << 1u16,
            bg_tile_lo_shift_reg: s.bg_tile_lo_shift_reg << 1u16,
            bg_attr_lo_shift_reg: s.bg_attr_lo_shift_reg << 1u8,
            bg_attr_hi_shift_reg: s.bg_attr_hi_shift_reg << 1u8,
            ..s
        }
    } else {
        s
    };
    shift_sprites_keeps_place(bg, 0);
}

/// The background work of a dot stays in place.
pub proof fn background_step_stays<C: ICartridge>(ppu: Ppu2C02, cart: C)
    requires
        ppu.inv(),
    ensures
        stays(ppu, ppu.background_step_spec(cart).0),
{
    let p0 = ppu.update_shift_regs_spec();
    update_shift_regs_stays(ppu);
    registers_stay_in_fifteen_bits(p0.state.v, p0.state.t, p0.state.control, 0);
}

/// The sprite work of a dot stays in place.
pub proof fn sprite_step_stays<C: ICartridge>(ppu: Ppu2C02, cart: C)
    requires
        ppu.inv(),
    ensures
        stays(ppu, ppu.sprite_step_spec(cart).0),
{
    let cleared = slots_cleared(ppu.state);
    evaluate_keeps_place(cleared, (ppu.state.oam_addr / 4) as int);
    let picked = ppu.with_state(evaluate_from(cleared, (ppu.state.oam_addr / 4) as int));
    fetch_sprites_keeps_place(picked, cart, 0);
}

/// The address stepping of a dot stays in place.
pub proof fn address_step_stays(ppu: Ppu2C02)
    requires
        ppu.inv(),
    ensures
        stays(ppu, ppu.address_step_spec()),
{
    let s = ppu.state;
    registers_stay_in_fifteen_bits(s.v, s.t, s.control, 0);
    registers_stay_in_fifteen_bits(fine_y_incremented(s.v), s.t, s.control, 0);
    registers_stay_in_fifteen_bits(x_transferred(s.v, s.t), s.t, s.control, 0);
}

/// Putting out a pixel stays in place.
pub proof fn pixel_step_stays<C: ICartridge>(ppu: Ppu2C02, cart: C)
    requires
        ppu.inv(),
    ensures
        stays(ppu, ppu.pixel_step_spec(cart).0),
{
}

/// Moving the address on after an access through `$2007` stays in place.
pub proof fn data_access_stays(ppu: Ppu2C02)
    requires
        ppu.inv(),
    ensures
        stays(ppu, ppu.data_access_spec()),
{
    let s = ppu.state;
    registers_stay_in_fifteen_bits(s.v, s.t, s.control, 0);
    registers_stay_in_fifteen_bits(coarse_x_incremented(s.v), s.t, s.control, 0);
}

/// A read of a port stays in place.
pub proof fn control_port_read_stays<C: ICartridge>(ppu: Ppu2C02, cart: C, port_addr: u16)
    requires
        ppu.inv(),
    ensures
        stays(ppu, ppu.control_port_read_spec(cart, port_addr).1),
{
    data_access_stays(ppu);
}

/// A write to a port stays in place.
pub proof fn control_port_write_stays<C: ICartridge>(
    ppu: Ppu2C02,
    cart: C,
    port_addr: u16,
    data: u8,
)
    requires
        ppu.inv(),
    ensures
        stays(ppu, ppu.control_port_write_spec(cart, port_addr, data).0),
{
    let s = ppu.state;
    registers_stay_in_fifteen_bits(s.v, s.t, s.control, data);
    let written = (Ppu2C02 {
        state: PpuState { last_control_port_value: data, ..s },
        ..ppu
    }).write_spec(cart, s.v, data).0;
    data_access_stays(written);
}

/// Putting a byte into sprite memory stays in place.
pub proof fn write_oam_stays(ppu: Ppu2C02, addr: u8, data: u8)
    requires
        ppu.inv(),
    ensures
        stays(ppu, ppu.write_oam_spec(addr, data)),
{
}

/// What a dot does before the counter moves on stays in place.
proof fn lemma_before_advance<C: ICartridge>(ppu: Ppu2C02, cart: C)
    requires
        ppu.inv(),
    ensures
        ({
            let (p1, c1) = if is_render_line(ppu.state.scanline) {
                let (a, ca) = ppu.background_step_spec(cart);
                let (b, cb) = a.sprite_step_spec(ca);
                (b.address_step_spec(), cb)
            } else {
                (ppu, cart)
            };
            stays(ppu, p1.vblank_step_spec().pixel_step_spec(c1).0)
        }),
{
    let (p1, c1) = if is_render_line(ppu.state.scanline) {
        let (a, ca) = ppu.background_step_spec(cart);
        background_step_stays(ppu, cart);
        let (b, cb) = a.sprite_step_spec(ca);
        sprite_step_stays(a, ca);
        address_step_stays(b);
        (b.address_step_spec(), cb)
    } else {
        (ppu, cart)
    };
    assert(stays(ppu, p1));
    assert(stays(ppu, p1.vblank_step_spec()));
    pixel_step_stays(p1.vblank_step_spec(), c1);
}

/// A dot keeps the invariant of the picture processor.
pub proof fn clock_keeps_inv<C: ICartridge>(ppu: Ppu2C02, cart: C)
    requires
        ppu.inv(),
    ensures
        ppu.clock_spec(cart).0.inv(),
{
    lemma_before_advance(ppu, cart);
}

/// A dot moves the picture processor to the next place on the grid: the
/// next dot, or the first dot of the next scanline, or the first dot of the
/// first scanline, which completes a frame.
pub proof fn clock_moves_on<C: ICartridge>(ppu: Ppu2C02, cart: C)
    requires
        ppu.inv(),
    ensures
        ({
            let after = ppu.clock_spec(cart).0.state;
            let before = ppu.state;
            if before.pixel_cycle < LAST_DOT {
                &&& after.pixel_cycle == before.pixel_cycle + 1
                &&& after.scanline == before.scanline
                &&& !after.frame_ready
            } else if before.scanline < PRE_RENDER_SCANLINE {
                &&& after.pixel_cycle == 0
                &&& after.scanline == before.scanline + 1
                &&& !after.frame_ready
            } else {
                &&& after.pixel_cycle == 0
                &&& after.scanline == 0
                &&& after.frame_ready
            }
        }),
{
    lemma_before_advance(ppu, cart);
}

} // verus!

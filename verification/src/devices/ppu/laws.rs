//! What the ports and the address registers of the picture processor
//! promise to a program.
use vstd::prelude::*;
use super::ppu::{
    data_address_incremented,
    fine_y_incremented,
    coarse_x_incremented,
    palette_index_spec,
    Ppu2C02,
    PpuPaletteRam,
};
use super::structs::{PpuAddressPart, PpuControlFlags, PpuControlPorts};
use crate::devices::cartridge::utils::ICartridge;

verus! {

/// The tile column in an address register.
pub open spec fn coarse_x(v: u16) -> u16 {
    v & 0x1F
}

/// The tile row in an address register.
pub open spec fn coarse_y(v: u16) -> u16 {
    (v >> 5) & 0x1F
}

/// Whether an address register points into the right pair of nametables.
pub open spec fn nametable_x(v: u16) -> bool {
    v & PpuAddressPart::NAMETABLE_X != 0
}

/// Whether an address register points into the lower pair of nametables.
pub open spec fn nametable_y(v: u16) -> bool {
    v & PpuAddressPart::NAMETABLE_Y != 0
}

/// The pixel row in an address register.
pub open spec fn fine_y(v: u16) -> u16 {
    (v >> 12) & 0x07
}

/// The four sprite palette entries `$10`, `$14`, `$18` and `$1C` are the
/// background entries `$00`, `$04`, `$08` and `$0C`: a read of one is a
/// read of the other, and a write to either writes both.
pub proof fn palette_mirrors(palette: PpuPaletteRam, addr: u16, data: u8)
    requires
        addr == 0x10 || addr == 0x14 || addr == 0x18 || addr == 0x1C,
    ensures
        palette.peek_spec(addr) == palette.peek_spec((addr - 0x10) as u16),
        palette.write_spec(addr, data) == palette.write_spec((addr - 0x10) as u16, data),
        palette.write_spec(addr, data).peek_spec((addr - 0x10) as u16) == data,
        palette.write_spec((addr - 0x10) as u16, data).peek_spec(addr) == data,
{
    vstd::array::axiom_spec_array_update(
        palette.palette_buffer,
        palette_index_spec(addr) as int,
        data,
    );
}

/// An entry of palette memory that was written reads back, and the write
/// leaves the other entries alone.
pub proof fn palette_reads_back(palette: PpuPaletteRam, addr: u16, other: u16, data: u8)
    ensures
        palette.write_spec(addr, data).peek_spec(addr) == data,
        palette_index_spec(other) != palette_index_spec(addr) ==> palette.write_spec(
            addr,
            data,
        ).peek_spec(other) == palette.peek_spec(other),
{
    vstd::array::axiom_spec_array_update(
        palette.palette_buffer,
        palette_index_spec(addr) as int,
        data,
    );
}

/// A read through `$2007` from below palette memory returns what the read
/// before it left in the buffer, not the byte at the address; that byte is
/// what the next read from below palette memory returns.
pub proof fn data_reads_are_delayed<C: ICartridge>(ppu: Ppu2C02, cart: C)
    requires
        !ppu.points_at_palette(),
    ensures
        ({
            let (first, p1, c1) = ppu.control_port_read_spec(cart, PpuControlPorts::PPUDATA);
            let (second, p2, c2) = p1.control_port_read_spec(c1, PpuControlPorts::PPUDATA);
            let at_address = ppu.data_access_spec().read_spec(cart, ppu.state.v).0;
            &&& first == ppu.state.ppudata_buffer
            &&& p1.state.ppudata_buffer == at_address
            &&& !p1.points_at_palette() ==> second == at_address
        }),
{
}

/// A read through `$2007` from palette memory returns the palette entry at
/// once, and fills the buffer from the address with its high bits cleared.
pub proof fn palette_reads_are_immediate<C: ICartridge>(ppu: Ppu2C02, cart: C)
    requires
        ppu.points_at_palette(),
    ensures
        ({
            let (data, p1, c1) = ppu.control_port_read_spec(cart, PpuControlPorts::PPUDATA);
            let moved = ppu.data_access_spec();
            &&& data == moved.palette.peek_spec(ppu.state.v)
            &&& data == ppu.palette.peek_spec(ppu.state.v)
            &&& p1.state.ppudata_buffer == moved.read_spec(cart, ppu.state.v).1.read_spec(
                moved.read_spec(cart, ppu.state.v).2,
                ppu.state.v & 0x0FFF,
            ).0
        }),
{
}

proof fn lemma_address_pair(t: u16, high: u8, low: u8)
    by (bit_vector)
    ensures
        ((((t & 0x00FF) | (((high as u16) & 0x3F) << 8)) & 0xFF00) | (low as u16)) == ((((high
            & 0x3F) as u16) << 8) | (low as u16)),
        ((((high & 0x3F) as u16) << 8) | (low as u16)) == (high & 0x3F) * 256 + low,
        high & 0x3F <= 63,
{
}

/// Two writes to the address port set `v`: the low six bits of the first
/// byte become its high byte, the second byte its low byte.  Each access
/// through the data port then moves `v` on by 1, or by 32 where the control
/// register says so, within fifteen bits.
pub proof fn address_port_sets_v<C: ICartridge>(ppu: Ppu2C02, cart: C, high: u8, low: u8)
    requires
        !ppu.state.w,
        !ppu.is_rendering(),
    ensures
        ({
            let (p1, c1) = ppu.control_port_write_spec(cart, PpuControlPorts::PPUADDR, high);
            let (p2, c2) = p1.control_port_write_spec(c1, PpuControlPorts::PPUADDR, low);
            let (_data, p3, c3) = p2.control_port_read_spec(c2, PpuControlPorts::PPUDATA);
            let (p4, c4) = p2.control_port_write_spec(c2, PpuControlPorts::PPUDATA, low);
            let step: int = if ppu.state.control & PpuControlFlags::VRAM_INCREMENT_SELECT != 0 {
                32
            } else {
                1
            };
            &&& p2.state.v == (high & 0x3F) * 256 + low
            &&& p2.state.t == p2.state.v
            &&& !p2.state.w
            &&& p3.state.v == data_address_incremented(p2.state.v, ppu.state.control)
            &&& p4.state.v == p3.state.v
            &&& p2.state.v + step <= 0x7FFF ==> p3.state.v == p2.state.v + step
        }),
{
    lemma_address_pair(ppu.state.t, high, low);
    let v = ((high & 0x3F) * 256 + low) as u16;
    lemma_fifteen_bits(v.wrapping_add(1));
    lemma_fifteen_bits(v.wrapping_add(32));
}

proof fn lemma_fifteen_bits(w: u16)
    by (bit_vector)
    ensures
        w <= 0x7FFF ==> 0x7FFFu16 & w == w,
{
}

proof fn lemma_pixel_row(v: u16, up: u16, row: u16, next: u16)
    by (bit_vector)
    requires
        v <= 0x7FFF,
        up == v + 0x1000,
        row == ((v & !0x7000u16) & 0x03E0) >> 5,
        next <= 31,
    ensures
        row == (v >> 5) & 0x1F,
        row <= 31,
        (v & 0x7000 != 0x7000) == ((v >> 12) & 0x07 != 7),
        (v >> 12) & 0x07 <= 7,
        v & 0x7000 != 0x7000 ==> {
            &&& (up >> 12) & 0x07 == ((v >> 12) & 0x07) + 1
            &&& up & 0x1F == v & 0x1F
            &&& (up >> 5) & 0x1F == (v >> 5) & 0x1F
            &&& up & 0x0400 == v & 0x0400
            &&& up & 0x0800 == v & 0x0800
        },
        ({
            let r = (((v & !0x7000u16) ^ 0x0800) & !0x03E0u16) | (next << 5);
            &&& (r >> 12) & 0x07 == 0
            &&& (r >> 5) & 0x1F == next
            &&& (r & 0x0800 != 0) == (v & 0x0800 == 0)
            &&& r & 0x1F == v & 0x1F
            &&& r & 0x0400 == v & 0x0400
        }),
        ({
            let r = ((v & !0x7000u16) & !0x03E0u16) | (next << 5);
            &&& (r >> 12) & 0x07 == 0
            &&& (r >> 5) & 0x1F == next
            &&& r & 0x0800 == v & 0x0800
            &&& r & 0x1F == v & 0x1F
            &&& r & 0x0400 == v & 0x0400
        }),
{
}

/// How the pixel row moves on.  Within a tile it moves down by one.  From
/// the last pixel row of a tile the tile row moves on: from row 29 to row 0
/// of the nametable above or below, from row 31 to row 0 of the same
/// nametable, and from any other row to the next.  The horizontal position
/// is left alone.
pub proof fn pixel_row_moves_on(v: u16)
    requires
        v <= PpuAddressPart::ALL,
    ensures
        ({
            let r = fine_y_incremented(v);
            &&& coarse_x(r) == coarse_x(v)
            &&& nametable_x(r) == nametable_x(v)
            &&& fine_y(v) < 7 ==> {
                &&& fine_y(r) == fine_y(v) + 1
                &&& coarse_y(r) == coarse_y(v)
                &&& nametable_y(r) == nametable_y(v)
            }
            &&& fine_y(v) == 7 ==> fine_y(r) == 0
            &&& fine_y(v) == 7 && coarse_y(v) == 29 ==> {
                &&& coarse_y(r) == 0
                &&& nametable_y(r) != nametable_y(v)
            }
            &&& fine_y(v) == 7 && coarse_y(v) == 31 ==> {
                &&& coarse_y(r) == 0
                &&& nametable_y(r) == nametable_y(v)
            }
            &&& fine_y(v) == 7 && coarse_y(v) != 29 && coarse_y(v) != 31 ==> {
                &&& coarse_y(r) == coarse_y(v) + 1
                &&& nametable_y(r) == nametable_y(v)
            }
        }),
{
    let row = ((v & !PpuAddressPart::FINE_Y) & PpuAddressPart::COARSE_Y) >> 5;
    lemma_pixel_row_bound(v);
    lemma_pixel_row(v, (v + 0x1000) as u16, row, super::ppu::next_coarse_y(row));
}

proof fn lemma_pixel_row_bound(v: u16)
    by (bit_vector)
    requires
        v <= 0x7FFF,
    ensures
        v + 0x1000 <= 0xFFFF,
        ((v & !0x7000u16) & 0x03E0) >> 5 <= 31,
{
}

proof fn lemma_tile_column(v: u16, up: u16)
    by (bit_vector)
    requires
        v <= 0x7FFF,
        up == v + 1,
    ensures
        v & 0x1F <= 31,
        v & 0x1F != 31 ==> {
            &&& up & 0x1F == (v & 0x1F) + 1
            &&& up & 0x7BE0 == v & 0x7BE0
            &&& up & 0x0400 == v & 0x0400
        },
        ({
            let r = (v & !0x001Fu16) ^ 0x0400;
            &&& r & 0x1F == 0
            &&& (r & 0x0400 != 0) == (v & 0x0400 == 0)
            &&& r & 0x7BE0 == v & 0x7BE0
        }),
{
}

/// How the tile column moves on: to the next column, and from the last
/// column to the first column of the nametable to the left or right.  The
/// vertical position is left alone.
pub proof fn tile_column_moves_on(v: u16)
    requires
        v <= PpuAddressPart::ALL,
    ensures
        ({
            let r = coarse_x_incremented(v);
            &&& r & super::ppu::Y_ADDR_PART == v & super::ppu::Y_ADDR_PART
            &&& coarse_x(v) < 31 ==> coarse_x(r) == coarse_x(v) + 1 && nametable_x(r)
                == nametable_x(v)
            &&& coarse_x(v) == 31 ==> coarse_x(r) == 0 && nametable_x(r) != nametable_x(v)
        }),
{
    lemma_tile_column(v, (v + 1) as u16);
}

/// The picture processor and the cartridge after `n` reads through `$2007`
/// in a row.
pub open spec fn data_reads<C: ICartridge>(ppu: Ppu2C02, cart: C, n: nat) -> (Ppu2C02, C)
    decreases n,
{
    if n == 0 {
        (ppu, cart)
    } else {
        let (p, c) = data_reads(ppu, cart, (n - 1) as nat);
        let (_data, p1, c1) = p.control_port_read_spec(c, PpuControlPorts::PPUDATA);
        (p1, c1)
    }
}

/// By how much an access through `$2007` moves the address on: by 32 where
/// the control register says so, by 1 where not.
pub open spec fn data_step(control: u8) -> int {
    if control & PpuControlFlags::VRAM_INCREMENT_SELECT != 0 {
        32
    } else {
        1
    }
}

proof fn lemma_step_in_fifteen_bits(v: u16, up: u16)
    by (bit_vector)
    requires
        v <= 0x7FFF,
        up == v + 1 || up == v + 32,
    ensures
        0x7FFFu16 & up == up % 0x8000,
{
}

/// Outside rendering, `n` reads through `$2007` in a row move the address
/// on by `n` steps of 1 or of 32, within fifteen bits, and leave alone what
/// decides the step and whether the picture is drawn.
pub proof fn data_port_steps_through_memory<C: ICartridge>(ppu: Ppu2C02, cart: C, n: nat)
    requires
        ppu.state.v <= PpuAddressPart::ALL,
        !ppu.is_rendering(),
    ensures
        ({
            let after = data_reads(ppu, cart, n).0;
            &&& after.state.v == (ppu.state.v + n * data_step(ppu.state.control)) % 0x8000
            &&& after.state.control == ppu.state.control
            &&& after.state.mask == ppu.state.mask
            &&& after.state.scanline == ppu.state.scanline
            &&& !after.is_rendering()
        }),
    decreases n,
{
    if n > 0 {
        data_port_steps_through_memory(ppu, cart, (n - 1) as nat);
        let (p, c) = data_reads(ppu, cart, (n - 1) as nat);
        let v = p.state.v;
        if ppu.state.control & PpuControlFlags::VRAM_INCREMENT_SELECT != 0 {
            lemma_step_in_fifteen_bits(v, (v + 32) as u16);
            assert(v == (ppu.state.v + (n - 1) * 32) % 0x8000);
            assert((v + 32) % 0x8000 == (ppu.state.v + n * 32) % 0x8000);
        } else {
            lemma_step_in_fifteen_bits(v, (v + 1) as u16);
            assert(v == (ppu.state.v + (n - 1) * 1) % 0x8000);
            assert((v + 1) % 0x8000 == (ppu.state.v + n * 1) % 0x8000);
        }
    }
}

/// Outside rendering and below palette memory, each read through `$2007`
/// returns the byte that the read before it fetched: the read that follows
/// `n + 1` reads returns what the bus gave at the address that `n` steps
/// lead to.
pub proof fn data_reads_run_one_behind<C: ICartridge>(ppu: Ppu2C02, cart: C, n: nat)
    requires
        ppu.state.v <= PpuAddressPart::ALL,
        !ppu.is_rendering(),
    ensures
        ({
            let (p, c) = data_reads(ppu, cart, n);
            let (_first, p1, c1) = p.control_port_read_spec(c, PpuControlPorts::PPUDATA);
            let (second, _p2, _c2) = p1.control_port_read_spec(c1, PpuControlPorts::PPUDATA);
            let step = data_step(ppu.state.control);
            let at = (ppu.state.v + n * step) % 0x8000;
            let next = (ppu.state.v + (n + 1) * step) % 0x8000;
            &&& p.state.v == at
            &&& p1.state.v == next
            &&& at % 0x4000 < 0x3F00 && next % 0x4000 < 0x3F00 ==> second == p.data_access_spec().read_spec(
                c,
                at as u16,
            ).0
        }),
{
    data_port_steps_through_memory(ppu, cart, n);
    data_port_steps_through_memory(ppu, cart, n + 1);
    let (p, c) = data_reads(ppu, cart, n);
    assert(data_reads(ppu, cart, n + 1) == ({
        let (_d, p1, c1) = p.control_port_read_spec(c, PpuControlPorts::PPUDATA);
        (p1, c1)
    }));
    if !p.points_at_palette() {
        data_reads_are_delayed(p, c);
    }
}

/// Two writes to the address port, then reads through the data port: the
/// reads step through memory from the address that the two bytes give, by
/// 1 or by 32 as the control register says, within fifteen bits.
pub proof fn address_port_then_reads<C: ICartridge>(
    ppu: Ppu2C02,
    cart: C,
    high: u8,
    low: u8,
    n: nat,
)
    requires
        !ppu.state.w,
        !ppu.is_rendering(),
    ensures
        ({
            let (p1, c1) = ppu.control_port_write_spec(cart, PpuControlPorts::PPUADDR, high);
            let (p2, c2) = p1.control_port_write_spec(c1, PpuControlPorts::PPUADDR, low);
            let start = (high & 0x3F) * 256 + low;
            &&& p2.state.v == start
            &&& data_reads(p2, c2, n).0.state.v == (start + n * data_step(ppu.state.control))
                % 0x8000
        }),
{
    address_port_sets_v(ppu, cart, high, low);
    lemma_address_pair(ppu.state.t, high, low);
    let (p1, c1) = ppu.control_port_write_spec(cart, PpuControlPorts::PPUADDR, high);
    let (p2, c2) = p1.control_port_write_spec(c1, PpuControlPorts::PPUADDR, low);
    assert(p2.state.mask == ppu.state.mask && p2.state.scanline == ppu.state.scanline
        && p2.state.control == ppu.state.control);
    data_port_steps_through_memory(p2, c2, n);
}

} // verus!

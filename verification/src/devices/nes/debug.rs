//! Pictures of what the cartridge and the palette hold, for a debugger to
//! show.
use vstd::prelude::*;
use super::Nes;
use crate::devices::bus::BusDevice;
use crate::devices::cartridge::utils::ICartridge;
use crate::devices::cpu::trace::{peeked_spec, print_debug_at, trace_line};
use crate::devices::ppu::ppu::Ppu2C02;
use crate::devices::ppu::structs::{master_color, PALLETE_TABLE};

verus! {

/// Width of the picture of character memory: sixteen tiles.
pub const CHR_IMAGE_WIDTH: usize = 128;

/// Height of the picture of character memory: thirty-two tiles.
pub const CHR_IMAGE_HEIGHT: usize = 256;

/// Bytes of the picture of character memory.
pub const CHR_IMAGE_BYTES: usize = 98304;

/// Width of the picture of the palette: 32 entries, four pixels each.
pub const PALETTE_IMAGE_WIDTH: usize = 128;

/// Bytes of the picture of the palette: two rows.
pub const PALETTE_IMAGE_BYTES: usize = 768;

/// The address in character memory of the low bit plane of pixel row `row`
/// of the picture at column `column`: tiles lie sixteen to a row, eight
/// pixel rows to a tile.
pub open spec fn chr_pixel_addr(row: int, column: int) -> int {
    (row / 8) * 0x100 + (row % 8) + (column / 8) * 0x10
}

/// The colour, `0..=3`, of the pixel at `row` and `column` of the picture of
/// character memory: bit `7 - column % 8` of the two bit planes.
pub open spec fn chr_pixel<C: ICartridge>(cart: C, row: int, column: int) -> u8 {
    let addr = chr_pixel_addr(row, column);
    let lo = cart.peek_chr_spec(addr as u16).unwrap_spec(0);
    let hi = cart.peek_chr_spec((addr + 8) as u16).unwrap_spec(0);
    let shift = (7 - column % 8) as u8;
    ((1 & (hi >> shift)) << 1u8) | (1 & (lo >> shift))
}

/// The shade of grey that stands for a colour where no palette is used.
pub open spec fn grey_level(color: u8) -> u8 {
    if color == 0 {
        0x00
    } else if color == 1 {
        0x7C
    } else if color == 2 {
        0xBC
    } else {
        0xF8
    }
}

/// Red, green or blue of a pixel of the picture of character memory: a
/// shade of grey, or the colour that the first palette gives to the pixel.
pub open spec fn chr_image_byte<C: ICartridge>(
    nes: Nes<C>,
    use_pallete: bool,
    row: int,
    column: int,
    channel: int,
) -> u8 {
    let color = chr_pixel(nes.cart, row, column);
    if use_pallete {
        master_color(nes.ppu.palette.peek_spec(color as u16), channel)
    } else {
        grey_level(color)
    }
}

/// Red, green or blue of the pixel at `column` of the picture of the
/// palette: the colour of entry `column / 4`.
pub open spec fn palette_image_byte(ppu: Ppu2C02, column: int, channel: int) -> u8 {
    master_color(ppu.palette.peek_spec((column / 4) as u16), channel)
}

proof fn lemma_two_bits(hi: u8, lo: u8, shift: u8)
    by (bit_vector)
    requires
        shift <= 7,
    ensures
        ((1 & (hi >> shift)) << 1u8) | (1 & (lo >> shift)) <= 3,
{
}

impl<C: ICartridge> Nes<C> {
    /// The colour of a pixel of the picture of character memory.
    fn chr_color(&self, row: usize, column: usize) -> (color: u8)
        requires
            row < CHR_IMAGE_HEIGHT,
            column < CHR_IMAGE_WIDTH,
        ensures
            color == chr_pixel(self.cart, row as int, column as int),
            color <= 3,
    {
        let addr: usize = (row / 8) * 0x100 + (row % 8) + (column / 8) * 0x10;
        let lo: u8 = self.cart.peek_chr(addr as u16).unwrap(0);
        let hi: u8 = self.cart.peek_chr((addr + 8) as u16).unwrap(0);
        let shift: u8 = (7 - column % 8) as u8;
        proof {
            lemma_two_bits(hi, lo, shift);
        }
        ((1 & (hi >> shift)) << 1u8) | (1 & (lo >> shift))
    }

    /// Draws character memory as a picture of 128 by 256 pixels, three
    /// bytes each: sixteen tiles to a row, in shades of grey or in the
    /// colours of the first palette.  Nothing is read that a read would
    /// change.
    pub fn get_chr(&self, use_pallete: bool) -> (image: Vec<u8>)
        ensures
            image@.len() == CHR_IMAGE_BYTES,
            forall|row: int, column: int, channel: int|
                0 <= row < CHR_IMAGE_HEIGHT && 0 <= column < CHR_IMAGE_WIDTH && 0 <= channel < 3
                    ==> #[trigger] image@[(row * CHR_IMAGE_WIDTH + column) * 3 + channel]
                    == chr_image_byte(*self, use_pallete, row, column, channel),
    {
        let mut image: Vec<u8> = Vec::new();
        let mut pixel: usize = 0;
        while pixel < CHR_IMAGE_WIDTH * CHR_IMAGE_HEIGHT
            invariant
                pixel <= CHR_IMAGE_WIDTH * CHR_IMAGE_HEIGHT,
                image@.len() == pixel * 3,
                forall|p: int, channel: int|
                    0 <= p < pixel && 0 <= channel < 3 ==> #[trigger] image@[p * 3 + channel]
                        == chr_image_byte(
                        *self,
                        use_pallete,
                        p / (CHR_IMAGE_WIDTH as int),
                        p % (CHR_IMAGE_WIDTH as int),
                        channel,
                    ),
            decreases CHR_IMAGE_WIDTH * CHR_IMAGE_HEIGHT - pixel,
        {
            let row: usize = pixel / CHR_IMAGE_WIDTH;
            let column: usize = pixel % CHR_IMAGE_WIDTH;
            let color: u8 = self.chr_color(row, column);
            if use_pallete {
                let entry: u8 = self.ppu.palette.peek(color as u16).unwrap(0);
                let base: usize = (entry % 64) as usize * 3;
                image.push(PALLETE_TABLE[base]);
                image.push(PALLETE_TABLE[base + 1]);
                image.push(PALLETE_TABLE[base + 2]);
            } else {
                let grey: u8 = if color == 0 {
                    0x00
                } else if color == 1 {
                    0x7C
                } else if color == 2 {
                    0xBC
                } else {
                    0xF8
                };
                image.push(grey);
                image.push(grey);
                image.push(grey);
            }
            pixel += 1;
        }
        assert forall|row: int, column: int, channel: int|
            0 <= row < CHR_IMAGE_HEIGHT && 0 <= column < CHR_IMAGE_WIDTH && 0 <= channel
                < 3 implies #[trigger] image@[(row * CHR_IMAGE_WIDTH + column) * 3 + channel]
            == chr_image_byte(*self, use_pallete, row, column, channel) by {
            let p = row * CHR_IMAGE_WIDTH + column;
            assert(p / (CHR_IMAGE_WIDTH as int) == row && p % (CHR_IMAGE_WIDTH as int) == column)
                by (nonlinear_arith)
                requires
                    p == row * 128 + column,
                    0 <= column < 128,
                    CHR_IMAGE_WIDTH == 128,
            ;
            assert(0 <= p < 128 * 256) by (nonlinear_arith)
                requires
                    p == row * 128 + column,
                    0 <= column < 128,
                    0 <= row < 256,
            ;
            assert(image@[p * 3 + channel] == chr_image_byte(
                *self,
                use_pallete,
                p / (CHR_IMAGE_WIDTH as int),
                p % (CHR_IMAGE_WIDTH as int),
                channel,
            ));
        }
        image
    }

    /// The trace line of the instruction that the processor has in hand,
    /// with the picture processor where it stands.
    pub fn get_status(&self) -> (line: String)
        ensures
            line@ == trace_line(
                self.cpu.state,
                peeked_spec(
                    self.cpu.state,
                    *self,
                    self.ppu.state.pixel_cycle,
                    self.ppu.state.scanline,
                ),
            ),
    {
        print_debug_at(&self.cpu, self, self.ppu.state.pixel_cycle, self.ppu.state.scanline)
    }

    /// Draws the palette as a picture of 128 by 2 pixels, three bytes each:
    /// each of the 32 entries four pixels wide.
    pub fn get_palletes(&self) -> (image: Vec<u8>)
        ensures
            image@.len() == PALETTE_IMAGE_BYTES,
            forall|row: int, column: int, channel: int|
                0 <= row < 2 && 0 <= column < PALETTE_IMAGE_WIDTH && 0 <= channel < 3
                    ==> #[trigger] image@[(row * PALETTE_IMAGE_WIDTH + column) * 3 + channel]
                    == palette_image_byte(self.ppu, column, channel),
    {
        let mut image: Vec<u8> = Vec::new();
        let mut pixel: usize = 0;
        while pixel < 2 * PALETTE_IMAGE_WIDTH
            invariant
                pixel <= 2 * PALETTE_IMAGE_WIDTH,
                image@.len() == pixel * 3,
                forall|p: int, channel: int|
                    0 <= p < pixel && 0 <= channel < 3 ==> #[trigger] image@[p * 3 + channel]
                        == palette_image_byte(self.ppu, p % (PALETTE_IMAGE_WIDTH as int), channel),
            decreases 2 * PALETTE_IMAGE_WIDTH - pixel,
        {
            let column: usize = pixel % PALETTE_IMAGE_WIDTH;
            let entry: u8 = self.ppu.palette.peek((column / 4) as u16).unwrap(0);
            let base: usize = (entry % 64) as usize * 3;
            image.push(PALLETE_TABLE[base]);
            image.push(PALLETE_TABLE[base + 1]);
            image.push(PALLETE_TABLE[base + 2]);
            pixel += 1;
        }
        assert forall|row: int, column: int, channel: int|
            0 <= row < 2 && 0 <= column < PALETTE_IMAGE_WIDTH && 0 <= channel
                < 3 implies #[trigger] image@[(row * PALETTE_IMAGE_WIDTH + column) * 3 + channel]
            == palette_image_byte(self.ppu, column, channel) by {
            let p = row * PALETTE_IMAGE_WIDTH + column;
            assert(p % (PALETTE_IMAGE_WIDTH as int) == column && 0 <= p < 256);
            assert(image@[p * 3 + channel] == palette_image_byte(
                self.ppu,
                p % (PALETTE_IMAGE_WIDTH as int),
                channel,
            ));
        }
        image
    }
}

} // verus!

//! The registers and memories of the picture processor, and the masks that
//! name their bits.
use vstd::prelude::*;

verus! {

/// Width of the picture in pixels.
pub const FRAME_WIDTH: usize = 256;

/// Height of the picture in pixels.
pub const FRAME_HEIGHT: usize = 240;

/// Pixels of a picture.
pub const FRAME_PIXELS: usize = 61440;

/// Bytes of a picture: three for each pixel.
pub const FRAME_BYTES: usize = 184320;

/// The last dot of a scanline.
pub const LAST_DOT: u16 = 340;

/// The first scanline that is not drawn.
pub const POST_RENDER_SCANLINE: u16 = 240;

/// The scanline at whose second dot vertical blanking begins.
pub const VBLANK_SCANLINE: u16 = 241;

/// The last scanline of a frame, which prepares the first of the next.
pub const PRE_RENDER_SCANLINE: u16 = 261;

/// Bits of the internal address registers `v` and `t`.
pub struct PpuAddressPart {}

impl PpuAddressPart {
    /// Tile column within a nametable
    pub const COARSE_X: u16 = 0x001F;

    /// Tile row within a nametable
    pub const COARSE_Y: u16 = 0x03E0;

    /// Left or right nametable
    pub const NAMETABLE_X: u16 = 0x0400;

    /// Upper or lower nametable
    pub const NAMETABLE_Y: u16 = 0x0800;

    /// Pixel row within a tile
    pub const FINE_Y: u16 = 0x7000;

    /// The fifteen bits of the registers
    pub const ALL: u16 = 0x7FFF;
}

/// Bits of the control register, `$2000`.
pub struct PpuControlFlags {}

impl PpuControlFlags {
    /// Which nametable the picture starts in
    pub const NAMETABLE_BASE_SELECT: u8 = 0x03;

    /// Whether an access through `$2007` moves the address by 32, not by 1
    pub const VRAM_INCREMENT_SELECT: u8 = 0x04;

    /// Whether sprites take their tiles from `$1000`, not `$0000`
    pub const SPRITE_TILE_SELECT: u8 = 0x08;

    /// Whether the background takes its tiles from `$1000`, not `$0000`
    pub const BG_TILE_SELECT: u8 = 0x10;

    /// Whether sprites are 16 pixels high, not 8
    pub const SPRITE_MODE_SELECT: u8 = 0x20;

    /// Direction of the EXT pins; without effect in the console
    pub const PPU_BG_COLOR_SELECT: u8 = 0x40;

    /// Whether vertical blanking raises an NMI
    pub const VBLANK_NMI_ENABLE: u8 = 0x80;
}

/// Bits of the mask register, `$2001`.
pub struct PpuMaskFlags {}

impl PpuMaskFlags {
    pub const USE_GRAYSCALE: u8 = 0x01;

    /// Whether the background shows in the leftmost eight columns
    pub const BG_LEFT_ENABLE: u8 = 0x02;

    /// Whether sprites show in the leftmost eight columns
    pub const SPRITE_LEFT_ENABLE: u8 = 0x04;

    /// Whether the background is drawn
    pub const BG_ENABLE: u8 = 0x08;

    /// Whether sprites are drawn
    pub const SPRITE_ENABLE: u8 = 0x10;

    pub const COLOR_EMPHASIS_RED: u8 = 0x20;

    pub const COLOR_EMPHASIS_GREEN: u8 = 0x40;

    pub const COLOR_EMPHASIS_BLUE: u8 = 0x80;

    /// Background or sprites: what it takes for rendering to be on
    pub const RENDERING: u8 = 0x18;
}

/// Bits of the status register, `$2002`.
pub struct PpuStatusFlags {}

impl PpuStatusFlags {
    /// The low five bits, which no flag drives
    pub const STATUS_IGNORED: u8 = 0x1F;

    /// More than eight sprites on a scanline
    pub const SPRITE_OVERFLOW: u8 = 0x20;

    /// Sprite 0 met the background
    pub const SPRITE_0_HIT: u8 = 0x40;

    /// Vertical blanking has begun
    pub const VBLANK: u8 = 0x80;
}

/// The ports of the picture processor, as local addresses.
pub struct PpuControlPorts {}

impl PpuControlPorts {
    pub const PPUCTRL: u16 = 0;

    pub const PPUMASK: u16 = 1;

    pub const PPUSTATUS: u16 = 2;

    pub const OAMADDR: u16 = 3;

    pub const OAMDATA: u16 = 4;

    pub const PPUSCROLL: u16 = 5;

    pub const PPUADDR: u16 = 6;

    pub const PPUDATA: u16 = 7;
}

/// Bits of the attribute byte of a sprite.
pub struct PpuOamAttributes {}

impl PpuOamAttributes {
    pub const PALLETE: u8 = 0x03;

    pub const UNUSED: u8 = 0x1C;

    /// Whether the sprite goes behind the background
    pub const BACKGROUND_PRIORITY: u8 = 0x20;

    pub const FLIP_HORI: u8 = 0x40;

    pub const FLIP_VERT: u8 = 0x80;
}

/// Offsets of the four bytes of a sprite.
pub struct PpuOamByteOffsets {}

impl PpuOamByteOffsets {
    pub const Y_POS: usize = 0;

    pub const TILE: usize = 1;

    pub const ATTR: usize = 2;

    pub const X_POS: usize = 3;
}

/// The master palette: red, green and blue of each of the 64 colours.
pub const PALLETE_TABLE: [u8; 192] = [
    101, 101, 101, 0, 45, 105, 19, 31, 127, 60, 19, 124,
    96, 11, 98, 115, 10, 55, 113, 15, 7, 90, 26, 0,
    52, 40, 0, 11, 52, 0, 0, 60, 0, 0, 61, 16,
    0, 56, 64, 0, 0, 0, 0, 0, 0, 0, 0, 0,
    174, 174, 174, 15, 99, 179, 64, 81, 208, 120, 65, 204,
    167, 54, 169, 192, 52, 112, 189, 60, 48, 159, 74, 0,
    109, 92, 0, 54, 109, 0, 7, 119, 4, 0, 121, 61,
    0, 114, 125, 0, 0, 0, 0, 0, 0, 0, 0, 0,
    254, 254, 255, 93, 179, 255, 143, 161, 255, 200, 144, 255,
    247, 133, 250, 255, 131, 192, 255, 139, 127, 239, 154, 73,
    189, 172, 44, 133, 188, 47, 85, 199, 83, 60, 201, 140,
    62, 194, 205, 78, 78, 78, 0, 0, 0, 0, 0, 0,
    254, 254, 255, 188, 223, 255, 209, 216, 255, 232, 209, 255,
    251, 205, 253, 255, 204, 229, 255, 207, 202, 248, 213, 180,
    228, 220, 168, 204, 227, 169, 185, 232, 184, 174, 232, 208,
    175, 229, 234, 182, 182, 182, 0, 0, 0, 0, 0, 0,
];

/// Everything the picture processor holds but palette memory.
pub struct PpuState {
    /// The current address in video memory, fifteen bits
    pub v: u16,
    /// The address that `v` is reloaded from, fifteen bits
    pub t: u16,
    /// Fine horizontal scroll, three bits
    pub x: u8,
    /// Whether the next write to `$2005` or `$2006` is the second of a pair
    pub w: bool,
    /// High bit planes of the two background tiles in flight
    pub bg_tile_hi_shift_reg: u16,
    /// Low bit planes of the two background tiles in flight
    pub bg_tile_lo_shift_reg: u16,
    /// High palette bit of the background pixels in flight
    pub bg_attr_hi_shift_reg: u8,
    /// Low palette bit of the background pixels in flight
    pub bg_attr_lo_shift_reg: u8,
    /// The palette of the tile that was loaded last
    pub bg_attr_latch: u8,
    /// High bit planes of the sprites on this scanline
    pub sprite_tile_hi_shift_regs: [u8; 8],
    /// Low bit planes of the sprites on this scanline
    pub sprite_tile_lo_shift_regs: [u8; 8],
    /// Dots until each sprite on this scanline begins
    pub sprite_x_counters: [u8; 8],
    /// Attribute byte of each sprite on this scanline
    pub sprite_attr_latches: [u8; 8],
    /// Whether the first of the sprites on this scanline is sprite 0
    pub sprite0_on_line: bool,
    /// How many sprites were picked for this scanline, at most eight
    pub sprite_count: u8,
    /// The nametable byte fetched for the next tile
    pub temp_nt_byte: u8,
    /// The palette fetched for the next tile
    pub temp_at_byte: u8,
    /// The low bit plane fetched for the next tile
    pub temp_bg_lo_byte: u8,
    /// The high bit plane fetched for the next tile
    pub temp_bg_hi_byte: u8,
    /// The control register, `$2000`
    pub control: u8,
    /// The mask register, `$2001`
    pub mask: u8,
    /// The status register, `$2002`
    pub status: u8,
    /// The address in sprite memory, `$2003`
    pub oam_addr: u8,
    /// Sprite memory: 64 sprites of four bytes
    pub oam: [u8; 256],
    /// The sprites picked for the scanline: eight of four bytes
    pub secondary_oam: [u8; 32],
    /// The dot within the scanline, `0..=340`
    pub pixel_cycle: u16,
    /// The scanline, `0..=261`; 261 is the pre-render line
    pub scanline: u16,
    /// Whether the last dot completed a frame
    pub frame_ready: bool,
    /// The picture: rows of 256 pixels, three bytes each
    pub frame_data: [u8; 184320],
    /// Whether an NMI waits to be passed on to the processor
    pub vblank_nmi_ready: bool,
    /// What the last read through `$2007` left for the next
    pub ppudata_buffer: u8,
    /// The last byte seen on the ports
    pub last_control_port_value: u8,
    /// The last byte seen on the picture processor's own bus
    pub last_bus_value: u8,
}

/// Red, green and blue of a colour of the master palette.  Only the low six
/// bits of `color` count.
pub open spec fn master_color(color: u8, channel: int) -> u8 {
    PALLETE_TABLE[(color % 64) * 3 + channel]
}

} // verus!

//! The picture processing unit: its registers as the CPU sees them, object attribute
//! memory, sprite zero hit detection and the rendering of sprites and background.
use vstd::prelude::*;
use crate::address;
use crate::machine::Memory;
use crate::Address;
use crate::mapper::{NameTableChoice, PatternTableChoice, PpuAddress, PpuMapper, PALETTE_RAM_BYTES, PATTERN_TABLE_BYTES};
use crate::nes_specs::{SCREEN_HEIGHT_PX, SCREEN_WIDTH_PX};
use crate::nes_name_table_debug::{lemma_paint_append, spec_paint, spec_set_pixel, NameTableFrame};
use crate::render_output::{
    lemma_render_append, spec_concat, spec_render, Layer, PixelWrite, RenderOutput,
};

pub mod control;
pub mod name_table_mirroring;
pub mod oam_attribute;
pub mod oam_display;
pub mod status;

verus! {

pub const NAME_TABLE_BYTES: usize = 0x400;
pub const OAM_SPRITE_BYTES: usize = 4;
pub const OAM_NUM_SPRITES: usize = 64;
pub const OAM_BYTES: usize = 256;
pub const TILE_SIZE_PX: u16 = 8;
pub const SCREEN_WIDTH_TILES: u16 = 32;
pub const SCREEN_HEIGHT_TILES: u16 = 30;
pub const ATTRIBUTE_SIZE_TILES: u16 = 4;
pub const SCREEN_WIDTH_ATTRIBUTES: u16 = 8;
pub const PALETTE_NUM_COLOURS: u8 = 4;
pub const PATTERN_BYTES: u8 = 16;
pub const ATTRIBUTE_TABLE_START_INDEX: usize = 960;
pub const BLACK_COLOUR_CODE: u8 = 0xF;
pub const PALETTE_START: PpuAddress = 0x3F00;

/// Whether sprites are 8x8 or 8x16 pixels.
#[derive(Clone, Copy, Debug, PartialEq, Eq, Structural)]
pub enum SpriteSize {
    Small,
    Large,
}

// The scroll state address, also the VRAM address, is laid out as:
// yyy NN YYYYY XXXXX
// ||| || ||||| +++++-- coarse X scroll
// ||| || +++++-------- coarse Y scroll
// ||| ++-------------- name table select
// +++----------------- fine Y scroll

/// Selects the name table from the low 2 bits of `data`.
pub open spec fn spec_set_name_table_from_low_2_bits(v: u16, data: u8) -> u16 {
    (v & 0xF3FF) | (((data & 3) as u16) << 10u16)
}

/// Sets the coarse X scroll from the top 5 bits of a scroll write.
pub open spec fn spec_set_coarse_x_scroll_from_scroll(v: u16, data: u8) -> u16 {
    (v & 0xFFE0) | ((data as u16) >> 3u16)
}

/// Sets coarse Y from the top 5 bits and fine Y from the low 3 bits of a scroll write.
pub open spec fn spec_set_y_scroll(v: u16, data: u8) -> u16 {
    let v1 = (v & 0xFC1F) | (((data as u16) >> 3u16) << 5u16);
    (v1 & 0x8FFF) | (((data as u16) & 7) << 12u16)
}

/// Sets bits 8 to 13 from the low 6 bits of an address write, and clears bit 14.
pub open spec fn spec_set_address_hi(v: u16, data: u8) -> u16 {
    let v1 = (v & 0xC0FF) | (((data as u16) & 0x3F) << 8u16);
    v1 & 0xBFFF
}

/// Sets the low byte from an address write.
pub open spec fn spec_set_address_lo(v: u16, data: u8) -> u16 {
    (v & 0xFF00) | (data as u16)
}

/// Takes the bits of `mask` from `other` and the rest from `v`.
pub open spec fn spec_copy_with_mask(v: u16, other: u16, mask: u16) -> u16 {
    (v & !mask) | (other & mask)
}

/// The coarse horizontal scroll in pixels: the tile column, with the horizontal name table
/// bit above it, times 8.
pub open spec fn spec_scroll_x_coarse(v: u16) -> u16 {
    ((v & 0x001F) | ((v & 0x0400) >> 5u16)) << 3u16
}

/// The vertical scroll in pixels: the vertical name table bit selects a screen height,
/// coarse Y counts tiles, fine Y pixels.
pub open spec fn spec_scroll_y(v: u16) -> u16 {
    (((v & 0x0800) >> 11u16) * SCREEN_HEIGHT_PX + (((v & 0x03E0) >> 5u16) << 3u16) + ((v >> 12u16) & 7)) as u16
}

/// Moves down one pixel row: fine Y counts up to 7, then coarse Y moves to the next tile
/// row. Past row 29 it wraps to 0 and switches vertical name table; past row 31 (inside the
/// attribute table) it wraps to 0 without switching.
pub open spec fn spec_increment_vertical_scroll(v: u16) -> u16 {
    if v & 0x7000 != 0x7000 {
        (v + 0x1000) as u16
    } else {
        let v1 = v & 0x8FFF;
        let t = (v1 & 0x03E0) >> 5u16;
        let v2 = if t == 29 { v1 ^ 0x0800 } else { v1 };
        let t2: u16 = if t == 29 || t == 31 { 0 } else { (t + 1) as u16 };
        (v2 & 0xFC1F) | (t2 << 5u16)
    }
}

/// Bounds on the fields of a scroll state address.
proof fn lemma_scroll_address_bounds(v: u16, fine: u16)
    by (bit_vector)
    ensures
        (v & 0x0800) >> 11u16 <= 1,
        (v & 0x03E0) >> 5u16 <= 31,
        ((v & 0x03E0) >> 5u16) << 3u16 <= 248,
        (v >> 12u16) & 7 <= 7,
        ((v & 0x001F) | ((v & 0x0400) >> 5u16)) << 3u16 <= 504,
        (((v & 0x001F) | ((v & 0x0400) >> 5u16)) << 3u16) | (fine & 7) <= 511,
        v & 0x7000 != 0x7000 ==> v <= 0xEFFF,
{
}

#[derive(Clone, Copy, Debug)]
struct ScrollStateAddress(u16);

impl ScrollStateAddress {
    fn set_name_table_from_low_2_bits(&mut self, data: u8)
        ensures
            final(self).0 == spec_set_name_table_from_low_2_bits(old(self).0, data),
    {
        self.0 = (self.0 & 0xF3FF) | (((data & 3) as u16) << 10u16);
    }

    fn set_coarse_x_scroll_from_scroll(&mut self, data: u8)
        ensures
            final(self).0 == spec_set_coarse_x_scroll_from_scroll(old(self).0, data),
    {
        self.0 = (self.0 & 0xFFE0) | ((data as u16) >> 3u16);
    }

    fn set_y_scroll(&mut self, data: u8)
        ensures
            final(self).0 == spec_set_y_scroll(old(self).0, data),
    {
        self.0 = (self.0 & 0xFC1F) | (((data as u16) >> 3u16) << 5u16);
        self.0 = (self.0 & 0x8FFF) | (((data as u16) & 7) << 12u16);
    }

    fn set_address_hi(&mut self, data: u8)
        ensures
            final(self).0 == spec_set_address_hi(old(self).0, data),
    {
        self.0 = (self.0 & 0xC0FF) | (((data as u16) & 0x3F) << 8u16);
        self.0 = self.0 & 0xBFFF;
    }

    fn set_address_lo(&mut self, data: u8)
        ensures
            final(self).0 == spec_set_address_lo(old(self).0, data),
    {
        self.0 = (self.0 & 0xFF00) | (data as u16);
    }

    fn copy_from_other_with_mask(&mut self, other: Self, mask: u16)
        ensures
            final(self).0 == spec_copy_with_mask(old(self).0, other.0, mask),
    {
        self.0 = (self.0 & !mask) | (other.0 & mask);
    }

    fn ppu_address(&self) -> (r: PpuAddress)
        ensures
            r == self.0,
    {
        self.0
    }

    fn scroll_x_coarse(&self) -> (r: u16)
        ensures
            r == spec_scroll_x_coarse(self.0),
    {
        let tile_coord = (self.0 & 0x001F) | ((self.0 & 0x0400) >> 5u16);
        tile_coord << 3u16
    }

    fn scroll_y(&self) -> (r: u16)
        ensures
            r == spec_scroll_y(self.0),
            r <= 495,
    {
        proof {
            lemma_scroll_address_bounds(self.0, 0);
        }
        let nametable_select_offset = ((self.0 & 0x0800) >> 11u16) * SCREEN_HEIGHT_PX;
        let coarse_y_scroll = ((self.0 & 0x03E0) >> 5u16) << 3u16;
        let fine_y_scroll = (self.0 >> 12u16) & 7;
        nametable_select_offset + coarse_y_scroll + fine_y_scroll
    }

    fn increment_ppu_address(&mut self, by: u8)
        ensures
            final(self).0 == old(self).0.wrapping_add(by as u16),
    {
        self.0 = self.0.wrapping_add(by as u16);
    }

    fn increment_vertical_scroll(&mut self)
        ensures
            final(self).0 == spec_increment_vertical_scroll(old(self).0),
    {
        proof {
            lemma_scroll_address_bounds(self.0, 0);
        }
        if self.0 & 0x7000 != 0x7000 {
            // increment fine y scroll
            self.0 += 0x1000;
        } else {
            // set fine y scroll to 0
            self.0 &= 0x8FFF;
            proof {
                lemma_scroll_address_bounds(self.0, 0);
            }
            let mut tile_scroll_y = (self.0 & 0x03E0) >> 5u16;
            if tile_scroll_y == 29 {
                // the bottom pixel row of the bottom tile row: wrap to 0 and switch the
                // vertical name table
                tile_scroll_y = 0;
                self.0 ^= 0x0800;
            } else if tile_scroll_y == 31 {
                // inside the attribute table, which is allowed: the row wraps to 0
                tile_scroll_y = 0;
            } else {
                tile_scroll_y += 1;
            }
            self.0 = (self.0 & 0xFC1F) | (tile_scroll_y << 5u16);
        }
    }
}

#[derive(Clone, Copy, Debug)]
struct ScrollState {
    current_vram_address: ScrollStateAddress,
    temporary_vram_address: ScrollStateAddress,
    fine_x_scroll: u8,
    first_write_toggle: bool,
}

/// The state of the PPU's registers.
pub struct PpuView {
    pub address_increment: u8,
    pub vblank_nmi: bool,
    pub sprite_pattern_table: PatternTableChoice,
    pub background_pattern_table: PatternTableChoice,
    pub read_buffer: u8,
    pub oam_address: u8,
    pub vblank_flag: bool,
    pub sprite_size: SpriteSize,
    pub show_background: bool,
    pub show_sprites: bool,
    pub show_background_left_8_pixels: bool,
    pub show_sprites_left_8_pixels: bool,
    pub sprite_zero_hit: bool,
    /// The VRAM address, which is also where rendering has scrolled to.
    pub current_vram_address: u16,
    /// The address and scroll being written, copied into the current one at set points.
    pub temporary_vram_address: u16,
    pub fine_x_scroll: u8,
    /// Whether the next write to the scroll or address register is the first of a pair.
    pub first_write_toggle: bool,
}

/// The PPU's registers.
#[derive(Clone, Copy, Debug)]
pub struct Ppu {
    address_increment: u8,
    vblank_nmi: bool,
    sprite_pattern_table: PatternTableChoice,
    background_pattern_table: PatternTableChoice,
    read_buffer: u8,
    oam_address: u8,
    vblank_flag: bool,
    sprite_size: SpriteSize,
    show_background: bool,
    show_sprites: bool,
    show_background_left_8_pixels: bool,
    show_sprites_left_8_pixels: bool,
    sprite_zero_hit: bool,
    scroll_state: ScrollState,
}

impl View for Ppu {
    type V = PpuView;

    closed spec fn view(&self) -> PpuView {
        PpuView {
            address_increment: self.address_increment,
            vblank_nmi: self.vblank_nmi,
            sprite_pattern_table: self.sprite_pattern_table,
            background_pattern_table: self.background_pattern_table,
            read_buffer: self.read_buffer,
            oam_address: self.oam_address,
            vblank_flag: self.vblank_flag,
            sprite_size: self.sprite_size,
            show_background: self.show_background,
            show_sprites: self.show_sprites,
            show_background_left_8_pixels: self.show_background_left_8_pixels,
            show_sprites_left_8_pixels: self.show_sprites_left_8_pixels,
            sprite_zero_hit: self.sprite_zero_hit,
            current_vram_address: self.scroll_state.current_vram_address.0,
            temporary_vram_address: self.scroll_state.temporary_vram_address.0,
            fine_x_scroll: self.scroll_state.fine_x_scroll,
            first_write_toggle: self.scroll_state.first_write_toggle,
        }
    }
}

/// The registers at power on.
pub open spec fn spec_ppu_new() -> PpuView {
    PpuView {
        address_increment: 1,
        vblank_nmi: false,
        sprite_pattern_table: PatternTableChoice::PatternTable0,
        background_pattern_table: PatternTableChoice::PatternTable0,
        read_buffer: 0,
        oam_address: 0,
        vblank_flag: false,
        sprite_size: SpriteSize::Small,
        show_background: false,
        show_sprites: false,
        show_background_left_8_pixels: false,
        show_sprites_left_8_pixels: false,
        sprite_zero_hit: false,
        current_vram_address: 0,
        temporary_vram_address: 0,
        fine_x_scroll: 0,
        first_write_toggle: true,
    }
}

/// Writing the control register (0x2000).
pub open spec fn spec_write_control(p: PpuView, data: u8) -> PpuView {
    PpuView {
        address_increment: if data & control::flag::ADDRESS_INCREMENT != 0 { 32 } else { 1 },
        sprite_pattern_table: if data & control::flag::SPRITE_PATTERN_TABLE == 0 {
            PatternTableChoice::PatternTable0
        } else {
            PatternTableChoice::PatternTable1
        },
        background_pattern_table: if data & control::flag::BACKGROUND_PATTERN_TABLE == 0 {
            PatternTableChoice::PatternTable0
        } else {
            PatternTableChoice::PatternTable1
        },
        vblank_nmi: data & control::flag::VBLANK_NMI != 0,
        sprite_size: if data & 0x20 == 0 { SpriteSize::Small } else { SpriteSize::Large },
        temporary_vram_address: spec_set_name_table_from_low_2_bits(p.temporary_vram_address, data),
        ..p
    }
}

/// Writing the mask register (0x2001).
pub open spec fn spec_write_mask(p: PpuView, data: u8) -> PpuView {
    PpuView {
        show_background_left_8_pixels: data & 0x02 != 0,
        show_sprites_left_8_pixels: data & 0x04 != 0,
        show_background: data & 0x08 != 0,
        show_sprites: data & 0x10 != 0,
        ..p
    }
}

/// Reading the status register (0x2002): the vblank and sprite zero hit flags; the read
/// clears the vblank flag and resets the write toggle.
pub open spec fn spec_read_status(p: PpuView) -> (u8, PpuView) {
    let value = (if p.vblank_flag { status::flag::VBLANK } else { 0u8 })
        | (if p.sprite_zero_hit { status::flag::SPRITE_ZERO_HIT } else { 0u8 });
    (value, PpuView { vblank_flag: false, first_write_toggle: true, ..p })
}

/// Entering vertical blank.
pub open spec fn spec_before_vblank(p: PpuView) -> PpuView {
    PpuView { vblank_flag: true, ..p }
}

/// Leaving vertical blank: the flags clear, and while the background shows, the vertical
/// scroll is reloaded from the temporary address.
pub open spec fn spec_after_vblank(p: PpuView) -> PpuView {
    PpuView {
        vblank_flag: false,
        sprite_zero_hit: false,
        current_vram_address: if p.show_background {
            spec_copy_with_mask(p.current_vram_address, p.temporary_vram_address, 0x7BE0)
        } else {
            p.current_vram_address
        },
        ..p
    }
}

/// Writing the scroll register (0x2005): first the horizontal, then the vertical scroll.
pub open spec fn spec_write_scroll(p: PpuView, data: u8) -> PpuView {
    if p.first_write_toggle {
        PpuView {
            fine_x_scroll: data & 7,
            temporary_vram_address: spec_set_coarse_x_scroll_from_scroll(p.temporary_vram_address, data),
            first_write_toggle: false,
            ..p
        }
    } else {
        PpuView {
            temporary_vram_address: spec_set_y_scroll(p.temporary_vram_address, data),
            first_write_toggle: true,
            ..p
        }
    }
}

/// Writing the address register (0x2006): first the high byte, then the low byte, after
/// which the address takes effect.
pub open spec fn spec_write_address(p: PpuView, data: u8) -> PpuView {
    if p.first_write_toggle {
        PpuView {
            temporary_vram_address: spec_set_address_hi(p.temporary_vram_address, data),
            first_write_toggle: false,
            ..p
        }
    } else {
        let t = spec_set_address_lo(p.temporary_vram_address, data);
        PpuView { temporary_vram_address: t, current_vram_address: t, first_write_toggle: true, ..p }
    }
}

/// The VRAM address after a data access.
pub open spec fn spec_incremented(p: PpuView) -> PpuView {
    PpuView { current_vram_address: p.current_vram_address.wrapping_add(p.address_increment as u16), ..p }
}

/// Reading the data register (0x2007): below the palette the value comes from the read
/// buffer, which then holds the byte just read; palette reads are immediate.
pub open spec fn spec_read_data<M: PpuMapper>(p: PpuView, memory: M::V) -> (u8, PpuView) {
    let address = p.current_vram_address;
    let value_from_vram = M::spec_ppu_read(memory, address);
    let value_for_cpu = if address < PALETTE_START { p.read_buffer } else { value_from_vram };
    (value_for_cpu, PpuView { read_buffer: value_from_vram, ..spec_incremented(p) })
}

/// After the control register is written with `d`, each read or write of the data register
/// moves the VRAM address on by 32 (a row of tiles) when bit 2 of `d` is set and by 1
/// otherwise, modulo 2^16; a write stores the byte at the address before the step.
pub proof fn lemma_data_port_steps<M: PpuMapper>(p: PpuView, memory: M::V, d: u8)
    ensures
        ({
            let q = spec_write_control(p, d);
            let step: int = if d & 0x04 != 0 { 32 } else { 1 };
            &&& spec_incremented(q).current_vram_address == (q.current_vram_address + step) % 0x10000
            &&& spec_read_data::<M>(q, memory).1.current_vram_address == (q.current_vram_address + step) % 0x10000
            &&& q.current_vram_address == p.current_vram_address
        }),
{
}

/// A read of the status register reports vertical blank in bit 7 and a sprite zero hit in
/// bit 6, the other bits clear; it ends vertical blank, so a second read reports bit 7 clear,
/// and it makes the next scroll or address write the first of a pair.
pub proof fn lemma_status_read(p: PpuView)
    ensures
        ({
            let (v, q) = spec_read_status(p);
            let (v2, _q2) = spec_read_status(q);
            &&& (v & 0x80 != 0) == p.vblank_flag
            &&& (v & 0x40 != 0) == p.sprite_zero_hit
            &&& v & 0x3F == 0
            &&& v2 & 0x80 == 0
            &&& (v2 & 0x40 != 0) == p.sprite_zero_hit
            &&& q.first_write_toggle
        }),
{
    let a = p.vblank_flag;
    let b = p.sprite_zero_hit;
    assert({
        let v = (if a { 0x80u8 } else { 0u8 }) | (if b { 0x40u8 } else { 0u8 });
        let v2 = 0u8 | (if b { 0x40u8 } else { 0u8 });
        &&& (v & 0x80 != 0) == a && (v & 0x40 != 0) == b && v & 0x3F == 0
        &&& v2 & 0x80 == 0 && (v2 & 0x40 != 0) == b
    }) by (bit_vector);
}

/// The horizontal scroll in pixels.
pub open spec fn spec_ppu_scroll_x(p: PpuView) -> u16 {
    spec_scroll_x_coarse(p.current_vram_address) | ((p.fine_x_scroll as u16) & 7)
}

/// The vertical scroll in pixels.
pub open spec fn spec_ppu_scroll_y(p: PpuView) -> u16 {
    spec_scroll_y(p.current_vram_address)
}

impl ScrollState {
    fn new() -> (r: Self)
        ensures
            r.current_vram_address.0 == 0,
            r.temporary_vram_address.0 == 0,
            r.fine_x_scroll == 0,
            r.first_write_toggle,
    {
        Self {
            current_vram_address: ScrollStateAddress(0),
            temporary_vram_address: ScrollStateAddress(0),
            fine_x_scroll: 0,
            first_write_toggle: true,
        }
    }

    fn scroll_x(&self) -> (r: u16)
        ensures
            r == spec_scroll_x_coarse(self.current_vram_address.0) | ((self.fine_x_scroll as u16) & 7),
            r <= 511,
    {
        proof {
            lemma_scroll_address_bounds(self.current_vram_address.0, self.fine_x_scroll as u16);
        }
        let coarse = self.current_vram_address.scroll_x_coarse();
        coarse | (self.fine_x_scroll as u16 & 7)
    }
}

impl Ppu {
    pub fn new() -> (r: Self)
        ensures
            r@ == spec_ppu_new(),
    {
        Self {
            address_increment: 1,
            vblank_nmi: false,
            sprite_pattern_table: PatternTableChoice::PatternTable0,
            background_pattern_table: PatternTableChoice::PatternTable0,
            read_buffer: 0,
            oam_address: 0,
            vblank_flag: false,
            sprite_size: SpriteSize::Small,
            show_background: false,
            show_sprites: false,
            show_background_left_8_pixels: false,
            show_sprites_left_8_pixels: false,
            sprite_zero_hit: false,
            scroll_state: ScrollState::new(),
        }
    }

    pub fn is_vblank_nmi_enabled(&self) -> (r: bool)
        ensures
            r == self@.vblank_nmi,
    {
        self.vblank_nmi
    }

    pub fn write_control(&mut self, data: u8)
        ensures
            final(self)@ == spec_write_control(old(self)@, data),
    {
        self.address_increment = if data & control::flag::ADDRESS_INCREMENT != 0 { 32 } else { 1 };
        self.sprite_pattern_table = if (data & control::flag::SPRITE_PATTERN_TABLE) == 0 {
            PatternTableChoice::PatternTable0
        } else {
            PatternTableChoice::PatternTable1
        };
        self.background_pattern_table = if (data & control::flag::BACKGROUND_PATTERN_TABLE) == 0 {
            PatternTableChoice::PatternTable0
        } else {
            PatternTableChoice::PatternTable1
        };
        self.vblank_nmi = data & control::flag::VBLANK_NMI != 0;
        self.sprite_size = if data & 0x20 == 0 { SpriteSize::Small } else { SpriteSize::Large };
        self.scroll_state.temporary_vram_address.set_name_table_from_low_2_bits(data);
    }

    pub fn write_mask(&mut self, data: u8)
        ensures
            final(self)@ == spec_write_mask(old(self)@, data),
    {
        self.show_background_left_8_pixels = data & 0x02 != 0;
        self.show_sprites_left_8_pixels = data & 0x04 != 0;
        self.show_background = data & 0x08 != 0;
        self.show_sprites = data & 0x10 != 0;
    }

    pub fn read_status(&mut self) -> (r: u8)
        ensures
            (r, final(self)@) == spec_read_status(old(self)@),
    {
        let value = (if self.vblank_flag { status::flag::VBLANK } else { 0 })
            | (if self.sprite_zero_hit { status::flag::SPRITE_ZERO_HIT } else { 0 });
        self.vblank_flag = false;
        self.scroll_state.first_write_toggle = true;
        value
    }

    pub fn before_vblank(&mut self)
        ensures
            final(self)@ == spec_before_vblank(old(self)@),
    {
        self.vblank_flag = true;
    }

    pub fn after_vblank(&mut self)
        ensures
            final(self)@ == spec_after_vblank(old(self)@),
    {
        self.vblank_flag = false;
        self.sprite_zero_hit = false;
        if self.show_background {
            let temporary = self.scroll_state.temporary_vram_address;
            self.scroll_state.current_vram_address.copy_from_other_with_mask(temporary, 0x7BE0);
        }
    }

    pub fn write_oam_address(&mut self, data: u8)
        ensures
            final(self)@ == (PpuView { oam_address: data, ..old(self)@ }),
    {
        self.oam_address = data;
    }

    pub fn write_scroll(&mut self, data: u8)
        ensures
            final(self)@ == spec_write_scroll(old(self)@, data),
    {
        if self.scroll_state.first_write_toggle {
            self.scroll_state.fine_x_scroll = data & 7;
            self.scroll_state.temporary_vram_address.set_coarse_x_scroll_from_scroll(data);
        } else {
            self.scroll_state.temporary_vram_address.set_y_scroll(data);
        }
        self.scroll_state.first_write_toggle = !self.scroll_state.first_write_toggle;
    }

    pub fn write_address(&mut self, data: u8)
        ensures
            final(self)@ == spec_write_address(old(self)@, data),
    {
        if self.scroll_state.first_write_toggle {
            self.scroll_state.temporary_vram_address.set_address_hi(data);
        } else {
            self.scroll_state.temporary_vram_address.set_address_lo(data);
            self.scroll_state.current_vram_address = self.scroll_state.temporary_vram_address;
        }
        self.scroll_state.first_write_toggle = !self.scroll_state.first_write_toggle;
    }

    pub fn write_data<M: PpuMapper>(&mut self, memory: &mut M, data: u8)
        ensures
            final(memory)@ == M::spec_ppu_write(old(memory)@, old(self)@.current_vram_address, data),
            final(self)@ == spec_incremented(old(self)@),
    {
        memory.ppu_write_u8(self.scroll_state.current_vram_address.ppu_address(), data);
        self.scroll_state.current_vram_address.increment_ppu_address(self.address_increment);
    }

    pub fn read_data<M: PpuMapper>(&mut self, memory: &M) -> (r: u8)
        ensures
            (r, final(self)@) == spec_read_data::<M>(old(self)@, memory@),
    {
        let address = self.scroll_state.current_vram_address.ppu_address();
        let value_from_vram = memory.ppu_read_u8(address);
        let value_for_cpu = if address < PALETTE_START { self.read_buffer } else { value_from_vram };
        self.scroll_state.current_vram_address.increment_ppu_address(self.address_increment);
        self.read_buffer = value_from_vram;
        value_for_cpu
    }

    pub fn scroll_x(&self) -> (r: u16)
        ensures
            r == spec_ppu_scroll_x(self@),
            r <= 511,
    {
        self.scroll_state.scroll_x()
    }

    pub fn scroll_y(&self) -> (r: u16)
        ensures
            r == spec_ppu_scroll_y(self@),
            r <= 495,
    {
        self.scroll_state.current_vram_address.scroll_y()
    }
}

/// Object attribute memory: four bytes for each of 64 sprites.
#[derive(Clone, Copy, Debug)]
pub struct Oam {
    ram: [u8; OAM_BYTES],
}

impl View for Oam {
    type V = Seq<u8>;

    closed spec fn view(&self) -> Seq<u8> {
        self.ram@
    }
}

/// One sprite as OAM describes it.
#[derive(Clone, Copy, Debug, PartialEq, Eq, Structural)]
pub struct OamEntry {
    pub tile_index: u8,
    pub attributes: u8,
    pub position_x: u8,
    pub position_y: u8,
}

/// The first `n` bytes of a DMA copy from page `start / 256` into OAM, and the memory after
/// the reads.
pub open spec fn spec_dma_from<M: Memory>(oam: Seq<u8>, state: M::V, start: Address, n: nat) -> (Seq<u8>, M::V)
    decreases n,
{
    if n == 0 {
        (oam, state)
    } else {
        let (oam1, s1) = spec_dma_from::<M>(oam, state, start, (n - 1) as nat);
        let (byte, s2) = M::read_spec(s1, (start + n - 1) as Address);
        (oam1.update(n - 1, byte), s2)
    }
}

/// OAM DMA: the 256 bytes of the page `start_address_hi` are read in order into OAM. The
/// last page is not copied: its address range wraps to empty.
pub open spec fn spec_dma<M: Memory>(oam: Seq<u8>, state: M::V, start_address_hi: u8) -> (Seq<u8>, M::V) {
    spec_dma_from::<M>(
        oam,
        state,
        address::spec_from_lo_hi(0, start_address_hi),
        if start_address_hi == 0xFF { 0 } else { OAM_BYTES as nat },
    )
}

/// Sprite `sprite_index` in OAM, unless its Y position (plus one) is 0 or in 0xF0..=0xFF,
/// which hides it.
pub open spec fn spec_oam_get(oam: Seq<u8>, sprite_index: int) -> Option<OamEntry> {
    let base = sprite_index * OAM_SPRITE_BYTES as int;
    let position_y = oam[base].wrapping_add(1);
    if position_y == 0 || position_y & 0xF0 == 0xF0 {
        None
    } else {
        Some(OamEntry {
            position_y: position_y,
            tile_index: oam[base + 1],
            attributes: oam[base + 2],
            position_x: oam[base + 3],
        })
    }
}

impl Oam {
    pub fn new() -> (r: Self)
        ensures
            r@ == Seq::new(OAM_BYTES as nat, |_i: int| 0u8),
    {
        let r = Self { ram: [0; OAM_BYTES] };
        assert(r@ =~= Seq::new(OAM_BYTES as nat, |_i: int| 0u8));
        r
    }

    pub fn dma<M: Memory>(&mut self, memory: &mut M, start_address_hi: u8)
        ensures
            (final(self)@, final(memory)@) == spec_dma::<M>(old(self)@, old(memory)@, start_address_hi),
    {
        let start_address = address::from_u8_lo_hi(0, start_address_hi);
        let count: usize = if start_address_hi == 0xFF { 0 } else { OAM_BYTES };
        let mut i: usize = 0;
        while i < count
            invariant
                i <= count,
                count == (if start_address_hi == 0xFF { 0 } else { OAM_BYTES }),
                start_address == address::spec_from_lo_hi(0, start_address_hi),
                start_address == start_address_hi as int * 256,
                (self@, memory@) == spec_dma_from::<M>(old(self)@, old(memory)@, start_address, i as nat),
            decreases count - i,
        {
            let byte = memory.read_u8(start_address + i as Address);
            self.ram[i] = byte;
            i += 1;
        }
    }

    pub fn get(&self, sprite_index: usize) -> (r: Option<OamEntry>)
        requires
            sprite_index < OAM_NUM_SPRITES,
        ensures
            r == spec_oam_get(self@, sprite_index as int),
    {
        let oam_entry_address = sprite_index * OAM_SPRITE_BYTES;
        let position_y = self.ram[oam_entry_address].wrapping_add(1);
        if position_y == 0 || position_y & 0xF0 == 0xF0 {
            return None;
        }
        Some(OamEntry {
            position_y,
            tile_index: self.ram[oam_entry_address + 1],
            attributes: self.ram[oam_entry_address + 2],
            position_x: self.ram[oam_entry_address + 3],
        })
    }
}

/// Where the pattern of an 8x16 sprite starts, and which pattern table holds it: bit 0 of
/// the tile index selects the table, the rest the first of two tiles.
pub open spec fn spec_offset_within_pattern_table_8x16(e: OamEntry) -> (u16, PatternTableChoice) {
    (
        ((e.tile_index & 0xFE) as u16 * 16) as u16,
        if e.tile_index & 1 == 0 { PatternTableChoice::PatternTable0 } else { PatternTableChoice::PatternTable1 },
    )
}

impl OamEntry {
    pub fn flip_sprite_horizontally(&self) -> (r: bool)
        ensures
            r == (self.attributes & oam_attribute::flag::FLIP_SPRITE_HORIZONTALLY != 0),
    {
        self.attributes & oam_attribute::flag::FLIP_SPRITE_HORIZONTALLY != 0
    }

    pub fn flip_sprite_vertically(&self) -> (r: bool)
        ensures
            r == (self.attributes & oam_attribute::flag::FLIP_SPRITE_VERTICALLY != 0),
    {
        self.attributes & oam_attribute::flag::FLIP_SPRITE_VERTICALLY != 0
    }

    /// The index in palette RAM of the sprite's palette: one of the four sprite palettes.
    pub fn palette_base(&self) -> (r: usize)
        ensures
            r == ((self.attributes & 0x3) + 4) * 4,
            r <= 28,
    {
        proof {
            lemma_low_bits_bounds(self.attributes, 0, 0);
        }
        (((self.attributes & 0x3) + 4) * 4) as usize
    }

    pub fn is_in_front_of_background(&self) -> (r: bool)
        ensures
            r == (self.attributes & oam_attribute::flag::PRIORITY == 0),
    {
        self.attributes & oam_attribute::flag::PRIORITY == 0
    }

    pub fn offset_within_pattern_table_8x8(&self) -> (r: u16)
        ensures
            r == self.tile_index as u16 * 16,
    {
        self.tile_index as u16 * 16
    }

    pub fn offset_within_pattern_table_8x16(&self) -> (r: (u16, PatternTableChoice))
        ensures
            r == spec_offset_within_pattern_table_8x16(*self),
            r.0 <= 0xFE0,
    {
        let tile_index = self.tile_index & 0xFE;
        proof {
            lemma_low_bits_bounds(self.tile_index, 0, 0);
        }
        let tile_offset = tile_index as u16 * 16;
        let pattern_table_choice = if self.tile_index & 1 == 0 {
            PatternTableChoice::PatternTable0
        } else {
            PatternTableChoice::PatternTable1
        };
        (tile_offset, pattern_table_choice)
    }
}

/// Bounds on masked bytes.
proof fn lemma_low_bits_bounds(a: u8, lo: u8, hi: u8)
    by (bit_vector)
    ensures
        a & 0x3 <= 3,
        a & 0xFE <= 254,
        (lo & 1) | (hi & 2) <= 3,
        a & 1 == 0 || a & 1 == 1,
{
}

/// The 2-bit palette index of pixel `pixel_index` of a pattern row, counting from the right:
/// bit 0 from the low plane, bit 1 from the high plane.
pub open spec fn spec_pattern_to_palette_index(pixel_row_lo: u8, pixel_row_hi: u8, pixel_index: u32) -> u8 {
    ((pixel_row_lo >> pixel_index) & 0x1) | (((pixel_row_hi >> pixel_index) << 1u8) & 0x2)
}

pub fn pattern_to_palette_index(pixel_row_lo: u8, pixel_row_hi: u8, pixel_index: u32) -> (r: u8)
    requires
        pixel_index < 8,
    ensures
        r == spec_pattern_to_palette_index(pixel_row_lo, pixel_row_hi, pixel_index),
        r <= 3,
{
    proof {
        lemma_low_bits_bounds(0, pixel_row_lo >> pixel_index, (pixel_row_hi >> pixel_index) << 1u8);
    }
    ((pixel_row_lo >> pixel_index) & 0x1) | (((pixel_row_hi >> pixel_index) << 1u8) & 0x2)
}

/// Where sprite zero is and which of its pixels are opaque: bit `7 - x` of byte `y` for the
/// pixel in column `x` of row `y`.
#[derive(Clone, Copy, Debug, PartialEq, Eq, Structural)]
pub struct SpriteZero {
    pub opaque_pixel_map: u128,
    pub top_left_x: u8,
    pub top_left_y: u8,
}

/// The opaque pixels of sprite zero on one scanline.
#[derive(Clone, Copy, Debug, PartialEq, Eq, Structural)]
pub struct SpriteZeroRow {
    pub top_left_x: u8,
    pub opaque_pixel_map: u8,
}

/// The row of sprite zero on `scanline`: empty above and below the sprite.
pub open spec fn spec_opaque_pixel_map_row(s: SpriteZero, scanline: u8) -> SpriteZeroRow {
    SpriteZeroRow {
        opaque_pixel_map: if scanline >= s.top_left_y && scanline - s.top_left_y < 16 {
            (s.opaque_pixel_map >> ((scanline - s.top_left_y) * 8) as u128) as u8
        } else {
            0
        },
        top_left_x: s.top_left_x,
    }
}

/// Whether sprite zero is opaque at `pixel_x` on its row.
pub open spec fn spec_is_hit(r: SpriteZeroRow, pixel_x: u8) -> bool {
    pixel_x >= r.top_left_x && pixel_x - r.top_left_x < 8
        && (0x80u8 >> (pixel_x - r.top_left_x) as u8) & r.opaque_pixel_map != 0
}

impl SpriteZero {
    pub fn blank() -> (r: Self)
        ensures
            r == (SpriteZero { opaque_pixel_map: 0, top_left_x: 0, top_left_y: 0 }),
    {
        Self { opaque_pixel_map: 0, top_left_x: 0, top_left_y: 0 }
    }

    pub fn opaque_pixel_map_row(&self, scanline: u8) -> (r: SpriteZeroRow)
        ensures
            r == spec_opaque_pixel_map_row(*self, scanline),
    {
        let opaque_pixel_map = if scanline >= self.top_left_y {
            let offset = scanline - self.top_left_y;
            if offset < 16 {
                (self.opaque_pixel_map >> (offset as u128 * 8)) as u8
            } else {
                0
            }
        } else {
            0
        };
        SpriteZeroRow { opaque_pixel_map, top_left_x: self.top_left_x }
    }
}

impl SpriteZeroRow {
    pub fn is_hit(&self, pixel_x: u8) -> (r: bool)
        ensures
            r == spec_is_hit(*self, pixel_x),
    {
        if pixel_x >= self.top_left_x {
            let offset = pixel_x - self.top_left_x;
            if offset < 8 {
                (0x80u8 >> offset) & self.opaque_pixel_map != 0
            } else {
                false
            }
        } else {
            false
        }
    }
}

/// The opaque pixels of the first `n` rows of an 8x8 pattern: byte `i` of the map is the
/// union of the two planes of row `i`.
pub open spec fn spec_opaque_pixel_map_8x8(pattern_lo: Seq<u8>, pattern_hi: Seq<u8>, n: nat) -> u64
    decreases n,
{
    if n == 0 {
        0
    } else {
        spec_opaque_pixel_map_8x8(pattern_lo, pattern_hi, (n - 1) as nat)
            | (((pattern_lo[n - 1] | pattern_hi[n - 1]) as u64) << ((n - 1) * 8) as u64)
    }
}

/// Sprite zero of an 8x8 sprite, whose pattern starts at its tile's offset in `pattern_table`.
pub open spec fn spec_sprite_zero_8x8(e: OamEntry, pattern_table: Seq<u8>) -> SpriteZero {
    let offset = e.tile_index as int * 16;
    SpriteZero {
        opaque_pixel_map: spec_opaque_pixel_map_8x8(
            pattern_table.subrange(offset, offset + 8),
            pattern_table.subrange(offset + 8, offset + 16),
            8,
        ) as u128,
        top_left_x: e.position_x,
        top_left_y: e.position_y,
    }
}

/// Sprite zero of an 8x16 sprite: the top tile's rows in the low 64 bits of the map, the
/// bottom tile's above them.
pub open spec fn spec_sprite_zero_8x16(e: OamEntry, pattern_table: Seq<u8>) -> SpriteZero {
    let offset = spec_offset_within_pattern_table_8x16(e).0 as int;
    let top = spec_opaque_pixel_map_8x8(
        pattern_table.subrange(offset, offset + 8),
        pattern_table.subrange(offset + 8, offset + 16),
        8,
    );
    let bottom = spec_opaque_pixel_map_8x8(
        pattern_table.subrange(offset + 16, offset + 24),
        pattern_table.subrange(offset + 24, offset + 32),
        8,
    );
    SpriteZero {
        opaque_pixel_map: (top as u128) | ((bottom as u128) << 64u128),
        top_left_x: e.position_x,
        top_left_y: e.position_y,
    }
}

/// Sprite zero for the coming frame: blank unless both background and sprites show and
/// sprite zero is visible, and not hidden in the left 8 pixels.
pub open spec fn spec_sprite_zero<M: PpuMapper>(p: PpuView, oam: Seq<u8>, memory: M::V) -> SpriteZero {
    let blank = SpriteZero { opaque_pixel_map: 0, top_left_x: 0, top_left_y: 0 };
    if !(p.show_background && p.show_sprites) {
        blank
    } else {
        match spec_oam_get(oam, 0) {
            Some(e) => if e.position_x >= 8 || (p.show_background_left_8_pixels && p.show_sprites_left_8_pixels) {
                match p.sprite_size {
                    SpriteSize::Small => spec_sprite_zero_8x8(e, M::spec_pattern_table(memory, p.sprite_pattern_table)),
                    SpriteSize::Large => spec_sprite_zero_8x16(
                        e,
                        M::spec_pattern_table(memory, spec_offset_within_pattern_table_8x16(e).1),
                    ),
                }
            } else {
                blank
            },
            None => blank,
        }
    }
}

impl Ppu {
    fn sprite_opaque_pixel_map_8x8(pattern_lo: &[u8], pattern_hi: &[u8]) -> (r: u64)
        requires
            pattern_lo@.len() == 8,
            pattern_hi@.len() == 8,
        ensures
            r == spec_opaque_pixel_map_8x8(pattern_lo@, pattern_hi@, 8),
    {
        let mut result: u64 = 0;
        let mut row_index: usize = 0;
        while row_index < 8
            invariant
                row_index <= 8,
                pattern_lo@.len() == 8,
                pattern_hi@.len() == 8,
                result == spec_opaque_pixel_map_8x8(pattern_lo@, pattern_hi@, row_index as nat),
            decreases 8 - row_index,
        {
            let pattern_opaque_pixel_map = (pattern_lo[row_index] | pattern_hi[row_index]) as u64;
            let offset = row_index as u64 * 8;
            result = result | (pattern_opaque_pixel_map << offset);
            row_index += 1;
        }
        result
    }

    fn sprite_zero_8x8(pattern_table: &[u8], oam_entry: OamEntry) -> (r: SpriteZero)
        requires
            pattern_table@.len() == PATTERN_TABLE_BYTES,
        ensures
            r == spec_sprite_zero_8x8(oam_entry, pattern_table@),
    {
        let pattern_offset = oam_entry.offset_within_pattern_table_8x8() as usize;
        let pattern_lo = vstd::slice::slice_subrange(pattern_table, pattern_offset, pattern_offset + 8);
        let pattern_hi = vstd::slice::slice_subrange(pattern_table, pattern_offset + 8, pattern_offset + 16);
        let opaque_pixel_map = Self::sprite_opaque_pixel_map_8x8(pattern_lo, pattern_hi) as u128;
        SpriteZero { opaque_pixel_map, top_left_x: oam_entry.position_x, top_left_y: oam_entry.position_y }
    }

    fn sprite_zero_8x16(pattern_table: &[u8], oam_entry: OamEntry) -> (r: SpriteZero)
        requires
            pattern_table@.len() == PATTERN_TABLE_BYTES,
        ensures
            r == spec_sprite_zero_8x16(oam_entry, pattern_table@),
    {
        let (pattern_offset, _choice) = oam_entry.offset_within_pattern_table_8x16();
        let pattern_offset = pattern_offset as usize;
        let pattern_top_lo = vstd::slice::slice_subrange(pattern_table, pattern_offset, pattern_offset + 8);
        let pattern_top_hi = vstd::slice::slice_subrange(pattern_table, pattern_offset + 8, pattern_offset + 16);
        let pattern_bottom_lo = vstd::slice::slice_subrange(pattern_table, pattern_offset + 16, pattern_offset + 24);
        let pattern_bottom_hi = vstd::slice::slice_subrange(pattern_table, pattern_offset + 24, pattern_offset + 32);
        let opaque_pixel_map_top = Self::sprite_opaque_pixel_map_8x8(pattern_top_lo, pattern_top_hi);
        let opaque_pixel_map_bottom = Self::sprite_opaque_pixel_map_8x8(pattern_bottom_lo, pattern_bottom_hi);
        let opaque_pixel_map = (opaque_pixel_map_top as u128) | ((opaque_pixel_map_bottom as u128) << 64u128);
        SpriteZero { opaque_pixel_map, top_left_x: oam_entry.position_x, top_left_y: oam_entry.position_y }
    }

    pub fn sprite_zero<M: PpuMapper>(&self, oam: &Oam, memory: &M) -> (r: SpriteZero)
        ensures
            r == spec_sprite_zero::<M>(self@, oam@, memory@),
    {
        if !(self.show_background && self.show_sprites) {
            SpriteZero::blank()
        } else if let Some(oam_entry) = oam.get(0) {
            if oam_entry.position_x >= 8 || (self.show_background_left_8_pixels && self.show_sprites_left_8_pixels) {
                match self.sprite_size {
                    SpriteSize::Small => Self::sprite_zero_8x8(memory.ppu_pattern_table(self.sprite_pattern_table), oam_entry),
                    SpriteSize::Large => {
                        let (_offset, choice) = oam_entry.offset_within_pattern_table_8x16();
                        Self::sprite_zero_8x16(memory.ppu_pattern_table(choice), oam_entry)
                    },
                }
            } else {
                SpriteZero::blank()
            }
        } else {
            SpriteZero::blank()
        }
    }

    pub fn write_oam_data(&mut self, data: u8, oam: &mut Oam)
        ensures
            final(oam)@ == old(oam)@.update(old(self)@.oam_address as int, data),
            final(self)@ == (PpuView { oam_address: old(self)@.oam_address.wrapping_add(1), ..old(self)@ }),
    {
        oam.ram[self.oam_address as usize] = data;
        self.oam_address = self.oam_address.wrapping_add(1);
    }

    pub fn read_oam_data(&mut self, oam: &Oam) -> (r: u8)
        ensures
            r == oam@[old(self)@.oam_address as int],
            final(self)@ == (PpuView { oam_address: old(self)@.oam_address.wrapping_add(1), ..old(self)@ }),
    {
        let data = oam.ram[self.oam_address as usize];
        self.oam_address = self.oam_address.wrapping_add(1);
        data
    }
}

/// Handing over one more write after a run of writes.
proof fn lemma_render_push<O: RenderOutput>(state: O::V, a: Seq<PixelWrite>, w: PixelWrite)
    ensures
        spec_render::<O>(state, a + seq![w]) == O::spec_set_pixel(spec_render::<O>(state, a), w),
{
    assert((a + seq![w]).drop_last() =~= a);
    assert((a + seq![w]).last() == w);
}

/// One more step of a concatenation.
proof fn lemma_concat_step(n: nat, f: spec_fn(int) -> Seq<PixelWrite>)
    ensures
        spec_concat(n + 1, f) == spec_concat(n, f) + f(n as int),
{
}

/// The pixel, if any, that column `col` of one row of a sprite draws: transparent pixels and
/// pixels off the screen draw nothing; in the left 8 columns, when hidden, sprites draw black.
pub open spec fn spec_sprite_pixel_writes(
    e: OamEntry,
    pixel_row_lo: u8,
    pixel_row_hi: u8,
    pixel_row_index: int,
    palette: Seq<u8>,
    extra_offset_y: u8,
    show_left_8_pixels: bool,
    col: int,
) -> Seq<PixelWrite> {
    let palette_index = spec_pattern_to_palette_index(pixel_row_lo, pixel_row_hi, col as u32);
    let offset_x: int = if e.attributes & oam_attribute::flag::FLIP_SPRITE_HORIZONTALLY != 0 { col } else { 7 - col };
    let offset_y: int = if e.attributes & oam_attribute::flag::FLIP_SPRITE_VERTICALLY != 0 {
        7 - pixel_row_index
    } else {
        pixel_row_index
    };
    let x = e.position_x + offset_x;
    let y = e.position_y + offset_y + extra_offset_y;
    if palette_index == 0 || !(x < SCREEN_WIDTH_PX && y < SCREEN_HEIGHT_PX) {
        Seq::empty()
    } else {
        let colour_index = if !show_left_8_pixels && x < 8 { BLACK_COLOUR_CODE } else { palette[palette_index as int] };
        let layer = if e.attributes & oam_attribute::flag::PRIORITY == 0 { Layer::SpriteFront } else { Layer::SpriteBack };
        seq![PixelWrite { layer: layer, x: x as u16, y: y as u16, colour_index: colour_index }]
    }
}

/// Whether the pattern pixel `i` places from the right of a row is opaque: set in either plane,
/// the mask counted from the left being `0x80 >> (7 - i)`.
proof fn lemma_pattern_pixel_opaque(lo: u8, hi: u8, i: u32, k: u8)
    by (bit_vector)
    requires
        i < 8,
        k == 7 - i,
    ensures
        (((lo >> i) & 0x1) | (((hi >> i) << 1u8) & 0x2) != 0) == ((lo | hi) & (0x80u8 >> k) != 0),
{
}

/// The pixel `k` places from the left of a sprite's pattern row, the pixel of bit `0x80 >> k`
/// (the most significant bit is the leftmost pixel), is drawn at screen column
/// `position_x + k`, or at `position_x + 7 - k` when the sprite is flipped horizontally; on
/// screen row `position_y + row` (`7 - row` when flipped vertically) below the sprite's top.
/// It is drawn exactly when it is opaque in either plane and lands on the screen.
pub proof fn lemma_sprite_pattern_pixel_position(
    e: OamEntry,
    pixel_row_lo: u8,
    pixel_row_hi: u8,
    pixel_row_index: int,
    palette: Seq<u8>,
    extra_offset_y: u8,
    show_left_8_pixels: bool,
    k: int,
)
    requires
        0 <= k < 8,
        0 <= pixel_row_index < 8,
    ensures
        ({
            let w = spec_sprite_pixel_writes(e, pixel_row_lo, pixel_row_hi, pixel_row_index, palette, extra_offset_y, show_left_8_pixels, 7 - k);
            let x: int = e.position_x + if e.attributes & 0x40 != 0 { 7 - k } else { k };
            let y: int = e.position_y + (if e.attributes & 0x80 != 0 { 7 - pixel_row_index } else { pixel_row_index }) + extra_offset_y;
            &&& w.len() <= 1
            &&& (w.len() == 1) == ((pixel_row_lo | pixel_row_hi) & (0x80u8 >> (k as u8)) != 0 && x < 256 && y < 240)
            &&& w.len() == 1 ==> w[0].x == x && w[0].y == y
        }),
{
    lemma_pattern_pixel_opaque(pixel_row_lo, pixel_row_hi, (7 - k) as u32, k as u8);
}

/// The columns of one row of a sprite, left to right in pattern order.
pub open spec fn spec_sprite_row_step(
    e: OamEntry,
    pixel_row_lo: u8,
    pixel_row_hi: u8,
    pixel_row_index: int,
    palette: Seq<u8>,
    extra_offset_y: u8,
    show_left_8_pixels: bool,
) -> spec_fn(int) -> Seq<PixelWrite> {
    |col: int| spec_sprite_pixel_writes(e, pixel_row_lo, pixel_row_hi, pixel_row_index, palette, extra_offset_y, show_left_8_pixels, col)
}

/// The rows of an 8x8 sprite tile.
pub open spec fn spec_sprite_8x8_step(
    e: OamEntry,
    pattern_lo: Seq<u8>,
    pattern_hi: Seq<u8>,
    palette: Seq<u8>,
    extra_offset_y: u8,
    show_left_8_pixels: bool,
) -> spec_fn(int) -> Seq<PixelWrite> {
    |row: int| spec_concat(8, spec_sprite_row_step(e, pattern_lo[row], pattern_hi[row], row, palette, extra_offset_y, show_left_8_pixels))
}

/// The pixels of an 8x8 sprite tile, row by row.
pub open spec fn spec_sprite_8x8_writes(
    e: OamEntry,
    pattern_lo: Seq<u8>,
    pattern_hi: Seq<u8>,
    palette: Seq<u8>,
    extra_offset_y: u8,
    show_left_8_pixels: bool,
) -> Seq<PixelWrite> {
    spec_concat(8, spec_sprite_8x8_step(e, pattern_lo, pattern_hi, palette, extra_offset_y, show_left_8_pixels))
}

/// The palette of a sprite: four bytes of palette RAM.
pub open spec fn spec_sprite_palette(e: OamEntry, palette_ram: Seq<u8>) -> Seq<u8> {
    let base = ((e.attributes & 0x3) + 4) * 4;
    palette_ram.subrange(base, base + 4)
}

/// The pixels of sprite `i` when sprites are 8x8: nothing for a hidden sprite.
pub open spec fn spec_sprites_8x8_step(p: PpuView, oam: Seq<u8>, pattern_table: Seq<u8>, palette_ram: Seq<u8>) -> spec_fn(int) -> Seq<PixelWrite> {
    |i: int| match spec_oam_get(oam, i) {
        None => Seq::empty(),
        Some(e) => {
            let offset = e.tile_index as int * 16;
            spec_sprite_8x8_writes(
                e,
                pattern_table.subrange(offset, offset + 8),
                pattern_table.subrange(offset + 8, offset + 16),
                spec_sprite_palette(e, palette_ram),
                0,
                p.show_sprites_left_8_pixels,
            )
        },
    }
}

/// The pixels of an 8x16 sprite: its top tile, then its bottom tile, each placed by the
/// vertical flip.
pub open spec fn spec_sprite_8x16_writes(p: PpuView, e: OamEntry, pattern_table: Seq<u8>, palette_ram: Seq<u8>) -> Seq<PixelWrite> {
    let offset = spec_offset_within_pattern_table_8x16(e).0 as int;
    let flip = e.attributes & oam_attribute::flag::FLIP_SPRITE_VERTICALLY != 0;
    let offset_top: u8 = if flip { 8 } else { 0 };
    let offset_bottom: u8 = if flip { 0 } else { 8 };
    let palette = spec_sprite_palette(e, palette_ram);
    spec_sprite_8x8_writes(
        e,
        pattern_table.subrange(offset, offset + 8),
        pattern_table.subrange(offset + 8, offset + 16),
        palette,
        offset_top,
        p.show_sprites_left_8_pixels,
    ) + spec_sprite_8x8_writes(
        e,
        pattern_table.subrange(offset + 16, offset + 24),
        pattern_table.subrange(offset + 24, offset + 32),
        palette,
        offset_bottom,
        p.show_sprites_left_8_pixels,
    )
}

/// The pixels of sprite `i` when sprites are 8x16.
pub open spec fn spec_sprites_8x16_step<M: PpuMapper>(p: PpuView, oam: Seq<u8>, memory: M::V) -> spec_fn(int) -> Seq<PixelWrite> {
    |i: int| match spec_oam_get(oam, i) {
        None => Seq::empty(),
        Some(e) => spec_sprite_8x16_writes(
            p,
            e,
            M::spec_pattern_table(memory, spec_offset_within_pattern_table_8x16(e).1),
            M::spec_palette_ram(memory),
        ),
    }
}

/// The pixels the sprites of a frame draw: nothing while sprites are hidden, else each of
/// the 64 sprites in OAM order.
pub open spec fn spec_sprite_writes<M: PpuMapper>(p: PpuView, oam: Seq<u8>, memory: M::V) -> Seq<PixelWrite> {
    if !p.show_sprites {
        Seq::empty()
    } else {
        match p.sprite_size {
            SpriteSize::Small => spec_concat(
                OAM_NUM_SPRITES as nat,
                spec_sprites_8x8_step(p, oam, M::spec_pattern_table(memory, p.sprite_pattern_table), M::spec_palette_ram(memory)),
            ),
            SpriteSize::Large => spec_concat(OAM_NUM_SPRITES as nat, spec_sprites_8x16_step::<M>(p, oam, memory)),
        }
    }
}

impl OamEntry {
    fn render_pixel_row<O: RenderOutput>(
        &self,
        pixel_row_lo: u8,
        pixel_row_hi: u8,
        pixel_row_index: usize,
        palette: &[u8],
        extra_offset_y: u8,
        show_left_8_pixels: bool,
        pixels: &mut O,
    )
        requires
            pixel_row_index < 8,
            palette@.len() == 4,
            extra_offset_y <= 8,
        ensures
            final(pixels)@ == spec_render::<O>(
                old(pixels)@,
                spec_concat(8, spec_sprite_row_step(*self, pixel_row_lo, pixel_row_hi, pixel_row_index as int, palette@, extra_offset_y, show_left_8_pixels)),
            ),
    {
        let ghost f = spec_sprite_row_step(*self, pixel_row_lo, pixel_row_hi, pixel_row_index as int, palette@, extra_offset_y, show_left_8_pixels);
        let mut pixel_col: u32 = 0;
        while pixel_col < 8
            invariant
                pixel_col <= 8,
                pixel_row_index < 8,
                palette@.len() == 4,
                extra_offset_y <= 8,
                f == spec_sprite_row_step(*self, pixel_row_lo, pixel_row_hi, pixel_row_index as int, palette@, extra_offset_y, show_left_8_pixels),
                pixels@ == spec_render::<O>(old(pixels)@, spec_concat(pixel_col as nat, f)),
            decreases 8 - pixel_col,
        {
            proof {
                lemma_concat_step(pixel_col as nat, f);
            }
            let palette_index = pattern_to_palette_index(pixel_row_lo, pixel_row_hi, pixel_col);
            let offset_x: u32 = if self.flip_sprite_horizontally() { pixel_col } else { 7 - pixel_col };
            let offset_y: usize = if self.flip_sprite_vertically() { 7 - pixel_row_index } else { pixel_row_index };
            let x = self.position_x as u16 + offset_x as u16;
            let y = self.position_y as u16 + offset_y as u16 + extra_offset_y as u16;
            if palette_index != 0 && x < SCREEN_WIDTH_PX && y < SCREEN_HEIGHT_PX {
                let colour_code = palette[palette_index as usize];
                let colour_code = if !show_left_8_pixels && x < 8 { BLACK_COLOUR_CODE } else { colour_code };
                proof {
                    let w = f(pixel_col as int)[0];
                    assert(f(pixel_col as int) == seq![w]);
                    lemma_render_push::<O>(old(pixels)@, spec_concat(pixel_col as nat, f), w);
                }
                if self.is_in_front_of_background() {
                    pixels.set_pixel_colour_sprite_front(x, y, colour_code);
                } else {
                    pixels.set_pixel_colour_sprite_back(x, y, colour_code);
                }
            } else {
                assert(spec_concat(pixel_col as nat, f) + f(pixel_col as int) =~= spec_concat(pixel_col as nat, f));
            }
            pixel_col += 1;
        }
    }
}

impl Ppu {
    fn render_sprite_8x8<O: RenderOutput>(
        oam_entry: OamEntry,
        pattern_lo: &[u8],
        pattern_hi: &[u8],
        palette: &[u8],
        extra_offset_y: u8,
        show_sprites_left_8_pixels: bool,
        pixels: &mut O,
    )
        requires
            pattern_lo@.len() == 8,
            pattern_hi@.len() == 8,
            palette@.len() == 4,
            extra_offset_y <= 8,
        ensures
            final(pixels)@ == spec_render::<O>(
                old(pixels)@,
                spec_sprite_8x8_writes(oam_entry, pattern_lo@, pattern_hi@, palette@, extra_offset_y, show_sprites_left_8_pixels),
            ),
    {
        let ghost f = spec_sprite_8x8_step(oam_entry, pattern_lo@, pattern_hi@, palette@, extra_offset_y, show_sprites_left_8_pixels);
        let mut row_index: usize = 0;
        while row_index < 8
            invariant
                row_index <= 8,
                pattern_lo@.len() == 8,
                pattern_hi@.len() == 8,
                palette@.len() == 4,
                extra_offset_y <= 8,
                f == spec_sprite_8x8_step(oam_entry, pattern_lo@, pattern_hi@, palette@, extra_offset_y, show_sprites_left_8_pixels),
                pixels@ == spec_render::<O>(old(pixels)@, spec_concat(row_index as nat, f)),
            decreases 8 - row_index,
        {
            proof {
                lemma_concat_step(row_index as nat, f);
                lemma_render_append::<O>(old(pixels)@, spec_concat(row_index as nat, f), f(row_index as int));
            }
            oam_entry.render_pixel_row(
                pattern_lo[row_index],
                pattern_hi[row_index],
                row_index,
                palette,
                extra_offset_y,
                show_sprites_left_8_pixels,
                pixels,
            );
            row_index += 1;
        }
    }

    fn render_sprites_8x8<M: PpuMapper, O: RenderOutput>(&self, memory: &M, oam: &Oam, pixels: &mut O)
        ensures
            final(pixels)@ == spec_render::<O>(
                old(pixels)@,
                spec_concat(
                    OAM_NUM_SPRITES as nat,
                    spec_sprites_8x8_step(self@, oam@, M::spec_pattern_table(memory@, self@.sprite_pattern_table), M::spec_palette_ram(memory@)),
                ),
            ),
    {
        let palette_ram = memory.ppu_palette_ram();
        let sprite_pattern_table = memory.ppu_pattern_table(self.sprite_pattern_table);
        let ghost f = spec_sprites_8x8_step(self@, oam@, sprite_pattern_table@, palette_ram@);
        let mut sprite_index: usize = 0;
        while sprite_index < OAM_NUM_SPRITES
            invariant
                sprite_index <= OAM_NUM_SPRITES,
                palette_ram@.len() == PALETTE_RAM_BYTES,
                sprite_pattern_table@.len() == PATTERN_TABLE_BYTES,
                f == spec_sprites_8x8_step(self@, oam@, sprite_pattern_table@, palette_ram@),
                pixels@ == spec_render::<O>(old(pixels)@, spec_concat(sprite_index as nat, f)),
            decreases OAM_NUM_SPRITES - sprite_index,
        {
            proof {
                lemma_concat_step(sprite_index as nat, f);
                lemma_render_append::<O>(old(pixels)@, spec_concat(sprite_index as nat, f), f(sprite_index as int));
            }
            match oam.get(sprite_index) {
                None => {
                    assert(spec_concat(sprite_index as nat, f) + f(sprite_index as int) =~= spec_concat(sprite_index as nat, f));
                },
                Some(oam_entry) => {
                    let pattern_offset = oam_entry.offset_within_pattern_table_8x8() as usize;
                    let pattern_lo = vstd::slice::slice_subrange(sprite_pattern_table, pattern_offset, pattern_offset + 8);
                    let pattern_hi = vstd::slice::slice_subrange(sprite_pattern_table, pattern_offset + 8, pattern_offset + 16);
                    let palette_base = oam_entry.palette_base();
                    let palette = vstd::slice::slice_subrange(palette_ram, palette_base, palette_base + 4);
                    Self::render_sprite_8x8(oam_entry, pattern_lo, pattern_hi, palette, 0, self.show_sprites_left_8_pixels, pixels);
                },
            }
            sprite_index += 1;
        }
    }

    fn render_sprites_8x16<M: PpuMapper, O: RenderOutput>(&self, memory: &M, oam: &Oam, pixels: &mut O)
        ensures
            final(pixels)@ == spec_render::<O>(
                old(pixels)@,
                spec_concat(OAM_NUM_SPRITES as nat, spec_sprites_8x16_step::<M>(self@, oam@, memory@)),
            ),
    {
        let palette_ram = memory.ppu_palette_ram();
        let ghost f = spec_sprites_8x16_step::<M>(self@, oam@, memory@);
        let mut sprite_index: usize = 0;
        while sprite_index < OAM_NUM_SPRITES
            invariant
                sprite_index <= OAM_NUM_SPRITES,
                palette_ram@ == M::spec_palette_ram(memory@),
                palette_ram@.len() == PALETTE_RAM_BYTES,
                f == spec_sprites_8x16_step::<M>(self@, oam@, memory@),
                pixels@ == spec_render::<O>(old(pixels)@, spec_concat(sprite_index as nat, f)),
            decreases OAM_NUM_SPRITES - sprite_index,
        {
            proof {
                lemma_concat_step(sprite_index as nat, f);
                lemma_render_append::<O>(old(pixels)@, spec_concat(sprite_index as nat, f), f(sprite_index as int));
            }
            match oam.get(sprite_index) {
                None => {
                    assert(spec_concat(sprite_index as nat, f) + f(sprite_index as int) =~= spec_concat(sprite_index as nat, f));
                },
                Some(oam_entry) => {
                    let (pattern_offset, pattern_table_choice) = oam_entry.offset_within_pattern_table_8x16();
                    let pattern_offset = pattern_offset as usize;
                    let sprite_pattern_table = memory.ppu_pattern_table(pattern_table_choice);
                    let pattern_top_lo = vstd::slice::slice_subrange(sprite_pattern_table, pattern_offset, pattern_offset + 8);
                    let pattern_top_hi = vstd::slice::slice_subrange(sprite_pattern_table, pattern_offset + 8, pattern_offset + 16);
                    let pattern_bottom_lo = vstd::slice::slice_subrange(sprite_pattern_table, pattern_offset + 16, pattern_offset + 24);
                    let pattern_bottom_hi = vstd::slice::slice_subrange(sprite_pattern_table, pattern_offset + 24, pattern_offset + 32);
                    let palette_base = oam_entry.palette_base();
                    let palette = vstd::slice::slice_subrange(palette_ram, palette_base, palette_base + 4);
                    let (offset_top, offset_bottom): (u8, u8) = if oam_entry.flip_sprite_vertically() { (8, 0) } else { (0, 8) };
                    let ghost before = pixels@;
                    Self::render_sprite_8x8(oam_entry, pattern_top_lo, pattern_top_hi, palette, offset_top, self.show_sprites_left_8_pixels, pixels);
                    Self::render_sprite_8x8(oam_entry, pattern_bottom_lo, pattern_bottom_hi, palette, offset_bottom, self.show_sprites_left_8_pixels, pixels);
                    proof {
                        lemma_render_append::<O>(
                            before,
                            spec_sprite_8x8_writes(oam_entry, pattern_top_lo@, pattern_top_hi@, palette@, offset_top, self.show_sprites_left_8_pixels),
                            spec_sprite_8x8_writes(oam_entry, pattern_bottom_lo@, pattern_bottom_hi@, palette@, offset_bottom, self.show_sprites_left_8_pixels),
                        );
                    }
                },
            }
            sprite_index += 1;
        }
    }

    pub fn render_sprites<M: PpuMapper, O: RenderOutput>(&self, memory: &M, oam: &Oam, pixels: &mut O)
        ensures
            final(pixels)@ == spec_render::<O>(old(pixels)@, spec_sprite_writes::<M>(self@, oam@, memory@)),
    {
        if !self.show_sprites {
            return;
        }
        match self.sprite_size {
            SpriteSize::Small => self.render_sprites_8x8(memory, oam, pixels),
            SpriteSize::Large => self.render_sprites_8x16(memory, oam, pixels),
        }
    }
}

/// A tile of the background as the renderer uses it: where it starts on the name table
/// plane, its pattern and its palette.
pub struct TileView {
    pub top_left_pixel_x: u16,
    pub pattern_lo: Seq<u8>,
    pub pattern_hi: Seq<u8>,
    pub palette: Seq<u8>,
}

/// Which of the four name tables holds tile (`tile_x`, `tile_y`) of the 64x60 tile plane.
pub open spec fn spec_name_table_choice(tile_x: u16, tile_y: u16) -> NameTableChoice {
    if tile_x % 64u16 < SCREEN_WIDTH_TILES {
        if tile_y % 60u16 < SCREEN_HEIGHT_TILES { NameTableChoice::TopLeft } else { NameTableChoice::BottomLeft }
    } else {
        if tile_y % 60u16 < SCREEN_HEIGHT_TILES { NameTableChoice::TopRight } else { NameTableChoice::BottomRight }
    }
}

/// How far to shift an attribute byte for the 2x2 tile block holding a tile.
pub open spec fn spec_attribute_shift(relative_tile_x: u16, relative_tile_y: u16) -> u8 {
    let block_x = relative_tile_x / 2;
    let block_y = relative_tile_y / 2;
    if block_y % 2 == 0 {
        if block_x % 2 == 0 { 0 } else { 2 }
    } else {
        if block_x % 2 == 0 { 4 } else { 6 }
    }
}

/// The tile at (`tile_x`, `tile_y`): its pattern index from the name table, its pattern from
/// the background pattern table, and its palette chosen by the attribute table.
pub open spec fn spec_name_table_entry<M: PpuMapper>(tile_x: u16, tile_y: u16, pattern_table: Seq<u8>, memory: M::V) -> TileView {
    let name_table = M::spec_name_table(memory, spec_name_table_choice(tile_x, tile_y));
    let relative_x = tile_x % SCREEN_WIDTH_TILES;
    let relative_y = tile_y % SCREEN_HEIGHT_TILES;
    let pattern_index = name_table[(relative_y * SCREEN_WIDTH_TILES + relative_x) as int];
    let pattern_offset = pattern_index as int * PATTERN_BYTES as int;
    let attribute_index = (relative_y / ATTRIBUTE_SIZE_TILES) * SCREEN_WIDTH_ATTRIBUTES + relative_x / ATTRIBUTE_SIZE_TILES;
    let attribute_block = name_table[ATTRIBUTE_TABLE_START_INDEX as int + attribute_index];
    let palette_base = ((attribute_block >> spec_attribute_shift(relative_x, relative_y)) & 0x3) as int * PALETTE_NUM_COLOURS as int;
    TileView {
        top_left_pixel_x: (tile_x * TILE_SIZE_PX) as u16,
        pattern_lo: pattern_table.subrange(pattern_offset, pattern_offset + 8),
        pattern_hi: pattern_table.subrange(pattern_offset + 8, pattern_offset + 16),
        palette: M::spec_palette_ram(memory).subrange(palette_base, palette_base + 4),
    }
}

/// Whether column `col` of a tile's row is drawn opaque, at a screen column in
/// `pixel_min_x..=pixel_max_x` that is not hidden on the left.
pub open spec fn spec_background_pixel_opaque(
    tile: TileView,
    pixel_row: int,
    pixel_min_x: u16,
    pixel_max_x: u16,
    show_left_8_pixels: bool,
    col: int,
) -> bool {
    let pixel_x = tile.top_left_pixel_x + TILE_SIZE_PX - col - 1;
    &&& pixel_min_x <= pixel_x <= pixel_max_x
    &&& (show_left_8_pixels || pixel_x - pixel_min_x >= 8)
    &&& spec_pattern_to_palette_index(tile.pattern_lo[pixel_row], tile.pattern_hi[pixel_row], col as u32) != 0
}

/// The pixel, if any, that column `col` of a background tile's row draws on `scanline`:
/// nothing outside the visible columns, black in the hidden left 8 columns, the universal
/// background colour where the pattern is transparent, else the tile's palette colour.
pub open spec fn spec_background_pixel_writes(
    tile: TileView,
    pixel_row: int,
    scanline: u8,
    pixel_min_x: u16,
    pixel_max_x: u16,
    background_colour_code: u8,
    show_left_8_pixels: bool,
    col: int,
) -> Seq<PixelWrite> {
    let pixel_x = tile.top_left_pixel_x + TILE_SIZE_PX - col - 1;
    if pixel_x < pixel_min_x || pixel_x > pixel_max_x {
        Seq::empty()
    } else {
        let screen_pixel_x = (pixel_x - pixel_min_x) as u16;
        let palette_index = spec_pattern_to_palette_index(tile.pattern_lo[pixel_row], tile.pattern_hi[pixel_row], col as u32);
        if !show_left_8_pixels && screen_pixel_x < 8 {
            seq![PixelWrite { layer: Layer::Background, x: screen_pixel_x, y: scanline as u16, colour_index: BLACK_COLOUR_CODE }]
        } else if palette_index == 0 {
            seq![PixelWrite { layer: Layer::UniversalBackground, x: screen_pixel_x, y: scanline as u16, colour_index: background_colour_code }]
        } else {
            seq![PixelWrite { layer: Layer::Background, x: screen_pixel_x, y: scanline as u16, colour_index: tile.palette[palette_index as int] }]
        }
    }
}

/// The pixel `k` places from the left of a background tile's pattern row, the pixel of bit
/// `0x80 >> k` (the most significant bit is the leftmost pixel), is drawn at the tile's left
/// edge plus `k`, counted on the screen from `pixel_min_x`, when that falls in
/// `pixel_min_x..=pixel_max_x`; there it is black in the hidden left 8 columns, the universal
/// background colour when transparent in both planes, and a background pixel otherwise.
pub proof fn lemma_background_pattern_pixel_position(
    tile: TileView,
    pixel_row: int,
    scanline: u8,
    pixel_min_x: u16,
    pixel_max_x: u16,
    background_colour_code: u8,
    show_left_8_pixels: bool,
    k: int,
)
    requires
        0 <= k < 8,
    ensures
        ({
            let w = spec_background_pixel_writes(tile, pixel_row, scanline, pixel_min_x, pixel_max_x, background_colour_code, show_left_8_pixels, 7 - k);
            let x: int = tile.top_left_pixel_x + k;
            let opaque = (tile.pattern_lo[pixel_row] | tile.pattern_hi[pixel_row]) & (0x80u8 >> (k as u8)) != 0;
            &&& (w.len() == 1) == (pixel_min_x <= x <= pixel_max_x)
            &&& w.len() <= 1
            &&& w.len() == 1 ==> {
                &&& w[0].x == x - pixel_min_x && w[0].y == scanline
                &&& (!show_left_8_pixels && x - pixel_min_x < 8) ==> w[0].layer == Layer::Background && w[0].colour_index == BLACK_COLOUR_CODE
                &&& (show_left_8_pixels || x - pixel_min_x >= 8) ==> (w[0].layer == Layer::Background) == opaque
                &&& (show_left_8_pixels || x - pixel_min_x >= 8) && !opaque ==> w[0].colour_index == background_colour_code
            }
        }),
{
    lemma_pattern_pixel_opaque(tile.pattern_lo[pixel_row], tile.pattern_hi[pixel_row], (7 - k) as u32, k as u8);
}

/// Two bits of an attribute byte per 2x2 block of tiles, from the low bits up: top left, top
/// right, bottom left, bottom right.
proof fn lemma_attribute_field(attribute: u8)
    by (bit_vector)
    ensures
        (attribute >> 0u8) & 0x3 == attribute % 4,
        (attribute >> 2u8) & 0x3 == (attribute / 4) % 4,
        (attribute >> 4u8) & 0x3 == (attribute / 16) % 4,
        (attribute >> 6u8) & 0x3 == attribute / 64,
{
}

/// A background tile's colours are the four palette RAM bytes of the palette its attribute
/// byte gives it: the byte at 960 + 8 * (row / 4) + column / 4 of its name table covers a 4x4
/// block of tiles, two bits for each 2x2 block in it, from the low bits up top left, top
/// right, bottom left and bottom right.
pub proof fn lemma_tile_palette_from_attributes<M: PpuMapper>(tile_x: u16, tile_y: u16, pattern_table: Seq<u8>, memory: M::V)
    ensures
        ({
            let name_table = M::spec_name_table(memory, spec_name_table_choice(tile_x, tile_y));
            let column = tile_x % 32;
            let row = tile_y % 30;
            let attribute: int = name_table[960 + 8 * (row / 4) + column / 4] as int;
            let right = (column / 2) % 2 == 1;
            let bottom = (row / 2) % 2 == 1;
            let palette_number: int = if !bottom && !right {
                attribute % 4
            } else if !bottom && right {
                (attribute / 4) % 4
            } else if bottom && !right {
                (attribute / 16) % 4
            } else {
                attribute / 64
            };
            spec_name_table_entry::<M>(tile_x, tile_y, pattern_table, memory).palette
                == M::spec_palette_ram(memory).subrange(4 * palette_number, 4 * palette_number + 4)
        }),
{
    let name_table = M::spec_name_table(memory, spec_name_table_choice(tile_x, tile_y));
    let column = tile_x % 32;
    let row = tile_y % 30;
    lemma_attribute_field(name_table[960 + 8 * (row / 4) + column / 4]);
}

/// The sprite zero hit, if any, at column `col` of a background tile's row: an opaque
/// background pixel where sprite zero is opaque too.
pub open spec fn spec_background_pixel_hit(
    tile: TileView,
    pixel_row: int,
    pixel_min_x: u16,
    pixel_max_x: u16,
    show_left_8_pixels: bool,
    sprite_zero_row: SpriteZeroRow,
    col: int,
) -> Option<u8> {
    let screen_pixel_x = (tile.top_left_pixel_x + TILE_SIZE_PX - col - 1 - pixel_min_x) as u8;
    if spec_background_pixel_opaque(tile, pixel_row, pixel_min_x, pixel_max_x, show_left_8_pixels, col)
        && spec_is_hit(sprite_zero_row, screen_pixel_x) {
        Some(screen_pixel_x)
    } else {
        None
    }
}

/// The first of `f(0)`, ..., `f(n - 1)` that is not `None`.
pub open spec fn spec_first_hit(n: nat, f: spec_fn(int) -> Option<u8>) -> Option<u8>
    decreases n,
{
    if n == 0 {
        None
    } else {
        let earlier = spec_first_hit((n - 1) as nat, f);
        if earlier is Some { earlier } else { f(n - 1) }
    }
}

pub open spec fn spec_tile_row_step(
    tile: TileView,
    pixel_row: int,
    scanline: u8,
    pixel_min_x: u16,
    pixel_max_x: u16,
    background_colour_code: u8,
    show_left_8_pixels: bool,
) -> spec_fn(int) -> Seq<PixelWrite> {
    |col: int| spec_background_pixel_writes(tile, pixel_row, scanline, pixel_min_x, pixel_max_x, background_colour_code, show_left_8_pixels, col)
}

pub open spec fn spec_tile_row_hit_step(
    tile: TileView,
    pixel_row: int,
    pixel_min_x: u16,
    pixel_max_x: u16,
    show_left_8_pixels: bool,
    sprite_zero_row: SpriteZeroRow,
) -> spec_fn(int) -> Option<u8> {
    |col: int| spec_background_pixel_hit(tile, pixel_row, pixel_min_x, pixel_max_x, show_left_8_pixels, sprite_zero_row, col)
}

/// What the visible scanline of the background looks like, given the PPU, the sprite zero of
/// the frame and the cartridge.
pub struct ScanlineContext {
    pub tile_min_x: u16,
    pub tile_y: u16,
    pub pixel_row: int,
    pub pixel_min_x: u16,
    pub pixel_max_x: u16,
    pub pattern_table: Seq<u8>,
    pub background_colour_code: u8,
    pub sprite_zero_row: SpriteZeroRow,
}

pub open spec fn spec_scanline_context<M: PpuMapper>(p: PpuView, scanline: u8, sprite_zero: SpriteZero, memory: M::V) -> ScanlineContext {
    let scroll_x = spec_ppu_scroll_x(p);
    let scroll_y = spec_ppu_scroll_y(p);
    ScanlineContext {
        tile_min_x: scroll_x / TILE_SIZE_PX,
        tile_y: scroll_y / TILE_SIZE_PX,
        pixel_row: (scroll_y % TILE_SIZE_PX) as int,
        pixel_min_x: scroll_x,
        pixel_max_x: (scroll_x + SCREEN_WIDTH_PX - 1) as u16,
        pattern_table: M::spec_pattern_table(memory, p.background_pattern_table),
        background_colour_code: M::spec_palette_ram(memory)[0],
        sprite_zero_row: spec_opaque_pixel_map_row(sprite_zero, scanline),
    }
}

/// The number of tiles a scanline touches: 32, or 33 when the scroll is not tile aligned.
pub open spec fn spec_scanline_tile_count(c: ScanlineContext) -> nat {
    (c.pixel_max_x / TILE_SIZE_PX - c.tile_min_x + 1) as nat
}

pub open spec fn spec_scanline_step<M: PpuMapper>(c: ScanlineContext, scanline: u8, show_left_8_pixels: bool, memory: M::V) -> spec_fn(int) -> Seq<PixelWrite> {
    |k: int| spec_concat(
        8,
        spec_tile_row_step(
            spec_name_table_entry::<M>((c.tile_min_x + k) as u16, c.tile_y, c.pattern_table, memory),
            c.pixel_row,
            scanline,
            c.pixel_min_x,
            c.pixel_max_x,
            c.background_colour_code,
            show_left_8_pixels,
        ),
    )
}

pub open spec fn spec_scanline_hit_step<M: PpuMapper>(c: ScanlineContext, show_left_8_pixels: bool, memory: M::V) -> spec_fn(int) -> Option<u8> {
    |k: int| spec_first_hit(
        8,
        spec_tile_row_hit_step(
            spec_name_table_entry::<M>((c.tile_min_x + k) as u16, c.tile_y, c.pattern_table, memory),
            c.pixel_row,
            c.pixel_min_x,
            c.pixel_max_x,
            show_left_8_pixels,
            c.sprite_zero_row,
        ),
    )
}

pub open spec fn spec_clear_step(scanline: u8) -> spec_fn(int) -> Seq<PixelWrite> {
    |x: int| seq![PixelWrite { layer: Layer::Background, x: x as u16, y: scanline as u16, colour_index: BLACK_COLOUR_CODE }]
}

/// Rendering background scanline `scanline`: the pixels drawn, the sprite zero hit
/// reported, and the PPU after it. With the background shown, each tile the scroll
/// makes visible is drawn left to right; the first sprite zero hit of the frame is
/// reported, the hit flag is set, the horizontal scroll is reloaded and the vertical scroll
/// moves down a row. With the background hidden, the scanline is drawn black.
pub open spec fn spec_background_scanline<M: PpuMapper>(p: PpuView, scanline: u8, sprite_zero: SpriteZero, memory: M::V)
    -> (Option<u8>, PpuView, Seq<PixelWrite>)
{
    if p.show_background {
        let c = spec_scanline_context::<M>(p, scanline, sprite_zero, memory);
        let n = spec_scanline_tile_count(c);
        let first = spec_first_hit(n, spec_scanline_hit_step::<M>(c, p.show_background_left_8_pixels, memory));
        let p1 = PpuView {
            sprite_zero_hit: p.sprite_zero_hit || first is Some,
            current_vram_address: spec_increment_vertical_scroll(
                spec_copy_with_mask(p.current_vram_address, p.temporary_vram_address, 0x041F),
            ),
            ..p
        };
        (
            if p.sprite_zero_hit { None } else { first },
            p1,
            spec_concat(n, spec_scanline_step::<M>(c, scanline, p.show_background_left_8_pixels, memory)),
        )
    } else {
        (None, p, spec_concat(SCREEN_WIDTH_PX as nat, spec_clear_step(scanline)))
    }
}

/// The point on a scanline where an opaque background pixel met an opaque pixel of sprite
/// zero.
#[derive(Clone, Copy, Debug, PartialEq, Eq, Structural)]
pub struct SpriteZeroHit {
    pub screen_pixel_x: u8,
}

impl SpriteZeroHit {
    pub fn screen_pixel_x(&self) -> (r: u8)
        ensures
            r == self.screen_pixel_x,
    {
        self.screen_pixel_x
    }
}

/// A visible scanline, 0 to 239.
#[derive(Clone, Copy, Debug)]
pub struct Scanline(u8);

impl Scanline {
    #[verifier::type_invariant]
    spec fn visible(&self) -> bool {
        self.0 < SCREEN_HEIGHT_PX
    }

    pub closed spec fn spec_index(&self) -> u8 {
        self.0
    }

    pub fn index(&self) -> (r: u8)
        ensures
            r == self.spec_index(),
            r < SCREEN_HEIGHT_PX,
    {
        proof {
            use_type_invariant(self);
        }
        self.0
    }
}

/// The visible scanlines of a frame, top to bottom.
pub struct ScanlineIter {
    scanline: u8,
}

impl ScanlineIter {
    #[verifier::type_invariant]
    spec fn in_frame(&self) -> bool {
        self.scanline <= SCREEN_HEIGHT_PX
    }

    /// The index of the scanline `next` hands out next.
    pub closed spec fn spec_position(&self) -> u8 {
        self.scanline
    }

    pub fn new() -> (r: Self)
        ensures
            r.spec_position() == 0,
    {
        Self { scanline: 0 }
    }

    /// The next scanline, or `None` after the last.
    pub fn next(&mut self) -> (r: Option<Scanline>)
        ensures
            old(self).spec_position() < SCREEN_HEIGHT_PX ==> {
                &&& r is Some
                &&& r->Some_0.spec_index() == old(self).spec_position()
                &&& final(self).spec_position() == old(self).spec_position() + 1
            },
            old(self).spec_position() >= SCREEN_HEIGHT_PX ==> r is None && final(self).spec_position() == old(self).spec_position(),
            final(self).spec_position() <= SCREEN_HEIGHT_PX,
    {
        proof {
            use_type_invariant(&*self);
        }
        let scanline = self.scanline;
        if scanline as u16 == SCREEN_HEIGHT_PX {
            None
        } else {
            self.scanline = self.scanline + 1;
            Some(Scanline(scanline))
        }
    }
}

struct NameTableEntry {
    top_left_pixel_x: u16,
    pattern_data_lo: [u8; 8],
    pattern_data_hi: [u8; 8],
    palette: [u8; 4],
}

impl View for NameTableEntry {
    type V = TileView;

    closed spec fn view(&self) -> TileView {
        TileView {
            top_left_pixel_x: self.top_left_pixel_x,
            pattern_lo: self.pattern_data_lo@,
            pattern_hi: self.pattern_data_hi@,
            palette: self.palette@,
        }
    }
}

/// Bounds on attribute bytes shifted to select a 2x2 tile block.
proof fn lemma_attribute_bounds(attribute_block: u8, shift: u8)
    by (bit_vector)
    requires
        shift <= 6,
    ensures
        (attribute_block >> shift) & 0x3 <= 3,
{
}

fn copy_to_array_8(source: &[u8], start: usize) -> (r: [u8; 8])
    requires
        start + 8 <= source@.len(),
    ensures
        r@ == source@.subrange(start as int, start as int + 8),
{
    let mut r = [0u8; 8];
    let len = source.len();
    let mut i: usize = 0;
    while i < 8
        invariant
            i <= 8,
            len == source@.len(),
            start + 8 <= source@.len(),
            forall|j: int| 0 <= j < i ==> r@[j] == source@[start + j],
        decreases 8 - i,
    {
        r[i] = source[start + i];
        i += 1;
    }
    assert(r@ =~= source@.subrange(start as int, start as int + 8));
    r
}

fn copy_to_array_4(source: &[u8], start: usize) -> (r: [u8; 4])
    requires
        start + 4 <= source@.len(),
    ensures
        r@ == source@.subrange(start as int, start as int + 4),
{
    let mut r = [0u8; 4];
    let len = source.len();
    let mut i: usize = 0;
    while i < 4
        invariant
            i <= 4,
            len == source@.len(),
            start + 4 <= source@.len(),
            forall|j: int| 0 <= j < i ==> r@[j] == source@[start + j],
        decreases 4 - i,
    {
        r[i] = source[start + i];
        i += 1;
    }
    assert(r@ =~= source@.subrange(start as int, start as int + 4));
    r
}

impl NameTableEntry {
    fn lookup<M: PpuMapper>(tile_x: u16, tile_y: u16, background_pattern_table: &[u8], memory: &M) -> (r: Self)
        requires
            tile_x < 128,
            background_pattern_table@.len() == PATTERN_TABLE_BYTES,
        ensures
            r@ == spec_name_table_entry::<M>(tile_x, tile_y, background_pattern_table@, memory@),
    {
        let name_table_choice = if tile_x % (SCREEN_WIDTH_TILES * 2) < SCREEN_WIDTH_TILES {
            if tile_y % (SCREEN_HEIGHT_TILES * 2) < SCREEN_HEIGHT_TILES { NameTableChoice::TopLeft } else { NameTableChoice::BottomLeft }
        } else {
            if tile_y % (SCREEN_HEIGHT_TILES * 2) < SCREEN_HEIGHT_TILES { NameTableChoice::TopRight } else { NameTableChoice::BottomRight }
        };
        let name_table = memory.ppu_name_table(name_table_choice);
        let name_table_relative_tile_x = tile_x % SCREEN_WIDTH_TILES;
        let name_table_relative_tile_y = tile_y % SCREEN_HEIGHT_TILES;
        let name_table_pattern_address_index = name_table_relative_tile_y * SCREEN_WIDTH_TILES + name_table_relative_tile_x;
        let pattern_index = name_table[name_table_pattern_address_index as usize];
        let pattern_offset = pattern_index as usize * PATTERN_BYTES as usize;
        let pattern_data_lo = copy_to_array_8(background_pattern_table, pattern_offset);
        let pattern_data_hi = copy_to_array_8(background_pattern_table, pattern_offset + 8);
        let name_table_relative_attribute_x = name_table_relative_tile_x / ATTRIBUTE_SIZE_TILES;
        let name_table_relative_attribute_y = name_table_relative_tile_y / ATTRIBUTE_SIZE_TILES;
        let name_table_attribute_index = name_table_relative_attribute_y * SCREEN_WIDTH_ATTRIBUTES + name_table_relative_attribute_x;
        let attribute_block = name_table[ATTRIBUTE_TABLE_START_INDEX + name_table_attribute_index as usize];
        let tile_2x2_block_coord_x = name_table_relative_tile_x / 2;
        let tile_2x2_block_coord_y = name_table_relative_tile_y / 2;
        let attribute_shift_to_select_2x2_tile_block: u8 = if tile_2x2_block_coord_y % 2 == 0 {
            if tile_2x2_block_coord_x % 2 == 0 { 0 } else { 2 }
        } else {
            if tile_2x2_block_coord_x % 2 == 0 { 4 } else { 6 }
        };
        proof {
            lemma_attribute_bounds(attribute_block, attribute_shift_to_select_2x2_tile_block);
        }
        let palette_base = ((attribute_block >> attribute_shift_to_select_2x2_tile_block) & 0x3) * PALETTE_NUM_COLOURS;
        let palette = copy_to_array_4(memory.ppu_palette_ram(), palette_base as usize);
        Self { top_left_pixel_x: tile_x * TILE_SIZE_PX, pattern_data_lo, pattern_data_hi, palette }
    }

    fn render_pixel_row<O: RenderOutput>(
        &self,
        scanline: u8,
        pixel_row: u16,
        pixel_min_x: u16,
        pixel_max_x: u16,
        background_colour_code: u8,
        show_left_8_pixels: bool,
        sprite_zero_row: SpriteZeroRow,
        pixels: &mut O,
    ) -> (r: Option<SpriteZeroHit>)
        requires
            scanline < SCREEN_HEIGHT_PX,
            pixel_row < 8,
            pixel_max_x == pixel_min_x + SCREEN_WIDTH_PX - 1,
            self@.top_left_pixel_x <= 1024,
        ensures
            final(pixels)@ == spec_render::<O>(
                old(pixels)@,
                spec_concat(8, spec_tile_row_step(self@, pixel_row as int, scanline, pixel_min_x, pixel_max_x, background_colour_code, show_left_8_pixels)),
            ),
            r == (match spec_first_hit(8, spec_tile_row_hit_step(self@, pixel_row as int, pixel_min_x, pixel_max_x, show_left_8_pixels, sprite_zero_row)) {
                Some(x) => Some(SpriteZeroHit { screen_pixel_x: x }),
                None => None,
            }),
    {
        let ghost f = spec_tile_row_step(self@, pixel_row as int, scanline, pixel_min_x, pixel_max_x, background_colour_code, show_left_8_pixels);
        let ghost g = spec_tile_row_hit_step(self@, pixel_row as int, pixel_min_x, pixel_max_x, show_left_8_pixels, sprite_zero_row);
        let pixel_row_lo = self.pattern_data_lo[pixel_row as usize];
        let pixel_row_hi = self.pattern_data_hi[pixel_row as usize];
        let mut sprite_zero_hit: Option<SpriteZeroHit> = None;
        let mut pixel_col: u16 = 0;
        while pixel_col < 8
            invariant
                pixel_col <= 8,
                scanline < SCREEN_HEIGHT_PX,
                pixel_row < 8,
                pixel_max_x == pixel_min_x + SCREEN_WIDTH_PX - 1,
                self@.top_left_pixel_x <= 1024,
                pixel_row_lo == self@.pattern_lo[pixel_row as int],
                pixel_row_hi == self@.pattern_hi[pixel_row as int],
                f == spec_tile_row_step(self@, pixel_row as int, scanline, pixel_min_x, pixel_max_x, background_colour_code, show_left_8_pixels),
                g == spec_tile_row_hit_step(self@, pixel_row as int, pixel_min_x, pixel_max_x, show_left_8_pixels, sprite_zero_row),
                pixels@ == spec_render::<O>(old(pixels)@, spec_concat(pixel_col as nat, f)),
                sprite_zero_hit == (match spec_first_hit(pixel_col as nat, g) {
                    Some(x) => Some(SpriteZeroHit { screen_pixel_x: x }),
                    None => None,
                }),
            decreases 8 - pixel_col,
        {
            proof {
                lemma_concat_step(pixel_col as nat, f);
            }
            let pixel_x = self.top_left_pixel_x + TILE_SIZE_PX - pixel_col - 1;
            if pixel_x < pixel_min_x || pixel_x > pixel_max_x {
                assert(spec_concat(pixel_col as nat, f) + f(pixel_col as int) =~= spec_concat(pixel_col as nat, f));
            } else {
                let screen_pixel_x = pixel_x - pixel_min_x;
                proof {
                    let w = f(pixel_col as int)[0];
                    assert(f(pixel_col as int) == seq![w]);
                    lemma_render_push::<O>(old(pixels)@, spec_concat(pixel_col as nat, f), w);
                }
                if !show_left_8_pixels && screen_pixel_x < 8 {
                    pixels.set_pixel_colour_background(screen_pixel_x, scanline as u16, BLACK_COLOUR_CODE);
                } else {
                    let palette_index = pattern_to_palette_index(pixel_row_lo, pixel_row_hi, pixel_col as u32);
                    if palette_index == 0 {
                        pixels.set_pixel_colour_universal_background(screen_pixel_x, scanline as u16, background_colour_code);
                    } else {
                        if sprite_zero_hit.is_none() && sprite_zero_row.is_hit(screen_pixel_x as u8) {
                            sprite_zero_hit = Some(SpriteZeroHit { screen_pixel_x: screen_pixel_x as u8 });
                        }
                        pixels.set_pixel_colour_background(screen_pixel_x, scanline as u16, self.palette[palette_index as usize]);
                    }
                }
            }
            pixel_col += 1;
        }
        sprite_zero_hit
    }
}

impl Ppu {
    fn clear_background_scanline<O: RenderOutput>(&self, scanline: u8, pixels: &mut O)
        requires
            scanline < SCREEN_HEIGHT_PX,
        ensures
            final(pixels)@ == spec_render::<O>(old(pixels)@, spec_concat(SCREEN_WIDTH_PX as nat, spec_clear_step(scanline))),
    {
        let ghost f = spec_clear_step(scanline);
        let mut pixel_x: u16 = 0;
        while pixel_x < SCREEN_WIDTH_PX
            invariant
                pixel_x <= SCREEN_WIDTH_PX,
                scanline < SCREEN_HEIGHT_PX,
                f == spec_clear_step(scanline),
                pixels@ == spec_render::<O>(old(pixels)@, spec_concat(pixel_x as nat, f)),
            decreases SCREEN_WIDTH_PX - pixel_x,
        {
            proof {
                lemma_concat_step(pixel_x as nat, f);
                lemma_render_push::<O>(old(pixels)@, spec_concat(pixel_x as nat, f), f(pixel_x as int)[0]);
                assert(f(pixel_x as int) == seq![f(pixel_x as int)[0]]);
            }
            pixels.set_pixel_colour_background(pixel_x, scanline as u16, BLACK_COLOUR_CODE);
            pixel_x += 1;
        }
    }

    pub fn render_background_scanline<M: PpuMapper, O: RenderOutput>(
        &mut self,
        scanline: Scanline,
        sprite_zero: &SpriteZero,
        memory: &M,
        pixels: &mut O,
    ) -> (r: Option<SpriteZeroHit>)
        ensures
            ({
                let (hit, p, writes) = spec_background_scanline::<M>(old(self)@, scanline.spec_index(), *sprite_zero, memory@);
                &&& r == (match hit {
                    Some(x) => Some(SpriteZeroHit { screen_pixel_x: x }),
                    None => None,
                })
                &&& final(self)@ == p
                &&& final(pixels)@ == spec_render::<O>(old(pixels)@, writes)
            }),
    {
        let scanline_index = scanline.index();
        let mut ret: Option<SpriteZeroHit> = None;
        if self.show_background {
            let ghost c = spec_scanline_context::<M>(self@, scanline_index, *sprite_zero, memory@);
            let ghost p0 = self@;
            let scroll_x = self.scroll_state.scroll_x();
            let scroll_y = self.scroll_state.current_vram_address.scroll_y();
            let tile_y = scroll_y / TILE_SIZE_PX;
            let pixel_offset_within_tile_y = scroll_y % TILE_SIZE_PX;
            let pixel_max_x = scroll_x + SCREEN_WIDTH_PX - 1;
            let tile_min_x = scroll_x / TILE_SIZE_PX;
            let tile_max_x = pixel_max_x / TILE_SIZE_PX;
            let background_pattern_table = memory.ppu_pattern_table(self.background_pattern_table);
            let universal_background_colour = memory.ppu_palette_ram()[0];
            let sprite_zero_row = sprite_zero.opaque_pixel_map_row(scanline_index);
            let ghost f = spec_scanline_step::<M>(c, scanline_index, self@.show_background_left_8_pixels, memory@);
            let ghost g = spec_scanline_hit_step::<M>(c, self@.show_background_left_8_pixels, memory@);
            let mut tile_x = tile_min_x;
            while tile_x <= tile_max_x
                invariant
                    tile_min_x <= tile_x <= tile_max_x + 1,
                    tile_max_x <= 95,
                    scanline_index < SCREEN_HEIGHT_PX,
                    c == spec_scanline_context::<M>(p0, scanline_index, *sprite_zero, memory@),
                    c.tile_min_x == tile_min_x,
                    c.tile_y == tile_y,
                    c.pixel_row == pixel_offset_within_tile_y as int,
                    pixel_offset_within_tile_y < 8,
                    c.pixel_min_x == scroll_x,
                    c.pixel_max_x == pixel_max_x,
                    pixel_max_x == scroll_x + SCREEN_WIDTH_PX - 1,
                    c.pattern_table == background_pattern_table@,
                    background_pattern_table@.len() == PATTERN_TABLE_BYTES,
                    c.background_colour_code == universal_background_colour,
                    c.sprite_zero_row == sprite_zero_row,
                    tile_max_x == pixel_max_x / TILE_SIZE_PX,
                    f == spec_scanline_step::<M>(c, scanline_index, p0.show_background_left_8_pixels, memory@),
                    g == spec_scanline_hit_step::<M>(c, p0.show_background_left_8_pixels, memory@),
                    self@ == (PpuView { sprite_zero_hit: self@.sprite_zero_hit, ..p0 }),
                    self@.sprite_zero_hit == (p0.sprite_zero_hit || spec_first_hit((tile_x - tile_min_x) as nat, g) is Some),
                    ret == (if p0.sprite_zero_hit {
                        None
                    } else {
                        match spec_first_hit((tile_x - tile_min_x) as nat, g) {
                            Some(x) => Some(SpriteZeroHit { screen_pixel_x: x }),
                            None => None,
                        }
                    }),
                    pixels@ == spec_render::<O>(old(pixels)@, spec_concat((tile_x - tile_min_x) as nat, f)),
                decreases tile_max_x + 1 - tile_x,
            {
                let ghost k = (tile_x - tile_min_x) as nat;
                proof {
                    lemma_concat_step(k, f);
                    lemma_render_append::<O>(old(pixels)@, spec_concat(k, f), f(k as int));
                }
                let name_table_entry = NameTableEntry::lookup(tile_x, tile_y, background_pattern_table, memory);
                let tile_hit = name_table_entry.render_pixel_row(
                    scanline_index,
                    pixel_offset_within_tile_y,
                    scroll_x,
                    pixel_max_x,
                    universal_background_colour,
                    self.show_background_left_8_pixels,
                    sprite_zero_row,
                    pixels,
                );
                if let Some(sprite_zero_hit) = tile_hit {
                    if !self.sprite_zero_hit {
                        ret = Some(sprite_zero_hit);
                    }
                    self.sprite_zero_hit = true;
                }
                tile_x += 1;
            }
            let temporary = self.scroll_state.temporary_vram_address;
            self.scroll_state.current_vram_address.copy_from_other_with_mask(temporary, 0x041F);
            self.scroll_state.current_vram_address.increment_vertical_scroll();
        } else {
            self.clear_background_scanline(scanline_index, pixels);
        }
        ret
    }
}

/// Pixel (`i`, `j`) of a tile in the name table debug picture, with the tile's top row at
/// `y0`: the universal background colour where the pattern is transparent.
pub open spec fn spec_debug_pixel(tile: TileView, y0: int, background_colour_code: u8, j: int, i: int) -> PixelWrite {
    let palette_index = spec_pattern_to_palette_index(tile.pattern_lo[j], tile.pattern_hi[j], (TILE_SIZE_PX - 1 - i) as u32);
    PixelWrite {
        layer: Layer::Background,
        x: (tile.top_left_pixel_x + i) as u16,
        y: (y0 + j) as u16,
        colour_index: if palette_index == 0 { background_colour_code } else { tile.palette[palette_index as int] },
    }
}

pub open spec fn spec_debug_row_step(tile: TileView, y0: int, background_colour_code: u8, j: int) -> spec_fn(int) -> Seq<PixelWrite> {
    |i: int| seq![spec_debug_pixel(tile, y0, background_colour_code, j, i)]
}

pub open spec fn spec_debug_tile_step(tile: TileView, y0: int, background_colour_code: u8) -> spec_fn(int) -> Seq<PixelWrite> {
    |j: int| spec_concat(8, spec_debug_row_step(tile, y0, background_colour_code, j))
}

/// The 64 pixels of one tile of the debug picture, row by row.
pub open spec fn spec_debug_tile_writes(tile: TileView, y0: int, background_colour_code: u8) -> Seq<PixelWrite> {
    spec_concat(8, spec_debug_tile_step(tile, y0, background_colour_code))
}

/// The tiles of row `tile_y` of name table `quadrant` (0 to 3: top left, top right, bottom
/// left, bottom right), left to right.
pub open spec fn spec_debug_tiles_step<M: PpuMapper>(pattern_table: Seq<u8>, memory: M::V, quadrant: int, tile_y: int) -> spec_fn(int) -> Seq<PixelWrite> {
    |tile_x: int| spec_debug_tile_writes(
        spec_name_table_entry::<M>(
            (tile_x + SCREEN_WIDTH_TILES * (quadrant % 2)) as u16,
            (tile_y + SCREEN_HEIGHT_TILES * (quadrant / 2)) as u16,
            pattern_table,
            memory,
        ),
        SCREEN_HEIGHT_PX * (quadrant / 2) + tile_y * TILE_SIZE_PX,
        M::spec_palette_ram(memory)[0],
    )
}

pub open spec fn spec_debug_quadrant_step<M: PpuMapper>(pattern_table: Seq<u8>, memory: M::V, quadrant: int) -> spec_fn(int) -> Seq<PixelWrite> {
    |tile_y: int| spec_concat(SCREEN_WIDTH_TILES as nat, spec_debug_tiles_step::<M>(pattern_table, memory, quadrant, tile_y))
}

pub open spec fn spec_debug_step<M: PpuMapper>(pattern_table: Seq<u8>, memory: M::V) -> spec_fn(int) -> Seq<PixelWrite> {
    |quadrant: int| spec_concat(SCREEN_HEIGHT_TILES as nat, spec_debug_quadrant_step::<M>(pattern_table, memory, quadrant))
}

/// The pixels of the name table debug picture: the four name tables side by side as the
/// background pattern table draws them, each tile row by row.
pub open spec fn spec_debug_name_table_writes<M: PpuMapper>(p: PpuView, memory: M::V) -> Seq<PixelWrite> {
    spec_concat(4, spec_debug_step::<M>(M::spec_pattern_table(memory, p.background_pattern_table), memory))
}

/// Painting one more write after a run of writes.
proof fn lemma_paint_push(v: crate::nes_name_table_debug::NameTableFrameView, a: Seq<PixelWrite>, w: PixelWrite)
    ensures
        spec_paint(v, a + seq![w]) == spec_set_pixel(spec_paint(v, a), w.x, w.y, w.colour_index),
{
    assert((a + seq![w]).drop_last() =~= a);
    assert((a + seq![w]).last() == w);
}

impl NameTableEntry {
    fn debug_render_row(&self, y0: u16, background_colour_code: u8, j: usize, name_table_frame: &mut NameTableFrame)
        requires
            j < 8,
            self@.top_left_pixel_x + 8 <= 512,
            y0 + 8 <= 480,
        ensures
            final(name_table_frame)@ == spec_paint(
                old(name_table_frame)@,
                spec_concat(8, spec_debug_row_step(self@, y0 as int, background_colour_code, j as int)),
            ),
    {
        let ghost f = spec_debug_row_step(self@, y0 as int, background_colour_code, j as int);
        let pixel_row_lo = self.pattern_data_lo[j];
        let pixel_row_hi = self.pattern_data_hi[j];
        let mut i: u16 = 0;
        while i < TILE_SIZE_PX
            invariant
                i <= TILE_SIZE_PX,
                j < 8,
                self@.top_left_pixel_x + 8 <= 512,
                y0 + 8 <= 480,
                pixel_row_lo == self@.pattern_lo[j as int],
                pixel_row_hi == self@.pattern_hi[j as int],
                f == spec_debug_row_step(self@, y0 as int, background_colour_code, j as int),
                name_table_frame@ == spec_paint(old(name_table_frame)@, spec_concat(i as nat, f)),
            decreases TILE_SIZE_PX - i,
        {
            proof {
                lemma_concat_step(i as nat, f);
                lemma_paint_push(old(name_table_frame)@, spec_concat(i as nat, f), f(i as int)[0]);
                assert(f(i as int) == seq![f(i as int)[0]]);
            }
            let pixel_colour_index = match pattern_to_palette_index(pixel_row_lo, pixel_row_hi, (TILE_SIZE_PX - 1 - i) as u32) {
                0 => background_colour_code,
                non_zero => self.palette[non_zero as usize],
            };
            name_table_frame.set_pixel(self.top_left_pixel_x + i, y0 + j as u16, pixel_colour_index);
            i += 1;
        }
    }

    fn debug_render(&self, y0: u16, background_colour_code: u8, name_table_frame: &mut NameTableFrame)
        requires
            self@.top_left_pixel_x + 8 <= 512,
            y0 + 8 <= 480,
        ensures
            final(name_table_frame)@ == spec_paint(old(name_table_frame)@, spec_debug_tile_writes(self@, y0 as int, background_colour_code)),
    {
        let ghost f = spec_debug_tile_step(self@, y0 as int, background_colour_code);
        let mut j: usize = 0;
        while j < 8
            invariant
                j <= 8,
                self@.top_left_pixel_x + 8 <= 512,
                y0 + 8 <= 480,
                f == spec_debug_tile_step(self@, y0 as int, background_colour_code),
                name_table_frame@ == spec_paint(old(name_table_frame)@, spec_concat(j as nat, f)),
            decreases 8 - j,
        {
            proof {
                lemma_concat_step(j as nat, f);
                lemma_paint_append(old(name_table_frame)@, spec_concat(j as nat, f), f(j as int));
            }
            self.debug_render_row(y0, background_colour_code, j, name_table_frame);
            j += 1;
        }
    }
}

impl Ppu {
    fn debug_render_tile_row<M: PpuMapper>(
        background_pattern_table: &[u8],
        memory: &M,
        quadrant: u16,
        tile_y: u16,
        name_table_frame: &mut NameTableFrame,
    )
        requires
            quadrant < 4,
            tile_y < SCREEN_HEIGHT_TILES,
            background_pattern_table@.len() == PATTERN_TABLE_BYTES,
        ensures
            final(name_table_frame)@ == spec_paint(
                old(name_table_frame)@,
                spec_concat(SCREEN_WIDTH_TILES as nat, spec_debug_tiles_step::<M>(background_pattern_table@, memory@, quadrant as int, tile_y as int)),
            ),
    {
        let ghost f = spec_debug_tiles_step::<M>(background_pattern_table@, memory@, quadrant as int, tile_y as int);
        let universal_background_colour = memory.ppu_palette_ram()[0];
        let y0 = SCREEN_HEIGHT_PX * (quadrant / 2) + tile_y * TILE_SIZE_PX;
        let mut tile_x: u16 = 0;
        while tile_x < SCREEN_WIDTH_TILES
            invariant
                tile_x <= SCREEN_WIDTH_TILES,
                quadrant < 4,
                tile_y < SCREEN_HEIGHT_TILES,
                y0 == SCREEN_HEIGHT_PX * (quadrant / 2) + tile_y * TILE_SIZE_PX,
                background_pattern_table@.len() == PATTERN_TABLE_BYTES,
                universal_background_colour == M::spec_palette_ram(memory@)[0],
                f == spec_debug_tiles_step::<M>(background_pattern_table@, memory@, quadrant as int, tile_y as int),
                name_table_frame@ == spec_paint(old(name_table_frame)@, spec_concat(tile_x as nat, f)),
            decreases SCREEN_WIDTH_TILES - tile_x,
        {
            proof {
                lemma_concat_step(tile_x as nat, f);
                lemma_paint_append(old(name_table_frame)@, spec_concat(tile_x as nat, f), f(tile_x as int));
            }
            let entry = NameTableEntry::lookup(
                tile_x + SCREEN_WIDTH_TILES * (quadrant % 2),
                tile_y + SCREEN_HEIGHT_TILES * (quadrant / 2),
                background_pattern_table,
                memory,
            );
            entry.debug_render(y0, universal_background_colour, name_table_frame);
            tile_x += 1;
        }
    }

    pub fn debug_render_name_table_frame<M: PpuMapper>(&self, memory: &M, name_table_frame: &mut NameTableFrame)
        ensures
            final(name_table_frame)@ == spec_paint(old(name_table_frame)@, spec_debug_name_table_writes::<M>(self@, memory@)),
    {
        let background_pattern_table = memory.ppu_pattern_table(self.background_pattern_table);
        let ghost g = spec_debug_step::<M>(background_pattern_table@, memory@);
        let mut quadrant: u16 = 0;
        while quadrant < 4
            invariant
                quadrant <= 4,
                background_pattern_table@ == M::spec_pattern_table(memory@, self@.background_pattern_table),
                background_pattern_table@.len() == PATTERN_TABLE_BYTES,
                g == spec_debug_step::<M>(background_pattern_table@, memory@),
                name_table_frame@ == spec_paint(old(name_table_frame)@, spec_concat(quadrant as nat, g)),
            decreases 4 - quadrant,
        {
            let ghost before = name_table_frame@;
            let ghost f = spec_debug_quadrant_step::<M>(background_pattern_table@, memory@, quadrant as int);
            let mut tile_y: u16 = 0;
            while tile_y < SCREEN_HEIGHT_TILES
                invariant
                    tile_y <= SCREEN_HEIGHT_TILES,
                    quadrant < 4,
                    background_pattern_table@.len() == PATTERN_TABLE_BYTES,
                    f == spec_debug_quadrant_step::<M>(background_pattern_table@, memory@, quadrant as int),
                    name_table_frame@ == spec_paint(before, spec_concat(tile_y as nat, f)),
                decreases SCREEN_HEIGHT_TILES - tile_y,
            {
                proof {
                    lemma_concat_step(tile_y as nat, f);
                    lemma_paint_append(before, spec_concat(tile_y as nat, f), f(tile_y as int));
                }
                Self::debug_render_tile_row(background_pattern_table, memory, quadrant, tile_y, name_table_frame);
                tile_y += 1;
            }
            proof {
                lemma_concat_step(quadrant as nat, g);
                lemma_paint_append(old(name_table_frame)@, spec_concat(quadrant as nat, g), g(quadrant as int));
            }
            quadrant += 1;
        }
    }
}

/// The low 14 bits of an address written in two parts.
proof fn lemma_address_parts(t: u16, hi: u8, lo: u8)
    by (bit_vector)
    ensures
        spec_set_address_lo(spec_set_address_hi(t, hi), lo) % 0x4000 == (hi % 64) as u16 * 256 + lo as u16,
{
}

/// Two writes to the address register, high byte first, set the VRAM address: its low 14
/// bits are the 6 low bits of the first byte and all of the second. The toggle is back at
/// the first write.
pub proof fn lemma_write_address_pair(p: PpuView, hi: u8, lo: u8)
    requires
        p.first_write_toggle,
    ensures
        spec_write_address(spec_write_address(p, hi), lo).current_vram_address % 0x4000 == (hi % 64) as u16 * 256 + lo as u16,
        spec_write_address(spec_write_address(p, hi), lo).first_write_toggle,
{
    lemma_address_parts(p.temporary_vram_address, hi, lo);
}

} // verus!

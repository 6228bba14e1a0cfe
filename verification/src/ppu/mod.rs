//! The pixel unit: its registers, its video memory, the scanline state
//! machine and the renderer.

pub mod palette;
pub mod frame;
pub mod registers;
pub mod render;
pub mod sprites;
pub mod timing;

pub use crate::ppu::palette::{GBColour, Palette};
pub use crate::ppu::registers::{RenderingMode, Sprite, LCDC};

use vstd::prelude::*;
use vstd::array::spec_array_update;

verus! {

/// Columns of the screen.
pub const SCREEN_WIDTH: usize = 160;

/// Lines of the screen.
pub const SCREEN_HEIGHT: usize = 144;

/// STAT bit 2: the line counter matches the line-compare register.
pub const STAT_LYC_MATCH: u8 = 0x04;

/// STAT bit 3: entering the horizontal blank requests an interrupt.
pub const STAT_MODE0_INT: u8 = 0x08;

/// STAT bit 4: entering the vertical blank requests an interrupt.
pub const STAT_MODE1_INT: u8 = 0x10;

/// STAT bit 5: entering the OAM scan requests an interrupt.
pub const STAT_MODE2_INT: u8 = 0x20;

/// STAT bit 6: a line-compare match requests an interrupt.
pub const STAT_LYC_INT: u8 = 0x40;

pub struct PPU {
    pub rendering_mode: RenderingMode,
    /// 0xFF42: the line of the background map shown at the top of the screen.
    pub reg_scy: u8,
    /// 0xFF43: the column of the background map shown at the left edge.
    pub reg_scx: u8,
    /// 0xFF4A: the screen line of the window's top edge.
    pub reg_wy: u8,
    /// 0xFF4B: the screen column of the window's left edge, plus 7.
    pub reg_wx: u8,
    /// 0xFF44: the line that is being processed, 0 to 153.
    pub reg_ly: u8,
    /// 0xFF45: the line-compare register.
    pub reg_lyc: u8,
    /// 0xFF41: mode, match flag and interrupt enables.
    pub reg_stat: u8,
    /// 0xFF40.
    pub reg_lcdc: LCDC,
    /// 0xFF47: the palette of background and window.
    pub reg_bgp: Palette,
    /// 0xFF48.
    pub reg_obp0: Palette,
    /// 0xFF49.
    pub reg_obp1: Palette,
    /// The window's own line counter: how many lines of it were drawn in
    /// this frame.
    pub win_ly: u8,
    /// Dots spent in the current mode.
    pub line_dots: u32,
    pub vram: [u8; 0x2000],
    pub oam: [u8; 160],
    /// The 40 attribute entries, decoded when a line is drawn.
    pub sprite_cache: [Sprite; 40],
    /// The last complete frame, line by line.
    pub display_buf: [GBColour; 23040],
    /// The frame that is being drawn.
    pub draw_buf: [GBColour; 23040],
    /// The background's colour numbers on the line drawn last.
    pub bg_line: [u8; 160],
    /// All 384 tiles of video memory as 8x8 pictures, for inspection.
    pub tile_data_buf: Vec<[GBColour; 64]>,
}

/// The colour number of one pixel of a tile row: bit `bit` of the row's first
/// byte is its low bit, the same bit of the second byte its high bit.
pub open spec fn spec_pixel_id(low: u8, high: u8, bit: u8) -> u8 {
    ((low >> bit) & 0x1) | (((high >> bit) & 0x1) << 1)
}

/// The colour number of one pixel of a tile row.
#[verifier::when_used_as_spec(spec_pixel_id)]
pub fn pixel_id(low: u8, high: u8, bit: u8) -> (id: u8)
    requires
        bit < 8,
    ensures
        id == spec_pixel_id(low, high, bit),
{
    ((low >> bit) & 0x1) | (((high >> bit) & 0x1) << 1)
}

/// The sprites among the first `n` of `cache` that have a row on line `ly`,
/// in their order, up to ten of them.
pub open spec fn select_sprites(cache: Seq<Sprite>, ly: int, height: int, n: nat) -> Seq<Sprite>
    decreases n,
{
    if n == 0 {
        Seq::empty()
    } else {
        let before = select_sprites(cache, ly, height, (n - 1) as nat);
        if before.len() < 10 && cache[n - 1].covers_line(ly, height) {
            before.push(cache[n - 1])
        } else {
            before
        }
    }
}

/// Where a sprite in column `x` goes into `sorted`: behind the last sprite
/// that is not to its right.
pub open spec fn insert_point(sorted: Seq<Sprite>, x: int) -> nat
    decreases sorted.len(),
{
    if sorted.len() == 0 {
        0
    } else if sorted.last().pos_x > x {
        insert_point(sorted.drop_last(), x)
    } else {
        sorted.len()
    }
}

/// `sprites` ordered by column, leftmost first; sprites of one column keep
/// their order.
pub open spec fn sort_by_x(sprites: Seq<Sprite>) -> Seq<Sprite>
    decreases sprites.len(),
{
    if sprites.len() == 0 {
        Seq::empty()
    } else {
        let sorted = sort_by_x(sprites.drop_last());
        sorted.insert(insert_point(sorted, sprites.last().pos_x as int) as int, sprites.last())
    }
}

impl PPU {
    /// The invariant of the unit: the line counter is within the frame, the
    /// mode has dots left, and a visible mode is on a visible line.
    pub open spec fn wf(&self) -> bool {
        &&& self.reg_ly < 154
        &&& self.rendering_mode != RenderingMode::VBlank ==> self.reg_ly < 144
        &&& self.line_dots < self.rendering_mode.dots()
    }

    /// Whether the unit is as it is at power-up: in the vertical blank at
    /// line 0 with the display on, memory cleared, both frames light grey
    /// and no tile pictures made.
    pub open spec fn is_power_up(&self) -> bool {
        &&& self.rendering_mode == RenderingMode::VBlank
        &&& self.reg_scy == 0 && self.reg_scx == 0 && self.reg_wy == 0 && self.reg_wx == 0
        &&& self.reg_ly == 0 && self.reg_lyc == 0 && self.win_ly == 0 && self.line_dots == 0
        &&& self.reg_stat == 0x85
        &&& self.reg_lcdc == LCDC::spec_new(0x91)
        &&& self.reg_bgp == Palette::spec_new(0xFC)
        &&& self.reg_obp0 == Palette::spec_new(0)
        &&& self.reg_obp1 == Palette::spec_new(0)
        &&& forall|i: int| 0 <= i < 0x2000 ==> self.vram[i] == 0
        &&& forall|i: int| 0 <= i < 160 ==> self.oam[i] == 0
        &&& forall|i: int| 0 <= i < 160 ==> self.bg_line[i] == 0
        &&& forall|i: int|
            0 <= i < 40 ==> self.sprite_cache[i] == Sprite::spec_from_oam(
                0,
                seq![16u8, 8u8, 0u8, 0u8],
            )
        &&& forall|i: int| 0 <= i < 23040 ==> self.display_buf[i] == GBColour::LightGrey
        &&& forall|i: int| 0 <= i < 23040 ==> self.draw_buf[i] == GBColour::LightGrey
        &&& self.tile_data_buf@.len() == 0
    }

    /// The byte read at `addr`: video memory, attribute memory or a
    /// register, and 0xFF where the unit has nothing.
    pub open spec fn spec_read(&self, addr: u16) -> u8 {
        if 0x8000 <= addr <= 0x9FFF {
            self.vram[addr - 0x8000]
        } else if 0xFE00 <= addr <= 0xFE9F {
            self.oam[addr - 0xFE00]
        } else if addr == 0xFF40 {
            self.reg_lcdc.spec_read()
        } else if addr == 0xFF41 {
            self.reg_stat
        } else if addr == 0xFF42 {
            self.reg_scy
        } else if addr == 0xFF43 {
            self.reg_scx
        } else if addr == 0xFF44 {
            self.reg_ly
        } else if addr == 0xFF45 {
            self.reg_lyc
        } else if addr == 0xFF47 {
            self.reg_bgp.spec_read()
        } else if addr == 0xFF48 {
            self.reg_obp0.spec_read()
        } else if addr == 0xFF49 {
            self.reg_obp1.spec_read()
        } else if addr == 0xFF4A {
            self.reg_wy
        } else if addr == 0xFF4B {
            self.reg_wx
        } else {
            0xFF
        }
    }

    /// The unit after `write` is stored at `addr`. The line counter cannot be
    /// written, and of the status register only the four interrupt enables.
    pub open spec fn spec_write(self, addr: u16, write: u8) -> Self {
        if 0x8000 <= addr <= 0x9FFF {
            PPU { vram: spec_array_update(self.vram, addr - 0x8000, write), ..self }
        } else if 0xFE00 <= addr <= 0xFE9F {
            PPU { oam: spec_array_update(self.oam, addr - 0xFE00, write), ..self }
        } else if addr == 0xFF40 {
            PPU { reg_lcdc: LCDC::spec_new(write), ..self }
        } else if addr == 0xFF41 {
            PPU { reg_stat: (write & 0x78) | (self.reg_stat & 0x87), ..self }
        } else if addr == 0xFF42 {
            PPU { reg_scy: write, ..self }
        } else if addr == 0xFF43 {
            PPU { reg_scx: write, ..self }
        } else if addr == 0xFF45 {
            PPU { reg_lyc: write, ..self }
        } else if addr == 0xFF47 {
            PPU { reg_bgp: Palette::spec_new(write), ..self }
        } else if addr == 0xFF48 {
            PPU { reg_obp0: Palette::spec_new(write), ..self }
        } else if addr == 0xFF49 {
            PPU { reg_obp1: Palette::spec_new(write), ..self }
        } else if addr == 0xFF4A {
            PPU { reg_wy: write, ..self }
        } else if addr == 0xFF4B {
            PPU { reg_wx: write, ..self }
        } else {
            self
        }
    }

    /// The unit at power-up: in the vertical blank at line 0, the display on,
    /// memory cleared and both frames light grey.
    pub fn new() -> (ppu: Self)
        ensures
            ppu.wf(),
            ppu.is_power_up(),
    {
        let blank = Sprite::default();
        PPU {
            rendering_mode: RenderingMode::VBlank,
            reg_scy: 0,
            reg_scx: 0,
            reg_wy: 0,
            reg_wx: 0,
            reg_ly: 0,
            reg_lyc: 0,
            reg_stat: 0x85,
            reg_lcdc: LCDC::new(0x91),
            reg_bgp: Palette::new(0xFC),
            reg_obp0: Palette::new(0),
            reg_obp1: Palette::new(0),
            win_ly: 0,
            line_dots: 0,
            vram: [0u8; 0x2000],
            oam: [0u8; 160],
            sprite_cache: [blank; 40],
            display_buf: [GBColour::LightGrey; 23040],
            draw_buf: [GBColour::LightGrey; 23040],
            bg_line: [0u8; 160],
            tile_data_buf: Vec::new(),
        }
    }

    /// The last complete frame, 144 lines of 160 pixels.
    pub fn get_frame(&self) -> (frame: [GBColour; 23040])
        ensures
            frame == self.display_buf,
    {
        self.display_buf
    }

    /// Reads the byte at `addr`.
    pub fn read(&self, addr: u16) -> (r: u8)
        ensures
            r == self.spec_read(addr),
    {
        match addr {
            0x8000..=0x9FFF => self.vram[(addr - 0x8000) as usize],
            0xFE00..=0xFE9F => self.oam[(addr - 0xFE00) as usize],
            0xFF40 => self.reg_lcdc.read(),
            0xFF41 => self.reg_stat,
            0xFF42 => self.reg_scy,
            0xFF43 => self.reg_scx,
            0xFF44 => self.reg_ly,
            0xFF45 => self.reg_lyc,
            0xFF47 => self.reg_bgp.read(),
            0xFF48 => self.reg_obp0.read(),
            0xFF49 => self.reg_obp1.read(),
            0xFF4A => self.reg_wy,
            0xFF4B => self.reg_wx,
            _ => 0xFF,
        }
    }

    /// Stores `write` at `addr`.
    pub fn write(&mut self, addr: u16, write: u8)
        ensures
            *final(self) == old(self).spec_write(addr, write),
            old(self).wf() ==> final(self).wf(),
    {
        match addr {
            0x8000..=0x9FFF => {
                self.vram[(addr - 0x8000) as usize] = write;
                assert(self.vram =~= spec_array_update(old(self).vram, addr - 0x8000, write));
            },
            0xFE00..=0xFE9F => {
                self.oam[(addr - 0xFE00) as usize] = write;
                assert(self.oam =~= spec_array_update(old(self).oam, addr - 0xFE00, write));
            },
            0xFF40 => self.reg_lcdc.write(write),
            0xFF41 => self.reg_stat = (write & 0x78) | (self.reg_stat & 0x87),
            0xFF42 => self.reg_scy = write,
            0xFF43 => self.reg_scx = write,
            0xFF45 => self.reg_lyc = write,
            0xFF47 => self.reg_bgp.write(write),
            0xFF48 => self.reg_obp0.write(write),
            0xFF49 => self.reg_obp1.write(write),
            0xFF4A => self.reg_wy = write,
            0xFF4B => self.reg_wx = write,
            _ => {},
        }
    }
}

} // verus!

//! The LCD control register, the rendering modes and the sprite attributes.

use vstd::prelude::*;
use crate::bits::lemma_lcdc_bits;

verus! {

/// The four states of the scanline state machine.
#[derive(Clone, Copy, Debug, PartialEq, Eq, Structural)]
pub enum RenderingMode {
    HBlank,
    VBlank,
    OAMscan,
    Draw,
}

impl RenderingMode {
    /// The number of the mode, as it is read from the status register.
    pub open spec fn spec_bits(self) -> u8 {
        match self {
            RenderingMode::HBlank => 0,
            RenderingMode::VBlank => 1,
            RenderingMode::OAMscan => 2,
            RenderingMode::Draw => 3,
        }
    }

    /// How many dots the machine stays in the mode: 80, 172 and 204 dots make
    /// up a visible line, and a line of the vertical blank takes all 456.
    pub open spec fn spec_dots(self) -> u32 {
        match self {
            RenderingMode::OAMscan => 80,
            RenderingMode::Draw => 172,
            RenderingMode::HBlank => 204,
            RenderingMode::VBlank => 456,
        }
    }

    /// How many dots of a line have passed when the mode is entered.
    pub open spec fn spec_offset(self) -> int {
        match self {
            RenderingMode::OAMscan => 0,
            RenderingMode::Draw => 80,
            RenderingMode::HBlank => 252,
            RenderingMode::VBlank => 0,
        }
    }

    /// The number of the mode, as it is read from the status register.
    #[verifier::when_used_as_spec(spec_bits)]
    pub fn bits(self) -> (b: u8)
        ensures
            b == self.spec_bits(),
    {
        match self {
            RenderingMode::HBlank => 0,
            RenderingMode::VBlank => 1,
            RenderingMode::OAMscan => 2,
            RenderingMode::Draw => 3,
        }
    }

    /// How many dots the machine stays in the mode.
    #[verifier::when_used_as_spec(spec_dots)]
    pub fn dots(self) -> (d: u32)
        ensures
            d == self.spec_dots(),
    {
        match self {
            RenderingMode::OAMscan => 80,
            RenderingMode::Draw => 172,
            RenderingMode::HBlank => 204,
            RenderingMode::VBlank => 456,
        }
    }
}

/// One entry of the object attribute memory, decoded.
#[derive(Clone, Copy, Debug, PartialEq, Eq, Structural)]
pub struct Sprite {
    /// The screen line of the sprite's top row; the stored byte minus 16.
    pub pos_y: i16,
    /// The screen column of the sprite's left edge; the stored byte minus 8.
    pub pos_x: i16,
    pub tile_id: u8,
    /// Set when background colours 1 to 3 cover the sprite.
    pub priority: bool,
    pub y_flip: bool,
    pub x_flip: bool,
    /// Selects the second object palette.
    pub palette: bool,
}

impl Sprite {
    /// The sprite stored in the four bytes of `oam` that start at `base`.
    pub open spec fn spec_from_oam(base: int, oam: Seq<u8>) -> Self {
        Sprite {
            pos_y: (oam[base] - 16) as i16,
            pos_x: (oam[base + 1] - 8) as i16,
            tile_id: oam[base + 2],
            priority: oam[base + 3] & 0x80 != 0,
            y_flip: oam[base + 3] & 0x40 != 0,
            x_flip: oam[base + 3] & 0x20 != 0,
            palette: oam[base + 3] & 0x10 != 0,
        }
    }

    /// Whether the sprite, `height` rows tall, has a row on screen line `ly`.
    pub open spec fn covers_line(&self, ly: int, height: int) -> bool {
        self.pos_y <= ly < self.pos_y + height
    }

    /// Whether the sprite has a pixel in screen column `x`.
    pub open spec fn covers_column(&self, x: int) -> bool {
        self.pos_x <= x < self.pos_x + 8
    }

    /// The positions are those of some attribute entry.
    pub open spec fn wf(&self) -> bool {
        &&& -16 <= self.pos_y <= 239
        &&& -8 <= self.pos_x <= 247
    }

    /// A sprite in the top left corner of the screen with tile 0 and no
    /// attributes.
    pub fn default() -> (sprite: Self)
        ensures
            sprite == Self::spec_from_oam(0, seq![16u8, 8u8, 0u8, 0u8]),
            sprite.pos_x == 0,
            sprite.pos_y == 0,
            sprite.wf(),
    {
        let sprite = Sprite {
            pos_y: 0,
            pos_x: 0,
            tile_id: 0,
            priority: false,
            y_flip: false,
            x_flip: false,
            palette: false,
        };
        proof {
            lemma_zero_attributes();
        }
        sprite
    }

    /// Decodes the attribute entry that starts at `base_addr` in `oam`.
    pub fn from_oam(base_addr: u16, oam: &[u8; 160]) -> (sprite: Self)
        requires
            base_addr + 3 < 160,
        ensures
            sprite == Self::spec_from_oam(base_addr as int, oam@),
            sprite.wf(),
    {
        let attributes = oam[base_addr as usize + 3];
        Sprite {
            pos_y: oam[base_addr as usize] as i16 - 16,
            pos_x: oam[base_addr as usize + 1] as i16 - 8,
            tile_id: oam[base_addr as usize + 2],
            priority: attributes & 0x80 != 0,
            y_flip: attributes & 0x40 != 0,
            x_flip: attributes & 0x20 != 0,
            palette: attributes & 0x10 != 0,
        }
    }
}

/// An attribute byte of zero has none of its flags set.
proof fn lemma_zero_attributes()
    by (bit_vector)
    ensures
        0u8 & 0x80 == 0,
        0u8 & 0x40 == 0,
        0u8 & 0x20 == 0,
        0u8 & 0x10 == 0,
{
}

/// The LCD control register, one flag per bit.
#[derive(Clone, Copy, Debug, PartialEq, Eq, Structural)]
pub struct LCDC {
    /// Bit 7: the display is on.
    pub lcd_enable: bool,
    /// Bit 6: the window's tile map is at 0x9C00 instead of 0x9800.
    pub window_tilemap_area: bool,
    /// Bit 5: the window is shown.
    pub window_enable: bool,
    /// Bit 4: tile data is addressed unsigned from 0x8000 instead of signed
    /// from 0x9000.
    pub tile_data_area: bool,
    /// Bit 3: the background's tile map is at 0x9C00 instead of 0x9800.
    pub bg_tilemap_area: bool,
    /// Bit 2: sprites are 16 rows tall instead of 8.
    pub obj_size: bool,
    /// Bit 1: sprites are shown.
    pub obj_enable: bool,
    /// Bit 0: background and window are shown.
    pub bg_enable: bool,
}

impl LCDC {
    /// The flags that the register byte `write` encodes.
    pub open spec fn spec_new(write: u8) -> Self {
        LCDC {
            bg_enable: write & 0x01 != 0,
            obj_enable: write & 0x02 != 0,
            obj_size: write & 0x04 != 0,
            bg_tilemap_area: write & 0x08 != 0,
            tile_data_area: write & 0x10 != 0,
            window_enable: write & 0x20 != 0,
            window_tilemap_area: write & 0x40 != 0,
            lcd_enable: write & 0x80 != 0,
        }
    }

    /// The register byte that encodes the flags.
    pub open spec fn spec_read(&self) -> u8 {
        (if self.bg_enable {
            0x01u8
        } else {
            0u8
        }) | (if self.obj_enable {
            0x02u8
        } else {
            0u8
        }) | (if self.obj_size {
            0x04u8
        } else {
            0u8
        }) | (if self.bg_tilemap_area {
            0x08u8
        } else {
            0u8
        }) | (if self.tile_data_area {
            0x10u8
        } else {
            0u8
        }) | (if self.window_enable {
            0x20u8
        } else {
            0u8
        }) | (if self.window_tilemap_area {
            0x40u8
        } else {
            0u8
        }) | (if self.lcd_enable {
            0x80u8
        } else {
            0u8
        })
    }

    /// The height of a sprite in rows.
    pub open spec fn spec_sprite_height(&self) -> i16 {
        if self.obj_size {
            16
        } else {
            8
        }
    }

    /// The flags that the register byte `initial_write` encodes.
    pub fn new(initial_write: u8) -> (lcdc: Self)
        ensures
            lcdc == Self::spec_new(initial_write),
    {
        let mut lcdc = LCDC {
            lcd_enable: false,
            window_tilemap_area: false,
            window_enable: false,
            tile_data_area: false,
            bg_tilemap_area: false,
            obj_size: false,
            obj_enable: false,
            bg_enable: false,
        };
        lcdc.write(initial_write);
        lcdc
    }

    /// The register byte that encodes the flags.
    pub fn read(&self) -> (r: u8)
        ensures
            r == self.spec_read(),
    {
        (if self.bg_enable {
            0x01
        } else {
            0
        }) | (if self.obj_enable {
            0x02
        } else {
            0
        }) | (if self.obj_size {
            0x04
        } else {
            0
        }) | (if self.bg_tilemap_area {
            0x08
        } else {
            0
        }) | (if self.tile_data_area {
            0x10
        } else {
            0
        }) | (if self.window_enable {
            0x20
        } else {
            0
        }) | (if self.window_tilemap_area {
            0x40
        } else {
            0
        }) | (if self.lcd_enable {
            0x80
        } else {
            0
        })
    }

    /// Replaces the flags by those that the register byte `write` encodes.
    pub fn write(&mut self, write: u8)
        ensures
            *final(self) == Self::spec_new(write),
            final(self).spec_read() == write,
    {
        self.bg_enable = write & 0x01 != 0;
        self.obj_enable = write & 0x02 != 0;
        self.obj_size = write & 0x04 != 0;
        self.bg_tilemap_area = write & 0x08 != 0;
        self.tile_data_area = write & 0x10 != 0;
        self.window_enable = write & 0x20 != 0;
        self.window_tilemap_area = write & 0x40 != 0;
        self.lcd_enable = write & 0x80 != 0;
        proof {
            lemma_lcdc_bits(write);
        }
    }

    /// The height of a sprite in rows.
    #[verifier::when_used_as_spec(spec_sprite_height)]
    pub fn sprite_height(&self) -> (h: i16)
        ensures
            h == self.spec_sprite_height(),
    {
        if self.obj_size {
            16
        } else {
            8
        }
    }
}

} // verus!

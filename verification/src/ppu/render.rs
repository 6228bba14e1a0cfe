//! The renderer: how one scanline gets its pixels from the background, the
//! window and the sprites.

use vstd::prelude::*;
use vstd::array::spec_array_update;
use crate::ppu::{insert_point, pixel_id, select_sprites, sort_by_x, spec_pixel_id, GBColour, PPU, Sprite};

verus! {

impl PPU {
    /// Whether the pixel in column `x` of the current line belongs to the
    /// window: the window is on, has started, and begins at or left of `x`.
    pub open spec fn window_covers(&self, x: int) -> bool {
        self.reg_lcdc.window_enable && self.reg_ly >= self.reg_wy && x + 7 >= self.reg_wx
    }

    /// Whether any pixel of the current line belongs to the window.
    pub open spec fn window_on_line(&self) -> bool {
        self.reg_lcdc.window_enable && self.reg_ly >= self.reg_wy && self.reg_wx <= 166
    }

    /// The column of the tile map that is shown in screen column `x`: counted
    /// from the window's left edge inside the window, scrolled by SCX and
    /// wrapped around the map outside.
    pub open spec fn bg_map_x(&self, x: int) -> int {
        if self.window_covers(x) {
            x + 7 - self.reg_wx
        } else {
            (x + self.reg_scx) % 256
        }
    }

    /// The line of the tile map that is shown in screen column `x` of the
    /// current line: the window's own line counter inside the window, the
    /// line scrolled by SCY and wrapped around the map outside.
    pub open spec fn bg_map_y(&self, x: int) -> int {
        if self.window_covers(x) {
            self.win_ly as int
        } else {
            (self.reg_ly + self.reg_scy) % 256
        }
    }

    /// Where in video memory the tile map for screen column `x` starts.
    pub open spec fn bg_map_base(&self, x: int) -> int {
        let high = if self.window_covers(x) {
            self.reg_lcdc.window_tilemap_area
        } else {
            self.reg_lcdc.bg_tilemap_area
        };
        if high {
            0x1C00
        } else {
            0x1800
        }
    }

    /// The number of the tile shown in screen column `x`.
    pub open spec fn bg_tile_id(&self, x: int) -> u8 {
        self.vram[self.bg_map_base(x) + (self.bg_map_y(x) / 8) * 32 + self.bg_map_x(x) / 8]
    }

    /// Where in video memory the data of background tile `tile_id` start.
    /// Unsigned addressing counts from 0x8000; signed addressing takes the
    /// number as a signed offset from 0x9000.
    pub open spec fn tile_data_index(&self, tile_id: u8) -> int {
        if self.reg_lcdc.tile_data_area {
            tile_id * 16
        } else if tile_id < 128 {
            0x1000 + tile_id * 16
        } else {
            0x800 + (tile_id - 128) * 16
        }
    }

    /// The colour number of the background or window in screen column `x`
    /// of the current line. The leftmost pixel of a tile is bit 7.
    pub open spec fn bg_colour_id(&self, x: int) -> u8 {
        let row = self.tile_data_index(self.bg_tile_id(x)) + (self.bg_map_y(x) % 8) * 2;
        spec_pixel_id(self.vram[row], self.vram[row + 1], (7 - self.bg_map_x(x) % 8) as u8)
    }

    /// The unit with the pixel in column `x` of the current line set to
    /// `colour` and its background colour number noted as `id`.
    pub open spec fn spec_put_bg(self, x: int, colour: GBColour, id: u8) -> Self {
        PPU {
            draw_buf: spec_array_update(self.draw_buf, self.reg_ly * 160 + x, colour),
            bg_line: spec_array_update(self.bg_line, x, id),
            ..self
        }
    }

    /// The unit with the first `n` pixels of the current line drawn from the
    /// background and the window.
    pub open spec fn spec_draw_tiles_to(self, n: nat) -> Self
        decreases n,
    {
        if n == 0 {
            self
        } else {
            let before = self.spec_draw_tiles_to((n - 1) as nat);
            let id = before.bg_colour_id(n - 1);
            before.spec_put_bg(n - 1, before.reg_bgp.spec_get_pal_value(id), id)
        }
    }

    /// The unit with the current line drawn from the background and the
    /// window.
    pub open spec fn spec_draw_tiles(self) -> Self {
        self.spec_draw_tiles_to(160)
    }

    /// The unit with the first `n` pixels of the current line white and
    /// their background colour number 0.
    pub open spec fn spec_clear_line_to(self, n: nat) -> Self
        decreases n,
    {
        if n == 0 {
            self
        } else {
            self.spec_clear_line_to((n - 1) as nat).spec_put_bg(n - 1, GBColour::White, 0)
        }
    }

    /// The unit with the first `n` attribute entries decoded into the cache.
    pub open spec fn spec_cache_sprites_to(self, n: nat) -> Self
        decreases n,
    {
        if n == 0 {
            self
        } else {
            let before = self.spec_cache_sprites_to((n - 1) as nat);
            PPU {
                sprite_cache: spec_array_update(
                    before.sprite_cache,
                    n - 1,
                    Sprite::spec_from_oam(4 * (n - 1), before.oam@),
                ),
                ..before
            }
        }
    }

    /// The unit with all 40 attribute entries decoded into the cache.
    pub open spec fn spec_cache_all_sprites(self) -> Self {
        self.spec_cache_sprites_to(40)
    }

    /// The sprites to paint on the current line, in the order of painting:
    /// the first ten cached sprites with a row on the line, from the
    /// rightmost to the leftmost, and among sprites of one column the later
    /// entry first. What is painted later covers what was painted before.
    pub open spec fn spec_sprites_on_line(&self) -> Seq<Sprite> {
        sort_by_x(
            select_sprites(
                self.sprite_cache@,
                self.reg_ly as int,
                self.reg_lcdc.spec_sprite_height() as int,
                40,
            ),
        ).reverse()
    }

    /// The row of sprite `s` that lies on the current line, counted from the
    /// bottom if the sprite is flipped vertically.
    pub open spec fn sprite_row(&self, s: Sprite) -> int {
        if s.y_flip {
            self.reg_lcdc.spec_sprite_height() - 1 - (self.reg_ly - s.pos_y)
        } else {
            self.reg_ly - s.pos_y
        }
    }

    /// Where in video memory the two bytes of that row are. Tall sprites
    /// ignore the lowest bit of their tile number.
    pub open spec fn sprite_data_index(&self, s: Sprite) -> int {
        (s.tile_id & (if self.reg_lcdc.obj_size {
            0xFEu8
        } else {
            0xFFu8
        })) * 16 + self.sprite_row(s) * 2
    }

    /// The colour number of pixel `col` (0 to 7 from the left on screen) of
    /// sprite `s` on the current line.
    pub open spec fn sprite_colour_id(&self, s: Sprite, col: int) -> u8 {
        let row = self.sprite_data_index(s);
        spec_pixel_id(
            self.vram[row],
            self.vram[row + 1],
            (if s.x_flip {
                col
            } else {
                7 - col
            }) as u8,
        )
    }

    /// Whether pixel `col` of sprite `s` is painted: it is on the screen, it
    /// is not transparent, and the sprite is not behind a background pixel
    /// of a colour number other than 0.
    pub open spec fn sprite_paints(&self, s: Sprite, col: int) -> bool {
        let x = s.pos_x + col;
        &&& 0 <= x <= 159
        &&& self.sprite_colour_id(s, col) != 0
        &&& !(s.priority && self.bg_line[x] != 0)
    }

    /// The shade of pixel `col` of sprite `s`, from the palette that the
    /// sprite selects.
    pub open spec fn sprite_colour(&self, s: Sprite, col: int) -> GBColour {
        if s.palette {
            self.reg_obp1.spec_get_pal_value(self.sprite_colour_id(s, col))
        } else {
            self.reg_obp0.spec_get_pal_value(self.sprite_colour_id(s, col))
        }
    }

    /// The unit after pixel `col` of sprite `s` has had its turn.
    pub open spec fn spec_paint_pixel(self, s: Sprite, col: int) -> Self {
        if self.sprite_paints(s, col) {
            PPU {
                draw_buf: spec_array_update(
                    self.draw_buf,
                    self.reg_ly * 160 + s.pos_x + col,
                    self.sprite_colour(s, col),
                ),
                ..self
            }
        } else {
            self
        }
    }

    /// The unit after the first `n` pixels of sprite `s` have had their turn.
    pub open spec fn spec_paint_sprite(self, s: Sprite, n: nat) -> Self
        decreases n,
    {
        if n == 0 {
            self
        } else {
            self.spec_paint_sprite(s, (n - 1) as nat).spec_paint_pixel(s, n - 1)
        }
    }

    /// The unit after the first `k` sprites of `order` have been painted.
    pub open spec fn spec_paint_sprites(self, order: Seq<Sprite>, k: nat) -> Self
        decreases k,
    {
        if k == 0 {
            self
        } else {
            self.spec_paint_sprites(order, (k - 1) as nat).spec_paint_sprite(order[k - 1], 8)
        }
    }

    /// The unit with the sprites of the current line painted over it.
    pub open spec fn spec_draw_sprites(self) -> Self {
        self.spec_paint_sprites(self.spec_sprites_on_line(), self.spec_sprites_on_line().len())
    }

    /// The unit after the current line has been rendered: the sprites are
    /// decoded, the line is drawn from background and window or left white,
    /// the sprites are painted over it, and the window's line counter moves
    /// on if the window was drawn.
    pub open spec fn spec_draw_scanline(self) -> Self {
        let cached = self.spec_cache_all_sprites();
        let tiled = if self.reg_lcdc.bg_enable {
            cached.spec_draw_tiles()
        } else {
            cached.spec_clear_line_to(160)
        };
        let painted = if self.reg_lcdc.obj_enable {
            tiled.spec_draw_sprites()
        } else {
            tiled
        };
        if self.reg_lcdc.bg_enable && self.window_on_line() {
            PPU { win_ly: self.win_ly.wrapping_add(1), ..painted }
        } else {
            painted
        }
    }

    /// The shade of pixel (`col`, `row`) of tile `tile` in the tile viewer.
    pub open spec fn tile_pixel(&self, tile: int, row: int, col: int) -> GBColour {
        self.reg_bgp.spec_get_pal_value(
            spec_pixel_id(
                self.vram[tile * 16 + row * 2],
                self.vram[tile * 16 + row * 2 + 1],
                col as u8,
            ),
        )
    }

    /// The colour number of the background in column `x` of the current line.
    fn bg_pixel(&self, x: u8) -> (id: u8)
        requires
            x < 160,
        ensures
            id == self.bg_colour_id(x as int),
    {
        let in_window = self.reg_lcdc.window_enable && self.reg_ly >= self.reg_wy && x as u16 + 7
            >= self.reg_wx as u16;
        let y_pos: u8 = if in_window {
            self.win_ly
        } else {
            self.reg_ly.wrapping_add(self.reg_scy)
        };
        let x_pos: u8 = if in_window {
            (x as u16 + 7 - self.reg_wx as u16) as u8
        } else {
            x.wrapping_add(self.reg_scx)
        };
        let tilemap_area: usize = if in_window {
            if self.reg_lcdc.window_tilemap_area {
                0x1C00
            } else {
                0x1800
            }
        } else {
            if self.reg_lcdc.bg_tilemap_area {
                0x1C00
            } else {
                0x1800
            }
        };
        assert(in_window == self.window_covers(x as int));
        assert(y_pos == self.bg_map_y(x as int));
        assert(x_pos == self.bg_map_x(x as int));
        assert(tilemap_area == self.bg_map_base(x as int));
        let tile_id = self.vram[tilemap_area + (y_pos as usize / 8) * 32 + (x_pos as usize / 8)];
        assert(tile_id == self.bg_tile_id(x as int));
        let tile_base: usize = if self.reg_lcdc.tile_data_area {
            tile_id as usize * 16
        } else if tile_id < 128 {
            0x1000 + tile_id as usize * 16
        } else {
            0x800 + (tile_id as usize - 128) * 16
        };
        assert(tile_base == self.tile_data_index(tile_id));
        let row = tile_base + (y_pos % 8) as usize * 2;
        assert(7 - (x_pos % 8) == (7 - self.bg_map_x(x as int) % 8) as u8);
        pixel_id(self.vram[row], self.vram[row + 1], 7 - (x_pos % 8))
    }

    /// Draws the current line from the background and the window.
    pub fn draw_tiles(&mut self)
        requires
            old(self).reg_ly < 144,
        ensures
            *final(self) == old(self).spec_draw_tiles(),
            forall|x: int|
                0 <= x < 160 ==> #[trigger] final(self).draw_buf[old(self).reg_ly * 160 + x]
                    == old(self).reg_bgp.spec_get_pal_value(old(self).bg_colour_id(x)),
    {
        proof {
            old(self).lemma_draw_tiles_pixels(160);
        }
        let mut x: u8 = 0;
        while x < 160
            invariant
                x <= 160,
                self.reg_ly < 144,
                self.reg_ly == old(self).reg_ly,
                *self == old(self).spec_draw_tiles_to(x as nat),
            decreases 160 - x,
        {
            let ghost before = *self;
            let id = self.bg_pixel(x);
            let colour = self.reg_bgp.get_pal_value(id);
            self.draw_buf[x as usize + 160 * self.reg_ly as usize] = colour;
            self.bg_line[x as usize] = id;
            proof {
                let after = before.spec_put_bg(x as int, colour, id);
                assert(self.draw_buf =~= after.draw_buf);
                assert(self.bg_line =~= after.bg_line);
            }
            x += 1;
        }
    }

    /// Leaves the current line white.
    fn clear_line(&mut self)
        requires
            old(self).reg_ly < 144,
        ensures
            *final(self) == old(self).spec_clear_line_to(160),
    {
        let mut x: usize = 0;
        while x < 160
            invariant
                x <= 160,
                self.reg_ly < 144,
                self.reg_ly == old(self).reg_ly,
                *self == old(self).spec_clear_line_to(x as nat),
            decreases 160 - x,
        {
            let ghost before = *self;
            self.draw_buf[x + 160 * self.reg_ly as usize] = GBColour::White;
            self.bg_line[x] = 0;
            proof {
                let after = before.spec_put_bg(x as int, GBColour::White, 0);
                assert(self.draw_buf =~= after.draw_buf);
                assert(self.bg_line =~= after.bg_line);
            }
            x += 1;
        }
    }

    /// Decodes all 40 attribute entries into the cache.
    pub fn cache_all_sprites(&mut self)
        ensures
            *final(self) == old(self).spec_cache_all_sprites(),
    {
        let mut sprite_index: usize = 0;
        while sprite_index < 40
            invariant
                sprite_index <= 40,
                *self == old(self).spec_cache_sprites_to(sprite_index as nat),
            decreases 40 - sprite_index,
        {
            let ghost before = *self;
            let sprite = Sprite::from_oam(sprite_index as u16 * 4, &self.oam);
            self.sprite_cache[sprite_index] = sprite;
            proof {
                assert(self.sprite_cache =~= spec_array_update(
                    before.sprite_cache,
                    sprite_index as int,
                    sprite,
                ));
            }
            sprite_index += 1;
        }
    }

    /// The sprites to paint on the current line, in the order of painting.
    pub fn cache_sprites_on_line(&self) -> (sprites: Vec<Sprite>)
        ensures
            sprites@ == self.spec_sprites_on_line(),
            sprites@.len() <= 10,
            forall|i: int|
                0 <= i < sprites@.len() ==> (#[trigger] sprites@[i]).covers_line(
                    self.reg_ly as int,
                    self.reg_lcdc.spec_sprite_height() as int,
                ),
    {
        let size_y = self.reg_lcdc.sprite_height() as i32;
        let ly = self.reg_ly as i32;
        let ghost cache = self.sprite_cache@;
        let mut sprites_on_line: Vec<Sprite> = Vec::new();
        let mut index: usize = 0;
        while index < 40
            invariant
                index <= 40,
                cache == self.sprite_cache@,
                size_y == self.reg_lcdc.spec_sprite_height(),
                ly == self.reg_ly,
                sprites_on_line@ == select_sprites(cache, ly as int, size_y as int, index as nat),
                sprites_on_line@.len() <= 10,
                forall|i: int|
                    0 <= i < sprites_on_line@.len() ==> (#[trigger] sprites_on_line@[i]).covers_line(
                        ly as int,
                        size_y as int,
                    ),
            decreases 40 - index,
        {
            let sprite = self.sprite_cache[index];
            if sprites_on_line.len() < 10 && ly >= sprite.pos_y as i32 && ly < sprite.pos_y as i32
                + size_y {
                sprites_on_line.push(sprite);
            }
            index += 1;
        }
        let ghost visible = sprites_on_line@;
        let mut sorted: Vec<Sprite> = Vec::new();
        let mut i: usize = 0;
        while i < sprites_on_line.len()
            invariant
                i <= sprites_on_line@.len(),
                sprites_on_line@ == visible,
                forall|k: int|
                    0 <= k < visible.len() ==> (#[trigger] visible[k]).covers_line(
                        ly as int,
                        size_y as int,
                    ),
                sorted@ == sort_by_x(visible.take(i as int)),
                sorted@.len() == i,
                forall|k: int|
                    0 <= k < sorted@.len() ==> (#[trigger] sorted@[k]).covers_line(
                        ly as int,
                        size_y as int,
                    ),
            decreases sprites_on_line@.len() - i,
        {
            let sprite = sprites_on_line[i];
            let mut j: usize = sorted.len();
            assert(sorted@.take(j as int) =~= sorted@);
            while j > 0 && sorted[j - 1].pos_x > sprite.pos_x
                invariant
                    j <= sorted@.len(),
                    insert_point(sorted@, sprite.pos_x as int) == insert_point(
                        sorted@.take(j as int),
                        sprite.pos_x as int,
                    ),
                decreases j,
            {
                assert(sorted@.take(j as int).drop_last() =~= sorted@.take(j - 1));
                j -= 1;
            }
            proof {
                assert(visible.take(i + 1).drop_last() =~= visible.take(i as int));
                assert(visible.take(i + 1).last() == sprite);
                assert(insert_point(sorted@.take(j as int), sprite.pos_x as int) == j);
                sorted@.insert_ensures(j as int, sprite);
            }
            sorted.insert(j, sprite);
            i += 1;
        }
        assert(visible.take(i as int) =~= visible);
        let mut order: Vec<Sprite> = Vec::new();
        let mut k: usize = sorted.len();
        while k > 0
            invariant
                k <= sorted@.len(),
                order@.len() == sorted@.len() - k,
                forall|m: int|
                    0 <= m < order@.len() ==> #[trigger] order@[m] == sorted@[sorted@.len() - 1
                        - m],
            decreases k,
        {
            k -= 1;
            order.push(sorted[k]);
        }
        assert(order@ =~= sorted@.reverse());
        order
    }

    /// Paints the sprites of the current line over it.
    pub fn draw_sprites(&mut self)
        requires
            old(self).reg_ly < 144,
        ensures
            *final(self) == old(self).spec_draw_sprites(),
    {
        let size_y = self.reg_lcdc.sprite_height() as i32;
        let sprites = self.cache_sprites_on_line();
        let mut index: usize = 0;
        while index < sprites.len()
            invariant
                index <= sprites@.len(),
                self.reg_ly < 144,
                self.reg_ly == old(self).reg_ly,
                self.reg_lcdc == old(self).reg_lcdc,
                size_y == self.reg_lcdc.spec_sprite_height(),
                forall|i: int|
                    0 <= i < sprites@.len() ==> (#[trigger] sprites@[i]).covers_line(
                        self.reg_ly as int,
                        size_y as int,
                    ),
                *self == old(self).spec_paint_sprites(sprites@, index as nat),
            decreases sprites@.len() - index,
        {
            let ghost start = *self;
            let sprite = sprites[index];
            assert(sprite.covers_line(self.reg_ly as int, size_y as int));
            let line = self.reg_ly as i32 - sprite.pos_y as i32;
            let sprite_line: usize = (if sprite.y_flip {
                size_y - 1 - line
            } else {
                line
            }) as usize;
            let tile_mask: u8 = if self.reg_lcdc.obj_size {
                0xFE
            } else {
                0xFF
            };
            let tile_data_addr: usize = (sprite.tile_id & tile_mask) as usize * 16 + sprite_line
                * 2;
            let data_1 = self.vram[tile_data_addr];
            let data_2 = self.vram[tile_data_addr + 1];
            let mut x: u8 = 0;
            while x < 8
                invariant
                    x <= 8,
                    self.reg_ly == old(self).reg_ly,
                    self.reg_ly < 144,
                    self.reg_lcdc == old(self).reg_lcdc,
                    self.reg_ly == start.reg_ly,
                    self.reg_lcdc == start.reg_lcdc,
                    self.reg_obp0 == start.reg_obp0,
                    self.reg_obp1 == start.reg_obp1,
                    self.bg_line == start.bg_line,
                    self.vram == start.vram,
                    tile_data_addr == start.sprite_data_index(sprite),
                    tile_data_addr + 1 < 0x2000,
                    data_1 == start.vram[tile_data_addr as int],
                    data_2 == start.vram[tile_data_addr + 1],
                    *self == start.spec_paint_sprite(sprite, x as nat),
                decreases 8 - x,
            {
                let ghost before = *self;
                let x_offset = sprite.pos_x as i32 + x as i32;
                let pixel_index = if sprite.x_flip {
                    x
                } else {
                    7 - x
                };
                let pal_id = pixel_id(data_1, data_2, pixel_index);
                assert(pal_id == before.sprite_colour_id(sprite, x as int));
                if 0 <= x_offset && x_offset <= 159 && pal_id != 0 && !(sprite.priority
                    && self.bg_line[x_offset as usize] != 0) {
                    let colour = if sprite.palette {
                        self.reg_obp1.get_pal_value(pal_id)
                    } else {
                        self.reg_obp0.get_pal_value(pal_id)
                    };
                    let pixel_buf_index = x_offset as usize + 160 * self.reg_ly as usize;
                    self.draw_buf[pixel_buf_index] = colour;
                    proof {
                        assert(before.sprite_paints(sprite, x as int));
                        assert(self.draw_buf =~= before.spec_paint_pixel(
                            sprite,
                            x as int,
                        ).draw_buf);
                    }
                } else {
                    assert(!before.sprite_paints(sprite, x as int));
                }
                x += 1;
            }
            index += 1;
        }
    }

    /// Renders the current line into the frame that is being drawn.
    pub fn draw_scanline(&mut self)
        requires
            old(self).reg_ly < 144,
        ensures
            *final(self) == old(self).spec_draw_scanline(),
            final(self).reg_ly == old(self).reg_ly,
            final(self).rendering_mode == old(self).rendering_mode,
            final(self).line_dots == old(self).line_dots,
    {
        let window_drawn = self.reg_lcdc.bg_enable && self.reg_lcdc.window_enable && self.reg_ly
            >= self.reg_wy && self.reg_wx <= 166;
        self.cache_all_sprites();
        proof {
            old(self).lemma_cache_keeps(40);
        }
        if self.reg_lcdc.bg_enable {
            proof {
                self.lemma_draw_tiles_keeps(160);
            }
            self.draw_tiles();
        } else {
            proof {
                self.lemma_clear_line_keeps(160);
            }
            self.clear_line();
        }
        if self.reg_lcdc.obj_enable {
            proof {
                self.lemma_paint_sprites_keeps(
                    self.spec_sprites_on_line(),
                    self.spec_sprites_on_line().len(),
                );
            }
            self.draw_sprites();
        }
        if window_drawn {
            self.win_ly = self.win_ly.wrapping_add(1);
        }
    }

    /// Renders all 384 tiles of video memory through the background palette
    /// into `tile_data_buf`, one 8x8 picture per tile and row after row, for
    /// inspection. Within a row, pixel `col` shows bit `col` of the tile data.
    pub fn draw_tile_data(&mut self)
        ensures
            final(self).tile_data_buf@.len() == 384,
            forall|tile: int, p: int|
                0 <= tile < 384 && 0 <= p < 64 ==> #[trigger] final(self).tile_data_buf@[tile]@[p]
                    == old(self).tile_pixel(tile, p / 8, p % 8),
            *final(self) == (PPU { tile_data_buf: final(self).tile_data_buf, ..*old(self) }),
    {
        let mut tiles: Vec<[GBColour; 64]> = Vec::new();
        let mut tile: usize = 0;
        while tile < 384
            invariant
                tile <= 384,
                *self == *old(self),
                tiles@.len() == tile,
                forall|t: int, p: int|
                    0 <= t < tile && 0 <= p < 64 ==> #[trigger] tiles@[t]@[p] == self.tile_pixel(
                        t,
                        p / 8,
                        p % 8,
                    ),
            decreases 384 - tile,
        {
            let mut pixels: [GBColour; 64] = [GBColour::Black; 64];
            let mut tile_offset: usize = 0;
            while tile_offset < 8
                invariant
                    tile_offset <= 8,
                    tile < 384,
                    forall|p: int|
                        0 <= p < 8 * tile_offset ==> #[trigger] pixels@[p] == self.tile_pixel(
                            tile as int,
                            p / 8,
                            p % 8,
                        ),
                decreases 8 - tile_offset,
            {
                let data_1 = self.vram[tile * 16 + tile_offset * 2];
                let data_2 = self.vram[tile * 16 + tile_offset * 2 + 1];
                let mut pixel: u8 = 0;
                while pixel < 8
                    invariant
                        pixel <= 8,
                        tile < 384,
                        tile_offset < 8,
                        data_1 == self.vram[tile * 16 + tile_offset * 2],
                        data_2 == self.vram[tile * 16 + tile_offset * 2 + 1],
                        forall|p: int|
                            0 <= p < 8 * tile_offset + pixel ==> #[trigger] pixels@[p]
                                == self.tile_pixel(tile as int, p / 8, p % 8),
                    decreases 8 - pixel,
                {
                    let pal_id = pixel_id(data_1, data_2, pixel);
                    pixels[pixel as usize + 8 * tile_offset] = self.reg_bgp.get_pal_value(pal_id);
                    pixel += 1;
                }
                tile_offset += 1;
            }
            tiles.push(pixels);
            tile += 1;
        }
        self.tile_data_buf = tiles;
    }

    /// Decoding the attribute entries changes nothing but the cache.
    pub proof fn lemma_cache_keeps(self, n: nat)
        ensures
            self.spec_cache_sprites_to(n) == (PPU {
                sprite_cache: self.spec_cache_sprites_to(n).sprite_cache,
                ..self
            }),
        decreases n,
    {
        if n > 0 {
            self.lemma_cache_keeps((n - 1) as nat);
        }
    }

    /// Drawing the background changes nothing but the frame being drawn and
    /// the noted colour numbers.
    pub proof fn lemma_draw_tiles_keeps(self, n: nat)
        ensures
            self.spec_draw_tiles_to(n) == (PPU {
                draw_buf: self.spec_draw_tiles_to(n).draw_buf,
                bg_line: self.spec_draw_tiles_to(n).bg_line,
                ..self
            }),
        decreases n,
    {
        if n > 0 {
            self.lemma_draw_tiles_keeps((n - 1) as nat);
        }
    }

    /// Clearing the line changes nothing but the frame being drawn and the
    /// noted colour numbers.
    pub proof fn lemma_clear_line_keeps(self, n: nat)
        ensures
            self.spec_clear_line_to(n) == (PPU {
                draw_buf: self.spec_clear_line_to(n).draw_buf,
                bg_line: self.spec_clear_line_to(n).bg_line,
                ..self
            }),
        decreases n,
    {
        if n > 0 {
            self.lemma_clear_line_keeps((n - 1) as nat);
        }
    }

    /// Painting pixels of a sprite changes nothing but the frame being drawn.
    pub proof fn lemma_paint_sprite_keeps(self, s: Sprite, n: nat)
        ensures
            self.spec_paint_sprite(s, n) == (PPU {
                draw_buf: self.spec_paint_sprite(s, n).draw_buf,
                ..self
            }),
        decreases n,
    {
        if n > 0 {
            self.lemma_paint_sprite_keeps(s, (n - 1) as nat);
        }
    }

    /// Painting sprites changes nothing but the frame being drawn.
    pub proof fn lemma_paint_sprites_keeps(self, order: Seq<Sprite>, k: nat)
        ensures
            self.spec_paint_sprites(order, k) == (PPU {
                draw_buf: self.spec_paint_sprites(order, k).draw_buf,
                ..self
            }),
        decreases k,
    {
        if k > 0 {
            self.lemma_paint_sprites_keeps(order, (k - 1) as nat);
            self.spec_paint_sprites(order, (k - 1) as nat).lemma_paint_sprite_keeps(
                order[k - 1],
                8,
            );
        }
    }

    /// What drawing the background puts where: each of the first `n` pixels
    /// of the current line gets the shade that the background palette gives
    /// to its colour number, that number is noted, and every other pixel of
    /// the frame stays as it was.
    pub proof fn lemma_draw_tiles_pixels(self, n: nat)
        requires
            self.reg_ly < 144,
            n <= 160,
        ensures
            forall|x: int|
                0 <= x < n ==> #[trigger] self.spec_draw_tiles_to(n).draw_buf[self.reg_ly * 160 + x]
                    == self.reg_bgp.spec_get_pal_value(self.bg_colour_id(x)),
            forall|x: int|
                0 <= x < n ==> #[trigger] self.spec_draw_tiles_to(n).bg_line[x]
                    == self.bg_colour_id(x),
            forall|i: int|
                0 <= i < 23040 && !(self.reg_ly * 160 <= i < self.reg_ly * 160 + n)
                    ==> #[trigger] self.spec_draw_tiles_to(n).draw_buf[i] == self.draw_buf[i],
        decreases n,
    {
        if n > 0 {
            self.lemma_draw_tiles_pixels((n - 1) as nat);
            self.lemma_draw_tiles_keeps((n - 1) as nat);
            let before = self.spec_draw_tiles_to((n - 1) as nat);
            assert(before.bg_colour_id(n - 1) == self.bg_colour_id(n - 1));
        }
    }
}

} // verus!

use emu::interrupt::{Interrupt, InterruptFlag};
use emu::ppu::{pixel_id, GBColour, Palette, RenderingMode, Sprite, LCDC, PPU};

/// Runs a freshly made unit to the start of line 0 of its first frame.
fn unit_at_frame_start() -> (Box<PPU>, Interrupt) {
    let mut ppu = Box::new(PPU::new());
    let mut intf = Interrupt::default();
    ppu.tick(154 * 456, &mut intf);
    assert_eq!(ppu.rendering_mode, RenderingMode::OAMscan);
    assert_eq!(ppu.read(0xFF44), 0);
    assert_eq!(ppu.line_dots, 0);
    intf.write(0xFF0F, 0);
    (ppu, intf)
}

/// Writes an 8x8 tile whose pixels all have colour number `id`.
fn fill_tile(ppu: &mut PPU, tile: u16, id: u8) {
    for row in 0..8u16 {
        ppu.write(0x8000 + tile * 16 + row * 2, if id & 1 != 0 { 0xFF } else { 0x00 });
        ppu.write(0x8000 + tile * 16 + row * 2 + 1, if id & 2 != 0 { 0xFF } else { 0x00 });
    }
}

fn put_sprite(ppu: &mut PPU, index: u16, y: u8, x: u8, tile: u8, attributes: u8) {
    ppu.write(0xFE00 + index * 4, y);
    ppu.write(0xFE00 + index * 4 + 1, x);
    ppu.write(0xFE00 + index * 4 + 2, tile);
    ppu.write(0xFE00 + index * 4 + 3, attributes);
}

/// Draws line `ly` into the frame being drawn and returns its 160 pixels.
fn draw_line(ppu: &mut PPU, ly: u8) -> Vec<GBColour> {
    ppu.reg_ly = ly;
    ppu.draw_scanline();
    ppu.draw_buf[ly as usize * 160..ly as usize * 160 + 160].to_vec()
}

#[test]
fn power_up_registers() {
    let ppu = Box::new(PPU::new());
    assert_eq!(ppu.read(0xFF40), 0x91);
    assert_eq!(ppu.read(0xFF41), 0x85);
    assert_eq!(ppu.read(0xFF44), 0);
    assert_eq!(ppu.read(0xFF47), 0xFC);
    assert_eq!(ppu.read(0xFF48), 0x00);
    assert_eq!(ppu.rendering_mode, RenderingMode::VBlank);
    assert!(ppu.get_frame().iter().all(|pixel| *pixel == GBColour::LightGrey));
}

#[test]
fn a_line_has_456_dots_in_three_modes() {
    let (mut ppu, mut intf) = unit_at_frame_start();
    ppu.tick(79, &mut intf);
    assert_eq!(ppu.rendering_mode, RenderingMode::OAMscan);
    assert_eq!(ppu.read(0xFF41) & 0x03, 2);
    ppu.tick(1, &mut intf);
    assert_eq!(ppu.rendering_mode, RenderingMode::Draw);
    assert_eq!(ppu.read(0xFF41) & 0x03, 3);
    ppu.tick(171, &mut intf);
    assert_eq!(ppu.rendering_mode, RenderingMode::Draw);
    ppu.tick(1, &mut intf);
    assert_eq!(ppu.rendering_mode, RenderingMode::HBlank);
    assert_eq!(ppu.read(0xFF41) & 0x03, 0);
    ppu.tick(203, &mut intf);
    assert_eq!(ppu.rendering_mode, RenderingMode::HBlank);
    assert_eq!(ppu.read(0xFF44), 0);
    ppu.tick(1, &mut intf);
    assert_eq!(ppu.rendering_mode, RenderingMode::OAMscan);
    assert_eq!(ppu.read(0xFF44), 1);
    assert_eq!(ppu.line_dots, 0);
}

#[test]
fn a_frame_has_154_lines() {
    let (mut ppu, mut intf) = unit_at_frame_start();
    for line in 0..154u32 {
        assert_eq!(ppu.read(0xFF44) as u32, line);
        assert_eq!(ppu.line_dots, 0);
        if line >= 144 {
            assert_eq!(ppu.rendering_mode, RenderingMode::VBlank);
        } else {
            assert_eq!(ppu.rendering_mode, RenderingMode::OAMscan);
        }
        ppu.tick(456, &mut intf);
    }
    assert_eq!(ppu.read(0xFF44), 0);
    assert_eq!(ppu.rendering_mode, RenderingMode::OAMscan);
    // one tick of a whole frame ends where it began
    ppu.tick(100, &mut intf);
    ppu.tick(70224, &mut intf);
    assert_eq!(ppu.read(0xFF44), 0);
    assert_eq!(ppu.rendering_mode, RenderingMode::Draw);
    assert_eq!(ppu.line_dots, 20);
}

#[test]
fn vblank_interrupt_fires_once_per_frame_at_line_144() {
    let (mut ppu, mut intf) = unit_at_frame_start();
    let mut fired = 0;
    for dot in 1..=(2 * 70224u32) {
        ppu.tick(1, &mut intf);
        if intf.is_raised(InterruptFlag::VBlank) {
            fired += 1;
            assert_eq!(dot % 70224, 144 * 456);
            assert_eq!(ppu.read(0xFF44), 144);
            assert_eq!(ppu.line_dots, 0);
            intf.clear(InterruptFlag::VBlank);
        }
    }
    assert_eq!(fired, 2);
}

#[test]
fn stat_interrupts_fire_on_mode_entry_only() {
    let (mut ppu, mut intf) = unit_at_frame_start();
    // enable the interrupt for the horizontal blank
    ppu.write(0xFF41, 0x08);
    ppu.tick(251, &mut intf);
    assert!(!intf.is_raised(InterruptFlag::LCDC));
    ppu.tick(1, &mut intf);
    assert!(intf.is_raised(InterruptFlag::LCDC));
    intf.clear(InterruptFlag::LCDC);
    ppu.tick(100, &mut intf);
    assert!(!intf.is_raised(InterruptFlag::LCDC));
    // and for the OAM scan
    ppu.write(0xFF41, 0x20);
    ppu.tick(103, &mut intf);
    assert!(!intf.is_raised(InterruptFlag::LCDC));
    ppu.tick(1, &mut intf);
    assert!(intf.is_raised(InterruptFlag::LCDC));
    intf.clear(InterruptFlag::LCDC);
    ppu.tick(455, &mut intf);
    assert!(!intf.is_raised(InterruptFlag::LCDC));
    // and for the vertical blank
    ppu.write(0xFF41, 0x10);
    ppu.tick(142 * 456, &mut intf);
    assert!(!intf.is_raised(InterruptFlag::LCDC));
    ppu.tick(1, &mut intf);
    assert!(intf.is_raised(InterruptFlag::LCDC));
    assert!(intf.is_raised(InterruptFlag::VBlank));
}

#[test]
fn status_register_keeps_its_read_only_bits() {
    let (mut ppu, _intf) = unit_at_frame_start();
    let before = ppu.read(0xFF41);
    ppu.write(0xFF41, 0xFF);
    assert_eq!(ppu.read(0xFF41), (before & 0x87) | 0x78);
    ppu.write(0xFF41, 0x00);
    assert_eq!(ppu.read(0xFF41), before & 0x87);
    ppu.write(0xFF44, 0x55);
    assert_eq!(ppu.read(0xFF44), 0);
}

#[test]
fn line_compare() {
    let (mut ppu, mut intf) = unit_at_frame_start();
    ppu.write(0xFF45, 3);
    ppu.write(0xFF41, 0x40);
    // the compare happens on entry to the horizontal blank and looks at
    // the line that comes next
    ppu.tick(2 * 456 + 251, &mut intf);
    assert_eq!(ppu.read(0xFF41) & 0x04, 0);
    assert!(!intf.is_raised(InterruptFlag::LCDC));
    ppu.tick(1, &mut intf);
    assert_eq!(ppu.read(0xFF44), 2);
    assert_eq!(ppu.read(0xFF41) & 0x04, 0x04);
    assert!(intf.is_raised(InterruptFlag::LCDC));
    intf.clear(InterruptFlag::LCDC);
    ppu.tick(456, &mut intf);
    assert_eq!(ppu.read(0xFF41) & 0x04, 0);
    assert!(!intf.is_raised(InterruptFlag::LCDC));
    // without the enable bit the flag is set and nothing is requested
    ppu.write(0xFF41, 0x00);
    ppu.write(0xFF45, 6);
    ppu.tick(2 * 456, &mut intf);
    assert_eq!(ppu.read(0xFF44), 5);
    assert_eq!(ppu.read(0xFF41) & 0x04, 0x04);
    assert!(!intf.is_raised(InterruptFlag::LCDC));
}

#[test]
fn display_off_rests_at_line_zero() {
    let (mut ppu, mut intf) = unit_at_frame_start();
    ppu.tick(5 * 456 + 100, &mut intf);
    ppu.write(0xFF40, 0x11);
    ppu.tick(1000, &mut intf);
    assert_eq!(ppu.read(0xFF44), 0);
    assert_eq!(ppu.rendering_mode, RenderingMode::HBlank);
    assert_eq!(ppu.read(0xFF41) & 0x03, 0);
    assert_eq!(ppu.line_dots, 0);
    ppu.write(0xFF40, 0x91);
    ppu.tick(203, &mut intf);
    assert_eq!(ppu.read(0xFF44), 0);
    ppu.tick(1, &mut intf);
    assert_eq!(ppu.read(0xFF44), 1);
    assert_eq!(ppu.rendering_mode, RenderingMode::OAMscan);
}

#[test]
fn frames_are_swapped_at_the_end_of_the_vertical_blank() {
    let (mut ppu, mut intf) = unit_at_frame_start();
    // the power-up palette makes colour number 0 white
    ppu.tick(153 * 456 + 455, &mut intf);
    assert!(ppu.get_frame().iter().all(|pixel| *pixel == GBColour::LightGrey));
    ppu.tick(1, &mut intf);
    assert!(ppu.get_frame().iter().all(|pixel| *pixel == GBColour::White));
}

#[test]
fn palette_and_control_registers_read_back() {
    for byte in [0x00u8, 0x1B, 0xE4, 0xFC, 0xFF, 0x5A] {
        let palette = Palette::new(byte);
        assert_eq!(palette.read(), byte);
        assert_eq!(palette.get_pal_value(0).bits(), byte & 3);
        assert_eq!(palette.get_pal_value(1).bits(), (byte >> 2) & 3);
        assert_eq!(palette.get_pal_value(2).bits(), (byte >> 4) & 3);
        assert_eq!(palette.get_pal_value(3).bits(), byte >> 6);
        assert_eq!(LCDC::new(byte).read(), byte);
    }
    let palette = Palette::new(0xE4);
    assert_eq!(palette.get_pal_value(0), GBColour::White);
    assert_eq!(palette.get_pal_value(1), GBColour::LightGrey);
    assert_eq!(palette.get_pal_value(2), GBColour::DarkGrey);
    assert_eq!(palette.get_pal_value(3), GBColour::Black);
    assert_eq!(GBColour::from(2u8), GBColour::DarkGrey);
    let lcdc = LCDC::new(0x91);
    assert!(lcdc.lcd_enable && lcdc.tile_data_area && lcdc.bg_enable);
    assert!(!lcdc.obj_enable && !lcdc.obj_size && !lcdc.window_enable);
    assert_eq!(LCDC::new(0x04).sprite_height(), 16);
    assert_eq!(LCDC::new(0x00).sprite_height(), 8);
}

#[test]
fn pixel_numbers_come_from_two_bit_planes() {
    assert_eq!(pixel_id(0b1000_0000, 0b0000_0000, 7), 1);
    assert_eq!(pixel_id(0b0000_0000, 0b1000_0000, 7), 2);
    assert_eq!(pixel_id(0b1000_0001, 0b1000_0000, 7), 3);
    assert_eq!(pixel_id(0b1000_0001, 0b1000_0000, 0), 1);
    assert_eq!(pixel_id(0xFF, 0xFF, 3), 3);
    assert_eq!(pixel_id(0x00, 0x00, 3), 0);
}

#[test]
fn sprites_are_decoded_from_oam() {
    let mut oam = [0u8; 160];
    oam[8..12].copy_from_slice(&[0x20, 0x18, 0x42, 0xB0]);
    let sprite = Sprite::from_oam(8, &oam);
    assert_eq!(sprite.pos_y, 16);
    assert_eq!(sprite.pos_x, 16);
    assert_eq!(sprite.tile_id, 0x42);
    assert!(sprite.priority && !sprite.y_flip && sprite.x_flip && sprite.palette);
    let hidden = Sprite::from_oam(0, &oam);
    assert_eq!((hidden.pos_y, hidden.pos_x), (-16, -8));
}

#[test]
fn background_tiles_and_scrolling() {
    let (mut ppu, _intf) = unit_at_frame_start();
    ppu.write(0xFF47, 0xE4);
    fill_tile(&mut ppu, 1, 3);
    // a tile with a single dark pixel in its top left corner
    ppu.write(0x8020, 0x00);
    ppu.write(0x8021, 0x80);
    ppu.write(0x9800, 1);
    ppu.write(0x9801, 2);
    let line = draw_line(&mut ppu, 0);
    assert!(line[0..8].iter().all(|pixel| *pixel == GBColour::Black));
    assert_eq!(line[8], GBColour::DarkGrey);
    assert!(line[9..160].iter().all(|pixel| *pixel == GBColour::White));
    let line = draw_line(&mut ppu, 1);
    assert!(line[0..8].iter().all(|pixel| *pixel == GBColour::Black));
    assert_eq!(line[8], GBColour::White);
    // scrolled three pixels to the left and one line up
    ppu.write(0xFF43, 3);
    ppu.write(0xFF42, 255);
    let line = draw_line(&mut ppu, 1);
    assert!(line[0..5].iter().all(|pixel| *pixel == GBColour::Black));
    assert_eq!(line[5], GBColour::DarkGrey);
    assert_eq!(line[6], GBColour::White);
    // the map wraps around
    ppu.write(0xFF43, 250);
    ppu.write(0xFF42, 0);
    let line = draw_line(&mut ppu, 0);
    assert!(line[0..6].iter().all(|pixel| *pixel == GBColour::White));
    assert!(line[6..14].iter().all(|pixel| *pixel == GBColour::Black));
    assert_eq!(line[14], GBColour::DarkGrey);
}

#[test]
fn signed_tile_addressing() {
    let (mut ppu, _intf) = unit_at_frame_start();
    ppu.write(0xFF47, 0xE4);
    ppu.write(0xFF40, 0x81);
    // tile 0 is at 0x9000 and tile 0x80 at 0x8800
    for row in 0..8u16 {
        ppu.write(0x9000 + row * 2, 0xFF);
        ppu.write(0x8800 + row * 2 + 1, 0xFF);
    }
    ppu.write(0x9800, 0x00);
    ppu.write(0x9801, 0x80);
    ppu.write(0x9802, 0x7F);
    let line = draw_line(&mut ppu, 0);
    assert!(line[0..8].iter().all(|pixel| *pixel == GBColour::LightGrey));
    assert!(line[8..16].iter().all(|pixel| *pixel == GBColour::DarkGrey));
    assert!(line[16..24].iter().all(|pixel| *pixel == GBColour::White));
}

#[test]
fn second_tile_map_and_disabled_background() {
    let (mut ppu, _intf) = unit_at_frame_start();
    ppu.write(0xFF47, 0xE4);
    fill_tile(&mut ppu, 1, 2);
    ppu.write(0x9C00, 1);
    ppu.write(0xFF40, 0x99);
    let line = draw_line(&mut ppu, 0);
    assert!(line[0..8].iter().all(|pixel| *pixel == GBColour::DarkGrey));
    ppu.write(0xFF40, 0x98);
    let line = draw_line(&mut ppu, 0);
    assert!(line.iter().all(|pixel| *pixel == GBColour::White));
}

#[test]
fn window_has_its_own_line_counter() {
    let (mut ppu, _intf) = unit_at_frame_start();
    ppu.write(0xFF47, 0xE4);
    // tile 1: only its first row is black; the window map shows it
    ppu.write(0x8010, 0xFF);
    ppu.write(0x8011, 0xFF);
    for i in 0..32u16 {
        ppu.write(0x9C00 + i, 1);
    }
    ppu.write(0xFF40, 0xF1);
    ppu.write(0xFF4A, 10);
    ppu.write(0xFF4B, 7 + 80);
    let line = draw_line(&mut ppu, 9);
    assert!(line.iter().all(|pixel| *pixel == GBColour::White));
    assert_eq!(ppu.win_ly, 0);
    let line = draw_line(&mut ppu, 10);
    assert!(line[0..80].iter().all(|pixel| *pixel == GBColour::White));
    assert!(line[80..160].iter().all(|pixel| *pixel == GBColour::Black));
    assert_eq!(ppu.win_ly, 1);
    // the window is hidden for a line: its counter waits
    ppu.write(0xFF40, 0xD1);
    draw_line(&mut ppu, 11);
    assert_eq!(ppu.win_ly, 1);
    ppu.write(0xFF40, 0xF1);
    let line = draw_line(&mut ppu, 12);
    assert!(line[80..160].iter().all(|pixel| *pixel == GBColour::White));
    assert_eq!(ppu.win_ly, 2);
    // a window that starts right of the screen is not drawn
    ppu.write(0xFF4B, 167);
    draw_line(&mut ppu, 13);
    assert_eq!(ppu.win_ly, 2);
    ppu.write(0xFF4B, 166);
    let line = draw_line(&mut ppu, 14);
    assert_eq!(ppu.win_ly, 3);
    assert!(line[0..159].iter().all(|pixel| *pixel == GBColour::White));
}

#[test]
fn the_leftmost_of_two_overlapping_sprites_wins() {
    let (mut ppu, _intf) = unit_at_frame_start();
    ppu.write(0xFF40, 0x93);
    ppu.write(0xFF47, 0xE4);
    ppu.write(0xFF48, 0xE4);
    ppu.write(0xFF49, 0x1B);
    fill_tile(&mut ppu, 1, 1);
    fill_tile(&mut ppu, 2, 2);
    // the sprite further to the right comes first in OAM
    put_sprite(&mut ppu, 0, 16, 8 + 24, 1, 0x00);
    put_sprite(&mut ppu, 1, 16, 8 + 20, 2, 0x00);
    let line = draw_line(&mut ppu, 0);
    assert!(line[0..20].iter().all(|pixel| *pixel == GBColour::White));
    assert!(line[20..28].iter().all(|pixel| *pixel == GBColour::DarkGrey));
    assert!(line[28..32].iter().all(|pixel| *pixel == GBColour::LightGrey));
    assert_eq!(line[32], GBColour::White);
    // and the other way round in OAM the same sprite wins
    put_sprite(&mut ppu, 0, 16, 8 + 20, 2, 0x00);
    put_sprite(&mut ppu, 1, 16, 8 + 24, 1, 0x00);
    let line = draw_line(&mut ppu, 0);
    assert!(line[20..28].iter().all(|pixel| *pixel == GBColour::DarkGrey));
    assert!(line[28..32].iter().all(|pixel| *pixel == GBColour::LightGrey));
    // in the same column the earlier entry wins
    put_sprite(&mut ppu, 0, 16, 8 + 20, 1, 0x00);
    put_sprite(&mut ppu, 1, 16, 8 + 20, 2, 0x00);
    let line = draw_line(&mut ppu, 0);
    assert!(line[20..28].iter().all(|pixel| *pixel == GBColour::LightGrey));
}

#[test]
fn sprite_palettes_flips_and_transparency() {
    let (mut ppu, _intf) = unit_at_frame_start();
    ppu.write(0xFF40, 0x93);
    ppu.write(0xFF47, 0xE4);
    ppu.write(0xFF48, 0xE4);
    ppu.write(0xFF49, 0x1B);
    // tile 3: row 0 has colour 3 in its leftmost pixel only,
    // row 7 has colour 1 in its rightmost pixel only
    ppu.write(0x8030, 0x80);
    ppu.write(0x8031, 0x80);
    ppu.write(0x803E, 0x01);
    ppu.write(0x803F, 0x00);
    put_sprite(&mut ppu, 0, 16, 8, 3, 0x00);
    let line = draw_line(&mut ppu, 0);
    assert_eq!(line[0], GBColour::Black);
    assert!(line[1..8].iter().all(|pixel| *pixel == GBColour::White));
    // the second palette turns colour 3 white
    put_sprite(&mut ppu, 0, 16, 8, 3, 0x10);
    let line = draw_line(&mut ppu, 0);
    assert_eq!(line[0], GBColour::White);
    // flipped horizontally
    put_sprite(&mut ppu, 0, 16, 8, 3, 0x20);
    let line = draw_line(&mut ppu, 0);
    assert_eq!(line[0], GBColour::White);
    assert_eq!(line[7], GBColour::Black);
    // flipped vertically line 0 shows row 7
    put_sprite(&mut ppu, 0, 16, 8, 3, 0x40);
    let line = draw_line(&mut ppu, 0);
    assert_eq!(line[7], GBColour::LightGrey);
    assert_eq!(line[0], GBColour::White);
    // partly off the left edge
    put_sprite(&mut ppu, 0, 16, 1, 3, 0x20);
    let line = draw_line(&mut ppu, 0);
    assert_eq!(line[0], GBColour::Black);
    // with objects disabled nothing is painted
    ppu.write(0xFF40, 0x91);
    let line = draw_line(&mut ppu, 0);
    assert!(line.iter().all(|pixel| *pixel == GBColour::White));
}

#[test]
fn sprites_behind_the_background() {
    let (mut ppu, _intf) = unit_at_frame_start();
    ppu.write(0xFF40, 0x93);
    ppu.write(0xFF47, 0xE4);
    ppu.write(0xFF48, 0xE4);
    fill_tile(&mut ppu, 1, 3);
    // background: colour 1 in columns 0 to 3 of the first tile, 0 elsewhere
    for row in 0..8u16 {
        ppu.write(0x8020 + row * 2, 0xF0);
    }
    ppu.write(0x9800, 2);
    put_sprite(&mut ppu, 0, 16, 8, 1, 0x80);
    let line = draw_line(&mut ppu, 0);
    assert!(line[0..4].iter().all(|pixel| *pixel == GBColour::LightGrey));
    assert!(line[4..8].iter().all(|pixel| *pixel == GBColour::Black));
    // a sprite in front covers the one behind, also where that one is hidden
    put_sprite(&mut ppu, 1, 16, 8 + 2, 1, 0x00);
    ppu.write(0xFF49, 0xE4);
    let line = draw_line(&mut ppu, 0);
    assert!(line[0..2].iter().all(|pixel| *pixel == GBColour::LightGrey));
    assert!(line[2..10].iter().all(|pixel| *pixel == GBColour::Black));
}

#[test]
fn tall_sprites_and_the_limit_of_ten() {
    let (mut ppu, _intf) = unit_at_frame_start();
    ppu.write(0xFF40, 0x97);
    ppu.write(0xFF47, 0xE4);
    ppu.write(0xFF48, 0xE4);
    fill_tile(&mut ppu, 4, 1);
    fill_tile(&mut ppu, 5, 2);
    // tile number 5 is read as 4 for the upper half
    put_sprite(&mut ppu, 0, 16, 8, 5, 0x00);
    let line = draw_line(&mut ppu, 0);
    assert_eq!(line[0], GBColour::LightGrey);
    let line = draw_line(&mut ppu, 8);
    assert_eq!(line[0], GBColour::DarkGrey);
    let line = draw_line(&mut ppu, 16);
    assert_eq!(line[0], GBColour::White);
    // twelve sprites on one line: the first ten in OAM are shown
    ppu.write(0xFF40, 0x93);
    for index in 0..12u16 {
        put_sprite(&mut ppu, index, 16 + 40, 8 + 10 * index as u8, 4, 0x00);
    }
    ppu.reg_ly = 40;
    ppu.cache_all_sprites();
    let shown = ppu.cache_sprites_on_line();
    assert_eq!(shown.len(), 10);
    assert_eq!(shown[0].pos_x, 90);
    assert_eq!(shown[9].pos_x, 0);
    let line = draw_line(&mut ppu, 40);
    assert_eq!(line[90], GBColour::LightGrey);
    assert_eq!(line[100], GBColour::White);
    assert_eq!(line[110], GBColour::White);
}

#[test]
fn tile_viewer() {
    let (mut ppu, _intf) = unit_at_frame_start();
    ppu.write(0xFF47, 0xE4);
    ppu.write(0x8010, 0x01);
    ppu.write(0x8013, 0x80);
    ppu.draw_tile_data();
    assert_eq!(ppu.tile_data_buf.len(), 384);
    assert_eq!(ppu.tile_data_buf[1][0], GBColour::LightGrey);
    assert_eq!(ppu.tile_data_buf[1][1], GBColour::White);
    assert_eq!(ppu.tile_data_buf[1][8 + 7], GBColour::DarkGrey);
    assert!(ppu.tile_data_buf[0].iter().all(|pixel| *pixel == GBColour::White));
}

#[test]
fn memory_and_open_bus() {
    let (mut ppu, _intf) = unit_at_frame_start();
    ppu.write(0x8000, 0x12);
    ppu.write(0x9FFF, 0x34);
    ppu.write(0xFE00, 0x56);
    ppu.write(0xFE9F, 0x78);
    assert_eq!(ppu.read(0x8000), 0x12);
    assert_eq!(ppu.read(0x9FFF), 0x34);
    assert_eq!(ppu.read(0xFE00), 0x56);
    assert_eq!(ppu.read(0xFE9F), 0x78);
    assert_eq!(ppu.read(0xFEA0), 0xFF);
    assert_eq!(ppu.read(0xFF46), 0xFF);
    assert_eq!(ppu.read(0xFF4C), 0xFF);
    ppu.write(0xFF42, 1);
    ppu.write(0xFF43, 2);
    ppu.write(0xFF45, 3);
    ppu.write(0xFF4A, 4);
    ppu.write(0xFF4B, 5);
    assert_eq!(
        [ppu.read(0xFF42), ppu.read(0xFF43), ppu.read(0xFF45), ppu.read(0xFF4A), ppu.read(0xFF4B)],
        [1, 2, 3, 4, 5]
    );
}

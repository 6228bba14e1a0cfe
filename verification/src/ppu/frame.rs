//! The shape of a frame: 154 lines of 456 dots, and one vertical-blank
//! interrupt in each.

use vstd::prelude::*;
use crate::bits::lemma_set_bit;
use crate::interrupt::{Interrupt, InterruptFlag};
use crate::ppu::{RenderingMode, PPU};

verus! {

/// How many of the dots `pos + 1` up to `pos + cycles`, counted on from the
/// start of some frame, are the first dot of line 144 of a frame.
pub open spec fn vblank_starts(pos: int, cycles: nat) -> int {
    (pos + cycles + (70224 - 65664)) / 70224 - (pos + (70224 - 65664)) / 70224
}

/// No line 144 starts within a stretch of dots that stays before or behind
/// the first dot of line 144.
proof fn lemma_starts_within(pos: int, cycles: nat)
    requires
        0 <= pos,
        pos + cycles < 65664 || (65664 <= pos && pos + cycles < 70224),
    ensures
        vblank_starts(pos, cycles) == 0,
        (pos + cycles) % 70224 == pos + cycles,
{
}

/// Counting the starts of line 144 over a stretch of dots can be done in two
/// parts, where the first part ends at or before the end of the frame and
/// does not pass the first dot of line 144 other than by ending with it.
proof fn lemma_starts_split(pos: int, room: nat, rest: nat)
    requires
        0 <= pos,
        room >= 1,
        pos + room <= 65664 || (65664 <= pos && pos + room <= 70224),
    ensures
        vblank_starts(pos, room + rest) == (if pos + room == 65664 {
            1int
        } else {
            0int
        }) + vblank_starts((pos + room) % 70224, rest),
        ((pos + room) % 70224 + rest) % 70224 == (pos + room + rest) % 70224,
{
    let end = pos + room;
    if end == 70224 {
        assert(end % 70224 == 0);
        assert((pos + (70224 - 65664)) / 70224 == 1);
        assert((0int + (70224 - 65664)) / 70224 == 0);
        assert(pos + (room + rest) + (70224 - 65664) == (0 + rest + (70224 - 65664)) + 70224);
        assert((0 + rest) % 70224 == (end + rest) % 70224);
    } else {
        assert(end % 70224 == end);
        if end == 65664 {
            assert((pos + (70224 - 65664)) / 70224 == 0);
            assert((end + (70224 - 65664)) / 70224 == 1);
        } else if end < 65664 {
            assert((pos + (70224 - 65664)) / 70224 == 0);
            assert((end + (70224 - 65664)) / 70224 == 0);
        } else {
            assert((pos + (70224 - 65664)) / 70224 == 1);
            assert((end + (70224 - 65664)) / 70224 == 1);
        }
    }
}

impl PPU {
    /// How many dots of the frame lie before the current one.
    pub open spec fn frame_position(&self) -> int {
        self.reg_ly * 456 + self.rendering_mode.spec_offset() + self.line_dots
    }

    /// The display is on and the unit is where a running frame can be: in
    /// the vertical blank exactly on lines 144 to 153.
    pub open spec fn in_frame(&self) -> bool {
        &&& self.wf()
        &&& self.reg_lcdc.lcd_enable
        &&& self.rendering_mode == RenderingMode::VBlank ==> self.reg_ly >= 144
    }

    /// How often the vertical blank is entered during `cycles` dots with the
    /// display on.
    pub open spec fn spec_vblank_entries(self, intf: Interrupt, cycles: nat) -> nat
        decreases cycles,
    {
        if cycles < self.spec_room() {
            0
        } else {
            let (next, noted) = PPU { line_dots: 0, ..self }.spec_next_mode(intf);
            let entered: nat = if self.rendering_mode != RenderingMode::VBlank
                && next.rendering_mode == RenderingMode::VBlank {
                1
            } else {
                0
            };
            entered + next.spec_vblank_entries(noted, (cycles - self.spec_room()) as nat)
        }
    }

    /// A unit in a running frame is where its position says: the line is the
    /// position over 456, and the rest selects the mode, 80 dots of OAM scan,
    /// 172 of drawing and 204 of horizontal blank on the lines before 144.
    pub proof fn lemma_position_decodes(self)
        requires
            self.in_frame(),
        ensures
            0 <= self.frame_position() < 70224,
            self.reg_ly == self.frame_position() / 456,
            self.reg_ly >= 144 ==> self.rendering_mode == RenderingMode::VBlank && self.line_dots
                == self.frame_position() % 456,
            self.reg_ly < 144 && self.frame_position() % 456 < 80 ==> self.rendering_mode
                == RenderingMode::OAMscan && self.line_dots == self.frame_position() % 456,
            self.reg_ly < 144 && 80 <= self.frame_position() % 456 < 252 ==> self.rendering_mode
                == RenderingMode::Draw && self.line_dots == self.frame_position() % 456 - 80,
            self.reg_ly < 144 && 252 <= self.frame_position() % 456 ==> self.rendering_mode
                == RenderingMode::HBlank && self.line_dots == self.frame_position() % 456 - 252,
    {
    }

    /// The line compare leaves the state machine's own registers and the
    /// VBlank request alone.
    proof fn lemma_compare_lyc_shape(self, intf: Interrupt)
        ensures
            ({
                let (next, noted) = self.spec_compare_lyc(intf);
                &&& next.rendering_mode == self.rendering_mode
                &&& next.reg_ly == self.reg_ly
                &&& next.line_dots == self.line_dots
                &&& next.reg_lcdc == self.reg_lcdc
                &&& noted.spec_is_raised(InterruptFlag::VBlank) <==> intf.spec_is_raised(
                    InterruptFlag::VBlank,
                )
            }),
    {
        lemma_set_bit(intf.flags, InterruptFlag::LCDC.mask(), InterruptFlag::VBlank.mask());
    }

    /// Entering a mode changes the mode and nothing else of the state
    /// machine's own registers, and requests the VBlank interrupt exactly
    /// when the mode is the vertical blank.
    proof fn lemma_change_mode_shape(self, intf: Interrupt, mode: RenderingMode)
        ensures
            ({
                let (next, noted) = self.spec_change_mode(intf, mode);
                &&& next.rendering_mode == mode
                &&& next.reg_ly == self.reg_ly
                &&& next.line_dots == self.line_dots
                &&& next.reg_lcdc == self.reg_lcdc
                &&& noted.spec_is_raised(InterruptFlag::VBlank) <==> (intf.spec_is_raised(
                    InterruptFlag::VBlank,
                ) || mode == RenderingMode::VBlank)
            }),
    {
        let vblank = InterruptFlag::VBlank;
        let lcdc = InterruptFlag::LCDC;
        let entered = self.spec_with_mode(mode);
        match mode {
            RenderingMode::HBlank => {
                entered.lemma_draw_scanline_keeps();
                let drawn = entered.spec_draw_scanline();
                drawn.lemma_compare_lyc_shape(intf);
                let (compared, noted) = drawn.spec_compare_lyc(intf);
                lemma_set_bit(noted.flags, lcdc.mask(), vblank.mask());
            },
            RenderingMode::VBlank => {
                lemma_set_bit(intf.flags, vblank.mask(), vblank.mask());
                lemma_set_bit(intf.spec_raise(vblank).flags, lcdc.mask(), vblank.mask());
            },
            RenderingMode::OAMscan => {
                lemma_set_bit(intf.flags, lcdc.mask(), vblank.mask());
            },
            RenderingMode::Draw => {},
        }
    }

    /// What the end of a mode does to the state machine's own registers.
    proof fn lemma_next_mode_shape(self, intf: Interrupt)
        requires
            self.reg_ly < 154,
            self.rendering_mode != RenderingMode::VBlank ==> self.reg_ly < 144,
        ensures
            ({
                let (next, noted) = self.spec_next_mode(intf);
                let line_ends = self.rendering_mode == RenderingMode::HBlank
                    || self.rendering_mode == RenderingMode::VBlank;
                &&& next.line_dots == self.line_dots
                &&& next.reg_lcdc == self.reg_lcdc
                &&& next.reg_ly == (if !line_ends {
                    self.reg_ly as int
                } else if self.reg_ly == 153 {
                    0
                } else {
                    self.reg_ly + 1
                })
                &&& next.rendering_mode == (match self.rendering_mode {
                    RenderingMode::OAMscan => RenderingMode::Draw,
                    RenderingMode::Draw => RenderingMode::HBlank,
                    RenderingMode::HBlank => if self.reg_ly == 143 {
                        RenderingMode::VBlank
                    } else {
                        RenderingMode::OAMscan
                    },
                    RenderingMode::VBlank => if self.reg_ly == 153 {
                        RenderingMode::OAMscan
                    } else {
                        RenderingMode::VBlank
                    },
                })
                &&& noted.spec_is_raised(InterruptFlag::VBlank) <==> (intf.spec_is_raised(
                    InterruptFlag::VBlank,
                ) || (self.rendering_mode == RenderingMode::HBlank && self.reg_ly == 143))
            }),
    {
        reveal(PPU::spec_next_mode);
        match self.rendering_mode {
            RenderingMode::OAMscan => {
                self.lemma_change_mode_shape(intf, RenderingMode::Draw);
            },
            RenderingMode::Draw => {
                self.lemma_change_mode_shape(intf, RenderingMode::HBlank);
            },
            RenderingMode::HBlank => {
                let next = PPU { reg_ly: (self.reg_ly + 1) as u8, ..self };
                if next.reg_ly == 144 {
                    next.lemma_change_mode_shape(intf, RenderingMode::VBlank);
                } else {
                    next.lemma_change_mode_shape(intf, RenderingMode::OAMscan);
                }
            },
            RenderingMode::VBlank => {
                if self.reg_ly + 1 == 154 {
                    let swapped = PPU {
                        reg_ly: 0,
                        win_ly: 0,
                        draw_buf: self.display_buf,
                        display_buf: self.draw_buf,
                        ..self
                    };
                    swapped.lemma_change_mode_shape(intf, RenderingMode::OAMscan);
                    let (entered, noted) = swapped.spec_change_mode(intf, RenderingMode::OAMscan);
                    entered.lemma_compare_lyc_shape(noted);
                } else {
                    PPU { reg_ly: (self.reg_ly + 1) as u8, ..self }.lemma_compare_lyc_shape(intf);
                }
            },
        }
    }

    /// The inductive core of the frame laws.
    proof fn lemma_run_timing(self, intf: Interrupt, cycles: nat)
        requires
            self.in_frame(),
        ensures
            ({
                let (after, noted) = self.spec_run(intf, cycles);
                &&& after.in_frame()
                &&& after.frame_position() == (self.frame_position() + cycles) % 70224
                &&& self.spec_vblank_entries(intf, cycles) == vblank_starts(
                    self.frame_position(),
                    cycles,
                )
                &&& noted.spec_is_raised(InterruptFlag::VBlank) <==> (intf.spec_is_raised(
                    InterruptFlag::VBlank,
                ) || self.spec_vblank_entries(intf, cycles) > 0)
            }),
        decreases cycles,
    {
        let room = self.spec_room();
        let pos = self.frame_position();
        if cycles >= room {
            let ended = PPU { line_dots: 0, ..self };
            let (next, noted) = ended.spec_next_mode(intf);
            ended.lemma_next_mode_shape(intf);
            let rest = (cycles - room) as nat;
            assert(next.in_frame());
            next.lemma_run_timing(noted, rest);
            assert(next.frame_position() == (pos + room) % 70224);
            lemma_starts_split(pos, room, rest);
        } else {
            lemma_starts_within(pos, cycles);
        }
    }

    /// Every frame has 154 lines of 456 dots: while the display stays on, a
    /// unit in a running frame stays in one, and `cycles` dots move its
    /// position within the frame's 70224 dots on by `cycles`, wrapping around
    /// at the end.
    pub proof fn lemma_frame_is_154_lines_of_456_dots(self, intf: Interrupt, cycles: nat)
        requires
            self.in_frame(),
        ensures
            self.spec_tick(intf, cycles).0.in_frame(),
            self.spec_tick(intf, cycles).0.frame_position() == (self.frame_position() + cycles)
                % 70224,
    {
        self.lemma_run_timing(intf, cycles);
    }

    /// The vertical blank is entered on the first dot of line 144 and nowhere
    /// else, and each entry requests the VBlank interrupt: in a running frame
    /// the number of entries during `cycles` dots is the number of times the
    /// position passes to dot 0 of line 144, and the interrupt is pending
    /// afterwards exactly if it was before or there was an entry.
    pub proof fn lemma_vblank_at_line_144(self, intf: Interrupt, cycles: nat)
        requires
            self.in_frame(),
        ensures
            self.spec_vblank_entries(intf, cycles) == vblank_starts(self.frame_position(), cycles),
            self.spec_tick(intf, cycles).1.spec_is_raised(InterruptFlag::VBlank) <==> (
            intf.spec_is_raised(InterruptFlag::VBlank) || self.spec_vblank_entries(intf, cycles)
                > 0),
    {
        self.lemma_run_timing(intf, cycles);
    }

    /// The vertical blank is entered exactly once in every 70224 dots,
    /// wherever in the frame they start.
    pub proof fn lemma_vblank_once_per_frame(self, intf: Interrupt)
        requires
            self.in_frame(),
        ensures
            self.spec_vblank_entries(intf, 70224) == 1,
            self.spec_tick(intf, 70224).1.spec_is_raised(InterruptFlag::VBlank),
    {
        self.lemma_run_timing(intf, 70224);
        self.lemma_position_decodes();
    }
}

} // verus!

//! The scanline state machine: how the unit moves through its four modes as
//! dots pass, and which interrupts it requests on the way.

use vstd::prelude::*;
use crate::interrupt::{Interrupt, InterruptFlag};
use crate::ppu::{
    RenderingMode, PPU, STAT_LYC_INT, STAT_LYC_MATCH, STAT_MODE0_INT, STAT_MODE1_INT,
    STAT_MODE2_INT,
};

verus! {

impl PPU {
    /// The unit in mode `mode`, with the mode shown in the status register.
    pub open spec fn spec_with_mode(self, mode: RenderingMode) -> Self {
        PPU { rendering_mode: mode, reg_stat: (self.reg_stat & 0xFC) | mode.bits(), ..self }
    }

    /// Whether the line that comes next is the one in the line-compare
    /// register.
    pub open spec fn spec_lyc_match(&self) -> bool {
        self.reg_ly + 1 == self.reg_lyc || (self.reg_ly == 153 && self.reg_lyc == 0)
    }

    /// The unit and the interrupt latches after the line compare: the match
    /// flag shows the outcome, and a match requests the LCDC interrupt if the
    /// status register enables that.
    pub open spec fn spec_compare_lyc(self, intf: Interrupt) -> (Self, Interrupt) {
        if self.spec_lyc_match() {
            (
                PPU { reg_stat: self.reg_stat | STAT_LYC_MATCH, ..self },
                if self.reg_stat & STAT_LYC_INT != 0 {
                    intf.spec_raise(InterruptFlag::LCDC)
                } else {
                    intf
                },
            )
        } else {
            (PPU { reg_stat: self.reg_stat & 0xFB, ..self }, intf)
        }
    }

    /// The unit and the interrupt latches after `mode` is entered.
    ///
    /// Entering the horizontal blank renders the line and compares lines.
    /// Entering the vertical blank requests the VBlank interrupt. Entering
    /// any mode but drawing requests the LCDC interrupt if the status
    /// register enables it for that mode.
    pub open spec fn spec_change_mode(self, intf: Interrupt, mode: RenderingMode) -> (
        Self,
        Interrupt,
    ) {
        let entered = self.spec_with_mode(mode);
        match mode {
            RenderingMode::HBlank => {
                let (compared, noted) = entered.spec_draw_scanline().spec_compare_lyc(intf);
                (
                    compared,
                    if compared.reg_stat & STAT_MODE0_INT != 0 {
                        noted.spec_raise(InterruptFlag::LCDC)
                    } else {
                        noted
                    },
                )
            },
            RenderingMode::VBlank => {
                let noted = intf.spec_raise(InterruptFlag::VBlank);
                (
                    entered,
                    if entered.reg_stat & STAT_MODE1_INT != 0 {
                        noted.spec_raise(InterruptFlag::LCDC)
                    } else {
                        noted
                    },
                )
            },
            RenderingMode::OAMscan => (
                entered,
                if entered.reg_stat & STAT_MODE2_INT != 0 {
                    intf.spec_raise(InterruptFlag::LCDC)
                } else {
                    intf
                },
            ),
            RenderingMode::Draw => (entered, intf),
        }
    }

    /// The unit and the interrupt latches after the current mode has ended.
    ///
    /// The OAM scan is followed by drawing and drawing by the horizontal
    /// blank. The horizontal blank ends the line: after line 143 comes the
    /// vertical blank, else the next OAM scan. Each line of the vertical blank
    /// ends with a line compare; its last line also shows the drawn frame,
    /// restarts the line counters and enters the OAM scan of line 0.
    #[verifier::opaque]
    pub open spec fn spec_next_mode(self, intf: Interrupt) -> (Self, Interrupt) {
        match self.rendering_mode {
            RenderingMode::OAMscan => self.spec_change_mode(intf, RenderingMode::Draw),
            RenderingMode::Draw => self.spec_change_mode(intf, RenderingMode::HBlank),
            RenderingMode::HBlank => {
                let next = PPU { reg_ly: (self.reg_ly + 1) as u8, ..self };
                if next.reg_ly == 144 {
                    next.spec_change_mode(intf, RenderingMode::VBlank)
                } else {
                    next.spec_change_mode(intf, RenderingMode::OAMscan)
                }
            },
            RenderingMode::VBlank => {
                if self.reg_ly + 1 == 154 {
                    let (entered, noted) = PPU {
                        reg_ly: 0,
                        win_ly: 0,
                        draw_buf: self.display_buf,
                        display_buf: self.draw_buf,
                        ..self
                    }.spec_change_mode(intf, RenderingMode::OAMscan);
                    entered.spec_compare_lyc(noted)
                } else {
                    PPU { reg_ly: (self.reg_ly + 1) as u8, ..self }.spec_compare_lyc(intf)
                }
            },
        }
    }

    /// How many dots the current mode has left; at least one.
    pub open spec fn spec_room(&self) -> nat {
        if self.line_dots < self.rendering_mode.dots() {
            (self.rendering_mode.dots() - self.line_dots) as nat
        } else {
            1
        }
    }

    /// The unit and the interrupt latches after `cycles` dots with the
    /// display on.
    pub open spec fn spec_run(self, intf: Interrupt, cycles: nat) -> (Self, Interrupt)
        decreases cycles,
    {
        if cycles < self.spec_room() {
            (PPU { line_dots: (self.line_dots + cycles) as u32, ..self }, intf)
        } else {
            let (next, noted) = PPU { line_dots: 0, ..self }.spec_next_mode(intf);
            next.spec_run(noted, (cycles - self.spec_room()) as nat)
        }
    }

    /// The unit and the interrupt latches after `cycles` dots. While the
    /// display is off the unit rests at the start of a horizontal blank in
    /// line 0 and renders nothing.
    pub open spec fn spec_tick(self, intf: Interrupt, cycles: nat) -> (Self, Interrupt) {
        if !self.reg_lcdc.lcd_enable {
            (
                PPU {
                    reg_ly: 0,
                    line_dots: 0,
                    ..self.spec_with_mode(RenderingMode::HBlank)
                },
                intf,
            )
        } else {
            self.spec_run(intf, cycles)
        }
    }

    /// Compares the coming line with the line-compare register.
    pub fn compare_lyc(&mut self, intf: &mut Interrupt)
        requires
            old(self).reg_ly < 154,
        ensures
            (*final(self), *final(intf)) == old(self).spec_compare_lyc(*old(intf)),
    {
        if self.reg_ly + 1 == self.reg_lyc || (self.reg_ly == 153 && self.reg_lyc == 0) {
            if self.reg_stat & STAT_LYC_INT != 0 {
                intf.raise(InterruptFlag::LCDC);
            }
            self.reg_stat |= STAT_LYC_MATCH;
        } else {
            self.reg_stat &= 0xFB;
        }
    }

    /// Enters `mode`.
    pub fn change_mode(&mut self, mode: RenderingMode, intf: &mut Interrupt)
        requires
            old(self).reg_ly < 154,
            mode != RenderingMode::VBlank ==> old(self).reg_ly < 144,
        ensures
            (*final(self), *final(intf)) == old(self).spec_change_mode(*old(intf), mode),
            final(self).rendering_mode == mode,
            final(self).reg_ly == old(self).reg_ly,
            final(self).line_dots == old(self).line_dots,
            final(self).reg_lcdc == old(self).reg_lcdc,
    {
        self.rendering_mode = mode;
        self.reg_stat = (self.reg_stat & 0xFC) | self.rendering_mode.bits();
        match mode {
            RenderingMode::HBlank => {
                proof {
                    self.lemma_draw_scanline_keeps();
                }
                self.draw_scanline();
                self.compare_lyc(intf);
                if self.reg_stat & STAT_MODE0_INT != 0 {
                    intf.raise(InterruptFlag::LCDC)
                }
            },
            RenderingMode::VBlank => {
                intf.raise(InterruptFlag::VBlank);
                if self.reg_stat & STAT_MODE1_INT != 0 {
                    intf.raise(InterruptFlag::LCDC)
                }
            },
            RenderingMode::OAMscan => {
                if self.reg_stat & STAT_MODE2_INT != 0 {
                    intf.raise(InterruptFlag::LCDC)
                }
            },
            RenderingMode::Draw => {},
        }
    }

    /// Leaves the current mode for the one that follows it.
    fn next_mode(&mut self, intf: &mut Interrupt)
        requires
            old(self).wf(),
        ensures
            (*final(self), *final(intf)) == old(self).spec_next_mode(*old(intf)),
            final(self).line_dots == old(self).line_dots,
            final(self).reg_lcdc == old(self).reg_lcdc,
            final(self).reg_ly < 154,
            final(self).rendering_mode != RenderingMode::VBlank ==> final(self).reg_ly < 144,
    {
        reveal(PPU::spec_next_mode);
        match self.rendering_mode {
            RenderingMode::OAMscan => self.change_mode(RenderingMode::Draw, intf),
            RenderingMode::Draw => self.change_mode(RenderingMode::HBlank, intf),
            RenderingMode::HBlank => {
                self.reg_ly += 1;
                if self.reg_ly == 144 {
                    self.change_mode(RenderingMode::VBlank, intf);
                } else {
                    self.change_mode(RenderingMode::OAMscan, intf);
                }
            },
            RenderingMode::VBlank => {
                self.reg_ly += 1;
                if self.reg_ly == 154 {
                    let shown = self.display_buf;
                    self.display_buf = self.draw_buf;
                    self.draw_buf = shown;
                    self.reg_ly = 0;
                    self.win_ly = 0;
                    self.change_mode(RenderingMode::OAMscan, intf);
                }
                self.compare_lyc(intf);
            },
        }
    }

    /// Advances the unit by `cycles` dots and marks the interrupts that it
    /// requests in `intf`.
    pub fn tick(&mut self, cycles: u64, intf: &mut Interrupt)
        requires
            old(self).wf(),
        ensures
            (*final(self), *final(intf)) == old(self).spec_tick(*old(intf), cycles as nat),
            final(self).wf(),
            old(self).in_frame() ==> final(self).in_frame() && final(self).frame_position() == (
            old(self).frame_position() + cycles) % 70224,
    {
        proof {
            if old(self).in_frame() {
                old(self).lemma_frame_is_154_lines_of_456_dots(*old(intf), cycles as nat);
            }
        }
        if !self.reg_lcdc.lcd_enable {
            self.rendering_mode = RenderingMode::HBlank;
            self.reg_ly = 0;
            self.line_dots = 0;
            self.reg_stat = (self.reg_stat & 0xFC) | self.rendering_mode.bits();
            return;
        }
        let mut left = cycles;
        let mut room = (self.rendering_mode.dots() - self.line_dots) as u64;
        while left >= room
            invariant
                self.wf(),
                room == self.spec_room(),
                self.spec_run(*intf, left as nat) == old(self).spec_run(
                    *old(intf),
                    cycles as nat,
                ),
            decreases left,
        {
            left -= room;
            self.line_dots = 0;
            self.next_mode(intf);
            room = (self.rendering_mode.dots() - self.line_dots) as u64;
        }
        self.line_dots += left as u32;
    }

    /// Rendering a line leaves the state machine's own registers alone.
    pub proof fn lemma_draw_scanline_keeps(self)
        ensures
            self.spec_draw_scanline().reg_ly == self.reg_ly,
            self.spec_draw_scanline().reg_lyc == self.reg_lyc,
            self.spec_draw_scanline().reg_stat == self.reg_stat,
            self.spec_draw_scanline().reg_lcdc == self.reg_lcdc,
            self.spec_draw_scanline().rendering_mode == self.rendering_mode,
            self.spec_draw_scanline().line_dots == self.line_dots,
    {
        self.lemma_cache_keeps(40);
        let cached = self.spec_cache_all_sprites();
        cached.lemma_draw_tiles_keeps(160);
        cached.lemma_clear_line_keeps(160);
        let tiled = if self.reg_lcdc.bg_enable {
            cached.spec_draw_tiles()
        } else {
            cached.spec_clear_line_to(160)
        };
        tiled.lemma_paint_sprites_keeps(
            tiled.spec_sprites_on_line(),
            tiled.spec_sprites_on_line().len(),
        );
    }
}

} // verus!

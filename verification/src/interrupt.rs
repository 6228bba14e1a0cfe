//! The interrupt controller: the enable latch (IE) and the pending latch (IF).

use vstd::prelude::*;
use crate::bits::{lemma_and_test, lemma_clear_bit, lemma_set_bit};

verus! {

/// Address of the interrupt-enable register.
pub const IE_ADDR: u16 = 0xFFFF;

/// Address of the interrupt-flag register.
pub const IF_ADDR: u16 = 0xFF0F;

/// The five interrupt sources, in order of decreasing priority.
#[derive(Copy, Clone, Debug, PartialEq, Eq, Structural)]
pub enum InterruptFlag {
    VBlank,
    LCDC,
    Timer,
    Serial,
    Joypad,
}

impl InterruptFlag {
    /// The bit that stands for this source in IE and IF.
    pub open spec fn spec_mask(self) -> u8 {
        match self {
            InterruptFlag::VBlank => 0x01,
            InterruptFlag::LCDC => 0x02,
            InterruptFlag::Timer => 0x04,
            InterruptFlag::Serial => 0x08,
            InterruptFlag::Joypad => 0x10,
        }
    }

    /// Position in the priority order; 0 is served first.
    pub open spec fn priority(self) -> int {
        match self {
            InterruptFlag::VBlank => 0,
            InterruptFlag::LCDC => 1,
            InterruptFlag::Timer => 2,
            InterruptFlag::Serial => 3,
            InterruptFlag::Joypad => 4,
        }
    }

    /// The bit that stands for this source in IE and IF.
    #[verifier::when_used_as_spec(spec_mask)]
    pub fn mask(self) -> (m: u8)
        ensures
            m == self.spec_mask(),
    {
        match self {
            InterruptFlag::VBlank => 0x01,
            InterruptFlag::LCDC => 0x02,
            InterruptFlag::Timer => 0x04,
            InterruptFlag::Serial => 0x08,
            InterruptFlag::Joypad => 0x10,
        }
    }

    /// The source whose bit is `from`.
    pub fn from_u8(from: u8) -> (flag: Self)
        requires
            from == 1 || from == 2 || from == 4 || from == 8 || from == 16,
        ensures
            flag.mask() == from,
    {
        match from {
            1 => InterruptFlag::VBlank,
            2 => InterruptFlag::LCDC,
            4 => InterruptFlag::Timer,
            8 => InterruptFlag::Serial,
            _ => InterruptFlag::Joypad,
        }
    }
}

/// The dispatch target of each interrupt source.
#[derive(Copy, Clone, Debug, PartialEq, Eq, Structural)]
pub enum InterruptSource {
    VBlank,
    LCDC,
    Timer,
    Serial,
    Joypad,
}

impl InterruptSource {
    /// The source that a flag dispatches to.
    pub open spec fn spec_from_flag(from: InterruptFlag) -> Self {
        match from {
            InterruptFlag::VBlank => InterruptSource::VBlank,
            InterruptFlag::LCDC => InterruptSource::LCDC,
            InterruptFlag::Timer => InterruptSource::Timer,
            InterruptFlag::Serial => InterruptSource::Serial,
            InterruptFlag::Joypad => InterruptSource::Joypad,
        }
    }

    /// The fixed address that the CPU jumps to when it serves this source.
    pub open spec fn spec_vector(self) -> u16 {
        match self {
            InterruptSource::VBlank => 0x40,
            InterruptSource::LCDC => 0x48,
            InterruptSource::Timer => 0x50,
            InterruptSource::Serial => 0x58,
            InterruptSource::Joypad => 0x60,
        }
    }

    /// The source that a flag dispatches to.
    #[verifier::when_used_as_spec(spec_from_flag)]
    pub fn from_flag(from: InterruptFlag) -> (source: Self)
        ensures
            source == Self::spec_from_flag(from),
            source.vector() == 0x40 + 8 * from.priority(),
    {
        match from {
            InterruptFlag::VBlank => InterruptSource::VBlank,
            InterruptFlag::LCDC => InterruptSource::LCDC,
            InterruptFlag::Timer => InterruptSource::Timer,
            InterruptFlag::Serial => InterruptSource::Serial,
            InterruptFlag::Joypad => InterruptSource::Joypad,
        }
    }

    /// The fixed address that the CPU jumps to when it serves this source.
    #[verifier::when_used_as_spec(spec_vector)]
    pub fn vector(self) -> (addr: u16)
        ensures
            addr == self.spec_vector(),
    {
        match self {
            InterruptSource::VBlank => 0x40,
            InterruptSource::LCDC => 0x48,
            InterruptSource::Timer => 0x50,
            InterruptSource::Serial => 0x58,
            InterruptSource::Joypad => 0x60,
        }
    }
}

/// The two interrupt latches.
pub struct Interrupt {
    /// IE: which sources may interrupt the CPU.
    pub enable: u8,
    /// IF: which sources are waiting to be served.
    pub flags: u8,
}

impl Default for Interrupt {
    fn default() -> (intf: Self)
        ensures
            intf.enable == 0,
            intf.flags == 0,
    {
        Interrupt { enable: 0, flags: 0 }
    }
}

impl Interrupt {
    /// Whether `flag` is pending in IF.
    pub open spec fn spec_is_raised(&self, flag: InterruptFlag) -> bool {
        self.flags & flag.mask() != 0
    }

    /// Whether `flag` is allowed by IE.
    pub open spec fn spec_is_enabled(&self, flag: InterruptFlag) -> bool {
        self.enable & flag.mask() != 0
    }

    /// Whether `flag` is both pending and enabled.
    pub open spec fn requested(&self, flag: InterruptFlag) -> bool {
        self.spec_is_raised(flag) && self.spec_is_enabled(flag)
    }

    /// The byte read at `addr`: a latch, or 0xFF where no latch lives.
    pub open spec fn spec_read(&self, addr: u16) -> u8 {
        if addr == IE_ADDR {
            self.enable
        } else if addr == IF_ADDR {
            self.flags
        } else {
            0xFF
        }
    }

    /// The latches after `write` is stored at `addr`; other addresses change nothing.
    pub open spec fn spec_write(self, addr: u16, write: u8) -> Self {
        if addr == IE_ADDR {
            Interrupt { enable: write, ..self }
        } else if addr == IF_ADDR {
            Interrupt { flags: write, ..self }
        } else {
            self
        }
    }

    /// The latches with `flag` marked as pending.
    pub open spec fn spec_raise(self, flag: InterruptFlag) -> Self {
        Interrupt { flags: self.flags | flag.mask(), ..self }
    }

    /// The latches with `flag` marked as served.
    pub open spec fn spec_clear(self, flag: InterruptFlag) -> Self {
        Interrupt { flags: self.flags & !flag.mask(), ..self }
    }

    /// The request that the CPU serves next, if there is one.
    pub open spec fn spec_pending(&self) -> Option<InterruptFlag> {
        if self.requested(InterruptFlag::VBlank) {
            Some(InterruptFlag::VBlank)
        } else if self.requested(InterruptFlag::LCDC) {
            Some(InterruptFlag::LCDC)
        } else if self.requested(InterruptFlag::Timer) {
            Some(InterruptFlag::Timer)
        } else if self.requested(InterruptFlag::Serial) {
            Some(InterruptFlag::Serial)
        } else if self.requested(InterruptFlag::Joypad) {
            Some(InterruptFlag::Joypad)
        } else {
            None
        }
    }

    /// Reads the latch at `addr`.
    pub fn read(&self, addr: u16) -> (r: u8)
        ensures
            r == self.spec_read(addr),
    {
        match addr {
            0xFFFF => self.enable,
            0xFF0F => self.flags,
            _ => 0xFF,
        }
    }

    /// Stores `write` in the latch at `addr`.
    pub fn write(&mut self, addr: u16, write: u8)
        ensures
            *final(self) == old(self).spec_write(addr, write),
    {
        match addr {
            0xFFFF => self.enable = write,
            0xFF0F => self.flags = write,
            _ => {},
        }
    }

    /// Marks `flag` as pending.
    pub fn raise(&mut self, flag: InterruptFlag)
        ensures
            *final(self) == old(self).spec_raise(flag),
            final(self).spec_is_raised(flag),
            forall|other: InterruptFlag|
                other != flag ==> (#[trigger] final(self).spec_is_raised(other)
                    <==> old(self).spec_is_raised(other)),
    {
        self.flags |= flag.mask();
        proof {
            assert forall|other: InterruptFlag|
                other != flag implies (#[trigger] self.spec_is_raised(other) <==> old(
                self,
            ).spec_is_raised(other)) by {
                lemma_set_bit(old(self).flags, flag.mask(), other.mask());
            }
            lemma_set_bit(old(self).flags, flag.mask(), flag.mask());
        }
    }

    /// Marks `flag` as served.
    pub fn clear(&mut self, flag: InterruptFlag)
        ensures
            *final(self) == old(self).spec_clear(flag),
            !final(self).spec_is_raised(flag),
            forall|other: InterruptFlag|
                other != flag ==> (#[trigger] final(self).spec_is_raised(other)
                    <==> old(self).spec_is_raised(other)),
    {
        self.flags &= !flag.mask();
        proof {
            assert forall|other: InterruptFlag|
                other != flag implies (#[trigger] self.spec_is_raised(other) <==> old(
                self,
            ).spec_is_raised(other)) by {
                lemma_clear_bit(old(self).flags, flag.mask(), other.mask());
            }
            lemma_clear_bit(old(self).flags, flag.mask(), flag.mask());
        }
    }

    /// Whether `flag` is pending in IF.
    #[verifier::when_used_as_spec(spec_is_raised)]
    pub fn is_raised(&self, flag: InterruptFlag) -> (r: bool)
        ensures
            r == self.spec_is_raised(flag),
    {
        self.flags & flag.mask() != 0
    }

    /// The pending and enabled source of highest priority.
    #[verifier::when_used_as_spec(spec_pending)]
    pub fn pending(&self) -> (next: Option<InterruptFlag>)
        ensures
            next == self.spec_pending(),
            next matches Some(f) ==> self.requested(f) && forall|g: InterruptFlag|
                #[trigger] self.requested(g) ==> f.priority() <= g.priority(),
            next is None <==> forall|g: InterruptFlag| !#[trigger] self.requested(g),
    {
        let both = self.flags & self.enable;
        proof {
            lemma_and_test(self.flags, self.enable, 0x01);
            lemma_and_test(self.flags, self.enable, 0x02);
            lemma_and_test(self.flags, self.enable, 0x04);
            lemma_and_test(self.flags, self.enable, 0x08);
            lemma_and_test(self.flags, self.enable, 0x10);
        }
        if both & 0x01 != 0 {
            Some(InterruptFlag::VBlank)
        } else if both & 0x02 != 0 {
            Some(InterruptFlag::LCDC)
        } else if both & 0x04 != 0 {
            Some(InterruptFlag::Timer)
        } else if both & 0x08 != 0 {
            Some(InterruptFlag::Serial)
        } else if both & 0x10 != 0 {
            Some(InterruptFlag::Joypad)
        } else {
            None
        }
    }
}

} // verus!

//! The four shades of the screen and the palettes that map colour numbers
//! onto them.

use vstd::prelude::*;
use crate::bits::{lemma_byte_fields, lemma_palette_bits};

verus! {

/// A shade of the screen, from lightest to darkest.
#[derive(Clone, Copy, Debug, PartialEq, Eq, Structural)]
pub enum GBColour {
    White,
    LightGrey,
    DarkGrey,
    Black,
}

impl GBColour {
    /// The two-bit number of the shade.
    pub open spec fn spec_bits(self) -> u8 {
        match self {
            GBColour::White => 0,
            GBColour::LightGrey => 1,
            GBColour::DarkGrey => 2,
            GBColour::Black => 3,
        }
    }

    /// The shade with number `from`; every number above 3 gives the darkest.
    pub open spec fn spec_from_bits(from: u8) -> Self {
        if from == 0 {
            GBColour::White
        } else if from == 1 {
            GBColour::LightGrey
        } else if from == 2 {
            GBColour::DarkGrey
        } else {
            GBColour::Black
        }
    }

    /// The two-bit number of the shade.
    #[verifier::when_used_as_spec(spec_bits)]
    pub fn bits(self) -> (b: u8)
        ensures
            b == self.spec_bits(),
            b <= 3,
    {
        match self {
            GBColour::White => 0,
            GBColour::LightGrey => 1,
            GBColour::DarkGrey => 2,
            GBColour::Black => 3,
        }
    }
}

impl vstd::std_specs::convert::FromSpecImpl<u8> for GBColour {
    open spec fn obeys_from_spec() -> bool {
        true
    }

    open spec fn from_spec(from: u8) -> Self {
        GBColour::spec_from_bits(from)
    }
}

impl From<u8> for GBColour {
    fn from(from: u8) -> (colour: GBColour) {
        match from {
            0 => GBColour::White,
            1 => GBColour::LightGrey,
            2 => GBColour::DarkGrey,
            _ => GBColour::Black,
        }
    }
}

/// A palette register: the shade of each of the four colour numbers.
#[derive(Clone, Copy, Debug, PartialEq, Eq, Structural)]
pub struct Palette {
    pub id_0: GBColour,
    pub id_1: GBColour,
    pub id_2: GBColour,
    pub id_3: GBColour,
}

impl Palette {
    /// The palette that the register byte `write` encodes: two bits per
    /// colour number, number 0 in the lowest two.
    pub open spec fn spec_new(write: u8) -> Self {
        Palette {
            id_0: GBColour::spec_from_bits(write & 0x3),
            id_1: GBColour::spec_from_bits((write >> 2) & 0x3),
            id_2: GBColour::spec_from_bits((write >> 4) & 0x3),
            id_3: GBColour::spec_from_bits((write >> 6) & 0x3),
        }
    }

    /// The shade of colour number `id`; every number above 3 counts as 3.
    pub open spec fn spec_get_pal_value(&self, id: u8) -> GBColour {
        if id == 0 {
            self.id_0
        } else if id == 1 {
            self.id_1
        } else if id == 2 {
            self.id_2
        } else {
            self.id_3
        }
    }

    /// The register byte that encodes this palette.
    pub open spec fn spec_read(&self) -> u8 {
        self.id_0.bits() | (self.id_1.bits() << 2) | (self.id_2.bits() << 4) | (self.id_3.bits()
            << 6)
    }

    /// The palette that the register byte `initial_write` encodes.
    pub fn new(initial_write: u8) -> (pal: Self)
        ensures
            pal == Self::spec_new(initial_write),
    {
        let mut pal = Palette {
            id_0: GBColour::White,
            id_1: GBColour::LightGrey,
            id_2: GBColour::DarkGrey,
            id_3: GBColour::Black,
        };
        pal.write(initial_write);
        pal
    }

    /// The shade of colour number `id`.
    #[verifier::when_used_as_spec(spec_get_pal_value)]
    pub fn get_pal_value(&self, id: u8) -> (colour: GBColour)
        ensures
            colour == self.spec_get_pal_value(id),
    {
        match id {
            0 => self.id_0,
            1 => self.id_1,
            2 => self.id_2,
            _ => self.id_3,
        }
    }

    /// The register byte that encodes this palette.
    pub fn read(&self) -> (r: u8)
        ensures
            r == self.spec_read(),
    {
        self.id_0.bits() | (self.id_1.bits() << 2) | (self.id_2.bits() << 4) | (self.id_3.bits()
            << 6)
    }

    /// Replaces the palette by the one that the register byte `write` encodes.
    pub fn write(&mut self, write: u8)
        ensures
            *final(self) == Self::spec_new(write),
            final(self).spec_read() == write,
    {
        self.id_0 = GBColour::from(write & 0x3);
        self.id_1 = GBColour::from((write >> 2) & 0x3);
        self.id_2 = GBColour::from((write >> 4) & 0x3);
        self.id_3 = GBColour::from((write >> 6) & 0x3);
        proof {
            lemma_byte_fields(write);
            lemma_palette_bits(write);
        }
    }
}

} // verus!

//! The joypad: eight buttons in two groups of four, read through one
//! register.

use vstd::prelude::*;
use crate::interrupt::{Interrupt, InterruptFlag};

verus! {

/// The eight buttons.
#[derive(Clone, Copy, Debug, PartialEq, Eq, Structural)]
pub enum GBInput {
    DPadUp,
    DPadDown,
    DPadLeft,
    DPadRight,
    BtnA,
    BtnB,
    BtnSelect,
    BtnStart,
}

impl GBInput {
    /// The bit of the button within its group.
    pub open spec fn spec_into_mask(&self) -> u8 {
        match self {
            GBInput::BtnA => 0x1,
            GBInput::BtnB => 0x2,
            GBInput::BtnSelect => 0x4,
            GBInput::BtnStart => 0x8,
            GBInput::DPadRight => 0x1,
            GBInput::DPadLeft => 0x2,
            GBInput::DPadUp => 0x4,
            GBInput::DPadDown => 0x8,
        }
    }

    /// Whether the button is one of the four directions.
    pub open spec fn spec_is_dpad(&self) -> bool {
        match self {
            GBInput::BtnA => false,
            GBInput::BtnB => false,
            GBInput::BtnSelect => false,
            GBInput::BtnStart => false,
            GBInput::DPadRight => true,
            GBInput::DPadLeft => true,
            GBInput::DPadUp => true,
            GBInput::DPadDown => true,
        }
    }

    /// The bit of the button within its group.
    #[verifier::when_used_as_spec(spec_into_mask)]
    pub fn into_mask(&self) -> (mask: u8)
        ensures
            mask == self.spec_into_mask(),
    {
        match self {
            GBInput::BtnA => 0x1,
            GBInput::BtnB => 0x2,
            GBInput::BtnSelect => 0x4,
            GBInput::BtnStart => 0x8,
            GBInput::DPadRight => 0x1,
            GBInput::DPadLeft => 0x2,
            GBInput::DPadUp => 0x4,
            GBInput::DPadDown => 0x8,
        }
    }

    /// Whether the button is one of the four directions.
    #[verifier::when_used_as_spec(spec_is_dpad)]
    pub fn is_dpad(&self) -> (dpad: bool)
        ensures
            dpad == self.spec_is_dpad(),
    {
        match self {
            GBInput::BtnA => false,
            GBInput::BtnB => false,
            GBInput::BtnSelect => false,
            GBInput::BtnStart => false,
            GBInput::DPadRight => true,
            GBInput::DPadLeft => true,
            GBInput::DPadUp => true,
            GBInput::DPadDown => true,
        }
    }
}

pub struct Joypad {
    /// The four directions; a bit is 0 while its button is held.
    pub dpad_state: u8,
    /// The four action buttons; a bit is 0 while its button is held.
    pub btn_state: u8,
    /// Bits 4 and 5 of the register as written last.
    pub select: u8,
}

impl Joypad {
    /// The byte read from the register: the select bits in bits 4 and 5, and
    /// below them the group that the select bits choose. With select 1 that
    /// is the directions, with 2 the action buttons, with 3 neither (all
    /// released), and with 0 both at once.
    pub open spec fn spec_read(&self) -> u8 {
        (self.select << 4) | (if self.select == 1 {
            self.dpad_state
        } else if self.select == 2 {
            self.btn_state
        } else if self.select == 3 {
            0xFu8
        } else {
            self.dpad_state & self.btn_state
        })
    }

    /// The joypad after `write` is stored in the register.
    pub open spec fn spec_write(self, write: u8) -> Self {
        Joypad { select: (write >> 4) & 0x3, ..self }
    }

    /// The joypad while `input` is held.
    pub open spec fn spec_btn_down(self, input: GBInput) -> Self {
        if input.is_dpad() {
            Joypad { dpad_state: self.dpad_state & !input.into_mask(), ..self }
        } else {
            Joypad { btn_state: self.btn_state & !input.into_mask(), ..self }
        }
    }

    /// The joypad after `input` is released.
    pub open spec fn spec_btn_up(self, input: GBInput) -> Self {
        if input.is_dpad() {
            Joypad { dpad_state: self.dpad_state | input.into_mask(), ..self }
        } else {
            Joypad { btn_state: self.btn_state | input.into_mask(), ..self }
        }
    }

    /// A joypad with no button held and no group selected.
    pub fn new() -> (joypad: Self)
        ensures
            joypad == (Joypad { dpad_state: 0xF, btn_state: 0xF, select: 0 }),
    {
        Joypad { dpad_state: 0xF, btn_state: 0xF, select: 0 }
    }

    /// Reads the register.
    pub fn read(&self) -> (r: u8)
        ensures
            r == self.spec_read(),
    {
        (self.select << 4) | (match self.select {
            1 => self.dpad_state,
            2 => self.btn_state,
            3 => 0xF,
            _ => self.dpad_state & self.btn_state,
        })
    }

    /// Stores `write` in the register; only the two select bits are kept.
    pub fn write(&mut self, write: u8)
        ensures
            *final(self) == old(self).spec_write(write),
    {
        self.select = (write >> 4) & 0x3;
    }

    /// Holds `input` down and requests the Joypad interrupt.
    pub fn btn_down(&mut self, input: GBInput, intf: &mut Interrupt)
        ensures
            *final(self) == old(self).spec_btn_down(input),
            *final(intf) == old(intf).spec_raise(InterruptFlag::Joypad),
    {
        if input.is_dpad() {
            self.dpad_state &= !input.into_mask();
        } else {
            self.btn_state &= !input.into_mask();
        }
        intf.raise(InterruptFlag::Joypad);
    }

    /// Releases `input`.
    pub fn btn_up(&mut self, input: GBInput)
        ensures
            *final(self) == old(self).spec_btn_up(input),
    {
        if input.is_dpad() {
            self.dpad_state |= input.into_mask();
        } else {
            self.btn_state |= input.into_mask();
        }
    }
}

} // verus!

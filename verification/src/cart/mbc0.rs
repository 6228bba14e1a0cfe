//! A cartridge without a controller: up to 32 KiB of ROM, mapped as it is.

use vstd::prelude::*;
use crate::cart::{rom_at, rom_byte, MBC};

verus! {

pub struct MBC0 {
    pub rom: Vec<u8>,
}

/// The cartridge as a mathematical value.
pub struct Mbc0View {
    pub rom: Seq<u8>,
}

impl View for MBC0 {
    type V = Mbc0View;

    open spec fn view(&self) -> Mbc0View {
        Mbc0View { rom: self.rom@ }
    }
}

impl Mbc0View {
    /// The byte shown at `addr`: the ROM byte below 0x8000, 0xFF elsewhere.
    pub open spec fn read(self, addr: u16) -> u8 {
        if addr <= 0x7FFF {
            rom_byte(self.rom, addr as int)
        } else {
            0xFF
        }
    }
}

impl MBC0 {
    /// A cartridge with the image `rom`.
    pub fn new(rom: Vec<u8>) -> (cart: Self)
        ensures
            cart@.rom == rom@,
    {
        MBC0 { rom: rom }
    }
}

impl MBC for MBC0 {
    open spec fn spec_wf(&self) -> bool {
        true
    }

    open spec fn spec_read(&self, addr: u16) -> u8 {
        self@.read(addr)
    }

    open spec fn spec_wrote(&self, addr: u16, write: u8, after: Self) -> bool {
        after@ == self@
    }

    open spec fn spec_is_battery_backed(&self) -> bool {
        false
    }

    open spec fn spec_sram(&self) -> Seq<u8> {
        Seq::empty()
    }

    open spec fn spec_loaded(&self, sram: Seq<u8>, after: Self) -> bool {
        after@ == self@
    }

    fn read(&self, addr: u16) -> (r: u8) {
        if addr <= 0x7FFF {
            rom_at(&self.rom, addr as usize)
        } else {
            0xFF
        }
    }

    fn write(&mut self, addr: u16, write: u8) {
    }

    fn is_battery_backed(&self) -> (battery: bool) {
        false
    }

    fn load_sram(&mut self, sram: Vec<u8>) {
    }

    fn dump_sram(&self) -> (sram: Vec<u8>) {
        Vec::new()
    }
}

} // verus!

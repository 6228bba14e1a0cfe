//! MBC2: up to 256 KiB of ROM and 512 half-bytes of RAM inside the
//! controller.

use vstd::prelude::*;
use crate::bits::lemma_byte_fields;
use crate::cart::{is_rom_bank_count, copy_bytes, rom_at, rom_bank_count, rom_byte, spec_rom_bank_count, MBC};

verus! {

pub struct MBC2 {
    pub rom: Vec<u8>,
    /// The built-in RAM; only the lower four bits of each byte exist.
    pub ram: Vec<u8>,
    /// The 4-bit ROM bank register; never 0.
    pub rom_bank: u8,
    pub rom_banks: usize,
    pub ram_enabled: bool,
    pub has_battery: bool,
}

/// The cartridge as a mathematical value.
pub struct Mbc2View {
    pub rom: Seq<u8>,
    pub ram: Seq<u8>,
    pub rom_bank: u8,
    pub rom_banks: usize,
    pub ram_enabled: bool,
    pub has_battery: bool,
}

impl View for MBC2 {
    type V = Mbc2View;

    open spec fn view(&self) -> Mbc2View {
        Mbc2View {
            rom: self.rom@,
            ram: self.ram@,
            rom_bank: self.rom_bank,
            rom_banks: self.rom_banks,
            ram_enabled: self.ram_enabled,
            has_battery: self.has_battery,
        }
    }
}

impl Mbc2View {
    /// The bank register is within its four bits and not 0, and the bank
    /// count is one that a header can declare.
    pub open spec fn wf(self) -> bool {
        &&& 1 <= self.rom_bank <= 15
        &&& is_rom_bank_count(self.rom_banks)
    }

    /// The cartridge as it is made from an image whose header is at hand.
    pub open spec fn spec_new(rom: Seq<u8>) -> Self {
        Mbc2View {
            rom: rom,
            ram: Seq::new(512, |i: int| 0xFFu8),
            rom_bank: 1,
            rom_banks: spec_rom_bank_count(rom[0x148]),
            ram_enabled: false,
            has_battery: rom[0x147] == 0x06,
        }
    }

    /// The ROM bank shown in the switchable window 0x4000-0x7FFF.
    pub open spec fn switchable_bank(self) -> int {
        self.rom_bank as int % (self.rom_banks as int)
    }

    /// The byte shown at `addr`. Only the lower nine bits of an address
    /// reach the RAM, and the upper half of what is read from it is set.
    pub open spec fn read(self, addr: u16) -> u8 {
        if addr <= 0x3FFF {
            rom_byte(self.rom, addr as int)
        } else if addr <= 0x7FFF {
            rom_byte(self.rom, (addr - 0x4000) + self.switchable_bank() * 0x4000)
        } else if 0xA000 <= addr <= 0xBFFF && self.ram_enabled {
            rom_byte(self.ram, (addr & 0x1FF) as int) | 0xF0
        } else {
            0xFF
        }
    }

    /// The cartridge after `write` is stored at `addr`. Below 0x4000, bit 8
    /// of the address selects between the RAM enable and the bank register.
    pub open spec fn write(self, addr: u16, write: u8) -> Self {
        if addr <= 0x3FFF {
            if addr & 0x100 == 0 {
                Mbc2View { ram_enabled: write & 0xF == 0xA, ..self }
            } else {
                Mbc2View {
                    rom_bank: if write & 0xF == 0 {
                        1
                    } else {
                        write & 0xF
                    },
                    ..self
                }
            }
        } else if 0xA000 <= addr <= 0xBFFF && self.ram_enabled && (addr & 0x1FF) < self.ram.len() {
            Mbc2View { ram: self.ram.update((addr & 0x1FF) as int, write | 0xF0), ..self }
        } else {
            self
        }
    }

    /// The cartridge with `sram` as its RAM.
    pub open spec fn load_sram(self, sram: Seq<u8>) -> Self {
        Mbc2View { ram: sram, ..self }
    }

    /// What is dumped from one cartridge and loaded into another is the
    /// other's RAM afterwards, byte for byte.
    pub proof fn lemma_save_round_trip(self, fresh: Self)
        ensures
            fresh.load_sram(self.ram).ram == self.ram,
    {
    }
}

impl MBC2 {
    /// A cartridge with the image `rom`. Bank 1 is selected and the RAM is
    /// disabled.
    pub fn new(rom: Vec<u8>) -> (cart: Self)
        requires
            rom@.len() >= 0x150,
            rom@[0x148] <= 8,
        ensures
            cart@ == Mbc2View::spec_new(rom@),
            cart@.wf(),
    {
        let has_battery = match rom[0x147] {
            0x06 => true,
            _ => false,
        };
        let rom_banks = rom_bank_count(rom[0x148]);
        let cart = MBC2 {
            rom: rom,
            ram: vec![0xFFu8; 512],
            rom_bank: 1,
            rom_banks: rom_banks,
            ram_enabled: false,
            has_battery: has_battery,
        };
        assert(cart@.ram =~= Mbc2View::spec_new(rom@).ram);
        cart
    }
}

impl MBC for MBC2 {
    open spec fn spec_wf(&self) -> bool {
        self@.wf()
    }

    open spec fn spec_read(&self, addr: u16) -> u8 {
        self@.read(addr)
    }

    open spec fn spec_wrote(&self, addr: u16, write: u8, after: Self) -> bool {
        after@ == self@.write(addr, write)
    }

    open spec fn spec_is_battery_backed(&self) -> bool {
        self.has_battery
    }

    open spec fn spec_sram(&self) -> Seq<u8> {
        self@.ram
    }

    open spec fn spec_loaded(&self, sram: Seq<u8>, after: Self) -> bool {
        after@ == self@.load_sram(sram)
    }

    fn read(&self, addr: u16) -> (r: u8) {
        match addr {
            0..=0x3FFF => rom_at(&self.rom, addr as usize),
            0x4000..=0x7FFF => rom_at(
                &self.rom,
                (addr as usize - 0x4000) + 0x4000 * (self.rom_bank as usize % self.rom_banks),
            ),
            0xA000..=0xBFFF => if self.ram_enabled {
                rom_at(&self.ram, (addr & 0x1FF) as usize) | 0xF0
            } else {
                0xFF
            },
            _ => 0xFF,
        }
    }

    fn write(&mut self, addr: u16, write: u8) {
        proof {
            lemma_byte_fields(write);
        }
        match addr {
            0x0000..=0x3FFF => {
                if addr & 0x100 == 0 {
                    self.ram_enabled = write & 0xF == 0x0A;
                } else {
                    self.rom_bank = write & 0x0F;
                    if self.rom_bank == 0 {
                        self.rom_bank = 1
                    }
                }
            },
            0xA000..=0xBFFF => {
                let index = (addr & 0x1FF) as usize;
                if self.ram_enabled && index < self.ram.len() {
                    self.ram[index] = write | 0xF0;
                }
            },
            _ => {},
        }
    }

    fn is_battery_backed(&self) -> (battery: bool) {
        self.has_battery
    }

    fn load_sram(&mut self, sram: Vec<u8>) {
        self.ram = sram;
    }

    fn dump_sram(&self) -> (sram: Vec<u8>) {
        copy_bytes(&self.ram)
    }
}

} // verus!

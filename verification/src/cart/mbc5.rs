//! MBC5: up to 8 MiB of ROM and 128 KiB of RAM.

use vstd::prelude::*;
use vstd::arithmetic::div_mod::lemma_mod_decreases;
use crate::bits::lemma_byte_fields;
use crate::cart::{
    is_rom_bank_count, ram_at, ram_byte, ram_bytes, ram_dump, ram_store, ram_stored, ram_view,
    rom_at, rom_bank_count, rom_byte, spec_rom_bank_count, MBC,
};

verus! {

pub struct MBC5 {
    pub rom: Vec<u8>,
    pub ram: Option<Vec<u8>>,
    /// The lower eight bits of the ROM bank number; 0 selects bank 0.
    pub rom_bank: u8,
    /// The ninth bit of the ROM bank number.
    pub upper_rom_bank: u8,
    /// The 4-bit RAM bank register.
    pub ram_bank: u8,
    pub rom_banks: usize,
    pub ram_banks: usize,
    pub ram_enabled: bool,
    pub has_battery: bool,
}

/// The cartridge as a mathematical value.
pub struct Mbc5View {
    pub rom: Seq<u8>,
    pub ram: Option<Seq<u8>>,
    pub rom_bank: u8,
    pub upper_rom_bank: u8,
    pub ram_bank: u8,
    pub rom_banks: usize,
    pub ram_banks: usize,
    pub ram_enabled: bool,
    pub has_battery: bool,
}

impl View for MBC5 {
    type V = Mbc5View;

    open spec fn view(&self) -> Mbc5View {
        Mbc5View {
            rom: self.rom@,
            ram: ram_view(self.ram),
            rom_bank: self.rom_bank,
            upper_rom_bank: self.upper_rom_bank,
            ram_bank: self.ram_bank,
            rom_banks: self.rom_banks,
            ram_banks: self.ram_banks,
            ram_enabled: self.ram_enabled,
            has_battery: self.has_battery,
        }
    }
}

impl Mbc5View {
    /// The registers are within their bits, and the bank count is one that
    /// a header can declare.
    pub open spec fn wf(self) -> bool {
        &&& self.upper_rom_bank <= 1
        &&& self.ram_bank <= 15
        &&& is_rom_bank_count(self.rom_banks)
    }

    /// The cartridge as it is made from an image whose header is at hand.
    pub open spec fn spec_new(rom: Seq<u8>, ram_size: usize) -> Self {
        Mbc5View {
            rom: rom,
            ram: if rom[0x147] == 0x1A || rom[0x147] == 0x1B || rom[0x147] == 0x1D || rom[0x147]
                == 0x1E {
                Some(Seq::new(ram_size as nat, |i: int| 0u8))
            } else {
                None
            },
            rom_bank: 1,
            upper_rom_bank: 0,
            ram_bank: 0,
            rom_banks: spec_rom_bank_count(rom[0x148]),
            ram_banks: ram_size / 0x2000,
            ram_enabled: false,
            has_battery: rom[0x147] == 0x1B || rom[0x147] == 0x1E,
        }
    }

    /// The ROM bank shown in the switchable window 0x4000-0x7FFF: the 9-bit
    /// bank number, reduced modulo the number of banks. Bank 0 can be shown.
    pub open spec fn switchable_bank(self) -> int {
        (self.upper_rom_bank * 256 + self.rom_bank) % (self.rom_banks as int)
    }

    /// The RAM bank shown in the window 0xA000-0xBFFF.
    pub open spec fn shown_ram_bank(self) -> int {
        self.ram_bank as int % (self.ram_banks as int)
    }

    /// Whether the RAM window shows RAM.
    pub open spec fn ram_open(self) -> bool {
        self.ram is Some && self.ram_enabled && self.ram_banks != 0
    }

    /// The byte shown at `addr`.
    pub open spec fn read(self, addr: u16) -> u8 {
        if addr <= 0x3FFF {
            rom_byte(self.rom, addr as int)
        } else if addr <= 0x7FFF {
            rom_byte(self.rom, (addr - 0x4000) + self.switchable_bank() * 0x4000)
        } else if 0xA000 <= addr <= 0xBFFF && self.ram_open() {
            ram_byte(self.ram, addr - 0xA000 + self.shown_ram_bank() * 0x2000)
        } else {
            0xFF
        }
    }

    /// The cartridge after `write` is stored at `addr`.
    pub open spec fn write(self, addr: u16, write: u8) -> Self {
        if addr <= 0x1FFF {
            Mbc5View { ram_enabled: write & 0xF == 0xA, ..self }
        } else if addr <= 0x2FFF {
            Mbc5View { rom_bank: write, ..self }
        } else if addr <= 0x3FFF {
            Mbc5View { upper_rom_bank: write & 0x1, ..self }
        } else if addr <= 0x5FFF {
            Mbc5View { ram_bank: write & 0xF, ..self }
        } else if 0xA000 <= addr <= 0xBFFF && self.ram_open() {
            Mbc5View {
                ram: ram_stored(self.ram, addr - 0xA000 + self.shown_ram_bank() * 0x2000, write),
                ..self
            }
        } else {
            self
        }
    }

    /// The cartridge with `sram` as its external RAM.
    pub open spec fn load_sram(self, sram: Seq<u8>) -> Self {
        Mbc5View { ram: Some(sram), ..self }
    }

    /// What is dumped from one cartridge and loaded into another is the
    /// other's external RAM afterwards, byte for byte.
    pub proof fn lemma_save_round_trip(self, fresh: Self)
        ensures
            ram_bytes(fresh.load_sram(ram_bytes(self.ram)).ram) == ram_bytes(self.ram),
    {
    }
}

impl MBC5 {
    /// A cartridge with the image `rom` and, if its type has RAM, `ram_size` bytes of
    /// cleared RAM. Bank 1 is selected and the RAM is disabled.
    pub fn new(rom: Vec<u8>, ram_size: usize) -> (cart: Self)
        requires
            rom@.len() >= 0x150,
            rom@[0x148] <= 8,
        ensures
            cart@ == Mbc5View::spec_new(rom@, ram_size),
            cart@.wf(),
    {
        let has_ram = match rom[0x147] {
            0x1A | 0x1B | 0x1D | 0x1E => true,
            _ => false,
        };
        let has_battery = match rom[0x147] {
            0x1B | 0x1E => true,
            _ => false,
        };
        let ram = if has_ram {
            Some(vec![0u8; ram_size])
        } else {
            None
        };
        let rom_banks = rom_bank_count(rom[0x148]);
        let cart = MBC5 {
            rom: rom,
            ram: ram,
            rom_bank: 1,
            upper_rom_bank: 0,
            ram_bank: 0,
            rom_banks: rom_banks,
            ram_banks: ram_size / 0x2000,
            ram_enabled: false,
            has_battery: has_battery,
        };
        assert(cart@.ram =~= Mbc5View::spec_new(rom@, ram_size).ram);
        cart
    }
}

impl MBC for MBC5 {
    open spec fn spec_wf(&self) -> bool {
        self@.wf()
    }

    open spec fn spec_read(&self, addr: u16) -> u8 {
        self@.read(addr)
    }

    open spec fn spec_wrote(&self, addr: u16, write: u8, after: Self) -> bool {
        after@ == self@.write(addr, write)
    }

    open spec fn spec_is_battery_backed(&self) -> bool {
        self.has_battery
    }

    open spec fn spec_sram(&self) -> Seq<u8> {
        ram_bytes(self@.ram)
    }

    open spec fn spec_loaded(&self, sram: Seq<u8>, after: Self) -> bool {
        after@ == self@.load_sram(sram)
    }

    fn read(&self, addr: u16) -> (r: u8) {
        match addr {
            0..=0x3FFF => rom_at(&self.rom, addr as usize),
            0x4000..=0x7FFF => {
                let bank = (self.upper_rom_bank as usize * 256 + self.rom_bank as usize)
                    % self.rom_banks;
                rom_at(&self.rom, (addr as usize - 0x4000) + 0x4000 * bank)
            },
            0xA000..=0xBFFF => {
                if self.ram.is_some() && self.ram_enabled && self.ram_banks != 0 {
                    let bank = self.ram_bank as usize % self.ram_banks;
                    proof {
                        lemma_mod_decreases(self.ram_bank as nat, self.ram_banks as nat);
                    }
                    ram_at(&self.ram, addr as usize - 0xA000 + bank * 0x2000)
                } else {
                    0xFF
                }
            },
            _ => 0xFF,
        }
    }

    fn write(&mut self, addr: u16, write: u8) {
        proof {
            lemma_byte_fields(write);
        }
        match addr {
            0..=0x1FFF => self.ram_enabled = write & 0xF == 0xA,
            0x2000..=0x2FFF => self.rom_bank = write,
            0x3000..=0x3FFF => self.upper_rom_bank = write & 0x1,
            0x4000..=0x5FFF => self.ram_bank = write & 0xF,
            0xA000..=0xBFFF => {
                if self.ram.is_some() && self.ram_enabled && self.ram_banks != 0 {
                    let bank = self.ram_bank as usize % self.ram_banks;
                    proof {
                        lemma_mod_decreases(self.ram_bank as nat, self.ram_banks as nat);
                    }
                    ram_store(&mut self.ram, addr as usize - 0xA000 + bank * 0x2000, write);
                }
            },
            _ => {},
        }
    }

    fn is_battery_backed(&self) -> (battery: bool) {
        self.has_battery
    }

    fn load_sram(&mut self, sram: Vec<u8>) {
        self.ram = Some(sram);
    }

    fn dump_sram(&self) -> (sram: Vec<u8>) {
        ram_dump(&self.ram)
    }
}

} // verus!

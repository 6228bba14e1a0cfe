//! MBC1: up to 2 MiB of ROM and 32 KiB of RAM.

use vstd::prelude::*;
use vstd::arithmetic::div_mod::lemma_mod_decreases;
use crate::bits::lemma_byte_fields;
use crate::cart::{
    is_rom_bank_count, ram_at, ram_byte, ram_bytes, ram_dump, ram_store, ram_stored, ram_view,
    rom_at, rom_bank_count, rom_byte, spec_rom_bank_count, MBC,
};

verus! {

pub struct MBC1 {
    pub rom: Vec<u8>,
    pub ram: Option<Vec<u8>>,
    /// The 5-bit ROM bank register; never 0.
    pub rom_bank: u16,
    /// The 2-bit secondary register: upper ROM bank bits or the RAM bank.
    pub upper_bank: u8,
    /// The banking mode: set when the secondary register also applies to
    /// the fixed ROM window and to RAM.
    pub banking_mode: bool,
    pub rom_banks: usize,
    pub ram_banks: usize,
    pub ram_enabled: bool,
    pub has_battery: bool,
}

/// The cartridge as a mathematical value.
pub struct Mbc1View {
    pub rom: Seq<u8>,
    pub ram: Option<Seq<u8>>,
    pub rom_bank: u16,
    pub upper_bank: u8,
    pub banking_mode: bool,
    pub rom_banks: usize,
    pub ram_banks: usize,
    pub ram_enabled: bool,
    pub has_battery: bool,
}

impl View for MBC1 {
    type V = Mbc1View;

    open spec fn view(&self) -> Mbc1View {
        Mbc1View {
            rom: self.rom@,
            ram: ram_view(self.ram),
            rom_bank: self.rom_bank,
            upper_bank: self.upper_bank,
            banking_mode: self.banking_mode,
            rom_banks: self.rom_banks,
            ram_banks: self.ram_banks,
            ram_enabled: self.ram_enabled,
            has_battery: self.has_battery,
        }
    }
}

impl Mbc1View {
    /// The registers are within their bits, the ROM bank register is not 0,
    /// and the bank count is one that a header can declare.
    pub open spec fn wf(self) -> bool {
        &&& 1 <= self.rom_bank <= 31
        &&& self.upper_bank <= 3
        &&& is_rom_bank_count(self.rom_banks)
    }

    /// The cartridge as it is made from an image whose header is at hand.
    pub open spec fn spec_new(rom: Seq<u8>, ram_size: usize) -> Self {
        Mbc1View {
            rom: rom,
            ram: if rom[0x147] == 0x2 || rom[0x147] == 0x3 {
                Some(Seq::new(ram_size as nat, |i: int| 0u8))
            } else {
                None
            },
            rom_bank: 1,
            upper_bank: 0,
            banking_mode: false,
            rom_banks: spec_rom_bank_count(rom[0x148]),
            ram_banks: ram_size / 0x2000,
            ram_enabled: false,
            has_battery: rom[0x147] == 0x3,
        }
    }

    /// The ROM bank shown in the fixed window 0x0000-0x3FFF: bank 0, or in
    /// banking mode the bank that the secondary register selects in steps
    /// of 32.
    pub open spec fn fixed_bank(self) -> int {
        (if self.banking_mode {
            self.upper_bank * 32
        } else {
            0
        }) % (self.rom_banks as int)
    }

    /// The ROM bank shown in the switchable window 0x4000-0x7FFF: the bank
    /// register with the secondary register as its bits 5 and 6, reduced
    /// modulo the number of banks.
    pub open spec fn switchable_bank(self) -> int {
        (self.rom_bank + self.upper_bank * 32) % (self.rom_banks as int)
    }

    /// The RAM bank shown in the window 0xA000-0xBFFF.
    pub open spec fn ram_bank(self) -> int {
        (if self.banking_mode {
            self.upper_bank as int
        } else {
            0
        }) % (self.ram_banks as int)
    }

    /// Whether the RAM window shows RAM.
    pub open spec fn ram_open(self) -> bool {
        self.ram is Some && self.ram_enabled && self.ram_banks != 0
    }

    /// The byte shown at `addr`.
    pub open spec fn read(self, addr: u16) -> u8 {
        if addr <= 0x3FFF {
            rom_byte(self.rom, addr + self.fixed_bank() * 0x4000)
        } else if addr <= 0x7FFF {
            rom_byte(self.rom, (addr - 0x4000) + self.switchable_bank() * 0x4000)
        } else if 0xA000 <= addr <= 0xBFFF && self.ram_open() {
            ram_byte(self.ram, addr - 0xA000 + self.ram_bank() * 0x2000)
        } else {
            0xFF
        }
    }

    /// The cartridge after `write` is stored at `addr`.
    pub open spec fn write(self, addr: u16, write: u8) -> Self {
        if addr <= 0x1FFF {
            Mbc1View { ram_enabled: write & 0xF == 0xA, ..self }
        } else if addr <= 0x3FFF {
            Mbc1View {
                rom_bank: if write & 0x1F == 0 {
                    1
                } else {
                    (write & 0x1F) as u16
                },
                ..self
            }
        } else if addr <= 0x5FFF {
            Mbc1View { upper_bank: write & 0x3, ..self }
        } else if addr <= 0x7FFF {
            Mbc1View { banking_mode: write & 0x1 != 0, ..self }
        } else if 0xA000 <= addr <= 0xBFFF && self.ram_open() {
            Mbc1View {
                ram: ram_stored(self.ram, addr - 0xA000 + self.ram_bank() * 0x2000, write),
                ..self
            }
        } else {
            self
        }
    }

    /// The cartridge with `sram` as its external RAM.
    pub open spec fn load_sram(self, sram: Seq<u8>) -> Self {
        Mbc1View { ram: Some(sram), ..self }
    }

    /// After 0 is written to the ROM bank register, the switchable window
    /// does not show bank 0; it shows bank 1 unless the secondary register
    /// selects a higher group of banks.
    pub proof fn lemma_bank_zero_reads_bank_one(self, addr: u16, write: u8, offset: u16)
        requires
            self.wf(),
            0x2000 <= addr <= 0x3FFF,
            write & 0x1F == 0,
            offset < 0x4000,
        ensures
            self.write(addr, write).switchable_bank() != 0,
            self.upper_bank == 0 ==> self.write(addr, write).switchable_bank() == 1,
            self.write(addr, write).read((0x4000 + offset) as u16) == rom_byte(
                self.rom,
                offset + self.write(addr, write).switchable_bank() * 0x4000,
            ),
            self.upper_bank == 0 ==> self.write(addr, write).read((0x4000 + offset) as u16)
                == rom_byte(self.rom, 0x4000 + offset),
    {
        let bank = 1 + self.upper_bank * 32;
        let after = self.write(addr, write);
        assert(after.rom_bank == 1);
        assert(after.switchable_bank() == bank % (self.rom_banks as int));
        assert(bank % 2 == 1 && bank % 4 != 0 && bank % 8 != 0 && bank % 16 != 0 && bank % 32
            != 0);
        assert(bank % 64 != 0 && bank % 128 != 0 && bank % 256 != 0 && bank % 512 != 0);
        assert(1int % 2 == 1 && 1int % 4 == 1 && 1int % 8 == 1 && 1int % 16 == 1 && 1int % 32
            == 1);
        assert(1int % 64 == 1 && 1int % 128 == 1 && 1int % 256 == 1 && 1int % 512 == 1);
    }

    /// What is dumped from one cartridge and loaded into another is the
    /// other's external RAM afterwards, byte for byte.
    pub proof fn lemma_save_round_trip(self, fresh: Self)
        ensures
            ram_bytes(fresh.load_sram(ram_bytes(self.ram)).ram) == ram_bytes(self.ram),
    {
    }
}

impl MBC1 {
    /// A cartridge with the image `rom` and, if its type has RAM, `ram_size` bytes of
    /// cleared RAM. Bank 1 is selected and the RAM is disabled.
    pub fn new(rom: Vec<u8>, ram_size: usize) -> (cart: Self)
        requires
            rom@.len() >= 0x150,
            rom@[0x148] <= 8,
        ensures
            cart@ == Mbc1View::spec_new(rom@, ram_size),
            cart@.wf(),
    {
        let has_ram = match rom[0x147] {
            0x2 | 0x3 => true,
            _ => false,
        };
        let has_battery = rom[0x147] == 0x3;
        let ram = if has_ram {
            Some(vec![0u8; ram_size])
        } else {
            None
        };
        let rom_banks = rom_bank_count(rom[0x148]);
        let cart = MBC1 {
            rom: rom,
            ram: ram,
            rom_bank: 1,
            upper_bank: 0,
            banking_mode: false,
            rom_banks: rom_banks,
            ram_banks: ram_size / 0x2000,
            ram_enabled: false,
            has_battery: has_battery,
        };
        assert(cart@.ram =~= Mbc1View::spec_new(rom@, ram_size).ram);
        cart
    }
}

impl MBC for MBC1 {
    open spec fn spec_wf(&self) -> bool {
        self@.wf()
    }

    open spec fn spec_read(&self, addr: u16) -> u8 {
        self@.read(addr)
    }

    open spec fn spec_wrote(&self, addr: u16, write: u8, after: Self) -> bool {
        after@ == self@.write(addr, write)
    }

    open spec fn spec_is_battery_backed(&self) -> bool {
        self.has_battery
    }

    open spec fn spec_sram(&self) -> Seq<u8> {
        ram_bytes(self@.ram)
    }

    open spec fn spec_loaded(&self, sram: Seq<u8>, after: Self) -> bool {
        after@ == self@.load_sram(sram)
    }

    fn read(&self, addr: u16) -> (r: u8) {
        match addr {
            0..=0x3FFF => {
                let bank = (if self.banking_mode {
                    self.upper_bank as usize * 32
                } else {
                    0
                }) % self.rom_banks;
                rom_at(&self.rom, addr as usize + bank * 0x4000)
            },
            0x4000..=0x7FFF => {
                let bank = (self.rom_bank as usize + self.upper_bank as usize * 32)
                    % self.rom_banks;
                rom_at(&self.rom, (addr as usize - 0x4000) + 0x4000 * bank)
            },
            0xA000..=0xBFFF => {
                if self.ram.is_some() && self.ram_enabled && self.ram_banks != 0 {
                    let bank = (if self.banking_mode {
                        self.upper_bank as usize
                    } else {
                        0
                    }) % self.ram_banks;
                    proof {
                        lemma_mod_decreases(
                            (if self.banking_mode {
                                self.upper_bank as nat
                            } else {
                                0
                            }),
                            self.ram_banks as nat,
                        );
                    }
                    ram_at(&self.ram, addr as usize - 0xA000 + bank * 0x2000)
                } else {
                    0xFF
                }
            },
            _ => 0xFF,
        }
    }

    fn write(&mut self, addr: u16, write: u8) {
        proof {
            lemma_byte_fields(write);
        }
        match addr {
            0..=0x1FFF => self.ram_enabled = write & 0xF == 0xA,
            0x2000..=0x3FFF => {
                self.rom_bank = (write & 0x1F) as u16;
                if self.rom_bank == 0 {
                    self.rom_bank = 1;
                }
            },
            0x4000..=0x5FFF => {
                self.upper_bank = write & 0x3;
            },
            0x6000..=0x7FFF => {
                self.banking_mode = (write & 0x1) != 0;
            },
            0xA000..=0xBFFF => {
                if self.ram.is_some() && self.ram_enabled && self.ram_banks != 0 {
                    let bank = (if self.banking_mode {
                        self.upper_bank as usize
                    } else {
                        0
                    }) % self.ram_banks;
                    proof {
                        lemma_mod_decreases(
                            (if self.banking_mode {
                                self.upper_bank as nat
                            } else {
                                0
                            }),
                            self.ram_banks as nat,
                        );
                    }
                    ram_store(&mut self.ram, addr as usize - 0xA000 + bank * 0x2000, write);
                }
            },
            _ => {},
        }
    }

    fn is_battery_backed(&self) -> (battery: bool) {
        self.has_battery
    }

    fn load_sram(&mut self, sram: Vec<u8>) {
        self.ram = Some(sram);
    }

    fn dump_sram(&self) -> (sram: Vec<u8>) {
        ram_dump(&self.ram)
    }
}

} // verus!

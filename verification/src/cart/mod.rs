//! Cartridges: the ROM image, the optional external RAM and the memory bank
//! controller that maps both into the address space.

pub mod mbc0;
pub mod mbc1;
pub mod mbc2;
pub mod mbc3;
pub mod mbc5;

use vstd::prelude::*;
use crate::cart::mbc0::{Mbc0View, MBC0};
use crate::cart::mbc1::{Mbc1View, MBC1};
use crate::cart::mbc2::{Mbc2View, MBC2};
use crate::cart::mbc3::{Mbc3View, MBC3};
use crate::cart::mbc5::{Mbc5View, MBC5};

verus! {

/// Offset of the cartridge-type byte in the header.
pub const HEADER_TYPE: usize = 0x147;

/// Offset of the ROM-size code in the header.
pub const HEADER_ROM_SIZE: usize = 0x148;

/// Offset of the RAM-size code in the header.
pub const HEADER_RAM_SIZE: usize = 0x149;

/// The length of an image that holds a whole header.
pub const HEADER_END: usize = 0x150;

/// Why an image cannot be loaded.
#[derive(Clone, Copy, Debug, PartialEq, Eq, Structural)]
pub enum LoadError {
    /// The cartridge-type byte names a controller that is not emulated.
    UnsupportedMbc(u8),
    /// The image ends before its header does, or holds less ROM than its
    /// header declares.
    Truncated,
}

/// The five kinds of controller.
#[derive(Clone, Copy, Debug, PartialEq, Eq, Structural)]
pub enum MbcKind {
    Mbc0,
    Mbc1,
    Mbc2,
    Mbc3,
    Mbc5,
}

/// The byte of `rom` at `index`, or 0xFF where the image has none.
pub open spec fn rom_byte(rom: Seq<u8>, index: int) -> u8 {
    if 0 <= index < rom.len() {
        rom[index]
    } else {
        0xFF
    }
}

/// The byte of external RAM at `index`, or 0xFF where there is none.
pub open spec fn ram_byte(ram: Option<Seq<u8>>, index: int) -> u8 {
    match ram {
        Some(bytes) => if 0 <= index < bytes.len() {
            bytes[index]
        } else {
            0xFF
        },
        None => 0xFF,
    }
}

/// External RAM after `write` is stored at `index`; a store outside it
/// changes nothing.
pub open spec fn ram_stored(ram: Option<Seq<u8>>, index: int, write: u8) -> Option<Seq<u8>> {
    match ram {
        Some(bytes) => if 0 <= index < bytes.len() {
            Some(bytes.update(index, write))
        } else {
            ram
        },
        None => ram,
    }
}

/// The bytes that a save file of this RAM holds.
pub open spec fn ram_bytes(ram: Option<Seq<u8>>) -> Seq<u8> {
    match ram {
        Some(bytes) => bytes,
        None => Seq::empty(),
    }
}

/// The contents of external RAM as a mathematical value.
pub open spec fn ram_view(ram: Option<Vec<u8>>) -> Option<Seq<u8>> {
    match ram {
        Some(bytes) => Some(bytes@),
        None => None,
    }
}

/// The number of 16 KiB ROM banks that size code `code` declares: 2 for
/// code 0, doubling with each step up to 512 for code 8.
pub open spec fn spec_rom_bank_count(code: u8) -> usize {
    if code == 0 {
        2
    } else if code == 1 {
        4
    } else if code == 2 {
        8
    } else if code == 3 {
        16
    } else if code == 4 {
        32
    } else if code == 5 {
        64
    } else if code == 6 {
        128
    } else if code == 7 {
        256
    } else {
        512
    }
}

/// Whether `banks` is a bank count that a size code declares.
pub open spec fn is_rom_bank_count(banks: usize) -> bool {
    banks == 2 || banks == 4 || banks == 8 || banks == 16 || banks == 32 || banks == 64 || banks
        == 128 || banks == 256 || banks == 512
}

/// The number of bytes of external RAM that size code `code` declares.
pub open spec fn spec_ram_size(code: u8) -> usize {
    if code == 2 {
        0x2000
    } else if code == 3 {
        0x8000
    } else if code == 4 {
        0x20000
    } else if code == 5 {
        0x10000
    } else {
        0
    }
}

/// The controller that cartridge-type byte `kind` selects, if it is one of
/// those emulated.
pub open spec fn spec_mbc_kind(kind: u8) -> Option<MbcKind> {
    if kind == 0x00 {
        Some(MbcKind::Mbc0)
    } else if 0x01 <= kind <= 0x03 {
        Some(MbcKind::Mbc1)
    } else if 0x05 <= kind <= 0x06 {
        Some(MbcKind::Mbc2)
    } else if 0x0F <= kind <= 0x13 {
        Some(MbcKind::Mbc3)
    } else if 0x19 <= kind <= 0x1E {
        Some(MbcKind::Mbc5)
    } else {
        None
    }
}

/// Why `rom` cannot be loaded, if it cannot.
pub open spec fn spec_load_error(rom: Seq<u8>) -> Option<LoadError> {
    if rom.len() < 0x150 {
        Some(LoadError::Truncated)
    } else if spec_mbc_kind(rom[0x147]) is None {
        Some(LoadError::UnsupportedMbc(rom[0x147]))
    } else if rom[0x148] > 8 || rom.len() < spec_rom_bank_count(rom[0x148]) * 0x4000 {
        Some(LoadError::Truncated)
    } else {
        None
    }
}

/// The number of 16 KiB ROM banks that size code `code` declares.
#[verifier::when_used_as_spec(spec_rom_bank_count)]
pub fn rom_bank_count(code: u8) -> (banks: usize)
    requires
        code <= 8,
    ensures
        banks == spec_rom_bank_count(code),
        is_rom_bank_count(banks),
{
    match code {
        0 => 2,
        1 => 4,
        2 => 8,
        3 => 16,
        4 => 32,
        5 => 64,
        6 => 128,
        7 => 256,
        _ => 512,
    }
}

/// The byte of `rom` at `index`, or 0xFF where the image has none.
pub fn rom_at(rom: &Vec<u8>, index: usize) -> (r: u8)
    ensures
        r == rom_byte(rom@, index as int),
{
    if index < rom.len() {
        rom[index]
    } else {
        0xFF
    }
}

/// The byte of external RAM at `index`, or 0xFF where there is none.
pub fn ram_at(ram: &Option<Vec<u8>>, index: usize) -> (r: u8)
    ensures
        r == ram_byte(ram_view(*ram), index as int),
{
    match ram {
        Some(bytes) => if index < bytes.len() {
            bytes[index]
        } else {
            0xFF
        },
        None => 0xFF,
    }
}

/// Stores `write` in external RAM at `index`, if there is such a byte.
pub fn ram_store(ram: &mut Option<Vec<u8>>, index: usize, write: u8)
    ensures
        ram_view(*final(ram)) == ram_stored(ram_view(*old(ram)), index as int, write),
{
    match ram {
        Some(bytes) => {
            if index < bytes.len() {
                bytes[index] = write;
            }
        },
        None => {},
    }
}

/// A copy of `bytes`.
pub fn copy_bytes(bytes: &Vec<u8>) -> (copy: Vec<u8>)
    ensures
        copy@ == bytes@,
{
    let mut copy: Vec<u8> = Vec::new();
    let mut i: usize = 0;
    while i < bytes.len()
        invariant
            i <= bytes@.len(),
            copy@ == bytes@.take(i as int),
        decreases bytes@.len() - i,
    {
        copy.push(bytes[i]);
        i += 1;
        assert(bytes@.take(i as int) =~= bytes@.take(i - 1).push(bytes@[i - 1]));
    }
    assert(bytes@.take(i as int) =~= bytes@);
    copy
}

/// The bytes that a save file of this RAM holds.
pub fn ram_dump(ram: &Option<Vec<u8>>) -> (sram: Vec<u8>)
    ensures
        sram@ == ram_bytes(ram_view(*ram)),
{
    match ram {
        Some(bytes) => copy_bytes(bytes),
        None => Vec::new(),
    }
}

/// What every memory bank controller offers to the bus.
pub trait MBC: Sized {
    /// The controller's invariant.
    spec fn spec_wf(&self) -> bool;

    /// The byte that the cartridge shows at `addr`.
    spec fn spec_read(&self, addr: u16) -> u8;

    /// Whether `after` is this cartridge after `write` was stored at `addr`.
    spec fn spec_wrote(&self, addr: u16, write: u8, after: Self) -> bool;

    /// Whether the cartridge keeps its RAM when the power is off.
    spec fn spec_is_battery_backed(&self) -> bool;

    /// The contents of external RAM, as a save file holds them.
    spec fn spec_sram(&self) -> Seq<u8>;

    /// Whether `after` is this cartridge with `sram` as its external RAM.
    spec fn spec_loaded(&self, sram: Seq<u8>, after: Self) -> bool;

    fn read(&self, addr: u16) -> (r: u8)
        requires
            self.spec_wf(),
        ensures
            r == self.spec_read(addr),
    ;

    fn write(&mut self, addr: u16, write: u8)
        requires
            old(self).spec_wf(),
        ensures
            final(self).spec_wf(),
            old(self).spec_wrote(addr, write, *final(self)),
    ;

    fn is_battery_backed(&self) -> (battery: bool)
        ensures
            battery == self.spec_is_battery_backed(),
    ;

    fn load_sram(&mut self, sram: Vec<u8>)
        requires
            old(self).spec_wf(),
        ensures
            final(self).spec_wf(),
            old(self).spec_loaded(sram@, *final(self)),
            old(self).spec_is_battery_backed() ==> final(self).spec_sram() == sram@,
    ;

    fn dump_sram(&self) -> (sram: Vec<u8>)
        ensures
            sram@ == self.spec_sram(),
    ;
}

/// A cartridge: one of the five controllers with its ROM and RAM.
pub enum Cartridge {
    Mbc0(MBC0),
    Mbc1(MBC1),
    Mbc2(MBC2),
    Mbc3(MBC3),
    Mbc5(MBC5),
}

/// A cartridge as a mathematical value.
pub enum CartridgeView {
    Mbc0(Mbc0View),
    Mbc1(Mbc1View),
    Mbc2(Mbc2View),
    Mbc3(Mbc3View),
    Mbc5(Mbc5View),
}

impl View for Cartridge {
    type V = CartridgeView;

    open spec fn view(&self) -> CartridgeView {
        match self {
            Cartridge::Mbc0(cart) => CartridgeView::Mbc0(cart@),
            Cartridge::Mbc1(cart) => CartridgeView::Mbc1(cart@),
            Cartridge::Mbc2(cart) => CartridgeView::Mbc2(cart@),
            Cartridge::Mbc3(cart) => CartridgeView::Mbc3(cart@),
            Cartridge::Mbc5(cart) => CartridgeView::Mbc5(cart@),
        }
    }
}

impl CartridgeView {
    /// The invariant of the controller.
    pub open spec fn wf(self) -> bool {
        match self {
            CartridgeView::Mbc0(cart) => true,
            CartridgeView::Mbc1(cart) => cart.wf(),
            CartridgeView::Mbc2(cart) => cart.wf(),
            CartridgeView::Mbc3(cart) => cart.wf(),
            CartridgeView::Mbc5(cart) => cart.wf(),
        }
    }

    /// The cartridge that is made from the image `rom`, which can be loaded.
    pub open spec fn spec_create(rom: Seq<u8>) -> Self {
        let ram_size = spec_ram_size(rom[0x149]);
        match spec_mbc_kind(rom[0x147]) {
            Some(MbcKind::Mbc1) => CartridgeView::Mbc1(Mbc1View::spec_new(rom, ram_size)),
            Some(MbcKind::Mbc2) => CartridgeView::Mbc2(Mbc2View::spec_new(rom)),
            Some(MbcKind::Mbc3) => CartridgeView::Mbc3(Mbc3View::spec_new(rom, ram_size)),
            Some(MbcKind::Mbc5) => CartridgeView::Mbc5(Mbc5View::spec_new(rom, ram_size)),
            _ => CartridgeView::Mbc0(Mbc0View { rom: rom }),
        }
    }

    /// The byte shown at `addr`.
    pub open spec fn read(self, addr: u16) -> u8 {
        match self {
            CartridgeView::Mbc0(cart) => cart.read(addr),
            CartridgeView::Mbc1(cart) => cart.read(addr),
            CartridgeView::Mbc2(cart) => cart.read(addr),
            CartridgeView::Mbc3(cart) => cart.read(addr),
            CartridgeView::Mbc5(cart) => cart.read(addr),
        }
    }

    /// The cartridge after `write` is stored at `addr`.
    pub open spec fn write(self, addr: u16, write: u8) -> Self {
        match self {
            CartridgeView::Mbc0(cart) => self,
            CartridgeView::Mbc1(cart) => CartridgeView::Mbc1(cart.write(addr, write)),
            CartridgeView::Mbc2(cart) => CartridgeView::Mbc2(cart.write(addr, write)),
            CartridgeView::Mbc3(cart) => CartridgeView::Mbc3(cart.write(addr, write)),
            CartridgeView::Mbc5(cart) => CartridgeView::Mbc5(cart.write(addr, write)),
        }
    }

    /// Whether the cartridge keeps its RAM when the power is off.
    pub open spec fn is_battery_backed(self) -> bool {
        match self {
            CartridgeView::Mbc0(cart) => false,
            CartridgeView::Mbc1(cart) => cart.has_battery,
            CartridgeView::Mbc2(cart) => cart.has_battery,
            CartridgeView::Mbc3(cart) => cart.has_battery,
            CartridgeView::Mbc5(cart) => cart.has_battery,
        }
    }

    /// The contents of external RAM, as a save file holds them.
    pub open spec fn sram(self) -> Seq<u8> {
        match self {
            CartridgeView::Mbc0(cart) => Seq::empty(),
            CartridgeView::Mbc1(cart) => ram_bytes(cart.ram),
            CartridgeView::Mbc2(cart) => cart.ram,
            CartridgeView::Mbc3(cart) => ram_bytes(cart.ram),
            CartridgeView::Mbc5(cart) => ram_bytes(cart.ram),
        }
    }

    /// The cartridge with `sram` as its external RAM.
    pub open spec fn load_sram(self, sram: Seq<u8>) -> Self {
        match self {
            CartridgeView::Mbc0(cart) => self,
            CartridgeView::Mbc1(cart) => CartridgeView::Mbc1(cart.load_sram(sram)),
            CartridgeView::Mbc2(cart) => CartridgeView::Mbc2(cart.load_sram(sram)),
            CartridgeView::Mbc3(cart) => CartridgeView::Mbc3(cart.load_sram(sram)),
            CartridgeView::Mbc5(cart) => CartridgeView::Mbc5(cart.load_sram(sram)),
        }
    }

    /// A save file written from one cartridge and read into a fresh one with
    /// a controller that has RAM gives the fresh one the same external RAM,
    /// byte for byte.
    pub proof fn lemma_save_round_trip(self, fresh: Self)
        requires
            !(fresh is Mbc0),
        ensures
            fresh.load_sram(self.sram()).sram() == self.sram(),
    {
    }
}

impl MBC for Cartridge {
    open spec fn spec_wf(&self) -> bool {
        self@.wf()
    }

    open spec fn spec_read(&self, addr: u16) -> u8 {
        self@.read(addr)
    }

    open spec fn spec_wrote(&self, addr: u16, write: u8, after: Self) -> bool {
        after@ == self@.write(addr, write)
    }

    open spec fn spec_is_battery_backed(&self) -> bool {
        self@.is_battery_backed()
    }

    open spec fn spec_sram(&self) -> Seq<u8> {
        self@.sram()
    }

    open spec fn spec_loaded(&self, sram: Seq<u8>, after: Self) -> bool {
        after@ == self@.load_sram(sram)
    }

    fn read(&self, addr: u16) -> (r: u8) {
        match self {
            Cartridge::Mbc0(cart) => cart.read(addr),
            Cartridge::Mbc1(cart) => cart.read(addr),
            Cartridge::Mbc2(cart) => cart.read(addr),
            Cartridge::Mbc3(cart) => cart.read(addr),
            Cartridge::Mbc5(cart) => cart.read(addr),
        }
    }

    fn write(&mut self, addr: u16, write: u8) {
        match self {
            Cartridge::Mbc0(cart) => cart.write(addr, write),
            Cartridge::Mbc1(cart) => cart.write(addr, write),
            Cartridge::Mbc2(cart) => cart.write(addr, write),
            Cartridge::Mbc3(cart) => cart.write(addr, write),
            Cartridge::Mbc5(cart) => cart.write(addr, write),
        }
    }

    fn is_battery_backed(&self) -> (battery: bool) {
        match self {
            Cartridge::Mbc0(cart) => cart.is_battery_backed(),
            Cartridge::Mbc1(cart) => cart.is_battery_backed(),
            Cartridge::Mbc2(cart) => cart.is_battery_backed(),
            Cartridge::Mbc3(cart) => cart.is_battery_backed(),
            Cartridge::Mbc5(cart) => cart.is_battery_backed(),
        }
    }

    fn load_sram(&mut self, sram: Vec<u8>) {
        match self {
            Cartridge::Mbc0(cart) => cart.load_sram(sram),
            Cartridge::Mbc1(cart) => cart.load_sram(sram),
            Cartridge::Mbc2(cart) => cart.load_sram(sram),
            Cartridge::Mbc3(cart) => cart.load_sram(sram),
            Cartridge::Mbc5(cart) => cart.load_sram(sram),
        }
    }

    fn dump_sram(&self) -> (sram: Vec<u8>) {
        match self {
            Cartridge::Mbc0(cart) => cart.dump_sram(),
            Cartridge::Mbc1(cart) => cart.dump_sram(),
            Cartridge::Mbc2(cart) => cart.dump_sram(),
            Cartridge::Mbc3(cart) => cart.dump_sram(),
            Cartridge::Mbc5(cart) => cart.dump_sram(),
        }
    }
}

/// The number of bytes of external RAM that size code `code` declares.
#[verifier::when_used_as_spec(spec_ram_size)]
pub fn ram_size(code: u8) -> (size: usize)
    ensures
        size == spec_ram_size(code),
{
    match code {
        2 => 0x2000,
        3 => 0x8000,
        4 => 0x20000,
        5 => 0x10000,
        _ => 0,
    }
}

/// Makes the cartridge that the image `rom` describes.
///
/// An image shorter than its header, or shorter than the ROM that the header
/// declares, is refused as truncated, and one with a cartridge type that is
/// not emulated as unsupported.
pub fn create_cart(rom: Vec<u8>) -> (loaded: Result<Cartridge, LoadError>)
    ensures
        match loaded {
            Ok(cart) => spec_load_error(rom@) is None && cart@ == CartridgeView::spec_create(rom@)
                && cart@.wf(),
            Err(error) => spec_load_error(rom@) == Some(error),
        },
{
    if rom.len() < HEADER_END {
        return Err(LoadError::Truncated);
    }
    let kind = rom[HEADER_TYPE];
    let supported = match kind {
        0x00 | 0x01..=0x03 | 0x05..=0x06 | 0x0F..=0x13 | 0x19..=0x1E => true,
        _ => false,
    };
    if !supported {
        return Err(LoadError::UnsupportedMbc(kind));
    }
    let rom_code = rom[HEADER_ROM_SIZE];
    if rom_code > 8 {
        return Err(LoadError::Truncated);
    }
    if rom.len() < rom_bank_count(rom_code) * 0x4000 {
        return Err(LoadError::Truncated);
    }
    let ram_size = ram_size(rom[HEADER_RAM_SIZE]);
    let cart = match kind {
        0x00 => Cartridge::Mbc0(MBC0::new(rom)),
        0x01..=0x03 => Cartridge::Mbc1(MBC1::new(rom, ram_size)),
        0x05..=0x06 => Cartridge::Mbc2(MBC2::new(rom)),
        0x0F..=0x13 => Cartridge::Mbc3(MBC3::new(rom, ram_size)),
        _ => Cartridge::Mbc5(MBC5::new(rom, ram_size)),
    };
    Ok(cart)
}

} // verus!

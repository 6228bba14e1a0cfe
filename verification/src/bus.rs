//! The memory bus: the one place where every address finds its owner.
//!
//! | addresses     | owner                                   |
//! |---------------|-----------------------------------------|
//! | 0x0000-0x7FFF | cartridge ROM, or the boot ROM overlay  |
//! | 0x8000-0x9FFF | video RAM                               |
//! | 0xA000-0xBFFF | cartridge RAM                           |
//! | 0xC000-0xDFFF | work RAM                                |
//! | 0xFE00-0xFE9F | object attribute memory                 |
//! | 0xFF00-0xFF7F | I/O registers                           |
//! | 0xFF80-0xFFFE | high RAM                                |
//! | 0xFFFF        | interrupt enable                        |
//!
//! An address without an owner reads as 0xFF and ignores writes.

use vstd::prelude::*;
use vstd::array::spec_array_update;
use crate::apu::APU;
use crate::cart::{rom_at, rom_byte, Cartridge, CartridgeView, MBC};
use crate::interrupt::Interrupt;
use crate::joypad::{GBInput, Joypad};
use crate::ppu::PPU;
use crate::timer::Timer;

verus! {

/// The registers that the rest of the machine looks at by name.
#[derive(Clone, Copy, Debug, PartialEq, Eq, Structural)]
pub enum MemRegister {
    /// Interrupt enable.
    IE,
    /// Interrupt flags.
    IF,
    /// The line counter.
    LY,
    LYC,
    SCY,
    SCX,
    WX,
    WY,
    STAT,
    LCDC,
    BGP,
}

impl MemRegister {
    /// The address of the register.
    pub open spec fn spec_address(self) -> u16 {
        match self {
            MemRegister::IE => 0xFFFF,
            MemRegister::IF => 0xFF0F,
            MemRegister::LY => 0xFF44,
            MemRegister::LYC => 0xFF45,
            MemRegister::SCY => 0xFF42,
            MemRegister::SCX => 0xFF43,
            MemRegister::WX => 0xFF4B,
            MemRegister::WY => 0xFF4A,
            MemRegister::STAT => 0xFF41,
            MemRegister::LCDC => 0xFF40,
            MemRegister::BGP => 0xFF47,
        }
    }

    /// The address of the register.
    #[verifier::when_used_as_spec(spec_address)]
    pub fn address(self) -> (addr: u16)
        ensures
            addr == self.spec_address(),
    {
        match self {
            MemRegister::IE => 0xFFFF,
            MemRegister::IF => 0xFF0F,
            MemRegister::LY => 0xFF44,
            MemRegister::LYC => 0xFF45,
            MemRegister::SCY => 0xFF42,
            MemRegister::SCX => 0xFF43,
            MemRegister::WX => 0xFF4B,
            MemRegister::WY => 0xFF4A,
            MemRegister::STAT => 0xFF41,
            MemRegister::LCDC => 0xFF40,
            MemRegister::BGP => 0xFF47,
        }
    }
}

pub struct Bus {
    pub cart: Cartridge,
    pub intf: Interrupt,
    pub timer: Timer,
    pub ppu: PPU,
    pub apu: APU,
    pub joypad: Joypad,
    /// 0xFF46: the page that the last OAM transfer copied.
    pub dma_src: u8,
    /// 0xFF01: the serial data register.
    pub serial_data: u8,
    /// 0xFF02: the serial control register.
    pub serial_control: u8,
    pub wram: [u8; 0x2000],
    pub hram: [u8; 0x7F],
    /// The boot image that overlays the first 256 bytes while it is loaded.
    pub bootrom: Vec<u8>,
    pub bootrom_loaded: bool,
}

/// The bus and all that hangs on it as a mathematical value.
pub struct BusView {
    pub cart: CartridgeView,
    pub intf: Interrupt,
    pub timer: Timer,
    pub ppu: PPU,
    pub apu: APU,
    pub joypad: Joypad,
    pub dma_src: u8,
    pub serial_data: u8,
    pub serial_control: u8,
    pub wram: [u8; 0x2000],
    pub hram: [u8; 0x7F],
    pub bootrom: Seq<u8>,
    pub bootrom_loaded: bool,
}

impl View for Bus {
    type V = BusView;

    open spec fn view(&self) -> BusView {
        BusView {
            cart: self.cart@,
            intf: self.intf,
            timer: self.timer,
            ppu: self.ppu,
            apu: self.apu,
            joypad: self.joypad,
            dma_src: self.dma_src,
            serial_data: self.serial_data,
            serial_control: self.serial_control,
            wram: self.wram,
            hram: self.hram,
            bootrom: self.bootrom@,
            bootrom_loaded: self.bootrom_loaded,
        }
    }
}

impl BusView {
    /// Every component keeps its invariant.
    pub open spec fn wf(self) -> bool {
        &&& self.cart.wf()
        &&& self.timer.wf()
        &&& self.ppu.wf()
        &&& self.apu.wf()
    }

    /// Whether the bus is as it is at power-up with the cartridge `cart` in
    /// the slot: every component at power-up, work RAM and high RAM filled
    /// with 0xFF, and no boot ROM.
    pub open spec fn is_power_up(self, cart: CartridgeView) -> bool {
        &&& self.cart == cart
        &&& self.intf == (Interrupt { enable: 0, flags: 0 })
        &&& self.timer == Timer::spec_new()
        &&& self.ppu.is_power_up()
        &&& self.apu.is_power_up()
        &&& self.joypad == (Joypad { dpad_state: 0xF, btn_state: 0xF, select: 0 })
        &&& self.dma_src == 0
        &&& self.serial_data == 0
        &&& self.serial_control == 0
        &&& forall|i: int| 0 <= i < 0x2000 ==> self.wram[i] == 0xFF
        &&& forall|i: int| 0 <= i < 0x7F ==> self.hram[i] == 0xFF
        &&& self.bootrom.len() == 0
        &&& !self.bootrom_loaded
    }

    /// The byte read at `addr`.
    #[verifier::opaque]
    pub open spec fn read_byte(self, addr: u16) -> u8 {
        if addr <= 0xFF && self.bootrom_loaded {
            rom_byte(self.bootrom, addr as int)
        } else if addr <= 0x7FFF {
            self.cart.read(addr)
        } else if addr <= 0x9FFF {
            self.ppu.spec_read(addr)
        } else if addr <= 0xBFFF {
            self.cart.read(addr)
        } else if addr <= 0xDFFF {
            self.wram[addr - 0xC000]
        } else if 0xFE00 <= addr <= 0xFE9F {
            self.ppu.spec_read(addr)
        } else if addr == 0xFF00 {
            self.joypad.spec_read()
        } else if addr == 0xFF01 {
            self.serial_data
        } else if addr == 0xFF02 {
            self.serial_control
        } else if 0xFF04 <= addr <= 0xFF07 {
            self.timer.spec_read(addr)
        } else if addr == 0xFF0F || addr == 0xFFFF {
            self.intf.spec_read(addr)
        } else if 0xFF10 <= addr <= 0xFF26 || 0xFF30 <= addr <= 0xFF3F {
            self.apu.spec_read_byte(addr)
        } else if addr == 0xFF46 {
            self.dma_src
        } else if 0xFF40 <= addr <= 0xFF4B {
            self.ppu.spec_read(addr)
        } else if 0xFF80 <= addr <= 0xFFFE {
            self.hram[addr - 0xFF80]
        } else {
            0xFF
        }
    }

    /// The bus after `write` is stored at `addr`, for every address but the
    /// one that starts an OAM transfer. A write to 0xFF50 switches the boot
    /// ROM overlay off for good.
    #[verifier::opaque]
    pub open spec fn store(self, addr: u16, write: u8) -> Self {
        if addr <= 0x7FFF {
            BusView { cart: self.cart.write(addr, write), ..self }
        } else if addr <= 0x9FFF {
            BusView { ppu: self.ppu.spec_write(addr, write), ..self }
        } else if addr <= 0xBFFF {
            BusView { cart: self.cart.write(addr, write), ..self }
        } else if addr <= 0xDFFF {
            BusView { wram: spec_array_update(self.wram, addr - 0xC000, write), ..self }
        } else if 0xFE00 <= addr <= 0xFE9F {
            BusView { ppu: self.ppu.spec_write(addr, write), ..self }
        } else if addr == 0xFF00 {
            BusView { joypad: self.joypad.spec_write(write), ..self }
        } else if addr == 0xFF01 {
            BusView { serial_data: write, ..self }
        } else if addr == 0xFF02 {
            BusView { serial_control: write, ..self }
        } else if 0xFF04 <= addr <= 0xFF07 {
            BusView { timer: self.timer.spec_write(addr, write), ..self }
        } else if addr == 0xFF0F || addr == 0xFFFF {
            BusView { intf: self.intf.spec_write(addr, write), ..self }
        } else if 0xFF10 <= addr <= 0xFF26 || 0xFF30 <= addr <= 0xFF3F {
            BusView { apu: self.apu.spec_write_byte(addr, write), ..self }
        } else if 0xFF40 <= addr <= 0xFF4B && addr != 0xFF46 {
            BusView { ppu: self.ppu.spec_write(addr, write), ..self }
        } else if addr == 0xFF50 {
            BusView { bootrom_loaded: false, ..self }
        } else if 0xFF80 <= addr <= 0xFFFE {
            BusView { hram: spec_array_update(self.hram, addr - 0xFF80, write), ..self }
        } else {
            self
        }
    }

    /// The bus after the first `n` bytes of page `src` have been copied to
    /// the start of object attribute memory, one after the other and each
    /// through `read_byte` and `store`.
    pub open spec fn dma_copy(self, src: u8, n: nat) -> Self
        decreases n,
    {
        if n == 0 {
            self
        } else {
            let before = self.dma_copy(src, (n - 1) as nat);
            before.store(
                (0xFE00 + (n - 1)) as u16,
                before.read_byte((src * 256 + (n - 1)) as u16),
            )
        }
    }

    /// The bus after an OAM transfer from page `src`: the page is noted and
    /// its first 160 bytes are copied into object attribute memory.
    pub open spec fn dma_transfer(self, src: u8) -> Self {
        BusView { dma_src: src, ..self }.dma_copy(src, 160)
    }

    /// The bus after `write` is stored at `addr`.
    #[verifier::opaque]
    pub open spec fn write_byte(self, addr: u16, write: u8) -> Self {
        if addr == 0xFF46 {
            self.dma_transfer(write)
        } else {
            self.store(addr, write)
        }
    }
}

/// Whether `addr` is an address of plain memory on the bus: video RAM, work
/// RAM, object attribute memory or high RAM.
pub open spec fn is_plain_memory(addr: u16) -> bool {
    ||| 0x8000 <= addr <= 0x9FFF
    ||| 0xC000 <= addr <= 0xDFFF
    ||| 0xFE00 <= addr <= 0xFE9F
    ||| 0xFF80 <= addr <= 0xFFFE
}

impl BusView {
    /// Plain memory holds what is written to it: a byte written to an
    /// address of plain memory is read back from that address, and every
    /// other address of plain memory reads as before.
    pub proof fn lemma_memory_holds_writes(self, addr: u16, write: u8, other: u16)
        requires
            is_plain_memory(addr),
            is_plain_memory(other),
        ensures
            self.write_byte(addr, write).read_byte(addr) == write,
            other != addr ==> self.write_byte(addr, write).read_byte(other) == self.read_byte(
                other,
            ),
    {
        reveal(BusView::read_byte);
        reveal(BusView::store);
        reveal(BusView::write_byte);
    }

    /// A write to plain memory leaves the interrupt latches, the timer, the
    /// joypad and the cartridge as they are.
    pub proof fn lemma_memory_write_is_local(self, addr: u16, write: u8)
        requires
            is_plain_memory(addr),
        ensures
            self.write_byte(addr, write).intf == self.intf,
            self.write_byte(addr, write).timer == self.timer,
            self.write_byte(addr, write).joypad == self.joypad,
            self.write_byte(addr, write).cart == self.cart,
            self.write_byte(addr, write).apu == self.apu,
    {
        reveal(BusView::store);
        reveal(BusView::write_byte);
    }

    /// What an OAM transfer does: the first `n` bytes of object attribute
    /// memory are the first `n` bytes of page `src`, the rest of it is as it
    /// was, and nothing else on the bus has changed.
    pub proof fn lemma_dma_copy(self, src: u8, n: nat)
        requires
            n <= 160,
        ensures
            self.dma_copy(src, n) == (BusView {
                ppu: PPU { oam: self.dma_copy(src, n).ppu.oam, ..self.ppu },
                ..self
            }),
            forall|i: int|
                0 <= i < n ==> #[trigger] self.dma_copy(src, n).ppu.oam[i] == self.read_byte(
                    (src * 256 + i) as u16,
                ),
            forall|i: int| n <= i < 160 ==> #[trigger] self.dma_copy(src, n).ppu.oam[i] == self.ppu.oam[i],
        decreases n,
    {
        reveal(BusView::read_byte);
        reveal(BusView::store);
        if n > 0 {
            self.lemma_dma_copy(src, (n - 1) as nat);
            let before = self.dma_copy(src, (n - 1) as nat);
            let from = (src * 256 + (n - 1)) as u16;
            assert(before.read_byte(from) == self.read_byte(from));
        }
    }

    /// An OAM transfer from page `src` leaves the 160 bytes of that page in
    /// object attribute memory and the page number in the transfer register,
    /// and changes nothing else.
    pub proof fn lemma_dma_transfer(self, src: u8)
        ensures
            self.dma_transfer(src) == (BusView {
                dma_src: src,
                ppu: PPU { oam: self.dma_transfer(src).ppu.oam, ..self.ppu },
                ..self
            }),
            forall|i: int|
                0 <= i < 160 ==> #[trigger] self.dma_transfer(src).ppu.oam[i] == (BusView {
                    dma_src: src,
                    ..self
                }).read_byte((src * 256 + i) as u16),
    {
        (BusView { dma_src: src, ..self }).lemma_dma_copy(src, 160);
    }
}

impl Bus {
    /// A bus with `cart` in the slot and every component at power-up.
    pub fn new(cart: Cartridge) -> (bus: Self)
        requires
            cart@.wf(),
        ensures
            bus@.wf(),
            bus@.is_power_up(cart@),
    {
        Bus {
            cart: cart,
            intf: Interrupt::default(),
            timer: Timer::new(),
            ppu: PPU::new(),
            apu: APU::new(),
            joypad: Joypad::new(),
            dma_src: 0,
            serial_data: 0,
            serial_control: 0,
            wram: [0xFFu8; 0x2000],
            hram: [0xFFu8; 0x7F],
            bootrom: Vec::new(),
            bootrom_loaded: false,
        }
    }

    /// Reads the byte at `addr` from its owner.
    pub fn read_byte(&self, addr: u16) -> (r: u8)
        requires
            self@.wf(),
        ensures
            r == self@.read_byte(addr),
    {
        reveal(BusView::read_byte);
        match addr {
            0x0000..=0x00FF if self.bootrom_loaded => rom_at(&self.bootrom, addr as usize),
            0x0000..=0x7FFF => self.cart.read(addr),
            0x8000..=0x9FFF => self.ppu.read(addr),
            0xA000..=0xBFFF => self.cart.read(addr),
            0xC000..=0xDFFF => self.wram[(addr - 0xC000) as usize],
            0xFE00..=0xFE9F => self.ppu.read(addr),
            0xFF00 => self.joypad.read(),
            0xFF01 => self.serial_data,
            0xFF02 => self.serial_control,
            0xFF04..=0xFF07 => self.timer.read(addr),
            0xFF0F | 0xFFFF => self.intf.read(addr),
            0xFF10..=0xFF26 | 0xFF30..=0xFF3F => self.apu.read_byte(addr),
            0xFF46 => self.dma_src,
            0xFF40..=0xFF4B => self.ppu.read(addr),
            0xFF80..=0xFFFE => self.hram[(addr - 0xFF80) as usize],
            _ => 0xFF,
        }
    }

    /// Stores `write` at `addr`, which does not start an OAM transfer.
    fn store(&mut self, addr: u16, write: u8)
        requires
            old(self)@.wf(),
        ensures
            final(self)@ == old(self)@.store(addr, write),
            final(self)@.wf(),
    {
        reveal(BusView::store);
        match addr {
            0x0000..=0x7FFF => self.cart.write(addr, write),
            0x8000..=0x9FFF => self.ppu.write(addr, write),
            0xA000..=0xBFFF => self.cart.write(addr, write),
            0xC000..=0xDFFF => {
                self.wram[(addr - 0xC000) as usize] = write;
                assert(self.wram =~= spec_array_update(old(self).wram, addr - 0xC000, write));
            },
            0xFE00..=0xFE9F => self.ppu.write(addr, write),
            0xFF00 => self.joypad.write(write),
            0xFF01 => self.serial_data = write,
            0xFF02 => self.serial_control = write,
            0xFF04..=0xFF07 => self.timer.write(addr, write),
            0xFF0F | 0xFFFF => self.intf.write(addr, write),
            0xFF10..=0xFF26 | 0xFF30..=0xFF3F => self.apu.write_byte(addr, write),
            0xFF46 => {},
            0xFF40..=0xFF4B => self.ppu.write(addr, write),
            0xFF50 => self.bootrom_loaded = false,
            0xFF80..=0xFFFE => {
                self.hram[(addr - 0xFF80) as usize] = write;
                assert(self.hram =~= spec_array_update(old(self).hram, addr - 0xFF80, write));
            },
            _ => {},
        }
    }

    /// Stores `write` at `addr` with its owner. A write to 0xFF46 starts an OAM
    /// transfer.
    pub fn write_byte(&mut self, addr: u16, write: u8)
        requires
            old(self)@.wf(),
        ensures
            final(self)@ == old(self)@.write_byte(addr, write),
            final(self)@.wf(),
    {
        reveal(BusView::write_byte);
        if addr == 0xFF46 {
            self.dma_transfer(write);
        } else {
            self.store(addr, write);
        }
    }

    /// Reads the register `register`.
    pub fn read_register(&self, register: MemRegister) -> (r: u8)
        requires
            self@.wf(),
        ensures
            r == self@.read_byte(register.address()),
    {
        self.read_byte(register.address())
    }

    /// Stores `write` in the register `register`.
    pub fn write_register(&mut self, register: MemRegister, write: u8)
        requires
            old(self)@.wf(),
        ensures
            final(self)@ == old(self)@.write_byte(register.address(), write),
            final(self)@.wf(),
    {
        self.write_byte(register.address(), write)
    }

    /// Copies the first 160 bytes of page `src` into object attribute
    /// memory.
    pub fn dma_transfer(&mut self, src: u8)
        requires
            old(self)@.wf(),
        ensures
            final(self)@ == old(self)@.dma_transfer(src),
            final(self)@.wf(),
    {
        self.dma_src = src;
        let ghost noted = self@;
        let addr: u16 = (src as u16) * 256;
        let mut i: u16 = 0;
        while i < 0xA0
            invariant
                i <= 0xA0,
                addr == src * 256,
                self@.wf(),
                self@ == noted.dma_copy(src, i as nat),
            decreases 0xA0 - i,
        {
            let byte = self.read_byte(addr + i);
            self.store(0xFE00 + i, byte);
            i += 1;
        }
    }

    /// Clears work RAM and high RAM.
    pub fn clear_test_mem(&mut self)
        ensures
            forall|i: int| 0 <= i < 0x2000 ==> final(self).wram[i] == 0,
            forall|i: int| 0 <= i < 0x7F ==> final(self).hram[i] == 0,
            final(self)@ == (BusView {
                wram: final(self).wram,
                hram: final(self).hram,
                ..old(self)@
            }),
    {
        self.wram = [0u8; 0x2000];
        self.hram = [0u8; 0x7F];
    }

    /// Loads a boot image and switches its overlay on or off.
    pub fn load_bootrom(&mut self, bootrom: Vec<u8>, bootrom_enable: bool)
        ensures
            final(self)@ == (BusView {
                bootrom: bootrom@,
                bootrom_loaded: bootrom_enable,
                ..old(self)@
            }),
    {
        self.bootrom = bootrom;
        self.bootrom_loaded = bootrom_enable;
    }

    /// Holds `input` down; this requests the Joypad interrupt.
    pub fn btn_down(&mut self, input: GBInput)
        ensures
            final(self)@ == (BusView {
                joypad: old(self).joypad.spec_btn_down(input),
                intf: old(self).intf.spec_raise(crate::interrupt::InterruptFlag::Joypad),
                ..old(self)@
            }),
    {
        self.joypad.btn_down(input, &mut self.intf);
    }

    /// Releases `input`.
    pub fn btn_up(&mut self, input: GBInput)
        ensures
            final(self)@ == (BusView { joypad: old(self).joypad.spec_btn_up(input), ..old(self)@ }),
    {
        self.joypad.btn_up(input);
    }

    /// Advances the timer, the audio unit and the pixel unit, in that order,
    /// by `cycles` T-states. Buffers of samples that fill on the way are
    /// appended to `sink`.
    pub fn tick(&mut self, cycles: u64, sink: &mut Vec<i16>)
        requires
            old(self)@.wf(),
        ensures
            final(self)@ == old(self)@.tick(cycles as nat),
            final(sink)@ == old(sink)@ + old(self).apu.spec_tick(cycles as nat).1,
            final(self)@.wf(),
    {
        reveal(BusView::tick);
        self.timer.tick(cycles, &mut self.intf);
        self.apu.tick(cycles, sink);
        self.ppu.tick(cycles, &mut self.intf);
    }
}

impl BusView {
    /// The bus after `cycles` T-states have passed for the timer, then the
    /// audio unit, then the pixel unit.
    #[verifier::opaque]
    pub open spec fn tick(self, cycles: nat) -> Self {
        let (timer, timed) = self.timer.spec_tick(self.intf, cycles);
        let (ppu, noted) = self.ppu.spec_tick(timed, cycles);
        BusView {
            timer: timer,
            apu: self.apu.spec_tick(cycles).0,
            ppu: ppu,
            intf: noted,
            ..self
        }
    }
}

} // verus!

//! A Game Boy (DMG) emulation core whose behaviour is stated in contracts and
//! proved by Verus.
//!
//! The machine is one owning aggregate: [`Gameboy`] holds the processor and
//! the bus, and the bus holds the cartridge, the pixel unit, the audio unit,
//! the timer, the joypad and the interrupt latches. Time is counted in
//! T-states; one scanline takes 456 of them and one frame 70224.

pub mod apu;
pub mod bits;
pub mod bus;
pub mod cart;
pub mod cpu;
pub mod interrupt;
pub mod joypad;
pub mod ppu;
pub mod timer;

use vstd::prelude::*;
use crate::bus::{Bus, BusView};
use crate::cart::{create_cart, spec_load_error, CartridgeView, LoadError, MBC};
use crate::cpu::machine::Machine;
use crate::cpu::{CpuError, CPU};

verus! {

/// T-states of one frame: 154 scanlines of 456.
pub const CYCLES_PER_FRAME: u64 = 70224;

/// T-states of one scanline.
pub const CYCLES_PER_SCANLINE: u64 = 456;

pub struct Gameboy {
    pub bus: Bus,
    pub cpu: CPU,
    /// T-states since power-up, modulo 2^64.
    pub cycles: u64,
    /// The samples that the audio unit has flushed and that nobody has taken
    /// yet, left and right interleaved, in units of 1/420 of full scale.
    pub audio: Vec<i16>,
}

/// The machine as a mathematical value.
pub struct GameboyView {
    pub machine: Machine,
    pub cycles: u64,
    pub audio: Seq<i16>,
}

impl View for Gameboy {
    type V = GameboyView;

    open spec fn view(&self) -> GameboyView {
        GameboyView {
            machine: Machine { cpu: self.cpu, bus: self.bus@ },
            cycles: self.cycles,
            audio: self.audio@,
        }
    }
}

impl GameboyView {
    /// The invariants of the processor and of everything on the bus hold.
    pub open spec fn wf(self) -> bool {
        self.machine.wf()
    }

    /// The line that the pixel unit is at.
    pub open spec fn ly(self) -> u8 {
        self.machine.bus.ppu.reg_ly
    }

    /// The machine after one step of the processor, and the cost of the
    /// step. The T-states that the step took are then fed to the timer, the
    /// audio unit and the pixel unit, in that order, so that the interrupts
    /// they request are seen by the next step. A step that fails changes
    /// nothing but what the processor did before it failed.
    #[verifier::opaque]
    pub open spec fn tick(self) -> (Self, Result<u64, CpuError>) {
        match self.machine.spec_cycle() {
            (stepped, Ok(cycles)) => (
                GameboyView {
                    machine: Machine { bus: stepped.bus.tick(cycles as nat), ..stepped },
                    cycles: ((self.cycles + cycles) % 0x1_0000_0000_0000_0000) as u64,
                    audio: self.audio + stepped.bus.apu.spec_tick(cycles as nat).1,
                },
                Ok(cycles),
            ),
            (stepped, Err(error)) => (GameboyView { machine: stepped, ..self }, Err(error)),
        }
    }

    /// The machine after it has run for at least `remaining` T-states, the
    /// T-states that it ran for, and the error that stopped it, if one did.
    pub open spec fn run_for(self, remaining: nat) -> (Self, nat, Option<CpuError>)
        decreases remaining,
    {
        if remaining == 0 {
            (self, 0, None)
        } else {
            match self.tick() {
                (stepped, Ok(cycles)) => {
                    if 1 <= cycles < remaining {
                        let (after, more, error) = stepped.run_for((remaining - cycles) as nat);
                        (after, (cycles + more) as nat, error)
                    } else {
                        (stepped, cycles as nat, None)
                    }
                },
                (stepped, Err(error)) => (stepped, 0, Some(error)),
            }
        }
    }

    /// The machine after it has run until the line counter left `line` or,
    /// failing that, for at least `remaining` T-states; the T-states that it
    /// ran for; and the error that stopped it, if one did.
    pub open spec fn run_line(self, line: u8, remaining: nat) -> (Self, nat, Option<CpuError>)
        decreases remaining,
    {
        if remaining == 0 || self.ly() != line {
            (self, 0, None)
        } else {
            match self.tick() {
                (stepped, Ok(cycles)) => {
                    if 1 <= cycles < remaining {
                        let (after, more, error) = stepped.run_line(
                            line,
                            (remaining - cycles) as nat,
                        );
                        (after, (cycles + more) as nat, error)
                    } else {
                        (stepped, cycles as nat, None)
                    }
                },
                (stepped, Err(error)) => (stepped, 0, Some(error)),
            }
        }
    }
}

/// What is left of `budget` T-states after `elapsed` have passed.
pub open spec fn left_of(budget: nat, elapsed: u64) -> nat {
    if elapsed < budget {
        (budget - elapsed) as nat
    } else {
        0
    }
}

/// Whether `result` reports the run `run`: the T-states that passed if no
/// error stopped it, and else the error.
pub open spec fn reports(result: Result<u64, CpuError>, run: (GameboyView, nat, Option<CpuError>))
    -> bool {
    match result {
        Ok(cycles) => run.2 is None && cycles == run.1,
        Err(error) => run.2 == Some(error),
    }
}

impl Gameboy {
    /// A machine at power-up with the cartridge that the image `cart`
    /// describes in its slot. An image that cannot be loaded is refused.
    pub fn new(cart: Vec<u8>) -> (made: Result<Gameboy, LoadError>)
        ensures
            match made {
                Ok(gameboy) => {
                    &&& spec_load_error(cart@) is None
                    &&& gameboy@.wf()
                    &&& gameboy@.machine.bus.is_power_up(CartridgeView::spec_create(cart@))
                    &&& gameboy@.machine.cpu == CPU::spec_new()
                    &&& gameboy@.cycles == 0
                    &&& gameboy@.audio.len() == 0
                },
                Err(error) => spec_load_error(cart@) == Some(error),
            },
    {
        match create_cart(cart) {
            Ok(cartridge) => Ok(
                Gameboy { bus: Bus::new(cartridge), cpu: CPU::new(), cycles: 0, audio: Vec::new() },
            ),
            Err(error) => Err(error),
        }
    }

    /// Performs one step of the processor and lets the same time pass for
    /// the timer, the audio unit and the pixel unit. Returns the T-states
    /// that the step took.
    pub fn tick(&mut self) -> (result: Result<u64, CpuError>)
        requires
            old(self)@.wf(),
        ensures
            (final(self)@, result) == old(self)@.tick(),
            final(self)@.wf(),
            result matches Ok(cycles) ==> 4 <= cycles <= 24,
    {
        reveal(GameboyView::tick);
        match self.cpu.cycle(&mut self.bus) {
            Ok(instr_cycles) => {
                self.bus.tick(instr_cycles, &mut self.audio);
                self.cycles = self.cycles.wrapping_add(instr_cycles);
                Ok(instr_cycles)
            },
            Err(error) => Err(error),
        }
    }

    /// Runs until the T-states of one frame have passed. Returns the
    /// T-states that did pass.
    pub fn run_frame(&mut self) -> (result: Result<u64, CpuError>)
        requires
            old(self)@.wf(),
        ensures
            final(self)@ == old(self)@.run_for(70224).0,
            reports(result, old(self)@.run_for(70224)),
            final(self)@.wf(),
            result matches Ok(cycles) ==> 70224 <= cycles < 70224 + 24,
    {
        let mut elapsed: u64 = 0;
        while elapsed < CYCLES_PER_FRAME
            invariant
                self@.wf(),
                elapsed < 70224 + 24,
                old(self)@.run_for(70224) == ({
                    let (after, more, error) = self@.run_for(left_of(70224, elapsed));
                    (after, (elapsed + more) as nat, error)
                }),
            decreases 70224 + 24 - elapsed,
        {
            match self.tick() {
                Ok(cycles) => {
                    elapsed += cycles;
                },
                Err(error) => {
                    return Err(error);
                },
            }
        }
        Ok(elapsed)
    }

    /// Runs until the line counter has moved on, or for the T-states of one
    /// scanline if it does not (it rests while the display is off). Returns
    /// the T-states that did pass.
    pub fn run_scanline(&mut self) -> (result: Result<u64, CpuError>)
        requires
            old(self)@.wf(),
        ensures
            final(self)@ == old(self)@.run_line(old(self)@.ly(), 456).0,
            reports(result, old(self)@.run_line(old(self)@.ly(), 456)),
            final(self)@.wf(),
            result matches Ok(cycles) ==> final(self)@.ly() != old(self)@.ly() || cycles >= 456,
    {
        let current_ly = self.bus.ppu.reg_ly;
        let mut elapsed: u64 = 0;
        while elapsed < CYCLES_PER_SCANLINE && self.bus.ppu.reg_ly == current_ly
            invariant
                self@.wf(),
                elapsed < 456 + 24,
                current_ly == old(self)@.ly(),
                old(self)@.run_line(current_ly, 456) == ({
                    let (after, more, error) = self@.run_line(current_ly, left_of(456, elapsed));
                    (after, (elapsed + more) as nat, error)
                }),
            decreases 456 + 24 - elapsed,
        {
            match self.tick() {
                Ok(cycles) => {
                    elapsed += cycles;
                },
                Err(error) => {
                    return Err(error);
                },
            }
        }
        Ok(elapsed)
    }

    /// Loads a boot image. If its overlay is switched on, execution starts
    /// over at address 0.
    pub fn load_bootrom(&mut self, bootrom: Vec<u8>, bootrom_enable: bool)
        ensures
            final(self)@ == (GameboyView {
                machine: Machine {
                    cpu: CPU {
                        pc: if bootrom_enable {
                            0
                        } else {
                            old(self).cpu.pc
                        },
                        ..old(self).cpu
                    },
                    bus: BusView {
                        bootrom: bootrom@,
                        bootrom_loaded: bootrom_enable,
                        ..old(self).bus@
                    },
                },
                ..old(self)@
            }),
    {
        self.bus.load_bootrom(bootrom, bootrom_enable);
        if bootrom_enable {
            self.cpu.pc = 0
        }
    }

    /// Hands out the samples that have been flushed since the last call.
    pub fn take_audio(&mut self) -> (samples: Vec<i16>)
        ensures
            samples@ == old(self)@.audio,
            final(self)@ == (GameboyView { audio: Seq::empty(), ..old(self)@ }),
    {
        let mut samples: Vec<i16> = Vec::new();
        core::mem::swap(&mut samples, &mut self.audio);
        samples
    }

    /// The contents of the cartridge's RAM for the save file, if the
    /// cartridge has a battery.
    pub fn dump_save(&self) -> (save: Option<Vec<u8>>)
        ensures
            match save {
                Some(sram) => self@.machine.bus.cart.is_battery_backed() && sram@
                    == self@.machine.bus.cart.sram(),
                None => !self@.machine.bus.cart.is_battery_backed(),
            },
    {
        if self.bus.cart.is_battery_backed() {
            Some(self.bus.cart.dump_sram())
        } else {
            None
        }
    }

    /// Puts the contents of a save file into the cartridge's RAM, if the
    /// cartridge has a battery. Returns whether it did.
    pub fn load_save(&mut self, sram: Vec<u8>) -> (loaded: bool)
        requires
            old(self)@.wf(),
        ensures
            loaded == old(self)@.machine.bus.cart.is_battery_backed(),
            final(self)@.wf(),
            final(self)@ == (GameboyView {
                machine: Machine {
                    bus: BusView {
                        cart: if loaded {
                            old(self)@.machine.bus.cart.load_sram(sram@)
                        } else {
                            old(self)@.machine.bus.cart
                        },
                        ..old(self)@.machine.bus
                    },
                    ..old(self)@.machine
                },
                ..old(self)@
            }),
            loaded ==> final(self)@.machine.bus.cart.sram() == sram@,
    {
        if self.bus.cart.is_battery_backed() {
            self.bus.cart.load_sram(sram);
            true
        } else {
            false
        }
    }
}

} // verus!

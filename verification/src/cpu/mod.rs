//! The processor: registers, arithmetic, the instruction set and the
//! interrupt dispatch.

pub mod alu;
pub mod arith;
pub mod execute;
pub mod instructions;
pub mod loads;
pub mod machine;
pub mod prefixed;
pub mod registers;
pub mod semantics;
pub mod step;

use vstd::prelude::*;
use crate::bus::Bus;
use crate::cpu::alu::{
    add16, add8, spec_add16, spec_add8, spec_sub16, spec_sub8, sub16, sub8,
};
use crate::cpu::machine::{spec_after, spec_before, state};
use crate::cpu::registers::{
    high_byte, low_byte, word, Flags, Register16Bit, Register8Bit, Registers,
};

verus! {

/// Why the processor cannot go on.
#[derive(Clone, Copy, Debug, PartialEq, Eq, Structural)]
pub enum CpuError {
    /// The byte at the program counter is no instruction.
    UndefinedOpcode(u8),
}

pub struct CPU {
    pub registers: Registers,
    pub pc: u16,
    /// The interrupt master enable.
    pub ime: bool,
    /// The delay of EI: 1 after EI was executed, 2 one step later, and then
    /// interrupts are enabled.
    pub ei: u8,
    /// Set by HALT; cleared when an interrupt is pending.
    pub halted: bool,
    /// The cost in T-states of the last step.
    pub instr_cycles: u64,
}

impl CPU {
    /// The processor at power-up: about to execute the instruction at
    /// 0x0100, with interrupts disabled.
    pub open spec fn spec_new() -> Self {
        CPU {
            registers: Registers::spec_new(),
            pc: 0x100,
            ime: false,
            ei: 0,
            halted: false,
            instr_cycles: 0,
        }
    }

    /// The processor at power-up.
    pub fn new() -> (cpu: Self)
        ensures
            cpu == Self::spec_new(),
            cpu.registers.wf(),
    {
        CPU {
            registers: Registers::new(),
            pc: 0x100,
            ime: false,
            ei: 0,
            halted: false,
            instr_cycles: 0,
        }
    }

    /// Pushes a word: the stack pointer moves down by two.
    pub fn push16(&mut self, bus: &mut Bus, to_push: u16)
        requires
            state(*old(self), *old(bus)).wf(),
        ensures
            state(*final(self), *final(bus)) == state(*old(self), *old(bus)).push16(to_push),
            state(*final(self), *final(bus)).wf(),
    {
        let mut target_addr = self.dec_sp();
        bus.write_byte(target_addr, high_byte(to_push));
        target_addr = self.dec_sp();
        bus.write_byte(target_addr, low_byte(to_push));
    }

    /// Pops a word: the stack pointer moves up by two.
    pub fn pop16(&mut self, bus: &Bus) -> (popped: u16)
        requires
            state(*old(self), *bus).wf(),
        ensures
            popped == state(*old(self), *bus).top16(),
            state(*final(self), *bus) == state(*old(self), *bus).pop16(),
            state(*final(self), *bus).wf(),
    {
        let low_byte = bus.read_byte(self.registers.get_16bit_reg(Register16Bit::SP));
        let sp = self.inc_sp();
        let hi_byte = bus.read_byte(sp);
        self.inc_sp();
        word(hi_byte, low_byte)
    }

    /// The byte that HL points to.
    pub fn get_deref_hl(&self, bus: &Bus) -> (value: u8)
        requires
            bus@.wf(),
        ensures
            value == state(*self, *bus).get_r8(Register8Bit::HL),
    {
        bus.read_byte(self.registers.get_16bit_reg(Register16Bit::HL))
    }

    /// Stores `write` where HL points to.
    pub fn set_deref_hl(&self, bus: &mut Bus, write: u8)
        requires
            old(bus)@.wf(),
        ensures
            state(*self, *final(bus)) == state(*self, *old(bus)).set_r8(Register8Bit::HL, write),
            final(bus)@.wf(),
    {
        bus.write_byte(self.registers.get_16bit_reg(Register16Bit::HL), write);
    }

    /// The value of an 8-bit operand: a register, or the byte that HL
    /// points to.
    pub fn get_8bit_reg(&self, bus: &Bus, reg: Register8Bit) -> (value: u8)
        requires
            bus@.wf(),
        ensures
            value == state(*self, *bus).get_r8(reg),
    {
        if reg == Register8Bit::HL {
            self.get_deref_hl(bus)
        } else {
            self.registers.get_8bit_reg(reg)
        }
    }

    /// Stores `write` in an 8-bit operand: a register, or the byte that HL
    /// points to.
    pub fn set_8bit_reg(&mut self, bus: &mut Bus, reg: Register8Bit, write: u8)
        requires
            state(*old(self), *old(bus)).wf(),
        ensures
            state(*final(self), *final(bus)) == state(*old(self), *old(bus)).set_r8(reg, write),
            state(*final(self), *final(bus)).wf(),
    {
        if reg == Register8Bit::HL {
            self.set_deref_hl(bus, write);
        } else {
            self.registers.set_8bit_reg(reg, write);
        }
    }

    /// Adds two bytes and leaves the flags of the sum in F: Z 0 H C.
    pub fn add_8bit(&mut self, lhs: u8, rhs: u8) -> (sum: u8)
        ensures
            sum == spec_add8(lhs, rhs, false).0,
            *final(self) == (CPU {
                registers: old(self).registers.spec_set_flags(spec_add8(lhs, rhs, false).1),
                ..*old(self)
            }),
            final(self).registers.spec_flags() == spec_add8(lhs, rhs, false).1,
    {
        let (sum, flags) = add8(lhs, rhs, false);
        self.registers.set_flags(flags);
        sum
    }

    /// Adds two words and leaves the flags of the sum in F: Z 0 H C, with H
    /// the carry out of bit 11.
    pub fn add_16bit(&mut self, lhs: u16, rhs: u16) -> (sum: u16)
        ensures
            sum == spec_add16(lhs, rhs, old(self).registers.spec_flags()).0,
            *final(self) == (CPU {
                registers: old(self).registers.spec_set_flags(
                    Flags {
                        z: sum == 0,
                        ..spec_add16(lhs, rhs, old(self).registers.spec_flags()).1
                    },
                ),
                ..*old(self)
            }),
    {
        let (sum, flags) = add16(lhs, rhs, self.registers.flags());
        self.registers.set_flags(Flags { z: sum == 0, ..flags });
        sum
    }

    /// Subtracts a byte from a byte and leaves the flags of the difference
    /// in F: Z 1 H C.
    pub fn sub_8bit(&mut self, lhs: u8, rhs: u8) -> (difference: u8)
        ensures
            difference == spec_sub8(lhs, rhs, false).0,
            *final(self) == (CPU {
                registers: old(self).registers.spec_set_flags(spec_sub8(lhs, rhs, false).1),
                ..*old(self)
            }),
            final(self).registers.spec_flags() == spec_sub8(lhs, rhs, false).1,
    {
        let (difference, flags) = sub8(lhs, rhs, false);
        self.registers.set_flags(flags);
        difference
    }

    /// Subtracts a word from a word and leaves the flags of the difference
    /// in F: Z 1 H C, with H the borrow from bit 12.
    pub fn sub_16bit(&mut self, lhs: u16, rhs: u16) -> (difference: u16)
        ensures
            difference == spec_sub16(lhs, rhs).0,
            *final(self) == (CPU {
                registers: old(self).registers.spec_set_flags(spec_sub16(lhs, rhs).1),
                ..*old(self)
            }),
            final(self).registers.spec_flags() == spec_sub16(lhs, rhs).1,
    {
        let (difference, flags) = sub16(lhs, rhs);
        self.registers.set_flags(flags);
        difference
    }

    /// Moves the program counter on by one and returns it.
    pub fn inc_pc(&mut self) -> (pc: u16)
        ensures
            pc == spec_after(old(self).pc, 1),
            *final(self) == (CPU { pc: pc, ..*old(self) }),
    {
        self.pc = self.pc.wrapping_add(1);
        self.pc
    }

    /// Moves the stack pointer up by one and returns it.
    pub fn inc_sp(&mut self) -> (sp: u16)
        ensures
            sp == spec_after(old(self).registers.sp, 1),
            *final(self) == (CPU {
                registers: Registers { sp: sp, ..old(self).registers },
                ..*old(self)
            }),
    {
        let old_value = self.registers.get_16bit_reg(Register16Bit::SP);
        self.registers.set_16bit_reg(Register16Bit::SP, old_value.wrapping_add(1));
        old_value.wrapping_add(1)
    }

    /// Moves the stack pointer down by one and returns it.
    pub fn dec_sp(&mut self) -> (sp: u16)
        ensures
            sp == spec_before(old(self).registers.sp),
            *final(self) == (CPU {
                registers: Registers { sp: sp, ..old(self).registers },
                ..*old(self)
            }),
    {
        let old_value = self.registers.get_16bit_reg(Register16Bit::SP);
        self.registers.set_16bit_reg(Register16Bit::SP, old_value.wrapping_sub(1));
        old_value.wrapping_sub(1)
    }
}

} // verus!

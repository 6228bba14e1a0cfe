//! The processor and the bus together as one mathematical value, and the
//! steps that instructions are made of.

use vstd::prelude::*;
use crate::bus::{Bus, BusView};
use crate::cpu::instructions::Cond;
use crate::cpu::registers::{spec_word, Flags, Register16Bit, Register8Bit, Registers};
use crate::cpu::CPU;

verus! {

/// The address `steps` bytes after `addr`, wrapping around the address space.
pub open spec fn spec_after(addr: u16, steps: int) -> u16 {
    ((addr + steps) % 65536) as u16
}

/// The address one byte before `addr`, wrapping around the address space.
pub open spec fn spec_before(addr: u16) -> u16 {
    ((addr + 65535) % 65536) as u16
}

/// The state of the machine: the processor and everything on the bus.
pub struct Machine {
    pub cpu: CPU,
    pub bus: BusView,
}

/// The state that `cpu` and `bus` are in.
pub open spec fn state(cpu: CPU, bus: Bus) -> Machine {
    Machine { cpu: cpu, bus: bus@ }
}

/// Whether `cpu` and `bus` are in the state `expected.0`, which keeps the
/// invariants, and `cycles` is the cost `expected.1`.
pub open spec fn done(cpu: CPU, bus: Bus, cycles: u16, expected: (Machine, u16)) -> bool {
    &&& state(cpu, bus) == expected.0
    &&& cycles == expected.1
    &&& state(cpu, bus).wf()
}

impl Machine {
    /// The invariants of the register file and of the bus hold.
    pub open spec fn wf(self) -> bool {
        self.cpu.registers.wf() && self.bus.wf()
    }

    /// The byte at `addr`.
    pub open spec fn read(self, addr: u16) -> u8 {
        self.bus.read_byte(addr)
    }

    /// The state after `value` is stored at `addr`.
    pub open spec fn write(self, addr: u16, value: u8) -> Self {
        Machine { bus: self.bus.write_byte(addr, value), ..self }
    }

    /// The register file.
    pub open spec fn regs(self) -> Registers {
        self.cpu.registers
    }

    /// The state with `registers` as the register file.
    pub open spec fn with_regs(self, registers: Registers) -> Self {
        Machine { cpu: CPU { registers: registers, ..self.cpu }, ..self }
    }

    /// The flags.
    pub open spec fn flags(self) -> Flags {
        self.cpu.registers.spec_flags()
    }

    /// The state with `flags` in register F.
    pub open spec fn with_flags(self, flags: Flags) -> Self {
        self.with_regs(self.regs().spec_set_flags(flags))
    }

    /// The state with `value` in the accumulator.
    pub open spec fn with_a(self, value: u8) -> Self {
        self.with_regs(Registers { a: value, ..self.regs() })
    }

    /// The value of register pair `reg`.
    pub open spec fn get_r16(self, reg: Register16Bit) -> u16 {
        self.regs().spec_get_16bit_reg(reg)
    }

    /// The state with `value` in register pair `reg`.
    pub open spec fn set_r16(self, reg: Register16Bit, value: u16) -> Self {
        self.with_regs(self.regs().spec_set_16bit_reg(reg, value))
    }

    /// The state with the program counter at `pc`.
    pub open spec fn jump(self, pc: u16) -> Self {
        Machine { cpu: CPU { pc: pc, ..self.cpu }, ..self }
    }

    /// The state with the program counter moved on by `bytes`.
    pub open spec fn advance(self, bytes: int) -> Self {
        self.jump(spec_after(self.cpu.pc, bytes))
    }

    /// The byte that follows the opcode.
    pub open spec fn imm8(self) -> u8 {
        self.read(spec_after(self.cpu.pc, 1))
    }

    /// The word that follows the opcode, low byte first.
    pub open spec fn imm16(self) -> u16 {
        spec_word(self.read(spec_after(self.cpu.pc, 2)), self.read(spec_after(self.cpu.pc, 1)))
    }

    /// The value of the 8-bit operand `reg`: a register, or for `HL` the
    /// byte that HL points to.
    pub open spec fn get_r8(self, reg: Register8Bit) -> u8 {
        if reg == Register8Bit::HL {
            self.read(self.get_r16(Register16Bit::HL))
        } else {
            self.regs().spec_get_8bit_reg(reg)
        }
    }

    /// The state with `value` in the 8-bit operand `reg`.
    pub open spec fn set_r8(self, reg: Register8Bit, value: u8) -> Self {
        if reg == Register8Bit::HL {
            self.write(self.get_r16(Register16Bit::HL), value)
        } else {
            self.with_regs(self.regs().spec_set_8bit_reg(reg, value))
        }
    }

    /// The state after `value` is pushed: the stack pointer moves down by
    /// two, the high byte is stored first and above the low byte.
    pub open spec fn push16(self, value: u16) -> Self {
        let high_at = spec_before(self.regs().sp);
        let low_at = spec_before(high_at);
        self.write(high_at, (value / 256) as u8).write(low_at, (value % 256) as u8).with_regs(
            Registers { sp: low_at, ..self.regs() },
        )
    }

    /// The word on top of the stack.
    pub open spec fn top16(self) -> u16 {
        spec_word(self.read(spec_after(self.regs().sp, 1)), self.read(self.regs().sp))
    }

    /// The state after a word is popped: the stack pointer moves up by two.
    pub open spec fn pop16(self) -> Self {
        self.with_regs(Registers { sp: spec_after(self.regs().sp, 2), ..self.regs() })
    }

    /// Whether condition `cond` holds.
    pub open spec fn condition(self, cond: Cond) -> bool {
        match cond {
            Cond::NZ => !self.flags().z,
            Cond::Z => self.flags().z,
            Cond::NC => !self.flags().c,
            Cond::C => self.flags().c,
        }
    }
}

} // verus!

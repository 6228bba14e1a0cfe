//! The handlers of the instructions that move data: loads, stores, pushes
//! and pops.

use vstd::prelude::*;
use crate::bus::Bus;
use crate::cpu::alu::add_sp;
use crate::cpu::execute::{get_imm16, get_imm8};
use crate::cpu::machine::{done, state};
use crate::cpu::registers::{high_byte, low_byte, Register16Bit, Register8Bit};
use crate::cpu::CPU;

verus! {

/// LD r8, r8: copies between 8-bit operands.
pub(crate) fn ld_r8_r8(cpu: &mut CPU, bus: &mut Bus, opcode: u8, base: u16) -> (cycles: u16)
    requires
        state(*old(cpu), *old(bus)).wf(),
    ensures
        done(
            *final(cpu),
            *final(bus),
            cycles,
            state(*old(cpu), *old(bus)).spec_ld_r8_r8(opcode, base),
        ),
        cycles == base || 8 <= cycles <= 16,
{
    let src = Register8Bit::from_r8(opcode % 8);
    let dst = Register8Bit::from_r8((opcode / 8) % 8);
    let value = cpu.get_8bit_reg(bus, src);
    cpu.set_8bit_reg(bus, dst, value);
    cpu.pc = cpu.pc.wrapping_add(1);
    if src == Register8Bit::HL || dst == Register8Bit::HL {
        8
    } else {
        base
    }
}

/// LD r16, n16: loads a register pair with a constant.
pub(crate) fn ld_r16_imm(cpu: &mut CPU, bus: &mut Bus, opcode: u8, base: u16) -> (cycles: u16)
    requires
        state(*old(cpu), *old(bus)).wf(),
        opcode < 0x40,
    ensures
        done(
            *final(cpu),
            *final(bus),
            cycles,
            state(*old(cpu), *old(bus)).spec_ld_r16_imm(opcode, base),
        ),
        cycles == base || 8 <= cycles <= 16,
{
    let dest = Register16Bit::from_r16(opcode / 16);
    let src = get_imm16(cpu, bus);
    cpu.registers.set_16bit_reg(dest, src);
    cpu.pc = cpu.pc.wrapping_add(1);
    base
}

/// LD r8, n8: loads an 8-bit operand with a constant.
pub(crate) fn ld_r8_imm(cpu: &mut CPU, bus: &mut Bus, opcode: u8, base: u16) -> (cycles: u16)
    requires
        state(*old(cpu), *old(bus)).wf(),
    ensures
        done(
            *final(cpu),
            *final(bus),
            cycles,
            state(*old(cpu), *old(bus)).spec_ld_r8_imm(opcode, base),
        ),
        cycles == base || 8 <= cycles <= 16,
{
    let dest = Register8Bit::from_r8((opcode / 8) % 8);
    let src = get_imm8(cpu, bus);
    cpu.set_8bit_reg(bus, dest, src);
    cpu.pc = cpu.pc.wrapping_add(1);
    base
}

/// LD [r16], A: stores the accumulator through a register pair.
pub(crate) fn ld_r16mem_a(cpu: &mut CPU, bus: &mut Bus, opcode: u8, base: u16) -> (cycles: u16)
    requires
        state(*old(cpu), *old(bus)).wf(),
        opcode < 0x40,
    ensures
        done(
            *final(cpu),
            *final(bus),
            cycles,
            state(*old(cpu), *old(bus)).spec_ld_r16mem_a(opcode, base),
        ),
        cycles == base || 8 <= cycles <= 16,
{
    let dest_info = Register16Bit::from_r16mem(opcode / 16);
    let dest = cpu.registers.get_16bit_reg(dest_info.0);
    bus.write_byte(dest, cpu.registers.get_8bit_reg(Register8Bit::A));
    // postinc or postdec
    let moved = if dest_info.1 > 0 {
        dest.wrapping_add(1)
    } else if dest_info.1 < 0 {
        dest.wrapping_sub(1)
    } else {
        dest
    };
    cpu.registers.set_16bit_reg(dest_info.0, moved);
    cpu.pc = cpu.pc.wrapping_add(1);
    base
}

/// LD A, [r16]: loads the accumulator through a register pair.
pub(crate) fn ld_a_r16mem(cpu: &mut CPU, bus: &mut Bus, opcode: u8, base: u16) -> (cycles: u16)
    requires
        state(*old(cpu), *old(bus)).wf(),
        opcode < 0x40,
    ensures
        done(
            *final(cpu),
            *final(bus),
            cycles,
            state(*old(cpu), *old(bus)).spec_ld_a_r16mem(opcode, base),
        ),
        cycles == base || 8 <= cycles <= 16,
{
    let src_info = Register16Bit::from_r16mem(opcode / 16);
    let src = cpu.registers.get_16bit_reg(src_info.0);
    let new_a = bus.read_byte(src);
    cpu.registers.set_8bit_reg(Register8Bit::A, new_a);
    // postinc or postdec
    let moved = if src_info.1 > 0 {
        src.wrapping_add(1)
    } else if src_info.1 < 0 {
        src.wrapping_sub(1)
    } else {
        src
    };
    cpu.registers.set_16bit_reg(src_info.0, moved);
    cpu.pc = cpu.pc.wrapping_add(1);
    base
}

/// LD A, [a16]: loads the accumulator from an address.
pub(crate) fn ld_a_a16(cpu: &mut CPU, bus: &mut Bus, opcode: u8, base: u16) -> (cycles: u16)
    requires
        state(*old(cpu), *old(bus)).wf(),
    ensures
        done(
            *final(cpu),
            *final(bus),
            cycles,
            state(*old(cpu), *old(bus)).spec_ld_a_a16(opcode, base),
        ),
        cycles == base || 8 <= cycles <= 16,
{
    let addr = get_imm16(cpu, bus);
    let new_value = bus.read_byte(addr);
    cpu.registers.set_8bit_reg(Register8Bit::A, new_value);
    cpu.pc = cpu.pc.wrapping_add(1);
    base
}

/// LD [a16], A: stores the accumulator at an address.
pub(crate) fn ld_a16_a(cpu: &mut CPU, bus: &mut Bus, opcode: u8, base: u16) -> (cycles: u16)
    requires
        state(*old(cpu), *old(bus)).wf(),
    ensures
        done(
            *final(cpu),
            *final(bus),
            cycles,
            state(*old(cpu), *old(bus)).spec_ld_a16_a(opcode, base),
        ),
        cycles == base || 8 <= cycles <= 16,
{
    let addr = get_imm16(cpu, bus);
    let a_value = cpu.registers.get_8bit_reg(Register8Bit::A);
    bus.write_byte(addr, a_value);
    cpu.pc = cpu.pc.wrapping_add(1);
    base
}

/// LDH A, [a8]: loads the accumulator from the high page.
pub(crate) fn ldh_a_a8(cpu: &mut CPU, bus: &mut Bus, opcode: u8, base: u16) -> (cycles: u16)
    requires
        state(*old(cpu), *old(bus)).wf(),
    ensures
        done(
            *final(cpu),
            *final(bus),
            cycles,
            state(*old(cpu), *old(bus)).spec_ldh_a_a8(opcode, base),
        ),
        cycles == base || 8 <= cycles <= 16,
{
    let addr: u16 = 0xFF00 + get_imm8(cpu, bus) as u16;
    let new_value = bus.read_byte(addr);
    cpu.registers.set_8bit_reg(Register8Bit::A, new_value);
    cpu.pc = cpu.pc.wrapping_add(1);
    base
}

/// LDH [a8], A: stores the accumulator in the high page.
pub(crate) fn ldh_a8_a(cpu: &mut CPU, bus: &mut Bus, opcode: u8, base: u16) -> (cycles: u16)
    requires
        state(*old(cpu), *old(bus)).wf(),
    ensures
        done(
            *final(cpu),
            *final(bus),
            cycles,
            state(*old(cpu), *old(bus)).spec_ldh_a8_a(opcode, base),
        ),
        cycles == base || 8 <= cycles <= 16,
{
    let a_value = cpu.registers.get_8bit_reg(Register8Bit::A);
    let addr: u16 = 0xFF00 + get_imm8(cpu, bus) as u16;
    bus.write_byte(addr, a_value);
    cpu.pc = cpu.pc.wrapping_add(1);
    base
}

/// LDH A, [C]: loads the accumulator from the high page at C.
pub(crate) fn ldh_a_c(cpu: &mut CPU, bus: &mut Bus, opcode: u8, base: u16) -> (cycles: u16)
    requires
        state(*old(cpu), *old(bus)).wf(),
    ensures
        done(
            *final(cpu),
            *final(bus),
            cycles,
            state(*old(cpu), *old(bus)).spec_ldh_a_c(opcode, base),
        ),
        cycles == base || 8 <= cycles <= 16,
{
    let addr: u16 = 0xFF00 + cpu.registers.get_8bit_reg(Register8Bit::C) as u16;
    let new_value = bus.read_byte(addr);
    cpu.registers.set_8bit_reg(Register8Bit::A, new_value);
    cpu.pc = cpu.pc.wrapping_add(1);
    base
}

/// LDH [C], A: stores the accumulator in the high page at C.
pub(crate) fn ldh_c_a(cpu: &mut CPU, bus: &mut Bus, opcode: u8, base: u16) -> (cycles: u16)
    requires
        state(*old(cpu), *old(bus)).wf(),
    ensures
        done(
            *final(cpu),
            *final(bus),
            cycles,
            state(*old(cpu), *old(bus)).spec_ldh_c_a(opcode, base),
        ),
        cycles == base || 8 <= cycles <= 16,
{
    let addr: u16 = 0xFF00 + cpu.registers.get_8bit_reg(Register8Bit::C) as u16;
    let a_value = cpu.registers.get_8bit_reg(Register8Bit::A);
    bus.write_byte(addr, a_value);
    cpu.pc = cpu.pc.wrapping_add(1);
    base
}

/// LD [a16], SP: stores the stack pointer at an address.
pub(crate) fn ld_a16_sp(cpu: &mut CPU, bus: &mut Bus, opcode: u8, base: u16) -> (cycles: u16)
    requires
        state(*old(cpu), *old(bus)).wf(),
    ensures
        done(
            *final(cpu),
            *final(bus),
            cycles,
            state(*old(cpu), *old(bus)).spec_ld_a16_sp(opcode, base),
        ),
        cycles == base || 8 <= cycles <= 16,
{
    let addr = get_imm16(cpu, bus);
    let sp = cpu.registers.get_16bit_reg(Register16Bit::SP);
    bus.write_byte(addr, low_byte(sp));
    bus.write_byte(addr.wrapping_add(1), high_byte(sp));
    cpu.pc = cpu.pc.wrapping_add(1);
    base
}

/// PUSH r16.
pub(crate) fn push_r16(cpu: &mut CPU, bus: &mut Bus, opcode: u8, base: u16) -> (cycles: u16)
    requires
        state(*old(cpu), *old(bus)).wf(),
    ensures
        done(
            *final(cpu),
            *final(bus),
            cycles,
            state(*old(cpu), *old(bus)).spec_push_r16(opcode, base),
        ),
        cycles == base || 8 <= cycles <= 16,
{
    let target = cpu.registers.get_16bit_reg(Register16Bit::from_r16stk((opcode / 16) % 4));
    cpu.push16(bus, target);
    cpu.pc = cpu.pc.wrapping_add(1);
    base
}

/// POP r16.
pub(crate) fn pop_r16(cpu: &mut CPU, bus: &mut Bus, opcode: u8, base: u16) -> (cycles: u16)
    requires
        state(*old(cpu), *old(bus)).wf(),
    ensures
        done(
            *final(cpu),
            *final(bus),
            cycles,
            state(*old(cpu), *old(bus)).spec_pop_r16(opcode, base),
        ),
        cycles == base || 8 <= cycles <= 16,
{
    let new_value = cpu.pop16(bus);
    cpu.registers.set_16bit_reg(Register16Bit::from_r16stk((opcode / 16) % 4), new_value);
    cpu.pc = cpu.pc.wrapping_add(1);
    base
}

/// LD SP, HL.
pub(crate) fn ld_sp_hl(cpu: &mut CPU, bus: &mut Bus, opcode: u8, base: u16) -> (cycles: u16)
    requires
        state(*old(cpu), *old(bus)).wf(),
    ensures
        done(
            *final(cpu),
            *final(bus),
            cycles,
            state(*old(cpu), *old(bus)).spec_ld_sp_hl(opcode, base),
        ),
        cycles == base || 8 <= cycles <= 16,
{
    let hl_value = cpu.registers.get_16bit_reg(Register16Bit::HL);
    cpu.registers.set_16bit_reg(Register16Bit::SP, hl_value);
    cpu.pc = cpu.pc.wrapping_add(1);
    base
}

/// LD HL, SP + e8.
pub(crate) fn ld_hl_sp_e8(cpu: &mut CPU, bus: &mut Bus, opcode: u8, base: u16) -> (cycles: u16)
    requires
        state(*old(cpu), *old(bus)).wf(),
    ensures
        done(
            *final(cpu),
            *final(bus),
            cycles,
            state(*old(cpu), *old(bus)).spec_ld_hl_sp_e8(opcode, base),
        ),
        cycles == base || 8 <= cycles <= 16,
{
    let sp_value = cpu.registers.get_16bit_reg(Register16Bit::SP);
    let offset = get_imm8(cpu, bus);
    let (value, flags) = add_sp(sp_value, offset);
    cpu.registers.set_16bit_reg(Register16Bit::HL, value);
    cpu.registers.set_flags(flags);
    cpu.pc = cpu.pc.wrapping_add(1);
    base
}

} // verus!

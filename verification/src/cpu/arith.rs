//! The handlers of the arithmetic and logic instructions.

use vstd::prelude::*;
use crate::bus::Bus;
use crate::cpu::alu::{add16, add8, add_sp, daa, dec8, inc8, rl, rlc, rr, rrc, sub8};
use crate::cpu::execute::get_imm8;
use crate::cpu::machine::{done, spec_after, state};
use crate::cpu::registers::{Flag, Flags, Register16Bit, Register8Bit};
use crate::cpu::CPU;

verus! {

/// CPL: complements the accumulator.
pub(crate) fn cpl(cpu: &mut CPU, bus: &mut Bus, opcode: u8, base: u16) -> (cycles: u16)
    requires
        state(*old(cpu), *old(bus)).wf(),
    ensures
        done(
            *final(cpu),
            *final(bus),
            cycles,
            state(*old(cpu), *old(bus)).spec_cpl(opcode, base),
        ),
        cycles == base || 8 <= cycles <= 16,
{
    let new_value = !cpu.registers.get_8bit_reg(Register8Bit::A);
    let flags = cpu.registers.flags();
    cpu.registers.set_8bit_reg(Register8Bit::A, new_value);
    cpu.registers.set_flags(Flags { n: true, h: true, ..flags });
    cpu.pc = cpu.pc.wrapping_add(1);
    base
}

/// CCF: complements the carry flag.
pub(crate) fn ccf(cpu: &mut CPU, bus: &mut Bus, opcode: u8, base: u16) -> (cycles: u16)
    requires
        state(*old(cpu), *old(bus)).wf(),
    ensures
        done(
            *final(cpu),
            *final(bus),
            cycles,
            state(*old(cpu), *old(bus)).spec_ccf(opcode, base),
        ),
        cycles == base || 8 <= cycles <= 16,
{
    let flags = cpu.registers.flags();
    cpu.registers.set_flags(Flags { n: false, h: false, c: !flags.c, ..flags });
    cpu.pc = cpu.pc.wrapping_add(1);
    base
}

/// SCF: sets the carry flag.
pub(crate) fn scf(cpu: &mut CPU, bus: &mut Bus, opcode: u8, base: u16) -> (cycles: u16)
    requires
        state(*old(cpu), *old(bus)).wf(),
    ensures
        done(
            *final(cpu),
            *final(bus),
            cycles,
            state(*old(cpu), *old(bus)).spec_scf(opcode, base),
        ),
        cycles == base || 8 <= cycles <= 16,
{
    let flags = cpu.registers.flags();
    cpu.registers.set_flags(Flags { n: false, h: false, c: true, ..flags });
    cpu.pc = cpu.pc.wrapping_add(1);
    base
}

/// DAA: adjusts the accumulator to packed decimal.
pub(crate) fn daa_a(cpu: &mut CPU, bus: &mut Bus, opcode: u8, base: u16) -> (cycles: u16)
    requires
        state(*old(cpu), *old(bus)).wf(),
    ensures
        done(
            *final(cpu),
            *final(bus),
            cycles,
            state(*old(cpu), *old(bus)).spec_daa(opcode, base),
        ),
        cycles == base || 8 <= cycles <= 16,
{
    let (new_value, flags) = daa(cpu.registers.get_8bit_reg(Register8Bit::A), cpu.registers.flags());
    cpu.registers.set_8bit_reg(Register8Bit::A, new_value);
    cpu.registers.set_flags(flags);
    cpu.pc = cpu.pc.wrapping_add(1);
    base
}

/// ADD SP, e8.
pub(crate) fn add_sp_e8(cpu: &mut CPU, bus: &mut Bus, opcode: u8, base: u16) -> (cycles: u16)
    requires
        state(*old(cpu), *old(bus)).wf(),
    ensures
        done(
            *final(cpu),
            *final(bus),
            cycles,
            state(*old(cpu), *old(bus)).spec_add_sp_e8(opcode, base),
        ),
        cycles == base || 8 <= cycles <= 16,
{
    let offset = get_imm8(cpu, bus);
    let sp_value = cpu.registers.get_16bit_reg(Register16Bit::SP);
    let (value, flags) = add_sp(sp_value, offset);
    cpu.registers.set_16bit_reg(Register16Bit::SP, value);
    cpu.registers.set_flags(flags);
    cpu.pc = cpu.pc.wrapping_add(1);
    base
}

/// Fetches the right-hand operand of an arithmetic or logic instruction;
/// for a constant the program counter moves on to it.
fn alu_operand(cpu: &mut CPU, bus: &Bus, opcode: u8) -> (operand: u8)
    requires
        bus@.wf(),
    ensures
        operand == state(*old(cpu), *bus).alu_operand(opcode),
        *final(cpu) == (CPU {
            pc: if opcode >= 0xC0 {
                spec_after(old(cpu).pc, 1)
            } else {
                old(cpu).pc
            },
            ..*old(cpu)
        }),
{
    if opcode >= 0xC0 {
        get_imm8(cpu, bus)
    } else {
        let r8 = Register8Bit::from_r8(opcode % 8);
        cpu.get_8bit_reg(bus, r8)
    }
}

/// Stores the result of an arithmetic or logic instruction and steps over
/// the instruction's last byte.
fn alu_done(cpu: &mut CPU, opcode: u8, base: u16, value: u8, flags: Flags) -> (cycles: u16)
    ensures
        final(cpu).registers == old(cpu).registers.spec_set_8bit_reg(
            Register8Bit::A,
            value,
        ).spec_set_flags(flags),
        final(cpu).registers.wf(),
        *final(cpu) == (CPU {
            registers: final(cpu).registers,
            pc: spec_after(old(cpu).pc, 1),
            ..*old(cpu)
        }),
        cycles == if opcode < 0xC0 && opcode % 8 == 6 {
            8
        } else {
            base
        },
{
    cpu.registers.set_8bit_reg(Register8Bit::A, value);
    cpu.registers.set_flags(flags);
    cpu.pc = cpu.pc.wrapping_add(1);
    if opcode < 0xC0 && opcode % 8 == 6 {
        8
    } else {
        base
    }
}

/// ADD and ADC.
pub(crate) fn add_adc(cpu: &mut CPU, bus: &mut Bus, opcode: u8, base: u16) -> (cycles: u16)
    requires
        state(*old(cpu), *old(bus)).wf(),
    ensures
        done(
            *final(cpu),
            *final(bus),
            cycles,
            state(*old(cpu), *old(bus)).spec_add_adc(opcode, base),
        ),
        cycles == base || 8 <= cycles <= 16,
{
    let a_value = cpu.registers.get_8bit_reg(Register8Bit::A);
    let carry = (opcode / 8) % 2 == 1 && cpu.registers.get_flag(Flag::C);
    let rhs_value = alu_operand(cpu, bus, opcode);
    let (new_value, flags) = add8(a_value, rhs_value, carry);
    alu_done(cpu, opcode, base, new_value, flags)
}

/// SUB and SBC.
pub(crate) fn sub_sbc(cpu: &mut CPU, bus: &mut Bus, opcode: u8, base: u16) -> (cycles: u16)
    requires
        state(*old(cpu), *old(bus)).wf(),
    ensures
        done(
            *final(cpu),
            *final(bus),
            cycles,
            state(*old(cpu), *old(bus)).spec_sub_sbc(opcode, base),
        ),
        cycles == base || 8 <= cycles <= 16,
{
    let a_value = cpu.registers.get_8bit_reg(Register8Bit::A);
    let carry = (opcode / 8) % 2 == 1 && cpu.registers.get_flag(Flag::C);
    let rhs_value = alu_operand(cpu, bus, opcode);
    let (new_value, flags) = sub8(a_value, rhs_value, carry);
    alu_done(cpu, opcode, base, new_value, flags)
}

/// AND.
pub(crate) fn and(cpu: &mut CPU, bus: &mut Bus, opcode: u8, base: u16) -> (cycles: u16)
    requires
        state(*old(cpu), *old(bus)).wf(),
    ensures
        done(
            *final(cpu),
            *final(bus),
            cycles,
            state(*old(cpu), *old(bus)).spec_and(opcode, base),
        ),
        cycles == base || 8 <= cycles <= 16,
{
    let a_value = cpu.registers.get_8bit_reg(Register8Bit::A);
    let rhs_value = alu_operand(cpu, bus, opcode);
    let new_value = a_value & rhs_value;
    alu_done(cpu, opcode, base, new_value, Flags { z: new_value == 0, n: false, h: true, c: false })
}

/// XOR.
pub(crate) fn xor(cpu: &mut CPU, bus: &mut Bus, opcode: u8, base: u16) -> (cycles: u16)
    requires
        state(*old(cpu), *old(bus)).wf(),
    ensures
        done(
            *final(cpu),
            *final(bus),
            cycles,
            state(*old(cpu), *old(bus)).spec_xor(opcode, base),
        ),
        cycles == base || 8 <= cycles <= 16,
{
    let a_value = cpu.registers.get_8bit_reg(Register8Bit::A);
    let rhs_value = alu_operand(cpu, bus, opcode);
    let new_value = a_value ^ rhs_value;
    alu_done(
        cpu,
        opcode,
        base,
        new_value,
        Flags { z: new_value == 0, n: false, h: false, c: false },
    )
}

/// OR.
pub(crate) fn or(cpu: &mut CPU, bus: &mut Bus, opcode: u8, base: u16) -> (cycles: u16)
    requires
        state(*old(cpu), *old(bus)).wf(),
    ensures
        done(*final(cpu), *final(bus), cycles, state(*old(cpu), *old(bus)).spec_or(opcode, base)),
        cycles == base || 8 <= cycles <= 16,
{
    let a_value = cpu.registers.get_8bit_reg(Register8Bit::A);
    let rhs_value = alu_operand(cpu, bus, opcode);
    let new_value = a_value | rhs_value;
    alu_done(
        cpu,
        opcode,
        base,
        new_value,
        Flags { z: new_value == 0, n: false, h: false, c: false },
    )
}

/// CP.
pub(crate) fn cp(cpu: &mut CPU, bus: &mut Bus, opcode: u8, base: u16) -> (cycles: u16)
    requires
        state(*old(cpu), *old(bus)).wf(),
    ensures
        done(*final(cpu), *final(bus), cycles, state(*old(cpu), *old(bus)).spec_cp(opcode, base)),
        cycles == base || 8 <= cycles <= 16,
{
    let a_value = cpu.registers.get_8bit_reg(Register8Bit::A);
    let rhs_value = alu_operand(cpu, bus, opcode);
    let (_, flags) = sub8(a_value, rhs_value, false);
    alu_done(cpu, opcode, base, a_value, flags)
}

/// INC r16.
pub(crate) fn inc_r16(cpu: &mut CPU, bus: &mut Bus, opcode: u8, base: u16) -> (cycles: u16)
    requires
        state(*old(cpu), *old(bus)).wf(),
        opcode < 0x40,
    ensures
        done(
            *final(cpu),
            *final(bus),
            cycles,
            state(*old(cpu), *old(bus)).spec_inc_r16(opcode, base),
        ),
        cycles == base || 8 <= cycles <= 16,
{
    let reg = Register16Bit::from_r16(opcode / 16);
    let new_value = cpu.registers.get_16bit_reg(reg).wrapping_add(1);
    cpu.registers.set_16bit_reg(reg, new_value);
    cpu.pc = cpu.pc.wrapping_add(1);
    base
}

/// DEC r16.
pub(crate) fn dec_r16(cpu: &mut CPU, bus: &mut Bus, opcode: u8, base: u16) -> (cycles: u16)
    requires
        state(*old(cpu), *old(bus)).wf(),
        opcode < 0x40,
    ensures
        done(
            *final(cpu),
            *final(bus),
            cycles,
            state(*old(cpu), *old(bus)).spec_dec_r16(opcode, base),
        ),
        cycles == base || 8 <= cycles <= 16,
{
    let reg = Register16Bit::from_r16(opcode / 16);
    let new_value = cpu.registers.get_16bit_reg(reg).wrapping_sub(1);
    cpu.registers.set_16bit_reg(reg, new_value);
    cpu.pc = cpu.pc.wrapping_add(1);
    base
}

/// INC r8.
pub(crate) fn inc_r8(cpu: &mut CPU, bus: &mut Bus, opcode: u8, base: u16) -> (cycles: u16)
    requires
        state(*old(cpu), *old(bus)).wf(),
    ensures
        done(
            *final(cpu),
            *final(bus),
            cycles,
            state(*old(cpu), *old(bus)).spec_inc_r8(opcode, base),
        ),
        cycles == base || 8 <= cycles <= 16,
{
    let reg = Register8Bit::from_r8((opcode / 8) % 8);
    let old_value = cpu.get_8bit_reg(bus, reg);
    let (new_value, flags) = inc8(old_value, cpu.registers.flags());
    cpu.set_8bit_reg(bus, reg, new_value);
    cpu.registers.set_flags(flags);
    cpu.pc = cpu.pc.wrapping_add(1);
    base
}

/// DEC r8.
pub(crate) fn dec_r8(cpu: &mut CPU, bus: &mut Bus, opcode: u8, base: u16) -> (cycles: u16)
    requires
        state(*old(cpu), *old(bus)).wf(),
    ensures
        done(
            *final(cpu),
            *final(bus),
            cycles,
            state(*old(cpu), *old(bus)).spec_dec_r8(opcode, base),
        ),
        cycles == base || 8 <= cycles <= 16,
{
    let reg = Register8Bit::from_r8((opcode / 8) % 8);
    let old_value = cpu.get_8bit_reg(bus, reg);
    let (new_value, flags) = dec8(old_value, cpu.registers.flags());
    cpu.set_8bit_reg(bus, reg, new_value);
    cpu.registers.set_flags(flags);
    cpu.pc = cpu.pc.wrapping_add(1);
    base
}

/// ADD HL, r16.
pub(crate) fn add_hl_r16(cpu: &mut CPU, bus: &mut Bus, opcode: u8, base: u16) -> (cycles: u16)
    requires
        state(*old(cpu), *old(bus)).wf(),
        opcode < 0x40,
    ensures
        done(
            *final(cpu),
            *final(bus),
            cycles,
            state(*old(cpu), *old(bus)).spec_add_hl_r16(opcode, base),
        ),
        cycles == base || 8 <= cycles <= 16,
{
    let lhs = cpu.registers.get_16bit_reg(Register16Bit::HL);
    let rhs = cpu.registers.get_16bit_reg(Register16Bit::from_r16(opcode / 16));
    let (new_hl, flags) = add16(lhs, rhs, cpu.registers.flags());
    cpu.registers.set_16bit_reg(Register16Bit::HL, new_hl);
    cpu.registers.set_flags(flags);
    cpu.pc = cpu.pc.wrapping_add(1);
    base
}

/// RLCA and RRCA.
pub(crate) fn rlca_rrca(cpu: &mut CPU, bus: &mut Bus, opcode: u8, base: u16) -> (cycles: u16)
    requires
        state(*old(cpu), *old(bus)).wf(),
    ensures
        done(
            *final(cpu),
            *final(bus),
            cycles,
            state(*old(cpu), *old(bus)).spec_rlca_rrca(opcode, base),
        ),
        cycles == base || 8 <= cycles <= 16,
{
    let old_a = cpu.registers.get_8bit_reg(Register8Bit::A);
    let (new_value, flags) = if opcode == 0x0F {
        rrc(old_a)
    } else {
        rlc(old_a)
    };
    cpu.registers.set_8bit_reg(Register8Bit::A, new_value);
    cpu.registers.set_flags(Flags { z: false, ..flags });
    cpu.pc = cpu.pc.wrapping_add(1);
    base
}

/// RLA and RRA.
pub(crate) fn rla_rra(cpu: &mut CPU, bus: &mut Bus, opcode: u8, base: u16) -> (cycles: u16)
    requires
        state(*old(cpu), *old(bus)).wf(),
    ensures
        done(
            *final(cpu),
            *final(bus),
            cycles,
            state(*old(cpu), *old(bus)).spec_rla_rra(opcode, base),
        ),
        cycles == base || 8 <= cycles <= 16,
{
    let old_a = cpu.registers.get_8bit_reg(Register8Bit::A);
    let old_carry = cpu.registers.get_flag(Flag::C);
    let (new_value, flags) = if opcode == 0x17 {
        rl(old_a, old_carry)
    } else {
        rr(old_a, old_carry)
    };
    cpu.registers.set_8bit_reg(Register8Bit::A, new_value);
    cpu.registers.set_flags(Flags { z: false, ..flags });
    cpu.pc = cpu.pc.wrapping_add(1);
    base
}

} // verus!

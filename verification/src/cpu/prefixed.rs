//! The handlers of the instructions behind the prefix 0xCB: rotates, shifts
//! and single bits.

use vstd::prelude::*;
use crate::bus::Bus;
use crate::cpu::alu::{reset_bit, rl, rlc, rr, rrc, set_bit, sla, sra, srl, swap, test_bit};
use crate::cpu::machine::{done, state};
use crate::cpu::registers::{Flag, Flags, Register8Bit};
use crate::cpu::CPU;

verus! {

/// Stores the result of a prefixed instruction in its operand and steps
/// over the opcode.
fn prefixed_done(
    cpu: &mut CPU,
    bus: &mut Bus,
    opcode: u8,
    base: u16,
    value: u8,
    flags: Flags,
) -> (cycles: u16)
    requires
        state(*old(cpu), *old(bus)).wf(),
    ensures
        done(
            *final(cpu),
            *final(bus),
            cycles,
            state(*old(cpu), *old(bus)).prefixed_done(opcode, base, value, flags),
        ),
        cycles == base || 8 <= cycles <= 16,
{
    let r8 = Register8Bit::from_r8(opcode % 8);
    cpu.set_8bit_reg(bus, r8, value);
    cpu.registers.set_flags(flags);
    cpu.pc = cpu.pc.wrapping_add(1);
    if r8 == Register8Bit::HL {
        16
    } else {
        base
    }
}

/// RLC and RRC.
pub(crate) fn rlc_rrc_r8(cpu: &mut CPU, bus: &mut Bus, opcode: u8, base: u16) -> (cycles: u16)
    requires
        state(*old(cpu), *old(bus)).wf(),
    ensures
        done(
            *final(cpu),
            *final(bus),
            cycles,
            state(*old(cpu), *old(bus)).spec_rlc_rrc_r8(opcode, base),
        ),
        cycles == base || 8 <= cycles <= 16,
{
    let old_value = cpu.get_8bit_reg(bus, Register8Bit::from_r8(opcode % 8));
    let (new_value, flags) = if (opcode / 8) % 2 == 1 {
        rrc(old_value)
    } else {
        rlc(old_value)
    };
    prefixed_done(cpu, bus, opcode, base, new_value, flags)
}

/// RL and RR.
pub(crate) fn rl_rr_r8(cpu: &mut CPU, bus: &mut Bus, opcode: u8, base: u16) -> (cycles: u16)
    requires
        state(*old(cpu), *old(bus)).wf(),
    ensures
        done(
            *final(cpu),
            *final(bus),
            cycles,
            state(*old(cpu), *old(bus)).spec_rl_rr_r8(opcode, base),
        ),
        cycles == base || 8 <= cycles <= 16,
{
    let old_value = cpu.get_8bit_reg(bus, Register8Bit::from_r8(opcode % 8));
    let old_carry = cpu.registers.get_flag(Flag::C);
    let (new_value, flags) = if (opcode / 8) % 2 == 1 {
        rr(old_value, old_carry)
    } else {
        rl(old_value, old_carry)
    };
    prefixed_done(cpu, bus, opcode, base, new_value, flags)
}

/// SLA and SRA.
pub(crate) fn sla_sra_r8(cpu: &mut CPU, bus: &mut Bus, opcode: u8, base: u16) -> (cycles: u16)
    requires
        state(*old(cpu), *old(bus)).wf(),
    ensures
        done(
            *final(cpu),
            *final(bus),
            cycles,
            state(*old(cpu), *old(bus)).spec_sla_sra_r8(opcode, base),
        ),
        cycles == base || 8 <= cycles <= 16,
{
    let old_value = cpu.get_8bit_reg(bus, Register8Bit::from_r8(opcode % 8));
    let (new_value, flags) = if (opcode / 8) % 2 == 1 {
        sra(old_value)
    } else {
        sla(old_value)
    };
    prefixed_done(cpu, bus, opcode, base, new_value, flags)
}

/// SWAP.
pub(crate) fn swap_r8(cpu: &mut CPU, bus: &mut Bus, opcode: u8, base: u16) -> (cycles: u16)
    requires
        state(*old(cpu), *old(bus)).wf(),
    ensures
        done(
            *final(cpu),
            *final(bus),
            cycles,
            state(*old(cpu), *old(bus)).spec_swap_r8(opcode, base),
        ),
        cycles == base || 8 <= cycles <= 16,
{
    let old_value = cpu.get_8bit_reg(bus, Register8Bit::from_r8(opcode % 8));
    let (new_value, flags) = swap(old_value);
    prefixed_done(cpu, bus, opcode, base, new_value, flags)
}

/// SRL.
pub(crate) fn srl_r8(cpu: &mut CPU, bus: &mut Bus, opcode: u8, base: u16) -> (cycles: u16)
    requires
        state(*old(cpu), *old(bus)).wf(),
    ensures
        done(
            *final(cpu),
            *final(bus),
            cycles,
            state(*old(cpu), *old(bus)).spec_srl_r8(opcode, base),
        ),
        cycles == base || 8 <= cycles <= 16,
{
    let old_value = cpu.get_8bit_reg(bus, Register8Bit::from_r8(opcode % 8));
    let (new_value, flags) = srl(old_value);
    prefixed_done(cpu, bus, opcode, base, new_value, flags)
}

/// BIT.
pub(crate) fn bit_u3_r8(cpu: &mut CPU, bus: &mut Bus, opcode: u8, base: u16) -> (cycles: u16)
    requires
        state(*old(cpu), *old(bus)).wf(),
    ensures
        done(
            *final(cpu),
            *final(bus),
            cycles,
            state(*old(cpu), *old(bus)).spec_bit_u3_r8(opcode, base),
        ),
        cycles == base || 8 <= cycles <= 16,
{
    let r8 = Register8Bit::from_r8(opcode % 8);
    let u3 = (opcode / 8) % 8;
    let value = cpu.get_8bit_reg(bus, r8);
    let flags = test_bit(value, u3, cpu.registers.flags());
    cpu.registers.set_flags(flags);
    cpu.pc = cpu.pc.wrapping_add(1);
    if r8 == Register8Bit::HL {
        12
    } else {
        base
    }
}

/// RES.
pub(crate) fn res_u3_r8(cpu: &mut CPU, bus: &mut Bus, opcode: u8, base: u16) -> (cycles: u16)
    requires
        state(*old(cpu), *old(bus)).wf(),
    ensures
        done(
            *final(cpu),
            *final(bus),
            cycles,
            state(*old(cpu), *old(bus)).spec_res_u3_r8(opcode, base),
        ),
        cycles == base || 8 <= cycles <= 16,
{
    let u3 = (opcode / 8) % 8;
    let new_value = reset_bit(cpu.get_8bit_reg(bus, Register8Bit::from_r8(opcode % 8)), u3);
    let flags = cpu.registers.flags();
    prefixed_done(cpu, bus, opcode, base, new_value, flags)
}

/// SET.
pub(crate) fn set_u3_r8(cpu: &mut CPU, bus: &mut Bus, opcode: u8, base: u16) -> (cycles: u16)
    requires
        state(*old(cpu), *old(bus)).wf(),
    ensures
        done(
            *final(cpu),
            *final(bus),
            cycles,
            state(*old(cpu), *old(bus)).spec_set_u3_r8(opcode, base),
        ),
        cycles == base || 8 <= cycles <= 16,
{
    let u3 = (opcode / 8) % 8;
    let new_value = set_bit(cpu.get_8bit_reg(bus, Register8Bit::from_r8(opcode % 8)), u3);
    let flags = cpu.registers.flags();
    prefixed_done(cpu, bus, opcode, base, new_value, flags)
}

} // verus!

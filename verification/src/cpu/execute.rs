//! The handlers of the instructions that steer the processor: jumps, calls,
//! returns and the interrupt switches.

use vstd::prelude::*;
use crate::bus::Bus;
use crate::cpu::alu::offset_by;
use crate::cpu::instructions::Cond;
use crate::cpu::machine::{done, spec_after, state};
use crate::cpu::registers::{word, Flag, Register16Bit};
use crate::cpu::CPU;

verus! {

/// Moves the program counter to the byte after the opcode and reads it.
pub fn get_imm8(cpu: &mut CPU, bus: &Bus) -> (value: u8)
    requires
        bus@.wf(),
    ensures
        value == state(*old(cpu), *bus).imm8(),
        *final(cpu) == (CPU { pc: spec_after(old(cpu).pc, 1), ..*old(cpu) }),
{
    cpu.pc = cpu.pc.wrapping_add(1);
    bus.read_byte(cpu.pc)
}

/// Moves the program counter to the second byte after the opcode and reads
/// the word that these two bytes hold, low byte first.
pub fn get_imm16(cpu: &mut CPU, bus: &Bus) -> (value: u16)
    requires
        bus@.wf(),
    ensures
        value == state(*old(cpu), *bus).imm16(),
        *final(cpu) == (CPU { pc: spec_after(old(cpu).pc, 2), ..*old(cpu) }),
{
    cpu.pc = cpu.pc.wrapping_add(1);
    let lo_byte = bus.read_byte(cpu.pc);
    cpu.pc = cpu.pc.wrapping_add(1);
    let hi_byte = bus.read_byte(cpu.pc);
    word(hi_byte, lo_byte)
}

/// Whether a jump, call or return with opcode `opcode` is taken.
fn taken(cpu: &CPU, unconditional: bool, opcode: u8) -> (jump: bool)
    ensures
        forall|bus: Bus| jump == (#[trigger] state(*cpu, bus)).taken(unconditional, opcode),
{
    if unconditional {
        true
    } else {
        let cond = Cond::new((opcode / 8) % 4);
        let z = cpu.registers.get_flag(Flag::Z);
        let c = cpu.registers.get_flag(Flag::C);
        match cond {
            Cond::NZ => !z,
            Cond::Z => z,
            Cond::NC => !c,
            Cond::C => c,
        }
    }
}

/// NOP.
pub(crate) fn nop(cpu: &mut CPU, bus: &mut Bus, opcode: u8, base: u16) -> (cycles: u16)
    requires
        state(*old(cpu), *old(bus)).wf(),
    ensures
        done(
            *final(cpu),
            *final(bus),
            cycles,
            state(*old(cpu), *old(bus)).spec_nop(opcode, base),
        ),
        cycles == base || 8 <= cycles <= 16,
{
    cpu.pc = cpu.pc.wrapping_add(1);
    base
}

/// EI: enables interrupts after the next instruction.
pub(crate) fn ei(cpu: &mut CPU, bus: &mut Bus, opcode: u8, base: u16) -> (cycles: u16)
    requires
        state(*old(cpu), *old(bus)).wf(),
    ensures
        done(*final(cpu), *final(bus), cycles, state(*old(cpu), *old(bus)).spec_ei(opcode, base)),
        cycles == base || 8 <= cycles <= 16,
{
    cpu.ei = 1;
    cpu.pc = cpu.pc.wrapping_add(1);
    base
}

/// DI: disables interrupts.
pub(crate) fn di(cpu: &mut CPU, bus: &mut Bus, opcode: u8, base: u16) -> (cycles: u16)
    requires
        state(*old(cpu), *old(bus)).wf(),
    ensures
        done(*final(cpu), *final(bus), cycles, state(*old(cpu), *old(bus)).spec_di(opcode, base)),
        cycles == base || 8 <= cycles <= 16,
{
    cpu.ime = false;
    cpu.ei = 0;
    cpu.pc = cpu.pc.wrapping_add(1);
    base
}

/// HALT: suspends the processor until an interrupt is pending.
pub(crate) fn halt(cpu: &mut CPU, bus: &mut Bus, opcode: u8, base: u16) -> (cycles: u16)
    requires
        state(*old(cpu), *old(bus)).wf(),
    ensures
        done(
            *final(cpu),
            *final(bus),
            cycles,
            state(*old(cpu), *old(bus)).spec_halt(opcode, base),
        ),
        cycles == base || 8 <= cycles <= 16,
{
    cpu.halted = true;
    cpu.pc = cpu.pc.wrapping_add(1);
    base
}

/// STOP: treated as a one-byte no-op.
pub(crate) fn stop(cpu: &mut CPU, bus: &mut Bus, opcode: u8, base: u16) -> (cycles: u16)
    requires
        state(*old(cpu), *old(bus)).wf(),
    ensures
        done(
            *final(cpu),
            *final(bus),
            cycles,
            state(*old(cpu), *old(bus)).spec_stop(opcode, base),
        ),
        cycles == base || 8 <= cycles <= 16,
{
    cpu.pc = cpu.pc.wrapping_add(1);
    base
}

/// JR: a relative jump, conditional or not.
pub(crate) fn jr_cond_e8(cpu: &mut CPU, bus: &mut Bus, opcode: u8, base: u16) -> (cycles: u16)
    requires
        state(*old(cpu), *old(bus)).wf(),
    ensures
        done(
            *final(cpu),
            *final(bus),
            cycles,
            state(*old(cpu), *old(bus)).spec_jr_cond_e8(opcode, base),
        ),
        cycles == base || 8 <= cycles <= 16,
{
    let jump = taken(cpu, opcode == 0x18, opcode);
    assert(jump == state(*cpu, *bus).taken(opcode == 0x18, opcode));
    // the offset is fetched every time, even if the jump is not taken
    let offset = get_imm8(cpu, bus);
    let next = cpu.pc.wrapping_add(1);
    if !jump {
        cpu.pc = next;
        return 8;
    }
    cpu.pc = offset_by(next, offset);
    base
}

/// JP: an absolute jump, conditional or not.
pub(crate) fn jp_cond_a16(cpu: &mut CPU, bus: &mut Bus, opcode: u8, base: u16) -> (cycles: u16)
    requires
        state(*old(cpu), *old(bus)).wf(),
    ensures
        done(
            *final(cpu),
            *final(bus),
            cycles,
            state(*old(cpu), *old(bus)).spec_jp_cond_a16(opcode, base),
        ),
        cycles == base || 8 <= cycles <= 16,
{
    let jump = taken(cpu, opcode == 0xC3, opcode);
    assert(jump == state(*cpu, *bus).taken(opcode == 0xC3, opcode));
    if !jump {
        cpu.pc = cpu.pc.wrapping_add(3);
        return 12;
    }
    let new_addr = get_imm16(cpu, bus);
    cpu.pc = new_addr;
    base
}

/// JP HL: a jump to the address in HL.
pub(crate) fn jp_hl(cpu: &mut CPU, bus: &mut Bus, opcode: u8, base: u16) -> (cycles: u16)
    requires
        state(*old(cpu), *old(bus)).wf(),
    ensures
        done(
            *final(cpu),
            *final(bus),
            cycles,
            state(*old(cpu), *old(bus)).spec_jp_hl(opcode, base),
        ),
        cycles == base || 8 <= cycles <= 16,
{
    cpu.pc = cpu.registers.get_16bit_reg(Register16Bit::HL);
    base
}

/// CALL: a call, conditional or not.
pub(crate) fn call_cond_a16(cpu: &mut CPU, bus: &mut Bus, opcode: u8, base: u16) -> (cycles: u16)
    requires
        state(*old(cpu), *old(bus)).wf(),
    ensures
        done(
            *final(cpu),
            *final(bus),
            cycles,
            state(*old(cpu), *old(bus)).spec_call_cond_a16(opcode, base),
        ),
        cycles == base || 8 <= cycles <= 16,
{
    let jump = taken(cpu, opcode == 0xCD, opcode);
    assert(jump == state(*cpu, *bus).taken(opcode == 0xCD, opcode));
    if !jump {
        cpu.pc = cpu.pc.wrapping_add(3);
        return 12;
    }
    let new_addr = get_imm16(cpu, bus);
    cpu.pc = cpu.pc.wrapping_add(1);
    let return_addr = cpu.pc;
    cpu.push16(bus, return_addr);
    cpu.pc = new_addr;
    base
}

/// RET and RETI: a return, conditional or not.
pub(crate) fn ret_cond(cpu: &mut CPU, bus: &mut Bus, opcode: u8, base: u16) -> (cycles: u16)
    requires
        state(*old(cpu), *old(bus)).wf(),
    ensures
        done(
            *final(cpu),
            *final(bus),
            cycles,
            state(*old(cpu), *old(bus)).spec_ret_cond(opcode, base),
        ),
        cycles == base || 8 <= cycles <= 16,
{
    let jump = taken(cpu, opcode % 2 == 1, opcode);
    assert(jump == state(*cpu, *bus).taken(opcode % 2 == 1, opcode));
    if opcode == 0xD9 {
        cpu.ime = true;
    }
    if !jump {
        cpu.pc = cpu.pc.wrapping_add(1);
        return 8;
    }
    let new_addr = cpu.pop16(bus);
    cpu.pc = new_addr;
    base
}

/// RST: a call to one of eight fixed addresses.
pub(crate) fn rst(cpu: &mut CPU, bus: &mut Bus, opcode: u8, base: u16) -> (cycles: u16)
    requires
        state(*old(cpu), *old(bus)).wf(),
    ensures
        done(
            *final(cpu),
            *final(bus),
            cycles,
            state(*old(cpu), *old(bus)).spec_rst(opcode, base),
        ),
        cycles == base || 8 <= cycles <= 16,
{
    let vec = ((opcode / 8) % 8) * 8;
    let return_addr = cpu.pc.wrapping_add(1);
    cpu.push16(bus, return_addr);
    cpu.pc = vec as u16;
    base
}

} // verus!

//! What each instruction does to the state of the machine, and what it
//! costs. Each function takes the opcode and the cost that the table holds
//! for it, and gives the state after the instruction and its actual cost in
//! T-states.

use vstd::prelude::*;
use crate::bus::is_plain_memory;
use crate::cpu::alu::{
    spec_add16, spec_add8, spec_add_sp, spec_bit, spec_daa, spec_dec8, spec_inc8,
    spec_logic_flags, spec_offset_by, spec_res, spec_rl, spec_rlc, spec_rr, spec_rrc, spec_set,
    spec_sla, spec_sra, spec_srl, spec_sub8, spec_swap,
};
use crate::cpu::instructions::Cond;
use crate::cpu::machine::{spec_after, spec_before, Machine};
use crate::cpu::registers::{Flags, Register16Bit, Register8Bit};
use crate::cpu::CPU;

verus! {

impl Machine {
    /// The 8-bit operand that the lower three bits of `opcode` name.
    pub open spec fn source(self, opcode: u8) -> Register8Bit {
        Register8Bit::spec_from_r8(opcode % 8)
    }

    /// The 8-bit operand that the middle three bits of `opcode` name.
    pub open spec fn target(self, opcode: u8) -> Register8Bit {
        Register8Bit::spec_from_r8((opcode / 8) % 8)
    }

    /// Whether a jump, call or return with opcode `opcode` is taken: those
    /// without a condition always, the others if the condition holds that
    /// bits 3 and 4 of the opcode name.
    pub open spec fn taken(self, unconditional: bool, opcode: u8) -> bool {
        unconditional || self.condition(Cond::spec_new((opcode / 8) % 4))
    }

    /// NOP.
    pub open spec fn spec_nop(self, opcode: u8, base: u16) -> (Self, u16) {
        (self.advance(1), base)
    }

    /// EI: interrupts are enabled once the instruction after this one has
    /// been executed.
    pub open spec fn spec_ei(self, opcode: u8, base: u16) -> (Self, u16) {
        (Machine { cpu: CPU { ei: 1, ..self.cpu }, ..self }.advance(1), base)
    }

    /// DI: interrupts are disabled at once, and a pending EI is dropped.
    pub open spec fn spec_di(self, opcode: u8, base: u16) -> (Self, u16) {
        (Machine { cpu: CPU { ime: false, ei: 0, ..self.cpu }, ..self }.advance(1), base)
    }

    /// HALT: the processor rests until an interrupt is pending.
    pub open spec fn spec_halt(self, opcode: u8, base: u16) -> (Self, u16) {
        (Machine { cpu: CPU { halted: true, ..self.cpu }, ..self }.advance(1), base)
    }

    /// STOP: treated as a no-op of one byte.
    pub open spec fn spec_stop(self, opcode: u8, base: u16) -> (Self, u16) {
        (self.advance(1), base)
    }

    /// CPL: flags - 1 1 -.
    pub open spec fn spec_cpl(self, opcode: u8, base: u16) -> (Self, u16) {
        (
            self.with_a(!self.regs().a).with_flags(
                Flags { n: true, h: true, ..self.flags() },
            ).advance(1),
            base,
        )
    }

    /// CCF: flags - 0 0 !C.
    pub open spec fn spec_ccf(self, opcode: u8, base: u16) -> (Self, u16) {
        (
            self.with_flags(
                Flags { n: false, h: false, c: !self.flags().c, ..self.flags() },
            ).advance(1),
            base,
        )
    }

    /// SCF: flags - 0 0 1.
    pub open spec fn spec_scf(self, opcode: u8, base: u16) -> (Self, u16) {
        (self.with_flags(Flags { n: false, h: false, c: true, ..self.flags() }).advance(1), base)
    }

    /// DAA: flags Z - 0 C.
    pub open spec fn spec_daa(self, opcode: u8, base: u16) -> (Self, u16) {
        let (value, flags) = spec_daa(self.regs().a, self.flags());
        (self.with_a(value).with_flags(flags).advance(1), base)
    }

    /// JR: a jump relative to the instruction that follows. 12 T-states if
    /// taken, 8 if not.
    pub open spec fn spec_jr_cond_e8(self, opcode: u8, base: u16) -> (Self, u16) {
        if self.taken(opcode == 0x18, opcode) {
            (self.jump(spec_offset_by(spec_after(self.cpu.pc, 2), self.imm8())), base)
        } else {
            (self.advance(2), 8)
        }
    }

    /// JP: 16 T-states if taken, 12 if not.
    pub open spec fn spec_jp_cond_a16(self, opcode: u8, base: u16) -> (Self, u16) {
        if self.taken(opcode == 0xC3, opcode) {
            (self.jump(self.imm16()), base)
        } else {
            (self.advance(3), 12)
        }
    }

    /// JP HL.
    pub open spec fn spec_jp_hl(self, opcode: u8, base: u16) -> (Self, u16) {
        (self.jump(self.get_r16(Register16Bit::HL)), base)
    }

    /// CALL: pushes the address of the next instruction and jumps. 24
    /// T-states if taken, 12 if not.
    pub open spec fn spec_call_cond_a16(self, opcode: u8, base: u16) -> (Self, u16) {
        if self.taken(opcode == 0xCD, opcode) {
            (self.push16(spec_after(self.cpu.pc, 3)).jump(self.imm16()), base)
        } else {
            (self.advance(3), 12)
        }
    }

    /// RET and RETI: pops the program counter; RETI also enables
    /// interrupts. A conditional return takes 20 T-states if taken and 8 if
    /// not.
    pub open spec fn spec_ret_cond(self, opcode: u8, base: u16) -> (Self, u16) {
        let enabled = Machine {
            cpu: CPU { ime: self.cpu.ime || opcode == 0xD9, ..self.cpu },
            ..self
        };
        if self.taken(opcode % 2 == 1, opcode) {
            (enabled.pop16().jump(self.top16()), base)
        } else {
            (enabled.advance(1), 8)
        }
    }

    /// RST: a call to address 0x00, 0x08, ... or 0x38.
    pub open spec fn spec_rst(self, opcode: u8, base: u16) -> (Self, u16) {
        (self.push16(spec_after(self.cpu.pc, 1)).jump((((opcode / 8) % 8) * 8) as u16), base)
    }

    /// LD r8, r8: 8 T-states if one operand is the byte at HL.
    pub open spec fn spec_ld_r8_r8(self, opcode: u8, base: u16) -> (Self, u16) {
        let src = self.source(opcode);
        let dst = self.target(opcode);
        (
            self.set_r8(dst, self.get_r8(src)).advance(1),
            if src == Register8Bit::HL || dst == Register8Bit::HL {
                8
            } else {
                base
            },
        )
    }

    /// LD r16, n16.
    pub open spec fn spec_ld_r16_imm(self, opcode: u8, base: u16) -> (Self, u16) {
        (self.set_r16(Register16Bit::spec_from_r16(opcode / 16), self.imm16()).advance(3), base)
    }

    /// LD r8, n8.
    pub open spec fn spec_ld_r8_imm(self, opcode: u8, base: u16) -> (Self, u16) {
        (self.set_r8(self.target(opcode), self.imm8()).advance(2), base)
    }

    /// LD [r16], A: stores through BC, DE, HL+ or HL-; HL moves after the
    /// store.
    pub open spec fn spec_ld_r16mem_a(self, opcode: u8, base: u16) -> (Self, u16) {
        let (reg, step) = Register16Bit::spec_from_r16mem(opcode / 16);
        let addr = self.get_r16(reg);
        (
            self.write(addr, self.regs().a).set_r16(
                reg,
                spec_after(addr, step + 65536),
            ).advance(1),
            base,
        )
    }

    /// LD A, [r16]: loads through BC, DE, HL+ or HL-; HL moves after the
    /// load.
    pub open spec fn spec_ld_a_r16mem(self, opcode: u8, base: u16) -> (Self, u16) {
        let (reg, step) = Register16Bit::spec_from_r16mem(opcode / 16);
        let addr = self.get_r16(reg);
        (
            self.with_a(self.read(addr)).set_r16(reg, spec_after(addr, step + 65536)).advance(1),
            base,
        )
    }

    /// LD A, [a16].
    pub open spec fn spec_ld_a_a16(self, opcode: u8, base: u16) -> (Self, u16) {
        (self.with_a(self.read(self.imm16())).advance(3), base)
    }

    /// LD [a16], A.
    pub open spec fn spec_ld_a16_a(self, opcode: u8, base: u16) -> (Self, u16) {
        (self.write(self.imm16(), self.regs().a).advance(3), base)
    }

    /// LDH A, [a8]: loads from 0xFF00 plus the byte after the opcode.
    pub open spec fn spec_ldh_a_a8(self, opcode: u8, base: u16) -> (Self, u16) {
        (self.with_a(self.read((0xFF00 + self.imm8()) as u16)).advance(2), base)
    }

    /// LDH [a8], A: stores at 0xFF00 plus the byte after the opcode.
    pub open spec fn spec_ldh_a8_a(self, opcode: u8, base: u16) -> (Self, u16) {
        (self.write((0xFF00 + self.imm8()) as u16, self.regs().a).advance(2), base)
    }

    /// LDH A, [C]: loads from 0xFF00 plus register C.
    pub open spec fn spec_ldh_a_c(self, opcode: u8, base: u16) -> (Self, u16) {
        (self.with_a(self.read((0xFF00 + self.regs().c) as u16)).advance(1), base)
    }

    /// LDH [C], A: stores at 0xFF00 plus register C.
    pub open spec fn spec_ldh_c_a(self, opcode: u8, base: u16) -> (Self, u16) {
        (self.write((0xFF00 + self.regs().c) as u16, self.regs().a).advance(1), base)
    }

    /// LD [a16], SP: stores the stack pointer, low byte first.
    pub open spec fn spec_ld_a16_sp(self, opcode: u8, base: u16) -> (Self, u16) {
        let addr = self.imm16();
        let sp = self.regs().sp;
        (
            self.write(addr, (sp % 256) as u8).write(
                spec_after(addr, 1),
                (sp / 256) as u8,
            ).advance(3),
            base,
        )
    }

    /// PUSH r16.
    pub open spec fn spec_push_r16(self, opcode: u8, base: u16) -> (Self, u16) {
        (
            self.push16(
                self.get_r16(Register16Bit::spec_from_r16stk((opcode / 16) % 4)),
            ).advance(1),
            base,
        )
    }

    /// POP r16: of a value popped into AF the low nibble is dropped.
    pub open spec fn spec_pop_r16(self, opcode: u8, base: u16) -> (Self, u16) {
        (
            self.pop16().set_r16(
                Register16Bit::spec_from_r16stk((opcode / 16) % 4),
                self.top16(),
            ).advance(1),
            base,
        )
    }

    /// LD SP, HL.
    pub open spec fn spec_ld_sp_hl(self, opcode: u8, base: u16) -> (Self, u16) {
        (self.set_r16(Register16Bit::SP, self.get_r16(Register16Bit::HL)).advance(1), base)
    }

    /// LD HL, SP + e8: flags 0 0 H C.
    pub open spec fn spec_ld_hl_sp_e8(self, opcode: u8, base: u16) -> (Self, u16) {
        let (value, flags) = spec_add_sp(self.regs().sp, self.imm8());
        (self.set_r16(Register16Bit::HL, value).with_flags(flags).advance(2), base)
    }

    /// ADD SP, e8: flags 0 0 H C.
    pub open spec fn spec_add_sp_e8(self, opcode: u8, base: u16) -> (Self, u16) {
        let (value, flags) = spec_add_sp(self.regs().sp, self.imm8());
        (self.set_r16(Register16Bit::SP, value).with_flags(flags).advance(2), base)
    }

    /// The right-hand operand of an arithmetic or logic instruction: the
    /// byte after the opcode from opcode 0xC0 on, else the 8-bit operand that
    /// the opcode names.
    pub open spec fn alu_operand(self, opcode: u8) -> u8 {
        if opcode >= 0xC0 {
            self.imm8()
        } else {
            self.get_r8(self.source(opcode))
        }
    }

    /// The state after an arithmetic or logic instruction that leaves
    /// `value` in the accumulator and `flags` in F, and its cost: 8 T-states
    /// with a constant or the byte at HL as operand, else 4.
    pub open spec fn alu_done(self, opcode: u8, base: u16, value: u8, flags: Flags) -> (Self, u16) {
        (
            self.with_a(value).with_flags(flags).advance(
                if opcode >= 0xC0 {
                    2
                } else {
                    1
                },
            ),
            if opcode < 0xC0 && self.source(opcode) == Register8Bit::HL {
                8
            } else {
                base
            },
        )
    }

    /// ADD and ADC: flags Z 0 H C.
    pub open spec fn spec_add_adc(self, opcode: u8, base: u16) -> (Self, u16) {
        let (value, flags) = spec_add8(
            self.regs().a,
            self.alu_operand(opcode),
            (opcode / 8) % 2 == 1 && self.flags().c,
        );
        self.alu_done(opcode, base, value, flags)
    }

    /// SUB and SBC: flags Z 1 H C.
    pub open spec fn spec_sub_sbc(self, opcode: u8, base: u16) -> (Self, u16) {
        let (value, flags) = spec_sub8(
            self.regs().a,
            self.alu_operand(opcode),
            (opcode / 8) % 2 == 1 && self.flags().c,
        );
        self.alu_done(opcode, base, value, flags)
    }

    /// AND: flags Z 0 1 0.
    pub open spec fn spec_and(self, opcode: u8, base: u16) -> (Self, u16) {
        let value = self.regs().a & self.alu_operand(opcode);
        self.alu_done(opcode, base, value, spec_logic_flags(value, true))
    }

    /// XOR: flags Z 0 0 0.
    pub open spec fn spec_xor(self, opcode: u8, base: u16) -> (Self, u16) {
        let value = self.regs().a ^ self.alu_operand(opcode);
        self.alu_done(opcode, base, value, spec_logic_flags(value, false))
    }

    /// OR: flags Z 0 0 0.
    pub open spec fn spec_or(self, opcode: u8, base: u16) -> (Self, u16) {
        let value = self.regs().a | self.alu_operand(opcode);
        self.alu_done(opcode, base, value, spec_logic_flags(value, false))
    }

    /// CP: the flags of a subtraction, Z 1 H C; the accumulator stays.
    pub open spec fn spec_cp(self, opcode: u8, base: u16) -> (Self, u16) {
        let (value, flags) = spec_sub8(self.regs().a, self.alu_operand(opcode), false);
        self.alu_done(opcode, base, self.regs().a, flags)
    }

    /// INC r16: no flag changes.
    pub open spec fn spec_inc_r16(self, opcode: u8, base: u16) -> (Self, u16) {
        let reg = Register16Bit::spec_from_r16(opcode / 16);
        (self.set_r16(reg, spec_after(self.get_r16(reg), 1)).advance(1), base)
    }

    /// DEC r16: no flag changes.
    pub open spec fn spec_dec_r16(self, opcode: u8, base: u16) -> (Self, u16) {
        let reg = Register16Bit::spec_from_r16(opcode / 16);
        (self.set_r16(reg, spec_before(self.get_r16(reg))).advance(1), base)
    }

    /// INC r8: flags Z 0 H -.
    pub open spec fn spec_inc_r8(self, opcode: u8, base: u16) -> (Self, u16) {
        let reg = self.target(opcode);
        let (value, flags) = spec_inc8(self.get_r8(reg), self.flags());
        (self.set_r8(reg, value).with_flags(flags).advance(1), base)
    }

    /// DEC r8: flags Z 1 H -.
    pub open spec fn spec_dec_r8(self, opcode: u8, base: u16) -> (Self, u16) {
        let reg = self.target(opcode);
        let (value, flags) = spec_dec8(self.get_r8(reg), self.flags());
        (self.set_r8(reg, value).with_flags(flags).advance(1), base)
    }

    /// ADD HL, r16: flags - 0 H C.
    pub open spec fn spec_add_hl_r16(self, opcode: u8, base: u16) -> (Self, u16) {
        let (value, flags) = spec_add16(
            self.get_r16(Register16Bit::HL),
            self.get_r16(Register16Bit::spec_from_r16(opcode / 16)),
            self.flags(),
        );
        (self.set_r16(Register16Bit::HL, value).with_flags(flags).advance(1), base)
    }

    /// RLCA and RRCA: flags 0 0 0 C.
    pub open spec fn spec_rlca_rrca(self, opcode: u8, base: u16) -> (Self, u16) {
        let (value, flags) = if opcode == 0x0F {
            spec_rrc(self.regs().a)
        } else {
            spec_rlc(self.regs().a)
        };
        (self.with_a(value).with_flags(Flags { z: false, ..flags }).advance(1), base)
    }

    /// RLA and RRA: flags 0 0 0 C.
    pub open spec fn spec_rla_rra(self, opcode: u8, base: u16) -> (Self, u16) {
        let (value, flags) = if opcode == 0x17 {
            spec_rl(self.regs().a, self.flags().c)
        } else {
            spec_rr(self.regs().a, self.flags().c)
        };
        (self.with_a(value).with_flags(Flags { z: false, ..flags }).advance(1), base)
    }

    /// The state after a prefixed instruction that leaves `value` in its
    /// operand and `flags` in F, and its cost: 16 T-states with the byte at
    /// HL as operand, else 8.
    pub open spec fn prefixed_done(self, opcode: u8, base: u16, value: u8, flags: Flags) -> (
        Self,
        u16,
    ) {
        (
            self.set_r8(self.source(opcode), value).with_flags(flags).advance(1),
            if self.source(opcode) == Register8Bit::HL {
                16
            } else {
                base
            },
        )
    }

    /// RLC and RRC: flags Z 0 0 C.
    pub open spec fn spec_rlc_rrc_r8(self, opcode: u8, base: u16) -> (Self, u16) {
        let operand = self.get_r8(self.source(opcode));
        let (value, flags) = if (opcode / 8) % 2 == 1 {
            spec_rrc(operand)
        } else {
            spec_rlc(operand)
        };
        self.prefixed_done(opcode, base, value, flags)
    }

    /// RL and RR: flags Z 0 0 C.
    pub open spec fn spec_rl_rr_r8(self, opcode: u8, base: u16) -> (Self, u16) {
        let operand = self.get_r8(self.source(opcode));
        let (value, flags) = if (opcode / 8) % 2 == 1 {
            spec_rr(operand, self.flags().c)
        } else {
            spec_rl(operand, self.flags().c)
        };
        self.prefixed_done(opcode, base, value, flags)
    }

    /// SLA and SRA: flags Z 0 0 C.
    pub open spec fn spec_sla_sra_r8(self, opcode: u8, base: u16) -> (Self, u16) {
        let operand = self.get_r8(self.source(opcode));
        let (value, flags) = if (opcode / 8) % 2 == 1 {
            spec_sra(operand)
        } else {
            spec_sla(operand)
        };
        self.prefixed_done(opcode, base, value, flags)
    }

    /// SWAP: flags Z 0 0 0.
    pub open spec fn spec_swap_r8(self, opcode: u8, base: u16) -> (Self, u16) {
        let (value, flags) = spec_swap(self.get_r8(self.source(opcode)));
        self.prefixed_done(opcode, base, value, flags)
    }

    /// SRL: flags Z 0 0 C.
    pub open spec fn spec_srl_r8(self, opcode: u8, base: u16) -> (Self, u16) {
        let (value, flags) = spec_srl(self.get_r8(self.source(opcode)));
        self.prefixed_done(opcode, base, value, flags)
    }

    /// BIT: flags Z 0 1 -; 12 T-states with the byte at HL as operand.
    pub open spec fn spec_bit_u3_r8(self, opcode: u8, base: u16) -> (Self, u16) {
        let reg = self.source(opcode);
        (
            self.with_flags(
                spec_bit(self.get_r8(reg), (opcode / 8) % 8, self.flags()),
            ).advance(1),
            if reg == Register8Bit::HL {
                12
            } else {
                base
            },
        )
    }

    /// RES: no flag changes.
    pub open spec fn spec_res_u3_r8(self, opcode: u8, base: u16) -> (Self, u16) {
        self.prefixed_done(
            opcode,
            base,
            spec_res(self.get_r8(self.source(opcode)), (opcode / 8) % 8),
            self.flags(),
        )
    }

    /// SET: no flag changes.
    pub open spec fn spec_set_u3_r8(self, opcode: u8, base: u16) -> (Self, u16) {
        self.prefixed_done(
            opcode,
            base,
            spec_set(self.get_r8(self.source(opcode)), (opcode / 8) % 8),
            self.flags(),
        )
    }

    /// SUB A, A leaves zero in the accumulator whatever was there, with Z and
    /// N set and H and C clear, and takes 4 T-states.
    pub proof fn lemma_sub_a_a(self)
        ensures
            self.spec_sub_sbc(0x97, 4).0.regs().a == 0,
            self.spec_sub_sbc(0x97, 4).0.flags() == (Flags {
                z: true,
                n: true,
                h: false,
                c: false,
            }),
            self.spec_sub_sbc(0x97, 4).0.cpu.pc == spec_after(self.cpu.pc, 1),
            self.spec_sub_sbc(0x97, 4).1 == 4,
    {
        Flags { z: true, n: true, h: false, c: false }.lemma_pack_unpack();
    }

    /// An arithmetic or logic instruction leaves in F exactly the flags of
    /// its result, and the low nibble of F empty.
    pub proof fn lemma_alu_flags(self, opcode: u8, base: u16, value: u8, flags: Flags)
        ensures
            self.alu_done(opcode, base, value, flags).0.flags() == flags,
            self.alu_done(opcode, base, value, flags).0.regs().a == value,
            self.alu_done(opcode, base, value, flags).0.regs().wf(),
    {
        flags.lemma_pack_unpack();
    }

    /// What is pushed is on top of the stack, and popping it puts the stack
    /// pointer back, as long as the two bytes below the stack pointer are
    /// plain memory.
    pub proof fn lemma_push_then_pop(self, value: u16)
        requires
            is_plain_memory(spec_before(self.regs().sp)),
            is_plain_memory(spec_before(spec_before(self.regs().sp))),
        ensures
            self.push16(value).top16() == value,
            self.push16(value).pop16().regs().sp == self.regs().sp,
            self.push16(value).cpu.pc == self.cpu.pc,
    {
        let high_at = spec_before(self.regs().sp);
        let low_at = spec_before(high_at);
        let high = (value / 256) as u8;
        let low = (value % 256) as u8;
        self.bus.lemma_memory_holds_writes(high_at, high, high_at);
        self.bus.write_byte(high_at, high).lemma_memory_holds_writes(low_at, low, high_at);
    }

    /// A call followed by a return goes on behind the call: after CALL a16
    /// and then RET the program counter is at the instruction that follows
    /// the call and the stack pointer is where it was, as long as the two
    /// bytes below the stack pointer are plain memory.
    pub proof fn lemma_call_then_ret(self)
        requires
            is_plain_memory(spec_before(self.regs().sp)),
            is_plain_memory(spec_before(spec_before(self.regs().sp))),
        ensures
            ({
                let (called, call_cost) = self.spec_call_cond_a16(0xCD, 24);
                let (returned, return_cost) = called.spec_ret_cond(0xC9, 16);
                &&& called.cpu.pc == self.imm16()
                &&& call_cost == 24
                &&& returned.cpu.pc == spec_after(self.cpu.pc, 3)
                &&& returned.regs().sp == self.regs().sp
                &&& return_cost == 16
            }),
    {
        self.lemma_push_then_pop(spec_after(self.cpu.pc, 3));
    }
}

} // verus!

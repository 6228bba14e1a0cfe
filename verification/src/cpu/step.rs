//! One step of the processor: serve an interrupt, idle while halted, or
//! fetch, decode and execute one instruction.

use vstd::prelude::*;
use crate::bits::lemma_clear_bit;
use crate::bus::{is_plain_memory, Bus, BusView};
use crate::cpu::arith::{
    add_adc, add_hl_r16, add_sp_e8, and, ccf, cp, cpl, daa_a, dec_r16, dec_r8, inc_r16, inc_r8, or,
    rla_rra, rlca_rrca, scf, sub_sbc, xor,
};
use crate::cpu::execute::{
    call_cond_a16, di, ei, halt, jp_cond_a16, jp_hl, jr_cond_e8, nop, ret_cond, rst, stop,
};
use crate::cpu::instructions::{
    spec_base_cycles, spec_handler, spec_prefixed_handler, Handler, Instruction,
};
use crate::cpu::loads::{
    ld_a16_a, ld_a16_sp, ld_a_a16, ld_a_r16mem, ld_hl_sp_e8, ld_r16_imm, ld_r16mem_a, ld_r8_imm,
    ld_r8_r8, ld_sp_hl, ldh_a8_a, ldh_a_a8, ldh_a_c, ldh_c_a, pop_r16, push_r16,
};
use crate::cpu::machine::{done, spec_before, state, Machine};
use crate::cpu::prefixed::{
    bit_u3_r8, res_u3_r8, rl_rr_r8, rlc_rrc_r8, set_u3_r8, sla_sra_r8, srl_r8, swap_r8,
};
use crate::cpu::{CpuError, CPU};
use crate::interrupt::{InterruptFlag, InterruptSource};

verus! {

/// What a dispatched interrupt costs in T-states: five machine cycles.
pub const INTERRUPT_CYCLES: u64 = 20;

/// What a step costs while the processor is halted.
pub const HALT_CYCLES: u64 = 4;

impl Machine {
    /// The state after the handler `handler` has executed `opcode`, and the
    /// cost in T-states.
    #[verifier::opaque]
    pub open spec fn spec_dispatch(self, handler: Handler, opcode: u8, base: u16) -> (Self, u16) {
        match handler {
            Handler::Nop => self.spec_nop(opcode, base),
            Handler::Cpl => self.spec_cpl(opcode, base),
            Handler::Ccf => self.spec_ccf(opcode, base),
            Handler::Scf => self.spec_scf(opcode, base),
            Handler::Daa => self.spec_daa(opcode, base),
            Handler::Ei => self.spec_ei(opcode, base),
            Handler::Di => self.spec_di(opcode, base),
            Handler::Halt => self.spec_halt(opcode, base),
            Handler::Stop => self.spec_stop(opcode, base),
            Handler::JrCondE8 => self.spec_jr_cond_e8(opcode, base),
            Handler::JpCondA16 => self.spec_jp_cond_a16(opcode, base),
            Handler::JpHl => self.spec_jp_hl(opcode, base),
            Handler::CallCondA16 => self.spec_call_cond_a16(opcode, base),
            Handler::Rst => self.spec_rst(opcode, base),
            Handler::RetCond => self.spec_ret_cond(opcode, base),
            Handler::LdR8R8 => self.spec_ld_r8_r8(opcode, base),
            Handler::LdR16Imm => self.spec_ld_r16_imm(opcode, base),
            Handler::LdR8Imm => self.spec_ld_r8_imm(opcode, base),
            Handler::LdR16MemA => self.spec_ld_r16mem_a(opcode, base),
            Handler::LdAR16Mem => self.spec_ld_a_r16mem(opcode, base),
            Handler::LdAA16 => self.spec_ld_a_a16(opcode, base),
            Handler::LdA16A => self.spec_ld_a16_a(opcode, base),
            Handler::LdhAA8 => self.spec_ldh_a_a8(opcode, base),
            Handler::LdhA8A => self.spec_ldh_a8_a(opcode, base),
            Handler::LdhAC => self.spec_ldh_a_c(opcode, base),
            Handler::LdhCA => self.spec_ldh_c_a(opcode, base),
            Handler::LdA16Sp => self.spec_ld_a16_sp(opcode, base),
            Handler::PushR16 => self.spec_push_r16(opcode, base),
            Handler::PopR16 => self.spec_pop_r16(opcode, base),
            Handler::LdSpHl => self.spec_ld_sp_hl(opcode, base),
            Handler::LdHlSpE8 => self.spec_ld_hl_sp_e8(opcode, base),
            Handler::AddSpE8 => self.spec_add_sp_e8(opcode, base),
            Handler::AddAdc => self.spec_add_adc(opcode, base),
            Handler::SubSbc => self.spec_sub_sbc(opcode, base),
            Handler::And => self.spec_and(opcode, base),
            Handler::Xor => self.spec_xor(opcode, base),
            Handler::Or => self.spec_or(opcode, base),
            Handler::Cp => self.spec_cp(opcode, base),
            Handler::IncR16 => self.spec_inc_r16(opcode, base),
            Handler::DecR16 => self.spec_dec_r16(opcode, base),
            Handler::IncR8 => self.spec_inc_r8(opcode, base),
            Handler::DecR8 => self.spec_dec_r8(opcode, base),
            Handler::AddHlR16 => self.spec_add_hl_r16(opcode, base),
            Handler::RlcaRrca => self.spec_rlca_rrca(opcode, base),
            Handler::RlaRra => self.spec_rla_rra(opcode, base),
            Handler::RlcRrcR8 => self.spec_rlc_rrc_r8(opcode, base),
            Handler::RlRrR8 => self.spec_rl_rr_r8(opcode, base),
            Handler::SlaSraR8 => self.spec_sla_sra_r8(opcode, base),
            Handler::SwapR8 => self.spec_swap_r8(opcode, base),
            Handler::SrlR8 => self.spec_srl_r8(opcode, base),
            Handler::BitU3R8 => self.spec_bit_u3_r8(opcode, base),
            Handler::ResU3R8 => self.spec_res_u3_r8(opcode, base),
            Handler::SetU3R8 => self.spec_set_u3_r8(opcode, base),
        }
    }

    /// The state after the instruction at the program counter, and its cost
    /// in T-states. The byte 0xCB selects the prefixed table for the byte
    /// after it. A byte that is no instruction is an error and leaves the
    /// state as it is.
    #[verifier::opaque]
    pub open spec fn spec_exec(self) -> (Self, Result<u64, CpuError>) {
        let opcode = self.read(self.cpu.pc);
        if opcode == 0xCB {
            let prefixed = self.advance(1);
            let second = prefixed.read(prefixed.cpu.pc);
            let (after, cycles) = prefixed.spec_dispatch(spec_prefixed_handler(second), second, 8);
            (after, Ok(cycles as u64))
        } else {
            match spec_handler(opcode) {
                Some(handler) => {
                    let (after, cycles) = self.spec_dispatch(
                        handler,
                        opcode,
                        spec_base_cycles(opcode),
                    );
                    (after, Ok(cycles as u64))
                },
                None => (self, Err(CpuError::UndefinedOpcode(opcode))),
            }
        }
    }

    /// The state after the interrupt check, and the cost of a dispatch.
    ///
    /// The check looks at the requests only while interrupts are enabled or
    /// the processor is halted. A request wakes a halted processor and does
    /// nothing else. Otherwise the request of highest priority is served:
    /// its flag is cleared, interrupts are disabled, the program counter is
    /// pushed and execution continues at the request's vector; this costs
    /// 20 T-states.
    #[verifier::opaque]
    pub open spec fn spec_interrupt(self) -> (Self, u64) {
        if self.cpu.ime || self.cpu.halted {
            match self.bus.intf.spec_pending() {
                Some(flag) => {
                    if self.cpu.halted {
                        (Machine { cpu: CPU { halted: false, ..self.cpu }, ..self }, 0)
                    } else {
                        (
                            Machine {
                                cpu: CPU { ime: false, ..self.cpu },
                                bus: BusView { intf: self.bus.intf.spec_clear(flag), ..self.bus },
                            }.push16(self.cpu.pc).jump(
                                InterruptSource::spec_from_flag(flag).spec_vector(),
                            ),
                            20,
                        )
                    }
                },
                None => (self, 0),
            }
        } else {
            (self, 0)
        }
    }

    /// The state with `cycles` noted as the cost of the last step.
    pub open spec fn costing(self, cycles: u64) -> Self {
        Machine { cpu: CPU { instr_cycles: cycles, ..self.cpu }, ..self }
    }

    /// The state after one step of the processor, and the cost of the step.
    ///
    /// First the delay of EI moves on; interrupts become enabled two steps
    /// after EI was executed, that is after the instruction that follows it.
    /// Then comes the interrupt check. If no interrupt was dispatched, a
    /// halted processor idles for 4 T-states, and a running one executes an
    /// instruction.
    #[verifier::opaque]
    pub open spec fn spec_cycle(self) -> (Self, Result<u64, CpuError>) {
        let delayed = Machine {
            cpu: CPU {
                ei: if self.cpu.ei == 1 {
                    2
                } else {
                    0
                },
                ime: self.cpu.ime || self.cpu.ei == 2,
                ..self.cpu
            },
            ..self
        };
        let (checked, interrupt_cycles) = delayed.spec_interrupt();
        if interrupt_cycles != 0 {
            (checked.costing(interrupt_cycles), Ok(interrupt_cycles))
        } else if checked.cpu.halted {
            (checked.costing(4), Ok(4))
        } else {
            match checked.spec_exec() {
                (after, Ok(cycles)) => (after.costing(cycles), Ok(cycles)),
                (after, Err(error)) => (after, Err(error)),
            }
        }
    }
}

impl Machine {
    /// What a dispatch does: with interrupts enabled and the processor
    /// running, the request of highest priority is served. Afterwards the
    /// program counter is at its vector, 0x40 plus 8 for each step down in
    /// priority, interrupts are disabled, the request is no longer pending,
    /// every other request is as before, and the address at which execution
    /// was interrupted is on top of the stack. The stack must lie in plain
    /// memory.
    pub proof fn lemma_dispatch(self, flag: InterruptFlag)
        requires
            self.cpu.ime,
            !self.cpu.halted,
            self.bus.intf.spec_pending() == Some(flag),
            is_plain_memory(spec_before(self.regs().sp)),
            is_plain_memory(spec_before(spec_before(self.regs().sp))),
        ensures
            ({
                let (after, cost) = self.spec_interrupt();
                &&& cost == 20
                &&& after.cpu.pc == 0x40 + 8 * flag.priority()
                &&& !after.cpu.ime
                &&& !after.bus.intf.spec_is_raised(flag)
                &&& forall|other: InterruptFlag|
                    other != flag ==> (#[trigger] after.bus.intf.spec_is_raised(other)
                        <==> self.bus.intf.spec_is_raised(other))
                &&& after.top16() == self.cpu.pc
                &&& after.regs().sp == spec_before(spec_before(self.regs().sp))
            }),
    {
        reveal(Machine::spec_interrupt);
        let cleared = Machine {
            cpu: CPU { ime: false, ..self.cpu },
            bus: BusView { intf: self.bus.intf.spec_clear(flag), ..self.bus },
        };
        cleared.lemma_push_then_pop(self.cpu.pc);
        let high_at = spec_before(self.regs().sp);
        let low_at = spec_before(high_at);
        let high = (self.cpu.pc / 256) as u8;
        let low = (self.cpu.pc % 256) as u8;
        cleared.bus.lemma_memory_write_is_local(high_at, high);
        cleared.bus.write_byte(high_at, high).lemma_memory_write_is_local(low_at, low);
        lemma_clear_bit(self.bus.intf.flags, flag.mask(), flag.mask());
        assert forall|other: InterruptFlag| other != flag implies (
        #[trigger] cleared.bus.intf.spec_is_raised(other) <==> self.bus.intf.spec_is_raised(
            other,
        )) by {
            lemma_clear_bit(self.bus.intf.flags, flag.mask(), other.mask());
        }
    }

    /// Without a pending and enabled request nothing is dispatched, and
    /// with interrupts disabled a running processor is not interrupted.
    pub proof fn lemma_no_dispatch(self)
        requires
            self.bus.intf.spec_pending() is None || (!self.cpu.ime && !self.cpu.halted),
        ensures
            self.spec_interrupt() == (self, 0u64),
    {
        reveal(Machine::spec_interrupt);
    }
}

/// Runs the handler of `instruction`.
fn dispatch(cpu: &mut CPU, bus: &mut Bus, instruction: Instruction, prefixed: bool) -> (cycles: u16)
    requires
        state(*old(cpu), *old(bus)).wf(),
        if prefixed {
            instruction.handler == spec_prefixed_handler(instruction.opcode)
        } else {
            spec_handler(instruction.opcode) == Some(instruction.handler)
        },
    ensures
        done(
            *final(cpu),
            *final(bus),
            cycles,
            state(*old(cpu), *old(bus)).spec_dispatch(
                instruction.handler,
                instruction.opcode,
                instruction.cycles,
            ),
        ),
        cycles == instruction.cycles || 8 <= cycles <= 16,
{
    reveal(Machine::spec_dispatch);
    let opcode = instruction.opcode;
    let base = instruction.cycles;
    match instruction.handler {
        Handler::Nop => nop(cpu, bus, opcode, base),
        Handler::Cpl => cpl(cpu, bus, opcode, base),
        Handler::Ccf => ccf(cpu, bus, opcode, base),
        Handler::Scf => scf(cpu, bus, opcode, base),
        Handler::Daa => daa_a(cpu, bus, opcode, base),
        Handler::Ei => ei(cpu, bus, opcode, base),
        Handler::Di => di(cpu, bus, opcode, base),
        Handler::Halt => halt(cpu, bus, opcode, base),
        Handler::Stop => stop(cpu, bus, opcode, base),
        Handler::JrCondE8 => jr_cond_e8(cpu, bus, opcode, base),
        Handler::JpCondA16 => jp_cond_a16(cpu, bus, opcode, base),
        Handler::JpHl => jp_hl(cpu, bus, opcode, base),
        Handler::CallCondA16 => call_cond_a16(cpu, bus, opcode, base),
        Handler::Rst => rst(cpu, bus, opcode, base),
        Handler::RetCond => ret_cond(cpu, bus, opcode, base),
        Handler::LdR8R8 => ld_r8_r8(cpu, bus, opcode, base),
        Handler::LdR16Imm => ld_r16_imm(cpu, bus, opcode, base),
        Handler::LdR8Imm => ld_r8_imm(cpu, bus, opcode, base),
        Handler::LdR16MemA => ld_r16mem_a(cpu, bus, opcode, base),
        Handler::LdAR16Mem => ld_a_r16mem(cpu, bus, opcode, base),
        Handler::LdAA16 => ld_a_a16(cpu, bus, opcode, base),
        Handler::LdA16A => ld_a16_a(cpu, bus, opcode, base),
        Handler::LdhAA8 => ldh_a_a8(cpu, bus, opcode, base),
        Handler::LdhA8A => ldh_a8_a(cpu, bus, opcode, base),
        Handler::LdhAC => ldh_a_c(cpu, bus, opcode, base),
        Handler::LdhCA => ldh_c_a(cpu, bus, opcode, base),
        Handler::LdA16Sp => ld_a16_sp(cpu, bus, opcode, base),
        Handler::PushR16 => push_r16(cpu, bus, opcode, base),
        Handler::PopR16 => pop_r16(cpu, bus, opcode, base),
        Handler::LdSpHl => ld_sp_hl(cpu, bus, opcode, base),
        Handler::LdHlSpE8 => ld_hl_sp_e8(cpu, bus, opcode, base),
        Handler::AddSpE8 => add_sp_e8(cpu, bus, opcode, base),
        Handler::AddAdc => add_adc(cpu, bus, opcode, base),
        Handler::SubSbc => sub_sbc(cpu, bus, opcode, base),
        Handler::And => and(cpu, bus, opcode, base),
        Handler::Xor => xor(cpu, bus, opcode, base),
        Handler::Or => or(cpu, bus, opcode, base),
        Handler::Cp => cp(cpu, bus, opcode, base),
        Handler::IncR16 => inc_r16(cpu, bus, opcode, base),
        Handler::DecR16 => dec_r16(cpu, bus, opcode, base),
        Handler::IncR8 => inc_r8(cpu, bus, opcode, base),
        Handler::DecR8 => dec_r8(cpu, bus, opcode, base),
        Handler::AddHlR16 => add_hl_r16(cpu, bus, opcode, base),
        Handler::RlcaRrca => rlca_rrca(cpu, bus, opcode, base),
        Handler::RlaRra => rla_rra(cpu, bus, opcode, base),
        Handler::RlcRrcR8 => rlc_rrc_r8(cpu, bus, opcode, base),
        Handler::RlRrR8 => rl_rr_r8(cpu, bus, opcode, base),
        Handler::SlaSraR8 => sla_sra_r8(cpu, bus, opcode, base),
        Handler::SwapR8 => swap_r8(cpu, bus, opcode, base),
        Handler::SrlR8 => srl_r8(cpu, bus, opcode, base),
        Handler::BitU3R8 => bit_u3_r8(cpu, bus, opcode, base),
        Handler::ResU3R8 => res_u3_r8(cpu, bus, opcode, base),
        Handler::SetU3R8 => set_u3_r8(cpu, bus, opcode, base),
    }
}

impl CPU {
    /// Executes the instruction at the program counter and returns its cost
    /// in T-states. A byte that is no instruction is reported and nothing
    /// changes.
    pub fn exec(&mut self, bus: &mut Bus) -> (result: Result<u64, CpuError>)
        requires
            state(*old(self), *old(bus)).wf(),
        ensures
            (state(*final(self), *final(bus)), result) == state(*old(self), *old(bus)).spec_exec(),
            state(*final(self), *final(bus)).wf(),
            result matches Ok(cycles) ==> 4 <= cycles <= 24,
    {
        reveal(Machine::spec_exec);
        let byte = bus.read_byte(self.pc);
        if byte == 0xCB {
            self.pc = self.pc.wrapping_add(1);
            let second = bus.read_byte(self.pc);
            let instruction = Instruction::lookup_prefixed(second);
            let cycles = dispatch(self, bus, instruction, true);
            Ok(cycles as u64)
        } else {
            match Instruction::lookup(byte) {
                Some(instruction) => {
                    let cycles = dispatch(self, bus, instruction, false);
                    Ok(cycles as u64)
                },
                None => Err(CpuError::UndefinedOpcode(byte)),
            }
        }
    }

    /// Checks for interrupts and dispatches one if it is due. Returns the
    /// cost of the dispatch in T-states, 0 if there was none.
    pub fn interrupt(&mut self, bus: &mut Bus) -> (cycles: u64)
        requires
            state(*old(self), *old(bus)).wf(),
        ensures
            (state(*final(self), *final(bus)), cycles) == state(
                *old(self),
                *old(bus),
            ).spec_interrupt(),
            state(*final(self), *final(bus)).wf(),
            cycles == 0 || cycles == 20,
    {
        reveal(Machine::spec_interrupt);
        if self.ime || self.halted {
            match bus.intf.pending() {
                Some(flag) => {
                    if self.halted {
                        self.halted = false;
                        return 0;
                    }
                    let source = InterruptSource::from_flag(flag);
                    bus.intf.clear(flag);
                    self.ime = false;
                    let return_addr = self.pc;
                    self.push16(bus, return_addr);
                    self.pc = source.vector();
                    INTERRUPT_CYCLES
                },
                None => 0,
            }
        } else {
            0
        }
    }

    /// Performs one step: an interrupt dispatch, an idle step while halted,
    /// or one instruction. Returns the cost of the step in T-states.
    pub fn cycle(&mut self, bus: &mut Bus) -> (result: Result<u64, CpuError>)
        requires
            state(*old(self), *old(bus)).wf(),
        ensures
            (state(*final(self), *final(bus)), result) == state(*old(self), *old(bus)).spec_cycle(),
            state(*final(self), *final(bus)).wf(),
            result matches Ok(cycles) ==> 4 <= cycles <= 24,
    {
        reveal(Machine::spec_cycle);
        self.ei = match self.ei {
            1 => 2,
            2 => {
                self.ime = true;
                0
            },
            _ => 0,
        };
        let int_cycles = self.interrupt(bus);
        if int_cycles != 0 {
            self.instr_cycles = int_cycles;
            Ok(int_cycles)
        } else if self.halted {
            self.instr_cycles = HALT_CYCLES;
            Ok(HALT_CYCLES)
        } else {
            match self.exec(bus) {
                Ok(cycles) => {
                    self.instr_cycles = cycles;
                    Ok(cycles)
                },
                Err(error) => Err(error),
            }
        }
    }
}

} // verus!

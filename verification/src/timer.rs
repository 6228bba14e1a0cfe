//! The timer: the free-running divider DIV and the programmable counter TIMA.

use vstd::prelude::*;
use vstd::arithmetic::div_mod::{
    lemma_basic_div, lemma_div_is_ordered_by_denominator, lemma_div_plus_one,
    lemma_fundamental_div_mod, lemma_hoist_over_denominator, lemma_mod_add_multiples_vanish,
    lemma_mod_bound, lemma_mod_multiples_vanish, lemma_small_mod,
};
use crate::bits::{lemma_byte_fields, lemma_or_idempotent, lemma_set_bit};
use crate::interrupt::{Interrupt, InterruptFlag};

verus! {

/// A prescaler: it counts master cycles and reports each full period.
pub struct Clock {
    /// Cycles counted since the last full period.
    pub carry: u64,
    pub period: u64,
}

impl Clock {
    /// The period is not zero and the count is within it.
    pub open spec fn wf(&self) -> bool {
        0 <= self.carry < self.period
    }

    /// How many periods become full during `cycles` cycles.
    pub open spec fn spec_periods(&self, cycles: nat) -> nat {
        ((self.carry + cycles) / (self.period as int)) as nat
    }

    /// The prescaler after `cycles` cycles.
    pub open spec fn spec_tick(self, cycles: nat) -> Self {
        Clock { carry: ((self.carry + cycles) % (self.period as int)) as u64, ..self }
    }

    /// A prescaler with the period `period` that has counted nothing yet.
    pub fn new(period: u64) -> (clock: Self)
        ensures
            clock.carry == 0,
            clock.period == period,
    {
        Clock { carry: 0, period: period }
    }

    /// Counts `cycles` cycles and returns how many periods became full.
    pub fn tick(&mut self, cycles: u64) -> (inc: u64)
        requires
            old(self).wf(),
        ensures
            inc == old(self).spec_periods(cycles as nat),
            *final(self) == old(self).spec_tick(cycles as nat),
            final(self).wf(),
    {
        let whole = cycles / self.period;
        let part = cycles % self.period;
        let room = self.period - self.carry;
        proof {
            let p = self.period as int;
            let sum = self.carry + part;
            lemma_fundamental_div_mod(cycles as int, p);
            lemma_mod_bound(cycles as int, p);
            assert(self.carry + cycles == sum + whole * p) by (nonlinear_arith)
                requires
                    cycles == p * whole + part,
                    sum == self.carry + part,
            ;
            lemma_hoist_over_denominator(sum, whole as int, p as nat);
            lemma_mod_multiples_vanish(whole as int, sum, p);
            assert(p * whole + sum == sum + whole * p) by (nonlinear_arith);
            if part >= room {
                lemma_basic_div(sum - p, p);
                lemma_div_plus_one(sum - p, p);
                lemma_small_mod((sum - p) as nat, p as nat);
                lemma_mod_add_multiples_vanish(sum - p, p);
                lemma_div_is_ordered_by_denominator(cycles as int, 2, p);
            } else {
                lemma_basic_div(sum, p);
                lemma_small_mod(sum as nat, p as nat);
            }
        }
        if part >= room {
            self.carry = part - room;
            whole + 1
        } else {
            self.carry += part;
            whole
        }
    }
}

/// The number of master cycles per step of TIMA that the two low bits of TAC
/// select.
pub open spec fn spec_tima_period(tac: u8) -> u64 {
    let select = tac & 0x3;
    if select == 0 {
        1024
    } else if select == 1 {
        16
    } else if select == 2 {
        64
    } else {
        256
    }
}

/// TIMA after `steps` steps: it counts up and restarts from `tma` after 0xFF.
pub open spec fn spec_tima_after(tima: u8, tma: u8, steps: nat) -> u8
    decreases steps,
{
    if steps == 0 {
        tima
    } else {
        let before = spec_tima_after(tima, tma, (steps - 1) as nat);
        if before == 0xFF {
            tma
        } else {
            (before + 1) as u8
        }
    }
}

/// Whether TIMA overflows during `steps` steps.
pub open spec fn spec_tima_overflows(tima: u8, tma: u8, steps: nat) -> bool
    decreases steps,
{
    if steps == 0 {
        false
    } else {
        spec_tima_overflows(tima, tma, (steps - 1) as nat) || spec_tima_after(
            tima,
            tma,
            (steps - 1) as nat,
        ) == 0xFF
    }
}

pub struct Timer {
    pub div: u8,
    pub div_clock: Clock,
    pub tima: u8,
    pub tima_clock: Clock,
    pub tma: u8,
    pub tac: u8,
}

impl Timer {
    /// The divider's prescaler has its period of 256 cycles and TIMA's the
    /// period that TAC selects.
    pub open spec fn wf(&self) -> bool {
        &&& self.div_clock.period == 256
        &&& self.div_clock.wf()
        &&& self.tima_clock.period == spec_tima_period(self.tac)
        &&& self.tima_clock.wf()
    }

    /// The timer at power-up: everything zero, and the slowest period
    /// selected.
    pub open spec fn spec_new() -> Self {
        Timer {
            div: 0,
            div_clock: Clock { carry: 0, period: 256 },
            tima: 0,
            tima_clock: Clock { carry: 0, period: 1024 },
            tma: 0,
            tac: 0,
        }
    }

    /// Whether TAC lets TIMA count.
    pub open spec fn spec_enabled(&self) -> bool {
        self.tac & 0x4 != 0
    }

    /// The byte read at `addr`.
    pub open spec fn spec_read(&self, addr: u16) -> u8 {
        if addr == 0xFF04 {
            self.div
        } else if addr == 0xFF05 {
            self.tima
        } else if addr == 0xFF06 {
            self.tma
        } else if addr == 0xFF07 {
            self.tac
        } else {
            0xFF
        }
    }

    /// The timer after `write` is stored at `addr`.
    ///
    /// Any write to DIV resets the divider and its prescaler. A write to TAC
    /// that selects another period restarts TIMA's prescaler with that period
    /// and reloads TIMA from TMA.
    pub open spec fn spec_write(self, addr: u16, write: u8) -> Self {
        if addr == 0xFF04 {
            Timer { div: 0, div_clock: Clock { carry: 0, ..self.div_clock }, ..self }
        } else if addr == 0xFF05 {
            Timer { tima: write, ..self }
        } else if addr == 0xFF06 {
            Timer { tma: write, ..self }
        } else if addr == 0xFF07 {
            if self.tac & 0x3 != write & 0x3 {
                Timer {
                    tima_clock: Clock { carry: 0, period: spec_tima_period(write) },
                    tima: self.tma,
                    tac: write,
                    ..self
                }
            } else {
                Timer { tac: write, ..self }
            }
        } else {
            self
        }
    }

    /// The timer and the interrupt latches after `cycles` master cycles.
    ///
    /// DIV steps once in 256 cycles. While TAC enables it, TIMA steps once in
    /// each of its periods, and an overflow requests the Timer interrupt.
    pub open spec fn spec_tick(self, intf: Interrupt, cycles: nat) -> (Self, Interrupt) {
        let div = ((self.div + self.div_clock.spec_periods(cycles)) % 256) as u8;
        let div_clock = self.div_clock.spec_tick(cycles);
        if self.spec_enabled() {
            let steps = self.tima_clock.spec_periods(cycles);
            (
                Timer {
                    div: div,
                    div_clock: div_clock,
                    tima: spec_tima_after(self.tima, self.tma, steps),
                    tima_clock: self.tima_clock.spec_tick(cycles),
                    ..self
                },
                if spec_tima_overflows(self.tima, self.tma, steps) {
                    intf.spec_raise(InterruptFlag::Timer)
                } else {
                    intf
                },
            )
        } else {
            (Timer { div: div, div_clock: div_clock, ..self }, intf)
        }
    }

    /// The timer at power-up.
    pub fn new() -> (timer: Self)
        ensures
            timer == Self::spec_new(),
            timer.wf(),
    {
        proof {
            lemma_zero_select();
        }
        Timer {
            div: 0,
            div_clock: Clock::new(256),
            tima: 0,
            tima_clock: Clock::new(1024),
            tma: 0,
            tac: 0,
        }
    }

    /// Reads the register at `addr`.
    pub fn read(&self, addr: u16) -> (r: u8)
        ensures
            r == self.spec_read(addr),
    {
        match addr {
            0xFF04 => self.div,
            0xFF05 => self.tima,
            0xFF06 => self.tma,
            0xFF07 => self.tac,
            _ => 0xFF,
        }
    }

    /// Stores `write` in the register at `addr`.
    pub fn write(&mut self, addr: u16, write: u8)
        requires
            old(self).wf(),
        ensures
            *final(self) == old(self).spec_write(addr, write),
            final(self).wf(),
    {
        match addr {
            0xFF04 => {
                self.div = 0;
                self.div_clock.carry = 0;
            },
            0xFF05 => self.tima = write,
            0xFF06 => self.tma = write,
            0xFF07 => {
                if (self.tac & 0x3) != (write & 0x3) {
                    proof {
                        lemma_byte_fields(write);
                    }
                    self.tima_clock.carry = 0;
                    self.tima_clock.period = match write & 0x3 {
                        0 => 1024,
                        1 => 16,
                        2 => 64,
                        _ => 256,
                    };
                    self.tima = self.tma;
                }
                self.tac = write;
            },
            _ => {},
        }
    }

    /// Advances the timer by `cycles` master cycles and marks a Timer
    /// interrupt that this requests in `intf`.
    pub fn tick(&mut self, cycles: u64, intf: &mut Interrupt)
        requires
            old(self).wf(),
        ensures
            (*final(self), *final(intf)) == old(self).spec_tick(*old(intf), cycles as nat),
            final(self).wf(),
    {
        let div_inc = self.div_clock.tick(cycles);
        self.div = self.div.wrapping_add((div_inc % 256) as u8);
        assert(self.div == ((old(self).div + div_inc) % 256) as u8);
        if (self.tac & 0x4) != 0 {
            let inc = self.tima_clock.tick(cycles);
            let mut overflowed = false;
            let mut done: u64 = 0;
            let ghost counted = *self;
            while done < inc
                invariant
                    done <= inc,
                    *intf == *old(intf),
                    *self == (Timer { tima: self.tima, ..counted }),
                    self.tma == old(self).tma,
                    self.tima == spec_tima_after(old(self).tima, old(self).tma, done as nat),
                    overflowed == spec_tima_overflows(old(self).tima, old(self).tma, done as nat),
                decreases inc - done,
            {
                self.tima = self.tima.wrapping_add(1);
                if self.tima == 0 {
                    self.tima = self.tma;
                    overflowed = true;
                }
                done += 1;
            }
            if overflowed {
                intf.raise(InterruptFlag::Timer);
            }
        }
    }
}

/// Counting steps in two parts gives the same TIMA, and it overflows in the
/// whole exactly if it overflows in one of the parts.
pub proof fn lemma_tima_steps_add(tima: u8, tma: u8, first: nat, second: nat)
    ensures
        spec_tima_after(spec_tima_after(tima, tma, first), tma, second) == spec_tima_after(
            tima,
            tma,
            first + second,
        ),
        spec_tima_overflows(tima, tma, first + second) == (spec_tima_overflows(tima, tma, first)
            || spec_tima_overflows(spec_tima_after(tima, tma, first), tma, second)),
    decreases second,
{
    if second > 0 {
        lemma_tima_steps_add(tima, tma, first, (second - 1) as nat);
        assert(first + second - 1 == first + (second - 1) as nat);
    }
}

impl Clock {
    /// Counting cycles in two parts gives the same prescaler and the same
    /// number of full periods as counting them at once.
    pub proof fn lemma_tick_add(self, first: nat, second: nat)
        requires
            self.wf(),
        ensures
            self.spec_tick(first).spec_tick(second) == self.spec_tick(first + second),
            self.spec_periods(first) + self.spec_tick(first).spec_periods(second)
                == self.spec_periods(first + second),
            self.spec_tick(first).wf(),
    {
        let p = self.period as int;
        let x = self.carry + first;
        lemma_fundamental_div_mod(x, p);
        lemma_mod_bound(x, p);
        lemma_hoist_over_denominator(x % p + second, x / p, p as nat);
        lemma_mod_multiples_vanish(x / p, x % p + second, p);
        assert(x % p + second + (x / p) * p == x + second) by (nonlinear_arith)
            requires
                x == p * (x / p) + x % p,
        ;
        assert(p * (x / p) + (x % p + second) == x + second) by (nonlinear_arith)
            requires
                x == p * (x / p) + x % p,
        ;
        lemma_mod_bound(x + second, p);
    }
}

impl Timer {
    /// The timer and the interrupt latches after `count` ticks of `each`
    /// cycles.
    pub open spec fn spec_ticks(self, intf: Interrupt, count: nat, each: nat) -> (Self, Interrupt)
        decreases count,
    {
        if count == 0 {
            (self, intf)
        } else {
            let (timer, noted) = self.spec_ticks(intf, (count - 1) as nat, each);
            timer.spec_tick(noted, each)
        }
    }

    /// Time can be fed to the timer in any portions: two ticks in a row do
    /// what one tick of their sum does.
    pub proof fn lemma_tick_add(self, intf: Interrupt, first: nat, second: nat)
        requires
            self.wf(),
        ensures
            ({
                let (timer, noted) = self.spec_tick(intf, first);
                timer.spec_tick(noted, second) == self.spec_tick(intf, first + second)
            }),
    {
        self.div_clock.lemma_tick_add(first, second);
        self.tima_clock.lemma_tick_add(first, second);
        let steps = self.tima_clock.spec_periods(first);
        let more = self.tima_clock.spec_tick(first).spec_periods(second);
        lemma_tima_steps_add(self.tima, self.tma, steps, more);
        lemma_or_idempotent(intf.flags, InterruptFlag::Timer.mask());
        let (timer, noted) = self.spec_tick(intf, first);
        let a = self.div_clock.spec_periods(first);
        let b = self.div_clock.spec_tick(first).spec_periods(second);
        assert(((self.div + a) % 256 + b) % 256 == (self.div + (a + b)) % 256);
    }

    /// Ticks of equal length add up: `count` ticks of `each` cycles do what
    /// one tick of `count * each` cycles does.
    pub proof fn lemma_ticks_add_up(self, intf: Interrupt, count: nat, each: nat)
        requires
            self.wf(),
        ensures
            self.spec_ticks(intf, count, each) == self.spec_tick(intf, count * each),
        decreases count,
    {
        if count == 0 {
            self.div_clock.lemma_tick_add(0, 0);
            self.tima_clock.lemma_tick_add(0, 0);
            lemma_basic_div(self.div_clock.carry as int, self.div_clock.period as int);
            lemma_basic_div(self.tima_clock.carry as int, self.tima_clock.period as int);
            lemma_small_mod(self.div_clock.carry as nat, self.div_clock.period as nat);
            lemma_small_mod(self.tima_clock.carry as nat, self.tima_clock.period as nat);
            assert(count * each == 0) by (nonlinear_arith)
                requires
                    count == 0,
            ;
        } else {
            self.lemma_ticks_add_up(intf, (count - 1) as nat, each);
            self.lemma_tick_add(intf, ((count - 1) * each) as nat, each);
            assert((count - 1) * each + each == count * each) by (nonlinear_arith);
        }
    }

    /// While TAC enables it, TIMA steps exactly once in each of its periods:
    /// after as many cycles as the selected period has, TIMA is one higher,
    /// or, if it was 0xFF, it holds TMA and the Timer interrupt is pending.
    pub proof fn lemma_one_step_per_period(self, intf: Interrupt)
        requires
            self.wf(),
            self.spec_enabled(),
        ensures
            ({
                let (timer, noted) = self.spec_tick(intf, spec_tima_period(self.tac) as nat);
                &&& self.tima < 0xFF ==> timer.tima == self.tima + 1 && noted == intf
                &&& self.tima == 0xFF ==> timer.tima == self.tma && noted.spec_is_raised(
                    InterruptFlag::Timer,
                )
            }),
    {
        let p = self.tima_clock.period as int;
        lemma_basic_div(self.tima_clock.carry as int, p);
        lemma_div_plus_one(self.tima_clock.carry as int, p);
        assert(spec_tima_after(self.tima, self.tma, 1) == if self.tima == 0xFF {
            self.tma
        } else {
            (self.tima + 1) as u8
        }) by {
            assert(spec_tima_after(self.tima, self.tma, 0) == self.tima);
        }
        assert(spec_tima_overflows(self.tima, self.tma, 1) == (self.tima == 0xFF)) by {
            assert(!spec_tima_overflows(self.tima, self.tma, 0));
            assert(spec_tima_after(self.tima, self.tma, 0) == self.tima);
        }
        lemma_set_bit(intf.flags, InterruptFlag::Timer.mask(), InterruptFlag::Timer.mask());
    }

    /// With a period of 16 cycles selected and enabled, 16 ticks of one
    /// cycle step TIMA exactly once: it is one higher afterwards, or, if it
    /// was 0xFF, it holds TMA and the Timer interrupt is pending.
    pub proof fn lemma_sixteen_single_ticks(self, intf: Interrupt)
        requires
            self.wf(),
            self.spec_enabled(),
            spec_tima_period(self.tac) == 16,
        ensures
            ({
                let (timer, noted) = self.spec_ticks(intf, 16, 1);
                &&& self.tima < 0xFF ==> timer.tima == self.tima + 1 && noted == intf
                &&& self.tima == 0xFF ==> timer.tima == self.tma && noted.spec_is_raised(
                    InterruptFlag::Timer,
                )
            }),
    {
        self.lemma_ticks_add_up(intf, 16, 1);
        self.lemma_one_step_per_period(intf);
    }
}

/// A control byte of zero selects the slowest period.
proof fn lemma_zero_select()
    by (bit_vector)
    ensures
        0u8 & 0x3 == 0,
{
}

} // verus!

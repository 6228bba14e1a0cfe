//! The two pulse channels. The first one has a frequency sweep; otherwise they
//! are alike.

use vstd::prelude::*;
use crate::bits::{lemma_byte_fields, lemma_period_bits, lemma_shr_le};

verus! {

/// The output level (0 or 1) of duty pattern `pattern` at step `position`.
///
/// The four patterns are high for 1, 2, 4 and 6 of their eight steps.
pub open spec fn spec_duty_level(pattern: usize, position: usize) -> u8 {
    let high = if pattern == 0 {
        position == 7
    } else if pattern == 1 {
        position == 0 || position == 7
    } else if pattern == 2 {
        position == 0 || position >= 5
    } else {
        1 <= position <= 6
    };
    if high {
        1
    } else {
        0
    }
}

/// The output level (0 or 1) of duty pattern `pattern` at step `position`.
#[verifier::when_used_as_spec(spec_duty_level)]
pub fn duty_level(pattern: usize, position: usize) -> (level: u8)
    ensures
        level == spec_duty_level(pattern, position),
{
    let high = match pattern {
        0 => position == 7,
        1 => position == 0 || position == 7,
        2 => position == 0 || position >= 5,
        _ => 1 <= position && position <= 6,
    };
    if high {
        1
    } else {
        0
    }
}

/// The envelope's timer and volume after one envelope clock.
///
/// With a period of zero the envelope is off. Otherwise the timer counts down,
/// and each time it runs out it is reloaded and the volume moves one step
/// towards 15 or towards 0, where it stays.
pub open spec fn envelope_step(period: u8, timer: u8, volume: u8, rising: bool) -> (u8, u8) {
    if period == 0 {
        (timer, volume)
    } else {
        let counted: int = if timer > 0 {
            timer - 1
        } else {
            0
        };
        if counted != 0 {
            (counted as u8, volume)
        } else if rising && volume < 0xF {
            (period, (volume + 1) as u8)
        } else if !rising && volume > 0 {
            (period, (volume - 1) as u8)
        } else {
            (period, volume)
        }
    }
}

/// The length timer and the channel's enable bit after one length clock.
///
/// The timer counts only while it is enabled and not yet zero; the clock that
/// brings it to zero switches the channel off.
pub open spec fn length_step(length_enabled: bool, timer: u16, enabled: bool) -> (u16, bool) {
    if length_enabled && timer > 0 {
        ((timer - 1) as u16, enabled && timer != 1)
    } else {
        (timer, enabled)
    }
}

/// What a channel hands to the mixer, in fifteenths of full scale: silence (0)
/// while it or its converter is off, otherwise the 4-bit level `digital` mapped
/// linearly from 0..=15 onto -15..=15.
pub open spec fn dac_output(active: bool, digital: int) -> int {
    if active {
        2 * digital - 15
    } else {
        0
    }
}

pub struct SquareChannel1 {
    pub enabled: bool,
    pub dac_enabled: bool,
    /// Which of the four duty patterns is played.
    pub duty_pattern: usize,
    /// The current step within the duty pattern.
    pub wave_position: usize,
    /// Counts down once per T-state; the pattern advances when it runs out.
    pub frequency_timer: u16,
    pub frequency: u16,
    pub initial_volume: u8,
    pub current_volume: u8,
    pub inc_volume: bool,
    pub envelope_period: u8,
    pub envelope_timer: u8,
    pub length_timer: u16,
    pub length_enabled: bool,
    pub sweep_enabled: bool,
    pub dec_freq: bool,
    pub sweep_period: u8,
    pub sweep_timer: u8,
    pub sweep_amount: u8,
    pub old_freq: u16,
}

impl Default for SquareChannel1 {
    fn default() -> (ch: Self)
        ensures
            ch == Self::spec_default(),
            ch.wf(),
    {
        SquareChannel1 {
            enabled: false,
            dac_enabled: false,
            duty_pattern: 0,
            wave_position: 0,
            frequency_timer: 0,
            frequency: 0,
            initial_volume: 0,
            current_volume: 0,
            inc_volume: false,
            envelope_period: 0,
            envelope_timer: 0,
            length_timer: 0,
            length_enabled: false,
            sweep_enabled: false,
            dec_freq: false,
            sweep_period: 0,
            sweep_timer: 0,
            sweep_amount: 0,
            old_freq: 0,
        }
    }
}

impl SquareChannel1 {
    /// The channel at power-up: everything off and zero.
    pub open spec fn spec_default() -> Self {
        SquareChannel1 {
            enabled: false,
            dac_enabled: false,
            duty_pattern: 0,
            wave_position: 0,
            frequency_timer: 0,
            frequency: 0,
            initial_volume: 0,
            current_volume: 0,
            inc_volume: false,
            envelope_period: 0,
            envelope_timer: 0,
            length_timer: 0,
            length_enabled: false,
            sweep_enabled: false,
            dec_freq: false,
            sweep_period: 0,
            sweep_timer: 0,
            sweep_amount: 0,
            old_freq: 0,
        }
    }

    /// Every field is within the range of the register bits it is loaded from.
    pub open spec fn wf(&self) -> bool {
        &&& self.duty_pattern < 4
        &&& self.wave_position < 8
        &&& self.frequency <= 2047
        &&& self.old_freq <= 2047
        &&& self.initial_volume <= 15
        &&& self.current_volume <= 15
        &&& self.envelope_period <= 7
        &&& self.length_timer <= 64
        &&& self.sweep_amount <= 7
        &&& self.sweep_period <= 15
    }

    /// The channel after one T-state.
    pub open spec fn spec_tick(self) -> Self {
        if self.frequency_timer == 0 {
            SquareChannel1 {
                frequency_timer: ((2048 - self.frequency) * 4 - 1) as u16,
                wave_position: ((self.wave_position + 1) % 8) as usize,
                ..self
            }
        } else {
            SquareChannel1 { frequency_timer: (self.frequency_timer - 1) as u16, ..self }
        }
    }

    /// The frequency that the sweep unit moves to next: the shadow frequency
    /// plus or minus itself shifted right by the sweep amount.
    pub open spec fn spec_sweep_target(&self) -> int {
        if self.dec_freq {
            self.old_freq - (self.old_freq >> self.sweep_amount)
        } else {
            self.old_freq + (self.old_freq >> self.sweep_amount)
        }
    }

    /// The channel after the overflow check: a target beyond 11 bits switches
    /// it off.
    pub open spec fn spec_calc_frequency(self) -> Self {
        SquareChannel1 { enabled: self.enabled && self.spec_sweep_target() <= 2047, ..self }
    }

    /// The sweep timer after one sweep clock that does not run it out, or its
    /// reload value when the clock does.
    pub open spec fn spec_sweep_reload(&self) -> u8 {
        if self.sweep_period > 0 {
            self.sweep_period
        } else {
            8
        }
    }

    /// The channel after one sweep clock.
    pub open spec fn spec_tick_sweep(self) -> Self {
        if self.sweep_timer > 1 {
            SquareChannel1 { sweep_timer: (self.sweep_timer - 1) as u8, ..self }
        } else {
            let reloaded = SquareChannel1 { sweep_timer: self.spec_sweep_reload(), ..self };
            if self.sweep_enabled && self.sweep_period > 0 {
                let checked = reloaded.spec_calc_frequency();
                let target = self.spec_sweep_target();
                if target <= 2047 && self.sweep_amount > 0 {
                    SquareChannel1 {
                        frequency: target as u16,
                        old_freq: target as u16,
                        ..checked
                    }.spec_calc_frequency()
                } else {
                    checked
                }
            } else {
                reloaded
            }
        }
    }

    /// The channel after one envelope clock.
    pub open spec fn spec_tick_volume(self) -> Self {
        let (timer, volume) = envelope_step(
            self.envelope_period,
            self.envelope_timer,
            self.current_volume,
            self.inc_volume,
        );
        SquareChannel1 { envelope_timer: timer, current_volume: volume, ..self }
    }

    /// The channel after one length clock.
    pub open spec fn spec_tick_length(self) -> Self {
        let (timer, enabled) = length_step(self.length_enabled, self.length_timer, self.enabled);
        SquareChannel1 { length_timer: timer, enabled: enabled, ..self }
    }

    /// The channel's output in fifteenths of full scale.
    pub open spec fn spec_get_amplitude(&self) -> int {
        dac_output(
            self.dac_enabled && self.enabled,
            spec_duty_level(self.duty_pattern, self.wave_position) * self.current_volume,
        )
    }

    /// The byte read from register `addr`; bits that cannot be read are 1.
    pub open spec fn spec_read(&self, addr: u16) -> u8 {
        if addr == 0xFF10 {
            (self.sweep_period << 4) | (if self.dec_freq {
                0x8u8
            } else {
                0x0u8
            }) | self.sweep_amount | 0x80
        } else if addr == 0xFF11 {
            ((self.duty_pattern as u8) << 6) | 0x3F
        } else if addr == 0xFF12 {
            (self.initial_volume << 4) | (if self.inc_volume {
                0x8u8
            } else {
                0x0u8
            }) | self.envelope_period
        } else if addr == 0xFF14 {
            (if self.length_enabled {
                0x40u8
            } else {
                0x00u8
            }) | 0xBF
        } else {
            0xFF
        }
    }

    /// The channel after a write of the control register: the upper period
    /// bits and the length enable are stored, an exhausted length timer is
    /// reloaded, and bit 7 restarts the channel if its converter is on.
    pub open spec fn spec_write_control(self, write: u8) -> Self {
        let stored = SquareChannel1 {
            frequency: (self.frequency & 0xFF) | (((write & 0x7) as u16) << 8),
            length_enabled: (write >> 6) & 0x1 != 0,
            length_timer: if self.length_timer == 0 {
                64
            } else {
                self.length_timer
            },
            ..self
        };
        if (write >> 7) != 0 && self.dac_enabled {
            let started = SquareChannel1 {
                enabled: true,
                old_freq: stored.frequency,
                sweep_timer: self.spec_sweep_reload(),
                sweep_enabled: self.sweep_period > 0 || self.sweep_amount > 0,
                ..stored
            };
            let checked = if self.sweep_amount > 0 {
                started.spec_calc_frequency()
            } else {
                started
            };
            SquareChannel1 {
                envelope_timer: self.envelope_period,
                current_volume: self.initial_volume,
                ..checked
            }
        } else {
            stored
        }
    }

    /// The channel after `write` is stored in register `addr`.
    pub open spec fn spec_write(self, addr: u16, write: u8) -> Self {
        if addr == 0xFF10 {
            SquareChannel1 {
                dec_freq: (write & 0x8) != 0,
                sweep_period: write >> 4,
                sweep_amount: write & 0x7,
                ..self
            }
        } else if addr == 0xFF11 {
            SquareChannel1 {
                duty_pattern: ((write >> 6) & 0x3) as usize,
                length_timer: (64 - (write & 0x3F)) as u16,
                ..self
            }
        } else if addr == 0xFF12 {
            SquareChannel1 {
                initial_volume: write >> 4,
                inc_volume: (write & 0x8) != 0,
                envelope_period: write & 0x7,
                dac_enabled: (write & 0xF8) != 0,
                ..self
            }
        } else if addr == 0xFF13 {
            SquareChannel1 { frequency: (self.frequency & 0x700) | write as u16, ..self }
        } else if addr == 0xFF14 {
            self.spec_write_control(write)
        } else {
            self
        }
    }

    /// Advances the channel by one T-state.
    pub fn tick(&mut self)
        requires
            old(self).wf(),
        ensures
            *final(self) == old(self).spec_tick(),
            final(self).wf(),
    {
        if self.frequency_timer == 0 {
            self.frequency_timer = (2048 - self.frequency) * 4;
            self.wave_position = (self.wave_position + 1) % 8;
        }
        self.frequency_timer -= 1;
    }

    /// Clocks the frequency sweep.
    pub fn tick_sweep(&mut self)
        requires
            old(self).wf(),
        ensures
            *final(self) == old(self).spec_tick_sweep(),
            final(self).wf(),
    {
        if self.sweep_timer > 0 {
            self.sweep_timer -= 1;
        }
        if self.sweep_timer == 0 {
            if self.sweep_period > 0 {
                self.sweep_timer = self.sweep_period;
            } else {
                self.sweep_timer = 8;
            }
            if self.sweep_enabled && self.sweep_period > 0 {
                let new_freq = self.calc_frequency();
                if new_freq <= 2047 && self.sweep_amount > 0 {
                    self.frequency = new_freq;
                    self.old_freq = new_freq;
                    self.calc_frequency();
                }
            }
        }
    }

    /// Computes the sweep's next frequency and switches the channel off if it
    /// does not fit in 11 bits.
    pub fn calc_frequency(&mut self) -> (new_freq: u16)
        requires
            old(self).wf(),
        ensures
            *final(self) == old(self).spec_calc_frequency(),
            new_freq == old(self).spec_sweep_target(),
            final(self).wf(),
    {
        proof {
            lemma_shr_le(self.old_freq, self.sweep_amount);
        }
        let mut new_freq = self.old_freq >> self.sweep_amount;
        if self.dec_freq {
            new_freq = self.old_freq - new_freq;
        } else {
            new_freq = self.old_freq + new_freq;
        }
        if new_freq > 2047 {
            self.enabled = false
        }
        new_freq
    }

    /// Clocks the volume envelope.
    pub fn tick_volume(&mut self)
        requires
            old(self).wf(),
        ensures
            *final(self) == old(self).spec_tick_volume(),
            final(self).wf(),
    {
        if self.envelope_period != 0 {
            if self.envelope_timer > 0 {
                self.envelope_timer -= 1;
            }
            if self.envelope_timer == 0 {
                self.envelope_timer = self.envelope_period;
                if (self.current_volume < 0xF && self.inc_volume) || (self.current_volume > 0
                    && !self.inc_volume) {
                    if self.inc_volume {
                        self.current_volume += 1;
                    } else {
                        self.current_volume -= 1;
                    }
                }
            }
        }
    }

    /// Clocks the length counter.
    pub fn tick_length(&mut self)
        ensures
            *final(self) == old(self).spec_tick_length(),
            old(self).wf() ==> final(self).wf(),
    {
        if self.length_enabled && self.length_timer > 0 {
            self.length_timer -= 1;
            if self.length_timer == 0 {
                self.enabled = false;
            }
        }
    }

    /// The channel's output in fifteenths of full scale, from -15 to 15.
    pub fn get_amplitude(&self) -> (amplitude: i16)
        requires
            self.wf(),
        ensures
            amplitude == self.spec_get_amplitude(),
            -15 <= amplitude <= 15,
    {
        if self.dac_enabled && self.enabled {
            let dac_input: i16 = (duty_level(self.duty_pattern, self.wave_position)
                * self.current_volume) as i16;
            2 * dac_input - 15
        } else {
            0
        }
    }

    /// Reads the register at `addr`.
    pub fn read(&self, addr: u16) -> (r: u8)
        requires
            self.wf(),
        ensures
            r == self.spec_read(addr),
    {
        match addr {
            0xFF10 => (self.sweep_period << 4) | (if self.dec_freq {
                0x8
            } else {
                0x0
            }) | self.sweep_amount | 0x80,
            0xFF11 => ((self.duty_pattern as u8) << 6) | 0x3F,
            0xFF12 => (self.initial_volume << 4) | (if self.inc_volume {
                0x8
            } else {
                0x0
            }) | self.envelope_period,
            0xFF14 => (if self.length_enabled {
                0x40
            } else {
                0x00
            }) | 0xBF,
            _ => 0xFF,
        }
    }

    /// Stores `write` in the register at `addr`.
    pub fn write(&mut self, addr: u16, write: u8)
        requires
            old(self).wf(),
        ensures
            *final(self) == old(self).spec_write(addr, write),
            final(self).wf(),
    {
        proof {
            lemma_byte_fields(write);
            lemma_period_bits(self.frequency, write);
        }
        match addr {
            0xFF10 => {
                self.dec_freq = (write & 0x8) != 0;
                self.sweep_period = write >> 4;
                self.sweep_amount = write & 0x7;
            },
            0xFF11 => {
                self.duty_pattern = ((write >> 6) & 0x3) as usize;
                self.length_timer = 64 - (write & 0x3F) as u16;
            },
            0xFF12 => {
                self.initial_volume = write >> 4;
                self.inc_volume = (write & 0x8) != 0;
                self.envelope_period = write & 0x7;
                self.dac_enabled = (write & 0xF8) != 0;
            },
            0xFF13 => {
                self.frequency = (self.frequency & 0x700) | write as u16;
            },
            0xFF14 => {
                self.frequency = (self.frequency & 0xFF) | (((write & 0x7) as u16) << 8);
                self.length_enabled = ((write >> 6) & 0x1) != 0;
                if self.length_timer == 0 {
                    self.length_timer = 64;
                }
                let trigger = (write >> 7) != 0;
                if trigger && self.dac_enabled {
                    self.enabled = true;
                    self.old_freq = self.frequency;
                    self.sweep_timer = if self.sweep_period > 0 {
                        self.sweep_period
                    } else {
                        8
                    };
                    self.sweep_enabled = self.sweep_period > 0 || self.sweep_amount > 0;
                    if self.sweep_amount > 0 {
                        self.calc_frequency();
                    }
                    self.envelope_timer = self.envelope_period;
                    self.current_volume = self.initial_volume;
                }
            },
            _ => {},
        }
    }
}

pub struct SquareChannel2 {
    pub enabled: bool,
    pub dac_enabled: bool,
    /// Which of the four duty patterns is played.
    pub duty_pattern: usize,
    /// The current step within the duty pattern.
    pub wave_position: usize,
    /// Counts down once per T-state; the pattern advances when it runs out.
    pub frequency_timer: u16,
    pub frequency: u16,
    pub initial_volume: u8,
    pub current_volume: u8,
    pub inc_volume: bool,
    pub envelope_period: u8,
    pub envelope_timer: u8,
    pub length_timer: u16,
    pub length_enabled: bool,
}

impl Default for SquareChannel2 {
    fn default() -> (ch: Self)
        ensures
            ch == Self::spec_default(),
            ch.wf(),
    {
        SquareChannel2 {
            enabled: false,
            dac_enabled: false,
            duty_pattern: 0,
            wave_position: 0,
            frequency_timer: 0,
            frequency: 0,
            initial_volume: 0,
            current_volume: 0,
            inc_volume: false,
            envelope_period: 0,
            envelope_timer: 0,
            length_timer: 0,
            length_enabled: false,
        }
    }
}

impl SquareChannel2 {
    /// The channel at power-up: everything off and zero.
    pub open spec fn spec_default() -> Self {
        SquareChannel2 {
            enabled: false,
            dac_enabled: false,
            duty_pattern: 0,
            wave_position: 0,
            frequency_timer: 0,
            frequency: 0,
            initial_volume: 0,
            current_volume: 0,
            inc_volume: false,
            envelope_period: 0,
            envelope_timer: 0,
            length_timer: 0,
            length_enabled: false,
        }
    }

    /// Every field is within the range of the register bits it is loaded from.
    pub open spec fn wf(&self) -> bool {
        &&& self.duty_pattern < 4
        &&& self.wave_position < 8
        &&& self.frequency <= 2047
        &&& self.initial_volume <= 15
        &&& self.current_volume <= 15
        &&& self.envelope_period <= 7
        &&& self.length_timer <= 64
    }

    /// The channel after one T-state.
    pub open spec fn spec_tick(self) -> Self {
        if self.frequency_timer == 0 {
            SquareChannel2 {
                frequency_timer: ((2048 - self.frequency) * 4 - 1) as u16,
                wave_position: ((self.wave_position + 1) % 8) as usize,
                ..self
            }
        } else {
            SquareChannel2 { frequency_timer: (self.frequency_timer - 1) as u16, ..self }
        }
    }

    /// The channel after one envelope clock.
    pub open spec fn spec_tick_volume(self) -> Self {
        let (timer, volume) = envelope_step(
            self.envelope_period,
            self.envelope_timer,
            self.current_volume,
            self.inc_volume,
        );
        SquareChannel2 { envelope_timer: timer, current_volume: volume, ..self }
    }

    /// The channel after one length clock.
    pub open spec fn spec_tick_length(self) -> Self {
        let (timer, enabled) = length_step(self.length_enabled, self.length_timer, self.enabled);
        SquareChannel2 { length_timer: timer, enabled: enabled, ..self }
    }

    /// The channel's output in fifteenths of full scale.
    pub open spec fn spec_get_amplitude(&self) -> int {
        dac_output(
            self.dac_enabled && self.enabled,
            spec_duty_level(self.duty_pattern, self.wave_position) * self.current_volume,
        )
    }

    /// The byte read from register `addr`; bits that cannot be read are 1.
    pub open spec fn spec_read(&self, addr: u16) -> u8 {
        if addr == 0xFF16 {
            ((self.duty_pattern as u8) << 6) | 0x3F
        } else if addr == 0xFF17 {
            (self.initial_volume << 4) | (if self.inc_volume {
                0x8u8
            } else {
                0x0u8
            }) | self.envelope_period
        } else if addr == 0xFF19 {
            (if self.length_enabled {
                0x40u8
            } else {
                0x00u8
            }) | 0xBF
        } else {
            0xFF
        }
    }

    /// The channel after a write of the control register: the upper period
    /// bits and the length enable are stored, an exhausted length timer is
    /// reloaded, and bit 7 restarts the channel if its converter is on.
    pub open spec fn spec_write_control(self, write: u8) -> Self {
        let stored = SquareChannel2 {
            frequency: (self.frequency & 0xFF) | (((write & 0x7) as u16) << 8),
            length_enabled: (write >> 6) & 0x1 != 0,
            length_timer: if self.length_timer == 0 {
                64
            } else {
                self.length_timer
            },
            ..self
        };
        if (write >> 7) != 0 && self.dac_enabled {
            SquareChannel2 {
                enabled: true,
                envelope_timer: self.envelope_period,
                current_volume: self.initial_volume,
                ..stored
            }
        } else {
            stored
        }
    }

    /// The channel after `write` is stored in register `addr`.
    pub open spec fn spec_write(self, addr: u16, write: u8) -> Self {
        if addr == 0xFF16 {
            SquareChannel2 {
                duty_pattern: ((write >> 6) & 0x3) as usize,
                length_timer: (64 - (write & 0x3F)) as u16,
                ..self
            }
        } else if addr == 0xFF17 {
            SquareChannel2 {
                initial_volume: write >> 4,
                inc_volume: (write & 0x8) != 0,
                envelope_period: write & 0x7,
                dac_enabled: (write & 0xF8) != 0,
                ..self
            }
        } else if addr == 0xFF18 {
            SquareChannel2 { frequency: (self.frequency & 0x700) | write as u16, ..self }
        } else if addr == 0xFF19 {
            self.spec_write_control(write)
        } else {
            self
        }
    }

    /// Advances the channel by one T-state.
    pub fn tick(&mut self)
        requires
            old(self).wf(),
        ensures
            *final(self) == old(self).spec_tick(),
            final(self).wf(),
    {
        if self.frequency_timer == 0 {
            self.frequency_timer = (2048 - self.frequency) * 4;
            self.wave_position = (self.wave_position + 1) % 8;
        }
        self.frequency_timer -= 1;
    }

    /// Clocks the volume envelope.
    pub fn tick_volume(&mut self)
        requires
            old(self).wf(),
        ensures
            *final(self) == old(self).spec_tick_volume(),
            final(self).wf(),
    {
        if self.envelope_period != 0 {
            if self.envelope_timer > 0 {
                self.envelope_timer -= 1;
            }
            if self.envelope_timer == 0 {
                self.envelope_timer = self.envelope_period;
                if (self.current_volume < 0xF && self.inc_volume) || (self.current_volume > 0
                    && !self.inc_volume) {
                    if self.inc_volume {
                        self.current_volume += 1;
                    } else {
                        self.current_volume -= 1;
                    }
                }
            }
        }
    }

    /// Clocks the length counter.
    pub fn tick_length(&mut self)
        ensures
            *final(self) == old(self).spec_tick_length(),
            old(self).wf() ==> final(self).wf(),
    {
        if self.length_enabled && self.length_timer > 0 {
            self.length_timer -= 1;
            if self.length_timer == 0 {
                self.enabled = false;
            }
        }
    }

    /// The channel's output in fifteenths of full scale, from -15 to 15.
    pub fn get_amplitude(&self) -> (amplitude: i16)
        requires
            self.wf(),
        ensures
            amplitude == self.spec_get_amplitude(),
            -15 <= amplitude <= 15,
    {
        if self.dac_enabled && self.enabled {
            let dac_input: i16 = (duty_level(self.duty_pattern, self.wave_position)
                * self.current_volume) as i16;
            2 * dac_input - 15
        } else {
            0
        }
    }

    /// Reads the register at `addr`.
    pub fn read(&self, addr: u16) -> (r: u8)
        requires
            self.wf(),
        ensures
            r == self.spec_read(addr),
    {
        match addr {
            0xFF16 => ((self.duty_pattern as u8) << 6) | 0x3F,
            0xFF17 => (self.initial_volume << 4) | (if self.inc_volume {
                0x8
            } else {
                0x0
            }) | self.envelope_period,
            0xFF19 => (if self.length_enabled {
                0x40
            } else {
                0x00
            }) | 0xBF,
            _ => 0xFF,
        }
    }

    /// Stores `write` in the register at `addr`.
    pub fn write(&mut self, addr: u16, write: u8)
        requires
            old(self).wf(),
        ensures
            *final(self) == old(self).spec_write(addr, write),
            final(self).wf(),
    {
        proof {
            lemma_byte_fields(write);
            lemma_period_bits(self.frequency, write);
        }
        match addr {
            0xFF16 => {
                self.duty_pattern = ((write >> 6) & 0x3) as usize;
                self.length_timer = 64 - (write & 0x3F) as u16;
            },
            0xFF17 => {
                self.initial_volume = write >> 4;
                self.inc_volume = (write & 0x8) != 0;
                self.envelope_period = write & 0x7;
                self.dac_enabled = (write & 0xF8) != 0;
            },
            0xFF18 => {
                self.frequency = (self.frequency & 0x700) | write as u16;
            },
            0xFF19 => {
                self.frequency = (self.frequency & 0xFF) | (((write & 0x7) as u16) << 8);
                self.length_enabled = ((write >> 6) & 0x1) != 0;
                if self.length_timer == 0 {
                    self.length_timer = 64;
                }
                let trigger = (write >> 7) != 0;
                if trigger && self.dac_enabled {
                    self.enabled = true;
                    self.envelope_timer = self.envelope_period;
                    self.current_volume = self.initial_volume;
                }
            },
            _ => {},
        }
    }
}

} // verus!

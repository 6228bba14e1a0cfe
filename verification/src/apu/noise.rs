//! The noise channel, driven by a 15-bit linear-feedback shift register.

use vstd::prelude::*;
use crate::apu::square::{dac_output, envelope_step, length_step};
use crate::bits::{lemma_byte_fields, lemma_low_bit};

verus! {

pub struct NoiseChannel {
    pub enabled: bool,
    pub dac_enabled: bool,
    /// The linear-feedback shift register.
    pub lfsr: u16,
    /// The clock control register: shift, register width and divisor code.
    pub nr43: u8,
    /// Counts down once per T-state; the register shifts when it runs out.
    pub frequency_timer: u16,
    pub initial_volume: u8,
    pub current_volume: u8,
    pub inc_volume: bool,
    pub envelope_period: u8,
    pub envelope_timer: u8,
    pub length_timer: u16,
    pub length_enabled: bool,
}

impl Default for NoiseChannel {
    fn default() -> (ch: Self)
        ensures
            ch == Self::spec_default(),
            ch.wf(),
    {
        NoiseChannel {
            enabled: false,
            dac_enabled: false,
            lfsr: 0,
            nr43: 0,
            frequency_timer: 0,
            initial_volume: 0,
            current_volume: 0,
            inc_volume: false,
            envelope_period: 0,
            envelope_timer: 0,
            length_timer: 0,
            length_enabled: false,
        }
    }
}

impl NoiseChannel {
    /// The channel at power-up: everything off and zero.
    pub open spec fn spec_default() -> Self {
        NoiseChannel {
            enabled: false,
            dac_enabled: false,
            lfsr: 0,
            nr43: 0,
            frequency_timer: 0,
            initial_volume: 0,
            current_volume: 0,
            inc_volume: false,
            envelope_period: 0,
            envelope_timer: 0,
            length_timer: 0,
            length_enabled: false,
        }
    }

    /// Every field is within the range of the register bits it is loaded from.
    pub open spec fn wf(&self) -> bool {
        &&& self.initial_volume <= 15
        &&& self.current_volume <= 15
        &&& self.envelope_period <= 7
        &&& self.length_timer <= 64
    }

    /// The number of T-states between two shifts of the register: the divisor
    /// (8 for code 0, else 16 times the code) shifted left by the upper nibble
    /// of the clock control register, cut to 16 bits.
    pub open spec fn spec_period(&self) -> u16 {
        let code = (self.nr43 & 0x07) as u16;
        (if code == 0 {
            8u16
        } else {
            code << 4
        }) << (self.nr43 >> 4)
    }

    /// The bit that is fed back: bit 0 xor bit 1 of the register.
    pub open spec fn spec_feedback(&self) -> u16 {
        (self.lfsr & 0x1) ^ ((self.lfsr & 0x2) >> 1)
    }

    /// The register after one shift. The feedback bit enters at bit 14, and in
    /// the short mode at bit 6 too.
    pub open spec fn spec_shifted(&self) -> u16 {
        let long = (self.lfsr >> 1) | (self.spec_feedback() << 14);
        if (self.nr43 >> 3) & 0x1 != 0 {
            (long & !(1u16 << 6)) | (self.spec_feedback() << 6)
        } else {
            long
        }
    }

    /// The channel after one T-state.
    pub open spec fn spec_tick(self) -> Self {
        if self.frequency_timer == 0 {
            NoiseChannel {
                frequency_timer: self.spec_period().wrapping_sub(1),
                lfsr: self.spec_shifted(),
                ..self
            }
        } else {
            NoiseChannel { frequency_timer: (self.frequency_timer - 1) as u16, ..self }
        }
    }

    /// The channel after one envelope clock.
    pub open spec fn spec_tick_volume(self) -> Self {
        let (timer, volume) = envelope_step(
            self.envelope_period,
            self.envelope_timer,
            self.current_volume,
            self.inc_volume,
        );
        NoiseChannel { envelope_timer: timer, current_volume: volume, ..self }
    }

    /// The channel after one length clock.
    pub open spec fn spec_tick_length(self) -> Self {
        let (timer, enabled) = length_step(self.length_enabled, self.length_timer, self.enabled);
        NoiseChannel { length_timer: timer, enabled: enabled, ..self }
    }

    /// The channel's output in fifteenths of full scale: the inverted low bit
    /// of the register at the current volume.
    pub open spec fn spec_get_amplitude(&self) -> int {
        dac_output(self.dac_enabled && self.enabled, (!self.lfsr & 0x1) * self.current_volume)
    }

    /// The byte read from register `addr`.
    pub open spec fn spec_read(&self, addr: u16) -> u8 {
        if addr == 0xFF21 {
            (self.initial_volume << 4) | (if self.inc_volume {
                0x8u8
            } else {
                0x0u8
            }) | self.envelope_period
        } else if addr == 0xFF22 {
            self.nr43
        } else if addr == 0xFF23 {
            if self.length_enabled {
                0x20
            } else {
                0x00
            }
        } else {
            0xFF
        }
    }

    /// The channel after a write of the control register: the length enable
    /// is stored, an exhausted length timer is reloaded, and bit 7 refills the
    /// shift register, restarts the envelope and, if the converter is on,
    /// switches the channel on.
    pub open spec fn spec_write_control(self, write: u8) -> Self {
        let stored = NoiseChannel {
            length_enabled: (write >> 6) & 0x1 != 0,
            length_timer: if self.length_timer == 0 {
                64
            } else {
                self.length_timer
            },
            ..self
        };
        if (write >> 7) != 0 {
            NoiseChannel {
                enabled: self.enabled || self.dac_enabled,
                lfsr: 0x7FFF,
                envelope_timer: self.envelope_period,
                current_volume: self.initial_volume,
                ..stored
            }
        } else {
            stored
        }
    }

    /// The channel after `write` is stored in register `addr`.
    pub open spec fn spec_write(self, addr: u16, write: u8) -> Self {
        if addr == 0xFF20 {
            NoiseChannel { length_timer: (64 - (write & 0x3F)) as u16, ..self }
        } else if addr == 0xFF21 {
            NoiseChannel {
                initial_volume: write >> 4,
                inc_volume: (write & 0x8) != 0,
                envelope_period: write & 0x7,
                dac_enabled: (write & 0xF8) != 0,
                ..self
            }
        } else if addr == 0xFF22 {
            NoiseChannel { nr43: write, ..self }
        } else if addr == 0xFF23 {
            self.spec_write_control(write)
        } else {
            self
        }
    }

    /// Advances the channel by one T-state.
    pub fn tick(&mut self)
        ensures
            *final(self) == old(self).spec_tick(),
            old(self).wf() ==> final(self).wf(),
    {
        if self.frequency_timer == 0 {
            proof {
                lemma_byte_fields(self.nr43);
            }
            let divisor_code = (self.nr43 & 0x07) as u16;
            self.frequency_timer = (if divisor_code == 0 {
                8
            } else {
                divisor_code << 4
            }) << (self.nr43 >> 4);
            let xor_result = (self.lfsr & 0x1) ^ ((self.lfsr & 0x2) >> 1);
            self.lfsr = (self.lfsr >> 1) | (xor_result << 14);
            if ((self.nr43 >> 3) & 0x1) != 0 {
                self.lfsr &= !(1u16 << 6);
                self.lfsr |= xor_result << 6;
            }
        }
        self.frequency_timer = self.frequency_timer.wrapping_sub(1);
    }

    /// Clocks the volume envelope.
    pub fn tick_volume(&mut self)
        requires
            old(self).wf(),
        ensures
            *final(self) == old(self).spec_tick_volume(),
            final(self).wf(),
    {
        if self.envelope_period != 0 {
            if self.envelope_timer > 0 {
                self.envelope_timer -= 1;
            }
            if self.envelope_timer == 0 {
                self.envelope_timer = self.envelope_period;
                if (self.current_volume < 0xF && self.inc_volume) || (self.current_volume > 0
                    && !self.inc_volume) {
                    if self.inc_volume {
                        self.current_volume += 1;
                    } else {
                        self.current_volume -= 1;
                    }
                }
            }
        }
    }

    /// Clocks the length counter.
    pub fn tick_length(&mut self)
        ensures
            *final(self) == old(self).spec_tick_length(),
            old(self).wf() ==> final(self).wf(),
    {
        if self.length_enabled && self.length_timer > 0 {
            self.length_timer -= 1;
            if self.length_timer == 0 {
                self.enabled = false;
            }
        }
    }

    /// The channel's output in fifteenths of full scale, from -15 to 15.
    pub fn get_amplitude(&self) -> (amplitude: i16)
        requires
            self.wf(),
        ensures
            amplitude == self.spec_get_amplitude(),
            -15 <= amplitude <= 15,
    {
        if self.dac_enabled && self.enabled {
            proof {
                lemma_low_bit(self.lfsr);
            }
            let dac_input: i16 = ((!self.lfsr & 0x1) * (self.current_volume as u16)) as i16;
            2 * dac_input - 15
        } else {
            0
        }
    }

    /// Reads the register at `addr`.
    pub fn read(&self, addr: u16) -> (r: u8)
        requires
            self.wf(),
        ensures
            r == self.spec_read(addr),
    {
        match addr {
            0xFF21 => (self.initial_volume << 4) | (if self.inc_volume {
                0x8
            } else {
                0x0
            }) | self.envelope_period,
            0xFF22 => self.nr43,
            0xFF23 => if self.length_enabled {
                0x20
            } else {
                0x00
            },
            _ => 0xFF,
        }
    }

    /// Stores `write` in the register at `addr`.
    pub fn write(&mut self, addr: u16, write: u8)
        requires
            old(self).wf(),
        ensures
            *final(self) == old(self).spec_write(addr, write),
            final(self).wf(),
    {
        proof {
            lemma_byte_fields(write);
        }
        match addr {
            0xFF20 => self.length_timer = (64 - (write & 0x3F)) as u16,
            0xFF21 => {
                self.initial_volume = write >> 4;
                self.inc_volume = (write & 0x8) != 0;
                self.envelope_period = write & 0x7;
                self.dac_enabled = (write & 0xF8) != 0;
            },
            0xFF22 => self.nr43 = write,
            0xFF23 => {
                self.length_enabled = ((write >> 6) & 0x1) != 0;
                if self.length_timer == 0 {
                    self.length_timer = 64;
                }
                let trigger = (write >> 7) != 0;
                if trigger && self.dac_enabled {
                    self.enabled = true;
                }
                if trigger {
                    self.lfsr = 0x7FFF;
                    self.envelope_timer = self.envelope_period;
                    self.current_volume = self.initial_volume;
                }
            },
            _ => {},
        }
    }
}

} // verus!

//! The wave channel, which plays 32 four-bit samples from its own small RAM.

use vstd::prelude::*;
use vstd::array::{spec_array_fill_for_copy_type, spec_array_update};
use crate::apu::square::{dac_output, length_step};
use crate::bits::{lemma_byte_fields, lemma_nibble_shr, lemma_period_bits};

verus! {

/// How far a sample is shifted right for each output-level code: code 0 mutes
/// the channel, codes 1 to 3 play at 100%, 50% and 25%.
pub open spec fn volume_shift_of(output_level: u8) -> u8 {
    if output_level == 0 {
        4
    } else if output_level == 1 {
        0
    } else if output_level == 2 {
        1
    } else {
        2
    }
}

pub struct WaveChannel {
    pub enabled: bool,
    pub dac_enabled: bool,
    /// 32 samples of four bits, two to a byte, the upper nibble first.
    pub wave_ram: [u8; 16],
    /// The sample that is being played, 0 to 31.
    pub wave_position: usize,
    /// The output-level code as it was written.
    pub output_level: u8,
    /// The number of bits by which each sample is shifted right.
    pub volume_shift: u8,
    /// Counts down once per T-state; the position advances when it runs out.
    pub frequency_timer: u16,
    pub frequency: u16,
    pub length_timer: u16,
    pub length_enabled: bool,
}

impl Default for WaveChannel {
    fn default() -> (ch: Self)
        ensures
            ch == Self::spec_default(),
            ch.wf(),
    {
        WaveChannel {
            enabled: false,
            dac_enabled: false,
            wave_ram: [0u8; 16],
            wave_position: 0,
            output_level: 0,
            volume_shift: 0,
            frequency_timer: 0,
            frequency: 0,
            length_timer: 0,
            length_enabled: false,
        }
    }
}

impl WaveChannel {
    /// The channel at power-up: everything off and zero.
    pub open spec fn spec_default() -> Self {
        WaveChannel {
            enabled: false,
            dac_enabled: false,
            wave_ram: spec_array_fill_for_copy_type(0u8),
            wave_position: 0,
            output_level: 0,
            volume_shift: 0,
            frequency_timer: 0,
            frequency: 0,
            length_timer: 0,
            length_enabled: false,
        }
    }

    /// Every field is within the range of the register bits it is loaded from.
    pub open spec fn wf(&self) -> bool {
        &&& self.wave_position < 32
        &&& self.output_level <= 3
        &&& self.volume_shift <= 4
        &&& self.frequency <= 2047
        &&& self.length_timer <= 256
    }

    /// The channel after one T-state.
    pub open spec fn spec_tick(self) -> Self {
        if self.frequency_timer == 0 {
            WaveChannel {
                frequency_timer: ((2048 - self.frequency) * 2 - 1) as u16,
                wave_position: ((self.wave_position + 1) % 32) as usize,
                ..self
            }
        } else {
            WaveChannel { frequency_timer: (self.frequency_timer - 1) as u16, ..self }
        }
    }

    /// The channel after one length clock.
    pub open spec fn spec_tick_length(self) -> Self {
        let (timer, enabled) = length_step(self.length_enabled, self.length_timer, self.enabled);
        WaveChannel { length_timer: timer, enabled: enabled, ..self }
    }

    /// The four-bit sample at the current position: the upper nibble of its
    /// byte at even positions, the lower nibble at odd ones.
    pub open spec fn spec_sample(&self) -> u8 {
        let byte = self.wave_ram[self.wave_position as int / 2];
        if self.wave_position % 2 == 0 {
            (byte >> 4) & 0xF
        } else {
            (byte >> 0) & 0xF
        }
    }

    /// The channel's output in fifteenths of full scale.
    pub open spec fn spec_get_amplitude(&self) -> int {
        dac_output(
            self.dac_enabled && self.enabled,
            (self.spec_sample() >> self.volume_shift) as int,
        )
    }

    /// The byte read from register `addr`; bits that cannot be read are 1.
    pub open spec fn spec_read(&self, addr: u16) -> u8 {
        if addr == 0xFF1A {
            (if self.dac_enabled {
                0x80u8
            } else {
                0x00u8
            }) | 0x7F
        } else if addr == 0xFF1C {
            (self.output_level << 5) | 0x9F
        } else if addr == 0xFF1E {
            (if self.length_enabled {
                0x40u8
            } else {
                0x00u8
            }) | 0xBF
        } else if 0xFF30 <= addr <= 0xFF3F {
            self.wave_ram[addr - 0xFF30]
        } else {
            0xFF
        }
    }

    /// The channel after `write` is stored in register `addr`.
    pub open spec fn spec_write(self, addr: u16, write: u8) -> Self {
        if addr == 0xFF1A {
            let dac = (write >> 7) & 0x1 != 0;
            WaveChannel { dac_enabled: dac, enabled: self.enabled && dac, ..self }
        } else if addr == 0xFF1B {
            WaveChannel { length_timer: (256 - write) as u16, ..self }
        } else if addr == 0xFF1C {
            let level = (write >> 5) & 0x3;
            WaveChannel { output_level: level, volume_shift: volume_shift_of(level), ..self }
        } else if addr == 0xFF1D {
            WaveChannel { frequency: (self.frequency & 0x700) | write as u16, ..self }
        } else if addr == 0xFF1E {
            WaveChannel {
                frequency: (self.frequency & 0xFF) | (((write & 0x7) as u16) << 8),
                length_enabled: (write >> 6) & 0x1 != 0,
                length_timer: if self.length_timer == 0 {
                    64
                } else {
                    self.length_timer
                },
                enabled: self.enabled || ((write >> 7) != 0 && self.dac_enabled),
                ..self
            }
        } else if 0xFF30 <= addr <= 0xFF3F {
            WaveChannel { wave_ram: spec_array_update(self.wave_ram, addr - 0xFF30, write), ..self }
        } else {
            self
        }
    }

    /// Advances the channel by one T-state.
    pub fn tick(&mut self)
        requires
            old(self).wf(),
        ensures
            *final(self) == old(self).spec_tick(),
            final(self).wf(),
    {
        if self.frequency_timer == 0 {
            self.frequency_timer = (2048 - self.frequency) * 2;
            self.wave_position = (self.wave_position + 1) % 32;
        }
        self.frequency_timer -= 1;
    }

    /// Clocks the length counter.
    pub fn tick_length(&mut self)
        ensures
            *final(self) == old(self).spec_tick_length(),
            old(self).wf() ==> final(self).wf(),
    {
        if self.length_enabled && self.length_timer > 0 {
            self.length_timer -= 1;
            if self.length_timer == 0 {
                self.enabled = false;
            }
        }
    }

    /// The channel's output in fifteenths of full scale, from -15 to 15.
    pub fn get_amplitude(&self) -> (amplitude: i16)
        requires
            self.wf(),
        ensures
            amplitude == self.spec_get_amplitude(),
            -15 <= amplitude <= 15,
    {
        if self.dac_enabled && self.enabled {
            let byte = self.wave_ram[self.wave_position / 2];
            proof {
                lemma_nibble_shr(byte, self.volume_shift);
            }
            let dac_input: u8 = (byte >> (if self.wave_position % 2 == 0 {
                4u8
            } else {
                0u8
            })) & 0xF;
            2 * ((dac_input >> self.volume_shift) as i16) - 15
        } else {
            0
        }
    }

    /// Reads the register or the byte of wave RAM at `addr`.
    pub fn read(&self, addr: u16) -> (r: u8)
        requires
            self.wf(),
        ensures
            r == self.spec_read(addr),
    {
        match addr {
            0xFF1A => (if self.dac_enabled {
                0x80
            } else {
                0x00
            }) | 0x7F,
            0xFF1C => (self.output_level << 5) | 0x9F,
            0xFF1E => (if self.length_enabled {
                0x40
            } else {
                0x00
            }) | 0xBF,
            0xFF30..=0xFF3F => self.wave_ram[addr as usize - 0xFF30],
            _ => 0xFF,
        }
    }

    /// Stores `write` in the register or the byte of wave RAM at `addr`.
    pub fn write(&mut self, addr: u16, write: u8)
        requires
            old(self).wf(),
        ensures
            *final(self) == old(self).spec_write(addr, write),
            final(self).wf(),
    {
        proof {
            lemma_byte_fields(write);
            lemma_period_bits(self.frequency, write);
        }
        match addr {
            0xFF1A => {
                self.dac_enabled = (write >> 7) & 0x1 != 0;
                if !self.dac_enabled {
                    self.enabled = false;
                }
            },
            0xFF1B => self.length_timer = 256 - write as u16,
            0xFF1C => {
                self.output_level = (write >> 5) & 0x3;
                self.volume_shift = match self.output_level {
                    0 => 4,
                    1 => 0,
                    2 => 1,
                    _ => 2,
                };
            },
            0xFF1D => {
                self.frequency = (self.frequency & 0x700) | write as u16;
            },
            0xFF1E => {
                self.frequency = (self.frequency & 0xFF) | (((write & 0x7) as u16) << 8);
                self.length_enabled = ((write >> 6) & 0x1) != 0;
                if self.length_timer == 0 {
                    self.length_timer = 64;
                }
                let trigger = (write >> 7) != 0;
                if trigger && self.dac_enabled {
                    self.enabled = true;
                }
            },
            0xFF30..=0xFF3F => {
                self.wave_ram[addr as usize - 0xFF30] = write;
                assert(self.wave_ram =~= spec_array_update(
                    old(self).wave_ram,
                    addr - 0xFF30,
                    write,
                ));
            },
            _ => {},
        }
    }
}

} // verus!

//! The audio unit: four channel generators, a frame sequencer and a mixer.
//!
//! Samples are integers. A channel's output is counted in fifteenths of full
//! scale, and a mixed sample in units of 1/420 of full scale: the product of a
//! master volume (sevenths), the mean of four channels (quarters) and a
//! channel level (fifteenths).

pub mod noise;
pub mod square;
pub mod wave;

use vstd::prelude::*;
use vstd::array::spec_array_update;
use crate::apu::noise::NoiseChannel;
use crate::apu::square::{SquareChannel1, SquareChannel2};
use crate::apu::wave::WaveChannel;
use crate::bits::lemma_byte_fields;

verus! {

/// Samples per second and side that the mixer produces.
pub const SAMPLE_RATE: usize = 48000;

/// The number of samples, both sides counted, that are collected before they
/// are handed to the sink.
pub const BUFFER_SIZE: usize = 1024;

/// T-states per second.
pub const CPU_CLOCK: usize = 4194304;

/// T-states between two samples: the clock rate over the sample rate.
pub const SAMPLE_PERIOD: u32 = 87;

/// T-states between two steps of the frame sequencer.
pub const SEQUENCER_PERIOD: u32 = 0x2000;

/// The value of a mixed sample at full scale.
pub const SAMPLE_SCALE: i16 = 420;

/// Whether every sample of `samples` is within full scale.
pub open spec fn within_scale(samples: Seq<i16>) -> bool {
    forall|i: int| 0 <= i < samples.len() ==> -420 <= #[trigger] samples[i] <= 420
}

pub struct APU {
    pub enabled: bool,
    /// The panning register: bits 4-7 route channels 1-4 to the left side,
    /// bits 0-3 to the right side.
    pub nr51: u8,
    pub left_volume: u8,
    pub right_volume: u8,
    pub vin_left: bool,
    pub vin_right: bool,
    /// Samples waiting to be flushed, left and right interleaved.
    pub buffer: [i16; 1024],
    pub buffer_pos: usize,
    /// T-states since the frame sequencer last stepped.
    pub sample_clock: u32,
    pub frame_sequencer_pos: u8,
    pub channel_1: SquareChannel1,
    pub channel_2: SquareChannel2,
    pub channel_3: WaveChannel,
    pub channel_4: NoiseChannel,
}

impl APU {
    /// The invariant of the unit: volumes are three bits wide, the buffer
    /// holds whole stereo pairs and is never full between steps, and the
    /// clocks are within their periods.
    pub open spec fn wf(&self) -> bool {
        &&& self.left_volume <= 7
        &&& self.right_volume <= 7
        &&& self.buffer_pos < 1024
        &&& self.buffer_pos % 2 == 0
        &&& self.sample_clock < 0x2000
        &&& self.frame_sequencer_pos < 8
        &&& self.channel_1.wf()
        &&& self.channel_2.wf()
        &&& self.channel_3.wf()
        &&& self.channel_4.wf()
        &&& within_scale(self.buffer@)
    }

    /// Whether the unit is as it is at power-up: silent, with an empty
    /// buffer and all clocks at zero.
    pub open spec fn is_power_up(&self) -> bool {
        &&& !self.enabled
        &&& self.nr51 == 0
        &&& self.left_volume == 0
        &&& self.right_volume == 0
        &&& !self.vin_left
        &&& !self.vin_right
        &&& self.buffer_pos == 0
        &&& self.sample_clock == 0
        &&& self.frame_sequencer_pos == 0
        &&& self.channel_1 == SquareChannel1::spec_default()
        &&& self.channel_2 == SquareChannel2::spec_default()
        &&& self.channel_3 == WaveChannel::spec_default()
        &&& self.channel_4 == NoiseChannel::spec_default()
        &&& forall|i: int| 0 <= i < 1024 ==> self.buffer[i] == 0
    }

    /// The unit with the clock advanced by one T-state and every channel
    /// ticked once.
    pub open spec fn spec_clocked(self) -> Self {
        APU {
            sample_clock: (self.sample_clock + 1) as u32,
            channel_1: self.channel_1.spec_tick(),
            channel_2: self.channel_2.spec_tick(),
            channel_3: self.channel_3.spec_tick(),
            channel_4: self.channel_4.spec_tick(),
            ..self
        }
    }

    /// The unit after one step of the frame sequencer. Even phases clock the
    /// length counters, phases 2 and 6 the sweep of channel 1 as well, and
    /// phase 7 the envelopes.
    pub open spec fn spec_sequenced(self) -> Self {
        let phase = self.frame_sequencer_pos;
        let next = ((phase + 1) % 8) as u8;
        if phase == 0 || phase == 4 {
            APU {
                frame_sequencer_pos: next,
                channel_1: self.channel_1.spec_tick_length(),
                channel_2: self.channel_2.spec_tick_length(),
                channel_3: self.channel_3.spec_tick_length(),
                channel_4: self.channel_4.spec_tick_length(),
                ..self
            }
        } else if phase == 2 || phase == 6 {
            APU {
                frame_sequencer_pos: next,
                channel_1: self.channel_1.spec_tick_length().spec_tick_sweep(),
                channel_2: self.channel_2.spec_tick_length(),
                channel_3: self.channel_3.spec_tick_length(),
                channel_4: self.channel_4.spec_tick_length(),
                ..self
            }
        } else if phase == 7 {
            APU {
                frame_sequencer_pos: next,
                channel_1: self.channel_1.spec_tick_volume(),
                channel_2: self.channel_2.spec_tick_volume(),
                channel_4: self.channel_4.spec_tick_volume(),
                ..self
            }
        } else {
            APU { frame_sequencer_pos: next, ..self }
        }
    }

    /// The sum of the outputs of the channels that `routes` selects, bit 0
    /// for channel 1 up to bit 3 for channel 4, in fifteenths of full scale.
    pub open spec fn spec_mix(&self, routes: u8) -> int {
        (if routes & 0x1 != 0 {
            self.channel_1.spec_get_amplitude()
        } else {
            0
        }) + (if routes & 0x2 != 0 {
            self.channel_2.spec_get_amplitude()
        } else {
            0
        }) + (if routes & 0x4 != 0 {
            self.channel_3.spec_get_amplitude()
        } else {
            0
        }) + (if routes & 0x8 != 0 {
            self.channel_4.spec_get_amplitude()
        } else {
            0
        })
    }

    /// The left sample: the channels routed to the left, scaled by the left
    /// master volume.
    pub open spec fn spec_left_sample(&self) -> int {
        self.left_volume * self.spec_mix(self.nr51 >> 4)
    }

    /// The right sample: the channels routed to the right, scaled by the
    /// right master volume.
    pub open spec fn spec_right_sample(&self) -> int {
        self.right_volume * self.spec_mix(self.nr51 & 0xF)
    }

    /// The unit after one stereo pair has been written into the buffer.
    pub open spec fn spec_sampled(self) -> Self {
        APU {
            buffer: spec_array_update(
                spec_array_update(
                    self.buffer,
                    self.buffer_pos as int,
                    self.spec_left_sample() as i16,
                ),
                self.buffer_pos + 1,
                self.spec_right_sample() as i16,
            ),
            buffer_pos: (self.buffer_pos + 2) as usize,
            ..self
        }
    }

    /// The unit after one T-state, before a full buffer is flushed.
    pub open spec fn spec_advanced(self) -> Self {
        let clocked = self.spec_clocked();
        let sequenced = if clocked.sample_clock % SEQUENCER_PERIOD == 0 {
            APU { sample_clock: 0, ..clocked }.spec_sequenced()
        } else {
            clocked
        };
        if sequenced.sample_clock % SAMPLE_PERIOD == 0 {
            sequenced.spec_sampled()
        } else {
            sequenced
        }
    }

    /// The unit after one T-state, and the samples that this T-state flushed:
    /// the whole buffer once it is full, nothing otherwise.
    pub open spec fn spec_step(self) -> (Self, Seq<i16>) {
        let advanced = self.spec_advanced();
        if advanced.buffer_pos >= BUFFER_SIZE {
            (APU { buffer_pos: 0, ..advanced }, advanced.buffer@)
        } else {
            (advanced, Seq::empty())
        }
    }

    /// The unit after `cycles` T-states, and all the samples flushed on the
    /// way, in order.
    pub open spec fn spec_tick(self, cycles: nat) -> (Self, Seq<i16>)
        decreases cycles,
    {
        if cycles == 0 {
            (self, Seq::empty())
        } else {
            let (before, flushed) = self.spec_tick((cycles - 1) as nat);
            let (after, last) = before.spec_step();
            (after, flushed + last)
        }
    }

    /// The byte read from register `addr`.
    pub open spec fn spec_read_byte(&self, addr: u16) -> u8 {
        if addr == 0xFF26 {
            (if self.enabled {
                0x80u8
            } else {
                0x00u8
            }) | 0x70 | (if self.channel_1.enabled {
                0x01u8
            } else {
                0x00u8
            }) | (if self.channel_2.enabled {
                0x02u8
            } else {
                0x00u8
            }) | (if self.channel_3.enabled {
                0x04u8
            } else {
                0x00u8
            }) | (if self.channel_4.enabled {
                0x08u8
            } else {
                0x00u8
            })
        } else if addr == 0xFF25 {
            self.nr51
        } else if addr == 0xFF24 {
            (if self.vin_left {
                0x80u8
            } else {
                0x00u8
            }) | (self.left_volume << 4) | (if self.vin_right {
                0x08u8
            } else {
                0x00u8
            }) | self.right_volume
        } else if 0xFF10 <= addr <= 0xFF14 {
            self.channel_1.spec_read(addr)
        } else if 0xFF15 <= addr <= 0xFF19 {
            self.channel_2.spec_read(addr)
        } else if 0xFF1A <= addr <= 0xFF1E || 0xFF30 <= addr <= 0xFF3F {
            self.channel_3.spec_read(addr)
        } else if 0xFF1F <= addr <= 0xFF23 {
            self.channel_4.spec_read(addr)
        } else {
            0xFF
        }
    }

    /// The unit after `write` is stored in register `addr`.
    pub open spec fn spec_write_byte(self, addr: u16, write: u8) -> Self {
        if addr == 0xFF26 {
            APU { enabled: (write & 0x80) != 0, ..self }
        } else if addr == 0xFF25 {
            APU { nr51: write, ..self }
        } else if addr == 0xFF24 {
            APU {
                vin_left: (write & 0x80) != 0,
                vin_right: (write & 0x8) != 0,
                left_volume: (write >> 4) & 0x7,
                right_volume: write & 0x7,
                ..self
            }
        } else if 0xFF10 <= addr <= 0xFF14 {
            APU { channel_1: self.channel_1.spec_write(addr, write), ..self }
        } else if 0xFF15 <= addr <= 0xFF19 {
            APU { channel_2: self.channel_2.spec_write(addr, write), ..self }
        } else if 0xFF1A <= addr <= 0xFF1E || 0xFF30 <= addr <= 0xFF3F {
            APU { channel_3: self.channel_3.spec_write(addr, write), ..self }
        } else if 0xFF1F <= addr <= 0xFF23 {
            APU { channel_4: self.channel_4.spec_write(addr, write), ..self }
        } else {
            self
        }
    }

    /// A silent unit with an empty buffer.
    pub fn new() -> (apu: Self)
        ensures
            apu.wf(),
            apu.is_power_up(),
    {
        APU {
            enabled: false,
            nr51: 0,
            left_volume: 0,
            right_volume: 0,
            vin_left: false,
            vin_right: false,
            buffer: [0i16; 1024],
            buffer_pos: 0,
            sample_clock: 0,
            frame_sequencer_pos: 0,
            channel_1: SquareChannel1::default(),
            channel_2: SquareChannel2::default(),
            channel_3: WaveChannel::default(),
            channel_4: NoiseChannel::default(),
        }
    }

    /// The sum of the outputs of the channels that `routes` selects.
    fn mix(&self, routes: u8) -> (sum: i16)
        requires
            self.wf(),
        ensures
            sum == self.spec_mix(routes),
            -60 <= sum <= 60,
    {
        let mut sum: i16 = 0;
        if routes & 0x1 != 0 {
            sum += self.channel_1.get_amplitude();
        }
        if routes & 0x2 != 0 {
            sum += self.channel_2.get_amplitude();
        }
        if routes & 0x4 != 0 {
            sum += self.channel_3.get_amplitude();
        }
        if routes & 0x8 != 0 {
            sum += self.channel_4.get_amplitude();
        }
        sum
    }

    /// Steps the frame sequencer once.
    fn sequence(&mut self)
        requires
            old(self).wf(),
        ensures
            *final(self) == old(self).spec_sequenced(),
            final(self).wf(),
    {
        match self.frame_sequencer_pos {
            0 | 4 => {
                self.channel_1.tick_length();
                self.channel_2.tick_length();
                self.channel_3.tick_length();
                self.channel_4.tick_length();
            },
            2 | 6 => {
                self.channel_1.tick_length();
                self.channel_2.tick_length();
                self.channel_3.tick_length();
                self.channel_4.tick_length();
                self.channel_1.tick_sweep();
            },
            7 => {
                self.channel_1.tick_volume();
                self.channel_2.tick_volume();
                self.channel_4.tick_volume();
            },
            _ => {},
        }
        self.frame_sequencer_pos = (self.frame_sequencer_pos + 1) % 8;
    }

    /// Mixes one stereo pair and stores it in the buffer.
    fn sample(&mut self)
        requires
            old(self).wf(),
        ensures
            *final(self) == old(self).spec_sampled(),
            -420 <= old(self).spec_left_sample() <= 420,
            -420 <= old(self).spec_right_sample() <= 420,
            within_scale(final(self).buffer@),
    {
        let left_sum = self.mix(self.nr51 >> 4);
        let right_sum = self.mix(self.nr51 & 0xF);
        let left_volume = self.left_volume as i16;
        let right_volume = self.right_volume as i16;
        assert(-420 <= left_volume * left_sum <= 420) by (nonlinear_arith)
            requires
                0 <= left_volume <= 7,
                -60 <= left_sum <= 60,
        ;
        assert(-420 <= right_volume * right_sum <= 420) by (nonlinear_arith)
            requires
                0 <= right_volume <= 7,
                -60 <= right_sum <= 60,
        ;
        self.buffer[self.buffer_pos] = left_volume * left_sum;
        self.buffer[self.buffer_pos + 1] = right_volume * right_sum;
        self.buffer_pos += 2;
        assert(self.buffer =~= old(self).spec_sampled().buffer);
    }

    /// Advances the unit by one T-state and appends a buffer that this fills
    /// to `sink`. What is appended is nothing or one whole buffer, and every
    /// sample of it is within full scale.
    pub fn step(&mut self, sink: &mut Vec<i16>)
        requires
            old(self).wf(),
        ensures
            *final(self) == old(self).spec_step().0,
            final(sink)@ == old(sink)@ + old(self).spec_step().1,
            final(self).wf(),
            old(self).spec_step().1.len() == 0 || old(self).spec_step().1.len() == 1024,
            within_scale(old(self).spec_step().1),
    {
        self.sample_clock = self.sample_clock + 1;
        self.channel_1.tick();
        self.channel_2.tick();
        self.channel_3.tick();
        self.channel_4.tick();
        if self.sample_clock % SEQUENCER_PERIOD == 0 {
            self.sample_clock = 0;
            self.sequence();
        }
        if self.sample_clock % SAMPLE_PERIOD == 0 {
            self.sample();
        }
        if self.buffer_pos >= BUFFER_SIZE {
            let ghost before = sink@;
            let mut i: usize = 0;
            while i < BUFFER_SIZE
                invariant
                    i <= BUFFER_SIZE,
                    sink@ == before + self.buffer@.subrange(0, i as int),
                decreases BUFFER_SIZE - i,
            {
                sink.push(self.buffer[i]);
                i += 1;
                assert(self.buffer@.subrange(0, i as int) =~= self.buffer@.subrange(
                    0,
                    i - 1,
                ).push(self.buffer@[i - 1]));
                assert(sink@ =~= before + self.buffer@.subrange(0, i as int));
            }
            assert(self.buffer@.subrange(0, BUFFER_SIZE as int) =~= self.buffer@);
            self.buffer_pos = 0;
        } else {
            assert(sink@ =~= old(sink)@ + Seq::<i16>::empty());
        }
    }

    /// Advances the unit by `cycles` T-states. Every buffer that fills on the
    /// way is appended to `sink`, oldest first. What is appended is a whole
    /// number of buffers, and every sample of it is within full scale.
    pub fn tick(&mut self, cycles: u64, sink: &mut Vec<i16>)
        requires
            old(self).wf(),
        ensures
            *final(self) == old(self).spec_tick(cycles as nat).0,
            final(sink)@ == old(sink)@ + old(self).spec_tick(cycles as nat).1,
            final(self).wf(),
            old(self).spec_tick(cycles as nat).1.len() % 1024 == 0,
            within_scale(old(self).spec_tick(cycles as nat).1),
    {
        let mut done: u64 = 0;
        assert(sink@ =~= old(sink)@ + Seq::<i16>::empty());
        while done < cycles
            invariant
                done <= cycles,
                self.wf(),
                *self == old(self).spec_tick(done as nat).0,
                sink@ == old(sink)@ + old(self).spec_tick(done as nat).1,
                old(self).spec_tick(done as nat).1.len() % 1024 == 0,
                within_scale(old(self).spec_tick(done as nat).1),
            decreases cycles - done,
        {
            let ghost flushed = old(self).spec_tick(done as nat).1;
            let ghost last = self.spec_step().1;
            self.step(sink);
            done += 1;
            assert(sink@ =~= old(sink)@ + (flushed + last));
        }
    }

    /// Reads the register at `addr`.
    pub fn read_byte(&self, addr: u16) -> (r: u8)
        requires
            self.wf(),
        ensures
            r == self.spec_read_byte(addr),
    {
        match addr {
            0xFF26 => (if self.enabled {
                0x80
            } else {
                0x00
            }) | 0x70 | (if self.channel_1.enabled {
                0x01
            } else {
                0x00
            }) | (if self.channel_2.enabled {
                0x02
            } else {
                0x00
            }) | (if self.channel_3.enabled {
                0x04
            } else {
                0x00
            }) | (if self.channel_4.enabled {
                0x08
            } else {
                0x00
            }),
            0xFF25 => self.nr51,
            0xFF24 => (if self.vin_left {
                0x80
            } else {
                0x00
            }) | (self.left_volume << 4) | (if self.vin_right {
                0x08
            } else {
                0x00
            }) | self.right_volume,
            0xFF10..=0xFF14 => self.channel_1.read(addr),
            0xFF15..=0xFF19 => self.channel_2.read(addr),
            0xFF1A..=0xFF1E | 0xFF30..=0xFF3F => self.channel_3.read(addr),
            0xFF1F..=0xFF23 => self.channel_4.read(addr),
            _ => 0xFF,
        }
    }

    /// Stores `write` in the register at `addr`.
    pub fn write_byte(&mut self, addr: u16, write: u8)
        requires
            old(self).wf(),
        ensures
            *final(self) == old(self).spec_write_byte(addr, write),
            final(self).wf(),
    {
        proof {
            lemma_byte_fields(write);
        }
        match addr {
            0xFF26 => {
                self.enabled = (write & 0x80) != 0
            },
            0xFF25 => self.nr51 = write,
            0xFF24 => {
                self.vin_left = (write & 0x80) != 0;
                self.vin_right = (write & 0x8) != 0;
                self.left_volume = (write >> 4) & 0x7;
                self.right_volume = write & 0x7;
            },
            0xFF10..=0xFF14 => self.channel_1.write(addr, write),
            0xFF15..=0xFF19 => self.channel_2.write(addr, write),
            0xFF1A..=0xFF1E | 0xFF30..=0xFF3F => self.channel_3.write(addr, write),
            0xFF1F..=0xFF23 => self.channel_4.write(addr, write),
            _ => {},
        }
    }
}

} // verus!

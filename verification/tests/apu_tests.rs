use emu::apu::noise::NoiseChannel;
use emu::apu::square::{duty_level, SquareChannel1, SquareChannel2};
use emu::apu::wave::WaveChannel;
use emu::apu::{APU, BUFFER_SIZE, CPU_CLOCK, SAMPLE_PERIOD, SAMPLE_RATE, SAMPLE_SCALE};

#[test]
fn constants() {
    assert_eq!(SAMPLE_PERIOD as usize, CPU_CLOCK / SAMPLE_RATE);
    assert_eq!(BUFFER_SIZE, 1024);
    assert_eq!(SAMPLE_SCALE, 7 * 4 * 15);
}

#[test]
fn duty_patterns() {
    let patterns = [
        [0u8, 0, 0, 0, 0, 0, 0, 1],
        [1, 0, 0, 0, 0, 0, 0, 1],
        [1, 0, 0, 0, 0, 1, 1, 1],
        [0, 1, 1, 1, 1, 1, 1, 0],
    ];
    for (pattern, levels) in patterns.iter().enumerate() {
        for (position, level) in levels.iter().enumerate() {
            assert_eq!(duty_level(pattern, position), *level);
        }
    }
}

#[test]
fn square_channel_registers() {
    let mut channel = SquareChannel2::default();
    assert_eq!(channel.read(0xFF15), 0xFF);
    assert_eq!(channel.read(0xFF16), 0x3F);
    assert_eq!(channel.read(0xFF18), 0xFF);
    assert_eq!(channel.read(0xFF19), 0xBF);
    channel.write(0xFF16, 0x80 | 0x3E);
    assert_eq!(channel.read(0xFF16), 0xBF);
    assert_eq!(channel.length_timer, 2);
    channel.write(0xFF17, 0xA5);
    assert_eq!(channel.read(0xFF17), 0xA5);
    assert!(channel.dac_enabled);
    channel.write(0xFF18, 0x34);
    channel.write(0xFF19, 0xC5);
    assert_eq!(channel.frequency, 0x534);
    assert_eq!(channel.read(0xFF19), 0xFF);
    assert!(channel.enabled);
    assert_eq!(channel.current_volume, 0xA);
    assert_eq!(channel.envelope_timer, 5);
}

#[test]
fn square_channel_plays_its_duty_pattern() {
    let mut channel = SquareChannel2::default();
    assert_eq!(channel.get_amplitude(), 0);
    channel.write(0xFF16, 0x80);
    channel.write(0xFF17, 0xF0);
    channel.write(0xFF18, 0xFF);
    channel.write(0xFF19, 0x87);
    // period 2047: the position moves every 4 T-states
    let mut levels = Vec::new();
    for _ in 0..8 {
        for _ in 0..4 {
            channel.tick();
        }
        levels.push(channel.get_amplitude());
    }
    assert_eq!(levels, vec![-15, -15, -15, -15, 15, 15, 15, 15]);
    channel.write(0xFF17, 0x00);
    assert_eq!(channel.get_amplitude(), 0);
}

#[test]
fn envelope_moves_the_volume() {
    let mut channel = SquareChannel2::default();
    channel.write(0xFF17, 0x3A);
    channel.write(0xFF19, 0x80);
    assert_eq!(channel.current_volume, 3);
    channel.tick_volume();
    assert_eq!(channel.current_volume, 3);
    channel.tick_volume();
    assert_eq!(channel.current_volume, 4);
    for _ in 0..40 {
        channel.tick_volume();
    }
    assert_eq!(channel.current_volume, 15);
    channel.write(0xFF17, 0x21);
    channel.write(0xFF19, 0x80);
    for expected in [1, 0, 0] {
        channel.tick_volume();
        assert_eq!(channel.current_volume, expected);
    }
}

#[test]
fn length_counter_switches_the_channel_off() {
    let mut channel = SquareChannel1::default();
    channel.write(0xFF12, 0xF0);
    channel.write(0xFF11, 0x3D);
    channel.write(0xFF14, 0xC0);
    assert!(channel.enabled);
    assert_eq!(channel.length_timer, 3);
    channel.tick_length();
    channel.tick_length();
    assert!(channel.enabled);
    channel.tick_length();
    assert!(!channel.enabled);
    assert_eq!(channel.length_timer, 0);
    // without the length enable the channel plays on
    channel.write(0xFF11, 0x3F);
    channel.write(0xFF14, 0x80);
    for _ in 0..10 {
        channel.tick_length();
    }
    assert!(channel.enabled);
}

#[test]
fn sweep_changes_the_frequency() {
    let mut channel = SquareChannel1::default();
    channel.write(0xFF12, 0xF0);
    channel.write(0xFF10, 0x11);
    channel.write(0xFF13, 0x00);
    channel.write(0xFF14, 0x81);
    assert_eq!(channel.read(0xFF10), 0x91);
    assert_eq!(channel.frequency, 0x100);
    assert!(channel.enabled);
    channel.tick_sweep();
    assert_eq!(channel.frequency, 0x180);
    assert!(channel.enabled);
    assert_eq!(channel.calc_frequency(), 0x240);
    assert!(channel.enabled);
    channel.tick_sweep();
    assert_eq!(channel.frequency, 0x240);
    // a target that does not fit in 11 bits switches the channel off
    channel.write(0xFF13, 0x00);
    channel.write(0xFF14, 0x84);
    assert_eq!(channel.frequency, 0x400);
    assert!(channel.enabled);
    channel.tick_sweep();
    assert_eq!(channel.frequency, 0x600);
    assert!(!channel.enabled);
    channel.write(0xFF14, 0x87);
    assert!(!channel.enabled);
    // downwards
    channel.write(0xFF10, 0x1A);
    channel.write(0xFF14, 0x84);
    assert_eq!(channel.frequency, 0x400);
    channel.tick_sweep();
    assert_eq!(channel.frequency, 0x300);
    assert!(channel.enabled);
}

#[test]
fn wave_channel_plays_its_samples() {
    let mut channel = WaveChannel::default();
    for i in 0..16u16 {
        channel.write(0xFF30 + i, (i as u8) << 4 | (15 - i as u8));
        assert_eq!(channel.read(0xFF30 + i), (i as u8) << 4 | (15 - i as u8));
    }
    channel.write(0xFF1A, 0x80);
    channel.write(0xFF1C, 0x20);
    channel.write(0xFF1D, 0xFF);
    channel.write(0xFF1E, 0x87);
    assert_eq!(channel.read(0xFF1A), 0xFF);
    assert_eq!(channel.read(0xFF1C), 0xBF);
    assert!(channel.enabled);
    assert_eq!(channel.get_amplitude(), 2 * 0 - 15);
    for _ in 0..2 {
        channel.tick();
    }
    assert_eq!(channel.get_amplitude(), 2 * 15 - 15);
    for _ in 0..2 {
        channel.tick();
    }
    assert_eq!(channel.get_amplitude(), 2 * 1 - 15);
    // half volume
    channel.write(0xFF1C, 0x40);
    for _ in 0..2 {
        channel.tick();
    }
    assert_eq!(channel.get_amplitude(), 2 * (14 >> 1) - 15);
    // muted
    channel.write(0xFF1C, 0x00);
    assert_eq!(channel.get_amplitude(), -15);
    channel.write(0xFF1A, 0x00);
    assert!(!channel.enabled);
    assert_eq!(channel.get_amplitude(), 0);
}

#[test]
fn noise_channel_shifts_its_register() {
    let mut channel = NoiseChannel::default();
    channel.write(0xFF21, 0xF0);
    channel.write(0xFF22, 0x00);
    channel.write(0xFF23, 0x80);
    assert!(channel.enabled);
    assert_eq!(channel.lfsr, 0x7FFF);
    assert_eq!(channel.get_amplitude(), -15);
    channel.tick();
    assert_eq!(channel.lfsr, 0x3FFF);
    assert_eq!(channel.frequency_timer, 7);
    for _ in 0..7 {
        channel.tick();
    }
    assert_eq!(channel.lfsr, 0x3FFF);
    channel.tick();
    assert_eq!(channel.lfsr, 0x1FFF);
    // the short mode feeds bit 6 too
    channel.write(0xFF22, 0x08);
    channel.lfsr = 0x0001;
    channel.frequency_timer = 0;
    channel.tick();
    assert_eq!(channel.lfsr, 0x4040);
    assert_eq!(channel.get_amplitude(), 15);
    assert_eq!(channel.read(0xFF22), 0x08);
    assert_eq!(channel.read(0xFF21), 0xF0);
}

#[test]
fn master_registers() {
    let mut apu = Box::new(APU::new());
    assert_eq!(apu.read_byte(0xFF26), 0x70);
    apu.write_byte(0xFF26, 0x80);
    assert_eq!(apu.read_byte(0xFF26), 0xF0);
    apu.write_byte(0xFF25, 0xA5);
    assert_eq!(apu.read_byte(0xFF25), 0xA5);
    apu.write_byte(0xFF24, 0xFF);
    assert_eq!(apu.read_byte(0xFF24), 0xFF);
    assert_eq!(apu.left_volume, 7);
    assert_eq!(apu.right_volume, 7);
    apu.write_byte(0xFF24, 0x53);
    assert_eq!(apu.read_byte(0xFF24), 0x53);
    apu.write_byte(0xFF17, 0xF0);
    apu.write_byte(0xFF19, 0x80);
    assert_eq!(apu.read_byte(0xFF26), 0xF2);
    assert_eq!(apu.read_byte(0xFF27), 0xFF);
}

#[test]
fn one_stereo_pair_every_87_cycles() {
    let mut apu = Box::new(APU::new());
    let mut sink = Vec::new();
    apu.tick(86, &mut sink);
    assert_eq!(apu.buffer_pos, 0);
    apu.tick(1, &mut sink);
    assert_eq!(apu.buffer_pos, 2);
    apu.tick(87 * 10, &mut sink);
    assert_eq!(apu.buffer_pos, 22);
    assert!(sink.is_empty());
}

#[test]
fn a_full_buffer_is_flushed_to_the_sink() {
    let mut apu = Box::new(APU::new());
    // channel 2 at full volume to both sides
    apu.write_byte(0xFF24, 0x77);
    apu.write_byte(0xFF25, 0x22);
    apu.write_byte(0xFF16, 0x80);
    apu.write_byte(0xFF17, 0xF0);
    apu.write_byte(0xFF19, 0x80);
    let mut sink = Vec::new();
    let mut cycles = 0u64;
    while sink.is_empty() {
        apu.tick(1, &mut sink);
        cycles += 1;
        assert!(cycles < 100_000);
    }
    assert_eq!(sink.len(), 1024);
    assert_eq!(apu.buffer_pos, 0);
    assert!(sink.iter().all(|sample| *sample == 7 * 15 || *sample == -7 * 15));
    assert!(sink.iter().any(|sample| *sample == 7 * 15));
    assert!(sink.iter().any(|sample| *sample == -7 * 15));
    for pair in sink.chunks(2) {
        assert_eq!(pair[0], pair[1]);
    }
    // feeding the same time in one piece gives the same samples
    let mut again = Box::new(APU::new());
    again.write_byte(0xFF24, 0x77);
    again.write_byte(0xFF25, 0x22);
    again.write_byte(0xFF16, 0x80);
    again.write_byte(0xFF17, 0xF0);
    again.write_byte(0xFF19, 0x80);
    let mut sink_again = Vec::new();
    again.tick(cycles, &mut sink_again);
    assert_eq!(sink_again, sink);
    // two more buffers are appended behind the first
    again.tick(2 * cycles, &mut sink_again);
    assert!(sink_again.len() >= 2 * 1024);
    assert_eq!(&sink_again[..1024], &sink[..]);
}

#[test]
fn mixer_scales_and_routes() {
    let mut apu = Box::new(APU::new());
    // channel 2: left only, channel 4: right only
    apu.write_byte(0xFF24, 0x35);
    apu.write_byte(0xFF25, 0x28);
    apu.write_byte(0xFF17, 0xF0);
    apu.write_byte(0xFF19, 0x80);
    apu.write_byte(0xFF21, 0x80);
    apu.write_byte(0xFF23, 0x80);
    let mut sink = Vec::new();
    apu.tick(87, &mut sink);
    // channel 2 is low (-15) at volume 3; channel 4 is low (-15) at volume 5
    assert_eq!(apu.buffer[0], 3 * -15);
    assert_eq!(apu.buffer[1], 5 * -15);
    // silence when nothing is routed
    apu.write_byte(0xFF25, 0x00);
    apu.tick(87, &mut sink);
    assert_eq!(apu.buffer[2], 0);
    assert_eq!(apu.buffer[3], 0);
}

#[test]
fn frame_sequencer_clocks_lengths_and_envelopes() {
    let mut apu = Box::new(APU::new());
    apu.write_byte(0xFF17, 0xF1);
    apu.write_byte(0xFF16, 0x3E);
    apu.write_byte(0xFF19, 0xC0);
    let mut sink = Vec::new();
    assert_eq!(apu.read_byte(0xFF26) & 0x02, 0x02);
    // phase 0 clocks the length counter: 2 -> 1
    apu.tick(8192, &mut sink);
    assert_eq!(apu.frame_sequencer_pos, 1);
    assert_eq!(apu.read_byte(0xFF26) & 0x02, 0x02);
    // phase 1 does not
    apu.tick(8192, &mut sink);
    assert_eq!(apu.read_byte(0xFF26) & 0x02, 0x02);
    // phase 2 does: 1 -> 0, and the channel is off
    apu.tick(8192, &mut sink);
    assert_eq!(apu.read_byte(0xFF26) & 0x02, 0x00);
    assert_eq!(apu.channel_2.current_volume, 15);
    // phase 7 clocks the envelope
    apu.tick(5 * 8192, &mut sink);
    assert_eq!(apu.frame_sequencer_pos, 0);
    assert_eq!(apu.channel_2.current_volume, 14);
}

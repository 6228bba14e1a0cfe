use emu::apu::SAMPLE_SCALE;
use emu::bus::Bus;
use emu::cart::create_cart;
use emu::cpu::registers::{Register16Bit, Register8Bit};
use emu::cpu::CPU;
use emu::Gameboy;

/// A 32 KiB image without a controller that holds each of `parts` at its
/// address.
fn rom_of(parts: &[(usize, &[u8])]) -> Vec<u8> {
    let mut rom = vec![0u8; 0x8000];
    for (at, code) in parts {
        rom[*at..*at + code.len()].copy_from_slice(code);
    }
    rom
}

/// Steps the processor until it reaches the instruction at `stop`.
fn run_to(cpu: &mut CPU, bus: &mut Bus, stop: u16) -> u64 {
    let mut cycles = 0;
    for _ in 0..100_000 {
        if cpu.pc == stop {
            return cycles;
        }
        cycles += cpu.cycle(bus).unwrap();
    }
    panic!("the program did not reach 0x{:04X}", stop);
}

#[test]
fn fibonacci() {
    // LD HL, 0xC000; LD B, 12; LD A, 0; LD C, 1
    // loop: LD (HL+), A; LD D, A; ADD A, C; LD C, D; DEC B; JR NZ, loop
    let code = [
        0x21, 0x00, 0xC0, 0x06, 0x0C, 0x3E, 0x00, 0x0E, 0x01, 0x22, 0x57, 0x81, 0x4A, 0x05, 0x20,
        0xF9, 0x00,
    ];
    let cart = create_cart(rom_of(&[(0x100, &code)])).unwrap();
    let mut cpu = CPU::new();
    let mut bus = Box::new(Bus::new(cart));
    let cycles = run_to(&mut cpu, &mut bus, 0x110);
    let expected = [0u8, 1, 1, 2, 3, 5, 8, 13, 21, 34, 55, 89];
    for (i, value) in expected.iter().enumerate() {
        assert_eq!(bus.read_byte(0xC000 + i as u16), *value);
    }
    assert_eq!(cpu.registers.get_8bit_reg(Register8Bit::A), 144);
    assert_eq!(cpu.registers.get_16bit_reg(Register16Bit::HL), 0xC00C);
    // four loads, then twelve rounds of 8 + 4 + 4 + 4 + 4 + 12, the last
    // jump not taken
    assert_eq!(cycles, 12 + 8 + 8 + 8 + 12 * 36 - 4);
}

#[test]
fn copy_loop_with_a_subroutine() {
    // 0x100: LD HL, 0x0200; LD DE, 0xC100; LD B, 16; CALL 0x0120; JP 0x0150
    // 0x120: LD A, (HL+); LD (DE), A; INC DE; DEC B; JR NZ, 0x120; RET
    let main = [0x21, 0x00, 0x02, 0x11, 0x00, 0xC1, 0x06, 0x10, 0xCD, 0x20, 0x01, 0xC3, 0x50, 0x01];
    let copy = [0x2A, 0x12, 0x13, 0x05, 0x20, 0xFA, 0xC9];
    let data: Vec<u8> = (0..16u8).map(|i| i.wrapping_mul(37).wrapping_add(11)).collect();
    let cart = create_cart(rom_of(&[(0x100, &main), (0x120, &copy), (0x200, &data)])).unwrap();
    let mut cpu = CPU::new();
    let mut bus = Box::new(Bus::new(cart));
    run_to(&mut cpu, &mut bus, 0x150);
    for (i, value) in data.iter().enumerate() {
        assert_eq!(bus.read_byte(0xC100 + i as u16), *value);
    }
    assert_eq!(cpu.registers.get_16bit_reg(Register16Bit::DE), 0xC110);
    assert_eq!(cpu.registers.get_16bit_reg(Register16Bit::SP), 0xFFFE);
    assert_eq!(cpu.registers.get_8bit_reg(Register8Bit::B), 0);
}

#[test]
fn timer_interrupts_wake_a_halted_program() {
    // 0x050: PUSH AF; LD A, (0xC000); INC A; LD (0xC000), A; POP AF; RETI
    // 0x100: XOR A; LD (0xC000), A; LD A, 0x04; LDH (0xFF), A;
    //        LD A, 0x05; LDH (0x07), A; EI
    // loop:  HALT; JR loop
    let handler = [0xF5, 0xFA, 0x00, 0xC0, 0x3C, 0xEA, 0x00, 0xC0, 0xF1, 0xD9];
    let main = [
        0xAF, 0xEA, 0x00, 0xC0, 0x3E, 0x04, 0xE0, 0xFF, 0x3E, 0x05, 0xE0, 0x07, 0xFB, 0x76, 0x18,
        0xFD,
    ];
    let mut gb = Gameboy::new(rom_of(&[(0x050, &handler), (0x100, &main)])).unwrap();
    let mut elapsed = 0;
    while elapsed < 20 * 4096 + 2048 {
        elapsed += gb.tick().unwrap();
    }
    // TIMA overflows every 256 steps of 16 cycles
    assert_eq!(gb.bus.read_byte(0xC000), 20);
    assert_eq!(gb.cpu.registers.get_16bit_reg(Register16Bit::SP), 0xFFFE);
}

#[test]
fn one_vblank_interrupt_per_frame() {
    // 0x040: PUSH AF; LD A, (0xC000); INC A; LD (0xC000), A; POP AF; RETI
    // 0x100: XOR A; LD (0xC000), A; LD A, 0x01; LDH (0xFF), A; EI
    // loop:  HALT; JR loop
    let handler = [0xF5, 0xFA, 0x00, 0xC0, 0x3C, 0xEA, 0x00, 0xC0, 0xF1, 0xD9];
    let main = [0xAF, 0xEA, 0x00, 0xC0, 0x3E, 0x01, 0xE0, 0xFF, 0xFB, 0x76, 0x18, 0xFD];
    let mut gb = Gameboy::new(rom_of(&[(0x040, &handler), (0x100, &main)])).unwrap();
    // the unit starts out in a vertical blank of 154 lines
    gb.run_frame().unwrap();
    assert_eq!(gb.bus.read_byte(0xC000), 0);
    for frame in 1..=5u8 {
        gb.run_frame().unwrap();
        assert_eq!(gb.bus.read_byte(0xC000), frame);
    }
}

#[test]
fn audio_of_a_running_program() {
    // LD A, 0x77; LDH (0x24), A; LD A, 0xFF; LDH (0x25), A;
    // LD A, 0x80; LDH (0x16), A; LD A, 0xF0; LDH (0x17), A;
    // LD A, 0x00; LDH (0x18), A; LD A, 0x87; LDH (0x19), A
    // loop: JR loop
    let main = [
        0x3E, 0x77, 0xE0, 0x24, 0x3E, 0xFF, 0xE0, 0x25, 0x3E, 0x80, 0xE0, 0x16, 0x3E, 0xF0, 0xE0,
        0x17, 0x3E, 0x00, 0xE0, 0x18, 0x3E, 0x87, 0xE0, 0x19, 0x18, 0xFE,
    ];
    let mut gb = Gameboy::new(rom_of(&[(0x100, &main)])).unwrap();
    let mut cycles = 0;
    for _ in 0..3 {
        cycles += gb.run_frame().unwrap();
    }
    let samples = gb.take_audio();
    // one pair every 87 T-states, handed out in buffers of 1024 samples
    assert_eq!(samples.len() % 1024, 0);
    assert_eq!(samples.len(), (cycles / 87 * 2 / 1024 * 1024) as usize);
    assert!(samples.iter().all(|sample| sample.abs() <= SAMPLE_SCALE));
    assert!(samples.iter().any(|sample| *sample == 7 * 15));
    assert!(samples.iter().any(|sample| *sample == -7 * 15));
    assert!(gb.take_audio().is_empty());
}

#[test]
fn save_data_of_the_machine() {
    let mut rom = vec![0u8; 0x8000];
    rom[0x147] = 0x03;
    rom[0x149] = 0x02;
    // LD A, 0x0A; LD (0x0000), A; LD A, 0x5C; LD (0xA123), A; loop: JR loop
    rom[0x100..0x10C].copy_from_slice(&[
        0x3E, 0x0A, 0xEA, 0x00, 0x00, 0x3E, 0x5C, 0xEA, 0x23, 0xA1, 0x18, 0xFE,
    ]);
    let mut gb = Gameboy::new(rom.clone()).unwrap();
    for _ in 0..8 {
        gb.tick().unwrap();
    }
    let save = gb.dump_save().unwrap();
    assert_eq!(save.len(), 0x2000);
    assert_eq!(save[0x123], 0x5C);
    let mut fresh = Gameboy::new(rom).unwrap();
    assert!(fresh.load_save(save.clone()));
    assert_eq!(fresh.dump_save(), Some(save));
    // a cartridge without a battery has nothing to save
    let mut plain = Gameboy::new(vec![0u8; 0x8000]).unwrap();
    assert_eq!(plain.dump_save(), None);
    assert!(!plain.load_save(vec![1, 2, 3]));
}

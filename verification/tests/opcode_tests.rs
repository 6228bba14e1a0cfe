use emu::bus::Bus;
use emu::cart::create_cart;
use emu::cpu::registers::{Flags, Register16Bit, Register8Bit};
use emu::cpu::CPU;

const UNDEFINED: [u8; 11] = [0xD3, 0xDB, 0xDD, 0xE3, 0xE4, 0xEB, 0xEC, 0xED, 0xF4, 0xFC, 0xFD];

/// A machine about to execute `code` at 0xC000, with HL pointing to work
/// RAM and the given flags.
fn machine(code: &[u8], flags: Flags) -> (CPU, Box<Bus>) {
    let cart = create_cart(vec![0u8; 0x8000]).unwrap();
    let mut bus = Box::new(Bus::new(cart));
    for (i, byte) in code.iter().enumerate() {
        bus.write_byte(0xC000 + i as u16, *byte);
    }
    let mut cpu = CPU::new();
    cpu.pc = 0xC000;
    cpu.registers.set_16bit_reg(Register16Bit::HL, 0xD000);
    cpu.registers.set_16bit_reg(Register16Bit::SP, 0xDFF0);
    cpu.registers.set_flags(flags);
    (cpu, bus)
}

/// The length in bytes of the instruction with opcode `opcode`.
fn length(opcode: u8) -> u16 {
    match opcode {
        0x01 | 0x11 | 0x21 | 0x31 | 0x08 | 0xEA | 0xFA => 3,
        0xC2 | 0xC3 | 0xCA | 0xD2 | 0xDA | 0xC4 | 0xCC | 0xCD | 0xD4 | 0xDC => 3,
        0x06 | 0x0E | 0x16 | 0x1E | 0x26 | 0x2E | 0x36 | 0x3E => 2,
        0x18 | 0x20 | 0x28 | 0x30 | 0x38 => 2,
        0xC6 | 0xCE | 0xD6 | 0xDE | 0xE6 | 0xEE | 0xF6 | 0xFE => 2,
        0xE0 | 0xF0 | 0xE8 | 0xF8 | 0xCB => 2,
        _ => 1,
    }
}

/// Whether the instruction changes the program counter other than by
/// stepping over itself when its condition holds.
fn is_control_flow(opcode: u8) -> bool {
    matches!(
        opcode,
        0x18 | 0x20 | 0x28 | 0x30 | 0x38 | 0xC0 | 0xC8 | 0xD0 | 0xD8 | 0xC9 | 0xD9 | 0xC2 | 0xC3
            | 0xCA | 0xD2 | 0xDA | 0xE9 | 0xC4 | 0xCC | 0xCD | 0xD4 | 0xDC | 0xC7 | 0xCF | 0xD7
            | 0xDF | 0xE7 | 0xEF | 0xF7 | 0xFF
    )
}

/// The cost in T-states of the instruction with opcode `opcode` when it
/// does not jump.
fn cycles(opcode: u8) -> u64 {
    let x = opcode >> 6;
    let y = (opcode >> 3) & 7;
    let z = opcode & 7;
    match (x, z) {
        (1, _) => if opcode == 0x76 { 4 } else if z == 6 || y == 6 { 8 } else { 4 },
        (2, _) => if z == 6 { 8 } else { 4 },
        (0, 0) => match y { 0 | 2 => 4, 1 => 20, _ => 8 },
        (0, 1) => if y % 2 == 0 { 12 } else { 8 },
        (0, 2) | (0, 3) => 8,
        (0, 4) | (0, 5) => if y == 6 { 12 } else { 4 },
        (0, 6) => if y == 6 { 12 } else { 8 },
        (0, 7) => 4,
        (3, 0) => match y { 0..=3 => 8, 4 | 6 | 7 => 12, _ => 16 },
        (3, 1) => match y { 0 | 2 | 4 | 6 => 12, 1 | 3 => 16, 5 => 4, _ => 8 },
        (3, 2) => match y { 0..=3 => 12, 4 | 6 => 8, _ => 16 },
        (3, 3) => if y == 0 { 16 } else { 4 },
        (3, 4) => 12,
        (3, 5) => if y % 2 == 0 { 16 } else { 24 },
        (3, 6) => 8,
        _ => 16,
    }
}

#[test]
fn every_instruction_steps_over_itself() {
    let clear = Flags { z: false, n: false, h: false, c: false };
    for opcode in 0..=255u8 {
        if UNDEFINED.contains(&opcode) || is_control_flow(opcode) || opcode == 0xCB {
            continue;
        }
        let (mut cpu, mut bus) = machine(&[opcode, 0x12, 0xC1], clear);
        let cost = cpu.cycle(&mut bus).unwrap();
        assert_eq!(cpu.pc, 0xC000 + length(opcode), "length of 0x{:02X}", opcode);
        assert_eq!(cost, cycles(opcode), "cost of 0x{:02X}", opcode);
        assert_eq!(cpu.registers.get_8bit_reg(Register8Bit::F) & 0x0F, 0);
    }
}

#[test]
fn every_prefixed_instruction_takes_two_bytes() {
    let clear = Flags { z: false, n: false, h: false, c: false };
    for opcode in 0..=255u8 {
        let (mut cpu, mut bus) = machine(&[0xCB, opcode], clear);
        bus.write_byte(0xD000, 0xA5);
        let cost = cpu.cycle(&mut bus).unwrap();
        assert_eq!(cpu.pc, 0xC002);
        let memory = opcode & 7 == 6;
        let expected = if !memory {
            8
        } else if (0x40..0x80).contains(&opcode) {
            12
        } else {
            16
        };
        assert_eq!(cost, expected, "cost of 0xCB 0x{:02X}", opcode);
        assert_eq!(cpu.registers.get_8bit_reg(Register8Bit::F) & 0x0F, 0);
    }
}

#[test]
fn conditional_instructions_cost_more_when_taken() {
    // (opcode, cost not taken, cost taken, flags that take it)
    let z = Flags { z: true, n: false, h: false, c: false };
    let c = Flags { z: false, n: false, h: false, c: true };
    let none = Flags { z: false, n: false, h: false, c: false };
    let both = Flags { z: true, n: false, h: false, c: true };
    let cases = [
        (0x20u8, 8u64, 12u64, none, both),
        (0x28, 8, 12, z, none),
        (0x30, 8, 12, none, both),
        (0x38, 8, 12, c, none),
        (0xC2, 12, 16, none, both),
        (0xCA, 12, 16, z, none),
        (0xD2, 12, 16, none, both),
        (0xDA, 12, 16, c, none),
        (0xC4, 12, 24, none, both),
        (0xCC, 12, 24, z, none),
        (0xD4, 12, 24, none, both),
        (0xDC, 12, 24, c, none),
        (0xC0, 8, 20, none, both),
        (0xC8, 8, 20, z, none),
        (0xD0, 8, 20, none, both),
        (0xD8, 8, 20, c, none),
    ];
    for (opcode, not_taken, taken, taking, leaving) in cases {
        let (mut cpu, mut bus) = machine(&[opcode, 0x10, 0xC1], leaving);
        assert_eq!(cpu.cycle(&mut bus), Ok(not_taken), "0x{:02X} not taken", opcode);
        assert_eq!(cpu.pc, 0xC000 + length(opcode));
        assert_eq!(cpu.registers.get_16bit_reg(Register16Bit::SP), 0xDFF0);
        let (mut cpu, mut bus) = machine(&[opcode, 0x10, 0xC1], taking);
        bus.write_byte(0xDFF0, 0x34);
        bus.write_byte(0xDFF1, 0x12);
        assert_eq!(cpu.cycle(&mut bus), Ok(taken), "0x{:02X} taken", opcode);
        let target = match opcode {
            0x20 | 0x28 | 0x30 | 0x38 => 0xC012,
            0xC0 | 0xC8 | 0xD0 | 0xD8 => 0x1234,
            _ => 0xC110,
        };
        assert_eq!(cpu.pc, target);
    }
    // the unconditional ones
    for (opcode, cost, target) in [
        (0x18u8, 12u64, 0xC012u16),
        (0xC3, 16, 0xC110),
        (0xCD, 24, 0xC110),
        (0xC9, 16, 0x1234),
        (0xD9, 16, 0x1234),
        (0xE9, 4, 0xD000),
        (0xC7, 16, 0x0000),
        (0xFF, 16, 0x0038),
    ] {
        let (mut cpu, mut bus) = machine(&[opcode, 0x10, 0xC1], none);
        bus.write_byte(0xDFF0, 0x34);
        bus.write_byte(0xDFF1, 0x12);
        assert_eq!(cpu.cycle(&mut bus), Ok(cost), "0x{:02X}", opcode);
        assert_eq!(cpu.pc, target);
    }
}

#[test]
fn loads_between_all_registers() {
    let registers = [
        Register8Bit::B,
        Register8Bit::C,
        Register8Bit::D,
        Register8Bit::E,
        Register8Bit::H,
        Register8Bit::L,
        Register8Bit::HL,
        Register8Bit::A,
    ];
    let clear = Flags { z: false, n: false, h: false, c: false };
    for (to, target) in registers.iter().enumerate() {
        for (from, source) in registers.iter().enumerate() {
            let opcode = 0x40 + (to as u8) * 8 + from as u8;
            if opcode == 0x76 {
                continue;
            }
            let (mut cpu, mut bus) = machine(&[opcode], clear);
            for (i, reg) in registers.iter().enumerate() {
                if *reg != Register8Bit::HL && *reg != Register8Bit::H && *reg != Register8Bit::L {
                    cpu.registers.set_8bit_reg(*reg, 0x10 + i as u8);
                }
            }
            bus.write_byte(0xD000, 0x77);
            let value = cpu.get_8bit_reg(&bus, *source);
            cpu.cycle(&mut bus).unwrap();
            // a load into H or L moves the pointer, so read the register
            if *target == Register8Bit::HL {
                assert_eq!(bus.read_byte(0xD000), value);
            } else {
                assert_eq!(cpu.registers.get_8bit_reg(*target), value);
            }
        }
    }
}

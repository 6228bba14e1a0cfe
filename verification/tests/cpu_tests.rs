use emu::bus::Bus;
use emu::cart::create_cart;
use emu::cpu::alu::{add8, daa, sub8};
use emu::cpu::instructions::{Cond, Handler, Instruction};
use emu::cpu::registers::{Flag, Flags, Register16Bit, Register8Bit, Registers};
use emu::cpu::{CpuError, CPU};
use emu::interrupt::InterruptFlag;
use emu::Gameboy;

/// A 32 KiB image without a controller that holds `code` from 0x0100 on.
fn rom_with(code: &[u8]) -> Vec<u8> {
    let mut rom = vec![0u8; 0x8000];
    for (i, byte) in code.iter().enumerate() {
        rom[0x100 + i] = *byte;
    }
    rom
}

fn machine_with(code: &[u8]) -> (CPU, Bus) {
    let cart = create_cart(rom_with(code)).unwrap();
    (CPU::new(), Bus::new(cart))
}

fn flags_of(cpu: &CPU) -> (bool, bool, bool, bool) {
    (
        cpu.registers.get_flag(Flag::Z),
        cpu.registers.get_flag(Flag::N),
        cpu.registers.get_flag(Flag::H),
        cpu.registers.get_flag(Flag::C),
    )
}

#[test]
fn power_up_values() {
    let cpu = CPU::new();
    assert_eq!(cpu.pc, 0x100);
    assert_eq!(cpu.registers.get_16bit_reg(Register16Bit::AF), 0x01B0);
    assert_eq!(cpu.registers.get_16bit_reg(Register16Bit::BC), 0x0013);
    assert_eq!(cpu.registers.get_16bit_reg(Register16Bit::DE), 0x00D8);
    assert_eq!(cpu.registers.get_16bit_reg(Register16Bit::HL), 0x014D);
    assert_eq!(cpu.registers.get_16bit_reg(Register16Bit::SP), 0xFFFE);
    assert!(!cpu.ime);
    assert!(!cpu.halted);
}

#[test]
fn low_nibble_of_f_is_always_zero() {
    let mut registers = Registers::new();
    for write in [0x0000u16, 0xFFFF, 0x12FF, 0x000F, 0xABCD, 0x00F0] {
        for reg in [
            Register16Bit::AF,
            Register16Bit::BC,
            Register16Bit::DE,
            Register16Bit::HL,
            Register16Bit::SP,
        ] {
            registers.set_16bit_reg(reg, write);
            assert_eq!(registers.get_8bit_reg(Register8Bit::F) & 0x0F, 0);
        }
    }
    registers.set_16bit_reg(Register16Bit::AF, 0x12FF);
    assert_eq!(registers.get_16bit_reg(Register16Bit::AF), 0x12F0);
    registers.set_8bit_reg(Register8Bit::F, 0xAB);
    assert_eq!(registers.get_8bit_reg(Register8Bit::F), 0xA0);
}

#[test]
fn register_pairs_read_back() {
    let mut registers = Registers::new();
    registers.set_16bit_reg(Register16Bit::BC, 0x1234);
    assert_eq!(registers.get_8bit_reg(Register8Bit::B), 0x12);
    assert_eq!(registers.get_8bit_reg(Register8Bit::C), 0x34);
    registers.set_8bit_reg(Register8Bit::H, 0xBE);
    registers.set_8bit_reg(Register8Bit::L, 0xEF);
    assert_eq!(registers.get_16bit_reg(Register16Bit::HL), 0xBEEF);
    registers.set_16bit_reg(Register16Bit::SP, 0xC000);
    assert_eq!(registers.get_16bit_reg(Register16Bit::SP), 0xC000);
}

#[test]
fn flags_set_and_get() {
    let mut registers = Registers::new();
    registers.set_flags(Flags { z: false, n: false, h: false, c: false });
    assert_eq!(registers.get_8bit_reg(Register8Bit::F), 0x00);
    registers.set_flag(Flag::Z, true);
    assert_eq!(registers.get_8bit_reg(Register8Bit::F), 0x80);
    registers.set_flag(Flag::C, true);
    assert_eq!(registers.get_8bit_reg(Register8Bit::F), 0x90);
    registers.set_flag(Flag::Z, false);
    assert!(!registers.get_flag(Flag::Z));
    assert!(registers.get_flag(Flag::C));
    registers.set_flag(Flag::N, true);
    registers.set_flag(Flag::H, true);
    assert_eq!(registers.get_8bit_reg(Register8Bit::F), 0x70);
    assert_eq!(registers.flags(), Flags { z: false, n: true, h: true, c: true });
}

#[test]
fn operand_fields_decode() {
    assert_eq!(Register8Bit::from_r8(0), Register8Bit::B);
    assert_eq!(Register8Bit::from_r8(6), Register8Bit::HL);
    assert_eq!(Register8Bit::from_r8(7), Register8Bit::A);
    assert_eq!(Register16Bit::from_r16(3), Register16Bit::SP);
    assert_eq!(Register16Bit::from_r16stk(3), Register16Bit::AF);
    assert_eq!(Register16Bit::from_r16mem(2), (Register16Bit::HL, 1));
    assert_eq!(Register16Bit::from_r16mem(3), (Register16Bit::HL, -1));
    assert_eq!(Cond::new(0), Cond::NZ);
    assert_eq!(Cond::new(3), Cond::C);
}

#[test]
fn add_a_a_with_0x0f() {
    let (mut cpu, mut bus) = machine_with(&[0x87]);
    cpu.registers.set_8bit_reg(Register8Bit::A, 0x0F);
    let cycles = cpu.cycle(&mut bus).unwrap();
    assert_eq!(cycles, 4);
    assert_eq!(cpu.registers.get_8bit_reg(Register8Bit::A), 0x1E);
    assert_eq!(flags_of(&cpu), (false, false, true, false));
    assert_eq!(cpu.pc, 0x101);
}

#[test]
fn sub_a_a_is_always_zero() {
    for a in [0x00u8, 0x01, 0x0F, 0x10, 0x80, 0xFF] {
        let (mut cpu, mut bus) = machine_with(&[0x97]);
        cpu.registers.set_8bit_reg(Register8Bit::A, a);
        cpu.cycle(&mut bus).unwrap();
        assert_eq!(cpu.registers.get_8bit_reg(Register8Bit::A), 0);
        assert_eq!(flags_of(&cpu), (true, true, false, false));
    }
}

#[test]
fn add_and_sub_flags() {
    assert_eq!(add8(0xFF, 0x01, false), (0x00, Flags { z: true, n: false, h: true, c: true }));
    assert_eq!(add8(0x0F, 0x00, true), (0x10, Flags { z: false, n: false, h: true, c: false }));
    assert_eq!(add8(0x80, 0x80, false), (0x00, Flags { z: true, n: false, h: false, c: true }));
    assert_eq!(sub8(0x10, 0x01, false), (0x0F, Flags { z: false, n: true, h: true, c: false }));
    assert_eq!(sub8(0x00, 0x00, true), (0xFF, Flags { z: false, n: true, h: true, c: true }));
    assert_eq!(sub8(0x3B, 0x2A, true), (0x10, Flags { z: false, n: true, h: false, c: false }));
}

#[test]
fn daa_corrects_packed_decimal() {
    // 15 + 27 = 42
    let (sum, flags) = add8(0x15, 0x27, false);
    assert_eq!(sum, 0x3C);
    assert_eq!(daa(sum, flags), (0x42, Flags { z: false, n: false, h: false, c: false }));
    // 99 + 01 = 100
    let (sum, flags) = add8(0x99, 0x01, false);
    assert_eq!(daa(sum, flags), (0x00, Flags { z: true, n: false, h: false, c: true }));
    // 42 - 15 = 27
    let (difference, flags) = sub8(0x42, 0x15, false);
    assert_eq!(daa(difference, flags), (0x27, Flags { z: false, n: true, h: false, c: false }));
    // 10 - 20 = -10, that is 90 with a borrow
    let (difference, flags) = sub8(0x10, 0x20, false);
    assert_eq!(daa(difference, flags), (0x90, Flags { z: false, n: true, h: false, c: true }));
}

#[test]
fn daa_matches_decimal_arithmetic_everywhere() {
    for a in 0..100u32 {
        for b in 0..100u32 {
            for carry in [false, true] {
                let pa = ((a / 10) * 16 + a % 10) as u8;
                let pb = ((b / 10) * 16 + b % 10) as u8;
                let (sum, flags) = add8(pa, pb, carry);
                let (adjusted, adjusted_flags) = daa(sum, flags);
                let total = a + b + carry as u32;
                assert_eq!(adjusted as u32, ((total % 100) / 10) * 16 + total % 10);
                assert_eq!(adjusted_flags.c, total >= 100);
                let (difference, flags) = sub8(pa, pb, carry);
                let (adjusted, adjusted_flags) = daa(difference, flags);
                let total = 100 + a - b - carry as u32;
                assert_eq!(adjusted as u32, ((total % 100) / 10) * 16 + total % 10);
                assert_eq!(adjusted_flags.c, total < 100);
            }
        }
    }
}

#[test]
fn daa_instruction() {
    // LD A, 0x15; ADD A, 0x27; DAA
    let (mut cpu, mut bus) = machine_with(&[0x3E, 0x15, 0xC6, 0x27, 0x27]);
    assert_eq!(cpu.cycle(&mut bus), Ok(8));
    assert_eq!(cpu.cycle(&mut bus), Ok(8));
    assert_eq!(cpu.cycle(&mut bus), Ok(4));
    assert_eq!(cpu.registers.get_8bit_reg(Register8Bit::A), 0x42);
    assert_eq!(cpu.pc, 0x105);
}

#[test]
fn loads_and_stores() {
    // LD HL, 0xC123; LD (HL), 0x5A; LD B, (HL); LD A, B; LD (0xC200), A; LD A, (HL+); LD A, (HL-)
    let (mut cpu, mut bus) = machine_with(&[
        0x21, 0x23, 0xC1, 0x36, 0x5A, 0x46, 0x78, 0xEA, 0x00, 0xC2, 0x2A, 0x3A,
    ]);
    assert_eq!(cpu.cycle(&mut bus), Ok(12));
    assert_eq!(cpu.registers.get_16bit_reg(Register16Bit::HL), 0xC123);
    assert_eq!(cpu.cycle(&mut bus), Ok(12));
    assert_eq!(bus.read_byte(0xC123), 0x5A);
    assert_eq!(cpu.cycle(&mut bus), Ok(8));
    assert_eq!(cpu.registers.get_8bit_reg(Register8Bit::B), 0x5A);
    assert_eq!(cpu.cycle(&mut bus), Ok(4));
    assert_eq!(cpu.registers.get_8bit_reg(Register8Bit::A), 0x5A);
    assert_eq!(cpu.cycle(&mut bus), Ok(16));
    assert_eq!(bus.read_byte(0xC200), 0x5A);
    assert_eq!(cpu.cycle(&mut bus), Ok(8));
    assert_eq!(cpu.registers.get_16bit_reg(Register16Bit::HL), 0xC124);
    assert_eq!(cpu.cycle(&mut bus), Ok(8));
    assert_eq!(cpu.registers.get_16bit_reg(Register16Bit::HL), 0xC123);
    assert_eq!(cpu.pc, 0x10C);
}

#[test]
fn high_page_loads() {
    // LD A, 0x77; LDH (0x80), A; LD C, 0x81; LDH (C), A; LD A, 0; LDH A, (0x80); LDH A, (C)
    let (mut cpu, mut bus) = machine_with(&[
        0x3E, 0x77, 0xE0, 0x80, 0x0E, 0x81, 0xE2, 0x3E, 0x00, 0xF0, 0x80, 0xF2,
    ]);
    cpu.cycle(&mut bus).unwrap();
    assert_eq!(cpu.cycle(&mut bus), Ok(12));
    assert_eq!(bus.read_byte(0xFF80), 0x77);
    cpu.cycle(&mut bus).unwrap();
    assert_eq!(cpu.cycle(&mut bus), Ok(8));
    assert_eq!(bus.read_byte(0xFF81), 0x77);
    cpu.cycle(&mut bus).unwrap();
    assert_eq!(cpu.registers.get_8bit_reg(Register8Bit::A), 0);
    assert_eq!(cpu.cycle(&mut bus), Ok(12));
    assert_eq!(cpu.registers.get_8bit_reg(Register8Bit::A), 0x77);
    assert_eq!(cpu.cycle(&mut bus), Ok(8));
    assert_eq!(cpu.registers.get_8bit_reg(Register8Bit::A), 0x77);
}

#[test]
fn push_and_pop() {
    // LD BC, 0x12FF; PUSH BC; POP AF; POP into AF drops the low nibble
    let (mut cpu, mut bus) = machine_with(&[0x01, 0xFF, 0x12, 0xC5, 0xF1]);
    cpu.cycle(&mut bus).unwrap();
    assert_eq!(cpu.cycle(&mut bus), Ok(16));
    assert_eq!(cpu.registers.get_16bit_reg(Register16Bit::SP), 0xFFFC);
    assert_eq!(bus.read_byte(0xFFFD), 0x12);
    assert_eq!(bus.read_byte(0xFFFC), 0xFF);
    assert_eq!(cpu.cycle(&mut bus), Ok(12));
    assert_eq!(cpu.registers.get_16bit_reg(Register16Bit::SP), 0xFFFE);
    assert_eq!(cpu.registers.get_16bit_reg(Register16Bit::AF), 0x12F0);
    cpu.push16(&mut bus, 0xBEEF);
    assert_eq!(cpu.pop16(&bus), 0xBEEF);
}

#[test]
fn relative_jumps() {
    // JR +2; (skipped: 2 bytes); JR Z, -4 (not taken: Z clear)
    let (mut cpu, mut bus) = machine_with(&[0x18, 0x02, 0x00, 0x00, 0x28, 0xFC]);
    cpu.registers.set_flag(Flag::Z, false);
    assert_eq!(cpu.cycle(&mut bus), Ok(12));
    assert_eq!(cpu.pc, 0x104);
    assert_eq!(cpu.cycle(&mut bus), Ok(8));
    assert_eq!(cpu.pc, 0x106);
    // JR Z, -4 taken
    cpu.pc = 0x104;
    cpu.registers.set_flag(Flag::Z, true);
    assert_eq!(cpu.cycle(&mut bus), Ok(12));
    assert_eq!(cpu.pc, 0x102);
}

#[test]
fn absolute_jumps_calls_and_returns() {
    // 0x100: JP 0x0110
    // 0x110: CALL 0x0120
    // 0x113: JP NC, 0x0100 (C set: not taken)
    // 0x116: CALL C, 0x0124 ; 0x119: RST 0x08
    // 0x120: SCF ; 0x121: RET NC (not taken) ; 0x122: RET
    // 0x124: RET C
    let mut code = vec![0u8; 0x30];
    code[0x00..0x03].copy_from_slice(&[0xC3, 0x10, 0x01]);
    code[0x10..0x13].copy_from_slice(&[0xCD, 0x20, 0x01]);
    code[0x13..0x16].copy_from_slice(&[0xD2, 0x00, 0x01]);
    code[0x16..0x19].copy_from_slice(&[0xDC, 0x24, 0x01]);
    code[0x19] = 0xCF;
    code[0x20] = 0x37;
    code[0x21] = 0xD0;
    code[0x22] = 0xC9;
    code[0x24] = 0xD8;
    let (mut cpu, mut bus) = machine_with(&code);
    assert_eq!(cpu.cycle(&mut bus), Ok(16));
    assert_eq!(cpu.pc, 0x110);
    assert_eq!(cpu.cycle(&mut bus), Ok(24));
    assert_eq!(cpu.pc, 0x120);
    assert_eq!(cpu.registers.get_16bit_reg(Register16Bit::SP), 0xFFFC);
    assert_eq!(bus.read_byte(0xFFFC), 0x13);
    assert_eq!(bus.read_byte(0xFFFD), 0x01);
    assert_eq!(cpu.cycle(&mut bus), Ok(4));
    assert_eq!(cpu.cycle(&mut bus), Ok(8));
    assert_eq!(cpu.pc, 0x122);
    assert_eq!(cpu.cycle(&mut bus), Ok(16));
    assert_eq!(cpu.pc, 0x113);
    assert_eq!(cpu.registers.get_16bit_reg(Register16Bit::SP), 0xFFFE);
    assert_eq!(cpu.cycle(&mut bus), Ok(12));
    assert_eq!(cpu.pc, 0x116);
    assert_eq!(cpu.cycle(&mut bus), Ok(24));
    assert_eq!(cpu.pc, 0x124);
    assert_eq!(cpu.cycle(&mut bus), Ok(20));
    assert_eq!(cpu.pc, 0x119);
    assert_eq!(cpu.cycle(&mut bus), Ok(16));
    assert_eq!(cpu.pc, 0x0008);
    assert_eq!(bus.read_byte(0xFFFC), 0x1A);
}

#[test]
fn sixteen_bit_arithmetic() {
    // LD HL, 0x0FFF; LD BC, 0x0001; ADD HL, BC; INC BC; DEC HL; ADD SP, -2; LD HL, SP+1
    let (mut cpu, mut bus) = machine_with(&[
        0x21, 0xFF, 0x0F, 0x01, 0x01, 0x00, 0x09, 0x03, 0x2B, 0xE8, 0xFE, 0xF8, 0x01,
    ]);
    cpu.registers.set_flag(Flag::Z, true);
    cpu.cycle(&mut bus).unwrap();
    cpu.cycle(&mut bus).unwrap();
    assert_eq!(cpu.cycle(&mut bus), Ok(8));
    assert_eq!(cpu.registers.get_16bit_reg(Register16Bit::HL), 0x1000);
    assert_eq!(flags_of(&cpu), (true, false, true, false));
    assert_eq!(cpu.cycle(&mut bus), Ok(8));
    assert_eq!(cpu.registers.get_16bit_reg(Register16Bit::BC), 0x0002);
    assert_eq!(cpu.cycle(&mut bus), Ok(8));
    assert_eq!(cpu.registers.get_16bit_reg(Register16Bit::HL), 0x0FFF);
    assert_eq!(flags_of(&cpu), (true, false, true, false));
    assert_eq!(cpu.cycle(&mut bus), Ok(16));
    assert_eq!(cpu.registers.get_16bit_reg(Register16Bit::SP), 0xFFFC);
    assert_eq!(flags_of(&cpu), (false, false, true, true));
    assert_eq!(cpu.cycle(&mut bus), Ok(12));
    assert_eq!(cpu.registers.get_16bit_reg(Register16Bit::HL), 0xFFFD);
    assert_eq!(flags_of(&cpu), (false, false, false, false));
}

#[test]
fn increments_keep_carry() {
    // LD A, 0xFF; SCF; INC A; DEC A
    let (mut cpu, mut bus) = machine_with(&[0x3E, 0xFF, 0x37, 0x3C, 0x3D]);
    cpu.cycle(&mut bus).unwrap();
    cpu.cycle(&mut bus).unwrap();
    assert_eq!(cpu.cycle(&mut bus), Ok(4));
    assert_eq!(cpu.registers.get_8bit_reg(Register8Bit::A), 0x00);
    assert_eq!(flags_of(&cpu), (true, false, true, true));
    assert_eq!(cpu.cycle(&mut bus), Ok(4));
    assert_eq!(cpu.registers.get_8bit_reg(Register8Bit::A), 0xFF);
    assert_eq!(flags_of(&cpu), (false, true, true, true));
}

#[test]
fn logic_instructions() {
    // LD A, 0xF0; AND 0x3C; OR 0x03; XOR 0x33; CP 0x00; CPL; CCF
    let (mut cpu, mut bus) = machine_with(&[
        0x3E, 0xF0, 0xE6, 0x3C, 0xF6, 0x03, 0xEE, 0x33, 0xFE, 0x00, 0x2F, 0x3F,
    ]);
    cpu.cycle(&mut bus).unwrap();
    assert_eq!(cpu.cycle(&mut bus), Ok(8));
    assert_eq!(cpu.registers.get_8bit_reg(Register8Bit::A), 0x30);
    assert_eq!(flags_of(&cpu), (false, false, true, false));
    cpu.cycle(&mut bus).unwrap();
    assert_eq!(cpu.registers.get_8bit_reg(Register8Bit::A), 0x33);
    assert_eq!(flags_of(&cpu), (false, false, false, false));
    cpu.cycle(&mut bus).unwrap();
    assert_eq!(cpu.registers.get_8bit_reg(Register8Bit::A), 0x00);
    assert_eq!(flags_of(&cpu), (true, false, false, false));
    cpu.cycle(&mut bus).unwrap();
    assert_eq!(cpu.registers.get_8bit_reg(Register8Bit::A), 0x00);
    assert_eq!(flags_of(&cpu), (true, true, false, false));
    cpu.cycle(&mut bus).unwrap();
    assert_eq!(cpu.registers.get_8bit_reg(Register8Bit::A), 0xFF);
    assert_eq!(flags_of(&cpu), (true, true, true, false));
    cpu.cycle(&mut bus).unwrap();
    assert_eq!(flags_of(&cpu), (true, false, false, true));
}

#[test]
fn rotates_of_the_accumulator() {
    // LD A, 0x85; RLCA; RLA; RRCA; RRA
    let (mut cpu, mut bus) = machine_with(&[0x3E, 0x85, 0x07, 0x17, 0x0F, 0x1F]);
    cpu.cycle(&mut bus).unwrap();
    cpu.cycle(&mut bus).unwrap();
    assert_eq!(cpu.registers.get_8bit_reg(Register8Bit::A), 0x0B);
    assert_eq!(flags_of(&cpu), (false, false, false, true));
    cpu.cycle(&mut bus).unwrap();
    assert_eq!(cpu.registers.get_8bit_reg(Register8Bit::A), 0x17);
    assert_eq!(flags_of(&cpu), (false, false, false, false));
    cpu.cycle(&mut bus).unwrap();
    assert_eq!(cpu.registers.get_8bit_reg(Register8Bit::A), 0x8B);
    assert_eq!(flags_of(&cpu), (false, false, false, true));
    cpu.cycle(&mut bus).unwrap();
    assert_eq!(cpu.registers.get_8bit_reg(Register8Bit::A), 0xC5);
    assert_eq!(flags_of(&cpu), (false, false, false, true));
}

#[test]
fn prefixed_instructions() {
    // LD B, 0x81; RLC B; RRC B; RL B; RR B; SLA B; SRA B; SWAP B; SRL B
    let (mut cpu, mut bus) = machine_with(&[
        0x06, 0x81, 0xCB, 0x00, 0xCB, 0x08, 0xCB, 0x10, 0xCB, 0x18, 0xCB, 0x20, 0xCB, 0x28, 0xCB,
        0x30, 0xCB, 0x38,
    ]);
    cpu.registers.set_flags(Flags { z: false, n: false, h: false, c: false });
    cpu.cycle(&mut bus).unwrap();
    let expected = [
        (0x03u8, false, true),
        (0x81, false, true),
        (0x03, false, true),
        (0x81, false, true),
        (0x02, false, true),
        (0x01, false, false),
        (0x10, false, false),
        (0x08, false, false),
    ];
    for (value, z, c) in expected {
        assert_eq!(cpu.cycle(&mut bus), Ok(8));
        assert_eq!(cpu.registers.get_8bit_reg(Register8Bit::B), value);
        assert_eq!(flags_of(&cpu), (z, false, false, c));
    }
    assert_eq!(cpu.pc, 0x112);
}

#[test]
fn bit_instructions() {
    // LD HL, 0xC000; LD (HL), 0x80; BIT 7, (HL); BIT 0, (HL); RES 7, (HL); SET 0, (HL); SET 3, A
    let (mut cpu, mut bus) = machine_with(&[
        0x21, 0x00, 0xC0, 0x36, 0x80, 0xCB, 0x7E, 0xCB, 0x46, 0xCB, 0xBE, 0xCB, 0xC6, 0xCB, 0xDF,
    ]);
    cpu.registers.set_8bit_reg(Register8Bit::A, 0);
    cpu.registers.set_flag(Flag::C, true);
    cpu.cycle(&mut bus).unwrap();
    cpu.cycle(&mut bus).unwrap();
    assert_eq!(cpu.cycle(&mut bus), Ok(12));
    assert_eq!(flags_of(&cpu), (false, false, true, true));
    assert_eq!(cpu.cycle(&mut bus), Ok(12));
    assert_eq!(flags_of(&cpu), (true, false, true, true));
    assert_eq!(cpu.cycle(&mut bus), Ok(16));
    assert_eq!(bus.read_byte(0xC000), 0x00);
    assert_eq!(cpu.cycle(&mut bus), Ok(16));
    assert_eq!(bus.read_byte(0xC000), 0x01);
    assert_eq!(cpu.cycle(&mut bus), Ok(8));
    assert_eq!(cpu.registers.get_8bit_reg(Register8Bit::A), 0x08);
}

#[test]
fn store_stack_pointer() {
    // LD SP, 0xC0DE; LD (0xC100), SP; LD HL, 0xD000; LD SP, HL
    let (mut cpu, mut bus) = machine_with(&[
        0x31, 0xDE, 0xC0, 0x08, 0x00, 0xC1, 0x21, 0x00, 0xD0, 0xF9,
    ]);
    cpu.cycle(&mut bus).unwrap();
    assert_eq!(cpu.cycle(&mut bus), Ok(20));
    assert_eq!(bus.read_byte(0xC100), 0xDE);
    assert_eq!(bus.read_byte(0xC101), 0xC0);
    cpu.cycle(&mut bus).unwrap();
    assert_eq!(cpu.cycle(&mut bus), Ok(8));
    assert_eq!(cpu.registers.get_16bit_reg(Register16Bit::SP), 0xD000);
}

#[test]
fn undefined_opcode_is_an_error() {
    for opcode in [0xD3u8, 0xDB, 0xDD, 0xE3, 0xE4, 0xEB, 0xEC, 0xED, 0xF4, 0xFC, 0xFD] {
        let (mut cpu, mut bus) = machine_with(&[opcode]);
        assert_eq!(cpu.cycle(&mut bus), Err(CpuError::UndefinedOpcode(opcode)));
        assert_eq!(cpu.pc, 0x100);
        assert!(Instruction::lookup(opcode).is_none());
    }
}

#[test]
fn every_other_opcode_has_an_instruction() {
    let undefined = [0xD3u8, 0xDB, 0xDD, 0xE3, 0xE4, 0xEB, 0xEC, 0xED, 0xF4, 0xFC, 0xFD, 0xCB];
    let mut count = 0;
    for opcode in 0..=255u8 {
        match Instruction::lookup(opcode) {
            Some(instruction) => {
                assert!(!undefined.contains(&opcode));
                assert_eq!(instruction.opcode, opcode);
                assert!(instruction.cycles >= 4 && instruction.cycles <= 24);
                assert!(!instruction.mnemonic.is_empty());
                count += 1;
            },
            None => assert!(undefined.contains(&opcode)),
        }
        assert_eq!(Instruction::lookup_prefixed(opcode).cycles, 8);
    }
    assert_eq!(count, 244);
    let nop = Instruction::lookup(0x00).unwrap();
    assert_eq!((nop.cycles, nop.mnemonic, nop.handler), (4, "NOP", Handler::Nop));
    let call = Instruction::lookup(0xCD).unwrap();
    assert_eq!((call.cycles, call.handler), (24, Handler::CallCondA16));
    let set = Instruction::lookup_prefixed(0xFF);
    assert_eq!((set.mnemonic, set.handler), ("SET u3, r8", Handler::SetU3R8));
}

#[test]
fn interrupt_dispatch() {
    let (mut cpu, mut bus) = machine_with(&[0x00, 0x00]);
    cpu.ime = true;
    bus.write_byte(0xFFFF, 0x1F);
    bus.intf.raise(InterruptFlag::Timer);
    bus.intf.raise(InterruptFlag::Joypad);
    assert_eq!(cpu.cycle(&mut bus), Ok(20));
    assert_eq!(cpu.pc, 0x0050);
    assert!(!cpu.ime);
    assert!(!bus.intf.is_raised(InterruptFlag::Timer));
    assert!(bus.intf.is_raised(InterruptFlag::Joypad));
    assert_eq!(cpu.registers.get_16bit_reg(Register16Bit::SP), 0xFFFC);
    assert_eq!(bus.read_byte(0xFFFC), 0x00);
    assert_eq!(bus.read_byte(0xFFFD), 0x01);
    // with interrupts disabled the joypad request waits
    assert_eq!(cpu.cycle(&mut bus), Ok(4));
    assert!(bus.intf.is_raised(InterruptFlag::Joypad));
    cpu.ime = true;
    assert_eq!(cpu.cycle(&mut bus), Ok(20));
    assert_eq!(cpu.pc, 0x0060);
}

#[test]
fn interrupt_priority_and_enable_mask() {
    let (mut cpu, mut bus) = machine_with(&[0x00]);
    cpu.ime = true;
    bus.write_byte(0xFFFF, 0x02);
    bus.intf.raise(InterruptFlag::VBlank);
    bus.intf.raise(InterruptFlag::LCDC);
    assert_eq!(bus.intf.pending(), Some(InterruptFlag::LCDC));
    assert_eq!(cpu.cycle(&mut bus), Ok(20));
    assert_eq!(cpu.pc, 0x0048);
    assert!(bus.intf.is_raised(InterruptFlag::VBlank));
}

#[test]
fn ei_takes_effect_after_the_following_instruction() {
    // EI; NOP; NOP
    let (mut cpu, mut bus) = machine_with(&[0xFB, 0x00, 0x00]);
    bus.write_byte(0xFFFF, 0x01);
    bus.intf.raise(InterruptFlag::VBlank);
    assert_eq!(cpu.cycle(&mut bus), Ok(4));
    assert!(!cpu.ime);
    assert_eq!(cpu.cycle(&mut bus), Ok(4));
    assert_eq!(cpu.pc, 0x102);
    assert_eq!(cpu.cycle(&mut bus), Ok(20));
    assert_eq!(cpu.pc, 0x0040);
    assert_eq!(bus.read_byte(0xFFFC), 0x02);
}

#[test]
fn di_disables_interrupts() {
    // DI; NOP
    let (mut cpu, mut bus) = machine_with(&[0xF3, 0x00]);
    cpu.ime = true;
    assert_eq!(cpu.cycle(&mut bus), Ok(4));
    assert!(!cpu.ime);
    bus.write_byte(0xFFFF, 0x01);
    bus.intf.raise(InterruptFlag::VBlank);
    assert_eq!(cpu.cycle(&mut bus), Ok(4));
    assert_eq!(cpu.pc, 0x102);
}

#[test]
fn reti_enables_interrupts() {
    // CALL 0x0110 ... 0x110: RETI
    let mut code = vec![0u8; 0x20];
    code[0..3].copy_from_slice(&[0xCD, 0x10, 0x01]);
    code[0x10] = 0xD9;
    let (mut cpu, mut bus) = machine_with(&code);
    cpu.cycle(&mut bus).unwrap();
    assert_eq!(cpu.cycle(&mut bus), Ok(16));
    assert!(cpu.ime);
    assert_eq!(cpu.pc, 0x103);
}

#[test]
fn halt_idles_until_an_interrupt_is_pending() {
    // HALT; INC A
    let (mut cpu, mut bus) = machine_with(&[0x76, 0x3C]);
    cpu.registers.set_8bit_reg(Register8Bit::A, 0);
    assert_eq!(cpu.cycle(&mut bus), Ok(4));
    assert!(cpu.halted);
    assert_eq!(cpu.cycle(&mut bus), Ok(4));
    assert_eq!(cpu.cycle(&mut bus), Ok(4));
    assert_eq!(cpu.pc, 0x101);
    // a pending and enabled request wakes the processor, which goes on
    // with the next instruction; nothing is dispatched in that step
    bus.write_byte(0xFFFF, 0x04);
    bus.intf.raise(InterruptFlag::Timer);
    assert_eq!(cpu.cycle(&mut bus), Ok(4));
    assert!(!cpu.halted);
    assert_eq!(cpu.registers.get_8bit_reg(Register8Bit::A), 1);
    assert_eq!(cpu.pc, 0x102);
    assert!(bus.intf.is_raised(InterruptFlag::Timer));
}

#[test]
fn gameboy_tick_feeds_the_peripherals() {
    // LD A, 0x05; LDH (0x07), A   (timer on, period 16); then NOPs
    let mut gb = Gameboy::new(rom_with(&[0x3E, 0x05, 0xE0, 0x07])).unwrap();
    assert_eq!(gb.tick(), Ok(8));
    assert_eq!(gb.tick(), Ok(12));
    assert_eq!(gb.cycles, 20);
    assert_eq!(gb.bus.read_byte(0xFF07), 0x05);
    let before = gb.bus.read_byte(0xFF05);
    for _ in 0..4 {
        assert_eq!(gb.tick(), Ok(4));
    }
    assert_eq!(gb.bus.read_byte(0xFF05), before.wrapping_add(1));
    assert_eq!(gb.cycles, 36);
}

#[test]
fn gameboy_runs_frames_and_scanlines() {
    let mut gb = Gameboy::new(rom_with(&[0x18, 0xFE])).unwrap();
    let elapsed = gb.run_frame().unwrap();
    assert!(elapsed >= 70224 && elapsed < 70224 + 24);
    assert_eq!(gb.cycles, elapsed);
    let line = gb.bus.read_byte(0xFF44);
    let elapsed = gb.run_scanline().unwrap();
    assert!(elapsed <= 456 + 24);
    assert_ne!(gb.bus.read_byte(0xFF44), line);
    // with the display off the line counter rests, and a scanline's worth
    // of time passes
    gb.bus.write_byte(0xFF40, 0x00);
    gb.tick().unwrap();
    let elapsed = gb.run_scanline().unwrap();
    assert!(elapsed >= 456);
    assert_eq!(gb.bus.read_byte(0xFF44), 0);
}

#[test]
fn gameboy_stops_at_an_undefined_opcode() {
    let mut gb = Gameboy::new(rom_with(&[0x00, 0xDD])).unwrap();
    assert_eq!(gb.run_frame(), Err(CpuError::UndefinedOpcode(0xDD)));
    assert_eq!(gb.cpu.pc, 0x101);
    assert_eq!(gb.cycles, 4);
}

#[test]
fn serial_output_of_a_program() {
    // For each of "OK\n": LD A, byte; LDH (0x01), A; LD A, 0x81; LDH (0x02), A.
    // Then JR -2.
    let mut code = Vec::new();
    for byte in [b'O', b'K', b'\n'] {
        code.extend_from_slice(&[0x3E, byte, 0xE0, 0x01, 0x3E, 0x81, 0xE0, 0x02]);
    }
    code.extend_from_slice(&[0x18, 0xFE]);
    let mut gb = Gameboy::new(rom_with(&code)).unwrap();
    let mut output = Vec::new();
    for _ in 0..64 {
        gb.tick().unwrap();
        if gb.bus.read_byte(0xFF02) == 0x81 {
            output.push(gb.bus.read_byte(0xFF01));
            gb.bus.write_byte(0xFF02, 0x00);
        }
    }
    assert_eq!(output, b"OK\n".to_vec());
}

#[test]
fn boot_rom_restarts_at_zero() {
    let mut gb = Gameboy::new(rom_with(&[0x00])).unwrap();
    let mut boot = vec![0x00u8; 256];
    boot[0] = 0x3E;
    boot[1] = 0x42;
    gb.load_bootrom(boot, true);
    assert_eq!(gb.cpu.pc, 0);
    assert_eq!(gb.tick(), Ok(8));
    assert_eq!(gb.cpu.registers.get_8bit_reg(Register8Bit::A), 0x42);
}

#[test]
fn arithmetic_helpers_set_the_flags() {
    let mut cpu = CPU::new();
    assert_eq!(cpu.add_8bit(0x3A, 0xC6), 0x00);
    assert_eq!(flags_of(&cpu), (true, false, true, true));
    assert_eq!(cpu.sub_8bit(0x3E, 0x0F), 0x2F);
    assert_eq!(flags_of(&cpu), (false, true, true, false));
    assert_eq!(cpu.add_16bit(0x8A23, 0x8A23), 0x1446);
    assert_eq!(flags_of(&cpu), (false, false, true, true));
    assert_eq!(cpu.add_16bit(0xFFFF, 0x0001), 0x0000);
    assert_eq!(flags_of(&cpu), (true, false, true, true));
    assert_eq!(cpu.sub_16bit(0x1000, 0x0001), 0x0FFF);
    assert_eq!(flags_of(&cpu), (false, true, true, false));
    assert_eq!(cpu.sub_16bit(0x0000, 0x0001), 0xFFFF);
    assert_eq!(flags_of(&cpu), (false, true, true, true));
    assert_eq!(cpu.sub_16bit(0x1234, 0x1234), 0x0000);
    assert_eq!(flags_of(&cpu), (true, true, false, false));
    assert_eq!(cpu.inc_pc(), 0x101);
    cpu.pc = 0xFFFF;
    assert_eq!(cpu.inc_pc(), 0x0000);
    assert_eq!(cpu.dec_sp(), 0xFFFD);
    assert_eq!(cpu.inc_sp(), 0xFFFE);
}

#[test]
fn operands_through_hl() {
    let (mut cpu, mut bus) = machine_with(&[0x00]);
    cpu.registers.set_16bit_reg(Register16Bit::HL, 0xC080);
    cpu.set_deref_hl(&mut bus, 0x99);
    assert_eq!(bus.read_byte(0xC080), 0x99);
    assert_eq!(cpu.get_deref_hl(&bus), 0x99);
    assert_eq!(cpu.get_8bit_reg(&bus, Register8Bit::HL), 0x99);
    cpu.set_8bit_reg(&mut bus, Register8Bit::HL, 0x11);
    cpu.set_8bit_reg(&mut bus, Register8Bit::D, 0x22);
    assert_eq!(bus.read_byte(0xC080), 0x11);
    assert_eq!(cpu.get_8bit_reg(&bus, Register8Bit::D), 0x22);
    assert_eq!(cpu.registers.get_16bit_reg(Register16Bit::HL), 0xC080);
}

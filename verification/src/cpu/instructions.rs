//! The instruction set: which opcode is which instruction, what it costs at
//! least and what it is called.

use vstd::prelude::*;

verus! {

/// The four conditions of conditional jumps, calls and returns.
#[derive(Clone, Copy, Debug, PartialEq, Eq, Structural)]
pub enum Cond {
    /// Z is clear.
    NZ,
    /// Z is set.
    Z,
    /// C is clear.
    NC,
    /// C is set.
    C,
}

impl Cond {
    /// The condition that the two-bit field `num` of an opcode names.
    pub open spec fn spec_new(num: u8) -> Self {
        if num == 0 {
            Cond::NZ
        } else if num == 1 {
            Cond::Z
        } else if num == 2 {
            Cond::NC
        } else {
            Cond::C
        }
    }

    /// The condition that the two-bit field `num` of an opcode names.
    #[verifier::when_used_as_spec(spec_new)]
    pub fn new(num: u8) -> (cond: Self)
        requires
            num < 4,
        ensures
            cond == Self::spec_new(num),
    {
        match num {
            0 => Cond::NZ,
            1 => Cond::Z,
            2 => Cond::NC,
            _ => Cond::C,
        }
    }
}

/// The groups of instructions; each group has one handler, which tells its
/// members apart by their opcode.
#[derive(Clone, Copy, Debug, PartialEq, Eq, Structural)]
pub enum Handler {
    /// Does nothing.
    Nop,
    /// Complements the accumulator.
    Cpl,
    /// Complements the carry flag.
    Ccf,
    /// Sets the carry flag.
    Scf,
    /// Adjusts the accumulator to packed decimal.
    Daa,
    /// Enables interrupts after the next instruction.
    Ei,
    /// Disables interrupts.
    Di,
    /// Suspends the processor until an interrupt is pending.
    Halt,
    /// Treated as a one-byte no-op.
    Stop,
    /// Relative jump, conditional or not.
    JrCondE8,
    /// Absolute jump, conditional or not.
    JpCondA16,
    /// Jump to the address in HL.
    JpHl,
    /// Call, conditional or not.
    CallCondA16,
    /// Call to one of eight fixed addresses.
    Rst,
    /// Return, conditional or not, and return from interrupt.
    RetCond,
    /// Copy between 8-bit operands.
    LdR8R8,
    /// Load a register pair with a constant.
    LdR16Imm,
    /// Load an 8-bit operand with a constant.
    LdR8Imm,
    /// Store the accumulator through a register pair.
    LdR16MemA,
    /// Load the accumulator through a register pair.
    LdAR16Mem,
    /// Load the accumulator from an address.
    LdAA16,
    /// Store the accumulator at an address.
    LdA16A,
    /// Load the accumulator from the high page.
    LdhAA8,
    /// Store the accumulator in the high page.
    LdhA8A,
    /// Load the accumulator from the high page at C.
    LdhAC,
    /// Store the accumulator in the high page at C.
    LdhCA,
    /// Store the stack pointer at an address.
    LdA16Sp,
    /// Push a register pair.
    PushR16,
    /// Pop a register pair.
    PopR16,
    /// Copy HL to the stack pointer.
    LdSpHl,
    /// Load HL with the stack pointer plus an offset.
    LdHlSpE8,
    /// Add an offset to the stack pointer.
    AddSpE8,
    /// Add to the accumulator, with or without carry.
    AddAdc,
    /// Subtract from the accumulator, with or without borrow.
    SubSbc,
    /// Bitwise and with the accumulator.
    And,
    /// Bitwise exclusive or with the accumulator.
    Xor,
    /// Bitwise or with the accumulator.
    Or,
    /// Compare with the accumulator.
    Cp,
    /// Increment a register pair.
    IncR16,
    /// Decrement a register pair.
    DecR16,
    /// Increment an 8-bit operand.
    IncR8,
    /// Decrement an 8-bit operand.
    DecR8,
    /// Add a register pair to HL.
    AddHlR16,
    /// Rotate the accumulator.
    RlcaRrca,
    /// Rotate the accumulator through carry.
    RlaRra,
    /// Rotate an 8-bit operand.
    RlcRrcR8,
    /// Rotate an 8-bit operand through carry.
    RlRrR8,
    /// Shift an 8-bit operand arithmetically.
    SlaSraR8,
    /// Exchange the nibbles of an 8-bit operand.
    SwapR8,
    /// Shift an 8-bit operand right logically.
    SrlR8,
    /// Test a bit of an 8-bit operand.
    BitU3R8,
    /// Clear a bit of an 8-bit operand.
    ResU3R8,
    /// Set a bit of an 8-bit operand.
    SetU3R8,
}

/// What the table holds for one opcode.
#[derive(Clone, Copy, Debug)]
pub struct Instruction {
    pub opcode: u8,
    /// The cost in T-states before the handler adjusts it.
    pub cycles: u16,
    pub mnemonic: &'static str,
    pub handler: Handler,
}

/// The handler of the arithmetic or logic operation with number `y`.
pub open spec fn spec_alu_handler(y: int) -> Handler {
    if y <= 1 {
        Handler::AddAdc
    } else if y <= 3 {
        Handler::SubSbc
    } else if y == 4 {
        Handler::And
    } else if y == 5 {
        Handler::Xor
    } else if y == 6 {
        Handler::Or
    } else {
        Handler::Cp
    }
}

/// The handler of the unprefixed opcode `opcode`, by the fields of the
/// opcode: `x` is its upper two bits, `y` the middle three and `z` the lower
/// three. Eleven opcodes have no instruction, and 0xCB is the prefix.
pub open spec fn spec_handler(opcode: u8) -> Option<Handler> {
    let x = opcode / 64;
    let y = (opcode / 8) % 8;
    let z = opcode % 8;
    if x == 1 {
        if opcode == 0x76 {
            Some(Handler::Halt)
        } else {
            Some(Handler::LdR8R8)
        }
    } else if x == 2 {
        Some(spec_alu_handler(y as int))
    } else if x == 0 {
        if z == 0 {
            if y == 0 {
                Some(Handler::Nop)
            } else if y == 1 {
                Some(Handler::LdA16Sp)
            } else if y == 2 {
                Some(Handler::Stop)
            } else {
                Some(Handler::JrCondE8)
            }
        } else if z == 1 {
            if y % 2 == 0 {
                Some(Handler::LdR16Imm)
            } else {
                Some(Handler::AddHlR16)
            }
        } else if z == 2 {
            if y % 2 == 0 {
                Some(Handler::LdR16MemA)
            } else {
                Some(Handler::LdAR16Mem)
            }
        } else if z == 3 {
            if y % 2 == 0 {
                Some(Handler::IncR16)
            } else {
                Some(Handler::DecR16)
            }
        } else if z == 4 {
            Some(Handler::IncR8)
        } else if z == 5 {
            Some(Handler::DecR8)
        } else if z == 6 {
            Some(Handler::LdR8Imm)
        } else if y <= 1 {
            Some(Handler::RlcaRrca)
        } else if y <= 3 {
            Some(Handler::RlaRra)
        } else if y == 4 {
            Some(Handler::Daa)
        } else if y == 5 {
            Some(Handler::Cpl)
        } else if y == 6 {
            Some(Handler::Scf)
        } else {
            Some(Handler::Ccf)
        }
    } else if z == 0 {
        if y <= 3 {
            Some(Handler::RetCond)
        } else if y == 4 {
            Some(Handler::LdhA8A)
        } else if y == 5 {
            Some(Handler::AddSpE8)
        } else if y == 6 {
            Some(Handler::LdhAA8)
        } else {
            Some(Handler::LdHlSpE8)
        }
    } else if z == 1 {
        if y % 2 == 0 {
            Some(Handler::PopR16)
        } else if y <= 3 {
            Some(Handler::RetCond)
        } else if y == 5 {
            Some(Handler::JpHl)
        } else {
            Some(Handler::LdSpHl)
        }
    } else if z == 2 {
        if y <= 3 {
            Some(Handler::JpCondA16)
        } else if y == 4 {
            Some(Handler::LdhCA)
        } else if y == 5 {
            Some(Handler::LdA16A)
        } else if y == 6 {
            Some(Handler::LdhAC)
        } else {
            Some(Handler::LdAA16)
        }
    } else if z == 3 {
        if y == 0 {
            Some(Handler::JpCondA16)
        } else if y == 6 {
            Some(Handler::Di)
        } else if y == 7 {
            Some(Handler::Ei)
        } else {
            None
        }
    } else if z == 4 {
        if y <= 3 {
            Some(Handler::CallCondA16)
        } else {
            None
        }
    } else if z == 5 {
        if y % 2 == 0 {
            Some(Handler::PushR16)
        } else if y == 1 {
            Some(Handler::CallCondA16)
        } else {
            None
        }
    } else if z == 6 {
        Some(spec_alu_handler(y as int))
    } else {
        Some(Handler::Rst)
    }
}

/// The cost in T-states that the table holds for the unprefixed opcode
/// `opcode`: the cost of the instruction with a register operand and with
/// its jump taken.
pub open spec fn spec_base_cycles(opcode: u8) -> u16 {
    match spec_handler(opcode) {
        Some(Handler::LdA16Sp) => 20,
        Some(Handler::JrCondE8) => 12,
        Some(Handler::LdR16Imm) => 12,
        Some(Handler::AddHlR16) => 8,
        Some(Handler::LdR16MemA) => 8,
        Some(Handler::LdAR16Mem) => 8,
        Some(Handler::IncR16) => 8,
        Some(Handler::DecR16) => 8,
        Some(Handler::IncR8) => if opcode == 0x34 {
            12
        } else {
            4
        },
        Some(Handler::DecR8) => if opcode == 0x35 {
            12
        } else {
            4
        },
        Some(Handler::LdR8Imm) => if opcode == 0x36 {
            12
        } else {
            8
        },
        Some(Handler::RetCond) => if opcode == 0xC9 || opcode == 0xD9 {
            16
        } else {
            20
        },
        Some(Handler::LdhA8A) => 12,
        Some(Handler::LdhAA8) => 12,
        Some(Handler::AddSpE8) => 16,
        Some(Handler::LdHlSpE8) => 12,
        Some(Handler::PopR16) => 12,
        Some(Handler::LdSpHl) => 8,
        Some(Handler::JpCondA16) => 16,
        Some(Handler::LdhCA) => 8,
        Some(Handler::LdhAC) => 8,
        Some(Handler::LdA16A) => 16,
        Some(Handler::LdAA16) => 16,
        Some(Handler::CallCondA16) => 24,
        Some(Handler::PushR16) => 16,
        Some(Handler::Rst) => 16,
        Some(Handler::AddAdc) | Some(Handler::SubSbc) | Some(Handler::And) | Some(Handler::Xor)
        | Some(Handler::Or) | Some(Handler::Cp) => if opcode >= 0xC0 {
            8
        } else {
            4
        },
        _ => 4,
    }
}

/// The handler of the opcode `opcode` behind the prefix 0xCB: the first
/// quarter holds the rotates and shifts, the other three test, clear and set
/// a bit.
pub open spec fn spec_prefixed_handler(opcode: u8) -> Handler {
    let y = (opcode / 8) % 8;
    if opcode >= 0xC0 {
        Handler::SetU3R8
    } else if opcode >= 0x80 {
        Handler::ResU3R8
    } else if opcode >= 0x40 {
        Handler::BitU3R8
    } else if y <= 1 {
        Handler::RlcRrcR8
    } else if y <= 3 {
        Handler::RlRrR8
    } else if y <= 5 {
        Handler::SlaSraR8
    } else if y == 6 {
        Handler::SwapR8
    } else {
        Handler::SrlR8
    }
}

/// The name of the unprefixed opcode `opcode`; empty where there is no
/// instruction.
pub open spec fn spec_mnemonic(opcode: u8) -> Seq<char> {
    if opcode == 0x00 {
        "NOP"@
    } else if opcode == 0x2F {
        "CPL"@
    } else if opcode == 0x3F {
        "CCF"@
    } else if opcode == 0x37 {
        "SCF"@
    } else if opcode == 0x27 {
        "DAA"@
    } else if opcode == 0xFB {
        "EI"@
    } else if opcode == 0xF3 {
        "DI"@
    } else if opcode == 0x76 {
        "HALT"@
    } else if opcode == 0x10 {
        "STOP"@
    } else if opcode == 0x18 || opcode == 0x20 || opcode == 0x28 || opcode == 0x30 || opcode == 0x38 {
        "JR (cond), e8"@
    } else if 0xC2 <= opcode <= 0xC3 || opcode == 0xCA || opcode == 0xD2 || opcode == 0xDA {
        "JP (cond), a16"@
    } else if opcode == 0xE9 {
        "JP HL"@
    } else if opcode == 0xC4 || 0xCC <= opcode <= 0xCD || opcode == 0xD4 || opcode == 0xDC {
        "CALL (cond), a16"@
    } else if opcode == 0xC7 || opcode == 0xCF || opcode == 0xD7 || opcode == 0xDF || opcode == 0xE7 || opcode == 0xEF || opcode == 0xF7 || opcode == 0xFF {
        "RST vec"@
    } else if opcode == 0xC0 || opcode == 0xC8 || opcode == 0xD0 || opcode == 0xD8 {
        "RET (cond)"@
    } else if opcode == 0xC9 {
        "RET"@
    } else if opcode == 0xD9 {
        "RETI"@
    } else if 0x40 <= opcode <= 0x75 || 0x77 <= opcode <= 0x7F {
        "LD r8, r8"@
    } else if opcode == 0x01 || opcode == 0x11 || opcode == 0x21 || opcode == 0x31 {
        "LD r16, imm16"@
    } else if opcode == 0x06 || opcode == 0x0E || opcode == 0x16 || opcode == 0x1E || opcode == 0x26 || opcode == 0x2E || opcode == 0x3E {
        "LD r8, imm8"@
    } else if opcode == 0x36 {
        "LD [HL], imm8"@
    } else if opcode == 0x02 || opcode == 0x12 || opcode == 0x22 || opcode == 0x32 {
        "LD [r16mem], A"@
    } else if opcode == 0x0A || opcode == 0x1A || opcode == 0x2A || opcode == 0x3A {
        "LD A, [r16mem]"@
    } else if opcode == 0xFA {
        "LD A, [a16]"@
    } else if opcode == 0xEA {
        "LD [a16], A"@
    } else if opcode == 0xF0 {
        "LDH A, [a8]"@
    } else if opcode == 0xE0 {
        "LDH [a8], A"@
    } else if opcode == 0xF2 {
        "LDH A, [C]"@
    } else if opcode == 0xE2 {
        "LDH [C], A"@
    } else if opcode == 0x08 {
        "LD [a16], SP"@
    } else if opcode == 0xC5 || opcode == 0xD5 || opcode == 0xE5 || opcode == 0xF5 {
        "PUSH r16"@
    } else if opcode == 0xC1 || opcode == 0xD1 || opcode == 0xE1 || opcode == 0xF1 {
        "POP r16"@
    } else if opcode == 0xF9 {
        "LD SP, HL"@
    } else if opcode == 0xF8 {
        "LD HL, SP + e8"@
    } else if opcode == 0xE8 {
        "ADD SP, e8"@
    } else if 0x80 <= opcode <= 0x87 {
        "ADD A, r8"@
    } else if 0x88 <= opcode <= 0x8F {
        "ADC A, r8"@
    } else if 0x90 <= opcode <= 0x97 {
        "SUB A, r8"@
    } else if 0x98 <= opcode <= 0x9F {
        "SBC A, r8"@
    } else if 0xA0 <= opcode <= 0xA7 {
        "AND A, r8"@
    } else if 0xA8 <= opcode <= 0xAF {
        "XOR A, r8"@
    } else if 0xB0 <= opcode <= 0xB7 {
        "OR A, r8"@
    } else if 0xB8 <= opcode <= 0xBF {
        "CP A, r8"@
    } else if opcode == 0xC6 {
        "ADD A, n8"@
    } else if opcode == 0xCE {
        "ADC A, n8"@
    } else if opcode == 0xD6 {
        "SUB A, n8"@
    } else if opcode == 0xDE {
        "SBC A, n8"@
    } else if opcode == 0xE6 {
        "AND A, n8"@
    } else if opcode == 0xEE {
        "XOR A, n8"@
    } else if opcode == 0xF6 {
        "OR A, n8"@
    } else if opcode == 0xFE {
        "CP A, n8"@
    } else if opcode == 0x03 || opcode == 0x13 || opcode == 0x23 || opcode == 0x33 {
        "INC r16"@
    } else if opcode == 0x0B || opcode == 0x1B || opcode == 0x2B || opcode == 0x3B {
        "DEC r16"@
    } else if opcode == 0x04 || opcode == 0x0C || opcode == 0x14 || opcode == 0x1C || opcode == 0x24 || opcode == 0x2C || opcode == 0x3C {
        "INC r8"@
    } else if opcode == 0x34 {
        "INC [HL]"@
    } else if opcode == 0x05 || opcode == 0x0D || opcode == 0x15 || opcode == 0x1D || opcode == 0x25 || opcode == 0x2D || opcode == 0x3D {
        "DEC r8"@
    } else if opcode == 0x35 {
        "DEC [HL]"@
    } else if opcode == 0x09 || opcode == 0x19 || opcode == 0x29 || opcode == 0x39 {
        "ADD HL, r16"@
    } else if opcode == 0x07 {
        "RLCA"@
    } else if opcode == 0x0F {
        "RRCA"@
    } else if opcode == 0x17 {
        "RLA"@
    } else if opcode == 0x1F {
        "RRA"@
    } else {
        ""@
    }
}

/// The name of the opcode `opcode` behind the prefix 0xCB.
pub open spec fn spec_prefixed_mnemonic(opcode: u8) -> Seq<char> {
    if 0x00 <= opcode <= 0x07 {
        "RLC r8"@
    } else if 0x08 <= opcode <= 0x0F {
        "RRC r8"@
    } else if 0x10 <= opcode <= 0x17 {
        "RL r8"@
    } else if 0x18 <= opcode <= 0x1F {
        "RR r8"@
    } else if 0x20 <= opcode <= 0x27 {
        "SLA r8"@
    } else if 0x28 <= opcode <= 0x2F {
        "SRA r8"@
    } else if 0x30 <= opcode <= 0x37 {
        "SWAP r8"@
    } else if 0x38 <= opcode <= 0x3F {
        "SRL r8"@
    } else if 0x40 <= opcode <= 0x7F {
        "BIT u3, r8"@
    } else if 0x80 <= opcode <= 0xBF {
        "RES u3, r8"@
    } else {
        "SET u3, r8"@
    }
}

impl Instruction {
    /// The entry of the unprefixed table for `opcode`, if the opcode has an
    /// instruction.
    pub fn lookup(opcode: u8) -> (entry: Option<Instruction>)
        ensures
            match entry {
                Some(instruction) => {
                    &&& spec_handler(opcode) == Some(instruction.handler)
                    &&& instruction.opcode == opcode
                    &&& instruction.cycles == spec_base_cycles(opcode)
                    &&& 4 <= instruction.cycles <= 24
                    &&& instruction.mnemonic@ == spec_mnemonic(opcode)
                },
                None => spec_handler(opcode) is None,
            },
    {
        match opcode {
            0x00 => Some(
                Instruction {
                    opcode: opcode,
                    cycles: 4,
                    mnemonic: "NOP",
                    handler: Handler::Nop,
                },
            ),
            0x2F => Some(
                Instruction {
                    opcode: opcode,
                    cycles: 4,
                    mnemonic: "CPL",
                    handler: Handler::Cpl,
                },
            ),
            0x3F => Some(
                Instruction {
                    opcode: opcode,
                    cycles: 4,
                    mnemonic: "CCF",
                    handler: Handler::Ccf,
                },
            ),
            0x37 => Some(
                Instruction {
                    opcode: opcode,
                    cycles: 4,
                    mnemonic: "SCF",
                    handler: Handler::Scf,
                },
            ),
            0x27 => Some(
                Instruction {
                    opcode: opcode,
                    cycles: 4,
                    mnemonic: "DAA",
                    handler: Handler::Daa,
                },
            ),
            0xFB => Some(
                Instruction {
                    opcode: opcode,
                    cycles: 4,
                    mnemonic: "EI",
                    handler: Handler::Ei,
                },
            ),
            0xF3 => Some(
                Instruction {
                    opcode: opcode,
                    cycles: 4,
                    mnemonic: "DI",
                    handler: Handler::Di,
                },
            ),
            0x76 => Some(
                Instruction {
                    opcode: opcode,
                    cycles: 4,
                    mnemonic: "HALT",
                    handler: Handler::Halt,
                },
            ),
            0x10 => Some(
                Instruction {
                    opcode: opcode,
                    cycles: 4,
                    mnemonic: "STOP",
                    handler: Handler::Stop,
                },
            ),
            0x18 | 0x20 | 0x28 | 0x30 | 0x38 => Some(
                Instruction {
                    opcode: opcode,
                    cycles: 12,
                    mnemonic: "JR (cond), e8",
                    handler: Handler::JrCondE8,
                },
            ),
            0xC2..=0xC3 | 0xCA | 0xD2 | 0xDA => Some(
                Instruction {
                    opcode: opcode,
                    cycles: 16,
                    mnemonic: "JP (cond), a16",
                    handler: Handler::JpCondA16,
                },
            ),
            0xE9 => Some(
                Instruction {
                    opcode: opcode,
                    cycles: 4,
                    mnemonic: "JP HL",
                    handler: Handler::JpHl,
                },
            ),
            0xC4 | 0xCC..=0xCD | 0xD4 | 0xDC => Some(
                Instruction {
                    opcode: opcode,
                    cycles: 24,
                    mnemonic: "CALL (cond), a16",
                    handler: Handler::CallCondA16,
                },
            ),
            0xC7 | 0xCF | 0xD7 | 0xDF | 0xE7 | 0xEF | 0xF7 | 0xFF => Some(
                Instruction {
                    opcode: opcode,
                    cycles: 16,
                    mnemonic: "RST vec",
                    handler: Handler::Rst,
                },
            ),
            0xC0 | 0xC8 | 0xD0 | 0xD8 => Some(
                Instruction {
                    opcode: opcode,
                    cycles: 20,
                    mnemonic: "RET (cond)",
                    handler: Handler::RetCond,
                },
            ),
            0xC9 => Some(
                Instruction {
                    opcode: opcode,
                    cycles: 16,
                    mnemonic: "RET",
                    handler: Handler::RetCond,
                },
            ),
            0xD9 => Some(
                Instruction {
                    opcode: opcode,
                    cycles: 16,
                    mnemonic: "RETI",
                    handler: Handler::RetCond,
                },
            ),
            0x40..=0x75 | 0x77..=0x7F => Some(
                Instruction {
                    opcode: opcode,
                    cycles: 4,
                    mnemonic: "LD r8, r8",
                    handler: Handler::LdR8R8,
                },
            ),
            0x01 | 0x11 | 0x21 | 0x31 => Some(
                Instruction {
                    opcode: opcode,
                    cycles: 12,
                    mnemonic: "LD r16, imm16",
                    handler: Handler::LdR16Imm,
                },
            ),
            0x06 | 0x0E | 0x16 | 0x1E | 0x26 | 0x2E | 0x3E => Some(
                Instruction {
                    opcode: opcode,
                    cycles: 8,
                    mnemonic: "LD r8, imm8",
                    handler: Handler::LdR8Imm,
                },
            ),
            0x36 => Some(
                Instruction {
                    opcode: opcode,
                    cycles: 12,
                    mnemonic: "LD [HL], imm8",
                    handler: Handler::LdR8Imm,
                },
            ),
            0x02 | 0x12 | 0x22 | 0x32 => Some(
                Instruction {
                    opcode: opcode,
                    cycles: 8,
                    mnemonic: "LD [r16mem], A",
                    handler: Handler::LdR16MemA,
                },
            ),
            0x0A | 0x1A | 0x2A | 0x3A => Some(
                Instruction {
                    opcode: opcode,
                    cycles: 8,
                    mnemonic: "LD A, [r16mem]",
                    handler: Handler::LdAR16Mem,
                },
            ),
            0xFA => Some(
                Instruction {
                    opcode: opcode,
                    cycles: 16,
                    mnemonic: "LD A, [a16]",
                    handler: Handler::LdAA16,
                },
            ),
            0xEA => Some(
                Instruction {
                    opcode: opcode,
                    cycles: 16,
                    mnemonic: "LD [a16], A",
                    handler: Handler::LdA16A,
                },
            ),
            0xF0 => Some(
                Instruction {
                    opcode: opcode,
                    cycles: 12,
                    mnemonic: "LDH A, [a8]",
                    handler: Handler::LdhAA8,
                },
            ),
            0xE0 => Some(
                Instruction {
                    opcode: opcode,
                    cycles: 12,
                    mnemonic: "LDH [a8], A",
                    handler: Handler::LdhA8A,
                },
            ),
            0xF2 => Some(
                Instruction {
                    opcode: opcode,
                    cycles: 8,
                    mnemonic: "LDH A, [C]",
                    handler: Handler::LdhAC,
                },
            ),
            0xE2 => Some(
                Instruction {
                    opcode: opcode,
                    cycles: 8,
                    mnemonic: "LDH [C], A",
                    handler: Handler::LdhCA,
                },
            ),
            0x08 => Some(
                Instruction {
                    opcode: opcode,
                    cycles: 20,
                    mnemonic: "LD [a16], SP",
                    handler: Handler::LdA16Sp,
                },
            ),
            0xC5 | 0xD5 | 0xE5 | 0xF5 => Some(
                Instruction {
                    opcode: opcode,
                    cycles: 16,
                    mnemonic: "PUSH r16",
                    handler: Handler::PushR16,
                },
            ),
            0xC1 | 0xD1 | 0xE1 | 0xF1 => Some(
                Instruction {
                    opcode: opcode,
                    cycles: 12,
                    mnemonic: "POP r16",
                    handler: Handler::PopR16,
                },
            ),
            0xF9 => Some(
                Instruction {
                    opcode: opcode,
                    cycles: 8,
                    mnemonic: "LD SP, HL",
                    handler: Handler::LdSpHl,
                },
            ),
            0xF8 => Some(
                Instruction {
                    opcode: opcode,
                    cycles: 12,
                    mnemonic: "LD HL, SP + e8",
                    handler: Handler::LdHlSpE8,
                },
            ),
            0xE8 => Some(
                Instruction {
                    opcode: opcode,
                    cycles: 16,
                    mnemonic: "ADD SP, e8",
                    handler: Handler::AddSpE8,
                },
            ),
            0x80..=0x87 => Some(
                Instruction {
                    opcode: opcode,
                    cycles: 4,
                    mnemonic: "ADD A, r8",
                    handler: Handler::AddAdc,
                },
            ),
            0x88..=0x8F => Some(
                Instruction {
                    opcode: opcode,
                    cycles: 4,
                    mnemonic: "ADC A, r8",
                    handler: Handler::AddAdc,
                },
            ),
            0x90..=0x97 => Some(
                Instruction {
                    opcode: opcode,
                    cycles: 4,
                    mnemonic: "SUB A, r8",
                    handler: Handler::SubSbc,
                },
            ),
            0x98..=0x9F => Some(
                Instruction {
                    opcode: opcode,
                    cycles: 4,
                    mnemonic: "SBC A, r8",
                    handler: Handler::SubSbc,
                },
            ),
            0xA0..=0xA7 => Some(
                Instruction {
                    opcode: opcode,
                    cycles: 4,
                    mnemonic: "AND A, r8",
                    handler: Handler::And,
                },
            ),
            0xA8..=0xAF => Some(
                Instruction {
                    opcode: opcode,
                    cycles: 4,
                    mnemonic: "XOR A, r8",
                    handler: Handler::Xor,
                },
            ),
            0xB0..=0xB7 => Some(
                Instruction {
                    opcode: opcode,
                    cycles: 4,
                    mnemonic: "OR A, r8",
                    handler: Handler::Or,
                },
            ),
            0xB8..=0xBF => Some(
                Instruction {
                    opcode: opcode,
                    cycles: 4,
                    mnemonic: "CP A, r8",
                    handler: Handler::Cp,
                },
            ),
            0xC6 => Some(
                Instruction {
                    opcode: opcode,
                    cycles: 8,
                    mnemonic: "ADD A, n8",
                    handler: Handler::AddAdc,
                },
            ),
            0xCE => Some(
                Instruction {
                    opcode: opcode,
                    cycles: 8,
                    mnemonic: "ADC A, n8",
                    handler: Handler::AddAdc,
                },
            ),
            0xD6 => Some(
                Instruction {
                    opcode: opcode,
                    cycles: 8,
                    mnemonic: "SUB A, n8",
                    handler: Handler::SubSbc,
                },
            ),
            0xDE => Some(
                Instruction {
                    opcode: opcode,
                    cycles: 8,
                    mnemonic: "SBC A, n8",
                    handler: Handler::SubSbc,
                },
            ),
            0xE6 => Some(
                Instruction {
                    opcode: opcode,
                    cycles: 8,
                    mnemonic: "AND A, n8",
                    handler: Handler::And,
                },
            ),
            0xEE => Some(
                Instruction {
                    opcode: opcode,
                    cycles: 8,
                    mnemonic: "XOR A, n8",
                    handler: Handler::Xor,
                },
            ),
            0xF6 => Some(
                Instruction {
                    opcode: opcode,
                    cycles: 8,
                    mnemonic: "OR A, n8",
                    handler: Handler::Or,
                },
            ),
            0xFE => Some(
                Instruction {
                    opcode: opcode,
                    cycles: 8,
                    mnemonic: "CP A, n8",
                    handler: Handler::Cp,
                },
            ),
            0x03 | 0x13 | 0x23 | 0x33 => Some(
                Instruction {
                    opcode: opcode,
                    cycles: 8,
                    mnemonic: "INC r16",
                    handler: Handler::IncR16,
                },
            ),
            0x0B | 0x1B | 0x2B | 0x3B => Some(
                Instruction {
                    opcode: opcode,
                    cycles: 8,
                    mnemonic: "DEC r16",
                    handler: Handler::DecR16,
                },
            ),
            0x04 | 0x0C | 0x14 | 0x1C | 0x24 | 0x2C | 0x3C => Some(
                Instruction {
                    opcode: opcode,
                    cycles: 4,
                    mnemonic: "INC r8",
                    handler: Handler::IncR8,
                },
            ),
            0x34 => Some(
                Instruction {
                    opcode: opcode,
                    cycles: 12,
                    mnemonic: "INC [HL]",
                    handler: Handler::IncR8,
                },
            ),
            0x05 | 0x0D | 0x15 | 0x1D | 0x25 | 0x2D | 0x3D => Some(
                Instruction {
                    opcode: opcode,
                    cycles: 4,
                    mnemonic: "DEC r8",
                    handler: Handler::DecR8,
                },
            ),
            0x35 => Some(
                Instruction {
                    opcode: opcode,
                    cycles: 12,
                    mnemonic: "DEC [HL]",
                    handler: Handler::DecR8,
                },
            ),
            0x09 | 0x19 | 0x29 | 0x39 => Some(
                Instruction {
                    opcode: opcode,
                    cycles: 8,
                    mnemonic: "ADD HL, r16",
                    handler: Handler::AddHlR16,
                },
            ),
            0x07 => Some(
                Instruction {
                    opcode: opcode,
                    cycles: 4,
                    mnemonic: "RLCA",
                    handler: Handler::RlcaRrca,
                },
            ),
            0x0F => Some(
                Instruction {
                    opcode: opcode,
                    cycles: 4,
                    mnemonic: "RRCA",
                    handler: Handler::RlcaRrca,
                },
            ),
            0x17 => Some(
                Instruction {
                    opcode: opcode,
                    cycles: 4,
                    mnemonic: "RLA",
                    handler: Handler::RlaRra,
                },
            ),
            0x1F => Some(
                Instruction {
                    opcode: opcode,
                    cycles: 4,
                    mnemonic: "RRA",
                    handler: Handler::RlaRra,
                },
            ),
            _ => None,
        }
    }

    /// The entry of the prefixed table for `opcode`.
    pub fn lookup_prefixed(opcode: u8) -> (instruction: Instruction)
        ensures
            instruction.handler == spec_prefixed_handler(opcode),
            instruction.opcode == opcode,
            instruction.cycles == 8,
            instruction.mnemonic@ == spec_prefixed_mnemonic(opcode),
    {
        match opcode {
            0x00..=0x07 => Instruction {
                opcode: opcode,
                cycles: 8,
                mnemonic: "RLC r8",
                handler: Handler::RlcRrcR8,
            },
            0x08..=0x0F => Instruction {
                opcode: opcode,
                cycles: 8,
                mnemonic: "RRC r8",
                handler: Handler::RlcRrcR8,
            },
            0x10..=0x17 => Instruction {
                opcode: opcode,
                cycles: 8,
                mnemonic: "RL r8",
                handler: Handler::RlRrR8,
            },
            0x18..=0x1F => Instruction {
                opcode: opcode,
                cycles: 8,
                mnemonic: "RR r8",
                handler: Handler::RlRrR8,
            },
            0x20..=0x27 => Instruction {
                opcode: opcode,
                cycles: 8,
                mnemonic: "SLA r8",
                handler: Handler::SlaSraR8,
            },
            0x28..=0x2F => Instruction {
                opcode: opcode,
                cycles: 8,
                mnemonic: "SRA r8",
                handler: Handler::SlaSraR8,
            },
            0x30..=0x37 => Instruction {
                opcode: opcode,
                cycles: 8,
                mnemonic: "SWAP r8",
                handler: Handler::SwapR8,
            },
            0x38..=0x3F => Instruction {
                opcode: opcode,
                cycles: 8,
                mnemonic: "SRL r8",
                handler: Handler::SrlR8,
            },
            0x40..=0x7F => Instruction {
                opcode: opcode,
                cycles: 8,
                mnemonic: "BIT u3, r8",
                handler: Handler::BitU3R8,
            },
            0x80..=0xBF => Instruction {
                opcode: opcode,
                cycles: 8,
                mnemonic: "RES u3, r8",
                handler: Handler::ResU3R8,
            },
            _ => Instruction {
                opcode: opcode,
                cycles: 8,
                mnemonic: "SET u3, r8",
                handler: Handler::SetU3R8,
            },
        }
    }
}

} // verus!

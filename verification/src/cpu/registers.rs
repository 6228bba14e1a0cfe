//! The register file: eight 8-bit registers, paired into four 16-bit ones,
//! and the stack pointer.

use vstd::prelude::*;
use crate::bits::{lemma_flag_bits, lemma_flags_make_byte, lemma_join, lemma_u16_arith, lemma_u8_arith};

verus! {

/// The operand names of 8-bit instructions. `HL` stands for the byte in
/// memory that the register pair HL points to; it is no register.
#[derive(Clone, Copy, Debug, PartialEq, Eq, Structural)]
pub enum Register8Bit {
    A,
    F,
    B,
    C,
    D,
    E,
    H,
    L,
    HL,
}

#[derive(Clone, Copy, Debug, PartialEq, Eq, Structural)]
pub enum Register16Bit {
    AF,
    BC,
    DE,
    HL,
    SP,
}

/// The four flags, which are the upper four bits of register F.
#[derive(Clone, Copy, Debug, PartialEq, Eq, Structural)]
pub enum Flag {
    /// Bit 7: the result was zero.
    Z,
    /// Bit 6: the operation was a subtraction.
    N,
    /// Bit 5: there was a carry out of the lower nibble.
    H,
    /// Bit 4: there was a carry out of the byte.
    C,
}

impl Flag {
    /// The bit of the flag in register F.
    pub open spec fn spec_mask(self) -> u8 {
        match self {
            Flag::Z => 0x80,
            Flag::N => 0x40,
            Flag::H => 0x20,
            Flag::C => 0x10,
        }
    }

    /// The bit of the flag in register F.
    #[verifier::when_used_as_spec(spec_mask)]
    pub fn mask(self) -> (m: u8)
        ensures
            m == self.spec_mask(),
    {
        match self {
            Flag::Z => 0x80,
            Flag::N => 0x40,
            Flag::H => 0x20,
            Flag::C => 0x10,
        }
    }
}

/// The four flags as values.
#[derive(Clone, Copy, Debug, PartialEq, Eq, Structural)]
pub struct Flags {
    pub z: bool,
    pub n: bool,
    pub h: bool,
    pub c: bool,
}

impl Flags {
    /// The value of register F that holds these flags.
    pub open spec fn spec_pack(self) -> u8 {
        (if self.z {
            0x80u8
        } else {
            0u8
        }) | (if self.n {
            0x40u8
        } else {
            0u8
        }) | (if self.h {
            0x20u8
        } else {
            0u8
        }) | (if self.c {
            0x10u8
        } else {
            0u8
        })
    }

    /// The flags that a value of register F holds.
    pub open spec fn spec_unpack(f: u8) -> Self {
        Flags { z: f & 0x80 != 0, n: f & 0x40 != 0, h: f & 0x20 != 0, c: f & 0x10 != 0 }
    }

    /// The flag named `flag`.
    pub open spec fn get(self, flag: Flag) -> bool {
        match flag {
            Flag::Z => self.z,
            Flag::N => self.n,
            Flag::H => self.h,
            Flag::C => self.c,
        }
    }

    /// These flags with the one named `flag` replaced.
    pub open spec fn with(self, flag: Flag, set: bool) -> Self {
        match flag {
            Flag::Z => Flags { z: set, ..self },
            Flag::N => Flags { n: set, ..self },
            Flag::H => Flags { h: set, ..self },
            Flag::C => Flags { c: set, ..self },
        }
    }

    /// Packing flags into a byte loses nothing, and the byte has an empty low
    /// nibble.
    pub proof fn lemma_pack_unpack(self)
        ensures
            Self::spec_unpack(self.spec_pack()) == self,
            self.spec_pack() & 0x0F == 0,
    {
        lemma_flag_bits(
            if self.z {
                0x80
            } else {
                0
            },
            if self.n {
                0x40
            } else {
                0
            },
            if self.h {
                0x20
            } else {
                0
            },
            if self.c {
                0x10
            } else {
                0
            },
        );
    }

    /// The value of register F that holds these flags.
    #[verifier::when_used_as_spec(spec_pack)]
    pub fn pack(self) -> (f: u8)
        ensures
            f == self.spec_pack(),
            f & 0x0F == 0,
            Self::spec_unpack(f) == self,
    {
        let z: u8 = if self.z {
            0x80
        } else {
            0
        };
        let n: u8 = if self.n {
            0x40
        } else {
            0
        };
        let h: u8 = if self.h {
            0x20
        } else {
            0
        };
        let c: u8 = if self.c {
            0x10
        } else {
            0
        };
        proof {
            lemma_flag_bits(z, n, h, c);
        }
        z | n | h | c
    }

    /// The flags that a value of register F holds.
    pub fn unpack(f: u8) -> (flags: Self)
        ensures
            flags == Self::spec_unpack(f),
            f & 0x0F == 0 ==> flags.spec_pack() == f,
    {
        proof {
            if f & 0x0F == 0 {
                lemma_flags_make_byte(f);
            }
        }
        Flags { z: f & 0x80 != 0, n: f & 0x40 != 0, h: f & 0x20 != 0, c: f & 0x10 != 0 }
    }
}

/// The word with high byte `high` and low byte `low`.
pub open spec fn spec_word(high: u8, low: u8) -> u16 {
    (high * 256 + low) as u16
}

/// The word with high byte `high` and low byte `low`.
#[verifier::when_used_as_spec(spec_word)]
pub fn word(high: u8, low: u8) -> (w: u16)
    ensures
        w == spec_word(high, low),
        w == high * 256 + low,
{
    proof {
        lemma_join(high, low);
    }
    ((high as u16) << 8) | (low as u16)
}

/// The high byte of `w`.
pub fn high_byte(w: u16) -> (high: u8)
    ensures
        high == w / 256,
{
    proof {
        lemma_u16_arith(w);
    }
    (w >> 8) as u8
}

/// The low byte of `w`.
pub fn low_byte(w: u16) -> (low: u8)
    ensures
        low == w % 256,
{
    proof {
        lemma_u16_arith(w);
    }
    (w & 0xFF) as u8
}

pub struct Registers {
    pub a: u8,
    pub f: u8,
    pub b: u8,
    pub c: u8,
    pub d: u8,
    pub e: u8,
    pub h: u8,
    pub l: u8,
    pub sp: u16,
}

impl Registers {
    /// The invariant of the register file: the low nibble of F is zero.
    pub open spec fn wf(&self) -> bool {
        self.f & 0x0F == 0
    }

    /// The registers at power-up.
    pub open spec fn spec_new() -> Self {
        Registers {
            a: 0x01,
            f: 0xB0,
            b: 0x00,
            c: 0x13,
            d: 0x00,
            e: 0xD8,
            h: 0x01,
            l: 0x4D,
            sp: 0xFFFE,
        }
    }

    /// The value of register `reg`. `HL` is no register and reads as 0xFF.
    pub open spec fn spec_get_8bit_reg(&self, reg: Register8Bit) -> u8 {
        match reg {
            Register8Bit::A => self.a,
            Register8Bit::F => self.f,
            Register8Bit::B => self.b,
            Register8Bit::C => self.c,
            Register8Bit::D => self.d,
            Register8Bit::E => self.e,
            Register8Bit::H => self.h,
            Register8Bit::L => self.l,
            Register8Bit::HL => 0xFF,
        }
    }

    /// The registers with `set` in register `reg`. Of a value for F only the
    /// upper nibble is kept; `HL` is no register and nothing changes.
    pub open spec fn spec_set_8bit_reg(self, reg: Register8Bit, set: u8) -> Self {
        match reg {
            Register8Bit::A => Registers { a: set, ..self },
            Register8Bit::F => Registers { f: set & 0xF0, ..self },
            Register8Bit::B => Registers { b: set, ..self },
            Register8Bit::C => Registers { c: set, ..self },
            Register8Bit::D => Registers { d: set, ..self },
            Register8Bit::E => Registers { e: set, ..self },
            Register8Bit::H => Registers { h: set, ..self },
            Register8Bit::L => Registers { l: set, ..self },
            Register8Bit::HL => self,
        }
    }

    /// The value of register pair `reg`: the first register is the high
    /// byte.
    pub open spec fn spec_get_16bit_reg(&self, reg: Register16Bit) -> u16 {
        match reg {
            Register16Bit::AF => spec_word(self.a, self.f),
            Register16Bit::BC => spec_word(self.b, self.c),
            Register16Bit::DE => spec_word(self.d, self.e),
            Register16Bit::HL => spec_word(self.h, self.l),
            Register16Bit::SP => self.sp,
        }
    }

    /// The registers with `write` in register pair `reg`. Of the low byte
    /// of a value for AF only the upper nibble is kept.
    pub open spec fn spec_set_16bit_reg(self, reg: Register16Bit, write: u16) -> Self {
        let high = (write / 256) as u8;
        let low = (write % 256) as u8;
        match reg {
            Register16Bit::AF => Registers { a: high, f: low & 0xF0, ..self },
            Register16Bit::BC => Registers { b: high, c: low, ..self },
            Register16Bit::DE => Registers { d: high, e: low, ..self },
            Register16Bit::HL => Registers { h: high, l: low, ..self },
            Register16Bit::SP => Registers { sp: write, ..self },
        }
    }

    /// The four flags.
    pub open spec fn spec_flags(&self) -> Flags {
        Flags::spec_unpack(self.f)
    }

    /// The registers with `flags` in register F.
    pub open spec fn spec_set_flags(self, flags: Flags) -> Self {
        Registers { f: flags.spec_pack(), ..self }
    }

    /// Whether flag `flag` is set.
    pub open spec fn spec_get_flag(&self, flag: Flag) -> bool {
        self.f & flag.mask() != 0
    }

    /// Whichever register pair is written with whatever value, the low
    /// nibble of F reads back as zero.
    pub proof fn lemma_low_nibble_of_f_is_zero(self, reg: Register16Bit, write: u16)
        requires
            self.wf(),
        ensures
            self.spec_set_16bit_reg(reg, write).spec_get_8bit_reg(Register8Bit::F) & 0x0F == 0,
    {
        lemma_u8_arith((write % 256) as u8);
    }

    /// The registers at power-up.
    pub fn new() -> (registers: Self)
        ensures
            registers == Self::spec_new(),
            registers.wf(),
    {
        proof {
            lemma_flag_bits(0x80, 0, 0x20, 0x10);
            assert(0xB0u8 == 0x80u8 | 0u8 | 0x20u8 | 0x10u8) by (bit_vector);
        }
        Registers {
            a: 0x01,
            f: 0xB0,
            b: 0x00,
            c: 0x13,
            d: 0x00,
            e: 0xD8,
            h: 0x01,
            l: 0x4D,
            sp: 0xFFFE,
        }
    }

    /// Reads a register.
    pub fn get_8bit_reg(&self, reg: Register8Bit) -> (value: u8)
        requires
            reg != Register8Bit::HL,
        ensures
            value == self.spec_get_8bit_reg(reg),
    {
        match reg {
            Register8Bit::A => self.a,
            Register8Bit::F => self.f,
            Register8Bit::B => self.b,
            Register8Bit::C => self.c,
            Register8Bit::D => self.d,
            Register8Bit::E => self.e,
            Register8Bit::H => self.h,
            _ => self.l,
        }
    }

    /// Writes a register. Of a value for F only the upper nibble is kept.
    pub fn set_8bit_reg(&mut self, reg_to_write: Register8Bit, set: u8)
        requires
            reg_to_write != Register8Bit::HL,
        ensures
            *final(self) == old(self).spec_set_8bit_reg(reg_to_write, set),
            final(self).spec_get_8bit_reg(reg_to_write) == (if reg_to_write == Register8Bit::F {
                set & 0xF0
            } else {
                set
            }),
            old(self).wf() ==> final(self).wf(),
            reg_to_write == Register8Bit::F ==> final(self).wf(),
    {
        proof {
            lemma_u8_arith(set);
        }
        match reg_to_write {
            Register8Bit::A => self.a = set,
            Register8Bit::F => self.f = set & 0xF0,
            Register8Bit::B => self.b = set,
            Register8Bit::C => self.c = set,
            Register8Bit::D => self.d = set,
            Register8Bit::E => self.e = set,
            Register8Bit::H => self.h = set,
            _ => self.l = set,
        }
    }

    /// Reads a register pair.
    pub fn get_16bit_reg(&self, reg: Register16Bit) -> (value: u16)
        ensures
            value == self.spec_get_16bit_reg(reg),
    {
        match reg {
            Register16Bit::AF => word(self.a, self.f),
            Register16Bit::BC => word(self.b, self.c),
            Register16Bit::DE => word(self.d, self.e),
            Register16Bit::HL => word(self.h, self.l),
            Register16Bit::SP => self.sp,
        }
    }

    /// Writes a register pair. Whatever is written, the low nibble of F
    /// reads back as zero.
    pub fn set_16bit_reg(&mut self, reg: Register16Bit, write: u16)
        ensures
            *final(self) == old(self).spec_set_16bit_reg(reg, write),
            reg != Register16Bit::AF ==> final(self).spec_get_16bit_reg(reg) == write,
            reg == Register16Bit::AF ==> final(self).wf(),
            old(self).wf() ==> final(self).wf(),
    {
        let high = high_byte(write);
        let low = low_byte(write);
        proof {
            lemma_u8_arith(low);
        }
        match reg {
            Register16Bit::SP => {
                self.sp = write;
            },
            Register16Bit::AF => {
                self.a = high;
                self.f = low & 0xF0;
            },
            Register16Bit::BC => {
                self.b = high;
                self.c = low;
            },
            Register16Bit::DE => {
                self.d = high;
                self.e = low;
            },
            Register16Bit::HL => {
                self.h = high;
                self.l = low;
            },
        }
    }

    /// Whether flag `flag` is set.
    #[verifier::when_used_as_spec(spec_get_flag)]
    pub fn get_flag(&self, flag: Flag) -> (set: bool)
        ensures
            set == self.spec_get_flag(flag),
            set == self.spec_flags().get(flag),
    {
        self.f & flag.mask() != 0
    }

    /// Sets or clears flag `flag`.
    pub fn set_flag(&mut self, flag: Flag, set: bool)
        requires
            old(self).wf(),
        ensures
            *final(self) == old(self).spec_set_flags(old(self).spec_flags().with(flag, set)),
            final(self).spec_flags() == old(self).spec_flags().with(flag, set),
            final(self).wf(),
    {
        let mut flags = Flags::unpack(self.f);
        match flag {
            Flag::Z => flags.z = set,
            Flag::N => flags.n = set,
            Flag::H => flags.h = set,
            Flag::C => flags.c = set,
        }
        self.f = flags.pack();
    }

    /// The four flags.
    #[verifier::when_used_as_spec(spec_flags)]
    pub fn flags(&self) -> (flags: Flags)
        ensures
            flags == self.spec_flags(),
    {
        Flags::unpack(self.f)
    }

    /// Replaces all four flags.
    pub fn set_flags(&mut self, flags: Flags)
        ensures
            *final(self) == old(self).spec_set_flags(flags),
            final(self).spec_flags() == flags,
            final(self).wf(),
    {
        self.f = flags.pack();
    }
}

impl Register16Bit {
    /// The register pair that the two-bit operand field `r16` names.
    pub open spec fn spec_from_r16(r16: u8) -> Self {
        if r16 == 0 {
            Register16Bit::BC
        } else if r16 == 1 {
            Register16Bit::DE
        } else if r16 == 2 {
            Register16Bit::HL
        } else {
            Register16Bit::SP
        }
    }

    /// The register pair that the operand field `r16mem` of a load through
    /// a pointer names, and what is added to the pair after the load: HL can
    /// be moved on or back by one.
    pub open spec fn spec_from_r16mem(r16mem: u8) -> (Self, i8) {
        if r16mem == 0 {
            (Register16Bit::BC, 0i8)
        } else if r16mem == 1 {
            (Register16Bit::DE, 0i8)
        } else if r16mem == 2 {
            (Register16Bit::HL, 1i8)
        } else {
            (Register16Bit::HL, -1i8)
        }
    }

    /// The register pair that the operand field `r16stk` of a push or pop
    /// names.
    pub open spec fn spec_from_r16stk(r16stk: u8) -> Self {
        if r16stk == 0 {
            Register16Bit::BC
        } else if r16stk == 1 {
            Register16Bit::DE
        } else if r16stk == 2 {
            Register16Bit::HL
        } else {
            Register16Bit::AF
        }
    }

    /// The register pair that the two-bit operand field `r16` names.
    #[verifier::when_used_as_spec(spec_from_r16)]
    pub fn from_r16(r16: u8) -> (reg: Self)
        requires
            r16 < 4,
        ensures
            reg == Self::spec_from_r16(r16),
    {
        match r16 {
            0 => Register16Bit::BC,
            1 => Register16Bit::DE,
            2 => Register16Bit::HL,
            _ => Register16Bit::SP,
        }
    }

    /// The register pair that the operand field `r16mem` names, and the step
    /// by which it moves afterwards.
    #[verifier::when_used_as_spec(spec_from_r16mem)]
    pub fn from_r16mem(r16mem: u8) -> (reg: (Self, i8))
        requires
            r16mem < 4,
        ensures
            reg == Self::spec_from_r16mem(r16mem),
    {
        match r16mem {
            0 => (Register16Bit::BC, 0),
            1 => (Register16Bit::DE, 0),
            2 => (Register16Bit::HL, 1),
            _ => (Register16Bit::HL, -1),
        }
    }

    /// The register pair that the operand field `r16stk` of a push or pop
    /// names.
    #[verifier::when_used_as_spec(spec_from_r16stk)]
    pub fn from_r16stk(r16stk: u8) -> (reg: Self)
        requires
            r16stk < 4,
        ensures
            reg == Self::spec_from_r16stk(r16stk),
    {
        match r16stk {
            0 => Register16Bit::BC,
            1 => Register16Bit::DE,
            2 => Register16Bit::HL,
            _ => Register16Bit::AF,
        }
    }
}

impl Register8Bit {
    /// The operand that the three-bit operand field `r8` names.
    pub open spec fn spec_from_r8(r8: u8) -> Self {
        if r8 == 0 {
            Register8Bit::B
        } else if r8 == 1 {
            Register8Bit::C
        } else if r8 == 2 {
            Register8Bit::D
        } else if r8 == 3 {
            Register8Bit::E
        } else if r8 == 4 {
            Register8Bit::H
        } else if r8 == 5 {
            Register8Bit::L
        } else if r8 == 6 {
            Register8Bit::HL
        } else {
            Register8Bit::A
        }
    }

    /// The operand that the three-bit operand field `r8` names.
    #[verifier::when_used_as_spec(spec_from_r8)]
    pub fn from_r8(r8: u8) -> (reg: Self)
        requires
            r8 < 8,
        ensures
            reg == Self::spec_from_r8(r8),
            reg != Register8Bit::F,
    {
        match r8 {
            0 => Register8Bit::B,
            1 => Register8Bit::C,
            2 => Register8Bit::D,
            3 => Register8Bit::E,
            4 => Register8Bit::H,
            5 => Register8Bit::L,
            6 => Register8Bit::HL,
            _ => Register8Bit::A,
        }
    }
}

} // verus!

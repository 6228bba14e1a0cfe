//! The arithmetic and logic of the processor, as functions from operands to
//! a result and the flags.

use vstd::prelude::*;
use vstd::arithmetic::div_mod::lemma_fundamental_div_mod_converse;
use crate::bits::{lemma_join, lemma_u16_arith, lemma_u8_arith};
use crate::cpu::registers::Flags;

verus! {

/// 1 for a set carry, 0 for a clear one.
pub open spec fn carry_value(carry: bool) -> int {
    if carry {
        1
    } else {
        0
    }
}

/// The number that byte `e` stands for as a signed offset.
pub open spec fn spec_signed(e: u8) -> int {
    if e >= 128 {
        e - 256
    } else {
        e as int
    }
}

/// `base` moved by the signed offset `e`, wrapping around the address space.
pub open spec fn spec_offset_by(base: u16, e: u8) -> u16 {
    ((base + spec_signed(e) + 65536) % 65536) as u16
}

/// The sum of two bytes and a carry: the result is the sum modulo 256, H is
/// the carry out of the low nibbles and C the carry out of the byte.
pub open spec fn spec_add8(a: u8, b: u8, carry: bool) -> (u8, Flags) {
    let sum = a + b + carry_value(carry);
    (
        (sum % 256) as u8,
        Flags {
            z: sum % 256 == 0,
            n: false,
            h: a % 16 + b % 16 + carry_value(carry) > 15,
            c: sum > 255,
        },
    )
}

/// The difference of two bytes and a borrow: the result is the difference
/// modulo 256, H is the borrow from the high nibble and C the borrow out of
/// the byte.
pub open spec fn spec_sub8(a: u8, b: u8, borrow: bool) -> (u8, Flags) {
    let difference = a - b - carry_value(borrow);
    (
        ((difference + 256) % 256) as u8,
        Flags {
            z: (difference + 256) % 256 == 0,
            n: true,
            h: a % 16 < b % 16 + carry_value(borrow),
            c: difference < 0,
        },
    )
}

/// The flags of a logic operation with result `value`; AND sets H.
pub open spec fn spec_logic_flags(value: u8, h: bool) -> Flags {
    Flags { z: value == 0, n: false, h: h, c: false }
}

/// A byte plus one; C keeps its value.
pub open spec fn spec_inc8(v: u8, flags: Flags) -> (u8, Flags) {
    (((v + 1) % 256) as u8, Flags { z: v == 255, n: false, h: v % 16 == 15, c: flags.c })
}

/// A byte minus one; C keeps its value.
pub open spec fn spec_dec8(v: u8, flags: Flags) -> (u8, Flags) {
    (((v + 255) % 256) as u8, Flags { z: v == 1, n: true, h: v % 16 == 0, c: flags.c })
}

/// The sum of two words: H is the carry out of bit 11 and C the carry out of
/// the word; Z keeps its value.
pub open spec fn spec_add16(a: u16, b: u16, flags: Flags) -> (u16, Flags) {
    (
        ((a + b) % 65536) as u16,
        Flags { z: flags.z, n: false, h: a % 4096 + b % 4096 > 4095, c: a + b > 65535 },
    )
}

/// The difference of two words: H is the borrow from bit 12 and C the borrow
/// out of the word.
pub open spec fn spec_sub16(a: u16, b: u16) -> (u16, Flags) {
    (
        ((a - b + 65536) % 65536) as u16,
        Flags { z: a == b, n: true, h: a % 4096 < b % 4096, c: a < b },
    )
}

/// The stack pointer moved by a signed offset: H and C are the carries out
/// of bit 3 and bit 7 of the sum of the low byte and the offset byte.
pub open spec fn spec_add_sp(sp: u16, e: u8) -> (u16, Flags) {
    (
        spec_offset_by(sp, e),
        Flags { z: false, n: false, h: sp % 16 + e % 16 > 15, c: sp % 256 + e > 255 },
    )
}

/// The correction that makes the accumulator a packed decimal number again
/// after an addition or subtraction of two such numbers: 0x06 for the low
/// digit if H is set or, after an addition, the digit is above 9; 0x60 for
/// the high digit if C is set or, after an addition, the value is above 0x99.
pub open spec fn spec_daa_offset(a: u8, flags: Flags) -> int {
    (if (!flags.n && a % 16 > 9) || flags.h {
        0x06int
    } else {
        0int
    }) + (if (!flags.n && a > 0x99) || flags.c {
        0x60int
    } else {
        0int
    })
}

/// Decimal adjust: the correction is added after an addition and subtracted
/// after a subtraction. H is cleared, and C tells whether the high digit was
/// corrected.
pub open spec fn spec_daa(a: u8, flags: Flags) -> (u8, Flags) {
    let offset = spec_daa_offset(a, flags);
    let value = if flags.n {
        (a - offset + 256) % 256
    } else {
        (a + offset) % 256
    };
    (value as u8, Flags { z: value == 0, n: flags.n, h: false, c: offset >= 0x60 })
}

/// Rotate left: bit 7 moves to bit 0 and to C.
pub open spec fn spec_rlc(v: u8) -> (u8, Flags) {
    let value = ((v % 128) * 2 + v / 128) as u8;
    (value, Flags { z: value == 0, n: false, h: false, c: v >= 128 })
}

/// Rotate right: bit 0 moves to bit 7 and to C.
pub open spec fn spec_rrc(v: u8) -> (u8, Flags) {
    let value = (v / 2 + (v % 2) * 128) as u8;
    (value, Flags { z: value == 0, n: false, h: false, c: v % 2 == 1 })
}

/// Rotate left through carry: C moves to bit 0 and bit 7 to C.
pub open spec fn spec_rl(v: u8, carry: bool) -> (u8, Flags) {
    let value = ((v % 128) * 2 + carry_value(carry)) as u8;
    (value, Flags { z: value == 0, n: false, h: false, c: v >= 128 })
}

/// Rotate right through carry: C moves to bit 7 and bit 0 to C.
pub open spec fn spec_rr(v: u8, carry: bool) -> (u8, Flags) {
    let value = (v / 2 + carry_value(carry) * 128) as u8;
    (value, Flags { z: value == 0, n: false, h: false, c: v % 2 == 1 })
}

/// Shift left: bit 7 moves to C and bit 0 is cleared.
pub open spec fn spec_sla(v: u8) -> (u8, Flags) {
    let value = ((v % 128) * 2) as u8;
    (value, Flags { z: value == 0, n: false, h: false, c: v >= 128 })
}

/// Arithmetic shift right: bit 0 moves to C and bit 7 stays.
pub open spec fn spec_sra(v: u8) -> (u8, Flags) {
    let value = (v / 2 + (v / 128) * 128) as u8;
    (value, Flags { z: value == 0, n: false, h: false, c: v % 2 == 1 })
}

/// Logical shift right: bit 0 moves to C and bit 7 is cleared.
pub open spec fn spec_srl(v: u8) -> (u8, Flags) {
    let value = v / 2;
    (value, Flags { z: value == 0, n: false, h: false, c: v % 2 == 1 })
}

/// The two nibbles exchanged.
pub open spec fn spec_swap(v: u8) -> (u8, Flags) {
    let value = ((v % 16) * 16 + v / 16) as u8;
    (value, Flags { z: value == 0, n: false, h: false, c: false })
}

/// The flags after bit `index` of `v` is tested: Z is set if the bit is clear;
/// C keeps its value.
pub open spec fn spec_bit(v: u8, index: u8, flags: Flags) -> Flags {
    Flags { z: v & (1u8 << index) == 0, n: false, h: true, c: flags.c }
}

/// `v` with bit `index` cleared.
pub open spec fn spec_res(v: u8, index: u8) -> u8 {
    v & !(1u8 << index)
}

/// `v` with bit `index` set.
pub open spec fn spec_set(v: u8, index: u8) -> u8 {
    v | (1u8 << index)
}

/// The number that the two decimal digits packed in `v` stand for.
pub open spec fn spec_decimal(v: u8) -> int {
    (v / 16) * 10 + v % 16
}

/// Whether `v` holds two decimal digits.
pub open spec fn is_packed_decimal(v: u8) -> bool {
    v / 16 <= 9 && v % 16 <= 9
}

/// `base` moved by the signed offset `e`, wrapping around the address space.
#[verifier::when_used_as_spec(spec_offset_by)]
pub fn offset_by(base: u16, e: u8) -> (moved: u16)
    ensures
        moved == spec_offset_by(base, e),
{
    if e < 128 {
        base.wrapping_add(e as u16)
    } else {
        base.wrapping_sub(256 - e as u16)
    }
}

/// Adds two bytes and a carry.
#[verifier::when_used_as_spec(spec_add8)]
pub fn add8(a: u8, b: u8, carry: bool) -> (r: (u8, Flags))
    ensures
        r == spec_add8(a, b, carry),
{
    let carry_in: u8 = if carry {
        1
    } else {
        0
    };
    proof {
        lemma_u8_arith(a);
        lemma_u8_arith(b);
    }
    let value = a.wrapping_add(b).wrapping_add(carry_in);
    (
        value,
        Flags {
            z: value == 0,
            n: false,
            h: (a & 0xF) + (b & 0xF) + carry_in > 0xF,
            c: a as u16 + b as u16 + carry_in as u16 > 0xFF,
        },
    )
}

/// Subtracts a byte and a borrow from a byte.
#[verifier::when_used_as_spec(spec_sub8)]
pub fn sub8(a: u8, b: u8, borrow: bool) -> (r: (u8, Flags))
    ensures
        r == spec_sub8(a, b, borrow),
{
    let borrow_in: u8 = if borrow {
        1
    } else {
        0
    };
    proof {
        lemma_u8_arith(a);
        lemma_u8_arith(b);
    }
    let value = a.wrapping_sub(b).wrapping_sub(borrow_in);
    (
        value,
        Flags {
            z: value == 0,
            n: true,
            h: (a & 0xF) < (b & 0xF) + borrow_in,
            c: (a as u16) < b as u16 + borrow_in as u16,
        },
    )
}

/// Adds one to a byte; C keeps its value.
#[verifier::when_used_as_spec(spec_inc8)]
pub fn inc8(v: u8, flags: Flags) -> (r: (u8, Flags))
    ensures
        r == spec_inc8(v, flags),
{
    let (value, new_flags) = add8(v, 1, false);
    (value, Flags { c: flags.c, ..new_flags })
}

/// Subtracts one from a byte; C keeps its value.
#[verifier::when_used_as_spec(spec_dec8)]
pub fn dec8(v: u8, flags: Flags) -> (r: (u8, Flags))
    ensures
        r == spec_dec8(v, flags),
{
    let (value, new_flags) = sub8(v, 1, false);
    (value, Flags { c: flags.c, ..new_flags })
}

/// Adds two words; Z keeps its value.
#[verifier::when_used_as_spec(spec_add16)]
pub fn add16(a: u16, b: u16, flags: Flags) -> (r: (u16, Flags))
    ensures
        r == spec_add16(a, b, flags),
{
    proof {
        lemma_u16_arith(a);
        lemma_u16_arith(b);
    }
    (
        a.wrapping_add(b),
        Flags {
            z: flags.z,
            n: false,
            h: (a & 0xFFF) + (b & 0xFFF) > 0xFFF,
            c: a as u32 + b as u32 > 0xFFFF,
        },
    )
}

/// Subtracts a word from a word.
#[verifier::when_used_as_spec(spec_sub16)]
pub fn sub16(a: u16, b: u16) -> (r: (u16, Flags))
    ensures
        r == spec_sub16(a, b),
{
    proof {
        lemma_u16_arith(a);
        lemma_u16_arith(b);
    }
    (a.wrapping_sub(b), Flags { z: a == b, n: true, h: (a & 0xFFF) < (b & 0xFFF), c: a < b })
}

/// Moves the stack pointer by a signed offset.
#[verifier::when_used_as_spec(spec_add_sp)]
pub fn add_sp(sp: u16, e: u8) -> (r: (u16, Flags))
    ensures
        r == spec_add_sp(sp, e),
{
    proof {
        lemma_u16_arith(sp);
        lemma_u8_arith(e);
    }
    (
        offset_by(sp, e),
        Flags {
            z: false,
            n: false,
            h: (sp & 0xF) + (e & 0xF) as u16 > 0xF,
            c: (sp & 0xFF) + e as u16 > 0xFF,
        },
    )
}

/// Adjusts the accumulator to packed decimal.
#[verifier::when_used_as_spec(spec_daa)]
pub fn daa(a: u8, flags: Flags) -> (r: (u8, Flags))
    ensures
        r == spec_daa(a, flags),
{
    let mut offset: u8 = 0;
    let mut should_carry = false;
    proof {
        lemma_u8_arith(a);
    }
    let low_digit = a & 0x0F;
    assert(low_digit == a % 16);
    if (!flags.n && low_digit > 0x09) || flags.h {
        offset += 0x06;
    }
    if (!flags.n && a > 0x99) || flags.c {
        offset += 0x60;
        should_carry = true;
    }
    assert(offset == spec_daa_offset(a, flags));
    let value = if flags.n {
        a.wrapping_sub(offset)
    } else {
        a.wrapping_add(offset)
    };
    assert(value == spec_daa(a, flags).0) by {
        if flags.n {
            if a - offset < 0 {
                assert((a - offset + 256) % 256 == a - offset + 256);
            } else {
                assert((a - offset + 256) % 256 == a - offset);
            }
        } else {
            if a + offset > 255 {
                assert((a + offset) % 256 == a + offset - 256);
            } else {
                assert((a + offset) % 256 == a + offset);
            }
        }
    }
    (value, Flags { z: value == 0, n: flags.n, h: false, c: should_carry })
}

/// Rotates left.
#[verifier::when_used_as_spec(spec_rlc)]
pub fn rlc(v: u8) -> (r: (u8, Flags))
    ensures
        r == spec_rlc(v),
{
    proof {
        lemma_u8_arith(v);
        lemma_join(v, v);
    }
    let value = (v << 1) | (v >> 7);
    (value, Flags { z: value == 0, n: false, h: false, c: v & 0x80 != 0 })
}

/// Rotates right.
#[verifier::when_used_as_spec(spec_rrc)]
pub fn rrc(v: u8) -> (r: (u8, Flags))
    ensures
        r == spec_rrc(v),
{
    proof {
        lemma_u8_arith(v);
        lemma_join(v, v);
    }
    let value = (v >> 1) | ((v & 0x01) << 7);
    (value, Flags { z: value == 0, n: false, h: false, c: v & 0x01 != 0 })
}

/// Rotates left through carry.
#[verifier::when_used_as_spec(spec_rl)]
pub fn rl(v: u8, carry: bool) -> (r: (u8, Flags))
    ensures
        r == spec_rl(v, carry),
{
    let carry_in: u8 = if carry {
        0x80
    } else {
        0
    };
    proof {
        lemma_u8_arith(v);
        lemma_join(v, carry_in);
    }
    let value = (v << 1) | (carry_in >> 7);
    (value, Flags { z: value == 0, n: false, h: false, c: v & 0x80 != 0 })
}

/// Rotates right through carry.
#[verifier::when_used_as_spec(spec_rr)]
pub fn rr(v: u8, carry: bool) -> (r: (u8, Flags))
    ensures
        r == spec_rr(v, carry),
{
    let carry_in: u8 = if carry {
        1
    } else {
        0
    };
    proof {
        lemma_u8_arith(v);
        lemma_join(v, carry_in);
    }
    let value = (v >> 1) | ((carry_in & 0x01) << 7);
    (value, Flags { z: value == 0, n: false, h: false, c: v & 0x01 != 0 })
}

/// Shifts left.
#[verifier::when_used_as_spec(spec_sla)]
pub fn sla(v: u8) -> (r: (u8, Flags))
    ensures
        r == spec_sla(v),
{
    proof {
        lemma_u8_arith(v);
    }
    let value = v << 1;
    (value, Flags { z: value == 0, n: false, h: false, c: v & 0x80 != 0 })
}

/// Shifts right and keeps bit 7.
#[verifier::when_used_as_spec(spec_sra)]
pub fn sra(v: u8) -> (r: (u8, Flags))
    ensures
        r == spec_sra(v),
{
    proof {
        lemma_u8_arith(v);
        lemma_join(v, v);
    }
    let value = (v >> 1) | (v & 0x80);
    (value, Flags { z: value == 0, n: false, h: false, c: v & 0x01 != 0 })
}

/// Shifts right and clears bit 7.
#[verifier::when_used_as_spec(spec_srl)]
pub fn srl(v: u8) -> (r: (u8, Flags))
    ensures
        r == spec_srl(v),
{
    proof {
        lemma_u8_arith(v);
    }
    let value = v >> 1;
    (value, Flags { z: value == 0, n: false, h: false, c: v & 0x01 != 0 })
}

/// Exchanges the two nibbles.
#[verifier::when_used_as_spec(spec_swap)]
pub fn swap(v: u8) -> (r: (u8, Flags))
    ensures
        r == spec_swap(v),
{
    proof {
        lemma_u8_arith(v);
        lemma_join(v, v);
    }
    let value = ((v & 0x0F) << 4) | ((v & 0xF0) >> 4);
    (value, Flags { z: value == 0, n: false, h: false, c: false })
}

/// Tests bit `index` of `v`.
#[verifier::when_used_as_spec(spec_bit)]
pub fn test_bit(v: u8, index: u8, flags: Flags) -> (r: Flags)
    requires
        index < 8,
    ensures
        r == spec_bit(v, index, flags),
{
    Flags { z: v & (1u8 << index) == 0, n: false, h: true, c: flags.c }
}

/// Clears bit `index` of `v`.
#[verifier::when_used_as_spec(spec_res)]
pub fn reset_bit(v: u8, index: u8) -> (r: u8)
    requires
        index < 8,
    ensures
        r == spec_res(v, index),
{
    v & !(1u8 << index)
}

/// Sets bit `index` of `v`.
#[verifier::when_used_as_spec(spec_set)]
pub fn set_bit(v: u8, index: u8) -> (r: u8)
    requires
        index < 8,
    ensures
        r == spec_set(v, index),
{
    v | (1u8 << index)
}

/// A number with quotient `q` and remainder `r` on division by `d` has
/// exactly these.
proof fn lemma_div_mod_is(x: int, d: int, q: int, r: int)
    requires
        d > 0,
        0 <= r < d,
        x == q * d + r,
    ensures
        x / d == q,
        x % d == r,
{
    lemma_fundamental_div_mod_converse(x, d, q, r);
}

/// The arithmetic behind decimal adjust after an addition: `low` is the sum
/// of the low digits and the carry, `high` the sum of the high digits.
proof fn lemma_daa_add_digits(low: int, high: int)
    requires
        0 <= low <= 19,
        0 <= high <= 18,
    ensures
        ({
            let raw = 16 * high + low;
            let sum = raw % 256;
            let total = 10 * high + low;
            let offset = (if sum % 16 > 9 || low > 15 {
                6int
            } else {
                0int
            }) + (if sum > 0x99 || raw > 255 {
                0x60int
            } else {
                0int
            });
            let adjusted = (sum + offset) % 256;
            &&& adjusted / 16 <= 9
            &&& adjusted % 16 <= 9
            &&& (adjusted / 16) * 10 + adjusted % 16 == total % 100
            &&& (offset >= 0x60) == (total >= 100)
            &&& (adjusted == 0) == (total % 100 == 0)
        }),
{
    let raw = 16 * high + low;
    let wrapped: int = if raw > 255 {
        1
    } else {
        0
    };
    let sum = raw - 256 * wrapped;
    lemma_div_mod_is(raw, 256, wrapped, sum);
    let nibble_carry: int = if low > 15 {
        1
    } else {
        0
    };
    lemma_div_mod_is(sum, 16, high + nibble_carry - 16 * wrapped, low - 16 * nibble_carry);
    let carry: int = if low >= 10 {
        1
    } else {
        0
    };
    let tens = high + carry;
    let hundreds: int = if tens >= 10 {
        1
    } else {
        0
    };
    let digit = low - 10 * carry;
    let top = tens - 10 * hundreds;
    let offset = 6 * carry + 0x60 * hundreds;
    let adjusted = 16 * top + digit;
    lemma_div_mod_is(sum + offset, 256, hundreds - wrapped, adjusted);
    lemma_div_mod_is(adjusted, 16, top, digit);
    lemma_div_mod_is(10 * high + low, 100, hundreds, 10 * top + digit);
}

/// The arithmetic behind decimal adjust after a subtraction: `low` is the
/// difference of the low digits less the borrow, `high` the difference of the
/// high digits.
proof fn lemma_daa_sub_digits(low: int, high: int)
    requires
        -10 <= low <= 9,
        -9 <= high <= 9,
    ensures
        ({
            let raw = 16 * high + low;
            let difference = (raw + 256) % 256;
            let total = 10 * high + low;
            let offset = (if low < 0 {
                6int
            } else {
                0int
            }) + (if raw < 0 {
                0x60int
            } else {
                0int
            });
            let adjusted = (difference - offset + 256) % 256;
            &&& adjusted / 16 <= 9
            &&& adjusted % 16 <= 9
            &&& (adjusted / 16) * 10 + adjusted % 16 == (total + 100) % 100
            &&& (offset >= 0x60) == (total < 0)
            &&& (adjusted == 0) == ((total + 100) % 100 == 0)
        }),
{
    let raw = 16 * high + low;
    let wrapped: int = if raw < 0 {
        1
    } else {
        0
    };
    let difference = raw + 256 * wrapped;
    lemma_div_mod_is(raw + 256, 256, 1 - wrapped, difference);
    let borrow: int = if low < 0 {
        1
    } else {
        0
    };
    let tens = high - borrow;
    let digit = low + 10 * borrow;
    let top = tens + 10 * wrapped;
    let offset = 6 * borrow + 0x60 * wrapped;
    let adjusted = 16 * top + digit;
    lemma_div_mod_is(difference - offset + 256, 256, 1, adjusted);
    lemma_div_mod_is(adjusted, 16, top, digit);
    lemma_div_mod_is(10 * high + low + 100, 100, 1 - wrapped, 10 * top + digit);
}

/// Decimal adjust after an addition of packed decimal numbers gives their
/// decimal sum: the result holds the two low digits of the sum, and C is the
/// hundreds digit.
pub proof fn lemma_daa_after_add(a: u8, b: u8, carry: bool)
    requires
        is_packed_decimal(a),
        is_packed_decimal(b),
    ensures
        ({
            let (sum, flags) = spec_add8(a, b, carry);
            let (adjusted, adjusted_flags) = spec_daa(sum, flags);
            let total = spec_decimal(a) + spec_decimal(b) + carry_value(carry);
            &&& is_packed_decimal(adjusted)
            &&& spec_decimal(adjusted) == total % 100
            &&& adjusted_flags.c == (total >= 100)
            &&& adjusted_flags.z == (total % 100 == 0)
        }),
{
    lemma_daa_add_digits(a % 16 + b % 16 + carry_value(carry), a / 16 + b / 16);
    assert(a == 16 * (a / 16) + a % 16);
    assert(b == 16 * (b / 16) + b % 16);
}

/// Decimal adjust after a subtraction of packed decimal numbers gives their
/// decimal difference: the result holds the two digits of the difference
/// modulo 100, and C tells that the difference was negative.
pub proof fn lemma_daa_after_sub(a: u8, b: u8, borrow: bool)
    requires
        is_packed_decimal(a),
        is_packed_decimal(b),
    ensures
        ({
            let (difference, flags) = spec_sub8(a, b, borrow);
            let (adjusted, adjusted_flags) = spec_daa(difference, flags);
            let total = spec_decimal(a) - spec_decimal(b) - carry_value(borrow);
            &&& is_packed_decimal(adjusted)
            &&& spec_decimal(adjusted) == (total + 100) % 100
            &&& adjusted_flags.c == (total < 0)
            &&& adjusted_flags.z == ((total + 100) % 100 == 0)
        }),
{
    lemma_daa_sub_digits(a % 16 - b % 16 - carry_value(borrow), a / 16 - b / 16);
    assert(a == 16 * (a / 16) + a % 16);
    assert(b == 16 * (b / 16) + b % 16);
}

/// A byte minus itself is zero, with Z and N set and H and C clear.
pub proof fn lemma_sub_self(a: u8)
    ensures
        spec_sub8(a, a, false) == (0u8, Flags { z: true, n: true, h: false, c: false }),
{
}

} // verus!

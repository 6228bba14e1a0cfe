//! Facts about bitwise operations on bytes and words that the rest of the
//! crate relies on. Each is discharged by the bit-vector solver.

use vstd::prelude::*;

verus! {

/// Setting one bit makes that bit read as set and leaves every other
/// single-bit test unchanged.
pub proof fn lemma_set_bit(x: u8, m: u8, k: u8)
    by (bit_vector)
    requires
        m == 0x01 || m == 0x02 || m == 0x04 || m == 0x08 || m == 0x10 || m == 0x20 || m == 0x40
            || m == 0x80,
        k == 0x01 || k == 0x02 || k == 0x04 || k == 0x08 || k == 0x10 || k == 0x20 || k == 0x40
            || k == 0x80,
    ensures
        (x | m) & m != 0,
        m != k ==> (((x | m) & k != 0) <==> (x & k != 0)),
{
}

/// Clearing one bit makes that bit read as clear and leaves every other
/// single-bit test unchanged.
pub proof fn lemma_clear_bit(x: u8, m: u8, k: u8)
    by (bit_vector)
    requires
        m == 0x01 || m == 0x02 || m == 0x04 || m == 0x08 || m == 0x10 || m == 0x20 || m == 0x40
            || m == 0x80,
        k == 0x01 || k == 0x02 || k == 0x04 || k == 0x08 || k == 0x10 || k == 0x20 || k == 0x40
            || k == 0x80,
    ensures
        (x & !m) & m == 0,
        m != k ==> (((x & !m) & k != 0) <==> (x & k != 0)),
{
}

/// A bit is set in `a & b` exactly when it is set in both.
pub proof fn lemma_and_test(a: u8, b: u8, m: u8)
    by (bit_vector)
    requires
        m == 0x01 || m == 0x02 || m == 0x04 || m == 0x08 || m == 0x10,
    ensures
        ((a & b) & m != 0) <==> (a & m != 0 && b & m != 0),
{
}

/// Bounds of the bit fields that the registers of this machine are cut into.
pub proof fn lemma_byte_fields(x: u8)
    by (bit_vector)
    ensures
        x >> 1 <= 0x7F,
        x >> 2 <= 0x3F,
        x >> 3 <= 0x1F,
        x >> 4 <= 0x0F,
        x >> 5 <= 0x07,
        x >> 6 <= 0x03,
        x >> 7 <= 0x01,
        x & 0x01 <= 0x01,
        x & 0x03 <= 0x03,
        x & 0x07 <= 0x07,
        x & 0x0F <= 0x0F,
        x & 0x1F <= 0x1F,
        x & 0x3F <= 0x3F,
        x & 0x7F <= 0x7F,
        (x >> 1) & 0x01 <= 0x01,
        (x >> 2) & 0x03 <= 0x03,
        (x >> 3) & 0x07 <= 0x07,
        (x >> 4) & 0x03 <= 0x03,
        (x >> 4) & 0x07 <= 0x07,
        (x >> 5) & 0x03 <= 0x03,
        (x >> 6) & 0x01 <= 0x01,
        (x >> 6) & 0x03 <= 0x03,
        (x >> 7) & 0x01 <= 0x01,
{
}

/// An 11-bit period stays within 11 bits when either of its two halves is
/// replaced by a written byte.
pub proof fn lemma_period_bits(f: u16, w: u8)
    by (bit_vector)
    ensures
        (f & 0x700) | (w as u16) <= 0x7FF,
        (f & 0xFF) | (((w & 0x7) as u16) << 8) <= 0x7FF,
{
}

/// Shifting a word to the right never makes it larger.
pub proof fn lemma_shr_le(x: u16, n: u8)
    by (bit_vector)
    requires
        n <= 15,
    ensures
        x >> n <= x,
{
}

/// A 4-bit sample stays a 4-bit sample when it is shifted right.
pub proof fn lemma_nibble_shr(x: u8, s: u8)
    by (bit_vector)
    requires
        s <= 7,
    ensures
        ((x >> 4) & 0xF) >> s <= 15,
        ((x >> 0) & 0xF) >> s <= 15,
{
}

/// The lowest bit of a word, read directly or from its complement, is 0 or 1.
pub proof fn lemma_low_bit(x: u16)
    by (bit_vector)
    ensures
        x & 0x1 <= 1,
        !x & 0x1 <= 1,
{
}

/// A byte is the union of its four two-bit fields, each put back in place.
pub proof fn lemma_palette_bits(w: u8)
    by (bit_vector)
    ensures
        (w & 0x3) | (((w >> 2) & 0x3) << 2) | (((w >> 4) & 0x3) << 4) | (((w >> 6) & 0x3) << 6)
            == w,
{
}

/// A byte is the union of its eight bits.
pub proof fn lemma_lcdc_bits(w: u8)
    by (bit_vector)
    ensures
        (if w & 0x01 != 0 { 0x01u8 } else { 0u8 }) | (if w & 0x02 != 0 { 0x02u8 } else { 0u8 })
            | (if w & 0x04 != 0 { 0x04u8 } else { 0u8 }) | (if w & 0x08 != 0 { 0x08u8 } else { 0u8 })
            | (if w & 0x10 != 0 { 0x10u8 } else { 0u8 }) | (if w & 0x20 != 0 { 0x20u8 } else { 0u8 })
            | (if w & 0x40 != 0 { 0x40u8 } else { 0u8 }) | (if w & 0x80 != 0 { 0x80u8 } else { 0u8 })
            == w,
{
}

/// How the shifts and masks of a byte read as arithmetic.
pub proof fn lemma_u8_arith(v: u8)
    by (bit_vector)
    ensures
        v & 0x0F == v % 16,
        v & 0xF0 == (v / 16) * 16,
        v >> 4 == v / 16,
        v >> 1 == v / 2,
        v >> 7 == v / 128,
        v << 1 == (v % 128) * 2,
        (v & 0x0F) << 4 == (v % 16) * 16,
        (v & 0xF0) >> 4 == v / 16,
        v & 0x01 == v % 2,
        v & 0x80 == (v / 128) * 128,
        (v & 0x80 != 0) <==> v >= 128,
        (v & 0x01 != 0) <==> v % 2 == 1,
        (v & 0xF0) & 0x0F == 0,
{
}

/// How the shifts and masks of a word read as arithmetic.
pub proof fn lemma_u16_arith(w: u16)
    by (bit_vector)
    ensures
        w & 0x000F == w % 16,
        w & 0x00FF == w % 256,
        w & 0x0FFF == w % 4096,
        w >> 8 == w / 256,
        (w & 0xFF00) >> 8 == w / 256,
        w >> 8 <= 0xFF,
        w & 0x00FF <= 0xFF,
{
}

/// A word is 256 times its high byte plus its low byte, and joining two
/// disjoint fields with `|` adds them.
pub proof fn lemma_join(high: u8, low: u8)
    by (bit_vector)
    ensures
        ((high as u16) << 8) | (low as u16) == (high as u16) * 256 + (low as u16),
        ((high & 0x0F) << 4) | ((low & 0xF0) >> 4) == (high % 16) * 16 + low / 16,
        (high << 1) | (low >> 7) == (high % 128) * 2 + low / 128,
        (high >> 1) | ((low & 0x01) << 7) == high / 2 + (low % 2) * 128,
        (high >> 1) | (high & 0x80) == high / 2 + (high / 128) * 128,
{
}

/// The four flag bits put together make a byte with an empty low nibble from
/// which each of them can be read back.
pub proof fn lemma_flag_bits(z: u8, n: u8, h: u8, c: u8)
    by (bit_vector)
    requires
        z == 0 || z == 0x80,
        n == 0 || n == 0x40,
        h == 0 || h == 0x20,
        c == 0 || c == 0x10,
    ensures
        (z | n | h | c) & 0x0F == 0,
        ((z | n | h | c) & 0x80 != 0) <==> z != 0,
        ((z | n | h | c) & 0x40 != 0) <==> n != 0,
        ((z | n | h | c) & 0x20 != 0) <==> h != 0,
        ((z | n | h | c) & 0x10 != 0) <==> c != 0,
{
}

/// A byte with an empty low nibble is made of its four flag bits.
pub proof fn lemma_flags_make_byte(f: u8)
    by (bit_vector)
    requires
        f & 0x0F == 0,
    ensures
        (if f & 0x80 != 0 { 0x80u8 } else { 0u8 }) | (if f & 0x40 != 0 { 0x40u8 } else { 0u8 })
            | (if f & 0x20 != 0 { 0x20u8 } else { 0u8 }) | (if f & 0x10 != 0 { 0x10u8 } else { 0u8 })
            == f,
{
}

/// Setting a bit twice is setting it once.
pub proof fn lemma_or_idempotent(x: u8, m: u8)
    by (bit_vector)
    ensures
        (x | m) | m == x | m,
{
}

} // verus!

//! Bytes and 16-bit words as numbers.

use vstd::prelude::*;

verus! {

/// The byte congruent to `i` modulo 256.
pub open spec fn wrap8(i: int) -> u8 {
    (i % 256) as u8
}

/// The word congruent to `i` modulo 65536.
pub open spec fn wrap16(i: int) -> u16 {
    (i % 65536) as u16
}

/// The little-endian word with low byte `lo` and high byte `hi`.
pub open spec fn word_of(lo: u8, hi: u8) -> u16 {
    (hi * 256 + lo) as u16
}

/// The low byte of `w`.
pub open spec fn low_byte(w: u16) -> u8 {
    (w % 256) as u8
}

/// The high byte of `w`.
pub open spec fn high_byte(w: u16) -> u8 {
    (w / 256) as u8
}

/// The value of `b` read as a two's-complement signed byte.
pub open spec fn signed8(b: u8) -> int {
    if b < 128 {
        b as int
    } else {
        b - 256
    }
}

/// Joins two bytes into a little-endian word.
pub fn make_word(lo: u8, hi: u8) -> (w: u16)
    ensures
        w == word_of(lo, hi),
        low_byte(w) == lo,
        high_byte(w) == hi,
{
    (hi as u16) * 256 + (lo as u16)
}

/// Splits a word into its low and high byte.
pub fn split_word(w: u16) -> (bytes: (u8, u8))
    ensures
        bytes.0 == low_byte(w),
        bytes.1 == high_byte(w),
        word_of(bytes.0, bytes.1) == w,
{
    ((w % 256) as u8, (w / 256) as u8)
}

/// `x + y` modulo 256.
pub fn add8(x: u8, y: u8) -> (r: u8)
    ensures
        r == wrap8(x + y),
{
    x.wrapping_add(y)
}

/// `x - y` modulo 256.
pub fn sub8(x: u8, y: u8) -> (r: u8)
    ensures
        r == wrap8(x - y),
{
    x.wrapping_sub(y)
}

/// `x + y` modulo 65536.
pub fn add16(x: u16, y: u16) -> (r: u16)
    ensures
        r == wrap16(x + y),
{
    x.wrapping_add(y)
}

/// `x - y` modulo 65536.
pub fn sub16(x: u16, y: u16) -> (r: u16)
    ensures
        r == wrap16(x - y),
{
    x.wrapping_sub(y)
}

/// `at` moved by `offset` read as a signed byte, modulo 65536.
pub fn displace(at: u16, offset: u8) -> (r: u16)
    ensures
        r == wrap16(at + signed8(offset)),
{
    if offset >= 0x80 {
        at.wrapping_sub(0x100 - (offset as u16))
    } else {
        at.wrapping_add(offset as u16)
    }
}

/// A shift of a byte by one place is a doubling or a halving; a rotate also
/// brings the carry `c` in at the free end.
pub proof fn lemma_shift_by_one(v: u8, c: u8)
    requires
        c <= 1,
    ensures
        (v << 1u8) as int == (2 * v) % 256,
        (v >> 1u8) as int == v / 2,
        ((v << 1u8) | c) as int == (2 * v + c) % 256,
        ((v >> 1u8) | (c << 7u8)) as int == v / 2 + 128 * c,
{
    assert((v << 1u8) as int == (2 * v) % 256 && (v >> 1u8) as int == v / 2) by (bit_vector);
    assert(((v << 1u8) | c) as int == (2 * v + c) % 256 && ((v >> 1u8) | (c << 7u8)) as int == v
        / 2 + 128 * c) by (bit_vector)
        requires
            c <= 1u8,
    ;
}

/// The sign bit of `(a ^ r) & (m ^ r)` is set exactly when `a` and `m` have
/// the same sign and `r` has the other.
pub proof fn lemma_sign_test(a: u8, m: u8, r: u8)
    ensures
        ((a ^ r) & (m ^ r) & 0x80 != 0) == ((a >= 128) == (m >= 128) && (a >= 128) != (r >= 128)),
{
    assert(((a ^ r) & (m ^ r) & 0x80u8 != 0u8) == (((a >= 128u8) == (m >= 128u8)) && ((a >= 128u8)
        != (r >= 128u8)))) by (bit_vector);
}

/// The one's complement of a byte is its distance from 255.
pub proof fn lemma_complement(m: u8)
    ensures
        !m == 255 - m,
{
    assert((!m) as int == 255 - m) by (bit_vector);
}

/// Subtracting with borrow is adding the one's complement with carry: the
/// two agree in the 8-bit result, in whether a carry comes out (no borrow
/// was needed) and in the signed sum.
pub proof fn lemma_subtract_as_add(a: u8, m: u8, c: int)
    requires
        0 <= c <= 1,
    ensures
        wrap8(a + (255 - m) + c) == wrap8(a - m - (1 - c)),
        (a + (255 - m) + c > 255) == (a - m - (1 - c) >= 0),
        signed8(a) + signed8((255 - m) as u8) + c == signed8(a) - signed8(m) - (1 - c),
{
}

/// Adding two bytes and a carry overflows as a signed sum exactly when the
/// inputs agree in sign and the 8-bit result does not.
pub proof fn lemma_signed_overflow(a: u8, m: u8, c: int)
    requires
        0 <= c <= 1,
    ensures
        ((a >= 128) == (m >= 128) && (a >= 128) != (wrap8(a + m + c) >= 128)) == !(-128 <= signed8(
            a,
        ) + signed8(m) + c <= 127),
{
}

} // verus!

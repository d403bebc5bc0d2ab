//! The status register: eight flags packed into one byte.

use vstd::prelude::*;
use vstd::string::StrSliceExecFns;

verus! {

/// The flags of the status register, from the least to the most significant
/// bit.
#[derive(Clone, Copy, Debug, PartialEq, Eq, Structural)]
pub enum Flags {
    /// Carry.
    C,
    /// Zero.
    Z,
    /// Interrupt disable.
    I,
    /// Decimal mode; it can be set and cleared, arithmetic ignores it.
    D,
    /// Break.
    B,
    /// Unused.
    U,
    /// Signed overflow.
    V,
    /// Negative: bit 7 of a result.
    N,
}

impl Flags {
    /// The byte in which only the bit of this flag is set.
    pub open spec fn mask(self) -> u8 {
        match self {
            Flags::C => 0x01,
            Flags::Z => 0x02,
            Flags::I => 0x04,
            Flags::D => 0x08,
            Flags::B => 0x10,
            Flags::U => 0x20,
            Flags::V => 0x40,
            Flags::N => 0x80,
        }
    }

    /// The flag that the one-letter name `name` stands for, if any.
    pub open spec fn named(name: Seq<char>) -> Option<Flags> {
        if name.len() != 1 {
            None
        } else if name[0] == 'C' {
            Some(Flags::C)
        } else if name[0] == 'Z' {
            Some(Flags::Z)
        } else if name[0] == 'I' {
            Some(Flags::I)
        } else if name[0] == 'D' {
            Some(Flags::D)
        } else if name[0] == 'B' {
            Some(Flags::B)
        } else if name[0] == 'U' {
            Some(Flags::U)
        } else if name[0] == 'V' {
            Some(Flags::V)
        } else if name[0] == 'N' {
            Some(Flags::N)
        } else {
            None
        }
    }

    /// The byte in which only the bit of this flag is set.
    pub fn bits(self) -> (m: u8)
        ensures
            m == self.mask(),
    {
        match self {
            Flags::C => 0x01,
            Flags::Z => 0x02,
            Flags::I => 0x04,
            Flags::D => 0x08,
            Flags::B => 0x10,
            Flags::U => 0x20,
            Flags::V => 0x40,
            Flags::N => 0x80,
        }
    }

    /// The mask of the flag named by the single upper-case letter `string`,
    /// and 0 for any other string.
    pub fn byte_from_str(string: &str) -> (m: u8)
        ensures
            m == match Flags::named(string@) {
                Some(f) => f.mask(),
                None => 0u8,
            },
    {
        if string.unicode_len() != 1 {
            return 0;
        }
        let c = string.get_char(0);
        if c == 'C' {
            0x01
        } else if c == 'Z' {
            0x02
        } else if c == 'I' {
            0x04
        } else if c == 'D' {
            0x08
        } else if c == 'B' {
            0x10
        } else if c == 'U' {
            0x20
        } else if c == 'V' {
            0x40
        } else if c == 'N' {
            0x80
        } else {
            0
        }
    }

    /// Same as [`Flags::byte_from_str`].
    pub fn from_str(string: &str) -> (m: u8)
        ensures
            m == match Flags::named(string@) {
                Some(f) => f.mask(),
                None => 0u8,
            },
    {
        Flags::byte_from_str(string)
    }
}

/// Whether flag `f` is set in the status byte `sr`.
pub open spec fn flag_in(sr: u8, f: Flags) -> bool {
    sr & f.mask() != 0
}

/// The status byte `sr` with flag `f` set to `v` and every other bit kept.
pub open spec fn status_with(sr: u8, f: Flags, v: bool) -> u8 {
    if v {
        sr | f.mask()
    } else {
        sr & !f.mask()
    }
}

/// The status byte `sr` after Z and N are taken from the result `value`:
/// Z is set exactly when `value` is zero, N exactly when its bit 7 is set.
pub open spec fn status_with_zn(sr: u8, value: u8) -> u8 {
    status_with(status_with(sr, Flags::Z, value == 0), Flags::N, value >= 0x80)
}

proof fn lemma_mask_algebra(sr: u8, m: u8, n: u8)
    by (bit_vector)
    requires
        m == 0x01 || m == 0x02 || m == 0x04 || m == 0x08 || m == 0x10 || m == 0x20 || m == 0x40
            || m == 0x80,
        n == 0x01 || n == 0x02 || n == 0x04 || n == 0x08 || n == 0x10 || n == 0x20 || n == 0x40
            || n == 0x80,
    ensures
        ((sr | m) & n != 0) == (m == n || sr & n != 0),
        ((sr & !m) & n != 0) == (m != n && sr & n != 0),
{
}

proof fn lemma_bits_determine_byte(s: u8, t: u8)
    by (bit_vector)
    requires
        (s & 0x01 != 0) == (t & 0x01 != 0),
        (s & 0x02 != 0) == (t & 0x02 != 0),
        (s & 0x04 != 0) == (t & 0x04 != 0),
        (s & 0x08 != 0) == (t & 0x08 != 0),
        (s & 0x10 != 0) == (t & 0x10 != 0),
        (s & 0x20 != 0) == (t & 0x20 != 0),
        (s & 0x40 != 0) == (t & 0x40 != 0),
        (s & 0x80 != 0) == (t & 0x80 != 0),
    ensures
        s == t,
{
}

proof fn lemma_bit_weights(s: u8)
    by (bit_vector)
    ensures
        (s & 0x01 != 0) == (s % 2 == 1),
        (s & 0x02 != 0) == ((s / 2) % 2 == 1),
        (s & 0x04 != 0) == ((s / 4) % 2 == 1),
        (s & 0x08 != 0) == ((s / 8) % 2 == 1),
        (s & 0x10 != 0) == ((s / 16) % 2 == 1),
        (s & 0x20 != 0) == ((s / 32) % 2 == 1),
        (s & 0x40 != 0) == ((s / 64) % 2 == 1),
        (s & 0x80 != 0) == (s >= 128),
{
}

/// Setting flag `f` to `v` makes `f` read as `v` and leaves every other flag
/// as it was.
pub proof fn lemma_status_with(sr: u8, f: Flags, v: bool, g: Flags)
    ensures
        flag_in(status_with(sr, f, v), g) == (if g == f {
            v
        } else {
            flag_in(sr, g)
        }),
{
    lemma_mask_algebra(sr, f.mask(), g.mask());
}

/// Two status bytes in which every flag reads the same are equal.
pub proof fn lemma_status_ext(s: u8, t: u8)
    requires
        forall|f: Flags| flag_in(s, f) == flag_in(t, f),
    ensures
        s == t,
{
    assert(flag_in(s, Flags::C) == flag_in(t, Flags::C));
    assert(flag_in(s, Flags::Z) == flag_in(t, Flags::Z));
    assert(flag_in(s, Flags::I) == flag_in(t, Flags::I));
    assert(flag_in(s, Flags::D) == flag_in(t, Flags::D));
    assert(flag_in(s, Flags::B) == flag_in(t, Flags::B));
    assert(flag_in(s, Flags::U) == flag_in(t, Flags::U));
    assert(flag_in(s, Flags::V) == flag_in(t, Flags::V));
    assert(flag_in(s, Flags::N) == flag_in(t, Flags::N));
    lemma_bits_determine_byte(s, t);
}

/// A flag is set exactly when the binary digit at its position is 1: from
/// the lowest digit to the highest the flags are C, Z, I, D, B, U, V, N.
pub proof fn lemma_flag_digit(sr: u8)
    ensures
        flag_in(sr, Flags::C) == (sr % 2 == 1),
        flag_in(sr, Flags::Z) == ((sr / 2) % 2 == 1),
        flag_in(sr, Flags::I) == ((sr / 4) % 2 == 1),
        flag_in(sr, Flags::D) == ((sr / 8) % 2 == 1),
        flag_in(sr, Flags::B) == ((sr / 16) % 2 == 1),
        flag_in(sr, Flags::U) == ((sr / 32) % 2 == 1),
        flag_in(sr, Flags::V) == ((sr / 64) % 2 == 1),
        flag_in(sr, Flags::N) == (sr >= 128),
{
    lemma_bit_weights(sr);
}

/// After Z and N are taken from a result, Z tells whether the result is zero
/// and N whether its bit 7 is set; the other six flags are untouched.
pub proof fn lemma_status_with_zn(sr: u8, value: u8, g: Flags)
    ensures
        flag_in(status_with_zn(sr, value), Flags::Z) == (value == 0),
        flag_in(status_with_zn(sr, value), Flags::N) == (value & 0x80 != 0),
        flag_in(status_with_zn(sr, value), Flags::N) == (value >= 128),
        g != Flags::Z && g != Flags::N ==> flag_in(status_with_zn(sr, value), g) == flag_in(sr, g),
{
    let s1 = status_with(sr, Flags::Z, value == 0);
    lemma_status_with(sr, Flags::Z, value == 0, Flags::Z);
    lemma_status_with(sr, Flags::Z, value == 0, Flags::N);
    lemma_status_with(sr, Flags::Z, value == 0, g);
    lemma_status_with(s1, Flags::N, value >= 0x80, Flags::Z);
    lemma_status_with(s1, Flags::N, value >= 0x80, Flags::N);
    lemma_status_with(s1, Flags::N, value >= 0x80, g);
    lemma_bit_weights(value);
}

} // verus!

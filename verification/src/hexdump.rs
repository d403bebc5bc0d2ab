//! Plain-text hex dumps: one byte per line, written as two hex digits at
//! the start of the line.

use vstd::prelude::*;

verus! {

/// The value of the ASCII hex digit `c`, in either case.
pub open spec fn hex_value(c: u8) -> Option<u8> {
    if 0x30 <= c <= 0x39 {
        Some((c - 0x30) as u8)
    } else if 0x41 <= c <= 0x46 {
        Some((c - 0x41 + 10) as u8)
    } else if 0x61 <= c <= 0x66 {
        Some((c - 0x61 + 10) as u8)
    } else {
        None
    }
}

/// Whether every byte of `text` is a hex digit.
pub open spec fn all_hex(text: Seq<u8>) -> bool {
    forall|i: int| 0 <= i < text.len() ==> (#[trigger] hex_value(text[i])) is Some
}

/// The bytes that a text of hex digits stands for: each pair of digits is
/// one byte, high digit first. A text of odd length, or one that holds
/// anything but hex digits, stands for nothing.
pub open spec fn hex_decoded(text: Seq<u8>) -> Option<Seq<u8>> {
    if text.len() % 2 != 0 || !all_hex(text) {
        None
    } else {
        Some(
            Seq::new(
                text.len() / 2,
                |i: int| (16 * hex_value(text[2 * i])->0 + hex_value(text[2 * i + 1])->0) as u8,
            ),
        )
    }
}

/// The byte that a line of a dump gives: nothing for a line shorter than
/// two bytes; else the value of the first two bytes read as hex digits, or
/// 0 where they are not two hex digits.
pub open spec fn line_value(line: Seq<u8>) -> Option<u8> {
    if line.len() < 2 {
        None
    } else {
        match hex_decoded(line.subrange(0, 2)) {
            Some(bytes) => Some(bytes[0]),
            None => Some(0u8),
        }
    }
}

/// The bytes that the lines of a dump give, in order.
pub open spec fn dump_bytes(lines: Seq<Vec<u8>>) -> Seq<u8>
    decreases lines.len(),
{
    if lines.len() == 0 {
        Seq::empty()
    } else {
        let before = dump_bytes(lines.drop_last());
        match line_value(lines.last()@) {
            Some(b) => before.push(b),
            None => before,
        }
    }
}

/// `hex::decode`: decodes a text of hex digits, upper or lower case, into
/// bytes. The contract restates the function's documented behaviour: the
/// result is the decoded bytes when the text has even length and holds only
/// hex digits, and an error, here `None`, otherwise.
#[verifier::external_body]
fn hex_decode(text: &Vec<u8>) -> (bytes: Option<Vec<u8>>)
    ensures
        match hex_decoded(text@) {
            Some(decoded) => bytes matches Some(v) && v@ == decoded,
            None => bytes is None,
        },
{
    hex::decode(text).ok()
}

/// The byte that one line of a dump gives.
///
/// A line shorter than two bytes gives nothing. Any other line gives the
/// byte written by its first two bytes as hex digits, and 0 if these are
/// not two hex digits, as when the line starts with a character outside
/// ASCII.
pub fn decode_line(line: &Vec<u8>) -> (byte: Option<u8>)
    ensures
        byte == line_value(line@),
        line@.len() >= 2 && hex_value(line@[0]) is Some && hex_value(line@[1]) is Some ==> byte
            == Some((16 * hex_value(line@[0])->0 + hex_value(line@[1])->0) as u8),
        line@.len() >= 2 && (hex_value(line@[0]) is None || hex_value(line@[1]) is None) ==> byte
            == Some(0u8),
{
    if line.len() < 2 {
        return None;
    }
    let mut digits: Vec<u8> = Vec::new();
    digits.push(line[0]);
    digits.push(line[1]);
    assert(digits@ =~= line@.subrange(0, 2));
    proof {
        if hex_value(line@[0]) is Some && hex_value(line@[1]) is Some {
            assert(all_hex(digits@));
        } else {
            assert(hex_value(digits@[0]) is None || hex_value(digits@[1]) is None);
            assert(!all_hex(digits@));
        }
    }
    match hex_decode(&digits) {
        Some(bytes) => Some(bytes[0]),
        None => Some(0),
    }
}

/// The bytes of a dump, given as its lines without their line ends: each
/// line of two bytes or more gives one byte, shorter lines give none.
pub fn decode_lines(lines: &Vec<Vec<u8>>) -> (bytes: Vec<u8>)
    ensures
        bytes@ == dump_bytes(lines@),
{
    let mut bytes: Vec<u8> = Vec::new();
    let mut i: usize = 0;
    while i < lines.len()
        invariant
            i <= lines.len(),
            bytes@ == dump_bytes(lines@.take(i as int)),
        decreases lines.len() - i,
    {
        assert(lines@.take(i + 1).drop_last() =~= lines@.take(i as int));
        match decode_line(&lines[i]) {
            Some(b) => {
                bytes.push(b);
            },
            None => {},
        }
        i = i + 1;
    }
    assert(lines@.take(i as int) =~= lines@);
    bytes
}

} // verus!

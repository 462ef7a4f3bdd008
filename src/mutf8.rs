//! Modified UTF-8, the string encoding of the class file format: NUL takes
//! two bytes, and a supplementary character is a pair of three-byte
//! surrogates. A byte sequence that is none of the valid forms decodes to
//! U+FFFD, one byte at a time; a surrogate without its partner decodes to
//! U+FFFD for its three bytes.

use vstd::prelude::*;

verus! {

/// The replacement character.
pub const REPLACEMENT: u32 = 0xFFFD;

/// Byte `j` exists and is a continuation byte `10xxxxxx`.
pub open spec fn is_cont(b: Seq<u8>, j: int) -> bool {
    0 <= j < b.len() && 0x80 <= b[j] <= 0xBF
}

/// A three-byte form `1110xxxx 10xxxxxx 10xxxxxx` starts at `i`.
pub open spec fn is_three_byte(b: Seq<u8>, i: int) -> bool {
    0 <= i < b.len() && 0xE0 <= b[i] <= 0xEF && is_cont(b, i + 1) && is_cont(b, i + 2)
}

/// The 16-bit unit that the three-byte form at `i` carries.
pub open spec fn three_byte_unit(b: Seq<u8>, i: int) -> int {
    (b[i] - 0xE0) * 0x1000 + (b[i + 1] - 0x80) * 0x40 + (b[i + 2] - 0x80)
}

/// A high surrogate at `i` followed by a low surrogate at `i + 3`.
pub open spec fn is_surrogate_pair(b: Seq<u8>, i: int) -> bool {
    &&& is_three_byte(b, i)
    &&& 0xD800 <= three_byte_unit(b, i) <= 0xDBFF
    &&& is_three_byte(b, i + 3)
    &&& 0xDC00 <= three_byte_unit(b, i + 3) <= 0xDFFF
}

/// The code point that starts at `i`, and the number of bytes it takes.
pub open spec fn mutf8_step(b: Seq<u8>, i: int) -> (int, int) {
    let x = b[i];
    if 0x01 <= x <= 0x7F {
        (x as int, 1)
    } else if 0xC0 <= x <= 0xDF && is_cont(b, i + 1) {
        ((x - 0xC0) * 0x40 + (b[i + 1] - 0x80), 2)
    } else if is_surrogate_pair(b, i) {
        (0x10000 + (three_byte_unit(b, i) - 0xD800) * 0x400 + (three_byte_unit(b, i + 3) - 0xDC00), 6)
    } else if is_three_byte(b, i) {
        let u = three_byte_unit(b, i);
        if 0xD800 <= u <= 0xDFFF {
            (REPLACEMENT as int, 3)
        } else {
            (u, 3)
        }
    } else {
        (REPLACEMENT as int, 1)
    }
}

/// The code points of `b` from byte `i` on.
pub open spec fn mutf8_from(b: Seq<u8>, i: int) -> Seq<int>
    decreases b.len() - i,
{
    if i < 0 || i >= b.len() {
        Seq::empty()
    } else {
        let (cp, n) = mutf8_step(b, i);
        seq![cp] + mutf8_from(b, i + n)
    }
}

/// The code points that the modified UTF-8 bytes `b` decode to.
pub open spec fn mutf8_decode(b: Seq<u8>) -> Seq<int> {
    mutf8_from(b, 0)
}

/// The step at `i` is one of the valid forms, not a fallback to U+FFFD.
pub open spec fn mutf8_step_valid(b: Seq<u8>, i: int) -> bool {
    let x = b[i];
    ||| 0x01 <= x <= 0x7F
    ||| 0xC0 <= x <= 0xDF && is_cont(b, i + 1)
    ||| is_surrogate_pair(b, i)
    ||| is_three_byte(b, i) && !(0xD800 <= three_byte_unit(b, i) <= 0xDFFF)
}

/// Every step of `b` from byte `i` on is valid.
pub open spec fn mutf8_valid_from(b: Seq<u8>, i: int) -> bool
    decreases b.len() - i,
{
    if i < 0 || i >= b.len() {
        true
    } else {
        mutf8_step_valid(b, i) && mutf8_valid_from(b, i + mutf8_step(b, i).1)
    }
}

/// The bytes `b` are valid modified UTF-8: decoding them needs no U+FFFD
/// replacement.
pub open spec fn mutf8_valid(b: Seq<u8>) -> bool {
    mutf8_valid_from(b, 0)
}

/// The code points of a string.
pub open spec fn code_points(s: Seq<char>) -> Seq<int> {
    s.map_values(|c: char| c as int)
}

/// Relies on `char::from_u32`: `Some` exactly for the Unicode scalar values,
/// holding the character of that value.
#[verifier::external_body]
fn char_from_u32(v: u32) -> (r: Option<char>)
    ensures
        r is Some <==> (v <= 0x10FFFF && !(0xD800 <= v <= 0xDFFF)),
        r matches Some(c) ==> c as int == v as int,
{
    char::from_u32(v)
}

/// Relies on `String::push`: appends one character at the end.
#[verifier::external_body]
fn push_char(s: &mut String, c: char)
    ensures
        final(s)@ == old(s)@.push(c),
{
    s.push(c)
}

/// Byte `j` is a continuation byte.
fn cont_at(b: &[u8], j: usize) -> (r: bool)
    ensures
        r == is_cont(b@, j as int),
{
    j < b.len() && 0x80 <= b[j] && b[j] <= 0xBF
}

/// A three-byte form starts at `i`.
fn three_byte_at(b: &[u8], i: usize) -> (r: bool)
    ensures
        r == is_three_byte(b@, i as int),
{
    i < b.len() && 0xE0 <= b[i] && b[i] <= 0xEF && cont_at(b, i + 1) && cont_at(b, i + 2)
}

/// The unit of the three-byte form at `i`.
fn unit_at(b: &[u8], i: usize) -> (r: u32)
    requires
        is_three_byte(b@, i as int),
    ensures
        r as int == three_byte_unit(b@, i as int),
        r <= 0xFFFF,
{
    (b[i] as u32 - 0xE0) * 0x1000 + (b[i + 1] as u32 - 0x80) * 0x40 + (b[i + 2] as u32 - 0x80)
}

/// One decoding step at `i`.
fn step_at(b: &[u8], i: usize) -> (r: (u32, usize))
    requires
        i < b@.len(),
    ensures
        r.0 as int == mutf8_step(b@, i as int).0,
        r.1 as int == mutf8_step(b@, i as int).1,
        r.0 <= 0x10FFFF && !(0xD800 <= r.0 <= 0xDFFF),
{
    let x = b[i];
    if 0x01 <= x && x <= 0x7F {
        (x as u32, 1)
    } else if 0xC0 <= x && x <= 0xDF && cont_at(b, i + 1) {
        ((x as u32 - 0xC0) * 0x40 + (b[i + 1] as u32 - 0x80), 2)
    } else if three_byte_at(b, i) {
        let u = unit_at(b, i);
        if 0xD800 <= u && u <= 0xDBFF && i + 3 < b.len() && three_byte_at(b, i + 3) {
            let lo = unit_at(b, i + 3);
            if 0xDC00 <= lo && lo <= 0xDFFF {
                return (0x10000 + (u - 0xD800) * 0x400 + (lo - 0xDC00), 6);
            }
        }
        if 0xD800 <= u && u <= 0xDFFF {
            (REPLACEMENT, 3)
        } else {
            (u, 3)
        }
    } else {
        (REPLACEMENT, 1)
    }
}

/// The step at `i` is valid.
fn step_valid_at(b: &[u8], i: usize) -> (r: bool)
    requires
        i < b@.len(),
    ensures
        r == mutf8_step_valid(b@, i as int),
{
    let x = b[i];
    if 0x01 <= x && x <= 0x7F {
        return true;
    }
    if 0xC0 <= x && x <= 0xDF && cont_at(b, i + 1) {
        return true;
    }
    if three_byte_at(b, i) {
        let u = unit_at(b, i);
        if 0xD800 <= u && u <= 0xDBFF && i + 3 < b.len() && three_byte_at(b, i + 3) {
            let lo = unit_at(b, i + 3);
            if 0xDC00 <= lo && lo <= 0xDFFF {
                return true;
            }
        }
        return !(0xD800 <= u && u <= 0xDFFF);
    }
    false
}

/// Whether the bytes are valid modified UTF-8, so that decoding them replaces
/// nothing with U+FFFD.
pub fn is_valid_modified_utf8(bytes: &[u8]) -> (r: bool)
    ensures
        r == mutf8_valid(bytes@),
{
    let mut i: usize = 0;
    while i < bytes.len()
        invariant
            i <= bytes@.len(),
            mutf8_valid(bytes@) == mutf8_valid_from(bytes@, i as int),
        decreases bytes@.len() - i,
    {
        if !step_valid_at(bytes, i) {
            return false;
        }
        let (_, n) = step_at(bytes, i);
        i = i + n;
    }
    true
}

/// Decodes modified UTF-8 bytes to a string.
pub fn decode_modified_utf8(bytes: &[u8]) -> (r: String)
    ensures
        code_points(r@) == mutf8_decode(bytes@),
{
    let mut out = String::new();
    let mut i: usize = 0;
    while i < bytes.len()
        invariant
            i <= bytes@.len(),
            code_points(out@) + mutf8_from(bytes@, i as int) == mutf8_decode(bytes@),
        decreases bytes@.len() - i,
    {
        let (cp, n) = step_at(bytes, i);
        let c = match char_from_u32(cp) {
            Some(c) => c,
            None => '\u{FFFD}',
        };
        let ghost before = out@;
        push_char(&mut out, c);
        proof {
            let rest = mutf8_from(bytes@, i + n);
            assert(mutf8_from(bytes@, i as int) == seq![cp as int] + rest);
            assert(code_points(out@) =~= code_points(before).push(cp as int));
            assert(code_points(out@) + rest =~= code_points(before) + (seq![cp as int] + rest));
        }
        i = i + n;
    }
    proof {
        assert(mutf8_from(bytes@, i as int) == Seq::<int>::empty());
        assert(code_points(out@) + Seq::<int>::empty() =~= code_points(out@));
    }
    out
}

} // verus!

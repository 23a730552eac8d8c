//! Character and string helpers used by the identifier and cache code.

use vstd::prelude::*;
use vstd::string::*;
use vstd::utf8::*;

verus! {

/// ASCII letters and digits.
pub open spec fn is_alphanumeric(c: char) -> bool {
    ('0' <= c && c <= '9') || ('a' <= c && c <= 'z') || ('A' <= c && c <= 'Z')
}

/// The lower-case form of an ASCII upper-case letter; any other character unchanged.
pub open spec fn lowercase(c: char) -> char {
    if 'A' <= c && c <= 'Z' {
        ((c as u8) + 32) as char
    } else {
        c
    }
}

#[verifier::when_used_as_spec(is_alphanumeric)]
pub fn is_ascii_alphanumeric(c: char) -> (r: bool)
    ensures
        r == is_alphanumeric(c),
{
    ('0' <= c && c <= '9') || ('a' <= c && c <= 'z') || ('A' <= c && c <= 'Z')
}

#[verifier::when_used_as_spec(lowercase)]
pub fn to_ascii_lowercase(c: char) -> (r: char)
    ensures
        r == lowercase(c),
{
    if 'A' <= c && c <= 'Z' {
        ((c as u8) + 32) as char
    } else {
        c
    }
}

/// `String::push` of the standard library: it appends exactly one character
/// to the end of the string and leaves the rest as it was.
#[verifier::external_body]
pub(crate) fn push_char(s: &mut String, c: char)
    ensures
        final(s)@ == old(s)@.push(c),
{
    s.push(c)
}

/// Whether two string slices hold the same characters.
pub fn str_eq(a: &str, b: &str) -> (r: bool)
    ensures
        r == (a@ == b@),
{
    let x = a.as_bytes();
    let y = b.as_bytes();
    proof {
        encode_utf8_decode_utf8(a@);
        encode_utf8_decode_utf8(b@);
    }
    if x.len() != y.len() {
        return false;
    }
    let mut i: usize = 0;
    while i < x.len()
        invariant
            i <= x.len(),
            x.len() == y.len(),
            x@ == a.spec_bytes(),
            y@ == b.spec_bytes(),
            forall|j: int| 0 <= j < i ==> x@[j] == y@[j],
        decreases x.len() - i,
    {
        if x[i] != y[i] {
            return false;
        }
        i += 1;
    }
    assert(x@ =~= y@);
    true
}

/// The UTF-16 code units of one character: one unit for a character of the
/// basic plane, a surrogate pair for any other.
pub open spec fn utf16_units(c: char) -> Seq<u16> {
    let v = c as u32;
    if v < 0x10000 {
        seq![v as u16]
    } else {
        seq![
            (0xD800 + (v - 0x10000) / 0x400) as u16,
            (0xDC00 + (v - 0x10000) % 0x400) as u16,
        ]
    }
}

/// The UTF-16 form of a text.
pub open spec fn utf16_encoded(s: Seq<char>) -> Seq<u16>
    decreases s.len(),
{
    if s.len() == 0 {
        seq![]
    } else {
        utf16_encoded(s.drop_last()) + utf16_units(s.last())
    }
}

/// The UTF-16 form of a text.
pub fn encode_utf16(s: &str) -> (units: Vec<u16>)
    ensures
        units@ == utf16_encoded(s@),
{
    let mut units: Vec<u16> = Vec::new();
    for c in it: s.chars()
        invariant
            it.seq() == s@,
            units@ == utf16_encoded(s@.take(it.index() as int)),
    {
        let ghost before = units@;
        let ghost next = s@.take(it.index() + 1);
        assert(next.drop_last() =~= s@.take(it.index() as int));
        assert(next.last() == c);
        let v: u32 = c as u32;
        if v < 0x10000 {
            units.push(v as u16);
            assert(units@ =~= before + utf16_units(c));
        } else {
            assert(v <= 0x10FFFF) by {
                vstd::utf8::char_is_scalar(c);
            }
            let w: u32 = v - 0x10000;
            units.push((0xD800 + w / 0x400) as u16);
            units.push((0xDC00 + w % 0x400) as u16);
            assert(units@ =~= before + utf16_units(c));
        }
    }
    assert(s@.take(s@.len() as int) =~= s@);
    units
}

/// A text as it is written into a buffer of `capacity` units: as many of its
/// units as leave room for the terminator, then a NUL.
pub open spec fn terminated(units: Seq<u16>, capacity: int) -> Seq<u16>
    recommends
        capacity >= 1,
{
    if units.len() < capacity {
        units.push(0)
    } else {
        units.take(capacity - 1).push(0)
    }
}

/// The units of `s`, cut to leave room for the terminator in a buffer of
/// `capacity` units, and NUL-terminated.
pub fn encode_terminated(s: &str, capacity: usize) -> (buffer: Vec<u16>)
    requires
        capacity >= 1,
    ensures
        buffer@ == terminated(utf16_encoded(s@), capacity as int),
        buffer@.len() <= capacity,
{
    let mut units = encode_utf16(s);
    if units.len() >= capacity {
        units.truncate(capacity - 1);
    }
    units.push(0);
    units
}

/// The text that a sequence of UTF-16 units encodes, if it encodes one.
pub uninterp spec fn utf16_decoded(units: Seq<u16>) -> Option<Seq<char>>;

/// `String::from_utf16` of the standard library: the text that the units
/// encode, or nothing where they hold an unpaired surrogate. The result
/// depends on the units alone.
#[verifier::external_body]
pub(crate) fn decode_utf16(units: &[u16]) -> (r: Option<String>)
    ensures
        match r {
            Some(s) => utf16_decoded(units@) == Some(s@),
            None => utf16_decoded(units@) is None,
        },
{
    String::from_utf16(units).ok()
}

} // verus!

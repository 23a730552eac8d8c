//! The 128-bit class identifier and its text form.

use vstd::prelude::*;
use vstd::string::*;
use vstd::utf8::*;
use crate::text::push_char;

verus! {

/// A 128-bit identifier of one instantiable class.
#[allow(clippy::upper_case_acronyms)]
#[derive(Clone, Copy, Debug)]
pub struct GUID {
    pub data: [u8; 16],
}

impl View for GUID {
    type V = Seq<u8>;

    open spec fn view(&self) -> Seq<u8> {
        self.data@
    }
}

/// The upper-case hexadecimal digit of a value below sixteen.
pub open spec fn hex_digit(v: u8) -> char
    recommends
        v < 16,
{
    if v < 10 {
        (v + 48) as char
    } else {
        (v + 55) as char
    }
}

/// The value of a hexadecimal digit of either case; zero for any other character.
pub open spec fn hex_value(c: char) -> u8 {
    if '0' <= c && c <= '9' {
        (c as u8 - 48) as u8
    } else if 'a' <= c && c <= 'f' {
        (c as u8 - 87) as u8
    } else if 'A' <= c && c <= 'F' {
        (c as u8 - 55) as u8
    } else {
        0
    }
}

/// The text form of an identifier: two upper-case hexadecimal digits per
/// byte, in order, with no separators.
pub open spec fn guid_text(data: Seq<u8>) -> Seq<char> {
    Seq::new(
        2 * data.len(),
        |i: int|
            if i % 2 == 0 {
                hex_digit(data[i / 2] / 16)
            } else {
                hex_digit(data[i / 2] % 16)
            },
    )
}

/// The identifier that a text denotes. A text of one to thirty-two bytes is
/// read two characters per byte, a character that is no hexadecimal digit
/// counting as zero and a trailing single character being dropped; bytes
/// beyond the text are zero. Any other text denotes the zero identifier.
pub open spec fn guid_parsed(s: Seq<char>) -> Seq<u8> {
    let n = encode_utf8(s).len();
    Seq::new(
        16,
        |i: int|
            if 0 < n <= 32 && 2 * i + 1 < s.len() {
                (hex_value(s[2 * i]) * 16 + hex_value(s[2 * i + 1])) as u8
            } else {
                0u8
            },
    )
}

fn hex_digit_of(v: u8) -> (c: char)
    requires
        v < 16,
    ensures
        c == hex_digit(v),
{
    if v < 10 {
        (v + 48) as char
    } else {
        (v + 55) as char
    }
}

fn hex_value_of(c: char) -> (v: u8)
    ensures
        v == hex_value(c),
        v < 16,
{
    if '0' <= c && c <= '9' {
        c as u8 - 48
    } else if 'a' <= c && c <= 'f' {
        c as u8 - 87
    } else if 'A' <= c && c <= 'F' {
        c as u8 - 55
    } else {
        0
    }
}

/// A text never has more characters than bytes in its UTF-8 form.
pub proof fn lemma_utf8_len_bounds_chars(s: Seq<char>)
    ensures
        s.len() <= encode_utf8(s).len(),
    decreases s.len(),
{
    if s.len() > 0 {
        lemma_utf8_len_bounds_chars(s.drop_first());
    }
}

impl GUID {
    pub fn to_string(&self) -> (s: String)
        ensures
            s@ == guid_text(self@),
    {
        let mut s = String::new();
        let mut i: usize = 0;
        while i < 16
            invariant
                i <= 16,
                s@ == guid_text(self@.take(i as int)),
            decreases 16 - i,
        {
            let b: u8 = self.data[i];
            push_char(&mut s, hex_digit_of(b / 16));
            push_char(&mut s, hex_digit_of(b % 16));
            i += 1;
            assert(s@ =~= guid_text(self@.take(i as int)));
        }
        assert(self@.take(16) =~= self@);
        s
    }

    pub fn from_string(s: &str) -> (g: GUID)
        ensures
            g@ == guid_parsed(s@),
    {
        let mut data: [u8; 16] = [0;16];
        let n: usize = s.as_bytes().len();
        proof {
            lemma_utf8_len_bounds_chars(s@);
        }
        if n > 0 && n <= 32 {
            let mut low_nibble = false;
            let mut byte_index: usize = 0;
            let mut accumulator: u8 = 0;
            for c in it: s.chars()
                invariant
                    it.seq() == s@,
                    s@.len() <= 32,
                    0 < encode_utf8(s@).len() <= 32,
                    byte_index == it.index() / 2,
                    low_nibble == (it.index() % 2 == 1),
                    accumulator < 16,
                    low_nibble ==> accumulator == hex_value(s@[it.index() - 1]),
                    !low_nibble ==> accumulator == 0,
                    forall|k: int| 0 <= k < byte_index ==> data@[k] == guid_parsed(s@)[k],
                    forall|k: int| byte_index <= k < 16 ==> data@[k] == 0,
            {
                let v: u8 = hex_value_of(c);
                accumulator = accumulator * 16 + v;
                if low_nibble {
                    data[byte_index] = accumulator;
                    byte_index += 1;
                    accumulator = 0;
                }
                low_nibble = !low_nibble;
            }
        }
        let g = GUID { data };
        assert(g@ =~= guid_parsed(s@));
        g
    }

    /// Whether two identifiers hold the same bytes.
    pub fn equals(&self, other: &GUID) -> (r: bool)
        ensures
            r == (self@ == other@),
    {
        let mut i: usize = 0;
        while i < 16
            invariant
                i <= 16,
                forall|k: int| 0 <= k < i ==> self@[k] == other@[k],
            decreases 16 - i,
        {
            if self.data[i] != other.data[i] {
                return false;
            }
            i += 1;
        }
        assert(self@ =~= other@);
        true
    }
}

/// Reading back the text form of an identifier gives the identifier.
pub proof fn lemma_guid_text_round_trip(data: Seq<u8>)
    requires
        data.len() == 16,
    ensures
        guid_parsed(guid_text(data)) == data,
{
    let t = guid_text(data);
    assert(is_ascii_chars(t)) by {
        assert forall|i: int| 0 <= i < t.len() implies (t[i] as u32) < 128 by {
            let v = if i % 2 == 0 { data[i / 2] / 16 } else { data[i / 2] % 16 };
            assert(v < 16);
        }
    }
    is_ascii_chars_encode_utf8(t);
    assert(encode_utf8(t).len() == 32);
    assert forall|i: int| 0 <= i < 16 implies guid_parsed(t)[i] == data[i] by {
        let hi = data[i] / 16;
        let lo = data[i] % 16;
        assert(t[2 * i] == hex_digit(hi));
        assert(t[2 * i + 1] == hex_digit(lo));
        assert(hex_value(hex_digit(hi)) == hi);
        assert(hex_value(hex_digit(lo)) == lo);
    }
    assert(guid_parsed(t) =~= data);
}

} // verus!

//! UTF-16: what a sequence of code units means as text, and a decoder that
//! is proved to compute exactly that.

use crate::text::push_char;
use vstd::pervasive::unreached;
use vstd::prelude::*;

verus! {

/// Whether `u` is the first half of a surrogate pair.
pub open spec fn is_high_surrogate(u: u16) -> bool {
    0xD800 <= u <= 0xDBFF
}

/// Whether `u` is the second half of a surrogate pair.
pub open spec fn is_low_surrogate(u: u16) -> bool {
    0xDC00 <= u <= 0xDFFF
}

/// Whether `u` is either half of a surrogate pair.
pub open spec fn is_surrogate(u: u16) -> bool {
    0xD800 <= u <= 0xDFFF
}

/// Whether `v` is a Unicode scalar value, that is, the number of a `char`.
pub open spec fn is_scalar_value(v: u32) -> bool {
    v < 0xD800 || (0xE000 <= v && v <= 0x10FFFF)
}

/// The scalar value that the surrogate pair `hi`, `lo` stands for.
pub open spec fn pair_value(hi: u16, lo: u16) -> u32
    recommends
        is_high_surrogate(hi),
        is_low_surrogate(lo),
{
    (0x10000 + (hi - 0xD800) * 0x400 + (lo - 0xDC00)) as u32
}

/// `prefix` followed by `rest`, where `rest` may have failed.
pub open spec fn after_prefix(prefix: Seq<char>, rest: Option<Seq<char>>) -> Option<Seq<char>> {
    match rest {
        Some(r) => Some(prefix + r),
        None => None,
    }
}

/// The text that `units` encodes, or `None` where they are not well-formed
/// UTF-16. A unit outside the surrogate range is one character; a high
/// surrogate directly followed by a low one is one character; any other
/// surrogate makes the whole sequence ill-formed.
pub open spec fn decode_utf16(units: Seq<u16>) -> Option<Seq<char>>
    decreases units.len(),
{
    if units.len() == 0 {
        Some(Seq::empty())
    } else if !is_surrogate(units[0]) {
        after_prefix(seq![units[0] as char], decode_utf16(units.skip(1)))
    } else if is_high_surrogate(units[0]) && units.len() >= 2 && is_low_surrogate(units[1]) {
        after_prefix(seq![pair_value(units[0], units[1]) as char], decode_utf16(units.skip(2)))
    } else {
        None
    }
}

/// The code units that encode the single character `c`.
pub open spec fn encode_char(c: char) -> Seq<u16> {
    let v = c as u32;
    if v < 0x10000 {
        seq![v as u16]
    } else {
        seq![(0xD800 + (v - 0x10000) / 0x400) as u16, (0xDC00 + (v - 0x10000) % 0x400) as u16]
    }
}

/// The code units that encode `chars`.
pub open spec fn encode_utf16(chars: Seq<char>) -> Seq<u16>
    decreases chars.len(),
{
    if chars.len() == 0 {
        Seq::empty()
    } else {
        encode_char(chars[0]) + encode_utf16(chars.skip(1))
    }
}

/// The number of a character is a scalar value, and converting it back gives
/// the character.
pub proof fn lemma_char_number(c: char)
    ensures
        is_scalar_value(c as u32),
        (c as u32) as char == c,
{
}

/// Decoding the encoding of a text gives the text back.
pub proof fn lemma_decode_encode_utf16(chars: Seq<char>)
    ensures
        decode_utf16(encode_utf16(chars)) == Some(chars),
    decreases chars.len(),
{
    if chars.len() == 0 {
        assert(chars =~= Seq::<char>::empty());
    } else {
        let c = chars[0];
        let v = c as u32;
        let head = encode_char(c);
        let tail = encode_utf16(chars.skip(1));
        let all = encode_utf16(chars);
        lemma_decode_encode_utf16(chars.skip(1));
        assert(seq![c] + chars.skip(1) =~= chars);
        lemma_char_number(c);
        if v < 0x10000 {
            assert(all.skip(1) =~= tail);
            assert(all[0] == v as u16);
            assert((v as u16) as int == v as int);
            assert((v as u16) as char == c);
        } else {
            let hi = (0xD800 + (v - 0x10000) / 0x400) as u16;
            let lo = (0xDC00 + (v - 0x10000) % 0x400) as u16;
            assert(hi as int == 0xD800 + (v - 0x10000) / 0x400);
            assert(lo as int == 0xDC00 + (v - 0x10000) % 0x400);
            assert(all.skip(2) =~= tail);
            assert(all[0] == hi);
            assert(all[1] == lo);
            assert(pair_value(hi, lo) == v);
        }
    }
}

/// Conversion of a number to the character it numbers, by `char::from_u32`.
/// Trusted: the result is the character with that number where the number is
/// a Unicode scalar value (below 0xD800, or from 0xE000 to 0x10FFFF), and
/// `None` for every other number.
pub assume_specification[ char::from_u32 ](i: u32) -> (r: Option<char>)
    ensures
        r == if is_scalar_value(i) {
            Some(i as char)
        } else {
            None::<char>
        },
;

/// The character whose number is the scalar value `v`.
pub fn char_of_scalar(v: u32) -> (c: char)
    requires
        is_scalar_value(v),
    ensures
        c == v as char,
{
    match char::from_u32(v) {
        Some(c) => c,
        None => unreached(),
    }
}

/// Decodes `units` as UTF-16. Returns the text, or `None` where the units
/// are not well-formed.
pub fn from_utf16(units: &[u16]) -> (r: Option<String>)
    ensures
        match r {
            Some(s) => decode_utf16(units@) == Some(s@),
            None => decode_utf16(units@) is None,
        },
{
    let mut s = String::new();
    let mut i: usize = 0;
    assert(units@.skip(0) =~= units@);
    assert(Seq::<char>::empty() + decode_utf16(units@)->0 =~= decode_utf16(units@)->0);
    while i < units.len()
        invariant
            i <= units.len(),
            decode_utf16(units@) == after_prefix(s@, decode_utf16(units@.skip(i as int))),
        decreases units.len() - i,
    {
        let ghost before = s@;
        let ghost here = units@.skip(i as int);
        let u: u16 = units[i];
        assert(here[0] == u);
        if u < 0xD800 || u > 0xDFFF {
            push_char(&mut s, char_of_scalar(u as u32));
            proof {
                assert(here.skip(1) =~= units@.skip(i + 1));
                let rest = decode_utf16(here.skip(1));
                if rest is Some {
                    assert(before + (seq![u as char] + rest->0) =~= before.push(u as char)
                        + rest->0);
                }
            }
            i = i + 1;
        } else if u <= 0xDBFF && i + 1 < units.len() && 0xDC00 <= units[i + 1] && units[i + 1]
            <= 0xDFFF {
            let lo: u16 = units[i + 1];
            assert(here[1] == lo);
            let v: u32 = 0x10000 + (u as u32 - 0xD800) * 0x400 + (lo as u32 - 0xDC00);
            push_char(&mut s, char_of_scalar(v));
            proof {
                assert(v == pair_value(u, lo));
                assert(here.skip(2) =~= units@.skip(i + 2));
                let rest = decode_utf16(here.skip(2));
                if rest is Some {
                    assert(before + (seq![v as char] + rest->0) =~= before.push(v as char)
                        + rest->0);
                }
            }
            i = i + 2;
        } else {
            assert(decode_utf16(here) is None);
            return None;
        }
    }
    proof {
        assert(units@.skip(i as int) =~= Seq::<u16>::empty());
        assert(s@ + Seq::<char>::empty() =~= s@);
    }
    Some(s)
}

} // verus!

use vstd::prelude::*;
use vstd::utf8::*;

verus! {

/// True of a code unit that can only stand first in a surrogate pair.
pub open spec fn is_high_surrogate(u: u16) -> bool {
    0xD800 <= u <= 0xDBFF
}

/// True of a code unit that can only stand second in a surrogate pair.
pub open spec fn is_low_surrogate(u: u16) -> bool {
    0xDC00 <= u <= 0xDFFF
}

/// The scalar value that a surrogate pair stands for.
pub open spec fn pair_scalar(high: u16, low: u16) -> u32
    recommends
        is_high_surrogate(high),
        is_low_surrogate(low),
{
    (0x1_0000 + (high - 0xD800) * 0x400 + (low - 0xDC00)) as u32
}

/// The UTF-16 code units of one character: the scalar value itself below
/// 0x10000, a surrogate pair from there on.
pub open spec fn utf16_of_char(c: char) -> Seq<u16> {
    let v = c as u32;
    if v < 0x1_0000 {
        seq![v as u16]
    } else {
        seq![(0xD800 + (v - 0x1_0000) / 0x400) as u16, (0xDC00 + (v - 0x1_0000) % 0x400) as u16]
    }
}

/// The UTF-16 encoding of a sequence of characters.
pub open spec fn encode_utf16(chars: Seq<char>) -> Seq<u16>
    decreases chars.len(),
{
    if chars.len() == 0 {
        Seq::empty()
    } else {
        utf16_of_char(chars.first()) + encode_utf16(chars.drop_first())
    }
}

/// The characters that a sequence of UTF-16 code units encodes; `None` where
/// a surrogate stands without its partner.
pub open spec fn decode_utf16(units: Seq<u16>) -> Option<Seq<char>>
    decreases units.len(),
{
    if units.len() == 0 {
        Some(Seq::empty())
    } else if !is_high_surrogate(units[0]) && !is_low_surrogate(units[0]) {
        match decode_utf16(units.skip(1)) {
            Some(rest) => Some(seq![(units[0] as u32) as char] + rest),
            None => None,
        }
    } else if is_high_surrogate(units[0]) && units.len() >= 2 && is_low_surrogate(units[1]) {
        match decode_utf16(units.skip(2)) {
            Some(rest) => Some(seq![pair_scalar(units[0], units[1]) as char] + rest),
            None => None,
        }
    } else {
        None
    }
}

/// The number of code units in the encoding is the sum over the characters:
/// it grows by one or two with each character.
pub proof fn lemma_encode_utf16_len(chars: Seq<char>)
    ensures
        chars.len() <= encode_utf16(chars).len() <= 2 * chars.len(),
    decreases chars.len(),
{
    if chars.len() > 0 {
        lemma_encode_utf16_len(chars.drop_first());
    }
}

/// Decoding the UTF-16 encoding of a sequence of characters gives the
/// sequence back.
pub proof fn lemma_utf16_round_trip(chars: Seq<char>)
    ensures
        decode_utf16(encode_utf16(chars)) == Some(chars),
    decreases chars.len(),
{
    if chars.len() > 0 {
        let c = chars.first();
        let v = c as u32;
        let rest = chars.drop_first();
        let units = encode_utf16(chars);
        lemma_utf16_round_trip(rest);
        char_is_scalar(c);
        if v < 0x1_0000 {
            assert(units.skip(1) =~= encode_utf16(rest));
            char_u32_cast(c, units[0] as u32);
            assert(seq![c] + rest =~= chars);
        } else {
            assert(units.skip(2) =~= encode_utf16(rest));
            assert(pair_scalar(units[0], units[1]) == v);
            char_u32_cast(c, pair_scalar(units[0], units[1]));
            assert(seq![c] + rest =~= chars);
        }
    }
}

/// Calls `String::from_utf8`: the bytes become a string exactly when they are
/// valid UTF-8, and the string then holds the characters they encode.
#[verifier::external_body]
pub(crate) fn string_from_utf8(bytes: Vec<u8>) -> (r: Option<String>)
    ensures
        r is Some <==> valid_utf8(bytes@),
        r matches Some(s) ==> s@ == decode_utf8(bytes@),
{
    String::from_utf8(bytes).ok()
}

/// Calls `String::from_utf16`: the code units become a string exactly when
/// every surrogate among them is part of a pair, and the string then holds
/// the characters they encode.
#[verifier::external_body]
pub(crate) fn string_from_utf16(units: &Vec<u16>) -> (r: Option<String>)
    ensures
        r is Some <==> decode_utf16(units@) is Some,
        r matches Some(s) ==> decode_utf16(units@) == Some(s@),
{
    String::from_utf16(units).ok()
}

/// Calls `str::encode_utf16` and collects the code units that it yields: the
/// UTF-16 encoding of the characters of `s`.
#[verifier::external_body]
pub(crate) fn utf16_units(s: &str) -> (units: Vec<u16>)
    ensures
        units@ == encode_utf16(s@),
{
    s.encode_utf16().collect()
}

} // verus!

//! Conversions between strings and their UTF-8 and UTF-16 forms.
use vstd::prelude::*;
use vstd::utf8::{decode_utf8, valid_utf8};

verus! {

/// The UTF-16 code units of the character `c`: one unit below U+10000, a
/// surrogate pair above.
pub open spec fn utf16_char(c: char) -> Seq<u16> {
    let v = c as u32;
    if v < 0x10000 {
        seq![v as u16]
    } else {
        let w = (v - 0x10000) as u32;
        seq![(0xd800 + (w >> 10)) as u16, (0xdc00 + (w & 0x3ff)) as u16]
    }
}

/// The UTF-16 code units of the characters `s`.
pub open spec fn utf16_of(s: Seq<char>) -> Seq<u16>
    decreases s.len(),
{
    if s.len() == 0 {
        Seq::empty()
    } else {
        utf16_of(s.drop_last()) + utf16_char(s.last())
    }
}

/// A string has between one and two UTF-16 code units per character.
pub proof fn lemma_utf16_len(s: Seq<char>)
    ensures
        s.len() <= utf16_of(s).len() <= 2 * s.len(),
    decreases s.len(),
{
    if s.len() > 0 {
        lemma_utf16_len(s.drop_last());
    }
}

/// Relies on `str::encode_utf16`: the UTF-16 code units of `s`, one or two
/// for each character as the UTF-16 encoding prescribes.
#[verifier::external_body]
pub(crate) fn encode_utf16(s: &str) -> (r: Vec<u16>)
    ensures
        r@ == utf16_of(s@),
{
    s.encode_utf16().collect()
}

/// Relies on `String::from_utf16`: it decodes valid UTF-16 and fails on
/// anything else, so a success holds the string whose UTF-16 form is `v`, and
/// the UTF-16 form of a string decodes to that string.
#[verifier::external_body]
pub(crate) fn decode_utf16(v: &[u16]) -> (r: Option<String>)
    ensures
        r is Some ==> utf16_of(r->0@) == v@,
        forall|t: Seq<char>| #[trigger] utf16_of(t) == v@ ==> (r is Some && r->0@ == t),
{
    String::from_utf16(v).ok()
}

/// Relies on `String::from_utf8`: it succeeds exactly on valid UTF-8, and
/// the string then holds the decoded characters.
#[verifier::external_body]
pub(crate) fn decode_utf8_vec(v: Vec<u8>) -> (r: Option<String>)
    ensures
        r is Some <==> valid_utf8(v@),
        r matches Some(s) ==> s@ == decode_utf8(v@),
{
    String::from_utf8(v).ok()
}

} // verus!

//! Lossy decoding of native UTF-16 text.
//!
//! The platform hands text out as UTF-16 code units with no promise that
//! surrogates come in pairs. Decoding never fails: each unpaired surrogate
//! becomes U+FFFD and decoding goes on with the unit after it.

use vstd::prelude::*;
use vstd::utf8::is_scalar;

verus! {

/// The character that stands in for a code unit that cannot be decoded.
pub const REPLACEMENT: char = '\u{FFFD}';

/// A code unit in the surrogate range.
pub open spec fn is_surrogate(unit: u16) -> bool {
    0xD800 <= unit <= 0xDFFF
}

/// A code unit that opens a surrogate pair.
pub open spec fn is_high_surrogate(unit: u16) -> bool {
    0xD800 <= unit <= 0xDBFF
}

/// A code unit that closes a surrogate pair.
pub open spec fn is_low_surrogate(unit: u16) -> bool {
    0xDC00 <= unit <= 0xDFFF
}

/// The code point that a surrogate pair encodes.
pub open spec fn pair_code_point(high: u16, low: u16) -> int {
    0x10000 + (high - 0xD800) * 0x400 + (low - 0xDC00)
}

/// Whether the text begins with a complete surrogate pair.
pub open spec fn starts_with_pair(units: Seq<u16>) -> bool {
    units.len() >= 2 && is_high_surrogate(units[0]) && is_low_surrogate(units[1])
}

/// How many code units the first character of the text takes up.
pub open spec fn first_width(units: Seq<u16>) -> int {
    if starts_with_pair(units) {
        2
    } else {
        1
    }
}

/// The first character of a text that is not empty.
pub open spec fn first_char(units: Seq<u16>) -> char
    recommends
        units.len() > 0,
{
    if !is_surrogate(units[0]) {
        units[0] as char
    } else if starts_with_pair(units) {
        pair_code_point(units[0], units[1]) as char
    } else {
        REPLACEMENT
    }
}

/// The characters that a sequence of UTF-16 code units stands for, with
/// U+FFFD in place of each unpaired surrogate.
pub open spec fn decode_utf16_lossy(units: Seq<u16>) -> Seq<char>
    decreases units.len(),
{
    if units.len() == 0 {
        Seq::empty()
    } else {
        seq![first_char(units)] + decode_utf16_lossy(units.skip(first_width(units)))
    }
}

/// Whether a text can be cut between `front` and `back` without parting a
/// surrogate pair.
pub open spec fn cut_between(front: Seq<u16>, back: Seq<u16>) -> bool {
    !(front.len() > 0 && back.len() > 0 && is_high_surrogate(front.last()) && is_low_surrogate(
        back[0],
    ))
}

/// Decoding goes part by part: where a text is cut at a place that parts no
/// surrogate pair, the whole decodes to what the two parts decode to, one
/// after the other.
pub proof fn lemma_decode_in_parts(front: Seq<u16>, back: Seq<u16>)
    requires
        cut_between(front, back),
    ensures
        decode_utf16_lossy(front + back) == decode_utf16_lossy(front) + decode_utf16_lossy(back),
    decreases front.len(),
{
    if front.len() > 0 {
        // The whole begins as the front does, since the cut parts no pair.
        let width = first_width(front);
        let rest = front.skip(width);
        assert(first_width(front + back) == width);
        assert(first_char(front + back) == first_char(front));
        assert((front + back).skip(width) == rest + back);
        lemma_decode_in_parts(rest, back);
        assert(seq![first_char(front)] + (decode_utf16_lossy(rest) + decode_utf16_lossy(back))
            == (seq![first_char(front)] + decode_utf16_lossy(rest)) + decode_utf16_lossy(back));
    }
}

/// A surrogate that has no partner beside it is decoded to U+FFFD, and what
/// stands before and after it is decoded as if it stood alone. Text that is
/// not well-formed is never refused.
pub proof fn lemma_unpaired_surrogate_is_replaced(front: Seq<u16>, unit: u16, back: Seq<u16>)
    requires
        is_surrogate(unit),
        cut_between(front, seq![unit]),
        cut_between(seq![unit], back),
    ensures
        decode_utf16_lossy(front + seq![unit] + back) == decode_utf16_lossy(front) + seq![
            REPLACEMENT,
        ] + decode_utf16_lossy(back),
{
    let single = seq![unit];
    assert(decode_utf16_lossy(single) == seq![first_char(single)] + decode_utf16_lossy(
        single.skip(1),
    ));
    lemma_decode_in_parts(single, back);
    lemma_decode_in_parts(front, single + back);
    assert(front + single + back == front + (single + back));
}

/// A surrogate pair is decoded to the one character that it encodes.
pub proof fn lemma_pair_is_one_char(high: u16, low: u16)
    requires
        is_high_surrogate(high),
        is_low_surrogate(low),
    ensures
        decode_utf16_lossy(seq![high, low]) == seq![pair_code_point(high, low) as char],
{
    let pair = seq![high, low];
    assert(decode_utf16_lossy(pair) == seq![first_char(pair)] + decode_utf16_lossy(pair.skip(2)));
}

/// Text without surrogates is decoded unit by unit, each unit to the
/// character with its code point.
pub proof fn lemma_decode_without_surrogates(units: Seq<u16>)
    requires
        forall|i: int| 0 <= i < units.len() ==> !is_surrogate(#[trigger] units[i]),
    ensures
        decode_utf16_lossy(units).len() == units.len(),
        forall|i: int|
            0 <= i < units.len() ==> #[trigger] decode_utf16_lossy(units)[i] == units[i] as char,
    decreases units.len(),
{
    if units.len() > 0 {
        let rest = units.skip(1);
        lemma_decode_without_surrogates(rest);
        assert forall|i: int| 0 <= i < units.len() implies #[trigger] decode_utf16_lossy(units)[i]
            == units[i] as char by {
            if i > 0 {
                assert(decode_utf16_lossy(units)[i] == decode_utf16_lossy(rest)[i - 1]);
            }
        }
    }
}

/// Decoding gives at most one character for each unit and at least one for
/// every two.
pub proof fn lemma_decode_length(units: Seq<u16>)
    ensures
        decode_utf16_lossy(units).len() <= units.len() <= 2 * decode_utf16_lossy(units).len(),
    decreases units.len(),
{
    if units.len() > 0 {
        lemma_decode_length(units.skip(first_width(units)));
    }
}

/// `char::from_u32` gives the character with the given code point when the
/// value is a Unicode scalar value, and nothing otherwise.
pub assume_specification[ char::from_u32 ](value: u32) -> (c: Option<char>)
    ensures
        is_scalar(value) ==> c == Some(value as char),
        !is_scalar(value) ==> c is None,
;

/// `String::push` appends the character to the end of the string.
#[verifier::external_body]
fn push_char(text: &mut String, c: char)
    ensures
        final(text)@ == old(text)@.push(c),
{
    text.push(c)
}

/// The character with the given code point.
fn char_of_scalar(value: u32) -> (c: char)
    requires
        is_scalar(value),
    ensures
        c == value as char,
{
    match char::from_u32(value) {
        Some(c) => c,
        None => vstd::pervasive::unreached(),
    }
}

/// Decodes native text, replacing what cannot be decoded.
pub fn decode_text(units: &[u16]) -> (text: String)
    ensures
        text@ == decode_utf16_lossy(units@),
{
    let mut text = String::new();
    let mut at: usize = 0;
    assert(units@.skip(0) == units@);
    while at < units.len()
        invariant
            at <= units.len(),
            text@ + decode_utf16_lossy(units@.skip(at as int)) == decode_utf16_lossy(units@),
        decreases units.len() - at,
    {
        let ghost rest = units@.skip(at as int);
        let unit: u16 = units[at];
        let mut width: usize = 1;
        let c: char = if unit < 0xD800 || unit > 0xDFFF {
            char_of_scalar(unit as u32)
        } else if unit <= 0xDBFF && at + 1 < units.len() && units[at + 1] >= 0xDC00 && units[at
            + 1] <= 0xDFFF {
            let low: u16 = units[at + 1];
            width = 2;
            let high_bits: u32 = (unit - 0xD800) as u32;
            let low_bits: u32 = (low - 0xDC00) as u32;
            char_of_scalar(0x10000 + high_bits * 0x400 + low_bits)
        } else {
            REPLACEMENT
        };
        proof {
            assert(c == first_char(rest) && width == first_width(rest));
            assert(rest.skip(width as int) == units@.skip(at + width));
            assert(text@.push(c) + decode_utf16_lossy(rest.skip(width as int)) == text@
                + decode_utf16_lossy(rest));
        }
        push_char(&mut text, c);
        at = at + width;
    }
    text
}

} // verus!

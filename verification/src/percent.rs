//! Percent-decoding, as `urlencoding` does it.

use crate::text::text_of;
use vstd::prelude::*;
use vstd::utf8::*;

verus! {

/// The value of a byte that is a hexadecimal digit, in either case.
pub open spec fn hex_value(b: u8) -> Option<u8> {
    if 0x30 <= b <= 0x39 {
        Some((b - 0x30) as u8)
    } else if 0x41 <= b <= 0x46 {
        Some((b - 0x41 + 10) as u8)
    } else if 0x61 <= b <= 0x66 {
        Some((b - 0x61 + 10) as u8)
    } else {
        None
    }
}

/// Whether an escape stands at the head of the bytes: a `%` and two
/// hexadecimal digits.
pub open spec fn escape_at_head(b: Seq<u8>) -> bool {
    b.len() >= 3 && b[0] == 0x25 && hex_value(b[1]) is Some && hex_value(b[2]) is Some
}

/// The bytes with every escape replaced by the byte that its two digits
/// spell. Every other byte stands for itself: a `+`, and a `%` that two
/// hexadecimal digits do not follow.
pub open spec fn unescaped(b: Seq<u8>) -> Seq<u8>
    decreases b.len(),
{
    if b.len() == 0 {
        Seq::empty()
    } else if escape_at_head(b) {
        seq![(hex_value(b[1])->0 * 16 + hex_value(b[2])->0) as u8] + unescaped(b.skip(3))
    } else {
        seq![b[0]] + unescaped(b.skip(1))
    }
}

/// The text that a percent-encoded text stands for: its bytes without the
/// escapes, read as UTF-8; `None` where those bytes are not UTF-8.
pub open spec fn percent_decoded(text: Seq<char>) -> Option<Seq<char>> {
    let bytes = unescaped(encode_utf8(text));
    if valid_utf8(bytes) {
        Some(decode_utf8(bytes))
    } else {
        None
    }
}

/// `urlencoding::decode`: the text that the percent-encoded one stands
/// for, or nothing where the crate reports that the decoded bytes are not
/// UTF-8. Not proved.
#[verifier::external_body]
pub(crate) fn percent_decode(text: &str) -> (decoded: Option<String>)
    ensures
        text_of(decoded) == percent_decoded(text@),
{
    match urlencoding::decode(text) {
        Ok(d) => Some(d.into_owned()),
        Err(_) => None,
    }
}

/// Bytes without a `%` stand for themselves.
pub proof fn lemma_unescaped_plain(b: Seq<u8>)
    requires
        forall|i: int| 0 <= i < b.len() ==> b[i] != 0x25,
    ensures
        unescaped(b) == b,
    decreases b.len(),
{
    if b.len() > 0 {
        let rest = b.skip(1);
        assert forall|i: int| 0 <= i < rest.len() implies rest[i] != 0x25 by {
            assert(rest[i] == b[i + 1]);
        }
        lemma_unescaped_plain(rest);
        assert(seq![b[0]] + rest =~= b);
    } else {
        assert(b =~= Seq::empty());
    }
}

/// A text whose bytes hold no `%` stands for itself; a `+` in it stays a
/// `+`.
pub proof fn lemma_plain_text_decodes_to_itself(text: Seq<char>)
    requires
        forall|i: int| 0 <= i < encode_utf8(text).len() ==> encode_utf8(text)[i] != 0x25,
    ensures
        percent_decoded(text) == Some(text),
{
    lemma_unescaped_plain(encode_utf8(text));
    encode_utf8_valid_utf8(text);
    encode_utf8_decode_utf8(text);
}

} // verus!

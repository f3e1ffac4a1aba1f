//! The wording of what the client shows.

use vstd::prelude::*;
use vstd::string::StringSliceAdditionalSpecFns;
use vstd::utf8::{decode_utf8, encode_utf8, encode_utf8_decode_utf8, is_char_boundary};
use crate::text::{remove_all, without};

verus! {

/// An error message without the prefixes that name the failing layer.
pub open spec fn cleaned(error: Seq<char>) -> Seq<char> {
    without(
        without(without(error, "Request error: "@), "Parse error: "@),
        "Serialization error: "@,
    )
}

/// The text whose UTF-8 encoding is the first `n` bytes of the encoding of
/// `text`.
pub open spec fn byte_prefix(text: Seq<char>, n: int) -> Seq<char> {
    decode_utf8(encode_utf8(text).subrange(0, n))
}

/// A text can be cut after `n` bytes of its encoding: it is no longer than
/// that, or no character straddles the cut.
pub open spec fn can_cut(text: Seq<char>, n: usize) -> bool {
    encode_utf8(text).len() <= n || is_char_boundary(encode_utf8(text), n as int)
}

/// A text held to `max_length` bytes: itself where it is no longer, else
/// its first `max_length` bytes and three dots.
pub open spec fn truncated(text: Seq<char>, max_length: usize) -> Seq<char> {
    if encode_utf8(text).len() <= max_length {
        text
    } else {
        byte_prefix(text, max_length as int) + "..."@
    }
}

/// The date part of a timestamp text: its first ten bytes, or all of it
/// where it is shorter.
pub open spec fn date_part(text: Seq<char>) -> Seq<char> {
    if encode_utf8(text).len() >= 10 {
        byte_prefix(text, 10)
    } else {
        text
    }
}

/// Prepares an error message for display: takes out every `Request error: `,
/// then every `Parse error: `, then every `Serialization error: `.
pub fn format_error(error: &str) -> (r: String)
    ensures
        r@ == cleaned(error@),
{
    let first = remove_all(error, "Request error: ");
    let second = remove_all(first.as_str(), "Parse error: ");
    remove_all(second.as_str(), "Serialization error: ")
}

fn head_bytes(text: &str, n: usize) -> (r: String)
    requires
        n <= encode_utf8(text@).len(),
        is_char_boundary(encode_utf8(text@), n as int),
    ensures
        r@ == byte_prefix(text@, n as int),
{
    let (head, tail) = text.split_at(n);
    proof {
        encode_utf8_decode_utf8(head@);
        assert(head.spec_bytes() == encode_utf8(head@));
        assert(text.spec_bytes() == encode_utf8(text@));
    }
    String::from_str(head)
}

/// Holds a text to `max_length` bytes of UTF-8 for display, marking a cut
/// with three dots. The cut must not fall inside a character.
pub fn truncate_text(text: &str, max_length: usize) -> (r: String)
    requires
        can_cut(text@, max_length),
    ensures
        r@ == truncated(text@, max_length),
{
    if text.as_bytes().len() <= max_length {
        String::from_str(text)
    } else {
        let mut out = head_bytes(text, max_length);
        out.append("...");
        out
    }
}

/// Takes the date (`YYYY-MM-DD`) from a timestamp in ISO 8601 form: its
/// first ten bytes. A shorter text is returned as it is. The tenth byte must
/// not fall inside a character.
pub fn format_date(date_str: &str) -> (r: String)
    requires
        encode_utf8(date_str@).len() < 10 || is_char_boundary(encode_utf8(date_str@), 10),
    ensures
        r@ == date_part(date_str@),
{
    if date_str.as_bytes().len() >= 10 {
        head_bytes(date_str, 10)
    } else {
        String::from_str(date_str)
    }
}

} // verus!

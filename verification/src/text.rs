//! Text that arrives as bytes.

use vstd::prelude::*;
use vstd::utf8::{decode_utf8, valid_utf8};

verus! {

/// `std::str::from_utf8`: the bytes as text, exactly where they are valid UTF-8; the
/// text is then what they decode to.
#[verifier::external_body]
pub(crate) fn utf8_text(bytes: &[u8]) -> (out: Option<&str>)
    ensures
        out is Some <==> valid_utf8(bytes@),
        out is Some ==> out.unwrap()@ == decode_utf8(bytes@),
{
    std::str::from_utf8(bytes).ok()
}

/// The text that `bytes` hold, where they are valid UTF-8.
pub open spec fn text_of_bytes(bytes: Seq<u8>) -> Option<Seq<char>> {
    if valid_utf8(bytes) {
        Some(decode_utf8(bytes))
    } else {
        None
    }
}

/// The character in lower case, where it is one of the letters `A` to `Z`; any
/// other character as it is.
pub open spec fn lower_char(c: char) -> char {
    if 'A' <= c && c <= 'Z' {
        ((c as u8 + 32) as u8) as char
    } else {
        c
    }
}

/// The text with each of the letters `A` to `Z` in lower case.
pub open spec fn lower(text: Seq<char>) -> Seq<char> {
    Seq::new(text.len(), |i: int| lower_char(text[i]))
}

/// Text that is in lower case stays as it is when it is put in lower case again.
pub proof fn lemma_lower_is_idempotent(text: Seq<char>)
    ensures
        lower(lower(text)) == lower(text),
{
    assert(lower(lower(text)) =~= lower(text));
}

/// `str::eq_ignore_ascii_case`: whether two texts are the same once the letters `A`
/// to `Z` are put in lower case in both.
#[verifier::external_body]
pub(crate) fn same_ignoring_case(a: &str, b: &str) -> (out: bool)
    ensures
        out == (lower(a@) == lower(b@)),
{
    a.eq_ignore_ascii_case(b)
}

} // verus!

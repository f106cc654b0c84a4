//! Encodings that a request is written in.
//!
//! Each of them is another crate's work. What is said of it here is that the outcome
//! is a function of what is handed in, under a name that the contracts of the
//! library speak of.

use vstd::prelude::*;

use crate::url::text_of;

verus! {

/// The canonical form of a header name: the name in lower case, where `name` is one;
/// `None` where it is not.
pub uninterp spec fn canonical_header_name(name: Seq<char>) -> Option<Seq<char>>;

/// The base64 text of `bytes`, in the standard alphabet and with padding.
pub uninterp spec fn base64_text(bytes: Seq<u8>) -> Seq<char>;

/// The text that remains when every percent escape in `text` is put back as the
/// byte that it stands for; `None` where the bytes are then no text.
pub uninterp spec fn percent_decoded(text: Seq<char>) -> Option<Seq<char>>;

/// The pairs written as a form: `application/x-www-form-urlencoded`.
pub uninterp spec fn form_encoded(pairs: Seq<(Seq<char>, Seq<char>)>) -> Result<
    Seq<char>,
    Seq<char>,
>;

/// A list of pairs, as the contracts see it.
pub open spec fn pairs_view(pairs: Seq<(String, String)>) -> Seq<(Seq<char>, Seq<char>)> {
    Seq::new(pairs.len(), |i: int| (pairs[i].0@, pairs[i].1@))
}

/// The outcome of an encoding, as the contracts see it.
pub open spec fn encoded_view(outcome: Result<String, String>) -> Result<Seq<char>, Seq<char>> {
    match outcome {
        Ok(text) => Ok(text@),
        Err(message) => Err(message@),
    }
}

/// `http::header::HeaderName::from_bytes`, followed by `HeaderName::as_str`: the
/// name in its canonical form, or `None` where it is not a header name.
#[verifier::external_body]
pub(crate) fn header_name(name: &str) -> (out: Option<String>)
    ensures
        text_of(out) == canonical_header_name(name@),
{
    match http::header::HeaderName::from_bytes(name.as_bytes()) {
        Ok(parsed) => Some(String::from(parsed.as_str())),
        Err(_) => None,
    }
}

/// `base64::encode`: the base64 text of the bytes.
#[verifier::external_body]
pub(crate) fn base64_encode(bytes: &[u8]) -> (out: String)
    ensures
        out@ == base64_text(bytes@),
{
    base64::encode(bytes)
}

/// `percent_encoding::percent_decode`, followed by `PercentDecode::decode_utf8`: the
/// text without its percent escapes, or `None` where the bytes are then no text.
#[verifier::external_body]
pub(crate) fn percent_decode(text: &str) -> (out: Option<String>)
    ensures
        text_of(out) == percent_decoded(text@),
{
    match percent_encoding::percent_decode(text.as_bytes()).decode_utf8() {
        Ok(decoded) => Some(String::from(decoded)),
        Err(_) => None,
    }
}

/// `serde_urlencoded::to_string` on a list of pairs: the pairs written as a form, or
/// the encoder's message where it gives up.
#[verifier::external_body]
pub(crate) fn form_encode(pairs: &Vec<(String, String)>) -> (out: Result<String, String>)
    ensures
        encoded_view(out) == form_encoded(pairs_view(pairs@)),
{
    match serde_urlencoded::to_string(pairs) {
        Ok(text) => Ok(text),
        Err(e) => Err(e.to_string()),
    }
}

} // verus!

//! Absolute URLs.
//!
//! A [`Url`] keeps the canonical text of a URL. Parsing, resolving a reference and
//! taking a URL apart are the `url` crate's work; this module says of each step no
//! more than that its outcome is a function of the text handed in, and gives that
//! function a name that the contracts of the library speak of.

use vstd::prelude::*;
use vstd::utf8::encode_utf8;

use crate::encoding::{encoded_view, pairs_view};

verus! {

/// The canonical text of the URL that `input` parses to; `None` where it is not a URL.
pub uninterp spec fn parsed_url(input: Seq<char>) -> Option<Seq<char>>;

/// The canonical text of `reference` resolved against the URL `base`; `None` where
/// no URL comes of it.
pub uninterp spec fn joined_url(base: Seq<char>, reference: Seq<char>) -> Option<Seq<char>>;

/// The scheme of the URL `url`, in lower case and without the colon.
pub uninterp spec fn scheme_of(url: Seq<char>) -> Seq<char>;

/// The URL `url` with its user name removed.
pub uninterp spec fn without_username(url: Seq<char>) -> Seq<char>;

/// The URL `url` with its password removed.
pub uninterp spec fn without_password(url: Seq<char>) -> Seq<char>;

/// The URL `url` with its fragment removed.
pub uninterp spec fn without_fragment(url: Seq<char>) -> Seq<char>;

/// Whether the URL `url` can be put on the wire as a request target.
pub uninterp spec fn is_wire_uri(url: Seq<char>) -> bool;

/// Whether the URL `url` has an authority: the part with the host, after `//`.
pub uninterp spec fn has_authority(url: Seq<char>) -> bool;

/// The user name in the URL `url`, as it is written there; empty where it has none.
pub uninterp spec fn username_of(url: Seq<char>) -> Seq<char>;

/// The password in the URL `url`, as it is written there.
pub uninterp spec fn password_of(url: Seq<char>) -> Option<Seq<char>>;

/// The query of the URL `url`, without the question mark.
pub uninterp spec fn query_of(url: Seq<char>) -> Option<Seq<char>>;

/// The URL `url` with its query removed.
pub uninterp spec fn without_query(url: Seq<char>) -> Seq<char>;

/// The URL `url` with `pairs` added to its query, or the encoder's message where it
/// gives up.
pub uninterp spec fn with_query_pairs(url: Seq<char>, pairs: Seq<(Seq<char>, Seq<char>)>) -> Result<
    Seq<char>,
    Seq<char>,
>;

/// The most bytes that adding `pairs` to a query can add: each byte of a key or a
/// value is written as at most three, and each pair brings an equals sign and a
/// separator.
pub open spec fn pairs_weight(pairs: Seq<(Seq<char>, Seq<char>)>) -> nat
    decreases pairs.len(),
{
    if pairs.len() == 0 {
        0
    } else {
        pairs_weight(pairs.drop_last()) + 3 * (encode_utf8(pairs.last().0).len() + encode_utf8(
            pairs.last().1,
        ).len()) + 2
    }
}

/// The longest text that a URL can have, in bytes.
pub const MAX_URL_BYTES: u32 = u32::MAX;

/// Whether the URL `url` is sure to stay within the longest text that a URL can have
/// when `pairs` are added to its query.
pub open spec fn query_fits(url: Seq<char>, pairs: Seq<(Seq<char>, Seq<char>)>) -> bool {
    encode_utf8(url).len() + 1 + pairs_weight(pairs) <= MAX_URL_BYTES
}

/// The URL `url` with `pairs` added to its query. There is none where the URL might
/// grow too long, nor where the encoder gives up; the error is then the reason.
pub open spec fn appended(url: Seq<char>, pairs: Seq<(Seq<char>, Seq<char>)>) -> Result<
    Seq<char>,
    Seq<char>,
> {
    if query_fits(url, pairs) {
        with_query_pairs(url, pairs)
    } else {
        Err("URL too long"@)
    }
}

/// Whether `text` holds nothing but spaces and the visible characters of ASCII.
pub open spec fn is_printable(text: Seq<char>) -> bool {
    forall|i: int| 0 <= i < text.len() ==> ' ' <= #[trigger] text[i] && text[i] <= '~'
}

/// A text is canonical when parsing it gives the same text back.
pub open spec fn is_url(text: Seq<char>) -> bool {
    parsed_url(text) == Some(text)
}

/// The characters of an optional string.
pub open spec fn text_of(s: Option<String>) -> Option<Seq<char>> {
    match s {
        Some(t) => Some(t@),
        None => None,
    }
}

/// `url::Url::parse`, followed by `Url::as_str`: the canonical text of the URL that
/// `input` denotes, or `None` where the parser rejects it. Canonical text parses to
/// itself.
#[verifier::external_body]
pub(crate) fn url_parse(input: &str) -> (out: Option<String>)
    ensures
        text_of(out) == parsed_url(input@),
        out is Some ==> is_url(out.unwrap()@),
{
    ::url::Url::parse(input).ok().map(String::from)
}

/// `url::Url::join` on the URL with the text `base`: the canonical text of
/// `reference` resolved against it, or `None` where the parser rejects it.
#[verifier::external_body]
pub(crate) fn url_join(base: &str, reference: &str) -> (out: Option<String>)
    ensures
        text_of(out) == joined_url(base@, reference@),
        out is Some ==> is_url(out.unwrap()@),
{
    ::url::Url::parse(base).ok()?.join(reference).ok().map(String::from)
}

/// `url::Url::scheme` on the URL with the text `url`.
#[verifier::external_body]
pub(crate) fn url_scheme(url: &str) -> (out: String)
    ensures
        out@ == scheme_of(url@),
{
    match ::url::Url::parse(url) {
        Ok(u) => String::from(u.scheme()),
        Err(_) => String::new(),
    }
}

/// `url::Url::set_username` with the empty name, on the URL with the text `url`:
/// the text of the URL afterwards, which is again canonical. A URL that can carry
/// no user name is left as it is.
#[verifier::external_body]
pub(crate) fn url_clear_username(url: &str) -> (out: String)
    requires
        is_url(url@),
    ensures
        out@ == without_username(url@),
        is_url(out@),
{
    match ::url::Url::parse(url) {
        Ok(mut u) => {
            let _ = u.set_username("");
            String::from(u)
        },
        Err(_) => String::from(url),
    }
}

/// `url::Url::set_password` with no password, on the URL with the text `url`: the
/// text of the URL afterwards, which is again canonical. A URL that can carry no
/// password is left as it is.
#[verifier::external_body]
pub(crate) fn url_clear_password(url: &str) -> (out: String)
    requires
        is_url(url@),
    ensures
        out@ == without_password(url@),
        is_url(out@),
{
    match ::url::Url::parse(url) {
        Ok(mut u) => {
            let _ = u.set_password(None);
            String::from(u)
        },
        Err(_) => String::from(url),
    }
}

/// `url::Url::set_fragment` with no fragment, on the URL with the text `url`: the
/// text of the URL afterwards, which is again canonical. It holds nothing but spaces
/// and visible characters of ASCII: the `url` crate writes scheme, host and port in
/// ASCII, and every other part through a set of characters to escape that covers
/// the control characters and all that lies outside ASCII.
#[verifier::external_body]
pub(crate) fn url_clear_fragment(url: &str) -> (out: String)
    requires
        is_url(url@),
    ensures
        out@ == without_fragment(url@),
        is_url(out@),
        is_printable(out@),
{
    match ::url::Url::parse(url) {
        Ok(mut u) => {
            u.set_fragment(None);
            String::from(u)
        },
        Err(_) => String::from(url),
    }
}

/// `url::Url::has_authority` on the URL with the text `url`.
#[verifier::external_body]
pub(crate) fn url_has_authority(url: &str) -> (out: bool)
    ensures
        out == has_authority(url@),
{
    match ::url::Url::parse(url) {
        Ok(u) => u.has_authority(),
        Err(_) => false,
    }
}

/// `url::Url::username` on the URL with the text `url`.
#[verifier::external_body]
pub(crate) fn url_username(url: &str) -> (out: String)
    ensures
        out@ == username_of(url@),
{
    match ::url::Url::parse(url) {
        Ok(u) => String::from(u.username()),
        Err(_) => String::new(),
    }
}

/// `url::Url::password` on the URL with the text `url`.
#[verifier::external_body]
pub(crate) fn url_password(url: &str) -> (out: Option<String>)
    ensures
        text_of(out) == password_of(url@),
{
    match ::url::Url::parse(url) {
        Ok(u) => u.password().map(String::from),
        Err(_) => None,
    }
}

/// `url::Url::query` on the URL with the text `url`.
#[verifier::external_body]
pub(crate) fn url_query(url: &str) -> (out: Option<String>)
    ensures
        text_of(out) == query_of(url@),
{
    match ::url::Url::parse(url) {
        Ok(u) => u.query().map(String::from),
        Err(_) => None,
    }
}

/// `url::Url::set_query` with no query, on the URL with the text `url`: the text of
/// the URL afterwards, which is again canonical.
#[verifier::external_body]
pub(crate) fn url_clear_query(url: &str) -> (out: String)
    requires
        is_url(url@),
    ensures
        out@ == without_query(url@),
        is_url(out@),
{
    match ::url::Url::parse(url) {
        Ok(mut u) => {
            u.set_query(None);
            String::from(u)
        },
        Err(_) => String::from(url),
    }
}

/// `url::Url::query_pairs_mut` on the URL with the text `url`, filled by
/// `serde_urlencoded::Serializer` with the pairs: the text of the URL afterwards,
/// which is again canonical, or the encoder's message where it gives up. The URL
/// must be sure to stay within the length that the `url` crate can count: it does
/// not return where the text grows past that.
#[verifier::external_body]
pub(crate) fn url_append_pairs(url: &str, pairs: &Vec<(String, String)>) -> (out: Result<
    String,
    String,
>)
    requires
        is_url(url@),
        query_fits(url@, pairs_view(pairs@)),
    ensures
        encoded_view(out) == with_query_pairs(url@, pairs_view(pairs@)),
        out is Ok ==> is_url(out.unwrap()@),
{
    match ::url::Url::parse(url) {
        Ok(mut u) => {
            let failure = serde::Serialize::serialize(
                pairs,
                serde_urlencoded::Serializer::new(&mut u.query_pairs_mut()),
            ).err();
            match failure {
                None => Ok(String::from(u)),
                Some(e) => Err(e.to_string()),
            }
        },
        Err(e) => Err(e.to_string()),
    }
}

/// `http::Uri::from_str` on the text `url`: whether it is accepted as a request
/// target.
#[verifier::external_body]
pub(crate) fn url_fits_wire(url: &str) -> (out: bool)
    ensures
        out == is_wire_uri(url@),
{
    url.parse::<http::Uri>().is_ok()
}

/// An absolute URL, held as its canonical text.
#[derive(Debug)]
pub struct Url {
    text: String,
}

impl View for Url {
    type V = Seq<char>;

    closed spec fn view(&self) -> Seq<char> {
        self.text@
    }
}

impl Url {
    #[verifier::type_invariant]
    spec fn canonical(self) -> bool {
        is_url(self.text@)
    }

    /// Parses `input`. The result is `None` exactly where `input` is not a URL.
    pub fn parse(input: &str) -> (out: Option<Url>)
        ensures
            out is Some <==> parsed_url(input@) is Some,
            out is Some ==> Some(out.unwrap()@) == parsed_url(input@),
    {
        match url_parse(input) {
            Some(text) => Some(Url { text }),
            None => None,
        }
    }

    /// The canonical text.
    pub fn as_str(&self) -> (out: &str)
        ensures
            out@ == self@,
    {
        self.text.as_str()
    }

    /// A copy of this URL.
    pub fn duplicate(&self) -> (out: Url)
        ensures
            out@ == self@,
    {
        proof {
            use_type_invariant(self);
        }
        Url { text: self.text.clone() }
    }

    /// Resolves `reference` against this URL, as a browser resolves a link found
    /// on a page. The result is `None` exactly where no URL comes of it.
    pub fn join(&self, reference: &str) -> (out: Option<Url>)
        ensures
            out is Some <==> joined_url(self@, reference@) is Some,
            out is Some ==> Some(out.unwrap()@) == joined_url(self@, reference@),
    {
        match url_join(self.text.as_str(), reference) {
            Some(text) => Some(Url { text }),
            None => None,
        }
    }

    /// The scheme, in lower case and without the colon.
    pub fn scheme(&self) -> (out: String)
        ensures
            out@ == scheme_of(self@),
    {
        url_scheme(self.text.as_str())
    }

    /// This URL without its user name.
    pub fn clear_username(&self) -> (out: Url)
        ensures
            out@ == without_username(self@),
    {
        proof {
            use_type_invariant(self);
        }
        Url { text: url_clear_username(self.text.as_str()) }
    }

    /// This URL without its password.
    pub fn clear_password(&self) -> (out: Url)
        ensures
            out@ == without_password(self@),
    {
        proof {
            use_type_invariant(self);
        }
        Url { text: url_clear_password(self.text.as_str()) }
    }

    /// This URL without its fragment. Its text holds nothing but spaces and visible
    /// characters of ASCII.
    pub fn clear_fragment(&self) -> (out: Url)
        ensures
            out@ == without_fragment(self@),
            is_printable(out@),
    {
        proof {
            use_type_invariant(self);
        }
        Url { text: url_clear_fragment(self.text.as_str()) }
    }

    /// Whether this URL has an authority.
    pub fn has_authority(&self) -> (out: bool)
        ensures
            out == has_authority(self@),
    {
        url_has_authority(self.text.as_str())
    }

    /// The user name, as it is written in the URL; empty where there is none.
    pub fn username(&self) -> (out: String)
        ensures
            out@ == username_of(self@),
    {
        url_username(self.text.as_str())
    }

    /// The password, as it is written in the URL.
    pub fn password(&self) -> (out: Option<String>)
        ensures
            text_of(out) == password_of(self@),
    {
        url_password(self.text.as_str())
    }

    /// The query, without the question mark.
    pub fn query(&self) -> (out: Option<String>)
        ensures
            text_of(out) == query_of(self@),
    {
        url_query(self.text.as_str())
    }

    /// This URL without its query.
    pub fn clear_query(&self) -> (out: Url)
        ensures
            out@ == without_query(self@),
    {
        proof {
            use_type_invariant(self);
        }
        Url { text: url_clear_query(self.text.as_str()) }
    }

    /// This URL with `pairs` added to its query. It is not had where the URL might
    /// grow too long, nor where the encoder gives up; the error is then the reason.
    pub fn append_pairs(&self, pairs: &Vec<(String, String)>) -> (out: Result<Url, String>)
        ensures
            out is Ok <==> appended(self@, pairs_view(pairs@)) is Ok,
            out is Ok ==> Ok::<Seq<char>, Seq<char>>(out->Ok_0@) == appended(
                self@,
                pairs_view(pairs@),
            ),
            out is Err ==> Err::<Seq<char>, Seq<char>>(out->Err_0@) == appended(
                self@,
                pairs_view(pairs@),
            ),
    {
        proof {
            use_type_invariant(self);
        }
        let ghost all = pairs_view(pairs@);
        let mut total: u128 = self.text.as_str().as_bytes().len() as u128 + 1;
        if total > MAX_URL_BYTES as u128 {
            return Err("URL too long".to_owned());
        }
        let mut i: usize = 0;
        assert(all.take(0).len() == 0);
        while i < pairs.len()
            invariant
                i <= pairs.len(),
                all == pairs_view(pairs@),
                total == encode_utf8(self@).len() + 1 + pairs_weight(all.take(i as int)),
                total <= MAX_URL_BYTES,
            decreases pairs.len() - i,
        {
            let key: usize = pairs[i].0.as_str().as_bytes().len();
            let value: usize = pairs[i].1.as_str().as_bytes().len();
            let more: u128 = 3 * (key as u128 + value as u128) + 2;
            proof {
                assert(all.take(i as int + 1).drop_last() =~= all.take(i as int));
                assert(all.take(i as int + 1).last() == all[i as int]);
                lemma_weight_grows(all, i as int + 1);
            }
            if more > MAX_URL_BYTES as u128 || total + more > MAX_URL_BYTES as u128 {
                return Err("URL too long".to_owned());
            }
            total = total + more;
            i += 1;
        }
        assert(all.take(i as int) =~= all);
        match url_append_pairs(self.text.as_str(), pairs) {
            Ok(text) => Ok(Url { text }),
            Err(message) => Err(message),
        }
    }

    /// Whether this URL can be put on the wire as a request target.
    pub fn fits_wire(&self) -> (out: bool)
        ensures
            out == is_wire_uri(self@),
    {
        url_fits_wire(self.text.as_str())
    }
}

/// The pairs at the front of a list weigh no more than the whole list.
pub proof fn lemma_weight_grows(pairs: Seq<(Seq<char>, Seq<char>)>, front: int)
    requires
        0 <= front <= pairs.len(),
    ensures
        pairs_weight(pairs.take(front)) <= pairs_weight(pairs),
    decreases pairs.len() - front,
{
    if front < pairs.len() {
        lemma_weight_grows(pairs, front + 1);
        assert(pairs.take(front + 1).drop_last() =~= pairs.take(front));
    } else {
        assert(pairs.take(front) =~= pairs);
    }
}

} // verus!

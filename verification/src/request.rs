//! Requests.

use vstd::prelude::*;

use vstd::utf8::encode_utf8;

use crate::body::{Body, BodyView};
use crate::buffer::{buffer_copy, buffer_from_vec};
use crate::encoding::{
    base64_encode, base64_text, canonical_header_name, form_encode, form_encoded, header_name,
    pairs_view, percent_decode, percent_decoded,
};
use crate::error::{builder, Cause, CauseView, Error, ErrorView, Kind};
use crate::headers::{
    check_header_value, is_header_value, lemma_standard_names_are_lower, names_of, without_name,
    without_names, Header, HeaderMap,
};
use crate::text::lower;
use crate::time::Span;
use crate::url::{
    appended, has_authority, parsed_url, password_of, query_of, username_of,
    without_password, without_query, without_username, Url,
};

verus! {

/// A request method.
#[derive(Clone, Copy, Debug, PartialEq, Eq, Structural)]
pub enum Method {
    Get,
    Head,
    Post,
    Put,
    Patch,
    Delete,
    Options,
    Connect,
    Trace,
}

impl Method {
    /// Whether a redirect that turns other methods into `GET` leaves this one as
    /// it is: that holds of `GET` and `HEAD`.
    pub open spec fn is_safe_to_keep(self) -> bool {
        self == Method::Get || self == Method::Head
    }

    /// The method with which a request is sent again after a redirect that does
    /// not keep the method: `GET`, unless the method was `HEAD`.
    pub open spec fn spec_downgraded(self) -> Method {
        if self.is_safe_to_keep() {
            self
        } else {
            Method::Get
        }
    }

    /// The method with which a request is sent again after a redirect that does
    /// not keep the method.
    #[verifier::when_used_as_spec(spec_downgraded)]
    pub fn downgraded(self) -> (out: Method)
        ensures
            out == self.spec_downgraded(),
    {
        match self {
            Method::Get => Method::Get,
            Method::Head => Method::Head,
            _ => Method::Get,
        }
    }
}

/// A request, as the contracts see it.
pub struct RequestView {
    pub method: Method,
    pub url: Seq<char>,
    pub headers: Seq<Header>,
    pub body: Option<BodyView>,
    pub timeout: Option<Span>,
    pub cors: bool,
}

/// A request: what is to be sent, where, and for how long to wait.
#[derive(Debug)]
pub struct Request {
    pub method: Method,
    pub url: Url,
    pub headers: HeaderMap,
    pub body: Option<Body>,
    pub timeout: Option<Span>,
    pub cors: bool,
}

/// An optional body, as the contracts see it.
pub open spec fn body_view(body: Option<Body>) -> Option<BodyView> {
    match body {
        Some(b) => Some(b@),
        None => None,
    }
}

impl View for Request {
    type V = RequestView;

    open spec fn view(&self) -> RequestView {
        RequestView {
            method: self.method,
            url: self.url@,
            headers: self.headers@,
            body: body_view(self.body),
            timeout: self.timeout,
            cors: self.cors,
        }
    }
}

impl Request {
    /// A request without headers, body or deadline.
    pub fn new(method: Method, url: Url) -> (out: Request)
        ensures
            out@ == (RequestView {
                method,
                url: url@,
                headers: Seq::empty(),
                body: None,
                timeout: None,
                cors: true,
            }),
    {
        Request { method, url, headers: HeaderMap::new(), body: None, timeout: None, cors: true }
    }

    /// The method.
    pub fn method(&self) -> (out: &Method)
        ensures
            *out == self@.method,
    {
        &self.method
    }

    /// The method, to change it.
    pub fn method_mut(&mut self) -> (out: &mut Method)
        ensures
            *out == old(self).method,
            *final(self) == (Request { method: *final(out), ..*old(self) }),
    {
        &mut self.method
    }

    /// The URL.
    pub fn url(&self) -> (out: &Url)
        ensures
            out@ == self@.url,
    {
        &self.url
    }

    /// The URL, to change it.
    pub fn url_mut(&mut self) -> (out: &mut Url)
        ensures
            *out == old(self).url,
            *final(self) == (Request { url: *final(out), ..*old(self) }),
    {
        &mut self.url
    }

    /// The headers.
    pub fn headers(&self) -> (out: &HeaderMap)
        ensures
            out@ == self@.headers,
    {
        &self.headers
    }

    /// The headers, to change them.
    pub fn headers_mut(&mut self) -> (out: &mut HeaderMap)
        ensures
            *out == old(self).headers,
            *final(self) == (Request { headers: *final(out), ..*old(self) }),
    {
        &mut self.headers
    }

    /// The body.
    pub fn body(&self) -> (out: Option<&Body>)
        ensures
            out is Some <==> self@.body is Some,
            out is Some ==> Some(out.unwrap()@) == self@.body,
    {
        self.body.as_ref()
    }

    /// The body, to change it.
    pub fn body_mut(&mut self) -> (out: &mut Option<Body>)
        ensures
            *out == old(self).body,
            *final(self) == (Request { body: *final(out), ..*old(self) }),
    {
        &mut self.body
    }

    /// The time allowed for the whole request.
    pub fn timeout(&self) -> (out: Option<&Span>)
        ensures
            out is Some <==> self@.timeout is Some,
            out is Some ==> Some(*out.unwrap()) == self@.timeout,
    {
        self.timeout.as_ref()
    }

    /// The time allowed for the whole request, to change it.
    pub fn timeout_mut(&mut self) -> (out: &mut Option<Span>)
        ensures
            *out == old(self).timeout,
            *final(self) == (Request { timeout: *final(out), ..*old(self) }),
    {
        &mut self.timeout
    }

    /// A second request with the same method, URL, headers, deadline and body. It
    /// can be had exactly where the body can be had twice: where there is none, or
    /// a fixed one. Otherwise the attempt ends in the body's error.
    pub fn try_clone(&self) -> (out: Result<Request, Error>)
        ensures
            match self@.body {
                Some(b) => b is Fixed,
                None => true,
            } ==> out is Ok && out.unwrap()@ == (RequestView { cors: true, ..self@ }),
            match self@.body {
                Some(b) => !(b is Fixed),
                None => false,
            } ==> out is Err && out.unwrap_err()@ == (crate::error::ErrorView {
                kind: crate::error::Kind::Body,
                cause: crate::error::CauseView::CannotCloneBody,
                url: None,
            }),
    {
        let body = match &self.body {
            Some(b) => match b.try_clone() {
                Ok(copy) => Some(copy),
                Err(e) => {
                    return Err(e);
                },
            },
            None => None,
        };
        let mut req = Request::new(self.method, self.url.duplicate());
        req.timeout = self.timeout;
        req.headers = self.headers.duplicate();
        req.body = body;
        Ok(req)
    }
}

/// The builder error with the given message.
pub open spec fn builder_error(message: Seq<char>) -> ErrorView {
    ErrorView { kind: Kind::Builder, cause: CauseView::Other(message), url: None }
}

/// The user name and the password that a URL carries, without their percent
/// escapes. There are none where the URL has no authority, where the user name is
/// no text once its escapes are undone, and where the user name is empty and there
/// is no password. A password that is no text counts as none.
pub open spec fn authority_of(url: Seq<char>) -> Option<(Seq<char>, Option<Seq<char>>)> {
    if has_authority(url) {
        match percent_decoded(username_of(url)) {
            Some(user) => {
                let password = match password_of(url) {
                    Some(p) => percent_decoded(p),
                    None => None,
                };
                if user.len() > 0 || password is Some {
                    Some((user, password))
                } else {
                    None
                }
            },
            None => None,
        }
    } else {
        None
    }
}

/// The names of a user, as the contracts see them.
pub open spec fn authority_view(authority: Option<(String, Option<String>)>) -> Option<
    (Seq<char>, Option<Seq<char>>),
> {
    match authority {
        Some((user, password)) => Some((user@, crate::url::text_of(password))),
        None => None,
    }
}

/// Takes user name and password out of a URL, where it carries them: they are
/// returned without their percent escapes, and the URL is left without them.
pub fn extract_authority(url: &mut Url) -> (out: Option<(String, Option<String>)>)
    ensures
        authority_view(out) == authority_of(old(url)@),
        out is Some ==> final(url)@ == without_password(without_username(old(url)@)),
        out is None ==> final(url)@ == old(url)@,
{
    if url.has_authority() {
        let written = url.username();
        let username = match percent_decode(written.as_str()) {
            Some(username) => username,
            None => {
                return None;
            },
        };
        let password = match url.password() {
            Some(p) => percent_decode(p.as_str()),
            None => None,
        };
        if !username.as_str().is_empty() || password.is_some() {
            *url = url.clear_username().clear_password();
            return Some((username, password));
        }
    }
    None
}

/// The text of the `Authorization` header for a user name and a password.
pub open spec fn basic_credentials(username: Seq<char>, password: Option<Seq<char>>) -> Seq<char> {
    "Basic "@ + base64_text(
        encode_utf8(
            username + ":"@ + match password {
                Some(p) => p,
                None => Seq::empty(),
            },
        ),
    )
}

/// A request in the making, as the contracts see it.
pub type BuilderView = Result<RequestView, ErrorView>;

/// The request with one more header: `key` in its canonical form and in lower
/// case, with `value`. A `key` that is no header name, or a `value` that cannot
/// stand in a header, makes the request a builder error. An error stays what it is.
pub open spec fn with_header(
    made: BuilderView,
    key: Seq<char>,
    value: Seq<u8>,
    sensitive: bool,
) -> BuilderView {
    match made {
        Ok(req) => match canonical_header_name(key) {
            Some(name) => if is_header_value(value) {
                Ok(
                    RequestView {
                        headers: req.headers.push(
                            Header { name: lower(name), value, sensitive },
                        ),
                        ..req
                    },
                )
            } else {
                Err(builder_error("failed to parse header value"@))
            },
            None => Err(builder_error("invalid HTTP header name"@)),
        },
        Err(e) => Err(e),
    }
}

/// The request with `pairs` added to the query of its URL. A query that is then
/// empty is removed. Where the URL might grow too long, or the pairs cannot be
/// encoded, the request becomes a builder error with the reason.
pub open spec fn with_query(made: BuilderView, pairs: Seq<(Seq<char>, Seq<char>)>) -> BuilderView {
    match made {
        Ok(req) => match appended(req.url, pairs) {
            Ok(url) => Ok(
                RequestView {
                    url: if query_of(url) == Some(Seq::<char>::empty()) {
                        without_query(url)
                    } else {
                        url
                    },
                    ..req
                },
            ),
            Err(message) => Err(builder_error(message)),
        },
        Err(e) => Err(e),
    }
}

/// The request with `bytes` as its body and `content_type` as its only
/// `Content-Type`.
pub open spec fn with_payload(req: RequestView, content_type: Seq<char>, bytes: Seq<u8>) -> RequestView {
    RequestView {
        headers: without_name(req.headers, "content-type"@).push(
            Header { name: "content-type"@, value: encode_utf8(content_type), sensitive: false },
        ),
        body: Some(BodyView::Fixed(bytes)),
        ..req
    }
}

/// The request with `pairs` as its body, written as a form. Where the pairs cannot
/// be encoded, the request becomes a builder error with the encoder's message.
pub open spec fn with_form(made: BuilderView, pairs: Seq<(Seq<char>, Seq<char>)>) -> BuilderView {
    match made {
        Ok(req) => match form_encoded(pairs) {
            Ok(text) => Ok(
                with_payload(req, "application/x-www-form-urlencoded"@, encode_utf8(text)),
            ),
            Err(message) => Err(builder_error(message)),
        },
        Err(e) => Err(e),
    }
}

/// The request with a document as its body, which was written as JSON beforehand.
/// Where that failed, the request becomes a builder error with the writer's message.
pub open spec fn with_json(made: BuilderView, written: Result<Seq<u8>, Seq<char>>) -> BuilderView {
    match made {
        Ok(req) => match written {
            Ok(bytes) => Ok(with_payload(req, "application/json"@, bytes)),
            Err(message) => Err(builder_error(message)),
        },
        Err(e) => Err(e),
    }
}

/// The request that is begun for `method` and the text `url`: a builder error where
/// the text is no URL. User name and password in the URL move into an
/// `Authorization` header.
pub open spec fn begun(method: Method, url: Seq<char>) -> BuilderView {
    match parsed_url(url) {
        Some(parsed) => {
            let plain = RequestView {
                method,
                url: parsed,
                headers: Seq::empty(),
                body: None,
                timeout: None,
                cors: true,
            };
            match authority_of(parsed) {
                Some((user, password)) => with_header(
                    Ok(RequestView { url: without_password(without_username(parsed)), ..plain }),
                    "authorization"@,
                    encode_utf8(basic_credentials(user, password)),
                    true,
                ),
                None => Ok(plain),
            }
        },
        None => Err(builder_error("invalid URL"@)),
    }
}

/// A request in the making. A step that fails turns it into the error, which the
/// steps after it leave alone and [`RequestBuilder::build`] returns.
#[derive(Debug)]
pub struct RequestBuilder {
    pub request: Result<Request, Error>,
}

impl View for RequestBuilder {
    type V = BuilderView;

    open spec fn view(&self) -> BuilderView {
        match self.request {
            Ok(req) => Ok(req@),
            Err(e) => Err(e@),
        }
    }
}

impl RequestBuilder {
    /// Begins a request for `method` and `url`.
    pub fn new(method: Method, url: &str) -> (out: RequestBuilder)
        ensures
            out@ == begun(method, url@),
    {
        let mut parsed = match Url::parse(url) {
            Some(parsed) => parsed,
            None => {
                return RequestBuilder {
                    request: Err(builder(Cause::Other("invalid URL".to_owned()))),
                };
            },
        };
        let authority = extract_authority(&mut parsed);
        let made = RequestBuilder { request: Ok(Request::new(method, parsed)) };
        match authority {
            Some((user, password)) => match password {
                Some(p) => made.basic_auth(user.as_str(), Some(p.as_str())),
                None => made.basic_auth(user.as_str(), None),
            },
            None => made,
        }
    }

    /// Begins a `GET` request.
    pub fn get(url: &str) -> (out: RequestBuilder)
        ensures
            out@ == begun(Method::Get, url@),
    {
        RequestBuilder::new(Method::Get, url)
    }

    /// Begins a `POST` request.
    pub fn post(url: &str) -> (out: RequestBuilder)
        ensures
            out@ == begun(Method::Post, url@),
    {
        RequestBuilder::new(Method::Post, url)
    }

    /// Begins a `PUT` request.
    pub fn put(url: &str) -> (out: RequestBuilder)
        ensures
            out@ == begun(Method::Put, url@),
    {
        RequestBuilder::new(Method::Put, url)
    }

    /// Begins a `PATCH` request.
    pub fn patch(url: &str) -> (out: RequestBuilder)
        ensures
            out@ == begun(Method::Patch, url@),
    {
        RequestBuilder::new(Method::Patch, url)
    }

    /// Begins a `DELETE` request.
    pub fn delete(url: &str) -> (out: RequestBuilder)
        ensures
            out@ == begun(Method::Delete, url@),
    {
        RequestBuilder::new(Method::Delete, url)
    }

    /// Begins a `HEAD` request.
    pub fn head(url: &str) -> (out: RequestBuilder)
        ensures
            out@ == begun(Method::Head, url@),
    {
        RequestBuilder::new(Method::Head, url)
    }

    /// Adds a header after those that are there.
    pub fn header(self, key: &str, value: &[u8]) -> (out: RequestBuilder)
        ensures
            out@ == with_header(self@, key@, value@, false),
    {
        self.header_sensitive(key, value, false)
    }

    /// Adds a header after those that are there; `sensitive` marks a value that is
    /// not to be shown.
    pub fn header_sensitive(self, key: &str, value: &[u8], sensitive: bool) -> (out: RequestBuilder)
        ensures
            out@ == with_header(self@, key@, value@, sensitive),
    {
        match self.request {
            Ok(mut req) => match header_name(key) {
                Some(name) => if check_header_value(value) {
                    let mut bytes: Vec<u8> = Vec::new();
                    bytes.extend_from_slice(value);
                    assert(bytes@ =~= value@);
                    req.headers.append(name, bytes, sensitive);
                    RequestBuilder { request: Ok(req) }
                } else {
                    RequestBuilder {
                        request: Err(
                            builder(Cause::Other("failed to parse header value".to_owned())),
                        ),
                    }
                },
                None => RequestBuilder {
                    request: Err(builder(Cause::Other("invalid HTTP header name".to_owned()))),
                },
            },
            Err(e) => RequestBuilder { request: Err(e) },
        }
    }

    /// Puts `headers` in the place of the headers of the same names.
    pub fn headers(self, headers: HeaderMap) -> (out: RequestBuilder)
        ensures
            out@ == match self@ {
                Ok(req) => Ok(
                    RequestView {
                        headers: without_names(req.headers, names_of(headers@)) + headers@,
                        ..req
                    },
                ),
                Err(e) => Err(e),
            },
    {
        match self.request {
            Ok(mut req) => {
                req.headers.replace_headers(headers);
                RequestBuilder { request: Ok(req) }
            },
            Err(e) => RequestBuilder { request: Err(e) },
        }
    }

    /// Adds an `Authorization` header for a user name and a password.
    pub fn basic_auth(self, username: &str, password: Option<&str>) -> (out: RequestBuilder)
        ensures
            out@ == with_header(
                self@,
                "authorization"@,
                encode_utf8(
                    basic_credentials(
                        username@,
                        match password {
                            Some(p) => Some(p@),
                            None => None,
                        },
                    ),
                ),
                true,
            ),
    {
        let mut auth = String::from_str(username);
        auth.append(":");
        let ghost shown: Seq<char> = match password {
            Some(p) => p@,
            None => Seq::empty(),
        };
        match password {
            Some(p) => {
                auth.append(p);
            },
            None => {
                assert(auth@ + Seq::<char>::empty() =~= auth@);
            },
        }
        assert(auth@ == username@ + ":"@ + shown);
        let encoded = base64_encode(auth.as_str().as_bytes());
        let header_value = String::from_str("Basic ").concat(encoded.as_str());
        self.header_sensitive("authorization", header_value.as_str().as_bytes(), true)
    }

    /// Adds an `Authorization` header for a bearer token.
    pub fn bearer_auth(self, token: &str) -> (out: RequestBuilder)
        ensures
            out@ == with_header(self@, "authorization"@, encode_utf8("Bearer "@ + token@), true),
    {
        let header_value = String::from_str("Bearer ").concat(token);
        self.header_sensitive("authorization", header_value.as_str().as_bytes(), true)
    }

    /// Sets the body.
    pub fn body(self, body: Body) -> (out: RequestBuilder)
        ensures
            out@ == match self@ {
                Ok(req) => Ok(RequestView { body: Some(body@), ..req }),
                Err(e) => Err(e),
            },
    {
        match self.request {
            Ok(mut req) => {
                req.body = Some(body);
                RequestBuilder { request: Ok(req) }
            },
            Err(e) => RequestBuilder { request: Err(e) },
        }
    }

    /// Sets the time allowed for the whole request.
    pub fn timeout(self, timeout: Span) -> (out: RequestBuilder)
        ensures
            out@ == match self@ {
                Ok(req) => Ok(RequestView { timeout: Some(timeout), ..req }),
                Err(e) => Err(e),
            },
    {
        match self.request {
            Ok(mut req) => {
                req.timeout = Some(timeout);
                RequestBuilder { request: Ok(req) }
            },
            Err(e) => RequestBuilder { request: Err(e) },
        }
    }

    /// Adds `pairs` to the query of the URL.
    pub fn query(self, pairs: &Vec<(String, String)>) -> (out: RequestBuilder)
        ensures
            out@ == with_query(self@, pairs_view(pairs@)),
    {
        match self.request {
            Ok(mut req) => match req.url.append_pairs(pairs) {
                Ok(url) => {
                    let empty = match url.query() {
                        Some(q) => {
                            assert(q@.len() == 0 ==> q@ =~= Seq::<char>::empty());
                            q.as_str().is_empty()
                        },
                        None => false,
                    };
                    req.url = if empty {
                        url.clear_query()
                    } else {
                        url
                    };
                    RequestBuilder { request: Ok(req) }
                },
                Err(message) => RequestBuilder { request: Err(builder(Cause::Other(message))) },
            },
            Err(e) => RequestBuilder { request: Err(e) },
        }
    }

    /// Sets `pairs` as the body, written as a form.
    pub fn form(self, pairs: &Vec<(String, String)>) -> (out: RequestBuilder)
        ensures
            out@ == with_form(self@, pairs_view(pairs@)),
    {
        match self.request {
            Ok(mut req) => match form_encode(pairs) {
                Ok(text) => {
                    proof {
                        lemma_standard_names_are_lower();
                    }
                    let mut kind: Vec<u8> = Vec::new();
                    kind.extend_from_slice("application/x-www-form-urlencoded".as_bytes());
                    assert(kind@ =~= encode_utf8("application/x-www-form-urlencoded"@));
                    req.headers.insert("content-type".to_owned(), kind, false);
                    req.body = Some(Body::from_bytes(buffer_copy(text.as_str().as_bytes())));
                    RequestBuilder { request: Ok(req) }
                },
                Err(message) => RequestBuilder { request: Err(builder(Cause::Other(message))) },
            },
            Err(e) => RequestBuilder { request: Err(e) },
        }
    }

    /// Sets as the body a document that was written as JSON beforehand; `written` is
    /// the outcome of the writing.
    pub fn json(self, written: Result<Vec<u8>, String>) -> (out: RequestBuilder)
        ensures
            out@ == with_json(self@, crate::body::read_view(written)),
    {
        match self.request {
            Ok(mut req) => match written {
                Ok(bytes) => {
                    proof {
                        lemma_standard_names_are_lower();
                    }
                    let mut kind: Vec<u8> = Vec::new();
                    kind.extend_from_slice("application/json".as_bytes());
                    assert(kind@ =~= encode_utf8("application/json"@));
                    req.headers.insert("content-type".to_owned(), kind, false);
                    req.body = Some(Body::from_bytes(buffer_from_vec(bytes)));
                    RequestBuilder { request: Ok(req) }
                },
                Err(message) => RequestBuilder { request: Err(builder(Cause::Other(message))) },
            },
            Err(e) => RequestBuilder { request: Err(e) },
        }
    }

    /// Lets the request go out without the checks of cross-origin sharing, where
    /// the environment makes any.
    pub fn fetch_mode_no_cors(self) -> (out: RequestBuilder)
        ensures
            out@ == match self@ {
                Ok(req) => Ok(RequestView { cors: false, ..req }),
                Err(e) => Err(e),
            },
    {
        match self.request {
            Ok(mut req) => {
                req.cors = false;
                RequestBuilder { request: Ok(req) }
            },
            Err(e) => RequestBuilder { request: Err(e) },
        }
    }

    /// The request, or the error of the first step that failed.
    pub fn build(self) -> (out: Result<Request, Error>)
        ensures
            out == self.request,
    {
        self.request
    }

    /// A second builder for the same request. It can be had exactly where the
    /// request can be had twice; for a builder that holds an error, the result is a
    /// copy of the error.
    pub fn try_clone(&self) -> (out: Result<RequestBuilder, Error>)
        ensures
            self@ is Err ==> out is Err && out->Err_0@ == self@->Err_0,
            self@ is Ok && !(self@->Ok_0.body matches Some(b) && !(b is Fixed)) ==> out is Ok
                && out->Ok_0@ == Ok::<RequestView, ErrorView>(
                RequestView { cors: true, ..self@->Ok_0 },
            ),
            self@ is Ok && (self@->Ok_0.body matches Some(b) && !(b is Fixed)) ==> out is Err
                && out->Err_0@ == (ErrorView {
                kind: Kind::Body,
                cause: CauseView::CannotCloneBody,
                url: None,
            }),
    {
        match &self.request {
            Ok(req) => match req.try_clone() {
                Ok(copy) => Ok(RequestBuilder { request: Ok(copy) }),
                Err(e) => Err(e),
            },
            Err(e) => Err(e.duplicate()),
        }
    }
}

/// The decimal digits of `n`, as bytes.
pub open spec fn decimal_digits(n: nat) -> Seq<u8>
    decreases n,
{
    if n < 10 {
        seq![(48 + n) as u8]
    } else {
        decimal_digits(n / 10).push((48 + n % 10) as u8)
    }
}

/// The decimal digits of `n`, as bytes.
pub fn decimal(n: u64) -> (out: Vec<u8>)
    ensures
        out@ == decimal_digits(n as nat),
    decreases n,
{
    if n < 10 {
        let mut out: Vec<u8> = Vec::new();
        out.push(48 + n as u8);
        assert(out@ =~= seq![(48 + n) as u8]);
        out
    } else {
        let mut out = decimal(n / 10);
        out.push(48 + (n % 10) as u8);
        out
    }
}

impl Request {
    /// The request for a method, a target, headers and a body that were taken from
    /// a request of another kind. A target that is no URL is a builder error.
    pub fn try_from_parts(method: Method, uri: &str, headers: HeaderMap, body: Body) -> (out:
        Result<Request, Error>)
        ensures
            parsed_url(uri@) is None ==> out is Err && out->Err_0@ == builder_error(
                "invalid URL"@,
            ),
            parsed_url(uri@) is Some ==> out is Ok && out->Ok_0@ == (RequestView {
                method,
                url: parsed_url(uri@).unwrap(),
                headers: headers@,
                body: Some(body@),
                timeout: None,
                cors: true,
            }),
    {
        match Url::parse(uri) {
            Some(url) => Ok(
                Request { method, url, headers, body: Some(body), timeout: None, cors: true },
            ),
            None => Err(builder(Cause::Other("invalid URL".to_owned()))),
        }
    }

    /// The request as it is handed to the worker: where the size of its body is
    /// known, `Content-Length` says so.
    pub fn into_async(self) -> (out: Request)
        ensures
            out@ == match self@.body {
                Some(b) => match b.size() {
                    Some(len) => RequestView {
                        headers: without_name(self@.headers, "content-length"@).push(
                            Header {
                                name: "content-length"@,
                                value: decimal_digits(len as nat),
                                sensitive: false,
                            },
                        ),
                        ..self@
                    },
                    None => self@,
                },
                None => self@,
            },
    {
        proof {
            lemma_standard_names_are_lower();
        }
        let mut req = self;
        let known = match &req.body {
            Some(b) => b.size_hint(),
            None => None,
        };
        if let Some(len) = known {
            req.headers.insert("content-length".to_owned(), decimal(len), false);
        }
        req
    }
}

} // verus!

//! The errors that building and carrying out a request can end in.

use vstd::prelude::*;

use crate::url::Url;

verus! {

/// Where an error arose.
#[derive(Clone, Copy, Debug, PartialEq, Eq, Structural)]
pub enum Kind {
    /// A request or a client was put together from input that cannot be used.
    Builder,
    /// An exchange with the server failed, or took too long.
    Request,
    /// The redirect policy gave a redirect up.
    Redirect,
    /// A body could not be produced or copied.
    Body,
}

/// What lies under an error, as the contracts see it.
pub enum CauseView {
    TimedOut,
    CannotCloneBody,
    Other(Seq<char>),
}

/// What lies under an error.
#[derive(Debug)]
pub enum Cause {
    /// A deadline passed.
    TimedOut,
    /// A body that can be read only once was asked for a copy.
    CannotCloneBody,
    /// A failure reported from outside, by its message.
    Other(String),
}

impl View for Cause {
    type V = CauseView;

    open spec fn view(&self) -> CauseView {
        match self {
            Cause::TimedOut => CauseView::TimedOut,
            Cause::CannotCloneBody => CauseView::CannotCloneBody,
            Cause::Other(message) => CauseView::Other(message@),
        }
    }
}

impl Cause {
    /// A copy of this cause.
    pub fn duplicate(&self) -> (out: Cause)
        ensures
            out@ == self@,
    {
        match self {
            Cause::TimedOut => Cause::TimedOut,
            Cause::CannotCloneBody => Cause::CannotCloneBody,
            Cause::Other(message) => Cause::Other(message.clone()),
        }
    }
}

/// An error, as the contracts see it.
pub struct ErrorView {
    pub kind: Kind,
    pub cause: CauseView,
    pub url: Option<Seq<char>>,
}

/// An error: where it arose, what lies under it, and the URL it concerns.
#[derive(Debug)]
pub struct Error {
    pub kind: Kind,
    pub cause: Cause,
    pub url: Option<Url>,
}

/// The text of an optional URL.
pub open spec fn url_text(url: Option<Url>) -> Option<Seq<char>> {
    match url {
        Some(u) => Some(u@),
        None => None,
    }
}

impl View for Error {
    type V = ErrorView;

    open spec fn view(&self) -> ErrorView {
        ErrorView { kind: self.kind, cause: self.cause@, url: url_text(self.url) }
    }
}

impl Error {
    /// An error of the given kind and cause that concerns no URL yet.
    pub fn new(kind: Kind, cause: Cause) -> (out: Error)
        ensures
            out@ == (ErrorView { kind, cause: cause@, url: None }),
    {
        Error { kind, cause, url: None }
    }

    /// The same error, now concerning `url`.
    pub fn with_url(self, url: Url) -> (out: Error)
        ensures
            out@ == (ErrorView { kind: self@.kind, cause: self@.cause, url: Some(url@) }),
    {
        Error { kind: self.kind, cause: self.cause, url: Some(url) }
    }

    /// The URL that the error concerns.
    pub fn url(&self) -> (out: Option<&Url>)
        ensures
            out is Some <==> self@.url is Some,
            out is Some ==> Some(out.unwrap()@) == self@.url,
    {
        self.url.as_ref()
    }

    /// Whether the error arose while a request or a client was put together.
    pub fn is_builder(&self) -> (out: bool)
        ensures
            out == (self@.kind == Kind::Builder),
    {
        self.kind == Kind::Builder
    }

    /// Whether the error arose in an exchange.
    pub fn is_request(&self) -> (out: bool)
        ensures
            out == (self@.kind == Kind::Request),
    {
        self.kind == Kind::Request
    }

    /// Whether the redirect policy gave a redirect up.
    pub fn is_redirect(&self) -> (out: bool)
        ensures
            out == (self@.kind == Kind::Redirect),
    {
        self.kind == Kind::Redirect
    }

    /// Whether the error concerns a body.
    pub fn is_body(&self) -> (out: bool)
        ensures
            out == (self@.kind == Kind::Body),
    {
        self.kind == Kind::Body
    }

    /// Whether a deadline passed.
    pub fn is_timeout(&self) -> (out: bool)
        ensures
            out == (self@.cause == CauseView::TimedOut),
    {
        match self.cause {
            Cause::TimedOut => true,
            _ => false,
        }
    }

    /// A copy of this error.
    pub fn duplicate(&self) -> (out: Error)
        ensures
            out@ == self@,
    {
        let url = match &self.url {
            Some(u) => Some(u.duplicate()),
            None => None,
        };
        Error { kind: self.kind, cause: self.cause.duplicate(), url }
    }
}

/// A builder error with the given cause.
pub fn builder(cause: Cause) -> (out: Error)
    ensures
        out@ == (ErrorView { kind: Kind::Builder, cause: cause@, url: None }),
{
    Error::new(Kind::Builder, cause)
}

/// A request error with the given cause.
pub fn request(cause: Cause) -> (out: Error)
    ensures
        out@ == (ErrorView { kind: Kind::Request, cause: cause@, url: None }),
{
    Error::new(Kind::Request, cause)
}

/// A body error with the given cause.
pub fn body(cause: Cause) -> (out: Error)
    ensures
        out@ == (ErrorView { kind: Kind::Body, cause: cause@, url: None }),
{
    Error::new(Kind::Body, cause)
}

/// A redirect error with the given cause, concerning `url`.
pub fn redirect(cause: Cause, url: Url) -> (out: Error)
    ensures
        out@ == (ErrorView { kind: Kind::Redirect, cause: cause@, url: Some(url@) }),
{
    Error::new(Kind::Redirect, cause).with_url(url)
}

} // verus!

//! Calling the asynchronous client from a thread that wants to block.
//!
//! A worker thread carries the requests out. A caller hands its request over
//! together with a channel for the answer, and waits for the answer on its own
//! thread, for no longer than the timeout allows. On the worker each request runs
//! beside a watch on its channel: a caller that has gone gets no answer. The threads
//! and the channels are not here; the rules by which they are used are.

use vstd::prelude::*;

use crate::error::{builder, request, Cause, CauseView, Error, ErrorView, Kind};
use crate::executor::TimedOut;
use crate::request::Request;
use crate::task::{Response, ResponseView};
use crate::time::Span;
use crate::url::Url;

verus! {

/// The seconds that a client waits for a request unless it is told otherwise.
pub const DEFAULT_TIMEOUT_SECS: u64 = 30;

/// The time that a client allows each request; `None` allows any.
#[derive(Clone, Copy, Debug, PartialEq, Eq, Structural)]
pub struct Timeout(pub Option<Span>);

impl Default for Timeout {
    fn default() -> (out: Timeout)
        ensures
            out == Timeout(Some(Span { secs: DEFAULT_TIMEOUT_SECS, nanos: 0 })),
    {
        Timeout(Some(Span::from_secs(DEFAULT_TIMEOUT_SECS)))
    }
}

/// The time allowed for one request: the request's own timeout where it has one,
/// the client's otherwise.
pub open spec fn effective_timeout(own: Option<Span>, client: Timeout) -> Option<Span> {
    match own {
        Some(span) => Some(span),
        None => client.0,
    }
}

/// What the worker's watch over one request has come to.
#[derive(Debug)]
pub enum Race<T> {
    /// The request is done: its result is to be sent to the caller.
    Send(T),
    /// The caller has gone: the request is dropped, and nothing is sent.
    Cancelled,
    /// Neither: watch on.
    Pending,
}

/// One look of the worker at a request and at the caller's channel. `finished` is
/// the request's result where it has one, `closed` says whether the caller has
/// dropped its end. A caller that has gone is sent nothing, whether a result is
/// there or not: the request is dropped. Otherwise a result that is there is sent,
/// and without one the watch goes on.
pub fn await_while_open<T>(finished: Option<T>, closed: bool) -> (out: Race<T>)
    ensures
        closed ==> out == Race::<T>::Cancelled,
        !closed && finished is Some ==> out == Race::Send(finished.unwrap()),
        !closed && finished is None ==> out == Race::<T>::Pending,
{
    if closed {
        Race::Cancelled
    } else {
        match finished {
            Some(result) => Race::Send(result),
            None => Race::Pending,
        }
    }
}

/// What the worker reports once it has tried to set its scheduler up: that it runs,
/// or a builder error with the reason why it does not.
pub fn startup_report(failure: Option<String>) -> (out: Result<(), Error>)
    ensures
        failure is None ==> out is Ok,
        failure is Some ==> out is Err && out->Err_0@ == (ErrorView {
            kind: Kind::Builder,
            cause: CauseView::Other(failure.unwrap()@),
            url: None,
        }),
{
    match failure {
        Some(reason) => Err(builder(Cause::Other(reason))),
        None => Ok(()),
    }
}

/// A client for callers that block: the time that it allows each request.
#[derive(Clone, Copy, Debug, PartialEq, Eq, Structural)]
pub struct Client {
    pub timeout: Timeout,
}

/// The result of a wait, as the contracts see it.
pub open spec fn answer_view(answer: Result<Response, Error>) -> Result<ResponseView, ErrorView> {
    match answer {
        Ok(response) => Ok(response@),
        Err(e) => Err(e@),
    }
}

impl Client {
    /// A client that allows each request the given time.
    pub fn with_timeout(timeout: Timeout) -> (out: Client)
        ensures
            out.timeout == timeout,
    {
        Client { timeout }
    }

    /// The time to wait for `request`: its own timeout where it has one, the
    /// client's otherwise.
    pub fn timeout_for(&self, request: &Request) -> (out: Option<Span>)
        ensures
            out == effective_timeout(request@.timeout, self.timeout),
    {
        match request.timeout {
            Some(span) => Some(span),
            None => self.timeout.0,
        }
    }

    /// What the caller gets after its wait for the request that it sent to `url`:
    /// the response; the request's own error, at `url`; or, where the wait ran out
    /// of time, a request error at `url` that says so.
    pub open spec fn answer(
        outcome: Result<Result<ResponseView, ErrorView>, TimedOut>,
        url: Seq<char>,
    ) -> Result<ResponseView, ErrorView> {
        match outcome {
            Ok(Ok(response)) => Ok(response),
            Ok(Err(e)) => Err(ErrorView { url: Some(url), ..e }),
            Err(_) => Err(
                ErrorView { kind: Kind::Request, cause: CauseView::TimedOut, url: Some(url) },
            ),
        }
    }

    /// Takes the outcome of the wait for the request that was sent to `url`.
    pub fn conclude(&self, outcome: Result<Result<Response, Error>, TimedOut>, url: Url) -> (out:
        Result<Response, Error>)
        ensures
            answer_view(out) == Self::answer(
                match outcome {
                    Ok(answer) => Ok(answer_view(answer)),
                    Err(t) => Err(t),
                },
                url@,
            ),
    {
        match outcome {
            Ok(Ok(response)) => Ok(response),
            Ok(Err(e)) => Err(e.with_url(url)),
            Err(_) => Err(request(Cause::TimedOut).with_url(url)),
        }
    }
}

} // verus!

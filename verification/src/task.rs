//! Carrying one request through its redirects.
//!
//! A request is sent, and the response may point elsewhere; the request is then
//! rewritten and sent again, until a response is final or the request fails. The
//! sending is not done here. A [`RequestTask`] waits for an exchange; what comes of
//! the exchange is handed to it, and it says what to do next:
//!
//! * [`RequestTask::on_wake`] is asked whenever the task is woken. A deadline that
//!   has passed ends the request, whatever the exchange has come to; an exchange
//!   that is still on its way leaves the task waiting; a failure ends the request;
//!   a response is looked at.
//! * [`RequestTask::on_response`] looks at a response. If the response redirects and
//!   its target can be used, the redirect policy is to be asked ([`Deciding`]);
//!   otherwise the response is delivered.
//! * [`Deciding::decide`] takes the policy's answer: follow ([`Rewriting`]), deliver
//!   the response that is there, or fail.
//! * [`Rewriting::resend`] takes what the header sanitizer and the cookie jar say
//!   about the new target, and gives the next exchange and the task that waits for it.

use bytes::Bytes;
use vstd::prelude::*;
use vstd::utf8::encode_utf8;

use crate::body::{Body, BodyView, StreamingBody};
use crate::buffer::{buffer_content, buffer_share};
use crate::error::{redirect, request, Cause, CauseView, Error, ErrorView, Kind};
use crate::headers::{
    check_header_value, first_value, has_name, is_header_value, lemma_first_value_of_inserted,
    lemma_has_name_filter, lemma_has_name_push, lemma_standard_names_are_lower,
    lemma_without_keeps_absent, without_name,
    without_names, Header, HeaderMap,
};
use crate::request::{Method, Request, RequestView};
use crate::text::{lower, text_of_bytes, utf8_text};
use crate::url::{
    is_printable, is_wire_uri, joined_url, scheme_of, without_fragment, without_password,
    without_username, Url,
};

verus! {

/// What is left of the request's body for sending it again, as the contracts see it.
pub enum ResendView {
    Nothing,
    ConsumedStream,
    ReusableBuffer(Seq<u8>),
}

/// What is left of the request's body for sending it again.
#[derive(Debug)]
pub enum Resend {
    /// The request has no body, or none is to be sent again.
    Nothing,
    /// The body went out with the first exchange and cannot be had again.
    ConsumedStream,
    /// The body is a buffer, which every exchange can share.
    ReusableBuffer(Bytes),
}

impl View for Resend {
    type V = ResendView;

    open spec fn view(&self) -> ResendView {
        match self {
            Resend::Nothing => ResendView::Nothing,
            Resend::ConsumedStream => ResendView::ConsumedStream,
            Resend::ReusableBuffer(bytes) => ResendView::ReusableBuffer(buffer_content(*bytes)),
        }
    }
}

/// What is handed to the transport for one exchange, as the contracts see it.
pub struct ExchangeView {
    pub method: Method,
    pub url: Seq<char>,
    pub headers: Seq<Header>,
    pub body: BodyView,
}

/// What is handed to the transport for one exchange.
#[derive(Debug)]
pub struct Exchange {
    pub method: Method,
    pub url: Url,
    pub headers: HeaderMap,
    pub body: Body,
}

impl View for Exchange {
    type V = ExchangeView;

    open spec fn view(&self) -> ExchangeView {
        ExchangeView {
            method: self.method,
            url: self.url@,
            headers: self.headers@,
            body: self.body@,
        }
    }
}

/// How the body of a response is to be decoded.
#[derive(Clone, Copy, Debug, PartialEq, Eq, Structural)]
pub struct Accepts {
    /// Whether a compressed body is unpacked.
    pub gzip: bool,
}

/// A response as it is delivered, as the contracts see it.
pub struct ResponseView {
    pub status: u16,
    pub headers: Seq<Header>,
    pub url: Seq<char>,
    pub accepts: Accepts,
    pub body: BodyView,
}

/// A response as it is delivered: what the transport received, the URL that it came
/// from, how its body is to be decoded, and a body that is bounded by the request's
/// deadline while that still runs.
#[derive(Debug)]
pub struct Response {
    pub status: u16,
    pub headers: HeaderMap,
    pub url: Url,
    pub accepts: Accepts,
    pub body: Body,
}

impl View for Response {
    type V = ResponseView;

    open spec fn view(&self) -> ResponseView {
        ResponseView {
            status: self.status,
            headers: self.headers@,
            url: self.url@,
            accepts: self.accepts,
            body: self.body@,
        }
    }
}

/// The texts of a list of URLs.
pub open spec fn chain_view(chain: Seq<Url>) -> Seq<Seq<char>> {
    Seq::new(chain.len(), |i: int| chain[i]@)
}

/// A task, as the contracts see it.
pub struct TaskView {
    pub request: RequestView,
    pub body: ResendView,
    pub chain: Seq<Seq<char>>,
    pub referer: bool,
    pub accepts: Accepts,
}

/// One request on its way: the request as it was last sent, what is left of its body
/// for sending it again, the URLs that it was redirected away from, whether a
/// redirect is to name the page that it came from, and how the body of the response
/// is to be decoded.
#[derive(Debug)]
pub struct RequestTask {
    pub request: Request,
    pub body: Resend,
    pub redirect_chain: Vec<Url>,
    pub referer: bool,
    pub accepts: Accepts,
}

impl View for RequestTask {
    type V = TaskView;

    open spec fn view(&self) -> TaskView {
        TaskView {
            request: self.request@,
            body: self.body@,
            chain: chain_view(self.redirect_chain@),
            referer: self.referer,
            accepts: self.accepts,
        }
    }
}

/// The header value that names `previous` as the page from which `next` was
/// reached: `previous` without user name, password and fragment. There is none
/// exactly where the way leads from `https` to `http`.
pub open spec fn referer_value(next: Seq<char>, previous: Seq<char>) -> Option<Seq<u8>> {
    if scheme_of(next) == "http"@ && scheme_of(previous) == "https"@ {
        None
    } else {
        Some(encode_utf8(without_fragment(without_password(without_username(previous)))))
    }
}

/// A text of spaces and visible characters of ASCII can stand in a header.
pub proof fn lemma_printable_is_header_value(text: Seq<char>)
    requires
        is_printable(text),
    ensures
        is_header_value(encode_utf8(text)),
{
    assert(vstd::utf8::is_ascii_chars(text)) by {
        assert forall|i: int| 0 <= i < text.len() implies '\0' <= #[trigger] text[i]
            <= '\u{7f}' by {
            assert(' ' <= text[i] && text[i] <= '~');
        }
    }
    vstd::utf8::is_ascii_chars_encode_utf8(text);
    let bytes = encode_utf8(text);
    assert forall|i: int| 0 <= i < bytes.len() implies crate::headers::is_value_byte(
        #[trigger] bytes[i],
    ) by {
        assert(' ' <= text[i] && text[i] <= '~');
        assert(text[i] as u8 == bytes[i]);
    }
}

/// The value of the `Referer` header for a redirect from `previous` to `next`:
/// `previous` without user name, password and fragment, and none exactly where the
/// way leads from `https` to `http`.
pub fn make_referer(next: &Url, previous: &Url) -> (out: Option<Vec<u8>>)
    ensures
        out is None <==> scheme_of(next@) == "http"@ && scheme_of(previous@) == "https"@,
        out is Some <==> referer_value(next@, previous@) is Some,
        out is Some ==> Some(out.unwrap()@) == referer_value(next@, previous@),
        out is Some ==> is_header_value(out.unwrap()@),
{
    let http: String = "http".to_owned();
    let https: String = "https".to_owned();
    if next.scheme() == http && previous.scheme() == https {
        return None;
    }
    let bare = previous.clear_username().clear_password().clear_fragment();
    let bytes = bare.as_str().as_bytes();
    proof {
        lemma_printable_is_header_value(bare@);
    }
    if check_header_value(bytes) {
        let mut value: Vec<u8> = Vec::new();
        value.extend_from_slice(bytes);
        assert(value@ =~= bytes@);
        Some(value)
    } else {
        None
    }
}

/// Whether a response with this status always redirects, and turns the request into
/// one without a body.
pub open spec fn drops_body(status: u16) -> bool {
    status == 301 || status == 302 || status == 303
}

/// Whether a response with this status redirects and wants the same request, body
/// included, sent again.
pub open spec fn keeps_body(status: u16) -> bool {
    status == 307 || status == 308
}

/// The headers without those that describe a body.
pub open spec fn without_payload_headers(headers: Seq<Header>) -> Seq<Header> {
    without_name(
        without_name(
            without_name(without_name(headers, "transfer-encoding"@), "content-encoding"@),
            "content-type"@,
        ),
        "content-length"@,
    )
}

/// The URL that a response sends the request on to: its `Location`, read as text
/// and resolved against `url`. There is none where the header is absent, is not
/// text, resolves to no URL, or resolves to one that cannot go on the wire.
pub open spec fn redirect_target(url: Seq<char>, response_headers: Seq<Header>) -> Option<
    Seq<char>,
> {
    match first_value(response_headers, "location"@) {
        Some(bytes) => match text_of_bytes(bytes) {
            Some(text) => match joined_url(url, text) {
                Some(target) => if is_wire_uri(target) {
                    Some(target)
                } else {
                    None
                },
                None => None,
            },
            None => None,
        },
        None => None,
    }
}

impl TaskView {
    /// Whether a response with this status can redirect the request: always where
    /// the status drops the body; where it keeps the body, unless the body went out
    /// as a stream; not with any other status.
    pub open spec fn eligible(self, status: u16) -> bool {
        drops_body(status) || (keeps_body(status) && !(self.body is ConsumedStream))
    }

    /// The task after it has looked at the status: where the status drops the body,
    /// nothing is left to send again, the headers that describe a body are gone, and
    /// the method is `GET` unless it was `HEAD`.
    pub open spec fn prepared(self, status: u16) -> TaskView {
        if drops_body(status) {
            TaskView {
                request: RequestView {
                    method: self.request.method.downgraded(),
                    headers: without_payload_headers(self.request.headers),
                    ..self.request
                },
                body: ResendView::Nothing,
                ..self
            }
        } else {
            self
        }
    }

    /// The task with its `Referer` header made right for a redirect to `target`. A
    /// task that sets the header gets the value that belongs to the way from its URL
    /// to the target in the place of any value that was there; where that way has no
    /// value, as from `https` to `http`, no `Referer` is left at all. A task that
    /// does not set the header leaves the headers alone.
    pub open spec fn with_referer(self, target: Seq<char>) -> TaskView {
        if self.referer {
            let bare = without_name(self.request.headers, "referer"@);
            TaskView {
                request: RequestView {
                    headers: match referer_value(target, self.request.url) {
                        Some(value) => bare.push(
                            Header { name: "referer"@, value, sensitive: false },
                        ),
                        None => bare,
                    },
                    ..self.request
                },
                ..self
            }
        } else {
            self
        }
    }

    /// The response that the task delivers when it takes no redirect: what the
    /// exchange brought, the URL that the request was last sent to, the task's way
    /// of decoding, and a body that the deadline bounds while it runs.
    pub open spec fn delivery(self, status: u16, headers: Seq<Header>, bounded: bool) -> ResponseView {
        ResponseView {
            status,
            headers,
            url: self.request.url,
            accepts: self.accepts,
            body: BodyView::Stream(StreamingBody { bounded }),
        }
    }

    /// What the task does with a response.
    pub open spec fn on_response(self, status: u16, headers: Seq<Header>, bounded: bool) -> StepView {
        let response = self.delivery(status, headers, bounded);
        match redirect_target(self.request.url, headers) {
            Some(target) => if self.eligible(status) {
                StepView::Consult(
                    DecidingView {
                        task: self.prepared(status).with_referer(target),
                        candidate: target,
                        response,
                    },
                )
            } else {
                StepView::Deliver(response)
            },
            None => StepView::Deliver(response),
        }
    }
}

/// A task that waits for the redirect policy, as the contracts see it.
pub struct DecidingView {
    pub task: TaskView,
    pub candidate: Seq<char>,
    pub response: ResponseView,
}

/// A task that has a response which redirects to `candidate`, and waits for the
/// redirect policy to say whether to go there. `response` is what is delivered if
/// the policy stops the redirect.
#[derive(Debug)]
pub struct Deciding {
    pub task: RequestTask,
    pub candidate: Url,
    pub response: Response,
}

impl View for Deciding {
    type V = DecidingView;

    open spec fn view(&self) -> DecidingView {
        DecidingView { task: self.task@, candidate: self.candidate@, response: self.response@ }
    }
}

/// What a task does with a response, as the contracts see it.
pub enum StepView {
    Consult(DecidingView),
    Deliver(ResponseView),
}

/// What a task does with a response.
#[derive(Debug)]
pub enum Step {
    /// The response redirects: the policy is to be asked.
    Consult(Deciding),
    /// The response is final.
    Deliver(Response),
}

impl View for Step {
    type V = StepView;

    open spec fn view(&self) -> StepView {
        match self {
            Step::Consult(d) => StepView::Consult(d@),
            Step::Deliver(r) => StepView::Deliver(r@),
        }
    }
}

/// What an exchange has come to when the task looks at it, as the contracts see it.
pub open spec fn outcome_view(outcome: Option<Result<(u16, HeaderMap), String>>) -> Option<
    Result<(u16, Seq<Header>), Seq<char>>,
> {
    match outcome {
        Some(Ok((status, headers))) => Some(Ok((status, headers@))),
        Some(Err(message)) => Some(Err(message@)),
        None => None,
    }
}

/// Where a task stands after it was woken, as the contracts see it.
pub enum ProgressView {
    Failed(ErrorView),
    Wait(TaskView),
    Resolved(StepView),
}

/// Where a task stands after it was woken.
#[derive(Debug)]
pub enum Progress {
    /// The request has failed.
    Failed(Error),
    /// The exchange is still on its way: the task waits on.
    Wait(RequestTask),
    /// The exchange brought a response, and the task has looked at it.
    Resolved(Step),
}

impl View for Progress {
    type V = ProgressView;

    open spec fn view(&self) -> ProgressView {
        match self {
            Progress::Failed(e) => ProgressView::Failed(e@),
            Progress::Wait(task) => ProgressView::Wait(task@),
            Progress::Resolved(step) => ProgressView::Resolved(step@),
        }
    }
}

impl TaskView {
    /// Where the task stands after it was woken. The deadline comes first: once it
    /// has passed, the request has timed out at the URL that it was last sent to,
    /// whatever the exchange has come to. Otherwise an exchange that is still on its
    /// way leaves the task as it is; one that failed fails the request at that URL
    /// with the transport's message; and one that brought a response is looked at.
    pub open spec fn on_wake(
        self,
        deadline_passed: bool,
        outcome: Option<Result<(u16, Seq<Header>), Seq<char>>>,
        bounded: bool,
    ) -> ProgressView {
        if deadline_passed {
            ProgressView::Failed(
                ErrorView {
                    kind: Kind::Request,
                    cause: CauseView::TimedOut,
                    url: Some(self.request.url),
                },
            )
        } else {
            match outcome {
                None => ProgressView::Wait(self),
                Some(Err(message)) => ProgressView::Failed(
                    ErrorView {
                        kind: Kind::Request,
                        cause: CauseView::Other(message),
                        url: Some(self.request.url),
                    },
                ),
                Some(Ok((status, headers))) => ProgressView::Resolved(
                    self.on_response(status, headers, bounded),
                ),
            }
        }
    }
}

/// The URL that a response sends the request on to, if it names one that can be used.
pub fn resolve_location(url: &Url, response_headers: &HeaderMap) -> (out: Option<Url>)
    ensures
        out is Some <==> redirect_target(url@, response_headers@) is Some,
        out is Some ==> Some(out.unwrap()@) == redirect_target(url@, response_headers@),
{
    proof {
        lemma_standard_names_are_lower();
    }
    let bytes = match response_headers.get("location") {
        Some(bytes) => bytes,
        None => {
            proof {
                crate::headers::lemma_has_name_filter(response_headers@, "location"@);
            }
            return None;
        },
    };
    let text = match utf8_text(bytes.as_slice()) {
        Some(text) => text,
        None => {
            return None;
        },
    };
    match url.join(text) {
        Some(target) => if target.fits_wire() {
            Some(target)
        } else {
            None
        },
        None => None,
    }
}

impl RequestTask {
    /// Takes a request in hand. The result is the task that waits for the first
    /// exchange, and that exchange: the request's method, URL and headers, and its
    /// body, or an empty one where it has none. A fixed body stays with the task for
    /// sending again; of any other only the note is kept that it went out.
    pub fn new(request: Request, referer: bool, accepts: Accepts) -> (out: (
        RequestTask,
        Exchange,
    ))
        ensures
            out.0@ == (TaskView {
                request: RequestView { body: None, ..request@ },
                body: match request@.body {
                    Some(BodyView::Fixed(content)) => ResendView::ReusableBuffer(content),
                    Some(_) => ResendView::ConsumedStream,
                    None => ResendView::Nothing,
                },
                chain: Seq::empty(),
                referer,
                accepts,
            }),
            out.1@ == (ExchangeView {
                method: request@.method,
                url: request@.url,
                headers: request@.headers,
                body: match request@.body {
                    Some(b) => b,
                    None => BodyView::Fixed(Seq::empty()),
                },
            }),
    {
        let Request { method, url, headers, body, timeout, cors } = request;
        let (marker, first) = match body {
            Some(b) => match b.try_reuse() {
                Some(bytes) => (Resend::ReusableBuffer(bytes), b),
                None => (Resend::ConsumedStream, b),
            },
            None => (Resend::Nothing, Body::empty()),
        };
        let exchange = Exchange {
            method,
            url: url.duplicate(),
            headers: headers.duplicate(),
            body: first,
        };
        let task = RequestTask {
            request: Request { method, url, headers, body: None, timeout, cors },
            body: marker,
            redirect_chain: Vec::new(),
            referer,
            accepts,
        };
        assert(task@.chain =~= Seq::empty());
        (task, exchange)
    }

    /// The task was woken while it waited for its exchange. `deadline_passed` says
    /// whether the request's deadline has passed, `outcome` what the exchange has
    /// come to, if anything, and `bounded` whether a deadline runs at all.
    pub fn on_wake(
        self,
        deadline_passed: bool,
        outcome: Option<Result<(u16, HeaderMap), String>>,
        bounded: bool,
    ) -> (out: Progress)
        ensures
            out@ == self@.on_wake(deadline_passed, outcome_view(outcome), bounded),
    {
        if deadline_passed {
            return Progress::Failed(self.on_deadline());
        }
        match outcome {
            None => Progress::Wait(self),
            Some(Err(message)) => Progress::Failed(self.on_transport_error(message)),
            Some(Ok((status, headers))) => Progress::Resolved(
                self.on_response(status, headers, bounded),
            ),
        }
    }

    /// The deadline passed while the task waited: the request has timed out at the
    /// URL that it was last sent to.
    pub fn on_deadline(self) -> (out: Error)
        ensures
            out@ == (ErrorView {
                kind: Kind::Request,
                cause: CauseView::TimedOut,
                url: Some(self@.request.url),
            }),
    {
        request(Cause::TimedOut).with_url(self.request.url)
    }

    /// The exchange failed: the request has failed at the URL that it was last sent
    /// to, with the transport's message.
    pub fn on_transport_error(self, message: String) -> (out: Error)
        ensures
            out@ == (ErrorView {
                kind: Kind::Request,
                cause: CauseView::Other(message@),
                url: Some(self@.request.url),
            }),
    {
        request(Cause::Other(message)).with_url(self.request.url)
    }

    /// The exchange brought a response, with this status and these headers; `bounded`
    /// says whether the request's deadline still runs.
    pub fn on_response(self, status: u16, headers: HeaderMap, bounded: bool) -> (out: Step)
        ensures
            out@ == self@.on_response(status, headers@, bounded),
    {
        proof {
            lemma_standard_names_are_lower();
        }
        let mut task = self;
        let response = Response {
            status,
            headers,
            url: task.request.url.duplicate(),
            accepts: task.accepts,
            body: Body::response(bounded),
        };
        let eligible = if status == 301 || status == 302 || status == 303 {
            true
        } else if status == 307 || status == 308 {
            match task.body {
                Resend::ConsumedStream => false,
                _ => true,
            }
        } else {
            false
        };
        if !eligible {
            return Step::Deliver(response);
        }
        let candidate = match resolve_location(&task.request.url, &response.headers) {
            Some(candidate) => candidate,
            None => {
                return Step::Deliver(response);
            },
        };
        if status == 301 || status == 302 || status == 303 {
            task.body = Resend::Nothing;
            task.request.headers.remove("transfer-encoding");
            task.request.headers.remove("content-encoding");
            task.request.headers.remove("content-type");
            task.request.headers.remove("content-length");
            task.request.method = task.request.method.downgraded();
        }
        if task.referer {
            match make_referer(&candidate, &task.request.url) {
                Some(value) => {
                    task.request.headers.insert("referer".to_owned(), value, false);
                },
                None => {
                    task.request.headers.remove("referer");
                },
            }
        }
        Step::Consult(Deciding { task, candidate, response })
    }
}

/// What the redirect policy says of a redirect, as the contracts see it.
pub enum ActionView {
    Follow,
    Stop,
    Error(Seq<char>),
}

/// What the redirect policy says of a redirect.
#[derive(Debug)]
pub enum Action {
    /// Go to the new URL.
    Follow,
    /// Stay: the response that redirects is the result.
    Stop,
    /// Give the request up, for this reason.
    Error(String),
}

impl View for Action {
    type V = ActionView;

    open spec fn view(&self) -> ActionView {
        match self {
            Action::Follow => ActionView::Follow,
            Action::Stop => ActionView::Stop,
            Action::Error(cause) => ActionView::Error(cause@),
        }
    }
}

/// What comes of the policy's answer, as the contracts see it.
pub enum NextView {
    Rewrite(TaskView),
    Deliver(ResponseView),
    Failed(ErrorView),
}

/// A task that follows a redirect: its URL is the new one already, and its headers
/// wait for the sanitizer and the cookie jar.
#[derive(Debug)]
pub struct Rewriting {
    pub task: RequestTask,
}

impl View for Rewriting {
    type V = TaskView;

    open spec fn view(&self) -> TaskView {
        self.task@
    }
}

/// What comes of the policy's answer.
#[derive(Debug)]
pub enum Next {
    /// The redirect is followed.
    Rewrite(Rewriting),
    /// The redirect is not followed, and the response is final.
    Deliver(Response),
    /// The request has failed.
    Failed(Error),
}

impl View for Next {
    type V = NextView;

    open spec fn view(&self) -> NextView {
        match self {
            Next::Rewrite(r) => NextView::Rewrite(r@),
            Next::Deliver(r) => NextView::Deliver(r@),
            Next::Failed(e) => NextView::Failed(e@),
        }
    }
}

impl DecidingView {
    /// The URLs that the policy is shown as already visited: those that the request
    /// was redirected away from, and the one that it was last sent to.
    pub open spec fn previous(self) -> Seq<Seq<char>> {
        self.task.chain.push(self.task.request.url)
    }

    /// What comes of the policy's answer. To follow is to go to the candidate, and to
    /// add the URL that is left behind to the chain. To stop is to deliver the
    /// response that is there. An error ends the request in a redirect error with
    /// the policy's reason, at the URL that the request was last sent to; the chain
    /// does not grow.
    pub open spec fn decide(self, action: ActionView) -> NextView {
        match action {
            ActionView::Follow => NextView::Rewrite(
                TaskView {
                    request: RequestView { url: self.candidate, ..self.task.request },
                    chain: self.previous(),
                    ..self.task
                },
            ),
            ActionView::Stop => NextView::Deliver(self.response),
            ActionView::Error(cause) => NextView::Failed(
                ErrorView {
                    kind: Kind::Redirect,
                    cause: CauseView::Other(cause),
                    url: Some(self.task.request.url),
                },
            ),
        }
    }
}

impl Deciding {
    /// The URLs to show the policy as already visited.
    pub fn previous(&self) -> (out: Vec<Url>)
        ensures
            chain_view(out@) == self@.previous(),
    {
        let mut out: Vec<Url> = Vec::new();
        let mut i: usize = 0;
        while i < self.task.redirect_chain.len()
            invariant
                i <= self.task.redirect_chain.len(),
                out@.len() == i,
                forall|k: int| 0 <= k < i ==> (#[trigger] out@[k])@ == self.task.redirect_chain@[k]@,
            decreases self.task.redirect_chain.len() - i,
        {
            out.push(self.task.redirect_chain[i].duplicate());
            i += 1;
        }
        out.push(self.task.request.url.duplicate());
        assert(chain_view(out@) =~= self@.previous());
        out
    }

    /// Takes the policy's answer.
    pub fn decide(self, action: Action) -> (out: Next)
        ensures
            out@ == self@.decide(action@),
    {
        let Deciding { task, candidate, response } = self;
        match action {
            Action::Follow => {
                let RequestTask { request, body, redirect_chain, referer, accepts } = task;
                let Request { method, url, headers, body: unsent, timeout, cors } = request;
                let mut chain = redirect_chain;
                let ghost before = chain_view(chain@);
                let ghost left = url@;
                chain.push(url);
                assert(chain_view(chain@) =~= before.push(left));
                Next::Rewrite(
                    Rewriting {
                        task: RequestTask {
                            request: Request {
                                method,
                                url: candidate,
                                headers,
                                body: unsent,
                                timeout,
                                cors,
                            },
                            body,
                            redirect_chain: chain,
                            referer,
                            accepts,
                        },
                    },
                )
            },
            Action::Stop => Next::Deliver(response),
            Action::Error(cause) => Next::Failed(redirect(Cause::Other(cause), task.request.url)),
        }
    }
}

/// A list of names, each in lower case.
pub open spec fn names_view(names: Seq<String>) -> Seq<Seq<char>> {
    Seq::new(names.len(), |i: int| lower(names[i]@))
}

/// The bytes of an optional value.
pub open spec fn value_view(value: Option<Vec<u8>>) -> Option<Seq<u8>> {
    match value {
        Some(v) => Some(v@),
        None => None,
    }
}

impl TaskView {
    /// The task with its headers made ready for the new URL: the fields that the
    /// sanitizer names are gone, in whatever case it names them, and the `Cookie`
    /// header is the one that the jar gives, where it gives one.
    pub open spec fn sanitized(self, sensitive: Seq<Seq<char>>, cookie: Option<Seq<u8>>) -> TaskView {
        let kept = without_names(self.request.headers, sensitive);
        TaskView {
            request: RequestView {
                headers: match cookie {
                    Some(value) => without_name(kept, "cookie"@).push(
                        Header { name: "cookie"@, value, sensitive: false },
                    ),
                    None => kept,
                },
                ..self.request
            },
            ..self
        }
    }

    /// The exchange that sends the task's request again: its method, URL and
    /// headers, with the buffer that was kept for sending again, or with no bytes.
    pub open spec fn exchange(self) -> ExchangeView {
        ExchangeView {
            method: self.request.method,
            url: self.request.url,
            headers: self.request.headers,
            body: match self.body {
                ResendView::ReusableBuffer(content) => BodyView::Fixed(content),
                _ => BodyView::Fixed(Seq::empty()),
            },
        }
    }
}

impl Rewriting {
    /// Takes the names of the fields that the sanitizer wants gone on the way to the
    /// new URL, and the `Cookie` header that the jar has for it. The result is the
    /// task that waits for the next exchange, and that exchange.
    pub fn resend(self, sensitive: &Vec<String>, cookie: Option<Vec<u8>>) -> (out: (
        RequestTask,
        Exchange,
    ))
        ensures
            out.0@ == self@.sanitized(names_view(sensitive@), value_view(cookie)),
            out.1@ == out.0@.exchange(),
    {
        proof {
            lemma_standard_names_are_lower();
        }
        let mut task = self.task;
        let ghost names = names_view(sensitive@);
        let ghost before = task.request.headers@;
        let mut i: usize = 0;
        while i < sensitive.len()
            invariant
                i <= sensitive.len(),
                names == names_view(sensitive@),
                task.request.headers@ == without_names(before, names.take(i as int)),
                task@ == (TaskView {
                    request: RequestView { headers: task.request.headers@, ..self@.request },
                    ..self@
                }),
            decreases sensitive.len() - i,
        {
            proof {
                assert(names.take(i as int + 1).drop_last() =~= names.take(i as int));
                assert(names.take(i as int + 1).last() == lower(sensitive@[i as int]@));
            }
            task.request.headers.remove(sensitive[i].as_str());
            i += 1;
        }
        assert(names.take(i as int) =~= names);
        if let Some(value) = cookie {
            task.request.headers.insert("cookie".to_owned(), value, false);
        }
        let body = match &task.body {
            Resend::ReusableBuffer(bytes) => Body::from_bytes(buffer_share(bytes)),
            _ => Body::empty(),
        };
        let exchange = Exchange {
            method: task.request.method,
            url: task.request.url.duplicate(),
            headers: task.request.headers.duplicate(),
            body,
        };
        (task, exchange)
    }
}

/// One redirect that is followed: the response that redirects, and what the
/// sanitizer and the cookie jar say about the new URL.
pub struct HopView {
    pub status: u16,
    pub headers: Seq<Header>,
    pub bounded: bool,
    pub sensitive: Seq<Seq<char>>,
    pub cookie: Option<Seq<u8>>,
}

impl TaskView {
    /// The task that waits for the next exchange after `hop` was followed; `None`
    /// where the response of `hop` does not redirect the task.
    pub open spec fn follow(self, hop: HopView) -> Option<TaskView> {
        match self.on_response(hop.status, hop.headers, hop.bounded) {
            StepView::Consult(deciding) => match deciding.decide(ActionView::Follow) {
                NextView::Rewrite(task) => Some(task.sanitized(hop.sensitive, hop.cookie)),
                _ => None,
            },
            StepView::Deliver(_) => None,
        }
    }

    /// The task after all of `hops` were followed, one after the other.
    pub open spec fn follow_all(self, hops: Seq<HopView>) -> Option<TaskView>
        decreases hops.len(),
    {
        if hops.len() == 0 {
            Some(self)
        } else {
            match self.follow_all(hops.drop_last()) {
                Some(task) => task.follow(hops.last()),
                None => None,
            }
        }
    }
}

/// Whether `name` is one of the headers that describe a body.
pub open spec fn is_payload_name(name: Seq<char>) -> bool {
    name == "transfer-encoding"@ || name == "content-encoding"@ || name == "content-type"@
        || name == "content-length"@
}

/// The names of the headers that describe a body are not those of the headers that
/// a redirect sets.
pub proof fn lemma_payload_names_are_not_set(name: Seq<char>)
    requires
        is_payload_name(name),
    ensures
        name != "referer"@,
        name != "cookie"@,
{
    reveal_strlit("transfer-encoding");
    reveal_strlit("content-encoding");
    reveal_strlit("content-type");
    reveal_strlit("content-length");
    reveal_strlit("referer");
    reveal_strlit("cookie");
    assert("transfer-encoding"@.len() == 17);
    assert("content-encoding"@.len() == 16);
    assert("content-type"@.len() == 12);
    assert("content-length"@.len() == 14);
    assert("referer"@.len() == 7);
    assert("cookie"@.len() == 6);
}

/// No header that describes a body is left once they are taken out.
pub proof fn lemma_payload_headers_gone(headers: Seq<Header>, name: Seq<char>)
    requires
        is_payload_name(name),
    ensures
        !has_name(without_payload_headers(headers), name),
{
    let a = without_name(headers, "transfer-encoding"@);
    let b = without_name(a, "content-encoding"@);
    let c = without_name(b, "content-type"@);
    lemma_has_name_filter(headers, "transfer-encoding"@);
    lemma_has_name_filter(a, "content-encoding"@);
    lemma_has_name_filter(b, "content-type"@);
    lemma_has_name_filter(c, "content-length"@);
    if name == "transfer-encoding"@ {
        lemma_without_keeps_absent(a, "content-encoding"@, name);
        lemma_without_keeps_absent(b, "content-type"@, name);
        lemma_without_keeps_absent(c, "content-length"@, name);
    } else if name == "content-encoding"@ {
        lemma_without_keeps_absent(b, "content-type"@, name);
        lemma_without_keeps_absent(c, "content-length"@, name);
    } else if name == "content-type"@ {
        lemma_without_keeps_absent(c, "content-length"@, name);
    }
}

/// Taking fields out brings in no field of another name.
pub proof fn lemma_without_names_keeps_absent(
    headers: Seq<Header>,
    names: Seq<Seq<char>>,
    name: Seq<char>,
)
    requires
        !has_name(headers, name),
    ensures
        !has_name(without_names(headers, names), name),
    decreases names.len(),
{
    if names.len() > 0 {
        lemma_without_names_keeps_absent(headers, names.drop_last(), name);
        lemma_without_keeps_absent(without_names(headers, names.drop_last()), names.last(), name);
    }
}

/// After a redirect whose status drops the body, the request goes out again as a
/// `GET`, or as a `HEAD` if it was one, to the URL that the response named, with no
/// bytes, and with none of the headers that describe a body, whatever the sanitizer
/// and the cookie jar say.
pub proof fn lemma_body_dropping_redirect(task: TaskView, hop: HopView, name: Seq<char>)
    requires
        drops_body(hop.status),
        redirect_target(task.request.url, hop.headers) is Some,
        is_payload_name(name),
    ensures
        task.follow(hop) is Some,
        task.follow(hop).unwrap().exchange().method == task.request.method.downgraded(),
        task.request.method == Method::Post ==> task.follow(hop).unwrap().exchange().method
            == Method::Get,
        task.follow(hop).unwrap().exchange().url == redirect_target(
            task.request.url,
            hop.headers,
        ).unwrap(),
        task.follow(hop).unwrap().exchange().body == BodyView::Fixed(Seq::<u8>::empty()),
        task.follow(hop).unwrap().body == ResendView::Nothing,
        !has_name(task.follow(hop).unwrap().exchange().headers, name),
{
    let target = redirect_target(task.request.url, hop.headers).unwrap();
    let prepared = task.prepared(hop.status);
    let referred = prepared.with_referer(target);
    lemma_payload_names_are_not_set(name);
    lemma_payload_headers_gone(task.request.headers, name);
    assert(!has_name(referred.request.headers, name)) by {
        if prepared.referer {
            let kept = without_name(prepared.request.headers, "referer"@);
            lemma_without_keeps_absent(prepared.request.headers, "referer"@, name);
            match referer_value(target, prepared.request.url) {
                Some(value) => {
                    lemma_has_name_push(
                        kept,
                        Header { name: "referer"@, value, sensitive: false },
                        name,
                    );
                },
                None => {},
            }
        }
    }
    let kept = without_names(referred.request.headers, hop.sensitive);
    lemma_without_names_keeps_absent(referred.request.headers, hop.sensitive, name);
    match hop.cookie {
        Some(value) => {
            lemma_without_keeps_absent(kept, "cookie"@, name);
            lemma_has_name_push(
                without_name(kept, "cookie"@),
                Header { name: "cookie"@, value, sensitive: false },
                name,
            );
        },
        None => {},
    }
}

/// A response whose status keeps the body does not redirect a request whose body
/// went out as a stream: the response is delivered as it is, whatever it names as
/// its target.
pub proof fn lemma_consumed_body_is_not_redirected(
    task: TaskView,
    status: u16,
    headers: Seq<Header>,
    bounded: bool,
)
    requires
        keeps_body(status),
        task.body is ConsumedStream,
    ensures
        task.on_response(status, headers, bounded) == StepView::Deliver(
            task.delivery(status, headers, bounded),
        ),
        task.delivery(status, headers, bounded).status == status,
        task.delivery(status, headers, bounded).headers == headers,
        task.delivery(status, headers, bounded).url == task.request.url,
        task.delivery(status, headers, bounded).accepts == task.accepts,
{
}

/// A response whose status does not redirect is delivered as it is.
pub proof fn lemma_other_status_is_delivered(
    task: TaskView,
    status: u16,
    headers: Seq<Header>,
    bounded: bool,
)
    requires
        !drops_body(status),
        !keeps_body(status),
    ensures
        task.on_response(status, headers, bounded) == StepView::Deliver(
            task.delivery(status, headers, bounded),
        ),
{
}

/// Each redirect that is followed adds one URL to the chain, and nothing else does.
pub proof fn lemma_chain_counts_followed_redirects(task: TaskView, hops: Seq<HopView>)
    requires
        task.follow_all(hops) is Some,
    ensures
        task.follow_all(hops).unwrap().chain.len() == task.chain.len() + hops.len(),
        task.follow_all(hops).unwrap().referer == task.referer,
        task.follow_all(hops).unwrap().accepts == task.accepts,
    decreases hops.len(),
{
    if hops.len() > 0 {
        lemma_chain_counts_followed_redirects(task, hops.drop_last());
    }
}

/// When the policy gives the request up after a number of redirects were followed,
/// the request ends in a redirect error with the policy's reason, at the URL that it
/// was last sent to, and the chain holds one URL for each redirect that was followed.
pub proof fn lemma_policy_error_after_redirects(
    task: TaskView,
    hops: Seq<HopView>,
    status: u16,
    headers: Seq<Header>,
    bounded: bool,
    cause: Seq<char>,
)
    requires
        task.chain.len() == 0,
        task.follow_all(hops) is Some,
        task.follow_all(hops).unwrap().on_response(status, headers, bounded) is Consult,
    ensures
        task.follow_all(hops).unwrap().on_response(status, headers, bounded)->Consult_0.task.chain.len()
            == hops.len(),
        task.follow_all(hops).unwrap().on_response(status, headers, bounded)->Consult_0.decide(
            ActionView::Error(cause),
        ) == NextView::Failed(
            ErrorView {
                kind: Kind::Redirect,
                cause: CauseView::Other(cause),
                url: Some(task.follow_all(hops).unwrap().request.url),
            },
        ),
{
    lemma_chain_counts_followed_redirects(task, hops);
}

/// The `Referer` of a redirect is the URL that is left behind, without user name,
/// password and fragment. It is set on the way from `https` to `https`, from `http`
/// to `http` and from `http` to `https`, and left out exactly on the way from
/// `https` to `http`.
pub proof fn lemma_referer_by_scheme(next: Seq<char>, previous: Seq<char>)
    ensures
        referer_value(next, previous) is None <==> scheme_of(next) == "http"@ && scheme_of(
            previous,
        ) == "https"@,
        (scheme_of(next) == "https"@ && scheme_of(previous) == "https"@) || (scheme_of(next)
            == "http"@ && scheme_of(previous) == "http"@) || (scheme_of(next) == "https"@
            && scheme_of(previous) == "http"@) ==> referer_value(next, previous) == Some(
            encode_utf8(without_fragment(without_password(without_username(previous)))),
        ),
{
    reveal_strlit("http");
    reveal_strlit("https");
    assert("http"@.len() != "https"@.len());
}

/// A task that sets the `Referer` asks the policy with that header made right: its
/// value is the one that belongs to the way from the task's URL to the target, and
/// where that way has none, as from `https` to `http`, no `Referer` is left, not
/// even one from an earlier redirect. A task that does not set it leaves the headers
/// alone.
pub proof fn lemma_referer_is_set(task: TaskView, target: Seq<char>)
    ensures
        task.referer && referer_value(target, task.request.url) is Some ==> first_value(
            task.with_referer(target).request.headers,
            "referer"@,
        ) == referer_value(target, task.request.url),
        task.referer && referer_value(target, task.request.url) is None ==> !has_name(
            task.with_referer(target).request.headers,
            "referer"@,
        ),
        task.referer && scheme_of(target) == "http"@ && scheme_of(task.request.url) == "https"@
            ==> task.with_referer(target).request.headers == without_name(
            task.request.headers,
            "referer"@,
        ),
        !task.referer ==> task.with_referer(target) == task,
{
    lemma_has_name_filter(task.request.headers, "referer"@);
    if task.referer && referer_value(target, task.request.url) is Some {
        let value = referer_value(target, task.request.url).unwrap();
        lemma_first_value_of_inserted(
            task.request.headers,
            Header { name: "referer"@, value, sensitive: false },
        );
    }
}

/// A redirect from `https` to `http` that is followed goes out without a `Referer`,
/// whatever the request carried before and whatever the sanitizer and the cookie jar
/// say.
pub proof fn lemma_no_referer_on_downgrade(task: TaskView, hop: HopView)
    requires
        task.referer,
        task.follow(hop) is Some,
        scheme_of(redirect_target(task.request.url, hop.headers).unwrap()) == "http"@,
        scheme_of(task.request.url) == "https"@,
    ensures
        !has_name(task.follow(hop).unwrap().exchange().headers, "referer"@),
{
    let target = redirect_target(task.request.url, hop.headers).unwrap();
    let prepared = task.prepared(hop.status);
    let referred = prepared.with_referer(target);
    lemma_has_name_filter(prepared.request.headers, "referer"@);
    let kept = without_names(referred.request.headers, hop.sensitive);
    lemma_without_names_keeps_absent(referred.request.headers, hop.sensitive, "referer"@);
    reveal_strlit("referer");
    reveal_strlit("cookie");
    assert("referer"@.len() != "cookie"@.len());
    match hop.cookie {
        Some(value) => {
            lemma_without_keeps_absent(kept, "cookie"@, "referer"@);
            lemma_has_name_push(
                without_name(kept, "cookie"@),
                Header { name: "cookie"@, value, sensitive: false },
                "referer"@,
            );
        },
        None => {},
    }
}

/// A deadline that has passed ends the request in a timeout at its URL, even where
/// the exchange has a response or a failure ready at the same time.
pub proof fn lemma_deadline_comes_first(
    task: TaskView,
    outcome: Option<Result<(u16, Seq<Header>), Seq<char>>>,
    bounded: bool,
)
    ensures
        task.on_wake(true, outcome, bounded) == ProgressView::Failed(
            ErrorView {
                kind: Kind::Request,
                cause: CauseView::TimedOut,
                url: Some(task.request.url),
            },
        ),
{
}

} // verus!

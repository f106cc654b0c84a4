//! Request bodies.
//!
//! A body is one of three things: a fixed buffer, which can be sent any number of
//! times; a reader, from which bytes are pulled in bounded reads; or a stream, which
//! pushes its items. The reads and the items themselves come from outside: whoever
//! drives a body performs them and hands the outcome to [`Body::next_chunk`], which
//! keeps the books and says what goes on the wire.

use bytes::Bytes;
use vstd::prelude::*;
use vstd::std_specs::convert::FromSpecImpl;

use crate::buffer::{
    buffer_content, buffer_copy, buffer_empty, buffer_from_static, buffer_from_vec, buffer_len,
    buffer_share, buffer_slice,
};
use crate::error::{body, Cause, CauseView, Error, ErrorView, Kind};

verus! {

/// The most that one read asks of a reader.
pub const DEFAULT_CHUNK_SIZE: usize = 8192;

/// A payload held entirely in memory.
#[derive(Debug)]
pub struct BytesBody {
    pub body: Bytes,
}

impl View for BytesBody {
    type V = Seq<u8>;

    open spec fn view(&self) -> Seq<u8> {
        buffer_content(self.body)
    }
}

impl BytesBody {
    /// Wraps a buffer as a fixed body.
    pub fn new(bytes: Bytes) -> (out: BytesBody)
        ensures
            out.body == bytes,
            out@ == buffer_content(bytes),
    {
        BytesBody { body: bytes }
    }

    /// The bytes that are still to be sent.
    pub fn as_bytes(&self) -> (out: &[u8])
        ensures
            out@ == self@,
    {
        buffer_slice(&self.body)
    }

    /// The exact number of bytes that are still to be sent.
    pub fn content_length(&self) -> (out: Option<u64>)
        ensures
            out == Some(self@.len() as u64),
    {
        let n: usize = buffer_len(&self.body);
        Some(n as u64)
    }

    /// Whether nothing is left to send.
    pub fn is_end_stream(&self) -> (out: bool)
        ensures
            out == (self@.len() == 0),
    {
        buffer_len(&self.body) == 0
    }

    /// A second body over the same buffer.
    pub fn share(&self) -> (out: BytesBody)
        ensures
            out@ == self@,
    {
        BytesBody { body: buffer_share(&self.body) }
    }

    /// Hands out everything that is left, at once; afterwards nothing is left.
    /// A body with nothing left hands out nothing.
    pub fn next_chunk(&mut self) -> (out: Option<Bytes>)
        ensures
            final(self)@ == Seq::<u8>::empty(),
            old(self)@.len() == 0 ==> out is None,
            old(self)@.len() > 0 ==> out is Some && buffer_content(out.unwrap()) == old(self)@,
    {
        if buffer_len(&self.body) == 0 {
            assert(self@ =~= Seq::<u8>::empty());
            None
        } else {
            let mut whole = buffer_empty();
            std::mem::swap(&mut self.body, &mut whole);
            Some(whole)
        }
    }
}

impl FromSpecImpl<Bytes> for BytesBody {
    open spec fn obeys_from_spec() -> bool {
        true
    }

    open spec fn from_spec(bytes: Bytes) -> BytesBody {
        BytesBody { body: bytes }
    }
}

impl From<Bytes> for BytesBody {
    fn from(bytes: Bytes) -> (out: BytesBody)
        ensures
            out@ == buffer_content(bytes),
    {
        BytesBody::new(bytes)
    }
}

impl FromSpecImpl<Vec<u8>> for BytesBody {
    open spec fn obeys_from_spec() -> bool {
        false
    }

    open spec fn from_spec(vec: Vec<u8>) -> BytesBody {
        choose|b: BytesBody| b@ == vec@
    }
}

impl From<Vec<u8>> for BytesBody {
    fn from(vec: Vec<u8>) -> (out: BytesBody)
        ensures
            out@ == vec@,
    {
        BytesBody::new(buffer_from_vec(vec))
    }
}

impl FromSpecImpl<&'static [u8]> for BytesBody {
    open spec fn obeys_from_spec() -> bool {
        false
    }

    open spec fn from_spec(s: &'static [u8]) -> BytesBody {
        choose|b: BytesBody| b@ == s@
    }
}

impl From<&'static [u8]> for BytesBody {
    fn from(s: &'static [u8]) -> (out: BytesBody)
        ensures
            out@ == s@,
    {
        BytesBody::new(buffer_from_static(s))
    }
}

impl FromSpecImpl<String> for BytesBody {
    open spec fn obeys_from_spec() -> bool {
        false
    }

    open spec fn from_spec(s: String) -> BytesBody {
        choose|b: BytesBody| b@ == vstd::utf8::encode_utf8(s@)
    }
}

impl From<String> for BytesBody {
    fn from(s: String) -> (out: BytesBody)
        ensures
            out@ == vstd::utf8::encode_utf8(s@),
    {
        BytesBody::new(buffer_copy(s.as_str().as_bytes()))
    }
}

impl FromSpecImpl<&'static str> for BytesBody {
    open spec fn obeys_from_spec() -> bool {
        false
    }

    open spec fn from_spec(s: &'static str) -> BytesBody {
        choose|b: BytesBody| b@ == vstd::utf8::encode_utf8(s@)
    }
}

impl From<&'static str> for BytesBody {
    fn from(s: &'static str) -> (out: BytesBody)
        ensures
            out@ == vstd::utf8::encode_utf8(s@),
    {
        BytesBody::new(buffer_from_static(s.as_bytes()))
    }
}

/// A payload that is pulled from a reader in bounded reads.
///
/// The reader itself stays with whoever drives the body: this is the account of how
/// much is still expected of it, and of whether it has ended or failed.
#[derive(Debug)]
pub struct ReaderBody {
    pub remaining_len: Option<usize>,
    pub finished: bool,
}

impl ReaderBody {
    /// A body over a reader that has `len` bytes to give, where that is known.
    pub fn new(len: Option<usize>) -> (out: ReaderBody)
        ensures
            out.remaining_len == len,
            !out.finished,
    {
        ReaderBody { remaining_len: len, finished: false }
    }

    /// How many bytes the next read asks for at most: what is left, where that is
    /// known, but never more than [`DEFAULT_CHUNK_SIZE`].
    pub open spec fn spec_read_size(&self) -> usize {
        match self.remaining_len {
            Some(left) => if left < DEFAULT_CHUNK_SIZE {
                left
            } else {
                DEFAULT_CHUNK_SIZE
            },
            None => DEFAULT_CHUNK_SIZE,
        }
    }

    /// How many bytes the next read asks for at most.
    #[verifier::when_used_as_spec(spec_read_size)]
    pub fn read_size(&self) -> (out: usize)
        ensures
            out == self.spec_read_size(),
    {
        match self.remaining_len {
            Some(left) => if left < DEFAULT_CHUNK_SIZE {
                left
            } else {
                DEFAULT_CHUNK_SIZE
            },
            None => DEFAULT_CHUNK_SIZE,
        }
    }

    /// A reader cannot be had twice.
    pub fn try_clone(&self) -> (out: Result<ReaderBody, Error>)
        ensures
            out is Err,
            out->Err_0@ == (ErrorView {
                kind: Kind::Body,
                cause: CauseView::CannotCloneBody,
                url: None,
            }),
    {
        Err(body(Cause::CannotCloneBody))
    }

    /// The exact number of bytes still to come, where a length was given.
    pub fn size_hint(&self) -> (out: Option<u64>)
        ensures
            out == match self.remaining_len {
                Some(left) => Some(left as u64),
                None => None,
            },
    {
        match self.remaining_len {
            Some(left) => Some(left as u64),
            None => None,
        }
    }

    /// Whether the reader is known to have nothing more to give.
    pub fn is_end_stream(&self) -> (out: bool)
        ensures
            out == (self.finished || self.remaining_len == Some(0usize)),
    {
        self.finished || match self.remaining_len {
            Some(left) => left == 0,
            None => false,
        }
    }

    /// The account after one read that returned `data`, or failed with a message.
    pub open spec fn after_read(self, read: Result<Seq<u8>, Seq<char>>) -> ReaderBody {
        if self.finished {
            self
        } else {
            match read {
                Ok(data) => if data.len() == 0 {
                    ReaderBody { remaining_len: self.remaining_len, finished: true }
                } else {
                    ReaderBody {
                        remaining_len: match self.remaining_len {
                            Some(left) => Some((left - data.len()) as usize),
                            None => None,
                        },
                        finished: false,
                    }
                },
                Err(_) => ReaderBody { remaining_len: self.remaining_len, finished: true },
            }
        }
    }

    /// What one read that returned `data`, or failed with a message, puts on the
    /// wire: nothing once the reader has ended or failed; nothing for an empty read,
    /// which is the reader's end; the bytes read; or a body error for the failure.
    pub open spec fn chunk_of_read(self, read: Result<Seq<u8>, Seq<char>>) -> Option<
        Result<Seq<u8>, ErrorView>,
    > {
        if self.finished {
            None
        } else {
            match read {
                Ok(data) => if data.len() == 0 {
                    None
                } else {
                    Some(Ok(data))
                },
                Err(message) => Some(
                    Err(ErrorView { kind: Kind::Body, cause: CauseView::Other(message), url: None }),
                ),
            }
        }
    }

    /// Takes the outcome of one read of at most [`ReaderBody::read_size`] bytes.
    pub fn next_chunk(&mut self, read: Result<Vec<u8>, String>) -> (out: Option<
        Result<Bytes, Error>,
    >)
        requires
            !old(self).finished && read is Ok ==> read.unwrap()@.len() <= old(self).read_size(),
        ensures
            *final(self) == old(self).after_read(read_view(read)),
            chunk_view(out) == old(self).chunk_of_read(read_view(read)),
    {
        if self.finished {
            return None;
        }
        match read {
            Ok(data) => {
                let size: usize = data.len();
                if size == 0 {
                    self.finished = true;
                    None
                } else {
                    if let Some(left) = self.remaining_len {
                        self.remaining_len = Some(left - size);
                    }
                    Some(Ok(buffer_from_vec(data)))
                }
            },
            Err(message) => {
                self.finished = true;
                Some(Err(body(Cause::Other(message))))
            },
        }
    }
}

/// The outcome of a read, as the contracts see it.
pub open spec fn read_view(read: Result<Vec<u8>, String>) -> Result<Seq<u8>, Seq<char>> {
    match read {
        Ok(data) => Ok(data@),
        Err(message) => Err(message@),
    }
}

/// What a body puts on the wire in one step, as the contracts see it.
pub open spec fn chunk_view(chunk: Option<Result<Bytes, Error>>) -> Option<
    Result<Seq<u8>, ErrorView>,
> {
    match chunk {
        Some(Ok(bytes)) => Some(Ok(buffer_content(bytes))),
        Some(Err(e)) => Some(Err(e@)),
        None => None,
    }
}

/// What a push source did when it was asked for its next item.
pub enum Pushed {
    /// It handed over a chunk.
    Item(Bytes),
    /// It failed, with a message.
    Failed(String),
    /// It has completed.
    End,
}

/// What a push source did, as the contracts see it.
pub enum PushedView {
    Item(Seq<u8>),
    Failed(Seq<char>),
    End,
}

impl View for Pushed {
    type V = PushedView;

    open spec fn view(&self) -> PushedView {
        match self {
            Pushed::Item(bytes) => PushedView::Item(buffer_content(*bytes)),
            Pushed::Failed(message) => PushedView::Failed(message@),
            Pushed::End => PushedView::End,
        }
    }
}

/// A payload that a source pushes item by item, and that cannot be had twice.
#[derive(Debug)]
pub struct StreamingBody {
    pub bounded: bool,
}

impl StreamingBody {
    /// A body over a stream of chunks that a caller supplies. No deadline bounds it.
    pub fn from_stream() -> (out: StreamingBody)
        ensures
            !out.bounded,
    {
        StreamingBody { bounded: false }
    }

    /// A body over what the transport receives; `bounded` says whether a deadline
    /// still runs against it.
    pub fn from_hyper(bounded: bool) -> (out: StreamingBody)
        ensures
            out.bounded == bounded,
    {
        StreamingBody { bounded }
    }

    /// A stream cannot be had twice.
    pub fn try_clone(&self) -> (out: Result<StreamingBody, Error>)
        ensures
            out is Err,
            out.unwrap_err()@ == (ErrorView {
                kind: Kind::Body,
                cause: CauseView::CannotCloneBody,
                url: None,
            }),
    {
        Err(body(Cause::CannotCloneBody))
    }

    /// What one step puts on the wire. The deadline comes first: where one runs
    /// against the body and has passed, the step is a body error that says so,
    /// whatever the source did. Otherwise it is the source's item; nothing at the
    /// source's end; or a body error for the source's failure.
    pub open spec fn chunk_of_push(self, deadline_passed: bool, pushed: PushedView) -> Option<
        Result<Seq<u8>, ErrorView>,
    > {
        if self.bounded && deadline_passed {
            Some(Err(ErrorView { kind: Kind::Body, cause: CauseView::TimedOut, url: None }))
        } else {
            match pushed {
                PushedView::Item(data) => Some(Ok(data)),
                PushedView::Failed(message) => Some(
                    Err(
                        ErrorView {
                            kind: Kind::Body,
                            cause: CauseView::Other(message),
                            url: None,
                        },
                    ),
                ),
                PushedView::End => None,
            }
        }
    }

    /// Takes whether the deadline has passed, and what the source did when it was
    /// asked for its next item.
    pub fn next_chunk(&mut self, deadline_passed: bool, pushed: Pushed) -> (out: Option<
        Result<Bytes, Error>,
    >)
        ensures
            *final(self) == *old(self),
            chunk_view(out) == old(self).chunk_of_push(deadline_passed, pushed@),
    {
        if self.bounded && deadline_passed {
            return Some(Err(body(Cause::TimedOut)));
        }
        match pushed {
            Pushed::Item(bytes) => Some(Ok(bytes)),
            Pushed::Failed(message) => Some(Err(body(Cause::Other(message)))),
            Pushed::End => None,
        }
    }
}

/// What whoever drives a body hands to it in one step.
pub enum Supply {
    /// Nothing: the body asked for nothing.
    Nothing,
    /// The outcome of the read that the body asked for.
    Read(Result<Vec<u8>, String>),
    /// Whether the deadline has passed, and what the push source did.
    Pushed(bool, Pushed),
}

/// What is handed to a body, as the contracts see it.
pub enum SupplyView {
    Nothing,
    Read(Result<Seq<u8>, Seq<char>>),
    Pushed(bool, PushedView),
}

impl View for Supply {
    type V = SupplyView;

    open spec fn view(&self) -> SupplyView {
        match self {
            Supply::Nothing => SupplyView::Nothing,
            Supply::Read(read) => SupplyView::Read(read_view(*read)),
            Supply::Pushed(deadline_passed, pushed) => SupplyView::Pushed(
                *deadline_passed,
                pushed@,
            ),
        }
    }
}

/// What a body needs from outside before its next step.
#[derive(Clone, Copy, Debug, PartialEq, Eq, Structural)]
pub enum Demand {
    /// Nothing.
    Nothing,
    /// One read of at most this many bytes.
    Read(usize),
    /// The push source's next item.
    Push,
}

/// A body, as the contracts see it.
pub enum BodyView {
    Fixed(Seq<u8>),
    Reader(ReaderBody),
    Stream(StreamingBody),
}

impl BodyView {
    /// What the body needs before its next step.
    pub open spec fn demand(self) -> Demand {
        match self {
            BodyView::Fixed(_) => Demand::Nothing,
            BodyView::Reader(r) => if r.finished {
                Demand::Nothing
            } else {
                Demand::Read(r.read_size())
            },
            BodyView::Stream(_) => Demand::Push,
        }
    }

    /// Whether `supply` answers what the body needs: a fixed body and a reader that
    /// has ended take anything and look at none of it; a reader takes the outcome
    /// of a read that returned no more than was asked for; a stream takes what its
    /// source did, and whether the deadline has passed.
    pub open spec fn fits(self, supply: SupplyView) -> bool {
        match self {
            BodyView::Fixed(_) => true,
            BodyView::Reader(r) => r.finished || match supply {
                SupplyView::Read(Ok(data)) => data.len() <= r.read_size(),
                SupplyView::Read(Err(_)) => true,
                _ => false,
            },
            BodyView::Stream(_) => supply is Pushed,
        }
    }

    /// The body after one step.
    pub open spec fn after(self, supply: SupplyView) -> BodyView {
        match self {
            BodyView::Fixed(_) => BodyView::Fixed(Seq::empty()),
            BodyView::Reader(r) => match supply {
                SupplyView::Read(read) => BodyView::Reader(r.after_read(read)),
                _ => self,
            },
            BodyView::Stream(_) => self,
        }
    }

    /// What one step puts on the wire.
    pub open spec fn emits(self, supply: SupplyView) -> Option<Result<Seq<u8>, ErrorView>> {
        match self {
            BodyView::Fixed(content) => if content.len() == 0 {
                None
            } else {
                Some(Ok(content))
            },
            BodyView::Reader(r) => match supply {
                SupplyView::Read(read) => r.chunk_of_read(read),
                _ => None,
            },
            BodyView::Stream(s) => match supply {
                SupplyView::Pushed(deadline_passed, pushed) => s.chunk_of_push(
                    deadline_passed,
                    pushed,
                ),
                _ => None,
            },
        }
    }

    /// The exact number of bytes still to come, where it is known: always for a
    /// fixed body, for a reader if a length was given, never for a stream.
    pub open spec fn size(self) -> Option<u64> {
        match self {
            BodyView::Fixed(content) => Some(content.len() as u64),
            BodyView::Reader(r) => match r.remaining_len {
                Some(left) => Some(left as u64),
                None => None,
            },
            BodyView::Stream(_) => None,
        }
    }
}

/// A payload that may be able to give a second body with the same bytes.
pub trait BodyClone {
    /// A second body with the same bytes, where the payload can be had twice.
    fn try_clone_body(&self) -> Option<Body>;
}

impl BodyClone for BytesBody {
    fn try_clone_body(&self) -> (out: Option<Body>)
        ensures
            out is Some,
            out.unwrap()@ == BodyView::Fixed(self@),
    {
        Some(Body::Fixed(self.share()))
    }
}

impl BodyClone for ReaderBody {
    fn try_clone_body(&self) -> (out: Option<Body>)
        ensures
            out is None,
    {
        None
    }
}

impl BodyClone for StreamingBody {
    fn try_clone_body(&self) -> (out: Option<Body>)
        ensures
            out is None,
    {
        None
    }
}

/// A request body.
#[derive(Debug)]
pub enum Body {
    /// A buffer, which can be sent again.
    Fixed(BytesBody),
    /// A reader, which is consumed as it is sent.
    Reader(ReaderBody),
    /// A stream, which is consumed as it is sent.
    Stream(StreamingBody),
}

impl View for Body {
    type V = BodyView;

    open spec fn view(&self) -> BodyView {
        match self {
            Body::Fixed(b) => BodyView::Fixed(b@),
            Body::Reader(r) => BodyView::Reader(*r),
            Body::Stream(s) => BodyView::Stream(*s),
        }
    }
}

impl Body {
    /// A body with no bytes.
    pub fn empty() -> (out: Body)
        ensures
            out@ == BodyView::Fixed(Seq::<u8>::empty()),
    {
        Body::Fixed(BytesBody::new(buffer_empty()))
    }

    /// A fixed body over `chunk`.
    pub fn from_bytes(chunk: Bytes) -> (out: Body)
        ensures
            out@ == BodyView::Fixed(buffer_content(chunk)),
    {
        Body::Fixed(BytesBody::new(chunk))
    }

    /// A body over a reader that has `len` bytes to give, where that is known.
    pub fn from_reader(len: Option<usize>) -> (out: Body)
        ensures
            out@ == BodyView::Reader(ReaderBody { remaining_len: len, finished: false }),
    {
        Body::Reader(ReaderBody::new(len))
    }

    /// A body over a stream of chunks.
    pub fn from_stream() -> (out: Body)
        ensures
            out@ == BodyView::Stream(StreamingBody { bounded: false }),
    {
        Body::Stream(StreamingBody::from_stream())
    }

    /// A body over what the transport receives; `bounded` says whether a deadline
    /// still runs against it.
    pub fn response(bounded: bool) -> (out: Body)
        ensures
            out@ == BodyView::Stream(StreamingBody { bounded }),
    {
        Body::Stream(StreamingBody::from_hyper(bounded))
    }

    /// The bytes of a fixed body; `None` for a reader or a stream.
    pub fn as_bytes(&self) -> (out: Option<&[u8]>)
        ensures
            out is Some <==> self@ is Fixed,
            out is Some ==> self@ == BodyView::Fixed(out.unwrap()@),
    {
        match self {
            Body::Fixed(b) => Some(b.as_bytes()),
            _ => None,
        }
    }

    /// The buffer of a fixed body, shared; `None` for a reader or a stream.
    pub fn try_reuse(&self) -> (out: Option<Bytes>)
        ensures
            out is Some <==> self@ is Fixed,
            out is Some ==> self@ == BodyView::Fixed(buffer_content(out.unwrap())),
    {
        match self {
            Body::Fixed(b) => Some(buffer_share(&b.body)),
            _ => None,
        }
    }

    /// A second body with the same bytes. A fixed body gives one, over the same
    /// buffer; a reader or a stream cannot be had twice, and the attempt is a body
    /// error that says so.
    pub fn try_clone(&self) -> (out: Result<Body, Error>)
        ensures
            self@ is Fixed ==> out is Ok && out.unwrap()@ == self@,
            !(self@ is Fixed) ==> out is Err && out.unwrap_err()@ == (ErrorView {
                kind: Kind::Body,
                cause: CauseView::CannotCloneBody,
                url: None,
            }),
    {
        match self {
            Body::Fixed(b) => Ok(Body::Fixed(b.share())),
            _ => Err(body(Cause::CannotCloneBody)),
        }
    }

    /// The exact number of bytes still to come, where it is known.
    pub fn size_hint(&self) -> (out: Option<u64>)
        ensures
            out == self@.size(),
    {
        match self {
            Body::Fixed(b) => b.content_length(),
            Body::Reader(r) => r.size_hint(),
            Body::Stream(_) => None,
        }
    }

    /// The exact number of bytes still to come, where it is known.
    pub fn content_length(&self) -> (out: Option<u64>)
        ensures
            out == self@.size(),
    {
        self.size_hint()
    }

    /// What the body needs from outside before its next step.
    pub fn demand(&self) -> (out: Demand)
        ensures
            out == self@.demand(),
    {
        match self {
            Body::Fixed(_) => Demand::Nothing,
            Body::Reader(r) => if r.finished {
                Demand::Nothing
            } else {
                Demand::Read(r.read_size())
            },
            Body::Stream(_) => Demand::Push,
        }
    }

    /// One step of sending the body: takes what was asked for by [`Body::demand`]
    /// and says what goes on the wire, `None` at the body's end.
    pub fn next_chunk(&mut self, supply: Supply) -> (out: Option<Result<Bytes, Error>>)
        requires
            old(self)@.fits(supply@),
        ensures
            final(self)@ == old(self)@.after(supply@),
            chunk_view(out) == old(self)@.emits(supply@),
    {
        match self {
            Body::Fixed(b) => match b.next_chunk() {
                Some(whole) => Some(Ok(whole)),
                None => None,
            },
            Body::Reader(r) => match supply {
                Supply::Read(read) => r.next_chunk(read),
                _ => None,
            },
            Body::Stream(s) => match supply {
                Supply::Pushed(deadline_passed, pushed) => s.next_chunk(deadline_passed, pushed),
                _ => None,
            },
        }
    }
}

impl FromSpecImpl<BytesBody> for Body {
    open spec fn obeys_from_spec() -> bool {
        true
    }

    open spec fn from_spec(fixed: BytesBody) -> Body {
        Body::Fixed(fixed)
    }
}

impl From<BytesBody> for Body {
    fn from(fixed: BytesBody) -> (out: Body)
        ensures
            out@ == BodyView::Fixed(fixed@),
    {
        Body::Fixed(fixed)
    }
}

impl FromSpecImpl<Bytes> for Body {
    open spec fn obeys_from_spec() -> bool {
        true
    }

    open spec fn from_spec(bytes: Bytes) -> Body {
        Body::Fixed(BytesBody { body: bytes })
    }
}

impl From<Bytes> for Body {
    fn from(bytes: Bytes) -> (out: Body)
        ensures
            out@ == BodyView::Fixed(buffer_content(bytes)),
    {
        Body::Fixed(BytesBody::new(bytes))
    }
}

impl FromSpecImpl<Vec<u8>> for Body {
    open spec fn obeys_from_spec() -> bool {
        false
    }

    open spec fn from_spec(vec: Vec<u8>) -> Body {
        choose|b: Body| b@ == BodyView::Fixed(vec@)
    }
}

impl From<Vec<u8>> for Body {
    fn from(vec: Vec<u8>) -> (out: Body)
        ensures
            out@ == BodyView::Fixed(vec@),
    {
        Body::Fixed(BytesBody::from(vec))
    }
}

impl FromSpecImpl<&'static [u8]> for Body {
    open spec fn obeys_from_spec() -> bool {
        false
    }

    open spec fn from_spec(s: &'static [u8]) -> Body {
        choose|b: Body| b@ == BodyView::Fixed(s@)
    }
}

impl From<&'static [u8]> for Body {
    fn from(s: &'static [u8]) -> (out: Body)
        ensures
            out@ == BodyView::Fixed(s@),
    {
        Body::Fixed(BytesBody::from(s))
    }
}

impl FromSpecImpl<String> for Body {
    open spec fn obeys_from_spec() -> bool {
        false
    }

    open spec fn from_spec(s: String) -> Body {
        choose|b: Body| b@ == BodyView::Fixed(vstd::utf8::encode_utf8(s@))
    }
}

impl From<String> for Body {
    fn from(s: String) -> (out: Body)
        ensures
            out@ == BodyView::Fixed(vstd::utf8::encode_utf8(s@)),
    {
        Body::Fixed(BytesBody::from(s))
    }
}

impl FromSpecImpl<&'static str> for Body {
    open spec fn obeys_from_spec() -> bool {
        false
    }

    open spec fn from_spec(s: &'static str) -> Body {
        choose|b: Body| b@ == BodyView::Fixed(vstd::utf8::encode_utf8(s@))
    }
}

impl From<&'static str> for Body {
    fn from(s: &'static str) -> (out: Body)
        ensures
            out@ == BodyView::Fixed(vstd::utf8::encode_utf8(s@)),
    {
        Body::Fixed(BytesBody::from(s))
    }
}

impl Default for Body {
    fn default() -> (out: Body)
        ensures
            out@ == BodyView::Fixed(Seq::<u8>::empty()),
    {
        Body::empty()
    }
}

/// A fixed body with bytes puts all of them on the wire in its first step and ends
/// with its second; a fixed body without bytes ends with its first step. What is
/// handed to it makes no difference.
pub proof fn lemma_fixed_body_is_one_chunk(content: Seq<u8>, first: SupplyView, second: SupplyView)
    ensures
        content.len() > 0 ==> BodyView::Fixed(content).emits(first) == Some(
            Ok::<Seq<u8>, ErrorView>(content),
        ),
        content.len() > 0 ==> BodyView::Fixed(content).after(first).emits(second) is None,
        content.len() == 0 ==> BodyView::Fixed(content).emits(first) is None,
{
}

/// A reader that has ended or failed stays so and puts nothing more on the wire,
/// whatever is handed to it.
pub proof fn lemma_finished_reader_stays_silent(reader: ReaderBody, supply: SupplyView)
    requires
        reader.finished,
    ensures
        BodyView::Reader(reader).emits(supply) is None,
        BodyView::Reader(reader).after(supply) == BodyView::Reader(reader),
{
}

} // verus!

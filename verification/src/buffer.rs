//! Shared, immutable byte buffers.
//!
//! A fixed payload is kept in a `bytes::Bytes` handle, so that the request and every
//! resend of it look at the same allocation. The handle is opaque to the verifier:
//! what is known of it is stated here, over the sequence of bytes that it holds.

use bytes::Bytes;
use vstd::prelude::*;

verus! {

#[verifier::external_type_specification]
#[verifier::external_body]
pub struct ExBytes(bytes::Bytes);

/// The bytes that a buffer holds, in order.
pub uninterp spec fn buffer_content(b: Bytes) -> Seq<u8>;

/// `Bytes::new`: a buffer that holds nothing.
#[verifier::external_body]
pub(crate) fn buffer_empty() -> (out: Bytes)
    ensures
        buffer_content(out) == Seq::<u8>::empty(),
{
    Bytes::new()
}

/// `Bytes::from(Vec<u8>)`: the buffer takes the vector over and holds its bytes.
#[verifier::external_body]
pub(crate) fn buffer_from_vec(data: Vec<u8>) -> (out: Bytes)
    ensures
        buffer_content(out) == data@,
{
    Bytes::from(data)
}

/// `Bytes::from_static`: the buffer refers to the slice and holds its bytes.
#[verifier::external_body]
pub(crate) fn buffer_from_static(data: &'static [u8]) -> (out: Bytes)
    ensures
        buffer_content(out) == data@,
{
    Bytes::from_static(data)
}

/// `Bytes::copy_from_slice`: a new buffer with a copy of the slice's bytes.
#[verifier::external_body]
pub(crate) fn buffer_copy(data: &[u8]) -> (out: Bytes)
    ensures
        buffer_content(out) == data@,
{
    Bytes::copy_from_slice(data)
}

/// `Bytes::clone`: a second handle to the same bytes.
#[verifier::external_body]
pub(crate) fn buffer_share(b: &Bytes) -> (out: Bytes)
    ensures
        buffer_content(out) == buffer_content(*b),
{
    b.clone()
}

/// `Bytes::len`: how many bytes the buffer holds.
#[verifier::external_body]
pub(crate) fn buffer_len(b: &Bytes) -> (out: usize)
    ensures
        out == buffer_content(*b).len(),
{
    b.len()
}

/// `Bytes::as_ref`: the held bytes as a slice.
#[verifier::external_body]
pub(crate) fn buffer_slice(b: &Bytes) -> (out: &[u8])
    ensures
        out@ == buffer_content(*b),
{
    b.as_ref()
}

} // verus!

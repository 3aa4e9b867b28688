use vstd::prelude::*;

use crate::error::Error;
use crate::poll::Poll;

verus! {

#[verifier::external_type_specification]
#[verifier::external_body]
pub struct ExBytes(bytes::Bytes);

/// The byte sequence a canonical buffer holds.
pub uninterp spec fn bytes_view(b: bytes::Bytes) -> Seq<u8>;

/// Relies on `<[u8]>::to_vec`, reached through `Bytes`'s deref to a byte
/// slice: the vector is a copy of the buffer's bytes.
#[verifier::external_body]
pub(crate) fn bytes_to_vec(b: &bytes::Bytes) -> (r: Vec<u8>)
    ensures
        r@ == bytes_view(*b),
{
    b.to_vec()
}

/// Relies on `<bytes::Bytes as From<Vec<u8>>>::from`: the buffer takes over
/// exactly the vector's bytes.
#[verifier::external_body]
pub(crate) fn bytes_from_vec(v: Vec<u8>) -> (r: bytes::Bytes)
    ensures
        bytes_view(r) == v@,
{
    bytes::Bytes::from(v)
}

/// Inbound direction of the buffer bridge: one poll of the canonical stream,
/// rewritten for a decoder backend that was built against the legacy buffer
/// contract. Each canonical buffer is copied into the legacy representation
/// (the two are not layout-compatible, so there is no zero-copy path), and a
/// unified error is translated into the generic I/O shape the backend
/// expects, keeping its diagnostic text so it can be rebuilt on the way out.
pub fn adapt_inbound(poll: Poll<Option<Result<bytes::Bytes, Error>>>) -> (r: Poll<
    Option<Result<Vec<u8>, String>>,
>)
    ensures
        poll matches Poll::Pending ==> r matches Poll::Pending,
        poll matches Poll::Ready(None) ==> r matches Poll::Ready(None),
        poll matches Poll::Ready(Some(Ok(b))) ==> r matches Poll::Ready(Some(Ok(v))) && v@
            == bytes_view(b),
        poll matches Poll::Ready(Some(Err(e))) ==> r matches Poll::Ready(Some(Err(m))) && m@
            == e.spec_message(),
{
    match poll {
        Poll::Ready(Some(Ok(b))) => Poll::Ready(Some(Ok(bytes_to_vec(&b)))),
        Poll::Ready(Some(Err(e))) => Poll::Ready(Some(Err(e.message()))),
        Poll::Ready(None) => Poll::Ready(None),
        Poll::Pending => Poll::Pending,
    }
}

/// Outbound direction of the buffer bridge: one poll of a decoder backend.
/// Each emitted legacy buffer is copied back into the canonical type before
/// it reaches the dispatching stream, and an I/O-shaped failure becomes a
/// Decode error — distinct from a Transport error even when both stem from
/// the same connection fault, because a Decode error may follow valid chunks
/// that were already yielded.
pub fn map_compression_poll(poll: Poll<Option<Result<Vec<u8>, String>>>) -> (r: Poll<
    Option<Result<bytes::Bytes, Error>>,
>)
    ensures
        poll matches Poll::Pending ==> r matches Poll::Pending,
        poll matches Poll::Ready(None) ==> r matches Poll::Ready(None),
        poll matches Poll::Ready(Some(Ok(v))) ==> r matches Poll::Ready(Some(Ok(b)))
            && bytes_view(b) == v@,
        poll matches Poll::Ready(Some(Err(m))) ==> r == Poll::Ready(
            Some(Err::<bytes::Bytes, Error>(Error::Decode(m))),
        ),
{
    match poll {
        Poll::Ready(Some(Ok(v))) => Poll::Ready(Some(Ok(bytes_from_vec(v)))),
        Poll::Ready(Some(Err(m))) => Poll::Ready(Some(Err(Error::Decode(m)))),
        Poll::Ready(None) => Poll::Ready(None),
        Poll::Pending => Poll::Pending,
    }
}

} // verus!

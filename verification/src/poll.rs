use vstd::prelude::*;

verus! {

/// One outcome of a non-blocking pull on a stream: either the stream produced
/// a value, or it is suspended until the transport has more input. At the item
/// type `Option<Result<..>>`, `Ready(None)` is the end-of-data signal and
/// `Ready(Some(..))` carries one chunk or one terminal error.
#[derive(Debug, Clone, Copy, PartialEq, Eq)]
pub enum Poll<T> {
    Ready(T),
    Pending,
}

/// Rewrites only the error of a stream-poll outcome, leaving produced values,
/// the end-of-data signal and suspension untouched.
pub fn map_poll_err<T, E, E2, F: FnOnce(E) -> E2>(
    poll: Poll<Option<Result<T, E>>>,
    f: F,
) -> (r: Poll<Option<Result<T, E2>>>)
    requires
        forall|e: E| #[trigger] f.requires((e,)),
    ensures
        poll matches Poll::Pending ==> r matches Poll::Pending,
        poll matches Poll::Ready(None) ==> r matches Poll::Ready(None),
        poll matches Poll::Ready(Some(Ok(v))) ==> r matches Poll::Ready(Some(Ok(w))) && w == v,
        poll matches Poll::Ready(Some(Err(e))) ==> r matches Poll::Ready(Some(Err(e2)))
            && f.ensures((e,), e2),
{
    match poll {
        Poll::Ready(Some(Ok(val))) => Poll::Ready(Some(Ok(val))),
        Poll::Ready(Some(Err(err))) => Poll::Ready(Some(Err(f(err)))),
        Poll::Ready(None) => Poll::Ready(None),
        Poll::Pending => Poll::Pending,
    }
}

} // verus!

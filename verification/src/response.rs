use vstd::prelude::*;

use crate::bridge::bytes_view;
use crate::bridge::map_compression_poll;
use crate::compression::Compression;
use crate::error::Error;
use crate::poll::Poll;
use crate::poll::map_poll_err;
use crate::text::ascii_only;
use crate::text::ascii_trim;
use crate::text::lossy_of;
use crate::text::trim_of;
use crate::text::trim_text;
use crate::text::utf8_lossy;

verus! {

/// The canonical success status. Any other status turns the whole body into
/// the reason of a `BadResponse` error instead of a stream.
pub const STATUS_OK: u16 = 200;

/// Which backend the dispatching stream currently owns. The decoder
/// instances themselves live with the driver that performs the transport
/// polls; this state decides how every outcome is mapped, and when the
/// backend is to be dropped.
#[derive(Clone, Copy, Debug, PartialEq, Eq, Structural, Hash)]
pub enum Backend {
    /// The raw transport stream: chunks pass through exactly as delivered.
    Plain,
    /// An Lz4 decoder; its items already carry the unified error type.
    Lz4,
    /// A gzip decoder, reached through the buffer bridge.
    Gzip,
    /// A zlib decoder, reached through the buffer bridge.
    Zlib,
    /// A brotli decoder, reached through the buffer bridge.
    Brotli,
    /// End-of-data has been delivered; no backend remains, and every further
    /// poll yields end-of-data at once.
    Exhausted,
}

/// What one poll of the active backend produced, in the plain form the
/// driver hands back to the dispatcher.
pub enum Event {
    /// The raw transport stream was polled: a canonical buffer, or the
    /// transport's failure message.
    Raw(Poll<Option<Result<bytes::Bytes, String>>>),
    /// An Lz4 decoder was polled: its items already carry the unified error.
    Unified(Poll<Option<Result<bytes::Bytes, Error>>>),
    /// A decoder behind the buffer bridge was polled: buffers in the legacy
    /// representation, failures in the generic I/O shape.
    Legacy(Poll<Option<Result<Vec<u8>, String>>>),
    /// Nothing was polled: the stream is exhausted and no backend remains.
    Spent,
}

impl Event {
    /// Whether this event can describe a poll under the given backend state.
    pub open spec fn fits(&self, b: Backend) -> bool {
        match *self {
            Event::Raw(_) => b is Plain,
            Event::Unified(_) => b is Lz4,
            Event::Legacy(_) => b is Gzip || b is Zlib || b is Brotli,
            Event::Spent => b is Exhausted,
        }
    }

    /// Whether the backend was still waiting on the transport for raw input.
    pub open spec fn suspends(&self) -> bool {
        match *self {
            Event::Raw(p) => p is Pending,
            Event::Unified(p) => p is Pending,
            Event::Legacy(p) => p is Pending,
            Event::Spent => false,
        }
    }

    /// Whether end-of-data was signalled. An exhausted stream signals it
    /// without any backend being polled.
    pub open spec fn ends(&self) -> bool {
        match *self {
            Event::Raw(p) => p matches Poll::Ready(None),
            Event::Unified(p) => p matches Poll::Ready(None),
            Event::Legacy(p) => p matches Poll::Ready(None),
            Event::Spent => true,
        }
    }

    /// The bytes of the chunk the backend produced, if it produced one.
    pub open spec fn chunk(&self) -> Option<Seq<u8>> {
        match *self {
            Event::Raw(p) => match p {
                Poll::Ready(Some(Ok(b))) => Some(bytes_view(b)),
                _ => None,
            },
            Event::Unified(p) => match p {
                Poll::Ready(Some(Ok(b))) => Some(bytes_view(b)),
                _ => None,
            },
            Event::Legacy(p) => match p {
                Poll::Ready(Some(Ok(v))) => Some(v@),
                _ => None,
            },
            Event::Spent => None,
        }
    }

    /// The unified error the dispatcher makes of a reported failure, if one
    /// was reported: a raw transport failure becomes a Transport error, a
    /// bridged decoder failure a Decode error, and an Lz4 failure is already
    /// unified.
    pub open spec fn failure(&self) -> Option<Error> {
        match *self {
            Event::Raw(p) => match p {
                Poll::Ready(Some(Err(m))) => Some(Error::Transport(m)),
                _ => None,
            },
            Event::Unified(p) => match p {
                Poll::Ready(Some(Err(e))) => Some(e),
                _ => None,
            },
            Event::Legacy(p) => match p {
                Poll::Ready(Some(Err(m))) => Some(Error::Decode(m)),
                _ => None,
            },
            Event::Spent => None,
        }
    }
}

/// The unified class of a stream failure reported by the raw transport.
fn transport_error(m: String) -> (e: Error)
    ensures
        e == Error::Transport(m),
{
    Error::Transport(m)
}

/// The backend state after one event: the first end-of-data signal drops the
/// backend, anything else leaves the state alone.
pub open spec fn step_backend(b: Backend, ev: Event) -> Backend {
    if ev.ends() {
        Backend::Exhausted
    } else {
        b
    }
}

/// The backend state after a run of events.
pub open spec fn run_backend(b: Backend, evs: Seq<Event>) -> Backend
    decreases evs.len(),
{
    if evs.len() == 0 {
        b
    } else {
        run_backend(step_backend(b, evs[0]), evs.drop_first())
    }
}

/// Spec-level picture of one yielded stream item: a chunk's bytes, a
/// terminal unified error, or the end-of-data signal.
pub enum Emission {
    Chunk(Seq<u8>),
    Fault(Error),
    End,
}

/// What the dispatcher emits on one event; suspension emits nothing.
pub open spec fn emission_of(ev: Event) -> Option<Emission> {
    if ev.suspends() {
        None
    } else if ev.ends() {
        Some(Emission::End)
    } else if ev.chunk() is Some {
        Some(Emission::Chunk(ev.chunk()->0))
    } else {
        Some(Emission::Fault(ev.failure()->0))
    }
}

/// Whether an executable poll outcome is pictured by a spec emission.
pub open spec fn models(
    r: Poll<Option<Result<bytes::Bytes, Error>>>,
    m: Option<Emission>,
) -> bool {
    match m {
        None => r is Pending,
        Some(Emission::End) => r matches Poll::Ready(None),
        Some(Emission::Chunk(bs)) => r matches Poll::Ready(Some(Ok(b))) && bytes_view(b) == bs,
        Some(Emission::Fault(e)) => r matches Poll::Ready(Some(Err(e2))) && e2 == e,
    }
}

/// Whether every event in a run fits the backend state current at its turn.
pub open spec fn valid_run(b: Backend, evs: Seq<Event>) -> bool
    decreases evs.len(),
{
    evs.len() == 0 || (evs[0].fits(b) && valid_run(step_backend(b, evs[0]), evs.drop_first()))
}

/// Every item the dispatcher yields over a run of events, in order;
/// suspensions contribute nothing.
pub open spec fn emissions(evs: Seq<Event>) -> Seq<Emission>
    decreases evs.len(),
{
    if evs.len() == 0 {
        Seq::empty()
    } else {
        (match emission_of(evs[0]) {
            Some(m) => seq![m],
            None => Seq::empty(),
        }) + emissions(evs.drop_first())
    }
}

/// The concatenation of the chunks the backend produced over a run.
pub open spec fn chunk_concat(evs: Seq<Event>) -> Seq<u8>
    decreases evs.len(),
{
    if evs.len() == 0 {
        Seq::empty()
    } else {
        (match evs[0].chunk() {
            Some(c) => c,
            None => Seq::empty(),
        }) + chunk_concat(evs.drop_first())
    }
}

/// The concatenation of the chunks among yielded items.
pub open spec fn emission_concat(ms: Seq<Emission>) -> Seq<u8>
    decreases ms.len(),
{
    if ms.len() == 0 {
        Seq::empty()
    } else {
        (match ms[0] {
            Emission::Chunk(c) => c,
            _ => Seq::empty(),
        }) + emission_concat(ms.drop_first())
    }
}

/// Once the stream is exhausted it stays exhausted over any further run of
/// events; with `poll_next`'s contract, every one of those polls yields
/// end-of-data, and no backend is ever re-acquired.
pub proof fn lemma_idempotent_exhaustion(evs: Seq<Event>)
    ensures
        run_backend(Backend::Exhausted, evs) == Backend::Exhausted,
    decreases evs.len(),
{
    if evs.len() > 0 {
        lemma_idempotent_exhaustion(evs.drop_first());
    }
}

/// The bytes the stream yields over any run of events are, in concatenation,
/// exactly the bytes the active backend produced: the dispatcher adds,
/// drops and reorders nothing, whatever chunk boundaries the codec chose.
/// Whether the decoder's output restores the original payload is the codec's
/// round-trip promise, outside this layer.
pub proof fn lemma_faithful_concatenation(evs: Seq<Event>)
    ensures
        emission_concat(emissions(evs)) == chunk_concat(evs),
    decreases evs.len(),
{
    if evs.len() > 0 {
        lemma_faithful_concatenation(evs.drop_first());
        let rest = emissions(evs.drop_first());
        match emission_of(evs[0]) {
            Some(m) => {
                assert(emissions(evs) == seq![m] + rest);
                assert((seq![m] + rest).drop_first() =~= rest);
                assert((seq![m] + rest)[0] == m);
            },
            None => {
                assert(emissions(evs) =~= rest);
                assert(evs[0].chunk() is None);
            },
        }
    }
}

/// Partial-failure ordering: a corrupted compressed stream — a run in which
/// the active decoder produces some chunks and then reports a failure —
/// yields exactly those chunks, in order and in full, followed by exactly
/// one Decode error as its terminal item. No valid chunk is withheld because
/// of the later failure.
pub proof fn lemma_partial_failure_ordering(b: Backend, evs: Seq<Event>)
    requires
        b is Gzip || b is Zlib || b is Brotli,
        valid_run(b, evs),
        evs.len() > 0,
        forall|i: int| 0 <= i < evs.len() - 1 ==> (#[trigger] evs[i]).chunk() is Some,
        evs[evs.len() - 1].failure() is Some,
    ensures
        emissions(evs).len() == evs.len(),
        forall|i: int|
            0 <= i < evs.len() - 1 ==> (#[trigger] emissions(evs)[i]) == Emission::Chunk(
                evs[i].chunk()->0,
            ),
        emissions(evs)[evs.len() - 1] matches Emission::Fault(e) && e is Decode,
    decreases evs.len(),
{
    let rest = evs.drop_first();
    if evs.len() == 1 {
        assert(evs[0].fits(b));
        assert(emissions(evs) =~= seq![emission_of(evs[0])->0]);
    } else {
        assert(evs[0].chunk() is Some);
        assert(step_backend(b, evs[0]) == b);
        assert(rest[rest.len() - 1] == evs[evs.len() - 1]);
        assert(forall|i: int| 0 <= i < rest.len() - 1 ==> (#[trigger] rest[i]) == evs[i + 1]);
        lemma_partial_failure_ordering(b, rest);
        let m = emission_of(evs[0])->0;
        assert(emissions(evs) == seq![m] + emissions(rest));
        assert(forall|i: int|
            1 <= i < evs.len() ==> (#[trigger] emissions(evs)[i]) == emissions(rest)[i - 1]);
        assert(emissions(evs)[0] == m);
    }
}

/// The polymorphic output stream: it owns exactly one active decoder backend,
/// dispatches every poll to it, converts backend-specific failures into the
/// unified error type, and once end-of-data has been seen holds no backend
/// at all.
pub struct Chunks {
    backend: Backend,
}

impl Chunks {
    /// The backend this stream currently drives.
    pub closed spec fn backend(&self) -> Backend {
        self.backend
    }

    /// The backend that decodes bodies carrying the given algorithm.
    pub open spec fn backend_for(c: Compression) -> Backend {
        match c {
            Compression::Uncompressed => Backend::Plain,
            Compression::Lz4 => Backend::Lz4,
            Compression::Gzip => Backend::Gzip,
            Compression::Zlib => Backend::Zlib,
            Compression::Brotli => Backend::Brotli,
        }
    }

    /// The stream for a body with the given algorithm, dispatching to the
    /// backend the driver just built around the raw body.
    pub fn new(compression: Compression) -> (r: Chunks)
        ensures
            r.backend() == Chunks::backend_for(compression),
    {
        let b = match compression {
            Compression::Uncompressed => Backend::Plain,
            Compression::Lz4 => Backend::Lz4,
            Compression::Gzip => Backend::Gzip,
            Compression::Zlib => Backend::Zlib,
            Compression::Brotli => Backend::Brotli,
        };
        Chunks { backend: b }
    }

    /// Whether end-of-data has been delivered and the backend dropped.
    pub fn is_exhausted(&self) -> (r: bool)
        ensures
            r == (self.backend() is Exhausted),
    {
        matches!(self.backend, Backend::Exhausted)
    }

    /// One pull on the stream. The driver polls the active backend and hands
    /// the outcome in; the dispatcher converts it to the uniform item shape.
    /// On the first end-of-data signal the state drops to `Exhausted` before
    /// the signal is returned, so decoder resources are released eagerly;
    /// from then on only `Event::Spent` fits, and every poll yields
    /// end-of-data with no side effects.
    pub fn poll_next(&mut self, event: Event) -> (r: Poll<
        Option<Result<bytes::Bytes, Error>>,
    >)
        requires
            event.fits(old(self).backend()),
        ensures
            final(self).backend() == step_backend(old(self).backend(), event),
            models(r, emission_of(event)),
    {
        let res: Poll<Option<Result<bytes::Bytes, Error>>> = match event {
            Event::Raw(p) => map_poll_err(p, transport_error),
            Event::Unified(p) => p,
            Event::Legacy(p) => map_compression_poll(p),
            Event::Spent => Poll::Ready(None),
        };
        if let Poll::Ready(None) = &res {
            self.backend = Backend::Exhausted;
        }
        res
    }

    /// The stream's size hint: the active backend's own hint, forwarded
    /// verbatim — chunk boundaries are the codec's business — and exactly
    /// zero remaining items once exhausted.
    pub fn size_hint(&self, backend_hint: (usize, Option<usize>)) -> (r: (usize, Option<
        usize,
    >))
        ensures
            self.backend() is Exhausted ==> r == (0usize, Some(0usize)),
            !(self.backend() is Exhausted) ==> r == backend_hint,
    {
        match self.backend {
            Backend::Exhausted => (0, Some(0)),
            _ => backend_hint,
        }
    }
}

/// The two-state lifecycle of a response: pending, or realized as a decoding
/// stream. The transition happens at most once, at the first successful
/// resolution, and is irreversible. The pending transport future itself
/// lives with the driver that awaits it; the verified state carries what the
/// transition decides on.
pub enum Response {
    /// The response head has not arrived yet; the algorithm negotiated for
    /// the request is held for backend selection.
    Waiting(Compression),
    /// The head was validated and the decoding stream is live.
    Loading(Chunks),
}

/// What the driver must do next, decided from the arrival of the response
/// head.
pub enum HeadStep {
    /// The status was the success code: the response now holds the live
    /// stream.
    Resolved,
    /// A non-success status: the whole body is to be read — no size cap is
    /// applied to this read — and handed to `Response::reject`; no
    /// decompression is attempted for error bodies, whatever the algorithm.
    ReadErrorBody,
    /// The transport failed while resolving the head. The error is terminal:
    /// the pending response is spent, and a retry takes a new `Response`.
    Failed(Error),
}

impl Response {
    /// The algorithm a pending response holds.
    pub open spec fn algorithm(&self) -> Compression
        recommends
            *self is Waiting,
    {
        match *self {
            Response::Waiting(c) => c,
            Response::Loading(_) => arbitrary(),
        }
    }

    /// Pure construction: nothing is awaited and no I/O happens.
    pub fn new(compression: Compression) -> (r: Response)
        ensures
            r == Response::Waiting(compression),
    {
        Response::Waiting(compression)
    }

    /// Whether the first resolution has succeeded and the stream is live.
    pub fn is_resolved(&self) -> (r: bool)
        ensures
            r == (*self is Loading),
    {
        matches!(self, Response::Loading(_))
    }

    /// The decision at the arrival of the response head, taken exactly once,
    /// on the first resolution. A transport failure surfaces immediately and
    /// leaves the response unresolved. A non-success status demands the
    /// error body and constructs no stream. The success status builds the
    /// backend matching the negotiated algorithm and transitions —
    /// irreversibly — to `Loading`.
    pub fn on_head(&mut self, head: Result<u16, String>) -> (r: HeadStep)
        requires
            *old(self) is Waiting,
        ensures
            head matches Err(m) ==> r == HeadStep::Failed(Error::Transport(m)) && *final(self)
                == *old(self),
            head matches Ok(s) && s != STATUS_OK ==> r is ReadErrorBody && *final(self) == *old(
                self,
            ),
            head matches Ok(s) && s == STATUS_OK ==> ({
                &&& r is Resolved
                &&& *final(self) matches Response::Loading(c)
                &&& c.backend() == Chunks::backend_for(old(self).algorithm())
            }),
    {
        match head {
            Err(m) => HeadStep::Failed(Error::Transport(m)),
            Ok(status) => {
                if status != STATUS_OK {
                    HeadStep::ReadErrorBody
                } else {
                    let compression = match self {
                        Response::Waiting(c) => *c,
                        Response::Loading(_) => unreached(),
                    };
                    *self = Response::Loading(Chunks::new(compression));
                    HeadStep::Resolved
                }
            },
        }
    }

    /// The Protocol error for a response with a non-success status, built
    /// from its fully drained body: the bytes are decoded permissively as
    /// text — invalid sequences replaced, never rejected — and trimmed of
    /// surrounding whitespace; that text is the error's reason.
    pub fn reject(body: &Vec<u8>) -> (e: Error)
        ensures
            e is BadResponse,
            e.spec_message() == trim_of(lossy_of(body@)),
            vstd::utf8::valid_utf8(body@) && ascii_only(vstd::utf8::decode_utf8(body@))
                ==> e.spec_message() == ascii_trim(vstd::utf8::decode_utf8(body@)),
    {
        let text = utf8_lossy(body);
        let reason = trim_text(&text);
        Error::BadResponse(reason)
    }
}

} // verus!


use bodyflow::Chunks;
use bodyflow::Compression;
use bodyflow::Error;
use bodyflow::Event;
use bodyflow::HeadStep;
use bodyflow::Poll;
use bodyflow::Response;
use bodyflow::adapt_inbound;
use bodyflow::map_compression_poll;
use bodyflow::map_poll_err;
use bytes::Bytes;

#[test]
fn plain_body_single_chunk() {
    let mut stream = Chunks::new(Compression::Uncompressed);
    match stream.poll_next(Event::Raw(Poll::Ready(Some(Ok(Bytes::from_static(b"ABC")))))) {
        Poll::Ready(Some(Ok(b))) => assert_eq!(&b[..], b"ABC"),
        _ => panic!("expected the chunk to pass through"),
    }
    assert!(matches!(stream.poll_next(Event::Raw(Poll::Ready(None))), Poll::Ready(None)));
    assert!(stream.is_exhausted());
    assert!(matches!(stream.poll_next(Event::Spent), Poll::Ready(None)));
}

#[test]
fn bad_status_rejected() {
    let mut resp = Response::new(Compression::Gzip);
    assert!(!resp.is_resolved());
    let step = resp.on_head(Ok(500));
    assert!(matches!(step, HeadStep::ReadErrorBody));
    // the stream is never constructed for a non-success status
    assert!(!resp.is_resolved());
    let body = b"Internal Server Error".to_vec();
    let err = Response::reject(&body);
    assert_eq!(err, Error::BadResponse(String::from("Internal Server Error")));
}

#[test]
fn success_status_resolves_once() {
    let mut resp = Response::new(Compression::Uncompressed);
    let step = resp.on_head(Ok(200));
    assert!(matches!(step, HeadStep::Resolved));
    assert!(resp.is_resolved());
    match resp {
        Response::Loading(mut stream) => {
            match stream.poll_next(Event::Raw(Poll::Ready(Some(Ok(Bytes::from_static(b"ok")))))) {
                Poll::Ready(Some(Ok(b))) => assert_eq!(&b[..], b"ok"),
                _ => panic!("expected the chunk to pass through"),
            }
        }
        Response::Waiting(_) => panic!("the response must hold the live stream"),
    }
}

#[test]
fn transport_failure_during_resolution() {
    let mut resp = Response::new(Compression::Brotli);
    let step = resp.on_head(Err(String::from("connection reset")));
    assert!(matches!(step, HeadStep::Failed(Error::Transport(m)) if m == "connection reset"));
    assert!(!resp.is_resolved());
}

#[test]
fn reject_trims_surrounding_whitespace() {
    let err = Response::reject(&b"  out of range \n".to_vec());
    assert_eq!(err, Error::BadResponse(String::from("out of range")));
}

#[test]
fn reject_keeps_valid_utf8() {
    let body = String::from("caf\u{e9} refused").into_bytes();
    let err = Response::reject(&body);
    assert_eq!(err, Error::BadResponse(String::from("caf\u{e9} refused")));
}

#[test]
fn reject_replaces_invalid_sequences() {
    let err = Response::reject(&vec![0xff, 0x41]);
    assert_eq!(err, Error::BadResponse(String::from("\u{fffd}A")));
}

#[test]
fn transport_error_is_not_decode() {
    let mut stream = Chunks::new(Compression::Uncompressed);
    let r = stream.poll_next(Event::Raw(Poll::Ready(Some(Err(String::from("broken pipe"))))));
    assert!(matches!(r, Poll::Ready(Some(Err(Error::Transport(m)))) if m == "broken pipe"));
    // an error item does not exhaust the stream by itself
    assert!(!stream.is_exhausted());
}

#[test]
fn lz4_items_pass_unified() {
    let mut stream = Chunks::new(Compression::Lz4);
    match stream.poll_next(Event::Unified(Poll::Ready(Some(Ok(Bytes::from_static(b"hi")))))) {
        Poll::Ready(Some(Ok(b))) => assert_eq!(&b[..], b"hi"),
        _ => panic!("expected the chunk to pass through"),
    }
    let r = stream.poll_next(Event::Unified(Poll::Ready(Some(Err(Error::Decode(String::from(
        "short frame",
    )))))));
    assert!(matches!(r, Poll::Ready(Some(Err(Error::Decode(m)))) if m == "short frame"));
}

#[test]
fn suspension_passes_through() {
    let mut stream = Chunks::new(Compression::Zlib);
    assert!(matches!(stream.poll_next(Event::Legacy(Poll::Pending)), Poll::Pending));
    assert!(!stream.is_exhausted());
}

#[test]
fn exhaustion_is_idempotent() {
    let mut stream = Chunks::new(Compression::Gzip);
    assert!(matches!(stream.poll_next(Event::Legacy(Poll::Ready(None))), Poll::Ready(None)));
    assert!(stream.is_exhausted());
    for _ in 0..3 {
        assert!(matches!(stream.poll_next(Event::Spent), Poll::Ready(None)));
        assert!(stream.is_exhausted());
        assert_eq!(stream.size_hint((9, None)), (0, Some(0)));
    }
}

#[test]
fn size_hint_forwards_the_backend() {
    let stream = Chunks::new(Compression::Lz4);
    assert_eq!(stream.size_hint((3, None)), (3, None));
    assert_eq!(stream.size_hint((0, Some(8))), (0, Some(8)));
}

#[test]
fn map_poll_err_touches_only_errors() {
    let ok: Poll<Option<Result<u32, String>>> = Poll::Ready(Some(Ok(7)));
    assert_eq!(map_poll_err(ok, Error::Transport), Poll::Ready(Some(Ok(7))));
    let err: Poll<Option<Result<u32, String>>> = Poll::Ready(Some(Err(String::from("x"))));
    assert_eq!(
        map_poll_err(err, Error::Transport),
        Poll::Ready(Some(Err(Error::Transport(String::from("x")))))
    );
    let done: Poll<Option<Result<u32, String>>> = Poll::Ready(None);
    assert_eq!(map_poll_err(done, Error::Transport), Poll::Ready(None));
    let wait: Poll<Option<Result<u32, String>>> = Poll::Pending;
    assert_eq!(map_poll_err(wait, Error::Transport), Poll::Pending);
}

#[test]
fn bridge_copies_and_translates() {
    // inbound: a canonical buffer is copied into the legacy representation
    let r = adapt_inbound(Poll::Ready(Some(Ok(Bytes::from_static(b"abc")))));
    assert!(matches!(r, Poll::Ready(Some(Ok(v))) if v == b"abc".to_vec()));
    // inbound: a unified error crosses in the I/O shape, message kept
    let r = adapt_inbound(Poll::Ready(Some(Err(Error::Transport(String::from("gone"))))));
    assert!(matches!(r, Poll::Ready(Some(Err(m))) if m == "gone"));
    // outbound: a legacy buffer is copied back into the canonical type
    let r = map_compression_poll(Poll::Ready(Some(Ok(b"xyz".to_vec()))));
    assert!(matches!(r, Poll::Ready(Some(Ok(b))) if b == Bytes::from_static(b"xyz")));
    // outbound: an I/O-shaped failure becomes a Decode error
    let r = map_compression_poll(Poll::Ready(Some(Err(String::from("bad magic")))));
    assert!(matches!(r, Poll::Ready(Some(Err(Error::Decode(m)))) if m == "bad magic"));
    // both directions leave end-of-data and suspension alone
    assert!(matches!(adapt_inbound(Poll::Ready(None)), Poll::Ready(None)));
    assert!(matches!(adapt_inbound(Poll::Pending), Poll::Pending));
    assert!(matches!(map_compression_poll(Poll::Ready(None)), Poll::Ready(None)));
    assert!(matches!(map_compression_poll(Poll::Pending), Poll::Pending));
}

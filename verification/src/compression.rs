use vstd::prelude::*;

verus! {

/// The closed set of supported body encodings. One is negotiated per request
/// and is immutable thereafter; it selects which decoder backend the stream
/// will drive.
#[derive(Clone, Copy, Debug, PartialEq, Eq, Structural, Hash)]
pub enum Compression {
    /// The body is not compressed; chunks pass through as the transport
    /// delivers them.
    Uncompressed,
    Lz4,
    Gzip,
    Zlib,
    Brotli,
}

} // verus!

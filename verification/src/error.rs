use vstd::prelude::*;

verus! {

/// The unified failure taxonomy of this layer. Every failure a caller can see
/// is one of these three classes, and all of them are terminal: nothing in
/// this crate retries or suppresses.
#[derive(Debug, Clone, PartialEq, Eq)]
pub enum Error {
    /// A connection or stream failure reported by the underlying transport,
    /// carried as its rendered message. Surfaced immediately, including while
    /// the response head is still being resolved.
    Transport(String),
    /// A non-success HTTP status. The reason is the full error body, decoded
    /// permissively as text and trimmed of surrounding whitespace.
    BadResponse(String),
    /// A malformed compressed payload detected by a decoder backend, carried
    /// as the decoder's diagnostic message. It may follow chunks that were
    /// already yielded; those chunks remain valid.
    Decode(String),
}

impl Error {
    /// The diagnostic text this error carries, whatever its class.
    pub open spec fn spec_message(&self) -> Seq<char> {
        match *self {
            Error::Transport(ref m) => m@,
            Error::BadResponse(ref m) => m@,
            Error::Decode(ref m) => m@,
        }
    }

    /// The diagnostic text this error carries. Crossing into a decoder
    /// backend, an error travels in the generic I/O shape as this text alone.
    pub fn message(&self) -> (r: String)
        ensures
            r@ == self.spec_message(),
    {
        match self {
            Error::Transport(m) => m.clone(),
            Error::BadResponse(m) => m.clone(),
            Error::Decode(m) => m.clone(),
        }
    }
}

} // verus!

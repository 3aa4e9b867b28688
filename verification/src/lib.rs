//! Response-decompression core of an HTTP client.
//!
//! Given a pending HTTP response and the compression algorithm negotiated for
//! the request, this crate validates the response status and presents the body
//! as a uniform pull-based sequence of byte chunks, transparently decompressed
//! by whichever decoder backend matches the algorithm. The verified core holds
//! the state machines and every mapping decision; an unverified driver owns
//! the transport future and the decoder instances and feeds their outcomes in
//! as plain events.

mod bridge;
mod compression;
mod error;
mod poll;
mod response;
mod text;

pub use bridge::adapt_inbound;
pub use bridge::bytes_view;
pub use bridge::map_compression_poll;
pub use compression::Compression;
pub use error::Error;
pub use poll::Poll;
pub use poll::map_poll_err;
pub use response::Backend;
pub use response::Chunks;
pub use response::Emission;
pub use response::Event;
pub use response::HeadStep;
pub use response::Response;
pub use response::STATUS_OK;
pub use response::chunk_concat;
pub use response::emission_concat;
pub use response::emission_of;
pub use response::emissions;
pub use response::lemma_faithful_concatenation;
pub use response::lemma_idempotent_exhaustion;
pub use response::lemma_partial_failure_ordering;
pub use response::models;
pub use response::run_backend;
pub use response::step_backend;
pub use response::valid_run;
pub use text::ascii_trim;
pub use text::lossy_of;
pub use text::trim_of;

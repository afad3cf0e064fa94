use vstd::prelude::*;

verus! {

/// The failure taxonomy of the thumbnail pipeline. Every failure is surfaced
/// to the immediate caller; nothing is retried or swallowed internally.
#[derive(Clone, Debug)]
pub enum ThumbError {
    /// The declared media type has no registered decoder. Non-retryable.
    UnsupportedFormat,
    /// The bytes do not conform to the declared format (corruption,
    /// truncation, or a mismatch between declaration and content). The
    /// payload forwards the codec's diagnostic. Non-retryable.
    DecodeFailure(String),
    /// Reading the source or writing the destination failed at the transport
    /// level. Constructed by callers that do the actual I/O; the in-memory
    /// pipeline itself never produces it.
    IoFailure(String),
    /// The chosen output format could not represent the image, or the sink
    /// rejected the write. The payload forwards the encoder's diagnostic.
    EncodeFailure(String),
}

pub type ThumbResult<T> = Result<T, ThumbError>;

} // verus!

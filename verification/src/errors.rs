use vstd::prelude::*;

verus! {

/// Marker for a failed append on a bounded buffer.
#[derive(Clone, Copy, Debug, PartialEq, Eq, Structural)]
pub struct ExceedBuffer;

/// Every error that the streaming machinery can surface.
///
/// Buffer overflows and I/O failures are fatal for the stream; a parse
/// failure is recoverable and is yielded once per offending position.
#[derive(Clone, Debug, PartialEq, Eq)]
pub enum StreamParserError {
    /// The grammar parser rejected the bytes at the current position; the
    /// rejected window is kept as context.
    ParseFailure { context: Vec<u8> },
    /// The underlying reader failed.
    Io { message: String },
    /// Appending `data_size` bytes into a bounded buffer of `buffer_size`
    /// bytes cannot succeed, even after eviction.
    ExceededBuffer { buffer_size: usize, data_size: usize },
    /// The bounded buffer is full while a record is still awaited, and
    /// nothing can be evicted.
    ExceededBufferUnknownSize { buffer_size: usize },
}

impl StreamParserError {
    /// Whether this error ends the stream (buffer overflows and I/O errors)
    /// or lets iteration continue (parse failures).
    pub fn is_fatal(&self) -> (r: bool)
        ensures
            r == !(self matches StreamParserError::ParseFailure { .. }),
    {
        match self {
            StreamParserError::ParseFailure { .. } => false,
            _ => true,
        }
    }
}

} // verus!

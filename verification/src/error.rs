use vstd::prelude::*;

verus! {

/// A fault in the textual content of a name or path inside a model file.
#[derive(Debug, Clone, Copy, PartialEq, Eq)]
pub enum StringError {
    /// The bytes before the terminating null are not valid UTF-8.
    NonUtf8,
    /// A fixed-length name field holds no null terminator.
    NotNullTerminated,
}

/// The unified fault taxonomy for every parser of this crate.
///
/// A parse either returns a complete value or exactly one of these; no
/// partial trees are produced.
#[derive(Debug, Clone, Copy, PartialEq, Eq)]
pub enum ModelError {
    /// An I/O fault while obtaining the bytes. The parsers themselves never
    /// produce this; callers that read files bubble it through this variant.
    Io,
    /// A name or path inside the file is malformed.
    String(StringError),
    /// An offset reference points outside the byte slice. `data` names the
    /// record that was being resolved, `offset` is the failing byte offset.
    OutOfBounds { data: &'static str, offset: usize },
    /// A fixed-size read needs more bytes than remain; the payload is the
    /// size of the record that was being read.
    Eof(usize),
}

} // verus!

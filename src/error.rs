//! The two kinds of failure a caller can see: which direction failed, and why.
use vstd::prelude::*;

verus! {

/// A failed operation, by direction, with a human-readable cause.
#[derive(Debug, PartialEq, Eq)]
pub enum CodecError {
    CompressionError(String),
    DecompressionError(String),
}

impl CodecError {
    /// The cause carried by the error.
    pub fn message(&self) -> (r: &String)
        ensures
            r == (match self {
                CodecError::CompressionError(m) => m,
                CodecError::DecompressionError(m) => m,
            }),
    {
        match self {
            CodecError::CompressionError(m) => m,
            CodecError::DecompressionError(m) => m,
        }
    }

    /// Whether the failure happened while compressing.
    pub fn is_compression(&self) -> (r: bool)
        ensures
            r == (self is CompressionError),
    {
        match self {
            CodecError::CompressionError(_) => true,
            CodecError::DecompressionError(_) => false,
        }
    }
}

} // verus!

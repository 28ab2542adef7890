//! gzip compression behind a uniform calling convention: one-shot calls that
//! allocate their output, calls that write into a caller's buffer, and a
//! streaming compressor with an explicit terminal state.
pub mod buffer;
pub mod codec;
pub mod error;
pub mod gzip;
pub mod laws;

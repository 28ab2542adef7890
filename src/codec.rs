//! The outside gzip codec, as the rest of the library sees it.
//!
//! What a gzip member looks like for given data is the codec's business and
//! is only named here; what is stated is how the calls use their buffers,
//! when they succeed, and that what they emit decodes back.
use libcramjam::gzip::GzipStreamCompressor;
use std::io::Write;
use vstd::prelude::*;

verus! {

#[verifier::external_type_specification]
#[verifier::external_body]
pub struct ExIoError(std::io::Error);

/// A streaming gzip encoder over an in-memory sink. Verus cannot declare
/// the encoder type itself (its parameter is bounded by `std::io::Write`),
/// so it is held here, opaque, and reached only through the items below.
#[verifier::external_body]
pub struct GzipStream {
    enc: GzipStreamCompressor<Vec<u8>>,
}

/// Why a call into the codec over a caller's slice failed.
pub enum CodecFault {
    /// The output did not fit in the slice.
    OutputFull,
    /// The codec rejected the input.
    Failed(std::io::Error),
}

/// The gzip member that the codec produces for `data` at `level`.
pub uninterp spec fn gzip_of(data: Seq<u8>, level: u32) -> Seq<u8>;

/// What the codec decodes from `data`: the concatenated contents of its
/// members, or `None` where it rejects the input.
pub uninterp spec fn gzip_decoded(data: Seq<u8>) -> Option<Seq<u8>>;

/// All bytes written into a streaming encoder since it was opened.
pub uninterp spec fn stream_fed(e: GzipStream) -> Seq<u8>;

/// All compressed bytes taken out of a streaming encoder's sink so far.
pub uninterp spec fn stream_drained(e: GzipStream) -> Seq<u8>;

/// The compression level a streaming encoder was opened with.
pub uninterp spec fn stream_level(e: GzipStream) -> u32;

/// Relies on `libcramjam::gzip::compress`, which copies the member out of
/// flate2's `GzEncoder` into a cursor over `out` with `io::copy`: it lands at
/// the front of `out` when it fits, and otherwise the cursor's `write_all`
/// fails with `ErrorKind::WriteZero`, the only error that encoding in memory
/// can raise. The member decodes back to `data`, and holds at least the
/// fixed 10-byte header and the 8-byte trailer. flate2's `Compression` takes
/// levels up to 10 (a debug assertion in its miniz_oxide backend).
#[verifier::external_body]
pub(crate) fn gzip_compress_slice(data: &[u8], out: &mut [u8], level: u32) -> (r: Result<
    usize,
    CodecFault,
>)
    requires
        level <= 10,
    ensures
        final(out)@.len() == old(out)@.len(),
        r is Ok <==> gzip_of(data@, level).len() <= old(out)@.len(),
        r matches Ok(n) ==> n == gzip_of(data@, level).len() && final(out)@.subrange(0, n as int)
            == gzip_of(data@, level),
        r matches Ok(n) ==> gzip_decoded(final(out)@.subrange(0, n as int)) == Some(data@),
        r matches Ok(n) ==> n >= 18,
        r matches Err(f) ==> f is OutputFull,
{
    match libcramjam::gzip::compress(data, &mut std::io::Cursor::new(out), Some(level)) {
        Ok(n) => Ok(n),
        Err(e) if e.kind() == std::io::ErrorKind::WriteZero => Err(CodecFault::OutputFull),
        Err(e) => Err(CodecFault::Failed(e)),
    }
}

/// Relies on `libcramjam::gzip::decompress`, which copies what flate2's
/// `MultiGzDecoder` decodes into a cursor over `out` with `io::copy`: it
/// succeeds when the input decodes and the result fits, and reports the
/// number of bytes it wrote. Input that decodes can only fail on the
/// cursor, with `ErrorKind::WriteZero`.
#[verifier::external_body]
pub(crate) fn gzip_decompress_slice(data: &[u8], out: &mut [u8]) -> (r: Result<
    usize,
    CodecFault,
>)
    ensures
        final(out)@.len() == old(out)@.len(),
        r is Ok <==> (gzip_decoded(data@) is Some && gzip_decoded(data@)->0.len()
            <= old(out)@.len()),
        r matches Ok(n) ==> n <= old(out)@.len() && gzip_decoded(data@) == Some(
            final(out)@.subrange(0, n as int),
        ),
        r matches Err(f) ==> (gzip_decoded(data@) is Some ==> f is OutputFull),
{
    match libcramjam::gzip::decompress(data, &mut std::io::Cursor::new(out)) {
        Ok(n) => Ok(n),
        Err(e) if e.kind() == std::io::ErrorKind::WriteZero => Err(CodecFault::OutputFull),
        Err(e) => Err(CodecFault::Failed(e)),
    }
}

/// Relies on `GzipStreamCompressor::new`: a fresh encoder at `level` over an
/// empty sink. flate2's `Compression` takes levels up to 10 (a debug
/// assertion in its miniz_oxide backend).
#[verifier::external_body]
pub(crate) fn stream_open(level: u32) -> (e: GzipStream)
    requires
        level <= 10,
    ensures
        stream_level(e) == level,
        stream_fed(e) == Seq::<u8>::empty(),
        stream_drained(e) == Seq::<u8>::empty(),
{
    GzipStream { enc: GzipStreamCompressor::new(Vec::new(), level) }
}

/// Relies on `Write::write_all` for `GzipStreamCompressor`: all of `data`
/// is taken in; nothing leaves the sink. It cannot fail: the sink is a `Vec`,
/// and miniz_oxide reports a parameter error only once a stream has been
/// finished, which `finish` prevents by consuming the encoder.
#[verifier::external_body]
pub(crate) fn stream_write(e: &mut GzipStream, data: &[u8]) -> (r: Result<
    (),
    std::io::Error,
>)
    ensures
        r is Ok,
        stream_fed(*final(e)) == stream_fed(*old(e)) + data@,
        stream_drained(*final(e)) == stream_drained(*old(e)),
        stream_level(*final(e)) == stream_level(*old(e)),
{
    e.enc.write_all(data)
}

/// Relies on `Write::flush` for `GzipStreamCompressor` (a sync flush into
/// its sink) and on `get_mut`, through which the sink is emptied: what
/// comes back is all the encoder emitted since the sink was last emptied.
/// It cannot fail, for the reasons given at `stream_write`.
#[verifier::external_body]
pub(crate) fn stream_flush_drain(e: &mut GzipStream) -> (r: Result<
    Vec<u8>,
    std::io::Error,
>)
    ensures
        r is Ok,
        stream_fed(*final(e)) == stream_fed(*old(e)),
        r matches Ok(b) ==> stream_drained(*final(e)) == stream_drained(*old(e)) + b@,
        stream_level(*final(e)) == stream_level(*old(e)),
{
    e.enc.flush()?;
    Ok(std::mem::take(e.enc.get_mut()))
}

/// Relies on `GzipStreamCompressor::finish`: it ends the member, trailer
/// included, and hands back the sink, so that what was drained before,
/// followed by the sink, is a gzip stream of all that was fed. The 8-byte
/// trailer goes into the sink, after the 10-byte header at the latest. It
/// cannot fail, for the reasons given at `stream_write`.
#[verifier::external_body]
pub(crate) fn stream_finish(e: GzipStream) -> (r: Result<
    Vec<u8>,
    std::io::Error,
>)
    ensures
        r is Ok,
        r matches Ok(b) ==> gzip_decoded(stream_drained(e) + b@) == Some(stream_fed(e)),
        r matches Ok(b) ==> b@.len() >= 8 && (stream_drained(e) + b@).len() >= 18,
{
    e.enc.finish()
}

} // verus!

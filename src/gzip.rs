//! gzip compression and decompression: one-shot calls that allocate their
//! output, calls into a caller's buffer, and streaming compression and decompression.
use crate::buffer::{ByteSink, ByteSource, RustyBuffer};
use crate::codec::{
    gzip_compress_slice, gzip_decoded, gzip_decompress_slice, gzip_of, stream_drained, stream_fed, stream_level,
    stream_finish, stream_flush_drain, stream_open, stream_write, CodecFault, GzipStream,
};
use crate::error::CodecError;
use vstd::prelude::*;

verus! {

/// The level used when a call names none.
pub const DEFAULT_COMPRESSION_LEVEL: u32 = 6;

/// The highest compression level the codec takes.
pub const MAX_COMPRESSION_LEVEL: u32 = 10;

/// The largest output the allocating calls grow towards when no output
/// length is given.
pub const MAX_OUTPUT_LEN: usize = usize::MAX / 2;

/// The smallest first guess of the growing loop.
pub const MIN_OUTPUT_GUESS: usize = 16;

/// Which way a call runs the codec.
#[derive(Clone, Copy, Debug, PartialEq, Eq)]
pub enum Direction {
    Compress { level: u32 },
    Decompress,
}

/// The level a call runs at.
pub open spec fn level_or_default(level: Option<u32>) -> u32 {
    match level {
        Some(l) => l,
        None => DEFAULT_COMPRESSION_LEVEL,
    }
}

/// The room an allocating call gives its output: the length it was handed,
/// or the growth limit.
pub open spec fn output_bound(output_len: Option<usize>) -> int {
    match output_len {
        Some(n) => n as int,
        None => MAX_OUTPUT_LEN as int,
    }
}

/// The codec can be run this way: a compression level is in range.
pub open spec fn direction_ok(dir: Direction) -> bool {
    match dir {
        Direction::Compress { level } => level <= MAX_COMPRESSION_LEVEL,
        Direction::Decompress => true,
    }
}

/// What the codec makes of `data`, or `None` where it rejects it.
pub open spec fn codec_output(dir: Direction, data: Seq<u8>) -> Option<Seq<u8>> {
    match dir {
        Direction::Compress { level } => Some(gzip_of(data, level)),
        Direction::Decompress => gzip_decoded(data),
    }
}

/// `out` where it holds at most `room` bytes.
pub open spec fn within(out: Option<Seq<u8>>, room: int) -> Option<Seq<u8>> {
    match out {
        Some(s) => if s.len() <= room {
            Some(s)
        } else {
            None
        },
        None => None,
    }
}

/// The bytes that `compress` returns, or `None` where it fails.
pub open spec fn compress_result(data: Seq<u8>, level: Option<u32>, output_len: Option<usize>) -> Option<Seq<u8>> {
    if level_or_default(level) <= MAX_COMPRESSION_LEVEL {
        within(Some(gzip_of(data, level_or_default(level))), output_bound(output_len))
    } else {
        None
    }
}

/// The bytes that `decompress` returns, or `None` where it fails.
pub open spec fn decompress_result(data: Seq<u8>, output_len: Option<usize>) -> Option<Seq<u8>> {
    within(gzip_decoded(data), output_bound(output_len))
}

/// The bytes that `compress_into` leaves at the front of an output of
/// `capacity` bytes, or `None` where it fails.
pub open spec fn compress_into_result(data: Seq<u8>, level: Option<u32>, capacity: int) -> Option<Seq<u8>> {
    if level_or_default(level) <= MAX_COMPRESSION_LEVEL {
        within(Some(gzip_of(data, level_or_default(level))), capacity)
    } else {
        None
    }
}

/// The bytes that `decompress_into` leaves at the front of an output of
/// `capacity` bytes, or `None` where it fails.
pub open spec fn decompress_into_result(data: Seq<u8>, capacity: int) -> Option<Seq<u8>> {
    within(gzip_decoded(data), capacity)
}

/// `c` is what `compress` returned for `data`: the expected member, which
/// decodes back to `data`.
pub open spec fn compressed_form(data: Seq<u8>, level: Option<u32>, output_len: Option<usize>, c: Seq<u8>) -> bool {
    &&& compress_result(data, level, output_len) == Some(c)
    &&& gzip_decoded(c) == Some(data)
}

/// The level a call runs at.
fn resolve_level(level: Option<u32>) -> (l: u32)
    ensures
        l == level_or_default(level),
{
    match level {
        Some(l) => l,
        None => DEFAULT_COMPRESSION_LEVEL,
    }
}

/// Runs the codec into `out`, which it never grows.
fn run_into(dir: Direction, data: &[u8], out: &mut [u8]) -> (r: Result<usize, CodecFault>)
    requires
        direction_ok(dir),
    ensures
        final(out)@.len() == old(out)@.len(),
        r is Ok <==> within(codec_output(dir, data@), old(out)@.len() as int) is Some,
        r matches Ok(n) ==> n <= old(out)@.len() && within(codec_output(dir, data@), old(out)@.len() as int)
            == Some(final(out)@.subrange(0, n as int)),
        r matches Ok(n) ==> (dir is Compress ==> gzip_decoded(final(out)@.subrange(0, n as int))
            == Some(data@)),
        r matches Err(f) ==> (codec_output(dir, data@) is Some ==> f is OutputFull),
        r matches Ok(n) ==> (dir is Compress ==> n >= 18),
{
    match dir {
        Direction::Compress { level } => gzip_compress_slice(data, out, level),
        Direction::Decompress => gzip_decompress_slice(data, out),
    }
}

/// The first output size the growing loop tries.
fn initial_guess(dir: Direction, input_len: usize) -> (n: usize)
    ensures
        0 < n <= MAX_OUTPUT_LEN,
{
    let n: usize = match dir {
        Direction::Compress { .. } => input_len / 2,
        Direction::Decompress => if input_len > MAX_OUTPUT_LEN / 4 {
            MAX_OUTPUT_LEN
        } else {
            input_len * 4
        },
    };
    if n < MIN_OUTPUT_GUESS {
        MIN_OUTPUT_GUESS
    } else {
        n
    }
}

/// The cause given for a compression level above `MAX_COMPRESSION_LEVEL`.
fn level_message() -> (r: String)
    ensures
        r@ == "compression level must be at most 10"@,
{
    "compression level must be at most 10".to_owned()
}

/// The message carried for a fault of the codec.
fn fault_message(f: CodecFault) -> (r: String)
    ensures
        f is OutputFull ==> r@ == "output does not fit in the buffer"@,
{
    match f {
        CodecFault::OutputFull => "output does not fit in the buffer".to_owned(),
        CodecFault::Failed(e) => e.to_string(),
    }
}

/// Runs the codec into a new buffer: of exactly `output_len` bytes where it
/// is given, else of a growing size, doubled each time the output does not
/// fit, up to `MAX_OUTPUT_LEN`. Each try starts the codec afresh.
fn run_alloc(dir: Direction, data: &[u8], output_len: Option<usize>) -> (r: Result<Vec<u8>, CodecFault>)
    requires
        direction_ok(dir),
    ensures
        r is Ok <==> within(codec_output(dir, data@), output_bound(output_len)) is Some,
        r matches Ok(v) ==> within(codec_output(dir, data@), output_bound(output_len)) == Some(v@),
        r matches Ok(v) ==> (dir is Compress ==> gzip_decoded(v@) == Some(data@) && v@.len() >= 18),
{
    match output_len {
        Some(n) => {
            let mut out: Vec<u8> = vec![0u8; n];
            match run_into(dir, data, out.as_mut_slice()) {
                Ok(k) => {
                    out.truncate(k);
                    Ok(out)
                },
                Err(f) => Err(f),
            }
        },
        None => {
            let mut cap: usize = initial_guess(dir, data.len());
            loop
                invariant
                    0 < cap <= MAX_OUTPUT_LEN,
                    output_len is None,
                    direction_ok(dir),
                decreases MAX_OUTPUT_LEN - cap,
            {
                let mut out: Vec<u8> = vec![0u8; cap];
                match run_into(dir, data, out.as_mut_slice()) {
                    Ok(k) => {
                        out.truncate(k);
                        return Ok(out);
                    },
                    Err(CodecFault::OutputFull) => {
                        if cap == MAX_OUTPUT_LEN {
                            return Err(CodecFault::OutputFull);
                        }
                        cap = if cap > MAX_OUTPUT_LEN / 2 {
                            MAX_OUTPUT_LEN
                        } else {
                            cap * 2
                        };
                    },
                    Err(f) => {
                        return Err(f);
                    },
                }
            }
        },
    }
}

/// gzip decompression into a new buffer. With `output_len` the buffer has
/// exactly that room and the call fails where the data does not fit;
/// without it the buffer grows until the data fits.
pub fn decompress<S: ByteSource + ?Sized>(data: &S, output_len: Option<usize>) -> (r: Result<
    RustyBuffer,
    CodecError,
>)
    ensures
        r is Ok <==> decompress_result(data.source_bytes(), output_len) is Some,
        r matches Ok(b) ==> decompress_result(data.source_bytes(), output_len) == Some(b@),
        r matches Err(e) ==> e is DecompressionError,
{
    match run_alloc(Direction::Decompress, data.as_bytes(), output_len) {
        Ok(v) => Ok(RustyBuffer::from_vec(v)),
        Err(f) => Err(CodecError::DecompressionError(fault_message(f))),
    }
}

/// gzip compression into a new buffer, at `level` (by default
/// `DEFAULT_COMPRESSION_LEVEL`). With `output_len` the buffer has exactly
/// that room and the call fails where the member does not fit; without it
/// the buffer grows until the member fits.
pub fn compress<S: ByteSource + ?Sized>(data: &S, level: Option<u32>, output_len: Option<usize>) -> (r: Result<
    RustyBuffer,
    CodecError,
>)
    ensures
        r is Ok <==> compress_result(data.source_bytes(), level, output_len) is Some,
        r matches Ok(b) ==> compressed_form(data.source_bytes(), level, output_len, b@),
        r matches Ok(b) ==> b@.len() >= 18,
        r matches Err(e) ==> e is CompressionError,
{
    let lvl = resolve_level(level);
    if lvl > MAX_COMPRESSION_LEVEL {
        return Err(CodecError::CompressionError(level_message()));
    }
    match run_alloc(Direction::Compress { level: lvl }, data.as_bytes(), output_len) {
        Ok(v) => Ok(RustyBuffer::from_vec(v)),
        Err(f) => Err(CodecError::CompressionError(fault_message(f))),
    }
}

/// Compresses `input` into the front of `output` and returns the number of
/// bytes written; fails, without growing anything, where they do not fit.
pub fn compress_into<S: ByteSource + ?Sized, K: ByteSink + ?Sized>(
    input: &S,
    output: &mut K,
    level: Option<u32>,
) -> (r: Result<usize, CodecError>)
    ensures
        final(output).sink_bytes().len() == old(output).sink_bytes().len(),
        r is Ok <==> compress_into_result(input.source_bytes(), level, old(output).sink_bytes().len() as int) is Some,
        r matches Ok(n) ==> n <= old(output).sink_bytes().len() && compress_into_result(
            input.source_bytes(),
            level,
            old(output).sink_bytes().len() as int,
        ) == Some(final(output).sink_bytes().subrange(0, n as int)),
        old(output).sink_bytes().len() < 18 ==> r is Err,
        r matches Err(e) ==> e is CompressionError,
{
    let lvl = resolve_level(level);
    if lvl > MAX_COMPRESSION_LEVEL {
        return Err(CodecError::CompressionError(level_message()));
    }
    match run_into(Direction::Compress { level: lvl }, input.as_bytes(), output.as_bytes_mut()) {
        Ok(n) => Ok(n),
        Err(f) => Err(CodecError::CompressionError(fault_message(f))),
    }
}

/// Decompresses `input` into the front of `output` and returns the number
/// of bytes written; fails, without growing anything, where they do not fit
/// or the input does not decode.
pub fn decompress_into<S: ByteSource + ?Sized, K: ByteSink + ?Sized>(input: &S, output: &mut K) -> (r: Result<
    usize,
    CodecError,
>)
    ensures
        final(output).sink_bytes().len() == old(output).sink_bytes().len(),
        r is Ok <==> decompress_into_result(input.source_bytes(), old(output).sink_bytes().len() as int) is Some,
        r matches Ok(n) ==> n <= old(output).sink_bytes().len() && decompress_into_result(
            input.source_bytes(),
            old(output).sink_bytes().len() as int,
        ) == Some(final(output).sink_bytes().subrange(0, n as int)),
        r matches Err(e) ==> e is DecompressionError,
{
    match run_into(Direction::Decompress, input.as_bytes(), output.as_bytes_mut()) {
        Ok(n) => Ok(n),
        Err(f) => Err(CodecError::DecompressionError(fault_message(f))),
    }
}

/// The finished stream: `out`, all a compressor handed back, decodes to
/// `fed`, all it was given.
pub open spec fn stream_yields(fed: Seq<u8>, out: Seq<u8>) -> bool {
    gzip_decoded(out) == Some(fed)
}

/// A streaming gzip compressor. While ready it owns one encoder; once
/// finished it owns none, and every further call fails.
pub struct Compressor {
    inner: Option<GzipStream>,
}

impl Compressor {
    /// Whether the compressor still accepts data.
    pub closed spec fn is_ready(&self) -> bool {
        self.inner is Some
    }

    /// All bytes accepted since the compressor was opened.
    pub closed spec fn fed(&self) -> Seq<u8> {
        stream_fed(self.inner->0)
    }

    /// All compressed bytes handed back by `flush` so far.
    pub closed spec fn drained(&self) -> Seq<u8> {
        stream_drained(self.inner->0)
    }

    /// The compression level of the stream.
    pub closed spec fn level(&self) -> u32 {
        stream_level(self.inner->0)
    }

    /// A ready compressor at `level` (by default `DEFAULT_COMPRESSION_LEVEL`);
    /// fails where the level is above `MAX_COMPRESSION_LEVEL`.
    pub fn new(level: Option<u32>) -> (r: Result<Compressor, CodecError>)
        ensures
            r is Ok <==> level_or_default(level) <= MAX_COMPRESSION_LEVEL,
            r matches Ok(c) ==> c.is_ready() && c.level() == level_or_default(level) && c.fed()
                == Seq::<u8>::empty() && c.drained() == Seq::<u8>::empty(),
            r matches Err(e) ==> e is CompressionError,
    {
        let lvl = resolve_level(level);
        if lvl > MAX_COMPRESSION_LEVEL {
            return Err(CodecError::CompressionError(level_message()));
        }
        Ok(Compressor { inner: Some(stream_open(lvl)) })
    }

    /// Feeds `input` into the stream and returns how many bytes were taken.
    pub fn compress<S: ByteSource + ?Sized>(&mut self, input: &S) -> (r: Result<usize, CodecError>)
        ensures
            !old(self).is_ready() ==> r is Err && *final(self) == *old(self),
            old(self).is_ready() ==> r is Ok,
            final(self).is_ready() == old(self).is_ready(),
            final(self).drained() == old(self).drained(),
            final(self).level() == old(self).level(),
            r matches Ok(n) ==> n == input.source_bytes().len() && final(self).fed() == old(self).fed()
                + input.source_bytes(),
            r matches Err(e) ==> e is CompressionError,
    {
        match &mut self.inner {
            Some(e) => {
                let bytes = input.as_bytes();
                match stream_write(e, bytes) {
                    Ok(()) => Ok(bytes.len()),
                    Err(err) => Err(CodecError::CompressionError(err.to_string())),
                }
            },
            None => Err(CodecError::CompressionError(finished_message())),
        }
    }

    /// Makes the encoder emit what it holds back and hands back all it has
    /// produced since the last flush, without ending the stream.
    pub fn flush(&mut self) -> (r: Result<RustyBuffer, CodecError>)
        ensures
            !old(self).is_ready() ==> r is Err && *final(self) == *old(self),
            old(self).is_ready() ==> r is Ok,
            final(self).is_ready() == old(self).is_ready(),
            final(self).fed() == old(self).fed(),
            final(self).level() == old(self).level(),
            r matches Ok(b) ==> final(self).drained() == old(self).drained() + b@,
            r matches Err(e) ==> e is CompressionError,
    {
        match &mut self.inner {
            Some(e) => match stream_flush_drain(e) {
                Ok(v) => Ok(RustyBuffer::from_vec(v)),
                Err(err) => Err(CodecError::CompressionError(err.to_string())),
            },
            None => Err(CodecError::CompressionError(finished_message())),
        }
    }

    /// Ends the stream and hands back the rest of it. The compressor is
    /// finished afterwards, whether or not this succeeded.
    pub fn finish(&mut self) -> (r: Result<RustyBuffer, CodecError>)
        ensures
            !final(self).is_ready(),
            !old(self).is_ready() ==> r is Err,
            old(self).is_ready() ==> r is Ok,
            r matches Ok(b) ==> stream_yields(old(self).fed(), old(self).drained() + b@),
            r matches Ok(b) ==> b@.len() >= 8 && (old(self).drained() + b@).len() >= 18,
            r matches Err(e) ==> e is CompressionError,
    {
        match self.inner.take() {
            Some(e) => match stream_finish(e) {
                Ok(v) => Ok(RustyBuffer::from_vec(v)),
                Err(err) => Err(CodecError::CompressionError(err.to_string())),
            },
            None => Err(CodecError::CompressionError(finished_message())),
        }
    }
}

/// The cause given for a call on a finished compressor or decompressor.
fn finished_message() -> (r: String)
    ensures
        r@ == "Appears `finish()` was called on this instance"@,
{
    "Appears `finish()` was called on this instance".to_owned()
}

/// A streaming gzip decompressor: each call decodes whole gzip data and
/// keeps the result until `flush` or `finish` hands it back. While ready it
/// owns its buffer; once finished it owns none, and every further call
/// fails.
pub struct Decompressor {
    inner: Option<Vec<u8>>,
}

impl Decompressor {
    /// Whether the decompressor still accepts data.
    pub closed spec fn is_ready(&self) -> bool {
        self.inner is Some
    }

    /// The decoded bytes not yet handed back.
    pub closed spec fn pending(&self) -> Seq<u8> {
        self.inner->0@
    }

    /// A ready decompressor with nothing pending.
    pub fn new() -> (d: Decompressor)
        ensures
            d.is_ready(),
            d.pending() == Seq::<u8>::empty(),
    {
        Decompressor { inner: Some(Vec::new()) }
    }

    /// Decodes `input` and keeps the result after what is pending; returns
    /// the number of bytes decoded.
    pub fn decompress<S: ByteSource + ?Sized>(&mut self, input: &S) -> (r: Result<usize, CodecError>)
        ensures
            final(self).is_ready() == old(self).is_ready(),
            !old(self).is_ready() ==> r is Err && *final(self) == *old(self),
            old(self).is_ready() ==> (r is Ok <==> decompress_result(input.source_bytes(), None) is Some),
            r matches Ok(n) ==> decompress_result(input.source_bytes(), None) matches Some(d) && n == d.len()
                && final(self).pending() == old(self).pending() + d,
            r is Err ==> final(self).pending() == old(self).pending(),
            r matches Err(e) ==> e is DecompressionError,
    {
        match &mut self.inner {
            Some(buf) => match run_alloc(Direction::Decompress, input.as_bytes(), None) {
                Ok(mut v) => {
                    let n = v.len();
                    buf.append(&mut v);
                    Ok(n)
                },
                Err(f) => Err(CodecError::DecompressionError(fault_message(f))),
            },
            None => Err(CodecError::DecompressionError(finished_message())),
        }
    }

    /// Hands back what is pending and keeps the decompressor ready.
    pub fn flush(&mut self) -> (r: Result<RustyBuffer, CodecError>)
        ensures
            final(self).is_ready() == old(self).is_ready(),
            !old(self).is_ready() ==> r is Err && *final(self) == *old(self),
            old(self).is_ready() ==> (r matches Ok(b) && b@ == old(self).pending() && final(self).pending()
                == Seq::<u8>::empty()),
            r matches Err(e) ==> e is DecompressionError,
    {
        match &mut self.inner {
            Some(buf) => {
                let mut out: Vec<u8> = Vec::new();
                out.append(buf);
                Ok(RustyBuffer::from_vec(out))
            },
            None => Err(CodecError::DecompressionError(finished_message())),
        }
    }

    /// Hands back what is pending and finishes the decompressor.
    pub fn finish(&mut self) -> (r: Result<RustyBuffer, CodecError>)
        ensures
            !final(self).is_ready(),
            !old(self).is_ready() ==> r is Err,
            old(self).is_ready() ==> (r matches Ok(b) && b@ == old(self).pending()),
            r matches Err(e) ==> e is DecompressionError,
    {
        match self.inner.take() {
            Some(v) => Ok(RustyBuffer::from_vec(v)),
            None => Err(CodecError::DecompressionError(finished_message())),
        }
    }
}

} // verus!

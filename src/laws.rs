//! What holds across the calls of [`crate::gzip`], proved from their
//! contracts.
use crate::codec::{gzip_decoded, gzip_of};
use crate::gzip::{
    compress_into_result, compress_result, compressed_form, decompress_into_result,
    decompress_result, level_or_default, stream_yields, MAX_COMPRESSION_LEVEL, MAX_OUTPUT_LEN,
};
use vstd::prelude::*;

verus! {

/// Decompressing what `compress` returned gives back the original data,
/// whether the output grows or is given room for the data, and also into a
/// caller's buffer with that room.
pub proof fn lemma_round_trip(data: Seq<u8>, level: Option<u32>, output_len: Option<usize>, c: Seq<u8>)
    requires
        compressed_form(data, level, output_len, c),
    ensures
        data.len() <= MAX_OUTPUT_LEN ==> decompress_result(c, None) == Some(data),
        forall|n: usize| data.len() <= n ==> #[trigger] decompress_result(c, Some(n)) == Some(data),
        forall|cap: int| data.len() <= cap ==> #[trigger] decompress_into_result(c, cap) == Some(data),
{
}

/// Compressing into a caller's buffer with room for what `compress`
/// returned writes exactly those bytes.
pub proof fn lemma_into_matches_alloc(
    data: Seq<u8>,
    level: Option<u32>,
    output_len: Option<usize>,
    c: Seq<u8>,
    capacity: int,
)
    requires
        compressed_form(data, level, output_len, c),
        c.len() <= capacity,
    ensures
        compress_into_result(data, level, capacity) == Some(c),
{
}

/// However the data was cut into chunks, what a compressor handed back
/// decompresses to the chunks joined in order.
pub proof fn lemma_stream_round_trip(chunks: Seq<Seq<u8>>, out: Seq<u8>)
    requires
        stream_yields(chunks.flatten(), out),
    ensures
        chunks.flatten().len() <= MAX_OUTPUT_LEN ==> decompress_result(out, None) == Some(
            chunks.flatten(),
        ),
        forall|n: usize| chunks.flatten().len() <= n ==> #[trigger] decompress_result(out, Some(n)) == Some(
            chunks.flatten(),
        ),
{
}

/// With an output length, the allocating calls succeed exactly when the
/// result fits in it, return at most that many bytes, and return what the
/// growing form would.
pub proof fn lemma_output_len_honored(data: Seq<u8>, level: Option<u32>, n: usize)
    ensures
        compress_result(data, level, Some(n)) is Some <==> (level_or_default(level) <= MAX_COMPRESSION_LEVEL
            && gzip_of(data, level_or_default(level)).len() <= n),
        compress_result(data, level, Some(n)) matches Some(c) ==> c.len() <= n && (n <= MAX_OUTPUT_LEN
            ==> compress_result(data, level, None) == Some(c)),
        decompress_result(data, Some(n)) is Some <==> (gzip_decoded(data) is Some && gzip_decoded(data)->0.len() <= n),
        decompress_result(data, Some(n)) matches Some(d) ==> d.len() <= n && (n <= MAX_OUTPUT_LEN
            ==> decompress_result(data, None) == Some(d)),
{
}

/// A caller's buffer too small for the result makes the into-buffer calls
/// fail rather than return part of it.
pub proof fn lemma_too_small_fails(data: Seq<u8>, level: Option<u32>, capacity: int)
    ensures
        capacity < gzip_of(data, level_or_default(level)).len() ==> compress_into_result(data, level, capacity) is None,
        (gzip_decoded(data) matches Some(d) && capacity < d.len()) ==> decompress_into_result(data, capacity) is None,
{
}

} // verus!

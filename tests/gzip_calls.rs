use cramjam_gzip::buffer::RustyBuffer;
use cramjam_gzip::error::CodecError;
use cramjam_gzip::gzip::{compress, compress_into, decompress, decompress_into, Compressor, Decompressor};

fn sample(len: usize) -> Vec<u8> {
    (0..len).map(|i| ((i * 7 + i / 13) % 251) as u8).collect()
}

#[test]
fn ten_bytes_round_trip_through_growth() {
    let data = b"aaaaaaaaaa".to_vec();
    let c = compress(&data, None, None).unwrap();
    assert!(c.len() > data.len());
    let d = decompress(c.as_slice(), None).unwrap();
    assert_eq!(d.into_vec(), data);
}

#[test]
fn compressed_output_is_a_gzip_member() {
    let c = compress(b"hello hello hello", None, None).unwrap();
    let bytes = c.into_vec();
    assert_eq!(&bytes[0..3], &[0x1f, 0x8b, 0x08]);
    assert_ne!(bytes, b"hello hello hello".to_vec());
}

#[test]
fn round_trip_at_every_level() {
    let data = sample(5000);
    for level in 0..=9u32 {
        let c = compress(&data, Some(level), None).unwrap();
        let d = decompress(c.as_slice(), None).unwrap();
        assert_eq!(d.as_slice(), &data[..]);
    }
}

#[test]
fn round_trip_of_empty_input() {
    let empty: Vec<u8> = Vec::new();
    let c = compress(&empty, None, None).unwrap();
    assert!(!c.is_empty());
    let d = decompress(c.as_slice(), None).unwrap();
    assert!(d.is_empty());
}

#[test]
fn round_trip_of_large_input_grows_output() {
    let data = sample(300_000);
    let c = compress(&data, Some(1), None).unwrap();
    let d = decompress(c.as_slice(), None).unwrap();
    assert_eq!(d.len(), data.len());
    assert_eq!(d.into_vec(), data);
}

#[test]
fn default_level_is_six() {
    let data = sample(4000);
    let a = compress(&data, None, None).unwrap();
    let b = compress(&data, Some(6), None).unwrap();
    assert_eq!(a.into_vec(), b.into_vec());
}

#[test]
fn compress_into_matches_compress() {
    let data = sample(2000);
    let c = compress(&data, Some(4), None).unwrap().into_vec();
    let mut out = vec![0u8; c.len() + 100];
    let n = compress_into(&data, &mut out, Some(4)).unwrap();
    assert_eq!(n, c.len());
    assert_eq!(&out[..n], &c[..]);
}

#[test]
fn compress_into_exact_room_succeeds() {
    let data = b"aaaaaaaaaa".to_vec();
    let c = compress(&data, None, None).unwrap().into_vec();
    let mut out = vec![0u8; c.len()];
    let n = compress_into(&data, &mut out, None).unwrap();
    assert_eq!(out[..n].to_vec(), c);
}

#[test]
fn compress_into_too_small_fails() {
    let data = sample(1000);
    let c = compress(&data, None, None).unwrap();
    let mut out = vec![0u8; c.len() - 1];
    let r = compress_into(&data, &mut out, None);
    assert!(matches!(r, Err(CodecError::CompressionError(_))));
    assert_eq!(out.len(), c.len() - 1);
}

#[test]
fn decompress_into_writes_the_data() {
    let data = sample(1234);
    let c = compress(&data, None, None).unwrap();
    let mut out = vec![0u8; 2000];
    let n = decompress_into(c.as_slice(), &mut out).unwrap();
    assert_eq!(n, 1234);
    assert_eq!(&out[..n], &data[..]);
}

#[test]
fn decompress_into_too_small_fails() {
    let data = sample(1234);
    let c = compress(&data, None, None).unwrap();
    let mut out = vec![0u8; 1233];
    let r = decompress_into(c.as_slice(), &mut out);
    assert!(matches!(r, Err(CodecError::DecompressionError(_))));
}

#[test]
fn decompress_of_garbage_fails() {
    let r = decompress(b"this is not gzip data at all", None);
    match r {
        Err(e) => {
            assert!(!e.is_compression());
            assert!(!e.message().is_empty());
        }
        Ok(_) => panic!("garbage decoded"),
    }
}

#[test]
fn decompress_of_truncated_member_fails() {
    let c = compress(&sample(500), None, None).unwrap().into_vec();
    let r = decompress(&c[..c.len() - 3], None);
    assert!(matches!(r, Err(CodecError::DecompressionError(_))));
}

#[test]
fn decompress_joins_concatenated_members() {
    let mut both = compress(b"foo", None, None).unwrap().into_vec();
    both.extend_from_slice(&compress(b"bar", None, None).unwrap().into_vec());
    let d = decompress(&both, None).unwrap();
    assert_eq!(d.into_vec(), b"foobar".to_vec());
}

#[test]
fn compress_with_exact_output_len() {
    let data = sample(3000);
    let c = compress(&data, None, None).unwrap().into_vec();
    let again = compress(&data, None, Some(c.len())).unwrap();
    assert_eq!(again.into_vec(), c);
    let roomy = compress(&data, None, Some(c.len() + 500)).unwrap();
    assert_eq!(roomy.len(), c.len());
}

#[test]
fn compress_with_short_output_len_fails() {
    let data = sample(3000);
    let c = compress(&data, None, None).unwrap();
    let r = compress(&data, None, Some(c.len() - 1));
    assert!(matches!(r, Err(CodecError::CompressionError(_))));
}

#[test]
fn decompress_with_output_len() {
    let data = sample(3000);
    let c = compress(&data, None, None).unwrap();
    let d = decompress(c.as_slice(), Some(3000)).unwrap();
    assert_eq!(d.into_vec(), data);
    let d = decompress(c.as_slice(), Some(5000)).unwrap();
    assert_eq!(d.len(), 3000);
    let r = decompress(c.as_slice(), Some(2999));
    assert!(matches!(r, Err(CodecError::DecompressionError(_))));
}

#[test]
fn stream_round_trip_over_chunks() {
    let data = sample(20_000);
    for cut in [1usize, 7, 1000, 20_000] {
        let mut s = Compressor::new(None).unwrap();
        let mut out = Vec::new();
        for chunk in data.chunks(cut) {
            assert_eq!(s.compress(chunk).unwrap(), chunk.len());
        }
        out.extend_from_slice(s.finish().unwrap().as_slice());
        let d = decompress(&out, None).unwrap();
        assert_eq!(d.into_vec(), data);
    }
}

#[test]
fn stream_flush_output_decodes_with_rest() {
    let mut s = Compressor::new(Some(9)).unwrap();
    s.compress(b"first part, ").unwrap();
    let head = s.flush().unwrap();
    assert!(!head.is_empty());
    s.compress(b"second part").unwrap();
    let mut out = head.into_vec();
    out.extend_from_slice(s.flush().unwrap().as_slice());
    out.extend_from_slice(s.finish().unwrap().as_slice());
    let d = decompress(&out, None).unwrap();
    assert_eq!(d.into_vec(), b"first part, second part".to_vec());
}

#[test]
fn stream_of_nothing_is_an_empty_member() {
    let mut s = Compressor::new(None).unwrap();
    let out = s.finish().unwrap();
    assert!(out.len() >= 18);
    let d = decompress(out.as_slice(), None).unwrap();
    assert!(d.is_empty());
}

#[test]
fn finished_stream_refuses_everything() {
    let mut s = Compressor::new(None).unwrap();
    s.compress(b"abc").unwrap();
    s.finish().unwrap();
    assert!(matches!(s.compress(b"more"), Err(CodecError::CompressionError(_))));
    assert!(matches!(s.flush(), Err(CodecError::CompressionError(_))));
    assert!(matches!(s.finish(), Err(CodecError::CompressionError(_))));
}

#[test]
fn result_buffer_operations() {
    let mut b = RustyBuffer::new(None);
    assert!(b.is_empty());
    b.append(b"hello");
    b.append(b" world");
    assert_eq!(b.len(), 11);
    b.truncate(5);
    assert_eq!(b.as_slice(), b"hello");
    let v = b.into_vec();
    assert_eq!(v, b"hello".to_vec());
    let c = RustyBuffer::from_vec(vec![1, 2, 3]);
    assert_eq!(c.len(), 3);
    let d = RustyBuffer::new(Some(1000));
    assert_eq!(d.len(), 0);
}

#[test]
fn error_carries_its_message() {
    let e = CodecError::CompressionError("boom".to_string());
    assert!(e.is_compression());
    assert_eq!(e.message(), "boom");
    let e = CodecError::DecompressionError("bad".to_string());
    assert!(!e.is_compression());
    assert_eq!(e.message(), "bad");
}

#[test]
fn buffers_of_each_kind_are_accepted() {
    let data = sample(700);
    let as_array: [u8; 4] = [1, 2, 3, 4];
    let from_vec = compress(&data, None, None).unwrap();
    let from_slice = compress(&data[..], None, None).unwrap();
    assert_eq!(from_vec.as_slice(), from_slice.as_slice());
    let back = decompress(&from_vec, None).unwrap();
    assert_eq!(back.as_slice(), &data[..]);
    let small = compress(&as_array, None, None).unwrap();
    assert_eq!(decompress(&small, None).unwrap().into_vec(), vec![1, 2, 3, 4]);

    let mut sink = RustyBuffer::from_vec(vec![0u8; 2000]);
    let n = compress_into(&data, &mut sink, None).unwrap();
    assert_eq!(&sink.as_slice()[..n], from_vec.as_slice());
    let mut plain = vec![0u8; 700];
    let m = decompress_into(&sink.as_slice()[..n], &mut plain[..]).unwrap();
    assert_eq!(m, 700);
    assert_eq!(plain, data);
}

#[test]
fn decompressor_collects_each_input() {
    let a = compress(b"foo", None, None).unwrap();
    let b = compress(b"barbaz", None, None).unwrap();
    let mut d = Decompressor::new();
    assert_eq!(d.decompress(&a).unwrap(), 3);
    assert_eq!(d.decompress(&b).unwrap(), 6);
    assert_eq!(d.flush().unwrap().into_vec(), b"foobarbaz".to_vec());
    assert!(d.flush().unwrap().is_empty());
    assert_eq!(d.decompress(&a).unwrap(), 3);
    assert_eq!(d.finish().unwrap().into_vec(), b"foo".to_vec());
}

#[test]
fn decompressor_rejects_garbage_and_keeps_pending() {
    let a = compress(b"keep", None, None).unwrap();
    let mut d = Decompressor::new();
    d.decompress(&a).unwrap();
    assert!(matches!(d.decompress(b"not gzip"), Err(CodecError::DecompressionError(_))));
    assert_eq!(d.finish().unwrap().into_vec(), b"keep".to_vec());
}

#[test]
fn finished_decompressor_refuses_everything() {
    let mut d = Decompressor::new();
    d.finish().unwrap();
    let a = compress(b"x", None, None).unwrap();
    assert!(matches!(d.decompress(&a), Err(CodecError::DecompressionError(_))));
    assert!(matches!(d.flush(), Err(CodecError::DecompressionError(_))));
    assert!(matches!(d.finish(), Err(CodecError::DecompressionError(_))));
}

#[test]
fn level_above_ten_is_refused() {
    let data = sample(100);
    assert!(matches!(compress(&data, Some(11), None), Err(CodecError::CompressionError(_))));
    let mut out = vec![0u8; 1000];
    assert!(matches!(compress_into(&data, &mut out, Some(11)), Err(CodecError::CompressionError(_))));
    assert!(matches!(Compressor::new(Some(11)), Err(CodecError::CompressionError(_))));
    assert!(matches!(Compressor::new(Some(u32::MAX)), Err(CodecError::CompressionError(_))));
}

#[test]
fn level_ten_is_accepted() {
    let data = sample(3000);
    let c = compress(&data, Some(10), None).unwrap();
    assert_eq!(decompress(&c, None).unwrap().into_vec(), data);
    let mut s = Compressor::new(Some(10)).unwrap();
    s.compress(&data).unwrap();
    let out = s.finish().unwrap();
    assert_eq!(decompress(&out, None).unwrap().into_vec(), data);
}

#[test]
fn stream_default_level_is_six() {
    let data = sample(5000);
    let mut a = Compressor::new(None).unwrap();
    let mut b = Compressor::new(Some(6)).unwrap();
    a.compress(&data[..2000]).unwrap();
    a.compress(&data[2000..]).unwrap();
    b.compress(&data[..2000]).unwrap();
    b.compress(&data[2000..]).unwrap();
    assert_eq!(a.finish().unwrap().into_vec(), b.finish().unwrap().into_vec());
}

#[test]
fn ten_bytes_in_two_chunks() {
    let mut s = Compressor::new(None).unwrap();
    assert_eq!(s.compress(b"aaaaa").unwrap(), 5);
    assert_eq!(s.compress(b"aaaaa").unwrap(), 5);
    let out = s.finish().unwrap();
    assert_eq!(decompress(&out, None).unwrap().into_vec(), b"aaaaaaaaaa".to_vec());
}

#[test]
fn output_too_small_for_any_member_fails() {
    let mut out = vec![0u8; 17];
    let empty: Vec<u8> = Vec::new();
    assert!(matches!(compress_into(&empty, &mut out, None), Err(CodecError::CompressionError(_))));
}

//! Decompression of key payloads. ROOT multiplexes the algorithm into one
//! 32-bit compression descriptor: `algorithm = descriptor / 100`,
//! `level = descriptor % 100`. Codes `1`, `4` and `5` select deflate, LZ4 and
//! Zstandard; every other code (including the whole negative range) resolves
//! to the identity transform, which keeps the decoder forward-compatible.

use vstd::prelude::*;
use crate::error::RootError;

verus! {

/// The algorithm a ROOT compression descriptor selects.
#[derive(Clone, Copy, Debug, PartialEq, Eq, Structural)]
pub enum CompressionAlgorithm {
    Zlib,
    Lz4,
    Zstd,
    Identity,
}

/// The algorithm encoded in a compression descriptor: code `descriptor / 100`,
/// where `1` is deflate, `4` is LZ4, `5` is Zstandard, and everything else
/// (including negative descriptors) is the identity transform.
pub open spec fn spec_algorithm(level: int) -> CompressionAlgorithm {
    if 100 <= level < 200 {
        CompressionAlgorithm::Zlib
    } else if 400 <= level < 500 {
        CompressionAlgorithm::Lz4
    } else if 500 <= level < 600 {
        CompressionAlgorithm::Zstd
    } else {
        CompressionAlgorithm::Identity
    }
}

impl CompressionAlgorithm {
    pub fn from_compression_level(level: i32) -> (r: Self)
        ensures
            r == spec_algorithm(level as int),
    {
        if 100 <= level && level < 200 {
            CompressionAlgorithm::Zlib
        } else if 400 <= level && level < 500 {
            CompressionAlgorithm::Lz4
        } else if 500 <= level && level < 600 {
            CompressionAlgorithm::Zstd
        } else {
            CompressionAlgorithm::Identity
        }
    }
}

/// What inflating a zlib-wrapped deflate stream yields, when the stream is
/// well-formed; the result is a function of the input bytes alone.
pub uninterp spec fn zlib_inflate_of(bytes: Seq<u8>) -> Option<Seq<u8>>;

/// What decoding a size-prepended LZ4 block (4-byte little-endian
/// uncompressed size, then the LZ4 data) yields; a function of the input
/// bytes alone.
pub uninterp spec fn lz4_unframe_of(bytes: Seq<u8>) -> Option<Seq<u8>>;

/// What decoding a Zstandard frame yields; a function of the input bytes
/// alone.
pub uninterp spec fn zstd_decode_of(bytes: Seq<u8>) -> Option<Seq<u8>>;

/// Relies on `flate2::read::ZlibDecoder` and `Read::read_to_end`: inflating
/// a zlib stream is deterministic in the input bytes, and a stream that
/// does not inflate is reported as an error. The size hint only pre-sizes
/// the output buffer.
#[verifier::external_body]
fn zlib_inflate(data: &[u8], size_hint: usize) -> (r: Result<Vec<u8>, String>)
    ensures
        r is Ok <==> zlib_inflate_of(data@) is Some,
        r matches Ok(v) ==> zlib_inflate_of(data@) == Some(v@),
{
    let mut decoder = flate2::read::ZlibDecoder::new(data);
    let mut out: Vec<u8> = Vec::with_capacity(size_hint);
    match std::io::Read::read_to_end(&mut decoder, &mut out) {
        Ok(_) => Ok(out),
        Err(e) => Err(format!("{}", e)),
    }
}

/// Relies on `lz4_flex::decompress_size_prepended`: decoding a
/// size-prepended LZ4 block is deterministic in the input bytes, and a
/// block that does not decode is reported as an error. The decoder
/// allocates the size the prefix declares, so a corrupt prefix can demand
/// a large allocation before the error surfaces.
#[verifier::external_body]
fn lz4_unframe(data: &[u8]) -> (r: Result<Vec<u8>, String>)
    ensures
        r is Ok <==> lz4_unframe_of(data@) is Some,
        r matches Ok(v) ==> lz4_unframe_of(data@) == Some(v@),
{
    lz4_flex::decompress_size_prepended(data).map_err(|e| format!("{}", e))
}

/// Relies on `zstd::decode_all`: decoding a Zstandard frame is deterministic
/// in the input bytes, and failure is reported as an error.
#[verifier::external_body]
fn zstd_decode(data: &[u8]) -> (r: Result<Vec<u8>, String>)
    ensures
        r is Ok <==> zstd_decode_of(data@) is Some,
        r matches Ok(v) ==> zstd_decode_of(data@) == Some(v@),
{
    zstd::decode_all(data).map_err(|e| format!("{}", e))
}

/// What `decompress` returns for a block and a descriptor, over the named
/// results of the three decoders: identity copies the block verbatim;
/// deflate strips the 9-byte ROOT block header and inflates the rest; LZ4
/// and Zstandard decode the whole block. `None` stands for a
/// `CompressionError`.
pub open spec fn spec_decompress(bytes: Seq<u8>, level: int) -> Option<Seq<u8>> {
    match spec_algorithm(level) {
        CompressionAlgorithm::Identity => Some(bytes),
        CompressionAlgorithm::Zlib => if bytes.len() < 9 {
            None
        } else {
            zlib_inflate_of(bytes.skip(9))
        },
        CompressionAlgorithm::Lz4 => lz4_unframe_of(bytes),
        CompressionAlgorithm::Zstd => zstd_decode_of(bytes),
    }
}

/// Decompress a key payload block according to a ROOT compression
/// descriptor. Unrecognised algorithm codes take the identity branch and
/// return the input verbatim; decoder failures surface as
/// `CompressionError`.
pub fn decompress(data: &[u8], compression_level: i32) -> (r: Result<Vec<u8>, RootError>)
    ensures
        spec_decompress(data@, compression_level as int) matches Some(out) ==> (r matches Ok(v)
            && v@ == out),
        spec_decompress(data@, compression_level as int) is None ==> (r matches Err(e) && e
            is CompressionError),
{
    let algo = CompressionAlgorithm::from_compression_level(compression_level);
    match algo {
        CompressionAlgorithm::Zlib => {
            if data.len() < 9 {
                return Err(
                    RootError::CompressionError(
                        "deflate block shorter than its 9-byte header".to_owned(),
                    ),
                );
            }
            let uncompressed_size: u32 = (data[6] as u32) + (data[7] as u32) * 0x100 + (
            data[8] as u32) * 0x10000;
            let body = vstd::slice::slice_subrange(data, 9, data.len());
            match zlib_inflate(body, uncompressed_size as usize) {
                Ok(v) => Ok(v),
                Err(m) => Err(RootError::CompressionError(m)),
            }
        },
        CompressionAlgorithm::Lz4 => {
            match lz4_unframe(data) {
                Ok(v) => Ok(v),
                Err(m) => Err(RootError::CompressionError(m)),
            }
        },
        CompressionAlgorithm::Zstd => {
            match zstd_decode(data) {
                Ok(v) => Ok(v),
                Err(m) => Err(RootError::CompressionError(m)),
            }
        },
        CompressionAlgorithm::Identity => Ok(vstd::slice::slice_to_vec(data)),
    }
}

/// Compression dispatch: every descriptor whose algorithm code is not one
/// of deflate, LZ4 or Zstandard — the whole negative range included —
/// routes to the identity transform and returns the input verbatim.
pub proof fn lemma_unknown_codes_identity(bytes: Seq<u8>, level: int)
    requires
        !(100 <= level < 200 || 400 <= level < 500 || 500 <= level < 600),
    ensures
        spec_decompress(bytes, level) == Some(bytes),
{
}

/// A record that carries a compressed payload and can decompress it on
/// demand, caching the result.
pub trait HasCompressedData {
    /// The compressed payload bytes.
    spec fn spec_compressed(&self) -> Seq<u8>;

    /// The cached decompressed payload, if one has been stored.
    spec fn spec_decompressed(&self) -> Option<Seq<u8>>;

    fn get_compressed_data(&self) -> (r: &[u8])
        ensures
            r@ == self.spec_compressed(),
    ;

    fn get_compressed_len(&self) -> (r: usize)
        ensures
            r == self.spec_compressed().len(),
    ;

    /// The uncompressed object length the record's metadata declares.
    spec fn spec_uncompressed_len(&self) -> int;

    fn get_uncompressed_len(&self) -> (r: usize)
        ensures
            r as int == self.spec_uncompressed_len(),
    ;

    fn get_decompressed_data(&self) -> (r: Option<&Vec<u8>>)
        ensures
            r matches Some(v) ==> self.spec_decompressed() == Some(v@),
            r is None ==> self.spec_decompressed() is None,
    ;

    /// Decompress the payload without storing the result.
    fn decompress_into(&self, compression_level: i32) -> (r: Result<Vec<u8>, RootError>)
        ensures
            spec_decompress(self.spec_compressed(), compression_level as int) matches Some(out)
                ==> (r matches Ok(v) && v@ == out),
            spec_decompress(self.spec_compressed(), compression_level as int) is None ==> (
            r matches Err(e) && e is CompressionError),
    ;

    /// Decompress the payload, cache the result, and return a copy of it.
    fn decompress_and_store(&mut self, compression_level: i32) -> (r: Result<Vec<u8>, RootError>)
        ensures
            final(self).spec_compressed() == old(self).spec_compressed(),
            spec_decompress(old(self).spec_compressed(), compression_level as int) matches Some(
                out,
            ) ==> (r matches Ok(v) && v@ == out) && final(self).spec_decompressed() == Some(out),
            spec_decompress(old(self).spec_compressed(), compression_level as int) is None ==> (
            r matches Err(e) && e is CompressionError) && final(self).spec_decompressed() == old(
                self,
            ).spec_decompressed(),
    ;
}

} // verus!

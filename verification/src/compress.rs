//! The per-packet decompression layer. The two codecs are outside
//! libraries, consumed as black-box byte-stream transforms; what each call
//! returns is a function of the input bytes alone, so the results carry
//! names that the packet contracts are stated over.

use vstd::prelude::*;
use crate::decoder::Compression;

verus! {

/// What decoding one LZ4 frame yields for the given bytes, or nothing
/// where they are not a well-formed frame.
pub uninterp spec fn lz4_inflated(raw: Seq<u8>) -> Option<Seq<u8>>;

/// What decoding one Zstandard frame yields for the given bytes, or
/// nothing where they are not a well-formed frame.
pub uninterp spec fn zstd_inflated(raw: Seq<u8>) -> Option<Seq<u8>>;

/// Relies on lz4::Decoder::new and std's Read::read_to_end: decodes the
/// bytes as one LZ4 frame, fully; success and result depend on the input
/// bytes alone.
#[verifier::external_body]
pub(crate) fn lz4_decompress(raw: &Vec<u8>) -> (r: Result<Vec<u8>, String>)
    ensures
        r.is_ok() == lz4_inflated(raw@) is Some,
        r matches Ok(v) ==> lz4_inflated(raw@) == Option::Some(v@),
{
    let mut decoder = match lz4::Decoder::new(&raw[..]) {
        Ok(decoder) => decoder,
        Err(error) => return Err(format!("{}", error)),
    };
    let mut buffer = Vec::new();
    match std::io::Read::read_to_end(&mut decoder, &mut buffer) {
        Ok(_) => Ok(buffer),
        Err(error) => Err(format!("{}", error)),
    }
}

/// Relies on zstd::stream::Decoder::new and std's Read::read_to_end:
/// decodes the bytes as one Zstandard frame, fully; success and result
/// depend on the input bytes alone.
#[verifier::external_body]
pub(crate) fn zstd_decompress(raw: &Vec<u8>) -> (r: Result<Vec<u8>, String>)
    ensures
        r.is_ok() == zstd_inflated(raw@) is Some,
        r matches Ok(v) ==> zstd_inflated(raw@) == Option::Some(v@),
{
    let mut decoder = match zstd::stream::Decoder::new(&raw[..]) {
        Ok(decoder) => decoder,
        Err(error) => return Err(format!("{}", error)),
    };
    let mut buffer = Vec::new();
    match std::io::Read::read_to_end(&mut decoder, &mut buffer) {
        Ok(_) => Ok(buffer),
        Err(error) => Err(format!("{}", error)),
    }
}

/// What the decompression step yields for a packet's raw bytes under a
/// known compression mode: the bytes unchanged where compression is off —
/// both high-effort variants decode exactly as their plain counterpart.
pub open spec fn spec_decompressed(c: Compression, raw: Seq<u8>) -> Option<Seq<u8>> {
    match c {
        Compression::Uncompressed => Option::Some(raw),
        Compression::Lz4 | Compression::Lz4High => lz4_inflated(raw),
        Compression::Zstd | Compression::ZstdHigh => zstd_inflated(raw),
        Compression::Unrecognized(_) => Option::None,
    }
}

/// With compression off the decompression step is the identity: a
/// packet's raw bytes are its payload, unchanged, for every input.
pub proof fn lemma_uncompressed_is_identity(raw: Seq<u8>)
    ensures
        spec_decompressed(Compression::Uncompressed, raw) == Option::Some(raw),
{
}

} // verus!

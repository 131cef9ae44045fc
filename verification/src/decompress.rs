//! Decompression of the SWF payload: stored as is, zlib-compressed (`CWS`) or
//! LZMA-compressed (`ZWS`).
use vstd::prelude::*;
use vstd::slice::slice_subrange;
use vstd::slice::slice_to_vec;

verus! {

/// Output of zlib decompression (`inflate` crate) on the given bytes, `None` when the
/// bytes are not a valid zlib stream.
pub uninterp spec fn zlib_inflate(data: Seq<u8>) -> Option<Seq<u8>>;

/// Output of LZMA decompression (`lzma-rs` crate) on the given bytes: the input left
/// unread and the decompressed bytes, `None` when the bytes are not a valid LZMA stream.
pub uninterp spec fn lzma_decode(data: Seq<u8>) -> Option<(Seq<u8>, Seq<u8>)>;

#[verifier::external_type_specification]
#[verifier::external_body]
pub struct ExLzmaError(lzma_rs::error::Error);

/// Calls `inflate::inflate_bytes_zlib`. Its result is believed to be a function of the
/// input bytes alone, named `zlib_inflate`; what that function computes is not stated.
#[verifier::external_body]
fn inflate_zlib(data: &[u8]) -> (r: Option<Vec<u8>>)
    ensures
        zlib_inflate(data@) == match r {
            Some(out) => Some(out@),
            None => None,
        },
{
    match inflate::inflate_bytes_zlib(data) {
        Ok(out) => Some(out),
        Err(_) => None,
    }
}

/// Calls `lzma_rs::lzma_decompress` with the input slice as reader and a fresh vector
/// as writer. Its result (the unread input and the output) is believed to be a function
/// of the input bytes alone, named `lzma_decode`; what that function computes is not
/// stated.
#[verifier::external_body]
fn lzma_decompress_slice(data: &[u8]) -> (r: Result<(&[u8], Vec<u8>), lzma_rs::error::Error>)
    ensures
        match r {
            Ok((rest, out)) => lzma_decode(data@) == Some((rest@, out@)),
            Err(_) => lzma_decode(data@) is None,
        },
{
    let mut input: &[u8] = data;
    let mut out: Vec<u8> = Vec::new();
    match lzma_rs::lzma_decompress(&mut input, &mut out) {
        Ok(()) => Ok((input, out)),
        Err(e) => Err(e),
    }
}

/// Failure to decompress an SWF payload.
#[derive(Clone, Copy, Debug, PartialEq, Eq, Structural)]
pub enum DecompressError {
    /// The payload is not a valid zlib stream.
    InvalidZlib,
    /// The payload is not a valid LZMA stream.
    InvalidLzma,
}

/// An uncompressed payload: all the bytes, as they are.
pub fn decompress_none(bytes: &[u8]) -> (r: Result<(&[u8], Vec<u8>), DecompressError>)
    ensures
        r matches Ok((rest, out)) && rest@.len() == 0 && out@ == bytes@,
{
    let rest: &[u8] = slice_subrange(bytes, bytes.len(), bytes.len());
    Ok((rest, slice_to_vec(bytes)))
}

/// A zlib-compressed payload: all the bytes are read.
pub fn decompress_zlib(bytes: &[u8]) -> (r: Result<(&[u8], Vec<u8>), DecompressError>)
    ensures
        match r {
            Ok((rest, out)) => rest@.len() == 0 && zlib_inflate(bytes@) == Some(out@),
            Err(e) => e == DecompressError::InvalidZlib && zlib_inflate(bytes@) is None,
        },
{
    match inflate_zlib(bytes) {
        Some(out) => {
            let rest: &[u8] = slice_subrange(bytes, bytes.len(), bytes.len());
            Ok((rest, out))
        },
        None => Err(DecompressError::InvalidZlib),
    }
}

/// An LZMA-compressed payload: returns the bytes left unread and the output.
pub fn decompress_lzma(bytes: &[u8]) -> (r: Result<(&[u8], Vec<u8>), DecompressError>)
    ensures
        match r {
            Ok((rest, out)) => lzma_decode(bytes@) == Some((rest@, out@)),
            Err(e) => e == DecompressError::InvalidLzma && lzma_decode(bytes@) is None,
        },
{
    match lzma_decompress_slice(bytes) {
        Ok((rest, out)) => Ok((rest, out)),
        Err(_) => Err(DecompressError::InvalidLzma),
    }
}

} // verus!

//! Whole SWF files: signature, payload decompression, movie header and tags.
use vstd::prelude::*;
use vstd::slice::slice_subrange;
use crate::ast::CompressionMethod;
use crate::ast_tags::{Movie, MovieModel};
use crate::decompress::{decompress_lzma, decompress_none, decompress_zlib, lzma_decode, zlib_inflate};
use crate::error::{PResult, SpecResult, complete, parsed_as, spec_complete};
use crate::header::{parse_header, parse_swf_signature, spec_header, spec_swf_signature};
use crate::tag::{parse_tag_block_string, spec_tag_block_string};

verus! {

/// Why an SWF file could not be parsed.
///
/// Fatal errors can only occur at the beginning: once the header is parsed, the tags
/// always come out, invalid or unknown ones as raw tags.
#[derive(Clone, Copy, Debug, PartialEq, Eq, Structural)]
pub enum SwfParseError {
    /// The first 8 bytes are not an SWF signature: too short, or an unknown
    /// compression method.
    InvalidSignature,
    /// The compression method of the payload is not supported. Every method is
    /// supported here, so this error does not occur.
    UnsupportedCompression(CompressionMethod),
    /// The payload (everything after the signature) could not be decompressed.
    InvalidPayload,
    /// The movie header at the start of the payload is too short.
    InvalidHeader,
}

impl SwfParseError {
    /// A short description of the error.
    pub fn to_string(&self) -> (r: String)
        ensures
            r@ == match self {
                SwfParseError::InvalidSignature => "invalid SWF signature"@,
                SwfParseError::UnsupportedCompression(CompressionMethod::Uncompressed) => {
                    "unsupported SWF compression: None"@
                },
                SwfParseError::UnsupportedCompression(CompressionMethod::Deflate) => {
                    "unsupported SWF compression: Deflate"@
                },
                SwfParseError::UnsupportedCompression(CompressionMethod::Lzma) => {
                    "unsupported SWF compression: Lzma"@
                },
                SwfParseError::InvalidPayload => "invalid SWF payload"@,
                SwfParseError::InvalidHeader => "invalid SWF header"@,
            },
    {
        match self {
            SwfParseError::InvalidSignature => String::from_str("invalid SWF signature"),
            SwfParseError::UnsupportedCompression(CompressionMethod::Uncompressed) => {
                String::from_str("unsupported SWF compression: None")
            },
            SwfParseError::UnsupportedCompression(CompressionMethod::Deflate) => {
                String::from_str("unsupported SWF compression: Deflate")
            },
            SwfParseError::UnsupportedCompression(CompressionMethod::Lzma) => {
                String::from_str("unsupported SWF compression: Lzma")
            },
            SwfParseError::InvalidPayload => String::from_str("invalid SWF payload"),
            SwfParseError::InvalidHeader => String::from_str("invalid SWF header"),
        }
    }
}

/// A movie: its header (which must be complete), then a string of tags filling the
/// rest of the payload.
pub open spec fn spec_movie(s: Seq<u8>, swf_version: u8) -> SpecResult<MovieModel> {
    match spec_complete(spec_header(s, swf_version)) {
        Err(e) => Err(e),
        Ok((header, rest)) => Ok((
            MovieModel { header, tags: spec_tag_block_string(rest, swf_version) },
            Seq::empty(),
        )),
    }
}

/// Parses a completely loaded movie, that is the uncompressed payload of an SWF file.
pub fn parse_movie(input: &[u8], swf_version: u8) -> (r: PResult<Movie>)
    ensures
        parsed_as(r, spec_movie(input@, swf_version)),
{
    let (rest, header) = complete(parse_header(input, swf_version))?;
    let tags = parse_tag_block_string(rest, swf_version);
    let empty: &[u8] = slice_subrange(rest, rest.len(), rest.len());
    proof {
        assert(empty@ =~= Seq::<u8>::empty());
    }
    Ok((empty, Movie { header, tags }))
}

/// The payload after decompression by the given method.
pub open spec fn spec_payload(method: CompressionMethod, data: Seq<u8>) -> Option<Seq<u8>> {
    match method {
        CompressionMethod::Uncompressed => Some(data),
        CompressionMethod::Deflate => zlib_inflate(data),
        CompressionMethod::Lzma => match lzma_decode(data) {
            Some((_, out)) => Some(out),
            None => None,
        },
    }
}

/// What parsing a whole SWF file gives.
pub open spec fn spec_swf(s: Seq<u8>) -> Result<MovieModel, SwfParseError> {
    match spec_swf_signature(s) {
        Err(_) => Err(SwfParseError::InvalidSignature),
        Ok((signature, rest)) => match spec_payload(signature.compression_method, rest) {
            None => Err(SwfParseError::InvalidPayload),
            Some(payload) => match spec_movie(payload, signature.swf_version) {
                Ok((movie, _)) => Ok(movie),
                Err(_) => Err(SwfParseError::InvalidHeader),
            },
        },
    }
}

/// Parses a completely loaded SWF file.
///
/// This never panics; see `SwfParseError` for the possible errors.
pub fn parse_swf(input: &[u8]) -> (r: Result<Movie, SwfParseError>)
    ensures
        spec_swf(input@) == match r {
            Ok(movie) => Ok(movie.deep_view()),
            Err(e) => Err(e),
        },
{
    let (rest, signature) = match parse_swf_signature(input) {
        Ok(ok) => ok,
        Err(_) => return Err(SwfParseError::InvalidSignature),
    };
    let decompressed = match signature.compression_method {
        CompressionMethod::Uncompressed => decompress_none(rest),
        CompressionMethod::Deflate => decompress_zlib(rest),
        CompressionMethod::Lzma => decompress_lzma(rest),
    };
    let payload: Vec<u8> = match decompressed {
        Ok((_, payload)) => payload,
        Err(_) => return Err(SwfParseError::InvalidPayload),
    };
    match parse_movie(payload.as_slice(), signature.swf_version) {
        Ok((_, movie)) => Ok(movie),
        Err(_) => Err(SwfParseError::InvalidHeader),
    }
}

} // verus!

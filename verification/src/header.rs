//! SWF signature, movie header and tag header.
use vstd::prelude::*;
use vstd::slice::slice_subrange;
use crate::ast::{CompressionMethod, Header, Rect, SwfSignature, TagHeader};
use crate::basic_data_types::{
    parse_le_ufixed8_p8, parse_rect, spec_le_ufixed8_p8, spec_rect,
};
use crate::bits::{bit_input_ok, bits_value, spec_i32_bits, spec_take_bits};
use crate::bytes::{
    missing, parse_le_u16, parse_le_u32, parse_u8, spec_le_u16, spec_le_u32, spec_u8,
};
use crate::error::{Needed, ParseError, PResult, SpecResult, parsed_as};
use crate::fixed::Ufixed8P8;

verus! {

/// `compressionMethod : [ 'F' | 'C' | 'Z' ] 'W' 'S'`
pub open spec fn spec_compression_method(s: Seq<u8>) -> SpecResult<CompressionMethod> {
    if s.len() < 3 {
        Err(missing(3, s.len() as int))
    } else if s[1] != 0x57 || s[2] != 0x53 {
        Err(ParseError::Error)
    } else if s[0] == 0x46 {
        Ok((CompressionMethod::Uncompressed, s.skip(3)))
    } else if s[0] == 0x43 {
        Ok((CompressionMethod::Deflate, s.skip(3)))
    } else if s[0] == 0x5a {
        Ok((CompressionMethod::Lzma, s.skip(3)))
    } else {
        Err(ParseError::Error)
    }
}

pub fn parse_compression_method(input: &[u8]) -> (r: PResult<CompressionMethod>)
    ensures
        parsed_as(r, spec_compression_method(input@)),
{
    if input.len() < 3 {
        return Err(ParseError::Incomplete(Needed::Size(3 - input.len())));
    }
    let rest: &[u8] = slice_subrange(input, 3, input.len());
    if input[1] != 0x57 || input[2] != 0x53 {
        return Err(ParseError::Error);
    }
    if input[0] == 0x46 {
        Ok((rest, CompressionMethod::Uncompressed))
    } else if input[0] == 0x43 {
        Ok((rest, CompressionMethod::Deflate))
    } else if input[0] == 0x5a {
        Ok((rest, CompressionMethod::Lzma))
    } else {
        Err(ParseError::Error)
    }
}

/// `signature : compressionMethod UINT8 UINT32_LE`
pub open spec fn spec_swf_signature(s: Seq<u8>) -> SpecResult<SwfSignature> {
    match spec_compression_method(s) {
        Err(e) => Err(e),
        Ok((compression_method, s1)) => match spec_u8(s1) {
            Err(e) => Err(e),
            Ok((swf_version, s2)) => match spec_le_u32(s2) {
                Err(e) => Err(e),
                Ok((len, rest)) => Ok((
                    SwfSignature {
                        compression_method,
                        swf_version,
                        uncompressed_file_length: len as usize,
                    },
                    rest,
                )),
            },
        },
    }
}

pub fn parse_swf_signature(input: &[u8]) -> (r: PResult<SwfSignature>)
    ensures
        parsed_as(r, spec_swf_signature(input@)),
{
    let (input, compression_method) = parse_compression_method(input)?;
    let (input, swf_version) = parse_u8(input)?;
    let (input, len) = parse_le_u32(input)?;
    Ok((
        input,
        SwfSignature { compression_method, swf_version, uncompressed_file_length: len as usize },
    ))
}

/// `header : rect UFIXED8P8 UINT16_LE` (the SWF version comes from the signature)
pub open spec fn spec_header(s: Seq<u8>, swf_version: u8) -> SpecResult<Header> {
    match spec_rect(s) {
        Err(e) => Err(e),
        Ok((frame_size, s1)) => match spec_le_ufixed8_p8(s1) {
            Err(e) => Err(e),
            Ok((frame_rate, s2)) => match spec_le_u16(s2) {
                Err(e) => Err(e),
                Ok((frame_count, rest)) => Ok((
                    Header { swf_version, frame_size, frame_rate, frame_count },
                    rest,
                )),
            },
        },
    }
}

pub fn parse_header(input: &[u8], swf_version: u8) -> (r: PResult<Header>)
    ensures
        parsed_as(r, spec_header(input@, swf_version)),
{
    let (input, frame_size) = parse_rect(input)?;
    let (input, frame_rate) = parse_le_ufixed8_p8(input)?;
    let (input, frame_count) = parse_le_u16(input)?;
    Ok((input, Header { swf_version, frame_size, frame_rate, frame_count }))
}

/// Tag header: a little-endian `u16` holding the code (10 high bits) and a short length
/// (6 low bits); the short length 63 means that a `u32` length follows.
pub open spec fn spec_tag_header(s: Seq<u8>) -> SpecResult<TagHeader> {
    match spec_le_u16(s) {
        Err(e) => Err(e),
        Ok((code_and_length, s1)) => {
            let code = (code_and_length / 64) as u16;
            let short_length = code_and_length % 64;
            if short_length < 63 {
                Ok((TagHeader { code, length: short_length as u32 }, s1))
            } else {
                match spec_le_u32(s1) {
                    Err(e) => Err(e),
                    Ok((length, rest)) => Ok((TagHeader { code, length }, rest)),
                }
            }
        },
    }
}

pub fn parse_tag_header(input: &[u8]) -> (r: PResult<TagHeader>)
    ensures
        parsed_as(r, spec_tag_header(input@)),
{
    let (input, code_and_length) = parse_le_u16(input)?;
    let code: u16 = code_and_length >> 6;
    let max_length: u16 = 63;
    let length: u16 = code_and_length & max_length;
    assert(code_and_length >> 6 == code_and_length / 64 && code_and_length & 63 == code_and_length % 64)
        by (bit_vector);
    if length < max_length {
        Ok((input, TagHeader { code, length: length as u32 }))
    } else {
        let (input, length) = parse_le_u32(input)?;
        Ok((input, TagHeader { code, length }))
    }
}

/// A signature read from an input is read the same from any longer input, the extra
/// bytes being left after it.
pub proof fn lemma_swf_signature_extend(a: Seq<u8>, b: Seq<u8>)
    ensures
        spec_swf_signature(a) matches Ok((sig, rest)) ==> spec_swf_signature(a + b) == Ok::<
            (SwfSignature, Seq<u8>),
            ParseError,
        >((sig, rest + b)),
{
    if a.len() >= 8 {
        let ab = a + b;
        assert(ab[0] == a[0] && ab[1] == a[1] && ab[2] == a[2]);
        assert(ab.skip(3) =~= a.skip(3) + b);
        assert(ab.skip(3).skip(1) =~= a.skip(3).skip(1) + b);
        assert(ab.skip(3).skip(1).skip(4) =~= a.skip(3).skip(1).skip(4) + b);
        assert(ab.skip(3)[0] == a.skip(3)[0]);
        let s2 = a.skip(3).skip(1);
        let s2b = ab.skip(3).skip(1);
        assert(s2b[0] == s2[0] && s2b[1] == s2[1] && s2b[2] == s2[2] && s2b[3] == s2[3]);
    }
}

/// The tag header takes 2 bytes, or 6 bytes with a long length: an input of 6 bytes
/// or more always holds a full tag header.
pub proof fn lemma_tag_header_complete(s: Seq<u8>)
    requires
        s.len() >= 6,
    ensures
        spec_tag_header(s) is Ok,
        spec_tag_header(s) matches Ok((_, rest)) ==> s.len() - 6 <= rest.len() <= s.len() - 2,
{
}


/// `rest` is what is left of `s` after some prefix of it.
pub open spec fn is_suffix(rest: Seq<u8>, s: Seq<u8>) -> bool {
    rest.len() <= s.len() && rest == s.skip(s.len() - rest.len())
}

proof fn lemma_skip_is_suffix(s: Seq<u8>, k: int)
    requires
        0 <= k <= s.len(),
    ensures
        is_suffix(s.skip(k), s),
{
    assert(s.skip(k) =~= s.skip(s.len() - s.skip(k).len()));
}

proof fn lemma_suffix_trans(a: Seq<u8>, b: Seq<u8>, c: Seq<u8>)
    requires
        is_suffix(a, b),
        is_suffix(b, c),
    ensures
        is_suffix(a, c),
{
    assert(a =~= c.skip(c.len() - a.len()));
}

proof fn lemma_take_bits_suffix(s: Seq<u8>, bp: int, n: nat)
    requires
        0 <= bp < 8,
    ensures
        spec_take_bits(s, bp, n) matches Ok((_, (rest, _))) ==> is_suffix(rest, s),
{
    if n == 0 {
        assert(s =~= s.skip(0));
    } else if s.len() * 8 >= n + bp {
        lemma_skip_is_suffix(s, (bp + n) / 8);
    }
}

proof fn lemma_rect_suffix(s: Seq<u8>)
    ensures
        spec_rect(s) matches Ok((_, rest)) ==> is_suffix(rest, s),
{
    lemma_take_bits_suffix(s, 0, 5);
    if let Ok((n, (s1, b1))) = spec_take_bits(s, 0, 5) {
        lemma_take_bits_suffix(s1, b1, n);
        if let Ok((_, (s2, b2))) = spec_i32_bits(s1, b1, n) {
            lemma_take_bits_suffix(s2, b2, n);
            lemma_suffix_trans(s2, s1, s);
            if let Ok((_, (s3, b3))) = spec_i32_bits(s2, b2, n) {
                lemma_take_bits_suffix(s3, b3, n);
                lemma_suffix_trans(s3, s2, s);
                if let Ok((_, (s4, b4))) = spec_i32_bits(s3, b3, n) {
                    lemma_take_bits_suffix(s4, b4, n);
                    lemma_suffix_trans(s4, s3, s);
                    if let Ok((_, (s5, b5))) = spec_i32_bits(s4, b4, n) {
                        lemma_suffix_trans(s5, s4, s);
                        if b5 > 0 && s5.len() > 0 {
                            lemma_skip_is_suffix(s5, 1);
                            lemma_suffix_trans(s5.skip(1), s5, s);
                        }
                    }
                }
            }
        }
    }
}

/// The movie header is read from the start of the input: what is left is a suffix.
pub proof fn lemma_header_suffix(s: Seq<u8>, swf_version: u8)
    ensures
        spec_header(s, swf_version) matches Ok((_, rest)) ==> is_suffix(rest, s),
{
    lemma_rect_suffix(s);
    if let Ok((_, s1)) = spec_rect(s) {
        if s1.len() >= 2 {
            lemma_skip_is_suffix(s1, 2);
            lemma_suffix_trans(s1.skip(2), s1, s);
            let s2 = s1.skip(2);
            if s2.len() >= 2 {
                lemma_skip_is_suffix(s2, 2);
                lemma_suffix_trans(s2.skip(2), s2, s);
            }
        }
    }
}

proof fn lemma_bits_value_extend(s: Seq<u8>, e: Seq<u8>, off: int, n: nat)
    requires
        0 <= off,
        off + n <= s.len() * 8,
    ensures
        bits_value(s + e, off, n) == bits_value(s, off, n),
    decreases n,
{
    if n > 0 {
        lemma_bits_value_extend(s, e, off, (n - 1) as nat);
        let i = off + n - 1;
        assert(i / 8 < s.len());
        assert((s + e)[i / 8] == s[i / 8]);
    }
}

proof fn lemma_take_bits_extend(s: Seq<u8>, e: Seq<u8>, bp: int, n: nat)
    requires
        bit_input_ok(s, bp),
    ensures
        spec_take_bits(s, bp, n) matches Ok((v, (rest, pos))) ==> {
            &&& spec_take_bits(s + e, bp, n) == Ok::<(nat, (Seq<u8>, int)), ParseError>((v, (rest + e, pos)))
            &&& bit_input_ok(rest, pos)
        },
{
    if n > 0 && s.len() * 8 >= n + bp {
        lemma_bits_value_extend(s, e, bp, n);
        let k = (bp + n) / 8;
        assert(k <= s.len());
        assert((s + e).skip(k) =~= s.skip(k) + e);
        assert((bp + n) % 8 > 0 ==> k < s.len());
    }
}

proof fn lemma_i32_bits_extend(s: Seq<u8>, e: Seq<u8>, bp: int, n: nat)
    requires
        bit_input_ok(s, bp),
    ensures
        spec_i32_bits(s, bp, n) matches Ok((v, (rest, pos))) ==> {
            &&& spec_i32_bits(s + e, bp, n) == Ok::<(i32, (Seq<u8>, int)), ParseError>((v, (rest + e, pos)))
            &&& bit_input_ok(rest, pos)
        },
{
    lemma_take_bits_extend(s, e, bp, n);
}

proof fn lemma_rect_extend(s: Seq<u8>, e: Seq<u8>)
    ensures
        spec_rect(s) matches Ok((r, rest)) ==> spec_rect(s + e) == Ok::<(Rect, Seq<u8>), ParseError>(
            (r, rest + e),
        ),
{
    lemma_take_bits_extend(s, e, 0, 5);
    if let Ok((n, (s1, b1))) = spec_take_bits(s, 0, 5) {
        lemma_i32_bits_extend(s1, e, b1, n);
        if let Ok((_, (s2, b2))) = spec_i32_bits(s1, b1, n) {
            lemma_i32_bits_extend(s2, e, b2, n);
            if let Ok((_, (s3, b3))) = spec_i32_bits(s2, b2, n) {
                lemma_i32_bits_extend(s3, e, b3, n);
                if let Ok((_, (s4, b4))) = spec_i32_bits(s3, b3, n) {
                    lemma_i32_bits_extend(s4, e, b4, n);
                    if let Ok((_, (s5, b5))) = spec_i32_bits(s4, b4, n) {
                        if b5 > 0 {
                            assert((s5 + e).skip(1) =~= s5.skip(1) + e);
                        }
                    }
                }
            }
        }
    }
}

/// The fields after the frame size are read the same from any longer input.
proof fn lemma_header_fields_extend(s1: Seq<u8>, e: Seq<u8>)
    ensures
        spec_le_ufixed8_p8(s1) matches Ok((rate, s2)) ==> {
            &&& spec_le_ufixed8_p8(s1 + e) == Ok::<(Ufixed8P8, Seq<u8>), ParseError>((rate, s2 + e))
            &&& spec_le_u16(s2) matches Ok((count, rest)) ==> spec_le_u16(s2 + e) == Ok::<
                (u16, Seq<u8>),
                ParseError,
            >((count, rest + e))
        },
{
    if s1.len() >= 2 {
        let s1e = s1 + e;
        assert(s1e.skip(2) =~= s1.skip(2) + e);
        assert(s1e[0] == s1[0] && s1e[1] == s1[1]);
        let s2 = s1.skip(2);
        if s2.len() >= 2 {
            let s2e = s2 + e;
            assert(s2e.skip(2) =~= s2.skip(2) + e);
            assert(s2e[0] == s2[0] && s2e[1] == s2[1]);
        }
    }
}

/// A movie header read from an input is read the same from any longer input, the
/// extra bytes being left after it.
pub proof fn lemma_header_extend(s: Seq<u8>, e: Seq<u8>, swf_version: u8)
    ensures
        spec_header(s, swf_version) matches Ok((h, rest)) ==> spec_header(s + e, swf_version)
            == Ok::<(Header, Seq<u8>), ParseError>((h, rest + e)),
{
    lemma_rect_extend(s, e);
    if let Ok((_, s1)) = spec_rect(s) {
        lemma_header_fields_extend(s1, e);
    }
}

} // verus!

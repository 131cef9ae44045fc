//! Byte-level parsers: fixed-width integers, byte strings, C strings and LEB128 integers.
use vstd::prelude::*;
use vstd::slice::slice_subrange;
use vstd::slice::slice_to_vec;
use vstd::utf8::valid_utf8;
use vstd::utf8::decode_utf8;
use crate::error::{Needed, ParseError, PResult, SpecResult, parsed_as, complete, spec_complete};

verus! {

/// Number of bytes missing for an input of length `len` to hold `n` bytes.
pub open spec fn missing(n: int, len: int) -> ParseError {
    ParseError::Incomplete(Needed::Size((n - len) as usize))
}

/// Takes the first `n` bytes of the input (streaming).
pub open spec fn spec_take(s: Seq<u8>, n: int) -> SpecResult<Seq<u8>> {
    if n <= s.len() {
        Ok((s.take(n), s.skip(n)))
    } else {
        Err(missing(n, s.len() as int))
    }
}

/// Little-endian unsigned value of the first two bytes.
pub open spec fn le_u16_value(s: Seq<u8>) -> int {
    s[0] + 256 * s[1]
}

/// Little-endian unsigned value of the first four bytes.
pub open spec fn le_u32_value(s: Seq<u8>) -> int {
    s[0] + 256 * s[1] + 65536 * s[2] + 16777216 * s[3]
}

/// Big-endian unsigned value of the first two bytes.
pub open spec fn be_u16_value(s: Seq<u8>) -> int {
    256 * s[0] + s[1]
}

/// Big-endian unsigned value of the first four bytes.
pub open spec fn be_u32_value(s: Seq<u8>) -> int {
    16777216 * s[0] + 65536 * s[1] + 256 * s[2] + s[3]
}

/// Two's complement reading of an unsigned value over `bits` bits.
pub open spec fn twos_complement(v: int, bits: nat) -> int {
    if v >= vstd::arithmetic::power2::pow2((bits - 1) as nat) as int {
        v - vstd::arithmetic::power2::pow2(bits) as int
    } else {
        v
    }
}

pub open spec fn spec_u8(s: Seq<u8>) -> SpecResult<u8> {
    if s.len() >= 1 { Ok((s[0], s.skip(1))) } else { Err(missing(1, s.len() as int)) }
}

pub open spec fn spec_le_u16(s: Seq<u8>) -> SpecResult<u16> {
    if s.len() >= 2 { Ok((le_u16_value(s) as u16, s.skip(2))) } else { Err(missing(2, s.len() as int)) }
}

pub open spec fn spec_le_i16(s: Seq<u8>) -> SpecResult<i16> {
    if s.len() >= 2 {
        Ok((twos_complement(le_u16_value(s), 16) as i16, s.skip(2)))
    } else {
        Err(missing(2, s.len() as int))
    }
}

pub open spec fn spec_le_u32(s: Seq<u8>) -> SpecResult<u32> {
    if s.len() >= 4 { Ok((le_u32_value(s) as u32, s.skip(4))) } else { Err(missing(4, s.len() as int)) }
}

pub open spec fn spec_le_i32(s: Seq<u8>) -> SpecResult<i32> {
    if s.len() >= 4 {
        Ok((twos_complement(le_u32_value(s), 32) as i32, s.skip(4)))
    } else {
        Err(missing(4, s.len() as int))
    }
}

/// Eight bytes read as a little-endian unsigned integer.
pub open spec fn spec_le_u64(s: Seq<u8>) -> SpecResult<u64> {
    if s.len() >= 8 {
        Ok(((le_u32_value(s) + 4294967296 * le_u32_value(s.skip(4))) as u64, s.skip(8)))
    } else {
        Err(missing(8, s.len() as int))
    }
}

pub open spec fn spec_be_u16(s: Seq<u8>) -> SpecResult<u16> {
    if s.len() >= 2 { Ok((be_u16_value(s) as u16, s.skip(2))) } else { Err(missing(2, s.len() as int)) }
}

pub open spec fn spec_be_u32(s: Seq<u8>) -> SpecResult<u32> {
    if s.len() >= 4 { Ok((be_u32_value(s) as u32, s.skip(4))) } else { Err(missing(4, s.len() as int)) }
}

proof fn lemma_pow2_16_32()
    ensures
        vstd::arithmetic::power2::pow2(15) == 32768,
        vstd::arithmetic::power2::pow2(16) == 65536,
        vstd::arithmetic::power2::pow2(31) == 2147483648,
        vstd::arithmetic::power2::pow2(32) == 4294967296,
{
    vstd::arithmetic::power2::lemma2_to64();
}

/// Streaming `take`: the first `n` bytes and the rest.
pub fn take(input: &[u8], n: usize) -> (r: PResult<&[u8]>)
    ensures
        match (r, spec_take(input@, n as int)) {
            (Ok((rest, v)), Ok((sv, srest))) => rest@ == srest && v@ == sv,
            (Err(e1), Err(e2)) => e1 == e2,
            _ => false,
        },
{
    if n <= input.len() {
        Ok((slice_subrange(input, n, input.len()), slice_subrange(input, 0, n)))
    } else {
        Err(ParseError::Incomplete(Needed::Size(n - input.len())))
    }
}

/// Skips the first `n` bytes of a complete input.
pub fn skip(input: &[u8], n: usize) -> (r: PResult<()>)
    ensures
        match r {
            Ok((rest, _)) => n <= input@.len() && rest@ == input@.skip(n as int),
            Err(e) => n > input@.len() && e == missing(n as int, input@.len() as int),
        },
{
    if n <= input.len() {
        Ok((slice_subrange(input, n, input.len()), ()))
    } else {
        Err(ParseError::Incomplete(Needed::Size(n - input.len())))
    }
}

pub fn parse_u8(input: &[u8]) -> (r: PResult<u8>)
    ensures
        parsed_as(r, spec_u8(input@)),
{
    if input.len() >= 1 {
        Ok((slice_subrange(input, 1, input.len()), input[0]))
    } else {
        Err(ParseError::Incomplete(Needed::Size(1)))
    }
}

pub fn parse_le_u16(input: &[u8]) -> (r: PResult<u16>)
    ensures
        parsed_as(r, spec_le_u16(input@)),
{
    if input.len() >= 2 {
        let v: u16 = input[0] as u16 + 256 * (input[1] as u16);
        Ok((slice_subrange(input, 2, input.len()), v))
    } else {
        Err(ParseError::Incomplete(Needed::Size(2 - input.len())))
    }
}

pub fn parse_le_i16(input: &[u8]) -> (r: PResult<i16>)
    ensures
        parsed_as(r, spec_le_i16(input@)),
{
    proof { lemma_pow2_16_32(); }
    if input.len() >= 2 {
        let u: i32 = input[0] as i32 + 256 * (input[1] as i32);
        let v: i16 = if u >= 32768 { (u - 65536) as i16 } else { u as i16 };
        Ok((slice_subrange(input, 2, input.len()), v))
    } else {
        Err(ParseError::Incomplete(Needed::Size(2 - input.len())))
    }
}

pub fn parse_le_u32(input: &[u8]) -> (r: PResult<u32>)
    ensures
        parsed_as(r, spec_le_u32(input@)),
{
    if input.len() >= 4 {
        let v: u32 = input[0] as u32 + 256 * (input[1] as u32) + 65536 * (input[2] as u32)
            + 16777216 * (input[3] as u32);
        Ok((slice_subrange(input, 4, input.len()), v))
    } else {
        Err(ParseError::Incomplete(Needed::Size(4 - input.len())))
    }
}

pub fn parse_le_i32(input: &[u8]) -> (r: PResult<i32>)
    ensures
        parsed_as(r, spec_le_i32(input@)),
{
    proof { lemma_pow2_16_32(); }
    if input.len() >= 4 {
        let u: i64 = input[0] as i64 + 256 * (input[1] as i64) + 65536 * (input[2] as i64)
            + 16777216 * (input[3] as i64);
        let v: i32 = if u >= 2147483648 { (u - 4294967296) as i32 } else { u as i32 };
        Ok((slice_subrange(input, 4, input.len()), v))
    } else {
        Err(ParseError::Incomplete(Needed::Size(4 - input.len())))
    }
}

pub fn parse_le_u64(input: &[u8]) -> (r: PResult<u64>)
    ensures
        parsed_as(r, spec_le_u64(input@)),
{
    if input.len() >= 8 {
        let lo: u64 = input[0] as u64 + 256 * (input[1] as u64) + 65536 * (input[2] as u64)
            + 16777216 * (input[3] as u64);
        let hi: u64 = input[4] as u64 + 256 * (input[5] as u64) + 65536 * (input[6] as u64)
            + 16777216 * (input[7] as u64);
        assert(hi as int == le_u32_value(input@.skip(4)));
        let v: u64 = lo + 4294967296 * hi;
        Ok((slice_subrange(input, 8, input.len()), v))
    } else {
        Err(ParseError::Incomplete(Needed::Size(8 - input.len())))
    }
}

pub fn parse_be_u16(input: &[u8]) -> (r: PResult<u16>)
    ensures
        parsed_as(r, spec_be_u16(input@)),
{
    if input.len() >= 2 {
        let v: u16 = 256 * (input[0] as u16) + input[1] as u16;
        Ok((slice_subrange(input, 2, input.len()), v))
    } else {
        Err(ParseError::Incomplete(Needed::Size(2 - input.len())))
    }
}

pub fn parse_be_u32(input: &[u8]) -> (r: PResult<u32>)
    ensures
        parsed_as(r, spec_be_u32(input@)),
{
    if input.len() >= 4 {
        let v: u32 = 16777216 * (input[0] as u32) + 65536 * (input[1] as u32) + 256 * (input[2] as u32)
            + input[3] as u32;
        Ok((slice_subrange(input, 4, input.len()), v))
    } else {
        Err(ParseError::Incomplete(Needed::Size(4 - input.len())))
    }
}

/// A byte of a complete input.
pub open spec fn u8_c(s: Seq<u8>) -> SpecResult<u8> {
    spec_complete(spec_u8(s))
}

/// A little-endian `u16` of a complete input.
pub open spec fn u16_c(s: Seq<u8>) -> SpecResult<u16> {
    spec_complete(spec_le_u16(s))
}

/// A little-endian `i16` of a complete input.
pub open spec fn i16_c(s: Seq<u8>) -> SpecResult<i16> {
    spec_complete(spec_le_i16(s))
}

/// A little-endian `u32` of a complete input.
pub open spec fn u32_c(s: Seq<u8>) -> SpecResult<u32> {
    spec_complete(spec_le_u32(s))
}

/// `u8` from a complete input.
pub fn parse_u8_c(input: &[u8]) -> (r: PResult<u8>)
    ensures
        parsed_as(r, spec_complete(spec_u8(input@))),
{
    complete(parse_u8(input))
}

/// Little-endian `u16` from a complete input.
pub fn parse_le_u16_c(input: &[u8]) -> (r: PResult<u16>)
    ensures
        parsed_as(r, spec_complete(spec_le_u16(input@))),
{
    complete(parse_le_u16(input))
}

/// Little-endian `i16` from a complete input.
pub fn parse_le_i16_c(input: &[u8]) -> (r: PResult<i16>)
    ensures
        parsed_as(r, spec_complete(spec_le_i16(input@))),
{
    complete(parse_le_i16(input))
}

/// Little-endian `u32` from a complete input.
pub fn parse_le_u32_c(input: &[u8]) -> (r: PResult<u32>)
    ensures
        parsed_as(r, spec_complete(spec_le_u32(input@))),
{
    complete(parse_le_u32(input))
}

/// Skips `n` bytes of a complete input.
pub open spec fn spec_skip_c(s: Seq<u8>, n: int) -> SpecResult<()> {
    if n <= s.len() { Ok(((), s.skip(n))) } else { Err(ParseError::Error) }
}

pub fn skip_c(input: &[u8], n: usize) -> (r: PResult<()>)
    ensures
        parsed_as(r, spec_skip_c(input@, n as int)),
{
    if n <= input.len() {
        Ok((slice_subrange(input, n, input.len()), ()))
    } else {
        Err(ParseError::Error)
    }
}

/// All the remaining bytes, copied.
pub fn parse_bytes(input: &[u8]) -> (r: (&[u8], Vec<u8>))
    ensures
        r.0@.len() == 0,
        r.1@ == input@,
{
    (slice_subrange(input, 0, 0), slice_to_vec(input))
}

/// `i` is the index of the first nul byte of `s`.
pub open spec fn is_first_nul(s: Seq<u8>, i: int) -> bool {
    &&& 0 <= i < s.len()
    &&& s[i] == 0
    &&& forall|j: int| 0 <= j < i ==> s[j] != 0
}

pub open spec fn has_nul(s: Seq<u8>) -> bool {
    exists|i: int| is_first_nul(s, i)
}

pub open spec fn first_nul(s: Seq<u8>) -> int {
    choose|i: int| is_first_nul(s, i)
}

pub proof fn lemma_first_nul_unique(s: Seq<u8>, i: int)
    requires
        is_first_nul(s, i),
    ensures
        has_nul(s),
        first_nul(s) == i,
{
    let k = first_nul(s);
    assert(is_first_nul(s, k));
    if k < i {
        assert(s[k] != 0);
    } else if i < k {
        assert(s[i] != 0);
    }
}

/// Position of the first nul byte, if any.
pub fn find_nul(input: &[u8]) -> (r: Option<usize>)
    ensures
        match r {
            Some(i) => is_first_nul(input@, i as int),
            None => forall|j: int| 0 <= j < input@.len() ==> input@[j] != 0,
        },
{
    let mut i: usize = 0;
    while i < input.len()
        invariant
            i <= input@.len(),
            forall|j: int| 0 <= j < i ==> input@[j] != 0,
        decreases input@.len() - i,
    {
        if input[i] == 0 {
            return Some(i);
        }
        i = i + 1;
    }
    None
}

/// Calls std `str::from_utf8`: the bytes read as a string when they are valid UTF-8.
#[verifier::external_body]
fn utf8_str(bytes: &[u8]) -> (r: Option<&str>)
    ensures
        r is Some <==> valid_utf8(bytes@),
        r matches Some(s) ==> s@ == decode_utf8(bytes@),
{
    match std::str::from_utf8(bytes) {
        Ok(s) => Some(s),
        Err(_) => None,
    }
}

/// Decodes UTF-8 bytes into an owned string.
fn utf8_to_string(bytes: &[u8]) -> (r: Option<String>)
    ensures
        r is Some <==> valid_utf8(bytes@),
        r matches Some(s) ==> s@ == decode_utf8(bytes@),
{
    match utf8_str(bytes) {
        Some(s) => Some(s.to_owned()),
        None => None,
    }
}

/// UTF-8 decoding of a byte string, as a parse step.
pub open spec fn spec_utf8(raw: Seq<u8>) -> Option<Seq<char>> {
    if valid_utf8(raw) { Some(decode_utf8(raw)) } else { None }
}

/// A nul-terminated UTF-8 string; the nul byte is consumed but not part of the value.
pub open spec fn spec_c_string(s: Seq<u8>) -> SpecResult<Seq<char>> {
    if has_nul(s) {
        let i = first_nul(s);
        match spec_utf8(s.take(i)) {
            Some(text) => Ok((text, s.skip(i + 1))),
            None => Err(ParseError::Error),
        }
    } else {
        Err(ParseError::Incomplete(Needed::Unknown))
    }
}

/// Parse a null-terminated sequence of bytes. The nul-byte is consumed but not included in the
/// result.
pub fn parse_c_string(input: &[u8]) -> (r: PResult<String>)
    ensures
        parsed_as(r, spec_c_string(input@)),
{
    match find_nul(input) {
        Some(i) => {
            proof { lemma_first_nul_unique(input@, i as int); }
            assert(i < input.len());
            let raw: &[u8] = slice_subrange(input, 0, i);
            assert(raw@ == input@.take(i as int));
            match utf8_to_string(raw) {
                Some(text) => Ok((slice_subrange(input, i + 1, input.len()), text)),
                None => Err(ParseError::Error),
            }
        },
        None => {
            assert(!has_nul(input@));
            Err(ParseError::Incomplete(Needed::Unknown))
        },
    }
}

/// The bytes up to the first nul byte, or all of them if there is none.
pub open spec fn block_raw(s: Seq<u8>) -> Seq<u8> {
    if has_nul(s) { s.take(first_nul(s)) } else { s }
}

/// A UTF-8 string up to the end of input or the first nul byte; the whole input is consumed.
pub open spec fn spec_block_c_string(s: Seq<u8>) -> SpecResult<Seq<char>> {
    match spec_utf8(block_raw(s)) {
        Some(text) => Ok((text, Seq::empty())),
        None => Err(ParseError::Error),
    }
}

/// Parse a sequence of bytes up to the end of input or first nul-byte. If there
/// is a nul-byte, it is consumed but not included in the result.
pub fn parse_block_c_string(input: &[u8]) -> (r: PResult<String>)
    ensures
        parsed_as(r, spec_block_c_string(input@)),
{
    let raw: &[u8] = match find_nul(input) {
        Some(i) => {
            proof { lemma_first_nul_unique(input@, i as int); }
            slice_subrange(input, 0, i)
        },
        None => {
            assert(input@.take(input@.len() as int) =~= input@);
            input
        },
    };
    assert(raw@ == block_raw(input@));
    match utf8_to_string(raw) {
        Some(text) => {
            let rest: &[u8] = slice_subrange(input, 0, 0);
            assert(rest@ =~= Seq::<u8>::empty());
            Ok((rest, text))
        },
        None => Err(ParseError::Error),
    }
}

/// Variable-length little-endian unsigned integer: 7 bits per byte, high bit set on every
/// byte but the last, at most five bytes; `acc` holds the value of the `i` bytes read so far.
pub open spec fn spec_leb128_from(s: Seq<u8>, i: nat, acc: u32) -> SpecResult<u32>
    decreases 5 - i,
{
    if i >= 5 {
        Ok((acc, s))
    } else if s.len() == 0 {
        Err(ParseError::Incomplete(Needed::Size(1)))
    } else {
        let b = s[0];
        let next = acc | (((b & 0x7f) as u32) << ((7 * i) as u32));
        if b & 0x80 == 0 {
            Ok((next, s.skip(1)))
        } else {
            spec_leb128_from(s.skip(1), i + 1, next)
        }
    }
}

pub open spec fn spec_leb128_u32(s: Seq<u8>) -> SpecResult<u32> {
    spec_leb128_from(s, 0, 0)
}

/// Parse the variable-length encoded little-endian representation of an unsigned 32-bit integer
pub fn parse_leb128_u32(input: &[u8]) -> (r: PResult<u32>)
    ensures
        parsed_as(r, spec_leb128_u32(input@)),
{
    let mut result: u32 = 0;
    let mut current: &[u8] = input;
    let mut i: u32 = 0;
    while i < 5
        invariant
            i <= 5,
            spec_leb128_from(current@, i as nat, result) == spec_leb128_u32(input@),
        decreases 5 - i,
    {
        if current.len() == 0 {
            return Err(ParseError::Incomplete(Needed::Size(1)));
        }
        let b: u8 = current[0];
        result = result | (((b & 0x7f) as u32) << (7 * i));
        current = slice_subrange(current, 1, current.len());
        if b & 0x80 == 0 {
            return Ok((current, result));
        }
        i = i + 1;
    }
    Ok((current, result))
}

} // verus!

//! Bit-level parsers. A bit input is a byte slice and the position (0 to 7) of the next
//! bit in its first byte; bits are read from the most significant one.
use vstd::prelude::*;
use vstd::arithmetic::power2::{pow2, lemma_pow2_unfold, lemma2_to64};
use vstd::slice::slice_subrange;
use crate::error::{Needed, ParseError, SpecResult};

verus! {

/// Result of a bit parser: the remaining bit input and the parsed value.
pub type BResult<'a, T> = Result<((&'a [u8], usize), T), ParseError>;

/// Specification-level result of a bit parser: the value and the remaining bit input.
pub type SpecBitsResult<V> = Result<(V, (Seq<u8>, int)), ParseError>;

/// A bit parser's result agrees with its specification.
pub open spec fn bits_parsed_as<T: DeepView>(r: BResult<T>, spec: SpecBitsResult<T::V>) -> bool {
    match (r, spec) {
        (Ok(((rest, pos), v)), Ok((m, (srest, spos)))) => rest@ == srest && pos == spos
            && v.deep_view() == m,
        (Err(e1), Err(e2)) => e1 == e2,
        _ => false,
    }
}

/// A well-formed bit input: the bit position is in its first byte.
pub open spec fn bit_input_ok(s: Seq<u8>, bp: int) -> bool {
    0 <= bp < 8 && (bp > 0 ==> s.len() > 0)
}

/// The bit of `s` at absolute bit index `i` (most significant bit first).
pub open spec fn bit_at(s: Seq<u8>, i: int) -> nat {
    if (s[i / 8] >> ((7 - i % 8) as u8)) & 1u8 == 1u8 { 1 } else { 0 }
}

/// Big-endian unsigned value of the `n` bits of `s` starting at bit index `off`.
pub open spec fn bits_value(s: Seq<u8>, off: int, n: nat) -> nat
    decreases n,
{
    if n == 0 {
        0
    } else {
        2 * bits_value(s, off, (n - 1) as nat) + bit_at(s, off + n - 1)
    }
}

/// The bit input left after consuming `n` bits from `(s, bp)`.
pub open spec fn bits_rest(s: Seq<u8>, bp: int, n: int) -> (Seq<u8>, int) {
    (s.skip((bp + n) / 8), (bp + n) % 8)
}

/// Reads `n` bits as an unsigned integer (streaming: `Incomplete(Size(n))` if too short).
pub open spec fn spec_take_bits(s: Seq<u8>, bp: int, n: nat) -> SpecBitsResult<nat> {
    if n == 0 {
        Ok((0, (s, bp)))
    } else if s.len() * 8 < n + bp {
        Err(ParseError::Incomplete(Needed::Size(n as usize)))
    } else {
        Ok((bits_value(s, bp, n), bits_rest(s, bp, n as int)))
    }
}

/// The signed reading of `n` bits of value `v` (two's complement).
pub open spec fn signed_bits(v: nat, n: nat) -> int {
    if n == 0 {
        0
    } else if v >= pow2((n - 1) as nat) {
        v - pow2(n)
    } else {
        v as int
    }
}

pub proof fn lemma_bits_value_bound(s: Seq<u8>, off: int, n: nat)
    ensures
        bits_value(s, off, n) < pow2(n),
    decreases n,
{
    if n > 0 {
        lemma_bits_value_bound(s, off, (n - 1) as nat);
        lemma_pow2_unfold(n);
    } else {
        lemma2_to64();
    }
}

/// `2^n` as a machine integer.
fn pow2_u64(n: usize) -> (p: u64)
    requires
        n <= 63,
    ensures
        p as nat == pow2(n as nat),
{
    let mut p: u64 = 1;
    let mut i: usize = 0;
    proof { lemma2_to64(); }
    while i < n
        invariant
            i <= n <= 63,
            p as nat == pow2(i as nat),
        decreases n - i,
    {
        proof {
            lemma2_to64();
            lemma_pow2_unfold((i + 1) as nat);
            vstd::arithmetic::power2::lemma_pow2_strictly_increases((i + 1) as nat, 64);
        }
        p = p * 2;
        i = i + 1;
    }
    p
}

/// Reads `n <= 32` bits as an unsigned integer.
pub fn take_bits(input: (&[u8], usize), n: usize) -> (r: BResult<u64>)
    requires
        n <= 32,
        bit_input_ok(input.0@, input.1 as int),
    ensures
        match (r, spec_take_bits(input.0@, input.1 as int, n as nat)) {
            (Ok(((rest, pos), v)), Ok((m, (srest, spos)))) => rest@ == srest && pos == spos
                && v as nat == m && bit_input_ok(rest@, pos as int),
            (Err(e1), Err(e2)) => e1 == e2,
            _ => false,
        },
        r matches Ok((_, v)) ==> (v as nat) < pow2(n as nat),
{
    let (s, bp) = input;
    if n == 0 {
        proof { lemma2_to64(); }
        return Ok(((s, bp), 0));
    }
    if s.len() < 5 && s.len() * 8 < n + bp {
        return Err(ParseError::Incomplete(Needed::Size(n)));
    }
    let mut acc: u64 = 0;
    let mut k: usize = 0;
    proof { lemma2_to64(); }
    while k < n
        invariant
            k <= n <= 32,
            bp < 8,
            s@.len() * 8 >= n + bp,
            acc as nat == bits_value(s@, bp as int, k as nat),
            (acc as nat) < pow2(k as nat),
        decreases n - k,
    {
        let idx: usize = bp + k;
        let byte: u8 = s[idx / 8];
        let shift: u8 = (7 - idx % 8) as u8;
        let bit: u64 = if (byte >> shift) & 1u8 == 1u8 { 1 } else { 0 };
        proof {
            lemma2_to64();
            lemma_pow2_unfold((k + 1) as nat);
            if k + 1 < 32 {
                vstd::arithmetic::power2::lemma_pow2_strictly_increases((k + 1) as nat, 32);
            }
            assert(bit as nat == bit_at(s@, bp + (k + 1) - 1));
        }
        acc = acc * 2 + bit;
        k = k + 1;
    }
    let end: usize = bp + n;
    let rest: &[u8] = slice_subrange(s, end / 8, s.len());
    Ok(((rest, end % 8), acc))
}

pub open spec fn spec_bool_bits(s: Seq<u8>, bp: int) -> SpecBitsResult<bool> {
    if s.len() == 0 {
        Err(ParseError::Incomplete(Needed::Size(1)))
    } else {
        Ok((bit_at(s, bp) == 1, bits_rest(s, bp, 1)))
    }
}

/// Parse the bit-encoded representation of a bool (1 bit)
pub fn parse_bool_bits(input: (&[u8], usize)) -> (r: BResult<bool>)
    requires
        bit_input_ok(input.0@, input.1 as int),
    ensures
        bits_parsed_as(r, spec_bool_bits(input.0@, input.1 as int)),
        r matches Ok(((rest, pos), _)) ==> bit_input_ok(rest@, pos as int),
{
    let (s, bp) = input;
    if s.len() == 0 {
        return Err(ParseError::Incomplete(Needed::Size(1)));
    }
    let shift: u8 = (7 - bp) as u8;
    let res: bool = (s[0] >> shift) & 1u8 == 1u8;
    assert(bp as int / 8 == 0 && bp as int % 8 == bp as int);
    assert(res == (bit_at(s@, bp as int) == 1));
    assert(s@.skip(0) =~= s@);
    if bp == 7 {
        Ok(((slice_subrange(s, 1, s.len()), 0), res))
    } else {
        Ok(((s, bp + 1), res))
    }
}

pub open spec fn spec_u16_bits(s: Seq<u8>, bp: int, n: nat) -> SpecBitsResult<u16> {
    match spec_take_bits(s, bp, n) {
        Ok((v, st)) => Ok((v as u16, st)),
        Err(e) => Err(e),
    }
}

pub open spec fn spec_u32_bits(s: Seq<u8>, bp: int, n: nat) -> SpecBitsResult<u32> {
    match spec_take_bits(s, bp, n) {
        Ok((v, st)) => Ok((v as u32, st)),
        Err(e) => Err(e),
    }
}

pub open spec fn spec_i16_bits(s: Seq<u8>, bp: int, n: nat) -> SpecBitsResult<i16> {
    match spec_take_bits(s, bp, n) {
        Ok((v, st)) => Ok((signed_bits(v, n) as i16, st)),
        Err(e) => Err(e),
    }
}

pub open spec fn spec_i32_bits(s: Seq<u8>, bp: int, n: nat) -> SpecBitsResult<i32> {
    match spec_take_bits(s, bp, n) {
        Ok((v, st)) => Ok((signed_bits(v, n) as i32, st)),
        Err(e) => Err(e),
    }
}

/// A bit parser's result is a well-formed bit input.
pub open spec fn bits_out_ok<T>(r: BResult<T>) -> bool {
    r matches Ok(((rest, pos), _)) ==> bit_input_ok(rest@, pos as int)
}

/// Parse the bit-encoded big-endian representation of an unsigned 16-bit integer
pub fn parse_u16_bits(input: (&[u8], usize), n: usize) -> (r: BResult<u16>)
    requires
        n <= 16,
        bit_input_ok(input.0@, input.1 as int),
    ensures
        bits_parsed_as(r, spec_u16_bits(input.0@, input.1 as int, n as nat)),
        bits_out_ok(r),
        r matches Ok((_, v)) ==> (v as nat) < pow2(n as nat),
{
    match take_bits(input, n) {
        Ok((st, v)) => {
            proof {
                vstd::arithmetic::power2::lemma_pow2_strictly_increases(n as nat, 17);
                lemma2_to64();
            }
            Ok((st, v as u16))
        },
        Err(e) => Err(e),
    }
}

/// Parse the bit-encoded big-endian representation of an unsigned 32-bit integer
pub fn parse_u32_bits(input: (&[u8], usize), n: usize) -> (r: BResult<u32>)
    requires
        n <= 32,
        bit_input_ok(input.0@, input.1 as int),
    ensures
        bits_parsed_as(r, spec_u32_bits(input.0@, input.1 as int, n as nat)),
        bits_out_ok(r),
        r matches Ok((_, v)) ==> (v as nat) < pow2(n as nat),
{
    match take_bits(input, n) {
        Ok((st, v)) => {
            proof {
                vstd::arithmetic::power2::lemma_pow2_strictly_increases(n as nat, 33);
                lemma2_to64();
            }
            Ok((st, v as u32))
        },
        Err(e) => Err(e),
    }
}

/// Signed reading of an unsigned value `v < 2^n`, as a machine integer.
fn to_signed(v: u64, n: usize) -> (r: i64)
    requires
        1 <= n <= 32,
        (v as nat) < pow2(n as nat),
    ensures
        r as int == signed_bits(v as nat, n as nat),
        -pow2((n - 1) as nat) <= r < pow2((n - 1) as nat),
{
    let half: u64 = pow2_u64(n - 1);
    let full: u64 = pow2_u64(n);
    proof {
        lemma_pow2_unfold(n as nat);
        vstd::arithmetic::power2::lemma_pow2_strictly_increases(n as nat, 33);
        lemma2_to64();
    }
    if v >= half {
        v as i64 - full as i64
    } else {
        v as i64
    }
}

/// Parse the bit-encoded big-endian representation of a signed 16-bit integer
pub fn parse_i16_bits(input: (&[u8], usize), n: usize) -> (r: BResult<i16>)
    requires
        n <= 16,
        bit_input_ok(input.0@, input.1 as int),
    ensures
        bits_parsed_as(r, spec_i16_bits(input.0@, input.1 as int, n as nat)),
        bits_out_ok(r),
{
    match take_bits(input, n) {
        Ok((st, v)) => {
            if n == 0 {
                return Ok((st, 0));
            }
            let x: i64 = to_signed(v, n);
            proof {
                vstd::arithmetic::power2::lemma_pow2_strictly_increases((n - 1) as nat, 16);
                if n == 16 {
                    assert((n - 1) as nat == 15);
                }
                lemma2_to64();
            }
            Ok((st, x as i16))
        },
        Err(e) => Err(e),
    }
}

/// Parse the bit-encoded big-endian representation of a signed 32-bit integer
pub fn parse_i32_bits(input: (&[u8], usize), n: usize) -> (r: BResult<i32>)
    requires
        n <= 32,
        bit_input_ok(input.0@, input.1 as int),
    ensures
        bits_parsed_as(r, spec_i32_bits(input.0@, input.1 as int, n as nat)),
        bits_out_ok(r),
{
    match take_bits(input, n) {
        Ok((st, v)) => {
            if n == 0 {
                return Ok((st, 0));
            }
            let x: i64 = to_signed(v, n);
            proof {
                if n < 32 {
                    vstd::arithmetic::power2::lemma_pow2_strictly_increases((n - 1) as nat, 31);
                }
                lemma2_to64();
            }
            Ok((st, x as i32))
        },
        Err(e) => Err(e),
    }
}

/// Skipping `n` bits: the number of bytes that the input must hold.
pub open spec fn bytes_for_bits(total: int) -> int {
    total / 8 + if total % 8 > 0 { 1int } else { 0int }
}

pub open spec fn spec_skip_bits(s: Seq<u8>, bp: int, n: nat) -> SpecBitsResult<()> {
    if s.len() * 8 - bp < n {
        Err(ParseError::Incomplete(Needed::Size(bytes_for_bits(bp + n) as usize)))
    } else {
        Ok(((), bits_rest(s, bp, n as int)))
    }
}

/// Skip `n` bits
pub fn skip_bits(input: (&[u8], usize), n: usize) -> (r: BResult<()>)
    requires
        bit_input_ok(input.0@, input.1 as int),
        input.1 + n <= usize::MAX,
    ensures
        bits_parsed_as(r, spec_skip_bits(input.0@, input.1 as int, n as nat)),
        bits_out_ok(r),
{
    let (s, bp) = input;
    let total: usize = bp + n;
    let needed_bytes: usize = total / 8 + if total % 8 > 0 { 1 } else { 0 };
    if s.len() < needed_bytes {
        Err(ParseError::Incomplete(Needed::Size(needed_bytes)))
    } else {
        Ok(((slice_subrange(s, total / 8, s.len()), total % 8), ()))
    }
}

/// Runs a bit parser on a byte input: a partially read last byte is skipped, and a
/// shortfall of `n` bits becomes a shortfall of `n / 8 + 1` bytes.
pub open spec fn spec_from_bits<V>(r: SpecBitsResult<V>) -> SpecResult<V> {
    match r {
        Ok((v, (rest, pos))) => Ok((v, if pos > 0 { rest.skip(1) } else { rest })),
        Err(ParseError::Incomplete(Needed::Size(n))) => Err(
            ParseError::Incomplete(Needed::Size((n / 8 + 1) as usize)),
        ),
        Err(e) => Err(e),
    }
}

/// Byte input after a bit parser ended at `(rest, pos)`.
pub fn bits_to_bytes<'a>(rest: &'a [u8], pos: usize) -> (r: &'a [u8])
    requires
        bit_input_ok(rest@, pos as int),
    ensures
        r@ == (if pos > 0 { rest@.skip(1) } else { rest@ }),
{
    if pos > 0 {
        slice_subrange(rest, 1, rest.len())
    } else {
        rest
    }
}

/// Error of a bit parser, seen from a byte parser.
pub fn bits_error_to_bytes(e: ParseError) -> (r: ParseError)
    ensures
        match e {
            ParseError::Incomplete(Needed::Size(n)) => r == ParseError::Incomplete(
                Needed::Size((n / 8 + 1) as usize),
            ),
            _ => r == e,
        },
{
    match e {
        ParseError::Incomplete(Needed::Size(n)) => ParseError::Incomplete(Needed::Size(n / 8 + 1)),
        _ => e,
    }
}

} // verus!

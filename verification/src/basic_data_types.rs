//! Basic SWF records: rectangles, colors, matrices, color transforms, fixed-point numbers.
use vstd::prelude::*;
use crate::ast::{
    ColorTransform, ColorTransformWithAlpha, LanguageCode, Matrix, NamedId, NamedIdModel, Rect, SRgb8,
    StraightSRgba8,
};
use crate::bits::{
    BResult, SpecBitsResult, bit_input_ok, bits_error_to_bytes, bits_out_ok, bits_parsed_as,
    bits_to_bytes, parse_bool_bits, parse_i16_bits, parse_i32_bits, parse_u16_bits, spec_bool_bits,
    spec_from_bits, spec_i16_bits, spec_i32_bits, spec_take_bits, spec_u16_bits, take_bits,
};
use crate::bytes::{
    parse_c_string, parse_le_i16, parse_le_i32, parse_le_u16, parse_u8, spec_c_string, spec_le_i16,
    spec_le_i32, spec_le_u16, spec_u8,
};
use crate::error::{Needed, ParseError, PResult, SpecResult, parsed_as};
use crate::fixed::{Sfixed8P8, Sfixed16P16, Ufixed8P8};

verus! {

pub open spec fn spec_fixed16_p16_bits(s: Seq<u8>, bp: int, n: nat) -> SpecBitsResult<Sfixed16P16> {
    match spec_i32_bits(s, bp, n) {
        Ok((v, st)) => Ok((Sfixed16P16 { epsilons: v }, st)),
        Err(e) => Err(e),
    }
}

pub open spec fn spec_fixed8_p8_bits(s: Seq<u8>, bp: int, n: nat) -> SpecBitsResult<Sfixed8P8> {
    match spec_i16_bits(s, bp, n) {
        Ok((v, st)) => Ok((Sfixed8P8 { epsilons: v }, st)),
        Err(e) => Err(e),
    }
}

/// Parse the bit-encoded big-endian representation of a signed fixed-point 16.16-bit number
pub fn parse_fixed16_p16_bits(input: (&[u8], usize), n: usize) -> (r: BResult<Sfixed16P16>)
    requires
        n <= 32,
        bit_input_ok(input.0@, input.1 as int),
    ensures
        bits_parsed_as(r, spec_fixed16_p16_bits(input.0@, input.1 as int, n as nat)),
        bits_out_ok(r),
{
    match parse_i32_bits(input, n) {
        Ok((st, v)) => Ok((st, Sfixed16P16::from_epsilons(v))),
        Err(e) => Err(e),
    }
}

/// Parse the bit-encoded big-endian representation of a signed fixed-point 8.8-bit number
pub fn parse_fixed8_p8_bits(input: (&[u8], usize), n: usize) -> (r: BResult<Sfixed8P8>)
    requires
        n <= 16,
        bit_input_ok(input.0@, input.1 as int),
    ensures
        bits_parsed_as(r, spec_fixed8_p8_bits(input.0@, input.1 as int, n as nat)),
        bits_out_ok(r),
{
    match parse_i16_bits(input, n) {
        Ok((st, v)) => Ok((st, Sfixed8P8::from_epsilons(v))),
        Err(e) => Err(e),
    }
}

pub open spec fn spec_le_ufixed8_p8(s: Seq<u8>) -> SpecResult<Ufixed8P8> {
    match spec_le_u16(s) {
        Ok((v, rest)) => Ok((Ufixed8P8 { epsilons: v }, rest)),
        Err(e) => Err(e),
    }
}

pub open spec fn spec_le_fixed8_p8(s: Seq<u8>) -> SpecResult<Sfixed8P8> {
    match spec_le_i16(s) {
        Ok((v, rest)) => Ok((Sfixed8P8 { epsilons: v }, rest)),
        Err(e) => Err(e),
    }
}

pub open spec fn spec_le_fixed16_p16(s: Seq<u8>) -> SpecResult<Sfixed16P16> {
    match spec_le_i32(s) {
        Ok((v, rest)) => Ok((Sfixed16P16 { epsilons: v }, rest)),
        Err(e) => Err(e),
    }
}

/// Parse the little-endian representation of an unsigned fixed-point 8.8-bit number
pub fn parse_le_ufixed8_p8(input: &[u8]) -> (r: PResult<Ufixed8P8>)
    ensures
        parsed_as(r, spec_le_ufixed8_p8(input@)),
{
    match parse_le_u16(input) {
        Ok((rest, v)) => Ok((rest, Ufixed8P8::from_epsilons(v))),
        Err(e) => Err(e),
    }
}

/// Parse the little-endian representation of a signed fixed-point 8.8-bit number
pub fn parse_le_fixed8_p8(input: &[u8]) -> (r: PResult<Sfixed8P8>)
    ensures
        parsed_as(r, spec_le_fixed8_p8(input@)),
{
    match parse_le_i16(input) {
        Ok((rest, v)) => Ok((rest, Sfixed8P8::from_epsilons(v))),
        Err(e) => Err(e),
    }
}

/// Parse the little-endian representation of a signed fixed-point 16.16-bit number
pub fn parse_le_fixed16_p16(input: &[u8]) -> (r: PResult<Sfixed16P16>)
    ensures
        parsed_as(r, spec_le_fixed16_p16(input@)),
{
    match parse_le_i32(input) {
        Ok((rest, v)) => Ok((rest, Sfixed16P16::from_epsilons(v))),
        Err(e) => Err(e),
    }
}

/// `rect : UINT_BITS(5, n) SINT_BITS(n) SINT_BITS(n) SINT_BITS(n) SINT_BITS(n)`
pub open spec fn spec_rect_bits(s: Seq<u8>, bp: int) -> SpecBitsResult<Rect> {
    match spec_take_bits(s, bp, 5) {
        Err(e) => Err(e),
        Ok((n, (s1, b1))) => match spec_i32_bits(s1, b1, n) {
            Err(e) => Err(e),
            Ok((x_min, (s2, b2))) => match spec_i32_bits(s2, b2, n) {
                Err(e) => Err(e),
                Ok((x_max, (s3, b3))) => match spec_i32_bits(s3, b3, n) {
                    Err(e) => Err(e),
                    Ok((y_min, (s4, b4))) => match spec_i32_bits(s4, b4, n) {
                        Err(e) => Err(e),
                        Ok((y_max, st)) => Ok((Rect { x_min, x_max, y_min, y_max }, st)),
                    },
                },
            },
        },
    }
}

pub fn parse_rect_bits(input: (&[u8], usize)) -> (r: BResult<Rect>)
    requires
        bit_input_ok(input.0@, input.1 as int),
    ensures
        bits_parsed_as(r, spec_rect_bits(input.0@, input.1 as int)),
        bits_out_ok(r),
{
    proof { vstd::arithmetic::power2::lemma2_to64(); }
    let (input, n) = match take_bits(input, 5) {
        Ok(ok) => ok,
        Err(e) => return Err(e),
    };
    let n: usize = n as usize;
    let (input, x_min) = match parse_i32_bits(input, n) {
        Ok(ok) => ok,
        Err(e) => return Err(e),
    };
    let (input, x_max) = match parse_i32_bits(input, n) {
        Ok(ok) => ok,
        Err(e) => return Err(e),
    };
    let (input, y_min) = match parse_i32_bits(input, n) {
        Ok(ok) => ok,
        Err(e) => return Err(e),
    };
    let (input, y_max) = match parse_i32_bits(input, n) {
        Ok(ok) => ok,
        Err(e) => return Err(e),
    };
    Ok((input, Rect { x_min, x_max, y_min, y_max }))
}

pub open spec fn spec_rect(s: Seq<u8>) -> SpecResult<Rect> {
    spec_from_bits(spec_rect_bits(s, 0))
}

pub fn parse_rect(input: &[u8]) -> (r: PResult<Rect>)
    ensures
        parsed_as(r, spec_rect(input@)),
{
    match parse_rect_bits((input, 0)) {
        Ok(((rest, pos), v)) => Ok((bits_to_bytes(rest, pos), v)),
        Err(e) => Err(bits_error_to_bytes(e)),
    }
}

pub open spec fn spec_s_rgb8(s: Seq<u8>) -> SpecResult<SRgb8> {
    if s.len() >= 3 {
        Ok((SRgb8 { r: s[0], g: s[1], b: s[2] }, s.skip(3)))
    } else {
        Err(ParseError::Incomplete(Needed::Size(1)))
    }
}

pub fn parse_s_rgb8(input: &[u8]) -> (r: PResult<SRgb8>)
    ensures
        parsed_as(r, spec_s_rgb8(input@)),
{
    let (input1, r) = parse_u8(input)?;
    let (input2, g) = parse_u8(input1)?;
    let (input3, b) = parse_u8(input2)?;
    assert(input3@ =~= input@.skip(3));
    Ok((input3, SRgb8 { r, g, b }))
}

pub open spec fn spec_straight_s_rgba8(s: Seq<u8>) -> SpecResult<StraightSRgba8> {
    if s.len() >= 4 {
        Ok((StraightSRgba8 { r: s[0], g: s[1], b: s[2], a: s[3] }, s.skip(4)))
    } else {
        Err(ParseError::Incomplete(Needed::Size(1)))
    }
}

pub fn parse_straight_s_rgba8(input: &[u8]) -> (r: PResult<StraightSRgba8>)
    ensures
        parsed_as(r, spec_straight_s_rgba8(input@)),
{
    let (input1, r) = parse_u8(input)?;
    let (input2, g) = parse_u8(input1)?;
    let (input3, b) = parse_u8(input2)?;
    let (input4, a) = parse_u8(input3)?;
    assert(input4@ =~= input@.skip(4));
    Ok((input4, StraightSRgba8 { r, g, b, a }))
}

pub open spec fn language_code_of(code: u8) -> Option<LanguageCode> {
    if code == 0 {
        Some(LanguageCode::Auto)
    } else if code == 1 {
        Some(LanguageCode::Latin)
    } else if code == 2 {
        Some(LanguageCode::Japanese)
    } else if code == 3 {
        Some(LanguageCode::Korean)
    } else if code == 4 {
        Some(LanguageCode::SimplifiedChinese)
    } else if code == 5 {
        Some(LanguageCode::TraditionalChinese)
    } else {
        None
    }
}

pub open spec fn spec_language_code(s: Seq<u8>) -> SpecResult<LanguageCode> {
    match spec_u8(s) {
        Err(e) => Err(e),
        Ok((code, rest)) => match language_code_of(code) {
            Some(l) => Ok((l, rest)),
            None => Err(ParseError::Error),
        },
    }
}

pub fn parse_language_code(input: &[u8]) -> (r: PResult<LanguageCode>)
    ensures
        parsed_as(r, spec_language_code(input@)),
{
    let (input, code) = parse_u8(input)?;
    let lang: LanguageCode = match code {
        0 => LanguageCode::Auto,
        1 => LanguageCode::Latin,
        2 => LanguageCode::Japanese,
        3 => LanguageCode::Korean,
        4 => LanguageCode::SimplifiedChinese,
        5 => LanguageCode::TraditionalChinese,
        _ => return Err(ParseError::Error),
    };
    Ok((input, lang))
}

/// Optional pair of 16.16 numbers over `UINT_BITS(5, n)` bits each, or `default` when absent.
pub open spec fn spec_matrix_pair_bits(s: Seq<u8>, bp: int, default: i32)
    -> SpecBitsResult<(Sfixed16P16, Sfixed16P16)>
{
    match spec_bool_bits(s, bp) {
        Err(e) => Err(e),
        Ok((present, (s1, b1))) => if !present {
            Ok(((Sfixed16P16 { epsilons: default }, Sfixed16P16 { epsilons: default }), (s1, b1)))
        } else {
            match spec_u16_bits(s1, b1, 5) {
                Err(e) => Err(e),
                Ok((n, (s2, b2))) => match spec_fixed16_p16_bits(s2, b2, n as nat) {
                    Err(e) => Err(e),
                    Ok((a, (s3, b3))) => match spec_fixed16_p16_bits(s3, b3, n as nat) {
                        Err(e) => Err(e),
                        Ok((b, st)) => Ok(((a, b), st)),
                    },
                },
            }
        },
    }
}

pub open spec fn spec_matrix_bits(s: Seq<u8>, bp: int) -> SpecBitsResult<Matrix> {
    match spec_matrix_pair_bits(s, bp, 65536) {
        Err(e) => Err(e),
        Ok(((scale_x, scale_y), (s1, b1))) => match spec_matrix_pair_bits(s1, b1, 0) {
            Err(e) => Err(e),
            Ok(((rotate_skew0, rotate_skew1), (s2, b2))) => match spec_u16_bits(s2, b2, 5) {
                Err(e) => Err(e),
                Ok((n, (s3, b3))) => match spec_i32_bits(s3, b3, n as nat) {
                    Err(e) => Err(e),
                    Ok((translate_x, (s4, b4))) => match spec_i32_bits(s4, b4, n as nat) {
                        Err(e) => Err(e),
                        Ok((translate_y, st)) => Ok((
                            Matrix { scale_x, scale_y, rotate_skew0, rotate_skew1, translate_x, translate_y },
                            st,
                        )),
                    },
                },
            },
        },
    }
}

fn parse_matrix_pair_bits(input: (&[u8], usize), default: i32)
    -> (r: BResult<(Sfixed16P16, Sfixed16P16)>)
    requires
        bit_input_ok(input.0@, input.1 as int),
    ensures
        match (r, spec_matrix_pair_bits(input.0@, input.1 as int, default)) {
            (Ok(((rest, pos), v)), Ok((m, (srest, spos)))) => rest@ == srest && pos == spos && v == m
                && bit_input_ok(rest@, pos as int),
            (Err(e1), Err(e2)) => e1 == e2,
            _ => false,
        },
{
    proof { vstd::arithmetic::power2::lemma2_to64(); }
    let (input, present) = match parse_bool_bits(input) {
        Ok(ok) => ok,
        Err(e) => return Err(e),
    };
    if !present {
        return Ok((input, (Sfixed16P16::from_epsilons(default), Sfixed16P16::from_epsilons(default))));
    }
    let (input, n) = match parse_u16_bits(input, 5) {
        Ok(ok) => ok,
        Err(e) => return Err(e),
    };
    let (input, a) = match parse_fixed16_p16_bits(input, n as usize) {
        Ok(ok) => ok,
        Err(e) => return Err(e),
    };
    let (input, b) = match parse_fixed16_p16_bits(input, n as usize) {
        Ok(ok) => ok,
        Err(e) => return Err(e),
    };
    Ok((input, (a, b)))
}

pub fn parse_matrix_bits(input: (&[u8], usize)) -> (r: BResult<Matrix>)
    requires
        bit_input_ok(input.0@, input.1 as int),
    ensures
        bits_parsed_as(r, spec_matrix_bits(input.0@, input.1 as int)),
        bits_out_ok(r),
{
    proof { vstd::arithmetic::power2::lemma2_to64(); }
    let (input, (scale_x, scale_y)) = match parse_matrix_pair_bits(input, 65536) {
        Ok(ok) => ok,
        Err(e) => return Err(e),
    };
    let (input, (rotate_skew0, rotate_skew1)) = match parse_matrix_pair_bits(input, 0) {
        Ok(ok) => ok,
        Err(e) => return Err(e),
    };
    let (input, n) = match parse_u16_bits(input, 5) {
        Ok(ok) => ok,
        Err(e) => return Err(e),
    };
    let (input, translate_x) = match parse_i32_bits(input, n as usize) {
        Ok(ok) => ok,
        Err(e) => return Err(e),
    };
    let (input, translate_y) = match parse_i32_bits(input, n as usize) {
        Ok(ok) => ok,
        Err(e) => return Err(e),
    };
    Ok((input, Matrix { scale_x, scale_y, rotate_skew0, rotate_skew1, translate_x, translate_y }))
}

#[verifier::opaque]
pub open spec fn spec_matrix(s: Seq<u8>) -> SpecResult<Matrix> {
    spec_from_bits(spec_matrix_bits(s, 0))
}

pub fn parse_matrix(input: &[u8]) -> (r: PResult<Matrix>)
    ensures
        parsed_as(r, spec_matrix(input@)),
{
    reveal(spec_matrix);
    match parse_matrix_bits((input, 0)) {
        Ok(((rest, pos), v)) => Ok((bits_to_bytes(rest, pos), v)),
        Err(e) => Err(bits_error_to_bytes(e)),
    }
}

/// Up to four 8.8 multipliers over `n` bits each when `present`, else `1.0`.
pub open spec fn spec_mults_bits(s: Seq<u8>, bp: int, present: bool, n: nat, count: nat)
    -> SpecBitsResult<Seq<Sfixed8P8>>
    decreases count,
{
    if count == 0 {
        Ok((Seq::empty(), (s, bp)))
    } else if !present {
        match spec_mults_bits(s, bp, present, n, (count - 1) as nat) {
            Err(e) => Err(e),
            Ok((vs, st)) => Ok((vs.push(Sfixed8P8 { epsilons: 256 }), st)),
        }
    } else {
        match spec_mults_bits(s, bp, present, n, (count - 1) as nat) {
            Err(e) => Err(e),
            Ok((vs, (s1, b1))) => match spec_fixed8_p8_bits(s1, b1, n) {
                Err(e) => Err(e),
                Ok((v, st)) => Ok((vs.push(v), st)),
            },
        }
    }
}

/// Up to four signed additive terms over `n` bits each when `present`, else `0`.
pub open spec fn spec_adds_bits(s: Seq<u8>, bp: int, present: bool, n: nat, count: nat)
    -> SpecBitsResult<Seq<i16>>
    decreases count,
{
    if count == 0 {
        Ok((Seq::empty(), (s, bp)))
    } else if !present {
        match spec_adds_bits(s, bp, present, n, (count - 1) as nat) {
            Err(e) => Err(e),
            Ok((vs, st)) => Ok((vs.push(0i16), st)),
        }
    } else {
        match spec_adds_bits(s, bp, present, n, (count - 1) as nat) {
            Err(e) => Err(e),
            Ok((vs, (s1, b1))) => match spec_i16_bits(s1, b1, n) {
                Err(e) => Err(e),
                Ok((v, st)) => Ok((vs.push(v), st)),
            },
        }
    }
}

/// Color transform terms for `count` channels (3 without alpha, 4 with alpha):
/// `BOOL_BITS(has_add) BOOL_BITS(has_mult) UINT_BITS(4, n) mult* add*`.
pub open spec fn spec_cxform_terms_bits(s: Seq<u8>, bp: int, count: nat)
    -> SpecBitsResult<(Seq<Sfixed8P8>, Seq<i16>)>
{
    match spec_bool_bits(s, bp) {
        Err(e) => Err(e),
        Ok((has_add, (s1, b1))) => match spec_bool_bits(s1, b1) {
            Err(e) => Err(e),
            Ok((has_mult, (s2, b2))) => match spec_u16_bits(s2, b2, 4) {
                Err(e) => Err(e),
                Ok((n, (s3, b3))) => match spec_mults_bits(s3, b3, has_mult, n as nat, count) {
                    Err(e) => Err(e),
                    Ok((mults, (s4, b4))) => match spec_adds_bits(s4, b4, has_add, n as nat, count) {
                        Err(e) => Err(e),
                        Ok((adds, st)) => Ok(((mults, adds), st)),
                    },
                },
            },
        },
    }
}

fn parse_mults_bits(input: (&[u8], usize), present: bool, n: usize, count: usize)
    -> (r: Result<((&[u8], usize), Vec<Sfixed8P8>), ParseError>)
    requires
        n <= 16,
        bit_input_ok(input.0@, input.1 as int),
    ensures
        match (r, spec_mults_bits(input.0@, input.1 as int, present, n as nat, count as nat)) {
            (Ok(((rest, pos), v)), Ok((m, (srest, spos)))) => rest@ == srest && pos == spos && v@ == m
                && bit_input_ok(rest@, pos as int),
            (Err(e1), Err(e2)) => e1 == e2,
            _ => false,
        },
{
    let mut out: Vec<Sfixed8P8> = Vec::new();
    let mut cur: (&[u8], usize) = input;
    let mut k: usize = 0;
    while k < count
        invariant
            k <= count,
            n <= 16,
            bit_input_ok(cur.0@, cur.1 as int),
            spec_mults_bits(input.0@, input.1 as int, present, n as nat, k as nat)
                == Ok::<_, ParseError>((out@, (cur.0@, cur.1 as int))),
        decreases count - k,
    {
        if present {
            match parse_fixed8_p8_bits(cur, n) {
                Ok((next, v)) => {
                    out.push(v);
                    cur = next;
                },
                Err(e) => {
                    proof { lemma_mults_err(input.0@, input.1 as int, present, n as nat, (k + 1) as nat, count as nat); }
                    return Err(e);
                },
            }
        } else {
            out.push(Sfixed8P8::one());
        }
        k = k + 1;
    }
    Ok((cur, out))
}

proof fn lemma_mults_err(s: Seq<u8>, bp: int, present: bool, n: nat, k: nat, count: nat)
    requires
        k <= count,
        spec_mults_bits(s, bp, present, n, k) is Err,
    ensures
        spec_mults_bits(s, bp, present, n, count) == spec_mults_bits(s, bp, present, n, k),
    decreases count - k,
{
    if k < count {
        lemma_mults_err(s, bp, present, n, k, (count - 1) as nat);
    }
}

proof fn lemma_adds_err(s: Seq<u8>, bp: int, present: bool, n: nat, k: nat, count: nat)
    requires
        k <= count,
        spec_adds_bits(s, bp, present, n, k) is Err,
    ensures
        spec_adds_bits(s, bp, present, n, count) == spec_adds_bits(s, bp, present, n, k),
    decreases count - k,
{
    if k < count {
        lemma_adds_err(s, bp, present, n, k, (count - 1) as nat);
    }
}

fn parse_adds_bits(input: (&[u8], usize), present: bool, n: usize, count: usize)
    -> (r: Result<((&[u8], usize), Vec<i16>), ParseError>)
    requires
        n <= 16,
        bit_input_ok(input.0@, input.1 as int),
    ensures
        match (r, spec_adds_bits(input.0@, input.1 as int, present, n as nat, count as nat)) {
            (Ok(((rest, pos), v)), Ok((m, (srest, spos)))) => rest@ == srest && pos == spos && v@ == m
                && bit_input_ok(rest@, pos as int),
            (Err(e1), Err(e2)) => e1 == e2,
            _ => false,
        },
{
    let mut out: Vec<i16> = Vec::new();
    let mut cur: (&[u8], usize) = input;
    let mut k: usize = 0;
    while k < count
        invariant
            k <= count,
            n <= 16,
            bit_input_ok(cur.0@, cur.1 as int),
            spec_adds_bits(input.0@, input.1 as int, present, n as nat, k as nat)
                == Ok::<_, ParseError>((out@, (cur.0@, cur.1 as int))),
        decreases count - k,
    {
        if present {
            match parse_i16_bits(cur, n) {
                Ok((next, v)) => {
                    out.push(v);
                    cur = next;
                },
                Err(e) => {
                    proof { lemma_adds_err(input.0@, input.1 as int, present, n as nat, (k + 1) as nat, count as nat); }
                    return Err(e);
                },
            }
        } else {
            out.push(0);
        }
        k = k + 1;
    }
    Ok((cur, out))
}

fn parse_cxform_terms_bits(input: (&[u8], usize), count: usize)
    -> (r: Result<((&[u8], usize), (Vec<Sfixed8P8>, Vec<i16>)), ParseError>)
    requires
        bit_input_ok(input.0@, input.1 as int),
    ensures
        match (r, spec_cxform_terms_bits(input.0@, input.1 as int, count as nat)) {
            (Ok(((rest, pos), (m, a))), Ok(((sm, sa), (srest, spos)))) => rest@ == srest && pos == spos
                && m@ == sm && a@ == sa && bit_input_ok(rest@, pos as int),
            (Err(e1), Err(e2)) => e1 == e2,
            _ => false,
        },
{
    proof { vstd::arithmetic::power2::lemma2_to64(); }
    let (input, has_add) = match parse_bool_bits(input) {
        Ok(ok) => ok,
        Err(e) => return Err(e),
    };
    let (input, has_mult) = match parse_bool_bits(input) {
        Ok(ok) => ok,
        Err(e) => return Err(e),
    };
    let (input, n) = match parse_u16_bits(input, 4) {
        Ok(ok) => ok,
        Err(e) => return Err(e),
    };
    let (input, mults) = match parse_mults_bits(input, has_mult, n as usize, count) {
        Ok(ok) => ok,
        Err(e) => return Err(e),
    };
    let (input, adds) = match parse_adds_bits(input, has_add, n as usize, count) {
        Ok(ok) => ok,
        Err(e) => return Err(e),
    };
    Ok((input, (mults, adds)))
}

pub open spec fn spec_color_transform_bits(s: Seq<u8>, bp: int) -> SpecBitsResult<ColorTransform> {
    match spec_cxform_terms_bits(s, bp, 3) {
        Err(e) => Err(e),
        Ok(((m, a), st)) => Ok((
            ColorTransform {
                red_mult: m[0],
                green_mult: m[1],
                blue_mult: m[2],
                red_add: a[0],
                green_add: a[1],
                blue_add: a[2],
            },
            st,
        )),
    }
}

pub open spec fn spec_color_transform_with_alpha_bits(s: Seq<u8>, bp: int)
    -> SpecBitsResult<ColorTransformWithAlpha>
{
    match spec_cxform_terms_bits(s, bp, 4) {
        Err(e) => Err(e),
        Ok(((m, a), st)) => Ok((
            ColorTransformWithAlpha {
                red_mult: m[0],
                green_mult: m[1],
                blue_mult: m[2],
                alpha_mult: m[3],
                red_add: a[0],
                green_add: a[1],
                blue_add: a[2],
                alpha_add: a[3],
            },
            st,
        )),
    }
}

proof fn lemma_terms_len(s: Seq<u8>, bp: int, count: nat)
    ensures
        spec_cxform_terms_bits(s, bp, count) matches Ok(((m, a), _)) ==> m.len() == count
            && a.len() == count,
{
    if let Ok((has_add, (s1, b1))) = spec_bool_bits(s, bp) {
        if let Ok((has_mult, (s2, b2))) = spec_bool_bits(s1, b1) {
            if let Ok((n, (s3, b3))) = spec_u16_bits(s2, b2, 4) {
                lemma_mults_len(s3, b3, has_mult, n as nat, count);
                if let Ok((mults, (s4, b4))) = spec_mults_bits(s3, b3, has_mult, n as nat, count) {
                    lemma_adds_len(s4, b4, has_add, n as nat, count);
                }
            }
        }
    }
}

proof fn lemma_mults_len(s: Seq<u8>, bp: int, present: bool, n: nat, count: nat)
    ensures
        spec_mults_bits(s, bp, present, n, count) matches Ok((m, _)) ==> m.len() == count,
    decreases count,
{
    if count > 0 {
        lemma_mults_len(s, bp, present, n, (count - 1) as nat);
    }
}

proof fn lemma_adds_len(s: Seq<u8>, bp: int, present: bool, n: nat, count: nat)
    ensures
        spec_adds_bits(s, bp, present, n, count) matches Ok((m, _)) ==> m.len() == count,
    decreases count,
{
    if count > 0 {
        lemma_adds_len(s, bp, present, n, (count - 1) as nat);
    }
}

pub fn parse_color_transform_bits(input: (&[u8], usize)) -> (r: BResult<ColorTransform>)
    requires
        bit_input_ok(input.0@, input.1 as int),
    ensures
        bits_parsed_as(r, spec_color_transform_bits(input.0@, input.1 as int)),
        bits_out_ok(r),
{
    proof { lemma_terms_len(input.0@, input.1 as int, 3); }
    let (input, (m, a)) = match parse_cxform_terms_bits(input, 3) {
        Ok(ok) => ok,
        Err(e) => return Err(e),
    };
    Ok((
        input,
        ColorTransform {
            red_mult: m[0],
            green_mult: m[1],
            blue_mult: m[2],
            red_add: a[0],
            green_add: a[1],
            blue_add: a[2],
        },
    ))
}

pub fn parse_color_transform_with_alpha_bits(input: (&[u8], usize))
    -> (r: BResult<ColorTransformWithAlpha>)
    requires
        bit_input_ok(input.0@, input.1 as int),
    ensures
        bits_parsed_as(r, spec_color_transform_with_alpha_bits(input.0@, input.1 as int)),
        bits_out_ok(r),
{
    proof { lemma_terms_len(input.0@, input.1 as int, 4); }
    let (input, (m, a)) = match parse_cxform_terms_bits(input, 4) {
        Ok(ok) => ok,
        Err(e) => return Err(e),
    };
    Ok((
        input,
        ColorTransformWithAlpha {
            red_mult: m[0],
            green_mult: m[1],
            blue_mult: m[2],
            alpha_mult: m[3],
            red_add: a[0],
            green_add: a[1],
            blue_add: a[2],
            alpha_add: a[3],
        },
    ))
}

#[verifier::opaque]
pub open spec fn spec_color_transform(s: Seq<u8>) -> SpecResult<ColorTransform> {
    spec_from_bits(spec_color_transform_bits(s, 0))
}

pub fn parse_color_transform(input: &[u8]) -> (r: PResult<ColorTransform>)
    ensures
        parsed_as(r, spec_color_transform(input@)),
{
    reveal(spec_color_transform);
    match parse_color_transform_bits((input, 0)) {
        Ok(((rest, pos), v)) => Ok((bits_to_bytes(rest, pos), v)),
        Err(e) => Err(bits_error_to_bytes(e)),
    }
}

#[verifier::opaque]
pub open spec fn spec_color_transform_with_alpha(s: Seq<u8>) -> SpecResult<ColorTransformWithAlpha> {
    spec_from_bits(spec_color_transform_with_alpha_bits(s, 0))
}

pub fn parse_color_transform_with_alpha(input: &[u8]) -> (r: PResult<ColorTransformWithAlpha>)
    ensures
        parsed_as(r, spec_color_transform_with_alpha(input@)),
{
    reveal(spec_color_transform_with_alpha);
    match parse_color_transform_with_alpha_bits((input, 0)) {
        Ok(((rest, pos), v)) => Ok((bits_to_bytes(rest, pos), v)),
        Err(e) => Err(bits_error_to_bytes(e)),
    }
}

pub open spec fn spec_named_id(s: Seq<u8>) -> SpecResult<NamedIdModel> {
    match spec_le_u16(s) {
        Err(e) => Err(e),
        Ok((id, s1)) => match spec_c_string(s1) {
            Err(e) => Err(e),
            Ok((name, rest)) => Ok((NamedIdModel { id, name }, rest)),
        },
    }
}

pub fn parse_named_id(input: &[u8]) -> (r: PResult<NamedId>)
    ensures
        parsed_as(r, spec_named_id(input@)),
{
    let (input, id) = parse_le_u16(input)?;
    let (input, name) = parse_c_string(input)?;
    Ok((input, NamedId { id, name }))
}

} // verus!

//! Morph shapes: shapes given at the start and at the end of a morph, with their
//! styles, and the tags that define them.
use vstd::prelude::*;
use vstd::slice::slice_subrange;
use crate::ast::{Matrix, Rect, StraightSRgba8};
use crate::basic_data_types::{
    parse_le_fixed8_p8, parse_matrix, parse_rect, parse_straight_s_rgba8, spec_le_fixed8_p8,
    spec_matrix, spec_rect, spec_straight_s_rgba8,
};
use crate::bytes::{parse_le_u16_c, parse_u8, parse_u8_c, spec_u8, u16_c, u8_c};
use crate::bits::{
    BResult, SpecBitsResult, bit_input_ok, bits_error_to_bytes, bits_out_ok, bits_parsed_as, bits_to_bytes, parse_bool_bits,
    parse_u16_bits, spec_bool_bits, spec_from_bits, spec_take_bits, spec_u16_bits, take_bits,
};
use crate::error::{Needed, ParseError, PResult, SpecResult, parsed_as, sbind, spec_complete};
use crate::fixed::Sfixed8P8;
use crate::shape::{
    CapStyle, ColorSpace, ColorStop, GradientSpread, JoinStyle, cap_style_from_id, cap_style_of,
    parse_color_stop,
    Edge, Vector2D, bits_advanced, bytes_at, parse_curved_edge_bits, parse_straight_edge_bits,
    shortfall_without_size, spec_curved_edge_bits, spec_straight_edge_bits, unsized_shortfall, parse_list_length, parse_move_to_bits, parse_opt_index_bits,
    parse_style_change_flags_bits, spec_color_stop, spec_list_length, spec_move_to_bits,
    spec_opt_index_bits, spec_style_change_flags_bits,
};

verus! {

/// Version of a morph shape definition.
#[derive(Clone, Copy, Debug, PartialEq, Eq, PartialOrd, Ord, Hash, Structural)]
pub enum MorphShapeVersion {
    MorphShape1,
    MorphShape2,
}



// ---------------------------------------------------------------------------
// Gradients
// ---------------------------------------------------------------------------

/// A color stop at the start and at the end of the morph.
#[derive(Clone, Copy, Debug, PartialEq, Eq, Structural)]
pub struct MorphColorStop {
    pub ratio: u8,
    pub color: StraightSRgba8,
    pub morph_ratio: u8,
    pub morph_color: StraightSRgba8,
}

impl DeepView for MorphColorStop {
    type V = MorphColorStop;
    open spec fn deep_view(&self) -> MorphColorStop { *self }
}

#[derive(Clone, Debug, PartialEq, Eq)]
pub struct MorphGradient {
    pub spread: GradientSpread,
    pub color_space: ColorSpace,
    pub colors: Vec<MorphColorStop>,
}

pub struct MorphGradientModel {
    pub spread: GradientSpread,
    pub color_space: ColorSpace,
    pub colors: Seq<MorphColorStop>,
}

impl DeepView for MorphGradient {
    type V = MorphGradientModel;
    open spec fn deep_view(&self) -> MorphGradientModel {
        MorphGradientModel { spread: self.spread, color_space: self.color_space, colors: self.colors.deep_view() }
    }
}

/// `morphColorStop : colorStop colorStop`, the start stop then the end stop.
pub open spec fn spec_morph_color_stop(s: Seq<u8>, with_alpha: bool) -> SpecResult<MorphColorStop> {
    sbind(spec_color_stop(s, with_alpha), |start: ColorStop, s1: Seq<u8>|
    sbind(spec_color_stop(s1, with_alpha), |end: ColorStop, s2: Seq<u8>|
        Ok((MorphColorStop { ratio: start.ratio, color: start.color, morph_ratio: end.ratio, morph_color: end.color }, s2))))
}

pub fn parse_morph_color_stop(input: &[u8], with_alpha: bool) -> (r: PResult<MorphColorStop>)
    ensures
        parsed_as(r, spec_morph_color_stop(input@, with_alpha)),
{
    let (input, start) = parse_color_stop(input, with_alpha)?;
    let (input, end) = parse_color_stop(input, with_alpha)?;
    Ok((input, MorphColorStop { ratio: start.ratio, color: start.color, morph_ratio: end.ratio, morph_color: end.color }))
}

pub open spec fn spec_morph_color_stops(s: Seq<u8>, with_alpha: bool, count: nat) -> SpecResult<Seq<MorphColorStop>>
    decreases count,
{
    if count == 0 {
        Ok((Seq::empty(), s))
    } else {
        sbind(spec_morph_color_stops(s, with_alpha, (count - 1) as nat), |vs: Seq<MorphColorStop>, s1: Seq<u8>|
        sbind(spec_morph_color_stop(s1, with_alpha), |v: MorphColorStop, s2: Seq<u8>| Ok((vs.push(v), s2))))
    }
}

proof fn lemma_morph_color_stops_err(s: Seq<u8>, with_alpha: bool, k: nat, count: nat)
    requires
        k <= count,
        spec_morph_color_stops(s, with_alpha, k) is Err,
    ensures
        spec_morph_color_stops(s, with_alpha, count) == spec_morph_color_stops(s, with_alpha, k),
    decreases count - k,
{
    if k < count {
        lemma_morph_color_stops_err(s, with_alpha, k, (count - 1) as nat);
    }
}

fn parse_morph_color_stops(input: &[u8], with_alpha: bool, count: usize) -> (r: PResult<Vec<MorphColorStop>>)
    ensures
        parsed_as(r, spec_morph_color_stops(input@, with_alpha, count as nat)),
{
    let mut out: Vec<MorphColorStop> = Vec::new();
    assert(out.deep_view() =~= Seq::<MorphColorStop>::empty());
    let mut cur: &[u8] = input;
    let mut k: usize = 0;
    while k < count
        invariant
            k <= count,
            spec_morph_color_stops(input@, with_alpha, k as nat) == Ok::<_, ParseError>((out.deep_view(), cur@)),
        decreases count - k,
    {
        match parse_morph_color_stop(cur, with_alpha) {
            Ok((next, v)) => {
                let ghost old_out = out.deep_view();
                out.push(v);
                assert(out.deep_view() =~= old_out.push(v));
                cur = next;
            },
            Err(e) => {
                proof { lemma_morph_color_stops_err(input@, with_alpha, (k + 1) as nat, count as nat); }
                return Err(e);
            },
        }
        k = k + 1;
    }
    Ok((cur, out))
}

/// `morphGradient : UINT8 morphColorStop*`: the flag byte holds the spread (2 bits, 3 is
/// invalid), the color space (2 bits, only 0 and 1 are valid) and the number of stops
/// (4 bits).
pub open spec fn spec_morph_gradient(s: Seq<u8>, with_alpha: bool) -> SpecResult<MorphGradientModel> {
    sbind(spec_u8(s), |flags: u8, s1: Seq<u8>| {
        let spread_id = flags / 64;
        let color_space_id = (flags % 64) / 16;
        if spread_id == 3 || color_space_id > 1 {
            Err(ParseError::Error)
        } else {
            sbind(spec_morph_color_stops(s1, with_alpha, (flags % 16) as nat), |colors: Seq<MorphColorStop>, s2: Seq<u8>|
                Ok((
                    MorphGradientModel {
                        spread: if spread_id == 0 {
                            GradientSpread::Pad
                        } else if spread_id == 1 {
                            GradientSpread::Reflect
                        } else {
                            GradientSpread::Repeat
                        },
                        color_space: if color_space_id == 0 { ColorSpace::SRgb } else { ColorSpace::LinearRgb },
                        colors,
                    },
                    s2,
                )))
        }
    })
}

pub fn parse_morph_gradient(input: &[u8], with_alpha: bool) -> (r: PResult<MorphGradient>)
    ensures
        parsed_as(r, spec_morph_gradient(input@, with_alpha)),
{
    let (rest, flags) = parse_u8(input)?;
    let spread_id: u8 = flags / 64;
    let color_space_id: u8 = (flags % 64) / 16;
    let spread = if spread_id == 0 {
        GradientSpread::Pad
    } else if spread_id == 1 {
        GradientSpread::Reflect
    } else if spread_id == 2 {
        GradientSpread::Repeat
    } else {
        return Err(ParseError::Error);
    };
    let color_space = if color_space_id == 0 {
        ColorSpace::SRgb
    } else if color_space_id == 1 {
        ColorSpace::LinearRgb
    } else {
        return Err(ParseError::Error);
    };
    let (rest, colors) = parse_morph_color_stops(rest, with_alpha, (flags % 16) as usize)?;
    Ok((rest, MorphGradient { spread, color_space, colors }))
}

// ---------------------------------------------------------------------------
// Fill styles
// ---------------------------------------------------------------------------

#[derive(Clone, Copy, Debug, PartialEq, Eq, Structural)]
pub struct MorphBitmapFill {
    pub bitmap_id: u16,
    pub matrix: Matrix,
    pub morph_matrix: Matrix,
    pub repeating: bool,
    pub smoothed: bool,
}

#[derive(Clone, Debug, PartialEq, Eq)]
pub struct MorphFocalGradientFill {
    pub matrix: Matrix,
    pub morph_matrix: Matrix,
    pub gradient: MorphGradient,
    pub focal_point: Sfixed8P8,
    pub morph_focal_point: Sfixed8P8,
}

#[derive(Clone, Debug, PartialEq, Eq)]
pub struct MorphLinearGradientFill {
    pub matrix: Matrix,
    pub morph_matrix: Matrix,
    pub gradient: MorphGradient,
}

#[derive(Clone, Debug, PartialEq, Eq)]
pub struct MorphRadialGradientFill {
    pub matrix: Matrix,
    pub morph_matrix: Matrix,
    pub gradient: MorphGradient,
}

#[derive(Clone, Copy, Debug, PartialEq, Eq, Structural)]
pub struct MorphSolidFill {
    pub color: StraightSRgba8,
    pub morph_color: StraightSRgba8,
}

#[derive(Clone, Debug, PartialEq, Eq)]
pub enum MorphFillStyle {
    Bitmap(MorphBitmapFill),
    FocalGradient(MorphFocalGradientFill),
    LinearGradient(MorphLinearGradientFill),
    RadialGradient(MorphRadialGradientFill),
    Solid(MorphSolidFill),
}

pub enum MorphFillStyleModel {
    Bitmap(MorphBitmapFill),
    FocalGradient {
        matrix: Matrix,
        morph_matrix: Matrix,
        gradient: MorphGradientModel,
        focal_point: Sfixed8P8,
        morph_focal_point: Sfixed8P8,
    },
    LinearGradient { matrix: Matrix, morph_matrix: Matrix, gradient: MorphGradientModel },
    RadialGradient { matrix: Matrix, morph_matrix: Matrix, gradient: MorphGradientModel },
    Solid(MorphSolidFill),
}

impl DeepView for MorphFillStyle {
    type V = MorphFillStyleModel;
    open spec fn deep_view(&self) -> MorphFillStyleModel {
        match self {
            MorphFillStyle::Bitmap(b) => MorphFillStyleModel::Bitmap(*b),
            MorphFillStyle::FocalGradient(f) => MorphFillStyleModel::FocalGradient {
                matrix: f.matrix,
                morph_matrix: f.morph_matrix,
                gradient: f.gradient.deep_view(),
                focal_point: f.focal_point,
                morph_focal_point: f.morph_focal_point,
            },
            MorphFillStyle::LinearGradient(f) => MorphFillStyleModel::LinearGradient {
                matrix: f.matrix,
                morph_matrix: f.morph_matrix,
                gradient: f.gradient.deep_view(),
            },
            MorphFillStyle::RadialGradient(f) => MorphFillStyleModel::RadialGradient {
                matrix: f.matrix,
                morph_matrix: f.morph_matrix,
                gradient: f.gradient.deep_view(),
            },
            MorphFillStyle::Solid(f) => MorphFillStyleModel::Solid(*f),
        }
    }
}

/// Start and end colors of a solid fill.
pub open spec fn spec_morph_solid_fill(s: Seq<u8>) -> SpecResult<MorphSolidFill> {
    sbind(spec_straight_s_rgba8(s), |color: StraightSRgba8, s1: Seq<u8>|
    sbind(spec_straight_s_rgba8(s1), |morph_color: StraightSRgba8, s2: Seq<u8>|
        Ok((MorphSolidFill { color, morph_color }, s2))))
}

pub fn parse_morph_solid_fill(input: &[u8]) -> (r: PResult<MorphSolidFill>)
    ensures
        match (r, spec_morph_solid_fill(input@)) {
            (Ok((rest, v)), Ok((m, srest))) => rest@ == srest && v == m,
            (Err(e1), Err(e2)) => e1 == e2,
            _ => false,
        },
{
    let (input, color) = parse_straight_s_rgba8(input)?;
    let (input, morph_color) = parse_straight_s_rgba8(input)?;
    Ok((input, MorphSolidFill { color, morph_color }))
}

/// A morph fill style: a type byte (solid, linear, radial or focal gradient, or one of
/// the four bitmap fills), then its start and end data.
#[verifier::opaque]
pub open spec fn spec_morph_fill_style(s: Seq<u8>) -> SpecResult<MorphFillStyleModel> {
    sbind(u8_c(s), |code: u8, s1: Seq<u8>|
        if code == 0x00 {
            sbind(spec_morph_solid_fill(s1), |f: MorphSolidFill, s2: Seq<u8>| Ok((MorphFillStyleModel::Solid(f), s2)))
        } else if code == 0x10 || code == 0x12 || code == 0x13 {
            sbind(spec_matrix(s1), |matrix: Matrix, s2: Seq<u8>|
            sbind(spec_matrix(s2), |morph_matrix: Matrix, s3: Seq<u8>|
            sbind(spec_morph_gradient(s3, true), |gradient: MorphGradientModel, s4: Seq<u8>|
                if code == 0x10 {
                    Ok((MorphFillStyleModel::LinearGradient { matrix, morph_matrix, gradient }, s4))
                } else if code == 0x12 {
                    Ok((MorphFillStyleModel::RadialGradient { matrix, morph_matrix, gradient }, s4))
                } else {
                    sbind(spec_le_fixed8_p8(s4), |focal_point: Sfixed8P8, s5: Seq<u8>|
                    sbind(spec_le_fixed8_p8(s5), |morph_focal_point: Sfixed8P8, s6: Seq<u8>|
                        Ok((
                            MorphFillStyleModel::FocalGradient { matrix, morph_matrix, gradient, focal_point, morph_focal_point },
                            s6,
                        ))))
                })))
        } else if 0x40 <= code <= 0x43 {
            sbind(u16_c(s1), |bitmap_id: u16, s2: Seq<u8>|
            sbind(spec_matrix(s2), |matrix: Matrix, s3: Seq<u8>|
            sbind(spec_matrix(s3), |morph_matrix: Matrix, s4: Seq<u8>|
                Ok((
                    MorphFillStyleModel::Bitmap(MorphBitmapFill {
                        bitmap_id,
                        matrix,
                        morph_matrix,
                        repeating: code % 2 == 0,
                        smoothed: code < 0x42,
                    }),
                    s4,
                )))))
        } else {
            Err(ParseError::Error)
        })
}

/// The start and end matrices and the gradient of a gradient fill.
pub open spec fn spec_morph_matrices_gradient(s: Seq<u8>) -> SpecResult<(Matrix, Matrix, MorphGradientModel)> {
    sbind(spec_matrix(s), |matrix: Matrix, s1: Seq<u8>|
    sbind(spec_matrix(s1), |morph_matrix: Matrix, s2: Seq<u8>|
    sbind(spec_morph_gradient(s2, true), |gradient: MorphGradientModel, s3: Seq<u8>|
        Ok(((matrix, morph_matrix, gradient), s3)))))
}

pub fn parse_morph_linear_gradient_fill(input: &[u8]) -> (r: PResult<MorphLinearGradientFill>)
    ensures
        match (r, spec_morph_matrices_gradient(input@)) {
            (Ok((rest, f)), Ok(((m, mm, g), srest))) => rest@ == srest && f.matrix == m && f.morph_matrix == mm
                && f.gradient.deep_view() == g,
            (Err(e1), Err(e2)) => e1 == e2,
            _ => false,
        },
{
    let (input, matrix) = parse_matrix(input)?;
    let (input, morph_matrix) = parse_matrix(input)?;
    let (input, gradient) = parse_morph_gradient(input, true)?;
    Ok((input, MorphLinearGradientFill { matrix, morph_matrix, gradient }))
}

pub fn parse_morph_radial_gradient_fill(input: &[u8]) -> (r: PResult<MorphRadialGradientFill>)
    ensures
        match (r, spec_morph_matrices_gradient(input@)) {
            (Ok((rest, f)), Ok(((m, mm, g), srest))) => rest@ == srest && f.matrix == m && f.morph_matrix == mm
                && f.gradient.deep_view() == g,
            (Err(e1), Err(e2)) => e1 == e2,
            _ => false,
        },
{
    let (input, matrix) = parse_matrix(input)?;
    let (input, morph_matrix) = parse_matrix(input)?;
    let (input, gradient) = parse_morph_gradient(input, true)?;
    Ok((input, MorphRadialGradientFill { matrix, morph_matrix, gradient }))
}

/// A focal gradient fill: matrices, gradient, then the start and end focal points.
pub open spec fn spec_morph_focal_gradient_fill(s: Seq<u8>) -> SpecResult<MorphFillStyleModel> {
    sbind(spec_morph_matrices_gradient(s), |p: (Matrix, Matrix, MorphGradientModel), s1: Seq<u8>|
    sbind(spec_le_fixed8_p8(s1), |focal_point: Sfixed8P8, s2: Seq<u8>|
    sbind(spec_le_fixed8_p8(s2), |morph_focal_point: Sfixed8P8, s3: Seq<u8>|
        Ok((
            MorphFillStyleModel::FocalGradient {
                matrix: p.0,
                morph_matrix: p.1,
                gradient: p.2,
                focal_point,
                morph_focal_point,
            },
            s3,
        )))))
}

pub fn parse_morph_focal_gradient_fill(input: &[u8]) -> (r: PResult<MorphFocalGradientFill>)
    ensures
        match (r, spec_morph_focal_gradient_fill(input@)) {
            (Ok((rest, f)), Ok((m, srest))) => rest@ == srest && MorphFillStyle::FocalGradient(f).deep_view() == m,
            (Err(e1), Err(e2)) => e1 == e2,
            _ => false,
        },
{
    let (input, matrix) = parse_matrix(input)?;
    let (input, morph_matrix) = parse_matrix(input)?;
    let (input, gradient) = parse_morph_gradient(input, true)?;
    let (input, focal_point) = parse_le_fixed8_p8(input)?;
    let (input, morph_focal_point) = parse_le_fixed8_p8(input)?;
    Ok((input, MorphFocalGradientFill { matrix, morph_matrix, gradient, focal_point, morph_focal_point }))
}

/// A bitmap fill: the bitmap id and the start and end matrices.
pub open spec fn spec_morph_bitmap_fill(s: Seq<u8>, repeating: bool, smoothed: bool) -> SpecResult<MorphBitmapFill> {
    sbind(u16_c(s), |bitmap_id: u16, s1: Seq<u8>|
    sbind(spec_matrix(s1), |matrix: Matrix, s2: Seq<u8>|
    sbind(spec_matrix(s2), |morph_matrix: Matrix, s3: Seq<u8>|
        Ok((MorphBitmapFill { bitmap_id, matrix, morph_matrix, repeating, smoothed }, s3)))))
}

pub fn parse_morph_bitmap_fill(input: &[u8], repeating: bool, smoothed: bool) -> (r: PResult<MorphBitmapFill>)
    ensures
        match (r, spec_morph_bitmap_fill(input@, repeating, smoothed)) {
            (Ok((rest, f)), Ok((m, srest))) => rest@ == srest && f == m,
            (Err(e1), Err(e2)) => e1 == e2,
            _ => false,
        },
{
    let (input, bitmap_id) = parse_le_u16_c(input)?;
    let (input, matrix) = parse_matrix(input)?;
    let (input, morph_matrix) = parse_matrix(input)?;
    Ok((input, MorphBitmapFill { bitmap_id, matrix, morph_matrix, repeating, smoothed }))
}

pub fn parse_morph_fill_style(input: &[u8]) -> (r: PResult<MorphFillStyle>)
    ensures
        parsed_as(r, spec_morph_fill_style(input@)),
{
    reveal(spec_morph_fill_style);
    let (input, code) = parse_u8_c(input)?;
    if code == 0x00 {
        let (input, f) = parse_morph_solid_fill(input)?;
        Ok((input, MorphFillStyle::Solid(f)))
    } else if code == 0x10 {
        let (input, f) = parse_morph_linear_gradient_fill(input)?;
        Ok((input, MorphFillStyle::LinearGradient(f)))
    } else if code == 0x12 {
        let (input, f) = parse_morph_radial_gradient_fill(input)?;
        Ok((input, MorphFillStyle::RadialGradient(f)))
    } else if code == 0x13 {
        let (input, f) = parse_morph_focal_gradient_fill(input)?;
        Ok((input, MorphFillStyle::FocalGradient(f)))
    } else if 0x40 <= code && code <= 0x43 {
        let (input, f) = parse_morph_bitmap_fill(input, code % 2 == 0, code < 0x42)?;
        Ok((input, MorphFillStyle::Bitmap(f)))
    } else {
        Err(ParseError::Error)
    }
}

/// `count` consecutive fill styles.
pub open spec fn spec_morph_fill_styles(s: Seq<u8>, count: nat) -> SpecResult<Seq<MorphFillStyleModel>>
    decreases count,
{
    if count == 0 {
        Ok((Seq::empty(), s))
    } else {
        sbind(spec_morph_fill_styles(s, (count - 1) as nat), |vs: Seq<MorphFillStyleModel>, s1: Seq<u8>|
        sbind(spec_morph_fill_style(s1), |v: MorphFillStyleModel, s2: Seq<u8>| Ok((vs.push(v), s2))))
    }
}

proof fn lemma_morph_fill_styles_err(s: Seq<u8>, k: nat, count: nat)
    requires
        k <= count,
        spec_morph_fill_styles(s, k) is Err,
    ensures
        spec_morph_fill_styles(s, count) == spec_morph_fill_styles(s, k),
    decreases count - k,
{
    if k < count {
        lemma_morph_fill_styles_err(s, k, (count - 1) as nat);
    }
}

fn parse_morph_fill_styles(input: &[u8], count: usize) -> (r: PResult<Vec<MorphFillStyle>>)
    ensures
        parsed_as(r, spec_morph_fill_styles(input@, count as nat)),
{
    let mut out: Vec<MorphFillStyle> = Vec::new();
    assert(out.deep_view() =~= Seq::<MorphFillStyleModel>::empty());
    let mut cur: &[u8] = input;
    let mut k: usize = 0;
    while k < count
        invariant
            k <= count,
            spec_morph_fill_styles(input@, k as nat) == Ok::<_, ParseError>((out.deep_view(), cur@)),
        decreases count - k,
    {
        match parse_morph_fill_style(cur) {
            Ok((next, v)) => {
                let ghost old_out = out.deep_view();
                let ghost vm = v.deep_view();
                out.push(v);
                assert(out.deep_view() =~= old_out.push(vm));
                cur = next;
            },
            Err(e) => {
                proof { lemma_morph_fill_styles_err(input@, (k + 1) as nat, count as nat); }
                return Err(e);
            },
        }
        k = k + 1;
    }
    Ok((cur, out))
}

/// `morphFillStyleList : listLength morphFillStyle*` (extended lengths allowed).
pub open spec fn spec_morph_fill_style_list(s: Seq<u8>) -> SpecResult<Seq<MorphFillStyleModel>> {
    sbind(spec_list_length(s, true), |count: usize, s1: Seq<u8>| spec_morph_fill_styles(s1, count as nat))
}

pub fn parse_morph_fill_style_list(input: &[u8]) -> (r: PResult<Vec<MorphFillStyle>>)
    ensures
        parsed_as(r, spec_morph_fill_style_list(input@)),
{
    let (input, count) = parse_list_length(input, true)?;
    parse_morph_fill_styles(input, count)
}

// ---------------------------------------------------------------------------
// Line styles
// ---------------------------------------------------------------------------

#[derive(Clone, Debug, PartialEq, Eq)]
pub struct MorphLineStyle {
    pub width: u16,
    pub morph_width: u16,
    pub start_cap: CapStyle,
    pub end_cap: CapStyle,
    pub join: JoinStyle,
    pub no_h_scale: bool,
    pub no_v_scale: bool,
    pub no_close: bool,
    pub pixel_hinting: bool,
    pub fill: MorphFillStyle,
}

pub struct MorphLineStyleModel {
    pub width: u16,
    pub morph_width: u16,
    pub start_cap: CapStyle,
    pub end_cap: CapStyle,
    pub join: JoinStyle,
    pub no_h_scale: bool,
    pub no_v_scale: bool,
    pub no_close: bool,
    pub pixel_hinting: bool,
    pub fill: MorphFillStyleModel,
}

impl DeepView for MorphLineStyle {
    type V = MorphLineStyleModel;
    open spec fn deep_view(&self) -> MorphLineStyleModel {
        MorphLineStyleModel {
            width: self.width,
            morph_width: self.morph_width,
            start_cap: self.start_cap,
            end_cap: self.end_cap,
            join: self.join,
            no_h_scale: self.no_h_scale,
            no_v_scale: self.no_v_scale,
            no_close: self.no_close,
            pixel_hinting: self.pixel_hinting,
            fill: self.fill.deep_view(),
        }
    }
}

/// A line style of the first version: start and end widths and colors; round caps and
/// joins, no flags.
pub open spec fn spec_morph_line_style1(s: Seq<u8>) -> SpecResult<MorphLineStyleModel> {
    sbind(u16_c(s), |width: u16, s1: Seq<u8>|
    sbind(u16_c(s1), |morph_width: u16, s2: Seq<u8>|
    sbind(spec_morph_solid_fill(s2), |f: MorphSolidFill, s3: Seq<u8>|
        Ok((
            MorphLineStyleModel {
                width,
                morph_width,
                start_cap: CapStyle::Round,
                end_cap: CapStyle::Round,
                join: JoinStyle::Round,
                no_h_scale: false,
                no_v_scale: false,
                no_close: false,
                pixel_hinting: false,
                fill: MorphFillStyleModel::Solid(f),
            },
            s3,
        )))))
}

pub fn parse_morph_line_style1(input: &[u8]) -> (r: PResult<MorphLineStyle>)
    ensures
        parsed_as(r, spec_morph_line_style1(input@)),
{
    let (input, width) = parse_le_u16_c(input)?;
    let (input, morph_width) = parse_le_u16_c(input)?;
    let (input, f) = parse_morph_solid_fill(input)?;
    Ok((
        input,
        MorphLineStyle {
            width,
            morph_width,
            start_cap: CapStyle::Round,
            end_cap: CapStyle::Round,
            join: JoinStyle::Round,
            no_h_scale: false,
            no_v_scale: false,
            no_close: false,
            pixel_hinting: false,
            fill: MorphFillStyle::Solid(f),
        },
    ))
}

/// The join of a line style of the second version: round, bevel, or miter with its
/// limit; the fourth code is refused.
pub open spec fn spec_morph_join(s: Seq<u8>, join_id: u16) -> SpecResult<JoinStyle> {
    if join_id == 0 {
        Ok((JoinStyle::Round, s))
    } else if join_id == 1 {
        Ok((JoinStyle::Bevel, s))
    } else if join_id == 2 {
        sbind(u16_c(s), |limit: u16, s1: Seq<u8>| Ok((JoinStyle::Miter(limit), s1)))
    } else {
        Err(ParseError::Error)
    }
}

/// The fill of a line style of the second version: a fill style, or start and end
/// colors.
pub open spec fn spec_morph_line_fill(s: Seq<u8>, has_fill: bool) -> SpecResult<MorphFillStyleModel> {
    if has_fill {
        spec_morph_fill_style(s)
    } else {
        sbind(spec_morph_solid_fill(s), |f: MorphSolidFill, s1: Seq<u8>| Ok((MorphFillStyleModel::Solid(f), s1)))
    }
}

/// A line style of the second version: start and end widths, a `UINT16_LE` of flags
/// (pixel hinting, no vertical scale, no horizontal scale, has fill, 2-bit join, 2-bit
/// start cap, 2-bit end cap, no close, from the low bit up), the miter limit of a miter
/// join, then the fill.
#[verifier::opaque]
pub open spec fn spec_morph_line_style2(s: Seq<u8>) -> SpecResult<MorphLineStyleModel> {
    sbind(u16_c(s), |width: u16, s1: Seq<u8>|
    sbind(u16_c(s1), |morph_width: u16, s2: Seq<u8>|
    sbind(u16_c(s2), |flags: u16, s3: Seq<u8>|
        match (cap_style_of((flags >> 6u16) & 3u16), cap_style_of((flags >> 8u16) & 3u16)) {
            (Some(start_cap), Some(end_cap)) =>
                sbind(spec_morph_join(s3, (flags >> 4u16) & 3u16), |join: JoinStyle, s4: Seq<u8>|
                sbind(spec_morph_line_fill(s4, flags & 8u16 != 0), |fill: MorphFillStyleModel, s5: Seq<u8>|
                    Ok((
                        MorphLineStyleModel {
                            width,
                            morph_width,
                            start_cap,
                            end_cap,
                            join,
                            no_h_scale: flags & 4u16 != 0,
                            no_v_scale: flags & 2u16 != 0,
                            no_close: flags & 1024u16 != 0,
                            pixel_hinting: flags & 1u16 != 0,
                            fill,
                        },
                        s5,
                    )))),
            _ => Err(ParseError::Error),
        })))
}

pub fn parse_morph_line_style2(input: &[u8]) -> (r: PResult<MorphLineStyle>)
    ensures
        parsed_as(r, spec_morph_line_style2(input@)),
{
    reveal(spec_morph_line_style2);
    let (input, width) = parse_le_u16_c(input)?;
    let (input, morph_width) = parse_le_u16_c(input)?;
    let (input, flags) = parse_le_u16_c(input)?;
    // Bits 11 to 15 are skipped.
    let start_cap = match cap_style_from_id((flags >> 6u16) & 3u16) {
        Some(c) => c,
        None => return Err(ParseError::Error),
    };
    let end_cap = match cap_style_from_id((flags >> 8u16) & 3u16) {
        Some(c) => c,
        None => return Err(ParseError::Error),
    };
    let join_id: u16 = (flags >> 4u16) & 3u16;
    let (input, join) = if join_id == 0 {
        (input, JoinStyle::Round)
    } else if join_id == 1 {
        (input, JoinStyle::Bevel)
    } else if join_id == 2 {
        let (input, limit) = parse_le_u16_c(input)?;
        (input, JoinStyle::Miter(limit))
    } else {
        return Err(ParseError::Error);
    };
    let (input, fill) = if flags & 8u16 != 0 {
        parse_morph_fill_style(input)?
    } else {
        let (input, f) = parse_morph_solid_fill(input)?;
        (input, MorphFillStyle::Solid(f))
    };
    Ok((
        input,
        MorphLineStyle {
            width,
            morph_width,
            start_cap,
            end_cap,
            join,
            no_h_scale: flags & 4u16 != 0,
            no_v_scale: flags & 2u16 != 0,
            no_close: flags & 1024u16 != 0,
            pixel_hinting: flags & 1u16 != 0,
            fill,
        },
    ))
}

/// One line style of the given version.
pub open spec fn spec_morph_line_style(s: Seq<u8>, version: MorphShapeVersion) -> SpecResult<MorphLineStyleModel> {
    if version == MorphShapeVersion::MorphShape2 { spec_morph_line_style2(s) } else { spec_morph_line_style1(s) }
}

fn parse_morph_line_style(input: &[u8], version: MorphShapeVersion) -> (r: PResult<MorphLineStyle>)
    ensures
        parsed_as(r, spec_morph_line_style(input@, version)),
{
    match version {
        MorphShapeVersion::MorphShape2 => parse_morph_line_style2(input),
        MorphShapeVersion::MorphShape1 => parse_morph_line_style1(input),
    }
}

pub open spec fn spec_morph_line_styles(s: Seq<u8>, version: MorphShapeVersion, count: nat) -> SpecResult<Seq<MorphLineStyleModel>>
    decreases count,
{
    if count == 0 {
        Ok((Seq::empty(), s))
    } else {
        sbind(spec_morph_line_styles(s, version, (count - 1) as nat), |vs: Seq<MorphLineStyleModel>, s1: Seq<u8>|
        sbind(spec_morph_line_style(s1, version), |v: MorphLineStyleModel, s2: Seq<u8>| Ok((vs.push(v), s2))))
    }
}

proof fn lemma_morph_line_styles_err(s: Seq<u8>, version: MorphShapeVersion, k: nat, count: nat)
    requires
        k <= count,
        spec_morph_line_styles(s, version, k) is Err,
    ensures
        spec_morph_line_styles(s, version, count) == spec_morph_line_styles(s, version, k),
    decreases count - k,
{
    if k < count {
        lemma_morph_line_styles_err(s, version, k, (count - 1) as nat);
    }
}

fn parse_morph_line_styles(input: &[u8], version: MorphShapeVersion, count: usize) -> (r: PResult<Vec<MorphLineStyle>>)
    ensures
        parsed_as(r, spec_morph_line_styles(input@, version, count as nat)),
{
    let mut out: Vec<MorphLineStyle> = Vec::new();
    assert(out.deep_view() =~= Seq::<MorphLineStyleModel>::empty());
    let mut cur: &[u8] = input;
    let mut k: usize = 0;
    while k < count
        invariant
            k <= count,
            spec_morph_line_styles(input@, version, k as nat) == Ok::<_, ParseError>((out.deep_view(), cur@)),
        decreases count - k,
    {
        match parse_morph_line_style(cur, version) {
            Ok((next, v)) => {
                let ghost old_out = out.deep_view();
                let ghost vm = v.deep_view();
                out.push(v);
                assert(out.deep_view() =~= old_out.push(vm));
                cur = next;
            },
            Err(e) => {
                proof { lemma_morph_line_styles_err(input@, version, (k + 1) as nat, count as nat); }
                return Err(e);
            },
        }
        k = k + 1;
    }
    Ok((cur, out))
}

/// `morphLineStyleList : listLength morphLineStyle*` (extended lengths allowed).
pub open spec fn spec_morph_line_style_list(s: Seq<u8>, version: MorphShapeVersion) -> SpecResult<Seq<MorphLineStyleModel>> {
    sbind(spec_list_length(s, true), |count: usize, s1: Seq<u8>| spec_morph_line_styles(s1, version, count as nat))
}

pub fn parse_morph_line_style_list(input: &[u8], version: MorphShapeVersion) -> (r: PResult<Vec<MorphLineStyle>>)
    ensures
        parsed_as(r, spec_morph_line_style_list(input@, version)),
{
    let (input, count) = parse_list_length(input, true)?;
    parse_morph_line_styles(input, version, count)
}

// ---------------------------------------------------------------------------
// Styles at a bit position
// ---------------------------------------------------------------------------

#[derive(Clone, Debug, PartialEq, Eq)]
pub struct MorphShapeStyles {
    pub fill: Vec<MorphFillStyle>,
    pub line: Vec<MorphLineStyle>,
}

pub struct MorphShapeStylesModel {
    pub fill: Seq<MorphFillStyleModel>,
    pub line: Seq<MorphLineStyleModel>,
}

impl DeepView for MorphShapeStyles {
    type V = MorphShapeStylesModel;
    open spec fn deep_view(&self) -> MorphShapeStylesModel {
        MorphShapeStylesModel { fill: self.fill.deep_view(), line: self.line.deep_view() }
    }
}

/// Styles and the bit widths of the style indices that follow them.
#[derive(Clone, Debug, PartialEq, Eq)]
pub struct MorphStylesBits {
    pub styles: MorphShapeStyles,
    pub fill_bits: usize,
    pub line_bits: usize,
}

pub struct MorphStylesBitsModel {
    pub styles: MorphShapeStylesModel,
    pub fill_bits: usize,
    pub line_bits: usize,
}

impl DeepView for MorphStylesBits {
    type V = MorphStylesBitsModel;
    open spec fn deep_view(&self) -> MorphStylesBitsModel {
        MorphStylesBitsModel { styles: self.styles.deep_view(), fill_bits: self.fill_bits, line_bits: self.line_bits }
    }
}

/// An error of a byte parser run from a bit position: a shortfall of `n` bytes is one of
/// `8 * n` bits (an error when that count overflows).
pub open spec fn byte_error_as_bits(e: ParseError) -> ParseError {
    match e {
        ParseError::Incomplete(Needed::Size(n)) => if n * 8 <= usize::MAX {
            ParseError::Incomplete(Needed::Size((n * 8) as usize))
        } else {
            ParseError::Error
        },
        _ => e,
    }
}

fn byte_error_into_bits(e: ParseError) -> (r: ParseError)
    ensures
        r == byte_error_as_bits(e),
{
    match e {
        ParseError::Incomplete(Needed::Size(n)) => match n.checked_mul(8) {
            Some(v) => ParseError::Incomplete(Needed::Size(v)),
            None => ParseError::Error,
        },
        _ => e,
    }
}

/// Fill styles and line styles (bytes, from the next byte boundary), then the bit
/// widths of fill and line style indices (4 bits each).
#[verifier::opaque]
pub open spec fn spec_morph_shape_styles_bits(s: Seq<u8>, bp: int, version: MorphShapeVersion)
    -> SpecBitsResult<MorphStylesBitsModel>
{
    match spec_morph_fill_style_list(bytes_at(s, bp)) {
        Err(e) => Err(byte_error_as_bits(e)),
        Ok((fill, b1)) => match spec_morph_line_style_list(b1, version) {
            Err(e) => Err(byte_error_as_bits(e)),
            Ok((line, b2)) => match spec_take_bits(b2, 0, 4) {
                Err(e) => Err(e),
                Ok((fill_bits, (s3, p3))) => match spec_take_bits(s3, p3, 4) {
                    Err(e) => Err(e),
                    Ok((line_bits, st)) => Ok((
                        MorphStylesBitsModel {
                            styles: MorphShapeStylesModel { fill, line },
                            fill_bits: fill_bits as usize,
                            line_bits: line_bits as usize,
                        },
                        st,
                    )),
                },
            },
        },
    }
}

pub fn parse_morph_shape_styles_bits(input: (&[u8], usize), version: MorphShapeVersion) -> (r: BResult<MorphStylesBits>)
    requires
        bit_input_ok(input.0@, input.1 as int),
    ensures
        bits_parsed_as(r, spec_morph_shape_styles_bits(input.0@, input.1 as int, version)),
        bits_out_ok(r),
        r matches Ok((_, st)) ==> st.fill_bits < 16 && st.line_bits < 16,
{
    reveal(spec_morph_shape_styles_bits);
    let bytes: &[u8] = bits_to_bytes(input.0, input.1);
    let (b1, fill) = match parse_morph_fill_style_list(bytes) {
        Ok(ok) => ok,
        Err(e) => return Err(byte_error_into_bits(e)),
    };
    let (b2, line) = match parse_morph_line_style_list(b1, version) {
        Ok(ok) => ok,
        Err(e) => return Err(byte_error_into_bits(e)),
    };
    let (st, fill_bits) = take_bits((b2, 0), 4)?;
    let (st, line_bits) = take_bits(st, 4)?;
    proof {
        vstd::arithmetic::power2::lemma2_to64();
    }
    Ok((
        st,
        MorphStylesBits {
            styles: MorphShapeStyles { fill, line },
            fill_bits: fill_bits as usize,
            line_bits: line_bits as usize,
        },
    ))
}

// ---------------------------------------------------------------------------
// Records
// ---------------------------------------------------------------------------

#[derive(Clone, Debug, PartialEq, Eq)]
pub struct MorphStyleChange {
    pub move_to: Option<Vector2D>,
    pub morph_move_to: Option<Vector2D>,
    pub left_fill: Option<usize>,
    pub right_fill: Option<usize>,
    pub line_style: Option<usize>,
    pub new_styles: Option<MorphShapeStyles>,
}

pub struct MorphStyleChangeModel {
    pub move_to: Option<Vector2D>,
    pub morph_move_to: Option<Vector2D>,
    pub left_fill: Option<usize>,
    pub right_fill: Option<usize>,
    pub line_style: Option<usize>,
    pub new_styles: Option<MorphShapeStylesModel>,
}

impl DeepView for MorphStyleChange {
    type V = MorphStyleChangeModel;
    open spec fn deep_view(&self) -> MorphStyleChangeModel {
        MorphStyleChangeModel {
            move_to: self.move_to,
            morph_move_to: self.morph_move_to,
            left_fill: self.left_fill,
            right_fill: self.right_fill,
            line_style: self.line_style,
            new_styles: self.new_styles.deep_view(),
        }
    }
}

/// A style change and the style index widths that hold after it.
#[derive(Clone, Debug, PartialEq, Eq)]
pub struct MorphStyleChangeBits {
    pub change: MorphStyleChange,
    pub fill_bits: usize,
    pub line_bits: usize,
}

pub struct MorphStyleChangeBitsModel {
    pub change: MorphStyleChangeModel,
    pub fill_bits: usize,
    pub line_bits: usize,
}

impl DeepView for MorphStyleChangeBits {
    type V = MorphStyleChangeBitsModel;
    open spec fn deep_view(&self) -> MorphStyleChangeBitsModel {
        MorphStyleChangeBitsModel { change: self.change.deep_view(), fill_bits: self.fill_bits, line_bits: self.line_bits }
    }
}

/// Style change record (after its type bit): flags, optional move, optional left fill,
/// right fill (on `fill_bits` bits) and line style (on `line_bits` bits), optional new
/// styles, which bring new index widths. The move of the end shape is not read here.
#[verifier::opaque]
pub open spec fn spec_morph_style_change_bits(
    s: Seq<u8>,
    bp: int,
    fill_bits: usize,
    line_bits: usize,
    version: MorphShapeVersion,
) -> SpecBitsResult<MorphStyleChangeBitsModel> {
    match spec_style_change_flags_bits(s, bp) {
        Err(e) => Err(e),
        Ok((flags, (s1, b1))) => match spec_move_to_bits(s1, b1, flags.has_move_to) {
            Err(e) => Err(e),
            Ok((move_to, (s2, b2))) => match spec_opt_index_bits(s2, b2, flags.change_left_fill, fill_bits as nat) {
                Err(e) => Err(e),
                Ok((left_fill, (s3, b3))) => match spec_opt_index_bits(s3, b3, flags.change_right_fill, fill_bits as nat) {
                    Err(e) => Err(e),
                    Ok((right_fill, (s4, b4))) => match spec_opt_index_bits(s4, b4, flags.change_line_style, line_bits as nat) {
                        Err(e) => Err(e),
                        Ok((line_style, (s5, b5))) => if flags.new_styles {
                            match spec_morph_shape_styles_bits(s5, b5, version) {
                                Err(e) => Err(e),
                                Ok((styles, st)) => Ok((
                                    MorphStyleChangeBitsModel {
                                        change: MorphStyleChangeModel {
                                            move_to,
                                            morph_move_to: None,
                                            left_fill,
                                            right_fill,
                                            line_style,
                                            new_styles: Some(styles.styles),
                                        },
                                        fill_bits: styles.fill_bits,
                                        line_bits: styles.line_bits,
                                    },
                                    st,
                                )),
                            }
                        } else {
                            Ok((
                                MorphStyleChangeBitsModel {
                                    change: MorphStyleChangeModel {
                                        move_to,
                                        morph_move_to: None,
                                        left_fill,
                                        right_fill,
                                        line_style,
                                        new_styles: None,
                                    },
                                    fill_bits,
                                    line_bits,
                                },
                                (s5, b5),
                            ))
                        },
                    },
                },
            },
        },
    }
}

pub fn parse_morph_style_change_bits(
    input: (&[u8], usize),
    fill_bits: usize,
    line_bits: usize,
    version: MorphShapeVersion,
) -> (r: BResult<MorphStyleChangeBits>)
    requires
        bit_input_ok(input.0@, input.1 as int),
        fill_bits <= 16,
        line_bits <= 16,
    ensures
        bits_parsed_as(r, spec_morph_style_change_bits(input.0@, input.1 as int, fill_bits, line_bits, version)),
        bits_out_ok(r),
        r matches Ok((_, c)) ==> c.fill_bits <= 16 && c.line_bits <= 16,
{
    reveal(spec_morph_style_change_bits);
    let (st, flags) = parse_style_change_flags_bits(input)?;
    let (st, move_to) = parse_move_to_bits(st, flags.has_move_to)?;
    let (st, left_fill) = parse_opt_index_bits(st, flags.change_left_fill, fill_bits)?;
    let (st, right_fill) = parse_opt_index_bits(st, flags.change_right_fill, fill_bits)?;
    let (st, line_style) = parse_opt_index_bits(st, flags.change_line_style, line_bits)?;
    if flags.new_styles {
        let (st, styles) = parse_morph_shape_styles_bits(st, version)?;
        let MorphStylesBits { styles, fill_bits, line_bits } = styles;
        Ok((
            st,
            MorphStyleChangeBits {
                change: MorphStyleChange {
                    move_to,
                    morph_move_to: None,
                    left_fill,
                    right_fill,
                    line_style,
                    new_styles: Some(styles),
                },
                fill_bits,
                line_bits,
            },
        ))
    } else {
        Ok((
            st,
            MorphStyleChangeBits {
                change: MorphStyleChange {
                    move_to,
                    morph_move_to: None,
                    left_fill,
                    right_fill,
                    line_style,
                    new_styles: None,
                },
                fill_bits,
                line_bits,
            },
        ))
    }
}

/// A record of the start shape, before it is paired with the end shape.
#[derive(Clone, Debug, PartialEq, Eq)]
pub enum MixedRecord {
    Edge(Edge),
    StyleChange(MorphStyleChange),
}

pub enum MixedRecordModel {
    Edge(Edge),
    StyleChange(MorphStyleChangeModel),
}

impl DeepView for MixedRecord {
    type V = MixedRecordModel;
    open spec fn deep_view(&self) -> MixedRecordModel {
        match self {
            MixedRecord::Edge(e) => MixedRecordModel::Edge(*e),
            MixedRecord::StyleChange(c) => MixedRecordModel::StyleChange(c.deep_view()),
        }
    }
}

/// A record and the style index widths that hold after it.
pub struct MixedBits {
    pub record: MixedRecord,
    pub fill_bits: usize,
    pub line_bits: usize,
}

pub struct MixedBitsModel {
    pub record: MixedRecordModel,
    pub fill_bits: usize,
    pub line_bits: usize,
}

impl DeepView for MixedBits {
    type V = MixedBitsModel;
    open spec fn deep_view(&self) -> MixedBitsModel {
        MixedBitsModel { record: self.record.deep_view(), fill_bits: self.fill_bits, line_bits: self.line_bits }
    }
}

/// The rest of a record after its edge flag: a straight flag and an edge, or a style
/// change.
#[verifier::opaque]
pub open spec fn spec_mixed_body_bits(
    s: Seq<u8>,
    bp: int,
    is_edge: bool,
    fill_bits: usize,
    line_bits: usize,
    version: MorphShapeVersion,
) -> SpecBitsResult<MixedBitsModel> {
    if is_edge {
        match spec_bool_bits(s, bp) {
            Err(e) => Err(unsized_shortfall(e)),
            Ok((is_straight, (s2, b2))) => {
                let edge_r = if is_straight { spec_straight_edge_bits(s2, b2) } else { spec_curved_edge_bits(s2, b2) };
                match edge_r {
                    Err(e) => Err(e),
                    Ok((edge, st)) => Ok((MixedBitsModel { record: MixedRecordModel::Edge(edge), fill_bits, line_bits }, st)),
                }
            },
        }
    } else {
        match spec_morph_style_change_bits(s, bp, fill_bits, line_bits, version) {
            Err(e) => Err(e),
            Ok((c, st)) => Ok((
                MixedBitsModel {
                    record: MixedRecordModel::StyleChange(c.change),
                    fill_bits: c.fill_bits,
                    line_bits: c.line_bits,
                },
                st,
            )),
        }
    }
}

fn parse_mixed_body_bits(
    input: (&[u8], usize),
    is_edge: bool,
    fill_bits: usize,
    line_bits: usize,
    version: MorphShapeVersion,
) -> (r: BResult<MixedBits>)
    requires
        bit_input_ok(input.0@, input.1 as int),
        fill_bits <= 16,
        line_bits <= 16,
    ensures
        bits_parsed_as(r, spec_mixed_body_bits(input.0@, input.1 as int, is_edge, fill_bits, line_bits, version)),
        bits_out_ok(r),
        r matches Ok((_, c)) ==> c.fill_bits <= 16 && c.line_bits <= 16,
{
    reveal(spec_mixed_body_bits);
    if is_edge {
        let (st, is_straight) = match parse_bool_bits(input) {
            Ok(ok) => ok,
            Err(e) => return Err(shortfall_without_size(e)),
        };
        let (st, edge) = if is_straight { parse_straight_edge_bits(st)? } else { parse_curved_edge_bits(st)? };
        Ok((st, MixedBits { record: MixedRecord::Edge(edge), fill_bits, line_bits }))
    } else {
        let (st, c) = parse_morph_style_change_bits(input, fill_bits, line_bits, version)?;
        let MorphStyleChangeBits { change, fill_bits, line_bits } = c;
        Ok((st, MixedBits { record: MixedRecord::StyleChange(change), fill_bits, line_bits }))
    }
}

/// Records of the start shape up to its end record (six zero bits); shortfalls while
/// reading the type bits are reported without a size, and a record that would read no
/// bits is an error.
pub open spec fn spec_morph_shape_start_record_string_bits(
    s: Seq<u8>,
    bp: int,
    fill_bits: usize,
    line_bits: usize,
    version: MorphShapeVersion,
) -> SpecBitsResult<Seq<MixedRecordModel>>
    decreases s.len(), 8 - bp,
{
    match spec_u16_bits(s, bp, 6) {
        Err(e) => Err(unsized_shortfall(e)),
        Ok((head, st)) => if head == 0 {
            Ok((Seq::empty(), st))
        } else {
            match spec_bool_bits(s, bp) {
                Err(e) => Err(unsized_shortfall(e)),
                Ok((is_edge, (s1, b1))) => match spec_mixed_body_bits(s1, b1, is_edge, fill_bits, line_bits, version) {
                    Err(e) => Err(e),
                    Ok((rec, (rest, rbp))) => if bits_advanced(s, bp, rest, rbp) && bp < 8 {
                        match spec_morph_shape_start_record_string_bits(rest, rbp, rec.fill_bits, rec.line_bits, version) {
                            Err(e) => Err(e),
                            Ok((others, st2)) => Ok((seq![rec.record] + others, st2)),
                        }
                    } else {
                        Err(ParseError::Error)
                    },
                },
            }
        },
    }
}

pub fn parse_morph_shape_start_record_string_bits(
    input: (&[u8], usize),
    fill_bits: usize,
    line_bits: usize,
    version: MorphShapeVersion,
) -> (r: BResult<Vec<MixedRecord>>)
    requires
        bit_input_ok(input.0@, input.1 as int),
        fill_bits <= 16,
        line_bits <= 16,
    ensures
        bits_parsed_as(r, spec_morph_shape_start_record_string_bits(input.0@, input.1 as int, fill_bits, line_bits, version)),
        bits_out_ok(r),
{
    let mut cur: (&[u8], usize) = input;
    let mut fb: usize = fill_bits;
    let mut lb: usize = line_bits;
    let mut records: Vec<MixedRecord> = Vec::new();
    proof {
        assert(records.deep_view() =~= Seq::<MixedRecordModel>::empty());
    }
    loop
        invariant
            bit_input_ok(cur.0@, cur.1 as int),
            fb <= 16,
            lb <= 16,
            spec_morph_shape_start_record_string_bits(input.0@, input.1 as int, fill_bits, line_bits, version)
                == match spec_morph_shape_start_record_string_bits(cur.0@, cur.1 as int, fb, lb, version) {
                Err(e) => Err(e),
                Ok((others, st)) => Ok((records.deep_view() + others, st)),
            },
        decreases cur.0@.len(), 8 - cur.1,
    {
        match parse_u16_bits(cur, 6) {
            Err(e) => return Err(shortfall_without_size(e)),
            Ok((st, head)) => {
                if head == 0 {
                    proof {
                        assert(records.deep_view() + Seq::<MixedRecordModel>::empty() =~= records.deep_view());
                    }
                    return Ok((st, records));
                }
            },
        }
        let (st, is_edge) = match parse_bool_bits(cur) {
            Ok(ok) => ok,
            Err(e) => return Err(shortfall_without_size(e)),
        };
        let ghost before = records.deep_view();
        let (next, rec) = parse_mixed_body_bits(st, is_edge, fb, lb, version)?;
        let (ns, nbp) = next;
        let advanced: bool = nbp < 8 && (nbp == 0 || ns.len() > 0) && (ns.len() < cur.0.len() || (
        ns.len() == cur.0.len() && nbp > cur.1));
        if !advanced {
            return Err(ParseError::Error);
        }
        let MixedBits { record, fill_bits: nfb, line_bits: nlb } = rec;
        let ghost rm = record.deep_view();
        records.push(record);
        proof {
            assert(records.deep_view() =~= before.push(rm));
            match spec_morph_shape_start_record_string_bits(ns@, nbp as int, nfb, nlb, version) {
                Err(_) => {},
                Ok((others, _)) => {
                    assert(before + (seq![rm] + others) =~= records.deep_view() + others);
                },
            }
        }
        cur = next;
        fb = nfb;
        lb = nlb;
    }
}

/// The index widths that the end shape starts with: a byte, from the next byte
/// boundary, holding the fill width in its high half and the line width in its low half.
pub open spec fn spec_style_bits_len_bits(s: Seq<u8>, bp: int) -> Result<((usize, usize), (Seq<u8>, int)), ParseError> {
    let b = bytes_at(s, bp);
    if b.len() == 0 {
        Err(ParseError::Incomplete(Needed::Size(8)))
    } else {
        Ok((((b[0] >> 4u8) as usize, (b[0] & 15u8) as usize), (b.skip(1), 0)))
    }
}

fn parse_style_bits_len_bits(input: (&[u8], usize)) -> (r: Result<((&[u8], usize), (usize, usize)), ParseError>)
    requires
        bit_input_ok(input.0@, input.1 as int),
    ensures
        match (r, spec_style_bits_len_bits(input.0@, input.1 as int)) {
            (Ok(((rest, pos), v)), Ok((sv, (srest, spos)))) => rest@ == srest && pos == spos && v == sv,
            (Err(e1), Err(e2)) => e1 == e2,
            _ => false,
        },
        r matches Ok(((rest, pos), (f, l))) ==> bit_input_ok(rest@, pos as int) && f < 16 && l < 16,
{
    let b: &[u8] = bits_to_bytes(input.0, input.1);
    if b.len() == 0 {
        return Err(ParseError::Incomplete(Needed::Size(8)));
    }
    let byte: u8 = b[0];
    assert(byte >> 4u8 < 16) by (bit_vector);
    assert(byte & 15u8 < 16) by (bit_vector);
    Ok(((slice_subrange(b, 1, b.len()), 0), ((byte >> 4u8) as usize, (byte & 15u8) as usize)))
}

/// An edge at the start and at the end of the morph.
#[derive(Clone, Copy, Debug, PartialEq, Eq, Structural)]
pub struct MorphEdge {
    pub delta: Vector2D,
    pub morph_delta: Vector2D,
    pub control_delta: Option<Vector2D>,
    pub morph_control_delta: Option<Vector2D>,
}

#[derive(Clone, Debug, PartialEq, Eq)]
pub enum MorphShapeRecord {
    Edge(MorphEdge),
    StyleChange(MorphStyleChange),
}

pub enum MorphShapeRecordModel {
    Edge(MorphEdge),
    StyleChange(MorphStyleChangeModel),
}

impl DeepView for MorphShapeRecord {
    type V = MorphShapeRecordModel;
    open spec fn deep_view(&self) -> MorphShapeRecordModel {
        match self {
            MorphShapeRecord::Edge(e) => MorphShapeRecordModel::Edge(*e),
            MorphShapeRecord::StyleChange(c) => MorphShapeRecordModel::StyleChange(c.deep_view()),
        }
    }
}

/// A start record paired with its end record: two edges, or two style changes whose
/// end move is the move of the end record; other pairs are refused.
pub open spec fn spec_pair_records(start: MixedRecordModel, end: MixedRecordModel) -> Option<MorphShapeRecordModel> {
    match (start, end) {
        (MixedRecordModel::Edge(s), MixedRecordModel::Edge(e)) => Some(MorphShapeRecordModel::Edge(MorphEdge {
            delta: s.delta,
            morph_delta: e.delta,
            control_delta: s.control_delta,
            morph_control_delta: e.control_delta,
        })),
        (MixedRecordModel::StyleChange(s), MixedRecordModel::StyleChange(e)) => Some(MorphShapeRecordModel::StyleChange(
            MorphStyleChangeModel {
                move_to: s.move_to,
                morph_move_to: e.move_to,
                left_fill: s.left_fill,
                right_fill: s.right_fill,
                line_style: s.line_style,
                new_styles: s.new_styles,
            },
        )),
        _ => None,
    }
}

fn as_morph_shape_record(start: MixedRecord, end: MixedRecord) -> (r: Result<MorphShapeRecord, ()>)
    ensures
        match spec_pair_records(start.deep_view(), end.deep_view()) {
            Some(m) => r matches Ok(v) && v.deep_view() == m,
            None => r is Err,
        },
{
    match (start, end) {
        (MixedRecord::Edge(s), MixedRecord::Edge(e)) => Ok(MorphShapeRecord::Edge(MorphEdge {
            delta: s.delta,
            morph_delta: e.delta,
            control_delta: s.control_delta,
            morph_control_delta: e.control_delta,
        })),
        (MixedRecord::StyleChange(s), MixedRecord::StyleChange(e)) => Ok(MorphShapeRecord::StyleChange(MorphStyleChange {
            move_to: s.move_to,
            morph_move_to: e.move_to,
            left_fill: s.left_fill,
            right_fill: s.right_fill,
            line_style: s.line_style,
            new_styles: s.new_styles,
        })),
        _ => Err(()),
    }
}

/// A start record that the end shape does not repeat: a style change without a move.
pub open spec fn passes_through(r: MixedRecordModel) -> bool {
    match r {
        MixedRecordModel::StyleChange(c) => c.move_to is None,
        _ => false,
    }
}

/// The end records, one for each start record that is not a style change without a
/// move (those are kept as they are). Each start record is paired with the end record
/// read for it; an end record of six zero bits is missing, hence an error.
pub open spec fn spec_morph_shape_end_record_string_bits(
    s: Seq<u8>,
    bp: int,
    starts: Seq<MixedRecordModel>,
    fill_bits: usize,
    line_bits: usize,
    version: MorphShapeVersion,
) -> SpecBitsResult<Seq<MorphShapeRecordModel>>
    decreases starts.len(),
{
    if starts.len() == 0 {
        Ok((Seq::empty(), (s, bp)))
    } else if passes_through(starts[0]) {
        match spec_morph_shape_end_record_string_bits(s, bp, starts.skip(1), fill_bits, line_bits, version) {
            Err(e) => Err(e),
            Ok((others, st)) => Ok((seq![MorphShapeRecordModel::StyleChange(starts[0]->StyleChange_0)] + others, st)),
        }
    } else {
        match spec_u16_bits(s, bp, 6) {
            Err(e) => Err(e),
            Ok((head, _)) => if head == 0 {
                Err(ParseError::Error)
            } else {
                match spec_bool_bits(s, bp) {
                    Err(e) => Err(e),
                    Ok((is_edge, (s1, b1))) => match spec_mixed_body_bits(s1, b1, is_edge, fill_bits, line_bits, version) {
                        Err(e) => Err(e),
                        Ok((er, (s2, b2))) => match spec_pair_records(starts[0], er.record) {
                            None => Err(ParseError::Error),
                            Some(m) => match spec_morph_shape_end_record_string_bits(s2, b2, starts.skip(1), er.fill_bits, er.line_bits, version) {
                                Err(e) => Err(e),
                                Ok((others, st)) => Ok((seq![m] + others, st)),
                            },
                        },
                    },
                }
            },
        }
    }
}

/// `r` with `prefix` put in front of its records.
pub open spec fn morph_records_prefixed(prefix: Seq<MorphShapeRecordModel>, r: SpecBitsResult<Seq<MorphShapeRecordModel>>)
    -> SpecBitsResult<Seq<MorphShapeRecordModel>>
{
    match r {
        Ok((others, st)) => Ok((prefix + others, st)),
        Err(e) => Err(e),
    }
}

pub fn parse_morph_shape_end_record_string_bits(
    input: (&[u8], usize),
    start_records: Vec<MixedRecord>,
    fill_bits: usize,
    line_bits: usize,
    version: MorphShapeVersion,
) -> (r: BResult<Vec<MorphShapeRecord>>)
    requires
        bit_input_ok(input.0@, input.1 as int),
        fill_bits <= 16,
        line_bits <= 16,
    ensures
        bits_parsed_as(
            r,
            spec_morph_shape_end_record_string_bits(input.0@, input.1 as int, start_records.deep_view(), fill_bits, line_bits, version),
        ),
        bits_out_ok(r),
{
    let ghost starts = start_records.deep_view();
    let n: usize = start_records.len();
    // The start records, last first, so that popping gives them in order.
    let mut pending: Vec<MixedRecord> = start_records;
    let mut rev: Vec<MixedRecord> = Vec::new();
    while pending.len() > 0
        invariant
            pending@.len() + rev@.len() == n,
            n == starts.len(),
            starts == start_records.deep_view(),
            forall|j: int| 0 <= j < pending@.len() ==> #[trigger] pending@[j].deep_view() == starts[j],
            forall|j: int| 0 <= j < rev@.len() ==> #[trigger] rev@[j].deep_view() == starts[n - 1 - j],
        decreases pending@.len(),
    {
        let x = pending.pop().unwrap();
        rev.push(x);
    }
    let mut cur: (&[u8], usize) = input;
    let mut fb: usize = fill_bits;
    let mut lb: usize = line_bits;
    let mut records: Vec<MorphShapeRecord> = Vec::new();
    let mut i: usize = 0;
    proof {
        assert(records.deep_view() =~= Seq::<MorphShapeRecordModel>::empty());
        assert(starts.skip(0) =~= starts);
        match spec_morph_shape_end_record_string_bits(cur.0@, cur.1 as int, starts, fb, lb, version) {
            Ok((o, _)) => { assert(Seq::<MorphShapeRecordModel>::empty() + o =~= o); },
            Err(_) => {},
        }
    }
    while rev.len() > 0
        invariant
            bit_input_ok(cur.0@, cur.1 as int),
            fb <= 16,
            lb <= 16,
            i <= n,
            n == starts.len(),
            starts == start_records.deep_view(),
            rev@.len() == n - i,
            forall|j: int| 0 <= j < rev@.len() ==> #[trigger] rev@[j].deep_view() == starts[n - 1 - j],
            spec_morph_shape_end_record_string_bits(input.0@, input.1 as int, starts, fill_bits, line_bits, version)
                == morph_records_prefixed(
                records.deep_view(),
                spec_morph_shape_end_record_string_bits(cur.0@, cur.1 as int, starts.skip(i as int), fb, lb, version),
            ),
        decreases rev@.len(),
    {
        let ghost rest_starts = starts.skip(i as int);
        let ghost before = records.deep_view();
        let start_record = rev.pop().unwrap();
        proof {
            assert(start_record.deep_view() == starts[i as int]);
            assert(rest_starts[0] == starts[i as int]);
            assert(rest_starts.skip(1) =~= starts.skip(i + 1));
        }
        let passes: bool = match &start_record {
            MixedRecord::StyleChange(c) => c.move_to.is_none(),
            MixedRecord::Edge(_) => false,
        };
        assert(passes == passes_through(rest_starts[0]));
        if passes {
            let sc = match start_record {
                MixedRecord::StyleChange(c) => c,
                MixedRecord::Edge(_) => {
                    proof { assert(false); }
                    return Err(ParseError::Error);
                },
            };
            let ghost m = MorphShapeRecordModel::StyleChange(sc.deep_view());
            records.push(MorphShapeRecord::StyleChange(sc));
            proof {
                assert(records.deep_view() =~= before.push(m));
                match spec_morph_shape_end_record_string_bits(cur.0@, cur.1 as int, starts.skip(i + 1), fb, lb, version) {
                    Ok((o, _)) => { assert(before + (seq![m] + o) =~= records.deep_view() + o); },
                    Err(_) => {},
                }
            }
        } else {
            match parse_u16_bits(cur, 6) {
                Ok((_, head)) => {
                    if head == 0 {
                        return Err(ParseError::Error);
                    }
                },
                Err(e) => return Err(e),
            }
            let (st, is_edge) = parse_bool_bits(cur)?;
            let (next, er) = parse_mixed_body_bits(st, is_edge, fb, lb, version)?;
            let MixedBits { record: end_record, fill_bits: nfb, line_bits: nlb } = er;
            let record = match as_morph_shape_record(start_record, end_record) {
                Ok(v) => v,
                Err(()) => return Err(ParseError::Error),
            };
            let ghost m = record.deep_view();
            records.push(record);
            proof {
                assert(records.deep_view() =~= before.push(m));
                match spec_morph_shape_end_record_string_bits(next.0@, next.1 as int, starts.skip(i + 1), nfb, nlb, version) {
                    Ok((o, _)) => { assert(before + (seq![m] + o) =~= records.deep_view() + o); },
                    Err(_) => {},
                }
            }
            cur = next;
            fb = nfb;
            lb = nlb;
        }
        i = i + 1;
    }
    proof {
        assert(starts.skip(i as int) =~= Seq::<MixedRecordModel>::empty());
        assert(records.deep_view() + Seq::<MorphShapeRecordModel>::empty() =~= records.deep_view());
    }
    Ok((cur, records))
}

// ---------------------------------------------------------------------------
// Shapes and tags
// ---------------------------------------------------------------------------

#[derive(Clone, Debug, PartialEq, Eq)]
pub struct MorphShape {
    pub initial_styles: MorphShapeStyles,
    pub records: Vec<MorphShapeRecord>,
}

pub struct MorphShapeModel {
    pub initial_styles: MorphShapeStylesModel,
    pub records: Seq<MorphShapeRecordModel>,
}

impl DeepView for MorphShape {
    type V = MorphShapeModel;
    open spec fn deep_view(&self) -> MorphShapeModel {
        MorphShapeModel { initial_styles: self.initial_styles.deep_view(), records: self.records.deep_view() }
    }
}

/// A morph shape at a bit position: the styles, the records of the start shape, the
/// index widths of the end shape, then the records of the end shape.
#[verifier::opaque]
pub open spec fn spec_morph_shape_bits(s: Seq<u8>, bp: int, version: MorphShapeVersion) -> SpecBitsResult<MorphShapeModel> {
    match spec_morph_shape_styles_bits(s, bp, version) {
        Err(e) => Err(e),
        Ok((styles, (s1, b1))) => match spec_morph_shape_start_record_string_bits(s1, b1, styles.fill_bits, styles.line_bits, version) {
            Err(e) => Err(e),
            Ok((starts, (s2, b2))) => match spec_style_bits_len_bits(s2, b2) {
                Err(e) => Err(e),
                Ok(((fill_bits, line_bits), (s3, b3))) => match spec_morph_shape_end_record_string_bits(s3, b3, starts, fill_bits, line_bits, version) {
                    Err(e) => Err(e),
                    Ok((records, st)) => Ok((MorphShapeModel { initial_styles: styles.styles, records }, st)),
                },
            },
        },
    }
}

pub fn parse_morph_shape_bits(input: (&[u8], usize), version: MorphShapeVersion) -> (r: BResult<MorphShape>)
    requires
        bit_input_ok(input.0@, input.1 as int),
    ensures
        bits_parsed_as(r, spec_morph_shape_bits(input.0@, input.1 as int, version)),
        bits_out_ok(r),
{
    reveal(spec_morph_shape_bits);
    let (st, styles) = parse_morph_shape_styles_bits(input, version)?;
    let MorphStylesBits { styles, fill_bits, line_bits } = styles;
    let (st, start_records) = parse_morph_shape_start_record_string_bits(st, fill_bits, line_bits, version)?;
    let (st, (fill_bits, line_bits)) = parse_style_bits_len_bits(st)?;
    let (st, records) = parse_morph_shape_end_record_string_bits(st, start_records, fill_bits, line_bits, version)?;
    Ok((st, MorphShape { initial_styles: styles, records }))
}

/// A morph shape: a 4-byte offset to the end records, which is skipped, then the bit
/// fields of the shape, padded to a whole byte.
pub open spec fn spec_morph_shape(s: Seq<u8>, version: MorphShapeVersion) -> SpecResult<MorphShapeModel> {
    if s.len() < 4 {
        Err(ParseError::Error)
    } else {
        spec_from_bits(spec_morph_shape_bits(s.skip(4), 0, version))
    }
}

pub fn parse_morph_shape(input: &[u8], version: MorphShapeVersion) -> (r: PResult<MorphShape>)
    ensures
        parsed_as(r, spec_morph_shape(input@, version)),
{
    if input.len() < 4 {
        return Err(ParseError::Error);
    }
    let input = slice_subrange(input, 4, input.len());
    match parse_morph_shape_bits((input, 0), version) {
        Ok(((rest, pos), v)) => Ok((bits_to_bytes(rest, pos), v)),
        Err(e) => Err(bits_error_to_bytes(e)),
    }
}

/// A morph shape definition (tags `DefineMorphShape` and `DefineMorphShape2`).
#[derive(Clone, Debug, PartialEq, Eq)]
pub struct DefineMorphShape {
    pub id: u16,
    pub bounds: Rect,
    pub morph_bounds: Rect,
    pub edge_bounds: Option<Rect>,
    pub morph_edge_bounds: Option<Rect>,
    pub has_scaling_strokes: bool,
    pub has_non_scaling_strokes: bool,
    pub shape: MorphShape,
}

pub struct DefineMorphShapeModel {
    pub id: u16,
    pub bounds: Rect,
    pub morph_bounds: Rect,
    pub edge_bounds: Option<Rect>,
    pub morph_edge_bounds: Option<Rect>,
    pub has_scaling_strokes: bool,
    pub has_non_scaling_strokes: bool,
    pub shape: MorphShapeModel,
}

impl DeepView for DefineMorphShape {
    type V = DefineMorphShapeModel;
    open spec fn deep_view(&self) -> DefineMorphShapeModel {
        DefineMorphShapeModel {
            id: self.id,
            bounds: self.bounds,
            morph_bounds: self.morph_bounds,
            edge_bounds: self.edge_bounds,
            morph_edge_bounds: self.morph_edge_bounds,
            has_scaling_strokes: self.has_scaling_strokes,
            has_non_scaling_strokes: self.has_non_scaling_strokes,
            shape: self.shape.deep_view(),
        }
    }
}

/// A rectangle present in version 2 only.
pub open spec fn spec_v2_rect(s: Seq<u8>, v2: bool) -> SpecResult<Option<Rect>> {
    if v2 {
        sbind(spec_rect(s), |r: Rect, s1: Seq<u8>| Ok((Some(r), s1)))
    } else {
        Ok((None, s))
    }
}

/// `defineMorphShape : UINT16_LE(id) rect rect [rect rect UINT8(flags)] morphShape`; the
/// edge bounds and the flags (scaling strokes, non-scaling strokes, from the low bit up)
/// exist in version 2 only.
#[verifier::opaque]
pub open spec fn spec_define_morph_shape_any(s: Seq<u8>, version: MorphShapeVersion) -> SpecResult<DefineMorphShapeModel> {
    let v2 = version == MorphShapeVersion::MorphShape2;
    sbind(u16_c(s), |id: u16, s1: Seq<u8>|
    sbind(spec_rect(s1), |bounds: Rect, s2: Seq<u8>|
    sbind(spec_rect(s2), |morph_bounds: Rect, s3: Seq<u8>|
    sbind(spec_v2_rect(s3, v2), |edge_bounds: Option<Rect>, s4: Seq<u8>|
    sbind(spec_v2_rect(s4, v2), |morph_edge_bounds: Option<Rect>, s5: Seq<u8>|
    sbind(if v2 { u8_c(s5) } else { Ok((0u8, s5)) }, |flags: u8, s6: Seq<u8>|
    sbind(spec_morph_shape(s6, version), |shape: MorphShapeModel, s7: Seq<u8>|
        Ok((
            DefineMorphShapeModel {
                id,
                bounds,
                morph_bounds,
                edge_bounds,
                morph_edge_bounds,
                has_scaling_strokes: flags & 1u8 != 0,
                has_non_scaling_strokes: flags & 2u8 != 0,
                shape,
            },
            s7,
        )))))))))
}

fn parse_v2_rect(input: &[u8], v2: bool) -> (r: PResult<Option<Rect>>)
    ensures
        parsed_as(r, spec_v2_rect(input@, v2)),
{
    if v2 {
        let (input, r) = parse_rect(input)?;
        Ok((input, Some(r)))
    } else {
        Ok((input, None))
    }
}

pub fn parse_define_morph_shape_any(input: &[u8], version: MorphShapeVersion) -> (r: PResult<DefineMorphShape>)
    ensures
        parsed_as(r, spec_define_morph_shape_any(input@, version)),
{
    reveal(spec_define_morph_shape_any);
    let v2: bool = match version {
        MorphShapeVersion::MorphShape2 => true,
        MorphShapeVersion::MorphShape1 => false,
    };
    let (input, id) = parse_le_u16_c(input)?;
    let (input, bounds) = parse_rect(input)?;
    let (input, morph_bounds) = parse_rect(input)?;
    let (input, edge_bounds) = parse_v2_rect(input, v2)?;
    let (input, morph_edge_bounds) = parse_v2_rect(input, v2)?;
    let (input, flags) = if v2 { parse_u8_c(input)? } else { (input, 0u8) };
    // Bits 2 to 7 are skipped.
    let (input, shape) = parse_morph_shape(input, version)?;
    Ok((
        input,
        DefineMorphShape {
            id,
            bounds,
            morph_bounds,
            edge_bounds,
            morph_edge_bounds,
            has_scaling_strokes: flags & 1u8 != 0,
            has_non_scaling_strokes: flags & 2u8 != 0,
            shape,
        },
    ))
}

pub fn parse_define_morph_shape(input: &[u8]) -> (r: PResult<DefineMorphShape>)
    ensures
        parsed_as(r, spec_define_morph_shape_any(input@, MorphShapeVersion::MorphShape1)),
{
    parse_define_morph_shape_any(input, MorphShapeVersion::MorphShape1)
}

pub fn parse_define_morph_shape2(input: &[u8]) -> (r: PResult<DefineMorphShape>)
    ensures
        parsed_as(r, spec_define_morph_shape_any(input@, MorphShapeVersion::MorphShape2)),
{
    parse_define_morph_shape_any(input, MorphShapeVersion::MorphShape2)
}

} // verus!

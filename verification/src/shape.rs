//! Shapes: fill and line styles, gradients, and the bit-packed shape records.
use vstd::prelude::*;
use crate::ast::{Matrix, StraightSRgba8};
use crate::basic_data_types::{
    parse_le_fixed8_p8, parse_matrix, parse_s_rgb8, parse_straight_s_rgba8, spec_le_fixed8_p8,
    spec_matrix, spec_s_rgb8, spec_straight_s_rgba8,
};
use crate::bits::{
    BResult, SpecBitsResult, bit_input_ok, bits_error_to_bytes, bits_out_ok, bits_parsed_as,
    bits_to_bytes, parse_bool_bits, parse_i32_bits, parse_u16_bits, spec_bool_bits,
    spec_from_bits, spec_i32_bits, spec_take_bits, spec_u16_bits, take_bits,
};
use crate::bytes::{parse_le_u16, parse_u8, spec_le_u16, spec_u8};
use crate::error::{Needed, ParseError, PResult, SpecResult, parsed_as};
use crate::fixed::Sfixed8P8;

verus! {

/// Version of the shape format, from `DefineShape` (1) to `DefineShape4` (4).
#[derive(Clone, Copy, Debug, PartialEq, Eq, Structural)]
pub enum ShapeVersion {
    Shape1,
    Shape2,
    Shape3,
    Shape4,
}

impl ShapeVersion {
    pub open spec fn spec_level(self) -> u8 {
        match self {
            ShapeVersion::Shape1 => 1,
            ShapeVersion::Shape2 => 2,
            ShapeVersion::Shape3 => 3,
            ShapeVersion::Shape4 => 4,
        }
    }

    /// The number of the version.
    pub fn level(&self) -> (r: u8)
        ensures
            r == self.spec_level(),
    {
        match self {
            ShapeVersion::Shape1 => 1,
            ShapeVersion::Shape2 => 2,
            ShapeVersion::Shape3 => 3,
            ShapeVersion::Shape4 => 4,
        }
    }
}

#[derive(Clone, Copy, Debug, PartialEq, Eq, Structural)]
pub struct Vector2D {
    pub x: i32,
    pub y: i32,
}

#[derive(Clone, Copy, Debug, PartialEq, Eq, Structural)]
pub enum GradientSpread {
    Pad,
    Reflect,
    Repeat,
}

#[derive(Clone, Copy, Debug, PartialEq, Eq, Structural)]
pub enum ColorSpace {
    SRgb,
    LinearRgb,
}

#[derive(Clone, Copy, Debug, PartialEq, Eq, Structural)]
pub struct ColorStop {
    pub ratio: u8,
    pub color: StraightSRgba8,
}

#[derive(Clone, Debug, PartialEq, Eq)]
pub struct Gradient {
    pub spread: GradientSpread,
    pub color_space: ColorSpace,
    pub colors: Vec<ColorStop>,
}

#[derive(Clone, Copy, Debug, PartialEq, Eq, Structural)]
pub struct BitmapFill {
    pub bitmap_id: u16,
    pub matrix: Matrix,
    pub repeating: bool,
    pub smoothed: bool,
}

#[derive(Clone, Debug, PartialEq, Eq)]
pub struct FocalGradientFill {
    pub matrix: Matrix,
    pub gradient: Gradient,
    pub focal_point: Sfixed8P8,
}

#[derive(Clone, Debug, PartialEq, Eq)]
pub struct LinearGradientFill {
    pub matrix: Matrix,
    pub gradient: Gradient,
}

#[derive(Clone, Debug, PartialEq, Eq)]
pub struct RadialGradientFill {
    pub matrix: Matrix,
    pub gradient: Gradient,
}

#[derive(Clone, Copy, Debug, PartialEq, Eq, Structural)]
pub struct SolidFill {
    pub color: StraightSRgba8,
}

#[derive(Clone, Debug, PartialEq, Eq)]
pub enum FillStyle {
    Bitmap(BitmapFill),
    FocalGradient(FocalGradientFill),
    LinearGradient(LinearGradientFill),
    RadialGradient(RadialGradientFill),
    Solid(SolidFill),
}

#[derive(Clone, Copy, Debug, PartialEq, Eq, Structural)]
pub enum CapStyle {
    Round,
    NoCap,
    Square,
}

#[derive(Clone, Copy, Debug, PartialEq, Eq, Structural)]
pub enum JoinStyle {
    Bevel,
    Round,
    Miter(u16),
}

#[derive(Clone, Debug, PartialEq, Eq)]
pub struct LineStyle {
    pub width: u16,
    pub start_cap: CapStyle,
    pub end_cap: CapStyle,
    pub join: JoinStyle,
    pub no_h_scale: bool,
    pub no_v_scale: bool,
    pub no_close: bool,
    pub pixel_hinting: bool,
    pub fill: FillStyle,
}

#[derive(Clone, Debug, PartialEq, Eq)]
pub struct ShapeStyles {
    pub fill: Vec<FillStyle>,
    pub line: Vec<LineStyle>,
}

#[derive(Clone, Copy, Debug, PartialEq, Eq, Structural)]
pub struct Edge {
    pub delta: Vector2D,
    pub control_delta: Option<Vector2D>,
}

#[derive(Clone, Debug, PartialEq, Eq)]
pub struct StyleChange {
    pub move_to: Option<Vector2D>,
    pub left_fill: Option<usize>,
    pub right_fill: Option<usize>,
    pub line_style: Option<usize>,
    pub new_styles: Option<ShapeStyles>,
}

#[derive(Clone, Debug, PartialEq, Eq)]
pub enum ShapeRecord {
    Edge(Edge),
    StyleChange(StyleChange),
}

#[derive(Clone, Debug, PartialEq, Eq)]
pub struct Shape {
    pub initial_styles: ShapeStyles,
    pub records: Vec<ShapeRecord>,
}

#[derive(Clone, Debug, PartialEq, Eq)]
pub struct Glyph {
    pub records: Vec<ShapeRecord>,
}

// ---------------------------------------------------------------------------
// Models
// ---------------------------------------------------------------------------

pub struct GradientModel {
    pub spread: GradientSpread,
    pub color_space: ColorSpace,
    pub colors: Seq<ColorStop>,
}

pub enum FillStyleModel {
    Bitmap(BitmapFill),
    FocalGradient { matrix: Matrix, gradient: GradientModel, focal_point: Sfixed8P8 },
    LinearGradient { matrix: Matrix, gradient: GradientModel },
    RadialGradient { matrix: Matrix, gradient: GradientModel },
    Solid(StraightSRgba8),
}

pub struct LineStyleModel {
    pub width: u16,
    pub start_cap: CapStyle,
    pub end_cap: CapStyle,
    pub join: JoinStyle,
    pub no_h_scale: bool,
    pub no_v_scale: bool,
    pub no_close: bool,
    pub pixel_hinting: bool,
    pub fill: FillStyleModel,
}

pub struct ShapeStylesModel {
    pub fill: Seq<FillStyleModel>,
    pub line: Seq<LineStyleModel>,
}

pub struct StyleChangeModel {
    pub move_to: Option<Vector2D>,
    pub left_fill: Option<usize>,
    pub right_fill: Option<usize>,
    pub line_style: Option<usize>,
    pub new_styles: Option<ShapeStylesModel>,
}

pub enum ShapeRecordModel {
    Edge(Edge),
    StyleChange(StyleChangeModel),
}

pub struct ShapeModel {
    pub initial_styles: ShapeStylesModel,
    pub records: Seq<ShapeRecordModel>,
}

impl DeepView for ColorStop {
    type V = ColorStop;
    open spec fn deep_view(&self) -> ColorStop { *self }
}

impl DeepView for Gradient {
    type V = GradientModel;
    open spec fn deep_view(&self) -> GradientModel {
        GradientModel { spread: self.spread, color_space: self.color_space, colors: self.colors@ }
    }
}

impl DeepView for FillStyle {
    type V = FillStyleModel;
    open spec fn deep_view(&self) -> FillStyleModel {
        match self {
            FillStyle::Bitmap(b) => FillStyleModel::Bitmap(*b),
            FillStyle::FocalGradient(f) => FillStyleModel::FocalGradient {
                matrix: f.matrix,
                gradient: f.gradient.deep_view(),
                focal_point: f.focal_point,
            },
            FillStyle::LinearGradient(f) => FillStyleModel::LinearGradient {
                matrix: f.matrix,
                gradient: f.gradient.deep_view(),
            },
            FillStyle::RadialGradient(f) => FillStyleModel::RadialGradient {
                matrix: f.matrix,
                gradient: f.gradient.deep_view(),
            },
            FillStyle::Solid(s) => FillStyleModel::Solid(s.color),
        }
    }
}

impl DeepView for LineStyle {
    type V = LineStyleModel;
    open spec fn deep_view(&self) -> LineStyleModel {
        LineStyleModel {
            width: self.width,
            start_cap: self.start_cap,
            end_cap: self.end_cap,
            join: self.join,
            no_h_scale: self.no_h_scale,
            no_v_scale: self.no_v_scale,
            no_close: self.no_close,
            pixel_hinting: self.pixel_hinting,
            fill: self.fill.deep_view(),
        }
    }
}

impl DeepView for ShapeStyles {
    type V = ShapeStylesModel;
    open spec fn deep_view(&self) -> ShapeStylesModel {
        ShapeStylesModel { fill: self.fill.deep_view(), line: self.line.deep_view() }
    }
}

impl DeepView for StyleChange {
    type V = StyleChangeModel;
    open spec fn deep_view(&self) -> StyleChangeModel {
        StyleChangeModel {
            move_to: self.move_to,
            left_fill: self.left_fill,
            right_fill: self.right_fill,
            line_style: self.line_style,
            new_styles: match self.new_styles {
                Some(s) => Some(s.deep_view()),
                None => None,
            },
        }
    }
}

impl DeepView for ShapeRecord {
    type V = ShapeRecordModel;
    open spec fn deep_view(&self) -> ShapeRecordModel {
        match self {
            ShapeRecord::Edge(e) => ShapeRecordModel::Edge(*e),
            ShapeRecord::StyleChange(c) => ShapeRecordModel::StyleChange(c.deep_view()),
        }
    }
}

impl DeepView for Shape {
    type V = ShapeModel;
    open spec fn deep_view(&self) -> ShapeModel {
        ShapeModel { initial_styles: self.initial_styles.deep_view(), records: self.records.deep_view() }
    }
}

impl DeepView for Glyph {
    type V = Seq<ShapeRecordModel>;
    open spec fn deep_view(&self) -> Seq<ShapeRecordModel> {
        self.records.deep_view()
    }
}

// ---------------------------------------------------------------------------
// Colors and gradients
// ---------------------------------------------------------------------------

/// A color with alpha (`RGBA`) or without (`RGB`, then opaque).
pub open spec fn spec_style_color(s: Seq<u8>, with_alpha: bool) -> SpecResult<StraightSRgba8> {
    if with_alpha {
        spec_straight_s_rgba8(s)
    } else {
        match spec_s_rgb8(s) {
            Err(e) => Err(e),
            Ok((c, rest)) => Ok((StraightSRgba8 { r: c.r, g: c.g, b: c.b, a: 255 }, rest)),
        }
    }
}

pub fn parse_style_color(input: &[u8], with_alpha: bool) -> (r: PResult<StraightSRgba8>)
    ensures
        parsed_as(r, spec_style_color(input@, with_alpha)),
{
    if with_alpha {
        parse_straight_s_rgba8(input)
    } else {
        let (rest, c) = parse_s_rgb8(input)?;
        Ok((rest, StraightSRgba8 { r: c.r, g: c.g, b: c.b, a: 255 }))
    }
}

/// `colorStop : UINT8 color`
pub open spec fn spec_color_stop(s: Seq<u8>, with_alpha: bool) -> SpecResult<ColorStop> {
    match spec_u8(s) {
        Err(e) => Err(e),
        Ok((ratio, s1)) => match spec_style_color(s1, with_alpha) {
            Err(e) => Err(e),
            Ok((color, rest)) => Ok((ColorStop { ratio, color }, rest)),
        },
    }
}

pub fn parse_color_stop(input: &[u8], with_alpha: bool) -> (r: PResult<ColorStop>)
    ensures
        parsed_as(r, spec_color_stop(input@, with_alpha)),
{
    let (rest, ratio) = parse_u8(input)?;
    let (rest, color) = parse_style_color(rest, with_alpha)?;
    Ok((rest, ColorStop { ratio, color }))
}

pub open spec fn spec_color_stops(s: Seq<u8>, with_alpha: bool, count: nat) -> SpecResult<Seq<ColorStop>>
    decreases count,
{
    if count == 0 {
        Ok((Seq::empty(), s))
    } else {
        match spec_color_stop(s, with_alpha) {
            Err(e) => Err(e),
            Ok((first, s1)) => match spec_color_stops(s1, with_alpha, (count - 1) as nat) {
                Err(e) => Err(e),
                Ok((others, rest)) => Ok((seq![first] + others, rest)),
            },
        }
    }
}

fn parse_color_stops(input: &[u8], with_alpha: bool, count: usize) -> (r: PResult<Vec<ColorStop>>)
    ensures
        match (r, spec_color_stops(input@, with_alpha, count as nat)) {
            (Ok((rest, v)), Ok((m, srest))) => rest@ == srest && v@ == m,
            (Err(e1), Err(e2)) => e1 == e2,
            _ => false,
        },
{
    let mut rest: &[u8] = input;
    let mut stops: Vec<ColorStop> = Vec::new();
    let mut i: usize = 0;
    while i < count
        invariant
            i <= count,
            spec_color_stops(input@, with_alpha, count as nat) == match spec_color_stops(
                rest@,
                with_alpha,
                (count - i) as nat,
            ) {
                Err(e) => Err(e),
                Ok((others, r)) => Ok((stops@ + others, r)),
            },
        decreases count - i,
    {
        let ghost before = stops@;
        let (next, stop) = parse_color_stop(rest, with_alpha)?;
        stops.push(stop);
        proof {
            match spec_color_stops(next@, with_alpha, (count - i - 1) as nat) {
                Err(_) => {},
                Ok((others, _)) => {
                    assert(before + (seq![stop] + others) =~= stops@ + others);
                },
            }
        }
        rest = next;
        i = i + 1;
    }
    proof {
        assert(stops@ + Seq::<ColorStop>::empty() =~= stops@);
    }
    Ok((rest, stops))
}

/// `gradient : UINT8 colorStop*`: the flag byte holds the spread (2 bits, 3 is invalid),
/// the color space (2 bits, only 0 and 1 are valid) and the number of stops (4 bits).
pub open spec fn spec_gradient(s: Seq<u8>, with_alpha: bool) -> SpecResult<GradientModel> {
    match spec_u8(s) {
        Err(e) => Err(e),
        Ok((flags, s1)) => {
            let spread_id = flags / 64;
            let color_space_id = (flags % 64) / 16;
            let count = flags % 16;
            if spread_id == 3 || color_space_id > 1 {
                Err(ParseError::Error)
            } else {
                match spec_color_stops(s1, with_alpha, count as nat) {
                    Err(e) => Err(e),
                    Ok((colors, rest)) => Ok((
                        GradientModel {
                            spread: if spread_id == 0 {
                                GradientSpread::Pad
                            } else if spread_id == 1 {
                                GradientSpread::Reflect
                            } else {
                                GradientSpread::Repeat
                            },
                            color_space: if color_space_id == 0 {
                                ColorSpace::SRgb
                            } else {
                                ColorSpace::LinearRgb
                            },
                            colors,
                        },
                        rest,
                    )),
                }
            }
        },
    }
}

pub fn parse_gradient(input: &[u8], with_alpha: bool) -> (r: PResult<Gradient>)
    ensures
        parsed_as(r, spec_gradient(input@, with_alpha)),
{
    let (rest, flags) = parse_u8(input)?;
    let spread_id: u8 = flags / 64;
    let color_space_id: u8 = (flags % 64) / 16;
    let count: u8 = flags % 16;
    let spread = if spread_id == 0 {
        GradientSpread::Pad
    } else if spread_id == 1 {
        GradientSpread::Reflect
    } else if spread_id == 2 {
        GradientSpread::Repeat
    } else {
        return Err(ParseError::Error);
    };
    let color_space = if color_space_id == 0 {
        ColorSpace::SRgb
    } else if color_space_id == 1 {
        ColorSpace::LinearRgb
    } else {
        return Err(ParseError::Error);
    };
    let (rest, colors) = parse_color_stops(rest, with_alpha, count as usize)?;
    Ok((rest, Gradient { spread, color_space, colors }))
}

// ---------------------------------------------------------------------------
// Fill and line styles
// ---------------------------------------------------------------------------

/// Length of a style list: a `UINT8`, or `UINT16_LE` after `0xff` when extended lengths
/// are allowed.
pub open spec fn spec_list_length(s: Seq<u8>, allow_extended: bool) -> SpecResult<usize> {
    match spec_u8(s) {
        Err(e) => Err(e),
        Ok((n, s1)) => if n == 0xff && allow_extended {
            match spec_le_u16(s1) {
                Err(e) => Err(e),
                Ok((m, rest)) => Ok((m as usize, rest)),
            }
        } else {
            Ok((n as usize, s1))
        },
    }
}

pub fn parse_list_length(input: &[u8], allow_extended: bool) -> (r: PResult<usize>)
    ensures
        parsed_as(r, spec_list_length(input@, allow_extended)),
{
    let (rest, n) = parse_u8(input)?;
    if n == 0xff && allow_extended {
        let (rest, m) = parse_le_u16(rest)?;
        Ok((rest, m as usize))
    } else {
        Ok((rest, n as usize))
    }
}

/// A fill style: a type byte, then its data.
#[verifier::opaque]
pub open spec fn spec_fill_style(s: Seq<u8>, with_alpha: bool) -> SpecResult<FillStyleModel> {
    match spec_u8(s) {
        Err(e) => Err(e),
        Ok((kind, s1)) => if kind == 0x00 {
            match spec_style_color(s1, with_alpha) {
                Err(e) => Err(e),
                Ok((color, rest)) => Ok((FillStyleModel::Solid(color), rest)),
            }
        } else if kind == 0x10 || kind == 0x12 || kind == 0x13 {
            match spec_matrix(s1) {
                Err(e) => Err(e),
                Ok((matrix, s2)) => match spec_gradient(s2, with_alpha) {
                    Err(e) => Err(e),
                    Ok((gradient, s3)) => if kind == 0x10 {
                        Ok((FillStyleModel::LinearGradient { matrix, gradient }, s3))
                    } else if kind == 0x12 {
                        Ok((FillStyleModel::RadialGradient { matrix, gradient }, s3))
                    } else {
                        match spec_le_fixed8_p8(s3) {
                            Err(e) => Err(e),
                            Ok((focal_point, rest)) => Ok((
                                FillStyleModel::FocalGradient { matrix, gradient, focal_point },
                                rest,
                            )),
                        }
                    },
                },
            }
        } else if 0x40 <= kind <= 0x43 {
            match spec_le_u16(s1) {
                Err(e) => Err(e),
                Ok((bitmap_id, s2)) => match spec_matrix(s2) {
                    Err(e) => Err(e),
                    Ok((matrix, rest)) => Ok((
                        FillStyleModel::Bitmap(BitmapFill {
                            bitmap_id,
                            matrix,
                            repeating: kind % 2 == 0,
                            smoothed: kind < 0x42,
                        }),
                        rest,
                    )),
                },
            }
        } else {
            Err(ParseError::Error)
        },
    }
}

/// The matrix and the gradient of a gradient fill.
pub open spec fn spec_matrix_gradient(s: Seq<u8>, with_alpha: bool) -> SpecResult<(Matrix, GradientModel)> {
    match spec_matrix(s) {
        Err(e) => Err(e),
        Ok((matrix, s1)) => match spec_gradient(s1, with_alpha) {
            Err(e) => Err(e),
            Ok((gradient, rest)) => Ok(((matrix, gradient), rest)),
        },
    }
}

pub fn parse_linear_gradient_fill(input: &[u8], with_alpha: bool) -> (r: PResult<LinearGradientFill>)
    ensures
        match (r, spec_matrix_gradient(input@, with_alpha)) {
            (Ok((rest, f)), Ok(((m, g), srest))) => rest@ == srest && f.matrix == m && f.gradient.deep_view() == g,
            (Err(e1), Err(e2)) => e1 == e2,
            _ => false,
        },
{
    let (rest, matrix) = parse_matrix(input)?;
    let (rest, gradient) = parse_gradient(rest, with_alpha)?;
    Ok((rest, LinearGradientFill { matrix, gradient }))
}

pub fn parse_radial_gradient_fill(input: &[u8], with_alpha: bool) -> (r: PResult<RadialGradientFill>)
    ensures
        match (r, spec_matrix_gradient(input@, with_alpha)) {
            (Ok((rest, f)), Ok(((m, g), srest))) => rest@ == srest && f.matrix == m && f.gradient.deep_view() == g,
            (Err(e1), Err(e2)) => e1 == e2,
            _ => false,
        },
{
    let (rest, matrix) = parse_matrix(input)?;
    let (rest, gradient) = parse_gradient(rest, with_alpha)?;
    Ok((rest, RadialGradientFill { matrix, gradient }))
}

/// A focal gradient fill: a matrix, a gradient and the focal point.
pub open spec fn spec_focal_gradient_fill(s: Seq<u8>, with_alpha: bool) -> SpecResult<FillStyleModel> {
    match spec_matrix_gradient(s, with_alpha) {
        Err(e) => Err(e),
        Ok(((matrix, gradient), s1)) => match spec_le_fixed8_p8(s1) {
            Err(e) => Err(e),
            Ok((focal_point, rest)) => Ok((FillStyleModel::FocalGradient { matrix, gradient, focal_point }, rest)),
        },
    }
}

pub fn parse_focal_gradient_fill(input: &[u8], with_alpha: bool) -> (r: PResult<FocalGradientFill>)
    ensures
        match (r, spec_focal_gradient_fill(input@, with_alpha)) {
            (Ok((rest, f)), Ok((m, srest))) => rest@ == srest && FillStyle::FocalGradient(f).deep_view() == m,
            (Err(e1), Err(e2)) => e1 == e2,
            _ => false,
        },
{
    let (rest, matrix) = parse_matrix(input)?;
    let (rest, gradient) = parse_gradient(rest, with_alpha)?;
    let (rest, focal_point) = parse_le_fixed8_p8(rest)?;
    Ok((rest, FocalGradientFill { matrix, gradient, focal_point }))
}

/// A bitmap fill: the bitmap id and a matrix; whether it repeats and is smoothed comes
/// from its type byte.
pub open spec fn spec_bitmap_fill(s: Seq<u8>, repeating: bool, smoothed: bool) -> SpecResult<BitmapFill> {
    match spec_le_u16(s) {
        Err(e) => Err(e),
        Ok((bitmap_id, s1)) => match spec_matrix(s1) {
            Err(e) => Err(e),
            Ok((matrix, rest)) => Ok((BitmapFill { bitmap_id, matrix, repeating, smoothed }, rest)),
        },
    }
}

pub fn parse_bitmap_fill(input: &[u8], repeating: bool, smoothed: bool) -> (r: PResult<BitmapFill>)
    ensures
        match (r, spec_bitmap_fill(input@, repeating, smoothed)) {
            (Ok((rest, f)), Ok((m, srest))) => rest@ == srest && f == m,
            (Err(e1), Err(e2)) => e1 == e2,
            _ => false,
        },
{
    let (rest, bitmap_id) = parse_le_u16(input)?;
    let (rest, matrix) = parse_matrix(rest)?;
    Ok((rest, BitmapFill { bitmap_id, matrix, repeating, smoothed }))
}

pub fn parse_solid_fill(input: &[u8], with_alpha: bool) -> (r: PResult<SolidFill>)
    ensures
        match (r, spec_style_color(input@, with_alpha)) {
            (Ok((rest, f)), Ok((c, srest))) => rest@ == srest && f.color == c,
            (Err(e1), Err(e2)) => e1 == e2,
            _ => false,
        },
{
    let (rest, color) = parse_style_color(input, with_alpha)?;
    Ok((rest, SolidFill { color }))
}

/// What a fill style is, by its type byte: 0x00 a solid color, 0x10 a linear gradient,
/// 0x12 a radial gradient, 0x13 a focal gradient, 0x40 to 0x43 a bitmap (0x40 and 0x42
/// repeating, 0x40 and 0x41 smoothed); any other type byte is refused. A gradient fill
/// holds the matrix read right after the type byte and the gradient read after that
/// matrix, and a linear or radial gradient fill is read whenever both are.
pub proof fn lemma_fill_style_types(s: Seq<u8>, with_alpha: bool)
    ensures
        spec_fill_style(s, with_alpha) matches Ok((f, _)) ==> {
            &&& s.len() > 0
            &&& (s[0] == 0x00 <==> f is Solid)
            &&& (s[0] == 0x10 <==> f is LinearGradient)
            &&& (s[0] == 0x12 <==> f is RadialGradient)
            &&& (s[0] == 0x13 <==> f is FocalGradient)
            &&& (0x40 <= s[0] <= 0x43 <==> f is Bitmap)
            &&& f matches FillStyleModel::Bitmap(b) ==> {
                &&& b.bitmap_id == s[1] + 256 * s[2]
                &&& b.repeating == (s[0] == 0x40 || s[0] == 0x42)
                &&& b.smoothed == (s[0] == 0x40 || s[0] == 0x41)
            }
        },
        match spec_fill_style(s, with_alpha) {
            Ok((FillStyleModel::LinearGradient { matrix, gradient }, _)) => {
                &&& spec_matrix(s.skip(1)) is Ok
                &&& spec_matrix(s.skip(1))->Ok_0.0 == matrix
                &&& spec_gradient(spec_matrix(s.skip(1))->Ok_0.1, with_alpha) is Ok
                &&& spec_gradient(spec_matrix(s.skip(1))->Ok_0.1, with_alpha)->Ok_0.0 == gradient
            },
            Ok((FillStyleModel::RadialGradient { matrix, gradient }, _)) => {
                &&& spec_matrix(s.skip(1)) is Ok
                &&& spec_matrix(s.skip(1))->Ok_0.0 == matrix
                &&& spec_gradient(spec_matrix(s.skip(1))->Ok_0.1, with_alpha) is Ok
                &&& spec_gradient(spec_matrix(s.skip(1))->Ok_0.1, with_alpha)->Ok_0.0 == gradient
            },
            _ => true,
        },
        s.len() > 0 && (s[0] == 0x10 || s[0] == 0x12) && spec_matrix(s.skip(1)) is Ok
            && spec_gradient(spec_matrix(s.skip(1))->Ok_0.1, with_alpha) is Ok
            ==> spec_fill_style(s, with_alpha) is Ok,
        s.len() > 0 && !(s[0] == 0x00 || s[0] == 0x10 || s[0] == 0x12 || s[0] == 0x13
            || 0x40 <= s[0] <= 0x43) ==> spec_fill_style(s, with_alpha) is Err,
{
    reveal(spec_fill_style);
}

pub fn parse_fill_style(input: &[u8], with_alpha: bool) -> (r: PResult<FillStyle>)
    ensures
        parsed_as(r, spec_fill_style(input@, with_alpha)),
{
    reveal(spec_fill_style);
    let (rest, kind) = parse_u8(input)?;
    if kind == 0x00 {
        let (rest, fill) = parse_solid_fill(rest, with_alpha)?;
        Ok((rest, FillStyle::Solid(fill)))
    } else if kind == 0x10 {
        let (rest, fill) = parse_linear_gradient_fill(rest, with_alpha)?;
        Ok((rest, FillStyle::LinearGradient(fill)))
    } else if kind == 0x12 {
        let (rest, fill) = parse_radial_gradient_fill(rest, with_alpha)?;
        Ok((rest, FillStyle::RadialGradient(fill)))
    } else if kind == 0x13 {
        let (rest, fill) = parse_focal_gradient_fill(rest, with_alpha)?;
        Ok((rest, FillStyle::FocalGradient(fill)))
    } else if 0x40 <= kind && kind <= 0x43 {
        let (rest, fill) = parse_bitmap_fill(rest, kind % 2 == 0, kind < 0x42)?;
        Ok((rest, FillStyle::Bitmap(fill)))
    } else {
        Err(ParseError::Error)
    }
}

pub open spec fn spec_fill_styles(s: Seq<u8>, with_alpha: bool, count: nat) -> SpecResult<Seq<FillStyleModel>>
    decreases count,
{
    if count == 0 {
        Ok((Seq::empty(), s))
    } else {
        match spec_fill_style(s, with_alpha) {
            Err(e) => Err(e),
            Ok((first, s1)) => match spec_fill_styles(s1, with_alpha, (count - 1) as nat) {
                Err(e) => Err(e),
                Ok((others, rest)) => Ok((seq![first] + others, rest)),
            },
        }
    }
}

/// A list of fill styles: lengths can be extended from version 2, colors have an
/// alpha channel from version 3.
pub open spec fn spec_fill_style_list(s: Seq<u8>, version: ShapeVersion) -> SpecResult<Seq<FillStyleModel>> {
    match spec_list_length(s, version.spec_level() >= 2) {
        Err(e) => Err(e),
        Ok((count, s1)) => spec_fill_styles(s1, version.spec_level() >= 3, count as nat),
    }
}

pub fn parse_fill_style_list(input: &[u8], version: ShapeVersion) -> (r: PResult<Vec<FillStyle>>)
    ensures
        match (r, spec_fill_style_list(input@, version)) {
            (Ok((rest, v)), Ok((m, srest))) => rest@ == srest && v.deep_view() == m,
            (Err(e1), Err(e2)) => e1 == e2,
            _ => false,
        },
{
    let level: u8 = version.level();
    let with_alpha: bool = level >= 3;
    let (start, count) = parse_list_length(input, level >= 2)?;
    let mut rest: &[u8] = start;
    let mut styles: Vec<FillStyle> = Vec::new();
    let mut i: usize = 0;
    while i < count
        invariant
            i <= count,
            spec_fill_style_list(input@, version) == spec_fill_styles(start@, with_alpha, count as nat),
            spec_fill_styles(start@, with_alpha, count as nat) == match spec_fill_styles(
                rest@,
                with_alpha,
                (count - i) as nat,
            ) {
                Err(e) => Err(e),
                Ok((others, r)) => Ok((styles.deep_view() + others, r)),
            },
        decreases count - i,
    {
        let ghost before = styles.deep_view();
        let (next, style) = parse_fill_style(rest, with_alpha)?;
        let ghost sm = style.deep_view();
        styles.push(style);
        proof {
            assert(styles.deep_view() =~= before.push(sm));
            match spec_fill_styles(next@, with_alpha, (count - i - 1) as nat) {
                Err(_) => {},
                Ok((others, _)) => {
                    assert(before + (seq![sm] + others) =~= styles.deep_view() + others);
                },
            }
        }
        rest = next;
        i = i + 1;
    }
    proof {
        assert(styles.deep_view() + Seq::<FillStyleModel>::empty() =~= styles.deep_view());
    }
    Ok((rest, styles))
}

/// A line style up to version 3: width and color, other properties at their defaults.
pub open spec fn spec_line_style(s: Seq<u8>, with_alpha: bool) -> SpecResult<LineStyleModel> {
    match spec_le_u16(s) {
        Err(e) => Err(e),
        Ok((width, s1)) => match spec_style_color(s1, with_alpha) {
            Err(e) => Err(e),
            Ok((color, rest)) => Ok((
                LineStyleModel {
                    width,
                    start_cap: CapStyle::Round,
                    end_cap: CapStyle::Round,
                    join: JoinStyle::Round,
                    no_h_scale: false,
                    no_v_scale: false,
                    no_close: false,
                    pixel_hinting: false,
                    fill: FillStyleModel::Solid(color),
                },
                rest,
            )),
        },
    }
}

pub fn parse_line_style(input: &[u8], with_alpha: bool) -> (r: PResult<LineStyle>)
    ensures
        parsed_as(r, spec_line_style(input@, with_alpha)),
{
    let (rest, width) = parse_le_u16(input)?;
    let (rest, color) = parse_style_color(rest, with_alpha)?;
    Ok((
        rest,
        LineStyle {
            width,
            start_cap: CapStyle::Round,
            end_cap: CapStyle::Round,
            join: JoinStyle::Round,
            no_h_scale: false,
            no_v_scale: false,
            no_close: false,
            pixel_hinting: false,
            fill: FillStyle::Solid(SolidFill { color }),
        },
    ))
}

pub open spec fn cap_style_of(id: u16) -> Option<CapStyle> {
    if id == 0 {
        Some(CapStyle::Round)
    } else if id == 1 {
        Some(CapStyle::NoCap)
    } else if id == 2 {
        Some(CapStyle::Square)
    } else {
        None
    }
}

pub fn cap_style_from_id(id: u16) -> (r: Option<CapStyle>)
    ensures
        r == cap_style_of(id),
{
    if id == 0 {
        Some(CapStyle::Round)
    } else if id == 1 {
        Some(CapStyle::NoCap)
    } else if id == 2 {
        Some(CapStyle::Square)
    } else {
        None
    }
}

/// A line style of version 4: width, a `UINT16_LE` of flags (pixel hinting, no vertical
/// scale, no horizontal scale, has fill, 2-bit join, 2-bit start cap, 2-bit end cap, no
/// close, from the low bit up; style ids of 3 are invalid), the miter limit for a miter
/// join, then a fill style or a color.
#[verifier::opaque]
pub open spec fn spec_line_style2(s: Seq<u8>) -> SpecResult<LineStyleModel> {
    match spec_le_u16(s) {
        Err(e) => Err(e),
        Ok((width, s1)) => match spec_le_u16(s1) {
            Err(e) => Err(e),
            Ok((flags, s2)) => {
                let join_id = (flags / 16) % 4;
                match (cap_style_of((flags / 64) % 4), cap_style_of((flags / 256) % 4)) {
                    (Some(start_cap), Some(end_cap)) => {
                        let join_r: SpecResult<JoinStyle> = if join_id == 0 {
                            Ok((JoinStyle::Round, s2))
                        } else if join_id == 1 {
                            Ok((JoinStyle::Bevel, s2))
                        } else if join_id == 2 {
                            match spec_le_u16(s2) {
                                Err(e) => Err(e),
                                Ok((limit, r)) => Ok((JoinStyle::Miter(limit), r)),
                            }
                        } else {
                            Err(ParseError::Error)
                        };
                        match join_r {
                            Err(e) => Err(e),
                            Ok((join, s3)) => {
                                let fill_r: SpecResult<FillStyleModel> = if flags % 16 >= 8 {
                                    spec_fill_style(s3, true)
                                } else {
                                    match spec_straight_s_rgba8(s3) {
                                        Err(e) => Err(e),
                                        Ok((color, r)) => Ok((FillStyleModel::Solid(color), r)),
                                    }
                                };
                                match fill_r {
                                    Err(e) => Err(e),
                                    Ok((fill, rest)) => Ok((
                                        LineStyleModel {
                                            width,
                                            start_cap,
                                            end_cap,
                                            join,
                                            no_h_scale: flags % 8 >= 4,
                                            no_v_scale: flags % 4 >= 2,
                                            no_close: (flags / 1024) % 2 == 1,
                                            pixel_hinting: flags % 2 == 1,
                                            fill,
                                        },
                                        rest,
                                    )),
                                }
                            },
                        }
                    },
                    _ => Err(ParseError::Error),
                }
            },
        },
    }
}

pub fn parse_line_style2(input: &[u8]) -> (r: PResult<LineStyle>)
    ensures
        parsed_as(r, spec_line_style2(input@)),
{
    reveal(spec_line_style2);
    let (rest, width) = parse_le_u16(input)?;
    let (rest, flags) = parse_le_u16(rest)?;
    let join_id: u16 = (flags / 16) % 4;
    let start_cap = match cap_style_from_id((flags / 64) % 4) {
        Some(c) => c,
        None => return Err(ParseError::Error),
    };
    let end_cap = match cap_style_from_id((flags / 256) % 4) {
        Some(c) => c,
        None => return Err(ParseError::Error),
    };
    let (rest, join) = if join_id == 0 {
        (rest, JoinStyle::Round)
    } else if join_id == 1 {
        (rest, JoinStyle::Bevel)
    } else if join_id == 2 {
        let (rest, limit) = parse_le_u16(rest)?;
        (rest, JoinStyle::Miter(limit))
    } else {
        return Err(ParseError::Error);
    };
    let (rest, fill) = if flags % 16 >= 8 {
        parse_fill_style(rest, true)?
    } else {
        let (rest, color) = parse_straight_s_rgba8(rest)?;
        (rest, FillStyle::Solid(SolidFill { color }))
    };
    Ok((
        rest,
        LineStyle {
            width,
            start_cap,
            end_cap,
            join,
            no_h_scale: flags % 8 >= 4,
            no_v_scale: flags % 4 >= 2,
            no_close: (flags / 1024) % 2 == 1,
            pixel_hinting: flags % 2 == 1,
            fill,
        },
    ))
}

/// One line style of the given version.
pub open spec fn spec_line_style_any(s: Seq<u8>, version: ShapeVersion) -> SpecResult<LineStyleModel> {
    if version.spec_level() >= 4 {
        spec_line_style2(s)
    } else {
        spec_line_style(s, version.spec_level() >= 3)
    }
}

pub open spec fn spec_line_styles(s: Seq<u8>, version: ShapeVersion, count: nat) -> SpecResult<Seq<LineStyleModel>>
    decreases count,
{
    if count == 0 {
        Ok((Seq::empty(), s))
    } else {
        match spec_line_style_any(s, version) {
            Err(e) => Err(e),
            Ok((first, s1)) => match spec_line_styles(s1, version, (count - 1) as nat) {
                Err(e) => Err(e),
                Ok((others, rest)) => Ok((seq![first] + others, rest)),
            },
        }
    }
}

pub open spec fn spec_line_style_list(s: Seq<u8>, version: ShapeVersion) -> SpecResult<Seq<LineStyleModel>> {
    match spec_list_length(s, version.spec_level() >= 2) {
        Err(e) => Err(e),
        Ok((count, s1)) => spec_line_styles(s1, version, count as nat),
    }
}

pub fn parse_line_style_list(input: &[u8], version: ShapeVersion) -> (r: PResult<Vec<LineStyle>>)
    ensures
        match (r, spec_line_style_list(input@, version)) {
            (Ok((rest, v)), Ok((m, srest))) => rest@ == srest && v.deep_view() == m,
            (Err(e1), Err(e2)) => e1 == e2,
            _ => false,
        },
{
    let level: u8 = version.level();
    let (start, count) = parse_list_length(input, level >= 2)?;
    let mut rest: &[u8] = start;
    let mut styles: Vec<LineStyle> = Vec::new();
    let mut i: usize = 0;
    while i < count
        invariant
            i <= count,
            level == version.spec_level(),
            spec_line_style_list(input@, version) == spec_line_styles(start@, version, count as nat),
            spec_line_styles(start@, version, count as nat) == match spec_line_styles(
                rest@,
                version,
                (count - i) as nat,
            ) {
                Err(e) => Err(e),
                Ok((others, r)) => Ok((styles.deep_view() + others, r)),
            },
        decreases count - i,
    {
        let ghost before = styles.deep_view();
        let (next, style) = if level >= 4 {
            parse_line_style2(rest)?
        } else {
            parse_line_style(rest, level >= 3)?
        };
        let ghost sm = style.deep_view();
        styles.push(style);
        proof {
            assert(styles.deep_view() =~= before.push(sm));
            match spec_line_styles(next@, version, (count - i - 1) as nat) {
                Err(_) => {},
                Ok((others, _)) => {
                    assert(before + (seq![sm] + others) =~= styles.deep_view() + others);
                },
            }
        }
        rest = next;
        i = i + 1;
    }
    proof {
        assert(styles.deep_view() + Seq::<LineStyleModel>::empty() =~= styles.deep_view());
    }
    Ok((rest, styles))
}

// ---------------------------------------------------------------------------
// Bit-packed shape records
// ---------------------------------------------------------------------------

/// An error of a byte parser run from inside a bit parser; a shortfall is reported
/// without a size.
pub open spec fn byte_error_in_bits(e: ParseError) -> ParseError {
    match e {
        ParseError::Incomplete(_) => ParseError::Incomplete(Needed::Unknown),
        _ => e,
    }
}

fn byte_error_to_bits(e: ParseError) -> (r: ParseError)
    ensures
        r == byte_error_in_bits(e),
{
    match e {
        ParseError::Incomplete(_) => ParseError::Incomplete(Needed::Unknown),
        _ => e,
    }
}

/// The byte input that a byte parser sees from a bit position: a partly read byte is
/// skipped.
pub open spec fn bytes_at(s: Seq<u8>, bp: int) -> Seq<u8> {
    if bp > 0 { s.skip(1) } else { s }
}

/// Shape styles and the bit widths of the style indices that follow them.
#[derive(Clone, Debug, PartialEq, Eq)]
pub struct ShapeStylesBits {
    pub styles: ShapeStyles,
    pub fill_bits: usize,
    pub line_bits: usize,
}

pub struct ShapeStylesBitsModel {
    pub styles: ShapeStylesModel,
    pub fill_bits: usize,
    pub line_bits: usize,
}

impl DeepView for ShapeStylesBits {
    type V = ShapeStylesBitsModel;
    open spec fn deep_view(&self) -> ShapeStylesBitsModel {
        ShapeStylesBitsModel {
            styles: self.styles.deep_view(),
            fill_bits: self.fill_bits,
            line_bits: self.line_bits,
        }
    }
}

/// Fill styles and line styles (bytes, from the next byte boundary), then the bit
/// widths of fill and line style indices (4 bits each).
#[verifier::opaque]
pub open spec fn spec_shape_styles_bits(s: Seq<u8>, bp: int, version: ShapeVersion)
    -> SpecBitsResult<ShapeStylesBitsModel>
{
    match spec_fill_style_list(bytes_at(s, bp), version) {
        Err(e) => Err(byte_error_in_bits(e)),
        Ok((fill, b1)) => match spec_line_style_list(b1, version) {
            Err(e) => Err(byte_error_in_bits(e)),
            Ok((line, b2)) => match spec_take_bits(b2, 0, 4) {
                Err(e) => Err(e),
                Ok((fill_bits, (s3, p3))) => match spec_take_bits(s3, p3, 4) {
                    Err(e) => Err(e),
                    Ok((line_bits, st)) => Ok((
                        ShapeStylesBitsModel {
                            styles: ShapeStylesModel { fill, line },
                            fill_bits: fill_bits as usize,
                            line_bits: line_bits as usize,
                        },
                        st,
                    )),
                },
            },
        },
    }
}

pub fn parse_shape_styles_bits(input: (&[u8], usize), version: ShapeVersion) -> (r: BResult<ShapeStylesBits>)
    requires
        bit_input_ok(input.0@, input.1 as int),
    ensures
        bits_parsed_as(r, spec_shape_styles_bits(input.0@, input.1 as int, version)),
        bits_out_ok(r),
        r matches Ok((_, st)) ==> st.fill_bits < 16 && st.line_bits < 16,
{
    reveal(spec_shape_styles_bits);
    let bytes: &[u8] = bits_to_bytes(input.0, input.1);
    let (b1, fill) = match parse_fill_style_list(bytes, version) {
        Ok(ok) => ok,
        Err(e) => return Err(byte_error_to_bits(e)),
    };
    let (b2, line) = match parse_line_style_list(b1, version) {
        Ok(ok) => ok,
        Err(e) => return Err(byte_error_to_bits(e)),
    };
    let (st, fill_bits) = take_bits((b2, 0), 4)?;
    let (st, line_bits) = take_bits(st, 4)?;
    proof {
        vstd::arithmetic::power2::lemma2_to64();
    }
    Ok((
        st,
        ShapeStylesBits {
            styles: ShapeStyles { fill, line },
            fill_bits: fill_bits as usize,
            line_bits: line_bits as usize,
        },
    ))
}

/// Straight edge (after its two type bits): `n - 2` on 4 bits, a general-line flag, a
/// vertical flag for other lines, then the coordinates that the line has, on `n` bits.
#[verifier::opaque]
pub open spec fn spec_straight_edge_bits(s: Seq<u8>, bp: int) -> SpecBitsResult<Edge> {
    match spec_take_bits(s, bp, 4) {
        Err(e) => Err(e),
        Ok((nb, (s1, b1))) => {
            let n = (nb + 2) as nat;
            match spec_bool_bits(s1, b1) {
                Err(e) => Err(e),
                Ok((is_diagonal, (s2, b2))) => {
                    let vertical_r: SpecBitsResult<bool> = if is_diagonal {
                        Ok((false, (s2, b2)))
                    } else {
                        spec_bool_bits(s2, b2)
                    };
                    match vertical_r {
                        Err(e) => Err(e),
                        Ok((is_vertical, (s3, b3))) => {
                            let dx_r: SpecBitsResult<i32> = if is_diagonal || !is_vertical {
                                spec_i32_bits(s3, b3, n)
                            } else {
                                Ok((0i32, (s3, b3)))
                            };
                            match dx_r {
                                Err(e) => Err(e),
                                Ok((dx, (s4, b4))) => {
                                    let dy_r: SpecBitsResult<i32> = if is_diagonal || is_vertical {
                                        spec_i32_bits(s4, b4, n)
                                    } else {
                                        Ok((0i32, (s4, b4)))
                                    };
                                    match dy_r {
                                        Err(e) => Err(e),
                                        Ok((dy, st)) => Ok((
                                            Edge { delta: Vector2D { x: dx, y: dy }, control_delta: None },
                                            st,
                                        )),
                                    }
                                },
                            }
                        },
                    }
                },
            }
        },
    }
}

impl DeepView for Edge {
    type V = Edge;
    open spec fn deep_view(&self) -> Edge { *self }
}

pub fn parse_straight_edge_bits(input: (&[u8], usize)) -> (r: BResult<Edge>)
    requires
        bit_input_ok(input.0@, input.1 as int),
    ensures
        bits_parsed_as(r, spec_straight_edge_bits(input.0@, input.1 as int)),
        bits_out_ok(r),
{
    reveal(spec_straight_edge_bits);
    let (st, nb) = take_bits(input, 4)?;
    proof {
        vstd::arithmetic::power2::lemma2_to64();
    }
    let n: usize = nb as usize + 2;
    let (st, is_diagonal) = parse_bool_bits(st)?;
    let (st, is_vertical) = if is_diagonal {
        (st, false)
    } else {
        parse_bool_bits(st)?
    };
    let (st, dx) = if is_diagonal || !is_vertical {
        parse_i32_bits(st, n)?
    } else {
        (st, 0i32)
    };
    let (st, dy) = if is_diagonal || is_vertical {
        parse_i32_bits(st, n)?
    } else {
        (st, 0i32)
    };
    Ok((st, Edge { delta: Vector2D { x: dx, y: dy }, control_delta: None }))
}

/// Curved edge (after its two type bits): `n - 2` on 4 bits, then the control point
/// and the anchor, relative to each other, on `n` bits each; the delta is their sum.
#[verifier::opaque]
pub open spec fn spec_curved_edge_bits(s: Seq<u8>, bp: int) -> SpecBitsResult<Edge> {
    match spec_take_bits(s, bp, 4) {
        Err(e) => Err(e),
        Ok((nb, (s1, b1))) => {
            let n = (nb + 2) as nat;
            match spec_i32_bits(s1, b1, n) {
                Err(e) => Err(e),
                Ok((cx, (s2, b2))) => match spec_i32_bits(s2, b2, n) {
                    Err(e) => Err(e),
                    Ok((cy, (s3, b3))) => match spec_i32_bits(s3, b3, n) {
                        Err(e) => Err(e),
                        Ok((ax, (s4, b4))) => match spec_i32_bits(s4, b4, n) {
                            Err(e) => Err(e),
                            Ok((ay, st)) => Ok((
                                Edge {
                                    delta: Vector2D { x: (cx + ax) as i32, y: (cy + ay) as i32 },
                                    control_delta: Some(Vector2D { x: cx, y: cy }),
                                },
                                st,
                            )),
                        },
                    },
                },
            }
        },
    }
}

#[verifier::rlimit(40)]
pub fn parse_curved_edge_bits(input: (&[u8], usize)) -> (r: BResult<Edge>)
    requires
        bit_input_ok(input.0@, input.1 as int),
    ensures
        bits_parsed_as(r, spec_curved_edge_bits(input.0@, input.1 as int)),
        bits_out_ok(r),
{
    reveal(spec_curved_edge_bits);
    let (st, nb) = take_bits(input, 4)?;
    proof {
        vstd::arithmetic::power2::lemma2_to64();
    }
    let n: usize = nb as usize + 2;
    let (st, cx) = parse_i32_bits(st, n)?;
    let (st, cy) = parse_i32_bits(st, n)?;
    let (st, ax) = parse_i32_bits(st, n)?;
    let (st, ay) = parse_i32_bits(st, n)?;
    let x: i32 = (cx as i64 + ax as i64) as i32;
    let y: i32 = (cy as i64 + ay as i64) as i32;
    Ok((st, Edge { delta: Vector2D { x, y }, control_delta: Some(Vector2D { x: cx, y: cy }) }))
}

/// An optional unsigned value on `n` bits.
pub open spec fn spec_opt_index_bits(s: Seq<u8>, bp: int, present: bool, n: nat)
    -> SpecBitsResult<Option<usize>>
{
    if present {
        match spec_u16_bits(s, bp, n) {
            Err(e) => Err(e),
            Ok((v, st)) => Ok((Some(v as usize), st)),
        }
    } else {
        Ok((None, (s, bp)))
    }
}

pub fn parse_opt_index_bits(input: (&[u8], usize), present: bool, n: usize) -> (r: BResult<Option<usize>>)
    requires
        bit_input_ok(input.0@, input.1 as int),
        n <= 16,
    ensures
        bits_parsed_as(r, spec_opt_index_bits(input.0@, input.1 as int, present, n as nat)),
        bits_out_ok(r),
{
    if present {
        let (st, v) = parse_u16_bits(input, n)?;
        Ok((st, Some(v as usize)))
    } else {
        Ok((input, None))
    }
}

/// The optional move of a style change: `n` on 5 bits, then x and y on `n` bits.
pub open spec fn spec_move_to_bits(s: Seq<u8>, bp: int, present: bool) -> SpecBitsResult<Option<Vector2D>> {
    if present {
        match spec_u16_bits(s, bp, 5) {
            Err(e) => Err(e),
            Ok((n, (s1, b1))) => match spec_i32_bits(s1, b1, n as nat) {
                Err(e) => Err(e),
                Ok((x, (s2, b2))) => match spec_i32_bits(s2, b2, n as nat) {
                    Err(e) => Err(e),
                    Ok((y, st)) => Ok((Some(Vector2D { x, y }), st)),
                },
            },
        }
    } else {
        Ok((None, (s, bp)))
    }
}

impl DeepView for Vector2D {
    type V = Vector2D;
    open spec fn deep_view(&self) -> Vector2D { *self }
}

pub fn parse_move_to_bits(input: (&[u8], usize), present: bool) -> (r: BResult<Option<Vector2D>>)
    requires
        bit_input_ok(input.0@, input.1 as int),
    ensures
        bits_parsed_as(r, spec_move_to_bits(input.0@, input.1 as int, present)),
        bits_out_ok(r),
{
    if present {
        let (st, n) = parse_u16_bits(input, 5)?;
        proof {
            vstd::arithmetic::power2::lemma2_to64();
        }
        let (st, x) = parse_i32_bits(st, n as usize)?;
        let (st, y) = parse_i32_bits(st, n as usize)?;
        Ok((st, Some(Vector2D { x, y })))
    } else {
        Ok((input, None))
    }
}

/// The five flags that start a style change: new styles, line style, right fill, left
/// fill, move.
#[derive(Clone, Copy, Debug, PartialEq, Eq, Structural)]
pub struct StyleChangeFlags {
    pub new_styles: bool,
    pub change_line_style: bool,
    pub change_right_fill: bool,
    pub change_left_fill: bool,
    pub has_move_to: bool,
}

impl DeepView for StyleChangeFlags {
    type V = StyleChangeFlags;
    open spec fn deep_view(&self) -> StyleChangeFlags { *self }
}

pub open spec fn spec_style_change_flags_bits(s: Seq<u8>, bp: int) -> SpecBitsResult<StyleChangeFlags> {
    match spec_bool_bits(s, bp) {
        Err(e) => Err(e),
        Ok((new_styles, (s1, b1))) => match spec_bool_bits(s1, b1) {
            Err(e) => Err(e),
            Ok((change_line_style, (s2, b2))) => match spec_bool_bits(s2, b2) {
                Err(e) => Err(e),
                Ok((change_right_fill, (s3, b3))) => match spec_bool_bits(s3, b3) {
                    Err(e) => Err(e),
                    Ok((change_left_fill, (s4, b4))) => match spec_bool_bits(s4, b4) {
                        Err(e) => Err(e),
                        Ok((has_move_to, st)) => Ok((
                            StyleChangeFlags {
                                new_styles,
                                change_line_style,
                                change_right_fill,
                                change_left_fill,
                                has_move_to,
                            },
                            st,
                        )),
                    },
                },
            },
        },
    }
}

pub fn parse_style_change_flags_bits(input: (&[u8], usize)) -> (r: BResult<StyleChangeFlags>)
    requires
        bit_input_ok(input.0@, input.1 as int),
    ensures
        bits_parsed_as(r, spec_style_change_flags_bits(input.0@, input.1 as int)),
        bits_out_ok(r),
{
    let (st, new_styles) = parse_bool_bits(input)?;
    let (st, change_line_style) = parse_bool_bits(st)?;
    let (st, change_right_fill) = parse_bool_bits(st)?;
    let (st, change_left_fill) = parse_bool_bits(st)?;
    let (st, has_move_to) = parse_bool_bits(st)?;
    Ok((
        st,
        StyleChangeFlags { new_styles, change_line_style, change_right_fill, change_left_fill, has_move_to },
    ))
}

/// A style change and the style index widths that hold after it.
#[derive(Clone, Debug, PartialEq, Eq)]
pub struct StyleChangeBits {
    pub change: StyleChange,
    pub fill_bits: usize,
    pub line_bits: usize,
}

pub struct StyleChangeBitsModel {
    pub change: StyleChangeModel,
    pub fill_bits: usize,
    pub line_bits: usize,
}

impl DeepView for StyleChangeBits {
    type V = StyleChangeBitsModel;
    open spec fn deep_view(&self) -> StyleChangeBitsModel {
        StyleChangeBitsModel {
            change: self.change.deep_view(),
            fill_bits: self.fill_bits,
            line_bits: self.line_bits,
        }
    }
}

/// Style change record (after its type bit): flags, optional move, optional left fill,
/// right fill (on `fill_bits` bits) and line style (on `line_bits` bits), optional new
/// styles, which bring new index widths.
#[verifier::opaque]
pub open spec fn spec_style_change_bits(
    s: Seq<u8>,
    bp: int,
    fill_bits: usize,
    line_bits: usize,
    version: ShapeVersion,
) -> SpecBitsResult<StyleChangeBitsModel> {
    match spec_style_change_flags_bits(s, bp) {
        Err(e) => Err(e),
        Ok((flags, (s1, b1))) => match spec_move_to_bits(s1, b1, flags.has_move_to) {
            Err(e) => Err(e),
            Ok((move_to, (s2, b2))) => match spec_opt_index_bits(s2, b2, flags.change_left_fill, fill_bits as nat) {
                Err(e) => Err(e),
                Ok((left_fill, (s3, b3))) => match spec_opt_index_bits(
                    s3,
                    b3,
                    flags.change_right_fill,
                    fill_bits as nat,
                ) {
                    Err(e) => Err(e),
                    Ok((right_fill, (s4, b4))) => match spec_opt_index_bits(
                        s4,
                        b4,
                        flags.change_line_style,
                        line_bits as nat,
                    ) {
                        Err(e) => Err(e),
                        Ok((line_style, (s5, b5))) => if flags.new_styles {
                            match spec_shape_styles_bits(s5, b5, version) {
                                Err(e) => Err(e),
                                Ok((styles, st)) => Ok((
                                    StyleChangeBitsModel {
                                        change: StyleChangeModel {
                                            move_to,
                                            left_fill,
                                            right_fill,
                                            line_style,
                                            new_styles: Some(styles.styles),
                                        },
                                        fill_bits: styles.fill_bits,
                                        line_bits: styles.line_bits,
                                    },
                                    st,
                                )),
                            }
                        } else {
                            Ok((
                                StyleChangeBitsModel {
                                    change: StyleChangeModel {
                                        move_to,
                                        left_fill,
                                        right_fill,
                                        line_style,
                                        new_styles: None,
                                    },
                                    fill_bits,
                                    line_bits,
                                },
                                (s5, b5),
                            ))
                        },
                    },
                },
            },
        },
    }
}

pub fn parse_style_change_bits(
    input: (&[u8], usize),
    fill_bits: usize,
    line_bits: usize,
    version: ShapeVersion,
) -> (r: BResult<StyleChangeBits>)
    requires
        bit_input_ok(input.0@, input.1 as int),
        fill_bits <= 16,
        line_bits <= 16,
    ensures
        bits_parsed_as(r, spec_style_change_bits(input.0@, input.1 as int, fill_bits, line_bits, version)),
        bits_out_ok(r),
        r matches Ok((_, c)) ==> c.fill_bits <= 16 && c.line_bits <= 16,
{
    reveal(spec_style_change_bits);
    let (st, flags) = parse_style_change_flags_bits(input)?;
    let (st, move_to) = parse_move_to_bits(st, flags.has_move_to)?;
    let (st, left_fill) = parse_opt_index_bits(st, flags.change_left_fill, fill_bits)?;
    let (st, right_fill) = parse_opt_index_bits(st, flags.change_right_fill, fill_bits)?;
    let (st, line_style) = parse_opt_index_bits(st, flags.change_line_style, line_bits)?;
    if flags.new_styles {
        let (st, styles) = parse_shape_styles_bits(st, version)?;
        let ShapeStylesBits { styles, fill_bits, line_bits } = styles;
        Ok((
            st,
            StyleChangeBits {
                change: StyleChange { move_to, left_fill, right_fill, line_style, new_styles: Some(styles) },
                fill_bits,
                line_bits,
            },
        ))
    } else {
        Ok((
            st,
            StyleChangeBits {
                change: StyleChange { move_to, left_fill, right_fill, line_style, new_styles: None },
                fill_bits,
                line_bits,
            },
        ))
    }
}

/// A shape record and the style index widths that hold after it.
#[derive(Clone, Debug, PartialEq, Eq)]
pub struct RecordBits {
    pub record: ShapeRecord,
    pub fill_bits: usize,
    pub line_bits: usize,
}

pub struct RecordBitsModel {
    pub record: ShapeRecordModel,
    pub fill_bits: usize,
    pub line_bits: usize,
}

impl DeepView for RecordBits {
    type V = RecordBitsModel;
    open spec fn deep_view(&self) -> RecordBitsModel {
        RecordBitsModel { record: self.record.deep_view(), fill_bits: self.fill_bits, line_bits: self.line_bits }
    }
}

/// A shortfall while reading the type bits of a record is reported without a size.
pub open spec fn unsized_shortfall(e: ParseError) -> ParseError {
    match e {
        ParseError::Incomplete(_) => ParseError::Incomplete(Needed::Unknown),
        _ => e,
    }
}

/// A shape record: an edge flag, then a straight flag and an edge, or a style change.
#[verifier::opaque]
pub open spec fn spec_shape_record_bits(
    s: Seq<u8>,
    bp: int,
    fill_bits: usize,
    line_bits: usize,
    version: ShapeVersion,
) -> SpecBitsResult<RecordBitsModel> {
    match spec_bool_bits(s, bp) {
        Err(e) => Err(unsized_shortfall(e)),
        Ok((is_edge, (s1, b1))) => if is_edge {
            match spec_bool_bits(s1, b1) {
                Err(e) => Err(unsized_shortfall(e)),
                Ok((is_straight, (s2, b2))) => {
                    let edge_r = if is_straight {
                        spec_straight_edge_bits(s2, b2)
                    } else {
                        spec_curved_edge_bits(s2, b2)
                    };
                    match edge_r {
                        Err(e) => Err(e),
                        Ok((edge, st)) => Ok((
                            RecordBitsModel { record: ShapeRecordModel::Edge(edge), fill_bits, line_bits },
                            st,
                        )),
                    }
                },
            }
        } else {
            match spec_style_change_bits(s1, b1, fill_bits, line_bits, version) {
                Err(e) => Err(e),
                Ok((c, st)) => Ok((
                    RecordBitsModel {
                        record: ShapeRecordModel::StyleChange(c.change),
                        fill_bits: c.fill_bits,
                        line_bits: c.line_bits,
                    },
                    st,
                )),
            }
        },
    }
}

pub fn shortfall_without_size(e: ParseError) -> (r: ParseError)
    ensures
        r == unsized_shortfall(e),
{
    match e {
        ParseError::Incomplete(_) => ParseError::Incomplete(Needed::Unknown),
        _ => e,
    }
}

pub fn parse_shape_record_bits(
    input: (&[u8], usize),
    fill_bits: usize,
    line_bits: usize,
    version: ShapeVersion,
) -> (r: BResult<RecordBits>)
    requires
        bit_input_ok(input.0@, input.1 as int),
        fill_bits <= 16,
        line_bits <= 16,
    ensures
        bits_parsed_as(r, spec_shape_record_bits(input.0@, input.1 as int, fill_bits, line_bits, version)),
        bits_out_ok(r),
        r matches Ok((_, c)) ==> c.fill_bits <= 16 && c.line_bits <= 16,
{
    reveal(spec_shape_record_bits);
    let (st, is_edge) = match parse_bool_bits(input) {
        Ok(ok) => ok,
        Err(e) => return Err(shortfall_without_size(e)),
    };
    if is_edge {
        let (st, is_straight) = match parse_bool_bits(st) {
            Ok(ok) => ok,
            Err(e) => return Err(shortfall_without_size(e)),
        };
        let (st, edge) = if is_straight {
            parse_straight_edge_bits(st)?
        } else {
            parse_curved_edge_bits(st)?
        };
        Ok((st, RecordBits { record: ShapeRecord::Edge(edge), fill_bits, line_bits }))
    } else {
        let (st, c) = parse_style_change_bits(st, fill_bits, line_bits, version)?;
        let StyleChangeBits { change, fill_bits, line_bits } = c;
        Ok((st, RecordBits { record: ShapeRecord::StyleChange(change), fill_bits, line_bits }))
    }
}

/// The bit input `(rest, rbp)` is well formed and strictly after `(s, bp)`.
pub open spec fn bits_advanced(s: Seq<u8>, bp: int, rest: Seq<u8>, rbp: int) -> bool {
    &&& bit_input_ok(rest, rbp)
    &&& (rest.len() < s.len() || (rest.len() == s.len() && rbp > bp))
}

/// Shape records up to the end record (six zero bits); a record that would read no bits
/// is an error.
pub open spec fn spec_shape_record_string_bits(
    s: Seq<u8>,
    bp: int,
    fill_bits: usize,
    line_bits: usize,
    version: ShapeVersion,
) -> SpecBitsResult<Seq<ShapeRecordModel>>
    decreases s.len(), 8 - bp,
{
    match spec_u16_bits(s, bp, 6) {
        Err(e) => Err(unsized_shortfall(e)),
        Ok((head, st)) => if head == 0 {
            Ok((Seq::empty(), st))
        } else {
            match spec_shape_record_bits(s, bp, fill_bits, line_bits, version) {
                Err(e) => Err(e),
                Ok((rec, (rest, rbp))) => if bits_advanced(s, bp, rest, rbp) && bp < 8 {
                    match spec_shape_record_string_bits(rest, rbp, rec.fill_bits, rec.line_bits, version) {
                        Err(e) => Err(e),
                        Ok((others, st2)) => Ok((seq![rec.record] + others, st2)),
                    }
                } else {
                    Err(ParseError::Error)
                },
            }
        },
    }
}

pub fn parse_shape_record_string_bits(
    input: (&[u8], usize),
    fill_bits: usize,
    line_bits: usize,
    version: ShapeVersion,
) -> (r: BResult<Vec<ShapeRecord>>)
    requires
        bit_input_ok(input.0@, input.1 as int),
        fill_bits <= 16,
        line_bits <= 16,
    ensures
        bits_parsed_as(r, spec_shape_record_string_bits(input.0@, input.1 as int, fill_bits, line_bits, version)),
        bits_out_ok(r),
{
    let mut cur: (&[u8], usize) = input;
    let mut fb: usize = fill_bits;
    let mut lb: usize = line_bits;
    let mut records: Vec<ShapeRecord> = Vec::new();
    proof {
        assert(records.deep_view() =~= Seq::<ShapeRecordModel>::empty());
    }
    loop
        invariant
            bit_input_ok(cur.0@, cur.1 as int),
            fb <= 16,
            lb <= 16,
            spec_shape_record_string_bits(input.0@, input.1 as int, fill_bits, line_bits, version)
                == match spec_shape_record_string_bits(cur.0@, cur.1 as int, fb, lb, version) {
                Err(e) => Err(e),
                Ok((others, st)) => Ok((records.deep_view() + others, st)),
            },
        decreases cur.0@.len(), 8 - cur.1,
    {
        match parse_u16_bits(cur, 6) {
            Err(e) => return Err(shortfall_without_size(e)),
            Ok((st, head)) => {
                if head == 0 {
                    proof {
                        assert(records.deep_view() + Seq::<ShapeRecordModel>::empty() =~= records.deep_view());
                    }
                    return Ok((st, records));
                }
            },
        }
        let ghost before = records.deep_view();
        let (next, rec) = parse_shape_record_bits(cur, fb, lb, version)?;
        let (ns, nbp) = next;
        let advanced: bool = nbp < 8 && (nbp == 0 || ns.len() > 0) && (ns.len() < cur.0.len() || (
        ns.len() == cur.0.len() && nbp > cur.1));
        if !advanced {
            return Err(ParseError::Error);
        }
        let RecordBits { record, fill_bits: nfb, line_bits: nlb } = rec;
        let ghost rm = record.deep_view();
        records.push(record);
        proof {
            assert(records.deep_view() =~= before.push(rm));
            match spec_shape_record_string_bits(ns@, nbp as int, nfb, nlb, version) {
                Err(_) => {},
                Ok((others, _)) => {
                    assert(before + (seq![rm] + others) =~= records.deep_view() + others);
                },
            }
        }
        cur = next;
        fb = nfb;
        lb = nlb;
    }
}

/// A shape: its styles, then its records.
pub open spec fn spec_shape_bits(s: Seq<u8>, bp: int, version: ShapeVersion) -> SpecBitsResult<ShapeModel> {
    match spec_shape_styles_bits(s, bp, version) {
        Err(e) => Err(e),
        Ok((styles, (s1, b1))) => match spec_shape_record_string_bits(
            s1,
            b1,
            styles.fill_bits,
            styles.line_bits,
            version,
        ) {
            Err(e) => Err(e),
            Ok((records, st)) => Ok((ShapeModel { initial_styles: styles.styles, records }, st)),
        },
    }
}

pub fn parse_shape_bits(input: (&[u8], usize), version: ShapeVersion) -> (r: BResult<Shape>)
    requires
        bit_input_ok(input.0@, input.1 as int),
    ensures
        bits_parsed_as(r, spec_shape_bits(input.0@, input.1 as int, version)),
        bits_out_ok(r),
{
    let (st, styles) = parse_shape_styles_bits(input, version)?;
    let ShapeStylesBits { styles, fill_bits, line_bits } = styles;
    let (st, records) = parse_shape_record_string_bits(st, fill_bits, line_bits, version)?;
    Ok((st, Shape { initial_styles: styles, records }))
}

pub open spec fn spec_shape(s: Seq<u8>, version: ShapeVersion) -> SpecResult<ShapeModel> {
    spec_from_bits(spec_shape_bits(s, 0, version))
}

pub fn parse_shape(input: &[u8], version: ShapeVersion) -> (r: PResult<Shape>)
    ensures
        parsed_as(r, spec_shape(input@, version)),
{
    match parse_shape_bits((input, 0), version) {
        Ok(((rest, pos), v)) => Ok((bits_to_bytes(rest, pos), v)),
        Err(e) => Err(bits_error_to_bytes(e)),
    }
}

/// A glyph: fill and line index widths (4 bits each), then records of version 1.
pub open spec fn spec_glyph_bits(s: Seq<u8>, bp: int) -> SpecBitsResult<Seq<ShapeRecordModel>> {
    match spec_take_bits(s, bp, 4) {
        Err(e) => Err(e),
        Ok((fill_bits, (s1, b1))) => match spec_take_bits(s1, b1, 4) {
            Err(e) => Err(e),
            Ok((line_bits, (s2, b2))) => spec_shape_record_string_bits(
                s2,
                b2,
                fill_bits as usize,
                line_bits as usize,
                ShapeVersion::Shape1,
            ),
        },
    }
}

pub fn parse_glyph_bits(input: (&[u8], usize)) -> (r: BResult<Glyph>)
    requires
        bit_input_ok(input.0@, input.1 as int),
    ensures
        bits_parsed_as(r, spec_glyph_bits(input.0@, input.1 as int)),
        bits_out_ok(r),
{
    let (st, fill_bits) = take_bits(input, 4)?;
    let (st, line_bits) = take_bits(st, 4)?;
    proof {
        vstd::arithmetic::power2::lemma2_to64();
    }
    let (st, records) = parse_shape_record_string_bits(
        st,
        fill_bits as usize,
        line_bits as usize,
        ShapeVersion::Shape1,
    )?;
    Ok((st, Glyph { records }))
}

pub open spec fn spec_glyph(s: Seq<u8>) -> SpecResult<Seq<ShapeRecordModel>> {
    spec_from_bits(spec_glyph_bits(s, 0))
}

pub fn parse_glyph(input: &[u8]) -> (r: PResult<Glyph>)
    ensures
        parsed_as(r, spec_glyph(input@)),
{
    match parse_glyph_bits((input, 0)) {
        Ok(((rest, pos), v)) => Ok((bits_to_bytes(rest, pos), v)),
        Err(e) => Err(bits_error_to_bytes(e)),
    }
}

} // verus!

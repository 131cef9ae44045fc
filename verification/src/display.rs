//! Display list tags: blend modes, filters, clip actions and `PlaceObject`.
use vstd::prelude::*;
use vstd::slice::slice_subrange;
use vstd::slice::slice_to_vec;
use crate::ast::{ColorTransformWithAlpha, Matrix, StraightSRgba8};
use crate::basic_data_types::{
    parse_color_transform, parse_color_transform_with_alpha, parse_le_fixed16_p16,
    parse_le_fixed8_p8, parse_matrix, parse_straight_s_rgba8, spec_color_transform,
    spec_color_transform_with_alpha, spec_le_fixed16_p16, spec_le_fixed8_p8, spec_matrix,
    spec_straight_s_rgba8,
};
use crate::bytes::{
    parse_c_string, parse_le_u16, parse_le_u16_c, parse_le_u32, parse_u8, parse_u8_c, spec_c_string,
    spec_le_u16, spec_le_u32, spec_take, spec_u8, take,
};
use crate::error::{Needed, ParseError, PResult, SpecResult, parsed_as, sopt, spec_complete};
use crate::fixed::{Sfixed16P16, Sfixed8P8};
use crate::shape::ColorStop;

verus! {

#[derive(Clone, Copy, Debug, PartialEq, Eq, Structural)]
pub enum BlendMode {
    Normal,
    Layer,
    Multiply,
    Screen,
    Lighten,
    Darken,
    Difference,
    Add,
    Subtract,
    Invert,
    Alpha,
    Erase,
    Overlay,
    Hardlight,
}

impl DeepView for BlendMode {
    type V = BlendMode;
    open spec fn deep_view(&self) -> BlendMode { *self }
}

/// Blend mode by code (0 and 1 are both `Normal`; codes above 14 are invalid).
pub open spec fn blend_mode_of(code: u8) -> Option<BlendMode> {
    if code <= 1 {
        Some(BlendMode::Normal)
    } else if code == 2 {
        Some(BlendMode::Layer)
    } else if code == 3 {
        Some(BlendMode::Multiply)
    } else if code == 4 {
        Some(BlendMode::Screen)
    } else if code == 5 {
        Some(BlendMode::Lighten)
    } else if code == 6 {
        Some(BlendMode::Darken)
    } else if code == 7 {
        Some(BlendMode::Difference)
    } else if code == 8 {
        Some(BlendMode::Add)
    } else if code == 9 {
        Some(BlendMode::Subtract)
    } else if code == 10 {
        Some(BlendMode::Invert)
    } else if code == 11 {
        Some(BlendMode::Alpha)
    } else if code == 12 {
        Some(BlendMode::Erase)
    } else if code == 13 {
        Some(BlendMode::Overlay)
    } else if code == 14 {
        Some(BlendMode::Hardlight)
    } else {
        None
    }
}

pub open spec fn spec_blend_mode(s: Seq<u8>) -> SpecResult<BlendMode> {
    match spec_u8(s) {
        Err(e) => Err(e),
        Ok((code, rest)) => match blend_mode_of(code) {
            Some(m) => Ok((m, rest)),
            None => Err(ParseError::Error),
        },
    }
}

pub fn parse_blend_mode(input: &[u8]) -> (r: PResult<BlendMode>)
    ensures
        parsed_as(r, spec_blend_mode(input@)),
{
    let (rest, code) = parse_u8(input)?;
    let mode = if code <= 1 {
        BlendMode::Normal
    } else if code == 2 {
        BlendMode::Layer
    } else if code == 3 {
        BlendMode::Multiply
    } else if code == 4 {
        BlendMode::Screen
    } else if code == 5 {
        BlendMode::Lighten
    } else if code == 6 {
        BlendMode::Darken
    } else if code == 7 {
        BlendMode::Difference
    } else if code == 8 {
        BlendMode::Add
    } else if code == 9 {
        BlendMode::Subtract
    } else if code == 10 {
        BlendMode::Invert
    } else if code == 11 {
        BlendMode::Alpha
    } else if code == 12 {
        BlendMode::Erase
    } else if code == 13 {
        BlendMode::Overlay
    } else if code == 14 {
        BlendMode::Hardlight
    } else {
        return Err(ParseError::Error);
    };
    Ok((rest, mode))
}

// ---------------------------------------------------------------------------
// Clip actions
// ---------------------------------------------------------------------------

/// Events that trigger a clip action.
#[derive(Clone, Copy, Debug, PartialEq, Eq, Structural)]
pub struct ClipEventFlags {
    pub load: bool,
    pub enter_frame: bool,
    pub unload: bool,
    pub mouse_move: bool,
    pub mouse_down: bool,
    pub mouse_up: bool,
    pub key_down: bool,
    pub key_up: bool,
    pub data: bool,
    pub initialize: bool,
    pub press: bool,
    pub release: bool,
    pub release_outside: bool,
    pub roll_over: bool,
    pub roll_out: bool,
    pub drag_over: bool,
    pub drag_out: bool,
    pub key_press: bool,
    pub construct: bool,
}

/// The event flags held in the bits of `flags`, from the low bit up.
pub open spec fn clip_event_flags_of(flags: u32) -> ClipEventFlags {
    ClipEventFlags {
        load: flags & 0x1u32 != 0,
        enter_frame: flags & 0x2u32 != 0,
        unload: flags & 0x4u32 != 0,
        mouse_move: flags & 0x8u32 != 0,
        mouse_down: flags & 0x10u32 != 0,
        mouse_up: flags & 0x20u32 != 0,
        key_down: flags & 0x40u32 != 0,
        key_up: flags & 0x80u32 != 0,
        data: flags & 0x100u32 != 0,
        initialize: flags & 0x200u32 != 0,
        press: flags & 0x400u32 != 0,
        release: flags & 0x800u32 != 0,
        release_outside: flags & 0x1000u32 != 0,
        roll_over: flags & 0x2000u32 != 0,
        roll_out: flags & 0x4000u32 != 0,
        drag_over: flags & 0x8000u32 != 0,
        drag_out: flags & 0x10000u32 != 0,
        key_press: flags & 0x20000u32 != 0,
        construct: flags & 0x40000u32 != 0,
    }
}

fn clip_event_flags_from(flags: u32) -> (r: ClipEventFlags)
    ensures
        r == clip_event_flags_of(flags),
{
    ClipEventFlags {
        load: flags & 0x1u32 != 0,
        enter_frame: flags & 0x2u32 != 0,
        unload: flags & 0x4u32 != 0,
        mouse_move: flags & 0x8u32 != 0,
        mouse_down: flags & 0x10u32 != 0,
        mouse_up: flags & 0x20u32 != 0,
        key_down: flags & 0x40u32 != 0,
        key_up: flags & 0x80u32 != 0,
        data: flags & 0x100u32 != 0,
        initialize: flags & 0x200u32 != 0,
        press: flags & 0x400u32 != 0,
        release: flags & 0x800u32 != 0,
        release_outside: flags & 0x1000u32 != 0,
        roll_over: flags & 0x2000u32 != 0,
        roll_out: flags & 0x4000u32 != 0,
        drag_over: flags & 0x8000u32 != 0,
        drag_out: flags & 0x10000u32 != 0,
        key_press: flags & 0x20000u32 != 0,
        construct: flags & 0x40000u32 != 0,
    }
}

/// Event flags: a `UINT32_LE` with extended events (from SWF 6), else a `UINT16_LE`.
pub open spec fn spec_event_flags_word(s: Seq<u8>, extended_events: bool) -> SpecResult<u32> {
    if extended_events {
        spec_le_u32(s)
    } else {
        match spec_le_u16(s) {
            Err(e) => Err(e),
            Ok((v, rest)) => Ok((v as u32, rest)),
        }
    }
}

fn parse_event_flags_word(input: &[u8], extended_events: bool) -> (r: PResult<u32>)
    ensures
        parsed_as(r, spec_event_flags_word(input@, extended_events)),
{
    if extended_events {
        parse_le_u32(input)
    } else {
        let (rest, v) = parse_le_u16(input)?;
        Ok((rest, v as u32))
    }
}

pub open spec fn spec_clip_event_flags(s: Seq<u8>, extended_events: bool) -> SpecResult<ClipEventFlags> {
    match spec_event_flags_word(s, extended_events) {
        Err(e) => Err(e),
        Ok((flags, rest)) => Ok((clip_event_flags_of(flags), rest)),
    }
}

impl DeepView for ClipEventFlags {
    type V = ClipEventFlags;
    open spec fn deep_view(&self) -> ClipEventFlags { *self }
}

pub fn parse_clip_event_flags(input: &[u8], extended_events: bool) -> (r: PResult<ClipEventFlags>)
    ensures
        parsed_as(r, spec_clip_event_flags(input@, extended_events)),
{
    let (rest, flags) = parse_event_flags_word(input, extended_events)?;
    Ok((rest, clip_event_flags_from(flags)))
}

/// An action run on clip events.
#[derive(Clone, Debug, PartialEq, Eq)]
pub struct ClipAction {
    pub events: ClipEventFlags,
    pub key_code: Option<u8>,
    pub actions: Vec<u8>,
}

pub struct ClipActionModel {
    pub events: ClipEventFlags,
    pub key_code: Option<u8>,
    pub actions: Seq<u8>,
}

impl DeepView for ClipAction {
    type V = ClipActionModel;
    open spec fn deep_view(&self) -> ClipActionModel {
        ClipActionModel { events: self.events, key_code: self.key_code, actions: self.actions@ }
    }
}

/// A clip action: events, `UINT32_LE` size of the actions, the key code for key press
/// events (counted in the size), then the action bytes.
pub open spec fn spec_clip_actions(s: Seq<u8>, extended_events: bool) -> SpecResult<ClipActionModel> {
    match spec_clip_event_flags(s, extended_events) {
        Err(e) => Err(e),
        Ok((events, s1)) => match spec_le_u32(s1) {
            Err(e) => Err(e),
            Ok((size, s2)) => {
                let key_r: SpecResult<(Option<u8>, int)> = if events.key_press {
                    match spec_u8(s2) {
                        Err(e) => Err(e),
                        Ok((k, r)) => Ok(((Some(k), if size == 0 { 0int } else { size - 1 }), r)),
                    }
                } else {
                    Ok(((None, size as int), s2))
                };
                match key_r {
                    Err(e) => Err(e),
                    Ok(((key_code, n), s3)) => match spec_take(s3, n) {
                        Err(e) => Err(e),
                        Ok((actions, rest)) => Ok((ClipActionModel { events, key_code, actions }, rest)),
                    },
                }
            },
        },
    }
}

pub fn parse_clip_actions(input: &[u8], extended_events: bool) -> (r: PResult<ClipAction>)
    ensures
        parsed_as(r, spec_clip_actions(input@, extended_events)),
{
    let (rest, events) = parse_clip_event_flags(input, extended_events)?;
    let (rest, size) = parse_le_u32(rest)?;
    let (rest, key_code, n) = if events.key_press {
        let (rest, k) = parse_u8(rest)?;
        (rest, Some(k), size.saturating_sub(1))
    } else {
        (rest, None, size)
    };
    let (rest, actions) = take(rest, n as usize)?;
    Ok((rest, ClipAction { events, key_code, actions: slice_to_vec(actions) }))
}

/// Clip actions up to the zero event word.
pub open spec fn spec_clip_action_records(s: Seq<u8>, extended_events: bool) -> SpecResult<Seq<ClipActionModel>>
    decreases s.len(),
{
    match spec_event_flags_word(s, extended_events) {
        Err(e) => Err(e),
        Ok((head, s1)) => if head == 0 {
            Ok((Seq::empty(), s1))
        } else {
            match spec_clip_actions(s, extended_events) {
                Err(e) => Err(e),
                Ok((action, rest)) => if rest.len() < s.len() {
                    match spec_clip_action_records(rest, extended_events) {
                        Err(e) => Err(e),
                        Ok((others, r)) => Ok((seq![action] + others, r)),
                    }
                } else {
                    Err(ParseError::Error)
                },
            }
        },
    }
}

/// Clip actions of a `PlaceObject`: 2 reserved bytes, the union of all events (4 bytes
/// with extended events, else 2), then clip actions up to the zero event word.
pub open spec fn spec_clip_actions_string(s: Seq<u8>, extended_events: bool) -> SpecResult<Seq<ClipActionModel>> {
    let skipped: int = if extended_events { 6 } else { 4 };
    if s.len() < skipped {
        Err(ParseError::Incomplete(Needed::Size((skipped - s.len()) as usize)))
    } else {
        spec_clip_action_records(s.skip(skipped), extended_events)
    }
}

pub fn parse_clip_actions_string(input: &[u8], extended_events: bool) -> (r: PResult<Vec<ClipAction>>)
    ensures
        match (r, spec_clip_actions_string(input@, extended_events)) {
            (Ok((rest, v)), Ok((m, srest))) => rest@ == srest && v.deep_view() == m,
            (Err(e1), Err(e2)) => e1 == e2,
            _ => false,
        },
{
    let skipped: usize = if extended_events { 6 } else { 4 };
    if input.len() < skipped {
        return Err(ParseError::Incomplete(Needed::Size(skipped - input.len())));
    }
    let start: &[u8] = slice_subrange(input, skipped, input.len());
    let mut current: &[u8] = start;
    let mut result: Vec<ClipAction> = Vec::new();
    proof {
        assert(result.deep_view() =~= Seq::<ClipActionModel>::empty());
    }
    loop
        invariant
            start@ == input@.skip(skipped as int),
            spec_clip_actions_string(input@, extended_events) == spec_clip_action_records(start@, extended_events),
            spec_clip_action_records(start@, extended_events) == match spec_clip_action_records(
                current@,
                extended_events,
            ) {
                Err(e) => Err(e),
                Ok((others, r)) => Ok((result.deep_view() + others, r)),
            },
        decreases current@.len(),
    {
        let (after_head, head) = parse_event_flags_word(current, extended_events)?;
        if head == 0 {
            proof {
                assert(result.deep_view() + Seq::<ClipActionModel>::empty() =~= result.deep_view());
            }
            return Ok((after_head, result));
        }
        let ghost before = result.deep_view();
        let (next, action) = parse_clip_actions(current, extended_events)?;
        if next.len() >= current.len() {
            return Err(ParseError::Error);
        }
        let ghost am = action.deep_view();
        result.push(action);
        proof {
            assert(result.deep_view() =~= before.push(am));
            match spec_clip_action_records(next@, extended_events) {
                Err(_) => {},
                Ok((others, _)) => {
                    assert(before + (seq![am] + others) =~= result.deep_view() + others);
                },
            }
        }
        current = next;
    }
}

// ---------------------------------------------------------------------------
// Filters
// ---------------------------------------------------------------------------

/// Blur, angle and distance (16.16 each) and strength (8.8) of shadow-like filters,
/// followed by their flag byte.
#[derive(Clone, Copy, Debug, PartialEq, Eq, Structural)]
pub struct ShadowParams {
    pub blur_x: Sfixed16P16,
    pub blur_y: Sfixed16P16,
    pub angle: Sfixed16P16,
    pub distance: Sfixed16P16,
    pub strength: Sfixed8P8,
    pub flags: u8,
}

impl DeepView for ShadowParams {
    type V = ShadowParams;
    open spec fn deep_view(&self) -> ShadowParams { *self }
}

pub open spec fn spec_shadow_params(s: Seq<u8>) -> SpecResult<ShadowParams> {
    match spec_le_fixed16_p16(s) {
        Err(e) => Err(e),
        Ok((blur_x, s1)) => match spec_le_fixed16_p16(s1) {
            Err(e) => Err(e),
            Ok((blur_y, s2)) => match spec_le_fixed16_p16(s2) {
                Err(e) => Err(e),
                Ok((angle, s3)) => match spec_le_fixed16_p16(s3) {
                    Err(e) => Err(e),
                    Ok((distance, s4)) => match spec_le_fixed8_p8(s4) {
                        Err(e) => Err(e),
                        Ok((strength, s5)) => match spec_u8(s5) {
                            Err(e) => Err(e),
                            Ok((flags, rest)) => Ok((
                                ShadowParams { blur_x, blur_y, angle, distance, strength, flags },
                                rest,
                            )),
                        },
                    },
                },
            },
        },
    }
}

fn parse_shadow_params(input: &[u8]) -> (r: PResult<ShadowParams>)
    ensures
        parsed_as(r, spec_shadow_params(input@)),
{
    let (rest, blur_x) = parse_le_fixed16_p16(input)?;
    let (rest, blur_y) = parse_le_fixed16_p16(rest)?;
    let (rest, angle) = parse_le_fixed16_p16(rest)?;
    let (rest, distance) = parse_le_fixed16_p16(rest)?;
    let (rest, strength) = parse_le_fixed8_p8(rest)?;
    let (rest, flags) = parse_u8(rest)?;
    Ok((rest, ShadowParams { blur_x, blur_y, angle, distance, strength, flags }))
}

#[derive(Clone, Copy, Debug, PartialEq, Eq, Structural)]
pub struct DropShadowFilter {
    pub color: StraightSRgba8,
    pub blur_x: Sfixed16P16,
    pub blur_y: Sfixed16P16,
    pub angle: Sfixed16P16,
    pub distance: Sfixed16P16,
    pub strength: Sfixed8P8,
    pub inner: bool,
    pub knockout: bool,
    pub composite_source: bool,
    pub passes: u8,
}

#[derive(Clone, Copy, Debug, PartialEq, Eq, Structural)]
pub struct BlurFilter {
    pub blur_x: Sfixed16P16,
    pub blur_y: Sfixed16P16,
    pub passes: u8,
}

#[derive(Clone, Copy, Debug, PartialEq, Eq, Structural)]
pub struct GlowFilter {
    pub color: StraightSRgba8,
    pub blur_x: Sfixed16P16,
    pub blur_y: Sfixed16P16,
    pub strength: Sfixed8P8,
    pub inner: bool,
    pub knockout: bool,
    pub composite_source: bool,
    pub passes: u8,
}

#[derive(Clone, Copy, Debug, PartialEq, Eq, Structural)]
pub struct BevelFilter {
    pub shadow_color: StraightSRgba8,
    pub highlight_color: StraightSRgba8,
    pub blur_x: Sfixed16P16,
    pub blur_y: Sfixed16P16,
    pub angle: Sfixed16P16,
    pub distance: Sfixed16P16,
    pub strength: Sfixed8P8,
    pub inner: bool,
    pub knockout: bool,
    pub composite_source: bool,
    pub on_top: bool,
    pub passes: u8,
}

/// Parameters of the gradient glow and gradient bevel filters.
#[derive(Clone, Debug, PartialEq, Eq)]
pub struct GradientFilter {
    pub gradient: Vec<ColorStop>,
    pub blur_x: Sfixed16P16,
    pub blur_y: Sfixed16P16,
    pub angle: Sfixed16P16,
    pub distance: Sfixed16P16,
    pub strength: Sfixed8P8,
    pub inner: bool,
    pub knockout: bool,
    pub composite_source: bool,
    pub on_top: bool,
    pub passes: u8,
}

/// Convolution filter; the floating-point values are kept as their IEEE 754 bits.
#[derive(Clone, Debug, PartialEq, Eq)]
pub struct ConvolutionFilter {
    pub matrix_width: usize,
    pub matrix_height: usize,
    pub divisor: u32,
    pub bias: u32,
    pub matrix: Vec<u32>,
    pub default_color: StraightSRgba8,
    pub clamp: bool,
    pub preserve_alpha: bool,
}

/// Color matrix filter: 20 floating-point values, kept as their IEEE 754 bits.
#[derive(Clone, Debug, PartialEq, Eq)]
pub struct ColorMatrixFilter {
    pub matrix: Vec<u32>,
}

#[derive(Clone, Debug, PartialEq, Eq)]
pub enum Filter {
    DropShadow(DropShadowFilter),
    Blur(BlurFilter),
    Glow(GlowFilter),
    Bevel(BevelFilter),
    GradientGlow(GradientFilter),
    Convolution(ConvolutionFilter),
    ColorMatrix(ColorMatrixFilter),
    GradientBevel(GradientFilter),
}

pub struct GradientFilterModel {
    pub gradient: Seq<ColorStop>,
    pub blur_x: Sfixed16P16,
    pub blur_y: Sfixed16P16,
    pub angle: Sfixed16P16,
    pub distance: Sfixed16P16,
    pub strength: Sfixed8P8,
    pub inner: bool,
    pub knockout: bool,
    pub composite_source: bool,
    pub on_top: bool,
    pub passes: u8,
}

pub struct ConvolutionFilterModel {
    pub matrix_width: usize,
    pub matrix_height: usize,
    pub divisor: u32,
    pub bias: u32,
    pub matrix: Seq<u32>,
    pub default_color: StraightSRgba8,
    pub clamp: bool,
    pub preserve_alpha: bool,
}

pub enum FilterModel {
    DropShadow(DropShadowFilter),
    Blur(BlurFilter),
    Glow(GlowFilter),
    Bevel(BevelFilter),
    GradientGlow(GradientFilterModel),
    Convolution(ConvolutionFilterModel),
    ColorMatrix(Seq<u32>),
    GradientBevel(GradientFilterModel),
}

impl DeepView for GradientFilter {
    type V = GradientFilterModel;
    open spec fn deep_view(&self) -> GradientFilterModel {
        GradientFilterModel {
            gradient: self.gradient@,
            blur_x: self.blur_x,
            blur_y: self.blur_y,
            angle: self.angle,
            distance: self.distance,
            strength: self.strength,
            inner: self.inner,
            knockout: self.knockout,
            composite_source: self.composite_source,
            on_top: self.on_top,
            passes: self.passes,
        }
    }
}

impl DeepView for Filter {
    type V = FilterModel;
    open spec fn deep_view(&self) -> FilterModel {
        match self {
            Filter::DropShadow(f) => FilterModel::DropShadow(*f),
            Filter::Blur(f) => FilterModel::Blur(*f),
            Filter::Glow(f) => FilterModel::Glow(*f),
            Filter::Bevel(f) => FilterModel::Bevel(*f),
            Filter::GradientGlow(f) => FilterModel::GradientGlow(f.deep_view()),
            Filter::Convolution(f) => FilterModel::Convolution(ConvolutionFilterModel {
                matrix_width: f.matrix_width,
                matrix_height: f.matrix_height,
                divisor: f.divisor,
                bias: f.bias,
                matrix: f.matrix@,
                default_color: f.default_color,
                clamp: f.clamp,
                preserve_alpha: f.preserve_alpha,
            }),
            Filter::ColorMatrix(f) => FilterModel::ColorMatrix(f.matrix@),
            Filter::GradientBevel(f) => FilterModel::GradientBevel(f.deep_view()),
        }
    }
}

pub open spec fn spec_drop_shadow_filter(s: Seq<u8>) -> SpecResult<DropShadowFilter> {
    match spec_straight_s_rgba8(s) {
        Err(e) => Err(e),
        Ok((color, s1)) => match spec_shadow_params(s1) {
            Err(e) => Err(e),
            Ok((p, rest)) => Ok((
                DropShadowFilter {
                    color,
                    blur_x: p.blur_x,
                    blur_y: p.blur_y,
                    angle: p.angle,
                    distance: p.distance,
                    strength: p.strength,
                    inner: p.flags & 0x80u8 != 0,
                    knockout: p.flags & 0x40u8 != 0,
                    composite_source: p.flags & 0x20u8 != 0,
                    passes: p.flags & 0x1fu8,
                },
                rest,
            )),
        },
    }
}

impl DeepView for DropShadowFilter {
    type V = DropShadowFilter;
    open spec fn deep_view(&self) -> DropShadowFilter { *self }
}

pub fn parse_drop_shadow_filter(input: &[u8]) -> (r: PResult<DropShadowFilter>)
    ensures
        parsed_as(r, spec_drop_shadow_filter(input@)),
{
    let (rest, color) = parse_straight_s_rgba8(input)?;
    let (rest, p) = parse_shadow_params(rest)?;
    Ok((
        rest,
        DropShadowFilter {
            color,
            blur_x: p.blur_x,
            blur_y: p.blur_y,
            angle: p.angle,
            distance: p.distance,
            strength: p.strength,
            inner: p.flags & 0x80u8 != 0,
            knockout: p.flags & 0x40u8 != 0,
            composite_source: p.flags & 0x20u8 != 0,
            passes: p.flags & 0x1fu8,
        },
    ))
}

pub open spec fn spec_blur_filter(s: Seq<u8>) -> SpecResult<BlurFilter> {
    match spec_le_fixed16_p16(s) {
        Err(e) => Err(e),
        Ok((blur_x, s1)) => match spec_le_fixed16_p16(s1) {
            Err(e) => Err(e),
            Ok((blur_y, s2)) => match spec_u8(s2) {
                Err(e) => Err(e),
                Ok((flags, rest)) => Ok((BlurFilter { blur_x, blur_y, passes: flags / 8 }, rest)),
            },
        },
    }
}

impl DeepView for BlurFilter {
    type V = BlurFilter;
    open spec fn deep_view(&self) -> BlurFilter { *self }
}

pub fn parse_blur_filter(input: &[u8]) -> (r: PResult<BlurFilter>)
    ensures
        parsed_as(r, spec_blur_filter(input@)),
{
    let (rest, blur_x) = parse_le_fixed16_p16(input)?;
    let (rest, blur_y) = parse_le_fixed16_p16(rest)?;
    let (rest, flags) = parse_u8(rest)?;
    Ok((rest, BlurFilter { blur_x, blur_y, passes: flags / 8 }))
}

pub open spec fn spec_glow_filter(s: Seq<u8>) -> SpecResult<GlowFilter> {
    match spec_straight_s_rgba8(s) {
        Err(e) => Err(e),
        Ok((color, s1)) => match spec_le_fixed16_p16(s1) {
            Err(e) => Err(e),
            Ok((blur_x, s2)) => match spec_le_fixed16_p16(s2) {
                Err(e) => Err(e),
                Ok((blur_y, s3)) => match spec_le_fixed8_p8(s3) {
                    Err(e) => Err(e),
                    Ok((strength, s4)) => match spec_u8(s4) {
                        Err(e) => Err(e),
                        Ok((flags, rest)) => Ok((
                            GlowFilter {
                                color,
                                blur_x,
                                blur_y,
                                strength,
                                inner: flags & 0x80u8 != 0,
                                knockout: flags & 0x40u8 != 0,
                                composite_source: flags & 0x20u8 != 0,
                                passes: flags & 0x1fu8,
                            },
                            rest,
                        )),
                    },
                },
            },
        },
    }
}

impl DeepView for GlowFilter {
    type V = GlowFilter;
    open spec fn deep_view(&self) -> GlowFilter { *self }
}

pub fn parse_glow_filter(input: &[u8]) -> (r: PResult<GlowFilter>)
    ensures
        parsed_as(r, spec_glow_filter(input@)),
{
    let (rest, color) = parse_straight_s_rgba8(input)?;
    let (rest, blur_x) = parse_le_fixed16_p16(rest)?;
    let (rest, blur_y) = parse_le_fixed16_p16(rest)?;
    let (rest, strength) = parse_le_fixed8_p8(rest)?;
    let (rest, flags) = parse_u8(rest)?;
    Ok((
        rest,
        GlowFilter {
            color,
            blur_x,
            blur_y,
            strength,
            inner: flags & 0x80u8 != 0,
            knockout: flags & 0x40u8 != 0,
            composite_source: flags & 0x20u8 != 0,
            passes: flags & 0x1fu8,
        },
    ))
}

pub open spec fn spec_bevel_filter(s: Seq<u8>) -> SpecResult<BevelFilter> {
    match spec_straight_s_rgba8(s) {
        Err(e) => Err(e),
        Ok((shadow_color, s1)) => match spec_straight_s_rgba8(s1) {
            Err(e) => Err(e),
            Ok((highlight_color, s2)) => match spec_shadow_params(s2) {
                Err(e) => Err(e),
                Ok((p, rest)) => Ok((
                    BevelFilter {
                        shadow_color,
                        highlight_color,
                        blur_x: p.blur_x,
                        blur_y: p.blur_y,
                        angle: p.angle,
                        distance: p.distance,
                        strength: p.strength,
                        inner: p.flags & 0x80u8 != 0,
                        knockout: p.flags & 0x40u8 != 0,
                        composite_source: p.flags & 0x20u8 != 0,
                        on_top: p.flags & 0x10u8 != 0,
                        passes: p.flags & 0x0fu8,
                    },
                    rest,
                )),
            },
        },
    }
}

impl DeepView for BevelFilter {
    type V = BevelFilter;
    open spec fn deep_view(&self) -> BevelFilter { *self }
}

pub fn parse_bevel_filter(input: &[u8]) -> (r: PResult<BevelFilter>)
    ensures
        parsed_as(r, spec_bevel_filter(input@)),
{
    let (rest, shadow_color) = parse_straight_s_rgba8(input)?;
    let (rest, highlight_color) = parse_straight_s_rgba8(rest)?;
    let (rest, p) = parse_shadow_params(rest)?;
    Ok((
        rest,
        BevelFilter {
            shadow_color,
            highlight_color,
            blur_x: p.blur_x,
            blur_y: p.blur_y,
            angle: p.angle,
            distance: p.distance,
            strength: p.strength,
            inner: p.flags & 0x80u8 != 0,
            knockout: p.flags & 0x40u8 != 0,
            composite_source: p.flags & 0x20u8 != 0,
            on_top: p.flags & 0x10u8 != 0,
            passes: p.flags & 0x0fu8,
        },
    ))
}

/// `count` colors (RGBA).
pub open spec fn spec_colors(s: Seq<u8>, count: nat) -> SpecResult<Seq<StraightSRgba8>>
    decreases count,
{
    if count == 0 {
        Ok((Seq::empty(), s))
    } else {
        match spec_straight_s_rgba8(s) {
            Err(e) => Err(e),
            Ok((first, s1)) => match spec_colors(s1, (count - 1) as nat) {
                Err(e) => Err(e),
                Ok((others, rest)) => Ok((seq![first] + others, rest)),
            },
        }
    }
}

fn parse_colors(input: &[u8], count: usize) -> (r: PResult<Vec<StraightSRgba8>>)
    ensures
        match (r, spec_colors(input@, count as nat)) {
            (Ok((rest, v)), Ok((m, srest))) => rest@ == srest && v@ == m,
            (Err(e1), Err(e2)) => e1 == e2,
            _ => false,
        },
{
    let mut rest: &[u8] = input;
    let mut items: Vec<StraightSRgba8> = Vec::new();
    let mut i: usize = 0;
    while i < count
        invariant
            i <= count,
            spec_colors(input@, count as nat) == match spec_colors(rest@, (count - i) as nat) {
                Err(e) => Err(e),
                Ok((others, r)) => Ok((items@ + others, r)),
            },
        decreases count - i,
    {
        let ghost before = items@;
        let (next, item) = parse_straight_s_rgba8(rest)?;
        items.push(item);
        proof {
            match spec_colors(next@, (count - i - 1) as nat) {
                Err(_) => {},
                Ok((others, _)) => {
                    assert(before + (seq![item] + others) =~= items@ + others);
                },
            }
        }
        rest = next;
        i = i + 1;
    }
    proof {
        assert(items@ + Seq::<StraightSRgba8>::empty() =~= items@);
    }
    Ok((rest, items))
}

/// `count` bytes, each read as a value.
pub open spec fn spec_u8s(s: Seq<u8>, count: nat) -> SpecResult<Seq<u8>> {
    spec_take(s, count as int)
}

/// `count` little-endian `UINT32` values.
pub open spec fn spec_u32s(s: Seq<u8>, count: nat) -> SpecResult<Seq<u32>>
    decreases count,
{
    if count == 0 {
        Ok((Seq::empty(), s))
    } else {
        match spec_le_u32(s) {
            Err(e) => Err(e),
            Ok((first, s1)) => match spec_u32s(s1, (count - 1) as nat) {
                Err(e) => Err(e),
                Ok((others, rest)) => Ok((seq![first] + others, rest)),
            },
        }
    }
}

fn parse_u32s(input: &[u8], count: usize) -> (r: PResult<Vec<u32>>)
    ensures
        match (r, spec_u32s(input@, count as nat)) {
            (Ok((rest, v)), Ok((m, srest))) => rest@ == srest && v@ == m,
            (Err(e1), Err(e2)) => e1 == e2,
            _ => false,
        },
{
    let mut rest: &[u8] = input;
    let mut items: Vec<u32> = Vec::new();
    let mut i: usize = 0;
    while i < count
        invariant
            i <= count,
            spec_u32s(input@, count as nat) == match spec_u32s(rest@, (count - i) as nat) {
                Err(e) => Err(e),
                Ok((others, r)) => Ok((items@ + others, r)),
            },
        decreases count - i,
    {
        let ghost before = items@;
        let (next, item) = parse_le_u32(rest)?;
        items.push(item);
        proof {
            match spec_u32s(next@, (count - i - 1) as nat) {
                Err(_) => {},
                Ok((others, _)) => {
                    assert(before + (seq![item] + others) =~= items@ + others);
                },
            }
        }
        rest = next;
        i = i + 1;
    }
    proof {
        assert(items@ + Seq::<u32>::empty() =~= items@);
    }
    Ok((rest, items))
}

/// The gradient of a filter: `count` colors, then `count` ratios.
pub open spec fn spec_filter_gradient(s: Seq<u8>, count: nat) -> SpecResult<Seq<ColorStop>> {
    match spec_colors(s, count) {
        Err(e) => Err(e),
        Ok((colors, s1)) => match spec_u8s(s1, count) {
            Err(e) => Err(e),
            Ok((ratios, rest)) => Ok((
                Seq::new(count, |i: int| ColorStop { ratio: ratios[i], color: colors[i] }),
                rest,
            )),
        },
    }
}

fn parse_filter_gradient(input: &[u8], count: usize) -> (r: PResult<Vec<ColorStop>>)
    ensures
        match (r, spec_filter_gradient(input@, count as nat)) {
            (Ok((rest, v)), Ok((m, srest))) => rest@ == srest && v@ == m,
            (Err(e1), Err(e2)) => e1 == e2,
            _ => false,
        },
{
    let (rest, colors) = parse_colors(input, count)?;
    let (rest, ratios) = take(rest, count)?;
    let mut stops: Vec<ColorStop> = Vec::new();
    let mut i: usize = 0;
    proof {
        lemma_colors_len(input@, count as nat);
    }
    while i < count
        invariant
            i <= count,
            colors@.len() == count,
            ratios@.len() == count,
            stops@.len() == i,
            forall|k: int| 0 <= k < i ==> stops@[k] == (ColorStop { ratio: ratios@[k], color: colors@[k] }),
        decreases count - i,
    {
        stops.push(ColorStop { ratio: ratios[i], color: colors[i] });
        i = i + 1;
    }
    proof {
        assert(stops@ =~= Seq::new(
            count as nat,
            |k: int| ColorStop { ratio: ratios@[k], color: colors@[k] },
        ));
    }
    Ok((rest, stops))
}

proof fn lemma_colors_len(s: Seq<u8>, count: nat)
    ensures
        spec_colors(s, count) matches Ok((v, _)) ==> v.len() == count,
    decreases count,
{
    if count > 0 {
        if let Ok((_, s1)) = spec_straight_s_rgba8(s) {
            lemma_colors_len(s1, (count - 1) as nat);
        }
    }
}

/// Gradient glow and gradient bevel filters: color count, gradient, then the shadow
/// parameters.
pub open spec fn spec_gradient_filter(s: Seq<u8>) -> SpecResult<GradientFilterModel> {
    match spec_u8(s) {
        Err(e) => Err(e),
        Ok((count, s1)) => match spec_filter_gradient(s1, count as nat) {
            Err(e) => Err(e),
            Ok((gradient, s2)) => match spec_shadow_params(s2) {
                Err(e) => Err(e),
                Ok((p, rest)) => Ok((
                    GradientFilterModel {
                        gradient,
                        blur_x: p.blur_x,
                        blur_y: p.blur_y,
                        angle: p.angle,
                        distance: p.distance,
                        strength: p.strength,
                        inner: p.flags & 0x80u8 != 0,
                        knockout: p.flags & 0x40u8 != 0,
                        composite_source: p.flags & 0x20u8 != 0,
                        on_top: p.flags & 0x10u8 != 0,
                        passes: p.flags & 0x0fu8,
                    },
                    rest,
                )),
            },
        },
    }
}

fn parse_gradient_filter(input: &[u8]) -> (r: PResult<GradientFilter>)
    ensures
        parsed_as(r, spec_gradient_filter(input@)),
{
    let (rest, count) = parse_u8(input)?;
    let (rest, gradient) = parse_filter_gradient(rest, count as usize)?;
    let (rest, p) = parse_shadow_params(rest)?;
    Ok((
        rest,
        GradientFilter {
            gradient,
            blur_x: p.blur_x,
            blur_y: p.blur_y,
            angle: p.angle,
            distance: p.distance,
            strength: p.strength,
            inner: p.flags & 0x80u8 != 0,
            knockout: p.flags & 0x40u8 != 0,
            composite_source: p.flags & 0x20u8 != 0,
            on_top: p.flags & 0x10u8 != 0,
            passes: p.flags & 0x0fu8,
        },
    ))
}

/// Convolution filter: width and height (`UINT8` each), divisor and bias (floats), the
/// matrix (floats), default color, then flags (preserve alpha, clamp).
pub open spec fn spec_convolution_filter(s: Seq<u8>) -> SpecResult<ConvolutionFilterModel> {
    match spec_u8(s) {
        Err(e) => Err(e),
        Ok((w, s1)) => match spec_u8(s1) {
            Err(e) => Err(e),
            Ok((h, s2)) => match spec_le_u32(s2) {
                Err(e) => Err(e),
                Ok((divisor, s3)) => match spec_le_u32(s3) {
                    Err(e) => Err(e),
                    Ok((bias, s4)) => match spec_u32s(s4, (w * h) as nat) {
                        Err(e) => Err(e),
                        Ok((matrix, s5)) => match spec_straight_s_rgba8(s5) {
                            Err(e) => Err(e),
                            Ok((default_color, s6)) => match spec_u8(s6) {
                                Err(e) => Err(e),
                                Ok((flags, rest)) => Ok((
                                    ConvolutionFilterModel {
                                        matrix_width: w as usize,
                                        matrix_height: h as usize,
                                        divisor,
                                        bias,
                                        matrix,
                                        default_color,
                                        clamp: flags & 2u8 != 0,
                                        preserve_alpha: flags & 1u8 != 0,
                                    },
                                    rest,
                                )),
                            },
                        },
                    },
                },
            },
        },
    }
}

/// A gradient glow filter: the layout of every gradient filter.
pub fn parse_gradient_glow_filter(input: &[u8]) -> (r: PResult<GradientFilter>)
    ensures
        parsed_as(r, spec_gradient_filter(input@)),
{
    parse_gradient_filter(input)
}

/// A gradient bevel filter: the layout of every gradient filter.
pub fn parse_gradient_bevel_filter(input: &[u8]) -> (r: PResult<GradientFilter>)
    ensures
        parsed_as(r, spec_gradient_filter(input@)),
{
    parse_gradient_filter(input)
}

/// A color matrix filter: twenty little-endian `f32` values, kept as their bit
/// patterns.
pub fn parse_color_matrix_filter(input: &[u8]) -> (r: PResult<ColorMatrixFilter>)
    ensures
        match (r, spec_u32s(input@, 20)) {
            (Ok((rest, f)), Ok((m, srest))) => rest@ == srest && f.matrix@ == m,
            (Err(e1), Err(e2)) => e1 == e2,
            _ => false,
        },
{
    let (rest, matrix) = parse_u32s(input, 20)?;
    Ok((rest, ColorMatrixFilter { matrix }))
}

pub fn parse_convolution_filter(input: &[u8]) -> (r: PResult<ConvolutionFilter>)
    ensures
        match (r, spec_convolution_filter(input@)) {
            (Ok((rest, v)), Ok((m, srest))) => rest@ == srest
                && Filter::Convolution(v).deep_view() == FilterModel::Convolution(m),
            (Err(e1), Err(e2)) => e1 == e2,
            _ => false,
        },
{
    let (rest, w) = parse_u8(input)?;
    let (rest, h) = parse_u8(rest)?;
    let (rest, divisor) = parse_le_u32(rest)?;
    let (rest, bias) = parse_le_u32(rest)?;
    assert(w * h <= 255 * 255) by (nonlinear_arith)
        requires
            w <= 255,
            h <= 255,
    ;
    let n: usize = w as usize * h as usize;
    let (rest, matrix) = parse_u32s(rest, n)?;
    let (rest, default_color) = parse_straight_s_rgba8(rest)?;
    let (rest, flags) = parse_u8(rest)?;
    Ok((
        rest,
        ConvolutionFilter {
            matrix_width: w as usize,
            matrix_height: h as usize,
            divisor,
            bias,
            matrix,
            default_color,
            clamp: flags & 2u8 != 0,
            preserve_alpha: flags & 1u8 != 0,
        },
    ))
}

/// A filter: a `UINT8` code, then the filter.
pub open spec fn spec_filter(s: Seq<u8>) -> SpecResult<FilterModel> {
    match spec_u8(s) {
        Err(e) => Err(e),
        Ok((code, s1)) => if code == 0 {
            match spec_drop_shadow_filter(s1) { Err(e) => Err(e), Ok((f, r)) => Ok((FilterModel::DropShadow(f), r)) }
        } else if code == 1 {
            match spec_blur_filter(s1) { Err(e) => Err(e), Ok((f, r)) => Ok((FilterModel::Blur(f), r)) }
        } else if code == 2 {
            match spec_glow_filter(s1) { Err(e) => Err(e), Ok((f, r)) => Ok((FilterModel::Glow(f), r)) }
        } else if code == 3 {
            match spec_bevel_filter(s1) { Err(e) => Err(e), Ok((f, r)) => Ok((FilterModel::Bevel(f), r)) }
        } else if code == 4 {
            match spec_gradient_filter(s1) { Err(e) => Err(e), Ok((f, r)) => Ok((FilterModel::GradientGlow(f), r)) }
        } else if code == 5 {
            match spec_convolution_filter(s1) {
                Err(e) => Err(e),
                Ok((f, r)) => Ok((FilterModel::Convolution(f), r)),
            }
        } else if code == 6 {
            match spec_u32s(s1, 20) { Err(e) => Err(e), Ok((m, r)) => Ok((FilterModel::ColorMatrix(m), r)) }
        } else if code == 7 {
            match spec_gradient_filter(s1) { Err(e) => Err(e), Ok((f, r)) => Ok((FilterModel::GradientBevel(f), r)) }
        } else {
            Err(ParseError::Error)
        },
    }
}

pub fn parse_filter(input: &[u8]) -> (r: PResult<Filter>)
    ensures
        parsed_as(r, spec_filter(input@)),
{
    let (rest, code) = parse_u8(input)?;
    match code {
        0 => {
            let (rest, f) = parse_drop_shadow_filter(rest)?;
            Ok((rest, Filter::DropShadow(f)))
        },
        1 => {
            let (rest, f) = parse_blur_filter(rest)?;
            Ok((rest, Filter::Blur(f)))
        },
        2 => {
            let (rest, f) = parse_glow_filter(rest)?;
            Ok((rest, Filter::Glow(f)))
        },
        3 => {
            let (rest, f) = parse_bevel_filter(rest)?;
            Ok((rest, Filter::Bevel(f)))
        },
        4 => {
            let (rest, f) = parse_gradient_glow_filter(rest)?;
            Ok((rest, Filter::GradientGlow(f)))
        },
        5 => {
            let (rest, f) = parse_convolution_filter(rest)?;
            Ok((rest, Filter::Convolution(f)))
        },
        6 => {
            let (rest, f) = parse_color_matrix_filter(rest)?;
            Ok((rest, Filter::ColorMatrix(f)))
        },
        7 => {
            let (rest, f) = parse_gradient_bevel_filter(rest)?;
            Ok((rest, Filter::GradientBevel(f)))
        },
        _ => Err(ParseError::Error),
    }
}

pub open spec fn spec_filters(s: Seq<u8>, count: nat) -> SpecResult<Seq<FilterModel>>
    decreases count,
{
    if count == 0 {
        Ok((Seq::empty(), s))
    } else {
        match spec_filter(s) {
            Err(e) => Err(e),
            Ok((first, s1)) => match spec_filters(s1, (count - 1) as nat) {
                Err(e) => Err(e),
                Ok((others, rest)) => Ok((seq![first] + others, rest)),
            },
        }
    }
}

/// A filter list: a `UINT8` count, then the filters.
pub open spec fn spec_filter_list(s: Seq<u8>) -> SpecResult<Seq<FilterModel>> {
    match spec_u8(s) {
        Err(e) => Err(e),
        Ok((count, s1)) => spec_filters(s1, count as nat),
    }
}

pub fn parse_filter_list(input: &[u8]) -> (r: PResult<Vec<Filter>>)
    ensures
        match (r, spec_filter_list(input@)) {
            (Ok((rest, v)), Ok((m, srest))) => rest@ == srest && v.deep_view() == m,
            (Err(e1), Err(e2)) => e1 == e2,
            _ => false,
        },
{
    let (start, count) = parse_u8(input)?;
    let mut rest: &[u8] = start;
    let mut filters: Vec<Filter> = Vec::new();
    let mut i: u8 = 0;
    while i < count
        invariant
            i <= count,
            spec_filter_list(input@) == spec_filters(start@, count as nat),
            spec_filters(start@, count as nat) == match spec_filters(rest@, (count - i) as nat) {
                Err(e) => Err(e),
                Ok((others, r)) => Ok((filters.deep_view() + others, r)),
            },
        decreases count - i,
    {
        let ghost before = filters.deep_view();
        let (next, f) = parse_filter(rest)?;
        let ghost fm = f.deep_view();
        filters.push(f);
        proof {
            assert(filters.deep_view() =~= before.push(fm));
            match spec_filters(next@, (count - i - 1) as nat) {
                Err(_) => {},
                Ok((others, _)) => {
                    assert(before + (seq![fm] + others) =~= filters.deep_view() + others);
                },
            }
        }
        rest = next;
        i = i + 1;
    }
    proof {
        assert(filters.deep_view() + Seq::<FilterModel>::empty() =~= filters.deep_view());
    }
    Ok((rest, filters))
}

// ---------------------------------------------------------------------------
// PlaceObject
// ---------------------------------------------------------------------------

/// Places a character on the display list, or updates it (tags `PlaceObject` to
/// `PlaceObject3`).
#[derive(Clone, Debug, PartialEq, Eq)]
pub struct PlaceObject {
    pub is_update: bool,
    pub depth: u16,
    pub character_id: Option<u16>,
    pub matrix: Option<Matrix>,
    pub color_transform: Option<ColorTransformWithAlpha>,
    pub ratio: Option<u16>,
    pub name: Option<String>,
    pub class_name: Option<String>,
    pub clip_depth: Option<u16>,
    pub filters: Option<Vec<Filter>>,
    pub blend_mode: Option<BlendMode>,
    pub bitmap_cache: Option<bool>,
    pub visible: Option<bool>,
    pub background_color: Option<StraightSRgba8>,
    pub clip_actions: Option<Vec<ClipAction>>,
}

pub struct PlaceObjectModel {
    pub is_update: bool,
    pub depth: u16,
    pub character_id: Option<u16>,
    pub matrix: Option<Matrix>,
    pub color_transform: Option<ColorTransformWithAlpha>,
    pub ratio: Option<u16>,
    pub name: Option<Seq<char>>,
    pub class_name: Option<Seq<char>>,
    pub clip_depth: Option<u16>,
    pub filters: Option<Seq<FilterModel>>,
    pub blend_mode: Option<BlendMode>,
    pub bitmap_cache: Option<bool>,
    pub visible: Option<bool>,
    pub background_color: Option<StraightSRgba8>,
    pub clip_actions: Option<Seq<ClipActionModel>>,
}

pub open spec fn opt_string_view(s: Option<String>) -> Option<Seq<char>> {
    match s {
        Some(v) => Some(v@),
        None => None,
    }
}

impl DeepView for PlaceObject {
    type V = PlaceObjectModel;
    open spec fn deep_view(&self) -> PlaceObjectModel {
        PlaceObjectModel {
            is_update: self.is_update,
            depth: self.depth,
            character_id: self.character_id,
            matrix: self.matrix,
            color_transform: self.color_transform,
            ratio: self.ratio,
            name: opt_string_view(self.name),
            class_name: opt_string_view(self.class_name),
            clip_depth: self.clip_depth,
            filters: match self.filters {
                Some(f) => Some(f.deep_view()),
                None => None,
            },
            blend_mode: self.blend_mode,
            bitmap_cache: self.bitmap_cache,
            visible: self.visible,
            background_color: self.background_color,
            clip_actions: match self.clip_actions {
                Some(c) => Some(c.deep_view()),
                None => None,
            },
        }
    }
}

/// A color transform without alpha, as one with neutral alpha terms.
pub open spec fn with_neutral_alpha(c: crate::ast::ColorTransform) -> ColorTransformWithAlpha {
    ColorTransformWithAlpha {
        red_mult: c.red_mult,
        green_mult: c.green_mult,
        blue_mult: c.blue_mult,
        alpha_mult: Sfixed8P8 { epsilons: 256 },
        red_add: c.red_add,
        green_add: c.green_add,
        blue_add: c.blue_add,
        alpha_add: 0,
    }
}

/// `PlaceObject`: character id, depth, matrix, then a color transform when bytes
/// remain.
#[verifier::opaque]
pub open spec fn spec_place_object(s: Seq<u8>) -> SpecResult<PlaceObjectModel> {
    match spec_complete(spec_le_u16(s)) {
        Err(e) => Err(e),
        Ok((character_id, s1)) => match spec_complete(spec_le_u16(s1)) {
            Err(e) => Err(e),
            Ok((depth, s2)) => match spec_matrix(s2) {
                Err(e) => Err(e),
                Ok((matrix, s3)) => match sopt(s3.len() > 0, s3, spec_color_transform(s3)) {
                    Err(e) => Err(e),
                    Ok((ct, rest)) => Ok((
                        PlaceObjectModel {
                            is_update: false,
                            depth,
                            character_id: Some(character_id),
                            matrix: Some(matrix),
                            color_transform: match ct {
                                Some(c) => Some(with_neutral_alpha(c)),
                                None => None,
                            },
                            ratio: None,
                            name: None,
                            class_name: None,
                            clip_depth: None,
                            filters: None,
                            blend_mode: None,
                            bitmap_cache: None,
                            visible: None,
                            background_color: None,
                            clip_actions: None,
                        },
                        rest,
                    )),
                },
            },
        },
    }
}

/// A `PlaceObject` body starts with the character id, then the depth, each a
/// little-endian number of two bytes; it always places a character (it is no update)
/// and always holds a matrix.
pub proof fn lemma_place_object_ids(s: Seq<u8>)
    ensures
        spec_place_object(s) matches Ok((p, _)) ==> {
            &&& s.len() >= 4
            &&& p.character_id == Some((s[0] + 256 * s[1]) as u16)
            &&& p.depth == s[2] + 256 * s[3]
            &&& !p.is_update
            &&& p.matrix is Some
        },
        s.len() >= 4 && spec_matrix(s.skip(4)) is Ok && spec_matrix(s.skip(4))->Ok_0.1.len() == 0
            ==> spec_place_object(s) is Ok,
{
    reveal(spec_place_object);
    if s.len() >= 2 {
        let s1 = s.skip(2);
        if s1.len() >= 2 {
            assert(s1[0] == s[2] && s1[1] == s[3]);
            assert(s1.skip(2) =~= s.skip(4));
        }
    }
}

pub fn parse_place_object(input: &[u8]) -> (r: PResult<PlaceObject>)
    ensures
        parsed_as(r, spec_place_object(input@)),
{
    reveal(spec_place_object);
    let (rest, character_id) = parse_le_u16_c(input)?;
    let (rest, depth) = parse_le_u16_c(rest)?;
    let (rest, matrix) = parse_matrix(rest)?;
    let (rest, color_transform) = if rest.len() > 0 {
        let (rest, c) = parse_color_transform(rest)?;
        (
            rest,
            Some(
                ColorTransformWithAlpha {
                    red_mult: c.red_mult,
                    green_mult: c.green_mult,
                    blue_mult: c.blue_mult,
                    alpha_mult: Sfixed8P8 { epsilons: 256 },
                    red_add: c.red_add,
                    green_add: c.green_add,
                    blue_add: c.blue_add,
                    alpha_add: 0,
                },
            ),
        )
    } else {
        (rest, None)
    };
    Ok((
        rest,
        PlaceObject {
            is_update: false,
            depth,
            character_id: Some(character_id),
            matrix: Some(matrix),
            color_transform,
            ratio: None,
            name: None,
            class_name: None,
            clip_depth: None,
            filters: None,
            blend_mode: None,
            bitmap_cache: None,
            visible: None,
            background_color: None,
            clip_actions: None,
        },
    ))
}

/// The fields shared by `PlaceObject2` and `PlaceObject3`, each present when its flag
/// is set: character id, matrix, color transform, ratio, name, clip depth.
pub struct PlaceFields {
    pub character_id: Option<u16>,
    pub matrix: Option<Matrix>,
    pub color_transform: Option<ColorTransformWithAlpha>,
    pub ratio: Option<u16>,
    pub name: Option<String>,
    pub clip_depth: Option<u16>,
}

pub struct PlaceFieldsModel {
    pub character_id: Option<u16>,
    pub matrix: Option<Matrix>,
    pub color_transform: Option<ColorTransformWithAlpha>,
    pub ratio: Option<u16>,
    pub name: Option<Seq<char>>,
    pub clip_depth: Option<u16>,
}

impl DeepView for PlaceFields {
    type V = PlaceFieldsModel;
    open spec fn deep_view(&self) -> PlaceFieldsModel {
        PlaceFieldsModel {
            character_id: self.character_id,
            matrix: self.matrix,
            color_transform: self.color_transform,
            ratio: self.ratio,
            name: opt_string_view(self.name),
            clip_depth: self.clip_depth,
        }
    }
}

pub open spec fn spec_place_fields(s: Seq<u8>, flags: u16) -> SpecResult<PlaceFieldsModel> {
    match sopt(flags & 2u16 != 0, s, spec_complete(spec_le_u16(s))) {
        Err(e) => Err(e),
        Ok((character_id, s1)) => match sopt(flags & 4u16 != 0, s1, spec_matrix(s1)) {
            Err(e) => Err(e),
            Ok((matrix, s2)) => match sopt(flags & 8u16 != 0, s2, spec_color_transform_with_alpha(s2)) {
                Err(e) => Err(e),
                Ok((color_transform, s3)) => match sopt(flags & 16u16 != 0, s3, spec_complete(spec_le_u16(s3))) {
                    Err(e) => Err(e),
                    Ok((ratio, s4)) => match sopt(flags & 32u16 != 0, s4, spec_c_string(s4)) {
                        Err(e) => Err(e),
                        Ok((name, s5)) => match sopt(flags & 64u16 != 0, s5, spec_complete(spec_le_u16(s5))) {
                            Err(e) => Err(e),
                            Ok((clip_depth, rest)) => Ok((
                                PlaceFieldsModel { character_id, matrix, color_transform, ratio, name, clip_depth },
                                rest,
                            )),
                        },
                    },
                },
            },
        },
    }
}

fn opt_u16_c(input: &[u8], present: bool) -> (r: PResult<Option<u16>>)
    ensures
        match (r, sopt(present, input@, spec_complete(spec_le_u16(input@)))) {
            (Ok((rest, v)), Ok((m, srest))) => rest@ == srest && v == m,
            (Err(e1), Err(e2)) => e1 == e2,
            _ => false,
        },
{
    if present {
        let (rest, v) = parse_le_u16_c(input)?;
        Ok((rest, Some(v)))
    } else {
        Ok((input, None))
    }
}

fn opt_c_string(input: &[u8], present: bool) -> (r: PResult<Option<String>>)
    ensures
        match (r, sopt(present, input@, spec_c_string(input@))) {
            (Ok((rest, v)), Ok((m, srest))) => rest@ == srest && opt_string_view(v) == m,
            (Err(e1), Err(e2)) => e1 == e2,
            _ => false,
        },
{
    if present {
        let (rest, v) = parse_c_string(input)?;
        Ok((rest, Some(v)))
    } else {
        Ok((input, None))
    }
}

pub fn parse_place_fields(input: &[u8], flags: u16) -> (r: PResult<PlaceFields>)
    ensures
        parsed_as(r, spec_place_fields(input@, flags)),
{
    let (rest, character_id) = opt_u16_c(input, flags & 2u16 != 0)?;
    let (rest, matrix) = if flags & 4u16 != 0 {
        let (rest, m) = parse_matrix(rest)?;
        (rest, Some(m))
    } else {
        (rest, None)
    };
    let (rest, color_transform) = if flags & 8u16 != 0 {
        let (rest, c) = parse_color_transform_with_alpha(rest)?;
        (rest, Some(c))
    } else {
        (rest, None)
    };
    let (rest, ratio) = opt_u16_c(rest, flags & 16u16 != 0)?;
    let (rest, name) = opt_c_string(rest, flags & 32u16 != 0)?;
    let (rest, clip_depth) = opt_u16_c(rest, flags & 64u16 != 0)?;
    Ok((rest, PlaceFields { character_id, matrix, color_transform, ratio, name, clip_depth }))
}

/// Optional clip actions, with extended events from SWF 6.
pub open spec fn spec_opt_clip_actions(s: Seq<u8>, present: bool, swf_version: u8)
    -> SpecResult<Option<Seq<ClipActionModel>>>
{
    sopt(present, s, spec_clip_actions_string(s, swf_version >= 6))
}

fn parse_opt_clip_actions(input: &[u8], present: bool, swf_version: u8) -> (r: PResult<Option<Vec<ClipAction>>>)
    ensures
        match (r, spec_opt_clip_actions(input@, present, swf_version)) {
            (Ok((rest, v)), Ok((m, srest))) => rest@ == srest && match (v, m) {
                (Some(a), Some(b)) => a.deep_view() == b,
                (None, None) => true,
                _ => false,
            },
            (Err(e1), Err(e2)) => e1 == e2,
            _ => false,
        },
{
    if present {
        let (rest, v) = parse_clip_actions_string(input, swf_version >= 6)?;
        Ok((rest, Some(v)))
    } else {
        Ok((input, None))
    }
}

/// `PlaceObject2`: a flag byte (update, character, matrix, color transform, ratio,
/// name, clip depth, clip actions, from the low bit up), depth, then the fields whose
/// flag is set.
#[verifier::opaque]
pub open spec fn spec_place_object2(s: Seq<u8>, swf_version: u8) -> SpecResult<PlaceObjectModel> {
    match spec_complete(spec_u8(s)) {
        Err(e) => Err(e),
        Ok((flags, s1)) => match spec_complete(spec_le_u16(s1)) {
            Err(e) => Err(e),
            Ok((depth, s2)) => match spec_place_fields(s2, flags as u16) {
                Err(e) => Err(e),
                Ok((f, s3)) => match spec_opt_clip_actions(s3, flags & 0x80u8 != 0, swf_version) {
                    Err(e) => Err(e),
                    Ok((clip_actions, rest)) => Ok((
                        PlaceObjectModel {
                            is_update: flags & 1u8 != 0,
                            depth,
                            character_id: f.character_id,
                            matrix: f.matrix,
                            color_transform: f.color_transform,
                            ratio: f.ratio,
                            name: f.name,
                            class_name: None,
                            clip_depth: f.clip_depth,
                            filters: None,
                            blend_mode: None,
                            bitmap_cache: None,
                            visible: None,
                            background_color: None,
                            clip_actions,
                        },
                        rest,
                    )),
                },
            },
        },
    }
}

pub fn parse_place_object2(input: &[u8], swf_version: u8) -> (r: PResult<PlaceObject>)
    ensures
        parsed_as(r, spec_place_object2(input@, swf_version)),
{
    reveal(spec_place_object2);
    let (rest, flags) = parse_u8_c(input)?;
    let (rest, depth) = parse_le_u16_c(rest)?;
    let (rest, f) = parse_place_fields(rest, flags as u16)?;
    let (rest, clip_actions) = parse_opt_clip_actions(rest, flags & 0x80u8 != 0, swf_version)?;
    let PlaceFields { character_id, matrix, color_transform, ratio, name, clip_depth } = f;
    Ok((
        rest,
        PlaceObject {
            is_update: flags & 1u8 != 0,
            depth,
            character_id,
            matrix,
            color_transform,
            ratio,
            name,
            class_name: None,
            clip_depth,
            filters: None,
            blend_mode: None,
            bitmap_cache: None,
            visible: None,
            background_color: None,
            clip_actions,
        },
    ))
}

/// The fields that only `PlaceObject3` has after the shared ones, each present when
/// its flag is set: filters, blend mode, bitmap cache, visibility, background color.
pub struct PlaceExtras {
    pub filters: Option<Vec<Filter>>,
    pub blend_mode: Option<BlendMode>,
    pub bitmap_cache: Option<bool>,
    pub visible: Option<bool>,
    pub background_color: Option<StraightSRgba8>,
}

pub struct PlaceExtrasModel {
    pub filters: Option<Seq<FilterModel>>,
    pub blend_mode: Option<BlendMode>,
    pub bitmap_cache: Option<bool>,
    pub visible: Option<bool>,
    pub background_color: Option<StraightSRgba8>,
}

impl DeepView for PlaceExtras {
    type V = PlaceExtrasModel;
    open spec fn deep_view(&self) -> PlaceExtrasModel {
        PlaceExtrasModel {
            filters: match self.filters {
                Some(f) => Some(f.deep_view()),
                None => None,
            },
            blend_mode: self.blend_mode,
            bitmap_cache: self.bitmap_cache,
            visible: self.visible,
            background_color: self.background_color,
        }
    }
}

pub open spec fn opt_byte_flag(v: Option<u8>) -> Option<bool> {
    match v {
        Some(b) => Some(b != 0),
        None => None,
    }
}

pub open spec fn spec_place_extras(s: Seq<u8>, flags: u16) -> SpecResult<PlaceExtrasModel> {
    match sopt(flags & 0x100u16 != 0, s, spec_filter_list(s)) {
        Err(e) => Err(e),
        Ok((filters, s1)) => match sopt(flags & 0x200u16 != 0, s1, spec_blend_mode(s1)) {
            Err(e) => Err(e),
            Ok((blend_mode, s2)) => match sopt(flags & 0x400u16 != 0, s2, spec_complete(spec_u8(s2))) {
                Err(e) => Err(e),
                Ok((cache, s3)) => match sopt(flags & 0x2000u16 != 0, s3, spec_complete(spec_u8(s3))) {
                    Err(e) => Err(e),
                    Ok((visible, s4)) => match sopt(flags & 0x4000u16 != 0, s4, spec_straight_s_rgba8(s4)) {
                        Err(e) => Err(e),
                        Ok((background_color, rest)) => Ok((
                            PlaceExtrasModel {
                                filters,
                                blend_mode,
                                bitmap_cache: opt_byte_flag(cache),
                                visible: opt_byte_flag(visible),
                                background_color,
                            },
                            rest,
                        )),
                    },
                },
            },
        },
    }
}

fn opt_byte_flag_c(input: &[u8], present: bool) -> (r: PResult<Option<bool>>)
    ensures
        match (r, sopt(present, input@, spec_complete(spec_u8(input@)))) {
            (Ok((rest, v)), Ok((m, srest))) => rest@ == srest && v == opt_byte_flag(m),
            (Err(e1), Err(e2)) => e1 == e2,
            _ => false,
        },
{
    if present {
        let (rest, v) = parse_u8_c(input)?;
        Ok((rest, Some(v != 0)))
    } else {
        Ok((input, None))
    }
}

pub fn parse_place_extras(input: &[u8], flags: u16) -> (r: PResult<PlaceExtras>)
    ensures
        parsed_as(r, spec_place_extras(input@, flags)),
{
    let (rest, filters) = if flags & 0x100u16 != 0 {
        let (rest, f) = parse_filter_list(input)?;
        (rest, Some(f))
    } else {
        (input, None)
    };
    let (rest, blend_mode) = if flags & 0x200u16 != 0 {
        let (rest, m) = parse_blend_mode(rest)?;
        (rest, Some(m))
    } else {
        (rest, None)
    };
    let (rest, bitmap_cache) = opt_byte_flag_c(rest, flags & 0x400u16 != 0)?;
    let (rest, visible) = opt_byte_flag_c(rest, flags & 0x2000u16 != 0)?;
    let (rest, background_color) = if flags & 0x4000u16 != 0 {
        let (rest, c) = parse_straight_s_rgba8(rest)?;
        (rest, Some(c))
    } else {
        (rest, None)
    };
    Ok((rest, PlaceExtras { filters, blend_mode, bitmap_cache, visible, background_color }))
}

/// `PlaceObject3`: `UINT16_LE` flags (those of `PlaceObject2`, then filters, blend
/// mode, cache hint, class name, image, visibility, background color), depth, the
/// class name (when flagged, or for an image with a character), the shared fields,
/// the extra fields, then the clip actions.
#[verifier::opaque]
pub open spec fn spec_place_object3(s: Seq<u8>, swf_version: u8) -> SpecResult<PlaceObjectModel> {
    match spec_complete(spec_le_u16(s)) {
        Err(e) => Err(e),
        Ok((flags, s1)) => match spec_complete(spec_le_u16(s1)) {
            Err(e) => Err(e),
            Ok((depth, s2)) => {
                let has_class_name = flags & 0x800u16 != 0 || (flags & 0x1000u16 != 0 && flags & 2u16 != 0);
                match sopt(has_class_name, s2, spec_c_string(s2)) {
                    Err(e) => Err(e),
                    Ok((class_name, s3)) => match spec_place_fields(s3, flags) {
                        Err(e) => Err(e),
                        Ok((f, s4)) => match spec_place_extras(s4, flags) {
                            Err(e) => Err(e),
                            Ok((x, s5)) => match spec_opt_clip_actions(s5, flags & 0x80u16 != 0, swf_version) {
                                Err(e) => Err(e),
                                Ok((clip_actions, rest)) => Ok((
                                    PlaceObjectModel {
                                        is_update: flags & 1u16 != 0,
                                        depth,
                                        character_id: f.character_id,
                                        matrix: f.matrix,
                                        color_transform: f.color_transform,
                                        ratio: f.ratio,
                                        name: f.name,
                                        class_name,
                                        clip_depth: f.clip_depth,
                                        filters: x.filters,
                                        blend_mode: x.blend_mode,
                                        bitmap_cache: x.bitmap_cache,
                                        visible: x.visible,
                                        background_color: x.background_color,
                                        clip_actions,
                                    },
                                    rest,
                                )),
                            },
                        },
                    },
                }
            },
        },
    }
}

pub fn parse_place_object3(input: &[u8], swf_version: u8) -> (r: PResult<PlaceObject>)
    ensures
        parsed_as(r, spec_place_object3(input@, swf_version)),
{
    reveal(spec_place_object3);
    let (rest, flags) = parse_le_u16_c(input)?;
    let (rest, depth) = parse_le_u16_c(rest)?;
    let has_class_name: bool = flags & 0x800u16 != 0 || (flags & 0x1000u16 != 0 && flags & 2u16 != 0);
    let (rest, class_name) = opt_c_string(rest, has_class_name)?;
    let (rest, f) = parse_place_fields(rest, flags)?;
    let (rest, x) = parse_place_extras(rest, flags)?;
    let (rest, clip_actions) = parse_opt_clip_actions(rest, flags & 0x80u16 != 0, swf_version)?;
    let PlaceFields { character_id, matrix, color_transform, ratio, name, clip_depth } = f;
    let PlaceExtras { filters, blend_mode, bitmap_cache, visible, background_color } = x;
    Ok((
        rest,
        PlaceObject {
            is_update: flags & 1u16 != 0,
            depth,
            character_id,
            matrix,
            color_transform,
            ratio,
            name,
            class_name,
            clip_depth,
            filters,
            blend_mode,
            bitmap_cache,
            visible,
            background_color,
            clip_actions,
        },
    ))
}

} // verus!

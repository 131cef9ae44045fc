//! Tags that define shapes.
use vstd::prelude::*;
use crate::ast::Rect;
use crate::basic_data_types::{parse_rect, spec_rect};
use crate::bytes::{parse_le_u16_c, parse_u8_c, spec_le_u16, spec_u8};
use crate::error::{PResult, SpecResult, parsed_as, spec_complete};
use crate::shape::{Shape, ShapeModel, ShapeVersion, parse_shape, spec_shape};

verus! {

/// A shape definition (tags `DefineShape` to `DefineShape4`).
#[derive(Clone, Debug, PartialEq, Eq)]
pub struct DefineShape {
    pub id: u16,
    pub bounds: Rect,
    pub edge_bounds: Option<Rect>,
    pub has_fill_winding: bool,
    pub has_non_scaling_strokes: bool,
    pub has_scaling_strokes: bool,
    pub shape: Shape,
}

pub struct DefineShapeModel {
    pub id: u16,
    pub bounds: Rect,
    pub edge_bounds: Option<Rect>,
    pub has_fill_winding: bool,
    pub has_non_scaling_strokes: bool,
    pub has_scaling_strokes: bool,
    pub shape: ShapeModel,
}

impl DeepView for DefineShape {
    type V = DefineShapeModel;
    open spec fn deep_view(&self) -> DefineShapeModel {
        DefineShapeModel {
            id: self.id,
            bounds: self.bounds,
            edge_bounds: self.edge_bounds,
            has_fill_winding: self.has_fill_winding,
            has_non_scaling_strokes: self.has_non_scaling_strokes,
            has_scaling_strokes: self.has_scaling_strokes,
            shape: self.shape.deep_view(),
        }
    }
}

/// `defineShape : UINT16_LE rect [rect UINT8 if version 4] shape`; the flag byte of
/// version 4 holds the scaling strokes, non-scaling strokes and fill winding flags,
/// from the low bit up.
#[verifier::opaque]
pub open spec fn spec_define_shape_any(s: Seq<u8>, version: ShapeVersion) -> SpecResult<DefineShapeModel> {
    match spec_complete(spec_le_u16(s)) {
        Err(e) => Err(e),
        Ok((id, s1)) => match spec_rect(s1) {
            Err(e) => Err(e),
            Ok((bounds, s2)) => {
                let v4 = version.spec_level() >= 4;
                let edge_r: SpecResult<Option<Rect>> = if v4 {
                    match spec_rect(s2) {
                        Err(e) => Err(e),
                        Ok((r, rest)) => Ok((Some(r), rest)),
                    }
                } else {
                    Ok((None, s2))
                };
                match edge_r {
                    Err(e) => Err(e),
                    Ok((edge_bounds, s3)) => {
                        let flags_r: SpecResult<u8> = if v4 {
                            spec_complete(spec_u8(s3))
                        } else {
                            Ok((0u8, s3))
                        };
                        match flags_r {
                            Err(e) => Err(e),
                            Ok((flags, s4)) => match spec_shape(s4, version) {
                                Err(e) => Err(e),
                                Ok((shape, rest)) => Ok((
                                    DefineShapeModel {
                                        id,
                                        bounds,
                                        edge_bounds,
                                        has_fill_winding: flags & 4u8 != 0,
                                        has_non_scaling_strokes: flags & 2u8 != 0,
                                        has_scaling_strokes: flags & 1u8 != 0,
                                        shape,
                                    },
                                    rest,
                                )),
                            },
                        }
                    },
                }
            },
        },
    }
}

pub fn parse_define_shape_any(input: &[u8], version: ShapeVersion) -> (r: PResult<DefineShape>)
    ensures
        parsed_as(r, spec_define_shape_any(input@, version)),
{
    reveal(spec_define_shape_any);
    let v4: bool = version.level() >= 4;
    let (rest, id) = parse_le_u16_c(input)?;
    let (rest, bounds) = parse_rect(rest)?;
    let (rest, edge_bounds) = if v4 {
        let (rest, r) = parse_rect(rest)?;
        (rest, Some(r))
    } else {
        (rest, None)
    };
    let (rest, flags) = if v4 {
        parse_u8_c(rest)?
    } else {
        (rest, 0u8)
    };
    let (rest, shape) = parse_shape(rest, version)?;
    Ok((
        rest,
        DefineShape {
            id,
            bounds,
            edge_bounds,
            has_fill_winding: flags & 4u8 != 0,
            has_non_scaling_strokes: flags & 2u8 != 0,
            has_scaling_strokes: flags & 1u8 != 0,
            shape,
        },
    ))
}

pub fn parse_define_shape(input: &[u8]) -> (r: PResult<DefineShape>)
    ensures
        parsed_as(r, spec_define_shape_any(input@, ShapeVersion::Shape1)),
{
    parse_define_shape_any(input, ShapeVersion::Shape1)
}

pub fn parse_define_shape2(input: &[u8]) -> (r: PResult<DefineShape>)
    ensures
        parsed_as(r, spec_define_shape_any(input@, ShapeVersion::Shape2)),
{
    parse_define_shape_any(input, ShapeVersion::Shape2)
}

pub fn parse_define_shape3(input: &[u8]) -> (r: PResult<DefineShape>)
    ensures
        parsed_as(r, spec_define_shape_any(input@, ShapeVersion::Shape3)),
{
    parse_define_shape_any(input, ShapeVersion::Shape3)
}

pub fn parse_define_shape4(input: &[u8]) -> (r: PResult<DefineShape>)
    ensures
        parsed_as(r, spec_define_shape_any(input@, ShapeVersion::Shape4)),
{
    parse_define_shape_any(input, ShapeVersion::Shape4)
}

} // verus!

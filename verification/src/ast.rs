//! Values produced by the parsers, and their models.
use vstd::prelude::*;
use crate::fixed::{Sfixed8P8, Sfixed16P16, Ufixed8P8};

verus! {

/// Rectangle, in twips.
#[derive(Clone, Copy, Debug, PartialEq, Eq, Structural)]
pub struct Rect {
    pub x_min: i32,
    pub x_max: i32,
    pub y_min: i32,
    pub y_max: i32,
}

/// RGB color, 8-bit channels.
#[derive(Clone, Copy, Debug, PartialEq, Eq, Structural)]
pub struct SRgb8 {
    pub r: u8,
    pub g: u8,
    pub b: u8,
}

/// RGBA color with a straight (not premultiplied) alpha, 8-bit channels.
#[derive(Clone, Copy, Debug, PartialEq, Eq, Structural)]
pub struct StraightSRgba8 {
    pub r: u8,
    pub g: u8,
    pub b: u8,
    pub a: u8,
}

/// Affine transformation matrix.
#[derive(Clone, Copy, Debug, PartialEq, Eq, Structural)]
pub struct Matrix {
    pub scale_x: Sfixed16P16,
    pub scale_y: Sfixed16P16,
    pub rotate_skew0: Sfixed16P16,
    pub rotate_skew1: Sfixed16P16,
    pub translate_x: i32,
    pub translate_y: i32,
}

#[derive(Clone, Copy, Debug, PartialEq, Eq, Structural)]
pub struct ColorTransform {
    pub red_mult: Sfixed8P8,
    pub green_mult: Sfixed8P8,
    pub blue_mult: Sfixed8P8,
    pub red_add: i16,
    pub green_add: i16,
    pub blue_add: i16,
}

#[derive(Clone, Copy, Debug, PartialEq, Eq, Structural)]
pub struct ColorTransformWithAlpha {
    pub red_mult: Sfixed8P8,
    pub green_mult: Sfixed8P8,
    pub blue_mult: Sfixed8P8,
    pub alpha_mult: Sfixed8P8,
    pub red_add: i16,
    pub green_add: i16,
    pub blue_add: i16,
    pub alpha_add: i16,
}

#[derive(Clone, Copy, Debug, PartialEq, Eq, Structural)]
pub enum LanguageCode {
    Auto,
    Latin,
    Japanese,
    Korean,
    SimplifiedChinese,
    TraditionalChinese,
}

/// Compression of the payload of an SWF file.
#[derive(Clone, Copy, Debug, PartialEq, Eq, Structural)]
pub enum CompressionMethod {
    Uncompressed,
    Deflate,
    Lzma,
}

/// The first 8 bytes of an SWF file.
#[derive(Clone, Copy, Debug, PartialEq, Eq, Structural)]
pub struct SwfSignature {
    pub compression_method: CompressionMethod,
    pub swf_version: u8,
    pub uncompressed_file_length: usize,
}

/// Movie header (first bytes of the uncompressed payload).
#[derive(Clone, Copy, Debug, PartialEq, Eq, Structural)]
pub struct Header {
    pub swf_version: u8,
    pub frame_size: Rect,
    pub frame_rate: Ufixed8P8,
    pub frame_count: u16,
}

/// Header of a tag: its code and the length of its body.
#[derive(Clone, Copy, Debug, PartialEq, Eq, Structural)]
pub struct TagHeader {
    pub code: u16,
    pub length: u32,
}

impl DeepView for Rect { type V = Rect; open spec fn deep_view(&self) -> Rect { *self } }
impl DeepView for SRgb8 { type V = SRgb8; open spec fn deep_view(&self) -> SRgb8 { *self } }
impl DeepView for StraightSRgba8 {
    type V = StraightSRgba8;
    open spec fn deep_view(&self) -> StraightSRgba8 { *self }
}
impl DeepView for Matrix { type V = Matrix; open spec fn deep_view(&self) -> Matrix { *self } }
impl DeepView for ColorTransform {
    type V = ColorTransform;
    open spec fn deep_view(&self) -> ColorTransform { *self }
}
impl DeepView for ColorTransformWithAlpha {
    type V = ColorTransformWithAlpha;
    open spec fn deep_view(&self) -> ColorTransformWithAlpha { *self }
}
impl DeepView for LanguageCode {
    type V = LanguageCode;
    open spec fn deep_view(&self) -> LanguageCode { *self }
}
impl DeepView for CompressionMethod {
    type V = CompressionMethod;
    open spec fn deep_view(&self) -> CompressionMethod { *self }
}
impl DeepView for SwfSignature {
    type V = SwfSignature;
    open spec fn deep_view(&self) -> SwfSignature { *self }
}
impl DeepView for Header { type V = Header; open spec fn deep_view(&self) -> Header { *self } }
impl DeepView for TagHeader { type V = TagHeader; open spec fn deep_view(&self) -> TagHeader { *self } }

/// A character id with a name.
#[derive(Clone, Debug, PartialEq, Eq)]
pub struct NamedId {
    pub id: u16,
    pub name: String,
}

pub struct NamedIdModel {
    pub id: u16,
    pub name: Seq<char>,
}

impl DeepView for NamedId {
    type V = NamedIdModel;
    open spec fn deep_view(&self) -> NamedIdModel { NamedIdModel { id: self.id, name: self.name@ } }
}

} // verus!

//! Video codes, and text codes used by tags.
use vstd::prelude::*;
use crate::ast_tags::{GridFitting, TextAlignment, TextRenderer, VideoCodec, VideoDeblocking};
use crate::bytes::{parse_u8_c, spec_u8};
use crate::error::{ParseError, PResult, SpecResult, parsed_as, sbind, spec_complete};

verus! {

pub open spec fn spec_video_deblocking(code: u8) -> Option<VideoDeblocking> {
    if code == 0 {
        Some(VideoDeblocking::PacketValue)
    } else if code == 1 {
        Some(VideoDeblocking::Off)
    } else if code == 2 {
        Some(VideoDeblocking::Level1)
    } else if code == 3 {
        Some(VideoDeblocking::Level2)
    } else if code == 4 {
        Some(VideoDeblocking::Level3)
    } else if code == 5 {
        Some(VideoDeblocking::Level4)
    } else {
        None
    }
}

pub fn video_deblocking_from_code(video_deblocking_id: u8) -> (r: Result<VideoDeblocking, ()>)
    ensures
        match spec_video_deblocking(video_deblocking_id) {
            Some(v) => r == Ok::<VideoDeblocking, ()>(v),
            None => r is Err,
        },
{
    match video_deblocking_id {
        0 => Ok(VideoDeblocking::PacketValue),
        1 => Ok(VideoDeblocking::Off),
        2 => Ok(VideoDeblocking::Level1),
        3 => Ok(VideoDeblocking::Level2),
        4 => Ok(VideoDeblocking::Level3),
        5 => Ok(VideoDeblocking::Level4),
        _ => Err(()),
    }
}

pub open spec fn spec_video_codec(code: u8) -> Option<VideoCodec> {
    if code == 0 {
        Some(VideoCodec::NoCodec)
    } else if code == 1 {
        Some(VideoCodec::Jpeg)
    } else if code == 2 {
        Some(VideoCodec::Sorenson)
    } else if code == 3 {
        Some(VideoCodec::Screen)
    } else if code == 4 {
        Some(VideoCodec::Vp6)
    } else if code == 5 {
        Some(VideoCodec::Vp6Alpha)
    } else if code == 6 {
        Some(VideoCodec::Screen2)
    } else if code == 7 {
        Some(VideoCodec::Avc)
    } else {
        None
    }
}

pub fn video_codec_from_code(video_codec_id: u8) -> (r: Result<VideoCodec, ()>)
    ensures
        match spec_video_codec(video_codec_id) {
            Some(v) => r == Ok::<VideoCodec, ()>(v),
            None => r is Err,
        },
{
    match video_codec_id {
        0 => Ok(VideoCodec::NoCodec),
        1 => Ok(VideoCodec::Jpeg),
        2 => Ok(VideoCodec::Sorenson),
        3 => Ok(VideoCodec::Screen),
        4 => Ok(VideoCodec::Vp6),
        5 => Ok(VideoCodec::Vp6Alpha),
        6 => Ok(VideoCodec::Screen2),
        7 => Ok(VideoCodec::Avc),
        _ => Err(()),
    }
}

pub open spec fn spec_videoc_codec(s: Seq<u8>) -> SpecResult<VideoCodec> {
    sbind(spec_complete(spec_u8(s)), |code: u8, s1: Seq<u8>|
        match spec_video_codec(code) {
            Some(c) => Ok((c, s1)),
            None => Err(ParseError::Error),
        })
}

pub fn parse_videoc_codec(input: &[u8]) -> (r: PResult<VideoCodec>)
    ensures
        parsed_as(r, spec_videoc_codec(input@)),
{
    let (input, codec_id) = parse_u8_c(input)?;
    match video_codec_from_code(codec_id) {
        Ok(codec) => Ok((input, codec)),
        Err(()) => Err(ParseError::Error),
    }
}

pub open spec fn spec_text_alignment(s: Seq<u8>) -> SpecResult<TextAlignment> {
    sbind(spec_complete(spec_u8(s)), |code: u8, s1: Seq<u8>|
        if code == 0 {
            Ok((TextAlignment::Left, s1))
        } else if code == 1 {
            Ok((TextAlignment::Right, s1))
        } else if code == 2 {
            Ok((TextAlignment::Center, s1))
        } else if code == 3 {
            Ok((TextAlignment::Justify, s1))
        } else {
            Err(ParseError::Error)
        })
}

pub fn parse_text_alignment(input: &[u8]) -> (r: PResult<TextAlignment>)
    ensures
        parsed_as(r, spec_text_alignment(input@)),
{
    let (input, code) = parse_u8_c(input)?;
    match code {
        0 => Ok((input, TextAlignment::Left)),
        1 => Ok((input, TextAlignment::Right)),
        2 => Ok((input, TextAlignment::Center)),
        3 => Ok((input, TextAlignment::Justify)),
        _ => Err(ParseError::Error),
    }
}

pub open spec fn spec_grid_fitting(code: u8) -> Option<GridFitting> {
    if code == 0 {
        Some(GridFitting::NoGridFitting)
    } else if code == 1 {
        Some(GridFitting::Pixel)
    } else if code == 2 {
        Some(GridFitting::SubPixel)
    } else {
        None
    }
}

pub fn grid_fitting_from_code(grid_fitting_code: u8) -> (r: Result<GridFitting, ()>)
    ensures
        match spec_grid_fitting(grid_fitting_code) {
            Some(v) => r == Ok::<GridFitting, ()>(v),
            None => r is Err,
        },
{
    match grid_fitting_code {
        0 => Ok(GridFitting::NoGridFitting),
        1 => Ok(GridFitting::Pixel),
        2 => Ok(GridFitting::SubPixel),
        _ => Err(()),
    }
}

pub open spec fn spec_text_renderer(code: u8) -> Option<TextRenderer> {
    if code == 0 {
        Some(TextRenderer::Normal)
    } else if code == 1 {
        Some(TextRenderer::Advanced)
    } else {
        None
    }
}

pub fn text_renderer_from_code(text_renderer_code: u8) -> (r: Result<TextRenderer, ()>)
    ensures
        match spec_text_renderer(text_renderer_code) {
            Some(v) => r == Ok::<TextRenderer, ()>(v),
            None => r is Err,
        },
{
    match text_renderer_code {
        0 => Ok(TextRenderer::Normal),
        1 => Ok(TextRenderer::Advanced),
        _ => Err(()),
    }
}

} // verus!

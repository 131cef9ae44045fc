//! Tag records: framing by the tag header, dispatch of the body by tag code, and
//! strings of tags (the movie's tags and those of a sprite).
use vstd::prelude::*;
use vstd::slice::slice_subrange;
use vstd::slice::slice_to_vec;
use crate::ast_tags::{DefineSprite, DefineSpriteModel, ImageType, Raw, Tag, TagModel};
use crate::bytes::{le_u16_value, parse_le_u16_c};
use crate::ast::TagHeader;
use crate::error::{ParseError, PResult, SpecResult};
use crate::header::{lemma_tag_header_complete, parse_tag_header, spec_tag_header};
use crate::shape::ShapeVersion;
use crate::morph_shape::{
    MorphShapeVersion, parse_define_morph_shape, parse_define_morph_shape2, spec_define_morph_shape_any,
};
use crate::button::{parse_define_button, parse_define_button2, spec_define_button, spec_define_button2};
use crate::text::{FontInfoVersion, FontVersion, TextVersion};
use crate::text_tags::{
    parse_define_font, parse_define_font2, parse_define_font3, parse_define_font4,
    parse_define_font_align_zones, parse_define_font_info, parse_define_font_info2,
    parse_define_text, parse_define_text2, spec_define_font, spec_define_font4,
    spec_define_font_align_zones, spec_define_font_any, spec_define_font_info_any,
    spec_define_text_any,
};
use crate::display::{
    parse_place_object, parse_place_object2, parse_place_object3, spec_place_object,
    spec_place_object2, spec_place_object3,
};
use crate::shape_tags::{
    parse_define_shape, parse_define_shape2, parse_define_shape3, parse_define_shape4,
    spec_define_shape_any,
};
use crate::tags::{
    parse_csm_text_settings, parse_define_binary_data, parse_define_bits,
    parse_define_bits_jpeg2, parse_define_bits_jpeg3, parse_define_bits_jpeg4,
    parse_define_bits_lossless, parse_define_bits_lossless2,
    parse_define_button_color_transform, parse_define_button_sound, parse_define_edit_text,
    parse_define_font_name, parse_define_jpeg_tables, parse_define_scaling_grid,
    parse_define_scene_and_frame_label_data_tag, parse_define_sound, parse_define_video_stream,
    parse_do_abc, parse_do_action, parse_do_init_action, parse_enable_debugger,
    parse_enable_debugger2, parse_enable_telemetry, parse_export_assets,
    parse_file_attributes_tag, parse_frame_label, parse_import_assets, parse_import_assets2,
    parse_metadata, parse_protect, parse_remove_object, parse_remove_object2,
    parse_script_limits, parse_set_background_color_tag, parse_set_tab_index,
    parse_sound_stream_block, parse_sound_stream_head, parse_sound_stream_head2,
    parse_start_sound, parse_start_sound2, parse_symbol_class, parse_video_frame,
    spec_csm_text_settings, spec_define_binary_data, spec_define_bits, spec_define_bits_jpeg2,
    spec_define_bits_jpeg3, spec_define_bits_jpeg4, spec_define_bits_lossless_any,
    spec_define_button_color_transform, spec_define_button_sound, spec_define_edit_text,
    spec_define_font_name, spec_define_scaling_grid, spec_define_scene_and_frame_label_data,
    spec_define_sound, spec_define_video_stream, spec_do_abc, spec_do_init_action,
    spec_enable_debugger, spec_enable_debugger2, spec_enable_telemetry, spec_export_assets,
    spec_file_attributes, spec_frame_label, spec_import_assets, spec_import_assets2,
    spec_metadata, spec_protect, spec_remove_object, spec_remove_object2, spec_script_limits,
    spec_set_background_color, spec_set_tab_index, spec_sound_stream_head, spec_start_sound,
    spec_start_sound2, spec_symbol_class, spec_video_frame,
};

verus! {

/// Why the tag at the start of a possibly incomplete input could not be read.
#[derive(Clone, Copy, Debug, PartialEq, Eq, Structural)]
pub enum StreamingTagError {
    /// The input is too short for the tag header (a header takes 2 or 6 bytes).
    IncompleteHeader,
    /// The input is too short for the whole tag; the value is the length of the
    /// tag, header included (saturated at `usize::MAX`).
    IncompleteTag(usize),
}

/// How the tag header frames the start of an input.
pub enum TagFrame {
    /// No complete header.
    IncompleteHeader,
    /// The header of the `End` tag (code 0), which closes a string of tags.
    End,
    /// A header whose body runs past the end of the input; the value is the length
    /// of the whole tag, saturated.
    Truncated(usize),
    /// A full record: its code, its body, the input after it, and its raw bytes
    /// (header and body).
    Record { code: u16, body: Seq<u8>, rest: Seq<u8>, raw: Seq<u8> },
}

pub open spec fn saturating_usize(n: int) -> usize {
    if n > usize::MAX { usize::MAX } else { n as usize }
}

pub open spec fn spec_tag_frame(s: Seq<u8>) -> TagFrame {
    match spec_tag_header(s) {
        Err(_) => TagFrame::IncompleteHeader,
        Ok((h, hrest)) => {
            let header_len = s.len() - hrest.len();
            if h.code == 0 {
                TagFrame::End
            } else if hrest.len() < h.length {
                TagFrame::Truncated(saturating_usize(header_len + h.length))
            } else {
                TagFrame::Record {
                    code: h.code,
                    body: hrest.take(h.length as int),
                    rest: hrest.skip(h.length as int),
                    raw: s.take(header_len + h.length),
                }
            }
        },
    }
}

/// A record takes at least its 2-byte header: its body and the input after it are
/// both shorter than the input, and the input is its raw bytes followed by the rest.
pub proof fn lemma_tag_frame_sizes(s: Seq<u8>)
    ensures
        spec_tag_frame(s) matches TagFrame::Record { code, body, rest, raw } ==> {
            &&& body.len() + 2 <= s.len()
            &&& rest.len() + 2 <= s.len()
            &&& raw.len() + rest.len() == s.len()
            &&& raw == s.take(raw.len() as int)
            &&& rest == s.skip(raw.len() as int)
        },
{
    match spec_tag_frame(s) {
        TagFrame::Record { code, body, rest, raw } => {
            assert(rest =~= s.skip(raw.len() as int));
        },
        _ => {},
    }
}

/// A tag header read from an input is read the same from any longer input, the extra
/// bytes being left after it.
proof fn lemma_tag_header_extend(s: Seq<u8>, e: Seq<u8>)
    ensures
        spec_tag_header(s) matches Ok((h, rest)) ==> spec_tag_header(s + e) == Ok::<(TagHeader, Seq<u8>), ParseError>((h, rest + e)),
{
    if s.len() >= 2 {
        let se = s + e;
        assert(se.skip(2) =~= s.skip(2) + e);
        assert(se[0] == s[0] && se[1] == s[1]);
        let s1 = s.skip(2);
        if s1.len() >= 4 {
            let s1e = s1 + e;
            assert(s1e.skip(4) =~= s1.skip(4) + e);
            assert(s1e[0] == s1[0] && s1e[1] == s1[1] && s1e[2] == s1[2] && s1e[3] == s1[3]);
        }
    }
}

/// The tag at the start of a possibly incomplete input, once complete, is read the same
/// from any longer input: the extra bytes come after it.
pub proof fn lemma_streaming_tag_extend(s: Seq<u8>, e: Seq<u8>, v: u8)
    ensures
        spec_streaming_tag(s, v) matches Ok((rest, t)) ==> spec_streaming_tag(s + e, v) == match t {
            None => Ok::<(Seq<u8>, Option<TagModel>), StreamingTagError>((Seq::empty(), None)),
            Some(_) => Ok((rest + e, t)),
        },
{
    lemma_tag_header_extend(s, e);
    if let Ok((h, hrest)) = spec_tag_header(s) {
        let se = s + e;
        let hl = s.len() - hrest.len();
        if h.code != 0 && hrest.len() >= h.length {
            assert((hrest + e).take(h.length as int) =~= hrest.take(h.length as int));
            assert((hrest + e).skip(h.length as int) =~= hrest.skip(h.length as int) + e);
            assert(se.take(hl + h.length) =~= s.take(hl + h.length));
        }
    }
}

/// How much input a tag needs: six bytes always hold its header, and a tag reported
/// incomplete with length `n` is longer than the input (or saturated); below the saturation bound it
/// is read from any input of at least `n` bytes that starts with the same bytes, which
/// leaves what follows its first `n` bytes.
pub proof fn lemma_streaming_tag_needs(s: Seq<u8>, e: Seq<u8>, v: u8)
    ensures
        s.len() >= 6 ==> spec_streaming_tag(s, v) != Err::<(Seq<u8>, Option<TagModel>), StreamingTagError>(
            StreamingTagError::IncompleteHeader,
        ),
        spec_streaming_tag(s, v) matches Err(StreamingTagError::IncompleteTag(n)) ==> s.len() < n
            || n == usize::MAX,
        match spec_streaming_tag(s, v) {
            Err(StreamingTagError::IncompleteTag(n)) => n < usize::MAX && (s + e).len() >= n ==> {
                &&& spec_streaming_tag(s + e, v) matches Ok((_, Some(_)))
                &&& spec_streaming_tag(s + e, v)->Ok_0.0 == (s + e).skip(n as int)
            },
            _ => true,
        },
{
    if s.len() >= 6 {
        lemma_tag_header_complete(s);
    }
    lemma_tag_header_extend(s, e);
    lemma_tag_frame_sizes(s + e);
}

/// Result of a tag body parser as an optional tag model.
pub open spec fn tag_result(r: Result<Tag, ()>, m: Option<TagModel>) -> bool {
    match (r, m) {
        (Ok(t), Some(tm)) => t.deep_view() == tm,
        (Err(_), None) => true,
        _ => false,
    }
}

pub open spec fn opt_tag_model(t: Option<Tag>) -> Option<TagModel> {
    match t {
        Some(t) => Some(t.deep_view()),
        None => None,
    }
}

// ---------------------------------------------------------------------------
// Tag bodies by code
// ---------------------------------------------------------------------------

/// Tag bodies with codes below 26.
#[verifier::opaque]
pub open spec fn spec_tag_body_low(s: Seq<u8>, code: u16, v: u8) -> Option<TagModel> {
    if code == 1 {
        Some(TagModel::ShowFrame)
    } else if code == 5 {
        match spec_remove_object(s) { Ok((m, _)) => Some(TagModel::RemoveObject(m)), Err(_) => None }
    } else if code == 6 {
        match spec_define_bits(s, v) { Ok((m, _)) => Some(TagModel::DefineBitmap(m)), Err(_) => None }
    } else if code == 8 {
        Some(TagModel::DefineJpegTables(s))
    } else if code == 9 {
        match spec_set_background_color(s) {
            Ok((m, _)) => Some(TagModel::SetBackgroundColor(m)),
            Err(_) => None,
        }
    } else if code == 12 {
        Some(TagModel::DoAction(s))
    } else if code == 14 {
        match spec_define_sound(s) { Ok((m, _)) => Some(TagModel::DefineSound(m)), Err(_) => None }
    } else if code == 15 {
        match spec_start_sound(s) { Ok((m, _)) => Some(TagModel::StartSound(m)), Err(_) => None }
    } else if code == 17 {
        match spec_define_button_sound(s) {
            Ok((m, _)) => Some(TagModel::DefineButtonSound(m)),
            Err(_) => None,
        }
    } else if code == 18 {
        match spec_sound_stream_head(s) { Ok((m, _)) => Some(TagModel::SoundStreamHead(m)), Err(_) => None }
    } else if code == 19 {
        Some(TagModel::SoundStreamBlock(s))
    } else if code == 20 {
        match spec_define_bits_lossless_any(s, ImageType::SwfBmp) {
            Ok((m, _)) => Some(TagModel::DefineBitmap(m)),
            Err(_) => None,
        }
    } else if code == 21 {
        match spec_define_bits_jpeg2(s, v) { Ok((m, _)) => Some(TagModel::DefineBitmap(m)), Err(_) => None }
    } else if code == 23 {
        match spec_define_button_color_transform(s) {
            Ok((m, _)) => Some(TagModel::DefineButtonColorTransform(m)),
            Err(_) => None,
        }
    } else if code == 24 {
        match spec_protect(s) { Ok((m, _)) => Some(TagModel::Protect(m)), Err(_) => None }
    } else if code == 25 {
        Some(TagModel::EnablePostscript)
    } else if code == 2 {
        match spec_define_shape_any(s, ShapeVersion::Shape1) { Ok((m, _)) => Some(TagModel::DefineShape(m)), Err(_) => None }
    } else if code == 22 {
        match spec_define_shape_any(s, ShapeVersion::Shape2) { Ok((m, _)) => Some(TagModel::DefineShape(m)), Err(_) => None }
    } else if code == 4 {
        match spec_place_object(s) { Ok((m, _)) => Some(TagModel::PlaceObject(m)), Err(_) => None }
    } else if code == 10 {
        match spec_define_font(s) { Ok((m, _)) => Some(TagModel::DefineGlyphFont(m)), Err(_) => None }
    } else if code == 11 {
        match spec_define_text_any(s, TextVersion::Text1) { Ok((m, _)) => Some(TagModel::DefineText(m)), Err(_) => None }
    } else if code == 13 {
        match spec_define_font_info_any(s, FontInfoVersion::FontInfo1) { Ok((m, _)) => Some(TagModel::DefineFontInfo(m)), Err(_) => None }
    } else if code == 7 {
        match spec_define_button(s) { Ok((m, _)) => Some(TagModel::DefineButton(m)), Err(_) => None }
    } else {
        None
    }
}

/// Tag bodies with codes from 26 to 64, but for the sprite (39).
#[verifier::opaque]
pub open spec fn spec_tag_body_mid(s: Seq<u8>, code: u16, v: u8) -> Option<TagModel> {
    if code == 28 {
        match spec_remove_object2(s) { Ok((m, _)) => Some(TagModel::RemoveObject(m)), Err(_) => None }
    } else if code == 35 {
        match spec_define_bits_jpeg3(s, v) { Ok((m, _)) => Some(TagModel::DefineBitmap(m)), Err(_) => None }
    } else if code == 36 {
        match spec_define_bits_lossless_any(s, ImageType::SwfAbmp) {
            Ok((m, _)) => Some(TagModel::DefineBitmap(m)),
            Err(_) => None,
        }
    } else if code == 37 {
        match spec_define_edit_text(s) { Ok((m, _)) => Some(TagModel::DefineDynamicText(m)), Err(_) => None }
    } else if code == 43 {
        match spec_frame_label(s) { Ok((m, _)) => Some(TagModel::FrameLabel(m)), Err(_) => None }
    } else if code == 45 {
        match spec_sound_stream_head(s) { Ok((m, _)) => Some(TagModel::SoundStreamHead(m)), Err(_) => None }
    } else if code == 56 {
        match spec_export_assets(s) { Ok((m, _)) => Some(TagModel::ExportAssets(m)), Err(_) => None }
    } else if code == 57 {
        match spec_import_assets(s) { Ok((m, _)) => Some(TagModel::ImportAssets(m)), Err(_) => None }
    } else if code == 58 {
        match spec_enable_debugger(s) { Ok((m, _)) => Some(TagModel::EnableDebugger(m)), Err(_) => None }
    } else if code == 59 {
        match spec_do_init_action(s) { Ok((m, _)) => Some(TagModel::DoInitAction(m)), Err(_) => None }
    } else if code == 60 {
        match spec_define_video_stream(s) {
            Ok((m, _)) => Some(TagModel::DefineVideoStream(m)),
            Err(_) => None,
        }
    } else if code == 61 {
        match spec_video_frame(s) { Ok((m, _)) => Some(TagModel::VideoFrame(m)), Err(_) => None }
    } else if code == 64 {
        match spec_enable_debugger2(s) { Ok((m, _)) => Some(TagModel::EnableDebugger(m)), Err(_) => None }
    } else if code == 32 {
        match spec_define_shape_any(s, ShapeVersion::Shape3) { Ok((m, _)) => Some(TagModel::DefineShape(m)), Err(_) => None }
    } else if code == 26 {
        match spec_place_object2(s, v) { Ok((m, _)) => Some(TagModel::PlaceObject(m)), Err(_) => None }
    } else if code == 33 {
        match spec_define_text_any(s, TextVersion::Text2) { Ok((m, _)) => Some(TagModel::DefineText(m)), Err(_) => None }
    } else if code == 48 {
        match spec_define_font_any(s, FontVersion::Font2) { Ok((m, _)) => Some(TagModel::DefineFont(m)), Err(_) => None }
    } else if code == 62 {
        match spec_define_font_info_any(s, FontInfoVersion::FontInfo2) { Ok((m, _)) => Some(TagModel::DefineFontInfo(m)), Err(_) => None }
    } else if code == 34 {
        match spec_define_button2(s) { Ok((m, _)) => Some(TagModel::DefineButton(m)), Err(_) => None }
    } else if code == 46 {
        match spec_define_morph_shape_any(s, MorphShapeVersion::MorphShape1) { Ok((m, _)) => Some(TagModel::DefineMorphShape(m)), Err(_) => None }
    } else {
        None
    }
}

/// Tag bodies with codes from 65.
#[verifier::opaque]
pub open spec fn spec_tag_body_high(s: Seq<u8>, code: u16, v: u8) -> Option<TagModel> {
    if code == 65 {
        match spec_script_limits(s) { Ok((m, _)) => Some(TagModel::ScriptLimits(m)), Err(_) => None }
    } else if code == 66 {
        match spec_set_tab_index(s) { Ok((m, _)) => Some(TagModel::SetTabIndex(m)), Err(_) => None }
    } else if code == 69 {
        match spec_file_attributes(s) { Ok((m, _)) => Some(TagModel::FileAttributes(m)), Err(_) => None }
    } else if code == 71 {
        match spec_import_assets2(s) { Ok((m, _)) => Some(TagModel::ImportAssets(m)), Err(_) => None }
    } else if code == 74 {
        match spec_csm_text_settings(s) { Ok((m, _)) => Some(TagModel::CsmTextSettings(m)), Err(_) => None }
    } else if code == 76 {
        match spec_symbol_class(s) { Ok((m, _)) => Some(TagModel::SymbolClass(m)), Err(_) => None }
    } else if code == 77 {
        match spec_metadata(s) { Ok((m, _)) => Some(TagModel::Metadata(m)), Err(_) => None }
    } else if code == 78 {
        match spec_define_scaling_grid(s) {
            Ok((m, _)) => Some(TagModel::DefineScalingGrid(m)),
            Err(_) => None,
        }
    } else if code == 82 {
        match spec_do_abc(s) { Ok((m, _)) => Some(TagModel::DoAbc(m)), Err(_) => None }
    } else if code == 86 {
        match spec_define_scene_and_frame_label_data(s) {
            Ok((m, _)) => Some(TagModel::DefineSceneAndFrameLabelData(m)),
            Err(_) => None,
        }
    } else if code == 87 {
        match spec_define_binary_data(s) { Ok((m, _)) => Some(TagModel::DefineBinaryData(m)), Err(_) => None }
    } else if code == 88 {
        match spec_define_font_name(s) { Ok((m, _)) => Some(TagModel::DefineFontName(m)), Err(_) => None }
    } else if code == 89 {
        match spec_start_sound2(s) { Ok((m, _)) => Some(TagModel::StartSound2(m)), Err(_) => None }
    } else if code == 90 {
        match spec_define_bits_jpeg4(s) { Ok((m, _)) => Some(TagModel::DefineBitmap(m)), Err(_) => None }
    } else if code == 93 {
        match spec_enable_telemetry(s) { Ok((m, _)) => Some(TagModel::Telemetry(m)), Err(_) => None }
    } else if code == 83 {
        match spec_define_shape_any(s, ShapeVersion::Shape4) { Ok((m, _)) => Some(TagModel::DefineShape(m)), Err(_) => None }
    } else if code == 70 {
        match spec_place_object3(s, v) { Ok((m, _)) => Some(TagModel::PlaceObject(m)), Err(_) => None }
    } else if code == 73 {
        match spec_define_font_align_zones(s) { Ok((m, _)) => Some(TagModel::DefineFontAlignZones(m)), Err(_) => None }
    } else if code == 75 {
        match spec_define_font_any(s, FontVersion::Font3) { Ok((m, _)) => Some(TagModel::DefineFont(m)), Err(_) => None }
    } else if code == 91 {
        match spec_define_font4(s) { Ok((m, _)) => Some(TagModel::DefineCffFont(m)), Err(_) => None }
    } else if code == 84 {
        match spec_define_morph_shape_any(s, MorphShapeVersion::MorphShape2) { Ok((m, _)) => Some(TagModel::DefineMorphShape(m)), Err(_) => None }
    } else {
        None
    }
}

#[verifier::rlimit(40)]
fn parse_tag_body_low(input: &[u8], code: u16, swf_version: u8) -> (r: Result<Tag, ()>)
    ensures
        tag_result(r, spec_tag_body_low(input@, code, swf_version)),
{
    reveal(spec_tag_body_low);
    match code {
        1 => Ok(Tag::ShowFrame),
        5 => match parse_remove_object(input) { Ok((_, t)) => Ok(Tag::RemoveObject(t)), Err(_) => Err(()) },
        6 => match parse_define_bits(input, swf_version) {
            Ok((_, t)) => Ok(Tag::DefineBitmap(t)),
            Err(_) => Err(()),
        },
        8 => match parse_define_jpeg_tables(input, swf_version) {
            Ok((_, t)) => Ok(Tag::DefineJpegTables(t)),
            Err(_) => Err(()),
        },
        9 => match parse_set_background_color_tag(input) {
            Ok((_, t)) => Ok(Tag::SetBackgroundColor(t)),
            Err(_) => Err(()),
        },
        12 => match parse_do_action(input) { Ok((_, t)) => Ok(Tag::DoAction(t)), Err(_) => Err(()) },
        14 => match parse_define_sound(input) { Ok((_, t)) => Ok(Tag::DefineSound(t)), Err(_) => Err(()) },
        15 => match parse_start_sound(input) { Ok((_, t)) => Ok(Tag::StartSound(t)), Err(_) => Err(()) },
        17 => match parse_define_button_sound(input) {
            Ok((_, t)) => Ok(Tag::DefineButtonSound(t)),
            Err(_) => Err(()),
        },
        18 => match parse_sound_stream_head(input) {
            Ok((_, t)) => Ok(Tag::SoundStreamHead(t)),
            Err(_) => Err(()),
        },
        19 => match parse_sound_stream_block(input) {
            Ok((_, t)) => Ok(Tag::SoundStreamBlock(t)),
            Err(_) => Err(()),
        },
        20 => match parse_define_bits_lossless(input) {
            Ok((_, t)) => Ok(Tag::DefineBitmap(t)),
            Err(_) => Err(()),
        },
        21 => match parse_define_bits_jpeg2(input, swf_version) {
            Ok((_, t)) => Ok(Tag::DefineBitmap(t)),
            Err(_) => Err(()),
        },
        23 => match parse_define_button_color_transform(input) {
            Ok((_, t)) => Ok(Tag::DefineButtonColorTransform(t)),
            Err(_) => Err(()),
        },
        24 => match parse_protect(input) { Ok((_, t)) => Ok(Tag::Protect(t)), Err(_) => Err(()) },
        25 => Ok(Tag::EnablePostscript),
        2 => match parse_define_shape(input) {
            Ok((_, t)) => Ok(Tag::DefineShape(t)),
            Err(_) => Err(()),
        },
        22 => match parse_define_shape2(input) {
            Ok((_, t)) => Ok(Tag::DefineShape(t)),
            Err(_) => Err(()),
        },
        4 => match parse_place_object(input) {
            Ok((_, t)) => Ok(Tag::PlaceObject(t)),
            Err(_) => Err(()),
        },
        10 => match parse_define_font(input) {
            Ok((_, t)) => Ok(Tag::DefineGlyphFont(t)),
            Err(_) => Err(()),
        },
        11 => match parse_define_text(input) {
            Ok((_, t)) => Ok(Tag::DefineText(t)),
            Err(_) => Err(()),
        },
        13 => match parse_define_font_info(input) {
            Ok((_, t)) => Ok(Tag::DefineFontInfo(t)),
            Err(_) => Err(()),
        },
        7 => match parse_define_button(input) {
            Ok((_, t)) => Ok(Tag::DefineButton(t)),
            Err(_) => Err(()),
        },
        _ => Err(()),
    }
}

#[verifier::rlimit(40)]
fn parse_tag_body_mid(input: &[u8], code: u16, swf_version: u8) -> (r: Result<Tag, ()>)
    ensures
        tag_result(r, spec_tag_body_mid(input@, code, swf_version)),
{
    reveal(spec_tag_body_mid);
    match code {
        28 => match parse_remove_object2(input) {
            Ok((_, t)) => Ok(Tag::RemoveObject(t)),
            Err(_) => Err(()),
        },
        35 => match parse_define_bits_jpeg3(input, swf_version) {
            Ok((_, t)) => Ok(Tag::DefineBitmap(t)),
            Err(_) => Err(()),
        },
        36 => match parse_define_bits_lossless2(input) {
            Ok((_, t)) => Ok(Tag::DefineBitmap(t)),
            Err(_) => Err(()),
        },
        37 => match parse_define_edit_text(input) {
            Ok((_, t)) => Ok(Tag::DefineDynamicText(t)),
            Err(_) => Err(()),
        },
        43 => match parse_frame_label(input) { Ok((_, t)) => Ok(Tag::FrameLabel(t)), Err(_) => Err(()) },
        45 => match parse_sound_stream_head2(input) {
            Ok((_, t)) => Ok(Tag::SoundStreamHead(t)),
            Err(_) => Err(()),
        },
        56 => match parse_export_assets(input) { Ok((_, t)) => Ok(Tag::ExportAssets(t)), Err(_) => Err(()) },
        57 => match parse_import_assets(input) { Ok((_, t)) => Ok(Tag::ImportAssets(t)), Err(_) => Err(()) },
        58 => match parse_enable_debugger(input) {
            Ok((_, t)) => Ok(Tag::EnableDebugger(t)),
            Err(_) => Err(()),
        },
        59 => match parse_do_init_action(input) {
            Ok((_, t)) => Ok(Tag::DoInitAction(t)),
            Err(_) => Err(()),
        },
        60 => match parse_define_video_stream(input) {
            Ok((_, t)) => Ok(Tag::DefineVideoStream(t)),
            Err(_) => Err(()),
        },
        61 => match parse_video_frame(input) { Ok((_, t)) => Ok(Tag::VideoFrame(t)), Err(_) => Err(()) },
        64 => match parse_enable_debugger2(input) {
            Ok((_, t)) => Ok(Tag::EnableDebugger(t)),
            Err(_) => Err(()),
        },
        32 => match parse_define_shape3(input) {
            Ok((_, t)) => Ok(Tag::DefineShape(t)),
            Err(_) => Err(()),
        },
        26 => match parse_place_object2(input, swf_version) {
            Ok((_, t)) => Ok(Tag::PlaceObject(t)),
            Err(_) => Err(()),
        },
        33 => match parse_define_text2(input) {
            Ok((_, t)) => Ok(Tag::DefineText(t)),
            Err(_) => Err(()),
        },
        48 => match parse_define_font2(input) {
            Ok((_, t)) => Ok(Tag::DefineFont(t)),
            Err(_) => Err(()),
        },
        62 => match parse_define_font_info2(input) {
            Ok((_, t)) => Ok(Tag::DefineFontInfo(t)),
            Err(_) => Err(()),
        },
        34 => match parse_define_button2(input) {
            Ok((_, t)) => Ok(Tag::DefineButton(t)),
            Err(_) => Err(()),
        },
        46 => match parse_define_morph_shape(input) {
            Ok((_, t)) => Ok(Tag::DefineMorphShape(t)),
            Err(_) => Err(()),
        },
        _ => Err(()),
    }
}

#[verifier::rlimit(40)]
fn parse_tag_body_high(input: &[u8], code: u16, swf_version: u8) -> (r: Result<Tag, ()>)
    ensures
        tag_result(r, spec_tag_body_high(input@, code, swf_version)),
{
    reveal(spec_tag_body_high);
    match code {
        65 => match parse_script_limits(input) { Ok((_, t)) => Ok(Tag::ScriptLimits(t)), Err(_) => Err(()) },
        66 => match parse_set_tab_index(input) { Ok((_, t)) => Ok(Tag::SetTabIndex(t)), Err(_) => Err(()) },
        69 => match parse_file_attributes_tag(input) {
            Ok((_, t)) => Ok(Tag::FileAttributes(t)),
            Err(_) => Err(()),
        },
        71 => match parse_import_assets2(input) { Ok((_, t)) => Ok(Tag::ImportAssets(t)), Err(_) => Err(()) },
        74 => match parse_csm_text_settings(input) {
            Ok((_, t)) => Ok(Tag::CsmTextSettings(t)),
            Err(_) => Err(()),
        },
        76 => match parse_symbol_class(input) { Ok((_, t)) => Ok(Tag::SymbolClass(t)), Err(_) => Err(()) },
        77 => match parse_metadata(input) { Ok((_, t)) => Ok(Tag::Metadata(t)), Err(_) => Err(()) },
        78 => match parse_define_scaling_grid(input) {
            Ok((_, t)) => Ok(Tag::DefineScalingGrid(t)),
            Err(_) => Err(()),
        },
        82 => match parse_do_abc(input) { Ok((_, t)) => Ok(Tag::DoAbc(t)), Err(_) => Err(()) },
        86 => match parse_define_scene_and_frame_label_data_tag(input) {
            Ok((_, t)) => Ok(Tag::DefineSceneAndFrameLabelData(t)),
            Err(_) => Err(()),
        },
        87 => match parse_define_binary_data(input) {
            Ok((_, t)) => Ok(Tag::DefineBinaryData(t)),
            Err(_) => Err(()),
        },
        88 => match parse_define_font_name(input) {
            Ok((_, t)) => Ok(Tag::DefineFontName(t)),
            Err(_) => Err(()),
        },
        89 => match parse_start_sound2(input) { Ok((_, t)) => Ok(Tag::StartSound2(t)), Err(_) => Err(()) },
        90 => match parse_define_bits_jpeg4(input) {
            Ok((_, t)) => Ok(Tag::DefineBitmap(t)),
            Err(_) => Err(()),
        },
        93 => match parse_enable_telemetry(input) { Ok((_, t)) => Ok(Tag::Telemetry(t)), Err(_) => Err(()) },
        83 => match parse_define_shape4(input) {
            Ok((_, t)) => Ok(Tag::DefineShape(t)),
            Err(_) => Err(()),
        },
        70 => match parse_place_object3(input, swf_version) {
            Ok((_, t)) => Ok(Tag::PlaceObject(t)),
            Err(_) => Err(()),
        },
        73 => match parse_define_font_align_zones(input) {
            Ok((_, t)) => Ok(Tag::DefineFontAlignZones(t)),
            Err(_) => Err(()),
        },
        75 => match parse_define_font3(input) {
            Ok((_, t)) => Ok(Tag::DefineFont(t)),
            Err(_) => Err(()),
        },
        91 => match parse_define_font4(input) {
            Ok((_, t)) => Ok(Tag::DefineCffFont(t)),
            Err(_) => Err(()),
        },
        84 => match parse_define_morph_shape2(input) {
            Ok((_, t)) => Ok(Tag::DefineMorphShape(t)),
            Err(_) => Err(()),
        },
        _ => Err(()),
    }
}


// ---------------------------------------------------------------------------
// Tags and strings of tags
// ---------------------------------------------------------------------------

/// The body of a tag with the given code; `None` when the body is invalid or the code
/// unknown.
pub open spec fn spec_tag_body(s: Seq<u8>, code: u16, v: u8) -> Option<TagModel>
    decreases s.len(), 1int,
{
    if code == 39 {
        match spec_define_sprite(s, v) {
            Ok((m, _)) => Some(TagModel::DefineSprite(m)),
            Err(_) => None,
        }
    } else if code < 26 {
        spec_tag_body_low(s, code, v)
    } else if code < 65 {
        spec_tag_body_mid(s, code, v)
    } else {
        spec_tag_body_high(s, code, v)
    }
}

/// Sprite: id, frame count, then a string of tags that fills the rest of the body.
pub open spec fn spec_define_sprite(s: Seq<u8>, v: u8) -> SpecResult<DefineSpriteModel>
    decreases s.len(), 0int,
{
    if s.len() < 4 {
        Err(ParseError::Error)
    } else {
        Ok((
            DefineSpriteModel {
                id: le_u16_value(s) as u16,
                frame_count: le_u16_value(s.skip(2)) as usize,
                tags: spec_tag_block_string(s.skip(4), v),
            },
            Seq::<u8>::empty(),
        ))
    }
}

/// The tag of a record: its parsed body, or the raw bytes of the record when the body
/// cannot be parsed.
pub open spec fn framed_tag(code: u16, body: Seq<u8>, raw: Seq<u8>, v: u8) -> TagModel
    decreases body.len(), 2int,
{
    match spec_tag_body(body, code, v) {
        Some(t) => t,
        None => TagModel::Raw(raw),
    }
}

/// A complete string of tags: tags up to the `End` tag or the end of the input; a
/// tag cut short by the end of the input is kept whole as a raw tag.
pub open spec fn spec_tag_block_string(s: Seq<u8>, v: u8) -> Seq<TagModel>
    decreases s.len(), 3int,
{
    if s.len() == 0 {
        Seq::empty()
    } else {
        match spec_tag_frame(s) {
            TagFrame::End => Seq::empty(),
            TagFrame::Record { code, body, rest, raw } => {
                proof {
                    lemma_tag_frame_sizes(s);
                }
                seq![framed_tag(code, body, raw, v)] + spec_tag_block_string(rest, v)
            },
            _ => seq![TagModel::Raw(s)],
        }
    }
}

/// The tag at the start of a possibly incomplete input: `None` for the `End` tag.
pub open spec fn spec_streaming_tag(s: Seq<u8>, v: u8)
    -> Result<(Seq<u8>, Option<TagModel>), StreamingTagError>
{
    match spec_tag_frame(s) {
        TagFrame::IncompleteHeader => Err(StreamingTagError::IncompleteHeader),
        TagFrame::End => Ok((Seq::empty(), None)),
        TagFrame::Truncated(n) => Err(StreamingTagError::IncompleteTag(n)),
        TagFrame::Record { code, body, rest, raw } => Ok((rest, Some(framed_tag(code, body, raw, v)))),
    }
}

/// The tag at the start of a complete input: `None` at the end of the input or for
/// the `End` tag; a tag cut short is returned whole as a raw tag.
pub open spec fn spec_tag(s: Seq<u8>, v: u8) -> (Seq<u8>, Option<TagModel>) {
    if s.len() == 0 {
        (s, None)
    } else {
        match spec_streaming_tag(s, v) {
            Ok(r) => r,
            Err(_) => (Seq::empty(), Some(TagModel::Raw(s))),
        }
    }
}

/// Reading a tag always makes progress: when a tag comes out, the input left is
/// shorter.
pub proof fn lemma_tag_progress(s: Seq<u8>, v: u8)
    ensures
        spec_tag(s, v).1 is Some ==> spec_tag(s, v).0.len() < s.len(),
        spec_streaming_tag(s, v) matches Ok((rest, Some(_))) ==> rest.len() + 2 <= s.len(),
{
    lemma_tag_frame_sizes(s);
}

/// A tag body never reads as a raw tag: raw tags only stand for bodies that could not
/// be read.
proof fn lemma_tag_body_not_raw(s: Seq<u8>, code: u16, v: u8)
    ensures
        !(spec_tag_body(s, code, v) matches Some(TagModel::Raw(_))),
{
    reveal(spec_tag_body_low);
    reveal(spec_tag_body_mid);
    reveal(spec_tag_body_high);
}

/// A raw tag holds all the bytes of the tag that it stands for: a tag whose body could
/// not be read, of an unknown code, or cut short by the end of the input. Those bytes,
/// then the input left, make up the input.
pub proof fn lemma_raw_tag_bytes(s: Seq<u8>, v: u8)
    ensures
        spec_tag(s, v) matches (rest, Some(TagModel::Raw(data))) ==> data + rest == s,
{
    lemma_tag_frame_sizes(s);
    if s.len() > 0 {
        match spec_tag_frame(s) {
            TagFrame::Record { code, body, rest, raw } => {
                lemma_tag_body_not_raw(body, code, v);
            },
            _ => {
                assert(s + Seq::<u8>::empty() =~= s);
            },
        }
    }
}

/// A string of tags is what repeated reading of single tags gives, up to the first
/// read that gives no tag.
pub proof fn lemma_tag_block_string_step(s: Seq<u8>, v: u8)
    ensures
        spec_tag_block_string(s, v) == match spec_tag(s, v) {
            (_, None) => Seq::<TagModel>::empty(),
            (rest, Some(t)) => seq![t] + spec_tag_block_string(rest, v),
        },
{
    lemma_tag_frame_sizes(s);
    if s.len() > 0 {
        match spec_tag_frame(s) {
            TagFrame::Record { code, body, rest, raw } => {},
            TagFrame::End => {},
            _ => {
                assert(spec_tag_block_string(Seq::<u8>::empty(), v) == Seq::<TagModel>::empty());
                assert(seq![TagModel::Raw(s)] + Seq::<TagModel>::empty() =~= seq![TagModel::Raw(s)]);
            },
        }
    }
}

/// Parses the body of a tag with the given code.
pub fn parse_tag_body(input: &[u8], code: u16, swf_version: u8) -> (r: Result<Tag, ()>)
    ensures
        tag_result(r, spec_tag_body(input@, code, swf_version)),
    decreases input@.len(), 1int,
{
    if code == 39 {
        match parse_define_sprite(input, swf_version) {
            Ok((_, t)) => Ok(Tag::DefineSprite(t)),
            Err(_) => Err(()),
        }
    } else if code < 26 {
        parse_tag_body_low(input, code, swf_version)
    } else if code < 65 {
        parse_tag_body_mid(input, code, swf_version)
    } else {
        parse_tag_body_high(input, code, swf_version)
    }
}

pub fn parse_define_sprite(input: &[u8], swf_version: u8) -> (r: PResult<DefineSprite>)
    ensures
        match (r, spec_define_sprite(input@, swf_version)) {
            (Ok((rest, t)), Ok((m, srest))) => rest@ == srest
                && Tag::DefineSprite(t).deep_view() == TagModel::DefineSprite(m),
            (Err(e1), Err(e2)) => e1 == e2,
            _ => false,
        },
    decreases input@.len(), 0int,
{
    let (rest, id) = parse_le_u16_c(input)?;
    let (rest, frame_count) = parse_le_u16_c(rest)?;
    proof {
        assert(rest@ =~= input@.skip(4));
    }
    let tags: Vec<Tag> = parse_tag_block_string(rest, swf_version);
    let empty: &[u8] = slice_subrange(rest, rest.len(), rest.len());
    let sprite = DefineSprite { id, frame_count: frame_count as usize, tags };
    proof {
        assert(empty@ =~= Seq::<u8>::empty());
        crate::ast_tags::lemma_sprite_view(sprite);
    }
    Ok((empty, sprite))
}

/// Parses the tag at the start of a possibly incomplete input.
///
/// Returns the input after the tag and the tag, `None` for the `End` tag (then with
/// an empty input). A body that cannot be parsed gives a raw tag with the bytes of
/// the whole record.
pub fn parse_tag_streaming(input: &[u8], swf_version: u8)
    -> (r: Result<(&[u8], Option<Tag>), StreamingTagError>)
    ensures
        match (r, spec_streaming_tag(input@, swf_version)) {
            (Ok((rest, t)), Ok((srest, st))) => rest@ == srest && opt_tag_model(t) == st,
            (Err(e1), Err(e2)) => e1 == e2,
            _ => false,
        },
    decreases input@.len(), 2int,
{
    proof {
        lemma_tag_frame_sizes(input@);
    }
    let (hrest, header) = match parse_tag_header(input) {
        Ok(ok) => ok,
        Err(_) => return Err(StreamingTagError::IncompleteHeader),
    };
    if header.code == 0 {
        let empty: &[u8] = slice_subrange(input, input.len(), input.len());
        proof {
            assert(empty@ =~= Seq::<u8>::empty());
        }
        return Ok((empty, None));
    }
    let body_len: usize = header.length as usize;
    let header_len: usize = input.len() - hrest.len();
    if hrest.len() < body_len {
        return Err(StreamingTagError::IncompleteTag(header_len.saturating_add(body_len)));
    }
    let body: &[u8] = slice_subrange(hrest, 0, body_len);
    let rest: &[u8] = slice_subrange(hrest, body_len, hrest.len());
    proof {
        assert(body@ =~= hrest@.take(body_len as int));
        assert(rest@ =~= hrest@.skip(body_len as int));
    }
    let tag: Tag = match parse_tag_body(body, header.code, swf_version) {
        Ok(t) => t,
        Err(()) => {
            let raw: &[u8] = slice_subrange(input, 0, header_len + body_len);
            proof {
                assert(raw@ =~= input@.take(header_len + body_len));
            }
            Tag::Raw(Raw { data: slice_to_vec(raw) })
        },
    };
    Ok((rest, Some(tag)))
}

/// Parses the tag at the start of a complete input.
///
/// Returns the input after the tag and the tag; `None` marks the end of the tags
/// (empty input or `End` tag). This never fails: a tag cut short by the end of the
/// input comes out whole as a raw tag, and so does a tag whose body is invalid.
pub fn parse_tag(input: &[u8], swf_version: u8) -> (r: (&[u8], Option<Tag>))
    ensures
        r.0@ == spec_tag(input@, swf_version).0,
        opt_tag_model(r.1) == spec_tag(input@, swf_version).1,
        r.1 is Some ==> r.0@.len() < input@.len(),
    decreases input@.len(), 3int,
{
    proof {
        lemma_tag_progress(input@, swf_version);
    }
    if input.len() == 0 {
        return (input, None);
    }
    match parse_tag_streaming(input, swf_version) {
        Ok(ok) => ok,
        Err(_) => {
            let empty: &[u8] = slice_subrange(input, input.len(), input.len());
            proof {
                assert(empty@ =~= Seq::<u8>::empty());
            }
            (empty, Some(Tag::Raw(Raw { data: slice_to_vec(input) })))
        },
    }
}

/// Parses a complete string of tags: tags up to the `End` tag or the end of the input.
pub fn parse_tag_block_string(input: &[u8], swf_version: u8) -> (r: Vec<Tag>)
    ensures
        r.deep_view() == spec_tag_block_string(input@, swf_version),
    decreases input@.len(), 4int,
{
    let mut rest: &[u8] = input;
    let mut tags: Vec<Tag> = Vec::new();
    proof {
        assert(tags.deep_view() + spec_tag_block_string(rest@, swf_version)
            =~= spec_tag_block_string(input@, swf_version));
    }
    loop
        invariant
            rest@.len() <= input@.len(),
            tags.deep_view() + spec_tag_block_string(rest@, swf_version)
                == spec_tag_block_string(input@, swf_version),
        decreases rest@.len(),
    {
        proof {
            lemma_tag_block_string_step(rest@, swf_version);
        }
        let (next, tag) = parse_tag(rest, swf_version);
        match tag {
            Some(t) => {
                let ghost old_tags = tags.deep_view();
                let ghost tm = t.deep_view();
                tags.push(t);
                proof {
                    assert(tags.deep_view() =~= old_tags.push(tm));
                    assert(old_tags.push(tm) + spec_tag_block_string(next@, swf_version)
                        =~= old_tags + (seq![tm] + spec_tag_block_string(next@, swf_version)));
                }
                rest = next;
            },
            None => {
                proof {
                    assert(tags.deep_view() + Seq::<TagModel>::empty() =~= tags.deep_view());
                }
                return tags;
            },
        }
    }
}

} // verus!

//! Parsers of tag bodies. Each one reads a complete tag body.
use vstd::prelude::*;
use vstd::slice::slice_subrange;
use crate::ast::{NamedId, NamedIdModel, StraightSRgba8};
use crate::ast_tags::{
    AudioCodingFormat, ButtonSound, ButtonSoundModel, CsmTextSettings, DefineBinaryData,
    DefineBinaryDataModel, DefineBitmap, DefineBitmapModel, DefineButtonColorTransform,
    DefineButtonSound, DefineButtonSoundModel, DefineDynamicText, DefineDynamicTextModel,
    DefineFontName, DefineFontNameModel, DefineJpegTables, DefineScalingGrid,
    DefineSceneAndFrameLabelData, DefineSceneAndFrameLabelDataModel, DefineSound, DefineSoundModel,
    DefineVideoStream, DoAbc, DoAbcModel, DoAction, DoInitAction, DoInitActionModel, EnableDebugger,
    ExportAssets, FileAttributes, FrameLabel, FrameLabelModel, ImageType, ImportAssets,
    ImportAssetsModel, Label, LabelModel, Metadata, Protect, RemoveObject, Scene, SceneModel,
    ScriptLimits, SetBackgroundColor, SetTabIndex, SoundSize, SoundStreamBlock, SoundStreamHead,
    SoundType, StartSound, StartSound2, StartSound2Model, StartSoundModel, SymbolClass, Telemetry,
    TextAlignment, VideoFrame, VideoFrameModel,
};
use crate::basic_data_types::{
    parse_color_transform, parse_named_id, parse_rect, parse_s_rgb8, parse_straight_s_rgba8,
    spec_color_transform, spec_named_id, spec_rect, spec_s_rgb8, spec_straight_s_rgba8,
};
use crate::bytes::{
    parse_block_c_string, parse_bytes, parse_c_string, parse_le_i16_c, parse_le_u16_c,
    parse_le_u32_c, parse_leb128_u32, parse_u8_c, skip_c, spec_block_c_string, spec_c_string,
    spec_le_i16, spec_leb128_u32, spec_skip_c, u16_c, u32_c, u8_c,
};
use crate::error::{ParseError, PResult, SpecResult, parsed_as, sbind, sopt, spec_complete};
use crate::image::{
    ImageDimensions, get_gif_image_dimensions, get_jpeg_image_dimensions,
    get_png_image_dimensions, gif_start, is_sniffed_gif, is_sniffed_jpeg, is_sniffed_png,
    png_start, sniffed_jpeg, spec_gif_dimensions, spec_jpeg_dimensions,
    spec_png_dimensions, starts_with,
};
use crate::sound::{
    audio_coding_format_from_code, is_uncompressed_audio_coding_format, parse_sound_info,
    sound_rate_from_code, spec_audio_coding_format, spec_is_uncompressed, spec_sound_info,
    spec_sound_rate,
};
use crate::video::{
    grid_fitting_from_code, parse_text_alignment, parse_videoc_codec, spec_grid_fitting,
    spec_text_alignment, spec_text_renderer, spec_video_deblocking, spec_videoc_codec,
    text_renderer_from_code, video_deblocking_from_code,
};

verus! {




/// The rest of a complete input, as the final field of a tag.
pub open spec fn all_bytes(s: Seq<u8>) -> SpecResult<Seq<u8>> {
    Ok((s, Seq::empty()))
}

// ---------------------------------------------------------------------------
// Lists
// ---------------------------------------------------------------------------

/// `count` consecutive named ids.
pub open spec fn spec_named_ids(s: Seq<u8>, count: nat) -> SpecResult<Seq<NamedIdModel>>
    decreases count,
{
    if count == 0 {
        Ok((Seq::empty(), s))
    } else {
        sbind(spec_named_ids(s, (count - 1) as nat), |vs: Seq<NamedIdModel>, s1: Seq<u8>|
        sbind(spec_named_id(s1), |v: NamedIdModel, s2: Seq<u8>| Ok((vs.push(v), s2))))
    }
}

proof fn lemma_named_ids_err(s: Seq<u8>, k: nat, count: nat)
    requires
        k <= count,
        spec_named_ids(s, k) is Err,
    ensures
        spec_named_ids(s, count) == spec_named_ids(s, k),
    decreases count - k,
{
    if k < count {
        lemma_named_ids_err(s, k, (count - 1) as nat);
    }
}

pub fn parse_named_ids(input: &[u8], count: usize) -> (r: PResult<Vec<NamedId>>)
    ensures
        parsed_as(r, spec_named_ids(input@, count as nat)),
{
    let mut out: Vec<NamedId> = Vec::new();
    assert(out.deep_view() =~= Seq::<NamedIdModel>::empty());
    let mut cur: &[u8] = input;
    let mut k: usize = 0;
    while k < count
        invariant
            k <= count,
            spec_named_ids(input@, k as nat) == Ok::<_, ParseError>((out.deep_view(), cur@)),
        decreases count - k,
    {
        match parse_named_id(cur) {
            Ok((next, v)) => {
                let ghost old_out = out.deep_view();
                out.push(v);
                assert(out.deep_view() =~= old_out.push(v.deep_view()));
                cur = next;
            },
            Err(e) => {
                proof { lemma_named_ids_err(input@, (k + 1) as nat, count as nat); }
                return Err(e);
            },
        }
        k = k + 1;
    }
    Ok((cur, out))
}

pub open spec fn spec_scene(s: Seq<u8>) -> SpecResult<SceneModel> {
    sbind(spec_leb128_u32(s), |offset: u32, s1: Seq<u8>|
    sbind(spec_c_string(s1), |name: Seq<char>, s2: Seq<u8>| Ok((SceneModel { offset, name }, s2))))
}

pub fn parse_scene(input: &[u8]) -> (r: PResult<Scene>)
    ensures
        parsed_as(r, spec_scene(input@)),
{
    let (input, offset) = parse_leb128_u32(input)?;
    let (input, name) = parse_c_string(input)?;
    Ok((input, Scene { offset, name }))
}

pub open spec fn spec_label(s: Seq<u8>) -> SpecResult<LabelModel> {
    sbind(spec_leb128_u32(s), |frame: u32, s1: Seq<u8>|
    sbind(spec_c_string(s1), |name: Seq<char>, s2: Seq<u8>| Ok((LabelModel { frame, name }, s2))))
}

pub fn parse_label(input: &[u8]) -> (r: PResult<Label>)
    ensures
        parsed_as(r, spec_label(input@)),
{
    let (input, frame) = parse_leb128_u32(input)?;
    let (input, name) = parse_c_string(input)?;
    Ok((input, Label { frame, name }))
}

pub open spec fn spec_scenes(s: Seq<u8>, count: nat) -> SpecResult<Seq<SceneModel>>
    decreases count,
{
    if count == 0 {
        Ok((Seq::empty(), s))
    } else {
        sbind(spec_scenes(s, (count - 1) as nat), |vs: Seq<SceneModel>, s1: Seq<u8>|
        sbind(spec_scene(s1), |v: SceneModel, s2: Seq<u8>| Ok((vs.push(v), s2))))
    }
}

proof fn lemma_scenes_err(s: Seq<u8>, k: nat, count: nat)
    requires
        k <= count,
        spec_scenes(s, k) is Err,
    ensures
        spec_scenes(s, count) == spec_scenes(s, k),
    decreases count - k,
{
    if k < count {
        lemma_scenes_err(s, k, (count - 1) as nat);
    }
}

pub fn parse_scenes(input: &[u8], count: usize) -> (r: PResult<Vec<Scene>>)
    ensures
        parsed_as(r, spec_scenes(input@, count as nat)),
{
    let mut out: Vec<Scene> = Vec::new();
    assert(out.deep_view() =~= Seq::<SceneModel>::empty());
    let mut cur: &[u8] = input;
    let mut k: usize = 0;
    while k < count
        invariant
            k <= count,
            spec_scenes(input@, k as nat) == Ok::<_, ParseError>((out.deep_view(), cur@)),
        decreases count - k,
    {
        match parse_scene(cur) {
            Ok((next, v)) => {
                let ghost old_out = out.deep_view();
                out.push(v);
                assert(out.deep_view() =~= old_out.push(v.deep_view()));
                cur = next;
            },
            Err(e) => {
                proof { lemma_scenes_err(input@, (k + 1) as nat, count as nat); }
                return Err(e);
            },
        }
        k = k + 1;
    }
    Ok((cur, out))
}

pub open spec fn spec_labels(s: Seq<u8>, count: nat) -> SpecResult<Seq<LabelModel>>
    decreases count,
{
    if count == 0 {
        Ok((Seq::empty(), s))
    } else {
        sbind(spec_labels(s, (count - 1) as nat), |vs: Seq<LabelModel>, s1: Seq<u8>|
        sbind(spec_label(s1), |v: LabelModel, s2: Seq<u8>| Ok((vs.push(v), s2))))
    }
}

proof fn lemma_labels_err(s: Seq<u8>, k: nat, count: nat)
    requires
        k <= count,
        spec_labels(s, k) is Err,
    ensures
        spec_labels(s, count) == spec_labels(s, k),
    decreases count - k,
{
    if k < count {
        lemma_labels_err(s, k, (count - 1) as nat);
    }
}

pub fn parse_labels(input: &[u8], count: usize) -> (r: PResult<Vec<Label>>)
    ensures
        parsed_as(r, spec_labels(input@, count as nat)),
{
    let mut out: Vec<Label> = Vec::new();
    assert(out.deep_view() =~= Seq::<LabelModel>::empty());
    let mut cur: &[u8] = input;
    let mut k: usize = 0;
    while k < count
        invariant
            k <= count,
            spec_labels(input@, k as nat) == Ok::<_, ParseError>((out.deep_view(), cur@)),
        decreases count - k,
    {
        match parse_label(cur) {
            Ok((next, v)) => {
                let ghost old_out = out.deep_view();
                out.push(v);
                assert(out.deep_view() =~= old_out.push(v.deep_view()));
                cur = next;
            },
            Err(e) => {
                proof { lemma_labels_err(input@, (k + 1) as nat, count as nat); }
                return Err(e);
            },
        }
        k = k + 1;
    }
    Ok((cur, out))
}

// ---------------------------------------------------------------------------
// Tags
// ---------------------------------------------------------------------------

#[verifier::opaque]
pub open spec fn spec_remove_object(s: Seq<u8>) -> SpecResult<RemoveObject> {
    sbind(u16_c(s), |character_id: u16, s1: Seq<u8>|
    sbind(u16_c(s1), |depth: u16, s2: Seq<u8>|
        Ok((RemoveObject { character_id: Some(character_id), depth }, s2))))
}

pub fn parse_remove_object(input: &[u8]) -> (r: PResult<RemoveObject>)
    ensures
        parsed_as(r, spec_remove_object(input@)),
{
    reveal(spec_remove_object);
    let (input, character_id) = parse_le_u16_c(input)?;
    let (input, depth) = parse_le_u16_c(input)?;
    Ok((input, RemoveObject { character_id: Some(character_id), depth }))
}

#[verifier::opaque]
pub open spec fn spec_remove_object2(s: Seq<u8>) -> SpecResult<RemoveObject> {
    sbind(u16_c(s), |depth: u16, s1: Seq<u8>| Ok((RemoveObject { character_id: None, depth }, s1)))
}

pub fn parse_remove_object2(input: &[u8]) -> (r: PResult<RemoveObject>)
    ensures
        parsed_as(r, spec_remove_object2(input@)),
{
    reveal(spec_remove_object2);
    let (input, depth) = parse_le_u16_c(input)?;
    Ok((input, RemoveObject { character_id: None, depth }))
}

#[verifier::opaque]
pub open spec fn spec_set_background_color(s: Seq<u8>) -> SpecResult<SetBackgroundColor> {
    sbind(spec_s_rgb8(s), |color, s1: Seq<u8>| Ok((SetBackgroundColor { color }, s1)))
}

pub fn parse_set_background_color_tag(input: &[u8]) -> (r: PResult<SetBackgroundColor>)
    ensures
        parsed_as(r, spec_set_background_color(input@)),
{
    reveal(spec_set_background_color);
    let (input, color) = parse_s_rgb8(input)?;
    Ok((input, SetBackgroundColor { color }))
}

pub fn parse_define_jpeg_tables(input: &[u8], _swf_version: u8) -> (r: PResult<DefineJpegTables>)
    ensures
        r matches Ok((rest, v)) && rest@.len() == 0 && v.data@ == input@,
{
    let (input, data) = parse_bytes(input);
    Ok((input, DefineJpegTables { data }))
}

pub fn parse_do_action(input: &[u8]) -> (r: PResult<DoAction>)
    ensures
        r matches Ok((rest, v)) && rest@.len() == 0 && v.actions@ == input@,
{
    let (input, actions) = parse_bytes(input);
    Ok((input, DoAction { actions }))
}

pub fn parse_sound_stream_block(input: &[u8]) -> (r: PResult<SoundStreamBlock>)
    ensures
        r matches Ok((rest, v)) && rest@.len() == 0 && v.data@ == input@,
{
    let (input, data) = parse_bytes(input);
    Ok((input, SoundStreamBlock { data }))
}

#[verifier::opaque]
pub open spec fn spec_do_init_action(s: Seq<u8>) -> SpecResult<DoInitActionModel> {
    sbind(u16_c(s), |sprite_id: u16, s1: Seq<u8>|
        Ok((DoInitActionModel { sprite_id, actions: s1 }, Seq::empty())))
}

pub fn parse_do_init_action(input: &[u8]) -> (r: PResult<DoInitAction>)
    ensures
        match (r, spec_do_init_action(input@)) {
            (Ok((rest, v)), Ok((m, srest))) => rest@ == srest && v.sprite_id == m.sprite_id
                && v.actions@ == m.actions,
            (Err(e1), Err(e2)) => e1 == e2,
            _ => false,
        },
{
    reveal(spec_do_init_action);
    let (input, sprite_id) = parse_le_u16_c(input)?;
    let (input, actions) = parse_bytes(input);
    assert(input@ =~= Seq::<u8>::empty());
    Ok((input, DoInitAction { sprite_id, actions }))
}

pub open spec fn sound_type_of(stereo: bool) -> SoundType {
    if stereo { SoundType::Stereo } else { SoundType::Mono }
}

pub open spec fn sound_size_of(size16: bool) -> SoundSize {
    if size16 { SoundSize::SoundSize16 } else { SoundSize::SoundSize8 }
}

fn sound_type_from_flag(stereo: bool) -> (r: SoundType)
    ensures
        r == sound_type_of(stereo),
{
    if stereo { SoundType::Stereo } else { SoundType::Mono }
}

fn sound_size_from_flag(size16: bool) -> (r: SoundSize)
    ensures
        r == sound_size_of(size16),
{
    if size16 { SoundSize::SoundSize16 } else { SoundSize::SoundSize8 }
}

/// Define sound: the sample size is 16 bits for compressed formats, whatever the flag says.
#[verifier::opaque]
pub open spec fn spec_define_sound(s: Seq<u8>) -> SpecResult<DefineSoundModel> {
    sbind(u16_c(s), |id: u16, s1: Seq<u8>|
    sbind(u8_c(s1), |flags: u8, s2: Seq<u8>|
        match (spec_sound_rate((flags >> 2u8) & 3u8), spec_audio_coding_format((flags >> 4u8) & 15u8)) {
            (Some(sound_rate), Some(format)) =>
                sbind(u32_c(s2), |sample_count: u32, s3: Seq<u8>|
                    Ok((
                        DefineSoundModel {
                            id,
                            sound_type: sound_type_of(flags & 1u8 != 0),
                            sound_size: if spec_is_uncompressed(format) {
                                sound_size_of(flags & 2u8 != 0)
                            } else {
                                SoundSize::SoundSize16
                            },
                            sound_rate,
                            format,
                            sample_count,
                            data: s3,
                        },
                        Seq::empty(),
                    ))),
            _ => Err(ParseError::Error),
        }))
}

pub fn parse_define_sound(input: &[u8]) -> (r: PResult<DefineSound>)
    ensures
        match (r, spec_define_sound(input@)) {
            (Ok((rest, v)), Ok((m, srest))) => rest@ == srest && v.id == m.id && v.sound_type == m.sound_type
                && v.sound_size == m.sound_size && v.sound_rate == m.sound_rate && v.format == m.format
                && v.sample_count == m.sample_count && v.data@ == m.data,
            (Err(e1), Err(e2)) => e1 == e2,
            _ => false,
        },
{
    reveal(spec_define_sound);
    let (input, id) = parse_le_u16_c(input)?;
    let (input, flags) = parse_u8_c(input)?;
    let sound_type: SoundType = sound_type_from_flag(flags & 1u8 != 0);
    let sound_size: SoundSize = sound_size_from_flag(flags & 2u8 != 0);
    let sound_rate = match sound_rate_from_code((flags >> 2u8) & 3u8) {
        Ok(v) => v,
        Err(()) => return Err(ParseError::Error),
    };
    let format = match audio_coding_format_from_code((flags >> 4u8) & 15u8) {
        Ok(v) => v,
        Err(()) => return Err(ParseError::Error),
    };
    let (input, sample_count) = parse_le_u32_c(input)?;
    let (input, data) = parse_bytes(input);
    assert(input@ =~= Seq::<u8>::empty());
    Ok((
        input,
        DefineSound {
            id,
            sound_type,
            sound_size: if is_uncompressed_audio_coding_format(format) { sound_size } else { SoundSize::SoundSize16 },
            sound_rate,
            format,
            sample_count,
            data,
        },
    ))
}

#[verifier::opaque]
pub open spec fn spec_start_sound(s: Seq<u8>) -> SpecResult<StartSoundModel> {
    sbind(u16_c(s), |sound_id: u16, s1: Seq<u8>|
    sbind(spec_sound_info(s1), |sound_info, s2: Seq<u8>| Ok((StartSoundModel { sound_id, sound_info }, s2))))
}

pub fn parse_start_sound(input: &[u8]) -> (r: PResult<StartSound>)
    ensures
        parsed_as(r, spec_start_sound(input@)),
{
    reveal(spec_start_sound);
    let (input, sound_id) = parse_le_u16_c(input)?;
    let (input, sound_info) = parse_sound_info(input)?;
    Ok((input, StartSound { sound_id, sound_info }))
}

#[verifier::opaque]
pub open spec fn spec_start_sound2(s: Seq<u8>) -> SpecResult<StartSound2Model> {
    sbind(spec_c_string(s), |sound_class_name: Seq<char>, s1: Seq<u8>|
    sbind(spec_sound_info(s1), |sound_info, s2: Seq<u8>|
        Ok((StartSound2Model { sound_class_name, sound_info }, s2))))
}

pub fn parse_start_sound2(input: &[u8]) -> (r: PResult<StartSound2>)
    ensures
        parsed_as(r, spec_start_sound2(input@)),
{
    reveal(spec_start_sound2);
    let (input, sound_class_name) = parse_c_string(input)?;
    let (input, sound_info) = parse_sound_info(input)?;
    Ok((input, StartSound2 { sound_class_name, sound_info }))
}

/// A button sound: a sound id, then sound info unless the id is 0.
pub open spec fn spec_button_sound(s: Seq<u8>) -> SpecResult<Option<ButtonSoundModel>> {
    sbind(u16_c(s), |sound_id: u16, s1: Seq<u8>|
        if sound_id == 0 {
            Ok((None, s1))
        } else {
            sbind(spec_sound_info(s1), |sound_info, s2: Seq<u8>|
                Ok((Some(ButtonSoundModel { sound_id, sound_info }), s2)))
        })
}

pub fn parse_button_sound(input: &[u8]) -> (r: PResult<Option<ButtonSound>>)
    ensures
        match (r, spec_button_sound(input@)) {
            (Ok((rest, v)), Ok((m, srest))) => rest@ == srest && crate::ast_tags::button_sound_model(v) == m,
            (Err(e1), Err(e2)) => e1 == e2,
            _ => false,
        },
{
    let (input, sound_id) = parse_le_u16_c(input)?;
    if sound_id == 0 {
        Ok((input, None))
    } else {
        let (input, sound_info) = parse_sound_info(input)?;
        Ok((input, Some(ButtonSound { sound_id, sound_info })))
    }
}

#[verifier::opaque]
pub open spec fn spec_define_button_sound(s: Seq<u8>) -> SpecResult<DefineButtonSoundModel> {
    sbind(u16_c(s), |button_id: u16, s1: Seq<u8>|
    sbind(spec_button_sound(s1), |over_up_to_idle, s2: Seq<u8>|
    sbind(spec_button_sound(s2), |idle_to_over_up, s3: Seq<u8>|
    sbind(spec_button_sound(s3), |over_up_to_over_down, s4: Seq<u8>|
    sbind(spec_button_sound(s4), |over_down_to_over_up, s5: Seq<u8>|
        Ok((
            DefineButtonSoundModel {
                button_id,
                over_up_to_idle,
                idle_to_over_up,
                over_up_to_over_down,
                over_down_to_over_up,
            },
            s5,
        )))))))
}

pub fn parse_define_button_sound(input: &[u8]) -> (r: PResult<DefineButtonSound>)
    ensures
        match (r, spec_define_button_sound(input@)) {
            (Ok((rest, v)), Ok((m, srest))) => rest@ == srest && v.button_id == m.button_id
                && crate::ast_tags::button_sound_model(v.over_up_to_idle) == m.over_up_to_idle
                && crate::ast_tags::button_sound_model(v.idle_to_over_up) == m.idle_to_over_up
                && crate::ast_tags::button_sound_model(v.over_up_to_over_down) == m.over_up_to_over_down
                && crate::ast_tags::button_sound_model(v.over_down_to_over_up) == m.over_down_to_over_up,
            (Err(e1), Err(e2)) => e1 == e2,
            _ => false,
        },
{
    reveal(spec_define_button_sound);
    let (input, button_id) = parse_le_u16_c(input)?;
    let (input, over_up_to_idle) = parse_button_sound(input)?;
    let (input, idle_to_over_up) = parse_button_sound(input)?;
    let (input, over_up_to_over_down) = parse_button_sound(input)?;
    let (input, over_down_to_over_up) = parse_button_sound(input)?;
    Ok((
        input,
        DefineButtonSound { button_id, over_up_to_idle, idle_to_over_up, over_up_to_over_down, over_down_to_over_up },
    ))
}

/// Sound stream head; the latency seek is present for MP3 streams only.
#[verifier::opaque]
pub open spec fn spec_sound_stream_head(s: Seq<u8>) -> SpecResult<SoundStreamHead> {
    sbind(u16_c(s), |flags: u16, s1: Seq<u8>|
        match (
            spec_sound_rate(((flags >> 2u16) & 3u16) as u8),
            spec_sound_rate(((flags >> 10u16) & 3u16) as u8),
            spec_audio_coding_format(((flags >> 12u16) & 15u16) as u8),
        ) {
            (Some(playback_sound_rate), Some(stream_sound_rate), Some(stream_format)) =>
                sbind(u16_c(s1), |stream_sample_count: u16, s2: Seq<u8>|
                sbind(sopt(stream_format == AudioCodingFormat::Mp3, s2, spec_complete(spec_le_i16(s2))),
                    |latency_seek: Option<i16>, s3: Seq<u8>|
                    Ok((
                        SoundStreamHead {
                            playback_sound_type: sound_type_of(flags & 1u16 != 0),
                            playback_sound_size: sound_size_of(flags & 2u16 != 0),
                            playback_sound_rate,
                            stream_sound_type: sound_type_of(flags & 256u16 != 0),
                            stream_sound_size: if spec_is_uncompressed(stream_format) {
                                sound_size_of(flags & 512u16 != 0)
                            } else {
                                SoundSize::SoundSize16
                            },
                            stream_sound_rate,
                            stream_format,
                            stream_sample_count,
                            latency_seek,
                        },
                        s3,
                    )))),
            _ => Err(ParseError::Error),
        })
}

pub fn parse_sound_stream_head_any(input: &[u8]) -> (r: PResult<SoundStreamHead>)
    ensures
        parsed_as(r, spec_sound_stream_head(input@)),
{
    reveal(spec_sound_stream_head);
    let (input, flags) = parse_le_u16_c(input)?;
    let playback_sound_type: SoundType = sound_type_from_flag(flags & 1u16 != 0);
    let playback_sound_size: SoundSize = sound_size_from_flag(flags & 2u16 != 0);
    let playback_sound_rate = match sound_rate_from_code(((flags >> 2u16) & 3u16) as u8) {
        Ok(v) => v,
        Err(()) => return Err(ParseError::Error),
    };
    let stream_sound_type: SoundType = sound_type_from_flag(flags & 256u16 != 0);
    let stream_sound_size: SoundSize = sound_size_from_flag(flags & 512u16 != 0);
    let stream_sound_rate = match sound_rate_from_code(((flags >> 10u16) & 3u16) as u8) {
        Ok(v) => v,
        Err(()) => return Err(ParseError::Error),
    };
    let stream_format = match audio_coding_format_from_code(((flags >> 12u16) & 15u16) as u8) {
        Ok(v) => v,
        Err(()) => return Err(ParseError::Error),
    };
    let (input, stream_sample_count) = parse_le_u16_c(input)?;
    let is_mp3: bool = match stream_format {
        AudioCodingFormat::Mp3 => true,
        _ => false,
    };
    let (input, latency_seek) = if is_mp3 {
        let (input, v) = parse_le_i16_c(input)?;
        (input, Some(v))
    } else {
        (input, None)
    };
    Ok((
        input,
        SoundStreamHead {
            playback_sound_type,
            playback_sound_size,
            playback_sound_rate,
            stream_sound_type,
            stream_sound_size: if is_uncompressed_audio_coding_format(stream_format) {
                stream_sound_size
            } else {
                SoundSize::SoundSize16
            },
            stream_sound_rate,
            stream_format,
            stream_sample_count,
            latency_seek,
        },
    ))
}

pub fn parse_sound_stream_head(input: &[u8]) -> (r: PResult<SoundStreamHead>)
    ensures
        parsed_as(r, spec_sound_stream_head(input@)),
{
    parse_sound_stream_head_any(input)
}

pub fn parse_sound_stream_head2(input: &[u8]) -> (r: PResult<SoundStreamHead>)
    ensures
        parsed_as(r, spec_sound_stream_head(input@)),
{
    parse_sound_stream_head_any(input)
}

#[verifier::opaque]
pub open spec fn spec_define_button_color_transform(s: Seq<u8>) -> SpecResult<DefineButtonColorTransform> {
    sbind(u16_c(s), |button_id: u16, s1: Seq<u8>|
    sbind(spec_color_transform(s1), |transform, s2: Seq<u8>|
        Ok((DefineButtonColorTransform { button_id, transform }, s2))))
}

pub fn parse_define_button_color_transform(input: &[u8]) -> (r: PResult<DefineButtonColorTransform>)
    ensures
        parsed_as(r, spec_define_button_color_transform(input@)),
{
    reveal(spec_define_button_color_transform);
    let (input, button_id) = parse_le_u16_c(input)?;
    let (input, transform) = parse_color_transform(input)?;
    Ok((input, DefineButtonColorTransform { button_id, transform }))
}

#[verifier::opaque]
pub open spec fn spec_protect(s: Seq<u8>) -> SpecResult<Seq<char>> {
    spec_block_c_string(s)
}

pub fn parse_protect(input: &[u8]) -> (r: PResult<Protect>)
    ensures
        match (r, spec_protect(input@)) {
            (Ok((rest, v)), Ok((m, srest))) => rest@ == srest && v.password@ == m,
            (Err(e1), Err(e2)) => e1 == e2,
            _ => false,
        },
{
    reveal(spec_protect);
    let (input, password) = parse_block_c_string(input)?;
    Ok((input, Protect { password }))
}

#[verifier::opaque]
pub open spec fn spec_enable_debugger(s: Seq<u8>) -> SpecResult<Seq<char>> {
    spec_c_string(s)
}

pub fn parse_enable_debugger(input: &[u8]) -> (r: PResult<EnableDebugger>)
    ensures
        match (r, spec_enable_debugger(input@)) {
            (Ok((rest, v)), Ok((m, srest))) => rest@ == srest && v.password@ == m,
            (Err(e1), Err(e2)) => e1 == e2,
            _ => false,
        },
{
    reveal(spec_enable_debugger);
    let (input, password) = parse_c_string(input)?;
    Ok((input, EnableDebugger { password }))
}

/// Enable debugger 2: two reserved bytes, then the password.
#[verifier::opaque]
pub open spec fn spec_enable_debugger2(s: Seq<u8>) -> SpecResult<Seq<char>> {
    sbind(spec_skip_c(s, 2), |_u: (), s1: Seq<u8>| spec_c_string(s1))
}

pub fn parse_enable_debugger2(input: &[u8]) -> (r: PResult<EnableDebugger>)
    ensures
        match (r, spec_enable_debugger2(input@)) {
            (Ok((rest, v)), Ok((m, srest))) => rest@ == srest && v.password@ == m,
            (Err(e1), Err(e2)) => e1 == e2,
            _ => false,
        },
{
    reveal(spec_enable_debugger2);
    let (input, _) = skip_c(input, 2)?;
    let (input, password) = parse_c_string(input)?;
    Ok((input, EnableDebugger { password }))
}

#[verifier::opaque]
pub open spec fn spec_metadata(s: Seq<u8>) -> SpecResult<Seq<char>> {
    spec_c_string(s)
}

pub fn parse_metadata(input: &[u8]) -> (r: PResult<Metadata>)
    ensures
        match (r, spec_metadata(input@)) {
            (Ok((rest, v)), Ok((m, srest))) => rest@ == srest && v.metadata@ == m,
            (Err(e1), Err(e2)) => e1 == e2,
            _ => false,
        },
{
    reveal(spec_metadata);
    let (input, metadata) = parse_c_string(input)?;
    Ok((input, Metadata { metadata }))
}

/// Frame label: a name, then an anchor flag byte when input is left.
#[verifier::opaque]
pub open spec fn spec_frame_label(s: Seq<u8>) -> SpecResult<FrameLabelModel> {
    sbind(spec_c_string(s), |name: Seq<char>, s1: Seq<u8>|
        if s1.len() == 0 {
            Ok((FrameLabelModel { name, is_anchor: false }, s1))
        } else {
            sbind(u8_c(s1), |flag: u8, s2: Seq<u8>| Ok((FrameLabelModel { name, is_anchor: flag != 0 }, s2)))
        })
}

pub fn parse_frame_label(input: &[u8]) -> (r: PResult<FrameLabel>)
    ensures
        match (r, spec_frame_label(input@)) {
            (Ok((rest, v)), Ok((m, srest))) => rest@ == srest && v.name@ == m.name && v.is_anchor == m.is_anchor,
            (Err(e1), Err(e2)) => e1 == e2,
            _ => false,
        },
{
    reveal(spec_frame_label);
    let (input, name) = parse_c_string(input)?;
    if input.len() == 0 {
        Ok((input, FrameLabel { name, is_anchor: false }))
    } else {
        let (input, flag) = parse_u8_c(input)?;
        Ok((input, FrameLabel { name, is_anchor: flag != 0 }))
    }
}

#[verifier::opaque]
pub open spec fn spec_export_assets(s: Seq<u8>) -> SpecResult<Seq<NamedIdModel>> {
    sbind(u16_c(s), |count: u16, s1: Seq<u8>| spec_named_ids(s1, count as nat))
}

pub fn parse_export_assets(input: &[u8]) -> (r: PResult<ExportAssets>)
    ensures
        match (r, spec_export_assets(input@)) {
            (Ok((rest, v)), Ok((m, srest))) => rest@ == srest && v.assets.deep_view() == m,
            (Err(e1), Err(e2)) => e1 == e2,
            _ => false,
        },
{
    reveal(spec_export_assets);
    let (input, count) = parse_le_u16_c(input)?;
    let (input, assets) = parse_named_ids(input, count as usize)?;
    Ok((input, ExportAssets { assets }))
}

#[verifier::opaque]
pub open spec fn spec_symbol_class(s: Seq<u8>) -> SpecResult<Seq<NamedIdModel>> {
    sbind(u16_c(s), |count: u16, s1: Seq<u8>| spec_named_ids(s1, count as nat))
}

pub fn parse_symbol_class(input: &[u8]) -> (r: PResult<SymbolClass>)
    ensures
        match (r, spec_symbol_class(input@)) {
            (Ok((rest, v)), Ok((m, srest))) => rest@ == srest && v.symbols.deep_view() == m,
            (Err(e1), Err(e2)) => e1 == e2,
            _ => false,
        },
{
    reveal(spec_symbol_class);
    let (input, count) = parse_le_u16_c(input)?;
    let (input, symbols) = parse_named_ids(input, count as usize)?;
    Ok((input, SymbolClass { symbols }))
}

#[verifier::opaque]
pub open spec fn spec_import_assets(s: Seq<u8>) -> SpecResult<ImportAssetsModel> {
    sbind(spec_c_string(s), |url: Seq<char>, s1: Seq<u8>|
    sbind(u16_c(s1), |count: u16, s2: Seq<u8>|
    sbind(spec_named_ids(s2, count as nat), |assets: Seq<NamedIdModel>, s3: Seq<u8>|
        Ok((ImportAssetsModel { url, assets }, s3)))))
}

pub fn parse_import_assets(input: &[u8]) -> (r: PResult<ImportAssets>)
    ensures
        match (r, spec_import_assets(input@)) {
            (Ok((rest, v)), Ok((m, srest))) => rest@ == srest && v.url@ == m.url && v.assets.deep_view() == m.assets,
            (Err(e1), Err(e2)) => e1 == e2,
            _ => false,
        },
{
    reveal(spec_import_assets);
    let (input, url) = parse_c_string(input)?;
    let (input, count) = parse_le_u16_c(input)?;
    let (input, assets) = parse_named_ids(input, count as usize)?;
    Ok((input, ImportAssets { url, assets }))
}

/// Import assets 2: as import assets, with two reserved bytes after the URL.
#[verifier::opaque]
pub open spec fn spec_import_assets2(s: Seq<u8>) -> SpecResult<ImportAssetsModel> {
    sbind(spec_c_string(s), |url: Seq<char>, s1: Seq<u8>|
    sbind(spec_skip_c(s1, 2), |_u: (), s2: Seq<u8>|
    sbind(u16_c(s2), |count: u16, s3: Seq<u8>|
    sbind(spec_named_ids(s3, count as nat), |assets: Seq<NamedIdModel>, s4: Seq<u8>|
        Ok((ImportAssetsModel { url, assets }, s4))))))
}

pub fn parse_import_assets2(input: &[u8]) -> (r: PResult<ImportAssets>)
    ensures
        match (r, spec_import_assets2(input@)) {
            (Ok((rest, v)), Ok((m, srest))) => rest@ == srest && v.url@ == m.url && v.assets.deep_view() == m.assets,
            (Err(e1), Err(e2)) => e1 == e2,
            _ => false,
        },
{
    reveal(spec_import_assets2);
    let (input, url) = parse_c_string(input)?;
    let (input, _) = skip_c(input, 2)?;
    let (input, count) = parse_le_u16_c(input)?;
    let (input, assets) = parse_named_ids(input, count as usize)?;
    Ok((input, ImportAssets { url, assets }))
}

#[verifier::opaque]
pub open spec fn spec_define_video_stream(s: Seq<u8>) -> SpecResult<DefineVideoStream> {
    sbind(u16_c(s), |id: u16, s1: Seq<u8>|
    sbind(u16_c(s1), |frame_count: u16, s2: Seq<u8>|
    sbind(u16_c(s2), |width: u16, s3: Seq<u8>|
    sbind(u16_c(s3), |height: u16, s4: Seq<u8>|
    sbind(u8_c(s4), |flags: u8, s5: Seq<u8>|
        match spec_video_deblocking((flags >> 1u8) & 7u8) {
            Some(deblocking) => sbind(spec_videoc_codec(s5), |codec, s6: Seq<u8>|
                Ok((
                    DefineVideoStream {
                        id,
                        frame_count: frame_count as usize,
                        width,
                        height,
                        use_smoothing: flags & 1u8 != 0,
                        deblocking,
                        codec,
                    },
                    s6,
                ))),
            None => Err(ParseError::Error),
        })))))
}

pub fn parse_define_video_stream(input: &[u8]) -> (r: PResult<DefineVideoStream>)
    ensures
        parsed_as(r, spec_define_video_stream(input@)),
{
    reveal(spec_define_video_stream);
    let (input, id) = parse_le_u16_c(input)?;
    let (input, frame_count) = parse_le_u16_c(input)?;
    let (input, width) = parse_le_u16_c(input)?;
    let (input, height) = parse_le_u16_c(input)?;
    let (input, flags) = parse_u8_c(input)?;
    let use_smoothing: bool = flags & 1u8 != 0;
    let deblocking = match video_deblocking_from_code((flags >> 1u8) & 7u8) {
        Ok(v) => v,
        Err(()) => return Err(ParseError::Error),
    };
    // Bits [4, 7] are reserved
    let (input, codec) = parse_videoc_codec(input)?;
    Ok((
        input,
        DefineVideoStream { id, frame_count: frame_count as usize, width, height, use_smoothing, deblocking, codec },
    ))
}

#[verifier::opaque]
pub open spec fn spec_video_frame(s: Seq<u8>) -> SpecResult<VideoFrameModel> {
    sbind(u16_c(s), |video_id: u16, s1: Seq<u8>|
    sbind(u16_c(s1), |frame: u16, s2: Seq<u8>|
        Ok((VideoFrameModel { video_id, frame, packet: s2 }, Seq::empty()))))
}

pub fn parse_video_frame(input: &[u8]) -> (r: PResult<VideoFrame>)
    ensures
        match (r, spec_video_frame(input@)) {
            (Ok((rest, v)), Ok((m, srest))) => rest@ == srest && v.video_id == m.video_id && v.frame == m.frame
                && v.packet@ == m.packet,
            (Err(e1), Err(e2)) => e1 == e2,
            _ => false,
        },
{
    reveal(spec_video_frame);
    let (input, video_id) = parse_le_u16_c(input)?;
    let (input, frame) = parse_le_u16_c(input)?;
    let (input, packet) = parse_bytes(input);
    assert(input@ =~= Seq::<u8>::empty());
    Ok((input, VideoFrame { video_id, frame, packet }))
}

#[verifier::opaque]
pub open spec fn spec_script_limits(s: Seq<u8>) -> SpecResult<ScriptLimits> {
    sbind(u16_c(s), |max_recursion_depth: u16, s1: Seq<u8>|
    sbind(u16_c(s1), |script_timeout: u16, s2: Seq<u8>|
        Ok((ScriptLimits { max_recursion_depth, script_timeout }, s2))))
}

pub fn parse_script_limits(input: &[u8]) -> (r: PResult<ScriptLimits>)
    ensures
        parsed_as(r, spec_script_limits(input@)),
{
    reveal(spec_script_limits);
    let (input, max_recursion_depth) = parse_le_u16_c(input)?;
    let (input, script_timeout) = parse_le_u16_c(input)?;
    Ok((input, ScriptLimits { max_recursion_depth, script_timeout }))
}

#[verifier::opaque]
pub open spec fn spec_set_tab_index(s: Seq<u8>) -> SpecResult<SetTabIndex> {
    sbind(u16_c(s), |depth: u16, s1: Seq<u8>|
    sbind(u16_c(s1), |index: u16, s2: Seq<u8>| Ok((SetTabIndex { depth, index }, s2))))
}

pub fn parse_set_tab_index(input: &[u8]) -> (r: PResult<SetTabIndex>)
    ensures
        parsed_as(r, spec_set_tab_index(input@)),
{
    reveal(spec_set_tab_index);
    let (input, depth) = parse_le_u16_c(input)?;
    let (input, index) = parse_le_u16_c(input)?;
    Ok((input, SetTabIndex { depth, index }))
}

#[verifier::opaque]
pub open spec fn spec_file_attributes(s: Seq<u8>) -> SpecResult<FileAttributes> {
    sbind(u32_c(s), |flags: u32, s1: Seq<u8>|
        Ok((
            FileAttributes {
                use_network: flags & 1u32 != 0,
                use_relative_urls: flags & 2u32 != 0,
                no_cross_domain_caching: flags & 4u32 != 0,
                use_as3: flags & 8u32 != 0,
                has_metadata: flags & 16u32 != 0,
                use_gpu: flags & 32u32 != 0,
                use_direct_blit: flags & 64u32 != 0,
            },
            s1,
        )))
}

pub fn parse_file_attributes_tag(input: &[u8]) -> (r: PResult<FileAttributes>)
    ensures
        parsed_as(r, spec_file_attributes(input@)),
{
    reveal(spec_file_attributes);
    let (input, flags) = parse_le_u32_c(input)?;
    Ok((
        input,
        FileAttributes {
            use_network: flags & 1u32 != 0,
            use_relative_urls: flags & 2u32 != 0,
            no_cross_domain_caching: flags & 4u32 != 0,
            use_as3: flags & 8u32 != 0,
            has_metadata: flags & 16u32 != 0,
            use_gpu: flags & 32u32 != 0,
            use_direct_blit: flags & 64u32 != 0,
        },
    ))
}

/// CSM text settings; the two floats are kept as their bit patterns.
#[verifier::opaque]
pub open spec fn spec_csm_text_settings(s: Seq<u8>) -> SpecResult<CsmTextSettings> {
    sbind(u16_c(s), |text_id: u16, s1: Seq<u8>|
    sbind(u8_c(s1), |flags: u8, s2: Seq<u8>|
        match (spec_grid_fitting((flags >> 3u8) & 7u8), spec_text_renderer((flags >> 6u8) & 3u8)) {
            (Some(fitting), Some(renderer)) =>
                sbind(u32_c(s2), |thickness: u32, s3: Seq<u8>|
                sbind(u32_c(s3), |sharpness: u32, s4: Seq<u8>|
                    Ok((CsmTextSettings { text_id, renderer, fitting, thickness, sharpness }, s4)))),
            _ => Err(ParseError::Error),
        }))
}

pub fn parse_csm_text_settings(input: &[u8]) -> (r: PResult<CsmTextSettings>)
    ensures
        parsed_as(r, spec_csm_text_settings(input@)),
{
    reveal(spec_csm_text_settings);
    let (input, text_id) = parse_le_u16_c(input)?;
    let (input, flags) = parse_u8_c(input)?;
    // Skip bits [0, 2]
    let fitting = match grid_fitting_from_code((flags >> 3u8) & 7u8) {
        Ok(v) => v,
        Err(()) => return Err(ParseError::Error),
    };
    let renderer = match text_renderer_from_code((flags >> 6u8) & 3u8) {
        Ok(v) => v,
        Err(()) => return Err(ParseError::Error),
    };
    let (input, thickness) = parse_le_u32_c(input)?;
    let (input, sharpness) = parse_le_u32_c(input)?;
    Ok((input, CsmTextSettings { text_id, renderer, fitting, thickness, sharpness }))
}

#[verifier::opaque]
pub open spec fn spec_define_scaling_grid(s: Seq<u8>) -> SpecResult<DefineScalingGrid> {
    sbind(u16_c(s), |character_id: u16, s1: Seq<u8>|
    sbind(spec_rect(s1), |splitter, s2: Seq<u8>| Ok((DefineScalingGrid { character_id, splitter }, s2))))
}

pub fn parse_define_scaling_grid(input: &[u8]) -> (r: PResult<DefineScalingGrid>)
    ensures
        parsed_as(r, spec_define_scaling_grid(input@)),
{
    reveal(spec_define_scaling_grid);
    let (input, character_id) = parse_le_u16_c(input)?;
    let (input, splitter) = parse_rect(input)?;
    Ok((input, DefineScalingGrid { character_id, splitter }))
}

#[verifier::opaque]
pub open spec fn spec_do_abc(s: Seq<u8>) -> SpecResult<DoAbcModel> {
    sbind(u32_c(s), |flags: u32, s1: Seq<u8>|
    sbind(spec_c_string(s1), |name: Seq<char>, s2: Seq<u8>|
        Ok((DoAbcModel { flags, name, data: s2 }, Seq::empty()))))
}

pub fn parse_do_abc(input: &[u8]) -> (r: PResult<DoAbc>)
    ensures
        match (r, spec_do_abc(input@)) {
            (Ok((rest, v)), Ok((m, srest))) => rest@ == srest && v.flags == m.flags && v.name@ == m.name
                && v.data@ == m.data,
            (Err(e1), Err(e2)) => e1 == e2,
            _ => false,
        },
{
    reveal(spec_do_abc);
    let (input, flags) = parse_le_u32_c(input)?;
    let (input, name) = parse_c_string(input)?;
    let (input, data) = parse_bytes(input);
    assert(input@ =~= Seq::<u8>::empty());
    Ok((input, DoAbc { flags, name, data }))
}

#[verifier::opaque]
pub open spec fn spec_define_scene_and_frame_label_data(s: Seq<u8>)
    -> SpecResult<DefineSceneAndFrameLabelDataModel>
{
    sbind(spec_leb128_u32(s), |scene_count: u32, s1: Seq<u8>|
    sbind(spec_scenes(s1, scene_count as nat), |scenes: Seq<SceneModel>, s2: Seq<u8>|
    sbind(spec_leb128_u32(s2), |label_count: u32, s3: Seq<u8>|
    sbind(spec_labels(s3, label_count as nat), |labels: Seq<LabelModel>, s4: Seq<u8>|
        Ok((DefineSceneAndFrameLabelDataModel { scenes, labels }, s4))))))
}

pub fn parse_define_scene_and_frame_label_data_tag(input: &[u8])
    -> (r: PResult<DefineSceneAndFrameLabelData>)
    ensures
        match (r, spec_define_scene_and_frame_label_data(input@)) {
            (Ok((rest, v)), Ok((m, srest))) => rest@ == srest && v.scenes.deep_view() == m.scenes
                && v.labels.deep_view() == m.labels,
            (Err(e1), Err(e2)) => e1 == e2,
            _ => false,
        },
{
    reveal(spec_define_scene_and_frame_label_data);
    let (input, scene_count) = parse_leb128_u32(input)?;
    let (input, scenes) = parse_scenes(input, scene_count as usize)?;
    let (input, label_count) = parse_leb128_u32(input)?;
    let (input, labels) = parse_labels(input, label_count as usize)?;
    Ok((input, DefineSceneAndFrameLabelData { scenes, labels }))
}

/// Binary data: id, a reserved `u32`, then the data.
#[verifier::opaque]
pub open spec fn spec_define_binary_data(s: Seq<u8>) -> SpecResult<DefineBinaryDataModel> {
    sbind(u16_c(s), |id: u16, s1: Seq<u8>|
    sbind(u32_c(s1), |_reserved: u32, s2: Seq<u8>|
        Ok((DefineBinaryDataModel { id, data: s2 }, Seq::empty()))))
}

pub fn parse_define_binary_data(input: &[u8]) -> (r: PResult<DefineBinaryData>)
    ensures
        match (r, spec_define_binary_data(input@)) {
            (Ok((rest, v)), Ok((m, srest))) => rest@ == srest && v.id == m.id && v.data@ == m.data,
            (Err(e1), Err(e2)) => e1 == e2,
            _ => false,
        },
{
    reveal(spec_define_binary_data);
    let (input, id) = parse_le_u16_c(input)?;
    let (input, _reserved) = parse_le_u32_c(input)?;
    let (input, data) = parse_bytes(input);
    assert(input@ =~= Seq::<u8>::empty());
    Ok((input, DefineBinaryData { id, data }))
}

#[verifier::opaque]
pub open spec fn spec_define_font_name(s: Seq<u8>) -> SpecResult<DefineFontNameModel> {
    sbind(u16_c(s), |font_id: u16, s1: Seq<u8>|
    sbind(spec_c_string(s1), |name: Seq<char>, s2: Seq<u8>|
    sbind(spec_c_string(s2), |copyright: Seq<char>, s3: Seq<u8>|
        Ok((DefineFontNameModel { font_id, name, copyright }, s3)))))
}

pub fn parse_define_font_name(input: &[u8]) -> (r: PResult<DefineFontName>)
    ensures
        match (r, spec_define_font_name(input@)) {
            (Ok((rest, v)), Ok((m, srest))) => rest@ == srest && v.font_id == m.font_id && v.name@ == m.name
                && v.copyright@ == m.copyright,
            (Err(e1), Err(e2)) => e1 == e2,
            _ => false,
        },
{
    reveal(spec_define_font_name);
    let (input, font_id) = parse_le_u16_c(input)?;
    let (input, name) = parse_c_string(input)?;
    let (input, copyright) = parse_c_string(input)?;
    Ok((input, DefineFontName { font_id, name, copyright }))
}

/// Telemetry: two reserved bytes, then a 32-byte password hash when at least 32 bytes are left.
#[verifier::opaque]
pub open spec fn spec_enable_telemetry(s: Seq<u8>) -> SpecResult<Option<Seq<u8>>> {
    sbind(spec_skip_c(s, 2), |_u: (), s1: Seq<u8>|
        if s1.len() >= 32 {
            Ok((Some(s1.take(32)), s1.skip(32)))
        } else {
            Ok((None, s1))
        })
}

pub fn parse_enable_telemetry(input: &[u8]) -> (r: PResult<Telemetry>)
    ensures
        match (r, spec_enable_telemetry(input@)) {
            (Ok((rest, v)), Ok((m, srest))) => rest@ == srest && match (v.password, m) {
                (Some(p), Some(sp)) => p@ == sp,
                (None, None) => true,
                _ => false,
            },
            (Err(e1), Err(e2)) => e1 == e2,
            _ => false,
        },
{
    reveal(spec_enable_telemetry);
    let (input, _) = skip_c(input, 2)?;
    if input.len() >= 32 {
        let password: Vec<u8> = vstd::slice::slice_to_vec(slice_subrange(input, 0, 32));
        Ok((slice_subrange(input, 32, input.len()), Telemetry { password: Some(password) }))
    } else {
        Ok((input, Telemetry { password: None }))
    }
}

// ---------------------------------------------------------------------------
// Bitmaps
// ---------------------------------------------------------------------------

/// The first `n` bytes, where a shorter input is an error.
pub open spec fn prefix_of(s: Seq<u8>, n: int) -> Option<Seq<u8>> {
    if 0 <= n <= s.len() { Some(s.take(n)) } else { None }
}

pub open spec fn dims_model(d: ImageDimensions) -> (u16, u16) {
    (d.width as u16, d.height as u16)
}

/// Define bits: JPEG data that uses the shared JPEG tables.
#[verifier::opaque]
pub open spec fn spec_define_bits(s: Seq<u8>, swf_version: u8) -> SpecResult<DefineBitmapModel> {
    sbind(u16_c(s), |id: u16, data: Seq<u8>|
        if sniffed_jpeg(data, swf_version < 8) {
            match spec_jpeg_dimensions(data) {
                Some(d) => Ok((
                    DefineBitmapModel {
                        id,
                        width: d.width as u16,
                        height: d.height as u16,
                        media_type: ImageType::PartialJpeg,
                        data,
                    },
                    Seq::empty(),
                )),
                None => Err(ParseError::Error),
            }
        } else {
            Err(ParseError::Error)
        })
}

pub open spec fn bitmap_ok(r: PResult<DefineBitmap>, spec: SpecResult<DefineBitmapModel>) -> bool {
    match (r, spec) {
        (Ok((rest, v)), Ok((m, srest))) => rest@ == srest && v.id == m.id && v.width == m.width
            && v.height == m.height && v.media_type == m.media_type && v.data@ == m.data,
        (Err(e1), Err(e2)) => e1 == e2,
        _ => false,
    }
}

fn empty_of(input: &[u8]) -> (r: &[u8])
    ensures
        r@ == Seq::<u8>::empty(),
{
    let e: &[u8] = slice_subrange(input, 0, 0);
    assert(e@ =~= Seq::<u8>::empty());
    e
}

pub fn parse_define_bits(input: &[u8], swf_version: u8) -> (r: PResult<DefineBitmap>)
    ensures
        bitmap_ok(r, spec_define_bits(input@, swf_version)),
{
    reveal(spec_define_bits);
    let (input, id) = parse_le_u16_c(input)?;
    if is_sniffed_jpeg(input, swf_version < 8) {
        match get_jpeg_image_dimensions(input) {
            Ok(d) => Ok((
                empty_of(input),
                DefineBitmap {
                    id,
                    width: d.width as u16,
                    height: d.height as u16,
                    media_type: ImageType::PartialJpeg,
                    data: vstd::slice::slice_to_vec(input),
                },
            )),
            Err(()) => Err(ParseError::Error),
        }
    } else {
        Err(ParseError::Error)
    }
}

/// Media type and dimensions of an embedded image: JPEG (erroneous header allowed when
/// `allow_erroneous`), PNG or GIF.
pub open spec fn spec_image_kind(data: Seq<u8>, allow_erroneous: bool, jpeg_type: ImageType)
    -> Option<(ImageType, ImageDimensions)>
{
    if sniffed_jpeg(data, allow_erroneous) {
        match spec_jpeg_dimensions(data) {
            Some(d) => Some((jpeg_type, d)),
            None => None,
        }
    } else if starts_with(data, png_start()) {
        match spec_png_dimensions(data) {
            Some(d) => Some((ImageType::Png, d)),
            None => None,
        }
    } else if starts_with(data, gif_start()) {
        match spec_gif_dimensions(data) {
            Some(d) => Some((ImageType::Gif, d)),
            None => None,
        }
    } else {
        None
    }
}

fn image_kind(data: &[u8], allow_erroneous: bool, jpeg_type: ImageType)
    -> (r: Option<(ImageType, ImageDimensions)>)
    ensures
        r == spec_image_kind(data@, allow_erroneous, jpeg_type),
{
    if is_sniffed_jpeg(data, allow_erroneous) {
        match get_jpeg_image_dimensions(data) {
            Ok(d) => Some((jpeg_type, d)),
            Err(()) => None,
        }
    } else if is_sniffed_png(data) {
        match get_png_image_dimensions(data) {
            Ok(d) => Some((ImageType::Png, d)),
            Err(()) => None,
        }
    } else if is_sniffed_gif(data) {
        match get_gif_image_dimensions(data) {
            Ok(d) => Some((ImageType::Gif, d)),
            Err(()) => None,
        }
    } else {
        None
    }
}

/// Define bits JPEG 2: a JPEG (erroneous header allowed before SWF 8), PNG or GIF image.
#[verifier::opaque]
pub open spec fn spec_define_bits_jpeg2(s: Seq<u8>, swf_version: u8) -> SpecResult<DefineBitmapModel> {
    sbind(u16_c(s), |id: u16, data: Seq<u8>|
        match spec_image_kind(data, swf_version < 8, ImageType::Jpeg) {
            Some((media_type, d)) => Ok((
                DefineBitmapModel { id, width: d.width as u16, height: d.height as u16, media_type, data },
                Seq::empty(),
            )),
            None => Err(ParseError::Error),
        })
}

pub fn parse_define_bits_jpeg2(input: &[u8], swf_version: u8) -> (r: PResult<DefineBitmap>)
    ensures
        bitmap_ok(r, spec_define_bits_jpeg2(input@, swf_version)),
{
    reveal(spec_define_bits_jpeg2);
    let (input, id) = parse_le_u16_c(input)?;
    match image_kind(input, swf_version < 8, ImageType::Jpeg) {
        Some((media_type, d)) => Ok((
            empty_of(input),
            DefineBitmap {
                id,
                width: d.width as u16,
                height: d.height as u16,
                media_type,
                data: vstd::slice::slice_to_vec(input),
            },
        )),
        None => Err(ParseError::Error),
    }
}

/// Define bits JPEG 3: a length-prefixed image; JPEG data followed by an alpha channel is
/// kept whole (after the id) as `Ajpeg`.
#[verifier::opaque]
pub open spec fn spec_define_bits_jpeg3(s: Seq<u8>, swf_version: u8) -> SpecResult<DefineBitmapModel> {
    sbind(u16_c(s), |id: u16, ajpeg_data: Seq<u8>|
    sbind(u32_c(ajpeg_data), |data_len: u32, s2: Seq<u8>|
        match prefix_of(s2, data_len as int) {
            None => Err(ParseError::Error),
            Some(data) => match spec_image_kind(data, swf_version < 8, ImageType::Jpeg) {
                Some((media_type, d)) => {
                    let is_ajpeg = media_type == ImageType::Jpeg && s2.len() > data_len;
                    Ok((
                        DefineBitmapModel {
                            id,
                            width: d.width as u16,
                            height: d.height as u16,
                            media_type: if is_ajpeg { ImageType::Ajpeg } else { media_type },
                            data: if is_ajpeg { ajpeg_data } else { data },
                        },
                        Seq::empty(),
                    ))
                },
                None => Err(ParseError::Error),
            },
        }))
}

pub fn parse_define_bits_jpeg3(input: &[u8], swf_version: u8) -> (r: PResult<DefineBitmap>)
    ensures
        bitmap_ok(r, spec_define_bits_jpeg3(input@, swf_version)),
{
    reveal(spec_define_bits_jpeg3);
    let (ajpeg_data, id) = parse_le_u16_c(input)?;
    let (input, data_len) = parse_le_u32_c(ajpeg_data)?;
    let data_len: usize = data_len as usize;
    if data_len > input.len() {
        return Err(ParseError::Error);
    }
    let data: &[u8] = slice_subrange(input, 0, data_len);
    match image_kind(data, swf_version < 8, ImageType::Jpeg) {
        Some((media_type, d)) => {
            let is_jpeg: bool = match media_type {
                ImageType::Jpeg => true,
                _ => false,
            };
            let is_ajpeg: bool = is_jpeg && input.len() > data_len;
            Ok((
                empty_of(input),
                DefineBitmap {
                    id,
                    width: d.width as u16,
                    height: d.height as u16,
                    media_type: if is_ajpeg { ImageType::Ajpeg } else { media_type },
                    data: if is_ajpeg {
                        vstd::slice::slice_to_vec(ajpeg_data)
                    } else {
                        vstd::slice::slice_to_vec(data)
                    },
                },
            ))
        },
        None => Err(ParseError::Error),
    }
}

/// Define bits JPEG 4: as JPEG 3 with a 2-byte deblocking parameter; JPEG data is kept
/// whole (after the id) as `Ajpegd`.
#[verifier::opaque]
pub open spec fn spec_define_bits_jpeg4(s: Seq<u8>) -> SpecResult<DefineBitmapModel> {
    sbind(u16_c(s), |id: u16, djpeg_data: Seq<u8>|
    sbind(u32_c(djpeg_data), |data_len: u32, s2: Seq<u8>|
    sbind(spec_skip_c(s2, 2), |_u: (), s3: Seq<u8>|
        match prefix_of(s3, data_len as int) {
            None => Err(ParseError::Error),
            Some(data) => match spec_image_kind(data, false, ImageType::Ajpegd) {
                Some((media_type, d)) => Ok((
                    DefineBitmapModel {
                        id,
                        width: d.width as u16,
                        height: d.height as u16,
                        media_type,
                        data: if media_type == ImageType::Ajpegd { djpeg_data } else { data },
                    },
                    Seq::empty(),
                )),
                None => Err(ParseError::Error),
            },
        })))
}

pub fn parse_define_bits_jpeg4(input: &[u8]) -> (r: PResult<DefineBitmap>)
    ensures
        bitmap_ok(r, spec_define_bits_jpeg4(input@)),
{
    reveal(spec_define_bits_jpeg4);
    let (djpeg_data, id) = parse_le_u16_c(input)?;
    let (input, data_len) = parse_le_u32_c(djpeg_data)?;
    let (input, _) = skip_c(input, 2)?;
    let data_len: usize = data_len as usize;
    if data_len > input.len() {
        return Err(ParseError::Error);
    }
    let data: &[u8] = slice_subrange(input, 0, data_len);
    match image_kind(data, false, ImageType::Ajpegd) {
        Some((media_type, d)) => {
            let is_ajpegd: bool = match media_type {
                ImageType::Ajpegd => true,
                _ => false,
            };
            Ok((
                empty_of(input),
                DefineBitmap {
                    id,
                    width: d.width as u16,
                    height: d.height as u16,
                    media_type,
                    data: if is_ajpegd {
                        vstd::slice::slice_to_vec(djpeg_data)
                    } else {
                        vstd::slice::slice_to_vec(data)
                    },
                },
            ))
        },
        None => Err(ParseError::Error),
    }
}

/// Lossless bitmap: id, then the data, which starts with a format byte, the width and
/// the height.
#[verifier::opaque]
pub open spec fn spec_define_bits_lossless_any(s: Seq<u8>, media_type: ImageType)
    -> SpecResult<DefineBitmapModel>
{
    sbind(u16_c(s), |id: u16, data: Seq<u8>|
    sbind(spec_skip_c(data, 1), |_u: (), s2: Seq<u8>|
    sbind(u16_c(s2), |width: u16, s3: Seq<u8>|
    sbind(u16_c(s3), |height: u16, _s4: Seq<u8>|
        Ok((DefineBitmapModel { id, width, height, media_type, data }, Seq::empty()))))))
}

pub fn parse_define_bits_lossless_any(input: &[u8], media_type: ImageType) -> (r: PResult<DefineBitmap>)
    ensures
        bitmap_ok(r, spec_define_bits_lossless_any(input@, media_type)),
{
    reveal(spec_define_bits_lossless_any);
    let (input, id) = parse_le_u16_c(input)?;
    let data: Vec<u8> = vstd::slice::slice_to_vec(input);
    let (rest, _) = skip_c(input, 1)?;
    let (rest, width) = parse_le_u16_c(rest)?;
    let (_, height) = parse_le_u16_c(rest)?;
    Ok((empty_of(input), DefineBitmap { id, width, height, media_type, data }))
}

pub fn parse_define_bits_lossless(input: &[u8]) -> (r: PResult<DefineBitmap>)
    ensures
        bitmap_ok(r, spec_define_bits_lossless_any(input@, ImageType::SwfBmp)),
{
    parse_define_bits_lossless_any(input, ImageType::SwfBmp)
}

pub fn parse_define_bits_lossless2(input: &[u8]) -> (r: PResult<DefineBitmap>)
    ensures
        bitmap_ok(r, spec_define_bits_lossless_any(input@, ImageType::SwfAbmp)),
{
    parse_define_bits_lossless_any(input, ImageType::SwfAbmp)
}

// ---------------------------------------------------------------------------
// Dynamic text
// ---------------------------------------------------------------------------

/// Optional text layout: alignment, left and right margins, indent and leading.
pub open spec fn spec_text_layout(s: Seq<u8>, has_layout: bool)
    -> SpecResult<(TextAlignment, u16, u16, u16, i16)>
{
    if !has_layout {
        Ok(((TextAlignment::Left, 0u16, 0u16, 0u16, 0i16), s))
    } else {
        sbind(spec_text_alignment(s), |align: TextAlignment, s1: Seq<u8>|
        sbind(u16_c(s1), |margin_left: u16, s2: Seq<u8>|
        sbind(u16_c(s2), |margin_right: u16, s3: Seq<u8>|
        sbind(u16_c(s3), |indent: u16, s4: Seq<u8>|
        sbind(spec_complete(spec_le_i16(s4)), |leading: i16, s5: Seq<u8>|
            Ok(((align, margin_left, margin_right, indent, leading), s5)))))))
    }
}

fn parse_text_layout(input: &[u8], has_layout: bool) -> (r: PResult<(TextAlignment, u16, u16, u16, i16)>)
    ensures
        parsed_as(r, spec_text_layout(input@, has_layout)),
{
    if !has_layout {
        return Ok((input, (TextAlignment::Left, 0, 0, 0, 0)));
    }
    let (input, align) = parse_text_alignment(input)?;
    let (input, margin_left) = parse_le_u16_c(input)?;
    let (input, margin_right) = parse_le_u16_c(input)?;
    let (input, indent) = parse_le_u16_c(input)?;
    let (input, leading) = parse_le_i16_c(input)?;
    Ok((input, (align, margin_left, margin_right, indent, leading)))
}

/// Font and color fields of a dynamic text, each present when its flag is set:
/// font id, font class, font size, color, maximum length.
pub open spec fn spec_edit_text_fields(s: Seq<u8>, flags: u16)
    -> SpecResult<(Option<u16>, Option<Seq<char>>, Option<u16>, Option<StraightSRgba8>, Option<u16>)>
{
    sbind(sopt(flags & 1u16 != 0, s, u16_c(s)), |font_id: Option<u16>, s4: Seq<u8>|
    sbind(sopt(flags & 32768u16 != 0, s4, spec_c_string(s4)), |font_class: Option<Seq<char>>, s5: Seq<u8>|
    sbind(sopt(flags & 1u16 != 0, s5, u16_c(s5)), |font_size: Option<u16>, s6: Seq<u8>|
    sbind(sopt(flags & 4u16 != 0, s6, spec_straight_s_rgba8(s6)), |color: Option<StraightSRgba8>, s7: Seq<u8>|
    sbind(sopt(flags & 2u16 != 0, s7, u16_c(s7)), |max_length: Option<u16>, s8: Seq<u8>|
        Ok(((font_id, font_class, font_size, color, max_length), s8)))))))
}

/// Fields of a dynamic text after the font fields: layout, variable name and initial text.
pub open spec fn spec_edit_text_tail(s: Seq<u8>, flags: u16)
    -> SpecResult<((TextAlignment, u16, u16, u16, i16), Seq<char>, Option<Seq<char>>)>
{
    sbind(spec_text_layout(s, flags & 8192u16 != 0), |layout: (TextAlignment, u16, u16, u16, i16), s9: Seq<u8>|
    sbind(spec_c_string(s9), |variable_name: Seq<char>, s10: Seq<u8>|
    sbind(sopt(flags & 128u16 != 0, s10, spec_c_string(s10)), |text: Option<Seq<char>>, s11: Seq<u8>|
        Ok(((layout, variable_name, text), s11)))))
}

/// The model of a dynamic text from its parts; an empty variable name means no variable.
pub open spec fn edit_text_model(
    id: u16,
    bounds: crate::ast::Rect,
    flags: u16,
    f: (Option<u16>, Option<Seq<char>>, Option<u16>, Option<StraightSRgba8>, Option<u16>),
    t: ((TextAlignment, u16, u16, u16, i16), Seq<char>, Option<Seq<char>>),
) -> DefineDynamicTextModel {
    DefineDynamicTextModel {
        id,
        bounds,
        word_wrap: flags & 64u16 != 0,
        multiline: flags & 32u16 != 0,
        password: flags & 16u16 != 0,
        readonly: flags & 8u16 != 0,
        auto_size: flags & 16384u16 != 0,
        no_select: flags & 4096u16 != 0,
        border: flags & 2048u16 != 0,
        was_static: flags & 1024u16 != 0,
        html: flags & 512u16 != 0,
        use_glyph_font: flags & 256u16 != 0,
        font_id: f.0,
        font_class: f.1,
        font_size: f.2,
        color: f.3,
        max_length: match f.4 {
            Some(m) => Some(m as usize),
            None => None,
        },
        align: t.0.0,
        margin_left: t.0.1,
        margin_right: t.0.2,
        indent: t.0.3,
        leading: t.0.4,
        variable_name: if t.1.len() == 0 { None } else { Some(t.1) },
        text: t.2,
    }
}

#[verifier::opaque]
pub open spec fn spec_define_edit_text(s: Seq<u8>) -> SpecResult<DefineDynamicTextModel> {
    sbind(u16_c(s), |id: u16, s1: Seq<u8>|
    sbind(spec_rect(s1), |bounds, s2: Seq<u8>|
    sbind(u16_c(s2), |flags: u16, s3: Seq<u8>|
    sbind(spec_edit_text_fields(s3, flags),
        |f: (Option<u16>, Option<Seq<char>>, Option<u16>, Option<StraightSRgba8>, Option<u16>), s8: Seq<u8>|
    sbind(spec_edit_text_tail(s8, flags),
        |t: ((TextAlignment, u16, u16, u16, i16), Seq<char>, Option<Seq<char>>), s11: Seq<u8>|
        Ok((edit_text_model(id, bounds, flags, f, t), s11)))))))
}

fn opt_string_c(input: &[u8], present: bool) -> (r: PResult<Option<String>>)
    ensures
        match (r, sopt(present, input@, spec_c_string(input@))) {
            (Ok((rest, v)), Ok((m, srest))) => rest@ == srest && crate::ast_tags::string_model(v) == m,
            (Err(e1), Err(e2)) => e1 == e2,
            _ => false,
        },
{
    if present {
        let (input, v) = parse_c_string(input)?;
        Ok((input, Some(v)))
    } else {
        Ok((input, None))
    }
}

fn opt_u16_c(input: &[u8], present: bool) -> (r: PResult<Option<u16>>)
    ensures
        match (r, sopt(present, input@, u16_c(input@))) {
            (Ok((rest, v)), Ok((m, srest))) => rest@ == srest && v == m,
            (Err(e1), Err(e2)) => e1 == e2,
            _ => false,
        },
{
    if present {
        let (input, v) = parse_le_u16_c(input)?;
        Ok((input, Some(v)))
    } else {
        Ok((input, None))
    }
}

fn parse_edit_text_fields(input: &[u8], flags: u16)
    -> (r: PResult<(Option<u16>, Option<String>, Option<u16>, Option<StraightSRgba8>, Option<u16>)>)
    ensures
        match (r, spec_edit_text_fields(input@, flags)) {
            (Ok((rest, v)), Ok((m, srest))) => rest@ == srest && v.0 == m.0
                && crate::ast_tags::string_model(v.1) == m.1 && v.2 == m.2 && v.3 == m.3 && v.4 == m.4,
            (Err(e1), Err(e2)) => e1 == e2,
            _ => false,
        },
{
    let (input, font_id) = opt_u16_c(input, flags & 1u16 != 0)?;
    let (input, font_class) = opt_string_c(input, flags & 32768u16 != 0)?;
    let (input, font_size) = opt_u16_c(input, flags & 1u16 != 0)?;
    let (input, color) = if flags & 4u16 != 0 {
        let (input, c) = parse_straight_s_rgba8(input)?;
        (input, Some(c))
    } else {
        (input, None)
    };
    let (input, max_length) = opt_u16_c(input, flags & 2u16 != 0)?;
    Ok((input, (font_id, font_class, font_size, color, max_length)))
}

fn parse_edit_text_tail(input: &[u8], flags: u16)
    -> (r: PResult<((TextAlignment, u16, u16, u16, i16), String, Option<String>)>)
    ensures
        match (r, spec_edit_text_tail(input@, flags)) {
            (Ok((rest, v)), Ok((m, srest))) => rest@ == srest && v.0 == m.0 && v.1@ == m.1
                && crate::ast_tags::string_model(v.2) == m.2,
            (Err(e1), Err(e2)) => e1 == e2,
            _ => false,
        },
{
    let (input, layout) = parse_text_layout(input, flags & 8192u16 != 0)?;
    let (input, variable_name) = parse_c_string(input)?;
    let (input, text) = opt_string_c(input, flags & 128u16 != 0)?;
    Ok((input, (layout, variable_name, text)))
}

fn build_edit_text(
    id: u16,
    bounds: crate::ast::Rect,
    flags: u16,
    f: (Option<u16>, Option<String>, Option<u16>, Option<StraightSRgba8>, Option<u16>),
    t: ((TextAlignment, u16, u16, u16, i16), String, Option<String>),
) -> (r: DefineDynamicText)
    ensures
        crate::ast_tags::dynamic_text_model(r) == edit_text_model(
            id,
            bounds,
            flags,
            (f.0, crate::ast_tags::string_model(f.1), f.2, f.3, f.4),
            (t.0, t.1@, crate::ast_tags::string_model(t.2)),
        ),
{
    let (font_id, font_class, font_size, color, max_length) = f;
    let (layout, variable_name, text) = t;
    let (align, margin_left, margin_right, indent, leading) = layout;
    let variable_name: Option<String> = if variable_name.as_str().is_empty() { None } else { Some(variable_name) };
    DefineDynamicText {
        id,
        bounds,
        word_wrap: flags & 64u16 != 0,
        multiline: flags & 32u16 != 0,
        password: flags & 16u16 != 0,
        readonly: flags & 8u16 != 0,
        auto_size: flags & 16384u16 != 0,
        no_select: flags & 4096u16 != 0,
        border: flags & 2048u16 != 0,
        was_static: flags & 1024u16 != 0,
        html: flags & 512u16 != 0,
        use_glyph_font: flags & 256u16 != 0,
        font_id,
        font_class,
        font_size,
        color,
        max_length: match max_length {
            Some(m) => Some(m as usize),
            None => None,
        },
        align,
        margin_left,
        margin_right,
        indent,
        leading,
        variable_name,
        text,
    }
}

pub fn parse_define_edit_text(input: &[u8]) -> (r: PResult<DefineDynamicText>)
    ensures
        match (r, spec_define_edit_text(input@)) {
            (Ok((rest, v)), Ok((m, srest))) => rest@ == srest && m == crate::ast_tags::dynamic_text_model(v),
            (Err(e1), Err(e2)) => e1 == e2,
            _ => false,
        },
{
    reveal(spec_define_edit_text);
    let (input, id) = parse_le_u16_c(input)?;
    let (input, bounds) = parse_rect(input)?;
    let (input, flags) = parse_le_u16_c(input)?;
    let (input, fields) = parse_edit_text_fields(input, flags)?;
    let (input, tail) = parse_edit_text_tail(input, flags)?;
    Ok((input, build_edit_text(id, bounds, flags, fields, tail)))
}

} // verus!

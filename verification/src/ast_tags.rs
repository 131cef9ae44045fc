//! Tags of an SWF movie, and their models.
use vstd::prelude::*;
use crate::ast::{ColorTransform, Header, NamedId, NamedIdModel, Rect, SRgb8};
use crate::shape_tags::{DefineShape, DefineShapeModel};
use crate::display::{PlaceObject, PlaceObjectModel};
use crate::button::{DefineButton, DefineButtonModel};
use crate::morph_shape::{DefineMorphShape, DefineMorphShapeModel};
use crate::text_tags::{
    DefineCffFont, DefineCffFontModel, DefineFont, DefineFontAlignZones, DefineFontAlignZonesModel,
    DefineFontInfo, DefineFontInfoModel, DefineFontModel, DefineGlyphFont, DefineGlyphFontModel,
    DefineText, DefineTextModel,
};

verus! {

#[derive(Clone, Copy, Debug, PartialEq, Eq, Structural)]
pub enum SoundType {
    Mono,
    Stereo,
}

#[derive(Clone, Copy, Debug, PartialEq, Eq, Structural)]
pub enum SoundSize {
    SoundSize8,
    SoundSize16,
}

#[derive(Clone, Copy, Debug, PartialEq, Eq, Structural)]
pub enum SoundRate {
    SoundRate5500,
    SoundRate11000,
    SoundRate22000,
    SoundRate44000,
}

#[derive(Clone, Copy, Debug, PartialEq, Eq, Structural)]
pub enum AudioCodingFormat {
    UncompressedNativeEndian,
    Adpcm,
    Mp3,
    UncompressedLittleEndian,
    Nellymoser16,
    Nellymoser8,
    Nellymoser,
    Speex,
}

#[derive(Clone, Copy, Debug, PartialEq, Eq, Structural)]
pub struct SoundEnvelope {
    pub pos44: u32,
    pub left_level: u16,
    pub right_level: u16,
}

#[derive(Clone, Debug, PartialEq, Eq)]
pub struct SoundInfo {
    pub sync_stop: bool,
    pub sync_no_multiple: bool,
    pub in_point: Option<u32>,
    pub out_point: Option<u32>,
    pub loop_count: Option<u16>,
    pub envelope_records: Option<Vec<SoundEnvelope>>,
}

pub struct SoundInfoModel {
    pub sync_stop: bool,
    pub sync_no_multiple: bool,
    pub in_point: Option<u32>,
    pub out_point: Option<u32>,
    pub loop_count: Option<u16>,
    pub envelope_records: Option<Seq<SoundEnvelope>>,
}

#[derive(Clone, Debug, PartialEq, Eq)]
pub struct ButtonSound {
    pub sound_id: u16,
    pub sound_info: SoundInfo,
}

pub struct ButtonSoundModel {
    pub sound_id: u16,
    pub sound_info: SoundInfoModel,
}

#[derive(Clone, Copy, Debug, PartialEq, Eq, Structural)]
pub enum VideoDeblocking {
    PacketValue,
    Off,
    Level1,
    Level2,
    Level3,
    Level4,
}

#[derive(Clone, Copy, Debug, PartialEq, Eq, Structural)]
pub enum VideoCodec {
    NoCodec,
    Jpeg,
    Sorenson,
    Screen,
    Vp6,
    Vp6Alpha,
    Screen2,
    Avc,
}

#[derive(Clone, Copy, Debug, PartialEq, Eq, Structural)]
pub enum ImageType {
    SwfBmp,
    SwfAbmp,
    Jpeg,
    PartialJpeg,
    Ajpeg,
    Ajpegd,
    Png,
    Gif,
}

#[derive(Clone, Copy, Debug, PartialEq, Eq, Structural)]
pub enum TextAlignment {
    Left,
    Right,
    Center,
    Justify,
}

#[derive(Clone, Copy, Debug, PartialEq, Eq, Structural)]
pub enum GridFitting {
    NoGridFitting,
    Pixel,
    SubPixel,
}

#[derive(Clone, Copy, Debug, PartialEq, Eq, Structural)]
pub enum TextRenderer {
    Normal,
    Advanced,
}

// ---------------------------------------------------------------------------
// Tags
// ---------------------------------------------------------------------------

/// A tag that could not be parsed: the bytes of the whole tag (header and body).
#[derive(Clone, Debug, PartialEq, Eq)]
pub struct Raw {
    pub data: Vec<u8>,
}

#[derive(Clone, Copy, Debug, PartialEq, Eq, Structural)]
pub struct RemoveObject {
    pub character_id: Option<u16>,
    pub depth: u16,
}

#[derive(Clone, Debug, PartialEq, Eq)]
pub struct DefineJpegTables {
    pub data: Vec<u8>,
}

#[derive(Clone, Copy, Debug, PartialEq, Eq, Structural)]
pub struct SetBackgroundColor {
    pub color: SRgb8,
}

#[derive(Clone, Debug, PartialEq, Eq)]
pub struct DoAction {
    pub actions: Vec<u8>,
}

#[derive(Clone, Debug, PartialEq, Eq)]
pub struct DefineSound {
    pub id: u16,
    pub sound_type: SoundType,
    pub sound_size: SoundSize,
    pub sound_rate: SoundRate,
    pub format: AudioCodingFormat,
    pub sample_count: u32,
    pub data: Vec<u8>,
}

pub struct DefineSoundModel {
    pub id: u16,
    pub sound_type: SoundType,
    pub sound_size: SoundSize,
    pub sound_rate: SoundRate,
    pub format: AudioCodingFormat,
    pub sample_count: u32,
    pub data: Seq<u8>,
}

#[derive(Clone, Debug, PartialEq, Eq)]
pub struct StartSound {
    pub sound_id: u16,
    pub sound_info: SoundInfo,
}

pub struct StartSoundModel {
    pub sound_id: u16,
    pub sound_info: SoundInfoModel,
}

#[derive(Clone, Debug, PartialEq, Eq)]
pub struct DefineButtonSound {
    pub button_id: u16,
    pub over_up_to_idle: Option<ButtonSound>,
    pub idle_to_over_up: Option<ButtonSound>,
    pub over_up_to_over_down: Option<ButtonSound>,
    pub over_down_to_over_up: Option<ButtonSound>,
}

pub struct DefineButtonSoundModel {
    pub button_id: u16,
    pub over_up_to_idle: Option<ButtonSoundModel>,
    pub idle_to_over_up: Option<ButtonSoundModel>,
    pub over_up_to_over_down: Option<ButtonSoundModel>,
    pub over_down_to_over_up: Option<ButtonSoundModel>,
}

#[derive(Clone, Copy, Debug, PartialEq, Eq, Structural)]
pub struct SoundStreamHead {
    pub playback_sound_type: SoundType,
    pub playback_sound_size: SoundSize,
    pub playback_sound_rate: SoundRate,
    pub stream_sound_type: SoundType,
    pub stream_sound_size: SoundSize,
    pub stream_sound_rate: SoundRate,
    pub stream_format: AudioCodingFormat,
    pub stream_sample_count: u16,
    pub latency_seek: Option<i16>,
}

#[derive(Clone, Debug, PartialEq, Eq)]
pub struct SoundStreamBlock {
    pub data: Vec<u8>,
}

#[derive(Clone, Debug, PartialEq, Eq)]
pub struct DefineBitmap {
    pub id: u16,
    pub width: u16,
    pub height: u16,
    pub media_type: ImageType,
    pub data: Vec<u8>,
}

pub struct DefineBitmapModel {
    pub id: u16,
    pub width: u16,
    pub height: u16,
    pub media_type: ImageType,
    pub data: Seq<u8>,
}

#[derive(Clone, Copy, Debug, PartialEq, Eq, Structural)]
pub struct DefineButtonColorTransform {
    pub button_id: u16,
    pub transform: ColorTransform,
}

#[derive(Clone, Debug, PartialEq, Eq)]
pub struct Protect {
    pub password: String,
}

#[derive(Clone, Debug, PartialEq, Eq)]
pub struct DefineDynamicText {
    pub id: u16,
    pub bounds: Rect,
    pub word_wrap: bool,
    pub multiline: bool,
    pub password: bool,
    pub readonly: bool,
    pub auto_size: bool,
    pub no_select: bool,
    pub border: bool,
    pub was_static: bool,
    pub html: bool,
    pub use_glyph_font: bool,
    pub font_id: Option<u16>,
    pub font_class: Option<String>,
    pub font_size: Option<u16>,
    pub color: Option<crate::ast::StraightSRgba8>,
    pub max_length: Option<usize>,
    pub align: TextAlignment,
    pub margin_left: u16,
    pub margin_right: u16,
    pub indent: u16,
    pub leading: i16,
    pub variable_name: Option<String>,
    pub text: Option<String>,
}

pub struct DefineDynamicTextModel {
    pub id: u16,
    pub bounds: Rect,
    pub word_wrap: bool,
    pub multiline: bool,
    pub password: bool,
    pub readonly: bool,
    pub auto_size: bool,
    pub no_select: bool,
    pub border: bool,
    pub was_static: bool,
    pub html: bool,
    pub use_glyph_font: bool,
    pub font_id: Option<u16>,
    pub font_class: Option<Seq<char>>,
    pub font_size: Option<u16>,
    pub color: Option<crate::ast::StraightSRgba8>,
    pub max_length: Option<usize>,
    pub align: TextAlignment,
    pub margin_left: u16,
    pub margin_right: u16,
    pub indent: u16,
    pub leading: i16,
    pub variable_name: Option<Seq<char>>,
    pub text: Option<Seq<char>>,
}

#[derive(Debug, PartialEq, Eq)]
pub struct DefineSprite {
    pub id: u16,
    pub frame_count: usize,
    pub tags: Vec<Tag>,
}

pub struct DefineSpriteModel {
    pub id: u16,
    pub frame_count: usize,
    pub tags: Seq<TagModel>,
}

#[derive(Clone, Debug, PartialEq, Eq)]
pub struct FrameLabel {
    pub name: String,
    pub is_anchor: bool,
}

pub struct FrameLabelModel {
    pub name: Seq<char>,
    pub is_anchor: bool,
}

#[derive(Clone, Debug, PartialEq, Eq)]
pub struct ExportAssets {
    pub assets: Vec<NamedId>,
}

#[derive(Clone, Debug, PartialEq, Eq)]
pub struct ImportAssets {
    pub url: String,
    pub assets: Vec<NamedId>,
}

pub struct ImportAssetsModel {
    pub url: Seq<char>,
    pub assets: Seq<NamedIdModel>,
}

#[derive(Clone, Debug, PartialEq, Eq)]
pub struct EnableDebugger {
    pub password: String,
}

#[derive(Clone, Debug, PartialEq, Eq)]
pub struct DoInitAction {
    pub sprite_id: u16,
    pub actions: Vec<u8>,
}

pub struct DoInitActionModel {
    pub sprite_id: u16,
    pub actions: Seq<u8>,
}

#[derive(Clone, Copy, Debug, PartialEq, Eq, Structural)]
pub struct DefineVideoStream {
    pub id: u16,
    pub frame_count: usize,
    pub width: u16,
    pub height: u16,
    pub use_smoothing: bool,
    pub deblocking: VideoDeblocking,
    pub codec: VideoCodec,
}

#[derive(Clone, Debug, PartialEq, Eq)]
pub struct VideoFrame {
    pub video_id: u16,
    pub frame: u16,
    pub packet: Vec<u8>,
}

pub struct VideoFrameModel {
    pub video_id: u16,
    pub frame: u16,
    pub packet: Seq<u8>,
}

#[derive(Clone, Copy, Debug, PartialEq, Eq, Structural)]
pub struct ScriptLimits {
    pub max_recursion_depth: u16,
    pub script_timeout: u16,
}

#[derive(Clone, Copy, Debug, PartialEq, Eq, Structural)]
pub struct SetTabIndex {
    pub depth: u16,
    pub index: u16,
}

#[derive(Clone, Copy, Debug, PartialEq, Eq, Structural)]
pub struct FileAttributes {
    pub use_network: bool,
    pub use_relative_urls: bool,
    pub no_cross_domain_caching: bool,
    pub use_as3: bool,
    pub has_metadata: bool,
    pub use_gpu: bool,
    pub use_direct_blit: bool,
}

/// CSM text settings; `thickness` and `sharpness` are the bit patterns of 32-bit floats.
#[derive(Clone, Copy, Debug, PartialEq, Eq, Structural)]
pub struct CsmTextSettings {
    pub text_id: u16,
    pub renderer: TextRenderer,
    pub fitting: GridFitting,
    pub thickness: u32,
    pub sharpness: u32,
}

#[derive(Clone, Debug, PartialEq, Eq)]
pub struct SymbolClass {
    pub symbols: Vec<NamedId>,
}

#[derive(Clone, Debug, PartialEq, Eq)]
pub struct Metadata {
    pub metadata: String,
}

#[derive(Clone, Copy, Debug, PartialEq, Eq, Structural)]
pub struct DefineScalingGrid {
    pub character_id: u16,
    pub splitter: Rect,
}

#[derive(Clone, Debug, PartialEq, Eq)]
pub struct DoAbc {
    pub flags: u32,
    pub name: String,
    pub data: Vec<u8>,
}

pub struct DoAbcModel {
    pub flags: u32,
    pub name: Seq<char>,
    pub data: Seq<u8>,
}

#[derive(Clone, Debug, PartialEq, Eq)]
pub struct Scene {
    pub offset: u32,
    pub name: String,
}

pub struct SceneModel {
    pub offset: u32,
    pub name: Seq<char>,
}

#[derive(Clone, Debug, PartialEq, Eq)]
pub struct Label {
    pub frame: u32,
    pub name: String,
}

pub struct LabelModel {
    pub frame: u32,
    pub name: Seq<char>,
}

#[derive(Clone, Debug, PartialEq, Eq)]
pub struct DefineSceneAndFrameLabelData {
    pub scenes: Vec<Scene>,
    pub labels: Vec<Label>,
}

pub struct DefineSceneAndFrameLabelDataModel {
    pub scenes: Seq<SceneModel>,
    pub labels: Seq<LabelModel>,
}

#[derive(Clone, Debug, PartialEq, Eq)]
pub struct DefineBinaryData {
    pub id: u16,
    pub data: Vec<u8>,
}

pub struct DefineBinaryDataModel {
    pub id: u16,
    pub data: Seq<u8>,
}

#[derive(Clone, Debug, PartialEq, Eq)]
pub struct DefineFontName {
    pub font_id: u16,
    pub name: String,
    pub copyright: String,
}

pub struct DefineFontNameModel {
    pub font_id: u16,
    pub name: Seq<char>,
    pub copyright: Seq<char>,
}

#[derive(Clone, Debug, PartialEq, Eq)]
pub struct StartSound2 {
    pub sound_class_name: String,
    pub sound_info: SoundInfo,
}

pub struct StartSound2Model {
    pub sound_class_name: Seq<char>,
    pub sound_info: SoundInfoModel,
}

#[derive(Clone, Debug, PartialEq, Eq)]
pub struct Telemetry {
    pub password: Option<Vec<u8>>,
}

/// A tag of an SWF movie.
#[derive(Debug, PartialEq, Eq)]
pub enum Tag {
    Raw(Raw),
    ShowFrame,
    RemoveObject(RemoveObject),
    DefineBitmap(DefineBitmap),
    DefineJpegTables(DefineJpegTables),
    SetBackgroundColor(SetBackgroundColor),
    DoAction(DoAction),
    DefineSound(DefineSound),
    StartSound(StartSound),
    DefineButtonSound(DefineButtonSound),
    SoundStreamHead(SoundStreamHead),
    SoundStreamBlock(SoundStreamBlock),
    DefineButtonColorTransform(DefineButtonColorTransform),
    Protect(Protect),
    EnablePostscript,
    DefineDynamicText(DefineDynamicText),
    DefineSprite(DefineSprite),
    FrameLabel(FrameLabel),
    ExportAssets(ExportAssets),
    ImportAssets(ImportAssets),
    EnableDebugger(EnableDebugger),
    DoInitAction(DoInitAction),
    DefineVideoStream(DefineVideoStream),
    VideoFrame(VideoFrame),
    ScriptLimits(ScriptLimits),
    SetTabIndex(SetTabIndex),
    FileAttributes(FileAttributes),
    CsmTextSettings(CsmTextSettings),
    SymbolClass(SymbolClass),
    Metadata(Metadata),
    DefineScalingGrid(DefineScalingGrid),
    DoAbc(DoAbc),
    DefineSceneAndFrameLabelData(DefineSceneAndFrameLabelData),
    DefineBinaryData(DefineBinaryData),
    DefineFontName(DefineFontName),
    StartSound2(StartSound2),
    Telemetry(Telemetry),
    DefineShape(DefineShape),
    PlaceObject(PlaceObject),
    DefineGlyphFont(DefineGlyphFont),
    DefineText(DefineText),
    DefineFontInfo(DefineFontInfo),
    DefineFont(DefineFont),
    DefineFontAlignZones(DefineFontAlignZones),
    DefineCffFont(DefineCffFont),
    DefineButton(DefineButton),
    DefineMorphShape(DefineMorphShape),
}

/// Model of a tag: strings as characters, byte vectors and lists as sequences.
pub enum TagModel {
    Raw(Seq<u8>),
    ShowFrame,
    RemoveObject(RemoveObject),
    DefineBitmap(DefineBitmapModel),
    DefineJpegTables(Seq<u8>),
    SetBackgroundColor(SetBackgroundColor),
    DoAction(Seq<u8>),
    DefineSound(DefineSoundModel),
    StartSound(StartSoundModel),
    DefineButtonSound(DefineButtonSoundModel),
    SoundStreamHead(SoundStreamHead),
    SoundStreamBlock(Seq<u8>),
    DefineButtonColorTransform(DefineButtonColorTransform),
    Protect(Seq<char>),
    EnablePostscript,
    DefineDynamicText(DefineDynamicTextModel),
    DefineSprite(DefineSpriteModel),
    FrameLabel(FrameLabelModel),
    ExportAssets(Seq<NamedIdModel>),
    ImportAssets(ImportAssetsModel),
    EnableDebugger(Seq<char>),
    DoInitAction(DoInitActionModel),
    DefineVideoStream(DefineVideoStream),
    VideoFrame(VideoFrameModel),
    ScriptLimits(ScriptLimits),
    SetTabIndex(SetTabIndex),
    FileAttributes(FileAttributes),
    CsmTextSettings(CsmTextSettings),
    SymbolClass(Seq<NamedIdModel>),
    Metadata(Seq<char>),
    DefineScalingGrid(DefineScalingGrid),
    DoAbc(DoAbcModel),
    DefineSceneAndFrameLabelData(DefineSceneAndFrameLabelDataModel),
    DefineBinaryData(DefineBinaryDataModel),
    DefineFontName(DefineFontNameModel),
    StartSound2(StartSound2Model),
    Telemetry(Option<Seq<u8>>),
    DefineShape(DefineShapeModel),
    PlaceObject(PlaceObjectModel),
    DefineGlyphFont(DefineGlyphFontModel),
    DefineText(DefineTextModel),
    DefineFontInfo(DefineFontInfoModel),
    DefineFont(DefineFontModel),
    DefineFontAlignZones(DefineFontAlignZonesModel),
    DefineCffFont(DefineCffFontModel),
    DefineButton(DefineButtonModel),
    DefineMorphShape(DefineMorphShapeModel),
}

impl DeepView for SoundType {
    type V = SoundType;
    open spec fn deep_view(&self) -> SoundType { *self }
}

impl DeepView for SoundSize {
    type V = SoundSize;
    open spec fn deep_view(&self) -> SoundSize { *self }
}

impl DeepView for SoundRate {
    type V = SoundRate;
    open spec fn deep_view(&self) -> SoundRate { *self }
}

impl DeepView for AudioCodingFormat {
    type V = AudioCodingFormat;
    open spec fn deep_view(&self) -> AudioCodingFormat { *self }
}

impl DeepView for VideoDeblocking {
    type V = VideoDeblocking;
    open spec fn deep_view(&self) -> VideoDeblocking { *self }
}

impl DeepView for VideoCodec {
    type V = VideoCodec;
    open spec fn deep_view(&self) -> VideoCodec { *self }
}

impl DeepView for ImageType {
    type V = ImageType;
    open spec fn deep_view(&self) -> ImageType { *self }
}

impl DeepView for TextAlignment {
    type V = TextAlignment;
    open spec fn deep_view(&self) -> TextAlignment { *self }
}

impl DeepView for GridFitting {
    type V = GridFitting;
    open spec fn deep_view(&self) -> GridFitting { *self }
}

impl DeepView for TextRenderer {
    type V = TextRenderer;
    open spec fn deep_view(&self) -> TextRenderer { *self }
}

impl DeepView for RemoveObject {
    type V = RemoveObject;
    open spec fn deep_view(&self) -> RemoveObject { *self }
}

impl DeepView for SetBackgroundColor {
    type V = SetBackgroundColor;
    open spec fn deep_view(&self) -> SetBackgroundColor { *self }
}

impl DeepView for SoundStreamHead {
    type V = SoundStreamHead;
    open spec fn deep_view(&self) -> SoundStreamHead { *self }
}

impl DeepView for DefineButtonColorTransform {
    type V = DefineButtonColorTransform;
    open spec fn deep_view(&self) -> DefineButtonColorTransform { *self }
}

impl DeepView for DefineVideoStream {
    type V = DefineVideoStream;
    open spec fn deep_view(&self) -> DefineVideoStream { *self }
}

impl DeepView for ScriptLimits {
    type V = ScriptLimits;
    open spec fn deep_view(&self) -> ScriptLimits { *self }
}

impl DeepView for SetTabIndex {
    type V = SetTabIndex;
    open spec fn deep_view(&self) -> SetTabIndex { *self }
}

impl DeepView for FileAttributes {
    type V = FileAttributes;
    open spec fn deep_view(&self) -> FileAttributes { *self }
}

impl DeepView for CsmTextSettings {
    type V = CsmTextSettings;
    open spec fn deep_view(&self) -> CsmTextSettings { *self }
}

impl DeepView for DefineScalingGrid {
    type V = DefineScalingGrid;
    open spec fn deep_view(&self) -> DefineScalingGrid { *self }
}

impl DeepView for SoundEnvelope {
    type V = SoundEnvelope;
    open spec fn deep_view(&self) -> SoundEnvelope { *self }
}

impl DeepView for SoundInfo {
    type V = SoundInfoModel;
    open spec fn deep_view(&self) -> SoundInfoModel {
        SoundInfoModel {
            sync_stop: self.sync_stop,
            sync_no_multiple: self.sync_no_multiple,
            in_point: self.in_point,
            out_point: self.out_point,
            loop_count: self.loop_count,
            envelope_records: match self.envelope_records {
                Some(v) => Some(v@),
                None => None,
            },
        }
    }
}

impl DeepView for ButtonSound {
    type V = ButtonSoundModel;
    open spec fn deep_view(&self) -> ButtonSoundModel {
        ButtonSoundModel { sound_id: self.sound_id, sound_info: self.sound_info.deep_view() }
    }
}

pub open spec fn button_sound_model(b: Option<ButtonSound>) -> Option<ButtonSoundModel> {
    match b {
        Some(s) => Some(s.deep_view()),
        None => None,
    }
}

pub open spec fn string_model(s: Option<String>) -> Option<Seq<char>> {
    match s {
        Some(t) => Some(t@),
        None => None,
    }
}

pub open spec fn named_ids_model(v: Seq<NamedId>) -> Seq<NamedIdModel> {
    Seq::new(v.len(), |i: int| v[i].deep_view())
}

pub open spec fn dynamic_text_model(t: DefineDynamicText) -> DefineDynamicTextModel {
    DefineDynamicTextModel {
                id: t.id,
                bounds: t.bounds,
                word_wrap: t.word_wrap,
                multiline: t.multiline,
                password: t.password,
                readonly: t.readonly,
                auto_size: t.auto_size,
                no_select: t.no_select,
                border: t.border,
                was_static: t.was_static,
                html: t.html,
                use_glyph_font: t.use_glyph_font,
                font_id: t.font_id,
                font_class: string_model(t.font_class),
                font_size: t.font_size,
                color: t.color,
                max_length: t.max_length,
                align: t.align,
                margin_left: t.margin_left,
                margin_right: t.margin_right,
                indent: t.indent,
                leading: t.leading,
                variable_name: string_model(t.variable_name),
                text: string_model(t.text),
            }
}

impl DeepView for Scene {
    type V = SceneModel;
    open spec fn deep_view(&self) -> SceneModel { SceneModel { offset: self.offset, name: self.name@ } }
}

impl DeepView for Label {
    type V = LabelModel;
    open spec fn deep_view(&self) -> LabelModel { LabelModel { frame: self.frame, name: self.name@ } }
}

impl DeepView for Raw {
    type V = Seq<u8>;
    open spec fn deep_view(&self) -> Seq<u8> {
        self.data@
    }
}

impl DeepView for DefineJpegTables {
    type V = Seq<u8>;
    open spec fn deep_view(&self) -> Seq<u8> {
        self.data@
    }
}

impl DeepView for DoAction {
    type V = Seq<u8>;
    open spec fn deep_view(&self) -> Seq<u8> {
        self.actions@
    }
}

impl DeepView for SoundStreamBlock {
    type V = Seq<u8>;
    open spec fn deep_view(&self) -> Seq<u8> {
        self.data@
    }
}

impl DeepView for Protect {
    type V = Seq<char>;
    open spec fn deep_view(&self) -> Seq<char> {
        self.password@
    }
}

impl DeepView for EnableDebugger {
    type V = Seq<char>;
    open spec fn deep_view(&self) -> Seq<char> {
        self.password@
    }
}

impl DeepView for Metadata {
    type V = Seq<char>;
    open spec fn deep_view(&self) -> Seq<char> {
        self.metadata@
    }
}

impl DeepView for ExportAssets {
    type V = Seq<NamedIdModel>;
    open spec fn deep_view(&self) -> Seq<NamedIdModel> {
        self.assets.deep_view()
    }
}

impl DeepView for SymbolClass {
    type V = Seq<NamedIdModel>;
    open spec fn deep_view(&self) -> Seq<NamedIdModel> {
        self.symbols.deep_view()
    }
}

impl DeepView for DefineSound {
    type V = DefineSoundModel;
    open spec fn deep_view(&self) -> DefineSoundModel {
        DefineSoundModel {
            id: self.id,
            sound_type: self.sound_type,
            sound_size: self.sound_size,
            sound_rate: self.sound_rate,
            format: self.format,
            sample_count: self.sample_count,
            data: self.data@,
        }
    }
}

impl DeepView for StartSound {
    type V = StartSoundModel;
    open spec fn deep_view(&self) -> StartSoundModel {
        StartSoundModel { sound_id: self.sound_id, sound_info: self.sound_info.deep_view() }
    }
}

impl DeepView for DefineButtonSound {
    type V = DefineButtonSoundModel;
    open spec fn deep_view(&self) -> DefineButtonSoundModel {
        DefineButtonSoundModel {
            button_id: self.button_id,
            over_up_to_idle: button_sound_model(self.over_up_to_idle),
            idle_to_over_up: button_sound_model(self.idle_to_over_up),
            over_up_to_over_down: button_sound_model(self.over_up_to_over_down),
            over_down_to_over_up: button_sound_model(self.over_down_to_over_up),
        }
    }
}

impl DeepView for DefineBitmap {
    type V = DefineBitmapModel;
    open spec fn deep_view(&self) -> DefineBitmapModel {
        DefineBitmapModel {
            id: self.id,
            width: self.width,
            height: self.height,
            media_type: self.media_type,
            data: self.data@,
        }
    }
}

impl DeepView for DefineDynamicText {
    type V = DefineDynamicTextModel;
    open spec fn deep_view(&self) -> DefineDynamicTextModel {
        dynamic_text_model(*self)
    }
}

impl DeepView for FrameLabel {
    type V = FrameLabelModel;
    open spec fn deep_view(&self) -> FrameLabelModel {
        FrameLabelModel { name: self.name@, is_anchor: self.is_anchor }
    }
}

impl DeepView for ImportAssets {
    type V = ImportAssetsModel;
    open spec fn deep_view(&self) -> ImportAssetsModel {
        ImportAssetsModel { url: self.url@, assets: self.assets.deep_view() }
    }
}

impl DeepView for DoInitAction {
    type V = DoInitActionModel;
    open spec fn deep_view(&self) -> DoInitActionModel {
        DoInitActionModel { sprite_id: self.sprite_id, actions: self.actions@ }
    }
}

impl DeepView for VideoFrame {
    type V = VideoFrameModel;
    open spec fn deep_view(&self) -> VideoFrameModel {
        VideoFrameModel { video_id: self.video_id, frame: self.frame, packet: self.packet@ }
    }
}

impl DeepView for DoAbc {
    type V = DoAbcModel;
    open spec fn deep_view(&self) -> DoAbcModel {
        DoAbcModel { flags: self.flags, name: self.name@, data: self.data@ }
    }
}

impl DeepView for DefineSceneAndFrameLabelData {
    type V = DefineSceneAndFrameLabelDataModel;
    open spec fn deep_view(&self) -> DefineSceneAndFrameLabelDataModel {
        DefineSceneAndFrameLabelDataModel {
            scenes: self.scenes.deep_view(),
            labels: self.labels.deep_view(),
        }
    }
}

impl DeepView for DefineBinaryData {
    type V = DefineBinaryDataModel;
    open spec fn deep_view(&self) -> DefineBinaryDataModel {
        DefineBinaryDataModel { id: self.id, data: self.data@ }
    }
}

impl DeepView for DefineFontName {
    type V = DefineFontNameModel;
    open spec fn deep_view(&self) -> DefineFontNameModel {
        DefineFontNameModel {
            font_id: self.font_id,
            name: self.name@,
            copyright: self.copyright@,
        }
    }
}

impl DeepView for StartSound2 {
    type V = StartSound2Model;
    open spec fn deep_view(&self) -> StartSound2Model {
        StartSound2Model {
            sound_class_name: self.sound_class_name@,
            sound_info: self.sound_info.deep_view(),
        }
    }
}

impl DeepView for Telemetry {
    type V = Option<Seq<u8>>;
    open spec fn deep_view(&self) -> Option<Seq<u8>> {
        match self.password {
            Some(p) => Some(p@),
            None => None,
        }
    }
}

pub open spec fn tags_model(tags: Seq<Tag>) -> Seq<TagModel>
    decreases tags,
{
    Seq::new(tags.len(), |i: int| if 0 <= i < tags.len() { tags[i].deep_view() } else { TagModel::ShowFrame })
}

impl DeepView for Tag {
    type V = TagModel;
    open spec fn deep_view(&self) -> TagModel
        decreases self,
    {
        match self {
            Tag::ShowFrame => TagModel::ShowFrame,
            Tag::EnablePostscript => TagModel::EnablePostscript,
            Tag::DefineSprite(t) => TagModel::DefineSprite(DefineSpriteModel {
                id: t.id,
                frame_count: t.frame_count,
                tags: Seq::new(
                    t.tags@.len(),
                    |i: int| if 0 <= i < t.tags@.len() { t.tags@[i].deep_view() } else { TagModel::ShowFrame },
                ),
            }),
            Tag::Raw(t) => TagModel::Raw(t.deep_view()),
            Tag::RemoveObject(t) => TagModel::RemoveObject(t.deep_view()),
            Tag::DefineBitmap(t) => TagModel::DefineBitmap(t.deep_view()),
            Tag::DefineJpegTables(t) => TagModel::DefineJpegTables(t.deep_view()),
            Tag::SetBackgroundColor(t) => TagModel::SetBackgroundColor(t.deep_view()),
            Tag::DoAction(t) => TagModel::DoAction(t.deep_view()),
            Tag::DefineSound(t) => TagModel::DefineSound(t.deep_view()),
            Tag::StartSound(t) => TagModel::StartSound(t.deep_view()),
            Tag::DefineButtonSound(t) => TagModel::DefineButtonSound(t.deep_view()),
            Tag::SoundStreamHead(t) => TagModel::SoundStreamHead(t.deep_view()),
            Tag::SoundStreamBlock(t) => TagModel::SoundStreamBlock(t.deep_view()),
            Tag::DefineButtonColorTransform(t) => TagModel::DefineButtonColorTransform(t.deep_view()),
            Tag::Protect(t) => TagModel::Protect(t.deep_view()),
            Tag::DefineDynamicText(t) => TagModel::DefineDynamicText(t.deep_view()),
            Tag::FrameLabel(t) => TagModel::FrameLabel(t.deep_view()),
            Tag::ExportAssets(t) => TagModel::ExportAssets(t.deep_view()),
            Tag::ImportAssets(t) => TagModel::ImportAssets(t.deep_view()),
            Tag::EnableDebugger(t) => TagModel::EnableDebugger(t.deep_view()),
            Tag::DoInitAction(t) => TagModel::DoInitAction(t.deep_view()),
            Tag::DefineVideoStream(t) => TagModel::DefineVideoStream(t.deep_view()),
            Tag::VideoFrame(t) => TagModel::VideoFrame(t.deep_view()),
            Tag::ScriptLimits(t) => TagModel::ScriptLimits(t.deep_view()),
            Tag::SetTabIndex(t) => TagModel::SetTabIndex(t.deep_view()),
            Tag::FileAttributes(t) => TagModel::FileAttributes(t.deep_view()),
            Tag::CsmTextSettings(t) => TagModel::CsmTextSettings(t.deep_view()),
            Tag::SymbolClass(t) => TagModel::SymbolClass(t.deep_view()),
            Tag::Metadata(t) => TagModel::Metadata(t.deep_view()),
            Tag::DefineScalingGrid(t) => TagModel::DefineScalingGrid(t.deep_view()),
            Tag::DoAbc(t) => TagModel::DoAbc(t.deep_view()),
            Tag::DefineSceneAndFrameLabelData(t) => TagModel::DefineSceneAndFrameLabelData(t.deep_view()),
            Tag::DefineBinaryData(t) => TagModel::DefineBinaryData(t.deep_view()),
            Tag::DefineFontName(t) => TagModel::DefineFontName(t.deep_view()),
            Tag::StartSound2(t) => TagModel::StartSound2(t.deep_view()),
            Tag::DefineShape(t) => TagModel::DefineShape(t.deep_view()),
            Tag::PlaceObject(t) => TagModel::PlaceObject(t.deep_view()),
            Tag::DefineGlyphFont(t) => TagModel::DefineGlyphFont(t.deep_view()),
            Tag::DefineText(t) => TagModel::DefineText(t.deep_view()),
            Tag::DefineFontInfo(t) => TagModel::DefineFontInfo(t.deep_view()),
            Tag::DefineFont(t) => TagModel::DefineFont(t.deep_view()),
            Tag::DefineFontAlignZones(t) => TagModel::DefineFontAlignZones(t.deep_view()),
            Tag::DefineCffFont(t) => TagModel::DefineCffFont(t.deep_view()),
            Tag::DefineButton(t) => TagModel::DefineButton(t.deep_view()),
            Tag::DefineMorphShape(t) => TagModel::DefineMorphShape(t.deep_view()),
            Tag::Telemetry(t) => TagModel::Telemetry(t.deep_view()),
        }
    }
}

/// The model of a sprite tag holds the models of its tags.
pub proof fn lemma_sprite_view(t: DefineSprite)
    ensures
        Tag::DefineSprite(t).deep_view() == TagModel::DefineSprite(
            DefineSpriteModel { id: t.id, frame_count: t.frame_count, tags: t.tags.deep_view() },
        ),
{
    let tag = Tag::DefineSprite(t);
    reveal_with_fuel(<Tag as DeepView>::deep_view, 2);
    assert(tag.deep_view()->DefineSprite_0.tags =~= t.tags.deep_view());
}

/// A movie: its header and its tags.
#[derive(Debug, PartialEq, Eq)]
pub struct Movie {
    pub header: Header,
    pub tags: Vec<Tag>,
}

pub struct MovieModel {
    pub header: Header,
    pub tags: Seq<TagModel>,
}

impl DeepView for Movie {
    type V = MovieModel;
    open spec fn deep_view(&self) -> MovieModel {
        MovieModel { header: self.header, tags: self.tags.deep_view() }
    }
}

} // verus!

//! Tags that define fonts and static texts.
use vstd::prelude::*;
use vstd::slice::slice_subrange;
use crate::ast::{LanguageCode, Matrix, Rect};
use crate::basic_data_types::{
    parse_language_code, parse_matrix, parse_rect, spec_language_code, spec_matrix, spec_rect,
};
use crate::bits::{bits_error_to_bytes, bits_to_bytes, spec_from_bits};
use crate::bytes::{
    parse_block_c_string, parse_bytes, parse_c_string, parse_le_u16_c, parse_u8_c,
    spec_block_c_string, spec_c_string, u16_c, u8_c,
};
use crate::error::{ParseError, PResult, SpecResult, parsed_as, sbind, sopt, spec_complete};
use crate::shape::{Glyph, ShapeRecordModel};
use crate::text::{
    CsmTableHint, FontAlignmentZone, FontAlignmentZoneModel, FontInfoVersion, FontLayout,
    FontLayoutModel, FontVersion, TextVersion, TextRecord, TextRecordModel, parse_csm_table_hint_bits,
    parse_font_alignment_zone, parse_font_layout, parse_offset_glyphs,
    parse_table_glyphs, parse_text_record_string, spec_csm_table_hint_bits,
    spec_font_alignment_zone, spec_font_layout, spec_glyph_offsets,
    spec_offset_glyphs, spec_table_glyphs, spec_text_record_string, parse_glyph_offsets,
    lemma_glyph_offsets_len,
};

verus! {

/// Size of the em square of a font's glyphs.
#[derive(Clone, Copy, Debug, PartialEq, Eq, Structural)]
pub enum EmSquareSize {
    EmSquareSize1024,
    EmSquareSize20480,
}

impl DeepView for EmSquareSize {
    type V = EmSquareSize;
    open spec fn deep_view(&self) -> EmSquareSize { *self }
}



/// The first `n` bytes of a complete input.
pub open spec fn spec_take_c(s: Seq<u8>, n: int) -> SpecResult<Seq<u8>> {
    if n <= s.len() { Ok((s.take(n), s.skip(n))) } else { Err(ParseError::Error) }
}

fn take_c(input: &[u8], n: usize) -> (r: Result<(&[u8], &[u8]), ParseError>)
    ensures
        match (r, spec_take_c(input@, n as int)) {
            (Ok((rest, v)), Ok((sv, srest))) => rest@ == srest && v@ == sv,
            (Err(e1), Err(e2)) => e1 == e2,
            _ => false,
        },
{
    if n <= input.len() {
        Ok((slice_subrange(input, n, input.len()), slice_subrange(input, 0, n)))
    } else {
        Err(ParseError::Error)
    }
}

/// A font name: its length in a byte, then that many bytes read as a C string.
pub open spec fn spec_font_name(s: Seq<u8>) -> SpecResult<Seq<char>> {
    sbind(u8_c(s), |len: u8, s1: Seq<u8>|
    sbind(spec_take_c(s1, len as int), |raw: Seq<u8>, s2: Seq<u8>|
    sbind(spec_block_c_string(raw), |name: Seq<char>, _s3: Seq<u8>| Ok((name, s2)))))
}

fn parse_font_name(input: &[u8]) -> (r: PResult<String>)
    ensures
        parsed_as(r, spec_font_name(input@)),
{
    let (input, len) = parse_u8_c(input)?;
    let (input, raw) = take_c(input, len as usize)?;
    let (_, name) = parse_block_c_string(raw)?;
    Ok((input, name))
}

// ---------------------------------------------------------------------------
// DefineFont (version 1)
// ---------------------------------------------------------------------------

/// A font made of glyph outlines only.
#[derive(Clone, Debug, PartialEq, Eq)]
pub struct DefineGlyphFont {
    pub id: u16,
    pub glyphs: Vec<Glyph>,
}

pub struct DefineGlyphFontModel {
    pub id: u16,
    pub glyphs: Seq<Seq<ShapeRecordModel>>,
}

impl DeepView for DefineGlyphFont {
    type V = DefineGlyphFontModel;
    open spec fn deep_view(&self) -> DefineGlyphFontModel {
        DefineGlyphFontModel { id: self.id, glyphs: self.glyphs.deep_view() }
    }
}

/// `defineFont : UINT16_LE(id) glyphTable`. The first offset of the table gives its
/// size, so the glyph count is half of it; each glyph runs from its offset to the next
/// one, the last one to the end of the body. The whole body is consumed.
#[verifier::opaque]
pub open spec fn spec_define_font(s: Seq<u8>) -> SpecResult<DefineGlyphFontModel> {
    sbind(u16_c(s), |id: u16, s1: Seq<u8>|
        if s1.len() == 0 {
            Ok((DefineGlyphFontModel { id, glyphs: Seq::empty() }, Seq::empty()))
        } else {
            sbind(u16_c(s1), |first: u16, s2: Seq<u8>| {
                let n = first / 2;
                let more: nat = if n > 0 { (n - 1) as nat } else { 0 };
                sbind(spec_glyph_offsets(s2, more, false), |others: Seq<u32>, _s3: Seq<u8>|
                    match spec_table_glyphs(s1, seq![first as u32] + others, s1.len() as int, n as nat, n as nat) {
                        Err(e) => Err(e),
                        Ok(glyphs) => Ok((DefineGlyphFontModel { id, glyphs }, Seq::empty())),
                    })
            })
        })
}

pub fn parse_define_font(input: &[u8]) -> (r: PResult<DefineGlyphFont>)
    ensures
        parsed_as(r, spec_define_font(input@)),
{
    reveal(spec_define_font);
    let (input, id) = parse_le_u16_c(input)?;
    let end = slice_subrange(input, input.len(), input.len());
    assert(end@ =~= Seq::<u8>::empty());
    if input.len() == 0 {
        let glyphs: Vec<Glyph> = Vec::new();
        assert(glyphs.deep_view() =~= Seq::<Seq<ShapeRecordModel>>::empty());
        return Ok((end, DefineGlyphFont { id, glyphs }));
    }
    let saved: &[u8] = input;
    let (input, first_offset) = parse_le_u16_c(input)?;
    let glyph_count: usize = (first_offset / 2) as usize;
    let more: usize = if glyph_count > 0 { glyph_count - 1 } else { 0 };
    let (_, mut offsets) = parse_glyph_offsets(input, more, false)?;
    proof {
        lemma_glyph_offsets_len(input@, more as nat, false);
        assert(offsets@ =~= offsets.deep_view());
    }
    let ghost others = offsets@;
    offsets.insert(0, first_offset as u32);
    assert(offsets@ =~= seq![first_offset as u32] + others);
    match parse_table_glyphs(saved, &offsets, saved.len(), glyph_count) {
        Ok(glyphs) => {
            Ok((end, DefineGlyphFont { id, glyphs }))
        },
        Err(e) => {
            Err(e)
        },
    }
}

// ---------------------------------------------------------------------------
// DefineFont2 and DefineFont3
// ---------------------------------------------------------------------------

/// Code units of `count` glyphs: `u16` values when codes are wide, else bytes.
pub open spec fn spec_code_unit(s: Seq<u8>, wide: bool) -> SpecResult<u16> {
    if wide {
        u16_c(s)
    } else {
        sbind(u8_c(s), |b: u8, s1: Seq<u8>| Ok((b as u16, s1)))
    }
}

fn parse_code_unit(input: &[u8], wide: bool) -> (r: PResult<u16>)
    ensures
        parsed_as(r, spec_code_unit(input@, wide)),
{
    if wide {
        parse_le_u16_c(input)
    } else {
        let (input, b) = parse_u8_c(input)?;
        Ok((input, b as u16))
    }
}

pub open spec fn spec_code_units(s: Seq<u8>, count: nat, wide: bool) -> SpecResult<Seq<u16>>
    decreases count,
{
    if count == 0 {
        Ok((Seq::empty(), s))
    } else {
        sbind(spec_code_units(s, (count - 1) as nat, wide), |vs: Seq<u16>, s1: Seq<u8>|
        sbind(spec_code_unit(s1, wide), |v: u16, s2: Seq<u8>| Ok((vs.push(v), s2))))
    }
}

proof fn lemma_code_units_err(s: Seq<u8>, k: nat, count: nat, wide: bool)
    requires
        k <= count,
        spec_code_units(s, k, wide) is Err,
    ensures
        spec_code_units(s, count, wide) == spec_code_units(s, k, wide),
    decreases count - k,
{
    if k < count {
        lemma_code_units_err(s, k, (count - 1) as nat, wide);
    }
}

fn parse_code_units(input: &[u8], count: usize, wide: bool) -> (r: PResult<Vec<u16>>)
    ensures
        parsed_as(r, spec_code_units(input@, count as nat, wide)),
{
    let mut out: Vec<u16> = Vec::new();
    assert(out.deep_view() =~= Seq::<u16>::empty());
    let mut cur: &[u8] = input;
    let mut k: usize = 0;
    while k < count
        invariant
            k <= count,
            spec_code_units(input@, k as nat, wide) == Ok::<_, ParseError>((out.deep_view(), cur@)),
        decreases count - k,
    {
        match parse_code_unit(cur, wide) {
            Ok((next, v)) => {
                let ghost old_out = out.deep_view();
                out.push(v);
                assert(out.deep_view() =~= old_out.push(v));
                cur = next;
            },
            Err(e) => {
                proof { lemma_code_units_err(input@, (k + 1) as nat, count as nat, wide); }
                return Err(e);
            },
        }
        k = k + 1;
    }
    Ok((cur, out))
}

/// A font with its metadata and, unless it is a device font, its glyphs.
#[derive(Clone, Debug, PartialEq, Eq)]
pub struct DefineFont {
    pub id: u16,
    pub font_name: String,
    pub is_bold: bool,
    pub is_italic: bool,
    pub is_ansi: bool,
    pub is_small: bool,
    pub is_shift_jis: bool,
    pub em_square_size: EmSquareSize,
    pub language: LanguageCode,
    pub glyphs: Option<Vec<Glyph>>,
    pub code_units: Option<Vec<u16>>,
    pub layout: Option<FontLayout>,
}

pub struct DefineFontModel {
    pub id: u16,
    pub font_name: Seq<char>,
    pub is_bold: bool,
    pub is_italic: bool,
    pub is_ansi: bool,
    pub is_small: bool,
    pub is_shift_jis: bool,
    pub em_square_size: EmSquareSize,
    pub language: LanguageCode,
    pub glyphs: Option<Seq<Seq<ShapeRecordModel>>>,
    pub code_units: Option<Seq<u16>>,
    pub layout: Option<FontLayoutModel>,
}

impl DeepView for DefineFont {
    type V = DefineFontModel;
    open spec fn deep_view(&self) -> DefineFontModel {
        DefineFontModel {
            id: self.id,
            font_name: self.font_name@,
            is_bold: self.is_bold,
            is_italic: self.is_italic,
            is_ansi: self.is_ansi,
            is_small: self.is_small,
            is_shift_jis: self.is_shift_jis,
            em_square_size: self.em_square_size,
            language: self.language,
            glyphs: self.glyphs.deep_view(),
            code_units: self.code_units.deep_view(),
            layout: self.layout.deep_view(),
        }
    }
}

/// Em square size of a font version: 20480 from version 3 on, else 1024.
pub open spec fn em_square_size_of(version: FontVersion) -> EmSquareSize {
    match version {
        FontVersion::Font3 => EmSquareSize::EmSquareSize20480,
        FontVersion::Font2 => EmSquareSize::EmSquareSize1024,
    }
}

/// The font of a `DefineFont2`/`DefineFont3` body with the given fields up to its glyph
/// data.
pub open spec fn font_model(
    id: u16,
    flags: u8,
    version: FontVersion,
    language: LanguageCode,
    font_name: Seq<char>,
    glyphs: Option<Seq<Seq<ShapeRecordModel>>>,
    code_units: Option<Seq<u16>>,
    layout: Option<FontLayoutModel>,
) -> DefineFontModel {
    DefineFontModel {
        id,
        font_name,
        is_bold: flags & 1u8 != 0,
        is_italic: flags & 2u8 != 0,
        is_ansi: flags & 16u8 != 0,
        is_small: flags & 32u8 != 0,
        is_shift_jis: flags & 64u8 != 0,
        em_square_size: em_square_size_of(version),
        language,
        glyphs,
        code_units,
        layout,
    }
}

/// `defineFont2 : UINT16_LE(id) UINT8(flags) languageCode fontName UINT16_LE(n)
/// [glyphTable codeUnit{n} [layout]]`. The flags, from the low bit up: bold, italic,
/// wide codes, wide offsets, ANSI, small, Shift-JIS, layout. A font without glyphs
/// (a device font) ends after its glyph count.
#[verifier::opaque]
pub open spec fn spec_define_font_any(s: Seq<u8>, version: FontVersion) -> SpecResult<DefineFontModel> {
    sbind(u16_c(s), |id: u16, s1: Seq<u8>|
    sbind(u8_c(s1), |flags: u8, s2: Seq<u8>|
    sbind(spec_language_code(s2), |language: LanguageCode, s3: Seq<u8>|
    sbind(spec_font_name(s3), |font_name: Seq<char>, s4: Seq<u8>|
    sbind(u16_c(s4), |n: u16, s5: Seq<u8>|
        if n == 0 {
            Ok((font_model(id, flags, version, language, font_name, None, None, None), s5))
        } else {
            sbind(spec_offset_glyphs(s5, n as nat, flags & 8u8 != 0), |glyphs: Seq<Seq<ShapeRecordModel>>, s6: Seq<u8>|
            sbind(spec_code_units(s6, n as nat, flags & 4u8 != 0), |code_units: Seq<u16>, s7: Seq<u8>|
            sbind(sopt(flags & 128u8 != 0, s7, spec_font_layout(s7, n as nat)), |layout: Option<FontLayoutModel>, s8: Seq<u8>|
                Ok((font_model(id, flags, version, language, font_name, Some(glyphs), Some(code_units), layout), s8)))))
        })))))
}

#[verifier::rlimit(40)]
pub fn parse_define_font_any(input: &[u8], version: FontVersion) -> (r: PResult<DefineFont>)
    ensures
        parsed_as(r, spec_define_font_any(input@, version)),
{
    reveal(spec_define_font_any);
    let (input, id) = parse_le_u16_c(input)?;
    let (input, flags) = parse_u8_c(input)?;
    let is_bold = flags & 1u8 != 0;
    let is_italic = flags & 2u8 != 0;
    let use_wide_codes = flags & 4u8 != 0;
    let use_wide_offsets = flags & 8u8 != 0;
    let is_ansi = flags & 16u8 != 0;
    let is_small = flags & 32u8 != 0;
    let is_shift_jis = flags & 64u8 != 0;
    let has_layout = flags & 128u8 != 0;
    let em_square_size = match version {
        FontVersion::Font3 => EmSquareSize::EmSquareSize20480,
        FontVersion::Font2 => EmSquareSize::EmSquareSize1024,
    };
    let (input, language) = parse_language_code(input)?;
    let (input, font_name) = parse_font_name(input)?;
    let (input, glyph_count) = parse_le_u16_c(input)?;
    // A device font ends here.
    if glyph_count == 0 {
        return Ok((
            input,
            DefineFont {
                id,
                font_name,
                is_bold,
                is_italic,
                is_ansi,
                is_small,
                is_shift_jis,
                em_square_size,
                language,
                glyphs: None,
                code_units: None,
                layout: None,
            },
        ));
    }
    let n: usize = glyph_count as usize;
    let (input, glyphs) = parse_offset_glyphs(input, n, use_wide_offsets)?;
    let (input, code_units) = parse_code_units(input, n, use_wide_codes)?;
    let (input, layout) = if has_layout {
        let (input, l) = parse_font_layout(input, n)?;
        (input, Some(l))
    } else {
        (input, None)
    };
    Ok((
        input,
        DefineFont {
            id,
            font_name,
            is_bold,
            is_italic,
            is_ansi,
            is_small,
            is_shift_jis,
            em_square_size,
            language,
            glyphs: Some(glyphs),
            code_units: Some(code_units),
            layout,
        },
    ))
}

pub fn parse_define_font2(input: &[u8]) -> (r: PResult<DefineFont>)
    ensures
        parsed_as(r, spec_define_font_any(input@, FontVersion::Font2)),
{
    parse_define_font_any(input, FontVersion::Font2)
}

pub fn parse_define_font3(input: &[u8]) -> (r: PResult<DefineFont>)
    ensures
        parsed_as(r, spec_define_font_any(input@, FontVersion::Font3)),
{
    parse_define_font_any(input, FontVersion::Font3)
}

// ---------------------------------------------------------------------------
// DefineFont4
// ---------------------------------------------------------------------------

/// A font given as Compact Font Format data.
#[derive(Clone, Debug, PartialEq, Eq)]
pub struct DefineCffFont {
    pub id: u16,
    pub font_name: String,
    pub is_bold: bool,
    pub is_italic: bool,
    pub data: Option<Vec<u8>>,
}

pub struct DefineCffFontModel {
    pub id: u16,
    pub font_name: Seq<char>,
    pub is_bold: bool,
    pub is_italic: bool,
    pub data: Option<Seq<u8>>,
}

impl DeepView for DefineCffFont {
    type V = DefineCffFontModel;
    open spec fn deep_view(&self) -> DefineCffFontModel {
        DefineCffFontModel {
            id: self.id,
            font_name: self.font_name@,
            is_bold: self.is_bold,
            is_italic: self.is_italic,
            data: self.data.deep_view(),
        }
    }
}

/// `defineFont4 : UINT16_LE(id) cString(name) UINT8(flags) [bytes]`; the flags, from the
/// low bit up: bold, italic, data present. The data is the rest of the body.
#[verifier::opaque]
pub open spec fn spec_define_font4(s: Seq<u8>) -> SpecResult<DefineCffFontModel> {
    sbind(u16_c(s), |id: u16, s1: Seq<u8>|
    sbind(spec_c_string(s1), |font_name: Seq<char>, s2: Seq<u8>|
    sbind(u8_c(s2), |flags: u8, s3: Seq<u8>| {
        let has_data = flags & 4u8 != 0;
        Ok((
            DefineCffFontModel {
                id,
                font_name,
                is_bold: flags & 1u8 != 0,
                is_italic: flags & 2u8 != 0,
                data: if has_data { Some(s3) } else { None },
            },
            if has_data { Seq::empty() } else { s3 },
        ))
    })))
}

pub fn parse_define_font4(input: &[u8]) -> (r: PResult<DefineCffFont>)
    ensures
        parsed_as(r, spec_define_font4(input@)),
{
    reveal(spec_define_font4);
    let (input, id) = parse_le_u16_c(input)?;
    let (input, font_name) = parse_c_string(input)?;
    let (input, flags) = parse_u8_c(input)?;
    // Bits 3 to 7 are reserved.
    let (input, data) = if flags & 4u8 != 0 {
        let (rest, d) = parse_bytes(input);
        assert(d.deep_view() =~= input@);
        assert(rest@ =~= Seq::<u8>::empty());
        (rest, Some(d))
    } else {
        (input, None)
    };
    Ok((input, DefineCffFont { id, font_name, is_bold: flags & 1u8 != 0, is_italic: flags & 2u8 != 0, data }))
}

// ---------------------------------------------------------------------------
// DefineFontAlignZones
// ---------------------------------------------------------------------------

/// Alignment zones of the glyphs of a font.
#[derive(Clone, Debug, PartialEq, Eq)]
pub struct DefineFontAlignZones {
    pub font_id: u16,
    pub csm_table_hint: CsmTableHint,
    pub zones: Vec<FontAlignmentZone>,
}

pub struct DefineFontAlignZonesModel {
    pub font_id: u16,
    pub csm_table_hint: CsmTableHint,
    pub zones: Seq<FontAlignmentZoneModel>,
}

impl DeepView for DefineFontAlignZones {
    type V = DefineFontAlignZonesModel;
    open spec fn deep_view(&self) -> DefineFontAlignZonesModel {
        DefineFontAlignZonesModel {
            font_id: self.font_id,
            csm_table_hint: self.csm_table_hint,
            zones: self.zones.deep_view(),
        }
    }
}

/// Zones up to the end of the input.
pub open spec fn spec_zones(s: Seq<u8>) -> Result<Seq<FontAlignmentZoneModel>, ParseError>
    decreases s.len(),
{
    if s.len() == 0 {
        Ok(Seq::empty())
    } else {
        match spec_font_alignment_zone(s) {
            Err(e) => Err(e),
            Ok((z, rest)) => if rest.len() < s.len() {
                match spec_zones(rest) {
                    Err(e) => Err(e),
                    Ok(zs) => Ok(seq![z] + zs),
                }
            } else {
                Err(ParseError::Error)
            },
        }
    }
}

/// `r` with `prefix` put in front of its zones.
pub open spec fn zones_prefixed(prefix: Seq<FontAlignmentZoneModel>, r: Result<Seq<FontAlignmentZoneModel>, ParseError>)
    -> Result<Seq<FontAlignmentZoneModel>, ParseError>
{
    match r {
        Ok(zs) => Ok(prefix + zs),
        Err(e) => Err(e),
    }
}

fn parse_zones(input: &[u8]) -> (r: Result<Vec<FontAlignmentZone>, ParseError>)
    ensures
        match (r, spec_zones(input@)) {
            (Ok(zs), Ok(ms)) => zs.deep_view() == ms,
            (Err(e1), Err(e2)) => e1 == e2,
            _ => false,
        },
{
    let mut zones: Vec<FontAlignmentZone> = Vec::new();
    let mut cur: &[u8] = input;
    assert(zones_prefixed(zones.deep_view(), spec_zones(cur@)) == spec_zones(input@)) by {
        assert(zones.deep_view() =~= Seq::<FontAlignmentZoneModel>::empty());
        match spec_zones(input@) {
            Ok(zs) => { assert(Seq::<FontAlignmentZoneModel>::empty() + zs =~= zs); },
            Err(_) => {},
        }
    }
    while cur.len() > 0
        invariant
            zones_prefixed(zones.deep_view(), spec_zones(cur@)) == spec_zones(input@),
        decreases cur@.len(),
    {
        match parse_font_alignment_zone(cur) {
            Ok((next, z)) => {
                if next.len() >= cur.len() {
                    return Err(ParseError::Error);
                }
                proof {
                    let old_zones = zones.deep_view();
                    assert(spec_zones(cur@) == zones_prefixed(seq![z.deep_view()], spec_zones(next@)));
                    match spec_zones(next@) {
                        Ok(zs) => {
                            assert(old_zones + (seq![z.deep_view()] + zs) =~= old_zones.push(z.deep_view()) + zs);
                        },
                        Err(_) => {},
                    }
                }
                let ghost old_zones = zones.deep_view();
                let ghost zm = z.deep_view();
                zones.push(z);
                assert(zones.deep_view() =~= old_zones.push(zm));
                cur = next;
            },
            Err(e) => {
                return Err(e);
            },
        }
    }
    proof {
        assert(zones.deep_view() + Seq::<FontAlignmentZoneModel>::empty() =~= zones.deep_view());
    }
    Ok(zones)
}

/// `defineFontAlignZones : UINT16_LE(font) hint(2 bits, padded) zone*`; the zones fill
/// the rest of the body.
#[verifier::opaque]
pub open spec fn spec_define_font_align_zones(s: Seq<u8>) -> SpecResult<DefineFontAlignZonesModel> {
    sbind(u16_c(s), |font_id: u16, s1: Seq<u8>|
    sbind(spec_from_bits(spec_csm_table_hint_bits(s1, 0)), |csm_table_hint: CsmTableHint, s2: Seq<u8>|
        match spec_zones(s2) {
            Err(e) => Err(e),
            Ok(zones) => Ok((DefineFontAlignZonesModel { font_id, csm_table_hint, zones }, Seq::empty())),
        }))
}

pub fn parse_define_font_align_zones(input: &[u8]) -> (r: PResult<DefineFontAlignZones>)
    ensures
        parsed_as(r, spec_define_font_align_zones(input@)),
{
    reveal(spec_define_font_align_zones);
    let (input, font_id) = parse_le_u16_c(input)?;
    let (input, csm_table_hint) = match parse_csm_table_hint_bits((input, 0)) {
        Ok(((rest, pos), h)) => (bits_to_bytes(rest, pos), h),
        Err(e) => return Err(bits_error_to_bytes(e)),
    };
    let zones = parse_zones(input)?;
    let end = slice_subrange(input, input.len(), input.len());
    assert(end@ =~= Seq::<u8>::empty());
    Ok((end, DefineFontAlignZones { font_id, csm_table_hint, zones }))
}

// ---------------------------------------------------------------------------
// DefineFontInfo and DefineFontInfo2
// ---------------------------------------------------------------------------

/// Names and code units of the glyphs of a font defined earlier.
#[derive(Clone, Debug, PartialEq, Eq)]
pub struct DefineFontInfo {
    pub font_id: u16,
    pub font_name: String,
    pub is_bold: bool,
    pub is_italic: bool,
    pub is_ansi: bool,
    pub is_shift_jis: bool,
    pub is_small: bool,
    pub language: LanguageCode,
    pub code_units: Vec<u16>,
}

pub struct DefineFontInfoModel {
    pub font_id: u16,
    pub font_name: Seq<char>,
    pub is_bold: bool,
    pub is_italic: bool,
    pub is_ansi: bool,
    pub is_shift_jis: bool,
    pub is_small: bool,
    pub language: LanguageCode,
    pub code_units: Seq<u16>,
}

impl DeepView for DefineFontInfo {
    type V = DefineFontInfoModel;
    open spec fn deep_view(&self) -> DefineFontInfoModel {
        DefineFontInfoModel {
            font_id: self.font_id,
            font_name: self.font_name@,
            is_bold: self.is_bold,
            is_italic: self.is_italic,
            is_ansi: self.is_ansi,
            is_shift_jis: self.is_shift_jis,
            is_small: self.is_small,
            language: self.language,
            code_units: self.code_units.deep_view(),
        }
    }
}

/// The code units that fill the rest of a font information body: as many `u16` values
/// as fit when codes are wide (an odd last byte is left), else one per byte.
pub open spec fn spec_info_code_units(s: Seq<u8>, wide: bool) -> SpecResult<Seq<u16>> {
    if wide {
        spec_code_units(s, s.len() / 2, true)
    } else {
        spec_code_units(s, s.len(), false)
    }
}

/// `defineFontInfo : UINT16_LE(font) fontName UINT8(flags) [languageCode] codeUnit*`;
/// the flags, from the low bit up: wide codes, bold, italic, ANSI, Shift-JIS, small.
/// Only the second version has a language code.
#[verifier::opaque]
pub open spec fn spec_define_font_info_any(s: Seq<u8>, version: FontInfoVersion) -> SpecResult<DefineFontInfoModel> {
    sbind(u16_c(s), |font_id: u16, s1: Seq<u8>|
    sbind(spec_font_name(s1), |font_name: Seq<char>, s2: Seq<u8>|
    sbind(u8_c(s2), |flags: u8, s3: Seq<u8>|
    sbind(
        if version == FontInfoVersion::FontInfo2 { spec_language_code(s3) } else { Ok((LanguageCode::Auto, s3)) },
        |language: LanguageCode, s4: Seq<u8>|
    sbind(spec_info_code_units(s4, flags & 1u8 != 0), |code_units: Seq<u16>, s5: Seq<u8>|
        Ok((
            DefineFontInfoModel {
                font_id,
                font_name,
                is_bold: flags & 2u8 != 0,
                is_italic: flags & 4u8 != 0,
                is_ansi: flags & 8u8 != 0,
                is_shift_jis: flags & 16u8 != 0,
                is_small: flags & 32u8 != 0,
                language,
                code_units,
            },
            s5,
        )))))))
}

pub fn parse_define_font_info_any(input: &[u8], version: FontInfoVersion) -> (r: PResult<DefineFontInfo>)
    ensures
        parsed_as(r, spec_define_font_info_any(input@, version)),
{
    reveal(spec_define_font_info_any);
    let (input, font_id) = parse_le_u16_c(input)?;
    let (input, font_name) = parse_font_name(input)?;
    let (input, flags) = parse_u8_c(input)?;
    let use_wide_codes = flags & 1u8 != 0;
    let (input, language) = match version {
        FontInfoVersion::FontInfo2 => parse_language_code(input)?,
        FontInfoVersion::FontInfo1 => (input, LanguageCode::Auto),
    };
    let count: usize = if use_wide_codes { input.len() / 2 } else { input.len() };
    let (input, code_units) = parse_code_units(input, count, use_wide_codes)?;
    Ok((
        input,
        DefineFontInfo {
            font_id,
            font_name,
            is_bold: flags & 2u8 != 0,
            is_italic: flags & 4u8 != 0,
            is_ansi: flags & 8u8 != 0,
            is_shift_jis: flags & 16u8 != 0,
            is_small: flags & 32u8 != 0,
            language,
            code_units,
        },
    ))
}

pub fn parse_define_font_info(input: &[u8]) -> (r: PResult<DefineFontInfo>)
    ensures
        parsed_as(r, spec_define_font_info_any(input@, FontInfoVersion::FontInfo1)),
{
    parse_define_font_info_any(input, FontInfoVersion::FontInfo1)
}

pub fn parse_define_font_info2(input: &[u8]) -> (r: PResult<DefineFontInfo>)
    ensures
        parsed_as(r, spec_define_font_info_any(input@, FontInfoVersion::FontInfo2)),
{
    parse_define_font_info_any(input, FontInfoVersion::FontInfo2)
}

// ---------------------------------------------------------------------------
// DefineText and DefineText2
// ---------------------------------------------------------------------------

/// A static text.
#[derive(Clone, Debug, PartialEq, Eq)]
pub struct DefineText {
    pub id: u16,
    pub bounds: Rect,
    pub matrix: Matrix,
    pub records: Vec<TextRecord>,
}

pub struct DefineTextModel {
    pub id: u16,
    pub bounds: Rect,
    pub matrix: Matrix,
    pub records: Seq<TextRecordModel>,
}

impl DeepView for DefineText {
    type V = DefineTextModel;
    open spec fn deep_view(&self) -> DefineTextModel {
        DefineTextModel { id: self.id, bounds: self.bounds, matrix: self.matrix, records: self.records.deep_view() }
    }
}

/// `defineText : UINT16_LE(id) rect matrix UINT8(index bits) UINT8(advance bits)
/// textRecordString`; colors carry an alpha channel from the second version on. Widths
/// of more than 32 bits are refused.
#[verifier::opaque]
pub open spec fn spec_define_text_any(s: Seq<u8>, version: TextVersion) -> SpecResult<DefineTextModel> {
    sbind(u16_c(s), |id: u16, s1: Seq<u8>|
    sbind(spec_rect(s1), |bounds: Rect, s2: Seq<u8>|
    sbind(spec_matrix(s2), |matrix: Matrix, s3: Seq<u8>|
    sbind(u8_c(s3), |index_bits: u8, s4: Seq<u8>|
    sbind(u8_c(s4), |advance_bits: u8, s5: Seq<u8>|
        if index_bits > 32 || advance_bits > 32 {
            Err(ParseError::Error)
        } else {
            sbind(
                spec_text_record_string(s5, version == TextVersion::Text2, index_bits as nat, advance_bits as nat),
                |records: Seq<TextRecordModel>, s6: Seq<u8>|
                Ok((DefineTextModel { id, bounds, matrix, records }, s6)))
        })))))
}

pub fn parse_define_text_any(input: &[u8], version: TextVersion) -> (r: PResult<DefineText>)
    ensures
        parsed_as(r, spec_define_text_any(input@, version)),
{
    reveal(spec_define_text_any);
    let (input, id) = parse_le_u16_c(input)?;
    let (input, bounds) = parse_rect(input)?;
    let (input, matrix) = parse_matrix(input)?;
    let (input, index_bits) = parse_u8_c(input)?;
    let (input, advance_bits) = parse_u8_c(input)?;
    if index_bits > 32 || advance_bits > 32 {
        return Err(ParseError::Error);
    }
    let has_alpha = match version {
        TextVersion::Text2 => true,
        TextVersion::Text1 => false,
    };
    let (input, records) = parse_text_record_string(input, has_alpha, index_bits as usize, advance_bits as usize)?;
    Ok((input, DefineText { id, bounds, matrix, records }))
}

pub fn parse_define_text(input: &[u8]) -> (r: PResult<DefineText>)
    ensures
        parsed_as(r, spec_define_text_any(input@, TextVersion::Text1)),
{
    parse_define_text_any(input, TextVersion::Text1)
}

pub fn parse_define_text2(input: &[u8]) -> (r: PResult<DefineText>)
    ensures
        parsed_as(r, spec_define_text_any(input@, TextVersion::Text2)),
{
    parse_define_text_any(input, TextVersion::Text2)
}

} // verus!

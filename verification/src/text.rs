//! Text and font records: alignment zones, kerning, layouts, glyph tables and text
//! records.
use vstd::prelude::*;
use vstd::slice::slice_subrange;
use crate::ast::{Rect, SRgb8, StraightSRgba8};
use crate::basic_data_types::{
    parse_rect, parse_s_rgb8, parse_straight_s_rgba8, spec_rect, spec_s_rgb8, spec_straight_s_rgba8,
};
use crate::bits::{
    BResult, SpecBitsResult, bit_input_ok, bits_error_to_bytes, bits_out_ok, bits_parsed_as,
    bits_to_bytes, parse_i32_bits, parse_u32_bits, spec_from_bits, spec_i32_bits, spec_u32_bits,
};
use crate::bytes::{
    i16_c, parse_le_i16_c, parse_le_u16, parse_le_u16_c, parse_le_u32_c, parse_u8_c, skip_c,
    spec_le_i16, spec_le_u16, spec_le_u32, spec_u8, u16_c,
};
use crate::shape::{Glyph, ShapeRecordModel, parse_glyph, spec_glyph};
use crate::error::{Needed, ParseError, PResult, SpecResult, parsed_as, sbind, sopt, spec_complete};

verus! {

/// Version of a font definition read by the shared `DefineFont2`/`DefineFont3` parser.
#[derive(Clone, Copy, Debug, PartialEq, Eq, PartialOrd, Ord, Hash, Structural)]
pub enum FontVersion {
    Font2,
    Font3,
}

/// Version of a static text definition.
#[derive(Clone, Copy, Debug, PartialEq, Eq, PartialOrd, Ord, Hash, Structural)]
pub enum TextVersion {
    Text1,
    Text2,
}

/// Version of a font information tag.
#[derive(Clone, Copy, Debug, PartialEq, Eq, PartialOrd, Ord, Hash, Structural)]
pub enum FontInfoVersion {
    FontInfo1,
    FontInfo2,
}

/// Thickness hint of the continuous stroke modulation table.
#[derive(Clone, Copy, Debug, PartialEq, Eq, Structural)]
pub enum CsmTableHint {
    Thin,
    Medium,
    Thick,
}

impl DeepView for CsmTableHint {
    type V = CsmTableHint;
    open spec fn deep_view(&self) -> CsmTableHint { *self }
}

pub open spec fn spec_csm_table_hint(code: u32) -> Option<CsmTableHint> {
    if code == 0 {
        Some(CsmTableHint::Thin)
    } else if code == 1 {
        Some(CsmTableHint::Medium)
    } else if code == 2 {
        Some(CsmTableHint::Thick)
    } else {
        None
    }
}

pub fn csm_table_hint_from_code(code: u32) -> (r: Result<CsmTableHint, ()>)
    ensures
        match spec_csm_table_hint(code) {
            Some(v) => r == Ok::<CsmTableHint, ()>(v),
            None => r is Err,
        },
{
    match code {
        0 => Ok(CsmTableHint::Thin),
        1 => Ok(CsmTableHint::Medium),
        2 => Ok(CsmTableHint::Thick),
        _ => Err(()),
    }
}

/// Two bits holding a table hint; the fourth code is refused.
pub open spec fn spec_csm_table_hint_bits(s: Seq<u8>, bp: int) -> SpecBitsResult<CsmTableHint> {
    match spec_u32_bits(s, bp, 2) {
        Err(e) => Err(e),
        Ok((code, st)) => match spec_csm_table_hint(code) {
            Some(h) => Ok((h, st)),
            None => Err(ParseError::Error),
        },
    }
}

pub fn parse_csm_table_hint_bits(input: (&[u8], usize)) -> (r: BResult<CsmTableHint>)
    requires
        bit_input_ok(input.0@, input.1 as int),
    ensures
        bits_parsed_as(r, spec_csm_table_hint_bits(input.0@, input.1 as int)),
        bits_out_ok(r),
{
    let (st, code) = parse_u32_bits(input, 2)?;
    match csm_table_hint_from_code(code) {
        Ok(h) => Ok((st, h)),
        Err(()) => Err(ParseError::Error),
    }
}

// ---------------------------------------------------------------------------
// Alignment zones
// ---------------------------------------------------------------------------

/// One dimension of an alignment zone; both values are half-precision floats, kept as
/// their bit patterns.
#[derive(Clone, Copy, Debug, PartialEq, Eq, Structural)]
pub struct FontAlignmentZoneData {
    pub origin: u16,
    pub size: u16,
}

impl DeepView for FontAlignmentZoneData {
    type V = FontAlignmentZoneData;
    open spec fn deep_view(&self) -> FontAlignmentZoneData { *self }
}

#[derive(Clone, Debug, PartialEq, Eq)]
pub struct FontAlignmentZone {
    pub data: Vec<FontAlignmentZoneData>,
    pub has_x: bool,
    pub has_y: bool,
}

pub struct FontAlignmentZoneModel {
    pub data: Seq<FontAlignmentZoneData>,
    pub has_x: bool,
    pub has_y: bool,
}

impl DeepView for FontAlignmentZone {
    type V = FontAlignmentZoneModel;
    open spec fn deep_view(&self) -> FontAlignmentZoneModel {
        FontAlignmentZoneModel { data: self.data.deep_view(), has_x: self.has_x, has_y: self.has_y }
    }
}

/// Origin then size, each a little-endian half-precision float (streaming reads).
pub open spec fn spec_font_alignment_zone_data(s: Seq<u8>) -> SpecResult<FontAlignmentZoneData> {
    sbind(spec_le_u16(s), |origin: u16, s1: Seq<u8>|
    sbind(spec_le_u16(s1), |size: u16, s2: Seq<u8>|
        Ok((FontAlignmentZoneData { origin, size }, s2))))
}

pub fn parse_font_alignment_zone_data(input: &[u8]) -> (r: PResult<FontAlignmentZoneData>)
    ensures
        parsed_as(r, spec_font_alignment_zone_data(input@)),
{
    let (input, origin) = parse_le_u16(input)?;
    let (input, size) = parse_le_u16(input)?;
    Ok((input, FontAlignmentZoneData { origin, size }))
}

/// `count` consecutive zone dimensions.
pub open spec fn spec_zone_data_list(s: Seq<u8>, count: nat) -> SpecResult<Seq<FontAlignmentZoneData>>
    decreases count,
{
    if count == 0 {
        Ok((Seq::empty(), s))
    } else {
        sbind(spec_zone_data_list(s, (count - 1) as nat), |vs: Seq<FontAlignmentZoneData>, s1: Seq<u8>|
        sbind(spec_font_alignment_zone_data(s1), |v: FontAlignmentZoneData, s2: Seq<u8>|
            Ok((vs.push(v), s2))))
    }
}

proof fn lemma_zone_data_list_err(s: Seq<u8>, k: nat, count: nat)
    requires
        k <= count,
        spec_zone_data_list(s, k) is Err,
    ensures
        spec_zone_data_list(s, count) == spec_zone_data_list(s, k),
    decreases count - k,
{
    if k < count {
        lemma_zone_data_list_err(s, k, (count - 1) as nat);
    }
}

fn parse_zone_data_list(input: &[u8], count: usize) -> (r: PResult<Vec<FontAlignmentZoneData>>)
    ensures
        parsed_as(r, spec_zone_data_list(input@, count as nat)),
{
    let mut out: Vec<FontAlignmentZoneData> = Vec::new();
    assert(out.deep_view() =~= Seq::<FontAlignmentZoneData>::empty());
    let mut cur: &[u8] = input;
    let mut k: usize = 0;
    while k < count
        invariant
            k <= count,
            spec_zone_data_list(input@, k as nat) == Ok::<_, ParseError>((out.deep_view(), cur@)),
        decreases count - k,
    {
        match parse_font_alignment_zone_data(cur) {
            Ok((next, v)) => {
                let ghost old_out = out.deep_view();
                out.push(v);
                assert(out.deep_view() =~= old_out.push(v));
                cur = next;
            },
            Err(e) => {
                proof { lemma_zone_data_list_err(input@, (k + 1) as nat, count as nat); }
                return Err(e);
            },
        }
        k = k + 1;
    }
    Ok((cur, out))
}

/// `zone : UINT8(count) zoneData{count} UINT8(flags)`; the low bit of the flags tells
/// whether the zone has an horizontal dimension, the next one a vertical one.
pub open spec fn spec_font_alignment_zone(s: Seq<u8>) -> SpecResult<FontAlignmentZoneModel> {
    sbind(spec_complete(spec_u8(s)), |count: u8, s1: Seq<u8>|
    sbind(spec_zone_data_list(s1, count as nat), |data: Seq<FontAlignmentZoneData>, s2: Seq<u8>|
    sbind(spec_complete(spec_u8(s2)), |flags: u8, s3: Seq<u8>|
        Ok((FontAlignmentZoneModel { data, has_x: flags & 1u8 != 0, has_y: flags & 2u8 != 0 }, s3)))))
}

pub fn parse_font_alignment_zone(input: &[u8]) -> (r: PResult<FontAlignmentZone>)
    ensures
        parsed_as(r, spec_font_alignment_zone(input@)),
{
    let (input, zone_count) = parse_u8_c(input)?;
    let (input, data) = parse_zone_data_list(input, zone_count as usize)?;
    let (input, flags) = parse_u8_c(input)?;
    // Bits 2 to 7 are skipped.
    Ok((input, FontAlignmentZone { data, has_x: flags & 1u8 != 0, has_y: flags & 2u8 != 0 }))
}

// ---------------------------------------------------------------------------
// Kerning and layout
// ---------------------------------------------------------------------------

#[derive(Clone, Copy, Debug, PartialEq, Eq, Structural)]
pub struct KerningRecord {
    pub left: u16,
    pub right: u16,
    pub adjustment: i16,
}

impl DeepView for KerningRecord {
    type V = KerningRecord;
    open spec fn deep_view(&self) -> KerningRecord { *self }
}

pub open spec fn spec_kerning_record(s: Seq<u8>) -> SpecResult<KerningRecord> {
    sbind(spec_complete(spec_le_u16(s)), |left: u16, s1: Seq<u8>|
    sbind(spec_complete(spec_le_u16(s1)), |right: u16, s2: Seq<u8>|
    sbind(spec_complete(spec_le_i16(s2)), |adjustment: i16, s3: Seq<u8>|
        Ok((KerningRecord { left, right, adjustment }, s3)))))
}

pub fn parse_kerning_record(input: &[u8]) -> (r: PResult<KerningRecord>)
    ensures
        parsed_as(r, spec_kerning_record(input@)),
{
    let (input, left) = parse_le_u16_c(input)?;
    let (input, right) = parse_le_u16_c(input)?;
    let (input, adjustment) = parse_le_i16_c(input)?;
    Ok((input, KerningRecord { left, right, adjustment }))
}

/// `count` consecutive little-endian `u16` values of a complete input.
pub open spec fn spec_le_u16_list(s: Seq<u8>, count: nat) -> SpecResult<Seq<u16>>
    decreases count,
{
    if count == 0 {
        Ok((Seq::empty(), s))
    } else {
        sbind(spec_le_u16_list(s, (count - 1) as nat), |vs: Seq<u16>, s1: Seq<u8>|
        sbind(u16_c(s1), |v: u16, s2: Seq<u8>| Ok((vs.push(v), s2))))
    }
}

proof fn lemma_le_u16_list_err(s: Seq<u8>, k: nat, count: nat)
    requires
        k <= count,
        spec_le_u16_list(s, k) is Err,
    ensures
        spec_le_u16_list(s, count) == spec_le_u16_list(s, k),
    decreases count - k,
{
    if k < count {
        lemma_le_u16_list_err(s, k, (count - 1) as nat);
    }
}

pub fn parse_le_u16_list(input: &[u8], count: usize) -> (r: PResult<Vec<u16>>)
    ensures
        parsed_as(r, spec_le_u16_list(input@, count as nat)),
{
    let mut out: Vec<u16> = Vec::new();
    assert(out.deep_view() =~= Seq::<u16>::empty());
    let mut cur: &[u8] = input;
    let mut k: usize = 0;
    while k < count
        invariant
            k <= count,
            spec_le_u16_list(input@, k as nat) == Ok::<_, ParseError>((out.deep_view(), cur@)),
        decreases count - k,
    {
        match parse_le_u16_c(cur) {
            Ok((next, v)) => {
                let ghost old_out = out.deep_view();
                out.push(v);
                assert(out.deep_view() =~= old_out.push(v.deep_view()));
                cur = next;
            },
            Err(e) => {
                proof { lemma_le_u16_list_err(input@, (k + 1) as nat, count as nat); }
                return Err(e);
            },
        }
        k = k + 1;
    }
    Ok((cur, out))
}

/// `count` consecutive rectangles.
pub open spec fn spec_rect_list(s: Seq<u8>, count: nat) -> SpecResult<Seq<Rect>>
    decreases count,
{
    if count == 0 {
        Ok((Seq::empty(), s))
    } else {
        sbind(spec_rect_list(s, (count - 1) as nat), |vs: Seq<Rect>, s1: Seq<u8>|
        sbind(spec_rect(s1), |v: Rect, s2: Seq<u8>| Ok((vs.push(v), s2))))
    }
}

proof fn lemma_rect_list_err(s: Seq<u8>, k: nat, count: nat)
    requires
        k <= count,
        spec_rect_list(s, k) is Err,
    ensures
        spec_rect_list(s, count) == spec_rect_list(s, k),
    decreases count - k,
{
    if k < count {
        lemma_rect_list_err(s, k, (count - 1) as nat);
    }
}

pub fn parse_rect_list(input: &[u8], count: usize) -> (r: PResult<Vec<Rect>>)
    ensures
        parsed_as(r, spec_rect_list(input@, count as nat)),
{
    let mut out: Vec<Rect> = Vec::new();
    assert(out.deep_view() =~= Seq::<Rect>::empty());
    let mut cur: &[u8] = input;
    let mut k: usize = 0;
    while k < count
        invariant
            k <= count,
            spec_rect_list(input@, k as nat) == Ok::<_, ParseError>((out.deep_view(), cur@)),
        decreases count - k,
    {
        match parse_rect(cur) {
            Ok((next, v)) => {
                let ghost old_out = out.deep_view();
                out.push(v);
                assert(out.deep_view() =~= old_out.push(v.deep_view()));
                cur = next;
            },
            Err(e) => {
                proof { lemma_rect_list_err(input@, (k + 1) as nat, count as nat); }
                return Err(e);
            },
        }
        k = k + 1;
    }
    Ok((cur, out))
}

/// `count` consecutive kerning records.
pub open spec fn spec_kerning_list(s: Seq<u8>, count: nat) -> SpecResult<Seq<KerningRecord>>
    decreases count,
{
    if count == 0 {
        Ok((Seq::empty(), s))
    } else {
        sbind(spec_kerning_list(s, (count - 1) as nat), |vs: Seq<KerningRecord>, s1: Seq<u8>|
        sbind(spec_kerning_record(s1), |v: KerningRecord, s2: Seq<u8>| Ok((vs.push(v), s2))))
    }
}

proof fn lemma_kerning_list_err(s: Seq<u8>, k: nat, count: nat)
    requires
        k <= count,
        spec_kerning_list(s, k) is Err,
    ensures
        spec_kerning_list(s, count) == spec_kerning_list(s, k),
    decreases count - k,
{
    if k < count {
        lemma_kerning_list_err(s, k, (count - 1) as nat);
    }
}

pub fn parse_kerning_list(input: &[u8], count: usize) -> (r: PResult<Vec<KerningRecord>>)
    ensures
        parsed_as(r, spec_kerning_list(input@, count as nat)),
{
    let mut out: Vec<KerningRecord> = Vec::new();
    assert(out.deep_view() =~= Seq::<KerningRecord>::empty());
    let mut cur: &[u8] = input;
    let mut k: usize = 0;
    while k < count
        invariant
            k <= count,
            spec_kerning_list(input@, k as nat) == Ok::<_, ParseError>((out.deep_view(), cur@)),
        decreases count - k,
    {
        match parse_kerning_record(cur) {
            Ok((next, v)) => {
                let ghost old_out = out.deep_view();
                out.push(v);
                assert(out.deep_view() =~= old_out.push(v.deep_view()));
                cur = next;
            },
            Err(e) => {
                proof { lemma_kerning_list_err(input@, (k + 1) as nat, count as nat); }
                return Err(e);
            },
        }
        k = k + 1;
    }
    Ok((cur, out))
}


/// Metrics of a font with `glyph_count` glyphs.
#[derive(Clone, Debug, PartialEq, Eq)]
pub struct FontLayout {
    pub ascent: u16,
    pub descent: u16,
    pub leading: u16,
    pub advances: Vec<u16>,
    pub bounds: Vec<Rect>,
    pub kerning: Vec<KerningRecord>,
}

pub struct FontLayoutModel {
    pub ascent: u16,
    pub descent: u16,
    pub leading: u16,
    pub advances: Seq<u16>,
    pub bounds: Seq<Rect>,
    pub kerning: Seq<KerningRecord>,
}

impl DeepView for FontLayout {
    type V = FontLayoutModel;
    open spec fn deep_view(&self) -> FontLayoutModel {
        FontLayoutModel {
            ascent: self.ascent,
            descent: self.descent,
            leading: self.leading,
            advances: self.advances.deep_view(),
            bounds: self.bounds.deep_view(),
            kerning: self.kerning.deep_view(),
        }
    }
}

/// `layout : UINT16_LE{3} UINT16_LE{glyph_count} rect{glyph_count} UINT16_LE(n) kerning{n}`.
pub open spec fn spec_font_layout(s: Seq<u8>, glyph_count: nat) -> SpecResult<FontLayoutModel> {
    sbind(u16_c(s), |ascent: u16, s1: Seq<u8>|
    sbind(u16_c(s1), |descent: u16, s2: Seq<u8>|
    sbind(u16_c(s2), |leading: u16, s3: Seq<u8>|
    sbind(spec_le_u16_list(s3, glyph_count), |advances: Seq<u16>, s4: Seq<u8>|
    sbind(spec_rect_list(s4, glyph_count), |bounds: Seq<Rect>, s5: Seq<u8>|
    sbind(u16_c(s5), |kerning_count: u16, s6: Seq<u8>|
    sbind(spec_kerning_list(s6, kerning_count as nat), |kerning: Seq<KerningRecord>, s7: Seq<u8>|
        Ok((FontLayoutModel { ascent, descent, leading, advances, bounds, kerning }, s7)))))))))
}

pub fn parse_font_layout(input: &[u8], glyph_count: usize) -> (r: PResult<FontLayout>)
    ensures
        parsed_as(r, spec_font_layout(input@, glyph_count as nat)),
{
    let (input, ascent) = parse_le_u16_c(input)?;
    let (input, descent) = parse_le_u16_c(input)?;
    let (input, leading) = parse_le_u16_c(input)?;
    let (input, advances) = parse_le_u16_list(input, glyph_count)?;
    let (input, bounds) = parse_rect_list(input, glyph_count)?;
    let (input, kerning_count) = parse_le_u16_c(input)?;
    let (input, kerning) = parse_kerning_list(input, kerning_count as usize)?;
    Ok((input, FontLayout { ascent, descent, leading, advances, bounds, kerning }))
}

// ---------------------------------------------------------------------------
// Text records
// ---------------------------------------------------------------------------

/// A glyph of a text record: its index in the font and the advance to the next one.
#[derive(Clone, Copy, Debug, PartialEq, Eq, Structural)]
pub struct GlyphEntry {
    pub index: usize,
    pub advance: i32,
}

impl DeepView for GlyphEntry {
    type V = GlyphEntry;
    open spec fn deep_view(&self) -> GlyphEntry { *self }
}

pub open spec fn spec_glyph_entry_bits(s: Seq<u8>, bp: int, index_bits: nat, advance_bits: nat)
    -> SpecBitsResult<GlyphEntry>
{
    match spec_u32_bits(s, bp, index_bits) {
        Err(e) => Err(e),
        Ok((index, (s1, b1))) => match spec_i32_bits(s1, b1, advance_bits) {
            Err(e) => Err(e),
            Ok((advance, st)) => Ok((GlyphEntry { index: index as usize, advance }, st)),
        },
    }
}

pub fn parse_glyph_entry(input: (&[u8], usize), index_bits: usize, advance_bits: usize)
    -> (r: BResult<GlyphEntry>)
    requires
        bit_input_ok(input.0@, input.1 as int),
        index_bits <= 32,
        advance_bits <= 32,
    ensures
        bits_parsed_as(r, spec_glyph_entry_bits(input.0@, input.1 as int, index_bits as nat, advance_bits as nat)),
        bits_out_ok(r),
{
    let (st, index) = parse_u32_bits(input, index_bits)?;
    let (st, advance) = parse_i32_bits(st, advance_bits)?;
    Ok((st, GlyphEntry { index: index as usize, advance }))
}

/// `count` consecutive glyph entries.
pub open spec fn spec_glyph_entries_bits(
    s: Seq<u8>,
    bp: int,
    count: nat,
    index_bits: nat,
    advance_bits: nat,
) -> SpecBitsResult<Seq<GlyphEntry>>
    decreases count,
{
    if count == 0 {
        Ok((Seq::empty(), (s, bp)))
    } else {
        match spec_glyph_entries_bits(s, bp, (count - 1) as nat, index_bits, advance_bits) {
            Err(e) => Err(e),
            Ok((vs, (s1, b1))) => match spec_glyph_entry_bits(s1, b1, index_bits, advance_bits) {
                Err(e) => Err(e),
                Ok((v, st)) => Ok((vs.push(v), st)),
            },
        }
    }
}

proof fn lemma_glyph_entries_err(s: Seq<u8>, bp: int, k: nat, count: nat, ib: nat, ab: nat)
    requires
        k <= count,
        spec_glyph_entries_bits(s, bp, k, ib, ab) is Err,
    ensures
        spec_glyph_entries_bits(s, bp, count, ib, ab) == spec_glyph_entries_bits(s, bp, k, ib, ab),
    decreases count - k,
{
    if k < count {
        lemma_glyph_entries_err(s, bp, k, (count - 1) as nat, ib, ab);
    }
}

pub fn parse_glyph_entries(
    input: (&[u8], usize),
    entry_count: u8,
    index_bits: usize,
    advance_bits: usize,
) -> (r: BResult<Vec<GlyphEntry>>)
    requires
        bit_input_ok(input.0@, input.1 as int),
        index_bits <= 32,
        advance_bits <= 32,
    ensures
        bits_parsed_as(r, spec_glyph_entries_bits(input.0@, input.1 as int, entry_count as nat, index_bits as nat, advance_bits as nat)),
        bits_out_ok(r),
{
    let mut out: Vec<GlyphEntry> = Vec::new();
    assert(out.deep_view() =~= Seq::<GlyphEntry>::empty());
    let mut cur: (&[u8], usize) = input;
    let mut k: u8 = 0;
    while k < entry_count
        invariant
            k <= entry_count,
            bit_input_ok(cur.0@, cur.1 as int),
            index_bits <= 32,
            advance_bits <= 32,
            spec_glyph_entries_bits(input.0@, input.1 as int, k as nat, index_bits as nat, advance_bits as nat)
                == Ok::<_, ParseError>((out.deep_view(), (cur.0@, cur.1 as int))),
        decreases entry_count - k,
    {
        match parse_glyph_entry(cur, index_bits, advance_bits) {
            Ok((next, v)) => {
                let ghost old_out = out.deep_view();
                out.push(v);
                assert(out.deep_view() =~= old_out.push(v));
                cur = next;
            },
            Err(e) => {
                proof {
                    lemma_glyph_entries_err(input.0@, input.1 as int, (k + 1) as nat, entry_count as nat,
                        index_bits as nat, advance_bits as nat);
                }
                return Err(e);
            },
        }
        k = k + 1;
    }
    Ok((cur, out))
}

/// A run of glyphs with its font, color and position.
#[derive(Clone, Debug, PartialEq, Eq)]
pub struct TextRecord {
    pub font_id: Option<u16>,
    pub color: Option<StraightSRgba8>,
    pub offset_x: i16,
    pub offset_y: i16,
    pub font_size: Option<u16>,
    pub entries: Vec<GlyphEntry>,
}

pub struct TextRecordModel {
    pub font_id: Option<u16>,
    pub color: Option<StraightSRgba8>,
    pub offset_x: i16,
    pub offset_y: i16,
    pub font_size: Option<u16>,
    pub entries: Seq<GlyphEntry>,
}

impl DeepView for TextRecord {
    type V = TextRecordModel;
    open spec fn deep_view(&self) -> TextRecordModel {
        TextRecordModel {
            font_id: self.font_id,
            color: self.color,
            offset_x: self.offset_x,
            offset_y: self.offset_y,
            font_size: self.font_size,
            entries: self.entries.deep_view(),
        }
    }
}

/// The color of a text record: with alpha, or opaque.
pub open spec fn spec_text_color(s: Seq<u8>, has_alpha: bool) -> SpecResult<StraightSRgba8> {
    if has_alpha {
        spec_straight_s_rgba8(s)
    } else {
        sbind(spec_s_rgb8(s), |c: SRgb8, s1: Seq<u8>|
            Ok((StraightSRgba8 { r: c.r, g: c.g, b: c.b, a: 255 }, s1)))
    }
}

fn parse_text_color(input: &[u8], has_alpha: bool) -> (r: PResult<StraightSRgba8>)
    ensures
        parsed_as(r, spec_text_color(input@, has_alpha)),
{
    if has_alpha {
        parse_straight_s_rgba8(input)
    } else {
        let (input, c) = parse_s_rgb8(input)?;
        Ok((input, StraightSRgba8 { r: c.r, g: c.g, b: c.b, a: 255 }))
    }
}


/// `textRecord : UINT8(flags) [UINT16_LE(font)] [color] [SINT16_LE(x)] [SINT16_LE(y)]
/// [UINT16_LE(size)] UINT8(count) glyphEntry{count}`. The flags, from the low bit up,
/// announce the x offset, the y offset, the color and the font (with its size); the
/// glyph entries are bit fields, padded to a whole byte.
pub open spec fn spec_text_record(s: Seq<u8>, has_alpha: bool, index_bits: nat, advance_bits: nat)
    -> SpecResult<TextRecordModel>
{
    sbind(spec_complete(spec_u8(s)), |flags: u8, s1: Seq<u8>|
    sbind(sopt(flags & 8u8 != 0, s1, u16_c(s1)), |font_id: Option<u16>, s2: Seq<u8>|
    sbind(sopt(flags & 4u8 != 0, s2, spec_text_color(s2, has_alpha)), |color: Option<StraightSRgba8>, s3: Seq<u8>|
    sbind(sopt(flags & 1u8 != 0, s3, i16_c(s3)), |offset_x: Option<i16>, s4: Seq<u8>|
    sbind(sopt(flags & 2u8 != 0, s4, i16_c(s4)), |offset_y: Option<i16>, s5: Seq<u8>|
    sbind(sopt(flags & 8u8 != 0, s5, u16_c(s5)), |font_size: Option<u16>, s6: Seq<u8>|
    sbind(spec_complete(spec_u8(s6)), |count: u8, s7: Seq<u8>|
    sbind(spec_from_bits(spec_glyph_entries_bits(s7, 0, count as nat, index_bits, advance_bits)),
        |entries: Seq<GlyphEntry>, s8: Seq<u8>|
        Ok((TextRecordModel {
            font_id,
            color,
            offset_x: match offset_x { Some(x) => x, None => 0 },
            offset_y: match offset_y { Some(y) => y, None => 0 },
            font_size,
            entries,
        }, s8))))))))))
}

pub fn parse_text_record(input: &[u8], has_alpha: bool, index_bits: usize, advance_bits: usize)
    -> (r: PResult<TextRecord>)
    requires
        index_bits <= 32,
        advance_bits <= 32,
    ensures
        parsed_as(r, spec_text_record(input@, has_alpha, index_bits as nat, advance_bits as nat)),
{
    let (input, flags) = parse_u8_c(input)?;
    let has_offset_x = flags & 1u8 != 0;
    let has_offset_y = flags & 2u8 != 0;
    let has_color = flags & 4u8 != 0;
    let has_font = flags & 8u8 != 0;
    // Bits 4 to 7 are skipped.
    let (input, font_id) = if has_font {
        let (input, v) = parse_le_u16_c(input)?;
        (input, Some(v))
    } else {
        (input, None)
    };
    let (input, color) = if has_color {
        let (input, c) = parse_text_color(input, has_alpha)?;
        (input, Some(c))
    } else {
        (input, None)
    };
    let (input, offset_x) = if has_offset_x {
        let (input, v) = parse_le_i16_c(input)?;
        (input, Some(v))
    } else {
        (input, None)
    };
    let (input, offset_y) = if has_offset_y {
        let (input, v) = parse_le_i16_c(input)?;
        (input, Some(v))
    } else {
        (input, None)
    };
    let (input, font_size) = if has_font {
        let (input, v) = parse_le_u16_c(input)?;
        (input, Some(v))
    } else {
        (input, None)
    };
    let (input, entry_count) = parse_u8_c(input)?;
    let (input, entries) = match parse_glyph_entries((input, 0), entry_count, index_bits, advance_bits) {
        Ok(((rest, pos), v)) => (bits_to_bytes(rest, pos), v),
        Err(e) => return Err(bits_error_to_bytes(e)),
    };
    Ok((
        input,
        TextRecord {
            font_id,
            color,
            offset_x: match offset_x { Some(x) => x, None => 0 },
            offset_y: match offset_y { Some(y) => y, None => 0 },
            font_size,
            entries,
        },
    ))
}

/// Text records up to a null byte, which is consumed. An input that ends before the
/// null byte is incomplete.
pub open spec fn spec_text_record_string(s: Seq<u8>, has_alpha: bool, index_bits: nat, advance_bits: nat)
    -> SpecResult<Seq<TextRecordModel>>
    decreases s.len(),
{
    if s.len() == 0 {
        Err(ParseError::Incomplete(Needed::Unknown))
    } else if s[0] == 0 {
        Ok((Seq::empty(), s.skip(1)))
    } else {
        match spec_text_record(s, has_alpha, index_bits, advance_bits) {
            Err(e) => Err(e),
            Ok((rec, rest)) => if rest.len() < s.len() {
                match spec_text_record_string(rest, has_alpha, index_bits, advance_bits) {
                    Err(e) => Err(e),
                    Ok((others, rest2)) => Ok((seq![rec] + others, rest2)),
                }
            } else {
                Err(ParseError::Error)
            },
        }
    }
}

/// `r` with `prefix` put in front of its records.
pub open spec fn prefixed(prefix: Seq<TextRecordModel>, r: SpecResult<Seq<TextRecordModel>>)
    -> SpecResult<Seq<TextRecordModel>>
{
    match r {
        Ok((others, rest)) => Ok((prefix + others, rest)),
        Err(e) => Err(e),
    }
}

pub fn parse_text_record_string(input: &[u8], has_alpha: bool, index_bits: usize, advance_bits: usize)
    -> (r: PResult<Vec<TextRecord>>)
    requires
        index_bits <= 32,
        advance_bits <= 32,
    ensures
        parsed_as(r, spec_text_record_string(input@, has_alpha, index_bits as nat, advance_bits as nat)),
{
    let ghost ib = index_bits as nat;
    let ghost ab = advance_bits as nat;
    let mut result: Vec<TextRecord> = Vec::new();
    let mut cur: &[u8] = input;
    assert(Seq::<TextRecordModel>::empty() + Seq::<TextRecordModel>::empty() =~= Seq::<TextRecordModel>::empty());
    assert(prefixed(result.deep_view(), spec_text_record_string(cur@, has_alpha, ib, ab))
        =~~= spec_text_record_string(input@, has_alpha, ib, ab)) by {
        assert(result.deep_view() =~= Seq::<TextRecordModel>::empty());
        match spec_text_record_string(input@, has_alpha, ib, ab) {
            Ok((o, rest)) => { assert(Seq::<TextRecordModel>::empty() + o =~= o); },
            Err(_) => {},
        }
    }
    while cur.len() > 0
        invariant
            index_bits <= 32,
            advance_bits <= 32,
            ib == index_bits as nat,
            ab == advance_bits as nat,
            prefixed(result.deep_view(), spec_text_record_string(cur@, has_alpha, ib, ab))
                == spec_text_record_string(input@, has_alpha, ib, ab),
        decreases cur@.len(),
    {
        if cur[0] == 0 {
            let rest = slice_subrange(cur, 1, cur.len());
            proof {
                assert(spec_text_record_string(cur@, has_alpha, ib, ab)
                    == Ok::<_, ParseError>((Seq::<TextRecordModel>::empty(), cur@.skip(1))));
                assert(result.deep_view() + Seq::<TextRecordModel>::empty() =~= result.deep_view());
            }
            return Ok((rest, result));
        }
        match parse_text_record(cur, has_alpha, index_bits, advance_bits) {
            Ok((next, rec)) => {
                if next.len() >= cur.len() {
                    return Err(ParseError::Error);
                }
                proof {
                    let old_out = result.deep_view();
                    assert(cur@[0] != 0);
                    assert(spec_text_record_string(cur@, has_alpha, ib, ab)
                        == prefixed(seq![rec.deep_view()], spec_text_record_string(next@, has_alpha, ib, ab)));
                    match spec_text_record_string(next@, has_alpha, ib, ab) {
                        Ok((o, rest)) => {
                            assert(old_out + (seq![rec.deep_view()] + o) =~= old_out.push(rec.deep_view()) + o);
                        },
                        Err(_) => {},
                    }
                }
                let ghost old_out = result.deep_view();
                let ghost rm = rec.deep_view();
                result.push(rec);
                assert(result.deep_view() =~= old_out.push(rm));
                cur = next;
            },
            Err(e) => {
                return Err(e);
            },
        }
    }
    Err(ParseError::Incomplete(Needed::Unknown))
}

// ---------------------------------------------------------------------------
// Glyph tables
// ---------------------------------------------------------------------------

/// One offset of a glyph table: a `u32` when offsets are wide, else a `u16`.
pub open spec fn spec_glyph_offset(s: Seq<u8>, wide: bool) -> SpecResult<u32> {
    if wide {
        spec_complete(spec_le_u32(s))
    } else {
        sbind(u16_c(s), |v: u16, s1: Seq<u8>| Ok((v as u32, s1)))
    }
}

fn parse_glyph_offset(input: &[u8], wide: bool) -> (r: PResult<u32>)
    ensures
        parsed_as(r, spec_glyph_offset(input@, wide)),
{
    if wide {
        parse_le_u32_c(input)
    } else {
        let (input, v) = parse_le_u16_c(input)?;
        Ok((input, v as u32))
    }
}

/// `count` consecutive glyph offsets.
pub open spec fn spec_glyph_offsets(s: Seq<u8>, count: nat, wide: bool) -> SpecResult<Seq<u32>>
    decreases count,
{
    if count == 0 {
        Ok((Seq::empty(), s))
    } else {
        sbind(spec_glyph_offsets(s, (count - 1) as nat, wide), |vs: Seq<u32>, s1: Seq<u8>|
        sbind(spec_glyph_offset(s1, wide), |v: u32, s2: Seq<u8>| Ok((vs.push(v), s2))))
    }
}

proof fn lemma_glyph_offsets_err(s: Seq<u8>, k: nat, count: nat, wide: bool)
    requires
        k <= count,
        spec_glyph_offsets(s, k, wide) is Err,
    ensures
        spec_glyph_offsets(s, count, wide) == spec_glyph_offsets(s, k, wide),
    decreases count - k,
{
    if k < count {
        lemma_glyph_offsets_err(s, k, (count - 1) as nat, wide);
    }
}

pub fn parse_glyph_offsets(input: &[u8], count: usize, wide: bool) -> (r: PResult<Vec<u32>>)
    ensures
        parsed_as(r, spec_glyph_offsets(input@, count as nat, wide)),
{
    let mut out: Vec<u32> = Vec::new();
    assert(out.deep_view() =~= Seq::<u32>::empty());
    let mut cur: &[u8] = input;
    let mut k: usize = 0;
    while k < count
        invariant
            k <= count,
            spec_glyph_offsets(input@, k as nat, wide) == Ok::<_, ParseError>((out.deep_view(), cur@)),
        decreases count - k,
    {
        match parse_glyph_offset(cur, wide) {
            Ok((next, v)) => {
                let ghost old_out = out.deep_view();
                out.push(v);
                assert(out.deep_view() =~= old_out.push(v));
                cur = next;
            },
            Err(e) => {
                proof { lemma_glyph_offsets_err(input@, (k + 1) as nat, count as nat, wide); }
                return Err(e);
            },
        }
        k = k + 1;
    }
    Ok((cur, out))
}

/// Glyph `i` of a table of `n` glyphs read from `s`: its bytes run from its offset to
/// the next offset, or to `end` for the last glyph. Bounds out of order or past the input are
/// refused.
pub open spec fn spec_table_glyph(s: Seq<u8>, offsets: Seq<u32>, end: int, n: nat, i: int)
    -> Result<Seq<ShapeRecordModel>, ParseError>
{
    let start = offsets[i] as int;
    let stop = if i + 1 < n { offsets[i + 1] as int } else { end };
    if stop < start || stop > s.len() {
        Err(ParseError::Error)
    } else {
        match spec_glyph(s.subrange(start, stop)) {
            Ok((g, _)) => Ok(g),
            Err(e) => Err(e),
        }
    }
}

/// The first `k` glyphs of a table.
pub open spec fn spec_table_glyphs(s: Seq<u8>, offsets: Seq<u32>, end: int, n: nat, k: nat)
    -> Result<Seq<Seq<ShapeRecordModel>>, ParseError>
    decreases k,
{
    if k == 0 {
        Ok(Seq::empty())
    } else {
        match spec_table_glyphs(s, offsets, end, n, (k - 1) as nat) {
            Err(e) => Err(e),
            Ok(gs) => match spec_table_glyph(s, offsets, end, n, k - 1) {
                Err(e) => Err(e),
                Ok(g) => Ok(gs.push(g)),
            },
        }
    }
}

proof fn lemma_table_glyphs_err(s: Seq<u8>, offsets: Seq<u32>, end: int, n: nat, k: nat, count: nat)
    requires
        k <= count,
        spec_table_glyphs(s, offsets, end, n, k) is Err,
    ensures
        spec_table_glyphs(s, offsets, end, n, count) == spec_table_glyphs(s, offsets, end, n, k),
    decreases count - k,
{
    if k < count {
        lemma_table_glyphs_err(s, offsets, end, n, k, (count - 1) as nat);
    }
}

/// Reads the `n` glyphs of a table whose offsets are known.
pub fn parse_table_glyphs(input: &[u8], offsets: &Vec<u32>, end: usize, n: usize)
    -> (r: Result<Vec<Glyph>, ParseError>)
    requires
        n <= offsets@.len(),
    ensures
        match (r, spec_table_glyphs(input@, offsets@, end as int, n as nat, n as nat)) {
            (Ok(gs), Ok(ms)) => gs.deep_view() == ms,
            (Err(e1), Err(e2)) => e1 == e2,
            _ => false,
        },
{
    let mut glyphs: Vec<Glyph> = Vec::new();
    assert(glyphs.deep_view() =~= Seq::<Seq<ShapeRecordModel>>::empty());
    let mut i: usize = 0;
    while i < n
        invariant
            i <= n,
            n <= offsets@.len(),
            spec_table_glyphs(input@, offsets@, end as int, n as nat, i as nat)
                == Ok::<_, ParseError>(glyphs.deep_view()),
        decreases n - i,
    {
        let start: usize = offsets[i] as usize;
        let stop: usize = if i + 1 < n { offsets[i + 1] as usize } else { end };
        if stop < start || stop > input.len() {
            proof { lemma_table_glyphs_err(input@, offsets@, end as int, n as nat, (i + 1) as nat, n as nat); }
            return Err(ParseError::Error);
        }
        let glyph_input = slice_subrange(input, start, stop);
        match parse_glyph(glyph_input) {
            Ok((_, g)) => {
                let ghost old_gs = glyphs.deep_view();
                glyphs.push(g);
                assert(glyphs.deep_view() =~= old_gs.push(g.deep_view()));
            },
            Err(e) => {
                proof { lemma_table_glyphs_err(input@, offsets@, end as int, n as nat, (i + 1) as nat, n as nat); }
                return Err(e);
            },
        }
        i = i + 1;
    }
    Ok(glyphs)
}

/// A glyph table with `glyph_count` entries: the offsets (from the start of the
/// table), the offset of the end of the last glyph, the glyphs; the input left is what
/// follows the end offset.
pub open spec fn spec_offset_glyphs(s: Seq<u8>, glyph_count: nat, wide: bool)
    -> SpecResult<Seq<Seq<ShapeRecordModel>>>
{
    match spec_glyph_offsets(s, glyph_count, wide) {
        Err(e) => Err(e),
        Ok((offsets, s1)) => match spec_glyph_offset(s1, wide) {
            Err(e) => Err(e),
            Ok((end, _)) => match spec_table_glyphs(s, offsets, end as int, glyph_count, glyph_count) {
                Err(e) => Err(e),
                Ok(glyphs) => if end <= s.len() {
                    Ok((glyphs, s.skip(end as int)))
                } else {
                    Err(ParseError::Error)
                },
            },
        },
    }
}

pub fn parse_offset_glyphs(input: &[u8], glyph_count: usize, use_wide_offsets: bool)
    -> (r: PResult<Vec<Glyph>>)
    ensures
        parsed_as(r, spec_offset_glyphs(input@, glyph_count as nat, use_wide_offsets)),
{
    let (after_offsets, offsets) = parse_glyph_offsets(input, glyph_count, use_wide_offsets)?;
    let (_, end_offset) = parse_glyph_offset(after_offsets, use_wide_offsets)?;
    proof {
        assert(offsets@.len() == glyph_count) by {
            lemma_glyph_offsets_len(input@, glyph_count as nat, use_wide_offsets);
        }
        assert(offsets@ =~= offsets.deep_view());
    }
    let glyphs = parse_table_glyphs(input, &offsets, end_offset as usize, glyph_count)?;
    let (rest, ()) = skip_c(input, end_offset as usize)?;
    Ok((rest, glyphs))
}

pub proof fn lemma_glyph_offsets_len(s: Seq<u8>, count: nat, wide: bool)
    ensures
        spec_glyph_offsets(s, count, wide) matches Ok((vs, _)) ==> vs.len() == count,
    decreases count,
{
    if count > 0 {
        lemma_glyph_offsets_len(s, (count - 1) as nat, wide);
    }
}

} // verus!

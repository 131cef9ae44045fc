//! Image signatures and dimensions (JPEG, PNG, GIF).
use vstd::prelude::*;
use vstd::slice::slice_subrange;
use crate::bytes::{be_u16_value, be_u32_value};

verus! {

/// Width and height of an image, in pixels.
#[derive(Clone, Copy, Debug, PartialEq, Eq, Structural)]
pub struct ImageDimensions {
    pub width: usize,
    pub height: usize,
}

pub open spec fn png_start() -> Seq<u8> {
    seq![0x89u8, 0x50, 0x4e, 0x47, 0x0d, 0x0a, 0x1a, 0x0a]
}

pub open spec fn gif_start() -> Seq<u8> {
    seq![0x47u8, 0x49, 0x46, 0x38, 0x39, 0x61]
}

pub open spec fn jpeg_start() -> Seq<u8> {
    seq![0xffu8, 0xd8]
}

pub open spec fn erroneous_jpeg_start() -> Seq<u8> {
    seq![0xffu8, 0xd9, 0xff, 0xd8, 0xff, 0xd8]
}

/// `data` begins with `start`.
pub open spec fn starts_with(data: Seq<u8>, start: Seq<u8>) -> bool {
    data.len() >= start.len() && data.take(start.len() as int) == start
}

/// Tests if `image_data` starts with `start_bytes`.
pub fn test_image_start(image_data: &[u8], start_bytes: &[u8]) -> (r: bool)
    ensures
        r == starts_with(image_data@, start_bytes@),
{
    if image_data.len() < start_bytes.len() {
        return false;
    }
    let mut i: usize = 0;
    while i < start_bytes.len()
        invariant
            i <= start_bytes@.len() <= image_data@.len(),
            forall|j: int| 0 <= j < i ==> image_data@[j] == start_bytes@[j],
        decreases start_bytes@.len() - i,
    {
        if image_data[i] != start_bytes[i] {
            assert(image_data@.take(start_bytes@.len() as int)[i as int] != start_bytes@[i as int]);
            return false;
        }
        i = i + 1;
    }
    assert(image_data@.take(start_bytes@.len() as int) =~= start_bytes@);
    true
}

pub fn is_sniffed_png(image_data: &[u8]) -> (r: bool)
    ensures
        r == starts_with(image_data@, png_start()),
{
    let sig: [u8; 8] = [0x89, 0x50, 0x4e, 0x47, 0x0d, 0x0a, 0x1a, 0x0a];
    let sig_slice: &[u8] = vstd::array::array_as_slice(&sig);
    assert(sig_slice@ =~= png_start());
    test_image_start(image_data, sig_slice)
}

pub fn is_sniffed_gif(image_data: &[u8]) -> (r: bool)
    ensures
        r == starts_with(image_data@, gif_start()),
{
    let sig: [u8; 6] = [0x47, 0x49, 0x46, 0x38, 0x39, 0x61];
    let sig_slice: &[u8] = vstd::array::array_as_slice(&sig);
    assert(sig_slice@ =~= gif_start());
    test_image_start(image_data, sig_slice)
}

/// JPEG start, or (when `allow_erroneous`) the erroneous header written by old SWF tools.
pub open spec fn sniffed_jpeg(data: Seq<u8>, allow_erroneous: bool) -> bool {
    starts_with(data, jpeg_start()) || (allow_erroneous && starts_with(data, erroneous_jpeg_start()))
}

pub fn is_sniffed_jpeg(image_data: &[u8], allow_erroneous: bool) -> (r: bool)
    ensures
        r == sniffed_jpeg(image_data@, allow_erroneous),
{
    let sig: [u8; 2] = [0xff, 0xd8];
    let sig_slice: &[u8] = vstd::array::array_as_slice(&sig);
    assert(sig_slice@ =~= jpeg_start());
    if test_image_start(image_data, sig_slice) {
        return true;
    }
    if !allow_erroneous {
        return false;
    }
    let bad: [u8; 6] = [0xff, 0xd9, 0xff, 0xd8, 0xff, 0xd8];
    let bad_slice: &[u8] = vstd::array::array_as_slice(&bad);
    assert(bad_slice@ =~= erroneous_jpeg_start());
    test_image_start(image_data, bad_slice)
}

#[derive(Clone, Copy, Debug, PartialEq, Eq, Structural)]
pub enum SniffedImageType {
    Jpeg,
    Png,
    Gif,
}

pub open spec fn spec_sniff_image_type(data: Seq<u8>, allow_erroneous_jpeg: bool)
    -> Option<SniffedImageType>
{
    if sniffed_jpeg(data, allow_erroneous_jpeg) {
        Some(SniffedImageType::Jpeg)
    } else if starts_with(data, png_start()) {
        Some(SniffedImageType::Png)
    } else if starts_with(data, gif_start()) {
        Some(SniffedImageType::Gif)
    } else {
        None
    }
}

pub fn sniff_image_type(image_data: &[u8], allow_erroneous_jpeg: bool) -> (r: Result<SniffedImageType, ()>)
    ensures
        match spec_sniff_image_type(image_data@, allow_erroneous_jpeg) {
            Some(t) => r == Ok::<SniffedImageType, ()>(t),
            None => r is Err,
        },
{
    if is_sniffed_jpeg(image_data, allow_erroneous_jpeg) {
        Ok(SniffedImageType::Jpeg)
    } else if is_sniffed_png(image_data) {
        Ok(SniffedImageType::Png)
    } else if is_sniffed_gif(image_data) {
        Ok(SniffedImageType::Gif)
    } else {
        Err(())
    }
}

/// Chunk type of the PNG image header chunk (`IHDR`).
pub open spec fn png_ihdr() -> int {
    0x49484452
}

/// PNG: 8-byte signature, 4-byte chunk size, `IHDR` chunk type, then big-endian width and height.
pub open spec fn spec_png_dimensions(s: Seq<u8>) -> Option<ImageDimensions> {
    if s.len() >= 16 && be_u32_value(s.skip(12)) == png_ihdr() && s.len() >= 24 {
        Some(ImageDimensions {
            width: be_u32_value(s.skip(16)) as usize,
            height: be_u32_value(s.skip(20)) as usize,
        })
    } else {
        None
    }
}

fn be_u32_at(s: &[u8], i: usize) -> (r: u32)
    requires
        i + 4 <= s@.len(),
    ensures
        r as int == be_u32_value(s@.skip(i as int)),
{
    16777216 * (s[i] as u32) + 65536 * (s[i + 1] as u32) + 256 * (s[i + 2] as u32) + s[i + 3] as u32
}

fn be_u16_at(s: &[u8], i: usize) -> (r: u16)
    requires
        i + 2 <= s@.len(),
    ensures
        r as int == be_u16_value(s@.skip(i as int)),
{
    256 * (s[i] as u16) + s[i + 1] as u16
}

/// Reads image properties from a byte stream with the content of a PNG image.
///
/// It trusts that the image has a valid PNG signature (first 8 bytes).
pub fn get_png_image_dimensions(input: &[u8]) -> (r: Result<ImageDimensions, ()>)
    ensures
        match spec_png_dimensions(input@) {
            Some(d) => r == Ok::<ImageDimensions, ()>(d),
            None => r is Err,
        },
{
    if input.len() < 16 {
        return Err(());
    }
    if be_u32_at(input, 12) != 0x49484452 {
        return Err(());
    }
    if input.len() < 24 {
        return Err(());
    }
    let width: u32 = be_u32_at(input, 16);
    let height: u32 = be_u32_at(input, 20);
    Ok(ImageDimensions { width: width as usize, height: height as usize })
}

/// GIF: 6-byte header, then width and height (read big-endian).
pub open spec fn spec_gif_dimensions(s: Seq<u8>) -> Option<ImageDimensions> {
    if s.len() >= 10 {
        Some(ImageDimensions {
            width: be_u16_value(s.skip(6)) as usize,
            height: be_u16_value(s.skip(8)) as usize,
        })
    } else {
        None
    }
}

pub fn get_gif_image_dimensions(input: &[u8]) -> (r: Result<ImageDimensions, ()>)
    ensures
        match spec_gif_dimensions(input@) {
            Some(d) => r == Ok::<ImageDimensions, ()>(d),
            None => r is Err,
        },
{
    if input.len() < 10 {
        return Err(());
    }
    let width: u16 = be_u16_at(input, 6);
    let height: u16 = be_u16_at(input, 8);
    Ok(ImageDimensions { width: width as usize, height: height as usize })
}

#[derive(Clone, Copy, Debug, PartialEq, Eq, Structural)]
pub enum JpegMarkerType {
    Standalone,
    Sequence,
}

/// JPEG marker type of a marker code; `None` for an escaped `0x00` and for padding `0xff`.
pub open spec fn spec_jpeg_marker_type(code: u8) -> Option<JpegMarkerType> {
    if code == 0x00 || code == 0xff {
        None
    } else if code == 0x01 || (0xd0 <= code && code <= 0xd9) {
        Some(JpegMarkerType::Standalone)
    } else {
        Some(JpegMarkerType::Sequence)
    }
}

/// Returns the JPEG marker type (standalone or sequence) for `code`.
pub fn get_jpeg_marker_type(code: u8) -> (r: Option<JpegMarkerType>)
    ensures
        r == spec_jpeg_marker_type(code),
{
    match code {
        0x00 => None,
        0x01 => Some(JpegMarkerType::Standalone),
        0xd0..=0xd9 => Some(JpegMarkerType::Standalone),
        0xff => None,
        _ => Some(JpegMarkerType::Sequence),
    }
}

/// Start of frame (SOFn) marker: `0b110000xx`.
pub open spec fn spec_is_jpeg_sof(code: u8) -> bool {
    0xc0 <= code && code <= 0xc3
}

/// Checks if the provided code corresponds to a Start of frame (SOFn) JPEG marker
pub fn is_jpeg_sof(code: u8) -> (r: bool)
    ensures
        r == spec_is_jpeg_sof(code),
{
    assert((code & 0xfc == 0xc0) == (0xc0 <= code && code <= 0xc3)) by (bit_vector);
    code & 0xfc == 0xc0
}

/// Index of the first marker at or after `i`: a `0xff` byte followed by a marker code.
pub open spec fn spec_find_marker(s: Seq<u8>, i: int) -> Option<int>
    decreases s.len() - i,
{
    if i < 0 || i + 1 >= s.len() {
        None
    } else if s[i] == 0xff && spec_jpeg_marker_type(s[i + 1]) is Some {
        Some(i)
    } else {
        spec_find_marker(s, i + 1)
    }
}

/// Next JPEG chunk: garbage before the marker is skipped; a standalone marker is a
/// 2-byte chunk, a sequence marker is followed by a big-endian size that counts itself
/// but not the marker.
/// `Ok((rest, None))` when no marker is left; `Err` when a sequence runs past the input.
pub open spec fn spec_next_jpeg_chunk(s: Seq<u8>) -> Result<(Seq<u8>, Option<Seq<u8>>), ()> {
    match spec_find_marker(s, 0) {
        None => Ok((Seq::empty(), None)),
        Some(i) => {
            let t = s.skip(i);
            match spec_jpeg_marker_type(s[i + 1]) {
                Some(JpegMarkerType::Standalone) => Ok((t.skip(2), Some(t.take(2)))),
                _ => {
                    let len = 2 + be_u16_value(t.skip(2));
                    if t.len() >= 4 && len <= t.len() {
                        Ok((t.skip(len), Some(t.take(len))))
                    } else {
                        Err(())
                    }
                },
            }
        },
    }
}

proof fn lemma_find_marker_bounds(s: Seq<u8>, i: int)
    ensures
        spec_find_marker(s, i) matches Some(k) ==> i <= k && k + 1 < s.len() && s[k] == 0xff
            && spec_jpeg_marker_type(s[k + 1]) is Some,
    decreases s.len() - i,
{
    if !(i < 0 || i + 1 >= s.len()) && !(s[i] == 0xff && spec_jpeg_marker_type(s[i + 1]) is Some) {
        lemma_find_marker_bounds(s, i + 1);
    }
}

/// Finds the next jpeg chunk (or marker/segment/sequence)
fn take_next_jpeg_chunk(input: &[u8]) -> (r: Result<(&[u8], Option<&[u8]>), ()>)
    ensures
        match (r, spec_next_jpeg_chunk(input@)) {
            (Ok((rest, chunk)), Ok((srest, schunk))) => rest@ == srest && match (chunk, schunk) {
                (Some(c), Some(sc)) => c@ == sc,
                (None, None) => true,
                _ => false,
            },
            (Err(_), Err(_)) => true,
            _ => false,
        },
{
    let mut search: usize = 0;
    while input.len() > 0 && search < input.len() - 1
        invariant
            search <= input@.len(),
            spec_find_marker(input@, 0) == spec_find_marker(input@, search as int),
        decreases input@.len() - search,
    {
        let marker_type: Option<JpegMarkerType> = if input[search] == 0xff {
            get_jpeg_marker_type(input[search + 1])
        } else {
            None
        };
        match marker_type {
            Some(marker_type) => {
                let t: &[u8] = slice_subrange(input, search, input.len());
                match marker_type {
                    JpegMarkerType::Standalone => {
                        return Ok((slice_subrange(t, 2, t.len()), Some(slice_subrange(t, 0, 2))));
                    },
                    JpegMarkerType::Sequence => {
                        if t.len() < 4 {
                            return Err(());
                        }
                        let size: u16 = be_u16_at(t, 2);
                        let len: usize = 2 + size as usize;
                        if len <= t.len() {
                            return Ok((slice_subrange(t, len, t.len()), Some(slice_subrange(t, 0, len))));
                        } else {
                            return Err(());
                        }
                    },
                }
            },
            None => {
                search = search + 1;
            },
        }
    }
    let empty: &[u8] = slice_subrange(input, 0, 0);
    assert(empty@ =~= Seq::<u8>::empty());
    Ok((empty, None))
}

proof fn lemma_next_chunk_progress(s: Seq<u8>)
    ensures
        spec_next_jpeg_chunk(s) matches Ok((rest, Some(c))) ==> rest.len() < s.len() && c.len() >= 2,
{
    lemma_find_marker_bounds(s, 0);
}

/// Dimensions from the first start-of-frame chunk of at least 9 bytes:
/// big-endian height at bytes 5-6 and width at bytes 7-8.
pub open spec fn spec_jpeg_dimensions(s: Seq<u8>) -> Option<ImageDimensions>
    decreases s.len(),
{
    match spec_next_jpeg_chunk(s) {
        Err(_) => None,
        Ok((_, None)) => None,
        Ok((rest, Some(chunk))) => if rest.len() < s.len() {
            if chunk.len() >= 9 && spec_is_jpeg_sof(chunk[1]) {
                Some(ImageDimensions {
                    width: be_u16_value(chunk.skip(7)) as usize,
                    height: be_u16_value(chunk.skip(5)) as usize,
                })
            } else {
                spec_jpeg_dimensions(rest)
            }
        } else {
            None
        },
    }
}

pub fn get_jpeg_image_dimensions(input: &[u8]) -> (r: Result<ImageDimensions, ()>)
    ensures
        match spec_jpeg_dimensions(input@) {
            Some(d) => r == Ok::<ImageDimensions, ()>(d),
            None => r is Err,
        },
{
    let mut cur: &[u8] = input;
    loop
        invariant
            spec_jpeg_dimensions(input@) == spec_jpeg_dimensions(cur@),
        decreases cur@.len(),
    {
        proof { lemma_next_chunk_progress(cur@); }
        let (next_input, chunk) = match take_next_jpeg_chunk(cur) {
            Ok(ok) => ok,
            Err(()) => {
                assert(spec_jpeg_dimensions(cur@) is None);
                return Err(());
            },
        };
        match chunk {
            Some(chunk) => {
                if chunk.len() >= 9 && is_jpeg_sof(chunk[1]) {
                    let frame_height: u16 = be_u16_at(chunk, 5);
                    let frame_width: u16 = be_u16_at(chunk, 7);
                    return Ok(ImageDimensions { width: frame_width as usize, height: frame_height as usize });
                }
                cur = next_input;
            },
            None => {
                assert(spec_jpeg_dimensions(cur@) is None);
                return Err(());
            },
        }
    }
}

} // verus!

use swf_parser::ast::{LanguageCode, StraightSRgba8};
use swf_parser::ast_tags::{Raw, Tag};
use swf_parser::button::{
    parse_button2_cond_action_string, parse_define_button2, ButtonCond, ButtonCondAction,
};
use swf_parser::image::{get_jpeg_image_dimensions, ImageDimensions};
use swf_parser::decompress::{decompress_lzma, decompress_zlib, DecompressError};
use swf_parser::display::BlendMode;
use swf_parser::error::{Needed, ParseError};
use swf_parser::morph_shape::{parse_define_morph_shape, MorphEdge, MorphShapeRecord};
use swf_parser::movie::{parse_swf, SwfParseError};
use swf_parser::shape::{Glyph, Vector2D};
use swf_parser::state::ParseState;
use swf_parser::stream_buffer::{FlatBuffer, StreamBuffer};
use swf_parser::streaming::{HeaderParser, HeaderParserError, TagParser};
use swf_parser::tag::{parse_tag, parse_tag_block_string, parse_tag_streaming, StreamingTagError};
use swf_parser::text::{
    parse_text_record_string, CsmTableHint, FontAlignmentZone, FontAlignmentZoneData, GlyphEntry,
    TextRecord,
};
use swf_parser::text_tags::{
    parse_define_font, parse_define_font2, parse_define_font3, parse_define_font4,
    parse_define_font_align_zones, parse_define_font_info, parse_define_text, EmSquareSize,
};

/// Header (21 bytes) and tags (32 bytes) of a blank uncompressed movie.
fn blank_movie() -> Vec<u8> {
    vec![
        0x46, 0x57, 0x53, 0x0a, 0x35, 0x00, 0x00, 0x00, 0x78, 0x00, 0x05, 0x5f, 0x00, 0x00, 0x0f,
        0xa0, 0x00, 0x00, 0x18, 0x01, 0x00, 0x7f, 0x11, 0x04, 0x00, 0x00, 0x00, 0x08, 0x00, 0x00,
        0x00, 0x43, 0x02, 0xff, 0xff, 0xff, 0x8b, 0x15, 0x01, 0x00, 0x53, 0x63, 0x65, 0x6e, 0x65,
        0x20, 0x31, 0x00, 0x00, 0x40, 0x00, 0x00, 0x00,
    ]
}

fn adler32(data: &[u8]) -> u32 {
    let mut a: u32 = 1;
    let mut b: u32 = 0;
    for &byte in data {
        a = (a + byte as u32) % 65521;
        b = (b + a) % 65521;
    }
    (b << 16) | a
}

/// A zlib stream holding `data` in one stored block.
fn zlib_stored(data: &[u8]) -> Vec<u8> {
    let len = data.len() as u16;
    let mut out = vec![0x78, 0x01, 0x01];
    out.extend_from_slice(&len.to_le_bytes());
    out.extend_from_slice(&(!len).to_le_bytes());
    out.extend_from_slice(data);
    out.extend_from_slice(&adler32(data).to_be_bytes());
    out
}

// ---------------------------------------------------------------------------
// Whole files
// ---------------------------------------------------------------------------

#[test]
fn parse_swf_uncompressed_blank_movie() {
    let movie = parse_swf(&blank_movie()).expect("blank movie");
    assert_eq!(movie.header.swf_version, 10);
    assert_eq!(movie.header.frame_count, 1);
    assert_eq!(movie.tags.len(), 4);
    assert_eq!(movie.tags[3], Tag::ShowFrame);
}

#[test]
fn parse_swf_deflate_matches_uncompressed() {
    let plain = blank_movie();
    let mut file = b"CWS".to_vec();
    file.extend_from_slice(&plain[3..8]);
    file.extend_from_slice(&zlib_stored(&plain[8..]));
    assert_eq!(parse_swf(&file), parse_swf(&plain));
    assert!(parse_swf(&file).is_ok());
}

#[test]
fn parse_swf_lzma_matches_uncompressed() {
    let plain = blank_movie();
    let mut compressed: Vec<u8> = Vec::new();
    lzma_rs::lzma_compress(&mut &plain[8..], &mut compressed).expect("compress");
    let mut file = b"ZWS".to_vec();
    file.extend_from_slice(&plain[3..8]);
    file.extend_from_slice(&compressed);
    assert_eq!(parse_swf(&file), parse_swf(&plain));
    assert!(parse_swf(&file).is_ok());
}

#[test]
fn parse_swf_errors() {
    assert_eq!(parse_swf(b"XWS\x0a\x00\x00\x00\x00"), Err(SwfParseError::InvalidSignature));
    assert_eq!(parse_swf(b"FWS\x0a"), Err(SwfParseError::InvalidSignature));
    assert_eq!(parse_swf(b"CWS\x0a\x00\x00\x00\x00\x01\x02\x03"), Err(SwfParseError::InvalidPayload));
    assert_eq!(parse_swf(b"ZWS\x0a\x00\x00\x00\x00\x01\x02"), Err(SwfParseError::InvalidPayload));
    assert_eq!(parse_swf(b"FWS\x0a\x00\x00\x00\x00\x78"), Err(SwfParseError::InvalidHeader));
    assert_eq!(SwfParseError::InvalidHeader.to_string(), "invalid SWF header");
}

#[test]
fn decompression_errors() {
    assert_eq!(decompress_zlib(&[0x01, 0x02, 0x03]), Err(DecompressError::InvalidZlib));
    assert_eq!(decompress_lzma(&[0x01, 0x02]), Err(DecompressError::InvalidLzma));
    let data = [1u8, 2, 3, 4, 5];
    let stream = zlib_stored(&data);
    let (rest, out) = decompress_zlib(&stream).expect("valid stream");
    assert!(rest.is_empty());
    assert_eq!(out, data.to_vec());
}

// ---------------------------------------------------------------------------
// Tags
// ---------------------------------------------------------------------------

#[test]
fn tag_block_string_is_repeated_tag_reading() {
    let tags_bytes = &blank_movie()[21..];
    let mut expected: Vec<Tag> = Vec::new();
    let mut input: &[u8] = tags_bytes;
    loop {
        let (rest, tag) = parse_tag(input, 10);
        match tag {
            Some(t) => expected.push(t),
            None => break,
        }
        assert!(rest.len() < input.len());
        input = rest;
    }
    assert_eq!(parse_tag_block_string(tags_bytes, 10), expected);
    assert_eq!(expected.len(), 4);
}

#[test]
fn malformed_tags_are_raw() {
    // `SetBackgroundColor` with a body of two bytes.
    let input = [0x42, 0x02, 0xff, 0xff];
    assert_eq!(parse_tag(&input, 10), (&[][..], Some(Tag::Raw(Raw { data: input.to_vec() }))));
    // A tag cut short.
    let input = [0x43, 0x02, 0xff];
    assert_eq!(parse_tag(&input, 10), (&[][..], Some(Tag::Raw(Raw { data: input.to_vec() }))));
    // The end of the input and the `End` tag end the tags.
    assert_eq!(parse_tag(&[], 10), (&[][..], None));
    assert_eq!(parse_tag(&[0x00, 0x00, 0x40, 0x00], 10).1, None);
}

#[test]
fn streaming_in_any_chunks_gives_the_same_tags() {
    let movie = blank_movie();
    let mut reference: Option<Vec<Tag>> = None;
    for chunk in 1..=movie.len() {
        let mut parser = HeaderParser::new();
        let mut pieces = movie.chunks(chunk);
        let mut state: Option<TagParser> = None;
        let mut left: Vec<u8> = Vec::new();
        for piece in pieces.by_ref() {
            match parser.header(piece) {
                Ok((_, tag_parser)) => {
                    state = Some(tag_parser);
                    break;
                }
                Err((next, _)) => parser = next,
            }
        }
        let mut tag_parser = state.expect("header");
        let mut tags: Vec<Tag> = Vec::new();
        left.extend(pieces.flatten());
        for byte in left {
            if let Ok(Some(new_tags)) = tag_parser.tags(&[byte]) {
                tags.extend(new_tags);
            }
        }
        if let Ok(Some(new_tags)) = tag_parser.tags(&[]) {
            tags.extend(new_tags);
        }
        match &reference {
            None => reference = Some(tags),
            Some(r) => assert_eq!(&tags, r),
        }
    }
    assert_eq!(reference.map(|r| r.len()), Some(4));
}

#[test]
fn flat_buffer_write_get_clear() {
    let mut buffer = FlatBuffer::new();
    buffer.write(&[1, 2, 3]);
    buffer.write(&[4, 5]);
    assert_eq!(buffer.get(), &[1, 2, 3, 4, 5][..]);
    buffer.clear(2);
    assert_eq!(buffer.get(), &[3, 4, 5][..]);
    buffer.write(&[6]);
    assert_eq!(buffer.get(), &[3, 4, 5, 6][..]);
}

#[test]
fn parse_state_glyph_counts() {
    let mut state = ParseState::new();
    assert_eq!(state.get_glyph_count(3), None);
    state.set_glyph_count(3, 12);
    state.set_glyph_count(4, 7);
    assert_eq!(state.get_glyph_count(3), Some(12));
    state.set_glyph_count(3, 5);
    assert_eq!(state.get_glyph_count(3), Some(5));
    assert_eq!(state.get_glyph_count(4), Some(7));
}

// ---------------------------------------------------------------------------
// Fonts and texts
// ---------------------------------------------------------------------------

#[test]
fn define_text_records() {
    let input = [
        0x01, 0x00, // id
        0x00, // bounds
        0x00, // matrix
        0x08, 0x08, // index and advance widths
        0x0d, 0x02, 0x00, 0x10, 0x20, 0x30, 0x05, 0x00, 0x0c, 0x00, 0x02, 0x03, 0x0a, 0x04, 0xfe,
        0x00, // end of records
    ];
    let (rest, text) = parse_define_text(&input).expect("text");
    assert!(rest.is_empty());
    assert_eq!(text.id, 1);
    assert_eq!(
        text.records,
        vec![TextRecord {
            font_id: Some(2),
            color: Some(StraightSRgba8 { r: 0x10, g: 0x20, b: 0x30, a: 255 }),
            offset_x: 5,
            offset_y: 0,
            font_size: Some(12),
            entries: vec![GlyphEntry { index: 3, advance: 10 }, GlyphEntry { index: 4, advance: -2 }],
        }]
    );
    let mut wide = input;
    wide[4] = 33;
    assert_eq!(parse_define_text(&wide), Err(ParseError::Error));
    assert_eq!(parse_text_record_string(&[], false, 8, 8), Err(ParseError::Incomplete(Needed::Unknown)));
}

#[test]
fn define_glyph_font() {
    let input = [0x01, 0x00, 0x04, 0x00, 0x06, 0x00, 0x00, 0x00, 0x00, 0x00];
    let (rest, font) = parse_define_font(&input).expect("font");
    assert!(rest.is_empty());
    assert_eq!(font.id, 1);
    assert_eq!(font.glyphs, vec![Glyph { records: Vec::new() }, Glyph { records: Vec::new() }]);
    // Offsets out of order.
    let input = [0x01, 0x00, 0x04, 0x00, 0x02, 0x00, 0x00, 0x00];
    assert_eq!(parse_define_font(&input), Err(ParseError::Error));
    // No glyph table.
    let (_, font) = parse_define_font(&[0x07, 0x00]).expect("empty font");
    assert!(font.glyphs.is_empty());
}

#[test]
fn device_fonts() {
    let input = [0x01, 0x00, 0x00, 0x01, 0x01, b'f', 0x00, 0x00];
    let (rest, font) = parse_define_font2(&input).expect("font 2");
    assert!(rest.is_empty());
    assert_eq!(font.font_name, "f");
    assert_eq!(font.language, LanguageCode::Latin);
    assert_eq!(font.em_square_size, EmSquareSize::EmSquareSize1024);
    assert_eq!(font.glyphs, None);
    let (_, font) = parse_define_font3(&input).expect("font 3");
    assert_eq!(font.em_square_size, EmSquareSize::EmSquareSize20480);
}

#[test]
fn font_info_and_cff_font() {
    let input = [0x01, 0x00, 0x03, b'a', b'b', b'c', 0x03, 0x41, 0x00, 0x42, 0x00, 0x99];
    let (rest, info) = parse_define_font_info(&input).expect("font info");
    assert_eq!(rest, &[0x99][..]);
    assert_eq!(info.font_name, "abc");
    assert!(info.is_bold);
    assert!(!info.is_italic);
    assert_eq!(info.language, LanguageCode::Auto);
    assert_eq!(info.code_units, vec![0x41, 0x42]);
    let input = [0x01, 0x00, b'f', 0x00, 0x05, 0xab, 0xcd];
    let (rest, font) = parse_define_font4(&input).expect("cff font");
    assert!(rest.is_empty());
    assert!(font.is_bold);
    assert_eq!(font.data, Some(vec![0xab, 0xcd]));
}

#[test]
fn font_align_zones() {
    let input = [0x01, 0x00, 0x40, 0x01, 0x00, 0x3c, 0x00, 0x38, 0x03];
    let (rest, zones) = parse_define_font_align_zones(&input).expect("zones");
    assert!(rest.is_empty());
    assert_eq!(zones.csm_table_hint, CsmTableHint::Medium);
    assert_eq!(
        zones.zones,
        vec![FontAlignmentZone {
            data: vec![FontAlignmentZoneData { origin: 0x3c00, size: 0x3800 }],
            has_x: true,
            has_y: true,
        }]
    );
    let input = [0x01, 0x00, 0xc0];
    assert_eq!(parse_define_font_align_zones(&input), Err(ParseError::Error));
}

// ---------------------------------------------------------------------------
// Buttons and morph shapes
// ---------------------------------------------------------------------------

#[test]
fn define_button2_with_conditions() {
    let input = [
        0x01, 0x00, 0x01, 0x05, 0x00, // id, flags, action offset
        0x01, 0x02, 0x00, 0x03, 0x00, 0x00, 0x00, // one record
        0x00, // end of records
        0x00, 0x00, 0x01, 0x1a, 0x00, // one conditional action
    ];
    let (_, button) = parse_define_button2(&input).expect("button");
    assert!(button.track_as_menu);
    assert_eq!(button.characters.len(), 1);
    assert!(button.characters[0].state_up);
    assert_eq!(button.characters[0].character_id, 2);
    assert_eq!(button.characters[0].depth, 3);
    assert_eq!(button.characters[0].blend_mode, BlendMode::Normal);
    assert_eq!(
        button.actions,
        vec![ButtonCondAction {
            conditions: Some(ButtonCond {
                key_press: Some(13),
                over_down_to_idle: false,
                idle_to_over_up: true,
                over_up_to_idle: false,
                over_up_to_over_down: false,
                over_down_to_over_up: false,
                over_down_to_out_down: false,
                out_down_to_over_down: false,
                out_down_to_idle: false,
                idle_to_over_down: false,
            }),
            actions: vec![0x00],
        }]
    );
    let mut bad_key = input;
    bad_key[15] = 0x00;
    bad_key[16] = 0x0e;
    assert_eq!(parse_define_button2(&bad_key), Err(ParseError::Error));
}

#[test]
fn cond_action_string_follows_offsets() {
    let input = [0x05, 0x00, 0x01, 0x00, 0xaa, 0x00, 0x00, 0x02, 0x00, 0xbb];
    let (rest, actions) = parse_button2_cond_action_string(&input).expect("actions");
    assert_eq!(actions.len(), 2);
    assert_eq!(actions[0].actions, vec![0xaa, 0x00, 0x00, 0x02, 0x00, 0xbb]);
    assert_eq!(actions[1].actions, vec![0xbb]);
    assert_eq!(rest, &input[5..]);
    // An offset past the end.
    let input = [0x09, 0x00, 0x01, 0x00];
    assert_eq!(parse_button2_cond_action_string(&input), Err(ParseError::Error));
}

#[test]
fn morph_shape_edges_are_paired() {
    let input = [
        0x01, 0x00, 0x00, 0x00, // id, bounds, morph bounds
        0x00, 0x00, 0x00, 0x00, // offset of the end records
        0x00, 0x00, 0x00, // no styles, index widths
        0xc2, 0xe0, 0x00, // start edge and end of the start records
        0x00, // index widths of the end shape
        0xc3, 0x20, // end edge
    ];
    let (rest, morph) = parse_define_morph_shape(&input).expect("morph shape");
    assert!(rest.is_empty());
    assert_eq!(morph.id, 1);
    assert_eq!(
        morph.shape.records,
        vec![MorphShapeRecord::Edge(MorphEdge {
            delta: Vector2D { x: 1, y: -1 },
            morph_delta: Vector2D { x: -2, y: 1 },
            control_delta: None,
            morph_control_delta: None,
        })]
    );
    // An end shape that stops before the end edge.
    let mut missing = input.to_vec();
    missing[15] = 0x00;
    missing[16] = 0x00;
    assert_eq!(parse_define_morph_shape(&missing), Err(ParseError::Error));
}


#[test]
fn streaming_tag_lengths() {
    // `SetBackgroundColor`: 2 header bytes and 3 body bytes.
    let tag = [0x43, 0x02, 0x10, 0x20, 0x30];
    assert_eq!(parse_tag_streaming(&tag[..1], 10), Err(StreamingTagError::IncompleteHeader));
    assert_eq!(parse_tag_streaming(&tag[..3], 10), Err(StreamingTagError::IncompleteTag(5)));
    let (rest, parsed) = parse_tag_streaming(&tag, 10).expect("complete tag");
    assert!(rest.is_empty());
    assert!(parsed.is_some());
    // A long header needs 6 bytes.
    let long = [0x7f, 0x02, 0x03, 0x00, 0x00, 0x00, 0x10, 0x20, 0x30];
    assert_eq!(parse_tag_streaming(&long[..5], 10), Err(StreamingTagError::IncompleteHeader));
    assert_eq!(parse_tag_streaming(&long[..6], 10), Err(StreamingTagError::IncompleteTag(9)));
    assert!(parse_tag_streaming(&long, 10).is_ok());
}

#[test]
fn jpeg_dimensions_from_the_first_frame() {
    let input = [
        0xFF, 0xD8, 0xFF, 0xC0, 0x00, 0x0B, 0x08, 0x00, 0x10, 0x00, 0x20, 0x01, 0x01, 0x11, 0x00,
        0xFF, 0xD9,
    ];
    assert_eq!(get_jpeg_image_dimensions(&input), Ok(ImageDimensions { width: 32, height: 16 }));
    // Garbage, then an APP0 sequence of size 2, then the frame.
    let input = [
        0x00, 0xFF, 0xE0, 0x00, 0x02, 0xFF, 0xC0, 0x00, 0x0B, 0x08, 0x00, 0x10, 0x00, 0x20, 0x01,
        0x01, 0x11, 0x00,
    ];
    assert_eq!(get_jpeg_image_dimensions(&input), Ok(ImageDimensions { width: 32, height: 16 }));
    // A sequence that runs past the input.
    assert_eq!(get_jpeg_image_dimensions(&[0xFF, 0xC0, 0x00, 0x0B, 0x08]), Err(()));
}

/// Feeds `file` to a fresh `HeaderParser` in pieces of `chunk` bytes, then the rest to
/// the `TagParser`; returns the header's frame count and the tags.
fn stream_in_chunks(file: &[u8], chunk: usize) -> (u16, Vec<Tag>) {
    let mut parser = HeaderParser::new();
    let mut pieces = file.chunks(chunk);
    let mut state: Option<(u16, TagParser)> = None;
    for piece in pieces.by_ref() {
        match parser.header(piece) {
            Ok((header, tag_parser)) => {
                state = Some((header.frame_count, tag_parser));
                break;
            }
            Err((next, HeaderParserError::Other)) => parser = next,
            Err((_, e)) => panic!("{:?}", e),
        }
    }
    let (frame_count, mut tag_parser) = state.expect("header");
    let mut tags: Vec<Tag> = Vec::new();
    let mut ended = false;
    for piece in pieces {
        match tag_parser.tags(piece) {
            Ok(Some(new_tags)) => tags.extend(new_tags),
            Ok(None) => ended = true,
            Err(_) => {}
        }
    }
    if let Ok(Some(new_tags)) = tag_parser.tags(&[]) {
        tags.extend(new_tags);
    }
    if !ended {
        ended = tag_parser.tags(&[]) == Ok(None);
    }
    assert!(ended);
    // Once the end is reported, it stays reported, whatever comes next.
    assert_eq!(tag_parser.tags(&[0x00]), Ok(None));
    assert_eq!(tag_parser.tags(&[0xff, 0xff]), Ok(None));
    (frame_count, tags)
}

#[test]
fn streaming_a_zlib_payload_reads_the_uncompressed_movie() {
    let plain = blank_movie();
    let mut file = b"CWS".to_vec();
    file.extend_from_slice(&plain[3..8]);
    file.extend_from_slice(&zlib_stored(&plain[8..]));
    let expected = parse_swf(&plain).expect("blank movie");
    for chunk in [1, 2, 7, 30, file.len()] {
        let (frame_count, tags) = stream_in_chunks(&file, chunk);
        assert_eq!(frame_count, expected.header.frame_count);
        assert_eq!(tags, expected.tags);
        let (_, plain_tags) = stream_in_chunks(&plain, chunk);
        assert_eq!(plain_tags, expected.tags);
    }
}

#[test]
fn streaming_a_refused_zlib_payload_keeps_failing_without_panic() {
    // A zlib stream whose first byte names an unknown method.
    let mut parser = HeaderParser::new();
    for _ in 0..3 {
        match parser.header(b"CWS\x0a\x00\x00\x00\x00") {
            Err((next, HeaderParserError::Other)) => parser = next,
            _ => panic!("no header yet"),
        }
        match parser.header(&[0x00, 0x01, 0x02]) {
            Err((next, HeaderParserError::Other)) => parser = next,
            _ => panic!("refused payload"),
        }
        match parser.header(&[0x78, 0x01]) {
            Err((next, HeaderParserError::Other)) => parser = next,
            _ => panic!("still refused"),
        }
    }
    // Refused in the same call as the signature.
    match HeaderParser::new().header(b"CWS\x0a\x00\x00\x00\x00\x00") {
        Err((next, HeaderParserError::Other)) => match next.header(&[]) {
            Err((_, HeaderParserError::Other)) => {}
            _ => panic!("refused payload"),
        },
        _ => panic!("refused payload"),
    }
}

#[test]
fn streaming_lzma_is_a_missing_feature() {
    match HeaderParser::new().header(b"ZWS\x0a\x00\x00\x00\x00") {
        Err((_, e)) => {
            assert_eq!(e, HeaderParserError::MissingFeature("lzma"));
            assert_eq!(
                e.to_string(),
                "unsupported compression type in SWF header: compile `swf-parser` with the `lzma` feature"
            );
        }
        Ok(_) => panic!("lzma is not supported when streaming"),
    }
    assert_eq!(HeaderParserError::Other.to_string(), "couldn't parse SWF header");
}

use swf_parser::actions::Value;
use swf_parser::ast::{CompressionMethod, Header, Rect, SRgb8, SwfSignature};
use swf_parser::ast_tags::{
    DefineSceneAndFrameLabelData, FileAttributes, Movie, Scene, SetBackgroundColor, Tag,
};
use swf_parser::fixed::Ufixed8P8;
use swf_parser::header::{parse_compression_method, parse_swf_signature};
use swf_parser::streaming::{HeaderParser, HeaderParserError, TagParser};

/// A blank movie of 550 by 400 pixels at 24 frames per second: a header of 21 bytes,
/// then `FileAttributes` (with a long tag header), `SetBackgroundColor`,
/// `DefineSceneAndFrameLabelData`, `ShowFrame` and `End`.
fn blank_movie() -> Vec<u8> {
    vec![
        0x46, 0x57, 0x53, 0x0a, 0x35, 0x00, 0x00, 0x00, 0x78, 0x00, 0x05, 0x5f, 0x00, 0x00, 0x0f,
        0xa0, 0x00, 0x00, 0x18, 0x01, 0x00, 0x7f, 0x11, 0x04, 0x00, 0x00, 0x00, 0x08, 0x00, 0x00,
        0x00, 0x43, 0x02, 0xff, 0xff, 0xff, 0x8b, 0x15, 0x01, 0x00, 0x53, 0x63, 0x65, 0x6e, 0x65,
        0x20, 0x31, 0x00, 0x00, 0x40, 0x00, 0x00, 0x00,
    ]
}

fn blank_movie_ast() -> Movie {
    Movie {
        header: Header {
            swf_version: 10,
            frame_size: Rect { x_min: 0, x_max: 11000, y_min: 0, y_max: 8000 },
            frame_rate: Ufixed8P8::from_epsilons(6144),
            frame_count: 1,
        },
        tags: vec![
            Tag::FileAttributes(FileAttributes {
                use_network: false,
                use_relative_urls: false,
                no_cross_domain_caching: false,
                use_as3: true,
                has_metadata: false,
                use_gpu: false,
                use_direct_blit: false,
            }),
            Tag::SetBackgroundColor(SetBackgroundColor { color: SRgb8 { r: 255, g: 255, b: 255 } }),
            Tag::DefineSceneAndFrameLabelData(DefineSceneAndFrameLabelData {
                scenes: vec![Scene { offset: 0, name: String::from("Scene 1") }],
                labels: Vec::new(),
            }),
            Tag::ShowFrame,
        ],
    }
}

fn assert_signatures() {
    assert_eq!(
        parse_swf_signature(&b"FWS\x0f\x08\x00\x00\x00"[..]),
        Ok((
            &[][..],
            SwfSignature {
                compression_method: CompressionMethod::Uncompressed,
                swf_version: 15u8,
                uncompressed_file_length: 8,
            }
        ))
    );
    assert_eq!(
        parse_swf_signature(&b"CWS\x0f\x08\x00\x00\x00"[..]),
        Ok((
            &[][..],
            SwfSignature {
                compression_method: CompressionMethod::Deflate,
                swf_version: 15u8,
                uncompressed_file_length: 8,
            }
        ))
    );
}

#[test]
fn header_test_parse_compression_method() {
    assert_eq!(parse_compression_method(&b"FWS"[..]), Ok((&[][..], CompressionMethod::Uncompressed)));
    assert_eq!(parse_compression_method(&b"CWS"[..]), Ok((&[][..], CompressionMethod::Deflate)));
    assert_eq!(parse_compression_method(&b"ZWS"[..]), Ok((&[][..], CompressionMethod::Lzma)));
}

#[test]
fn header_test_parse_swf_header_signature() {
    assert_signatures();
    assert_eq!(
        parse_swf_signature(&b"\x43\x57\x53\x08\xac\x05\x00\x00"[..]),
        Ok((
            &[][..],
            SwfSignature {
                compression_method: CompressionMethod::Deflate,
                swf_version: 8u8,
                uncompressed_file_length: 1452,
            }
        ))
    );
}

#[test]
fn swf_header_test_parse_compression_method() {
    assert_eq!(parse_compression_method(&b"FWS"[..]), Ok((&[][..], CompressionMethod::Uncompressed)));
    assert_eq!(parse_compression_method(&b"CWS"[..]), Ok((&[][..], CompressionMethod::Deflate)));
    assert_eq!(parse_compression_method(&b"ZWS"[..]), Ok((&[][..], CompressionMethod::Lzma)));
}

#[test]
fn swf_header_test_parse_swf_header_signature() {
    assert_signatures();
}

/// Feeds the movie to the streaming parser one byte at a time.
fn stream_blank_movie() {
    let movie_bytes = blank_movie();
    let mut movie_bytes = movie_bytes.iter().copied().enumerate();

    let mut parser = HeaderParser::new();
    let mut header_output: Option<(Header, TagParser)> = None;
    for (index, byte) in movie_bytes.by_ref() {
        match parser.header(&[byte]) {
            Ok((header, tag_parser)) => {
                assert_eq!(index, 20);
                header_output = Some((header, tag_parser));
                break;
            }
            Err((next_parser, HeaderParserError::Other)) => parser = next_parser,
            Err((_, e)) => panic!("{:?}", e),
        }
    }
    assert!(header_output.is_some());
    let (header, mut parser) = header_output.unwrap();
    let mut tags: Vec<Tag> = Vec::new();
    for (index, byte) in movie_bytes {
        match parser.tags(&[byte]) {
            Ok(Some(new_tags)) => tags.extend(new_tags),
            Ok(None) => {
                assert_eq!(index, 52);
                break;
            }
            Err(_) => {}
        }
    }
    let actual: Movie = Movie { header, tags };
    assert_eq!(actual, blank_movie_ast());
}

#[test]
fn parser_test_stream_parse_blank() {
    stream_blank_movie();
}

#[test]
fn mod_test_stream_parse_blank() {
    stream_blank_movie();
}

#[test]
fn action_value_eq() {
    assert_eq!(Value::Null, Value::Null);
    assert_ne!(Value::Null, Value::Undefined);
    assert_eq!(Value::I32(2), Value::I32(2));
    assert_eq!(Value::F32(2.0f32.to_bits()), Value::F32(2.0f32.to_bits()));
    assert_eq!(Value::F32(f32::NAN.to_bits()), Value::F32(f32::NAN.to_bits()));
}

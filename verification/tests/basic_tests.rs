use swf_parser::avm1::{parse_action, parse_action_header, parse_push_action};
use swf_parser::actions::{Action, ActionHeader, Push, UnknownAction, Value};
use swf_parser::ast::{CompressionMethod, Rect, SwfSignature};
use swf_parser::basic_data_types::{parse_fixed16_p16_bits, parse_rect};
use swf_parser::bits::{parse_i16_bits, parse_u16_bits};
use swf_parser::bytes::parse_leb128_u32;
use swf_parser::error::{Needed, ParseError};
use swf_parser::fixed::{Fixed16P16, Sfixed16P16};
use swf_parser::header::{parse_compression_method, parse_swf_signature};

#[test]
fn test_eq() {
    assert_eq!(Fixed16P16::from_epsilons(3), Fixed16P16::from_epsilons(3));
}

#[test]
fn basic_data_types_test_parse_encoded_le_u32() {
    assert_eq!(parse_leb128_u32(&[][..]), Err(ParseError::Incomplete(Needed::Size(1))));
    let input = vec![0x00];
    assert_eq!(parse_leb128_u32(&input[..]), Ok((&input[1..], 0)));
    let input = vec![0x01];
    assert_eq!(parse_leb128_u32(&input[..]), Ok((&input[1..], 1)));
    let input = vec![0x10];
    assert_eq!(parse_leb128_u32(&input[..]), Ok((&input[1..], 16)));
    let input = vec![0x7f];
    assert_eq!(parse_leb128_u32(&input[..]), Ok((&input[1..], 127)));
    let input = vec![0x80];
    assert_eq!(parse_leb128_u32(&input[..]), Err(ParseError::Incomplete(Needed::Size(1))));
    let input = vec![0x80, 0x01];
    assert_eq!(parse_leb128_u32(&input[..]), Ok((&input[2..], 1 << 7)));
    let input = vec![0x80, 0x80, 0x01];
    assert_eq!(parse_leb128_u32(&input[..]), Ok((&input[3..], 1 << 14)));
    let input = vec![0x80, 0x80, 0x80, 0x01];
    assert_eq!(parse_leb128_u32(&input[..]), Ok((&input[4..], 1 << 21)));
    let input = vec![0x80, 0x80, 0x80, 0x80];
    assert_eq!(parse_leb128_u32(&input[..]), Err(ParseError::Incomplete(Needed::Size(1))));
    let input = vec![0x80, 0x80, 0x80, 0x80, 0x01];
    assert_eq!(parse_leb128_u32(&input[..]), Ok((&input[5..], 1 << 28)));
    // Do not extend past 5 bytes
    let input = vec![0x80, 0x80, 0x80, 0x80, 0x80];
    assert_eq!(parse_leb128_u32(&input[..]), Ok((&input[5..], 0)));
    let input = vec![0x80, 0x80, 0x80, 0x80, 0x80, 0x01];
    assert_eq!(parse_leb128_u32(&input[..]), Ok((&input[5..], 0)));
}

#[test]
fn basic_data_types_test_parse_i16_bits() {
    let cases: Vec<(Vec<u8>, usize, usize, usize, i16)> = vec![
        (vec![0b0000_0000, 0b0000_0000], 0, 0, 0, 0),
        (vec![0b0000_0000, 0b0000_0000], 1, 0, 1, 0),
        (vec![0b1000_0000, 0b0000_0000], 1, 0, 1, -1),
        (vec![0b0000_0000, 0b0000_0000], 2, 0, 2, 0),
        (vec![0b0100_0000, 0b0000_0000], 2, 0, 2, 1),
        (vec![0b1000_0000, 0b0000_0000], 2, 0, 2, -2),
        (vec![0b1100_0000, 0b0000_0000], 2, 0, 2, -1),
        (vec![0b0000_0000, 0b0000_0000], 15, 1, 7, 0),
        (vec![0b0111_1111, 0b1111_1110], 15, 1, 7, 16383),
        (vec![0b1000_0000, 0b0000_0000], 15, 1, 7, -16384),
        (vec![0b1111_1111, 0b1111_1110], 15, 1, 7, -1),
        (vec![0b0000_0000, 0b0000_0000], 16, 2, 0, 0),
        (vec![0b0111_1111, 0b1111_1111], 16, 2, 0, 32767),
        (vec![0b1000_0000, 0b0000_0000], 16, 2, 0, -32768),
        (vec![0b1111_1111, 0b1111_1111], 16, 2, 0, -1),
    ];
    for (input, n, skip, pos, value) in cases {
        assert_eq!(parse_i16_bits((&input[..], 0), n), Ok(((&input[skip..], pos), value)));
    }
}

#[test]
fn basic_data_types_test_parse_u16_bits() {
    let input = vec![0b1010_1010, 0b1111_0000, 0b0011_0011];
    assert_eq!(parse_u16_bits((&input[..], 0), 5), Ok(((&input[0..], 5), 21)));
}

#[test]
fn basic_data_types_test_parse_fixed16_p16_bits() {
    let input = vec![0b0000_0000, 0b0000_0000, 0b0000_0000, 0b0000_0000];
    assert_eq!(
        parse_fixed16_p16_bits((&input[..], 0), 32),
        Ok(((&input[4..], 0), Sfixed16P16::from_epsilons(0)))
    );
}

#[test]
fn basic_data_types_test_parse_rect() {
    // This is the example in the spec, but the spec has an error: the binary
    // representations of x_min and x_max are swapped
    // 01011 00001111111 00100000100 00000001111 01000000010
    // nBits xMin        xMax        yMin        yMax
    let input = vec![
        0b0101_1000,
        0b0111_1111,
        0b0010_0000,
        0b1000_0000,
        0b0011_1101,
        0b0000_0001,
        0b0000_0000,
    ];
    assert_eq!(
        parse_rect(&input[..]),
        Ok((&[][..], Rect { x_min: 127, x_max: 260, y_min: 15, y_max: 514 }))
    );
    let cases: Vec<(Vec<u8>, Rect)> = vec![
        (vec![0b0000_0000], Rect { x_min: 0, x_max: 0, y_min: 0, y_max: 0 }),
        (vec![0b0000_1000, 0b0000_0000], Rect { x_min: 0, x_max: 0, y_min: 0, y_max: 0 }),
        (vec![0b0001_0000, 0b0000_0000], Rect { x_min: 0, x_max: 0, y_min: 0, y_max: 0 }),
        (vec![0b0001_0010, 0b0000_0000], Rect { x_min: 1, x_max: 0, y_min: 0, y_max: 0 }),
        (vec![0b0001_0000, 0b1000_0000], Rect { x_min: 0, x_max: 1, y_min: 0, y_max: 0 }),
        (vec![0b0001_0000, 0b0010_0000], Rect { x_min: 0, x_max: 0, y_min: 1, y_max: 0 }),
        (vec![0b0001_0000, 0b0000_1000], Rect { x_min: 0, x_max: 0, y_min: 0, y_max: 1 }),
    ];
    for (input, rect) in cases {
        assert_eq!(parse_rect(&input[..]), Ok((&[][..], rect)));
    }
}

#[test]
fn movie_test_parse_compression_method() {
    assert_eq!(parse_compression_method(&b"FWS"[..]), Ok((&[][..], CompressionMethod::Uncompressed)));
    assert_eq!(parse_compression_method(&b"CWS"[..]), Ok((&[][..], CompressionMethod::Deflate)));
    assert_eq!(parse_compression_method(&b"ZWS"[..]), Ok((&[][..], CompressionMethod::Lzma)));
}

#[test]
fn movie_test_parse_swf_header_signature() {
    assert_eq!(
        parse_swf_signature(&b"FWS\x0f\x08\x00\x00\x00"[..]),
        Ok((
            &[][..],
            SwfSignature {
                compression_method: CompressionMethod::Uncompressed,
                swf_version: 15u8,
                uncompressed_file_length: 8,
            }
        ))
    );
    assert_eq!(
        parse_swf_signature(&b"CWS\x0f\x08\x00\x00\x00"[..]),
        Ok((
            &[][..],
            SwfSignature {
                compression_method: CompressionMethod::Deflate,
                swf_version: 15u8,
                uncompressed_file_length: 8,
            }
        ))
    );
    assert_eq!(
        parse_swf_signature(&b"\x43\x57\x53\x08\xac\x05\x00\x00"[..]),
        Ok((
            &[][..],
            SwfSignature {
                compression_method: CompressionMethod::Deflate,
                swf_version: 8u8,
                uncompressed_file_length: 1452,
            }
        ))
    );
}

#[test]
fn test_parse_push_action() {
    let input = vec![0x04, 0x00, 0x07, 0x01, 0x00, 0x00, 0x00, 0x08, 0x02];
    assert_eq!(
        parse_push_action(&input[..]),
        Ok((&[][..], Push { values: vec![Value::Register(0), Value::I32(1), Value::Constant(2)] }))
    );
    let input = vec![0x00, 0x00];
    assert_eq!(
        parse_push_action(&input[..]),
        Ok((&[][..], Push { values: vec![Value::CString(String::from(""))] }))
    );
    let input = vec![0x00, 0x01, 0x00];
    assert_eq!(
        parse_push_action(&input[..]),
        Ok((&[][..], Push { values: vec![Value::CString(String::from("\x01"))] }))
    );
}

#[test]
fn test_parse_action_header() {
    let input = vec![0b00000000, 0b00000000, 0b00000000, 0b00000000];
    assert_eq!(parse_action_header(&input[..]), Ok((&input[1..], ActionHeader { action_code: 0x00, length: 0 })));
    let input = vec![0b00000001, 0b00000000, 0b00000000, 0b00000000];
    assert_eq!(parse_action_header(&input[..]), Ok((&input[1..], ActionHeader { action_code: 0x01, length: 0 })));
    let input = vec![0b00010000, 0b00000000, 0b00000000, 0b00000000];
    assert_eq!(parse_action_header(&input[..]), Ok((&input[1..], ActionHeader { action_code: 0x10, length: 0 })));
    let input = vec![0b10000000, 0b00000000, 0b00000000, 0b00000000];
    assert_eq!(parse_action_header(&input[..]), Ok((&input[3..], ActionHeader { action_code: 0x80, length: 0 })));
    let input = vec![0b10000000, 0b00000001, 0b00000000, 0b00000000];
    assert_eq!(parse_action_header(&input[..]), Ok((&input[3..], ActionHeader { action_code: 0x80, length: 1 })));
    let input = vec![0b10000000, 0b00000000, 0b00000001, 0b00000000];
    assert_eq!(parse_action_header(&input[..]), Ok((&input[3..], ActionHeader { action_code: 0x80, length: 256 })));
}

#[test]
fn test_parse_action() {
    let input = vec![0b00000001, 0b00000000, 0b00000000, 0b00000000];
    assert_eq!(
        parse_action(&input[..]),
        Ok((&input[1..], Action::Unknown(UnknownAction { action_code: 0x01, data: Vec::new() })))
    );
    let input = vec![0b10000000, 0b00000001, 0b00000000, 0b00000011];
    assert_eq!(
        parse_action(&input[..]),
        Ok((&input[4..], Action::Unknown(UnknownAction { action_code: 0x80, data: vec![0x03] })))
    );
    let input = vec![0b10000000, 0b00000010, 0b00000000, 0b00000011];
    assert_eq!(parse_action(&input[..]), Err(ParseError::Incomplete(Needed::Size(5))));
}

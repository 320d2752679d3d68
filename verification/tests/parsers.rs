use mshio::error::{MshParserError, MshParserErrorKind, TokenErrorKind, ValueType};
use mshio::parsers::entities_section::TagItems;
use mshio::parsers::general_parsers::{
    anything, at_tag, br, count_indexed, delimited_block, digit1, eof, parse_delimited_block, sp,
    tag, take_after_parses, take_class, take_sp, take_till_parses, ws, ByteClass, Delimiter,
    Trailing,
};
use mshio::parsers::header_section::{num_parsers_from_header, parse_header_section};
use mshio::parsers::num_parsers::{
    float_parser, int_parser, uint_parser, Endianness, FloatParser, IntParser, NumParsers,
    UintParser,
};
use mshio::HeaderContent;

fn token(position: usize, kind: TokenErrorKind) -> (usize, MshParserErrorKind) {
    (position, MshParserErrorKind::NomError(kind))
}

fn backtrace<T: std::fmt::Debug>(
    result: Result<T, MshParserError>,
) -> Vec<(usize, MshParserErrorKind)> {
    result.unwrap_err().backtrace
}

fn ascii_parsers() -> NumParsers {
    NumParsers {
        size_t_parser: UintParser {
            source_size: 8,
            endianness: None,
        },
        int_parser: IntParser {
            source_size: 4,
            endianness: None,
        },
        float_parser: FloatParser {
            source_size: 8,
            endianness: None,
        },
    }
}

fn hello() -> Delimiter<'static> {
    Delimiter {
        leading_spaces: false,
        tag: b"$Hello",
        trailing: Trailing::Spaces,
    }
}

#[test]
fn test_anything() {
    assert_eq!(anything(b"", 0), 0);
    assert_eq!(anything(b"123", 0), 3);
    assert_eq!(anything(b"123 456\t\n ", 4), 10);
}

#[test]
fn test_eof() {
    assert_eq!(eof(b"", 0).unwrap(), 0);
    assert_eq!(eof(b"123", 3).unwrap(), 3);
    assert_eq!(backtrace(eof(b"123", 0)), vec![token(0, TokenErrorKind::Eof)]);
}

#[test]
fn test_br() {
    assert_eq!(br(b"\n123", 0).unwrap(), 1);
    assert_eq!(br(b"\r\n123456", 0).unwrap(), 2);
    assert_eq!(br(b"1\r\n", 1).unwrap(), 3);
    assert_eq!(
        backtrace(br(b"123", 0)),
        vec![token(0, TokenErrorKind::Tag), token(0, TokenErrorKind::Alt)]
    );
    assert!(br(b"\r", 0).is_err());
    assert!(br(b"\r1", 0).is_err());
    assert!(br(b"", 0).is_err());
}

#[test]
fn test_sp() {
    assert_eq!(sp(b" 123", 0).unwrap(), 1);
    assert_eq!(sp(b"\t123", 0).unwrap(), 1);
    assert_eq!(sp(b"\n123", 0).unwrap(), 1);
    assert_eq!(sp(b"\r\n123", 0).unwrap(), 2);
    assert_eq!(
        backtrace(sp(b"123", 0)),
        vec![token(0, TokenErrorKind::Tag), token(0, TokenErrorKind::Alt)]
    );
}

#[test]
fn test_take_sp() {
    assert_eq!(take_sp(b" \t \n\r\n123", 0), 6);
    assert_eq!(take_sp(b"123", 0), 0);
    assert_eq!(take_sp(b"12  ", 2), 4);
}

#[test]
fn test_take_class() {
    assert_eq!(take_class(b"123abc", 0, ByteClass::Digit), 3);
    assert_eq!(take_class(b"123abc", 3, ByteClass::Letter), 6);
    assert_eq!(take_class(b"aZ_b", 0, ByteClass::Letter), 2);
    assert_eq!(take_class(b"/0189:", 1, ByteClass::Digit), 5);
    assert_eq!(take_class(b"@AZ[`az{", 1, ByteClass::Letter), 3);
    assert_eq!(take_class(b"@AZ[`az{", 5, ByteClass::Letter), 7);
}

#[test]
fn test_tag() {
    assert_eq!(tag(b"$Nodes\n", 0, b"$Nodes").unwrap(), 6);
    assert_eq!(tag(b"  $Nodes", 2, b"$Nodes").unwrap(), 8);
    assert_eq!(tag(b"abc", 1, b"").unwrap(), 1);
    assert_eq!(
        backtrace(tag(b"$Node", 0, b"$Nodes")),
        vec![token(0, TokenErrorKind::Tag)]
    );
    assert_eq!(
        backtrace(tag(b"$Modes", 0, b"$Nodes")),
        vec![token(0, TokenErrorKind::Tag)]
    );
    assert!(at_tag(b"abc", 1, b"bc"));
    assert!(!at_tag(b"abc", 1, b"bcd"));
}

#[test]
fn test_digit1() {
    assert_eq!(digit1(b"123 4", 0).unwrap(), 3);
    assert_eq!(
        backtrace(digit1(b"a123", 0)),
        vec![token(0, TokenErrorKind::Digit)]
    );
    assert_eq!(
        backtrace(digit1(b"12", 2)),
        vec![token(2, TokenErrorKind::Digit)]
    );
}

#[test]
fn test_ws() {
    let parser = hello();
    assert_eq!(ws(&parser, b" \t \n\r\n$Hello  \n", 0).unwrap(), (15, ()));
    assert_eq!(ws(&parser, b" \n$Hello456", 0).unwrap(), (8, ()));
    assert_eq!(
        backtrace(ws(&parser, b" \nabc  ", 0)),
        vec![token(2, TokenErrorKind::Tag)]
    );
}

#[test]
fn test_take_till_parses() {
    let parser = hello();
    assert_eq!(take_till_parses(&parser, b"123\n$Hello456", 0).unwrap(), 4);
    assert_eq!(take_till_parses(&parser, b"$Hello456", 0).unwrap(), 0);
    assert_eq!(
        backtrace(take_till_parses(&parser, b"llo456", 0)),
        vec![token(0, TokenErrorKind::Eof)]
    );
    assert_eq!(
        backtrace(take_till_parses(&parser, b"$Hello llo456", 1)),
        vec![token(1, TokenErrorKind::Eof)]
    );
}

#[test]
fn test_take_after_parses() {
    let parser = hello();
    assert_eq!(
        take_after_parses(&parser, b"123\n$Hello456", 0).unwrap(),
        (10, (4, ()))
    );
    assert_eq!(
        take_after_parses(&parser, b"$Hello  456", 0).unwrap(),
        (8, (0, ()))
    );
    assert_eq!(
        backtrace(take_after_parses(&parser, b"llo456", 0)),
        vec![token(0, TokenErrorKind::Eof)]
    );
}

#[test]
fn test_delimited_block() {
    let start = Delimiter {
        leading_spaces: false,
        tag: b"$Start",
        trailing: Trailing::LineBreak,
    };
    let end = Delimiter {
        leading_spaces: true,
        tag: b"$End",
        trailing: Trailing::Spaces,
    };
    // The content ends where the whitespace before the end tag starts
    assert_eq!(
        delimited_block(&start, &end, b"$Start\n123\n$End\n456", 0).unwrap(),
        (16, (7, 10))
    );
    assert_eq!(
        delimited_block(&start, &end, b"$Start\n$End", 0).unwrap(),
        (11, (7, 7))
    );
    assert_eq!(
        backtrace(delimited_block(&start, &end, b"$Start$End", 0)),
        vec![token(6, TokenErrorKind::Tag), token(6, TokenErrorKind::Alt)]
    );
    assert_eq!(
        backtrace(delimited_block(&start, &end, b"$Start\n123\n", 0)),
        vec![token(7, TokenErrorKind::Eof)]
    );
}

#[test]
fn test_parse_delimited_block() {
    let start = Delimiter {
        leading_spaces: false,
        tag: b"$Start",
        trailing: Trailing::LineBreak,
    };
    let end = Delimiter {
        leading_spaces: false,
        tag: b"$End",
        trailing: Trailing::LineBreak,
    };
    let (next, header) =
        parse_delimited_block(&start, &end, &HeaderContent, b"$Start\n4.1 0 8\n$End\n456", 0)
            .unwrap();
    assert_eq!(next, 20);
    assert_eq!(f64::from_bits(header.version), 4.1);
    assert_eq!(header.file_type, 0);
    assert_eq!(header.size_t_size, 8);

    // The parser sees the content of the block only: the test value of a
    // binary header is cut off by the end delimiter
    let mut input = b"$Start\n4.1 1 8\n".to_vec();
    input.extend_from_slice(&[0, 0]);
    input.extend_from_slice(b"$End\n");
    input.extend_from_slice(&[0, 1]);
    let error = parse_delimited_block(&start, &end, &HeaderContent, &input, 0).unwrap_err();
    assert_eq!(
        error.backtrace,
        vec![
            token(15, TokenErrorKind::Eof),
            (
                15,
                MshParserErrorKind::Context("endianness test value".to_string())
            ),
            (
                7,
                MshParserErrorKind::Context("MSH format header content".to_string())
            ),
        ]
    );
}

#[test]
fn test_count_indexed() {
    let items = TagItems {
        parsers: ascii_parsers(),
        expected: 3,
        bounding: false,
    };
    assert_eq!(
        count_indexed(&items, b" 1 -2 +3 4", 0, 3).unwrap(),
        (9, vec![1, -2, 3])
    );
    assert_eq!(count_indexed(&items, b"x", 0, 0).unwrap(), (0, vec![]));
    assert_eq!(
        backtrace(count_indexed(&items, b"1 2 x", 0, 3)),
        vec![
            token(4, TokenErrorKind::Digit),
            (4, MshParserErrorKind::InvalidTag),
            (
                4,
                MshParserErrorKind::Context("Expected 3 valid physical tags".to_string())
            ),
            token(0, TokenErrorKind::Count),
        ]
    );
}

#[test]
fn test_parser_constructors() {
    for size in [1, 2, 4, 8, 16] {
        for order in [Endianness::Big, Endianness::Little] {
            let parser = uint_parser(size, Some(order)).unwrap();
            assert_eq!(parser.source_size, size);
            assert_eq!(parser.endianness, Some(order));
            assert!(int_parser(size, Some(order)).is_ok());
        }
    }
    for size in [0, 3, 5, 7, 9, 32] {
        assert_eq!(
            uint_parser(size, Some(Endianness::Big)).unwrap_err(),
            MshParserErrorKind::UnsupportedTypeSize(ValueType::UnsignedInt, size)
        );
        assert_eq!(
            int_parser(size, Some(Endianness::Little)).unwrap_err(),
            MshParserErrorKind::UnsupportedTypeSize(ValueType::Int, size)
        );
        // Text has no width
        assert!(uint_parser(size, None).is_ok());
        assert!(int_parser(size, None).is_ok());
        assert!(float_parser(size, None).is_ok());
    }
    assert!(float_parser(4, Some(Endianness::Big)).is_ok());
    assert!(float_parser(8, Some(Endianness::Little)).is_ok());
    assert_eq!(
        float_parser(16, Some(Endianness::Little)).unwrap_err(),
        MshParserErrorKind::UnsupportedTypeSize(ValueType::Float, 16)
    );
}

#[test]
fn test_binary_uint_all_widths() {
    let bytes: Vec<u8> = (1..=17).collect();
    let big: [(usize, u64); 4] = [
        (1, 0x02),
        (2, 0x0203),
        (4, 0x0203_0405),
        (8, 0x0203_0405_0607_0809),
    ];
    for (size, value) in big {
        let parser = uint_parser(size, Some(Endianness::Big)).unwrap();
        assert_eq!(parser.parse(&bytes, 1).unwrap(), (1 + size, value));
    }
    let little: [(usize, u64); 4] = [
        (1, 0x02),
        (2, 0x0302),
        (4, 0x0504_0302),
        (8, 0x0908_0706_0504_0302),
    ];
    for (size, value) in little {
        let parser = uint_parser(size, Some(Endianness::Little)).unwrap();
        assert_eq!(parser.parse(&bytes, 1).unwrap(), (1 + size, value));
    }
    // 16 bytes that spell a number of 64 bits
    let mut wide = vec![0u8; 8];
    wide.extend_from_slice(&[1, 2, 3, 4, 5, 6, 7, 8]);
    let parser = uint_parser(16, Some(Endianness::Big)).unwrap();
    assert_eq!(parser.parse(&wide, 0).unwrap(), (16, 0x0102_0304_0506_0708));
    wide.reverse();
    let parser = uint_parser(16, Some(Endianness::Little)).unwrap();
    assert_eq!(parser.parse(&wide, 0).unwrap(), (16, 0x0102_0304_0506_0708));
}

#[test]
fn test_binary_uint_too_short() {
    for size in [1usize, 2, 4, 8, 16] {
        for order in [Endianness::Big, Endianness::Little] {
            let parser = uint_parser(size, Some(order)).unwrap();
            let bytes = vec![0u8; size + 2];
            assert_eq!(
                backtrace(parser.parse(&bytes, 3)),
                vec![token(3, TokenErrorKind::Eof)]
            );
            assert_eq!(parser.parse(&bytes, 2).unwrap(), (size + 2, 0));
        }
    }
}

#[test]
fn test_unsupported_width_is_rejected_when_parsing() {
    let parser = UintParser {
        source_size: 3,
        endianness: Some(Endianness::Big),
    };
    assert_eq!(
        backtrace(parser.parse(&[1, 2, 3], 0)),
        vec![(
            0,
            MshParserErrorKind::UnsupportedTypeSize(ValueType::UnsignedInt, 3)
        )]
    );
    let parser = IntParser {
        source_size: 5,
        endianness: Some(Endianness::Little),
    };
    assert_eq!(
        backtrace(parser.parse(&[1, 2, 3, 4, 5], 0)),
        vec![(0, MshParserErrorKind::UnsupportedTypeSize(ValueType::Int, 5))]
    );
    let parser = FloatParser {
        source_size: 2,
        endianness: Some(Endianness::Little),
    };
    assert_eq!(
        backtrace(parser.parse(&[1, 2], 0)),
        vec![(
            0,
            MshParserErrorKind::UnsupportedTypeSize(ValueType::Float, 2)
        )]
    );
}

#[test]
fn test_uint_parser_oversized_values() {
    // A value that is too large for 64 bits
    let big_value: u128 = 2 * (u64::MAX as u128);
    let small_value: u128 = u64::MAX as u128;

    for (order, big_input, small_input) in [
        (
            Endianness::Big,
            big_value.to_be_bytes(),
            small_value.to_be_bytes(),
        ),
        (
            Endianness::Little,
            big_value.to_le_bytes(),
            small_value.to_le_bytes(),
        ),
    ] {
        let parser = uint_parser(16, Some(order)).unwrap();
        assert_eq!(
            backtrace(parser.parse(&big_input, 0)),
            vec![(
                16,
                MshParserErrorKind::ValueOutOfRange(ValueType::UnsignedInt)
            )]
        );
        assert_eq!(parser.parse(&small_input, 0).unwrap(), (16, u64::MAX));
    }

    let parser = uint_parser(8, None).unwrap();
    assert_eq!(
        backtrace(parser.parse(big_value.to_string().as_bytes(), 0)),
        vec![token(20, TokenErrorKind::ParseTo)]
    );
    assert_eq!(
        parser.parse(small_value.to_string().as_bytes(), 0).unwrap(),
        (20, u64::MAX)
    );
    assert_eq!(
        backtrace(parser.parse(b"18446744073709551616", 0)),
        vec![token(20, TokenErrorKind::ParseTo)]
    );
    assert!(parser
        .parse(b"99999999999999999999999999999999999999999999", 0)
        .is_err());
}

#[test]
fn test_int_parser_oversized_values() {
    // A value that is too large for 32 bits
    let big_value: i64 = 2 * (i32::MAX as i64);
    let small_value: i64 = i32::MAX as i64;

    for (order, big_input, small_input) in [
        (
            Endianness::Big,
            big_value.to_be_bytes(),
            small_value.to_be_bytes(),
        ),
        (
            Endianness::Little,
            big_value.to_le_bytes(),
            small_value.to_le_bytes(),
        ),
    ] {
        let parser = int_parser(8, Some(order)).unwrap();
        assert_eq!(
            backtrace(parser.parse(&big_input, 0)),
            vec![(8, MshParserErrorKind::ValueOutOfRange(ValueType::Int))]
        );
        assert_eq!(parser.parse(&small_input, 0).unwrap(), (8, i32::MAX));
    }

    let parser = int_parser(4, None).unwrap();
    assert_eq!(
        backtrace(parser.parse(big_value.to_string().as_bytes(), 0)),
        vec![token(10, TokenErrorKind::ParseTo)]
    );
    assert_eq!(
        parser.parse(small_value.to_string().as_bytes(), 0).unwrap(),
        (10, i32::MAX)
    );
    assert_eq!(parser.parse(b"-2147483648", 0).unwrap(), (11, i32::MIN));
    assert!(parser.parse(b"-2147483649", 0).is_err());
    assert!(parser.parse(b"2147483648", 0).is_err());
}

#[test]
fn test_binary_int_all_widths() {
    for order in [Endianness::Big, Endianness::Little] {
        let parser = int_parser(1, Some(order)).unwrap();
        assert_eq!(parser.parse(&[0xff], 0).unwrap(), (1, -1));
        assert_eq!(parser.parse(&[0x80], 0).unwrap(), (1, -128));
        assert_eq!(parser.parse(&[0x7f], 0).unwrap(), (1, 127));
    }
    for value in [0i32, 1, -1, 300, -300, i32::MAX, i32::MIN] {
        let parser = int_parser(2, Some(Endianness::Big)).unwrap();
        if let Ok(v) = i16::try_from(value) {
            assert_eq!(parser.parse(&v.to_be_bytes(), 0).unwrap(), (2, value));
            let parser = int_parser(2, Some(Endianness::Little)).unwrap();
            assert_eq!(parser.parse(&v.to_le_bytes(), 0).unwrap(), (2, value));
        }
        let parser = int_parser(4, Some(Endianness::Big)).unwrap();
        assert_eq!(parser.parse(&value.to_be_bytes(), 0).unwrap(), (4, value));
        let parser = int_parser(4, Some(Endianness::Little)).unwrap();
        assert_eq!(parser.parse(&value.to_le_bytes(), 0).unwrap(), (4, value));
        let parser = int_parser(8, Some(Endianness::Big)).unwrap();
        assert_eq!(
            parser.parse(&(value as i64).to_be_bytes(), 0).unwrap(),
            (8, value)
        );
        let parser = int_parser(16, Some(Endianness::Little)).unwrap();
        assert_eq!(
            parser.parse(&(value as i128).to_le_bytes(), 0).unwrap(),
            (16, value)
        );
        let parser = int_parser(16, Some(Endianness::Big)).unwrap();
        assert_eq!(
            parser.parse(&(value as i128).to_be_bytes(), 0).unwrap(),
            (16, value)
        );
    }
    let parser = int_parser(16, Some(Endianness::Big)).unwrap();
    assert_eq!(
        backtrace(parser.parse(&i128::MIN.to_be_bytes(), 0)),
        vec![(16, MshParserErrorKind::ValueOutOfRange(ValueType::Int))]
    );
    assert_eq!(
        backtrace(parser.parse(&(i32::MIN as i128 - 1).to_be_bytes(), 0)),
        vec![(16, MshParserErrorKind::ValueOutOfRange(ValueType::Int))]
    );
}

#[test]
fn test_float_parser_oversized_values() {
    // Values of double precision stay as they are
    for value in [0.0f64, -0.0, 1.5, 4.1, 2.0 * (f32::MAX as f64), f64::MIN_POSITIVE] {
        let parser = float_parser(8, Some(Endianness::Big)).unwrap();
        assert_eq!(
            parser.parse(&value.to_be_bytes(), 0).unwrap(),
            (8, value.to_bits())
        );
        let parser = float_parser(8, Some(Endianness::Little)).unwrap();
        assert_eq!(
            parser.parse(&value.to_le_bytes(), 0).unwrap(),
            (8, value.to_bits())
        );
    }
    // Values of single precision are widened
    for value in [0.0f32, -0.0, 1.5, 4.1, f32::MAX, f32::INFINITY] {
        let parser = float_parser(4, Some(Endianness::Big)).unwrap();
        assert_eq!(
            parser.parse(&value.to_be_bytes(), 0).unwrap(),
            (4, (value as f64).to_bits())
        );
        let parser = float_parser(4, Some(Endianness::Little)).unwrap();
        assert_eq!(
            parser.parse(&value.to_le_bytes(), 0).unwrap(),
            (4, (value as f64).to_bits())
        );
    }
    // Every class of single precision values: zeros, subnormal and normal
    // values, infinities and not-a-number values
    let patterns: [u32; 22] = [
        0x0000_0000,
        0x8000_0000,
        0x0000_0001,
        0x8000_0001,
        0x0000_0002,
        0x0000_0003,
        0x0040_0000,
        0x007f_ffff,
        0x0012_3456,
        0x0080_0000,
        0x0080_0001,
        0x3f80_0000,
        0xbf80_0000,
        0x4083_3333,
        0x7f7f_ffff,
        0xff7f_ffff,
        0x7f80_0000,
        0xff80_0000,
        0x7f80_0001,
        0x7fc0_0000,
        0xffc0_1234,
        0x7fbf_ffff,
    ];
    for bits in patterns {
        let expected = (f32::from_bits(bits) as f64).to_bits();
        assert_eq!(mshio::parsers::num_parsers::single_to_double(bits), expected);
        let parser = float_parser(4, Some(Endianness::Big)).unwrap();
        assert_eq!(parser.parse(&bits.to_be_bytes(), 0).unwrap(), (4, expected));
        let parser = float_parser(4, Some(Endianness::Little)).unwrap();
        assert_eq!(parser.parse(&bits.to_le_bytes(), 0).unwrap(), (4, expected));
    }
    for exponent in 0..=255u32 {
        for fraction in [0u32, 1, 0x2a, 0x40_0000, 0x55_5555, 0x7f_ffff] {
            for sign in [0u32, 1] {
                let bits = (sign << 31) | (exponent << 23) | fraction;
                assert_eq!(
                    mshio::parsers::num_parsers::single_to_double(bits),
                    (f32::from_bits(bits) as f64).to_bits()
                );
            }
        }
    }
    assert_eq!(
        mshio::parsers::num_parsers::single_to_double(0x7f80_0001),
        0x7ff8_0000_2000_0000
    );
    assert_eq!(
        mshio::parsers::num_parsers::single_to_double(0x0000_0001),
        0x36a0_0000_0000_0000
    );
    assert_eq!(
        mshio::parsers::num_parsers::single_to_double(0x4083_3333),
        0x4010_6666_6000_0000
    );
    let parser = float_parser(4, Some(Endianness::Little)).unwrap();
    assert_eq!(
        backtrace(parser.parse(&[0, 0, 0], 0)),
        vec![token(0, TokenErrorKind::Eof)]
    );
    let parser = float_parser(8, Some(Endianness::Big)).unwrap();
    assert_eq!(
        backtrace(parser.parse(&[0, 0, 0, 0, 0, 0, 0], 0)),
        vec![token(0, TokenErrorKind::Eof)]
    );
}

#[test]
fn test_ascii_numbers() {
    let parsers = ascii_parsers();
    assert_eq!(parsers.parse_size_t(b"  42 \n7", 0).unwrap(), (6, 42));
    assert_eq!(parsers.parse_size_t(b"007", 0).unwrap(), (3, 7));
    assert_eq!(parsers.parse_to_usize(b"\t12", 0).unwrap(), (3, 12));
    assert_eq!(
        backtrace(parsers.parse_size_t(b" -1", 0)),
        vec![token(1, TokenErrorKind::Digit)]
    );
    assert_eq!(
        backtrace(parsers.parse_size_t(b"  ", 0)),
        vec![token(2, TokenErrorKind::Digit)]
    );
    assert_eq!(parsers.parse_int(b" -17 ", 0).unwrap(), (5, -17));
    assert_eq!(parsers.parse_int(b"+17x", 0).unwrap(), (3, 17));
    assert_eq!(parsers.parse_int(b"-0", 0).unwrap(), (2, 0));
    assert_eq!(
        backtrace(parsers.parse_int(b" - 1", 0)),
        vec![token(2, TokenErrorKind::Digit)]
    );
    assert_eq!(
        parsers.parse_float(b" 0.5 1", 0).unwrap(),
        (5, 0.5f64.to_bits())
    );
    assert_eq!(
        parsers.parse_float(b"-1.25e2\n", 0).unwrap(),
        (8, (-125.0f64).to_bits())
    );
    assert_eq!(
        parsers.parse_float(b"4.1", 0).unwrap(),
        (3, 0x4010_6666_6666_6666)
    );
    assert_eq!(parsers.parse_float(b"7 ", 0).unwrap(), (2, 7.0f64.to_bits()));
    assert_eq!(
        backtrace(parsers.parse_float(b" abc", 0)),
        vec![token(1, TokenErrorKind::Float)]
    );
    assert_eq!(
        parsers.parse_float(b".5 ", 0).unwrap(),
        (3, 0.5f64.to_bits())
    );
    assert_eq!(
        parsers.parse_float(b"+2.E1x", 0).unwrap(),
        (5, 20.0f64.to_bits())
    );
    assert_eq!(
        parsers.parse_float(b"-3.061616997868383e-17\n1", 0).unwrap(),
        (23, (-3.061616997868383e-17f64).to_bits())
    );
    // Only numerals are floating point literals
    for text in [&b"inf"[..], &b"nan"[..], &b"NaN"[..], &b"infinity"[..], &b""[..], &b"-"[..], &b"."[..]] {
        assert_eq!(
            backtrace(parsers.parse_float(text, 0)),
            vec![token(0, TokenErrorKind::Float)]
        );
    }
    // An exponent needs digits
    assert_eq!(
        backtrace(parsers.parse_float(b"1e", 0)),
        vec![token(0, TokenErrorKind::Float)]
    );
}

#[test]
fn test_parse_header_section() {
    let (next, header) = parse_header_section(b"4.1 0 8\n", 0).unwrap();
    assert_eq!(next, 8);
    assert_eq!(header.version, 0x4010_6666_6666_6666);
    assert_eq!(header.file_type, 0);
    assert_eq!(header.size_t_size, 8);
    assert_eq!(header.int_size, 4);
    assert_eq!(header.float_size, 8);
    assert_eq!(header.endianness, None);

    let mut binary = b"4.1 1 4\r\n".to_vec();
    binary.extend_from_slice(&1i32.to_be_bytes());
    let (next, header) = parse_header_section(&binary, 0).unwrap();
    // The test value is read, but not consumed
    assert_eq!(next, 9);
    assert_eq!(header.file_type, 1);
    assert_eq!(header.size_t_size, 4);
    assert_eq!(header.endianness, Some(Endianness::Big));
    let parsers = num_parsers_from_header(&header).unwrap();
    assert_eq!(parsers.size_t_parser.source_size, 4);
    assert_eq!(parsers.int_parser.source_size, 4);
    assert_eq!(parsers.float_parser.source_size, 8);
    assert_eq!(parsers.float_parser.endianness, Some(Endianness::Big));

    let mut binary = b"4.1 1 8\n".to_vec();
    binary.extend_from_slice(&1i32.to_le_bytes());
    let (_, header) = parse_header_section(&binary, 0).unwrap();
    assert_eq!(header.endianness, Some(Endianness::Little));

    assert_eq!(
        backtrace(parse_header_section(b"4.2 0 8\n", 0)),
        vec![(0, MshParserErrorKind::UnsupportedMshVersion)]
    );
    assert_eq!(
        backtrace(parse_header_section(b"x 0 8\n", 0)),
        vec![token(0, TokenErrorKind::Float)]
    );
    assert_eq!(
        backtrace(parse_header_section(b"4.1 5 8\n", 0)),
        vec![
            (3, MshParserErrorKind::InvalidFileHeader),
            (
                3,
                MshParserErrorKind::Context(
                    "Invalid file type (expected 0 for ASCII or 1 for binary)".to_string()
                )
            ),
            (3, MshParserErrorKind::Context("file type flag".to_string())),
        ]
    );
    assert_eq!(
        backtrace(parse_header_section(b"4.1 0 8", 0)),
        vec![
            token(7, TokenErrorKind::Tag),
            token(7, TokenErrorKind::Alt),
            (5, MshParserErrorKind::Context("data size".to_string())),
        ]
    );
    assert_eq!(
        backtrace(parse_header_section(b"4.1 0 99999999999\n", 0)),
        vec![
            (5, MshParserErrorKind::InvalidFileHeader),
            (5, MshParserErrorKind::Context("data size".to_string())),
        ]
    );
}

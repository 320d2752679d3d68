//! Parser for the content of the `$MeshFormat` section, the header of an MSH
//! file.
//!
//! The header is a line of three fields: the version of the format, which
//! has to be 4.1, the file type, 0 for ASCII and 1 for binary, and the width
//! in bytes of a `size_t` value. In a binary file the number one follows as
//! an `int` of four bytes, which tells the byte order of the file.

use vstd::prelude::*;

use crate::error::{
    agrees, failure, make_error, or_context, KindView, MshParserError, MshParserErrorKind, Parsed,
    TokenErrorKind, Trace, ValueType,
};
use crate::mshfile::MshHeader;
use crate::parsers::general_parsers::{
    br, digit1, lemma_skip_bounds, sp, spec_br, spec_digit1, spec_sp, ByteClass,
};
use crate::parsers::num_parsers::{
    be_u32, decimal_value, digits_value, double, double_result, fixed_uint, float_parser,
    int_parser, le_u32, supported_float_size, supported_int_size, uint_parser, Endianness,
    FloatParser, IntParser, NumParsers, UintParser,
};

verus! {

/// The bit pattern of the double 4.1, the only supported version of the format.
pub open spec fn supported_version() -> u64 {
    0x4010_6666_6666_6666
}

/// The file type flag: a whitespace and the numeral 0 or 1.
pub open spec fn spec_file_type(input: Seq<u8>, pos: int) -> Parsed<i32> {
    or_context(
        match spec_sp(input, pos) {
            Err(t) => Err(t),
            Ok(digits) => match spec_digit1(input, digits) {
                Err(t) => Err(t),
                Ok(next) => if digits_value(input, digits, next) <= 1 {
                    Ok((next, digits_value(input, digits, next) as i32))
                } else {
                    or_context(
                        failure(pos, KindView::InvalidFileHeader),
                        pos,
                        "Invalid file type (expected 0 for ASCII or 1 for binary)"@,
                    )
                },
            },
        },
        pos,
        "file type flag"@,
    )
}

/// The width of a `size_t` value: a whitespace, a numeral and a line break.
pub open spec fn spec_data_size(input: Seq<u8>, pos: int) -> Parsed<usize> {
    or_context(
        match spec_sp(input, pos) {
            Err(t) => Err(t),
            Ok(digits) => match spec_digit1(input, digits) {
                Err(t) => Err(t),
                Ok(end) => match spec_br(input, end) {
                    Err(t) => Err(t),
                    Ok(next) => if digits_value(input, digits, end) <= i32::MAX {
                        Ok((next, digits_value(input, digits, end) as usize))
                    } else {
                        failure(pos, KindView::InvalidFileHeader)
                    },
                },
            },
        },
        pos,
        "data size"@,
    )
}

/// The byte order of a binary file: the one in which the four bytes at `pos`
/// spell the number one.
pub open spec fn spec_endianness(input: Seq<u8>, pos: int) -> Result<Endianness, Trace> {
    if fixed_uint(input, pos, 4, Endianness::Big) is None {
        Err(
            seq![
                (pos, KindView::NomError(TokenErrorKind::Eof)),
                (pos, KindView::Context("endianness test value"@)),
            ],
        )
    } else if fixed_uint(input, pos, 4, Endianness::Big) == Some(1nat) {
        Ok(Endianness::Big)
    } else if fixed_uint(input, pos, 4, Endianness::Little) == Some(1nat) {
        Ok(Endianness::Little)
    } else {
        Err(
            seq![
                (pos, KindView::InvalidFileHeader),
                (pos, KindView::Context("Unable to detect endianness of binary file"@)),
            ],
        )
    }
}

/// The header with the given fields, behind which the input stands at `pos`,
/// unless `size_t` values of that width cannot be read from a binary file.
pub open spec fn spec_finish_header(
    version: u64,
    file_type: i32,
    size_t_size: usize,
    endianness: Option<Endianness>,
    pos: int,
) -> Parsed<MshHeader> {
    if endianness is Some && !supported_int_size(size_t_size) {
        failure(
            pos,
            KindView::UnsupportedTypeSize(ValueType::UnsignedInt, size_t_size),
        )
    } else {
        Ok(
            (
                pos,
                MshHeader {
                    version,
                    file_type,
                    size_t_size,
                    int_size: 4,
                    float_size: 8,
                    endianness,
                },
            ),
        )
    }
}

/// The header that follows from the result of the floating point tokenizer on
/// the text at `pos`, where the version stands.
#[verifier::opaque]
pub open spec fn header_from_version(input: Seq<u8>, pos: int, version: Option<(u64, usize)>) -> Parsed<
    MshHeader,
> {
    match version {
        None => failure(pos, KindView::NomError(TokenErrorKind::Float)),
        Some((bits, rest)) => if bits != supported_version() {
            failure(pos, KindView::UnsupportedMshVersion)
        } else {
            match spec_file_type(input, input.len() - rest) {
                Err(t) => Err(t),
                Ok((size_at, file_type)) => match spec_data_size(input, size_at) {
                    Err(t) => Err(t),
                    Ok((next, size_t_size)) => if file_type == 1 {
                        match spec_endianness(input, next) {
                            Err(t) => Err(t),
                            Ok(order) => spec_finish_header(
                                bits,
                                file_type,
                                size_t_size,
                                Some(order),
                                next,
                            ),
                        }
                    } else {
                        spec_finish_header(bits, file_type, size_t_size, None, next)
                    },
                },
            }
        },
    }
}

/// The header of an MSH file, whose content starts at `pos`.
pub open spec fn spec_header(input: Seq<u8>, pos: int) -> Parsed<MshHeader> {
    header_from_version(input, pos, double_result(input.subrange(pos, input.len() as int)))
}

/// The parsers of the numbers of a file with the given header.
pub open spec fn parsers_of(header: MshHeader) -> NumParsers {
    NumParsers {
        size_t_parser: UintParser {
            source_size: header.size_t_size,
            endianness: header.endianness,
        },
        int_parser: IntParser { source_size: header.int_size, endianness: header.endianness },
        float_parser: FloatParser {
            source_size: header.float_size,
            endianness: header.endianness,
        },
    }
}

/// The first kind of number of a binary file with the given header that has
/// a width that cannot be read, if there is one: the `size_t`, the `int` or
/// the `double` values.
pub open spec fn unsupported_size(header: MshHeader) -> Option<KindView> {
    if header.endianness is None {
        None
    } else if !supported_int_size(header.size_t_size) {
        Some(KindView::UnsupportedTypeSize(ValueType::UnsignedInt, header.size_t_size))
    } else if !supported_int_size(header.int_size) {
        Some(KindView::UnsupportedTypeSize(ValueType::Int, header.int_size))
    } else if !supported_float_size(header.float_size) {
        Some(KindView::UnsupportedTypeSize(ValueType::Float, header.float_size))
    } else {
        None
    }
}

/// Whether a header is one of a file that can be read: its version is 4.1,
/// its file type is 0 or 1, it has a byte order if and only if the file is
/// binary, its `int` values have 4 bytes and its `double` values 8, and in a
/// binary file its `size_t` values have a width that can be read.
pub open spec fn header_is_valid(header: MshHeader) -> bool {
    &&& header.version == supported_version()
    &&& header.file_type == 0 || header.file_type == 1
    &&& header.endianness is Some <==> header.file_type == 1
    &&& header.int_size == 4
    &&& header.float_size == 8
    &&& header.endianness is Some ==> supported_int_size(header.size_t_size)
}

/// A header that is accepted is valid.
pub proof fn lemma_header_is_valid(input: Seq<u8>, pos: int)
    ensures
        spec_header(input, pos) matches Ok((_, header)) ==> header_is_valid(header),
{
    reveal(header_from_version);
}

/// A version other than 4.1 is rejected as unsupported, whatever follows it.
pub proof fn lemma_version_guard(input: Seq<u8>, pos: int, bits: u64, rest: usize)
    requires
        bits != supported_version(),
    ensures
        header_from_version(input, pos, Some((bits, rest))) == failure::<MshHeader>(
            pos,
            KindView::UnsupportedMshVersion,
        ),
{
    reveal(header_from_version);
}

/// Parses the file type flag
fn parse_file_type(input: &[u8], pos: usize) -> (r: Result<(usize, i32), MshParserError>)
    requires
        pos <= input.len(),
    ensures
        agrees(r, spec_file_type(input@, pos as int)),
        r matches Ok((next, _)) ==> pos <= next <= input.len(),
{
    let digits = match sp(input, pos) {
        Ok(p) => p,
        Err(e) => {
            return Err(e.with_context(pos, "file type flag"));
        },
    };
    let next = match digit1(input, digits) {
        Ok(p) => p,
        Err(e) => {
            return Err(e.with_context(pos, "file type flag"));
        },
    };
    proof {
        lemma_skip_bounds(input@, digits as int, ByteClass::Digit);
    }
    match decimal_value(input, digits, next) {
        Some(0) => Ok((next, 0)),
        Some(1) => Ok((next, 1)),
        _ => Err(
            make_error(pos, MshParserErrorKind::InvalidFileHeader).with_context(
                pos,
                "Invalid file type (expected 0 for ASCII or 1 for binary)",
            ).with_context(pos, "file type flag"),
        ),
    }
}

/// Parses the width of a `size_t` value
fn parse_data_size(input: &[u8], pos: usize) -> (r: Result<(usize, usize), MshParserError>)
    requires
        pos <= input.len(),
    ensures
        agrees(r, spec_data_size(input@, pos as int)),
        r matches Ok((next, _)) ==> pos <= next <= input.len(),
{
    let digits = match sp(input, pos) {
        Ok(p) => p,
        Err(e) => {
            return Err(e.with_context(pos, "data size"));
        },
    };
    let end = match digit1(input, digits) {
        Ok(p) => p,
        Err(e) => {
            return Err(e.with_context(pos, "data size"));
        },
    };
    let next = match br(input, end) {
        Ok(p) => p,
        Err(e) => {
            return Err(e.with_context(pos, "data size"));
        },
    };
    proof {
        lemma_skip_bounds(input@, digits as int, ByteClass::Digit);
    }
    match decimal_value(input, digits, end) {
        Some(v) => if v <= 0x7fff_ffff {
            Ok((next, v as usize))
        } else {
            Err(make_error(pos, MshParserErrorKind::InvalidFileHeader).with_context(pos, "data size"))
        },
        None => Err(
            make_error(pos, MshParserErrorKind::InvalidFileHeader).with_context(pos, "data size"),
        ),
    }
}

/// Detects the byte order of a binary file from the four bytes at `pos`
fn detect_endianness(input: &[u8], pos: usize) -> (r: Result<Endianness, MshParserError>)
    requires
        pos <= input.len(),
    ensures
        match r {
            Ok(order) => spec_endianness(input@, pos as int) == Ok::<Endianness, Trace>(order),
            Err(e) => spec_endianness(input@, pos as int) == Err::<Endianness, Trace>(e@),
        },
{
    let big = match be_u32(input, pos) {
        Some(v) => v,
        None => {
            let e = make_error(
                pos,
                MshParserErrorKind::NomError(TokenErrorKind::Eof),
            ).with_context(pos, "endianness test value");
            assert(e@ =~= seq![
                (pos as int, KindView::NomError(TokenErrorKind::Eof)),
                (pos as int, KindView::Context("endianness test value"@)),
            ]);
            return Err(e);
        },
    };
    if big == 1 {
        return Ok(Endianness::Big);
    }
    match le_u32(input, pos) {
        Some(1) => Ok(Endianness::Little),
        _ => {
            let e = make_error(pos, MshParserErrorKind::InvalidFileHeader).with_context(
                pos,
                "Unable to detect endianness of binary file",
            );
            assert(e@ =~= seq![
                (pos as int, KindView::InvalidFileHeader),
                (pos as int, KindView::Context("Unable to detect endianness of binary file"@)),
            ]);
            Err(e)
        },
    }
}

/// Returns the parsers of the numbers of a file with the given header, unless
/// the file is binary and has numbers of a width that cannot be read
pub fn num_parsers_from_header(header: &MshHeader) -> (r: Result<NumParsers, MshParserErrorKind>)
    ensures
        match r {
            Ok(parsers) => unsupported_size(*header) is None && parsers == parsers_of(*header),
            Err(kind) => unsupported_size(*header) == Some(kind@),
        },
{
    let size_t_parser = match uint_parser(header.size_t_size, header.endianness) {
        Ok(p) => p,
        Err(k) => {
            return Err(k);
        },
    };
    let int_parser = match int_parser(header.int_size, header.endianness) {
        Ok(p) => p,
        Err(k) => {
            return Err(k);
        },
    };
    let float_parser = match float_parser(header.float_size, header.endianness) {
        Ok(p) => p,
        Err(k) => {
            return Err(k);
        },
    };
    Ok(NumParsers { size_t_parser, int_parser, float_parser })
}

/// Parses the header behind its version, given what the floating point
/// tokenizer found at `pos`, where the version stands
pub fn parse_header_from_version(input: &[u8], pos: usize, version: Option<(u64, usize)>) -> (r:
    Result<(usize, MshHeader), MshParserError>)
    requires
        pos <= input.len(),
        version matches Some((_, rest)) ==> rest <= input.len() - pos,
    ensures
        agrees(r, header_from_version(input@, pos as int, version)),
        r matches Ok((next, header)) ==> pos <= next <= input.len() && header_is_valid(header),
{
    reveal(header_from_version);
    let (bits, rest) = match version {
        Some(v) => v,
        None => {
            return Err(make_error(pos, MshParserErrorKind::NomError(TokenErrorKind::Float)));
        },
    };
    if bits != 0x4010_6666_6666_6666 {
        return Err(make_error(pos, MshParserErrorKind::UnsupportedMshVersion));
    }
    let (size_at, file_type) = match parse_file_type(input, input.len() - rest) {
        Ok(v) => v,
        Err(e) => {
            return Err(e);
        },
    };
    let (next, size_t_size) = match parse_data_size(input, size_at) {
        Ok(v) => v,
        Err(e) => {
            return Err(e);
        },
    };
    let endianness = if file_type == 1 {
        match detect_endianness(input, next) {
            Ok(order) => Some(order),
            Err(e) => {
                return Err(e);
            },
        }
    } else {
        None
    };
    let header = MshHeader {
        version: bits,
        file_type,
        size_t_size,
        int_size: 4,
        float_size: 8,
        endianness,
    };
    match num_parsers_from_header(&header) {
        Ok(_) => Ok((next, header)),
        Err(kind) => Err(make_error(next, kind)),
    }
}

/// Parses the content of the header section of an MSH file
pub fn parse_header_section(input: &[u8], pos: usize) -> (r: Result<
    (usize, MshHeader),
    MshParserError,
>)
    requires
        pos <= input.len(),
    ensures
        agrees(r, spec_header(input@, pos as int)),
        r matches Ok((next, header)) ==> pos <= next <= input.len() && header_is_valid(header),
{
    let version = double(input, pos);
    parse_header_from_version(input, pos, version)
}

} // verus!

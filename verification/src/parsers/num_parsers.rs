//! Parsers for the numbers of an MSH file.
//!
//! A binary file holds numbers of a fixed width in the byte order of the
//! machine that wrote it; an ASCII file holds decimal numerals separated by
//! whitespace. The header of the file tells which, so the parsers are made
//! from a width and an optional byte order: without a byte order they read
//! text.
//!
//! A floating point value is held as the bit pattern of an IEEE 754 double.

use vstd::prelude::*;

use crate::error::{
    agrees, failure, make_error, KindView, MshParserError, MshParserErrorKind, Parsed,
    TokenErrorKind, ValueType,
};
use crate::parsers::general_parsers::{
    in_class, lemma_skip_bounds, skip, take_class, take_sp, ByteClass,
};

verus! {

/// The byte order of the numbers in a binary file
#[derive(Copy, Clone, Debug, PartialEq, Eq, Structural)]
pub enum Endianness {
    /// Most significant byte first
    Big,
    /// Least significant byte first
    Little,
}

/// The number that the bytes spell with the most significant byte first.
pub open spec fn be_value(bytes: Seq<u8>) -> nat
    decreases bytes.len(),
{
    if bytes.len() == 0 {
        0
    } else {
        be_value(bytes.drop_last()) * 256 + bytes.last() as nat
    }
}

/// The number that the bytes spell with the least significant byte first.
pub open spec fn le_value(bytes: Seq<u8>) -> nat
    decreases bytes.len(),
{
    if bytes.len() == 0 {
        0
    } else {
        bytes.first() as nat + 256 * le_value(bytes.drop_first())
    }
}

/// The unsigned number of `width` bytes that stands in the input at `pos`,
/// if that many bytes are left.
pub open spec fn fixed_uint(input: Seq<u8>, pos: int, width: int, order: Endianness) -> Option<
    nat,
> {
    if 0 <= pos && 0 <= width && pos + width <= input.len() {
        Some(
            match order {
                Endianness::Big => be_value(input.subrange(pos, pos + width)),
                Endianness::Little => le_value(input.subrange(pos, pos + width)),
            },
        )
    } else {
        None
    }
}

/// The widths in bytes of the binary integers that can be read.
pub open spec fn supported_int_size(size: usize) -> bool {
    size == 1 || size == 2 || size == 4 || size == 8 || size == 16
}

/// The widths in bytes of the binary floating point values that can be read.
pub open spec fn supported_float_size(size: usize) -> bool {
    size == 4 || size == 8
}

/// The smallest unsigned number of a width that stands for a negative one.
pub open spec fn sign_bound(size: usize) -> nat {
    if size == 1 {
        0x80
    } else if size == 2 {
        0x8000
    } else if size == 4 {
        0x8000_0000
    } else if size == 8 {
        0x8000_0000_0000_0000
    } else {
        0x8000_0000_0000_0000_0000_0000_0000_0000
    }
}

/// The two's complement reading of an unsigned number of a width.
pub open spec fn signed_value(v: nat, size: usize) -> int {
    if v >= sign_bound(size) {
        v - 2 * sign_bound(size)
    } else {
        v as int
    }
}

/// The value of a decimal digit.
pub open spec fn digit_value(b: u8) -> nat {
    if b >= 0x30 {
        (b - 0x30) as nat
    } else {
        0
    }
}

/// The number that the decimal digits from `from` up to `to` spell.
pub open spec fn digits_value(input: Seq<u8>, from: int, to: int) -> nat
    decreases to - from,
{
    if to <= from {
        0
    } else {
        digits_value(input, from, to - 1) * 10 + digit_value(input[to - 1])
    }
}

/// What `nom::number::complete::double` yields on a text: the bit pattern of
/// the parsed value and the number of bytes left behind it, or nothing where
/// the text does not start with a floating point literal.
///
/// The function recognizes the longest literal at the start of the text (an
/// optional sign, digits with an optional point or a point with digits, and
/// an optional exponent) and hands it to the conversion of the standard
/// library: it reads nothing but the text.
pub uninterp spec fn double_result(text: Seq<u8>) -> Option<(u64, usize)>;

/// The sign of a single precision bit pattern.
pub open spec fn single_sign(bits: u32) -> nat {
    (bits / 0x8000_0000) as nat
}

/// The exponent field of a single precision bit pattern.
pub open spec fn single_exponent(bits: u32) -> nat {
    ((bits / 0x80_0000) % 0x100) as nat
}

/// The fraction field of a single precision bit pattern.
pub open spec fn single_fraction(bits: u32) -> nat {
    (bits % 0x80_0000) as nat
}

/// The double precision bit pattern with the given sign, exponent field and
/// fraction field.
pub open spec fn double_bits(sign: nat, exponent: nat, fraction: nat) -> nat {
    sign * 0x8000_0000_0000_0000 + exponent * 0x10_0000_0000_0000 + fraction
}

/// A significand of a subnormal value, doubled until it has its leading bit
/// at the place of a normal significand of 24 bits: the number of doublings,
/// added to `shift`, and the doubled significand.
pub open spec fn normalized(shift: nat, significand: nat) -> (nat, nat)
    decreases 0x100_0000 - significand,
{
    if significand == 0 || significand >= 0x80_0000 {
        (shift, significand)
    } else {
        normalized(shift + 1, significand * 2)
    }
}

/// The power of two with the given exponent.
pub open spec fn two_to(exponent: nat) -> nat
    decreases exponent,
{
    if exponent == 0 {
        1
    } else {
        2 * two_to((exponent - 1) as nat)
    }
}

/// The double precision bit pattern of the value of a single precision bit
/// pattern. The sign is kept. An exponent field of a normal value is moved
/// from the bias 127 to the bias 1023 and its fraction is shifted by the 29
/// bits that a double has more. A subnormal value is a normal double: its
/// significand is doubled until it is normal, and each doubling lowers the
/// exponent. Zero and infinity stay what they are. A not-a-number value
/// stays one: it keeps its sign and its fraction and is made quiet.
pub open spec fn widened(bits: u32) -> u64 {
    let sign = single_sign(bits);
    let exponent = single_exponent(bits);
    let fraction = single_fraction(bits);
    if exponent == 0xff {
        if fraction == 0 {
            double_bits(sign, 0x7ff, 0) as u64
        } else if fraction >= 0x40_0000 {
            double_bits(sign, 0x7ff, fraction * 0x2000_0000) as u64
        } else {
            double_bits(sign, 0x7ff, 0x8_0000_0000_0000 + fraction * 0x2000_0000) as u64
        }
    } else if exponent == 0 {
        if fraction == 0 {
            double_bits(sign, 0, 0) as u64
        } else {
            double_bits(
                sign,
                (897 - normalized(0, fraction).0) as nat,
                ((normalized(0, fraction).1 - 0x80_0000) * 0x2000_0000) as nat,
            ) as u64
        }
    } else {
        double_bits(sign, exponent + 896, fraction * 0x2000_0000) as u64
    }
}

/// An unsigned decimal numeral between whitespace.
pub open spec fn ascii_uint(input: Seq<u8>, pos: int) -> Parsed<u64> {
    let start = skip(input, pos, ByteClass::Space);
    let end = skip(input, start, ByteClass::Digit);
    let next = skip(input, end, ByteClass::Space);
    if end == start {
        failure(start, KindView::NomError(TokenErrorKind::Digit))
    } else if digits_value(input, start, end) > u64::MAX {
        failure(next, KindView::NomError(TokenErrorKind::ParseTo))
    } else {
        Ok((next, digits_value(input, start, end) as u64))
    }
}

/// Whether a sign stands in the input at `pos`.
pub open spec fn sign_at(input: Seq<u8>, pos: int) -> bool {
    0 <= pos < input.len() && (input[pos] == 0x2b || input[pos] == 0x2d)
}

/// A decimal numeral with an optional sign between whitespace.
pub open spec fn ascii_int(input: Seq<u8>, pos: int) -> Parsed<i32> {
    let start = skip(input, pos, ByteClass::Space);
    let digits = if sign_at(input, start) {
        start + 1
    } else {
        start
    };
    let end = skip(input, digits, ByteClass::Digit);
    let next = skip(input, end, ByteClass::Space);
    let magnitude = digits_value(input, digits, end);
    let value = if sign_at(input, start) && input[start] == 0x2d {
        -magnitude
    } else {
        magnitude as int
    };
    if end == digits {
        failure(digits, KindView::NomError(TokenErrorKind::Digit))
    } else if i32::MIN <= value <= i32::MAX {
        Ok((next, value as i32))
    } else {
        failure(next, KindView::NomError(TokenErrorKind::ParseTo))
    }
}

/// What follows from the result of the floating point tokenizer on the text
/// at `start`, the first position behind the leading whitespace.
pub open spec fn float_from_double(input: Seq<u8>, start: int, result: Option<(u64, usize)>) -> Parsed<
    u64,
> {
    match result {
        Some((bits, rest)) => Ok((skip(input, input.len() - rest, ByteClass::Space), bits)),
        None => failure(start, KindView::NomError(TokenErrorKind::Float)),
    }
}

/// A floating point literal between whitespace.
pub open spec fn ascii_float(input: Seq<u8>, pos: int) -> Parsed<u64> {
    let start = skip(input, pos, ByteClass::Space);
    float_from_double(input, start, double_result(input.subrange(start, input.len() as int)))
}

/// An unsigned integer of a file with the given width and byte order.
pub open spec fn spec_uint(size: usize, order: Option<Endianness>, input: Seq<u8>, pos: int) -> Parsed<
    u64,
> {
    match order {
        None => ascii_uint(input, pos),
        Some(o) => if !supported_int_size(size) {
            failure(pos, KindView::UnsupportedTypeSize(ValueType::UnsignedInt, size))
        } else {
            match fixed_uint(input, pos, size as int, o) {
                None => failure(pos, KindView::NomError(TokenErrorKind::Eof)),
                Some(v) => if v <= u64::MAX {
                    Ok((pos + size, v as u64))
                } else {
                    failure(pos + size, KindView::ValueOutOfRange(ValueType::UnsignedInt))
                },
            }
        },
    }
}

/// A count: an unsigned integer that has to fit the machine's address size.
pub open spec fn spec_usize(size: usize, order: Option<Endianness>, input: Seq<u8>, pos: int) -> Parsed<
    usize,
> {
    match spec_uint(size, order, input, pos) {
        Err(t) => Err(t),
        Ok((next, v)) => if v <= usize::MAX {
            Ok((next, v as usize))
        } else {
            failure(pos, KindView::TooManyEntities)
        },
    }
}

/// A signed integer of a file with the given width and byte order.
pub open spec fn spec_int(size: usize, order: Option<Endianness>, input: Seq<u8>, pos: int) -> Parsed<
    i32,
> {
    match order {
        None => ascii_int(input, pos),
        Some(o) => if !supported_int_size(size) {
            failure(pos, KindView::UnsupportedTypeSize(ValueType::Int, size))
        } else {
            match fixed_uint(input, pos, size as int, o) {
                None => failure(pos, KindView::NomError(TokenErrorKind::Eof)),
                Some(v) => if i32::MIN <= signed_value(v, size) <= i32::MAX {
                    Ok((pos + size, signed_value(v, size) as i32))
                } else {
                    failure(pos + size, KindView::ValueOutOfRange(ValueType::Int))
                },
            }
        },
    }
}

/// What follows from the bit pattern of the double that was found at `pos`
/// in `size` bytes, or from the lack of bytes there.
pub open spec fn float_from_bits(pos: int, size: usize, found: Option<u64>) -> Parsed<u64> {
    match found {
        None => failure(pos, KindView::NomError(TokenErrorKind::Eof)),
        Some(bits) => Ok((pos + size, bits)),
    }
}

/// A floating point value of a file with the given width and byte order, as
/// the bit pattern of a double.
pub open spec fn spec_float(size: usize, order: Option<Endianness>, input: Seq<u8>, pos: int) -> Parsed<
    u64,
> {
    match order {
        None => ascii_float(input, pos),
        Some(o) => if !supported_float_size(size) {
            failure(pos, KindView::UnsupportedTypeSize(ValueType::Float, size))
        } else {
            float_from_bits(
                pos,
                size,
                if size == 8 {
                    match fixed_uint(input, pos, 8, o) {
                        Some(v) => Some(v as u64),
                        None => None,
                    }
                } else {
                    match fixed_uint(input, pos, 4, o) {
                        Some(v) => Some(widened(v as u32)),
                        None => None,
                    }
                },
            )
        },
    }
}

/// The number that digits spell is not below the number that the first of
/// them spell.
pub proof fn lemma_digits_grow(input: Seq<u8>, from: int, mid: int, to: int)
    requires
        from <= mid <= to,
    ensures
        digits_value(input, from, mid) <= digits_value(input, from, to),
    decreases to - mid,
{
    if mid < to {
        lemma_digits_grow(input, from, mid, to - 1);
        assert(digits_value(input, from, to - 1) * 10 >= digits_value(input, from, to - 1))
            by (nonlinear_arith);
    }
}

/// `nom::number::complete::be_u8`: nothing where no byte is left at `pos`,
/// else the byte there.
#[verifier::external_body]
fn be_u8(input: &[u8], pos: usize) -> (r: Option<u8>)
    requires
        pos <= input.len(),
    ensures
        match r {
            Some(v) => fixed_uint(input@, pos as int, 1, Endianness::Big) == Some(v as nat),
            None => fixed_uint(input@, pos as int, 1, Endianness::Big) is None,
        },
{
    match nom::number::complete::be_u8::<()>(&input[pos..]) {
        Ok((_, v)) => Some(v),
        Err(_) => None,
    }
}

/// `nom::number::complete::be_u16`: nothing where fewer than 2 bytes are left
/// at `pos`, else the number that they spell, most significant byte first.
#[verifier::external_body]
fn be_u16(input: &[u8], pos: usize) -> (r: Option<u16>)
    requires
        pos <= input.len(),
    ensures
        match r {
            Some(v) => fixed_uint(input@, pos as int, 2, Endianness::Big) == Some(v as nat),
            None => fixed_uint(input@, pos as int, 2, Endianness::Big) is None,
        },
{
    match nom::number::complete::be_u16::<()>(&input[pos..]) {
        Ok((_, v)) => Some(v),
        Err(_) => None,
    }
}

/// `nom::number::complete::be_u32`: nothing where fewer than 4 bytes are left
/// at `pos`, else the number that they spell, most significant byte first.
#[verifier::external_body]
pub(crate) fn be_u32(input: &[u8], pos: usize) -> (r: Option<u32>)
    requires
        pos <= input.len(),
    ensures
        match r {
            Some(v) => fixed_uint(input@, pos as int, 4, Endianness::Big) == Some(v as nat),
            None => fixed_uint(input@, pos as int, 4, Endianness::Big) is None,
        },
{
    match nom::number::complete::be_u32::<()>(&input[pos..]) {
        Ok((_, v)) => Some(v),
        Err(_) => None,
    }
}

/// `nom::number::complete::be_u64`: nothing where fewer than 8 bytes are left
/// at `pos`, else the number that they spell, most significant byte first.
#[verifier::external_body]
fn be_u64(input: &[u8], pos: usize) -> (r: Option<u64>)
    requires
        pos <= input.len(),
    ensures
        match r {
            Some(v) => fixed_uint(input@, pos as int, 8, Endianness::Big) == Some(v as nat),
            None => fixed_uint(input@, pos as int, 8, Endianness::Big) is None,
        },
{
    match nom::number::complete::be_u64::<()>(&input[pos..]) {
        Ok((_, v)) => Some(v),
        Err(_) => None,
    }
}

/// `nom::number::complete::be_u128`: nothing where fewer than 16 bytes are
/// left at `pos`, else the number that they spell, most significant byte first.
#[verifier::external_body]
fn be_u128(input: &[u8], pos: usize) -> (r: Option<u128>)
    requires
        pos <= input.len(),
    ensures
        match r {
            Some(v) => fixed_uint(input@, pos as int, 16, Endianness::Big) == Some(v as nat),
            None => fixed_uint(input@, pos as int, 16, Endianness::Big) is None,
        },
{
    match nom::number::complete::be_u128::<()>(&input[pos..]) {
        Ok((_, v)) => Some(v),
        Err(_) => None,
    }
}

/// `nom::number::complete::le_u8`: nothing where no byte is left at `pos`,
/// else the byte there.
#[verifier::external_body]
fn le_u8(input: &[u8], pos: usize) -> (r: Option<u8>)
    requires
        pos <= input.len(),
    ensures
        match r {
            Some(v) => fixed_uint(input@, pos as int, 1, Endianness::Little) == Some(v as nat),
            None => fixed_uint(input@, pos as int, 1, Endianness::Little) is None,
        },
{
    match nom::number::complete::le_u8::<()>(&input[pos..]) {
        Ok((_, v)) => Some(v),
        Err(_) => None,
    }
}

/// `nom::number::complete::le_u16`: nothing where fewer than 2 bytes are left
/// at `pos`, else the number that they spell, least significant byte first.
#[verifier::external_body]
fn le_u16(input: &[u8], pos: usize) -> (r: Option<u16>)
    requires
        pos <= input.len(),
    ensures
        match r {
            Some(v) => fixed_uint(input@, pos as int, 2, Endianness::Little) == Some(v as nat),
            None => fixed_uint(input@, pos as int, 2, Endianness::Little) is None,
        },
{
    match nom::number::complete::le_u16::<()>(&input[pos..]) {
        Ok((_, v)) => Some(v),
        Err(_) => None,
    }
}

/// `nom::number::complete::le_u32`: nothing where fewer than 4 bytes are left
/// at `pos`, else the number that they spell, least significant byte first.
#[verifier::external_body]
pub(crate) fn le_u32(input: &[u8], pos: usize) -> (r: Option<u32>)
    requires
        pos <= input.len(),
    ensures
        match r {
            Some(v) => fixed_uint(input@, pos as int, 4, Endianness::Little) == Some(v as nat),
            None => fixed_uint(input@, pos as int, 4, Endianness::Little) is None,
        },
{
    match nom::number::complete::le_u32::<()>(&input[pos..]) {
        Ok((_, v)) => Some(v),
        Err(_) => None,
    }
}

/// `nom::number::complete::le_u64`: nothing where fewer than 8 bytes are left
/// at `pos`, else the number that they spell, least significant byte first.
#[verifier::external_body]
fn le_u64(input: &[u8], pos: usize) -> (r: Option<u64>)
    requires
        pos <= input.len(),
    ensures
        match r {
            Some(v) => fixed_uint(input@, pos as int, 8, Endianness::Little) == Some(v as nat),
            None => fixed_uint(input@, pos as int, 8, Endianness::Little) is None,
        },
{
    match nom::number::complete::le_u64::<()>(&input[pos..]) {
        Ok((_, v)) => Some(v),
        Err(_) => None,
    }
}

/// `nom::number::complete::le_u128`: nothing where fewer than 16 bytes are
/// left at `pos`, else the number that they spell, least significant byte
/// first.
#[verifier::external_body]
fn le_u128(input: &[u8], pos: usize) -> (r: Option<u128>)
    requires
        pos <= input.len(),
    ensures
        match r {
            Some(v) => fixed_uint(input@, pos as int, 16, Endianness::Little) == Some(v as nat),
            None => fixed_uint(input@, pos as int, 16, Endianness::Little) is None,
        },
{
    match nom::number::complete::le_u128::<()>(&input[pos..]) {
        Ok((_, v)) => Some(v),
        Err(_) => None,
    }
}

/// `nom::number::complete::double` on the text from `pos` on: the bit pattern
/// of the value and the number of bytes left behind the literal, which are
/// bytes of the text.
#[verifier::external_body]
pub(crate) fn double(input: &[u8], pos: usize) -> (r: Option<(u64, usize)>)
    requires
        pos <= input.len(),
    ensures
        r == double_result(input@.subrange(pos as int, input.len() as int)),
        r matches Some((_, rest)) ==> rest <= input.len() - pos,
{
    match nom::number::complete::double::<&[u8], ()>(&input[pos..]) {
        Ok((rest, v)) => Some((v.to_bits(), rest.len())),
        Err(_) => None,
    }
}

/// `num_traits::cast` from `u128` to `u64`: the same number where it is at
/// most `u64::MAX`, else nothing.
#[verifier::external_body]
fn cast_to_u64(v: u128) -> (r: Option<u64>)
    ensures
        r == (if v <= u64::MAX {
            Some(v as u64)
        } else {
            None
        }),
{
    num_traits::cast::<u128, u64>(v)
}

/// `num_traits::cast` from `i128` to `i32`: the same number where it lies
/// between `i32::MIN` and `i32::MAX`, else nothing.
#[verifier::external_body]
fn cast_to_i32(v: i128) -> (r: Option<i32>)
    ensures
        r == (if i32::MIN <= v <= i32::MAX {
            Some(v as i32)
        } else {
            None
        }),
{
    num_traits::cast::<i128, i32>(v)
}

/// `num_traits::ToPrimitive::to_usize` of a `u64`: the same number where it is
/// at most `usize::MAX`, else nothing.
#[verifier::external_body]
fn cast_to_usize(v: u64) -> (r: Option<usize>)
    ensures
        r == (if v <= usize::MAX {
            Some(v as usize)
        } else {
            None
        }),
{
    num_traits::ToPrimitive::to_usize(&v)
}

/// Reads a binary unsigned integer of a supported width
fn read_uint(input: &[u8], pos: usize, size: usize, order: Endianness) -> (r: Option<u128>)
    requires
        pos <= input.len(),
        supported_int_size(size),
    ensures
        match r {
            Some(v) => fixed_uint(input@, pos as int, size as int, order) == Some(v as nat) && v
                < 2 * sign_bound(size),
            None => fixed_uint(input@, pos as int, size as int, order) is None,
        },
{
    match order {
        Endianness::Little => if size == 1 {
            match le_u8(input, pos) {
                Some(v) => Some(v as u128),
                None => None,
            }
        } else if size == 2 {
            match le_u16(input, pos) {
                Some(v) => Some(v as u128),
                None => None,
            }
        } else if size == 4 {
            match le_u32(input, pos) {
                Some(v) => Some(v as u128),
                None => None,
            }
        } else if size == 8 {
            match le_u64(input, pos) {
                Some(v) => Some(v as u128),
                None => None,
            }
        } else {
            le_u128(input, pos)
        },
        Endianness::Big => if size == 1 {
            match be_u8(input, pos) {
                Some(v) => Some(v as u128),
                None => None,
            }
        } else if size == 2 {
            match be_u16(input, pos) {
                Some(v) => Some(v as u128),
                None => None,
            }
        } else if size == 4 {
            match be_u32(input, pos) {
                Some(v) => Some(v as u128),
                None => None,
            }
        } else if size == 8 {
            match be_u64(input, pos) {
                Some(v) => Some(v as u128),
                None => None,
            }
        } else {
            be_u128(input, pos)
        },
    }
}

/// Reads an unsigned number of a width as a two's complement number
fn to_signed(v: u128, size: usize) -> (s: i128)
    requires
        supported_int_size(size),
        v < 2 * sign_bound(size),
    ensures
        s == signed_value(v as nat, size),
{
    if size == 16 {
        if v < 0x8000_0000_0000_0000_0000_0000_0000_0000 {
            v as i128
        } else {
            ((v - 0x8000_0000_0000_0000_0000_0000_0000_0000) as i128) + i128::MIN
        }
    } else {
        let half: u128 = if size == 1 {
            0x80
        } else if size == 2 {
            0x8000
        } else if size == 4 {
            0x8000_0000
        } else {
            0x8000_0000_0000_0000
        };
        if v < half {
            v as i128
        } else {
            (v as i128) - ((2 * half) as i128)
        }
    }
}

/// Reads the decimal digits from `from` up to `to`, unless they spell a
/// number above `u64::MAX`
pub fn decimal_value(input: &[u8], from: usize, to: usize) -> (r: Option<u64>)
    requires
        from <= to <= input.len(),
        forall|i: int| from <= i < to ==> in_class(ByteClass::Digit, #[trigger] input@[i]),
    ensures
        match r {
            Some(v) => v == digits_value(input@, from as int, to as int),
            None => digits_value(input@, from as int, to as int) > u64::MAX,
        },
{
    let mut acc: u64 = 0;
    let mut i: usize = from;
    while i < to
        invariant
            from <= i <= to <= input.len(),
            acc == digits_value(input@, from as int, i as int),
            forall|i: int| from <= i < to ==> in_class(ByteClass::Digit, #[trigger] input@[i]),
        decreases to - i,
    {
        assert(in_class(ByteClass::Digit, input@[i as int]));
        let d: u64 = (input[i] - 0x30) as u64;
        if acc > (u64::MAX - d) / 10 {
            proof {
                lemma_digits_grow(input@, from as int, i + 1, to as int);
            }
            return None;
        }
        acc = acc * 10 + d;
        i += 1;
    }
    Some(acc)
}

/// Reads an unsigned decimal numeral between whitespace
fn parse_ascii_uint(input: &[u8], pos: usize) -> (r: Result<(usize, u64), MshParserError>)
    requires
        pos <= input.len(),
    ensures
        agrees(r, ascii_uint(input@, pos as int)),
        r matches Ok((next, _)) ==> pos <= next <= input.len(),
{
    let start = take_sp(input, pos);
    let end = take_class(input, start, ByteClass::Digit);
    if end == start {
        return Err(make_error(start, MshParserErrorKind::NomError(TokenErrorKind::Digit)));
    }
    let next = take_sp(input, end);
    proof {
        lemma_skip_bounds(input@, start as int, ByteClass::Digit);
    }
    match decimal_value(input, start, end) {
        Some(v) => Ok((next, v)),
        None => Err(make_error(next, MshParserErrorKind::NomError(TokenErrorKind::ParseTo))),
    }
}

/// Reads a decimal numeral with an optional sign between whitespace
fn parse_ascii_int(input: &[u8], pos: usize) -> (r: Result<(usize, i32), MshParserError>)
    requires
        pos <= input.len(),
    ensures
        agrees(r, ascii_int(input@, pos as int)),
        r matches Ok((next, _)) ==> pos <= next <= input.len(),
{
    let start = take_sp(input, pos);
    let signed = start < input.len() && (input[start] == 0x2b || input[start] == 0x2d);
    let negative = signed && input[start] == 0x2d;
    let digits = if signed {
        start + 1
    } else {
        start
    };
    let end = take_class(input, digits, ByteClass::Digit);
    if end == digits {
        return Err(make_error(digits, MshParserErrorKind::NomError(TokenErrorKind::Digit)));
    }
    let next = take_sp(input, end);
    proof {
        lemma_skip_bounds(input@, digits as int, ByteClass::Digit);
    }
    let value: Option<i32> = match decimal_value(input, digits, end) {
        None => None,
        Some(m) => if negative {
            if m <= 0x8000_0000 {
                Some((-(m as i64)) as i32)
            } else {
                None
            }
        } else {
            if m <= 0x7fff_ffff {
                Some(m as i32)
            } else {
                None
            }
        },
    };
    match value {
        Some(v) => Ok((next, v)),
        None => Err(make_error(next, MshParserErrorKind::NomError(TokenErrorKind::ParseTo))),
    }
}

/// Finishes the reading of a floating point literal between whitespace, given
/// what the floating point tokenizer found at `start`, the first position
/// behind the leading whitespace
pub fn finish_ascii_float(input: &[u8], start: usize, result: Option<(u64, usize)>) -> (r: Result<
    (usize, u64),
    MshParserError,
>)
    requires
        start <= input.len(),
        result matches Some((_, rest)) ==> rest <= input.len() - start,
    ensures
        agrees(r, float_from_double(input@, start as int, result)),
        r matches Ok((next, _)) ==> start <= next <= input.len(),
{
    match result {
        Some((bits, rest)) => {
            let next = take_sp(input, input.len() - rest);
            Ok((next, bits))
        },
        None => Err(make_error(start, MshParserErrorKind::NomError(TokenErrorKind::Float))),
    }
}

/// Returns the double precision bit pattern of the value of a single
/// precision bit pattern
pub fn single_to_double(bits: u32) -> (r: u64)
    ensures
        r == widened(bits),
{
    let sign: u64 = (bits / 0x8000_0000) as u64;
    let exponent: u64 = ((bits / 0x80_0000) % 0x100) as u64;
    let fraction: u64 = (bits % 0x80_0000) as u64;
    if exponent == 0xff {
        let quiet: u64 = if fraction == 0 {
            0
        } else if fraction >= 0x40_0000 {
            fraction * 0x2000_0000
        } else {
            0x8_0000_0000_0000 + fraction * 0x2000_0000
        };
        sign * 0x8000_0000_0000_0000 + 0x7ff * 0x10_0000_0000_0000 + quiet
    } else if exponent == 0 {
        if fraction == 0 {
            sign * 0x8000_0000_0000_0000
        } else {
            let mut shift: u64 = 0;
            let mut significand: u64 = fraction;
            proof {
                reveal_with_fuel(two_to, 24);
                assert(two_to(23) == 0x80_0000);
                assert(significand * two_to(23) >= 0x80_0000) by (nonlinear_arith)
                    requires
                        significand >= 1,
                        two_to(23) == 0x80_0000,
                ;
            }
            while significand < 0x80_0000
                invariant
                    shift <= 23,
                    0 < significand < 0x100_0000,
                    significand * two_to((23 - shift) as nat) >= 0x80_0000,
                    normalized(0, fraction as nat) == normalized(shift as nat, significand as nat),
                decreases 0x100_0000 - significand,
            {
                proof {
                    if shift == 23 {
                        assert(two_to(0) == 1);
                        assert(significand * 1 == significand) by (nonlinear_arith);
                    }
                    let rest = two_to((22 - shift) as nat);
                    assert(two_to((23 - shift) as nat) == 2 * rest);
                    assert((significand * 2) * rest == significand * (2 * rest))
                        by (nonlinear_arith);
                }
                significand = significand * 2;
                shift = shift + 1;
            }
            sign * 0x8000_0000_0000_0000 + (897 - shift) * 0x10_0000_0000_0000 + (significand
                - 0x80_0000) * 0x2000_0000
        }
    } else {
        sign * 0x8000_0000_0000_0000 + (exponent + 896) * 0x10_0000_0000_0000 + fraction
            * 0x2000_0000
    }
}

/// Finishes the reading of a binary floating point value, given the bit
/// pattern of the double that was found at `pos` in `size` bytes, if that many
/// bytes were left
pub fn finish_binary_float(pos: usize, size: usize, found: Option<u64>) -> (r: Result<
    (usize, u64),
    MshParserError,
>)
    requires
        found is Some ==> pos + size <= usize::MAX,
    ensures
        agrees(r, float_from_bits(pos as int, size, found)),
{
    match found {
        None => Err(make_error(pos, MshParserErrorKind::NomError(TokenErrorKind::Eof))),
        Some(bits) => Ok((pos + size, bits)),
    }
}

/// Reads a floating point literal between whitespace
fn parse_ascii_float(input: &[u8], pos: usize) -> (r: Result<(usize, u64), MshParserError>)
    requires
        pos <= input.len(),
    ensures
        agrees(r, ascii_float(input@, pos as int)),
        r matches Ok((next, _)) ==> pos <= next <= input.len(),
{
    let start = take_sp(input, pos);
    let result = double(input, start);
    finish_ascii_float(input, start, result)
}

/// A parser of unsigned integers of one width and byte order
#[derive(Copy, Clone, Debug)]
pub struct UintParser {
    /// The width in bytes of a binary value
    pub source_size: usize,
    /// The byte order of a binary value, none for text
    pub endianness: Option<Endianness>,
}

/// A parser of signed integers of one width and byte order
#[derive(Copy, Clone, Debug)]
pub struct IntParser {
    /// The width in bytes of a binary value
    pub source_size: usize,
    /// The byte order of a binary value, none for text
    pub endianness: Option<Endianness>,
}

/// A parser of floating point values of one width and byte order
#[derive(Copy, Clone, Debug)]
pub struct FloatParser {
    /// The width in bytes of a binary value
    pub source_size: usize,
    /// The byte order of a binary value, none for text
    pub endianness: Option<Endianness>,
}

/// Whether a binary integer of this width can be read
pub fn is_supported_int_size(size: usize) -> (r: bool)
    ensures
        r == supported_int_size(size),
{
    size == 1 || size == 2 || size == 4 || size == 8 || size == 16
}

/// Returns a parser of unsigned integers, unless the file is binary and has
/// integers of a width that cannot be read
pub fn uint_parser(source_size: usize, endianness: Option<Endianness>) -> (r: Result<
    UintParser,
    MshParserErrorKind,
>)
    ensures
        match r {
            Ok(p) => p.source_size == source_size && p.endianness == endianness && (endianness
                is Some ==> supported_int_size(source_size)),
            Err(k) => endianness is Some && !supported_int_size(source_size) && k@
                == KindView::UnsupportedTypeSize(ValueType::UnsignedInt, source_size),
        },
{
    if endianness.is_some() && !is_supported_int_size(source_size) {
        Err(MshParserErrorKind::UnsupportedTypeSize(ValueType::UnsignedInt, source_size))
    } else {
        Ok(UintParser { source_size, endianness })
    }
}

/// Returns a parser of signed integers, unless the file is binary and has
/// integers of a width that cannot be read
pub fn int_parser(source_size: usize, endianness: Option<Endianness>) -> (r: Result<
    IntParser,
    MshParserErrorKind,
>)
    ensures
        match r {
            Ok(p) => p.source_size == source_size && p.endianness == endianness && (endianness
                is Some ==> supported_int_size(source_size)),
            Err(k) => endianness is Some && !supported_int_size(source_size) && k@
                == KindView::UnsupportedTypeSize(ValueType::Int, source_size),
        },
{
    if endianness.is_some() && !is_supported_int_size(source_size) {
        Err(MshParserErrorKind::UnsupportedTypeSize(ValueType::Int, source_size))
    } else {
        Ok(IntParser { source_size, endianness })
    }
}

/// Returns a parser of floating point values, unless the file is binary and
/// has floating point values of a width that cannot be read
pub fn float_parser(source_size: usize, endianness: Option<Endianness>) -> (r: Result<
    FloatParser,
    MshParserErrorKind,
>)
    ensures
        match r {
            Ok(p) => p.source_size == source_size && p.endianness == endianness && (endianness
                is Some ==> supported_float_size(source_size)),
            Err(k) => endianness is Some && !supported_float_size(source_size) && k@
                == KindView::UnsupportedTypeSize(ValueType::Float, source_size),
        },
{
    if endianness.is_some() && !(source_size == 4 || source_size == 8) {
        Err(MshParserErrorKind::UnsupportedTypeSize(ValueType::Float, source_size))
    } else {
        Ok(FloatParser { source_size, endianness })
    }
}

impl UintParser {
    /// Reads one unsigned integer at `pos`
    pub fn parse(&self, input: &[u8], pos: usize) -> (r: Result<(usize, u64), MshParserError>)
        requires
            pos <= input.len(),
        ensures
            agrees(r, spec_uint(self.source_size, self.endianness, input@, pos as int)),
            r matches Ok((next, _)) ==> pos <= next <= input.len(),
    {
        match self.endianness {
            None => parse_ascii_uint(input, pos),
            Some(order) => {
                if !is_supported_int_size(self.source_size) {
                    return Err(
                        make_error(
                            pos,
                            MshParserErrorKind::UnsupportedTypeSize(
                                ValueType::UnsignedInt,
                                self.source_size,
                            ),
                        ),
                    );
                }
                match read_uint(input, pos, self.source_size, order) {
                    None => Err(
                        make_error(pos, MshParserErrorKind::NomError(TokenErrorKind::Eof)),
                    ),
                    Some(wide) => match cast_to_u64(wide) {
                        Some(v) => Ok((pos + self.source_size, v)),
                        None => Err(
                            make_error(
                                pos + self.source_size,
                                MshParserErrorKind::ValueOutOfRange(ValueType::UnsignedInt),
                            ),
                        ),
                    },
                }
            },
        }
    }

    /// Reads one count at `pos`: an unsigned integer that fits the machine's
    /// address size
    pub fn parse_to_usize(&self, input: &[u8], pos: usize) -> (r: Result<
        (usize, usize),
        MshParserError,
    >)
        requires
            pos <= input.len(),
        ensures
            agrees(r, spec_usize(self.source_size, self.endianness, input@, pos as int)),
            r matches Ok((next, _)) ==> pos <= next <= input.len(),
    {
        match self.parse(input, pos) {
            Err(e) => Err(e),
            Ok((next, v)) => match cast_to_usize(v) {
                Some(n) => Ok((next, n)),
                None => Err(make_error(pos, MshParserErrorKind::TooManyEntities)),
            },
        }
    }
}

impl IntParser {
    /// Reads one signed integer at `pos`
    pub fn parse(&self, input: &[u8], pos: usize) -> (r: Result<(usize, i32), MshParserError>)
        requires
            pos <= input.len(),
        ensures
            agrees(r, spec_int(self.source_size, self.endianness, input@, pos as int)),
            r matches Ok((next, _)) ==> pos <= next <= input.len(),
    {
        match self.endianness {
            None => parse_ascii_int(input, pos),
            Some(order) => {
                if !is_supported_int_size(self.source_size) {
                    return Err(
                        make_error(
                            pos,
                            MshParserErrorKind::UnsupportedTypeSize(
                                ValueType::Int,
                                self.source_size,
                            ),
                        ),
                    );
                }
                match read_uint(input, pos, self.source_size, order) {
                    None => Err(
                        make_error(pos, MshParserErrorKind::NomError(TokenErrorKind::Eof)),
                    ),
                    Some(wide) => match cast_to_i32(to_signed(wide, self.source_size)) {
                        Some(v) => Ok((pos + self.source_size, v)),
                        None => Err(
                            make_error(
                                pos + self.source_size,
                                MshParserErrorKind::ValueOutOfRange(ValueType::Int),
                            ),
                        ),
                    },
                }
            },
        }
    }
}

impl FloatParser {
    /// Reads one floating point value at `pos`, as the bit pattern of a double
    pub fn parse(&self, input: &[u8], pos: usize) -> (r: Result<(usize, u64), MshParserError>)
        requires
            pos <= input.len(),
        ensures
            agrees(r, spec_float(self.source_size, self.endianness, input@, pos as int)),
            r matches Ok((next, _)) ==> pos <= next <= input.len(),
    {
        match self.endianness {
            None => parse_ascii_float(input, pos),
            Some(order) => {
                if !(self.source_size == 4 || self.source_size == 8) {
                    return Err(
                        make_error(
                            pos,
                            MshParserErrorKind::UnsupportedTypeSize(
                                ValueType::Float,
                                self.source_size,
                            ),
                        ),
                    );
                }
                let found = if self.source_size == 8 {
                    match order {
                        Endianness::Little => le_u64(input, pos),
                        Endianness::Big => be_u64(input, pos),
                    }
                } else {
                    let single = match order {
                        Endianness::Little => le_u32(input, pos),
                        Endianness::Big => be_u32(input, pos),
                    };
                    match single {
                        Some(bits) => Some(single_to_double(bits)),
                        None => None,
                    }
                };
                finish_binary_float(pos, self.source_size, found)
            },
        }
    }
}

/// The parsers of the three kinds of numbers of one file
#[derive(Copy, Clone, Debug)]
pub struct NumParsers {
    /// The parser of `size_t` values
    pub size_t_parser: UintParser,
    /// The parser of `int` values
    pub int_parser: IntParser,
    /// The parser of `double` values
    pub float_parser: FloatParser,
}

impl NumParsers {
    /// A `size_t` value of the file.
    pub open spec fn spec_size_t(&self, input: Seq<u8>, pos: int) -> Parsed<u64> {
        spec_uint(self.size_t_parser.source_size, self.size_t_parser.endianness, input, pos)
    }

    /// A count of the file: a `size_t` value that fits the machine's address size.
    pub open spec fn spec_to_usize(&self, input: Seq<u8>, pos: int) -> Parsed<usize> {
        spec_usize(self.size_t_parser.source_size, self.size_t_parser.endianness, input, pos)
    }

    /// An `int` value of the file.
    pub open spec fn spec_int(&self, input: Seq<u8>, pos: int) -> Parsed<i32> {
        spec_int(self.int_parser.source_size, self.int_parser.endianness, input, pos)
    }

    /// A `double` value of the file, as its bit pattern.
    pub open spec fn spec_float(&self, input: Seq<u8>, pos: int) -> Parsed<u64> {
        spec_float(self.float_parser.source_size, self.float_parser.endianness, input, pos)
    }

    /// Reads one `size_t` value at `pos`
    pub fn parse_size_t(&self, input: &[u8], pos: usize) -> (r: Result<
        (usize, u64),
        MshParserError,
    >)
        requires
            pos <= input.len(),
        ensures
            agrees(r, self.spec_size_t(input@, pos as int)),
            r matches Ok((next, _)) ==> pos <= next <= input.len(),
    {
        self.size_t_parser.parse(input, pos)
    }

    /// Reads one count at `pos`
    pub fn parse_to_usize(&self, input: &[u8], pos: usize) -> (r: Result<
        (usize, usize),
        MshParserError,
    >)
        requires
            pos <= input.len(),
        ensures
            agrees(r, self.spec_to_usize(input@, pos as int)),
            r matches Ok((next, _)) ==> pos <= next <= input.len(),
    {
        self.size_t_parser.parse_to_usize(input, pos)
    }

    /// Reads one `int` value at `pos`
    pub fn parse_int(&self, input: &[u8], pos: usize) -> (r: Result<(usize, i32), MshParserError>)
        requires
            pos <= input.len(),
        ensures
            agrees(r, self.spec_int(input@, pos as int)),
            r matches Ok((next, _)) ==> pos <= next <= input.len(),
    {
        self.int_parser.parse(input, pos)
    }

    /// Reads one `double` value at `pos`, as its bit pattern
    pub fn parse_float(&self, input: &[u8], pos: usize) -> (r: Result<
        (usize, u64),
        MshParserError,
    >)
        requires
            pos <= input.len(),
        ensures
            agrees(r, self.spec_float(input@, pos as int)),
            r matches Ok((next, _)) ==> pos <= next <= input.len(),
    {
        self.float_parser.parse(input, pos)
    }
}

} // verus!

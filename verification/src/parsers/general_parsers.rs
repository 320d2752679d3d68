//! Parsers for the tokens that frame an MSH file: literal tags, line breaks,
//! whitespace and runs of digits or letters.
//!
//! A parser takes the whole input and a position in it, and yields the
//! position behind what it consumed.

use vstd::prelude::*;
use vstd::slice::slice_subrange;

use crate::error::{
    agrees, make_error, moves, stop, KindView, Moved, MshParserError, MshParserErrorKind, Parsed,
    TokenErrorKind,
};

verus! {

/// The classes of bytes that the format's tokens are made of
#[derive(Copy, Clone, Debug, PartialEq, Eq, Structural)]
pub enum ByteClass {
    /// Space, tab, carriage return and line feed
    Space,
    /// The decimal digits
    Digit,
    /// The ASCII letters
    Letter,
}

/// Whether a byte belongs to a class.
pub open spec fn in_class(class: ByteClass, b: u8) -> bool {
    match class {
        ByteClass::Space => b == 0x20 || b == 0x09 || b == 0x0d || b == 0x0a,
        ByteClass::Digit => 0x30 <= b <= 0x39,
        ByteClass::Letter => (0x41 <= b <= 0x5a) || (0x61 <= b <= 0x7a),
    }
}

/// The position behind the longest run of bytes of a class that starts at `pos`.
pub open spec fn skip(input: Seq<u8>, pos: int, class: ByteClass) -> int
    decreases input.len() - pos,
{
    if 0 <= pos < input.len() && in_class(class, input[pos]) {
        skip(input, pos + 1, class)
    } else {
        pos
    }
}

/// Whether the bytes of `pattern` stand in the input at `pos`.
pub open spec fn matches_at(input: Seq<u8>, pos: int, pattern: Seq<u8>) -> bool {
    0 <= pos && pos + pattern.len() <= input.len() && input.subrange(pos, pos + pattern.len())
        == pattern
}

/// A literal pattern: the position behind it, or a tag failure.
pub open spec fn spec_tag(input: Seq<u8>, pos: int, pattern: Seq<u8>) -> Moved {
    if matches_at(input, pos, pattern) {
        Ok(pos + pattern.len())
    } else {
        stop(pos, KindView::NomError(TokenErrorKind::Tag))
    }
}

/// The failure of a choice between literal patterns, none of which matched.
pub open spec fn no_alternative(pos: int) -> Moved {
    Err(
        seq![
            (pos, KindView::NomError(TokenErrorKind::Tag)),
            (pos, KindView::NomError(TokenErrorKind::Alt)),
        ],
    )
}

/// A single line break, `"\n"` or `"\r\n"`.
pub open spec fn spec_br(input: Seq<u8>, pos: int) -> Moved {
    if matches_at(input, pos, seq![0x0au8]) {
        Ok(pos + 1)
    } else if matches_at(input, pos, seq![0x0du8, 0x0au8]) {
        Ok(pos + 2)
    } else {
        no_alternative(pos)
    }
}

/// A single whitespace: a space, a tab or a line break.
pub open spec fn spec_sp(input: Seq<u8>, pos: int) -> Moved {
    if matches_at(input, pos, seq![0x20u8]) || matches_at(input, pos, seq![0x09u8]) {
        Ok(pos + 1)
    } else {
        spec_br(input, pos)
    }
}

/// The end of the input.
pub open spec fn spec_eof(input: Seq<u8>, pos: int) -> Moved {
    if pos == input.len() {
        Ok(pos)
    } else {
        stop(pos, KindView::NomError(TokenErrorKind::Eof))
    }
}

/// A run of at least one decimal digit.
pub open spec fn spec_digit1(input: Seq<u8>, pos: int) -> Moved {
    if skip(input, pos, ByteClass::Digit) == pos {
        stop(pos, KindView::NomError(TokenErrorKind::Digit))
    } else {
        Ok(skip(input, pos, ByteClass::Digit))
    }
}

/// The longest run of bytes of a class ends in the input, holds bytes of the
/// class only, and is not followed by a byte of the class.
pub proof fn lemma_skip_bounds(input: Seq<u8>, pos: int, class: ByteClass)
    requires
        0 <= pos <= input.len(),
    ensures
        pos <= skip(input, pos, class) <= input.len(),
        forall|i: int| pos <= i < skip(input, pos, class) ==> in_class(class, #[trigger] input[i]),
        skip(input, pos, class) < input.len() ==> !in_class(
            class,
            input[skip(input, pos, class)],
        ),
        skip(input, skip(input, pos, class), class) == skip(input, pos, class),
    decreases input.len() - pos,
{
    if pos < input.len() && in_class(class, input[pos]) {
        lemma_skip_bounds(input, pos + 1, class);
    }
}

/// Whether a byte belongs to a class
pub fn byte_in_class(class: ByteClass, b: u8) -> (r: bool)
    ensures
        r == in_class(class, b),
{
    match class {
        ByteClass::Space => b == 0x20 || b == 0x09 || b == 0x0d || b == 0x0a,
        ByteClass::Digit => 0x30 <= b && b <= 0x39,
        ByteClass::Letter => (0x41 <= b && b <= 0x5a) || (0x61 <= b && b <= 0x7a),
    }
}

/// Consumes the longest run of bytes of a class
pub fn take_class(input: &[u8], pos: usize, class: ByteClass) -> (next: usize)
    requires
        pos <= input.len(),
    ensures
        next == skip(input@, pos as int, class),
        pos <= next <= input.len(),
{
    let mut i: usize = pos;
    while i < input.len() && byte_in_class(class, input[i])
        invariant
            pos <= i <= input.len(),
            skip(input@, pos as int, class) == skip(input@, i as int, class),
        decreases input.len() - i,
    {
        i += 1;
    }
    i
}

/// Consumes the whole input
pub fn anything(input: &[u8], pos: usize) -> (next: usize)
    requires
        pos <= input.len(),
    ensures
        next == input.len(),
{
    input.len()
}

/// Parses successfully if the input is empty
pub fn eof(input: &[u8], pos: usize) -> (r: Result<usize, MshParserError>)
    requires
        pos <= input.len(),
    ensures
        moves(r, spec_eof(input@, pos as int)),
        r matches Ok(next) ==> pos <= next <= input.len(),
{
    if pos == input.len() {
        Ok(pos)
    } else {
        Err(make_error(pos, MshParserErrorKind::NomError(TokenErrorKind::Eof)))
    }
}

/// Whether a literal pattern stands in the input at a position
pub fn at_tag(input: &[u8], pos: usize, pattern: &[u8]) -> (r: bool)
    requires
        pos <= input.len(),
    ensures
        r == matches_at(input@, pos as int, pattern@),
{
    let n = pattern.len();
    if n > input.len() - pos {
        return false;
    }
    let mut i: usize = 0;
    while i < n
        invariant
            pos + n <= input.len(),
            n == pattern.len(),
            i <= n,
            input@.subrange(pos as int, pos + i) == pattern@.subrange(0, i as int),
        decreases n - i,
    {
        if input[pos + i] != pattern[i] {
            assert(input@.subrange(pos as int, pos + n)[i as int] != pattern@[i as int]);
            return false;
        }
        assert(input@.subrange(pos as int, pos + i + 1) =~= input@.subrange(
            pos as int,
            pos + i,
        ).push(input@[pos + i]));
        assert(pattern@.subrange(0, i + 1) =~= pattern@.subrange(0, i as int).push(
            pattern@[i as int],
        ));
        i += 1;
    }
    assert(pattern@.subrange(0, n as int) =~= pattern@);
    true
}

/// Consumes a literal pattern
pub fn tag(input: &[u8], pos: usize, pattern: &[u8]) -> (r: Result<usize, MshParserError>)
    requires
        pos <= input.len(),
    ensures
        moves(r, spec_tag(input@, pos as int, pattern@)),
        r matches Ok(next) ==> pos <= next <= input.len(),
{
    if at_tag(input, pos, pattern) {
        Ok(pos + pattern.len())
    } else {
        Err(make_error(pos, MshParserErrorKind::NomError(TokenErrorKind::Tag)))
    }
}

/// The error of a choice between literal patterns, none of which matched
fn alternative_error(pos: usize) -> (e: MshParserError)
    ensures
        Err::<int, crate::error::Trace>(e@) == no_alternative(pos as int),
{
    let e = make_error(pos, MshParserErrorKind::NomError(TokenErrorKind::Tag)).with_append(
        pos,
        MshParserErrorKind::NomError(TokenErrorKind::Alt),
    );
    assert(e@ =~= seq![
        (pos as int, KindView::NomError(TokenErrorKind::Tag)),
        (pos as int, KindView::NomError(TokenErrorKind::Alt)),
    ]);
    e
}

/// Whether a single byte stands in the input at a position
pub fn at_byte(input: &[u8], pos: usize, b: u8) -> (r: bool)
    requires
        pos <= input.len(),
    ensures
        r == matches_at(input@, pos as int, seq![b]),
{
    if pos < input.len() && input[pos] == b {
        assert(input@.subrange(pos as int, pos + 1) =~= seq![b]);
        true
    } else {
        if pos < input.len() {
            assert(input@.subrange(pos as int, pos + 1)[0] != seq![b][0]);
        }
        false
    }
}

/// Consumes a single linebreak
pub fn br(input: &[u8], pos: usize) -> (r: Result<usize, MshParserError>)
    requires
        pos <= input.len(),
    ensures
        moves(r, spec_br(input@, pos as int)),
        r matches Ok(next) ==> pos <= next <= input.len(),
{
    if at_byte(input, pos, 0x0a) {
        Ok(pos + 1)
    } else if pos < input.len() && input.len() - pos >= 2 && input[pos] == 0x0d && input[pos + 1]
        == 0x0a {
        assert(input@.subrange(pos as int, pos + 2) =~= seq![0x0du8, 0x0au8]);
        Ok(pos + 2)
    } else {
        proof {
            if pos + 2 <= input.len() {
                let s = input@.subrange(pos as int, pos + 2);
                let t = seq![0x0du8, 0x0au8];
                assert(s[0] != t[0] || s[1] != t[1]);
            }
        }
        Err(alternative_error(pos))
    }
}

/// Consumes a single whitespace character
pub fn sp(input: &[u8], pos: usize) -> (r: Result<usize, MshParserError>)
    requires
        pos <= input.len(),
    ensures
        moves(r, spec_sp(input@, pos as int)),
        r matches Ok(next) ==> pos <= next <= input.len(),
{
    if at_byte(input, pos, 0x20) || at_byte(input, pos, 0x09) {
        Ok(pos + 1)
    } else {
        br(input, pos)
    }
}

/// Consumes all preceding whitespaces
pub fn take_sp(input: &[u8], pos: usize) -> (next: usize)
    requires
        pos <= input.len(),
    ensures
        next == skip(input@, pos as int, ByteClass::Space),
        pos <= next <= input.len(),
{
    take_class(input, pos, ByteClass::Space)
}

/// Consumes a run of at least one decimal digit
pub fn digit1(input: &[u8], pos: usize) -> (r: Result<usize, MshParserError>)
    requires
        pos <= input.len(),
    ensures
        moves(r, spec_digit1(input@, pos as int)),
        r matches Ok(next) ==> pos <= next <= input.len(),
{
    let next = take_class(input, pos, ByteClass::Digit);
    if next == pos {
        Err(make_error(pos, MshParserErrorKind::NomError(TokenErrorKind::Digit)))
    } else {
        Ok(next)
    }
}

/// A parser of the items of a repetition, which knows the index of the item
/// that it is asked for
pub trait ItemParser {
    /// The type of an item
    type Item: DeepView;

    /// What the parser yields for the item of the given index at a position.
    spec fn spec_item(&self, input: Seq<u8>, index: int, pos: int) -> Parsed<
        <Self::Item as DeepView>::V,
    >;

    /// Parses the item of the given index at a position
    fn parse_item(&self, input: &[u8], index: usize, pos: usize) -> (r: Result<
        (usize, Self::Item),
        MshParserError,
    >)
        requires
            pos <= input.len(),
        ensures
            agrees(r, self.spec_item(input@, index as int, pos as int)),
            r matches Ok((next, _)) ==> pos <= next <= input.len(),
    ;
}

/// The parser of the items of a repetition as a function of index and position.
pub open spec fn items_of<P: ItemParser>(parser: P, input: Seq<u8>) -> spec_fn(int, int) -> Parsed<
    <P::Item as DeepView>::V,
> {
    |index: int, pos: int| parser.spec_item(input, index, pos)
}

/// The first `n` items of a repetition that starts at `start`: each item
/// stands behind the one before it, and the first failure of an item ends the
/// repetition, with a count failure at `start` appended to its backtrace.
pub open spec fn spec_count<T>(item: spec_fn(int, int) -> Parsed<T>, start: int, n: nat) -> Parsed<
    Seq<T>,
>
    decreases n,
{
    if n == 0 {
        Ok((start, Seq::empty()))
    } else {
        match spec_count(item, start, (n - 1) as nat) {
            Err(t) => Err(t),
            Ok((pos, items)) => match item(n - 1, pos) {
                Ok((next, value)) => Ok((next, items.push(value))),
                Err(t) => Err(t.push((start, KindView::NomError(TokenErrorKind::Count)))),
            },
        }
    }
}

/// A repetition that fails after `k` items fails in the same way however many
/// more are asked for.
pub proof fn lemma_count_fails<T>(item: spec_fn(int, int) -> Parsed<T>, start: int, k: nat, n: nat)
    requires
        k <= n,
        spec_count(item, start, k) is Err,
    ensures
        spec_count(item, start, n) == spec_count(item, start, k),
    decreases n - k,
{
    if k < n {
        lemma_count_fails(item, start, k, (n - 1) as nat);
    }
}

/// Runs the item parser `count` times, each time behind the item before, and
/// collects the items
pub fn count_indexed<P: ItemParser>(parser: &P, input: &[u8], pos: usize, count: usize) -> (r:
    Result<(usize, Vec<P::Item>), MshParserError>)
    requires
        pos <= input.len(),
    ensures
        agrees(r, spec_count(items_of(*parser, input@), pos as int, count as nat)),
        r matches Ok((next, items)) ==> pos <= next <= input.len() && items.len() == count,
{
    let ghost item = items_of(*parser, input@);
    let mut items: Vec<P::Item> = Vec::new();
    let mut cur: usize = pos;
    let mut index: usize = 0;
    assert(items.deep_view() =~= Seq::<<P::Item as DeepView>::V>::empty());
    while index < count
        invariant
            index <= count,
            pos <= cur <= input.len(),
            item == items_of(*parser, input@),
            items.len() == index,
            spec_count(item, pos as int, index as nat) == Ok::<
                (int, Seq<<P::Item as DeepView>::V>),
                crate::error::Trace,
            >((cur as int, items.deep_view())),
        decreases count - index,
    {
        let ghost before = items.deep_view();
        match parser.parse_item(input, index, cur) {
            Ok((next, value)) => {
                let ghost v = value.deep_view();
                items.push(value);
                assert(items.deep_view() =~= before.push(v));
                cur = next;
            },
            Err(e) => {
                let e = e.with_append(pos, MshParserErrorKind::NomError(TokenErrorKind::Count));
                proof {
                    lemma_count_fails(item, pos as int, (index + 1) as nat, count as nat);
                }
                return Err(e);
            },
        }
        index += 1;
    }
    Ok((cur, items))
}

/// A parser: it reads a value at a position of the input and yields the
/// position behind it
pub trait Parser {
    /// The type of the value
    type Output: DeepView;

    /// What the parser yields at a position of an input.
    spec fn spec_parse(&self, input: Seq<u8>, pos: int) -> Parsed<<Self::Output as DeepView>::V>;

    /// Runs the parser at a position of the input
    fn parse(&self, input: &[u8], pos: usize) -> (r: Result<(usize, Self::Output), MshParserError>)
        requires
            pos <= input.len(),
        ensures
            agrees(r, self.spec_parse(input@, pos as int)),
            r matches Ok((next, _)) ==> pos <= next <= input.len(),
    ;
}

/// What may follow the tag of a delimiter
#[derive(Copy, Clone, Debug, PartialEq, Eq, Structural)]
pub enum Trailing {
    /// A single line break
    LineBreak,
    /// Any number of whitespaces
    Spaces,
}

/// A line that delimits a block: a tag, which whitespace may precede, and
/// what follows it
#[derive(Copy, Clone, Debug)]
pub struct Delimiter<'a> {
    /// Whether whitespace may precede the tag
    pub leading_spaces: bool,
    /// The tag
    pub tag: &'a [u8],
    /// What follows the tag
    pub trailing: Trailing,
}

/// A delimiter at a position: the position behind it.
pub open spec fn spec_delimiter(
    input: Seq<u8>,
    pos: int,
    leading_spaces: bool,
    pattern: Seq<u8>,
    trailing: Trailing,
) -> Moved {
    let start = if leading_spaces {
        skip(input, pos, ByteClass::Space)
    } else {
        pos
    };
    match spec_tag(input, start, pattern) {
        Err(t) => Err(t),
        Ok(end) => match trailing {
            Trailing::LineBreak => spec_br(input, end),
            Trailing::Spaces => Ok(skip(input, end, ByteClass::Space)),
        },
    }
}

/// A delimiter that is found at a position ends behind its tag.
pub proof fn lemma_delimiter_advances(
    input: Seq<u8>,
    pos: int,
    leading_spaces: bool,
    pattern: Seq<u8>,
    trailing: Trailing,
)
    requires
        0 <= pos <= input.len(),
    ensures
        spec_delimiter(input, pos, leading_spaces, pattern, trailing) matches Ok(next) ==> pos
            + pattern.len() <= next <= input.len(),
{
    lemma_skip_bounds(input, pos, ByteClass::Space);
    let start = if leading_spaces {
        skip(input, pos, ByteClass::Space)
    } else {
        pos
    };
    if matches_at(input, start, pattern) {
        lemma_skip_bounds(input, start + pattern.len(), ByteClass::Space);
    }
}

impl<'a> Parser for Delimiter<'a> {
    type Output = ();

    open spec fn spec_parse(&self, input: Seq<u8>, pos: int) -> Parsed<()> {
        match spec_delimiter(input, pos, self.leading_spaces, self.tag@, self.trailing) {
            Ok(next) => Ok((next, ())),
            Err(t) => Err(t),
        }
    }

    fn parse(&self, input: &[u8], pos: usize) -> (r: Result<(usize, ()), MshParserError>) {
        let start = if self.leading_spaces {
            take_sp(input, pos)
        } else {
            pos
        };
        let end = match tag(input, start, self.tag) {
            Ok(p) => p,
            Err(e) => {
                return Err(e);
            },
        };
        match self.trailing {
            Trailing::LineBreak => match br(input, end) {
                Ok(next) => Ok((next, ())),
                Err(e) => Err(e),
            },
            Trailing::Spaces => Ok((take_sp(input, end), ())),
        }
    }
}

/// The first position from `from` on at which the parser succeeds.
pub open spec fn first_match<P: Parser>(parser: P, input: Seq<u8>, from: int) -> Option<int>
    decreases input.len() + 1 - from,
{
    if from < 0 || from > input.len() {
        None
    } else if parser.spec_parse(input, from) is Ok {
        Some(from)
    } else {
        first_match(parser, input, from + 1)
    }
}

/// The first match is a position from `from` on at which the parser succeeds
/// and before which, from `from` on, it fails.
pub proof fn lemma_first_match<P: Parser>(parser: P, input: Seq<u8>, from: int)
    requires
        0 <= from,
    ensures
        match first_match(parser, input, from) {
            Some(found) => from <= found <= input.len() && parser.spec_parse(input, found) is Ok
                && forall|at: int| from <= at < found ==> parser.spec_parse(input, at) is Err,
            None => forall|at: int| from <= at <= input.len() ==> parser.spec_parse(input, at) is Err,
        },
    decreases input.len() + 1 - from,
{
    if from <= input.len() && !(parser.spec_parse(input, from) is Ok) {
        lemma_first_match(parser, input, from + 1);
    }
}

/// The first position from `pos` on at which the parser succeeds; where there
/// is none, the input ends too early.
pub open spec fn spec_take_till<P: Parser>(parser: P, input: Seq<u8>, pos: int) -> Moved {
    match first_match(parser, input, pos) {
        Some(found) => Ok(found),
        None => stop(pos, KindView::NomError(TokenErrorKind::Eof)),
    }
}

/// The first position from `pos` on at which the parser succeeds, with what
/// the parser yields there.
pub open spec fn spec_take_after<P: Parser>(parser: P, input: Seq<u8>, pos: int) -> Parsed<
    (usize, <P::Output as DeepView>::V),
> {
    match first_match(parser, input, pos) {
        Some(found) => match parser.spec_parse(input, found) {
            Ok((next, value)) => Ok((next, (found as usize, value))),
            Err(t) => Err(t),
        },
        None => Err(seq![(pos, KindView::NomError(TokenErrorKind::Eof))]),
    }
}

/// A block between two delimiters: the positions at which its content starts
/// and ends.
pub open spec fn spec_delimited_block<S: Parser, E: Parser>(
    start: S,
    end: E,
    input: Seq<u8>,
    pos: int,
) -> Parsed<(usize, usize)> {
    match start.spec_parse(input, pos) {
        Err(t) => Err(t),
        Ok((from, _)) => match spec_take_after(end, input, from) {
            Err(t) => Err(t),
            Ok((next, found)) => Ok((next, (from as usize, found.0))),
        },
    }
}

/// A block between two delimiters whose content, the input up to the end
/// delimiter, the parser reads.
pub open spec fn spec_parse_delimited_block<S: Parser, E: Parser, P: Parser>(
    start: S,
    end: E,
    parser: P,
    input: Seq<u8>,
    pos: int,
) -> Parsed<<P::Output as DeepView>::V> {
    match spec_delimited_block(start, end, input, pos) {
        Err(t) => Err(t),
        Ok((next, content)) => match parser.spec_parse(
            input.subrange(0, content.1 as int),
            content.0 as int,
        ) {
            Err(t) => Err(t),
            Ok((_, value)) => Ok((next, value)),
        },
    }
}

/// What a parser yields between whitespace.
pub open spec fn spec_ws<P: Parser>(parser: P, input: Seq<u8>, pos: int) -> Parsed<
    <P::Output as DeepView>::V,
> {
    match parser.spec_parse(input, skip(input, pos, ByteClass::Space)) {
        Err(t) => Err(t),
        Ok((next, value)) => Ok((skip(input, next, ByteClass::Space), value)),
    }
}

/// Removes preceding whitespaces, applies parser and consumes trailing whitespaces
pub fn ws<P: Parser>(parser: &P, input: &[u8], pos: usize) -> (r: Result<
    (usize, P::Output),
    MshParserError,
>)
    requires
        pos <= input.len(),
    ensures
        agrees(r, spec_ws(*parser, input@, pos as int)),
        r matches Ok((next, _)) ==> pos <= next <= input.len(),
{
    let start = take_sp(input, pos);
    match parser.parse(input, start) {
        Ok((end, value)) => Ok((take_sp(input, end), value)),
        Err(e) => Err(e),
    }
}

/// Finds the first position from `pos` on at which the parser succeeds, and
/// returns the position behind what it parsed there, that position and the
/// parsed value
pub fn take_after_parses<P: Parser>(parser: &P, input: &[u8], pos: usize) -> (r: Result<
    (usize, (usize, P::Output)),
    MshParserError,
>)
    requires
        pos <= input.len(),
    ensures
        agrees(r, spec_take_after(*parser, input@, pos as int)),
        r matches Ok((next, found)) ==> pos <= found.0 <= next <= input.len(),
{
    let mut at: usize = pos;
    loop
        invariant
            pos <= at <= input.len(),
            first_match(*parser, input@, pos as int) == first_match(*parser, input@, at as int),
        decreases input.len() - at,
    {
        match parser.parse(input, at) {
            Ok((next, value)) => {
                return Ok((next, (at, value)));
            },
            Err(_) => {},
        }
        if at == input.len() {
            assert(first_match(*parser, input@, at + 1) is None);
            return Err(make_error(pos, MshParserErrorKind::NomError(TokenErrorKind::Eof)));
        }
        at += 1;
    }
}

/// Finds the first position from `pos` on at which the parser succeeds
pub fn take_till_parses<P: Parser>(parser: &P, input: &[u8], pos: usize) -> (r: Result<
    usize,
    MshParserError,
>)
    requires
        pos <= input.len(),
    ensures
        moves(r, spec_take_till(*parser, input@, pos as int)),
        r matches Ok(found) ==> pos <= found <= input.len(),
{
    proof {
        lemma_first_match(*parser, input@, pos as int);
    }
    match take_after_parses(parser, input, pos) {
        Ok((_, found)) => Ok(found.0),
        Err(e) => Err(e),
    }
}

/// Consumes a block between a start and an end delimiter and returns the
/// positions at which its content starts and ends
pub fn delimited_block<S: Parser, E: Parser>(start: &S, end: &E, input: &[u8], pos: usize) -> (r:
    Result<(usize, (usize, usize)), MshParserError>)
    requires
        pos <= input.len(),
    ensures
        agrees(r, spec_delimited_block(*start, *end, input@, pos as int)),
        r matches Ok((next, content)) ==> pos <= content.0 <= content.1 <= next <= input.len(),
{
    let from = match start.parse(input, pos) {
        Ok((p, _)) => p,
        Err(e) => {
            return Err(e);
        },
    };
    match take_after_parses(end, input, from) {
        Ok((next, found)) => Ok((next, (from, found.0))),
        Err(e) => Err(e),
    }
}

/// Consumes a block between a start and an end delimiter and applies the
/// parser to its content: the input up to the end delimiter
pub fn parse_delimited_block<S: Parser, E: Parser, P: Parser>(
    start: &S,
    end: &E,
    parser: &P,
    input: &[u8],
    pos: usize,
) -> (r: Result<(usize, P::Output), MshParserError>)
    requires
        pos <= input.len(),
    ensures
        agrees(r, spec_parse_delimited_block(*start, *end, *parser, input@, pos as int)),
        r matches Ok((next, _)) ==> pos <= next <= input.len(),
{
    let (next, content) = match delimited_block(start, end, input, pos) {
        Ok(v) => v,
        Err(e) => {
            return Err(e);
        },
    };
    match parser.parse(slice_subrange(input, 0, content.1), content.0) {
        Ok((_, value)) => Ok((next, value)),
        Err(e) => Err(e),
    }
}

/// The value of a [`Delimiter`](struct.Delimiter.html): its tag is a sequence of bytes
pub struct Mark {
    pub leading_spaces: bool,
    pub tag: Seq<u8>,
    pub trailing: Trailing,
}

impl<'a> View for Delimiter<'a> {
    type V = Mark;

    open spec fn view(&self) -> Mark {
        Mark { leading_spaces: self.leading_spaces, tag: self.tag@, trailing: self.trailing }
    }
}

/// A delimiter of the given value at a position: the position behind it.
pub open spec fn spec_mark(input: Seq<u8>, pos: int, mark: Mark) -> Moved {
    spec_delimiter(input, pos, mark.leading_spaces, mark.tag, mark.trailing)
}

/// The first position from `from` on at which a delimiter of the given value
/// stands.
pub open spec fn first_mark(input: Seq<u8>, from: int, mark: Mark) -> Option<int>
    decreases input.len() + 1 - from,
{
    if from < 0 || from > input.len() {
        None
    } else if spec_mark(input, from, mark) is Ok {
        Some(from)
    } else {
        first_mark(input, from + 1, mark)
    }
}

/// A block between two delimiters of the given values: the position behind
/// the end delimiter and the positions at which the content starts and ends.
/// The end delimiter is the first one that stands behind the start delimiter.
pub open spec fn spec_block(input: Seq<u8>, pos: int, start: Mark, end: Mark) -> Parsed<
    (usize, usize),
> {
    match spec_mark(input, pos, start) {
        Err(t) => Err(t),
        Ok(from) => match first_mark(input, from, end) {
            None => Err(seq![(from, KindView::NomError(TokenErrorKind::Eof))]),
            Some(found) => match spec_mark(input, found, end) {
                Err(t) => Err(t),
                Ok(next) => Ok((next, (from as usize, found as usize))),
            },
        },
    }
}

/// The first match of a delimiter is the first position at which a delimiter
/// of its value stands.
pub proof fn lemma_first_mark(delimiter: Delimiter, input: Seq<u8>, from: int)
    ensures
        first_match(delimiter, input, from) == first_mark(input, from, delimiter@),
    decreases input.len() + 1 - from,
{
    if 0 <= from <= input.len() && !(spec_mark(input, from, delimiter@) is Ok) {
        lemma_first_mark(delimiter, input, from + 1);
    }
}

/// A block between two delimiters is the block between delimiters of their
/// values.
pub proof fn lemma_block(start: Delimiter, end: Delimiter, input: Seq<u8>, pos: int)
    ensures
        spec_delimited_block(start, end, input, pos) == spec_block(input, pos, start@, end@),
{
    if let Ok(from) = spec_mark(input, pos, start@) {
        lemma_first_mark(end, input, from);
    }
}

/// A block that is found ends behind the tags of both of its delimiters.
pub proof fn lemma_block_advances(input: Seq<u8>, pos: int, start: Mark, end: Mark)
    requires
        0 <= pos <= input.len() <= usize::MAX,
    ensures
        spec_block(input, pos, start, end) matches Ok((next, content)) ==> pos + start.tag.len()
            <= content.0 <= content.1 && content.1 + end.tag.len() <= next <= input.len(),
{
    lemma_delimiter_advances(input, pos, start.leading_spaces, start.tag, start.trailing);
    if let Ok(from) = spec_mark(input, pos, start) {
        lemma_first_mark_bounds(input, from, end);
        if let Some(found) = first_mark(input, from, end) {
            lemma_delimiter_advances(input, found, end.leading_spaces, end.tag, end.trailing);
        }
    }
}

/// The first position at which a delimiter stands is a position of the input
/// at which it stands.
pub proof fn lemma_first_mark_bounds(input: Seq<u8>, from: int, mark: Mark)
    requires
        0 <= from,
    ensures
        first_mark(input, from, mark) matches Some(found) ==> from <= found <= input.len()
            && spec_mark(input, found, mark) is Ok,
    decreases input.len() + 1 - from,
{
    if from <= input.len() && !(spec_mark(input, from, mark) is Ok) {
        lemma_first_mark_bounds(input, from + 1, mark);
    }
}

} // verus!

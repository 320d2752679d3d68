//! Error handling components of the parser.
//!
//! A parse failure is a backtrace: an ordered list of `(position, kind)`
//! entries, deepest cause first, that grows by appending while the failure
//! travels outwards. A position is a byte offset into the parsed input.

use vstd::prelude::*;
use vstd::string::StringExecFns;

use crate::text::{decimal, push_decimal};

verus! {

/// Enum for the categories of value types that MSH files contain
#[derive(Copy, Clone, Debug, PartialEq, Eq, Structural)]
pub enum ValueType {
    /// The unsigned integer or size_t type
    UnsignedInt,
    /// The integer or int type
    Int,
    /// The floating point or double type
    Float,
}

/// The low-level tokenizer failures that the parsing primitives report
#[derive(Copy, Clone, Debug, PartialEq, Eq, Structural)]
pub enum TokenErrorKind {
    /// A literal byte pattern was expected
    Tag,
    /// None of the alternatives of a choice matched
    Alt,
    /// At least one decimal digit was expected
    Digit,
    /// The input ended, or was expected to end
    Eof,
    /// A floating point literal was expected
    Float,
    /// A repetition did not reach its count
    Count,
    /// A token could not be converted to its target type
    ParseTo,
}

/// Enum of all error kinds that may be part of a [`MshParserError`](struct.MshParserError.html) backtrace
#[derive(Clone, Debug, PartialEq, Eq)]
pub enum MshParserErrorKind {
    /// Error indicating that the MSH file header specifies an unsupported file format revision (only 4.1 is supported)
    UnsupportedMshVersion,
    /// Error indicating that the MSH file header specifies a size for a value type which is not supported by this crate
    UnsupportedTypeSize(ValueType, usize),
    /// Error indicating that the MSH file header does not conform to the file format specification
    InvalidFileHeader,
    /// Error indicating that the MSH body contains tokens that do not form a valid section
    InvalidSectionHeader,
    /// Error indicating that an element entity contains an element type that is not supported by this crate
    UnknownElement,
    /// Error indicating that a section contains too many entities (e.g. nodes, elements, groups), i.e. they do not fit into a `Vec` because `usize::MAX` is too small
    TooManyEntities,
    /// Error indicating that a value was encountered in the MSH file that is out of range of the target value type
    ValueOutOfRange(ValueType),
    /// Error indicating that an entity tag with an invalid value was encountered, e.g. the Gmsh internally reserved value of 0 or a `max_tag` that is smaller than a `min_tag`
    InvalidTag,
    /// Error indicating that an invalid parameter value was encountered
    InvalidParameter,
    /// Error indicating that a single element definition could not be parsed, e.g. it did not provide the correct number of node indices corresponding to the element type of the element block
    InvalidElementDefinition,
    /// Error indicating that a single node definition could not be parsed, e.g. it does not contain three parsable floating point values for its coordinates
    InvalidNodeDefinition,
    /// Error indicating that the MSH file contains a MSH format feature that is not yet supported by this crate
    Unimplemented,
    /// Additional context information for pretty printing the backtrace for a user
    Context(String),
    /// Internal tokenizer error, such as an error when parsing a single digit
    NomError(TokenErrorKind),
}

/// The mathematical value of an error kind: a context carries its text.
pub enum KindView {
    UnsupportedMshVersion,
    UnsupportedTypeSize(ValueType, usize),
    InvalidFileHeader,
    InvalidSectionHeader,
    UnknownElement,
    TooManyEntities,
    ValueOutOfRange(ValueType),
    InvalidTag,
    InvalidParameter,
    InvalidElementDefinition,
    InvalidNodeDefinition,
    Unimplemented,
    Context(Seq<char>),
    NomError(TokenErrorKind),
}

/// The mathematical value of a backtrace: positions and kinds, deepest first.
pub type Trace = Seq<(int, KindView)>;

/// What a parser yields on an input: the position behind what it consumed
/// and the parsed value, or the backtrace of the failure.
pub type Parsed<T> = Result<(int, T), Trace>;

impl View for MshParserErrorKind {
    type V = KindView;

    open spec fn view(&self) -> KindView {
        match *self {
            MshParserErrorKind::UnsupportedMshVersion => KindView::UnsupportedMshVersion,
            MshParserErrorKind::UnsupportedTypeSize(t, s) => KindView::UnsupportedTypeSize(t, s),
            MshParserErrorKind::InvalidFileHeader => KindView::InvalidFileHeader,
            MshParserErrorKind::InvalidSectionHeader => KindView::InvalidSectionHeader,
            MshParserErrorKind::UnknownElement => KindView::UnknownElement,
            MshParserErrorKind::TooManyEntities => KindView::TooManyEntities,
            MshParserErrorKind::ValueOutOfRange(t) => KindView::ValueOutOfRange(t),
            MshParserErrorKind::InvalidTag => KindView::InvalidTag,
            MshParserErrorKind::InvalidParameter => KindView::InvalidParameter,
            MshParserErrorKind::InvalidElementDefinition => KindView::InvalidElementDefinition,
            MshParserErrorKind::InvalidNodeDefinition => KindView::InvalidNodeDefinition,
            MshParserErrorKind::Unimplemented => KindView::Unimplemented,
            MshParserErrorKind::Context(c) => KindView::Context(c@),
            MshParserErrorKind::NomError(k) => KindView::NomError(k),
        }
    }
}

/// The name of a value type as it appears in messages.
pub open spec fn value_type_text(t: ValueType) -> Seq<char> {
    match t {
        ValueType::UnsignedInt => "unsigned integer"@,
        ValueType::Int => "integer"@,
        ValueType::Float => "floating point"@,
    }
}

/// The name of a tokenizer failure as it appears in messages.
pub open spec fn token_text(k: TokenErrorKind) -> Seq<char> {
    match k {
        TokenErrorKind::Tag => "Tag"@,
        TokenErrorKind::Alt => "Alt"@,
        TokenErrorKind::Digit => "Digit"@,
        TokenErrorKind::Eof => "Eof"@,
        TokenErrorKind::Float => "Float"@,
        TokenErrorKind::Count => "Count"@,
        TokenErrorKind::ParseTo => "ParseTo"@,
    }
}

/// The message that describes an error kind to a user.
pub open spec fn message_text(k: KindView) -> Seq<char> {
    match k {
        KindView::UnsupportedMshVersion => "MSH file of unsupported format version loaded. Only the MSH file format specification of revision 4.1 is supported."@,
        KindView::UnsupportedTypeSize(t, s) => "There is no parser available to parse binary "@
            + value_type_text(t) + " values with a size of "@ + decimal(s as nat) + "."@,
        KindView::InvalidFileHeader => "The MSH file header is not valid."@,
        KindView::InvalidSectionHeader => "Unexpected tokens found after file header. Expected a section according to the MSH file format specification."@,
        KindView::UnknownElement => "An unknown element type was encountered in the MSH file."@,
        KindView::TooManyEntities => "There are too many entities to parse them into contiguous memory on the current system (usize type too small)."@,
        KindView::ValueOutOfRange(t) => "A "@ + value_type_text(t)
            + " value could not be parsed because it was out of range of the target data type."@,
        KindView::InvalidTag => "An invalid entity tag value was encountered, e.g. the internally reserved value of 0, or a max_tag that is smaller than a min_tag"@,
        KindView::InvalidParameter => "An invalid parameter value was encountered."@,
        KindView::InvalidElementDefinition => "An invalid element definition was encountered."@,
        KindView::InvalidNodeDefinition => "An invalid node definition was encountered."@,
        KindView::Unimplemented => "An unimplemented feature was detected."@,
        KindView::Context(c) => c,
        KindView::NomError(k) => token_text(k),
    }
}

impl ValueType {
    /// The name of the value type as it appears in messages
    pub fn name(&self) -> (s: &'static str)
        ensures
            s@ == value_type_text(*self),
    {
        match self {
            ValueType::UnsignedInt => "unsigned integer",
            ValueType::Int => "integer",
            ValueType::Float => "floating point",
        }
    }
}

impl TokenErrorKind {
    /// The name of the tokenizer failure as it appears in messages
    pub fn name(&self) -> (s: &'static str)
        ensures
            s@ == token_text(*self),
    {
        match self {
            TokenErrorKind::Tag => "Tag",
            TokenErrorKind::Alt => "Alt",
            TokenErrorKind::Digit => "Digit",
            TokenErrorKind::Eof => "Eof",
            TokenErrorKind::Float => "Float",
            TokenErrorKind::Count => "Count",
            TokenErrorKind::ParseTo => "ParseTo",
        }
    }
}

impl MshParserErrorKind {
    /// Wraps the kind into an error that occurred at the given position
    pub fn into_error(self, position: usize) -> (e: MshParserError)
        ensures
            e@ == seq![(position as int, self@)],
    {
        MshParserError::from_error_kind(position, self)
    }

    /// Returns whether the variant is an internal tokenizer error
    pub fn is_nom_error(&self) -> (b: bool)
        ensures
            b == (self@ is NomError),
    {
        match self {
            MshParserErrorKind::NomError(_) => true,
            _ => false,
        }
    }

    /// Returns a reference to the context message if this error contains one
    pub fn context(&self) -> (c: Option<&str>)
        ensures
            match c {
                Some(s) => self@ == KindView::Context(s@),
                None => !(self@ is Context),
            },
    {
        match self {
            MshParserErrorKind::Context(ctx) => Some(ctx.as_str()),
            _ => None,
        }
    }

    /// Returns a copy of this error kind
    pub fn duplicate(&self) -> (k: MshParserErrorKind)
        ensures
            k@ == self@,
    {
        match self {
            MshParserErrorKind::UnsupportedMshVersion => MshParserErrorKind::UnsupportedMshVersion,
            MshParserErrorKind::UnsupportedTypeSize(t, s) => MshParserErrorKind::UnsupportedTypeSize(
                *t,
                *s,
            ),
            MshParserErrorKind::InvalidFileHeader => MshParserErrorKind::InvalidFileHeader,
            MshParserErrorKind::InvalidSectionHeader => MshParserErrorKind::InvalidSectionHeader,
            MshParserErrorKind::UnknownElement => MshParserErrorKind::UnknownElement,
            MshParserErrorKind::TooManyEntities => MshParserErrorKind::TooManyEntities,
            MshParserErrorKind::ValueOutOfRange(t) => MshParserErrorKind::ValueOutOfRange(*t),
            MshParserErrorKind::InvalidTag => MshParserErrorKind::InvalidTag,
            MshParserErrorKind::InvalidParameter => MshParserErrorKind::InvalidParameter,
            MshParserErrorKind::InvalidElementDefinition => MshParserErrorKind::InvalidElementDefinition,
            MshParserErrorKind::InvalidNodeDefinition => MshParserErrorKind::InvalidNodeDefinition,
            MshParserErrorKind::Unimplemented => MshParserErrorKind::Unimplemented,
            MshParserErrorKind::Context(ctx) => MshParserErrorKind::Context(ctx.clone()),
            MshParserErrorKind::NomError(k) => MshParserErrorKind::NomError(*k),
        }
    }

    /// Returns the message that describes this error kind to a user
    pub fn message(&self) -> (s: String)
        ensures
            s@ == message_text(self@),
    {
        match self {
            MshParserErrorKind::UnsupportedMshVersion => String::from_str(
                "MSH file of unsupported format version loaded. Only the MSH file format specification of revision 4.1 is supported.",
            ),
            MshParserErrorKind::UnsupportedTypeSize(t, size) => {
                let mut s = String::from_str("There is no parser available to parse binary ");
                s.append(t.name());
                s.append(" values with a size of ");
                push_decimal(&mut s, *size as u128);
                s.append(".");
                s
            },
            MshParserErrorKind::InvalidFileHeader => String::from_str(
                "The MSH file header is not valid.",
            ),
            MshParserErrorKind::InvalidSectionHeader => String::from_str(
                "Unexpected tokens found after file header. Expected a section according to the MSH file format specification.",
            ),
            MshParserErrorKind::UnknownElement => String::from_str(
                "An unknown element type was encountered in the MSH file.",
            ),
            MshParserErrorKind::TooManyEntities => String::from_str(
                "There are too many entities to parse them into contiguous memory on the current system (usize type too small).",
            ),
            MshParserErrorKind::ValueOutOfRange(t) => {
                let mut s = String::from_str("A ");
                s.append(t.name());
                s.append(
                    " value could not be parsed because it was out of range of the target data type.",
                );
                s
            },
            MshParserErrorKind::InvalidTag => String::from_str(
                "An invalid entity tag value was encountered, e.g. the internally reserved value of 0, or a max_tag that is smaller than a min_tag",
            ),
            MshParserErrorKind::InvalidParameter => String::from_str(
                "An invalid parameter value was encountered.",
            ),
            MshParserErrorKind::InvalidElementDefinition => String::from_str(
                "An invalid element definition was encountered.",
            ),
            MshParserErrorKind::InvalidNodeDefinition => String::from_str(
                "An invalid node definition was encountered.",
            ),
            MshParserErrorKind::Unimplemented => String::from_str(
                "An unimplemented feature was detected.",
            ),
            MshParserErrorKind::Context(ctx) => ctx.clone(),
            MshParserErrorKind::NomError(k) => String::from_str(k.name()),
        }
    }
}

/// Error type returned by the crate when parsing fails
#[derive(Clone, Debug, PartialEq, Eq)]
pub struct MshParserError {
    /// Error backtrace that contains per level the position in the input where the error ocurred and the corresponding error kind
    pub backtrace: Vec<(usize, MshParserErrorKind)>,
}

/// The backtrace that a sequence of entries stands for.
pub open spec fn trace_of(entries: Seq<(usize, MshParserErrorKind)>) -> Trace {
    Seq::new(entries.len(), |i: int| (entries[i].0 as int, entries[i].1@))
}

impl View for MshParserError {
    type V = Trace;

    open spec fn view(&self) -> Trace {
        trace_of(self.backtrace@)
    }
}

/// The index of the first entry at or behind `from` that is no tokenizer
/// error, or the length of the backtrace where there is none.
pub open spec fn skip_tokens(t: Trace, from: int) -> int
    decreases t.len() - from,
{
    if 0 <= from < t.len() && t[from].1 is NomError {
        skip_tokens(t, from + 1)
    } else {
        from
    }
}

/// The backtrace without its leading tokenizer errors.
pub open spec fn msh_errors(t: Trace) -> Trace {
    t.subrange(skip_tokens(t, 0), t.len() as int)
}

/// The backtrace without any tokenizer error.
pub open spec fn filtered(t: Trace) -> Trace {
    t.filter(|e: (int, KindView)| !(e.1 is NomError))
}

/// The first error kind that is no tokenizer error, if there is one.
pub open spec fn first_error(t: Trace) -> Option<KindView> {
    if msh_errors(t).len() > 0 {
        Some(msh_errors(t)[0].1)
    } else {
        None
    }
}

impl MshParserError {
    /// Creates a new empty error
    pub fn new() -> (e: MshParserError)
        ensures
            e@ == Seq::<(int, KindView)>::empty(),
    {
        let e = MshParserError { backtrace: Vec::new() };
        assert(e@ =~= Seq::<(int, KindView)>::empty());
        e
    }

    /// Construct a new error with the given position and error kind
    pub fn from_error_kind(position: usize, kind: MshParserErrorKind) -> (e: MshParserError)
        ensures
            e@ == seq![(position as int, kind@)],
    {
        let mut backtrace = Vec::new();
        backtrace.push((position, kind));
        let e = MshParserError { backtrace };
        assert(e@ =~= seq![(position as int, kind@)]);
        e
    }

    /// Append an error to the backtrace with the given position and error kind
    pub fn with_append(self, position: usize, kind: MshParserErrorKind) -> (e: MshParserError)
        ensures
            e@ == self@.push((position as int, kind@)),
    {
        let mut backtrace = self.backtrace;
        backtrace.push((position, kind));
        let e = MshParserError { backtrace };
        assert(e@ =~= self@.push((position as int, kind@)));
        e
    }

    /// Append a context message to the backtrace
    pub fn with_context(self, position: usize, ctx: &str) -> (e: MshParserError)
        ensures
            e@ == self@.push((position as int, KindView::Context(ctx@))),
    {
        self.with_append(position, MshParserErrorKind::Context(String::from_str(ctx)))
    }

    /// The entries of the backtrace from the first one on that is an actual MSH format error (i.e. without the internal tokenizer errors in the beginning)
    pub fn begin_msh_errors(&self) -> (r: Vec<(usize, MshParserErrorKind)>)
        ensures
            trace_of(r@) == msh_errors(self@),
    {
        let n = self.backtrace.len();
        let mut start: usize = 0;
        while start < n && self.backtrace[start].1.is_nom_error()
            invariant
                n == self.backtrace@.len(),
                start <= n,
                skip_tokens(self@, 0) == skip_tokens(self@, start as int),
            decreases n - start,
        {
            start += 1;
        }
        let mut r: Vec<(usize, MshParserErrorKind)> = Vec::new();
        let mut i: usize = start;
        while i < n
            invariant
                n == self.backtrace@.len(),
                start <= i <= n,
                trace_of(r@) == self@.subrange(start as int, i as int),
            decreases n - i,
        {
            let ghost before = trace_of(r@);
            r.push((self.backtrace[i].0, self.backtrace[i].1.duplicate()));
            assert(trace_of(r@) =~= before.push(self@[i as int]));
            assert(trace_of(r@) =~= self@.subrange(start as int, i + 1));
            i += 1;
        }
        assert(trace_of(r@) =~= msh_errors(self@));
        r
    }

    /// All entries of the backtrace that are actual MSH format errors (i.e. without any internal tokenizer error)
    pub fn filter_msh_errors(&self) -> (r: Vec<(usize, MshParserErrorKind)>)
        ensures
            trace_of(r@) == filtered(self@),
    {
        let n = self.backtrace.len();
        let ghost pred = |e: (int, KindView)| !(e.1 is NomError);
        let mut r: Vec<(usize, MshParserErrorKind)> = Vec::new();
        let mut i: usize = 0;
        assert(self@.subrange(0, 0) =~= Seq::<(int, KindView)>::empty());
        assert(trace_of(r@) =~= self@.subrange(0, 0).filter(pred));
        while i < n
            invariant
                n == self.backtrace@.len(),
                i <= n,
                pred == |e: (int, KindView)| !(e.1 is NomError),
                trace_of(r@) == self@.subrange(0, i as int).filter(pred),
            decreases n - i,
        {
            let ghost before = trace_of(r@);
            proof {
                let next = self@.subrange(0, i + 1);
                assert(next.drop_last() =~= self@.subrange(0, i as int));
                assert(next.last() == self@[i as int]);
                reveal(Seq::filter);
            }
            if !self.backtrace[i].1.is_nom_error() {
                r.push((self.backtrace[i].0, self.backtrace[i].1.duplicate()));
                assert(trace_of(r@) =~= before.push(self@[i as int]));
            }
            i += 1;
        }
        assert(self@.subrange(0, n as int) =~= self@);
        r
    }

    /// Returns the kind of the first error in the backtrace that is an actual MSH format error kind (i.e. skips internal tokenizer errors)
    pub fn first_msh_error(&self) -> (r: Option<MshParserErrorKind>)
        ensures
            match r {
                Some(k) => first_error(self@) == Some(k@),
                None => first_error(self@) is None,
            },
    {
        let n = self.backtrace.len();
        let mut start: usize = 0;
        while start < n && self.backtrace[start].1.is_nom_error()
            invariant
                n == self.backtrace@.len(),
                start <= n,
                skip_tokens(self@, 0) == skip_tokens(self@, start as int),
            decreases n - start,
        {
            start += 1;
        }
        if start < n {
            Some(self.backtrace[start].1.duplicate())
        } else {
            None
        }
    }

    /// Returns a backtrace containing only the errors that are actual MSH format errors (i.e. without internal tokenizer errors)
    pub fn filtered_backtrace(&self) -> (r: Vec<(usize, MshParserErrorKind)>)
        ensures
            trace_of(r@) == filtered(self@),
    {
        self.filter_msh_errors()
    }
}

/// A failure of one entry.
pub open spec fn failure<T>(position: int, kind: KindView) -> Parsed<T> {
    Err(seq![(position, kind)])
}

/// The result with `kind` appended to the backtrace where it is a failure.
pub open spec fn or_error<T>(r: Parsed<T>, position: int, kind: KindView) -> Parsed<T> {
    match r {
        Ok(v) => Ok(v),
        Err(t) => Err(t.push((position, kind))),
    }
}

/// The result with a context message appended to the backtrace where it is a failure.
pub open spec fn or_context<T>(r: Parsed<T>, position: int, text: Seq<char>) -> Parsed<T> {
    or_error(r, position, KindView::Context(text))
}

/// An error of the given kind that occurred at the given position
pub fn make_error(position: usize, kind: MshParserErrorKind) -> (e: MshParserError)
    ensures
        e@ == seq![(position as int, kind@)],
{
    MshParserError::from_error_kind(position, kind)
}

/// Appends the specified error if the result is an error
pub fn with_error<T>(
    r: Result<T, MshParserError>,
    position: usize,
    kind: MshParserErrorKind,
) -> (out: Result<T, MshParserError>)
    ensures
        match r {
            Ok(v) => out == Ok::<T, MshParserError>(v),
            Err(e) => out is Err && out->Err_0@ == e@.push((position as int, kind@)),
        },
{
    match r {
        Ok(v) => Ok(v),
        Err(e) => Err(e.with_append(position, kind)),
    }
}

/// Appends the given context if the result is an error
pub fn with_context<T>(
    r: Result<T, MshParserError>,
    position: usize,
    ctx: &str,
) -> (out: Result<T, MshParserError>)
    ensures
        match r {
            Ok(v) => out == Ok::<T, MshParserError>(v),
            Err(e) => out is Err && out->Err_0@ == e@.push(
                (position as int, KindView::Context(ctx@)),
            ),
        },
{
    match r {
        Ok(v) => Ok(v),
        Err(e) => Err(e.with_context(position, ctx)),
    }
}

} // verus!

verus! {

/// What a parser that yields no value does on an input: the position behind
/// what it consumed, or the backtrace of the failure.
pub type Moved = Result<int, Trace>;

/// A failure of one entry of a parser that yields no value.
pub open spec fn stop(position: int, kind: KindView) -> Moved {
    Err(seq![(position, kind)])
}

/// Whether an executable result is the given mathematical one.
pub open spec fn agrees<T: DeepView>(
    r: Result<(usize, T), MshParserError>,
    s: Parsed<T::V>,
) -> bool {
    match r {
        Ok((next, value)) => s == Ok::<(int, T::V), Trace>((next as int, value.deep_view())),
        Err(e) => s == Err::<(int, T::V), Trace>(e@),
    }
}

/// Whether an executable result without a value is the given mathematical one.
pub open spec fn moves(r: Result<usize, MshParserError>, s: Moved) -> bool {
    match r {
        Ok(next) => s == Ok::<int, Trace>(next as int),
        Err(e) => s == Err::<int, Trace>(e@),
    }
}

/// What `nom::HexDisplay::to_hex` yields on the bytes: a dump of the bytes in
/// lines of `chunk_size` bytes, each with its offset, the bytes in
/// hexadecimal digits and the bytes as text.
pub uninterp spec fn hex_dump(bytes: Seq<u8>, chunk_size: usize) -> Seq<char>;

/// `nom::HexDisplay::to_hex` on the bytes of the input from `from` on.
#[verifier::external_body]
fn to_hex(input: &[u8], from: usize, chunk_size: usize) -> (dump: String)
    requires
        from <= input.len(),
        chunk_size > 0,
        (input.len() - from) * 3 <= usize::MAX,
        (input.len() - from) + chunk_size <= usize::MAX,
    ensures
        dump@ == hex_dump(input@.subrange(from as int, input.len() as int), chunk_size),
{
    nom::HexDisplay::to_hex(&input[from..], chunk_size)
}

/// The line of the report for one entry of the backtrace.
pub open spec fn report_line(kind: KindView) -> Seq<char> {
    "\tin "@ + message_text(kind) + ",\n"@
}

/// The lines of the report for the entries from `from` on, the last entry,
/// which is the outermost, first.
pub open spec fn report_chain(t: Trace, from: int) -> Seq<char>
    decreases t.len() - from,
{
    if from < 0 || from >= t.len() {
        Seq::empty()
    } else {
        report_chain(t, from + 1) + report_line(t[from].1)
    }
}

/// The position in an input of the given length at which the hex dump of a
/// report starts: the position of the first entry that is no tokenizer error.
pub open spec fn report_position(t: Trace, len: int) -> int {
    let errors = msh_errors(t);
    if errors.len() > 0 && 0 <= errors[0].0 <= len {
        errors[0].0
    } else {
        len
    }
}

/// The report on a backtrace, given the hex dump of the input at the
/// position of the error: without the leading tokenizer errors, the entries
/// from the outermost to the innermost, and the hex dump.
pub open spec fn report_text(t: Trace, dump: Seq<char>) -> Seq<char> {
    let errors = msh_errors(t);
    if errors.len() > 1 {
        "During parsing...\n"@ + report_chain(errors, 1) + "an error occurred: "@ + message_text(
            errors[0].1,
        ) + "\n"@ + "Hex dump of the file at the error location:\n"@ + dump
    } else if errors.len() == 1 {
        "An error occurred during: "@ + message_text(errors[0].1)
    } else {
        "Unknown error occurred\n"@
    }
}

impl MshParserError {
    /// Returns the report on this error, given the hex dump of the input at
    /// the position of the error
    pub fn report_with_dump(&self, dump: &str) -> (report: String)
        ensures
            report@ == report_text(self@, dump@),
    {
        let errors = self.begin_msh_errors();
        let ghost t = trace_of(errors@);
        let n = errors.len();
        if n > 1 {
            let mut chain = String::new();
            let mut i: usize = n;
            while i > 1
                invariant
                    1 <= i <= n,
                    n == errors@.len(),
                    t == trace_of(errors@),
                    chain@ == report_chain(t, i as int),
                decreases i,
            {
                i -= 1;
                let ghost before = chain@;
                let message = errors[i].1.message();
                chain.append("\tin ");
                chain.append(message.as_str());
                chain.append(",\n");
                assert(chain@ =~= before + report_line(t[i as int].1));
            }
            let mut report = String::from_str("During parsing...\n");
            report.append(chain.as_str());
            report.append("an error occurred: ");
            report.append(errors[0].1.message().as_str());
            report.append("\n");
            report.append("Hex dump of the file at the error location:\n");
            report.append(dump);
            report
        } else if n == 1 {
            let mut report = String::from_str("An error occurred during: ");
            report.append(errors[0].1.message().as_str());
            report
        } else {
            String::from_str("Unknown error occurred\n")
        }
    }

    /// Returns the position in the input at which the hex dump of the report
    /// starts
    pub fn report_position(&self, input: &[u8]) -> (at: usize)
        ensures
            at == report_position(self@, input.len() as int),
            at <= input.len(),
    {
        let errors = self.begin_msh_errors();
        if errors.len() > 0 && errors[0].0 <= input.len() {
            assert(trace_of(errors@)[0].0 == errors@[0].0);
            errors[0].0
        } else {
            if errors.len() > 0 {
                assert(trace_of(errors@)[0].0 == errors@[0].0);
            }
            input.len()
        }
    }

    /// Returns the report on this error for a user: the entries of the
    /// backtrace from the outermost to the innermost, and a hex dump of the
    /// input at the position of the error
    pub fn report(&self, input: &[u8]) -> (report: String)
        requires
            input.len() * 3 <= usize::MAX,
        ensures
            report@ == report_text(
                self@,
                hex_dump(
                    input@.subrange(
                        report_position(self@, input.len() as int),
                        input.len() as int,
                    ),
                    16,
                ),
            ),
    {
        let at = self.report_position(input);
        let dump = to_hex(input, at, 16);
        self.report_with_dump(dump.as_str())
    }
}

} // verus!

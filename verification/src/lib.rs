//! Parser for Gmsh mesh files using the MSH file format version 4.1
//!
//! The library supports parsing ASCII and binary encoded MSH files adhering to the MSH file format
//! version 4.1 as specified in the [Gmsh documention](http://gmsh.info/doc/texinfo/gmsh.html#MSH-file-format).
//!
//! If parsing was successful, the [`parse_msh_bytes`](fn.parse_msh_bytes.html) function returns a
//! [`MshFile`](mshfile/struct.MshFile.html) instance. The structure of `MshFile` closely mirrors
//! the MSH format specification. For example the `MshData` associated to a `MshFile` may contain an
//! optional [`Elements`](mshfile/struct.Elements.html) section. This `Elements` section can contain
//! an arbitray number of [`ElementBlock`](mshfile/struct.ElementBlock.html) instances, where each
//! `ElementBlock` only contains elements of the same type and dimension.
//!
//! Currently, only the following sections of MSH files are actually parsed: `Entities`, `Nodes`,
//! `Elements`. All other sections are silently ignored, if they follow the pattern of being
//! delimited by `$SectionName` and `$EndSectionName` (in accordance to the MSH format specification).
//! A file that holds more than one section of one of these three kinds is rejected as using an
//! unimplemented feature.
//!
//! Note that the actual values are not checked for consistency beyond what is defined in the MSH format specification.
//! This means, that a parsed element may refer to node indices that are not present in the node section (if the MSH file already contains
//! such an inconsistency).
//!
//! The values of the MSH types `size_t`, `int` and `double` are held as `u64`, `i32` and as the
//! `u64` bit pattern of a double (of course `size_t` values will still be parsed as having the
//! size specified in the file header).
//!
//! The functions of the library are verified: the contract of each states what it returns in
//! terms of the bytes of the input. The exceptions are the small functions that call the crates
//! `nom` and `num_traits` (the readers of binary numbers, the floating point tokenizer, the
//! casts between integer types and the hex dump of the report): their contracts are believed,
//! not proved, and the documentation of each says what it claims of the function that it calls.

use vstd::prelude::*;
use vstd::slice::slice_to_vec;
use vstd::utf8::encode_utf8;

pub mod element_type;
pub mod error;
pub mod mshfile;
pub mod parsers;
pub mod text;

pub use error::MshParserError;
pub use mshfile::{
    Curve, Element, ElementBlock, ElementType, Elements, Endianness, Entities, MshData, MshFile,
    MshHeader, Node, NodeBlock, Nodes, Point, Surface, Volume,
};

use error::{
    agrees, first_error, make_error, or_context, KindView, MshParserErrorKind, Parsed, Trace,
};
use mshfile::{ElementsView, EntitiesView, MshDataView, MshFileView, NodesView};
use parsers::elements_section::{
    lemma_element_section_sparsity, parse_element_section, spec_element_section,
};
use parsers::entities_section::{parse_entity_section, spec_entity_section};
use parsers::general_parsers::{
    at_byte, br, delimited_block, lemma_block, lemma_block_advances, lemma_delimiter_advances,
    matches_at, parse_delimited_block, skip, spec_block, spec_br, spec_mark, take_class, take_sp,
    ByteClass, Delimiter, Mark, Parser, Trailing,
};
use parsers::header_section::{
    header_is_valid, lemma_header_is_valid, lemma_version_guard, num_parsers_from_header,
    parse_header_section, parsers_of, spec_header, supported_version,
};
use parsers::nodes_section::{lemma_node_section_sparsity, parse_node_section, spec_node_section};
use parsers::num_parsers::{double_result, NumParsers};

verus! {

/// The bytes of a text.
pub open spec fn bytes_of(text: Seq<char>) -> Seq<u8> {
    encode_utf8(text)
}

/// A delimiter that is a tag and a line break.
pub open spec fn line_mark(tag: Seq<u8>) -> Mark {
    Mark { leading_spaces: false, tag, trailing: Trailing::LineBreak }
}

/// The delimiter at the start of a section: whitespace, the tag and a line break.
pub open spec fn start_mark(tag: Seq<u8>) -> Mark {
    Mark { leading_spaces: true, tag, trailing: Trailing::LineBreak }
}

/// The delimiter at the end of a section: the tag between whitespace.
pub open spec fn end_mark(tag: Seq<u8>) -> Mark {
    Mark { leading_spaces: true, tag, trailing: Trailing::Spaces }
}

/// The content of the header section
#[derive(Copy, Clone, Debug)]
pub struct HeaderContent;

/// The content of an entity section of a file
#[derive(Copy, Clone, Debug)]
pub struct EntitySection {
    /// The parsers of the numbers of the file
    pub parsers: NumParsers,
}

/// The content of a node section of a file
#[derive(Copy, Clone, Debug)]
pub struct NodeSection {
    /// The parsers of the numbers of the file
    pub parsers: NumParsers,
}

/// The content of an element section of a file
#[derive(Copy, Clone, Debug)]
pub struct ElementSection {
    /// The parsers of the numbers of the file
    pub parsers: NumParsers,
}

impl Parser for HeaderContent {
    type Output = MshHeader;

    open spec fn spec_parse(&self, input: Seq<u8>, pos: int) -> Parsed<MshHeader> {
        or_context(spec_header(input, pos), pos, "MSH format header content"@)
    }

    fn parse(&self, input: &[u8], pos: usize) -> (r: Result<(usize, MshHeader), MshParserError>) {
        match parse_header_section(input, pos) {
            Ok(v) => Ok(v),
            Err(e) => Err(e.with_context(pos, "MSH format header content")),
        }
    }
}

impl Parser for EntitySection {
    type Output = Entities;

    open spec fn spec_parse(&self, input: Seq<u8>, pos: int) -> Parsed<EntitiesView> {
        or_context(spec_entity_section(self.parsers, input, pos), pos, "entity section"@)
    }

    fn parse(&self, input: &[u8], pos: usize) -> (r: Result<(usize, Entities), MshParserError>) {
        match parse_entity_section(&self.parsers, input, pos) {
            Ok(v) => Ok(v),
            Err(e) => Err(e.with_context(pos, "entity section")),
        }
    }
}

impl Parser for NodeSection {
    type Output = Nodes;

    open spec fn spec_parse(&self, input: Seq<u8>, pos: int) -> Parsed<NodesView> {
        or_context(spec_node_section(self.parsers, input, pos), pos, "node section"@)
    }

    fn parse(&self, input: &[u8], pos: usize) -> (r: Result<(usize, Nodes), MshParserError>) {
        match parse_node_section(&self.parsers, input, pos) {
            Ok(v) => Ok(v),
            Err(e) => Err(e.with_context(pos, "node section")),
        }
    }
}

impl Parser for ElementSection {
    type Output = Elements;

    open spec fn spec_parse(&self, input: Seq<u8>, pos: int) -> Parsed<ElementsView> {
        or_context(spec_element_section(self.parsers, input, pos), pos, "element section"@)
    }

    fn parse(&self, input: &[u8], pos: usize) -> (r: Result<(usize, Elements), MshParserError>) {
        match parse_element_section(&self.parsers, input, pos) {
            Ok(v) => Ok(v),
            Err(e) => Err(e.with_context(pos, "element section")),
        }
    }
}

/// The header section, with which the file starts: the header between the
/// lines `$MeshFormat` and `$EndMeshFormat`.
pub open spec fn spec_header_block(input: Seq<u8>) -> Parsed<MshHeader> {
    or_context(
        match spec_block(
            input,
            0,
            line_mark(bytes_of("$MeshFormat"@)),
            line_mark(bytes_of("$EndMeshFormat"@)),
        ) {
            Err(t) => Err(t),
            Ok((next, content)) => match HeaderContent.spec_parse(
                input.subrange(0, content.1 as int),
                content.0 as int,
            ) {
                Err(t) => Err(t),
                Ok((_, header)) => Ok((next, header)),
            },
        },
        0,
        "MSH file header section"@,
    )
}

/// Where the content of the header section starts and ends, if the section
/// is found.
pub open spec fn header_content(input: Seq<u8>) -> Option<(int, int)> {
    match spec_block(
        input,
        0,
        line_mark(bytes_of("$MeshFormat"@)),
        line_mark(bytes_of("$EndMeshFormat"@)),
    ) {
        Ok((_, content)) => Some((content.0 as int, content.1 as int)),
        Err(_) => None,
    }
}

/// A file whose header holds a version other than 4.1 is rejected as having
/// an unsupported version, at the position of the version: nothing behind the
/// version is read.
pub proof fn lemma_unsupported_version(input: Seq<u8>, from: int, to: int, bits: u64, rest: usize)
    requires
        header_content(input) == Some((from, to)),
        double_result(input.subrange(0, to).subrange(from, to)) == Some((bits, rest)),
        bits != supported_version(),
    ensures
        spec_msh_file(input) matches Err(t) && first_error(t) == Some(
            KindView::UnsupportedMshVersion,
        ) && t[0] == (from, KindView::UnsupportedMshVersion),
{
    let content = input.subrange(0, to);
    lemma_version_guard(content, from, bits, rest);
    let t = seq![(from, KindView::UnsupportedMshVersion)].push(
        (from, KindView::Context("MSH format header content"@)),
    ).push((0, KindView::Context("MSH file header section"@)));
    assert(error::skip_tokens(t, 0) == 0);
}

/// A section of a known kind: its content between its start and its end
/// delimiter.
pub open spec fn spec_section<P: Parser>(
    parser: P,
    input: Seq<u8>,
    pos: int,
    start_tag: Seq<u8>,
    end_tag: Seq<u8>,
) -> Parsed<<P::Output as DeepView>::V> {
    match spec_mark(input, pos, start_mark(start_tag)) {
        Err(t) => Err(t),
        Ok(from) => match parser.spec_parse(input, from) {
            Err(t) => Err(t),
            Ok((to, value)) => match spec_mark(input, to, end_mark(end_tag)) {
                Err(t) => Err(t),
                Ok(next) => Ok((next, value)),
            },
        },
    }
}

/// Whether a section with the given start tag starts at the position.
pub open spec fn section_detected(input: Seq<u8>, pos: int, start_tag: Seq<u8>) -> bool {
    spec_mark(input, pos, start_mark(start_tag)) is Ok
}

/// The name of the section that starts at the position, as the positions at
/// which the name starts and ends: the letters between a dollar sign, which
/// whitespace may precede, and a line break.
pub open spec fn section_name(input: Seq<u8>, pos: int) -> Option<(int, int)> {
    let dollar = skip(input, pos, ByteClass::Space);
    let end = skip(input, dollar + 1, ByteClass::Letter);
    if matches_at(input, dollar, seq![0x24u8]) && spec_br(input, end) is Ok {
        Some((dollar + 1, end))
    } else {
        None
    }
}

/// A section of a kind that is not parsed, named by the bytes from `from` up
/// to `to`: the block between `$` with the name and `$End` with the name.
pub open spec fn spec_unknown_section(input: Seq<u8>, pos: int, from: int, to: int) -> Parsed<
    (usize, usize),
> {
    spec_block(
        input,
        pos,
        start_mark(bytes_of("$"@) + input.subrange(from, to)),
        end_mark(bytes_of("$End"@) + input.subrange(from, to)),
    )
}

/// The sections of each kind that were found in a file, in the order of the file
pub struct Sections {
    pub entities: Seq<EntitiesView>,
    pub nodes: Seq<NodesView>,
    pub elements: Seq<ElementsView>,
}

/// The next section of a file, which starts at the position, added to the
/// sections found before it: an entity, node or element section, or a section
/// of another name, which is skipped.
#[verifier::opaque]
pub open spec fn spec_next_section(cfg: NumParsers, input: Seq<u8>, pos: int, found: Sections) -> Result<
    (int, Sections),
    Trace,
> {
    if section_detected(input, pos, bytes_of("$Entities"@)) {
        match spec_section(
            EntitySection { parsers: cfg },
            input,
            pos,
            bytes_of("$Entities"@),
            bytes_of("$EndEntities"@),
        ) {
            Err(t) => Err(t),
            Ok((next, entities)) => Ok(
                (next, Sections { entities: found.entities.push(entities), ..found }),
            ),
        }
    } else if section_detected(input, pos, bytes_of("$Nodes"@)) {
        match spec_section(
            NodeSection { parsers: cfg },
            input,
            pos,
            bytes_of("$Nodes"@),
            bytes_of("$EndNodes"@),
        ) {
            Err(t) => Err(t),
            Ok((next, nodes)) => Ok((next, Sections { nodes: found.nodes.push(nodes), ..found })),
        }
    } else if section_detected(input, pos, bytes_of("$Elements"@)) {
        match spec_section(
            ElementSection { parsers: cfg },
            input,
            pos,
            bytes_of("$Elements"@),
            bytes_of("$EndElements"@),
        ) {
            Err(t) => Err(t),
            Ok((next, elements)) => Ok(
                (next, Sections { elements: found.elements.push(elements), ..found }),
            ),
        }
    } else {
        match section_name(input, pos) {
            Some((from, to)) => match spec_unknown_section(input, pos, from, to) {
                Err(t) => Err(t),
                Ok((next, _)) => Ok((next, found)),
            },
            None => Err(seq![(pos, KindView::InvalidSectionHeader)]),
        }
    }
}

/// The sections of a file from a position on, added to those found before
/// it. A section that did not end behind the position at which it starts
/// would be rejected as an invalid section header.
pub open spec fn spec_sections(cfg: NumParsers, input: Seq<u8>, pos: int, found: Sections) -> Result<
    (int, Sections),
    Trace,
>
    decreases input.len() - pos,
{
    if pos < 0 || pos >= input.len() {
        Ok((pos, found))
    } else {
        match spec_next_section(cfg, input, pos, found) {
            Err(t) => Err(t),
            Ok((next, more)) => if pos < next <= input.len() {
                spec_sections(cfg, input, next, more)
            } else {
                Err(seq![(pos, KindView::InvalidSectionHeader)])
            },
        }
    }
}

/// The one section of a kind that a file may have: none where none was
/// found, and an unimplemented feature where more than one was found.
pub open spec fn spec_single<V>(sections: Seq<V>, end: int, message: Seq<char>) -> Result<
    Option<V>,
    Trace,
> {
    if sections.len() == 0 {
        Ok(None)
    } else if sections.len() == 1 {
        Ok(Some(sections[0]))
    } else {
        Err(seq![(end, KindView::Unimplemented), (end, KindView::Context(message))])
    }
}

/// The data of a file with the given sections, which end at `end`.
pub open spec fn spec_data(found: Sections, end: int) -> Result<MshDataView, Trace> {
    match spec_single(
        found.entities,
        end,
        "Multiple entity sections found in the MSH file, this cannot be handled at the moment."@,
    ) {
        Err(t) => Err(t),
        Ok(entities) => match spec_single(
            found.nodes,
            end,
            "Multiple node sections found in the MSH file, this cannot be handled at the moment."@,
        ) {
            Err(t) => Err(t),
            Ok(nodes) => match spec_single(
                found.elements,
                end,
                "Multiple element sections found in the MSH file, this cannot be handled at the moment."@,
            ) {
                Err(t) => Err(t),
                Ok(elements) => Ok(MshDataView { entities, nodes, elements }),
            },
        },
    }
}

/// The sections that are found before any section is.
pub open spec fn no_sections() -> Sections {
    Sections { entities: Seq::empty(), nodes: Seq::empty(), elements: Seq::empty() }
}

/// An MSH file: its header section and, up to the end of the input, its
/// other sections.
pub open spec fn spec_msh_file(input: Seq<u8>) -> Parsed<MshFileView> {
    match spec_header_block(input) {
        Err(t) => Err(t),
        Ok((body, header)) => match spec_sections(parsers_of(header), input, body, no_sections()) {
            Err(t) => Err(t),
            Ok((end, found)) => match spec_data(found, end) {
                Err(t) => Err(t),
                Ok(data) => Ok((end, MshFileView { header, data })),
            },
        },
    }
}

/// Whether the tags of all node and element sections are valid.
pub open spec fn sections_are_valid(found: Sections) -> bool {
    &&& forall|i: int| 0 <= i < found.nodes.len() ==> (#[trigger] found.nodes[i]).tags_are_valid()
    &&& forall|i: int|
        0 <= i < found.elements.len() ==> (#[trigger] found.elements[i]).tags_are_valid()
}

/// A section that is added to sections with valid tags has valid tags.
pub proof fn lemma_next_section_is_valid(cfg: NumParsers, input: Seq<u8>, pos: int, found: Sections)
    requires
        sections_are_valid(found),
    ensures
        spec_next_section(cfg, input, pos, found) matches Ok((_, more)) ==> sections_are_valid(
            more,
        ),
{
    reveal(spec_next_section);
    if section_detected(input, pos, bytes_of("$Entities"@)) {
    } else if section_detected(input, pos, bytes_of("$Nodes"@)) {
        let from = spec_mark(input, pos, start_mark(bytes_of("$Nodes"@)))->Ok_0;
        lemma_node_section_sparsity(cfg, input, from);
    } else if section_detected(input, pos, bytes_of("$Elements"@)) {
        let from = spec_mark(input, pos, start_mark(bytes_of("$Elements"@)))->Ok_0;
        lemma_element_section_sparsity(cfg, input, from);
    }
}

/// The sections of a file have valid tags: no smallest tag is zero or above
/// the largest, and a block has a tag map if and only if the tags of its
/// section are sparse.
pub proof fn lemma_sections_are_valid(cfg: NumParsers, input: Seq<u8>, pos: int, found: Sections)
    requires
        sections_are_valid(found),
    ensures
        spec_sections(cfg, input, pos, found) matches Ok((_, all)) ==> sections_are_valid(all),
    decreases input.len() - pos,
{
    if 0 <= pos < input.len() {
        lemma_next_section_is_valid(cfg, input, pos, found);
        if let Ok((next, more)) = spec_next_section(cfg, input, pos, found) {
            if pos < next <= input.len() {
                lemma_sections_are_valid(cfg, input, next, more);
            }
        }
    }
}

/// In a file that is accepted, the tags of the node section and of the
/// element section are valid: the smallest tag is not zero and not above the
/// largest, and a block has a tag map if and only if the range of the tags is
/// larger than the declared number of items.
pub proof fn lemma_file_tags_are_valid(input: Seq<u8>)
    ensures
        spec_msh_file(input) matches Ok((_, file)) ==> file.tags_are_valid(),
{
    if let Ok((body, header)) = spec_header_block(input) {
        lemma_sections_are_valid(parsers_of(header), input, body, no_sections());
    }
}

/// A section of a kind that is not parsed is skipped: the sections from its
/// start on are the sections from its end on. A position at which no section
/// starts is rejected as an invalid section header.
pub proof fn lemma_unknown_sections(cfg: NumParsers, input: Seq<u8>, pos: int, found: Sections)
    requires
        0 <= pos < input.len() <= usize::MAX,
        !section_detected(input, pos, bytes_of("$Entities"@)),
        !section_detected(input, pos, bytes_of("$Nodes"@)),
        !section_detected(input, pos, bytes_of("$Elements"@)),
    ensures
        match section_name(input, pos) {
            Some((from, to)) => match spec_unknown_section(input, pos, from, to) {
                Ok((next, _)) => pos < next <= input.len() && spec_sections(cfg, input, pos, found)
                    == spec_sections(cfg, input, next, found),
                Err(t) => spec_sections(cfg, input, pos, found) == Err::<(int, Sections), Trace>(t),
            },
            None => spec_sections(cfg, input, pos, found) == Err::<(int, Sections), Trace>(
                seq![(pos, KindView::InvalidSectionHeader)],
            ),
        },
{
    reveal(spec_next_section);
    if let Some((from, to)) = section_name(input, pos) {
        reveal_strlit("$");
        lemma_bytes_of_text("$"@);
        lemma_block_advances(
            input,
            pos,
            start_mark(bytes_of("$"@) + input.subrange(from, to)),
            end_mark(bytes_of("$End"@) + input.subrange(from, to)),
        );
    }
}

/// A text that is not empty has bytes.
pub proof fn lemma_bytes_of_text(text: Seq<char>)
    requires
        text.len() > 0,
    ensures
        bytes_of(text).len() > 0,
{
}

/// The bytes of a text
fn tag_bytes(text: &str) -> (bytes: &[u8])
    ensures
        bytes@ == bytes_of(text@),
{
    text.as_bytes()
}

/// The bytes of a text followed by the bytes of the input from `from` up to `to`
fn tag_with_name(prefix: &str, input: &[u8], from: usize, to: usize) -> (tag: Vec<u8>)
    requires
        from <= to <= input.len(),
    ensures
        tag@ == bytes_of(prefix@) + input@.subrange(from as int, to as int),
{
    let mut tag = slice_to_vec(tag_bytes(prefix));
    let mut i: usize = from;
    assert(tag@ =~= bytes_of(prefix@) + input@.subrange(from as int, from as int));
    while i < to
        invariant
            from <= i <= to <= input.len(),
            tag@ == bytes_of(prefix@) + input@.subrange(from as int, i as int),
        decreases to - i,
    {
        tag.push(input[i]);
        assert(tag@ =~= bytes_of(prefix@) + input@.subrange(from as int, i + 1));
        i += 1;
    }
    tag
}

/// Parses the header section, with which the file starts
fn parse_header_block(input: &[u8]) -> (r: Result<(usize, MshHeader), MshParserError>)
    ensures
        agrees(r, spec_header_block(input@)),
        r matches Ok((next, header)) ==> next <= input.len() && header_is_valid(header),
{
    let start = Delimiter {
        leading_spaces: false,
        tag: tag_bytes("$MeshFormat"),
        trailing: Trailing::LineBreak,
    };
    let end = Delimiter {
        leading_spaces: false,
        tag: tag_bytes("$EndMeshFormat"),
        trailing: Trailing::LineBreak,
    };
    proof {
        lemma_block(start, end, input@, 0);
        if let Ok((_, content)) = spec_block(input@, 0, start@, end@) {
            lemma_header_is_valid(input@.subrange(0, content.1 as int), content.0 as int);
        }
    }
    match parse_delimited_block(&start, &end, &HeaderContent, input, 0) {
        Ok((next, header)) => Ok((next, header)),
        Err(e) => Err(e.with_context(0, "MSH file header section")),
    }
}


/// Parses a section of a known kind: its content between its start and its
/// end delimiter
fn parse_section<P: Parser>(
    parser: &P,
    input: &[u8],
    pos: usize,
    start_tag: &str,
    end_tag: &str,
) -> (r: Result<(usize, P::Output), MshParserError>)
    requires
        pos <= input.len(),
        start_tag@.len() > 0,
    ensures
        agrees(r, spec_section(*parser, input@, pos as int, bytes_of(start_tag@), bytes_of(end_tag@))),
        r matches Ok((next, _)) ==> pos < next <= input.len(),
{
    let start = Delimiter {
        leading_spaces: true,
        tag: tag_bytes(start_tag),
        trailing: Trailing::LineBreak,
    };
    let end = Delimiter { leading_spaces: true, tag: tag_bytes(end_tag), trailing: Trailing::Spaces };
    proof {
        lemma_bytes_of_text(start_tag@);
        lemma_delimiter_advances(
            input@,
            pos as int,
            true,
            bytes_of(start_tag@),
            Trailing::LineBreak,
        );
    }
    let from = match start.parse(input, pos) {
        Ok((p, _)) => p,
        Err(e) => {
            return Err(e);
        },
    };
    let (to, value) = match parser.parse(input, from) {
        Ok(v) => v,
        Err(e) => {
            return Err(e);
        },
    };
    match end.parse(input, to) {
        Ok((next, _)) => Ok((next, value)),
        Err(e) => Err(e),
    }
}

/// Returns whether a section with the given start tag starts at the position
fn section_starts(input: &[u8], pos: usize, start_tag: &str) -> (detected: bool)
    requires
        pos <= input.len(),
    ensures
        detected == section_detected(input@, pos as int, bytes_of(start_tag@)),
{
    let start = Delimiter {
        leading_spaces: true,
        tag: tag_bytes(start_tag),
        trailing: Trailing::LineBreak,
    };
    start.parse(input, pos).is_ok()
}

/// Returns where the name of the section that starts at the position starts
/// and ends
fn find_section_name(input: &[u8], pos: usize) -> (r: Option<(usize, usize)>)
    requires
        pos <= input.len(),
    ensures
        match r {
            Some((from, to)) => section_name(input@, pos as int) == Some((from as int, to as int))
                && from <= to <= input.len(),
            None => section_name(input@, pos as int) is None,
        },
{
    let dollar = take_sp(input, pos);
    if !at_byte(input, dollar, 0x24) {
        return None;
    }
    let end = take_class(input, dollar + 1, ByteClass::Letter);
    if br(input, end).is_ok() {
        Some((dollar + 1, end))
    } else {
        None
    }
}

/// Skips a section of a kind that is not parsed, whose name stands in the
/// input from `from` up to `to`
fn skip_unknown_section(input: &[u8], pos: usize, from: usize, to: usize) -> (r: Result<
    (usize, (usize, usize)),
    MshParserError,
>)
    requires
        pos <= input.len(),
        from <= to <= input.len(),
    ensures
        agrees(r, spec_unknown_section(input@, pos as int, from as int, to as int)),
        r matches Ok((next, _)) ==> pos < next <= input.len(),
{
    let start_tag = tag_with_name("$", input, from, to);
    let end_tag = tag_with_name("$End", input, from, to);
    let start = Delimiter {
        leading_spaces: true,
        tag: start_tag.as_slice(),
        trailing: Trailing::LineBreak,
    };
    let end = Delimiter { leading_spaces: true, tag: end_tag.as_slice(), trailing: Trailing::Spaces };
    proof {
        reveal_strlit("$");
        lemma_bytes_of_text("$"@);
        lemma_block(start, end, input@, pos as int);
        lemma_block_advances(input@, pos as int, start@, end@);
    }
    delimited_block(&start, &end, input, pos)
}

/// The sections of each kind that were found in a file
struct Found {
    entities: Vec<Entities>,
    nodes: Vec<Nodes>,
    elements: Vec<Elements>,
}

impl View for Found {
    type V = Sections;

    closed spec fn view(&self) -> Sections {
        Sections {
            entities: self.entities.deep_view(),
            nodes: self.nodes.deep_view(),
            elements: self.elements.deep_view(),
        }
    }
}

/// Parses the next section of a file and adds it to the sections found
/// before it
fn parse_next_section(parsers: &NumParsers, input: &[u8], pos: usize, found: Found) -> (r: Result<
    (usize, Found),
    MshParserError,
>)
    requires
        pos <= input.len(),
    ensures
        match r {
            Ok((next, more)) => spec_next_section(*parsers, input@, pos as int, found@) == Ok::<
                (int, Sections),
                Trace,
            >((next as int, more@)) && pos < next <= input.len(),
            Err(e) => spec_next_section(*parsers, input@, pos as int, found@) == Err::<
                (int, Sections),
                Trace,
            >(e@),
        },
{
    reveal(spec_next_section);
    proof {
        reveal_strlit("$Entities");
        reveal_strlit("$Nodes");
        reveal_strlit("$Elements");
    }
    let mut found = found;
    if section_starts(input, pos, "$Entities") {
        let section = EntitySection { parsers: *parsers };
        match parse_section(&section, input, pos, "$Entities", "$EndEntities") {
            Ok((next, entities)) => {
                let ghost before = found.entities.deep_view();
                let ghost value = entities.deep_view();
                found.entities.push(entities);
                assert(found.entities.deep_view() =~= before.push(value));
                Ok((next, found))
            },
            Err(e) => Err(e),
        }
    } else if section_starts(input, pos, "$Nodes") {
        let section = NodeSection { parsers: *parsers };
        match parse_section(&section, input, pos, "$Nodes", "$EndNodes") {
            Ok((next, nodes)) => {
                let ghost before = found.nodes.deep_view();
                let ghost value = nodes.deep_view();
                found.nodes.push(nodes);
                assert(found.nodes.deep_view() =~= before.push(value));
                Ok((next, found))
            },
            Err(e) => Err(e),
        }
    } else if section_starts(input, pos, "$Elements") {
        let section = ElementSection { parsers: *parsers };
        match parse_section(&section, input, pos, "$Elements", "$EndElements") {
            Ok((next, elements)) => {
                let ghost before = found.elements.deep_view();
                let ghost value = elements.deep_view();
                found.elements.push(elements);
                assert(found.elements.deep_view() =~= before.push(value));
                Ok((next, found))
            },
            Err(e) => Err(e),
        }
    } else {
        match find_section_name(input, pos) {
            Some((from, to)) => match skip_unknown_section(input, pos, from, to) {
                Ok((next, _)) => Ok((next, found)),
                Err(e) => Err(e),
            },
            None => Err(make_error(pos, MshParserErrorKind::InvalidSectionHeader)),
        }
    }
}

/// Returns the one section of a kind that a file may have
fn single<T: DeepView>(sections: Vec<T>, end: usize, message: &str) -> (r: Result<
    Option<T>,
    MshParserError,
>)
    ensures
        match r {
            Ok(section) => spec_single(sections.deep_view(), end as int, message@) == Ok::<
                Option<T::V>,
                Trace,
            >(section.deep_view()),
            Err(e) => spec_single(sections.deep_view(), end as int, message@) == Err::<
                Option<T::V>,
                Trace,
            >(e@),
        },
{
    let mut sections = sections;
    if sections.len() > 1 {
        let e = make_error(end, MshParserErrorKind::Unimplemented).with_context(end, message);
        assert(e@ =~= seq![
            (end as int, KindView::Unimplemented),
            (end as int, KindView::Context(message@)),
        ]);
        Err(e)
    } else {
        Ok(sections.pop())
    }
}

/// Parses an MSH file and returns the position at which it ends
fn private_parse_msh_bytes(input: &[u8]) -> (r: Result<(usize, MshFile), MshParserError>)
    ensures
        agrees(r, spec_msh_file(input@)),
        r matches Ok((end, file)) ==> end == input.len() && file.deep_view().tags_are_valid()
            && header_is_valid(file.header),
{
    proof {
        lemma_file_tags_are_valid(input@);
    }
    let (body, header) = match parse_header_block(input) {
        Ok(v) => v,
        Err(e) => {
            return Err(e);
        },
    };
    let parsers = match num_parsers_from_header(&header) {
        Ok(p) => p,
        Err(kind) => {
            return Err(make_error(body, kind));
        },
    };
    let mut found = Found { entities: Vec::new(), nodes: Vec::new(), elements: Vec::new() };
    assert(found@ =~= no_sections()) by {
        assert(found.entities.deep_view() =~= Seq::<EntitiesView>::empty());
        assert(found.nodes.deep_view() =~= Seq::<NodesView>::empty());
        assert(found.elements.deep_view() =~= Seq::<ElementsView>::empty());
    }
    let mut pos: usize = body;
    while pos < input.len()
        invariant
            pos <= input.len(),
            spec_header_block(input@) == Ok::<(int, MshHeader), Trace>((body as int, header)),
            header_is_valid(header),
            parsers == parsers_of(header),
            spec_sections(parsers, input@, pos as int, found@) == spec_sections(
                parsers,
                input@,
                body as int,
                no_sections(),
            ),
        decreases input.len() - pos,
    {
        match parse_next_section(&parsers, input, pos, found) {
            Ok((next, more)) => {
                pos = next;
                found = more;
            },
            Err(e) => {
                return Err(e);
            },
        }
    }
    let entities = match single(
        found.entities,
        pos,
        "Multiple entity sections found in the MSH file, this cannot be handled at the moment.",
    ) {
        Ok(v) => v,
        Err(e) => {
            return Err(e);
        },
    };
    let nodes = match single(
        found.nodes,
        pos,
        "Multiple node sections found in the MSH file, this cannot be handled at the moment.",
    ) {
        Ok(v) => v,
        Err(e) => {
            return Err(e);
        },
    };
    let elements = match single(
        found.elements,
        pos,
        "Multiple element sections found in the MSH file, this cannot be handled at the moment.",
    ) {
        Ok(v) => v,
        Err(e) => {
            return Err(e);
        },
    };
    Ok((pos, MshFile { header, data: MshData { entities, nodes, elements } }))
}

/// Try to parse a [`MshFile`](mshfile/struct.MshFile.html) from a slice of bytes
///
/// The input can be the content of an ASCII or binary encoded MSH file of file format version 4.1.
pub fn parse_msh_bytes(input: &[u8]) -> (r: Result<MshFile, MshParserError>)
    ensures
        match r {
            Ok(file) => spec_msh_file(input@) == Ok::<(int, MshFileView), Trace>(
                (input.len() as int, file.deep_view()),
            ) && file.deep_view().tags_are_valid() && header_is_valid(file.header),
            Err(e) => spec_msh_file(input@) == Err::<(int, MshFileView), Trace>(e@),
        },
{
    match private_parse_msh_bytes(input) {
        Ok((_, file)) => Ok(file),
        Err(e) => Err(e),
    }
}

} // verus!

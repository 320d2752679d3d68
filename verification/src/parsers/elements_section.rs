//! Parser for the content of the `$Elements` section: the elements of the
//! mesh in blocks, one block for each entity and element type.
//!
//! The section starts with the number of blocks, the number of elements and
//! the smallest and the largest element tag. A block starts with the
//! dimension and the tag of its entity, the code of the type of its elements
//! and the number of its elements. Each element is its tag and the tags of as
//! many nodes as the element type has.

use std::collections::HashMap;
use vstd::prelude::*;

use crate::element_type::{element_type_of, node_count, ElementType};
use crate::error::{
    agrees, failure, first_error, make_error, or_context, or_error, KindView, MshParserError,
    MshParserErrorKind, Parsed,
};
use crate::mshfile::{
    tag_map, tags_are_sparse, Element, ElementBlock, ElementBlockView, ElementView, Elements,
    ElementsView,
};
use crate::parsers::general_parsers::{count_indexed, items_of, spec_count, ItemParser};
use crate::parsers::nodes_section::{
    block_label, block_label_text, parse_section_header, section_header_text, sparse_tags,
    spec_section_header, BlockKind,
};
use crate::parsers::num_parsers::NumParsers;
use crate::text::{joined, numbered, numbered_label, signed_decimal, with_number};

verus! {

/// The type of the elements of a block: an `int` value that is the code of
/// an element type.
pub open spec fn spec_element_type(cfg: NumParsers, input: Seq<u8>, pos: int) -> Parsed<
    ElementType,
> {
    or_context(
        match cfg.spec_int(input, pos) {
            Err(t) => Err(t),
            Ok((next, code)) => match element_type_of(code as int) {
                Some(element_type) => Ok((next, element_type)),
                None => or_context(
                    failure(pos, KindView::UnknownElement),
                    pos,
                    "value "@ + signed_decimal(code as int),
                ),
            },
        },
        pos,
        "element type"@,
    )
}

/// A code that stands for no element type is rejected as an unknown element,
/// and the backtrace holds the code.
pub proof fn lemma_unknown_element(cfg: NumParsers, input: Seq<u8>, pos: int)
    ensures
        (cfg.spec_int(input, pos) matches Ok((_, code)) && element_type_of(code as int) is None)
            ==> (spec_element_type(cfg, input, pos) matches Err(t) && first_error(t) == Some(
            KindView::UnknownElement,
        ) && t.len() == 3 && t[1].1 == KindView::Context(
            "value "@ + signed_decimal(cfg.spec_int(input, pos)->Ok_0.1 as int),
        )),
{
    if let Ok((_, code)) = cfg.spec_int(input, pos) {
        if element_type_of(code as int) is None {
            let t = seq![(pos, KindView::UnknownElement)].push(
                (pos, KindView::Context("value "@ + signed_decimal(code as int))),
            ).push((pos, KindView::Context("element type"@)));
            assert(crate::error::skip_tokens(t, 0) == 0);
        }
    }
}

/// The tags of the first `n` nodes of an element, which start at `pos`.
pub open spec fn spec_node_refs(cfg: NumParsers, input: Seq<u8>, pos: int, n: nat) -> Parsed<
    Seq<u64>,
>
    decreases n,
{
    if n == 0 {
        Ok((pos, Seq::empty()))
    } else {
        match spec_node_refs(cfg, input, pos, (n - 1) as nat) {
            Err(t) => Err(t),
            Ok((at, tags)) => match cfg.spec_size_t(input, at) {
                Err(t) => Err(t),
                Ok((next, tag)) => Ok((next, tags.push(tag))),
            },
        }
    }
}

/// An element of a type with `nodes` nodes: its tag and the tags of its nodes.
pub open spec fn spec_element(cfg: NumParsers, nodes: usize, input: Seq<u8>, pos: int) -> Parsed<
    ElementView,
> {
    match cfg.spec_size_t(input, pos) {
        Err(t) => Err(t),
        Ok((at1, element_tag)) => match spec_node_refs(cfg, input, at1, nodes as nat) {
            Err(t) => Err(t),
            Ok((at2, nodes)) => Ok((at2, ElementView { element_tag, nodes })),
        },
    }
}

/// An element that lacks the tag of a node is rejected.
pub proof fn lemma_node_refs_fail(cfg: NumParsers, input: Seq<u8>, pos: int, k: nat, n: nat)
    requires
        k <= n,
        spec_node_refs(cfg, input, pos, k) is Err,
    ensures
        spec_node_refs(cfg, input, pos, n) == spec_node_refs(cfg, input, pos, k),
    decreases n - k,
{
    if k < n {
        lemma_node_refs_fail(cfg, input, pos, k, (n - 1) as nat);
    }
}

/// The label of one element of a block.
pub open spec fn element_label_text(index: int, total: usize) -> Seq<char> {
    numbered("element definition"@, (index + 1) as nat, total as nat)
}

/// The elements of a block
#[derive(Copy, Clone, Debug)]
pub struct ElementItems {
    /// The parsers of the numbers of the file
    pub parsers: NumParsers,
    /// The number of nodes of an element of the block
    pub nodes_per_element: usize,
    /// The number of elements in the block
    pub total: usize,
}

/// The tags of the elements of a block, in the order of the elements.
pub open spec fn element_tags_of(elements: Seq<ElementView>) -> Seq<u64> {
    Seq::new(elements.len(), |i: int| elements[i].element_tag)
}

/// A block of elements in a section whose tags are sparse or not.
pub open spec fn spec_element_block(cfg: NumParsers, sparse: bool, input: Seq<u8>, pos: int) -> Parsed<
    ElementBlockView,
> {
    match or_context(cfg.spec_int(input, pos), pos, "entity dimension"@) {
        Err(t) => Err(t),
        Ok((at1, entity_dim)) => match or_context(cfg.spec_int(input, at1), at1, "entity tag"@) {
            Err(t) => Err(t),
            Ok((at2, entity_tag)) => match spec_element_type(cfg, input, at2) {
                Err(t) => Err(t),
                Ok((at3, element_type)) => match or_context(
                    cfg.spec_to_usize(input, at3),
                    at3,
                    "number of elements in element block"@,
                ) {
                    Err(t) => Err(t),
                    Ok((at4, count)) => match node_count(element_type) {
                        None => or_context(
                            failure(at3, KindView::Unimplemented),
                            at3,
                            "An element type encountered in the MSH file does not have a known number of nodes."@,
                        ),
                        Some(nodes) => match spec_count(
                            items_of(
                                ElementItems {
                                    parsers: cfg,
                                    nodes_per_element: nodes,
                                    total: count,
                                },
                                input,
                            ),
                            at4,
                            count as nat,
                        ) {
                            Err(t) => Err(t),
                            Ok((at5, elements)) => Ok(
                                (
                                    at5,
                                    ElementBlockView {
                                        entity_dim,
                                        entity_tag,
                                        element_type,
                                        element_tags: if sparse {
                                            Some(tag_map(element_tags_of(elements)))
                                        } else {
                                            None
                                        },
                                        elements,
                                    },
                                ),
                            ),
                        },
                    },
                },
            },
        },
    }
}

/// The blocks of an element section
#[derive(Copy, Clone, Debug)]
pub struct ElementBlockItems {
    /// The parsers of the numbers of the file
    pub parsers: NumParsers,
    /// Whether the tags of the section are sparse
    pub sparse: bool,
    /// The number of blocks in the section
    pub total: usize,
}

/// The content of an element section.
#[verifier::opaque]
pub open spec fn spec_element_section(cfg: NumParsers, input: Seq<u8>, pos: int) -> Parsed<
    ElementsView,
> {
    match or_context(
        spec_section_header(cfg, input, pos, BlockKind::Element),
        pos,
        section_header_text(BlockKind::Element),
    ) {
        Err(t) => Err(t),
        Ok((at1, header)) => match spec_count(
            items_of(
                ElementBlockItems {
                    parsers: cfg,
                    sparse: tags_are_sparse(header.min_tag, header.max_tag, header.num_items),
                    total: header.num_entity_blocks,
                },
                input,
            ),
            at1,
            header.num_entity_blocks as nat,
        ) {
            Err(t) => Err(t),
            Ok((at2, element_blocks)) => Ok(
                (
                    at2,
                    ElementsView {
                        num_elements: header.num_items,
                        min_element_tag: header.min_tag,
                        max_element_tag: header.max_tag,
                        element_blocks,
                    },
                ),
            ),
        },
    }
}

/// Every block of a repetition of element blocks has a tag map if and only
/// if the tags of the section are sparse.
pub proof fn lemma_element_blocks_sparsity(
    items: ElementBlockItems,
    input: Seq<u8>,
    start: int,
    n: nat,
)
    ensures
        spec_count(items_of(items, input), start, n) matches Ok((_, blocks)) ==> forall|i: int|
            0 <= i < blocks.len() ==> ((#[trigger] blocks[i]).element_tags is Some
                <==> items.sparse),
    decreases n,
{
    if n > 0 {
        lemma_element_blocks_sparsity(items, input, start, (n - 1) as nat);
    }
}

/// In an element section that is accepted, the smallest tag is not zero and
/// not above the largest, and every block has a tag map if and only if the
/// range of the tags is larger than the declared number of elements.
pub proof fn lemma_element_section_sparsity(cfg: NumParsers, input: Seq<u8>, pos: int)
    ensures
        spec_element_section(cfg, input, pos) matches Ok((_, elements))
            ==> elements.tags_are_valid(),
{
    reveal(spec_element_section);
    if let Ok((at1, header)) = spec_section_header(cfg, input, pos, BlockKind::Element) {
        lemma_element_blocks_sparsity(
            ElementBlockItems {
                parsers: cfg,
                sparse: tags_are_sparse(header.min_tag, header.max_tag, header.num_items),
                total: header.num_entity_blocks,
            },
            input,
            at1,
            header.num_entity_blocks as nat,
        );
    }
}

/// Parses the type of the elements of a block
pub fn parse_element_type(parsers: &NumParsers, input: &[u8], pos: usize) -> (r: Result<
    (usize, ElementType),
    MshParserError,
>)
    requires
        pos <= input.len(),
    ensures
        agrees(r, spec_element_type(*parsers, input@, pos as int)),
        r matches Ok((next, _)) ==> pos <= next <= input.len(),
{
    let (next, code) = match parsers.parse_int(input, pos) {
        Ok(v) => v,
        Err(e) => {
            return Err(e.with_context(pos, "element type"));
        },
    };
    match ElementType::from_i32(code) {
        Some(element_type) => Ok((next, element_type)),
        None => {
            let value = with_number("value ", code as i64);
            Err(
                make_error(pos, MshParserErrorKind::UnknownElement).with_context(
                    pos,
                    value.as_str(),
                ).with_context(pos, "element type"),
            )
        },
    }
}

/// Parses an element: its tag and the tags of its nodes
pub fn parse_element(parsers: &NumParsers, num_nodes_per_element: usize, input: &[u8], pos: usize) -> (r:
    Result<(usize, Element), MshParserError>)
    requires
        pos <= input.len(),
    ensures
        agrees(r, spec_element(*parsers, num_nodes_per_element, input@, pos as int)),
        r matches Ok((next, _)) ==> pos <= next <= input.len(),
{
    let (at1, element_tag) = match parsers.parse_size_t(input, pos) {
        Ok(v) => v,
        Err(e) => {
            return Err(e);
        },
    };
    let mut nodes: Vec<u64> = Vec::new();
    let mut cur: usize = at1;
    let mut i: usize = 0;
    assert(nodes.deep_view() =~= Seq::<u64>::empty());
    while i < num_nodes_per_element
        invariant
            i <= num_nodes_per_element,
            at1 <= cur <= input.len(),
            parsers.spec_size_t(input@, pos as int) == Ok::<(int, u64), crate::error::Trace>(
                (at1 as int, element_tag),
            ),
            spec_node_refs(*parsers, input@, at1 as int, i as nat) == Ok::<
                (int, Seq<u64>),
                crate::error::Trace,
            >((cur as int, nodes.deep_view())),
        decreases num_nodes_per_element - i,
    {
        let ghost before = nodes.deep_view();
        match parsers.parse_size_t(input, cur) {
            Ok((next, tag)) => {
                nodes.push(tag);
                assert(nodes.deep_view() =~= before.push(tag));
                cur = next;
            },
            Err(e) => {
                proof {
                    lemma_node_refs_fail(
                        *parsers,
                        input@,
                        at1 as int,
                        (i + 1) as nat,
                        num_nodes_per_element as nat,
                    );
                }
                return Err(e);
            },
        }
        i += 1;
    }
    Ok((cur, Element { element_tag, nodes }))
}

impl ItemParser for ElementItems {
    type Item = Element;

    open spec fn spec_item(&self, input: Seq<u8>, index: int, pos: int) -> Parsed<ElementView> {
        or_context(
            or_error(
                spec_element(self.parsers, self.nodes_per_element, input, pos),
                pos,
                KindView::InvalidElementDefinition,
            ),
            pos,
            element_label_text(index, self.total),
        )
    }

    fn parse_item(&self, input: &[u8], index: usize, pos: usize) -> (r: Result<
        (usize, Element),
        MshParserError,
    >) {
        match parse_element(&self.parsers, self.nodes_per_element, input, pos) {
            Ok(v) => Ok(v),
            Err(e) => {
                let label = numbered_label(
                    "element definition",
                    index as u128 + 1,
                    self.total as u128,
                );
                Err(
                    e.with_append(pos, MshParserErrorKind::InvalidElementDefinition).with_context(
                        pos,
                        label.as_str(),
                    ),
                )
            },
        }
    }
}

/// Returns the map from the tag of each element to its index
pub fn index_elements(elements: &Vec<Element>) -> (map: HashMap<u64, usize>)
    ensures
        map@ == tag_map(element_tags_of(elements.deep_view())),
{
    broadcast use vstd::std_specs::hash::group_hash_axioms;

    let ghost tags = element_tags_of(elements.deep_view());
    let mut map: HashMap<u64, usize> = HashMap::new();
    let mut i: usize = 0;
    assert(tags.subrange(0, 0) =~= Seq::<u64>::empty());
    while i < elements.len()
        invariant
            i <= elements.len(),
            tags == element_tags_of(elements.deep_view()),
            tags.len() == elements.len(),
            map@ == tag_map(tags.subrange(0, i as int)),
        decreases elements.len() - i,
    {
        proof {
            let next = tags.subrange(0, i + 1);
            assert(next.drop_last() =~= tags.subrange(0, i as int));
            assert(next.last() == elements[i as int].element_tag);
        }
        map.insert(elements[i].element_tag, i);
        i += 1;
    }
    assert(tags.subrange(0, elements.len() as int) =~= tags);
    map
}

/// Parses a block of elements
pub fn parse_element_entity(parsers: &NumParsers, sparse_tags: bool, input: &[u8], pos: usize) -> (r:
    Result<(usize, ElementBlock), MshParserError>)
    requires
        pos <= input.len(),
    ensures
        agrees(r, spec_element_block(*parsers, sparse_tags, input@, pos as int)),
        r matches Ok((next, block)) ==> pos <= next <= input.len() && (block.element_tags is Some
            <==> sparse_tags),
{
    let (at1, entity_dim) = match parsers.parse_int(input, pos) {
        Ok(v) => v,
        Err(e) => {
            return Err(e.with_context(pos, "entity dimension"));
        },
    };
    let (at2, entity_tag) = match parsers.parse_int(input, at1) {
        Ok(v) => v,
        Err(e) => {
            return Err(e.with_context(at1, "entity tag"));
        },
    };
    let (at3, element_type) = match parse_element_type(parsers, input, at2) {
        Ok(v) => v,
        Err(e) => {
            return Err(e);
        },
    };
    let (at4, count) = match parsers.parse_to_usize(input, at3) {
        Ok(v) => v,
        Err(e) => {
            return Err(e.with_context(at3, "number of elements in element block"));
        },
    };
    let num_nodes_per_element = match element_type.nodes() {
        Ok(n) => n,
        Err(_) => {
            return Err(
                make_error(at3, MshParserErrorKind::Unimplemented).with_context(
                    at3,
                    "An element type encountered in the MSH file does not have a known number of nodes.",
                ),
            );
        },
    };
    let items = ElementItems { parsers: *parsers, nodes_per_element: num_nodes_per_element, total: count };
    let (at5, elements) = match count_indexed(&items, input, at4, count) {
        Ok(v) => v,
        Err(e) => {
            return Err(e);
        },
    };
    let element_tags = if sparse_tags {
        Some(index_elements(&elements))
    } else {
        None
    };
    Ok((at5, ElementBlock { entity_dim, entity_tag, element_type, element_tags, elements }))
}

impl ItemParser for ElementBlockItems {
    type Item = ElementBlock;

    open spec fn spec_item(&self, input: Seq<u8>, index: int, pos: int) -> Parsed<
        ElementBlockView,
    > {
        or_context(
            spec_element_block(self.parsers, self.sparse, input, pos),
            pos,
            block_label_text(BlockKind::Element, index, self.total),
        )
    }

    fn parse_item(&self, input: &[u8], index: usize, pos: usize) -> (r: Result<
        (usize, ElementBlock),
        MshParserError,
    >) {
        match parse_element_entity(&self.parsers, self.sparse, input, pos) {
            Ok(v) => Ok(v),
            Err(e) => Err(
                e.with_context(pos, block_label(BlockKind::Element, index, self.total).as_str()),
            ),
        }
    }
}

/// Parses the content of an element section
pub fn parse_element_section(parsers: &NumParsers, input: &[u8], pos: usize) -> (r: Result<
    (usize, Elements),
    MshParserError,
>)
    requires
        pos <= input.len(),
    ensures
        agrees(r, spec_element_section(*parsers, input@, pos as int)),
        r matches Ok((next, elements)) ==> pos <= next <= input.len()
            && elements.deep_view().tags_are_valid(),
{
    proof {
        reveal(spec_element_section);
        lemma_element_section_sparsity(*parsers, input@, pos as int);
    }
    let (at1, header) = match parse_section_header(parsers, input, pos, BlockKind::Element) {
        Ok(v) => v,
        Err(e) => {
            return Err(
                e.with_context(pos, joined(BlockKind::Element.name(), " section header").as_str()),
            );
        },
    };
    let sparse = sparse_tags(header.min_tag, header.max_tag, header.num_items);
    let items = ElementBlockItems { parsers: *parsers, sparse, total: header.num_entity_blocks };
    let (at2, element_blocks) = match count_indexed(&items, input, at1, header.num_entity_blocks) {
        Ok(v) => v,
        Err(e) => {
            return Err(e);
        },
    };
    Ok(
        (
            at2,
            Elements {
                num_elements: header.num_items,
                min_element_tag: header.min_tag,
                max_element_tag: header.max_tag,
                element_blocks,
            },
        ),
    )
}

} // verus!

//! Parser for the content of the `$Nodes` section: the nodes of the mesh in
//! blocks, one block for each entity that the nodes belong to.
//!
//! The section starts with the number of blocks, the number of nodes and the
//! smallest and the largest node tag. A block starts with the dimension and
//! the tag of its entity, a flag that tells whether the nodes have parametric
//! coordinates, and the number of its nodes. The tags of its nodes follow, and
//! then the coordinates of its nodes.
//!
//! Where the range of the tags is larger than the number of nodes, the tags
//! are sparse, and each block gets a map from tag to index.

use std::collections::HashMap;
use vstd::prelude::*;
use vstd::string::StringExecFns;

use crate::error::{
    agrees, failure, first_error, make_error, or_context, or_error, KindView, MshParserError,
    MshParserErrorKind, Parsed,
};
use crate::mshfile::{tag_map, tags_are_sparse, Node, NodeBlock, NodeBlockView, Nodes, NodesView};
use crate::parsers::entities_section::{parse_triple, spec_triple};
use crate::parsers::general_parsers::{count_indexed, items_of, spec_count, ItemParser};
use crate::parsers::num_parsers::NumParsers;
use crate::text::{expected, expected_label, joined, numbered, numbered_label};

verus! {

/// The two kinds of sections that hold their items in blocks
#[derive(Copy, Clone, Debug, PartialEq, Eq, Structural)]
pub enum BlockKind {
    /// The blocks of a node section
    Node,
    /// The blocks of an element section
    Element,
}

/// The name of the items of a kind of block in messages.
pub open spec fn block_text(kind: BlockKind) -> Seq<char> {
    match kind {
        BlockKind::Node => "node"@,
        BlockKind::Element => "element"@,
    }
}

/// The name of the items of a kind of block at the start of a sentence.
pub open spec fn block_title(kind: BlockKind) -> Seq<char> {
    match kind {
        BlockKind::Node => "Node"@,
        BlockKind::Element => "Element"@,
    }
}

/// The label of the number of blocks of a section.
pub open spec fn block_count_text(kind: BlockKind) -> Seq<char> {
    "number of "@ + block_text(kind) + " entity blocks"@
}

/// The label of the number of items that a section declares.
pub open spec fn item_count_text(kind: BlockKind) -> Seq<char> {
    "total number of "@ + block_text(kind) + "s"@
}

/// The label of the smallest tag of a section.
pub open spec fn min_tag_text(kind: BlockKind) -> Seq<char> {
    "min "@ + block_text(kind) + " tag"@
}

/// The label of the largest tag of a section.
pub open spec fn max_tag_text(kind: BlockKind) -> Seq<char> {
    "max "@ + block_text(kind) + " tag"@
}

/// The message on a smallest tag of zero.
pub open spec fn reserved_tag_text(kind: BlockKind) -> Seq<char> {
    block_title(kind) + " tag 0 is reserved for internal use"@
}

/// The message on a largest tag below the smallest.
pub open spec fn tag_order_text(kind: BlockKind) -> Seq<char> {
    "The maximum "@ + block_text(kind) + " tag has to be larger or equal to the minimum "@
        + block_text(kind) + " tag"@
}

/// The label of the header of a section.
pub open spec fn section_header_text(kind: BlockKind) -> Seq<char> {
    block_text(kind) + " section header"@
}

/// The label of one block of a section.
pub open spec fn block_label_text(kind: BlockKind, index: int, total: usize) -> Seq<char> {
    numbered(block_text(kind) + " entity block"@, (index + 1) as nat, total as nat)
}

/// The numbers at the start of a node or element section
#[derive(Copy, Clone, Debug, PartialEq, Eq)]
pub struct SectionHeader {
    /// The number of blocks in the section
    pub num_entity_blocks: usize,
    /// The number of items that the section declares
    pub num_items: u64,
    /// The smallest tag of an item
    pub min_tag: u64,
    /// The largest tag of an item
    pub max_tag: u64,
}

impl DeepView for SectionHeader {
    type V = SectionHeader;

    open spec fn deep_view(&self) -> SectionHeader {
        *self
    }
}

/// The smallest tag of a section, which is not zero.
pub open spec fn spec_min_tag(cfg: NumParsers, input: Seq<u8>, pos: int, kind: BlockKind) -> Parsed<
    u64,
> {
    or_context(
        match cfg.spec_size_t(input, pos) {
            Err(t) => Err(t),
            Ok((next, tag)) => if tag != 0 {
                Ok((next, tag))
            } else {
                or_context(failure(pos, KindView::InvalidTag), pos, reserved_tag_text(kind))
            },
        },
        pos,
        min_tag_text(kind),
    )
}

/// The largest tag of a section, which is not below the smallest.
pub open spec fn spec_max_tag(
    cfg: NumParsers,
    input: Seq<u8>,
    pos: int,
    kind: BlockKind,
    min_tag: u64,
) -> Parsed<u64> {
    or_context(
        match cfg.spec_size_t(input, pos) {
            Err(t) => Err(t),
            Ok((next, tag)) => if tag >= min_tag {
                Ok((next, tag))
            } else {
                or_context(failure(pos, KindView::InvalidTag), pos, tag_order_text(kind))
            },
        },
        pos,
        max_tag_text(kind),
    )
}

/// The numbers at the start of a node or element section.
pub open spec fn spec_section_header(cfg: NumParsers, input: Seq<u8>, pos: int, kind: BlockKind) -> Parsed<
    SectionHeader,
> {
    match or_context(cfg.spec_to_usize(input, pos), pos, block_count_text(kind)) {
        Err(t) => Err(t),
        Ok((at1, num_entity_blocks)) => match or_context(
            cfg.spec_size_t(input, at1),
            at1,
            item_count_text(kind),
        ) {
            Err(t) => Err(t),
            Ok((at2, num_items)) => match spec_min_tag(cfg, input, at2, kind) {
                Err(t) => Err(t),
                Ok((at3, min_tag)) => match spec_max_tag(cfg, input, at3, kind, min_tag) {
                    Err(t) => Err(t),
                    Ok((at4, max_tag)) => Ok(
                        (at4, SectionHeader { num_entity_blocks, num_items, min_tag, max_tag }),
                    ),
                },
            },
        },
    }
}

/// A smallest tag of zero is rejected as an invalid tag, and so is a largest
/// tag below the smallest; a header that is accepted has neither.
pub proof fn lemma_tag_validity(
    cfg: NumParsers,
    input: Seq<u8>,
    pos: int,
    kind: BlockKind,
    min_tag: u64,
)
    ensures
        (cfg.spec_size_t(input, pos) matches Ok((_, tag)) && tag == 0) ==> (spec_min_tag(
            cfg,
            input,
            pos,
            kind,
        ) matches Err(t) && first_error(t) == Some(KindView::InvalidTag)),
        (cfg.spec_size_t(input, pos) matches Ok((_, tag)) && tag < min_tag) ==> (spec_max_tag(
            cfg,
            input,
            pos,
            kind,
            min_tag,
        ) matches Err(t) && first_error(t) == Some(KindView::InvalidTag)),
        spec_section_header(cfg, input, pos, kind) matches Ok((_, header)) ==> header.min_tag
            != 0 && header.max_tag >= header.min_tag,
{
    let rejected = seq![(pos, KindView::InvalidTag)];
    assert(crate::error::skip_tokens(
        rejected.push((pos, KindView::Context(reserved_tag_text(kind)))).push(
            (pos, KindView::Context(min_tag_text(kind))),
        ),
        0,
    ) == 0);
    assert(crate::error::skip_tokens(
        rejected.push((pos, KindView::Context(tag_order_text(kind)))).push(
            (pos, KindView::Context(max_tag_text(kind))),
        ),
        0,
    ) == 0);
}

/// The tags of the nodes of a block, each a `size_t` value
#[derive(Copy, Clone, Debug)]
pub struct NodeTagItems {
    /// The parsers of the numbers of the file
    pub parsers: NumParsers,
    /// The number of nodes in the block
    pub expected: usize,
}

impl ItemParser for NodeTagItems {
    type Item = u64;

    open spec fn spec_item(&self, input: Seq<u8>, index: int, pos: int) -> Parsed<u64> {
        or_context(
            or_error(self.parsers.spec_size_t(input, pos), pos, KindView::InvalidTag),
            pos,
            expected(self.expected as nat, "node tags"@),
        )
    }

    fn parse_item(&self, input: &[u8], index: usize, pos: usize) -> (r: Result<
        (usize, u64),
        MshParserError,
    >) {
        match self.parsers.parse_size_t(input, pos) {
            Ok(v) => Ok(v),
            Err(e) => {
                let label = expected_label(self.expected as u128, "node tags");
                Err(
                    e.with_append(pos, MshParserErrorKind::InvalidTag).with_context(
                        pos,
                        label.as_str(),
                    ),
                )
            },
        }
    }
}

/// The coordinates of one node.
pub open spec fn spec_node(cfg: NumParsers, input: Seq<u8>, pos: int) -> Parsed<Node> {
    or_error(
        match spec_triple(cfg, input, pos, "x coordinate"@, "y coordinate"@, "z coordinate"@) {
            Err(t) => Err(t),
            Ok((next, c)) => Ok((next, Node { x: c.0, y: c.1, z: c.2 })),
        },
        pos,
        KindView::InvalidNodeDefinition,
    )
}

/// The coordinates of the nodes of a block
#[derive(Copy, Clone, Debug)]
pub struct NodeItems {
    /// The parsers of the numbers of the file
    pub parsers: NumParsers,
}

impl ItemParser for NodeItems {
    type Item = Node;

    open spec fn spec_item(&self, input: Seq<u8>, index: int, pos: int) -> Parsed<Node> {
        spec_node(self.parsers, input, pos)
    }

    fn parse_item(&self, input: &[u8], index: usize, pos: usize) -> (r: Result<
        (usize, Node),
        MshParserError,
    >) {
        match parse_triple(&self.parsers, input, pos, "x coordinate", "y coordinate", "z coordinate") {
            Ok((next, c)) => {
                let node = Node { x: c.0, y: c.1, z: c.2 };
                assert(node.deep_view() == node);
                Ok((next, node))
            },
            Err(e) => Err(e.with_append(pos, MshParserErrorKind::InvalidNodeDefinition)),
        }
    }
}

/// The flag of a node block that tells whether its nodes have parametric
/// coordinates: 0 or 1.
pub open spec fn spec_parametric(cfg: NumParsers, input: Seq<u8>, pos: int) -> Parsed<i32> {
    or_context(
        match cfg.spec_int(input, pos) {
            Err(t) => Err(t),
            Ok((next, flag)) => if flag == 0 || flag == 1 {
                Ok((next, flag))
            } else {
                or_context(
                    failure(pos, KindView::InvalidParameter),
                    pos,
                    "Unsupported value for node block attribute 'parametric' (only 0 and 1 supported)"@,
                )
            },
        },
        pos,
        "parametric flag"@,
    )
}

/// The tags and the coordinates of the nodes of a block of `count` nodes
/// whose tags start at `pos`.
pub open spec fn spec_node_lists(cfg: NumParsers, input: Seq<u8>, pos: int, count: usize) -> Parsed<
    (Seq<u64>, Seq<Node>),
> {
    match or_context(
        spec_count(items_of(NodeTagItems { parsers: cfg, expected: count }, input), pos, count as nat),
        pos,
        "node tags"@,
    ) {
        Err(t) => Err(t),
        Ok((at1, tags)) => match or_context(
            spec_count(items_of(NodeItems { parsers: cfg }, input), at1, count as nat),
            at1,
            "node coordinates"@,
        ) {
            Err(t) => Err(t),
            Ok((at2, nodes)) => Ok((at2, (tags, nodes))),
        },
    }
}

/// A block of nodes in a section whose tags are sparse or not.
pub open spec fn spec_node_block(cfg: NumParsers, sparse: bool, input: Seq<u8>, pos: int) -> Parsed<
    NodeBlockView,
> {
    match or_context(cfg.spec_int(input, pos), pos, "entity dimension"@) {
        Err(t) => Err(t),
        Ok((at1, entity_dim)) => match or_context(cfg.spec_int(input, at1), at1, "entity tag"@) {
            Err(t) => Err(t),
            Ok((at2, entity_tag)) => match spec_parametric(cfg, input, at2) {
                Err(t) => Err(t),
                Ok((at3, flag)) => match or_context(
                    cfg.spec_to_usize(input, at3),
                    at3,
                    "number of nodes in node block"@,
                ) {
                    Err(t) => Err(t),
                    Ok((at4, count)) => if flag != 0 {
                        or_context(
                            failure(at4, KindView::Unimplemented),
                            at4,
                            "Parsing of parametric nodes is not supported yet"@,
                        )
                    } else {
                        match spec_node_lists(cfg, input, at4, count) {
                            Err(t) => Err(t),
                            Ok((at5, lists)) => Ok(
                                (
                                    at5,
                                    NodeBlockView {
                                        entity_dim,
                                        entity_tag,
                                        parametric: false,
                                        node_tags: if sparse {
                                            Some(tag_map(lists.0))
                                        } else {
                                            None
                                        },
                                        nodes: lists.1,
                                        parametric_nodes: None,
                                    },
                                ),
                            ),
                        }
                    },
                },
            },
        },
    }
}

/// The blocks of a node section
#[derive(Copy, Clone, Debug)]
pub struct NodeBlockItems {
    /// The parsers of the numbers of the file
    pub parsers: NumParsers,
    /// Whether the tags of the section are sparse
    pub sparse: bool,
    /// The number of blocks in the section
    pub total: usize,
}

/// The content of a node section.
#[verifier::opaque]
pub open spec fn spec_node_section(cfg: NumParsers, input: Seq<u8>, pos: int) -> Parsed<NodesView> {
    match or_context(
        spec_section_header(cfg, input, pos, BlockKind::Node),
        pos,
        section_header_text(BlockKind::Node),
    ) {
        Err(t) => Err(t),
        Ok((at1, header)) => match spec_count(
            items_of(
                NodeBlockItems {
                    parsers: cfg,
                    sparse: tags_are_sparse(header.min_tag, header.max_tag, header.num_items),
                    total: header.num_entity_blocks,
                },
                input,
            ),
            at1,
            header.num_entity_blocks as nat,
        ) {
            Err(t) => Err(t),
            Ok((at2, node_blocks)) => Ok(
                (
                    at2,
                    NodesView {
                        num_nodes: header.num_items,
                        min_node_tag: header.min_tag,
                        max_node_tag: header.max_tag,
                        node_blocks,
                    },
                ),
            ),
        },
    }
}

/// Every block of a repetition of node blocks has a tag map if and only if
/// the tags of the section are sparse.
pub proof fn lemma_node_blocks_sparsity(items: NodeBlockItems, input: Seq<u8>, start: int, n: nat)
    ensures
        spec_count(items_of(items, input), start, n) matches Ok((_, blocks)) ==> forall|i: int|
            0 <= i < blocks.len() ==> ((#[trigger] blocks[i]).node_tags is Some <==> items.sparse),
    decreases n,
{
    if n > 0 {
        lemma_node_blocks_sparsity(items, input, start, (n - 1) as nat);
    }
}

/// In a node section that is accepted, the smallest tag is not zero and not
/// above the largest, and every block has a tag map if and only if the range
/// of the tags is larger than the declared number of nodes.
pub proof fn lemma_node_section_sparsity(cfg: NumParsers, input: Seq<u8>, pos: int)
    ensures
        spec_node_section(cfg, input, pos) matches Ok((_, nodes)) ==> nodes.tags_are_valid(),
{
    reveal(spec_node_section);
    if let Ok((at1, header)) = spec_section_header(cfg, input, pos, BlockKind::Node) {
        lemma_node_blocks_sparsity(
            NodeBlockItems {
                parsers: cfg,
                sparse: tags_are_sparse(header.min_tag, header.max_tag, header.num_items),
                total: header.num_entity_blocks,
            },
            input,
            at1,
            header.num_entity_blocks as nat,
        );
    }
}

impl BlockKind {
    /// The name of the items of this kind of block in messages
    pub fn name(&self) -> (s: &'static str)
        ensures
            s@ == block_text(*self),
    {
        match self {
            BlockKind::Node => "node",
            BlockKind::Element => "element",
        }
    }

    /// The name of the items of this kind of block at the start of a sentence
    pub fn title(&self) -> (s: &'static str)
        ensures
            s@ == block_title(*self),
    {
        match self {
            BlockKind::Node => "Node",
            BlockKind::Element => "Element",
        }
    }
}

/// The text between two others
fn framed(before: &str, name: &str, after: &str) -> (s: String)
    ensures
        s@ == before@ + name@ + after@,
{
    let mut s = String::from_str(before);
    s.append(name);
    s.append(after);
    s
}

/// The message on a largest tag below the smallest
fn tag_order_label(kind: BlockKind) -> (s: String)
    ensures
        s@ == tag_order_text(kind),
{
    let mut s = String::from_str("The maximum ");
    s.append(kind.name());
    s.append(" tag has to be larger or equal to the minimum ");
    s.append(kind.name());
    s.append(" tag");
    s
}

/// The label of one block of a section
pub fn block_label(kind: BlockKind, index: usize, total: usize) -> (s: String)
    ensures
        s@ == block_label_text(kind, index as int, total),
{
    let name = joined(kind.name(), " entity block");
    numbered_label(name.as_str(), index as u128 + 1, total as u128)
}

/// Whether tags between `min_tag` and `max_tag` are sparse for `count` items
pub fn sparse_tags(min_tag: u64, max_tag: u64, count: u64) -> (sparse: bool)
    requires
        min_tag <= max_tag,
    ensures
        sparse == tags_are_sparse(min_tag, max_tag, count),
{
    max_tag - min_tag >= count
}

/// Parses the numbers at the start of a node or element section
pub fn parse_section_header(parsers: &NumParsers, input: &[u8], pos: usize, kind: BlockKind) -> (r:
    Result<(usize, SectionHeader), MshParserError>)
    requires
        pos <= input.len(),
    ensures
        agrees(r, spec_section_header(*parsers, input@, pos as int, kind)),
        r matches Ok((next, header)) ==> pos <= next <= input.len() && header.min_tag != 0
            && header.min_tag <= header.max_tag,
{
    let (at1, num_entity_blocks) = match parsers.parse_to_usize(input, pos) {
        Ok(v) => v,
        Err(e) => {
            let label = framed("number of ", kind.name(), " entity blocks");
            return Err(e.with_context(pos, label.as_str()));
        },
    };
    let (at2, num_items) = match parsers.parse_size_t(input, at1) {
        Ok(v) => v,
        Err(e) => {
            let label = framed("total number of ", kind.name(), "s");
            return Err(e.with_context(at1, label.as_str()));
        },
    };
    let (at3, min_tag) = match parsers.parse_size_t(input, at2) {
        Ok(v) => v,
        Err(e) => {
            let label = framed("min ", kind.name(), " tag");
            return Err(e.with_context(at2, label.as_str()));
        },
    };
    if min_tag == 0 {
        let reason = joined(kind.title(), " tag 0 is reserved for internal use");
        let label = framed("min ", kind.name(), " tag");
        return Err(
            make_error(at2, MshParserErrorKind::InvalidTag).with_context(
                at2,
                reason.as_str(),
            ).with_context(at2, label.as_str()),
        );
    }
    let (at4, max_tag) = match parsers.parse_size_t(input, at3) {
        Ok(v) => v,
        Err(e) => {
            let label = framed("max ", kind.name(), " tag");
            return Err(e.with_context(at3, label.as_str()));
        },
    };
    if max_tag < min_tag {
        let reason = tag_order_label(kind);
        let label = framed("max ", kind.name(), " tag");
        return Err(
            make_error(at3, MshParserErrorKind::InvalidTag).with_context(
                at3,
                reason.as_str(),
            ).with_context(at3, label.as_str()),
        );
    }
    Ok((at4, SectionHeader { num_entity_blocks, num_items, min_tag, max_tag }))
}

/// Returns the map from each tag to its index
pub fn index_tags(tags: &Vec<u64>) -> (map: HashMap<u64, usize>)
    ensures
        map@ == tag_map(tags@),
{
    broadcast use vstd::std_specs::hash::group_hash_axioms;

    let mut map: HashMap<u64, usize> = HashMap::new();
    let mut i: usize = 0;
    assert(tags@.subrange(0, 0) =~= Seq::<u64>::empty());
    while i < tags.len()
        invariant
            i <= tags.len(),
            map@ == tag_map(tags@.subrange(0, i as int)),
        decreases tags.len() - i,
    {
        proof {
            let next = tags@.subrange(0, i + 1);
            assert(next.drop_last() =~= tags@.subrange(0, i as int));
            assert(next.last() == tags@[i as int]);
        }
        map.insert(tags[i], i);
        i += 1;
    }
    assert(tags@.subrange(0, tags.len() as int) =~= tags@);
    map
}

/// Parses the flag of a node block that tells whether its nodes have
/// parametric coordinates
fn parse_parametric(parsers: &NumParsers, input: &[u8], pos: usize) -> (r: Result<
    (usize, i32),
    MshParserError,
>)
    requires
        pos <= input.len(),
    ensures
        agrees(r, spec_parametric(*parsers, input@, pos as int)),
        r matches Ok((next, _)) ==> pos <= next <= input.len(),
{
    match parsers.parse_int(input, pos) {
        Ok((next, flag)) => if flag == 0 || flag == 1 {
            Ok((next, flag))
        } else {
            Err(
                make_error(pos, MshParserErrorKind::InvalidParameter).with_context(
                    pos,
                    "Unsupported value for node block attribute 'parametric' (only 0 and 1 supported)",
                ).with_context(pos, "parametric flag"),
            )
        },
        Err(e) => Err(e.with_context(pos, "parametric flag")),
    }
}

/// Parses the tags and the coordinates of the nodes of a block
fn parse_node_lists(parsers: &NumParsers, input: &[u8], pos: usize, count: usize) -> (r: Result<
    (usize, (Vec<u64>, Vec<Node>)),
    MshParserError,
>)
    requires
        pos <= input.len(),
    ensures
        agrees(r, spec_node_lists(*parsers, input@, pos as int, count)),
        r matches Ok((next, _)) ==> pos <= next <= input.len(),
{
    let (at1, tags) = match count_indexed(
        &NodeTagItems { parsers: *parsers, expected: count },
        input,
        pos,
        count,
    ) {
        Ok(v) => v,
        Err(e) => {
            return Err(e.with_context(pos, "node tags"));
        },
    };
    let (at2, nodes) = match count_indexed(&NodeItems { parsers: *parsers }, input, at1, count) {
        Ok(v) => v,
        Err(e) => {
            return Err(e.with_context(at1, "node coordinates"));
        },
    };
    Ok((at2, (tags, nodes)))
}

/// Parses a block of nodes
pub fn parse_node_entity(parsers: &NumParsers, sparse_tags: bool, input: &[u8], pos: usize) -> (r:
    Result<(usize, NodeBlock), MshParserError>)
    requires
        pos <= input.len(),
    ensures
        agrees(r, spec_node_block(*parsers, sparse_tags, input@, pos as int)),
        r matches Ok((next, block)) ==> pos <= next <= input.len() && (block.node_tags is Some
            <==> sparse_tags),
{
    let (at1, entity_dim) = match parsers.parse_int(input, pos) {
        Ok(v) => v,
        Err(e) => {
            return Err(e.with_context(pos, "entity dimension"));
        },
    };
    let (at2, entity_tag) = match parsers.parse_int(input, at1) {
        Ok(v) => v,
        Err(e) => {
            return Err(e.with_context(at1, "entity tag"));
        },
    };
    let (at3, flag) = match parse_parametric(parsers, input, at2) {
        Ok(v) => v,
        Err(e) => {
            return Err(e);
        },
    };
    let (at4, count) = match parsers.parse_to_usize(input, at3) {
        Ok(v) => v,
        Err(e) => {
            return Err(e.with_context(at3, "number of nodes in node block"));
        },
    };
    if flag != 0 {
        return Err(
            make_error(at4, MshParserErrorKind::Unimplemented).with_context(
                at4,
                "Parsing of parametric nodes is not supported yet",
            ),
        );
    }
    let (at5, lists) = match parse_node_lists(parsers, input, at4, count) {
        Ok(v) => v,
        Err(e) => {
            return Err(e);
        },
    };
    let (tags, nodes) = lists;
    assert(tags.deep_view() =~= tags@);
    let node_tags = if sparse_tags {
        Some(index_tags(&tags))
    } else {
        None
    };
    Ok(
        (
            at5,
            NodeBlock {
                entity_dim,
                entity_tag,
                parametric: false,
                node_tags,
                nodes,
                parametric_nodes: None,
            },
        ),
    )
}

impl ItemParser for NodeBlockItems {
    type Item = NodeBlock;

    open spec fn spec_item(&self, input: Seq<u8>, index: int, pos: int) -> Parsed<NodeBlockView> {
        or_context(
            spec_node_block(self.parsers, self.sparse, input, pos),
            pos,
            block_label_text(BlockKind::Node, index, self.total),
        )
    }

    fn parse_item(&self, input: &[u8], index: usize, pos: usize) -> (r: Result<
        (usize, NodeBlock),
        MshParserError,
    >) {
        match parse_node_entity(&self.parsers, self.sparse, input, pos) {
            Ok(v) => Ok(v),
            Err(e) => Err(
                e.with_context(pos, block_label(BlockKind::Node, index, self.total).as_str()),
            ),
        }
    }
}

/// Parses the content of a node section
pub fn parse_node_section(parsers: &NumParsers, input: &[u8], pos: usize) -> (r: Result<
    (usize, Nodes),
    MshParserError,
>)
    requires
        pos <= input.len(),
    ensures
        agrees(r, spec_node_section(*parsers, input@, pos as int)),
        r matches Ok((next, nodes)) ==> pos <= next <= input.len()
            && nodes.deep_view().tags_are_valid(),
{
    proof {
        reveal(spec_node_section);
        lemma_node_section_sparsity(*parsers, input@, pos as int);
    }
    let (at1, header) = match parse_section_header(parsers, input, pos, BlockKind::Node) {
        Ok(v) => v,
        Err(e) => {
            return Err(e.with_context(pos, joined(BlockKind::Node.name(), " section header").as_str()));
        },
    };
    let sparse = sparse_tags(header.min_tag, header.max_tag, header.num_items);
    let items = NodeBlockItems { parsers: *parsers, sparse, total: header.num_entity_blocks };
    let (at2, node_blocks) = match count_indexed(&items, input, at1, header.num_entity_blocks) {
        Ok(v) => v,
        Err(e) => {
            return Err(e);
        },
    };
    Ok(
        (
            at2,
            Nodes {
                num_nodes: header.num_items,
                min_node_tag: header.min_tag,
                max_node_tag: header.max_tag,
                node_blocks,
            },
        ),
    )
}

} // verus!

//! The types that represent the structure of a parsed MSH file.
//!
//! The central type is [`MshFile`](struct.MshFile.html), which contains the
//! whole structure of the parsed mesh. Values of the MSH type `size_t` are
//! held as `u64`, values of the type `int` as `i32`, and values of the type
//! `double` as the `u64` bit pattern of the IEEE 754 double.
//!
//! Every type has a mathematical value, its deep view, in which vectors are
//! sequences and tag maps are maps. The contracts of the parsers speak of
//! these values.

use std::collections::HashMap;
use vstd::prelude::*;
use vstd::std_specs::hash::group_hash_axioms;

pub use crate::element_type::ElementType;
use crate::element_type::code_of;
pub use crate::parsers::num_parsers::Endianness;

verus! {

/// A parsed MSH file containing mesh and header data
#[derive(PartialEq, Debug, Clone)]
pub struct MshFile {
    /// Data extracted from the file format header
    pub header: MshHeader,
    /// Actual mesh data of the MSH file
    pub data: MshData,
}

/// The header of a MSH file (irrelevant for most users)
#[derive(PartialEq, Eq, Debug, Clone, Copy)]
pub struct MshHeader {
    /// File format version of the parsed MSH file, as the bit pattern of a double
    pub version: u64,
    /// File type of the MSH file (0=ascii, 1=binary)
    pub file_type: i32,
    /// Size in bytes of the size_t data type in this MSH file
    pub size_t_size: usize,
    /// Size in bytes of the int data type in this MSH file
    pub int_size: usize,
    /// Size in bytes of the double data type in this MSH file
    pub float_size: usize,
    /// The detected endianness of this MSH file if it is binary
    pub endianness: Option<Endianness>,
}

/// Mesh data of a MSH file
#[derive(PartialEq, Debug, Clone)]
pub struct MshData {
    /// Geometric entities of this mesh such as points, curves, etc. (if it contains entities)
    pub entities: Option<Entities>,
    /// Node data of this mesh (if it contains nodes)
    pub nodes: Option<Nodes>,
    /// Element data of this mesh (if it contains elements)
    pub elements: Option<Elements>,
}

/// Boundary representations of geometrical entities of the MSH file
#[derive(PartialEq, Debug, Clone)]
pub struct Entities {
    /// The point entities
    pub points: Vec<Point>,
    /// The curve entities
    pub curves: Vec<Curve>,
    /// The surface entities
    pub surfaces: Vec<Surface>,
    /// The volume entities
    pub volumes: Vec<Volume>,
}

/// A geometrical point entity
#[derive(PartialEq, Debug, Clone)]
pub struct Point {
    /// The entity tag of this point
    pub tag: i32,
    /// X-coordinate of this point
    pub x: u64,
    /// Y-coordinate of this point
    pub y: u64,
    /// Z-coordinate of this point
    pub z: u64,
    /// Tags of physical groups this point belongs to
    pub physical_tags: Vec<i32>,
}

/// A geometrical curve entity and its boundary
#[derive(PartialEq, Debug, Clone)]
pub struct Curve {
    /// The entity tag of this curve
    pub tag: i32,
    /// Lower x-coordinate bound of this curve
    pub min_x: u64,
    /// Lower y-coordinate bound of this curve
    pub min_y: u64,
    /// Lower z-coordinate bound of this curve
    pub min_z: u64,
    /// Upper x-coordinate bound of this curve
    pub max_x: u64,
    /// Upper y-coordinate bound of this curve
    pub max_y: u64,
    /// Upper z-coordinate bound of this curve
    pub max_z: u64,
    /// Tags of physical groups this curve belongs to
    pub physical_tags: Vec<i32>,
    /// Tags of the curves's bounding points
    pub point_tags: Vec<i32>,
}

/// A geometrical surface entity and its boundary
#[derive(PartialEq, Debug, Clone)]
pub struct Surface {
    /// The entity tag of this surface
    pub tag: i32,
    /// Lower x-coordinate bound of this surface
    pub min_x: u64,
    /// Lower y-coordinate bound of this surface
    pub min_y: u64,
    /// Lower z-coordinate bound of this surface
    pub min_z: u64,
    /// Upper x-coordinate bound of this surface
    pub max_x: u64,
    /// Upper y-coordinate bound of this surface
    pub max_y: u64,
    /// Upper z-coordinate bound of this surface
    pub max_z: u64,
    /// Tags of physical groups this surface belongs to
    pub physical_tags: Vec<i32>,
    /// Tags of the surface's bounding curves
    pub curve_tags: Vec<i32>,
}

/// A geometrical volume entity and its boundary
#[derive(PartialEq, Debug, Clone)]
pub struct Volume {
    /// The entity tag of this volume
    pub tag: i32,
    /// Lower x-coordinate bound of this volume
    pub min_x: u64,
    /// Lower y-coordinate bound of this volume
    pub min_y: u64,
    /// Lower z-coordinate bound of this volume
    pub min_z: u64,
    /// Upper x-coordinate bound of this volume
    pub max_x: u64,
    /// Upper y-coordinate bound of this volume
    pub max_y: u64,
    /// Upper z-coordinate bound of this volume
    pub max_z: u64,
    /// Tags of physical groups this volume belongs to
    pub physical_tags: Vec<i32>,
    /// Tags of the volumes's bounding surfaces
    pub surface_tags: Vec<i32>,
}

/// All node data of a mesh
#[derive(PartialEq, Debug, Clone)]
pub struct Nodes {
    /// Total number of nodes across all node blocks
    pub num_nodes: u64,
    /// The smallest node tag assigned to a node
    pub min_node_tag: u64,
    /// The largest node tag assigned to a node
    pub max_node_tag: u64,
    /// Blocks of nodes with shared properties
    pub node_blocks: Vec<NodeBlock>,
}

/// A block of nodes
#[derive(PartialEq, Debug, Clone)]
pub struct NodeBlock {
    /// The number of dimensions of nodes in this block
    pub entity_dim: i32,
    /// The tag of the geometric entity this block of nodes is associated to
    pub entity_tag: i32,
    /// Whether this node entity provides parametric coordinates for its nodes
    pub parametric: bool,
    /// Maps the tag of each node to its linear index in this block
    ///
    /// Node tags (used to reference nodes from entities) can be non-sequential (i.e. sparse).
    /// This map is only present if the node tags of this section are actually sparse.
    /// Otherwise it is None.
    pub node_tags: Option<HashMap<u64, usize>>,
    /// The nodes of this block
    pub nodes: Vec<Node>,
    /// May contain parametric coordinates of the nodes
    pub parametric_nodes: Option<Vec<Node>>,
}

/// Coordinates of a single node, each the bit pattern of a double
///
/// Note that only the components corresponding to the number of dimensions of the node's block
/// may contain meaningful values.
#[derive(PartialEq, Eq, Debug, Clone, Copy)]
pub struct Node {
    /// X-coordinate of the node
    pub x: u64,
    /// Y-coordinate of the node (if entity_dim > 1)
    pub y: u64,
    /// Z-coordinate of the node (if entity_dim > 2)
    pub z: u64,
}

/// All element data of a mesh
#[derive(PartialEq, Debug, Clone)]
pub struct Elements {
    /// Total number of elements across all element blocks
    pub num_elements: u64,
    /// The smallest element tag assigned to an element
    pub min_element_tag: u64,
    /// The largest element tag assigned to an element
    pub max_element_tag: u64,
    /// Blocks of elements with shared properties
    pub element_blocks: Vec<ElementBlock>,
}

/// A block of elements
#[derive(PartialEq, Debug, Clone)]
pub struct ElementBlock {
    /// The number of dimensions of elements in this block
    pub entity_dim: i32,
    /// The tag of the geometric entity this block of elements is associated to
    pub entity_tag: i32,
    /// The type of all elements in this block
    pub element_type: ElementType,
    /// Maps the tag of each element to its linear index in this block
    ///
    /// Element tags (used to reference elements from entities) can be non-sequential (i.e. sparse).
    /// This map is only present if the element tags of this section are actually sparse.
    /// Otherwise it is None.
    pub element_tags: Option<HashMap<u64, usize>>,
    /// The elements of this block
    pub elements: Vec<Element>,
}

/// Data of one mesh element
#[derive(PartialEq, Debug, Clone)]
pub struct Element {
    /// Tag of this element
    pub element_tag: u64,
    /// The tags of nodes associated to this element
    pub nodes: Vec<u64>,
}

/// The value of a [`Point`](struct.Point.html)
pub struct PointView {
    pub tag: i32,
    pub x: u64,
    pub y: u64,
    pub z: u64,
    pub physical_tags: Seq<i32>,
}

/// The value of a [`Curve`](struct.Curve.html), a [`Surface`](struct.Surface.html)
/// or a [`Volume`](struct.Volume.html): an entity with a bounding box and a boundary
pub struct BoundedView {
    pub tag: i32,
    pub min_x: u64,
    pub min_y: u64,
    pub min_z: u64,
    pub max_x: u64,
    pub max_y: u64,
    pub max_z: u64,
    pub physical_tags: Seq<i32>,
    pub bounding_tags: Seq<i32>,
}

/// The value of [`Entities`](struct.Entities.html)
pub struct EntitiesView {
    pub points: Seq<PointView>,
    pub curves: Seq<BoundedView>,
    pub surfaces: Seq<BoundedView>,
    pub volumes: Seq<BoundedView>,
}

/// The value of a [`NodeBlock`](struct.NodeBlock.html)
pub struct NodeBlockView {
    pub entity_dim: i32,
    pub entity_tag: i32,
    pub parametric: bool,
    pub node_tags: Option<Map<u64, usize>>,
    pub nodes: Seq<Node>,
    pub parametric_nodes: Option<Seq<Node>>,
}

/// The value of [`Nodes`](struct.Nodes.html)
pub struct NodesView {
    pub num_nodes: u64,
    pub min_node_tag: u64,
    pub max_node_tag: u64,
    pub node_blocks: Seq<NodeBlockView>,
}

/// The value of an [`Element`](struct.Element.html)
pub struct ElementView {
    pub element_tag: u64,
    pub nodes: Seq<u64>,
}

/// The value of an [`ElementBlock`](struct.ElementBlock.html)
pub struct ElementBlockView {
    pub entity_dim: i32,
    pub entity_tag: i32,
    pub element_type: ElementType,
    pub element_tags: Option<Map<u64, usize>>,
    pub elements: Seq<ElementView>,
}

/// The value of [`Elements`](struct.Elements.html)
pub struct ElementsView {
    pub num_elements: u64,
    pub min_element_tag: u64,
    pub max_element_tag: u64,
    pub element_blocks: Seq<ElementBlockView>,
}

/// The value of [`MshData`](struct.MshData.html)
pub struct MshDataView {
    pub entities: Option<EntitiesView>,
    pub nodes: Option<NodesView>,
    pub elements: Option<ElementsView>,
}

/// The value of a [`MshFile`](struct.MshFile.html)
pub struct MshFileView {
    pub header: MshHeader,
    pub data: MshDataView,
}

impl DeepView for Node {
    type V = Node;

    open spec fn deep_view(&self) -> Node {
        *self
    }
}

impl DeepView for MshHeader {
    type V = MshHeader;

    open spec fn deep_view(&self) -> MshHeader {
        *self
    }
}

impl DeepView for ElementType {
    type V = ElementType;

    open spec fn deep_view(&self) -> ElementType {
        *self
    }
}

impl DeepView for Point {
    type V = PointView;

    open spec fn deep_view(&self) -> PointView {
        PointView {
            tag: self.tag,
            x: self.x,
            y: self.y,
            z: self.z,
            physical_tags: self.physical_tags.deep_view(),
        }
    }
}

impl DeepView for Curve {
    type V = BoundedView;

    open spec fn deep_view(&self) -> BoundedView {
        BoundedView {
            tag: self.tag,
            min_x: self.min_x,
            min_y: self.min_y,
            min_z: self.min_z,
            max_x: self.max_x,
            max_y: self.max_y,
            max_z: self.max_z,
            physical_tags: self.physical_tags.deep_view(),
            bounding_tags: self.point_tags.deep_view(),
        }
    }
}

impl DeepView for Surface {
    type V = BoundedView;

    open spec fn deep_view(&self) -> BoundedView {
        BoundedView {
            tag: self.tag,
            min_x: self.min_x,
            min_y: self.min_y,
            min_z: self.min_z,
            max_x: self.max_x,
            max_y: self.max_y,
            max_z: self.max_z,
            physical_tags: self.physical_tags.deep_view(),
            bounding_tags: self.curve_tags.deep_view(),
        }
    }
}

impl DeepView for Volume {
    type V = BoundedView;

    open spec fn deep_view(&self) -> BoundedView {
        BoundedView {
            tag: self.tag,
            min_x: self.min_x,
            min_y: self.min_y,
            min_z: self.min_z,
            max_x: self.max_x,
            max_y: self.max_y,
            max_z: self.max_z,
            physical_tags: self.physical_tags.deep_view(),
            bounding_tags: self.surface_tags.deep_view(),
        }
    }
}

impl DeepView for Entities {
    type V = EntitiesView;

    open spec fn deep_view(&self) -> EntitiesView {
        EntitiesView {
            points: self.points.deep_view(),
            curves: self.curves.deep_view(),
            surfaces: self.surfaces.deep_view(),
            volumes: self.volumes.deep_view(),
        }
    }
}

impl DeepView for NodeBlock {
    type V = NodeBlockView;

    open spec fn deep_view(&self) -> NodeBlockView {
        NodeBlockView {
            entity_dim: self.entity_dim,
            entity_tag: self.entity_tag,
            parametric: self.parametric,
            node_tags: match self.node_tags {
                Some(m) => Some(m@),
                None => None,
            },
            nodes: self.nodes.deep_view(),
            parametric_nodes: match self.parametric_nodes {
                Some(v) => Some(v.deep_view()),
                None => None,
            },
        }
    }
}

impl DeepView for Nodes {
    type V = NodesView;

    open spec fn deep_view(&self) -> NodesView {
        NodesView {
            num_nodes: self.num_nodes,
            min_node_tag: self.min_node_tag,
            max_node_tag: self.max_node_tag,
            node_blocks: self.node_blocks.deep_view(),
        }
    }
}

impl DeepView for Element {
    type V = ElementView;

    open spec fn deep_view(&self) -> ElementView {
        ElementView { element_tag: self.element_tag, nodes: self.nodes.deep_view() }
    }
}

impl DeepView for ElementBlock {
    type V = ElementBlockView;

    open spec fn deep_view(&self) -> ElementBlockView {
        ElementBlockView {
            entity_dim: self.entity_dim,
            entity_tag: self.entity_tag,
            element_type: self.element_type,
            element_tags: match self.element_tags {
                Some(m) => Some(m@),
                None => None,
            },
            elements: self.elements.deep_view(),
        }
    }
}

impl DeepView for Elements {
    type V = ElementsView;

    open spec fn deep_view(&self) -> ElementsView {
        ElementsView {
            num_elements: self.num_elements,
            min_element_tag: self.min_element_tag,
            max_element_tag: self.max_element_tag,
            element_blocks: self.element_blocks.deep_view(),
        }
    }
}

impl DeepView for MshData {
    type V = MshDataView;

    open spec fn deep_view(&self) -> MshDataView {
        MshDataView {
            entities: self.entities.deep_view(),
            nodes: self.nodes.deep_view(),
            elements: self.elements.deep_view(),
        }
    }
}

impl DeepView for MshFile {
    type V = MshFileView;

    open spec fn deep_view(&self) -> MshFileView {
        MshFileView { header: self.header, data: self.data.deep_view() }
    }
}

/// The map from each tag to its index in the sequence; of a tag that occurs
/// more than once, the last index.
pub open spec fn tag_map(tags: Seq<u64>) -> Map<u64, usize>
    decreases tags.len(),
{
    if tags.len() == 0 {
        Map::empty()
    } else {
        tag_map(tags.drop_last()).insert(tags.last(), (tags.len() - 1) as usize)
    }
}

/// Whether tags between `min_tag` and `max_tag` are sparse for `count`
/// items: whether the range holds more tags than there are items.
pub open spec fn tags_are_sparse(min_tag: u64, max_tag: u64, count: u64) -> bool {
    max_tag - min_tag > count - 1
}

/// The number of nodes in a sequence of node blocks.
pub open spec fn node_total(blocks: Seq<NodeBlockView>) -> nat
    decreases blocks.len(),
{
    if blocks.len() == 0 {
        0
    } else {
        node_total(blocks.drop_last()) + blocks.last().nodes.len()
    }
}

/// The number of elements in a sequence of element blocks.
pub open spec fn element_total(blocks: Seq<ElementBlockView>) -> nat
    decreases blocks.len(),
{
    if blocks.len() == 0 {
        0
    } else {
        element_total(blocks.drop_last()) + blocks.last().elements.len()
    }
}

/// The number of elements of the type with the given code in a sequence of
/// element blocks.
pub open spec fn element_total_of(blocks: Seq<ElementBlockView>, code: int) -> nat
    decreases blocks.len(),
{
    if blocks.len() == 0 {
        0
    } else if code_of(blocks.last().element_type) == code {
        element_total_of(blocks.drop_last(), code) + blocks.last().elements.len()
    } else {
        element_total_of(blocks.drop_last(), code)
    }
}

/// Whether a block of the sequence holds elements of the type with the given code.
pub open spec fn has_element_type(blocks: Seq<ElementBlockView>, code: int) -> bool {
    exists|i: int| 0 <= i < blocks.len() && code_of(#[trigger] blocks[i].element_type) == code
}

/// The elements of one type are among all elements, and there are none of a
/// type that no block has.
pub proof fn lemma_element_total_of(blocks: Seq<ElementBlockView>, code: int)
    ensures
        element_total_of(blocks, code) <= element_total(blocks),
        !has_element_type(blocks, code) ==> element_total_of(blocks, code) == 0,
    decreases blocks.len(),
{
    if blocks.len() > 0 {
        lemma_element_total_of(blocks.drop_last(), code);
        if !has_element_type(blocks, code) {
            assert(code_of(blocks[blocks.len() - 1].element_type) != code);
            assert forall|i: int| 0 <= i < blocks.drop_last().len() implies code_of(
                #[trigger] blocks.drop_last()[i].element_type,
            ) != code by {
                assert(blocks.drop_last()[i] == blocks[i]);
            }
        }
    }
}

/// In blocks that all hold elements of one type, the elements of that type
/// are all the elements.
pub proof fn lemma_elements_of_one_type(blocks: Seq<ElementBlockView>, t: ElementType)
    requires
        forall|i: int| 0 <= i < blocks.len() ==> (#[trigger] blocks[i]).element_type == t,
    ensures
        element_total_of(blocks, code_of(t)) == element_total(blocks),
    decreases blocks.len(),
{
    if blocks.len() > 0 {
        assert(blocks.last() == blocks[blocks.len() - 1]);
        assert forall|i: int| 0 <= i < blocks.drop_last().len() implies (
        #[trigger] blocks.drop_last()[i]).element_type == t by {
            assert(blocks.drop_last()[i] == blocks[i]);
        }
        lemma_elements_of_one_type(blocks.drop_last(), t);
    }
}

/// Where all blocks of a file hold elements of one type, and there is a
/// block, that type is the only one that is counted, and its count is the
/// number of all elements: a file of 20 quadrilaterals in blocks of
/// quadrilaterals has one count, 20 for the quadrilaterals.
pub proof fn lemma_single_element_type(blocks: Seq<ElementBlockView>, t: ElementType)
    requires
        blocks.len() > 0,
        forall|i: int| 0 <= i < blocks.len() ==> (#[trigger] blocks[i]).element_type == t,
    ensures
        forall|code: int| has_element_type(blocks, code) <==> code == code_of(t),
        element_total_of(blocks, code_of(t)) == element_total(blocks),
{
    lemma_elements_of_one_type(blocks, t);
    assert(code_of(blocks[0].element_type) == code_of(t));
}

/// The first blocks of a sequence hold no more elements than all of them.
pub proof fn lemma_element_total_grows(blocks: Seq<ElementBlockView>, n: int)
    requires
        0 <= n <= blocks.len(),
    ensures
        element_total(blocks.subrange(0, n)) <= element_total(blocks),
    decreases blocks.len() - n,
{
    if n < blocks.len() {
        lemma_element_total_grows(blocks, n + 1);
        assert(blocks.subrange(0, n + 1).drop_last() =~= blocks.subrange(0, n));
    } else {
        assert(blocks.subrange(0, n) =~= blocks);
    }
}

impl NodesView {
    /// Whether the smallest tag is not zero and not above the largest, and
    /// every block has a tag map if and only if the tags are sparse: the
    /// range of the tags is larger than the declared number of nodes.
    pub open spec fn tags_are_valid(self) -> bool {
        &&& self.min_node_tag != 0
        &&& self.max_node_tag >= self.min_node_tag
        &&& forall|i: int|
            0 <= i < self.node_blocks.len() ==> ((#[trigger] self.node_blocks[i]).node_tags is Some
                <==> self.max_node_tag - self.min_node_tag > self.num_nodes - 1)
    }
}

impl ElementsView {
    /// Whether the smallest tag is not zero and not above the largest, and
    /// every block has a tag map if and only if the tags are sparse: the
    /// range of the tags is larger than the declared number of elements.
    pub open spec fn tags_are_valid(self) -> bool {
        &&& self.min_element_tag != 0
        &&& self.max_element_tag >= self.min_element_tag
        &&& forall|i: int|
            0 <= i < self.element_blocks.len() ==> ((
            #[trigger] self.element_blocks[i]).element_tags is Some <==> self.max_element_tag
                - self.min_element_tag > self.num_elements - 1)
    }
}

impl MshFileView {
    /// Whether the tags of the node section and of the element section, as
    /// far as the file has them, are valid.
    pub open spec fn tags_are_valid(self) -> bool {
        &&& self.data.nodes matches Some(nodes) ==> nodes.tags_are_valid()
        &&& self.data.elements matches Some(elements) ==> elements.tags_are_valid()
    }

    /// The total number of nodes that the file declares.
    pub open spec fn total_node_count(self) -> nat {
        match self.data.nodes {
            Some(nodes) => nodes.num_nodes as nat,
            None => 0,
        }
    }

    /// The total number of elements that the file declares.
    pub open spec fn total_element_count(self) -> nat {
        match self.data.elements {
            Some(elements) => elements.num_elements as nat,
            None => 0,
        }
    }

    /// Whether the node section, if there is one, declares as many nodes as
    /// its blocks hold.
    pub open spec fn node_count_is_valid(self) -> bool {
        match self.data.nodes {
            Some(nodes) => nodes.num_nodes == node_total(nodes.node_blocks),
            None => true,
        }
    }

    /// Whether the element section, if there is one, declares as many elements
    /// as its blocks hold.
    pub open spec fn element_count_is_valid(self) -> bool {
        match self.data.elements {
            Some(elements) => elements.num_elements == element_total(elements.element_blocks),
            None => true,
        }
    }

    /// The node blocks of the file.
    pub open spec fn node_blocks(self) -> Seq<NodeBlockView> {
        match self.data.nodes {
            Some(nodes) => nodes.node_blocks,
            None => Seq::empty(),
        }
    }

    /// The element blocks of the file.
    pub open spec fn element_blocks(self) -> Seq<ElementBlockView> {
        match self.data.elements {
            Some(elements) => elements.element_blocks,
            None => Seq::empty(),
        }
    }
}

/// In a file whose node section declares as many nodes as its blocks hold,
/// the total node count is the sum of the lengths of the node blocks, and is
/// the declared number of nodes.
pub proof fn lemma_total_node_count(file: MshFileView)
    requires
        file.node_count_is_valid(),
    ensures
        file.total_node_count() == node_total(file.node_blocks()),
        file.data.nodes matches Some(nodes) ==> file.total_node_count() == nodes.num_nodes,
{
}

/// In a file whose element section declares as many elements as its blocks
/// hold, the total element count is the sum of the lengths of the element
/// blocks.
pub proof fn lemma_total_element_count(file: MshFileView)
    requires
        file.element_count_is_valid(),
    ensures
        file.total_element_count() == element_total(file.element_blocks()),
{
}

impl MshFile {
    /// Returns the total number of nodes in the MSH file
    pub fn total_node_count(&self) -> (n: usize)
        requires
            self.deep_view().total_node_count() <= usize::MAX,
        ensures
            n == self.deep_view().total_node_count(),
            self.data.nodes matches Some(nodes) ==> n == nodes.num_nodes,
            self.deep_view().node_count_is_valid() ==> n == node_total(
                self.deep_view().node_blocks(),
            ),
    {
        match &self.data.nodes {
            Some(nodes) => nodes.num_nodes as usize,
            None => 0,
        }
    }

    /// Returns the total number of elements in the MSH file
    pub fn total_element_count(&self) -> (n: usize)
        requires
            self.deep_view().total_element_count() <= usize::MAX,
        ensures
            n == self.deep_view().total_element_count(),
            self.data.elements matches Some(elements) ==> n == elements.num_elements,
            self.deep_view().element_count_is_valid() ==> n == element_total(
                self.deep_view().element_blocks(),
            ),
    {
        match &self.data.elements {
            Some(elements) => elements.num_elements as usize,
            None => 0,
        }
    }

    /// Returns whether the node section, if there is one, declares as many
    /// nodes as its blocks hold
    pub fn node_count_is_valid(&self) -> (valid: bool)
        ensures
            valid == self.deep_view().node_count_is_valid(),
    {
        let nodes = match &self.data.nodes {
            Some(nodes) => nodes,
            None => {
                return true;
            },
        };
        let ghost blocks = nodes.node_blocks.deep_view();
        let n = nodes.node_blocks.len();
        let mut total: u128 = 0;
        let mut i: usize = 0;
        assert(blocks.subrange(0, 0) =~= Seq::<NodeBlockView>::empty());
        while i < n
            invariant
                i <= n,
                n == nodes.node_blocks.len(),
                blocks == nodes.node_blocks.deep_view(),
                total == node_total(blocks.subrange(0, i as int)),
                total <= i * usize::MAX,
            decreases n - i,
        {
            proof {
                let next = blocks.subrange(0, i + 1);
                assert(next.drop_last() =~= blocks.subrange(0, i as int));
                assert(next.last() == nodes.node_blocks[i as int].deep_view());
                assert(nodes.node_blocks[i as int].nodes.deep_view().len()
                    == nodes.node_blocks[i as int].nodes.len());
                assert((i + 1) * usize::MAX == i * usize::MAX + usize::MAX) by (nonlinear_arith);
                assert(i * usize::MAX <= usize::MAX * usize::MAX) by (nonlinear_arith)
                    requires
                        i <= usize::MAX,
                ;
                assert(usize::MAX * usize::MAX + usize::MAX <= u128::MAX) by (nonlinear_arith)
                    requires
                        usize::MAX <= u64::MAX,
                ;
            }
            total = total + nodes.node_blocks[i].nodes.len() as u128;
            i += 1;
        }
        assert(blocks.subrange(0, n as int) =~= blocks);
        nodes.num_nodes as u128 == total
    }

    /// Returns whether the element section, if there is one, declares as many
    /// elements as its blocks hold
    pub fn element_count_is_valid(&self) -> (valid: bool)
        ensures
            valid == self.deep_view().element_count_is_valid(),
    {
        let elements = match &self.data.elements {
            Some(elements) => elements,
            None => {
                return true;
            },
        };
        let ghost blocks = elements.element_blocks.deep_view();
        let n = elements.element_blocks.len();
        let mut total: u128 = 0;
        let mut i: usize = 0;
        assert(blocks.subrange(0, 0) =~= Seq::<ElementBlockView>::empty());
        while i < n
            invariant
                i <= n,
                n == elements.element_blocks.len(),
                blocks == elements.element_blocks.deep_view(),
                total == element_total(blocks.subrange(0, i as int)),
                total <= i * usize::MAX,
            decreases n - i,
        {
            proof {
                let next = blocks.subrange(0, i + 1);
                assert(next.drop_last() =~= blocks.subrange(0, i as int));
                assert(next.last() == elements.element_blocks[i as int].deep_view());
                assert(elements.element_blocks[i as int].elements.deep_view().len()
                    == elements.element_blocks[i as int].elements.len());
                assert((i + 1) * usize::MAX == i * usize::MAX + usize::MAX) by (nonlinear_arith);
                assert(i * usize::MAX <= usize::MAX * usize::MAX) by (nonlinear_arith)
                    requires
                        i <= usize::MAX,
                ;
                assert(usize::MAX * usize::MAX + usize::MAX <= u128::MAX) by (nonlinear_arith)
                    requires
                        usize::MAX <= u64::MAX,
                ;
            }
            total = total + elements.element_blocks[i].elements.len() as u128;
            i += 1;
        }
        assert(blocks.subrange(0, n as int) =~= blocks);
        elements.num_elements as u128 == total
    }

    /// Returns the number of point entities in the MSH file
    pub fn point_count(&self) -> (n: usize)
        ensures
            n == match self.deep_view().data.entities {
                Some(entities) => entities.points.len(),
                None => 0,
            },
    {
        match &self.data.entities {
            Some(entities) => entities.points.len(),
            None => 0,
        }
    }

    /// Returns the number of curve entities in the MSH file
    pub fn curve_count(&self) -> (n: usize)
        ensures
            n == match self.deep_view().data.entities {
                Some(entities) => entities.curves.len(),
                None => 0,
            },
    {
        match &self.data.entities {
            Some(entities) => entities.curves.len(),
            None => 0,
        }
    }

    /// Returns the number of surface entities in the MSH file
    pub fn surface_count(&self) -> (n: usize)
        ensures
            n == match self.deep_view().data.entities {
                Some(entities) => entities.surfaces.len(),
                None => 0,
            },
    {
        match &self.data.entities {
            Some(entities) => entities.surfaces.len(),
            None => 0,
        }
    }

    /// Returns the number of volume entities in the MSH file
    pub fn volume_count(&self) -> (n: usize)
        ensures
            n == match self.deep_view().data.entities {
                Some(entities) => entities.volumes.len(),
                None => 0,
            },
    {
        match &self.data.entities {
            Some(entities) => entities.volumes.len(),
            None => 0,
        }
    }

    /// Returns the number of elements of each element type in the MSH file,
    /// by the code of the element type
    pub fn count_element_types(&self) -> (counts: HashMap<i32, usize>)
        requires
            element_total(self.deep_view().element_blocks()) <= usize::MAX,
        ensures
            forall|code: i32|
                counts@.contains_key(code) <==> has_element_type(
                    self.deep_view().element_blocks(),
                    code as int,
                ),
            forall|code: i32| #[trigger]
                counts@.contains_key(code) ==> counts@[code] == element_total_of(
                    self.deep_view().element_blocks(),
                    code as int,
                ),
    {
        broadcast use group_hash_axioms;

        let mut counts: HashMap<i32, usize> = HashMap::new();
        let elements = match &self.data.elements {
            Some(elements) => elements,
            None => {
                return counts;
            },
        };
        let ghost blocks = elements.element_blocks.deep_view();
        assert(blocks == self.deep_view().element_blocks());
        let n = elements.element_blocks.len();
        let mut i: usize = 0;
        while i < n
            invariant
                i <= n,
                n == elements.element_blocks.len(),
                blocks == elements.element_blocks.deep_view(),
                element_total(blocks) <= usize::MAX,
                forall|code: i32|
                    counts@.contains_key(code) <==> has_element_type(
                        blocks.subrange(0, i as int),
                        code as int,
                    ),
                forall|code: i32| #[trigger]
                    counts@.contains_key(code) ==> counts@[code] == element_total_of(
                        blocks.subrange(0, i as int),
                        code as int,
                    ),
            decreases n - i,
        {
            let block = &elements.element_blocks[i];
            let code = block.element_type.code();
            let added = block.elements.len();
            let ghost before = blocks.subrange(0, i as int);
            let ghost after = blocks.subrange(0, i + 1);
            let ghost old_counts = counts@;
            proof {
                assert(after.drop_last() =~= before);
                assert(after.last() == blocks[i as int]);
                assert(blocks[i as int] == elements.element_blocks[i as int].deep_view());
                lemma_element_total_of(before, code as int);
                lemma_element_total_of(after, code as int);
                lemma_element_total_grows(blocks, i + 1);
                assert forall|c: i32| has_element_type(after, c as int) <==> (has_element_type(
                    before,
                    c as int,
                ) || c == code) by {
                    if has_element_type(before, c as int) {
                        let k = choose|k: int|
                            0 <= k < before.len() && code_of(#[trigger] before[k].element_type)
                                == c as int;
                        assert(after[k] == before[k]);
                    }
                    if c == code {
                        assert(code_of(after[i as int].element_type) == c as int);
                    }
                    if has_element_type(after, c as int) && c != code {
                        let k = choose|k: int|
                            0 <= k < after.len() && code_of(#[trigger] after[k].element_type)
                                == c as int;
                        assert(k < i);
                        assert(before[k] == after[k]);
                    }
                }
            }
            let total = match counts.get(&code) {
                Some(count) => *count + added,
                None => added,
            };
            counts.insert(code, total);
            proof {
                assert forall|c: i32| #[trigger] counts@.contains_key(c) implies counts@[c]
                    == element_total_of(after, c as int) by {
                    if c != code {
                        assert(old_counts.contains_key(c));
                    }
                }
            }
            i += 1;
        }
        assert(blocks.subrange(0, n as int) =~= blocks);
        counts
    }
}

} // verus!

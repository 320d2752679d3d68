//! Parser for the content of the `$Entities` section: the geometric entities
//! of the mesh.
//!
//! The section starts with the numbers of points, curves, surfaces and
//! volumes. The entities follow in that order. A point is a tag, three
//! coordinates and a list of physical tags; every other entity is a tag, a
//! bounding box of six coordinates, a list of physical tags and a list of the
//! tags of the entities that bound it. A list is a count and that many tags.

use vstd::prelude::*;
use vstd::string::StringExecFns;

use crate::error::{
    agrees, or_context, or_error, with_context, with_error, KindView, MshParserError,
    MshParserErrorKind, Parsed,
};
use crate::mshfile::{BoundedView, Curve, Entities, EntitiesView, Point, PointView, Surface, Volume};
use crate::parsers::general_parsers::{count_indexed, items_of, spec_count, ItemParser};
use crate::parsers::num_parsers::NumParsers;
use crate::text::{expected, expected_label, joined, numbered, numbered_label};

verus! {

/// The kinds of geometric entities
#[derive(Copy, Clone, Debug, PartialEq, Eq, Structural)]
pub enum EntityKind {
    /// An entity of dimension 0
    Point,
    /// An entity of dimension 1
    Curve,
    /// An entity of dimension 2
    Surface,
    /// An entity of dimension 3
    Volume,
}

/// The name of a kind of entity in messages.
pub open spec fn kind_text(kind: EntityKind) -> Seq<char> {
    match kind {
        EntityKind::Point => "point"@,
        EntityKind::Curve => "curve"@,
        EntityKind::Surface => "surface"@,
        EntityKind::Volume => "volume"@,
    }
}

/// The kind of the entities that bound an entity of a kind: the kind of the
/// next lower dimension.
pub open spec fn bounding_kind(kind: EntityKind) -> EntityKind {
    match kind {
        EntityKind::Point => EntityKind::Point,
        EntityKind::Curve => EntityKind::Point,
        EntityKind::Surface => EntityKind::Curve,
        EntityKind::Volume => EntityKind::Surface,
    }
}

/// The label of the list of physical tags of an entity.
pub open spec fn physical_tags_text(kind: EntityKind) -> Seq<char> {
    kind_text(kind) + " entity physical tags"@
}

/// The label of the number of entities that bound an entity.
pub open spec fn bounding_count_text(kind: EntityKind) -> Seq<char> {
    "number of bounding "@ + kind_text(bounding_kind(kind)) + "s"@
}

/// The label of the list of the tags of the entities that bound an entity.
pub open spec fn bounding_tags_text(kind: EntityKind) -> Seq<char> {
    kind_text(kind) + " entity bounding "@ + kind_text(bounding_kind(kind)) + " tags"@
}

/// The label of the entities of one kind in the section.
pub open spec fn kind_section_text(kind: EntityKind) -> Seq<char> {
    "entity section: "@ + kind_text(kind) + "s"@
}

/// The label of one entity of its kind.
pub open spec fn entity_text(kind: EntityKind, index: int, total: usize) -> Seq<char> {
    numbered(kind_text(kind) + " entity"@, (index + 1) as nat, total as nat)
}

/// The tags of a list, each an `int` value
#[derive(Copy, Clone, Debug)]
pub struct TagItems {
    /// The parsers of the numbers of the file
    pub parsers: NumParsers,
    /// The number of tags in the list
    pub expected: usize,
    /// Whether the tags are those of bounding entities, not physical tags
    pub bounding: bool,
}

/// What the tags of a list are called in messages.
pub open spec fn tags_text(bounding: bool) -> Seq<char> {
    if bounding {
        "bounding entity tags"@
    } else {
        "physical tags"@
    }
}

impl ItemParser for TagItems {
    type Item = i32;

    open spec fn spec_item(&self, input: Seq<u8>, index: int, pos: int) -> Parsed<i32> {
        or_context(
            or_error(self.parsers.spec_int(input, pos), pos, KindView::InvalidTag),
            pos,
            expected(self.expected as nat, tags_text(self.bounding)),
        )
    }

    fn parse_item(&self, input: &[u8], index: usize, pos: usize) -> (r: Result<
        (usize, i32),
        MshParserError,
    >) {
        match self.parsers.parse_int(input, pos) {
            Ok(v) => Ok(v),
            Err(e) => {
                let label = expected_label(
                    self.expected as u128,
                    if self.bounding {
                        "bounding entity tags"
                    } else {
                        "physical tags"
                    },
                );
                Err(
                    e.with_append(pos, MshParserErrorKind::InvalidTag).with_context(
                        pos,
                        label.as_str(),
                    ),
                )
            },
        }
    }
}

/// The tag of an entity.
pub open spec fn spec_entity_tag(cfg: NumParsers, input: Seq<u8>, pos: int) -> Parsed<i32> {
    or_context(or_error(cfg.spec_int(input, pos), pos, KindView::InvalidTag), pos, "entity tag"@)
}

/// A coordinate with the label that it has in messages.
pub open spec fn spec_coordinate(cfg: NumParsers, input: Seq<u8>, pos: int, label: Seq<char>) -> Parsed<
    u64,
> {
    or_context(cfg.spec_float(input, pos), pos, label)
}

/// A list of tags: a count and that many tags.
pub open spec fn spec_tag_list(
    cfg: NumParsers,
    input: Seq<u8>,
    pos: int,
    count_label: Seq<char>,
    list_label: Seq<char>,
    bounding: bool,
) -> Parsed<Seq<i32>> {
    match or_context(cfg.spec_to_usize(input, pos), pos, count_label) {
        Err(t) => Err(t),
        Ok((start, count)) => or_context(
            spec_count(
                items_of(TagItems { parsers: cfg, expected: count, bounding }, input),
                start,
                count as nat,
            ),
            start,
            list_label,
        ),
    }
}

/// A point entity.
pub open spec fn spec_point(cfg: NumParsers, input: Seq<u8>, pos: int) -> Parsed<PointView> {
    match spec_entity_tag(cfg, input, pos) {
        Err(t) => Err(t),
        Ok((at1, tag)) => match spec_coordinate(cfg, input, at1, "x-coordinate"@) {
            Err(t) => Err(t),
            Ok((at2, x)) => match spec_coordinate(cfg, input, at2, "y-coordinate"@) {
                Err(t) => Err(t),
                Ok((at3, y)) => match spec_coordinate(cfg, input, at3, "z-coordinate"@) {
                    Err(t) => Err(t),
                    Ok((at4, z)) => match spec_tag_list(
                        cfg,
                        input,
                        at4,
                        "number of physical tags"@,
                        physical_tags_text(EntityKind::Point),
                        false,
                    ) {
                        Err(t) => Err(t),
                        Ok((at5, physical_tags)) => Ok(
                            (at5, PointView { tag, x, y, z, physical_tags }),
                        ),
                    },
                },
            },
        },
    }
}

/// Three coordinates, each with its label.
pub open spec fn spec_triple(
    cfg: NumParsers,
    input: Seq<u8>,
    pos: int,
    first: Seq<char>,
    second: Seq<char>,
    third: Seq<char>,
) -> Parsed<(u64, u64, u64)> {
    match spec_coordinate(cfg, input, pos, first) {
        Err(t) => Err(t),
        Ok((at1, x)) => match spec_coordinate(cfg, input, at1, second) {
            Err(t) => Err(t),
            Ok((at2, y)) => match spec_coordinate(cfg, input, at2, third) {
                Err(t) => Err(t),
                Ok((at3, z)) => Ok((at3, (x, y, z))),
            },
        },
    }
}

/// An entity with a bounding box and a boundary: a curve, a surface or a volume.
pub open spec fn spec_bounded(cfg: NumParsers, input: Seq<u8>, pos: int, kind: EntityKind) -> Parsed<
    BoundedView,
> {
    match spec_entity_tag(cfg, input, pos) {
        Err(t) => Err(t),
        Ok((at1, tag)) => match spec_triple(
            cfg,
            input,
            at1,
            "min x-coordinate"@,
            "min y-coordinate"@,
            "min z-coordinate"@,
        ) {
            Err(t) => Err(t),
            Ok((at2, min)) => match spec_triple(
                cfg,
                input,
                at2,
                "max x-coordinate"@,
                "max y-coordinate"@,
                "max z-coordinate"@,
            ) {
                Err(t) => Err(t),
                Ok((at3, max)) => match spec_tag_list(
                    cfg,
                    input,
                    at3,
                    "number of physical tags"@,
                    physical_tags_text(kind),
                    false,
                ) {
                    Err(t) => Err(t),
                    Ok((at4, physical_tags)) => match spec_tag_list(
                        cfg,
                        input,
                        at4,
                        bounding_count_text(kind),
                        bounding_tags_text(kind),
                        true,
                    ) {
                        Err(t) => Err(t),
                        Ok((at5, bounding_tags)) => Ok(
                            (
                                at5,
                                BoundedView {
                                    tag,
                                    min_x: min.0,
                                    min_y: min.1,
                                    min_z: min.2,
                                    max_x: max.0,
                                    max_y: max.1,
                                    max_z: max.2,
                                    physical_tags,
                                    bounding_tags,
                                },
                            ),
                        ),
                    },
                },
            },
        },
    }
}

/// The point entities of a section
#[derive(Copy, Clone, Debug)]
pub struct PointItems {
    /// The parsers of the numbers of the file
    pub parsers: NumParsers,
    /// The number of points in the section
    pub total: usize,
}

/// The curve entities of a section
#[derive(Copy, Clone, Debug)]
pub struct CurveItems {
    /// The parsers of the numbers of the file
    pub parsers: NumParsers,
    /// The number of curves in the section
    pub total: usize,
}

/// The surface entities of a section
#[derive(Copy, Clone, Debug)]
pub struct SurfaceItems {
    /// The parsers of the numbers of the file
    pub parsers: NumParsers,
    /// The number of surfaces in the section
    pub total: usize,
}

/// The volume entities of a section
#[derive(Copy, Clone, Debug)]
pub struct VolumeItems {
    /// The parsers of the numbers of the file
    pub parsers: NumParsers,
    /// The number of volumes in the section
    pub total: usize,
}

/// The numbers of points, curves, surfaces and volumes of a section.
pub open spec fn spec_entity_counts(cfg: NumParsers, input: Seq<u8>, pos: int) -> Parsed<
    (usize, usize, usize, usize),
> {
    match or_context(cfg.spec_to_usize(input, pos), pos, "number of point entities"@) {
        Err(t) => Err(t),
        Ok((at1, points)) => match or_context(
            cfg.spec_to_usize(input, at1),
            at1,
            "number of curve entities"@,
        ) {
            Err(t) => Err(t),
            Ok((at2, curves)) => match or_context(
                cfg.spec_to_usize(input, at2),
                at2,
                "number of surface entities"@,
            ) {
                Err(t) => Err(t),
                Ok((at3, surfaces)) => match or_context(
                    cfg.spec_to_usize(input, at3),
                    at3,
                    "number of volume entities"@,
                ) {
                    Err(t) => Err(t),
                    Ok((at4, volumes)) => Ok((at4, (points, curves, surfaces, volumes))),
                },
            },
        },
    }
}

/// The content of an entity section.
#[verifier::opaque]
pub open spec fn spec_entity_section(cfg: NumParsers, input: Seq<u8>, pos: int) -> Parsed<
    EntitiesView,
> {
    match or_context(spec_entity_counts(cfg, input, pos), pos, "entity section header"@) {
        Err(t) => Err(t),
        Ok((at0, n)) => match or_context(
            spec_count(items_of(PointItems { parsers: cfg, total: n.0 }, input), at0, n.0 as nat),
            at0,
            kind_section_text(EntityKind::Point),
        ) {
            Err(t) => Err(t),
            Ok((at1, points)) => match or_context(
                spec_count(
                    items_of(CurveItems { parsers: cfg, total: n.1 }, input),
                    at1,
                    n.1 as nat,
                ),
                at1,
                kind_section_text(EntityKind::Curve),
            ) {
                Err(t) => Err(t),
                Ok((at2, curves)) => match or_context(
                    spec_count(
                        items_of(SurfaceItems { parsers: cfg, total: n.2 }, input),
                        at2,
                        n.2 as nat,
                    ),
                    at2,
                    kind_section_text(EntityKind::Surface),
                ) {
                    Err(t) => Err(t),
                    Ok((at3, surfaces)) => match or_context(
                        spec_count(
                            items_of(VolumeItems { parsers: cfg, total: n.3 }, input),
                            at3,
                            n.3 as nat,
                        ),
                        at3,
                        kind_section_text(EntityKind::Volume),
                    ) {
                        Err(t) => Err(t),
                        Ok((at4, volumes)) => Ok(
                            (at4, EntitiesView { points, curves, surfaces, volumes }),
                        ),
                    },
                },
            },
        },
    }
}

impl EntityKind {
    /// The name of the kind in messages
    pub fn name(&self) -> (s: &'static str)
        ensures
            s@ == kind_text(*self),
    {
        match self {
            EntityKind::Point => "point",
            EntityKind::Curve => "curve",
            EntityKind::Surface => "surface",
            EntityKind::Volume => "volume",
        }
    }

    /// The kind of the entities that bound an entity of this kind
    pub fn bounding(&self) -> (k: EntityKind)
        ensures
            k == bounding_kind(*self),
    {
        match self {
            EntityKind::Point => EntityKind::Point,
            EntityKind::Curve => EntityKind::Point,
            EntityKind::Surface => EntityKind::Curve,
            EntityKind::Volume => EntityKind::Surface,
        }
    }
}

/// The label of the number of entities that bound an entity
fn bounding_count_label(kind: EntityKind) -> (s: String)
    ensures
        s@ == bounding_count_text(kind),
{
    let mut s = String::from_str("number of bounding ");
    s.append(kind.bounding().name());
    s.append("s");
    s
}

/// The label of the list of the tags of the entities that bound an entity
fn bounding_tags_label(kind: EntityKind) -> (s: String)
    ensures
        s@ == bounding_tags_text(kind),
{
    let mut s = String::from_str(kind.name());
    s.append(" entity bounding ");
    s.append(kind.bounding().name());
    s.append(" tags");
    s
}

/// The label of the entities of one kind in the section
fn kind_section_label(kind: EntityKind) -> (s: String)
    ensures
        s@ == kind_section_text(kind),
{
    let mut s = String::from_str("entity section: ");
    s.append(kind.name());
    s.append("s");
    s
}

/// Parses the tag of an entity
fn parse_entity_tag(parsers: &NumParsers, input: &[u8], pos: usize) -> (r: Result<
    (usize, i32),
    MshParserError,
>)
    requires
        pos <= input.len(),
    ensures
        agrees(r, spec_entity_tag(*parsers, input@, pos as int)),
        r matches Ok((next, _)) ==> pos <= next <= input.len(),
{
    with_context(
        with_error(parsers.parse_int(input, pos), pos, MshParserErrorKind::InvalidTag),
        pos,
        "entity tag",
    )
}

/// Parses a coordinate
pub fn parse_coordinate(parsers: &NumParsers, input: &[u8], pos: usize, label: &str) -> (r: Result<
    (usize, u64),
    MshParserError,
>)
    requires
        pos <= input.len(),
    ensures
        agrees(r, spec_coordinate(*parsers, input@, pos as int, label@)),
        r matches Ok((next, _)) ==> pos <= next <= input.len(),
{
    with_context(parsers.parse_float(input, pos), pos, label)
}

/// Parses three coordinates
pub fn parse_triple(
    parsers: &NumParsers,
    input: &[u8],
    pos: usize,
    first: &str,
    second: &str,
    third: &str,
) -> (r: Result<(usize, (u64, u64, u64)), MshParserError>)
    requires
        pos <= input.len(),
    ensures
        agrees(r, spec_triple(*parsers, input@, pos as int, first@, second@, third@)),
        r matches Ok((next, _)) ==> pos <= next <= input.len(),
{
    let (at1, x) = match parse_coordinate(parsers, input, pos, first) {
        Ok(v) => v,
        Err(e) => {
            return Err(e);
        },
    };
    let (at2, y) = match parse_coordinate(parsers, input, at1, second) {
        Ok(v) => v,
        Err(e) => {
            return Err(e);
        },
    };
    let (at3, z) = match parse_coordinate(parsers, input, at2, third) {
        Ok(v) => v,
        Err(e) => {
            return Err(e);
        },
    };
    Ok((at3, (x, y, z)))
}

/// Parses a list of tags: a count and that many tags
fn parse_tag_list(
    parsers: &NumParsers,
    input: &[u8],
    pos: usize,
    count_label: &str,
    list_label: &str,
    bounding: bool,
) -> (r: Result<(usize, Vec<i32>), MshParserError>)
    requires
        pos <= input.len(),
    ensures
        agrees(r, spec_tag_list(*parsers, input@, pos as int, count_label@, list_label@, bounding)),
        r matches Ok((next, _)) ==> pos <= next <= input.len(),
{
    let (start, count) = match parsers.parse_to_usize(input, pos) {
        Ok(v) => v,
        Err(e) => {
            return Err(e.with_context(pos, count_label));
        },
    };
    let items = TagItems { parsers: *parsers, expected: count, bounding };
    with_context(count_indexed(&items, input, start, count), start, list_label)
}

/// Parses a point entity
fn parse_point(parsers: &NumParsers, input: &[u8], pos: usize) -> (r: Result<
    (usize, Point),
    MshParserError,
>)
    requires
        pos <= input.len(),
    ensures
        agrees(r, spec_point(*parsers, input@, pos as int)),
        r matches Ok((next, _)) ==> pos <= next <= input.len(),
{
    let (at1, tag) = match parse_entity_tag(parsers, input, pos) {
        Ok(v) => v,
        Err(e) => {
            return Err(e);
        },
    };
    let (at2, x) = match parse_coordinate(parsers, input, at1, "x-coordinate") {
        Ok(v) => v,
        Err(e) => {
            return Err(e);
        },
    };
    let (at3, y) = match parse_coordinate(parsers, input, at2, "y-coordinate") {
        Ok(v) => v,
        Err(e) => {
            return Err(e);
        },
    };
    let (at4, z) = match parse_coordinate(parsers, input, at3, "z-coordinate") {
        Ok(v) => v,
        Err(e) => {
            return Err(e);
        },
    };
    let list_label = joined(EntityKind::Point.name(), " entity physical tags");
    let (at5, physical_tags) = match parse_tag_list(
        parsers,
        input,
        at4,
        "number of physical tags",
        list_label.as_str(),
        false,
    ) {
        Ok(v) => v,
        Err(e) => {
            return Err(e);
        },
    };
    Ok((at5, Point { tag, x, y, z, physical_tags }))
}

/// An entity with a bounding box and a boundary, of whatever kind
pub struct Bounded {
    /// The entity tag
    pub tag: i32,
    /// The lower bounds of the x, y and z coordinates
    pub min: (u64, u64, u64),
    /// The upper bounds of the x, y and z coordinates
    pub max: (u64, u64, u64),
    /// Tags of the physical groups that the entity belongs to
    pub physical_tags: Vec<i32>,
    /// Tags of the entities that bound the entity
    pub bounding_tags: Vec<i32>,
}

impl DeepView for Bounded {
    type V = BoundedView;

    open spec fn deep_view(&self) -> BoundedView {
        BoundedView {
            tag: self.tag,
            min_x: self.min.0,
            min_y: self.min.1,
            min_z: self.min.2,
            max_x: self.max.0,
            max_y: self.max.1,
            max_z: self.max.2,
            physical_tags: self.physical_tags.deep_view(),
            bounding_tags: self.bounding_tags.deep_view(),
        }
    }
}

/// Parses an entity with a bounding box and a boundary
fn parse_bounded(parsers: &NumParsers, input: &[u8], pos: usize, kind: EntityKind) -> (r: Result<
    (usize, Bounded),
    MshParserError,
>)
    requires
        pos <= input.len(),
    ensures
        agrees(r, spec_bounded(*parsers, input@, pos as int, kind)),
        r matches Ok((next, _)) ==> pos <= next <= input.len(),
{
    let (at1, tag) = match parse_entity_tag(parsers, input, pos) {
        Ok(v) => v,
        Err(e) => {
            return Err(e);
        },
    };
    let (at2, min) = match parse_triple(
        parsers,
        input,
        at1,
        "min x-coordinate",
        "min y-coordinate",
        "min z-coordinate",
    ) {
        Ok(v) => v,
        Err(e) => {
            return Err(e);
        },
    };
    let (at3, max) = match parse_triple(
        parsers,
        input,
        at2,
        "max x-coordinate",
        "max y-coordinate",
        "max z-coordinate",
    ) {
        Ok(v) => v,
        Err(e) => {
            return Err(e);
        },
    };
    let physical_label = joined(kind.name(), " entity physical tags");
    let (at4, physical_tags) = match parse_tag_list(
        parsers,
        input,
        at3,
        "number of physical tags",
        physical_label.as_str(),
        false,
    ) {
        Ok(v) => v,
        Err(e) => {
            return Err(e);
        },
    };
    let count_label = bounding_count_label(kind);
    let tags_label = bounding_tags_label(kind);
    let (at5, bounding_tags) = match parse_tag_list(
        parsers,
        input,
        at4,
        count_label.as_str(),
        tags_label.as_str(),
        true,
    ) {
        Ok(v) => v,
        Err(e) => {
            return Err(e);
        },
    };
    Ok((at5, Bounded { tag, min, max, physical_tags, bounding_tags }))
}

impl ItemParser for PointItems {
    type Item = Point;

    open spec fn spec_item(&self, input: Seq<u8>, index: int, pos: int) -> Parsed<PointView> {
        or_context(
            spec_point(self.parsers, input, pos),
            pos,
            entity_text(EntityKind::Point, index, self.total),
        )
    }

    fn parse_item(&self, input: &[u8], index: usize, pos: usize) -> (r: Result<
        (usize, Point),
        MshParserError,
    >) {
        match parse_point(&self.parsers, input, pos) {
            Ok(v) => Ok(v),
            Err(e) => Err(e.with_context(pos, item_label(EntityKind::Point, index, self.total).as_str())),
        }
    }
}

/// The label of one entity of its kind, whatever its index
fn item_label(kind: EntityKind, index: usize, total: usize) -> (s: String)
    ensures
        s@ == entity_text(kind, index as int, total),
{
    let name = joined(kind.name(), " entity");
    numbered_label(name.as_str(), index as u128 + 1, total as u128)
}

impl ItemParser for CurveItems {
    type Item = Curve;

    open spec fn spec_item(&self, input: Seq<u8>, index: int, pos: int) -> Parsed<BoundedView> {
        or_context(
            spec_bounded(self.parsers, input, pos, EntityKind::Curve),
            pos,
            entity_text(EntityKind::Curve, index, self.total),
        )
    }

    fn parse_item(&self, input: &[u8], index: usize, pos: usize) -> (r: Result<
        (usize, Curve),
        MshParserError,
    >) {
        match parse_bounded(&self.parsers, input, pos, EntityKind::Curve) {
            Ok((next, b)) => {
                let ghost value = b.deep_view();
                let Bounded { tag, min, max, physical_tags, bounding_tags } = b;
                let entity = Curve {
                    tag,
                    min_x: min.0,
                    min_y: min.1,
                    min_z: min.2,
                    max_x: max.0,
                    max_y: max.1,
                    max_z: max.2,
                    physical_tags,
                    point_tags: bounding_tags,
                };
                assert(entity.deep_view() == value);
                Ok((next, entity))
            },
            Err(e) => Err(e.with_context(pos, item_label(EntityKind::Curve, index, self.total).as_str())),
        }
    }
}

impl ItemParser for SurfaceItems {
    type Item = Surface;

    open spec fn spec_item(&self, input: Seq<u8>, index: int, pos: int) -> Parsed<BoundedView> {
        or_context(
            spec_bounded(self.parsers, input, pos, EntityKind::Surface),
            pos,
            entity_text(EntityKind::Surface, index, self.total),
        )
    }

    fn parse_item(&self, input: &[u8], index: usize, pos: usize) -> (r: Result<
        (usize, Surface),
        MshParserError,
    >) {
        match parse_bounded(&self.parsers, input, pos, EntityKind::Surface) {
            Ok((next, b)) => {
                let ghost value = b.deep_view();
                let Bounded { tag, min, max, physical_tags, bounding_tags } = b;
                let entity = Surface {
                    tag,
                    min_x: min.0,
                    min_y: min.1,
                    min_z: min.2,
                    max_x: max.0,
                    max_y: max.1,
                    max_z: max.2,
                    physical_tags,
                    curve_tags: bounding_tags,
                };
                assert(entity.deep_view() == value);
                Ok((next, entity))
            },
            Err(e) => Err(e.with_context(pos, item_label(EntityKind::Surface, index, self.total).as_str())),
        }
    }
}

impl ItemParser for VolumeItems {
    type Item = Volume;

    open spec fn spec_item(&self, input: Seq<u8>, index: int, pos: int) -> Parsed<BoundedView> {
        or_context(
            spec_bounded(self.parsers, input, pos, EntityKind::Volume),
            pos,
            entity_text(EntityKind::Volume, index, self.total),
        )
    }

    fn parse_item(&self, input: &[u8], index: usize, pos: usize) -> (r: Result<
        (usize, Volume),
        MshParserError,
    >) {
        match parse_bounded(&self.parsers, input, pos, EntityKind::Volume) {
            Ok((next, b)) => {
                let ghost value = b.deep_view();
                let Bounded { tag, min, max, physical_tags, bounding_tags } = b;
                let entity = Volume {
                    tag,
                    min_x: min.0,
                    min_y: min.1,
                    min_z: min.2,
                    max_x: max.0,
                    max_y: max.1,
                    max_z: max.2,
                    physical_tags,
                    surface_tags: bounding_tags,
                };
                assert(entity.deep_view() == value);
                Ok((next, entity))
            },
            Err(e) => Err(e.with_context(pos, item_label(EntityKind::Volume, index, self.total).as_str())),
        }
    }
}

/// Parses the numbers of points, curves, surfaces and volumes of a section
fn parse_entity_section_header(parsers: &NumParsers, input: &[u8], pos: usize) -> (r: Result<
    (usize, (usize, usize, usize, usize)),
    MshParserError,
>)
    requires
        pos <= input.len(),
    ensures
        agrees(r, spec_entity_counts(*parsers, input@, pos as int)),
        r matches Ok((next, _)) ==> pos <= next <= input.len(),
{
    let (at1, points) = match parsers.parse_to_usize(input, pos) {
        Ok(v) => v,
        Err(e) => {
            return Err(e.with_context(pos, "number of point entities"));
        },
    };
    let (at2, curves) = match parsers.parse_to_usize(input, at1) {
        Ok(v) => v,
        Err(e) => {
            return Err(e.with_context(at1, "number of curve entities"));
        },
    };
    let (at3, surfaces) = match parsers.parse_to_usize(input, at2) {
        Ok(v) => v,
        Err(e) => {
            return Err(e.with_context(at2, "number of surface entities"));
        },
    };
    let (at4, volumes) = match parsers.parse_to_usize(input, at3) {
        Ok(v) => v,
        Err(e) => {
            return Err(e.with_context(at3, "number of volume entities"));
        },
    };
    Ok((at4, (points, curves, surfaces, volumes)))
}

/// Parses the content of an entity section
pub fn parse_entity_section(parsers: &NumParsers, input: &[u8], pos: usize) -> (r: Result<
    (usize, Entities),
    MshParserError,
>)
    requires
        pos <= input.len(),
    ensures
        agrees(r, spec_entity_section(*parsers, input@, pos as int)),
        r matches Ok((next, _)) ==> pos <= next <= input.len(),
{
    reveal(spec_entity_section);
    let (at0, n) = match parse_entity_section_header(parsers, input, pos) {
        Ok(v) => v,
        Err(e) => {
            return Err(e.with_context(pos, "entity section header"));
        },
    };
    let (at1, points) = match count_indexed(
        &PointItems { parsers: *parsers, total: n.0 },
        input,
        at0,
        n.0,
    ) {
        Ok(v) => v,
        Err(e) => {
            return Err(e.with_context(at0, kind_section_label(EntityKind::Point).as_str()));
        },
    };
    let (at2, curves) = match count_indexed(
        &CurveItems { parsers: *parsers, total: n.1 },
        input,
        at1,
        n.1,
    ) {
        Ok(v) => v,
        Err(e) => {
            return Err(e.with_context(at1, kind_section_label(EntityKind::Curve).as_str()));
        },
    };
    let (at3, surfaces) = match count_indexed(
        &SurfaceItems { parsers: *parsers, total: n.2 },
        input,
        at2,
        n.2,
    ) {
        Ok(v) => v,
        Err(e) => {
            return Err(e.with_context(at2, kind_section_label(EntityKind::Surface).as_str()));
        },
    };
    let (at4, volumes) = match count_indexed(
        &VolumeItems { parsers: *parsers, total: n.3 },
        input,
        at3,
        n.3,
    ) {
        Ok(v) => v,
        Err(e) => {
            return Err(e.with_context(at3, kind_section_label(EntityKind::Volume).as_str()));
        },
    };
    Ok((at4, Entities { points, curves, surfaces, volumes }))
}

} // verus!

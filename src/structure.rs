//! The structural rules that a geometry must meet, the checks that decide
//! them, and the choice between a supplied and a derived bounding box.
//!
//! The rules are structural only: they ask that lists be non-empty, and never
//! look at the coordinates themselves. Only the points of a multi-point are
//! asked, in addition, to be planar coordinate pairs.
use vstd::prelude::*;
use geojson::Position;
use crate::raw::{coordinate_count, RawGeometry};

verus! {

/// A position is a planar coordinate pair.
pub open spec fn position_ok(p: Position) -> bool {
    coordinate_count(p) == 2
}

/// A non-empty list of points, each a planar coordinate pair.
pub open spec fn points_ok(ps: Seq<Position>) -> bool {
    &&& ps.len() > 0
    &&& forall|j: int| 0 <= j < ps.len() ==> position_ok(#[trigger] ps[j])
}

/// A line-string of at least two positions.
pub open spec fn line_ok(ps: Seq<Position>) -> bool {
    ps.len() >= 2
}

/// A non-empty list of non-empty paths: the lines of a multi-line-string, or
/// the rings of a polygon.
pub open spec fn paths_ok(paths: Seq<Vec<Position>>) -> bool {
    &&& paths.len() > 0
    &&& forall|i: int| 0 <= i < paths.len() ==> (#[trigger] paths[i])@.len() > 0
}

/// A non-empty list of polygons, each a non-empty list of non-empty rings.
pub open spec fn polygons_ok(polygons: Seq<Vec<Vec<Position>>>) -> bool {
    &&& polygons.len() > 0
    &&& forall|i: int| 0 <= i < polygons.len() ==> paths_ok(#[trigger] polygons[i]@)
}

/// One element of a geometry collection, checked by the rule of its own kind.
/// A nested collection is not taken as an element.
pub open spec fn element_ok(g: RawGeometry) -> bool {
    match g {
        RawGeometry::Point(_) => true,
        RawGeometry::MultiPoint(ps) => points_ok(ps@),
        RawGeometry::LineString(ps) => line_ok(ps@),
        RawGeometry::MultiLineString(ls) => paths_ok(ls@),
        RawGeometry::Polygon(rs) => paths_ok(rs@),
        RawGeometry::MultiPolygon(ps) => polygons_ok(ps@),
        RawGeometry::GeometryCollection(_) => false,
    }
}

/// A non-empty list of well-formed elements.
pub open spec fn elements_ok(gs: Seq<RawGeometry>) -> bool {
    &&& gs.len() > 0
    &&& forall|i: int| 0 <= i < gs.len() ==> element_ok(#[trigger] gs[i])
}

/// Decides `position_ok`.
pub fn check_position(p: &Position) -> (r: bool)
    ensures
        r == position_ok(*p),
{
    p.len() == 2
}

/// Decides `points_ok`.
pub fn check_points(ps: &Vec<Position>) -> (r: bool)
    ensures
        r == points_ok(ps@),
{
    if ps.len() == 0 {
        return false;
    }
    let mut j: usize = 0;
    while j < ps.len()
        invariant
            j <= ps@.len(),
            forall|k: int| 0 <= k < j ==> position_ok(#[trigger] ps@[k]),
        decreases ps@.len() - j,
    {
        if !check_position(&ps[j]) {
            return false;
        }
        j = j + 1;
    }
    true
}

/// Decides `paths_ok`.
pub fn check_paths(paths: &Vec<Vec<Position>>) -> (r: bool)
    ensures
        r == paths_ok(paths@),
{
    if paths.len() == 0 {
        return false;
    }
    let mut i: usize = 0;
    while i < paths.len()
        invariant
            i <= paths@.len(),
            forall|k: int| 0 <= k < i ==> (#[trigger] paths@[k])@.len() > 0,
        decreases paths@.len() - i,
    {
        if paths[i].len() == 0 {
            return false;
        }
        i = i + 1;
    }
    true
}

/// Decides `polygons_ok`.
pub fn check_polygons(polygons: &Vec<Vec<Vec<Position>>>) -> (r: bool)
    ensures
        r == polygons_ok(polygons@),
{
    if polygons.len() == 0 {
        return false;
    }
    let mut i: usize = 0;
    while i < polygons.len()
        invariant
            i <= polygons@.len(),
            forall|k: int| 0 <= k < i ==> paths_ok(#[trigger] polygons@[k]@),
        decreases polygons@.len() - i,
    {
        if !check_paths(&polygons[i]) {
            return false;
        }
        i = i + 1;
    }
    true
}

/// Decides `element_ok`.
pub fn check_element(g: &RawGeometry) -> (r: bool)
    ensures
        r == element_ok(*g),
{
    match g {
        RawGeometry::Point(_) => true,
        RawGeometry::MultiPoint(ps) => check_points(ps),
        RawGeometry::LineString(ps) => ps.len() >= 2,
        RawGeometry::MultiLineString(ls) => check_paths(ls),
        RawGeometry::Polygon(rs) => check_paths(rs),
        RawGeometry::MultiPolygon(ps) => check_polygons(ps),
        RawGeometry::GeometryCollection(_) => false,
    }
}

/// Decides `elements_ok`.
pub fn check_elements(gs: &Vec<RawGeometry>) -> (r: bool)
    ensures
        r == elements_ok(gs@),
{
    if gs.len() == 0 {
        return false;
    }
    let mut i: usize = 0;
    while i < gs.len()
        invariant
            i <= gs@.len(),
            forall|k: int| 0 <= k < i ==> element_ok(#[trigger] gs@[k]),
        decreases gs@.len() - i,
    {
        if !check_element(&gs[i]) {
            return false;
        }
        i = i + 1;
    }
    true
}

/// Takes the supplied bounding box out of `supplied` when there is one;
/// otherwise asks `derive` for one from the geometry. `derive` is called only
/// when nothing was supplied.
pub fn resolve_bbox<G, B, F: FnOnce(&G) -> Option<B>>(
    supplied: &mut Option<B>,
    geometry: &G,
    derive: F,
) -> (r: Option<B>)
    requires
        derive.requires((geometry,)),
    ensures
        *final(supplied) == None::<B>,
        old(supplied).is_some() ==> r == *old(supplied),
        old(supplied).is_none() ==> derive.ensures((geometry,), r),
{
    match supplied.take() {
        Some(b) => Some(b),
        None => derive(geometry),
    }
}

} // verus!

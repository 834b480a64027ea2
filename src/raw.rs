//! Raw features as they come from the interchange format, and the errors of
//! their conversion into typed features.
use vstd::prelude::*;
use geojson::feature::Id;
use geojson::Position;

verus! {

#[verifier::external_type_specification]
#[verifier::external_body]
pub struct ExPosition(geojson::Position);

#[verifier::external_type_specification]
#[verifier::external_body]
pub struct ExId(geojson::feature::Id);

#[verifier::external_type_specification]
#[verifier::external_body]
pub struct ExJsonValue(serde_json::Value);

#[verifier::external_type_specification]
#[verifier::external_body]
#[verifier::reject_recursive_types(K)]
#[verifier::reject_recursive_types(V)]
pub struct ExJsonMap<K, V>(serde_json::Map<K, V>);

/// An open attribute map, carried through unexamined.
pub type JsonObject = serde_json::Map<String, serde_json::Value>;

/// How many numbers a position holds.
pub uninterp spec fn coordinate_count(p: Position) -> nat;

/// Relies on `geojson::Position::len`: the number of coordinates stored in the position.
pub assume_specification[ geojson::Position::len ](p: &geojson::Position) -> (r: usize)
    ensures
        r == coordinate_count(*p),
;

/// Relies on the `Clone` impl that `geojson::feature::Id` derives: the copy is
/// the same string or number.
pub assume_specification[ <geojson::feature::Id as Clone>::clone ](id: &geojson::feature::Id) -> (r: geojson::feature::Id)
    ensures
        r == *id,
;

/// The tagged geometry of a raw feature: one case per kind of geometry.
pub enum RawGeometry {
    Point(Position),
    MultiPoint(Vec<Position>),
    LineString(Vec<Position>),
    MultiLineString(Vec<Vec<Position>>),
    Polygon(Vec<Vec<Position>>),
    MultiPolygon(Vec<Vec<Vec<Position>>>),
    GeometryCollection(Vec<RawGeometry>),
}

/// A feature as received: every part is optional. `B` is the bounding box.
pub struct RawFeature<B> {
    pub bbox: Option<B>,
    pub geometry: Option<RawGeometry>,
    pub id: Option<Id>,
    pub properties: Option<JsonObject>,
    pub foreign_members: Option<JsonObject>,
}

/// Why a raw feature could not become a typed feature.
pub enum GeoJsonConversionError {
    /// The feature has no geometry; carries the feature's identifier.
    MissingGeometry(Option<Id>),
    /// The geometry is of a kind that the requested typed feature does not take.
    IncorrectGeometryValue(String),
    /// The geometry has the right kind but an empty or degenerate part; carries
    /// the feature's identifier.
    MalformedGeometry(Option<Id>),
}

/// A copy of an optional identifier.
pub fn clone_id(id: &Option<Id>) -> (r: Option<Id>)
    ensures
        r == *id,
{
    match id {
        Some(i) => Some(i.clone()),
        None => None,
    }
}

} // verus!

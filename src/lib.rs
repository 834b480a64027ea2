//! Typed geographic features whose geometry has been checked, ready to be
//! stored in a bounding-box tree.
//!
//! A raw feature carries a tagged geometry, an optional identifier, optional
//! attribute maps and an optional bounding box. Each typed feature takes the
//! geometry of one kind, checks its structure, keeps the supplied bounding box
//! or derives one, and can be turned back into a raw feature.
//!
//! Coordinates are carried as `geojson::Position` values and never read here,
//! except for how many numbers each one holds. The bounding box type `B` is
//! chosen by the caller and only carried.
use vstd::prelude::*;

pub mod raw;
pub mod structure;
pub mod multilinestring_feature;
pub mod multipolygon_feature;
pub mod point_feature;
pub mod multipoint_feature;
pub mod linestring_feature;
pub mod polygon_feature;
pub mod geometry_collection_feature;

pub use raw::{GeoJsonConversionError, JsonObject, RawFeature, RawGeometry};
pub use multilinestring_feature::MultiLineStringFeature;
pub use multipolygon_feature::MultiPolygonFeature;
pub use point_feature::PointFeature;
pub use multipoint_feature::MultiPointFeature;
pub use linestring_feature::LineStringFeature;
pub use polygon_feature::PolygonFeature;
pub use geometry_collection_feature::GeometryCollectionFeature;

verus! {

} // verus!

use geo::{BoundingRect, Distance, Euclidean};
use geojson::{Bbox, Feature, GeoJson, GeometryValue, Position};
use geojson_rstar::structure::check_position;
use geojson_rstar::{
    GeoJsonConversionError, GeometryCollectionFeature, LineStringFeature, MultiLineStringFeature,
    MultiPointFeature, MultiPolygonFeature, PointFeature, PolygonFeature, RawFeature, RawGeometry,
};
use rstar::{PointDistance, RTree, RTreeObject, AABB};

fn raw_geometry(value: GeometryValue) -> RawGeometry {
    match value {
        GeometryValue::Point { coordinates } => RawGeometry::Point(coordinates),
        GeometryValue::MultiPoint { coordinates } => RawGeometry::MultiPoint(coordinates),
        GeometryValue::LineString { coordinates } => RawGeometry::LineString(coordinates),
        GeometryValue::MultiLineString { coordinates } => RawGeometry::MultiLineString(coordinates),
        GeometryValue::Polygon { coordinates } => RawGeometry::Polygon(coordinates),
        GeometryValue::MultiPolygon { coordinates } => RawGeometry::MultiPolygon(coordinates),
        GeometryValue::GeometryCollection { geometries } => RawGeometry::GeometryCollection(
            geometries.into_iter().map(|g| raw_geometry(g.value)).collect(),
        ),
    }
}

fn raw_feature(feature: Feature) -> RawFeature<Bbox> {
    RawFeature {
        bbox: feature.bbox,
        geometry: feature.geometry.map(|g| raw_geometry(g.value)),
        id: feature.id,
        properties: feature.properties,
        foreign_members: feature.foreign_members,
    }
}

fn coord(p: &Position) -> geo::Coord<f64> {
    geo::Coord { x: p[0], y: p[1] }
}

fn readable(ps: &[Position]) -> bool {
    ps.iter().all(|p| p.len() >= 2)
}

fn geo_line(ps: &[Position]) -> geo::LineString<f64> {
    geo::LineString(ps.iter().map(coord).collect())
}

fn geo_multi_point(ps: &[Position]) -> geo::MultiPoint<f64> {
    geo::MultiPoint(ps.iter().map(|p| geo::Point(coord(p))).collect())
}

fn geo_multi_line(ls: &[Vec<Position>]) -> geo::MultiLineString<f64> {
    geo::MultiLineString(ls.iter().map(|l| geo_line(l)).collect())
}

fn geo_polygon(rs: &[Vec<Position>]) -> geo::Polygon<f64> {
    geo::Polygon::new(geo_line(&rs[0]), rs[1..].iter().map(|r| geo_line(r)).collect())
}

fn geo_multi_polygon(ps: &[Vec<Vec<Position>>]) -> geo::MultiPolygon<f64> {
    geo::MultiPolygon(ps.iter().map(|p| geo_polygon(p)).collect())
}

fn geo_geometry(g: &RawGeometry) -> geo::Geometry<f64> {
    match g {
        RawGeometry::Point(p) => geo::Geometry::Point(geo::Point(coord(p))),
        RawGeometry::MultiPoint(ps) => geo::Geometry::MultiPoint(geo_multi_point(ps)),
        RawGeometry::LineString(ps) => geo::Geometry::LineString(geo_line(ps)),
        RawGeometry::MultiLineString(ls) => geo::Geometry::MultiLineString(geo_multi_line(ls)),
        RawGeometry::Polygon(rs) => geo::Geometry::Polygon(geo_polygon(rs)),
        RawGeometry::MultiPolygon(ps) => geo::Geometry::MultiPolygon(geo_multi_polygon(ps)),
        RawGeometry::GeometryCollection(gs) => geo::Geometry::GeometryCollection(geo_collection(gs)),
    }
}

fn geo_collection(gs: &[RawGeometry]) -> geo::GeometryCollection<f64> {
    geo::GeometryCollection(gs.iter().map(geo_geometry).collect())
}

fn bbox_of(rect: Option<geo::Rect<f64>>) -> Option<Bbox> {
    rect.map(|r| vec![r.min().x, r.min().y, r.max().x, r.max().y])
}

fn multi_line_string(f: Feature) -> Result<MultiLineStringFeature<Bbox>, GeoJsonConversionError> {
    MultiLineStringFeature::try_from(raw_feature(f), |ls: &Vec<Vec<Position>>| {
        if !ls.iter().all(|l| readable(l)) {
            return None;
        }
        bbox_of(geo_multi_line(ls).bounding_rect())
    })
}

fn multi_polygon(f: Feature) -> Result<MultiPolygonFeature<Bbox>, GeoJsonConversionError> {
    MultiPolygonFeature::try_from(raw_feature(f), |ps: &Vec<Vec<Vec<Position>>>| {
        if !ps.iter().all(|p| p.iter().all(|r| readable(r))) {
            return None;
        }
        bbox_of(geo_multi_polygon(ps).bounding_rect())
    })
}

fn multi_point(f: Feature) -> Result<MultiPointFeature<Bbox>, GeoJsonConversionError> {
    MultiPointFeature::try_from(raw_feature(f), |ps: &Vec<Position>| {
        bbox_of(geo_multi_point(ps).bounding_rect())
    })
}

fn geometry_collection(f: Feature) -> Result<GeometryCollectionFeature<Bbox>, GeoJsonConversionError> {
    GeometryCollectionFeature::try_from(raw_feature(f), |gs: &Vec<RawGeometry>| {
        bbox_of(geo_collection(gs).bounding_rect())
    })
}

fn parse_feature(s: &str) -> Feature {
    match s.parse::<GeoJson>().expect("The geojson did not correctly parse") {
        GeoJson::Feature(f) => f,
        _ => panic!("The geojson did not parse as a Feature"),
    }
}

fn parse_features(s: &str) -> Vec<Feature> {
    match s.parse::<GeoJson>() {
        Ok(GeoJson::FeatureCollection(c)) => c.features,
        _ => panic!("The geojson did not parse correctly"),
    }
}

trait Shape {
    fn stored_bbox(&self) -> &Bbox;
    fn distance_to(&self, p: &geo::Point<f64>) -> f64;
}

impl Shape for MultiPointFeature<Bbox> {
    fn stored_bbox(&self) -> &Bbox {
        self.bbox()
    }
    fn distance_to(&self, p: &geo::Point<f64>) -> f64 {
        Euclidean.distance(&geo_multi_point(self.points()), p)
    }
}

impl Shape for MultiLineStringFeature<Bbox> {
    fn stored_bbox(&self) -> &Bbox {
        self.bbox()
    }
    fn distance_to(&self, p: &geo::Point<f64>) -> f64 {
        Euclidean.distance(&geo_multi_line(self.lines()), p)
    }
}

impl Shape for MultiPolygonFeature<Bbox> {
    fn stored_bbox(&self) -> &Bbox {
        self.bbox()
    }
    fn distance_to(&self, p: &geo::Point<f64>) -> f64 {
        Euclidean.distance(&geo_multi_polygon(self.polygons()), p)
    }
}

struct Indexed<T>(T);

impl<T: Shape> RTreeObject for Indexed<T> {
    type Envelope = AABB<[f64; 2]>;
    fn envelope(&self) -> Self::Envelope {
        let b = self.0.stored_bbox();
        AABB::from_corners([b[0], b[1]], [b[2], b[3]])
    }
}

impl<T: Shape> PointDistance for Indexed<T> {
    fn distance_2(&self, point: &[f64; 2]) -> f64 {
        let p: geo::Point<f64> = (*point).into();
        self.0.distance_to(&p).powi(2)
    }
}

fn name_of(props: &Option<geojson::JsonObject>) -> Option<&serde_json::Value> {
    props.as_ref().unwrap().get("NAME")
}

#[test]
fn test_try_into_geometry_collection_success() {
    let gc_geojson = r#"{
        "type": "Feature",
        "properties": {},
        "geometry": {
            "type": "GeometryCollection",
            "geometries": [
                { "type": "Point", "coordinates": [1.0, 2.0] },
                { "type": "LineString", "coordinates": [ [0.0, 0.0], [3.0, 1.0] ] }
            ]
        }
    }"#;
    let gc_feature = geometry_collection(parse_feature(gc_geojson));
    assert!(gc_feature.is_ok(), "GeometryCollectionFeature conversion succeeds");
}

#[test]
fn test_try_into_geometry_collection_success_and_bbox() {
    let gc_geojson = r#"{
        "type": "Feature",
        "properties": { "NAME": "GC-A" },
        "geometry": {
            "type": "GeometryCollection",
            "geometries": [
                { "type": "Point", "coordinates": [1.0, 2.0] },
                { "type": "LineString", "coordinates": [ [0.0, 0.0], [3.0, 1.0] ] },
                { "type": "Polygon", "coordinates": [ [ [2.0, 2.0], [4.0, 2.0], [4.0, 4.0], [2.0, 4.0], [2.0, 2.0] ] ] }
            ]
        }
    }"#;
    let gc_feature = geometry_collection(parse_feature(gc_geojson))
        .ok()
        .expect("GeometryCollectionFeature conversion should succeed");
    assert_eq!(geo_collection(gc_feature.geometries()).0.is_empty(), false);
    assert_eq!(gc_feature.geometries().len() > 0, true);
    assert_eq!(gc_feature.bbox(), &vec![0.0, 0.0, 4.0, 4.0]);
}

#[test]
fn test_try_into_multilinestring_feature_success() {
    let geojson_string = r#"{ "type": "Feature", "properties": { "NAME": "MLS-A" }, "geometry": { "type": "MultiLineString", "coordinates": [ [ [0.0, 0.0], [1.0, 1.0] ], [ [1.0, 0.0], [2.0, 1.0] ] ] } }"#;
    let feature = multi_line_string(parse_feature(geojson_string));
    assert!(feature.is_ok(), "MultiLineStringFeature converts from MultiLineString geometry");
}

#[test]
fn test_multilinestring_nearest_neighbor() {
    let json = r#"{
"type": "FeatureCollection",
"features": [
  { "type": "Feature", "properties": { "NAME": "MLS-A" }, "geometry": { "type": "MultiLineString", "coordinates": [ [ [0.0, 0.0], [1.0, 1.0] ], [ [1.0, 0.0], [2.0, 1.0] ] ] } },
  { "type": "Feature", "properties": { "NAME": "MLS-B" }, "geometry": { "type": "MultiLineString", "coordinates": [ [ [10.0, 10.0], [11.0, 10.0] ], [ [10.5, 10.5], [11.5, 10.5] ] ] } }
]
}"#;
    let features = parse_features(json)
        .into_iter()
        .map(|f| multi_line_string(f).map(Indexed))
        .collect::<Result<Vec<_>, _>>()
        .ok()
        .expect("The features were correctly converted");
    let tree = RTree::bulk_load(features);
    let nearest = tree.nearest_neighbor([0.5, 0.5]).expect("There is a nearest neighbor");
    assert_eq!(
        name_of(&nearest.0.properties),
        Some(&serde_json::Value::String("MLS-A".into()))
    );
}

#[test]
fn test_multilinestring_rejects_empty_or_malformed() {
    let empty = r#"{ "type": "Feature", "properties": {}, "geometry": { "type": "MultiLineString", "coordinates": [] } }"#;
    let res = multi_line_string(parse_feature(empty));
    assert!(res.is_err(), "Empty MultiLineString should be malformed");
}

#[test]
fn test_try_into_multipoint_feature_success() {
    let geojson_string = r#"{
        "type": "Feature",
        "properties": {"NAME": "ClusterA"},
        "geometry": {
            "type": "MultiPoint",
            "coordinates": [ [0.0, 0.0], [1.0, 1.0] ]
        }
    }"#;
    let feature = multi_point(parse_feature(geojson_string));
    assert!(feature.is_ok(), "MultiPointFeature converts from MultiPoint geometry");
}

#[test]
fn test_multipoint_nearest_neighbor() {
    let multipoints_geojson = r#"{
"type": "FeatureCollection",
"features": [
  { "type": "Feature", "properties": { "NAME": "ClusterA" }, "geometry": { "type": "MultiPoint", "coordinates": [ [0.0, 0.0], [1.0, 1.0] ] } },
  { "type": "Feature", "properties": { "NAME": "ClusterB" }, "geometry": { "type": "MultiPoint", "coordinates": [ [10.0, 10.0], [11.0, 11.0] ] } }
]
}"#;
    let features = parse_features(multipoints_geojson)
        .into_iter()
        .map(|f| multi_point(f).map(Indexed))
        .collect::<Result<Vec<_>, _>>()
        .ok()
        .expect("The features were correctly converted as MultiPointFeatures");
    let r_tree = RTree::bulk_load(features);
    let nearest = r_tree
        .nearest_neighbor([0.5, 0.5])
        .expect("There is a nearest MultiPointFeature in the RTree");
    assert_eq!(
        name_of(&nearest.0.properties),
        Some(serde_json::Value::String("ClusterA".to_string())).as_ref()
    );
}

#[test]
fn test_multipoint_rejects_empty_or_malformed() {
    let empty = r#"{ "type": "Feature", "properties": {}, "geometry": { "type": "MultiPoint", "coordinates": [] } }"#;
    let res = multi_point(parse_feature(empty));
    assert!(res.is_err(), "Empty MultiPoint should be malformed");

    let malformed = r#"{ "type": "Feature", "properties": {}, "geometry": { "type": "MultiPoint", "coordinates": [[0,0,0]] } }"#;
    let res = multi_point(parse_feature(malformed));
    assert!(res.is_err(), "Malformed MultiPoint should be rejected");
}

#[test]
fn test_try_into_multipolygon_feature_success() {
    let geojson_string = r#"{ "type": "Feature", "properties": { "NAME": "MP-A" }, "geometry": { "type": "MultiPolygon", "coordinates": [ [ [ [0.0, 0.0], [2.0, 0.0], [2.0, 2.0], [0.0, 2.0], [0.0, 0.0] ] ] ] } }"#;
    let feature = multi_polygon(parse_feature(geojson_string));
    assert!(feature.is_ok(), "MultiPolygonFeature converts from MultiPolygon geometry");
}

#[test]
fn test_multipolygon_nearest_neighbor() {
    let json = r#"{
"type": "FeatureCollection",
"features": [
  { "type": "Feature", "properties": { "NAME": "MP-A" }, "geometry": { "type": "MultiPolygon", "coordinates": [ [ [ [0.0, 0.0], [2.0, 0.0], [2.0, 2.0], [0.0, 2.0], [0.0, 0.0] ] ] ] } },
  { "type": "Feature", "properties": { "NAME": "MP-B" }, "geometry": { "type": "MultiPolygon", "coordinates": [ [ [ [10.0, 10.0], [12.0, 10.0], [12.0, 12.0], [10.0, 12.0], [10.0, 10.0] ] ] ] } }
]
}"#;
    let features = parse_features(json)
        .into_iter()
        .map(|f| multi_polygon(f).map(Indexed))
        .collect::<Result<Vec<_>, _>>()
        .ok()
        .expect("The features were correctly converted");
    let tree = RTree::bulk_load(features);
    let nearest = tree.nearest_neighbor([0.5, 0.5]).expect("There is a nearest neighbor");
    assert_eq!(
        name_of(&nearest.0.properties),
        Some(&serde_json::Value::String("MP-A".into()))
    );
}

#[test]
fn polygon_tag_is_taken_as_multipolygon() {
    let s = r#"{ "type": "Feature", "properties": {}, "geometry": { "type": "Polygon", "coordinates": [ [ [0,0], [2,0], [2,2], [0,2], [0,0] ] ] } }"#;
    let f = multi_polygon(parse_feature(s)).ok().expect("a bare polygon is accepted");
    assert_eq!(f.polygons().len(), 1);
    assert_eq!(f.polygons()[0].len(), 1);
    assert_eq!(f.polygons()[0][0].len(), 5);
    assert_eq!(f.bbox(), &vec![0.0, 0.0, 2.0, 2.0]);
}

#[test]
fn point_tag_is_refused_by_multilinestring() {
    let s = r#"{ "type": "Feature", "properties": {}, "geometry": { "type": "Point", "coordinates": [1.0, 2.0] } }"#;
    let r = multi_line_string(parse_feature(s));
    assert!(matches!(r, Err(GeoJsonConversionError::IncorrectGeometryValue(_))));
}

#[test]
fn supplied_bbox_is_kept() {
    let s = r#"{ "type": "Feature", "bbox": [-100.0, -100.0, 100.0, 100.0], "properties": {}, "geometry": { "type": "MultiLineString", "coordinates": [ [ [0.0, 0.0], [1.0, 1.0] ] ] } }"#;
    let f = multi_line_string(parse_feature(s)).ok().expect("converts");
    assert_eq!(f.bbox(), &vec![-100.0, -100.0, 100.0, 100.0]);
}

#[test]
fn derived_bbox_spans_all_positions() {
    let s = r#"{ "type": "Feature", "properties": {}, "geometry": { "type": "MultiLineString", "coordinates": [ [ [0.0, 0.0], [1.0, 1.0] ], [ [1.0, -3.0], [2.0, 1.0] ] ] } }"#;
    let f = multi_line_string(parse_feature(s)).ok().expect("converts");
    assert_eq!(f.bbox(), &vec![0.0, -3.0, 2.0, 1.0]);
}

#[test]
fn round_trip_keeps_every_part() {
    let s = r#"{ "type": "Feature", "id": "mls-7", "properties": { "NAME": "MLS-A" }, "extra": 5, "geometry": { "type": "MultiLineString", "coordinates": [ [ [0.0, 0.0], [1.0, 1.0] ], [ [1.0, 0.0], [2.0, 1.0] ] ] } }"#;
    let first = multi_line_string(parse_feature(s)).ok().expect("converts");
    let lines: Vec<Vec<Position>> = first.lines().to_vec();
    let bbox = first.bbox().clone();
    let props = first.properties.clone();
    let foreign = first.foreign_members.clone();
    let raw = first.into_feature();
    assert_eq!(raw.bbox, Some(bbox.clone()));
    let second = MultiLineStringFeature::try_from(raw, |_: &Vec<Vec<Position>>| -> Option<Bbox> {
        panic!("a stored bbox is never derived again")
    })
    .ok()
    .expect("converts again");
    assert_eq!(second.lines(), &lines[..]);
    assert_eq!(second.bbox(), &bbox);
    assert_eq!(second.id, Some(geojson::feature::Id::String("mls-7".to_string())));
    assert_eq!(second.properties, props);
    assert_eq!(second.foreign_members, foreign);
    assert!(second.foreign_members.is_some());
}

#[test]
fn missing_geometry_names_the_feature() {
    let s = r#"{ "type": "Feature", "id": 12, "properties": {}, "geometry": null }"#;
    let r = multi_polygon(parse_feature(s));
    match r {
        Err(GeoJsonConversionError::MissingGeometry(Some(geojson::feature::Id::Number(n)))) => {
            assert_eq!(n.as_u64(), Some(12))
        }
        _ => panic!("expected a missing geometry"),
    }
}

fn bare(g: RawGeometry) -> RawFeature<Bbox> {
    RawFeature { bbox: None, geometry: Some(g), id: None, properties: None, foreign_members: None }
}

fn pair(x: f64, y: f64) -> Position {
    Position::from([x, y])
}

fn unit_bbox<G>(_: &G) -> Option<Bbox> {
    Some(vec![0.0, 0.0, 1.0, 1.0])
}

#[test]
fn empty_nested_parts_are_malformed() {
    let mls = RawGeometry::MultiLineString(vec![vec![pair(0.0, 0.0), pair(1.0, 1.0)], vec![]]);
    assert!(matches!(
        MultiLineStringFeature::try_from(bare(mls), unit_bbox),
        Err(GeoJsonConversionError::MalformedGeometry(None))
    ));
    let mp_empty = RawGeometry::MultiPolygon(vec![]);
    assert!(matches!(
        MultiPolygonFeature::try_from(bare(mp_empty), unit_bbox),
        Err(GeoJsonConversionError::MalformedGeometry(None))
    ));
    let mp_ring = RawGeometry::MultiPolygon(vec![vec![vec![pair(0.0, 0.0), pair(1.0, 0.0), pair(0.0, 0.0)], vec![]]]);
    assert!(matches!(
        MultiPolygonFeature::try_from(bare(mp_ring), unit_bbox),
        Err(GeoJsonConversionError::MalformedGeometry(None))
    ));
    let mp_polygon = RawGeometry::MultiPolygon(vec![vec![]]);
    assert!(matches!(
        MultiPolygonFeature::try_from(bare(mp_polygon), unit_bbox),
        Err(GeoJsonConversionError::MalformedGeometry(None))
    ));
    let gc_empty = RawGeometry::GeometryCollection(vec![]);
    assert!(matches!(
        GeometryCollectionFeature::try_from(bare(gc_empty), unit_bbox),
        Err(GeoJsonConversionError::MalformedGeometry(None))
    ));
    let gc_member = RawGeometry::GeometryCollection(vec![
        RawGeometry::Point(pair(1.0, 2.0)),
        RawGeometry::MultiPoint(vec![]),
    ]);
    assert!(matches!(
        GeometryCollectionFeature::try_from(bare(gc_member), unit_bbox),
        Err(GeoJsonConversionError::MalformedGeometry(None))
    ));
    let polygon_ring = RawGeometry::Polygon(vec![vec![]]);
    assert!(matches!(
        PolygonFeature::try_from(bare(polygon_ring), unit_bbox),
        Err(GeoJsonConversionError::MalformedGeometry(None))
    ));
    let polygon_none = RawGeometry::Polygon(vec![]);
    assert!(matches!(
        PolygonFeature::try_from(bare(polygon_none), unit_bbox),
        Err(GeoJsonConversionError::MalformedGeometry(None))
    ));
}

#[test]
fn single_variants_follow_their_rules() {
    let no_bbox = |_: &Vec<Position>| -> Option<Bbox> { Some(vec![0.0, 0.0, 1.0, 1.0]) };
    let short = raw_feature(parse_feature(
        r#"{ "type": "Feature", "properties": {}, "geometry": { "type": "LineString", "coordinates": [ [0.0, 0.0] ] } }"#,
    ));
    assert!(matches!(
        LineStringFeature::try_from(short, no_bbox),
        Err(GeoJsonConversionError::MalformedGeometry(None))
    ));
    let line = raw_feature(parse_feature(
        r#"{ "type": "Feature", "properties": {}, "geometry": { "type": "LineString", "coordinates": [ [0.0, 0.0], [1.0, 1.0] ] } }"#,
    ));
    assert_eq!(LineStringFeature::try_from(line, no_bbox).ok().expect("converts").points().len(), 2);
    let square = bare(RawGeometry::Polygon(vec![vec![pair(0.0, 0.0), pair(1.0, 0.0), pair(1.0, 1.0), pair(0.0, 0.0)]]));
    assert_eq!(PolygonFeature::try_from(square, unit_bbox).ok().expect("converts").rings().len(), 1);
    let point = raw_feature(parse_feature(
        r#"{ "type": "Feature", "properties": {}, "geometry": { "type": "Point", "coordinates": [3.0, 4.0] } }"#,
    ));
    let p = PointFeature::try_from(point, |p: &Position| Some(vec![p[0], p[1], p[0], p[1]]))
        .ok()
        .expect("converts");
    assert_eq!(p.bbox(), &vec![3.0, 4.0, 3.0, 4.0]);
    let polygon_as_point = raw_feature(parse_feature(
        r#"{ "type": "Feature", "properties": {}, "geometry": { "type": "Polygon", "coordinates": [ [ [0,0], [1,0], [0,0] ] ] } }"#,
    ));
    assert!(matches!(
        PointFeature::try_from(polygon_as_point, |_: &Position| None),
        Err(GeoJsonConversionError::IncorrectGeometryValue(_))
    ));
}

#[test]
fn failed_derivation_is_malformed() {
    let s = r#"{ "type": "Feature", "properties": {}, "geometry": { "type": "MultiPoint", "coordinates": [ [0.0, 0.0] ] } }"#;
    let r = MultiPointFeature::try_from(raw_feature(parse_feature(s)), |_: &Vec<Position>| None);
    assert!(matches!(r, Err(GeoJsonConversionError::MalformedGeometry(None))));
}

#[test]
fn nested_collection_is_malformed() {
    let s = r#"{ "type": "Feature", "properties": {}, "geometry": { "type": "GeometryCollection", "geometries": [ { "type": "GeometryCollection", "geometries": [ { "type": "Point", "coordinates": [1.0, 2.0] } ] } ] } }"#;
    assert!(matches!(
        geometry_collection(parse_feature(s)),
        Err(GeoJsonConversionError::MalformedGeometry(None))
    ));
}

#[test]
fn position_arity_is_counted() {
    assert!(check_position(&Position::from([1.0, 2.0])));
    assert!(!check_position(&Position::from([1.0, 2.0, 3.0])));
    assert!(!check_position(&Position::from(vec![1.0])));
}

#[test]
fn distance_is_smallest_over_members() {
    let s = r#"{ "type": "Feature", "properties": {}, "geometry": { "type": "MultiLineString", "coordinates": [ [ [0.0, 0.0], [1.0, 1.0] ], [ [1.0, 0.0], [2.0, 1.0] ] ] } }"#;
    let f = Indexed(multi_line_string(parse_feature(s)).ok().expect("converts"));
    assert_eq!(f.distance_2(&[1.5, 0.5]), 0.0);
    assert!((f.distance_2(&[3.0, 1.0]) - 1.0).abs() < 1e-12);
    assert!((f.distance_2(&[0.0, 1.0]) - 0.5).abs() < 1e-12);
}

#[test]
fn three_dimensional_positions_are_accepted() {
    let mls = r#"{ "type": "Feature", "properties": {}, "geometry": { "type": "MultiLineString", "coordinates": [ [ [0.0, 0.0, 5.0], [1.0, 1.0, 6.0] ], [ [1.0, 0.0, 7.0], [2.0, 1.0, 8.0] ] ] } }"#;
    let f = multi_line_string(parse_feature(mls)).ok().expect("altitude is allowed");
    assert_eq!(f.bbox(), &vec![0.0, 0.0, 2.0, 1.0]);
    assert_eq!(f.lines()[0][0].len(), 3);

    let mls_supplied = r#"{ "type": "Feature", "bbox": [0.0, 0.0, 5.0, 1.0, 1.0, 6.0], "properties": {}, "geometry": { "type": "MultiLineString", "coordinates": [ [ [0.0, 0.0, 5.0], [1.0, 1.0, 6.0] ] ] } }"#;
    let f = multi_line_string(parse_feature(mls_supplied)).ok().expect("altitude is allowed");
    assert_eq!(f.bbox(), &vec![0.0, 0.0, 5.0, 1.0, 1.0, 6.0]);

    let mp = r#"{ "type": "Feature", "properties": {}, "geometry": { "type": "MultiPolygon", "coordinates": [ [ [ [0.0, 0.0, 1.0], [2.0, 0.0, 1.0], [2.0, 2.0, 1.0], [0.0, 0.0, 1.0] ] ] ] } }"#;
    let f = multi_polygon(parse_feature(mp)).ok().expect("altitude is allowed");
    assert_eq!(f.bbox(), &vec![0.0, 0.0, 2.0, 2.0]);

    let point = bare(RawGeometry::Point(Position::from([3.0, 4.0, 5.0])));
    assert!(PointFeature::try_from(point, unit_bbox).is_ok());
    let line = bare(RawGeometry::LineString(vec![Position::from([0.0, 0.0, 1.0]), Position::from([1.0, 1.0, 1.0])]));
    assert!(LineStringFeature::try_from(line, unit_bbox).is_ok());
    let polygon = bare(RawGeometry::Polygon(vec![vec![Position::from([0.0, 0.0, 1.0])]]));
    assert!(PolygonFeature::try_from(polygon, unit_bbox).is_ok());
    let gc = bare(RawGeometry::GeometryCollection(vec![RawGeometry::Point(Position::from([1.0, 2.0, 3.0]))]));
    assert!(GeometryCollectionFeature::try_from(gc, unit_bbox).is_ok());
}

#[test]
fn unreadable_position_is_left_to_the_derivation() {
    let short = RawGeometry::MultiLineString(vec![vec![Position::from(vec![1.0]), pair(2.0, 2.0)]]);
    let derived = MultiLineStringFeature::try_from(bare(short), |ls: &Vec<Vec<Position>>| {
        if !ls.iter().all(|l| readable(l)) {
            return None;
        }
        bbox_of(geo_multi_line(ls).bounding_rect())
    });
    assert!(matches!(derived, Err(GeoJsonConversionError::MalformedGeometry(None))));

    let short = RawGeometry::MultiLineString(vec![vec![Position::from(vec![1.0]), pair(2.0, 2.0)]]);
    let mut supplied = bare(short);
    supplied.bbox = Some(vec![1.0, 1.0, 2.0, 2.0]);
    let f = MultiLineStringFeature::try_from(supplied, unit_bbox).ok().expect("structure is fine");
    assert_eq!(f.bbox(), &vec![1.0, 1.0, 2.0, 2.0]);
}

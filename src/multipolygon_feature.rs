//! `MultiPolygonFeature`: a feature whose geometry is a list of polygons.
use vstd::prelude::*;
use geojson::feature::Id;
use geojson::Position;
use crate::raw::{clone_id, GeoJsonConversionError, JsonObject, RawFeature, RawGeometry};
use crate::structure::{check_polygons, polygons_ok, resolve_bbox};

verus! {

/// A feature holding a non-empty list of polygons, each a non-empty list of
/// non-empty rings, together with its bounding
/// box `B` and the identifier and attribute maps of the feature it came from.
pub struct MultiPolygonFeature<B> {
    bbox: B,
    polygons: Vec<Vec<Vec<Position>>>,
    pub id: Option<Id>,
    pub properties: Option<JsonObject>,
    pub foreign_members: Option<JsonObject>,
}

impl<B> MultiPolygonFeature<B> {
    /// The stored bounding box.
    pub closed spec fn bbox_spec(&self) -> B {
        self.bbox
    }

    /// The stored polygons.
    pub closed spec fn polygons_spec(&self) -> Vec<Vec<Vec<Position>>> {
        self.polygons
    }

    /// The identifier.
    pub closed spec fn id_spec(&self) -> Option<Id> {
        self.id
    }

    /// The attribute map.
    pub closed spec fn properties_spec(&self) -> Option<JsonObject> {
        self.properties
    }

    /// The passthrough map.
    pub closed spec fn foreign_members_spec(&self) -> Option<JsonObject> {
        self.foreign_members
    }

    /// Every conversion leaves the polygons well-formed.
    pub open spec fn wf(&self) -> bool {
        polygons_ok(self.polygons_spec()@)
    }

    /// `self` holds `bbox`, `polygons`, and the identifier and maps of `feature`.
    pub open spec fn assembled_from(&self, feature: RawFeature<B>, bbox: B, polygons: Vec<Vec<Vec<Position>>>) -> bool {
        &&& self.bbox_spec() == bbox
        &&& self.polygons_spec() == polygons
        &&& self.id_spec() == feature.id
        &&& self.properties_spec() == feature.properties
        &&& self.foreign_members_spec() == feature.foreign_members
    }

    /// The raw feature that `self` turns back into.
    pub open spec fn to_raw_spec(&self) -> RawFeature<B> {
        RawFeature {
            bbox: Some(self.bbox_spec()),
            geometry: Some(RawGeometry::MultiPolygon(self.polygons_spec())),
            id: self.id_spec(),
            properties: self.properties_spec(),
            foreign_members: self.foreign_members_spec(),
        }
    }

    /// The outcomes that converting `feature` with the payload `polygons` may
    /// have, where `derive` is asked for a bounding box only when the feature
    /// supplies none.
    pub open spec fn converts_payload<F: FnOnce(&Vec<Vec<Vec<Position>>>) -> Option<B>>(
        feature: RawFeature<B>,
        derive: F,
        polygons: Vec<Vec<Vec<Position>>>,
        r: Result<Self, GeoJsonConversionError>,
    ) -> bool {
        if !polygons_ok(polygons@) {
            r == Err::<Self, _>(GeoJsonConversionError::MalformedGeometry(feature.id))
        } else {
            match feature.bbox {
                Some(b) => r is Ok && r->Ok_0.assembled_from(feature, b, polygons),
                None => match r {
                    Ok(e) => derive.ensures((&polygons,), Some(e.bbox_spec()))
                        && e.assembled_from(feature, e.bbox_spec(), polygons),
                    Err(err) => derive.ensures((&polygons,), None)
                        && err == GeoJsonConversionError::MalformedGeometry(feature.id),
                },
            }
        }
    }

    /// The outcomes that converting `feature` may have. A bare polygon is
    /// taken as a multi-polygon of one.
    pub open spec fn converts<F: FnOnce(&Vec<Vec<Vec<Position>>>) -> Option<B>>(
        feature: RawFeature<B>,
        derive: F,
        r: Result<Self, GeoJsonConversionError>,
    ) -> bool {
        match feature.geometry {
            None => r == Err::<Self, _>(GeoJsonConversionError::MissingGeometry(feature.id)),
            Some(RawGeometry::MultiPolygon(polygons)) => Self::converts_payload(feature, derive, polygons, r),
            Some(RawGeometry::Polygon(rings)) => exists|polygons: Vec<Vec<Vec<Position>>>|
                polygons@ == seq![rings] && #[trigger] Self::converts_payload(feature, derive, polygons, r),
            Some(_) => r is Err && r->Err_0 is IncorrectGeometryValue,
        }
    }

    /// The polygons, each a list of rings of positions.
    pub fn polygons(&self) -> (r: &[Vec<Vec<Position>>])
        ensures
            r@ == self.polygons_spec()@,
    {
        self.polygons.as_slice()
    }

    /// The bounding box, as supplied or derived at conversion.
    pub fn bbox(&self) -> (r: &B)
        ensures
            *r == self.bbox_spec(),
    {
        &self.bbox
    }

    /// Turns the feature back into a raw one, with its bounding box set.
    pub fn into_feature(self) -> (r: RawFeature<B>)
        ensures
            r == self.to_raw_spec(),
    {
        RawFeature {
            bbox: Some(self.bbox),
            geometry: Some(RawGeometry::MultiPolygon(self.polygons)),
            id: self.id,
            properties: self.properties,
            foreign_members: self.foreign_members,
        }
    }

    /// Takes the geometry out of `feature`: a multi-polygon, or a bare polygon,
    /// which becomes a multi-polygon of one.
    pub fn take_geometry_type(feature: &mut RawFeature<B>) -> (r: Result<Vec<Vec<Vec<Position>>>, GeoJsonConversionError>)
        ensures
            final(feature).geometry is None,
            final(feature).bbox == old(feature).bbox,
            final(feature).id == old(feature).id,
            final(feature).properties == old(feature).properties,
            final(feature).foreign_members == old(feature).foreign_members,
            match old(feature).geometry {
                None => r == Err::<Vec<Vec<Vec<Position>>>, _>(GeoJsonConversionError::MissingGeometry(old(feature).id)),
                Some(RawGeometry::MultiPolygon(polygons)) => r == Ok::<_, GeoJsonConversionError>(polygons),
                Some(RawGeometry::Polygon(rings)) => r is Ok && r->Ok_0@ == seq![rings],
                Some(_) => r is Err && r->Err_0 is IncorrectGeometryValue,
            },
    {
        match feature.geometry.take() {
            None => Err(GeoJsonConversionError::MissingGeometry(clone_id(&feature.id))),
            Some(RawGeometry::MultiPolygon(polygons)) => Ok(polygons),
            Some(RawGeometry::Polygon(rings)) => Ok(vec![rings]),
            Some(_) => Err(
                GeoJsonConversionError::IncorrectGeometryValue(
                    "Error: did not find a MultiPolygon feature".to_owned(),
                ),
            ),
        }
    }

    /// Accepts a non-empty list of polygons, each a non-empty list of
    /// non-empty rings.
    pub fn check_geometry(geometry: &Vec<Vec<Vec<Position>>>, feature: &RawFeature<B>) -> (r: Result<(), GeoJsonConversionError>)
        ensures
            r is Ok <==> polygons_ok(geometry@),
            r is Err ==> r == Err::<(), _>(GeoJsonConversionError::MalformedGeometry(feature.id)),
    {
        if !check_polygons(geometry) {
            return Err(GeoJsonConversionError::MalformedGeometry(clone_id(&feature.id)));
        }
        Ok(())
    }

    /// Takes the bounding box that `feature` supplies, or else asks `derive`.
    pub fn compute_bbox<F: FnOnce(&Vec<Vec<Vec<Position>>>) -> Option<B>>(
        feature: &mut RawFeature<B>,
        geometry: &Vec<Vec<Vec<Position>>>,
        derive: F,
    ) -> (r: Option<B>)
        requires
            derive.requires((geometry,)),
        ensures
            final(feature).bbox is None,
            final(feature).geometry == old(feature).geometry,
            final(feature).id == old(feature).id,
            final(feature).properties == old(feature).properties,
            final(feature).foreign_members == old(feature).foreign_members,
            old(feature).bbox is Some ==> r == old(feature).bbox,
            old(feature).bbox is None ==> derive.ensures((geometry,), r),
    {
        resolve_bbox(&mut feature.bbox, geometry, derive)
    }

    /// Assembles the typed feature from what is left of `feature`.
    pub fn create_self(feature: RawFeature<B>, bbox: B, geometry: Vec<Vec<Vec<Position>>>) -> (r: Self)
        ensures
            r.assembled_from(feature, bbox, geometry),
    {
        MultiPolygonFeature {
            bbox,
            polygons: geometry,
            id: feature.id,
            properties: feature.properties,
            foreign_members: feature.foreign_members,
        }
    }

    /// Converts a raw feature: takes its geometry, checks it, keeps the
    /// supplied bounding box or derives one with `derive`, and moves the
    /// identifier and maps across. A derivation that yields nothing is
    /// reported as a malformed geometry.
    pub fn try_from<F: FnOnce(&Vec<Vec<Vec<Position>>>) -> Option<B>>(
        feature: RawFeature<B>,
        derive: F,
    ) -> (r: Result<Self, GeoJsonConversionError>)
        requires
            forall|g: &Vec<Vec<Vec<Position>>>| #[trigger] derive.requires((g,)),
        ensures
            Self::converts(feature, derive, r),
            r is Ok ==> r->Ok_0.wf(),
    {
        let ghost old_feature = feature;
        let mut feature = feature;
        let geometry = match Self::take_geometry_type(&mut feature) {
            Ok(g) => g,
            Err(e) => return Err(e),
        };
        let ghost payload = geometry;
        match Self::check_geometry(&geometry, &feature) {
            Ok(()) => {},
            Err(e) => {
                assert(Self::converts_payload(old_feature, derive, payload, Err(e)));
                return Err(e);
            },
        }
        let r = match Self::compute_bbox(&mut feature, &geometry, derive) {
            Some(bbox) => Ok(Self::create_self(feature, bbox, geometry)),
            None => Err(GeoJsonConversionError::MalformedGeometry(feature.id)),
        };
        assert(Self::converts_payload(old_feature, derive, payload, r));
        r
    }

    /// Turning a well-formed feature back into a raw one and converting that
    /// again gives the same feature: geometry, identifier, maps, and the
    /// bounding box itself, which is reused and never derived again.
    pub proof fn lemma_round_trip<F: FnOnce(&Vec<Vec<Vec<Position>>>) -> Option<B>>(e: Self, derive: F)
        requires
            e.wf(),
        ensures
            forall|r: Result<Self, GeoJsonConversionError>|
                Self::converts(e.to_raw_spec(), derive, r) ==> r == Ok::<Self, GeoJsonConversionError>(e),
    {
    }

    /// A raw feature that supplies a bounding box next to a well-formed
    /// geometry converts into a feature holding exactly that box.
    pub proof fn lemma_supplied_bbox_kept<F: FnOnce(&Vec<Vec<Vec<Position>>>) -> Option<B>>(
        feature: RawFeature<B>,
        derive: F,
    )
        requires
            feature.bbox is Some,
            feature.geometry matches Some(RawGeometry::MultiPolygon(polygons)) && polygons_ok(polygons@),
        ensures
            forall|r: Result<Self, GeoJsonConversionError>|
                Self::converts(feature, derive, r) ==> r is Ok && r->Ok_0.bbox_spec() == feature.bbox->Some_0,
    {
    }

    /// An empty list of polygons, an empty polygon in it, or an empty ring in
    /// one of them, is rejected as malformed.
    pub proof fn lemma_empty_rejected<F: FnOnce(&Vec<Vec<Vec<Position>>>) -> Option<B>>(
        feature: RawFeature<B>,
        derive: F,
        polygons: Vec<Vec<Vec<Position>>>,
    )
        requires
            feature.geometry == Some(RawGeometry::MultiPolygon(polygons)),
            polygons@.len() == 0
                || exists|i: int| 0 <= i < polygons@.len() && (#[trigger] polygons@[i])@.len() == 0
                || exists|i: int, j: int|
                    0 <= i < polygons@.len() && 0 <= j < polygons@[i]@.len() && (#[trigger] polygons@[i]@[j])@.len() == 0,
        ensures
            forall|r: Result<Self, GeoJsonConversionError>|
                Self::converts(feature, derive, r)
                    ==> r == Err::<Self, _>(GeoJsonConversionError::MalformedGeometry(feature.id)),
    {
    }
}

} // verus!

//! `GeometryCollectionFeature`: a feature whose geometry is a list of geometries of any kind but a collection.
use vstd::prelude::*;
use geojson::feature::Id;
use geojson::Position;
use crate::raw::{clone_id, GeoJsonConversionError, JsonObject, RawFeature, RawGeometry};
use crate::structure::{check_elements, elements_ok, resolve_bbox};

verus! {

/// A feature holding a non-empty list of geometries, each well-formed by the
/// rule of its own kind, together with its bounding box `B` and the
/// identifier and maps of the feature it came from.
pub struct GeometryCollectionFeature<B> {
    bbox: B,
    geometries: Vec<RawGeometry>,
    pub id: Option<Id>,
    pub properties: Option<JsonObject>,
    pub foreign_members: Option<JsonObject>,
}

impl<B> GeometryCollectionFeature<B> {
    /// The stored bounding box.
    pub closed spec fn bbox_spec(&self) -> B {
        self.bbox
    }

    /// The stored geometries.
    pub closed spec fn geometries_spec(&self) -> Vec<RawGeometry> {
        self.geometries
    }

    /// The identifier.
    pub closed spec fn id_spec(&self) -> Option<Id> {
        self.id
    }

    /// The attribute map.
    pub closed spec fn properties_spec(&self) -> Option<JsonObject> {
        self.properties
    }

    /// The passthrough map.
    pub closed spec fn foreign_members_spec(&self) -> Option<JsonObject> {
        self.foreign_members
    }

    /// Every conversion leaves the geometries well-formed.
    pub open spec fn wf(&self) -> bool {
        elements_ok(self.geometries_spec()@)
    }

    /// `self` holds `bbox`, `geometries`, and the identifier and maps of `feature`.
    pub open spec fn assembled_from(&self, feature: RawFeature<B>, bbox: B, geometries: Vec<RawGeometry>) -> bool {
        &&& self.bbox_spec() == bbox
        &&& self.geometries_spec() == geometries
        &&& self.id_spec() == feature.id
        &&& self.properties_spec() == feature.properties
        &&& self.foreign_members_spec() == feature.foreign_members
    }

    /// The raw feature that `self` turns back into.
    pub open spec fn to_raw_spec(&self) -> RawFeature<B> {
        RawFeature {
            bbox: Some(self.bbox_spec()),
            geometry: Some(RawGeometry::GeometryCollection(self.geometries_spec())),
            id: self.id_spec(),
            properties: self.properties_spec(),
            foreign_members: self.foreign_members_spec(),
        }
    }

    /// The outcomes that converting `feature` may have, where `derive` is asked
    /// for a bounding box only when the feature supplies none.
    pub open spec fn converts<F: FnOnce(&Vec<RawGeometry>) -> Option<B>>(
        feature: RawFeature<B>,
        derive: F,
        r: Result<Self, GeoJsonConversionError>,
    ) -> bool {
        match feature.geometry {
            None => r == Err::<Self, _>(GeoJsonConversionError::MissingGeometry(feature.id)),
            Some(RawGeometry::GeometryCollection(geometries)) => {
                if !elements_ok(geometries@) {
                    r == Err::<Self, _>(GeoJsonConversionError::MalformedGeometry(feature.id))
                } else {
                    match feature.bbox {
                        Some(b) => r is Ok && r->Ok_0.assembled_from(feature, b, geometries),
                        None => match r {
                            Ok(e) => derive.ensures((&geometries,), Some(e.bbox_spec()))
                                && e.assembled_from(feature, e.bbox_spec(), geometries),
                            Err(err) => derive.ensures((&geometries,), None)
                                && err == GeoJsonConversionError::MalformedGeometry(feature.id),
                        },
                    }
                }
            },
            Some(_) => r is Err && r->Err_0 is IncorrectGeometryValue,
        }
    }

    /// The geometries of the collection.
    pub fn geometries(&self) -> (r: &[RawGeometry])
        ensures
            r@ == self.geometries_spec()@,
    {
        self.geometries.as_slice()
    }

    /// The bounding box, as supplied or derived at conversion.
    pub fn bbox(&self) -> (r: &B)
        ensures
            *r == self.bbox_spec(),
    {
        &self.bbox
    }

    /// Turns the feature back into a raw one, with its bounding box set.
    pub fn into_feature(self) -> (r: RawFeature<B>)
        ensures
            r == self.to_raw_spec(),
    {
        RawFeature {
            bbox: Some(self.bbox),
            geometry: Some(RawGeometry::GeometryCollection(self.geometries)),
            id: self.id,
            properties: self.properties,
            foreign_members: self.foreign_members,
        }
    }

    /// Takes the geometry out of `feature`; it must be a geometry collection.
    pub fn take_geometry_type(feature: &mut RawFeature<B>) -> (r: Result<Vec<RawGeometry>, GeoJsonConversionError>)
        ensures
            final(feature).geometry is None,
            final(feature).bbox == old(feature).bbox,
            final(feature).id == old(feature).id,
            final(feature).properties == old(feature).properties,
            final(feature).foreign_members == old(feature).foreign_members,
            match old(feature).geometry {
                None => r == Err::<Vec<RawGeometry>, _>(GeoJsonConversionError::MissingGeometry(old(feature).id)),
                Some(RawGeometry::GeometryCollection(geometries)) => r == Ok::<_, GeoJsonConversionError>(geometries),
                Some(_) => r is Err && r->Err_0 is IncorrectGeometryValue,
            },
    {
        match feature.geometry.take() {
            None => Err(GeoJsonConversionError::MissingGeometry(clone_id(&feature.id))),
            Some(RawGeometry::GeometryCollection(geometries)) => Ok(geometries),
            Some(_) => Err(
                GeoJsonConversionError::IncorrectGeometryValue(
                    "Error: did not find a GeometryCollection feature".to_owned(),
                ),
            ),
        }
    }

    /// Accepts a non-empty list of geometries, each well-formed by the rule of
    /// its own kind; a nested collection is refused.
    pub fn check_geometry(geometry: &Vec<RawGeometry>, feature: &RawFeature<B>) -> (r: Result<(), GeoJsonConversionError>)
        ensures
            r is Ok <==> elements_ok(geometry@),
            r is Err ==> r == Err::<(), _>(GeoJsonConversionError::MalformedGeometry(feature.id)),
    {
        if !check_elements(geometry) {
            return Err(GeoJsonConversionError::MalformedGeometry(clone_id(&feature.id)));
        }
        Ok(())
    }

    /// Takes the bounding box that `feature` supplies, or else asks `derive`.
    pub fn compute_bbox<F: FnOnce(&Vec<RawGeometry>) -> Option<B>>(
        feature: &mut RawFeature<B>,
        geometry: &Vec<RawGeometry>,
        derive: F,
    ) -> (r: Option<B>)
        requires
            derive.requires((geometry,)),
        ensures
            final(feature).bbox is None,
            final(feature).geometry == old(feature).geometry,
            final(feature).id == old(feature).id,
            final(feature).properties == old(feature).properties,
            final(feature).foreign_members == old(feature).foreign_members,
            old(feature).bbox is Some ==> r == old(feature).bbox,
            old(feature).bbox is None ==> derive.ensures((geometry,), r),
    {
        resolve_bbox(&mut feature.bbox, geometry, derive)
    }

    /// Assembles the typed feature from what is left of `feature`.
    pub fn create_self(feature: RawFeature<B>, bbox: B, geometry: Vec<RawGeometry>) -> (r: Self)
        ensures
            r.assembled_from(feature, bbox, geometry),
    {
        GeometryCollectionFeature {
            bbox,
            geometries: geometry,
            id: feature.id,
            properties: feature.properties,
            foreign_members: feature.foreign_members,
        }
    }

    /// Converts a raw feature: takes its geometry, checks it, keeps the
    /// supplied bounding box or derives one with `derive`, and moves the
    /// identifier and maps across. A derivation that yields nothing is
    /// reported as a malformed geometry.
    pub fn try_from<F: FnOnce(&Vec<RawGeometry>) -> Option<B>>(
        feature: RawFeature<B>,
        derive: F,
    ) -> (r: Result<Self, GeoJsonConversionError>)
        requires
            forall|g: &Vec<RawGeometry>| #[trigger] derive.requires((g,)),
        ensures
            Self::converts(feature, derive, r),
            r is Ok ==> r->Ok_0.wf(),
    {
        let mut feature = feature;
        let geometry = match Self::take_geometry_type(&mut feature) {
            Ok(g) => g,
            Err(e) => return Err(e),
        };
        match Self::check_geometry(&geometry, &feature) {
            Ok(()) => {},
            Err(e) => return Err(e),
        }
        match Self::compute_bbox(&mut feature, &geometry, derive) {
            Some(bbox) => Ok(Self::create_self(feature, bbox, geometry)),
            None => Err(GeoJsonConversionError::MalformedGeometry(feature.id)),
        }
    }

    /// Turning a well-formed feature back into a raw one and converting that
    /// again gives the same feature: geometry, identifier, maps, and the
    /// bounding box itself, which is reused and never derived again.
    pub proof fn lemma_round_trip<F: FnOnce(&Vec<RawGeometry>) -> Option<B>>(e: Self, derive: F)
        requires
            e.wf(),
        ensures
            forall|r: Result<Self, GeoJsonConversionError>|
                Self::converts(e.to_raw_spec(), derive, r) ==> r == Ok::<Self, GeoJsonConversionError>(e),
    {
    }

    /// A raw feature that supplies a bounding box next to a well-formed
    /// geometry converts into a feature holding exactly that box.
    pub proof fn lemma_supplied_bbox_kept<F: FnOnce(&Vec<RawGeometry>) -> Option<B>>(
        feature: RawFeature<B>,
        derive: F,
    )
        requires
            feature.bbox is Some,
            feature.geometry matches Some(RawGeometry::GeometryCollection(geometries)) && elements_ok(geometries@),
        ensures
            forall|r: Result<Self, GeoJsonConversionError>|
                Self::converts(feature, derive, r) ==> r is Ok && r->Ok_0.bbox_spec() == feature.bbox->Some_0,
    {
    }

    /// An empty collection, or one holding an empty element, is rejected as
    /// malformed.
    pub proof fn lemma_empty_rejected<F: FnOnce(&Vec<RawGeometry>) -> Option<B>>(
        feature: RawFeature<B>,
        derive: F,
        geometries: Vec<RawGeometry>,
    )
        requires
            feature.geometry == Some(RawGeometry::GeometryCollection(geometries)),
            geometries@.len() == 0 || exists|i: int| 0 <= i < geometries@.len() && match #[trigger] geometries@[i] {
                RawGeometry::MultiPoint(ps) => ps@.len() == 0,
                RawGeometry::LineString(ps) => ps@.len() == 0,
                RawGeometry::MultiLineString(ls) => ls@.len() == 0,
                RawGeometry::Polygon(rs) => rs@.len() == 0,
                RawGeometry::MultiPolygon(ps) => ps@.len() == 0,
                _ => false,
            },
        ensures
            forall|r: Result<Self, GeoJsonConversionError>|
                Self::converts(feature, derive, r)
                    ==> r == Err::<Self, _>(GeoJsonConversionError::MalformedGeometry(feature.id)),
    {
    }
}

} // verus!

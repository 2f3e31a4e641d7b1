use vstd::prelude::*;
use crate::county::CountyView;
use crate::error::Error;
use crate::point::Point;
use crate::polygon::{closed_ring, MAX_RING_POINTS};

verus! {

/// The properties of a feature: the county's name.
#[derive(Debug)]
pub struct Properties {
    pub navn: String,
}

/// The geometry of a feature: rings of positions, each position written
/// longitude first. The first ring is the exterior.
#[derive(Debug)]
pub struct Geometry {
    pub kind: String,
    pub coordinates: Vec<Vec<Vec<i32>>>,
}

/// One county as the geometry source hands it over.
#[derive(Debug)]
pub struct Feature {
    pub kind: String,
    pub properties: Properties,
    pub geometry: Geometry,
}

/// A collection of features.
#[derive(Debug)]
pub struct GeoJson {
    pub kind: String,
    pub features: Vec<Feature>,
}

impl Feature {
    /// The positions of the first ring, as the source wrote them.
    pub open spec fn source_ring(&self) -> Seq<Vec<i32>> {
        self.geometry.coordinates@[0]@
    }

    /// There is a first ring, it has three to `MAX_RING_POINTS` positions,
    /// and each position has a longitude and a latitude.
    pub open spec fn has_exterior(&self) -> bool {
        &&& self.geometry.coordinates@.len() > 0
        &&& 3 <= self.source_ring().len() <= MAX_RING_POINTS
        &&& forall|i: int|
            0 <= i < self.source_ring().len() ==> (#[trigger] self.source_ring()[i])@.len() >= 2
    }

    /// The points of the first ring, latitude first.
    pub open spec fn exterior(&self) -> Seq<Point> {
        Seq::new(
            self.source_ring().len(),
            |i: int| Point::spec_from_lon_lat(self.source_ring()[i]@[0], self.source_ring()[i]@[1]),
        )
    }

    /// Why no county can be built of the feature, if none can. A fault of
    /// the geometry is reported before a missing name.
    pub open spec fn defect(&self) -> Option<Error> {
        if !self.has_exterior() {
            Some(Error::MalformedGeometry)
        } else if self.properties.navn@.len() == 0 {
            Some(Error::MissingName)
        } else {
            None
        }
    }

    /// The county that the feature describes: its name, and its first ring
    /// reordered and closed. Further rings are not read.
    pub open spec fn county(&self) -> CountyView {
        CountyView { name: self.properties.navn@, rings: seq![closed_ring(self.exterior())] }
    }
}

impl GeoJson {
    /// Whether feature `i` is the first of which no county can be built.
    pub open spec fn is_first_defect(&self, i: int) -> bool {
        &&& 0 <= i < self.features@.len()
        &&& self.features@[i].defect() is Some
        &&& forall|j: int| 0 <= j < i ==> (#[trigger] self.features@[j]).defect() is None
    }

    /// A county can be built of every feature.
    pub open spec fn sound(&self) -> bool {
        forall|i: int| 0 <= i < self.features@.len() ==> (#[trigger] self.features@[i]).defect() is None
    }

    /// The counties that the features describe, in the order of the features.
    pub open spec fn counties(&self) -> Seq<CountyView> {
        Seq::new(self.features@.len(), |i: int| self.features@[i].county())
    }
}

} // verus!

use vstd::prelude::*;
use crate::error::Error;
use crate::geojson::Feature;
use crate::point::{Point, Record};
use crate::polygon::Polygon;

verus! {

/// A county: a name and the polygon of its boundary.
#[derive(Debug)]
pub struct County {
    name: String,
    poly: Polygon,
}

/// What a county is to its callers: its name and the rings of its polygon.
pub struct CountyView {
    pub name: Seq<char>,
    pub rings: Seq<Seq<Point>>,
}

impl View for County {
    type V = CountyView;

    closed spec fn view(&self) -> CountyView {
        CountyView { name: self.name@, rings: self.poly@ }
    }
}

impl CountyView {
    /// Whether the county's polygon contains `p`.
    pub open spec fn covers(self, p: Point) -> bool {
        crate::polygon::rings_contain(self.rings, p)
    }

    /// The county's answer for `p`: its name where it contains `p`.
    pub open spec fn resolve(self, p: Point) -> Option<Seq<char>> {
        if self.covers(p) {
            Some(self.name)
        } else {
            None
        }
    }

    /// The county's answer for a record: the record's `testid` and the
    /// county's name where the county contains the record's position.
    pub open spec fn resolve_record(self, r: Record) -> Option<(i64, Seq<char>)> {
        if self.covers(r.position()) {
            Some((r.testid, self.name))
        } else {
            None
        }
    }
}

impl County {
    /// Every county has a name.
    #[verifier::type_invariant]
    spec fn named(&self) -> bool {
        self.name@.len() > 0
    }

    /// Builds a county of a feature: the name, and the first ring of the
    /// geometry as exterior, each position reordered to latitude first.
    pub fn new(feat: &Feature) -> (res: Result<County, Error>)
        ensures
            match res {
                Ok(county) => feat.defect() is None && county@ == feat.county(),
                Err(e) => feat.defect() == Some(e),
            },
    {
        if feat.geometry.coordinates.len() == 0 {
            return Err(Error::MalformedGeometry);
        }
        let coords = &feat.geometry.coordinates[0];
        let mut points: Vec<Point> = Vec::new();
        let mut i: usize = 0;
        while i < coords.len()
            invariant
                i <= coords@.len(),
                coords@ == feat.source_ring(),
                points@.len() == i,
                forall|k: int| 0 <= k < i ==> (#[trigger] coords@[k])@.len() >= 2,
                forall|k: int|
                    0 <= k < i ==> #[trigger] points@[k] == Point::spec_from_lon_lat(
                        coords@[k]@[0],
                        coords@[k]@[1],
                    ),
            decreases coords@.len() - i,
        {
            let coord = &coords[i];
            if coord.len() < 2 {
                return Err(Error::MalformedGeometry);
            }
            points.push(Point::from_lon_lat(coord[0], coord[1]));
            i += 1;
        }
        assert(points@ == feat.exterior());
        let poly = match Polygon::new(&points) {
            Ok(poly) => poly,
            Err(e) => {
                return Err(e);
            },
        };
        if feat.properties.navn.as_str().is_empty() {
            return Err(Error::MissingName);
        }
        Ok(County { name: feat.properties.navn.clone(), poly })
    }

    /// The county's name.
    pub fn name(&self) -> (name: &str)
        ensures
            name@ == self@.name,
            name@.len() > 0,
    {
        proof {
            use_type_invariant(self);
        }
        self.name.as_str()
    }

    /// Checks whether a point is in the county, and returns the county's
    /// name if it is.
    pub fn lookup(&self, p: &Point) -> (res: Option<String>)
        ensures
            res.deep_view() == self@.resolve(*p),
    {
        if self.poly.contains(p) {
            Some(self.name.clone())
        } else {
            None
        }
    }

    /// Checks whether the position of a record is in the county, and
    /// returns the record's `testid` and the county's name if it is.
    pub fn lookup_record(&self, r: &Record) -> (res: Option<(i64, String)>)
        ensures
            res.deep_view() == self@.resolve_record(*r),
    {
        if self.poly.contains(&r.position()) {
            Some((r.testid, self.name.clone()))
        } else {
            None
        }
    }
}

} // verus!

use vstd::prelude::*;

verus! {

/// A position on the plane, latitude first.
#[derive(Clone, Copy, Debug, PartialEq, Eq, Structural)]
pub struct Point {
    pub lat: i32,
    pub lon: i32,
}

impl Point {
    /// Builds the point of a latitude and a longitude.
    pub fn new(lat: i32, lon: i32) -> (p: Point)
        ensures
            p == (Point { lat, lon }),
    {
        Point { lat, lon }
    }

    /// The point of a pair written longitude first. Every reordering of a
    /// source's coordinates goes through here.
    pub open spec fn spec_from_lon_lat(longitude: i32, latitude: i32) -> Point {
        Point { lat: latitude, lon: longitude }
    }

    /// Builds the point of a pair written longitude first.
    #[verifier::when_used_as_spec(spec_from_lon_lat)]
    pub fn from_lon_lat(longitude: i32, latitude: i32) -> (p: Point)
        ensures
            p == Point::spec_from_lon_lat(longitude, latitude),
    {
        Point { lat: latitude, lon: longitude }
    }
}

/// One row of a table of positions, as the table writes it: longitude
/// before latitude.
#[derive(Clone, Copy, Debug, PartialEq, Eq, Structural)]
pub struct Record {
    pub index: i32,
    pub testid: i64,
    pub longitude: i32,
    pub latitude: i32,
}

impl Record {
    /// The position of the record, latitude first.
    pub open spec fn spec_position(&self) -> Point {
        Point::spec_from_lon_lat(self.longitude, self.latitude)
    }

    /// Returns the position of the record, latitude first.
    #[verifier::when_used_as_spec(spec_position)]
    pub fn position(&self) -> (p: Point)
        ensures
            p == self.spec_position(),
    {
        Point::from_lon_lat(self.longitude, self.latitude)
    }
}

} // verus!

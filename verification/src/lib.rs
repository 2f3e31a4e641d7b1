//! Resolves points on the plane to the county whose boundary contains them.
//!
//! Coordinates are signed 32-bit fixed-point numbers. The unit is the caller's
//! choice; with 1e-7 degree the whole globe fits. A point is written
//! latitude first, longitude second; the sources that hand over geometry and
//! records write longitude first, and the constructors here reorder them.
//!
//! Whether a polygon contains a point is `geo`'s decision, taken over exact
//! integer arithmetic. The contracts name that decision and state the rest
//! over it: which features make a county, which county of a list answers,
//! and that a batch answers each point as a single lookup does.

pub mod counties;
pub mod county;
pub mod error;
pub mod geojson;
pub mod point;
pub mod polygon;

pub use counties::Counties;
pub use county::County;
pub use error::Error;
pub use geojson::{Feature, GeoJson, Geometry, Properties};
pub use point::{Point, Record};
pub use polygon::Polygon;

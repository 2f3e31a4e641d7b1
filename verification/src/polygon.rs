use vstd::prelude::*;
use crate::error::Error;
use crate::point::Point;

verus! {

/// The most points a ring may have: `geo` counts how often a ring winds
/// round a point in 32 bits, one step per edge at most.
pub const MAX_RING_POINTS: usize = 0x7fff_ffff;

/// A closed polygon, held as a `geo::Polygon` over 128-bit integers, in
/// which no product of two coordinate differences can overflow. A point's
/// latitude is `geo`'s `x`, its longitude `geo`'s `y`. Verus sees nothing
/// inside: what it holds is named by [`polygon_rings`].
#[verifier::external_body]
#[derive(Debug)]
pub struct Polygon {
    inner: geo::Polygon<i128>,
}

/// The rings that a polygon holds, each as `geo` stores it, the exterior
/// first and the holes after it.
pub uninterp spec fn polygon_rings(poly: Polygon) -> Seq<Seq<Point>>;

/// What `geo`'s `Contains::contains` answers for a polygon that holds
/// `rings` and the coordinate `p`.
pub uninterp spec fn rings_contain(rings: Seq<Seq<Point>>, p: Point) -> bool;

/// A ring with its first point repeated at the end, unless it ends with
/// that point already.
pub open spec fn closed_ring(ring: Seq<Point>) -> Seq<Point> {
    if ring.len() > 0 && ring.first() != ring.last() {
        ring.push(ring.first())
    } else {
        ring
    }
}

/// Calls `geo::Polygon::new` on the line string of the coordinates of
/// `ring`, with no interior rings. `new` closes the exterior: it appends
/// the first coordinate where the last one differs from it. The polygon
/// then holds that one ring. The bound on the ring is the one that
/// [`polygon_contains`] relies on.
#[verifier::external_body]
fn polygon_from_exterior(ring: &Vec<Point>) -> (poly: Polygon)
    requires
        3 <= ring@.len() <= MAX_RING_POINTS,
    ensures
        polygon_rings(poly) == seq![closed_ring(ring@)],
{
    let coords: Vec<geo::Coord<i128>> =
        ring.iter().map(|p| geo::Coord { x: i128::from(p.lat), y: i128::from(p.lon) }).collect();
    Polygon { inner: geo::Polygon::new(geo::LineString(coords), Vec::new()) }
}

/// Calls `geo`'s `Contains::contains` on the polygon and the coordinate of
/// `p`. The answer depends on the polygon's rings and on `p` alone; what
/// it is in geometric terms is `geo`'s to say and is not stated here. The
/// bound on the rings keeps `geo`'s winding counter within 32 bits.
#[verifier::external_body]
fn polygon_contains(poly: &Polygon, p: &Point) -> (inside: bool)
    requires
        poly.well_formed(),
    ensures
        inside == rings_contain(polygon_rings(*poly), *p),
{
    geo::Contains::contains(&poly.inner, &geo::Coord { x: i128::from(p.lat), y: i128::from(p.lon) })
}

/// Whether a polygon contains a point depends on its rings and on the point
/// alone: two polygons that hold the same rings contain the same points.
pub proof fn lemma_same_rings_same_answer(a: Polygon, b: Polygon, p: Point)
    requires
        a@ == b@,
    ensures
        a.spec_contains(p) == b.spec_contains(p),
{
}

impl View for Polygon {
    type V = Seq<Seq<Point>>;

    /// The rings of the polygon, the exterior first.
    open spec fn view(&self) -> Seq<Seq<Point>> {
        polygon_rings(*self)
    }
}

impl Polygon {
    /// One ring, made of three to `MAX_RING_POINTS` points and then closed.
    #[verifier::type_invariant]
    pub open spec fn well_formed(&self) -> bool {
        &&& self@.len() == 1
        &&& 3 <= self@[0].len() <= MAX_RING_POINTS + 1
    }

    /// Whether the polygon contains `p`, as `geo` decides it.
    pub open spec fn spec_contains(&self, p: Point) -> bool {
        rings_contain(self@, p)
    }

    /// Builds the polygon whose exterior is `ring`, without holes. The ring
    /// need not repeat its first point at the end.
    pub fn new(ring: &Vec<Point>) -> (res: Result<Polygon, Error>)
        ensures
            res.is_ok() <==> 3 <= ring@.len() <= MAX_RING_POINTS,
            res matches Ok(poly) ==> poly@ == seq![closed_ring(ring@)],
            res matches Err(e) ==> e == Error::MalformedGeometry,
    {
        if ring.len() < 3 || ring.len() > MAX_RING_POINTS {
            return Err(Error::MalformedGeometry);
        }
        Ok(polygon_from_exterior(ring))
    }

    /// Tests whether the polygon contains `p`.
    pub fn contains(&self, p: &Point) -> (inside: bool)
        ensures
            inside == self.spec_contains(*p),
    {
        proof {
            use_type_invariant(self);
        }
        polygon_contains(self, p)
    }
}

} // verus!

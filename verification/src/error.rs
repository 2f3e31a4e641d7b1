use vstd::prelude::*;

verus! {

/// Why a county could not be built.
#[derive(Clone, Copy, Debug, PartialEq, Eq, Structural)]
pub enum Error {
    /// The geometry has no ring, or its first ring has fewer than three
    /// points, more points than [`crate::polygon::MAX_RING_POINTS`], or a
    /// position with fewer than two numbers.
    MalformedGeometry,
    /// The name is empty.
    MissingName,
}

} // verus!

//! World-space points in exact fixed-point coordinates.
//!
//! A world coordinate is an `i64` number of milli-pixels (thousandths of a
//! pixel), so every position the grid hands out is an exact integer and the
//! geometric predicates built on top never need an epsilon.

use vstd::prelude::*;

verus! {

/// Coordinates handed to the segment primitives must stay below this bound so
/// that the intermediate `i128` products of the intersection formulas cannot
/// overflow. Positions produced by a well-formed grid layout are far below it.
pub const GEOMETRY_COORD_LIMIT: i64 = 0x100_0000_0000;

/// A 2D point (or vector) in world space, in milli-pixels.
#[derive(Clone, Copy, Debug, PartialEq, Eq, Structural)]
pub struct WorldPoint {
    pub x: i64,
    pub y: i64,
}

impl WorldPoint {
    /// True when both coordinates are small enough for the segment
    /// primitives' exact `i128` arithmetic.
    pub open spec fn in_geometry_bounds(self) -> bool {
        -GEOMETRY_COORD_LIMIT <= self.x <= GEOMETRY_COORD_LIMIT
            && -GEOMETRY_COORD_LIMIT <= self.y <= GEOMETRY_COORD_LIMIT
    }

    pub fn new(x: i64, y: i64) -> (p: WorldPoint)
        ensures
            p == (WorldPoint { x, y }),
    {
        WorldPoint { x, y }
    }
}

} // verus!

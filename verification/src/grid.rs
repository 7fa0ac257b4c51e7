//! Grid positions: a whole-cell coordinate plus a sub-cell offset.
//!
//! A cell is split into `OFFSET_SCALE` sub-units per axis, so an offset is an
//! integer number of milli-cells in `[-OFFSET_SCALE/2, OFFSET_SCALE/2)`.
//! Arithmetic is component-wise, followed by renormalizing the offset back
//! into that range with the overflow carried into the coordinates, so a
//! position always denotes the exact point
//! `coordinates + offset / OFFSET_SCALE`.

use vstd::prelude::*;

verus! {

/// Number of sub-cell units per grid cell, per axis.
pub const OFFSET_SCALE: i64 = 1000;

/// Half a cell in sub-cell units: the offset range is `[-500, 500)`.
pub const HALF_CELL: i64 = 500;

/// Cell coordinates handed to the grid layout must stay below this bound so
/// that world-space conversions cannot overflow.
pub const GRID_COORD_LIMIT: i64 = 0x4_0000;

/// A pair of integer grid measurements: whole cells for coordinates,
/// milli-cells for offsets.
#[derive(Clone, Copy, Debug, PartialEq, Eq, Structural)]
pub struct CellVec {
    pub x: i64,
    pub y: i64,
}

impl CellVec {
    pub fn new(x: i64, y: i64) -> (v: CellVec)
        ensures
            v == (CellVec { x, y }),
    {
        CellVec { x, y }
    }
}

/// A position on the grid: the whole-square coordinates, and the offset
/// within that single grid cell, in milli-cells.
#[derive(Clone, Copy, Debug, PartialEq, Eq, Structural)]
pub struct GridPosition {
    pub coordinates: CellVec,
    pub offset: CellVec,
}

impl GridPosition {
    /// The invariant of the data model: the offset is renormalized into
    /// `[-HALF_CELL, HALF_CELL)` on both axes.
    pub open spec fn offset_normalized(self) -> bool {
        &&& -HALF_CELL <= self.offset.x < HALF_CELL
        &&& -HALF_CELL <= self.offset.y < HALF_CELL
    }

    /// Coordinates small enough for world-space conversion and distance
    /// arithmetic.
    pub open spec fn coords_in_bounds(self) -> bool {
        &&& -GRID_COORD_LIMIT <= self.coordinates.x <= GRID_COORD_LIMIT
        &&& -GRID_COORD_LIMIT <= self.coordinates.y <= GRID_COORD_LIMIT
    }

    /// The exact x position in milli-cells.
    pub open spec fn actual_x(self) -> int {
        self.coordinates.x * OFFSET_SCALE + self.offset.x
    }

    /// The exact y position in milli-cells.
    pub open spec fn actual_y(self) -> int {
        self.coordinates.y * OFFSET_SCALE + self.offset.y
    }

    pub fn new(x: i64, y: i64) -> (p: GridPosition)
        ensures
            p.coordinates == (CellVec { x, y }),
            p.offset == (CellVec { x: 0, y: 0 }),
            p.offset_normalized(),
    {
        GridPosition { coordinates: CellVec { x, y }, offset: CellVec { x: 0, y: 0 } }
    }

    /// The same position with its offset replaced; the offset is taken as
    /// given, without renormalization.
    pub fn with_offset(self, offset: CellVec) -> (p: GridPosition)
        ensures
            p.coordinates == self.coordinates,
            p.offset == offset,
    {
        GridPosition { coordinates: self.coordinates, offset }
    }

    /// The exact position in milli-cells, offset folded into the whole-cell
    /// coordinates.
    pub fn _actual_coordinates(&self) -> (v: CellVec)
        requires
            self.coords_in_bounds(),
            -OFFSET_SCALE <= self.offset.x <= OFFSET_SCALE,
            -OFFSET_SCALE <= self.offset.y <= OFFSET_SCALE,
        ensures
            v.x == self.actual_x(),
            v.y == self.actual_y(),
    {
        CellVec {
            x: self.coordinates.x * OFFSET_SCALE + self.offset.x,
            y: self.coordinates.y * OFFSET_SCALE + self.offset.y,
        }
    }

    /// If the offset has left its half-cell range by less than a whole cell,
    /// carry the overflow into the coordinates and bring the offset back
    /// within `[-HALF_CELL, HALF_CELL)`, keeping the denoted point unchanged.
    pub fn fix_offset_overflow(&mut self)
        requires
            -2 * GRID_COORD_LIMIT <= old(self).coordinates.x <= 2 * GRID_COORD_LIMIT,
            -2 * GRID_COORD_LIMIT <= old(self).coordinates.y <= 2 * GRID_COORD_LIMIT,
            -3 * HALF_CELL <= old(self).offset.x < 3 * HALF_CELL,
            -3 * HALF_CELL <= old(self).offset.y < 3 * HALF_CELL,
        ensures
            final(self).offset_normalized(),
            final(self).actual_x() == old(self).actual_x(),
            final(self).actual_y() == old(self).actual_y(),
            -2 * GRID_COORD_LIMIT - 1 <= final(self).coordinates.x <= 2 * GRID_COORD_LIMIT + 1,
            -2 * GRID_COORD_LIMIT - 1 <= final(self).coordinates.y <= 2 * GRID_COORD_LIMIT + 1,
    {
        if self.offset.x >= HALF_CELL {
            self.coordinates.x = self.coordinates.x + 1;
            self.offset.x = self.offset.x - OFFSET_SCALE;
        }
        if self.offset.y >= HALF_CELL {
            self.coordinates.y = self.coordinates.y + 1;
            self.offset.y = self.offset.y - OFFSET_SCALE;
        }
        if self.offset.x < -HALF_CELL {
            self.coordinates.x = self.coordinates.x - 1;
            self.offset.x = self.offset.x + OFFSET_SCALE;
        }
        if self.offset.y < -HALF_CELL {
            self.coordinates.y = self.coordinates.y - 1;
            self.offset.y = self.offset.y + OFFSET_SCALE;
        }
    }

    /// Component-wise sum, renormalized. The result denotes exactly the sum
    /// of the two points.
    pub fn plus(self, rhs: GridPosition) -> (r: GridPosition)
        requires
            self.offset_normalized(),
            rhs.offset_normalized(),
            self.coords_in_bounds(),
            rhs.coords_in_bounds(),
        ensures
            r.offset_normalized(),
            r.actual_x() == self.actual_x() + rhs.actual_x(),
            r.actual_y() == self.actual_y() + rhs.actual_y(),
    {
        let mut res = GridPosition {
            coordinates: CellVec {
                x: self.coordinates.x + rhs.coordinates.x,
                y: self.coordinates.y + rhs.coordinates.y,
            },
            offset: CellVec { x: self.offset.x + rhs.offset.x, y: self.offset.y + rhs.offset.y },
        };
        proof {
            lemma_sum_actual(self, rhs, res, 1);
        }
        res.fix_offset_overflow();
        res
    }

    /// Component-wise difference, renormalized. The result denotes exactly
    /// the difference of the two points.
    pub fn minus(self, rhs: GridPosition) -> (r: GridPosition)
        requires
            self.offset_normalized(),
            rhs.offset_normalized(),
            self.coords_in_bounds(),
            rhs.coords_in_bounds(),
        ensures
            r.offset_normalized(),
            r.actual_x() == self.actual_x() - rhs.actual_x(),
            r.actual_y() == self.actual_y() - rhs.actual_y(),
    {
        let mut res = GridPosition {
            coordinates: CellVec {
                x: self.coordinates.x - rhs.coordinates.x,
                y: self.coordinates.y - rhs.coordinates.y,
            },
            offset: CellVec { x: self.offset.x - rhs.offset.x, y: self.offset.y - rhs.offset.y },
        };
        proof {
            lemma_sum_actual(self, rhs, res, -1);
        }
        res.fix_offset_overflow();
        res
    }
}

/// The component-wise combination of two positions denotes the combination
/// of the points they denote.
proof fn lemma_sum_actual(p: GridPosition, q: GridPosition, r: GridPosition, s: int)
    by (nonlinear_arith)
    requires
        r.coordinates.x == p.coordinates.x + s * q.coordinates.x,
        r.coordinates.y == p.coordinates.y + s * q.coordinates.y,
        r.offset.x == p.offset.x + s * q.offset.x,
        r.offset.y == p.offset.y + s * q.offset.y,
    ensures
        r.actual_x() == p.actual_x() + s * q.actual_x(),
        r.actual_y() == p.actual_y() + s * q.actual_y(),
{
}

} // verus!

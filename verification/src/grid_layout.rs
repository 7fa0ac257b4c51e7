//! The global grid: mapping grid coordinates to world space, cell corners
//! and sides, and clamped bounding boxes of cells around a position.
//!
//! World space is measured in milli-pixels, so the conversion
//! `origin + padding + (coordinates + offset) * square_size` is exact
//! integer arithmetic: a whole cell contributes `square_size * OFFSET_SCALE`
//! milli-pixels and a milli-cell of offset contributes `square_size`.

use vstd::prelude::*;

use crate::grid::CellVec;
use crate::grid::GRID_COORD_LIMIT;
use crate::grid::GridPosition;
use crate::grid::HALF_CELL;
use crate::grid::OFFSET_SCALE;
use crate::line_segment::LineSegment;
use crate::world_point::WorldPoint;

verus! {

/// Bound on world coordinates produced by a well-formed layout for a
/// position within the coordinate limit; comfortably below the geometry
/// bound of the segment primitives.
pub const WORLD_LIMIT: i64 = 0x80_0000_0000;

/// Largest cell size, in pixels, a layout may be configured with.
pub const MAX_SQUARE_SIZE: i64 = 1024;

/// Largest magnitude, in milli-pixels, of a layout's origin and padding.
pub const MAX_ORIGIN: i64 = 0x4000_0000;

/// The configuration of the level grid: cell size in pixels, grid dimensions
/// in cells, and a world-space origin and padding in milli-pixels.
#[derive(Clone, Copy, Debug, PartialEq, Eq, Structural)]
pub struct GridLayout {
    pub square_size: i64,
    pub width: usize,
    pub height: usize,
    pub origin: WorldPoint,
    pub padding: WorldPoint,
}

/// The corners of one grid cell's axis-aligned box, in world space.
#[derive(Clone, Copy, Debug, PartialEq, Eq, Structural)]
pub struct Corners {
    pub southwest: WorldPoint,
    pub northwest: WorldPoint,
    pub northeast: WorldPoint,
    pub southeast: WorldPoint,
}

/// The four sides of one grid cell's box, as line segments.
#[derive(Clone, Copy, Debug, PartialEq, Eq, Structural)]
pub struct Sides {
    pub north: LineSegment,
    pub east: LineSegment,
    pub south: LineSegment,
    pub west: LineSegment,
}

impl Sides {
    pub fn _all(&self) -> (v: Vec<LineSegment>)
        ensures
            v@ =~= seq![self.north, self.east, self.south, self.west],
    {
        let mut v: Vec<LineSegment> = Vec::new();
        v.push(self.north);
        v.push(self.east);
        v.push(self.south);
        v.push(self.west);
        v
    }
}

/// A rectangle of whole cells, clamped to the grid: the cells
/// `[origin.x, origin.x + dimensions.x) x [origin.y, origin.y + dimensions.y)`.
#[derive(Clone, Copy, Debug, PartialEq, Eq, Structural)]
pub struct GridBoundingBox {
    pub origin: CellVec,
    pub dimensions: CellVec,
}

/// Whether the cell `(x, y)` lies inside the bounding box.
pub open spec fn in_bounding_box(bb: GridBoundingBox, x: int, y: int) -> bool {
    &&& bb.origin.x <= x < bb.origin.x + bb.dimensions.x
    &&& bb.origin.y <= y < bb.origin.y + bb.dimensions.y
}

impl GridBoundingBox {
    /// The box is non-negative and small enough to enumerate.
    pub open spec fn wf(self) -> bool {
        &&& 0 <= self.origin.x && 0 <= self.origin.y
        &&& 0 <= self.dimensions.x <= GRID_COORD_LIMIT
        &&& 0 <= self.dimensions.y <= GRID_COORD_LIMIT
        &&& self.origin.x + self.dimensions.x <= GRID_COORD_LIMIT
        &&& self.origin.y + self.dimensions.y <= GRID_COORD_LIMIT
    }

    /// The half-open range of x coordinates the box covers.
    pub fn xrange(&self) -> (r: (i64, i64))
        requires
            self.wf(),
        ensures
            r.0 == self.origin.x,
            r.1 == self.origin.x + self.dimensions.x,
    {
        (self.origin.x, self.origin.x + self.dimensions.x)
    }

    /// The half-open range of y coordinates the box covers.
    pub fn yrange(&self) -> (r: (i64, i64))
        requires
            self.wf(),
        ensures
            r.0 == self.origin.y,
            r.1 == self.origin.y + self.dimensions.y,
    {
        (self.origin.y, self.origin.y + self.dimensions.y)
    }

    /// Every cell of the box, enumerated x-major with y innermost: exactly
    /// the cells for which `in_bounding_box` holds, each exactly once, the
    /// cell at index `i` pinned by `cell_at_index`.
    pub fn coords_range(&self) -> (v: Vec<CellVec>)
        requires
            self.wf(),
        ensures
            forall|c: CellVec| #[trigger] v@.contains(c) <==> in_bounding_box(*self, c.x as int, c.y as int),
            v@.len() == self.dimensions.x * self.dimensions.y,
            forall|i: int|
                0 <= i < v@.len() ==> #[trigger] v@[i] == cell_at_index(
                    self.origin,
                    self.dimensions.y as int,
                    i,
                ),
    {
        let mut v: Vec<CellVec> = Vec::new();
        let x_end: i64 = self.origin.x + self.dimensions.x;
        let y_end: i64 = self.origin.y + self.dimensions.y;
        let mut x: i64 = self.origin.x;
        while x < x_end
            invariant
                self.wf(),
                x_end == self.origin.x + self.dimensions.x,
                y_end == self.origin.y + self.dimensions.y,
                self.origin.x <= x <= x_end,
                forall|c: CellVec| #[trigger]
                    v@.contains(c) <==> (self.origin.x <= c.x < x && self.origin.y <= c.y < y_end),
                v@.len() == (x - self.origin.x) * self.dimensions.y,
                forall|i: int|
                    0 <= i < v@.len() ==> #[trigger] v@[i] == cell_at_index(
                        self.origin,
                        self.dimensions.y as int,
                        i,
                    ),
            decreases x_end - x,
        {
            let mut y: i64 = self.origin.y;
            while y < y_end
                invariant
                    self.wf(),
                    x_end == self.origin.x + self.dimensions.x,
                    y_end == self.origin.y + self.dimensions.y,
                    self.origin.x <= x < x_end,
                    self.origin.y <= y <= y_end,
                    forall|c: CellVec| #[trigger]
                        v@.contains(c) <==> ((self.origin.x <= c.x < x && self.origin.y <= c.y
                            < y_end) || (c.x == x && self.origin.y <= c.y < y)),
                    v@.len() == (x - self.origin.x) * self.dimensions.y + (y - self.origin.y),
                    forall|i: int|
                        0 <= i < v@.len() ==> #[trigger] v@[i] == cell_at_index(
                            self.origin,
                            self.dimensions.y as int,
                            i,
                        ),
                decreases y_end - y,
            {
                proof {
                    vstd::arithmetic::div_mod::lemma_fundamental_div_mod_converse(
                        v@.len() as int,
                        self.dimensions.y as int,
                        x - self.origin.x,
                        y - self.origin.y,
                    );
                }
                v.push(CellVec { x, y });
                proof {
                    broadcast use vstd::seq_lib::lemma_seq_contains_after_push;

                }
                y = y + 1;
            }
            proof {
                lemma_row_count(x - self.origin.x, self.dimensions.y as int);
            }
            x = x + 1;
        }
        v
    }
}

/// The cell at position `i` of an x-major enumeration of a box anchored at
/// `origin` with `height` cells per column.
pub open spec fn cell_at_index(origin: CellVec, height: int, i: int) -> CellVec {
    CellVec { x: (origin.x + i / height) as i64, y: (origin.y + i % height) as i64 }
}

/// `(k + 1) * d == k * d + d`: counting one more full row of cells.
proof fn lemma_row_count(k: int, d: int)
    by (nonlinear_arith)
    ensures
        (k + 1) * d == k * d + d,
{
}

/// The exact world-space x coordinate of a grid position, in milli-pixels.
pub open spec fn world_x(layout: GridLayout, p: GridPosition) -> int {
    layout.origin.x + layout.padding.x + p.coordinates.x * (layout.square_size * OFFSET_SCALE)
        + p.offset.x * layout.square_size
}

/// The exact world-space y coordinate of a grid position, in milli-pixels.
pub open spec fn world_y(layout: GridLayout, p: GridPosition) -> int {
    layout.origin.y + layout.padding.y + p.coordinates.y * (layout.square_size * OFFSET_SCALE)
        + p.offset.y * layout.square_size
}

/// World coordinates of in-bounds positions stay within `WORLD_LIMIT`.
pub proof fn lemma_world_in_limit(layout: GridLayout, p: GridPosition)
    by (nonlinear_arith)
    requires
        layout.wf(),
        p.coords_in_bounds(),
        -2 * HALF_CELL <= p.offset.x <= 2 * HALF_CELL,
        -2 * HALF_CELL <= p.offset.y <= 2 * HALF_CELL,
    ensures
        -WORLD_LIMIT <= world_x(layout, p) <= WORLD_LIMIT,
        -WORLD_LIMIT <= world_y(layout, p) <= WORLD_LIMIT,
{
}

impl Default for GridLayout {
    /// The placeholder configuration used before a level loads: 32-pixel
    /// cells on a 20 x 10 grid anchored at the world origin.
    fn default() -> (layout: GridLayout)
        ensures
            layout == (GridLayout {
                square_size: 32,
                width: 20,
                height: 10,
                origin: WorldPoint { x: 0, y: 0 },
                padding: WorldPoint { x: 0, y: 0 },
            }),
            layout.wf(),
    {
        GridLayout {
            square_size: 32,
            width: 20,
            height: 10,
            origin: WorldPoint { x: 0, y: 0 },
            padding: WorldPoint { x: 0, y: 0 },
        }
    }
}

impl GridLayout {
    /// A usable configuration: positive cell size and all magnitudes small
    /// enough that world-space conversion is exact in 64 bits.
    pub open spec fn wf(self) -> bool {
        &&& 1 <= self.square_size <= MAX_SQUARE_SIZE
        &&& self.width <= GRID_COORD_LIMIT as usize
        &&& self.height <= GRID_COORD_LIMIT as usize
        &&& -MAX_ORIGIN <= self.origin.x <= MAX_ORIGIN
        &&& -MAX_ORIGIN <= self.origin.y <= MAX_ORIGIN
        &&& -MAX_ORIGIN <= self.padding.x <= MAX_ORIGIN
        &&& -MAX_ORIGIN <= self.padding.y <= MAX_ORIGIN
    }

    pub fn new(width: usize, height: usize) -> (layout: GridLayout)
        requires
            width <= GRID_COORD_LIMIT as usize,
            height <= GRID_COORD_LIMIT as usize,
        ensures
            layout == (GridLayout {
                square_size: 16,
                width,
                height,
                origin: WorldPoint { x: 0, y: 0 },
                padding: WorldPoint { x: 0, y: 0 },
            }),
            layout.wf(),
    {
        GridLayout {
            square_size: 16,
            width,
            height,
            origin: WorldPoint { x: 0, y: 0 },
            padding: WorldPoint { x: 0, y: 0 },
        }
    }

    /// The world-space point of a grid position.
    pub fn grid_to_world(&self, grid_pos: &GridPosition) -> (p: WorldPoint)
        requires
            self.wf(),
            grid_pos.coords_in_bounds(),
            -2 * HALF_CELL <= grid_pos.offset.x <= 2 * HALF_CELL,
            -2 * HALF_CELL <= grid_pos.offset.y <= 2 * HALF_CELL,
        ensures
            p.x == world_x(*self, *grid_pos),
            p.y == world_y(*self, *grid_pos),
            -WORLD_LIMIT <= p.x <= WORLD_LIMIT,
            -WORLD_LIMIT <= p.y <= WORLD_LIMIT,
    {
        proof {
            lemma_world_in_limit(*self, *grid_pos);
        }
        let cell: i64 = self.square_size * OFFSET_SCALE;
        proof {
            lemma_world_terms(*self, *grid_pos);
        }
        WorldPoint {
            x: self.origin.x + self.padding.x + grid_pos.coordinates.x * cell + grid_pos.offset.x
                * self.square_size,
            y: self.origin.y + self.padding.y + grid_pos.coordinates.y * cell + grid_pos.offset.y
                * self.square_size,
        }
    }

    /// The world-space center of the whole grid.
    pub fn center_worldpos(&self) -> (p: WorldPoint)
        requires
            self.wf(),
        ensures
            p.x == self.origin.x + self.width * self.square_size * HALF_CELL,
            p.y == self.origin.y + self.height * self.square_size * HALF_CELL,
    {
        proof {
            lemma_half_grid_bound(self.width as int, self.square_size as int);
            lemma_half_grid_bound(self.height as int, self.square_size as int);
        }
        let half_width: i64 = (self.width as i64) * self.square_size * HALF_CELL;
        let half_height: i64 = (self.height as i64) * self.square_size * HALF_CELL;
        WorldPoint { x: self.origin.x + half_width, y: self.origin.y + half_height }
    }

    /// The corners of a grid cell's box: the southwest corner is the cell's
    /// world point and the box side is one cell.
    pub fn corners(&self, grid_pos: &GridPosition) -> (c: Corners)
        requires
            self.wf(),
            grid_pos.coords_in_bounds(),
            -2 * HALF_CELL <= grid_pos.offset.x <= 2 * HALF_CELL,
            -2 * HALF_CELL <= grid_pos.offset.y <= 2 * HALF_CELL,
        ensures
            c == corners_spec(*self, *grid_pos),
            c.southwest.in_geometry_bounds(),
            c.northwest.in_geometry_bounds(),
            c.northeast.in_geometry_bounds(),
            c.southeast.in_geometry_bounds(),
    {
        let sw = self.grid_to_world(grid_pos);
        let cell: i64 = self.square_size * OFFSET_SCALE;
        let ne = WorldPoint { x: sw.x + cell, y: sw.y + cell };
        Corners {
            southwest: sw,
            northwest: WorldPoint { x: sw.x, y: ne.y },
            northeast: ne,
            southeast: WorldPoint { x: ne.x, y: sw.y },
        }
    }

    /// Line segments for each side of the box of the given grid cell.
    pub fn sides(&self, grid_pos: &GridPosition) -> (s: Sides)
        requires
            self.wf(),
            grid_pos.coords_in_bounds(),
            -2 * HALF_CELL <= grid_pos.offset.x <= 2 * HALF_CELL,
            -2 * HALF_CELL <= grid_pos.offset.y <= 2 * HALF_CELL,
        ensures
            s == sides_spec(*self, *grid_pos),
            s.north.wf() && s.north.in_geometry_bounds(),
            s.south.wf() && s.south.in_geometry_bounds(),
            s.east.wf() && s.east.in_geometry_bounds(),
            s.west.wf() && s.west.in_geometry_bounds(),
    {
        let corners = self.corners(grid_pos);
        Sides {
            north: LineSegment::new(corners.northwest, corners.northeast),
            south: LineSegment::new(corners.southwest, corners.southeast),
            east: LineSegment::new(corners.southeast, corners.northeast),
            west: LineSegment::new(corners.southwest, corners.northwest),
        }
    }

    /// The rectangle `[x-r, x+r] x [y-r, y+r]` of cells around a position,
    /// clamped to `[0, width) x [0, height)`. A radius of zero yields the
    /// single-cell box; a radius at least the grid size yields the whole
    /// grid; a position off the grid can yield an empty box.
    pub fn bounding_box(&self, grid_position: &GridPosition, radius_in_grid_squares: i64) -> (bb:
        GridBoundingBox)
        requires
            self.wf(),
            grid_position.coords_in_bounds(),
            0 <= radius_in_grid_squares <= GRID_COORD_LIMIT,
        ensures
            bb == bounding_box_spec(*self, *grid_position, radius_in_grid_squares as int),
            bb.wf(),
            bb.origin.x + bb.dimensions.x <= self.width,
            bb.origin.y + bb.dimensions.y <= self.height,
    {
        let width: i64 = self.width as i64;
        let height: i64 = self.height as i64;
        let x: i64 = if grid_position.coordinates.x < 0 {
            0
        } else {
            grid_position.coordinates.x
        };
        let y: i64 = if grid_position.coordinates.y < 0 {
            0
        } else {
            grid_position.coordinates.y
        };
        let r: i64 = radius_in_grid_squares;

        let x_low: i64 = if x - r < 0 {
            0
        } else {
            x - r
        };
        let x_min: i64 = if x_low < width {
            x_low
        } else {
            width
        };
        let x_high: i64 = x + r + 1;
        let x_max: i64 = if x_high < width {
            x_high
        } else {
            width
        };

        let y_low: i64 = if y - r < 0 {
            0
        } else {
            y - r
        };
        let y_min: i64 = if y_low < height {
            y_low
        } else {
            height
        };
        let y_high: i64 = y + r + 1;
        let y_max: i64 = if y_high < height {
            y_high
        } else {
            height
        };

        GridBoundingBox {
            origin: CellVec { x: x_min, y: y_min },
            dimensions: CellVec { x: x_max - x_min, y: y_max - y_min },
        }
    }

    /// The cells of the box of radius 1 around a position: the position's
    /// own cell and its 8 neighbors, fewer at the grid's edges.
    pub fn neighbors(&self, pos: &GridPosition) -> (v: Vec<CellVec>)
        requires
            self.wf(),
            pos.coords_in_bounds(),
        ensures
            forall|c: CellVec| #[trigger]
                v@.contains(c) <==> in_bounding_box(
                    bounding_box_spec(*self, *pos, 1),
                    c.x as int,
                    c.y as int,
                ),
            v@.len() == bounding_box_spec(*self, *pos, 1).dimensions.x * bounding_box_spec(
                *self,
                *pos,
                1,
            ).dimensions.y,
    {
        let bb = self.bounding_box(pos, 1);
        bb.coords_range()
    }
}

/// `0 <= w * s * HALF_CELL <= MAX_ORIGIN * 128` for grid dimensions and cell
/// sizes in range: the half-grid offset cannot overflow.
proof fn lemma_half_grid_bound(w: int, s: int)
    by (nonlinear_arith)
    requires
        0 <= w <= GRID_COORD_LIMIT,
        1 <= s <= MAX_SQUARE_SIZE,
    ensures
        0 <= w * s * HALF_CELL <= 0x8000_0000_0000,
{
}

/// Bounds for the two products in the world conversion.
proof fn lemma_world_terms(layout: GridLayout, p: GridPosition)
    by (nonlinear_arith)
    requires
        layout.wf(),
        p.coords_in_bounds(),
        -2 * HALF_CELL <= p.offset.x <= 2 * HALF_CELL,
        -2 * HALF_CELL <= p.offset.y <= 2 * HALF_CELL,
    ensures
        -0x4000_0000_0000 <= p.coordinates.x * (layout.square_size * OFFSET_SCALE)
            <= 0x4000_0000_0000,
        -0x4000_0000_0000 <= p.coordinates.y * (layout.square_size * OFFSET_SCALE)
            <= 0x4000_0000_0000,
        -0x10_0000 <= p.offset.x * layout.square_size <= 0x10_0000,
        -0x10_0000 <= p.offset.y * layout.square_size <= 0x10_0000,
{
}

/// The corners of a grid cell's box, as values.
pub open spec fn corners_spec(layout: GridLayout, p: GridPosition) -> Corners {
    let swx = world_x(layout, p);
    let swy = world_y(layout, p);
    let cell = layout.square_size * OFFSET_SCALE;
    Corners {
        southwest: WorldPoint { x: swx as i64, y: swy as i64 },
        northwest: WorldPoint { x: swx as i64, y: (swy + cell) as i64 },
        northeast: WorldPoint { x: (swx + cell) as i64, y: (swy + cell) as i64 },
        southeast: WorldPoint { x: (swx + cell) as i64, y: swy as i64 },
    }
}

/// The four sides of a grid cell's box, as values.
pub open spec fn sides_spec(layout: GridLayout, p: GridPosition) -> Sides {
    let c = corners_spec(layout, p);
    Sides {
        north: segment_of(c.northwest, c.northeast),
        south: segment_of(c.southwest, c.southeast),
        east: segment_of(c.southeast, c.northeast),
        west: segment_of(c.southwest, c.northwest),
    }
}

/// A segment value with its cached doubled midpoint.
pub open spec fn segment_of(a: WorldPoint, b: WorldPoint) -> LineSegment {
    LineSegment { a, b, center2: WorldPoint { x: (a.x + b.x) as i64, y: (a.y + b.y) as i64 } }
}

/// What `bounding_box` returns, as a value.
pub open spec fn bounding_box_spec(layout: GridLayout, p: GridPosition, r: int) -> GridBoundingBox {
    let x = if p.coordinates.x < 0 {
        0
    } else {
        p.coordinates.x as int
    };
    let y = if p.coordinates.y < 0 {
        0
    } else {
        p.coordinates.y as int
    };
    let x_min = clamp(x - r, 0, layout.width as int);
    let x_max = clamp(x + r + 1, 0, layout.width as int);
    let y_min = clamp(y - r, 0, layout.height as int);
    let y_max = clamp(y + r + 1, 0, layout.height as int);
    GridBoundingBox {
        origin: CellVec { x: x_min as i64, y: y_min as i64 },
        dimensions: CellVec { x: (x_max - x_min) as i64, y: (y_max - y_min) as i64 },
    }
}

/// Replace the layout wholesale when a new level loads: 16-pixel cells at
/// the level's dimensions, anchored at the world origin with half a cell of
/// padding (8 pixels, in milli-pixels).
pub fn update_grid_when_level_changes(
    grid: &mut GridLayout,
    level_width: usize,
    level_height: usize,
)
    requires
        level_width <= GRID_COORD_LIMIT as usize,
        level_height <= GRID_COORD_LIMIT as usize,
    ensures
        *final(grid) == (GridLayout {
            square_size: 16,
            width: level_width,
            height: level_height,
            origin: WorldPoint { x: 0, y: 0 },
            padding: WorldPoint { x: 8000, y: 8000 },
        }),
        final(grid).wf(),
{
    let square_size: i64 = 16;
    *grid = GridLayout {
        square_size,
        width: level_width,
        height: level_height,
        origin: WorldPoint { x: 0, y: 0 },
        padding: WorldPoint { x: square_size * HALF_CELL, y: square_size * HALF_CELL },
    };
}

/// A bounding box built by `bounding_box_spec` never reaches outside
/// `[0, width) x [0, height)`: its origin is non-negative and its extent
/// stays within the grid.
pub proof fn lemma_bounding_box_spec_in_grid(layout: GridLayout, p: GridPosition, r: int)
    requires
        layout.wf(),
        r >= 0,
    ensures
        ({
            let bb = bounding_box_spec(layout, p, r);
            &&& 0 <= bb.origin.x && 0 <= bb.origin.y
            &&& 0 <= bb.dimensions.x && 0 <= bb.dimensions.y
            &&& bb.origin.x + bb.dimensions.x <= layout.width
            &&& bb.origin.y + bb.dimensions.y <= layout.height
        }),
{
}

/// `v` clamped into `[low, high]`.
pub open spec fn clamp(v: int, low: int, high: int) -> int {
    if v < low {
        low
    } else if v > high {
        high
    } else {
        v
    }
}

} // verus!

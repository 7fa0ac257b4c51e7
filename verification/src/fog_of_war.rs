//! Fog-of-war memory: a dense per-cell grid of hiddenness values.
//!
//! Each cell carries a value in `[0, FOG_MAX]`, where `0` is fully revealed
//! and `FOG_MAX` fully hidden (the fixed-point counterpart of a unit
//! interval). Each tick, observers that can reveal fog clamp the cells they
//! see down to `0` and the 8-neighborhood around them down to `FOG_DIM` for
//! a soft-edged reveal, and a recovery pass raises every cell by a fixed
//! step, saturating at `FOG_MAX`, so unobserved terrain fades back in. The
//! grid is rebuilt fully hidden whenever the level's dimensions change.

use vstd::prelude::*;

use crate::grid::CellVec;
use crate::grid::GRID_COORD_LIMIT;
use crate::grid_layout::GridLayout;
use crate::grid_layout::bounding_box_spec;
use crate::grid_layout::in_bounding_box;
use crate::vision::VisibleSquares;
use crate::vision::whole_cell;

verus! {

/// A fully hidden cell.
pub const FOG_MAX: u32 = 1000;

/// The soft-reveal ceiling for cells adjacent to a visible cell.
pub const FOG_DIM: u32 = 500;

/// Largest fog grid dimension, kept small enough that a row-major index
/// fits a `usize` on every platform.
pub const FOG_GRID_LIMIT: usize = 0x8000;

/// The global fog grid, `width * height` cells in row-major order.
#[derive(Debug, Clone)]
pub struct FogOfWar {
    pub width: usize,
    pub height: usize,
    pub data: Vec<u32>,
}

/// Whether `(x, y)` is one of the squares of the sequence.
pub open spec fn in_core(vs: Seq<CellVec>, x: int, y: int) -> bool {
    exists|i: int| 0 <= i < vs.len() && (#[trigger] vs[i]).x == x && vs[i].y == y
}

/// Whether `(x, y)` lies in the 8-neighborhood (clamped to the grid) of some
/// square of the sequence.
pub open spec fn in_halo(layout: GridLayout, vs: Seq<CellVec>, x: int, y: int) -> bool {
    exists|i: int|
        0 <= i < vs.len() && in_bounding_box(
            bounding_box_spec(layout, whole_cell(#[trigger] vs[i]), 1),
            x,
            y,
        )
}

impl FogOfWar {
    /// The grid has exactly one value per cell, each within `[0, FOG_MAX]`.
    pub open spec fn wf(self) -> bool {
        &&& self.width <= FOG_GRID_LIMIT
        &&& self.height <= FOG_GRID_LIMIT
        &&& self.data@.len() == self.width * self.height
        &&& forall|i: int| 0 <= i < self.data@.len() ==> #[trigger] self.data@[i] <= FOG_MAX
    }

    /// The stored value of the cell `(x, y)`.
    pub open spec fn value_at_spec(self, x: int, y: int) -> u32 {
        self.data@[x + y * self.width]
    }

    /// A fully hidden fog grid for a level of the given dimensions.
    pub fn new(width: usize, height: usize) -> (f: FogOfWar)
        requires
            width <= FOG_GRID_LIMIT,
            height <= FOG_GRID_LIMIT,
        ensures
            f.wf(),
            f.width == width,
            f.height == height,
            forall|i: int| 0 <= i < f.data@.len() ==> #[trigger] f.data@[i] == FOG_MAX,
    {
        proof {
            lemma_grid_size(width as int, height as int);
        }
        let size: usize = width * height;
        let mut data: Vec<u32> = Vec::new();
        let mut i: usize = 0;
        while i < size
            invariant
                0 <= i <= size,
                data@.len() == i,
                forall|j: int| 0 <= j < i ==> #[trigger] data@[j] == FOG_MAX,
            decreases size - i,
        {
            data.push(FOG_MAX);
            i = i + 1;
        }
        FogOfWar { width, height, data }
    }

    /// Discard the grid and reallocate it fully hidden at new dimensions:
    /// the lifecycle step for a level change.
    pub fn reset(&mut self, width: usize, height: usize)
        requires
            width <= FOG_GRID_LIMIT,
            height <= FOG_GRID_LIMIT,
        ensures
            final(self).wf(),
            final(self).width == width,
            final(self).height == height,
            forall|i: int|
                0 <= i < final(self).data@.len() ==> #[trigger] final(self).data@[i] == FOG_MAX,
    {
        *self = FogOfWar::new(width, height);
    }

    /// The fog value of one cell.
    pub fn value_at(&self, x: usize, y: usize) -> (v: u32)
        requires
            self.wf(),
            x < self.width,
            y < self.height,
        ensures
            v == self.value_at_spec(x as int, y as int),
    {
        proof {
            lemma_index_in_grid(x as int, y as int, self.width as int, self.height as int);
        }
        self.data[x + y * self.width]
    }

    /// One recovery tick: every cell's value rises by `step`, saturating at
    /// `FOG_MAX`. With a positive step, every cell not yet saturated
    /// strictly increases, and a saturated cell stays exactly at `FOG_MAX`:
    /// absent a reveal, fog only ever thickens.
    pub fn recover_fog_of_war(&mut self, step: u32)
        requires
            old(self).wf(),
        ensures
            final(self).wf(),
            final(self).width == old(self).width,
            final(self).height == old(self).height,
            final(self).data@.len() == old(self).data@.len(),
            forall|i: int|
                0 <= i < old(self).data@.len() ==> #[trigger] final(self).data@[i] == (if old(self).data@[i] + step >= FOG_MAX {
                    FOG_MAX
                } else {
                    (old(self).data@[i] + step) as u32
                }),
            step >= 1 ==> forall|i: int|
                0 <= i < old(self).data@.len() && old(self).data@[i] < FOG_MAX
                    ==> final(self).data@[i] > #[trigger] old(self).data@[i],
            forall|i: int|
                0 <= i < old(self).data@.len() && old(self).data@[i] == FOG_MAX
                    ==> #[trigger] final(self).data@[i] == FOG_MAX,
    {
        let n: usize = self.data.len();
        let mut i: usize = 0;
        while i < n
            invariant
                0 <= i <= n,
                n == self.data@.len(),
                self.data@.len() == old(self).data@.len(),
                self.width == old(self).width,
                self.height == old(self).height,
                forall|j: int| i <= j < n ==> #[trigger] self.data@[j] == old(self).data@[j],
                forall|j: int|
                    0 <= j < i ==> #[trigger] self.data@[j] == (if old(self).data@[j] + step
                        >= FOG_MAX {
                        FOG_MAX
                    } else {
                        (old(self).data@[j] + step) as u32
                    }),
            decreases n - i,
        {
            let v: u32 = self.data[i];
            if step >= FOG_MAX || v >= FOG_MAX - step {
                self.data.set(i, FOG_MAX);
            } else {
                self.data.set(i, v + step);
            }
            i = i + 1;
        }
    }

    /// One observer's reveal pass: every cell the observer sees is clamped
    /// to `0`; every other cell of the clamped 8-neighborhood around a seen
    /// cell is clamped down to at most `FOG_DIM`; no other cell changes.
    pub fn reveal_fog_of_war(&mut self, grid: &GridLayout, visible: &VisibleSquares)
        requires
            old(self).wf(),
            grid.wf(),
            old(self).width == grid.width,
            old(self).height == grid.height,
            forall|i: int|
                0 <= i < visible.visible_squares@.len() ==> {
                    &&& 0 <= (#[trigger] visible.visible_squares@[i]).x < grid.width
                    &&& 0 <= visible.visible_squares@[i].y < grid.height
                },
        ensures
            final(self).wf(),
            final(self).width == old(self).width,
            final(self).height == old(self).height,
            forall|x: int, y: int|
                0 <= x < old(self).width && 0 <= y < old(self).height
                    ==> #[trigger] final(self).value_at_spec(x, y) == reveal_value(
                    *old(self),
                    *grid,
                    visible.visible_squares@,
                    x,
                    y,
                ),
    {
        let n: usize = visible.visible_squares.len();

        // Soft pass: clamp the whole clamped neighborhood of every visible
        // square down to the dim ceiling.
        let mut i: usize = 0;
        while i < n
            invariant
                0 <= i <= n,
                n == visible.visible_squares@.len(),
                self.wf(),
                grid.wf(),
                self.width == old(self).width,
                self.height == old(self).height,
                self.data@.len() == old(self).data@.len(),
                forall|k: int|
                    0 <= k < n ==> {
                        &&& 0 <= (#[trigger] visible.visible_squares@[k]).x < grid.width
                        &&& 0 <= visible.visible_squares@[k].y < grid.height
                    },
                self.width == grid.width && self.height == grid.height,
                forall|x: int, y: int|
                    0 <= x < self.width && 0 <= y < self.height ==> #[trigger] self.value_at_spec(
                        x,
                        y,
                    ) == (if in_halo(*grid, visible.visible_squares@.take(i as int), x, y) {
                        dim_clamped(*old(self), x, y)
                    } else {
                        old(self).value_at_spec(x, y)
                    }),
            decreases n - i,
        {
            let c = visible.visible_squares[i];
            let neigh = grid.neighbors(&crate::grid::GridPosition::new(c.x, c.y));
            let m: usize = neigh.len();
            let ghost data_before_cell = *self;
            let mut j: usize = 0;
            while j < m
                invariant
                    0 <= j <= m,
                    m == neigh@.len(),
                    0 <= i < n,
                    n == visible.visible_squares@.len(),
                    c == visible.visible_squares@[i as int],
                    0 <= c.x < grid.width && 0 <= c.y < grid.height,
                    self.wf(),
                    grid.wf(),
                    self.width == old(self).width && self.height == old(self).height,
                    self.data@.len() == old(self).data@.len(),
                    self.width == grid.width && self.height == grid.height,
                    forall|cc: CellVec| #[trigger]
                        neigh@.contains(cc) <==> in_bounding_box(
                            bounding_box_spec(*grid, whole_cell(c), 1),
                            cc.x as int,
                            cc.y as int,
                        ),
                    forall|x: int, y: int|
                        0 <= x < self.width && 0 <= y < self.height
                            ==> #[trigger] self.value_at_spec(x, y) == (if (in_halo(
                            *grid,
                            visible.visible_squares@.take(i as int),
                            x,
                            y,
                        ) || (exists|k: int|
                            0 <= k < j && (#[trigger] neigh@[k]).x == x && neigh@[k].y == y)) {
                            dim_clamped(*old(self), x, y)
                        } else {
                            old(self).value_at_spec(x, y)
                        }),
                decreases m - j,
            {
                let nc = neigh[j];
                proof {
                    assert(neigh@.contains(neigh@[j as int]));
                    crate::grid_layout::lemma_bounding_box_spec_in_grid(*grid, whole_cell(c), 1);
                    lemma_index_in_grid(
                        nc.x as int,
                        nc.y as int,
                        self.width as int,
                        self.height as int,
                    );
                }
                let idx: usize = (nc.x as usize) + (nc.y as usize) * self.width;
                let ghost prev = *self;
                let v: u32 = self.data[idx];
                let clamped: u32 = if v > FOG_DIM {
                    FOG_DIM
                } else {
                    v
                };
                self.data.set(idx, clamped);
                proof {
                    lemma_cell_update(prev, *self, *grid, nc.x as int, nc.y as int);
                    assert(idx as int == nc.x + nc.y * self.width);
                    assert(v == prev.value_at_spec(nc.x as int, nc.y as int));
                    assert(self.value_at_spec(nc.x as int, nc.y as int) == clamped);
                    assert(prev.value_at_spec(nc.x as int, nc.y as int) == (if (in_halo(
                        *grid,
                        visible.visible_squares@.take(i as int),
                        nc.x as int,
                        nc.y as int,
                    ) || (exists|k: int|
                        0 <= k < j && (#[trigger] neigh@[k]).x == nc.x && neigh@[k].y == nc.y)) {
                        dim_clamped(*old(self), nc.x as int, nc.y as int)
                    } else {
                        old(self).value_at_spec(nc.x as int, nc.y as int)
                    }));
                    assert(self.value_at_spec(nc.x as int, nc.y as int) == dim_clamped(
                        *old(self),
                        nc.x as int,
                        nc.y as int,
                    ));
                    assert forall|x: int, y: int|
                        0 <= x < self.width && 0 <= y < self.height implies #[trigger] self.value_at_spec(
                        x,
                        y,
                    ) == (if (in_halo(*grid, visible.visible_squares@.take(i as int), x, y) || (
                    exists|k: int|
                        0 <= k < j + 1 && (#[trigger] neigh@[k]).x == x && neigh@[k].y == y)) {
                        dim_clamped(*old(self), x, y)
                    } else {
                        old(self).value_at_spec(x, y)
                    }) by {
                        if x == nc.x && y == nc.y {
                            assert((neigh@[j as int]).x == x && neigh@[j as int].y == y);
                        } else {
                            if exists|k: int|
                                0 <= k < j + 1 && (#[trigger] neigh@[k]).x == x && neigh@[k].y
                                    == y {
                                let k = choose|k: int|
                                    0 <= k < j + 1 && (#[trigger] neigh@[k]).x == x
                                        && neigh@[k].y == y;
                                assert(k < j);
                            }
                        }
                    }
                }
                j = j + 1;
            }
            proof {
                assert forall|x: int, y: int|
                    0 <= x < self.width && 0 <= y < self.height implies #[trigger] self.value_at_spec(
                    x,
                    y,
                ) == (if in_halo(*grid, visible.visible_squares@.take(i + 1), x, y) {
                    dim_clamped(*old(self), x, y)
                } else {
                    old(self).value_at_spec(x, y)
                }) by {
                    lemma_halo_take_step(*grid, visible.visible_squares@, i as int, neigh@, x, y);
                }
            }
            i = i + 1;
        }
        proof {
            assert(visible.visible_squares@.take(n as int) =~= visible.visible_squares@);
        }

        // Core pass: the visible squares themselves go to fully revealed.
        let mut i2: usize = 0;
        let ghost after_halo = *self;
        while i2 < n
            invariant
                0 <= i2 <= n,
                n == visible.visible_squares@.len(),
                self.wf(),
                grid.wf(),
                self.width == after_halo.width && self.height == after_halo.height,
                self.width == old(self).width && self.height == old(self).height,
                self.data@.len() == after_halo.data@.len(),
                self.width == grid.width && self.height == grid.height,
                forall|k: int|
                    0 <= k < n ==> {
                        &&& 0 <= (#[trigger] visible.visible_squares@[k]).x < grid.width
                        &&& 0 <= visible.visible_squares@[k].y < grid.height
                    },
                forall|x: int, y: int|
                    0 <= x < self.width && 0 <= y < self.height ==> #[trigger] self.value_at_spec(
                        x,
                        y,
                    ) == (if in_core(visible.visible_squares@.take(i2 as int), x, y) {
                        0u32
                    } else {
                        after_halo.value_at_spec(x, y)
                    }),
            decreases n - i2,
        {
            let c = visible.visible_squares[i2];
            proof {
                lemma_index_in_grid(c.x as int, c.y as int, self.width as int, self.height as int);
            }
            let idx: usize = (c.x as usize) + (c.y as usize) * self.width;
            let ghost prev = *self;
            self.data.set(idx, 0);
            proof {
                lemma_cell_update(prev, *self, *grid, c.x as int, c.y as int);
                assert forall|x: int, y: int|
                    0 <= x < self.width && 0 <= y < self.height implies #[trigger] self.value_at_spec(
                    x,
                    y,
                ) == (if in_core(visible.visible_squares@.take(i2 + 1), x, y) {
                    0u32
                } else {
                    after_halo.value_at_spec(x, y)
                }) by {
                    lemma_core_take_step(visible.visible_squares@, i2 as int, x, y);
                }
            }
            i2 = i2 + 1;
        }
        proof {
            assert(visible.visible_squares@.take(n as int) =~= visible.visible_squares@);
        }
    }
}

/// What one reveal pass leaves in a cell: fully revealed for a visible
/// square, clamped to at most `FOG_DIM` for a cell of the clamped
/// 8-neighborhood of a visible square, untouched otherwise.
pub open spec fn reveal_value(
    before: FogOfWar,
    layout: GridLayout,
    vs: Seq<CellVec>,
    x: int,
    y: int,
) -> u32 {
    if in_core(vs, x, y) {
        0u32
    } else if in_halo(layout, vs, x, y) {
        dim_clamped(before, x, y)
    } else {
        before.value_at_spec(x, y)
    }
}

/// A cell's previous value clamped down to the dim ceiling.
pub open spec fn dim_clamped(before: FogOfWar, x: int, y: int) -> u32 {
    if before.value_at_spec(x, y) > FOG_DIM {
        FOG_DIM
    } else {
        before.value_at_spec(x, y)
    }
}

/// The row-major index of an in-grid cell is a valid index into the data
/// of a well-formed fog grid.
pub proof fn lemma_cell_index_in_range(x: int, y: int, w: int, h: int)
    requires
        0 <= x < w,
        0 <= y < h,
        w <= FOG_GRID_LIMIT,
        h <= FOG_GRID_LIMIT,
    ensures
        0 <= x + y * w < w * h,
{
    lemma_index_in_grid(x, y, w, h);
}

/// Fog values are never outside `[0, FOG_MAX]`.
pub proof fn lemma_fog_bounds(f: FogOfWar, x: int, y: int)
    requires
        f.wf(),
        0 <= x < f.width,
        0 <= y < f.height,
    ensures
        0 <= f.value_at_spec(x, y) <= FOG_MAX,
{
    lemma_index_in_grid(x, y, f.width as int, f.height as int);
}

/// The product of two grid dimensions stays comfortably within `usize`.
proof fn lemma_grid_size(w: int, h: int)
    by (nonlinear_arith)
    requires
        0 <= w <= FOG_GRID_LIMIT,
        0 <= h <= FOG_GRID_LIMIT,
    ensures
        0 <= w * h <= 0x4000_0000,
{
}

/// Row-major indices of in-grid cells are in range.
proof fn lemma_index_in_grid(x: int, y: int, w: int, h: int)
    by (nonlinear_arith)
    requires
        0 <= x < w,
        0 <= y < h,
        w <= FOG_GRID_LIMIT,
        h <= FOG_GRID_LIMIT,
    ensures
        0 <= y * w <= 0x4000_0000,
        0 <= x + y * w < w * h,
        w * h <= 0x4000_0000,
{
}

/// Distinct in-grid cells get distinct row-major indices.
proof fn lemma_index_injective(x: int, y: int, x2: int, y2: int, w: int, h: int)
    by (nonlinear_arith)
    requires
        0 <= x < w,
        0 <= y < h,
        0 <= x2 < w,
        0 <= y2 < h,
        x2 + y2 * w == x + y * w,
    ensures
        x2 == x,
        y2 == y,
{
}

/// After overwriting the cell `(cx, cy)`, every other in-grid cell reads
/// the same value as before.
proof fn lemma_cell_update(prev: FogOfWar, cur: FogOfWar, layout: GridLayout, cx: int, cy: int)
    requires
        prev.wf(),
        cur.width == prev.width,
        cur.height == prev.height,
        0 <= cx < prev.width,
        0 <= cy < prev.height,
        cur.data@ == prev.data@.update(cx + cy * prev.width, cur.data@[cx + cy * prev.width]),
    ensures
        forall|x: int, y: int|
            0 <= x < prev.width && 0 <= y < prev.height && !(x == cx && y == cy)
                ==> #[trigger] cur.value_at_spec(x, y) == prev.value_at_spec(x, y),
{
    lemma_index_in_grid(cx, cy, prev.width as int, prev.height as int);
    assert forall|x: int, y: int|
        0 <= x < prev.width && 0 <= y < prev.height && !(x == cx && y == cy) implies #[trigger] cur.value_at_spec(
        x,
        y,
    ) == prev.value_at_spec(x, y) by {
        lemma_index_in_grid(x, y, prev.width as int, prev.height as int);
        if x + y * prev.width == cx + cy * prev.width {
            lemma_index_injective(cx, cy, x, y, prev.width as int, prev.height as int);
        }
    }
}

/// Extending the halo by the neighborhood of the next visible square: a
/// cell is in the halo of the first `i + 1` squares exactly when it is in
/// the halo of the first `i` or in the neighborhood of square `i`.
proof fn lemma_halo_take_step(
    layout: GridLayout,
    vs: Seq<CellVec>,
    i: int,
    neigh: Seq<CellVec>,
    x: int,
    y: int,
)
    requires
        0 <= i < vs.len(),
        forall|cc: CellVec| #[trigger]
            neigh.contains(cc) <==> in_bounding_box(
                bounding_box_spec(layout, whole_cell(vs[i]), 1),
                cc.x as int,
                cc.y as int,
            ),
        -GRID_COORD_LIMIT <= x <= GRID_COORD_LIMIT,
        -GRID_COORD_LIMIT <= y <= GRID_COORD_LIMIT,
    ensures
        in_halo(layout, vs.take(i + 1), x, y) <==> (in_halo(layout, vs.take(i), x, y) || (exists|
            k: int,
        |
            0 <= k < neigh.len() && (#[trigger] neigh[k]).x == x && neigh[k].y == y)),
{
    let pre = vs.take(i);
    let ext = vs.take(i + 1);
    assert(forall|j: int| 0 <= j < i ==> #[trigger] ext[j] == vs[j] && #[trigger] pre[j] == vs[j]);
    assert(ext[i] == vs[i]);
    if in_halo(layout, ext, x, y) {
        let j = choose|j: int|
            0 <= j < ext.len() && in_bounding_box(
                bounding_box_spec(layout, whole_cell(#[trigger] ext[j]), 1),
                x,
                y,
            );
        if j < i {
            assert(in_bounding_box(bounding_box_spec(layout, whole_cell(pre[j]), 1), x, y));
        } else {
            let cc = CellVec { x: x as i64, y: y as i64 };
            assert(in_bounding_box(bounding_box_spec(layout, whole_cell(vs[i]), 1), cc.x as int,
                cc.y as int));
            assert(neigh.contains(cc));
            let k = choose|k: int| 0 <= k < neigh.len() && #[trigger] neigh[k] == cc;
            assert(neigh[k].x == x && neigh[k].y == y);
        }
    }
    if in_halo(layout, pre, x, y) {
        let j = choose|j: int|
            0 <= j < pre.len() && in_bounding_box(
                bounding_box_spec(layout, whole_cell(#[trigger] pre[j]), 1),
                x,
                y,
            );
        assert(in_bounding_box(bounding_box_spec(layout, whole_cell(ext[j]), 1), x, y));
    }
    if exists|k: int| 0 <= k < neigh.len() && (#[trigger] neigh[k]).x == x && neigh[k].y == y {
        let k = choose|k: int|
            0 <= k < neigh.len() && (#[trigger] neigh[k]).x == x && neigh[k].y == y;
        assert(neigh.contains(neigh[k]));
        assert(in_bounding_box(bounding_box_spec(layout, whole_cell(ext[i]), 1), x, y));
    }
}

/// Extending the core by the next visible square.
proof fn lemma_core_take_step(vs: Seq<CellVec>, i: int, x: int, y: int)
    requires
        0 <= i < vs.len(),
    ensures
        in_core(vs.take(i + 1), x, y) <==> (in_core(vs.take(i), x, y) || (vs[i].x == x && vs[i].y
            == y)),
{
    let pre = vs.take(i);
    let ext = vs.take(i + 1);
    assert(forall|j: int| 0 <= j < i ==> #[trigger] ext[j] == vs[j] && #[trigger] pre[j] == vs[j]);
    assert(ext[i] == vs[i]);
    if in_core(ext, x, y) {
        let j = choose|j: int|
            0 <= j < ext.len() && (#[trigger] ext[j]).x == x && ext[j].y == y;
        if j < i {
            assert(pre[j].x == x && pre[j].y == y);
        }
    }
    if in_core(pre, x, y) {
        let j = choose|j: int|
            0 <= j < pre.len() && (#[trigger] pre[j]).x == x && pre[j].y == y;
        assert(ext[j].x == x && ext[j].y == y);
    }
}

} // verus!

//! Observer vision: facing direction, vision ability (cone and range), the
//! exact field-of-view cone test, and the per-observer visibility sampler.
//!
//! The cone is described by the cosine of its half angle, in thousandths
//! (`cos_half_fov_milli`): a candidate cell is inside the cone when the angle
//! between the ray to it and the facing direction is at most the half angle,
//! i.e. when `1000 * dot >= cos_half_fov_milli * |ray| * |facing|`. The test
//! is evaluated exactly by comparing squares and signs, so the boundary of
//! the cone counts as inside, and only the directions of the vectors matter,
//! not their lengths.

use vstd::prelude::*;

use crate::front_facing_edges::FacingWallsCache;
use crate::grid::CellVec;
use crate::grid::GRID_COORD_LIMIT;
use crate::grid::GridPosition;
use crate::grid_layout::GridLayout;
use crate::grid_layout::bounding_box_spec;
use crate::grid_layout::in_bounding_box;
use crate::grid_layout::world_x;
use crate::grid_layout::world_y;
use crate::line_segment::LineSegment;
use crate::line_segment::segments_intersect;

verus! {

/// One thousand: the denominator of milli-cosines and the factor that puts
/// the dot product on the same scale.
pub const COS_SCALE: i64 = 1000;

/// Bound on the components of a facing vector.
pub const FACING_LIMIT: i64 = 4096;

/// Which direction an observer is looking, as a vector whose length does not
/// matter; only its direction enters the cone test. A unit vector scaled by
/// 1000 is the conventional choice.
#[derive(Clone, Copy, Debug, PartialEq, Eq, Structural)]
pub struct Facing {
    pub direction: CellVec,
}

impl Default for Facing {
    /// Looking along the positive x axis.
    fn default() -> (f: Facing)
        ensures
            f == (Facing { direction: CellVec { x: 1000i64, y: 0i64 } }),
            f.wf(),
    {
        Facing { direction: CellVec { x: COS_SCALE, y: 0 } }
    }
}

impl Facing {
    /// A usable facing: not the zero vector, with components small enough
    /// for the exact cone arithmetic.
    pub open spec fn wf(self) -> bool {
        &&& !(self.direction.x == 0 && self.direction.y == 0)
        &&& -FACING_LIMIT <= self.direction.x <= FACING_LIMIT
        &&& -FACING_LIMIT <= self.direction.y <= FACING_LIMIT
    }
}

/// An observer's vision: the total cone angle, carried as the milli-cosine
/// of the half angle, and the vision range in grid units.
#[derive(Clone, Copy, Debug, PartialEq, Eq, Structural)]
pub struct VisionAbility {
    pub cos_half_fov_milli: i64,
    pub range_in_grid_units: i64,
}

impl Default for VisionAbility {
    /// The player's vision: full circle, long range.
    fn default() -> (v: VisionAbility)
        ensures
            v == archetype_vision(VisionArchetype::Player),
            v.wf(),
    {
        VisionAbility::of(VisionArchetype::Player)
    }
}

impl VisionAbility {
    pub open spec fn wf(self) -> bool {
        &&& -COS_SCALE <= self.cos_half_fov_milli <= COS_SCALE
        &&& 0 <= self.range_in_grid_units <= GRID_COORD_LIMIT
    }

    /// The preset vision of an archetype.
    pub fn of(archetype: VisionArchetype) -> (v: VisionAbility)
        ensures
            v == archetype_vision(archetype),
            v.wf(),
    {
        match archetype {
            // Narrow cone of one eighth turn in total: cos(pi/16) ~ 0.981.
            VisionArchetype::Sniper => VisionAbility {
                cos_half_fov_milli: 981,
                range_in_grid_units: 10,
            },
            // Quarter-turn cone in total: cos(pi/8) ~ 0.924.
            VisionArchetype::Patrol => VisionAbility {
                cos_half_fov_milli: 924,
                range_in_grid_units: 5,
            },
            // Full circle: cos(pi) = -1 admits every direction.
            VisionArchetype::Specter => VisionAbility {
                cos_half_fov_milli: (-1000) as i64,
                range_in_grid_units: 5,
            },
            VisionArchetype::Player => VisionAbility {
                cos_half_fov_milli: (-1000) as i64,
                range_in_grid_units: 30,
            },
        }
    }
}

/// The preset vision of an archetype, as a value.
pub open spec fn archetype_vision(archetype: VisionArchetype) -> VisionAbility {
    match archetype {
        VisionArchetype::Sniper => VisionAbility { cos_half_fov_milli: 981, range_in_grid_units: 10 },
        VisionArchetype::Patrol => VisionAbility { cos_half_fov_milli: 924, range_in_grid_units: 5 },
        VisionArchetype::Specter => VisionAbility {
            cos_half_fov_milli: (-1000) as i64,
            range_in_grid_units: 5,
        },
        VisionArchetype::Player => VisionAbility {
            cos_half_fov_milli: (-1000) as i64,
            range_in_grid_units: 30,
        },
    }
}

/// Vision presets for the kinds of observers the game spawns.
#[derive(Clone, Copy, Debug, PartialEq, Eq, Structural)]
pub enum VisionArchetype {
    /// Very narrow cone, long range.
    Sniper,
    /// Medium cone, medium range.
    Patrol,
    /// Like the player but less range.
    Specter,
    /// Full circle, long range.
    Player,
}

/// The dot product of the ray and the facing direction.
pub open spec fn cone_dot(ray_dx: int, ray_dy: int, facing: Facing) -> int {
    ray_dx * facing.direction.x + ray_dy * facing.direction.y
}

/// The product of the squared lengths of the ray and the facing direction.
pub open spec fn cone_norm2(ray_dx: int, ray_dy: int, facing: Facing) -> int {
    (ray_dx * ray_dx + ray_dy * ray_dy) * (facing.direction.x * facing.direction.x
        + facing.direction.y * facing.direction.y)
}

/// Whether the angle between the ray and the facing direction is at most the
/// half angle whose milli-cosine is `cos_half_milli`: the exact encoding of
/// `1000 * dot >= cos_half_milli * |ray| * |facing|`, squared to avoid the
/// roots, with the signs handled case by case.
pub open spec fn in_cone(ray_dx: int, ray_dy: int, facing: Facing, cos_half_milli: int) -> bool {
    let d = cone_dot(ray_dx, ray_dy, facing);
    let r2 = cone_norm2(ray_dx, ray_dy, facing);
    if cos_half_milli <= 0 {
        d >= 0 || COS_SCALE * COS_SCALE * d * d <= cos_half_milli * cos_half_milli * r2
    } else {
        d >= 0 && COS_SCALE * COS_SCALE * d * d >= cos_half_milli * cos_half_milli * r2
    }
}

/// Bounds product magnitudes for the exact cone arithmetic.
proof fn lemma_mul_bound(a: int, b: int, m: int, n: int)
    by (nonlinear_arith)
    requires
        -m <= a <= m,
        -n <= b <= n,
        0 <= m,
        0 <= n,
    ensures
        -(m * n) <= a * b <= m * n,
{
}

/// The exact cone test on executable integers.
pub fn check_in_cone(ray_dx: i64, ray_dy: i64, facing: &Facing, cos_half_milli: i64) -> (r: bool)
    requires
        -0x100_0000_0000 <= ray_dx <= 0x100_0000_0000,
        -0x100_0000_0000 <= ray_dy <= 0x100_0000_0000,
        facing.wf(),
        -COS_SCALE <= cos_half_milli <= COS_SCALE,
    ensures
        r == in_cone(ray_dx as int, ray_dy as int, *facing, cos_half_milli as int),
{
    let fx = facing.direction.x as i128;
    let fy = facing.direction.y as i128;
    let rx = ray_dx as i128;
    let ry = ray_dy as i128;
    proof {
        lemma_mul_bound(rx as int, fx as int, 0x100_0000_0000, 4096);
        lemma_mul_bound(ry as int, fy as int, 0x100_0000_0000, 4096);
        lemma_mul_bound(rx as int, rx as int, 0x100_0000_0000, 0x100_0000_0000);
        lemma_mul_bound(ry as int, ry as int, 0x100_0000_0000, 0x100_0000_0000);
        lemma_mul_bound(fx as int, fx as int, 4096, 4096);
        lemma_mul_bound(fy as int, fy as int, 4096, 4096);
        lemma_mul_bound(
            rx * rx + ry * ry,
            fx * fx + fy * fy,
            0x2_0000_0000_0000_0000_0000,
            0x200_0000,
        );
        lemma_mul_bound(
            rx * fx + ry * fy,
            rx * fx + ry * fy,
            0x20_0000_0000_0000,
            0x20_0000_0000_0000,
        );
        lemma_mul_bound(1000000, (rx * fx + ry * fy) as int, 1000000, 0x20_0000_0000_0000);
        lemma_mul_bound(
            1000000 * (rx * fx + ry * fy),
            (rx * fx + ry * fy) as int,
            0x200_0000_0000_0000_0000,
            0x20_0000_0000_0000,
        );
        lemma_mul_bound(cos_half_milli as int, cos_half_milli as int, 1000, 1000);
        lemma_mul_bound(
            (cos_half_milli as int) * (cos_half_milli as int),
            (rx * rx + ry * ry) * (fx * fx + fy * fy),
            1000000,
            0x400_0000_0000_0000_0000_0000_0000,
        );
    }
    let d: i128 = rx * fx + ry * fy;
    let r2: i128 = (rx * rx + ry * ry) * (fx * fx + fy * fy);
    let n: i128 = cos_half_milli as i128;
    let lhs: i128 = 1000000 * d * d;
    let rhs: i128 = (n * n) * r2;
    if cos_half_milli <= 0 {
        d >= 0 || lhs <= rhs
    } else {
        d >= 0 && lhs >= rhs
    }
}

/// The cells an observer currently sees, with the position the set was last
/// computed for; the sampler skips recomputation while the observer stays on
/// the same whole cell.
#[derive(Debug, Clone)]
pub struct VisibleSquares {
    pub visible_squares: Vec<CellVec>,
    pub for_position: GridPosition,
}

impl VisibleSquares {
    /// An empty set, keyed far off the grid so the first update computes.
    pub fn new() -> (v: VisibleSquares)
        ensures
            v.visible_squares@ =~= Seq::<CellVec>::empty(),
            v.for_position.coordinates == (CellVec { x: -10i64, y: -10i64 }),
            v.for_position.offset_normalized(),
    {
        VisibleSquares {
            visible_squares: Vec::new(),
            for_position: GridPosition {
                coordinates: CellVec { x: -10, y: -10 },
                offset: CellVec { x: 0, y: 0 },
            },
        }
    }

    /// An element-wise copy of the set (the cells are plain values).
    pub fn clone_squares(&self) -> (r: VisibleSquares)
        ensures
            r.visible_squares@ == self.visible_squares@,
            r.for_position == self.for_position,
    {
        let n: usize = self.visible_squares.len();
        let mut v: Vec<CellVec> = Vec::new();
        let mut i: usize = 0;
        while i < n
            invariant
                n == self.visible_squares@.len(),
                0 <= i <= n,
                v@ =~= self.visible_squares@.take(i as int),
            decreases n - i,
        {
            v.push(self.visible_squares[i]);
            proof {
                assert(v@ =~= self.visible_squares@.take(i + 1));
            }
            i = i + 1;
        }
        proof {
            assert(v@ =~= self.visible_squares@);
        }
        VisibleSquares { visible_squares: v, for_position: self.for_position }
    }

    /// Whether the observer sees the whole cell the target stands on.
    pub fn contains(&self, target: &GridPosition) -> (r: bool)
        ensures
            r == self.visible_squares@.contains(target.coordinates),
    {
        let n: usize = self.visible_squares.len();
        let mut i: usize = 0;
        while i < n
            invariant
                n == self.visible_squares@.len(),
                0 <= i <= n,
                forall|j: int| 0 <= j < i ==> #[trigger] self.visible_squares@[j]
                    != target.coordinates,
            decreases n - i,
        {
            let c = self.visible_squares[i];
            if c.x == target.coordinates.x && c.y == target.coordinates.y {
                assert(self.visible_squares@[i as int] == target.coordinates);
                return true;
            }
            i = i + 1;
        }
        false
    }
}

/// A grid cell as a position with no sub-cell offset.
pub open spec fn whole_cell(c: CellVec) -> GridPosition {
    GridPosition { coordinates: c, offset: CellVec { x: 0i64, y: 0i64 } }
}

/// The world point of a whole cell.
pub open spec fn cell_world(layout: GridLayout, c: CellVec) -> crate::world_point::WorldPoint {
    crate::world_point::WorldPoint {
        x: world_x(layout, whole_cell(c)) as i64,
        y: world_y(layout, whole_cell(c)) as i64,
    }
}

/// The world-space ray from the observer's whole cell to a candidate cell.
pub open spec fn cell_ray(layout: GridLayout, from: CellVec, to: CellVec) -> LineSegment {
    crate::grid_layout::segment_of(cell_world(layout, from), cell_world(layout, to))
}

/// Whether some cached edge intersects the ray.
pub open spec fn ray_blocked(edges: Seq<LineSegment>, ray: LineSegment) -> bool {
    exists|i: int| 0 <= i < edges.len() && segments_intersect(ray, #[trigger] edges[i])
}

/// Whether one candidate cell is visible to the observer: a cell within one
/// grid unit is always visible; beyond that, the cell must be within range,
/// within the field-of-view cone around the facing direction (cone boundary
/// included), and the ray from the observer's cell to it must clear every
/// cached facing wall edge. The test reads only whole-cell coordinates, so
/// it depends on nothing but its arguments.
pub open spec fn cell_visible(
    layout: GridLayout,
    pos: GridPosition,
    facing: Facing,
    vision: VisionAbility,
    edges: Seq<LineSegment>,
    c: CellVec,
) -> bool {
    let dx = c.x - pos.coordinates.x;
    let dy = c.y - pos.coordinates.y;
    let range = vision.range_in_grid_units as int;
    if dx * dx + dy * dy <= 1 {
        true
    } else if dx * dx + dy * dy > range * range {
        false
    } else {
        let ray = cell_ray(layout, pos.coordinates, c);
        let rdx = ray.b.x - ray.a.x;
        let rdy = ray.b.y - ray.a.y;
        &&& in_cone(rdx, rdy, facing, vision.cos_half_fov_milli as int)
        &&& !ray_blocked(edges, ray)
    }
}

/// Everything the observer sees: the cells of the clamped bounding box of
/// its vision range that `cell_visible` admits. This is a pure function of
/// the observer's state and the cached edges, which is what makes the
/// sampler deterministic.
pub open spec fn visible_set(
    layout: GridLayout,
    pos: GridPosition,
    facing: Facing,
    vision: VisionAbility,
    edges: Seq<LineSegment>,
) -> Set<CellVec> {
    Set::new(
        |c: CellVec|
            {
                &&& in_bounding_box(
                    bounding_box_spec(layout, pos, vision.range_in_grid_units as int),
                    c.x as int,
                    c.y as int,
                )
                &&& cell_visible(layout, pos, facing, vision, edges, c)
            },
    )
}

/// Recompute which cells an observer sees, unless the observer still stands
/// on the whole cell the current set was computed for.
pub fn update_visible_squares(
    grid: &GridLayout,
    grid_position: &GridPosition,
    vision: &VisionAbility,
    facing: &Facing,
    walls: &FacingWallsCache,
    visible_squares: &mut VisibleSquares,
)
    requires
        grid.wf(),
        vision.wf(),
        facing.wf(),
        grid_position.offset_normalized(),
        grid_position.coords_in_bounds(),
        walls.edges_wf(),
    ensures
        grid_position.coordinates == old(visible_squares).for_position.coordinates
            ==> *final(visible_squares) == *old(visible_squares),
        grid_position.coordinates != old(visible_squares).for_position.coordinates ==> {
            &&& final(visible_squares).for_position == *grid_position
            &&& forall|c: CellVec| #[trigger]
                final(visible_squares).visible_squares@.contains(c) <==> visible_set(
                    *grid,
                    *grid_position,
                    *facing,
                    *vision,
                    walls.facing_wall_edges@,
                ).contains(c)
        },
{
    let ray_start = grid_position.coordinates;
    // Distance below one whole cell means the same cell: skip recomputation.
    if ray_start.x == visible_squares.for_position.coordinates.x && ray_start.y
        == visible_squares.for_position.coordinates.y {
        return ;
    }
    resample_visible_squares(grid, grid_position, vision, facing, walls, visible_squares);
}

/// Recompute which cells an observer sees, unconditionally: used when the
/// obstacle set changed under a stationary observer, so that a wall closed
/// this tick already occludes this tick.
pub fn resample_visible_squares(
    grid: &GridLayout,
    grid_position: &GridPosition,
    vision: &VisionAbility,
    facing: &Facing,
    walls: &FacingWallsCache,
    visible_squares: &mut VisibleSquares,
)
    requires
        grid.wf(),
        vision.wf(),
        facing.wf(),
        grid_position.offset_normalized(),
        grid_position.coords_in_bounds(),
        walls.edges_wf(),
    ensures
        final(visible_squares).for_position == *grid_position,
        forall|c: CellVec| #[trigger]
            final(visible_squares).visible_squares@.contains(c) <==> visible_set(
                *grid,
                *grid_position,
                *facing,
                *vision,
                walls.facing_wall_edges@,
            ).contains(c),
{
    visible_squares.for_position = *grid_position;

    let mut new_squares: Vec<CellVec> = Vec::new();

    let bb = grid.bounding_box(grid_position, vision.range_in_grid_units);
    let (x0, x_end) = bb.xrange();
    let (y0, y_end) = bb.yrange();
    let ghost vset = visible_set(
        *grid,
        *grid_position,
        *facing,
        *vision,
        walls.facing_wall_edges@,
    );

    let mut x: i64 = x0;
    while x < x_end
        invariant
            grid.wf(),
            vision.wf(),
            facing.wf(),
            grid_position.offset_normalized(),
            grid_position.coords_in_bounds(),
            walls.edges_wf(),
            bb == bounding_box_spec(*grid, *grid_position, vision.range_in_grid_units as int),
            bb.wf(),
            x0 == bb.origin.x && x_end == bb.origin.x + bb.dimensions.x,
            y0 == bb.origin.y && y_end == bb.origin.y + bb.dimensions.y,
            x0 <= x <= x_end,
            vset == visible_set(
                *grid,
                *grid_position,
                *facing,
                *vision,
                walls.facing_wall_edges@,
            ),
            forall|c: CellVec| #[trigger]
                new_squares@.contains(c) <==> (x0 <= c.x < x && y0 <= c.y < y_end
                    && vset.contains(c)),
        decreases x_end - x,
    {
        let mut y: i64 = y0;
        while y < y_end
            invariant
                grid.wf(),
                vision.wf(),
                facing.wf(),
                grid_position.offset_normalized(),
                grid_position.coords_in_bounds(),
                walls.edges_wf(),
                bb == bounding_box_spec(*grid, *grid_position, vision.range_in_grid_units as int),
                bb.wf(),
                x0 == bb.origin.x && x_end == bb.origin.x + bb.dimensions.x,
                y0 == bb.origin.y && y_end == bb.origin.y + bb.dimensions.y,
                x0 <= x < x_end,
                y0 <= y <= y_end,
                vset == visible_set(
                    *grid,
                    *grid_position,
                    *facing,
                    *vision,
                    walls.facing_wall_edges@,
                ),
                forall|c: CellVec| #[trigger]
                    new_squares@.contains(c) <==> ((x0 <= c.x < x && y0 <= c.y < y_end
                        && vset.contains(c)) || (c.x == x && y0 <= c.y < y && vset.contains(c))),
            decreases y_end - y,
        {
            let cell = CellVec { x, y };
            let visible = cell_is_visible(grid, grid_position, vision, facing, walls, &cell);
            proof {
                assert(in_bounding_box(bb, cell.x as int, cell.y as int));
                assert(vset.contains(cell) == cell_visible(
                    *grid,
                    *grid_position,
                    *facing,
                    *vision,
                    walls.facing_wall_edges@,
                    cell,
                ));
            }
            if visible {
                new_squares.push(cell);
            }
            proof {
                broadcast use vstd::seq_lib::lemma_seq_contains_after_push;

            }
            y = y + 1;
        }
        x = x + 1;
    }
    visible_squares.visible_squares = new_squares;
}

/// The per-cell visibility test: distance, cone, then occlusion against the
/// cached facing wall edges.
#[verifier::loop_isolation(false)]
fn cell_is_visible(
    grid: &GridLayout,
    grid_position: &GridPosition,
    vision: &VisionAbility,
    facing: &Facing,
    walls: &FacingWallsCache,
    cell: &CellVec,
) -> (r: bool)
    requires
        grid.wf(),
        vision.wf(),
        facing.wf(),
        grid_position.coords_in_bounds(),
        walls.edges_wf(),
        -GRID_COORD_LIMIT <= cell.x <= GRID_COORD_LIMIT,
        -GRID_COORD_LIMIT <= cell.y <= GRID_COORD_LIMIT,
    ensures
        r == cell_visible(
            *grid,
            *grid_position,
            *facing,
            *vision,
            walls.facing_wall_edges@,
            *cell,
        ),
{
    let dx: i64 = cell.x - grid_position.coordinates.x;
    let dy: i64 = cell.y - grid_position.coordinates.y;
    let range: i64 = vision.range_in_grid_units;
    proof {
        lemma_mul_bound(dx as int, dx as int, 0x10_0000, 0x10_0000);
        lemma_mul_bound(dy as int, dy as int, 0x10_0000, 0x10_0000);
        lemma_mul_bound(range as int, range as int, 0x4_0000, 0x4_0000);
    }
    let d2: i64 = dx * dx + dy * dy;

    // A cell within one grid unit is visible unconditionally.
    if d2 <= 1 {
        return true;
    }
    // Beyond the vision range the cell is out of sight; the bounding box is
    // a square superset of the circular range.
    if d2 > range * range {
        return false;
    }

    // Outside the cone around the facing direction the cell is out of sight.
    let ws = grid.grid_to_world(&GridPosition::new(grid_position.coordinates.x,
        grid_position.coordinates.y));
    let we = grid.grid_to_world(&GridPosition::new(cell.x, cell.y));
    let ray_dx: i64 = we.x - ws.x;
    let ray_dy: i64 = we.y - ws.y;
    let cone_ok = check_in_cone(ray_dx, ray_dy, facing, vision.cos_half_fov_milli);
    proof {
        let sray = cell_ray(*grid, grid_position.coordinates, *cell);
        assert(sray.b.x == we.x && sray.a.x == ws.x && sray.b.y == we.y && sray.a.y == ws.y);
        assert(cone_ok == in_cone(
            sray.b.x - sray.a.x,
            sray.b.y - sray.a.y,
            *facing,
            vision.cos_half_fov_milli as int,
        ));
    }
    if !cone_ok {
        return false;
    }

    // A facing wall edge crossing the ray occludes the cell.
    let ray = LineSegment::new(ws, we);
    proof {
        assert(ray == cell_ray(*grid, grid_position.coordinates, *cell));
    }
    let n: usize = walls.facing_wall_edges.len();
    let mut i: usize = 0;
    while i < n
        invariant
            n == walls.facing_wall_edges@.len(),
            0 <= i <= n,
            walls.edges_wf(),
            ray.in_geometry_bounds(),
            forall|j: int|
                0 <= j < i ==> !segments_intersect(ray, #[trigger] walls.facing_wall_edges@[j]),
        decreases n - i,
    {
        let wall_in_the_way = ray.do_intersect(&walls.facing_wall_edges[i]);
        if wall_in_the_way {
            assert(ray_blocked(walls.facing_wall_edges@, ray));
            return false;
        }
        i = i + 1;
    }
    true
}

/// Determinism of the sampler: any two visible-cell collections computed
/// from the same position, facing, vision ability and facing-wall cache
/// hold exactly the same cells.
pub proof fn lemma_sampler_deterministic(
    layout: GridLayout,
    pos: GridPosition,
    facing: Facing,
    vision: VisionAbility,
    edges: Seq<LineSegment>,
    s1: Seq<CellVec>,
    s2: Seq<CellVec>,
)
    requires
        forall|c: CellVec| #[trigger]
            s1.contains(c) <==> visible_set(layout, pos, facing, vision, edges).contains(c),
        forall|c: CellVec| #[trigger]
            s2.contains(c) <==> visible_set(layout, pos, facing, vision, edges).contains(c),
    ensures
        forall|c: CellVec| #[trigger] s1.contains(c) <==> #[trigger] s2.contains(c),
{
}

/// Self-visibility: an observer standing on the grid always sees its own
/// cell and every in-grid cell within one grid unit, whatever the obstacles,
/// the facing direction and the field of view. (A cell beyond the grid's
/// edge is clamped out of the sampled box, so only in-grid cells are
/// guaranteed; the vision range must cover at least the adjacent cells.)
pub proof fn lemma_self_visibility(
    layout: GridLayout,
    pos: GridPosition,
    facing: Facing,
    vision: VisionAbility,
    edges: Seq<LineSegment>,
    c: CellVec,
)
    requires
        layout.wf(),
        vision.wf(),
        vision.range_in_grid_units >= 1,
        0 <= pos.coordinates.x < layout.width,
        0 <= pos.coordinates.y < layout.height,
        0 <= c.x < layout.width,
        0 <= c.y < layout.height,
        (c.x - pos.coordinates.x) * (c.x - pos.coordinates.x) + (c.y - pos.coordinates.y) * (c.y
            - pos.coordinates.y) <= 1,
    ensures
        visible_set(layout, pos, facing, vision, edges).contains(c),
{
    let dx = c.x - pos.coordinates.x;
    let dy = c.y - pos.coordinates.y;
    assert(-1 <= dx <= 1 && -1 <= dy <= 1) by (nonlinear_arith)
        requires
            dx * dx + dy * dy <= 1,
    ;
    assert(cell_visible(layout, pos, facing, vision, edges, c));
    assert(in_bounding_box(
        bounding_box_spec(layout, pos, vision.range_in_grid_units as int),
        c.x as int,
        c.y as int,
    ));
}

/// Range monotonicity: growing the vision range while holding everything
/// else fixed never removes a cell from the visible set.
pub proof fn lemma_range_monotonic(
    layout: GridLayout,
    pos: GridPosition,
    facing: Facing,
    v1: VisionAbility,
    v2: VisionAbility,
    edges: Seq<LineSegment>,
    c: CellVec,
)
    requires
        v1.wf(),
        v2.wf(),
        v1.cos_half_fov_milli == v2.cos_half_fov_milli,
        v1.range_in_grid_units <= v2.range_in_grid_units,
        visible_set(layout, pos, facing, v1, edges).contains(c),
    ensures
        visible_set(layout, pos, facing, v2, edges).contains(c),
{
    let r1 = v1.range_in_grid_units as int;
    let r2 = v2.range_in_grid_units as int;
    assert(r1 * r1 <= r2 * r2) by (nonlinear_arith)
        requires
            0 <= r1 <= r2,
    ;
    assert(cell_visible(layout, pos, facing, v2, edges, c));
    assert(in_bounding_box(bounding_box_spec(layout, pos, r2), c.x as int, c.y as int));
}

/// Field-of-view monotonicity: widening the cone (lowering the milli-cosine
/// of its half angle) while holding everything else fixed never removes a
/// cell from the visible set.
pub proof fn lemma_fov_monotonic(
    layout: GridLayout,
    pos: GridPosition,
    facing: Facing,
    v1: VisionAbility,
    v2: VisionAbility,
    edges: Seq<LineSegment>,
    c: CellVec,
)
    requires
        v1.wf(),
        v2.wf(),
        v1.range_in_grid_units == v2.range_in_grid_units,
        v2.cos_half_fov_milli <= v1.cos_half_fov_milli,
        visible_set(layout, pos, facing, v1, edges).contains(c),
    ensures
        visible_set(layout, pos, facing, v2, edges).contains(c),
{
    let dx = c.x - pos.coordinates.x;
    let dy = c.y - pos.coordinates.y;
    let range = v1.range_in_grid_units as int;
    if dx * dx + dy * dy > 1 && dx * dx + dy * dy <= range * range {
        let ray = cell_ray(layout, pos.coordinates, c);
        lemma_in_cone_monotonic(
            ray.b.x - ray.a.x,
            ray.b.y - ray.a.y,
            facing,
            v1.cos_half_fov_milli as int,
            v2.cos_half_fov_milli as int,
        );
    }
    assert(cell_visible(layout, pos, facing, v2, edges, c));
}

/// Widening the cone never removes a direction: if a ray is inside the cone
/// with milli-cosine threshold `n1`, it is inside every cone with a lower
/// threshold `n2` (a larger field of view).
pub proof fn lemma_in_cone_monotonic(
    ray_dx: int,
    ray_dy: int,
    facing: Facing,
    n1: int,
    n2: int,
)
    requires
        n2 <= n1,
        in_cone(ray_dx, ray_dy, facing, n1),
    ensures
        in_cone(ray_dx, ray_dy, facing, n2),
{
    let d = cone_dot(ray_dx, ray_dy, facing);
    let r2 = cone_norm2(ray_dx, ray_dy, facing);
    let fx = facing.direction.x as int;
    let fy = facing.direction.y as int;
    assert((ray_dx * ray_dx + ray_dy * ray_dy) * (fx * fx + fy * fy) >= 0) by (nonlinear_arith);
    assert(r2 == (ray_dx * ray_dx + ray_dy * ray_dy) * (fx * fx + fy * fy));
    if n1 <= 0 {
        if d < 0 {
            assert(n1 * n1 * r2 <= n2 * n2 * r2) by (nonlinear_arith)
                requires
                    n2 <= n1 <= 0,
                    r2 >= 0,
            ;
        }
    } else {
        if n2 > 0 {
            assert(n2 * n2 * r2 <= n1 * n1 * r2) by (nonlinear_arith)
                requires
                    0 < n2 <= n1,
                    r2 >= 0,
            ;
        }
    }
}

} // verus!

//! The per-observer cache of wall edges that face the observer.
//!
//! For every vision-blocking cell within the observer's range, the cache
//! keeps the sides of that cell's box which face the observer and whose
//! exterior neighbor is not itself blocking (an edge buried between two
//! blockers can never be hit first). The edges are sorted nearest-first by
//! the distance from the observer's world position to each edge's center.
//! The cache is keyed on the observer's whole-cell coordinates: it is
//! recomputed exactly when those coordinates differ from the stored key.

use vstd::prelude::*;

use crate::grid::CellVec;
use crate::grid::GridPosition;
use crate::grid::HALF_CELL;
use crate::grid::OFFSET_SCALE;
use crate::grid_layout::GridLayout;
use crate::grid_layout::WORLD_LIMIT;
use crate::grid_layout::sides_spec;
use crate::grid_layout::world_x;
use crate::grid_layout::world_y;
use crate::level::LevelVisionBlockers;
use crate::line_segment::LineSegment;
use crate::vision::VisionAbility;
use crate::world_point::WorldPoint;

verus! {

/// Per-observer cache: the whole-cell coordinates the edges were computed
/// for, and the facing wall edges sorted nearest-first.
#[derive(Debug, Clone)]
pub struct FacingWallsCache {
    pub last_grid_position: CellVec,
    pub facing_wall_edges: Vec<LineSegment>,
}

impl FacingWallsCache {
    /// Every cached edge is a well-formed segment within geometry bounds.
    pub open spec fn edges_wf(self) -> bool {
        forall|i: int|
            0 <= i < self.facing_wall_edges@.len() ==> {
                &&& (#[trigger] self.facing_wall_edges@[i]).wf()
                &&& self.facing_wall_edges@[i].in_geometry_bounds()
            }
    }

    /// A fresh cache, keyed far off the grid so that the first update
    /// always recomputes.
    pub fn new() -> (c: FacingWallsCache)
        ensures
            c.last_grid_position == (CellVec { x: -10i64, y: -10i64 }),
            c.facing_wall_edges@ =~= Seq::<LineSegment>::empty(),
            c.edges_wf(),
    {
        FacingWallsCache {
            last_grid_position: CellVec { x: -10, y: -10 },
            facing_wall_edges: Vec::new(),
        }
    }
}

/// A vision-blocking cell as a grid position: the cell's box is centered on
/// the cell center, so its southwest anchor sits half a cell back.
pub open spec fn wall_grid_position(w: CellVec) -> GridPosition {
    GridPosition {
        coordinates: w,
        offset: CellVec { x: (-HALF_CELL) as i64, y: (-HALF_CELL) as i64 },
    }
}

/// Whether a wall cell is within the observer's vision range: the
/// straight-line distance from the observer's exact position to the wall
/// cell's center, compared squared in milli-cells so the test is exact.
pub open spec fn wall_in_range(p: GridPosition, w: CellVec, range: int) -> bool {
    let dx = OFFSET_SCALE * (p.coordinates.x - w.x) + p.offset.x;
    let dy = OFFSET_SCALE * (p.coordinates.y - w.y) + p.offset.y;
    dx * dx + dy * dy <= (OFFSET_SCALE * range) * (OFFSET_SCALE * range)
}

/// The facing sides a single wall cell contributes: its east or west side
/// when the observer is strictly east or west of the cell and the exterior
/// neighbor on that side is clear, and likewise its north or south side;
/// zero, one or two edges in all, the x-facing edge first.
pub open spec fn edges_for_wall(
    layout: GridLayout,
    p: GridPosition,
    blockers: LevelVisionBlockers,
    w: CellVec,
) -> Seq<LineSegment> {
    let sides = sides_spec(layout, wall_grid_position(w));
    let xs: Seq<LineSegment> = if p.coordinates.x > w.x && !blockers.blocks(w.x + 1, w.y as int) {
        seq![sides.east]
    } else if p.coordinates.x < w.x && !blockers.blocks(w.x - 1, w.y as int) {
        seq![sides.west]
    } else {
        Seq::empty()
    };
    let ys: Seq<LineSegment> = if p.coordinates.y > w.y && !blockers.blocks(w.x as int, w.y + 1) {
        seq![sides.north]
    } else if p.coordinates.y < w.y && !blockers.blocks(w.x as int, w.y - 1) {
        seq![sides.south]
    } else {
        Seq::empty()
    };
    xs + ys
}

/// The edges contributed by the first `k` stored blocker cells, in order.
pub open spec fn candidate_edges_up_to(
    layout: GridLayout,
    p: GridPosition,
    vision: VisionAbility,
    blockers: LevelVisionBlockers,
    k: int,
) -> Seq<LineSegment>
    decreases k,
{
    if k <= 0 {
        Seq::empty()
    } else {
        candidate_edges_up_to(layout, p, vision, blockers, k - 1) + (if wall_in_range(
            p,
            blockers.vision_blocker_locations@[k - 1],
            vision.range_in_grid_units as int,
        ) {
            edges_for_wall(layout, p, blockers, blockers.vision_blocker_locations@[k - 1])
        } else {
            Seq::empty()
        })
    }
}

/// Every facing wall edge the observer's cache should hold, before sorting:
/// for each stored blocker cell within range, its facing sides.
pub open spec fn candidate_edges(
    layout: GridLayout,
    p: GridPosition,
    vision: VisionAbility,
    blockers: LevelVisionBlockers,
) -> Seq<LineSegment> {
    candidate_edges_up_to(
        layout,
        p,
        vision,
        blockers,
        blockers.vision_blocker_locations@.len() as int,
    )
}

/// Four times the squared distance from a world point to an edge's center:
/// the comparison key for the nearest-first order (the factor of four comes
/// from comparing against the doubled cached midpoint, and is harmless
/// because it is the same for every edge).
pub open spec fn edge_dist_key(pw: WorldPoint, e: LineSegment) -> int {
    (2 * pw.x - e.center2.x) * (2 * pw.x - e.center2.x) + (2 * pw.y - e.center2.y) * (2 * pw.y
        - e.center2.y)
}

/// Whether a sequence of edges is sorted nearest-first from `pw`.
pub open spec fn sorted_by_distance(pw: WorldPoint, s: Seq<LineSegment>) -> bool {
    forall|i: int, j: int|
        0 <= i < j < s.len() ==> edge_dist_key(pw, #[trigger] s[i]) <= edge_dist_key(
            pw,
            #[trigger] s[j],
        )
}

/// Bounds product magnitudes for the exact distance-key arithmetic.
proof fn lemma_mul_bound(a: int, b: int, m: int, n: int)
    by (nonlinear_arith)
    requires
        -m <= a <= m,
        -n <= b <= n,
        0 <= m,
        0 <= n,
    ensures
        -(m * n) <= a * b <= m * n,
{
}

/// The exact distance key of an edge.
fn edge_key(pw: &WorldPoint, e: &LineSegment) -> (k: i128)
    requires
        -WORLD_LIMIT <= pw.x <= WORLD_LIMIT,
        -WORLD_LIMIT <= pw.y <= WORLD_LIMIT,
        e.wf(),
        e.in_geometry_bounds(),
    ensures
        k == edge_dist_key(*pw, *e),
{
    let dx: i128 = 2 * (pw.x as i128) - (e.center2.x as i128);
    let dy: i128 = 2 * (pw.y as i128) - (e.center2.y as i128);
    proof {
        lemma_mul_bound(dx as int, dx as int, 0x400_0000_0000, 0x400_0000_0000);
        lemma_mul_bound(dy as int, dy as int, 0x400_0000_0000, 0x400_0000_0000);
    }
    dx * dx + dy * dy
}

/// Sort edges nearest-first by distance from `pw`, preserving the multiset
/// of edges.
fn sort_edges_by_distance(pw: &WorldPoint, edges: &mut Vec<LineSegment>)
    requires
        -WORLD_LIMIT <= pw.x <= WORLD_LIMIT,
        -WORLD_LIMIT <= pw.y <= WORLD_LIMIT,
        forall|i: int|
            0 <= i < old(edges)@.len() ==> (#[trigger] old(edges)@[i]).wf() && old(
                edges,
            )@[i].in_geometry_bounds(),
    ensures
        final(edges)@.to_multiset() == old(edges)@.to_multiset(),
        final(edges)@.len() == old(edges)@.len(),
        sorted_by_distance(*pw, final(edges)@),
        forall|i: int|
            0 <= i < final(edges)@.len() ==> (#[trigger] final(edges)@[i]).wf()
                && final(edges)@[i].in_geometry_bounds(),
{
    broadcast use vstd::seq_lib::group_to_multiset_ensures;

    let n: usize = edges.len();
    if n == 0 {
        return ;
    }
    let mut i: usize = 1;
    while i < n
        invariant
            1 <= i <= n,
            n == edges@.len(),
            -WORLD_LIMIT <= pw.x <= WORLD_LIMIT,
            -WORLD_LIMIT <= pw.y <= WORLD_LIMIT,
            edges@.to_multiset() == old(edges)@.to_multiset(),
            forall|k: int|
                0 <= k < edges@.len() ==> (#[trigger] edges@[k]).wf()
                    && edges@[k].in_geometry_bounds(),
            forall|k: int, l: int|
                0 <= k < l < i ==> edge_dist_key(*pw, #[trigger] edges@[k]) <= edge_dist_key(
                    *pw,
                    #[trigger] edges@[l],
                ),
        decreases n - i,
    {
        let mut j: usize = i;
        let mut done: bool = false;
        while !done && j > 0
            invariant
                0 <= j <= i < n,
                n == edges@.len(),
                -WORLD_LIMIT <= pw.x <= WORLD_LIMIT,
                -WORLD_LIMIT <= pw.y <= WORLD_LIMIT,
                edges@.to_multiset() == old(edges)@.to_multiset(),
                forall|k: int|
                    0 <= k < edges@.len() ==> (#[trigger] edges@[k]).wf()
                        && edges@[k].in_geometry_bounds(),
                forall|k: int, l: int|
                    0 <= k < l <= i && k != j && l != j ==> edge_dist_key(*pw, #[trigger] edges@[k])
                        <= edge_dist_key(*pw, #[trigger] edges@[l]),
                forall|l: int|
                    j < l <= i ==> edge_dist_key(*pw, #[trigger] edges@[j as int]) <= edge_dist_key(
                        *pw,
                        edges@[l],
                    ),
                done ==> (j == 0 || edge_dist_key(*pw, edges@[j - 1]) <= edge_dist_key(
                    *pw,
                    edges@[j as int],
                )),
            decreases (if done {
                0int
            } else {
                j + 1
            }),
        {
            let k_prev: i128 = edge_key(pw, &edges[j - 1]);
            let k_cur: i128 = edge_key(pw, &edges[j]);
            if k_prev > k_cur {
                let ghost before = edges@;
                let a = edges[j - 1];
                let b = edges[j];
                edges.set(j - 1, b);
                edges.set(j, a);
                proof {
                    broadcast use vstd::multiset::group_multiset_axioms;
                    broadcast use vstd::seq_lib::group_to_multiset_ensures;

                    let mid = before.update(j - 1, b);
                    vstd::seq_lib::to_multiset_update::<LineSegment>(before, j - 1, b);
                    vstd::seq_lib::to_multiset_update::<LineSegment>(mid, j as int, a);
                    assert(before[j - 1] == a && mid[j as int] == b);
                    assert(before.contains(a));
                    assert(edges@.to_multiset() =~= before.to_multiset());
                }
                j = j - 1;
            } else {
                done = true;
            }
        }
        i = i + 1;
    }
}

/// Recompute the facing wall edges for an observer, unconditionally: the
/// facing sides of every in-range blocker, sorted nearest-first from the
/// observer's world position.
pub fn rebuild_front_facing_edges(
    grid: &GridLayout,
    player_position: &GridPosition,
    vision_ability: &VisionAbility,
    walls: &LevelVisionBlockers,
    cache: &mut FacingWallsCache,
)
    requires
        grid.wf(),
        walls.wf(),
        vision_ability.wf(),
        player_position.offset_normalized(),
        player_position.coords_in_bounds(),
    ensures
        final(cache).last_grid_position == player_position.coordinates,
        final(cache).facing_wall_edges@.to_multiset() == candidate_edges(
            *grid,
            *player_position,
            *vision_ability,
            *walls,
        ).to_multiset(),
        sorted_by_distance(
            WorldPoint {
                x: world_x(*grid, *player_position) as i64,
                y: world_y(*grid, *player_position) as i64,
            },
            final(cache).facing_wall_edges@,
        ),
        final(cache).edges_wf(),
{
    cache.last_grid_position = player_position.coordinates;

    let mut edges: Vec<LineSegment> = Vec::new();
    let n: usize = walls.vision_blocker_locations.len();
    let mut i: usize = 0;
    while i < n
        invariant
            0 <= i <= n,
            n == walls.vision_blocker_locations@.len(),
            grid.wf(),
            walls.wf(),
            vision_ability.wf(),
            player_position.offset_normalized(),
            player_position.coords_in_bounds(),
            edges@ == candidate_edges_up_to(
                *grid,
                *player_position,
                *vision_ability,
                *walls,
                i as int,
            ),
            forall|k: int|
                0 <= k < edges@.len() ==> (#[trigger] edges@[k]).wf()
                    && edges@[k].in_geometry_bounds(),
        decreases n - i,
    {
        let ghost prev = edges@;
        let wall = walls.vision_blocker_locations[i];
        let wall_pos = GridPosition {
            coordinates: wall,
            offset: CellVec { x: -HALF_CELL, y: -HALF_CELL },
        };

        // Skip walls farther than the vision range: the straight-line
        // distance from the observer's exact position to the wall cell's
        // center, squared in milli-cells.
        let dx: i64 = OFFSET_SCALE * (player_position.coordinates.x - wall.x)
            + player_position.offset.x;
        let dy: i64 = OFFSET_SCALE * (player_position.coordinates.y - wall.y)
            + player_position.offset.y;
        let range: i64 = vision_ability.range_in_grid_units;
        let milli_range: i64 = OFFSET_SCALE * range;
        proof {
            lemma_mul_bound(dx as int, dx as int, 0x4000_0000, 0x4000_0000);
            lemma_mul_bound(dy as int, dy as int, 0x4000_0000, 0x4000_0000);
            lemma_mul_bound(milli_range as int, milli_range as int, 0x1000_0000, 0x1000_0000);
        }
        if dx * dx + dy * dy <= milli_range * milli_range {
            let sides = grid.sides(&wall_pos);
            let pc = player_position.coordinates;
            if pc.x > wall.x && !walls.collides(wall.x + 1, wall.y) {
                edges.push(sides.east);
            } else if pc.x < wall.x && !walls.collides(wall.x - 1, wall.y) {
                edges.push(sides.west);
            }
            if pc.y > wall.y && !walls.collides(wall.x, wall.y + 1) {
                edges.push(sides.north);
            } else if pc.y < wall.y && !walls.collides(wall.x, wall.y - 1) {
                edges.push(sides.south);
            }
            proof {
                assert(edges@ =~= prev + edges_for_wall(*grid, *player_position, *walls, wall));
            }
        } else {
            proof {
                assert(edges@ =~= prev + Seq::<LineSegment>::empty());
            }
        }
        proof {
            assert(edges@ =~= candidate_edges_up_to(
                *grid,
                *player_position,
                *vision_ability,
                *walls,
                i + 1,
            ));
        }
        i = i + 1;
    }

    let player_world = grid.grid_to_world(player_position);
    sort_edges_by_distance(&player_world, &mut edges);
    cache.facing_wall_edges = edges;
}

/// Recompute the facing wall edges for an observer if and only if the
/// observer's whole-cell coordinates differ from the cache's key;
/// offset-only movement never triggers recomputation.
pub fn update_front_facing_edges(
    grid: &GridLayout,
    player_position: &GridPosition,
    vision_ability: &VisionAbility,
    walls: &LevelVisionBlockers,
    cache: &mut FacingWallsCache,
)
    requires
        grid.wf(),
        walls.wf(),
        vision_ability.wf(),
        player_position.offset_normalized(),
        player_position.coords_in_bounds(),
    ensures
        player_position.coordinates == old(cache).last_grid_position ==> *final(cache) == *old(
            cache,
        ),
        player_position.coordinates != old(cache).last_grid_position ==> {
            &&& final(cache).last_grid_position == player_position.coordinates
            &&& final(cache).facing_wall_edges@.to_multiset() == candidate_edges(
                *grid,
                *player_position,
                *vision_ability,
                *walls,
            ).to_multiset()
            &&& sorted_by_distance(
                WorldPoint {
                    x: world_x(*grid, *player_position) as i64,
                    y: world_y(*grid, *player_position) as i64,
                },
                final(cache).facing_wall_edges@,
            )
            &&& final(cache).edges_wf()
        },
{
    if player_position.coordinates.x == cache.last_grid_position.x
        && player_position.coordinates.y == cache.last_grid_position.y {
        return ;
    }
    rebuild_front_facing_edges(grid, player_position, vision_ability, walls, cache);
}

} // verus!

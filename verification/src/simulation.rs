//! Per-tick orchestration: observers, their line-of-sight state, and the
//! fixed order of one simulation step.
//!
//! A tick updates every observer's facing-wall cache first (forcing a full
//! rebuild when the obstacle set changed since the last tick), then samples
//! every observer's visible squares, then lets every fog-revealing observer
//! clamp the fog down, and finally runs one fog recovery step. Obstacle
//! edits go through `set_blocking`, which marks the caches dirty, so a door
//! closed in this tick is opaque in this tick's sampling.

use vstd::prelude::*;

use crate::fog_of_war::FOG_DIM;
use crate::fog_of_war::FOG_GRID_LIMIT;
use crate::fog_of_war::FOG_MAX;
use crate::fog_of_war::FogOfWar;
use crate::fog_of_war::in_core;
use crate::fog_of_war::in_halo;
use crate::front_facing_edges::FacingWallsCache;
use crate::front_facing_edges::candidate_edges;
use crate::front_facing_edges::rebuild_front_facing_edges;
use crate::front_facing_edges::sorted_by_distance;
use crate::front_facing_edges::update_front_facing_edges;
use crate::grid::CellVec;
use crate::grid::GRID_COORD_LIMIT;
use crate::grid::GridPosition;
use crate::grid_layout::GridLayout;
use crate::grid_layout::world_x;
use crate::grid_layout::world_y;
use crate::level::LevelVisionBlockers;
use crate::world_point::WorldPoint;
use crate::vision::Facing;
use crate::vision::VisibleSquares;
use crate::vision::VisionAbility;
use crate::vision::VisionArchetype;
use crate::vision::resample_visible_squares;
use crate::vision::update_visible_squares;
use crate::vision::visible_set;

verus! {

/// The vision components every seeing entity carries; unlike the player's
/// bundle it grants no fog reveal, so it is what plain enemies use.
#[derive(Debug, Clone)]
pub struct VisionBundle {
    pub facing: Facing,
    pub vision_ability: VisionAbility,
    pub visible_squares: VisibleSquares,
    pub facing_walls_cache: FacingWallsCache,
}

impl VisionBundle {
    /// A fresh bundle: default facing and vision, empty caches keyed off
    /// the grid.
    pub fn new() -> (b: VisionBundle)
        ensures
            b.facing == (Facing { direction: CellVec { x: 1000i64, y: 0i64 } }),
            b.vision_ability == crate::vision::archetype_vision(VisionArchetype::Player),
            b.facing_walls_cache.facing_wall_edges@ =~= Seq::<
                crate::line_segment::LineSegment,
            >::empty(),
            b.visible_squares.visible_squares@ =~= Seq::<CellVec>::empty(),
    {
        VisionBundle {
            facing: Facing::default(),
            vision_ability: VisionAbility::of(VisionArchetype::Player),
            facing_walls_cache: FacingWallsCache::new(),
            visible_squares: VisibleSquares::new(),
        }
    }

    /// The same components as an observer bundle that does not reveal fog.
    pub fn into_line_of_sight(self) -> (b: PlayerLineOfSightBundle)
        ensures
            b.facing == self.facing,
            !b.can_reveal_fog,
            b.vision_ability == self.vision_ability,
            b.facing_walls_cache == self.facing_walls_cache,
            b.visible_squares == self.visible_squares,
    {
        PlayerLineOfSightBundle {
            facing: self.facing,
            can_reveal_fog: false,
            vision_ability: self.vision_ability,
            facing_walls_cache: self.facing_walls_cache,
            visible_squares: self.visible_squares,
        }
    }
}

/// The line-of-sight components of an observer that can also reveal fog
/// (the player, chiefly; keys and goals reuse it with a tiny range).
#[derive(Debug, Clone)]
pub struct PlayerLineOfSightBundle {
    pub facing: Facing,
    pub can_reveal_fog: bool,
    pub vision_ability: VisionAbility,
    pub facing_walls_cache: FacingWallsCache,
    pub visible_squares: VisibleSquares,
}

impl PlayerLineOfSightBundle {
    /// A fresh bundle: default facing, player vision, fog reveal on, empty
    /// caches keyed off the grid.
    pub fn new() -> (b: PlayerLineOfSightBundle)
        ensures
            b.facing == (Facing { direction: CellVec { x: 1000i64, y: 0i64 } }),
            b.can_reveal_fog,
            b.vision_ability == crate::vision::archetype_vision(VisionArchetype::Player),
            b.facing_walls_cache.facing_wall_edges@ =~= Seq::<
                crate::line_segment::LineSegment,
            >::empty(),
            b.visible_squares.visible_squares@ =~= Seq::<CellVec>::empty(),
            b.wf(),
    {
        PlayerLineOfSightBundle {
            facing: Facing::default(),
            can_reveal_fog: true,
            vision_ability: VisionAbility::of(VisionArchetype::Player),
            facing_walls_cache: FacingWallsCache::new(),
            visible_squares: VisibleSquares::new(),
        }
    }

    /// The same bundle with the vision ability of the given archetype.
    pub fn with_vision_archetype(self, archetype: VisionArchetype) -> (b: PlayerLineOfSightBundle)
        ensures
            b.vision_ability == crate::vision::archetype_vision(archetype),
            b.facing == self.facing,
            b.can_reveal_fog == self.can_reveal_fog,
            b.facing_walls_cache == self.facing_walls_cache,
            b.visible_squares == self.visible_squares,
    {
        let vision = VisionAbility::of(archetype);
        PlayerLineOfSightBundle {
            facing: self.facing,
            can_reveal_fog: self.can_reveal_fog,
            vision_ability: vision,
            facing_walls_cache: self.facing_walls_cache,
            visible_squares: self.visible_squares,
        }
    }

    /// Components usable by the samplers.
    pub open spec fn wf(self) -> bool {
        &&& self.facing.wf()
        &&& self.vision_ability.wf()
        &&& self.facing_walls_cache.edges_wf()
    }
}

/// One tracked observer: its position and its line-of-sight state.
#[derive(Debug, Clone)]
pub struct Observer {
    pub position: GridPosition,
    pub line_of_sight: PlayerLineOfSightBundle,
}

impl Observer {
    pub open spec fn wf(self, layout: GridLayout) -> bool {
        &&& self.position.offset_normalized()
        &&& self.position.coords_in_bounds()
        &&& self.line_of_sight.wf()
        &&& forall|i: int|
            0 <= i < self.line_of_sight.visible_squares.visible_squares@.len() ==> {
                &&& 0 <= (#[trigger] self.line_of_sight.visible_squares.visible_squares@[i]).x
                    < layout.width
                &&& 0 <= self.line_of_sight.visible_squares.visible_squares@[i].y < layout.height
            }
    }
}

/// How one tick transforms one observer: position, facing, vision and the
/// fog-reveal flag are untouched; the facing-wall cache ends keyed to the
/// observer's cell, untouched when nothing changed and otherwise holding
/// exactly the facing edges of the obstacle set, sorted nearest-first from
/// the observer's world position; the visible squares end untouched when
/// the observer kept its cell and nothing changed, and otherwise hold
/// exactly the visible set sampled against the refreshed cache.
pub open spec fn observer_updated(
    layout: GridLayout,
    blockers: LevelVisionBlockers,
    dirty: bool,
    before: Observer,
    after: Observer,
) -> bool {
    let cache = after.line_of_sight.facing_walls_cache;
    &&& after.position == before.position
    &&& after.line_of_sight.facing == before.line_of_sight.facing
    &&& after.line_of_sight.vision_ability == before.line_of_sight.vision_ability
    &&& after.line_of_sight.can_reveal_fog == before.line_of_sight.can_reveal_fog
    &&& cache.last_grid_position == before.position.coordinates
    &&& ((!dirty && before.line_of_sight.facing_walls_cache.last_grid_position
        == before.position.coordinates) ==> cache == before.line_of_sight.facing_walls_cache)
    &&& ((dirty || before.line_of_sight.facing_walls_cache.last_grid_position
        != before.position.coordinates) ==> {
        &&& cache.facing_wall_edges@.to_multiset() == candidate_edges(
            layout,
            before.position,
            before.line_of_sight.vision_ability,
            blockers,
        ).to_multiset()
        &&& sorted_by_distance(
            WorldPoint {
                x: world_x(layout, before.position) as i64,
                y: world_y(layout, before.position) as i64,
            },
            cache.facing_wall_edges@,
        )
    })
    &&& ((dirty || before.position.coordinates
        != before.line_of_sight.visible_squares.for_position.coordinates) ==> {
        &&& after.line_of_sight.visible_squares.for_position == before.position
        &&& forall|c: CellVec| #[trigger]
            after.line_of_sight.visible_squares.visible_squares@.contains(c) <==> visible_set(
                layout,
                before.position,
                before.line_of_sight.facing,
                before.line_of_sight.vision_ability,
                cache.facing_wall_edges@,
            ).contains(c)
    })
    &&& ((!dirty && before.position.coordinates
        == before.line_of_sight.visible_squares.for_position.coordinates)
        ==> after.line_of_sight.visible_squares == before.line_of_sight.visible_squares)
}

/// The visible-square sequences of the fog-revealing observers, in order.
pub open spec fn reveal_seqs(obs: Seq<Observer>) -> Seq<Seq<CellVec>>
    decreases obs.len(),
{
    if obs.len() == 0 {
        Seq::empty()
    } else {
        reveal_seqs(obs.drop_last()) + (if obs.last().line_of_sight.can_reveal_fog {
            seq![obs.last().line_of_sight.visible_squares.visible_squares@]
        } else {
            Seq::empty()
        })
    }
}

/// The fog value of one cell after the reveal passes of a sequence of
/// visible-square sets have been applied in order to a starting value: each
/// pass clamps a seen cell to zero and a neighboring cell down to the dim
/// ceiling, and leaves the cell alone otherwise.
pub open spec fn folded_reveal(
    before: u32,
    layout: GridLayout,
    passes: Seq<Seq<CellVec>>,
    x: int,
    y: int,
) -> u32
    decreases passes.len(),
{
    if passes.len() == 0 {
        before
    } else {
        let prior = folded_reveal(before, layout, passes.drop_last(), x, y);
        let vs = passes.last();
        if in_core(vs, x, y) {
            0u32
        } else if in_halo(layout, vs, x, y) {
            if prior > FOG_DIM {
                FOG_DIM
            } else {
                prior
            }
        } else {
            prior
        }
    }
}

/// The level state and every observer, plus the shared fog grid.
#[derive(Debug)]
pub struct Simulation {
    pub grid: GridLayout,
    pub blockers: LevelVisionBlockers,
    pub blockers_dirty: bool,
    pub observers: Vec<Observer>,
    pub fog: FogOfWar,
}

impl Simulation {
    pub open spec fn wf(self) -> bool {
        &&& self.grid.wf()
        &&& self.blockers.wf()
        &&& self.fog.wf()
        &&& self.fog.width == self.grid.width
        &&& self.fog.height == self.grid.height
        &&& forall|i: int|
            0 <= i < self.observers@.len() ==> (#[trigger] self.observers@[i]).wf(self.grid)
    }

    /// A fresh simulation for a level: the given layout and obstacle index,
    /// no observers yet, fully hidden fog.
    pub fn new(grid: GridLayout, blockers: LevelVisionBlockers) -> (s: Simulation)
        requires
            grid.wf(),
            blockers.wf(),
            grid.width <= FOG_GRID_LIMIT,
            grid.height <= FOG_GRID_LIMIT,
        ensures
            s.wf(),
            s.grid == grid,
            s.blockers == blockers,
            !s.blockers_dirty,
            s.observers@.len() == 0,
            forall|i: int| 0 <= i < s.fog.data@.len() ==> #[trigger] s.fog.data@[i] == FOG_MAX,
    {
        let fog = FogOfWar::new(grid.width, grid.height);
        Simulation { grid, blockers, blockers_dirty: false, observers: Vec::new(), fog }
    }

    /// Add an observer to the simulation.
    pub fn add_observer(&mut self, observer: Observer)
        requires
            old(self).wf(),
            observer.wf(old(self).grid),
        ensures
            final(self).wf(),
            final(self).observers@ == old(self).observers@.push(observer),
            final(self).grid == old(self).grid,
            final(self).blockers == old(self).blockers,
            final(self).blockers_dirty == old(self).blockers_dirty,
            final(self).fog == old(self).fog,
    {
        self.observers.push(observer);
    }

    /// Mark or unmark one cell as vision-blocking (a door closing or
    /// opening). When the index actually changes, the facing-wall caches
    /// are stale: the next tick rebuilds all of them before sampling.
    pub fn set_blocking(&mut self, x: i64, y: i64, blocking: bool) -> (changed: bool)
        requires
            old(self).wf(),
            -GRID_COORD_LIMIT <= x <= GRID_COORD_LIMIT,
            -GRID_COORD_LIMIT <= y <= GRID_COORD_LIMIT,
        ensures
            final(self).wf(),
            changed == (old(self).blockers.has_blocker(x as int, y as int) != blocking),
            final(self).blockers.has_blocker(x as int, y as int) == blocking,
            forall|a: int, b: int|
                !(a == x && b == y) ==> #[trigger] final(self).blockers.has_blocker(a, b) == old(
                    self,
                ).blockers.has_blocker(a, b),
            final(self).blockers_dirty == (old(self).blockers_dirty || changed),
            final(self).grid == old(self).grid,
            final(self).observers@ == old(self).observers@,
            final(self).fog == old(self).fog,
    {
        let changed = self.blockers.set_blocking(x, y, blocking);
        if changed {
            self.blockers_dirty = true;
        }
        changed
    }

    /// One simulation tick, in the fixed order the engine requires: rebuild
    /// or refresh every observer's facing-wall cache (a dirty obstacle set
    /// forces the rebuild), then sample every observer's visible squares
    /// against the fresh caches, then let every fog-revealing observer
    /// clamp the fog down, and finally run one fog recovery step.
    pub fn tick(&mut self, recover_step: u32)
        requires
            old(self).wf(),
        ensures
            final(self).wf(),
            final(self).grid == old(self).grid,
            final(self).blockers == old(self).blockers,
            !final(self).blockers_dirty,
            final(self).observers@.len() == old(self).observers@.len(),
            forall|i: int|
                0 <= i < old(self).observers@.len() ==> observer_updated(
                    old(self).grid,
                    old(self).blockers,
                    old(self).blockers_dirty,
                    #[trigger] old(self).observers@[i],
                    final(self).observers@[i],
                ),
            forall|x: int, y: int|
                0 <= x < old(self).fog.width && 0 <= y < old(self).fog.height ==> {
                    let revealed = folded_reveal(
                        old(self).fog.value_at_spec(x, y),
                        old(self).grid,
                        reveal_seqs(final(self).observers@),
                        x,
                        y,
                    );
                    #[trigger] final(self).fog.value_at_spec(x, y) == (if revealed + recover_step
                        >= FOG_MAX {
                        FOG_MAX
                    } else {
                        (revealed + recover_step) as u32
                    })
                },
    {
        let n: usize = self.observers.len();
        let ghost grid0 = self.grid;
        let ghost blockers0 = self.blockers;
        let ghost obs0 = self.observers@;
        let dirty: bool = self.blockers_dirty;

        // Refresh or rebuild every facing-wall cache, then sample each
        // observer's visible squares against its fresh cache.
        let mut updated: Vec<Observer> = Vec::new();
        while self.observers.len() > 0
            invariant
                updated@.len() + self.observers@.len() == n,
                obs0.len() == n,
                self.grid == grid0,
                self.blockers == blockers0,
                self.grid.wf(),
                self.blockers.wf(),
                forall|j: int|
                    0 <= j < self.observers@.len() ==> #[trigger] self.observers@[j] == obs0[j + (
                    n - self.observers@.len())],
                forall|j: int| 0 <= j < n ==> (#[trigger] obs0[j]).wf(grid0),
                forall|j: int| 0 <= j < updated@.len() ==> (#[trigger] updated@[j]).wf(grid0),
                forall|j: int|
                    0 <= j < updated@.len() ==> observer_updated(
                        grid0,
                        blockers0,
                        dirty,
                        #[trigger] obs0[j],
                        updated@[j],
                    ),
                self.fog == old(self).fog,
                self.fog.wf(),
                self.fog.width == grid0.width && self.fog.height == grid0.height,
                self.blockers_dirty == old(self).blockers_dirty,
            decreases self.observers@.len(),
        {
            let ghost k = updated@.len() as int;
            let ghost before_remove = self.observers@;
            let mut observer = self.observers.remove(0);
            proof {
                assert(before_remove[0] == obs0[k]);
                assert(forall|j: int|
                    0 <= j < self.observers@.len() ==> #[trigger] self.observers@[j]
                        == before_remove[j + 1]);
            }
            let position = observer.position;
            let facing = observer.line_of_sight.facing;
            let vision = observer.line_of_sight.vision_ability;
            if dirty {
                rebuild_front_facing_edges(
                    &self.grid,
                    &position,
                    &vision,
                    &self.blockers,
                    &mut observer.line_of_sight.facing_walls_cache,
                );
                resample_visible_squares(
                    &self.grid,
                    &position,
                    &vision,
                    &facing,
                    &observer.line_of_sight.facing_walls_cache,
                    &mut observer.line_of_sight.visible_squares,
                );
            } else {
                update_front_facing_edges(
                    &self.grid,
                    &position,
                    &vision,
                    &self.blockers,
                    &mut observer.line_of_sight.facing_walls_cache,
                );
                update_visible_squares(
                    &self.grid,
                    &position,
                    &vision,
                    &facing,
                    &observer.line_of_sight.facing_walls_cache,
                    &mut observer.line_of_sight.visible_squares,
                );
            }
            proof {
                assert forall|j: int|
                    0 <= j < observer.line_of_sight.visible_squares.visible_squares@.len() implies {
                    &&& 0 <= (#[trigger] observer.line_of_sight.visible_squares.visible_squares@[j]).x
                        < grid0.width
                    &&& 0 <= observer.line_of_sight.visible_squares.visible_squares@[j].y
                        < grid0.height
                } by {
                    let c = observer.line_of_sight.visible_squares.visible_squares@[j];
                    if dirty || position.coordinates
                        != obs0[k].line_of_sight.visible_squares.for_position.coordinates {
                        assert(observer.line_of_sight.visible_squares.visible_squares@.contains(c));
                        crate::grid_layout::lemma_bounding_box_spec_in_grid(
                            grid0,
                            position,
                            vision.range_in_grid_units as int,
                        );
                    }
                }
                assert(observer.wf(grid0));
                assert(observer_updated(grid0, blockers0, dirty, obs0[k], observer));
            }
            updated.push(observer);
        }
        self.observers = updated;

        // Reveal: every fog-revealing observer clamps the fog down, in
        // observer order.
        let ghost obs_fin = self.observers@;
        let ghost fog0 = self.fog;
        let mut i2: usize = 0;
        while i2 < n
            invariant
                0 <= i2 <= n,
                n == self.observers@.len(),
                self.observers@ == obs_fin,
                self.grid == grid0,
                self.grid.wf(),
                self.blockers == blockers0,
                self.blockers.wf(),
                self.blockers_dirty == old(self).blockers_dirty,
                forall|j: int| 0 <= j < n ==> (#[trigger] obs_fin[j]).wf(grid0),
                self.fog.wf(),
                self.fog.width == fog0.width && self.fog.height == fog0.height,
                fog0.wf(),
                fog0.width == grid0.width && fog0.height == grid0.height,
                forall|x: int, y: int|
                    0 <= x < fog0.width && 0 <= y < fog0.height
                        ==> #[trigger] self.fog.value_at_spec(x, y) == folded_reveal(
                        fog0.value_at_spec(x, y),
                        grid0,
                        reveal_seqs(obs_fin.take(i2 as int)),
                        x,
                        y,
                    ),
            decreases n - i2,
        {
            let can_reveal = self.observers[i2].line_of_sight.can_reveal_fog;
            let ghost fog_before = self.fog;
            if can_reveal {
                let visible = self.observers[i2].line_of_sight.visible_squares.clone_squares();
                self.fog.reveal_fog_of_war(&self.grid, &visible);
            }
            proof {
                lemma_reveal_seqs_take_step(obs_fin, i2 as int);
                assert forall|x: int, y: int|
                    0 <= x < fog0.width && 0 <= y < fog0.height implies #[trigger] self.fog.value_at_spec(
                    x,
                    y,
                ) == folded_reveal(
                    fog0.value_at_spec(x, y),
                    grid0,
                    reveal_seqs(obs_fin.take(i2 + 1)),
                    x,
                    y,
                ) by {
                    let pre = reveal_seqs(obs_fin.take(i2 as int));
                    let ext = reveal_seqs(obs_fin.take(i2 + 1));
                    if obs_fin[i2 as int].line_of_sight.can_reveal_fog {
                        assert(ext.drop_last() =~= pre);
                    }
                }
            }
            i2 = i2 + 1;
        }
        proof {
            assert(obs_fin.take(n as int) =~= obs_fin);
        }

        // Recover: fog thickens one step everywhere, saturating.
        let ghost fog_rev = self.fog;
        self.fog.recover_fog_of_war(recover_step);
        self.blockers_dirty = false;
        proof {
            assert forall|x: int, y: int|
                0 <= x < fog0.width && 0 <= y < fog0.height implies {
                let revealed = folded_reveal(
                    fog0.value_at_spec(x, y),
                    grid0,
                    reveal_seqs(obs_fin),
                    x,
                    y,
                );
                #[trigger] self.fog.value_at_spec(x, y) == (if revealed + recover_step >= FOG_MAX {
                    FOG_MAX
                } else {
                    (revealed + recover_step) as u32
                })
            } by {
                crate::fog_of_war::lemma_cell_index_in_range(
                    x,
                    y,
                    fog0.width as int,
                    fog0.height as int,
                );
                let idx = x + y * fog0.width;
                assert(fog_rev.value_at_spec(x, y) == folded_reveal(
                    fog0.value_at_spec(x, y),
                    grid0,
                    reveal_seqs(obs_fin),
                    x,
                    y,
                ));
                assert(fog_rev.data@[idx] == fog_rev.value_at_spec(x, y));
                assert(self.fog.data@[idx] == (if fog_rev.data@[idx] + recover_step >= FOG_MAX {
                    FOG_MAX
                } else {
                    (fog_rev.data@[idx] + recover_step) as u32
                }));
            }
        }
    }
}

/// Extending the reveal passes by one observer: the passes of the first
/// `i + 1` observers are those of the first `i`, plus one pass when
/// observer `i` reveals fog.
proof fn lemma_reveal_seqs_take_step(obs: Seq<Observer>, i: int)
    requires
        0 <= i < obs.len(),
    ensures
        obs[i].line_of_sight.can_reveal_fog ==> reveal_seqs(obs.take(i + 1)) == reveal_seqs(
            obs.take(i),
        ).push(obs[i].line_of_sight.visible_squares.visible_squares@),
        !obs[i].line_of_sight.can_reveal_fog ==> reveal_seqs(obs.take(i + 1)) == reveal_seqs(
            obs.take(i),
        ),
{
    let pre = obs.take(i);
    let ext = obs.take(i + 1);
    assert(ext.drop_last() =~= pre);
    assert(ext.last() == obs[i]);
    if obs[i].line_of_sight.can_reveal_fog {
        assert(reveal_seqs(ext) =~= reveal_seqs(pre).push(
            obs[i].line_of_sight.visible_squares.visible_squares@,
        ));
    } else {
        assert(reveal_seqs(ext) =~= reveal_seqs(pre));
    }
}

} // verus!

//! The level's vision-blocker index: the set of grid cells that block
//! vision, with the level extent for bounds checking.
//!
//! Anything outside the level always blocks vision, which anchors the level
//! with an implicit wall perimeter. The set is rebuilt on level load and can
//! be edited one cell at a time when a blocking entity (such as a door)
//! appears or disappears; an edit reports whether anything changed, so the
//! caller knows to rebuild every observer's facing-wall cache.

use vstd::prelude::*;

use crate::grid::CellVec;
use crate::grid::GRID_COORD_LIMIT;

verus! {

/// A sequence with no repeated elements.
pub open spec fn unique_seq(s: Seq<CellVec>) -> bool {
    forall|i: int, j: int| 0 <= i < j < s.len() ==> #[trigger] s[i] != #[trigger] s[j]
}

/// Pushing an element that is not present keeps a sequence duplicate-free.
proof fn lemma_unique_push(s: Seq<CellVec>, e: CellVec)
    requires
        unique_seq(s),
        !s.contains(e),
    ensures
        unique_seq(s.push(e)),
{
    assert forall|i: int, j: int| 0 <= i < j < s.push(e).len() implies #[trigger] s.push(e)[i]
        != #[trigger] s.push(e)[j] by {
        if j == s.len() {
            assert(s.contains(s[i]));
        }
    }
}

/// The cells that block vision, with the level extent in grid units.
#[derive(Debug, Clone)]
pub struct LevelVisionBlockers {
    pub vision_blocker_locations: Vec<CellVec>,
    pub level_width: i64,
    pub level_height: i64,
}

impl LevelVisionBlockers {
    /// Non-negative extent within the coordinate limit, every stored cell
    /// within the coordinate limit, and no cell stored twice.
    pub open spec fn wf(self) -> bool {
        &&& 0 <= self.level_width <= GRID_COORD_LIMIT
        &&& 0 <= self.level_height <= GRID_COORD_LIMIT
        &&& unique_seq(self.vision_blocker_locations@)
        &&& forall|i: int|
            0 <= i < self.vision_blocker_locations@.len() ==> {
                &&& -GRID_COORD_LIMIT <= (#[trigger] self.vision_blocker_locations@[i]).x
                    <= GRID_COORD_LIMIT
                &&& -GRID_COORD_LIMIT <= self.vision_blocker_locations@[i].y <= GRID_COORD_LIMIT
            }
    }

    /// Whether the cell `(x, y)` is stored as a blocker.
    pub open spec fn has_blocker(self, x: int, y: int) -> bool {
        exists|i: int|
            0 <= i < self.vision_blocker_locations@.len()
                && (#[trigger] self.vision_blocker_locations@[i]).x == x
                && self.vision_blocker_locations@[i].y == y
    }

    /// Whether the cell `(x, y)` blocks vision: off the level or stored as a
    /// blocker.
    pub open spec fn blocks(self, x: int, y: int) -> bool {
        ||| x < 0
        ||| y < 0
        ||| x >= self.level_width
        ||| y >= self.level_height
        ||| self.has_blocker(x, y)
    }

    /// An empty index for a level of the given extent.
    pub fn new(level_width: i64, level_height: i64) -> (b: LevelVisionBlockers)
        requires
            0 <= level_width <= GRID_COORD_LIMIT,
            0 <= level_height <= GRID_COORD_LIMIT,
        ensures
            b.wf(),
            b.level_width == level_width,
            b.level_height == level_height,
            forall|x: int, y: int| !(#[trigger] b.has_blocker(x, y)),
    {
        LevelVisionBlockers { vision_blocker_locations: Vec::new(), level_width, level_height }
    }

    /// True when the cell blocks vision; out-of-bounds cells always do.
    pub fn collides(&self, x: i64, y: i64) -> (r: bool)
        ensures
            r == self.blocks(x as int, y as int),
    {
        if x < 0 || y < 0 || x >= self.level_width || y >= self.level_height {
            return true;
        }
        let n: usize = self.vision_blocker_locations.len();
        let mut i: usize = 0;
        while i < n
            invariant
                n == self.vision_blocker_locations@.len(),
                0 <= i <= n,
                forall|j: int|
                    0 <= j < i ==> !((#[trigger] self.vision_blocker_locations@[j]).x == x
                        && self.vision_blocker_locations@[j].y == y),
            decreases n - i,
        {
            let c = self.vision_blocker_locations[i];
            if c.x == x && c.y == y {
                return true;
            }
            i = i + 1;
        }
        false
    }

    /// Mark or unmark a single cell as blocking. Returns whether the index
    /// changed; a change means every facing-wall cache must be rebuilt
    /// before the next visibility pass.
    pub fn set_blocking(&mut self, x: i64, y: i64, blocking: bool) -> (changed: bool)
        requires
            old(self).wf(),
            -GRID_COORD_LIMIT <= x <= GRID_COORD_LIMIT,
            -GRID_COORD_LIMIT <= y <= GRID_COORD_LIMIT,
        ensures
            final(self).wf(),
            final(self).level_width == old(self).level_width,
            final(self).level_height == old(self).level_height,
            final(self).has_blocker(x as int, y as int) == blocking,
            forall|a: int, b: int|
                !(a == x && b == y) ==> #[trigger] final(self).has_blocker(a, b) == old(
                    self,
                ).has_blocker(a, b),
            changed == (old(self).has_blocker(x as int, y as int) != blocking),
    {
        let n: usize = self.vision_blocker_locations.len();
        let mut found: bool = false;
        let mut i: usize = 0;
        while i < n
            invariant
                n == self.vision_blocker_locations@.len(),
                0 <= i <= n,
                found == exists|j: int|
                    0 <= j < i && (#[trigger] self.vision_blocker_locations@[j]).x == x
                        && self.vision_blocker_locations@[j].y == y,
            decreases n - i,
        {
            let c = self.vision_blocker_locations[i];
            if c.x == x && c.y == y {
                found = true;
            }
            i = i + 1;
        }
        if blocking {
            if found {
                return false;
            }
            self.vision_blocker_locations.push(CellVec { x, y });
            proof {
                broadcast use vstd::seq_lib::lemma_seq_contains_after_push;

                lemma_unique_push(
                    old(self).vision_blocker_locations@,
                    CellVec { x, y },
                );
                assert(self.vision_blocker_locations@[old(
                    self,
                ).vision_blocker_locations@.len() as int] == (CellVec { x, y }));
                assert forall|a: int, b: int|
                    !(a == x && b == y) implies #[trigger] self.has_blocker(a, b) == old(
                    self,
                ).has_blocker(a, b) by {
                    if old(self).has_blocker(a, b) {
                        let j = choose|j: int|
                            0 <= j < old(self).vision_blocker_locations@.len() && (#[trigger] old(
                                self,
                            ).vision_blocker_locations@[j]).x == a && old(
                                self,
                            ).vision_blocker_locations@[j].y == b;
                        assert(self.vision_blocker_locations@[j].x == a);
                    }
                    if self.has_blocker(a, b) {
                        let j = choose|j: int|
                            0 <= j < self.vision_blocker_locations@.len() && (#[trigger] self.vision_blocker_locations@[j]).x
                                == a && self.vision_blocker_locations@[j].y == b;
                        if j < old(self).vision_blocker_locations@.len() {
                            assert(old(self).vision_blocker_locations@[j].x == a);
                        }
                    }
                }
            }
            return true;
        }
        if !found {
            return false;
        }
        // Unmark: keep every stored cell except the one being cleared.
        let mut kept: Vec<CellVec> = Vec::new();
        let mut i: usize = 0;
        while i < n
            invariant
                n == self.vision_blocker_locations@.len(),
                self.wf(),
                0 <= i <= n,
                unique_seq(kept@),
                forall|c: CellVec| #[trigger]
                    kept@.contains(c) <==> (exists|j: int|
                        0 <= j < i && #[trigger] self.vision_blocker_locations@[j] == c && !(c.x
                            == x && c.y == y)),
            decreases n - i,
        {
            let c = self.vision_blocker_locations[i];
            if !(c.x == x && c.y == y) {
                let ghost prev = kept@;
                proof {
                    if prev.contains(c) {
                        let j = choose|j: int|
                            0 <= j < i && #[trigger] self.vision_blocker_locations@[j] == c && !(
                            c.x == x && c.y == y);
                        assert(self.vision_blocker_locations@[j]
                            == self.vision_blocker_locations@[i as int]);
                    }
                    lemma_unique_push(prev, c);
                }
                kept.push(c);
                proof {
                    broadcast use vstd::seq_lib::lemma_seq_contains_after_push;

                }
            }
            i = i + 1;
        }
        self.vision_blocker_locations = kept;
        proof {
            assert forall|a: int, b: int|
                !(a == x && b == y) implies #[trigger] self.has_blocker(a, b) == old(
                self,
            ).has_blocker(a, b) by {
                if old(self).has_blocker(a, b) {
                    let j = choose|j: int|
                        0 <= j < old(self).vision_blocker_locations@.len() && (#[trigger] old(
                            self,
                        ).vision_blocker_locations@[j]).x == a && old(
                            self,
                        ).vision_blocker_locations@[j].y == b;
                    assert(self.vision_blocker_locations@.contains(
                        old(self).vision_blocker_locations@[j],
                    ));
                    let k = choose|k: int|
                        0 <= k < self.vision_blocker_locations@.len()
                            && self.vision_blocker_locations@[k] == old(
                            self,
                        ).vision_blocker_locations@[j];
                    assert(self.vision_blocker_locations@[k].x == a);
                }
                if self.has_blocker(a, b) {
                    let j = choose|j: int|
                        0 <= j < self.vision_blocker_locations@.len()
                            && (#[trigger] self.vision_blocker_locations@[j]).x == a
                            && self.vision_blocker_locations@[j].y == b;
                    assert(self.vision_blocker_locations@.contains(
                        self.vision_blocker_locations@[j],
                    ));
                }
            }
            assert(!self.has_blocker(x as int, y as int)) by {
                if self.has_blocker(x as int, y as int) {
                    let j = choose|j: int|
                        0 <= j < self.vision_blocker_locations@.len()
                            && (#[trigger] self.vision_blocker_locations@[j]).x == x
                            && self.vision_blocker_locations@[j].y == y;
                    assert(self.vision_blocker_locations@.contains(
                        self.vision_blocker_locations@[j],
                    ));
                }
            }
            assert forall|i2: int|
                0 <= i2 < self.vision_blocker_locations@.len() implies {
                &&& -GRID_COORD_LIMIT <= (#[trigger] self.vision_blocker_locations@[i2]).x
                    <= GRID_COORD_LIMIT
                &&& -GRID_COORD_LIMIT <= self.vision_blocker_locations@[i2].y <= GRID_COORD_LIMIT
            } by {
                assert(self.vision_blocker_locations@.contains(
                    self.vision_blocker_locations@[i2],
                ));
                let j = choose|j: int|
                    0 <= j < old(self).vision_blocker_locations@.len() && #[trigger] old(
                        self,
                    ).vision_blocker_locations@[j] == self.vision_blocker_locations@[i2] && !(
                    self.vision_blocker_locations@[i2].x == x
                        && self.vision_blocker_locations@[i2].y == y);
            }
        }
        true
    }
}

} // verus!

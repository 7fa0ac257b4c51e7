//! A grid-based line-of-sight and fog-of-war engine.
//!
//! For any observer on a tile grid — a position with a sub-cell offset, a
//! facing direction, a field-of-view cone and a vision range — the engine
//! computes which grid cells the observer can see, occluding rays against the
//! wall edges that face the observer, and feeds the result into a persistent
//! fog-of-war grid that is revealed by observation and recovers toward hidden
//! over time.
//!
//! All coordinates are exact fixed-point integers: a grid cell is split into
//! `OFFSET_SCALE` sub-units per axis, world positions are measured in
//! thousandths of a pixel, and cone tests compare cross-multiplied squares of
//! a milli-cosine threshold. Every geometric predicate is therefore exact;
//! no floating-point tolerance is needed.

use vstd::prelude::*;

pub mod world_point;
pub mod line_segment;
pub mod grid;
pub mod grid_layout;
pub mod level;
pub mod front_facing_edges;
pub mod vision;
pub mod fog_of_war;
pub mod simulation;

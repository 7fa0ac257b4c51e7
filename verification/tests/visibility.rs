use line_of_sight::front_facing_edges::FacingWallsCache;
use line_of_sight::front_facing_edges::update_front_facing_edges;
use line_of_sight::grid::CellVec;
use line_of_sight::grid::GridPosition;
use line_of_sight::grid_layout::GridLayout;
use line_of_sight::level::LevelVisionBlockers;
use line_of_sight::vision::Facing;
use line_of_sight::vision::VisibleSquares;
use line_of_sight::vision::VisionAbility;
use line_of_sight::vision::VisionArchetype;
use line_of_sight::vision::update_visible_squares;

fn facing_east() -> Facing {
    Facing { direction: CellVec::new(1000, 0) }
}

/// A quarter-turn cone in total: the milli-cosine of the 45 degree half
/// angle.
fn quarter_fov(range: i64) -> VisionAbility {
    VisionAbility { cos_half_fov_milli: 707, range_in_grid_units: range }
}

fn sample(
    grid: &GridLayout,
    blockers: &LevelVisionBlockers,
    position: &GridPosition,
    facing: &Facing,
    vision: &VisionAbility,
) -> VisibleSquares {
    let mut cache = FacingWallsCache::new();
    update_front_facing_edges(grid, position, vision, blockers, &mut cache);
    let mut visible = VisibleSquares::new();
    update_visible_squares(grid, position, vision, facing, &cache, &mut visible);
    visible
}

#[test]
fn observer_with_wall_scenario() {
    // Observer at (5, 5) facing east with a quarter-turn cone and range 5;
    // a single vision blocker at (6, 5) contributes its west-facing edge.
    let grid = GridLayout::new(10, 10);
    let mut blockers = LevelVisionBlockers::new(10, 10);
    assert!(blockers.set_blocking(6, 5, true));
    let position = GridPosition::new(5, 5);
    let vision = quarter_fov(5);
    let facing = facing_east();

    let mut cache = FacingWallsCache::new();
    update_front_facing_edges(&grid, &position, &vision, &blockers, &mut cache);
    assert_eq!(cache.last_grid_position, CellVec::new(5, 5));
    assert_eq!(cache.facing_wall_edges.len(), 1);

    let mut visible = VisibleSquares::new();
    update_visible_squares(&grid, &position, &vision, &facing, &cache, &mut visible);

    // The wall blocks the cell behind it.
    assert!(!visible.contains(&GridPosition::new(7, 5)));
    // The observer's own cell and the four adjacent cells are always seen,
    // the wall cell and the cell outside the cone included.
    assert!(visible.contains(&GridPosition::new(5, 5)));
    assert!(visible.contains(&GridPosition::new(4, 5)));
    assert!(visible.contains(&GridPosition::new(6, 5)));
    assert!(visible.contains(&GridPosition::new(5, 4)));
    assert!(visible.contains(&GridPosition::new(5, 6)));
    // Two cells straight up is ninety degrees off the facing direction,
    // outside the forty-five degree half angle.
    assert!(!visible.contains(&GridPosition::new(5, 7)));
    // The wall's edge spans the whole front of the cone here, so nothing
    // beyond the adjacent cells survives: exactly the five cells above.
    assert_eq!(visible.visible_squares.len(), 5);
}

#[test]
fn sampler_is_deterministic() {
    let grid = GridLayout::new(10, 10);
    let mut blockers = LevelVisionBlockers::new(10, 10);
    blockers.set_blocking(6, 5, true);
    blockers.set_blocking(4, 4, true);
    let position = GridPosition::new(5, 5);
    let vision = quarter_fov(5);
    let facing = facing_east();

    let first = sample(&grid, &blockers, &position, &facing, &vision);
    let second = sample(&grid, &blockers, &position, &facing, &vision);
    assert_eq!(first.visible_squares, second.visible_squares);
}

#[test]
fn growing_range_never_hides_a_cell() {
    let grid = GridLayout::new(12, 12);
    let mut blockers = LevelVisionBlockers::new(12, 12);
    blockers.set_blocking(6, 6, true);
    let position = GridPosition::new(5, 5);
    let facing = facing_east();

    let narrow = sample(&grid, &blockers, &position, &facing, &quarter_fov(2));
    let wide = sample(&grid, &blockers, &position, &facing, &quarter_fov(6));
    for c in narrow.visible_squares.iter() {
        assert!(
            wide.visible_squares.contains(c),
            "cell {:?} vanished when the range grew",
            c
        );
    }
}

#[test]
fn widening_the_cone_never_hides_a_cell() {
    let grid = GridLayout::new(12, 12);
    let mut blockers = LevelVisionBlockers::new(12, 12);
    blockers.set_blocking(6, 6, true);
    let position = GridPosition::new(5, 5);
    let facing = facing_east();

    let narrow = sample(
        &grid,
        &blockers,
        &position,
        &facing,
        &VisionAbility { cos_half_fov_milli: 981, range_in_grid_units: 5 },
    );
    let full = sample(
        &grid,
        &blockers,
        &position,
        &facing,
        &VisionAbility { cos_half_fov_milli: -1000, range_in_grid_units: 5 },
    );
    assert!(narrow.visible_squares.len() < full.visible_squares.len());
    for c in narrow.visible_squares.iter() {
        assert!(
            full.visible_squares.contains(c),
            "cell {:?} vanished when the cone widened",
            c
        );
    }
}

#[test]
fn range_gate_uses_center_distance() {
    // A lone wall four cells west of an observer standing at its cell
    // center, with range 5: the wall's center is well within range, so its
    // east side must enter the cache and occlude the cell behind it.
    let grid = GridLayout::new(10, 10);
    let mut blockers = LevelVisionBlockers::new(10, 10);
    blockers.set_blocking(1, 5, true);
    let position = GridPosition::new(5, 5);
    let vision = VisionAbility { cos_half_fov_milli: -1000, range_in_grid_units: 5 };
    let facing = facing_east();

    let mut cache = FacingWallsCache::new();
    update_front_facing_edges(&grid, &position, &vision, &blockers, &mut cache);
    assert_eq!(cache.facing_wall_edges.len(), 1);

    let mut visible = VisibleSquares::new();
    update_visible_squares(&grid, &position, &vision, &facing, &cache, &mut visible);
    assert!(visible.contains(&GridPosition::new(2, 5)));
    assert!(!visible.contains(&GridPosition::new(0, 5)));

    // A wall whose center distance exceeds the range contributes nothing.
    let mut far_blockers = LevelVisionBlockers::new(10, 10);
    far_blockers.set_blocking(0, 0, true);
    let mut far_cache = FacingWallsCache::new();
    update_front_facing_edges(&grid, &position, &vision, &far_blockers, &mut far_cache);
    assert_eq!(far_cache.facing_wall_edges.len(), 0);
}

#[test]
fn cone_boundary_is_inclusive() {
    // The diagonal cell (7, 7) seen from (5, 5) lies at exactly half of a
    // quarter-turn cone off the eastward facing. With the threshold at or
    // below the cosine of that angle the cell is inside; one thousandth
    // tighter excludes it.
    let grid = GridLayout::new(10, 10);
    let blockers = LevelVisionBlockers::new(10, 10);
    let position = GridPosition::new(5, 5);
    let facing = facing_east();

    let on_boundary = sample(&grid, &blockers, &position, &facing, &quarter_fov(5));
    assert!(on_boundary.contains(&GridPosition::new(7, 7)));

    let just_inside = sample(
        &grid,
        &blockers,
        &position,
        &facing,
        &VisionAbility { cos_half_fov_milli: 708, range_in_grid_units: 5 },
    );
    assert!(!just_inside.contains(&GridPosition::new(7, 7)));
}

#[test]
fn cache_recomputed_only_on_cell_change() {
    let grid = GridLayout::new(10, 10);
    let mut blockers = LevelVisionBlockers::new(10, 10);
    blockers.set_blocking(6, 5, true);
    let vision = quarter_fov(5);

    let mut cache = FacingWallsCache::new();
    assert_eq!(cache.last_grid_position, CellVec::new(-10, -10));

    let position = GridPosition::new(5, 5);
    update_front_facing_edges(&grid, &position, &vision, &blockers, &mut cache);
    assert_eq!(cache.last_grid_position, CellVec::new(5, 5));
    let edges_before = cache.facing_wall_edges.clone();

    // Offset-only movement keeps the whole-cell coordinates: no recompute,
    // even after the obstacle set changed under the cache.
    blockers.set_blocking(4, 5, true);
    let nudged = GridPosition::new(5, 5).with_offset(CellVec::new(300, -200));
    update_front_facing_edges(&grid, &nudged, &vision, &blockers, &mut cache);
    assert_eq!(cache.last_grid_position, CellVec::new(5, 5));
    assert_eq!(cache.facing_wall_edges, edges_before);

    // Moving to a different whole cell recomputes against the new set.
    let moved = GridPosition::new(6, 6);
    update_front_facing_edges(&grid, &moved, &vision, &blockers, &mut cache);
    assert_eq!(cache.last_grid_position, CellVec::new(6, 6));
}

#[test]
fn collides_outside_level_always_blocks() {
    let blockers = LevelVisionBlockers::new(10, 8);
    assert!(blockers.collides(-1, 3));
    assert!(blockers.collides(3, -1));
    assert!(blockers.collides(10, 3));
    assert!(blockers.collides(3, 8));
    assert!(!blockers.collides(0, 0));
    assert!(!blockers.collides(9, 7));
}

#[test]
fn set_blocking_reports_changes() {
    let mut blockers = LevelVisionBlockers::new(10, 10);
    assert!(!blockers.collides(4, 4));
    assert!(blockers.set_blocking(4, 4, true));
    assert!(blockers.collides(4, 4));
    assert!(!blockers.set_blocking(4, 4, true));
    assert!(blockers.set_blocking(4, 4, false));
    assert!(!blockers.collides(4, 4));
    assert!(!blockers.set_blocking(4, 4, false));
}

#[test]
fn sampler_skips_when_cell_unchanged() {
    let grid = GridLayout::new(10, 10);
    let blockers = LevelVisionBlockers::new(10, 10);
    let position = GridPosition::new(5, 5);
    let vision = quarter_fov(5);
    let facing = facing_east();

    let mut cache = FacingWallsCache::new();
    update_front_facing_edges(&grid, &position, &vision, &blockers, &mut cache);
    let mut visible = VisibleSquares::new();
    update_visible_squares(&grid, &position, &vision, &facing, &cache, &mut visible);
    let before = visible.visible_squares.clone();

    // Sub-cell movement does not resample.
    let nudged = GridPosition::new(5, 5).with_offset(CellVec::new(400, 100));
    update_visible_squares(&grid, &nudged, &vision, &facing, &cache, &mut visible);
    assert_eq!(visible.visible_squares, before);
}

#[test]
fn vision_archetypes() {
    let sniper = VisionAbility::of(VisionArchetype::Sniper);
    assert_eq!(sniper.range_in_grid_units, 10);
    assert_eq!(sniper.cos_half_fov_milli, 981);
    let patrol = VisionAbility::of(VisionArchetype::Patrol);
    assert_eq!(patrol.range_in_grid_units, 5);
    assert_eq!(patrol.cos_half_fov_milli, 924);
    let specter = VisionAbility::of(VisionArchetype::Specter);
    assert_eq!(specter.range_in_grid_units, 5);
    assert_eq!(specter.cos_half_fov_milli, -1000);
    let player = VisionAbility::of(VisionArchetype::Player);
    assert_eq!(player.range_in_grid_units, 30);
    assert_eq!(player.cos_half_fov_milli, -1000);
    assert_eq!(VisionAbility::default(), player);
    assert_eq!(Facing::default().direction, CellVec::new(1000, 0));
}

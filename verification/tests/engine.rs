use line_of_sight::fog_of_war::FOG_DIM;
use line_of_sight::fog_of_war::FOG_MAX;
use line_of_sight::grid::CellVec;
use line_of_sight::grid::GridPosition;
use line_of_sight::grid_layout::GridLayout;
use line_of_sight::level::LevelVisionBlockers;
use line_of_sight::simulation::Observer;
use line_of_sight::simulation::PlayerLineOfSightBundle;
use line_of_sight::simulation::Simulation;
use line_of_sight::simulation::VisionBundle;
use line_of_sight::vision::Facing;
use line_of_sight::vision::VisionAbility;
use line_of_sight::vision::VisionArchetype;

fn player_at(x: i64, y: i64) -> Observer {
    let mut bundle = PlayerLineOfSightBundle::new();
    bundle.facing = Facing { direction: CellVec::new(1000, 0) };
    bundle.vision_ability = VisionAbility { cos_half_fov_milli: 707, range_in_grid_units: 5 };
    Observer { position: GridPosition::new(x, y), line_of_sight: bundle }
}

#[test]
fn tick_reveals_around_the_player() {
    let grid = GridLayout::new(10, 10);
    let mut blockers = LevelVisionBlockers::new(10, 10);
    blockers.set_blocking(6, 5, true);
    let mut sim = Simulation::new(grid, blockers);
    sim.add_observer(player_at(5, 5));

    sim.tick(10);

    let player = &sim.observers[0];
    assert!(!player.line_of_sight.visible_squares.contains(&GridPosition::new(7, 5)));
    assert!(player.line_of_sight.visible_squares.contains(&GridPosition::new(5, 5)));
    assert!(player.line_of_sight.visible_squares.contains(&GridPosition::new(6, 5)));

    // Seen cells were revealed, then recovered one step of 10.
    assert_eq!(sim.fog.value_at(5, 5), 10);
    // The cell behind the wall is not seen, but lies next to the seen wall
    // cell: soft-revealed to the dim ceiling, then one recovery step.
    assert_eq!(sim.fog.value_at(7, 5), FOG_DIM + 10);
    // Far corner: untouched, already fully hidden.
    assert_eq!(sim.fog.value_at(9, 9), FOG_MAX);
}

#[test]
fn closing_a_door_blocks_sight_the_same_tick() {
    let grid = GridLayout::new(10, 10);
    let blockers = LevelVisionBlockers::new(10, 10);
    let mut sim = Simulation::new(grid, blockers);
    sim.add_observer(player_at(5, 5));

    sim.tick(1);
    assert!(sim.observers[0].line_of_sight.visible_squares.contains(&GridPosition::new(7, 5)));

    // The observer has not moved, but the closed door marks the caches
    // dirty, so the next tick re-samples against the new obstacle set.
    assert!(sim.set_blocking(6, 5, true));
    sim.tick(1);
    assert!(!sim.observers[0].line_of_sight.visible_squares.contains(&GridPosition::new(7, 5)));

    // Opening it again restores the line of sight.
    assert!(sim.set_blocking(6, 5, false));
    sim.tick(1);
    assert!(sim.observers[0].line_of_sight.visible_squares.contains(&GridPosition::new(7, 5)));
}

#[test]
fn non_revealing_observer_leaves_fog_hidden() {
    let grid = GridLayout::new(10, 10);
    let blockers = LevelVisionBlockers::new(10, 10);
    let mut sim = Simulation::new(grid, blockers);
    let mut enemy = player_at(5, 5);
    enemy.line_of_sight.can_reveal_fog = false;
    sim.add_observer(enemy);

    sim.tick(1);
    assert!(sim.observers[0].line_of_sight.visible_squares.contains(&GridPosition::new(5, 5)));
    for x in 0..10usize {
        for y in 0..10usize {
            assert_eq!(sim.fog.value_at(x, y), FOG_MAX);
        }
    }
}

#[test]
fn fog_recovers_after_the_player_leaves() {
    let grid = GridLayout::new(10, 10);
    let blockers = LevelVisionBlockers::new(10, 10);
    let mut sim = Simulation::new(grid, blockers);
    sim.add_observer(player_at(2, 2));

    sim.tick(5);
    assert_eq!(sim.fog.value_at(2, 2), 5);

    // Move the player far away; the old spot is no longer observed and
    // fades back toward hidden, one step per tick.
    sim.observers[0].position = GridPosition::new(8, 8);
    sim.tick(5);
    assert_eq!(sim.fog.value_at(2, 2), 10);
    sim.tick(5);
    assert_eq!(sim.fog.value_at(2, 2), 15);
    // The newly observed spot is held revealed at one recovery step.
    assert_eq!(sim.fog.value_at(8, 8), 5);
}

#[test]
fn vision_bundle_grants_no_fog_reveal() {
    let bundle = VisionBundle::new();
    assert_eq!(bundle.vision_ability, VisionAbility::of(VisionArchetype::Player));
    let los = bundle.into_line_of_sight();
    assert!(!los.can_reveal_fog);
    assert_eq!(los.facing.direction, CellVec::new(1000, 0));
}

#[test]
fn with_vision_archetype_swaps_only_vision() {
    let bundle = PlayerLineOfSightBundle::new();
    assert!(bundle.can_reveal_fog);
    let sniper = bundle.with_vision_archetype(VisionArchetype::Sniper);
    assert_eq!(sniper.vision_ability, VisionAbility::of(VisionArchetype::Sniper));
    assert!(sniper.can_reveal_fog);
    assert_eq!(sniper.facing.direction, CellVec::new(1000, 0));
}

#[test]
fn stationary_target_acts_as_one_cell_observer() {
    // Keys and goals reuse the sampler with a tiny range: the player
    // detects them by asking whether their cell is visible.
    let grid = GridLayout::new(10, 10);
    let blockers = LevelVisionBlockers::new(10, 10);
    let mut sim = Simulation::new(grid, blockers);
    let mut key = player_at(3, 3);
    key.line_of_sight.can_reveal_fog = false;
    key.line_of_sight.vision_ability =
        VisionAbility { cos_half_fov_milli: -1000, range_in_grid_units: 1 };
    sim.add_observer(key);
    sim.tick(1);
    let squares = &sim.observers[0].line_of_sight.visible_squares;
    assert!(squares.contains(&GridPosition::new(3, 3)));
    assert!(squares.contains(&GridPosition::new(4, 3)));
    // The diagonal neighbor is more than one grid unit away, beyond the
    // one-cell range.
    assert!(!squares.contains(&GridPosition::new(4, 4)));
    assert!(!squares.contains(&GridPosition::new(5, 3)));
}

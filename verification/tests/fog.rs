use line_of_sight::fog_of_war::FOG_DIM;
use line_of_sight::fog_of_war::FOG_MAX;
use line_of_sight::fog_of_war::FogOfWar;
use line_of_sight::grid::CellVec;
use line_of_sight::grid::GridPosition;
use line_of_sight::grid_layout::GridLayout;
use line_of_sight::vision::VisibleSquares;

fn single_cell_observer(x: i64, y: i64) -> VisibleSquares {
    VisibleSquares {
        visible_squares: vec![CellVec::new(x, y)],
        for_position: GridPosition::new(x, y),
    }
}

#[test]
fn reveal_scenario_soft_edges() {
    // A 10 x 10 fog fully hidden; one reveal pass from an observer that
    // sees exactly (5, 5): that cell goes fully revealed, its eight
    // neighbors drop to the dim ceiling, everything else stays hidden.
    let grid = GridLayout::new(10, 10);
    let mut fog = FogOfWar::new(10, 10);
    let visible = single_cell_observer(5, 5);
    fog.reveal_fog_of_war(&grid, &visible);

    for x in 0..10usize {
        for y in 0..10usize {
            let v = fog.value_at(x, y);
            let dx = (x as i64 - 5).abs();
            let dy = (y as i64 - 5).abs();
            if x == 5 && y == 5 {
                assert_eq!(v, 0);
            } else if dx <= 1 && dy <= 1 {
                assert!(v <= FOG_DIM, "neighbor ({}, {}) holds {}", x, y, v);
                assert_eq!(v, FOG_DIM);
            } else {
                assert_eq!(v, FOG_MAX, "distant cell ({}, {}) was touched", x, y);
            }
        }
    }
}

#[test]
fn reveal_clamps_at_grid_edge() {
    let grid = GridLayout::new(10, 10);
    let mut fog = FogOfWar::new(10, 10);
    let visible = single_cell_observer(0, 0);
    fog.reveal_fog_of_war(&grid, &visible);
    assert_eq!(fog.value_at(0, 0), 0);
    assert_eq!(fog.value_at(1, 0), FOG_DIM);
    assert_eq!(fog.value_at(0, 1), FOG_DIM);
    assert_eq!(fog.value_at(1, 1), FOG_DIM);
    assert_eq!(fog.value_at(2, 0), FOG_MAX);
}

#[test]
fn reveal_never_raises_a_value() {
    let grid = GridLayout::new(10, 10);
    let mut fog = FogOfWar::new(10, 10);
    fog.reveal_fog_of_war(&grid, &single_cell_observer(5, 5));
    // A second observer next door: the already-revealed cell must not get
    // darker from being only in the second observer's halo.
    fog.reveal_fog_of_war(&grid, &single_cell_observer(6, 5));
    assert_eq!(fog.value_at(5, 5), 0);
    assert_eq!(fog.value_at(6, 5), 0);
    assert_eq!(fog.value_at(7, 5), FOG_DIM);
}

#[test]
fn recovery_is_strictly_monotonic_until_saturation() {
    let grid = GridLayout::new(10, 10);
    let mut fog = FogOfWar::new(10, 10);
    fog.reveal_fog_of_war(&grid, &single_cell_observer(5, 5));

    let mut previous: Vec<u32> = Vec::new();
    for x in 0..10usize {
        for y in 0..10usize {
            previous.push(fog.value_at(x, y));
        }
    }
    fog.recover_fog_of_war(7);
    let mut i = 0;
    for x in 0..10usize {
        for y in 0..10usize {
            let now = fog.value_at(x, y);
            let was = previous[i];
            if was == FOG_MAX {
                assert_eq!(now, FOG_MAX);
            } else {
                assert!(now > was, "cell ({}, {}) did not recover", x, y);
            }
            i += 1;
        }
    }
    assert_eq!(fog.value_at(5, 5), 7);
    assert_eq!(fog.value_at(6, 5), FOG_DIM + 7);
}

#[test]
fn recovery_saturates_at_fully_hidden() {
    let grid = GridLayout::new(4, 4);
    let mut fog = FogOfWar::new(4, 4);
    fog.reveal_fog_of_war(&grid, &single_cell_observer(1, 1));
    for _ in 0..500 {
        fog.recover_fog_of_war(13);
    }
    for x in 0..4usize {
        for y in 0..4usize {
            assert_eq!(fog.value_at(x, y), FOG_MAX);
        }
    }
}

#[test]
fn fog_values_stay_in_bounds() {
    let grid = GridLayout::new(8, 8);
    let mut fog = FogOfWar::new(8, 8);
    for step in 0..6u32 {
        fog.reveal_fog_of_war(&grid, &single_cell_observer(3, 3));
        fog.recover_fog_of_war(step * 100);
        for x in 0..8usize {
            for y in 0..8usize {
                let v = fog.value_at(x, y);
                assert!(v <= FOG_MAX);
            }
        }
    }
}

#[test]
fn reset_rebuilds_fully_hidden() {
    let grid = GridLayout::new(6, 6);
    let mut fog = FogOfWar::new(6, 6);
    fog.reveal_fog_of_war(&grid, &single_cell_observer(2, 2));
    assert_eq!(fog.value_at(2, 2), 0);
    fog.reset(5, 7);
    assert_eq!(fog.width, 5);
    assert_eq!(fog.height, 7);
    for x in 0..5usize {
        for y in 0..7usize {
            assert_eq!(fog.value_at(x, y), FOG_MAX);
        }
    }
}

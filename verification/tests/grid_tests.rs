use line_of_sight::grid::CellVec;
use line_of_sight::grid::GridPosition;
use line_of_sight::grid_layout::GridLayout;

#[test]
fn grid_gridposition_subtraction() {
    let a = GridPosition::new(1, 1);
    let b = GridPosition::new(2, 2);

    let aminb = a.minus(b);
    assert_eq!(aminb.coordinates, CellVec::new(-1, -1));
    assert_eq!(aminb.offset, CellVec::new(0, 0));

    let bmina = b.minus(a);
    assert_eq!(bmina.coordinates, CellVec::new(1, 1));
    assert_eq!(bmina.offset, CellVec::new(0, 0));
}

#[test]
fn mod_gridposition_subtraction() {
    // Offsets are thousandths of a cell: 0.3 and 0.7 of a cell. An offset
    // of 0.7 overflows the half-cell range, so it is renormalized first;
    // both operands then denote the exact points 1.3 and 2.7.
    let a = GridPosition::new(1, 1).with_offset(CellVec::new(300, 300));
    let mut b = GridPosition::new(2, 2).with_offset(CellVec::new(700, 700));
    b.fix_offset_overflow();
    assert_eq!(b.coordinates, CellVec::new(3, 3));
    assert_eq!(b.offset, CellVec::new(-300, -300));

    // 1.3 - 2.7 = -1.4: one cell down, four tenths below the cell center.
    let aminb = a.minus(b);
    assert_eq!(aminb.coordinates, CellVec::new(-1, -1));
    assert_eq!(aminb.offset, CellVec::new(-400, -400));

    // 2.7 - 1.3 = 1.4.
    let bmina = b.minus(a);
    assert_eq!(bmina.coordinates, CellVec::new(1, 1));
    assert_eq!(bmina.offset, CellVec::new(400, 400));
}

#[test]
fn gridposition_addition_carries_offset() {
    let a = GridPosition::new(0, 0).with_offset(CellVec::new(300, -200));
    let b = GridPosition::new(2, 3).with_offset(CellVec::new(400, -400));
    let sum = a.plus(b);
    // 0.3 + 0.4 = 0.7 carries into the next cell; -0.2 + -0.4 = -0.6
    // borrows one.
    assert_eq!(sum.coordinates, CellVec::new(3, 2));
    assert_eq!(sum.offset, CellVec::new(-300, 400));
}

#[test]
fn fix_offset_overflow_keeps_position() {
    let mut p = GridPosition::new(4, 4).with_offset(CellVec::new(500, -501));
    let before = p._actual_coordinates();
    p.fix_offset_overflow();
    let after = p._actual_coordinates();
    assert_eq!(before, after);
    assert_eq!(p.coordinates, CellVec::new(5, 3));
    assert_eq!(p.offset, CellVec::new(-500, 499));
}

#[test]
fn neighbors() {
    let grid = GridLayout::new(10, 10);
    let origin = GridPosition::new(3, 3);
    let neighbors = grid.neighbors(&origin);

    assert_eq!(9, neighbors.len(), "{:?}", neighbors);
}

#[test]
fn neighbors_clamped_at_corner() {
    let grid = GridLayout::new(10, 10);
    let corner = GridPosition::new(0, 0);
    let neighbors = grid.neighbors(&corner);
    assert_eq!(4, neighbors.len(), "{:?}", neighbors);
}

#[test]
fn bounding_box_simple_contained() {
    let grid = GridLayout::new(10, 10);
    let origin = GridPosition::new(3, 3);
    let act = grid.bounding_box(&origin, 1);
    assert_eq!(act.origin, CellVec::new(2, 2));
    assert_eq!(act.dimensions, CellVec::new(3, 3));
}

#[test]
fn bounding_box_overflowing_bounds() {
    let grid = GridLayout::new(10, 10);
    let origin = GridPosition::new(3, 3);
    let act = grid.bounding_box(&origin, 5);
    assert_eq!(act.origin, CellVec::new(0, 0));
    assert_eq!(act.dimensions, CellVec::new(9, 9));
}

#[test]
fn bounding_box_huge_radius_covers_grid() {
    let grid = GridLayout::new(10, 10);
    let origin = GridPosition::new(3, 3);
    let act = grid.bounding_box(&origin, 9000);
    assert_eq!(act.origin, CellVec::new(0, 0));
    assert_eq!(act.dimensions, CellVec::new(10, 10));
}

#[test]
fn bounding_box_radius_zero_is_single_cell() {
    let grid = GridLayout::new(10, 10);
    let origin = GridPosition::new(3, 3);
    let act = grid.bounding_box(&origin, 0);
    assert_eq!(act.origin, CellVec::new(3, 3));
    assert_eq!(act.dimensions, CellVec::new(1, 1));
}

#[test]
fn bounding_box_stays_in_grid_off_grid_position() {
    let grid = GridLayout::new(10, 10);
    let outside = GridPosition::new(25, -4);
    let act = grid.bounding_box(&outside, 2);
    assert!(act.origin.x >= 0 && act.origin.y >= 0);
    assert!(act.origin.x + act.dimensions.x <= 10);
    assert!(act.origin.y + act.dimensions.y <= 10);
}

#[test]
fn grid_to_world_uses_milli_pixels() {
    let grid = GridLayout::new(10, 10);
    // 16-pixel cells: cell (3, 3) sits at 48 pixels, i.e. 48000
    // milli-pixels; half a cell of offset adds 8 pixels.
    let p = grid.grid_to_world(&GridPosition::new(3, 3));
    assert_eq!(p.x, 48000);
    assert_eq!(p.y, 48000);
    let q = grid.grid_to_world(&GridPosition::new(3, 3).with_offset(CellVec::new(-500, 250)));
    assert_eq!(q.x, 40000);
    assert_eq!(q.y, 52000);
}

#[test]
fn corners_and_sides_form_the_cell_box() {
    let grid = GridLayout::new(10, 10);
    let pos = GridPosition::new(2, 1);
    let c = grid.corners(&pos);
    assert_eq!(c.southwest.x, 32000);
    assert_eq!(c.southwest.y, 16000);
    assert_eq!(c.northeast.x, 48000);
    assert_eq!(c.northeast.y, 32000);
    let s = grid.sides(&pos);
    assert_eq!(s.west.a, c.southwest);
    assert_eq!(s.west.b, c.northwest);
    assert_eq!(s.north.a, c.northwest);
    assert_eq!(s.north.b, c.northeast);
    assert_eq!(s.south.a, c.southwest);
    assert_eq!(s.south.b, c.southeast);
    assert_eq!(s.east.a, c.southeast);
    assert_eq!(s.east.b, c.northeast);
    assert_eq!(s._all().len(), 4);
}

#[test]
fn level_change_replaces_the_layout() {
    let mut grid = GridLayout::default();
    line_of_sight::grid_layout::update_grid_when_level_changes(&mut grid, 40, 25);
    assert_eq!(grid.square_size, 16);
    assert_eq!(grid.width, 40);
    assert_eq!(grid.height, 25);
    assert_eq!(grid.origin.x, 0);
    // Half a cell of padding, in milli-pixels.
    assert_eq!(grid.padding.x, 8000);
    assert_eq!(grid.padding.y, 8000);
}

#[test]
fn default_layout_dimensions() {
    let grid = GridLayout::default();
    assert_eq!(grid.square_size, 32);
    assert_eq!(grid.width, 20);
    assert_eq!(grid.height, 10);
}

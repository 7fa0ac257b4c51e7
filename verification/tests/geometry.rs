use line_of_sight::line_segment::LineSegment;
use line_of_sight::world_point::WorldPoint;

fn seg(x1: i64, y1: i64, x2: i64, y2: i64) -> LineSegment {
    LineSegment::new(WorldPoint::new(x1, y1), WorldPoint::new(x2, y2))
}

#[test]
fn intersecting_lines() {
    let line1 = seg(1, 1, 5, 5);
    let line2 = seg(1, 5, 5, 1);
    assert!(line1.do_intersect(&line2));
    let p = line1.intersection_point(&line2).unwrap();
    assert!(p.equals_point(3, 3));
}

#[test]
fn non_intersecting_lines() {
    let line1 = seg(1, 1, 5, 5);
    let line2 = seg(6, 6, 10, 10);
    assert!(!line1.do_intersect(&line2));
    assert!(line1.intersection_point(&line2).is_none());
}

#[test]
fn overlapping_lines() {
    let line1 = seg(1, 1, 5, 5);
    let line2 = seg(3, 3, 7, 7);
    assert!(line1.do_intersect(&line2));
    let p = line1.intersection_point(&line2).unwrap();
    assert!(p.equals_point(3, 3));
}

#[test]
fn perpendicular_lines() {
    let line1 = seg(1, 1, 5, 1);
    let line2 = seg(3, 0, 3, 5);
    assert!(line1.do_intersect(&line2));
    let p = line1.intersection_point(&line2).unwrap();
    assert!(p.equals_point(3, 1));
}

#[test]
fn shared_endpoint() {
    // Both segments start at (1, 1), which lies on each of them; the
    // degenerate collinear case hands back that touching endpoint.
    let line1 = seg(1, 1, 5, 5);
    let line2 = seg(1, 1, 3, 3);
    assert!(line1.do_intersect(&line2));
    let p = line1.intersection_point(&line2).unwrap();
    assert!(p.equals_point(1, 1));
}

#[test]
fn touching_endpoints() {
    let line1 = seg(1, 1, 2, 2);
    let line2 = seg(2, 2, 3, 3);
    assert!(line1.do_intersect(&line2));
    let p = line1.intersection_point(&line2).unwrap();
    assert!(p.equals_point(2, 2));
}

#[test]
fn one_segment_fully_contained_in_the_other() {
    let line1 = seg(1, 1, 5, 5);
    let line2 = seg(2, 2, 4, 4);
    assert!(line1.do_intersect(&line2));
    let p = line1.intersection_point(&line2).unwrap();
    assert!(p.equals_point(2, 2));
}

#[test]
fn collinear_overlapping_segments() {
    let line1 = seg(1, 1, 5, 1);
    let line2 = seg(2, 1, 4, 1);
    assert!(line1.do_intersect(&line2));
    let p = line1.intersection_point(&line2).unwrap();
    assert!(p.equals_point(2, 1));
}

#[test]
fn collinear_non_overlapping_segments() {
    let line1 = seg(1, 1, 5, 1);
    let line2 = seg(6, 1, 10, 1);
    assert!(!line1.do_intersect(&line2));
    assert!(line1.intersection_point(&line2).is_none());
}

#[test]
fn intersection_is_symmetric() {
    let pairs = [
        (seg(1, 1, 5, 5), seg(1, 5, 5, 1)),
        (seg(1, 1, 5, 5), seg(6, 6, 10, 10)),
        (seg(1, 1, 5, 1), seg(3, 0, 3, 5)),
        (seg(1, 1, 5, 1), seg(2, 1, 4, 1)),
        (seg(0, 0, 0, 4), seg(-1, 2, 1, 2)),
    ];
    for (a, b) in pairs.iter() {
        assert_eq!(a.do_intersect(b), b.do_intersect(a));
    }
}

#[test]
fn intersection_point_round_trip() {
    // Segments constructed to cross at a known point come back exactly.
    let cases = [
        (seg(0, 0, 10, 10), seg(0, 10, 10, 0), (5, 5)),
        (seg(-4, 0, 4, 0), seg(1, -3, 1, 3), (1, 0)),
        (seg(0, 0, 6, 3), seg(4, 2, 4, -2), (4, 2)),
    ];
    for (a, b, (px, py)) in cases.iter() {
        let p = a.intersection_point(b).unwrap();
        assert!(p.equals_point(*px, *py));
        assert!(!p.equals_point(*px + 1, *py));
    }
}

#[test]
fn segment_endpoints_and_center() {
    let s = seg(2, 4, 6, 8);
    assert_eq!(s.start(), WorldPoint::new(2, 4));
    assert_eq!(s.end(), WorldPoint::new(6, 8));
    // The cached doubled midpoint is endpoint-order independent.
    let r = seg(6, 8, 2, 4);
    assert_eq!(s.center2, r.center2);
}

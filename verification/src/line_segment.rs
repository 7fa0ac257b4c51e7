//! 2D line segments and exact segment-segment intersection tests.
//!
//! The intersection test is the classic orientation-predicate algorithm:
//! a pair of segments properly cross when the endpoints of each straddle the
//! other's supporting line, and the collinear special cases are settled with
//! an axis-aligned betweenness check. Because endpoints are integers the
//! orientation signs are computed exactly in `i128`; there is no tolerance.

use vstd::prelude::*;

use crate::world_point::GEOMETRY_COORD_LIMIT;
use crate::world_point::WorldPoint;

verus! {

/// A line segment between two world points, with its doubled midpoint cached
/// alongside the endpoints. The midpoint of two integer points can lie on a
/// half-unit, so the cache stores twice the midpoint (`a + b`), which is an
/// integer and is the same whichever way round the endpoints are given;
/// distance comparisons against it square both sides, so the doubling never
/// needs to be undone.
#[derive(Clone, Copy, Debug, PartialEq, Eq, Structural)]
pub struct LineSegment {
    pub a: WorldPoint,
    pub b: WorldPoint,
    pub center2: WorldPoint,
}

/// The cross product `(q - p) x (r - q)`, whose sign classifies the turn
/// `p -> q -> r`: positive for clockwise, negative for counter-clockwise,
/// zero for collinear points.
pub open spec fn orient_val(p: WorldPoint, q: WorldPoint, r: WorldPoint) -> int {
    (q.y - p.y) * (r.x - q.x) - (q.x - p.x) * (r.y - q.y)
}

/// The same turn classifier with the third point given by bare integer
/// coordinates, so lemmas can speak about points that are not stored values.
pub open spec fn orient_val_at(p: WorldPoint, q: WorldPoint, rx: int, ry: int) -> int {
    (q.y - p.y) * (rx - q.x) - (q.x - p.x) * (ry - q.y)
}

/// The sign of an integer: -1, 0 or 1.
pub open spec fn sign(v: int) -> int {
    if v > 0 {
        1
    } else if v < 0 {
        -1
    } else {
        0
    }
}

/// For collinear `p`, `q`, `r`: whether `q` lies within the axis-aligned
/// bounding box of `p` and `r`, i.e. on the segment from `p` to `r`.
pub open spec fn on_segment_spec(p: WorldPoint, q: WorldPoint, r: WorldPoint) -> bool {
    &&& (if p.x <= r.x {
        p.x <= q.x <= r.x
    } else {
        r.x <= q.x <= p.x
    })
    &&& (if p.y <= r.y {
        p.y <= q.y <= r.y
    } else {
        r.y <= q.y <= p.y
    })
}

/// Whether two segments intersect: either the endpoints of each straddle the
/// other's supporting line (a proper crossing), or some endpoint is collinear
/// with and lies on the other segment.
pub open spec fn segments_intersect(s1: LineSegment, s2: LineSegment) -> bool {
    let o1 = sign(orient_val(s1.a, s1.b, s2.a));
    let o2 = sign(orient_val(s1.a, s1.b, s2.b));
    let o3 = sign(orient_val(s2.a, s2.b, s1.a));
    let o4 = sign(orient_val(s2.a, s2.b, s1.b));
    ||| (o1 != o2 && o3 != o4)
    ||| (o1 == 0 && on_segment_spec(s1.a, s2.a, s1.b))
    ||| (o2 == 0 && on_segment_spec(s1.a, s2.b, s1.b))
    ||| (o3 == 0 && on_segment_spec(s2.a, s1.a, s2.b))
    ||| (o4 == 0 && on_segment_spec(s2.a, s1.b, s2.b))
}

/// Bounds product magnitudes: the workhorse for showing that the exact
/// `i128` cross products cannot overflow.
proof fn lemma_mul_bound(a: int, b: int, m: int, n: int)
    by (nonlinear_arith)
    requires
        -m <= a <= m,
        -n <= b <= n,
        0 <= m,
        0 <= n,
    ensures
        -(m * n) <= a * b <= m * n,
{
}

impl LineSegment {
    /// Every coordinate of the segment is within the geometry bounds.
    pub open spec fn in_geometry_bounds(self) -> bool {
        self.a.in_geometry_bounds() && self.b.in_geometry_bounds()
    }

    /// The cached doubled midpoint is indeed `a + b`.
    pub open spec fn wf(self) -> bool {
        self.center2.x == self.a.x + self.b.x && self.center2.y == self.a.y + self.b.y
    }

    pub fn new(a: WorldPoint, b: WorldPoint) -> (s: LineSegment)
        requires
            a.in_geometry_bounds(),
            b.in_geometry_bounds(),
        ensures
            s.a == a,
            s.b == b,
            s.wf(),
            s.in_geometry_bounds(),
    {
        LineSegment { a, b, center2: WorldPoint { x: a.x + b.x, y: a.y + b.y } }
    }

    pub fn start(&self) -> (p: WorldPoint)
        ensures
            p == self.a,
    {
        self.a
    }

    pub fn end(&self) -> (p: WorldPoint)
        ensures
            p == self.b,
    {
        self.b
    }

    pub fn do_intersect(&self, other: &LineSegment) -> (r: bool)
        requires
            self.in_geometry_bounds(),
            other.in_geometry_bounds(),
        ensures
            r == segments_intersect(*self, *other),
    {
        do_intersect(self, other)
    }

    pub fn intersection_point(&self, other: &LineSegment) -> (r: Option<IntersectionPoint>)
        requires
            self.in_geometry_bounds(),
            other.in_geometry_bounds(),
        ensures
            match r {
                Some(ip) => {
                    &&& ip.wf()
                    &&& intersection_point_spec(*self, *other) == Some(
                        (ip.x_num as int, ip.y_num as int, ip.den as int),
                    )
                },
                None => intersection_point_spec(*self, *other) is None,
            },
    {
        intersection_point(self, other)
    }
}

/// The exact sign of the orientation of `p -> q -> r`.
fn orientation(p: &WorldPoint, q: &WorldPoint, r: &WorldPoint) -> (s: i32)
    requires
        p.in_geometry_bounds(),
        q.in_geometry_bounds(),
        r.in_geometry_bounds(),
    ensures
        s == sign(orient_val(*p, *q, *r)),
{
    proof {
        lemma_mul_bound(q.y - p.y, r.x - q.x, 0x200_0000_0000, 0x200_0000_0000);
        lemma_mul_bound(q.x - p.x, r.y - q.y, 0x200_0000_0000, 0x200_0000_0000);
    }
    let val: i128 = (q.y as i128 - p.y as i128) * (r.x as i128 - q.x as i128) - (q.x as i128 - p.x
        as i128) * (r.y as i128 - q.y as i128);
    if val > 0 {
        1
    } else if val < 0 {
        -1
    } else {
        0
    }
}

/// For collinear `p`, `q`, `r`: whether `q` lies on the segment from `p` to `r`.
fn on_segment(p: &WorldPoint, q: &WorldPoint, r: &WorldPoint) -> (b: bool)
    ensures
        b == on_segment_spec(*p, *q, *r),
{
    let x_ok: bool = if p.x <= r.x {
        p.x <= q.x && q.x <= r.x
    } else {
        r.x <= q.x && q.x <= p.x
    };
    let y_ok: bool = if p.y <= r.y {
        p.y <= q.y && q.y <= r.y
    } else {
        r.y <= q.y && q.y <= p.y
    };
    x_ok && y_ok
}

/// Whether two segments intersect, including the collinear-overlap cases.
pub fn do_intersect(line1: &LineSegment, line2: &LineSegment) -> (r: bool)
    requires
        line1.in_geometry_bounds(),
        line2.in_geometry_bounds(),
    ensures
        r == segments_intersect(*line1, *line2),
{
    let p1 = line1.start();
    let q1 = line1.end();
    let p2 = line2.start();
    let q2 = line2.end();

    let o1 = orientation(&p1, &q1, &p2);
    let o2 = orientation(&p1, &q1, &q2);
    let o3 = orientation(&p2, &q2, &p1);
    let o4 = orientation(&p2, &q2, &q1);

    if o1 != o2 && o3 != o4 {
        return true;
    }
    if o1 == 0 && on_segment(&p1, &p2, &q1) {
        return true;
    }
    if o2 == 0 && on_segment(&p1, &q2, &q1) {
        return true;
    }
    if o3 == 0 && on_segment(&p2, &p1, &q2) {
        return true;
    }
    if o4 == 0 && on_segment(&p2, &q1, &q2) {
        return true;
    }
    false
}

/// Intersection is symmetric in its two arguments: testing the segments in
/// either order gives the same answer.
pub proof fn lemma_do_intersect_symmetric(s1: LineSegment, s2: LineSegment)
    ensures
        segments_intersect(s1, s2) == segments_intersect(s2, s1),
{
}

/// Bound on the numerators an intersection point can carry.
pub const INTERSECTION_NUM_LIMIT: i128 = 0x1000_0000_0000_0000_0000_0000_0000_0000;

/// Bound on the denominator an intersection point can carry.
pub const INTERSECTION_DEN_LIMIT: i128 = 0x8_0000_0000_0000_0000_0000;

/// The exact point where two segments meet, as a pair of rationals over a
/// common denominator: the point is `(x_num / den, y_num / den)`. Keeping the
/// rational exact avoids any rounding of the division in the two-line
/// determinant formula.
#[derive(Clone, Copy, Debug, PartialEq, Eq, Structural)]
pub struct IntersectionPoint {
    pub x_num: i128,
    pub y_num: i128,
    pub den: i128,
}

impl IntersectionPoint {
    pub open spec fn wf(self) -> bool {
        &&& self.den != 0
        &&& -INTERSECTION_NUM_LIMIT <= self.x_num <= INTERSECTION_NUM_LIMIT
        &&& -INTERSECTION_NUM_LIMIT <= self.y_num <= INTERSECTION_NUM_LIMIT
        &&& -INTERSECTION_DEN_LIMIT <= self.den <= INTERSECTION_DEN_LIMIT
    }

    /// Whether this rational point is exactly the integer point `(x, y)`.
    pub open spec fn is_point(self, x: int, y: int) -> bool {
        self.x_num == x * self.den && self.y_num == y * self.den
    }

    pub fn equals_point(&self, x: i64, y: i64) -> (r: bool)
        requires
            self.wf(),
            -GEOMETRY_COORD_LIMIT <= x <= GEOMETRY_COORD_LIMIT,
            -GEOMETRY_COORD_LIMIT <= y <= GEOMETRY_COORD_LIMIT,
        ensures
            r == self.is_point(x as int, y as int),
    {
        proof {
            lemma_mul_bound(x as int, self.den as int, GEOMETRY_COORD_LIMIT as int,
                INTERSECTION_DEN_LIMIT as int);
            lemma_mul_bound(y as int, self.den as int, GEOMETRY_COORD_LIMIT as int,
                INTERSECTION_DEN_LIMIT as int);
        }
        self.x_num == x as i128 * self.den && self.y_num == y as i128 * self.den
    }
}

/// The denominator of the two-line determinant formula; zero exactly when the
/// supporting lines are parallel.
pub open spec fn denom_val(s1: LineSegment, s2: LineSegment) -> int {
    (s1.a.x - s1.b.x) * (s2.a.y - s2.b.y) - (s1.a.y - s1.b.y) * (s2.a.x - s2.b.x)
}

/// Numerator of the x coordinate of the supporting lines' meeting point.
pub open spec fn x_num_val(s1: LineSegment, s2: LineSegment) -> int {
    (s1.a.x * s1.b.y - s1.a.y * s1.b.x) * (s2.a.x - s2.b.x) - (s1.a.x - s1.b.x) * (s2.a.x * s2.b.y
        - s2.a.y * s2.b.x)
}

/// Numerator of the y coordinate of the supporting lines' meeting point.
pub open spec fn y_num_val(s1: LineSegment, s2: LineSegment) -> int {
    (s1.a.x * s1.b.y - s1.a.y * s1.b.x) * (s2.a.y - s2.b.y) - (s1.a.y - s1.b.y) * (s2.a.x * s2.b.y
        - s2.a.y * s2.b.x)
}

/// What `intersection_point` returns, as `(x_num, y_num, den)` triples:
/// the determinant formula for a proper crossing, the touching endpoint when
/// an endpoint lies on the other segment, `None` otherwise.
pub open spec fn intersection_point_spec(s1: LineSegment, s2: LineSegment) -> Option<
    (int, int, int),
> {
    let o1 = sign(orient_val(s1.a, s1.b, s2.a));
    let o2 = sign(orient_val(s1.a, s1.b, s2.b));
    let o3 = sign(orient_val(s2.a, s2.b, s1.a));
    let o4 = sign(orient_val(s2.a, s2.b, s1.b));
    if o1 != o2 && o3 != o4 {
        if denom_val(s1, s2) == 0 {
            None
        } else {
            Some((x_num_val(s1, s2), y_num_val(s1, s2), denom_val(s1, s2)))
        }
    } else if o1 == 0 && on_segment_spec(s1.a, s2.a, s1.b) {
        Some((s2.a.x as int, s2.a.y as int, 1))
    } else if o2 == 0 && on_segment_spec(s1.a, s2.b, s1.b) {
        Some((s2.b.x as int, s2.b.y as int, 1))
    } else if o3 == 0 && on_segment_spec(s2.a, s1.a, s2.b) {
        Some((s1.a.x as int, s1.a.y as int, 1))
    } else if o4 == 0 && on_segment_spec(s2.a, s1.b, s2.b) {
        Some((s1.b.x as int, s1.b.y as int, 1))
    } else {
        None
    }
}

/// The exact meeting point of two segments, if any: the solution of the 2x2
/// linear system where the segments properly cross, or the touching endpoint
/// in the degenerate collinear cases.
pub fn intersection_point(line1: &LineSegment, line2: &LineSegment) -> (r: Option<
    IntersectionPoint,
>)
    requires
        line1.in_geometry_bounds(),
        line2.in_geometry_bounds(),
    ensures
        match r {
            Some(ip) => {
                &&& ip.wf()
                &&& intersection_point_spec(*line1, *line2) == Some(
                    (ip.x_num as int, ip.y_num as int, ip.den as int),
                )
            },
            None => intersection_point_spec(*line1, *line2) is None,
        },
{
    let p1 = line1.start();
    let q1 = line1.end();
    let p2 = line2.start();
    let q2 = line2.end();

    let o1 = orientation(&p1, &q1, &p2);
    let o2 = orientation(&p1, &q1, &q2);
    let o3 = orientation(&p2, &q2, &p1);
    let o4 = orientation(&p2, &q2, &q1);

    if o1 != o2 && o3 != o4 {
        let x1 = p1.x as i128;
        let y1 = p1.y as i128;
        let x2 = q1.x as i128;
        let y2 = q1.y as i128;
        let x3 = p2.x as i128;
        let y3 = p2.y as i128;
        let x4 = q2.x as i128;
        let y4 = q2.y as i128;

        proof {
            lemma_mul_bound(x1 - x2, y3 - y4, 0x200_0000_0000, 0x200_0000_0000);
            lemma_mul_bound(y1 - y2, x3 - x4, 0x200_0000_0000, 0x200_0000_0000);
            lemma_mul_bound(x1 as int, y2 as int, 0x100_0000_0000, 0x100_0000_0000);
            lemma_mul_bound(y1 as int, x2 as int, 0x100_0000_0000, 0x100_0000_0000);
            lemma_mul_bound(x3 as int, y4 as int, 0x100_0000_0000, 0x100_0000_0000);
            lemma_mul_bound(y3 as int, x4 as int, 0x100_0000_0000, 0x100_0000_0000);
            lemma_mul_bound(
                x1 * y2 - y1 * x2,
                x3 - x4,
                0x2_0000_0000_0000_0000_0000,
                0x200_0000_0000,
            );
            lemma_mul_bound(
                x1 - x2,
                x3 * y4 - y3 * x4,
                0x200_0000_0000,
                0x2_0000_0000_0000_0000_0000,
            );
            lemma_mul_bound(
                x1 * y2 - y1 * x2,
                y3 - y4,
                0x2_0000_0000_0000_0000_0000,
                0x200_0000_0000,
            );
            lemma_mul_bound(
                y1 - y2,
                x3 * y4 - y3 * x4,
                0x200_0000_0000,
                0x2_0000_0000_0000_0000_0000,
            );
        }
        let denom: i128 = (x1 - x2) * (y3 - y4) - (y1 - y2) * (x3 - x4);
        if denom == 0 {
            return None;
        }
        let x_num: i128 = (x1 * y2 - y1 * x2) * (x3 - x4) - (x1 - x2) * (x3 * y4 - y3 * x4);
        let y_num: i128 = (x1 * y2 - y1 * x2) * (y3 - y4) - (y1 - y2) * (x3 * y4 - y3 * x4);
        return Some(IntersectionPoint { x_num, y_num, den: denom });
    }

    if o1 == 0 && on_segment(&p1, &p2, &q1) {
        return Some(IntersectionPoint { x_num: p2.x as i128, y_num: p2.y as i128, den: 1 });
    }
    if o2 == 0 && on_segment(&p1, &q2, &q1) {
        return Some(IntersectionPoint { x_num: q2.x as i128, y_num: q2.y as i128, den: 1 });
    }
    if o3 == 0 && on_segment(&p2, &p1, &q2) {
        return Some(IntersectionPoint { x_num: p1.x as i128, y_num: p1.y as i128, den: 1 });
    }
    if o4 == 0 && on_segment(&p2, &q1, &q2) {
        return Some(IntersectionPoint { x_num: q1.x as i128, y_num: q1.y as i128, den: 1 });
    }
    None
}

/// Round trip through the determinant formula: when two segments properly
/// cross and the integer point `(px, py)` lies on both supporting lines, the
/// rational point that `intersection_point` returns is exactly `(px, py)`.
pub proof fn lemma_intersection_round_trip(s1: LineSegment, s2: LineSegment, px: int, py: int)
    requires
        orient_val_at(s1.a, s1.b, px, py) == 0,
        orient_val_at(s2.a, s2.b, px, py) == 0,
        denom_val(s1, s2) != 0,
        sign(orient_val(s1.a, s1.b, s2.a)) != sign(orient_val(s1.a, s1.b, s2.b)),
        sign(orient_val(s2.a, s2.b, s1.a)) != sign(orient_val(s2.a, s2.b, s1.b)),
    ensures
        intersection_point_spec(s1, s2) matches Some(t) && t.0 == px * t.2 && t.1 == py * t.2,
{
    let x1 = s1.a.x as int;
    let y1 = s1.a.y as int;
    let x2 = s1.b.x as int;
    let y2 = s1.b.y as int;
    let x3 = s2.a.x as int;
    let y3 = s2.a.y as int;
    let x4 = s2.b.x as int;
    let y4 = s2.b.y as int;
    let a1 = y2 - y1;
    let b1 = x1 - x2;
    let k1 = x1 * y2 - x2 * y1;
    let a2 = y4 - y3;
    let b2 = x3 - x4;
    let k2 = x3 * y4 - x4 * y3;
    assert(a1 * px + b1 * py == k1) by (nonlinear_arith)
        requires
            a1 == y2 - y1,
            b1 == x1 - x2,
            k1 == x1 * y2 - x2 * y1,
            (y2 - y1) * (px - x2) - (x2 - x1) * (py - y2) == 0,
    ;
    assert(a2 * px + b2 * py == k2) by (nonlinear_arith)
        requires
            a2 == y4 - y3,
            b2 == x3 - x4,
            k2 == x3 * y4 - x4 * y3,
            (y4 - y3) * (px - x4) - (x4 - x3) * (py - y4) == 0,
    ;
    assert((x1 - x2) * (y3 - y4) - (y1 - y2) * (x3 - x4) == a1 * b2 - a2 * b1) by (nonlinear_arith)
        requires
            a1 == y2 - y1,
            b1 == x1 - x2,
            a2 == y4 - y3,
            b2 == x3 - x4,
    ;
    assert((x1 * y2 - y1 * x2) * (x3 - x4) - (x1 - x2) * (x3 * y4 - y3 * x4) == k1 * b2 - b1 * k2)
        by (nonlinear_arith)
        requires
            b1 == x1 - x2,
            k1 == x1 * y2 - x2 * y1,
            b2 == x3 - x4,
            k2 == x3 * y4 - x4 * y3,
    ;
    assert((x1 * y2 - y1 * x2) * (y3 - y4) - (y1 - y2) * (x3 * y4 - y3 * x4) == a1 * k2 - a2 * k1)
        by (nonlinear_arith)
        requires
            a1 == y2 - y1,
            k1 == x1 * y2 - x2 * y1,
            a2 == y4 - y3,
            k2 == x3 * y4 - x4 * y3,
    ;
    assert(px * (a1 * b2 - a2 * b1) == k1 * b2 - b1 * k2 && py * (a1 * b2 - a2 * b1) == a1 * k2 - a2
        * k1) by (nonlinear_arith)
        requires
            a1 * px + b1 * py == k1,
            a2 * px + b2 * py == k2,
    ;
}

} // verus!

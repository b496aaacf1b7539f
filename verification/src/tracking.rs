//! The object model for one detected candidate region, and the polygon
//! area measure that ordering and filtering decisions are based on.

use vstd::prelude::*;

verus! {

/// One 2D pixel-space point of a contour or hull boundary.
#[derive(Clone, Copy, PartialEq, Eq, Structural, Debug)]
pub struct Point {
    pub x: i32,
    pub y: i32,
}

/// An axis-aligned rectangle: the bounding box of a contour.
#[derive(Clone, Copy, PartialEq, Eq, Structural, Debug)]
pub struct Rect {
    pub x: i32,
    pub y: i32,
    pub width: i32,
    pub height: i32,
}

/// The minimum-area (rotated) rectangle of a contour, held as plain
/// fixed-point values: lengths and center coordinates in thousandths of a
/// pixel, the rotation in thousandths of a degree.
#[derive(Clone, Copy, PartialEq, Eq, Structural, Debug)]
pub struct OrientedRect {
    pub center_x_milli: i64,
    pub center_y_milli: i64,
    pub width_milli: i64,
    pub height_milli: i64,
    pub angle_milli_deg: i64,
}

/// One detected candidate region of a single frame: the raw boundary, its
/// convex hull, its minimum-area rectangle, and its axis-aligned bounding
/// box.  Created fresh each frame by the threshold stage and never mutated.
#[derive(Debug)]
pub struct TrackingData {
    pub cnt: Vec<Point>,
    pub hull: Vec<Point>,
    pub rect: OrientedRect,
    pub bounding: Rect,
}

/// Upper bound on frame width and height accepted by the configuration.
pub const FRAME_DIM_MAX: i64 = 100_000;

/// Upper bound on the number of boundary points of one contour or hull.
pub const CONTOUR_LEN_MAX: usize = 1_000_000;

/// Upper bound on the side lengths of an oriented rectangle, in
/// thousandths of a pixel.
pub const RECT_MILLI_MAX: i64 = 10_000_000_000;

/// Doubled signed area of the triangle fan step: the cross product of the
/// two points taken as vectors from the origin.
pub open spec fn cross(p: Point, q: Point) -> int {
    p.x * q.y - q.x * p.y
}

/// The term of the shoelace sum at index `i`, with the ring closed from
/// the last point back to the first.
pub open spec fn ring_term(s: Seq<Point>, i: int) -> int {
    cross(s[i], s[if i + 1 == s.len() { 0int } else { i + 1 }])
}

/// Partial shoelace sum over the first `n` ring terms.
pub open spec fn ring_sum_upto(s: Seq<Point>, n: int) -> int
    decreases n,
{
    if n <= 0 {
        0
    } else {
        ring_sum_upto(s, n - 1) + ring_term(s, n - 1)
    }
}

/// Doubled signed area of the polygon with vertex sequence `s`.
pub open spec fn shoelace2(s: Seq<Point>) -> int {
    ring_sum_upto(s, s.len() as int)
}

/// Doubled absolute area of the polygon with vertex sequence `s`.  All
/// ordering and filtering decisions measure a contour by this value; it is
/// twice the area so that it stays an integer for integer vertices.
pub open spec fn area2(s: Seq<Point>) -> int {
    if shoelace2(s) < 0 {
        -shoelace2(s)
    } else {
        shoelace2(s)
    }
}

/// Every point of `s` lies inside a `w` by `h` pixel frame.
pub open spec fn coords_in_frame(s: Seq<Point>, w: int, h: int) -> bool {
    forall|i: int|
        0 <= i < s.len() ==> 0 <= (#[trigger] s[i]).x <= w && 0 <= s[i].y <= h
}

impl OrientedRect {
    /// Side lengths are nonnegative and small enough that exact area
    /// comparisons cannot overflow.
    pub open spec fn wf(self) -> bool {
        &&& 0 <= self.width_milli <= RECT_MILLI_MAX
        &&& 0 <= self.height_milli <= RECT_MILLI_MAX
    }
}

impl TrackingData {
    /// A candidate detected on a `w` by `h` frame: every boundary point and
    /// the bounding box lie inside the frame, boundaries have a bounded
    /// number of points, and the oriented rectangle is well formed.
    pub open spec fn wf(self, w: int, h: int) -> bool {
        &&& coords_in_frame(self.cnt@, w, h)
        &&& coords_in_frame(self.hull@, w, h)
        &&& self.cnt@.len() <= CONTOUR_LEN_MAX
        &&& self.hull@.len() <= CONTOUR_LEN_MAX
        &&& self.rect.wf()
        &&& 0 <= self.bounding.x <= w
        &&& 0 <= self.bounding.y <= h
        &&& 0 <= self.bounding.width
        &&& 0 <= self.bounding.height
    }
}

/// Each ring term of a frame-bounded point sequence is at most `w * h` in
/// magnitude.
proof fn lemma_ring_term_bound(s: Seq<Point>, w: int, h: int, i: int)
    requires
        coords_in_frame(s, w, h),
        0 <= i < s.len(),
        0 <= w,
        0 <= h,
    ensures
        -(w * h) <= ring_term(s, i) <= w * h,
{
    let j = if i + 1 == s.len() { 0int } else { i + 1 };
    assert(0 <= s[i].x <= w && 0 <= s[i].y <= h);
    assert(0 <= s[j].x <= w && 0 <= s[j].y <= h);
    assert(0 <= s[i].x * s[j].y <= w * h) by (nonlinear_arith)
        requires
            0 <= s[i].x <= w,
            0 <= s[j].y <= h,
    ;
    assert(0 <= s[j].x * s[i].y <= w * h) by (nonlinear_arith)
        requires
            0 <= s[j].x <= w,
            0 <= s[i].y <= h,
    ;
}

/// The partial shoelace sums of a frame-bounded point sequence grow at
/// most linearly, so the doubled area of a bounded contour is bounded.
proof fn lemma_ring_sum_bound(s: Seq<Point>, w: int, h: int, n: int)
    requires
        coords_in_frame(s, w, h),
        0 <= n <= s.len(),
        0 <= w,
        0 <= h,
    ensures
        -(n * (w * h)) <= ring_sum_upto(s, n) <= n * (w * h),
    decreases n,
{
    if n > 0 {
        lemma_ring_sum_bound(s, w, h, n - 1);
        lemma_ring_term_bound(s, w, h, n - 1);
        assert((n - 1) * (w * h) + w * h == n * (w * h)) by (nonlinear_arith);
    }
}

/// The doubled area of a contour that fits a `w` by `h` frame with at most
/// `len` points is at most `len * w * h`.
pub proof fn lemma_area2_bound(s: Seq<Point>, w: int, h: int)
    requires
        coords_in_frame(s, w, h),
        0 <= w,
        0 <= h,
    ensures
        0 <= area2(s) <= s.len() * (w * h),
{
    lemma_ring_sum_bound(s, w, h, s.len() as int);
}

/// Computes the doubled absolute polygon area of a point sequence: the
/// exact integer value of the shoelace formula, which is what the external
/// image library's area measure returns (up to the factor of two that
/// keeps it an integer).
pub fn contour_area2(pts: &Vec<Point>) -> (a: i128)
    ensures
        a == area2(pts@),
{
    let n = pts.len();
    let mut acc: i128 = 0;
    let mut i: usize = 0;
    while i < n
        invariant
            n == pts@.len(),
            0 <= i <= n,
            acc == ring_sum_upto(pts@, i as int),
            -((i as int) * 0x8000_0000_0000_0000) <= acc <= (i as int) * 0x8000_0000_0000_0000,
        decreases n - i,
    {
        let j = if i + 1 == n { 0 } else { i + 1 };
        let p = pts[i];
        let q = pts[j];
        proof {
            assert(-0x4000_0000_0000_0000 <= (p.x as int) * (q.y as int) <= 0x4000_0000_0000_0000)
                by (nonlinear_arith)
                requires
                    -0x8000_0000 <= p.x < 0x8000_0000,
                    -0x8000_0000 <= q.y < 0x8000_0000,
            ;
            assert(-0x4000_0000_0000_0000 <= (q.x as int) * (p.y as int) <= 0x4000_0000_0000_0000)
                by (nonlinear_arith)
                requires
                    -0x8000_0000 <= q.x < 0x8000_0000,
                    -0x8000_0000 <= p.y < 0x8000_0000,
            ;
        }
        let term: i128 = (p.x as i128) * (q.y as i128) - (q.x as i128) * (p.y as i128);
        proof {
            assert(term == ring_term(pts@, i as int));
        }
        acc = acc + term;
        i = i + 1;
    }
    if acc < 0 {
        -acc
    } else {
        acc
    }
}

} // verus!

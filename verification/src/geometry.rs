//! Conversion of the aggregated pixel-space tracking point into normalized
//! device coordinates.
//!
//! The aggregated center is the exact rational `sum / n`, where `sum` is the
//! accumulated bounding-box corner coordinate of the selected candidates and
//! `n` is the configured number of tracked contours.  Normalization keeps
//! every value an exact rational: for a frame of width `W`, the horizontal
//! device coordinate of a center `cx` is `(2/W) * (cx - (W/2 - 1/2))`, which
//! for `cx = sum_x / n` is the rational `(2*sum_x - n*(W-1)) / (n*W)`; the
//! vertical axis is flipped, because image-space y grows downward while
//! device-space y grows upward.  The later projection through the camera's
//! field of view and the bearing angle are transcendental and are computed
//! from these rationals at the edge of the process.

use vstd::prelude::*;

use crate::config::NUM_TRACKED_MAX;
use crate::tracking::FRAME_DIM_MAX;

verus! {

/// Largest magnitude an accumulated corner-coordinate sum can reach: at
/// most `NUM_TRACKED_MAX` candidates are accepted, each contributing a
/// coordinate of magnitude at most `FRAME_DIM_MAX`.
pub const SUM_ABS_MAX: i64 = 100_000_000_000;

/// An exact rational number with a positive denominator.
#[derive(Clone, Copy, PartialEq, Eq, Structural, Debug)]
pub struct Ratio {
    pub num: i64,
    pub den: i64,
}

impl Ratio {
    pub open spec fn wf(self) -> bool {
        self.den > 0
    }

    /// The rational is exactly zero.
    pub open spec fn is_zero(self) -> bool {
        self.num == 0
    }
}

/// The per-frame result delivered to the output stage: the aggregated
/// pixel-space center and its normalized device coordinates, both as exact
/// rationals.  The bearing angle is derived from the normalized
/// coordinates by the delivery edge, since it needs transcendental
/// arithmetic.  Created once per frame when a target is found and the
/// center differs from the previously emitted one.
#[derive(Clone, Copy, PartialEq, Eq, Structural, Debug)]
pub struct OutputData {
    pub raw_center_x: Ratio,
    pub raw_center_y: Ratio,
    pub normal_coord_x: Ratio,
    pub normal_coord_y: Ratio,
}

/// Numerator of the horizontal normalized device coordinate of the center
/// `sum_x / n` on a frame `w` pixels wide; the denominator is `n * w`.
pub open spec fn normal_num_x(sum_x: int, n: int, w: int) -> int {
    2 * sum_x - n * (w - 1)
}

/// Numerator of the vertical normalized device coordinate of the center
/// `sum_y / n` on a frame `h` pixels tall; the denominator is `n * h`.
/// The sign is flipped relative to the horizontal axis.
pub open spec fn normal_num_y(sum_y: int, n: int, h: int) -> int {
    n * (h - 1) - 2 * sum_y
}

/// Normalizes the aggregated center `(sum_x / n, sum_y / n)` to device
/// coordinates, exactly.  The results lie in roughly `[-1, 1]` when the
/// center lies inside the frame; a center at the exact frame midpoint
/// `(w/2 - 1/2, h/2 - 1/2)` maps to `(0, 0)`.
pub fn normalize_center(sum_x: i64, sum_y: i64, n: i64, width: i64, height: i64) -> (nc: (
    Ratio,
    Ratio,
))
    requires
        1 <= n <= NUM_TRACKED_MAX,
        1 <= width <= FRAME_DIM_MAX,
        1 <= height <= FRAME_DIM_MAX,
        -SUM_ABS_MAX <= sum_x <= SUM_ABS_MAX,
        -SUM_ABS_MAX <= sum_y <= SUM_ABS_MAX,
    ensures
        nc.0.num == normal_num_x(sum_x as int, n as int, width as int),
        nc.0.den == n * width,
        nc.1.num == normal_num_y(sum_y as int, n as int, height as int),
        nc.1.den == n * height,
        nc.0.wf(),
        nc.1.wf(),
{
    proof {
        assert(1 <= n * width <= 10_000_000_000_000_000) by (nonlinear_arith)
            requires
                1 <= n <= NUM_TRACKED_MAX,
                1 <= width <= FRAME_DIM_MAX,
        ;
        assert(1 <= n * height <= 10_000_000_000_000_000) by (nonlinear_arith)
            requires
                1 <= n <= NUM_TRACKED_MAX,
                1 <= height <= FRAME_DIM_MAX,
        ;
        assert(0 <= n * (width - 1) <= 10_000_000_000_000_000) by (nonlinear_arith)
            requires
                1 <= n <= NUM_TRACKED_MAX,
                1 <= width <= FRAME_DIM_MAX,
        ;
        assert(0 <= n * (height - 1) <= 10_000_000_000_000_000) by (nonlinear_arith)
            requires
                1 <= n <= NUM_TRACKED_MAX,
                1 <= height <= FRAME_DIM_MAX,
        ;
    }
    let nx = Ratio { num: 2 * sum_x - n * (width - 1), den: n * width };
    let ny = Ratio { num: n * (height - 1) - 2 * sum_y, den: n * height };
    (nx, ny)
}

/// Round-trip law of the normalizer: the aggregated center `sum / n` sits
/// at the exact frame midpoint `(w/2 - 1/2, h/2 - 1/2)` if and only if
/// both normalized device coordinates are exactly zero.
pub proof fn lemma_frame_center_normalizes_to_zero(sum_x: int, sum_y: int, n: int, w: int, h: int)
    requires
        n >= 1,
    ensures
        normal_num_x(sum_x, n, w) == 0 <==> 2 * sum_x == n * (w - 1),
        normal_num_y(sum_y, n, h) == 0 <==> 2 * sum_y == n * (h - 1),
{
}

} // verus!

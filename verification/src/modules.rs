//! The capability modules of the pipeline.
//!
//! Each capability role of the pipeline is polymorphic, with interchangeable
//! variants selected by name from the configuration.  The filter role is a
//! pure predicate over a tracking object and is fully decided here; the
//! input, threshold, and output roles perform camera, image-processing, and
//! network work at the edge of the process, so this crate holds their
//! variant records — the parameters each variant was configured with — and
//! the registry that selects among them.
//!
//! Filter thresholds are held in thousandths of a percent, so that every
//! acceptance decision is an exact integer comparison: a candidate whose
//! measured share is the rational `p / q` passes a lower bound `m` (in
//! milli-percent) exactly when `1000 * 100 * p > m * q`, scaled to clear
//! both denominators.

use vstd::prelude::*;

use crate::config::THRESH_MILLI_MAX;
use crate::tracking::CONTOUR_LEN_MAX;
use crate::tracking::FRAME_DIM_MAX;
use crate::tracking::TrackingData;
use crate::tracking::area2;
use crate::tracking::contour_area2;
use crate::tracking::lemma_area2_bound;

verus! {

/// Largest doubled contour area a well-formed candidate can have: at most
/// `CONTOUR_LEN_MAX` boundary points, each shoelace term bounded by
/// `FRAME_DIM_MAX * FRAME_DIM_MAX`.
pub const AREA2_MAX: i128 = 10_000_000_000_000_000;

/// A candidate whose areas are small enough for the filters' exact
/// comparisons.  Every candidate that is well formed for a legal frame
/// size satisfies this; see [`lemma_wf_implies_bounded`].
pub open spec fn obj_bounded(o: TrackingData) -> bool {
    &&& area2(o.cnt@) <= AREA2_MAX
    &&& area2(o.hull@) <= AREA2_MAX
    &&& o.rect.wf()
}

/// A candidate that is well formed for a legal frame size has bounded
/// areas, so every filter can measure it without overflow.
pub proof fn lemma_wf_implies_bounded(o: TrackingData, w: int, h: int)
    requires
        o.wf(w, h),
        0 <= w <= FRAME_DIM_MAX,
        0 <= h <= FRAME_DIM_MAX,
    ensures
        obj_bounded(o),
{
    lemma_area2_bound(o.cnt@, w, h);
    lemma_area2_bound(o.hull@, w, h);
    assert(o.cnt@.len() * (w * h) <= CONTOUR_LEN_MAX * (FRAME_DIM_MAX * FRAME_DIM_MAX))
        by (nonlinear_arith)
        requires
            0 <= o.cnt@.len() <= CONTOUR_LEN_MAX,
            0 <= w <= FRAME_DIM_MAX,
            0 <= h <= FRAME_DIM_MAX,
    ;
    assert(o.hull@.len() * (w * h) <= CONTOUR_LEN_MAX * (FRAME_DIM_MAX * FRAME_DIM_MAX))
        by (nonlinear_arith)
        requires
            0 <= o.hull@.len() <= CONTOUR_LEN_MAX,
            0 <= w <= FRAME_DIM_MAX,
            0 <= h <= FRAME_DIM_MAX,
    ;
}

/// The filter capability: a side-effect-free predicate over one tracking
/// object, safe to run in any order relative to other filters.
pub trait FilterModule: Sized {
    /// The variant's parameters are in their legal ranges.
    spec fn wf(&self) -> bool;

    /// The predicate the variant decides.
    spec fn accepts(&self, object: TrackingData) -> bool;

    /// Decides the predicate on one candidate.
    fn run(&self, object: &TrackingData) -> (r: bool)
        requires
            self.wf(),
            obj_bounded(*object),
        ensures
            r == self.accepts(*object),
    ;
}

/// Filter variant that accepts a candidate whose convex-hull area, as a
/// share of the whole frame area, lies strictly between two thresholds.
#[derive(Clone, Copy, PartialEq, Eq, Structural, Debug)]
pub struct ContourArea {
    /// Lower bound, in thousandths of a percent of the frame area.
    pub min_milli: i64,
    /// Upper bound, in thousandths of a percent of the frame area.
    pub max_milli: i64,
    /// The frame area in pixels, `width * height`.
    pub frame_area: i64,
}

impl ContourArea {
    pub fn new(min_milli: i64, max_milli: i64, width: i64, height: i64) -> (f: Self)
        requires
            -THRESH_MILLI_MAX <= min_milli <= THRESH_MILLI_MAX,
            -THRESH_MILLI_MAX <= max_milli <= THRESH_MILLI_MAX,
            1 <= width <= FRAME_DIM_MAX,
            1 <= height <= FRAME_DIM_MAX,
        ensures
            f == (ContourArea { min_milli, max_milli, frame_area: (width * height) as i64 }),
            f.wf(),
    {
        proof {
            assert(1 <= width * height <= FRAME_DIM_MAX * FRAME_DIM_MAX) by (nonlinear_arith)
                requires
                    1 <= width <= FRAME_DIM_MAX,
                    1 <= height <= FRAME_DIM_MAX,
            ;
        }
        ContourArea { min_milli, max_milli, frame_area: width * height }
    }
}

impl FilterModule for ContourArea {
    open spec fn wf(&self) -> bool {
        &&& -THRESH_MILLI_MAX <= self.min_milli <= THRESH_MILLI_MAX
        &&& -THRESH_MILLI_MAX <= self.max_milli <= THRESH_MILLI_MAX
        &&& 1 <= self.frame_area <= FRAME_DIM_MAX * FRAME_DIM_MAX
    }

    /// The hull covers a share of the frame strictly between the bounds:
    /// with doubled hull area `a2`, the share in percent is
    /// `100 * (a2/2) / frame_area`, compared exactly after scaling by
    /// `1000 * frame_area`.
    open spec fn accepts(&self, object: TrackingData) -> bool {
        &&& 50_000 * area2(object.hull@) > self.min_milli * self.frame_area
        &&& 50_000 * area2(object.hull@) < self.max_milli * self.frame_area
    }

    fn run(&self, object: &TrackingData) -> (r: bool) {
        let a2 = contour_area2(&object.hull);
        proof {
            assert((self.min_milli as int) * (self.frame_area as int) <= 100_000_000_000_000_000_000_000
                && (self.min_milli as int) * (self.frame_area as int)
                >= -100_000_000_000_000_000_000_000) by (nonlinear_arith)
                requires
                    -THRESH_MILLI_MAX <= self.min_milli <= THRESH_MILLI_MAX,
                    1 <= self.frame_area <= FRAME_DIM_MAX * FRAME_DIM_MAX,
            ;
            assert((self.max_milli as int) * (self.frame_area as int) <= 100_000_000_000_000_000_000_000
                && (self.max_milli as int) * (self.frame_area as int)
                >= -100_000_000_000_000_000_000_000) by (nonlinear_arith)
                requires
                    -THRESH_MILLI_MAX <= self.max_milli <= THRESH_MILLI_MAX,
                    1 <= self.frame_area <= FRAME_DIM_MAX * FRAME_DIM_MAX,
            ;
        }
        let scaled: i128 = 50_000 * a2;
        let lo: i128 = (self.min_milli as i128) * (self.frame_area as i128);
        let hi: i128 = (self.max_milli as i128) * (self.frame_area as i128);
        scaled > lo && scaled < hi
    }
}

/// Filter variant that accepts a candidate whose raw contour fills a share
/// of its own minimum-area rectangle strictly between two thresholds.
#[derive(Clone, Copy, PartialEq, Eq, Structural, Debug)]
pub struct PercentFilled {
    /// Lower bound, in thousandths of a percent of the rectangle area.
    pub min_milli: i64,
    /// Upper bound, in thousandths of a percent of the rectangle area.
    pub max_milli: i64,
}

impl PercentFilled {
    pub fn new(min_milli: i64, max_milli: i64) -> (f: Self)
        requires
            -THRESH_MILLI_MAX <= min_milli <= THRESH_MILLI_MAX,
            -THRESH_MILLI_MAX <= max_milli <= THRESH_MILLI_MAX,
        ensures
            f == (PercentFilled { min_milli, max_milli }),
            f.wf(),
    {
        PercentFilled { min_milli, max_milli }
    }
}

impl FilterModule for PercentFilled {
    open spec fn wf(&self) -> bool {
        &&& -THRESH_MILLI_MAX <= self.min_milli <= THRESH_MILLI_MAX
        &&& -THRESH_MILLI_MAX <= self.max_milli <= THRESH_MILLI_MAX
    }

    /// The contour fills a share of its minimum-area rectangle strictly
    /// between the bounds: with doubled contour area `a2` and rectangle
    /// sides in milli-pixels, the rectangle area is `ra / 10^6` square
    /// pixels for `ra = width_milli * height_milli`, and the share in
    /// percent is `100 * (a2/2) / (ra / 10^6)`, compared exactly after
    /// scaling by `1000 * ra`.  A degenerate rectangle of zero area
    /// accepts nothing, as a share of nothing is no share.
    open spec fn accepts(&self, object: TrackingData) -> bool {
        let ra = object.rect.width_milli * object.rect.height_milli;
        &&& ra > 0
        &&& 50_000_000_000 * area2(object.cnt@) > self.min_milli * ra
        &&& 50_000_000_000 * area2(object.cnt@) < self.max_milli * ra
    }

    fn run(&self, object: &TrackingData) -> (r: bool) {
        let a2 = contour_area2(&object.cnt);
        proof {
            assert(0 <= (object.rect.width_milli as int) * (object.rect.height_milli as int)
                <= 100_000_000_000_000_000_000) by (nonlinear_arith)
                requires
                    0 <= object.rect.width_milli <= 10_000_000_000,
                    0 <= object.rect.height_milli <= 10_000_000_000,
            ;
        }
        let ra: i128 = (object.rect.width_milli as i128) * (object.rect.height_milli as i128);
        if ra <= 0 {
            return false;
        }
        proof {
            assert((self.min_milli as int) * (ra as int) <= 100_000_000_000_000_000_000_000_000_000_000
                && (self.min_milli as int) * (ra as int)
                >= -100_000_000_000_000_000_000_000_000_000_000) by (nonlinear_arith)
                requires
                    -THRESH_MILLI_MAX <= self.min_milli <= THRESH_MILLI_MAX,
                    0 <= ra <= 100_000_000_000_000_000_000,
            ;
            assert((self.max_milli as int) * (ra as int) <= 100_000_000_000_000_000_000_000_000_000_000
                && (self.max_milli as int) * (ra as int)
                >= -100_000_000_000_000_000_000_000_000_000_000) by (nonlinear_arith)
                requires
                    -THRESH_MILLI_MAX <= self.max_milli <= THRESH_MILLI_MAX,
                    0 <= ra <= 100_000_000_000_000_000_000,
            ;
        }
        let scaled: i128 = 50_000_000_000 * a2;
        let lo: i128 = (self.min_milli as i128) * ra;
        let hi: i128 = (self.max_milli as i128) * ra;
        scaled > lo && scaled < hi
    }
}

/// One configured filter stage: the closed set of filter variants the
/// registry can select by name.
#[derive(Clone, Copy, PartialEq, Eq, Structural, Debug)]
pub enum Filter {
    ContourArea(ContourArea),
    PercentFilled(PercentFilled),
}

impl FilterModule for Filter {
    open spec fn wf(&self) -> bool {
        match *self {
            Filter::ContourArea(f) => f.wf(),
            Filter::PercentFilled(f) => f.wf(),
        }
    }

    open spec fn accepts(&self, object: TrackingData) -> bool {
        match *self {
            Filter::ContourArea(f) => f.accepts(object),
            Filter::PercentFilled(f) => f.accepts(object),
        }
    }

    fn run(&self, object: &TrackingData) -> (r: bool) {
        match self {
            Filter::ContourArea(f) => f.run(object),
            Filter::PercentFilled(f) => f.run(object),
        }
    }
}

/// One inclusive color range of a threshold variant, as lower and upper
/// channel bounds.
#[derive(Clone, Copy, PartialEq, Eq, Debug)]
pub struct ColorRange {
    pub lower: [u8; 3],
    pub upper: [u8; 3],
}

/// Threshold variant that segments the frame by one fixed color range.
/// The segmentation itself runs on the image at the edge of the process;
/// this record carries the channel bounds it was configured with.
#[derive(Clone, Copy, PartialEq, Eq, Debug)]
pub struct SimpleColor {
    pub color_l: [u8; 3],
    pub color_u: [u8; 3],
}

impl SimpleColor {
    pub fn new(color_l: [u8; 3], color_u: [u8; 3]) -> (t: Self)
        ensures
            t == (SimpleColor { color_l, color_u }),
    {
        SimpleColor { color_l, color_u }
    }
}

/// Threshold variant that segments the frame by several compound color
/// ranges, a candidate region matching any of them.
#[derive(Debug)]
pub struct ComplexColor {
    pub ranges: Vec<ColorRange>,
}

impl ComplexColor {
    pub fn new(ranges: Vec<ColorRange>) -> (t: Self)
        ensures
            t.ranges@ == ranges@,
    {
        ComplexColor { ranges }
    }
}

/// The configured threshold variant: the closed set the registry can
/// select by name.
#[derive(Debug)]
pub enum ThresholdKind {
    SimpleColor(SimpleColor),
    ComplexColor(ComplexColor),
}

/// The configured input variant.  Frame capture happens at the edge of
/// the process; the variant record names the source the composer chose.
#[derive(Clone, Copy, PartialEq, Eq, Structural, Debug)]
pub enum InputKind {
    PiCamera,
}

/// The configured output variant: delivery to a keyed remote data store
/// over a persistent connection, established at the configured address by
/// the edge of the process.
#[derive(Debug)]
pub enum OutputKind {
    NetworkTable { ip: String },
}

} // verus!

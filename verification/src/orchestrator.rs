//! The per-frame decision core of the frame loop.
//!
//! Each cycle the loop acquires a frame, the threshold stage turns it into
//! candidates, and this module decides the rest of the cycle: it runs the
//! filter chain, selects and aggregates the targets, and applies the
//! emission policy — output is delivered only when a target was found and
//! the newly aggregated center differs from the previously emitted one, so
//! consumers are not flooded with duplicate values.  Acquisition,
//! annotation, encoding, and delivery happen at the edge of the process;
//! the edge hands this module the candidates of one frame and performs the
//! delivery this module decides on.
//!
//! The aggregated center is carried as the pair of corner-coordinate sums;
//! the center itself is the exact rational `sum / n` for the configured
//! `n`, so two frames have equal centers exactly when their sums are
//! equal, and the center is zero exactly when both sums are zero.

use vstd::prelude::*;

use crate::config::Pipeline;
use crate::filter_chain::apply_filters;
use crate::filter_chain::survivors;
use crate::geometry::OutputData;
use crate::geometry::Ratio;
use crate::geometry::normal_num_x;
use crate::geometry::normal_num_y;
use crate::geometry::normalize_center;
use crate::modules::lemma_wf_implies_bounded;
use crate::modules::obj_bounded;
use crate::selection::corners_in_range;
use crate::selection::select_targets;
use crate::selection::selection_ok;
use crate::selection::sum_bx;
use crate::selection::sum_by;
use crate::tracking::TrackingData;

verus! {

/// Loop-local state carried from one frame to the next: the
/// corner-coordinate sums of the last emitted center.  The configured `n`
/// never changes, so equal sums mean an equal center.
#[derive(Clone, Copy, PartialEq, Eq, Structural, Debug)]
pub struct LoopState {
    pub prev_sum_x: i64,
    pub prev_sum_y: i64,
}

impl LoopState {
    /// Before the first frame nothing has been emitted; the zero sums
    /// stand for "no previous center", which is safe because a zero
    /// center is never emitted anyway.
    pub fn new() -> (s: Self)
        ensures
            s == (LoopState { prev_sum_x: 0, prev_sum_y: 0 }),
    {
        LoopState { prev_sum_x: 0, prev_sum_y: 0 }
    }
}

/// The emission policy: deliver exactly when the new center is non-zero
/// and differs from the previously emitted center (sums compared for the
/// fixed configured divisor).
pub open spec fn should_emit(prev_x: int, prev_y: int, sx: int, sy: int) -> bool {
    !(sx == 0 && sy == 0) && !(sx == prev_x && sy == prev_y)
}

/// What one frame cycle decided: the selected candidates (largest first,
/// for annotation), the aggregated center sums, and the output to
/// deliver, if any.
pub struct CycleOutcome {
    pub selected: Vec<TrackingData>,
    pub center_sum_x: i64,
    pub center_sum_y: i64,
    pub emit: Option<OutputData>,
}

/// Runs the decision part of one frame cycle on the candidates the
/// threshold stage produced: filters them, selects and aggregates the
/// largest `n`, and decides emission.  When the cycle emits, the state
/// retains the emitted center's sums; otherwise the state is unchanged.
/// An empty filtered set aggregates to the zero center and never emits.
pub fn run_cycle(state: &mut LoopState, objects: Vec<TrackingData>, pipeline: &Pipeline) -> (r:
    CycleOutcome)
    requires
        pipeline.wf(),
        forall|i: int|
            0 <= i < objects@.len() ==> (#[trigger] objects@[i]).wf(
                pipeline.width as int,
                pipeline.height as int,
            ),
    ensures
        ({
            let survived = survivors(objects@, pipeline.filters@);
            let n = pipeline.num_tracked_contours as int;
            let w = pipeline.width as int;
            let h = pipeline.height as int;
            &&& selection_ok(survived, n, r.selected@)
            &&& r.center_sum_x == sum_bx(r.selected@)
            &&& r.center_sum_y == sum_by(r.selected@)
            &&& (r.emit is Some <==> should_emit(
                old(state).prev_sum_x as int,
                old(state).prev_sum_y as int,
                r.center_sum_x as int,
                r.center_sum_y as int,
            ))
            &&& r.emit matches Some(d) ==> {
                &&& d.raw_center_x == (Ratio {
                    num: r.center_sum_x,
                    den: pipeline.num_tracked_contours,
                })
                &&& d.raw_center_y == (Ratio {
                    num: r.center_sum_y,
                    den: pipeline.num_tracked_contours,
                })
                &&& d.normal_coord_x.num == normal_num_x(r.center_sum_x as int, n, w)
                &&& d.normal_coord_x.den == n * w
                &&& d.normal_coord_y.num == normal_num_y(r.center_sum_y as int, n, h)
                &&& d.normal_coord_y.den == n * h
                &&& final(state).prev_sum_x == r.center_sum_x
                &&& final(state).prev_sum_y == r.center_sum_y
            }
            &&& r.emit is None ==> *final(state) == *old(state)
            &&& survived.len() == 0 ==> r.center_sum_x == 0 && r.center_sum_y == 0
                && r.emit is None
        }),
{
    proof {
        assert forall|i: int| 0 <= i < objects@.len() implies obj_bounded(
            #[trigger] objects@[i],
        ) by {
            lemma_wf_implies_bounded(
                objects@[i],
                pipeline.width as int,
                pipeline.height as int,
            );
        }
    }
    let ghost pool = objects@;
    let filtered = apply_filters(objects, &pipeline.filters);
    proof {
        assert forall|i: int|
            0 <= i < filtered@.len() implies -crate::tracking::FRAME_DIM_MAX <= (
        #[trigger] filtered@[i]).bounding.x <= crate::tracking::FRAME_DIM_MAX
            && -crate::tracking::FRAME_DIM_MAX <= filtered@[i].bounding.y
            <= crate::tracking::FRAME_DIM_MAX by {
            assert(pool.contains(filtered@[i]));
            let w = choose|w: int| 0 <= w < pool.len() && pool[w] == filtered@[i];
            assert(pool[w].wf(pipeline.width as int, pipeline.height as int));
        }
        assert(corners_in_range(filtered@));
    }
    let ghost survived = filtered@;
    let (selected, sx, sy) = select_targets(filtered, pipeline.num_tracked_contours);
    proof {
        if survived.len() == 0 {
            assert(selected@.len() == 0);
            assert(sum_bx(selected@) == 0);
            assert(sum_by(selected@) == 0);
        }
    }
    let emit_now = !(sx == 0 && sy == 0) && !(sx == state.prev_sum_x && sy == state.prev_sum_y);
    if emit_now {
        let (nx, ny) = normalize_center(
            sx,
            sy,
            pipeline.num_tracked_contours,
            pipeline.width,
            pipeline.height,
        );
        let data = OutputData {
            raw_center_x: Ratio { num: sx, den: pipeline.num_tracked_contours },
            raw_center_y: Ratio { num: sy, den: pipeline.num_tracked_contours },
            normal_coord_x: nx,
            normal_coord_y: ny,
        };
        state.prev_sum_x = sx;
        state.prev_sum_y = sy;
        CycleOutcome { selected, center_sum_x: sx, center_sum_y: sy, emit: Some(data) }
    } else {
        CycleOutcome { selected, center_sum_x: sx, center_sum_y: sy, emit: None }
    }
}

/// Idempotence of unchanged state: once a center has been emitted and
/// retained, a later frame that aggregates to the same center is
/// suppressed — delivery happens at most once per distinct non-zero
/// center value.
pub proof fn lemma_repeat_center_suppressed(sx: int, sy: int)
    ensures
        !should_emit(sx, sy, sx, sy),
{
}

/// The zero center means "no target" and is never delivered, whatever was
/// emitted before.
pub proof fn lemma_zero_center_never_emits(prev_x: int, prev_y: int)
    ensures
        !should_emit(prev_x, prev_y, 0, 0),
{
}

} // verus!

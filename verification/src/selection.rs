//! Target selection and aggregation.
//!
//! The filtered candidates of a frame are ordered by raw contour area and
//! the largest `n` of them (or all, if fewer pass the filters) are
//! accepted.  The bounding-box top-left corners of the accepted candidates
//! are summed; the aggregated tracking center is the rational
//! `(sum_x / n, sum_y / n)`, divided by the configured `n` in every case —
//! deliberately also when fewer than `n` candidates were accepted, which
//! biases the center toward zero.  This module computes the sums; the
//! division is carried exactly by the [`crate::geometry::Ratio`] values of
//! the emitted output.

use core::cmp::Ordering;
use itertools::Itertools;
use vstd::prelude::*;

use crate::config::NUM_TRACKED_MAX;
use crate::geometry::SUM_ABS_MAX;
use crate::tracking::FRAME_DIM_MAX;
use crate::tracking::TrackingData;
use crate::tracking::area2;
use crate::tracking::contour_area2;

verus! {

broadcast use vstd::seq_lib::group_to_multiset_ensures;

/// Sum of the bounding-box left coordinates of a candidate sequence.
pub open spec fn sum_bx(s: Seq<TrackingData>) -> int
    decreases s.len(),
{
    if s.len() == 0 {
        0
    } else {
        sum_bx(s.drop_last()) + s.last().bounding.x
    }
}

/// Sum of the bounding-box top coordinates of a candidate sequence.
pub open spec fn sum_by(s: Seq<TrackingData>) -> int
    decreases s.len(),
{
    if s.len() == 0 {
        0
    } else {
        sum_by(s.drop_last()) + s.last().bounding.y
    }
}

/// Every candidate's bounding-box corner lies within the coordinate range
/// the accumulator accepts.
pub open spec fn corners_in_range(s: Seq<TrackingData>) -> bool {
    forall|i: int|
        0 <= i < s.len() ==> -FRAME_DIM_MAX <= (#[trigger] s[i]).bounding.x <= FRAME_DIM_MAX
            && -FRAME_DIM_MAX <= s[i].bounding.y <= FRAME_DIM_MAX
}

/// What selection owes: `selected` consists of `n` candidates of `pool`
/// (all of them, if the pool holds fewer), in descending area order, and
/// every occurrence of a pool candidate left unselected has an area no
/// larger than any selected one — the selected are the largest, with ties
/// broken arbitrarily.
pub open spec fn selection_ok(pool: Seq<TrackingData>, n: int, selected: Seq<TrackingData>) -> bool {
    &&& selected.len() == if n <= pool.len() {
        n
    } else {
        pool.len() as int
    }
    &&& (forall|i: int, j: int|
        0 <= i <= j < selected.len() ==> area2(#[trigger] selected[i].cnt@) >= area2(
            #[trigger] selected[j].cnt@,
        ))
    &&& (forall|x: TrackingData|
        #[trigger] selected.to_multiset().count(x) <= pool.to_multiset().count(x))
    &&& (forall|x: TrackingData, i: int|
        #![trigger pool.to_multiset().count(x), selected[i]]
        pool.to_multiset().count(x) > selected.to_multiset().count(x) && 0 <= i < selected.len()
            ==> area2(x.cnt@) <= area2(selected[i].cnt@))
}

/// Compares two candidates by doubled raw contour area.
fn compare_area(a: &TrackingData, b: &TrackingData) -> (o: Ordering)
    ensures
        o == Ordering::Less <==> area2(a.cnt@) < area2(b.cnt@),
        o == Ordering::Equal <==> area2(a.cnt@) == area2(b.cnt@),
        o == Ordering::Greater <==> area2(a.cnt@) > area2(b.cnt@),
{
    let aa = contour_area2(&a.cnt);
    let ba = contour_area2(&b.cnt);
    if aa < ba {
        Ordering::Less
    } else if aa == ba {
        Ordering::Equal
    } else {
        Ordering::Greater
    }
}

/// Relies on itertools' `sorted_by`: it returns the elements of the input,
/// and only those, sorted into ascending order as decided by the
/// comparator (it collects into a `Vec` and applies the standard stable
/// sort).  The comparator is the verified [`compare_area`], so the result
/// is a permutation of the input that ascends by doubled contour area.
#[verifier::external_body]
fn sorted_by_contour_area(objects: Vec<TrackingData>) -> (r: Vec<TrackingData>)
    ensures
        r@.to_multiset() == objects@.to_multiset(),
        forall|i: int, j: int|
            0 <= i <= j < r@.len() ==> area2(#[trigger] r@[i].cnt@) <= area2(
                #[trigger] r@[j].cnt@,
            ),
{
    objects.into_iter().sorted_by(|a, b| compare_area(a, b)).collect()
}

/// Orders the candidates by raw contour area and accepts the largest `n`
/// (or all, if fewer exist), accumulating the sums of their bounding-box
/// top-left corners.  Returns the accepted candidates, largest first, and
/// the two sums.
pub fn select_targets(objects: Vec<TrackingData>, n: i64) -> (r: (Vec<TrackingData>, i64, i64))
    requires
        1 <= n <= NUM_TRACKED_MAX,
        corners_in_range(objects@),
    ensures
        selection_ok(objects@, n as int, r.0@),
        r.1 == sum_bx(r.0@),
        r.2 == sum_by(r.0@),
        -SUM_ABS_MAX <= r.1 <= SUM_ABS_MAX,
        -SUM_ABS_MAX <= r.2 <= SUM_ABS_MAX,
{
    let ghost pool = objects@;
    let mut sorted = sorted_by_contour_area(objects);
    let ghost sorted0 = sorted@;
    proof {
        assert(sorted0.to_multiset().len() == sorted0.len());
        assert(pool.to_multiset().len() == pool.len());
        assert(sorted0.len() == pool.len());
    }
    let len = sorted.len();
    let k: usize = if (n as usize) <= len {
        n as usize
    } else {
        len
    };
    let mut selected: Vec<TrackingData> = Vec::new();
    let mut sx: i64 = 0;
    let mut sy: i64 = 0;
    let mut cnt: usize = 0;
    while cnt < k
        invariant
            0 <= cnt <= k <= len == sorted0.len(),
            k <= n,
            1 <= n <= NUM_TRACKED_MAX,
            corners_in_range(pool),
            sorted0.to_multiset() == pool.to_multiset(),
            forall|i: int, j: int|
                0 <= i <= j < sorted0.len() ==> area2(#[trigger] sorted0[i].cnt@) <= area2(
                    #[trigger] sorted0[j].cnt@,
                ),
            sorted@ == sorted0.subrange(0, len - cnt),
            selected@.len() == cnt,
            forall|i: int| 0 <= i < cnt ==> #[trigger] selected@[i] == sorted0[len - 1 - i],
            sorted@.to_multiset().add(selected@.to_multiset()) == sorted0.to_multiset(),
            sx == sum_bx(selected@),
            sy == sum_by(selected@),
            -(cnt as int) * FRAME_DIM_MAX <= sx <= (cnt as int) * FRAME_DIM_MAX,
            -(cnt as int) * FRAME_DIM_MAX <= sy <= (cnt as int) * FRAME_DIM_MAX,
        decreases k - cnt,
    {
        let ghost pre_sorted = sorted@;
        let ghost pre_selected = selected@;
        let obj = sorted.pop().unwrap();
        proof {
            assert(obj == sorted0[len - cnt - 1]);
            assert(sorted@ =~= sorted0.subrange(0, len - (cnt + 1)));
            assert(pre_sorted.drop_last() =~= sorted@);
            assert(sorted@.to_multiset().insert(obj) == pre_sorted.to_multiset()) by {
                assert(pre_sorted.remove(pre_sorted.len() - 1) =~= sorted@);
                assert(pre_sorted[pre_sorted.len() - 1] == obj);
            }
            // The popped candidate occurs in the pool, so its corner is in range.
            assert(pool.to_multiset().count(obj) > 0) by {
                assert(pre_sorted.to_multiset().count(obj) > 0);
                vstd::multiset::axiom_multiset_add(
                    sorted@.to_multiset().insert(obj),
                    pre_selected.to_multiset(),
                    obj,
                );
            }
            assert(pool.contains(obj));
            let wit = choose|i: int| 0 <= i < pool.len() && pool[i] == obj;
            assert(-FRAME_DIM_MAX <= obj.bounding.x <= FRAME_DIM_MAX);
            assert(-FRAME_DIM_MAX <= obj.bounding.y <= FRAME_DIM_MAX);
        }
        let bx = obj.bounding.x;
        let by = obj.bounding.y;
        selected.push(obj);
        proof {
            assert(selected@.drop_last() =~= pre_selected);
            assert(sum_bx(selected@) == sum_bx(pre_selected) + bx);
            assert(sum_by(selected@) == sum_by(pre_selected) + by);
            assert(sorted@.to_multiset().add(selected@.to_multiset()) =~= sorted0.to_multiset())
                by {
                let a = sorted@.to_multiset();
                let b = pre_selected.to_multiset();
                assert(selected@.to_multiset() == b.insert(obj));
                assert forall|x: TrackingData|
                    a.add(b.insert(obj)).count(x) == a.insert(obj).add(b).count(x) by {
                    vstd::multiset::axiom_multiset_add(a, b.insert(obj), x);
                    vstd::multiset::axiom_multiset_add(a.insert(obj), b, x);
                }
            }
        }
        sx = sx + (bx as i64);
        sy = sy + (by as i64);
        cnt = cnt + 1;
    }
    proof {
        lemma_selection_post(pool, sorted0, selected@, n as int, k as int);
    }
    (selected, sx, sy)
}

/// After the accumulation loop the accepted candidates satisfy the
/// selection obligation: they are the suffix of the area-ascending
/// ordering, reversed, so they descend by area and dominate everything
/// left in the prefix.
proof fn lemma_selection_post(
    pool: Seq<TrackingData>,
    sorted0: Seq<TrackingData>,
    selected: Seq<TrackingData>,
    n: int,
    k: int,
)
    requires
        sorted0.to_multiset() == pool.to_multiset(),
        forall|i: int, j: int|
            0 <= i <= j < sorted0.len() ==> area2(#[trigger] sorted0[i].cnt@) <= area2(
                #[trigger] sorted0[j].cnt@,
            ),
        k == if n <= sorted0.len() {
            n
        } else {
            sorted0.len() as int
        },
        selected.len() == k,
        forall|i: int| 0 <= i < k ==> #[trigger] selected[i] == sorted0[sorted0.len() - 1 - i],
        sorted0.subrange(0, sorted0.len() - k).to_multiset().add(selected.to_multiset())
            == sorted0.to_multiset(),
    ensures
        selection_ok(pool, n, selected),
{
    let len = sorted0.len() as int;
    let prefix = sorted0.subrange(0, len - k);
    assert(sorted0.to_multiset().len() == sorted0.len());
    assert(pool.to_multiset().len() == pool.len());
    assert(pool.len() == sorted0.len());
    assert forall|i: int, j: int|
        0 <= i <= j < selected.len() implies area2(#[trigger] selected[i].cnt@) >= area2(
        #[trigger] selected[j].cnt@,
    ) by {
        assert(selected[i] == sorted0[len - 1 - i]);
        assert(selected[j] == sorted0[len - 1 - j]);
        assert(area2(sorted0[len - 1 - j].cnt@) <= area2(sorted0[len - 1 - i].cnt@));
    }
    assert forall|x: TrackingData|
        #[trigger] selected.to_multiset().count(x) <= pool.to_multiset().count(x) by {
        vstd::multiset::axiom_multiset_add(prefix.to_multiset(), selected.to_multiset(), x);
    }
    assert forall|x: TrackingData, i: int|
        #![trigger pool.to_multiset().count(x), selected[i]]
        pool.to_multiset().count(x) > selected.to_multiset().count(x) && 0 <= i < selected.len()
            implies area2(x.cnt@) <= area2(selected[i].cnt@) by {
        vstd::multiset::axiom_multiset_add(prefix.to_multiset(), selected.to_multiset(), x);
        assert(prefix.to_multiset().count(x) > 0);
        assert(prefix.contains(x));
        let a = choose|a: int| 0 <= a < prefix.len() && prefix[a] == x;
        assert(sorted0[a] == x);
        assert(selected[i] == sorted0[len - 1 - i]);
        assert(a <= len - 1 - i);
        assert(area2(sorted0[a].cnt@) <= area2(sorted0[len - 1 - i].cnt@));
    }
}

} // verus!

//! The filter chain.
//!
//! The threshold stage's candidates pass through each configured filter in
//! configuration order; a candidate survives only if every filter accepts
//! it.  Applying the filters one stage at a time — each stage seeing only
//! what the earlier stages kept — discards exactly the candidates that
//! some filter rejects, without reordering the survivors; and because the
//! filter predicates are pure, the surviving set does not depend on the
//! order of the stages.

use vstd::prelude::*;

use crate::modules::Filter;
use crate::modules::FilterModule;
use crate::modules::obj_bounded;
use crate::tracking::TrackingData;

verus! {

broadcast use vstd::seq_lib::group_filter_ensures;

/// Every filter of the chain accepts the candidate.
pub open spec fn chain_accepts(filters: Seq<Filter>, o: TrackingData) -> bool {
    forall|k: int| 0 <= k < filters.len() ==> (#[trigger] filters[k]).accepts(o)
}

/// Every filter of the chain has parameters in their legal ranges.
pub open spec fn chain_wf(filters: Seq<Filter>) -> bool {
    forall|k: int| 0 <= k < filters.len() ==> (#[trigger] filters[k]).wf()
}

/// The candidates that survive the whole chain, in their original order.
pub open spec fn survivors(objects: Seq<TrackingData>, filters: Seq<Filter>) -> Seq<TrackingData> {
    objects.filter(|o: TrackingData| chain_accepts(filters, o))
}

/// Filtering by `p` and then by `q` keeps exactly the elements that both
/// accept, in one pass of any predicate equivalent to their conjunction.
proof fn lemma_filter_filter(
    s: Seq<TrackingData>,
    p: spec_fn(TrackingData) -> bool,
    q: spec_fn(TrackingData) -> bool,
    both: spec_fn(TrackingData) -> bool,
)
    requires
        forall|x: TrackingData| #[trigger] both(x) == (p(x) && q(x)),
    ensures
        s.filter(p).filter(q) == s.filter(both),
    decreases s.len(),
{
    reveal_with_fuel(Seq::<TrackingData>::filter, 2);
    if s.len() == 0 {
        assert(s.filter(p).filter(q) =~= s.filter(both));
    } else {
        let rest = s.drop_last();
        let o = s.last();
        lemma_filter_filter(rest, p, q, both);
        if p(o) {
            assert(s.filter(p) == rest.filter(p).push(o));
            assert(rest.filter(p).push(o).drop_last() =~= rest.filter(p));
            assert(rest.filter(p).push(o).last() == o);
            assert(s.filter(p).filter(q) == if q(o) {
                rest.filter(p).filter(q).push(o)
            } else {
                rest.filter(p).filter(q)
            });
        } else {
            assert(s.filter(p) == rest.filter(p));
            assert(s.filter(p).filter(q) == rest.filter(p).filter(q));
        }
        assert(s.filter(both) == if both(o) {
            rest.filter(both).push(o)
        } else {
            rest.filter(both)
        });
    }
}

/// Filtering by predicates that agree everywhere gives the same sequence.
proof fn lemma_filter_ext(
    s: Seq<TrackingData>,
    p: spec_fn(TrackingData) -> bool,
    q: spec_fn(TrackingData) -> bool,
)
    requires
        forall|x: TrackingData| #[trigger] p(x) == q(x),
    ensures
        s.filter(p) == s.filter(q),
    decreases s.len(),
{
    reveal_with_fuel(Seq::<TrackingData>::filter, 2);
    if s.len() == 0 {
        assert(s.filter(p) =~= s.filter(q));
    } else {
        lemma_filter_ext(s.drop_last(), p, q);
        assert(p(s.last()) == q(s.last()));
    }
}

/// The surviving set of a two-stage chain does not depend on the order of
/// the stages: chaining `[f, g]` keeps exactly the candidates that both
/// accept, the same sequence that chaining `[g, f]` keeps.
pub proof fn lemma_chain_order_independent(objects: Seq<TrackingData>, f: Filter, g: Filter)
    ensures
        survivors(objects, seq![f, g]) == survivors(objects, seq![g, f]),
{
    let sfg = seq![f, g];
    let sgf = seq![g, f];
    let fg = |o: TrackingData| chain_accepts(sfg, o);
    let gf = |o: TrackingData| chain_accepts(sgf, o);
    assert forall|o: TrackingData| #[trigger] fg(o) == gf(o) by {
        assert(sfg[0] == f && sfg[1] == g);
        assert(sgf[0] == g && sgf[1] == f);
        if f.accepts(o) && g.accepts(o) {
            assert(forall|k: int| 0 <= k < 2 ==> (#[trigger] sfg[k]).accepts(o));
            assert(forall|k: int| 0 <= k < 2 ==> (#[trigger] sgf[k]).accepts(o));
        }
    }
    lemma_filter_ext(objects, fg, gf);
}

/// Applies each configured filter in order, each stage keeping only the
/// candidates the filter accepts; the survivors are exactly the
/// candidates every filter accepts, in their original order.
pub fn apply_filters(objects: Vec<TrackingData>, filters: &Vec<Filter>) -> (r: Vec<TrackingData>)
    requires
        chain_wf(filters@),
        forall|i: int| 0 <= i < objects@.len() ==> obj_bounded(#[trigger] objects@[i]),
    ensures
        r@ == survivors(objects@, filters@),
        forall|i: int| 0 <= i < r@.len() ==> objects@.contains(#[trigger] r@[i]),
{
    let ghost pool = objects@;
    let mut cur = objects;
    let mut fi: usize = 0;
    proof {
        assert(filters@.subrange(0, 0) =~= Seq::<Filter>::empty());
        let pred0 = |o: TrackingData| chain_accepts(filters@.subrange(0, 0), o);
        assert forall|o: TrackingData| #[trigger] pred0(o) by {
            assert(filters@.subrange(0, 0).len() == 0);
        }
        lemma_filter_trivial(pool, pred0);
    }
    while fi < filters.len()
        invariant
            0 <= fi <= filters@.len(),
            chain_wf(filters@),
            forall|i: int| 0 <= i < pool.len() ==> obj_bounded(#[trigger] pool[i]),
            cur@ == pool.filter(
                |o: TrackingData| chain_accepts(filters@.subrange(0, fi as int), o),
            ),
        decreases filters@.len() - fi,
    {
        let ghost prefix_pred = |o: TrackingData| chain_accepts(
            filters@.subrange(0, fi as int),
            o,
        );
        let f = filters[fi];
        let ghost cur0 = cur@;
        let mut kept: Vec<TrackingData> = Vec::new();
        proof {
            assert(cur0.subrange(0, 0) =~= Seq::<TrackingData>::empty());
            reveal_with_fuel(Seq::<TrackingData>::filter, 1);
        }
        while cur.len() > 0
            invariant
                f.wf(),
                cur@.len() <= cur0.len(),
                cur0 == pool.filter(prefix_pred),
                forall|i: int| 0 <= i < pool.len() ==> obj_bounded(#[trigger] pool[i]),
                cur@ =~= cur0.subrange(cur0.len() - cur@.len(), cur0.len() as int),
                kept@ == cur0.subrange(0, cur0.len() - cur@.len()).filter(
                    |o: TrackingData| f.accepts(o),
                ),
            decreases cur@.len(),
        {
            let ghost idx = cur0.len() - cur@.len();
            let o = cur.remove(0);
            proof {
                assert(o == cur0[idx]);
                assert(cur@ =~= cur0.subrange(idx + 1, cur0.len() as int));
                lemma_filter_sub(pool, prefix_pred);
                assert(pool.contains(cur0[idx]));
                let wit = choose|w: int| 0 <= w < pool.len() && pool[w] == cur0[idx];
                assert(obj_bounded(o));
            }
            let keep = f.run(&o);
            proof {
                let fp = |x: TrackingData| f.accepts(x);
                let s1 = cur0.subrange(0, idx + 1);
                reveal_with_fuel(Seq::<TrackingData>::filter, 2);
                assert(s1.drop_last() =~= cur0.subrange(0, idx));
                assert(s1.last() == o);
                assert(s1.filter(fp) == if fp(o) {
                    cur0.subrange(0, idx).filter(fp).push(o)
                } else {
                    cur0.subrange(0, idx).filter(fp)
                });
            }
            if keep {
                kept.push(o);
            }
        }
        proof {
            assert(cur0.subrange(0, cur0.len() as int) =~= cur0);
        }
        cur = kept;
        fi = fi + 1;
        proof {
            let fp = |x: TrackingData| f.accepts(x);
            let next_pred = |o: TrackingData| chain_accepts(filters@.subrange(0, fi as int), o);
            assert forall|o: TrackingData| #[trigger] next_pred(o) == (prefix_pred(o) && fp(o)) by {
                let pre = filters@.subrange(0, fi - 1);
                let nxt = filters@.subrange(0, fi as int);
                assert(nxt.drop_last() =~= pre);
                assert(nxt.last() == f);
                if prefix_pred(o) && fp(o) {
                    assert forall|k: int| 0 <= k < nxt.len() implies (
                    #[trigger] nxt[k]).accepts(o) by {
                        if k < nxt.len() - 1 {
                            assert(nxt[k] == pre[k]);
                        } else {
                            assert(nxt[k] == f);
                        }
                    }
                }
                if next_pred(o) {
                    assert forall|k: int| 0 <= k < pre.len() implies (
                    #[trigger] pre[k]).accepts(o) by {
                        assert(pre[k] == nxt[k]);
                    }
                    assert(nxt[nxt.len() - 1] == f);
                }
            }
            lemma_filter_filter(pool, prefix_pred, fp, next_pred);
        }
    }
    proof {
        let full = |o: TrackingData| chain_accepts(filters@, o);
        let pred_end = |o: TrackingData| chain_accepts(filters@.subrange(0, fi as int), o);
        assert(filters@.subrange(0, fi as int) =~= filters@);
        assert forall|o: TrackingData| #[trigger] pred_end(o) == full(o) by {
            assert(filters@.subrange(0, fi as int) == filters@);
        }
        lemma_filter_ext(pool, pred_end, full);
        lemma_filter_sub(pool, full);
    }
    cur
}

/// Every element of a filtered sequence occurs in the sequence it was
/// filtered from.
proof fn lemma_filter_sub(s: Seq<TrackingData>, p: spec_fn(TrackingData) -> bool)
    ensures
        forall|i: int| 0 <= i < s.filter(p).len() ==> s.contains(#[trigger] s.filter(p)[i]),
    decreases s.len(),
{
    reveal_with_fuel(Seq::<TrackingData>::filter, 2);
    if s.len() > 0 {
        let rest = s.drop_last();
        let restf = rest.filter(p);
        lemma_filter_sub(rest, p);
        assert forall|i: int| 0 <= i < s.filter(p).len() implies s.contains(
            #[trigger] s.filter(p)[i],
        ) by {
            if i < restf.len() {
                assert(s.filter(p)[i] == restf[i]);
                assert(rest.contains(restf[i]));
                let j = choose|j: int| 0 <= j < rest.len() && rest[j] == restf[i];
                assert(s[j] == restf[i]);
            } else {
                assert(s.filter(p)[i] == s.last());
                assert(s[s.len() - 1] == s.last());
            }
        }
    }
}

/// Filtering by a predicate that accepts everything keeps everything.
proof fn lemma_filter_trivial(s: Seq<TrackingData>, p: spec_fn(TrackingData) -> bool)
    requires
        forall|x: TrackingData| #[trigger] p(x),
    ensures
        s.filter(p) == s,
    decreases s.len(),
{
    reveal_with_fuel(Seq::<TrackingData>::filter, 2);
    if s.len() == 0 {
        assert(s.filter(p) =~= s);
    } else {
        lemma_filter_trivial(s.drop_last(), p);
        assert(p(s.last()));
        assert(s.drop_last().push(s.last()) =~= s);
    }
}

} // verus!

use vstd::prelude::*;

use crate::tracker::{
    after_set, child_view, emits, root_view, LogView, EMIT_INTERVAL_NANOS,
};

verus! {

/// The state after each call `(step, now)` of `calls` sets `step` at `now`, in order.
pub open spec fn after_sets(v: LogView, calls: Seq<(usize, u64)>) -> LogView
    decreases calls.len(),
{
    if calls.len() == 0 {
        v
    } else {
        after_set(after_sets(v, calls.drop_last()), calls.last().0, calls.last().1)
    }
}

/// Whether call `i` of `calls`, made on a tracker that started in state `v`,
/// emits a step line.
pub open spec fn emits_at(v: LogView, calls: Seq<(usize, u64)>, i: int) -> bool {
    emits(after_sets(v, calls.take(i)), calls[i].1)
}

proof fn lemma_burst_prefix(v: LogView, calls: Seq<(usize, u64)>, k: int)
    requires
        1 <= k <= calls.len(),
        emits(v, calls[0].1),
        forall|i: int|
            0 <= i < calls.len() ==> calls[0].1 <= #[trigger] calls[i].1 <= calls[0].1
                + EMIT_INTERVAL_NANOS,
    ensures
        after_sets(v, calls.take(k)) == (LogView {
            step: calls[k - 1].0,
            last_emit: Some(calls[0].1),
            ..v
        }),
    decreases k,
{
    assert(calls.take(k).drop_last() =~= calls.take(k - 1));
    if k > 1 {
        lemma_burst_prefix(v, calls, k - 1);
    } else {
        assert(calls.take(0) =~= Seq::<(usize, u64)>::empty());
    }
}

/// Throttle: when a burst of set calls all fall within the emission interval of
/// the burst's first call, and that first call emits, then exactly the first
/// call emits. A further call made more than the interval after the first one
/// emits again.
pub proof fn throttle_burst(v: LogView, calls: Seq<(usize, u64)>, next_now: u64)
    requires
        calls.len() > 0,
        emits(v, calls[0].1),
        forall|i: int|
            0 <= i < calls.len() ==> calls[0].1 <= #[trigger] calls[i].1 <= calls[0].1
                + EMIT_INTERVAL_NANOS,
        next_now > calls[0].1 + EMIT_INTERVAL_NANOS,
    ensures
        forall|i: int| 0 <= i < calls.len() ==> (#[trigger] emits_at(v, calls, i) <==> i == 0),
        after_sets(v, calls).last_emit == Some(calls[0].1),
        emits(after_sets(v, calls), next_now),
{
    assert forall|i: int| 0 <= i < calls.len() implies (#[trigger] emits_at(v, calls, i) <==> i
        == 0) by {
        if i == 0 {
            assert(calls.take(0) =~= Seq::<(usize, u64)>::empty());
        } else {
            lemma_burst_prefix(v, calls, i);
            assert(calls[0].1 <= calls[i].1 <= calls[0].1 + EMIT_INTERVAL_NANOS);
        }
    }
    lemma_burst_prefix(v, calls, calls.len() as int);
    assert(calls.take(calls.len() as int) =~= calls);
}

/// The very first step set on a fresh root tracker emits, whatever the time.
pub proof fn first_set_emits(name: Seq<char>, max_depth: Option<usize>, step: usize, now: u64)
    ensures
        emits(root_view(name, max_depth), now),
        after_set(root_view(name, max_depth), step, now).last_emit == Some(now),
{
}

/// Advancing by `d` right after setting `s` records `s + d`, and emits under the
/// same rule as setting `s + d` directly.
pub proof fn inc_after_set(v: LogView, s: usize, d: usize, first: u64, now: u64)
    requires
        s + d <= usize::MAX,
    ensures
        ({
            let w = after_set(v, s, first);
            &&& w.step == s
            &&& after_set(w, (w.step + d) as usize, now).step == s + d
            &&& after_set(w, (w.step + d) as usize, now) == after_set(w, (s + d) as usize, now)
        }),
{
}

/// A tracker nested deeper than its maximum depth never emits a step line, and
/// still records each step set on it.
pub proof fn gated_never_emits(v: LogView, calls: Seq<(usize, u64)>)
    requires
        v.depth > v.max_depth,
    ensures
        forall|i: int| 0 <= i < calls.len() ==> !#[trigger] emits_at(v, calls, i),
        calls.len() > 0 ==> after_sets(v, calls) == (LogView { step: calls.last().0, ..v }),
        calls.len() == 0 ==> after_sets(v, calls) == v,
    decreases calls.len(),
{
    if calls.len() > 0 {
        gated_never_emits(v, calls.drop_last());
        assert forall|i: int| 0 <= i < calls.len() implies !#[trigger] emits_at(v, calls, i) by {
            if i < calls.len() - 1 {
                assert(calls.take(i) =~= calls.drop_last().take(i));
                assert(emits_at(v, calls.drop_last(), i) == emits_at(v, calls, i));
            } else {
                assert(calls.take(i) =~= calls.drop_last());
            }
        }
    }
}

/// With a maximum depth of one, a root and its direct child emit on their first
/// step, and a grandchild never emits on any sequence of steps, though it records
/// each of them.
pub proof fn depth_limit_one(
    name: Seq<char>,
    child: Seq<char>,
    grandchild: Seq<char>,
    now: u64,
    calls: Seq<(usize, u64)>,
)
    ensures
        ({
            let root = root_view(name, Some(1));
            let c = child_view(root, child);
            let g = child_view(c, grandchild);
            &&& emits(root, now)
            &&& emits(c, now)
            &&& g.depth == 2
            &&& forall|i: int| 0 <= i < calls.len() ==> !#[trigger] emits_at(g, calls, i)
            &&& calls.len() > 0 ==> after_sets(g, calls).step == calls.last().0
        }),
{
    let root = root_view(name, Some(1));
    let c = child_view(root, child);
    let g = child_view(c, grandchild);
    gated_never_emits(g, calls);
}

} // verus!

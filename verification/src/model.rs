//! A ledger model of the labeled instruments. An instrument is a map from
//! a label set to a reading; recording is applying a delta to one label
//! set. The lemmas here state the accounting laws of the middleware: what
//! any schedule of request events does to the in-flight gauge, and that
//! distinct status codes bump distinct series.

use vstd::prelude::*;
use crate::labels::CompletionLabels;
use crate::text::spec_udec;
use crate::text::lemma_udec_injective;

verus! {

/// The identity of one labeled series of a completion instrument.
pub type SeriesKey = (Seq<char>, Seq<char>, Seq<char>, Seq<char>, Seq<char>);

/// The reading of an instrument for one label set: 0 before the first
/// recording, as a gauge scrape reports it.
pub open spec fn reading<K>(m: Map<K, int>, k: K) -> int {
    if m.dom().contains(k) {
        m[k]
    } else {
        0
    }
}

/// One recording: the reading of one label set moves by a delta.
pub open spec fn apply_delta<K>(m: Map<K, int>, k: K, d: int) -> Map<K, int> {
    m.insert(k, reading(m, k) + d)
}

/// A schedule of recordings, applied in order.
pub open spec fn apply_deltas<K>(m: Map<K, int>, es: Seq<(K, int)>) -> Map<K, int>
    decreases es.len(),
{
    if es.len() == 0 {
        m
    } else {
        apply_deltas(apply_delta(m, es[0].0, es[0].1), es.drop_first())
    }
}

/// The net change a schedule makes to one label set.
pub open spec fn net_change<K>(es: Seq<(K, int)>, k: K) -> int
    decreases es.len(),
{
    if es.len() == 0 {
        0
    } else {
        (if es[0].0 == k {
            es[0].1
        } else {
            0
        }) + net_change(es.drop_first(), k)
    }
}

/// After any schedule, each label set reads its old value plus the net
/// change of the schedule for it.
pub proof fn lemma_reading_after_schedule<K>(m: Map<K, int>, es: Seq<(K, int)>, k: K)
    ensures
        reading(apply_deltas(m, es), k) == reading(m, k) + net_change(es, k),
    decreases es.len(),
{
    if es.len() > 0 {
        lemma_reading_after_schedule(apply_delta(m, es[0].0, es[0].1), es.drop_first(), k);
    }
}

/// The net change of one schedule after another is the sum of the two.
pub proof fn lemma_net_change_concat<K>(es1: Seq<(K, int)>, es2: Seq<(K, int)>, k: K)
    ensures
        net_change(es1 + es2, k) == net_change(es1, k) + net_change(es2, k),
    decreases es1.len(),
{
    if es1.len() == 0 {
        assert(es1 + es2 =~= es2);
    } else {
        assert((es1 + es2).drop_first() =~= es1.drop_first() + es2);
        lemma_net_change_concat(es1.drop_first(), es2, k);
    }
}

/// The two gauge events of one request: an increment with its label set
/// at arrival, and a decrement with the same label set at completion.
pub open spec fn lifecycle_events<K>(k: K) -> Seq<(K, int)> {
    seq![(k, 1int), (k, -1int)]
}

/// One request's lifecycle nets zero at every label set.
pub proof fn lemma_lifecycle_nets_zero<K>(k: K, j: K)
    ensures
        net_change(lifecycle_events(k), j) == 0,
{
    let es = lifecycle_events(k);
    assert(es[0] == (k, 1int));
    assert(es.drop_first() =~= seq![(k, -1int)]);
    assert(es.drop_first()[0] == (k, -1int));
    assert(es.drop_first().drop_first() =~= Seq::<(K, int)>::empty());
    assert(net_change(es.drop_first().drop_first(), j) == 0);
    assert(net_change(es.drop_first(), j) == (if k == j { -1int } else { 0 }));
}

/// The in-flight gauge is balanced: any schedule of request events in
/// which increments and decrements cancel per label set — as they do when
/// every request decrements with the labels of its own increment, on
/// every exit path — leaves every gauge reading as it was.
pub proof fn lemma_balanced_schedule_preserves_readings<K>(m: Map<K, int>, es: Seq<(K, int)>)
    requires
        forall|k: K| net_change(es, k) == 0,
    ensures
        forall|k: K| reading(#[trigger] apply_deltas(m, es), k) == reading(m, k),
{
    assert forall|k: K| reading(#[trigger] apply_deltas(m, es), k) == reading(m, k) by {
        lemma_reading_after_schedule(m, es, k);
    }
}

proof fn lemma_net_change_remove<K>(es: Seq<(K, int)>, i: int, k: K)
    requires
        0 <= i < es.len(),
    ensures
        net_change(es, k) == net_change(es.remove(i), k) + (if es[i].0 == k {
            es[i].1
        } else {
            0
        }),
{
    let pre = es.subrange(0, i);
    let mid = seq![es[i]];
    let post = es.subrange(i + 1, es.len() as int);
    assert(es =~= pre + (mid + post));
    assert(es.remove(i) =~= pre + post);
    lemma_net_change_concat(pre, mid + post, k);
    lemma_net_change_concat(mid, post, k);
    lemma_net_change_concat(pre, post, k);
    assert(mid[0] == es[i]);
    assert(mid.drop_first() =~= Seq::<(K, int)>::empty());
    assert(net_change(mid.drop_first(), k) == 0);
    assert(net_change(mid, k) == (if es[i].0 == k {
        es[i].1
    } else {
        0
    }));
}

/// The net change of a schedule depends only on which events occur, not on
/// their order: two schedules with the same multiset of events change
/// every label set alike.
pub proof fn lemma_net_change_permutation<K>(es1: Seq<(K, int)>, es2: Seq<(K, int)>, k: K)
    requires
        es1.to_multiset() == es2.to_multiset(),
    ensures
        net_change(es1, k) == net_change(es2, k),
    decreases es1.len(),
{
    broadcast use vstd::seq_lib::group_to_multiset_ensures;

    if es1.len() == 0 {
        assert(es2.to_multiset().len() == 0);
        assert(es2.len() == 0);
    } else {
        let e = es1[0];
        assert(es1.contains(e));
        assert(es2.to_multiset().count(e) > 0);
        assert(es2.contains(e));
        let i = choose|i: int| 0 <= i < es2.len() && es2[i] == e;
        assert(es1.remove(0).to_multiset() =~= es1.to_multiset().remove(e));
        assert(es2.remove(i).to_multiset() =~= es2.to_multiset().remove(e));
        lemma_net_change_permutation(es1.remove(0), es2.remove(i), k);
        lemma_net_change_remove(es1, 0, k);
        lemma_net_change_remove(es2, i, k);
    }
}

/// The lifecycle events of a sequence of requests, one increment and one
/// decrement per request, in arrival order.
pub open spec fn all_lifecycle_events<K>(ks: Seq<K>) -> Seq<(K, int)>
    decreases ks.len(),
{
    if ks.len() == 0 {
        Seq::empty()
    } else {
        lifecycle_events(ks[0]) + all_lifecycle_events(ks.drop_first())
    }
}

proof fn lemma_all_lifecycle_nets_zero<K>(ks: Seq<K>, k: K)
    ensures
        net_change(all_lifecycle_events(ks), k) == 0,
    decreases ks.len(),
{
    if ks.len() > 0 {
        lemma_net_change_concat(lifecycle_events(ks[0]), all_lifecycle_events(ks.drop_first()), k);
        lemma_lifecycle_nets_zero(ks[0], k);
        lemma_all_lifecycle_nets_zero(ks.drop_first(), k);
    }
}

/// Concurrent requests leave the gauge where it was: any schedule that is
/// a rearrangement of the increment/decrement pairs of a sequence of
/// requests — that is, any interleaving of their lifecycles, however the
/// scheduler ordered the arrivals and completions — leaves every reading
/// of the in-flight gauge unchanged.
pub proof fn lemma_concurrent_requests_net_zero<K>(
    m: Map<K, int>,
    ks: Seq<K>,
    es: Seq<(K, int)>,
)
    requires
        es.to_multiset() == all_lifecycle_events(ks).to_multiset(),
    ensures
        forall|k: K| reading(#[trigger] apply_deltas(m, es), k) == reading(m, k),
{
    assert forall|k: K| reading(#[trigger] apply_deltas(m, es), k) == reading(m, k) by {
        lemma_net_change_permutation(es, all_lifecycle_events(ks), k);
        lemma_all_lifecycle_nets_zero(ks, k);
        lemma_reading_after_schedule(m, es, k);
    }
}

/// Two completions of the same route whose status codes differ bump two
/// distinct labeled series, each to a count of one when neither series
/// existed before.
pub proof fn lemma_distinct_status_series(
    m: Map<SeriesKey, int>,
    a: CompletionLabels,
    b: CompletionLabels,
    n1: u16,
    n2: u16,
)
    requires
        n1 != n2,
        a.status@ == spec_udec(n1 as int),
        b.status@ == spec_udec(n2 as int),
        a.method@ == b.method@,
        a.route@ == b.route@,
        a.scheme@ == b.scheme@,
        a.host@ == b.host@,
        !m.dom().contains(a.view_tuple()),
        !m.dom().contains(b.view_tuple()),
    ensures
        a.view_tuple() != b.view_tuple(),
        reading(
            apply_delta(apply_delta(m, a.view_tuple(), 1), b.view_tuple(), 1),
            a.view_tuple(),
        ) == 1,
        reading(
            apply_delta(apply_delta(m, a.view_tuple(), 1), b.view_tuple(), 1),
            b.view_tuple(),
        ) == 1,
{
    if a.view_tuple() == b.view_tuple() {
        assert(a.status@ == b.status@);
        lemma_udec_injective(n1 as int, n2 as int);
    }
}

} // verus!

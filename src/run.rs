use vstd::prelude::*;
use vstd::multiset::{group_multiset_axioms, Multiset};
use vstd::seq_lib::{group_to_multiset_ensures, lemma_multiset_commutative};

use crate::outcome::{DownloadFailure, SyncError};
use crate::source::Tour;
use crate::sync::{SchedulerView, SyncAction};

verus! {

/// A whole run against a source whose pages are `pages` (every response
/// reporting `pages.len()` pages, no listing failing) and whose units each
/// settle with `result_of` of their tour's id. Alongside the scheduler stands
/// the outcome each unit in flight will settle with.
pub ghost struct RunState {
    pub sched: SchedulerView,
    pub in_flight: Seq<Result<u32, SyncError>>,
}

/// The tours of the first `n` pages, in listing order.
pub open spec fn listed(pages: Seq<Seq<Tour>>, n: nat) -> Seq<Tour>
    decreases n,
{
    if n == 0 || n > pages.len() {
        Seq::empty()
    } else {
        listed(pages, (n - 1) as nat) + pages[n - 1]
    }
}

/// The outcomes the given tours settle with.
pub open spec fn expected(
    result_of: spec_fn(u32) -> Result<u32, SyncError>,
    tours: Seq<Tour>,
) -> Seq<Result<u32, SyncError>> {
    tours.map_values(|t: Tour| result_of(t.id))
}

pub open spec fn run_start(cap: nat) -> RunState {
    RunState { sched: SchedulerView::start(cap), in_flight: Seq::empty() }
}

/// One step of a run, in any order the environment chooses: the scheduler
/// issues its next action; the page in flight arrives; or any unit in flight
/// settles.
pub open spec fn run_step(
    pages: Seq<Seq<Tour>>,
    result_of: spec_fn(u32) -> Result<u32, SyncError>,
    w: RunState,
    v: RunState,
) -> bool {
    let (s2, a) = w.sched.next_action();
    ||| {
        &&& v.sched == s2
        &&& v.in_flight == match a {
            SyncAction::Start(t) => w.in_flight.push(result_of(t.id)),
            _ => w.in_flight,
        }
    }
    ||| {
        &&& w.sched.fetching
        &&& w.sched.cursor.next < pages.len()
        &&& v.sched == w.sched.on_page(pages[w.sched.cursor.next as int], pages.len())
        &&& v.in_flight == w.in_flight
    }
    ||| exists|i: int|
        0 <= i < w.in_flight.len() && v.sched == w.sched.on_unit_done(w.in_flight[i])
            && v.in_flight == w.in_flight.remove(i)
}

/// What holds throughout a run: every tour listed so far is accounted for
/// exactly once, as a collected outcome, a unit in flight, or a tour waiting.
pub open spec fn run_inv(
    pages: Seq<Seq<Tour>>,
    result_of: spec_fn(u32) -> Result<u32, SyncError>,
    w: RunState,
) -> bool {
    let s = w.sched;
    &&& s.wf()
    &&& !s.cursor.stopped
    &&& s.cursor.total is None || s.cursor.total == Some(pages.len())
    &&& s.cursor.next <= pages.len()
    &&& w.in_flight.len() == s.active
    &&& s.outcomes.to_multiset().add(w.in_flight.to_multiset()).add(
        expected(result_of, s.pending).to_multiset(),
    ) == expected(result_of, listed(pages, s.cursor.next)).to_multiset()
}

proof fn lemma_expected_concat(
    result_of: spec_fn(u32) -> Result<u32, SyncError>,
    a: Seq<Tour>,
    b: Seq<Tour>,
)
    ensures
        expected(result_of, a + b).to_multiset() == expected(result_of, a).to_multiset().add(
            expected(result_of, b).to_multiset(),
        ),
{
    assert(expected(result_of, a + b) =~= expected(result_of, a) + expected(result_of, b));
    lemma_multiset_commutative(expected(result_of, a), expected(result_of, b));
}

/// Every step of a run keeps the accounting.
pub proof fn lemma_run_step_keeps_inv(
    pages: Seq<Seq<Tour>>,
    result_of: spec_fn(u32) -> Result<u32, SyncError>,
    w: RunState,
    v: RunState,
)
    requires
        1 <= pages.len() <= u16::MAX,
        run_inv(pages, result_of, w),
        run_step(pages, result_of, w, v),
    ensures
        run_inv(pages, result_of, v),
{
    broadcast use group_multiset_axioms, group_to_multiset_ensures;

    let s = w.sched;
    let (s2, a) = s.next_action();
    let o = s.outcomes.to_multiset();
    let f = w.in_flight.to_multiset();
    let p = expected(result_of, s.pending).to_multiset();
    if v.sched == s2 && v.in_flight == match a {
        SyncAction::Start(t) => w.in_flight.push(result_of(t.id)),
        _ => w.in_flight,
    } {
        if a is Start {
            let t = s.pending[0];
            assert(s.pending =~= seq![t] + s.pending.drop_first());
            lemma_expected_concat(result_of, seq![t], s.pending.drop_first());
            assert(expected(result_of, seq![t]) =~= seq![result_of(t.id)]);
            assert(seq![result_of(t.id)] =~= Seq::<Result<u32, SyncError>>::empty().push(
                result_of(t.id),
            ));
            assert(o.add(v.in_flight.to_multiset()).add(
                expected(result_of, s2.pending).to_multiset(),
            ) =~= o.add(f).add(p));
        }
    } else if s.fetching && s.cursor.next < pages.len() && v.sched == s.on_page(
        pages[s.cursor.next as int],
        pages.len(),
    ) && v.in_flight == w.in_flight {
        let k = s.cursor.next;
        assert(listed(pages, k + 1) == listed(pages, k) + pages[k as int]);
        lemma_expected_concat(result_of, listed(pages, k), pages[k as int]);
        lemma_expected_concat(result_of, s.pending, pages[k as int]);
        assert(o.add(f).add(expected(result_of, v.sched.pending).to_multiset()) =~= o.add(f).add(
            p,
        ).add(expected(result_of, pages[k as int]).to_multiset()));
    } else {
        let i = choose|i: int|
            0 <= i < w.in_flight.len() && v.sched == s.on_unit_done(w.in_flight[i])
                && v.in_flight == w.in_flight.remove(i);
        let x = w.in_flight[i];
        assert(f.count(x) > 0);
        assert(s.outcomes.push(x).to_multiset().add(w.in_flight.remove(i).to_multiset()).add(p)
            =~= o.add(f).add(p));
    }
}

/// A run starts out accounted for.
pub proof fn lemma_run_start_inv(
    pages: Seq<Seq<Tour>>,
    result_of: spec_fn(u32) -> Result<u32, SyncError>,
    cap: nat,
)
    requires
        1 <= cap <= u8::MAX,
    ensures
        run_inv(pages, result_of, run_start(cap)),
{
    broadcast use group_multiset_axioms, group_to_multiset_ensures;

    let w = run_start(cap);
    let none = Seq::<Result<u32, SyncError>>::empty();
    assert(listed(pages, 0) =~= Seq::<Tour>::empty());
    assert(expected(result_of, Seq::<Tour>::empty()) =~= none);
    assert(none.to_multiset().len() == 0);
    assert(none.to_multiset() =~= Multiset::empty());
    assert(w.sched.outcomes =~= none);
    assert(w.sched.pending =~= Seq::<Tour>::empty());
    assert(Multiset::<Result<u32, SyncError>>::empty().add(Multiset::empty()).add(Multiset::empty())
        =~= Multiset::empty());
}

/// When a run that kept the accounting finishes, the outcomes collected are
/// exactly one per tour of every page, each the outcome its unit settled
/// with, whatever order pages arrived and units were issued and settled in.
pub proof fn lemma_run_finish_collects_every_tour(
    pages: Seq<Seq<Tour>>,
    result_of: spec_fn(u32) -> Result<u32, SyncError>,
    w: RunState,
)
    requires
        1 <= pages.len() <= u16::MAX,
        run_inv(pages, result_of, w),
        w.sched.next_action().1 is Finish,
    ensures
        w.sched.outcomes.to_multiset() == expected(
            result_of,
            listed(pages, pages.len()),
        ).to_multiset(),
        w.sched.outcomes.len() == listed(pages, pages.len()).len(),
{
    broadcast use group_multiset_axioms, group_to_multiset_ensures;

    let s = w.sched;
    assert(w.in_flight =~= Seq::<Result<u32, SyncError>>::empty());
    assert(s.pending.len() == 0);
    assert(expected(result_of, s.pending) =~= Seq::<Result<u32, SyncError>>::empty());
    assert(s.outcomes.to_multiset().add(Multiset::empty()).add(Multiset::empty())
        =~= s.outcomes.to_multiset());
    assert(s.outcomes.len() == s.outcomes.to_multiset().len());
    assert(expected(result_of, listed(pages, pages.len())).to_multiset().len() == expected(
        result_of,
        listed(pages, pages.len()),
    ).len());
}

} // verus!

verus! {

/// The ids of the given tours.
pub open spec fn tour_ids(tours: Seq<Tour>) -> Seq<u32> {
    tours.map_values(|t: Tour| t.id)
}

/// A finished run in which every unit succeeds holds only successes, one per
/// tour of every page: as many outcomes as tours, and the ids returned are
/// the tours' ids, whichever page was issued first.
pub proof fn lemma_all_succeed(pages: Seq<Seq<Tour>>, w: RunState)
    requires
        1 <= pages.len() <= u16::MAX,
        run_inv(pages, |id: u32| Ok::<u32, SyncError>(id), w),
        w.sched.next_action().1 is Finish,
    ensures
        w.sched.outcomes.len() == listed(pages, pages.len()).len(),
        forall|i: int| 0 <= i < w.sched.outcomes.len() ==> w.sched.outcomes[i] is Ok,
        w.sched.outcomes.map_values(|o: Result<u32, SyncError>| o->Ok_0).to_multiset()
            == tour_ids(listed(pages, pages.len())).to_multiset(),
{
    broadcast use group_multiset_axioms, group_to_multiset_ensures;

    let ok = |id: u32| Ok::<u32, SyncError>(id);
    let all = listed(pages, pages.len());
    let outs = w.sched.outcomes;
    lemma_run_finish_collects_every_tour(pages, ok, w);
    let e = expected(ok, all);
    assert forall|i: int| 0 <= i < outs.len() implies outs[i] is Ok by {
        assert(outs.contains(outs[i]));
        assert(outs.to_multiset().count(outs[i]) > 0);
        assert(e.contains(outs[i]));
    }
    let unwrap = |o: Result<u32, SyncError>| o->Ok_0;
    assert(e.map_values(unwrap) =~= tour_ids(all));
    lemma_map_to_multiset(outs, e, unwrap);
}

/// Equal multisets stay equal under the same map.
proof fn lemma_map_to_multiset<A, B>(a: Seq<A>, b: Seq<A>, f: spec_fn(A) -> B)
    requires
        a.to_multiset() == b.to_multiset(),
    ensures
        a.map_values(f).to_multiset() == b.map_values(f).to_multiset(),
    decreases a.len(),
{
    broadcast use group_multiset_axioms, group_to_multiset_ensures;

    if a.len() == 0 {
        assert(a.to_multiset().len() == a.len());
        assert(b.to_multiset().len() == b.len());
        assert(b.len() == 0);
        assert(a.map_values(f) =~= b.map_values(f));
    } else {
        let x = a.last();
        let a1 = a.drop_last();
        assert(a =~= a1.push(x));
        assert(b.to_multiset().count(x) > 0);
        assert(b.contains(x));
        let j = choose|j: int| 0 <= j < b.len() && b[j] == x;
        let b1 = b.remove(j);
        assert(a1.to_multiset() =~= b1.to_multiset());
        lemma_map_to_multiset(a1, b1, f);
        assert(a.map_values(f) =~= a1.map_values(f).push(f(x)));
        assert(b1.map_values(f) =~= b.map_values(f).remove(j));
    }
}

} // verus!

verus! {

/// The outcome of every unit when only the tour `d` fails, at its download.
pub open spec fn one_download_fails(d: u32, failure: DownloadFailure) -> spec_fn(u32) -> Result<
    u32,
    SyncError,
> {
    |id: u32|
        if id == d {
            Err(SyncError::Download { tour_id: d, failure })
        } else {
            Ok(id)
        }
}

/// With distinct tour ids, a finished run in which only the unit of tour `d`
/// fails, at its download, holds one outcome per tour: that download error
/// is the only failure and occurs once, and every other tour succeeds
/// exactly once. The failure cancels no other unit and no page.
pub proof fn lemma_failed_download_isolated_in_run(
    pages: Seq<Seq<Tour>>,
    d: u32,
    failure: DownloadFailure,
    w: RunState,
)
    requires
        1 <= pages.len() <= u16::MAX,
        tour_ids(listed(pages, pages.len())).no_duplicates(),
        run_inv(pages, one_download_fails(d, failure), w),
        w.sched.next_action().1 is Finish,
    ensures
        w.sched.outcomes.len() == listed(pages, pages.len()).len(),
        forall|i: int|
            0 <= i < w.sched.outcomes.len() && w.sched.outcomes[i] is Err ==> w.sched.outcomes[i]
                == Err::<u32, SyncError>(SyncError::Download { tour_id: d, failure }),
        tour_ids(listed(pages, pages.len())).contains(d) ==> w.sched.outcomes.to_multiset().count(
            Err(SyncError::Download { tour_id: d, failure }),
        ) == 1,
        forall|t: u32|
            tour_ids(listed(pages, pages.len())).contains(t) && t != d
                ==> w.sched.outcomes.to_multiset().count(Ok(t)) == 1,
{
    broadcast use group_multiset_axioms, group_to_multiset_ensures;

    let r = one_download_fails(d, failure);
    let all = listed(pages, pages.len());
    let ids = tour_ids(all);
    let outs = w.sched.outcomes;
    let e = expected(r, all);
    lemma_run_finish_collects_every_tour(pages, r, w);
    assert(e.no_duplicates()) by {
        assert forall|i: int, j: int| 0 <= i < e.len() && 0 <= j < e.len() && i != j implies e[i]
            != e[j] by {
            assert(ids[i] != ids[j]);
        }
    }
    e.lemma_multiset_has_no_duplicates();
    assert forall|i: int| 0 <= i < outs.len() && outs[i] is Err implies outs[i] == Err::<
        u32,
        SyncError,
    >(SyncError::Download { tour_id: d, failure }) by {
        assert(outs.contains(outs[i]));
        assert(outs.to_multiset().count(outs[i]) > 0);
        assert(e.contains(outs[i]));
    }
    if ids.contains(d) {
        let k = choose|k: int| 0 <= k < ids.len() && ids[k] == d;
        assert(e[k] == Err::<u32, SyncError>(SyncError::Download { tour_id: d, failure }));
        assert(e.contains(e[k]));
    }
    assert forall|t: u32| ids.contains(t) && t != d implies outs.to_multiset().count(Ok(t))
        == 1 by {
        let k = choose|k: int| 0 <= k < ids.len() && ids[k] == t;
        assert(e[k] == Ok::<u32, SyncError>(t));
        assert(e.contains(e[k]));
    }
}

} // verus!

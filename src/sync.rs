use vstd::prelude::*;
use std::collections::VecDeque;

use crate::outcome::{DownloadFailure, SyncError};
use crate::pages::{CursorView, PageCursor};
use crate::source::Tour;
use crate::transfer::{UnitAction, UnitEvent, UnitView, unit_step};

verus! {

/// Flattens one page result into per-item results: every item of a page as
/// `Ok`, or the page's error as the single item.
pub fn res_to_vec<T, E>(res: Result<Vec<T>, E>) -> (r: Vec<Result<T, E>>)
    ensures
        match res {
            Ok(v) => r@ == v@.map_values(|t: T| Ok::<T, E>(t)),
            Err(e) => r@ == seq![Err::<T, E>(e)],
        },
{
    match res {
        Ok(v) => {
            let ghost vs = v@;
            let mut out: Vec<Result<T, E>> = Vec::new();
            for t in it: v.into_iter()
                invariant
                    it.seq() == vs,
                    out@ == vs.take(it.index() as int).map_values(|t: T| Ok::<T, E>(t)),
            {
                proof {
                    assert(vs.take(it.index() + 1) == vs.take(it.index() as int).push(t));
                }
                out.push(Ok(t));
            }
            proof {
                assert(vs.take(vs.len() as int) == vs);
            }
            out
        },
        Err(e) => vec![Err(e)],
    }
}

} // verus!

verus! {

/// The orchestration of a run: which page to list next, which tour to start,
/// and the outcomes collected so far. Tours run as independent units, at most
/// `cap` at a time; the tours of one page may run beside those of the next.
pub struct SyncScheduler {
    cap: u8,
    cursor: PageCursor,
    fetching: bool,
    pending: VecDeque<Tour>,
    active: u8,
    outcomes: Vec<Result<u32, SyncError>>,
}

pub ghost struct SchedulerView {
    /// The most units in flight at once, and the page size.
    pub cap: nat,
    pub cursor: CursorView,
    /// A page request is in flight.
    pub fetching: bool,
    /// Tours listed and not yet started, in listing order.
    pub pending: Seq<Tour>,
    /// Units started and not yet settled.
    pub active: nat,
    /// One outcome per settled unit, and one per failed page request.
    pub outcomes: Seq<Result<u32, SyncError>>,
}

/// What the run needs done next.
#[derive(Debug)]
pub enum SyncAction {
    /// Request page `page` of `limit` tours.
    FetchPage { page: u16, limit: u8 },
    /// Start a unit that transfers this tour.
    Start(Tour),
    /// Nothing to start: wait for a page or a unit to come back.
    Wait,
    /// Every issued unit has settled and no page remains: the run is over.
    Finish,
}

impl View for SyncScheduler {
    type V = SchedulerView;

    closed spec fn view(&self) -> SchedulerView {
        SchedulerView {
            cap: self.cap as nat,
            cursor: self.cursor@,
            fetching: self.fetching,
            pending: self.pending@,
            active: self.active as nat,
            outcomes: self.outcomes@,
        }
    }
}

impl SchedulerView {
    pub open spec fn wf(self) -> bool {
        &&& 1 <= self.cap <= u8::MAX
        &&& self.active <= self.cap
        &&& self.cursor.wf()
        &&& self.fetching ==> self.cursor.next_page() is Some
        &&& self.fetching ==> self.pending.len() == 0
    }

    pub open spec fn start(cap: nat) -> SchedulerView {
        SchedulerView {
            cap,
            cursor: CursorView::start(),
            fetching: false,
            pending: Seq::empty(),
            active: 0,
            outcomes: Seq::empty(),
        }
    }

    /// The next action, and the state once it is issued.
    pub open spec fn next_action(self) -> (SchedulerView, SyncAction) {
        if self.active < self.cap && self.pending.len() > 0 {
            (
                SchedulerView {
                    pending: self.pending.drop_first(),
                    active: self.active + 1,
                    ..self
                },
                SyncAction::Start(self.pending[0]),
            )
        } else if self.active < self.cap && !self.fetching && self.cursor.next_page() is Some {
            (
                SchedulerView { fetching: true, ..self },
                SyncAction::FetchPage {
                    page: self.cursor.next_page()->0 as u16,
                    limit: self.cap as u8,
                },
            )
        } else if self.active > 0 || self.fetching {
            (self, SyncAction::Wait)
        } else {
            (self, SyncAction::Finish)
        }
    }

    /// The requested page arrived with `tours`, reporting `total` pages.
    pub open spec fn on_page(self, tours: Seq<Tour>, total: nat) -> SchedulerView {
        let (cursor, keep) = self.cursor.on_page(total);
        SchedulerView {
            cursor,
            fetching: false,
            pending: if keep {
                self.pending + tours
            } else {
                self.pending
            },
            ..self
        }
    }

    /// The requested page could not be listed: the error becomes an outcome
    /// and no further page is requested.
    pub open spec fn on_page_error(self, msg: String) -> SchedulerView {
        SchedulerView {
            cursor: CursorView { stopped: true, ..self.cursor },
            fetching: false,
            outcomes: self.outcomes.push(
                Err(SyncError::PageFetch { page: self.cursor.next as u16, msg }),
            ),
            ..self
        }
    }

    /// A unit settled with `outcome`.
    pub open spec fn on_unit_done(self, outcome: Result<u32, SyncError>) -> SchedulerView {
        SchedulerView {
            active: (self.active - 1) as nat,
            outcomes: self.outcomes.push(outcome),
            ..self
        }
    }
}

impl SyncScheduler {
    /// A run that lists pages of `batch_size` tours and keeps at most
    /// `batch_size` units in flight.
    pub fn new(batch_size: u8) -> (s: SyncScheduler)
        requires
            batch_size >= 1,
        ensures
            s@ == SchedulerView::start(batch_size as nat),
            s@.wf(),
    {
        SyncScheduler {
            cap: batch_size,
            cursor: PageCursor::new(),
            fetching: false,
            pending: VecDeque::new(),
            active: 0,
            outcomes: Vec::new(),
        }
    }

    /// Units started and not yet settled.
    pub fn active(&self) -> (r: u8)
        ensures
            r == self@.active,
    {
        self.active
    }

    /// Whether a page request is in flight.
    pub fn is_fetching(&self) -> (r: bool)
        ensures
            r == self@.fetching,
    {
        self.fetching
    }

    /// Decides and issues the next action.
    pub fn next_action(&mut self) -> (a: SyncAction)
        requires
            old(self)@.wf(),
        ensures
            final(self)@.wf(),
            (final(self)@, a) == old(self)@.next_action(),
    {
        if self.active < self.cap && self.pending.len() > 0 {
            match self.pending.pop_front() {
                Some(tour) => {
                    self.active = self.active + 1;
                    SyncAction::Start(tour)
                },
                // ruled out: the queue was just seen to be non-empty
                None => SyncAction::Wait,
            }
        } else if self.active < self.cap && !self.fetching {
            match self.cursor.next_page() {
                Some(page) => {
                    self.fetching = true;
                    SyncAction::FetchPage { page, limit: self.cap }
                },
                None => if self.active > 0 {
                    SyncAction::Wait
                } else {
                    SyncAction::Finish
                },
            }
        } else if self.active > 0 || self.fetching {
            SyncAction::Wait
        } else {
            SyncAction::Finish
        }
    }

    /// Takes in the page that was requested: its tours and the total page
    /// count it reports.
    pub fn on_page(&mut self, tours: Vec<Tour>, total: u16)
        requires
            old(self)@.wf(),
            old(self)@.fetching,
        ensures
            final(self)@.wf(),
            final(self)@ == old(self)@.on_page(tours@, total as nat),
    {
        let keep = self.cursor.on_page(total);
        self.fetching = false;
        if keep {
            let ghost mid = self@;
            for t in it: tours.into_iter()
                invariant
                    it.seq() == tours@,
                    self@ == (SchedulerView {
                        pending: mid.pending + tours@.take(it.index() as int),
                        ..mid
                    }),
            {
                proof {
                    assert(tours@.take(it.index() + 1) == tours@.take(it.index() as int).push(t));
                }
                self.pending.push_back(t);
            }
            proof {
                assert(tours@.take(tours@.len() as int) == tours@);
            }
        }
    }

    /// Takes in the failure of the page request that was in flight.
    pub fn on_page_error(&mut self, msg: String)
        requires
            old(self)@.wf(),
            old(self)@.fetching,
        ensures
            final(self)@.wf(),
            final(self)@ == old(self)@.on_page_error(msg),
    {
        let page = self.cursor.position();
        self.cursor.on_error();
        self.fetching = false;
        self.outcomes.push(Err(SyncError::PageFetch { page, msg }));
    }

    /// Takes in the outcome of a unit that settled.
    pub fn on_unit_done(&mut self, outcome: Result<u32, SyncError>)
        requires
            old(self)@.wf(),
            old(self)@.active > 0,
        ensures
            final(self)@.wf(),
            final(self)@ == old(self)@.on_unit_done(outcome),
    {
        self.active = self.active - 1;
        self.outcomes.push(outcome);
    }

    /// The outcomes collected so far.
    pub fn outcomes(&self) -> (r: &Vec<Result<u32, SyncError>>)
        ensures
            r@ == self@.outcomes,
    {
        &self.outcomes
    }

    /// Ends the run, handing over its outcomes.
    pub fn into_outcomes(self) -> (r: Vec<Result<u32, SyncError>>)
        ensures
            r@ == self@.outcomes,
    {
        self.outcomes
    }
}

} // verus!

verus! {

/// No more than `cap` units are ever in flight: a fresh run keeps the bound,
/// every step from a state that keeps it keeps it too, and only starting a
/// unit, which happens below the bound, raises the count.
pub proof fn lemma_in_flight_within_cap(
    cap: nat,
    s: SchedulerView,
    tours: Seq<Tour>,
    total: nat,
    msg: String,
    outcome: Result<u32, SyncError>,
)
    requires
        1 <= cap <= u8::MAX,
        s.wf(),
    ensures
        SchedulerView::start(cap).wf(),
        s.active <= s.cap,
        s.next_action().0.wf(),
        s.next_action().1 is Start ==> s.active < s.cap && s.next_action().0.active == s.active + 1,
        !(s.next_action().1 is Start) ==> s.next_action().0.active == s.active,
        s.fetching && total <= u16::MAX ==> s.on_page(tours, total).wf() && s.on_page(
            tours,
            total,
        ).active == s.active,
        s.fetching ==> s.on_page_error(msg).wf() && s.on_page_error(msg).active == s.active,
        s.active > 0 ==> s.on_unit_done(outcome).wf() && s.on_unit_done(outcome).active
            < s.active,
{
}

/// A unit whose download fails ends at once, with exactly one outcome: the
/// download error of its tour; it takes in nothing after that. Handing the
/// outcome to the scheduler adds just that outcome and frees one slot, and
/// leaves the listed tours, the page sequence and the other units alone.
pub proof fn lemma_download_failure_isolated(
    u: UnitView,
    failure: DownloadFailure,
    v: UnitView,
    a: UnitAction,
    s: SchedulerView,
)
    requires
        u.stage is Downloading,
        unit_step(u, UnitEvent::DownloadFailed(failure), v, a),
        s.wf(),
        s.active > 0,
    ensures
        a == UnitAction::Finish(Err(SyncError::Download { tour_id: u.tour_id, failure })),
        v.stage is Done,
        forall|ev: UnitEvent| !v.accepts(ev),
        ({
            let t = s.on_unit_done(Err(SyncError::Download { tour_id: u.tour_id, failure }));
            &&& t.wf()
            &&& t.outcomes == s.outcomes.push(
                Err(SyncError::Download { tour_id: u.tour_id, failure }),
            )
            &&& t.active == s.active - 1
            &&& t.pending == s.pending
            &&& t.cursor == s.cursor
            &&& t.fetching == s.fetching
        }),
{
}

} // verus!

verus! {

/// After a page request fails the run has nothing left to start.
pub open spec fn halted(s: SchedulerView) -> bool {
    &&& s.wf()
    &&& s.cursor.stopped
    &&& !s.fetching
    &&& s.pending.len() == 0
}

/// Once a page request fails, no page is requested and no unit is started
/// again: the failure leaves no listed tour waiting and stops the cursor,
/// and every later step keeps it so, while units in flight still settle.
pub proof fn lemma_page_failure_stops_issuing(
    s: SchedulerView,
    msg: String,
    t: SchedulerView,
    outcome: Result<u32, SyncError>,
)
    requires
        s.wf(),
        s.fetching,
    ensures
        halted(s.on_page_error(msg)),
        s.on_page_error(msg).active == s.active,
        halted(t) ==> !(t.next_action().1 is Start) && !(t.next_action().1 is FetchPage)
            && halted(t.next_action().0),
        halted(t) && t.active > 0 ==> halted(t.on_unit_done(outcome)),
{
}

} // verus!

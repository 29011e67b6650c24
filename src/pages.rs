use vstd::prelude::*;

verus! {

/// Position in the source's paged list of tours.
///
/// The total page count is learned from the first page and kept: later pages
/// may report another total, which is ignored.
pub struct PageCursor {
    next: u16,
    total: Option<u16>,
    stopped: bool,
}

pub ghost struct CursorView {
    /// The index of the page to request next.
    pub next: nat,
    /// The total learned from page 0, once it has arrived.
    pub total: Option<nat>,
    /// A page request failed; nothing more is requested.
    pub stopped: bool,
}

impl CursorView {
    pub open spec fn start() -> CursorView {
        CursorView { next: 0, total: None, stopped: false }
    }

    pub open spec fn wf(self) -> bool {
        &&& self.next <= u16::MAX
        &&& match self.total {
            None => self.next == 0,
            Some(t) => t <= u16::MAX && 1 <= self.next <= if t == 0 { 1 } else { t },
        }
    }

    /// The page to request next, if any.
    pub open spec fn next_page(self) -> Option<nat> {
        if self.stopped {
            None
        } else {
            match self.total {
                None => Some(self.next),
                Some(t) => if self.next < t {
                    Some(self.next)
                } else {
                    None
                },
            }
        }
    }

    /// Takes in the page just requested, whose response reports `reported`
    /// pages in all; the flag says whether that page belongs to the sequence.
    pub open spec fn on_page(self, reported: nat) -> (CursorView, bool) {
        let total = match self.total {
            None => reported,
            Some(t) => t,
        };
        (CursorView { next: self.next + 1, total: Some(total), ..self }, self.next < total)
    }
}

impl View for PageCursor {
    type V = CursorView;

    closed spec fn view(&self) -> CursorView {
        CursorView {
            next: self.next as nat,
            total: match self.total {
                None => None,
                Some(t) => Some(t as nat),
            },
            stopped: self.stopped,
        }
    }
}

impl PageCursor {
    pub fn new() -> (c: PageCursor)
        ensures
            c@ == CursorView::start(),
            c@.wf(),
    {
        PageCursor { next: 0, total: None, stopped: false }
    }

    /// The page to request next, or `None` once the sequence has ended.
    pub fn next_page(&self) -> (r: Option<u16>)
        ensures
            r matches Some(k) ==> self@.next_page() == Some(k as nat),
            r is None ==> self@.next_page() is None,
    {
        if self.stopped {
            None
        } else {
            match self.total {
                None => Some(self.next),
                Some(t) => if self.next < t {
                    Some(self.next)
                } else {
                    None
                },
            }
        }
    }

    /// Records the arrival of the requested page; returns whether its tours
    /// belong to the sequence (page 0 of an empty list does not).
    pub fn on_page(&mut self, reported_total: u16) -> (keep: bool)
        requires
            old(self)@.wf(),
            old(self)@.next_page() is Some,
        ensures
            final(self)@.wf(),
            (final(self)@, keep) == old(self)@.on_page(reported_total as nat),
    {
        let total = match self.total {
            None => reported_total,
            Some(t) => t,
        };
        let keep = self.next < total;
        self.next = self.next + 1;
        self.total = Some(total);
        keep
    }

    /// The index of the page the cursor stands at.
    pub fn position(&self) -> (r: u16)
        ensures
            r == self@.next,
    {
        self.next
    }

    /// Records that a page request failed: the sequence ends here.
    pub fn on_error(&mut self)
        requires
            old(self)@.wf(),
        ensures
            final(self)@.wf(),
            final(self)@ == (CursorView { stopped: true, ..old(self)@ }),
    {
        self.stopped = true;
    }
}

/// Pages through a source that answers the `i`-th request with a response
/// reporting `reports[i]` pages: the pages requested, in order, how many of
/// them belong to the sequence, and where the cursor ends.
pub open spec fn page_run(c: CursorView, reports: Seq<nat>) -> (Seq<nat>, nat, CursorView)
    decreases reports.len(),
{
    if reports.len() == 0 || c.next_page() is None {
        (Seq::empty(), 0, c)
    } else {
        let (c2, keep) = c.on_page(reports[0]);
        let (requested, kept, end) = page_run(c2, reports.drop_first());
        (seq![c.next] + requested, kept + if keep {
            1nat
        } else {
            0nat
        }, end)
    }
}

/// The number of requests a list of `total` pages takes: at least one, since
/// the total is only learned from page 0.
pub open spec fn requests_for(total: nat) -> nat {
    if total == 0 {
        1
    } else {
        total
    }
}

proof fn lemma_run_after_first(c: CursorView, t: nat, reports: Seq<nat>)
    requires
        c.wf(),
        !c.stopped,
        c.total == Some(t),
        reports.len() >= requests_for(t) - c.next,
    ensures
        page_run(c, reports) == (
        Seq::new((requests_for(t) - c.next) as nat, |i: int| (c.next + i) as nat),
        (requests_for(t) - c.next) as nat,
        CursorView { next: requests_for(t), ..c },
        ),
    decreases requests_for(t) - c.next,
{
    let m = requests_for(t);
    if c.next < m {
        let (c2, keep) = c.on_page(reports[0]);
        lemma_run_after_first(c2, t, reports.drop_first());
        assert(seq![c.next] + Seq::new((m - c2.next) as nat, |i: int| (c2.next + i) as nat) =~= Seq::new(
            (m - c.next) as nat,
            |i: int| (c.next + i) as nat,
        ));
    } else {
        assert(Seq::new((m - c.next) as nat, |i: int| (c.next + i) as nat) =~= Seq::<nat>::empty());
    }
}

/// A source whose first page reports `reports[0]` pages is read as exactly
/// that many pages, requested in order from page 0; the totals that later
/// pages report change nothing, and the cursor then stops.
pub proof fn lemma_pages_follow_first_total(reports: Seq<nat>)
    requires
        reports.len() > 0,
        reports[0] <= u16::MAX,
        reports.len() >= requests_for(reports[0]),
    ensures
        page_run(CursorView::start(), reports) == (
        Seq::new(requests_for(reports[0]), |i: int| i as nat),
        reports[0],
        CursorView { next: requests_for(reports[0]), total: Some(reports[0]), stopped: false },
        ),
{
    let t = reports[0];
    let (c1, keep) = CursorView::start().on_page(t);
    lemma_run_after_first(c1, t, reports.drop_first());
    assert(seq![0nat] + Seq::new((requests_for(t) - 1) as nat, |i: int| (1 + i) as nat) =~= Seq::new(
        requests_for(t),
        |i: int| i as nat,
    ));
}

} // verus!

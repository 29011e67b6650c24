use vstd::prelude::*;

use crate::upload::{status_result, UploadError, UploadStatus};

verus! {

/// Drives one accepted upload to a terminal state: each in-progress report
/// earns a delayed retry while the retry budget lasts.
pub struct Poller {
    upload_id: i64,
    max_attempts: u8,
    retries: u8,
}

pub ghost struct PollerView {
    pub upload_id: i64,
    pub max_attempts: nat,
    pub retries: nat,
}

impl PollerView {
    pub open spec fn wf(self) -> bool {
        self.retries <= self.max_attempts <= u8::MAX
    }
}

impl View for Poller {
    type V = PollerView;

    closed spec fn view(&self) -> PollerView {
        PollerView {
            upload_id: self.upload_id,
            max_attempts: self.max_attempts as nat,
            retries: self.retries as nat,
        }
    }
}

/// What the poller wants after reading one status.
#[derive(Debug)]
pub enum PollStep {
    /// Wait the poll delay, then ask for the status again.
    Retry,
    /// Stop polling: the upload succeeded, failed, or is still in progress
    /// with the retry budget spent.
    Finished(Result<(), UploadError>),
}

/// One transition of the poller on a classified status report.
pub open spec fn poll_next(p: PollerView, r: Result<(), UploadError>) -> (PollerView, PollStep) {
    if r matches Err(UploadError::InProgress { .. }) && p.retries < p.max_attempts {
        (PollerView { retries: p.retries + 1, ..p }, PollStep::Retry)
    } else {
        (p, PollStep::Finished(r))
    }
}

/// Runs the poller over successive reports: the terminal result, if one is
/// reached within `rs`, and the number of delayed retries taken before it.
pub open spec fn poll_trace(p: PollerView, rs: Seq<Result<(), UploadError>>) -> (Option<Result<(), UploadError>>, nat)
    decreases rs.len(),
{
    if rs.len() == 0 {
        (None, 0)
    } else {
        let (q, step) = poll_next(p, rs[0]);
        match step {
            PollStep::Finished(r) => (Some(r), 0),
            PollStep::Retry => {
                let (o, n) = poll_trace(q, rs.drop_first());
                (o, n + 1)
            },
        }
    }
}

/// `n` reports in a row that the upload `id` is still in progress.
pub open spec fn in_progress_reports(id: i64, n: nat) -> Seq<Result<(), UploadError>> {
    Seq::new(n, |i: int| Err(UploadError::InProgress { id }))
}

impl Poller {
    /// A poller for `upload_id` that retries at most `max_attempts` times.
    pub fn new(upload_id: i64, max_attempts: u8) -> (p: Poller)
        ensures
            p@ == (PollerView { upload_id, max_attempts: max_attempts as nat, retries: 0 }),
            p@.wf(),
    {
        Poller { upload_id, max_attempts, retries: 0 }
    }

    pub fn upload_id(&self) -> (r: i64)
        ensures
            r == self@.upload_id,
    {
        self.upload_id
    }

    /// The delayed retries taken so far.
    pub fn retries(&self) -> (r: u8)
        ensures
            r == self@.retries,
    {
        self.retries
    }

    /// Reads one status report and decides whether to retry or stop.
    pub fn on_status(&mut self, status: &UploadStatus) -> (step: PollStep)
        requires
            old(self)@.wf(),
        ensures
            final(self)@.wf(),
            (final(self)@, step) == poll_next(old(self)@, status_result(*status)),
    {
        let r = status.to_result();
        match r {
            Err(UploadError::InProgress { id }) => {
                if self.retries < self.max_attempts {
                    self.retries = self.retries + 1;
                    PollStep::Retry
                } else {
                    PollStep::Finished(Err(UploadError::InProgress { id }))
                }
            },
            other => PollStep::Finished(other),
        }
    }
}

/// Polling terminates successfully after exactly `k` delayed retries when `k`
/// in-progress reports, no more than the remaining budget, precede a success.
pub proof fn lemma_poll_succeeds_after_retries(p: PollerView, k: nat)
    requires
        p.wf(),
        p.retries + k <= p.max_attempts,
    ensures
        poll_trace(p, in_progress_reports(p.upload_id, k).push(Ok(()))) == (
        Some(Ok::<(), UploadError>(())),
        k,
        ),
    decreases k,
{
    let rs = in_progress_reports(p.upload_id, k).push(Ok(()));
    if k == 0 {
        assert(rs[0] == Ok::<(), UploadError>(()));
    } else {
        let q = PollerView { retries: p.retries + 1, ..p };
        assert(rs[0] == Err::<(), UploadError>(UploadError::InProgress { id: p.upload_id }));
        assert(rs.drop_first() =~= in_progress_reports(p.upload_id, (k - 1) as nat).push(Ok(())));
        lemma_poll_succeeds_after_retries(q, (k - 1) as nat);
    }
}

/// When every report says the upload is still in progress, polling gives up
/// with the in-progress error once the budget is spent, having retried
/// exactly as many times as the budget had left.
pub proof fn lemma_poll_times_out(p: PollerView, n: nat)
    requires
        p.wf(),
        n > p.max_attempts - p.retries,
    ensures
        poll_trace(p, in_progress_reports(p.upload_id, n)) == (
        Some(Err::<(), UploadError>(UploadError::InProgress { id: p.upload_id })),
        (p.max_attempts - p.retries) as nat,
        ),
    decreases p.max_attempts - p.retries,
{
    let rs = in_progress_reports(p.upload_id, n);
    assert(rs[0] == Err::<(), UploadError>(UploadError::InProgress { id: p.upload_id }));
    if p.retries < p.max_attempts {
        let q = PollerView { retries: p.retries + 1, ..p };
        assert(rs.drop_first() =~= in_progress_reports(p.upload_id, (n - 1) as nat));
        lemma_poll_times_out(q, (n - 1) as nat);
    }
}

} // verus!

use vstd::prelude::*;

use crate::outcome::{DownloadFailure, SyncError};
use crate::poller::{poll_next, PollStep, Poller, PollerView};
use crate::source::{Sport, Tour};
use crate::text::{decimal_string, decimal_text};
use crate::upload::{kind_name, status_result, to_kind, UploadError, UploadRequest, UploadStatus};

verus! {

/// How many times an in-progress upload is polled again, by default.
pub const DEFAULT_POLL_ATTEMPTS: u8 = 10;

/// The pause before each repeated status request, by default, in milliseconds.
pub const DEFAULT_POLL_DELAY_MILLIS: u64 = 1000;

/// The poll budget of a transfer: the retries an in-progress upload gets and
/// the fixed pause before each.
#[derive(Debug, Clone, Copy, PartialEq, Eq, Structural)]
pub struct PollConfig {
    pub attempts: u8,
    pub delay_millis: u64,
}

impl PollConfig {
    pub fn default_budget() -> (c: PollConfig)
        ensures
            c.attempts == DEFAULT_POLL_ATTEMPTS,
            c.delay_millis == DEFAULT_POLL_DELAY_MILLIS,
    {
        PollConfig { attempts: DEFAULT_POLL_ATTEMPTS, delay_millis: DEFAULT_POLL_DELAY_MILLIS }
    }
}

/// Where a transfer stands.
pub enum Stage {
    /// Waiting for the route file.
    Downloading,
    /// Waiting for the destination to acknowledge the submission.
    Submitting,
    /// Waiting for a status report.
    AwaitingStatus(Poller),
    /// Waiting out the pause before the next status request.
    Sleeping(Poller),
    /// The outcome has been handed out.
    Done,
}

pub ghost enum StageView {
    Downloading,
    Submitting,
    AwaitingStatus(PollerView),
    Sleeping(PollerView),
    Done,
}

/// The transfer of one tour: download, submit, then poll until it settles.
pub struct TransferUnit {
    tour_id: u32,
    name: String,
    sport: Sport,
    config: PollConfig,
    stage: Stage,
}

pub ghost struct UnitView {
    pub tour_id: u32,
    pub name: Seq<char>,
    pub sport: Sport,
    pub config: PollConfig,
    pub stage: StageView,
}

/// What the transfer needs done next.
#[derive(Debug)]
pub enum UnitAction {
    /// Fetch the route file of the tour.
    Download { tour_id: u32 },
    /// Submit the file to the destination.
    Submit(UploadRequest),
    /// Ask the destination about the upload.
    QueryStatus { upload_id: i64 },
    /// Pause, then report back.
    Sleep { millis: u64 },
    /// The transfer is over, with this outcome.
    Finish(Result<u32, SyncError>),
}

/// What happened to the last action.
#[derive(Debug)]
pub enum UnitEvent {
    Downloaded(Vec<u8>),
    DownloadFailed(DownloadFailure),
    Submitted(UploadStatus),
    SubmitFailed(String),
    Status(UploadStatus),
    StatusFailed(String),
    Slept,
}

impl View for Stage {
    type V = StageView;

    closed spec fn view(&self) -> StageView {
        match self {
            Stage::Downloading => StageView::Downloading,
            Stage::Submitting => StageView::Submitting,
            Stage::AwaitingStatus(p) => StageView::AwaitingStatus(p@),
            Stage::Sleeping(p) => StageView::Sleeping(p@),
            Stage::Done => StageView::Done,
        }
    }
}

impl View for TransferUnit {
    type V = UnitView;

    closed spec fn view(&self) -> UnitView {
        UnitView {
            tour_id: self.tour_id,
            name: self.name@,
            sport: self.sport,
            config: self.config,
            stage: self.stage@,
        }
    }
}

impl UnitView {
    pub open spec fn wf(self) -> bool {
        match self.stage {
            StageView::AwaitingStatus(p) => p.wf() && p.max_attempts == self.config.attempts,
            StageView::Sleeping(p) => p.wf() && p.max_attempts == self.config.attempts,
            _ => true,
        }
    }

    /// Whether `ev` answers the action this stage waits on.
    pub open spec fn accepts(self, ev: UnitEvent) -> bool {
        match self.stage {
            StageView::Downloading => ev is Downloaded || ev is DownloadFailed,
            StageView::Submitting => ev is Submitted || ev is SubmitFailed,
            StageView::AwaitingStatus(_) => ev is Status || ev is StatusFailed,
            StageView::Sleeping(_) => ev is Slept,
            StageView::Done => false,
        }
    }

    pub open spec fn with_stage(self, stage: StageView) -> UnitView {
        UnitView { stage, ..self }
    }
}

/// The outcome that ends polling on the terminal result `r`.
pub open spec fn poll_outcome(tour_id: u32, p: PollerView, r: Result<(), UploadError>) -> Result<
    u32,
    SyncError,
> {
    match r {
        Ok(()) => Ok(tour_id),
        Err(UploadError::InProgress { .. }) => Err(
            SyncError::UploadTimeout { tour_id, upload_id: p.upload_id, attempts: p.retries as u8 },
        ),
        Err(UploadError::Failed { msg, .. }) => Err(
            SyncError::UploadFailed { tour_id, upload_id: p.upload_id, msg },
        ),
    }
}

/// One step of a transfer: from `u`, on event `ev`, the transfer moves to `v`
/// and asks for `a`.
pub open spec fn unit_step(u: UnitView, ev: UnitEvent, v: UnitView, a: UnitAction) -> bool {
    match u.stage {
        StageView::Downloading => match ev {
            UnitEvent::Downloaded(content) => {
                &&& v == u.with_stage(StageView::Submitting)
                &&& a matches UnitAction::Submit(req)
                &&& req.external_id@ == decimal_text(u.tour_id as int)
                &&& req.name@ == u.name
                &&& req.activity_type@ == kind_name(u.sport)
                &&& req.content == content
            },
            UnitEvent::DownloadFailed(failure) => {
                &&& v == u.with_stage(StageView::Done)
                &&& a == UnitAction::Finish(
                    Err(SyncError::Download { tour_id: u.tour_id, failure }),
                )
            },
            _ => false,
        },
        StageView::Submitting => match ev {
            UnitEvent::Submitted(status) => {
                let p = PollerView {
                    upload_id: status.id,
                    max_attempts: u.config.attempts as nat,
                    retries: 0,
                };
                &&& v == u.with_stage(StageView::AwaitingStatus(p))
                &&& a == UnitAction::QueryStatus { upload_id: status.id }
            },
            UnitEvent::SubmitFailed(msg) => {
                &&& v == u.with_stage(StageView::Done)
                &&& a == UnitAction::Finish(Err(SyncError::UploadSubmit { tour_id: u.tour_id, msg }))
            },
            _ => false,
        },
        StageView::AwaitingStatus(p) => match ev {
            UnitEvent::Status(status) => {
                let (q, step) = poll_next(p, status_result(status));
                match step {
                    PollStep::Retry => {
                        &&& v == u.with_stage(StageView::Sleeping(q))
                        &&& a == UnitAction::Sleep { millis: u.config.delay_millis }
                    },
                    PollStep::Finished(r) => {
                        &&& v == u.with_stage(StageView::Done)
                        &&& a == UnitAction::Finish(poll_outcome(u.tour_id, q, r))
                    },
                }
            },
            UnitEvent::StatusFailed(msg) => {
                &&& v == u.with_stage(StageView::Done)
                &&& a == UnitAction::Finish(
                    Err(SyncError::StatusQuery { tour_id: u.tour_id, upload_id: p.upload_id, msg }),
                )
            },
            _ => false,
        },
        StageView::Sleeping(p) => match ev {
            UnitEvent::Slept => {
                &&& v == u.with_stage(StageView::AwaitingStatus(p))
                &&& a == UnitAction::QueryStatus { upload_id: p.upload_id }
            },
            _ => false,
        },
        StageView::Done => false,
    }
}

impl TransferUnit {
    /// Starts the transfer of `tour`: first its route file is needed.
    pub fn start(tour: Tour, config: PollConfig) -> (r: (TransferUnit, UnitAction))
        ensures
            r.0@ == (UnitView {
                tour_id: tour.id,
                name: tour.name@,
                sport: tour.sport,
                config,
                stage: StageView::Downloading,
            }),
            r.0@.wf(),
            r.1 == (UnitAction::Download { tour_id: tour.id }),
    {
        let id = tour.id;
        let unit = TransferUnit {
            tour_id: tour.id,
            name: tour.name,
            sport: tour.sport,
            config,
            stage: Stage::Downloading,
        };
        (unit, UnitAction::Download { tour_id: id })
    }

    pub fn tour_id(&self) -> (r: u32)
        ensures
            r == self@.tour_id,
    {
        self.tour_id
    }

    /// Whether the transfer has handed out its outcome.
    pub fn is_done(&self) -> (r: bool)
        ensures
            r == (self@.stage is Done),
    {
        match self.stage {
            Stage::Done => true,
            _ => false,
        }
    }

    /// Whether `ev` answers the action the transfer waits on.
    pub fn accepts(&self, ev: &UnitEvent) -> (r: bool)
        ensures
            r == self@.accepts(*ev),
    {
        match self.stage {
            Stage::Downloading => match ev {
                UnitEvent::Downloaded(_) | UnitEvent::DownloadFailed(_) => true,
                _ => false,
            },
            Stage::Submitting => match ev {
                UnitEvent::Submitted(_) | UnitEvent::SubmitFailed(_) => true,
                _ => false,
            },
            Stage::AwaitingStatus(_) => match ev {
                UnitEvent::Status(_) | UnitEvent::StatusFailed(_) => true,
                _ => false,
            },
            Stage::Sleeping(_) => match ev {
                UnitEvent::Slept => true,
                _ => false,
            },
            Stage::Done => false,
        }
    }

    /// Takes in what happened to the last action and decides the next one.
    pub fn step(&mut self, ev: UnitEvent) -> (a: UnitAction)
        requires
            old(self)@.wf(),
            old(self)@.accepts(ev),
        ensures
            final(self)@.wf(),
            unit_step(old(self)@, ev, final(self)@, a),
    {
        let mut stage = Stage::Done;
        std::mem::swap(&mut self.stage, &mut stage);
        match stage {
            Stage::Downloading => match ev {
                UnitEvent::Downloaded(content) => {
                    self.stage = Stage::Submitting;
                    UnitAction::Submit(
                        UploadRequest {
                            external_id: decimal_string(self.tour_id as i64),
                            name: self.name.clone(),
                            activity_type: to_kind(&self.sport),
                            content,
                        },
                    )
                },
                UnitEvent::DownloadFailed(failure) => UnitAction::Finish(
                    Err(SyncError::Download { tour_id: self.tour_id, failure }),
                ),
                // ruled out: the stage does not accept any other event
                _ => UnitAction::Finish(Ok(self.tour_id)),
            },
            Stage::Submitting => match ev {
                UnitEvent::Submitted(status) => {
                    self.stage = Stage::AwaitingStatus(Poller::new(status.id, self.config.attempts));
                    UnitAction::QueryStatus { upload_id: status.id }
                },
                UnitEvent::SubmitFailed(msg) => UnitAction::Finish(
                    Err(SyncError::UploadSubmit { tour_id: self.tour_id, msg }),
                ),
                // ruled out: the stage does not accept any other event
                _ => UnitAction::Finish(Ok(self.tour_id)),
            },
            Stage::AwaitingStatus(mut p) => match ev {
                UnitEvent::Status(status) => {
                    let upload_id = p.upload_id();
                    match p.on_status(&status) {
                        PollStep::Retry => {
                            self.stage = Stage::Sleeping(p);
                            UnitAction::Sleep { millis: self.config.delay_millis }
                        },
                        PollStep::Finished(Ok(())) => UnitAction::Finish(Ok(self.tour_id)),
                        PollStep::Finished(Err(UploadError::InProgress { .. })) => {
                            UnitAction::Finish(
                                Err(
                                    SyncError::UploadTimeout {
                                        tour_id: self.tour_id,
                                        upload_id,
                                        attempts: p.retries(),
                                    },
                                ),
                            )
                        },
                        PollStep::Finished(Err(UploadError::Failed { msg, .. })) => {
                            UnitAction::Finish(
                                Err(SyncError::UploadFailed { tour_id: self.tour_id, upload_id, msg }),
                            )
                        },
                    }
                },
                UnitEvent::StatusFailed(msg) => UnitAction::Finish(
                    Err(
                        SyncError::StatusQuery {
                            tour_id: self.tour_id,
                            upload_id: p.upload_id(),
                            msg,
                        },
                    ),
                ),
                // ruled out: the stage does not accept any other event
                _ => UnitAction::Finish(Ok(self.tour_id)),
            },
            Stage::Sleeping(p) => {
                let upload_id = p.upload_id();
                self.stage = Stage::AwaitingStatus(p);
                UnitAction::QueryStatus { upload_id }
            },
            // ruled out: a finished transfer accepts no event
            Stage::Done => UnitAction::Finish(Ok(self.tour_id)),
        }
    }
}

} // verus!

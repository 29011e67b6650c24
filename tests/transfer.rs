use stramoot::outcome::{DownloadFailure, SyncError};
use stramoot::source::{Sport, Tour};
use stramoot::transfer::{PollConfig, TransferUnit, UnitAction, UnitEvent};
use stramoot::upload::UploadStatus;

fn tour(id: u32, name: &str, sport: Sport) -> Tour {
    Tour {
        id,
        name: name.to_string(),
        status: "private".to_string(),
        tour_type: "tour_recorded".to_string(),
        date: "2024-05-01T10:00:00.000Z".to_string(),
        sport,
    }
}

fn status(id: i64, error: Option<&str>, external_id: Option<&str>) -> UploadStatus {
    UploadStatus {
        id,
        id_str: id.to_string(),
        status: String::new(),
        error: error.map(|e| e.to_string()),
        external_id: external_id.map(|e| e.to_string()),
        activity_id: None,
    }
}

fn budget(attempts: u8) -> PollConfig {
    PollConfig { attempts, delay_millis: 250 }
}

#[test]
fn transfer_happy_path() {
    let (mut unit, first) = TransferUnit::start(tour(31, "Ridge walk", Sport::Hike), budget(10));
    assert!(matches!(first, UnitAction::Download { tour_id: 31 }));
    let a = unit.step(UnitEvent::Downloaded(vec![60, 103, 112, 120]));
    match a {
        UnitAction::Submit(req) => {
            assert_eq!(req.external_id, "31");
            assert_eq!(req.name, "Ridge walk");
            assert_eq!(req.activity_type, "Hike");
            assert_eq!(req.content, vec![60, 103, 112, 120]);
        }
        other => panic!("unexpected {:?}", other),
    }
    let a = unit.step(UnitEvent::Submitted(status(900, None, None)));
    assert!(matches!(a, UnitAction::QueryStatus { upload_id: 900 }));
    let a = unit.step(UnitEvent::Status(status(900, None, Some("31"))));
    assert!(matches!(a, UnitAction::Finish(Ok(31))));
    assert!(unit.is_done());
}

#[test]
fn transfer_of_a_ride_uses_ride_category() {
    let (mut unit, _) = TransferUnit::start(tour(5, "Loop", Sport::RaceBike), budget(1));
    match unit.step(UnitEvent::Downloaded(Vec::new())) {
        UnitAction::Submit(req) => assert_eq!(req.activity_type, "Ride"),
        other => panic!("unexpected {:?}", other),
    }
}

#[test]
fn transfer_retries_then_succeeds() {
    let (mut unit, _) = TransferUnit::start(tour(1, "A", Sport::Jogging), budget(2));
    unit.step(UnitEvent::Downloaded(vec![1]));
    unit.step(UnitEvent::Submitted(status(77, None, None)));
    let mut sleeps = 0;
    let mut reports = vec![
        status(77, None, None),
        status(77, None, None),
        status(77, None, Some("1")),
    ]
    .into_iter();
    let outcome = loop {
        let report = reports.next().expect("more status reports than expected");
        match unit.step(UnitEvent::Status(report)) {
            UnitAction::Sleep { millis } => {
                assert_eq!(millis, 250);
                sleeps += 1;
                assert!(matches!(unit.step(UnitEvent::Slept), UnitAction::QueryStatus { upload_id: 77 }));
            }
            UnitAction::Finish(r) => break r,
            other => panic!("unexpected {:?}", other),
        }
    };
    assert_eq!(outcome, Ok(1));
    assert_eq!(sleeps, 2);
}

#[test]
fn transfer_times_out() {
    let (mut unit, _) = TransferUnit::start(tour(2, "B", Sport::Hike), budget(3));
    unit.step(UnitEvent::Downloaded(vec![1]));
    unit.step(UnitEvent::Submitted(status(78, None, None)));
    let mut sleeps = 0;
    let outcome = loop {
        match unit.step(UnitEvent::Status(status(78, None, None))) {
            UnitAction::Sleep { .. } => {
                sleeps += 1;
                unit.step(UnitEvent::Slept);
            }
            UnitAction::Finish(r) => break r,
            other => panic!("unexpected {:?}", other),
        }
    };
    assert_eq!(sleeps, 3);
    assert_eq!(
        outcome,
        Err(SyncError::UploadTimeout { tour_id: 2, upload_id: 78, attempts: 3 })
    );
}

#[test]
fn transfer_download_status_failure() {
    let (mut unit, _) = TransferUnit::start(tour(3, "C", Sport::Touring), budget(3));
    let a = unit.step(UnitEvent::DownloadFailed(DownloadFailure::Status { code: 404 }));
    match a {
        UnitAction::Finish(r) => assert_eq!(
            r,
            Err(SyncError::Download { tour_id: 3, failure: DownloadFailure::Status { code: 404 } })
        ),
        other => panic!("unexpected {:?}", other),
    }
    assert!(unit.is_done());
    assert!(!unit.accepts(&UnitEvent::Slept));
    assert!(!unit.accepts(&UnitEvent::Downloaded(vec![])));
}

#[test]
fn transfer_download_interrupted() {
    let (mut unit, _) = TransferUnit::start(tour(4, "D", Sport::MTB), budget(3));
    let failure = || DownloadFailure::Interrupted { msg: "connection reset".to_string() };
    match unit.step(UnitEvent::DownloadFailed(failure())) {
        UnitAction::Finish(r) => {
            assert_eq!(r, Err(SyncError::Download { tour_id: 4, failure: failure() }));
            assert_ne!(r, Err(SyncError::Download { tour_id: 4, failure: DownloadFailure::Status { code: 500 } }));
        }
        other => panic!("unexpected {:?}", other),
    }
}

#[test]
fn transfer_download_request_failure() {
    let (mut unit, _) = TransferUnit::start(tour(6, "F", Sport::Other), budget(3));
    let a = unit.step(UnitEvent::DownloadFailed(DownloadFailure::Request { msg: "dns".to_string() }));
    assert!(matches!(
        a,
        UnitAction::Finish(Err(SyncError::Download { tour_id: 6, failure: DownloadFailure::Request { .. } }))
    ));
}

#[test]
fn transfer_submit_rejected() {
    let (mut unit, _) = TransferUnit::start(tour(7, "G", Sport::Hike), budget(3));
    unit.step(UnitEvent::Downloaded(vec![1]));
    match unit.step(UnitEvent::SubmitFailed("401 Unauthorized".to_string())) {
        UnitAction::Finish(r) => assert_eq!(
            r,
            Err(SyncError::UploadSubmit { tour_id: 7, msg: "401 Unauthorized".to_string() })
        ),
        other => panic!("unexpected {:?}", other),
    }
    assert!(unit.is_done());
}

#[test]
fn transfer_upload_reported_failed() {
    let (mut unit, _) = TransferUnit::start(tour(8, "H", Sport::Hike), budget(3));
    unit.step(UnitEvent::Downloaded(vec![1]));
    unit.step(UnitEvent::Submitted(status(80, None, None)));
    unit.step(UnitEvent::Status(status(80, None, None)));
    unit.step(UnitEvent::Slept);
    match unit.step(UnitEvent::Status(status(80, Some("malformed GPX"), None))) {
        UnitAction::Finish(r) => assert_eq!(
            r,
            Err(SyncError::UploadFailed { tour_id: 8, upload_id: 80, msg: "malformed GPX".to_string() })
        ),
        other => panic!("unexpected {:?}", other),
    }
}

#[test]
fn transfer_status_request_failure_is_terminal() {
    let (mut unit, _) = TransferUnit::start(tour(9, "I", Sport::Hike), budget(10));
    unit.step(UnitEvent::Downloaded(vec![1]));
    unit.step(UnitEvent::Submitted(status(81, None, None)));
    assert!(unit.accepts(&UnitEvent::StatusFailed(String::new())));
    assert!(!unit.accepts(&UnitEvent::Slept));
    match unit.step(UnitEvent::StatusFailed("timeout".to_string())) {
        UnitAction::Finish(r) => assert_eq!(
            r,
            Err(SyncError::StatusQuery { tour_id: 9, upload_id: 81, msg: "timeout".to_string() })
        ),
        other => panic!("unexpected {:?}", other),
    }
}

#[test]
fn default_poll_budget() {
    let c = PollConfig::default_budget();
    assert_eq!(c.attempts, 10);
    assert_eq!(c.delay_millis, 1000);
}

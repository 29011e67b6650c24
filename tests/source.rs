use stramoot::source::{
    account_url, download_url, page_query, source_start_date, tours_url, UserContext,
};
use stramoot::time::{window_start, Interval, Timestamp};

#[test]
fn source_endpoints() {
    assert_eq!(
        account_url("ann@example.org"),
        "https://api.komoot.de/v006/account/email/ann@example.org/"
    );
    let ctx = UserContext {
        email: "ann@example.org".to_string(),
        user_id: "75331".to_string(),
        token: "SECRET-REDACTED".to_string(),
    };
    assert_eq!(tours_url(&ctx), "https://api.komoot.de/v007/users/75331/tours/");
    assert_eq!(download_url(4242), "https://api.komoot.de/v007/tours/4242.gpx");
    assert_eq!(download_url(u32::MAX), "https://api.komoot.de/v007/tours/4294967295.gpx");
}

#[test]
fn page_query_parameters() {
    let q = page_query("2024-05-01T10:00:00.000-07:00", 3, 25);
    let expected: Vec<(String, String)> = [
        ("limit", "25"),
        ("page", "3"),
        ("type", "tour_recorded"),
        ("start_date", "2024-05-01T10:00:00.000-07:00"),
    ]
    .iter()
    .map(|(k, v)| (k.to_string(), v.to_string()))
    .collect();
    assert_eq!(q, expected);
}

#[test]
fn start_date_is_rendered_at_source_offset() {
    let epoch = Timestamp { secs: 0, nanos: 0 };
    assert_eq!(
        source_start_date(&epoch).as_deref(),
        Some("1969-12-31T17:00:00.000-07:00")
    );
    let t = Timestamp { secs: 1_714_586_400, nanos: 123_456_789 };
    assert_eq!(
        source_start_date(&t).as_deref(),
        Some("2024-05-01T11:00:00.123-07:00")
    );
    let edge = Timestamp { secs: 8_000_000_000_000, nanos: 999_999_999 };
    assert!(source_start_date(&edge).is_some());
    let edge = Timestamp { secs: -8_000_000_000_000, nanos: 0 };
    assert!(source_start_date(&edge).is_some());
    let earliest = Timestamp { secs: -8_334_601_315_200, nanos: 0 };
    assert_eq!(source_start_date(&earliest), None);
    let beyond = Timestamp { secs: 8_000_000_000_001, nanos: 0 };
    assert_eq!(source_start_date(&beyond), None);
    let bad_nanos = Timestamp { secs: 0, nanos: 1_000_000_000 };
    assert_eq!(source_start_date(&bad_nanos), None);
    let far = Timestamp { secs: i64::MAX, nanos: 0 };
    assert_eq!(source_start_date(&far), None);
}

#[test]
fn window_start_subtracts_interval() {
    let now = Timestamp { secs: 1_000_000, nanos: 500 };
    let two_days = Interval { secs: 172_800, nanos: 0 };
    assert_eq!(
        window_start(now, two_days),
        Some(Timestamp { secs: 827_200, nanos: 500 })
    );
    let borrow = Interval { secs: 1, nanos: 600 };
    assert_eq!(
        window_start(now, borrow),
        Some(Timestamp { secs: 999_998, nanos: 999_999_900 })
    );
    let before_epoch = Interval { secs: 2_000_000, nanos: 0 };
    assert_eq!(
        window_start(now, before_epoch),
        Some(Timestamp { secs: -1_000_000, nanos: 500 })
    );
}

#[test]
fn window_start_out_of_range() {
    let now = Timestamp { secs: i64::MIN + 5, nanos: 0 };
    assert_eq!(window_start(now, Interval { secs: 5, nanos: 0 }), Some(Timestamp { secs: i64::MIN, nanos: 0 }));
    assert_eq!(window_start(now, Interval { secs: 5, nanos: 1 }), None);
    assert_eq!(window_start(now, Interval { secs: u64::MAX, nanos: 0 }), None);
}

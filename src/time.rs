use vstd::prelude::*;

verus! {

pub const NANOS_PER_SEC: u32 = 1_000_000_000;

/// An instant: whole seconds since the Unix epoch (negative before it) plus
/// the nanoseconds past that second.
#[derive(Debug, Clone, Copy, PartialEq, Eq, Structural)]
pub struct Timestamp {
    pub secs: i64,
    pub nanos: u32,
}

/// A length of time: whole seconds plus nanoseconds.
#[derive(Debug, Clone, Copy, PartialEq, Eq, Structural)]
pub struct Interval {
    pub secs: u64,
    pub nanos: u32,
}

impl Timestamp {
    pub open spec fn wf(self) -> bool {
        self.nanos < NANOS_PER_SEC
    }

    /// Nanoseconds since the epoch.
    pub open spec fn total_nanos(self) -> int {
        self.secs * NANOS_PER_SEC + self.nanos
    }
}

impl Interval {
    pub open spec fn wf(self) -> bool {
        self.nanos < NANOS_PER_SEC
    }

    pub open spec fn total_nanos(self) -> int {
        self.secs * NANOS_PER_SEC + self.nanos
    }
}

/// The earliest instant that an `Interval` back from `now` can be written
/// as a `Timestamp`.
pub open spec fn earliest_nanos() -> int {
    i64::MIN * NANOS_PER_SEC
}

/// The start of the window that ends at `now` and spans `interval`; `None`
/// when that instant lies before the earliest representable second.
pub fn window_start(now: Timestamp, interval: Interval) -> (r: Option<Timestamp>)
    requires
        now.wf(),
        interval.wf(),
    ensures
        match r {
            Some(t) => t.wf() && t.total_nanos() == now.total_nanos() - interval.total_nanos(),
            None => now.total_nanos() - interval.total_nanos() < earliest_nanos(),
        },
{
    let mut secs: i128 = now.secs as i128 - interval.secs as i128;
    let nanos: u32;
    if now.nanos >= interval.nanos {
        nanos = now.nanos - interval.nanos;
    } else {
        nanos = now.nanos + (NANOS_PER_SEC - interval.nanos);
        secs = secs - 1;
    }
    if secs < i64::MIN as i128 {
        None
    } else {
        Some(Timestamp { secs: secs as i64, nanos })
    }
}

/// Instants well inside chrono's calendar (about 250,000 years either side of
/// the epoch, against chrono's limit of year 262,142 either side of year 0).
pub open spec fn within_calendar(t: Timestamp) -> bool {
    &&& t.wf()
    &&& -8_000_000_000_000 <= t.secs <= 8_000_000_000_000
}

/// Names the text chrono's `to_rfc3339_opts(SecondsFormat::Millis, false)`
/// renders for the instant `secs`/`nanos` seen at the fixed offset `west`
/// seconds behind UTC.
pub uninterp spec fn rfc3339_millis_text(secs: int, nanos: int, west: int) -> Seq<char>;

/// Relies on chrono: `DateTime::from_timestamp` reads the instant (it gives
/// `None` outside chrono's range or for an invalid nanosecond count),
/// `FixedOffset::west_opt` with `with_timezone` moves it to the offset, and
/// `DateTime::to_rfc3339_opts` renders it with milliseconds and a numeric offset
/// (its write into a `String` cannot fail). `from_timestamp` succeeds whenever
/// the nanoseconds are below one second and the date falls within chrono's
/// years, and `to_rfc3339_opts` panics when the offset pushes the local date
/// past them; `within_calendar` keeps well inside both.
#[verifier::external_body]
pub(crate) fn rfc3339_millis(secs: i64, nanos: u32, west: i32) -> (r: Option<String>)
    requires
        -86_400 < west < 86_400,
        within_calendar(Timestamp { secs, nanos }),
    ensures
        r is Some,
        r matches Some(s) ==> s@ == rfc3339_millis_text(secs as int, nanos as int, west as int),
{
    let offset = chrono::FixedOffset::west_opt(west).unwrap();
    match chrono::DateTime::from_timestamp(secs, nanos) {
        Some(t) => Some(t.with_timezone(&offset).to_rfc3339_opts(chrono::SecondsFormat::Millis, false)),
        None => None,
    }
}

} // verus!

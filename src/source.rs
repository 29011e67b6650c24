use vstd::prelude::*;
use vstd::string::*;

use crate::text::{decimal_string, decimal_text, field, fields_view};
use crate::time::{rfc3339_millis, rfc3339_millis_text, within_calendar, Timestamp, NANOS_PER_SEC};

verus! {

/// The kind of activity the source records a tour as.
///
/// Names the source does not document map to `Other` rather than failing.
#[derive(Debug, Clone, Copy, PartialEq, Eq, Structural)]
pub enum Sport {
    Hike,
    MTB,
    RaceBike,
    Touring,
    Jogging,
    Other,
}

/// The sport that the source's wire name `name` denotes.
pub open spec fn sport_named(name: Seq<char>) -> Sport {
    if name == "hike"@ {
        Sport::Hike
    } else if name == "mtb_easy"@ {
        Sport::MTB
    } else if name == "racebike"@ {
        Sport::RaceBike
    } else if name == "touringbicycle"@ {
        Sport::Touring
    } else if name == "jogging"@ {
        Sport::Jogging
    } else {
        Sport::Other
    }
}

impl Sport {
    /// Reads the source's name for a sport; an unrecognised name is `Other`.
    pub fn from_name(name: &str) -> (r: Sport)
        ensures
            r == sport_named(name@),
    {
        let n = String::from_str(name);
        if n == String::from_str("hike") {
            Sport::Hike
        } else if n == String::from_str("mtb_easy") {
            Sport::MTB
        } else if n == String::from_str("racebike") {
            Sport::RaceBike
        } else if n == String::from_str("touringbicycle") {
            Sport::Touring
        } else if n == String::from_str("jogging") {
            Sport::Jogging
        } else {
            Sport::Other
        }
    }
}

} // verus!

verus! {

/// One recorded tour as the source lists it.
#[derive(Debug)]
pub struct Tour {
    pub id: u32,
    pub name: String,
    pub status: String,
    pub tour_type: String,
    pub date: String,
    pub sport: Sport,
}

/// The account that the source's sign-in returns: the address used for basic
/// authentication, the user id that addresses the tour list, and the token.
#[derive(Debug)]
pub struct UserContext {
    pub email: String,
    pub user_id: String,
    pub token: String,
}

/// The west offset, in seconds, at which the source expects the start date.
pub const SOURCE_OFFSET_WEST: i32 = 7 * 3600;

/// Where the source signs a user in.
pub open spec fn account_url_text(username: Seq<char>) -> Seq<char> {
    "https://api.komoot.de/v006/account/email/"@ + username + "/"@
}

/// Where the source lists a user's tours.
pub open spec fn tours_url_text(user_id: Seq<char>) -> Seq<char> {
    "https://api.komoot.de/v007/users/"@ + user_id + "/tours/"@
}

/// Where the source serves the route file of a tour.
pub open spec fn download_url_text(tour_id: u32) -> Seq<char> {
    "https://api.komoot.de/v007/tours/"@ + decimal_text(tour_id as int) + ".gpx"@
}

/// The query of one page of the recorded tours that start at `start_date`.
pub open spec fn page_query_text(start_date: Seq<char>, page: u16, limit: u8) -> Seq<
    (Seq<char>, Seq<char>),
> {
    seq![
        ("limit"@, decimal_text(limit as int)),
        ("page"@, decimal_text(page as int)),
        ("type"@, "tour_recorded"@),
        ("start_date"@, start_date),
    ]
}

pub fn account_url(username: &str) -> (r: String)
    ensures
        r@ == account_url_text(username@),
{
    String::from_str("https://api.komoot.de/v006/account/email/").concat(username).concat("/")
}

pub fn tours_url(ctx: &UserContext) -> (r: String)
    ensures
        r@ == tours_url_text(ctx.user_id@),
{
    String::from_str("https://api.komoot.de/v007/users/").concat(ctx.user_id.as_str()).concat(
        "/tours/",
    )
}

pub fn download_url(tour_id: u32) -> (r: String)
    ensures
        r@ == download_url_text(tour_id),
{
    let id = decimal_string(tour_id as i64);
    String::from_str("https://api.komoot.de/v007/tours/").concat(id.as_str()).concat(".gpx")
}

/// The start date as the source's query expects it: the instant rendered at
/// the source's offset. `None` for an instant outside the calendar range the
/// library renders (see `within_calendar`).
pub fn source_start_date(start: &Timestamp) -> (r: Option<String>)
    ensures
        r is Some <==> within_calendar(*start),
        r matches Some(s) ==> s@ == rfc3339_millis_text(
            start.secs as int,
            start.nanos as int,
            SOURCE_OFFSET_WEST as int,
        ),
{
    if start.nanos < NANOS_PER_SEC && -8_000_000_000_000 <= start.secs && start.secs
        <= 8_000_000_000_000 {
        rfc3339_millis(start.secs, start.nanos, SOURCE_OFFSET_WEST)
    } else {
        None
    }
}

/// The query parameters that ask for page `page` of `limit` recorded tours
/// from `start_date` on.
pub fn page_query(start_date: &str, page: u16, limit: u8) -> (r: Vec<(String, String)>)
    ensures
        fields_view(r@) == page_query_text(start_date@, page, limit),
{
    let mut q: Vec<(String, String)> = Vec::new();
    q.push(field("limit", decimal_string(limit as i64)));
    q.push(field("page", decimal_string(page as i64)));
    q.push(field("type", String::from_str("tour_recorded")));
    q.push(field("start_date", String::from_str(start_date)));
    assert(fields_view(q@) =~= page_query_text(start_date@, page, limit));
    q
}

} // verus!

use vstd::prelude::*;
use vstd::string::*;

use crate::source::Sport;
use crate::text::{decimal_string, decimal_text, field, fields_view};

verus! {

/// What the destination reports about an upload it has accepted.
#[derive(Debug)]
pub struct UploadStatus {
    pub id: i64,
    pub id_str: String,
    pub status: String,
    pub error: Option<String>,
    pub external_id: Option<String>,
    pub activity_id: Option<String>,
}

/// Why an upload is not (yet) a finished activity.
#[derive(Debug)]
pub enum UploadError {
    /// The destination is still processing the upload.
    InProgress { id: i64 },
    /// The destination gave up on the upload, for the reason in `msg`.
    Failed { id: i64, msg: String },
}

/// The three-way reading of a status: an error wins over everything else;
/// otherwise the upload is done once it carries an external id.
pub open spec fn status_result(s: UploadStatus) -> Result<(), UploadError> {
    match s.error {
        Some(e) => Err(UploadError::Failed { id: s.id, msg: e }),
        None => if s.external_id is None {
            Err(UploadError::InProgress { id: s.id })
        } else {
            Ok(())
        },
    }
}

impl UploadStatus {
    /// Classifies the status as succeeded (`Ok`), still in progress, or failed.
    pub fn to_result(&self) -> (r: Result<(), UploadError>)
        ensures
            r == status_result(*self),
    {
        if let Some(error) = &self.error {
            Err(UploadError::Failed { id: self.id, msg: error.clone() })
        } else if self.external_id.is_none() {
            Err(UploadError::InProgress { id: self.id })
        } else {
            Ok(())
        }
    }
}

/// The sentence that describes an upload error to a person.
pub open spec fn upload_error_text(e: UploadError) -> Seq<char> {
    match e {
        UploadError::InProgress { id } => "Upload "@ + decimal_text(id as int)
            + ". Upload is in progress"@,
        UploadError::Failed { id, msg } => "Upload "@ + decimal_text(id as int)
            + ". Unrecoverable error: "@ + msg@,
    }
}

impl UploadError {
    /// Describes the error in one sentence.
    pub fn message(&self) -> (r: String)
        ensures
            r@ == upload_error_text(*self),
    {
        match self {
            UploadError::InProgress { id } => {
                let head = String::from_str("Upload ").concat(decimal_string(*id).as_str());
                head.concat(". Upload is in progress")
            },
            UploadError::Failed { id, msg } => {
                let head = String::from_str("Upload ").concat(decimal_string(*id).as_str());
                head.concat(". Unrecoverable error: ").concat(msg.as_str())
            },
        }
    }
}

/// Every status reads as exactly one of failed (carrying its own error text),
/// in progress, or succeeded, and which one it is depends only on whether an
/// error and an external id are present.
pub proof fn lemma_status_classes(s: UploadStatus)
    ensures
        s.error matches Some(e) ==> status_result(s) == Err::<(), UploadError>(
            UploadError::Failed { id: s.id, msg: e },
        ),
        s.error is None && s.external_id is None ==> status_result(s) == Err::<(), UploadError>(
            UploadError::InProgress { id: s.id },
        ),
        s.error is None && s.external_id is Some ==> status_result(s) == Ok::<(), UploadError>(()),
        status_result(s) is Ok <==> (s.error is None && s.external_id is Some),
        status_result(s) matches Err(UploadError::InProgress { .. }) <==> (s.error is None
            && s.external_id is None),
        status_result(s) matches Err(UploadError::Failed { .. }) <==> s.error is Some,
{
}

/// The destination's activity category for a tour of the given sport.
pub open spec fn kind_name(sport: Sport) -> Seq<char> {
    match sport {
        Sport::Hike => "Hike"@,
        Sport::MTB => "Ride"@,
        Sport::RaceBike => "Ride"@,
        Sport::Touring => "Ride"@,
        Sport::Jogging => "Ride"@,
        Sport::Other => "Ride"@,
    }
}

/// Maps a source sport to the destination's activity category.
pub fn to_kind(sport: &Sport) -> (r: String)
    ensures
        r@ == kind_name(*sport),
{
    match sport {
        Sport::Hike => String::from_str("Hike"),
        Sport::MTB => String::from_str("Ride"),
        Sport::RaceBike => String::from_str("Ride"),
        Sport::Touring => String::from_str("Ride"),
        Sport::Jogging => String::from_str("Ride"),
        Sport::Other => String::from_str("Ride"),
    }
}

/// Every sport, an unrecognised one included, maps to one of the two
/// categories, and hiking is the only sport that maps to "Hike".
pub proof fn lemma_kind_total(sport: Sport)
    ensures
        kind_name(sport) == "Hike"@ || kind_name(sport) == "Ride"@,
        kind_name(sport) == "Hike"@ <==> sport == Sport::Hike,
{
    reveal_strlit("Hike");
    reveal_strlit("Ride");
    assert("Hike"@[0] != "Ride"@[0]);
}

} // verus!

verus! {

/// A route file ready for submission, with the metadata that goes with it.
#[derive(Debug)]
pub struct UploadRequest {
    /// The tour's id on the source, so the destination can tell repeats apart.
    pub external_id: String,
    pub name: String,
    pub activity_type: String,
    /// The route file, in GPX.
    pub content: Vec<u8>,
}

pub open spec fn upload_form_text(external_id: Seq<char>, name: Seq<char>, activity_type: Seq<char>) -> Seq<
    (Seq<char>, Seq<char>),
> {
    seq![
        ("trainer"@, "0"@),
        ("commute"@, "0"@),
        ("data_type"@, "gpx"@),
        ("activity_type"@, activity_type),
        ("name"@, name),
        ("external_id"@, external_id),
    ]
}

impl UploadRequest {
    /// The text fields of the multipart submission; the route file goes with
    /// them as the `data` part.
    pub fn form_fields(&self) -> (r: Vec<(String, String)>)
        ensures
            fields_view(r@) == upload_form_text(
                self.external_id@,
                self.name@,
                self.activity_type@,
            ),
    {
        let mut f: Vec<(String, String)> = Vec::new();
        f.push(field("trainer", String::from_str("0")));
        f.push(field("commute", String::from_str("0")));
        f.push(field("data_type", String::from_str("gpx")));
        f.push(field("activity_type", self.activity_type.clone()));
        f.push(field("name", self.name.clone()));
        f.push(field("external_id", self.external_id.clone()));
        assert(fields_view(f@) =~= upload_form_text(
            self.external_id@,
            self.name@,
            self.activity_type@,
        ));
        f
    }
}

pub open spec fn uploads_url_text() -> Seq<char> {
    "https://www.strava.com/api/v3/uploads"@
}

pub open spec fn upload_status_url_text(upload_id: i64) -> Seq<char> {
    "https://www.strava.com/api/v3/uploads/"@ + decimal_text(upload_id as int)
}

/// Where the destination takes new uploads.
pub fn uploads_url() -> (r: String)
    ensures
        r@ == uploads_url_text(),
{
    String::from_str("https://www.strava.com/api/v3/uploads")
}

/// Where the destination reports on the upload `upload_id`.
pub fn upload_status_url(upload_id: i64) -> (r: String)
    ensures
        r@ == upload_status_url_text(upload_id),
{
    String::from_str("https://www.strava.com/api/v3/uploads/").concat(
        decimal_string(upload_id).as_str(),
    )
}

/// The destination's authorization endpoint.
pub fn authorize_url() -> (r: String)
    ensures
        r@ == "https://www.strava.com/oauth/authorize"@,
{
    String::from_str("https://www.strava.com/oauth/authorize")
}

/// The destination's token endpoint, where a refresh token buys an access token.
pub fn token_url() -> (r: String)
    ensures
        r@ == "https://www.strava.com/oauth/token"@,
{
    String::from_str("https://www.strava.com/oauth/token")
}

} // verus!

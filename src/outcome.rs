use vstd::prelude::*;

verus! {

/// Why the source could not hand over a tour's route file.
#[derive(Debug, PartialEq, Eq)]
pub enum DownloadFailure {
    /// The source answered with a non-success status code.
    Status { code: u16 },
    /// The response broke off while the file was being read.
    Interrupted { msg: String },
    /// The request got no answer at all.
    Request { msg: String },
}

/// A failure in one phase of a run, tagged with the phase.
#[derive(Debug, PartialEq, Eq)]
pub enum SyncError {
    /// Listing page `page` of the tours failed; no further page is requested.
    PageFetch { page: u16, msg: String },
    /// The tour's route file could not be downloaded.
    Download { tour_id: u32, failure: DownloadFailure },
    /// The destination refused the submission.
    UploadSubmit { tour_id: u32, msg: String },
    /// The destination accepted the upload and then reported it failed.
    UploadFailed { tour_id: u32, upload_id: i64, msg: String },
    /// The upload was still in progress when the poll budget ran out; it may
    /// yet complete on the destination's side.
    UploadTimeout { tour_id: u32, upload_id: i64, attempts: u8 },
    /// A status request about the upload failed.
    StatusQuery { tour_id: u32, upload_id: i64, msg: String },
}

} // verus!

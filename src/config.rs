use vstd::prelude::*;

use crate::time::Interval;

verus! {

/// Everything a run is configured with.
#[derive(Debug)]
pub struct Cli {
    pub komoot: KomootOpts,
    pub strava: StravaOpts,
    pub common: CommonOpts,
}

/// The run's window and its batch size.
#[derive(Debug)]
pub struct CommonOpts {
    /// How far back from now the window of tours reaches.
    pub interval: Interval,
    /// The page size, and the most tours transferred at once.
    pub batch_size: u8,
}

/// Sign-in to the source.
#[derive(Debug)]
pub struct KomootOpts {
    pub username: String,
    pub password: String,
}

/// The OAuth2 client of the destination and the refresh token it was granted.
#[derive(Debug)]
pub struct StravaOpts {
    pub client_id: String,
    pub client_secret: String,
    pub refresh_token: String,
}

} // verus!

//! The records of the active-statuses feed that the exporter reads, and the
//! errors that fetching the feed can end in.

use vstd::prelude::*;

verus! {

/// An instant with the UTC offset it was written with: whole seconds since the
/// Unix epoch, the nanoseconds past them, and the offset east of UTC.
#[derive(Clone, Copy, Debug, PartialEq, Eq)]
pub struct Timestamp {
    pub unix_seconds: i64,
    pub nanos: u32,
    pub offset_seconds: i32,
}

/// An event that a check-in is attached to.
#[derive(Clone, Debug)]
pub struct Event {
    pub id: i32,
    pub name: String,
}

/// A stop at the start or the end of a journey.
#[derive(Clone, Debug)]
pub struct TrainStopover {
    pub id: i32,
    pub name: String,
    pub eva_identifier: i32,
    pub arrival: Option<Timestamp>,
    pub arrival_planned: Option<Timestamp>,
    pub arrival_real: Option<Timestamp>,
    pub arrival_platform_planned: Option<String>,
    pub arrival_platform_real: Option<String>,
    pub departure: Option<Timestamp>,
    pub departure_planned: Option<Timestamp>,
    pub departure_real: Option<Timestamp>,
    pub departure_platform_planned: Option<String>,
    pub platform: Option<String>,
    pub is_arrival_delayed: bool,
    pub is_departure_delayed: bool,
    pub cancelled: bool,
}

/// The train of a check-in. Distances are in metres, durations in minutes.
/// `speed` holds the speed in km/h as text: the shortest decimal form that
/// reads back as the floating-point value the feed gave.
#[derive(Clone, Debug)]
pub struct Train {
    pub trip: i32,
    pub hafas_id: String,
    pub category: String,
    pub number: String,
    pub line_name: String,
    pub distance: i32,
    pub points: i32,
    pub duration: i32,
    pub speed: String,
    pub origin: TrainStopover,
    pub destination: TrainStopover,
}

/// One active check-in of the feed.
#[derive(Clone, Debug)]
pub struct Status {
    pub id: i32,
    pub user: i32,
    pub username: String,
    pub business: i32,
    pub created_at: Timestamp,
    pub train: Train,
    pub event: Option<Event>,
}

/// The body of a successful answer of the active-statuses resource.
#[derive(Clone, Debug)]
pub struct ActiveStatusesResponse {
    pub data: Vec<Status>,
}

/// A non-success answer of the service: its HTTP status and its body text.
#[derive(Clone, Debug)]
pub struct TrwlErrorResponse {
    pub status_code: u16,
    pub message: String,
}

/// How a fetch of the feed failed.
#[derive(Clone, Debug)]
pub enum Error {
    /// The service could not be reached, or its answer could not be read.
    Transport(String),
    /// The service answered with a status outside `200..300`.
    InvalidTrwlResponse(TrwlErrorResponse),
    /// A success answer whose body did not match the feed's schema.
    Decode(String),
}

/// Whether an HTTP status code is a success, `200..=299`.
pub open spec fn spec_is_success(code: u16) -> bool {
    200 <= code && code < 300
}

/// Whether an HTTP status code reports success.
pub fn is_success(code: u16) -> (r: bool)
    ensures
        r == spec_is_success(code),
{
    200 <= code && code < 300
}

} // verus!

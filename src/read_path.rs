//! The minimal read path: stored locations projected to what clients read.

use crate::models::{Location, NewLocation};
use crate::normalize::{normalized_from, NewLocationRequest, NormalizedLocation};
use crate::outcome::ResponseStatus;
use vstd::prelude::*;

verus! {

/// A location as the positions endpoint returns it. Floating-point values
/// are held as their IEEE-754 bit patterns.
#[derive(Clone, Copy, Debug, PartialEq, Eq, Structural)]
pub struct LocationRecord {
    pub longitude: u64,
    pub latitude: u64,
    pub horizontal_accuracy: Option<i32>,
    pub vertical_accuracy: Option<i32>,
    pub altitude: Option<i32>,
    /// Seconds since the Unix epoch, UTC.
    pub measurement_time: i64,
}

/// The row that the store holds after inserting `l` under `id`.
pub open spec fn location_of(id: i32, l: NewLocation) -> Location {
    Location {
        id,
        horizontal_accuracy: l.horizontal_accuracy,
        altitude: l.altitude,
        latitude: l.latitude,
        longitude: l.longitude,
        report_trigger: l.report_trigger,
        trigger: l.trigger,
        measurement_time: l.measurement_time,
        vertical_accuracy: l.vertical_accuracy,
        barometric_pressure: l.barometric_pressure,
        topic: l.topic,
        created_at: l.created_at,
        reporting_device: l.reporting_device,
    }
}

/// What the read path returns for a stored row.
pub open spec fn record_of(l: Location) -> LocationRecord {
    LocationRecord {
        longitude: l.longitude,
        latitude: l.latitude,
        horizontal_accuracy: l.horizontal_accuracy,
        vertical_accuracy: l.vertical_accuracy,
        altitude: l.altitude,
        measurement_time: l.measurement_time.secs,
    }
}

impl Location {
    /// The row for `l` once the store gave it `id`.
    pub fn from_new(id: i32, l: NewLocation) -> (r: Location)
        ensures
            r == location_of(id, l),
    {
        Location {
            id,
            horizontal_accuracy: l.horizontal_accuracy,
            altitude: l.altitude,
            latitude: l.latitude,
            longitude: l.longitude,
            report_trigger: l.report_trigger,
            trigger: l.trigger,
            measurement_time: l.measurement_time,
            vertical_accuracy: l.vertical_accuracy,
            barometric_pressure: l.barometric_pressure,
            topic: l.topic,
            created_at: l.created_at,
            reporting_device: l.reporting_device,
        }
    }
}

impl LocationRecord {
    /// Projects a stored row to what the read path returns.
    pub fn from_location(l: &Location) -> (r: LocationRecord)
        ensures
            r == record_of(*l),
    {
        LocationRecord {
            longitude: l.longitude,
            latitude: l.latitude,
            horizontal_accuracy: l.horizontal_accuracy,
            vertical_accuracy: l.vertical_accuracy,
            altitude: l.altitude,
            measurement_time: l.measurement_time.secs,
        }
    }
}

/// How many positions the read path returns at most.
pub const POSITIONS_LIMIT: usize = 100;

/// `rows` are a page of the newest positions of `device`: at most `limit`
/// of them, all reported by `device`, newest measurement first.
pub open spec fn is_latest_page(rows: Seq<Location>, device: i32, limit: nat) -> bool {
    &&& rows.len() <= limit
    &&& forall|i: int| 0 <= i < rows.len() ==> #[trigger] rows[i].reporting_device == device
    &&& forall|i: int, j: int|
        0 <= i < j < rows.len() ==> rows[i].measurement_time.secs >= rows[j].measurement_time.secs
}

/// The records of the newest positions of `device`, from the rows the store
/// returned for them; `None` where the rows are not such a page (too many,
/// of another device, or not newest first).
pub fn latest_positions(rows: &Vec<Location>, device: i32, limit: usize) -> (r: Option<
    Vec<LocationRecord>,
>)
    ensures
        r is Some <==> is_latest_page(rows@, device, limit as nat),
        r is Some ==> r->0@ == rows@.map_values(|l: Location| record_of(l)),
{
    if rows.len() > limit {
        return None;
    }
    let mut out: Vec<LocationRecord> = Vec::new();
    let mut k: usize = 0;
    while k < rows.len()
        invariant
            k <= rows.len() <= limit,
            forall|i: int| 0 <= i < k ==> #[trigger] rows@[i].reporting_device == device,
            forall|i: int, j: int|
                0 <= i < j < k ==> rows@[i].measurement_time.secs >= rows@[j].measurement_time.secs,
            out@ == rows@.subrange(0, k as int).map_values(|l: Location| record_of(l)),
        decreases rows.len() - k,
    {
        let row = &rows[k];
        if row.reporting_device != device {
            return None;
        }
        if k > 0 && rows[k - 1].measurement_time.secs < row.measurement_time.secs {
            return None;
        }
        out.push(LocationRecord::from_location(row));
        assert(rows@.subrange(0, k + 1).map_values(|l: Location| record_of(l)) =~= rows@.subrange(
            0,
            k as int,
        ).map_values(|l: Location| record_of(l)).push(record_of(rows@[k as int])));
        k = k + 1;
    }
    assert(rows@.subrange(0, k as int) =~= rows@);
    Some(out)
}

/// Why reading the latest positions failed.
#[derive(Clone, Copy, Debug, PartialEq, Eq, Structural)]
pub enum ReadFailure {
    /// No store handle could be had in time.
    StoreUnavailable,
    /// The store reported that nothing was found.
    NotFound,
    /// Any other failure of the store.
    Other,
}

/// The status that answers a failed read.
pub fn read_failure_status(f: ReadFailure) -> (s: ResponseStatus)
    ensures
        s == match f {
            ReadFailure::StoreUnavailable => ResponseStatus::ServiceUnavailable,
            ReadFailure::NotFound => ResponseStatus::NotFound,
            ReadFailure::Other => ResponseStatus::InternalServerError,
        },
{
    match f {
        ReadFailure::StoreUnavailable => ResponseStatus::ServiceUnavailable,
        ReadFailure::NotFound => ResponseStatus::NotFound,
        ReadFailure::Other => ResponseStatus::InternalServerError,
    }
}

/// A report written and read back keeps its coordinates and accuracies bit
/// for bit, and its measurement time is the submitted epoch seconds as UTC.
pub proof fn lemma_read_back_round_trip(
    req: NewLocationRequest,
    device: i32,
    n: NormalizedLocation,
    id: i32,
)
    requires
        normalized_from(req, device, n),
    ensures
        ({
            let r = record_of(location_of(id, n.location));
            &&& r.longitude == req.lon_bits
            &&& r.latitude == req.lat_bits
            &&& r.horizontal_accuracy == req.acc
            &&& r.vertical_accuracy == req.vac
            &&& r.altitude == req.alt
            &&& r.measurement_time == req.tst
        }),
{
}

} // verus!

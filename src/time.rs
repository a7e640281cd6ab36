use vstd::prelude::*;

verus! {

/// The earliest second that can be stored: -262143-01-01T00:00:00 UTC.
pub const MIN_EPOCH_SECONDS: i64 = -8_334_601_228_800;

/// The latest second that can be stored: +262142-12-31T23:59:59 UTC.
pub const MAX_EPOCH_SECONDS: i64 = 8_210_266_876_799;

/// Whether a count of seconds since the Unix epoch names a representable instant.
pub open spec fn representable(secs: int) -> bool {
    MIN_EPOCH_SECONDS <= secs <= MAX_EPOCH_SECONDS
}

/// An instant at second resolution, in UTC, as seconds since 1970-01-01T00:00:00Z.
#[derive(Clone, Copy, Debug, PartialEq, Eq, Structural)]
pub struct UtcTime {
    pub secs: i64,
}

impl UtcTime {
    /// Every value built by this library names a representable instant.
    pub open spec fn wf(&self) -> bool {
        representable(self.secs as int)
    }

    /// Reads epoch seconds as an instant in UTC; `None` when the value lies
    /// outside the representable range.
    pub fn from_epoch_seconds(secs: i64) -> (r: Option<UtcTime>)
        ensures
            r is Some <==> representable(secs as int),
            r is Some ==> r->0.secs == secs && r->0.wf(),
    {
        utc_from_timestamp(secs)
    }
}

/// Relies on chrono's `DateTime::<Utc>::from_timestamp(secs, 0)`: it gives a
/// value exactly for the seconds from `DateTime::<Utc>::MIN_UTC` to
/// `DateTime::<Utc>::MAX_UTC`, and `timestamp()` of that value is `secs` again.
#[verifier::external_body]
fn utc_from_timestamp(secs: i64) -> (r: Option<UtcTime>)
    ensures
        r is Some <==> representable(secs as int),
        r is Some ==> r->0.secs == secs,
{
    match chrono::DateTime::from_timestamp(secs, 0) {
        Some(t) => Some(UtcTime { secs: t.timestamp() }),
        None => None,
    }
}

} // verus!

//! The decisions of storing one location report. Storing takes several
//! round trips to the store; each state of the machine names the next one,
//! the caller performs it and hands back what the store answered.

use crate::normalize::{normalize, normalize_error, normalized_from, NewLocationRequest, NormalizedLocation};
use crate::outcome::OwnTracksError;
use vstd::prelude::*;

verus! {

/// What to do when inserting a new access point collides with a row that a
/// concurrent request stored a moment earlier.
#[derive(Clone, Copy, Debug, PartialEq, Eq, Structural)]
pub enum ApRacePolicy {
    /// Look the row up again and use it: the race is not an error.
    Reconcile,
    /// Fail the request with `WiFiAPInformationAlreadyKnown`.
    Report,
}

/// Where the handling of one report stands: the store operation to perform
/// next, or how it ended.
#[derive(Clone, Copy, Debug, PartialEq, Eq, Structural)]
pub enum IngestStep {
    /// Insert the normalised location, obtaining its id.
    InsertLocation,
    /// Look up the access point by its exact (BSSID, SSID) pair.
    FindAccessPoint { location_id: i32, retried: bool },
    /// Set the access point's last-seen time to now; one row must change.
    TouchAccessPoint { location_id: i32, access_point_id: i32 },
    /// Insert the access point with last-seen now, obtaining its id.
    InsertAccessPoint { location_id: i32 },
    /// Insert the link between the location and the access point.
    Associate { location_id: i32, access_point_id: i32 },
    /// All done.
    Stored,
    /// Ended with an error.
    Failed(OwnTracksError),
}

/// What the store answered to an operation.
#[derive(Clone, Copy, Debug, PartialEq, Eq, Structural)]
pub enum StoreEvent {
    /// An insert stored a location and returned its id.
    LocationInserted { id: i32 },
    /// An insert broke a uniqueness constraint.
    UniqueViolation,
    /// Any other failure of the store.
    Failed,
    /// A lookup found an access point with this id.
    AccessPointFound { id: i32 },
    /// A lookup found nothing.
    AccessPointMissing,
    /// An insert stored an access point and returned its id.
    AccessPointInserted { id: i32 },
    /// An insert reported success but returned no row.
    NothingReturned,
    /// An update or insert changed this many rows.
    RowsAffected { count: u64 },
}

/// The step after inserting the location.
pub open spec fn after_location_insert(has_access_point: bool, ev: StoreEvent) -> IngestStep {
    match ev {
        StoreEvent::LocationInserted { id } => if has_access_point {
            IngestStep::FindAccessPoint { location_id: id, retried: false }
        } else {
            IngestStep::Stored
        },
        StoreEvent::UniqueViolation => IngestStep::Failed(OwnTracksError::LocationAlreadyKnown),
        _ => IngestStep::Failed(OwnTracksError::GenericDatabaseError),
    }
}

/// The step after a lookup of the access point.
pub open spec fn after_find(location_id: i32, retried: bool, ev: StoreEvent) -> IngestStep {
    match ev {
        StoreEvent::AccessPointFound { id } => IngestStep::TouchAccessPoint {
            location_id,
            access_point_id: id,
        },
        StoreEvent::AccessPointMissing => if retried {
            IngestStep::Failed(OwnTracksError::GenericDatabaseError)
        } else {
            IngestStep::InsertAccessPoint { location_id }
        },
        _ => IngestStep::Failed(OwnTracksError::GenericDatabaseError),
    }
}

/// The step after refreshing the last-seen time.
pub open spec fn after_touch(location_id: i32, access_point_id: i32, ev: StoreEvent) -> IngestStep {
    match ev {
        StoreEvent::RowsAffected { count } => if count == 1 {
            IngestStep::Associate { location_id, access_point_id }
        } else {
            IngestStep::Failed(OwnTracksError::GenericDatabaseError)
        },
        _ => IngestStep::Failed(OwnTracksError::GenericDatabaseError),
    }
}

/// The step after inserting the access point.
pub open spec fn after_access_point_insert(
    location_id: i32,
    policy: ApRacePolicy,
    ev: StoreEvent,
) -> IngestStep {
    match ev {
        StoreEvent::AccessPointInserted { id } => IngestStep::Associate {
            location_id,
            access_point_id: id,
        },
        StoreEvent::UniqueViolation => match policy {
            ApRacePolicy::Reconcile => IngestStep::FindAccessPoint { location_id, retried: true },
            ApRacePolicy::Report => IngestStep::Failed(
                OwnTracksError::WiFiAPInformationAlreadyKnown,
            ),
        },
        _ => IngestStep::Failed(OwnTracksError::GenericDatabaseError),
    }
}

/// The step after inserting the link: exactly one row must be written.
pub open spec fn after_association(ev: StoreEvent) -> IngestStep {
    match ev {
        StoreEvent::RowsAffected { count } => if count == 1 {
            IngestStep::Stored
        } else {
            IngestStep::Failed(OwnTracksError::GenericDatabaseError)
        },
        _ => IngestStep::Failed(OwnTracksError::GenericDatabaseError),
    }
}

/// The step that follows `step` once the store answered `ev`.
pub open spec fn next_step(
    step: IngestStep,
    has_access_point: bool,
    policy: ApRacePolicy,
    ev: StoreEvent,
) -> IngestStep {
    match step {
        IngestStep::InsertLocation => after_location_insert(has_access_point, ev),
        IngestStep::FindAccessPoint { location_id, retried } => after_find(location_id, retried, ev),
        IngestStep::TouchAccessPoint { location_id, access_point_id } => after_touch(
            location_id,
            access_point_id,
            ev,
        ),
        IngestStep::InsertAccessPoint { location_id } => after_access_point_insert(
            location_id,
            policy,
            ev,
        ),
        IngestStep::Associate { .. } => after_association(ev),
        IngestStep::Stored => IngestStep::Stored,
        IngestStep::Failed(e) => IngestStep::Failed(e),
    }
}

/// Decides the outcome of inserting a location: a uniqueness violation
/// (same device, same measurement time) is a conflict, any other failure a
/// storage error; on success the access point is resolved next, if the
/// report named one.
pub fn location_insert_outcome(has_access_point: bool, ev: StoreEvent) -> (r: IngestStep)
    ensures
        r == after_location_insert(has_access_point, ev),
{
    match ev {
        StoreEvent::LocationInserted { id } => if has_access_point {
            IngestStep::FindAccessPoint { location_id: id, retried: false }
        } else {
            IngestStep::Stored
        },
        StoreEvent::UniqueViolation => IngestStep::Failed(OwnTracksError::LocationAlreadyKnown),
        _ => IngestStep::Failed(OwnTracksError::GenericDatabaseError),
    }
}

/// One decision of resolving an access point to its id: a row found is
/// refreshed, a missing one inserted; an insert that collides with a
/// concurrent one looks the row up once more (or fails, as `policy` says).
pub fn resolve_access_point_step(step: IngestStep, policy: ApRacePolicy, ev: StoreEvent) -> (r:
    IngestStep)
    requires
        step is FindAccessPoint || step is TouchAccessPoint || step is InsertAccessPoint,
    ensures
        r == next_step(step, true, policy, ev),
{
    match step {
        IngestStep::FindAccessPoint { location_id, retried } => match ev {
            StoreEvent::AccessPointFound { id } => IngestStep::TouchAccessPoint {
                location_id,
                access_point_id: id,
            },
            StoreEvent::AccessPointMissing => if retried {
                IngestStep::Failed(OwnTracksError::GenericDatabaseError)
            } else {
                IngestStep::InsertAccessPoint { location_id }
            },
            _ => IngestStep::Failed(OwnTracksError::GenericDatabaseError),
        },
        IngestStep::TouchAccessPoint { location_id, access_point_id } => match ev {
            StoreEvent::RowsAffected { count } => if count == 1 {
                IngestStep::Associate { location_id, access_point_id }
            } else {
                IngestStep::Failed(OwnTracksError::GenericDatabaseError)
            },
            _ => IngestStep::Failed(OwnTracksError::GenericDatabaseError),
        },
        IngestStep::InsertAccessPoint { location_id } => match ev {
            StoreEvent::AccessPointInserted { id } => IngestStep::Associate {
                location_id,
                access_point_id: id,
            },
            StoreEvent::UniqueViolation => match policy {
                ApRacePolicy::Reconcile => IngestStep::FindAccessPoint {
                    location_id,
                    retried: true,
                },
                ApRacePolicy::Report => IngestStep::Failed(
                    OwnTracksError::WiFiAPInformationAlreadyKnown,
                ),
            },
            _ => IngestStep::Failed(OwnTracksError::GenericDatabaseError),
        },
        _ => IngestStep::Failed(OwnTracksError::GenericDatabaseError),
    }
}

/// Decides the outcome of writing the location/access-point link: anything
/// but exactly one row written is a storage error.
pub fn association_outcome(ev: StoreEvent) -> (r: IngestStep)
    ensures
        r == after_association(ev),
{
    match ev {
        StoreEvent::RowsAffected { count } => if count == 1 {
            IngestStep::Stored
        } else {
            IngestStep::Failed(OwnTracksError::GenericDatabaseError)
        },
        _ => IngestStep::Failed(OwnTracksError::GenericDatabaseError),
    }
}

impl IngestStep {
    /// The first step for a report: insert it if it could be normalised,
    /// else fail with a parsing error.
    pub fn start(normalized: bool) -> (r: IngestStep)
        ensures
            r == (if normalized {
                IngestStep::InsertLocation
            } else {
                IngestStep::Failed(OwnTracksError::RequestBodyParsingError)
            }),
    {
        if normalized {
            IngestStep::InsertLocation
        } else {
            IngestStep::Failed(OwnTracksError::RequestBodyParsingError)
        }
    }

    /// The step that follows once the store answered `ev` to this one. A
    /// finished handling stays as it is.
    pub fn advance(self, has_access_point: bool, policy: ApRacePolicy, ev: StoreEvent) -> (r:
        IngestStep)
        ensures
            r == next_step(self, has_access_point, policy, ev),
    {
        match self {
            IngestStep::InsertLocation => location_insert_outcome(has_access_point, ev),
            IngestStep::FindAccessPoint { .. } => resolve_access_point_step(self, policy, ev),
            IngestStep::TouchAccessPoint { .. } => resolve_access_point_step(self, policy, ev),
            IngestStep::InsertAccessPoint { .. } => resolve_access_point_step(self, policy, ev),
            IngestStep::Associate { .. } => association_outcome(ev),
            IngestStep::Stored => IngestStep::Stored,
            IngestStep::Failed(e) => IngestStep::Failed(e),
        }
    }

    /// How the handling ended: `None` while a store operation is pending.
    pub fn outcome(&self) -> (r: Option<Result<(), OwnTracksError>>)
        ensures
            match *self {
                IngestStep::Stored => r == Some(Ok::<(), OwnTracksError>(())),
                IngestStep::Failed(e) => r == Some(Err::<(), OwnTracksError>(e)),
                _ => r is None,
            },
    {
        match self {
            IngestStep::Stored => Some(Ok(())),
            IngestStep::Failed(e) => Some(Err(*e)),
            _ => None,
        }
    }
}

/// Starts handling a location report of `device`: its canonical form, if it
/// has one, and the first step (insert it, or fail with a parsing error).
pub fn handle_new_location_request(req: NewLocationRequest, device: i32) -> (r: (
    Option<NormalizedLocation>,
    IngestStep,
))
    ensures
        match normalize_error(req) {
            Some(_) => r.0 is None && r.1 == IngestStep::Failed(
                OwnTracksError::RequestBodyParsingError,
            ),
            None => r.0 is Some && normalized_from(req, device, r.0->0) && r.1
                == IngestStep::InsertLocation,
        },
{
    match normalize(req, device) {
        Ok(n) => (Some(n), IngestStep::start(true)),
        Err(_) => (None, IngestStep::start(false)),
    }
}

} // verus!

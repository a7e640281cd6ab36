use crate::bssid::{canonical_bssid, fix_owntracks_bssid_error};
use crate::models::NewLocation;
use crate::time::{representable, UtcTime};
use crate::trigger::{trigger_of_code, ReportTrigger};
use vstd::prelude::*;
use vstd::string::*;

verus! {

/// A location report as a client sends it, field by field. Floating-point
/// fields are held as their IEEE-754 bit patterns.
pub struct NewLocationRequest {
    /// Bits of the longitude (`f64`).
    pub lon_bits: u64,
    /// Bits of the latitude (`f64`).
    pub lat_bits: u64,
    /// Measurement time, in seconds since the Unix epoch.
    pub tst: i64,
    pub acc: Option<i32>,
    /// Bits of the barometric pressure (`f64`).
    pub p_bits: Option<u64>,
    pub vac: Option<i32>,
    /// Trigger code.
    pub t: Option<String>,
    pub topic: Option<String>,
    pub alt: Option<i32>,
    /// Tracker id.
    pub tid: Option<String>,
    pub bssid: Option<String>,
    pub ssid: Option<String>,
    /// Creation time, in seconds since the Unix epoch.
    pub created_at: Option<i64>,
}

/// A WiFi access point that a report says was in reach.
pub struct AccessPointEvidence {
    /// In canonical form.
    pub bssid: String,
    pub ssid: String,
}

/// A report in canonical form.
pub struct NormalizedLocation {
    pub location: NewLocation,
    pub access_point: Option<AccessPointEvidence>,
}

/// The field that made a report unusable.
#[derive(Clone, Copy, Debug, PartialEq, Eq, Structural)]
pub enum InvalidField {
    /// `tst` is not a representable instant.
    MeasurementTime,
    /// `created_at` is not a representable instant.
    CreatedAt,
}

/// The topic of a report that names none.
pub open spec fn default_topic() -> Seq<char> {
    seq!['u', 'n', 'k', 'n', 'o', 'w', 'n']
}

/// The code that marks a report without a trigger code.
pub open spec fn unknown_code() -> Seq<char> {
    seq!['?']
}

/// The trigger code stored for a report: the code as sent, or the unknown
/// marker where none was sent.
pub open spec fn code_of_request(t: Option<String>) -> Seq<char> {
    match t {
        Some(code) => code@,
        None => unknown_code(),
    }
}

/// The trigger of a report: an absent code counts as the unknown marker.
pub open spec fn trigger_of_request(t: Option<String>) -> ReportTrigger {
    match t {
        Some(code) => trigger_of_code(code@),
        None => ReportTrigger::UnknownTrigger,
    }
}

/// The error, if any, that normalising a report gives.
pub open spec fn normalize_error(req: NewLocationRequest) -> Option<InvalidField> {
    if !representable(req.tst as int) {
        Some(InvalidField::MeasurementTime)
    } else {
        match req.created_at {
            Some(c) => if representable(c as int) {
                None
            } else {
                Some(InvalidField::CreatedAt)
            },
            None => None,
        }
    }
}

/// `n` is the canonical form of `req` as reported by `device`.
pub open spec fn normalized_from(req: NewLocationRequest, device: i32, n: NormalizedLocation) -> bool {
    let l = n.location;
    &&& l.horizontal_accuracy == req.acc
    &&& l.altitude == req.alt
    &&& l.latitude == req.lat_bits
    &&& l.longitude == req.lon_bits
    &&& l.report_trigger@ == code_of_request(req.t)
    &&& l.trigger == trigger_of_request(req.t)
    &&& l.measurement_time.secs == req.tst
    &&& l.measurement_time.wf()
    &&& l.vertical_accuracy == req.vac
    &&& l.barometric_pressure == req.p_bits
    &&& l.topic@ == (match req.topic {
        Some(t) => t@,
        None => default_topic(),
    })
    &&& (match req.created_at {
        Some(c) => l.created_at is Some && l.created_at->0.secs == c && l.created_at->0.wf(),
        None => l.created_at is None,
    })
    &&& l.reporting_device == device
    &&& (match req.bssid {
        Some(b) => {
            &&& n.access_point is Some
            &&& n.access_point->0.bssid@ == canonical_bssid(b@)
            &&& n.access_point->0.ssid@ == (match req.ssid {
                Some(s) => s@,
                None => Seq::<char>::empty(),
            })
        },
        None => n.access_point is None,
    })
}

/// Turns a report of `device` into canonical form: the measurement and
/// creation times become instants in UTC, the trigger code is kept as sent
/// (`?` where absent) beside the trigger it stands for, an
/// absent topic `unknown`, and a BSSID its canonical form (an absent SSID
/// becomes empty). Fails, naming the field, where a time is not representable.
pub fn normalize(req: NewLocationRequest, device: i32) -> (r: Result<NormalizedLocation, InvalidField>)
    ensures
        match normalize_error(req) {
            Some(e) => r == Err::<NormalizedLocation, InvalidField>(e),
            None => r is Ok && normalized_from(req, device, r->Ok_0),
        },
{
    let measurement_time = match UtcTime::from_epoch_seconds(req.tst) {
        Some(t) => t,
        None => {
            return Err(InvalidField::MeasurementTime);
        },
    };
    let created_at = match req.created_at {
        Some(c) => match UtcTime::from_epoch_seconds(c) {
            Some(t) => Some(t),
            None => {
                return Err(InvalidField::CreatedAt);
            },
        },
        None => None,
    };
    let trigger = match &req.t {
        Some(code) => ReportTrigger::from_code(code.as_str()),
        None => ReportTrigger::UnknownTrigger,
    };
    let report_trigger = match req.t {
        Some(code) => code,
        None => {
            proof {
                reveal_strlit("?");
            }
            let d = <String as StringExecFns>::from_str("?");
            assert(d@ =~= unknown_code());
            d
        },
    };
    let topic = match req.topic {
        Some(t) => t,
        None => {
            proof {
                reveal_strlit("unknown");
            }
            let d = <String as StringExecFns>::from_str("unknown");
            assert(d@ =~= default_topic());
            d
        },
    };
    let access_point = match &req.bssid {
        Some(b) => {
            let ssid = match &req.ssid {
                Some(s) => s.clone(),
                None => String::new(),
            };
            Some(AccessPointEvidence { bssid: fix_owntracks_bssid_error(b.as_str()), ssid })
        },
        None => None,
    };
    let location = NewLocation {
        horizontal_accuracy: req.acc,
        altitude: req.alt,
        latitude: req.lat_bits,
        longitude: req.lon_bits,
        report_trigger,
        trigger,
        measurement_time,
        vertical_accuracy: req.vac,
        barometric_pressure: req.p_bits,
        topic,
        created_at,
        reporting_device: device,
    };
    Ok(NormalizedLocation { location, access_point })
}

} // verus!

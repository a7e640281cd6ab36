use crate::time::UtcTime;
use crate::trigger::ReportTrigger;
use vstd::prelude::*;

verus! {

/// A location fix ready to be stored. Floating-point values are held as
/// their IEEE-754 bit patterns, so they pass through unchanged.
pub struct NewLocation {
    /// Horizontal accuracy in meters.
    pub horizontal_accuracy: Option<i32>,
    /// Altitude in meters.
    pub altitude: Option<i32>,
    /// Bits of the latitude (`f64`).
    pub latitude: u64,
    /// Bits of the longitude (`f64`).
    pub longitude: u64,
    /// The trigger code as the client sent it (`?` where it sent none).
    pub report_trigger: String,
    /// What the trigger code stands for.
    pub trigger: ReportTrigger,
    pub measurement_time: UtcTime,
    /// Vertical accuracy in meters.
    pub vertical_accuracy: Option<i32>,
    /// Bits of the barometric pressure (`f64`).
    pub barometric_pressure: Option<u64>,
    pub topic: String,
    pub created_at: Option<UtcTime>,
    /// The client that reported the fix.
    pub reporting_device: i32,
}

/// A stored location fix, with the id that the store gave it.
pub struct Location {
    pub id: i32,
    pub horizontal_accuracy: Option<i32>,
    pub altitude: Option<i32>,
    pub latitude: u64,
    pub longitude: u64,
    /// The trigger code as the client sent it (`?` where it sent none).
    pub report_trigger: String,
    /// What the trigger code stands for.
    pub trigger: ReportTrigger,
    pub measurement_time: UtcTime,
    pub vertical_accuracy: Option<i32>,
    pub barometric_pressure: Option<u64>,
    pub topic: String,
    pub created_at: Option<UtcTime>,
    pub reporting_device: i32,
}

/// A WiFi access point as stored.
pub struct WifiAccessPoint {
    pub id: i32,
    pub bssid: String,
    pub ssid: String,
    pub last_seen: Option<UtcTime>,
}

/// A WiFi access point to be stored.
pub struct NewWifiAccessPoint {
    pub bssid: String,
    pub ssid: String,
    pub last_seen: Option<UtcTime>,
}

/// Links a stored location to an access point that was seen with it.
#[derive(Clone, Copy, Debug, PartialEq, Eq, Structural)]
pub struct NewLocationToWifiAccessPoint {
    pub location_id: i32,
    pub wifi_access_point_id: i32,
}

/// A client that may submit reports, with its credentials.
pub struct ClientToken {
    pub id: i32,
    pub client: String,
    pub secret: String,
    pub description: Option<String>,
    pub health_callback_url: Option<String>,
}

/// A user that may log in.
pub struct User {
    pub id: i32,
    pub username: String,
    pub password_hash: String,
}

} // verus!

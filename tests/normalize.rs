use thereiwas::bssid::fix_owntracks_bssid_error;
use thereiwas::models::Location;
use thereiwas::normalize::{normalize, InvalidField, NewLocationRequest};
use thereiwas::read_path::{latest_positions, read_failure_status, LocationRecord, ReadFailure, POSITIONS_LIMIT};
use thereiwas::outcome::ResponseStatus;
use thereiwas::time::{UtcTime, MAX_EPOCH_SECONDS, MIN_EPOCH_SECONDS};
use thereiwas::trigger::ReportTrigger;

fn bare(tst: i64) -> NewLocationRequest {
    NewLocationRequest {
        lon_bits: 7.6f64.to_bits(),
        lat_bits: 51.9f64.to_bits(),
        tst,
        acc: None,
        p_bits: None,
        vac: None,
        t: None,
        topic: None,
        alt: None,
        tid: None,
        bssid: None,
        ssid: None,
        created_at: None,
    }
}

#[test]
fn canonicalizes_unpadded_bssid() {
    assert_eq!(fix_owntracks_bssid_error("a:2:c"), "0A:02:0C");
}

#[test]
fn canonical_bssid_is_unchanged() {
    assert_eq!(fix_owntracks_bssid_error("0A:02:0C"), "0A:02:0C");
    let once = fix_owntracks_bssid_error("f:e:1:b0:7:aB");
    assert_eq!(once, "0F:0E:01:B0:07:AB");
    assert_eq!(fix_owntracks_bssid_error(&once), once);
}

#[test]
fn bssid_upper_cased() {
    assert_eq!(fix_owntracks_bssid_error("aa:bb:cc:dd:ee:ff"), "AA:BB:CC:DD:EE:FF");
}

#[test]
fn invalid_bssid_segments_become_zero() {
    assert_eq!(fix_owntracks_bssid_error("zz:1"), "00:01");
    assert_eq!(fix_owntracks_bssid_error(""), "00");
    assert_eq!(fix_owntracks_bssid_error("a::b"), "0A:00:0B");
    assert_eq!(fix_owntracks_bssid_error("100:ff"), "00:FF");
    assert_eq!(fix_owntracks_bssid_error("-1:+a:+"), "00:0A:00");
    assert_eq!(fix_owntracks_bssid_error(" a"), "00");
    assert_eq!(fix_owntracks_bssid_error("000ff"), "FF");
    assert_eq!(fix_owntracks_bssid_error("é:1"), "00:01");
}

#[test]
fn normalizes_full_report() {
    let req = NewLocationRequest {
        lon_bits: 7.6f64.to_bits(),
        lat_bits: 51.9f64.to_bits(),
        tst: 1_700_000_000,
        acc: Some(5),
        p_bits: Some(101.3f64.to_bits()),
        vac: Some(2),
        t: Some("u".to_string()),
        topic: Some("home".to_string()),
        alt: Some(61),
        tid: Some("ab".to_string()),
        bssid: Some("aa:bb:cc:dd:ee:ff".to_string()),
        ssid: Some("HomeNet".to_string()),
        created_at: Some(1_699_999_990),
    };
    let n = normalize(req, 7).unwrap();
    let l = &n.location;
    assert_eq!(f64::from_bits(l.longitude), 7.6);
    assert_eq!(f64::from_bits(l.latitude), 51.9);
    assert_eq!(l.horizontal_accuracy, Some(5));
    assert_eq!(l.vertical_accuracy, Some(2));
    assert_eq!(l.altitude, Some(61));
    assert_eq!(l.barometric_pressure.map(f64::from_bits), Some(101.3));
    assert_eq!(l.report_trigger, "u");
    assert_eq!(l.trigger, ReportTrigger::UserRequest);
    assert_eq!(l.measurement_time, UtcTime { secs: 1_700_000_000 });
    assert_eq!(l.created_at, Some(UtcTime { secs: 1_699_999_990 }));
    assert_eq!(l.topic, "home");
    assert_eq!(l.reporting_device, 7);
    let ap = n.access_point.unwrap();
    assert_eq!(ap.bssid, "AA:BB:CC:DD:EE:FF");
    assert_eq!(ap.ssid, "HomeNet");
}

#[test]
fn defaults_for_absent_fields() {
    let n = normalize(bare(0), 1).unwrap();
    assert_eq!(n.location.topic, "unknown");
    assert_eq!(n.location.report_trigger, "?");
    assert_eq!(n.location.trigger, ReportTrigger::UnknownTrigger);
    assert_eq!(n.location.created_at, None);
    assert!(n.access_point.is_none());
}

#[test]
fn ssid_without_bssid_is_no_evidence_and_missing_ssid_is_empty() {
    let mut req = bare(0);
    req.ssid = Some("Net".to_string());
    assert!(normalize(req, 1).unwrap().access_point.is_none());
    let mut req = bare(0);
    req.bssid = Some("1:2".to_string());
    let ap = normalize(req, 1).unwrap().access_point.unwrap();
    assert_eq!(ap.bssid, "01:02");
    assert_eq!(ap.ssid, "");
}

#[test]
fn measurement_time_range() {
    assert_eq!(UtcTime::from_epoch_seconds(MAX_EPOCH_SECONDS), Some(UtcTime { secs: MAX_EPOCH_SECONDS }));
    assert_eq!(UtcTime::from_epoch_seconds(MIN_EPOCH_SECONDS), Some(UtcTime { secs: MIN_EPOCH_SECONDS }));
    assert_eq!(UtcTime::from_epoch_seconds(MAX_EPOCH_SECONDS + 1), None);
    assert_eq!(UtcTime::from_epoch_seconds(MIN_EPOCH_SECONDS - 1), None);
    assert_eq!(UtcTime::from_epoch_seconds(-1), Some(UtcTime { secs: -1 }));
    assert!(matches!(normalize(bare(MAX_EPOCH_SECONDS + 1), 1), Err(InvalidField::MeasurementTime)));
    assert!(matches!(normalize(bare(i64::MIN), 1), Err(InvalidField::MeasurementTime)));
    assert!(normalize(bare(MAX_EPOCH_SECONDS), 1).is_ok());
}

#[test]
fn created_at_out_of_range_is_an_error() {
    let mut req = bare(0);
    req.created_at = Some(i64::MAX);
    assert!(matches!(normalize(req, 1), Err(InvalidField::CreatedAt)));
}

#[test]
fn read_back_keeps_fields() {
    let n = normalize(
        NewLocationRequest { acc: Some(9), vac: Some(4), alt: Some(-3), ..bare(1_700_000_000) },
        1,
    )
    .unwrap();
    let row = Location::from_new(42, n.location);
    assert_eq!(row.id, 42);
    let r = LocationRecord::from_location(&row);
    assert_eq!(r.longitude, 7.6f64.to_bits());
    assert_eq!(r.latitude, 51.9f64.to_bits());
    assert_eq!(r.horizontal_accuracy, Some(9));
    assert_eq!(r.vertical_accuracy, Some(4));
    assert_eq!(r.altitude, Some(-3));
    assert_eq!(r.measurement_time, 1_700_000_000);
}

#[test]
fn read_failures_map_to_statuses() {
    assert_eq!(read_failure_status(ReadFailure::StoreUnavailable), ResponseStatus::ServiceUnavailable);
    assert_eq!(read_failure_status(ReadFailure::NotFound), ResponseStatus::NotFound);
    assert_eq!(read_failure_status(ReadFailure::Other), ResponseStatus::InternalServerError);
}

#[test]
fn unknown_trigger_code_is_kept_as_sent() {
    let mut req = bare(0);
    req.t = Some("x".to_string());
    let n = normalize(req, 1).unwrap();
    assert_eq!(n.location.report_trigger, "x");
    assert_eq!(n.location.trigger, ReportTrigger::UnknownTrigger);
    let row = Location::from_new(1, n.location);
    assert_eq!(row.report_trigger, "x");
}

fn row(id: i32, device: i32, secs: i64) -> Location {
    let mut n = normalize(bare(secs), device).unwrap();
    n.location.latitude = (id as f64).to_bits();
    Location::from_new(id, n.location)
}

#[test]
fn latest_positions_accepts_newest_first_page() {
    let rows = vec![row(3, 1, 30), row(2, 1, 20), row(1, 1, 20)];
    let r = latest_positions(&rows, 1, 3).unwrap();
    assert_eq!(r.len(), 3);
    assert_eq!(r[0].measurement_time, 30);
    assert_eq!(r[0].latitude, 3.0f64.to_bits());
    assert_eq!(r[2].measurement_time, 20);
    assert_eq!(latest_positions(&Vec::new(), 1, 0).map(|v| v.len()), Some(0));
}

#[test]
fn latest_positions_rejects_bad_pages() {
    assert!(latest_positions(&vec![row(1, 1, 10), row(2, 1, 20)], 1, 5).is_none());
    assert!(latest_positions(&vec![row(1, 1, 10), row(2, 2, 5)], 1, 5).is_none());
    assert!(latest_positions(&vec![row(1, 1, 10), row(2, 1, 5)], 1, 1).is_none());
}

#[test]
fn positions_limit_is_one_hundred() {
    assert_eq!(POSITIONS_LIMIT, 100);
}

use thereiwas::ingest::{
    association_outcome, handle_new_location_request, location_insert_outcome,
    resolve_access_point_step, ApRacePolicy, IngestStep, StoreEvent,
};
use thereiwas::normalize::{NewLocationRequest, NormalizedLocation};
use thereiwas::outcome::{status_for_result, OwnTracksError, ResponseStatus};

/// An in-memory store with the constraints of the real one.
struct FakeStore {
    locations: Vec<(i32, i64)>,
    access_points: Vec<(String, String, i64)>,
    links: Vec<(i32, i32)>,
}

impl FakeStore {
    fn new() -> FakeStore {
        FakeStore { locations: Vec::new(), access_points: Vec::new(), links: Vec::new() }
    }

    fn find(&self, bssid: &str, ssid: &str) -> Option<usize> {
        self.access_points.iter().position(|(b, s, _)| b == bssid && s == ssid)
    }

    fn perform(&mut self, step: IngestStep, n: &NormalizedLocation, now: i64) -> StoreEvent {
        let key = (n.location.reporting_device, n.location.measurement_time.secs);
        match step {
            IngestStep::InsertLocation => {
                if self.locations.contains(&key) {
                    StoreEvent::UniqueViolation
                } else {
                    self.locations.push(key);
                    StoreEvent::LocationInserted { id: self.locations.len() as i32 }
                }
            }
            IngestStep::FindAccessPoint { .. } => {
                let ap = n.access_point.as_ref().unwrap();
                match self.find(&ap.bssid, &ap.ssid) {
                    Some(k) => StoreEvent::AccessPointFound { id: k as i32 + 1 },
                    None => StoreEvent::AccessPointMissing,
                }
            }
            IngestStep::TouchAccessPoint { access_point_id, .. } => {
                let k = access_point_id as usize - 1;
                if k < self.access_points.len() {
                    self.access_points[k].2 = now;
                    StoreEvent::RowsAffected { count: 1 }
                } else {
                    StoreEvent::RowsAffected { count: 0 }
                }
            }
            IngestStep::InsertAccessPoint { .. } => {
                let ap = n.access_point.as_ref().unwrap();
                if self.find(&ap.bssid, &ap.ssid).is_some() {
                    StoreEvent::UniqueViolation
                } else {
                    self.access_points.push((ap.bssid.clone(), ap.ssid.clone(), now));
                    StoreEvent::AccessPointInserted { id: self.access_points.len() as i32 }
                }
            }
            IngestStep::Associate { location_id, access_point_id } => {
                self.links.push((location_id, access_point_id));
                StoreEvent::RowsAffected { count: 1 }
            }
            _ => StoreEvent::Failed,
        }
    }
}

fn request(tst: i64, bssid: Option<&str>, ssid: Option<&str>) -> NewLocationRequest {
    NewLocationRequest {
        lon_bits: 7.6f64.to_bits(),
        lat_bits: 51.9f64.to_bits(),
        tst,
        acc: Some(12),
        p_bits: None,
        vac: Some(3),
        t: Some("u".to_string()),
        topic: Some("home".to_string()),
        alt: Some(60),
        tid: Some("ab".to_string()),
        bssid: bssid.map(|b| b.to_string()),
        ssid: ssid.map(|s| s.to_string()),
        created_at: None,
    }
}

fn submit(store: &mut FakeStore, req: NewLocationRequest, device: i32, now: i64) -> Result<(), OwnTracksError> {
    let has_access_point = req.bssid.is_some();
    let (normalized, mut step) = handle_new_location_request(req, device);
    while step.outcome().is_none() {
        let ev = store.perform(step, normalized.as_ref().unwrap(), now);
        step = step.advance(has_access_point, ApRacePolicy::Reconcile, ev);
    }
    step.outcome().unwrap()
}

#[test]
fn scenario_location_with_access_point_then_resubmission() {
    let mut store = FakeStore::new();
    let first = submit(
        &mut store,
        request(1_700_000_000, Some("aa:bb:cc:dd:ee:ff"), Some("HomeNet")),
        1,
        100,
    );
    assert_eq!(first, Ok(()));
    assert_eq!(status_for_result(first), ResponseStatus::NoContent);
    assert_eq!(store.locations, vec![(1, 1_700_000_000)]);
    assert_eq!(store.access_points.len(), 1);
    assert_eq!(store.access_points[0].0, "AA:BB:CC:DD:EE:FF");
    assert_eq!(store.access_points[0].1, "HomeNet");
    assert_eq!(store.links, vec![(1, 1)]);

    let second = submit(
        &mut store,
        request(1_700_000_000, Some("aa:bb:cc:dd:ee:ff"), Some("HomeNet")),
        1,
        200,
    );
    assert_eq!(second, Err(OwnTracksError::LocationAlreadyKnown));
    assert_eq!(status_for_result(second), ResponseStatus::Conflict);
    assert_eq!(store.locations.len(), 1);
    assert_eq!(store.access_points.len(), 1);
    assert_eq!(store.access_points[0].2, 100);
    assert_eq!(store.links.len(), 1);
}

#[test]
fn same_device_and_time_is_stored_once() {
    let mut store = FakeStore::new();
    assert_eq!(submit(&mut store, request(10, None, None), 4, 0), Ok(()));
    assert_eq!(
        submit(&mut store, request(10, None, None), 4, 0),
        Err(OwnTracksError::LocationAlreadyKnown)
    );
    assert_eq!(store.locations, vec![(4, 10)]);
    // another device at the same instant, and the same device a second later, are new fixes
    assert_eq!(submit(&mut store, request(10, None, None), 5, 0), Ok(()));
    assert_eq!(submit(&mut store, request(11, None, None), 4, 0), Ok(()));
    assert_eq!(store.locations.len(), 3);
}

#[test]
fn resighting_refreshes_last_seen_and_reuses_row() {
    let mut store = FakeStore::new();
    assert_eq!(submit(&mut store, request(1, Some("a:2:c"), None), 1, 50), Ok(()));
    assert_eq!(submit(&mut store, request(2, Some("0A:02:0C"), None), 1, 70), Ok(()));
    assert_eq!(store.access_points, vec![("0A:02:0C".to_string(), String::new(), 70)]);
    assert_eq!(store.links, vec![(1, 1), (2, 1)]);
}

#[test]
fn same_bssid_other_ssid_is_another_access_point() {
    let mut store = FakeStore::new();
    assert_eq!(submit(&mut store, request(1, Some("aa:bb"), Some("x")), 1, 1), Ok(()));
    assert_eq!(submit(&mut store, request(2, Some("AA:BB"), Some("y")), 1, 2), Ok(()));
    assert_eq!(store.access_points.len(), 2);
    assert_eq!(store.links, vec![(1, 1), (2, 2)]);
}

#[test]
fn concurrent_resolutions_share_one_row() {
    // two requests look the pair up before either inserts it
    let mut store = FakeStore::new();
    let (na, _) = handle_new_location_request(request(1, Some("aa:bb:cc:dd:ee:ff"), Some("Net")), 1);
    let (nb, _) = handle_new_location_request(request(2, Some("aa:bb:cc:dd:ee:ff"), Some("Net")), 2);
    let na = na.unwrap();
    let nb = nb.unwrap();
    let p = ApRacePolicy::Reconcile;
    let mut a = IngestStep::FindAccessPoint { location_id: 1, retried: false };
    let mut b = IngestStep::FindAccessPoint { location_id: 2, retried: false };
    a = a.advance(true, p, store.perform(a, &na, 10));
    b = b.advance(true, p, store.perform(b, &nb, 11));
    assert_eq!(a, IngestStep::InsertAccessPoint { location_id: 1 });
    assert_eq!(b, IngestStep::InsertAccessPoint { location_id: 2 });
    b = b.advance(true, p, store.perform(b, &nb, 12));
    assert_eq!(b, IngestStep::Associate { location_id: 2, access_point_id: 1 });
    a = a.advance(true, p, store.perform(a, &na, 13));
    assert_eq!(a, IngestStep::FindAccessPoint { location_id: 1, retried: true });
    a = a.advance(true, p, store.perform(a, &na, 14));
    assert_eq!(a, IngestStep::TouchAccessPoint { location_id: 1, access_point_id: 1 });
    a = a.advance(true, p, store.perform(a, &na, 15));
    assert_eq!(a, IngestStep::Associate { location_id: 1, access_point_id: 1 });
    assert_eq!(store.access_points.len(), 1);
    assert_eq!(store.access_points[0].2, 15);
}

#[test]
fn many_concurrent_resolutions_share_one_row() {
    let mut store = FakeStore::new();
    let p = ApRacePolicy::Reconcile;
    let n: usize = 5;
    let reports: Vec<NormalizedLocation> = (0..n)
        .map(|k| handle_new_location_request(request(k as i64, Some("1:2:3"), Some("S")), 1).0.unwrap())
        .collect();
    let mut steps: Vec<IngestStep> = (0..n)
        .map(|k| IngestStep::FindAccessPoint { location_id: k as i32 + 1, retried: false })
        .collect();
    // round-robin: each resolver performs one operation per round
    let mut now: i64 = 0;
    for _ in 0..6 {
        for k in 0..n {
            if !matches!(steps[k], IngestStep::Associate { .. }) {
                now += 1;
                let ev = store.perform(steps[k], &reports[k], now);
                steps[k] = steps[k].advance(true, p, ev);
            }
        }
    }
    for k in 0..n {
        assert_eq!(steps[k], IngestStep::Associate { location_id: k as i32 + 1, access_point_id: 1 });
    }
    assert_eq!(store.access_points.len(), 1);
    assert_eq!(store.access_points[0].0, "01:02:03");
    assert_eq!(store.access_points[0].2, now);
}

#[test]
fn race_reported_under_report_policy() {
    let step = IngestStep::InsertAccessPoint { location_id: 3 };
    assert_eq!(
        step.advance(true, ApRacePolicy::Report, StoreEvent::UniqueViolation),
        IngestStep::Failed(OwnTracksError::WiFiAPInformationAlreadyKnown)
    );
    assert_eq!(
        step.advance(true, ApRacePolicy::Reconcile, StoreEvent::UniqueViolation),
        IngestStep::FindAccessPoint { location_id: 3, retried: true }
    );
}

#[test]
fn location_insert_outcomes() {
    assert_eq!(
        location_insert_outcome(true, StoreEvent::LocationInserted { id: 9 }),
        IngestStep::FindAccessPoint { location_id: 9, retried: false }
    );
    assert_eq!(location_insert_outcome(false, StoreEvent::LocationInserted { id: 9 }), IngestStep::Stored);
    assert_eq!(
        location_insert_outcome(false, StoreEvent::UniqueViolation),
        IngestStep::Failed(OwnTracksError::LocationAlreadyKnown)
    );
    assert_eq!(
        location_insert_outcome(true, StoreEvent::Failed),
        IngestStep::Failed(OwnTracksError::GenericDatabaseError)
    );
}

#[test]
fn resolver_failures_are_storage_errors() {
    let p = ApRacePolicy::Reconcile;
    let retry = IngestStep::FindAccessPoint { location_id: 1, retried: true };
    assert_eq!(
        resolve_access_point_step(retry, p, StoreEvent::AccessPointMissing),
        IngestStep::Failed(OwnTracksError::GenericDatabaseError)
    );
    let touch = IngestStep::TouchAccessPoint { location_id: 1, access_point_id: 2 };
    assert_eq!(
        resolve_access_point_step(touch, p, StoreEvent::RowsAffected { count: 0 }),
        IngestStep::Failed(OwnTracksError::GenericDatabaseError)
    );
    let insert = IngestStep::InsertAccessPoint { location_id: 1 };
    assert_eq!(
        resolve_access_point_step(insert, p, StoreEvent::NothingReturned),
        IngestStep::Failed(OwnTracksError::GenericDatabaseError)
    );
    assert_eq!(
        resolve_access_point_step(insert, p, StoreEvent::Failed),
        IngestStep::Failed(OwnTracksError::GenericDatabaseError)
    );
}

#[test]
fn association_needs_exactly_one_row() {
    assert_eq!(association_outcome(StoreEvent::RowsAffected { count: 1 }), IngestStep::Stored);
    assert_eq!(
        association_outcome(StoreEvent::RowsAffected { count: 2 }),
        IngestStep::Failed(OwnTracksError::GenericDatabaseError)
    );
    assert_eq!(
        association_outcome(StoreEvent::Failed),
        IngestStep::Failed(OwnTracksError::GenericDatabaseError)
    );
}

#[test]
fn unparseable_time_fails_before_any_store_operation() {
    let (n, step) = handle_new_location_request(request(i64::MAX, None, None), 1);
    assert!(n.is_none());
    assert_eq!(step, IngestStep::Failed(OwnTracksError::RequestBodyParsingError));
    assert_eq!(step.outcome(), Some(Err(OwnTracksError::RequestBodyParsingError)));
    assert_eq!(status_for_result(Err(OwnTracksError::RequestBodyParsingError)), ResponseStatus::UnprocessableEntity);
}

#[test]
fn finished_steps_stay_finished() {
    let p = ApRacePolicy::Reconcile;
    assert_eq!(IngestStep::Stored.advance(true, p, StoreEvent::Failed), IngestStep::Stored);
    let f = IngestStep::Failed(OwnTracksError::LocationAlreadyKnown);
    assert_eq!(f.advance(true, p, StoreEvent::RowsAffected { count: 1 }), f);
    assert_eq!(IngestStep::InsertLocation.outcome(), None);
    assert_eq!(IngestStep::Stored.outcome(), Some(Ok(())));
}

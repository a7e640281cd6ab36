//! A model of the relational store that the ingestion steps run against:
//! three tables, ids handed out in insertion order, and the two uniqueness
//! constraints, (device, measurement time) on locations and (BSSID, SSID)
//! on access points. Rows are never deleted.

use crate::ingest::{next_step, ApRacePolicy, IngestStep, StoreEvent};
use crate::outcome::OwnTracksError;
use vstd::prelude::*;

verus! {

/// A stored access point.
pub struct ApRow {
    pub bssid: Seq<char>,
    pub ssid: Seq<char>,
    pub last_seen: int,
}

/// The store's tables; the row at index `k` has id `k + 1`.
pub struct StoreModel {
    /// (reporting device, measurement time) of each location.
    pub locations: Seq<(int, int)>,
    pub access_points: Seq<ApRow>,
    /// (location id, access point id) of each link.
    pub associations: Seq<(int, int)>,
}

/// What the store operations of one report refer to.
pub struct ReportModel {
    pub device: int,
    pub time: int,
    pub has_access_point: bool,
    pub bssid: Seq<char>,
    pub ssid: Seq<char>,
}

/// The largest id a table can hand out.
pub open spec fn id_limit() -> int {
    0x7fff_ffff
}

pub open spec fn has_location(db: StoreModel, device: int, time: int) -> bool {
    exists|k: int| 0 <= k < db.locations.len() && db.locations[k] == (device, time)
}

pub open spec fn pair_at(db: StoreModel, k: int, bssid: Seq<char>, ssid: Seq<char>) -> bool {
    0 <= k < db.access_points.len() && db.access_points[k].bssid == bssid
        && db.access_points[k].ssid == ssid
}

pub open spec fn has_pair(db: StoreModel, bssid: Seq<char>, ssid: Seq<char>) -> bool {
    exists|k: int| pair_at(db, k, bssid, ssid)
}

/// The tables obey their constraints and their ids fit in an `i32`.
pub open spec fn store_wf(db: StoreModel) -> bool {
    &&& db.locations.len() < id_limit()
    &&& db.access_points.len() < id_limit()
    &&& forall|i: int, j: int|
        0 <= i < j < db.locations.len() ==> db.locations[i] != db.locations[j]
    &&& forall|i: int, j: int|
        #![trigger db.access_points[i], db.access_points[j]]
        0 <= i < j < db.access_points.len() ==> !(db.access_points[i].bssid
            == db.access_points[j].bssid && db.access_points[i].ssid == db.access_points[j].ssid)
}

/// What the store does for `step` of `rep` at time `now`, and what it answers.
pub open spec fn perform(db: StoreModel, step: IngestStep, rep: ReportModel, now: int) -> (
    StoreModel,
    StoreEvent,
) {
    match step {
        IngestStep::InsertLocation => if has_location(db, rep.device, rep.time) {
            (db, StoreEvent::UniqueViolation)
        } else if db.locations.len() + 1 < id_limit() {
            (
                StoreModel { locations: db.locations.push((rep.device, rep.time)), ..db },
                StoreEvent::LocationInserted { id: (db.locations.len() + 1) as i32 },
            )
        } else {
            (db, StoreEvent::Failed)
        },
        IngestStep::FindAccessPoint { .. } => if has_pair(db, rep.bssid, rep.ssid) {
            let k = choose|k: int| pair_at(db, k, rep.bssid, rep.ssid);
            (db, StoreEvent::AccessPointFound { id: (k + 1) as i32 })
        } else {
            (db, StoreEvent::AccessPointMissing)
        },
        IngestStep::TouchAccessPoint { access_point_id, .. } => if 1 <= access_point_id
            <= db.access_points.len() {
            let k = access_point_id - 1;
            (
                StoreModel {
                    access_points: db.access_points.update(
                        k,
                        ApRow { last_seen: now, ..db.access_points[k] },
                    ),
                    ..db
                },
                StoreEvent::RowsAffected { count: 1 },
            )
        } else {
            (db, StoreEvent::RowsAffected { count: 0 })
        },
        IngestStep::InsertAccessPoint { .. } => if has_pair(db, rep.bssid, rep.ssid) {
            (db, StoreEvent::UniqueViolation)
        } else if db.access_points.len() + 1 < id_limit() {
            (
                StoreModel {
                    access_points: db.access_points.push(
                        ApRow { bssid: rep.bssid, ssid: rep.ssid, last_seen: now },
                    ),
                    ..db
                },
                StoreEvent::AccessPointInserted { id: (db.access_points.len() + 1) as i32 },
            )
        } else {
            (db, StoreEvent::Failed)
        },
        IngestStep::Associate { location_id, access_point_id } => (
            StoreModel {
                associations: db.associations.push((location_id as int, access_point_id as int)),
                ..db
            },
            StoreEvent::RowsAffected { count: 1 },
        ),
        _ => (db, StoreEvent::Failed),
    }
}

/// Handles a report from `step` on, for at most `fuel` store operations.
pub open spec fn run(
    db: StoreModel,
    step: IngestStep,
    rep: ReportModel,
    policy: ApRacePolicy,
    now: int,
    fuel: nat,
) -> (StoreModel, IngestStep)
    decreases fuel,
{
    if fuel == 0 || step is Stored || step is Failed {
        (db, step)
    } else {
        let (db2, ev) = perform(db, step, rep, now);
        run(db2, next_step(step, rep.has_access_point, policy, ev), rep, policy, now, (fuel - 1) as nat)
    }
}

proof fn lemma_run_keeps_locations(
    db: StoreModel,
    step: IngestStep,
    rep: ReportModel,
    policy: ApRacePolicy,
    now: int,
    fuel: nat,
)
    requires
        !(step is InsertLocation),
    ensures
        run(db, step, rep, policy, now, fuel).0.locations == db.locations,
    decreases fuel,
{
    if !(fuel == 0 || step is Stored || step is Failed) {
        let (db2, ev) = perform(db, step, rep, now);
        lemma_run_keeps_locations(
            db2,
            next_step(step, rep.has_access_point, policy, ev),
            rep,
            policy,
            now,
            (fuel - 1) as nat,
        );
    }
}

/// A report whose (device, measurement time) the store already holds ends
/// in `LocationAlreadyKnown` and leaves the store as it was: no location,
/// access point or link is added.
pub proof fn lemma_known_location_rejected(
    db: StoreModel,
    rep: ReportModel,
    policy: ApRacePolicy,
    now: int,
)
    requires
        has_location(db, rep.device, rep.time),
    ensures
        run(db, IngestStep::InsertLocation, rep, policy, now, 8) == (
            db,
            IngestStep::Failed(OwnTracksError::LocationAlreadyKnown),
        ),
{
    let (e1, ev) = perform(db, IngestStep::InsertLocation, rep, now);
    assert(ev == StoreEvent::UniqueViolation);
    assert(run(e1, IngestStep::Failed(OwnTracksError::LocationAlreadyKnown), rep, policy, now, 7)
        == (e1, IngestStep::Failed(OwnTracksError::LocationAlreadyKnown)));
}

/// A report is stored at most once: the first submission of a (device,
/// measurement time) pair adds exactly that location, and submitting it
/// again ends in `LocationAlreadyKnown` and leaves the store as it was.
pub proof fn lemma_resubmission_rejected(
    db: StoreModel,
    rep: ReportModel,
    policy: ApRacePolicy,
    now1: int,
    now2: int,
)
    requires
        store_wf(db),
        db.locations.len() + 1 < id_limit(),
        !has_location(db, rep.device, rep.time),
    ensures
        ({
            let (db1, s1) = run(db, IngestStep::InsertLocation, rep, policy, now1, 8);
            let (db2, s2) = run(db1, IngestStep::InsertLocation, rep, policy, now2, 8);
            &&& db1.locations == db.locations.push((rep.device, rep.time))
            &&& s2 == IngestStep::Failed(OwnTracksError::LocationAlreadyKnown)
            &&& db2 == db1
        }),
{
    let (d1, ev) = perform(db, IngestStep::InsertLocation, rep, now1);
    let st = next_step(IngestStep::InsertLocation, rep.has_access_point, policy, ev);
    assert(d1.locations == db.locations.push((rep.device, rep.time)));
    lemma_run_keeps_locations(d1, st, rep, policy, now1, 7);
    let db1 = run(db, IngestStep::InsertLocation, rep, policy, now1, 8).0;
    assert(db1.locations[db.locations.len() as int] == (rep.device, rep.time));
    lemma_known_location_rejected(db1, rep, policy, now2);
}

/// Submitting a new report that names an access point the store does not
/// know, then submitting it again: the first ends stored with exactly one
/// new location, one new access point row for the pair and one link
/// between them; the second ends in `LocationAlreadyKnown` and adds no row
/// of any kind.
pub proof fn lemma_report_then_resubmission(
    db: StoreModel,
    rep: ReportModel,
    policy: ApRacePolicy,
    now1: int,
    now2: int,
)
    requires
        store_wf(db),
        rep.has_access_point,
        !has_location(db, rep.device, rep.time),
        !has_pair(db, rep.bssid, rep.ssid),
        db.locations.len() + 1 < id_limit(),
        db.access_points.len() + 1 < id_limit(),
    ensures
        ({
            let (db1, s1) = run(db, IngestStep::InsertLocation, rep, policy, now1, 8);
            let (db2, s2) = run(db1, IngestStep::InsertLocation, rep, policy, now2, 8);
            &&& s1 == IngestStep::Stored
            &&& db1.locations == db.locations.push((rep.device, rep.time))
            &&& db1.access_points == db.access_points.push(
                ApRow { bssid: rep.bssid, ssid: rep.ssid, last_seen: now1 },
            )
            &&& db1.associations == db.associations.push(
                (db.locations.len() + 1 as int, db.access_points.len() + 1 as int),
            )
            &&& s2 == IngestStep::Failed(OwnTracksError::LocationAlreadyKnown)
            &&& db2 == db1
        }),
{
    lemma_new_report_stored(db, rep, policy, now1);
    let db1 = run(db, IngestStep::InsertLocation, rep, policy, now1, 8).0;
    assert(db1.locations[db.locations.len() as int] == (rep.device, rep.time));
    lemma_known_location_rejected(db1, rep, policy, now2);
}

/// A report naming an access point that the store does not know yet ends
/// stored, with exactly one new location, one new access point row (last
/// seen now) and one link between the two.
pub proof fn lemma_new_report_stored(db: StoreModel, rep: ReportModel, policy: ApRacePolicy, now: int)
    requires
        store_wf(db),
        rep.has_access_point,
        !has_location(db, rep.device, rep.time),
        !has_pair(db, rep.bssid, rep.ssid),
        db.locations.len() + 1 < id_limit(),
        db.access_points.len() + 1 < id_limit(),
    ensures
        ({
            let (db1, s1) = run(db, IngestStep::InsertLocation, rep, policy, now, 8);
            let location_id = db.locations.len() + 1 as int;
            let access_point_id = db.access_points.len() + 1 as int;
            &&& s1 == IngestStep::Stored
            &&& db1.locations == db.locations.push((rep.device, rep.time))
            &&& db1.access_points == db.access_points.push(
                ApRow { bssid: rep.bssid, ssid: rep.ssid, last_seen: now },
            )
            &&& db1.associations == db.associations.push((location_id, access_point_id))
        }),
{
    let l = (db.locations.len() + 1) as i32;
    let a = (db.access_points.len() + 1) as i32;
    let (d1, e1) = perform(db, IngestStep::InsertLocation, rep, now);
    assert(e1 == StoreEvent::LocationInserted { id: l });
    let s1 = IngestStep::FindAccessPoint { location_id: l, retried: false };
    assert(next_step(IngestStep::InsertLocation, true, policy, e1) == s1);
    assert(d1.access_points == db.access_points);
    assert(!has_pair(d1, rep.bssid, rep.ssid)) by {
        if has_pair(d1, rep.bssid, rep.ssid) {
            let w = choose|w: int| pair_at(d1, w, rep.bssid, rep.ssid);
            assert(pair_at(db, w, rep.bssid, rep.ssid));
        }
    }
    let (d2, e2) = perform(d1, s1, rep, now);
    assert(e2 == StoreEvent::AccessPointMissing);
    let s2 = IngestStep::InsertAccessPoint { location_id: l };
    let (d3, e3) = perform(d2, s2, rep, now);
    assert(e3 == StoreEvent::AccessPointInserted { id: a });
    let s3 = IngestStep::Associate { location_id: l, access_point_id: a };
    let (d4, e4) = perform(d3, s3, rep, now);
    assert(e4 == StoreEvent::RowsAffected { count: 1 });
    assert(run(d4, IngestStep::Stored, rep, policy, now, 4) == (d4, IngestStep::Stored));
    assert(run(d3, s3, rep, policy, now, 5) == (d4, IngestStep::Stored));
    assert(run(d2, s2, rep, policy, now, 6) == (d4, IngestStep::Stored));
    assert(run(d1, s1, rep, policy, now, 7) == (d4, IngestStep::Stored));
}

/// A report naming an access point that the store already holds (at index
/// `k`) ends stored, with exactly one new location and one new link to that
/// row, whose last-seen time becomes now; no access point row is added.
pub proof fn lemma_known_access_point_reused(
    db: StoreModel,
    rep: ReportModel,
    policy: ApRacePolicy,
    now: int,
    k: int,
)
    requires
        store_wf(db),
        rep.has_access_point,
        !has_location(db, rep.device, rep.time),
        db.locations.len() + 1 < id_limit(),
        pair_at(db, k, rep.bssid, rep.ssid),
    ensures
        ({
            let (db1, s1) = run(db, IngestStep::InsertLocation, rep, policy, now, 8);
            &&& s1 == IngestStep::Stored
            &&& db1.locations == db.locations.push((rep.device, rep.time))
            &&& db1.access_points == db.access_points.update(
                k,
                ApRow { last_seen: now, ..db.access_points[k] },
            )
            &&& db1.associations == db.associations.push((db.locations.len() + 1 as int, k + 1))
        }),
{
    let l = (db.locations.len() + 1) as i32;
    let (d1, e1) = perform(db, IngestStep::InsertLocation, rep, now);
    assert(e1 == StoreEvent::LocationInserted { id: l });
    let s1 = IngestStep::FindAccessPoint { location_id: l, retried: false };
    assert(d1.access_points == db.access_points);
    assert(pair_at(d1, k, rep.bssid, rep.ssid));
    let w = choose|w: int| pair_at(d1, w, rep.bssid, rep.ssid);
    if w < k {
        assert(!(db.access_points[w].bssid == db.access_points[k].bssid
            && db.access_points[w].ssid == db.access_points[k].ssid));
    } else if k < w {
        assert(!(db.access_points[k].bssid == db.access_points[w].bssid
            && db.access_points[k].ssid == db.access_points[w].ssid));
    }
    assert(w == k);
    let (d2, e2) = perform(d1, s1, rep, now);
    assert(e2 == StoreEvent::AccessPointFound { id: (k + 1) as i32 });
    let s2 = IngestStep::TouchAccessPoint { location_id: l, access_point_id: (k + 1) as i32 };
    assert(next_step(s1, true, policy, e2) == s2);
    let (d3, e3) = perform(d2, s2, rep, now);
    assert(e3 == StoreEvent::RowsAffected { count: 1 });
    let s3 = IngestStep::Associate { location_id: l, access_point_id: (k + 1) as i32 };
    let (d4, e4) = perform(d3, s3, rep, now);
    assert(run(d4, IngestStep::Stored, rep, policy, now, 4) == (d4, IngestStep::Stored));
    assert(run(d3, s3, rep, policy, now, 5) == (d4, IngestStep::Stored));
    assert(run(d2, s2, rep, policy, now, 6) == (d4, IngestStep::Stored));
    assert(run(d1, s1, rep, policy, now, 7) == (d4, IngestStep::Stored));
}

/// What a resolver of `rep`'s access point may assume of the store at
/// `step`: a retried lookup follows a collision, so the row exists; an id
/// about to be refreshed or linked is that of the row; no resolver fails.
pub open spec fn resolver_consistent(db: StoreModel, rep: ReportModel, step: IngestStep) -> bool {
    match step {
        IngestStep::FindAccessPoint { retried, .. } => retried ==> has_pair(db, rep.bssid, rep.ssid),
        IngestStep::TouchAccessPoint { access_point_id, .. } => pair_at(
            db,
            access_point_id - 1,
            rep.bssid,
            rep.ssid,
        ),
        IngestStep::InsertAccessPoint { .. } => true,
        IngestStep::Associate { access_point_id, .. } => pair_at(
            db,
            access_point_id - 1,
            rep.bssid,
            rep.ssid,
        ),
        IngestStep::Stored => true,
        _ => false,
    }
}

/// How many store operations a resolver at `step` needs at most before it
/// holds the access point's id.
pub open spec fn resolver_rank(step: IngestStep) -> nat {
    match step {
        IngestStep::FindAccessPoint { retried, .. } => if retried {
            2
        } else {
            4
        },
        IngestStep::InsertAccessPoint { .. } => 3,
        IngestStep::TouchAccessPoint { .. } => 1,
        _ => 0,
    }
}

/// The state that concurrent resolvers of one (BSSID, SSID) pair keep: the
/// store is well formed, it has room for the pair's row unless it already
/// holds it, and each resolver is consistent with it.
pub open spec fn resolvers_inv(db: StoreModel, rep: ReportModel, steps: Seq<IngestStep>) -> bool {
    &&& store_wf(db)
    &&& rep.has_access_point
    &&& (has_pair(db, rep.bssid, rep.ssid) || db.access_points.len() + 1 < id_limit())
    &&& forall|j: int| 0 <= j < steps.len() ==> resolver_consistent(db, rep, #[trigger] steps[j])
}

/// Resolvers of one pair that started with a lookup are in a consistent state.
pub proof fn lemma_resolvers_start(db: StoreModel, rep: ReportModel, steps: Seq<IngestStep>)
    requires
        store_wf(db),
        rep.has_access_point,
        has_pair(db, rep.bssid, rep.ssid) || db.access_points.len() + 1 < id_limit(),
        forall|j: int|
            0 <= j < steps.len() ==> (#[trigger] steps[j] matches IngestStep::FindAccessPoint {
                retried: false,
                ..
            }),
    ensures
        resolvers_inv(db, rep, steps),
{
}

/// Concurrent resolution of one (BSSID, SSID) pair is safe under any
/// interleaving: whichever resolver performs its next store operation, the
/// store keeps at most one row for the pair, no resolver fails, the one
/// that moved gets closer to holding the id, and a refresh or insert sets
/// the row's last-seen time to that operation's time.
pub proof fn lemma_concurrent_resolution_step(
    db: StoreModel,
    rep: ReportModel,
    steps: Seq<IngestStep>,
    i: int,
    now: int,
)
    requires
        resolvers_inv(db, rep, steps),
        0 <= i < steps.len(),
        !(steps[i] is Stored),
    ensures
        ({
            let (db2, ev) = perform(db, steps[i], rep, now);
            let next = next_step(steps[i], true, ApRacePolicy::Reconcile, ev);
            &&& resolvers_inv(db2, rep, steps.update(i, next))
            &&& !(steps[i] is Associate) ==> resolver_rank(next) < resolver_rank(steps[i])
            &&& (steps[i] is TouchAccessPoint || ev is AccessPointInserted) ==> (held_id(next) is Some
                && db2.access_points[held_id(next)->0 - 1].last_seen == now)
            &&& db2.locations == db.locations
        }),
{
    let step = steps[i];
    let (db2, ev) = perform(db, step, rep, now);
    let next = next_step(step, true, ApRacePolicy::Reconcile, ev);
    let steps2 = steps.update(i, next);
    assert(resolver_consistent(db, rep, step));
    match step {
        IngestStep::FindAccessPoint { .. } => {
            if has_pair(db, rep.bssid, rep.ssid) {
                let k = choose|k: int| pair_at(db, k, rep.bssid, rep.ssid);
                assert(((k + 1) as i32) as int == k + 1);
            }
            assert forall|j: int| 0 <= j < steps2.len() implies resolver_consistent(
                db2,
                rep,
                #[trigger] steps2[j],
            ) by {
                if j != i {
                    assert(resolver_consistent(db, rep, steps[j]));
                }
            }
        },
        IngestStep::TouchAccessPoint { access_point_id, .. } => {
            let k = access_point_id - 1;
            assert(pair_at(db2, k, rep.bssid, rep.ssid));
            assert forall|j: int| 0 <= j < steps2.len() implies resolver_consistent(
                db2,
                rep,
                #[trigger] steps2[j],
            ) by {
                if j != i {
                    let sj = steps[j];
                    assert(resolver_consistent(db, rep, sj));
                    if has_pair(db, rep.bssid, rep.ssid) {
                        let w = choose|w: int| pair_at(db, w, rep.bssid, rep.ssid);
                        assert(pair_at(db2, w, rep.bssid, rep.ssid));
                    }
                    match sj {
                        IngestStep::TouchAccessPoint { access_point_id: a, .. } => {
                            assert(pair_at(db2, a - 1, rep.bssid, rep.ssid));
                        },
                        IngestStep::Associate { access_point_id: a, .. } => {
                            assert(pair_at(db2, a - 1, rep.bssid, rep.ssid));
                        },
                        _ => {},
                    }
                }
            }
            assert(has_pair(db2, rep.bssid, rep.ssid));
        },
        IngestStep::InsertAccessPoint { .. } => {
            if has_pair(db, rep.bssid, rep.ssid) {
            } else {
                let n = db.access_points.len() as int;
                assert(pair_at(db2, n, rep.bssid, rep.ssid));
                assert(((n + 1) as i32) as int == n + 1);
                assert forall|a: int, b: int|
                    #![trigger db2.access_points[a], db2.access_points[b]]
                    0 <= a < b < db2.access_points.len() implies !(db2.access_points[a].bssid
                        == db2.access_points[b].bssid && db2.access_points[a].ssid
                        == db2.access_points[b].ssid) by {
                    if b == n {
                        if db2.access_points[a].bssid == rep.bssid && db2.access_points[a].ssid
                            == rep.ssid {
                            assert(pair_at(db, a, rep.bssid, rep.ssid));
                        }
                    } else {
                        assert(db2.access_points[a] == db.access_points[a]);
                        assert(db2.access_points[b] == db.access_points[b]);
                    }
                }
            }
            assert(has_pair(db2, rep.bssid, rep.ssid));
            assert forall|j: int| 0 <= j < steps2.len() implies resolver_consistent(
                db2,
                rep,
                #[trigger] steps2[j],
            ) by {
                if j != i {
                    let sj = steps[j];
                    assert(resolver_consistent(db, rep, sj));
                    match sj {
                        IngestStep::TouchAccessPoint { access_point_id: a, .. } => {
                            assert(db2.access_points[a - 1] == db.access_points[a - 1]);
                        },
                        IngestStep::Associate { access_point_id: a, .. } => {
                            assert(db2.access_points[a - 1] == db.access_points[a - 1]);
                        },
                        _ => {},
                    }
                }
            }
        },
        IngestStep::Associate { .. } => {
            assert(db2.access_points == db.access_points);
            if has_pair(db, rep.bssid, rep.ssid) {
                let w = choose|w: int| pair_at(db, w, rep.bssid, rep.ssid);
                assert(pair_at(db2, w, rep.bssid, rep.ssid));
            }
            assert forall|j: int| 0 <= j < steps2.len() implies resolver_consistent(
                db2,
                rep,
                #[trigger] steps2[j],
            ) by {
                if j != i {
                    assert(resolver_consistent(db, rep, steps[j]));
                }
            }
        },
        _ => {},
    }
}

/// One store operation of resolver `who`, performed at time `at`.
pub struct Turn {
    pub who: int,
    pub at: int,
}

/// Concurrent resolvers of one pair performing their store operations in
/// the order of `turns`; a resolver that already holds the id does nothing
/// on its turn. Gives the store, the resolvers, and the time of the last
/// operation that refreshed or inserted the access point row, if any.
pub open spec fn run_resolvers(
    db: StoreModel,
    rep: ReportModel,
    steps: Seq<IngestStep>,
    turns: Seq<Turn>,
) -> (StoreModel, Seq<IngestStep>, Option<int>)
    decreases turns.len(),
{
    if turns.len() == 0 {
        (db, steps, None)
    } else {
        let (db1, st1, last) = run_resolvers(db, rep, steps, turns.drop_last());
        let t = turns.last();
        if 0 <= t.who < st1.len() && !(st1[t.who] is Associate) {
            let s = st1[t.who];
            let (db2, ev) = perform(db1, s, rep, t.at);
            (
                db2,
                st1.update(t.who, next_step(s, true, ApRacePolicy::Reconcile, ev)),
                if s is TouchAccessPoint || ev is AccessPointInserted {
                    Some(t.at)
                } else {
                    last
                },
            )
        } else {
            (db1, st1, last)
        }
    }
}

/// How many turns resolver `i` has in `turns`.
pub open spec fn turns_of(turns: Seq<Turn>, i: int) -> nat
    decreases turns.len(),
{
    if turns.len() == 0 {
        0
    } else {
        turns_of(turns.drop_last(), i) + if turns.last().who == i {
            1nat
        } else {
            0nat
        }
    }
}

/// What holds after any prefix of a schedule of concurrent resolvers.
pub open spec fn schedule_inv(
    db: StoreModel,
    rep: ReportModel,
    n: int,
    turns: Seq<Turn>,
    cur: StoreModel,
    steps: Seq<IngestStep>,
    last: Option<int>,
) -> bool {
    &&& steps.len() == n
    &&& resolvers_inv(cur, rep, steps)
    &&& forall|i: int| 0 <= i < n ==> !(#[trigger] steps[i] is Stored)
    &&& forall|i: int|
        0 <= i < n ==> (#[trigger] steps[i] is Associate || resolver_rank(steps[i]) + turns_of(
            turns,
            i,
        ) <= 4)
    &&& db.access_points.len() <= cur.access_points.len()
    &&& forall|k: int|
        0 <= k < db.access_points.len() ==> (#[trigger] cur.access_points[k]).bssid
            == db.access_points[k].bssid && cur.access_points[k].ssid == db.access_points[k].ssid
    &&& cur.access_points.len() == db.access_points.len() + if !has_pair(db, rep.bssid, rep.ssid)
        && has_pair(cur, rep.bssid, rep.ssid) {
        1int
    } else {
        0int
    }
    &&& cur.locations == db.locations
    &&& (last matches Some(t) ==> exists|k: int|
        pair_at(cur, k, rep.bssid, rep.ssid) && cur.access_points[k].last_seen == t)
}

proof fn lemma_schedule_inv(
    db: StoreModel,
    rep: ReportModel,
    steps0: Seq<IngestStep>,
    turns: Seq<Turn>,
)
    requires
        resolvers_inv(db, rep, steps0),
        forall|j: int|
            0 <= j < steps0.len() ==> (#[trigger] steps0[j] matches IngestStep::FindAccessPoint {
                retried: false,
                ..
            }),
    ensures
        ({
            let (cur, steps, last) = run_resolvers(db, rep, steps0, turns);
            schedule_inv(db, rep, steps0.len() as int, turns, cur, steps, last)
        }),
    decreases turns.len(),
{
    let n = steps0.len() as int;
    if turns.len() == 0 {
        assert forall|i: int| 0 <= i < n implies (#[trigger] steps0[i] is Associate
            || resolver_rank(steps0[i]) + turns_of(turns, i) <= 4) by {
            assert(steps0[i] matches IngestStep::FindAccessPoint { retried: false, .. });
        }
        assert forall|i: int| 0 <= i < n implies !(#[trigger] steps0[i] is Stored) by {
            assert(steps0[i] matches IngestStep::FindAccessPoint { retried: false, .. });
        }
        return;
    }
    let pre = turns.drop_last();
    lemma_schedule_inv(db, rep, steps0, pre);
    let (db1, st1, last1) = run_resolvers(db, rep, steps0, pre);
    let t = turns.last();
    assert forall|i: int| i != t.who implies turns_of(turns, i) == turns_of(pre, i) by {}
    if 0 <= t.who < st1.len() && !(st1[t.who] is Associate) {
        let w = t.who;
        let s = st1[w];
        let (db2, ev) = perform(db1, s, rep, t.at);
        let nx = next_step(s, true, ApRacePolicy::Reconcile, ev);
        let st2 = st1.update(w, nx);
        lemma_concurrent_resolution_step(db1, rep, st1, w, t.at);
        assert(resolver_consistent(db1, rep, s));
        // rows keep their pair, and the pair's presence only grows
        assert forall|k: int| 0 <= k < db1.access_points.len() implies (
        #[trigger] db2.access_points[k]).bssid == db1.access_points[k].bssid
            && db2.access_points[k].ssid == db1.access_points[k].ssid by {}
        if has_pair(db1, rep.bssid, rep.ssid) {
            let q = choose|q: int| pair_at(db1, q, rep.bssid, rep.ssid);
            assert(pair_at(db2, q, rep.bssid, rep.ssid));
        }
        if has_pair(db, rep.bssid, rep.ssid) {
            let q = choose|q: int| pair_at(db, q, rep.bssid, rep.ssid);
            assert(pair_at(db1, q, rep.bssid, rep.ssid));
        }
        assert(db2.access_points.len() == db1.access_points.len() + if ev is AccessPointInserted {
            1int
        } else {
            0int
        });
        if ev is AccessPointInserted {
            assert(!has_pair(db1, rep.bssid, rep.ssid));
        }
        assert(nx != IngestStep::Stored);
        assert forall|i: int| 0 <= i < n implies !(#[trigger] st2[i] is Stored) by {}
        assert forall|i: int| 0 <= i < n implies (#[trigger] st2[i] is Associate || resolver_rank(
            st2[i],
        ) + turns_of(turns, i) <= 4) by {
            if i != w {
                assert(st2[i] == st1[i]);
            }
        }
        let refreshed = s is TouchAccessPoint || ev is AccessPointInserted;
        if refreshed {
            let k = held_id(nx)->0 - 1;
            assert(resolver_consistent(db2, rep, st2[w]));
            assert(pair_at(db2, k, rep.bssid, rep.ssid));
        } else {
            assert(db2.access_points == db1.access_points);
            if last1 is Some {
                let k = choose|k: int|
                    pair_at(db1, k, rep.bssid, rep.ssid) && db1.access_points[k].last_seen
                        == last1->0;
                assert(pair_at(db2, k, rep.bssid, rep.ssid));
            }
        }
    }
}

/// N resolutions of one (BSSID, SSID) pair, started together and with
/// their store operations interleaved in any order: no resolution fails;
/// every resolver that had four turns holds an id; all ids held are that
/// of the pair's one and only row; at most that one row is added; and the
/// row was last seen at the time of the last refresh or insert.
pub proof fn lemma_concurrent_resolution(
    db: StoreModel,
    rep: ReportModel,
    steps0: Seq<IngestStep>,
    turns: Seq<Turn>,
)
    requires
        store_wf(db),
        rep.has_access_point,
        has_pair(db, rep.bssid, rep.ssid) || db.access_points.len() + 1 < id_limit(),
        forall|j: int|
            0 <= j < steps0.len() ==> (#[trigger] steps0[j] matches IngestStep::FindAccessPoint {
                retried: false,
                ..
            }),
    ensures
        ({
            let (cur, steps, last) = run_resolvers(db, rep, steps0, turns);
            &&& steps.len() == steps0.len()
            &&& forall|i: int| 0 <= i < steps.len() ==> !(#[trigger] steps[i] is Failed)
            &&& forall|i: int|
                0 <= i < steps.len() && turns_of(turns, i) >= 4 ==> #[trigger] held_id(steps[i]) is Some
            &&& forall|i: int|
                #![trigger held_id(steps[i])]
                0 <= i < steps.len() && held_id(steps[i]) is Some ==> pair_at(
                    cur,
                    held_id(steps[i])->0 - 1,
                    rep.bssid,
                    rep.ssid,
                ) && forall|k: int|
                    pair_at(cur, k, rep.bssid, rep.ssid) ==> k == held_id(steps[i])->0 - 1
            &&& cur.access_points.len() <= db.access_points.len() + 1
            &&& has_pair(db, rep.bssid, rep.ssid) ==> cur.access_points.len()
                == db.access_points.len()
            &&& cur.locations == db.locations
            &&& (last matches Some(t) ==> exists|k: int|
                pair_at(cur, k, rep.bssid, rep.ssid) && cur.access_points[k].last_seen == t)
        }),
{
    lemma_resolvers_start(db, rep, steps0);
    lemma_schedule_inv(db, rep, steps0, turns);
    let (cur, steps, last) = run_resolvers(db, rep, steps0, turns);
    assert forall|i: int| 0 <= i < steps.len() implies !(#[trigger] steps[i] is Failed) by {
        assert(resolver_consistent(cur, rep, steps[i]));
    }
    assert forall|i: int|
        0 <= i < steps.len() && turns_of(turns, i) >= 4 implies #[trigger] held_id(
        steps[i],
    ) is Some by {
        assert(resolver_consistent(cur, rep, steps[i]));
    }
    assert forall|i: int|
        #![trigger held_id(steps[i])]
        0 <= i < steps.len() && held_id(steps[i]) is Some implies pair_at(
            cur,
            held_id(steps[i])->0 - 1,
            rep.bssid,
            rep.ssid,
        ) && forall|k: int|
            pair_at(cur, k, rep.bssid, rep.ssid) ==> k == held_id(steps[i])->0 - 1 by {
        lemma_resolved_row_unique(cur, rep, steps, i);
    }
    if has_pair(db, rep.bssid, rep.ssid) {
        let q = choose|q: int| pair_at(db, q, rep.bssid, rep.ssid);
        assert(pair_at(cur, q, rep.bssid, rep.ssid));
    }
}

/// The access point id that a resolver at `step` holds, if any.
pub open spec fn held_id(step: IngestStep) -> Option<int> {
    match step {
        IngestStep::Associate { access_point_id, .. } => Some(access_point_id as int),
        _ => None,
    }
}

/// A resolver that holds an id holds that of the pair's one and only row.
pub proof fn lemma_resolved_row_unique(
    db: StoreModel,
    rep: ReportModel,
    steps: Seq<IngestStep>,
    i: int,
)
    requires
        resolvers_inv(db, rep, steps),
        0 <= i < steps.len(),
        held_id(steps[i]) is Some,
    ensures
        pair_at(db, held_id(steps[i])->0 - 1, rep.bssid, rep.ssid),
        forall|k: int| pair_at(db, k, rep.bssid, rep.ssid) ==> k == held_id(steps[i])->0 - 1,
{
    assert(resolver_consistent(db, rep, steps[i]));
    let a = held_id(steps[i])->0 - 1;
    assert forall|k: int| pair_at(db, k, rep.bssid, rep.ssid) implies k == a by {
        if k < a {
            assert(!(db.access_points[k].bssid == db.access_points[a].bssid
                && db.access_points[k].ssid == db.access_points[a].ssid));
        } else if a < k {
            assert(!(db.access_points[a].bssid == db.access_points[k].bssid
                && db.access_points[a].ssid == db.access_points[k].ssid));
        }
    }
}

/// Consistent resolvers of one pair that hold an id all hold the same one.
pub proof fn lemma_resolvers_agree(
    db: StoreModel,
    rep: ReportModel,
    steps: Seq<IngestStep>,
    i: int,
    j: int,
)
    requires
        resolvers_inv(db, rep, steps),
        0 <= i < steps.len(),
        0 <= j < steps.len(),
        held_id(steps[i]) is Some,
        held_id(steps[j]) is Some,
    ensures
        held_id(steps[i]) == held_id(steps[j]),
{
    lemma_resolved_row_unique(db, rep, steps, i);
    lemma_resolved_row_unique(db, rep, steps, j);
}

} // verus!

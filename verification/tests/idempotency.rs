use mcp_multi_tool::clock::Timestamp;
use mcp_multi_tool::idempotency::{
    build_timeout_event, is_stale, render_timeout_message, ClaimOutcome, IdempotencyStore,
    InFlightRecord,
};
use mcp_multi_tool::types::{CallRequest, InspectionRunEvent, TargetDescriptor};
use time::OffsetDateTime;
use uuid::Uuid;

fn empty_object() -> serde_json::Value {
    serde_json::Value::Object(serde_json::Map::new())
}

fn stamp(moment: OffsetDateTime) -> Timestamp {
    Timestamp::from_unix_nanos(moment.unix_timestamp_nanos()).expect("instant in range")
}

fn dummy_event() -> InspectionRunEvent {
    InspectionRunEvent {
        event_id: Uuid::new_v4(),
        run_id: Uuid::new_v4(),
        tool_name: "dummy".into(),
        state: "captured".into(),
        started_at: "2025-01-01T00:00:00Z".into(),
        duration_ms: 42,
        target: Some(TargetDescriptor {
            transport: "stdio".into(),
            command: Some("dummy".into()),
            url: None,
            headers: None,
        }),
        request: None,
        response: None,
        error: None,
        idempotency_key: None,
        external_reference: None,
    }
}

fn demo_request(key: &str) -> CallRequest {
    CallRequest {
        tool_name: "demo".into(),
        arguments_json: empty_object(),
        idempotency_key: Some(key.into()),
        external_reference: Some("ext-demo".into()),
        stream: false,
        stdio: None,
        sse: None,
        http: None,
    }
}

#[test]
fn idempotency_state_machine() {
    let mut store = IdempotencyStore::new();
    let key = "k1";
    match store.claim(key) {
        ClaimOutcome::Accepted => {}
        _ => panic!("expected Accepted"),
    }
    match store.claim(key) {
        ClaimOutcome::InFlight => {}
        _ => panic!("expected InFlight"),
    }
    store.complete(key, dummy_event());
    match store.claim(key) {
        ClaimOutcome::Completed(event) => {
            assert_eq!(event.tool_name, "dummy");
        }
        ClaimOutcome::InFlight => panic!("expected completion"),
        ClaimOutcome::Accepted => panic!("claim should not be accepted twice"),
    }
}

#[test]
fn idempotency_concurrency_one_winner() {
    let mut store = IdempotencyStore::new();
    let key = "race-key";
    let mut accepted = 0;
    for _ in 0..16 {
        match store.claim(key) {
            ClaimOutcome::Accepted => accepted += 1,
            ClaimOutcome::InFlight => {}
            ClaimOutcome::Completed(_) => {}
        }
    }
    assert_eq!(accepted, 1, "only one caller should win the claim");
    store.complete(key, dummy_event());
    match store.claim(key) {
        ClaimOutcome::Completed(_) => {}
        ClaimOutcome::InFlight => panic!("run still in-flight after completion"),
        ClaimOutcome::Accepted => panic!("claim reopened unexpectedly"),
    }
}

#[test]
fn single_winner_per_claim_sequence() {
    // claims and completions in every order of length five: never two winners
    for pattern in 0u32..32 {
        let mut store = IdempotencyStore::new();
        let mut accepted = 0u32;
        for step in 0..5 {
            if pattern & (1 << step) == 0 {
                if let ClaimOutcome::Accepted = store.claim("prop-key") {
                    accepted += 1;
                }
            } else {
                store.complete("prop-key", dummy_event());
            }
        }
        assert!(accepted <= 1);
    }
}

#[test]
fn external_reference_deduplicates() {
    let mut store = IdempotencyStore::new();
    let mut event = dummy_event();
    event.external_reference = Some("ext-1".into());
    store.record_external_ref("ext-1", event.clone());
    let duplicate = store.find_external_ref("ext-1");
    assert!(duplicate.is_some());
    let fetched = duplicate.unwrap();
    assert_eq!(fetched.external_reference.as_deref(), Some("ext-1"));
}

#[test]
fn reap_expired_prunes_external_refs() {
    let mut store = IdempotencyStore::new();
    let mut event = dummy_event();
    event.external_reference = Some("ext-prune".into());
    store.record_external_ref_at("ext-prune", event, 1_000);
    let now = stamp(OffsetDateTime::now_utc());
    // exactly one millisecond later the record is as old as the limit and stays
    let reaped = store.reap_expired_at(1_000_000, 1_001_000, &now);
    assert!(reaped.is_empty());
    assert!(store.find_external_ref("ext-prune").is_some());
    // five milliseconds later it is older and leaves
    store.reap_expired_at(1_000_000, 5_001_000, &now);
    assert!(store.find_external_ref("ext-prune").is_none());
}

#[test]
fn reaper_emits_failure_event() {
    let mut store = IdempotencyStore::new();
    let key = "reaper-key";
    let request = demo_request(key);

    assert!(matches!(store.claim(key), ClaimOutcome::Accepted));
    let run_id = Uuid::new_v4();
    store.begin(key, run_id, &request, Some(empty_object()));
    let started_at = OffsetDateTime::now_utc() - time::Duration::milliseconds(10);
    store.mark_started(key, stamp(started_at));
    store.set_target(
        key,
        TargetDescriptor {
            transport: "stdio".into(),
            command: Some("demo".into()),
            url: None,
            headers: None,
        },
    );

    let reaped = store.reap_expired(0, &stamp(OffsetDateTime::now_utc()));
    assert_eq!(reaped.len(), 1);
    let event = &reaped[0].event;
    assert_eq!(event.tool_name, "demo");
    assert_eq!(event.state, "failed");
    assert!(event.error.as_ref().unwrap().contains("timed out"));
    assert_eq!(event.external_reference.as_deref(), Some("ext-demo"));

    match store.claim(key) {
        ClaimOutcome::Completed(saved) => {
            assert_eq!(saved.tool_name, "demo");
        }
        _ => panic!("expected completed outcome"),
    }

    // ensure external reference recorded
    let existing = store
        .find_external_ref("ext-demo")
        .expect("external reference recorded");
    assert_eq!(existing.tool_name, "demo");
}

#[test]
fn timeout_event_is_exact() {
    let run_id = Uuid::new_v4();
    let started = Timestamp::from_unix_nanos(1_700_000_000_000_000_000).unwrap();
    let now = Timestamp::from_unix_nanos(1_700_000_002_500_000_000).unwrap();
    let record = InFlightRecord {
        claimed_at: 1_000_000_000,
        run_id: Some(run_id),
        request: Some(demo_request("k")),
        snapshot: Some(serde_json::Value::String("snapshot".into())),
        target: Some(TargetDescriptor {
            transport: "http".into(),
            command: None,
            url: Some("http://localhost".into()),
            headers: None,
        }),
        started_at: Some(started),
    };
    let event = build_timeout_event("k", &record, 4_250_000_000, &now).expect("reapable");
    assert_eq!(event.run_id, run_id);
    assert_ne!(event.event_id, run_id);
    assert_eq!(event.tool_name, "demo");
    assert_eq!(event.state, "failed");
    assert_eq!(
        event.started_at,
        OffsetDateTime::from_unix_timestamp_nanos(1_700_000_000_000_000_000)
            .unwrap()
            .to_string()
    );
    assert_eq!(event.duration_ms, 2_500);
    assert_eq!(event.target.as_ref().unwrap().transport, "http");
    assert_eq!(
        event.target.as_ref().unwrap().url.as_deref(),
        Some("http://localhost")
    );
    assert_eq!(event.request, Some(serde_json::Value::String("snapshot".into())));
    assert_eq!(event.response, None);
    assert_eq!(
        event.error.as_deref(),
        Some("run timed out after 3250 ms (idempotency key k)")
    );
    assert_eq!(event.idempotency_key.as_deref(), Some("k"));
    assert_eq!(event.external_reference.as_deref(), Some("ext-demo"));
}

#[test]
fn timeout_event_without_start_uses_the_sweep_instant() {
    let now = Timestamp::from_unix_nanos(5_000_000).unwrap();
    let mut record = InFlightRecord::new(10);
    record.run_id = Some(Uuid::new_v4());
    record.request = Some(demo_request("k"));
    let event = build_timeout_event("k", &record, 5, &now).expect("reapable");
    assert_eq!(event.duration_ms, 0);
    assert_eq!(event.started_at, now.as_text());
    // the monotonic clock reads earlier than the claim: no time has passed
    assert_eq!(
        event.error.as_deref(),
        Some("run timed out after 0 ms (idempotency key k)")
    );
    // a start that lies after the sweep gives no negative duration
    record.started_at = Some(Timestamp::from_unix_nanos(9_000_000).unwrap());
    let late = build_timeout_event("k", &record, 5, &now).expect("reapable");
    assert_eq!(late.duration_ms, 0);
}

#[test]
fn timeout_event_needs_run_and_request() {
    let now = Timestamp::from_unix_nanos(0).unwrap();
    let bare = InFlightRecord::new(0);
    assert!(build_timeout_event("k", &bare, 10, &now).is_none());
    let mut only_run = InFlightRecord::new(0);
    only_run.run_id = Some(Uuid::new_v4());
    assert!(build_timeout_event("k", &only_run, 10, &now).is_none());
    let mut only_request = InFlightRecord::new(0);
    only_request.request = Some(demo_request("k"));
    assert!(build_timeout_event("k", &only_request, 10, &now).is_none());
}

#[test]
fn timeout_message_and_staleness() {
    assert_eq!(
        render_timeout_message(0, ""),
        "run timed out after 0 ms (idempotency key )"
    );
    assert_eq!(
        render_timeout_message(18_446_744_073_709_551_615, "a b"),
        "run timed out after 18446744073709551615 ms (idempotency key a b)"
    );
    assert!(!is_stale(10, 5, 15));
    assert!(is_stale(10, 5, 16));
    assert!(!is_stale(10, 0, 10));
    assert!(!is_stale(10, 0, 3));
    assert!(is_stale(0, u64::MAX - 1, u64::MAX));
}

#[test]
fn sweep_keeps_drops_and_reaps() {
    let mut store = IdempotencyStore::new();
    let now = Timestamp::from_unix_nanos(1_000_000_000).unwrap();
    // fresh claim: kept
    store.claim_at("fresh", 900);
    // stale claim without metadata: dropped without an event
    store.claim_at("bare", 100);
    // stale claim with metadata: reaped
    store.claim_at("full", 100);
    store.begin("full", Uuid::new_v4(), &demo_request("full"), None);
    // completed records: the old one leaves, the young one stays
    store.complete_at("done-old", dummy_event(), 100);
    store.complete_at("done-young", dummy_event(), 900);

    let reaped = store.reap_expired_at(500, 1_000, &now);
    assert_eq!(reaped.len(), 1);
    assert_eq!(reaped[0].idempotency_key, "full");
    assert_eq!(reaped[0].event.state, "failed");

    assert!(matches!(store.claim_at("fresh", 1_000), ClaimOutcome::InFlight));
    assert!(matches!(store.claim_at("done-young", 1_000), ClaimOutcome::Completed(_)));
    match store.claim_at("full", 1_000) {
        ClaimOutcome::Completed(event) => assert_eq!(event.event_id, reaped[0].event.event_id),
        _ => panic!("expected the synthetic failure"),
    }
    // freed keys are accepted anew
    assert!(matches!(store.claim_at("bare", 1_000), ClaimOutcome::Accepted));
    assert!(matches!(store.claim_at("done-old", 1_000), ClaimOutcome::Accepted));
    // the reaped event is indexed under its external reference
    let indexed = store.find_external_ref("ext-demo").expect("indexed");
    assert_eq!(indexed.event_id, reaped[0].event.event_id);

    // a second sweep at the same instant finds nothing to do
    let again = store.reap_expired_at(500, 1_000, &now);
    assert!(again.is_empty());
}

#[test]
fn metadata_is_attached_only_to_claims_in_flight() {
    let mut store = IdempotencyStore::new();
    let now = Timestamp::from_unix_nanos(0).unwrap();
    // nothing is claimed, so nothing is attached and nothing appears
    store.begin("ghost", Uuid::new_v4(), &demo_request("ghost"), None);
    store.mark_started("ghost", Timestamp::from_unix_nanos(0).unwrap());
    store.set_target(
        "ghost",
        TargetDescriptor { transport: "stdio".into(), command: None, url: None, headers: None },
    );
    assert!(matches!(store.claim_at("ghost", 0), ClaimOutcome::Accepted));
    // a completed record is left alone
    store.complete_at("done", dummy_event(), 0);
    store.begin("done", Uuid::new_v4(), &demo_request("done"), None);
    match store.claim_at("done", 0) {
        ClaimOutcome::Completed(event) => assert_eq!(event.tool_name, "dummy"),
        _ => panic!("expected completion"),
    }
    // the claim of "ghost" carries no metadata, so a sweep drops it silently
    let reaped = store.reap_expired_at(0, 10, &now);
    assert!(reaped.is_empty());
}

#[test]
fn completion_indexes_the_external_reference() {
    let mut store = IdempotencyStore::new();
    let mut event = dummy_event();
    event.external_reference = Some("ext-9".into());
    let id = event.event_id;
    store.complete("k9", event);
    assert_eq!(store.find_external_ref("ext-9").unwrap().event_id, id);
    assert!(store.find_external_ref("ext-other").is_none());
    // a later event under the same reference replaces the earlier one
    let mut later = dummy_event();
    later.external_reference = Some("ext-9".into());
    let later_id = later.event_id;
    store.record_external_ref("ext-9", later);
    assert_eq!(store.find_external_ref("ext-9").unwrap().event_id, later_id);
}

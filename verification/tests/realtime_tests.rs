use application_server::ids::UtcTimestamp;
use application_server::realtime::{
    InMemoryRealtimeEventLog, RealtimeCursor, RealtimeEventInput, RealtimeEventLog, RealtimeHub,
};
use application_server::sse::{realtime_cursor, StreamGate};

fn input(event_type: &str, n: i64) -> RealtimeEventInput {
    RealtimeEventInput {
        event_type: event_type.to_string(),
        app_id: Some("test".to_string()),
        run_id: None,
        job_id: None,
        correlation_id: None,
        actor: None,
        payload: serde_json::Value::from(n),
    }
}

#[test]
fn replays_events_after_sequence_cursor() {
    let mut hub = RealtimeHub::new(8);
    hub.publish(input("test.first", 1));
    hub.publish(input("test.second", 2));

    let replay = hub.replay_after(&RealtimeCursor { since_sequence: Some(1), last_event_id: None });

    assert_eq!(replay.len(), 1);
    assert_eq!(replay[0].event_type, "test.second");
}

#[test]
fn new_subscribers_only_receive_live_events_without_cursor() {
    let mut hub = RealtimeHub::new(8);
    hub.publish(input("test.existing", 1));

    let replay = hub.replay_after(&RealtimeCursor::default());

    assert!(replay.is_empty());
}

#[test]
fn appends_published_events_to_event_log() {
    let mut hub = RealtimeHub::with_event_log(8, InMemoryRealtimeEventLog::new());
    let mut event = input("test.logged", 1);
    event.run_id = Some("run-1".to_string());
    event.job_id = Some("job-1".to_string());
    hub.publish(event);

    let events = hub.event_log().snapshot();
    assert_eq!(events.len(), 1);
    assert_eq!(events[0].event_type, "test.logged");
    assert_eq!(events[0].sequence, 1);
}

#[test]
fn published_events_are_numbered_and_stamped() {
    let mut hub = RealtimeHub::new(4);
    let at = UtcTimestamp { seconds: 1_700_000_000, nanos: 5 };
    let first = hub.publish_at(input("a", 1), at);
    let second = hub.publish_at(input("b", 2), at);
    assert_eq!(first.sequence, 1);
    assert_eq!(second.sequence, 2);
    assert_eq!(first.event_id, "1");
    assert_eq!(second.event_id, "2");
    assert_eq!(second.schema_version, 1);
    assert_eq!(second.occurred_at, at);
    assert_eq!(second.payload, serde_json::Value::from(2));
}

#[test]
fn replay_window_keeps_only_the_latest_events() {
    let mut hub = RealtimeHub::new(2);
    for n in 1..=5 {
        hub.publish(input("tick", n));
    }
    let replay = hub.replay_after(&RealtimeCursor { since_sequence: Some(0), last_event_id: None });
    let sequences: Vec<u64> = replay.iter().map(|e| e.sequence).collect();
    assert_eq!(sequences, vec![4, 5]);
}

#[test]
fn zero_capacity_hub_replays_nothing_but_still_logs() {
    let mut hub = RealtimeHub::new(0);
    hub.publish(input("tick", 1));
    assert!(hub.replay_after(&RealtimeCursor { since_sequence: Some(0), last_event_id: None }).is_empty());
    assert_eq!(hub.event_log().snapshot().len(), 1);
}

#[test]
fn last_event_id_resumes_like_its_sequence() {
    let mut hub = RealtimeHub::new(8);
    for n in 1..=4 {
        hub.publish(input("tick", n));
    }
    let by_id = hub.replay_after(&RealtimeCursor { since_sequence: None, last_event_id: Some("2".to_string()) });
    let by_seq = hub.replay_after(&RealtimeCursor { since_sequence: Some(2), last_event_id: None });
    let ids: Vec<u64> = by_id.iter().map(|e| e.sequence).collect();
    assert_eq!(ids, vec![3, 4]);
    assert_eq!(by_id.len(), by_seq.len());
    let unknown = hub.replay_after(&RealtimeCursor { since_sequence: None, last_event_id: Some("not-a-number".to_string()) });
    assert!(unknown.is_empty());
}

#[test]
fn explicit_sequence_wins_over_last_event_id() {
    let mut hub = RealtimeHub::new(8);
    for n in 1..=3 {
        hub.publish(input("tick", n));
    }
    let replay = hub.replay_after(&RealtimeCursor { since_sequence: Some(2), last_event_id: Some("0".to_string()) });
    assert_eq!(replay.len(), 1);
    assert_eq!(replay[0].sequence, 3);
}

#[test]
fn in_memory_log_appends_copies() {
    let mut hub = RealtimeHub::new(1);
    let e = hub.publish(input("x", 7));
    let mut log = InMemoryRealtimeEventLog::new();
    assert!(log.append(&e).is_ok());
    assert!(log.append(&e).is_ok());
    assert_eq!(log.snapshot().len(), 2);
}

#[test]
fn stream_cursor_prefers_query_over_header() {
    let c = realtime_cursor(Some(3), Some("7".to_string()), Some("9".to_string()));
    assert_eq!(c.since_sequence, Some(3));
    assert_eq!(c.last_event_id.as_deref(), Some("7"));
    let c = realtime_cursor(None, None, Some("9".to_string()));
    assert_eq!(c.last_event_id.as_deref(), Some("9"));
}

#[test]
fn stream_gate_never_delivers_an_event_twice() {
    let mut hub = RealtimeHub::new(8);
    hub.publish(input("a", 1));
    hub.publish(input("b", 2));
    let replay = hub.replay_after(&RealtimeCursor { since_sequence: Some(0), last_event_id: None });
    let mut gate = StreamGate::after_replay(&replay);
    assert_eq!(gate.last_sequence, 2);
    assert!(!gate.pass(2));
    assert!(!gate.pass(1));
    assert!(gate.pass(3));
    assert!(!gate.pass(3));
    assert_eq!(gate.last_sequence, 3);
    let empty = StreamGate::after_replay(&Vec::new());
    assert_eq!(empty.last_sequence, 0);
}

use pulsevoice::connection::{admit_event, finish_read};
use pulsevoice::session::SessionManager;
use pulsevoice::connection::{check_schema_version, event_marker, read_outcome_marker, transcript_to_read};
use pulsevoice::daemon_error::DaemonError;
use pulsevoice::event::{SessionId, TurnId};
use pulsevoice::session::DedupVerdict;
use pulsevoice::source::{ProbeOutcome, ReadVerdict, TurnDigest, TurnRead};
use pulsevoice::wire::{WireError, WireEvent, WireEventKind};

fn read(verdict: ReadVerdict) -> TurnRead {
    TurnRead { digest: TurnDigest::new("d"), verdict, read_offset: 0 }
}

#[test]
fn schema_gate_accepts_only_current_version() {
    assert!(check_schema_version(1).is_ok());
    match check_schema_version(2) {
        Err(DaemonError::SchemaVersion { envelope, daemon }) => {
            assert_eq!(envelope, 2);
            assert_eq!(daemon, 1);
        }
        other => panic!("expected SchemaVersion, got {other:?}"),
    }
}

#[test]
fn only_new_turn_completions_with_a_path_read() {
    let ev = WireEvent::new(WireEventKind::TurnComplete {
        session_id: SessionId::new("s"),
        turn_id: TurnId::new("t"),
        transcript_path: Some("/tmp/t.jsonl".to_string()),
    });
    assert_eq!(transcript_to_read(&ev, DedupVerdict::New).map(|p| p.as_str()), Some("/tmp/t.jsonl"));
    assert!(transcript_to_read(&ev, DedupVerdict::Duplicate).is_none());
    let empty = WireEvent::new(WireEventKind::TurnComplete {
        session_id: SessionId::new("s"),
        turn_id: TurnId::new("t"),
        transcript_path: Some(String::new()),
    });
    assert!(transcript_to_read(&empty, DedupVerdict::New).is_none());
}

#[test]
fn read_outcomes_mark_drift_and_truncation() {
    let drift = ProbeOutcome::Drift { detail: "bad".to_string() };
    assert_eq!(read_outcome_marker(&drift, &read(ReadVerdict::Settled)).as_deref(), Some("bad"));
    assert_eq!(
        read_outcome_marker(&ProbeOutcome::Matched, &read(ReadVerdict::Truncated)).as_deref(),
        Some("truncated transcript (size regression)")
    );
    assert!(read_outcome_marker(&ProbeOutcome::Matched, &read(ReadVerdict::Settled)).is_none());
    assert!(read_outcome_marker(&ProbeOutcome::Matched, &read(ReadVerdict::SettledAtBound)).is_none());
}

#[test]
fn degraded_events_carry_their_marker() {
    let ev = WireEvent::new(WireEventKind::HookDegraded { reason: "why".to_string(), session_id: None });
    assert_eq!(event_marker(&ev).map(|s| s.as_str()), Some("why"));
    let hint = WireEvent::new(WireEventKind::AttentionHint {
        session_id: SessionId::new("s"),
        event_id: "e".to_string(),
        raw_kind: "notification".to_string(),
        transcript_path: None,
    });
    assert!(event_marker(&hint).is_none());
}

#[test]
fn truncations_become_short_frames() {
    let e = DaemonError::from_wire(WireError::TruncatedBody { claimed: 1000000, have: 4 });
    assert!(e.is_short_frame());
    match e {
        DaemonError::ShortFrame { detail } => {
            assert_eq!(detail, "incomplete body: length prefix says 1000000 bytes, have 4")
        }
        other => panic!("expected ShortFrame, got {other:?}"),
    }
    let p = DaemonError::from_wire(WireError::TruncatedPrefix { need: 4, have: 0 });
    match p {
        DaemonError::ShortFrame { detail } => assert_eq!(detail, "incomplete length prefix: need 4 bytes, have 0"),
        other => panic!("expected ShortFrame, got {other:?}"),
    }
    let json = serde_json::from_str::<serde_json::Value>("{").unwrap_err();
    assert!(!DaemonError::from_wire(WireError::Json(json)).is_short_frame());
}

#[test]
fn admission_gates_the_schema_before_recording() {
    let mut mgr = SessionManager::new();
    let mut ev = WireEvent::new(WireEventKind::TurnComplete {
        session_id: SessionId::new("s"),
        turn_id: TurnId::new("t"),
        transcript_path: Some("/tmp/t.jsonl".to_string()),
    });
    ev.schema_version = 9;
    assert!(matches!(admit_event(&mut mgr, &ev), Err(DaemonError::SchemaVersion { envelope: 9, daemon: 1 })));
    assert!(mgr.is_empty());
    ev.schema_version = 1;
    let a = admit_event(&mut mgr, &ev).expect("admitted");
    assert_eq!(a.verdict, DedupVerdict::New);
    assert_eq!(a.read_path.as_deref(), Some("/tmp/t.jsonl"));
    assert_eq!(a.last_read_offset, None);
    assert!(a.marker.is_none());
    let again = admit_event(&mut mgr, &ev).expect("admitted");
    assert_eq!(again.verdict, DedupVerdict::Duplicate);
    assert!(again.read_path.is_none());
}

#[test]
fn finishing_a_read_stores_the_offset_and_picks_the_marker() {
    let mut mgr = SessionManager::new();
    let turn = |t: &str| WireEvent::new(WireEventKind::TurnComplete {
        session_id: SessionId::new("s"),
        turn_id: TurnId::new(t),
        transcript_path: Some("/tmp/t.jsonl".to_string()),
    });
    admit_event(&mut mgr, &turn("t1")).expect("admitted");
    let marker = finish_read(&mut mgr, &SessionId::new("s"), &ProbeOutcome::Matched, &TurnRead {
        digest: TurnDigest::new("d"),
        verdict: ReadVerdict::Settled,
        read_offset: 120,
    });
    assert!(marker.is_none());
    let a = admit_event(&mut mgr, &turn("t2")).expect("admitted");
    assert_eq!(a.last_read_offset, Some(120));
    let marker = finish_read(&mut mgr, &SessionId::new("s"), &ProbeOutcome::Matched, &read(ReadVerdict::Truncated));
    assert_eq!(marker.as_deref(), Some("truncated transcript (size regression)"));
    let degraded = WireEvent::new(WireEventKind::HookDegraded { reason: "why".to_string(), session_id: None });
    assert_eq!(admit_event(&mut mgr, &degraded).expect("admitted").marker.as_deref(), Some("why"));
}

#[test]
fn wire_errors_convert_through_from() {
    let e: DaemonError = WireError::TruncatedPrefix { need: 4, have: 1 }.into();
    match e {
        DaemonError::ShortFrame { detail } => assert_eq!(detail, "incomplete length prefix: need 4 bytes, have 1"),
        other => panic!("expected ShortFrame, got {other:?}"),
    }
}

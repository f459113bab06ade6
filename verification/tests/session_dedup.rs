use pulsevoice::event::{SessionId, TurnId};
use pulsevoice::session::{DedupVerdict, SessionManager, SessionState};
use pulsevoice::wire::{WireEvent, WireEventKind};

fn turn(session: &str, turn: &str) -> WireEvent {
    WireEvent::new(WireEventKind::TurnComplete {
        session_id: SessionId::new(session),
        turn_id: TurnId::new(turn),
        transcript_path: None,
    })
}

fn hint(session: &str, event_id: &str, path: Option<&str>) -> WireEvent {
    WireEvent::new(WireEventKind::AttentionHint {
        session_id: SessionId::new(session),
        event_id: event_id.to_string(),
        raw_kind: "notification".to_string(),
        transcript_path: path.map(|p| p.to_string()),
    })
}

#[test]
fn new_manager_is_empty() {
    let mgr = SessionManager::new();
    assert!(mgr.is_empty());
    assert_eq!(mgr.len(), 0);
}

#[test]
fn receipt_seq_increments_on_new_events() {
    let mut mgr = SessionManager::new();
    mgr.record(&turn("s", "t1"));
    mgr.record(&turn("s", "t2"));
    let state = mgr.get(&SessionId::new("s")).expect("session tracked");
    assert_eq!(state.receipt_seq, 2);
    assert_eq!(state.last_event_id.as_deref(), Some("t2"));
}

#[test]
fn same_event_id_twice_yields_new_then_duplicate() {
    let mut mgr = SessionManager::new();
    let v1 = mgr.record(&turn("s1", "t1"));
    assert_eq!(v1, DedupVerdict::New, "first delivery is New");
    let v2 = mgr.record(&turn("s1", "t1"));
    assert_eq!(v2, DedupVerdict::Duplicate, "retry is Duplicate");
    let v3 = mgr.record(&turn("s1", "t1"));
    assert_eq!(v3, DedupVerdict::Duplicate);
    let v4 = mgr.record(&turn("s1", "t2"));
    assert_eq!(v4, DedupVerdict::New);
}

#[test]
fn two_sessions_same_event_id_both_new() {
    let mut mgr = SessionManager::new();
    let v1 = mgr.record(&turn("s1", "t1"));
    let v2 = mgr.record(&turn("s2", "t1"));
    assert_eq!(v1, DedupVerdict::New);
    assert_eq!(v2, DedupVerdict::New);
    let v3 = mgr.record(&turn("s1", "t1"));
    assert_eq!(v3, DedupVerdict::Duplicate);
    let v4 = mgr.record(&turn("s2", "t1"));
    assert_eq!(v4, DedupVerdict::Duplicate);
}

#[test]
fn receipt_seq_advances_only_on_new() {
    let mut mgr = SessionManager::new();
    mgr.record(&turn("s", "t1"));
    mgr.record(&turn("s", "t1"));
    mgr.record(&turn("s", "t1"));
    mgr.record(&turn("s", "t2"));
    mgr.record(&turn("s", "t3"));
    let state = mgr.get(&SessionId::new("s")).expect("session tracked");
    assert_eq!(state.receipt_seq, 3);
    assert_eq!(state.last_event_id.as_deref(), Some("t3"));
}

#[test]
fn distinct_sessions_tracked_independently() {
    let mut mgr = SessionManager::new();
    mgr.record(&turn("alpha", "t1"));
    mgr.record(&turn("beta", "t9"));
    mgr.record(&turn("alpha", "t1"));
    assert_eq!(mgr.len(), 2, "two distinct sessions tracked");
    let alpha = mgr.get(&SessionId::new("alpha")).expect("alpha tracked");
    let beta = mgr.get(&SessionId::new("beta")).expect("beta tracked");
    assert_eq!(alpha.receipt_seq, 1, "alpha: one new event, one dup");
    assert_eq!(beta.receipt_seq, 1, "beta: one new event");
    assert_eq!(alpha.last_event_id.as_deref(), Some("t1"));
    assert_eq!(beta.last_event_id.as_deref(), Some("t9"));
}

#[test]
fn attention_hint_keeps_transcript_path_and_dedups() {
    let mut mgr = SessionManager::new();
    assert_eq!(mgr.record(&hint("s", "e1", Some("/tmp/t.jsonl"))), DedupVerdict::New);
    assert_eq!(mgr.record(&hint("s", "e1", Some("/tmp/other"))), DedupVerdict::Duplicate);
    assert_eq!(mgr.record(&hint("s", "e2", None)), DedupVerdict::New);
    let st = mgr.get(&SessionId::new("s")).expect("tracked");
    assert_eq!(st.transcript_path.as_deref(), Some("/tmp/t.jsonl"));
    assert_eq!(st.last_event_id.as_deref(), Some("e2"));
    assert_eq!(st.receipt_seq, 2);
}

#[test]
fn turn_complete_path_is_not_kept_in_session() {
    let mut mgr = SessionManager::new();
    let ev = WireEvent::new(WireEventKind::TurnComplete {
        session_id: SessionId::new("s"),
        turn_id: TurnId::new("t"),
        transcript_path: Some("/tmp/x".to_string()),
    });
    mgr.record(&ev);
    assert_eq!(mgr.get(&SessionId::new("s")).expect("tracked").transcript_path, None);
}

#[test]
fn degraded_event_is_always_new_and_tracks_session() {
    let mut mgr = SessionManager::new();
    let ev = WireEvent::new(WireEventKind::HookDegraded {
        reason: "no session_id in payload".to_string(),
        session_id: Some(SessionId::new("s9")),
    });
    assert_eq!(mgr.record(&ev), DedupVerdict::New);
    assert_eq!(mgr.record(&ev), DedupVerdict::New);
    assert_eq!(mgr.len(), 1);
    let st = mgr.get(&SessionId::new("s9")).expect("tracked");
    assert_eq!(st.receipt_seq, 0);
    assert_eq!(st.last_event_id, None);
    let anonymous = WireEvent::new(WireEventKind::HookDegraded { reason: "x".to_string(), session_id: None });
    assert_eq!(mgr.record(&anonymous), DedupVerdict::New);
    assert_eq!(mgr.len(), 1);
}

#[test]
fn read_offset_is_stored_for_tracked_sessions_only() {
    let mut mgr = SessionManager::new();
    assert!(!mgr.record_read_offset(&SessionId::new("s"), 10));
    assert!(mgr.is_empty());
    mgr.record(&turn("s", "t1"));
    assert!(mgr.record_read_offset(&SessionId::new("s"), 42));
    let st = mgr.get(&SessionId::new("s")).expect("tracked");
    assert_eq!(st.last_read_offset, Some(42));
    assert_eq!(st.receipt_seq, 1);
    assert_eq!(st.last_event_id.as_deref(), Some("t1"));
}

#[test]
fn untracked_session_is_absent() {
    let mgr = SessionManager::new();
    assert!(mgr.get(&SessionId::new("nobody")).is_none());
}

#[test]
fn default_session_state_is_fresh() {
    let st = SessionState::default();
    assert_eq!(st.receipt_seq, 0);
    assert!(st.last_event_id.is_none() && st.transcript_path.is_none() && st.last_read_offset.is_none());
}

#[test]
fn default_manager_is_empty_and_counts_distinct_sessions() {
    let mut mgr = SessionManager::default();
    assert!(mgr.is_empty());
    for (s, t) in [("a", "1"), ("b", "1"), ("a", "2"), ("c", "9"), ("b", "1")] {
        mgr.record(&turn(s, t));
    }
    let anonymous = WireEvent::new(WireEventKind::HookDegraded { reason: "r".to_string(), session_id: None });
    mgr.record(&anonymous);
    assert_eq!(mgr.len(), 3);
    assert!(!mgr.is_empty());
}

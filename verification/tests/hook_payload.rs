use pulsevoice::payload::{
    build_event, derive_event, payload_content_hash, ClaudeHookPayload, EventIdentity, HookKind,
    HookKindArg,
};
use pulsevoice::wire::WireEventKind;

fn payload(message_id: Option<&str>, session_id: Option<&str>, transcript_path: Option<&str>) -> ClaudeHookPayload {
    ClaudeHookPayload {
        message_id: message_id.map(|s| s.to_string()),
        session_id: session_id.map(|s| s.to_string()),
        transcript_path: transcript_path.map(|s| s.to_string()),
    }
}

#[test]
fn message_id_is_preferred_when_present() {
    let raw = br#"{"message_id":"mid-42","session_id":"s1"}"#;
    let p = payload(Some("mid-42"), Some("s1"), None);
    let id = derive_event(&p, raw, HookKind::Stop);
    match id {
        EventIdentity::Stable { event_id, .. } => {
            assert_eq!(event_id, "mid-42");
        }
        EventIdentity::Undeterminable { reason } => {
            panic!("expected Stable, got Undeterminable: {reason}");
        }
    }
}

#[test]
fn synthesized_id_uses_content_hash_so_distinct_content_diverges() {
    let raw_a = br#"{"session_id":"s1","content":"turn A"}"#;
    let raw_b = br#"{"session_id":"s1","content":"turn B"}"#;
    let p_a = payload(None, Some("s1"), None);
    let p_b = payload(None, Some("s1"), None);
    let id_a = derive_event(&p_a, raw_a, HookKind::Stop);
    let id_b = derive_event(&p_b, raw_b, HookKind::Stop);
    let (ea, eb) = match (id_a, id_b) {
        (EventIdentity::Stable { event_id: ea, .. }, EventIdentity::Stable { event_id: eb, .. }) => (ea, eb),
        _ => panic!("both should be Stable"),
    };
    assert_ne!(ea, eb, "distinct content must yield distinct event_ids");
}

#[test]
fn no_session_id_yields_undeterminable() {
    let raw = br#"{"transcript_path":"/tmp/x","message_id":"   "}"#;
    let p = payload(Some("   "), None, Some("/tmp/x"));
    let id = derive_event(&p, raw, HookKind::Stop);
    match id {
        EventIdentity::Stable { .. } => panic!("expected Undeterminable"),
        EventIdentity::Undeterminable { reason } => {
            assert!(reason.contains("session_id"), "reason: {reason}");
        }
    }
}

#[test]
fn content_hash_is_deterministic_for_same_bytes() {
    let raw = b"some bytes";
    assert_eq!(payload_content_hash(raw), payload_content_hash(raw));
}

#[test]
fn content_hash_is_sixteen_hex_digits() {
    let h = payload_content_hash(b"some bytes");
    assert_eq!(h.len(), 16);
    assert!(h.chars().all(|c| c.is_ascii_hexdigit() && !c.is_ascii_uppercase()));
    assert_ne!(payload_content_hash(b"some bytes"), payload_content_hash(b"other bytes"));
}

#[test]
fn synthesized_id_layout() {
    let raw = br#"{"session_id":"s1"}"#;
    let p = payload(None, Some("s1"), Some("/tmp/t.jsonl"));
    match derive_event(&p, raw, HookKind::Notification) {
        EventIdentity::Stable { event_id, session_id, transcript_path } => {
            let expected = format!("s1:notification:{}:{}:notification", payload_content_hash(raw), raw.len());
            assert_eq!(event_id, expected);
            assert_eq!(session_id.as_str(), "s1");
            assert_eq!(transcript_path.as_deref(), Some("/tmp/t.jsonl"));
        }
        other => panic!("expected Stable, got {other:?}"),
    }
}

#[test]
fn blank_session_id_is_undeterminable() {
    let p = payload(None, Some(" \t\u{3000}"), None);
    match derive_event(&p, b"{}", HookKind::Stop) {
        EventIdentity::Undeterminable { reason } => assert_eq!(reason, "empty session_id in payload"),
        other => panic!("expected Undeterminable, got {other:?}"),
    }
    let p = payload(None, None, None);
    match derive_event(&p, b"{}", HookKind::Stop) {
        EventIdentity::Undeterminable { reason } => assert_eq!(reason, "no session_id in payload"),
        other => panic!("expected Undeterminable, got {other:?}"),
    }
}

#[test]
fn message_id_without_session_uses_unknown_session() {
    let p = payload(Some("m"), None, None);
    match derive_event(&p, b"{}", HookKind::Stop) {
        EventIdentity::Stable { event_id, session_id, .. } => {
            assert_eq!(event_id, "m");
            assert_eq!(session_id.as_str(), "unknown");
        }
        other => panic!("expected Stable, got {other:?}"),
    }
}

#[test]
fn stop_builds_turn_complete_without_empty_path() {
    let p = payload(Some("mid"), Some("s1"), Some(""));
    let ev = build_event(&p, b"{}", HookKind::Stop);
    assert_eq!(ev.schema_version, 1);
    match ev.kind {
        WireEventKind::TurnComplete { session_id, turn_id, transcript_path } => {
            assert_eq!(session_id.as_str(), "s1");
            assert_eq!(turn_id.as_str(), "mid");
            assert_eq!(transcript_path, None);
        }
        other => panic!("expected TurnComplete, got {other:?}"),
    }
}

#[test]
fn notification_builds_attention_hint() {
    let p = payload(Some("mid"), Some("s1"), Some("/tmp/t"));
    let ev = build_event(&p, b"{}", HookKind::Notification);
    match ev.kind {
        WireEventKind::AttentionHint { session_id, event_id, raw_kind, transcript_path } => {
            assert_eq!(session_id.as_str(), "s1");
            assert_eq!(event_id, "mid");
            assert_eq!(raw_kind, "notification");
            assert_eq!(transcript_path.as_deref(), Some("/tmp/t"));
        }
        other => panic!("expected AttentionHint, got {other:?}"),
    }
}

#[test]
fn undeterminable_builds_hook_degraded() {
    let p = payload(None, Some("   "), None);
    let ev = build_event(&p, b"{}", HookKind::Stop);
    match ev.kind {
        WireEventKind::HookDegraded { reason, session_id } => {
            assert_eq!(reason, "empty session_id in payload");
            assert_eq!(session_id.map(|s| s.as_str().to_string()), Some("   ".to_string()));
        }
        other => panic!("expected HookDegraded, got {other:?}"),
    }
    let p = payload(None, None, None);
    match build_event(&p, b"{}", HookKind::Stop).kind {
        WireEventKind::HookDegraded { session_id, .. } => assert!(session_id.is_none()),
        other => panic!("expected HookDegraded, got {other:?}"),
    }
}

#[test]
fn hook_kind_labels_and_arg_mapping() {
    assert_eq!(HookKind::Stop.as_label(), "stop");
    assert_eq!(HookKind::Notification.as_label(), "notification");
    assert_eq!(HookKind::from(HookKindArg::Stop), HookKind::Stop);
    assert_eq!(HookKind::from(HookKindArg::Notification), HookKind::Notification);
}

#[test]
fn default_payload_has_no_fields() {
    let p = ClaudeHookPayload::default();
    assert!(p.message_id.is_none() && p.session_id.is_none() && p.transcript_path.is_none());
}

#[test]
fn payloads_of_different_sizes_get_different_ids() {
    let p = payload(None, Some("s1"), None);
    let a = derive_event(&p, b"{\"session_id\":\"s1\"}", HookKind::Stop);
    let b = derive_event(&p, b"{\"session_id\":\"s1\" }", HookKind::Stop);
    match (a, b) {
        (EventIdentity::Stable { event_id: ea, .. }, EventIdentity::Stable { event_id: eb, .. }) => {
            assert_ne!(ea, eb);
            assert!(ea.ends_with(":19:stop") && eb.ends_with(":20:stop"));
        }
        _ => panic!("both should be Stable"),
    }
}

#[test]
fn same_size_payloads_with_different_hashes_get_different_ids() {
    let p = payload(None, Some("s1"), None);
    let raw_a = b"{\"session_id\":\"s1\",\"content\":\"turn A\"}";
    let raw_b = b"{\"session_id\":\"s1\",\"content\":\"turn B\"}";
    assert_eq!(raw_a.len(), raw_b.len());
    assert_ne!(payload_content_hash(raw_a), payload_content_hash(raw_b));
    match (derive_event(&p, raw_a, HookKind::Stop), derive_event(&p, raw_b, HookKind::Stop)) {
        (EventIdentity::Stable { event_id: ea, .. }, EventIdentity::Stable { event_id: eb, .. }) => assert_ne!(ea, eb),
        _ => panic!("both should be Stable"),
    }
}

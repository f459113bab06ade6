use pulsevoice::probe::{aggregate, probe_line, LineShape};
use pulsevoice::reader::tally_lines;
use pulsevoice::source::ProbeOutcome;

fn shape(type_text: Option<&str>, has_type: bool, message_is_object: bool) -> LineShape {
    LineShape { has_type, type_text: type_text.map(|s| s.to_string()), message_is_object }
}

#[test]
fn ok_for_well_formed_assistant_line() {
    // {"type":"assistant","message":{"role":"assistant","content":[...]}}
    let v = shape(Some("assistant"), true, true);
    assert_eq!(probe_line(&v), ProbeOutcome::Matched);
}

#[test]
fn ok_for_unknown_type_treated_as_forward_compat() {
    // {"type":"some_future_kind","anything":true}
    let v = shape(Some("some_future_kind"), true, false);
    assert_eq!(probe_line(&v), ProbeOutcome::Matched);
}

#[test]
fn drift_when_type_missing() {
    // {"message":{"role":"user"}}
    let v = shape(None, false, true);
    match probe_line(&v) {
        ProbeOutcome::Drift { detail } => assert!(detail.contains("type"), "detail: {detail}"),
        ProbeOutcome::Matched => panic!("expected Drift"),
    }
}

#[test]
fn drift_when_assistant_message_not_object() {
    // {"type":"assistant","message":"not-an-object"}
    let v = shape(Some("assistant"), true, false);
    assert!(matches!(probe_line(&v), ProbeOutcome::Drift { .. }));
}

#[test]
fn aggregate_returns_first_drift() {
    let outcomes = vec![
        ProbeOutcome::Matched,
        ProbeOutcome::Drift { detail: "first".to_string() },
        ProbeOutcome::Drift { detail: "second".to_string() },
    ];
    match aggregate(&outcomes) {
        ProbeOutcome::Drift { detail } => assert_eq!(detail, "first"),
        ProbeOutcome::Matched => panic!("expected Drift"),
    }
}

#[test]
fn aggregate_ok_when_all_ok_or_empty() {
    assert_eq!(aggregate(&[]), ProbeOutcome::Matched);
    assert_eq!(aggregate(&[ProbeOutcome::Matched, ProbeOutcome::Matched]), ProbeOutcome::Matched);
}

#[test]
fn user_line_without_message_drifts() {
    let v = shape(Some("user"), true, false);
    match probe_line(&v) {
        ProbeOutcome::Drift { detail } => assert_eq!(detail, "`message` field is not an object"),
        ProbeOutcome::Matched => panic!("expected Drift"),
    }
    let non_string_type = shape(None, true, false);
    assert_eq!(probe_line(&non_string_type), ProbeOutcome::Matched);
}

#[test]
fn json_lines_are_probed_through_the_parser() {
    let content = b"{\"type\":\"assistant\",\"message\":{\"role\":\"assistant\"}}\n{\"type\":\"user\",\"message\":\"scalar\"}\n{\"message\":{}}\n";
    let (outcomes, lines, bytes) = tally_lines(content);
    assert_eq!(lines, 3);
    assert_eq!(bytes, content.len() as u64);
    assert_eq!(outcomes[0], ProbeOutcome::Matched);
    assert_eq!(outcomes[1], ProbeOutcome::Drift { detail: "`message` field is not an object".to_string() });
    assert_eq!(outcomes[2], ProbeOutcome::Drift { detail: "missing top-level `type` field".to_string() });
}

#[test]
fn malformed_line_is_a_numbered_drift() {
    let content = b"{\"type\":\"user\",\"message\":{}}\n\nnot json\n";
    let (outcomes, lines, bytes) = tally_lines(content);
    assert_eq!(lines, 1);
    assert_eq!(bytes, (content.len() - 1) as u64);
    assert_eq!(outcomes.len(), 2);
    assert_eq!(outcomes[1], ProbeOutcome::Drift { detail: "malformed JSON line 3".to_string() });
}

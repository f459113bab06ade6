use pulsevoice::reader::settle_start;
use std::time::Duration;

use pulsevoice::reader::{
    digest_of, poll_interval_for_size, poll_interval_ms, settle_begin, settle_next, settle_observe,
    summarize_read, truncation_read, SettleAction, SettleOutcome, SettleProgress,
    DEFAULT_SETTLE_BOUND_MS,
};
use pulsevoice::source::{ProbeOutcome, ReadVerdict};

#[test]
fn poll_interval_floor_for_small_files() {
    assert_eq!(poll_interval_for_size(0), Duration::from_millis(50));
    assert_eq!(poll_interval_for_size(50_000), Duration::from_millis(50));
}

#[test]
fn poll_interval_scales_with_size() {
    let interval = poll_interval_for_size(1024 * 1024);
    assert!(
        interval >= Duration::from_millis(500),
        "1 MB should scale to >=500ms, got {:?}",
        interval
    );
    assert_eq!(poll_interval_ms(1024 * 1024), 512);
}

fn run_settle(sizes: &[u64], bound: u64) -> (SettleOutcome, u64) {
    let mut state = settle_begin(sizes[0]);
    let mut slept = 0;
    let mut i = 1;
    loop {
        match settle_next(&state, bound) {
            SettleAction::Finish(o) => return (o, slept),
            SettleAction::Sleep { ms } => {
                slept += ms;
                let size = sizes[i.min(sizes.len() - 1)];
                i += 1;
                match settle_observe(&state, ms, size, bound) {
                    SettleProgress::Continue(s) => state = s,
                    SettleProgress::Finish(o) => return (o, slept),
                }
            }
        }
    }
}

#[test]
fn stable_file_settles_after_three_unchanged_polls() {
    let (outcome, slept) = run_settle(&[100, 100, 100, 100], DEFAULT_SETTLE_BOUND_MS);
    assert_eq!(outcome, SettleOutcome::Stable { size: 100 });
    assert_eq!(slept, 150);
}

#[test]
fn growth_restarts_the_stable_count() {
    let (outcome, slept) = run_settle(&[10, 10, 20, 20, 20, 20], DEFAULT_SETTLE_BOUND_MS);
    assert_eq!(outcome, SettleOutcome::Stable { size: 20 });
    assert_eq!(slept, 250);
}

#[test]
fn growing_file_settles_at_bound() {
    let sizes: Vec<u64> = (0..100).collect();
    let (outcome, slept) = run_settle(&sizes, 120);
    assert_eq!(outcome, SettleOutcome::AtBound { size: 3 });
    assert_eq!(slept, 120);
}

#[test]
fn truncation_only_on_size_regression() {
    let (probe, t) = truncation_read(200, Some(1000)).expect("regressed");
    assert_eq!(probe, ProbeOutcome::Matched);
    assert_eq!(t.verdict, ReadVerdict::Truncated);
    assert_eq!(t.read_offset, 200);
    assert!(t.digest.as_str().contains("truncated"));
    assert!(!t.digest.as_str().contains("lines="));
    assert!(truncation_read(200, Some(200)).is_none());
    assert!(truncation_read(200, None).is_none());
}

#[test]
fn clean_turn_summary_counts_lines_and_bytes() {
    let content = b"{\"type\":\"user\",\"message\":{\"role\":\"user\",\"content\":\"hi\"}}\n{\"type\":\"assistant\",\"message\":{\"role\":\"assistant\",\"content\":[{\"type\":\"text\",\"text\":\"hello\"}]}}\n";
    let (probe, read) = summarize_read(content, SettleOutcome::Stable { size: content.len() as u64 });
    assert_eq!(probe, ProbeOutcome::Matched);
    assert_eq!(read.verdict, ReadVerdict::Settled);
    assert_eq!(read.read_offset, content.len() as u64);
    let digest = read.digest.as_str();
    assert!(digest.contains("lines=2"), "digest: {digest}");
    assert!(digest.ends_with(&format!("|bytes={}", content.len())), "digest: {digest}");
    assert!(digest.starts_with(digest_of(content).as_str()));
}

#[test]
fn summary_reads_only_up_to_the_settled_size() {
    let content = b"{\"type\":\"user\",\"message\":{}}\n{\"type\":\"user\",\"message\":{}}\n";
    let first = 29u64;
    let (_, read) = summarize_read(content, SettleOutcome::AtBound { size: first });
    assert_eq!(read.verdict, ReadVerdict::SettledAtBound);
    assert_eq!(read.read_offset, first);
    assert!(read.digest.as_str().contains("lines=1"), "digest: {}", read.digest.as_str());
}

#[test]
fn schema_drift_surfaces_in_summary() {
    let content = b"{\"not_type\":\"user\"}\n{\"type\":\"assistant\",\"message\":\"scalar\"}\n";
    let (probe, read) = summarize_read(content, SettleOutcome::Stable { size: content.len() as u64 });
    match probe {
        ProbeOutcome::Drift { detail } => assert!(detail.contains("type"), "detail: {detail}"),
        ProbeOutcome::Matched => panic!("expected Drift"),
    }
    assert_eq!(read.verdict, ReadVerdict::Settled);
}

#[test]
fn digest_depends_on_content() {
    assert_eq!(digest_of(b"abc"), digest_of(b"abc"));
    assert_ne!(digest_of(b"abc"), digest_of(b"abd"));
    assert!(digest_of(b"abc").as_str().starts_with("sha1-placeholder:"));
    assert_eq!(digest_of(b"abc").as_str().len(), "sha1-placeholder:".len() + 16);
}

#[test]
fn settle_hint_ends_the_window_at_once() {
    assert_eq!(settle_start(Some(77)), Some(SettleOutcome::Stable { size: 77 }));
    assert_eq!(settle_start(None), None);
}

#[test]
fn larger_file_never_polls_faster() {
    let sizes = [0u64, 1023, 100_000, 102_400, 1_048_576, 10_000_000];
    for w in sizes.windows(2) {
        assert!(poll_interval_ms(w[0]) <= poll_interval_ms(w[1]));
    }
}

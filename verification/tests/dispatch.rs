use std::time::Duration;
use pulsevoice::dispatch::{
    deliver_next, resolve_timeouts, DeliverNext, DeliverOutcome, DeliverStage, StageResult,
};

#[test]
fn outcome_exit_codes_match_contract_table() {
    assert_eq!(DeliverOutcome::Delivered.exit_code(), 0);
    assert_eq!(DeliverOutcome::SocketAbsent.exit_code(), 2);
    assert_eq!(DeliverOutcome::ConnectFailed.exit_code(), 3);
    assert_eq!(DeliverOutcome::WriteTimedOut.exit_code(), 4);
}

fn run(results: [StageResult; 3]) -> DeliverOutcome {
    let mut stage = DeliverStage::CheckSocket;
    for r in results {
        match deliver_next(stage, r) {
            DeliverNext::Proceed(next) => stage = next,
            DeliverNext::Finish(o) => return o,
        }
    }
    panic!("delivery did not finish")
}

#[test]
fn delivery_stages_fail_fast() {
    assert_eq!(run([StageResult::Succeeded, StageResult::Succeeded, StageResult::Succeeded]), DeliverOutcome::Delivered);
    assert_eq!(run([StageResult::Failed, StageResult::Succeeded, StageResult::Succeeded]), DeliverOutcome::SocketAbsent);
    assert_eq!(run([StageResult::Succeeded, StageResult::Failed, StageResult::Succeeded]), DeliverOutcome::ConnectFailed);
    assert_eq!(run([StageResult::Succeeded, StageResult::TimedOut, StageResult::Succeeded]), DeliverOutcome::ConnectFailed);
    assert_eq!(run([StageResult::Succeeded, StageResult::Succeeded, StageResult::Failed]), DeliverOutcome::WriteTimedOut);
    assert_eq!(run([StageResult::Succeeded, StageResult::Succeeded, StageResult::TimedOut]), DeliverOutcome::WriteTimedOut);
}

#[test]
fn timeouts_default_or_override_both() {
    assert_eq!(resolve_timeouts(0), (Duration::from_millis(200), Duration::from_millis(500)));
    assert_eq!(resolve_timeouts(50), (Duration::from_millis(50), Duration::from_millis(50)));
}

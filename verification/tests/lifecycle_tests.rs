use rsaudit::lifecycle::{
    next_status, run_verdict, session_open_outcome, summarize, RunSummary, RunVerdict, ScanEvent,
};
use rsaudit::models::ScanStatus;

#[test]
fn failed_session_open_records_no_results() {
    for event in [ScanEvent::ConnectionFailed, ScanEvent::AuthFailed] {
        let (status, results) = session_open_outcome(event);
        assert_eq!(status, ScanStatus::Failed);
        assert_eq!(results.len(), 0);
    }
    let (status, results) = session_open_outcome(ScanEvent::SessionOpened);
    assert_eq!(status, ScanStatus::Running);
    assert_eq!(results.len(), 0);
}

#[test]
fn one_failure_leaves_other_counts_alone() {
    let mut statuses = vec![ScanStatus::Completed, ScanStatus::Completed];
    let before = summarize(&statuses);
    statuses.push(ScanStatus::Failed);
    let after = summarize(&statuses);
    assert_eq!(after.completed, before.completed);
    assert_eq!(after.failed, before.failed + 1);
}

#[test]
fn pending_moves_to_running_on_session_open() {
    assert_eq!(next_status(ScanStatus::Pending, ScanEvent::SessionOpened), ScanStatus::Running);
}

#[test]
fn open_failure_fails_the_scan() {
    assert_eq!(next_status(ScanStatus::Pending, ScanEvent::ConnectionFailed), ScanStatus::Failed);
    assert_eq!(next_status(ScanStatus::Pending, ScanEvent::AuthFailed), ScanStatus::Failed);
}

#[test]
fn running_completes_or_fails() {
    assert_eq!(next_status(ScanStatus::Running, ScanEvent::ChecksCompleted), ScanStatus::Completed);
    assert_eq!(next_status(ScanStatus::Running, ScanEvent::RunFault), ScanStatus::Failed);
}

#[test]
fn terminal_states_never_move() {
    let events = [
        ScanEvent::SessionOpened,
        ScanEvent::ConnectionFailed,
        ScanEvent::AuthFailed,
        ScanEvent::ChecksCompleted,
        ScanEvent::RunFault,
    ];
    for e in events {
        assert_eq!(next_status(ScanStatus::Completed, e), ScanStatus::Completed);
        assert_eq!(next_status(ScanStatus::Failed, e), ScanStatus::Failed);
    }
}

#[test]
fn auth_failure_scenario_is_isolated() {
    // Device one's authentication is rejected; its scan fails with zero
    // results. Device two's scan is unaffected and still counted.
    let device_one = next_status(ScanStatus::Pending, ScanEvent::AuthFailed);
    assert_eq!(device_one, ScanStatus::Failed);
    let device_two = next_status(
        next_status(ScanStatus::Pending, ScanEvent::SessionOpened),
        ScanEvent::ChecksCompleted,
    );
    assert_eq!(device_two, ScanStatus::Completed);
    let summary = summarize(&vec![device_one, device_two]);
    assert_eq!(summary, RunSummary { completed: 1, failed: 1 });
    assert_eq!(run_verdict(&summary), RunVerdict::PartialSuccess);
}

#[test]
fn summarize_counts_terminal_outcomes() {
    let statuses = vec![
        ScanStatus::Completed,
        ScanStatus::Failed,
        ScanStatus::Completed,
        ScanStatus::Running,
        ScanStatus::Pending,
    ];
    let summary = summarize(&statuses);
    assert_eq!(summary.completed, 2);
    assert_eq!(summary.failed, 1);
}

#[test]
fn summarize_empty_run() {
    let summary = summarize(&Vec::new());
    assert_eq!(summary, RunSummary { completed: 0, failed: 0 });
    assert_eq!(run_verdict(&summary), RunVerdict::FullSuccess);
}

#[test]
fn verdict_is_nonzero_exactly_when_a_device_failed() {
    assert_eq!(run_verdict(&RunSummary { completed: 3, failed: 0 }), RunVerdict::FullSuccess);
    assert_eq!(run_verdict(&RunSummary { completed: 2, failed: 1 }), RunVerdict::PartialSuccess);
    assert_eq!(run_verdict(&RunSummary { completed: 0, failed: 2 }), RunVerdict::TotalFailure);
}

use vstd::prelude::*;
use crate::models::ScanStatus;
use crate::scanner::CheckResult;

verus! {

/// An observation the scan driver reacts to while driving one device scan.
#[derive(Clone, Copy, Debug, PartialEq, Eq, Structural)]
pub enum ScanEvent {
    /// The session handshake and authentication succeeded.
    SessionOpened,
    /// The transport was unreachable.
    ConnectionFailed,
    /// The device rejected the credentials.
    AuthFailed,
    /// Every remaining check ran to completion.
    ChecksCompleted,
    /// The run loop itself hit an unrecoverable fault (not an individual
    /// check's `Error` outcome).
    RunFault,
}

/// A scan that reached `Completed` or `Failed` never transitions again.
pub open spec fn is_terminal(s: ScanStatus) -> bool {
    s == ScanStatus::Completed || s == ScanStatus::Failed
}

/// The per-device scan state machine: `Pending` moves to `Running` on a
/// successful session open and to `Failed` on a connection or authentication
/// failure; `Running` moves to `Completed` when every check ran and to
/// `Failed` on an unrecoverable run fault. All transitions are forward-only,
/// and an event that does not apply to the current state leaves it unchanged.
pub open spec fn spec_next_status(s: ScanStatus, e: ScanEvent) -> ScanStatus {
    match s {
        ScanStatus::Pending => match e {
            ScanEvent::SessionOpened => ScanStatus::Running,
            ScanEvent::ConnectionFailed => ScanStatus::Failed,
            ScanEvent::AuthFailed => ScanStatus::Failed,
            _ => ScanStatus::Pending,
        },
        ScanStatus::Running => match e {
            ScanEvent::ChecksCompleted => ScanStatus::Completed,
            ScanEvent::RunFault => ScanStatus::Failed,
            _ => ScanStatus::Running,
        },
        ScanStatus::Completed => ScanStatus::Completed,
        ScanStatus::Failed => ScanStatus::Failed,
    }
}

/// How far along the forward-only lifecycle a status is.
pub open spec fn status_rank(s: ScanStatus) -> nat {
    match s {
        ScanStatus::Pending => 0,
        ScanStatus::Running => 1,
        ScanStatus::Completed => 2,
        ScanStatus::Failed => 2,
    }
}

/// Advance one device scan's status by one observed event.
pub fn next_status(s: ScanStatus, e: ScanEvent) -> (r: ScanStatus)
    ensures
        r == spec_next_status(s, e),
{
    match s {
        ScanStatus::Pending => match e {
            ScanEvent::SessionOpened => ScanStatus::Running,
            ScanEvent::ConnectionFailed => ScanStatus::Failed,
            ScanEvent::AuthFailed => ScanStatus::Failed,
            _ => ScanStatus::Pending,
        },
        ScanStatus::Running => match e {
            ScanEvent::ChecksCompleted => ScanStatus::Completed,
            ScanEvent::RunFault => ScanStatus::Failed,
            _ => ScanStatus::Running,
        },
        ScanStatus::Completed => ScanStatus::Completed,
        ScanStatus::Failed => ScanStatus::Failed,
    }
}

/// Scan status is monotonic: once a scan is `Completed` or `Failed`, no
/// event moves it to any other status.
pub proof fn lemma_terminal_is_stable(s: ScanStatus, e: ScanEvent)
    requires
        is_terminal(s),
    ensures
        spec_next_status(s, e) == s,
{
}

/// Transitions are forward-only: no event moves a scan backwards in the
/// lifecycle.
pub proof fn lemma_status_forward_only(s: ScanStatus, e: ScanEvent)
    ensures
        status_rank(spec_next_status(s, e)) >= status_rank(s),
{
}

/// A device whose session could not be opened fails immediately: its scan is
/// terminal without ever running, so it records zero check results, and only
/// that device is affected.
pub proof fn lemma_open_failure_is_isolated(e: ScanEvent)
    requires
        e == ScanEvent::ConnectionFailed || e == ScanEvent::AuthFailed,
    ensures
        spec_next_status(ScanStatus::Pending, e) == ScanStatus::Failed,
        is_terminal(spec_next_status(ScanStatus::Pending, e)),
{
}

/// What a device scan records when opening its session ends with `e`,
/// before any check has run: the status the event moves a `Pending` scan to,
/// and zero check results. A connection or authentication failure is
/// terminal for that device — its scan is `Failed` with no results — and
/// touches nothing else.
pub fn session_open_outcome(e: ScanEvent) -> (r: (ScanStatus, Vec<CheckResult>))
    ensures
        r.0 == spec_next_status(ScanStatus::Pending, e),
        e == ScanEvent::ConnectionFailed || e == ScanEvent::AuthFailed ==> r.0 == ScanStatus::Failed
            && is_terminal(r.0),
        r.1@ =~= Seq::<CheckResult>::empty(),
{
    (next_status(ScanStatus::Pending, e), Vec::new())
}

/// Aggregate outcome of one orchestrator run over the whole device list.
#[derive(Clone, Copy, Debug, PartialEq, Eq, Structural)]
pub struct RunSummary {
    pub completed: usize,
    pub failed: usize,
}

/// How many statuses in the sequence equal `t`.
pub open spec fn count_status(s: Seq<ScanStatus>, t: ScanStatus) -> nat {
    s.filter(|x: ScanStatus| x == t).len()
}

proof fn lemma_count_status_step(s: Seq<ScanStatus>, t: ScanStatus, i: int)
    requires
        0 <= i < s.len(),
    ensures
        count_status(s.take(i + 1), t) == count_status(s.take(i), t) + (if s[i] == t {
            1int
        } else {
            0int
        }),
{
    reveal(Seq::filter);
    assert(s.take(i + 1).drop_last() =~= s.take(i));
    assert(s.take(i + 1).last() == s[i]);
}

proof fn lemma_count_status_push(s: Seq<ScanStatus>, t: ScanStatus, x: ScanStatus)
    ensures
        count_status(s.push(x), t) == count_status(s, t) + (if x == t {
            1int
        } else {
            0int
        }),
{
    reveal(Seq::filter);
    assert(s.push(x).drop_last() =~= s);
}

/// One device's terminal failure is recorded for that device alone:
/// appending a `Failed` outcome to a run raises the failure count by one and
/// leaves every other device's recorded completion untouched.
pub proof fn lemma_failure_is_recorded_alone(s: Seq<ScanStatus>)
    ensures
        count_status(s.push(ScanStatus::Failed), ScanStatus::Failed) == count_status(
            s,
            ScanStatus::Failed,
        ) + 1,
        count_status(s.push(ScanStatus::Failed), ScanStatus::Completed) == count_status(
            s,
            ScanStatus::Completed,
        ),
{
    lemma_count_status_push(s, ScanStatus::Failed, ScanStatus::Failed);
    lemma_count_status_push(s, ScanStatus::Completed, ScanStatus::Failed);
}

/// Count the terminal outcomes of a run: one device's failure never hides
/// another device's completion.
pub fn summarize(statuses: &Vec<ScanStatus>) -> (r: RunSummary)
    ensures
        r.completed == count_status(statuses@, ScanStatus::Completed),
        r.failed == count_status(statuses@, ScanStatus::Failed),
{
    let ghost s = statuses@;
    let mut completed: usize = 0;
    let mut failed: usize = 0;
    let mut i: usize = 0;
    while i < statuses.len()
        invariant
            i <= s.len(),
            s == statuses@,
            completed == count_status(s.take(i as int), ScanStatus::Completed),
            failed == count_status(s.take(i as int), ScanStatus::Failed),
            completed + failed <= i,
        decreases s.len() - i,
    {
        proof {
            lemma_count_status_step(s, ScanStatus::Completed, i as int);
            lemma_count_status_step(s, ScanStatus::Failed, i as int);
            s.take(i as int).lemma_filter_len(|x: ScanStatus| x == ScanStatus::Completed);
            s.take(i as int).lemma_filter_len(|x: ScanStatus| x == ScanStatus::Failed);
        }
        match statuses[i] {
            ScanStatus::Completed => {
                completed = completed + 1;
            },
            ScanStatus::Failed => {
                failed = failed + 1;
            },
            _ => {},
        }
        i += 1;
    }
    proof {
        assert(s.take(s.len() as int) =~= s);
    }
    RunSummary { completed, failed }
}

/// Run-level exit signal.
#[derive(Clone, Copy, Debug, PartialEq, Eq, Structural)]
pub enum RunVerdict {
    /// Every device scan completed.
    FullSuccess,
    /// Some device scans failed, but at least one completed.
    PartialSuccess,
    /// At least one device scan failed and none completed.
    TotalFailure,
}

/// The exit signal a summary maps to. It is non-success exactly when at
/// least one device scan ended `Failed`.
pub open spec fn spec_run_verdict(r: RunSummary) -> RunVerdict {
    if r.failed == 0 {
        RunVerdict::FullSuccess
    } else if r.completed > 0 {
        RunVerdict::PartialSuccess
    } else {
        RunVerdict::TotalFailure
    }
}

/// Map a run summary to the run-level exit signal.
pub fn run_verdict(r: &RunSummary) -> (v: RunVerdict)
    ensures
        v == spec_run_verdict(*r),
        (v == RunVerdict::FullSuccess) <==> (r.failed == 0),
{
    if r.failed == 0 {
        RunVerdict::FullSuccess
    } else if r.completed > 0 {
        RunVerdict::PartialSuccess
    } else {
        RunVerdict::TotalFailure
    }
}

} // verus!

use vstd::prelude::*;
use crate::errors::JailError;
use crate::sys;

verus! {

/// How a waited-for child left the process table.
#[derive(Clone, Copy, Debug, PartialEq, Eq, Structural)]
pub enum WaitOutcome {
    /// Normal termination with this exit code.
    Exited(i32),
    /// Termination by this signal number.
    Signaled(i32),
    /// Some other status change (stopped, continued, ...).
    Other,
}

/// What one supervision run reports: either the child's own end, or that
/// the time limit fired and the child was put down.
#[derive(Clone, Copy, Debug, PartialEq, Eq, Structural)]
pub enum RunReport {
    /// The child ended on its own.
    Ended(WaitOutcome),
    /// The wall-clock limit elapsed first; the child was killed.
    TimedOut,
}

/// What the supervisor does next, given one poll of the child and the time
/// already spent against the limit.
#[derive(Clone, Copy, Debug, PartialEq, Eq, Structural)]
pub enum SuperviseStep {
    /// Child still runs, limit not reached: sleep one second and poll again.
    KeepWaiting,
    /// Child still runs but the limit is spent: kill it, reap it, report a
    /// timeout.
    KillNow,
    /// Child is gone: report how it ended.
    Report(WaitOutcome),
}

/// The supervisor's whole decision rule, as a function of one poll result
/// and the clock: a child that is gone is always reported as it ended; a
/// live child is waited for until the limit (if any) is spent, and only
/// then killed.
pub open spec fn spec_supervise_step(
    polled: Option<WaitOutcome>,
    elapsed: u64,
    limit: Option<u64>,
) -> SuperviseStep {
    match polled {
        Some(outcome) => SuperviseStep::Report(outcome),
        None => match limit {
            Some(l) => if elapsed >= l {
                SuperviseStep::KillNow
            } else {
                SuperviseStep::KeepWaiting
            },
            None => SuperviseStep::KeepWaiting,
        },
    }
}

/// Decide the supervisor's next move; see `spec_supervise_step`.
pub fn supervise_step(
    polled: Option<WaitOutcome>,
    elapsed: u64,
    limit: Option<u64>,
) -> (r: SuperviseStep)
    ensures
        r == spec_supervise_step(polled, elapsed, limit),
{
    match polled {
        Some(outcome) => SuperviseStep::Report(outcome),
        None => match limit {
            Some(l) => if elapsed >= l {
                SuperviseStep::KillNow
            } else {
                SuperviseStep::KeepWaiting
            },
            None => SuperviseStep::KeepWaiting,
        },
    }
}

/// A timeout is only ever decided when the child still runs and a limit is
/// configured and spent; a finished child is always reported as it ended.
pub proof fn lemma_supervise_faithful(
    polled: Option<WaitOutcome>,
    elapsed: u64,
    limit: Option<u64>,
)
    ensures
        spec_supervise_step(polled, elapsed, limit) is KillNow ==> (polled is None
            && (limit matches Some(l) && elapsed >= l)),
        polled matches Some(o) ==> spec_supervise_step(polled, elapsed, limit)
            == SuperviseStep::Report(o),
{
}

/// Supervise one child until it ends or the wall-clock limit elapses.
///
/// Without a limit this blocks in a single wait. With a limit it polls the
/// child once a second, and when the limit is spent it kills and reaps the
/// child and reports `TimedOut` — an outcome distinct from every normal
/// exit or signal report.
pub fn await_child(pid: i32, time_limit: Option<u64>) -> (r: Result<RunReport, JailError>)
    ensures
        r matches Ok(rep) && rep is TimedOut ==> time_limit is Some,
        r matches Err(e) ==> e is Supervision,
{
    match time_limit {
        None => {
            match sys::wait_child(pid) {
                Ok(outcome) => Ok(RunReport::Ended(outcome)),
                Err(errno) => Err(JailError::Supervision(errno)),
            }
        },
        Some(limit) => {
            let mut elapsed: u64 = 0;
            loop
                invariant
                    time_limit == Some(limit),
                    elapsed <= limit,
                decreases limit - elapsed,
            {
                let polled = match sys::try_wait_child(pid) {
                    Ok(p) => p,
                    Err(errno) => {
                        return Err(JailError::Supervision(errno));
                    },
                };
                let step = supervise_step(polled, elapsed, time_limit);
                match step {
                    SuperviseStep::Report(outcome) => {
                        return Ok(RunReport::Ended(outcome));
                    },
                    SuperviseStep::KillNow => {
                        match sys::kill_hard(pid) {
                            Ok(()) => {},
                            Err(errno) => {
                                return Err(JailError::Supervision(errno));
                            },
                        }
                        match sys::wait_child(pid) {
                            Ok(_) => {
                                return Ok(RunReport::TimedOut);
                            },
                            Err(errno) => {
                                return Err(JailError::Supervision(errno));
                            },
                        }
                    },
                    SuperviseStep::KeepWaiting => {
                        let _ = sys::sleep_secs(1);
                        assert(elapsed < limit);
                        elapsed = elapsed + 1;
                    },
                }
            }
        },
    }
}

} // verus!

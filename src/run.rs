use vstd::prelude::*;
use crate::prediction::Prediction;
use crate::status::Status;

verus! {

/// Time between two polls of a job started by `run`, in milliseconds.
pub const RUN_POLL_INTERVAL_MS: u64 = 5000;

/// How long `run` waits for a job to finish, in milliseconds.
pub const RUN_TIMEOUT_MS: u64 = 600000;

/// Default time between two polls of `wait`, in milliseconds.
pub const WAIT_POLL_INTERVAL_MS: u64 = 1000;

/// Default bound on the time `wait` waits, in milliseconds.
pub const WAIT_TIMEOUT_MS: u64 = 3600000;

/// What a polling loop does next.
#[derive(Debug, Clone, Copy, PartialEq, Eq, Structural)]
pub enum PollDecision {
    /// Sleep for the given milliseconds, then fetch the job again.
    Poll { after_ms: u64 },
    /// Give up: the time allowed has passed.
    TimedOut,
    /// The job is done with.
    Finished,
}

pub open spec fn spec_run_poll(status: Status, elapsed_ms: u64) -> PollDecision {
    if !(status is Starting || status is Processing) {
        PollDecision::Finished
    } else if elapsed_ms > RUN_TIMEOUT_MS {
        PollDecision::TimedOut
    } else {
        PollDecision::Poll { after_ms: RUN_POLL_INTERVAL_MS }
    }
}

/// The step of `run` for a job in `status`, `elapsed_ms` after it was
/// created: a job still starting or processing is polled again every five
/// seconds until ten minutes have passed.
pub fn run_poll(status: Status, elapsed_ms: u64) -> (r: PollDecision)
    ensures
        r == spec_run_poll(status, elapsed_ms),
{
    match status {
        Status::Starting | Status::Processing => {
            if elapsed_ms > RUN_TIMEOUT_MS {
                PollDecision::TimedOut
            } else {
                PollDecision::Poll { after_ms: RUN_POLL_INTERVAL_MS }
            }
        },
        _ => PollDecision::Finished,
    }
}

pub open spec fn spec_wait_poll(status: Status, elapsed_ms: u64, poll_interval_ms: u64, timeout_ms: u64) -> PollDecision {
    if elapsed_ms > timeout_ms {
        PollDecision::TimedOut
    } else if status.spec_is_terminated() {
        PollDecision::Finished
    } else {
        PollDecision::Poll { after_ms: poll_interval_ms }
    }
}

/// The step of `wait` for a job in `status`, `elapsed_ms` after waiting
/// began: the time bound is checked first, then whether the job is done.
pub fn wait_poll(status: Status, elapsed_ms: u64, poll_interval_ms: u64, timeout_ms: u64) -> (r: PollDecision)
    ensures
        r == spec_wait_poll(status, elapsed_ms, poll_interval_ms, timeout_ms),
{
    if elapsed_ms > timeout_ms {
        PollDecision::TimedOut
    } else if status.is_terminated() {
        PollDecision::Finished
    } else {
        PollDecision::Poll { after_ms: poll_interval_ms }
    }
}

/// Why a job started by `run` gave no output.
#[derive(Debug, Clone)]
pub enum RunError {
    /// The job did not finish in time.
    TimedOut { after_ms: u64 },
    /// The job succeeded but carries no output.
    NoOutput,
    /// The job failed; this is the error the service reported.
    Failed { error: Option<serde_json::Value> },
    /// The job ended in another status.
    Unexpected { status: Status, logs: Option<String> },
}

/// What `run` returns for a job that is no longer starting or processing:
/// the output of a job that succeeded, the error of one that failed.
pub fn run_outcome(p: Prediction) -> (r: Result<serde_json::Value, RunError>)
    ensures
        match p.status {
            Status::Succeeded => match p.output {
                Some(v) => r == Ok::<serde_json::Value, RunError>(v),
                None => r is Err && r->Err_0 is NoOutput,
            },
            Status::Failed => r is Err && r->Err_0 is Failed && r->Err_0->Failed_error
                == p.error,
            _ => r is Err && r->Err_0 is Unexpected && r->Err_0->Unexpected_status == p.status
                && r->Err_0->Unexpected_logs == p.logs,
        },
{
    match p.status {
        Status::Succeeded => match p.output {
            Some(v) => Ok(v),
            None => Err(RunError::NoOutput),
        },
        Status::Failed => Err(RunError::Failed { error: p.error }),
        status => Err(RunError::Unexpected { status, logs: p.logs }),
    }
}

} // verus!

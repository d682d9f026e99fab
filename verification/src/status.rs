//! The status records the host reports to the service manager.
//!
//! The service reports exactly two status transitions per run: an initial
//! "running, accepts stop" record, and a terminal "stopped" record whose
//! exit code is the supervisor's result code, unchanged. The host copies
//! these records field by field into the service manager's own status
//! structure.

use vstd::prelude::*;

verus! {

/// The lifecycle state a status record announces.
#[derive(Clone, Copy, Debug, PartialEq, Eq, Structural)]
pub enum ReportedState {
    /// The service is running.
    Running,
    /// The service has stopped.
    Stopped,
}

/// One status record, with the fields the service ever sets.
#[derive(Clone, Copy, Debug, PartialEq, Eq, Structural)]
pub struct StatusReport {
    /// The announced lifecycle state.
    pub state: ReportedState,
    /// Whether the service accepts stop requests.
    pub accepts_stop: bool,
    /// The exit code the record carries.
    pub exit_code: u32,
    /// The checkpoint counter; this service never uses checkpoints.
    pub checkpoint: u32,
    /// The wait hint in milliseconds; this service never asks for one.
    pub wait_hint_ms: u64,
}

/// The initial record: running, accepting stop requests, exit code 0.
pub open spec fn spec_running_report() -> StatusReport {
    StatusReport {
        state: ReportedState::Running,
        accepts_stop: true,
        exit_code: 0,
        checkpoint: 0,
        wait_hint_ms: 0,
    }
}

/// The terminal record: stopped, carrying `code` as the exit code.
pub open spec fn spec_stopped_report(code: u32) -> StatusReport {
    StatusReport {
        state: ReportedState::Stopped,
        accepts_stop: true,
        exit_code: code,
        checkpoint: 0,
        wait_hint_ms: 0,
    }
}

/// Builds the record announcing that the service is up.
pub fn running_report() -> (r: StatusReport)
    ensures
        r == spec_running_report(),
{
    StatusReport {
        state: ReportedState::Running,
        accepts_stop: true,
        exit_code: 0,
        checkpoint: 0,
        wait_hint_ms: 0,
    }
}

/// Builds the terminal record for a finished run.
pub fn stopped_report(code: u32) -> (r: StatusReport)
    ensures
        r == spec_stopped_report(code),
        r.exit_code == code,
{
    StatusReport {
        state: ReportedState::Stopped,
        accepts_stop: true,
        exit_code: code,
        checkpoint: 0,
        wait_hint_ms: 0,
    }
}

/// The result code round-trips: the exit code the terminal status record
/// reports is exactly the supervisor's result code, with no further
/// transformation.
pub proof fn lemma_result_code_round_trip(code: u32)
    ensures
        spec_stopped_report(code).exit_code == code,
{
}

} // verus!

//! Result codes and pre-launch failure classification.
//!
//! The supervisor's sole output is one unsigned result code drawn from a
//! small fixed set. Failures that happen before a child process exists
//! are classified by [`LaunchFailure`]; each variant maps to exactly one
//! code.

use vstd::prelude::*;

verus! {

/// Supervision ended because an external stop request was honored.
pub const STOP_SERVICE_CODE: u32 = 1;

/// The child failed to launch, or a liveness poll failed.
pub const CHILD_PROCESS_ERROR_CODE: u32 = 2;

/// The child exited but its exit code could not be determined.
pub const UNKNOWN_ERROR_CODE: u32 = 3;

/// The target executable path could not be resolved to an existing file.
pub const TARGET_PROCESS_NOT_FOUND_CODE: u32 = 4;

/// A launch argument was not representable as valid text.
pub const ARGUMENT_DECODE_ERROR_CODE: u32 = 5;

/// Fewer launch arguments were supplied than required.
pub const ARGUMENT_AMOUNT_ERROR_CODE: u32 = 6;

/// A failure that occurs before the supervision loop starts.
///
/// Each variant is terminal for the whole supervision run: none of them
/// ever produces a running child, and each maps to one fixed result code.
#[derive(Clone, Copy, Debug, PartialEq, Eq, Structural)]
pub enum LaunchFailure {
    /// The launch specification held fewer than two elements.
    TooFewArguments,
    /// The path element could not be decoded as text.
    ArgumentNotText,
    /// The decoded path did not resolve to an existing target.
    TargetNotFound,
    /// Spawning the resolved target failed.
    SpawnFailed,
}

impl LaunchFailure {
    /// The result code this failure maps to.
    pub open spec fn spec_code(self) -> u32 {
        match self {
            LaunchFailure::TooFewArguments => ARGUMENT_AMOUNT_ERROR_CODE,
            LaunchFailure::ArgumentNotText => ARGUMENT_DECODE_ERROR_CODE,
            LaunchFailure::TargetNotFound => TARGET_PROCESS_NOT_FOUND_CODE,
            LaunchFailure::SpawnFailed => CHILD_PROCESS_ERROR_CODE,
        }
    }

    /// Returns the result code for this failure.
    pub fn code(&self) -> (c: u32)
        ensures
            c == self.spec_code(),
    {
        match self {
            LaunchFailure::TooFewArguments => ARGUMENT_AMOUNT_ERROR_CODE,
            LaunchFailure::ArgumentNotText => ARGUMENT_DECODE_ERROR_CODE,
            LaunchFailure::TargetNotFound => TARGET_PROCESS_NOT_FOUND_CODE,
            LaunchFailure::SpawnFailed => CHILD_PROCESS_ERROR_CODE,
        }
    }
}

} // verus!

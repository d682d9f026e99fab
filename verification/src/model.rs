//! The model of one whole supervision run.
//!
//! A run is determined by plain facts the host observes: the decoded
//! launch arguments, whether the path canonicalized, whether the spawn
//! succeeded, and the sequence of polling ticks. [`spec_run`] composes
//! the validation and loop models over those facts; the proofs here state
//! how the short-circuit failure paths behave.

use vstd::prelude::*;

use crate::codes::ARGUMENT_AMOUNT_ERROR_CODE;
use crate::codes::LaunchFailure;
use crate::codes::TARGET_PROCESS_NOT_FOUND_CODE;
use crate::launch::spec_validate;
use crate::supervisor::SupervisorState;
use crate::supervisor::Tick;
use crate::supervisor::initial_state;
use crate::supervisor::run_state;

verus! {

/// The observable outcome of one whole supervision run.
pub enum RunOutcome {
    /// The run failed before a child process ever existed.
    FailedBeforeLaunch { failure: LaunchFailure },
    /// A child was spawned and the loop consumed the recorded ticks.
    Supervised { end: SupervisorState },
}

/// Whether the run gets as far as attempting to spawn a child: the
/// arguments validated and the path resolved.
pub open spec fn spec_attempts_spawn(args: Seq<Option<Seq<char>>>, resolves: bool) -> bool {
    spec_validate(args) is Ok && resolves
}

/// One whole run: validation, path resolution, spawn, then the loop.
/// Each failure short-circuits; only a successful spawn reaches the loop.
pub open spec fn spec_run(
    args: Seq<Option<Seq<char>>>,
    resolves: bool,
    spawns: bool,
    ticks: Seq<Tick>,
) -> RunOutcome {
    match spec_validate(args) {
        Result::Err(failure) => RunOutcome::FailedBeforeLaunch { failure },
        Result::Ok(_) => if !resolves {
            RunOutcome::FailedBeforeLaunch { failure: LaunchFailure::TargetNotFound }
        } else if !spawns {
            RunOutcome::FailedBeforeLaunch { failure: LaunchFailure::SpawnFailed }
        } else {
            RunOutcome::Supervised { end: run_state(initial_state(), ticks) }
        },
    }
}

/// The result code a run reports: a pre-launch failure maps through its
/// fixed code, a finished loop reports its code, and a loop that has not
/// finished yet has no code.
pub open spec fn spec_run_code(outcome: RunOutcome) -> Option<u32> {
    match outcome {
        RunOutcome::FailedBeforeLaunch { failure } => Option::Some(failure.spec_code()),
        RunOutcome::Supervised { end } => match end {
            SupervisorState::Finished { code, .. } => Option::Some(code),
            SupervisorState::Polling { .. } => Option::None,
        },
    }
}

/// A launch specification with fewer than two elements fails with
/// [`ARGUMENT_AMOUNT_ERROR_CODE`], and no child is ever spawned.
pub proof fn lemma_too_few_arguments(
    args: Seq<Option<Seq<char>>>,
    resolves: bool,
    spawns: bool,
    ticks: Seq<Tick>,
)
    requires
        args.len() < 2,
    ensures
        spec_run(args, resolves, spawns, ticks) == (RunOutcome::FailedBeforeLaunch {
            failure: LaunchFailure::TooFewArguments,
        }),
        spec_run_code(spec_run(args, resolves, spawns, ticks)) == Option::Some(
            ARGUMENT_AMOUNT_ERROR_CODE,
        ),
        !spec_attempts_spawn(args, resolves),
{
}

/// A path element that decodes to text but does not resolve to an existing
/// target fails with [`TARGET_PROCESS_NOT_FOUND_CODE`], and no child is
/// ever spawned.
pub proof fn lemma_unresolved_target(
    args: Seq<Option<Seq<char>>>,
    resolves: bool,
    spawns: bool,
    ticks: Seq<Tick>,
)
    requires
        args.len() >= 2,
        args[1] is Some,
        !resolves,
    ensures
        spec_run(args, resolves, spawns, ticks) == (RunOutcome::FailedBeforeLaunch {
            failure: LaunchFailure::TargetNotFound,
        }),
        spec_run_code(spec_run(args, resolves, spawns, ticks)) == Option::Some(
            TARGET_PROCESS_NOT_FOUND_CODE,
        ),
        !spec_attempts_spawn(args, resolves),
{
}

} // verus!

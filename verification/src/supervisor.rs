//! The supervision loop's state machine.
//!
//! The host polls the child process once per iteration and reports what it
//! observed as a [`Tick`]: whether the child has exited (and with which raw
//! status), is still running (and whether a stop request is pending), or
//! whether the liveness query itself failed. [`step`] consumes one tick and
//! decides how supervision continues; the host only carries out the decision
//! (keep polling, or kill the child and report the final code).
//!
//! The spec-level function [`run_state`] folds [`spec_step`] over a whole
//! sequence of ticks; it is the mathematical model of the loop that the
//! proofs in this module and in [`crate::model`] are stated over.

use vstd::prelude::*;

use crate::codes::CHILD_PROCESS_ERROR_CODE;
use crate::codes::STOP_SERVICE_CODE;
use crate::codes::UNKNOWN_ERROR_CODE;

verus! {

/// One non-blocking liveness observation of the child process.
#[derive(Clone, Copy, Debug, PartialEq, Eq)]
pub enum ChildPoll {
    /// The child has exited. The payload is the child's own numeric exit
    /// code, or `None` when the status carries no interpretable code
    /// (for example, the child was killed by an uncatchable signal).
    Exited(Option<i32>),
    /// The child is still running.
    Running,
    /// The liveness query itself failed at the OS level.
    Failed,
}

/// Everything the supervisor learns in one polling iteration.
#[derive(Clone, Copy, Debug, PartialEq, Eq)]
pub struct Tick {
    /// What the liveness poll observed.
    pub poll: ChildPoll,
    /// Whether a shutdown request was observable this iteration. The
    /// supervisor only consults it while the child is still running:
    /// a natural exit always takes precedence.
    pub stop_requested: bool,
}

/// The supervisor's state between polling iterations.
#[derive(Clone, Copy, Debug, PartialEq, Eq, Structural)]
pub enum SupervisorState {
    /// The loop is still polling. `pending` is the provisional result
    /// code; transient poll failures overwrite it, but every way the
    /// loop can end replaces it outright.
    Polling { pending: u32 },
    /// The loop has ended with result `code`. When `kill_child` is set,
    /// the host must issue a best-effort termination request for the
    /// child before reporting the code.
    Finished { code: u32, kill_child: bool },
}

/// The result code derived from a child's raw exit status: the child's own
/// code reduced modulo 2^32, or [`UNKNOWN_ERROR_CODE`] when no numeric code
/// was available.
pub open spec fn spec_exit_code(status: Option<i32>) -> u32 {
    match status {
        Option::Some(c) => if c >= 0 {
            c as u32
        } else {
            (c + 0x1_0000_0000) as u32
        },
        Option::None => UNKNOWN_ERROR_CODE,
    }
}

/// Maps a child's raw exit status to the supervisor's result code.
pub fn exit_code_from_status(status: Option<i32>) -> (code: u32)
    ensures
        code == spec_exit_code(status),
{
    match status {
        Option::Some(c) => {
            if c >= 0 {
                c as u32
            } else {
                let wide: i64 = c as i64;
                (wide + 0x1_0000_0000i64) as u32
            }
        },
        Option::None => UNKNOWN_ERROR_CODE,
    }
}

/// The state the supervisor starts polling in: no failure seen yet, so the
/// provisional code is 0.
pub open spec fn initial_state() -> SupervisorState {
    SupervisorState::Polling { pending: 0 }
}

/// The loop's transition function.
///
/// While polling: a child exit ends the loop with the child's own code
/// (checked before the stop request, so an exit wins any tie); otherwise a
/// pending stop request ends the loop with [`STOP_SERVICE_CODE`] and asks
/// the host to kill the child; otherwise a failed poll merely records
/// [`CHILD_PROCESS_ERROR_CODE`] as the provisional code and polling goes
/// on. A finished state absorbs every further tick.
pub open spec fn spec_step(state: SupervisorState, tick: Tick) -> SupervisorState {
    match state {
        SupervisorState::Finished { .. } => state,
        SupervisorState::Polling { pending } => match tick.poll {
            ChildPoll::Exited(status) => SupervisorState::Finished {
                code: spec_exit_code(status),
                kill_child: false,
            },
            ChildPoll::Running => if tick.stop_requested {
                SupervisorState::Finished { code: STOP_SERVICE_CODE, kill_child: true }
            } else {
                SupervisorState::Polling { pending }
            },
            ChildPoll::Failed => SupervisorState::Polling { pending: CHILD_PROCESS_ERROR_CODE },
        },
    }
}

/// Returns the supervisor's initial state.
pub fn start_polling() -> (s: SupervisorState)
    ensures
        s == initial_state(),
{
    SupervisorState::Polling { pending: 0 }
}

/// Advances the supervisor by one polling iteration.
pub fn step(state: SupervisorState, tick: Tick) -> (next: SupervisorState)
    ensures
        next == spec_step(state, tick),
{
    match state {
        SupervisorState::Finished { code, kill_child } => SupervisorState::Finished {
            code,
            kill_child,
        },
        SupervisorState::Polling { pending } => match tick.poll {
            ChildPoll::Exited(status) => SupervisorState::Finished {
                code: exit_code_from_status(status),
                kill_child: false,
            },
            ChildPoll::Running => if tick.stop_requested {
                SupervisorState::Finished { code: STOP_SERVICE_CODE, kill_child: true }
            } else {
                SupervisorState::Polling { pending }
            },
            ChildPoll::Failed => SupervisorState::Polling { pending: CHILD_PROCESS_ERROR_CODE },
        },
    }
}

/// The state reached after consuming a whole sequence of ticks.
pub open spec fn run_state(state: SupervisorState, ticks: Seq<Tick>) -> SupervisorState
    decreases ticks.len(),
{
    if ticks.len() == 0 {
        state
    } else {
        run_state(spec_step(state, ticks[0]), ticks.drop_first())
    }
}

/// A tick that keeps a polling supervisor polling: the child was seen
/// running with no stop request pending, or the poll itself failed.
pub open spec fn keeps_polling(tick: Tick) -> bool {
    ||| tick.poll is Failed
    ||| (tick.poll is Running && !tick.stop_requested)
}

/// Replays the supervision loop over a recorded sequence of ticks.
pub fn run_ticks(ticks: &Vec<Tick>) -> (s: SupervisorState)
    ensures
        s == run_state(initial_state(), ticks@),
{
    let mut state = start_polling();
    let mut i: usize = 0;
    proof {
        assert(ticks@.skip(0) =~= ticks@);
    }
    while i < ticks.len()
        invariant
            i <= ticks@.len(),
            run_state(initial_state(), ticks@) == run_state(state, ticks@.skip(i as int)),
        decreases ticks@.len() - i,
    {
        proof {
            assert(ticks@.skip(i as int)[0] == ticks@[i as int]);
            assert(ticks@.skip(i as int).drop_first() =~= ticks@.skip(i as int + 1));
        }
        state = step(state, ticks[i]);
        i = i + 1;
    }
    proof {
        assert(ticks@.skip(ticks@.len() as int) =~= Seq::<Tick>::empty());
    }
    state
}

/// Once the loop has finished, no further tick changes anything: the
/// result code is produced exactly once per supervision run.
pub proof fn lemma_finished_absorbs(state: SupervisorState, ticks: Seq<Tick>)
    requires
        state is Finished,
    ensures
        run_state(state, ticks) == state,
    decreases ticks.len(),
{
    if ticks.len() > 0 {
        lemma_finished_absorbs(state, ticks.drop_first());
    }
}

/// A natural child exit takes precedence over a stop request: when both
/// are observable in the same polling iteration, the loop ends with the
/// child's own code, never with [`STOP_SERVICE_CODE`]'s graceful-stop
/// meaning, and no kill request is issued.
pub proof fn lemma_exit_wins_tie(pending: u32, status: Option<i32>, stop_requested: bool)
    ensures
        spec_step(
            SupervisorState::Polling { pending },
            (Tick { poll: ChildPoll::Exited(status), stop_requested }),
        ) == (SupervisorState::Finished { code: spec_exit_code(status), kill_child: false }),
        spec_step(
            SupervisorState::Polling { pending },
            (Tick { poll: ChildPoll::Exited(status), stop_requested: true }),
        ) == spec_step(
            SupervisorState::Polling { pending },
            (Tick { poll: ChildPoll::Exited(status), stop_requested: false }),
        ),
{
}

/// If every tick before position `k` keeps the loop polling and tick `k`
/// observes a child exit, the run ends with the code derived from that
/// exit status and no kill request — whatever any tick says about stop
/// requests.
pub proof fn lemma_exit_ends_loop(state: SupervisorState, ticks: Seq<Tick>, k: int)
    requires
        state is Polling,
        0 <= k < ticks.len(),
        forall|j: int| 0 <= j < k ==> keeps_polling(#[trigger] ticks[j]),
        ticks[k].poll is Exited,
    ensures
        run_state(state, ticks) == (SupervisorState::Finished {
            code: spec_exit_code(ticks[k].poll->0),
            kill_child: false,
        }),
    decreases k,
{
    if k == 0 {
        lemma_finished_absorbs(spec_step(state, ticks[0]), ticks.drop_first());
    } else {
        assert(keeps_polling(ticks[0]));
        let rest = ticks.drop_first();
        assert forall|j: int| 0 <= j < k - 1 implies keeps_polling(#[trigger] rest[j]) by {
            assert(rest[j] == ticks[j + 1]);
        }
        assert(rest[k - 1] == ticks[k]);
        lemma_exit_ends_loop(spec_step(state, ticks[0]), rest, k - 1);
    }
}

/// If every tick before position `k` keeps the loop polling and tick `k`
/// observes the child still running with a stop request pending, the run
/// ends with [`STOP_SERVICE_CODE`] and a kill request for the child.
pub proof fn lemma_stop_ends_loop(state: SupervisorState, ticks: Seq<Tick>, k: int)
    requires
        state is Polling,
        0 <= k < ticks.len(),
        forall|j: int| 0 <= j < k ==> keeps_polling(#[trigger] ticks[j]),
        ticks[k].poll is Running,
        ticks[k].stop_requested,
    ensures
        run_state(state, ticks) == (SupervisorState::Finished {
            code: STOP_SERVICE_CODE,
            kill_child: true,
        }),
    decreases k,
{
    if k == 0 {
        lemma_finished_absorbs(spec_step(state, ticks[0]), ticks.drop_first());
    } else {
        assert(keeps_polling(ticks[0]));
        let rest = ticks.drop_first();
        assert forall|j: int| 0 <= j < k - 1 implies keeps_polling(#[trigger] rest[j]) by {
            assert(rest[j] == ticks[j + 1]);
        }
        assert(rest[k - 1] == ticks[k]);
        lemma_stop_ends_loop(spec_step(state, ticks[0]), rest, k - 1);
    }
}

/// A target that exits with its own code `e` (0 <= e < 256) before any
/// stop request was observed surfaces exactly `e` as the result code.
pub proof fn lemma_natural_exit_code(ticks: Seq<Tick>, k: int, e: i32)
    requires
        0 <= k < ticks.len(),
        forall|j: int| 0 <= j < k ==> keeps_polling(#[trigger] ticks[j]),
        ticks[k].poll == ChildPoll::Exited(Option::Some(e)),
        0 <= e < 256,
    ensures
        ({
            let end = run_state(initial_state(), ticks);
            &&& end matches SupervisorState::Finished { code, kill_child }
            &&& code == e
            &&& !kill_child
        }),
{
    lemma_exit_ends_loop(initial_state(), ticks, k);
}

/// Shutdown is one-shot in effect: whatever ticks follow a finished run —
/// in particular ones carrying a second stop request after the first was
/// already observed and consumed — the outcome does not change.
pub proof fn lemma_outcome_stable(state: SupervisorState, ticks: Seq<Tick>, extra: Seq<Tick>)
    requires
        run_state(state, ticks) is Finished,
    ensures
        run_state(state, ticks + extra) == run_state(state, ticks),
    decreases ticks.len(),
{
    if ticks.len() == 0 {
        assert(ticks + extra =~= extra);
        lemma_finished_absorbs(state, extra);
    } else {
        assert((ticks + extra)[0] == ticks[0]);
        assert((ticks + extra).drop_first() =~= ticks.drop_first() + extra);
        lemma_outcome_stable(spec_step(state, ticks[0]), ticks.drop_first(), extra);
    }
}

} // verus!

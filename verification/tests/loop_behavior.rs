use sombra_service::supervisor::ChildPoll;
use sombra_service::supervisor::SupervisorState;
use sombra_service::supervisor::Tick;
use sombra_service::supervisor::exit_code_from_status;
use sombra_service::supervisor::run_ticks;
use sombra_service::supervisor::start_polling;
use sombra_service::supervisor::step;

fn running(stop_requested: bool) -> Tick {
    Tick { poll: ChildPoll::Running, stop_requested }
}

fn exited(code: Option<i32>, stop_requested: bool) -> Tick {
    Tick { poll: ChildPoll::Exited(code), stop_requested }
}

fn failed() -> Tick {
    Tick { poll: ChildPoll::Failed, stop_requested: false }
}

#[test]
fn immediate_exit_surfaces_child_code() {
    let end = run_ticks(&vec![exited(Some(17), false)]);
    assert_eq!(end, SupervisorState::Finished { code: 17, kill_child: false });
}

#[test]
fn immediate_exit_with_code_zero() {
    let end = run_ticks(&vec![exited(Some(0), false)]);
    assert_eq!(end, SupervisorState::Finished { code: 0, kill_child: false });
}

#[test]
fn exit_after_some_polling_surfaces_child_code() {
    let ticks = vec![running(false), running(false), exited(Some(255), false)];
    let end = run_ticks(&ticks);
    assert_eq!(end, SupervisorState::Finished { code: 255, kill_child: false });
}

#[test]
fn stop_request_kills_child_and_reports_stop_code() {
    let ticks = vec![running(false), running(true)];
    let end = run_ticks(&ticks);
    assert_eq!(end, SupervisorState::Finished { code: 1, kill_child: true });
}

#[test]
fn stop_request_on_first_poll() {
    let end = run_ticks(&vec![running(true)]);
    assert_eq!(end, SupervisorState::Finished { code: 1, kill_child: true });
}

#[test]
fn natural_exit_wins_a_tie_with_a_stop_request() {
    let end = run_ticks(&vec![exited(Some(5), true)]);
    assert_eq!(end, SupervisorState::Finished { code: 5, kill_child: false });
}

#[test]
fn second_stop_request_has_no_effect() {
    let once = run_ticks(&vec![running(true)]);
    let twice = run_ticks(&vec![running(true), running(true)]);
    assert_eq!(once, twice);
    assert_eq!(twice, SupervisorState::Finished { code: 1, kill_child: true });
}

#[test]
fn ticks_after_a_natural_exit_have_no_effect() {
    let short = run_ticks(&vec![exited(Some(9), false)]);
    let long = run_ticks(&vec![exited(Some(9), false), running(true), failed()]);
    assert_eq!(short, long);
}

#[test]
fn poll_failure_keeps_the_loop_running() {
    let ticks = vec![failed(), failed(), exited(Some(0), false)];
    let end = run_ticks(&ticks);
    assert_eq!(end, SupervisorState::Finished { code: 0, kill_child: false });
}

#[test]
fn poll_failure_overwrites_the_pending_code() {
    let state = step(start_polling(), failed());
    assert_eq!(state, SupervisorState::Polling { pending: 2 });
}

#[test]
fn stop_request_during_poll_failure_is_not_consumed() {
    // The liveness poll failing means the loop never looks at the
    // shutdown signal that iteration; it keeps polling.
    let state = step(start_polling(), Tick { poll: ChildPoll::Failed, stop_requested: true });
    assert_eq!(state, SupervisorState::Polling { pending: 2 });
}

#[test]
fn a_finished_state_absorbs_further_ticks() {
    let done = SupervisorState::Finished { code: 42, kill_child: false };
    assert_eq!(step(done, running(true)), done);
    assert_eq!(step(done, exited(Some(0), false)), done);
    assert_eq!(step(done, failed()), done);
}

#[test]
fn exit_without_a_code_maps_to_unknown() {
    let end = run_ticks(&vec![exited(None, false)]);
    assert_eq!(end, SupervisorState::Finished { code: 3, kill_child: false });
    assert_eq!(exit_code_from_status(None), 3);
}

#[test]
fn exit_codes_map_through_unchanged() {
    assert_eq!(exit_code_from_status(Some(0)), 0);
    assert_eq!(exit_code_from_status(Some(1)), 1);
    assert_eq!(exit_code_from_status(Some(255)), 255);
    assert_eq!(exit_code_from_status(Some(i32::MAX)), i32::MAX as u32);
}

#[test]
fn negative_exit_codes_wrap_like_a_cast() {
    assert_eq!(exit_code_from_status(Some(-1)), u32::MAX);
    assert_eq!(exit_code_from_status(Some(i32::MIN)), 0x8000_0000);
}

#[test]
fn an_empty_tick_sequence_is_still_polling() {
    let end = run_ticks(&Vec::new());
    assert_eq!(end, SupervisorState::Polling { pending: 0 });
}

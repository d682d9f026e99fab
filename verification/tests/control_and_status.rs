use sombra_service::control::ControlAnswer;
use sombra_service::control::ControlEvent;
use sombra_service::control::decide_control;
use sombra_service::status::ReportedState;
use sombra_service::status::running_report;
use sombra_service::status::stopped_report;

#[test]
fn interrogate_is_acknowledged_without_effect() {
    let d = decide_control(ControlEvent::Interrogate);
    assert_eq!(d.answer, ControlAnswer::NoError);
    assert!(!d.signal_shutdown);
}

#[test]
fn stop_is_acknowledged_and_raises_the_shutdown_signal() {
    let d = decide_control(ControlEvent::Stop);
    assert_eq!(d.answer, ControlAnswer::NoError);
    assert!(d.signal_shutdown);
}

#[test]
fn other_events_are_not_implemented() {
    let d = decide_control(ControlEvent::Other);
    assert_eq!(d.answer, ControlAnswer::NotImplemented);
    assert!(!d.signal_shutdown);
}

#[test]
fn the_initial_report_is_running_and_accepts_stop() {
    let r = running_report();
    assert_eq!(r.state, ReportedState::Running);
    assert!(r.accepts_stop);
    assert_eq!(r.exit_code, 0);
    assert_eq!(r.checkpoint, 0);
    assert_eq!(r.wait_hint_ms, 0);
}

#[test]
fn the_terminal_report_carries_the_result_code_unchanged() {
    for code in [0u32, 1, 2, 3, 4, 5, 6, 255, u32::MAX] {
        let r = stopped_report(code);
        assert_eq!(r.state, ReportedState::Stopped);
        assert!(r.accepts_stop);
        assert_eq!(r.exit_code, code);
    }
}

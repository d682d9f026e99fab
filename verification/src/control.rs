//! Decisions for service-manager control events.
//!
//! The host registers a callback with the service manager and forwards
//! each incoming control event here; the decision tells it what to answer
//! and whether to raise the shutdown signal for the supervision loop.

use vstd::prelude::*;

verus! {

/// A control event delivered by the service manager, reduced to the cases
/// the supervisor distinguishes.
#[derive(Clone, Copy, Debug, PartialEq, Eq, Structural)]
pub enum ControlEvent {
    /// A liveness interrogation.
    Interrogate,
    /// A stop request.
    Stop,
    /// Any other control event.
    Other,
}

/// The answer the callback reports back to the service manager.
#[derive(Clone, Copy, Debug, PartialEq, Eq, Structural)]
pub enum ControlAnswer {
    /// The event was handled.
    NoError,
    /// The event is not implemented by this service.
    NotImplemented,
}

/// What the callback must do for one control event.
#[derive(Clone, Copy, Debug, PartialEq, Eq, Structural)]
pub struct ControlDecision {
    /// The answer to report to the service manager.
    pub answer: ControlAnswer,
    /// Whether to send the one-shot shutdown signal to the supervisor.
    pub signal_shutdown: bool,
}

/// Decides how to react to a control event: interrogation is acknowledged
/// without further effect, a stop request is acknowledged and raises the
/// shutdown signal, and everything else is reported as not implemented.
pub fn decide_control(event: ControlEvent) -> (d: ControlDecision)
    ensures
        event is Interrogate ==> d == (ControlDecision {
            answer: ControlAnswer::NoError,
            signal_shutdown: false,
        }),
        event is Stop ==> d == (ControlDecision {
            answer: ControlAnswer::NoError,
            signal_shutdown: true,
        }),
        event is Other ==> d == (ControlDecision {
            answer: ControlAnswer::NotImplemented,
            signal_shutdown: false,
        }),
{
    match event {
        ControlEvent::Interrogate => ControlDecision {
            answer: ControlAnswer::NoError,
            signal_shutdown: false,
        },
        ControlEvent::Stop => ControlDecision {
            answer: ControlAnswer::NoError,
            signal_shutdown: true,
        },
        ControlEvent::Other => ControlDecision {
            answer: ControlAnswer::NotImplemented,
            signal_shutdown: false,
        },
    }
}

} // verus!

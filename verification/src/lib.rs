//! Verified core of a single-process service supervisor.
//!
//! The library models the decisions a service host makes while it
//! supervises one child process: validating launch arguments, mapping a
//! child's exit status to a result code, reacting to control events, and
//! driving the polling loop that decides when supervision ends and with
//! which code. The host performs the actual process and service-manager
//! calls and feeds their observations back into these functions.

pub mod codes;
pub mod control;
pub mod launch;
pub mod model;
pub mod name;
pub mod status;
pub mod supervisor;

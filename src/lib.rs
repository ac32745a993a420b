//! Raw packet-capture engine.
//!
//! The engine is written as a set of verified decision procedures: the
//! protocol-stack reference count, the socket-session open/close sequence, the
//! capture loop and the per-interface orchestration. Each takes the outcome of an
//! operating-system call as an input value and returns the next state and the
//! next action to perform, so the caller owns all I/O while every decision is
//! proved against its contract.
use vstd::prelude::*;

pub mod capture;
pub mod error;
pub mod interface;
pub mod orchestrator;
pub mod packet;
pub mod session;
pub mod stack;

verus! {

/// Library-wide initialisation hook.
///
/// The engine keeps no global state outside the values it hands out, so there is
/// nothing to set up; the function exists so that hosts can call it
/// unconditionally at start-up.
pub fn initialize_lib() {
}

} // verus!

//! Cooperative cancellation for long-running service loops.
//!
//! A service implements [`Cancellable`] by saying what one step of its work does.
//! [`Cancellable::run`] repeats that step until the service stops by itself;
//! [`Cancellable::run_cancellable`] does the same, but looks at a [`Canceller`]
//! between steps and ends the loop once it has been cancelled. A step that is
//! under way is never interrupted.

pub mod canceller;
pub mod laws;
pub mod outcome;
pub mod service;
pub mod trace;

pub use canceller::Canceller;
pub use outcome::{settle, LoopState};
pub use service::Cancellable;

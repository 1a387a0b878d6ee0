//! A single-shot delay primitive for cooperatively scheduled asynchronous
//! tasks.
//!
//! A [`Timer`] is constructed from a duration and becomes ready only after
//! that duration has elapsed, without ever blocking the task-hosting thread.
//! The handle itself holds no clock: a driver (an executor together with a
//! detached worker) polls the handle and, once the deadline has passed, lets
//! the worker commit completion. The verified core of the crate is the timer
//! state machine: how a poll arms the timer exactly once, how the worker's
//! commit makes the ready state terminal, and what every poll reports in
//! every reachable state.

pub mod timer;

pub use timer::set_timeout;
pub use timer::Timer;

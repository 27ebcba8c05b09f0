//! The concurrency engine of a chat load generator, as verified decision logic.
//!
//! Every simulated user runs a background poll loop and a weighted action
//! scheduler, sends its requests through a retrying dispatcher, and stops
//! cooperatively once the shared cancellation signal is raised. This crate
//! holds the rules of those parts as functions from plain values to plain
//! values; the code that awaits, sleeps and talks to the network drives them.

pub mod cancel;
pub mod chance;
pub mod content;
pub mod delay;
pub mod dispatch;
pub mod fixture;
pub mod lifecycle;
pub mod naming;
pub mod poll;
pub mod room;
pub mod schedule;
pub mod session;
pub mod settings;

pub use delay::task_sleep;

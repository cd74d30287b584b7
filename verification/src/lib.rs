//! Concurrency and timing core of a USB keyboard firmware that also blinks a
//! heartbeat LED from a timer interrupt.
//!
//! The crate holds the decisions of the firmware as verified state machines
//! on plain values: the one-time handoff of peripheral handles into the
//! interrupt context, the lazily armed heartbeat handler, periodic soft
//! timers, and the cooperative scheduler that orders the work of one
//! foreground iteration. Hardware access stays with the caller, which
//! performs each action the state machines ask for and reports what came of
//! it. A deterministic simulation drives the same state machines from
//! synthetic tick counts.

pub mod config;
pub mod handoff;
pub mod heartbeat;
pub mod laws;
pub mod report;
pub mod scheduler;
pub mod sim;
pub mod timer;

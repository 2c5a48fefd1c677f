//! Crash diagnostics for tests under CI. A coordinator arms a watchdog before
//! the test body runs and disarms it afterwards; the watchdog turns a SIGTERM
//! into a backtrace dump of every thread followed by an abort. Both are state
//! machines: the caller performs the actions they return and reports events.
pub mod coordinator;
pub mod debugger;
pub mod gate;
pub mod watchdog;

//! Waiting for a named pipe to be written and closed, and handing the text that
//! was written to a single asynchronous consumer.
//!
//! The crate holds the decisions of that job: what counts as the captured text,
//! how the state shared between the blocking worker and the polling task moves,
//! in which order the readiness calls are made and when one of them is fatal,
//! and what the command line and the status lines look like. Everything here is
//! a function from plain values to plain values; the host program performs the
//! blocking calls, the locking and the printing.

pub mod bridge;
pub mod driver;
pub mod fault;
pub mod readiness;
pub mod text;

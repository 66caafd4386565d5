//! The failures that end the process on the spot.
//!
//! A command line that names no pipe is no such failure: it is answered with a
//! message and an exit code (see `driver`). A fault is never retried and never
//! passed over; the host aborts the process with the fault's diagnostic.

use crate::readiness::OsFailure;
use vstd::prelude::*;
use vstd::string::*;

verus! {

/// A failure from which the process does not recover.
#[derive(Clone, Copy, Debug, PartialEq, Eq, Structural)]
pub enum Fault {
    /// A call to the operating system has failed.
    Os(OsFailure),
    /// The capture is complete but its text is gone: it was taken before.
    InvariantViolation,
}

impl Fault {
    /// The diagnostic to abort with.
    pub open spec fn diagnostic_text(self) -> Seq<char> {
        match self {
            Fault::Os(failure) => failure.diagnostic_text(),
            Fault::InvariantViolation => "the captured text was taken before"@,
        }
    }

    /// The diagnostic to abort with: for a failed system call, the call and
    /// the system's error code.
    pub fn diagnostic(&self) -> (text: String)
        ensures
            text@ == self.diagnostic_text(),
    {
        match self {
            Fault::Os(failure) => failure.diagnostic(),
            Fault::InvariantViolation => String::from_str("the captured text was taken before"),
        }
    }
}

} // verus!

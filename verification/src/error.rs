//! The failure taxonomy of the daemon.

use vstd::prelude::*;

verus! {

/// What went wrong during one step of the daemon's work.
///
/// No error is ever fatal: discovery failures are retried forever, bridge
/// and timeout failures poison the connection and force rediscovery, and
/// persistence failures are reported and otherwise ignored.
#[derive(Clone, Copy, PartialEq, Eq, Structural, Debug)]
pub enum Error {
    /// No bridge was found, or the discovery transport failed.
    Discovery,
    /// Authentication, transport or malformed-response failure talking to a
    /// connected bridge.
    Bridge,
    /// Writing the snapshot failed.
    Persistence,
    /// A cycle exceeded its time budget.
    Timeout,
}

impl Error {
    /// A short description of the error, for logs.
    pub fn describe(&self) -> (s: &'static str)
        ensures
            match self {
                Error::Discovery => s@ == "no bridge found"@,
                Error::Bridge => s@ == "bridge failure"@,
                Error::Persistence => s@ == "snapshot write failure"@,
                Error::Timeout => s@ == "cycle timed out"@,
            },
    {
        match self {
            Error::Discovery => "no bridge found",
            Error::Bridge => "bridge failure",
            Error::Persistence => "snapshot write failure",
            Error::Timeout => "cycle timed out",
        }
    }
}

} // verus!

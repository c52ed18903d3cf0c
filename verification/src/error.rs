//! The ways a run can fail.

use vstd::prelude::*;

verus! {

/// Why a run stopped before the branch was moved.
#[derive(Clone, Copy, Debug, PartialEq, Eq, Structural)]
pub enum CommitError {
    /// The configuration is unreadable or incomplete.
    ConfigError,
    /// The reachability probe before the run failed.
    ConnectivityError,
    /// The branch tip could not be found or its reply could not be read.
    RemoteLookupError,
    /// An object creation or a reference update was refused or unreadable.
    RemoteWriteError,
}

impl CommitError {
    /// The text of the message for each error.
    pub open spec fn message(self) -> Seq<char> {
        match self {
            CommitError::ConfigError => "configuration is missing or malformed"@,
            CommitError::ConnectivityError => "No internet connection"@,
            CommitError::RemoteLookupError => "branch lookup failed"@,
            CommitError::RemoteWriteError => "remote write failed"@,
        }
    }

    /// A one-line message for the user.
    pub fn describe(&self) -> (text: &'static str)
        ensures
            text@ == self.message(),
    {
        match self {
            CommitError::ConfigError => "configuration is missing or malformed",
            CommitError::ConnectivityError => "No internet connection",
            CommitError::RemoteLookupError => "branch lookup failed",
            CommitError::RemoteWriteError => "remote write failed",
        }
    }
}

} // verus!

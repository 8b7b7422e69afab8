//! The kinds of failure that the synchronisation loop knows.

use vstd::prelude::*;

verus! {

/// Every failure the daemon can meet. Only `ConfigError` ends the process,
/// and only at startup; the other four are met inside a cycle and never leave
/// it.
#[derive(Clone, Copy, Debug, PartialEq, Eq, Structural)]
pub enum ErrorKind {
    /// The configuration is missing or cannot be used.
    ConfigError,
    /// The hosting service could not be reached.
    RemoteUnavailable,
    /// The hosting service answered, but not with a commit identifier.
    RemoteProtocolError,
    /// The local repository cannot be opened or has no resolvable head.
    LocalRepoUnavailable,
    /// The pull could not be run or did not succeed.
    SyncActionFailed,
}

impl ErrorKind {
    /// Whether the loop goes on after a failure of this kind.
    pub open spec fn recoverable(self) -> bool {
        self != ErrorKind::ConfigError
    }

    /// Whether the loop goes on after a failure of this kind: true of all
    /// but `ConfigError`.
    pub fn is_recoverable(&self) -> (r: bool)
        ensures
            r == self.recoverable(),
    {
        match self {
            ErrorKind::ConfigError => false,
            _ => true,
        }
    }

    /// The name of the kind, as it is written in log lines.
    pub open spec fn name_text(self) -> Seq<char> {
        match self {
            ErrorKind::ConfigError => "ConfigError"@,
            ErrorKind::RemoteUnavailable => "RemoteUnavailable"@,
            ErrorKind::RemoteProtocolError => "RemoteProtocolError"@,
            ErrorKind::LocalRepoUnavailable => "LocalRepoUnavailable"@,
            ErrorKind::SyncActionFailed => "SyncActionFailed"@,
        }
    }

    /// The name of the kind, as it is written in log lines.
    pub fn name(&self) -> (r: &'static str)
        ensures
            r@ == self.name_text(),
    {
        match self {
            ErrorKind::ConfigError => "ConfigError",
            ErrorKind::RemoteUnavailable => "RemoteUnavailable",
            ErrorKind::RemoteProtocolError => "RemoteProtocolError",
            ErrorKind::LocalRepoUnavailable => "LocalRepoUnavailable",
            ErrorKind::SyncActionFailed => "SyncActionFailed",
        }
    }
}

} // verus!

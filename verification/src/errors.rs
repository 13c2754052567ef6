//! Error taxonomy. Every failure surfaces to the session state machine as a
//! terminal phase carrying a human-readable message; nothing is retried
//! inside the library.

use vstd::prelude::*;
use vstd::string::StringExecFns;

verus! {

/// Failure of a network read: the transport errored, the response status was
/// not a success, or the body was not text.
#[derive(Debug, Clone, PartialEq, Eq)]
pub enum FetchError {
    Transport(String),
    NonTextBody,
}

impl FetchError {
    /// Human-readable description.
    pub fn message(&self) -> (r: String)
        ensures
            self matches FetchError::Transport(m) ==> r@ == "network request failed: "@ + m@,
            self is NonTextBody ==> r@ == "response body was not text"@,
    {
        match self {
            FetchError::Transport(m) => {
                let mut s = String::from_str("network request failed: ");
                s.append(m.as_str());
                s
            },
            FetchError::NonTextBody => String::from_str("response body was not text"),
        }
    }
}

/// Failure of the install transaction.
#[derive(Debug, Clone, PartialEq, Eq)]
pub enum InstallError {
    /// The archive could not be opened as a valid container.
    CorruptArchive,
    /// The archive does not contain the required executable entry.
    ExecutableMissing,
    /// A create, remove or copy on the filesystem failed.
    FilesystemError(String),
    /// A shortcut or registry write failed.
    ShellIntegrationError(String),
}

impl InstallError {
    /// Human-readable description.
    pub fn message(&self) -> (r: String)
        ensures
            self is CorruptArchive ==> r@ == "archive could not be opened"@,
            self is ExecutableMissing ==> r@ == "archive lacks the required executable"@,
            self matches InstallError::FilesystemError(m) ==> r@ == "filesystem operation failed: "@
                + m@,
            self matches InstallError::ShellIntegrationError(m) ==> r@
                == "shell integration failed: "@ + m@,
    {
        match self {
            InstallError::CorruptArchive => String::from_str("archive could not be opened"),
            InstallError::ExecutableMissing => String::from_str(
                "archive lacks the required executable",
            ),
            InstallError::FilesystemError(m) => {
                let mut s = String::from_str("filesystem operation failed: ");
                s.append(m.as_str());
                s
            },
            InstallError::ShellIntegrationError(m) => {
                let mut s = String::from_str("shell integration failed: ");
                s.append(m.as_str());
                s
            },
        }
    }
}

/// Failure of the uninstall transaction.
#[derive(Debug, Clone, PartialEq, Eq)]
pub enum UninstallError {
    /// A remove on the filesystem failed.
    FilesystemError(String),
    /// A shortcut or registry removal failed.
    ShellIntegrationError(String),
    /// The detached cleanup script could not be written or launched.
    SelfDestructSpawnError(String),
}

impl UninstallError {
    /// Human-readable description.
    pub fn message(&self) -> (r: String)
        ensures
            self matches UninstallError::FilesystemError(m) ==> r@
                == "filesystem operation failed: "@ + m@,
            self matches UninstallError::ShellIntegrationError(m) ==> r@
                == "shell integration failed: "@ + m@,
            self matches UninstallError::SelfDestructSpawnError(m) ==> r@
                == "cleanup script could not be started: "@ + m@,
    {
        match self {
            UninstallError::FilesystemError(m) => {
                let mut s = String::from_str("filesystem operation failed: ");
                s.append(m.as_str());
                s
            },
            UninstallError::ShellIntegrationError(m) => {
                let mut s = String::from_str("shell integration failed: ");
                s.append(m.as_str());
                s
            },
            UninstallError::SelfDestructSpawnError(m) => {
                let mut s = String::from_str("cleanup script could not be started: ");
                s.append(m.as_str());
                s
            },
        }
    }
}

} // verus!

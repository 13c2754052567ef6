//! Session state machine: exactly one phase is active at a time, each
//! external event produces at most one transition and schedules at most one
//! new operation. The presentation layer renders the phase and feeds events
//! back; the driver performs the scheduled action and reports its outcome as
//! the next event.

use vstd::prelude::*;
use crate::platform::{Arch, Os};
use crate::resolver::{build_download_url, download_url_spec};
use crate::strutil::str_eq;

verus! {

/// The active phase of a session.
#[derive(Debug, Clone, PartialEq, Eq)]
pub enum SessionPhase {
    /// Nothing has happened yet.
    Idle,
    /// The latest-version endpoint is being read.
    Resolving,
    /// The latest version could not be resolved; terminal unless retried.
    ResolveFailed(String),
    /// The latest version and platform are known; waiting on the user.
    Ready { version: String, os: Os, arch: Arch, installed: bool },
    /// The artifact for this version is being fetched.
    Downloading(String),
    /// The install transaction for this version is running.
    Installing(String),
    /// This version is installed; terminal except for an uninstall request.
    Installed(String),
    /// Waiting for the user to confirm an uninstall.
    UninstallConfirmPending { self_destruct: bool },
    /// The uninstall transaction is running.
    Uninstalling { self_destruct: bool },
    /// The uninstall was accepted; terminal.
    Uninstalled,
    /// An operation failed; terminal.
    Failed(String),
}

/// A discrete external event: a completion or a user action.
#[derive(Debug, Clone, PartialEq, Eq)]
pub enum Event {
    /// The session starts normally.
    Launched,
    /// The latest version was resolved, the platform probed, and an existing
    /// installation checked for.
    ResolveSucceeded { version: String, os: Os, arch: Arch, installed: bool },
    /// The latest version could not be resolved.
    ResolveFailed(String),
    /// The user asked to retry after a failed resolve.
    Retry,
    /// The user asked to install or update.
    InstallRequested,
    /// The artifact's bytes arrived.
    FetchSucceeded(Vec<u8>),
    /// The artifact could not be fetched.
    FetchFailed(String),
    /// The install transaction finished with this version.
    InstallSucceeded(String),
    /// The install transaction failed.
    InstallFailed(String),
    /// The user asked to uninstall.
    UninstallRequested,
    /// The user confirmed the uninstall.
    UninstallConfirmed,
    /// The uninstall transaction was accepted.
    UninstallSucceeded,
    /// The uninstall transaction failed.
    UninstallFailed(String),
}

/// The single asynchronous operation a transition schedules, if any.
#[derive(Debug, Clone, PartialEq, Eq)]
pub enum Action {
    /// Nothing to do.
    Nothing,
    /// Read the latest-version endpoint, probe the platform, and check
    /// whether an installation is present.
    Resolve,
    /// Fetch the artifact at this URL.
    Fetch(String),
    /// Run the install transaction with this version and these bytes.
    RunInstall(String, Vec<u8>),
    /// Run the uninstall transaction; the flag selects the self-destruct
    /// strategy.
    RunUninstall(bool),
    /// Terminate the process: a self-destruct uninstall has handed removal to
    /// the detached cleanup script.
    ExitProcess,
}

/// Whether the transition table has a row for this phase/event pair; any
/// other pair leaves the phase unchanged and schedules nothing.
pub open spec fn table_has_row(phase: SessionPhase, event: Event) -> bool {
    ||| (phase is Idle && event is Launched)
    ||| (phase is Resolving && (event is ResolveSucceeded || event is ResolveFailed))
    ||| (phase is ResolveFailed && event is Retry)
    ||| (phase is Ready && (event is InstallRequested || event is UninstallRequested))
    ||| (phase is Downloading && (event is FetchSucceeded || event is FetchFailed))
    ||| (phase is Installing && (event is InstallSucceeded || event is InstallFailed))
    ||| (phase is Installed && event is UninstallRequested)
    ||| (phase is UninstallConfirmPending && event is UninstallConfirmed)
    ||| (phase is Uninstalling && (event is UninstallSucceeded || event is UninstallFailed))
}

/// The first phase of a session, with the operation it schedules. A process
/// whose executable is the dedicated uninstaller name starts directly at the
/// uninstall confirmation with the self-destruct strategy; any other start
/// begins resolving the latest version.
pub fn initial_phase(exe_file_name: Option<&str>) -> (r: (SessionPhase, Action))
    ensures
        (match exe_file_name {
            Some(n) => n@ == "uninstall.exe"@,
            None => false,
        }) ==> r.0 == (SessionPhase::UninstallConfirmPending { self_destruct: true }) && r.1
            is Nothing,
        !(match exe_file_name {
            Some(n) => n@ == "uninstall.exe"@,
            None => false,
        }) ==> r.0 is Resolving && r.1 is Resolve,
{
    match exe_file_name {
        Some(name) => {
            if str_eq(name, "uninstall.exe") {
                (SessionPhase::UninstallConfirmPending { self_destruct: true }, Action::Nothing)
            } else {
                (SessionPhase::Resolving, Action::Resolve)
            }
        },
        None => (SessionPhase::Resolving, Action::Resolve),
    }
}

/// One step of the state machine: the next phase and the one operation it
/// schedules, from the transition table; a pair outside the table changes
/// nothing.
pub fn step(phase: SessionPhase, event: Event) -> (r: (SessionPhase, Action))
    ensures
        phase is Idle ==> (event is Launched ==> r.0 is Resolving && r.1 is Resolve),
        phase is Resolving ==> (event matches Event::ResolveSucceeded {
            version,
            os,
            arch,
            installed,
        } ==> (r.0 matches SessionPhase::Ready {
            version: v,
            os: o,
            arch: a,
            installed: i,
        } && v@ == version@ && o == os && a == arch && i == installed && r.1 is Nothing)),
        phase is Resolving ==> (event matches Event::ResolveFailed(reason) ==> (
        r.0 matches SessionPhase::ResolveFailed(m) && m@ == reason@ && r.1 is Nothing)),
        phase is ResolveFailed ==> (event is Retry ==> r.0 is Idle && r.1 is Nothing),
        phase matches SessionPhase::Ready { version, os, arch, installed } ==> (event
            is InstallRequested ==> ((r.0 matches SessionPhase::Downloading(v) && v@ == version@)
            && (r.1 matches Action::Fetch(u) && u@ == download_url_spec(version@, os, arch)))),
        (phase is Ready || phase is Installed) ==> (event is UninstallRequested ==> r.0 == (
        SessionPhase::UninstallConfirmPending { self_destruct: false }) && r.1 is Nothing),
        phase matches SessionPhase::Downloading(version) ==> (event matches Event::FetchSucceeded(
            bytes,
        ) ==> ((r.0 matches SessionPhase::Installing(v) && v@ == version@)
            && (r.1 matches Action::RunInstall(v2, b) && v2@ == version@ && b@ == bytes@))),
        phase is Downloading ==> (event matches Event::FetchFailed(reason) ==> (
        r.0 matches SessionPhase::Failed(m) && m@ == reason@ && r.1 is Nothing)),
        phase is Installing ==> (event matches Event::InstallSucceeded(version) ==> (
        r.0 matches SessionPhase::Installed(v) && v@ == version@ && r.1 is Nothing)),
        phase is Installing ==> (event matches Event::InstallFailed(reason) ==> (
        r.0 matches SessionPhase::Failed(m) && m@ == reason@ && r.1 is Nothing)),
        phase matches SessionPhase::UninstallConfirmPending { self_destruct } ==> (event
            is UninstallConfirmed ==> r.0 == (SessionPhase::Uninstalling { self_destruct })
            && r.1 == Action::RunUninstall(self_destruct)),
        phase matches SessionPhase::Uninstalling { self_destruct } ==> (event
            is UninstallSucceeded ==> r.0 is Uninstalled && (self_destruct ==> r.1 is ExitProcess)
            && (!self_destruct ==> r.1 is Nothing)),
        phase is Uninstalling ==> (event matches Event::UninstallFailed(reason) ==> (
        r.0 matches SessionPhase::Failed(m) && m@ == reason@ && r.1 is Nothing)),
        !table_has_row(phase, event) ==> r.0 == phase && r.1 is Nothing,
{
    match (phase, event) {
        (SessionPhase::Idle, Event::Launched) => (SessionPhase::Resolving, Action::Resolve),
        (SessionPhase::Resolving, Event::ResolveSucceeded { version, os, arch, installed }) => (
            SessionPhase::Ready { version, os, arch, installed },
            Action::Nothing,
        ),
        (SessionPhase::Resolving, Event::ResolveFailed(reason)) => (
            SessionPhase::ResolveFailed(reason),
            Action::Nothing,
        ),
        (SessionPhase::ResolveFailed(_), Event::Retry) => (SessionPhase::Idle, Action::Nothing),
        (SessionPhase::Ready { version, os, arch, installed: _ }, Event::InstallRequested) => {
            let url = build_download_url(version.as_str(), os, arch);
            (SessionPhase::Downloading(version), Action::Fetch(url))
        },
        (SessionPhase::Ready { .. }, Event::UninstallRequested) => (
            SessionPhase::UninstallConfirmPending { self_destruct: false },
            Action::Nothing,
        ),
        (SessionPhase::Installed(_), Event::UninstallRequested) => (
            SessionPhase::UninstallConfirmPending { self_destruct: false },
            Action::Nothing,
        ),
        (SessionPhase::Downloading(version), Event::FetchSucceeded(bytes)) => {
            let v = version.clone();
            (SessionPhase::Installing(version), Action::RunInstall(v, bytes))
        },
        (SessionPhase::Downloading(_), Event::FetchFailed(reason)) => (
            SessionPhase::Failed(reason),
            Action::Nothing,
        ),
        (SessionPhase::Installing(_), Event::InstallSucceeded(version)) => (
            SessionPhase::Installed(version),
            Action::Nothing,
        ),
        (SessionPhase::Installing(_), Event::InstallFailed(reason)) => (
            SessionPhase::Failed(reason),
            Action::Nothing,
        ),
        (SessionPhase::UninstallConfirmPending { self_destruct }, Event::UninstallConfirmed) => (
            SessionPhase::Uninstalling { self_destruct },
            Action::RunUninstall(self_destruct),
        ),
        (SessionPhase::Uninstalling { self_destruct }, Event::UninstallSucceeded) => (
            SessionPhase::Uninstalled,
            if self_destruct {
                Action::ExitProcess
            } else {
                Action::Nothing
            },
        ),
        (SessionPhase::Uninstalling { .. }, Event::UninstallFailed(reason)) => (
            SessionPhase::Failed(reason),
            Action::Nothing,
        ),
        (p, _) => (p, Action::Nothing),
    }
}

} // verus!

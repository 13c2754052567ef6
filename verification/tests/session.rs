use twbm_installer::errors::{FetchError, InstallError, UninstallError};
use twbm_installer::platform::{Arch, Os};
use twbm_installer::session::{initial_phase, step, Action, Event, SessionPhase};

fn resolved() -> Event {
    Event::ResolveSucceeded {
        version: String::from("3.2.1"),
        os: Os::Windows,
        arch: Arch::X86_64,
        installed: false,
    }
}

#[test]
fn initial_phase_normal_start() {
    let (phase, action) = initial_phase(Some("installer.exe"));
    assert_eq!(phase, SessionPhase::Resolving);
    assert_eq!(action, Action::Resolve);
    let (phase, action) = initial_phase(None);
    assert_eq!(phase, SessionPhase::Resolving);
    assert_eq!(action, Action::Resolve);
}

#[test]
fn initial_phase_dedicated_uninstaller() {
    let (phase, action) = initial_phase(Some("uninstall.exe"));
    assert_eq!(
        phase,
        SessionPhase::UninstallConfirmPending { self_destruct: true }
    );
    assert_eq!(action, Action::Nothing);
}

#[test]
fn happy_path_to_installed() {
    let (phase, action) = step(SessionPhase::Idle, Event::Launched);
    assert_eq!(phase, SessionPhase::Resolving);
    assert_eq!(action, Action::Resolve);

    let (phase, action) = step(phase, resolved());
    assert_eq!(
        phase,
        SessionPhase::Ready {
            version: String::from("3.2.1"),
            os: Os::Windows,
            arch: Arch::X86_64,
            installed: false,
        }
    );
    assert_eq!(action, Action::Nothing);

    let (phase, action) = step(phase, Event::InstallRequested);
    assert_eq!(phase, SessionPhase::Downloading(String::from("3.2.1")));
    assert_eq!(
        action,
        Action::Fetch(String::from(
            "https://github.com/mq1/TinyWiiBackupManager/releases/download/v3.2.1/TinyWiiBackupManager-v3.2.1-windows-x86_64.zip"
        ))
    );

    let (phase, action) = step(phase, Event::FetchSucceeded(vec![1, 2, 3]));
    assert_eq!(phase, SessionPhase::Installing(String::from("3.2.1")));
    assert_eq!(
        action,
        Action::RunInstall(String::from("3.2.1"), vec![1, 2, 3])
    );

    let (phase, action) = step(phase, Event::InstallSucceeded(String::from("3.2.1")));
    assert_eq!(phase, SessionPhase::Installed(String::from("3.2.1")));
    assert_eq!(action, Action::Nothing);
}

#[test]
fn resolve_failure_and_retry() {
    let (phase, action) = step(
        SessionPhase::Resolving,
        Event::ResolveFailed(String::from("offline")),
    );
    assert_eq!(phase, SessionPhase::ResolveFailed(String::from("offline")));
    assert_eq!(action, Action::Nothing);

    let (phase, action) = step(phase, Event::Retry);
    assert_eq!(phase, SessionPhase::Idle);
    assert_eq!(action, Action::Nothing);
}

#[test]
fn fetch_failure_is_terminal() {
    let (phase, action) = step(
        SessionPhase::Downloading(String::from("3.2.1")),
        Event::FetchFailed(String::from("timeout")),
    );
    assert_eq!(phase, SessionPhase::Failed(String::from("timeout")));
    assert_eq!(action, Action::Nothing);
}

#[test]
fn install_failure_is_terminal() {
    let (phase, action) = step(
        SessionPhase::Installing(String::from("3.2.1")),
        Event::InstallFailed(String::from("disk full")),
    );
    assert_eq!(phase, SessionPhase::Failed(String::from("disk full")));
    assert_eq!(action, Action::Nothing);
}

#[test]
fn uninstall_flow_from_installed() {
    let (phase, action) = step(
        SessionPhase::Installed(String::from("3.2.1")),
        Event::UninstallRequested,
    );
    assert_eq!(
        phase,
        SessionPhase::UninstallConfirmPending { self_destruct: false }
    );
    assert_eq!(action, Action::Nothing);

    let (phase, action) = step(phase, Event::UninstallConfirmed);
    assert_eq!(phase, SessionPhase::Uninstalling { self_destruct: false });
    assert_eq!(action, Action::RunUninstall(false));

    let (phase, action) = step(phase, Event::UninstallSucceeded);
    assert_eq!(phase, SessionPhase::Uninstalled);
    assert_eq!(action, Action::Nothing);
}

#[test]
fn uninstall_flow_from_ready() {
    let ready = SessionPhase::Ready {
        version: String::from("3.2.1"),
        os: Os::Windows,
        arch: Arch::X86_64,
        installed: true,
    };
    let (phase, _) = step(ready, Event::UninstallRequested);
    assert_eq!(
        phase,
        SessionPhase::UninstallConfirmPending { self_destruct: false }
    );
}

#[test]
fn self_destruct_uninstall_exits_process() {
    let (phase, action) = step(
        SessionPhase::UninstallConfirmPending { self_destruct: true },
        Event::UninstallConfirmed,
    );
    assert_eq!(phase, SessionPhase::Uninstalling { self_destruct: true });
    assert_eq!(action, Action::RunUninstall(true));

    let (phase, action) = step(phase, Event::UninstallSucceeded);
    assert_eq!(phase, SessionPhase::Uninstalled);
    assert_eq!(action, Action::ExitProcess);
}

#[test]
fn uninstall_failure_is_terminal() {
    let (phase, action) = step(
        SessionPhase::Uninstalling { self_destruct: false },
        Event::UninstallFailed(String::from("locked")),
    );
    assert_eq!(phase, SessionPhase::Failed(String::from("locked")));
    assert_eq!(action, Action::Nothing);
}

#[test]
fn events_outside_the_table_change_nothing() {
    let (phase, action) = step(SessionPhase::Idle, Event::InstallRequested);
    assert_eq!(phase, SessionPhase::Idle);
    assert_eq!(action, Action::Nothing);

    let (phase, action) = step(SessionPhase::Uninstalled, Event::Launched);
    assert_eq!(phase, SessionPhase::Uninstalled);
    assert_eq!(action, Action::Nothing);

    let (phase, action) = step(
        SessionPhase::Downloading(String::from("1.0.0")),
        Event::UninstallRequested,
    );
    assert_eq!(phase, SessionPhase::Downloading(String::from("1.0.0")));
    assert_eq!(action, Action::Nothing);
}

#[test]
fn error_messages() {
    assert_eq!(
        FetchError::Transport(String::from("dns")).message(),
        "network request failed: dns"
    );
    assert_eq!(FetchError::NonTextBody.message(), "response body was not text");
    assert_eq!(
        InstallError::CorruptArchive.message(),
        "archive could not be opened"
    );
    assert_eq!(
        InstallError::ExecutableMissing.message(),
        "archive lacks the required executable"
    );
    assert_eq!(
        InstallError::FilesystemError(String::from("denied")).message(),
        "filesystem operation failed: denied"
    );
    assert_eq!(
        InstallError::ShellIntegrationError(String::from("lnk")).message(),
        "shell integration failed: lnk"
    );
    assert_eq!(
        UninstallError::FilesystemError(String::from("busy")).message(),
        "filesystem operation failed: busy"
    );
    assert_eq!(
        UninstallError::ShellIntegrationError(String::from("reg")).message(),
        "shell integration failed: reg"
    );
    assert_eq!(
        UninstallError::SelfDestructSpawnError(String::from("spawn")).message(),
        "cleanup script could not be started: spawn"
    );
}

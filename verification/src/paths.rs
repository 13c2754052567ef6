//! The fixed per-user layout: where the application installs, where its
//! shortcuts go, and the uninstall registry record. All of it is derived
//! deterministically from the user's base directories and never read back
//! from the OS as ambient truth.

use vstd::prelude::*;
use vstd::string::StringExecFns;
use crate::model::{RegRecord, RegRecordView};

verus! {

/// The application's name, used for directories, shortcuts and registry keys.
pub open spec fn app_name_spec() -> Seq<char> {
    "TinyWiiBackupManager"@
}

/// The required executable entry at the root of every release archive.
pub open spec fn exe_name_spec() -> Seq<char> {
    "TinyWiiBackupManager.exe"@
}

/// The uninstall helper written next to the executable at install time.
pub open spec fn helper_name_spec() -> Seq<char> {
    "uninstall.ps1"@
}

/// The per-user registry key holding the uninstall record.
pub open spec fn registry_key_spec() -> Seq<char> {
    "Software\\Microsoft\\Windows\\CurrentVersion\\Uninstall\\TinyWiiBackupManager"@
}

/// The publisher recorded in the uninstall record.
pub open spec fn publisher_spec() -> Seq<char> {
    "Manuel Quarneti"@
}

/// The application's name.
pub fn app_name() -> (r: &'static str)
    ensures
        r@ == app_name_spec(),
{
    "TinyWiiBackupManager"
}

/// Name of the required executable entry.
pub fn exe_name() -> (r: &'static str)
    ensures
        r@ == exe_name_spec(),
{
    "TinyWiiBackupManager.exe"
}

/// Name of the uninstall helper file.
pub fn helper_name() -> (r: &'static str)
    ensures
        r@ == helper_name_spec(),
{
    "uninstall.ps1"
}

/// The per-user registry key of the uninstall record.
pub fn registry_key() -> (r: &'static str)
    ensures
        r@ == registry_key_spec(),
{
    "Software\\Microsoft\\Windows\\CurrentVersion\\Uninstall\\TinyWiiBackupManager"
}

/// Every path the transactions touch, derived from the user's base
/// directories.
#[derive(Debug, Clone, PartialEq, Eq)]
pub struct InstallPaths {
    /// The install location: the one directory holding the installation.
    pub install_dir: String,
    /// The installed executable.
    pub exe_path: String,
    /// The uninstall helper inside the install location.
    pub uninstaller_path: String,
    /// The desktop shortcut file.
    pub desktop_shortcut: String,
    /// The per-application start-menu directory.
    pub start_menu_dir: String,
    /// The start-menu shortcut file inside that directory.
    pub start_menu_shortcut: String,
    /// The command line recorded as the registry record's uninstall string.
    pub uninstall_command: String,
}

/// Spec-level value of `InstallPaths`.
pub ghost struct InstallPathsView {
    pub install_dir: Seq<char>,
    pub exe_path: Seq<char>,
    pub uninstaller_path: Seq<char>,
    pub desktop_shortcut: Seq<char>,
    pub start_menu_dir: Seq<char>,
    pub start_menu_shortcut: Seq<char>,
    pub uninstall_command: Seq<char>,
}

impl View for InstallPaths {
    type V = InstallPathsView;

    open spec fn view(&self) -> InstallPathsView {
        InstallPathsView {
            install_dir: self.install_dir@,
            exe_path: self.exe_path@,
            uninstaller_path: self.uninstaller_path@,
            desktop_shortcut: self.desktop_shortcut@,
            start_menu_dir: self.start_menu_dir@,
            start_menu_shortcut: self.start_menu_shortcut@,
            uninstall_command: self.uninstall_command@,
        }
    }
}

/// The command line that invokes the uninstall helper at a given path.
pub open spec fn uninstall_command_spec(uninstaller_path: Seq<char>) -> Seq<char> {
    "powershell.exe -ExecutionPolicy Bypass -WindowStyle Hidden -File \""@ + uninstaller_path
        + "\""@
}

/// The paths derived from the three per-user base directories.
pub open spec fn derived_paths(
    local_data_dir: Seq<char>,
    roaming_data_dir: Seq<char>,
    desktop_dir: Seq<char>,
) -> InstallPathsView {
    let install_dir = local_data_dir + "\\TinyWiiBackupManager"@;
    let start_menu_dir = roaming_data_dir
        + "\\Microsoft\\Windows\\Start Menu\\Programs\\TinyWiiBackupManager"@;
    let uninstaller_path = install_dir + "\\uninstall.ps1"@;
    InstallPathsView {
        install_dir: install_dir,
        exe_path: install_dir + "\\TinyWiiBackupManager.exe"@,
        uninstaller_path: uninstaller_path,
        desktop_shortcut: desktop_dir + "\\TinyWiiBackupManager.lnk"@,
        start_menu_dir: start_menu_dir,
        start_menu_shortcut: start_menu_dir + "\\TinyWiiBackupManager.lnk"@,
        uninstall_command: uninstall_command_spec(uninstaller_path),
    }
}

/// Derive every path the transactions touch from the user's local-data,
/// roaming-data and desktop directories. Pure composition, no failure mode.
pub fn derive_paths(local_data_dir: &str, roaming_data_dir: &str, desktop_dir: &str) -> (r:
    InstallPaths)
    ensures
        r@ == derived_paths(local_data_dir@, roaming_data_dir@, desktop_dir@),
{
    let mut install_dir = String::from_str(local_data_dir);
    install_dir.append("\\TinyWiiBackupManager");

    let mut exe_path = install_dir.clone();
    exe_path.append("\\TinyWiiBackupManager.exe");

    let mut uninstaller_path = install_dir.clone();
    uninstaller_path.append("\\uninstall.ps1");

    let mut desktop_shortcut = String::from_str(desktop_dir);
    desktop_shortcut.append("\\TinyWiiBackupManager.lnk");

    let mut start_menu_dir = String::from_str(roaming_data_dir);
    start_menu_dir.append("\\Microsoft\\Windows\\Start Menu\\Programs\\TinyWiiBackupManager");

    let mut start_menu_shortcut = start_menu_dir.clone();
    start_menu_shortcut.append("\\TinyWiiBackupManager.lnk");

    let mut uninstall_command = String::from_str(
        "powershell.exe -ExecutionPolicy Bypass -WindowStyle Hidden -File \"",
    );
    uninstall_command.append(uninstaller_path.as_str());
    uninstall_command.append("\"");

    InstallPaths {
        install_dir,
        exe_path,
        uninstaller_path,
        desktop_shortcut,
        start_menu_dir,
        start_menu_shortcut,
        uninstall_command,
    }
}

/// The uninstall registry record for a version installed at `install_dir`.
pub open spec fn reg_record_spec(version: Seq<char>, install_dir: Seq<char>) -> RegRecordView {
    RegRecordView {
        display_name: app_name_spec(),
        display_version: version,
        publisher: publisher_spec(),
        install_location: install_dir,
        display_icon: install_dir + "\\TinyWiiBackupManager.exe"@,
        uninstall_string: uninstall_command_spec(install_dir + "\\uninstall.ps1"@),
        no_modify: 1,
        no_repair: 1,
    }
}

/// Build the uninstall registry record: display name, version, publisher,
/// install location, icon, the uninstall command line, and the flags marking
/// the entry as non-modifiable and non-repairable.
pub fn install_reg_keys(version: &str, install_dir: &str) -> (r: RegRecord)
    ensures
        r@ == reg_record_spec(version@, install_dir@),
{
    let mut display_icon = String::from_str(install_dir);
    display_icon.append("\\TinyWiiBackupManager.exe");

    let mut uninstall_string = String::from_str(
        "powershell.exe -ExecutionPolicy Bypass -WindowStyle Hidden -File \"",
    );
    uninstall_string.append(install_dir);
    uninstall_string.append("\\uninstall.ps1");
    uninstall_string.append("\"");

    proof {
        assert(uninstall_string@ =~= uninstall_command_spec(install_dir@ + "\\uninstall.ps1"@));
    }
    RegRecord {
        display_name: String::from_str("TinyWiiBackupManager"),
        display_version: String::from_str(version),
        publisher: String::from_str("Manuel Quarneti"),
        install_location: String::from_str(install_dir),
        display_icon,
        uninstall_string,
        no_modify: 1,
        no_repair: 1,
    }
}

} // verus!

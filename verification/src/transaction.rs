//! The install and uninstall transactions over the modeled OS state.
//!
//! Each transaction first decides, then acts: it computes the full list of
//! effects (`Op`) from its inputs, and only a successful decision is applied.
//! An archive that cannot be opened or that lacks the required executable
//! yields its error before any effect, so a failed attempt leaves the state
//! exactly as it was.

use vstd::prelude::*;
use vstd::string::StringExecFns;
use vstd::string::StrSliceExecFns;
use vstd::utf8::encode_utf8;
use crate::archive::{zip_entry_data, zip_entry_names, zip_extract_entry, zip_names, zip_valid};
use crate::errors::InstallError;
use crate::model::{
    apply_all, apply_op, apply_ops, FileEntry, Op, OpView, OsState, OsStateView, Shortcut,
    ShortcutView, ops_view,
};
use crate::paths::{
    app_name, app_name_spec, exe_name, exe_name_spec, helper_name, helper_name_spec, install_reg_keys,
    reg_record_spec, InstallPaths, InstallPathsView,
};
use crate::strutil::contains_string;

verus! {

/// Content of the uninstall helper placed inside the install location. It
/// retracts the shell integration, then removes the install directory with
/// the poll-delete loop of a script that may itself live inside it, and
/// finally deletes itself.
pub open spec fn helper_script_spec() -> Seq<char> {
    "$dir = Join-Path $env:LOCALAPPDATA 'TinyWiiBackupManager'\nRemove-Item (Join-Path ([Environment]::GetFolderPath('Desktop')) 'TinyWiiBackupManager.lnk') -Force -ErrorAction SilentlyContinue\nRemove-Item (Join-Path $env:APPDATA 'Microsoft\\Windows\\Start Menu\\Programs\\TinyWiiBackupManager') -Recurse -Force -ErrorAction SilentlyContinue\nRemove-Item 'HKCU:\\Software\\Microsoft\\Windows\\CurrentVersion\\Uninstall\\TinyWiiBackupManager' -Recurse -Force -ErrorAction SilentlyContinue\nwhile (Test-Path $dir) { Start-Sleep -Milliseconds 200; Remove-Item $dir -Recurse -Force -ErrorAction SilentlyContinue }\nRemove-Item $MyInvocation.MyCommand.Path -Force\n"@
}

/// The uninstall helper's text.
pub fn helper_script_text() -> (r: &'static str)
    ensures
        r@ == helper_script_spec(),
{
    "$dir = Join-Path $env:LOCALAPPDATA 'TinyWiiBackupManager'\nRemove-Item (Join-Path ([Environment]::GetFolderPath('Desktop')) 'TinyWiiBackupManager.lnk') -Force -ErrorAction SilentlyContinue\nRemove-Item (Join-Path $env:APPDATA 'Microsoft\\Windows\\Start Menu\\Programs\\TinyWiiBackupManager') -Recurse -Force -ErrorAction SilentlyContinue\nRemove-Item 'HKCU:\\Software\\Microsoft\\Windows\\CurrentVersion\\Uninstall\\TinyWiiBackupManager' -Recurse -Force -ErrorAction SilentlyContinue\nwhile (Test-Path $dir) { Start-Sleep -Milliseconds 200; Remove-Item $dir -Recurse -Force -ErrorAction SilentlyContinue }\nRemove-Item $MyInvocation.MyCommand.Path -Force\n"
}

/// Content of the detached cleanup script written outside the install
/// location for a self-destruct uninstall: poll, delete the install
/// directory until it is gone, then delete itself.
pub open spec fn cleanup_script_spec() -> Seq<char> {
    "$dir = Join-Path $env:LOCALAPPDATA 'TinyWiiBackupManager'\nwhile (Test-Path $dir) { Start-Sleep -Milliseconds 200; Remove-Item $dir -Recurse -Force -ErrorAction SilentlyContinue }\nRemove-Item $MyInvocation.MyCommand.Path -Force\n"@
}

/// The detached cleanup script's text.
pub fn cleanup_script_text() -> (r: &'static str)
    ensures
        r@ == cleanup_script_spec(),
{
    "$dir = Join-Path $env:LOCALAPPDATA 'TinyWiiBackupManager'\nwhile (Test-Path $dir) { Start-Sleep -Milliseconds 200; Remove-Item $dir -Recurse -Force -ErrorAction SilentlyContinue }\nRemove-Item $MyInvocation.MyCommand.Path -Force\n"
}

/// The helper's bytes as stored in the install directory.
pub open spec fn helper_script_bytes() -> Seq<u8> {
    encode_utf8(helper_script_spec())
}

/// The one shortcut both shell entries use: it points at the installed
/// executable, runs it from the install location, and carries its icon and
/// the application's name.
pub open spec fn install_shortcut_spec(p: InstallPathsView) -> ShortcutView {
    ShortcutView {
        target: p.exe_path,
        working_dir: p.install_dir,
        icon: p.exe_path,
        name: app_name_spec(),
    }
}

/// Build the shortcut both shell entries use.
pub fn make_shortcut(paths: &InstallPaths) -> (r: Shortcut)
    ensures
        r@ == install_shortcut_spec(paths@),
{
    Shortcut {
        target: paths.exe_path.clone(),
        working_dir: paths.install_dir.clone(),
        icon: paths.exe_path.clone(),
        name: String::from_str(app_name()),
    }
}

/// The effects of a successful install of `version` with executable content
/// `exe_data`: clear the install location, write the executable and the
/// uninstall helper, place both shortcuts, write the registry record.
pub open spec fn install_ops_spec(
    version: Seq<char>,
    exe_data: Seq<u8>,
    p: InstallPathsView,
) -> Seq<OpView> {
    seq![
        OpView::ClearInstallDir,
        OpView::WriteFile(exe_name_spec(), exe_data),
        OpView::WriteFile(helper_name_spec(), helper_script_bytes()),
        OpView::PlaceDesktopShortcut(install_shortcut_spec(p)),
        OpView::PlaceStartMenuShortcut(install_shortcut_spec(p)),
        OpView::SetRegistry(reg_record_spec(version, p.install_dir)),
    ]
}

/// The state a successful install leaves: the install location holds exactly
/// the executable and the uninstall helper, both shortcuts and the registry
/// record are in place, and the rest of the state is untouched.
pub open spec fn installed_view(
    s: OsStateView,
    version: Seq<char>,
    exe_data: Seq<u8>,
    p: InstallPathsView,
) -> OsStateView {
    OsStateView {
        install_dir: Some(
            Map::<Seq<char>, Seq<u8>>::empty().insert(exe_name_spec(), exe_data).insert(
                helper_name_spec(),
                helper_script_bytes(),
            ),
        ),
        desktop_shortcut: Some(install_shortcut_spec(p)),
        start_menu_shortcut: Some(install_shortcut_spec(p)),
        registry: Some(reg_record_spec(version, p.install_dir)),
        app_data_dir: s.app_data_dir,
        cleanup_script: s.cleanup_script,
    }
}

/// Replaying the install effects yields `installed_view`, whatever state they
/// start from.
pub proof fn lemma_install_ops_effect(
    s: OsStateView,
    version: Seq<char>,
    exe_data: Seq<u8>,
    p: InstallPathsView,
)
    ensures
        apply_ops(s, install_ops_spec(version, exe_data, p)) == installed_view(
            s,
            version,
            exe_data,
            p,
        ),
{
    let ops = install_ops_spec(version, exe_data, p);
    let s1 = apply_op(s, ops[0]);
    let s2 = apply_op(s1, ops[1]);
    let s3 = apply_op(s2, ops[2]);
    let s4 = apply_op(s3, ops[3]);
    let s5 = apply_op(s4, ops[4]);
    let s6 = apply_op(s5, ops[5]);
    let t1 = ops.drop_first();
    let t2 = t1.drop_first();
    let t3 = t2.drop_first();
    let t4 = t3.drop_first();
    let t5 = t4.drop_first();
    let t6 = t5.drop_first();
    assert(apply_ops(s, ops) == apply_ops(s1, t1));
    assert(t1[0] == ops[1] && t2[0] == ops[2] && t3[0] == ops[3] && t4[0] == ops[4] && t5[0]
        == ops[5]);
    assert(apply_ops(s1, t1) == apply_ops(s2, t2));
    assert(apply_ops(s2, t2) == apply_ops(s3, t3));
    assert(apply_ops(s3, t3) == apply_ops(s4, t4));
    assert(apply_ops(s4, t4) == apply_ops(s5, t5));
    assert(apply_ops(s5, t5) == apply_ops(s6, t6));
    assert(t6.len() == 0);
    assert(apply_ops(s6, t6) == s6);
    assert(s6 == installed_view(s, version, exe_data, p));
}

/// Extract the required executable entry from archive bytes: the integrity
/// gate of the install transaction. `CorruptArchive` when the bytes do not
/// parse or the entry's data cannot be extracted, `ExecutableMissing` when a
/// valid archive lacks the entry.
pub fn extract_executable(archive_bytes: &Vec<u8>) -> (r: Result<Vec<u8>, InstallError>)
    ensures
        r matches Ok(d) ==> zip_entry_data(archive_bytes@, exe_name_spec()) == Some(d@),
        r is Ok <==> zip_valid(archive_bytes@) && zip_names(archive_bytes@).contains(
            exe_name_spec(),
        ) && zip_entry_data(archive_bytes@, exe_name_spec()) is Some,
        (r matches Err(e) && e is ExecutableMissing) <==> (zip_valid(archive_bytes@) && !zip_names(
            archive_bytes@,
        ).contains(exe_name_spec())),
        (r matches Err(e) && e is CorruptArchive) <==> (!zip_valid(archive_bytes@) || (zip_names(
            archive_bytes@,
        ).contains(exe_name_spec()) && zip_entry_data(archive_bytes@, exe_name_spec()) is None)),
{
    let names = match zip_entry_names(archive_bytes) {
        Some(ns) => ns,
        None => {
            return Err(InstallError::CorruptArchive);
        },
    };
    if !contains_string(&names, exe_name()) {
        return Err(InstallError::ExecutableMissing);
    }
    match zip_extract_entry(archive_bytes, exe_name()) {
        Some(data) => Ok(data),
        None => Err(InstallError::CorruptArchive),
    }
}

/// Decide the install transaction: check the archive, extract the
/// executable, and compute the full effect list of a successful install.
/// Nothing is applied here; an error means no effect at all.
pub fn plan_install(version: &str, archive_bytes: &Vec<u8>, paths: &InstallPaths) -> (r: Result<
    Vec<Op>,
    InstallError,
>)
    ensures
        r matches Ok(ops) ==> (zip_entry_data(archive_bytes@, exe_name_spec()) matches Some(d)
            && ops_view(ops@) == install_ops_spec(version@, d, paths@)),
        r is Ok <==> zip_valid(archive_bytes@) && zip_names(archive_bytes@).contains(
            exe_name_spec(),
        ) && zip_entry_data(archive_bytes@, exe_name_spec()) is Some,
        (r matches Err(e) && e is ExecutableMissing) <==> (zip_valid(archive_bytes@) && !zip_names(
            archive_bytes@,
        ).contains(exe_name_spec())),
        (r matches Err(e) && e is CorruptArchive) <==> (!zip_valid(archive_bytes@) || (zip_names(
            archive_bytes@,
        ).contains(exe_name_spec()) && zip_entry_data(archive_bytes@, exe_name_spec()) is None)),
{
    let exe_data = match extract_executable(archive_bytes) {
        Ok(d) => d,
        Err(e) => {
            return Err(e);
        },
    };
    let shortcut_a = make_shortcut(paths);
    let shortcut_b = make_shortcut(paths);
    let record = install_reg_keys(version, paths.install_dir.as_str());
    let mut ops: Vec<Op> = Vec::new();
    ops.push(Op::ClearInstallDir);
    ops.push(
        Op::WriteFile(FileEntry { name: String::from_str(exe_name()), data: exe_data }),
    );
    ops.push(
        Op::WriteFile(
            FileEntry {
                name: String::from_str(helper_name()),
                data: helper_script_text().as_bytes_vec(),
            },
        ),
    );
    ops.push(Op::PlaceDesktopShortcut(shortcut_a));
    ops.push(Op::PlaceStartMenuShortcut(shortcut_b));
    ops.push(Op::SetRegistry(record));
    proof {
        let ghost d = zip_entry_data(archive_bytes@, exe_name_spec())->Some_0;
        assert(ops_view(ops@) =~= install_ops_spec(version@, d, paths@));
    }
    Ok(ops)
}

/// The install transaction on the modeled state: decide, then apply. On
/// success the state is exactly `installed_view`; on failure it is exactly
/// what it was, so a failed attempt never leaves a partial installation.
pub fn install(version: String, archive_bytes: &Vec<u8>, paths: &InstallPaths, state: &mut OsState)
    -> (r: Result<String, InstallError>)
    ensures
        r matches Ok(v) ==> v@ == version@ && (zip_entry_data(archive_bytes@, exe_name_spec())
            matches Some(d) && final (state)@ == installed_view(old(state)@, version@, d, paths@)),
        r is Ok <==> zip_valid(archive_bytes@) && zip_names(archive_bytes@).contains(
            exe_name_spec(),
        ) && zip_entry_data(archive_bytes@, exe_name_spec()) is Some,
        r is Err ==> final (state)@ == old(state)@,
        (r matches Err(e) && e is ExecutableMissing) <==> (zip_valid(archive_bytes@) && !zip_names(
            archive_bytes@,
        ).contains(exe_name_spec())),
        (r matches Err(e) && e is CorruptArchive) <==> (!zip_valid(archive_bytes@) || (zip_names(
            archive_bytes@,
        ).contains(exe_name_spec()) && zip_entry_data(archive_bytes@, exe_name_spec()) is None)),
{
    let ops = match plan_install(version.as_str(), archive_bytes, paths) {
        Ok(ops) => ops,
        Err(e) => {
            return Err(e);
        },
    };
    proof {
        let ghost d = zip_entry_data(archive_bytes@, exe_name_spec())->Some_0;
        lemma_install_ops_effect(state@, version@, d, paths@);
    }
    apply_all(state, ops);
    Ok(version)
}

/// Whether an installation is present: the install location exists.
pub fn is_installed(state: &OsState) -> (r: bool)
    ensures
        r == (state@.install_dir is Some),
{
    state.install_dir.is_some()
}

/// The effects of an uninstall. Always, in order: remove the desktop
/// shortcut, the start-menu shortcut directory, the auxiliary data directory
/// and the registry record; then either remove the install location directly,
/// or — when the running executable lives inside it — hand the removal to a
/// detached cleanup script instead.
pub open spec fn uninstall_ops_spec(self_is_running_from_install_dir: bool) -> Seq<OpView> {
    let last = if self_is_running_from_install_dir {
        OpView::SpawnCleanup
    } else {
        OpView::RemoveInstallDir
    };
    seq![
        OpView::RemoveDesktopShortcut,
        OpView::RemoveStartMenuShortcut,
        OpView::RemoveAppDataDir,
        OpView::RemoveRegistryKey,
        last,
    ]
}

/// The state an uninstall leaves. Shell integration and the auxiliary data
/// directory are gone either way. A direct uninstall also removes the install
/// location; a self-destruct uninstall leaves it for the detached cleanup
/// script it has spawned, so "accepted" and "completed on disk" are two
/// separate events.
pub open spec fn uninstalled_view(s: OsStateView, self_is_running_from_install_dir: bool) -> OsStateView {
    OsStateView {
        install_dir: if self_is_running_from_install_dir {
            s.install_dir
        } else {
            None
        },
        desktop_shortcut: None,
        start_menu_shortcut: None,
        registry: None,
        app_data_dir: false,
        cleanup_script: if self_is_running_from_install_dir {
            true
        } else {
            s.cleanup_script
        },
    }
}

/// Replaying the uninstall effects yields `uninstalled_view`, whatever state
/// they start from.
pub proof fn lemma_uninstall_ops_effect(s: OsStateView, self_is_running_from_install_dir: bool)
    ensures
        apply_ops(s, uninstall_ops_spec(self_is_running_from_install_dir)) == uninstalled_view(
            s,
            self_is_running_from_install_dir,
        ),
{
    let ops = uninstall_ops_spec(self_is_running_from_install_dir);
    let s1 = apply_op(s, ops[0]);
    let s2 = apply_op(s1, ops[1]);
    let s3 = apply_op(s2, ops[2]);
    let s4 = apply_op(s3, ops[3]);
    let s5 = apply_op(s4, ops[4]);
    let t1 = ops.drop_first();
    let t2 = t1.drop_first();
    let t3 = t2.drop_first();
    let t4 = t3.drop_first();
    let t5 = t4.drop_first();
    assert(apply_ops(s, ops) == apply_ops(s1, t1));
    assert(t1[0] == ops[1] && t2[0] == ops[2] && t3[0] == ops[3] && t4[0] == ops[4]);
    assert(apply_ops(s1, t1) == apply_ops(s2, t2));
    assert(apply_ops(s2, t2) == apply_ops(s3, t3));
    assert(apply_ops(s3, t3) == apply_ops(s4, t4));
    assert(apply_ops(s4, t4) == apply_ops(s5, t5));
    assert(t5.len() == 0);
    assert(s5 == uninstalled_view(s, self_is_running_from_install_dir));
}

/// Decide the uninstall transaction: the full effect list, chosen by whether
/// the running executable lives inside the install location.
pub fn plan_uninstall(self_is_running_from_install_dir: bool) -> (r: Vec<Op>)
    ensures
        ops_view(r@) == uninstall_ops_spec(self_is_running_from_install_dir),
{
    let mut ops: Vec<Op> = Vec::new();
    ops.push(Op::RemoveDesktopShortcut);
    ops.push(Op::RemoveStartMenuShortcut);
    ops.push(Op::RemoveAppDataDir);
    ops.push(Op::RemoveRegistryKey);
    if self_is_running_from_install_dir {
        ops.push(Op::SpawnCleanup);
    } else {
        ops.push(Op::RemoveInstallDir);
    }
    proof {
        assert(ops_view(ops@) =~= uninstall_ops_spec(self_is_running_from_install_dir));
    }
    ops
}

/// The uninstall transaction on the modeled state: retract shell integration
/// and remove (or hand off the removal of) the install location.
pub fn uninstall(self_is_running_from_install_dir: bool, state: &mut OsState)
    ensures
        final (state)@ == uninstalled_view(old(state)@, self_is_running_from_install_dir),
{
    let ops = plan_uninstall(self_is_running_from_install_dir);
    proof {
        lemma_uninstall_ops_effect(state@, self_is_running_from_install_dir);
    }
    apply_all(state, ops);
}

/// The state after the detached cleanup script has run to completion: the
/// install location is gone and the script has deleted itself; nothing else
/// is touched.
pub open spec fn cleaned_view(s: OsStateView) -> OsStateView {
    OsStateView { install_dir: None, cleanup_script: false, ..s }
}

/// The detached cleanup script, run to completion, on the modeled state: it
/// deletes the install location, then itself. In reality this runs as an
/// unsupervised background process after the uninstalling process has exited.
pub fn run_cleanup(state: &mut OsState)
    ensures
        final (state)@ == cleaned_view(old(state)@),
{
    state.install_dir = None;
    state.cleanup_script = false;
}

/// Idempotence of the install transaction: running it twice with the same
/// version and archive content leaves exactly the state of running it once.
pub proof fn lemma_install_idempotent(
    s: OsStateView,
    version: Seq<char>,
    exe_data: Seq<u8>,
    p: InstallPathsView,
)
    ensures
        apply_ops(
            apply_ops(s, install_ops_spec(version, exe_data, p)),
            install_ops_spec(version, exe_data, p),
        ) == apply_ops(s, install_ops_spec(version, exe_data, p)),
{
    let once = apply_ops(s, install_ops_spec(version, exe_data, p));
    lemma_install_ops_effect(s, version, exe_data, p);
    lemma_install_ops_effect(once, version, exe_data, p);
}

/// Uninstall completeness: after a direct (non-self-destruct) uninstall,
/// neither shortcut, nor the registry record, nor the install location
/// exists.
pub proof fn lemma_uninstall_complete(s: OsStateView)
    ensures
        apply_ops(s, uninstall_ops_spec(false)).install_dir is None,
        apply_ops(s, uninstall_ops_spec(false)).desktop_shortcut is None,
        apply_ops(s, uninstall_ops_spec(false)).start_menu_shortcut is None,
        apply_ops(s, uninstall_ops_spec(false)).registry is None,
{
    lemma_uninstall_ops_effect(s, false);
}

/// Self-destruct liveness: a self-destruct uninstall leaves a cleanup script
/// running, and once that script has run to completion the install location
/// no longer exists and the script has deleted itself — while the shell
/// integration is already gone.
pub proof fn lemma_self_destruct_liveness(s: OsStateView)
    ensures
        apply_ops(s, uninstall_ops_spec(true)).cleanup_script,
        cleaned_view(apply_ops(s, uninstall_ops_spec(true))).install_dir is None,
        !cleaned_view(apply_ops(s, uninstall_ops_spec(true))).cleanup_script,
        cleaned_view(apply_ops(s, uninstall_ops_spec(true))).desktop_shortcut is None,
        cleaned_view(apply_ops(s, uninstall_ops_spec(true))).start_menu_shortcut is None,
        cleaned_view(apply_ops(s, uninstall_ops_spec(true))).registry is None,
{
    lemma_uninstall_ops_effect(s, true);
}

} // verus!

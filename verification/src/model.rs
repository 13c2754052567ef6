//! Explicit model of the mutable OS state the transactions touch: the install
//! directory and its files, the two shortcuts, the uninstall registry record,
//! the auxiliary per-application data directory, and the detached cleanup
//! script. Transactions compute lists of effects (`Op`) over this state; the
//! outer layer replays the same list against the real OS.

use vstd::prelude::*;

verus! {

/// A shell shortcut: where it points, its working directory, its icon, and
/// its display name.
#[derive(Debug, Clone, PartialEq, Eq)]
pub struct Shortcut {
    pub target: String,
    pub working_dir: String,
    pub icon: String,
    pub name: String,
}

/// Spec-level value of a `Shortcut`.
pub ghost struct ShortcutView {
    pub target: Seq<char>,
    pub working_dir: Seq<char>,
    pub icon: Seq<char>,
    pub name: Seq<char>,
}

impl View for Shortcut {
    type V = ShortcutView;

    open spec fn view(&self) -> ShortcutView {
        ShortcutView {
            target: self.target@,
            working_dir: self.working_dir@,
            icon: self.icon@,
            name: self.name@,
        }
    }
}

/// The uninstall registry record: string fields plus the two flags that mark
/// the entry as non-modifiable and non-repairable.
#[derive(Debug, Clone, PartialEq, Eq)]
pub struct RegRecord {
    pub display_name: String,
    pub display_version: String,
    pub publisher: String,
    pub install_location: String,
    pub display_icon: String,
    pub uninstall_string: String,
    pub no_modify: u32,
    pub no_repair: u32,
}

/// Spec-level value of a `RegRecord`.
pub ghost struct RegRecordView {
    pub display_name: Seq<char>,
    pub display_version: Seq<char>,
    pub publisher: Seq<char>,
    pub install_location: Seq<char>,
    pub display_icon: Seq<char>,
    pub uninstall_string: Seq<char>,
    pub no_modify: u32,
    pub no_repair: u32,
}

impl View for RegRecord {
    type V = RegRecordView;

    open spec fn view(&self) -> RegRecordView {
        RegRecordView {
            display_name: self.display_name@,
            display_version: self.display_version@,
            publisher: self.publisher@,
            install_location: self.install_location@,
            display_icon: self.display_icon@,
            uninstall_string: self.uninstall_string@,
            no_modify: self.no_modify,
            no_repair: self.no_repair,
        }
    }
}

/// One file inside the install directory.
#[derive(Debug, Clone, PartialEq, Eq)]
pub struct FileEntry {
    pub name: String,
    pub data: Vec<u8>,
}

/// The files of an install directory as a map from name to content; a later
/// entry with the same name shadows an earlier one.
pub open spec fn files_map(files: Seq<FileEntry>) -> Map<Seq<char>, Seq<u8>>
    decreases files.len(),
{
    if files.len() == 0 {
        Map::empty()
    } else {
        files_map(files.drop_last()).insert(files.last().name@, files.last().data@)
    }
}

/// The mutable OS state as the transactions see it. `install_dir` is `None`
/// when the install location is absent and holds the directory's files when
/// present; `cleanup_script` says whether a detached cleanup script exists
/// outside the install location.
#[derive(Debug, Clone, PartialEq, Eq)]
pub struct OsState {
    pub install_dir: Option<Vec<FileEntry>>,
    pub desktop_shortcut: Option<Shortcut>,
    pub start_menu_shortcut: Option<Shortcut>,
    pub registry: Option<RegRecord>,
    pub app_data_dir: bool,
    pub cleanup_script: bool,
}

/// Spec-level value of an `OsState`.
pub ghost struct OsStateView {
    pub install_dir: Option<Map<Seq<char>, Seq<u8>>>,
    pub desktop_shortcut: Option<ShortcutView>,
    pub start_menu_shortcut: Option<ShortcutView>,
    pub registry: Option<RegRecordView>,
    pub app_data_dir: bool,
    pub cleanup_script: bool,
}

impl View for OsState {
    type V = OsStateView;

    open spec fn view(&self) -> OsStateView {
        OsStateView {
            install_dir: match self.install_dir {
                Some(files) => Some(files_map(files@)),
                None => None,
            },
            desktop_shortcut: match self.desktop_shortcut {
                Some(s) => Some(s@),
                None => None,
            },
            start_menu_shortcut: match self.start_menu_shortcut {
                Some(s) => Some(s@),
                None => None,
            },
            registry: match self.registry {
                Some(r) => Some(r@),
                None => None,
            },
            app_data_dir: self.app_data_dir,
            cleanup_script: self.cleanup_script,
        }
    }
}

impl OsState {
    /// A state with nothing installed and no shell integration.
    pub fn pristine() -> (r: OsState)
        ensures
            r@ == pristine_view(),
    {
        OsState {
            install_dir: None,
            desktop_shortcut: None,
            start_menu_shortcut: None,
            registry: None,
            app_data_dir: false,
            cleanup_script: false,
        }
    }
}

/// The view of a state with nothing installed.
pub open spec fn pristine_view() -> OsStateView {
    OsStateView {
        install_dir: None,
        desktop_shortcut: None,
        start_menu_shortcut: None,
        registry: None,
        app_data_dir: false,
        cleanup_script: false,
    }
}

/// One effect on the OS state. A transaction is a list of these, replayed in
/// order against the real OS by the outer layer.
#[derive(Debug, Clone, PartialEq, Eq)]
pub enum Op {
    /// Remove the install directory if present, then recreate it empty.
    ClearInstallDir,
    /// Write one file into the install directory, overwriting any old one.
    WriteFile(FileEntry),
    /// Create or overwrite the desktop shortcut.
    PlaceDesktopShortcut(Shortcut),
    /// Create or overwrite the start-menu shortcut (and its directory).
    PlaceStartMenuShortcut(Shortcut),
    /// Create or overwrite the uninstall registry record.
    SetRegistry(RegRecord),
    /// Remove the desktop shortcut if present.
    RemoveDesktopShortcut,
    /// Remove the start-menu shortcut directory if present.
    RemoveStartMenuShortcut,
    /// Remove the auxiliary per-application data directory if present.
    RemoveAppDataDir,
    /// Remove the uninstall registry record if present.
    RemoveRegistryKey,
    /// Remove the install directory and everything in it.
    RemoveInstallDir,
    /// Write the detached cleanup script outside the install directory and
    /// launch it as an independent background process.
    SpawnCleanup,
}

/// Spec-level value of an `Op`.
pub ghost enum OpView {
    ClearInstallDir,
    WriteFile(Seq<char>, Seq<u8>),
    PlaceDesktopShortcut(ShortcutView),
    PlaceStartMenuShortcut(ShortcutView),
    SetRegistry(RegRecordView),
    RemoveDesktopShortcut,
    RemoveStartMenuShortcut,
    RemoveAppDataDir,
    RemoveRegistryKey,
    RemoveInstallDir,
    SpawnCleanup,
}

impl View for Op {
    type V = OpView;

    open spec fn view(&self) -> OpView {
        match self {
            Op::ClearInstallDir => OpView::ClearInstallDir,
            Op::WriteFile(e) => OpView::WriteFile(e.name@, e.data@),
            Op::PlaceDesktopShortcut(s) => OpView::PlaceDesktopShortcut(s@),
            Op::PlaceStartMenuShortcut(s) => OpView::PlaceStartMenuShortcut(s@),
            Op::SetRegistry(r) => OpView::SetRegistry(r@),
            Op::RemoveDesktopShortcut => OpView::RemoveDesktopShortcut,
            Op::RemoveStartMenuShortcut => OpView::RemoveStartMenuShortcut,
            Op::RemoveAppDataDir => OpView::RemoveAppDataDir,
            Op::RemoveRegistryKey => OpView::RemoveRegistryKey,
            Op::RemoveInstallDir => OpView::RemoveInstallDir,
            Op::SpawnCleanup => OpView::SpawnCleanup,
        }
    }
}

/// The views of a list of effects.
pub open spec fn ops_view(ops: Seq<Op>) -> Seq<OpView> {
    ops.map_values(|o: Op| o@)
}

/// What one effect does to the state. Writing a file into an absent install
/// directory changes nothing: the real write would fail without creating the
/// directory, and every transaction clears the directory first.
pub open spec fn apply_op(s: OsStateView, op: OpView) -> OsStateView {
    match op {
        OpView::ClearInstallDir => OsStateView { install_dir: Some(Map::empty()), ..s },
        OpView::WriteFile(name, data) => match s.install_dir {
            Some(m) => OsStateView { install_dir: Some(m.insert(name, data)), ..s },
            None => s,
        },
        OpView::PlaceDesktopShortcut(sc) => OsStateView { desktop_shortcut: Some(sc), ..s },
        OpView::PlaceStartMenuShortcut(sc) => OsStateView { start_menu_shortcut: Some(sc), ..s },
        OpView::SetRegistry(r) => OsStateView { registry: Some(r), ..s },
        OpView::RemoveDesktopShortcut => OsStateView { desktop_shortcut: None, ..s },
        OpView::RemoveStartMenuShortcut => OsStateView { start_menu_shortcut: None, ..s },
        OpView::RemoveAppDataDir => OsStateView { app_data_dir: false, ..s },
        OpView::RemoveRegistryKey => OsStateView { registry: None, ..s },
        OpView::RemoveInstallDir => OsStateView { install_dir: None, ..s },
        OpView::SpawnCleanup => OsStateView { cleanup_script: true, ..s },
    }
}

/// What a list of effects does to the state, first to last.
pub open spec fn apply_ops(s: OsStateView, ops: Seq<OpView>) -> OsStateView
    decreases ops.len(),
{
    if ops.len() == 0 {
        s
    } else {
        apply_ops(apply_op(s, ops.first()), ops.drop_first())
    }
}

/// Apply one effect to the modeled state.
pub fn apply(state: &mut OsState, op: Op)
    ensures
        final (state)@ == apply_op(old(state)@, op@),
{
    match op {
        Op::ClearInstallDir => {
            state.install_dir = Some(Vec::new());
            proof {
                assert(files_map(Seq::<FileEntry>::empty()) =~= Map::<Seq<char>, Seq<u8>>::empty());
            }
        },
        Op::WriteFile(e) => {
            match &mut state.install_dir {
                Some(files) => {
                    let ghost before = files@;
                    files.push(e);
                    proof {
                        assert(files@.drop_last() =~= before);
                    }
                },
                None => {},
            }
        },
        Op::PlaceDesktopShortcut(sc) => {
            state.desktop_shortcut = Some(sc);
        },
        Op::PlaceStartMenuShortcut(sc) => {
            state.start_menu_shortcut = Some(sc);
        },
        Op::SetRegistry(r) => {
            state.registry = Some(r);
        },
        Op::RemoveDesktopShortcut => {
            state.desktop_shortcut = None;
        },
        Op::RemoveStartMenuShortcut => {
            state.start_menu_shortcut = None;
        },
        Op::RemoveAppDataDir => {
            state.app_data_dir = false;
        },
        Op::RemoveRegistryKey => {
            state.registry = None;
        },
        Op::RemoveInstallDir => {
            state.install_dir = None;
        },
        Op::SpawnCleanup => {
            state.cleanup_script = true;
        },
    }
}

/// Apply a whole list of effects to the modeled state, first to last.
pub fn apply_all(state: &mut OsState, ops: Vec<Op>)
    ensures
        final (state)@ == apply_ops(old(state)@, ops_view(ops@)),
{
    let ghost all = ops@;
    let mut rest = ops;
    while rest.len() > 0
        invariant
            apply_ops(old(state)@, ops_view(all)) == apply_ops(state@, ops_view(rest@)),
        decreases rest.len(),
    {
        let ghost prev = rest@;
        let op = rest.remove(0);
        apply(state, op);
        proof {
            assert(ops_view(prev).first() == op@);
            assert(prev.drop_first() =~= rest@);
            assert(ops_view(prev).drop_first() =~= ops_view(rest@));
        }
    }
    proof {
        assert(ops_view(rest@) =~= Seq::<OpView>::empty());
    }
}

} // verus!

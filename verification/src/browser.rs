//! The state of the browser (pinned workspaces, folders and viewer panes,
//! open tabs, search and new-file prompts, reading modes) and how each key
//! changes it. Work that touches the filesystem or other programs is handed
//! back to the caller as an `Effect`; the caller performs it and reports
//! what it found through the other methods of `AppState`.
use vstd::prelude::*;
use crate::chars::{chars_to_string, push_char, str_eq, str_to_chars, trim, trim_chars};
use crate::config::{pins_view, sorted_workspaces, workspace_order, Config, PinnedItem, ViewMode};
use crate::keys::{key_seq, pty_input_bytes, shifted_digit, symbol_to_digit, KeyCode, KeyEvent};
use crate::listing::FileEntry;

verus! {

/// The pane that has the keyboard focus.
#[derive(Clone, Copy, PartialEq, Eq, Debug, Structural)]
pub enum ActiveSection {
    Workspaces,
    Folders,
    Viewer,
}

/// The reading modes of the viewer, cycled with `f`.
#[derive(Clone, Copy, PartialEq, Eq, Debug, Structural)]
pub enum FullscreenMode {
    /// The normal layout with sidebar and status bar.
    Off,
    /// No sidebar or status bar; text in a centred reading column.
    Margins,
    /// No sidebar or status bar; text wraps at the terminal edge only.
    NoMargins,
}

/// The reading mode after `m`: Off, Margins, NoMargins, Off, ...
pub open spec fn next_mode(m: FullscreenMode) -> FullscreenMode {
    match m {
        FullscreenMode::Off => FullscreenMode::Margins,
        FullscreenMode::Margins => FullscreenMode::NoMargins,
        FullscreenMode::NoMargins => FullscreenMode::Off,
    }
}

impl FullscreenMode {
    /// The reading mode that `f` switches to (see `next_mode`).
    pub fn next(self) -> (r: FullscreenMode)
        ensures
            r == next_mode(self),
    {
        match self {
            FullscreenMode::Off => FullscreenMode::Margins,
            FullscreenMode::Margins => FullscreenMode::NoMargins,
            FullscreenMode::NoMargins => FullscreenMode::Off,
        }
    }
}

/// A row of the folders pane in tree view.
#[derive(Clone, Debug)]
pub struct TuiTreeNode {
    pub name: String,
    pub path: String,
    pub is_dir: bool,
    pub depth: usize,
    pub parent_path: Option<String>,
}

/// The characters of an optional string.
pub open spec fn opt_chars(o: Option<String>) -> Option<Seq<char>> {
    match o {
        Some(s) => Some(s@),
        None => None,
    }
}

impl View for TuiTreeNode {
    type V = (Seq<char>, Seq<char>, bool, usize, Option<Seq<char>>);

    open spec fn view(&self) -> (Seq<char>, Seq<char>, bool, usize, Option<Seq<char>>) {
        (self.name@, self.path@, self.is_dir, self.depth, opt_chars(self.parent_path))
    }
}

/// The view of a list of entries.
pub open spec fn entries_view(s: Seq<FileEntry>) -> Seq<(Seq<char>, Seq<char>, bool)> {
    s.map_values(|e: FileEntry| e@)
}

/// The view of a list of tree rows.
pub open spec fn tree_view(s: Seq<TuiTreeNode>) -> Seq<(Seq<char>, Seq<char>, bool, usize, Option<Seq<char>>)> {
    s.map_values(|n: TuiTreeNode| n@)
}

/// The view of a list of strings.
pub open spec fn strings_view(s: Seq<String>) -> Seq<Seq<char>> {
    s.map_values(|x: String| x@)
}

/// The view of an optional list of entries.
pub open spec fn opt_entries_view(o: Option<Vec<FileEntry>>) -> Option<Seq<(Seq<char>, Seq<char>, bool)>> {
    match o {
        Some(v) => Some(entries_view(v@)),
        None => None,
    }
}

/// Everything the browser's key handling reads and changes.
pub struct AppView {
    pub pins: Seq<(Seq<char>, bool)>,
    /// The view mode the settings hold.
    pub saved_view_mode: ViewMode,
    pub view_mode: ViewMode,
    pub current_dir: Seq<char>,
    pub entries: Seq<(Seq<char>, Seq<char>, bool)>,
    pub tree: Seq<(Seq<char>, Seq<char>, bool, usize, Option<Seq<char>>)>,
    pub search_results: Seq<(Seq<char>, Seq<char>, bool)>,
    pub cached_search_results: Option<Seq<(Seq<char>, Seq<char>, bool)>>,
    pub workspace_index: usize,
    pub folder_index: usize,
    pub active_section: ActiveSection,
    pub selected_file: Option<Seq<char>>,
    pub scroll_offset: usize,
    pub error: Option<Seq<char>>,
    pub quit: bool,
    pub open_files: Seq<Seq<char>>,
    pub needs_clear: bool,
    pub expanded_paths: Seq<Seq<char>>,
    pub search_active: bool,
    pub search_input: Seq<char>,
    pub search_query: Option<Seq<char>>,
    pub create_active: bool,
    pub create_input: Seq<char>,
    pub status_message: Option<Seq<char>>,
    pub help_active: bool,
    pub gui_missing_active: bool,
    pub fullscreen: FullscreenMode,
    pub editing: bool,
}

/// The browser's state. `entries`, `tree` and `search_results` are what
/// the filesystem showed when the caller last read it: the listing of
/// `current_dir`, its rows in tree view with `expanded_paths` opened, and
/// the entries under it that match `search_query`.
pub struct AppState {
    pub config: Config,
    pub current_dir: String,
    pub entries: Vec<FileEntry>,
    pub tree: Vec<TuiTreeNode>,
    pub search_results: Vec<FileEntry>,
    pub cached_search_results: Option<Vec<FileEntry>>,
    pub workspace_index: usize,
    pub folder_index: usize,
    pub active_section: ActiveSection,
    pub selected_file: Option<String>,
    pub scroll_offset: usize,
    pub error: Option<String>,
    pub quit: bool,
    pub open_files: Vec<String>,
    pub needs_clear: bool,
    pub view_mode: ViewMode,
    pub expanded_paths: Vec<String>,
    pub search_active: bool,
    pub search_input: String,
    pub search_query: Option<String>,
    pub create_active: bool,
    pub create_input: String,
    pub status_message: Option<String>,
    pub help_active: bool,
    pub gui_missing_active: bool,
    pub fullscreen: FullscreenMode,
    pub editing: bool,
}

impl View for AppState {
    type V = AppView;

    open spec fn view(&self) -> AppView {
        AppView {
            pins: pins_view(self.config.pinned_workspaces@),
            saved_view_mode: self.config.view_mode,
            view_mode: self.view_mode,
            current_dir: self.current_dir@,
            entries: entries_view(self.entries@),
            tree: tree_view(self.tree@),
            search_results: entries_view(self.search_results@),
            cached_search_results: opt_entries_view(self.cached_search_results),
            workspace_index: self.workspace_index,
            folder_index: self.folder_index,
            active_section: self.active_section,
            selected_file: opt_chars(self.selected_file),
            scroll_offset: self.scroll_offset,
            error: opt_chars(self.error),
            quit: self.quit,
            open_files: strings_view(self.open_files@),
            needs_clear: self.needs_clear,
            expanded_paths: strings_view(self.expanded_paths@),
            search_active: self.search_active,
            search_input: self.search_input@,
            search_query: opt_chars(self.search_query),
            create_active: self.create_active,
            create_input: self.create_input@,
            status_message: opt_chars(self.status_message),
            help_active: self.help_active,
            gui_missing_active: self.gui_missing_active,
            fullscreen: self.fullscreen,
            editing: self.editing,
        }
    }
}

/// `index` kept within a list of `count` rows: 0 for an empty list, else at
/// most the last row.
pub open spec fn clamp_index(index: usize, count: nat) -> usize {
    if count == 0 {
        0
    } else if index >= count {
        (count - 1) as usize
    } else {
        index
    }
}

/// The number of rows of the folders pane: the search results while a
/// query is set, else the listing or the tree rows.
pub open spec fn folder_count(s: AppView) -> nat {
    if s.search_query is Some {
        s.search_results.len()
    } else {
        match s.view_mode {
            ViewMode::List => s.entries.len(),
            ViewMode::Tree => s.tree.len(),
        }
    }
}

/// The folders pane has no row in the current view mode (search aside).
pub open spec fn folders_empty(s: AppView) -> bool {
    match s.view_mode {
        ViewMode::List => s.entries.len() == 0,
        ViewMode::Tree => s.tree.len() == 0,
    }
}

/// Work for the caller to do after a key.
#[derive(Debug)]
pub enum Effect {
    /// Nothing to do.
    Nothing,
    /// `current_dir` changed: read its listing (`reload_directory`) and
    /// refresh the tree rows and search results.
    Reload,
    /// The tree rows (expansion or view mode) changed: refresh them.
    Refresh,
    /// The search query changed: refresh the search results, then
    /// `clamp_folder_index`.
    Reclamp,
    /// Go to the parent of `current_dir` (`set_current_dir`, `reload_directory`,
    /// then `position_after_up`).
    GoUp,
    /// Open `path` in the viewer (`select_file`); then focus the viewer if
    /// `focus_viewer`, enter the margins reading mode if `fullscreen`, and
    /// start the editor on it if `edit`.
    SelectFile { path: String, focus_viewer: bool, fullscreen: bool, edit: bool },
    /// Open the pinned item `path` if it still exists
    /// (`open_pinned_dir` for a folder, else `select_file`); `missing_error`
    /// says whether to report a missing item, `focus_viewer` whether to focus
    /// the viewer after opening a file.
    OpenPinned { path: String, is_dir: bool, focus_viewer: bool, missing_error: bool },
    /// Enter `focused` if it is a folder (`enter_folder`), then
    /// `switch_view_mode`.
    SwitchViewMode { focused: Option<String> },
    /// Create the empty file `name` in `current_dir` and edit it.
    CreateFile { name: String },
    /// Open a terminal in `current_dir`.
    OpenTerminal,
    /// Copy `path`, or its last component if `name_only`, to the clipboard.
    Copy { path: String, name_only: bool },
    /// Open `path` with the system's default application.
    OpenSystem { path: String },
    /// Open `path` in the desktop app (or show how to install it).
    OpenGui { path: String },
    /// Start the editor on the selected file.
    EditFile,
    /// Save the settings.
    SaveConfig,
    /// Send these bytes to the running editor.
    PtyInput { bytes: Vec<u8> },
    /// No file is open any more: drop the viewer's content.
    ClearViewer,
}

/// A copy of a string.
pub fn copy_string(s: &String) -> (r: String)
    ensures
        r@ == s@,
{
    s.clone()
}

/// A copy of a string slice as an owned string.
pub fn owned(s: &str) -> (r: String)
    ensures
        r@ == s@,
{
    let v = str_to_chars(s);
    let r = chars_to_string(&v, 0, v.len());
    assert(v@.subrange(0, v@.len() as int) =~= v@);
    r
}

/// A copy of an optional string.
pub fn copy_opt_string(s: &Option<String>) -> (r: Option<String>)
    ensures
        opt_chars(r) == opt_chars(*s),
{
    match s {
        Some(x) => Some(copy_string(x)),
        None => None,
    }
}

impl FileEntry {
    /// A copy of the entry.
    pub fn copy(&self) -> (r: FileEntry)
        ensures
            r@ == self@,
    {
        FileEntry { name: copy_string(&self.name), path: copy_string(&self.path), is_dir: self.is_dir }
    }
}

impl TuiTreeNode {
    /// A copy of the row.
    pub fn copy(&self) -> (r: TuiTreeNode)
        ensures
            r@ == self@,
    {
        TuiTreeNode {
            name: copy_string(&self.name),
            path: copy_string(&self.path),
            is_dir: self.is_dir,
            depth: self.depth,
            parent_path: copy_opt_string(&self.parent_path),
        }
    }
}

/// A copy of a list of entries.
pub fn copy_entries(v: &Vec<FileEntry>) -> (r: Vec<FileEntry>)
    ensures
        entries_view(r@) == entries_view(v@),
{
    let mut out: Vec<FileEntry> = Vec::new();
    let mut i: usize = 0;
    while i < v.len()
        invariant
            0 <= i <= v@.len(),
            entries_view(out@) =~= entries_view(v@.take(i as int)),
        decreases v@.len() - i,
    {
        let ghost before = entries_view(out@);
        out.push(v[i].copy());
        assert(entries_view(out@) =~= before.push(v@[i as int]@));
        assert(v@.take(i + 1) =~= v@.take(i as int).push(v@[i as int]));
        assert(entries_view(v@.take(i + 1)) =~= entries_view(v@.take(i as int)).push(v@[i as int]@));
        i = i + 1;
    }
    assert(v@.take(i as int) =~= v@);
    out
}

/// The first position of `p` in `s`.
pub open spec fn position_of(s: Seq<Seq<char>>, p: Seq<char>, i: int) -> Option<int>
    decreases s.len() - i,
{
    if i < 0 || i >= s.len() {
        None
    } else if s[i] == p {
        Some(i)
    } else {
        position_of(s, p, i + 1)
    }
}

/// `position_of` finds `p` at a position from `i` on, and no earlier one.
pub proof fn lemma_position_of(s: Seq<Seq<char>>, p: Seq<char>, i: int)
    requires
        0 <= i,
    ensures
        position_of(s, p, i) matches Some(j) ==> i <= j < s.len() && s[j] == p && forall|k: int|
            i <= k < j ==> s[k] != p,
        position_of(s, p, i) is None ==> forall|k: int| i <= k < s.len() ==> s[k] != p,
    decreases s.len() - i,
{
    if i < s.len() && s[i] != p {
        lemma_position_of(s, p, i + 1);
    }
}

/// The first position of `p` in `v`.
pub fn find_string(v: &Vec<String>, p: &str) -> (r: Option<usize>)
    ensures
        match r {
            Some(i) => position_of(strings_view(v@), p@, 0) == Some(i as int),
            None => position_of(strings_view(v@), p@, 0) is None,
        },
{
    let ghost s = strings_view(v@);
    let mut i: usize = 0;
    while i < v.len()
        invariant
            0 <= i <= v@.len(),
            s == strings_view(v@),
            position_of(s, p@, 0) == position_of(s, p@, i as int),
        decreases v@.len() - i,
    {
        if str_eq(v[i].as_str(), p) {
            return Some(i);
        }
        i = i + 1;
    }
    None
}

/// `s` without its last character, if any.
pub fn pop_char(s: &String) -> (r: String)
    ensures
        r@ == (if s@.len() > 0 {
            s@.drop_last()
        } else {
            s@
        }),
{
    let v = str_to_chars(s.as_str());
    if v.len() > 0 {
        chars_to_string(&v, 0, v.len() - 1)
    } else {
        assert(v@.subrange(0, 0) =~= s@);
        chars_to_string(&v, 0, 0)
    }
}

impl AppState {
    /// The browser started at `start` with the saved settings, nothing read
    /// yet. When `start` is a file (`start_is_file`, read from the disk) the
    /// browser is in its folder (`parent`, or `start` itself when it has
    /// none) with the file open in the viewer and the viewer focused;
    /// otherwise it is in `start` with the folders pane focused and nothing
    /// open.
    pub fn new(config: Config, start: String, start_is_file: bool, parent: Option<String>) -> (r: AppState)
        ensures
            r@ == (AppView {
                pins: pins_view(config.pinned_workspaces@),
                saved_view_mode: config.view_mode,
                view_mode: config.view_mode,
                current_dir: if start_is_file {
                    match parent {
                        Some(d) => d@,
                        None => start@,
                    }
                } else {
                    start@
                },
                entries: Seq::empty(),
                tree: Seq::empty(),
                search_results: Seq::empty(),
                cached_search_results: None,
                workspace_index: 0,
                folder_index: 0,
                active_section: if start_is_file {
                    ActiveSection::Viewer
                } else {
                    ActiveSection::Folders
                },
                selected_file: if start_is_file {
                    Some(start@)
                } else {
                    None
                },
                scroll_offset: 0,
                error: None,
                quit: false,
                open_files: if start_is_file {
                    seq![start@]
                } else {
                    Seq::empty()
                },
                needs_clear: false,
                expanded_paths: Seq::empty(),
                search_active: false,
                search_input: Seq::empty(),
                search_query: None,
                create_active: false,
                create_input: Seq::empty(),
                status_message: None,
                help_active: false,
                gui_missing_active: false,
                fullscreen: FullscreenMode::Off,
                editing: false,
            }),
    {
        let view_mode = config.view_mode;
        let mut open_files: Vec<String> = Vec::new();
        let mut selected_file: Option<String> = None;
        let mut active_section = ActiveSection::Folders;
        let current_dir = if start_is_file {
            open_files.push(copy_string(&start));
            selected_file = Some(copy_string(&start));
            active_section = ActiveSection::Viewer;
            match parent {
                Some(d) => d,
                None => start,
            }
        } else {
            start
        };
        let r = AppState {
            config,
            current_dir,
            entries: Vec::new(),
            tree: Vec::new(),
            search_results: Vec::new(),
            cached_search_results: None,
            workspace_index: 0,
            folder_index: 0,
            active_section,
            selected_file,
            scroll_offset: 0,
            error: None,
            quit: false,
            open_files,
            needs_clear: false,
            view_mode,
            expanded_paths: Vec::new(),
            search_active: false,
            search_input: String::new(),
            search_query: None,
            create_active: false,
            create_input: String::new(),
            status_message: None,
            help_active: false,
            gui_missing_active: false,
            fullscreen: FullscreenMode::Off,
            editing: false,
        };
        assert(r@.entries =~= Seq::empty());
        assert(r@.tree =~= Seq::empty());
        assert(r@.search_results =~= Seq::empty());
        assert(r@.expanded_paths =~= Seq::empty());
        assert(r@.open_files =~= if start_is_file {
            seq![start@]
        } else {
            Seq::empty()
        });
        r
    }

    /// The pins in the order the workspaces pane shows them.
    pub fn get_sorted_workspaces(&self) -> (r: Vec<PinnedItem>)
        ensures
            pins_view(r@) == workspace_order(self@.pins),
    {
        sorted_workspaces(&self.config.pinned_workspaces)
    }

    /// The number of rows of the folders pane (see `folder_count`).
    pub fn folder_row_count(&self) -> (r: usize)
        ensures
            r == folder_count(self@),
    {
        if self.search_query.is_some() {
            self.search_results.len()
        } else {
            match self.view_mode {
                ViewMode::List => self.entries.len(),
                ViewMode::Tree => self.tree.len(),
            }
        }
    }

    /// Keeps the folders pane's cursor on an existing row (see
    /// `clamp_index` and `folder_count`).
    pub fn clamp_folder_index(&mut self)
        ensures
            final(self)@ == (AppView {
                folder_index: clamp_index(old(self).folder_index, folder_count(old(self)@)),
                ..old(self)@
            }),
    {
        let count = self.folder_row_count();
        if count == 0 {
            self.folder_index = 0;
        } else if self.folder_index >= count {
            self.folder_index = count - 1;
        }
    }

    /// The tree rows as last read.
    pub fn get_flat_tree(&self) -> (r: &Vec<TuiTreeNode>)
        ensures
            tree_view(r@) == self@.tree,
    {
        &self.tree
    }

    /// The search results for the current query as last read.
    pub fn get_search_results(&self) -> (r: &Vec<FileEntry>)
        ensures
            entries_view(r@) == self@.search_results,
    {
        &self.search_results
    }

    /// Whether the folder `path` is expanded in tree view.
    pub fn is_expanded(&self, path: &str) -> (r: bool)
        ensures
            r == strings_view(self.expanded_paths@).contains(path@),
    {
        proof {
            lemma_position_of(strings_view(self.expanded_paths@), path@, 0);
        }
        find_string(&self.expanded_paths, path).is_some()
    }
}

/// What an effect asks for, by value.
pub enum EffectView {
    Nothing,
    Reload,
    Refresh,
    Reclamp,
    GoUp,
    SelectFile { path: Seq<char>, focus_viewer: bool, fullscreen: bool, edit: bool },
    OpenPinned { path: Seq<char>, is_dir: bool, focus_viewer: bool, missing_error: bool },
    SwitchViewMode { focused: Option<Seq<char>> },
    CreateFile { name: Seq<char> },
    OpenTerminal,
    Copy { path: Seq<char>, name_only: bool },
    OpenSystem { path: Seq<char> },
    OpenGui { path: Seq<char> },
    EditFile,
    SaveConfig,
    PtyInput { bytes: Seq<u8> },
    ClearViewer,
}

impl View for Effect {
    type V = EffectView;

    open spec fn view(&self) -> EffectView {
        match self {
            Effect::Nothing => EffectView::Nothing,
            Effect::Reload => EffectView::Reload,
            Effect::Refresh => EffectView::Refresh,
            Effect::Reclamp => EffectView::Reclamp,
            Effect::GoUp => EffectView::GoUp,
            Effect::SelectFile { path, focus_viewer, fullscreen, edit } => EffectView::SelectFile {
                path: path@,
                focus_viewer: *focus_viewer,
                fullscreen: *fullscreen,
                edit: *edit,
            },
            Effect::OpenPinned { path, is_dir, focus_viewer, missing_error } => EffectView::OpenPinned {
                path: path@,
                is_dir: *is_dir,
                focus_viewer: *focus_viewer,
                missing_error: *missing_error,
            },
            Effect::SwitchViewMode { focused } => EffectView::SwitchViewMode {
                focused: opt_chars(*focused),
            },
            Effect::CreateFile { name } => EffectView::CreateFile { name: name@ },
            Effect::OpenTerminal => EffectView::OpenTerminal,
            Effect::Copy { path, name_only } => EffectView::Copy { path: path@, name_only: *name_only },
            Effect::OpenSystem { path } => EffectView::OpenSystem { path: path@ },
            Effect::OpenGui { path } => EffectView::OpenGui { path: path@ },
            Effect::EditFile => EffectView::EditFile,
            Effect::SaveConfig => EffectView::SaveConfig,
            Effect::PtyInput { bytes } => EffectView::PtyInput { bytes: bytes@ },
            Effect::ClearViewer => EffectView::ClearViewer,
        }
    }
}

/// The focus after Tab: workspaces go to the folders (or the viewer when
/// the folders pane is empty), folders to the viewer, the viewer to the
/// workspaces (or, without pins, the folders, or back to itself).
pub open spec fn next_section(s: AppView) -> ActiveSection {
    match s.active_section {
        ActiveSection::Workspaces => if !folders_empty(s) {
            ActiveSection::Folders
        } else {
            ActiveSection::Viewer
        },
        ActiveSection::Folders => ActiveSection::Viewer,
        ActiveSection::Viewer => if s.pins.len() > 0 {
            ActiveSection::Workspaces
        } else if !folders_empty(s) {
            ActiveSection::Folders
        } else {
            ActiveSection::Viewer
        },
    }
}

/// The focus after Shift-Tab: the same cycle the other way round.
pub open spec fn prev_section(s: AppView) -> ActiveSection {
    match s.active_section {
        ActiveSection::Workspaces => ActiveSection::Viewer,
        ActiveSection::Folders => if s.pins.len() > 0 {
            ActiveSection::Workspaces
        } else {
            ActiveSection::Viewer
        },
        ActiveSection::Viewer => if !folders_empty(s) {
            ActiveSection::Folders
        } else if s.pins.len() > 0 {
            ActiveSection::Workspaces
        } else {
            ActiveSection::Viewer
        },
    }
}

/// The path under the folders pane's cursor, if there is a row there.
pub open spec fn focused_path(s: AppView) -> Option<Seq<char>> {
    if s.search_query is Some {
        if s.folder_index < s.search_results.len() {
            Some(s.search_results[s.folder_index as int].1)
        } else {
            None
        }
    } else {
        match s.view_mode {
            ViewMode::List => if s.folder_index < s.entries.len() {
                Some(s.entries[s.folder_index as int].1)
            } else {
                None
            },
            ViewMode::Tree => if s.folder_index < s.tree.len() {
                Some(s.tree[s.folder_index as int].1)
            } else {
                None
            },
        }
    }
}

/// What `y` and `Y` copy: the open file when the viewer has the focus,
/// else the row under the cursor, falling back to the open file.
pub open spec fn copy_target(s: AppView) -> Option<Seq<char>> {
    if s.active_section == ActiveSection::Viewer {
        s.selected_file
    } else {
        match focused_path(s) {
            Some(p) => Some(p),
            None => s.selected_file,
        }
    }
}

/// The tab that `[` (backwards) or `]` (forwards) opens: the neighbour of
/// the open file, wrapping around, or the first tab when no file is open.
pub open spec fn tab_step(s: AppView, forward: bool) -> EffectView {
    let n = s.open_files.len();
    if n == 0 {
        EffectView::Nothing
    } else {
        match s.selected_file {
            None => EffectView::SelectFile {
                path: s.open_files[0],
                focus_viewer: false,
                fullscreen: false,
                edit: false,
            },
            Some(cur) => match position_of(s.open_files, cur, 0) {
                None => EffectView::Nothing,
                Some(idx) => {
                    let j = if forward {
                        if idx == n - 1 {
                            0
                        } else {
                            idx + 1
                        }
                    } else {
                        if idx == 0 {
                            n - 1
                        } else {
                            idx - 1
                        }
                    };
                    EffectView::SelectFile {
                        path: s.open_files[j],
                        focus_viewer: false,
                        fullscreen: false,
                        edit: false,
                    }
                },
            },
        }
    }
}

/// Opening the `idx`-th pin of the workspaces pane from anywhere (Ctrl-Shift
/// or Alt-Shift with a digit).
pub open spec fn activate_effect(s: AppView, idx: int) -> EffectView {
    let ws = workspace_order(s.pins);
    if 0 <= idx < ws.len() {
        EffectView::OpenPinned {
            path: ws[idx].0,
            is_dir: ws[idx].1,
            focus_viewer: false,
            missing_error: false,
        }
    } else {
        EffectView::Nothing
    }
}

/// Ctrl or Alt with a digit opens that tab; with Shift too (or Ctrl or Alt
/// with the symbol Shift types on a digit key) it opens that pin.
pub open spec fn digit_step(s: AppView, key: KeyEvent) -> Option<(AppView, EffectView)> {
    let ctrl = key.modifiers.control;
    let alt = key.modifiers.alt;
    let shift = key.modifiers.shift;
    match key.code {
        KeyCode::Char(c) => if '1' <= c && c <= '9' {
            let index = (c as u32) - ('1' as u32);
            if (ctrl && shift) || (alt && shift) {
                Some((s, activate_effect(s, index)))
            } else if ctrl || alt {
                if index < s.open_files.len() {
                    Some(
                        (
                            s,
                            EffectView::SelectFile {
                                path: s.open_files[index],
                                focus_viewer: false,
                                fullscreen: false,
                                edit: false,
                            },
                        ),
                    )
                } else {
                    Some((s, EffectView::Nothing))
                }
            } else {
                None
            }
        } else if c != '0' && shifted_digit(c) is Some && (ctrl || alt) {
            let index = ((shifted_digit(c)->0) as u32) - ('1' as u32);
            Some((s, activate_effect(s, index)))
        } else {
            None
        },
        _ => None,
    }
}

/// The global keys other than the digits and `?`.
pub open spec fn command_step(s: AppView, key: KeyEvent) -> Option<(AppView, EffectView)> {
    match key.code {
        KeyCode::Char('t') => Some((s, EffectView::OpenTerminal)),
        KeyCode::Char('n') => Some(
            (AppView { create_active: true, create_input: Seq::empty(), ..s }, EffectView::Nothing),
        ),
        KeyCode::Char('y') => Some(
            (
                s,
                match copy_target(s) {
                    Some(p) => EffectView::Copy { path: p, name_only: false },
                    None => EffectView::Nothing,
                },
            ),
        ),
        KeyCode::Char('Y') => Some(
            (
                s,
                match copy_target(s) {
                    Some(p) => EffectView::Copy { path: p, name_only: true },
                    None => EffectView::Nothing,
                },
            ),
        ),
        KeyCode::Char('[') => Some((s, tab_step(s, false))),
        KeyCode::Char(']') => Some((s, tab_step(s, true))),
        KeyCode::Tab => Some((AppView { active_section: next_section(s), ..s }, EffectView::Nothing)),
        KeyCode::BackTab => Some((AppView { active_section: prev_section(s), ..s }, EffectView::Nothing)),
        KeyCode::Esc => if s.search_query is Some {
            let t = AppView { search_query: None, folder_index: 0, ..s };
            Some((AppView { folder_index: clamp_index(0, folder_count(t)), ..t }, EffectView::Nothing))
        } else {
            Some((AppView { quit: true, ..s }, EffectView::Nothing))
        },
        KeyCode::Char('q') => Some((AppView { quit: true, ..s }, EffectView::Nothing)),
        _ => None,
    }
}

/// The keys that act in every pane (before the pane's own keys): the
/// digit shortcuts, `?`, then the commands of `command_step`. `None` when
/// the key is not one of them.
pub open spec fn global_step(s: AppView, key: KeyEvent) -> Option<(AppView, EffectView)> {
    if digit_step(s, key) is Some {
        digit_step(s, key)
    } else if key.code == KeyCode::Char('?') && !s.search_active && !s.create_active {
        Some((AppView { help_active: !s.help_active, ..s }, EffectView::Nothing))
    } else {
        command_step(s, key)
    }
}

impl AppState {
    /// Opening the `idx`-th pin of the workspaces pane (see
    /// `activate_effect`).
    pub fn activate_workspace_at_index(&self, idx: usize) -> (r: Effect)
        ensures
            r@ == activate_effect(self@, idx as int),
    {
        let ws = self.get_sorted_workspaces();
        if idx < ws.len() {
            assert(pins_view(ws@)[idx as int] == ws@[idx as int]@);
            Effect::OpenPinned {
                path: copy_string(&ws[idx].path),
                is_dir: ws[idx].is_dir,
                focus_viewer: false,
                missing_error: false,
            }
        } else {
            Effect::Nothing
        }
    }

    /// The path under the folders pane's cursor (see `focused_path`).
    pub fn focused_path(&self) -> (r: Option<String>)
        ensures
            opt_chars(r) == focused_path(self@),
    {
        if self.search_query.is_some() {
            if self.folder_index < self.search_results.len() {
                assert(entries_view(self.search_results@)[self.folder_index as int]
                    == self.search_results@[self.folder_index as int]@);
                Some(copy_string(&self.search_results[self.folder_index].path))
            } else {
                None
            }
        } else {
            match self.view_mode {
                ViewMode::List => if self.folder_index < self.entries.len() {
                    assert(entries_view(self.entries@)[self.folder_index as int]
                        == self.entries@[self.folder_index as int]@);
                    Some(copy_string(&self.entries[self.folder_index].path))
                } else {
                    None
                },
                ViewMode::Tree => if self.folder_index < self.tree.len() {
                    assert(tree_view(self.tree@)[self.folder_index as int]
                        == self.tree@[self.folder_index as int]@);
                    Some(copy_string(&self.tree[self.folder_index].path))
                } else {
                    None
                },
            }
        }
    }

    /// What `y` and `Y` copy (see `copy_target`).
    pub fn copy_target(&self) -> (r: Option<String>)
        ensures
            opt_chars(r) == copy_target(self@),
    {
        if self.active_section == ActiveSection::Viewer {
            copy_opt_string(&self.selected_file)
        } else {
            match self.focused_path() {
                Some(p) => Some(p),
                None => copy_opt_string(&self.selected_file),
            }
        }
    }

    fn tab_step(&self, forward: bool) -> (r: Effect)
        ensures
            r@ == tab_step(self@, forward),
    {
        let n = self.open_files.len();
        if n == 0 {
            return Effect::Nothing;
        }
        assert(strings_view(self.open_files@)[0] == self.open_files@[0]@);
        match &self.selected_file {
            None => Effect::SelectFile {
                path: copy_string(&self.open_files[0]),
                focus_viewer: false,
                fullscreen: false,
                edit: false,
            },
            Some(cur) => {
                proof {
                    lemma_position_of(strings_view(self.open_files@), cur@, 0);
                }
                match find_string(&self.open_files, cur.as_str()) {
                    None => Effect::Nothing,
                    Some(idx) => {
                        let j = if forward {
                            if idx == n - 1 {
                                0
                            } else {
                                idx + 1
                            }
                        } else {
                            if idx == 0 {
                                n - 1
                            } else {
                                idx - 1
                            }
                        };
                        assert(strings_view(self.open_files@)[j as int] == self.open_files@[j as int]@);
                        Effect::SelectFile {
                            path: copy_string(&self.open_files[j]),
                            focus_viewer: false,
                            fullscreen: false,
                            edit: false,
                        }
                    },
                }
            },
        }
    }

    fn digit_keys(&self, key: KeyEvent) -> (r: Option<Effect>)
        ensures
            match r {
                Some(e) => digit_step(self@, key) == Some((self@, e@)),
                None => digit_step(self@, key) is None,
            },
    {
        let ctrl = key.modifiers.control;
        let alt = key.modifiers.alt;
        let shift = key.modifiers.shift;
        if let KeyCode::Char(c) = key.code {
            if '1' <= c && c <= '9' {
                let index = (c as u32 - '1' as u32) as usize;
                if (ctrl && shift) || (alt && shift) {
                    return Some(self.activate_workspace_at_index(index));
                } else if ctrl || alt {
                    if index < self.open_files.len() {
                        assert(strings_view(self.open_files@)[index as int]
                            == self.open_files@[index as int]@);
                        return Some(
                            Effect::SelectFile {
                                path: copy_string(&self.open_files[index]),
                                focus_viewer: false,
                                fullscreen: false,
                                edit: false,
                            },
                        );
                    }
                    return Some(Effect::Nothing);
                }
            } else if c != '0' {
                if let Some(d) = symbol_to_digit(c) {
                    if ctrl || alt {
                        let index = (d as u32 - '1' as u32) as usize;
                        return Some(self.activate_workspace_at_index(index));
                    }
                }
            }
        }
        None
    }

    fn cycle_focus(&mut self, forward: bool)
        ensures
            final(self)@ == (AppView {
                active_section: if forward {
                    next_section(old(self)@)
                } else {
                    prev_section(old(self)@)
                },
                ..old(self)@
            }),
    {
        let folders_empty = match self.view_mode {
            ViewMode::List => self.entries.len() == 0,
            ViewMode::Tree => self.tree.len() == 0,
        };
        let pinned = self.config.pinned_workspaces.len() > 0;
        self.active_section = if forward {
            match self.active_section {
                ActiveSection::Workspaces => if !folders_empty {
                    ActiveSection::Folders
                } else {
                    ActiveSection::Viewer
                },
                ActiveSection::Folders => ActiveSection::Viewer,
                ActiveSection::Viewer => if pinned {
                    ActiveSection::Workspaces
                } else if !folders_empty {
                    ActiveSection::Folders
                } else {
                    ActiveSection::Viewer
                },
            }
        } else {
            match self.active_section {
                ActiveSection::Workspaces => ActiveSection::Viewer,
                ActiveSection::Folders => if pinned {
                    ActiveSection::Workspaces
                } else {
                    ActiveSection::Viewer
                },
                ActiveSection::Viewer => if !folders_empty {
                    ActiveSection::Folders
                } else if pinned {
                    ActiveSection::Workspaces
                } else {
                    ActiveSection::Viewer
                },
            }
        };
    }

    fn command_keys(&mut self, key: KeyEvent) -> (r: Option<Effect>)
        ensures
            match r {
                Some(e) => command_step(old(self)@, key) == Some((final(self)@, e@)),
                None => command_step(old(self)@, key) is None && final(self)@ == old(self)@,
            },
    {
        match key.code {
            KeyCode::Char('t') => Some(Effect::OpenTerminal),
            KeyCode::Char('n') => {
                self.create_active = true;
                self.create_input = String::new();
                Some(Effect::Nothing)
            },
            KeyCode::Char('y') => match self.copy_target() {
                Some(p) => Some(Effect::Copy { path: p, name_only: false }),
                None => Some(Effect::Nothing),
            },
            KeyCode::Char('Y') => match self.copy_target() {
                Some(p) => Some(Effect::Copy { path: p, name_only: true }),
                None => Some(Effect::Nothing),
            },
            KeyCode::Char('[') => Some(self.tab_step(false)),
            KeyCode::Char(']') => Some(self.tab_step(true)),
            KeyCode::Tab => {
                self.cycle_focus(true);
                Some(Effect::Nothing)
            },
            KeyCode::BackTab => {
                self.cycle_focus(false);
                Some(Effect::Nothing)
            },
            KeyCode::Esc => {
                if self.search_query.is_some() {
                    self.search_query = None;
                    self.folder_index = 0;
                    self.clamp_folder_index();
                } else {
                    self.quit = true;
                }
                Some(Effect::Nothing)
            },
            KeyCode::Char('q') => {
                self.quit = true;
                Some(Effect::Nothing)
            },
            _ => None,
        }
    }

    /// The keys that act in every pane (see `global_step`); `None` leaves
    /// the key to the focused pane.
    pub fn handle_global_keys(&mut self, key: KeyEvent) -> (r: Option<Effect>)
        ensures
            match r {
                Some(e) => global_step(old(self)@, key) == Some((final(self)@, e@)),
                None => global_step(old(self)@, key) is None && final(self)@ == old(self)@,
            },
    {
        if let Some(e) = self.digit_keys(key) {
            return Some(e);
        }
        if key.code == KeyCode::Char('?') && !self.search_active && !self.create_active {
            self.help_active = !self.help_active;
            return Some(Effect::Nothing);
        }
        self.command_keys(key)
    }
}

/// Enter with Cmd, Alt or Meta opens a file and moves the focus to it.
pub open spec fn has_open_modifier(key: KeyEvent) -> bool {
    key.modifiers.super_key || key.modifiers.alt || key.modifiers.meta
}

/// `x + n`, saturating at the largest `usize`.
pub open spec fn sat_add(x: usize, n: usize) -> usize {
    if x + n > usize::MAX {
        usize::MAX
    } else {
        (x + n) as usize
    }
}

/// `x - n`, saturating at zero.
pub open spec fn sat_sub(x: nat, n: nat) -> usize {
    if x >= n {
        (x - n) as usize
    } else {
        0
    }
}

/// Opening the search prompt with an empty query.
pub open spec fn start_search(s: AppView) -> AppView {
    AppView { search_active: true, search_input: Seq::empty(), ..s }
}

/// The focus moves to the folders pane, on its first row.
pub open spec fn focus_folders(s: AppView) -> AppView {
    AppView { active_section: ActiveSection::Folders, folder_index: 0, ..s }
}

/// The keys of the workspaces pane (after the global keys). A key that
/// opens or removes a pin needs the cursor on an existing pin.
pub open spec fn workspaces_step(s: AppView, key: KeyEvent) -> (AppView, EffectView) {
    let ws = workspace_order(s.pins);
    let wi = s.workspace_index;
    if ws.len() == 0 {
        if key.code == KeyCode::Char('/') {
            (start_search(s), EffectView::Nothing)
        } else {
            (s, EffectView::Nothing)
        }
    } else {
        match key.code {
            KeyCode::Char('/') => (start_search(s), EffectView::Nothing),
            KeyCode::Down | KeyCode::Char('j') => if wi < ws.len() - 1 {
                (AppView { workspace_index: (wi + 1) as usize, ..s }, EffectView::Nothing)
            } else if !folders_empty(s) {
                (focus_folders(s), EffectView::Nothing)
            } else {
                (s, EffectView::Nothing)
            },
            KeyCode::Up | KeyCode::Char('k') => if wi > 0 {
                (AppView { workspace_index: (wi - 1) as usize, ..s }, EffectView::Nothing)
            } else {
                (s, EffectView::Nothing)
            },
            KeyCode::Enter => (
                s,
                EffectView::OpenPinned {
                    path: ws[wi as int].0,
                    is_dir: ws[wi as int].1,
                    focus_viewer: has_open_modifier(key),
                    missing_error: true,
                },
            ),
            KeyCode::Char('p') | KeyCode::Char('d') | KeyCode::Char('x') => {
                let pins = crate::config::unpin_spec(s.pins, ws[wi as int].0);
                let n = workspace_order(pins).len();
                let t = AppView {
                    pins,
                    workspace_index: if wi >= n {
                        sat_sub(n, 1)
                    } else {
                        wi
                    },
                    ..s
                };
                let u = if n == 0 {
                    if !folders_empty(t) {
                        focus_folders(t)
                    } else {
                        AppView { active_section: ActiveSection::Viewer, ..t }
                    }
                } else {
                    t
                };
                (u, EffectView::SaveConfig)
            },
            _ => (s, EffectView::Nothing),
        }
    }
}

/// Opening `path` in the viewer.
pub open spec fn open_file(path: Seq<char>, focus: bool, fullscreen: bool, edit: bool) -> EffectView {
    EffectView::SelectFile { path, focus_viewer: focus, fullscreen, edit }
}

/// `path` is a media file.
pub open spec fn is_media(path: Seq<char>) -> bool {
    crate::files::media_ext(crate::files::lowercase(path))
}

/// The keys of the folders pane while it shows the results of a search,
/// `results`. A key that acts on a result needs the cursor on one.
pub open spec fn search_results_step(
    s: AppView,
    key: KeyEvent,
    results: Seq<(Seq<char>, Seq<char>, bool)>,
) -> (AppView, EffectView) {
    let fi = s.folder_index;
    let some = results.len() > 0;
    let e = results[fi as int];
    match key.code {
        KeyCode::Char('/') => (start_search(s), EffectView::Nothing),
        KeyCode::Down | KeyCode::Char('j') => if fi < sat_sub(results.len(), 1) {
            (AppView { folder_index: (fi + 1) as usize, ..s }, EffectView::Nothing)
        } else {
            (s, EffectView::Nothing)
        },
        KeyCode::Up | KeyCode::Char('k') => if fi > 0 {
            (AppView { folder_index: (fi - 1) as usize, ..s }, EffectView::Nothing)
        } else {
            (s, EffectView::Nothing)
        },
        KeyCode::Enter | KeyCode::Right | KeyCode::Char('l') => if !some {
            (s, EffectView::Nothing)
        } else if e.2 {
            (
                AppView {
                    current_dir: e.1,
                    search_query: None,
                    cached_search_results: None,
                    folder_index: 0,
                    ..s
                },
                EffectView::Reload,
            )
        } else {
            (s, open_file(e.1, has_open_modifier(key), false, false))
        },
        KeyCode::Left | KeyCode::Char('h') | KeyCode::Backspace | KeyCode::Char('u') => (
            AppView { search_query: None, ..s },
            EffectView::GoUp,
        ),
        KeyCode::Char('p') => if some {
            (
                AppView { pins: crate::config::toggle_pin_spec(s.pins, e.1, e.2), ..s },
                EffectView::SaveConfig,
            )
        } else {
            (s, EffectView::Nothing)
        },
        KeyCode::Char('e') => if some && !e.2 && !is_media(e.1) {
            (s, open_file(e.1, false, false, true))
        } else {
            (s, EffectView::Nothing)
        },
        KeyCode::Char('o') => if some && !e.2 {
            (s, EffectView::OpenSystem { path: e.1 })
        } else {
            (s, EffectView::Nothing)
        },
        KeyCode::Char('g') => if some && !e.2 {
            (s, EffectView::OpenGui { path: e.1 })
        } else {
            (s, EffectView::Nothing)
        },
        KeyCode::Char('f') => if some && !e.2 {
            (s, open_file(e.1, true, true, false))
        } else {
            (s, EffectView::Nothing)
        },
        _ => (s, EffectView::Nothing),
    }
}

/// `paths` without any entry `p`.
pub open spec fn without(paths: Seq<Seq<char>>, p: Seq<char>) -> Seq<Seq<char>> {
    paths.filter(|x: Seq<char>| x != p)
}

/// `paths` with `p` toggled: removed if present, else added at the end.
pub open spec fn toggle_path(paths: Seq<Seq<char>>, p: Seq<char>) -> Seq<Seq<char>> {
    if paths.contains(p) {
        without(paths, p)
    } else {
        paths.push(p)
    }
}

/// The first tree row whose path is `p`.
pub open spec fn tree_position(
    t: Seq<(Seq<char>, Seq<char>, bool, usize, Option<Seq<char>>)>,
    p: Seq<char>,
) -> Option<int> {
    position_of(t.map_values(|n: (Seq<char>, Seq<char>, bool, usize, Option<Seq<char>>)| n.1), p, 0)
}

/// The row under the cursor of the folders pane, as (name, path, is_dir),
/// when the pane has rows in the current view mode.
pub open spec fn current_row(s: AppView) -> Option<(Seq<char>, Seq<char>, bool)> {
    match s.view_mode {
        ViewMode::List => if s.entries.len() > 0 {
            Some(s.entries[s.folder_index as int])
        } else {
            None
        },
        ViewMode::Tree => if s.tree.len() > 0 {
            let n = s.tree[s.folder_index as int];
            Some((n.0, n.1, n.2))
        } else {
            None
        },
    }
}

/// The file under the cursor of the folders pane, if the row is a file.
pub open spec fn current_file(s: AppView) -> Option<Seq<char>> {
    match current_row(s) {
        Some(r) => if !r.2 {
            Some(r.1)
        } else {
            None
        },
        None => None,
    }
}

/// Entering the folder `path` in list view.
pub open spec fn enter_dir(s: AppView, path: Seq<char>) -> AppView {
    AppView { current_dir: path, folder_index: 0, ..s }
}

/// The keys of the folders pane after the global keys: those of the search
/// results while they are shown, else those of the list or tree view.
pub open spec fn folders_key(s: AppView, key: KeyEvent) -> (AppView, EffectView) {
    match s.cached_search_results {
        Some(res) => search_results_step(s, key, res),
        None => folders_step(s, key),
    }
}

/// The keys of the folders pane in list or tree view. A key that acts on
/// the row under the cursor needs the cursor on a row.
pub open spec fn folders_step(s: AppView, key: KeyEvent) -> (AppView, EffectView) {
    let fi = s.folder_index;
    let row = current_row(s);
    match key.code {
        KeyCode::Char('/') => (start_search(s), EffectView::Nothing),
        KeyCode::Char('v') => (s, EffectView::SwitchViewMode { focused: focused_path(s) }),
        KeyCode::Down | KeyCode::Char('j') => {
            let count = match s.view_mode {
                ViewMode::List => s.entries.len(),
                ViewMode::Tree => s.tree.len(),
            };
            if fi < sat_sub(count, 1) {
                (AppView { folder_index: (fi + 1) as usize, ..s }, EffectView::Nothing)
            } else {
                (s, EffectView::Nothing)
            }
        },
        KeyCode::Up | KeyCode::Char('k') => if fi > 0 {
            (AppView { folder_index: (fi - 1) as usize, ..s }, EffectView::Nothing)
        } else if s.pins.len() > 0 {
            (
                AppView {
                    active_section: ActiveSection::Workspaces,
                    workspace_index: (s.pins.len() - 1) as usize,
                    ..s
                },
                EffectView::Nothing,
            )
        } else {
            (s, EffectView::Nothing)
        },
        KeyCode::Enter => match row {
            None => (s, EffectView::Nothing),
            Some(r) => if r.2 {
                match s.view_mode {
                    ViewMode::List => (enter_dir(s, r.1), EffectView::Reload),
                    ViewMode::Tree => (
                        AppView { expanded_paths: toggle_path(s.expanded_paths, r.1), ..s },
                        EffectView::Refresh,
                    ),
                }
            } else {
                (s, open_file(r.1, has_open_modifier(key), false, false))
            },
        },
        KeyCode::Right | KeyCode::Char('l') => match row {
            Some(r) => if r.2 {
                match s.view_mode {
                    ViewMode::List => (enter_dir(s, r.1), EffectView::Reload),
                    ViewMode::Tree => if !s.expanded_paths.contains(r.1) {
                        (
                            AppView { expanded_paths: s.expanded_paths.push(r.1), ..s },
                            EffectView::Refresh,
                        )
                    } else {
                        (s, EffectView::Nothing)
                    },
                }
            } else {
                (s, EffectView::Nothing)
            },
            None => (s, EffectView::Nothing),
        },
        KeyCode::Left | KeyCode::Char('h') => match s.view_mode {
            ViewMode::List => (s, EffectView::GoUp),
            ViewMode::Tree => if s.tree.len() == 0 {
                (s, EffectView::GoUp)
            } else {
                let n = s.tree[fi as int];
                if n.2 && s.expanded_paths.contains(n.1) {
                    (
                        AppView {
                            expanded_paths: without(s.expanded_paths, n.1),
                            ..s
                        },
                        EffectView::Refresh,
                    )
                } else if n.4 is Some && tree_position(s.tree, n.4->0) is Some {
                    (
                        AppView { folder_index: (tree_position(s.tree, n.4->0)->0) as usize, ..s },
                        EffectView::Nothing,
                    )
                } else {
                    (s, EffectView::GoUp)
                }
            },
        },
        KeyCode::Char(' ') => if s.view_mode == ViewMode::Tree && row is Some && (row->0).2 {
            (
                AppView { expanded_paths: toggle_path(s.expanded_paths, (row->0).1), ..s },
                EffectView::Refresh,
            )
        } else {
            (s, EffectView::Nothing)
        },
        KeyCode::Backspace | KeyCode::Char('u') => (s, EffectView::GoUp),
        KeyCode::Char('p') => {
            let (path, is_dir) = match row {
                Some(r) => (r.1, r.2),
                None => (s.current_dir, true),
            };
            (
                AppView { pins: crate::config::toggle_pin_spec(s.pins, path, is_dir), ..s },
                EffectView::SaveConfig,
            )
        },
        KeyCode::Char('e') => match current_file(s) {
            Some(p) => if !is_media(p) {
                (s, open_file(p, false, false, true))
            } else {
                (s, EffectView::Nothing)
            },
            None => (s, EffectView::Nothing),
        },
        KeyCode::Char('o') => match current_file(s) {
            Some(p) => (s, EffectView::OpenSystem { path: p }),
            None => (s, EffectView::Nothing),
        },
        KeyCode::Char('g') => match current_file(s) {
            Some(p) => (s, EffectView::OpenGui { path: p }),
            None => (s, EffectView::Nothing),
        },
        KeyCode::Char('f') => match current_file(s) {
            Some(p) => (s, open_file(p, true, true, false)),
            None => (s, EffectView::Nothing),
        },
        _ => (s, EffectView::Nothing),
    }
}

/// Closing the tab of `path`: the tab goes; if it was the open file, the
/// tab now at its place (or the new last tab) opens, or, with no tab left,
/// the viewer empties.
pub open spec fn close_step(s: AppView, path: Seq<char>) -> (AppView, EffectView) {
    match position_of(s.open_files, path, 0) {
        None => (s, EffectView::Nothing),
        Some(idx) => {
            let files = s.open_files.remove(idx);
            let t = AppView { open_files: files, ..s };
            if s.selected_file == Some(path) {
                if files.len() > 0 {
                    let next = if idx < files.len() - 1 {
                        idx
                    } else {
                        files.len() - 1
                    };
                    (t, open_file(files[next], false, false, false))
                } else {
                    (
                        AppView { selected_file: None, scroll_offset: 0, error: None, ..t },
                        EffectView::ClearViewer,
                    )
                }
            } else {
                (t, EffectView::Nothing)
            }
        },
    }
}

/// The keys of the viewer: `f` and Esc for the reading modes, the global
/// keys, then scrolling, editing, opening elsewhere and closing the tab.
pub open spec fn viewer_step(s: AppView, key: KeyEvent) -> (AppView, EffectView) {
    if s.fullscreen != FullscreenMode::Off && key.code == KeyCode::Char('f') {
        (AppView { fullscreen: next_mode(s.fullscreen), needs_clear: true, ..s }, EffectView::Nothing)
    } else if s.fullscreen != FullscreenMode::Off && key.code == KeyCode::Esc {
        (AppView { fullscreen: FullscreenMode::Off, needs_clear: true, ..s }, EffectView::Nothing)
    } else if s.fullscreen == FullscreenMode::Off && key.code == KeyCode::Char('f')
        && s.selected_file is Some {
        (AppView { fullscreen: FullscreenMode::Margins, needs_clear: true, ..s }, EffectView::Nothing)
    } else if global_step(s, key) is Some {
        global_step(s, key)->0
    } else {
        match key.code {
            KeyCode::Char('?') => (AppView { help_active: !s.help_active, ..s }, EffectView::Nothing),
            KeyCode::Down | KeyCode::Char('j') => (
                AppView { scroll_offset: sat_add(s.scroll_offset, 1), ..s },
                EffectView::Nothing,
            ),
            KeyCode::Up | KeyCode::Char('k') => (
                AppView { scroll_offset: sat_sub(s.scroll_offset as nat, 1), ..s },
                EffectView::Nothing,
            ),
            KeyCode::PageDown | KeyCode::Char(' ') => (
                AppView { scroll_offset: sat_add(s.scroll_offset, 15), ..s },
                EffectView::Nothing,
            ),
            KeyCode::PageUp | KeyCode::Backspace => (
                AppView { scroll_offset: sat_sub(s.scroll_offset as nat, 15), ..s },
                EffectView::Nothing,
            ),
            KeyCode::Char('e') => match s.selected_file {
                Some(p) => if !is_media(p) {
                    (s, EffectView::EditFile)
                } else {
                    (s, EffectView::Nothing)
                },
                None => (s, EffectView::Nothing),
            },
            KeyCode::Char('o') | KeyCode::Enter => match s.selected_file {
                Some(p) => (s, EffectView::OpenSystem { path: p }),
                None => (s, EffectView::Nothing),
            },
            KeyCode::Char('g') => match s.selected_file {
                Some(p) => (s, EffectView::OpenGui { path: p }),
                None => (s, EffectView::Nothing),
            },
            KeyCode::Char('w') | KeyCode::Char('c') => match s.selected_file {
                Some(p) => close_step(s, p),
                None => (s, EffectView::Nothing),
            },
            _ => (s, EffectView::Nothing),
        }
    }
}

/// The keys of the search prompt: Esc drops the query, Enter keeps it
/// (none if empty), Backspace and characters edit it as it is typed.
pub open spec fn search_input_step(s: AppView, key: KeyEvent) -> (AppView, EffectView) {
    match key.code {
        KeyCode::Esc => {
            let t = AppView { search_active: false, search_query: None, search_input: Seq::empty(), ..s };
            (AppView { folder_index: clamp_index(t.folder_index, folder_count(t)), ..t }, EffectView::Nothing)
        },
        KeyCode::Enter => (
            AppView {
                search_active: false,
                search_query: if s.search_input.len() > 0 {
                    Some(s.search_input)
                } else {
                    None
                },
                folder_index: 0,
                ..s
            },
            EffectView::Reclamp,
        ),
        KeyCode::Backspace => {
            let input = if s.search_input.len() > 0 {
                s.search_input.drop_last()
            } else {
                s.search_input
            };
            (
                AppView {
                    search_input: input,
                    search_query: if input.len() > 0 {
                        Some(input)
                    } else {
                        None
                    },
                    folder_index: 0,
                    ..s
                },
                EffectView::Reclamp,
            )
        },
        KeyCode::Char(c) => (
            AppView {
                search_input: s.search_input.push(c),
                search_query: Some(s.search_input.push(c)),
                folder_index: 0,
                ..s
            },
            EffectView::Reclamp,
        ),
        _ => (s, EffectView::Nothing),
    }
}

/// The keys of the new-file prompt: Esc cancels, Enter creates the file
/// named by the trimmed input (nothing if it is empty), Backspace and
/// characters edit the name.
pub open spec fn create_input_step(s: AppView, key: KeyEvent) -> (AppView, EffectView) {
    match key.code {
        KeyCode::Esc => (AppView { create_active: false, create_input: Seq::empty(), ..s }, EffectView::Nothing),
        KeyCode::Enter => {
            let name = trim(s.create_input);
            (
                AppView { create_active: false, create_input: Seq::empty(), ..s },
                if name.len() > 0 {
                    EffectView::CreateFile { name }
                } else {
                    EffectView::Nothing
                },
            )
        },
        KeyCode::Backspace => (
            AppView {
                create_input: if s.create_input.len() > 0 {
                    s.create_input.drop_last()
                } else {
                    s.create_input
                },
                ..s
            },
            EffectView::Nothing,
        ),
        KeyCode::Char(c) => (AppView { create_input: s.create_input.push(c), ..s }, EffectView::Nothing),
        _ => (s, EffectView::Nothing),
    }
}

/// A key reaches the focused pane's own handling.
pub open spec fn reaches_pane(s: AppView, key: KeyEvent) -> bool {
    &&& !s.editing
    &&& !s.create_active
    &&& !s.search_active
    &&& !s.gui_missing_active
    &&& !(s.help_active && key.code == KeyCode::Esc)
    &&& !(key.code == KeyCode::Char('q') && key.modifiers.control)
}

/// The pane keys that act on the row (or pin) under the cursor.
pub open spec fn acts_on_row(s: AppView, key: KeyEvent) -> bool {
    match s.active_section {
        ActiveSection::Workspaces => match key.code {
            KeyCode::Enter | KeyCode::Char('p') | KeyCode::Char('d') | KeyCode::Char('x') => true,
            _ => false,
        },
        ActiveSection::Folders => match key.code {
            KeyCode::Enter | KeyCode::Right | KeyCode::Char('l') | KeyCode::Char('p')
            | KeyCode::Char('e') | KeyCode::Char('o') | KeyCode::Char('g') | KeyCode::Char('f') => true,
            KeyCode::Left | KeyCode::Char('h') | KeyCode::Char(' ') => s.cached_search_results is None
                && s.view_mode == ViewMode::Tree,
            _ => false,
        },
        ActiveSection::Viewer => false,
    }
}

/// The cursor of the focused pane is on an existing row, or the pane is
/// empty.
pub open spec fn cursor_in_range(s: AppView) -> bool {
    match s.active_section {
        ActiveSection::Workspaces => s.pins.len() == 0 || s.workspace_index < s.pins.len(),
        ActiveSection::Folders => match s.cached_search_results {
            Some(r) => r.len() == 0 || s.folder_index < r.len(),
            None => match s.view_mode {
                ViewMode::List => s.entries.len() == 0 || s.folder_index < s.entries.len(),
                ViewMode::Tree => s.tree.len() == 0 || s.folder_index < s.tree.len(),
            },
        },
        ActiveSection::Viewer => true,
    }
}

/// What a key does to the browser: with an editor running, it goes to the
/// editor; else to the open prompt; else it dismisses an open notice; else
/// Ctrl-q quits; else the focused pane (after the global keys) handles it.
/// The status message is cleared first in every case.
pub open spec fn key_step(s0: AppView, key: KeyEvent) -> (AppView, EffectView) {
    let s = AppView { status_message: None, ..s0 };
    if s.editing {
        (
            s,
            if key.kind == crate::keys::KeyEventKind::Press && key_seq(key).len() > 0 {
                EffectView::PtyInput { bytes: key_seq(key) }
            } else {
                EffectView::Nothing
            },
        )
    } else if s.create_active {
        create_input_step(s, key)
    } else if s.search_active {
        search_input_step(s, key)
    } else if s.gui_missing_active {
        (AppView { gui_missing_active: false, ..s }, EffectView::Nothing)
    } else if s.help_active && key.code == KeyCode::Esc {
        (AppView { help_active: false, ..s }, EffectView::Nothing)
    } else if key.code == KeyCode::Char('q') && key.modifiers.control {
        (AppView { quit: true, ..s }, EffectView::Nothing)
    } else {
        match s.active_section {
            ActiveSection::Workspaces => if global_step(s, key) is Some {
                global_step(s, key)->0
            } else {
                workspaces_step(s, key)
            },
            ActiveSection::Folders => if global_step(s, key) is Some {
                global_step(s, key)->0
            } else {
                folders_key(s, key)
            },
            ActiveSection::Viewer => viewer_step(s, key),
        }
    }
}

/// The workspaces pane lists every pin once.
pub proof fn lemma_workspace_order_len(pins: Seq<(Seq<char>, bool)>)
    ensures
        workspace_order(pins).len() == pins.len(),
{
    crate::listing::lemma_stable_sort(
        pins.map_values(|p: (Seq<char>, bool)| (crate::config::pin_key(p), p)),
    );
}

impl AppState {
    fn start_search(&mut self)
        ensures
            final(self)@ == start_search(old(self)@),
    {
        self.search_active = true;
        self.search_input = String::new();
    }

    /// The keys of the workspaces pane, after the global keys (see
    /// `workspaces_step`).
    #[verifier::spinoff_prover]
    #[verifier::rlimit(60)]
    pub fn handle_key_workspaces(&mut self, key: KeyEvent) -> (r: Effect)
        requires
            acts_on_row(old(self)@, key) ==> cursor_in_range(old(self)@),
            old(self).active_section == ActiveSection::Workspaces,
        ensures
            (final(self)@, r@) == workspaces_step(old(self)@, key),
    {
        let ws = self.get_sorted_workspaces();
        proof {
            lemma_workspace_order_len(self@.pins);
        }
        let n = ws.len();
        if n == 0 {
            if key.code == KeyCode::Char('/') {
                self.start_search();
            }
            return Effect::Nothing;
        }
        let wi = self.workspace_index;
        match key.code {
            KeyCode::Char('/') => {
                self.start_search();
                Effect::Nothing
            },
            KeyCode::Down | KeyCode::Char('j') => {
                if wi < n - 1 {
                    self.workspace_index = wi + 1;
                } else {
                    let empty = match self.view_mode {
                        ViewMode::List => self.entries.len() == 0,
                        ViewMode::Tree => self.tree.len() == 0,
                    };
                    if !empty {
                        self.active_section = ActiveSection::Folders;
                        self.folder_index = 0;
                    }
                }
                Effect::Nothing
            },
            KeyCode::Up | KeyCode::Char('k') => {
                if wi > 0 {
                    self.workspace_index = wi - 1;
                }
                Effect::Nothing
            },
            KeyCode::Enter => {
                assert(pins_view(ws@)[wi as int] == ws@[wi as int]@);
                Effect::OpenPinned {
                    path: copy_string(&ws[wi].path),
                    is_dir: ws[wi].is_dir,
                    focus_viewer: key.modifiers.super_key || key.modifiers.alt || key.modifiers.meta,
                    missing_error: true,
                }
            },
            KeyCode::Char('p') | KeyCode::Char('d') | KeyCode::Char('x') => {
                assert(pins_view(ws@)[wi as int] == ws@[wi as int]@);
                let removed = copy_string(&ws[wi].path);
                self.config.unpin(removed.as_str());
                let ws2 = self.get_sorted_workspaces();
                proof {
                    lemma_workspace_order_len(self@.pins);
                }
                let n2 = ws2.len();
                if wi >= n2 {
                    self.workspace_index = if n2 > 0 {
                        n2 - 1
                    } else {
                        0
                    };
                }
                if n2 == 0 {
                    let empty = match self.view_mode {
                        ViewMode::List => self.entries.len() == 0,
                        ViewMode::Tree => self.tree.len() == 0,
                    };
                    if !empty {
                        self.active_section = ActiveSection::Folders;
                        self.folder_index = 0;
                    } else {
                        self.active_section = ActiveSection::Viewer;
                    }
                }
                Effect::SaveConfig
            },
            _ => Effect::Nothing,
        }
    }
}

impl AppState {
    fn cached_row(&self) -> (r: (usize, Option<FileEntry>))
        requires
            self.cached_search_results is Some,
        ensures
            r.0 == (self@.cached_search_results->0).len(),
            r.1 matches Some(e) ==> self.folder_index < r.0 && e@ == (self@.cached_search_results->0)[self.folder_index as int],
            r.1 is None ==> self.folder_index >= r.0,
    {
        match &self.cached_search_results {
            Some(res) => {
                if self.folder_index < res.len() {
                    assert(entries_view(res@)[self.folder_index as int] == res@[self.folder_index as int]@);
                    (res.len(), Some(res[self.folder_index].copy()))
                } else {
                    (res.len(), None)
                }
            },
            None => (0, None),
        }
    }

    #[verifier::spinoff_prover]
    #[verifier::rlimit(60)]
    fn handle_key_search_results(&mut self, key: KeyEvent) -> (r: Effect)
        requires
            old(self).cached_search_results is Some,
            acts_on_row(old(self)@, key) ==> cursor_in_range(old(self)@),
            old(self).active_section == ActiveSection::Folders,
        ensures
            (final(self)@, r@) == search_results_step(
                old(self)@,
                key,
                old(self)@.cached_search_results->0,
            ),
    {
        let (count, entry) = self.cached_row();
        let fi = self.folder_index;
        match key.code {
            KeyCode::Char('/') => {
                self.start_search();
                Effect::Nothing
            },
            KeyCode::Down | KeyCode::Char('j') => {
                let max = if count > 0 {
                    count - 1
                } else {
                    0
                };
                if fi < max {
                    self.folder_index = fi + 1;
                }
                Effect::Nothing
            },
            KeyCode::Up | KeyCode::Char('k') => {
                if fi > 0 {
                    self.folder_index = fi - 1;
                }
                Effect::Nothing
            },
            KeyCode::Enter | KeyCode::Right | KeyCode::Char('l') => match entry {
                None => Effect::Nothing,
                Some(e) => {
                    if e.is_dir {
                        self.current_dir = e.path;
                        self.search_query = None;
                        self.cached_search_results = None;
                        self.folder_index = 0;
                        Effect::Reload
                    } else {
                        Effect::SelectFile {
                            path: e.path,
                            focus_viewer: key.modifiers.super_key || key.modifiers.alt
                                || key.modifiers.meta,
                            fullscreen: false,
                            edit: false,
                        }
                    }
                },
            },
            KeyCode::Left | KeyCode::Char('h') | KeyCode::Backspace | KeyCode::Char('u') => {
                self.search_query = None;
                Effect::GoUp
            },
            KeyCode::Char('p') => match entry {
                None => Effect::Nothing,
                Some(e) => {
                    self.config.toggle_pin(e.path.as_str(), e.is_dir);
                    Effect::SaveConfig
                },
            },
            KeyCode::Char('e') => match entry {
                Some(e) => {
                    if !e.is_dir && !crate::files::is_media_file(e.path.as_str()) {
                        Effect::SelectFile { path: e.path, focus_viewer: false, fullscreen: false, edit: true }
                    } else {
                        Effect::Nothing
                    }
                },
                None => Effect::Nothing,
            },
            KeyCode::Char('o') => match entry {
                Some(e) => if !e.is_dir {
                    Effect::OpenSystem { path: e.path }
                } else {
                    Effect::Nothing
                },
                None => Effect::Nothing,
            },
            KeyCode::Char('g') => match entry {
                Some(e) => if !e.is_dir {
                    Effect::OpenGui { path: e.path }
                } else {
                    Effect::Nothing
                },
                None => Effect::Nothing,
            },
            KeyCode::Char('f') => match entry {
                Some(e) => if !e.is_dir {
                    Effect::SelectFile { path: e.path, focus_viewer: true, fullscreen: true, edit: false }
                } else {
                    Effect::Nothing
                },
                None => Effect::Nothing,
            },
            _ => Effect::Nothing,
        }
    }
}

/// `v` without the strings equal to `p`.
pub fn remove_string(v: Vec<String>, p: &str) -> (r: Vec<String>)
    ensures
        strings_view(r@) == without(strings_view(v@), p@),
{
    let ghost orig = strings_view(v@);
    let mut rest = v;
    let mut kept: Vec<String> = Vec::new();
    let total = rest.len();
    let mut i: usize = 0;
    while rest.len() > 0
        invariant
            total == orig.len(),
            i + rest@.len() == orig.len(),
            strings_view(rest@) =~= orig.skip(i as int),
            strings_view(kept@) =~= orig.take(i as int).filter(|x: Seq<char>| x != p@),
        decreases rest@.len(),
    {
        let ghost before_rest = strings_view(rest@);
        let x = rest.remove(0);
        assert(x@ == before_rest[0]);
        assert(strings_view(rest@) =~= before_rest.drop_first());
        let ghost prev = orig.take(i as int);
        i = i + 1;
        proof {
            broadcast use Seq::lemma_filter_push;

            assert(orig.take(i as int) =~= prev.push(x@));
        }
        let ghost kept_before = strings_view(kept@);
        if !str_eq(x.as_str(), p) {
            kept.push(x);
            assert(strings_view(kept@) =~= kept_before.push(orig[i - 1]));
        }
    }
    assert(orig.take(i as int) =~= orig);
    kept
}

impl AppState {
    /// Opens or closes the folder `path` in tree view (see `toggle_path`).
    pub fn toggle_expand(&mut self, path: &str)
        ensures
            final(self)@ == (AppView {
                expanded_paths: toggle_path(old(self)@.expanded_paths, path@),
                ..old(self)@
            }),
    {
        if self.is_expanded(path) {
            self.collapse(path);
        } else {
            self.expand(path);
        }
    }

    fn collapse(&mut self, path: &str)
        ensures
            final(self)@ == (AppView {
                expanded_paths: without(old(self)@.expanded_paths, path@),
                ..old(self)@
            }),
    {
        let mut v: Vec<String> = Vec::new();
        std::mem::swap(&mut v, &mut self.expanded_paths);
        self.expanded_paths = remove_string(v, path);
    }

    fn expand(&mut self, path: &str)
        ensures
            final(self)@ == (AppView {
                expanded_paths: old(self)@.expanded_paths.push(path@),
                ..old(self)@
            }),
    {
        let ghost before = strings_view(self.expanded_paths@);
        self.expanded_paths.push(owned(path));
        assert(strings_view(self.expanded_paths@) =~= before.push(path@));
    }

    fn current_row(&self) -> (r: Option<(String, String, bool)>)
        requires
            cursor_in_range(self@),
            self.active_section == ActiveSection::Folders,
            self.cached_search_results is None,
        ensures
            match r {
                Some(x) => current_row(self@) == Some((x.0@, x.1@, x.2)),
                None => current_row(self@) is None,
            },
    {
        match self.view_mode {
            ViewMode::List => if self.entries.len() > 0 {
                let e = &self.entries[self.folder_index];
                assert(entries_view(self.entries@)[self.folder_index as int] == e@);
                Some((copy_string(&e.name), copy_string(&e.path), e.is_dir))
            } else {
                None
            },
            ViewMode::Tree => if self.tree.len() > 0 {
                let n = &self.tree[self.folder_index];
                assert(tree_view(self.tree@)[self.folder_index as int] == n@);
                Some((copy_string(&n.name), copy_string(&n.path), n.is_dir))
            } else {
                None
            },
        }
    }

    fn tree_position(&self, p: &str) -> (r: Option<usize>)
        ensures
            match r {
                Some(i) => tree_position(self@.tree, p@) == Some(i as int),
                None => tree_position(self@.tree, p@) is None,
            },
    {
        let ghost paths = self@.tree.map_values(
            |n: (Seq<char>, Seq<char>, bool, usize, Option<Seq<char>>)| n.1,
        );
        let mut i: usize = 0;
        while i < self.tree.len()
            invariant
                0 <= i <= self.tree@.len(),
                paths.len() == self.tree@.len(),
                paths == self@.tree.map_values(
                    |n: (Seq<char>, Seq<char>, bool, usize, Option<Seq<char>>)| n.1,
                ),
                position_of(paths, p@, 0) == position_of(paths, p@, i as int),
            decreases self.tree@.len() - i,
        {
            assert(paths[i as int] == self.tree@[i as int].path@);
            if str_eq(self.tree[i].path.as_str(), p) {
                return Some(i);
            }
            i = i + 1;
        }
        None
    }
}

/// The folders-pane keys that move the cursor or open the search prompt.
pub open spec fn is_nav_key(code: KeyCode) -> bool {
    match code {
        KeyCode::Char('/') | KeyCode::Char('v') | KeyCode::Down | KeyCode::Char('j') | KeyCode::Up
        | KeyCode::Char('k') | KeyCode::Backspace | KeyCode::Char('u') => true,
        _ => false,
    }
}

/// The folders-pane keys that enter, expand or collapse.
pub open spec fn is_open_key(code: KeyCode) -> bool {
    match code {
        KeyCode::Enter | KeyCode::Right | KeyCode::Char('l') | KeyCode::Left | KeyCode::Char('h')
        | KeyCode::Char(' ') => true,
        _ => false,
    }
}

impl AppState {
    #[verifier::spinoff_prover]
    #[verifier::rlimit(60)]
    fn folders_nav(&mut self, key: KeyEvent) -> (r: Effect)
        requires
            is_nav_key(key.code),
            old(self).cached_search_results is None,
        ensures
            (final(self)@, r@) == folders_step(old(self)@, key),
    {
        let fi = self.folder_index;
        match key.code {
            KeyCode::Char('/') => {
                self.start_search();
                Effect::Nothing
            },
            KeyCode::Char('v') => Effect::SwitchViewMode { focused: self.focused_path() },
            KeyCode::Down | KeyCode::Char('j') => {
                let count = match self.view_mode {
                    ViewMode::List => self.entries.len(),
                    ViewMode::Tree => self.tree.len(),
                };
                let max = if count > 0 {
                    count - 1
                } else {
                    0
                };
                if fi < max {
                    self.folder_index = fi + 1;
                }
                Effect::Nothing
            },
            KeyCode::Up | KeyCode::Char('k') => {
                if fi > 0 {
                    self.folder_index = fi - 1;
                } else if self.config.pinned_workspaces.len() > 0 {
                    self.active_section = ActiveSection::Workspaces;
                    self.workspace_index = self.config.pinned_workspaces.len() - 1;
                }
                Effect::Nothing
            },
            _ => Effect::GoUp,
        }
    }

    #[verifier::spinoff_prover]
    #[verifier::rlimit(80)]
    fn folders_open(&mut self, key: KeyEvent) -> (r: Effect)
        requires
            is_open_key(key.code),
            old(self).cached_search_results is None,
            old(self).active_section == ActiveSection::Folders,
            acts_on_row(old(self)@, key) ==> cursor_in_range(old(self)@),
        ensures
            (final(self)@, r@) == folders_step(old(self)@, key),
    {
        let tree_mode = self.view_mode == ViewMode::Tree;
        match key.code {
            KeyCode::Enter => match self.current_row() {
                None => Effect::Nothing,
                Some((_name, path, is_dir)) => {
                    if is_dir {
                        if tree_mode {
                            self.toggle_expand(path.as_str());
                            Effect::Refresh
                        } else {
                            self.current_dir = path;
                            self.folder_index = 0;
                            Effect::Reload
                        }
                    } else {
                        Effect::SelectFile {
                            path,
                            focus_viewer: key.modifiers.super_key || key.modifiers.alt
                                || key.modifiers.meta,
                            fullscreen: false,
                            edit: false,
                        }
                    }
                },
            },
            KeyCode::Right | KeyCode::Char('l') => match self.current_row() {
                Some((_name, path, is_dir)) => {
                    if is_dir {
                        if tree_mode {
                            if !self.is_expanded(path.as_str()) {
                                self.expand(path.as_str());
                                Effect::Refresh
                            } else {
                                Effect::Nothing
                            }
                        } else {
                            self.current_dir = path;
                            self.folder_index = 0;
                            Effect::Reload
                        }
                    } else {
                        Effect::Nothing
                    }
                },
                None => Effect::Nothing,
            },
            KeyCode::Left | KeyCode::Char('h') => {
                if !tree_mode || self.tree.len() == 0 {
                    Effect::GoUp
                } else {
                    let n = self.tree[self.folder_index].copy();
                    assert(tree_view(self.tree@)[self.folder_index as int] == n@);
                    if n.is_dir && self.is_expanded(n.path.as_str()) {
                        self.collapse(n.path.as_str());
                        Effect::Refresh
                    } else {
                        match n.parent_path {
                            Some(pp) => match self.tree_position(pp.as_str()) {
                                Some(i) => {
                                    self.folder_index = i;
                                    Effect::Nothing
                                },
                                None => Effect::GoUp,
                            },
                            None => Effect::GoUp,
                        }
                    }
                }
            },
            _ => {
                if tree_mode {
                    match self.current_row() {
                        Some((_name, path, is_dir)) => {
                            if is_dir {
                                self.toggle_expand(path.as_str());
                                Effect::Refresh
                            } else {
                                Effect::Nothing
                            }
                        },
                        None => Effect::Nothing,
                    }
                } else {
                    Effect::Nothing
                }
            },
        }
    }

    #[verifier::spinoff_prover]
    #[verifier::rlimit(80)]
    fn folders_actions(&mut self, key: KeyEvent) -> (r: Effect)
        requires
            !is_nav_key(key.code),
            !is_open_key(key.code),
            old(self).cached_search_results is None,
            old(self).active_section == ActiveSection::Folders,
            acts_on_row(old(self)@, key) ==> cursor_in_range(old(self)@),
        ensures
            (final(self)@, r@) == folders_step(old(self)@, key),
    {
        match key.code {
            KeyCode::Char('p') => {
                let (path, is_dir) = match self.current_row() {
                    Some((_name, path, is_dir)) => (path, is_dir),
                    None => (copy_string(&self.current_dir), true),
                };
                self.config.toggle_pin(path.as_str(), is_dir);
                Effect::SaveConfig
            },
            KeyCode::Char('e') | KeyCode::Char('o') | KeyCode::Char('g') | KeyCode::Char('f') => {
                let file = match self.current_row() {
                    Some((_name, path, is_dir)) => if !is_dir {
                        Some(path)
                    } else {
                        None
                    },
                    None => None,
                };
                match file {
                    None => Effect::Nothing,
                    Some(p) => match key.code {
                        KeyCode::Char('e') => if !crate::files::is_media_file(p.as_str()) {
                            Effect::SelectFile { path: p, focus_viewer: false, fullscreen: false, edit: true }
                        } else {
                            Effect::Nothing
                        },
                        KeyCode::Char('o') => Effect::OpenSystem { path: p },
                        KeyCode::Char('g') => Effect::OpenGui { path: p },
                        _ => Effect::SelectFile { path: p, focus_viewer: true, fullscreen: true, edit: false },
                    },
                }
            },
            _ => Effect::Nothing,
        }
    }

    /// The keys of the folders pane, after the global keys: the search results
    /// while they are shown (`search_results_step`), else the listing or tree
    /// (`folders_step`).
    pub fn handle_key_folders(&mut self, key: KeyEvent) -> (r: Effect)
        requires
            old(self).active_section == ActiveSection::Folders,
            acts_on_row(old(self)@, key) ==> cursor_in_range(old(self)@),
        ensures
            (final(self)@, r@) == folders_key(old(self)@, key),
    {
        if self.cached_search_results.is_some() {
            self.handle_key_search_results(key)
        } else if is_nav_key_exec(key.code) {
            self.folders_nav(key)
        } else if is_open_key_exec(key.code) {
            self.folders_open(key)
        } else {
            self.folders_actions(key)
        }
    }
}

fn is_nav_key_exec(code: KeyCode) -> (r: bool)
    ensures
        r == is_nav_key(code),
{
    match code {
        KeyCode::Char('/') | KeyCode::Char('v') | KeyCode::Down | KeyCode::Char('j') | KeyCode::Up
        | KeyCode::Char('k') | KeyCode::Backspace | KeyCode::Char('u') => true,
        _ => false,
    }
}

fn is_open_key_exec(code: KeyCode) -> (r: bool)
    ensures
        r == is_open_key(code),
{
    match code {
        KeyCode::Enter | KeyCode::Right | KeyCode::Char('l') | KeyCode::Left | KeyCode::Char('h')
        | KeyCode::Char(' ') => true,
        _ => false,
    }
}

impl AppState {
    /// Closes the tab of `path` (see `close_step`).
    #[verifier::spinoff_prover]
    #[verifier::rlimit(60)]
    pub fn close_file(&mut self, path: &str) -> (r: Effect)
        ensures
            (final(self)@, r@) == close_step(old(self)@, path@),
    {
        proof {
            lemma_position_of(strings_view(self.open_files@), path@, 0);
        }
        match find_string(&self.open_files, path) {
            None => Effect::Nothing,
            Some(idx) => {
                let ghost before = strings_view(self.open_files@);
                let _gone = self.open_files.remove(idx);
                assert(strings_view(self.open_files@) =~= before.remove(idx as int));
                let was_selected = match &self.selected_file {
                    Some(cur) => str_eq(cur.as_str(), path),
                    None => false,
                };
                if was_selected {
                    let n = self.open_files.len();
                    if n > 0 {
                        let next = if idx < n - 1 {
                            idx
                        } else {
                            n - 1
                        };
                        assert(strings_view(self.open_files@)[next as int] == self.open_files@[next as int]@);
                        Effect::SelectFile {
                            path: copy_string(&self.open_files[next]),
                            focus_viewer: false,
                            fullscreen: false,
                            edit: false,
                        }
                    } else {
                        self.selected_file = None;
                        self.scroll_offset = 0;
                        self.error = None;
                        Effect::ClearViewer
                    }
                } else {
                    Effect::Nothing
                }
            },
        }
    }

    #[verifier::spinoff_prover]
    #[verifier::rlimit(80)]
    fn viewer_keys(&mut self, key: KeyEvent) -> (r: Effect)
        requires
            !(old(self).fullscreen != FullscreenMode::Off && (key.code == KeyCode::Char('f')
                || key.code == KeyCode::Esc)),
            !(old(self).fullscreen == FullscreenMode::Off && key.code == KeyCode::Char('f')
                && old(self).selected_file is Some),
        ensures
            global_step(old(self)@, key) is None ==> (final(self)@, r@) == viewer_step(old(self)@, key),
    {
        match key.code {
            KeyCode::Char('?') => {
                self.help_active = !self.help_active;
                Effect::Nothing
            },
            KeyCode::Down | KeyCode::Char('j') => {
                self.scroll_offset = self.scroll_offset.saturating_add(1);
                Effect::Nothing
            },
            KeyCode::Up | KeyCode::Char('k') => {
                self.scroll_offset = self.scroll_offset.saturating_sub(1);
                Effect::Nothing
            },
            KeyCode::PageDown | KeyCode::Char(' ') => {
                self.scroll_offset = self.scroll_offset.saturating_add(15);
                Effect::Nothing
            },
            KeyCode::PageUp | KeyCode::Backspace => {
                self.scroll_offset = self.scroll_offset.saturating_sub(15);
                Effect::Nothing
            },
            KeyCode::Char('e') => match &self.selected_file {
                Some(p) => if !crate::files::is_media_file(p.as_str()) {
                    Effect::EditFile
                } else {
                    Effect::Nothing
                },
                None => Effect::Nothing,
            },
            KeyCode::Char('o') | KeyCode::Enter => match &self.selected_file {
                Some(p) => Effect::OpenSystem { path: copy_string(p) },
                None => Effect::Nothing,
            },
            KeyCode::Char('g') => match &self.selected_file {
                Some(p) => Effect::OpenGui { path: copy_string(p) },
                None => Effect::Nothing,
            },
            KeyCode::Char('w') | KeyCode::Char('c') => match &self.selected_file {
                Some(p) => {
                    let path = copy_string(p);
                    self.close_file(path.as_str())
                },
                None => Effect::Nothing,
            },
            _ => Effect::Nothing,
        }
    }

    /// The keys of the viewer, the global keys among them (see
    /// `viewer_step`).
    pub fn handle_key_viewer(&mut self, key: KeyEvent) -> (r: Effect)
        ensures
            (final(self)@, r@) == viewer_step(old(self)@, key),
    {
        if self.fullscreen != FullscreenMode::Off {
            match key.code {
                KeyCode::Char('f') => {
                    self.fullscreen = self.fullscreen.next();
                    self.needs_clear = true;
                    return Effect::Nothing;
                },
                KeyCode::Esc => {
                    self.fullscreen = FullscreenMode::Off;
                    self.needs_clear = true;
                    return Effect::Nothing;
                },
                _ => {},
            }
        } else if key.code == KeyCode::Char('f') && self.selected_file.is_some() {
            self.fullscreen = FullscreenMode::Margins;
            self.needs_clear = true;
            return Effect::Nothing;
        }
        if let Some(e) = self.handle_global_keys(key) {
            return e;
        }
        self.viewer_keys(key)
    }

    /// The keys of the search prompt (see `search_input_step`).
    #[verifier::spinoff_prover]
    #[verifier::rlimit(60)]
    pub fn handle_key_search_input(&mut self, key: KeyEvent) -> (r: Effect)
        ensures
            (final(self)@, r@) == search_input_step(old(self)@, key),
    {
        match key.code {
            KeyCode::Esc => {
                self.search_active = false;
                self.search_query = None;
                self.search_input = String::new();
                self.clamp_folder_index();
                Effect::Nothing
            },
            KeyCode::Enter => {
                self.search_active = false;
                let has_input = str_to_chars(self.search_input.as_str()).len() > 0;
                self.search_query = if has_input {
                    Some(copy_string(&self.search_input))
                } else {
                    None
                };
                self.folder_index = 0;
                Effect::Reclamp
            },
            KeyCode::Backspace => {
                let input = pop_char(&self.search_input);
                let has_input = str_to_chars(input.as_str()).len() > 0;
                self.search_query = if has_input {
                    Some(copy_string(&input))
                } else {
                    None
                };
                self.search_input = input;
                self.folder_index = 0;
                Effect::Reclamp
            },
            KeyCode::Char(c) => {
                push_char(&mut self.search_input, c);
                self.search_query = Some(copy_string(&self.search_input));
                self.folder_index = 0;
                Effect::Reclamp
            },
            _ => Effect::Nothing,
        }
    }

    /// The keys of the new-file prompt (see `create_input_step`).
    #[verifier::spinoff_prover]
    #[verifier::rlimit(60)]
    pub fn handle_key_create_input(&mut self, key: KeyEvent) -> (r: Effect)
        ensures
            (final(self)@, r@) == create_input_step(old(self)@, key),
    {
        match key.code {
            KeyCode::Esc => {
                self.create_active = false;
                self.create_input = String::new();
                Effect::Nothing
            },
            KeyCode::Enter => {
                let raw = str_to_chars(self.create_input.as_str());
                let name = trim_chars(&raw);
                self.create_active = false;
                self.create_input = String::new();
                if name.len() > 0 {
                    let n = chars_to_string(&name, 0, name.len());
                    assert(name@.subrange(0, name@.len() as int) =~= name@);
                    Effect::CreateFile { name: n }
                } else {
                    Effect::Nothing
                }
            },
            KeyCode::Backspace => {
                self.create_input = pop_char(&self.create_input);
                Effect::Nothing
            },
            KeyCode::Char(c) => {
                push_char(&mut self.create_input, c);
                Effect::Nothing
            },
            _ => Effect::Nothing,
        }
    }

    /// What a key does (see `key_step`). A pane key that acts on the row or
    /// pin under the cursor needs the cursor on one.
    #[verifier::spinoff_prover]
    #[verifier::rlimit(60)]
    pub fn handle_key(&mut self, key: KeyEvent) -> (r: Effect)
        requires
            reaches_pane(old(self)@, key) && acts_on_row(old(self)@, key) ==> cursor_in_range(old(self)@),
        ensures
            (final(self)@, r@) == key_step(old(self)@, key),
    {
        self.status_message = None;
        if self.editing {
            if key.kind != crate::keys::KeyEventKind::Press {
                return Effect::Nothing;
            }
            let bytes = pty_input_bytes(key);
            if bytes.len() == 0 {
                return Effect::Nothing;
            }
            return Effect::PtyInput { bytes };
        }
        if self.create_active {
            return self.handle_key_create_input(key);
        }
        if self.search_active {
            return self.handle_key_search_input(key);
        }
        if self.gui_missing_active {
            self.gui_missing_active = false;
            return Effect::Nothing;
        }
        if self.help_active && key.code == KeyCode::Esc {
            self.help_active = false;
            return Effect::Nothing;
        }
        if key.code == KeyCode::Char('q') && key.modifiers.control {
            self.quit = true;
            return Effect::Nothing;
        }
        match self.active_section {
            ActiveSection::Workspaces => {
                if let Some(e) = self.handle_global_keys(key) {
                    return e;
                }
                self.handle_key_workspaces(key)
            },
            ActiveSection::Folders => {
                if let Some(e) = self.handle_global_keys(key) {
                    return e;
                }
                self.handle_key_folders(key)
            },
            ActiveSection::Viewer => self.handle_key_viewer(key),
        }
    }
}

impl AppState {
    /// Whether `handle_key` may be called with `key`: a pane key that acts on
    /// the row or pin under the cursor needs the cursor on one (see
    /// `cursor_in_range`).
    pub fn key_allowed(&self, key: KeyEvent) -> (r: bool)
        ensures
            r == (reaches_pane(self@, key) && acts_on_row(self@, key) ==> cursor_in_range(self@)),
    {
        let reaches = !self.editing && !self.create_active && !self.search_active && !self.gui_missing_active
            && !(self.help_active && key.code == KeyCode::Esc)
            && !(key.code == KeyCode::Char('q') && key.modifiers.control);
        let acts = match self.active_section {
            ActiveSection::Workspaces => match key.code {
                KeyCode::Enter | KeyCode::Char('p') | KeyCode::Char('d') | KeyCode::Char('x') => true,
                _ => false,
            },
            ActiveSection::Folders => match key.code {
                KeyCode::Enter | KeyCode::Right | KeyCode::Char('l') | KeyCode::Char('p') | KeyCode::Char('e')
                | KeyCode::Char('o') | KeyCode::Char('g') | KeyCode::Char('f') => true,
                KeyCode::Left | KeyCode::Char('h') | KeyCode::Char(' ') => self.cached_search_results.is_none()
                    && self.view_mode == ViewMode::Tree,
                _ => false,
            },
            ActiveSection::Viewer => false,
        };
        let in_range = match self.active_section {
            ActiveSection::Workspaces => {
                let n = self.config.pinned_workspaces.len();
                n == 0 || self.workspace_index < n
            },
            ActiveSection::Folders => match &self.cached_search_results {
                Some(r) => r.len() == 0 || self.folder_index < r.len(),
                None => match self.view_mode {
                    ViewMode::List => self.entries.len() == 0 || self.folder_index < self.entries.len(),
                    ViewMode::Tree => self.tree.len() == 0 || self.folder_index < self.tree.len(),
                },
            },
            ActiveSection::Viewer => true,
        };
        !(reaches && acts) || in_range
    }
}

/// `a` followed by `b`.
pub fn concat(a: &str, b: &str) -> (r: String)
    ensures
        r@ == a@ + b@,
{
    let mut out = owned(a);
    let v = str_to_chars(b);
    let mut i: usize = 0;
    while i < v.len()
        invariant
            0 <= i <= v@.len(),
            out@ == a@ + v@.take(i as int),
        decreases v@.len() - i,
    {
        push_char(&mut out, v[i]);
        assert(v@.take(i + 1) =~= v@.take(i as int).push(v@[i as int]));
        assert(a@ + v@.take(i + 1) =~= (a@ + v@.take(i as int)).push(v@[i as int]));
        i = i + 1;
    }
    assert(v@.take(i as int) =~= b@);
    out
}

/// The first listing entry that is a folder named `name`.
pub open spec fn dir_named(
    entries: Seq<(Seq<char>, Seq<char>, bool)>,
    name: Seq<char>,
    i: int,
) -> Option<int>
    decreases entries.len() - i,
{
    if i < 0 || i >= entries.len() {
        None
    } else if entries[i].2 && entries[i].0 == name {
        Some(i)
    } else {
        dir_named(entries, name, i + 1)
    }
}

/// Where the cursor goes after moving up from the folder `old_dir` (last
/// component `old_name`): onto that folder's row, else the first row.
pub open spec fn position_after_up(s: AppView, old_dir: Seq<char>, old_name: Option<Seq<char>>) -> usize {
    match s.view_mode {
        ViewMode::List => match old_name {
            Some(n) => match dir_named(s.entries, n, 0) {
                Some(i) => i as usize,
                None => 0,
            },
            None => 0,
        },
        ViewMode::Tree => match tree_position(s.tree, old_dir) {
            Some(i) => i as usize,
            None => 0,
        },
    }
}

/// The paths of a list of entries.
pub open spec fn entry_paths(entries: Seq<(Seq<char>, Seq<char>, bool)>) -> Seq<Seq<char>> {
    entries.map_values(|e: (Seq<char>, Seq<char>, bool)| e.1)
}

/// The row of `path` in the folders pane, if it is shown.
pub open spec fn row_of(s: AppView, path: Seq<char>) -> Option<int> {
    match s.view_mode {
        ViewMode::List => position_of(entry_paths(s.entries), path, 0),
        ViewMode::Tree => tree_position(s.tree, path),
    }
}

/// `paths` with `p` added unless it is there already.
pub open spec fn insert_path(paths: Seq<Seq<char>>, p: Seq<char>) -> Seq<Seq<char>> {
    if paths.contains(p) {
        paths
    } else {
        paths.push(p)
    }
}

/// `paths` with each of `ps` added in turn (see `insert_path`).
pub open spec fn insert_paths(paths: Seq<Seq<char>>, ps: Seq<Seq<char>>) -> Seq<Seq<char>>
    decreases ps.len(),
{
    if ps.len() == 0 {
        paths
    } else {
        insert_path(insert_paths(paths, ps.drop_last()), ps.last())
    }
}

impl AppState {
    /// Takes in the listing of `current_dir`: on success the entries, the
    /// cursor kept on a row and no error; on failure no entries, the cursor
    /// at the top and the error `Error reading folder: ` with the reason.
    pub fn reload_directory(&mut self, listing: Result<Vec<FileEntry>, String>)
        ensures
            final(self)@ == match listing {
                Ok(v) => AppView {
                    entries: entries_view(v@),
                    folder_index: clamp_index(old(self).folder_index, v@.len()),
                    error: None,
                    ..old(self)@
                },
                Err(m) => AppView {
                    entries: Seq::empty(),
                    folder_index: 0,
                    error: Some("Error reading folder: "@ + m@),
                    ..old(self)@
                },
            },
    {
        match listing {
            Ok(v) => {
                let n = v.len();
                self.entries = v;
                if n == 0 {
                    self.folder_index = 0;
                } else if self.folder_index >= n {
                    self.folder_index = n - 1;
                }
                self.error = None;
            },
            Err(m) => {
                self.entries = Vec::new();
                assert(entries_view(self.entries@) =~= Seq::empty());
                self.folder_index = 0;
                self.error = Some(concat("Error reading folder: ", m.as_str()));
            },
        }
    }

    /// Takes in the tree rows as read for `current_dir` and `expanded_paths`.
    pub fn set_tree(&mut self, tree: Vec<TuiTreeNode>)
        ensures
            final(self)@ == (AppView { tree: tree_view(tree@), ..old(self)@ }),
    {
        self.tree = tree;
    }

    /// Takes in the entries under `current_dir` that match the query.
    pub fn set_search_results(&mut self, results: Vec<FileEntry>)
        ensures
            final(self)@ == (AppView { search_results: entries_view(results@), ..old(self)@ }),
    {
        self.search_results = results;
    }

    /// While a query is set, keeps its current results for the folders pane.
    pub fn cache_search_results(&mut self)
        ensures
            final(self)@ == if old(self).search_query is Some {
                AppView {
                    cached_search_results: Some(old(self)@.search_results),
                    ..old(self)@
                }
            } else {
                old(self)@
            },
    {
        if self.search_query.is_some() {
            self.cached_search_results = Some(copy_entries(&self.search_results));
        }
    }

    /// Moves to the pinned folder `path`: folders pane focused on its first
    /// row, and in tree view every folder collapsed.
    pub fn open_pinned_dir(&mut self, path: String)
        ensures
            final(self)@ == (AppView {
                current_dir: path@,
                active_section: ActiveSection::Folders,
                folder_index: 0,
                expanded_paths: if old(self).view_mode == ViewMode::Tree {
                    Seq::empty()
                } else {
                    old(self)@.expanded_paths
                },
                ..old(self)@
            }),
    {
        self.current_dir = path;
        self.active_section = ActiveSection::Folders;
        self.folder_index = 0;
        if self.view_mode == ViewMode::Tree {
            self.expanded_paths = Vec::new();
            assert(strings_view(self.expanded_paths@) =~= Seq::empty());
        }
    }

    /// Enters the folder `path` before the view mode switches: every folder
    /// collapsed, the cursor on the first row.
    pub fn enter_folder(&mut self, path: String)
        ensures
            final(self)@ == (AppView {
                current_dir: path@,
                expanded_paths: Seq::empty(),
                folder_index: 0,
                ..old(self)@
            }),
    {
        self.current_dir = path;
        self.expanded_paths = Vec::new();
        assert(strings_view(self.expanded_paths@) =~= Seq::empty());
        self.folder_index = 0;
    }

    /// Switches between list and tree view; the setting follows.
    pub fn switch_view_mode(&mut self)
        ensures
            final(self)@ == (AppView {
                view_mode: match old(self).view_mode {
                    ViewMode::List => ViewMode::Tree,
                    ViewMode::Tree => ViewMode::List,
                },
                saved_view_mode: match old(self).view_mode {
                    ViewMode::List => ViewMode::Tree,
                    ViewMode::Tree => ViewMode::List,
                },
                ..old(self)@
            }),
    {
        self.view_mode = match self.view_mode {
            ViewMode::List => ViewMode::Tree,
            ViewMode::Tree => ViewMode::List,
        };
        self.config.view_mode = self.view_mode;
    }

    /// Makes `dir` the current folder.
    pub fn set_current_dir(&mut self, dir: String)
        ensures
            final(self)@ == (AppView { current_dir: dir@, ..old(self)@ }),
    {
        self.current_dir = dir;
    }

    /// After moving up from `old_dir`, puts the cursor on it (see
    /// `position_after_up`).
    pub fn position_after_up(&mut self, old_dir: &str, old_name: Option<&str>)
        ensures
            final(self)@ == (AppView {
                folder_index: position_after_up(
                    old(self)@,
                    old_dir@,
                    match old_name {
                        Some(n) => Some(n@),
                        None => None,
                    },
                ),
                ..old(self)@
            }),
    {
        match self.view_mode {
            ViewMode::List => {
                self.folder_index = match old_name {
                    Some(name) => match self.dir_named(name) {
                        Some(i) => i,
                        None => 0,
                    },
                    None => 0,
                };
            },
            ViewMode::Tree => {
                self.folder_index = match self.tree_position(old_dir) {
                    Some(i) => i,
                    None => 0,
                };
            },
        }
    }

    fn dir_named(&self, name: &str) -> (r: Option<usize>)
        ensures
            match r {
                Some(i) => dir_named(self@.entries, name@, 0) == Some(i as int),
                None => dir_named(self@.entries, name@, 0) is None,
            },
    {
        let ghost es = self@.entries;
        let mut i: usize = 0;
        while i < self.entries.len()
            invariant
                0 <= i <= es.len(),
                es == entries_view(self.entries@),
                dir_named(es, name@, 0) == dir_named(es, name@, i as int),
            decreases es.len() - i,
        {
            assert(es[i as int] == self.entries@[i as int]@);
            if self.entries[i].is_dir && str_eq(self.entries[i].name.as_str(), name) {
                return Some(i);
            }
            i = i + 1;
        }
        None
    }

    /// Adds `path` to the open tabs unless it is open already.
    pub fn add_open_file(&mut self, path: &str)
        ensures
            final(self)@ == (AppView {
                open_files: insert_path(old(self)@.open_files, path@),
                ..old(self)@
            }),
    {
        proof {
            lemma_position_of(strings_view(self.open_files@), path@, 0);
        }
        if find_string(&self.open_files, path).is_none() {
            let ghost before = strings_view(self.open_files@);
            self.open_files.push(owned(path));
            assert(strings_view(self.open_files@) =~= before.push(path@));
        } else {
            assert(strings_view(self.open_files@).contains(path@));
        }
    }

    /// Expands each folder of `paths` that is not expanded yet.
    pub fn expand_paths(&mut self, paths: &Vec<String>)
        ensures
            final(self)@ == (AppView {
                expanded_paths: insert_paths(old(self)@.expanded_paths, strings_view(paths@)),
                ..old(self)@
            }),
    {
        let ghost ps = strings_view(paths@);
        let ghost start = self@;
        let mut i: usize = 0;
        while i < paths.len()
            invariant
                0 <= i <= paths@.len(),
                ps == strings_view(paths@),
                self@ == (AppView {
                    expanded_paths: insert_paths(start.expanded_paths, ps.take(i as int)),
                    ..start
                }),
            decreases paths@.len() - i,
        {
            assert(ps.take(i + 1).drop_last() =~= ps.take(i as int));
            assert(ps[i as int] == paths@[i as int]@);
            if !self.is_expanded(paths[i].as_str()) {
                self.expand(paths[i].as_str());
            }
            i = i + 1;
        }
        assert(ps.take(i as int) =~= ps);
    }

    /// Puts the cursor on the row of `path` if the folders pane shows it.
    pub fn focus_path(&mut self, path: &str)
        ensures
            final(self)@ == match row_of(old(self)@, path@) {
                Some(i) => AppView { folder_index: i as usize, ..old(self)@ },
                None => old(self)@,
            },
    {
        match self.view_mode {
            ViewMode::List => {
                let ghost paths = entry_paths(self@.entries);
                let mut i: usize = 0;
                while i < self.entries.len()
                    invariant
                        0 <= i <= self.entries@.len(),
                        paths.len() == self.entries@.len(),
                        paths == entry_paths(self@.entries),
                        self@ == old(self)@,
                        self.view_mode == ViewMode::List,
                        position_of(paths, path@, 0) == position_of(paths, path@, i as int),
                    decreases self.entries@.len() - i,
                {
                    assert(paths[i as int] == self.entries@[i as int].path@);
                    if str_eq(self.entries[i].path.as_str(), path) {
                        self.folder_index = i;
                        return;
                    }
                    i = i + 1;
                }
            },
            ViewMode::Tree => {
                if let Some(i) = self.tree_position(path) {
                    self.folder_index = i;
                }
            },
        }
    }

    /// Shows `path` in the viewer from the top, with `error` as the error.
    pub fn show_file(&mut self, path: String, error: Option<String>)
        ensures
            final(self)@ == (AppView {
                selected_file: Some(path@),
                scroll_offset: 0,
                error: opt_chars(error),
                ..old(self)@
            }),
    {
        self.selected_file = Some(path);
        self.scroll_offset = 0;
        self.error = error;
    }

    /// After a file opened: focus the viewer if `focus_viewer`; enter the
    /// margins reading mode (and repaint) if `fullscreen`.
    pub fn after_select(&mut self, focus_viewer: bool, fullscreen: bool)
        ensures
            final(self)@ == (AppView {
                active_section: if focus_viewer {
                    ActiveSection::Viewer
                } else {
                    old(self).active_section
                },
                fullscreen: if fullscreen {
                    FullscreenMode::Margins
                } else {
                    old(self).fullscreen
                },
                needs_clear: if fullscreen {
                    true
                } else {
                    old(self).needs_clear
                },
                ..old(self)@
            }),
    {
        if focus_viewer {
            self.active_section = ActiveSection::Viewer;
        }
        if fullscreen {
            self.fullscreen = FullscreenMode::Margins;
            self.needs_clear = true;
        }
    }

    /// An editor started in the viewer: normal layout, repaint.
    pub fn start_editing(&mut self)
        ensures
            final(self)@ == (AppView {
                editing: true,
                fullscreen: FullscreenMode::Off,
                needs_clear: true,
                ..old(self)@
            }),
    {
        self.editing = true;
        self.fullscreen = FullscreenMode::Off;
        self.needs_clear = true;
    }

    /// The editor exited: keys go to the panes again, repaint.
    pub fn finish_editing(&mut self)
        ensures
            final(self)@ == (AppView { editing: false, needs_clear: true, ..old(self)@ }),
    {
        self.editing = false;
        self.needs_clear = true;
    }

    /// Reports `msg` as the error.
    pub fn set_error(&mut self, msg: String)
        ensures
            final(self)@ == (AppView { error: Some(msg@), ..old(self)@ }),
    {
        self.error = Some(msg);
    }

    /// Reports `msg` in the status bar.
    pub fn set_status(&mut self, msg: String)
        ensures
            final(self)@ == (AppView { status_message: Some(msg@), ..old(self)@ }),
    {
        self.status_message = Some(msg);
    }

    /// Shows the notice that the desktop app is not installed.
    pub fn show_gui_missing(&mut self)
        ensures
            final(self)@ == (AppView { gui_missing_active: true, ..old(self)@ }),
    {
        self.gui_missing_active = true;
    }

    /// The screen has been repainted from scratch.
    pub fn clear_done(&mut self)
        ensures
            final(self)@ == (AppView { needs_clear: false, ..old(self)@ }),
    {
        self.needs_clear = false;
    }
}

} // verus!

use mdcmd::browser::{ActiveSection, AppState, Effect, FullscreenMode, TuiTreeNode};
use mdcmd::config::{Config, PinnedItem, ViewMode};
use mdcmd::keys::{KeyCode, KeyEvent, KeyEventKind, KeyModifiers};
use mdcmd::listing::FileEntry;

fn no_mods() -> KeyModifiers {
    KeyModifiers { shift: false, control: false, alt: false, super_key: false, hyper: false, meta: false }
}

fn press(code: KeyCode) -> KeyEvent {
    KeyEvent { code, modifiers: no_mods(), kind: KeyEventKind::Press }
}

fn with(code: KeyCode, f: impl Fn(&mut KeyModifiers)) -> KeyEvent {
    let mut m = no_mods();
    f(&mut m);
    KeyEvent { code, modifiers: m, kind: KeyEventKind::Press }
}

fn entry(name: &str, is_dir: bool) -> FileEntry {
    FileEntry { name: name.to_string(), path: format!("/w/{}", name), is_dir }
}

fn state_with(pins: Vec<PinnedItem>, entries: Vec<FileEntry>) -> AppState {
    let mut config = Config::new();
    config.pinned_workspaces = pins;
    let mut s = AppState::new(config, "/w".to_string(), false, None);
    s.reload_directory(Ok(entries));
    s
}

fn path_of(e: &Effect) -> Option<String> {
    match e {
        Effect::SelectFile { path, .. } => Some(path.clone()),
        _ => None,
    }
}

#[test]
fn new_state_focuses_folders() {
    let s = AppState::new(Config::new(), "/home".to_string(), false, None);
    assert_eq!(s.active_section, ActiveSection::Folders);
    assert_eq!(s.fullscreen, FullscreenMode::Off);
    assert!(s.open_files.is_empty());
    assert_eq!(s.current_dir, "/home");
}

#[test]
fn reading_a_folder_that_fails_reports_it() {
    let mut s = state_with(vec![], vec![entry("a", false), entry("b", false)]);
    s.folder_index = 5;
    s.reload_directory(Ok(vec![entry("a", false)]));
    assert_eq!(s.folder_index, 0);
    s.reload_directory(Err("denied".to_string()));
    assert!(s.entries.is_empty());
    assert_eq!(s.error.as_deref(), Some("Error reading folder: denied"));
}

#[test]
fn moving_in_the_folders_pane() {
    let mut s = state_with(vec![], vec![entry("a", false), entry("b", false)]);
    assert!(matches!(s.handle_key(press(KeyCode::Down)), Effect::Nothing));
    assert_eq!(s.folder_index, 1);
    s.handle_key(press(KeyCode::Char('j')));
    assert_eq!(s.folder_index, 1);
    s.handle_key(press(KeyCode::Char('k')));
    assert_eq!(s.folder_index, 0);
}

#[test]
fn enter_opens_files_and_folders() {
    let mut s = state_with(vec![], vec![entry("sub", true), entry("x.md", false)]);
    assert!(matches!(s.handle_key(press(KeyCode::Enter)), Effect::Reload));
    assert_eq!(s.current_dir, "/w/sub");
    s.reload_directory(Ok(vec![entry("x.md", false)]));
    let e = s.handle_key(press(KeyCode::Enter));
    assert_eq!(path_of(&e).as_deref(), Some("/w/x.md"));
    match e {
        Effect::SelectFile { focus_viewer, fullscreen, edit, .. } => {
            assert!(!focus_viewer && !fullscreen && !edit);
        },
        _ => panic!("expected a file to open"),
    }
    let e = s.handle_key(with(KeyCode::Enter, |m| m.alt = true));
    match e {
        Effect::SelectFile { focus_viewer, .. } => assert!(focus_viewer),
        _ => panic!("expected a file to open"),
    }
}

#[test]
fn tab_cycles_the_focus_and_back_tab_undoes_it() {
    let mut s = state_with(vec![PinnedItem { path: "/p".to_string(), is_dir: true }], vec![entry("a", false)]);
    assert_eq!(s.active_section, ActiveSection::Folders);
    s.handle_key(press(KeyCode::Tab));
    assert_eq!(s.active_section, ActiveSection::Viewer);
    s.handle_key(press(KeyCode::Tab));
    assert_eq!(s.active_section, ActiveSection::Workspaces);
    s.handle_key(press(KeyCode::Tab));
    assert_eq!(s.active_section, ActiveSection::Folders);
    s.handle_key(press(KeyCode::BackTab));
    assert_eq!(s.active_section, ActiveSection::Workspaces);
    s.handle_key(press(KeyCode::Tab));
    assert_eq!(s.active_section, ActiveSection::Folders);
}

#[test]
fn reading_modes_cycle_with_f() {
    let mut s = state_with(vec![], vec![]);
    s.show_file("/w/a.md".to_string(), None);
    s.active_section = ActiveSection::Viewer;
    s.handle_key(press(KeyCode::Char('f')));
    assert_eq!(s.fullscreen, FullscreenMode::Margins);
    assert!(s.needs_clear);
    s.handle_key(press(KeyCode::Char('f')));
    assert_eq!(s.fullscreen, FullscreenMode::NoMargins);
    s.handle_key(press(KeyCode::Char('f')));
    assert_eq!(s.fullscreen, FullscreenMode::Off);
    s.handle_key(press(KeyCode::Char('f')));
    s.handle_key(press(KeyCode::Esc));
    assert_eq!(s.fullscreen, FullscreenMode::Off);
    assert!(!s.quit);
    assert_eq!(FullscreenMode::Off.next().next().next(), FullscreenMode::Off);
}

#[test]
fn closing_tabs_moves_to_a_neighbour() {
    let mut s = state_with(vec![], vec![]);
    for p in ["/a", "/b", "/c"] {
        s.add_open_file(p);
    }
    s.add_open_file("/b");
    assert_eq!(s.open_files, vec!["/a", "/b", "/c"]);
    s.show_file("/b".to_string(), None);
    let e = s.close_file("/b");
    assert_eq!(path_of(&e).as_deref(), Some("/c"));
    assert_eq!(s.open_files, vec!["/a", "/c"]);
    s.show_file("/c".to_string(), None);
    let e = s.close_file("/c");
    assert_eq!(path_of(&e).as_deref(), Some("/a"));
    s.show_file("/a".to_string(), None);
    assert!(matches!(s.close_file("/a"), Effect::ClearViewer));
    assert!(s.selected_file.is_none());
    assert!(matches!(s.close_file("/zzz"), Effect::Nothing));
}

#[test]
fn brackets_and_digits_switch_tabs() {
    let mut s = state_with(vec![], vec![]);
    for p in ["/a", "/b", "/c"] {
        s.add_open_file(p);
    }
    let e = s.handle_key(press(KeyCode::Char(']')));
    assert_eq!(path_of(&e).as_deref(), Some("/a"));
    s.show_file("/a".to_string(), None);
    let e = s.handle_key(press(KeyCode::Char('[')));
    assert_eq!(path_of(&e).as_deref(), Some("/c"));
    let e = s.handle_key(with(KeyCode::Char('2'), |m| m.control = true));
    assert_eq!(path_of(&e).as_deref(), Some("/b"));
    assert!(matches!(s.handle_key(with(KeyCode::Char('9'), |m| m.alt = true)), Effect::Nothing));
}

#[test]
fn shifted_digits_open_pins() {
    let pins = vec![
        PinnedItem { path: "/zdir".to_string(), is_dir: true },
        PinnedItem { path: "/file.md".to_string(), is_dir: false },
    ];
    let mut s = state_with(pins, vec![]);
    match s.handle_key(with(KeyCode::Char('@'), |m| m.control = true)) {
        Effect::OpenPinned { path, is_dir, missing_error, .. } => {
            assert_eq!(path, "/zdir");
            assert!(is_dir);
            assert!(!missing_error);
        },
        _ => panic!("expected a pin to open"),
    }
    match s.handle_key(with(KeyCode::Char('1'), |m| {
        m.alt = true;
        m.shift = true;
    })) {
        Effect::OpenPinned { path, .. } => assert_eq!(path, "/file.md"),
        _ => panic!("expected a pin to open"),
    }
}

#[test]
fn search_prompt_filters_and_escape_cancels() {
    let mut s = state_with(vec![], vec![entry("a", false)]);
    s.handle_key(press(KeyCode::Char('/')));
    assert!(s.search_active);
    assert!(matches!(s.handle_key(press(KeyCode::Char('n'))), Effect::Reclamp));
    s.handle_key(press(KeyCode::Char('o')));
    assert_eq!(s.search_query.as_deref(), Some("no"));
    s.handle_key(press(KeyCode::Backspace));
    assert_eq!(s.search_query.as_deref(), Some("n"));
    s.handle_key(press(KeyCode::Esc));
    assert!(!s.search_active);
    assert!(s.search_query.is_none());
    assert!(s.search_input.is_empty());
}

#[test]
fn new_file_prompt_trims_the_name() {
    let mut s = state_with(vec![], vec![]);
    s.handle_key(press(KeyCode::Char('n')));
    assert!(s.create_active);
    for c in "  new.md ".chars() {
        s.handle_key(press(KeyCode::Char(c)));
    }
    match s.handle_key(press(KeyCode::Enter)) {
        Effect::CreateFile { name } => assert_eq!(name, "new.md"),
        _ => panic!("expected a file to be created"),
    }
    assert!(!s.create_active);
    s.handle_key(press(KeyCode::Char('n')));
    s.handle_key(press(KeyCode::Char(' ')));
    assert!(matches!(s.handle_key(press(KeyCode::Enter)), Effect::Nothing));
}

#[test]
fn keys_go_to_the_editor_while_it_runs() {
    let mut s = state_with(vec![], vec![]);
    s.set_status("saved".to_string());
    s.start_editing();
    match s.handle_key(with(KeyCode::Char('x'), |m| m.control = true)) {
        Effect::PtyInput { bytes } => assert_eq!(bytes, vec![0x18]),
        _ => panic!("expected editor input"),
    }
    assert!(s.status_message.is_none());
    let release = KeyEvent { code: KeyCode::Char('a'), modifiers: no_mods(), kind: KeyEventKind::Release };
    assert!(matches!(s.handle_key(release), Effect::Nothing));
    assert!(matches!(s.handle_key(press(KeyCode::Char('q'))), Effect::PtyInput { .. }));
    assert!(!s.quit);
    s.finish_editing();
    assert!(!s.editing);
}

#[test]
fn quitting() {
    let mut s = state_with(vec![], vec![]);
    s.handle_key(press(KeyCode::Char('q')));
    assert!(s.quit);
    let mut t = state_with(vec![], vec![]);
    t.search_active = true;
    t.handle_key(with(KeyCode::Char('q'), |m| m.control = true));
    assert!(!t.quit);
    t.search_active = false;
    t.handle_key(with(KeyCode::Char('q'), |m| m.control = true));
    assert!(t.quit);
}

#[test]
fn pinning_from_the_folders_pane_saves() {
    let mut s = state_with(vec![], vec![entry("a", true)]);
    assert!(matches!(s.handle_key(press(KeyCode::Char('p'))), Effect::SaveConfig));
    assert_eq!(s.config.pinned_workspaces.len(), 1);
    assert_eq!(s.config.pinned_workspaces[0].path, "/w/a");
    s.handle_key(press(KeyCode::Char('p')));
    assert!(s.config.pinned_workspaces.is_empty());
}

#[test]
fn removing_the_last_pin_moves_the_focus() {
    let mut s = state_with(vec![PinnedItem { path: "/p".to_string(), is_dir: true }], vec![entry("a", false)]);
    s.active_section = ActiveSection::Workspaces;
    assert!(matches!(s.handle_key(press(KeyCode::Char('d'))), Effect::SaveConfig));
    assert!(s.config.pinned_workspaces.is_empty());
    assert_eq!(s.active_section, ActiveSection::Folders);
}

#[test]
fn tree_view_expands_and_collapses() {
    let mut config = Config::new();
    config.view_mode = ViewMode::Tree;
    let mut s = AppState::new(config, "/w".to_string(), false, None);
    s.set_tree(vec![
        TuiTreeNode { name: "d".to_string(), path: "/w/d".to_string(), is_dir: true, depth: 0, parent_path: None },
        TuiTreeNode {
            name: "f".to_string(),
            path: "/w/d/f".to_string(),
            is_dir: false,
            depth: 1,
            parent_path: Some("/w/d".to_string()),
        },
    ]);
    assert!(matches!(s.handle_key(press(KeyCode::Right)), Effect::Refresh));
    assert!(s.is_expanded("/w/d"));
    s.handle_key(press(KeyCode::Down));
    assert_eq!(s.folder_index, 1);
    // Left on a file goes to its parent's row.
    assert!(matches!(s.handle_key(press(KeyCode::Left)), Effect::Nothing));
    assert_eq!(s.folder_index, 0);
    assert!(matches!(s.handle_key(press(KeyCode::Left)), Effect::Refresh));
    assert!(!s.is_expanded("/w/d"));
    assert!(matches!(s.handle_key(press(KeyCode::Char(' '))), Effect::Refresh));
    assert!(s.is_expanded("/w/d"));
    match s.handle_key(press(KeyCode::Char('v'))) {
        Effect::SwitchViewMode { focused } => assert_eq!(focused.as_deref(), Some("/w/d")),
        _ => panic!("expected a view switch"),
    }
    s.switch_view_mode();
    assert_eq!(s.view_mode, ViewMode::List);
    assert_eq!(s.config.view_mode, ViewMode::List);
}

#[test]
fn going_up_puts_the_cursor_on_the_old_folder() {
    let mut s = state_with(vec![], vec![entry("x", false)]);
    assert!(matches!(s.handle_key(press(KeyCode::Backspace)), Effect::GoUp));
    s.set_current_dir("/".to_string());
    s.reload_directory(Ok(vec![FileEntry { name: "a".to_string(), path: "/a".to_string(), is_dir: true },
        FileEntry { name: "w".to_string(), path: "/w".to_string(), is_dir: true }]));
    s.position_after_up("/w", Some("w"));
    assert_eq!(s.folder_index, 1);
}

#[test]
fn viewer_scrolls_and_help_toggles() {
    let mut s = state_with(vec![], vec![]);
    s.active_section = ActiveSection::Viewer;
    s.handle_key(press(KeyCode::PageDown));
    assert_eq!(s.scroll_offset, 15);
    s.handle_key(press(KeyCode::Up));
    assert_eq!(s.scroll_offset, 14);
    s.handle_key(press(KeyCode::PageUp));
    assert_eq!(s.scroll_offset, 0);
    s.handle_key(press(KeyCode::Char('?')));
    assert!(s.help_active);
    s.handle_key(press(KeyCode::Esc));
    assert!(!s.help_active);
    assert!(!s.quit);
}

#[test]
fn copy_targets_the_row_or_the_open_file() {
    let mut s = state_with(vec![], vec![entry("a.md", false)]);
    match s.handle_key(press(KeyCode::Char('Y'))) {
        Effect::Copy { path, name_only } => {
            assert_eq!(path, "/w/a.md");
            assert!(name_only);
        },
        _ => panic!("expected a copy"),
    }
    s.show_file("/w/b.md".to_string(), None);
    s.active_section = ActiveSection::Viewer;
    match s.handle_key(press(KeyCode::Char('y'))) {
        Effect::Copy { path, name_only } => {
            assert_eq!(path, "/w/b.md");
            assert!(!name_only);
        },
        _ => panic!("expected a copy"),
    }
}

#[test]
fn media_files_are_not_edited() {
    let mut s = state_with(vec![], vec![entry("pic.PNG", false), entry("t.md", false)]);
    assert!(matches!(s.handle_key(press(KeyCode::Char('e'))), Effect::Nothing));
    s.handle_key(press(KeyCode::Down));
    match s.handle_key(press(KeyCode::Char('e'))) {
        Effect::SelectFile { edit, .. } => assert!(edit),
        _ => panic!("expected the editor"),
    }
}

#[test]
fn clamping_keeps_the_cursor_on_a_row() {
    let mut s = state_with(vec![], vec![entry("a", false), entry("b", false)]);
    s.folder_index = 9;
    s.clamp_folder_index();
    assert_eq!(s.folder_index, 1);
    s.clamp_folder_index();
    assert_eq!(s.folder_index, 1);
    assert_eq!(s.folder_row_count(), 2);
}

#[test]
fn next_tab_then_previous_tab_returns() {
    let mut s = state_with(vec![], vec![]);
    for p in ["/a", "/b", "/c"] {
        s.add_open_file(p);
    }
    s.show_file("/c".to_string(), None);
    let e = s.handle_key(press(KeyCode::Char(']')));
    assert_eq!(path_of(&e).as_deref(), Some("/a"));
    s.show_file("/a".to_string(), None);
    let e = s.handle_key(press(KeyCode::Char('[')));
    assert_eq!(path_of(&e).as_deref(), Some("/c"));
}

#[test]
fn typing_then_deleting_in_prompts_restores_them() {
    let mut s = state_with(vec![], vec![]);
    s.handle_key(press(KeyCode::Char('/')));
    s.handle_key(press(KeyCode::Char('a')));
    s.handle_key(press(KeyCode::Char('b')));
    s.handle_key(press(KeyCode::Backspace));
    assert_eq!(s.search_input, "a");
    assert_eq!(s.search_query.as_deref(), Some("a"));
    assert!(s.search_active);
    s.handle_key(press(KeyCode::Esc));
    s.handle_key(press(KeyCode::Char('n')));
    s.handle_key(press(KeyCode::Char('x')));
    s.handle_key(press(KeyCode::Char('y')));
    s.handle_key(press(KeyCode::Backspace));
    assert_eq!(s.create_input, "x");
    assert!(s.create_active);
}

#[test]
fn getters_and_caller_updates() {
    let pins = vec![
        PinnedItem { path: "/z".to_string(), is_dir: true },
        PinnedItem { path: "/a.md".to_string(), is_dir: false },
    ];
    let mut s = state_with(pins, vec![entry("a", true), entry("b.md", false)]);
    let ws: Vec<String> = s.get_sorted_workspaces().into_iter().map(|p| p.path).collect();
    assert_eq!(ws, vec!["/a.md", "/z"]);
    match s.activate_workspace_at_index(1) {
        Effect::OpenPinned { path, is_dir, .. } => {
            assert_eq!(path, "/z");
            assert!(is_dir);
        },
        _ => panic!("expected a pin"),
    }
    assert!(matches!(s.activate_workspace_at_index(2), Effect::Nothing));
    assert_eq!(s.focused_path().as_deref(), Some("/w/a"));
    assert_eq!(s.copy_target().as_deref(), Some("/w/a"));
    s.focus_path("/w/b.md");
    assert_eq!(s.folder_index, 1);
    s.focus_path("/nowhere");
    assert_eq!(s.folder_index, 1);
    s.expand_paths(&vec!["/w/a".to_string(), "/w/a".to_string()]);
    assert_eq!(s.expanded_paths, vec!["/w/a"]);
    s.toggle_expand("/w/a");
    assert!(!s.is_expanded("/w/a"));
    s.set_search_results(vec![entry("q", false)]);
    assert_eq!(s.get_search_results().len(), 1);
    s.set_tree(vec![]);
    assert!(s.get_flat_tree().is_empty());
    s.after_select(true, true);
    assert_eq!(s.active_section, ActiveSection::Viewer);
    assert_eq!(s.fullscreen, FullscreenMode::Margins);
    assert!(s.needs_clear);
    s.clear_done();
    assert!(!s.needs_clear);
    s.show_gui_missing();
    assert!(s.gui_missing_active);
    assert!(matches!(s.handle_key(press(KeyCode::Char('x'))), Effect::Nothing));
    assert!(!s.gui_missing_active);
    s.enter_folder("/w/a".to_string());
    assert_eq!(s.current_dir, "/w/a");
    assert!(s.expanded_paths.is_empty());
    s.open_pinned_dir("/z".to_string());
    assert_eq!(s.active_section, ActiveSection::Folders);
    assert_eq!(s.current_dir, "/z");
    assert!(s.handle_global_keys(press(KeyCode::Char('j'))).is_none());
    assert!(matches!(s.handle_global_keys(press(KeyCode::Char('t'))), Some(Effect::OpenTerminal)));
}

#[test]
fn cursor_moves_between_workspaces_and_folders() {
    let pins = vec![PinnedItem { path: "/p".to_string(), is_dir: true }];
    let mut s = state_with(pins, vec![entry("a", false), entry("b", false)]);
    s.active_section = ActiveSection::Workspaces;
    s.handle_key(press(KeyCode::Down));
    assert_eq!(s.active_section, ActiveSection::Folders);
    assert_eq!(s.folder_index, 0);
    s.handle_key(press(KeyCode::Up));
    assert_eq!(s.active_section, ActiveSection::Workspaces);
    assert_eq!(s.workspace_index, 0);
}

#[test]
fn question_mark_toggles_help() {
    let mut s = state_with(vec![], vec![entry("a", false)]);
    s.handle_key(press(KeyCode::Char('?')));
    assert!(s.help_active);
    s.handle_key(press(KeyCode::Char('?')));
    assert!(!s.help_active);
    assert_eq!(s.folder_index, 0);
    assert!(!s.quit);
}

#[test]
fn starting_on_a_file_opens_it_in_the_viewer() {
    let s = AppState::new(Config::new(), "/docs/a.md".to_string(), true, Some("/docs".to_string()));
    assert_eq!(s.current_dir, "/docs");
    assert_eq!(s.selected_file.as_deref(), Some("/docs/a.md"));
    assert_eq!(s.open_files, vec!["/docs/a.md"]);
    assert_eq!(s.active_section, ActiveSection::Viewer);
    let t = AppState::new(Config::new(), "/docs".to_string(), false, Some("/".to_string()));
    assert_eq!(t.current_dir, "/docs");
    assert!(t.selected_file.is_none());
    assert_eq!(t.active_section, ActiveSection::Folders);
}

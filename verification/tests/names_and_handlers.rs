use mdcmd::browser::{ActiveSection, AppState, Effect, FullscreenMode};
use mdcmd::config::{Config, PinnedItem};
use mdcmd::keys::{KeyCode, KeyEvent, KeyEventKind, KeyModifiers};
use mdcmd::listing::FileEntry;
use mdcmd::screen::{
    clipboard_programs, copy_text, display_name, file_title, last_component, parent_folder, terminal_commands,
    Command, Platform,
};

fn press(code: KeyCode) -> KeyEvent {
    KeyEvent {
        code,
        modifiers: KeyModifiers { shift: false, control: false, alt: false, super_key: false, hyper: false, meta: false },
        kind: KeyEventKind::Press,
    }
}

fn entry(name: &str, is_dir: bool) -> FileEntry {
    FileEntry { name: name.to_string(), path: format!("/w/{}", name), is_dir }
}

fn state(entries: Vec<FileEntry>) -> AppState {
    let mut s = AppState::new(Config::new(), "/w".to_string(), false, None);
    s.reload_directory(Ok(entries));
    s
}

fn listed(cs: &[Command]) -> Vec<(String, Vec<String>)> {
    cs.iter().map(|c| (c.program.clone(), c.args.clone())).collect()
}

fn pins(s: &AppState) -> Vec<(String, bool)> {
    s.config.pinned_workspaces.iter().map(|p: &PinnedItem| (p.path.clone(), p.is_dir)).collect()
}

fn owned(items: &[&str]) -> Vec<String> {
    items.iter().map(|s| s.to_string()).collect()
}

#[test]
fn names_with_spaces_and_accents() {
    assert_eq!(display_name("/home/u/My Notes.md"), "My Notes.md");
    assert_eq!(display_name("/d/Übersicht.md"), "Übersicht.md");
    assert_eq!(file_title("/d/Übersicht.md"), "Übersicht.md");
    assert_eq!(file_title("/home/u/My Notes.md"), "My Notes.md");
    assert_eq!(copy_text("/home/u/My Notes.md", true), "My Notes.md");
    assert_eq!(copy_text("/home/u/My Notes.md", false), "/home/u/My Notes.md");
    assert_eq!(last_component("/home/u/Dossier été").as_deref(), Some("Dossier été"));
    assert_eq!(parent_folder("/home/u/Dossier été/a b.md").as_deref(), Some("/home/u/Dossier été"));
}

#[test]
fn clipboard_programs_by_platform() {
    assert_eq!(listed(&clipboard_programs(Platform::MacOs)), vec![("pbcopy".to_string(), vec![])]);
    assert_eq!(listed(&clipboard_programs(Platform::Windows)), vec![("clip".to_string(), vec![])]);
    assert_eq!(
        listed(&clipboard_programs(Platform::Other)),
        vec![("wl-copy".to_string(), vec![]), ("xclip".to_string(), owned(&["-selection", "clipboard"]))]
    );
}

#[test]
fn terminal_commands_by_platform() {
    assert_eq!(
        listed(&terminal_commands(Platform::MacOs, "/w")),
        vec![("open".to_string(), owned(&["-a", "Terminal", "/w"]))]
    );
    assert_eq!(
        listed(&terminal_commands(Platform::Windows, "/w")),
        vec![("cmd".to_string(), owned(&["/C", "start", "cmd.exe", "/K", "cd /d /w"]))]
    );
    assert_eq!(
        listed(&terminal_commands(Platform::Other, "/w")),
        vec![
            ("gnome-terminal".to_string(), owned(&["--working-directory", "/w"])),
            ("xfce4-terminal".to_string(), owned(&["--working-directory", "/w"])),
            ("konsole".to_string(), owned(&["--workdir", "/w"])),
            ("alacritty".to_string(), owned(&["--working-directory", "/w"])),
            ("ghostty".to_string(), owned(&["--working-directory=/w"])),
            ("xterm".to_string(), owned(&["-working-directory", "/w"])),
            ("x-terminal-emulator".to_string(), owned(&["-e", "cd /w && exec sh"])),
        ]
    );
}

#[test]
fn expanded_folders_never_repeat() {
    let mut s = state(vec![]);
    s.expand_paths(&vec!["/w/a".to_string(), "/w/a".to_string(), "/w/b".to_string()]);
    assert_eq!(s.expanded_paths, vec!["/w/a", "/w/b"]);
    s.expand_paths(&vec!["/w/b".to_string()]);
    assert_eq!(s.expanded_paths, vec!["/w/a", "/w/b"]);
    s.toggle_expand("/w/a");
    assert_eq!(s.expanded_paths, vec!["/w/b"]);
    s.toggle_expand("/w/a");
    s.toggle_expand("/w/c");
    assert_eq!(s.expanded_paths.len(), 3);
    assert!(s.expanded_paths.contains(&"/w/a".to_string()));
}

#[test]
fn search_prompt_handler_edits_the_query() {
    let mut s = state(vec![entry("a.md", false), entry("b.md", false)]);
    s.search_active = true;
    s.folder_index = 1;
    assert!(matches!(s.handle_key_search_input(press(KeyCode::Char('a'))), Effect::Reclamp));
    assert_eq!(s.search_input, "a");
    assert_eq!(s.search_query.as_deref(), Some("a"));
    assert_eq!(s.folder_index, 0);
    assert!(matches!(s.handle_key_search_input(press(KeyCode::Backspace)), Effect::Reclamp));
    assert_eq!(s.search_input, "");
    assert_eq!(s.search_query, None);
    s.handle_key_search_input(press(KeyCode::Char('b')));
    assert!(matches!(s.handle_key_search_input(press(KeyCode::Enter)), Effect::Reclamp));
    assert!(!s.search_active);
    assert_eq!(s.search_query.as_deref(), Some("b"));
    s.search_active = true;
    assert!(matches!(s.handle_key_search_input(press(KeyCode::Tab)), Effect::Nothing));
    assert_eq!(s.search_input, "b");
    assert!(matches!(s.handle_key_search_input(press(KeyCode::Esc)), Effect::Nothing));
    assert!(!s.search_active);
    assert_eq!(s.search_input, "");
    assert_eq!(s.search_query, None);
}

#[test]
fn viewer_handler_cycles_reading_modes() {
    let mut s = state(vec![]);
    s.active_section = ActiveSection::Viewer;
    s.handle_key_viewer(press(KeyCode::Char('f')));
    assert_eq!(s.fullscreen, FullscreenMode::Off);
    s.selected_file = Some("/w/a.md".to_string());
    s.handle_key_viewer(press(KeyCode::Char('f')));
    assert_eq!(s.fullscreen, FullscreenMode::Margins);
    assert!(s.needs_clear);
    s.needs_clear = false;
    s.handle_key_viewer(press(KeyCode::Char('f')));
    assert_eq!(s.fullscreen, FullscreenMode::NoMargins);
    assert!(s.needs_clear);
    s.handle_key_viewer(press(KeyCode::Char('f')));
    assert_eq!(s.fullscreen, FullscreenMode::Off);
}

#[test]
fn folders_handler_pins_and_unpins() {
    let mut s = state(vec![entry("d", true), entry("a.md", false)]);
    s.folder_index = 1;
    s.handle_key_folders(press(KeyCode::Char('p')));
    assert_eq!(pins(&s), vec![("/w/a.md".to_string(), false)]);
    s.folder_index = 0;
    s.handle_key_folders(press(KeyCode::Char('p')));
    assert_eq!(pins(&s), vec![("/w/a.md".to_string(), false), ("/w/d".to_string(), true)]);
    s.handle_key_folders(press(KeyCode::Char('p')));
    assert_eq!(pins(&s), vec![("/w/a.md".to_string(), false)]);
}

use mdcmd::commands::{
    write_workspaces, create_file_check, list_directory, open_terminal_check, read_file_check, read_workspaces,
    resolve_pin, search_directory, write_file_check, StoredPin, WorkspaceEntry,
};
use mdcmd::config::{sorted_workspaces, Config, PinnedItem, ViewMode};
use mdcmd::docpicker::{Docpicker, DocpickerError};
use mdcmd::listing::{build_listing, sort_listing, FileEntry};
use mdcmd::palette::{is_light_mode, last_segment_chars, parse_u32_chars, Palette};
use mdcmd::style::Color;

fn entry(name: &str, is_dir: bool) -> FileEntry {
    FileEntry { name: name.to_string(), path: format!("/d/{}", name), is_dir }
}

fn names(v: &[FileEntry]) -> Vec<String> {
    v.iter().map(|e| e.name.clone()).collect()
}

fn pin(path: &str, is_dir: bool) -> PinnedItem {
    PinnedItem { path: path.to_string(), is_dir }
}

fn pin_paths(v: &[PinnedItem]) -> Vec<String> {
    v.iter().map(|p| p.path.clone()).collect()
}

#[test]
fn listing_puts_folders_first_and_hides_dot_entries() {
    let raw = vec![
        entry("b.md", false),
        entry(".git", true),
        entry("Zeta", true),
        entry("a.txt", false),
        entry("alpha", true),
        entry(".hidden.md", false),
    ];
    let out = build_listing(raw);
    assert_eq!(names(&out), vec!["alpha", "Zeta", "a.txt", "b.md"]);
}

#[test]
fn listing_order_ignores_case_and_is_stable() {
    let raw = vec![entry("B", false), entry("a", false), entry("b", false), entry("A", false)];
    let out = sort_listing(raw);
    assert_eq!(names(&out), vec!["a", "A", "B", "b"]);
}

#[test]
fn list_directory_refusals_and_success() {
    let missing = list_directory("/nope", false, false, Ok(vec![]));
    assert_eq!(missing.unwrap_err(), "Directory does not exist: /nope");
    let file = list_directory("/f.md", true, false, Ok(vec![]));
    assert_eq!(file.unwrap_err(), "Path is not a directory: /f.md");
    let unreadable = list_directory("/d", true, true, Err("Permission denied".to_string()));
    assert_eq!(unreadable.unwrap_err(), "Permission denied");
    let ok = list_directory("/d", true, true, Ok(vec![entry("x", false), entry("y", true)])).unwrap();
    assert_eq!(names(&ok), vec!["y", "x"]);
}

#[test]
fn file_command_checks() {
    assert_eq!(read_file_check("/a", false, false).unwrap_err(), "File does not exist: /a");
    assert_eq!(read_file_check("/a", true, true).unwrap_err(), "Path is a directory, not a file: /a");
    assert!(read_file_check("/a", true, false).is_ok());
    assert_eq!(
        write_file_check("/a", true).unwrap_err(),
        "Path is a directory, cannot write content to it: /a"
    );
    assert!(write_file_check("/a", false).is_ok());
    assert_eq!(create_file_check("/a", true).unwrap_err(), "File already exists: /a");
    assert!(create_file_check("/a", false).is_ok());
    assert_eq!(open_terminal_check(true, false).unwrap_err(), "Path does not exist or is not a directory");
    assert_eq!(open_terminal_check(false, true).unwrap_err(), "Path does not exist or is not a directory");
    assert!(open_terminal_check(true, true).is_ok());
}

#[test]
fn search_keeps_matches_in_listing_order() {
    assert_eq!(search_directory(false, "x", vec![]).unwrap_err(), "Invalid directory path");
    let found = vec![entry("Notes.md", false), entry("other", true), entry("notebook", true), entry("a-note", false)];
    let out = search_directory(true, "NOTE", found).unwrap();
    assert_eq!(names(&out), vec!["notebook", "a-note", "Notes.md"]);
}

#[test]
fn stored_workspaces_are_read_back() {
    let entries = vec![
        WorkspaceEntry::Text { path: "/plain".to_string() },
        WorkspaceEntry::Record { path: Some("/rec".to_string()), is_dir: Some(false) },
        WorkspaceEntry::Record { path: None, is_dir: Some(true) },
        WorkspaceEntry::Other,
        WorkspaceEntry::Record { path: Some("/open".to_string()), is_dir: None },
    ];
    let pins = read_workspaces(&entries);
    let seen: Vec<(String, Option<bool>)> = pins.iter().map(|p| (p.path.clone(), p.is_dir)).collect();
    assert_eq!(
        seen,
        vec![("/plain".to_string(), None), ("/rec".to_string(), Some(false)), ("/open".to_string(), None)]
    );
    let a = resolve_pin(StoredPin { path: "/x".to_string(), is_dir: None }, true);
    assert!(!a.is_dir);
    let b = resolve_pin(StoredPin { path: "/x".to_string(), is_dir: None }, false);
    assert!(b.is_dir);
    let c = resolve_pin(StoredPin { path: "/x".to_string(), is_dir: Some(false) }, false);
    assert!(!c.is_dir);
    assert_eq!(c.path, "/x");
}

#[test]
fn workspaces_list_files_before_folders() {
    let items = vec![pin("/b", true), pin("/Z.md", false), pin("/a", true), pin("/c.md", false)];
    let out = sorted_workspaces(&items);
    assert_eq!(pin_paths(&out), vec!["/c.md", "/Z.md", "/a", "/b"]);
}

#[test]
fn toggling_a_pin_twice_restores_the_pins() {
    let mut config = Config::new();
    assert_eq!(config.view_mode, ViewMode::List);
    config.toggle_pin("/a", true);
    config.toggle_pin("/b", false);
    assert_eq!(config.pin_index("/b"), Some(1));
    config.toggle_pin("/c", true);
    config.toggle_pin("/c", false);
    assert_eq!(pin_paths(&config.pinned_workspaces), vec!["/a", "/b"]);
    config.toggle_pin("/a", true);
    assert_eq!(pin_paths(&config.pinned_workspaces), vec!["/b"]);
    assert_eq!(config.pin_index("/a"), None);
}

#[test]
fn unpin_removes_every_pin_of_a_path() {
    let mut config = Config::new();
    config.pinned_workspaces = vec![pin("/a", true), pin("/b", true), pin("/a", false)];
    config.unpin("/a");
    assert_eq!(pin_paths(&config.pinned_workspaces), vec!["/b"]);
}

#[test]
fn light_mode_rules() {
    assert!(is_light_mode(true, true, Some("0;0"), Some("Dark")));
    assert!(!is_light_mode(false, true, Some("0;15"), None));
    assert!(is_light_mode(false, false, Some("15;7"), None));
    assert!(is_light_mode(false, false, Some("0;default;11"), None));
    assert!(!is_light_mode(false, false, Some("15;0"), None));
    assert!(!is_light_mode(false, false, Some("7;16"), None));
    assert!(!is_light_mode(false, false, Some("x"), None));
    assert!(is_light_mode(false, false, None, Some("Light\n")));
    assert!(!is_light_mode(false, false, None, Some("Dark\n")));
    assert!(!is_light_mode(false, false, None, None));
    // A light COLORFGBG decides before the interface style.
    assert!(is_light_mode(false, false, Some("0;7"), Some("Dark")));
}

#[test]
fn colorfgbg_pieces() {
    assert_eq!(last_segment_chars(&"12;3;45".chars().collect(), ';'), vec!['4', '5']);
    assert_eq!(last_segment_chars(&"abc".chars().collect(), ';'), vec!['a', 'b', 'c']);
    assert_eq!(parse_u32_chars(&"15".chars().collect()), Some(15));
    assert_eq!(parse_u32_chars(&"+7".chars().collect()), Some(7));
    assert_eq!(parse_u32_chars(&"".chars().collect()), None);
    assert_eq!(parse_u32_chars(&"4294967295".chars().collect()), Some(4294967295));
    assert_eq!(parse_u32_chars(&"4294967296".chars().collect()), None);
    assert_eq!(parse_u32_chars(&"1a".chars().collect()), None);
}

#[test]
fn palettes_follow_the_mode() {
    let light = Palette::detect(true, false, None, None);
    let dark = Palette::detect(false, false, None, None);
    assert_eq!(light.border_active, Color::Rgb(37, 99, 235));
    assert_eq!(light.code, Color::Rgb(180, 83, 9));
    assert_eq!(dark.border_active, Color::Rgb(59, 130, 246));
    assert_eq!(dark.code, Color::Rgb(251, 191, 36));
    assert_eq!(Palette::for_mode(true).text_primary, Palette::light().text_primary);
    assert_eq!(Palette::for_mode(false).text_primary, Palette::dark().text_primary);
}

#[test]
fn docpicker_without_native_picker() {
    let picker = Docpicker {};
    assert!(matches!(picker.pick_folder(), Err(DocpickerError::Unsupported)));
    assert!(picker.restore_access().unwrap().is_empty());
    assert!(picker.release_folder("/x".to_string()).is_ok());
}

#[test]
fn saved_pins_read_back_unchanged() {
    let saved = vec![pin("/b", true), pin("/a.md", false)];
    let entries: Vec<WorkspaceEntry> = saved
        .iter()
        .map(|p| WorkspaceEntry::Record { path: Some(p.path.clone()), is_dir: Some(p.is_dir) })
        .collect();
    let back: Vec<PinnedItem> = read_workspaces(&entries).into_iter().map(|s| resolve_pin(s, true)).collect();
    let pairs: Vec<(String, bool)> = back.iter().map(|p| (p.path.clone(), p.is_dir)).collect();
    assert_eq!(pairs, vec![("/b".to_string(), true), ("/a.md".to_string(), false)]);
}

#[test]
fn written_workspaces_read_back() {
    let items = vec![pin("/b", true), pin("/a.md", false)];
    let entries = write_workspaces(&items);
    let back: Vec<(String, bool)> = read_workspaces(&entries)
        .into_iter()
        .map(|s| resolve_pin(s, false))
        .map(|p| (p.path, p.is_dir))
        .collect();
    assert_eq!(back, vec![("/b".to_string(), true), ("/a.md".to_string(), false)]);
}

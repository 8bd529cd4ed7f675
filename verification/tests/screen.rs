use mdcmd::browser::{ActiveSection, AppState, FullscreenMode, TuiTreeNode};
use mdcmd::config::{Config, PinnedItem, ViewMode};
use mdcmd::keys::{KeyCode, KeyEvent, KeyEventKind, KeyModifiers};
use mdcmd::listing::FileEntry;
use mdcmd::palette::Palette;
use mdcmd::screen::{
    folders_to_expand, last_component, parent_folder, PinnedStep,
    copy_text, display_name, editing_title, editor_programs, editor_size, entry_icon, file_title, inner_size, media_lines,
    no_content_lines, notice_area, pty_resize_needed, reading_area, terminal_args, viewer_title, BuildInfo, Padding,
    Rect,
};
use mdcmd::style::{Color, Line, MOD_BOLD, MOD_NONE};

fn text(l: &Line) -> String {
    l.to_string()
}

fn entry(name: &str, is_dir: bool) -> FileEntry {
    FileEntry { name: name.to_string(), path: format!("/w/{}", name), is_dir }
}

fn state(entries: Vec<FileEntry>) -> AppState {
    let mut s = AppState::new(Config::new(), "/w".to_string(), false, None);
    s.reload_directory(Ok(entries));
    s
}

fn press(code: KeyCode) -> KeyEvent {
    KeyEvent {
        code,
        modifiers: KeyModifiers { shift: false, control: false, alt: false, super_key: false, hyper: false, meta: false },
        kind: KeyEventKind::Press,
    }
}

#[test]
fn icons_by_kind() {
    assert_eq!(entry_icon(true, "/a/b", "b"), "📁 ");
    assert_eq!(entry_icon(false, "/a/m.MP4", "m.MP4"), "🎥 ");
    assert_eq!(entry_icon(false, "/a/p.png", "p.png"), "🖼️ ");
    assert_eq!(entry_icon(false, "/a/n.md", "n.md"), "📄 ");
    assert_eq!(entry_icon(false, "/a/x.rs", "x.rs"), "   ");
}

#[test]
fn list_rows_highlight_cursor_open_file_and_dim_others() {
    let p = Palette::dark();
    let mut s = state(vec![entry("d", true), entry("a.md", false), entry("x.rs", false)]);
    s.show_file("/w/a.md".to_string(), None);
    let rows = s.folder_rows(&p);
    assert_eq!(rows.len(), 3);
    assert_eq!(text(&rows[0].lines[0]), "📁 d");
    assert_eq!(rows[0].style.bg, Some(p.accent));
    assert_eq!(rows[0].style.fg, Some(Color::White));
    assert_eq!(rows[1].style.bg, Some(p.open_bg));
    assert_eq!(rows[1].style.add_modifier.bits, MOD_BOLD);
    assert_eq!(rows[2].style.fg, Some(p.text_dimmed));
    assert_eq!(text(&rows[2].lines[0]), "   x.rs");
}

#[test]
fn tree_rows_indent_and_chevrons() {
    let p = Palette::light();
    let mut config = Config::new();
    config.view_mode = ViewMode::Tree;
    let mut s = AppState::new(config, "/w".to_string(), false, None);
    s.set_tree(vec![
        TuiTreeNode { name: "d".to_string(), path: "/w/d".to_string(), is_dir: true, depth: 0, parent_path: None },
        TuiTreeNode {
            name: "f.md".to_string(),
            path: "/w/d/f.md".to_string(),
            is_dir: false,
            depth: 1,
            parent_path: Some("/w/d".to_string()),
        },
    ]);
    s.toggle_expand("/w/d");
    let rows = s.folder_rows(&p);
    assert_eq!(text(&rows[0].lines[0]), "▼ 📁 d");
    assert_eq!(text(&rows[1].lines[0]), "    📄 f.md");
    s.toggle_expand("/w/d");
    assert!(!s.is_expanded("/w/d"));
    assert_eq!(text(&s.folder_rows(&p)[0].lines[0]), "▶ 📁 d");
}

#[test]
fn search_rows_and_empty_search() {
    let p = Palette::dark();
    let mut s = state(vec![]);
    s.search_query = Some("q".to_string());
    s.set_search_results(vec![FileEntry { name: "q.md".to_string(), path: "/w/sub/q.md".to_string(), is_dir: false }]);
    s.cache_search_results();
    let rows = s.folder_rows(&p);
    assert_eq!(rows.len(), 1);
    assert_eq!(text(&rows[0].lines[0]), "📄 q.md");
    assert_eq!(text(&rows[0].lines[1]), "  sub/q.md");
    s.set_search_results(vec![]);
    s.cache_search_results();
    let rows = s.folder_rows(&p);
    assert_eq!(rows.len(), 1);
    assert_eq!(text(&rows[0].lines[0]), "  No results found.");
}

#[test]
fn workspace_rows_show_name_and_path() {
    let p = Palette::dark();
    let mut config = Config::new();
    config.pinned_workspaces = vec![
        PinnedItem { path: "/home/u/notes".to_string(), is_dir: true },
        PinnedItem { path: "/home/u/todo.md".to_string(), is_dir: false },
    ];
    let mut s = AppState::new(config, "/w".to_string(), false, None);
    s.active_section = ActiveSection::Workspaces;
    let rows = s.workspace_rows(&p);
    assert_eq!(text(&rows[0].lines[0]), "📄 todo.md");
    assert_eq!(text(&rows[0].lines[1]), "  /home/u/todo.md");
    assert_eq!(rows[0].style.bg, Some(p.accent));
    assert_eq!(text(&rows[1].lines[0]), "📌 notes");
    assert_eq!(rows[1].style.fg, Some(p.text_primary));
}

#[test]
fn pane_titles() {
    let mut s = state(vec![]);
    assert_eq!(s.folders_title(), "📁 Folders (List) ( 'v' mode ): /w");
    s.search_query = Some("abc".to_string());
    assert_eq!(s.folders_title(), "🔍 Search: \"abc\" in /w");
    assert_eq!(viewer_title("a.md", "/w/a.md"), "📄 Viewer: a.md (/w/a.md)");
    assert_eq!(editing_title("a.md"), "✏️  Editing: a.md (quit the editor to return)");
    assert_eq!(file_title("/w/a.md"), "a.md");
    assert_eq!(file_title("/"), "");
    assert_eq!(display_name("/"), "/");
    assert_eq!(display_name("/x/y"), "y");
    assert_eq!(file_title(".."), "");
    assert_eq!(file_title("/docs/a.md"), "a.md");
    assert_eq!(display_name("tmp/foo.txt"), "foo.txt");
    assert_eq!(display_name("/usr/bin/"), "bin");
    assert_eq!(copy_text("/usr/bin/", true), "bin");
    assert_eq!(copy_text("/usr/bin/", false), "/usr/bin/");
    assert_eq!(display_name(".."), "..");
    assert_eq!(file_title("notes_2-a.md"), "notes_2-a.md");
    assert_eq!(display_name("notes_2-a.md"), "notes_2-a.md");
}

#[test]
fn tab_bar_marks_the_open_file() {
    let p = Palette::dark();
    let mut s = state(vec![]);
    s.add_open_file("/w/a.md");
    s.add_open_file("/w/b.md");
    s.show_file("/w/b.md".to_string(), None);
    let spans = s.tab_spans(&p);
    let texts: Vec<&str> = spans.iter().map(|x| x.content.as_str()).collect();
    assert_eq!(texts, vec![" ○ a.md ", " │ ", " ◉ b.md "]);
    assert_eq!(spans[2].style.bg, Some(p.accent_soft));
    assert!(state(vec![]).tab_spans(&p).is_empty());
}

#[test]
fn status_bar_variants() {
    let p = Palette::dark();
    let mut s = state(vec![]);
    let help = s.status_bar(&p);
    assert_eq!(help.spans.len(), 28);
    assert!(text(&help).starts_with(" Tab Focus | [ / ] / Ctrl-1..9 Tabs |"));
    assert!(text(&help).ends_with(" q/Esc Quit"));
    s.set_error("boom".to_string());
    assert_eq!(text(&s.status_bar(&p)), "  ⚠️ Error: boom ");
    assert_eq!(s.status_bar(&p).spans[0].style.bg, Some(Color::Red));
    s.report_copied("/w/a.md");
    assert_eq!(text(&s.status_bar(&p)), "  ✅ Copied: /w/a.md ");
    s.handle_key(press(KeyCode::Char('/')));
    s.handle_key(press(KeyCode::Char('z')));
    assert_eq!(text(&s.status_bar(&p)), " 🔍 Search: z█  (Enter to search, Esc to cancel)");
    s.handle_key(press(KeyCode::Esc));
    s.handle_key(press(KeyCode::Char('n')));
    s.handle_key(press(KeyCode::Char('f')));
    assert_eq!(text(&s.status_bar(&p)), " 📝 New file: f█  (Enter to create & edit, Esc to cancel)");
}

#[test]
fn media_and_empty_viewer_texts() {
    let p = Palette::dark();
    let normal = media_lines("clip.mp4", "/w/clip.mp4", true, &p, false);
    assert_eq!(normal.len(), 7);
    assert_eq!(text(&normal[1]), "  🎞️ Media File: clip.mp4");
    assert_eq!(text(&normal[2]), "  Type: Video");
    assert_eq!(text(&normal[3]), "  Location: /w/clip.mp4");
    assert!(normal[0].spans.is_empty());
    let reading = media_lines("p.png", "/w/p.png", false, &p, true);
    assert_eq!(reading.len(), 6);
    assert_eq!(text(&reading[2]), "Type: Image");
    assert_eq!(text(&reading[5]), "Press f to cycle reading modes, Esc to exit fullscreen.");
    assert_eq!(text(&no_content_lines(&p, false)[0]), "  No content loaded.");
    assert_eq!(no_content_lines(&p, true)[0].spans[0].style.fg, Some(p.text_primary));
}

#[test]
fn welcome_and_install_notice() {
    let p = Palette::dark();
    let s = state(vec![]);
    let build = BuildInfo { version: "1.2.3".to_string(), commit: "abc".to_string(), commit_date: "2024-01-01".to_string() };
    let w = s.get_welcome_text(p.accent, p.border_inactive, p.text_primary, p.text_secondary, p.code, &build);
    assert_eq!(w.len(), 30);
    assert_eq!(text(&w[3]), "    v1.2.3  ·  commit abc  ·  2024-01-01");
    assert_eq!(text(&w[9]), "    ?               : Toggle this help screen");
    assert_eq!(text(&w[29]), "    Ctrl-q          : Quit application");
    let g = s.get_gui_missing_text(p.accent, p.text_primary, p.text_secondary);
    assert_eq!(g.len(), 13);
    assert_eq!(text(&g[5]), "    https://github.com/apstrand/mdcmd/releases");
    assert_eq!(g[5].spans[0].style.add_modifier.bits, MOD_BOLD);
    assert_eq!(g[12].spans[0].style.add_modifier.bits, MOD_NONE);
}

#[test]
fn notice_box_geometry() {
    let area = Rect { x: 10, y: 5, width: 100, height: 40 };
    assert_eq!(notice_area(area, 30), Rect { x: 20, y: 8, width: 80, height: 34 });
    let wide = Rect { x: 0, y: 0, width: 200, height: 10 };
    assert_eq!(notice_area(wide, 30), Rect { x: 58, y: 0, width: 84, height: 10 });
    let narrow = Rect { x: 0, y: 0, width: 15, height: 2 };
    assert_eq!(notice_area(narrow, 0), Rect { x: 0, y: 0, width: 15, height: 3 });
    let small = Rect { x: 0, y: 0, width: 22, height: 30 };
    assert_eq!(notice_area(small, 1), Rect { x: 1, y: 12, width: 20, height: 5 });
}

#[test]
fn reading_area_and_editor_sizes() {
    let area = Rect { x: 0, y: 0, width: 150, height: 40 };
    let (r, pad) = reading_area(area, FullscreenMode::Margins);
    assert_eq!(r, Rect { x: 25, y: 0, width: 100, height: 40 });
    assert_eq!(pad, Padding { left: 2, right: 2, top: 1, bottom: 0 });
    let (r, pad) = reading_area(area, FullscreenMode::NoMargins);
    assert_eq!(r, area);
    assert_eq!(pad, Padding { left: 0, right: 0, top: 0, bottom: 0 });
    let (r, _) = reading_area(Rect { x: 3, y: 1, width: 80, height: 20 }, FullscreenMode::Margins);
    assert_eq!(r, Rect { x: 3, y: 1, width: 80, height: 20 });
    assert_eq!(inner_size(Rect { x: 0, y: 0, width: 1, height: 50 }), (0, 48));
    assert_eq!(editor_size(Rect { x: 0, y: 0, width: 5, height: 4 }), (10, 3));
    assert_eq!(editor_size(Rect { x: 0, y: 0, width: 82, height: 26 }), (80, 24));
}

#[test]
fn editors_and_terminal_arguments() {
    assert_eq!(editor_programs(Some("hx")), vec!["hx", "vim", "nano"]);
    assert_eq!(editor_programs(None), vec!["nano", "vim", "nano"]);
    assert_eq!(terminal_args("--working-directory=", "/w"), vec!["--working-directory=/w"]);
    assert_eq!(terminal_args("--workdir", "/w"), vec!["--workdir", "/w"]);
}

#[test]
fn reports_set_the_messages() {
    let mut s = state(vec![]);
    s.report_no_clipboard();
    assert_eq!(s.error.as_deref(), Some("No clipboard utility found"));
    s.report_gui_failed("no app");
    assert_eq!(s.error.as_deref(), Some("Failed to launch GUI: no app"));
    s.report_editor_failed("x");
    assert_eq!(s.error.as_deref(), Some("Failed to launch editor: x"));
    s.report_dir_missing();
    assert_eq!(s.error.as_deref(), Some("Current directory does not exist"));
    s.report_no_terminal();
    assert_eq!(s.error.as_deref(), Some("No supported terminal emulator found"));
    s.report_pin_missing();
    assert_eq!(s.error.as_deref(), Some("Pinned item no longer exists"));
    s.report_file_exists("n.md");
    assert_eq!(s.error.as_deref(), Some("File already exists: n.md"));
    s.report_create_failed("denied");
    assert_eq!(s.error.as_deref(), Some("Error creating file: denied"));
    s.report_file_failed("/w/z.md".to_string(), "gone");
    assert_eq!(s.error.as_deref(), Some("Error opening file: gone"));
    assert_eq!(s.selected_file.as_deref(), Some("/w/z.md"));
    assert!(!s.move_to_folder("/w".to_string()));
    assert!(s.move_to_folder("/v".to_string()));
    assert_eq!(s.current_dir, "/v");
}

#[test]
fn keys_on_rows_need_the_cursor_on_a_row() {
    let mut s = state(vec![entry("a", false)]);
    assert!(s.key_allowed(press(KeyCode::Enter)));
    s.folder_index = 3;
    assert!(!s.key_allowed(press(KeyCode::Enter)));
    assert!(s.key_allowed(press(KeyCode::Down)));
    s.search_active = true;
    assert!(s.key_allowed(press(KeyCode::Enter)));
}

#[test]
fn editor_terminal_resizes_only_on_change() {
    assert!(!pty_resize_needed(80, 24, 80, 24));
    assert!(pty_resize_needed(80, 24, 81, 24));
    assert!(!pty_resize_needed(80, 24, 0, 30));
    assert!(!pty_resize_needed(80, 24, 90, 0));
}

#[test]
fn parents_and_folders_to_open() {
    assert_eq!(parent_folder("/foo/bar").as_deref(), Some("/foo"));
    assert_eq!(parent_folder("/foo").as_deref(), Some("/"));
    assert_eq!(parent_folder("foo").as_deref(), Some(""));
    assert_eq!(parent_folder(""), None);
    assert_eq!(parent_folder("/"), None);
    assert_eq!(last_component("/w/a.md").as_deref(), Some("a.md"));
    assert_eq!(last_component(".."), None);
    assert_eq!(folders_to_expand("/w", "/w/a/b"), vec!["/w/a/b", "/w/a"]);
    assert!(folders_to_expand("/w", "/w").is_empty());
    assert!(folders_to_expand("/w", "/v/a").is_empty());
}

#[test]
fn opening_pins_and_going_up() {
    let mut s = state(vec![]);
    match s.open_pinned("/p/f.md".to_string(), false, true, true, true) {
        PinnedStep::OpenFile { path, focus_viewer } => {
            assert_eq!(path, "/p/f.md");
            assert!(focus_viewer);
        },
        _ => panic!("expected a file to open"),
    }
    assert!(matches!(s.open_pinned("/gone".to_string(), true, false, false, false), PinnedStep::Done));
    assert!(s.error.is_none());
    assert!(matches!(s.open_pinned("/gone".to_string(), true, false, false, true), PinnedStep::Done));
    assert_eq!(s.error.as_deref(), Some("Pinned item no longer exists"));
    assert!(matches!(
        s.open_pinned("/p".to_string(), true, true, false, true),
        PinnedStep::ReadFolder { keep_results: true }
    ));
    assert_eq!(s.current_dir, "/p");
    assert_eq!(s.go_up_dir().as_deref(), Some("/p"));
    assert_eq!(s.current_dir, "/");
    assert_eq!(s.go_up_dir(), None);
    assert_eq!(s.current_dir, "/");
}

#[test]
fn tree_nodes_go_into_expanded_folders_only() {
    let mut s = state(vec![]);
    s.toggle_expand("/w/d");
    let (node, descend) = s.tree_node_of(entry("d", true), "/w", 2);
    assert_eq!(node.path, "/w/d");
    assert_eq!(node.depth, 2);
    assert_eq!(node.parent_path.as_deref(), Some("/w"));
    assert!(descend);
    let (_, descend) = s.tree_node_of(entry("e", true), "/w", 0);
    assert!(!descend);
    let (_, descend) = s.tree_node_of(FileEntry { name: "d".to_string(), path: "/w/d".to_string(), is_dir: false }, "/w", 0);
    assert!(!descend);
}

use mdcmd::files::{
    contains_query, has_markdown_extension, has_media_extension, has_video_extension, is_hidden_name,
    is_markdown_file, is_media_file, is_video_file, matches_search,
};
use mdcmd::keys::{
    encode_char, f_key_bytes, pty_input_bytes, symbol_to_digit, KeyCode, KeyEvent, KeyEventKind,
    KeyModifiers,
};

fn mods(control: bool, alt: bool) -> KeyModifiers {
    KeyModifiers { shift: false, control, alt, super_key: false, hyper: false, meta: false }
}

fn key(code: KeyCode, control: bool, alt: bool) -> KeyEvent {
    KeyEvent { code, modifiers: mods(control, alt), kind: KeyEventKind::Press }
}

#[test]
fn shifted_digits_map_to_their_digit() {
    let symbols = ['!', '@', '#', '$', '%', '^', '&', '*', '('];
    for (i, c) in symbols.iter().enumerate() {
        let expected = char::from(b'1' + i as u8);
        assert_eq!(symbol_to_digit(*c), Some(expected));
    }
    assert_eq!(symbol_to_digit(')'), None);
    assert_eq!(symbol_to_digit('1'), None);
    assert_eq!(symbol_to_digit('a'), None);
}

#[test]
fn function_keys_send_xterm_sequences() {
    assert_eq!(f_key_bytes(1), b"\x1bOP".to_vec());
    assert_eq!(f_key_bytes(4), b"\x1bOS".to_vec());
    assert_eq!(f_key_bytes(5), b"\x1b[15~".to_vec());
    assert_eq!(f_key_bytes(6), b"\x1b[17~".to_vec());
    assert_eq!(f_key_bytes(11), b"\x1b[23~".to_vec());
    assert_eq!(f_key_bytes(12), b"\x1b[24~".to_vec());
    assert!(f_key_bytes(0).is_empty());
    assert!(f_key_bytes(13).is_empty());
}

#[test]
fn characters_are_sent_as_utf8() {
    for c in ['a', 'é', '€', '🖼', '\u{7f}', '\u{80}', '\u{7ff}', '\u{800}', '\u{ffff}', '\u{10000}'] {
        assert_eq!(encode_char(c), c.to_string().into_bytes());
    }
}

#[test]
fn control_keys_send_control_codes() {
    assert_eq!(pty_input_bytes(key(KeyCode::Char('a'), true, false)), vec![1]);
    assert_eq!(pty_input_bytes(key(KeyCode::Char('C'), true, false)), vec![3]);
    assert_eq!(pty_input_bytes(key(KeyCode::Char('['), true, false)), vec![0x1b]);
    assert_eq!(pty_input_bytes(key(KeyCode::Char('\\'), true, false)), vec![0x1c]);
    assert_eq!(pty_input_bytes(key(KeyCode::Char(']'), true, false)), vec![0x1d]);
    assert_eq!(pty_input_bytes(key(KeyCode::Char('^'), true, false)), vec![0x1e]);
    assert_eq!(pty_input_bytes(key(KeyCode::Char('?'), true, false)), vec![0x1f]);
    assert_eq!(pty_input_bytes(key(KeyCode::Char(' '), true, false)), vec![0x00]);
    assert_eq!(pty_input_bytes(key(KeyCode::Char('1'), true, false)), vec![b'1']);
}

#[test]
fn special_keys_and_alt_prefix() {
    assert_eq!(pty_input_bytes(key(KeyCode::Enter, false, false)), vec![b'\r']);
    assert_eq!(pty_input_bytes(key(KeyCode::Backspace, false, false)), vec![0x7f]);
    assert_eq!(pty_input_bytes(key(KeyCode::BackTab, false, false)), b"\x1b[Z".to_vec());
    assert_eq!(pty_input_bytes(key(KeyCode::Up, false, false)), b"\x1b[A".to_vec());
    assert_eq!(pty_input_bytes(key(KeyCode::PageDown, false, false)), b"\x1b[6~".to_vec());
    assert_eq!(pty_input_bytes(key(KeyCode::F(2), false, false)), b"\x1bOQ".to_vec());
    // Alt puts ESC in front of what the key sends alone.
    assert_eq!(pty_input_bytes(key(KeyCode::Char('x'), false, true)), vec![0x1b, b'x']);
    assert_eq!(pty_input_bytes(key(KeyCode::Char('b'), true, true)), vec![0x1b, 2]);
    // A key that sends nothing sends nothing with Alt either.
    assert!(pty_input_bytes(key(KeyCode::Other, false, true)).is_empty());
    assert!(pty_input_bytes(key(KeyCode::Null, false, false)).is_empty());
}

#[test]
fn media_markdown_and_video_names() {
    assert!(is_media_file("photo.PNG"));
    assert!(is_media_file("/a/b/clip.mkv"));
    assert!(is_media_file("icon.ico"));
    assert!(!is_media_file("notes.md"));
    assert!(is_markdown_file("README.MD"));
    assert!(is_markdown_file("report.qmd"));
    assert!(!is_markdown_file("main.rs"));
    assert!(is_video_file("Movie.WebM"));
    assert!(!is_video_file("picture.jpg"));
    assert!(has_media_extension("x.jpeg"));
    assert!(!has_media_extension("x.JPEG"));
    assert!(has_video_extension("x.ogg"));
    assert!(has_markdown_extension("x.md"));
    assert!(!has_markdown_extension("md"));
}

#[test]
fn hidden_names_and_search_matches() {
    assert!(is_hidden_name(".git"));
    assert!(!is_hidden_name("git"));
    assert!(!is_hidden_name(""));
    assert!(matches_search("Chapter One.md", "ONE"));
    assert!(matches_search("anything", ""));
    assert!(!matches_search("notes", "todo"));
    assert!(contains_query("abc", "bc"));
    assert!(!contains_query("abc", "cb"));
}

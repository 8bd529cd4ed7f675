//! Key events as the browser reads them, and the bytes a terminal sends for
//! a key, which an editor running inside the viewer receives.
use vstd::prelude::*;
use vstd::utf8::{encode_utf8, encode_scalar};

verus! {

/// A key on the keyboard.
#[derive(Clone, Copy, PartialEq, Eq, Debug, Structural)]
pub enum KeyCode {
    Backspace,
    Enter,
    Left,
    Right,
    Up,
    Down,
    Home,
    End,
    PageUp,
    PageDown,
    Tab,
    BackTab,
    Delete,
    Insert,
    F(u8),
    Char(char),
    Null,
    Esc,
    /// Any other key (lock keys, media keys, lone modifiers, ...).
    Other,
}

/// The modifier keys held with a key.
#[derive(Clone, Copy, PartialEq, Eq, Debug, Structural)]
pub struct KeyModifiers {
    pub shift: bool,
    pub control: bool,
    pub alt: bool,
    pub super_key: bool,
    pub hyper: bool,
    pub meta: bool,
}

/// Whether a key was pressed, repeated or released.
#[derive(Clone, Copy, PartialEq, Eq, Debug, Structural)]
pub enum KeyEventKind {
    Press,
    Repeat,
    Release,
}

/// A key event.
#[derive(Clone, Copy, PartialEq, Eq, Debug, Structural)]
pub struct KeyEvent {
    pub code: KeyCode,
    pub modifiers: KeyModifiers,
    pub kind: KeyEventKind,
}

/// The digit that a shifted digit key types on a US keyboard stands for:
/// `!` is 1, `@` is 2, ... `(` is 9.
pub open spec fn shifted_digit(c: char) -> Option<char> {
    if c == '!' {
        Some('1')
    } else if c == '@' {
        Some('2')
    } else if c == '#' {
        Some('3')
    } else if c == '$' {
        Some('4')
    } else if c == '%' {
        Some('5')
    } else if c == '^' {
        Some('6')
    } else if c == '&' {
        Some('7')
    } else if c == '*' {
        Some('8')
    } else if c == '(' {
        Some('9')
    } else {
        None
    }
}

/// The digit `c` stands for when typed with Shift (see `shifted_digit`).
pub fn symbol_to_digit(c: char) -> (r: Option<char>)
    ensures
        r == shifted_digit(c),
{
    match c {
        '!' => Some('1'),
        '@' => Some('2'),
        '#' => Some('3'),
        '$' => Some('4'),
        '%' => Some('5'),
        '^' => Some('6'),
        '&' => Some('7'),
        '*' => Some('8'),
        '(' => Some('9'),
        _ => None,
    }
}

/// `ESC O c`.
pub open spec fn ss3(c: u8) -> Seq<u8> {
    seq![0x1bu8, 0x4fu8, c]
}

/// `ESC [ c`.
pub open spec fn csi(c: u8) -> Seq<u8> {
    seq![0x1bu8, 0x5bu8, c]
}

/// `ESC [ d ~`.
pub open spec fn csi_tilde(d: u8) -> Seq<u8> {
    seq![0x1bu8, 0x5bu8, d, 0x7eu8]
}

/// `ESC [ d1 d2 ~`.
pub open spec fn csi_tilde2(d1: u8, d2: u8) -> Seq<u8> {
    seq![0x1bu8, 0x5bu8, d1, d2, 0x7eu8]
}

/// The xterm sequence of function key `n`: SS3 P..S for F1..F4, CSI 15~ to
/// 24~ for F5..F12 (with 16 and 22 skipped); nothing for other numbers.
pub open spec fn fkey_seq(n: u8) -> Seq<u8> {
    if n == 1 {
        ss3(0x50)
    } else if n == 2 {
        ss3(0x51)
    } else if n == 3 {
        ss3(0x52)
    } else if n == 4 {
        ss3(0x53)
    } else if n == 5 {
        csi_tilde2(0x31, 0x35)
    } else if n == 6 {
        csi_tilde2(0x31, 0x37)
    } else if n == 7 {
        csi_tilde2(0x31, 0x38)
    } else if n == 8 {
        csi_tilde2(0x31, 0x39)
    } else if n == 9 {
        csi_tilde2(0x32, 0x30)
    } else if n == 10 {
        csi_tilde2(0x32, 0x31)
    } else if n == 11 {
        csi_tilde2(0x32, 0x33)
    } else if n == 12 {
        csi_tilde2(0x32, 0x34)
    } else {
        Seq::empty()
    }
}

fn ss3_vec(c: u8) -> (r: Vec<u8>)
    ensures
        r@ == ss3(c),
{
    let mut v = Vec::new();
    v.push(0x1bu8);
    v.push(0x4fu8);
    v.push(c);
    assert(v@ =~= ss3(c));
    v
}

fn csi_vec(c: u8) -> (r: Vec<u8>)
    ensures
        r@ == csi(c),
{
    let mut v = Vec::new();
    v.push(0x1bu8);
    v.push(0x5bu8);
    v.push(c);
    assert(v@ =~= csi(c));
    v
}

fn csi_tilde_vec(d: u8) -> (r: Vec<u8>)
    ensures
        r@ == csi_tilde(d),
{
    let mut v = Vec::new();
    v.push(0x1bu8);
    v.push(0x5bu8);
    v.push(d);
    v.push(0x7eu8);
    assert(v@ =~= csi_tilde(d));
    v
}

fn csi_tilde2_vec(d1: u8, d2: u8) -> (r: Vec<u8>)
    ensures
        r@ == csi_tilde2(d1, d2),
{
    let mut v = Vec::new();
    v.push(0x1bu8);
    v.push(0x5bu8);
    v.push(d1);
    v.push(d2);
    v.push(0x7eu8);
    assert(v@ =~= csi_tilde2(d1, d2));
    v
}

fn byte_vec(b: u8) -> (r: Vec<u8>)
    ensures
        r@ == seq![b],
{
    let mut v = Vec::new();
    v.push(b);
    assert(v@ =~= seq![b]);
    v
}

/// The bytes a terminal sends for function key `n` (see `fkey_seq`).
pub fn f_key_bytes(n: u8) -> (r: Vec<u8>)
    ensures
        r@ == fkey_seq(n),
{
    match n {
        1 => ss3_vec(0x50),
        2 => ss3_vec(0x51),
        3 => ss3_vec(0x52),
        4 => ss3_vec(0x53),
        5 => csi_tilde2_vec(0x31, 0x35),
        6 => csi_tilde2_vec(0x31, 0x37),
        7 => csi_tilde2_vec(0x31, 0x38),
        8 => csi_tilde2_vec(0x31, 0x39),
        9 => csi_tilde2_vec(0x32, 0x30),
        10 => csi_tilde2_vec(0x32, 0x31),
        11 => csi_tilde2_vec(0x32, 0x33),
        12 => csi_tilde2_vec(0x32, 0x34),
        _ => {
            let v: Vec<u8> = Vec::new();
            assert(v@ =~= Seq::<u8>::empty());
            v
        },
    }
}

/// The UTF-8 encoding of `c`.
pub fn encode_char(c: char) -> (r: Vec<u8>)
    ensures
        r@ == encode_utf8(seq![c]),
{
    let u = c as u32;
    proof {
        vstd::utf8::char_is_scalar(c);
        assert(seq![c].drop_first() =~= Seq::<char>::empty());
        assert(seq![c][0] == c);
        assert(encode_utf8(Seq::<char>::empty()) =~= Seq::<u8>::empty());
        assert(encode_utf8(seq![c]) =~= encode_scalar(u) + encode_utf8(seq![c].drop_first()));
        assert(encode_utf8(seq![c]) =~= encode_scalar(u));
    }
    let mut v = Vec::new();
    if u <= 0x7F {
        v.push((u & 0x7F) as u8);
    } else if u <= 0x7FF {
        v.push(0xC0 | ((u >> 6) & 0x1F) as u8);
        v.push(0x80 | (u & 0x3F) as u8);
    } else if u <= 0xFFFF {
        v.push(0xE0 | ((u >> 12) & 0x0F) as u8);
        v.push(0x80 | ((u >> 6) & 0x3F) as u8);
        v.push(0x80 | (u & 0x3F) as u8);
    } else {
        v.push(0xF0 | ((u >> 18) & 0x7) as u8);
        v.push(0x80 | ((u >> 12) & 0x3F) as u8);
        v.push(0x80 | ((u >> 6) & 0x3F) as u8);
        v.push(0x80 | (u & 0x3F) as u8);
    }
    assert(v@ =~= encode_scalar(u));
    v
}

/// `char::to_ascii_lowercase`.
pub open spec fn ascii_lower(c: char) -> char {
    if 'A' <= c && c <= 'Z' {
        ((c as u32) + 32) as char
    } else {
        c
    }
}

/// The bytes of `c` typed with Control: letters give 1 to 26, a few
/// punctuation keys give the other control codes, anything else is sent as
/// typed.
pub open spec fn ctrl_char_seq(c: char) -> Seq<u8> {
    let lower = ascii_lower(c);
    if 'a' <= lower && lower <= 'z' {
        seq![((lower as u32) - ('a' as u32) + 1) as u8]
    } else if c == '[' {
        seq![0x1bu8]
    } else if c == '\\' {
        seq![0x1cu8]
    } else if c == ']' {
        seq![0x1du8]
    } else if c == '^' {
        seq![0x1eu8]
    } else if c == '_' || c == '?' {
        seq![0x1fu8]
    } else if c == '@' || c == ' ' {
        seq![0x00u8]
    } else {
        encode_utf8(seq![c])
    }
}

/// The bytes of a key before Alt is applied.
pub open spec fn plain_key_seq(code: KeyCode, ctrl: bool) -> Seq<u8> {
    match code {
        KeyCode::Char(c) => if ctrl {
            ctrl_char_seq(c)
        } else {
            encode_utf8(seq![c])
        },
        KeyCode::Enter => seq![0x0du8],
        KeyCode::Backspace => seq![0x7fu8],
        KeyCode::Tab => seq![0x09u8],
        KeyCode::BackTab => csi(0x5a),
        KeyCode::Esc => seq![0x1bu8],
        KeyCode::Left => csi(0x44),
        KeyCode::Right => csi(0x43),
        KeyCode::Up => csi(0x41),
        KeyCode::Down => csi(0x42),
        KeyCode::Home => csi(0x48),
        KeyCode::End => csi(0x46),
        KeyCode::PageUp => csi_tilde(0x35),
        KeyCode::PageDown => csi_tilde(0x36),
        KeyCode::Delete => csi_tilde(0x33),
        KeyCode::Insert => csi_tilde(0x32),
        KeyCode::F(n) => fkey_seq(n),
        _ => Seq::empty(),
    }
}

/// The bytes a terminal sends for `key`: Alt prefixes a non-empty
/// sequence with ESC.
pub open spec fn key_seq(key: KeyEvent) -> Seq<u8> {
    let b = plain_key_seq(key.code, key.modifiers.control);
    if key.modifiers.alt && b.len() > 0 {
        seq![0x1bu8] + b
    } else {
        b
    }
}

fn ctrl_char_bytes(c: char) -> (r: Vec<u8>)
    ensures
        r@ == ctrl_char_seq(c),
{
    let lower = if 'A' <= c && c <= 'Z' {
        ((c as u8) + 32) as char
    } else {
        c
    };
    if 'a' <= lower && lower <= 'z' {
        byte_vec(((lower as u32) - ('a' as u32) + 1) as u8)
    } else {
        match c {
            '[' => byte_vec(0x1b),
            '\\' => byte_vec(0x1c),
            ']' => byte_vec(0x1d),
            '^' => byte_vec(0x1e),
            '_' | '?' => byte_vec(0x1f),
            '@' | ' ' => byte_vec(0x00),
            _ => encode_char(c),
        }
    }
}

/// The bytes a terminal sends for `key` (see `key_seq`), which the viewer
/// writes into an embedded editor's terminal.
pub fn pty_input_bytes(key: KeyEvent) -> (r: Vec<u8>)
    ensures
        r@ == key_seq(key),
{
    let ctrl = key.modifiers.control;
    let alt = key.modifiers.alt;
    let mut bytes: Vec<u8> = match key.code {
        KeyCode::Char(c) => if ctrl {
            ctrl_char_bytes(c)
        } else {
            encode_char(c)
        },
        KeyCode::Enter => byte_vec(0x0d),
        KeyCode::Backspace => byte_vec(0x7f),
        KeyCode::Tab => byte_vec(0x09),
        KeyCode::BackTab => csi_vec(0x5a),
        KeyCode::Esc => byte_vec(0x1b),
        KeyCode::Left => csi_vec(0x44),
        KeyCode::Right => csi_vec(0x43),
        KeyCode::Up => csi_vec(0x41),
        KeyCode::Down => csi_vec(0x42),
        KeyCode::Home => csi_vec(0x48),
        KeyCode::End => csi_vec(0x46),
        KeyCode::PageUp => csi_tilde_vec(0x35),
        KeyCode::PageDown => csi_tilde_vec(0x36),
        KeyCode::Delete => csi_tilde_vec(0x33),
        KeyCode::Insert => csi_tilde_vec(0x32),
        KeyCode::F(n) => f_key_bytes(n),
        _ => {
            let v: Vec<u8> = Vec::new();
            assert(v@ =~= Seq::<u8>::empty());
            v
        },
    };
    if alt && bytes.len() > 0 {
        let ghost before = bytes@;
        bytes.insert(0, 0x1b);
        assert(bytes@ =~= seq![0x1bu8] + before);
    }
    bytes
}

} // verus!

//! The Markdown renderer: each source line becomes one or more styled screen
//! lines (code blocks, standalone images, headings, block quotes, task and
//! bullet lists, and inline `code` / **bold** runs), with a map from every
//! screen line back to its source line.
use vstd::prelude::*;
use crate::chars::{
    chars_ends_with, chars_find, chars_find_from, chars_starts_with, chars_to_string,
    chars_utf8_len, ends_with, find, find_from, lemma_find_from, lemma_utf8_len_subrange,
    push_char, starts_with, str_to_chars, sub_chars, trim, trim_chars, utf8_len,
};
use crate::palette::Palette;
use crate::style::{
    fg_bg_style, fg_mod_style, fg_style, spans_view, Color, Line, Modifier, Span, Style, Text,
    MOD_BOLD, MOD_CROSSED_OUT, MOD_ITALIC, MOD_NONE,
};

verus! {

/// A standalone `![alt](src)` image found in the source; `line` is the index
/// of the one-line placeholder that stands for it in the rendered text.
#[derive(Clone, Debug)]
pub struct ImageRef {
    pub line: usize,
    pub alt: String,
    pub src: String,
}

impl View for ImageRef {
    type V = (usize, Seq<char>, Seq<char>);

    open spec fn view(&self) -> (usize, Seq<char>, Seq<char>) {
        (self.line, self.alt@, self.src@)
    }
}

/// A rendered document: the styled text, the images it shows and, for each
/// rendered line, the 0-based source line it came from.
pub struct ParsedMarkdown {
    pub text: Text,
    pub images: Vec<ImageRef>,
    pub line_map: Vec<usize>,
}

/// One rendered line, span by span.
pub type LineV = Seq<(Seq<char>, Style)>;

/// What rendering the source lines so far has produced.
pub struct RenderState {
    pub lines: Seq<LineV>,
    pub images: Seq<(usize, Seq<char>, Seq<char>)>,
    pub line_map: Seq<usize>,
    pub in_code_block: bool,
}

impl View for ParsedMarkdown {
    type V = RenderState;

    /// The document's view; a finished document is never inside a code block
    /// as far as its view tells.
    open spec fn view(&self) -> RenderState {
        RenderState {
            lines: self.text@,
            images: self.images@.map_values(|i: ImageRef| i@),
            line_map: self.line_map@,
            in_code_block: false,
        }
    }
}

/// A line ending in `\r` loses it.
pub open spec fn strip_cr(l: Seq<char>) -> Seq<char> {
    if l.len() > 0 && l.last() == '\r' {
        l.drop_last()
    } else {
        l
    }
}

/// The lines of `s` from index `start` on, as `str::lines` yields them:
/// split at each `\n`, a `\r` just before a `\n` dropped, and no empty line
/// after a final `\n`.
pub open spec fn lines_from(s: Seq<char>, start: int) -> Seq<Seq<char>>
    decreases s.len() - start,
{
    if start < 0 || start >= s.len() {
        Seq::empty()
    } else {
        match find_from(s, seq!['\n'], start) {
            None => seq![s.subrange(start, s.len() as int)],
            Some(i) => {
                proof {
                    lemma_find_from(s, seq!['\n'], start);
                }
                seq![strip_cr(s.subrange(start, i))] + lines_from(s, i + 1)
            },
        }
    }
}

/// The lines of `s` (`str::lines`).
pub open spec fn source_lines(s: Seq<char>) -> Seq<Seq<char>> {
    lines_from(s, 0)
}

/// The standalone image written by a whole (trimmed) line: `![alt](src)`,
/// optionally with a `"title"` after the source inside the parentheses and
/// an attribute block `{...}` after them. Gives the alternative text and the
/// trimmed source, which must not be empty.
pub open spec fn image_line(t: Seq<char>) -> Option<(Seq<char>, Seq<char>)> {
    if !starts_with(t, seq!['!', '[']) {
        None
    } else {
        match find(t, seq![']', '(']) {
            None => None,
            Some(cb) => {
                let alt = t.subrange(2, cb);
                let rest = t.subrange(cb + 2, t.len() as int);
                match find(rest, seq![')']) {
                    None => None,
                    Some(cp) => {
                        let trailing = trim(rest.subrange(cp + 1, rest.len() as int));
                        if trailing.len() != 0 && !(starts_with(trailing, seq!['{']) && ends_with(
                            trailing,
                            seq!['}'],
                        )) {
                            None
                        } else {
                            let inner = trim(rest.subrange(0, cp));
                            let src = match find(inner, seq![' ', '"']) {
                                Some(si) => if ends_with(inner, seq!['"']) {
                                    inner.subrange(0, si)
                                } else {
                                    inner
                                },
                                None => inner,
                            };
                            if src.len() == 0 {
                                None
                            } else {
                                Some((alt, trim(src)))
                            }
                        }
                    },
                }
            },
        }
    }
}

/// The spans that one step of inline scanning emits at index `cur` of
/// `line`, and the index where scanning goes on. A code run between two
/// backticks shows its text padded by one space each side on the code
/// background; a bold run between two `**` shows its text in bold; an
/// unclosed marker shows as plain text; text before a marker is plain.
pub open spec fn inline_step(line: Seq<char>, cur: int, text: Color, code: Color, code_bg: Color) -> (
    Seq<(Seq<char>, Style)>,
    int,
) {
    let tick = find_from(line, seq!['`'], cur);
    let bold = find_from(line, seq!['*', '*'], cur);
    let code_first = match (tick, bold) {
        (Some(t), Some(b)) => t < b,
        (Some(t), None) => true,
        _ => false,
    };
    if code_first {
        let t = tick->0;
        let before: Seq<(Seq<char>, Style)> = if t > cur {
            seq![(line.subrange(cur, t), fg_style(text))]
        } else {
            Seq::empty()
        };
        match find_from(line, seq!['`'], t + 1) {
            Some(c) => (
                before + seq![(seq![' '] + line.subrange(t + 1, c) + seq![' '], fg_bg_style(code, code_bg))],
                c + 1,
            ),
            None => (before + seq![(seq!['`'], fg_style(text))], t + 1),
        }
    } else if bold is Some {
        let b = bold->0;
        let before: Seq<(Seq<char>, Style)> = if b > cur {
            seq![(line.subrange(cur, b), fg_style(text))]
        } else {
            Seq::empty()
        };
        match find_from(line, seq!['*', '*'], b + 2) {
            Some(c) => (before + seq![(line.subrange(b + 2, c), fg_mod_style(text, MOD_BOLD))], c + 2),
            None => (before + seq![(seq!['*', '*'], fg_style(text))], b + 2),
        }
    } else {
        (seq![(line.subrange(cur, line.len() as int), fg_style(text))], line.len() as int)
    }
}

/// Where one scanning step goes on lies past `cur`.
pub proof fn lemma_inline_step_advances(line: Seq<char>, cur: int, text: Color, code: Color, code_bg: Color)
    requires
        0 <= cur < line.len(),
    ensures
        cur < inline_step(line, cur, text, code, code_bg).1 <= line.len(),
{
    lemma_find_from(line, seq!['`'], cur);
    lemma_find_from(line, seq!['*', '*'], cur);
    let tick = find_from(line, seq!['`'], cur);
    let bold = find_from(line, seq!['*', '*'], cur);
    if tick is Some {
        lemma_find_from(line, seq!['`'], tick->0 + 1);
    }
    if bold is Some {
        lemma_find_from(line, seq!['*', '*'], bold->0 + 2);
    }
}

/// The spans of `line` from index `cur` on (see `inline_step`).
pub open spec fn inline_spans_from(line: Seq<char>, cur: int, text: Color, code: Color, code_bg: Color) -> Seq<
    (Seq<char>, Style),
>
    decreases line.len() - cur,
{
    if cur < 0 || cur >= line.len() {
        Seq::empty()
    } else {
        let (emitted, next) = inline_step(line, cur, text, code, code_bg);
        proof {
            lemma_inline_step_advances(line, cur, text, code, code_bg);
        }
        emitted + inline_spans_from(line, next, text, code, code_bg)
    }
}

/// The spans of an ordinary line with inline `code` and **bold** runs.
pub open spec fn inline_spans(line: Seq<char>, text: Color, code: Color, code_bg: Color) -> Seq<
    (Seq<char>, Style),
> {
    inline_spans_from(line, 0, text, code, code_bg)
}

/// What one source line turns into: its rendered lines, the image it shows
/// if any, and whether a code block is open after it.
pub struct LineRender {
    pub lines: Seq<LineV>,
    pub image: Option<(Seq<char>, Seq<char>)>,
    pub in_code_block: bool,
}

/// Renders `raw` with nothing special about it.
pub open spec fn plain(lines: Seq<LineV>, in_code: bool) -> LineRender {
    LineRender { lines, image: None, in_code_block: in_code }
}

/// Two spans: a marker and its text.
pub open spec fn marked(marker: Seq<char>, ms: Style, text: Seq<char>, ts: Style) -> LineV {
    seq![(marker, ms), (text, ts)]
}

/// The text of a block quote line `t` (which begins with `>`): what follows
/// `> ` or `>`.
pub open spec fn quote_text(t: Seq<char>) -> Seq<char> {
    if t.len() > 1 {
        if t[1] == ' ' {
            t.subrange(2, t.len() as int)
        } else {
            t.subrange(1, t.len() as int)
        }
    } else {
        Seq::empty()
    }
}

/// Renders the source line `raw`, with `in_code` telling whether a code
/// block is open before it.
pub open spec fn render_line(raw: Seq<char>, in_code: bool, p: Palette) -> LineRender {
    let t = trim(raw);
    let bold = MOD_BOLD;
    if starts_with(t, seq!['`', '`', '`']) {
        plain(seq![seq![(raw, fg_style(p.text_muted))]], !in_code)
    } else if in_code {
        plain(seq![seq![(raw, fg_style(p.code))]], in_code)
    } else if image_line(t) is Some {
        let (alt, src) = image_line(t)->0;
        let shown = if alt.len() == 0 {
            src
        } else {
            alt
        };
        LineRender {
            lines: seq![
                seq![(seq!['\u{1F5BC}', ' ', ' '] + shown, fg_mod_style(p.text_secondary, MOD_ITALIC))],
            ],
            image: Some((alt, src)),
            in_code_block: in_code,
        }
    } else if starts_with(t, seq!['#', ' ']) {
        let title = t.subrange(2, t.len() as int);
        plain(
            seq![
                marked(seq!['#', ' '], fg_mod_style(p.accent, bold), title, fg_mod_style(p.text_primary, bold)),
                seq![(Seq::new(utf8_len(title) + 2, |_i: int| '\u{2500}'), fg_style(p.border_inactive))],
            ],
            in_code,
        )
    } else if starts_with(t, seq!['#', '#', ' ']) {
        plain(
            seq![
                marked(
                    seq!['#', '#', ' '],
                    fg_mod_style(p.heading2, bold),
                    t.subrange(3, t.len() as int),
                    fg_mod_style(p.text_primary, bold),
                ),
            ],
            in_code,
        )
    } else if starts_with(t, seq!['#', '#', '#', ' ']) {
        plain(
            seq![
                marked(
                    seq!['#', '#', '#', ' '],
                    fg_mod_style(p.heading3, bold),
                    t.subrange(4, t.len() as int),
                    fg_mod_style(p.text_primary, bold),
                ),
            ],
            in_code,
        )
    } else if starts_with(t, seq!['#', '#', '#', '#', ' ']) {
        plain(
            seq![
                marked(
                    seq!['#', '#', '#', '#', ' '],
                    fg_mod_style(p.heading4, bold),
                    t.subrange(5, t.len() as int),
                    fg_mod_style(p.text_primary, bold),
                ),
            ],
            in_code,
        )
    } else if starts_with(t, seq!['>']) {
        plain(
            seq![
                marked(
                    seq!['\u{2502}', ' '],
                    fg_mod_style(p.accent, bold),
                    quote_text(t),
                    fg_mod_style(p.text_secondary, MOD_ITALIC),
                ),
            ],
            in_code,
        )
    } else if starts_with(t, seq!['-', ' ', '[', ' ', ']', ' ']) || starts_with(
        t,
        seq!['*', ' ', '[', ' ', ']', ' '],
    ) {
        plain(
            seq![
                marked(
                    seq!['\u{2610}', ' '],
                    fg_style(p.accent),
                    t.subrange(6, t.len() as int),
                    fg_style(p.text_primary),
                ),
            ],
            in_code,
        )
    } else if starts_with(t, seq!['-', ' ', '[', 'x', ']', ' ']) || starts_with(
        t,
        seq!['*', ' ', '[', 'x', ']', ' '],
    ) {
        plain(
            seq![
                marked(
                    seq!['\u{2611}', ' '],
                    fg_style(p.text_secondary),
                    t.subrange(6, t.len() as int),
                    fg_mod_style(p.text_secondary, MOD_CROSSED_OUT),
                ),
            ],
            in_code,
        )
    } else if starts_with(t, seq!['-', ' ']) || starts_with(t, seq!['*', ' ']) {
        plain(
            seq![
                marked(
                    seq!['\u{2022}', ' '],
                    fg_style(p.accent),
                    t.subrange(2, t.len() as int),
                    fg_style(p.text_primary),
                ),
            ],
            in_code,
        )
    } else {
        plain(seq![inline_spans(raw, p.text_primary, p.code, p.code_bg)], in_code)
    }
}

/// The document rendered from the source lines `ls`, one after the other.
pub open spec fn render_lines(ls: Seq<Seq<char>>, p: Palette) -> RenderState
    decreases ls.len(),
{
    if ls.len() == 0 {
        RenderState {
            lines: Seq::empty(),
            images: Seq::empty(),
            line_map: Seq::empty(),
            in_code_block: false,
        }
    } else {
        let before = render_lines(ls.drop_last(), p);
        let r = render_line(ls.last(), before.in_code_block, p);
        RenderState {
            lines: before.lines + r.lines,
            images: match r.image {
                Some((alt, src)) => before.images.push((before.lines.len() as usize, alt, src)),
                None => before.images,
            },
            line_map: before.line_map + Seq::new(r.lines.len(), |_i: int| (ls.len() - 1) as usize),
            in_code_block: r.in_code_block,
        }
    }
}

/// The document rendered from `content`.
pub open spec fn render_markdown(content: Seq<char>, p: Palette) -> RenderState {
    let r = render_lines(source_lines(content), p);
    RenderState { in_code_block: false, ..r }
}

/// The alternative text and source of a standalone image line.
#[derive(Clone, Debug)]
pub struct InlineImageSyntax {
    pub alt: String,
    pub src: String,
}

fn image_line_chars(t: &Vec<char>) -> (r: Option<(Vec<char>, Vec<char>)>)
    ensures
        match r {
            Some((a, s)) => image_line(t@) == Some((a@, s@)),
            None => image_line(t@) is None,
        },
{
    let open_pat = ['!', '['];
    assert(open_pat@ =~= seq!['!', '[']);
    if !chars_starts_with(t, &open_pat) {
        return None;
    }
    let close_pat = [']', '('];
    assert(close_pat@ =~= seq![']', '(']);
    let found = chars_find(t, &close_pat);
    let cb = match found {
        Some(i) => i,
        None => {
            return None;
        },
    };
    let t_len = t.len();
    proof {
        lemma_find_from(t@, seq![']', '('], 0);
        assert(t@.subrange(0, 2)[0] == '!');
        assert(t@.subrange(cb as int, cb + 2)[0] == ']');
        assert(t@.subrange(0, 2)[1] == '[');
    }
    let alt = sub_chars(t, 2, cb);
    let rest = sub_chars(t, cb + 2, t_len);
    let paren = [')'];
    assert(paren@ =~= seq![')']);
    let found_paren = chars_find(&rest, &paren);
    let cp = match found_paren {
        Some(i) => i,
        None => {
            return None;
        },
    };
    proof {
        lemma_find_from(rest@, seq![')'], 0);
    }
    let after = sub_chars(&rest, cp + 1, rest.len());
    let trailing = trim_chars(&after);
    let lbrace = ['{'];
    let rbrace = ['}'];
    assert(lbrace@ =~= seq!['{']);
    assert(rbrace@ =~= seq!['}']);
    if trailing.len() != 0 && !(chars_starts_with(&trailing, &lbrace) && chars_ends_with(
        &trailing,
        &rbrace,
    )) {
        return None;
    }
    let inner0 = sub_chars(&rest, 0, cp);
    let inner = trim_chars(&inner0);
    let title_pat = [' ', '"'];
    let quote = ['"'];
    assert(title_pat@ =~= seq![' ', '"']);
    assert(quote@ =~= seq!['"']);
    let src = match chars_find(&inner, &title_pat) {
        Some(si) => {
            if chars_ends_with(&inner, &quote) {
                proof {
                    lemma_find_from(inner@, seq![' ', '"'], 0);
                }
                sub_chars(&inner, 0, si)
            } else {
                let whole = sub_chars(&inner, 0, inner.len());
                assert(whole@ =~= inner@);
                whole
            }
        },
        None => {
            let whole = sub_chars(&inner, 0, inner.len());
            assert(whole@ =~= inner@);
            whole
        },
    };
    if src.len() == 0 {
        return None;
    }
    let src_trimmed = trim_chars(&src);
    Some((alt, src_trimmed))
}

/// Recognizes a line that consists entirely of `![alt](src)`, optionally
/// followed by a `"title"` inside the parentheses, and tolerates a trailing
/// `{...}` attribute block; anything else, including an image in the middle
/// of a sentence, gives `None`.
pub fn parse_image_line(trimmed: &str) -> (r: Option<InlineImageSyntax>)
    ensures
        match r {
            Some(img) => image_line(trimmed@) == Some((img.alt@, img.src@)),
            None => image_line(trimmed@) is None,
        },
{
    let t = str_to_chars(trimmed);
    match image_line_chars(&t) {
        Some((alt, src)) => {
            let alt_s = chars_to_string(&alt, 0, alt.len());
            let src_s = chars_to_string(&src, 0, src.len());
            assert(alt@.subrange(0, alt@.len() as int) =~= alt@);
            assert(src@.subrange(0, src@.len() as int) =~= src@);
            Some(InlineImageSyntax { alt: alt_s, src: src_s })
        },
        None => None,
    }
}

fn plain_span(v: &Vec<char>, a: usize, b: usize, color: Color) -> (r: Span)
    requires
        a <= b <= v@.len(),
    ensures
        r@ == (v@.subrange(a as int, b as int), fg_style(color)),
{
    Span {
        content: chars_to_string(v, a, b),
        style: Style { fg: Some(color), bg: None, add_modifier: Modifier { bits: MOD_NONE } },
    }
}

fn literal_span(lit: &str, style: Style) -> (r: Span)
    ensures
        r@ == (lit@, style),
{
    let chars = str_to_chars(lit);
    let content = chars_to_string(&chars, 0, chars.len());
    assert(chars@.subrange(0, chars@.len() as int) =~= chars@);
    Span { content, style }
}

fn padded_string(v: &Vec<char>, a: usize, b: usize) -> (r: String)
    requires
        a <= b <= v@.len(),
    ensures
        r@ == seq![' '] + v@.subrange(a as int, b as int) + seq![' '],
{
    let mut out = String::new();
    push_char(&mut out, ' ');
    let mut i = a;
    while i < b
        invariant
            a <= i <= b <= v@.len(),
            out@ == seq![' '] + v@.subrange(a as int, i as int),
        decreases b - i,
    {
        push_char(&mut out, v[i]);
        assert(v@.subrange(a as int, i + 1) =~= v@.subrange(a as int, i as int).push(v@[i as int]));
        assert(seq![' '] + v@.subrange(a as int, i + 1) =~= (seq![' '] + v@.subrange(
            a as int,
            i as int,
        )).push(v@[i as int]));
        i = i + 1;
    }
    push_char(&mut out, ' ');
    out
}

fn inline_step_exec(v: &Vec<char>, cur: usize, text: Color, code: Color, code_bg: Color) -> (r: (
    Vec<Span>,
    usize,
))
    requires
        cur < v@.len(),
    ensures
        (spans_view(r.0@), r.1 as int) == inline_step(v@, cur as int, text, code, code_bg),
{
    let tick_pat = ['`'];
    let bold_pat = ['*', '*'];
    assert(tick_pat@ =~= seq!['`']);
    assert(bold_pat@ =~= seq!['*', '*']);
    let v_len = v.len();
    let tick = chars_find_from(v, &tick_pat, cur);
    let bold = chars_find_from(v, &bold_pat, cur);
    proof {
        lemma_find_from(v@, seq!['`'], cur as int);
        lemma_find_from(v@, seq!['*', '*'], cur as int);
    }
    let code_first = match (tick, bold) {
        (Some(t), Some(b)) => t < b,
        (Some(_t), None) => true,
        _ => false,
    };
    let mut out: Vec<Span> = Vec::new();
    if code_first {
        let t = match tick {
            Some(t) => t,
            None => {
                return (out, cur);
            },
        };
        if t > cur {
            out.push(plain_span(v, cur, t, text));
        }
        let ghost before = spans_view(out@);
        let close = chars_find_from(v, &tick_pat, t + 1);
        proof {
            lemma_find_from(v@, seq!['`'], t + 1);
        }
        match close {
            Some(c) => {
                let content = padded_string(v, t + 1, c);
                out.push(
                    Span {
                        content,
                        style: Style {
                            fg: Some(code),
                            bg: Some(code_bg),
                            add_modifier: Modifier { bits: MOD_NONE },
                        },
                    },
                );
                assert(spans_view(out@) =~= before + seq![
                    (seq![' '] + v@.subrange(t + 1, c as int) + seq![' '], fg_bg_style(code, code_bg)),
                ]);
                (out, c + 1)
            },
            None => {
                proof {
                    reveal_strlit("`");
                    assert("`"@ =~= seq!['`']);
                }
                out.push(literal_span("`", fg_style_exec(text)));
                assert(spans_view(out@) =~= before + seq![(seq!['`'], fg_style(text))]);
                (out, t + 1)
            },
        }
    } else if bold.is_some() {
        let b = match bold {
            Some(b) => b,
            None => {
                return (out, cur);
            },
        };
        if b > cur {
            out.push(plain_span(v, cur, b, text));
        }
        let ghost before = spans_view(out@);
        let close = chars_find_from(v, &bold_pat, b + 2);
        proof {
            lemma_find_from(v@, seq!['*', '*'], b + 2);
        }
        match close {
            Some(c) => {
                out.push(
                    Span {
                        content: chars_to_string(v, b + 2, c),
                        style: Style {
                            fg: Some(text),
                            bg: None,
                            add_modifier: Modifier { bits: MOD_BOLD },
                        },
                    },
                );
                assert(spans_view(out@) =~= before + seq![
                    (v@.subrange(b + 2, c as int), fg_mod_style(text, MOD_BOLD)),
                ]);
                (out, c + 2)
            },
            None => {
                proof {
                    reveal_strlit("**");
                    assert("**"@ =~= seq!['*', '*']);
                }
                out.push(literal_span("**", fg_style_exec(text)));
                assert(spans_view(out@) =~= before + seq![(seq!['*', '*'], fg_style(text))]);
                (out, b + 2)
            },
        }
    } else {
        out.push(plain_span(v, cur, v.len(), text));
        assert(spans_view(out@) =~= seq![(v@.subrange(cur as int, v@.len() as int), fg_style(text))]);
        (out, v.len())
    }
}

fn fg_style_exec(c: Color) -> (r: Style)
    ensures
        r == fg_style(c),
{
    Style { fg: Some(c), bg: None, add_modifier: Modifier { bits: MOD_NONE } }
}

/// Splits an ordinary line into plain, `code` and **bold** spans (see
/// `inline_step`).
pub fn parse_inline(line: &str, text_color: Color, code_color: Color, code_bg_color: Color) -> (r: Vec<
    Span,
>)
    ensures
        spans_view(r@) == inline_spans(line@, text_color, code_color, code_bg_color),
{
    let v = str_to_chars(line);
    inline_spans_chars(&v, text_color, code_color, code_bg_color)
}

fn inline_spans_chars(v: &Vec<char>, text: Color, code: Color, code_bg: Color) -> (r: Vec<Span>)
    ensures
        spans_view(r@) == inline_spans(v@, text, code, code_bg),
{
    let mut spans: Vec<Span> = Vec::new();
    let mut cur: usize = 0;
    while cur < v.len()
        invariant
            0 <= cur <= v@.len(),
            spans_view(spans@) + inline_spans_from(v@, cur as int, text, code, code_bg)
                == inline_spans(v@, text, code, code_bg),
        decreases v@.len() - cur,
    {
        let (mut emitted, next) = inline_step_exec(v, cur, text, code, code_bg);
        proof {
            lemma_inline_step_advances(v@, cur as int, text, code, code_bg);
        }
        let ghost old_spans = spans@;
        let ghost em = emitted@;
        spans.append(&mut emitted);
        assert(spans_view(spans@) =~= spans_view(old_spans) + spans_view(em));
        assert(inline_spans_from(v@, cur as int, text, code, code_bg) == spans_view(em)
            + inline_spans_from(v@, next as int, text, code, code_bg));
        assert(spans_view(old_spans) + (spans_view(em) + inline_spans_from(
            v@,
            next as int,
            text,
            code,
            code_bg,
        )) =~= spans_view(spans@) + inline_spans_from(v@, next as int, text, code, code_bg));
        cur = next;
    }
    assert(inline_spans_from(v@, cur as int, text, code, code_bg) =~= Seq::empty());
    assert(spans_view(spans@) + Seq::empty() =~= spans_view(spans@));
    spans
}

fn slice_string(p: &[char]) -> (r: String)
    ensures
        r@ == p@,
{
    let mut out = String::new();
    let mut i: usize = 0;
    while i < p.len()
        invariant
            0 <= i <= p@.len(),
            out@ == p@.take(i as int),
        decreases p@.len() - i,
    {
        push_char(&mut out, p[i]);
        assert(p@.take(i + 1) =~= p@.take(i as int).push(p@[i as int]));
        i = i + 1;
    }
    assert(p@.take(p@.len() as int) =~= p@);
    out
}

fn style_of(fg: Color, m: u16) -> (r: Style)
    ensures
        r == fg_mod_style(fg, m),
{
    Style { fg: Some(fg), bg: None, add_modifier: Modifier { bits: m } }
}

fn one_span_line(span: Span) -> (r: Line)
    ensures
        r@ == seq![span@],
{
    let mut spans: Vec<Span> = Vec::new();
    spans.push(span);
    let r = Line { spans };
    assert(r@ =~= seq![span@]);
    r
}

/// A line of a marker span and the text `v[from..]`.
fn marked_line(marker: &[char], ms: Style, v: &Vec<char>, from: usize, ts: Style) -> (r: Line)
    requires
        from <= v@.len(),
    ensures
        r@ == marked(marker@, ms, v@.subrange(from as int, v@.len() as int), ts),
{
    let mut spans: Vec<Span> = Vec::new();
    spans.push(Span { content: slice_string(marker), style: ms });
    spans.push(Span { content: chars_to_string(v, from, v.len()), style: ts });
    let r = Line { spans };
    assert(r@ =~= marked(marker@, ms, v@.subrange(from as int, v@.len() as int), ts));
    r
}

fn single_line(l: Line) -> (r: Vec<Line>)
    ensures
        crate::style::lines_view(r@) == seq![l@],
{
    let mut out: Vec<Line> = Vec::new();
    out.push(l);
    assert(crate::style::lines_view(out@) =~= seq![l@]);
    out
}

fn rule_string(count: usize) -> (r: String)
    ensures
        r@ == Seq::new(count as nat, |_i: int| '\u{2500}'),
{
    let mut out = String::new();
    let mut i: usize = 0;
    while i < count
        invariant
            0 <= i <= count,
            out@ == Seq::new(i as nat, |_i: int| '\u{2500}'),
        decreases count - i,
    {
        push_char(&mut out, '\u{2500}');
        assert(out@ =~= Seq::new((i + 1) as nat, |_i: int| '\u{2500}'));
        i = i + 1;
    }
    out
}

/// Renders one source line (see `render_line`); gives the rendered lines,
/// the image's alternative text and source if the line is an image, and
/// whether a code block is open after the line.
fn render_source_line(raw: &Vec<char>, in_code: bool, p: &Palette) -> (r: (
    Vec<Line>,
    Option<(String, String)>,
    bool,
))
    requires
        utf8_len(raw@) <= isize::MAX,
    ensures
        crate::style::lines_view(r.0@) == render_line(raw@, in_code, *p).lines,
        match r.1 {
            Some((a, s)) => render_line(raw@, in_code, *p).image == Some((a@, s@)),
            None => render_line(raw@, in_code, *p).image is None,
        },
        r.2 == render_line(raw@, in_code, *p).in_code_block,
{
    let t = trim_chars(raw);
    let fence = ['`', '`', '`'];
    assert(fence@ =~= seq!['`', '`', '`']);
    if chars_starts_with(&t, &fence) {
        let whole = chars_to_string(raw, 0, raw.len());
        assert(raw@.subrange(0, raw@.len() as int) =~= raw@);
        let l = one_span_line(Span { content: whole, style: style_of(p.text_muted, MOD_NONE) });
        return (single_line(l), None, !in_code);
    }
    if in_code {
        let whole = chars_to_string(raw, 0, raw.len());
        assert(raw@.subrange(0, raw@.len() as int) =~= raw@);
        let l = one_span_line(Span { content: whole, style: style_of(p.code, MOD_NONE) });
        return (single_line(l), None, in_code);
    }
    match image_line_chars(&t) {
        Some((alt, src)) => {
            let shown = if alt.len() == 0 {
                &src
            } else {
                &alt
            };
            let mut content = String::new();
            push_char(&mut content, '\u{1F5BC}');
            push_char(&mut content, ' ');
            push_char(&mut content, ' ');
            let ghost head = content@;
            let mut k: usize = 0;
            while k < shown.len()
                invariant
                    0 <= k <= shown@.len(),
                    content@ == head + shown@.take(k as int),
                decreases shown@.len() - k,
            {
                push_char(&mut content, shown[k]);
                assert(shown@.take(k + 1) =~= shown@.take(k as int).push(shown@[k as int]));
                k = k + 1;
            }
            assert(shown@.take(shown@.len() as int) =~= shown@);
            assert(head =~= seq!['\u{1F5BC}', ' ', ' ']);
            let l = one_span_line(Span { content, style: style_of(p.text_secondary, MOD_ITALIC) });
            let alt_s = chars_to_string(&alt, 0, alt.len());
            let src_s = chars_to_string(&src, 0, src.len());
            assert(alt@.subrange(0, alt@.len() as int) =~= alt@);
            assert(src@.subrange(0, src@.len() as int) =~= src@);
            return (single_line(l), Some((alt_s, src_s)), in_code);
        },
        None => {},
    }
    let h1 = ['#', ' '];
    let h2 = ['#', '#', ' '];
    let h3 = ['#', '#', '#', ' '];
    let h4 = ['#', '#', '#', '#', ' '];
    assert(h1@ =~= seq!['#', ' ']);
    assert(h2@ =~= seq!['#', '#', ' ']);
    assert(h3@ =~= seq!['#', '#', '#', ' ']);
    assert(h4@ =~= seq!['#', '#', '#', '#', ' ']);
    if chars_starts_with(&t, &h1) {
        let title = sub_chars(&t, 2, t.len());
        proof {
            crate::chars::lemma_trim_utf8_len(raw@);
            lemma_utf8_len_subrange(t@, 2, t@.len() as int);
        }
        let width = chars_utf8_len(&title);
        let first = marked_line(&h1, style_of(p.accent, MOD_BOLD), &t, 2, style_of(p.text_primary, MOD_BOLD));
        let second = one_span_line(Span { content: rule_string(width + 2), style: style_of(p.border_inactive, MOD_NONE) });
        let mut out: Vec<Line> = Vec::new();
        out.push(first);
        out.push(second);
        assert(crate::style::lines_view(out@) =~= render_line(raw@, in_code, *p).lines);
        return (out, None, in_code);
    }
    if chars_starts_with(&t, &h2) {
        let l = marked_line(&h2, style_of(p.heading2, MOD_BOLD), &t, 3, style_of(p.text_primary, MOD_BOLD));
        return (single_line(l), None, in_code);
    }
    if chars_starts_with(&t, &h3) {
        let l = marked_line(&h3, style_of(p.heading3, MOD_BOLD), &t, 4, style_of(p.text_primary, MOD_BOLD));
        return (single_line(l), None, in_code);
    }
    if chars_starts_with(&t, &h4) {
        let l = marked_line(&h4, style_of(p.heading4, MOD_BOLD), &t, 5, style_of(p.text_primary, MOD_BOLD));
        return (single_line(l), None, in_code);
    }
    let gt = ['>'];
    assert(gt@ =~= seq!['>']);
    if chars_starts_with(&t, &gt) {
        let bar = ['\u{2502}', ' '];
        assert(bar@ =~= seq!['\u{2502}', ' ']);
        let from: usize = if t.len() > 1 {
            if t[1] == ' ' {
                2
            } else {
                1
            }
        } else {
            t.len()
        };
        let l = marked_line(&bar, style_of(p.accent, MOD_BOLD), &t, from, style_of(p.text_secondary, MOD_ITALIC));
        assert(t@.subrange(from as int, t@.len() as int) =~= quote_text(t@));
        return (single_line(l), None, in_code);
    }
    let open_dash = ['-', ' ', '[', ' ', ']', ' '];
    let open_star = ['*', ' ', '[', ' ', ']', ' '];
    let done_dash = ['-', ' ', '[', 'x', ']', ' '];
    let done_star = ['*', ' ', '[', 'x', ']', ' '];
    let dash = ['-', ' '];
    let star = ['*', ' '];
    assert(open_dash@ =~= seq!['-', ' ', '[', ' ', ']', ' ']);
    assert(open_star@ =~= seq!['*', ' ', '[', ' ', ']', ' ']);
    assert(done_dash@ =~= seq!['-', ' ', '[', 'x', ']', ' ']);
    assert(done_star@ =~= seq!['*', ' ', '[', 'x', ']', ' ']);
    assert(dash@ =~= seq!['-', ' ']);
    assert(star@ =~= seq!['*', ' ']);
    if chars_starts_with(&t, &open_dash) || chars_starts_with(&t, &open_star) {
        let mark = ['\u{2610}', ' '];
        assert(mark@ =~= seq!['\u{2610}', ' ']);
        let l = marked_line(&mark, style_of(p.accent, MOD_NONE), &t, 6, style_of(p.text_primary, MOD_NONE));
        return (single_line(l), None, in_code);
    }
    if chars_starts_with(&t, &done_dash) || chars_starts_with(&t, &done_star) {
        let mark = ['\u{2611}', ' '];
        assert(mark@ =~= seq!['\u{2611}', ' ']);
        let l = marked_line(&mark, style_of(p.text_secondary, MOD_NONE), &t, 6, style_of(p.text_secondary, MOD_CROSSED_OUT));
        return (single_line(l), None, in_code);
    }
    if chars_starts_with(&t, &dash) || chars_starts_with(&t, &star) {
        let mark = ['\u{2022}', ' '];
        assert(mark@ =~= seq!['\u{2022}', ' ']);
        let l = marked_line(&mark, style_of(p.accent, MOD_NONE), &t, 2, style_of(p.text_primary, MOD_NONE));
        return (single_line(l), None, in_code);
    }
    let spans = inline_spans_chars(raw, p.text_primary, p.code, p.code_bg);
    let l = Line { spans };
    (single_line(l), None, in_code)
}

/// The view of a list of images.
pub open spec fn images_view(v: Seq<ImageRef>) -> Seq<(usize, Seq<char>, Seq<char>)> {
    v.map_values(|i: ImageRef| i@)
}

/// Renders `content` line by line (see `render_line`). Each source line
/// gives one screen line, two for a `# ` heading (the heading and a rule as
/// wide as the title's UTF-8 length plus two); `line_map` gives each screen
/// line's source line, and each standalone image is listed with the index
/// of its placeholder line. `content` is a string, so its UTF-8 length fits
/// in `isize`.
pub fn parse_markdown(content: &str, palette: &Palette) -> (r: ParsedMarkdown)
    requires
        utf8_len(content@) <= isize::MAX,
    ensures
        r@ == render_markdown(content@, *palette),
{
    let c = str_to_chars(content);
    let n = c.len();
    let mut lines: Vec<Line> = Vec::new();
    let mut images: Vec<ImageRef> = Vec::new();
    let mut line_map: Vec<usize> = Vec::new();
    let mut in_code = false;
    let mut start: usize = 0;
    let mut src_idx: usize = 0;
    let ghost mut done: Seq<Seq<char>> = Seq::empty();
    let newline = ['\n'];
    assert(newline@ =~= seq!['\n']);
    assert(done + lines_from(c@, 0) =~= source_lines(c@));
    assert(crate::style::lines_view(lines@) =~= Seq::empty());
    assert(images_view(images@) =~= Seq::empty());
    assert(line_map@ =~= Seq::empty());
    while start < n
        invariant
            n == c@.len(),
            0 <= start <= n,
            src_idx == done.len(),
            src_idx <= start,
            utf8_len(c@) <= isize::MAX,
            newline@ == seq!['\n'],
            done + lines_from(c@, start as int) == source_lines(c@),
            (RenderState {
                lines: crate::style::lines_view(lines@),
                images: images_view(images@),
                line_map: line_map@,
                in_code_block: in_code,
            }) == render_lines(done, *palette),
        decreases n - start,
    {
        let ghost rest = lines_from(c@, start as int);
        let found = chars_find_from(&c, &newline, start);
        proof {
            lemma_find_from(c@, seq!['\n'], start as int);
        }
        let (raw, next) = match found {
            Some(i) => {
                let piece = sub_chars(&c, start, i);
                if piece.len() > 0 && piece[piece.len() - 1] == '\r' {
                    let shorter = sub_chars(&piece, 0, piece.len() - 1);
                    assert(shorter@ =~= piece@.drop_last());
                    assert(shorter@ =~= c@.subrange(start as int, i - 1));
                    (shorter, i + 1)
                } else {
                    (piece, i + 1)
                }
            },
            None => (sub_chars(&c, start, n), n),
        };
        assert(rest == seq![raw@] + lines_from(c@, next as int));
        proof {
            if found is Some {
                let i = found->0;
                if raw@.len() < i - start {
                    lemma_utf8_len_subrange(c@, start as int, i - 1);
                } else {
                    lemma_utf8_len_subrange(c@, start as int, i as int);
                }
            } else {
                lemma_utf8_len_subrange(c@, start as int, n as int);
            }
        }
        let (mut new_lines, image, new_code) = render_source_line(&raw, in_code, palette);
        let ghost before_lines = crate::style::lines_view(lines@);
        let ghost before_images = images_view(images@);
        let ghost before_map = line_map@;
        let ghost r = render_line(raw@, in_code, *palette);
        match image {
            Some((alt, src)) => {
                images.push(ImageRef { line: lines.len(), alt, src });
                assert(images_view(images@) =~= before_images.push(
                    (before_lines.len() as usize, (r.image->0).0, (r.image->0).1),
                ));
            },
            None => {},
        }
        let count = new_lines.len();
        let mut k: usize = 0;
        while k < count
            invariant
                0 <= k <= count,
                line_map@ == before_map + Seq::new(k as nat, |_i: int| src_idx),
            decreases count - k,
        {
            line_map.push(src_idx);
            assert(line_map@ =~= before_map + Seq::new((k + 1) as nat, |_i: int| src_idx));
            k = k + 1;
        }
        let ghost added = crate::style::lines_view(new_lines@);
        lines.append(&mut new_lines);
        assert(crate::style::lines_view(lines@) =~= before_lines + added);
        in_code = new_code;
        proof {
            let d2 = done.push(raw@);
            assert(d2.drop_last() =~= done);
            assert(d2.last() == raw@);
            assert(Seq::new(count as nat, |_i: int| src_idx) =~= Seq::new(
                r.lines.len(),
                |_i: int| (d2.len() - 1) as usize,
            ));
            assert(done + rest =~= d2 + lines_from(c@, next as int));
            done = d2;
        }
        src_idx = src_idx + 1;
        start = next;
    }
    assert(lines_from(c@, start as int) =~= Seq::<Seq<char>>::empty());
    assert(done =~= source_lines(c@));
    ParsedMarkdown { text: Text { lines }, images, line_map }
}

} // verus!

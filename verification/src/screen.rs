//! What the browser's screen shows, apart from the drawing itself: the rows
//! of the workspaces and folders panes with their icons and highlights, the
//! pane titles, the tab bar, the status bar, the notices and the geometry
//! of floating and reading areas. The front end lays these out and paints
//! them.
use vstd::prelude::*;
use crate::browser::{concat, owned, ActiveSection, AppState, AppView, FullscreenMode};
use crate::config::{workspace_order, ViewMode};
use crate::files::{is_markdown_file, is_media_file, is_video_file, lowercase, markdown_ext, media_ext, video_ext};
use crate::markdown::LineV;
use crate::palette::Palette;
use crate::style::{
    fg_mod_style, fg_style, lines_view, Color, Line, Modifier, Span, Style, MOD_BOLD, MOD_NONE,
};

verus! {

/// A character of a plain name: anything but a separator (`/` or `\\`),
/// the drive mark `:` and NUL. Spaces and letters of any script are
/// plain.
pub open spec fn name_char(c: char) -> bool {
    c != '/' && c != '\\' && c != ':' && c != '\0'
}

/// A `.` or `..` component begins at position `i` of `p`.
pub open spec fn dot_component_at(p: Seq<char>, i: int) -> bool {
    &&& p[i] == '.'
    &&& i == 0 || p[i - 1] == '/'
    &&& (i + 1 == p.len() || p[i + 1] == '/') || (i + 1 < p.len() && p[i + 1] == '.' && (i + 2 == p.len()
        || p[i + 2] == '/'))
}

/// A relative path of plain names joined by single `/`s: no `.` or `..`
/// component, nothing before the first name or after the last.
pub open spec fn plain_rel(p: Seq<char>) -> bool {
    &&& p.len() > 0
    &&& p[0] != '/'
    &&& p[p.len() - 1] != '/'
    &&& forall|i: int| 0 <= i < p.len() ==> name_char(#[trigger] p[i]) || p[i] == '/'
    &&& forall|i: int| 0 <= i < p.len() - 1 ==> !(#[trigger] p[i] == '/' && p[i + 1] == '/')
    &&& forall|i: int| 0 <= i < p.len() ==> !#[trigger] dot_component_at(p, i)
}

/// `p` without one leading `/` and one trailing `/`.
pub open spec fn path_core(p: Seq<char>) -> Seq<char> {
    let q = if p.len() > 0 && p[0] == '/' {
        p.drop_first()
    } else {
        p
    };
    if q.len() > 0 && q[q.len() - 1] == '/' {
        q.drop_last()
    } else {
        q
    }
}

/// A path that reads the same on every platform: plain names joined by
/// `/`, with at most one `/` in front and one behind.
pub open spec fn plain_path(p: Seq<char>) -> bool {
    plain_rel(path_core(p))
}

/// The last name of a plain path.
pub open spec fn last_name(p: Seq<char>) -> Seq<char> {
    crate::palette::last_segment(path_core(p), '/')
}

/// `path` relative to `base`, where both are plain: `base` (a plain path
/// without a trailing `/`) followed by `/` and a plain relative rest.
pub open spec fn relative_of(path: Seq<char>, base: Seq<char>) -> Option<Seq<char>> {
    if plain_path(base) && base.len() > 0 && base[base.len() - 1] != '/' && path.len() > base.len() + 1
        && path.subrange(0, base.len() as int) == base && path[base.len() as int] == '/' && plain_rel(
        path.subrange(base.len() + 1int, path.len() as int),
    ) {
        Some(path.subrange(base.len() + 1int, path.len() as int))
    } else {
        None
    }
}

/// Calls `std::path::Path::file_name` on `path` and returns the name as
/// text. The contract claims what its documentation gives on every
/// platform, where `/` separates components: a path that terminates in
/// `..` (here: `..` itself) has no file name, and the file name of a plain
/// path (`plain_path`, such as `tmp/foo.txt` or `/usr/bin/`) is its last
/// name, whatever letters and spaces its names hold. Paths with `\`, `:`
/// (drive letters) or a `//` prefix follow each platform's own rules and
/// are not stated.
#[verifier::external_body]
fn file_name(path: &str) -> (r: Option<String>)
    ensures
        path@ == ".."@ ==> r is None,
        plain_path(path@) ==> r is Some && r->0@ == last_name(path@),
{
    match std::path::Path::new(path).file_name() {
        Some(n) => Some(n.to_string_lossy().into_owned()),
        None => None,
    }
}

/// Calls `std::path::Path::strip_prefix` on `path` with `base` and returns
/// the rest as text, or `None` when `base` is not a prefix. The contract
/// claims what the documentation gives for plain paths on every platform:
/// `/test/haha/foo.txt` without `/test` is `haha/foo.txt` (see
/// `relative_of`). Other paths are not stated.
#[verifier::external_body]
fn strip_prefix(path: &str, base: &str) -> (r: Option<String>)
    ensures
        relative_of(path@, base@) is Some ==> r is Some && r->0@ == relative_of(path@, base@)->0,
{
    match std::path::Path::new(path).strip_prefix(base) {
        Ok(rest) => Some(rest.to_string_lossy().into_owned()),
        Err(_) => None,
    }
}

/// The last component of `path`, or `path` itself when it has none: the
/// last name of a plain path (`plain_path`), and `..` as it is.
pub fn display_name(path: &str) -> (r: String)
    ensures
        plain_path(path@) ==> r@ == last_name(path@),
        path@ == ".."@ ==> r@ == path@,
{
    match file_name(path) {
        Some(n) => n,
        None => owned(path),
    }
}

/// Whether a plain path starts at the root.
pub open spec fn rooted(p: Seq<char>) -> bool {
    p.len() > 0 && p[0] == '/'
}

/// The parent of a plain path: the names before its last one, keeping the
/// root; the root itself, or the empty path, when it has one name only.
pub open spec fn plain_parent(p: Seq<char>) -> Seq<char> {
    let c = path_core(p);
    let n = last_name(p);
    let root = if rooted(p) {
        "/"@
    } else {
        Seq::<char>::empty()
    };
    if n.len() < c.len() {
        root + c.subrange(0, c.len() - n.len() - 1)
    } else {
        root
    }
}

/// Calls `std::path::Path::parent` on `path` and returns the parent as
/// text. The contract claims what the documentation gives: the parent is
/// the path without its final component (so it is shorter than the path),
/// the empty path has none, and for a plain path (`plain_path`, such as
/// `/foo/bar` giving `/foo`, or `foo` giving the empty path) it is
/// `plain_parent`. Other paths are not stated.
#[verifier::external_body]
fn path_parent(path: &str) -> (r: Option<String>)
    ensures
        r is Some ==> r->0@.len() < path@.len(),
        path@.len() == 0 ==> r is None,
        plain_path(path@) ==> r is Some && r->0@ == plain_parent(path@),
{
    match std::path::Path::new(path).parent() {
        Some(d) => Some(d.to_string_lossy().into_owned()),
        None => None,
    }
}

/// The folder that contains `path`, if it has one: for a plain path
/// (`plain_path`) its `plain_parent`; always shorter than `path`; none for
/// the empty path.
pub fn parent_folder(path: &str) -> (r: Option<String>)
    ensures
        r is Some ==> r->0@.len() < path@.len(),
        path@.len() == 0 ==> r is None,
        plain_path(path@) ==> r is Some && r->0@ == plain_parent(path@),
{
    path_parent(path)
}

/// The last component of `path`, if it has one: for a plain path
/// (`plain_path`) its last name; none for `..`.
pub fn last_component(path: &str) -> (r: Option<String>)
    ensures
        plain_path(path@) ==> r is Some && r->0@ == last_name(path@),
        path@ == ".."@ ==> r is None,
{
    file_name(path)
}

/// What opening a pin needs next from the caller.
pub enum PinnedStep {
    /// Nothing more.
    Done,
    /// The browser moved to the pinned folder: read it, and keep the
    /// search results shown if `keep_results`.
    ReadFolder { keep_results: bool },
    /// Open the pinned file (`select_file`), then focus the viewer if
    /// `focus_viewer`.
    OpenFile { path: String, focus_viewer: bool },
}

impl AppState {
    /// Opens the pin `path` (see `Effect::OpenPinned`); `path_exists` says
    /// whether the disk still holds it. A folder becomes the current folder
    /// (`open_pinned_dir`); a file is handed back to be opened; a missing
    /// pin is reported when `missing_error`, and else ignored.
    pub fn open_pinned(
        &mut self,
        path: String,
        is_dir: bool,
        path_exists: bool,
        focus_viewer: bool,
        missing_error: bool,
    ) -> (r: PinnedStep)
        ensures
            path_exists && is_dir ==> r == (PinnedStep::ReadFolder { keep_results: missing_error }),
            path_exists && is_dir ==> final(self)@ == (AppView {
                current_dir: path@,
                active_section: ActiveSection::Folders,
                folder_index: 0,
                expanded_paths: if old(self).view_mode == ViewMode::Tree {
                    Seq::empty()
                } else {
                    old(self)@.expanded_paths
                },
                ..old(self)@
            }),
            path_exists && !is_dir ==> (r matches PinnedStep::OpenFile { path: p, focus_viewer: f } && p@ == path@
                && f == focus_viewer),
            path_exists && !is_dir ==> final(self)@ == old(self)@,
            !path_exists ==> r == PinnedStep::Done,
            !path_exists && missing_error ==> final(self)@ == (AppView {
                error: Some("Pinned item no longer exists"@),
                ..old(self)@
            }),
            !path_exists && !missing_error ==> final(self)@ == old(self)@,
    {
        if path_exists {
            if is_dir {
                self.open_pinned_dir(path);
                PinnedStep::ReadFolder { keep_results: missing_error }
            } else {
                PinnedStep::OpenFile { path, focus_viewer }
            }
        } else {
            if missing_error {
                self.report_pin_missing();
            }
            PinnedStep::Done
        }
    }

    /// Moves to the folder above the current one, if there is one (see
    /// `parent_folder`), and gives back the folder it left.
    pub fn go_up_dir(&mut self) -> (r: Option<String>)
        ensures
            match r {
                Some(o) => {
                    &&& o@ == old(self)@.current_dir
                    &&& final(self)@.current_dir.len() < o@.len()
                    &&& plain_path(o@) ==> final(self)@.current_dir == plain_parent(o@)
                    &&& final(self)@ == (AppView { current_dir: final(self)@.current_dir, ..old(self)@ })
                },
                None => final(self)@ == old(self)@ && !plain_path(old(self)@.current_dir),
            },
    {
        match parent_folder(self.current_dir.as_str()) {
            Some(d) => {
                let old_dir = crate::browser::copy_string(&self.current_dir);
                self.set_current_dir(d);
                Some(old_dir)
            },
            None => None,
        }
    }
}

/// A plain path without a trailing `/`.
pub open spec fn plain_dir(p: Seq<char>) -> bool {
    plain_path(p) && p[p.len() - 1] != '/'
}

/// `p` lies strictly inside `base`: `base`, a `/` and more.
pub open spec fn inside(p: Seq<char>, base: Seq<char>) -> bool {
    p.len() > base.len() + 1 && p.subrange(0, base.len() as int) == base && p[base.len() as int] == '/'
}

/// Calls `std::path::Path::starts_with`, which compares whole components.
/// The contract claims what that gives for plain paths without a trailing
/// `/` (`plain_dir`): `path` starts with `base` exactly when it is `base`
/// or lies inside it. Other paths are not stated.
#[verifier::external_body]
fn path_starts_with(path: &str, base: &str) -> (r: bool)
    ensures
        plain_dir(path@) && plain_dir(base@) ==> r == (path@ == base@ || inside(path@, base@)),
{
    std::path::Path::new(path).starts_with(base)
}

/// The folders between `current` and `parent` that tree view opens to show
/// a file in `parent`: `parent` itself, then each folder above it, as long
/// as it lies inside `current` and is not `current` itself. Each folder is
/// the parent (`parent_folder`) of the one before; for plain paths the list
/// ends at the first folder that is not inside `current`.
pub fn folders_to_expand(current: &str, parent: &str) -> (r: Vec<String>)
    ensures
        ({
            let v = crate::browser::strings_view(r@);
            &&& v.len() > 0 ==> v[0] == parent@
            &&& forall|k: int| 0 <= k < v.len() ==> #[trigger] v[k] != current@
            &&& forall|k: int|
                0 <= k < v.len() && plain_dir(v[k]) && plain_dir(current@) ==> inside(#[trigger] v[k], current@)
            &&& forall|k: int| 0 <= k && k + 1 < v.len() ==> #[trigger] v[k + 1].len() < v[k].len()
            &&& forall|k: int|
                0 <= k && k + 1 < v.len() && plain_path(v[k]) ==> #[trigger] v[k + 1] == plain_parent(v[k])
            &&& v.len() == 0 && plain_dir(parent@) && plain_dir(current@) ==> !inside(parent@, current@)
            &&& v.len() > 0 && plain_path(v[v.len() - 1]) && plain_dir(plain_parent(v[v.len() - 1])) && plain_dir(
                current@,
            ) ==> !inside(plain_parent(v[v.len() - 1]), current@)
        }),
{
    let mut out: Vec<String> = Vec::new();
    let mut p = owned(parent);
    loop
        invariant_except_break
            ({
                let v = crate::browser::strings_view(out@);
                &&& v.len() == 0 ==> p@ == parent@
                &&& v.len() > 0 ==> v[0] == parent@
                &&& v.len() > 0 ==> p@.len() < v[v.len() - 1].len()
                &&& v.len() > 0 && plain_path(v[v.len() - 1]) ==> p@ == plain_parent(v[v.len() - 1])
                &&& forall|k: int| 0 <= k < v.len() ==> #[trigger] v[k] != current@
                &&& forall|k: int|
                    0 <= k < v.len() && plain_dir(v[k]) && plain_dir(current@) ==> inside(#[trigger] v[k], current@)
                &&& forall|k: int| 0 <= k && k + 1 < v.len() ==> #[trigger] v[k + 1].len() < v[k].len()
                &&& forall|k: int|
                    0 <= k && k + 1 < v.len() && plain_path(v[k]) ==> #[trigger] v[k + 1] == plain_parent(v[k])
            }),
        ensures
            ({
                let v = crate::browser::strings_view(out@);
                &&& v.len() > 0 ==> v[0] == parent@
                &&& forall|k: int| 0 <= k < v.len() ==> #[trigger] v[k] != current@
                &&& forall|k: int|
                    0 <= k < v.len() && plain_dir(v[k]) && plain_dir(current@) ==> inside(#[trigger] v[k], current@)
                &&& forall|k: int| 0 <= k && k + 1 < v.len() ==> #[trigger] v[k + 1].len() < v[k].len()
                &&& forall|k: int|
                    0 <= k && k + 1 < v.len() && plain_path(v[k]) ==> #[trigger] v[k + 1] == plain_parent(v[k])
                &&& v.len() == 0 && plain_dir(parent@) && plain_dir(current@) ==> !inside(parent@, current@)
                &&& v.len() > 0 && plain_path(v[v.len() - 1]) && plain_dir(plain_parent(v[v.len() - 1]))
                    && plain_dir(current@) ==> !inside(plain_parent(v[v.len() - 1]), current@)
            }),
        decreases p@.len(),
    {
        let ghost before = crate::browser::strings_view(out@);
        if !path_starts_with(p.as_str(), current) || crate::chars::str_eq(p.as_str(), current) {
            break;
        }
        let next = parent_folder(p.as_str());
        out.push(crate::browser::copy_string(&p));
        proof {
            let v = crate::browser::strings_view(out@);
            assert(v =~= before.push(p@));
        }
        match next {
            Some(q) => {
                p = q;
            },
            None => {
                proof {
                    assert(!plain_path(p@));
                }
                break;
            },
        }
    }
    out
}

impl AppState {
    /// The tree-view row of `entry`, listed in the folder `dir` at `depth`,
    /// and whether the tree goes on into it: a folder that is expanded.
    pub fn tree_node_of(&self, entry: crate::listing::FileEntry, dir: &str, depth: usize) -> (r: (
        crate::browser::TuiTreeNode,
        bool,
    ))
        ensures
            r.0@ == (entry.name@, entry.path@, entry.is_dir, depth, Some(dir@)),
            r.1 == (entry.is_dir && self@.expanded_paths.contains(entry.path@)),
    {
        let descend = entry.is_dir && self.is_expanded(entry.path.as_str());
        let node = crate::browser::TuiTreeNode {
            name: entry.name,
            path: entry.path,
            is_dir: entry.is_dir,
            depth,
            parent_path: Some(owned(dir)),
        };
        (node, descend)
    }
}

/// The text a copy key puts on the clipboard: `y` copies the path, `Y` its
/// last component (see `display_name`).
pub fn copy_text(path: &str, name_only: bool) -> (r: String)
    ensures
        !name_only ==> r@ == path@,
        name_only ==> shown_name_ok(path@, r@),
{
    if name_only {
        display_name(path)
    } else {
        owned(path)
    }
}

/// The style with no colour and the modifiers `m`.
pub open spec fn mod_style(m: u16) -> Style {
    Style { fg: None, bg: None, add_modifier: Modifier { bits: m } }
}

/// The style that changes nothing.
pub open spec fn plain_style() -> Style {
    mod_style(MOD_NONE)
}

/// The icon in front of an entry: a folder, a video, another media file, a
/// Markdown file, or blank space for anything else.
pub open spec fn file_icon(is_dir: bool, path: Seq<char>, name: Seq<char>) -> Seq<char> {
    if is_dir {
        "📁 "@
    } else if media_ext(lowercase(path)) {
        if video_ext(lowercase(name)) {
            "🎥 "@
        } else {
            "🖼️ "@
        }
    } else if markdown_ext(lowercase(name)) {
        "📄 "@
    } else {
        "   "@
    }
}

/// An entry the viewer can show: a folder, a Markdown file or a media file.
/// Other entries are dimmed.
pub open spec fn readable(is_dir: bool, path: Seq<char>, name: Seq<char>) -> bool {
    is_dir || markdown_ext(lowercase(name)) || media_ext(lowercase(path))
}

/// The highlight of a row: the cursor's row in the accent colour, the open
/// file in bold on the open-file background, other rows in the primary
/// colour or dimmed.
pub open spec fn row_style(p: Palette, selected: bool, open: bool, readable: bool) -> Style {
    if selected {
        Style { fg: Some(Color::White), bg: Some(p.accent), add_modifier: Modifier { bits: MOD_NONE } }
    } else if open {
        Style { fg: Some(p.accent), bg: Some(p.open_bg), add_modifier: Modifier { bits: MOD_BOLD } }
    } else if readable {
        fg_style(p.text_primary)
    } else {
        fg_style(p.text_dimmed)
    }
}

/// The icon for an entry (see `file_icon`).
pub fn entry_icon(is_dir: bool, path: &str, name: &str) -> (r: String)
    ensures
        r@ == file_icon(is_dir, path@, name@),
{
    if is_dir {
        owned("📁 ")
    } else if is_media_file(path) {
        if is_video_file(name) {
            owned("🎥 ")
        } else {
            owned("🖼️ ")
        }
    } else if is_markdown_file(name) {
        owned("📄 ")
    } else {
        owned("   ")
    }
}

/// The highlight of a row (see `row_style`).
pub fn entry_style(p: &Palette, selected: bool, open: bool, is_dir: bool, path: &str, name: &str) -> (r:
    Style)
    ensures
        r == row_style(*p, selected, open, readable(is_dir, path@, name@)),
{
    if selected {
        Style::new().bg(p.accent).fg(Color::White)
    } else if open {
        Style { fg: Some(p.accent), bg: Some(p.open_bg), add_modifier: Modifier { bits: MOD_BOLD } }
    } else if is_dir || is_markdown_file(name) || is_media_file(path) {
        Style::new().fg(p.text_primary)
    } else {
        Style::new().fg(p.text_dimmed)
    }
}

/// One item of a list pane: its lines, and the highlight of the whole item.
#[derive(Clone, Debug)]
pub struct ListRow {
    pub lines: Vec<Line>,
    pub style: Style,
}

impl View for ListRow {
    type V = (Seq<LineV>, Style);

    open spec fn view(&self) -> (Seq<LineV>, Style) {
        (lines_view(self.lines@), self.style)
    }
}

/// A line of the given spans.
fn line_of(spans: Vec<Span>) -> (r: Line)
    ensures
        r@ == crate::style::spans_view(spans@),
{
    Line::from_spans(spans)
}

/// A span of a copy of `text` in `style`.
fn span(text: &str, style: Style) -> (r: Span)
    ensures
        r@ == (text@, style),
{
    Span::styled(owned(text), style)
}

/// The row of a folder entry in list view.
pub open spec fn list_row(e: (Seq<char>, Seq<char>, bool), selected: bool, open: bool, p: Palette) -> (
    Seq<LineV>,
    Style,
) {
    (
        seq![seq![(file_icon(e.2, e.1, e.0), fg_style(p.text_secondary)), (e.0, plain_style())]],
        row_style(p, selected, open, readable(e.2, e.1, e.0)),
    )
}

/// The row of a search result: icon and bold name, then the path relative
/// to the searched folder (`rel`).
pub open spec fn search_row(
    e: (Seq<char>, Seq<char>, bool),
    rel: Seq<char>,
    selected: bool,
    open: bool,
    p: Palette,
) -> (Seq<LineV>, Style) {
    (
        seq![
            seq![(file_icon(e.2, e.1, e.0), fg_style(p.text_secondary)), (e.0, mod_style(MOD_BOLD))],
            seq![("  "@ + rel, fg_style(p.text_secondary))],
        ],
        row_style(p, selected, open, readable(e.2, e.1, e.0)),
    )
}

/// The row shown when a search found nothing.
pub open spec fn no_results_row(p: Palette) -> (Seq<LineV>, Style) {
    (seq![seq![("  No results found."@, fg_style(p.text_dimmed))]], plain_style())
}

/// `n` spaces.
pub open spec fn spaces(n: nat) -> Seq<char> {
    Seq::new(n, |_i: int| ' ')
}

/// The row of a node in tree view: indented two spaces per level, an open
/// or closed chevron for a folder, its icon and its name.
pub open spec fn tree_row(
    n: (Seq<char>, Seq<char>, bool, usize, Option<Seq<char>>),
    expanded: bool,
    selected: bool,
    open: bool,
    p: Palette,
) -> (Seq<LineV>, Style) {
    let chevron = if n.2 {
        if expanded {
            "▼ "@
        } else {
            "▶ "@
        }
    } else {
        "  "@
    };
    (
        seq![
            seq![
                (spaces((2 * n.3) as nat), plain_style()),
                (chevron, fg_style(p.text_secondary)),
                (file_icon(n.2, n.1, n.0), fg_style(p.text_secondary)),
                (n.0, plain_style()),
            ],
        ],
        row_style(p, selected, open, readable(n.2, n.1, n.0)),
    )
}

/// The row of a pin: its icon and bold name, then its full path.
pub open spec fn workspace_row(pin: (Seq<char>, bool), name: Seq<char>, selected: bool, p: Palette) -> (
    Seq<LineV>,
    Style,
) {
    (
        seq![
            seq![
                (if pin.1 {
                    "📌 "@
                } else {
                    "📄 "@
                }, fg_style(p.accent)),
                (name, mod_style(MOD_BOLD)),
            ],
            seq![("  "@ + pin.0, fg_style(p.text_secondary))],
        ],
        if selected {
            Style { fg: Some(Color::White), bg: Some(p.accent), add_modifier: Modifier { bits: MOD_NONE } }
        } else {
            fg_style(p.text_primary)
        },
    )
}

/// `n` spaces as a string.
fn space_string(n: usize) -> (r: String)
    ensures
        r@ == spaces(n as nat),
{
    let mut out = String::new();
    let mut i: usize = 0;
    while i < n
        invariant
            i <= n,
            out@ == spaces(i as nat),
        decreases n - i,
    {
        crate::chars::push_char(&mut out, ' ');
        assert(out@ =~= spaces((i + 1) as nat));
        i = i + 1;
    }
    out
}

/// The row of a folder entry in list view (see `list_row`).
pub fn make_list_row(name: &str, path: &str, is_dir: bool, selected: bool, open: bool, p: &Palette) -> (r:
    ListRow)
    ensures
        r@ == list_row((name@, path@, is_dir), selected, open, *p),
{
    let mut spans: Vec<Span> = Vec::new();
    spans.push(Span::styled(entry_icon(is_dir, path, name), Style::new().fg(p.text_secondary)));
    spans.push(span(name, Style::new()));
    let mut lines: Vec<Line> = Vec::new();
    lines.push(line_of(spans));
    let r = ListRow { lines, style: entry_style(p, selected, open, is_dir, path, name) };
    assert(r@.0 =~~= list_row((name@, path@, is_dir), selected, open, *p).0);
    r
}

/// The row of a search result (see `search_row`).
pub fn make_search_row(
    name: &str,
    path: &str,
    is_dir: bool,
    rel: &str,
    selected: bool,
    open: bool,
    p: &Palette,
) -> (r: ListRow)
    ensures
        r@ == search_row((name@, path@, is_dir), rel@, selected, open, *p),
{
    let mut first: Vec<Span> = Vec::new();
    first.push(Span::styled(entry_icon(is_dir, path, name), Style::new().fg(p.text_secondary)));
    first.push(span(name, Style { fg: None, bg: None, add_modifier: Modifier { bits: MOD_BOLD } }));
    let mut second: Vec<Span> = Vec::new();
    second.push(Span::styled(concat("  ", rel), Style::new().fg(p.text_secondary)));
    let mut lines: Vec<Line> = Vec::new();
    lines.push(line_of(first));
    lines.push(line_of(second));
    let r = ListRow { lines, style: entry_style(p, selected, open, is_dir, path, name) };
    assert(r@.0 =~~= search_row((name@, path@, is_dir), rel@, selected, open, *p).0);
    r
}

/// The row of a node in tree view (see `tree_row`).
pub fn make_tree_row(
    node: &crate::browser::TuiTreeNode,
    expanded: bool,
    selected: bool,
    open: bool,
    p: &Palette,
) -> (r: ListRow)
    requires
        2 * node.depth <= usize::MAX,
    ensures
        r@ == tree_row(node@, expanded, selected, open, *p),
{
    let chevron = if node.is_dir {
        if expanded {
            owned("▼ ")
        } else {
            owned("▶ ")
        }
    } else {
        owned("  ")
    };
    let indent = space_string(2 * node.depth);
    let mut spans: Vec<Span> = Vec::new();
    spans.push(Span::styled(indent, Style::new()));
    spans.push(Span::styled(chevron, Style::new().fg(p.text_secondary)));
    spans.push(
        Span::styled(
            entry_icon(node.is_dir, node.path.as_str(), node.name.as_str()),
            Style::new().fg(p.text_secondary),
        ),
    );
    spans.push(span(node.name.as_str(), Style::new()));
    let mut lines: Vec<Line> = Vec::new();
    lines.push(line_of(spans));
    let r = ListRow {
        lines,
        style: entry_style(p, selected, open, node.is_dir, node.path.as_str(), node.name.as_str()),
    };
    assert(r@.0 =~~= tree_row(node@, expanded, selected, open, *p).0);
    r
}

/// The views of a list of rows.
pub open spec fn rows_view(rows: Seq<ListRow>) -> Seq<(Seq<LineV>, Style)> {
    rows.map_values(|r: ListRow| r@)
}

/// The path a search-result row shows below the name.
pub open spec fn shown_rel(row: (Seq<LineV>, Style)) -> Seq<char> {
    row.0[1][0].0.subrange(2, row.0[1][0].0.len() as int)
}

/// The name a row of the workspaces pane shows.
pub open spec fn shown_name(row: (Seq<LineV>, Style)) -> Seq<char> {
    row.0[0][1].0
}

/// Row `i` of the folders pane has the cursor (and the pane the focus).
pub open spec fn row_selected(s: AppView, i: int) -> bool {
    i == s.folder_index && s.active_section == ActiveSection::Folders
}

/// Pin `i` of the workspaces pane has the cursor (and the pane the focus).
pub open spec fn pin_selected(s: AppView, i: int) -> bool {
    i == s.workspace_index && s.active_section == ActiveSection::Workspaces
}

/// `path` is the file open in the viewer.
pub open spec fn is_open(s: AppView, path: Seq<char>) -> bool {
    s.selected_file == Some(path)
}

/// The rows of the folders pane: the search results while a search is
/// shown (each with its path relative to the current folder, or a single
/// line saying there are none), else the listing or the tree rows.
pub open spec fn folder_rows_spec(s: AppView, p: Palette, rows: Seq<(Seq<LineV>, Style)>) -> bool {
    match s.cached_search_results {
        Some(res) => if res.len() == 0 {
            rows == seq![no_results_row(p)]
        } else {
            &&& rows.len() == res.len()
            &&& forall|i: int|
                0 <= i < res.len() ==> #[trigger] rows[i] == search_row(
                    res[i],
                    shown_rel(rows[i]),
                    row_selected(s, i),
                    is_open(s, res[i].1),
                    p,
                )
            &&& forall|i: int|
                0 <= i < res.len() && relative_of(res[i].1, s.current_dir) is Some ==> shown_rel(
                    #[trigger] rows[i],
                ) == relative_of(res[i].1, s.current_dir)->0
        },
        None => match s.view_mode {
            ViewMode::List => rows == Seq::new(
                s.entries.len(),
                |i: int| list_row(s.entries[i], row_selected(s, i), is_open(s, s.entries[i].1), p),
            ),
            ViewMode::Tree => rows == Seq::new(
                s.tree.len(),
                |i: int|
                    tree_row(
                        s.tree[i],
                        s.expanded_paths.contains(s.tree[i].1),
                        row_selected(s, i),
                        is_open(s, s.tree[i].1),
                        p,
                    ),
            ),
        },
    }
}

/// The rows of the workspaces pane, in its order, each with the pin's name
/// (its last path component, or the whole path): the last name of a plain
/// path, and `..` as it is.
pub open spec fn workspace_rows_spec(s: AppView, p: Palette, rows: Seq<(Seq<LineV>, Style)>) -> bool {
    let ws = workspace_order(s.pins);
    &&& rows.len() == ws.len()
    &&& forall|i: int|
        0 <= i < ws.len() ==> #[trigger] rows[i] == workspace_row(
                ws[i],
                shown_name(rows[i]),
                pin_selected(s, i),
                p,
            )
    &&& forall|i: int| 0 <= i < ws.len() ==> shown_name_ok(ws[i].0, shown_name(#[trigger] rows[i]))
}

/// `name` is what a row shows for `path`: the last name of a plain path,
/// and `..` as it is.
pub open spec fn shown_name_ok(path: Seq<char>, name: Seq<char>) -> bool {
    &&& plain_path(path) ==> name == last_name(path)
    &&& path == ".."@ ==> name == path
}

/// Whether `a` is `Some(b)`.
fn opt_is(a: &Option<String>, b: &str) -> (r: bool)
    ensures
        r == (crate::browser::opt_chars(*a) == Some(b@)),
{
    match a {
        Some(x) => crate::chars::str_eq(x.as_str(), b),
        None => false,
    }
}

impl AppState {
    /// The rows of the search results `res` (see `folder_rows_spec`).
    fn search_rows(&self, res: &Vec<crate::listing::FileEntry>, p: &Palette) -> (r: Vec<ListRow>)
        ensures
            rows_view(r@).len() == res@.len(),
            forall|i: int|
                0 <= i < res@.len() ==> #[trigger] rows_view(r@)[i] == search_row(
                    res@[i]@,
                    shown_rel(rows_view(r@)[i]),
                    row_selected(self@, i),
                    is_open(self@, res@[i]@.1),
                    *p,
                ),
            forall|i: int|
                0 <= i < res@.len() && relative_of(res@[i]@.1, self@.current_dir) is Some ==> shown_rel(
                    #[trigger] rows_view(r@)[i],
                ) == relative_of(res@[i]@.1, self@.current_dir)->0,
    {
        let ghost s = self@;
        let focused = self.active_section == ActiveSection::Folders;
        let mut out: Vec<ListRow> = Vec::new();
        let mut i: usize = 0;
        while i < res.len()
            invariant
                i <= res@.len(),
                s == self@,
                focused == (s.active_section == ActiveSection::Folders),
                out@.len() == i,
                forall|j: int|
                    0 <= j < i ==> #[trigger] rows_view(out@)[j] == search_row(
                        res@[j]@,
                        shown_rel(rows_view(out@)[j]),
                        row_selected(s, j),
                        is_open(s, res@[j]@.1),
                        *p,
                    ),
                forall|j: int|
                    0 <= j < i && relative_of(res@[j]@.1, s.current_dir) is Some ==> shown_rel(
                        #[trigger] rows_view(out@)[j],
                    ) == relative_of(res@[j]@.1, s.current_dir)->0,
            decreases res@.len() - i,
        {
            let e = &res[i];
            let rel = match strip_prefix(e.path.as_str(), self.current_dir.as_str()) {
                Some(t) => t,
                None => crate::browser::copy_string(&e.path),
            };
            let selected = focused && i == self.folder_index;
            let open = opt_is(&self.selected_file, e.path.as_str());
            let row = make_search_row(e.name.as_str(), e.path.as_str(), e.is_dir, rel.as_str(), selected, open, p);
            proof {
                reveal_strlit("  ");
                assert(("  "@ + rel@).subrange(2, ("  "@ + rel@).len() as int) =~= rel@);
                assert(shown_rel(row@) == rel@);
            }
            let ghost before = out@;
            out.push(row);
            proof {
                assert forall|j: int| 0 <= j < i + 1 implies #[trigger] rows_view(out@)[j] == search_row(
                    res@[j]@,
                    shown_rel(rows_view(out@)[j]),
                    row_selected(s, j),
                    is_open(s, res@[j]@.1),
                    *p,
                ) by {
                    if j < i {
                        assert(rows_view(out@)[j] == rows_view(before)[j]);
                    } else {
                        assert(rows_view(out@)[j] == row@);
                    }
                }
                assert forall|j: int|
                    0 <= j < i + 1 && relative_of(res@[j]@.1, s.current_dir) is Some implies shown_rel(
                        #[trigger] rows_view(out@)[j],
                    ) == relative_of(res@[j]@.1, s.current_dir)->0 by {
                    if j < i {
                        assert(rows_view(out@)[j] == rows_view(before)[j]);
                    } else {
                        assert(rows_view(out@)[j] == row@);
                    }
                }
            }
            i = i + 1;
        }
        out
    }

    /// The rows of the listing in list view (see `folder_rows_spec`).
    fn list_rows(&self, p: &Palette) -> (r: Vec<ListRow>)
        ensures
            rows_view(r@) == Seq::new(
                self@.entries.len(),
                |i: int| list_row(self@.entries[i], row_selected(self@, i), is_open(self@, self@.entries[i].1), *p),
            ),
    {
        let ghost s = self@;
        let focused = self.active_section == ActiveSection::Folders;
        let mut out: Vec<ListRow> = Vec::new();
        let mut i: usize = 0;
        while i < self.entries.len()
            invariant
                i <= self.entries@.len(),
                s == self@,
                focused == (s.active_section == ActiveSection::Folders),
                out@.len() == i,
                forall|j: int|
                    0 <= j < i ==> #[trigger] rows_view(out@)[j] == list_row(
                        s.entries[j],
                        row_selected(s, j),
                        is_open(s, s.entries[j].1),
                        *p,
                    ),
            decreases self.entries@.len() - i,
        {
            let e = &self.entries[i];
            let selected = focused && i == self.folder_index;
            let open = opt_is(&self.selected_file, e.path.as_str());
            let row = make_list_row(e.name.as_str(), e.path.as_str(), e.is_dir, selected, open, p);
            let ghost before = out@;
            out.push(row);
            proof {
                assert forall|j: int| 0 <= j < i + 1 implies #[trigger] rows_view(out@)[j] == list_row(
                    s.entries[j],
                    row_selected(s, j),
                    is_open(s, s.entries[j].1),
                    *p,
                ) by {
                    if j < i {
                        assert(rows_view(out@)[j] == rows_view(before)[j]);
                    }
                }
            }
            i = i + 1;
        }
        assert(rows_view(out@) =~= Seq::new(
            self@.entries.len(),
            |i: int| list_row(self@.entries[i], row_selected(self@, i), is_open(self@, self@.entries[i].1), *p),
        ));
        out
    }

    /// The rows of the tree view (see `folder_rows_spec`).
    fn tree_rows(&self, p: &Palette) -> (r: Vec<ListRow>)
        requires
            forall|i: int| 0 <= i < self.tree@.len() ==> 2 * (#[trigger] self.tree@[i]).depth <= usize::MAX,
        ensures
            rows_view(r@) == Seq::new(
                self@.tree.len(),
                |i: int|
                    tree_row(
                        self@.tree[i],
                        self@.expanded_paths.contains(self@.tree[i].1),
                        row_selected(self@, i),
                        is_open(self@, self@.tree[i].1),
                        *p,
                    ),
            ),
    {
        let ghost s = self@;
        let focused = self.active_section == ActiveSection::Folders;
        let mut out: Vec<ListRow> = Vec::new();
        let mut i: usize = 0;
        while i < self.tree.len()
            invariant
                i <= self.tree@.len(),
                s == self@,
                focused == (s.active_section == ActiveSection::Folders),
                forall|k: int| 0 <= k < self.tree@.len() ==> 2 * (#[trigger] self.tree@[k]).depth <= usize::MAX,
                out@.len() == i,
                forall|j: int|
                    0 <= j < i ==> #[trigger] rows_view(out@)[j] == tree_row(
                        s.tree[j],
                        s.expanded_paths.contains(s.tree[j].1),
                        row_selected(s, j),
                        is_open(s, s.tree[j].1),
                        *p,
                    ),
            decreases self.tree@.len() - i,
        {
            let n = &self.tree[i];
            let selected = focused && i == self.folder_index;
            let open = opt_is(&self.selected_file, n.path.as_str());
            let expanded = self.is_expanded(n.path.as_str());
            let row = make_tree_row(n, expanded, selected, open, p);
            let ghost before = out@;
            out.push(row);
            proof {
                assert forall|j: int| 0 <= j < i + 1 implies #[trigger] rows_view(out@)[j] == tree_row(
                    s.tree[j],
                    s.expanded_paths.contains(s.tree[j].1),
                    row_selected(s, j),
                    is_open(s, s.tree[j].1),
                    *p,
                ) by {
                    if j < i {
                        assert(rows_view(out@)[j] == rows_view(before)[j]);
                    }
                }
            }
            i = i + 1;
        }
        assert(rows_view(out@) =~= Seq::new(
            self@.tree.len(),
            |i: int|
                tree_row(
                    self@.tree[i],
                    self@.expanded_paths.contains(self@.tree[i].1),
                    row_selected(self@, i),
                    is_open(self@, self@.tree[i].1),
                    *p,
                ),
        ));
        out
    }

    /// The rows of the folders pane (see `folder_rows_spec`).
    pub fn folder_rows(&self, p: &Palette) -> (r: Vec<ListRow>)
        requires
            forall|i: int| 0 <= i < self.tree@.len() ==> 2 * (#[trigger] self.tree@[i]).depth <= usize::MAX,
        ensures
            folder_rows_spec(self@, *p, rows_view(r@)),
    {
        match &self.cached_search_results {
            Some(res) => {
                if res.len() == 0 {
                    let mut spans: Vec<Span> = Vec::new();
                    spans.push(span("  No results found.", Style::new().fg(p.text_dimmed)));
                    let mut lines: Vec<Line> = Vec::new();
                    lines.push(line_of(spans));
                    let mut out: Vec<ListRow> = Vec::new();
                    out.push(ListRow { lines, style: Style::new() });
                    assert(rows_view(out@) =~~= seq![no_results_row(*p)]);
                    out
                } else {
                    let out = self.search_rows(res, p);
                    proof {
                        let rv = crate::browser::entries_view(res@);
                        assert forall|i: int| 0 <= i < rv.len() implies #[trigger] rows_view(out@)[i] == search_row(
                            rv[i],
                            shown_rel(rows_view(out@)[i]),
                            row_selected(self@, i),
                            is_open(self@, rv[i].1),
                            *p,
                        ) by {
                            assert(rv[i] == res@[i]@);
                        }
                        assert forall|i: int|
                            0 <= i < rv.len() && relative_of(rv[i].1, self@.current_dir) is Some implies shown_rel(
                                #[trigger] rows_view(out@)[i],
                            ) == relative_of(rv[i].1, self@.current_dir)->0 by {
                            assert(rv[i] == res@[i]@);
                        }
                    }
                    out
                }
            },
            None => match self.view_mode {
                ViewMode::List => self.list_rows(p),
                ViewMode::Tree => self.tree_rows(p),
            },
        }
    }

    /// The rows of the workspaces pane (see `workspace_rows_spec`).
    pub fn workspace_rows(&self, p: &Palette) -> (r: Vec<ListRow>)
        ensures
            workspace_rows_spec(self@, *p, rows_view(r@)),
    {
        let ghost s = self@;
        let ws = self.get_sorted_workspaces();
        let ghost wv = crate::config::pins_view(ws@);
        let focused = self.active_section == ActiveSection::Workspaces;
        let mut out: Vec<ListRow> = Vec::new();
        let mut i: usize = 0;
        while i < ws.len()
            invariant
                i <= ws@.len(),
                s == self@,
                wv == crate::config::pins_view(ws@),
                wv == workspace_order(s.pins),
                focused == (s.active_section == ActiveSection::Workspaces),
                out@.len() == i,
                forall|j: int|
                    0 <= j < i ==> #[trigger] rows_view(out@)[j] == workspace_row(
                        wv[j],
                        shown_name(rows_view(out@)[j]),
                        pin_selected(s, j),
                        *p,
                    ),
                forall|j: int| 0 <= j < i ==> shown_name_ok(wv[j].0, shown_name(#[trigger] rows_view(out@)[j])),
            decreases ws@.len() - i,
        {
            let item = &ws[i];
            let name = display_name(item.path.as_str());
            proof {
                assert(wv[i as int].0 == item.path@);
                assert(shown_name_ok(wv[i as int].0, name@));
            }
            let selected = focused && i == self.workspace_index;
            let icon = if item.is_dir {
                owned("📌 ")
            } else {
                owned("📄 ")
            };
            let mut first: Vec<Span> = Vec::new();
            first.push(Span::styled(icon, Style::new().fg(p.accent)));
            first.push(Span::styled(name, Style { fg: None, bg: None, add_modifier: Modifier { bits: MOD_BOLD } }));
            let mut second: Vec<Span> = Vec::new();
            second.push(Span::styled(concat("  ", item.path.as_str()), Style::new().fg(p.text_secondary)));
            let mut lines: Vec<Line> = Vec::new();
            lines.push(line_of(first));
            lines.push(line_of(second));
            let style = if selected {
                Style::new().bg(p.accent).fg(Color::White)
            } else {
                Style::new().fg(p.text_primary)
            };
            let row = ListRow { lines, style };
            let ghost before = out@;
            proof {
                assert(row@ =~~= workspace_row(
                    wv[i as int],
                    name@,
                    pin_selected(s, i as int),
                    *p,
                ));
            }
            out.push(row);
            proof {
                assert forall|j: int| 0 <= j < i + 1 implies #[trigger] rows_view(out@)[j] == workspace_row(
                    wv[j],
                    shown_name(rows_view(out@)[j]),
                    pin_selected(s, j),
                    *p,
                ) by {
                    if j < i {
                        assert(rows_view(out@)[j] == rows_view(before)[j]);
                    } else {
                        assert(rows_view(out@)[j] == row@);
                    }
                }
                assert forall|j: int| 0 <= j < i + 1 implies shown_name_ok(
                    wv[j].0,
                    shown_name(#[trigger] rows_view(out@)[j]),
                ) by {
                    if j < i {
                        assert(rows_view(out@)[j] == rows_view(before)[j]);
                    } else {
                        assert(rows_view(out@)[j] == row@);
                    }
                }
            }
            i = i + 1;
        }
        out
    }
}

/// `a`, `b` and `c` one after the other.
fn concat3(a: &str, b: &str, c: &str) -> (r: String)
    ensures
        r@ == a@ + b@ + c@,
{
    let ab = concat(a, b);
    concat(ab.as_str(), c)
}

/// The title of the folders pane: the search and its folder while a query
/// is set, else the view mode and the current folder.
pub open spec fn folders_title_spec(s: AppView) -> Seq<char> {
    match s.search_query {
        Some(q) => "🔍 Search: \""@ + q + "\" in "@ + s.current_dir,
        None => "📁 Folders ("@ + (match s.view_mode {
            ViewMode::List => "List"@,
            ViewMode::Tree => "Tree"@,
        }) + ") ( 'v' mode ): "@ + s.current_dir,
    }
}

/// The text of a tab: a filled circle for the open file, an empty one for
/// the others, and the file's name.
pub open spec fn tab_text(name: Seq<char>, active: bool) -> Seq<char> {
    (if active {
        " ◉ "@
    } else {
        " ○ "@
    }) + name + " "@
}

/// The style of a tab.
pub open spec fn tab_style(active: bool, p: Palette) -> Style {
    if active {
        Style { fg: Some(p.text_primary), bg: Some(p.accent_soft), add_modifier: Modifier { bits: MOD_BOLD } }
    } else {
        fg_style(p.text_secondary)
    }
}

/// The name a tab shows (its text without the circle and the padding).
pub open spec fn shown_tab_name(t: Seq<char>) -> Seq<char> {
    t.subrange(3, t.len() - 1)
}

/// The tab bar: one span per open file, in order, separated by bars; the
/// tab of the open file highlighted; each tab showing its file's name (see
/// `shown_name_ok`).
pub open spec fn tab_bar_spec(s: AppView, p: Palette, spans: Seq<(Seq<char>, Style)>) -> bool {
    let n = s.open_files.len();
    &&& spans.len() == if n == 0 {
        0
    } else {
        2 * n - 1
    }
    &&& forall|i: int|
        0 <= i < n ==> #[trigger] spans[2 * i] == (
            tab_text(shown_tab_name(spans[2 * i].0), is_open(s, s.open_files[i])),
            tab_style(is_open(s, s.open_files[i]), p),
        )
    &&& forall|i: int| 1 <= i < n ==> #[trigger] spans[2 * i - 1] == (" │ "@, fg_style(p.border_inactive))
    &&& forall|i: int|
        0 <= i < n ==> shown_name_ok(s.open_files[i], shown_tab_name(#[trigger] spans[2 * i].0))
}

impl AppState {
    /// The title of the folders pane (see `folders_title_spec`).
    pub fn folders_title(&self) -> (r: String)
        ensures
            r@ == folders_title_spec(self@),
    {
        match &self.search_query {
            Some(q) => {
                let head = concat3("🔍 Search: \"", q.as_str(), "\" in ");
                concat(head.as_str(), self.current_dir.as_str())
            },
            None => {
                let mode = match self.view_mode {
                    ViewMode::List => "List",
                    ViewMode::Tree => "Tree",
                };
                let head = concat3("📁 Folders (", mode, ") ( 'v' mode ): ");
                concat(head.as_str(), self.current_dir.as_str())
            },
        }
    }

    /// The spans of the tab bar (see `tab_bar_spec`).
    pub fn tab_spans(&self, p: &Palette) -> (r: Vec<Span>)
        ensures
            tab_bar_spec(self@, *p, crate::style::spans_view(r@)),
    {
        let ghost s = self@;
        let mut out: Vec<Span> = Vec::new();
        let mut i: usize = 0;
        proof {
            reveal_strlit(" ◉ ");
            reveal_strlit(" ○ ");
            reveal_strlit(" ");
        }
        while i < self.open_files.len()
            invariant
                i <= self.open_files@.len(),
                s == self@,
                " ◉ "@.len() == 3,
                " ○ "@.len() == 3,
                " "@.len() == 1,
                out@.len() == if i == 0 {
                    0
                } else {
                    2 * i - 1
                },
                forall|k: int|
                    0 <= k < i ==> #[trigger] crate::style::spans_view(out@)[2 * k] == (
                        tab_text(shown_tab_name(crate::style::spans_view(out@)[2 * k].0), is_open(s, s.open_files[k])),
                        tab_style(is_open(s, s.open_files[k]), *p),
                    ),
                forall|k: int|
                    1 <= k < i ==> #[trigger] crate::style::spans_view(out@)[2 * k - 1] == (
                        " │ "@,
                        fg_style(p.border_inactive),
                    ),
                forall|k: int|
                    0 <= k < i ==> shown_name_ok(
                        s.open_files[k],
                        shown_tab_name((#[trigger] crate::style::spans_view(out@)[2 * k]).0),
                    ),
            decreases self.open_files@.len() - i,
        {
            let path = &self.open_files[i];
            let name = display_name(path.as_str());
            let active = opt_is(&self.selected_file, path.as_str());
            let ghost before = crate::style::spans_view(out@);
            if i > 0 {
                out.push(span(" │ ", Style::new().fg(p.border_inactive)));
            }
            let text = if active {
                concat3(" ◉ ", name.as_str(), " ")
            } else {
                concat3(" ○ ", name.as_str(), " ")
            };
            let style = if active {
                Style { fg: Some(p.text_primary), bg: Some(p.accent_soft), add_modifier: Modifier { bits: MOD_BOLD } }
            } else {
                Style::new().fg(p.text_secondary)
            };
            proof {
                assert(shown_tab_name(text@) =~= name@);
                assert(s.open_files[i as int] == path@);
            }
            out.push(Span::styled(text, style));
            proof {
                let sv = crate::style::spans_view(out@);
                assert(sv[2 * i as int] == (text@, style));
                assert forall|k: int| 0 <= k < i + 1 implies #[trigger] sv[2 * k] == (
                    tab_text(shown_tab_name(sv[2 * k].0), is_open(s, s.open_files[k])),
                    tab_style(is_open(s, s.open_files[k]), *p),
                ) by {
                    if k < i {
                        assert(sv[2 * k] == before[2 * k]);
                    }
                }
                assert forall|k: int| 1 <= k < i + 1 implies #[trigger] sv[2 * k - 1] == (
                    " │ "@,
                    fg_style(p.border_inactive),
                ) by {
                    if k < i {
                        assert(sv[2 * k - 1] == before[2 * k - 1]);
                    }
                }
                assert forall|k: int| 0 <= k < i + 1 implies shown_name_ok(
                    s.open_files[k],
                    shown_tab_name((#[trigger] sv[2 * k]).0),
                ) by {
                    if k < i {
                        assert(sv[2 * k] == before[2 * k]);
                    }
                }
            }
            i = i + 1;
        }
        out
    }
}

/// The style of a key name in the status bar and the notices.
pub open spec fn key_style(p: Palette) -> Style {
    fg_mod_style(p.accent, MOD_BOLD)
}

/// The key reference of the status bar.
pub open spec fn help_bar(p: Palette) -> LineV {
    let k = key_style(p);
    let t = fg_style(p.text_primary);
    seq![
        (" Tab"@, k), (" Focus |"@, t),
        (" [ / ] / Ctrl-1..9"@, k), (" Tabs |"@, t),
        (" Ctrl-Shift-1..9"@, k), (" Workspaces |"@, t),
        (" t"@, k), (" Term |"@, t),
        (" n"@, k), (" New |"@, t),
        (" y/Y"@, k), (" Copy path/name |"@, t),
        (" Enter"@, k), (" Open/Expand |"@, t),
        (" Backspace/u"@, k), (" Up |"@, t),
        (" p"@, k), (" Pin |"@, t),
        (" v"@, k), (" ViewMode |"@, t),
        (" e"@, k), (" Edit |"@, t),
        (" o"@, k), (" Open Ext |"@, t),
        (" g"@, k), (" Open GUI |"@, t),
        (" q/Esc"@, k), (" Quit"@, t),
    ]
}

/// The status bar (drawn on the code background): the new-file or search
/// prompt while one is open, else the status message, else the error, else
/// the key reference.
pub open spec fn status_bar_spec(s: AppView, p: Palette) -> LineV {
    if s.create_active {
        seq![
            (" 📝 New file: "@, fg_mod_style(p.accent, MOD_BOLD)),
            (s.create_input, fg_style(p.text_primary)),
            ("█"@, fg_style(p.accent)),
            ("  (Enter to create & edit, Esc to cancel)"@, fg_style(p.text_secondary)),
        ]
    } else if s.search_active {
        seq![
            (" 🔍 Search: "@, fg_mod_style(p.accent, MOD_BOLD)),
            (s.search_input, fg_style(p.text_primary)),
            ("█"@, fg_style(p.accent)),
            ("  (Enter to search, Esc to cancel)"@, fg_style(p.text_secondary)),
        ]
    } else if s.status_message is Some {
        seq![
            (
                "  ✅ "@ + s.status_message->0 + " "@,
                Style { fg: Some(p.accent), bg: Some(p.code_bg), add_modifier: Modifier { bits: MOD_BOLD } },
            ),
        ]
    } else if s.error is Some {
        seq![
            (
                "  ⚠️ Error: "@ + s.error->0 + " "@,
                Style { fg: Some(Color::White), bg: Some(Color::Red), add_modifier: Modifier { bits: MOD_BOLD } },
            ),
        ]
    } else {
        help_bar(p)
    }
}

/// Appends a span of a copy of `text` in `style`.
fn push_span(v: &mut Vec<Span>, text: &str, style: Style)
    ensures
        crate::style::spans_view(final(v)@) == crate::style::spans_view(old(v)@).push((text@, style)),
{
    v.push(span(text, style));
    assert(crate::style::spans_view(v@) =~= crate::style::spans_view(old(v)@).push((text@, style)));
}

/// The spans of the key reference (see `help_bar`).
fn help_bar_spans(p: &Palette) -> (r: Vec<Span>)
    ensures
        crate::style::spans_view(r@) == help_bar(*p),
{
    let k = Style { fg: Some(p.accent), bg: None, add_modifier: Modifier { bits: MOD_BOLD } };
    let t = Style::new().fg(p.text_primary);
    let mut v: Vec<Span> = Vec::new();
    push_span(&mut v, " Tab", k);
    push_span(&mut v, " Focus |", t);
    push_span(&mut v, " [ / ] / Ctrl-1..9", k);
    push_span(&mut v, " Tabs |", t);
    push_span(&mut v, " Ctrl-Shift-1..9", k);
    push_span(&mut v, " Workspaces |", t);
    push_span(&mut v, " t", k);
    push_span(&mut v, " Term |", t);
    push_span(&mut v, " n", k);
    push_span(&mut v, " New |", t);
    push_span(&mut v, " y/Y", k);
    push_span(&mut v, " Copy path/name |", t);
    push_span(&mut v, " Enter", k);
    push_span(&mut v, " Open/Expand |", t);
    push_span(&mut v, " Backspace/u", k);
    push_span(&mut v, " Up |", t);
    push_span(&mut v, " p", k);
    push_span(&mut v, " Pin |", t);
    push_span(&mut v, " v", k);
    push_span(&mut v, " ViewMode |", t);
    push_span(&mut v, " e", k);
    push_span(&mut v, " Edit |", t);
    push_span(&mut v, " o", k);
    push_span(&mut v, " Open Ext |", t);
    push_span(&mut v, " g", k);
    push_span(&mut v, " Open GUI |", t);
    push_span(&mut v, " q/Esc", k);
    push_span(&mut v, " Quit", t);
    assert(crate::style::spans_view(v@) =~= help_bar(*p));
    v
}

impl AppState {
    /// The status bar (see `status_bar_spec`).
    pub fn status_bar(&self, p: &Palette) -> (r: Line)
        ensures
            r@ == status_bar_spec(self@, *p),
    {
        let mut v: Vec<Span> = Vec::new();
        if self.create_active {
            push_span(&mut v, " 📝 New file: ", Style { fg: Some(p.accent), bg: None, add_modifier: Modifier { bits: MOD_BOLD } });
            push_span(&mut v, self.create_input.as_str(), Style::new().fg(p.text_primary));
            push_span(&mut v, "█", Style::new().fg(p.accent));
            push_span(&mut v, "  (Enter to create & edit, Esc to cancel)", Style::new().fg(p.text_secondary));
        } else if self.search_active {
            push_span(&mut v, " 🔍 Search: ", Style { fg: Some(p.accent), bg: None, add_modifier: Modifier { bits: MOD_BOLD } });
            push_span(&mut v, self.search_input.as_str(), Style::new().fg(p.text_primary));
            push_span(&mut v, "█", Style::new().fg(p.accent));
            push_span(&mut v, "  (Enter to search, Esc to cancel)", Style::new().fg(p.text_secondary));
        } else if let Some(msg) = &self.status_message {
            let text = concat3("  ✅ ", msg.as_str(), " ");
            push_span(
                &mut v,
                text.as_str(),
                Style { fg: Some(p.accent), bg: Some(p.code_bg), add_modifier: Modifier { bits: MOD_BOLD } },
            );
        } else if let Some(err) = &self.error {
            let text = concat3("  ⚠️ Error: ", err.as_str(), " ");
            push_span(
                &mut v,
                text.as_str(),
                Style { fg: Some(Color::White), bg: Some(Color::Red), add_modifier: Modifier { bits: MOD_BOLD } },
            );
        } else {
            v = help_bar_spans(p);
        }
        assert(crate::style::spans_view(v@) =~= status_bar_spec(self@, *p));
        Line::from_spans(v)
    }
}

/// The name the viewer shows for `path`: its last component, or nothing:
/// the last name of a plain path (`plain_path`); `..` has none.
pub fn file_title(path: &str) -> (r: String)
    ensures
        plain_path(path@) ==> r@ == last_name(path@),
        path@ == ".."@ ==> r@ == Seq::<char>::empty(),
{
    match file_name(path) {
        Some(n) => n,
        None => String::new(),
    }
}

/// The title of the viewer for the file `path` named `title`.
pub open spec fn viewer_title_spec(title: Seq<char>, path: Seq<char>) -> Seq<char> {
    "📄 Viewer: "@ + title + " ("@ + path + ")"@
}

/// The title of the viewer while an editor runs on the file named `title`.
pub open spec fn editing_title_spec(title: Seq<char>) -> Seq<char> {
    "✏️  Editing: "@ + title + " (quit the editor to return)"@
}

/// The title of the viewer (see `viewer_title_spec`).
pub fn viewer_title(title: &str, path: &str) -> (r: String)
    ensures
        r@ == viewer_title_spec(title@, path@),
{
    let head = concat3("📄 Viewer: ", title, " (");
    concat3(head.as_str(), path, ")")
}

/// The title of the viewer while an editor runs (see `editing_title_spec`).
pub fn editing_title(title: &str) -> (r: String)
    ensures
        r@ == editing_title_spec(title@),
{
    concat3("✏️  Editing: ", title, " (quit the editor to return)")
}

/// What the viewer shows for a media file it cannot draw (a video, or any
/// media when the terminal shows no images): its name, kind and location,
/// and how to open it. In the reading modes the lines are not indented and
/// name the keys of those modes.
pub open spec fn media_lines_spec(title: Seq<char>, path: Seq<char>, is_video: bool, p: Palette, reading: bool) -> Seq<
    LineV,
> {
    let indent = if reading {
        ""@
    } else {
        "  "@
    };
    let kind = if is_video {
        "Video"@
    } else {
        "Image"@
    };
    let sec = fg_style(p.text_secondary);
    let key = fg_mod_style(p.accent, MOD_BOLD);
    let head = seq![
        seq![],
        seq![(indent + "🎞️ Media File: "@ + title, fg_mod_style(p.code, MOD_BOLD))],
        seq![(indent + "Type: "@ + kind, sec)],
        seq![(indent + "Location: "@ + path, sec)],
        seq![],
    ];
    if reading {
        head + seq![
            seq![
                ("Press "@, sec),
                ("f"@, key),
                (" to cycle reading modes, "@, sec),
                ("Esc"@, key),
                (" to exit fullscreen."@, sec),
            ],
        ]
    } else {
        head + seq![
            seq![
                ("  Press "@, sec),
                ("Enter"@, key),
                (" or "@, sec),
                ("o"@, key),
                (" to open this media file in your system default GUI application."@, sec),
            ],
            seq![],
        ]
    }
}

/// A line of no spans.
fn empty_line() -> (r: Line)
    ensures
        r@ == Seq::<(Seq<char>, Style)>::empty(),
{
    let v: Vec<Span> = Vec::new();
    let r = Line::from_spans(v);
    assert(r@ =~= Seq::<(Seq<char>, Style)>::empty());
    r
}

/// A line of one span.
fn one_span_line(text: &str, style: Style) -> (r: Line)
    ensures
        r@ == seq![(text@, style)],
{
    let mut v: Vec<Span> = Vec::new();
    push_span(&mut v, text, style);
    assert(crate::style::spans_view(v@) =~= seq![(text@, style)]);
    Line::from_spans(v)
}

/// Appends a line.
fn push_line(v: &mut Vec<Line>, l: Line)
    ensures
        lines_view(final(v)@) == lines_view(old(v)@).push(l@),
{
    v.push(l);
    assert(lines_view(v@) =~= lines_view(old(v)@).push(l@));
}

/// The lines shown for a media file (see `media_lines_spec`).
pub fn media_lines(title: &str, path: &str, is_video: bool, p: &Palette, reading: bool) -> (r: Vec<Line>)
    ensures
        lines_view(r@) == media_lines_spec(title@, path@, is_video, *p, reading),
{
    let indent = if reading {
        ""
    } else {
        "  "
    };
    let kind = if is_video {
        "Video"
    } else {
        "Image"
    };
    let sec = Style::new().fg(p.text_secondary);
    let key = Style { fg: Some(p.accent), bg: None, add_modifier: Modifier { bits: MOD_BOLD } };
    let mut v: Vec<Line> = Vec::new();
    push_line(&mut v, empty_line());
    let t1 = concat3(indent, "🎞️ Media File: ", title);
    push_line(&mut v, one_span_line(t1.as_str(), Style { fg: Some(p.code), bg: None, add_modifier: Modifier { bits: MOD_BOLD } }));
    let t2 = concat3(indent, "Type: ", kind);
    push_line(&mut v, one_span_line(t2.as_str(), sec));
    let t3 = concat3(indent, "Location: ", path);
    push_line(&mut v, one_span_line(t3.as_str(), sec));
    push_line(&mut v, empty_line());
    let mut last: Vec<Span> = Vec::new();
    if reading {
        push_span(&mut last, "Press ", sec);
        push_span(&mut last, "f", key);
        push_span(&mut last, " to cycle reading modes, ", sec);
        push_span(&mut last, "Esc", key);
        push_span(&mut last, " to exit fullscreen.", sec);
        push_line(&mut v, Line::from_spans(last));
    } else {
        push_span(&mut last, "  Press ", sec);
        push_span(&mut last, "Enter", key);
        push_span(&mut last, " or ", sec);
        push_span(&mut last, "o", key);
        push_span(&mut last, " to open this media file in your system default GUI application.", sec);
        push_line(&mut v, Line::from_spans(last));
        push_line(&mut v, empty_line());
    }
    assert(lines_view(v@) =~~= media_lines_spec(title@, path@, is_video, *p, reading));
    v
}

/// The viewer's text when a file's content could not be shown.
pub open spec fn no_content_spec(p: Palette, reading: bool) -> Seq<LineV> {
    if reading {
        seq![seq![("No content loaded."@, fg_style(p.text_primary))]]
    } else {
        seq![seq![("  No content loaded."@, plain_style())]]
    }
}

/// The viewer's text when a file's content could not be shown (see
/// `no_content_spec`).
pub fn no_content_lines(p: &Palette, reading: bool) -> (r: Vec<Line>)
    ensures
        lines_view(r@) == no_content_spec(*p, reading),
{
    let mut v: Vec<Line> = Vec::new();
    if reading {
        push_line(&mut v, one_span_line("No content loaded.", Style::new().fg(p.text_primary)));
    } else {
        push_line(&mut v, one_span_line("  No content loaded.", Style::new()));
    }
    assert(lines_view(v@) =~~= no_content_spec(*p, reading));
    v
}

/// A row of the key reference: the keys in the secondary colour, then what
/// they do in the primary colour.
pub open spec fn help_line(keys: Seq<char>, what: Seq<char>, se: Style, pr: Style) -> LineV {
    seq![(keys, se), (what, pr)]
}

/// The build a version line describes.
pub struct BuildInfo {
    pub version: String,
    pub commit: String,
    pub commit_date: String,
}

/// The version line of the welcome text.
pub open spec fn version_text(b: BuildInfo) -> Seq<char> {
    "    v"@ + b.version@ + "  ·  commit "@ + b.commit@ + "  ·  "@ + b.commit_date@
}

/// The welcome text, which is also the help screen: the program's name and
/// build, a note that no file is open, and the key reference.
pub open spec fn welcome_spec(
    accent: Color,
    border: Color,
    primary: Color,
    secondary: Color,
    code: Color,
    b: BuildInfo,
) -> Seq<LineV> {
    let se = fg_style(secondary);
    let pr = fg_style(primary);
    seq![
        seq![],
        seq![("    MarkDown Commander (mdc) TUI"@, fg_mod_style(accent, MOD_BOLD))],
        seq![("    ──────────────────────"@, fg_style(border))],
        seq![(version_text(b), se)],
        seq![],
        seq![("    No File Open."@, fg_mod_style(primary, MOD_BOLD))],
        seq![("    Select a Markdown (.md) or Media file from the folders list to view it."@, plain_style())],
        seq![],
        seq![("    Keybindings:"@, fg_mod_style(code, MOD_BOLD))],
        help_line("    ?               : "@, "Toggle this help screen"@, se, pr),
        help_line("    Tab / Shift-Tab : "@, "Cycle focus between panels"@, se, pr),
        help_line("    [ / ]           : "@, "Cycle active tabs"@, se, pr),
        help_line("    Ctrl-1..9       : "@, "Switch active file tabs (1-9)"@, se, pr),
        help_line("    Ctrl-Shift-1..9 : "@, "Activate pinned workspace item (1-9)"@, se, pr),
        help_line("    w / c           : "@, "Close active file/tab (Viewer)"@, se, pr),
        help_line("    t               : "@, "Open terminal in current directory"@, se, pr),
        help_line("    n               : "@, "Create a new file in current directory"@, se, pr),
        help_line("    y / Y           : "@, "Copy selected file path / name to clipboard"@, se, pr),
        help_line("    j / k / Arrows  : "@, "Navigate lists and scroll viewer"@, se, pr),
        help_line("    Enter           : "@, "Navigate folder / Expand node / Open file"@, se, pr),
        help_line("    Cmd/Alt-Enter   : "@, "Open and focus file"@, se, pr),
        help_line("    Backspace / u   : "@, "Navigate to parent directory"@, se, pr),
        help_line("    p               : "@, "Pin/Unpin current folder/file to Workspaces"@, se, pr),
        help_line("    /               : "@, "Search current folder"@, se, pr),
        help_line("    e               : "@, "Edit current Markdown file (opens external editor)"@, se, pr),
        help_line("    o               : "@, "Open file in external default application"@, se, pr),
        help_line("    g               : "@, "Open file in MarkDown Commander GUI"@, se, pr),
        help_line("    v               : "@, "Toggle Folder view mode (List/Tree)"@, se, pr),
        help_line("    f               : "@, "Cycle fullscreen reading modes: normal/margins/no margins (Viewer; Esc to exit)"@, se, pr),
        help_line("    Ctrl-q          : "@, "Quit application"@, se, pr),
    ]
}

/// Appends a row of the key reference.
fn push_help_line(v: &mut Vec<Line>, keys: &str, what: &str, se: Style, pr: Style)
    ensures
        lines_view(final(v)@) == lines_view(old(v)@).push(help_line(keys@, what@, se, pr)),
{
    let mut s: Vec<Span> = Vec::new();
    push_span(&mut s, keys, se);
    push_span(&mut s, what, pr);
    assert(crate::style::spans_view(s@) =~= help_line(keys@, what@, se, pr));
    push_line(v, Line::from_spans(s));
}

impl AppState {
    /// The welcome text (see `welcome_spec`); `build` names the build.
    pub fn get_welcome_text(
        &self,
        accent_color: Color,
        border_inactive_color: Color,
        text_primary_color: Color,
        text_secondary_color: Color,
        code_color: Color,
        build: &BuildInfo,
    ) -> (r: Vec<Line>)
        ensures
            lines_view(r@) == welcome_spec(
                accent_color,
                border_inactive_color,
                text_primary_color,
                text_secondary_color,
                code_color,
                *build,
            ),
    {
        let se = Style::new().fg(text_secondary_color);
        let pr = Style::new().fg(text_primary_color);
        let mut v: Vec<Line> = Vec::new();
        push_line(&mut v, empty_line());
        push_line(
            &mut v,
            one_span_line(
                "    MarkDown Commander (mdc) TUI",
                Style { fg: Some(accent_color), bg: None, add_modifier: Modifier { bits: MOD_BOLD } },
            ),
        );
        push_line(&mut v, one_span_line("    ──────────────────────", Style::new().fg(border_inactive_color)));
        let a = concat3("    v", build.version.as_str(), "  ·  commit ");
        let b = concat3(a.as_str(), build.commit.as_str(), "  ·  ");
        let c = concat(b.as_str(), build.commit_date.as_str());
        push_line(&mut v, one_span_line(c.as_str(), se));
        push_line(&mut v, empty_line());
        push_line(
            &mut v,
            one_span_line(
                "    No File Open.",
                Style { fg: Some(text_primary_color), bg: None, add_modifier: Modifier { bits: MOD_BOLD } },
            ),
        );
        push_line(
            &mut v,
            one_span_line("    Select a Markdown (.md) or Media file from the folders list to view it.", Style::new()),
        );
        push_line(&mut v, empty_line());
        push_line(
            &mut v,
            one_span_line(
                "    Keybindings:",
                Style { fg: Some(code_color), bg: None, add_modifier: Modifier { bits: MOD_BOLD } },
            ),
        );
        push_help_line(&mut v, "    ?               : ", "Toggle this help screen", se, pr);
        push_help_line(&mut v, "    Tab / Shift-Tab : ", "Cycle focus between panels", se, pr);
        push_help_line(&mut v, "    [ / ]           : ", "Cycle active tabs", se, pr);
        push_help_line(&mut v, "    Ctrl-1..9       : ", "Switch active file tabs (1-9)", se, pr);
        push_help_line(&mut v, "    Ctrl-Shift-1..9 : ", "Activate pinned workspace item (1-9)", se, pr);
        push_help_line(&mut v, "    w / c           : ", "Close active file/tab (Viewer)", se, pr);
        push_help_line(&mut v, "    t               : ", "Open terminal in current directory", se, pr);
        push_help_line(&mut v, "    n               : ", "Create a new file in current directory", se, pr);
        push_help_line(&mut v, "    y / Y           : ", "Copy selected file path / name to clipboard", se, pr);
        push_help_line(&mut v, "    j / k / Arrows  : ", "Navigate lists and scroll viewer", se, pr);
        push_help_line(&mut v, "    Enter           : ", "Navigate folder / Expand node / Open file", se, pr);
        push_help_line(&mut v, "    Cmd/Alt-Enter   : ", "Open and focus file", se, pr);
        push_help_line(&mut v, "    Backspace / u   : ", "Navigate to parent directory", se, pr);
        push_help_line(&mut v, "    p               : ", "Pin/Unpin current folder/file to Workspaces", se, pr);
        push_help_line(&mut v, "    /               : ", "Search current folder", se, pr);
        push_help_line(&mut v, "    e               : ", "Edit current Markdown file (opens external editor)", se, pr);
        push_help_line(&mut v, "    o               : ", "Open file in external default application", se, pr);
        push_help_line(&mut v, "    g               : ", "Open file in MarkDown Commander GUI", se, pr);
        push_help_line(&mut v, "    v               : ", "Toggle Folder view mode (List/Tree)", se, pr);
        push_help_line(&mut v, "    f               : ", "Cycle fullscreen reading modes: normal/margins/no margins (Viewer; Esc to exit)", se, pr);
        push_help_line(&mut v, "    Ctrl-q          : ", "Quit application", se, pr);
        assert(lines_view(v@) =~= welcome_spec(
            accent_color,
            border_inactive_color,
            text_primary_color,
            text_secondary_color,
            code_color,
            *build,
        ));
        v
    }
}

/// The notice shown when the desktop app is not installed: what the `g`
/// key does, where to download the app and how to install it.
pub open spec fn gui_missing_spec(accent: Color, primary: Color, secondary: Color) -> Seq<LineV> {
    let bold = fg_mod_style(primary, MOD_BOLD);
    let body = fg_style(secondary);
    let key = fg_mod_style(accent, MOD_BOLD);
    seq![
        seq![],
        seq![("  The MarkDown Commander desktop (GUI) app doesn't appear to be installed."@, bold)],
        seq![("  The "@, body), ("g"@, key), (" shortcut opens the selected file in that app."@, body)],
        seq![],
        seq![("  Download the latest release from:"@, body)],
        seq![("    https://github.com/apstrand/mdcmd/releases"@, key)],
        seq![],
        seq![("  Install:"@, bold)],
        seq![
            ("    • macOS:   "@, key),
            ("open the .dmg and drag \"MarkDown Commander\" to /Applications"@, body),
        ],
        seq![("    • Windows: "@, key), ("run the .msi / .exe installer"@, body)],
        seq![("    • Linux:   "@, key), ("install the .AppImage/.deb, or run `cargo install mdcmd`"@, body)],
        seq![],
        seq![("  Press any key to dismiss."@, body)],
    ]
}

/// A line of two spans.
fn two_span_line(a: &str, sa: Style, b: &str, sb: Style) -> (r: Line)
    ensures
        r@ == seq![(a@, sa), (b@, sb)],
{
    let mut v: Vec<Span> = Vec::new();
    push_span(&mut v, a, sa);
    push_span(&mut v, b, sb);
    assert(crate::style::spans_view(v@) =~= seq![(a@, sa), (b@, sb)]);
    Line::from_spans(v)
}

impl AppState {
    /// The notice shown when the desktop app is not installed (see
    /// `gui_missing_spec`).
    pub fn get_gui_missing_text(
        &self,
        accent_color: Color,
        text_primary_color: Color,
        text_secondary_color: Color,
    ) -> (r: Vec<Line>)
        ensures
            lines_view(r@) == gui_missing_spec(accent_color, text_primary_color, text_secondary_color),
    {
        let bold = Style { fg: Some(text_primary_color), bg: None, add_modifier: Modifier { bits: MOD_BOLD } };
        let body = Style::new().fg(text_secondary_color);
        let key = Style { fg: Some(accent_color), bg: None, add_modifier: Modifier { bits: MOD_BOLD } };
        let mut v: Vec<Line> = Vec::new();
        push_line(&mut v, empty_line());
        push_line(
            &mut v,
            one_span_line("  The MarkDown Commander desktop (GUI) app doesn't appear to be installed.", bold),
        );
        let mut third: Vec<Span> = Vec::new();
        push_span(&mut third, "  The ", body);
        push_span(&mut third, "g", key);
        push_span(&mut third, " shortcut opens the selected file in that app.", body);
        push_line(&mut v, Line::from_spans(third));
        push_line(&mut v, empty_line());
        push_line(&mut v, one_span_line("  Download the latest release from:", body));
        push_line(&mut v, one_span_line("    https://github.com/apstrand/mdcmd/releases", key));
        push_line(&mut v, empty_line());
        push_line(&mut v, one_span_line("  Install:", bold));
        push_line(
            &mut v,
            two_span_line(
                "    • macOS:   ",
                key,
                "open the .dmg and drag \"MarkDown Commander\" to /Applications",
                body,
            ),
        );
        push_line(&mut v, two_span_line("    • Windows: ", key, "run the .msi / .exe installer", body));
        push_line(
            &mut v,
            two_span_line("    • Linux:   ", key, "install the .AppImage/.deb, or run `cargo install mdcmd`", body),
        );
        push_line(&mut v, empty_line());
        push_line(&mut v, one_span_line("  Press any key to dismiss.", body));
        assert(lines_view(v@) =~~= gui_missing_spec(accent_color, text_primary_color, text_secondary_color));
        v
    }
}

/// A rectangle of terminal cells.
#[derive(Clone, Copy, PartialEq, Eq, Debug, Structural)]
pub struct Rect {
    pub x: u16,
    pub y: u16,
    pub width: u16,
    pub height: u16,
}

/// Space left inside an area's edges.
#[derive(Clone, Copy, PartialEq, Eq, Debug, Structural)]
pub struct Padding {
    pub left: u16,
    pub right: u16,
    pub top: u16,
    pub bottom: u16,
}

/// `a - b`, or 0 when `b` is larger.
pub open spec fn sat_diff(a: int, b: int) -> int {
    if a >= b {
        a - b
    } else {
        0
    }
}

/// The floating box of a notice of `n` lines over `area`: as tall as the
/// lines plus borders and padding (at most the area, at least three rows),
/// eight tenths of the area's width kept between 20 and 84 columns (at
/// most the area), centred.
pub open spec fn notice_rect(area: Rect, n: int) -> Rect {
    let h0 = if n + 4 <= area.height {
        n + 4
    } else {
        area.height as int
    };
    let h = if h0 >= 3 {
        h0
    } else {
        3
    };
    let w0 = area.width * 8 / 10;
    let w1 = if w0 < 20 {
        20
    } else if w0 > 84 {
        84
    } else {
        w0
    };
    let w = if w1 <= area.width {
        w1
    } else {
        area.width as int
    };
    Rect {
        x: (area.x + sat_diff(area.width as int, w) / 2) as u16,
        y: (area.y + sat_diff(area.height as int, h) / 2) as u16,
        width: w as u16,
        height: h as u16,
    }
}

/// The box of a notice of `line_count` lines over `area` (see
/// `notice_rect`).
pub fn notice_area(area: Rect, line_count: usize) -> (r: Rect)
    requires
        line_count + 4 <= u16::MAX,
        area.width * 8 <= u16::MAX,
        area.x + area.width <= u16::MAX,
        area.y + area.height <= u16::MAX,
    ensures
        r == notice_rect(area, line_count as int),
{
    let content_h: u16 = (line_count as u16) + 4;
    let h0 = if content_h <= area.height {
        content_h
    } else {
        area.height
    };
    let h = if h0 >= 3 {
        h0
    } else {
        3
    };
    let w0: u16 = area.width * 8 / 10;
    let w1 = if w0 < 20 {
        20
    } else if w0 > 84 {
        84
    } else {
        w0
    };
    let w = if w1 <= area.width {
        w1
    } else {
        area.width
    };
    let dx = if area.width >= w {
        (area.width - w) / 2
    } else {
        0
    };
    let dy = if area.height >= h {
        (area.height - h) / 2
    } else {
        0
    };
    Rect { x: area.x + dx, y: area.y + dy, width: w, height: h }
}

/// The reading column is at most this wide in the margins mode.
pub const READING_WIDTH: u16 = 100;

/// The area of the reading modes and its padding: in the margins mode a
/// column of at most `READING_WIDTH` cells centred in `area`, padded two
/// cells at the sides and one at the top; otherwise all of `area`, with
/// no padding.
pub open spec fn reading_rect(area: Rect, mode: FullscreenMode) -> (Rect, Padding) {
    if mode == FullscreenMode::Margins {
        let w = if area.width <= READING_WIDTH {
            area.width
        } else {
            READING_WIDTH
        };
        (
            Rect { x: (area.x + (area.width - w) / 2) as u16, y: area.y, width: w, height: area.height },
            Padding { left: 2, right: 2, top: 1, bottom: 0 },
        )
    } else {
        (area, Padding { left: 0, right: 0, top: 0, bottom: 0 })
    }
}

/// The area of the reading modes (see `reading_rect`).
pub fn reading_area(area: Rect, mode: FullscreenMode) -> (r: (Rect, Padding))
    requires
        area.x + area.width <= u16::MAX,
    ensures
        r == reading_rect(area, mode),
{
    if mode == FullscreenMode::Margins {
        let w = if area.width <= READING_WIDTH {
            area.width
        } else {
            READING_WIDTH
        };
        (
            Rect { x: area.x + (area.width - w) / 2, y: area.y, width: w, height: area.height },
            Padding { left: 2, right: 2, top: 1, bottom: 0 },
        )
    } else {
        (area, Padding { left: 0, right: 0, top: 0, bottom: 0 })
    }
}

/// The columns and rows inside an area's border.
pub fn inner_size(area: Rect) -> (r: (u16, u16))
    ensures
        r.0 == sat_diff(area.width as int, 2),
        r.1 == sat_diff(area.height as int, 2),
{
    (area.width.saturating_sub(2), area.height.saturating_sub(2))
}

/// The size of the terminal an editor gets in the viewer: the inside of
/// the viewer's border, but at least 10 columns and 3 rows.
pub fn editor_size(area: Rect) -> (r: (u16, u16))
    ensures
        r.0 == if sat_diff(area.width as int, 2) >= 10 {
            sat_diff(area.width as int, 2)
        } else {
            10
        },
        r.1 == if sat_diff(area.height as int, 2) >= 3 {
            sat_diff(area.height as int, 2)
        } else {
            3
        },
{
    let (w, h) = inner_size(area);
    (if w >= 10 {
        w
    } else {
        10
    }, if h >= 3 {
        h
    } else {
        3
    })
}

/// Whether an editor's terminal of `cols` by `rows` cells must be resized
/// to `new_cols` by `new_rows`: only when the size changes and neither new
/// side is zero.
pub fn pty_resize_needed(cols: u16, rows: u16, new_cols: u16, new_rows: u16) -> (r: bool)
    ensures
        r == !((new_cols == cols && new_rows == rows) || new_cols == 0 || new_rows == 0),
{
    !((new_cols == cols && new_rows == rows) || new_cols == 0 || new_rows == 0)
}

/// The families of systems whose helper programs differ.
#[derive(Clone, Copy, PartialEq, Eq, Debug, Structural)]
pub enum Platform {
    MacOs,
    Windows,
    /// Linux and the other Unix-like systems.
    Other,
}

/// A program to run and its arguments.
pub struct Command {
    pub program: String,
    pub args: Vec<String>,
}

impl View for Command {
    type V = (Seq<char>, Seq<Seq<char>>);

    open spec fn view(&self) -> (Seq<char>, Seq<Seq<char>>) {
        (self.program@, crate::browser::strings_view(self.args@))
    }
}

/// The views of a list of commands.
pub open spec fn commands_view(v: Seq<Command>) -> Seq<(Seq<char>, Seq<Seq<char>>)> {
    v.map_values(|c: Command| c@)
}

/// The clipboard programs tried in turn, each reading the text on its
/// input: `pbcopy` on macOS, `clip` on Windows, elsewhere `wl-copy` and
/// then `xclip -selection clipboard`.
pub open spec fn clipboard_spec(platform: Platform) -> Seq<(Seq<char>, Seq<Seq<char>>)> {
    match platform {
        Platform::MacOs => seq![("pbcopy"@, Seq::empty())],
        Platform::Windows => seq![("clip"@, Seq::empty())],
        Platform::Other => seq![
            ("wl-copy"@, Seq::empty()),
            ("xclip"@, seq!["-selection"@, "clipboard"@]),
        ],
    }
}

/// The terminal emulators tried in turn on Linux and similar systems, each
/// with the flag that names the folder to open in.
pub open spec fn emulators_spec() -> Seq<(Seq<char>, Seq<char>)> {
    seq![
        ("gnome-terminal"@, "--working-directory"@),
        ("xfce4-terminal"@, "--working-directory"@),
        ("konsole"@, "--workdir"@),
        ("alacritty"@, "--working-directory"@),
        ("ghostty"@, "--working-directory="@),
        ("xterm"@, "-working-directory"@),
    ]
}

/// The arguments that open an emulator with `flag` in `dir` (see
/// `terminal_args`).
pub open spec fn flag_args(flag: Seq<char>, dir: Seq<char>) -> Seq<Seq<char>> {
    if crate::chars::ends_with(flag, seq!['=']) {
        seq![flag + dir]
    } else {
        seq![flag, dir]
    }
}

/// The commands that open a terminal in `dir`, tried in turn: Terminal on
/// macOS, a `cmd` window on Windows; elsewhere each emulator of
/// `emulators_spec`, then `x-terminal-emulator` running a shell in `dir`.
pub open spec fn terminal_spec(platform: Platform, dir: Seq<char>) -> Seq<(Seq<char>, Seq<Seq<char>>)> {
    match platform {
        Platform::MacOs => seq![("open"@, seq!["-a"@, "Terminal"@, dir])],
        Platform::Windows => seq![("cmd"@, seq!["/C"@, "start"@, "cmd.exe"@, "/K"@, "cd /d "@ + dir])],
        Platform::Other => Seq::new(
            emulators_spec().len(),
            |i: int| (emulators_spec()[i].0, flag_args(emulators_spec()[i].1, dir)),
        ).push(("x-terminal-emulator"@, seq!["-e"@, "cd "@ + dir + " && exec sh"@])),
    }
}

/// A command of a copy of `program` and the given arguments.
fn command(program: &str, args: Vec<String>) -> (r: Command)
    ensures
        r@ == (program@, crate::browser::strings_view(args@)),
{
    Command { program: owned(program), args }
}

/// Appends a copy of `s`.
fn push_string(v: &mut Vec<String>, s: &str)
    ensures
        crate::browser::strings_view(final(v)@) == crate::browser::strings_view(old(v)@).push(s@),
{
    v.push(owned(s));
    assert(crate::browser::strings_view(v@) =~= crate::browser::strings_view(old(v)@).push(s@));
}

/// Appends a command.
fn push_command(v: &mut Vec<Command>, c: Command)
    ensures
        commands_view(final(v)@) == commands_view(old(v)@).push(c@),
{
    v.push(c);
    assert(commands_view(v@) =~= commands_view(old(v)@).push(c@));
}

/// The clipboard programs tried in turn (see `clipboard_spec`).
pub fn clipboard_programs(platform: Platform) -> (r: Vec<Command>)
    ensures
        commands_view(r@) == clipboard_spec(platform),
{
    let mut v: Vec<Command> = Vec::new();
    match platform {
        Platform::MacOs => push_command(&mut v, command("pbcopy", Vec::new())),
        Platform::Windows => push_command(&mut v, command("clip", Vec::new())),
        Platform::Other => {
            push_command(&mut v, command("wl-copy", Vec::new()));
            let mut a: Vec<String> = Vec::new();
            push_string(&mut a, "-selection");
            push_string(&mut a, "clipboard");
            push_command(&mut v, command("xclip", a));
        },
    }
    assert(commands_view(v@) =~~= clipboard_spec(platform));
    v
}

/// The commands that open a terminal in `dir` (see `terminal_spec`).
pub fn terminal_commands(platform: Platform, dir: &str) -> (r: Vec<Command>)
    ensures
        commands_view(r@) == terminal_spec(platform, dir@),
{
    let mut v: Vec<Command> = Vec::new();
    match platform {
        Platform::MacOs => {
            let mut a: Vec<String> = Vec::new();
            push_string(&mut a, "-a");
            push_string(&mut a, "Terminal");
            push_string(&mut a, dir);
            push_command(&mut v, command("open", a));
        },
        Platform::Windows => {
            let mut a: Vec<String> = Vec::new();
            push_string(&mut a, "/C");
            push_string(&mut a, "start");
            push_string(&mut a, "cmd.exe");
            push_string(&mut a, "/K");
            let cd = concat("cd /d ", dir);
            push_string(&mut a, cd.as_str());
            push_command(&mut v, command("cmd", a));
        },
        Platform::Other => {
            let flags: [(&str, &str); 6] = [
                ("gnome-terminal", "--working-directory"),
                ("xfce4-terminal", "--working-directory"),
                ("konsole", "--workdir"),
                ("alacritty", "--working-directory"),
                ("ghostty", "--working-directory="),
                ("xterm", "-working-directory"),
            ];
            let mut i: usize = 0;
            while i < 6
                invariant
                    i <= 6,
                    flags@.len() == 6,
                    forall|k: int|
                        0 <= k < 6 ==> (#[trigger] flags@[k]).0@ == emulators_spec()[k].0 && flags@[k].1@
                            == emulators_spec()[k].1,
                    commands_view(v@) == Seq::new(
                        i as nat,
                        |k: int| (emulators_spec()[k].0, flag_args(emulators_spec()[k].1, dir@)),
                    ),
                decreases 6 - i,
            {
                let (program, flag) = flags[i];
                let args = terminal_args(flag, dir);
                proof {
                    let f = flag@;
                    if crate::chars::ends_with(f, seq!['=']) {
                        assert(crate::browser::strings_view(args@) =~= seq![f + dir@]);
                    } else {
                        assert(crate::browser::strings_view(args@) =~= seq![f, dir@]);
                    }
                }
                push_command(&mut v, command(program, args));
                assert(commands_view(v@) =~= Seq::new(
                    (i + 1) as nat,
                    |k: int| (emulators_spec()[k].0, flag_args(emulators_spec()[k].1, dir@)),
                ));
                i = i + 1;
            }
            let mut a: Vec<String> = Vec::new();
            push_string(&mut a, "-e");
            let head = concat("cd ", dir);
            let sh = concat(head.as_str(), " && exec sh");
            push_string(&mut a, sh.as_str());
            push_command(&mut v, command("x-terminal-emulator", a));
        },
    }
    assert(commands_view(v@) =~~= terminal_spec(platform, dir@));
    v
}

/// The editors tried in turn on a file: the one the environment names
/// (`nano` when it names none), then `vim`, then `nano`.
pub fn editor_programs(configured: Option<&str>) -> (r: Vec<String>)
    ensures
        r@.len() == 3,
        r@[0]@ == match configured {
            Some(e) => e@,
            None => "nano"@,
        },
        r@[1]@ == "vim"@,
        r@[2]@ == "nano"@,
{
    let mut v: Vec<String> = Vec::new();
    match configured {
        Some(e) => v.push(owned(e)),
        None => v.push(owned("nano")),
    }
    v.push(owned("vim"));
    v.push(owned("nano"));
    v
}

/// The arguments that open a terminal emulator in `dir`: a flag that ends
/// in `=` is joined with the folder into one argument, any other flag is
/// followed by the folder.
pub fn terminal_args(flag: &str, dir: &str) -> (r: Vec<String>)
    ensures
        crate::chars::ends_with(flag@, seq!['=']) ==> r@.len() == 1 && r@[0]@ == flag@ + dir@,
        !crate::chars::ends_with(flag@, seq!['=']) ==> r@.len() == 2 && r@[0]@ == flag@ && r@[1]@ == dir@,
{
    let f = crate::chars::str_to_chars(flag);
    let eq = ['='];
    assert(eq@ =~= seq!['=']);
    let mut v: Vec<String> = Vec::new();
    if crate::chars::chars_ends_with(&f, &eq) {
        v.push(concat(flag, dir));
    } else {
        v.push(owned(flag));
        v.push(owned(dir));
    }
    v
}

impl AppState {
    /// Reports that `text` was copied to the clipboard.
    pub fn report_copied(&mut self, text: &str)
        ensures
            final(self)@ == (AppView { status_message: Some("Copied: "@ + text@), ..old(self)@ }),
    {
        self.status_message = Some(concat("Copied: ", text));
    }

    /// Reports that no clipboard program could be run.
    pub fn report_no_clipboard(&mut self)
        ensures
            final(self)@ == (AppView { error: Some("No clipboard utility found"@), ..old(self)@ }),
    {
        self.error = Some(owned("No clipboard utility found"));
    }

    /// Reports that the desktop app failed to start, and why.
    pub fn report_gui_failed(&mut self, reason: &str)
        ensures
            final(self)@ == (AppView { error: Some("Failed to launch GUI: "@ + reason@), ..old(self)@ }),
    {
        self.error = Some(concat("Failed to launch GUI: ", reason));
    }

    /// Reports that no editor could be started, and why.
    pub fn report_editor_failed(&mut self, reason: &str)
        ensures
            final(self)@ == (AppView { error: Some("Failed to launch editor: "@ + reason@), ..old(self)@ }),
    {
        self.error = Some(concat("Failed to launch editor: ", reason));
    }

    /// Shows `path` in the viewer with the reason it could not be read.
    pub fn report_file_failed(&mut self, path: String, reason: &str)
        ensures
            final(self)@ == (AppView {
                selected_file: Some(path@),
                scroll_offset: 0,
                error: Some("Error opening file: "@ + reason@),
                ..old(self)@
            }),
    {
        self.show_file(path, Some(concat("Error opening file: ", reason)));
    }

    /// Reports that the current folder no longer exists.
    pub fn report_dir_missing(&mut self)
        ensures
            final(self)@ == (AppView { error: Some("Current directory does not exist"@), ..old(self)@ }),
    {
        self.error = Some(owned("Current directory does not exist"));
    }

    /// Reports that no terminal emulator could be started.
    pub fn report_no_terminal(&mut self)
        ensures
            final(self)@ == (AppView { error: Some("No supported terminal emulator found"@), ..old(self)@ }),
    {
        self.error = Some(owned("No supported terminal emulator found"));
    }
}

impl AppState {
    /// Reports that the pinned item to open no longer exists.
    pub fn report_pin_missing(&mut self)
        ensures
            final(self)@ == (AppView { error: Some("Pinned item no longer exists"@), ..old(self)@ }),
    {
        self.error = Some(owned("Pinned item no longer exists"));
    }

    /// Reports that a new file could not be created because `name` exists.
    pub fn report_file_exists(&mut self, name: &str)
        ensures
            final(self)@ == (AppView { error: Some("File already exists: "@ + name@), ..old(self)@ }),
    {
        self.error = Some(concat("File already exists: ", name));
    }

    /// Reports that a new file could not be created, and why.
    pub fn report_create_failed(&mut self, reason: &str)
        ensures
            final(self)@ == (AppView { error: Some("Error creating file: "@ + reason@), ..old(self)@ }),
    {
        self.error = Some(concat("Error creating file: ", reason));
    }

    /// Makes `dir` the current folder unless it is already; says whether it
    /// changed.
    pub fn move_to_folder(&mut self, dir: String) -> (changed: bool)
        ensures
            changed == (old(self)@.current_dir != dir@),
            final(self)@ == if changed {
                AppView { current_dir: dir@, ..old(self)@ }
            } else {
                old(self)@
            },
    {
        if crate::chars::str_eq(self.current_dir.as_str(), dir.as_str()) {
            false
        } else {
            self.current_dir = dir;
            true
        }
    }
}

} // verus!

//! Properties of the library as a whole, each proved over the
//! specifications that the functions' contracts use.
use vstd::prelude::*;
use crate::browser::{
    clamp_index, close_step, current_row, key_step, next_mode, next_section, prev_section, folders_empty,
    cursor_in_range, folders_key, folders_step, search_input_step, viewer_step, position_of, tab_step, toggle_path, without, insert_paths, ActiveSection, AppView, EffectView,
    FullscreenMode,
};
use crate::chars::{contains, ends_with, find_from, lemma_find_from, matches_at};
use crate::commands::{records_of, resolved, search_hits, stored_pins, EntryV};
use crate::files::{is_hidden, lowercase, markdown_ext, media_ext, video_ext};
use crate::config::{pin_key, pin_position, lemma_pin_position_bounds, toggle_pin_spec, unpin_spec, workspace_order};
use crate::keys::{key_seq, plain_key_seq, KeyCode, KeyEvent, KeyEventKind, KeyModifiers};
use crate::listing::{
    key_lt, lemma_stable_sort, listing_key, listing_order, stable_sort, visible, FileEntry, Key,
};
use crate::markdown::{
    inline_spans, inline_spans_from, inline_step, lemma_inline_step_advances, render_line, render_lines, LineRender, LineV,
};
use crate::screen::{pin_selected, shown_name, workspace_row, workspace_rows_spec};
use crate::palette::{light_mode_rule, Palette};
use crate::style::{fg_bg_style, fg_mod_style, fg_style, Color, Style, MOD_BOLD, MOD_ITALIC};

verus! {

/// Some entry of `m` is `k`.
pub open spec fn maps_to(m: Seq<usize>, k: int) -> bool {
    exists|i: int| 0 <= i < m.len() && m[i] == k
}

/// Every source line renders to at least one screen line.
pub proof fn lemma_render_line_nonempty(raw: Seq<char>, in_code: bool, p: Palette)
    ensures
        1 <= render_line(raw, in_code, p).lines.len() <= 2,
{
}

/// The shape of a rendered document: `line_map` has one entry per screen
/// line, never decreases, points at existing source lines and covers each
/// of them; there are at least as many screen lines as source lines; and
/// each image's placeholder line exists and shows the image's alternative
/// text, or its source when there is none.
pub proof fn law_render_shape(ls: Seq<Seq<char>>, p: Palette)
    requires
        2 * ls.len() <= usize::MAX,
    ensures
        ({
            let r = render_lines(ls, p);
            &&& r.line_map.len() == r.lines.len()
            &&& ls.len() <= r.lines.len() <= 2 * ls.len()
            &&& forall|i: int| 0 <= i < r.lines.len() ==> #[trigger] r.line_map[i] < ls.len()
            &&& forall|i: int, j: int|
                0 <= i <= j < r.lines.len() ==> #[trigger] r.line_map[i] <= #[trigger] r.line_map[j]
            &&& forall|k: int| 0 <= k < ls.len() ==> #[trigger] maps_to(r.line_map, k)
            &&& forall|k: int|
                0 <= k < r.images.len() ==> {
                    let (line, alt, src) = #[trigger] r.images[k];
                    &&& line < r.lines.len()
                    &&& r.lines[line as int] == seq![
                        (
                            seq!['\u{1F5BC}', ' ', ' '] + (if alt.len() == 0 {
                                src
                            } else {
                                alt
                            }),
                            fg_mod_style(p.text_secondary, MOD_ITALIC),
                        ),
                    ]
                }
        }),
    decreases ls.len(),
{
    if ls.len() > 0 {
        let prev = ls.drop_last();
        law_render_shape(prev, p);
        let b = render_lines(prev, p);
        let r = render_line(ls.last(), b.in_code_block, p);
        lemma_render_line_nonempty(ls.last(), b.in_code_block, p);
        let out = render_lines(ls, p);
        let k0 = (ls.len() - 1) as usize;
        assert(out.lines == b.lines + r.lines);
        assert(out.line_map == b.line_map + Seq::new(r.lines.len(), |_i: int| k0));
        assert forall|i: int| 0 <= i < out.lines.len() implies #[trigger] out.line_map[i] < ls.len() by {
            if i < b.lines.len() {
                assert(out.line_map[i] == b.line_map[i]);
            }
        }
        assert forall|i: int, j: int|
            0 <= i <= j < out.lines.len() implies #[trigger] out.line_map[i] <= #[trigger] out.line_map[j] by {
            if j < b.lines.len() {
                assert(out.line_map[i] == b.line_map[i]);
                assert(out.line_map[j] == b.line_map[j]);
            } else if i < b.lines.len() {
                assert(out.line_map[i] == b.line_map[i]);
                assert(b.line_map[i] < prev.len());
            }
        }
        assert forall|k: int| 0 <= k < ls.len() implies #[trigger] maps_to(out.line_map, k) by {
            if k < prev.len() {
                assert(maps_to(b.line_map, k));
                let i = choose|i: int| 0 <= i < b.line_map.len() && #[trigger] b.line_map[i] == k;
                assert(out.line_map[i] == b.line_map[i]);
            } else {
                let i = b.lines.len() as int;
                assert(out.line_map[i] == k0);
            }
        }
        assert forall|k: int| 0 <= k < out.images.len() implies {
            let (line, alt, src) = #[trigger] out.images[k];
            &&& line < out.lines.len()
            &&& out.lines[line as int] == seq![
                (
                    seq!['\u{1F5BC}', ' ', ' '] + (if alt.len() == 0 {
                        src
                    } else {
                        alt
                    }),
                    fg_mod_style(p.text_secondary, MOD_ITALIC),
                ),
            ]
        } by {
            if k < b.images.len() {
                assert(out.images[k] == b.images[k]);
                let line = b.images[k].0;
                assert(out.lines[line as int] == b.lines[line as int]);
            } else {
                assert(r.image is Some);
                assert(out.images[k] == (b.lines.len() as usize, (r.image->0).0, (r.image->0).1));
                assert(out.lines[b.lines.len() as int] == r.lines[0]);
            }
        }
    }
}

/// Lines inside a fenced code block show as they are written, and no image
/// is recognized there.
pub proof fn law_code_block_verbatim(raw: Seq<char>, p: Palette)
    requires
        !crate::chars::starts_with(crate::chars::trim(raw), seq!['`', '`', '`']),
    ensures
        render_line(raw, true, p) == (LineRender {
            lines: seq![seq![(raw, crate::style::fg_style(p.code))]],
            image: None,
            in_code_block: true,
        }),
{
}

/// A listing is in order: no folder after a file, and within each group no
/// name (lower-cased) after a greater one.
pub proof fn law_listing_sorted(raw: Seq<FileEntry>)
    ensures
        ({
            let out = listing_order(visible(raw));
            forall|i: int, j: int|
                0 <= i < j < out.len() ==> !key_lt(
                    #[trigger] listing_key(out[j]),
                    #[trigger] listing_key(out[i]),
                )
        }),
{
    let v = visible(raw);
    let keyed = v.map_values(|e: FileEntry| (listing_key(e), e));
    lemma_stable_sort(keyed);
    let sorted = stable_sort(keyed);
    let out = listing_order(v);
    assert forall|i: int| 0 <= i < keyed.len() implies #[trigger] keyed[i].0 == listing_key(
        keyed[i].1,
    ) by {}
    assert forall|k: int| 0 <= k < sorted.len() implies #[trigger] sorted[k].0 == listing_key(
        sorted[k].1,
    ) by {
        lemma_sorted_keys_match(keyed, k);
    }
    assert forall|i: int, j: int| 0 <= i < j < out.len() implies !key_lt(
        #[trigger] listing_key(out[j]),
        #[trigger] listing_key(out[i]),
    ) by {
        assert(out[i] == sorted[i].1 && out[j] == sorted[j].1);
        assert(sorted[i].0 == listing_key(sorted[i].1));
        assert(sorted[j].0 == listing_key(sorted[j].1));
    }
}

/// Every key in a sorted sequence still belongs to its element, when each
/// element of the input carried its own listing key.
proof fn lemma_sorted_keys_match(keyed: Seq<(Key, FileEntry)>, k: int)
    requires
        forall|i: int| 0 <= i < keyed.len() ==> #[trigger] keyed[i].0 == listing_key(keyed[i].1),
        0 <= k < stable_sort(keyed).len(),
    ensures
        stable_sort(keyed)[k].0 == listing_key(stable_sort(keyed)[k].1),
{
    lemma_stable_sort(keyed);
    let s = stable_sort(keyed);
    vstd::seq_lib::to_multiset_contains(s, s[k]);
    vstd::seq_lib::to_multiset_contains(keyed, s[k]);
    assert(s.contains(s[k]));
    assert(keyed.contains(s[k]));
    let i = choose|i: int| 0 <= i < keyed.len() && keyed[i] == s[k];
    assert(keyed[i].0 == listing_key(keyed[i].1));
}

/// A listing shows each visible entry once and nothing else: as many
/// entries as are visible, none hidden, each one of the directory's.
pub proof fn law_listing_complete(raw: Seq<FileEntry>)
    ensures
        ({
            let out = listing_order(visible(raw));
            &&& out.len() == visible(raw).len()
            &&& forall|i: int| 0 <= i < out.len() ==> !is_hidden((#[trigger] out[i]).name@) && raw.contains(out[i])
        }),
{
    let v = visible(raw);
    let keyed = v.map_values(|e: FileEntry| (listing_key(e), e));
    lemma_stable_sort(keyed);
    let sorted = stable_sort(keyed);
    let out = listing_order(v);
    assert forall|i: int| 0 <= i < out.len() implies !is_hidden((#[trigger] out[i]).name@) && raw.contains(out[i]) by {
        vstd::seq_lib::to_multiset_contains(sorted, sorted[i]);
        vstd::seq_lib::to_multiset_contains(keyed, sorted[i]);
        assert(sorted.contains(sorted[i]));
        let j = choose|j: int| 0 <= j < keyed.len() && keyed[j] == sorted[i];
        assert(out[i] == v[j]);
        lemma_visible_entry(raw, j);
    }
}

/// An entry of `visible(raw)` is not hidden and comes from `raw`.
proof fn lemma_visible_entry(raw: Seq<FileEntry>, j: int)
    requires
        0 <= j < visible(raw).len(),
    ensures
        !is_hidden(visible(raw)[j].name@),
        raw.contains(visible(raw)[j]),
{
    broadcast use vstd::seq_lib::group_filter_ensures;

    let pred = |e: FileEntry| !is_hidden(e.name@);
    let v = raw.filter(pred);
    assert(visible(raw) == v);
    assert(pred(v[j]));
    assert(v.contains(v[j]));
    raw.lemma_filter_contains_rev(pred, v[j]);
}

/// The workspaces pane lists every pin once, files before folders, each
/// group by lower-cased path.
pub proof fn law_workspace_order(pins: Seq<(Seq<char>, bool)>)
    ensures
        ({
            let out = workspace_order(pins);
            &&& out.len() == pins.len()
            &&& forall|i: int, j: int|
                0 <= i < j < out.len() ==> !key_lt(#[trigger] pin_key(out[j]), #[trigger] pin_key(out[i]))
        }),
{
    let keyed = pins.map_values(|p: (Seq<char>, bool)| (pin_key(p), p));
    lemma_stable_sort(keyed);
    let sorted = stable_sort(keyed);
    let out = workspace_order(pins);
    assert forall|k: int| 0 <= k < sorted.len() implies #[trigger] sorted[k].0 == pin_key(sorted[k].1) by {
        vstd::seq_lib::to_multiset_contains(sorted, sorted[k]);
        vstd::seq_lib::to_multiset_contains(keyed, sorted[k]);
        assert(sorted.contains(sorted[k]));
        let j = choose|j: int| 0 <= j < keyed.len() && keyed[j] == sorted[k];
        assert(keyed[j].0 == pin_key(keyed[j].1));
    }
    assert forall|i: int, j: int| 0 <= i < j < out.len() implies !key_lt(
        #[trigger] pin_key(out[j]),
        #[trigger] pin_key(out[i]),
    ) by {
        assert(sorted[i].0 == pin_key(sorted[i].1));
        assert(sorted[j].0 == pin_key(sorted[j].1));
    }
}

/// Pinning a path that is not pinned and then toggling it again leaves the
/// pins as they were.
pub proof fn law_toggle_pin_twice(pins: Seq<(Seq<char>, bool)>, path: Seq<char>, is_dir: bool, again: bool)
    requires
        pin_position(pins, path) is None,
    ensures
        toggle_pin_spec(toggle_pin_spec(pins, path, is_dir), path, again) == pins,
{
    lemma_pin_position_bounds(pins, path);
    let once = pins.push((path, is_dir));
    lemma_pin_position_bounds(once, path);
    crate::config::lemma_pin_position_from(once, path, 0);
    assert forall|k: int| 0 <= k < pins.len() implies once[k].0 != path by {
        assert(once[k] == pins[k]);
    }
    assert(pin_position(once, path) == Some(pins.len() as int)) by {
        lemma_first_pin_at_end(once, path, 0);
    }
    assert(once.remove(pins.len() as int) =~= pins);
}

proof fn lemma_first_pin_at_end(s: Seq<(Seq<char>, bool)>, path: Seq<char>, i: int)
    requires
        0 <= i < s.len(),
        s.last().0 == path,
        forall|k: int| i <= k < s.len() - 1 ==> s[k].0 != path,
    ensures
        crate::config::pin_position_from(s, path, i) == Some(s.len() - 1),
    decreases s.len() - i,
{
    if i < s.len() - 1 {
        lemma_first_pin_at_end(s, path, i + 1);
    }
}

/// Unpinning a path removes every pin of it and keeps the others.
pub proof fn law_unpin(pins: Seq<(Seq<char>, bool)>, path: Seq<char>)
    ensures
        forall|i: int| 0 <= i < unpin_spec(pins, path).len() ==> (#[trigger] unpin_spec(pins, path)[i]).0 != path,
        forall|i: int| 0 <= i < pins.len() && pins[i].0 != path ==> unpin_spec(pins, path).contains(#[trigger] pins[i]),
{
    broadcast use vstd::seq_lib::group_filter_ensures;

    let pred = |p: (Seq<char>, bool)| p.0 != path;
    assert forall|i: int| 0 <= i < pins.len() && pins[i].0 != path implies unpin_spec(pins, path).contains(
        #[trigger] pins[i],
    ) by {
        assert(pins.contains(pins[i]));
        pins.lemma_filter_contains_rev(pred, pins[i]);
    }
}

/// The reading modes cycle with period three: `f` always changes the mode
/// and three presses bring it back.
pub proof fn law_fullscreen_cycle(m: FullscreenMode)
    ensures
        next_mode(m) != m,
        next_mode(next_mode(next_mode(m))) == m,
{
}

/// With pins and a non-empty folders pane, Shift-Tab undoes Tab and Tab
/// undoes Shift-Tab.
pub proof fn law_focus_cycle(s: AppView)
    requires
        s.pins.len() > 0,
        !folders_empty(s),
    ensures
        prev_section(AppView { active_section: next_section(s), ..s }) == s.active_section,
        next_section(AppView { active_section: prev_section(s), ..s }) == s.active_section,
{
}

/// The folders cursor after clamping is on a row when there is one, and a
/// cursor already on a row stays where it is.
pub proof fn law_clamp(index: usize, count: nat)
    ensures
        count > 0 ==> clamp_index(index, count) < count,
        count == 0 ==> clamp_index(index, count) == 0,
        index < count ==> clamp_index(index, count) == index,
        count <= usize::MAX ==> clamp_index(clamp_index(index, count), count) == clamp_index(index, count),
{
}

/// Closing a tab that is open once leaves it closed, with the other tabs
/// in their order.
pub proof fn law_close_tab(s: AppView, path: Seq<char>)
    requires
        s.open_files.contains(path),
        forall|i: int, j: int|
            0 <= i < j < s.open_files.len() ==> #[trigger] s.open_files[i] != #[trigger] s.open_files[j],
    ensures
        !close_step(s, path).0.open_files.contains(path),
        close_step(s, path).0.open_files.len() == s.open_files.len() - 1,
{
    crate::browser::lemma_position_of(s.open_files, path, 0);
    let idx = position_of(s.open_files, path, 0)->0;
    let files = s.open_files.remove(idx);
    if files.contains(path) {
        let k = choose|k: int| 0 <= k < files.len() && files[k] == path;
        if k < idx {
            assert(s.open_files[k] == path);
        } else {
            assert(s.open_files[k + 1] == path);
        }
    }
}

/// Alt sends ESC before what the key sends alone.
pub proof fn law_alt_prefix(key: KeyEvent)
    requires
        key.modifiers.alt,
        plain_key_seq(key.code, key.modifiers.control).len() > 0,
    ensures
        key_seq(key) == seq![0x1bu8] + plain_key_seq(key.code, key.modifiers.control),
{
}

/// An explicit light or dark setting decides the palette, light first.
pub proof fn law_palette_overrides(dark: bool, colorfgbg: Option<Seq<char>>, style: Option<Seq<char>>)
    ensures
        light_mode_rule(true, dark, colorfgbg, style),
        !light_mode_rule(false, true, colorfgbg, style),
{
}

/// While an editor runs in the viewer, keys change nothing but the status
/// message and go to the editor.
pub proof fn law_editor_keys(s: AppView, key: KeyEvent)
    requires
        s.editing,
    ensures
        key_step(s, key).0 == (AppView { status_message: None, ..s }),
        key_step(s, key).1 is Nothing || key_step(s, key).1 == (EffectView::PtyInput { bytes: key_seq(key) }),
{
}

/// Esc in the search prompt closes it and drops the query.
pub proof fn law_search_cancel(s: AppView)
    requires
        !s.editing,
        !s.create_active,
        s.search_active,
    ensures
        ({
            let esc = KeyEvent {
                code: crate::keys::KeyCode::Esc,
                modifiers: crate::keys::KeyModifiers {
                    shift: false,
                    control: false,
                    alt: false,
                    super_key: false,
                    hyper: false,
                    meta: false,
                },
                kind: crate::keys::KeyEventKind::Press,
            };
            let t = key_step(s, esc).0;
            &&& !t.search_active
            &&& t.search_query is None
            &&& t.search_input.len() == 0
        }),
{
}

/// Position `i` of a list whose entries are all different is where
/// `position_of` finds its entry.
proof fn lemma_position_distinct(s: Seq<Seq<char>>, i: int)
    requires
        0 <= i < s.len(),
        forall|a: int, b: int| 0 <= a < b < s.len() ==> #[trigger] s[a] != #[trigger] s[b],
    ensures
        position_of(s, s[i], 0) == Some(i),
{
    crate::browser::lemma_position_of(s, s[i], 0);
    match position_of(s, s[i], 0) {
        Some(j) => {
            if j < i {
                assert(s[j] != s[i]);
            } else if j > i {
                assert(s[i] != s[i]);
            }
        },
        None => {},
    }
}

/// With the file of tab `i` open and every tab a different file, `]` opens
/// the next tab (the first after the last) and `[` from there opens tab `i`
/// again.
pub proof fn law_tab_cycle(s: AppView, i: int)
    requires
        0 <= i < s.open_files.len(),
        forall|a: int, b: int|
            0 <= a < b < s.open_files.len() ==> #[trigger] s.open_files[a] != #[trigger] s.open_files[b],
        s.selected_file == Some(s.open_files[i]),
    ensures
        ({
            let n = s.open_files.len() as int;
            let j = if i == n - 1 {
                0
            } else {
                i + 1
            };
            &&& tab_step(s, true) == EffectView::SelectFile {
                path: s.open_files[j],
                focus_viewer: false,
                fullscreen: false,
                edit: false,
            }
            &&& tab_step(AppView { selected_file: Some(s.open_files[j]), ..s }, false)
                == EffectView::SelectFile {
                path: s.open_files[i],
                focus_viewer: false,
                fullscreen: false,
                edit: false,
            }
        }),
{
    let n = s.open_files.len() as int;
    let j = if i == n - 1 {
        0
    } else {
        i + 1
    };
    lemma_position_distinct(s.open_files, i);
    lemma_position_distinct(s.open_files, j);
}

/// Opening a folder that is closed in tree view and closing it again
/// leaves the open folders as they were.
pub proof fn law_toggle_expand_twice(paths: Seq<Seq<char>>, p: Seq<char>)
    requires
        !paths.contains(p),
    ensures
        toggle_path(toggle_path(paths, p), p) == paths,
{
    broadcast use vstd::seq_lib::group_filter_ensures;

    let once = paths.push(p);
    assert(toggle_path(paths, p) == once);
    assert(once.contains(p)) by {
        assert(once[paths.len() as int] == p);
    }
    lemma_filter_keeps_all(paths, p);
    reveal(Seq::filter);
    assert(once.drop_last() =~= paths);
    assert(once.last() == p);
    assert(without(once, p) == without(paths, p));
}

/// Filtering out `p` keeps a list without `p` as it is.
proof fn lemma_filter_keeps_all(s: Seq<Seq<char>>, p: Seq<char>)
    requires
        !s.contains(p),
    ensures
        without(s, p) == s,
    decreases s.len(),
{
    reveal(Seq::filter);
    if s.len() > 0 {
        let d = s.drop_last();
        assert(!d.contains(p)) by {
            if d.contains(p) {
                let k = choose|k: int| 0 <= k < d.len() && d[k] == p;
                assert(s[k] == p);
            }
        }
        lemma_filter_keeps_all(d, p);
        assert(s.last() != p) by {
            assert(s[s.len() - 1] == s.last());
        }
        assert(d.push(s.last()) =~= s);
    }
}

/// Typing a character into the search prompt and deleting it again leaves
/// the typed query as it was.
pub proof fn law_search_backspace(s: AppView, c: char, m: KeyModifiers, k: KeyEventKind)
    requires
        !s.editing,
        !s.create_active,
        s.search_active,
    ensures
        ({
            let t = key_step(s, KeyEvent { code: KeyCode::Char(c), modifiers: m, kind: k }).0;
            let u = key_step(t, KeyEvent { code: KeyCode::Backspace, modifiers: m, kind: k }).0;
            &&& u.search_input == s.search_input
            &&& u.search_active
            &&& u.search_query == if s.search_input.len() > 0 {
                Some(s.search_input)
            } else {
                None
            }
        }),
{
    assert(s.search_input.push(c).drop_last() =~= s.search_input);
}

/// Typing a character into the new-file prompt and deleting it again leaves
/// the typed name as it was.
pub proof fn law_create_backspace(s: AppView, c: char, m: KeyModifiers, k: KeyEventKind)
    requires
        !s.editing,
        s.create_active,
    ensures
        ({
            let t = key_step(s, KeyEvent { code: KeyCode::Char(c), modifiers: m, kind: k }).0;
            let u = key_step(t, KeyEvent { code: KeyCode::Backspace, modifiers: m, kind: k }).0;
            &&& u.create_input == s.create_input
            &&& u.create_active
        }),
{
    assert(s.create_input.push(c).drop_last() =~= s.create_input);
}

/// Pins written to the settings as records with a path and a kind are read
/// back as the same pins, in the same order, whatever the disk holds.
pub proof fn law_pins_read_back(es: Seq<EntryV>)
    requires
        forall|i: int| 0 <= i < es.len() ==> (#[trigger] es[i] matches EntryV::Record(Some(_), Some(_))),
    ensures
        stored_pins(es).len() == es.len(),
        forall|i: int|
            0 <= i < es.len() ==> (#[trigger] es[i] matches EntryV::Record(Some(p), Some(d)) && stored_pins(es)[i]
                == (p, Some(d))),
    decreases es.len(),
{
    if es.len() > 0 {
        let d = es.drop_last();
        assert forall|i: int| 0 <= i < d.len() implies (#[trigger] d[i] matches EntryV::Record(Some(_), Some(_))) by {
            assert(d[i] == es[i]);
        }
        law_pins_read_back(d);
        assert(es[es.len() - 1] == es.last());
        assert forall|i: int| 0 <= i < es.len() implies (#[trigger] es[i] matches EntryV::Record(Some(p), Some(dd))
            && stored_pins(es)[i] == (p, Some(dd))) by {
            if i < d.len() {
                assert(d[i] == es[i]);
            }
        }
    }
}

/// A search returns, in listing order, exactly the entries found that match
/// the query: no folder after a file, names in order within each group,
/// each result one of the entries found, with a name containing the query
/// (both lower-cased), and as many results as matching entries.
pub proof fn law_search_results(found: Seq<FileEntry>, query: Seq<char>)
    ensures
        ({
            let out = listing_order(search_hits(found, query));
            &&& out.len() == search_hits(found, query).len()
            &&& forall|i: int, j: int|
                0 <= i < j < out.len() ==> !key_lt(
                    #[trigger] listing_key(out[j]),
                    #[trigger] listing_key(out[i]),
                )
            &&& forall|i: int|
                0 <= i < out.len() ==> found.contains(#[trigger] out[i]) && contains(
                    lowercase(out[i].name@),
                    lowercase(query),
                )
        }),
{
    let v = search_hits(found, query);
    lemma_listing_order(v);
    let out = listing_order(v);
    assert forall|i: int| 0 <= i < out.len() implies found.contains(#[trigger] out[i]) && contains(
        lowercase(out[i].name@),
        lowercase(query),
    ) by {
        assert(v.contains(out[i]));
        let j = choose|j: int| 0 <= j < v.len() && v[j] == out[i];
        lemma_search_hit(found, query, j);
    }
}

/// An entry of `search_hits(found, query)` matches and comes from `found`.
proof fn lemma_search_hit(found: Seq<FileEntry>, query: Seq<char>, j: int)
    requires
        0 <= j < search_hits(found, query).len(),
    ensures
        contains(lowercase(search_hits(found, query)[j].name@), lowercase(query)),
        found.contains(search_hits(found, query)[j]),
{
    broadcast use vstd::seq_lib::group_filter_ensures;

    let pred = |e: FileEntry| contains(lowercase(e.name@), lowercase(query));
    let v = found.filter(pred);
    assert(search_hits(found, query) == v);
    assert(pred(v[j]));
    assert(v.contains(v[j]));
    found.lemma_filter_contains_rev(pred, v[j]);
}

/// `listing_order(v)` is a reordering of `v` that is in listing order.
proof fn lemma_listing_order(v: Seq<FileEntry>)
    ensures
        listing_order(v).len() == v.len(),
        forall|i: int, j: int|
            0 <= i < j < listing_order(v).len() ==> !key_lt(
                #[trigger] listing_key(listing_order(v)[j]),
                #[trigger] listing_key(listing_order(v)[i]),
            ),
        forall|i: int| 0 <= i < listing_order(v).len() ==> v.contains(#[trigger] listing_order(v)[i]),
{
    let keyed = v.map_values(|e: FileEntry| (listing_key(e), e));
    lemma_stable_sort(keyed);
    let sorted = stable_sort(keyed);
    let out = listing_order(v);
    assert forall|i: int, j: int| 0 <= i < j < out.len() implies !key_lt(
        #[trigger] listing_key(out[j]),
        #[trigger] listing_key(out[i]),
    ) by {
        lemma_sorted_entry(v, i);
        lemma_sorted_entry(v, j);
    }
    assert forall|i: int| 0 <= i < out.len() implies v.contains(#[trigger] out[i]) by {
        lemma_sorted_entry(v, i);
    }
}

/// Entry `k` of the sorted, keyed `v` carries its own listing key and comes
/// from `v`.
proof fn lemma_sorted_entry(v: Seq<FileEntry>, k: int)
    requires
        0 <= k < v.len(),
    ensures
        ({
            let sorted = stable_sort(v.map_values(|e: FileEntry| (listing_key(e), e)));
            &&& sorted[k].0 == listing_key(sorted[k].1)
            &&& v.contains(sorted[k].1)
            &&& listing_order(v)[k] == sorted[k].1
        }),
{
    let keyed = v.map_values(|e: FileEntry| (listing_key(e), e));
    lemma_stable_sort(keyed);
    let sorted = stable_sort(keyed);
    vstd::seq_lib::to_multiset_contains(sorted, sorted[k]);
    vstd::seq_lib::to_multiset_contains(keyed, sorted[k]);
    assert(sorted.contains(sorted[k]));
    let j = choose|j: int| 0 <= j < keyed.len() && keyed[j] == sorted[k];
    assert(keyed[j].0 == listing_key(keyed[j].1));
    assert(v[j] == keyed[j].1);
}

/// Control with a letter, in either case and without Alt, sends the
/// letter's control code: 1 for `a` up to 26 for `z`.
pub proof fn law_ctrl_letters(c: char, m: KeyModifiers, k: KeyEventKind)
    requires
        ('a' <= c && c <= 'z') || ('A' <= c && c <= 'Z'),
        m.control,
        !m.alt,
    ensures
        ({
            let lower: int = if 'A' <= c && c <= 'Z' {
                (c as u32) + 32
            } else {
                c as u32 as int
            };
            key_seq(KeyEvent { code: KeyCode::Char(c), modifiers: m, kind: k }) == seq![(lower - 96) as u8]
        }),
{
}

/// Moving the cursor with the arrow keys or `j` and `k` in the workspaces
/// or folders pane keeps the focused pane's cursor on a row: it moves
/// within the list, or on to the neighbouring pane's first or last row.
#[verifier::rlimit(50)]
pub proof fn law_cursor_moves_stay_on_rows(s: AppView, key: KeyEvent)
    requires
        !s.editing,
        !s.create_active,
        !s.search_active,
        !s.gui_missing_active,
        s.active_section != ActiveSection::Viewer,
        key.code == KeyCode::Up || key.code == KeyCode::Down || key.code == KeyCode::Char('j')
            || key.code == KeyCode::Char('k'),
        cursor_in_range(s),
    ensures
        cursor_in_range(key_step(s, key).0),
{
    crate::browser::lemma_workspace_order_len(s.pins);
}

/// `?` opens the help screen and `?` again closes it, changing nothing else
/// but the status message.
pub proof fn law_help_toggle(s: AppView, m: KeyModifiers, k: KeyEventKind)
    requires
        !s.editing,
        !s.create_active,
        !s.search_active,
        !s.gui_missing_active,
    ensures
        ({
            let q = KeyEvent { code: KeyCode::Char('?'), modifiers: m, kind: k };
            let t = key_step(s, q).0;
            &&& t.help_active == !s.help_active
            &&& key_step(t, q).0 == (AppView { status_message: None, ..s })
        }),
{
}

/// The path and kind that `p` pins or unpins in the folders pane: the row
/// under the cursor, or the current folder when the pane is empty.
pub open spec fn pin_target(s: AppView) -> (Seq<char>, bool) {
    match current_row(s) {
        Some(r) => (r.1, r.2),
        None => (s.current_dir, true),
    }
}

/// No two pins share a path.
pub open spec fn pins_distinct(pins: Seq<(Seq<char>, bool)>) -> bool {
    forall|i: int, j: int| 0 <= i < j < pins.len() ==> #[trigger] pins[i].0 != #[trigger] pins[j].0
}

/// Pressing `p` in the folders pane on a path that is not pinned pins it at
/// the end and asks to save the settings; pressing `p` again restores the
/// pins. Pins that shared no path still share none after each step.
pub proof fn law_pin_key_twice(s: AppView, key: KeyEvent)
    requires
        !s.editing,
        !s.create_active,
        !s.search_active,
        !s.gui_missing_active,
        s.active_section == ActiveSection::Folders,
        s.cached_search_results is None,
        cursor_in_range(s),
        key.code == KeyCode::Char('p'),
        pin_position(s.pins, pin_target(s).0) is None,
    ensures
        ({
            let (t, e) = key_step(s, key);
            let u = key_step(t, key).0;
            &&& t.pins == s.pins.push(pin_target(s))
            &&& e == EffectView::SaveConfig
            &&& u.pins == s.pins
            &&& pins_distinct(s.pins) ==> pins_distinct(t.pins) && pins_distinct(u.pins)
        }),
{
    let (t, e) = key_step(s, key);
    let target = pin_target(s);
    assert(pin_target(t) == target);
    law_toggle_pin_twice(s.pins, target.0, target.1, target.1);
    lemma_pin_position_bounds(s.pins, target.0);
    if pins_distinct(s.pins) {
        assert forall|i: int, j: int| 0 <= i < j < t.pins.len() implies #[trigger] t.pins[i].0
            != #[trigger] t.pins[j].0 by {
            if j == s.pins.len() {
                assert(t.pins[i] == s.pins[i]);
            } else {
                assert(t.pins[i] == s.pins[i] && t.pins[j] == s.pins[j]);
            }
        }
    }
}

/// In the viewer with a file open and the normal layout, `f` three times
/// goes to the margins mode, then the mode without margins, then back,
/// asking for a repaint each time; with no file open `f` leaves the layout.
pub proof fn law_reading_mode_keys(s: AppView, key: KeyEvent)
    requires
        !s.editing,
        !s.create_active,
        !s.search_active,
        !s.gui_missing_active,
        s.active_section == ActiveSection::Viewer,
        s.fullscreen == FullscreenMode::Off,
        key.code == KeyCode::Char('f'),
    ensures
        ({
            let a = key_step(s, key).0;
            let b = key_step(a, key).0;
            let c = key_step(b, key).0;
            &&& s.selected_file is Some ==> {
                &&& a.fullscreen == FullscreenMode::Margins && a.needs_clear
                &&& b.fullscreen == FullscreenMode::NoMargins && b.needs_clear
                &&& c.fullscreen == FullscreenMode::Off && c.needs_clear
            }
            &&& s.selected_file is None ==> a.fullscreen == FullscreenMode::Off
        }),
{
}

/// The keys of the search prompt: a character is added to the input, Back
/// Space removes the last one, Enter closes the prompt keeping the input,
/// Esc closes it and empties the input; after each of them the query is the
/// input, or none when the input is empty, and but for Esc the cursor is on
/// the first row. Other keys change nothing but the status message.
pub proof fn law_search_input_keys(s: AppView, key: KeyEvent)
    requires
        !s.editing,
        !s.create_active,
        s.search_active,
    ensures
        ({
            let t = key_step(s, key).0;
            let query_follows = t.search_query == if t.search_input.len() == 0 {
                None::<Seq<char>>
            } else {
                Some(t.search_input)
            };
            match key.code {
                KeyCode::Char(c) => t.search_input == s.search_input.push(c) && t.search_active
                    && query_follows && t.folder_index == 0,
                KeyCode::Backspace => t.search_input == (if s.search_input.len() > 0 {
                    s.search_input.drop_last()
                } else {
                    s.search_input
                }) && t.search_active && query_follows && t.folder_index == 0,
                KeyCode::Enter => t.search_input == s.search_input && !t.search_active && query_follows
                    && t.folder_index == 0,
                KeyCode::Esc => t.search_input.len() == 0 && !t.search_active && query_follows,
                _ => t == (AppView { status_message: None, ..s }),
            }
        }),
{
}

/// Pins written to the settings file read back as the same pins, in the
/// same order, whatever the disk says of their paths.
pub proof fn law_workspaces_round_trip(es: Seq<EntryV>, pins: Seq<(Seq<char>, bool)>, files: Seq<bool>)
    requires
        records_of(es, pins),
        files.len() == pins.len(),
    ensures
        Seq::new(pins.len(), |i: int| resolved(stored_pins(es)[i], files[i])) == pins,
{
    assert forall|i: int| 0 <= i < es.len() implies (#[trigger] es[i] matches EntryV::Record(Some(_), Some(_))) by {}
    law_pins_read_back(es);
    assert forall|i: int| 0 <= i < pins.len() implies resolved(stored_pins(es)[i], files[i]) == pins[i] by {
        assert(es[i] == EntryV::Record(Some(pins[i].0), Some(pins[i].1)));
    }
    assert(Seq::new(pins.len(), |i: int| resolved(stored_pins(es)[i], files[i])) =~= pins);
}

/// No folder occurs twice among `paths`.
pub open spec fn paths_distinct(paths: Seq<Seq<char>>) -> bool {
    forall|i: int, j: int| 0 <= i < j < paths.len() ==> #[trigger] paths[i] != #[trigger] paths[j]
}

/// Removing a folder from a list without repeats leaves a list without
/// repeats, holding just the other folders.
proof fn lemma_without_distinct(paths: Seq<Seq<char>>, p: Seq<char>)
    requires
        paths_distinct(paths),
    ensures
        paths_distinct(without(paths, p)),
        forall|x: Seq<char>| #[trigger] without(paths, p).contains(x) ==> paths.contains(x) && x != p,
    decreases paths.len(),
{
    reveal(Seq::filter);
    if paths.len() > 0 {
        let d = paths.drop_last();
        assert(paths_distinct(d)) by {
            assert forall|i: int, j: int| 0 <= i < j < d.len() implies #[trigger] d[i] != #[trigger] d[j] by {
                assert(d[i] == paths[i] && d[j] == paths[j]);
            }
        }
        lemma_without_distinct(d, p);
        let w = without(d, p);
        let last = paths.last();
        assert(!d.contains(last)) by {
            if d.contains(last) {
                let k = choose|k: int| 0 <= k < d.len() && d[k] == last;
                assert(paths[k] == paths[paths.len() - 1]);
            }
        }
        assert forall|x: Seq<char>| #[trigger] without(paths, p).contains(x) implies paths.contains(x) && x != p by {
            if w.contains(x) {
                let k = choose|k: int| 0 <= k < d.len() && d[k] == x;
                assert(paths[k] == x);
            } else {
                assert(x == last && last != p);
                assert(paths[paths.len() - 1] == x);
            }
        }
        if last != p {
            assert(without(paths, p) == w.push(last));
            assert forall|i: int, j: int| 0 <= i < j < w.push(last).len() implies #[trigger] w.push(last)[i]
                != #[trigger] w.push(last)[j] by {
                if j == w.len() {
                    assert(w.contains(w[i]));
                }
            }
        } else {
            assert(without(paths, p) == w);
        }
    }
}

/// Opening or closing a folder in tree view keeps the open folders free of
/// repeats (see `toggle_path`).
pub proof fn law_toggle_path_distinct(paths: Seq<Seq<char>>, p: Seq<char>)
    requires
        paths_distinct(paths),
    ensures
        paths_distinct(toggle_path(paths, p)),
{
    if paths.contains(p) {
        lemma_without_distinct(paths, p);
    } else {
        assert forall|i: int, j: int| 0 <= i < j < paths.push(p).len() implies #[trigger] paths.push(p)[i]
            != #[trigger] paths.push(p)[j] by {
            if j == paths.len() {
                assert(paths.contains(paths[i]));
            }
        }
    }
}

/// No key makes a folder occur twice among the open folders of tree view.
#[verifier::rlimit(50)]
pub proof fn law_expanded_distinct(s: AppView, key: KeyEvent)
    requires
        paths_distinct(s.expanded_paths),
    ensures
        paths_distinct(key_step(s, key).0.expanded_paths),
{
    let e = s.expanded_paths;
    if s.tree.len() > 0 {
        let n = s.tree[s.folder_index as int];
        lemma_without_distinct(e, n.1);
    }
    if current_row(s) is Some {
        let r = current_row(s)->0;
        law_toggle_path_distinct(e, r.1);
        if !e.contains(r.1) {
            assert forall|i: int, j: int| 0 <= i < j < e.push(r.1).len() implies #[trigger] e.push(r.1)[i]
                != #[trigger] e.push(r.1)[j] by {
                if j == e.len() {
                    assert(e.contains(e[i]));
                }
            }
        }
    }
}

/// Opening folders to show a file (see `insert_paths`) keeps the open
/// folders free of repeats.
pub proof fn law_insert_paths_distinct(paths: Seq<Seq<char>>, ps: Seq<Seq<char>>)
    requires
        paths_distinct(paths),
    ensures
        paths_distinct(insert_paths(paths, ps)),
    decreases ps.len(),
{
    if ps.len() > 0 {
        law_insert_paths_distinct(paths, ps.drop_last());
        let q = insert_paths(paths, ps.drop_last());
        if !q.contains(ps.last()) {
            assert forall|i: int, j: int| 0 <= i < j < q.push(ps.last()).len() implies #[trigger] q.push(
                ps.last(),
            )[i] != #[trigger] q.push(ps.last())[j] by {
                if j == q.len() {
                    assert(q.contains(q[i]));
                }
            }
        }
    }
}

/// `p` in the folders pane (`folders_key`, which `handle_key_folders`
/// follows) while no search results are shown pins the row under the
/// cursor, or the current folder when the pane is empty, at the end when it
/// is not pinned and asks to save; `p` again restores the pins; pins that
/// shared no path still share none.
pub proof fn law_folders_pin_twice(s: AppView, key: KeyEvent)
    requires
        cursor_in_range(s),
        s.active_section == ActiveSection::Folders,
        s.cached_search_results is None,
        key.code == KeyCode::Char('p'),
        pin_position(s.pins, pin_target(s).0) is None,
    ensures
        ({
            let (t, e) = folders_key(s, key);
            let u = folders_key(t, key).0;
            &&& t.pins == s.pins.push(pin_target(s))
            &&& e == EffectView::SaveConfig
            &&& u.pins == s.pins
            &&& pins_distinct(s.pins) ==> pins_distinct(t.pins) && pins_distinct(u.pins)
        }),
{
    let (t, e) = folders_step(s, key);
    assert(t.cached_search_results is None);
    let target = pin_target(s);
    assert(pin_target(t) == target);
    law_toggle_pin_twice(s.pins, target.0, target.1, target.1);
    lemma_pin_position_bounds(s.pins, target.0);
    if pins_distinct(s.pins) {
        assert forall|i: int, j: int| 0 <= i < j < t.pins.len() implies #[trigger] t.pins[i].0
            != #[trigger] t.pins[j].0 by {
            if j == s.pins.len() {
                assert(t.pins[i] == s.pins[i]);
            } else {
                assert(t.pins[i] == s.pins[i] && t.pins[j] == s.pins[j]);
            }
        }
    }
}

/// `f` in the viewer (`viewer_step`, which `handle_key_viewer` follows)
/// with a file open and the normal layout goes to the margins mode, then
/// the mode without margins, then back, asking for a repaint each time;
/// with no file open it leaves the layout.
pub proof fn law_viewer_reading_modes(s: AppView, key: KeyEvent)
    requires
        s.fullscreen == FullscreenMode::Off,
        key.code == KeyCode::Char('f'),
    ensures
        ({
            let a = viewer_step(s, key).0;
            let b = viewer_step(a, key).0;
            let c = viewer_step(b, key).0;
            &&& s.selected_file is Some ==> {
                &&& a.fullscreen == FullscreenMode::Margins && a.needs_clear
                &&& b.fullscreen == FullscreenMode::NoMargins && b.needs_clear
                &&& c.fullscreen == FullscreenMode::Off && c.needs_clear
            }
            &&& s.selected_file is None ==> a.fullscreen == FullscreenMode::Off
        }),
{
}

/// The search prompt's own handling (`search_input_step`, which
/// `handle_key_search_input` follows): a character is added, Backspace
/// removes the last one, Enter closes the prompt keeping the input, Esc
/// closes it emptying the input; after each the query is the input, or none
/// when it is empty, and but for Esc the cursor is on the first row; other
/// keys change nothing.
pub proof fn law_search_prompt_keys(s: AppView, key: KeyEvent)
    ensures
        ({
            let t = search_input_step(s, key).0;
            let query_follows = t.search_query == if t.search_input.len() == 0 {
                None::<Seq<char>>
            } else {
                Some(t.search_input)
            };
            match key.code {
                KeyCode::Char(c) => t.search_input == s.search_input.push(c) && query_follows && t.folder_index
                    == 0,
                KeyCode::Backspace => t.search_input == (if s.search_input.len() > 0 {
                    s.search_input.drop_last()
                } else {
                    s.search_input
                }) && query_follows && t.folder_index == 0,
                KeyCode::Enter => t.search_input == s.search_input && !t.search_active && query_follows
                    && t.folder_index == 0,
                KeyCode::Esc => t.search_input.len() == 0 && !t.search_active && query_follows,
                _ => t == s,
            }
        }),
{
}


/// `**` starts at index `i` of `line`.
pub open spec fn stars_at(line: Seq<char>, i: int) -> bool {
    0 <= i && i + 1 < line.len() && line[i] == '*' && line[i + 1] == '*'
}

/// Where `p` is one character long, it occurs at `i` just when that
/// character is there.
proof fn lemma_one_char_match(line: Seq<char>, c: char, i: int)
    requires
        0 <= i < line.len(),
    ensures
        matches_at(line, seq![c], i) <==> line[i] == c,
{
    if line[i] == c {
        assert(line.subrange(i, i + 1) =~= seq![c]);
    } else {
        assert(line.subrange(i, i + 1)[0] == line[i]);
    }
}

/// `**` occurs at `i` just when `stars_at` says so.
proof fn lemma_stars_match(line: Seq<char>, i: int)
    requires
        0 <= i,
    ensures
        matches_at(line, seq!['*', '*'], i) <==> stars_at(line, i),
{
    if stars_at(line, i) {
        assert(line.subrange(i, i + 2) =~= seq!['*', '*']);
    } else if i + 2 <= line.len() {
        if line.subrange(i, i + 2) == seq!['*', '*'] {
            assert(line.subrange(i, i + 2)[0] == line[i]);
            assert(line.subrange(i, i + 2)[1] == line[i + 1]);
        }
    }
}

/// Inline scanning takes whichever marker comes first: when a line's first
/// `**` (at `b`) comes before any backtick and is closed by the next `**`
/// (at `c`), the line renders as the plain text before `b`, if any, and
/// then the text between the two markers in bold.
pub proof fn law_bold_before_code(line: Seq<char>, b: int, c: int, text: Color, code: Color, code_bg: Color)
    requires
        stars_at(line, b),
        b + 2 <= c,
        stars_at(line, c),
        forall|i: int| 0 <= i < b ==> !#[trigger] stars_at(line, i),
        forall|i: int| b + 2 <= i < c ==> !#[trigger] stars_at(line, i),
        forall|i: int| 0 <= i <= b ==> #[trigger] line[i] != '`',
    ensures
        ({
            let sp = inline_spans(line, text, code, code_bg);
            let k = if b > 0 { 1int } else { 0int };
            &&& b > 0 ==> sp[0] == (line.subrange(0, b), fg_style(text))
            &&& sp.len() > k
            &&& sp[k] == (line.subrange(b + 2, c), fg_mod_style(text, MOD_BOLD))
        }),
{
    let tick = find_from(line, seq!['`'], 0);
    let bold = find_from(line, seq!['*', '*'], 0);
    lemma_find_from(line, seq!['`'], 0);
    lemma_find_from(line, seq!['*', '*'], 0);
    lemma_find_from(line, seq!['*', '*'], b + 2);
    lemma_stars_match(line, b);
    lemma_stars_match(line, c);
    assert(bold == Some(b)) by {
        let j = bold->0;
        if j < b {
            lemma_stars_match(line, j);
        }
    }
    assert(find_from(line, seq!['*', '*'], b + 2) == Some(c)) by {
        let j = find_from(line, seq!['*', '*'], b + 2)->0;
        if j < c {
            lemma_stars_match(line, j);
        }
    }
    if tick is Some {
        let t = tick->0;
        assert(t > b) by {
            if t <= b {
                assert(matches_at(line, seq!['`'], t));
                lemma_one_char_match(line, '`', t);
            }
        }
    }
    lemma_inline_step_advances(line, 0, text, code, code_bg);
    let (emitted, next) = inline_step(line, 0, text, code, code_bg);
    assert(inline_spans(line, text, code, code_bg) == emitted + inline_spans_from(line, next, text, code, code_bg));
}

/// Inline scanning takes whichever marker comes first: when a line's first
/// backtick (at `t`) comes before any `**` and is closed by the next
/// backtick (at `c`), the line renders as the plain text before `t`, if
/// any, and then the text between the backticks as code, padded by a space
/// on each side.
pub proof fn law_code_before_bold(line: Seq<char>, t: int, c: int, text: Color, code: Color, code_bg: Color)
    requires
        0 <= t < c < line.len(),
        line[t] == '`',
        line[c] == '`',
        forall|i: int| 0 <= i < t ==> #[trigger] line[i] != '`',
        forall|i: int| t < i < c ==> #[trigger] line[i] != '`',
        forall|i: int| 0 <= i < t ==> !#[trigger] stars_at(line, i),
    ensures
        ({
            let sp = inline_spans(line, text, code, code_bg);
            let k = if t > 0 { 1int } else { 0int };
            &&& t > 0 ==> sp[0] == (line.subrange(0, t), fg_style(text))
            &&& sp.len() > k
            &&& sp[k] == (seq![' '] + line.subrange(t + 1, c) + seq![' '], fg_bg_style(code, code_bg))
        }),
{
    let tick = find_from(line, seq!['`'], 0);
    let bold = find_from(line, seq!['*', '*'], 0);
    lemma_find_from(line, seq!['`'], 0);
    lemma_find_from(line, seq!['`'], t + 1);
    lemma_find_from(line, seq!['*', '*'], 0);
    lemma_one_char_match(line, '`', t);
    lemma_one_char_match(line, '`', c);
    assert(tick == Some(t)) by {
        let j = tick->0;
        if j < t {
            lemma_one_char_match(line, '`', j);
        }
    }
    assert(find_from(line, seq!['`'], t + 1) == Some(c)) by {
        let j = find_from(line, seq!['`'], t + 1)->0;
        if j < c {
            lemma_one_char_match(line, '`', j);
        }
    }
    if bold is Some {
        let b = bold->0;
        assert(b > t) by {
            if b <= t {
                lemma_stars_match(line, b);
                if b == t {
                    assert(line[b] == '*');
                }
            }
        }
    }
    lemma_inline_step_advances(line, 0, text, code, code_bg);
    let (emitted, next) = inline_step(line, 0, text, code, code_bg);
    assert(inline_spans(line, text, code, code_bg) == emitted + inline_spans_from(line, next, text, code, code_bg));
}

/// The arrow keys send the xterm cursor sequences `ESC [ A` (up), `ESC [ B`
/// (down), `ESC [ C` (right) and `ESC [ D` (left), after an ESC when Alt is
/// held, whatever the other modifiers.
pub proof fn law_arrow_keys(key: KeyEvent)
    requires
        key.code == KeyCode::Up || key.code == KeyCode::Down || key.code == KeyCode::Right || key.code
            == KeyCode::Left,
    ensures
        ({
            let last: u8 = if key.code == KeyCode::Up {
                0x41
            } else if key.code == KeyCode::Down {
                0x42
            } else if key.code == KeyCode::Right {
                0x43
            } else {
                0x44
            };
            let seq3 = seq![0x1bu8, 0x5bu8, last];
            key_seq(key) == if key.modifiers.alt {
                seq![0x1bu8] + seq3
            } else {
                seq3
            }
        }),
{
}

/// Two different arrow keys with the same modifiers send different bytes.
pub proof fn law_arrow_keys_distinct(a: KeyEvent, b: KeyEvent)
    requires
        a.code == KeyCode::Up || a.code == KeyCode::Down || a.code == KeyCode::Right || a.code == KeyCode::Left,
        b.code == KeyCode::Up || b.code == KeyCode::Down || b.code == KeyCode::Right || b.code == KeyCode::Left,
        a.code != b.code,
        a.modifiers == b.modifiers,
    ensures
        key_seq(a) != key_seq(b),
{
    law_arrow_keys(a);
    law_arrow_keys(b);
    let sa = key_seq(a);
    let sb = key_seq(b);
    let n = sa.len() - 1;
    assert(sa[n] != sb[n]);
}

/// The media extensions: images and videos.
pub open spec fn media_extensions() -> Seq<Seq<char>> {
    seq![
        ".png"@, ".jpg"@, ".jpeg"@, ".gif"@, ".webp"@, ".svg"@, ".bmp"@, ".ico"@,
        ".mp4"@, ".webm"@, ".ogg"@, ".mov"@, ".mkv"@,
    ]
}

/// `l` ends with `e`.
pub open spec fn has_suffix(l: Seq<char>, e: Seq<char>) -> bool {
    e.len() <= l.len() && l.subrange(l.len() - e.len(), l.len() as int) == e
}

/// A lower-cased name is a media name (`is_media_file` of any name whose
/// lower-case form it is) just when it ends with one of `.png`, `.jpg`,
/// `.jpeg`, `.gif`, `.webp`, `.svg`, `.bmp`, `.ico`, `.mp4`, `.webm`,
/// `.ogg`, `.mov` or `.mkv`.
pub proof fn law_media_extensions(l: Seq<char>)
    ensures
        media_ext(l) <==> exists|i: int| 0 <= i < media_extensions().len() && has_suffix(l, #[trigger] media_extensions()[i]),
{
    reveal_strlit(".png");
    reveal_strlit(".jpg");
    reveal_strlit(".jpeg");
    reveal_strlit(".gif");
    reveal_strlit(".webp");
    reveal_strlit(".svg");
    reveal_strlit(".bmp");
    reveal_strlit(".ico");
    reveal_strlit(".mp4");
    reveal_strlit(".webm");
    reveal_strlit(".ogg");
    reveal_strlit(".mov");
    reveal_strlit(".mkv");
    let m = media_extensions();
    assert(m[0] =~= seq!['.', 'p', 'n', 'g']);
    assert(m[1] =~= seq!['.', 'j', 'p', 'g']);
    assert(m[2] =~= seq!['.', 'j', 'p', 'e', 'g']);
    assert(m[3] =~= seq!['.', 'g', 'i', 'f']);
    assert(m[4] =~= seq!['.', 'w', 'e', 'b', 'p']);
    assert(m[5] =~= seq!['.', 's', 'v', 'g']);
    assert(m[6] =~= seq!['.', 'b', 'm', 'p']);
    assert(m[7] =~= seq!['.', 'i', 'c', 'o']);
    assert(m[8] =~= seq!['.', 'm', 'p', '4']);
    assert(m[9] =~= seq!['.', 'w', 'e', 'b', 'm']);
    assert(m[10] =~= seq!['.', 'o', 'g', 'g']);
    assert(m[11] =~= seq!['.', 'm', 'o', 'v']);
    assert(m[12] =~= seq!['.', 'm', 'k', 'v']);
    if media_ext(l) {
        let i: int = if ends_with(l, m[0]) { 0 } else if ends_with(l, m[1]) { 1 } else if ends_with(l, m[2]) { 2 }
            else if ends_with(l, m[3]) { 3 } else if ends_with(l, m[4]) { 4 } else if ends_with(l, m[5]) { 5 }
            else if ends_with(l, m[6]) { 6 } else if ends_with(l, m[7]) { 7 } else if ends_with(l, m[8]) { 8 }
            else if ends_with(l, m[9]) { 9 } else if ends_with(l, m[10]) { 10 } else if ends_with(l, m[11]) { 11 }
            else { 12 };
        assert(has_suffix(l, m[i]));
    }
    if exists|i: int| 0 <= i < m.len() && has_suffix(l, #[trigger] m[i]) {
        let i = choose|i: int| 0 <= i < m.len() && has_suffix(l, #[trigger] m[i]);
        assert(ends_with(l, m[i]));
    }
}

/// A lower-cased name is a video name (`is_video_file`) just when it ends
/// with one of `.mp4`, `.webm`, `.ogg`, `.mov` or `.mkv`, and a Markdown
/// name (`is_markdown_file`) just when it ends with `.md` or `.qmd`.
pub proof fn law_video_and_markdown_extensions(l: Seq<char>)
    ensures
        video_ext(l) <==> (has_suffix(l, ".mp4"@) || has_suffix(l, ".webm"@) || has_suffix(l, ".ogg"@)
            || has_suffix(l, ".mov"@) || has_suffix(l, ".mkv"@)),
        markdown_ext(l) <==> (has_suffix(l, ".md"@) || has_suffix(l, ".qmd"@)),
{
    reveal_strlit(".mp4");
    reveal_strlit(".webm");
    reveal_strlit(".ogg");
    reveal_strlit(".mov");
    reveal_strlit(".mkv");
    reveal_strlit(".md");
    reveal_strlit(".qmd");
    assert(".mp4"@ =~= seq!['.', 'm', 'p', '4']);
    assert(".webm"@ =~= seq!['.', 'w', 'e', 'b', 'm']);
    assert(".ogg"@ =~= seq!['.', 'o', 'g', 'g']);
    assert(".mov"@ =~= seq!['.', 'm', 'o', 'v']);
    assert(".mkv"@ =~= seq!['.', 'm', 'k', 'v']);
    assert(".md"@ =~= seq!['.', 'm', 'd']);
    assert(".qmd"@ =~= seq!['.', 'q', 'm', 'd']);
}

/// Enter on a search result opens it for what it is: a file result opens
/// in the viewer with the browser's folder unchanged, and a folder result
/// becomes the current folder, the search closed.
pub proof fn law_search_result_enter(s: AppView, key: KeyEvent)
    requires
        !s.editing,
        !s.create_active,
        !s.search_active,
        !s.gui_missing_active,
        s.active_section == ActiveSection::Folders,
        s.cached_search_results is Some,
        s.folder_index < s.cached_search_results->0.len(),
        key.code == KeyCode::Enter,
    ensures
        ({
            let r = s.cached_search_results->0[s.folder_index as int];
            let (t, e) = key_step(s, key);
            &&& !r.2 ==> (e matches EffectView::SelectFile { path, .. } && path == r.1)
            &&& !r.2 ==> t.current_dir == s.current_dir
            &&& r.2 ==> e == EffectView::Reload && t.current_dir == r.1 && t.cached_search_results is None
                && t.search_query is None
        }),
{
}

/// Enter in the workspaces pane opens exactly the pin the pane shows under
/// the cursor: the entry at the cursor of the display order
/// (`workspace_order`, files first, each group by lower-cased path), which
/// is also the pin that row of the drawn rows stands for.
pub proof fn law_workspace_enter(s: AppView, key: KeyEvent, p: Palette, rows: Seq<(Seq<LineV>, Style)>)
    requires
        !s.editing,
        !s.create_active,
        !s.search_active,
        !s.gui_missing_active,
        s.active_section == ActiveSection::Workspaces,
        s.workspace_index < s.pins.len(),
        key.code == KeyCode::Enter,
        workspace_rows_spec(s, p, rows),
    ensures
        ({
            let ws = workspace_order(s.pins);
            let (t, e) = key_step(s, key);
            &&& e matches EffectView::OpenPinned { path, is_dir, .. } && path == ws[s.workspace_index as int].0
                && is_dir == ws[s.workspace_index as int].1 && rows[s.workspace_index as int] == workspace_row(
                (path, is_dir),
                shown_name(rows[s.workspace_index as int]),
                pin_selected(s, s.workspace_index as int),
                p,
            )
        }),
{
    let ws = workspace_order(s.pins);
    law_workspace_order(s.pins);
    assert(ws.len() == s.pins.len());
}

} // verus!

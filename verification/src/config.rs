//! The saved settings: the pinned workspaces (folders and files pinned for
//! quick access) and the view mode of the folders pane, and the order in
//! which the workspaces pane shows the pins.
use vstd::prelude::*;
use crate::chars::str_to_chars;
use crate::files::{lowercase, to_lowercase};
use crate::listing::{
    congruent, lemma_stable_sort_congruent, stable_sort, stable_sort_by_key, keyed_view, Key, SortKey,
};

verus! {

/// The two layouts of the folders pane.
#[derive(Clone, Copy, PartialEq, Eq, Debug, Structural)]
pub enum ViewMode {
    List,
    Tree,
}

/// A pinned folder or file.
#[derive(Clone, Debug)]
pub struct PinnedItem {
    pub path: String,
    pub is_dir: bool,
}

impl View for PinnedItem {
    type V = (Seq<char>, bool);

    open spec fn view(&self) -> (Seq<char>, bool) {
        (self.path@, self.is_dir)
    }
}

/// The view of a list of pins.
pub open spec fn pins_view(s: Seq<PinnedItem>) -> Seq<(Seq<char>, bool)> {
    s.map_values(|p: PinnedItem| p@)
}

/// The first position from `i` on of a pin with path `path` in `s`.
pub open spec fn pin_position_from(s: Seq<(Seq<char>, bool)>, path: Seq<char>, i: int) -> Option<int>
    decreases s.len() - i,
{
    if i < 0 || i >= s.len() {
        None
    } else if s[i].0 == path {
        Some(i)
    } else {
        pin_position_from(s, path, i + 1)
    }
}

/// The first position of a pin with path `path` in `s`, if any.
pub open spec fn pin_position(s: Seq<(Seq<char>, bool)>, path: Seq<char>) -> Option<int> {
    pin_position_from(s, path, 0)
}

/// Pinning toggles: a pinned path loses its first pin, an unpinned path is
/// pinned at the end with its kind.
pub open spec fn toggle_pin_spec(s: Seq<(Seq<char>, bool)>, path: Seq<char>, is_dir: bool) -> Seq<
    (Seq<char>, bool),
> {
    match pin_position(s, path) {
        Some(i) => s.remove(i),
        None => s.push((path, is_dir)),
    }
}

/// The pins of `s` without any pin of `path`.
pub open spec fn unpin_spec(s: Seq<(Seq<char>, bool)>, path: Seq<char>) -> Seq<(Seq<char>, bool)> {
    s.filter(|p: (Seq<char>, bool)| p.0 != path)
}

/// The settings kept between sessions.
#[derive(Clone, Debug)]
pub struct Config {
    pub pinned_workspaces: Vec<PinnedItem>,
    pub view_mode: ViewMode,
}

impl Config {
    /// No pins, list view.
    pub fn new() -> (r: Config)
        ensures
            r.pinned_workspaces@.len() == 0,
            r.view_mode == ViewMode::List,
    {
        Config { pinned_workspaces: Vec::new(), view_mode: ViewMode::List }
    }

    /// The position of the first pin of `path`.
    pub fn pin_index(&self, path: &str) -> (r: Option<usize>)
        ensures
            match r {
                Some(i) => pin_position(pins_view(self.pinned_workspaces@), path@) == Some(i as int),
                None => pin_position(pins_view(self.pinned_workspaces@), path@) is None,
            },
    {
        let ghost s = pins_view(self.pinned_workspaces@);
        let mut i: usize = 0;
        while i < self.pinned_workspaces.len()
            invariant
                0 <= i <= s.len(),
                s == pins_view(self.pinned_workspaces@),
                pin_position(s, path@) == pin_position_from(s, path@, i as int),
            decreases s.len() - i,
        {
            if crate::chars::str_eq(self.pinned_workspaces[i].path.as_str(), path) {
                return Some(i);
            }
            i = i + 1;
        }
        None
    }

    /// Pins `path` if it is not pinned, else removes its first pin (see
    /// `toggle_pin_spec`).
    pub fn toggle_pin(&mut self, path: &str, is_dir: bool)
        ensures
            pins_view(final(self).pinned_workspaces@) == toggle_pin_spec(
                pins_view(old(self).pinned_workspaces@),
                path@,
                is_dir,
            ),
            final(self).view_mode == old(self).view_mode,
    {
        let ghost before = pins_view(self.pinned_workspaces@);
        match self.pin_index(path) {
            Some(i) => {
                proof {
                    lemma_pin_position_bounds(before, path@);
                }
                let _removed = self.pinned_workspaces.remove(i);
                assert(pins_view(self.pinned_workspaces@) =~= before.remove(i as int));
            },
            None => {
                let p = crate::chars::str_to_chars(path);
                let owned = crate::chars::chars_to_string(&p, 0, p.len());
                assert(p@.subrange(0, p@.len() as int) =~= path@);
                self.pinned_workspaces.push(PinnedItem { path: owned, is_dir });
                assert(pins_view(self.pinned_workspaces@) =~= before.push((path@, is_dir)));
            },
        }
    }

    /// Removes every pin of `path`.
    pub fn unpin(&mut self, path: &str)
        ensures
            pins_view(final(self).pinned_workspaces@) == unpin_spec(
                pins_view(old(self).pinned_workspaces@),
                path@,
            ),
            final(self).view_mode == old(self).view_mode,
    {
        let ghost before = pins_view(self.pinned_workspaces@);
        let mut kept: Vec<PinnedItem> = Vec::new();
        let mut rest: Vec<PinnedItem> = Vec::new();
        std::mem::swap(&mut rest, &mut self.pinned_workspaces);
        let total = rest.len();
        let mut i: usize = 0;
        while rest.len() > 0
            invariant
                total == before.len(),
                i + rest@.len() == before.len(),
                pins_view(rest@) =~= before.skip(i as int),
                pins_view(kept@) =~= unpin_spec(before.take(i as int), path@),
            decreases rest@.len(),
        {
            let ghost before_rest = pins_view(rest@);
            let item = rest.remove(0);
            assert(item@ == before_rest[0]);
            assert(pins_view(rest@) =~= before_rest.drop_first());
            let ghost prev = before.take(i as int);
            i = i + 1;
            proof {
                broadcast use Seq::lemma_filter_push;

                assert(before.take(i as int) =~= prev.push(item@));
            }
            let ghost kept_before = pins_view(kept@);
            if !crate::chars::str_eq(item.path.as_str(), path) {
                kept.push(item);
                assert(pins_view(kept@) =~= kept_before.push(before[i - 1]));
            }
        }
        assert(before.take(i as int) =~= before);
        self.pinned_workspaces = kept;
    }
}

/// Where `pin_position_from` points is the first pin of the path from `i`.
pub proof fn lemma_pin_position_from(s: Seq<(Seq<char>, bool)>, path: Seq<char>, i: int)
    requires
        0 <= i,
    ensures
        pin_position_from(s, path, i) matches Some(j) ==> i <= j < s.len() && s[j].0 == path,
        pin_position_from(s, path, i) is None ==> forall|k: int| i <= k < s.len() ==> s[k].0 != path,
    decreases s.len() - i,
{
    if i < s.len() && s[i].0 != path {
        lemma_pin_position_from(s, path, i + 1);
    }
}

/// Where `pin_position` points is a pin of the path.
pub proof fn lemma_pin_position_bounds(s: Seq<(Seq<char>, bool)>, path: Seq<char>)
    ensures
        pin_position(s, path) matches Some(i) ==> 0 <= i < s.len() && s[i].0 == path,
        pin_position(s, path) is None ==> forall|k: int| 0 <= k < s.len() ==> s[k].0 != path,
{
    lemma_pin_position_from(s, path, 0);
}

/// The key the workspaces pane sorts a pin by: files (rank 0) before
/// folders (rank 1), then the lower-cased path.
pub open spec fn pin_key(p: (Seq<char>, bool)) -> Key {
    (if p.1 {
        1u8
    } else {
        0u8
    }, lowercase(p.0))
}

/// The pins in the order of the workspaces pane, stably.
pub open spec fn workspace_order(s: Seq<(Seq<char>, bool)>) -> Seq<(Seq<char>, bool)> {
    stable_sort(s.map_values(|p: (Seq<char>, bool)| (pin_key(p), p))).map_values(
        |q: (Key, (Seq<char>, bool))| q.1,
    )
}

/// The pins in the order of the workspaces pane: files first, then folders,
/// each by lower-cased path.
pub fn sorted_workspaces(items: &Vec<PinnedItem>) -> (r: Vec<PinnedItem>)
    ensures
        pins_view(r@) == workspace_order(pins_view(items@)),
{
    let mut keyed: Vec<(SortKey, PinnedItem)> = Vec::new();
    let mut i: usize = 0;
    while i < items.len()
        invariant
            0 <= i <= items@.len(),
            keyed@.len() == i,
            forall|k: int|
                0 <= k < i ==> #[trigger] keyed_view(keyed@)[k] == (
                    pin_key(items@[k]@),
                    keyed@[k].1,
                ) && keyed@[k].1@ == items@[k]@,
        decreases items@.len() - i,
    {
        let item = &items[i];
        let lower = to_lowercase(item.path.as_str());
        let p = crate::chars::str_to_chars(item.path.as_str());
        let copy = PinnedItem { path: crate::chars::chars_to_string(&p, 0, p.len()), is_dir: item.is_dir };
        assert(p@.subrange(0, p@.len() as int) =~= item.path@);
        let key = SortKey {
            rank: if item.is_dir {
                1
            } else {
                0
            },
            text: str_to_chars(lower.as_str()),
        };
        let ghost kb = keyed@;
        keyed.push((key, copy));
        assert forall|k: int| 0 <= k < i + 1 implies #[trigger] keyed_view(keyed@)[k] == (
            pin_key(items@[k]@),
            keyed@[k].1,
        ) && keyed@[k].1@ == items@[k]@ by {
            if k < i {
                assert(keyed@[k] == kb[k]);
                assert(keyed_view(kb)[k] == keyed_view(keyed@)[k]);
            }
        }
        i = i + 1;
    }
    let ghost kv = keyed_view(keyed@);
    let ghost want = pins_view(items@).map_values(|p: (Seq<char>, bool)| (pin_key(p), p));
    let ghost same_view = |x: PinnedItem, y: (Seq<char>, bool)| x@ == y;
    assert(congruent(kv, want, same_view));
    proof {
        lemma_stable_sort_congruent(kv, want, same_view);
    }
    let sorted = stable_sort_by_key(keyed);
    let ghost sv = keyed_view(sorted@);
    let mut out: Vec<PinnedItem> = Vec::new();
    let mut src = sorted;
    let total = src.len();
    let mut j: usize = 0;
    while src.len() > 0
        invariant
            total == sv.len(),
            j + src@.len() == sv.len(),
            keyed_view(src@) =~= sv.skip(j as int),
            out@ =~= sv.take(j as int).map_values(|q: (Key, PinnedItem)| q.1),
        decreases src@.len(),
    {
        let ghost before_src = keyed_view(src@);
        let (_k, e) = src.remove(0);
        assert(before_src[0].1 == e);
        assert(keyed_view(src@) =~= before_src.drop_first());
        out.push(e);
        j = j + 1;
        assert(sv.take(j as int) =~= sv.take(j - 1).push(sv[j - 1]));
    }
    assert(sv.take(j as int) =~= sv);
    let ghost ws = stable_sort(want);
    assert(pins_view(out@) =~= workspace_order(pins_view(items@))) by {
        assert forall|i: int| 0 <= i < out@.len() implies pins_view(out@)[i] == workspace_order(
            pins_view(items@),
        )[i] by {
            let a = stable_sort(kv);
            assert(congruent(a, ws, same_view));
            assert(sv == a);
            assert(0 <= i < a.len());
            assert(a[i].0 == ws[i].0 && same_view(a[i].1, ws[i].1));
            assert(sv == a);
        }
    }
    out
}

} // verus!

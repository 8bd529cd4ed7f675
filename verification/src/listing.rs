//! Directory listings and their order: hidden entries are left out, folders
//! come before files, and within each group names go in case-insensitive
//! alphabetical order; the sort is stable, as `slice::sort_by` is.
use vstd::prelude::*;
use crate::chars::str_to_chars;
use crate::files::{is_hidden, is_hidden_name, lowercase, to_lowercase};

verus! {

/// A directory entry.
#[derive(Clone, Debug)]
pub struct FileEntry {
    pub name: String,
    pub path: String,
    pub is_dir: bool,
}

impl View for FileEntry {
    type V = (Seq<char>, Seq<char>, bool);

    open spec fn view(&self) -> (Seq<char>, Seq<char>, bool) {
        (self.name@, self.path@, self.is_dir)
    }
}

/// A sort key: a group rank first, then a text compared character by
/// character (by code point, which is the byte order of UTF-8 strings).
pub type Key = (u8, Seq<char>);

/// `a` comes before `b` in lexicographic order.
pub open spec fn text_lt(a: Seq<char>, b: Seq<char>) -> bool
    decreases a.len(),
{
    if a.len() == 0 {
        b.len() > 0
    } else if b.len() == 0 {
        false
    } else if a[0] != b[0] {
        a[0] < b[0]
    } else {
        text_lt(a.drop_first(), b.drop_first())
    }
}

/// Key `a` sorts strictly before key `b`.
pub open spec fn key_lt(a: Key, b: Key) -> bool {
    a.0 < b.0 || (a.0 == b.0 && text_lt(a.1, b.1))
}

/// The first position in `s` whose key sorts after `k` (the length of `s`
/// when there is none): where a stable insertion puts an element with key
/// `k`.
pub open spec fn insert_pos<T>(s: Seq<(Key, T)>, k: Key, i: int) -> int
    decreases s.len() - i,
{
    if i < 0 || i >= s.len() {
        s.len() as int
    } else if key_lt(k, s[i].0) {
        i
    } else {
        insert_pos(s, k, i + 1)
    }
}

/// `s` sorted by key, stably: each element goes in after every earlier one
/// whose key does not sort after its own.
pub open spec fn stable_sort<T>(s: Seq<(Key, T)>) -> Seq<(Key, T)>
    decreases s.len(),
{
    if s.len() == 0 {
        s
    } else {
        let r = stable_sort(s.drop_last());
        r.insert(insert_pos(r, s.last().0, 0), s.last())
    }
}

/// Keys never decrease along `s`.
pub open spec fn sorted_by_key<T>(s: Seq<(Key, T)>) -> bool {
    forall|i: int, j: int| 0 <= i < j < s.len() ==> !key_lt(#[trigger] s[j].0, #[trigger] s[i].0)
}

/// No text sorts before itself.
pub proof fn lemma_text_lt_irreflexive(a: Seq<char>)
    ensures
        !text_lt(a, a),
    decreases a.len(),
{
    if a.len() > 0 {
        lemma_text_lt_irreflexive(a.drop_first());
    }
}

/// Text order is transitive.
pub proof fn lemma_text_lt_transitive(a: Seq<char>, b: Seq<char>, c: Seq<char>)
    requires
        text_lt(a, b),
        text_lt(b, c),
    ensures
        text_lt(a, c),
    decreases a.len(),
{
    if a.len() > 0 && b.len() > 0 && c.len() > 0 && a[0] == b[0] && b[0] == c[0] {
        lemma_text_lt_transitive(a.drop_first(), b.drop_first(), c.drop_first());
    }
}

/// Of two different texts, one sorts before the other.
pub proof fn lemma_text_lt_total(a: Seq<char>, b: Seq<char>)
    ensures
        text_lt(a, b) || text_lt(b, a) || a == b,
    decreases a.len(),
{
    if a.len() > 0 && b.len() > 0 && a[0] == b[0] {
        lemma_text_lt_total(a.drop_first(), b.drop_first());
        if a.drop_first() == b.drop_first() {
            assert(a =~= seq![a[0]] + a.drop_first());
            assert(b =~= seq![b[0]] + b.drop_first());
        }
    } else if a.len() == 0 && b.len() == 0 {
        assert(a =~= b);
    }
}

/// Key order is a strict total order.
pub proof fn lemma_key_order()
    ensures
        forall|a: Key| !key_lt(a, a),
        forall|a: Key, b: Key, c: Key| key_lt(a, b) && key_lt(b, c) ==> key_lt(a, c),
        forall|a: Key, b: Key| key_lt(a, b) || key_lt(b, a) || a == b,
{
    assert forall|a: Key| !key_lt(a, a) by {
        lemma_text_lt_irreflexive(a.1);
    }
    assert forall|a: Key, b: Key, c: Key| key_lt(a, b) && key_lt(b, c) implies key_lt(a, c) by {
        if a.0 == b.0 && b.0 == c.0 {
            lemma_text_lt_transitive(a.1, b.1, c.1);
        }
    }
    assert forall|a: Key, b: Key| key_lt(a, b) || key_lt(b, a) || a == b by {
        lemma_text_lt_total(a.1, b.1);
    }
}

/// `insert_pos` from `i` lies in `[i, s.len()]`, every key before it from
/// `i` on does not sort after `k`, and the key at it does.
pub proof fn lemma_insert_pos<T>(s: Seq<(Key, T)>, k: Key, i: int)
    requires
        0 <= i <= s.len(),
    ensures
        i <= insert_pos(s, k, i) <= s.len(),
        forall|j: int| i <= j < insert_pos(s, k, i) ==> !key_lt(k, #[trigger] s[j].0),
        insert_pos(s, k, i) < s.len() ==> key_lt(k, s[insert_pos(s, k, i)].0),
    decreases s.len() - i,
{
    if i < s.len() && !key_lt(k, s[i].0) {
        lemma_insert_pos(s, k, i + 1);
    }
}

/// A stable sort yields keys in order and keeps every element.
pub proof fn lemma_stable_sort<T>(s: Seq<(Key, T)>)
    ensures
        sorted_by_key(stable_sort(s)),
        stable_sort(s).to_multiset() == s.to_multiset(),
        stable_sort(s).len() == s.len(),
    decreases s.len(),
{
    broadcast use vstd::seq_lib::group_to_multiset_ensures;

    if s.len() > 0 {
        let prefix = s.drop_last();
        let x = s.last();
        lemma_stable_sort(prefix);
        let r = stable_sort(prefix);
        let p = insert_pos(r, x.0, 0);
        lemma_insert_pos(r, x.0, 0);
        lemma_key_order();
        let out = r.insert(p, x);
        assert forall|i: int, j: int| 0 <= i < j < out.len() implies !key_lt(
            #[trigger] out[j].0,
            #[trigger] out[i].0,
        ) by {
            if j < p {
                assert(out[i] == r[i] && out[j] == r[j]);
            } else if j == p {
                assert(out[i] == r[i]);
            } else if i < p {
                assert(out[i] == r[i] && out[j] == r[j - 1]);
            } else if i == p {
                assert(out[j] == r[j - 1]);
                assert(!key_lt(r[j - 1].0, r[p].0));
            } else {
                assert(out[i] == r[i - 1] && out[j] == r[j - 1]);
            }
        }
        assert(s =~= prefix.push(x));
        assert(out.to_multiset() =~= r.to_multiset().insert(x));
    }
}

/// `a` and `b` have the same keys, position by position, and payloads
/// related by `rel`.
pub open spec fn congruent<T, U>(a: Seq<(Key, T)>, b: Seq<(Key, U)>, rel: spec_fn(T, U) -> bool) -> bool {
    &&& a.len() == b.len()
    &&& forall|i: int| #![trigger a[i]] 0 <= i < a.len() ==> a[i].0 == b[i].0 && rel(a[i].1, b[i].1)
}

/// Where an element goes depends on the keys alone.
pub proof fn lemma_insert_pos_congruent<T, U>(
    a: Seq<(Key, T)>,
    b: Seq<(Key, U)>,
    rel: spec_fn(T, U) -> bool,
    k: Key,
    i: int,
)
    requires
        congruent(a, b, rel),
        0 <= i,
    ensures
        insert_pos(a, k, i) == insert_pos(b, k, i),
    decreases a.len() - i,
{
    if i < a.len() {
        assert(a[i].0 == b[i].0);
        lemma_insert_pos_congruent(a, b, rel, k, i + 1);
    }
}

/// Sorting sequences with the same keys and related payloads gives
/// sequences with the same keys and related payloads.
pub proof fn lemma_stable_sort_congruent<T, U>(a: Seq<(Key, T)>, b: Seq<(Key, U)>, rel: spec_fn(T, U) -> bool)
    requires
        congruent(a, b, rel),
    ensures
        congruent(stable_sort(a), stable_sort(b), rel),
    decreases a.len(),
{
    if a.len() > 0 {
        assert(congruent(a.drop_last(), b.drop_last(), rel)) by {
            assert forall|i: int| #![trigger a.drop_last()[i]] 0 <= i < a.drop_last().len() implies a.drop_last()[i].0
                == b.drop_last()[i].0 && rel(a.drop_last()[i].1, b.drop_last()[i].1) by {
                assert(a[i].0 == b[i].0);
            }
        }
        lemma_stable_sort_congruent(a.drop_last(), b.drop_last(), rel);
        let ra = stable_sort(a.drop_last());
        let rb = stable_sort(b.drop_last());
        assert(a.last().0 == b.last().0 && rel(a.last().1, b.last().1)) by {
            assert(a[a.len() - 1].0 == b[a.len() - 1].0);
        }
        lemma_insert_pos_congruent(ra, rb, rel, a.last().0, 0);
        lemma_insert_pos(ra, a.last().0, 0);
        let p = insert_pos(ra, a.last().0, 0);
        let oa = ra.insert(p, a.last());
        let ob = rb.insert(p, b.last());
        assert forall|i: int| #![trigger oa[i]] 0 <= i < oa.len() implies oa[i].0 == ob[i].0 && rel(
            oa[i].1,
            ob[i].1,
        ) by {
            if i < p {
                assert(ra[i].0 == rb[i].0);
            } else if i > p {
                assert(ra[i - 1].0 == rb[i - 1].0);
            }
        }
    }
}

/// The key a listing sorts an entry by: folders (rank 0) before files
/// (rank 1), then the lower-cased name.
pub open spec fn listing_key(e: FileEntry) -> Key {
    (if e.is_dir {
        0u8
    } else {
        1u8
    }, lowercase(e.name@))
}

/// The entries of `s` that a listing shows: those whose name does not
/// begin with a dot.
pub open spec fn visible(s: Seq<FileEntry>) -> Seq<FileEntry> {
    s.filter(|e: FileEntry| !is_hidden(e.name@))
}

/// `s` in listing order (see `listing_key`), stably.
pub open spec fn listing_order(s: Seq<FileEntry>) -> Seq<FileEntry> {
    stable_sort(s.map_values(|e: FileEntry| (listing_key(e), e))).map_values(
        |p: (Key, FileEntry)| p.1,
    )
}

/// A key of the executable side.
pub struct SortKey {
    pub rank: u8,
    pub text: Vec<char>,
}

fn text_lt_exec(a: &Vec<char>, b: &Vec<char>) -> (r: bool)
    ensures
        r == text_lt(a@, b@),
{
    let mut i: usize = 0;
    assert(a@.skip(0) =~= a@);
    assert(b@.skip(0) =~= b@);
    while i < a.len() && i < b.len() && a[i] == b[i]
        invariant
            0 <= i <= a@.len(),
            i <= b@.len(),
            text_lt(a@, b@) == text_lt(a@.skip(i as int), b@.skip(i as int)),
        decreases a@.len() - i,
    {
        assert(a@.skip(i as int).drop_first() =~= a@.skip(i + 1));
        assert(b@.skip(i as int).drop_first() =~= b@.skip(i + 1));
        i = i + 1;
    }
    if i == a.len() {
        i < b.len()
    } else if i == b.len() {
        false
    } else {
        a[i] < b[i]
    }
}

fn key_lt_exec(a: &SortKey, b: &SortKey) -> (r: bool)
    ensures
        r == key_lt((a.rank, a.text@), (b.rank, b.text@)),
{
    a.rank < b.rank || (a.rank == b.rank && text_lt_exec(&a.text, &b.text))
}

/// The view of a keyed sequence.
pub open spec fn keyed_view<T>(s: Seq<(SortKey, T)>) -> Seq<(Key, T)> {
    s.map_values(|p: (SortKey, T)| ((p.0.rank, p.0.text@), p.1))
}

/// Sorts `items` by their keys, stably (see `stable_sort`).
pub fn stable_sort_by_key<T>(items: Vec<(SortKey, T)>) -> (r: Vec<(SortKey, T)>)
    ensures
        keyed_view(r@) == stable_sort(keyed_view(items@)),
{
    let mut input = items;
    let ghost orig = keyed_view(input@);
    let mut out: Vec<(SortKey, T)> = Vec::new();
    let mut done: usize = 0;
    let n = input.len();
    while input.len() > 0
        invariant
            done + input@.len() == n,
            n == orig.len(),
            keyed_view(input@) =~= orig.skip(done as int),
            keyed_view(out@) == stable_sort(orig.take(done as int)),
        decreases input@.len(),
    {
        let ghost before_in = input@;
        let x = input.remove(0);
        let ghost xv = ((x.0.rank, x.0.text@), x.1);
        assert(keyed_view(before_in)[0] == xv);
        assert(orig.skip(done as int)[0] == orig[done as int]);
        assert(xv == orig[done as int]);
        assert(keyed_view(input@) =~= keyed_view(before_in).drop_first());
        let mut p: usize = 0;
        let ghost sorted = keyed_view(out@);
        while p < out.len() && !key_lt_exec(&x.0, &out[p].0)
            invariant
                0 <= p <= out@.len(),
                sorted == keyed_view(out@),
                xv == ((x.0.rank, x.0.text@), x.1),
                insert_pos(sorted, xv.0, 0) == insert_pos(sorted, xv.0, p as int),
            decreases out@.len() - p,
        {
            assert(sorted[p as int].0 == (out@[p as int].0.rank, out@[p as int].0.text@));
            p = p + 1;
        }
        out.insert(p, x);
        proof {
            let t2 = orig.take(done + 1);
            assert(t2.drop_last() =~= orig.take(done as int));
            assert(t2.last() == xv);
            assert(keyed_view(out@) =~= sorted.insert(p as int, xv));
        }
        done = done + 1;
        assert(keyed_view(input@) =~= orig.skip(done as int));
    }
    assert(orig.take(done as int) =~= orig);
    out
}

fn listing_sort_key(e: &FileEntry) -> (r: SortKey)
    ensures
        (r.rank, r.text@) == listing_key(*e),
{
    let lower = to_lowercase(e.name.as_str());
    SortKey {
        rank: if e.is_dir {
            0
        } else {
            1
        },
        text: str_to_chars(lower.as_str()),
    }
}

/// `entries` in listing order: folders first, then by lower-cased name,
/// stably.
pub fn sort_listing(entries: Vec<FileEntry>) -> (r: Vec<FileEntry>)
    ensures
        r@ == listing_order(entries@),
{
    let mut keyed: Vec<(SortKey, FileEntry)> = Vec::new();
    let mut rest = entries;
    let ghost orig = rest@;
    let total = rest.len();
    let mut i: usize = 0;
    while rest.len() > 0
        invariant
            total == orig.len(),
            i + rest@.len() == orig.len(),
            rest@ =~= orig.skip(i as int),
            keyed_view(keyed@) =~= orig.take(i as int).map_values(
                |e: FileEntry| (listing_key(e), e),
            ),
        decreases rest@.len(),
    {
        let ghost before_rest = rest@;
        let ghost before_keyed = keyed_view(keyed@);
        let e = rest.remove(0);
        assert(e == orig[i as int]);
        let k = listing_sort_key(&e);
        keyed.push((k, e));
        assert(keyed_view(keyed@) =~= before_keyed.push((listing_key(e), e)));
        i = i + 1;
        assert(orig.take(i as int) =~= orig.take(i - 1).push(orig[i - 1]));
    }
    assert(orig.take(i as int) =~= orig);
    let sorted = stable_sort_by_key(keyed);
    let ghost sv = keyed_view(sorted@);
    let mut out: Vec<FileEntry> = Vec::new();
    let mut src = sorted;
    let total_sorted = src.len();
    let mut j: usize = 0;
    while src.len() > 0
        invariant
            total_sorted == sv.len(),
            j + src@.len() == sv.len(),
            keyed_view(src@) =~= sv.skip(j as int),
            out@ =~= sv.take(j as int).map_values(|p: (Key, FileEntry)| p.1),
        decreases src@.len(),
    {
        let ghost before_src = keyed_view(src@);
        let (_k, e) = src.remove(0);
        assert(before_src[0].1 == e);
        assert(keyed_view(src@) =~= before_src.drop_first());
        out.push(e);
        j = j + 1;
        assert(sv.take(j as int) =~= sv.take(j - 1).push(sv[j - 1]));
    }
    assert(sv.take(j as int) =~= sv);
    out
}

/// The visible entries of a directory in listing order (see `visible` and
/// `listing_order`); the caller reads the directory.
pub fn build_listing(raw: Vec<FileEntry>) -> (r: Vec<FileEntry>)
    ensures
        r@ == listing_order(visible(raw@)),
{
    let mut kept: Vec<FileEntry> = Vec::new();
    let mut rest = raw;
    let ghost orig = rest@;
    let total = rest.len();
    let mut i: usize = 0;
    while rest.len() > 0
        invariant
            total == orig.len(),
            i + rest@.len() == orig.len(),
            rest@ =~= orig.skip(i as int),
            kept@ =~= visible(orig.take(i as int)),
        decreases rest@.len(),
    {
        let e = rest.remove(0);
        assert(e == orig[i as int]);
        let ghost prev = orig.take(i as int);
        i = i + 1;
        proof {
            assert(orig.take(i as int) =~= prev.push(e));
            broadcast use Seq::lemma_filter_push;
            assert(orig.take(i as int).drop_last() =~= prev);
        }
        if !is_hidden_name(e.name.as_str()) {
            kept.push(e);
        }
    }
    assert(orig.take(i as int) =~= orig);
    sort_listing(kept)
}

} // verus!

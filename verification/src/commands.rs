//! The decisions behind the file commands of the desktop app and of the
//! terminal browser: which requests are refused and with what message, what
//! a directory listing and a search return, and how the pinned workspaces
//! are read back from the shared configuration. The caller looks at the
//! disk and hands over what it found.
use vstd::prelude::*;
use serde_json::Value;
use crate::browser::{concat, copy_string, owned};
use crate::chars::contains;
use crate::config::{pins_view, PinnedItem};
use crate::files::{lowercase, matches_search};
use crate::listing::{build_listing, listing_order, sort_listing, visible, FileEntry};

verus! {

/// `prefix` followed by `path`.
pub open spec fn message(prefix: Seq<char>, path: Seq<char>) -> Seq<char> {
    prefix + path
}

/// Lists a directory. `path_exists` and `is_dir` say what the path is; `read` is
/// what reading the directory gave when the path is a directory. A missing
/// path and a path that is not a directory are refused, in that order; a
/// read error is passed on; otherwise the visible entries come back in
/// listing order.
pub fn list_directory(
    path: &str,
    path_exists: bool,
    is_dir: bool,
    read: Result<Vec<FileEntry>, String>,
) -> (r: Result<Vec<FileEntry>, String>)
    ensures
        !path_exists ==> (r matches Err(m) && m@ == message("Directory does not exist: "@, path@)),
        path_exists && !is_dir ==> (r matches Err(m) && m@ == message("Path is not a directory: "@, path@)),
        path_exists && is_dir ==> match read {
            Err(e) => r matches Err(m) && m@ == e@,
            Ok(raw) => r matches Ok(v) && v@ == listing_order(visible(raw@)),
        },
{
    if !path_exists {
        return Err(concat("Directory does not exist: ", path));
    }
    if !is_dir {
        return Err(concat("Path is not a directory: ", path));
    }
    match read {
        Err(e) => Err(e),
        Ok(raw) => Ok(build_listing(raw)),
    }
}

/// Whether a file may be read: it must exist and not be a directory.
pub fn read_file_check(path: &str, path_exists: bool, is_dir: bool) -> (r: Result<(), String>)
    ensures
        !path_exists ==> (r matches Err(m) && m@ == message("File does not exist: "@, path@)),
        path_exists && is_dir ==> (r matches Err(m) && m@ == message(
            "Path is a directory, not a file: "@,
            path@,
        )),
        path_exists && !is_dir ==> r is Ok,
{
    if !path_exists {
        return Err(concat("File does not exist: ", path));
    }
    if is_dir {
        return Err(concat("Path is a directory, not a file: ", path));
    }
    Ok(())
}

/// Whether content may be written to a path: anything but a directory.
pub fn write_file_check(path: &str, is_dir: bool) -> (r: Result<(), String>)
    ensures
        is_dir ==> (r matches Err(m) && m@ == message(
            "Path is a directory, cannot write content to it: "@,
            path@,
        )),
        !is_dir ==> r is Ok,
{
    if is_dir {
        return Err(concat("Path is a directory, cannot write content to it: ", path));
    }
    Ok(())
}

/// Whether a new file may be created: nothing may exist at the path yet.
pub fn create_file_check(path: &str, path_exists: bool) -> (r: Result<(), String>)
    ensures
        path_exists ==> (r matches Err(m) && m@ == message("File already exists: "@, path@)),
        !path_exists ==> r is Ok,
{
    if path_exists {
        return Err(concat("File already exists: ", path));
    }
    Ok(())
}

/// Whether a terminal may be opened at a path: it must be an existing
/// directory.
pub fn open_terminal_check(path_exists: bool, is_dir: bool) -> (r: Result<(), String>)
    ensures
        !(path_exists && is_dir) ==> (r matches Err(m) && m@ == "Path does not exist or is not a directory"@),
        path_exists && is_dir ==> r is Ok,
{
    if !path_exists || !is_dir {
        return Err(owned("Path does not exist or is not a directory"));
    }
    Ok(())
}

/// The entries among `found` that a search for `query` matches.
pub open spec fn search_hits(found: Seq<FileEntry>, query: Seq<char>) -> Seq<FileEntry> {
    found.filter(|e: FileEntry| contains(lowercase(e.name@), lowercase(query)))
}

/// Searches a directory tree. `valid` says whether the root is an existing
/// directory; `found` holds every visible entry below it, in the order of
/// the walk. An invalid root is refused; otherwise the entries whose name
/// contains the query (both lower-cased) come back in listing order.
pub fn search_directory(valid: bool, query: &str, found: Vec<FileEntry>) -> (r: Result<
    Vec<FileEntry>,
    String,
>)
    ensures
        !valid ==> (r matches Err(m) && m@ == "Invalid directory path"@),
        valid ==> (r matches Ok(v) && v@ == listing_order(search_hits(found@, query@))),
{
    if !valid {
        return Err(owned("Invalid directory path"));
    }
    let mut hits: Vec<FileEntry> = Vec::new();
    let mut rest = found;
    let ghost orig = rest@;
    let total = rest.len();
    let ghost pred = |e: FileEntry| contains(lowercase(e.name@), lowercase(query@));
    let mut i: usize = 0;
    while rest.len() > 0
        invariant
            total == orig.len(),
            i + rest@.len() == orig.len(),
            rest@ == orig.subrange(i as int, orig.len() as int),
            hits@ == orig.subrange(0, i as int).filter(pred),
            pred == (|e: FileEntry| contains(lowercase(e.name@), lowercase(query@))),
        decreases rest@.len(),
    {
        let e = rest.remove(0);
        proof {
            assert(orig.subrange(0, i + 1) =~= orig.subrange(0, i as int).push(e));
            assert(orig.subrange(0, i + 1).drop_last() =~= orig.subrange(0, i as int));
            reveal(Seq::filter);
        }
        if matches_search(e.name.as_str(), query) {
            hits.push(e);
        }
        i = i + 1;
        proof {
            assert(rest@ =~= orig.subrange(i as int, orig.len() as int));
        }
    }
    proof {
        assert(orig.subrange(0, i as int) =~= orig);
    }
    Ok(sort_listing(hits))
}

/// One entry of the `pinned_workspaces` list of the shared configuration,
/// as far as it matters here: a bare path, a record whose `path` is a
/// string or not and whose `isDir` is a boolean or not, or anything else.
pub enum WorkspaceEntry {
    Text { path: String },
    Record { path: Option<String>, is_dir: Option<bool> },
    Other,
}

/// The model of a `WorkspaceEntry`.
pub enum EntryV {
    Text(Seq<char>),
    Record(Option<Seq<char>>, Option<bool>),
    Other,
}

impl View for WorkspaceEntry {
    type V = EntryV;

    open spec fn view(&self) -> EntryV {
        match self {
            WorkspaceEntry::Text { path } => EntryV::Text(path@),
            WorkspaceEntry::Record { path, is_dir } => EntryV::Record(
                match path {
                    Some(p) => Some(p@),
                    None => None,
                },
                *is_dir,
            ),
            WorkspaceEntry::Other => EntryV::Other,
        }
    }
}

/// The models of a list of configuration entries.
pub open spec fn workspace_entries_view(v: Seq<WorkspaceEntry>) -> Seq<EntryV> {
    v.map_values(|e: WorkspaceEntry| e@)
}

/// A pinned path read back from the configuration; `is_dir` is `None` when
/// the configuration does not say, and the disk decides.
pub struct StoredPin {
    pub path: String,
    pub is_dir: Option<bool>,
}

impl View for StoredPin {
    type V = (Seq<char>, Option<bool>);

    open spec fn view(&self) -> (Seq<char>, Option<bool>) {
        (self.path@, self.is_dir)
    }
}

/// What one configuration entry contributes, if anything.
pub open spec fn stored_pin_of(e: EntryV) -> Option<(Seq<char>, Option<bool>)> {
    match e {
        EntryV::Text(path) => Some((path, None)),
        EntryV::Record(Some(p), is_dir) => Some((p, is_dir)),
        _ => None,
    }
}

/// The pins that the entries `es` contribute, in order.
pub open spec fn stored_pins(es: Seq<EntryV>) -> Seq<(Seq<char>, Option<bool>)>
    decreases es.len(),
{
    if es.len() == 0 {
        Seq::empty()
    } else {
        let prev = stored_pins(es.drop_last());
        match stored_pin_of(es.last()) {
            Some(p) => prev.push(p),
            None => prev,
        }
    }
}

/// The views of a sequence of stored pins.
pub open spec fn stored_view(s: Seq<StoredPin>) -> Seq<(Seq<char>, Option<bool>)> {
    s.map_values(|p: StoredPin| p@)
}

/// The pins of the configuration's `pinned_workspaces` list: bare paths and
/// records with a string `path`, in order; other entries are skipped.
pub fn read_workspaces(entries: &Vec<WorkspaceEntry>) -> (r: Vec<StoredPin>)
    ensures
        stored_view(r@) == stored_pins(workspace_entries_view(entries@)),
{
    let ghost es = workspace_entries_view(entries@);
    let mut out: Vec<StoredPin> = Vec::new();
    let mut i: usize = 0;
    while i < entries.len()
        invariant
            i <= entries@.len(),
            es == workspace_entries_view(entries@),
            stored_view(out@) == stored_pins(es.subrange(0, i as int)),
        decreases entries@.len() - i,
    {
        proof {
            assert(es.subrange(0, i + 1).drop_last() =~= es.subrange(0, i as int));
            assert(es.subrange(0, i + 1).last() == entries@[i as int]@);
        }
        match &entries[i] {
            WorkspaceEntry::Text { path } => {
                out.push(StoredPin { path: copy_string(path), is_dir: None });
            },
            WorkspaceEntry::Record { path: Some(p), is_dir } => {
                out.push(StoredPin { path: copy_string(p), is_dir: *is_dir });
            },
            _ => {},
        }
        proof {
            assert(stored_view(out@) =~= stored_pins(es.subrange(0, i + 1)));
        }
        i = i + 1;
    }
    proof {
        assert(es.subrange(0, i as int) =~= es);
    }
    out
}

/// What `serde_json` makes of a settings file's text: its parse error as
/// text, or, when the text is JSON, the entries of its `pinned_workspaces`
/// array (`None` when there is no such array).
pub uninterp spec fn json_pinned_entries(content: Seq<char>) -> Result<Option<Seq<EntryV>>, Seq<char>>;

/// Parses `content` with `serde_json::from_str` into a `serde_json::Value`
/// and, if it has a `pinned_workspaces` array, converts each element: a
/// string to `Text`, an object to a `Record` of its `path` if that is a
/// string and its `isDir` if that is a boolean, anything else to `Other`.
/// The contract only names the outcome (`json_pinned_entries`): the error
/// text on invalid JSON, else the converted entries.
#[verifier::external_body]
fn parse_pinned_entries(content: &str) -> (r: Result<Option<Vec<WorkspaceEntry>>, String>)
    ensures
        json_pinned_entries(content@) == match r {
            Ok(Some(v)) => Ok(Some(workspace_entries_view(v@))),
            Ok(None) => Ok(None),
            Err(e) => Err(e@),
        },
{
    let json: Value = match serde_json::from_str(content) {
        Ok(v) => v,
        Err(e) => return Err(e.to_string()),
    };
    match json.get("pinned_workspaces") {
        Some(Value::Array(items)) => Ok(Some(items.iter().map(|v| match v {
            Value::String(s) => WorkspaceEntry::Text { path: s.clone() },
            Value::Object(o) => WorkspaceEntry::Record {
                path: match o.get("path") { Some(Value::String(p)) => Some(p.clone()), _ => None },
                is_dir: match o.get("isDir") { Some(Value::Bool(d)) => Some(*d), _ => None },
            },
            _ => WorkspaceEntry::Other,
        }).collect())),
        _ => Ok(None),
    }
}

/// The pins stored in the settings file whose text is `content`: the parse
/// error when it is not JSON, no pins when it has no `pinned_workspaces`
/// array, else the pins of that array's entries (see `read_workspaces`).
pub fn read_settings_pins(content: &str) -> (r: Result<Vec<StoredPin>, String>)
    ensures
        match json_pinned_entries(content@) {
            Err(m) => r matches Err(e) && e@ == m,
            Ok(None) => r matches Ok(v) && v@.len() == 0,
            Ok(Some(es)) => r matches Ok(v) && stored_view(v@) == stored_pins(es),
        },
{
    match parse_pinned_entries(content) {
        Err(e) => Err(e),
        Ok(None) => Ok(Vec::new()),
        Ok(Some(es)) => Ok(read_workspaces(&es)),
    }
}

/// Whether `serde_json` reads the text `content` as a JSON object.
pub uninterp spec fn json_is_object(content: Seq<char>) -> bool;

/// Parses `content` with `serde_json::from_str` into a `serde_json::Value`
/// and tells whether it is an object (`Value::is_object`); invalid JSON is
/// no object. The contract only names the answer (`json_is_object`).
#[verifier::external_body]
fn is_json_object(content: &str) -> (r: bool)
    ensures
        r == json_is_object(content@),
{
    match serde_json::from_str::<Value>(content) {
        Ok(v) => v.is_object(),
        Err(_) => false,
    }
}

/// The settings text that new values are written into: the file's text
/// (`existing`, when it could be read) if it holds a JSON object, so that
/// its other keys are kept, and otherwise an empty object.
pub fn settings_base(existing: Option<&str>) -> (r: String)
    ensures
        r@ == match existing {
            Some(c) => if json_is_object(c@) {
                c@
            } else {
                "{}"@
            },
            None => "{}"@,
        },
{
    match existing {
        Some(c) => if is_json_object(c) {
            owned(c)
        } else {
            owned("{}")
        },
        None => owned("{}"),
    }
}

/// The pin a stored pin stands for: its own kind when it has one, and
/// otherwise a folder unless the path is a file (`path_is_file`).
pub open spec fn resolved(pin: (Seq<char>, Option<bool>), path_is_file: bool) -> (Seq<char>, bool) {
    (pin.0, match pin.1 {
        Some(d) => d,
        None => !path_is_file,
    })
}

/// The entries `es` are the records the settings file stores for `pins`:
/// one per pin, in order, with its path and kind.
pub open spec fn records_of(es: Seq<EntryV>, pins: Seq<(Seq<char>, bool)>) -> bool {
    &&& es.len() == pins.len()
    &&& forall|i: int| 0 <= i < es.len() ==> #[trigger] es[i] == EntryV::Record(Some(pins[i].0), Some(pins[i].1))
}

/// The entries the settings file stores for the pins `items` (see
/// `records_of`).
pub fn write_workspaces(items: &Vec<PinnedItem>) -> (r: Vec<WorkspaceEntry>)
    ensures
        records_of(workspace_entries_view(r@), pins_view(items@)),
{
    let mut out: Vec<WorkspaceEntry> = Vec::new();
    let mut i: usize = 0;
    while i < items.len()
        invariant
            i <= items@.len(),
            out@.len() == i,
            forall|j: int|
                0 <= j < i ==> #[trigger] out@[j]@ == EntryV::Record(
                    Some(pins_view(items@)[j].0),
                    Some(pins_view(items@)[j].1),
                ),
        decreases items@.len() - i,
    {
        let item = &items[i];
        out.push(WorkspaceEntry::Record { path: Some(copy_string(&item.path)), is_dir: Some(item.is_dir) });
        i = i + 1;
    }
    proof {
        let es = workspace_entries_view(out@);
        assert forall|j: int| 0 <= j < es.len() implies #[trigger] es[j] == EntryV::Record(
            Some(pins_view(items@)[j].0),
            Some(pins_view(items@)[j].1),
        ) by {
            assert(es[j] == out@[j]@);
        }
    }
    out
}

/// The pinned item for a stored pin: its own `is_dir` when it has one, and
/// otherwise a folder unless the path is a file (`path_is_file`, read from
/// the disk).
pub fn resolve_pin(pin: StoredPin, path_is_file: bool) -> (r: PinnedItem)
    ensures
        r@ == resolved(pin@, path_is_file),
{
    let is_dir = match pin.is_dir {
        Some(d) => d,
        None => !path_is_file,
    };
    PinnedItem { path: pin.path, is_dir }
}

} // verus!

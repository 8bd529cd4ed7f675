//! The file-name rules of the browser: which files are media, video or
//! Markdown files (by extension, ignoring case), and which entries a search
//! query matches.
use vstd::prelude::*;
use crate::chars::{chars_ends_with, chars_find, contains, ends_with, str_to_chars};

verus! {

/// The Unicode lower-case form of `s`, as `str::to_lowercase` computes it.
pub uninterp spec fn lowercase(s: Seq<char>) -> Seq<char>;

/// Calls `str::to_lowercase`; the result is `lowercase` of the argument, a
/// function of the argument alone. Nothing more of the Unicode case mapping
/// is stated.
#[verifier::external_body]
pub(crate) fn to_lowercase(s: &str) -> (r: String)
    ensures
        r@ == lowercase(s@),
{
    s.to_lowercase()
}

/// The extensions of video files.
pub open spec fn video_ext(l: Seq<char>) -> bool {
    ||| ends_with(l, seq!['.', 'm', 'p', '4'])
    ||| ends_with(l, seq!['.', 'w', 'e', 'b', 'm'])
    ||| ends_with(l, seq!['.', 'o', 'g', 'g'])
    ||| ends_with(l, seq!['.', 'm', 'o', 'v'])
    ||| ends_with(l, seq!['.', 'm', 'k', 'v'])
}

/// The extensions of media files: images and videos.
pub open spec fn media_ext(l: Seq<char>) -> bool {
    ||| ends_with(l, seq!['.', 'p', 'n', 'g'])
    ||| ends_with(l, seq!['.', 'j', 'p', 'g'])
    ||| ends_with(l, seq!['.', 'j', 'p', 'e', 'g'])
    ||| ends_with(l, seq!['.', 'g', 'i', 'f'])
    ||| ends_with(l, seq!['.', 'w', 'e', 'b', 'p'])
    ||| ends_with(l, seq!['.', 's', 'v', 'g'])
    ||| ends_with(l, seq!['.', 'b', 'm', 'p'])
    ||| ends_with(l, seq!['.', 'i', 'c', 'o'])
    ||| video_ext(l)
}

/// The extensions of Markdown files.
pub open spec fn markdown_ext(l: Seq<char>) -> bool {
    ends_with(l, seq!['.', 'm', 'd']) || ends_with(l, seq!['.', 'q', 'm', 'd'])
}

/// Whether the already lower-cased name `lower` has a video extension.
pub fn has_video_extension(lower: &str) -> (r: bool)
    ensures
        r == video_ext(lower@),
{
    let l = str_to_chars(lower);
    let mp4 = ['.', 'm', 'p', '4'];
    let webm = ['.', 'w', 'e', 'b', 'm'];
    let ogg = ['.', 'o', 'g', 'g'];
    let mov = ['.', 'm', 'o', 'v'];
    let mkv = ['.', 'm', 'k', 'v'];
    assert(mp4@ =~= seq!['.', 'm', 'p', '4']);
    assert(webm@ =~= seq!['.', 'w', 'e', 'b', 'm']);
    assert(ogg@ =~= seq!['.', 'o', 'g', 'g']);
    assert(mov@ =~= seq!['.', 'm', 'o', 'v']);
    assert(mkv@ =~= seq!['.', 'm', 'k', 'v']);
    chars_ends_with(&l, &mp4) || chars_ends_with(&l, &webm) || chars_ends_with(&l, &ogg)
        || chars_ends_with(&l, &mov) || chars_ends_with(&l, &mkv)
}

/// Whether the already lower-cased name `lower` has a media extension.
pub fn has_media_extension(lower: &str) -> (r: bool)
    ensures
        r == media_ext(lower@),
{
    let l = str_to_chars(lower);
    let png = ['.', 'p', 'n', 'g'];
    let jpg = ['.', 'j', 'p', 'g'];
    let jpeg = ['.', 'j', 'p', 'e', 'g'];
    let gif = ['.', 'g', 'i', 'f'];
    let webp = ['.', 'w', 'e', 'b', 'p'];
    let svg = ['.', 's', 'v', 'g'];
    let bmp = ['.', 'b', 'm', 'p'];
    let ico = ['.', 'i', 'c', 'o'];
    assert(png@ =~= seq!['.', 'p', 'n', 'g']);
    assert(jpg@ =~= seq!['.', 'j', 'p', 'g']);
    assert(jpeg@ =~= seq!['.', 'j', 'p', 'e', 'g']);
    assert(gif@ =~= seq!['.', 'g', 'i', 'f']);
    assert(webp@ =~= seq!['.', 'w', 'e', 'b', 'p']);
    assert(svg@ =~= seq!['.', 's', 'v', 'g']);
    assert(bmp@ =~= seq!['.', 'b', 'm', 'p']);
    assert(ico@ =~= seq!['.', 'i', 'c', 'o']);
    chars_ends_with(&l, &png) || chars_ends_with(&l, &jpg) || chars_ends_with(&l, &jpeg)
        || chars_ends_with(&l, &gif) || chars_ends_with(&l, &webp) || chars_ends_with(&l, &svg)
        || chars_ends_with(&l, &bmp) || chars_ends_with(&l, &ico) || has_video_extension(lower)
}

/// Whether the already lower-cased name `lower` has a Markdown extension.
pub fn has_markdown_extension(lower: &str) -> (r: bool)
    ensures
        r == markdown_ext(lower@),
{
    let l = str_to_chars(lower);
    let md = ['.', 'm', 'd'];
    let qmd = ['.', 'q', 'm', 'd'];
    assert(md@ =~= seq!['.', 'm', 'd']);
    assert(qmd@ =~= seq!['.', 'q', 'm', 'd']);
    chars_ends_with(&l, &md) || chars_ends_with(&l, &qmd)
}

/// A media file: its name, in lower case, ends in `.png`, `.jpg`, `.jpeg`,
/// `.gif`, `.webp`, `.svg`, `.bmp`, `.ico` or a video extension.
pub fn is_media_file(path: &str) -> (r: bool)
    ensures
        r == media_ext(lowercase(path@)),
{
    let lower = to_lowercase(path);
    has_media_extension(lower.as_str())
}

/// A Markdown file: its name, in lower case, ends in `.md` or `.qmd`.
pub fn is_markdown_file(name: &str) -> (r: bool)
    ensures
        r == markdown_ext(lowercase(name@)),
{
    let lower = to_lowercase(name);
    has_markdown_extension(lower.as_str())
}

/// A video file: its name, in lower case, ends in `.mp4`, `.webm`, `.ogg`,
/// `.mov` or `.mkv`.
pub fn is_video_file(name: &str) -> (r: bool)
    ensures
        r == video_ext(lowercase(name@)),
{
    let lower = to_lowercase(name);
    has_video_extension(lower.as_str())
}

/// A hidden entry: its name begins with a dot.
pub open spec fn is_hidden(name: Seq<char>) -> bool {
    name.len() > 0 && name[0] == '.'
}

/// Whether an entry named `name` is hidden from listings and searches.
pub fn is_hidden_name(name: &str) -> (r: bool)
    ensures
        r == is_hidden(name@),
{
    let v = str_to_chars(name);
    v.len() > 0 && v[0] == '.'
}

/// Whether the lower-cased name `lower_name` contains the lower-cased query.
pub fn contains_query(lower_name: &str, lower_query: &str) -> (r: bool)
    ensures
        r == contains(lower_name@, lower_query@),
{
    let n = str_to_chars(lower_name);
    let q = str_to_chars(lower_query);
    chars_find(&n, q.as_slice()).is_some()
}

/// A search for `query` matches an entry named `name` when the name
/// contains the query, both in lower case.
pub fn matches_search(name: &str, query: &str) -> (r: bool)
    ensures
        r == contains(lowercase(name@), lowercase(query@)),
{
    let lower_name = to_lowercase(name);
    let lower_query = to_lowercase(query);
    contains_query(lower_name.as_str(), lower_query.as_str())
}

} // verus!

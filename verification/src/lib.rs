//! A terminal Markdown viewer and file browser, as a verified library: the
//! Markdown line renderer, the file-name rules, directory listing order, the
//! pinned-workspace list, the key handling of the browser panes, what the
//! screen shows, and the decisions of the file commands.
use vstd::prelude::*;

pub mod browser;
pub mod chars;
pub mod commands;
pub mod config;
pub mod docpicker;
pub mod files;
pub mod keys;
pub mod laws;
pub mod listing;
pub mod markdown;
pub mod palette;
pub mod screen;
pub mod style;

verus! {

} // verus!

//! The document-picker plugin of the mobile app: the messages it exchanges
//! with the native picker, and the picker of platforms that have none.
use vstd::prelude::*;

verus! {

/// A folder the user granted access to through the native document picker.
pub struct PickedFolder {
    /// Absolute path of the folder.
    pub path: String,
    /// Last path component, shown in the interface.
    pub name: String,
}

/// Result of presenting the folder picker; `folder` is `None` when the
/// user cancels.
pub struct PickFolderResponse {
    pub folder: Option<PickedFolder>,
}

/// Result of re-activating saved bookmarks: the paths accessible again.
pub struct RestoreResponse {
    pub paths: Vec<String>,
}

/// Request to release a previously picked folder.
pub struct ReleaseRequest {
    pub path: String,
}

/// Empty acknowledgement of a command that returns no data.
pub struct EmptyResponse {}

/// Why a picker request failed.
#[derive(PartialEq, Eq, Structural, Debug, Clone, Copy)]
pub enum DocpickerError {
    /// The platform has no document picker.
    Unsupported,
}

/// The picker of platforms without a native one (desktop, Android).
pub struct Docpicker {}

impl Docpicker {
    /// Picking a folder is not supported here.
    pub fn pick_folder(&self) -> (r: Result<Option<PickedFolder>, DocpickerError>)
        ensures
            r matches Err(e) && e == DocpickerError::Unsupported,
    {
        Err(DocpickerError::Unsupported)
    }

    /// There are no bookmarks to restore: the empty list, so that a shared
    /// start-up path can call this everywhere.
    pub fn restore_access(&self) -> (r: Result<Vec<String>, DocpickerError>)
        ensures
            r matches Ok(v) && v@.len() == 0,
    {
        Ok(Vec::new())
    }

    /// Releasing a folder succeeds and does nothing.
    pub fn release_folder(&self, path: String) -> (r: Result<(), DocpickerError>)
        ensures
            r is Ok,
    {
        Ok(())
    }
}

} // verus!

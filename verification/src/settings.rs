//! Application preferences and update bookkeeping.
//!
//! These types cross the boundary to the unverified shell, which persists
//! the preferences as a small JSON file and drives the update dialog; the
//! shell keeps mirror types with the serialization derives and converts.

use vstd::prelude::*;

verus! {

/// What closing the main window does.
#[derive(Debug, Clone, Copy, PartialEq, Eq, Structural)]
pub enum AppExitType {
    /// Quit the application.
    Exit,
    /// Keep it running minimized to the tray.
    Minimize,
}

/// The user's persisted preferences.
#[derive(Debug, Clone, Copy, PartialEq, Eq, Structural)]
pub struct AppSettings {
    pub auto_start: bool,
    pub app_exit_type: AppExitType,
}

impl Default for AppSettings {
    /// Fresh installations do not start with the system and minimize on
    /// close.
    fn default() -> (r: AppSettings)
        ensures
            r.auto_start == false,
            r.app_exit_type == AppExitType::Minimize,
    {
        AppSettings { auto_start: false, app_exit_type: AppExitType::Minimize }
    }
}

/// One step of an update download, reported to the user interface.
#[derive(Clone, Debug)]
pub enum DownloadEvent {
    /// The download began; the total size may be unknown.
    Started { content_length: Option<u64> },
    /// One chunk arrived.
    Progress { chunk_length: usize },
    /// The download completed.
    Finished,
}

/// What is known about an available update.
#[derive(Clone, Debug)]
pub struct UpdateMetadata {
    pub version: String,
    pub current_version: String,
}

} // verus!

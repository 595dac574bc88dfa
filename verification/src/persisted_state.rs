//! Application state that persists across sessions (not user preferences).
//!
//! The state file is written and read in CBOR outside the library; the
//! functions here decide what the outcome of those attempts means.

use vstd::prelude::*;
use crate::models::AiModel;
use crate::path_util::{join_path, joined_path, parent_of, path_parent};

verus! {

/// State file name within the application data directory.
pub const STATE_FILE: &'static str = "state.cbor";

/// Application state that persists across sessions.
#[derive(Debug, Clone, PartialEq)]
pub struct AppState {
    /// Last directory used for Save As operations.
    pub last_save_directory: Option<String>,
    /// Last directory used for Open File operations.
    pub last_open_directory: Option<String>,
    /// Whether AI deblurring is enabled (managed by the application).
    pub enable_deblur: bool,
    /// Whether AI upscaling is enabled (managed by the application).
    pub enable_upscale: bool,
}

impl Default for AppState {
    /// No remembered directories; no AI model enabled.
    fn default() -> (r: Self)
        ensures
            r.last_save_directory is None,
            r.last_open_directory is None,
            !r.enable_deblur,
            !r.enable_upscale,
    {
        AppState { last_save_directory: None, last_open_directory: None, enable_deblur: false, enable_upscale: false }
    }
}

impl AppState {
    /// Remembers the directory of `file_path` as the last Save As directory.
    /// A path with no parent (such as the root) leaves the state unchanged.
    pub fn set_last_save_directory_from_file(&mut self, file_path: &str)
        ensures
            final(self).last_open_directory == old(self).last_open_directory,
            final(self).enable_deblur == old(self).enable_deblur,
            final(self).enable_upscale == old(self).enable_upscale,
            match parent_of(file_path@) {
                Some(p) => (final(self).last_save_directory matches Some(d) && d@ == p),
                None => final(self).last_save_directory == old(self).last_save_directory,
            },
    {
        if let Some(parent) = path_parent(file_path) {
            self.last_save_directory = Some(parent);
        }
    }

    /// Remembers the directory of `file_path` as the last Open File directory.
    /// A path with no parent (such as the root) leaves the state unchanged.
    pub fn set_last_open_directory_from_file(&mut self, file_path: &str)
        ensures
            final(self).last_save_directory == old(self).last_save_directory,
            final(self).enable_deblur == old(self).enable_deblur,
            final(self).enable_upscale == old(self).enable_upscale,
            match parent_of(file_path@) {
                Some(p) => (final(self).last_open_directory matches Some(d) && d@ == p),
                None => final(self).last_open_directory == old(self).last_open_directory,
            },
    {
        if let Some(parent) = path_parent(file_path) {
            self.last_open_directory = Some(parent);
        }
    }

    /// Records whether an AI model is enabled; the other fields are unchanged.
    pub fn set_model_enabled(&mut self, model: AiModel, enabled: bool)
        ensures
            final(self).enable_deblur == if model == AiModel::Deblur { enabled } else { old(self).enable_deblur },
            final(self).enable_upscale == if model == AiModel::Upscale { enabled } else { old(self).enable_upscale },
            final(self).last_save_directory == old(self).last_save_directory,
            final(self).last_open_directory == old(self).last_open_directory,
    {
        match model {
            AiModel::Deblur => self.enable_deblur = enabled,
            AiModel::Upscale => self.enable_upscale = enabled,
        }
    }

    /// The state file inside a data directory, if one was found.
    pub fn state_file_path_with_override(data_dir: Option<&str>) -> (r: Option<String>)
        ensures
            match data_dir {
                Some(d) => (r matches Some(p) && p@ == joined_path(d@, STATE_FILE@)),
                None => r is None,
            },
    {
        match data_dir {
            Some(d) => Some(join_path(d, STATE_FILE)),
            None => None,
        }
    }
}

/// What an attempt to read the state file found.
#[derive(Debug, Clone, Copy, PartialEq, Eq, Structural)]
pub enum StateReadResult {
    /// No data directory could be determined.
    NoPath,
    /// The state file does not exist.
    Missing,
    /// The file exists but could not be opened.
    OpenFailed,
    /// The file was opened but does not hold valid state.
    ParseFailed,
    /// The state was read.
    Loaded,
}

/// The warning that loading reports, if any: none when the state was read
/// or there was nothing to read, otherwise the notification key of the failure.
pub fn state_load_warning(result: StateReadResult) -> (r: Option<String>)
    ensures
        match result {
            StateReadResult::OpenFailed => (r matches Some(w) && w@ == "notification-state-read-error"@),
            StateReadResult::ParseFailed => (r matches Some(w) && w@ == "notification-state-parse-error"@),
            _ => r is None,
        },
{
    match result {
        StateReadResult::OpenFailed => Some("notification-state-read-error".to_string()),
        StateReadResult::ParseFailed => Some("notification-state-parse-error".to_string()),
        _ => None,
    }
}

/// Whether the state read from the file or the default state is used.
pub fn state_load_uses_file(result: StateReadResult) -> (r: bool)
    ensures
        r == (result == StateReadResult::Loaded),
{
    match result {
        StateReadResult::Loaded => true,
        _ => false,
    }
}

/// What an attempt to write the state file ran into.
#[derive(Debug, Clone, Copy, PartialEq, Eq, Structural)]
pub enum StateWriteResult {
    /// No data directory could be determined.
    NoPath,
    /// The parent directory could not be created.
    DirFailed,
    /// The file could not be created.
    CreateFailed,
    /// Encoding or writing the state failed.
    WriteFailed,
    /// The state was written.
    Written,
}

/// The warning that saving reports: none on success, otherwise the
/// notification key of the step that failed.
pub fn state_save_warning(result: StateWriteResult) -> (r: Option<String>)
    ensures
        match result {
            StateWriteResult::NoPath => (r matches Some(w) && w@ == "notification-state-path-error"@),
            StateWriteResult::DirFailed => (r matches Some(w) && w@ == "notification-state-dir-error"@),
            StateWriteResult::CreateFailed => (r matches Some(w) && w@ == "notification-state-create-error"@),
            StateWriteResult::WriteFailed => (r matches Some(w) && w@ == "notification-state-write-error"@),
            StateWriteResult::Written => r is None,
        },
{
    match result {
        StateWriteResult::NoPath => Some("notification-state-path-error".to_string()),
        StateWriteResult::DirFailed => Some("notification-state-dir-error".to_string()),
        StateWriteResult::CreateFailed => Some("notification-state-create-error".to_string()),
        StateWriteResult::WriteFailed => Some("notification-state-write-error".to_string()),
        StateWriteResult::Written => None,
    }
}

} // verus!

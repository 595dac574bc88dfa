//! Decisions taken when the application starts and when AI models are used.

use vstd::prelude::*;
use crate::config::{BackgroundTheme, SortOrder};
use crate::defaults::{
    DEFAULT_FRAME_CACHE_MB, DEFAULT_FRAME_HISTORY_MB, DEFAULT_OVERLAY_TIMEOUT_SECS,
};

verus! {

/// The settings that the configuration file determines at startup (those
/// held in integers, flags and choices).
#[derive(Debug, Clone, Copy, PartialEq, Eq, Structural)]
pub struct StartupSettings {
    pub fit_to_window: bool,
    pub background_theme: BackgroundTheme,
    pub sort_order: SortOrder,
    pub overlay_timeout_secs: u32,
    pub video_autoplay: bool,
    pub audio_normalization: bool,
    pub frame_cache_mb: u32,
    pub frame_history_mb: u32,
    pub persist_filters: bool,
}

/// The values read from the configuration's display, fullscreen and video
/// sections, each absent when the file does not set it.
#[derive(Debug, Clone, Copy, PartialEq, Eq, Structural)]
pub struct ConfiguredValues {
    pub fit_to_window: Option<bool>,
    pub background_theme: Option<BackgroundTheme>,
    pub sort_order: Option<SortOrder>,
    pub overlay_timeout_secs: Option<u32>,
    pub video_autoplay: Option<bool>,
    pub audio_normalization: Option<bool>,
    pub frame_cache_mb: Option<u32>,
    pub frame_history_mb: Option<u32>,
    pub persist_filters: Option<bool>,
}

/// A value or its default.
pub open spec fn or_default<T>(v: Option<T>, d: T) -> T {
    match v {
        Some(x) => x,
        None => d,
    }
}

/// Fills every setting the configuration leaves out with its default: fit to
/// window on, dark background, alphabetical order, the default overlay
/// timeout and cache sizes, autoplay off, normalization on, filter
/// persistence off.
pub fn startup_settings(c: ConfiguredValues) -> (r: StartupSettings)
    ensures
        r.fit_to_window == or_default(c.fit_to_window, true),
        r.background_theme == or_default(c.background_theme, BackgroundTheme::Dark),
        r.sort_order == or_default(c.sort_order, SortOrder::Alphabetical),
        r.overlay_timeout_secs == or_default(c.overlay_timeout_secs, DEFAULT_OVERLAY_TIMEOUT_SECS),
        r.video_autoplay == or_default(c.video_autoplay, false),
        r.audio_normalization == or_default(c.audio_normalization, true),
        r.frame_cache_mb == or_default(c.frame_cache_mb, DEFAULT_FRAME_CACHE_MB),
        r.frame_history_mb == or_default(c.frame_history_mb, DEFAULT_FRAME_HISTORY_MB),
        r.persist_filters == or_default(c.persist_filters, false),
{
    StartupSettings {
        fit_to_window: match c.fit_to_window { Some(false) => false, _ => true },
        background_theme: match c.background_theme { Some(b) => b, None => BackgroundTheme::Dark },
        sort_order: match c.sort_order { Some(s) => s, None => SortOrder::Alphabetical },
        overlay_timeout_secs: match c.overlay_timeout_secs { Some(v) => v, None => DEFAULT_OVERLAY_TIMEOUT_SECS },
        video_autoplay: match c.video_autoplay { Some(v) => v, None => false },
        audio_normalization: match c.audio_normalization { Some(v) => v, None => true },
        frame_cache_mb: match c.frame_cache_mb { Some(v) => v, None => DEFAULT_FRAME_CACHE_MB },
        frame_history_mb: match c.frame_history_mb { Some(v) => v, None => DEFAULT_FRAME_HISTORY_MB },
        persist_filters: match c.persist_filters { Some(v) => v, None => false },
    }
}

/// Life cycle of a downloadable AI model.
#[derive(Debug, Clone, PartialEq, Eq)]
pub enum ModelStatus {
    NotDownloaded,
    Downloading,
    /// Downloaded, but validation was deferred until the editor is used.
    NeedsValidation,
    Validating,
    Ready,
    /// The download or the validation failed with this message.
    Error(String),
}

/// The status of a model at startup and whether its validation starts now:
/// an enabled model whose file is present is validated at once; any other
/// model counts as not downloaded.
pub fn startup_model_status(enabled: bool, downloaded: bool) -> (r: (ModelStatus, bool))
    ensures
        enabled && downloaded ==> r == (ModelStatus::Validating, true),
        !(enabled && downloaded) ==> r == (ModelStatus::NotDownloaded, false),
{
    if enabled && downloaded {
        (ModelStatus::Validating, true)
    } else {
        (ModelStatus::NotDownloaded, false)
    }
}

/// On first entry into the editor, a model whose validation was deferred
/// starts validating; any other status is left alone. Returns the new
/// status and whether to start a validation task.
pub fn deferred_validation(status: ModelStatus) -> (r: (ModelStatus, bool))
    ensures
        status == ModelStatus::NeedsValidation ==> r == (ModelStatus::Validating, true),
        status != ModelStatus::NeedsValidation ==> r == (status, false),
{
    match status {
        ModelStatus::NeedsValidation => (ModelStatus::Validating, true),
        _ => (status, false),
    }
}

/// Whether a resize uses AI upscaling: only when upscaling is enabled and
/// the model is ready; otherwise the standard resize is used.
pub fn use_ai_upscale(enabled: bool, status: ModelStatus) -> (r: bool)
    ensures
        r == (enabled && status == ModelStatus::Ready),
{
    enabled && match status {
        ModelStatus::Ready => true,
        _ => false,
    }
}

/// What startup does with the path given on the command line.
#[derive(Debug, Clone, PartialEq)]
pub enum StartupScan {
    /// No path was given: start without media.
    Nothing,
    /// Scan this directory and open its first media.
    Directory(String),
    /// Scan the directory of this file and open it.
    File(String),
}

/// Chooses how to treat the startup path, given whether it is a directory.
pub fn startup_scan(file_path: Option<String>, is_dir: bool) -> (r: StartupScan)
    ensures
        match file_path {
            None => r == StartupScan::Nothing,
            Some(p) => if is_dir {
                r matches StartupScan::Directory(d) && d@ == p@
            } else {
                r matches StartupScan::File(f) && f@ == p@
            },
        },
{
    match file_path {
        None => StartupScan::Nothing,
        Some(p) => if is_dir { StartupScan::Directory(p) } else { StartupScan::File(p) },
    }
}

/// What a startup scan reported.
#[derive(Debug, Clone, PartialEq)]
pub enum ScanReport {
    /// The directory scan selected this media.
    Selected(String),
    /// The directory holds no media.
    NoMedia,
    /// The directory could not be read.
    Failed,
}

/// The media to open at startup and whether to warn that the directory could
/// not be scanned. A file is opened even when its directory could not be
/// scanned; a directory yields its selected media, if any.
pub fn startup_media(scan: StartupScan, report: ScanReport) -> (r: (Option<String>, bool))
    ensures
        match scan {
            StartupScan::Nothing => r.0 is None && !r.1,
            StartupScan::File(f) => (r.0 matches Some(p) && p@ == f@) && r.1 == (report is Failed),
            StartupScan::Directory(_) => match report {
                ScanReport::Selected(m) => (r.0 matches Some(p) && p@ == m@) && !r.1,
                ScanReport::NoMedia => r.0 is None && !r.1,
                ScanReport::Failed => r.0 is None && r.1,
            },
        },
{
    match scan {
        StartupScan::Nothing => (None, false),
        StartupScan::File(f) => {
            let failed = match report {
                ScanReport::Failed => true,
                _ => false,
            };
            (Some(f), failed)
        },
        StartupScan::Directory(_) => match report {
            ScanReport::Selected(m) => (Some(m), false),
            ScanReport::NoMedia => (None, false),
            ScanReport::Failed => (None, true),
        },
    }
}

} // verus!

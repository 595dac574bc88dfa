//! How the application answers what the settings screen reports.

use vstd::prelude::*;
use crate::config::{BackgroundTheme, SortOrder, ThemeMode};
use crate::models::AiModel;

verus! {

/// What the settings screen reports after handling user input. Zoom steps
/// are in percent, the keyboard seek step in milliseconds.
#[derive(Debug, Clone, PartialEq, Eq)]
pub enum SettingsEvent {
    Idle,
    BackToViewer,
    BackToViewerWithZoomChange(u32),
    LanguageSelected(String),
    ZoomStepChanged(u32),
    BackgroundThemeSelected(BackgroundTheme),
    SortOrderSelected(SortOrder),
    OverlayTimeoutChanged(u32),
    FrameCacheMbChanged(u32),
    FrameHistoryMbChanged(u32),
    DeblurModelUrlChanged(String),
    UpscaleModelUrlChanged(String),
    ThemeModeSelected(ThemeMode),
    VideoAutoplayChanged(bool),
    AudioNormalizationChanged(bool),
    KeyboardSeekStepChanged(u32),
    MaxSkipAttemptsChanged(u32),
    RequestEnableDeblur,
    DisableDeblur,
    RequestEnableUpscale,
    DisableUpscale,
    PersistFiltersChanged(bool),
}

/// What the application does in answer. Fields left `None` or `false` mean
/// no change.
#[derive(Debug, Clone, PartialEq, Eq)]
pub struct SettingsResponse {
    /// Return to the viewer.
    pub show_viewer: bool,
    /// Apply this zoom step to the viewer.
    pub zoom_step_percent: Option<u32>,
    /// Switch to this language and store it in the configuration.
    pub language: Option<String>,
    /// Apply this theme mode.
    pub theme_mode: Option<ThemeMode>,
    /// Apply this autoplay setting to the viewer.
    pub video_autoplay: Option<bool>,
    /// Apply this audio normalization setting.
    pub audio_normalization: Option<bool>,
    /// Apply this keyboard seek step to the viewer.
    pub keyboard_seek_step_ms: Option<u32>,
    /// Apply this maximum number of skip attempts to the viewer.
    pub max_skip_attempts: Option<u32>,
    /// Start downloading this model (its status becomes `Downloading`).
    pub start_download: Option<AiModel>,
    /// Turn this model off: clear its flag, save the state, delete its file.
    pub disable_model: Option<AiModel>,
    /// Write the preferences to the configuration file.
    pub persist_preferences: bool,
}

/// The response that does nothing.
pub open spec fn quiet() -> SettingsResponse {
    SettingsResponse {
        show_viewer: false,
        zoom_step_percent: None,
        language: None,
        theme_mode: None,
        video_autoplay: None,
        audio_normalization: None,
        keyboard_seek_step_ms: None,
        max_skip_attempts: None,
        start_download: None,
        disable_model: None,
        persist_preferences: false,
    }
}

fn quiet_response() -> (r: SettingsResponse)
    ensures
        r == quiet(),
{
    SettingsResponse {
        show_viewer: false,
        zoom_step_percent: None,
        language: None,
        theme_mode: None,
        video_autoplay: None,
        audio_normalization: None,
        keyboard_seek_step_ms: None,
        max_skip_attempts: None,
        start_download: None,
        disable_model: None,
        persist_preferences: false,
    }
}

/// The response to a settings event: leaving returns to the viewer (with a
/// changed zoom step applied and persisted); a language is applied and
/// stored on its own; every other preference change is applied where it
/// takes effect at once and persisted; enabling a model starts its
/// download; disabling it turns it off.
pub open spec fn spec_settings_response(e: SettingsEvent) -> SettingsResponse {
    match e {
        SettingsEvent::Idle => quiet(),
        SettingsEvent::BackToViewer => SettingsResponse { show_viewer: true, ..quiet() },
        SettingsEvent::BackToViewerWithZoomChange(v) => SettingsResponse {
            show_viewer: true,
            zoom_step_percent: Some(v),
            persist_preferences: true,
            ..quiet()
        },
        SettingsEvent::LanguageSelected(l) => SettingsResponse { language: Some(l), ..quiet() },
        SettingsEvent::ZoomStepChanged(v) => SettingsResponse {
            zoom_step_percent: Some(v),
            persist_preferences: true,
            ..quiet()
        },
        SettingsEvent::ThemeModeSelected(m) => SettingsResponse {
            theme_mode: Some(m),
            persist_preferences: true,
            ..quiet()
        },
        SettingsEvent::VideoAutoplayChanged(b) => SettingsResponse {
            video_autoplay: Some(b),
            persist_preferences: true,
            ..quiet()
        },
        SettingsEvent::AudioNormalizationChanged(b) => SettingsResponse {
            audio_normalization: Some(b),
            persist_preferences: true,
            ..quiet()
        },
        SettingsEvent::KeyboardSeekStepChanged(s) => SettingsResponse {
            keyboard_seek_step_ms: Some(s),
            persist_preferences: true,
            ..quiet()
        },
        SettingsEvent::MaxSkipAttemptsChanged(n) => SettingsResponse {
            max_skip_attempts: Some(n),
            persist_preferences: true,
            ..quiet()
        },
        SettingsEvent::RequestEnableDeblur => SettingsResponse { start_download: Some(AiModel::Deblur), ..quiet() },
        SettingsEvent::RequestEnableUpscale => SettingsResponse { start_download: Some(AiModel::Upscale), ..quiet() },
        SettingsEvent::DisableDeblur => SettingsResponse { disable_model: Some(AiModel::Deblur), ..quiet() },
        SettingsEvent::DisableUpscale => SettingsResponse { disable_model: Some(AiModel::Upscale), ..quiet() },
        _ => SettingsResponse { persist_preferences: true, ..quiet() },
    }
}

/// Answers a settings event.
pub fn handle_settings_event(e: SettingsEvent) -> (r: SettingsResponse)
    ensures
        r == spec_settings_response(e),
{
    let mut r = quiet_response();
    match e {
        SettingsEvent::Idle => {},
        SettingsEvent::BackToViewer => {
            r.show_viewer = true;
        },
        SettingsEvent::BackToViewerWithZoomChange(v) => {
            r.show_viewer = true;
            r.zoom_step_percent = Some(v);
            r.persist_preferences = true;
        },
        SettingsEvent::LanguageSelected(l) => {
            r.language = Some(l);
        },
        SettingsEvent::ZoomStepChanged(v) => {
            r.zoom_step_percent = Some(v);
            r.persist_preferences = true;
        },
        SettingsEvent::ThemeModeSelected(m) => {
            r.theme_mode = Some(m);
            r.persist_preferences = true;
        },
        SettingsEvent::VideoAutoplayChanged(b) => {
            r.video_autoplay = Some(b);
            r.persist_preferences = true;
        },
        SettingsEvent::AudioNormalizationChanged(b) => {
            r.audio_normalization = Some(b);
            r.persist_preferences = true;
        },
        SettingsEvent::KeyboardSeekStepChanged(s) => {
            r.keyboard_seek_step_ms = Some(s);
            r.persist_preferences = true;
        },
        SettingsEvent::MaxSkipAttemptsChanged(n) => {
            r.max_skip_attempts = Some(n);
            r.persist_preferences = true;
        },
        SettingsEvent::RequestEnableDeblur => {
            r.start_download = Some(AiModel::Deblur);
        },
        SettingsEvent::RequestEnableUpscale => {
            r.start_download = Some(AiModel::Upscale);
        },
        SettingsEvent::DisableDeblur => {
            r.disable_model = Some(AiModel::Deblur);
        },
        SettingsEvent::DisableUpscale => {
            r.disable_model = Some(AiModel::Upscale);
        },
        SettingsEvent::BackgroundThemeSelected(_)
        | SettingsEvent::SortOrderSelected(_)
        | SettingsEvent::OverlayTimeoutChanged(_)
        | SettingsEvent::FrameCacheMbChanged(_)
        | SettingsEvent::FrameHistoryMbChanged(_)
        | SettingsEvent::DeblurModelUrlChanged(_)
        | SettingsEvent::UpscaleModelUrlChanged(_)
        | SettingsEvent::PersistFiltersChanged(_) => {
            r.persist_preferences = true;
        },
    }
    r
}

/// Leaving the settings never writes the configuration unless the zoom step
/// changed, and an event that changes a preference always writes it; the
/// language, written on its own, and the model switches, kept in the
/// application state, are the exceptions.
pub proof fn lemma_preferences_written_on_change(e: SettingsEvent)
    ensures
        spec_settings_response(e).persist_preferences <==> !(
            e is Idle || e is BackToViewer || e is LanguageSelected || e is RequestEnableDeblur
            || e is RequestEnableUpscale || e is DisableDeblur || e is DisableUpscale
        ),
        spec_settings_response(e).show_viewer <==> (e is BackToViewer || e is BackToViewerWithZoomChange),
{
}

} // verus!

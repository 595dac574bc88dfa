use iced_lens::config::{
    choose_config_format, config_load_outcome, default_audio_normalization, default_fit_to_window,
    default_frame_cache_mb, default_overlay_timeout_secs, default_theme_mode,
    get_config_path_with_override, looks_sectioned, parse_theme_mode, BackgroundTheme,
    ConfigFormat, FullscreenConfig, GeneralConfig, LoadChoice, SortOrder, ThemeMode,
};
use iced_lens::defaults::{
    clamp_zoom_step, playback_speed_presets_hundredths, DEFAULT_FRAME_CACHE_MB,
    DEFAULT_FRAME_HISTORY_MB, DEFAULT_OVERLAY_TIMEOUT_SECS, DEFAULT_VOLUME_PERCENT,
    DEFAULT_ZOOM_PERCENT, DEFAULT_ZOOM_STEP_PERCENT, MAX_FRAME_CACHE_MB, MAX_FRAME_HISTORY_MB,
    MAX_OVERLAY_TIMEOUT_SECS, MAX_VOLUME_PERCENT, MAX_ZOOM_PERCENT, MAX_ZOOM_STEP_PERCENT,
    MIN_FRAME_CACHE_MB, MIN_FRAME_HISTORY_MB, MIN_OVERLAY_TIMEOUT_SECS, MIN_VOLUME_PERCENT,
    MIN_ZOOM_PERCENT, MIN_ZOOM_STEP_PERCENT, VOLUME_STEP_PERCENT,
};

#[test]
fn sort_order_default_is_alphabetical() {
    assert_eq!(SortOrder::default(), SortOrder::Alphabetical);
}

#[test]
fn overlay_timeout_bounds_are_reasonable() {
    assert_eq!(MIN_OVERLAY_TIMEOUT_SECS, 1);
    assert_eq!(MAX_OVERLAY_TIMEOUT_SECS, 30);
}

#[test]
fn volume_constants_are_valid() {
    assert_eq!(DEFAULT_VOLUME_PERCENT, 80);
    assert_eq!(MIN_VOLUME_PERCENT, 0);
    assert_eq!(MAX_VOLUME_PERCENT, 100);
    let step = VOLUME_STEP_PERCENT;
    let default = DEFAULT_VOLUME_PERCENT;
    let min = MIN_VOLUME_PERCENT;
    let max = MAX_VOLUME_PERCENT;
    assert!(step > 0, "VOLUME_STEP must be positive");
    assert!(
        default >= min && default <= max,
        "DEFAULT_VOLUME must be within valid range"
    );
}

#[test]
fn zoom_defaults_are_valid() {
    assert_eq!(DEFAULT_ZOOM_PERCENT, 100);
    assert!(MIN_ZOOM_PERCENT < DEFAULT_ZOOM_PERCENT);
    assert!(MAX_ZOOM_PERCENT > DEFAULT_ZOOM_PERCENT);
}

#[test]
fn zoom_step_defaults_are_valid() {
    assert_eq!(DEFAULT_ZOOM_STEP_PERCENT, 10);
    assert!(DEFAULT_ZOOM_STEP_PERCENT >= MIN_ZOOM_STEP_PERCENT);
    assert!(DEFAULT_ZOOM_STEP_PERCENT <= MAX_ZOOM_STEP_PERCENT);
}

#[test]
fn volume_defaults_are_valid() {
    assert_eq!(DEFAULT_VOLUME_PERCENT, 80);
    assert!(DEFAULT_VOLUME_PERCENT >= MIN_VOLUME_PERCENT);
    assert!(DEFAULT_VOLUME_PERCENT <= MAX_VOLUME_PERCENT);
    assert!(VOLUME_STEP_PERCENT > 0);
}

#[test]
fn overlay_timeout_defaults_are_valid() {
    assert_eq!(DEFAULT_OVERLAY_TIMEOUT_SECS, 3);
    assert!(DEFAULT_OVERLAY_TIMEOUT_SECS >= MIN_OVERLAY_TIMEOUT_SECS);
    assert!(DEFAULT_OVERLAY_TIMEOUT_SECS <= MAX_OVERLAY_TIMEOUT_SECS);
}

#[test]
fn frame_cache_defaults_are_valid() {
    assert_eq!(DEFAULT_FRAME_CACHE_MB, 64);
    assert!(DEFAULT_FRAME_CACHE_MB >= MIN_FRAME_CACHE_MB);
    assert!(DEFAULT_FRAME_CACHE_MB <= MAX_FRAME_CACHE_MB);
}

#[test]
fn frame_history_defaults_are_valid() {
    assert_eq!(DEFAULT_FRAME_HISTORY_MB, 128);
    assert!(DEFAULT_FRAME_HISTORY_MB >= MIN_FRAME_HISTORY_MB);
    assert!(DEFAULT_FRAME_HISTORY_MB <= MAX_FRAME_HISTORY_MB);
}

#[test]
fn default_config_sets_overlay_timeout() {
    let fullscreen = FullscreenConfig::default();
    assert_eq!(fullscreen.overlay_timeout_secs, Some(DEFAULT_OVERLAY_TIMEOUT_SECS));
    assert_eq!(DEFAULT_OVERLAY_TIMEOUT_SECS, 3);
}

#[test]
fn audio_normalization_defaults_to_true() {
    assert_eq!(default_audio_normalization(), Some(true));
}

// Scenarios beyond the original suite.

#[test]
fn section_defaults() {
    assert_eq!(default_fit_to_window(), Some(true));
    assert_eq!(default_frame_cache_mb(), Some(DEFAULT_FRAME_CACHE_MB));
    assert_eq!(default_overlay_timeout_secs(), Some(3));
    assert_eq!(default_theme_mode(), ThemeMode::System);
    assert_eq!(BackgroundTheme::default(), BackgroundTheme::Dark);
    let general = GeneralConfig::default();
    assert_eq!(general.language, None);
    assert_eq!(general.theme_mode, ThemeMode::System);
}

#[test]
fn theme_mode_is_read_ignoring_case() {
    assert_eq!(parse_theme_mode("Light"), Some(ThemeMode::Light));
    assert_eq!(parse_theme_mode("DARK"), Some(ThemeMode::Dark));
    assert_eq!(parse_theme_mode("system"), Some(ThemeMode::System));
    assert_eq!(parse_theme_mode("sepia"), None);
}

#[test]
fn language_is_stored_in_canonical_form() {
    let mut general = GeneralConfig::default();
    assert!(general.set_language("en-us"));
    assert_eq!(general.language.as_deref(), Some("en-US"));
    assert!(!general.set_language("not a tag!"));
    assert_eq!(general.language.as_deref(), Some("en-US"));
}

#[test]
fn config_path_joins_file_name() {
    assert_eq!(
        get_config_path_with_override(Some("/cfg/IcedLens")),
        Some("/cfg/IcedLens/settings.toml".to_string())
    );
    assert_eq!(get_config_path_with_override(None), None);
}

#[test]
fn config_format_choice() {
    assert!(looks_sectioned("[display]\nzoom_step = 10.0\n"));
    assert!(!looks_sectioned("zoom_step = 10.0\n"));
    assert_eq!(choose_config_format("[general]\n", true, true), ConfigFormat::Sectioned);
    assert_eq!(choose_config_format("language = \"fr\"\n", true, true), ConfigFormat::Legacy);
    assert_eq!(choose_config_format("", true, false), ConfigFormat::Sectioned);
    assert_eq!(choose_config_format("{{", false, false), ConfigFormat::Invalid);
}

#[test]
fn config_load_outcomes() {
    assert_eq!(config_load_outcome(true, true, true), (LoadChoice::UseLoaded, None));
    assert_eq!(
        config_load_outcome(true, true, false),
        (LoadChoice::UseDefault, Some("notification-config-load-error".to_string()))
    );
    assert_eq!(config_load_outcome(true, false, false), (LoadChoice::UseDefault, None));
    assert_eq!(config_load_outcome(false, true, true), (LoadChoice::UseDefault, None));
}

#[test]
fn zoom_step_is_clamped_and_clamping_is_idempotent() {
    assert_eq!(clamp_zoom_step(0), MIN_ZOOM_STEP_PERCENT);
    assert_eq!(clamp_zoom_step(500), MAX_ZOOM_STEP_PERCENT);
    assert_eq!(clamp_zoom_step(25), 25);
    assert_eq!(clamp_zoom_step(clamp_zoom_step(500)), clamp_zoom_step(500));
}

#[test]
fn playback_presets_ascend() {
    let p = playback_speed_presets_hundredths();
    assert!(p.windows(2).all(|w| w[0] < w[1]));
    assert!(p.contains(&100));
}

//! Configuration sections, their defaults, and the decisions taken while
//! loading a `settings.toml` file.
//!
//! The reading, writing and TOML parsing of the file happen outside the
//! library; what they report is handed to the functions here.

use vstd::prelude::*;
use crate::defaults::{
    DEFAULT_FRAME_CACHE_MB, DEFAULT_FRAME_HISTORY_MB, DEFAULT_OVERLAY_TIMEOUT_SECS,
};
use crate::path_util::{join_path, joined_path, lowercase_of, to_lowercase};
use crate::text::{contains_str, contains_text, str_eq};

verus! {

/// Name of the configuration file inside the configuration directory.
pub const CONFIG_FILE: &'static str = "settings.toml";

/// Viewer background.
#[derive(Debug, Clone, Copy, PartialEq, Eq, Structural)]
pub enum BackgroundTheme {
    Light,
    Dark,
    Checkerboard,
}

impl Default for BackgroundTheme {
    /// The dark background.
    fn default() -> (r: Self)
        ensures
            r == BackgroundTheme::Dark,
    {
        BackgroundTheme::Dark
    }
}

/// Order of the media files of a directory.
#[derive(Debug, Clone, Copy, PartialEq, Eq, Structural)]
pub enum SortOrder {
    Alphabetical,
    ModifiedDate,
    CreatedDate,
}

impl Default for SortOrder {
    /// Alphabetical order.
    fn default() -> (r: Self)
        ensures
            r == SortOrder::Alphabetical,
    {
        SortOrder::Alphabetical
    }
}

/// Application theme mode.
#[derive(Debug, Clone, Copy, PartialEq, Eq, Structural)]
pub enum ThemeMode {
    Light,
    Dark,
    System,
}

/// The theme mode used when the configuration names none.
pub fn default_theme_mode() -> (r: ThemeMode)
    ensures
        r == ThemeMode::System,
{
    ThemeMode::System
}

/// Whether images fit the window when the configuration says nothing.
pub fn default_fit_to_window() -> (r: Option<bool>)
    ensures
        r == Some(true),
{
    Some(true)
}

/// Whether audio normalization is on when the configuration says nothing.
pub fn default_audio_normalization() -> (r: Option<bool>)
    ensures
        r == Some(true),
{
    Some(true)
}

/// Frame cache size when the configuration says nothing.
pub fn default_frame_cache_mb() -> (r: Option<u32>)
    ensures
        r == Some(DEFAULT_FRAME_CACHE_MB),
{
    Some(DEFAULT_FRAME_CACHE_MB)
}

/// Frame history size when the configuration says nothing.
pub fn default_frame_history_mb() -> (r: Option<u32>)
    ensures
        r == Some(DEFAULT_FRAME_HISTORY_MB),
{
    Some(DEFAULT_FRAME_HISTORY_MB)
}

/// Overlay timeout when the configuration says nothing.
pub fn default_overlay_timeout_secs() -> (r: Option<u32>)
    ensures
        r == Some(DEFAULT_OVERLAY_TIMEOUT_SECS),
{
    Some(DEFAULT_OVERLAY_TIMEOUT_SECS)
}

/// The theme mode that a lower-cased `theme_mode` value names.
pub open spec fn theme_mode_of_lowercase(s: Seq<char>) -> Option<ThemeMode> {
    if s == "light"@ {
        Some(ThemeMode::Light)
    } else if s == "dark"@ {
        Some(ThemeMode::Dark)
    } else if s == "system"@ {
        Some(ThemeMode::System)
    } else {
        None
    }
}

/// Reads an already lower-cased `theme_mode` value.
pub fn theme_mode_from_lowercase(s: &str) -> (r: Option<ThemeMode>)
    ensures
        r == theme_mode_of_lowercase(s@),
{
    if str_eq(s, "light") {
        Some(ThemeMode::Light)
    } else if str_eq(s, "dark") {
        Some(ThemeMode::Dark)
    } else if str_eq(s, "system") {
        Some(ThemeMode::System)
    } else {
        None
    }
}

/// Reads a `theme_mode` value, ignoring case; `None` for any other word.
pub fn parse_theme_mode(raw: &str) -> (r: Option<ThemeMode>)
    ensures
        r == theme_mode_of_lowercase(lowercase_of(raw@)),
{
    let lower = to_lowercase(raw);
    theme_mode_from_lowercase(lower.as_str())
}

/// The canonical form that `unic_langid` gives a language tag.
pub uninterp spec fn canonical_tag_of(tag: Seq<char>) -> Option<Seq<char>>;

/// Parses `tag` as a `unic_langid::LanguageIdentifier` and writes it back in
/// canonical form (`Display`); `None` when the tag does not parse. The
/// contract claims only that the result is the one named `canonical_tag_of`.
#[verifier::external_body]
fn canonical_language_tag(tag: &str) -> (r: Option<String>)
    ensures
        match r {
            Some(t) => canonical_tag_of(tag@) == Some(t@),
            None => canonical_tag_of(tag@) is None,
        },
{
    match tag.parse::<unic_langid::LanguageIdentifier>() {
        Ok(id) => Some(id.to_string()),
        Err(_) => None,
    }
}

/// General application settings.
#[derive(Debug, Clone, PartialEq)]
pub struct GeneralConfig {
    /// UI language code (e.g., "en-US", "fr").
    pub language: Option<String>,
    /// Application theme mode.
    pub theme_mode: ThemeMode,
}

impl GeneralConfig {
    /// Records the language that the user selected, in canonical form.
    /// Returns `false`, and changes nothing, when `locale` is no valid tag.
    pub fn set_language(&mut self, locale: &str) -> (r: bool)
        ensures
            r == (canonical_tag_of(locale@) is Some),
            final(self).theme_mode == old(self).theme_mode,
            match canonical_tag_of(locale@) {
                Some(t) => (final(self).language matches Some(l) && l@ == t),
                None => final(self).language == old(self).language,
            },
    {
        match canonical_language_tag(locale) {
            Some(t) => {
                self.language = Some(t);
                true
            },
            None => false,
        }
    }
}

impl Default for GeneralConfig {
    /// No language set; the system theme.
    fn default() -> (r: Self)
        ensures
            r.language is None,
            r.theme_mode == ThemeMode::System,
    {
        GeneralConfig { language: None, theme_mode: default_theme_mode() }
    }
}

/// Fullscreen overlay settings.
#[derive(Debug, Clone, Copy, PartialEq, Eq, Structural)]
pub struct FullscreenConfig {
    /// Auto-hide timeout for fullscreen controls, in seconds.
    pub overlay_timeout_secs: Option<u32>,
}

impl Default for FullscreenConfig {
    /// The default overlay timeout.
    fn default() -> (r: Self)
        ensures
            r.overlay_timeout_secs == Some(DEFAULT_OVERLAY_TIMEOUT_SECS),
    {
        FullscreenConfig { overlay_timeout_secs: Some(DEFAULT_OVERLAY_TIMEOUT_SECS) }
    }
}

/// The configuration file inside a configuration directory, if one was found.
pub fn get_config_path_with_override(config_dir: Option<&str>) -> (r: Option<String>)
    ensures
        match config_dir {
            Some(d) => (r matches Some(p) && p@ == joined_path(d@, CONFIG_FILE@)),
            None => r is None,
        },
{
    match config_dir {
        Some(d) => Some(join_path(d, CONFIG_FILE)),
        None => None,
    }
}

/// Whether the text of a configuration file has one of the section tables
/// of the sectioned format.
pub open spec fn has_section_table(content: Seq<char>) -> bool {
    ||| contains_text(content, "[general]"@)
    ||| contains_text(content, "[display]"@)
    ||| contains_text(content, "[video]"@)
    ||| contains_text(content, "[fullscreen]"@)
}

/// Checks whether a configuration file's text has a section table.
pub fn looks_sectioned(content: &str) -> (r: bool)
    ensures
        r == has_section_table(content@),
{
    contains_str(content, "[general]") || contains_str(content, "[display]")
        || contains_str(content, "[video]") || contains_str(content, "[fullscreen]")
}

/// How the text of a configuration file is read.
#[derive(Debug, Clone, Copy, PartialEq, Eq, Structural)]
pub enum ConfigFormat {
    /// The sectioned format (`[general]`, `[display]`, ...).
    Sectioned,
    /// The flat format of versions before 0.3.0, migrated on load.
    Legacy,
    /// Neither format parses: the sectioned format's parse error is reported.
    Invalid,
}

/// The format chosen for a configuration file's text, given whether it
/// parses as the sectioned and as the legacy flat format.
pub open spec fn spec_config_format(content: Seq<char>, sectioned_parses: bool, legacy_parses: bool) -> ConfigFormat {
    if sectioned_parses && has_section_table(content) {
        ConfigFormat::Sectioned
    } else if legacy_parses {
        ConfigFormat::Legacy
    } else if sectioned_parses {
        ConfigFormat::Sectioned
    } else {
        ConfigFormat::Invalid
    }
}

/// Chooses how to read a configuration file: the sectioned format when it
/// parses and the text has a section table, else the legacy flat format when
/// that parses, else the sectioned format again when it parses (a file with
/// no keys at all), else an error.
pub fn choose_config_format(content: &str, sectioned_parses: bool, legacy_parses: bool) -> (r: ConfigFormat)
    ensures
        r == spec_config_format(content@, sectioned_parses, legacy_parses),
{
    if sectioned_parses && looks_sectioned(content) {
        ConfigFormat::Sectioned
    } else if legacy_parses {
        ConfigFormat::Legacy
    } else if sectioned_parses {
        ConfigFormat::Sectioned
    } else {
        ConfigFormat::Invalid
    }
}

/// Whether the loaded configuration or the default one is used after an
/// attempt to load the configuration file.
#[derive(Debug, Clone, Copy, PartialEq, Eq, Structural)]
pub enum LoadChoice {
    UseLoaded,
    UseDefault,
}

/// Decides what loading the configuration yields, from what the file system
/// reported: with no configuration directory or no file, the defaults and no
/// warning; with a file that loads, its content; with one that does not, the
/// defaults and the `notification-config-load-error` warning.
pub fn config_load_outcome(path_found: bool, file_exists: bool, load_ok: bool) -> (r: (LoadChoice, Option<String>))
    ensures
        path_found && file_exists && load_ok ==> r.0 == LoadChoice::UseLoaded && r.1 is None,
        path_found && file_exists && !load_ok ==> (r.0 == LoadChoice::UseDefault
            && (r.1 matches Some(w) && w@ == "notification-config-load-error"@)),
        !(path_found && file_exists) ==> r.0 == LoadChoice::UseDefault && r.1 is None,
{
    if path_found && file_exists {
        if load_ok {
            (LoadChoice::UseLoaded, None)
        } else {
            (LoadChoice::UseDefault, Some("notification-config-load-error".to_string()))
        }
    } else {
        (LoadChoice::UseDefault, None)
    }
}


/// A configuration text counts as sectioned exactly when it holds one of the
/// four section tables `[general]`, `[display]`, `[video]`, `[fullscreen]`;
/// such a text is read in the sectioned format whenever that format parses,
/// and a text with none of them is read in the legacy format whenever that
/// format parses.
pub proof fn lemma_any_section_table_means_sectioned(content: Seq<char>, sectioned_parses: bool, legacy_parses: bool)
    ensures
        has_section_table(content) <==> (contains_text(content, "[general]"@)
            || contains_text(content, "[display]"@) || contains_text(content, "[video]"@)
            || contains_text(content, "[fullscreen]"@)),
        (contains_text(content, "[general]"@) || contains_text(content, "[display]"@)
            || contains_text(content, "[video]"@) || contains_text(content, "[fullscreen]"@))
            && sectioned_parses ==> spec_config_format(content, sectioned_parses, legacy_parses) == ConfigFormat::Sectioned,
        !(contains_text(content, "[general]"@) || contains_text(content, "[display]"@)
            || contains_text(content, "[video]"@) || contains_text(content, "[fullscreen]"@))
            && legacy_parses ==> spec_config_format(content, sectioned_parses, legacy_parses) == ConfigFormat::Legacy,
{
}

} // verus!

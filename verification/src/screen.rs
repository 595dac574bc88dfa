//! Screens, window-level state and the decisions taken when the user moves
//! between screens.

use vstd::prelude::*;
use crate::path_util::{file_name_of, path_file_name};

verus! {

/// Screens the user can navigate between.
#[derive(Debug, Clone, Copy, PartialEq, Eq, Structural)]
pub enum Screen {
    Viewer,
    Settings,
    ImageEditor,
    Help,
    About,
    Diagnostics,
}

/// Runtime flags passed in from the command line or the launcher.
#[derive(Debug, Clone, PartialEq)]
pub struct Flags {
    /// Optional locale override in BCP-47 form (e.g. `fr`, `en-US`).
    pub lang: Option<String>,
    /// Optional media path (file or directory) to open on startup.
    pub file_path: Option<String>,
    /// Optional directory containing Fluent `.ftl` files.
    pub i18n_dir: Option<String>,
    /// Optional data directory override (for state files).
    pub data_dir: Option<String>,
    /// Optional configuration directory override (for `settings.toml`).
    pub config_dir: Option<String>,
}

impl Default for Flags {
    /// No flags set.
    fn default() -> (r: Self)
        ensures
            r.lang is None,
            r.file_path is None,
            r.i18n_dir is None,
            r.data_dir is None,
            r.config_dir is None,
    {
        Flags { lang: None, file_path: None, i18n_dir: None, data_dir: None, config_dir: None }
    }
}

/// What the settings screen reports about the zoom step typed into it when
/// the user leaves it.
#[derive(Debug, Clone, Copy, PartialEq, Eq, Structural)]
pub enum ZoomStepCommit {
    /// The zoom step was not edited.
    Unchanged,
    /// A new valid zoom step (in percent) was committed.
    Changed(u32),
    /// The typed value is invalid; the user must correct it first.
    Invalid,
}

/// What is shown in the viewer when the user asks for the editor.
#[derive(Debug, Clone, Copy, PartialEq, Eq, Structural)]
pub enum ViewerContent {
    /// No media is current, or none is loaded.
    Nothing,
    /// An image is current and loaded.
    Image,
    /// A video is current and loaded.
    Video,
}

/// The side effect that accompanies a screen switch.
#[derive(Debug, Clone, Copy, PartialEq, Eq, Structural)]
pub enum ScreenAction {
    /// No side effect.
    Stay,
    /// Apply the committed zoom step to the viewer and persist preferences.
    ApplyZoomStep(u32),
    /// Tell the user that videos cannot be edited.
    WarnVideoUnsupported,
    /// Rescan the directory and create the editor for the current image;
    /// the screen switches to the editor once the editor was created.
    OpenEditor,
    /// Drop the editor state.
    CloseEditor,
}

/// The screen and the side effect that a request to switch from `current`
/// to `target` leads to.
pub open spec fn spec_screen_switch(
    current: Screen,
    target: Screen,
    metadata_unsaved: bool,
    zoom: ZoomStepCommit,
    content: ViewerContent,
) -> (Screen, ScreenAction) {
    if current == Screen::Viewer && target == Screen::ImageEditor && metadata_unsaved {
        (current, ScreenAction::Stay)
    } else if current == Screen::Settings && target == Screen::Viewer {
        match zoom {
            ZoomStepCommit::Changed(v) => (Screen::Viewer, ScreenAction::ApplyZoomStep(v)),
            ZoomStepCommit::Unchanged => (Screen::Viewer, ScreenAction::Stay),
            ZoomStepCommit::Invalid => (Screen::Settings, ScreenAction::Stay),
        }
    } else if current == Screen::Viewer && target == Screen::ImageEditor {
        match content {
            ViewerContent::Image => (Screen::Viewer, ScreenAction::OpenEditor),
            ViewerContent::Video => (Screen::Viewer, ScreenAction::WarnVideoUnsupported),
            ViewerContent::Nothing => (Screen::Viewer, ScreenAction::Stay),
        }
    } else if current == Screen::ImageEditor && target == Screen::Viewer {
        (Screen::Viewer, ScreenAction::CloseEditor)
    } else {
        (target, ScreenAction::Stay)
    }
}

/// Decides a screen switch. The editor cannot be entered while the metadata
/// editor has unsaved changes, nor for a video or with nothing loaded;
/// leaving the settings requires a valid zoom step; leaving the editor drops
/// its state; every other switch happens at once.
pub fn handle_screen_switch(
    current: Screen,
    target: Screen,
    metadata_unsaved: bool,
    zoom: ZoomStepCommit,
    content: ViewerContent,
) -> (r: (Screen, ScreenAction))
    ensures
        r == spec_screen_switch(current, target, metadata_unsaved, zoom, content),
{
    if current == Screen::Viewer && target == Screen::ImageEditor && metadata_unsaved {
        (current, ScreenAction::Stay)
    } else if current == Screen::Settings && target == Screen::Viewer {
        match zoom {
            ZoomStepCommit::Changed(v) => (Screen::Viewer, ScreenAction::ApplyZoomStep(v)),
            ZoomStepCommit::Unchanged => (Screen::Viewer, ScreenAction::Stay),
            ZoomStepCommit::Invalid => (Screen::Settings, ScreenAction::Stay),
        }
    } else if current == Screen::Viewer && target == Screen::ImageEditor {
        match content {
            ViewerContent::Image => (Screen::Viewer, ScreenAction::OpenEditor),
            ViewerContent::Video => (Screen::Viewer, ScreenAction::WarnVideoUnsupported),
            ViewerContent::Nothing => (Screen::Viewer, ScreenAction::Stay),
        }
    } else if current == Screen::ImageEditor && target == Screen::Viewer {
        (Screen::Viewer, ScreenAction::CloseEditor)
    } else {
        (target, ScreenAction::Stay)
    }
}

/// The screen once the editor requested by [`ScreenAction::OpenEditor`] was
/// (or failed to be) created: the editor on success, the viewer otherwise.
pub fn screen_after_editor_creation(created: bool) -> (r: Screen)
    ensures
        created ==> r == Screen::ImageEditor,
        !created ==> r == Screen::Viewer,
{
    if created { Screen::ImageEditor } else { Screen::Viewer }
}

/// A switch never leaves the user on a screen other than the current one or
/// the target; from the viewer the editor is never entered directly (only
/// once it was created), and a switch to the screen one is on changes nothing.
pub proof fn lemma_screen_switch_stays_or_reaches_target(
    current: Screen,
    target: Screen,
    metadata_unsaved: bool,
    zoom: ZoomStepCommit,
    content: ViewerContent,
)
    ensures
        ({
            let (s, _a) = spec_screen_switch(current, target, metadata_unsaved, zoom, content);
            &&& (s == current || s == target)
            &&& (current == Screen::Viewer && target == Screen::ImageEditor ==> s == Screen::Viewer)
        }),
        current == target ==> spec_screen_switch(current, target, metadata_unsaved, zoom, content)
            == (current, ScreenAction::Stay),
{
}

/// The kinds of window events that routing tells apart.
#[derive(Debug, Clone, Copy, PartialEq, Eq, Structural)]
pub enum EventKind {
    /// A file was dropped on the window.
    FileDropped,
    /// The window was resized.
    WindowResized,
    /// A key was pressed or released.
    Keyboard,
    /// The mouse wheel was scrolled.
    WheelScrolled,
    /// Any other event.
    Other,
}

/// Where a window event goes.
#[derive(Debug, Clone, Copy, PartialEq, Eq, Structural)]
pub enum EventRoute {
    /// Open the dropped file.
    OpenDroppedFile,
    /// Hand the event to the viewer.
    Viewer,
    /// Hand the event to the image editor.
    Editor,
    /// Drop the event.
    Ignore,
}

/// Where an event goes on a screen, given whether a widget already captured
/// it. Dropped files are opened on every screen. In the editor, resizes go
/// to the viewer and uncaptured keys to the editor; nothing else is routed.
/// In the viewer, wheel scrolls always go to the viewer (for zooming) and
/// other uncaptured events too. On the other screens, wheel scrolls belong
/// to the scrollable content and are dropped; other uncaptured events go to
/// the viewer.
pub open spec fn spec_route_event(screen: Screen, kind: EventKind, captured: bool) -> EventRoute {
    if kind == EventKind::FileDropped {
        EventRoute::OpenDroppedFile
    } else if screen == Screen::ImageEditor {
        if kind == EventKind::WindowResized {
            EventRoute::Viewer
        } else if kind == EventKind::Keyboard && !captured {
            EventRoute::Editor
        } else {
            EventRoute::Ignore
        }
    } else if kind == EventKind::WheelScrolled {
        if screen == Screen::Viewer { EventRoute::Viewer } else { EventRoute::Ignore }
    } else if captured {
        EventRoute::Ignore
    } else {
        EventRoute::Viewer
    }
}

/// Dropped files are handled on every screen, and an event that a widget
/// captured reaches neither the viewer nor the editor, except the viewer's
/// wheel zoom and the resizes that the editor passes on.
pub proof fn lemma_routing_respects_capture(screen: Screen, kind: EventKind, captured: bool)
    ensures
        kind == EventKind::FileDropped ==> spec_route_event(screen, kind, captured) == EventRoute::OpenDroppedFile,
        captured && kind != EventKind::FileDropped
            && !(screen == Screen::Viewer && kind == EventKind::WheelScrolled)
            && !(screen == Screen::ImageEditor && kind == EventKind::WindowResized)
            ==> spec_route_event(screen, kind, captured) == EventRoute::Ignore,
{
}

/// Routes a window event.
pub fn route_event(screen: Screen, kind: EventKind, captured: bool) -> (r: EventRoute)
    ensures
        r == spec_route_event(screen, kind, captured),
{
    match kind {
        EventKind::FileDropped => EventRoute::OpenDroppedFile,
        _ => match screen {
            Screen::ImageEditor => match kind {
                EventKind::WindowResized => EventRoute::Viewer,
                EventKind::Keyboard => if captured { EventRoute::Ignore } else { EventRoute::Editor },
                _ => EventRoute::Ignore,
            },
            Screen::Viewer => match kind {
                EventKind::WheelScrolled => EventRoute::Viewer,
                _ => if captured { EventRoute::Ignore } else { EventRoute::Viewer },
            },
            _ => match kind {
                EventKind::WheelScrolled => EventRoute::Ignore,
                _ => if captured { EventRoute::Ignore } else { EventRoute::Viewer },
            },
        },
    }
}

/// Whether the periodic tick (overlay auto-hide, loading timeout,
/// notification auto-dismiss) is needed: in fullscreen, while media loads,
/// or while notifications are shown.
pub fn needs_tick(fullscreen: bool, is_loading: bool, has_notifications: bool) -> (r: bool)
    ensures
        r == (fullscreen || is_loading || has_notifications),
{
    fullscreen || is_loading || has_notifications
}

/// Screen-level events of the navigation bar.
#[derive(Debug, Clone, Copy, PartialEq, Eq, Structural)]
pub enum NavbarEvent {
    Idle,
    OpenSettings,
    OpenHelp,
    OpenAbout,
    OpenDiagnostics,
    EnterEditor,
    ToggleInfoPanel,
}

/// What the application does for a navigation-bar event.
#[derive(Debug, Clone, Copy, PartialEq, Eq, Structural)]
pub enum NavbarAction {
    Nothing,
    /// Show this screen.
    Show(Screen),
    /// Request a switch to the editor (decided by [`handle_screen_switch`]).
    RequestEditor,
    /// Open or close the information panel.
    ToggleInfoPanel,
}

/// Maps a navigation-bar event to the application's response.
pub fn handle_navbar_event(event: NavbarEvent) -> (r: NavbarAction)
    ensures
        r == match event {
            NavbarEvent::Idle => NavbarAction::Nothing,
            NavbarEvent::OpenSettings => NavbarAction::Show(Screen::Settings),
            NavbarEvent::OpenHelp => NavbarAction::Show(Screen::Help),
            NavbarEvent::OpenAbout => NavbarAction::Show(Screen::About),
            NavbarEvent::OpenDiagnostics => NavbarAction::Show(Screen::Diagnostics),
            NavbarEvent::EnterEditor => NavbarAction::RequestEditor,
            NavbarEvent::ToggleInfoPanel => NavbarAction::ToggleInfoPanel,
        },
{
    match event {
        NavbarEvent::Idle => NavbarAction::Nothing,
        NavbarEvent::OpenSettings => NavbarAction::Show(Screen::Settings),
        NavbarEvent::OpenHelp => NavbarAction::Show(Screen::Help),
        NavbarEvent::OpenAbout => NavbarAction::Show(Screen::About),
        NavbarEvent::OpenDiagnostics => NavbarAction::Show(Screen::Diagnostics),
        NavbarEvent::EnterEditor => NavbarAction::RequestEditor,
        NavbarEvent::ToggleInfoPanel => NavbarAction::ToggleInfoPanel,
    }
}

/// The screen after a "back to viewer" request from the help, about or
/// diagnostics screen: the viewer when requested, else unchanged.
pub fn screen_after_back_request(current: Screen, back_to_viewer: bool) -> (r: Screen)
    ensures
        r == if back_to_viewer { Screen::Viewer } else { current },
{
    if back_to_viewer { Screen::Viewer } else { current }
}

/// Fullscreen flag and information panel visibility.
#[derive(Debug, Clone, Copy, PartialEq, Eq, Structural)]
pub struct WindowState {
    pub fullscreen: bool,
    pub info_panel_open: bool,
}

/// The window state after toggling fullscreen.
pub open spec fn spec_toggled(w: WindowState, has_window: bool) -> WindowState {
    WindowState {
        fullscreen: if has_window { !w.fullscreen } else { w.fullscreen },
        info_panel_open: w.info_panel_open && w.fullscreen,
    }
}

/// Toggling fullscreen twice, with a window, returns to the starting
/// fullscreen flag; the information panel stays closed if the first toggle
/// entered fullscreen.
pub proof fn lemma_toggle_twice_restores_fullscreen(w: WindowState)
    ensures
        spec_toggled(spec_toggled(w, true), true).fullscreen == w.fullscreen,
        !w.fullscreen ==> !spec_toggled(spec_toggled(w, true), true).info_panel_open,
{
}

impl WindowState {
    /// Moves to the desired fullscreen state. Returns the window mode to
    /// request (`Some(true)` fullscreen, `Some(false)` windowed), or `None`
    /// when already there or when no window is known (then nothing changes).
    pub fn update_fullscreen_mode(&mut self, has_window: bool, desired: bool) -> (r: Option<bool>)
        ensures
            final(self).info_panel_open == old(self).info_panel_open,
            if old(self).fullscreen == desired || !has_window {
                r is None && final(self).fullscreen == old(self).fullscreen
            } else {
                r == Some(desired) && final(self).fullscreen == desired
            },
    {
        if self.fullscreen == desired {
            return None;
        }
        if !has_window {
            return None;
        }
        self.fullscreen = desired;
        Some(desired)
    }

    /// Toggles fullscreen; entering fullscreen closes the information panel.
    pub fn toggle_fullscreen(&mut self, has_window: bool) -> (r: Option<bool>)
        ensures
            *final(self) == spec_toggled(*old(self), has_window),
            final(self).info_panel_open == (old(self).info_panel_open && old(self).fullscreen),
            has_window ==> (r == Some(!old(self).fullscreen) && final(self).fullscreen == !old(self).fullscreen),
            !has_window ==> (r is None && final(self).fullscreen == old(self).fullscreen),
    {
        let entering = !self.fullscreen;
        if entering && self.info_panel_open {
            self.info_panel_open = false;
        }
        self.update_fullscreen_mode(has_window, entering)
    }
}

/// Whether any document has unsaved changes: a captured frame never counts
/// as modified; otherwise the image editor's or the metadata editor's changes.
pub fn has_any_unsaved_changes(editing_captured_frame: bool, editor_changes: bool, metadata_changes: bool) -> (r: bool)
    ensures
        r == (!editing_captured_frame && (editor_changes || metadata_changes)),
{
    if editing_captured_frame {
        return false;
    }
    editor_changes || metadata_changes
}

/// The title of the current document: the localised "new image" title when
/// a captured frame is being edited, else the Dublin Core title when set and
/// not empty, else the file name of the current media.
pub open spec fn spec_display_title(
    captured_frame_title: Option<Seq<char>>,
    dc_title: Option<Seq<char>>,
    current_path: Option<Seq<char>>,
) -> Option<Seq<char>> {
    if captured_frame_title is Some {
        captured_frame_title
    } else if dc_title matches Some(t) && t.len() > 0 {
        dc_title
    } else {
        match current_path {
            Some(p) => file_name_of(p),
            None => None,
        }
    }
}

/// Chooses the title of the current document. `captured_frame_title` is the
/// localised title, given only while a captured frame is being edited.
pub fn get_display_title(
    captured_frame_title: Option<&str>,
    dc_title: Option<&str>,
    current_path: Option<&str>,
) -> (r: Option<String>)
    ensures
        opt_seq(r) == spec_display_title(opt_str(captured_frame_title), opt_str(dc_title), opt_str(current_path)),
{
    if let Some(t) = captured_frame_title {
        return Some(t.to_string());
    }
    if let Some(t) = dc_title {
        if t.unicode_len() > 0 {
            return Some(t.to_string());
        }
    }
    match current_path {
        Some(p) => path_file_name(p),
        None => None,
    }
}

/// The view of an optional string slice.
pub open spec fn opt_str(s: Option<&str>) -> Option<Seq<char>> {
    match s {
        Some(x) => Some(x@),
        None => None,
    }
}

/// The view of an optional string.
pub open spec fn opt_seq(s: Option<String>) -> Option<Seq<char>> {
    match s {
        Some(x) => Some(x@),
        None => None,
    }
}

/// The window title text: `"*title - app"` with unsaved changes,
/// `"title - app"` without, the bare application name with no title.
pub open spec fn spec_window_title(display_title: Option<Seq<char>>, unsaved: bool, app_name: Seq<char>) -> Seq<char> {
    match display_title {
        Some(t) => if unsaved {
            "*"@ + t + " - "@ + app_name
        } else {
            t + " - "@ + app_name
        },
        None => app_name,
    }
}

/// Builds the window title.
pub fn window_title(display_title: Option<&str>, unsaved: bool, app_name: &str) -> (r: String)
    ensures
        r@ == spec_window_title(match display_title { Some(t) => Some(t@), None => None }, unsaved, app_name@),
{
    match display_title {
        Some(t) => {
            let mut s = if unsaved { String::from_str("*") } else { String::new() };
            s.append(t);
            s.append(" - ");
            s.append(app_name);
            proof {
                reveal_strlit("*");
                reveal_strlit(" - ");
                if unsaved {
                    assert(s@ =~= "*"@ + t@ + " - "@ + app_name@);
                } else {
                    assert(s@ =~= t@ + " - "@ + app_name@);
                }
            }
            s
        },
        None => app_name.to_string(),
    }
}

/// The application theme for a theme mode: light for `Light`, dark for
/// `Dark` and for `System`.
pub fn is_light_theme(mode: crate::config::ThemeMode) -> (r: bool)
    ensures
        r == (mode == crate::config::ThemeMode::Light),
{
    match mode {
        crate::config::ThemeMode::Light => true,
        _ => false,
    }
}

} // verus!

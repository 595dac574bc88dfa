//! How the application answers what the image editor reports.

use vstd::prelude::*;
use crate::models::Notice;
use crate::navigation::NavigationDirection;
use crate::startup::ModelStatus;

verus! {

/// What the editor works on: a file, or a frame captured from a video.
#[derive(Debug, Clone, PartialEq, Eq)]
pub enum ImageSource {
    File(String),
    CapturedFrame { video_path: String },
}

/// What the editor reports after handling user input.
#[derive(Debug, Clone, PartialEq, Eq)]
pub enum EditorEvent {
    Idle,
    ExitEditor,
    NavigateNext,
    NavigatePrevious,
    SaveRequested(String),
    SaveAsRequested,
    DeblurRequested,
    DeblurCancelRequested,
    UpscaleResizeRequested { width: u32, height: u32 },
}

/// What the application does in answer.
#[derive(Debug, Clone, PartialEq, Eq)]
pub enum EditorAction {
    Nothing,
    /// Drop the editor and show the viewer; reload this file in the viewer,
    /// if any, so that saved changes show.
    CloseEditor { reload: Option<String> },
    /// Move to the next or previous image.
    Navigate(NavigationDirection),
    /// Write the edited image to this path.
    Save(String),
    /// Ask where to save the edited image.
    OpenSaveAsDialog,
    /// Run the deblurring model on the working image.
    StartDeblur,
    /// Record that deblurring was cancelled (the editor stops it itself).
    LogDeblurCancelled,
    /// Resize the working image, with AI upscaling or the standard filter.
    Resize { width: u32, height: u32, use_ai: bool },
}

/// The answer to an editor event: leaving reloads the edited file in the
/// viewer (a captured frame has nothing to reload); a resize uses AI
/// upscaling exactly when it is enabled and its model is ready.
pub open spec fn spec_editor_action(e: EditorEvent, source: ImageSource, upscale_enabled: bool, upscale_status: ModelStatus) -> EditorAction {
    match e {
        EditorEvent::Idle => EditorAction::Nothing,
        EditorEvent::ExitEditor => EditorAction::CloseEditor {
            reload: match source {
                ImageSource::File(p) => Some(p),
                ImageSource::CapturedFrame { .. } => None,
            },
        },
        EditorEvent::NavigateNext => EditorAction::Navigate(NavigationDirection::Next),
        EditorEvent::NavigatePrevious => EditorAction::Navigate(NavigationDirection::Previous),
        EditorEvent::SaveRequested(p) => EditorAction::Save(p),
        EditorEvent::SaveAsRequested => EditorAction::OpenSaveAsDialog,
        EditorEvent::DeblurRequested => EditorAction::StartDeblur,
        EditorEvent::DeblurCancelRequested => EditorAction::LogDeblurCancelled,
        EditorEvent::UpscaleResizeRequested { width, height } => EditorAction::Resize {
            width,
            height,
            use_ai: upscale_enabled && upscale_status == ModelStatus::Ready,
        },
    }
}

/// Answers an editor event.
pub fn handle_editor_event(e: EditorEvent, source: ImageSource, upscale_enabled: bool, upscale_status: &ModelStatus) -> (r: EditorAction)
    ensures
        r == spec_editor_action(e, source, upscale_enabled, *upscale_status),
{
    match e {
        EditorEvent::Idle => EditorAction::Nothing,
        EditorEvent::ExitEditor => EditorAction::CloseEditor {
            reload: match source {
                ImageSource::File(p) => Some(p),
                ImageSource::CapturedFrame { .. } => None,
            },
        },
        EditorEvent::NavigateNext => EditorAction::Navigate(NavigationDirection::Next),
        EditorEvent::NavigatePrevious => EditorAction::Navigate(NavigationDirection::Previous),
        EditorEvent::SaveRequested(p) => EditorAction::Save(p),
        EditorEvent::SaveAsRequested => EditorAction::OpenSaveAsDialog,
        EditorEvent::DeblurRequested => EditorAction::StartDeblur,
        EditorEvent::DeblurCancelRequested => EditorAction::LogDeblurCancelled,
        EditorEvent::UpscaleResizeRequested { width, height } => {
            let ready = match upscale_status {
                ModelStatus::Ready => true,
                _ => false,
            };
            EditorAction::Resize { width, height, use_ai: upscale_enabled && ready }
        },
    }
}

/// The notifications after an attempt to save the edited image: on success
/// the success message, followed by the warning when the metadata could
/// not be carried over; on failure the error message.
pub fn save_notices(saved: bool, metadata_warning: Option<&'static str>) -> (r: Vec<Notice>)
    ensures
        saved ==> match metadata_warning {
            Some(w) => r@ == seq![Notice::Success("notification-save-success"), Notice::Warning(w)],
            None => r@ == seq![Notice::Success("notification-save-success")],
        },
        !saved ==> r@ == seq![Notice::Error { key: "notification-save-error", error: None }],
{
    let mut r: Vec<Notice> = Vec::new();
    if saved {
        r.push(Notice::Success("notification-save-success"));
        match metadata_warning {
            Some(w) => r.push(Notice::Warning(w)),
            None => {},
        }
    } else {
        r.push(Notice::Error { key: "notification-save-error", error: None });
    }
    r
}

/// What the metadata panel reports after handling user input.
#[derive(Debug, Clone, PartialEq, Eq)]
pub enum MetadataPanelEvent {
    Idle,
    Close,
    EnterEditModeRequested,
    ExitEditModeRequested,
    SaveRequested(String),
    SaveAsRequested,
}

/// What the application does in answer.
#[derive(Debug, Clone, PartialEq, Eq)]
pub enum MetadataPanelAction {
    Nothing,
    /// Leave edit mode and close the information panel.
    ClosePanel,
    /// Start editing, from the current image metadata when there is some.
    EnterEditMode,
    /// Leave edit mode, dropping the edits.
    ExitEditMode,
    /// Refuse to save: some field is invalid.
    RejectInvalid,
    /// Write the metadata to this file.
    Write(String),
    /// Ask where to save a copy with the edited metadata; the dialog starts
    /// in this directory and proposes this file name, when known.
    OpenSaveAsDialog { directory: Option<String>, file_name: Option<String> },
}

/// The answer to a metadata panel event. Saving, in place or as a copy,
/// requires every edited field to be valid; a panel that is not editing
/// has nothing to check.
pub open spec fn spec_metadata_panel_action(
    e: MetadataPanelEvent,
    editing: bool,
    fields_valid: bool,
    last_save_directory: Option<String>,
    current_file_name: Option<String>,
) -> MetadataPanelAction {
    match e {
        MetadataPanelEvent::Idle => MetadataPanelAction::Nothing,
        MetadataPanelEvent::Close => MetadataPanelAction::ClosePanel,
        MetadataPanelEvent::EnterEditModeRequested => MetadataPanelAction::EnterEditMode,
        MetadataPanelEvent::ExitEditModeRequested => MetadataPanelAction::ExitEditMode,
        MetadataPanelEvent::SaveRequested(p) => if !editing {
            MetadataPanelAction::Nothing
        } else if !fields_valid {
            MetadataPanelAction::RejectInvalid
        } else {
            MetadataPanelAction::Write(p)
        },
        MetadataPanelEvent::SaveAsRequested => if editing && !fields_valid {
            MetadataPanelAction::RejectInvalid
        } else {
            MetadataPanelAction::OpenSaveAsDialog { directory: last_save_directory, file_name: current_file_name }
        },
    }
}

/// Answers a metadata panel event.
pub fn handle_metadata_panel_event(
    e: MetadataPanelEvent,
    editing: bool,
    fields_valid: bool,
    last_save_directory: Option<String>,
    current_file_name: Option<String>,
) -> (r: MetadataPanelAction)
    ensures
        r == spec_metadata_panel_action(e, editing, fields_valid, last_save_directory, current_file_name),
{
    match e {
        MetadataPanelEvent::Idle => MetadataPanelAction::Nothing,
        MetadataPanelEvent::Close => MetadataPanelAction::ClosePanel,
        MetadataPanelEvent::EnterEditModeRequested => MetadataPanelAction::EnterEditMode,
        MetadataPanelEvent::ExitEditModeRequested => MetadataPanelAction::ExitEditMode,
        MetadataPanelEvent::SaveRequested(p) => {
            if !editing {
                MetadataPanelAction::Nothing
            } else if !fields_valid {
                MetadataPanelAction::RejectInvalid
            } else {
                MetadataPanelAction::Write(p)
            }
        },
        MetadataPanelEvent::SaveAsRequested => {
            if editing && !fields_valid {
                MetadataPanelAction::RejectInvalid
            } else {
                MetadataPanelAction::OpenSaveAsDialog { directory: last_save_directory, file_name: current_file_name }
            }
        },
    }
}

/// The notification after writing metadata: success, or the save error.
pub fn metadata_write_notice(written: bool) -> (r: Notice)
    ensures
        written ==> r == Notice::Success("notification-metadata-save-success"),
        !written ==> r == (Notice::Error { key: "notification-metadata-save-error", error: None }),
{
    if written {
        Notice::Success("notification-metadata-save-success")
    } else {
        Notice::Error { key: "notification-metadata-save-error", error: None }
    }
}

/// Invalid metadata is never written: a save of any kind with an invalid
/// field only reports the problem.
pub proof fn lemma_invalid_metadata_is_never_written(
    e: MetadataPanelEvent,
    last_save_directory: Option<String>,
    current_file_name: Option<String>,
)
    ensures
        !(spec_metadata_panel_action(e, true, false, last_save_directory, current_file_name) is Write),
        !(spec_metadata_panel_action(e, true, false, last_save_directory, current_file_name) is OpenSaveAsDialog),
{
}

} // verus!

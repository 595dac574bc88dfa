//! What the application does when a download or a validation of an AI
//! model (deblurring or upscaling) ends, and when the user turns a model off.
//!
//! A model becomes usable only after its file was downloaded and a
//! validation run on it succeeded; a failed validation turns the model off
//! and removes its file.

use vstd::prelude::*;
use crate::startup::ModelStatus;

verus! {

/// The two downloadable AI models.
#[derive(Debug, Clone, Copy, PartialEq, Eq, Structural)]
pub enum AiModel {
    Deblur,
    Upscale,
}

/// A notification for the user: a success message, a warning, or an error
/// message with, where there is one, the error text as its argument.
#[derive(Debug, Clone, PartialEq, Eq)]
pub enum Notice {
    Success(&'static str),
    Warning(&'static str),
    Error { key: &'static str, error: Option<String> },
}

/// What to do after a model event. Fields left `None` or `false` mean no change.
#[derive(Debug, Clone, PartialEq, Eq)]
pub struct ModelOutcome {
    /// The new status of the model.
    pub status: Option<ModelStatus>,
    /// The new value of the model's enable flag (settings and persisted state).
    pub enable: Option<bool>,
    /// Whether to start validating the downloaded model.
    pub start_validation: bool,
    /// Whether to delete the model file.
    pub delete_model_file: bool,
    /// The notification to show.
    pub notice: Option<Notice>,
}

/// The outcome that changes nothing.
pub open spec fn no_change() -> ModelOutcome {
    ModelOutcome { status: None, enable: None, start_validation: false, delete_model_file: false, notice: None }
}

fn nothing() -> (r: ModelOutcome)
    ensures
        r == no_change(),
{
    ModelOutcome { status: None, enable: None, start_validation: false, delete_model_file: false, notice: None }
}

/// The outcome of a finished download.
pub open spec fn spec_download_completed(model: AiModel, shutting_down: bool, result: Result<(), String>) -> ModelOutcome {
    if shutting_down {
        no_change()
    } else {
        match result {
            Ok(()) => ModelOutcome { status: Some(ModelStatus::Validating), start_validation: true, ..no_change() },
            Err(e) => ModelOutcome {
                status: Some(ModelStatus::Error(e)),
                notice: Some(Notice::Error { key: download_error_key_str(model), error: Some(e) }),
                ..no_change()
            },
        }
    }
}

/// The outcome of a finished validation.
pub open spec fn spec_validation_completed(model: AiModel, shutting_down: bool, result: Result<(), String>, is_startup: bool) -> ModelOutcome {
    if shutting_down {
        no_change()
    } else {
        match result {
            Ok(()) => ModelOutcome {
                status: Some(ModelStatus::Ready),
                enable: Some(true),
                notice: if is_startup { None } else { Some(Notice::Success(ready_key_str(model))) },
                ..no_change()
            },
            Err(e) => ModelOutcome {
                status: Some(ModelStatus::Error(e)),
                enable: Some(false),
                delete_model_file: true,
                notice: Some(Notice::Error { key: validation_error_key_str(model), error: Some(e) }),
                ..no_change()
            },
        }
    }
}

/// The download error key of a model, as text.
pub open spec fn download_error_key_str(m: AiModel) -> &'static str {
    match m {
        AiModel::Deblur => "notification-deblur-download-error",
        AiModel::Upscale => "notification-upscale-download-error",
    }
}

/// The ready key of a model, as text.
pub open spec fn ready_key_str(m: AiModel) -> &'static str {
    match m {
        AiModel::Deblur => "notification-deblur-ready",
        AiModel::Upscale => "notification-upscale-ready",
    }
}

/// The validation error key of a model, as text.
pub open spec fn validation_error_key_str(m: AiModel) -> &'static str {
    match m {
        AiModel::Deblur => "notification-deblur-validation-error",
        AiModel::Upscale => "notification-upscale-validation-error",
    }
}

/// After a download ended: nothing while the application shuts down;
/// otherwise on success the model is validated next, and on failure its
/// status records the error and the user is told.
pub fn on_download_completed(model: AiModel, shutting_down: bool, result: Result<(), String>) -> (r: ModelOutcome)
    ensures
        r == spec_download_completed(model, shutting_down, result),
{
    if shutting_down {
        return nothing();
    }
    match result {
        Ok(()) => ModelOutcome {
            status: Some(ModelStatus::Validating),
            enable: None,
            start_validation: true,
            delete_model_file: false,
            notice: None,
        },
        Err(e) => {
            let key = match model {
                AiModel::Deblur => "notification-deblur-download-error",
                AiModel::Upscale => "notification-upscale-download-error",
            };
            ModelOutcome {
                status: Some(ModelStatus::Error(e.clone())),
                enable: None,
                start_validation: false,
                delete_model_file: false,
                notice: Some(Notice::Error { key, error: Some(e) }),
            }
        },
    }
}

/// After a validation ended: nothing while the application shuts down;
/// on success the model is ready and turned on (the user is told, unless
/// the validation ran at startup); on failure the model is turned off, its
/// file deleted, and the user is told.
pub fn on_validation_completed(model: AiModel, shutting_down: bool, result: Result<(), String>, is_startup: bool) -> (r: ModelOutcome)
    ensures
        r == spec_validation_completed(model, shutting_down, result, is_startup),
{
    if shutting_down {
        return nothing();
    }
    match result {
        Ok(()) => {
            let notice = if is_startup {
                None
            } else {
                Some(Notice::Success(match model {
                    AiModel::Deblur => "notification-deblur-ready",
                    AiModel::Upscale => "notification-upscale-ready",
                }))
            };
            ModelOutcome {
                status: Some(ModelStatus::Ready),
                enable: Some(true),
                start_validation: false,
                delete_model_file: false,
                notice,
            }
        },
        Err(e) => {
            let key = match model {
                AiModel::Deblur => "notification-deblur-validation-error",
                AiModel::Upscale => "notification-upscale-validation-error",
            };
            ModelOutcome {
                status: Some(ModelStatus::Error(e.clone())),
                enable: Some(false),
                start_validation: false,
                delete_model_file: true,
                notice: Some(Notice::Error { key, error: Some(e) }),
            }
        },
    }
}

/// When the user turns a model off: the flag is cleared and the model file
/// deleted; the status is left as it is.
pub fn on_model_disabled() -> (r: ModelOutcome)
    ensures
        r == (ModelOutcome { enable: Some(false), delete_model_file: true, ..no_change() }),
{
    ModelOutcome { status: None, enable: Some(false), start_validation: false, delete_model_file: true, notice: None }
}

/// An operation of the image editor that runs an AI model.
#[derive(Debug, Clone, Copy, PartialEq, Eq, Structural)]
pub enum AiOperation {
    Deblur,
    UpscaleResize,
}

/// The notification after an AI operation of the editor ended.
pub open spec fn spec_processing_notice(op: AiOperation, shutting_down: bool, editor_open: bool, result: Result<(), String>) -> Option<Notice> {
    if shutting_down || !editor_open {
        None
    } else {
        match result {
            Ok(()) => Some(Notice::Success(match op {
                AiOperation::Deblur => "notification-deblur-apply-success",
                AiOperation::UpscaleResize => "notification-upscale-resize-success",
            })),
            Err(e) => Some(Notice::Error {
                key: match op {
                    AiOperation::Deblur => "notification-deblur-apply-error",
                    AiOperation::UpscaleResize => "notification-upscale-resize-error",
                },
                error: Some(e),
            }),
        }
    }
}

/// What the user is told when an AI operation of the editor ended: nothing
/// while the application shuts down or once the editor is closed; otherwise
/// the success, or the failure with its error text.
pub fn processing_notice(op: AiOperation, shutting_down: bool, editor_open: bool, result: Result<(), String>) -> (r: Option<Notice>)
    ensures
        r == spec_processing_notice(op, shutting_down, editor_open, result),
{
    if shutting_down || !editor_open {
        return None;
    }
    match result {
        Ok(()) => Some(Notice::Success(match op {
            AiOperation::Deblur => "notification-deblur-apply-success",
            AiOperation::UpscaleResize => "notification-upscale-resize-success",
        })),
        Err(e) => Some(Notice::Error {
            key: match op {
                AiOperation::Deblur => "notification-deblur-apply-error",
                AiOperation::UpscaleResize => "notification-upscale-resize-error",
            },
            error: Some(e),
        }),
    }
}

/// The size in bytes of an RGBA image of the given dimensions, as recorded
/// with AI operations.
pub fn rgba_size_bytes(width: u32, height: u32) -> (r: u64)
    requires
        width * height * 4 <= u64::MAX,
    ensures
        r == width * height * 4,
{
    (width as u64) * (height as u64) * 4
}

/// A model is turned on only by a validation that succeeded outside
/// shutdown; a finished download never turns it on, and whatever turns a
/// model off also deletes its file.
pub proof fn lemma_enabled_only_after_validation(
    model: AiModel,
    shutting_down: bool,
    result: Result<(), String>,
    is_startup: bool,
)
    ensures
        spec_download_completed(model, shutting_down, result).enable is None,
        spec_validation_completed(model, shutting_down, result, is_startup).enable == Some(true)
            <==> (!shutting_down && result is Ok),
        spec_validation_completed(model, shutting_down, result, is_startup).enable == Some(false)
            ==> spec_validation_completed(model, shutting_down, result, is_startup).delete_model_file,
{
}

} // verus!

//! The sequence of messages that a model download produces.
//!
//! A download reports progress values over a channel and, once that channel
//! closes, a final result. The messages shown to the application follow the
//! phases below: progress is forwarded while it arrives, a full-progress
//! message marks the closing of the channel, then exactly one completion
//! message carries the result, and the sequence ends.

use vstd::prelude::*;

verus! {

/// Where the message sequence of a download stands.
#[derive(Debug, Clone, Copy, PartialEq, Eq, Structural)]
pub enum DownloadPhase {
    /// Progress values are being received.
    ReceivingProgress,
    /// The progress channel closed; waiting for the result.
    WaitingForResult,
    /// The result was reported; the sequence is over.
    Completed,
}

/// What the download task delivered to the phase that waits for it.
#[derive(Debug, Clone, PartialEq)]
pub enum DownloadEvent<P> {
    /// A progress value arrived.
    Progress(P),
    /// The progress channel closed.
    ProgressClosed,
    /// The download finished successfully.
    Finished,
    /// The download failed with this message.
    Failed(String),
    /// The download task was dropped before it reported a result.
    Cancelled,
}

/// A message for the application.
#[derive(Debug, PartialEq)]
pub enum DownloadMessage<P> {
    /// Forward this progress value.
    Progress(P),
    /// Show the download as complete (100%).
    ProgressFull,
    /// The download finished: `Ok` or the error text.
    Completed(Result<(), String>),
}

/// Whether an event is one that the phase waits for: progress or the closing
/// of the channel while receiving, a result while waiting, nothing after
/// completion.
pub open spec fn event_expected<P>(phase: DownloadPhase, event: DownloadEvent<P>) -> bool {
    match phase {
        DownloadPhase::ReceivingProgress => event is Progress || event is ProgressClosed,
        DownloadPhase::WaitingForResult => event is Finished || event is Failed || event is Cancelled,
        DownloadPhase::Completed => false,
    }
}

/// Advances the message sequence on an event. Returns the next phase and the
/// message to emit; `None` ends the sequence (after completion, or on an
/// event the phase does not wait for).
pub fn download_step<P>(phase: DownloadPhase, event: DownloadEvent<P>) -> (r: Option<(DownloadPhase, DownloadMessage<P>)>)
    ensures
        !event_expected(phase, event) ==> r is None,
        event_expected(phase, event) ==> r is Some,
        phase == DownloadPhase::ReceivingProgress ==> match event {
            DownloadEvent::Progress(p) => r == Some((DownloadPhase::ReceivingProgress, DownloadMessage::Progress(p))),
            DownloadEvent::ProgressClosed => r == Some((DownloadPhase::WaitingForResult, DownloadMessage::<P>::ProgressFull)),
            _ => r is None,
        },
        phase == DownloadPhase::WaitingForResult ==> match event {
            DownloadEvent::Finished => r == Some((DownloadPhase::Completed, DownloadMessage::<P>::Completed(Ok(())))),
            DownloadEvent::Failed(e) => r == Some((DownloadPhase::Completed, DownloadMessage::<P>::Completed(Err(e)))),
            DownloadEvent::Cancelled => (r matches Some((ph, DownloadMessage::Completed(Err(e))))
                && ph == DownloadPhase::Completed && e@ == "Download task cancelled"@),
            _ => r is None,
        },
{
    match phase {
        DownloadPhase::ReceivingProgress => match event {
            DownloadEvent::Progress(p) => Some((DownloadPhase::ReceivingProgress, DownloadMessage::Progress(p))),
            DownloadEvent::ProgressClosed => Some((DownloadPhase::WaitingForResult, DownloadMessage::ProgressFull)),
            _ => None,
        },
        DownloadPhase::WaitingForResult => match event {
            DownloadEvent::Finished => Some((DownloadPhase::Completed, DownloadMessage::Completed(Ok(())))),
            DownloadEvent::Failed(e) => Some((DownloadPhase::Completed, DownloadMessage::Completed(Err(e)))),
            DownloadEvent::Cancelled => Some((
                DownloadPhase::Completed,
                DownloadMessage::Completed(Err("Download task cancelled".to_string())),
            )),
            _ => None,
        },
        DownloadPhase::Completed => None,
    }
}

/// The phase after a step, when the step emits a message.
pub open spec fn spec_next_phase<P>(phase: DownloadPhase, event: DownloadEvent<P>) -> DownloadPhase {
    match phase {
        DownloadPhase::ReceivingProgress => match event {
            DownloadEvent::ProgressClosed => DownloadPhase::WaitingForResult,
            _ => DownloadPhase::ReceivingProgress,
        },
        _ => DownloadPhase::Completed,
    }
}

/// The phases only move forward: receiving, then waiting, then completed;
/// a completion message is emitted exactly by the step that enters the
/// completed phase, so each download reports its result once.
pub proof fn lemma_phases_move_forward<P>(phase: DownloadPhase, event: DownloadEvent<P>)
    requires
        event_expected(phase, event),
    ensures
        phase == DownloadPhase::ReceivingProgress ==> spec_next_phase(phase, event) != DownloadPhase::Completed,
        phase == DownloadPhase::WaitingForResult ==> spec_next_phase(phase, event) == DownloadPhase::Completed,
        phase != DownloadPhase::Completed,
{
}

} // verus!

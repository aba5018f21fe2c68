//! Playback: replaying a recorded workflow for each data row.
use vstd::prelude::*;
use crate::cdp;
use crate::cdp::CdpError;
use crate::text;
use crate::workflow::PlaybackSpeed;

pub mod engine;
pub mod execute;
pub mod laws;
pub mod progress;
pub mod resolve;
pub mod subscriptions;

pub use engine::{PlaybackEngine, PlaybackResult};
pub use subscriptions::Subscriptions;

verus! {

/// Errors that can occur during playback.
#[derive(Debug, PartialEq)]
pub enum PlaybackError {
    /// Element matching the selector was not found within the timeout.
    ElementNotFound(String),
    /// A CDP command failed.
    Cdp(CdpError),
    /// Navigation did not complete within the timeout.
    NavigationTimeout,
    /// User explicitly stopped playback.
    Stopped,
    /// Other playback error.
    Other(String),
}

/// The message of a playback error.
pub open spec fn error_text(error: PlaybackError) -> Seq<char> {
    match error {
        PlaybackError::ElementNotFound(what) => "element not found: "@ + what@,
        PlaybackError::Cdp(why) => "CDP error: "@ + cdp::error_text(why),
        PlaybackError::NavigationTimeout => "navigation timeout"@,
        PlaybackError::Stopped => "playback stopped by user"@,
        PlaybackError::Other(why) => "playback error: "@ + why@,
    }
}

impl PlaybackError {
    /// The message shown to the user.
    pub fn message(&self) -> (message: String)
        ensures
            message@ == error_text(*self),
    {
        match self {
            PlaybackError::ElementNotFound(what) => text::joined("element not found: ", what),
            PlaybackError::Cdp(why) => text::joined("CDP error: ", &why.message()),
            PlaybackError::NavigationTimeout => "navigation timeout".to_owned(),
            PlaybackError::Stopped => "playback stopped by user".to_owned(),
            PlaybackError::Other(why) => text::joined("playback error: ", why),
        }
    }
}

/// The slowest speed multiplier, in thousandths.
pub const MIN_MULTIPLIER: u32 = 250;

/// The fastest speed multiplier, in thousandths.
pub const MAX_MULTIPLIER: u32 = 4000;

/// A speed multiplier, in thousandths, brought into the allowed range.
pub open spec fn clamped(thousandths: u32) -> u32 {
    if thousandths < MIN_MULTIPLIER {
        MIN_MULTIPLIER
    } else if thousandths > MAX_MULTIPLIER {
        MAX_MULTIPLIER
    } else {
        thousandths
    }
}

/// Brings a speed multiplier, in thousandths, into the allowed range.
pub fn clamp_multiplier(thousandths: u32) -> (multiplier: u32)
    ensures
        multiplier == clamped(thousandths),
        MIN_MULTIPLIER <= multiplier <= MAX_MULTIPLIER,
{
    if thousandths < MIN_MULTIPLIER {
        MIN_MULTIPLIER
    } else if thousandths > MAX_MULTIPLIER {
        MAX_MULTIPLIER
    } else {
        thousandths
    }
}

/// How long playback waits for the page.
#[derive(Debug, Clone, Copy, PartialEq, Eq, Structural)]
pub struct PlaybackConfig {
    /// How long to look for an element, in milliseconds.
    pub element_timeout_millis: u64,
    /// How long to wait for a navigation, in milliseconds.
    pub navigation_timeout_millis: u64,
}

impl Default for PlaybackConfig {
    fn default() -> (config: Self)
        ensures
            config.element_timeout_millis == 10_000,
            config.navigation_timeout_millis == 30_000,
    {
        PlaybackConfig { element_timeout_millis: 10_000, navigation_timeout_millis: 30_000 }
    }
}

/// Control signals sent from the TUI or CLI into the playback engine.
#[derive(Debug, Clone, Copy, PartialEq, Eq, Structural)]
pub enum PlaybackControl {
    /// Proceed past a confirmation gate.
    Proceed,
    /// Change playback speed.
    SetSpeed(PlaybackSpeed),
    /// Change the speed multiplier, in thousandths: 2000 is twice as fast.
    SetSpeedMultiplier(u32),
    /// Pause playback: drop to the most granular speed.
    Pause,
    /// Respond to a step error.
    ErrorResponse(ErrorAction),
}

/// What to do when a step fails during playback.
#[derive(Debug, Clone, Copy, PartialEq, Eq, Structural)]
pub enum ErrorAction {
    /// Skip the current row and continue with the next.
    SkipRow,
    /// Retry the current row from its first step.
    RetryRow,
    /// Stop playback entirely.
    Stop,
}

/// Progress events emitted by the playback engine to the TUI or CLI.
#[derive(Debug, PartialEq)]
pub enum PlaybackEvent {
    /// Starting a new row.
    RowStarted {
        /// Zero-based index of the row being started.
        row_index: usize,
    },
    /// A step is about to execute.
    StepStarted {
        /// Zero-based row index.
        row_index: usize,
        /// Zero-based step index within the workflow.
        step_index: usize,
    },
    /// A step completed successfully (or was skipped by an empty-cell rule).
    StepCompleted {
        /// Zero-based row index.
        row_index: usize,
        /// Zero-based step index within the workflow.
        step_index: usize,
    },
    /// A row completed successfully.
    RowCompleted {
        /// Zero-based index of the completed row.
        row_index: usize,
    },
    /// Playback speed changed.
    SpeedChanged(PlaybackSpeed),
    /// The speed multiplier changed, in thousandths.
    SpeedMultiplierChanged(u32),
    /// Engine is paused at a confirmation gate, waiting for [`PlaybackControl::Proceed`].
    WaitingForConfirmation,
    /// A step failed.
    StepFailed {
        /// Zero-based row index.
        row_index: usize,
        /// Zero-based step index within the workflow.
        step_index: usize,
        /// Human-readable error description.
        error: String,
    },
    /// All rows processed; playback is finished.
    Finished {
        /// Number of rows that completed all steps successfully.
        rows_completed: usize,
        /// Number of rows that were skipped due to errors.
        rows_skipped: usize,
    },
}

/// The contents of a [`PlaybackEvent`].
#[verifier::ext_equal]
pub enum PlaybackEventView {
    RowStarted { row_index: nat },
    StepStarted { row_index: nat, step_index: nat },
    StepCompleted { row_index: nat, step_index: nat },
    RowCompleted { row_index: nat },
    SpeedChanged(PlaybackSpeed),
    SpeedMultiplierChanged(u32),
    WaitingForConfirmation,
    StepFailed { row_index: nat, step_index: nat, error: Seq<char> },
    Finished { rows_completed: nat, rows_skipped: nat },
}

impl View for PlaybackEvent {
    type V = PlaybackEventView;

    open spec fn view(&self) -> PlaybackEventView {
        match *self {
            PlaybackEvent::RowStarted { row_index } => PlaybackEventView::RowStarted {
                row_index: row_index as nat,
            },
            PlaybackEvent::StepStarted { row_index, step_index } =>
                PlaybackEventView::StepStarted {
                row_index: row_index as nat,
                step_index: step_index as nat,
            },
            PlaybackEvent::StepCompleted { row_index, step_index } =>
                PlaybackEventView::StepCompleted {
                row_index: row_index as nat,
                step_index: step_index as nat,
            },
            PlaybackEvent::RowCompleted { row_index } => PlaybackEventView::RowCompleted {
                row_index: row_index as nat,
            },
            PlaybackEvent::SpeedChanged(speed) => PlaybackEventView::SpeedChanged(speed),
            PlaybackEvent::SpeedMultiplierChanged(thousandths) =>
                PlaybackEventView::SpeedMultiplierChanged(thousandths),
            PlaybackEvent::WaitingForConfirmation => PlaybackEventView::WaitingForConfirmation,
            PlaybackEvent::StepFailed { row_index, step_index, error } =>
                PlaybackEventView::StepFailed {
                row_index: row_index as nat,
                step_index: step_index as nat,
                error: error@,
            },
            PlaybackEvent::Finished { rows_completed, rows_skipped } =>
                PlaybackEventView::Finished {
                rows_completed: rows_completed as nat,
                rows_skipped: rows_skipped as nat,
            },
        }
    }
}

impl DeepView for PlaybackEvent {
    type V = PlaybackEventView;

    open spec fn deep_view(&self) -> PlaybackEventView {
        self@
    }
}

} // verus!

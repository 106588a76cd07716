//! How a stage's exit is judged, and the failure taxonomy of a session.
//!
//! The capture stage is asked to stop with the conventional interrupt signal,
//! and different host process models report a child stopped that way
//! differently: an explicit signal field, the conventional 128+N exit code, or
//! a raw 255. The acceptance rule is the decision table `capture_exit_accepted`.

use vstd::prelude::*;
use vstd::string::StringExecFns;
use crate::textfmt::{int_str, i32_to_string};

verus! {

/// The conventional interrupt signal number used to stop the capture stage.
pub const GRACEFUL_STOP_SIGNAL: i32 = 2;

/// The conventional exit code of a process ended by that signal: 128 plus the
/// signal number.
pub const GRACEFUL_STOP_EXIT_CODE: i32 = 130;

/// The raw exit code some hosts report for a signal-stopped child.
pub const RAW_SIGNAL_EXIT_CODE: i32 = 255;

/// How an external stage ended: with an exit code, by a signal, or in a way
/// the host reports neither for.
#[derive(Clone, Copy, PartialEq, Eq, Structural, Debug)]
pub enum StageExit {
    /// The stage exited on its own with this code.
    Code(i32),
    /// The stage was ended by this signal and reported no code.
    Signal(i32),
    /// No exit code or signal could be determined.
    Unknown,
}

/// Why a session failed: the taxonomy of terminal errors.
#[derive(Clone, Copy, PartialEq, Eq, Structural, Debug)]
pub enum Failure {
    /// A stage process could not be started.
    LaunchError,
    /// The capture stage ended abnormally, with this code if one was known.
    CaptureError(Option<i32>),
    /// The transcription stage exited non-zero.
    TranscriptionError,
    /// The transcription stage's output was not valid text.
    EncodingError,
    /// The transcript could not be handed to the delivery stage.
    DeliveryWriteError,
    /// The delivery stage exited non-zero.
    DeliveryError,
}

/// The specific, stage-attributed message a failure is reported with; the
/// capture stage's raw exit code is included when it is known.
pub open spec fn failure_message(f: Failure) -> Seq<char> {
    match f {
        Failure::LaunchError => "Failed to start a stage process."@,
        Failure::CaptureError(Some(code)) => "Failed to record audio. Exit code: "@ + int_str(
            code as int,
        ),
        Failure::CaptureError(None) => "Recording ended without an exit code."@,
        Failure::TranscriptionError => "Whisper transcription failed."@,
        Failure::EncodingError => "Transcription output was not valid text."@,
        Failure::DeliveryWriteError => "Failed to write the transcription to the clipboard."@,
        Failure::DeliveryError => "Failed to copy transcription to clipboard."@,
    }
}

impl Failure {
    /// The message this failure is reported with.
    pub fn message(&self) -> (s: String)
        ensures
            s@ == failure_message(*self),
    {
        match self {
            Failure::LaunchError => String::from_str("Failed to start a stage process."),
            Failure::CaptureError(Some(code)) => String::from_str(
                "Failed to record audio. Exit code: ",
            ).concat(i32_to_string(*code).as_str()),
            Failure::CaptureError(None) => String::from_str(
                "Recording ended without an exit code.",
            ),
            Failure::TranscriptionError => String::from_str("Whisper transcription failed."),
            Failure::EncodingError => String::from_str("Transcription output was not valid text."),
            Failure::DeliveryWriteError => String::from_str(
                "Failed to write the transcription to the clipboard.",
            ),
            Failure::DeliveryError => String::from_str("Failed to copy transcription to clipboard."),
        }
    }
}

/// The decision table for the capture stage's exit: accepted when the stage
/// was ended by the graceful stop signal itself, exited with the conventional
/// 128+N code for that signal, exited with the raw 255 some hosts report, or
/// exited cleanly with zero.
pub open spec fn capture_exit_accepted(exit: StageExit) -> bool {
    match exit {
        StageExit::Code(code) => code == 0 || code == GRACEFUL_STOP_EXIT_CODE || code
            == RAW_SIGNAL_EXIT_CODE,
        StageExit::Signal(signal) => signal == GRACEFUL_STOP_SIGNAL,
        StageExit::Unknown => false,
    }
}

/// The failure a rejected capture exit maps to: the exit code when one was
/// known, otherwise an unknown abnormal end.
pub open spec fn capture_failure(exit: StageExit) -> Failure {
    match exit {
        StageExit::Code(code) => Failure::CaptureError(Some(code)),
        StageExit::Signal(_) => Failure::CaptureError(None),
        StageExit::Unknown => Failure::CaptureError(None),
    }
}

/// Judges the capture stage's exit by the decision table.
pub fn judge_capture_exit(exit: StageExit) -> (verdict: Result<(), Failure>)
    ensures
        verdict is Ok <==> capture_exit_accepted(exit),
        verdict matches Err(f) ==> f == capture_failure(exit),
{
    match exit {
        StageExit::Code(code) => {
            if code == 0 || code == GRACEFUL_STOP_EXIT_CODE || code == RAW_SIGNAL_EXIT_CODE {
                Ok(())
            } else {
                Err(Failure::CaptureError(Some(code)))
            }
        },
        StageExit::Signal(signal) => {
            if signal == GRACEFUL_STOP_SIGNAL {
                Ok(())
            } else {
                Err(Failure::CaptureError(None))
            }
        },
        StageExit::Unknown => Err(Failure::CaptureError(None)),
    }
}

/// True when a stage's exit status is a clean zero exit.
pub open spec fn clean_exit(exit: StageExit) -> bool {
    exit matches StageExit::Code(code) && code == 0
}

/// Tests whether a stage exited cleanly with code zero.
pub fn is_clean_exit(exit: StageExit) -> (r: bool)
    ensures
        r == clean_exit(exit),
{
    match exit {
        StageExit::Code(code) => code == 0,
        _ => false,
    }
}

} // verus!

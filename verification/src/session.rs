//! The session state machine: the core of the orchestrator.
//!
//! A session moves through a strict linear order of states, with a shared
//! `Failed` terminal state reachable from every non-terminal one. The driver
//! feeds it one event at a time — what an external stage did — and performs
//! the action the step hands back. The machine decides every transition; the
//! driver only launches processes, waits, signals and reports.

use vstd::prelude::*;
use vstd::utf8::valid_utf8;
use crate::config::Config;
use crate::exit::{
    StageExit, Failure, capture_exit_accepted, capture_failure, judge_capture_exit, clean_exit,
    is_clean_exit,
};
use crate::invocation::{
    audio_artifact_name, audio_artifact_path, capture_args, is_capture_invocation,
    is_transcription_invocation, transcription_args,
};

verus! {

/// Where a session stands: the strict linear order of stages, with the two
/// terminal outcomes.
#[derive(Clone, Copy, PartialEq, Eq, Structural, Debug)]
pub enum State {
    /// Nothing launched yet.
    Idle,
    /// The capture stage is running.
    Recording,
    /// The capture stage was asked to stop; its exit is awaited.
    Stopping,
    /// The transcription stage is running.
    Transcribing,
    /// The delivery stage is running.
    Delivering,
    /// Every stage was validated successfully.
    Completed,
    /// A stage failed; the session ended with this reason.
    Failed(Failure),
}

/// What the driver observed of the external stages: exactly one event is
/// handed to the machine per step.
pub enum Event {
    /// The capture stage was launched.
    CaptureStarted,
    /// The capture stage could not be launched.
    CaptureLaunchFailed,
    /// The single user cancellation event arrived while capture ran.
    StopRequested,
    /// The capture stage exited, with this status.
    CaptureExited(StageExit),
    /// The transcription stage could not be launched.
    TranscriptionLaunchFailed,
    /// The transcription stage exited with this status, having produced these
    /// bytes on its standard output.
    TranscriptionExited(StageExit, Vec<u8>),
    /// The delivery stage could not be launched.
    DeliveryLaunchFailed,
    /// The transcript could not be written to the delivery stage's input.
    DeliveryWriteFailed,
    /// The delivery stage exited, with this status.
    DeliveryExited(StageExit),
}

/// What the driver must do after a step.
pub enum Action {
    /// Block until the single user cancellation event.
    AwaitStop,
    /// Send the graceful stop signal to the capture stage, then await its exit.
    SignalCapture,
    /// Launch the transcription stage with these arguments and capture its
    /// standard output in full.
    StartTranscription(Vec<String>),
    /// Launch the delivery stage, write exactly these bytes to its standard
    /// input, close that input, then await its exit.
    StartDelivery(Vec<u8>),
    /// The session completed; report success.
    ReportSuccess,
    /// The session ended with this failure; report it.
    Fail(Failure),
}

/// Which events can arrive in which states: the driver never reports a
/// delivery exit while recording, and terminal states receive nothing.
pub open spec fn event_fits(pre: State, event: Event) -> bool {
    match (pre, event) {
        (State::Idle, Event::CaptureStarted) => true,
        (State::Idle, Event::CaptureLaunchFailed) => true,
        (State::Recording, Event::StopRequested) => true,
        (State::Recording, Event::CaptureExited(_)) => true,
        (State::Stopping, Event::CaptureExited(_)) => true,
        (State::Transcribing, Event::TranscriptionLaunchFailed) => true,
        (State::Transcribing, Event::TranscriptionExited(_, _)) => true,
        (State::Delivering, Event::DeliveryLaunchFailed) => true,
        (State::Delivering, Event::DeliveryWriteFailed) => true,
        (State::Delivering, Event::DeliveryExited(_)) => true,
        _ => false,
    }
}

/// The state a step moves to: the whole transition relation. A capture exit
/// is judged by the decision table whether or not a stop was requested first;
/// a transcription exit must be clean and its output valid text; a delivery
/// exit must be clean.
pub open spec fn post_state(pre: State, event: Event) -> State {
    match (pre, event) {
        (State::Idle, Event::CaptureStarted) => State::Recording,
        (State::Idle, Event::CaptureLaunchFailed) => State::Failed(Failure::LaunchError),
        (State::Recording, Event::StopRequested) => State::Stopping,
        (State::Recording, Event::CaptureExited(exit)) => capture_post_state(exit),
        (State::Stopping, Event::CaptureExited(exit)) => capture_post_state(exit),
        (State::Transcribing, Event::TranscriptionLaunchFailed) => State::Failed(
            Failure::LaunchError,
        ),
        (State::Transcribing, Event::TranscriptionExited(exit, out)) => {
            if !clean_exit(exit) {
                State::Failed(Failure::TranscriptionError)
            } else if valid_utf8(out@) {
                State::Delivering
            } else {
                State::Failed(Failure::EncodingError)
            }
        },
        (State::Delivering, Event::DeliveryLaunchFailed) => State::Failed(Failure::LaunchError),
        (State::Delivering, Event::DeliveryWriteFailed) => State::Failed(
            Failure::DeliveryWriteError,
        ),
        (State::Delivering, Event::DeliveryExited(exit)) => {
            if clean_exit(exit) {
                State::Completed
            } else {
                State::Failed(Failure::DeliveryError)
            }
        },
        _ => pre,
    }
}

/// Where a capture exit leads: to transcription when the decision table
/// accepts it, to the matching failure otherwise.
pub open spec fn capture_post_state(exit: StageExit) -> State {
    if capture_exit_accepted(exit) {
        State::Transcribing
    } else {
        State::Failed(capture_failure(exit))
    }
}

/// The action owed after a capture exit: launch transcription on the session's
/// audio artifact when the exit is accepted, report the failure otherwise.
pub open spec fn capture_action_ok(exit: StageExit, action: Action, audio: Seq<char>) -> bool {
    if capture_exit_accepted(exit) {
        action matches Action::StartTranscription(args) && is_transcription_invocation(
            args@,
            audio,
        )
    } else {
        action == Action::Fail(capture_failure(exit))
    }
}

/// The action a step must hand back, given the state it started from and the
/// event: what the driver does next is pinned as exactly as the state is.
pub open spec fn action_ok(pre: State, event: Event, action: Action, audio: Seq<char>) -> bool {
    match (pre, event) {
        (State::Idle, Event::CaptureStarted) => action is AwaitStop,
        (State::Idle, Event::CaptureLaunchFailed) => action == Action::Fail(Failure::LaunchError),
        (State::Recording, Event::StopRequested) => action is SignalCapture,
        (State::Recording, Event::CaptureExited(exit)) => capture_action_ok(exit, action, audio),
        (State::Stopping, Event::CaptureExited(exit)) => capture_action_ok(exit, action, audio),
        (State::Transcribing, Event::TranscriptionLaunchFailed) => action == Action::Fail(
            Failure::LaunchError,
        ),
        (State::Transcribing, Event::TranscriptionExited(exit, out)) => {
            if !clean_exit(exit) {
                action == Action::Fail(Failure::TranscriptionError)
            } else if valid_utf8(out@) {
                action matches Action::StartDelivery(t) && t@ == out@
            } else {
                action == Action::Fail(Failure::EncodingError)
            }
        },
        (State::Delivering, Event::DeliveryLaunchFailed) => action == Action::Fail(
            Failure::LaunchError,
        ),
        (State::Delivering, Event::DeliveryWriteFailed) => action == Action::Fail(
            Failure::DeliveryWriteError,
        ),
        (State::Delivering, Event::DeliveryExited(exit)) => {
            if clean_exit(exit) {
                action is ReportSuccess
            } else {
                action == Action::Fail(Failure::DeliveryError)
            }
        },
        _ => true,
    }
}

/// Relies on core::str::from_utf8: it returns `Ok` exactly when the bytes are
/// a valid UTF-8 encoding.
#[verifier::external_body]
fn utf8_valid(bytes: &[u8]) -> (r: bool)
    ensures
        r == valid_utf8(bytes@),
{
    core::str::from_utf8(bytes).is_ok()
}

/// One run of the pipeline: its resolved configuration, the path of the audio
/// artifact it records to, and where it stands.
pub struct Session {
    /// The configuration the session was started with.
    pub config: Config,
    /// The path of the audio artifact, named after the start timestamp.
    pub audio_path: String,
    /// Where the session stands.
    pub state: State,
}

impl Session {
    /// The configuration's validity carries over the whole session.
    pub open spec fn well_formed(self) -> bool {
        self.config.well_formed()
    }

    /// Creates an idle session for a configuration and a start timestamp; the
    /// audio artifact is named `output_<timestamp>.wav`.
    pub fn new(config: Config, start_timestamp: u64) -> (s: Session)
        requires
            config.well_formed(),
        ensures
            s.well_formed(),
            s.config == config,
            s.audio_path@ == audio_artifact_name(start_timestamp as nat),
            s.state == State::Idle,
    {
        Session { audio_path: audio_artifact_path(start_timestamp), config, state: State::Idle }
    }

    /// The capture stage's argument list for this session: exactly the merged
    /// configuration's device, gain and duration, recording to the session's
    /// audio artifact.
    pub fn capture_invocation(&self) -> (args: Vec<String>)
        ensures
            is_capture_invocation(args@, self.config, self.audio_path@),
    {
        capture_args(&self.config, self.audio_path.as_str())
    }

    /// Feeds one observed event to the machine; the session moves to exactly
    /// `post_state` and the returned action is pinned by `action_ok`. The
    /// configuration and the artifact path never change.
    pub fn step(&mut self, event: Event) -> (action: Action)
        requires
            event_fits(old(self).state, event),
        ensures
            final (self).config == old(self).config,
            final (self).audio_path == old(self).audio_path,
            final (self).state == post_state(old(self).state, event),
            action_ok(old(self).state, event, action, old(self).audio_path@),
    {
        let pre = self.state;
        match (pre, event) {
            (State::Idle, Event::CaptureStarted) => {
                self.state = State::Recording;
                Action::AwaitStop
            },
            (State::Idle, Event::CaptureLaunchFailed) => {
                self.state = State::Failed(Failure::LaunchError);
                Action::Fail(Failure::LaunchError)
            },
            (State::Recording, Event::StopRequested) => {
                self.state = State::Stopping;
                Action::SignalCapture
            },
            (State::Recording, Event::CaptureExited(exit)) => self.capture_exited(exit),
            (State::Stopping, Event::CaptureExited(exit)) => self.capture_exited(exit),
            (State::Transcribing, Event::TranscriptionLaunchFailed) => {
                self.state = State::Failed(Failure::LaunchError);
                Action::Fail(Failure::LaunchError)
            },
            (State::Transcribing, Event::TranscriptionExited(exit, out)) => {
                if !is_clean_exit(exit) {
                    self.state = State::Failed(Failure::TranscriptionError);
                    Action::Fail(Failure::TranscriptionError)
                } else if utf8_valid(out.as_slice()) {
                    self.state = State::Delivering;
                    Action::StartDelivery(out)
                } else {
                    self.state = State::Failed(Failure::EncodingError);
                    Action::Fail(Failure::EncodingError)
                }
            },
            (State::Delivering, Event::DeliveryLaunchFailed) => {
                self.state = State::Failed(Failure::LaunchError);
                Action::Fail(Failure::LaunchError)
            },
            (State::Delivering, Event::DeliveryWriteFailed) => {
                self.state = State::Failed(Failure::DeliveryWriteError);
                Action::Fail(Failure::DeliveryWriteError)
            },
            (State::Delivering, Event::DeliveryExited(exit)) => {
                if is_clean_exit(exit) {
                    self.state = State::Completed;
                    Action::ReportSuccess
                } else {
                    self.state = State::Failed(Failure::DeliveryError);
                    Action::Fail(Failure::DeliveryError)
                }
            },
            _ => {
                proof {
                    assert(false);
                }
                vstd::pervasive::unreached()
            },
        }
    }

    /// Handles a capture exit, whether it followed the stop request or the
    /// stage self-terminated at its maximum duration: both are judged by the
    /// same decision table.
    fn capture_exited(&mut self, exit: StageExit) -> (action: Action)
        requires
            old(self).state == State::Recording || old(self).state == State::Stopping,
        ensures
            final (self).config == old(self).config,
            final (self).audio_path == old(self).audio_path,
            final (self).state == capture_post_state(exit),
            capture_action_ok(exit, action, old(self).audio_path@),
    {
        match judge_capture_exit(exit) {
            Ok(()) => {
                self.state = State::Transcribing;
                Action::StartTranscription(transcription_args(self.audio_path.as_str()))
            },
            Err(failure) => {
                self.state = State::Failed(failure);
                Action::Fail(failure)
            },
        }
    }
}

} // verus!

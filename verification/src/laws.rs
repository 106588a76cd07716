//! The laws the orchestrator obeys, each proved from the public contracts.

use vstd::prelude::*;
use vstd::utf8::valid_utf8;
use crate::config::{
    Config, ConfigOverrides, merged_device, resolve, DEFAULT_DURATION, DEFAULT_VOLUME_CENTIS,
};
use crate::exit::{StageExit, Failure, GRACEFUL_STOP_EXIT_CODE, RAW_SIGNAL_EXIT_CODE};
use crate::invocation::{is_capture_invocation, volume_filter};
use crate::session::{State, Event, Action, post_state, action_ok};
use crate::textfmt::dec_str;

verus! {

/// For every configured device, duration and gain, the capture stage's
/// invocation carries exactly the merged values: the device the two sources
/// settle on, the gain filter for the resolved multiplier, and the resolved
/// duration — the command line first, then the file, then the defaults.
pub proof fn lemma_capture_invocation_matches_merge(
    cli: ConfigOverrides,
    file: ConfigOverrides,
    c: Config,
    args: Seq<String>,
    output: Seq<char>,
)
    requires
        c.device@ == merged_device(cli.device, file.device),
        c.duration == resolve(cli.duration, file.duration, DEFAULT_DURATION),
        c.volume_centis == resolve(cli.volume_centis, file.volume_centis, DEFAULT_VOLUME_CENTIS),
        is_capture_invocation(args, c, output),
    ensures
        args[4]@ == merged_device(cli.device, file.device),
        args[6]@ == volume_filter(
            resolve(cli.volume_centis, file.volume_centis, DEFAULT_VOLUME_CENTIS) as nat,
        ),
        args[8]@ == dec_str(resolve(cli.duration, file.duration, DEFAULT_DURATION) as nat),
{
}

/// A capture stage that exits with the conventional 128+N code or the raw 255
/// after the stop signal moves the session on to transcription, not to
/// failure.
pub proof fn lemma_stop_codes_proceed_to_transcription(code: i32)
    requires
        code == GRACEFUL_STOP_EXIT_CODE || code == RAW_SIGNAL_EXIT_CODE,
    ensures
        post_state(State::Stopping, Event::CaptureExited(StageExit::Code(code)))
            == State::Transcribing,
{
}

/// A capture stage that exits with any other non-zero code after the stop
/// signal ends the session in a capture failure carrying that code, and the
/// transcription stage is never invoked.
pub proof fn lemma_abnormal_capture_exit_fails(code: i32, action: Action, audio: Seq<char>)
    requires
        code != 0,
        code != GRACEFUL_STOP_EXIT_CODE,
        code != RAW_SIGNAL_EXIT_CODE,
        action_ok(State::Stopping, Event::CaptureExited(StageExit::Code(code)), action, audio),
    ensures
        post_state(State::Stopping, Event::CaptureExited(StageExit::Code(code))) == State::Failed(
            Failure::CaptureError(Some(code)),
        ),
        action == Action::Fail(Failure::CaptureError(Some(code))),
        !(action is StartTranscription),
{
}

/// A transcription stage that does not exit cleanly ends the session in a
/// transcription failure, and the delivery stage is never invoked.
pub proof fn lemma_transcription_failure_stops_session(
    exit: StageExit,
    out: Vec<u8>,
    action: Action,
    audio: Seq<char>,
)
    requires
        !(exit matches StageExit::Code(code) && code == 0),
        action_ok(State::Transcribing, Event::TranscriptionExited(exit, out), action, audio),
    ensures
        post_state(State::Transcribing, Event::TranscriptionExited(exit, out)) == State::Failed(
            Failure::TranscriptionError,
        ),
        action == Action::Fail(Failure::TranscriptionError),
        !(action is StartDelivery),
{
}

/// After successful capture and transcription, the exact byte sequence the
/// transcription stage produced is the exact byte sequence handed to the
/// delivery stage's input, with no alteration.
pub proof fn lemma_transcript_delivered_unaltered(out: Vec<u8>, action: Action, audio: Seq<char>)
    requires
        valid_utf8(out@),
        action_ok(
            State::Transcribing,
            Event::TranscriptionExited(StageExit::Code(0), out),
            action,
            audio,
        ),
    ensures
        action matches Action::StartDelivery(t) && t@ == out@,
        post_state(State::Transcribing, Event::TranscriptionExited(StageExit::Code(0), out))
            == State::Delivering,
{
}

} // verus!

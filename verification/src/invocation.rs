//! The exact textual parameter lists handed to the three external stages.
//!
//! Each builder's result is pinned element by element, so the invocation of a
//! stage is exactly determined by the configuration and the artifact path.

use vstd::prelude::*;
use vstd::string::StringExecFns;
use crate::config::Config;
use crate::textfmt::{dec_str, digit_char, u64_to_string};

verus! {

/// The gain multiplier in hundredths, rendered as a decimal: an integer part,
/// then a fractional part only as far as it is non-zero (200 is "2", 150 is
/// "1.5", 205 is "2.05").
pub open spec fn volume_str(centis: nat) -> Seq<char> {
    if centis % 100 == 0 {
        dec_str(centis / 100)
    } else if centis % 10 == 0 {
        dec_str(centis / 100) + seq!['.'] + seq![digit_char((centis / 10) % 10)]
    } else {
        dec_str(centis / 100) + seq!['.'] + seq![digit_char((centis / 10) % 10)] + seq![
            digit_char(centis % 10),
        ]
    }
}

/// Renders the gain multiplier held in hundredths as its decimal string.
pub fn volume_to_string(centis: u64) -> (s: String)
    ensures
        s@ == volume_str(centis as nat),
{
    let whole = u64_to_string(centis / 100);
    if centis % 100 == 0 {
        whole
    } else if centis % 10 == 0 {
        let tenths = u64_to_string((centis / 10) % 10);
        let with_dot = whole.concat(".");
        proof {
            reveal_strlit(".");
        }
        with_dot.concat(tenths.as_str())
    } else {
        let tenths = u64_to_string((centis / 10) % 10);
        let hundredths = u64_to_string(centis % 10);
        let with_dot = whole.concat(".");
        proof {
            reveal_strlit(".");
        }
        with_dot.concat(tenths.as_str()).concat(hundredths.as_str())
    }
}

/// The name of the audio artifact recorded by a session that started at the
/// given timestamp: `output_<timestamp>.wav`.
pub open spec fn audio_artifact_name(timestamp: nat) -> Seq<char> {
    "output_"@ + dec_str(timestamp) + ".wav"@
}

/// Builds the audio artifact path for a session start timestamp.
pub fn audio_artifact_path(timestamp: u64) -> (s: String)
    ensures
        s@ == audio_artifact_name(timestamp as nat),
{
    String::from_str("output_").concat(u64_to_string(timestamp).as_str()).concat(".wav")
}

/// The gain filter argument: `volume=<multiplier>`.
pub open spec fn volume_filter(centis: nat) -> Seq<char> {
    "volume="@ + volume_str(centis)
}

/// The capture stage's full argument list for a configuration and an output
/// path: overwrite flag, input format, device, gain filter, maximum duration,
/// output path.
pub open spec fn is_capture_invocation(args: Seq<String>, c: Config, output: Seq<char>) -> bool {
    &&& args.len() == 10
    &&& args[0]@ == "-y"@
    &&& args[1]@ == "-f"@
    &&& args[2]@ == "alsa"@
    &&& args[3]@ == "-i"@
    &&& args[4]@ == c.device@
    &&& args[5]@ == "-filter:a"@
    &&& args[6]@ == volume_filter(c.volume_centis as nat)
    &&& args[7]@ == "-t"@
    &&& args[8]@ == dec_str(c.duration as nat)
    &&& args[9]@ == output
}

/// Builds the capture stage's argument list from the configuration and the
/// artifact path.
pub fn capture_args(c: &Config, output: &str) -> (args: Vec<String>)
    ensures
        is_capture_invocation(args@, *c, output@),
{
    let mut args: Vec<String> = Vec::new();
    args.push(String::from_str("-y"));
    args.push(String::from_str("-f"));
    args.push(String::from_str("alsa"));
    args.push(String::from_str("-i"));
    args.push(c.device.clone());
    args.push(String::from_str("-filter:a"));
    args.push(String::from_str("volume=").concat(volume_to_string(c.volume_centis).as_str()));
    args.push(String::from_str("-t"));
    args.push(u64_to_string(c.duration));
    args.push(String::from_str(output));
    args
}

/// The transcription stage's full argument list for an artifact path: fixed
/// model, hardware accelerator and language selectors, then the path.
pub open spec fn is_transcription_invocation(args: Seq<String>, audio: Seq<char>) -> bool {
    &&& args.len() == 7
    &&& args[0]@ == "--model"@
    &&& args[1]@ == "turbo"@
    &&& args[2]@ == "--device"@
    &&& args[3]@ == "cuda"@
    &&& args[4]@ == "--language"@
    &&& args[5]@ == "en"@
    &&& args[6]@ == audio
}

/// Builds the transcription stage's argument list for an artifact path.
pub fn transcription_args(audio: &str) -> (args: Vec<String>)
    ensures
        is_transcription_invocation(args@, audio@),
{
    let mut args: Vec<String> = Vec::new();
    args.push(String::from_str("--model"));
    args.push(String::from_str("turbo"));
    args.push(String::from_str("--device"));
    args.push(String::from_str("cuda"));
    args.push(String::from_str("--language"));
    args.push(String::from_str("en"));
    args.push(String::from_str(audio));
    args
}

/// The delivery stage's argument list: the copy subcommand alone.
pub open spec fn is_delivery_invocation(args: Seq<String>) -> bool {
    &&& args.len() == 1
    &&& args[0]@ == "copy"@
}

/// Builds the delivery stage's argument list.
pub fn delivery_args() -> (args: Vec<String>)
    ensures
        is_delivery_invocation(args@),
{
    let mut args: Vec<String> = Vec::new();
    args.push(String::from_str("copy"));
    args
}

} // verus!

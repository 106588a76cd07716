use scribe::invocation::{audio_artifact_path, capture_args, transcription_args, delivery_args,
    volume_to_string};
use scribe::config::Config;
use scribe::textfmt::u64_to_string;

#[test]
fn decimal_rendering() {
    assert_eq!(u64_to_string(0), "0");
    assert_eq!(u64_to_string(7), "7");
    assert_eq!(u64_to_string(10), "10");
    assert_eq!(u64_to_string(3600), "3600");
    assert_eq!(u64_to_string(u64::MAX), "18446744073709551615");
}

#[test]
fn volume_rendering() {
    assert_eq!(volume_to_string(200), "2");
    assert_eq!(volume_to_string(150), "1.5");
    assert_eq!(volume_to_string(205), "2.05");
    assert_eq!(volume_to_string(100), "1");
    assert_eq!(volume_to_string(5), "0.05");
    assert_eq!(volume_to_string(1000), "10");
    assert_eq!(volume_to_string(1), "0.01");
    assert_eq!(volume_to_string(110), "1.1");
}

#[test]
fn artifact_name_from_timestamp() {
    assert_eq!(audio_artifact_path(0), "output_0.wav");
    assert_eq!(audio_artifact_path(1736600000), "output_1736600000.wav");
}

#[test]
fn capture_invocation_is_exact() {
    let c = Config { device: "hw:1".to_string(), duration: 10, volume_centis: 150 };
    let args = capture_args(&c, "output_5.wav");
    assert_eq!(
        args,
        vec![
            "-y",
            "-f",
            "alsa",
            "-i",
            "hw:1",
            "-filter:a",
            "volume=1.5",
            "-t",
            "10",
            "output_5.wav",
        ]
    );
}

#[test]
fn capture_invocation_with_defaults() {
    let c = Config { device: "front:CARD=BRIO".to_string(), duration: 3600, volume_centis: 200 };
    let args = capture_args(&c, "output_99.wav");
    assert_eq!(args[4], "front:CARD=BRIO");
    assert_eq!(args[6], "volume=2");
    assert_eq!(args[8], "3600");
    assert_eq!(args[9], "output_99.wav");
}

#[test]
fn transcription_invocation_is_exact() {
    let args = transcription_args("output_5.wav");
    assert_eq!(
        args,
        vec!["--model", "turbo", "--device", "cuda", "--language", "en", "output_5.wav"]
    );
}

#[test]
fn delivery_invocation_is_exact() {
    assert_eq!(delivery_args(), vec!["copy"]);
}

use scribe::exit::Failure;
use scribe::textfmt::i32_to_string;

#[test]
fn signed_decimal_rendering() {
    assert_eq!(i32_to_string(0), "0");
    assert_eq!(i32_to_string(130), "130");
    assert_eq!(i32_to_string(-1), "-1");
    assert_eq!(i32_to_string(i32::MIN), "-2147483648");
    assert_eq!(i32_to_string(i32::MAX), "2147483647");
}

#[test]
fn failure_messages_name_the_stage() {
    assert_eq!(Failure::LaunchError.message(), "Failed to start a stage process.");
    assert_eq!(
        Failure::CaptureError(Some(137)).message(),
        "Failed to record audio. Exit code: 137"
    );
    assert_eq!(
        Failure::CaptureError(Some(-9)).message(),
        "Failed to record audio. Exit code: -9"
    );
    assert_eq!(
        Failure::CaptureError(None).message(),
        "Recording ended without an exit code."
    );
    assert_eq!(Failure::TranscriptionError.message(), "Whisper transcription failed.");
    assert_eq!(
        Failure::EncodingError.message(),
        "Transcription output was not valid text."
    );
    assert_eq!(
        Failure::DeliveryWriteError.message(),
        "Failed to write the transcription to the clipboard."
    );
    assert_eq!(
        Failure::DeliveryError.message(),
        "Failed to copy transcription to clipboard."
    );
}

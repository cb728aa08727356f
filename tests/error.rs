use whisper_ware::error::{ChannelFailure, ConfigIssue, ErrorKind, Recovery};

#[test]
fn messages_describe_each_kind() {
    assert_eq!(ErrorKind::NoOutputDevice.message(), "output device not found");
    assert_eq!(ErrorKind::NoInputDevice.message(), "input device not found");
    assert_eq!(ErrorKind::EditorMissing.message(), "editor missing");
    assert_eq!(
        ErrorKind::InvalidConfiguration(ConfigIssue::SampleRateMismatch).message(),
        "invalid configuration: input and output sample rates are different"
    );
    assert_eq!(
        ErrorKind::InvalidConfiguration(ConfigIssue::NotStereo).message(),
        "invalid configuration: only stereo is supported"
    );
    assert_eq!(ErrorKind::Devices(String::from("x")).message(), "devices error: x");
    assert_eq!(ErrorKind::Io(String::from("denied")).message(), "io error: denied");
    assert_eq!(
        ErrorKind::Send(ChannelFailure::Closed).message(),
        "send error: channel closed"
    );
}

#[test]
fn kinds_compare_by_kind_alone() {
    assert_eq!(ErrorKind::Json(String::from("a")), ErrorKind::Json(String::from("b")));
    assert_ne!(ErrorKind::Json(String::from("a")), ErrorKind::Io(String::from("a")));
    assert!(ErrorKind::Send(ChannelFailure::Closed).same_kind(&ErrorKind::Send(ChannelFailure::HalfClosed)));
    assert!(!ErrorKind::NoInputDevice.same_kind(&ErrorKind::NoOutputDevice));
}

#[test]
fn device_absence_awaits_device_change() {
    assert_eq!(ErrorKind::NoInputDevice.recovery(), Recovery::AwaitDeviceChange);
    assert_eq!(ErrorKind::NoOutputDevice.recovery(), Recovery::AwaitDeviceChange);
    assert_eq!(ErrorKind::RenderStalled.recovery(), Recovery::RetryAfterDelay);
    assert_eq!(ErrorKind::PlayStream(String::new()).recovery(), Recovery::RetryAfterDelay);
}

use whisper_ware::error::{ConfigIssue, ErrorKind};
use whisper_ware::session::{Phase, SessionAction, SessionEvent, Supervisor, RETRY_DELAY_MS};
use whisper_ware::watcher::hresult_failed;

#[test]
fn missing_output_device_waits_for_watcher() {
    let s = Supervisor::new();
    assert_eq!(s.action(), SessionAction::Start);
    let (s, d) = s.step(SessionEvent::Failed(ErrorKind::NoOutputDevice));
    assert_eq!(s.phase, Phase::Recovering);
    assert_eq!(d.action, SessionAction::AwaitDeviceChange);
    assert!(d.log_error);
    let (s, d) = s.step(SessionEvent::DelayElapsed);
    assert_eq!(s.phase, Phase::Recovering);
    assert_eq!(d.action, SessionAction::AwaitDeviceChange);
    let (s, d) = s.step(SessionEvent::DevicesChanged);
    assert_eq!(s.phase, Phase::Starting);
    assert_eq!(d.action, SessionAction::Start);
}

#[test]
fn other_errors_retry_after_delay_and_log_once() {
    let s = Supervisor::new();
    let (s, d) = s.step(SessionEvent::Failed(ErrorKind::BuildStream(String::from("busy"))));
    assert_eq!(d.action, SessionAction::Sleep(RETRY_DELAY_MS));
    assert!(d.log_error);
    let (s, d) = s.step(SessionEvent::DelayElapsed);
    assert_eq!(d.action, SessionAction::Start);
    let (s, d) = s.step(SessionEvent::Failed(ErrorKind::BuildStream(String::from("still busy"))));
    assert_eq!(d.action, SessionAction::Sleep(100));
    assert!(!d.log_error);
    let (s, _) = s.step(SessionEvent::DelayElapsed);
    let (s, d) = s.step(SessionEvent::Failed(ErrorKind::InvalidConfiguration(
        ConfigIssue::SampleRateMismatch,
    )));
    assert_eq!(s.phase, Phase::Retrying);
    assert!(d.log_error);
}

#[test]
fn running_session_restarts_after_stop_or_stall() {
    let (s, d) = Supervisor::new().step(SessionEvent::Started);
    assert_eq!(s.phase, Phase::Running);
    assert_eq!(d.action, SessionAction::RunProcessor);
    let (r, d) = s.step(SessionEvent::Stopped);
    assert_eq!(r.phase, Phase::Retrying);
    assert_eq!(d.action, SessionAction::Sleep(100));
    let (r, d) = s.step(SessionEvent::Failed(ErrorKind::RenderStalled));
    assert_eq!(r.phase, Phase::Retrying);
    assert_eq!(d.action, SessionAction::Sleep(100));
}

#[test]
fn engine_initializes_once() {
    let mut s = Supervisor::new();
    assert!(s.take_engine_init());
    assert!(!s.take_engine_init());
    assert!(!s.take_engine_init());
}

#[test]
fn hresult_sign_decides_failure() {
    assert!(hresult_failed(-2147467259));
    assert!(hresult_failed(-1));
    assert!(!hresult_failed(0));
    assert!(!hresult_failed(1));
}

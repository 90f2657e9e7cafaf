use rust_transcriber::audio::CaptureError;
use rust_transcriber::audio::DeviceProbe;
use rust_transcriber::controller::ControllerState;
use rust_transcriber::controller::EdgeOutcome;
use rust_transcriber::controller::SessionController;
use rust_transcriber::hotkey::HotkeyEdge;
use rust_transcriber::hotkey::HotkeyEvent;
use rust_transcriber::output::KeyStep;
use rust_transcriber::output::OutputHandler;
use rust_transcriber::transcribe::HttpResponse;
use rust_transcriber::transcribe::OpenAITranscriber;
use rust_transcriber::transcribe::TranscribeError;

const OPENED: DeviceProbe = DeviceProbe::Opened { sample_rate: 16000, channels: 1 };

fn press(id: u32) -> HotkeyEvent {
    HotkeyEvent { edge: HotkeyEdge::Pressed, identity: id }
}

fn release(id: u32) -> HotkeyEvent {
    HotkeyEvent { edge: HotkeyEdge::Released, identity: id }
}

#[test]
fn alternation_matches_edge_order() {
    let mut ctrl = SessionController::new();
    assert_eq!(ctrl.state, ControllerState::Idle);
    for _ in 0..3 {
        let r = ctrl.handle_event(&press(1), OPENED, 9);
        assert!(matches!(r, EdgeOutcome::Started));
        assert_eq!(ctrl.state, ControllerState::Armed);
        let r = ctrl.handle_event(&release(1), OPENED, 9);
        assert!(matches!(r, EdgeOutcome::Finished(_)));
        assert_eq!(ctrl.state, ControllerState::Idle);
    }
}

#[test]
fn release_while_idle_is_ignored() {
    let mut ctrl = SessionController::new();
    let r = ctrl.handle_event(&release(1), OPENED, 9);
    assert!(matches!(r, EdgeOutcome::Ignored));
    assert_eq!(ctrl.state, ControllerState::Idle);
}

#[test]
fn repeated_press_while_armed_is_ignored() {
    let mut ctrl = SessionController::new();
    ctrl.handle_event(&press(1), OPENED, 9);
    let r = ctrl.handle_event(&press(1), OPENED, 9);
    assert!(matches!(r, EdgeOutcome::Ignored));
    assert_eq!(ctrl.state, ControllerState::Armed);
    // Still the first recording: no second counter value consumed.
    assert_eq!(ctrl.recorder.next_id, 1);
}

#[test]
fn failed_start_reports_and_stays_idle() {
    let mut ctrl = SessionController::new();
    let r = ctrl.handle_event(&press(1), DeviceProbe::NoDevice, 9);
    assert!(matches!(r, EdgeOutcome::StartFailed(CaptureError::NoInputDevice)));
    assert_eq!(ctrl.state, ControllerState::Idle);
    let r = ctrl.handle_event(&press(1), DeviceProbe::StreamFailed, 9);
    assert!(matches!(r, EdgeOutcome::StartFailed(CaptureError::StreamError)));
    assert_eq!(ctrl.state, ControllerState::Idle);
}

#[test]
fn cancel_while_armed_discards_artifact() {
    let mut ctrl = SessionController::new();
    ctrl.handle_event(&press(1), OPENED, 9);
    let discarded = ctrl.on_cancel();
    assert!(discarded.is_some());
    assert_eq!(ctrl.state, ControllerState::Stopped);
    // Everything after shutdown is ignored.
    let r = ctrl.handle_event(&press(1), OPENED, 9);
    assert!(matches!(r, EdgeOutcome::Ignored));
    assert_eq!(ctrl.state, ControllerState::Stopped);
}

#[test]
fn cancel_while_idle_has_nothing_to_discard() {
    let mut ctrl = SessionController::new();
    assert!(ctrl.on_cancel().is_none());
    assert_eq!(ctrl.state, ControllerState::Stopped);
}

#[test]
fn late_results_are_discarded_after_shutdown() {
    let mut ctrl = SessionController::new();
    assert!(ctrl.should_type(&Ok("hi".to_string())));
    assert!(!ctrl.should_type(&Err(TranscribeError::Transport)));
    ctrl.on_cancel();
    assert!(!ctrl.should_type(&Ok("hi".to_string())));
}

#[test]
fn silence_end_to_end() {
    // Press, two seconds of silence, release: one complete artifact.
    let mut ctrl = SessionController::new();
    let r = ctrl.handle_event(&press(1), OPENED, 1700000000);
    assert!(matches!(r, EdgeOutcome::Started));
    let silence = vec![0i16; 32000];
    ctrl.recorder.write_input_data(&silence, true);
    let artifact = match ctrl.handle_event(&release(1), OPENED, 1700000000) {
        EdgeOutcome::Finished(a) => a,
        _ => panic!("release while armed must finalize the recording"),
    };
    // Two seconds at the device's native rate.
    assert_eq!(artifact.sample_rate, 16000);
    assert_eq!((artifact.data.len() - 44) / 2 / artifact.sample_rate as usize, 2);
    assert_eq!(artifact.path, "recorded_audio_1700000000_0.wav");

    // An empty utterance transcribes to the empty string.
    let transcriber = OpenAITranscriber::new("sk-test".to_string());
    let result = transcriber.transcribe(Some(HttpResponse {
        status: 200,
        body: "{\"text\": \"\"}".to_string(),
    }));
    let text = result.expect("a success response must yield text");
    assert_eq!(text, "");

    // Typing the empty result performs zero key events.
    assert!(ctrl.should_type(&Ok(text.clone())));
    let plan: Vec<KeyStep> = OutputHandler::new(20, 5).type_text(&text);
    assert!(plan.is_empty());
}

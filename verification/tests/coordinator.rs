use std::sync::mpsc;
use voxly::audio::VadPolicy;
use voxly::coordinator::{
    CoordinatorAction, CoordinatorCommand, CoordinatorState, PipelineState, TranscriptionCoordinator,
};

/// Milliseconds as the loop's nanosecond clock reads them.
fn ms(x: u64) -> u64 {
    x * 1_000_000
}

fn kinds(actions: &[CoordinatorAction]) -> Vec<String> {
    actions.iter().map(|a| format!("{:?}", a)).collect()
}

#[test]
fn start_capture_stop_round_trip() {
    let mut s = CoordinatorState::new();
    let a = s.on_command(CoordinatorCommand::StartRecording { push_to_talk: false }, ms(100));
    assert_eq!(kinds(&a), vec![format!("{:?}", CoordinatorAction::StartCapture { vad_policy: VadPolicy::Streaming })]);
    assert_eq!(s.pipeline, PipelineState::Recording);
    assert!(!s.is_ptt);
    let a = s.on_capture_started();
    assert_eq!(kinds(&a), vec!["StartEngineStream".to_string(), "EmitRecordingStarted".to_string()]);
    assert!(s.capture_active);
    let a = s.on_command(CoordinatorCommand::StopRecording, ms(500));
    assert_eq!(
        kinds(&a),
        vec!["StopCapture".to_string(), "FinalizeEngineStream".to_string(), "EmitRecordingStopped".to_string()]
    );
    assert_eq!(s.pipeline, PipelineState::Idle);
    assert!(!s.capture_active);
}

#[test]
fn push_to_talk_uses_offline_policy() {
    let mut s = CoordinatorState::new();
    let a = s.on_command(CoordinatorCommand::StartRecording { push_to_talk: true }, ms(40));
    assert_eq!(kinds(&a), vec![format!("{:?}", CoordinatorAction::StartCapture { vad_policy: VadPolicy::Offline })]);
    assert!(s.is_ptt);
}

#[test]
fn commands_within_debounce_window_are_dropped() {
    let mut s = CoordinatorState::new();
    // The loop's start counts as the last command: 29 ms later is too soon.
    assert!(s.on_command(CoordinatorCommand::StartRecording { push_to_talk: false }, ms(29)).is_empty());
    assert_eq!(s.pipeline, PipelineState::Idle);
    assert_eq!(s.on_command(CoordinatorCommand::StartRecording { push_to_talk: false }, ms(30)).len(), 1);
    s.on_capture_started();
    let before = s;
    assert!(s.on_command(CoordinatorCommand::Cancel, ms(59)).is_empty());
    assert_eq!(s, before);
    assert_eq!(s.on_command(CoordinatorCommand::Cancel, ms(60)).len(), 3);
}

#[test]
fn start_while_recording_is_ignored() {
    let mut s = CoordinatorState::new();
    s.on_command(CoordinatorCommand::StartRecording { push_to_talk: false }, ms(100));
    s.on_capture_started();
    let a = s.on_command(CoordinatorCommand::StartRecording { push_to_talk: true }, ms(200));
    assert!(a.is_empty());
    assert_eq!(s.pipeline, PipelineState::Recording);
    assert!(!s.is_ptt);
    assert_eq!(s.last_command_ns, ms(200));
}

#[test]
fn stop_and_finalize_when_idle_are_ignored() {
    let mut s = CoordinatorState::new();
    assert!(s.on_command(CoordinatorCommand::StopRecording, ms(100)).is_empty());
    assert!(s.on_command(CoordinatorCommand::Finalize, ms(200)).is_empty());
    assert_eq!(s.last_command_ns, ms(200));
}

#[test]
fn finalize_acts_like_stop() {
    let mut s = CoordinatorState::new();
    s.on_command(CoordinatorCommand::StartRecording { push_to_talk: true }, ms(100));
    s.on_capture_started();
    let a = s.on_command(CoordinatorCommand::Finalize, ms(300));
    assert_eq!(
        kinds(&a),
        vec!["StopCapture".to_string(), "FinalizeEngineStream".to_string(), "EmitRecordingStopped".to_string()]
    );
}

#[test]
fn cancel_when_idle_still_stops_engine_and_announces() {
    let mut s = CoordinatorState::new();
    let a = s.on_command(CoordinatorCommand::Cancel, ms(100));
    assert_eq!(kinds(&a), vec!["CancelEngineStream".to_string(), "EmitRecordingStopped".to_string()]);
    assert_eq!(s.pipeline, PipelineState::Idle);
}

#[test]
fn failed_capture_returns_to_idle_with_error() {
    let mut s = CoordinatorState::new();
    s.on_command(CoordinatorCommand::StartRecording { push_to_talk: false }, ms(100));
    let a = s.on_capture_failed("audio error: no default input device".to_string());
    match &a[..] {
        [CoordinatorAction::EmitError { message }] => assert_eq!(message, "audio error: no default input device"),
        _ => panic!("expected one error"),
    }
    assert_eq!(s.pipeline, PipelineState::Idle);
    assert!(!s.capture_active);
}

#[test]
fn shutdown_stops_capture_then_exits() {
    let mut s = CoordinatorState::new();
    s.on_command(CoordinatorCommand::StartRecording { push_to_talk: false }, ms(100));
    s.on_capture_started();
    let a = s.on_command(CoordinatorCommand::Shutdown, ms(200));
    assert_eq!(kinds(&a), vec!["StopCapture".to_string(), "Exit".to_string()]);
    assert!(!s.capture_active);
    let mut idle = CoordinatorState::new();
    assert_eq!(kinds(&idle.on_command(CoordinatorCommand::Shutdown, ms(100))), vec!["Exit".to_string()]);
}

#[test]
fn finalize_result_becomes_text_or_error() {
    match CoordinatorAction::from_finalize_result(Ok("hello world".to_string())) {
        CoordinatorAction::EmitTranscriptionFinal { text } => assert_eq!(text, "hello world"),
        _ => panic!("expected final text"),
    }
    match CoordinatorAction::from_finalize_result(Err("inference engine error: x".to_string())) {
        CoordinatorAction::EmitError { message } => assert_eq!(message, "inference engine error: x"),
        _ => panic!("expected an error"),
    }
}

#[test]
fn handle_sends_commands_in_order() {
    let (tx, rx) = mpsc::channel();
    let c = TranscriptionCoordinator::new(tx);
    c.start_recording(true);
    c.stop_recording();
    c.cancel();
    c.send(CoordinatorCommand::Shutdown);
    let got: Vec<CoordinatorCommand> = rx.try_iter().collect();
    assert_eq!(
        got,
        vec![
            CoordinatorCommand::StartRecording { push_to_talk: true },
            CoordinatorCommand::StopRecording,
            CoordinatorCommand::Cancel,
            CoordinatorCommand::Shutdown,
        ]
    );
}

#[test]
fn handle_ignores_a_closed_channel() {
    let (tx, rx) = mpsc::channel();
    drop(rx);
    let c = TranscriptionCoordinator::new(tx);
    c.start_recording(false);
}

#[test]
fn debounce_counts_fractions_of_a_millisecond() {
    let mut s = CoordinatorState::new();
    // 29.9 ms after the loop began is still within the window.
    assert!(s.on_command(CoordinatorCommand::StartRecording { push_to_talk: false }, 29_900_000).is_empty());
    assert_eq!(s.on_command(CoordinatorCommand::StartRecording { push_to_talk: false }, 30_000_000).len(), 1);
    s.on_capture_started();
    assert!(s.on_command(CoordinatorCommand::Cancel, 59_999_999).is_empty());
    assert_eq!(s.on_command(CoordinatorCommand::Cancel, 60_000_000).len(), 3);
}

#[test]
fn command_builders() {
    assert_eq!(CoordinatorCommand::start(true), CoordinatorCommand::StartRecording { push_to_talk: true });
    assert_eq!(CoordinatorCommand::start(false), CoordinatorCommand::StartRecording { push_to_talk: false });
    assert_eq!(CoordinatorCommand::stop(), CoordinatorCommand::StopRecording);
    assert_eq!(CoordinatorCommand::cancel(), CoordinatorCommand::Cancel);
}

#[test]
fn recording_started_and_stopped_alternate() {
    let mut s = CoordinatorState::new();
    let mut events: Vec<String> = Vec::new();
    let mut t = 0u64;
    let script = [
        CoordinatorCommand::StartRecording { push_to_talk: false },
        CoordinatorCommand::StartRecording { push_to_talk: true },
        CoordinatorCommand::Cancel,
        CoordinatorCommand::Cancel,
        CoordinatorCommand::StartRecording { push_to_talk: true },
        CoordinatorCommand::Finalize,
        CoordinatorCommand::StopRecording,
        CoordinatorCommand::StartRecording { push_to_talk: false },
        CoordinatorCommand::StopRecording,
    ];
    for cmd in script {
        t += 100;
        for a in s.on_command(cmd, ms(t)) {
            if let CoordinatorAction::StartCapture { .. } = a {
                for b in s.on_capture_started() {
                    events.push(format!("{:?}", b));
                }
            } else {
                events.push(format!("{:?}", a));
            }
        }
    }
    let marks: Vec<&String> =
        events.iter().filter(|e| e.as_str() == "EmitRecordingStarted" || e.as_str() == "EmitRecordingStopped").collect();
    let mut recording = false;
    for m in marks {
        if m.as_str() == "EmitRecordingStarted" {
            assert!(!recording, "two starts without a stop");
            recording = true;
        } else {
            recording = false;
        }
    }
    assert!(!recording);
}

use voxly::config::{AppConfig, VadPolicy};
use voxly::error::VoxlyError;
use voxly::events::{ErrorEvent, TranscriptionFinalEvent, TranscriptionUpdateEvent};

#[test]
fn error_constructors() {
    assert!(matches!(VoxlyError::audio("no device"), VoxlyError::Audio(ref m) if m == "no device"));
    assert!(matches!(VoxlyError::inference("bad weights"), VoxlyError::Inference(ref m) if m == "bad weights"));
}

#[test]
fn config_defaults_and_model_id() {
    let c = AppConfig::default();
    assert_eq!(c.model_id(), "mistralai/Voxtral-Mini-4B-Realtime-2602");
    assert!(c.input_device.is_none());
    assert!(c.vad_enabled);
    assert_eq!(c.vad_policy, VadPolicy::Streaming);
    assert_eq!(c.target_sample_rate, 16000);
    assert!(c.model_cache_dir.is_none());
    let other = AppConfig { selected_model_id: "x/y".to_string(), ..AppConfig::default() };
    assert_eq!(other.model_id(), "x/y");
}

#[test]
fn event_payloads() {
    let e = TranscriptionFinalEvent::new("hello", 42);
    assert_eq!(e.text, "hello");
    assert_eq!(e.timestamp, 42);
    assert_eq!(ErrorEvent::new("oops").message, "oops");
    let u = TranscriptionUpdateEvent::new("a b", Some("c"), 7, Some(120));
    assert_eq!(u.committed, "a b");
    assert_eq!(u.tentative.as_deref(), Some("c"));
    assert_eq!(u.timestamp, 7);
    assert_eq!(u.latency_ms, Some(120));
    let u = TranscriptionUpdateEvent::new("", None, 0, None);
    assert!(u.tentative.is_none());
}

#[test]
fn error_messages_name_their_kind() {
    assert_eq!(VoxlyError::audio("no default input device").message(), "audio error: no default input device");
    assert_eq!(VoxlyError::audio(&String::from("owned")).message(), "audio error: owned");
    assert_eq!(VoxlyError::inference("boom").message(), "inference engine error: boom");
    assert_eq!(VoxlyError::Vad("x".to_string()).message(), "VAD error: x");
    assert_eq!(VoxlyError::ModelDownload("x".to_string()).message(), "model download error: x");
    assert_eq!(VoxlyError::ModelNotFound { model_id: "m".to_string() }.message(), "model not found: m");
    assert_eq!(
        VoxlyError::UnsupportedCapability { capability: "streaming".to_string() }.message(),
        "engine does not support streaming"
    );
    assert_eq!(VoxlyError::Coordinator("x".to_string()).message(), "coordinator error: x");
    assert_eq!(VoxlyError::Config("x".to_string()).message(), "config error: x");
}

#[test]
fn io_and_other_errors_show_their_own_text() {
    let io = std::io::Error::new(std::io::ErrorKind::Other, "disk full");
    assert_eq!(VoxlyError::Io(io).message(), "disk full");
    assert_eq!(VoxlyError::Other(anyhow::Error::msg("wrapped")).message(), "wrapped");
}

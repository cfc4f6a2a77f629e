use voxly::audio::capture::{gate_frames, split_frames};
use voxly::audio::vad::EnergyGate;
use voxly::audio::{AudioBuffer, CaptureConfig, VadPolicy};

#[test]
fn capture_config_defaults() {
    let c = CaptureConfig::default();
    assert_eq!(c.target_sample_rate, 16000);
    assert!(c.vad_enabled);
    assert_eq!(c.vad_policy, VadPolicy::Streaming);
    assert_eq!(c.frame_size_ms, 30);
    assert_eq!(c.frame_samples(), 480);
}

#[test]
fn capture_hangover_follows_policy() {
    let mut c = CaptureConfig::default();
    assert_eq!(c.vad_hangover_frames(), Some(50));
    c.vad_policy = VadPolicy::Offline;
    assert_eq!(c.vad_hangover_frames(), Some(15));
    c.vad_policy = VadPolicy::Disabled;
    assert_eq!(c.vad_hangover_frames(), Some(0));
    c.vad_enabled = false;
    assert_eq!(c.vad_hangover_frames(), None);
}

#[test]
fn frame_samples_rounds_down() {
    let c = CaptureConfig { target_sample_rate: 44100, vad_enabled: true, vad_policy: VadPolicy::Offline, frame_size_ms: 30 };
    assert_eq!(c.frame_samples(), 1323);
    let c = CaptureConfig { target_sample_rate: 22050, vad_enabled: true, vad_policy: VadPolicy::Offline, frame_size_ms: 10 };
    assert_eq!(c.frame_samples(), 220);
}

#[test]
fn split_frames_keeps_or_drops_partial_tail() {
    let samples = [1.0f32, 2.0, 3.0, 4.0, 5.0, 6.0, 7.0];
    let with_tail = split_frames(&samples, 3, true);
    assert_eq!(with_tail, vec![vec![1.0, 2.0, 3.0], vec![4.0, 5.0, 6.0], vec![7.0]]);
    let whole = split_frames(&samples, 3, false);
    assert_eq!(whole, vec![vec![1.0, 2.0, 3.0], vec![4.0, 5.0, 6.0]]);
    let exact = split_frames(&samples[..6], 3, false);
    assert_eq!(exact.len(), 2);
    let empty: Vec<Vec<f32>> = split_frames(&[], 3, true);
    assert!(empty.is_empty());
    let short = split_frames(&[1u8, 2], 3, false);
    assert!(short.is_empty());
}

#[test]
fn audio_buffer_keeps_most_recent() {
    let mut b = AudioBuffer::<f32>::new(4);
    assert!(b.is_empty());
    b.push(&[1.0, 2.0, 3.0]);
    assert_eq!(b.len(), 3);
    b.push(&[4.0, 5.0, 6.0]);
    assert_eq!(b.len(), 4);
    assert_eq!(b.take_all(), vec![3.0, 4.0, 5.0, 6.0]);
    assert!(b.is_empty());
    b.push(&[7.0]);
    b.clear();
    assert_eq!(b.len(), 0);
}

#[test]
fn audio_buffer_zero_limit_keeps_newest_sample() {
    let mut b = AudioBuffer::<i16>::new(0);
    b.push(&[1, 2, 3]);
    assert_eq!(b.take_all(), vec![3]);
}

#[test]
fn capture_gate_passes_loud_frames_and_their_hangover() {
    let mut gate = EnergyGate::new();
    gate.set_hangover_frames(2);
    let frames: Vec<Vec<u8>> = (0..8u8).map(|i| vec![i, i]).collect();
    let louds = [false, true, false, false, false, true, false, false];
    let out = gate_frames(&mut gate, &frames, &louds);
    assert_eq!(out, vec![vec![1, 1], vec![2, 2], vec![3, 3], vec![5, 5], vec![6, 6], vec![7, 7]]);
    // The energy gate carries over to the next callback: its hangover is used up.
    let out = gate_frames(&mut gate, &vec![vec![9u8]], &[false]);
    assert!(out.is_empty());
}

#[test]
fn capture_gate_hangover_spans_callbacks() {
    let mut c = CaptureConfig::default();
    c.vad_policy = VadPolicy::Offline;
    let mut gate = EnergyGate::new();
    gate.set_hangover_frames(c.vad_hangover_frames().unwrap());
    let loud = vec![vec![1.0f32; 480]];
    assert_eq!(gate_frames(&mut gate, &loud, &[true]).len(), 1);
    let quiet: Vec<Vec<f32>> = vec![vec![0.0; 480]; 20];
    let louds = [false; 20];
    // Exactly fifteen quiet frames of tail follow the loud one.
    assert_eq!(gate_frames(&mut gate, &quiet, &louds).len(), 15);
}

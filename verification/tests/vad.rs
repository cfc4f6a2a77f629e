use voxly::audio::vad::{
    EnergyGate, VadFrame, VadPolicy, WavekatSmoothedVad, VAD_OFFLINE_HANGOVER_FRAMES,
    VAD_STREAMING_HANGOVER_FRAMES,
};
use voxly::error::VoxlyError;

fn make_silence(len: usize) -> Vec<f32> {
    vec![0.0; len]
}

fn make_tone(len: usize, amp: f32) -> Vec<f32> {
    (0..len).map(|i| amp * ((i as f32 * 0.1).sin())).collect()
}

/// Root-mean-square energy of a frame (the energy detector's measure).
fn rms(frame: &[f32]) -> f32 {
    if frame.is_empty() {
        return 0.0;
    }
    let sum: f32 = frame.iter().map(|s| s * s).sum();
    (sum / frame.len() as f32).sqrt()
}

#[test]
fn energy_vad_basic() {
    let threshold = 0.1;
    let mut vad = EnergyGate::new();
    assert!(!vad.push(rms(&make_silence(480)) > threshold));
    let speech = make_tone(480, 0.5);
    assert!(vad.push(rms(&speech) > threshold));
}

#[test]
fn wavekat_smoothed_onset_and_hangover() {
    let threshold = 0.02;
    let mut vad = WavekatSmoothedVad::<f32>::new_silero(16000).expect("create");
    vad.set_hangover_frames(3);

    let tone = make_tone(512, 0.8);
    let _r1 = vad.push_frame(&tone, rms(&tone) > threshold);
    let r2 = vad.push_frame(&tone, rms(&tone) > threshold);
    assert!(r2.is_speech(), "speech detected");

    for _ in 0..5 {
        let silence = make_silence(512);
        let _r = vad.push_frame(&silence, rms(&silence) > threshold);
    }
    let silence = make_silence(512);
    let _ = vad.push_frame(&silence, rms(&silence) > threshold);
}

#[test]
fn energy_gate_hangover_counts_quiet_frames() {
    let mut gate = EnergyGate::new();
    assert_eq!(gate.hangover, VAD_OFFLINE_HANGOVER_FRAMES);
    gate.set_hangover_frames(2);
    assert!(!gate.push(false));
    assert!(gate.push(true));
    assert!(gate.push(false));
    assert!(gate.push(false));
    assert!(!gate.push(false));
    assert!(gate.push(true));
    gate.reset();
    assert!(!gate.push(false));
}

#[test]
fn smoothed_vad_rejects_other_rates() {
    match WavekatSmoothedVad::<f32>::new_silero(8000) {
        Err(e) => {
            assert!(matches!(e, VoxlyError::Other(_)));
            assert_eq!(e.message(), "wavekat silero expects 16kHz");
        }
        Ok(_) => panic!("expected an error"),
    }
}

#[test]
fn smoothed_vad_onset_emits_preroll() {
    let mut vad = WavekatSmoothedVad::<i16>::new_silero(16000).unwrap();
    // Two quiet frames fill the pre-roll window.
    assert!(!vad.push_frame(&[1, 2], false).is_speech());
    assert!(!vad.push_frame(&[3, 4], false).is_speech());
    // First loud frame: onset not reached yet.
    assert!(!vad.push_frame(&[5, 6], true).is_speech());
    // Second loud frame: speech, carrying the whole window.
    match vad.push_frame(&[7, 8], true) {
        VadFrame::Speech(v) => assert_eq!(v, vec![1, 2, 3, 4, 5, 6, 7, 8]),
        VadFrame::Noise => panic!("expected speech"),
    }
    // In speech, a loud frame is passed on as is.
    match vad.push_frame(&[9], true) {
        VadFrame::Speech(v) => assert_eq!(v, vec![9]),
        VadFrame::Noise => panic!("expected speech"),
    }
}

#[test]
fn smoothed_vad_window_keeps_six_frames() {
    let mut vad = WavekatSmoothedVad::<u8>::new_silero(16000).unwrap();
    for i in 0..8u8 {
        assert!(!vad.push_frame(&[i], false).is_speech());
    }
    assert!(!vad.push_frame(&[8], true).is_speech());
    match vad.push_frame(&[9], true) {
        VadFrame::Speech(v) => assert_eq!(v, vec![4, 5, 6, 7, 8, 9]),
        VadFrame::Noise => panic!("expected speech"),
    }
}

#[test]
fn smoothed_vad_hangover_then_noise() {
    let mut vad = WavekatSmoothedVad::<u8>::new_silero(16000).unwrap();
    vad.set_hangover_frames(1);
    assert!(!vad.push_frame(&[1], true).is_speech());
    assert!(vad.push_frame(&[2], true).is_speech());
    // Exactly one quiet frame of tail, then noise.
    match vad.push_frame(&[0], false) {
        VadFrame::Speech(v) => assert_eq!(v, vec![0]),
        VadFrame::Noise => panic!("expected the hangover frame"),
    }
    assert!(!vad.push_frame(&[0], false).is_speech());
    assert!(!vad.push_frame(&[0], false).is_speech());
}

#[test]
fn smoothed_vad_tail_matches_hangover_setting() {
    for n in [0usize, 3, VAD_OFFLINE_HANGOVER_FRAMES, VAD_STREAMING_HANGOVER_FRAMES] {
        let mut vad = WavekatSmoothedVad::<f32>::new_silero(16000).unwrap();
        vad.set_hangover_frames(n);
        let tone = make_tone(512, 0.8);
        let silence = make_silence(512);
        assert!(!vad.push_frame(&tone, rms(&tone) > 0.02).is_speech());
        assert!(vad.push_frame(&tone, rms(&tone) > 0.02).is_speech());
        for _ in 0..n {
            match vad.push_frame(&silence, rms(&silence) > 0.02) {
                VadFrame::Speech(v) => assert_eq!(v, silence),
                VadFrame::Noise => panic!("tail shorter than the hangover"),
            }
        }
        assert!(!vad.push_frame(&silence, rms(&silence) > 0.02).is_speech());
    }
}

#[test]
fn smoothed_vad_single_voiced_frame_is_not_speech() {
    let mut vad = WavekatSmoothedVad::<f32>::new_silero(16000).unwrap();
    let tone: Vec<f32> = (0..512).map(|i| 0.8 * (i as f32 * 0.1).sin()).collect();
    let silence = vec![0.0f32; 512];
    assert!(!vad.push_frame(&tone, rms(&tone) > 0.02).is_speech());
    assert!(!vad.push_frame(&silence, rms(&silence) > 0.02).is_speech());
    // The onset count started over: one more voiced frame is not enough.
    assert!(!vad.push_frame(&tone, rms(&tone) > 0.02).is_speech());
}

#[test]
fn smoothed_vad_reset_matches_fresh_detector() {
    let mut used = WavekatSmoothedVad::<u8>::new_silero(16000).unwrap();
    used.set_hangover_frames(2);
    for i in 0..5u8 {
        let _ = used.push_frame(&[i], i % 2 == 1 || i > 2);
    }
    used.reset();
    let mut fresh = WavekatSmoothedVad::<u8>::new_silero(16000).unwrap();
    fresh.set_hangover_frames(2);
    let script: [(u8, bool); 9] =
        [(10, false), (11, true), (12, true), (13, false), (14, false), (15, false), (16, true), (17, true), (18, false)];
    for (x, loud) in script {
        let a = used.push_frame(&[x], loud);
        let b = fresh.push_frame(&[x], loud);
        match (a, b) {
            (VadFrame::Speech(p), VadFrame::Speech(q)) => assert_eq!(p, q),
            (VadFrame::Noise, VadFrame::Noise) => {}
            _ => panic!("reset detector and fresh detector disagree"),
        }
    }
}

#[test]
fn smoothed_vad_reset_forgets_speech() {
    let mut vad = WavekatSmoothedVad::<u8>::new_silero(16000).unwrap();
    assert!(!vad.push_frame(&[1], true).is_speech());
    assert!(vad.push_frame(&[2], true).is_speech());
    vad.reset();
    assert!(!vad.push_frame(&[0], false).is_speech());
    assert!(!vad.push_frame(&[3], true).is_speech());
    match vad.push_frame(&[4], true) {
        VadFrame::Speech(v) => assert_eq!(v, vec![0, 3, 4]),
        VadFrame::Noise => panic!("expected speech"),
    }
}

#[test]
fn vad_policy_from_bool_and_default() {
    assert_eq!(VadPolicy::from(true), VadPolicy::Streaming);
    assert_eq!(VadPolicy::from(false), VadPolicy::Offline);
    assert_eq!(VadPolicy::default(), VadPolicy::Streaming);
    let noise: VadFrame<f32> = VadFrame::Noise;
    assert!(!noise.is_speech());
}

use std::path::PathBuf;
use voxly::error::VoxlyError;
use voxly::inference::manager::{stop_stream_outcome, StreamLease};
use voxly::inference::BurnVoxtralEngine;

fn loaded_engine() -> BurnVoxtralEngine {
    let mut e = BurnVoxtralEngine::new();
    let p = PathBuf::from("/models/voxtral-q4.gguf");
    e.load(&p, true, &p.display().to_string()).unwrap();
    e
}

#[test]
fn engine_reports_name_and_streaming() {
    let e = BurnVoxtralEngine::default();
    assert_eq!(e.backend_name(), "burn-voxtral-realtime");
    assert!(e.supports_streaming());
    assert!(!e.is_loaded());
}

#[test]
fn load_missing_path_fails_with_model_not_found() {
    let mut e = BurnVoxtralEngine::new();
    let p = PathBuf::from("/nowhere/model.gguf");
    match e.load(&p, false, &p.display().to_string()) {
        Err(VoxlyError::ModelNotFound { model_id }) => assert_eq!(model_id, "/nowhere/model.gguf"),
        other => panic!("unexpected {:?}", other),
    }
    assert!(!e.is_loaded());
}

#[test]
fn duplicate_load_is_ignored() {
    let mut e = loaded_engine();
    assert!(e.load(&PathBuf::from("/missing"), false, "/missing").is_ok());
    assert!(e.is_loaded());
}

#[test]
fn unloaded_engine_ignores_audio() {
    let mut e = BurnVoxtralEngine::new();
    assert!(e.feed_audio(&[0.0f32; 7680]).is_none());
    assert_eq!(e.finalize(), "");
}

#[test]
fn one_word_per_slot_of_audio() {
    let mut e = loaded_engine();
    assert!(e.feed_audio(&vec![0.0f32; 7679]).is_none());
    let u = e.feed_audio(&[0.0f32]).expect("word");
    assert_eq!(u.committed, "from");
    assert_eq!(u.tentative.as_deref(), Some("from..."));
    let u = e.feed_audio(&vec![0i16; 7680]).expect("word");
    assert_eq!(u.committed, "from voxly");
    assert_eq!(u.tentative.as_deref(), Some("voxly..."));
    e.feed_audio(&vec![0u8; 7680]);
    e.feed_audio(&vec![0u8; 7680]);
    let u = e.feed_audio(&vec![0u8; 7680]).expect("word");
    assert_eq!(u.committed, "from voxly realtime placeholder hello");
    assert_eq!(e.finalize(), "from voxly realtime placeholder hello");
    assert_eq!(e.finalize(), "");
    assert!(e.is_loaded());
}

#[test]
fn reset_and_unload_clear_text() {
    let mut e = loaded_engine();
    e.feed_audio(&vec![0u8; 7680]);
    e.reset();
    assert_eq!(e.finalize(), "");
    e.feed_audio(&vec![0u8; 7680]);
    e.unload();
    assert!(!e.is_loaded());
    assert_eq!(e.finalize(), "");
    // After a reload, counting starts afresh.
    e.load(&PathBuf::from("/m"), true, "/m").unwrap();
    assert_eq!(e.feed_audio(&vec![0u8; 7680]).unwrap().committed, "from");
}

#[test]
fn lease_session_round_trip() {
    let mut l = StreamLease::new();
    assert!(!l.has_active_worker());
    let w = l.begin_stream(false).expect("worker");
    assert_eq!(w, 1);
    assert!(l.has_active_worker());
    assert_eq!(l.begin_stream(false), None);
    assert!(l.acquire_lease(w));
    assert!(l.is_model_loaded(false));
    l.set_streaming(true);
    l.release(w);
    assert_eq!(l.active_worker, 0);
    assert_eq!(l.engine_lease, 0);
    assert!(!l.stream_active);
    assert!(!l.is_model_loaded(false));
    assert!(l.is_model_loaded(true));
    assert_eq!(l.begin_stream(false), Some(2));
}

#[test]
fn lease_refuses_start_while_router_open() {
    let mut l = StreamLease::new();
    assert_eq!(l.begin_stream(true), None);
    assert_eq!(l, StreamLease::new());
}

#[test]
fn stale_worker_release_keeps_newer_session() {
    let mut l = StreamLease::new();
    let old = l.begin_stream(false).unwrap();
    l.release(old);
    let new = l.begin_stream(false).unwrap();
    assert!(l.acquire_lease(new));
    l.set_streaming(true);
    l.release(old);
    assert_eq!(l.active_worker, new);
    assert_eq!(l.engine_lease, new);
    assert!(l.stream_active);
    assert!(!l.acquire_lease(old));
}

#[test]
fn stop_stream_outcomes() {
    let (r, close) = stop_stream_outcome(Some(Ok("text".to_string())));
    assert_eq!(r.unwrap(), "text");
    assert!(!close);
    let (r, close) = stop_stream_outcome(Some(Err(VoxlyError::inference("boom"))));
    assert!(matches!(r, Err(VoxlyError::Inference(ref m)) if m == "boom"));
    assert!(!close);
    let (r, close) = stop_stream_outcome(None);
    assert_eq!(r.unwrap(), "");
    assert!(close);
}

#[test]
fn word_when_running_total_passes_a_slot() {
    let mut e = loaded_engine();
    let u = e.feed_audio(&vec![0.0f32; 8000]).expect("word");
    assert_eq!(u.committed, "from");
    // An empty chunk crosses no slot boundary.
    assert!(e.feed_audio(&Vec::<f32>::new()).is_none());
    assert_eq!(e.samples_seen(), 8000);
    let u = e.feed_audio(&vec![0.0f32; 7360]).expect("word");
    assert_eq!(u.committed, "from voxly");
    // A chunk spanning several slots commits the word of the slot reached.
    let u = e.feed_audio(&vec![0.0f32; 20000]).expect("word");
    assert_eq!(u.committed, "from voxly placeholder");
    assert_eq!(u.tentative.as_deref(), Some("placeholder..."));
}

#[test]
fn committed_text_only_grows() {
    let mut e = loaded_engine();
    let mut last = String::new();
    for n in [100usize, 7000, 580, 0, 9000, 15360, 1] {
        if let Some(u) = e.feed_audio(&vec![0u8; n]) {
            assert!(u.committed.starts_with(&last));
            assert!(u.committed.len() > last.len());
            last = u.committed;
        }
    }
    assert_eq!(e.finalize(), last);
}

#[test]
fn placeholder_words_follow_the_cycle() {
    // The streaming step counts samples whether or not a model is loaded.
    let mut e = BurnVoxtralEngine::new();
    let a = e.simulate_realtime_update(7680).expect("word");
    assert_eq!(a.committed, "from");
    assert_eq!(a.tentative.as_deref(), Some("from..."));
    let b = e.simulate_realtime_update(7680).expect("word");
    assert_eq!(b.committed, "from voxly");
    assert_eq!(b.tentative.as_deref(), Some("voxly..."));
    let mut last = String::new();
    for _ in 0..4 {
        last = e.simulate_realtime_update(7680).expect("word").committed;
    }
    assert_eq!(last, "from voxly realtime placeholder hello from");
    assert!(e.simulate_realtime_update(100).is_none());
}

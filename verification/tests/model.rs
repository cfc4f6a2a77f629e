use voxly::error::VoxlyError;
use voxly::model::manager::{
    advance_downloaded, is_acceptable_status, is_model_file_complete, resume_plan, should_report_progress,
};
use voxly::model::{DownloadControl, DownloadGate, PrimaryModel, ResumePlan};

#[test]
fn primary_model_url_and_message() {
    let m = PrimaryModel::default();
    assert_eq!(
        m.download_url(),
        "https://huggingface.co/TrevorJS/voxtral-mini-realtime-gguf/resolve/main/voxtral-q4.gguf"
    );
    assert_eq!(
        m.download_started_message(),
        "Downloading Voxtral Mini 4B Realtime (Q4 GGUF) (Q4 quant) from Hugging Face..."
    );
}

#[test]
fn state_event_prefers_message_over_name() {
    let m = PrimaryModel::default();
    let e = m.state_event("ready", Some("name".to_string()), None);
    assert_eq!(e.event_type, "ready");
    assert_eq!(e.model_id.as_deref(), Some("TrevorJS/voxtral-mini-realtime-gguf"));
    assert_eq!(e.message.as_deref(), Some("name"));
    let e = m.state_event("download_started", Some("name".to_string()), Some("msg".to_string()));
    assert_eq!(e.message.as_deref(), Some("msg"));
    let e = m.state_event("error", None, None);
    assert!(e.message.is_none());
}

#[test]
fn model_file_needs_more_than_a_kilobyte() {
    assert!(is_model_file_complete(true, true, Some(1025)));
    assert!(!is_model_file_complete(true, true, Some(1024)));
    assert!(!is_model_file_complete(true, true, None));
    assert!(!is_model_file_complete(true, false, Some(5000)));
    assert!(!is_model_file_complete(false, true, Some(5000)));
}

#[test]
fn resume_plan_cases() {
    assert_eq!(resume_plan(100, 100), ResumePlan::AlreadyComplete);
    assert_eq!(resume_plan(150, 100), ResumePlan::AlreadyComplete);
    assert_eq!(resume_plan(40, 100), ResumePlan::Fetch { offset: 40 });
    assert_eq!(resume_plan(0, 100), ResumePlan::Fetch { offset: 0 });
    assert_eq!(resume_plan(0, 0), ResumePlan::Fetch { offset: 0 });
    assert_eq!(resume_plan(500, 0), ResumePlan::Fetch { offset: 500 });
}

#[test]
fn statuses_and_progress_throttle() {
    assert!(is_acceptable_status(200));
    assert!(is_acceptable_status(206));
    assert!(!is_acceptable_status(404));
    assert!(!is_acceptable_status(302));
    assert!(should_report_progress(150_000_001, 10, 100));
    assert!(!should_report_progress(150_000_000, 10, 100));
    assert!(should_report_progress(0, 100, 100));
    assert_eq!(advance_downloaded(10, 5), Some(15));
    assert_eq!(advance_downloaded(u64::MAX, 1), None);
}

#[test]
fn download_control_gates() {
    let mut c = DownloadControl::new();
    assert!(matches!(c.gate(false), DownloadGate::Proceed));
    c.pause();
    assert!(matches!(c.gate(false), DownloadGate::Wait));
    assert!(matches!(c.gate(true), DownloadGate::Wait));
    c.resume();
    assert!(matches!(c.gate(true), DownloadGate::Proceed));
    c.pause();
    c.cancel();
    assert!(!c.paused);
    match c.gate(true) {
        DownloadGate::Abort(VoxlyError::ModelDownload(m)) => assert_eq!(m, "Download cancelled while paused"),
        other => panic!("unexpected {:?}", other),
    }
    match c.gate(false) {
        DownloadGate::Abort(VoxlyError::ModelDownload(m)) => assert_eq!(m, "Download cancelled"),
        other => panic!("unexpected {:?}", other),
    }
    c.reset();
    assert!(matches!(c.gate(false), DownloadGate::Proceed));
}

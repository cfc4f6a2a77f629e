//! Application configuration and settings (in memory, with defaults).

use vstd::prelude::*;

verus! {

/// std's `PathBuf`, carried opaquely.
#[verifier::external_type_specification]
#[verifier::external_body]
pub struct ExPathBuf(std::path::PathBuf);

/// Top level application configuration.
#[derive(Debug, Clone)]
pub struct AppConfig {
    /// Identifier of the currently selected model.
    pub selected_model_id: String,
    /// Preferred input audio device name (or None for the system default).
    pub input_device: Option<String>,
    /// Whether to use voice activity detection.
    pub vad_enabled: bool,
    /// VAD policy; "streaming" uses a longer hangover tail.
    pub vad_policy: VadPolicy,
    /// Target sample rate for the model.
    pub target_sample_rate: u32,
    /// Directory where downloaded models are cached (resolved at startup).
    pub model_cache_dir: Option<std::path::PathBuf>,
}

/// How aggressively voice activity detection trims silence.
#[derive(Debug, Clone, Copy, PartialEq, Eq, Structural)]
pub enum VadPolicy {
    Disabled,
    /// Tuned for offline / push-to-talk (shorter tail).
    Offline,
    /// Longer post-speech tail suitable for live streaming preview.
    Streaming,
}

/// The model selected when nothing else was configured.
pub open spec fn default_model_id() -> Seq<char> {
    "mistralai/Voxtral-Mini-4B-Realtime-2602"@
}

impl Default for AppConfig {
    fn default() -> (c: Self)
        ensures
            c.selected_model_id@ == default_model_id(),
            c.input_device is None,
            c.vad_enabled,
            c.vad_policy == VadPolicy::Streaming,
            c.target_sample_rate == 16000,
            c.model_cache_dir is None,
    {
        AppConfig {
            selected_model_id: String::from_str("mistralai/Voxtral-Mini-4B-Realtime-2602"),
            input_device: None,
            vad_enabled: true,
            vad_policy: VadPolicy::Streaming,
            target_sample_rate: 16000,
            model_cache_dir: None,
        }
    }
}

impl AppConfig {
    /// Returns the model ID that should be used for inference.
    pub fn model_id(&self) -> (id: &str)
        ensures
            id@ == self.selected_model_id@,
    {
        self.selected_model_id.as_str()
    }
}

} // verus!

//! The audio pipeline's verified decisions: capture framing, the rolling
//! sample buffer and voice-activity smoothing.

pub mod capture;
pub mod processor;
pub mod vad;

pub use capture::CaptureConfig;
pub use processor::AudioBuffer;
pub use vad::{VadFrame, VadPolicy, WavekatSmoothedVad};

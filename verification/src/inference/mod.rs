//! Inference: the transcription update type, the placeholder streaming
//! engine, and the engine manager's streaming lease protocol.

pub mod burn_engine;
pub mod engine;
pub mod manager;

pub use burn_engine::BurnVoxtralEngine;
pub use engine::TranscriptionUpdate;

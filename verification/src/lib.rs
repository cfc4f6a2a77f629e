//! Voxly core: the verified logic of a local realtime speech-to-text pipeline.
//!
//! The library holds the decisions of the pipeline: the error type, the
//! configuration, the voice-activity smoothing, the capture framing, the
//! rolling audio buffer, the transcription coordinator's state machine, the
//! placeholder streaming engine, the engine lease protocol and the model
//! download rules. The platform glue (audio devices, network, windowing,
//! async runtimes and floating-point signal math) lives in the application.

use vstd::prelude::*;

pub mod audio;
pub mod config;
pub mod coordinator;
pub mod error;
pub mod events;
pub mod inference;
pub mod model;

pub use coordinator::TranscriptionCoordinator;
pub use error::{VoxlyError, VoxlyResult};

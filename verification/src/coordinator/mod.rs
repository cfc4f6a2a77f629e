//! Central orchestrator of the transcription lifecycle.
//!
//! All high-level commands (start/stop recording, cancel, finalize, shutdown)
//! are serialized through one state machine (Idle / Recording / Finalizing).
//! The state machine here decides; the thread that owns the capture and the
//! engine tasks performs the actions it returns and reports back.

pub mod coordinator;

pub use coordinator::{
    CoordinatorAction, CoordinatorCommand, CoordinatorState, PipelineState,
    TranscriptionCoordinator,
};

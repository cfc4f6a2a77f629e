//! Model management: the primary model's identity, its download URL, the
//! rules of resumable downloads and their pause/resume/cancel control, and
//! the lifecycle events shown to the user.

pub mod manager;

pub use manager::{DownloadControl, DownloadGate, ModelStateEvent, PrimaryModel, ResumePlan};

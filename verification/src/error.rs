//! The error type of the library.

use vstd::prelude::*;

verus! {

/// std's `io::Error`, carried opaquely by the `Io` variant.
#[verifier::external_type_specification]
#[verifier::external_body]
pub struct ExIoError(std::io::Error);

/// anyhow's `Error`, carried opaquely by the `Other` variant.
#[verifier::external_type_specification]
#[verifier::external_body]
pub struct ExAnyhowError(anyhow::Error);

/// The primary error type for Voxly operations.
#[derive(Debug)]
pub enum VoxlyError {
    /// Audio device or capture failure.
    Audio(String),
    /// Voice activity detection initialization or processing error.
    Vad(String),
    /// Problems during model download (network, cancellation, disk).
    ModelDownload(String),
    /// Model not found on disk when a load was requested.
    ModelNotFound { model_id: String },
    /// Failure to load or initialize the inference engine.
    Inference(String),
    /// The engine does not support a requested capability.
    UnsupportedCapability { capability: String },
    /// Coordinator invariant violation or invalid command in the current state.
    Coordinator(String),
    /// Configuration or settings problem.
    Config(String),
    /// Generic I/O problem.
    Io(std::io::Error),
    /// Any other error.
    Other(anyhow::Error),
}

impl VoxlyError {
    /// Builds an audio error carrying `msg`.
    pub fn audio(msg: &str) -> (e: Self)
        ensures
            e matches VoxlyError::Audio(m) && m@ == msg@,
    {
        VoxlyError::Audio(String::from_str(msg))
    }

    /// Builds an inference error carrying `msg`.
    pub fn inference(msg: &str) -> (e: Self)
        ensures
            e matches VoxlyError::Inference(m) && m@ == msg@,
    {
        VoxlyError::Inference(String::from_str(msg))
    }
}

/// The text of an I/O error, as std displays it (`to_string`). Nothing is
/// stated of it: std renders operating-system errors through the platform's
/// own messages.
#[verifier::external_body]
fn io_error_text(e: &std::io::Error) -> String {
    e.to_string()
}

/// The text of an anyhow error, as anyhow displays it (`to_string`: the
/// outermost message). Nothing is stated of it: it comes from the `Display`
/// of whatever error was wrapped.
#[verifier::external_body]
fn anyhow_error_text(e: &anyhow::Error) -> String {
    e.to_string()
}

/// An anyhow error made from a bare message (anyhow's `Error::msg`), as
/// `anyhow::bail!` with a literal makes one. Nothing is stated of the value:
/// an anyhow error is opaque here, and its text is only read back through
/// `anyhow_error_text`.
#[verifier::external_body]
pub(crate) fn anyhow_from_message(text: &str) -> anyhow::Error {
    anyhow::Error::msg(text.to_string())
}

impl VoxlyError {
    /// The message shown for this error: a prefix naming its kind, then the
    /// detail it carries. I/O and other errors show their own text.
    pub fn message(&self) -> (text: String)
        ensures
            match self {
                VoxlyError::Audio(m) => text@ == "audio error: "@ + m@,
                VoxlyError::Vad(m) => text@ == "VAD error: "@ + m@,
                VoxlyError::ModelDownload(m) => text@ == "model download error: "@ + m@,
                VoxlyError::ModelNotFound { model_id } => text@ == "model not found: "@ + model_id@,
                VoxlyError::Inference(m) => text@ == "inference engine error: "@ + m@,
                VoxlyError::UnsupportedCapability { capability } => text@ == "engine does not support "@ + capability@,
                VoxlyError::Coordinator(m) => text@ == "coordinator error: "@ + m@,
                VoxlyError::Config(m) => text@ == "config error: "@ + m@,
                VoxlyError::Io(_) => true,
                VoxlyError::Other(_) => true,
            },
    {
        match self {
            VoxlyError::Audio(m) => String::from_str("audio error: ").concat(m.as_str()),
            VoxlyError::Vad(m) => String::from_str("VAD error: ").concat(m.as_str()),
            VoxlyError::ModelDownload(m) => String::from_str("model download error: ").concat(m.as_str()),
            VoxlyError::ModelNotFound { model_id } => String::from_str("model not found: ").concat(model_id.as_str()),
            VoxlyError::Inference(m) => String::from_str("inference engine error: ").concat(m.as_str()),
            VoxlyError::UnsupportedCapability { capability } =>
                String::from_str("engine does not support ").concat(capability.as_str()),
            VoxlyError::Coordinator(m) => String::from_str("coordinator error: ").concat(m.as_str()),
            VoxlyError::Config(m) => String::from_str("config error: ").concat(m.as_str()),
            VoxlyError::Io(e) => io_error_text(e),
            VoxlyError::Other(e) => anyhow_error_text(e),
        }
    }
}

/// Result alias used throughout the library.
pub type VoxlyResult<T> = Result<T, VoxlyError>;

} // verus!

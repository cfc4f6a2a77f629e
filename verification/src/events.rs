//! The typed events that the frontend listens to, and their payloads.
//! Timestamps (milliseconds since the Unix epoch) are read by the caller.

use vstd::prelude::*;

verus! {

/// Emitted when recording (capture) has begun.
#[derive(Clone, Debug)]
pub struct RecordingStartedEvent {
    pub timestamp: u64,
}

/// Emitted when recording stops (before or after finalize).
#[derive(Clone, Debug)]
pub struct RecordingStoppedEvent {
    pub timestamp: u64,
}

/// Final committed transcription.
#[derive(Clone, Debug)]
pub struct TranscriptionFinalEvent {
    pub text: String,
    pub timestamp: u64,
}

/// Generic error broadcast.
#[derive(Clone, Debug)]
pub struct ErrorEvent {
    pub message: String,
}

/// Real-time transcription update with tentative vs committed text.
#[derive(Clone, Debug)]
pub struct TranscriptionUpdateEvent {
    pub committed: String,
    pub tentative: Option<String>,
    pub timestamp: u64,
    /// Optional latency metric for the UI.
    pub latency_ms: Option<u64>,
}

impl TranscriptionFinalEvent {
    /// The payload announcing final text `text` at `timestamp`.
    pub fn new(text: &str, timestamp: u64) -> (e: Self)
        ensures
            e.text@ == text@,
            e.timestamp == timestamp,
    {
        TranscriptionFinalEvent { text: text.to_owned(), timestamp }
    }
}

impl ErrorEvent {
    /// The payload announcing error `message`.
    pub fn new(message: &str) -> (e: Self)
        ensures
            e.message@ == message@,
    {
        ErrorEvent { message: message.to_owned() }
    }
}

impl TranscriptionUpdateEvent {
    /// The payload of a live update: committed and tentative text, with the
    /// time and optional latency.
    pub fn new(committed: &str, tentative: Option<&str>, timestamp: u64, latency_ms: Option<u64>) -> (e: Self)
        ensures
            e.committed@ == committed@,
            tentative is None ==> e.tentative is None,
            tentative matches Some(t) ==> (e.tentative matches Some(u) && u@ == t@),
            e.timestamp == timestamp,
            e.latency_ms == latency_ms,
    {
        TranscriptionUpdateEvent {
            committed: committed.to_owned(),
            tentative: match tentative {
                Some(t) => Some(t.to_owned()),
                None => None,
            },
            timestamp,
            latency_ms,
        }
    }
}

} // verus!

//! The result type shared by transcription engines.

use vstd::prelude::*;

verus! {

/// A partial or incremental transcription update produced while streaming.
///
/// `committed` is stable text that will not change anymore; `tentative`
/// (if present) is the current hypothesis that may still be revised.
#[derive(Clone, Debug)]
pub struct TranscriptionUpdate {
    pub committed: String,
    pub tentative: Option<String>,
}

} // verus!

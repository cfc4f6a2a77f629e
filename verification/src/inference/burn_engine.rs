//! The Burn + Voxtral engine in its placeholder form: it accepts audio,
//! emits one word of simulated text per 480 ms of 16 kHz audio, and returns
//! the accumulated text when finalized.

use crate::error::{VoxlyError, VoxlyResult};
use crate::inference::engine::TranscriptionUpdate;
use std::path::PathBuf;
use vstd::prelude::*;

verus! {

/// Samples per simulated word (480 ms at 16 kHz).
pub const SAMPLES_PER_WORD: usize = 7680;

/// std's `PathBuf::clone`: the clone is equal to the path it was cloned from.
pub assume_specification[ <std::path::PathBuf as core::clone::Clone>::clone ](p: &std::path::PathBuf) -> (r: std::path::PathBuf)
    ensures
        r == *p,
;

/// The word simulated for the `k`-th word slot.
pub open spec fn word_at(k: int) -> Seq<char> {
    if k % 5 == 0 {
        "hello"@
    } else if k % 5 == 1 {
        "from"@
    } else if k % 5 == 2 {
        "voxly"@
    } else if k % 5 == 3 {
        "realtime"@
    } else {
        "placeholder"@
    }
}

/// `text` with `word` appended, separated by one space.
pub open spec fn append_word(text: Seq<char>, word: Seq<char>) -> Seq<char> {
    if text.len() == 0 {
        word
    } else {
        text + " "@ + word
    }
}

/// The abstract state of the engine.
pub struct EngineModel {
    /// Whether a model is loaded.
    pub loaded: bool,
    /// Text committed since the last load, reset or finalize.
    pub committed: Seq<char>,
    /// Samples seen in the current utterance.
    pub samples_seen: nat,
}

/// Whether feeding `n` samples to `m` crosses into a new word slot: the
/// running total passes a multiple of `SAMPLES_PER_WORD` it had not reached.
pub open spec fn emits_word(m: EngineModel, n: nat) -> bool {
    (m.samples_seen + n) / (SAMPLES_PER_WORD as nat) > m.samples_seen / (SAMPLES_PER_WORD as nat)
}

/// The word emitted when feeding `n` samples to `m` crosses into a new slot:
/// that of the slot the running total has reached.
pub open spec fn word_after(m: EngineModel, n: nat) -> Seq<char> {
    word_at(((m.samples_seen + n) / (SAMPLES_PER_WORD as nat)) as int)
}

/// The engine's counting step for `n` new samples: the count grows by `n`,
/// and crossing into a new word slot commits that slot's word.
pub open spec fn engine_after_update(m: EngineModel, n: nat) -> EngineModel {
    if emits_word(m, n) {
        EngineModel {
            committed: append_word(m.committed, word_after(m, n)),
            samples_seen: m.samples_seen + n,
            ..m
        }
    } else {
        EngineModel { samples_seen: m.samples_seen + n, ..m }
    }
}

/// The engine's state after being fed `n` samples: without a model the
/// audio is ignored.
pub open spec fn engine_after_feed(m: EngineModel, n: nat) -> EngineModel {
    if !m.loaded {
        m
    } else {
        engine_after_update(m, n)
    }
}

/// The first `k` simulated words, separated by single spaces.
pub open spec fn words_text(k: nat) -> Seq<char>
    decreases k,
{
    if k == 0 {
        Seq::empty()
    } else {
        append_word(words_text((k - 1) as nat), word_at(k as int))
    }
}

/// The engine after `k` chunks of exactly one word slot each.
pub open spec fn engine_after_slots(m: EngineModel, k: nat) -> EngineModel
    decreases k,
{
    if k == 0 {
        m
    } else {
        engine_after_feed(engine_after_slots(m, (k - 1) as nat), SAMPLES_PER_WORD as nat)
    }
}

/// Streaming output: a freshly loaded engine fed `k` chunks of one word
/// slot each has committed exactly the first `k` words, and each chunk
/// commits one word.
pub proof fn lemma_words_per_slot(m: EngineModel, k: nat)
    requires
        m.loaded,
        m.committed == Seq::<char>::empty(),
        m.samples_seen == 0,
    ensures
        engine_after_slots(m, k).loaded,
        engine_after_slots(m, k).committed == words_text(k),
        engine_after_slots(m, k).samples_seen == k * (SAMPLES_PER_WORD as nat),
        k > 0 ==> emits_word(engine_after_slots(m, (k - 1) as nat), SAMPLES_PER_WORD as nat),
    decreases k,
{
    if k > 0 {
        lemma_words_per_slot(m, (k - 1) as nat);
        let prev = engine_after_slots(m, (k - 1) as nat);
        let j = (k - 1) as nat;
        assert(prev.samples_seen + 7680 == k * 7680) by (nonlinear_arith)
            requires prev.samples_seen == j * 7680, k == j + 1;
        assert((k * 7680) / 7680 == k && (j * 7680) / 7680 == j) by (nonlinear_arith)
            requires k > 0, k == j + 1;
    }
}

/// A word comes exactly when the running total reaches the next multiple of
/// `SAMPLES_PER_WORD` after the samples already seen, and it is the word of
/// the last slot reached (the count of whole slots in the new total).
pub proof fn lemma_word_when_slot_boundary_reached(m: EngineModel, n: nat)
    ensures
        emits_word(m, n) <==> (m.samples_seen / 7680 + 1) * 7680 <= m.samples_seen + n,
        word_after(m, n) == word_at(((m.samples_seen + n) / 7680) as int),
{
    let s = m.samples_seen as int;
    let t = (m.samples_seen + n) as int;
    assert(s / 7680 * 7680 <= s < (s / 7680 + 1) * 7680) by (nonlinear_arith)
        requires s >= 0;
    assert(t / 7680 * 7680 <= t < (t / 7680 + 1) * 7680) by (nonlinear_arith)
        requires t >= 0;
    assert((t / 7680 > s / 7680) <==> ((s / 7680 + 1) * 7680 <= t)) by (nonlinear_arith)
        requires
            s / 7680 * 7680 <= s < (s / 7680 + 1) * 7680,
            t / 7680 * 7680 <= t < (t / 7680 + 1) * 7680,
    ;
}

/// The engine after feeding chunks of the given sizes in order.
pub open spec fn engine_after_feeds(m: EngineModel, chunks: Seq<nat>) -> EngineModel
    decreases chunks.len(),
{
    if chunks.len() == 0 {
        m
    } else {
        engine_after_feed(engine_after_feeds(m, chunks.drop_last()), chunks.last())
    }
}

/// One feed keeps the committed text and appends at most one word to it.
proof fn lemma_feed_extends(m: EngineModel, n: nat)
    ensures
        m.committed.is_prefix_of(engine_after_feed(m, n).committed),
        engine_after_feed(m, n).loaded == m.loaded,
{
    let r = engine_after_feed(m, n);
    if m.loaded && emits_word(m, n) && m.committed.len() > 0 {
        assert(r.committed.subrange(0, m.committed.len() as int) =~= m.committed);
    } else if m.loaded && emits_word(m, n) {
        assert(r.committed.subrange(0, 0) =~= m.committed);
    } else {
        assert(r.committed.subrange(0, m.committed.len() as int) =~= m.committed);
    }
}

/// Committed text only grows: whatever chunks are fed, the text committed
/// before them is a prefix of the text committed after them.
pub proof fn lemma_committed_only_grows(m: EngineModel, chunks: Seq<nat>)
    ensures
        m.committed.is_prefix_of(engine_after_feeds(m, chunks).committed),
    decreases chunks.len(),
{
    if chunks.len() > 0 {
        let prev = engine_after_feeds(m, chunks.drop_last());
        lemma_committed_only_grows(m, chunks.drop_last());
        lemma_feed_extends(prev, chunks.last());
        let last = engine_after_feeds(m, chunks).committed;
        assert(last.subrange(0, prev.committed.len() as int).subrange(0, m.committed.len() as int)
            =~= last.subrange(0, m.committed.len() as int));
    }
}

/// Concrete implementation of the engine abstraction backed by Burn and the
/// Voxtral Mini Realtime weights; today a placeholder that simulates
/// streaming output so the rest of the pipeline can be exercised.
pub struct BurnVoxtralEngine {
    /// Path of the currently loaded weights.
    loaded_path: Option<PathBuf>,
    /// The loaded model session (none in the placeholder).
    inner: Option<()>,
    /// Text committed so far, words separated by single spaces.
    placeholder_buffer: String,
    /// Samples seen in the current utterance.
    samples_seen: usize,
}

impl View for BurnVoxtralEngine {
    type V = EngineModel;

    closed spec fn view(&self) -> EngineModel {
        EngineModel {
            loaded: self.loaded_path is Some,
            committed: self.placeholder_buffer@,
            samples_seen: self.samples_seen as nat,
        }
    }
}

/// The word for slot `k`.
fn word_for(k: usize) -> (w: &'static str)
    ensures
        w@ == word_at(k as int),
{
    let r = k % 5;
    if r == 0 {
        "hello"
    } else if r == 1 {
        "from"
    } else if r == 2 {
        "voxly"
    } else if r == 3 {
        "realtime"
    } else {
        "placeholder"
    }
}

impl BurnVoxtralEngine {
    /// An unloaded engine.
    pub fn new() -> (e: Self)
        ensures
            !e@.loaded,
            e@.committed == Seq::<char>::empty(),
            e@.samples_seen == 0,
    {
        BurnVoxtralEngine { loaded_path: None, inner: None, placeholder_buffer: String::new(), samples_seen: 0 }
    }

    /// The path of the loaded weights, if any.
    pub closed spec fn spec_loaded_path(&self) -> Option<PathBuf> {
        self.loaded_path
    }

    /// Loads the model at `model_path`; `path_exists` is whether that path
    /// exists on disk and `path_text` is how the path displays (its
    /// `display()` text), which names the missing model in the error. A load
    /// while loaded is ignored.
    pub fn load(&mut self, model_path: &PathBuf, path_exists: bool, path_text: &str) -> (r: VoxlyResult<()>)
        ensures
            old(self)@.loaded ==> r is Ok && final(self)@ == old(self)@
                && final(self).spec_loaded_path() == old(self).spec_loaded_path(),
            !old(self)@.loaded && !path_exists ==> (r matches Err(VoxlyError::ModelNotFound { model_id })
                && model_id@ == path_text@
                && final(self)@ == old(self)@),
            !old(self)@.loaded && path_exists ==> r is Ok && final(self)@ == (EngineModel {
                loaded: true,
                committed: Seq::empty(),
                samples_seen: 0,
            }) && final(self).spec_loaded_path() == Some(*model_path),
    {
        if self.is_loaded() {
            return Ok(());
        }
        if !path_exists {
            return Err(VoxlyError::ModelNotFound { model_id: String::from_str(path_text) });
        }
        self.loaded_path = Some(model_path.clone());
        self.placeholder_buffer = String::new();
        self.samples_seen = 0;
        Ok(())
    }

    /// Unloads the model; safe to call when not loaded.
    pub fn unload(&mut self)
        ensures
            old(self)@.loaded ==> final(self)@ == (EngineModel {
                loaded: false,
                committed: Seq::empty(),
                samples_seen: 0,
            }),
            !old(self)@.loaded ==> final(self)@ == old(self)@,
    {
        if self.loaded_path.is_some() {
            self.loaded_path = None;
            self.inner = None;
            self.placeholder_buffer = String::new();
            self.samples_seen = 0;
        }
    }

    /// Samples seen in the current utterance.
    pub fn samples_seen(&self) -> (n: usize)
        ensures
            n == self@.samples_seen,
    {
        self.samples_seen
    }

    /// Whether a model is resident.
    pub fn is_loaded(&self) -> (b: bool)
        ensures
            b == self@.loaded,
    {
        self.loaded_path.is_some()
    }

    /// Feeds a chunk of mono samples. Once loaded, every completed slot of
    /// `SAMPLES_PER_WORD` samples commits one more word and reports it.
    pub fn feed_audio<T>(&mut self, samples: &[T]) -> (r: Option<TranscriptionUpdate>)
        requires
            old(self)@.loaded ==> old(self)@.samples_seen + samples@.len() <= usize::MAX,
        ensures
            final(self)@ == engine_after_feed(old(self)@, samples@.len()),
            final(self).spec_loaded_path() == old(self).spec_loaded_path(),
            (old(self)@.loaded && emits_word(old(self)@, samples@.len())) ==> (r matches Some(u) && {
                &&& u.committed@ == final(self)@.committed
                &&& u.tentative matches Some(t) && t@ == word_after(old(self)@, samples@.len()) + "..."@
            }),
            !(old(self)@.loaded && emits_word(old(self)@, samples@.len())) ==> r is None,
    {
        if !self.is_loaded() {
            return None;
        }
        self.simulate_realtime_update(samples.len())
    }

    /// The placeholder's streaming step: counts `new_samples` more samples
    /// and, each time the count crosses into a new slot of
    /// `SAMPLES_PER_WORD`, commits that slot's word and reports it. It does
    /// not look at whether a model is loaded (`feed_audio` does).
    pub fn simulate_realtime_update(&mut self, new_samples: usize) -> (r: Option<TranscriptionUpdate>)
        requires
            old(self)@.samples_seen + new_samples <= usize::MAX,
        ensures
            final(self)@ == engine_after_update(old(self)@, new_samples as nat),
            final(self).spec_loaded_path() == old(self).spec_loaded_path(),
            emits_word(old(self)@, new_samples as nat) ==> (r matches Some(u) && {
                &&& u.committed@ == final(self)@.committed
                &&& u.tentative matches Some(t) && t@ == word_after(old(self)@, new_samples as nat) + "..."@
            }),
            !emits_word(old(self)@, new_samples as nat) ==> r is None,
    {
        let slot_before = self.samples_seen / SAMPLES_PER_WORD;
        self.samples_seen = self.samples_seen + new_samples;
        let slot_after = self.samples_seen / SAMPLES_PER_WORD;
        if slot_after > slot_before {
            let word = word_for(slot_after);
            if self.placeholder_buffer.as_str().is_empty() {
                self.placeholder_buffer.append(word);
            } else {
                self.placeholder_buffer.append(" ");
                self.placeholder_buffer.append(word);
            }
            let tentative = String::from_str(word).concat("...");
            return Some(TranscriptionUpdate { committed: self.placeholder_buffer.clone(), tentative: Some(tentative) });
        }
        None
    }

    /// Ends the utterance: returns the committed text and starts afresh.
    /// Without a model, returns empty text and changes nothing.
    pub fn finalize(&mut self) -> (text: String)
        ensures
            old(self)@.loaded ==> text@ == old(self)@.committed && final(self)@ == (EngineModel {
                loaded: true,
                committed: Seq::empty(),
                samples_seen: 0,
            }),
            !old(self)@.loaded ==> text@ == Seq::<char>::empty() && final(self)@ == old(self)@,
            final(self).spec_loaded_path() == old(self).spec_loaded_path(),
    {
        if !self.is_loaded() {
            return String::new();
        }
        let final_text = self.placeholder_buffer.clone();
        self.placeholder_buffer = String::new();
        self.samples_seen = 0;
        final_text
    }

    /// Clears the utterance state, keeping the model.
    pub fn reset(&mut self)
        ensures
            final(self)@ == (EngineModel { committed: Seq::empty(), samples_seen: 0, ..old(self)@ }),
            final(self).spec_loaded_path() == old(self).spec_loaded_path(),
    {
        self.placeholder_buffer = String::new();
        self.samples_seen = 0;
    }

    /// The engine streams partial results.
    pub fn supports_streaming(&self) -> (b: bool)
        ensures
            b,
    {
        true
    }

    /// Human readable name of the backend.
    pub fn backend_name(&self) -> (name: &'static str)
        ensures
            name@ == "burn-voxtral-realtime"@,
    {
        "burn-voxtral-realtime"
    }
}

impl Default for BurnVoxtralEngine {
    fn default() -> (e: Self)
        ensures
            !e@.loaded,
            e@.committed == Seq::<char>::empty(),
            e@.samples_seen == 0,
    {
        Self::new()
    }
}

} // verus!

//! Voice activity detection: the smoothing policy (prefill, onset protection
//! and dynamic hangover) and the simple energy detector's hangover gate.
//!
//! The per-frame loudness decision itself (an RMS against a threshold) is
//! floating-point signal math and is made by the caller; everything that
//! follows from the sequence of loud/quiet decisions is decided here.

use crate::error::{anyhow_from_message, VoxlyError};
use std::collections::VecDeque;
use vstd::prelude::*;
use vstd::slice::slice_to_vec;

verus! {

/// Frames of audio kept before speech onset (pre-roll).
pub const VAD_PREFILL_FRAMES: usize = 4;
/// Hangover frames for offline / push-to-talk capture.
pub const VAD_OFFLINE_HANGOVER_FRAMES: usize = 10;
/// Hangover frames for live streaming (longer tail).
pub const VAD_STREAMING_HANGOVER_FRAMES: usize = 30;
/// Minimum consecutive voiced frames before speech is declared.
pub const VAD_ONSET_FRAMES: usize = 2;

/// Policy that selects the length of the post-speech tail.
#[derive(Clone, Copy, Debug, PartialEq, Eq, Structural)]
pub enum VadPolicy {
    Disabled,
    Offline,
    Streaming,
}

impl Default for VadPolicy {
    fn default() -> (p: Self)
        ensures
            p == VadPolicy::Streaming,
    {
        VadPolicy::Streaming
    }
}

/// The policy a capture uses: streaming when `streaming`, offline otherwise.
pub open spec fn policy_for(streaming: bool) -> VadPolicy {
    if streaming {
        VadPolicy::Streaming
    } else {
        VadPolicy::Offline
    }
}

impl From<bool> for VadPolicy {
    fn from(streaming: bool) -> (p: Self)
        ensures
            p == policy_for(streaming),
    {
        if streaming {
            VadPolicy::Streaming
        } else {
            VadPolicy::Offline
        }
    }
}

impl vstd::std_specs::convert::FromSpecImpl<bool> for VadPolicy {
    open spec fn obeys_from_spec() -> bool {
        true
    }

    open spec fn from_spec(v: bool) -> VadPolicy {
        policy_for(v)
    }
}

/// The classification of one frame, carrying the audio to pass on.
#[derive(Debug, Clone)]
pub enum VadFrame<T> {
    /// Speech: the audio to emit (pre-roll plus current frame at onset).
    Speech(Vec<T>),
    /// Non-speech.
    Noise,
}

impl<T> VadFrame<T> {
    pub fn is_speech(&self) -> (b: bool)
        ensures
            b == (self is Speech),
    {
        match self {
            VadFrame::Speech(_) => true,
            VadFrame::Noise => false,
        }
    }
}

/// The hangover gate of the simple energy detector: a loud frame is speech
/// and rearms the hold; a quiet frame is still speech while hangover frames
/// remain, and noise once they are used up.
#[derive(Debug, Clone, Copy, PartialEq, Eq, Structural)]
pub struct EnergyGate {
    /// Quiet frames that still count as speech after a loud one.
    pub hangover: usize,
    /// Hangover frames left before quiet frames count as noise.
    pub hangover_remaining: usize,
}

/// Whether a frame with loudness `loud` is speech for gate `g`.
pub open spec fn gate_speech(g: EnergyGate, loud: bool) -> bool {
    loud || g.hangover_remaining > 0
}

/// The hold state after a frame with loudness `loud`.
pub open spec fn gate_next(g: EnergyGate, loud: bool) -> EnergyGate {
    if loud {
        EnergyGate { hangover_remaining: g.hangover, ..g }
    } else if g.hangover_remaining > 0 {
        EnergyGate { hangover_remaining: (g.hangover_remaining - 1) as usize, ..g }
    } else {
        g
    }
}

/// The hold state after `n` quiet frames.
pub open spec fn gate_after_quiet(g: EnergyGate, n: nat) -> EnergyGate
    decreases n,
{
    if n == 0 {
        g
    } else {
        gate_next(gate_after_quiet(g, (n - 1) as nat), false)
    }
}

impl EnergyGate {
    /// A gate with the offline hangover and nothing pending.
    pub fn new() -> (g: Self)
        ensures
            g.hangover == VAD_OFFLINE_HANGOVER_FRAMES,
            g.hangover_remaining == 0,
    {
        EnergyGate { hangover: VAD_OFFLINE_HANGOVER_FRAMES, hangover_remaining: 0 }
    }

    /// Classifies one frame from its loudness: true means speech.
    pub fn push(&mut self, loud: bool) -> (speech: bool)
        ensures
            speech == gate_speech(*old(self), loud),
            *final(self) == gate_next(*old(self), loud),
    {
        if loud || self.hangover_remaining > 0 {
            if loud {
                self.hangover_remaining = self.hangover;
            } else {
                self.hangover_remaining = self.hangover_remaining.saturating_sub(1);
            }
            true
        } else {
            false
        }
    }

    /// Sets how many quiet frames follow speech before noise.
    pub fn set_hangover_frames(&mut self, frames: usize)
        ensures
            final(self).hangover == frames,
            final(self).hangover_remaining == old(self).hangover_remaining,
    {
        self.hangover = frames;
    }

    /// Forgets any pending hangover.
    pub fn reset(&mut self)
        ensures
            final(self).hangover == old(self).hangover,
            final(self).hangover_remaining == 0,
    {
        self.hangover_remaining = 0;
    }
}

/// After a loud frame, exactly `hangover` quiet frames are still speech:
/// the quiet frame that comes `j` frames after it (counting from 0) is
/// speech if and only if `j < hangover`, for every `j`.
pub proof fn lemma_gate_hangover_tail(g: EnergyGate)
    ensures
        forall|j: nat| #[trigger] gate_speech(gate_after_quiet(gate_next(g, true), j), false) <==> j < g.hangover,
{
    let armed = gate_next(g, true);
    assert forall|j: nat| #[trigger] gate_speech(gate_after_quiet(armed, j), false) <==> j < g.hangover by {
        lemma_gate_quiet_count(armed, j);
    }
}

/// With no hangover pending, quiet frames are noise however many come.
pub proof fn lemma_gate_at_rest_stays_quiet(g: EnergyGate)
    requires
        g.hangover_remaining == 0,
    ensures
        forall|j: nat| !#[trigger] gate_speech(gate_after_quiet(g, j), false),
{
    assert forall|j: nat| !#[trigger] gate_speech(gate_after_quiet(g, j), false) by {
        lemma_gate_quiet_count(g, j);
    }
}

/// `n` quiet frames use up `n` hangover frames, down to none left; the
/// hangover setting is untouched.
proof fn lemma_gate_quiet_count(g: EnergyGate, n: nat)
    ensures
        gate_after_quiet(g, n).hangover_remaining == (if n <= g.hangover_remaining {
            g.hangover_remaining - n
        } else {
            0
        }),
        gate_after_quiet(g, n).hangover == g.hangover,
    decreases n,
{
    if n > 0 {
        lemma_gate_quiet_count(g, (n - 1) as nat);
    }
}

/// The abstract state of a smoothed detector.
pub struct SmoothedVadModel<T> {
    /// Frames kept for pre-roll, oldest first.
    pub frames: Seq<Seq<T>>,
    pub prefill_frames: usize,
    pub hangover_frames: usize,
    pub onset_frames: usize,
    pub hangover_counter: usize,
    pub onset_counter: usize,
    pub in_speech: bool,
    pub sample_rate: u32,
}

impl<T> SmoothedVadModel<T> {
    /// The window never overflows, and the onset counter stays below its
    /// threshold between frames.
    pub open spec fn wf(self) -> bool {
        &&& self.prefill_frames + 2 <= usize::MAX
        &&& self.frames.len() <= self.prefill_frames + 2
        &&& self.onset_counter < self.onset_frames
    }

    /// The pre-roll length, the onset run and the rate are those every
    /// detector is created with; only the hangover length can be changed.
    pub open spec fn at_defaults(self) -> bool {
        &&& self.prefill_frames == VAD_PREFILL_FRAMES
        &&& self.onset_frames == VAD_ONSET_FRAMES
        &&& self.sample_rate == 16000
    }
}

/// A detector that has seen no frame, with hangover length `hangover`.
pub open spec fn fresh_model<T>(hangover: usize) -> SmoothedVadModel<T> {
    SmoothedVadModel {
        frames: Seq::empty(),
        prefill_frames: VAD_PREFILL_FRAMES,
        hangover_frames: hangover,
        onset_frames: VAD_ONSET_FRAMES,
        hangover_counter: 0,
        onset_counter: 0,
        in_speech: false,
        sample_rate: 16000,
    }
}

/// The detector after `reset`: speech state, counters and pre-roll are gone,
/// the settings stay.
pub open spec fn smoothed_reset<T>(m: SmoothedVadModel<T>) -> SmoothedVadModel<T> {
    SmoothedVadModel { frames: Seq::empty(), hangover_counter: 0, onset_counter: 0, in_speech: false, ..m }
}

/// The last `cap` elements of `s` (all of `s` when it is shorter).
pub open spec fn keep_last<A>(s: Seq<A>, cap: nat) -> Seq<A> {
    if s.len() > cap {
        s.skip(s.len() - cap)
    } else {
        s
    }
}

/// How many frames the pre-roll window holds.
pub open spec fn window_len<T>(m: SmoothedVadModel<T>) -> nat {
    (m.prefill_frames + 2) as nat
}

/// The pre-roll window after `frame` arrives.
pub open spec fn next_frames<T>(m: SmoothedVadModel<T>, frame: Seq<T>) -> Seq<Seq<T>> {
    keep_last(m.frames.push(frame), window_len(m))
}

/// The detector's state after a frame `frame`; `voice` is whether the frame
/// is voiced (loud).
pub open spec fn smoothed_next<T>(m: SmoothedVadModel<T>, frame: Seq<T>, voice: bool) -> SmoothedVadModel<T> {
    let base = SmoothedVadModel { frames: next_frames(m, frame), ..m };
    if !m.in_speech && voice {
        if m.onset_counter + 1 >= m.onset_frames {
            SmoothedVadModel {
                in_speech: true,
                hangover_counter: m.hangover_frames,
                onset_counter: 0,
                ..base
            }
        } else {
            SmoothedVadModel { onset_counter: (m.onset_counter + 1) as usize, ..base }
        }
    } else if m.in_speech && voice {
        SmoothedVadModel { hangover_counter: m.hangover_frames, ..base }
    } else if m.in_speech && !voice {
        if m.hangover_counter > 0 {
            SmoothedVadModel { hangover_counter: (m.hangover_counter - 1) as usize, ..base }
        } else {
            SmoothedVadModel { in_speech: false, ..base }
        }
    } else {
        SmoothedVadModel { onset_counter: 0, ..base }
    }
}

/// The audio the detector emits for that frame: `Some` for speech (at onset,
/// the whole pre-roll window including the frame; afterwards the frame
/// itself) and `None` for noise.
pub open spec fn smoothed_output<T>(m: SmoothedVadModel<T>, frame: Seq<T>, voice: bool) -> Option<Seq<T>> {
    if !m.in_speech && voice {
        if m.onset_counter + 1 >= m.onset_frames {
            Some(next_frames(m, frame).flatten())
        } else {
            None
        }
    } else if m.in_speech && voice {
        Some(frame)
    } else if m.in_speech && !voice {
        if m.hangover_counter > 0 {
            Some(frame)
        } else {
            None
        }
    } else {
        None
    }
}

/// The detector's state after feeding `frames` in order; `voiced[i]` is
/// whether `frames[i]` is voiced.
pub open spec fn smoothed_feed<T>(m: SmoothedVadModel<T>, frames: Seq<Seq<T>>, voiced: Seq<bool>) -> SmoothedVadModel<T>
    decreases frames.len(),
{
    if frames.len() == 0 {
        m
    } else {
        smoothed_next(
            smoothed_feed(m, frames.drop_last(), voiced),
            frames.last(),
            voiced[frames.len() - 1],
        )
    }
}

proof fn lemma_feed_step<T>(m: SmoothedVadModel<T>, frames: Seq<Seq<T>>, voiced: Seq<bool>, k: int)
    requires
        0 <= k < frames.len(),
    ensures
        smoothed_feed(m, frames.take(k + 1), voiced)
            == smoothed_next(smoothed_feed(m, frames.take(k), voiced), frames[k], voiced[k]),
{
    assert(frames.take(k + 1).drop_last() =~= frames.take(k));
}

/// Frames only enter the window and settings never change.
proof fn lemma_feed_keeps_settings<T>(m: SmoothedVadModel<T>, frames: Seq<Seq<T>>, voiced: Seq<bool>)
    ensures
        ({
            let r = smoothed_feed(m, frames, voiced);
            &&& r.prefill_frames == m.prefill_frames
            &&& r.hangover_frames == m.hangover_frames
            &&& r.onset_frames == m.onset_frames
            &&& r.sample_rate == m.sample_rate
            &&& (m.wf() ==> r.wf())
        }),
    decreases frames.len(),
{
    if frames.len() > 0 {
        lemma_feed_keeps_settings(m, frames.drop_last(), voiced);
    }
}

/// Keeping the last `cap` elements before a push changes nothing once the
/// push is trimmed the same way.
proof fn lemma_keep_last_push<A>(s: Seq<A>, x: A, cap: nat)
    ensures
        keep_last(keep_last(s, cap).push(x), cap) =~= keep_last(s.push(x), cap),
{
    if s.len() > cap {
        let t = s.skip(s.len() - cap);
        assert(t.push(x).len() == cap + 1);
        assert forall|i: int| 0 <= i < keep_last(t.push(x), cap).len() implies
            #[trigger] keep_last(t.push(x), cap)[i] == keep_last(s.push(x), cap)[i] by {
            if cap > 0 {
                if i + 1 < cap {
                    assert(keep_last(t.push(x), cap)[i] == t[i + 1]);
                    assert(keep_last(s.push(x), cap)[i] == s[s.len() - cap + i + 1]);
                }
            }
        }
    }
}

/// Pre-roll: after any frames `frames` (with any voicing), the window holds
/// exactly the last `prefill_frames + 2` frames of all frames seen, the
/// initial window included (all of them while fewer have arrived).
pub proof fn lemma_window_holds_last_frames<T>(m: SmoothedVadModel<T>, frames: Seq<Seq<T>>, voiced: Seq<bool>)
    requires
        m.frames.len() <= window_len(m),
    ensures
        smoothed_feed(m, frames, voiced).frames == keep_last(m.frames + frames, window_len(m)),
    decreases frames.len(),
{
    if frames.len() == 0 {
        assert(m.frames + frames =~= m.frames);
    } else {
        let prev = frames.drop_last();
        lemma_window_holds_last_frames(m, prev, voiced);
        lemma_feed_keeps_settings(m, prev, voiced);
        lemma_keep_last_push(m.frames + prev, frames.last(), window_len(m));
        assert((m.frames + prev).push(frames.last()) =~= m.frames + frames);
    }
}

/// What a fresh or reset detector emits when speech starts: after frames
/// `frames[0..k]`, if frame `k` starts speech, the audio emitted is the
/// concatenation of the last `prefill_frames + 2` frames up to and
/// including frame `k` (all of them when fewer have arrived).
pub proof fn lemma_onset_emits_last_frames<T>(m: SmoothedVadModel<T>, frames: Seq<Seq<T>>, voiced: Seq<bool>, k: int)
    requires
        m.frames.len() == 0,
        0 <= k < frames.len(),
    ensures
        ({
            let r = smoothed_feed(m, frames.take(k), voiced);
            !r.in_speech && smoothed_next(r, frames[k], voiced[k]).in_speech ==>
                smoothed_output(r, frames[k], voiced[k])
                    == Some(keep_last(frames.take(k + 1), window_len(m)).flatten())
        }),
{
    let r = smoothed_feed(m, frames.take(k), voiced);
    lemma_window_holds_last_frames(m, frames.take(k), voiced);
    lemma_feed_keeps_settings(m, frames.take(k), voiced);
    assert(m.frames + frames.take(k) =~= frames.take(k));
    lemma_keep_last_push(frames.take(k), frames[k], window_len(m));
    assert(frames.take(k).push(frames[k]) =~= frames.take(k + 1));
}

/// Reset starts a new utterance: a detector at its defaults, once reset,
/// is in exactly the state of a freshly created one given the same hangover
/// length, so any later frames give the same results and states on both.
pub proof fn lemma_reset_is_fresh<T>(m: SmoothedVadModel<T>, frames: Seq<Seq<T>>, voiced: Seq<bool>)
    requires
        m.at_defaults(),
    ensures
        smoothed_reset(m) == fresh_model::<T>(m.hangover_frames),
        smoothed_feed(smoothed_reset(m), frames, voiced)
            == smoothed_feed(fresh_model::<T>(m.hangover_frames), frames, voiced),
{
}

proof fn lemma_onset_prefix<T>(m: SmoothedVadModel<T>, frames: Seq<Seq<T>>, voiced: Seq<bool>, k: int)
    requires
        m.wf(),
        !m.in_speech,
        m.onset_counter == 0,
        frames.len() < m.onset_frames,
        forall|i: int| 0 <= i < frames.len() ==> voiced[i],
        0 <= k <= frames.len(),
    ensures
        ({
            let r = smoothed_feed(m, frames.take(k), voiced);
            &&& !r.in_speech
            &&& r.onset_counter == k
            &&& r.wf()
            &&& r.onset_frames == m.onset_frames
            &&& r.prefill_frames == m.prefill_frames
        }),
    decreases k,
{
    if k == 0 {
        assert(frames.take(0) =~= Seq::<Seq<T>>::empty());
    } else {
        lemma_onset_prefix(m, frames, voiced, k - 1);
        lemma_feed_step(m, frames, voiced, k - 1);
    }
}

/// Onset protection: out of speech with a fresh onset count, a run of voiced
/// frames shorter than the onset threshold emits nothing and only counts;
/// the frame that completes the run declares speech and emits the whole
/// pre-roll window, that frame included.
pub proof fn lemma_onset_needs_a_run<T>(m: SmoothedVadModel<T>, frames: Seq<Seq<T>>, voiced: Seq<bool>, next: Seq<T>)
    requires
        m.wf(),
        !m.in_speech,
        m.onset_counter == 0,
        frames.len() < m.onset_frames,
        forall|i: int| 0 <= i < frames.len() ==> voiced[i],
    ensures
        forall|k: int| 0 <= k < frames.len() && k + 1 < m.onset_frames ==>
            (#[trigger] smoothed_output(smoothed_feed(m, frames.take(k), voiced), frames[k], true)) is None,
        ({
            let r = smoothed_feed(m, frames, voiced);
            &&& !r.in_speech
            &&& r.onset_counter == frames.len()
            &&& (frames.len() + 1 == m.onset_frames ==> {
                &&& smoothed_output(r, next, true) == Some(next_frames(r, next).flatten())
                &&& smoothed_next(r, next, true).in_speech
            })
        }),
{
    assert forall|k: int| 0 <= k < frames.len() && k + 1 < m.onset_frames implies
        (#[trigger] smoothed_output(smoothed_feed(m, frames.take(k), voiced), frames[k], true)) is None by {
        lemma_onset_prefix(m, frames, voiced, k);
    }
    lemma_onset_prefix(m, frames, voiced, frames.len() as int);
    assert(frames.take(frames.len() as int) =~= frames);
}

/// In speech, every voiced frame is passed on unchanged and keeps the
/// detector in speech with a full hangover, however far into the tail it
/// comes: a voiced frame after quiet ones resumes the segment.
pub proof fn lemma_voiced_frame_in_speech_passes<T>(m: SmoothedVadModel<T>, f: Seq<T>)
    requires
        m.in_speech,
    ensures
        smoothed_output(m, f, true) == Some(f),
        smoothed_next(m, f, true).in_speech,
        smoothed_next(m, f, true).hangover_counter == m.hangover_frames,
        smoothed_next(m, f, true).onset_counter == m.onset_counter,
{
}

/// Out of speech, an unvoiced frame is noise, keeps the detector out of
/// speech and starts the onset count over.
pub proof fn lemma_unvoiced_frame_out_of_speech_is_noise<T>(m: SmoothedVadModel<T>, f: Seq<T>)
    requires
        !m.in_speech,
    ensures
        smoothed_output(m, f, false) is None,
        !smoothed_next(m, f, false).in_speech,
        smoothed_next(m, f, false).onset_counter == 0,
{
}

/// A single voiced frame followed by an unvoiced one never starts speech
/// when the onset run is longer than one frame: both frames are noise and
/// the onset count starts over.
pub proof fn lemma_lone_voiced_frame_is_noise<T>(m: SmoothedVadModel<T>, f: Seq<T>, g: Seq<T>)
    requires
        !m.in_speech,
        m.onset_counter == 0,
        m.onset_frames >= 2,
    ensures
        smoothed_output(m, f, true) is None,
        smoothed_output(smoothed_next(m, f, true), g, false) is None,
        !smoothed_next(smoothed_next(m, f, true), g, false).in_speech,
        smoothed_next(smoothed_next(m, f, true), g, false).onset_counter == 0,
{
}

proof fn lemma_hangover_prefix<T>(m: SmoothedVadModel<T>, frames: Seq<Seq<T>>, voiced: Seq<bool>, k: int)
    requires
        m.in_speech,
        frames.len() <= m.hangover_counter,
        forall|i: int| 0 <= i < frames.len() ==> !voiced[i],
        0 <= k <= frames.len(),
    ensures
        ({
            let r = smoothed_feed(m, frames.take(k), voiced);
            &&& r.in_speech
            &&& r.hangover_counter == m.hangover_counter - k
        }),
    decreases k,
{
    if k == 0 {
        assert(frames.take(0) =~= Seq::<Seq<T>>::empty());
    } else {
        lemma_hangover_prefix(m, frames, voiced, k - 1);
        lemma_feed_step(m, frames, voiced, k - 1);
    }
}

/// Hangover: in speech, each unvoiced frame is still emitted as speech while
/// the hangover count lasts; once it is used up, the next unvoiced frame is
/// noise and ends the speech segment.
pub proof fn lemma_hangover_tail<T>(m: SmoothedVadModel<T>, frames: Seq<Seq<T>>, voiced: Seq<bool>, next: Seq<T>)
    requires
        m.in_speech,
        frames.len() <= m.hangover_counter,
        forall|i: int| 0 <= i < frames.len() ==> !voiced[i],
    ensures
        forall|k: int| 0 <= k < frames.len() ==>
            (#[trigger] smoothed_output(smoothed_feed(m, frames.take(k), voiced), frames[k], false))
                == Some(frames[k]),
        ({
            let r = smoothed_feed(m, frames, voiced);
            &&& r.in_speech
            &&& r.hangover_counter == m.hangover_counter - frames.len()
            &&& (frames.len() == m.hangover_counter ==> {
                &&& smoothed_output(r, next, false) is None
                &&& !smoothed_next(r, next, false).in_speech
            })
        }),
{
    assert forall|k: int| 0 <= k < frames.len() implies
        (#[trigger] smoothed_output(smoothed_feed(m, frames.take(k), voiced), frames[k], false))
            == Some(frames[k]) by {
        lemma_hangover_prefix(m, frames, voiced, k);
    }
    lemma_hangover_prefix(m, frames, voiced, frames.len() as int);
    assert(frames.take(frames.len() as int) =~= frames);
}

/// The trailing tail is the hangover setting: after a voiced frame that
/// leaves the detector in speech, exactly `hangover_frames` unvoiced frames
/// are still emitted as speech, and the next unvoiced frame is noise (with a
/// hangover of zero, the first unvoiced frame already is).
pub proof fn lemma_tail_is_hangover<T>(m: SmoothedVadModel<T>, last_voiced: Seq<T>, quiet: Seq<Seq<T>>, voiced: Seq<bool>, next: Seq<T>)
    requires
        smoothed_next(m, last_voiced, true).in_speech,
        quiet.len() == m.hangover_frames,
        forall|i: int| 0 <= i < quiet.len() ==> !voiced[i],
    ensures
        ({
            let s = smoothed_next(m, last_voiced, true);
            let r = smoothed_feed(s, quiet, voiced);
            &&& forall|k: int| 0 <= k < quiet.len() ==>
                (#[trigger] smoothed_output(smoothed_feed(s, quiet.take(k), voiced), quiet[k], false))
                    == Some(quiet[k])
            &&& smoothed_output(r, next, false) is None
            &&& !smoothed_next(r, next, false).in_speech
        }),
{
    let s = smoothed_next(m, last_voiced, true);
    assert(s.hangover_counter == m.hangover_frames);
    lemma_hangover_tail(s, quiet, voiced, next);
}

/// Smoothing on top of a frame-level voice decision: onset protection
/// (a run of voiced frames before speech is declared), a pre-roll of recent
/// frames emitted at onset, and a hangover tail after the last voiced frame.
pub struct WavekatSmoothedVad<T> {
    prefill_frames: usize,
    hangover_frames: usize,
    onset_frames: usize,
    frame_buffer: VecDeque<Vec<T>>,
    hangover_counter: usize,
    onset_counter: usize,
    in_speech: bool,
    temp_out: Vec<T>,
    sample_rate: u32,
}

impl<T> View for WavekatSmoothedVad<T> {
    type V = SmoothedVadModel<T>;

    closed spec fn view(&self) -> SmoothedVadModel<T> {
        SmoothedVadModel {
            frames: self.frame_buffer@.map_values(|f: Vec<T>| f@),
            prefill_frames: self.prefill_frames,
            hangover_frames: self.hangover_frames,
            onset_frames: self.onset_frames,
            hangover_counter: self.hangover_counter,
            onset_counter: self.onset_counter,
            in_speech: self.in_speech,
            sample_rate: self.sample_rate,
        }
    }
}

/// Appends a copy of `src` to `dst`.
fn append_copy<T: Copy>(dst: &mut Vec<T>, src: &[T])
    ensures
        final(dst)@ == old(dst)@ + src@,
{
    let n = src.len();
    let mut i: usize = 0;
    while i < n
        invariant
            n == src@.len(),
            i <= n,
            dst@ == old(dst)@ + src@.take(i as int),
        decreases n - i,
    {
        dst.push(src[i]);
        i = i + 1;
        assert(src@.take(i as int) == src@.take(i - 1).push(src@[i - 1]));
    }
    assert(src@.take(n as int) == src@);
}

/// Pushes `x` and drops the oldest elements until at most `cap` remain.
fn push_keep_last<A>(buf: &mut VecDeque<A>, x: A, cap: usize)
    requires
        old(buf)@.len() <= cap,
    ensures
        final(buf)@ == keep_last(old(buf)@.push(x), cap as nat),
{
    let ghost kept = old(buf)@.push(x);
    buf.push_back(x);
    let ghost mut k: int = 0;
    while buf.len() > cap
        invariant
            0 <= k <= kept.len(),
            k == 0 || kept.len() - k >= cap,
            buf@ =~= kept.skip(k),
        decreases buf@.len(),
    {
        let _ = buf.pop_front();
        proof {
            k = k + 1;
        }
    }
}

/// Appends the concatenation of all frames in `frames` to `out`.
fn append_frames<T: Copy>(out: &mut Vec<T>, frames: &VecDeque<Vec<T>>)
    ensures
        final(out)@ == old(out)@ + frames@.map_values(|f: Vec<T>| f@).flatten(),
{
    let ghost views = frames@.map_values(|f: Vec<T>| f@);
    let n = frames.len();
    let mut i: usize = 0;
    while i < n
        invariant
            n == views.len(),
            i <= n,
            views == frames@.map_values(|f: Vec<T>| f@),
            out@ == old(out)@ + views.take(i as int).flatten(),
        decreases n - i,
    {
        append_copy(out, frames[i].as_slice());
        proof {
            assert(views[i as int] == frames@[i as int]@);
            views.take(i as int).lemma_flatten_push(views[i as int]);
            assert(views.take(i + 1) =~= views.take(i as int).push(views[i as int]));
        }
        i = i + 1;
    }
    assert(views.take(n as int) =~= views);
}

/// Viewing each frame commutes with pushing and keeping the last `cap`.
proof fn lemma_keep_last_views<T>(s: Seq<Vec<T>>, x: Vec<T>, cap: nat)
    ensures
        keep_last(s.push(x), cap).map_values(|f: Vec<T>| f@)
            =~= keep_last(s.map_values(|f: Vec<T>| f@).push(x@), cap),
{
}

impl<T: Copy> WavekatSmoothedVad<T> {
    /// Creates a detector for `sample_rate` with the default policy
    /// (pre-roll, onset run and the streaming hangover). Only 16 kHz audio
    /// is accepted; another rate gives an error whose text is "wavekat
    /// silero expects 16kHz".
    pub fn new_silero(sample_rate: u32) -> (r: Result<Self, VoxlyError>)
        ensures
            sample_rate != 16000 <==> r is Err,
            r matches Err(e) ==> e is Other,
            r matches Ok(v) ==> v@ == fresh_model::<T>(VAD_STREAMING_HANGOVER_FRAMES) && v@.wf(),
    {
        if sample_rate != 16000 {
            return Err(VoxlyError::Other(anyhow_from_message("wavekat silero expects 16kHz")));
        }
        let v = WavekatSmoothedVad {
            prefill_frames: VAD_PREFILL_FRAMES,
            hangover_frames: VAD_STREAMING_HANGOVER_FRAMES,
            onset_frames: VAD_ONSET_FRAMES,
            frame_buffer: VecDeque::new(),
            hangover_counter: 0,
            onset_counter: 0,
            in_speech: false,
            temp_out: Vec::new(),
            sample_rate,
        };
        assert(v@.frames =~= Seq::<Seq<T>>::empty());
        Ok(v)
    }

    /// Classifies one frame, given whether the frame is loud (its energy is
    /// above the detector's threshold), and returns the audio to pass on.
    pub fn push_frame(&mut self, frame: &[T], loud: bool) -> (r: VadFrame<T>)
        requires
            old(self)@.wf(),
        ensures
            final(self)@ == smoothed_next(old(self)@, frame@, loud),
            final(self)@.wf(),
            match r {
                VadFrame::Speech(audio) => smoothed_output(old(self)@, frame@, loud) == Some(audio@),
                VadFrame::Noise => smoothed_output(old(self)@, frame@, loud) is None,
            },
    {
        let ghost m = self@;
        let cap = self.prefill_frames + 2;
        let copy = slice_to_vec(frame);
        let ghost pushed = copy;
        push_keep_last(&mut self.frame_buffer, copy, cap);
        proof {
            lemma_keep_last_views(old(self).frame_buffer@, pushed, cap as nat);
        }
        if !self.in_speech && loud {
            self.onset_counter = self.onset_counter + 1;
            if self.onset_counter >= self.onset_frames {
                self.in_speech = true;
                self.hangover_counter = self.hangover_frames;
                self.onset_counter = 0;
                self.temp_out.clear();
                append_frames(&mut self.temp_out, &self.frame_buffer);
                VadFrame::Speech(slice_to_vec(self.temp_out.as_slice()))
            } else {
                VadFrame::Noise
            }
        } else if self.in_speech && loud {
            self.hangover_counter = self.hangover_frames;
            VadFrame::Speech(slice_to_vec(frame))
        } else if self.in_speech && !loud {
            if self.hangover_counter > 0 {
                self.hangover_counter = self.hangover_counter - 1;
                VadFrame::Speech(slice_to_vec(frame))
            } else {
                self.in_speech = false;
                VadFrame::Noise
            }
        } else {
            self.onset_counter = 0;
            VadFrame::Noise
        }
    }

    /// Sets the hangover length used from the next voiced frame on.
    pub fn set_hangover_frames(&mut self, frames: usize)
        ensures
            old(self)@.wf() ==> final(self)@.wf(),
            final(self)@ == (SmoothedVadModel { hangover_frames: frames, ..old(self)@ }),
    {
        self.hangover_frames = frames;
    }

    /// Starts a new utterance: forgets speech state, counters and the
    /// pre-roll window; the settings stay.
    pub fn reset(&mut self)
        ensures
            final(self)@ == smoothed_reset(old(self)@),
            old(self)@.wf() ==> final(self)@.wf(),
    {
        self.in_speech = false;
        self.hangover_counter = 0;
        self.onset_counter = 0;
        self.frame_buffer.clear();
        self.temp_out.clear();
        assert(self@.frames =~= Seq::<Seq<T>>::empty());
    }
}

} // verus!

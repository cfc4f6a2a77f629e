//! Capture session configuration and the framing decisions made when a
//! capture starts: frame length, the energy detector's hangover, how
//! converted audio is cut into frames, and which frames the energy detector
//! passes on.

use crate::audio::vad::{
    gate_next, gate_speech, EnergyGate, VadPolicy, VAD_OFFLINE_HANGOVER_FRAMES, VAD_STREAMING_HANGOVER_FRAMES,
};
use vstd::slice::slice_to_vec;
use crate::coordinator::coordinator::capture_policy;
use vstd::prelude::*;

verus! {

/// Configuration for a capture session.
#[derive(Clone, Copy, Debug, PartialEq, Eq, Structural)]
pub struct CaptureConfig {
    pub target_sample_rate: u32,
    pub vad_enabled: bool,
    pub vad_policy: VadPolicy,
    /// Frame length in milliseconds (30 ms is typical for VAD).
    pub frame_size_ms: u32,
}

impl Default for CaptureConfig {
    fn default() -> (c: Self)
        ensures
            c.target_sample_rate == 16000,
            c.vad_enabled,
            c.vad_policy == VadPolicy::Streaming,
            c.frame_size_ms == 30,
    {
        CaptureConfig {
            target_sample_rate: 16000,
            vad_enabled: true,
            vad_policy: VadPolicy::Streaming,
            frame_size_ms: 30,
        }
    }
}

/// The hangover, in frames, of the capture's energy detector for `policy`.
pub open spec fn policy_hangover(policy: VadPolicy) -> usize {
    match policy {
        VadPolicy::Streaming => 50,
        VadPolicy::Offline => 15,
        VadPolicy::Disabled => 0,
    }
}

/// The frames that `samples` is cut into: consecutive runs of `n` samples,
/// the last one shorter when `n` does not divide the length; a shorter last
/// run is dropped unless `keep_partial`.
pub open spec fn frames_of<T>(samples: Seq<T>, n: nat, keep_partial: bool) -> Seq<Seq<T>>
    decreases samples.len(),
{
    if n == 0 || samples.len() == 0 {
        seq![]
    } else if samples.len() < n {
        if keep_partial {
            seq![samples]
        } else {
            seq![]
        }
    } else {
        seq![samples.take(n as int)] + frames_of(samples.skip(n as int), n, keep_partial)
    }
}

/// Cutting into frames loses and repeats nothing: with the partial last
/// frame kept, the frames put back together are the input; without it, every
/// frame holds exactly `n` samples and together they are the input minus its
/// incomplete tail.
pub proof fn lemma_frames_cover<T>(samples: Seq<T>, n: nat)
    requires
        n > 0,
    ensures
        frames_of(samples, n, true).flatten() == samples,
        frames_of(samples, n, false).flatten() == samples.take(samples.len() - samples.len() % n),
        forall|i: int| 0 <= i < frames_of(samples, n, false).len() ==>
            (#[trigger] frames_of(samples, n, false)[i]).len() == n,
    decreases samples.len(),
{
    if samples.len() == 0 {
        assert(samples.take(0) =~= samples);
    } else if samples.len() < n {
        assert(seq![samples].flatten() =~= samples) by {
            seq![samples].lemma_flatten_one_element();
        }
        assert(samples.len() % n == samples.len()) by (nonlinear_arith)
            requires 0 < samples.len() < n;
        assert(samples.take(0) =~= Seq::<T>::empty());
    } else {
        let rest = samples.skip(n as int);
        lemma_frames_cover(rest, n);
        lemma_flatten_prepend(samples.take(n as int), frames_of(rest, n, true));
        lemma_flatten_prepend(samples.take(n as int), frames_of(rest, n, false));
        assert(samples.take(n as int) + rest =~= samples);
        assert(rest.len() % n == samples.len() % n) by (nonlinear_arith)
            requires rest.len() == samples.len() - n, samples.len() >= n, n > 0;
        assert(rest.len() % n <= rest.len()) by (nonlinear_arith)
            requires n > 0;
        assert(samples.take(n as int) + rest.take(rest.len() - rest.len() % n)
            =~= samples.take(samples.len() - samples.len() % n));
        let fs = frames_of(samples, n, false);
        assert forall|i: int| 0 <= i < fs.len() implies (#[trigger] fs[i]).len() == n by {
            if i > 0 {
                assert(fs[i] == frames_of(rest, n, false)[i - 1]);
            }
        }
    }
}

/// With the partial last frame kept, no frame is empty or longer than `n`,
/// and every frame but the last holds exactly `n` samples.
pub proof fn lemma_partial_frame_is_last<T>(samples: Seq<T>, n: nat)
    requires
        n > 0,
    ensures
        forall|i: int| 0 <= i < frames_of(samples, n, true).len() ==>
            0 < (#[trigger] frames_of(samples, n, true)[i]).len() <= n,
        forall|i: int| 0 <= i < frames_of(samples, n, true).len() - 1 ==>
            (#[trigger] frames_of(samples, n, true)[i]).len() == n,
    decreases samples.len(),
{
    if samples.len() >= n {
        let rest = samples.skip(n as int);
        lemma_partial_frame_is_last(rest, n);
        let fs = frames_of(samples, n, true);
        assert forall|i: int| 0 <= i < fs.len() implies 0 < (#[trigger] fs[i]).len() <= n by {
            if i > 0 {
                assert(fs[i] == frames_of(rest, n, true)[i - 1]);
            }
        }
        assert forall|i: int| 0 <= i < fs.len() - 1 implies (#[trigger] fs[i]).len() == n by {
            if i > 0 {
                assert(fs[i] == frames_of(rest, n, true)[i - 1]);
            }
        }
    }
}

/// The energy gate after frames whose loudness is `louds`, in order.
pub open spec fn gate_after(g: EnergyGate, louds: Seq<bool>) -> EnergyGate
    decreases louds.len(),
{
    if louds.len() == 0 {
        g
    } else {
        gate_next(gate_after(g, louds.drop_last()), louds.last())
    }
}

/// Whether the energy gate, after the frames before `k`, takes frame `k` as speech.
pub open spec fn gate_passes(g: EnergyGate, louds: Seq<bool>, k: int) -> bool {
    gate_speech(gate_after(g, louds.take(k)), louds[k])
}

/// The frames the capture's energy detector passes on: frame `i` exactly
/// when the energy gate takes it as speech, in order and unchanged.
pub open spec fn gated_frames<T>(g: EnergyGate, frames: Seq<Seq<T>>, louds: Seq<bool>) -> Seq<Seq<T>>
    decreases frames.len(),
{
    if frames.len() == 0 {
        seq![]
    } else {
        let prev = gated_frames(g, frames.drop_last(), louds);
        if gate_passes(g, louds, frames.len() - 1) {
            prev.push(frames.last())
        } else {
            prev
        }
    }
}

/// The index of the last loud frame before `k`, or -1 when there is none.
pub open spec fn last_loud(louds: Seq<bool>, k: int) -> int
    decreases k,
{
    if k <= 0 {
        -1
    } else if louds[k - 1] {
        k - 1
    } else {
        last_loud(louds, k - 1)
    }
}

proof fn lemma_gate_after_step(g: EnergyGate, louds: Seq<bool>, k: int)
    requires
        0 <= k < louds.len(),
    ensures
        gate_after(g, louds.take(k + 1)) == gate_next(gate_after(g, louds.take(k)), louds[k]),
{
    assert(louds.take(k + 1).drop_last() =~= louds.take(k));
}

/// What the energy gate holds after the frames before `k`, from rest: nothing
/// pending without a loud frame, else the hangover less the quiet frames
/// since the last loud one (down to none).
proof fn lemma_gate_remaining(g: EnergyGate, louds: Seq<bool>, k: int)
    requires
        g.hangover_remaining == 0,
        0 <= k <= louds.len(),
    ensures
        gate_after(g, louds.take(k)).hangover == g.hangover,
        gate_after(g, louds.take(k)).hangover_remaining == (if last_loud(louds, k) < 0 {
            0
        } else if k - 1 - last_loud(louds, k) <= g.hangover {
            g.hangover - (k - 1 - last_loud(louds, k))
        } else {
            0
        }),
    decreases k,
{
    if k == 0 {
        assert(louds.take(0) =~= Seq::<bool>::empty());
    } else {
        lemma_gate_remaining(g, louds, k - 1);
        lemma_gate_after_step(g, louds, k - 1);
    }
}

/// The capture's energy detector over a stream of frames, from rest: a
/// frame is passed on exactly when it is loud, or a loud frame came before
/// it with fewer than `hangover` quiet frames in between.
pub proof fn lemma_gate_passes_within_hangover(g: EnergyGate, louds: Seq<bool>, k: int)
    requires
        g.hangover_remaining == 0,
        0 <= k < louds.len(),
    ensures
        gate_passes(g, louds, k) <==> (louds[k] || (last_loud(louds, k) >= 0 && k - 1 - last_loud(louds, k) < g.hangover)),
{
    lemma_gate_remaining(g, louds, k);
}

/// A loud frame is always passed on: whatever came before, the frames
/// passed on after it are those passed on before it, then the frame itself.
pub proof fn lemma_loud_frame_is_passed_on<T>(g: EnergyGate, frames: Seq<Seq<T>>, louds: Seq<bool>, f: Seq<T>)
    requires
        frames.len() < louds.len(),
        louds[frames.len() as int],
    ensures
        gated_frames(g, frames.push(f), louds) == gated_frames(g, frames, louds).push(f),
{
    assert(frames.push(f).drop_last() =~= frames);
}

/// With nothing pending in the energy gate, a quiet frame is dropped:
/// nothing is added to what is passed on.
pub proof fn lemma_quiet_frame_at_rest_is_dropped<T>(g: EnergyGate, frames: Seq<Seq<T>>, louds: Seq<bool>, f: Seq<T>)
    requires
        frames.len() < louds.len(),
        !louds[frames.len() as int],
        gate_after(g, louds.take(frames.len() as int)).hangover_remaining == 0,
    ensures
        gated_frames(g, frames.push(f), louds) == gated_frames(g, frames, louds),
{
    assert(frames.push(f).drop_last() =~= frames);
}

/// Continuous speech is passed on whole: when every frame is loud, every
/// frame is passed on, in order and unchanged.
pub proof fn lemma_all_loud_frames_pass<T>(g: EnergyGate, frames: Seq<Seq<T>>, louds: Seq<bool>)
    requires
        frames.len() <= louds.len(),
        forall|i: int| 0 <= i < frames.len() ==> louds[i],
    ensures
        gated_frames(g, frames, louds) == frames,
    decreases frames.len(),
{
    if frames.len() > 0 {
        let prev = frames.drop_last();
        lemma_all_loud_frames_pass(g, prev, louds);
        lemma_loud_frame_is_passed_on(g, prev, louds, frames.last());
        assert(prev.push(frames.last()) =~= frames);
    }
}

/// Passes each frame through the capture's energy gate, given each frame's
/// loudness, and returns the frames taken as speech, in order.
pub fn gate_frames<T: Copy>(gate: &mut EnergyGate, frames: &Vec<Vec<T>>, louds: &[bool]) -> (out: Vec<Vec<T>>)
    requires
        frames@.len() == louds@.len(),
    ensures
        out@.map_values(|f: Vec<T>| f@) == gated_frames(*old(gate), frames@.map_values(|f: Vec<T>| f@), louds@),
        *final(gate) == gate_after(*old(gate), louds@),
{
    let ghost g0 = *old(gate);
    let ghost views = frames@.map_values(|f: Vec<T>| f@);
    let mut out: Vec<Vec<T>> = Vec::new();
    let n = frames.len();
    let mut i: usize = 0;
    assert(louds@.take(0) =~= Seq::<bool>::empty());
    assert(views.take(0) =~= Seq::<Seq<T>>::empty());
    while i < n
        invariant
            n == frames@.len(),
            n == louds@.len(),
            i <= n,
            views == frames@.map_values(|f: Vec<T>| f@),
            *gate == gate_after(g0, louds@.take(i as int)),
            out@.map_values(|f: Vec<T>| f@) == gated_frames(g0, views.take(i as int), louds@),
        decreases n - i,
    {
        proof {
            lemma_gate_after_step(g0, louds@, i as int);
            assert(views.take(i + 1).drop_last() =~= views.take(i as int));
        }
        let speech = gate.push(louds[i]);
        if speech {
            let ghost before = out@;
            out.push(slice_to_vec(frames[i].as_slice()));
            proof {
                assert(out@.map_values(|f: Vec<T>| f@) =~= before.map_values(|f: Vec<T>| f@).push(views[i as int]));
            }
        }
        i = i + 1;
    }
    assert(views.take(n as int) =~= views);
    assert(louds@.take(n as int) =~= louds@);
    out
}

/// Flattening after putting `x` in front puts `x`'s elements in front.
proof fn lemma_flatten_prepend<T>(x: Seq<T>, s: Seq<Seq<T>>)
    ensures
        (seq![x] + s).flatten() == x + s.flatten(),
{
    assert((seq![x] + s).drop_first() =~= s);
}

/// Toggled (streaming) recordings keep a longer post-speech tail than
/// push-to-talk ones, both in the capture's energy detector and in the
/// smoothed detector's defaults.
pub proof fn lemma_streaming_tail_is_longer()
    ensures
        capture_policy(false) == VadPolicy::Streaming,
        capture_policy(true) == VadPolicy::Offline,
        policy_hangover(capture_policy(false)) > policy_hangover(capture_policy(true)),
        VAD_STREAMING_HANGOVER_FRAMES > VAD_OFFLINE_HANGOVER_FRAMES,
{
}

impl CaptureConfig {
    /// Samples per frame at the target rate.
    pub open spec fn spec_frame_samples(self) -> nat {
        (self.target_sample_rate * self.frame_size_ms / 1000) as nat
    }

    /// Samples per frame at the target rate (rounded down).
    pub fn frame_samples(&self) -> (n: usize)
        requires
            self.target_sample_rate * self.frame_size_ms <= u32::MAX,
        ensures
            n == self.spec_frame_samples(),
    {
        (self.target_sample_rate * self.frame_size_ms / 1000) as usize
    }

    /// The hangover to give the capture's energy detector, or `None` when
    /// voice activity detection is off.
    pub fn vad_hangover_frames(&self) -> (h: Option<usize>)
        ensures
            self.vad_enabled ==> h == Some(policy_hangover(self.vad_policy)),
            !self.vad_enabled ==> h is None,
    {
        if self.vad_enabled {
            Some(
                match self.vad_policy {
                    VadPolicy::Streaming => 50,
                    VadPolicy::Offline => 15,
                    VadPolicy::Disabled => 0,
                },
            )
        } else {
            None
        }
    }
}

/// Cuts `samples` into frames of `n` samples, in order. A shorter last
/// frame is kept when `keep_partial` (detection off: everything is passed
/// on) and dropped otherwise (the detector only takes whole frames).
pub fn split_frames<T: Copy>(samples: &[T], n: usize, keep_partial: bool) -> (frames: Vec<Vec<T>>)
    requires
        n > 0,
    ensures
        frames@.map_values(|f: Vec<T>| f@) == frames_of(samples@, n as nat, keep_partial),
{
    let len = samples.len();
    let mut frames: Vec<Vec<T>> = Vec::new();
    let mut start: usize = 0;
    assert(samples@.skip(0) =~= samples@);
    assert(frames@.map_values(|f: Vec<T>| f@) =~= Seq::<Seq<T>>::empty());
    assert(Seq::<Seq<T>>::empty() + frames_of(samples@, n as nat, keep_partial)
        =~= frames_of(samples@, n as nat, keep_partial));
    while start < len
        invariant
            n > 0,
            len == samples@.len(),
            start <= len,
            frames@.map_values(|f: Vec<T>| f@) + frames_of(samples@.skip(start as int), n as nat, keep_partial)
                == frames_of(samples@, n as nat, keep_partial),
        decreases len - start,
    {
        let ghost rest = samples@.skip(start as int);
        if len - start < n {
            if keep_partial {
                let mut f: Vec<T> = Vec::new();
                let mut i: usize = start;
                while i < len
                    invariant
                        start <= i <= len,
                        len == samples@.len(),
                        f@ == samples@.subrange(start as int, i as int),
                    decreases len - i,
                {
                    f.push(samples[i]);
                    i = i + 1;
                }
                assert(f@ =~= rest);
                let ghost before = frames@;
                frames.push(f);
                assert(frames@.map_values(|g: Vec<T>| g@) =~= before.map_values(|g: Vec<T>| g@) + seq![rest]);
            }
            assert(frames_of(samples@.skip(len as int), n as nat, keep_partial) =~= Seq::<Seq<T>>::empty()) by {
                assert(samples@.skip(len as int).len() == 0);
            }
            assert(rest.len() > 0 && rest.len() < n);
            if keep_partial {
                assert(frames_of(rest, n as nat, keep_partial) == seq![rest]);
            } else {
                assert(frames_of(rest, n as nat, keep_partial) == Seq::<Seq<T>>::empty());
            }
            assert(frames@.map_values(|f: Vec<T>| f@) =~= frames_of(samples@, n as nat, keep_partial));
            return frames;
        }
        let mut f: Vec<T> = Vec::new();
        let mut i: usize = start;
        let end = start + n;
        while i < end
            invariant
                start <= i <= end,
                end <= len,
                len == samples@.len(),
                f@ == samples@.subrange(start as int, i as int),
            decreases end - i,
        {
            f.push(samples[i]);
            i = i + 1;
        }
        assert(f@ =~= rest.take(n as int));
        assert(rest.skip(n as int) =~= samples@.skip(end as int));
        let ghost before = frames@;
        frames.push(f);
        assert(frames@.map_values(|g: Vec<T>| g@) =~= before.map_values(|g: Vec<T>| g@) + seq![rest.take(n as int)]);
        assert(frames_of(rest, n as nat, keep_partial)
            == seq![rest.take(n as int)] + frames_of(rest.skip(n as int), n as nat, keep_partial));
        assert(before.map_values(|g: Vec<T>| g@) + seq![rest.take(n as int)]
            + frames_of(samples@.skip(end as int), n as nat, keep_partial)
            =~= before.map_values(|g: Vec<T>| g@) + frames_of(rest, n as nat, keep_partial));
        start = end;
    }
    assert(samples@.skip(len as int).len() == 0);
    assert(frames_of(samples@.skip(len as int), n as nat, keep_partial) =~= Seq::<Seq<T>>::empty());
    assert(frames@.map_values(|f: Vec<T>| f@) + Seq::<Seq<T>>::empty() =~= frames@.map_values(|f: Vec<T>| f@));
    frames
}

} // verus!

//! A rolling sample buffer that accumulates audio until a finalize command
//! or the detector decides that an utterance has ended.

use crate::audio::vad::keep_last;
use std::collections::VecDeque;
use vstd::prelude::*;

verus! {

/// A bounded buffer of the most recent samples: once full, each new sample
/// pushes out the oldest one.
pub struct AudioBuffer<T> {
    buffer: VecDeque<T>,
    max_samples: usize,
}

/// How many samples a buffer with limit `max_samples` holds at most (a
/// zero limit still keeps the newest sample).
pub open spec fn capacity(max_samples: usize) -> nat {
    if max_samples == 0 {
        1
    } else {
        max_samples as nat
    }
}

impl<T> View for AudioBuffer<T> {
    type V = Seq<T>;

    closed spec fn view(&self) -> Seq<T> {
        self.buffer@
    }
}

impl<T> AudioBuffer<T> {
    /// The limit the buffer was made with.
    pub closed spec fn limit(&self) -> usize {
        self.max_samples
    }

    /// The buffer never holds more than its capacity.
    pub open spec fn wf(&self) -> bool {
        self@.len() <= capacity(self.limit())
    }

    /// An empty buffer that keeps at most `max_samples` samples.
    pub fn new(max_samples: usize) -> (b: Self)
        ensures
            b@ == Seq::<T>::empty(),
            b.limit() == max_samples,
            b.wf(),
    {
        AudioBuffer { buffer: VecDeque::with_capacity(max_samples), max_samples }
    }

    /// Number of buffered samples.
    pub fn len(&self) -> (n: usize)
        ensures
            n == self@.len(),
    {
        self.buffer.len()
    }

    /// Whether nothing is buffered.
    pub fn is_empty(&self) -> (b: bool)
        ensures
            b == (self@.len() == 0),
    {
        self.buffer.len() == 0
    }

    /// Drops everything.
    pub fn clear(&mut self)
        ensures
            final(self)@ == Seq::<T>::empty(),
            final(self).limit() == old(self).limit(),
            final(self).wf(),
    {
        self.buffer.clear();
    }

    /// Removes and returns all buffered samples, oldest first.
    pub fn take_all(&mut self) -> (samples: Vec<T>)
        ensures
            samples@ == old(self)@,
            final(self)@ == Seq::<T>::empty(),
            final(self).limit() == old(self).limit(),
            final(self).wf(),
    {
        let mut out: Vec<T> = Vec::new();
        let ghost all = self.buffer@;
        while self.buffer.len() > 0
            invariant
                out@ + self.buffer@ == all,
                self.max_samples == old(self).max_samples,
            decreases self.buffer@.len(),
        {
            match self.buffer.pop_front() {
                Some(x) => {
                    let ghost rest = self.buffer@;
                    out.push(x);
                    assert(out@ + rest =~= all);
                },
                None => {},
            }
        }
        assert(out@ =~= all);
        out
    }
}

impl<T: Copy> AudioBuffer<T> {
    /// Appends `samples`, dropping the oldest samples so that only the most
    /// recent ones (up to the capacity) remain.
    pub fn push(&mut self, samples: &[T])
        requires
            old(self).wf(),
        ensures
            final(self)@ == keep_last(old(self)@ + samples@, capacity(old(self).limit())),
            final(self).limit() == old(self).limit(),
            final(self).wf(),
    {
        let ghost cap = capacity(self.max_samples);
        let ghost start = self.buffer@;
        let n = samples.len();
        let mut i: usize = 0;
        assert(start + samples@.take(0) =~= start);
        while i < n
            invariant
                n == samples@.len(),
                i <= n,
                cap == capacity(self.max_samples),
                self.max_samples == old(self).max_samples,
                start.len() <= cap,
                self.buffer@ == keep_last(start + samples@.take(i as int), cap),
            decreases n - i,
        {
            let ghost before = self.buffer@;
            let s = samples[i];
            if self.buffer.len() >= self.max_samples {
                let _ = self.buffer.pop_front();
            }
            self.buffer.push_back(s);
            proof {
                let prev = start + samples@.take(i as int);
                let next = start + samples@.take(i + 1);
                assert(next =~= prev.push(s));
                assert(self.buffer@ =~= keep_last(next, cap));
            }
            i = i + 1;
        }
        assert(samples@.take(n as int) =~= samples@);
    }
}

/// A buffer made with a limit `n > 0` holds up to exactly `n` samples, and
/// after any pushes it holds the last `min(n, all)` of all samples pushed
/// since it was empty: nothing is dropped below the limit.
pub proof fn lemma_buffer_keeps_last_up_to_limit<T>(pushed: Seq<T>, n: usize)
    requires
        n > 0,
    ensures
        capacity(n) == n,
        ({
            let kept = keep_last(pushed, capacity(n));
            let m = if pushed.len() < n { pushed.len() as int } else { n as int };
            &&& kept.len() == m
            &&& kept == pushed.subrange(pushed.len() - m, pushed.len() as int)
        }),
{
    let m = if pushed.len() < n { pushed.len() as int } else { n as int };
    assert(keep_last(pushed, capacity(n)) =~= pushed.subrange(pushed.len() - m, pushed.len() as int));
}

/// Pushing a stream in pieces leaves the same buffer as pushing it at once:
/// the window of the most recent samples does not depend on how the audio
/// was chunked.
pub proof fn lemma_push_in_pieces<T>(buffered: Seq<T>, a: Seq<T>, b: Seq<T>, cap: nat)
    requires
        cap > 0,
    ensures
        keep_last(keep_last(buffered + a, cap) + b, cap) == keep_last(buffered + a + b, cap),
{
    let x = buffered + a;
    let y = keep_last(x, cap);
    assert(x + b =~= buffered + a + b);
    if x.len() > cap {
        let k = x.len() - cap;
        assert(y + b =~= (x + b).skip(k));
        if (y + b).len() > cap {
            assert((y + b).skip((y + b).len() - cap) =~= (x + b).skip((x + b).len() - cap));
        }
    }
}

} // verus!

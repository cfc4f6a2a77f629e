//! The engine manager's streaming lease protocol.
//!
//! A streaming session is run by a worker that takes the engine out of the
//! shared slot for the duration of the stream. Worker ids and a lease keep
//! the bookkeeping safe: only one session starts at a time, the model still
//! counts as loaded while a worker holds it, and a worker that finishes late
//! cannot clear the state of a newer session.

use crate::error::{VoxlyError, VoxlyResult};
use vstd::prelude::*;

verus! {

/// The bookkeeping shared by the manager and its streaming workers.
#[derive(Debug, Clone, Copy, PartialEq, Eq, Structural)]
pub struct StreamLease {
    /// Id that the next session's worker will get.
    pub next_worker_id: u64,
    /// Id of the session currently running (0: none).
    pub active_worker: u64,
    /// Id of the worker holding the engine (0: the engine is in its slot).
    pub engine_lease: u64,
    /// Whether a worker is currently streaming audio into the engine.
    pub stream_active: bool,
}

/// The bookkeeping of a freshly created manager.
pub open spec fn lease_init() -> StreamLease {
    StreamLease { next_worker_id: 1, active_worker: 0, engine_lease: 0, stream_active: false }
}

/// A session may start only when the router is closed and no worker runs.
pub open spec fn can_begin(s: StreamLease, router_open: bool) -> bool {
    !router_open && s.active_worker == 0
}

/// The bookkeeping after a start request.
pub open spec fn lease_after_begin(s: StreamLease, router_open: bool) -> StreamLease {
    if can_begin(s, router_open) {
        StreamLease {
            next_worker_id: (if s.next_worker_id == u64::MAX { 0 } else { s.next_worker_id + 1 }) as u64,
            active_worker: s.next_worker_id,
            engine_lease: s.engine_lease,
            stream_active: false,
        }
    } else {
        s
    }
}

/// The bookkeeping after worker `w` tries to take the engine.
pub open spec fn lease_after_acquire(s: StreamLease, w: u64) -> StreamLease {
    if s.engine_lease == 0 {
        StreamLease { engine_lease: w, ..s }
    } else {
        s
    }
}

/// The bookkeeping after worker `w` finishes (its guard is dropped).
pub open spec fn lease_after_release(s: StreamLease, w: u64) -> StreamLease {
    StreamLease {
        stream_active: if s.active_worker == w { false } else { s.stream_active },
        engine_lease: if s.engine_lease == w { 0 } else { s.engine_lease },
        active_worker: if s.active_worker == w { 0 } else { s.active_worker },
        next_worker_id: s.next_worker_id,
    }
}

impl StreamLease {
    /// The engine is either in its slot or held by the running session.
    pub open spec fn wf(self) -> bool {
        self.engine_lease == 0 || self.engine_lease == self.active_worker
    }

    /// Fresh bookkeeping: no session, engine in its slot.
    pub fn new() -> (s: Self)
        ensures
            s == lease_init(),
            s.wf(),
    {
        StreamLease { next_worker_id: 1, active_worker: 0, engine_lease: 0, stream_active: false }
    }

    /// Whether a session's worker is running.
    pub fn has_active_worker(&self) -> (b: bool)
        ensures
            b == (self.active_worker != 0),
    {
        self.active_worker != 0
    }

    /// Starts a session when none runs and the router is closed; returns the
    /// new worker's id. The caller then opens the router and spawns the
    /// worker.
    pub fn begin_stream(&mut self, router_open: bool) -> (id: Option<u64>)
        ensures
            *final(self) == lease_after_begin(*old(self), router_open),
            can_begin(*old(self), router_open) ==> id == Some(old(self).next_worker_id),
            !can_begin(*old(self), router_open) ==> id is None,
    {
        if router_open || self.active_worker != 0 {
            return None;
        }
        let worker_id = self.next_worker_id;
        self.next_worker_id = self.next_worker_id.wrapping_add(1);
        self.active_worker = worker_id;
        self.stream_active = false;
        Some(worker_id)
    }

    /// Worker `worker_id` takes the engine if no worker holds it.
    pub fn acquire_lease(&mut self, worker_id: u64) -> (ok: bool)
        ensures
            *final(self) == lease_after_acquire(*old(self), worker_id),
            ok == (old(self).engine_lease == 0),
    {
        if self.engine_lease == 0 {
            self.engine_lease = worker_id;
            true
        } else {
            false
        }
    }

    /// Records whether audio is being streamed into the engine.
    pub fn set_streaming(&mut self, streaming: bool)
        ensures
            *final(self) == (StreamLease { stream_active: streaming, ..*old(self) }),
    {
        self.stream_active = streaming;
    }

    /// Worker `worker_id` is gone: give the engine lease and the session
    /// slot back if they are still its own, and mark streaming over only if
    /// it was still the running session.
    pub fn release(&mut self, worker_id: u64)
        ensures
            *final(self) == lease_after_release(*old(self), worker_id),
    {
        if self.active_worker == worker_id {
            self.stream_active = false;
        }
        if self.engine_lease == worker_id {
            self.engine_lease = 0;
        }
        if self.active_worker == worker_id {
            self.active_worker = 0;
        }
    }

    /// A model counts as loaded when it is in its slot or leased to a worker.
    pub fn is_model_loaded(&self, engine_in_slot: bool) -> (b: bool)
        ensures
            b == (engine_in_slot || self.engine_lease != 0),
    {
        engine_in_slot || self.engine_lease != 0
    }
}

/// What stopping a stream returns once the worker's reply is in (`None`:
/// the reply channel closed or timed out), and whether the router must be
/// closed by the caller.
pub fn stop_stream_outcome(reply: Option<VoxlyResult<String>>) -> (r: (VoxlyResult<String>, bool))
    ensures
        match reply {
            Some(Ok(text)) => r.0 == Ok::<String, VoxlyError>(text) && !r.1,
            Some(Err(e)) => r.0 == Err::<String, VoxlyError>(e) && !r.1,
            None => (r.0 matches Ok(t) && t@ == Seq::<char>::empty()) && r.1,
        },
{
    match reply {
        Some(Ok(text)) => (Ok(text), false),
        Some(Err(e)) => (Err(e), false),
        None => (Ok(String::new()), true),
    }
}

/// Every step keeps the engine either in its slot or with the running
/// session, provided a worker only takes the engine for its own session.
pub proof fn lemma_lease_steps_preserve_wf(s: StreamLease, router_open: bool, w: u64)
    requires
        s.wf(),
    ensures
        lease_after_begin(s, router_open).wf(),
        lease_after_release(s, w).wf(),
        w == s.active_worker ==> lease_after_acquire(s, w).wf(),
{
}

/// At most one session at a time: while a worker runs, a start request
/// changes nothing and yields no worker.
pub proof fn lemma_single_session(s: StreamLease, router_open: bool)
    requires
        s.active_worker != 0 || router_open,
    ensures
        lease_after_begin(s, router_open) == s,
        !can_begin(s, router_open),
{
}

/// A worker that finishes after its session was replaced leaves the newer
/// session's slot and streaming flag untouched (and frees the lease only if
/// it still held it).
pub proof fn lemma_stale_release_keeps_newer_session(s: StreamLease, w: u64)
    requires
        s.wf(),
        s.active_worker != w,
    ensures
        lease_after_release(s, w).active_worker == s.active_worker,
        lease_after_release(s, w).stream_active == s.stream_active,
        lease_after_release(s, w).engine_lease == s.engine_lease,
{
}

/// One full session: from a manager with no session, a start, the worker
/// taking the engine, streaming, and the worker's release. The model counts
/// as loaded throughout (even with the slot empty while leased), and the
/// bookkeeping ends with no session, the engine back in its slot and the
/// next session getting a fresh id.
pub proof fn lemma_session_round_trip(s: StreamLease)
    requires
        s.wf(),
        s.active_worker == 0,
        0 < s.next_worker_id < u64::MAX,
    ensures
        ({
            let w = s.next_worker_id;
            let started = lease_after_begin(s, false);
            let leased = lease_after_acquire(started, w);
            let streaming = StreamLease { stream_active: true, ..leased };
            let done = lease_after_release(streaming, w);
            &&& started.active_worker == w
            &&& leased.engine_lease == w
            &&& leased.wf() && streaming.wf() && done.wf()
            &&& streaming.engine_lease != 0
            &&& done.active_worker == 0
            &&& done.engine_lease == 0
            &&& !done.stream_active
            &&& done.next_worker_id == w + 1
            &&& can_begin(done, false)
        }),
{
}

} // verus!

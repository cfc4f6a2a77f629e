//! The coordinator's state machine and its command handle.

use crate::audio::vad::{policy_for, VadPolicy};
use vstd::prelude::*;

verus! {

/// Commands closer together than this (30 ms, in nanoseconds) are dropped.
pub const DEBOUNCE_NS: u64 = 30_000_000;

/// Commands that can be sent to the coordinator (from hotkeys, UI, etc.).
#[derive(Debug, Clone, Copy, PartialEq, Eq, Structural)]
pub enum CoordinatorCommand {
    /// Start recording; `push_to_talk` selects hold-to-talk semantics.
    StartRecording { push_to_talk: bool },
    StopRecording,
    /// Cancel everything (emergency stop).
    Cancel,
    /// Finalize the current utterance and emit the result.
    Finalize,
    /// Shut the coordinator down.
    Shutdown,
}

impl CoordinatorCommand {
    /// The command that starts a recording in the given mode.
    pub fn start(push_to_talk: bool) -> (c: Self)
        ensures
            c == (CoordinatorCommand::StartRecording { push_to_talk }),
    {
        CoordinatorCommand::StartRecording { push_to_talk }
    }

    /// The command that stops the recording and finalizes it.
    pub fn stop() -> (c: Self)
        ensures
            c == CoordinatorCommand::StopRecording,
    {
        CoordinatorCommand::StopRecording
    }

    /// The command that cancels everything.
    pub fn cancel() -> (c: Self)
        ensures
            c == CoordinatorCommand::Cancel,
    {
        CoordinatorCommand::Cancel
    }
}

/// High-level state of the pipeline.
#[derive(Debug, Clone, Copy, PartialEq, Eq, Structural)]
pub enum PipelineState {
    Idle,
    Recording,
    Finalizing,
}

/// Everything the coordinator remembers between commands.
#[derive(Debug, Clone, Copy, PartialEq, Eq, Structural)]
pub struct CoordinatorState {
    pub pipeline: PipelineState,
    /// Whether an audio capture is running (owned by the coordinator thread).
    pub capture_active: bool,
    /// Whether the current recording is push-to-talk.
    pub is_ptt: bool,
    /// Time of the last accepted command, in nanoseconds since the loop began.
    pub last_command_ns: u64,
}

/// What the coordinator thread must do, in order, after a decision.
#[derive(Debug, Clone)]
pub enum CoordinatorAction {
    /// Start audio capture with this VAD policy and report the outcome.
    StartCapture { vad_policy: VadPolicy },
    /// Stop the running audio capture.
    StopCapture,
    /// Start the engine's streaming worker.
    StartEngineStream,
    /// Stop the engine stream and publish its final text (or its error).
    FinalizeEngineStream,
    /// Stop the engine stream and discard its result.
    CancelEngineStream,
    /// Tell the frontend that recording started.
    EmitRecordingStarted,
    /// Tell the frontend that recording stopped.
    EmitRecordingStopped,
    /// Publish the final transcription.
    EmitTranscriptionFinal { text: String },
    /// Publish an error message.
    EmitError { message: String },
    /// Leave the coordinator loop.
    Exit,
}

/// Nanoseconds elapsed since the last accepted command (zero if the clock
/// reads earlier than it).
pub open spec fn elapsed_since(s: CoordinatorState, now_ns: u64) -> int {
    if now_ns >= s.last_command_ns {
        now_ns - s.last_command_ns
    } else {
        0
    }
}

/// A command arriving this soon after the last accepted one is dropped.
pub open spec fn is_debounced(s: CoordinatorState, now_ns: u64) -> bool {
    elapsed_since(s, now_ns) < DEBOUNCE_NS
}

/// Push-to-talk captures use the offline policy, toggled ones the streaming policy.
pub open spec fn capture_policy(push_to_talk: bool) -> VadPolicy {
    policy_for(!push_to_talk)
}

/// Stopping the capture comes first when one is running.
pub open spec fn release_capture(s: CoordinatorState) -> Seq<CoordinatorAction> {
    if s.capture_active {
        seq![CoordinatorAction::StopCapture]
    } else {
        seq![]
    }
}

/// The state after accepting a command at `now_ns` (before handling it).
pub open spec fn stamped(s: CoordinatorState, now_ns: u64) -> CoordinatorState {
    CoordinatorState { last_command_ns: now_ns, ..s }
}

/// The state after the coordinator receives `cmd` at `now_ns`.
pub open spec fn next_state(s: CoordinatorState, cmd: CoordinatorCommand, now_ns: u64) -> CoordinatorState {
    if is_debounced(s, now_ns) {
        s
    } else {
        let t = stamped(s, now_ns);
        match cmd {
            CoordinatorCommand::StartRecording { push_to_talk } => {
                if t.pipeline != PipelineState::Idle {
                    t
                } else {
                    CoordinatorState { pipeline: PipelineState::Recording, is_ptt: push_to_talk, ..t }
                }
            },
            CoordinatorCommand::StopRecording | CoordinatorCommand::Finalize => {
                if t.pipeline != PipelineState::Recording {
                    t
                } else {
                    CoordinatorState { pipeline: PipelineState::Idle, capture_active: false, ..t }
                }
            },
            CoordinatorCommand::Cancel => {
                CoordinatorState { pipeline: PipelineState::Idle, capture_active: false, ..t }
            },
            CoordinatorCommand::Shutdown => CoordinatorState { capture_active: false, ..t },
        }
    }
}

/// The actions the coordinator performs when it receives `cmd` at `now_ns`.
pub open spec fn next_actions(s: CoordinatorState, cmd: CoordinatorCommand, now_ns: u64) -> Seq<CoordinatorAction> {
    if is_debounced(s, now_ns) {
        seq![]
    } else {
        match cmd {
            CoordinatorCommand::StartRecording { push_to_talk } => {
                if s.pipeline != PipelineState::Idle {
                    seq![]
                } else {
                    seq![CoordinatorAction::StartCapture { vad_policy: capture_policy(push_to_talk) }]
                }
            },
            CoordinatorCommand::StopRecording | CoordinatorCommand::Finalize => {
                if s.pipeline != PipelineState::Recording {
                    seq![]
                } else {
                    release_capture(s) + seq![
                        CoordinatorAction::FinalizeEngineStream,
                        CoordinatorAction::EmitRecordingStopped,
                    ]
                }
            },
            CoordinatorCommand::Cancel => release_capture(s) + seq![
                CoordinatorAction::CancelEngineStream,
                CoordinatorAction::EmitRecordingStopped,
            ],
            CoordinatorCommand::Shutdown => release_capture(s) + seq![CoordinatorAction::Exit],
        }
    }
}

/// The state once the requested capture is running.
pub open spec fn capture_started(s: CoordinatorState) -> CoordinatorState {
    CoordinatorState { capture_active: true, ..s }
}

/// The state once the requested capture failed to start.
pub open spec fn capture_failed(s: CoordinatorState) -> CoordinatorState {
    CoordinatorState { pipeline: PipelineState::Idle, capture_active: false, ..s }
}

impl CoordinatorState {
    /// A capture runs only while recording, and no handler ends mid-finalize.
    pub open spec fn wf(self) -> bool {
        &&& self.capture_active ==> self.pipeline == PipelineState::Recording
        &&& self.pipeline != PipelineState::Finalizing
    }

    /// The state of a freshly started coordinator loop.
    pub fn new() -> (s: Self)
        ensures
            s.wf(),
            s.pipeline == PipelineState::Idle,
            !s.capture_active,
            !s.is_ptt,
            s.last_command_ns == 0,
    {
        CoordinatorState {
            pipeline: PipelineState::Idle,
            capture_active: false,
            is_ptt: false,
            last_command_ns: 0,
        }
    }

    /// Handles one command received at `now_ns` (nanoseconds since the loop
    /// began) and returns the actions to perform, in order. When the actions
    /// hold `StartCapture`, the caller reports its outcome with
    /// `on_capture_started` or `on_capture_failed` before the next command.
    pub fn on_command(&mut self, cmd: CoordinatorCommand, now_ns: u64) -> (actions: Vec<CoordinatorAction>)
        ensures
            *final(self) == next_state(*old(self), cmd, now_ns),
            actions@ == next_actions(*old(self), cmd, now_ns),
    {
        let elapsed: u64 = if now_ns >= self.last_command_ns {
            now_ns - self.last_command_ns
        } else {
            0
        };
        let mut actions: Vec<CoordinatorAction> = Vec::new();
        if elapsed < DEBOUNCE_NS {
            return actions;
        }
        self.last_command_ns = now_ns;
        match cmd {
            CoordinatorCommand::StartRecording { push_to_talk } => {
                if self.pipeline != PipelineState::Idle {
                    return actions;
                }
                self.is_ptt = push_to_talk;
                self.pipeline = PipelineState::Recording;
                let vad_policy = if push_to_talk {
                    VadPolicy::Offline
                } else {
                    VadPolicy::Streaming
                };
                actions.push(CoordinatorAction::StartCapture { vad_policy });
            },
            CoordinatorCommand::StopRecording | CoordinatorCommand::Finalize => {
                if self.pipeline != PipelineState::Recording {
                    return actions;
                }
                self.pipeline = PipelineState::Finalizing;
                if self.capture_active {
                    self.capture_active = false;
                    actions.push(CoordinatorAction::StopCapture);
                }
                actions.push(CoordinatorAction::FinalizeEngineStream);
                self.pipeline = PipelineState::Idle;
                actions.push(CoordinatorAction::EmitRecordingStopped);
            },
            CoordinatorCommand::Cancel => {
                if self.capture_active {
                    self.capture_active = false;
                    actions.push(CoordinatorAction::StopCapture);
                }
                actions.push(CoordinatorAction::CancelEngineStream);
                self.pipeline = PipelineState::Idle;
                actions.push(CoordinatorAction::EmitRecordingStopped);
            },
            CoordinatorCommand::Shutdown => {
                if self.capture_active {
                    self.capture_active = false;
                    actions.push(CoordinatorAction::StopCapture);
                }
                actions.push(CoordinatorAction::Exit);
            },
        }
        actions
    }

    /// The capture requested by `StartCapture` is running: start the engine
    /// stream and announce the recording.
    pub fn on_capture_started(&mut self) -> (actions: Vec<CoordinatorAction>)
        requires
            old(self).pipeline == PipelineState::Recording,
        ensures
            *final(self) == capture_started(*old(self)),
            actions@ == seq![CoordinatorAction::StartEngineStream, CoordinatorAction::EmitRecordingStarted],
    {
        self.capture_active = true;
        let mut actions: Vec<CoordinatorAction> = Vec::new();
        actions.push(CoordinatorAction::StartEngineStream);
        actions.push(CoordinatorAction::EmitRecordingStarted);
        actions
    }

    /// The capture requested by `StartCapture` could not start: go back to
    /// idle and publish `message`.
    pub fn on_capture_failed(&mut self, message: String) -> (actions: Vec<CoordinatorAction>)
        requires
            old(self).pipeline == PipelineState::Recording,
        ensures
            *final(self) == capture_failed(*old(self)),
            actions@ == seq![CoordinatorAction::EmitError { message }],
    {
        self.pipeline = PipelineState::Idle;
        self.capture_active = false;
        let mut actions: Vec<CoordinatorAction> = Vec::new();
        actions.push(CoordinatorAction::EmitError { message });
        actions
    }
}

impl CoordinatorAction {
    /// What to publish once the engine stream has been finalized: the text,
    /// or the error's message.
    pub fn from_finalize_result(result: Result<String, String>) -> (a: Self)
        ensures
            match result {
                Ok(text) => a == CoordinatorAction::EmitTranscriptionFinal { text },
                Err(message) => a == CoordinatorAction::EmitError { message },
            },
    {
        match result {
            Ok(text) => CoordinatorAction::EmitTranscriptionFinal { text },
            Err(message) => CoordinatorAction::EmitError { message },
        }
    }
}

/// Every accepted or dropped command keeps the invariant: a capture runs
/// only while recording, and no command leaves the pipeline mid-finalize.
pub proof fn lemma_command_preserves_wf(s: CoordinatorState, cmd: CoordinatorCommand, now_ns: u64)
    requires
        s.wf(),
    ensures
        next_state(s, cmd, now_ns).wf(),
{
}

/// Both outcomes of a requested capture keep the invariant.
pub proof fn lemma_capture_outcome_preserves_wf(s: CoordinatorState)
    requires
        s.wf(),
        s.pipeline == PipelineState::Recording,
    ensures
        capture_started(s).wf(),
        capture_failed(s).wf(),
{
}

/// The debounce window is exactly 30 ms after the last accepted command:
/// a command less than 30 ms after it (or stamped earlier than it) is
/// dropped, and one 30 ms or more after it is accepted.
pub proof fn lemma_debounce_window(s: CoordinatorState, now_ns: u64)
    ensures
        now_ns < s.last_command_ns + 30_000_000 ==> is_debounced(s, now_ns),
        now_ns >= s.last_command_ns + 30_000_000 ==> !is_debounced(s, now_ns),
{
}

/// A command arriving within the debounce window of the last accepted one
/// changes nothing and does nothing.
pub proof fn lemma_debounced_command_is_ignored(s: CoordinatorState, cmd: CoordinatorCommand, now_ns: u64)
    requires
        is_debounced(s, now_ns),
    ensures
        next_state(s, cmd, now_ns) == s,
        next_actions(s, cmd, now_ns) == Seq::<CoordinatorAction>::empty(),
{
}

/// A start while the pipeline is busy is ignored: only the command's time
/// is recorded.
pub proof fn lemma_start_while_busy_is_ignored(s: CoordinatorState, push_to_talk: bool, now_ns: u64)
    requires
        !is_debounced(s, now_ns),
        s.pipeline != PipelineState::Idle,
    ensures
        next_state(s, CoordinatorCommand::StartRecording { push_to_talk }, now_ns) == stamped(s, now_ns),
        next_actions(s, CoordinatorCommand::StartRecording { push_to_talk }, now_ns)
            == Seq::<CoordinatorAction>::empty(),
{
}

/// A stop or finalize when nothing is recording is ignored.
pub proof fn lemma_stop_while_not_recording_is_ignored(s: CoordinatorState, cmd: CoordinatorCommand, now_ns: u64)
    requires
        !is_debounced(s, now_ns),
        s.pipeline != PipelineState::Recording,
        cmd == CoordinatorCommand::StopRecording || cmd == CoordinatorCommand::Finalize,
    ensures
        next_state(s, cmd, now_ns) == stamped(s, now_ns),
        next_actions(s, cmd, now_ns) == Seq::<CoordinatorAction>::empty(),
{
}

/// Finalize is a stop: in every state and at every time it changes the
/// state and acts exactly as `StopRecording` does. Accepted while recording,
/// both end idle with no capture, so the next accepted start is taken.
pub proof fn lemma_finalize_is_stop(s: CoordinatorState, now_ns: u64, later_ns: u64, push_to_talk: bool)
    ensures
        next_state(s, CoordinatorCommand::Finalize, now_ns) == next_state(s, CoordinatorCommand::StopRecording, now_ns),
        next_actions(s, CoordinatorCommand::Finalize, now_ns)
            == next_actions(s, CoordinatorCommand::StopRecording, now_ns),
        !is_debounced(s, now_ns) && s.pipeline == PipelineState::Recording ==> {
            let t = next_state(s, CoordinatorCommand::Finalize, now_ns);
            &&& t.pipeline == PipelineState::Idle
            &&& !t.capture_active
            &&& (!is_debounced(t, later_ns) ==> next_actions(t, CoordinatorCommand::StartRecording { push_to_talk }, later_ns)
                == seq![CoordinatorAction::StartCapture { vad_policy: capture_policy(push_to_talk) }])
        },
{
}

/// An accepted cancel, in any state, leaves the pipeline idle with no
/// capture running: it stops a running capture first, cancels the engine
/// stream, and announces that recording stopped.
pub proof fn lemma_cancel_returns_to_idle(s: CoordinatorState, now_ns: u64)
    requires
        !is_debounced(s, now_ns),
    ensures
        ({
            let t = next_state(s, CoordinatorCommand::Cancel, now_ns);
            let a = next_actions(s, CoordinatorCommand::Cancel, now_ns);
            &&& t.pipeline == PipelineState::Idle
            &&& !t.capture_active
            &&& a == release_capture(s) + seq![
                CoordinatorAction::CancelEngineStream,
                CoordinatorAction::EmitRecordingStopped,
            ]
            &&& (s.capture_active ==> a[0] == CoordinatorAction::StopCapture)
        }),
{
}

/// An accepted shutdown stops a running capture and then leaves the loop.
pub proof fn lemma_shutdown_releases_capture(s: CoordinatorState, now_ns: u64)
    requires
        !is_debounced(s, now_ns),
    ensures
        !next_state(s, CoordinatorCommand::Shutdown, now_ns).capture_active,
        next_actions(s, CoordinatorCommand::Shutdown, now_ns)
            == release_capture(s) + seq![CoordinatorAction::Exit],
{
}

/// One utterance: from idle, an accepted start whose capture comes up,
/// followed by an accepted stop, ends idle with no capture; the start asks
/// for a capture with the policy of its mode, and the stop stops that
/// capture, finalizes the engine stream and announces the stop, in that order.
pub proof fn lemma_start_then_stop_round_trip(
    s: CoordinatorState,
    push_to_talk: bool,
    start_ns: u64,
    stop_ns: u64,
)
    requires
        s.wf(),
        s.pipeline == PipelineState::Idle,
        !is_debounced(s, start_ns),
        stop_ns >= start_ns + DEBOUNCE_NS,
    ensures
        ({
            let start = CoordinatorCommand::StartRecording { push_to_talk };
            let recording = capture_started(next_state(s, start, start_ns));
            let done = next_state(recording, CoordinatorCommand::StopRecording, stop_ns);
            &&& next_actions(s, start, start_ns)
                == seq![CoordinatorAction::StartCapture { vad_policy: capture_policy(push_to_talk) }]
            &&& recording.pipeline == PipelineState::Recording
            &&& recording.is_ptt == push_to_talk
            &&& recording.wf()
            &&& done.pipeline == PipelineState::Idle
            &&& !done.capture_active
            &&& done.wf()
            &&& next_actions(recording, CoordinatorCommand::StopRecording, stop_ns) == seq![
                CoordinatorAction::StopCapture,
                CoordinatorAction::FinalizeEngineStream,
                CoordinatorAction::EmitRecordingStopped,
            ]
        }),
{
    let start = CoordinatorCommand::StartRecording { push_to_talk };
    let recording = capture_started(next_state(s, start, start_ns));
    assert(release_capture(recording) == seq![CoordinatorAction::StopCapture]);
    assert(next_actions(recording, CoordinatorCommand::StopRecording, stop_ns) =~= seq![
        CoordinatorAction::StopCapture,
        CoordinatorAction::FinalizeEngineStream,
        CoordinatorAction::EmitRecordingStopped,
    ]);
}

/// "Recording started" and "recording stopped" alternate. A running capture
/// is what a "recording started" announced (`on_capture_started` is the only
/// step that starts one and emits that event), and:
/// - no command emits "recording started" or starts a capture by itself;
/// - a command asks for a capture only when none is running, and leaves
///   none running until the capture is reported started;
/// - a command that ends a running capture emits "recording stopped",
///   except shutdown, which leaves the loop.
pub proof fn lemma_started_and_stopped_alternate(s: CoordinatorState, cmd: CoordinatorCommand, now_ns: u64)
    requires
        s.wf(),
    ensures
        ({
            let t = next_state(s, cmd, now_ns);
            let a = next_actions(s, cmd, now_ns);
            &&& !a.contains(CoordinatorAction::EmitRecordingStarted)
            &&& !s.capture_active ==> !t.capture_active
            &&& (exists|i: int| 0 <= i < a.len() && #[trigger] a[i] is StartCapture) ==> {
                &&& !s.capture_active
                &&& !t.capture_active
                &&& t.pipeline == PipelineState::Recording
            }
            &&& s.capture_active && !t.capture_active ==> {
                ||| a.contains(CoordinatorAction::EmitRecordingStopped)
                ||| cmd == CoordinatorCommand::Shutdown && a.last() == CoordinatorAction::Exit
            }
        }),
{
    let a = next_actions(s, cmd, now_ns);
    if !is_debounced(s, now_ns) {
        match cmd {
            CoordinatorCommand::StartRecording { push_to_talk } => {
                if s.pipeline == PipelineState::Idle {
                    assert(a[0] is StartCapture);
                }
            },
            CoordinatorCommand::StopRecording | CoordinatorCommand::Finalize => {
                if s.pipeline == PipelineState::Recording {
                    assert(a[a.len() - 1] == CoordinatorAction::EmitRecordingStopped);
                }
            },
            CoordinatorCommand::Cancel => {
                assert(a[a.len() - 1] == CoordinatorAction::EmitRecordingStopped);
            },
            CoordinatorCommand::Shutdown => {},
        }
    }
}

/// A command that leaves a running capture running does nothing at all.
proof fn lemma_capture_kept_means_no_actions(s: CoordinatorState, cmd: CoordinatorCommand, now_ns: u64)
    requires
        s.wf(),
        s.capture_active,
        next_state(s, cmd, now_ns).capture_active,
    ensures
        next_actions(s, cmd, now_ns) =~= Seq::<CoordinatorAction>::empty(),
{
}

/// A command whose first action asks for a capture asks for nothing else.
proof fn lemma_start_capture_is_alone(s: CoordinatorState, cmd: CoordinatorCommand, now_ns: u64)
    requires
        next_actions(s, cmd, now_ns).len() > 0,
        next_actions(s, cmd, now_ns)[0] is StartCapture,
    ensures
        next_actions(s, cmd, now_ns).len() == 1,
{
    let a = next_actions(s, cmd, now_ns);
    if !is_debounced(s, now_ns) {
        match cmd {
            CoordinatorCommand::StopRecording | CoordinatorCommand::Finalize => {
                if s.pipeline == PipelineState::Recording {
                    assert(release_capture(s).len() == 0 || release_capture(s)[0] is StopCapture);
                    if release_capture(s).len() == 0 {
                        assert(a[0] is FinalizeEngineStream);
                    }
                }
            },
            CoordinatorCommand::Cancel => {
                if release_capture(s).len() == 0 {
                    assert(a[0] is CancelEngineStream);
                }
            },
            CoordinatorCommand::Shutdown => {
                if release_capture(s).len() == 0 {
                    assert(a[0] is Exit);
                }
            },
            _ => {},
        }
    }
}

/// One turn of the coordinator loop: the command `cmd` arrives at `now_ns`;
/// when it asks for a capture, `outcome` says how the capture went (`None`:
/// it runs; `Some(message)`: it failed with that message). Returns the new
/// state and every action of the turn, in order.
pub open spec fn loop_turn(
    s: CoordinatorState,
    cmd: CoordinatorCommand,
    now_ns: u64,
    outcome: Option<String>,
) -> (CoordinatorState, Seq<CoordinatorAction>) {
    let t = next_state(s, cmd, now_ns);
    let a = next_actions(s, cmd, now_ns);
    if a.len() > 0 && a[0] is StartCapture {
        match outcome {
            None => (
                capture_started(t),
                a + seq![CoordinatorAction::StartEngineStream, CoordinatorAction::EmitRecordingStarted],
            ),
            Some(message) => (capture_failed(t), a + seq![CoordinatorAction::EmitError { message }]),
        }
    } else {
        (t, a)
    }
}

/// The coordinator loop over `turns` (command, time, capture outcome), from
/// `s`: the final state, all actions in order, and whether the loop has left
/// (a turn's actions held `Exit`; later turns are never read).
pub open spec fn loop_run(
    s: CoordinatorState,
    turns: Seq<(CoordinatorCommand, u64, Option<String>)>,
) -> (CoordinatorState, Seq<CoordinatorAction>, bool)
    decreases turns.len(),
{
    if turns.len() == 0 {
        (s, seq![], false)
    } else {
        let prev = loop_run(s, turns.drop_last());
        if prev.2 {
            prev
        } else {
            let last = turns.last();
            let step = loop_turn(prev.0, last.0, last.1, last.2);
            (step.0, prev.1 + step.1, step.1.contains(CoordinatorAction::Exit))
        }
    }
}

/// Whether a recording has been announced as started and not yet as stopped.
pub open spec fn recording_open(e: Seq<CoordinatorAction>) -> bool {
    exists|i: int|
        0 <= i < e.len() && #[trigger] e[i] == CoordinatorAction::EmitRecordingStarted
            && forall|k: int| i < k < e.len() ==> #[trigger] e[k] != CoordinatorAction::EmitRecordingStopped
}

/// Between any two "recording started" events there is a "recording
/// stopped" event.
pub open spec fn starts_separated_by_stops(e: Seq<CoordinatorAction>) -> bool {
    forall|i: int, j: int|
        0 <= i < j < e.len() && #[trigger] e[i] == CoordinatorAction::EmitRecordingStarted
            && #[trigger] e[j] == CoordinatorAction::EmitRecordingStarted ==> exists|k: int|
            i < k < j && #[trigger] e[k] == CoordinatorAction::EmitRecordingStopped
}

/// Appending actions that announce no start keeps the separation, closes
/// an open recording if they announce a stop, and keeps it open otherwise.
proof fn lemma_append_without_start(e: Seq<CoordinatorAction>, a: Seq<CoordinatorAction>)
    requires
        !a.contains(CoordinatorAction::EmitRecordingStarted),
    ensures
        starts_separated_by_stops(e) ==> starts_separated_by_stops(e + a),
        !recording_open(e) ==> !recording_open(e + a),
        a.contains(CoordinatorAction::EmitRecordingStopped) ==> !recording_open(e + a),
        recording_open(e) && !a.contains(CoordinatorAction::EmitRecordingStopped) ==> recording_open(e + a),
{
    let ea = e + a;
    assert forall|i: int| 0 <= i < ea.len() && #[trigger] ea[i] == CoordinatorAction::EmitRecordingStarted
        implies i < e.len() && e[i] == CoordinatorAction::EmitRecordingStarted by {
        if i >= e.len() {
            assert(a[i - e.len()] == CoordinatorAction::EmitRecordingStarted);
        }
    }
    if starts_separated_by_stops(e) {
        assert forall|i: int, j: int|
            0 <= i < j < ea.len() && #[trigger] ea[i] == CoordinatorAction::EmitRecordingStarted
                && #[trigger] ea[j] == CoordinatorAction::EmitRecordingStarted implies exists|k: int|
                i < k < j && #[trigger] ea[k] == CoordinatorAction::EmitRecordingStopped by {
            assert(e[i] == CoordinatorAction::EmitRecordingStarted);
            assert(e[j] == CoordinatorAction::EmitRecordingStarted);
            let k = choose|k: int| i < k < j && #[trigger] e[k] == CoordinatorAction::EmitRecordingStopped;
            assert(ea[k] == e[k]);
        }
    }
    if !recording_open(e) {
        assert forall|i: int| 0 <= i < ea.len() && #[trigger] ea[i] == CoordinatorAction::EmitRecordingStarted
            implies exists|k: int| i < k < ea.len() && #[trigger] ea[k] == CoordinatorAction::EmitRecordingStopped by {
            assert(e[i] == CoordinatorAction::EmitRecordingStarted);
            let k = choose|k: int| i < k < e.len() && #[trigger] e[k] == CoordinatorAction::EmitRecordingStopped;
            assert(ea[k] == e[k]);
        }
    }
    if a.contains(CoordinatorAction::EmitRecordingStopped) {
        let m = choose|m: int| 0 <= m < a.len() && a[m] == CoordinatorAction::EmitRecordingStopped;
        assert(ea[e.len() + m] == CoordinatorAction::EmitRecordingStopped);
        assert forall|i: int| 0 <= i < ea.len() && #[trigger] ea[i] == CoordinatorAction::EmitRecordingStarted
            implies exists|k: int| i < k < ea.len() && #[trigger] ea[k] == CoordinatorAction::EmitRecordingStopped by {
            assert(i < e.len());
            assert(i < e.len() + m < ea.len());
        }
    }
    if recording_open(e) && !a.contains(CoordinatorAction::EmitRecordingStopped) {
        let i = choose|i: int|
            0 <= i < e.len() && #[trigger] e[i] == CoordinatorAction::EmitRecordingStarted
                && forall|k: int| i < k < e.len() ==> #[trigger] e[k] != CoordinatorAction::EmitRecordingStopped;
        assert(ea[i] == CoordinatorAction::EmitRecordingStarted);
        assert forall|k: int| i < k < ea.len() implies #[trigger] ea[k] != CoordinatorAction::EmitRecordingStopped by {
            if k >= e.len() {
                assert(a[k - e.len()] == ea[k]);
            } else {
                assert(e[k] == ea[k]);
            }
        }
    }
}

/// Appending a turn that starts a capture (the request, the engine stream,
/// then "recording started") while no recording is open keeps the
/// separation and opens a recording.
#[verifier::spinoff_prover]
proof fn lemma_append_start(e: Seq<CoordinatorAction>, a: Seq<CoordinatorAction>)
    requires
        !recording_open(e),
        starts_separated_by_stops(e),
        a.len() == 3,
        a[0] is StartCapture,
        a[1] == CoordinatorAction::StartEngineStream,
        a[2] == CoordinatorAction::EmitRecordingStarted,
    ensures
        starts_separated_by_stops(e + a),
        recording_open(e + a),
{
    let ea = e + a;
    let n = e.len() as int;
    assert(ea.len() == n + 3);
    assert(ea[n] == a[0] && ea[n + 1] == a[1] && ea[n + 2] == a[2]);
    assert forall|i: int| 0 <= i < n implies #[trigger] ea[i] == e[i] by {}
    assert forall|i: int, j: int|
        0 <= i < j < ea.len() && #[trigger] ea[i] == CoordinatorAction::EmitRecordingStarted
            && #[trigger] ea[j] == CoordinatorAction::EmitRecordingStarted implies exists|k: int|
            i < k < j && #[trigger] ea[k] == CoordinatorAction::EmitRecordingStopped by {
        if i >= n {
            assert(ea[i] == a[i - n]);
            assert(i == n + 2);
        }
        assert(e[i] == CoordinatorAction::EmitRecordingStarted);
        if j < n {
            assert(e[j] == CoordinatorAction::EmitRecordingStarted);
            let k = choose|k: int| i < k < j && #[trigger] e[k] == CoordinatorAction::EmitRecordingStopped;
            assert(ea[k] == e[k]);
        } else {
            let k = choose|k: int| i < k < n && #[trigger] e[k] == CoordinatorAction::EmitRecordingStopped;
            assert(ea[k] == e[k]);
        }
    }
    assert forall|k: int| n + 2 < k < ea.len() implies #[trigger] ea[k] != CoordinatorAction::EmitRecordingStopped by {}
    assert(ea[n + 2] == CoordinatorAction::EmitRecordingStarted);
}

/// The invariant of a run that has not left: the state is well formed, a
/// capture runs exactly while a recording is announced open, and starts
/// are separated by stops.
proof fn lemma_run_invariant(s: CoordinatorState, turns: Seq<(CoordinatorCommand, u64, Option<String>)>)
    requires
        s.wf(),
        !s.capture_active,
    ensures
        ({
            let r = loop_run(s, turns);
            &&& starts_separated_by_stops(r.1)
            &&& !r.2 ==> r.0.wf() && (r.0.capture_active <==> recording_open(r.1))
        }),
    decreases turns.len(),
{
    if turns.len() == 0 {
        assert(!recording_open(Seq::<CoordinatorAction>::empty()));
    } else {
        let prev = loop_run(s, turns.drop_last());
        lemma_run_invariant(s, turns.drop_last());
        if !prev.2 {
            let last = turns.last();
            let (cmd, now_ns, outcome) = last;
            let st = prev.0;
            let t = next_state(st, cmd, now_ns);
            let a = next_actions(st, cmd, now_ns);
            lemma_command_preserves_wf(st, cmd, now_ns);
            lemma_started_and_stopped_alternate(st, cmd, now_ns);
            if a.len() > 0 && a[0] is StartCapture {
                lemma_start_capture_is_alone(st, cmd, now_ns);
                assert(!st.capture_active);
                match outcome {
                    None => {
                        let full = a + seq![CoordinatorAction::StartEngineStream, CoordinatorAction::EmitRecordingStarted];
                        lemma_append_start(prev.1, full);
                        assert(!full.contains(CoordinatorAction::Exit)) by {
                            if full.contains(CoordinatorAction::Exit) {
                                let m = choose|m: int| 0 <= m < full.len() && full[m] == CoordinatorAction::Exit;
                                assert(m == 0 || m == 1 || m == 2);
                            }
                        }
                    },
                    Some(message) => {
                        let full = a + seq![CoordinatorAction::EmitError { message }];
                        assert(!full.contains(CoordinatorAction::EmitRecordingStarted)) by {
                            if full.contains(CoordinatorAction::EmitRecordingStarted) {
                                let m = choose|m: int| 0 <= m < full.len() && full[m] == CoordinatorAction::EmitRecordingStarted;
                                assert(m == 0 || m == 1);
                            }
                        }
                        lemma_append_without_start(prev.1, full);
                    },
                }
            } else {
                lemma_append_without_start(prev.1, a);
                if st.capture_active && t.capture_active {
                    lemma_capture_kept_means_no_actions(st, cmd, now_ns);
                    assert(!a.contains(CoordinatorAction::EmitRecordingStopped));
                }
            }
        }
    }
}

/// "Recording started" and "recording stopped" alternate over any run of
/// the coordinator loop: from a state with no capture (a fresh loop among
/// them), whatever commands arrive, at whatever times, and however each
/// requested capture turns out, any two "recording started" events are
/// separated by a "recording stopped" event.
pub proof fn lemma_recording_events_alternate(
    s: CoordinatorState,
    turns: Seq<(CoordinatorCommand, u64, Option<String>)>,
)
    requires
        s.wf(),
        !s.capture_active,
    ensures
        starts_separated_by_stops(loop_run(s, turns).1),
{
    lemma_run_invariant(s, turns);
}

/// std's `mpsc::Sender`, carried opaquely by the coordinator handle.
#[verifier::external_type_specification]
#[verifier::external_body]
#[verifier::reject_recursive_types(T)]
pub struct ExSender<T>(std::sync::mpsc::Sender<T>);

/// Hands `cmd` to the coordinator thread's channel (std's `Sender::send`).
/// std returns the value back when it cannot be sent (the receiver is gone:
/// `SendError` holds that value), and so does this: `None` when it was
/// handed over, `Some` of the very same command when it was not. Which of
/// the two happens is not stated: only the receiving thread decides it.
#[verifier::external_body]
fn send_command(tx: &std::sync::mpsc::Sender<CoordinatorCommand>, cmd: CoordinatorCommand) -> (undelivered: Option<CoordinatorCommand>)
    ensures
        undelivered matches Some(c) ==> c == cmd,
{
    match tx.send(cmd) {
        Ok(()) => None,
        Err(e) => Some(e.0),
    }
}

/// The handle through which the UI and hotkeys reach the coordinator thread.
pub struct TranscriptionCoordinator {
    tx: std::sync::mpsc::Sender<CoordinatorCommand>,
}

impl TranscriptionCoordinator {
    /// The channel that this handle sends on.
    pub closed spec fn channel(self) -> std::sync::mpsc::Sender<CoordinatorCommand> {
        self.tx
    }

    /// Wraps the sending side of the channel that the coordinator thread reads.
    pub fn new(tx: std::sync::mpsc::Sender<CoordinatorCommand>) -> (c: Self)
        ensures
            c.channel() == tx,
    {
        TranscriptionCoordinator { tx }
    }

    /// Sends `cmd` on the handle's channel. When the coordinator thread has
    /// exited, the command comes back (and is otherwise ignored).
    pub fn send(&self, cmd: CoordinatorCommand) -> (undelivered: Option<CoordinatorCommand>)
        ensures
            undelivered matches Some(c) ==> c == cmd,
    {
        send_command(&self.tx, cmd)
    }

    /// Asks the coordinator to start recording: sends exactly one command,
    /// `StartRecording` with the requested `push_to_talk` flag (which comes
    /// back if the coordinator thread has exited).
    pub fn start_recording(&self, push_to_talk: bool) -> (undelivered: Option<CoordinatorCommand>)
        ensures
            undelivered matches Some(c) ==> c == (CoordinatorCommand::StartRecording { push_to_talk }),
    {
        self.send(CoordinatorCommand::start(push_to_talk))
    }

    /// Asks the coordinator to stop recording and finalize: sends
    /// `StopRecording` (which comes back if the thread has exited).
    pub fn stop_recording(&self) -> (undelivered: Option<CoordinatorCommand>)
        ensures
            undelivered matches Some(c) ==> c == CoordinatorCommand::StopRecording,
    {
        self.send(CoordinatorCommand::stop())
    }

    /// Asks the coordinator to cancel everything: sends `Cancel` (which
    /// comes back if the thread has exited).
    pub fn cancel(&self) -> (undelivered: Option<CoordinatorCommand>)
        ensures
            undelivered matches Some(c) ==> c == CoordinatorCommand::Cancel,
    {
        self.send(CoordinatorCommand::cancel())
    }
}

} // verus!

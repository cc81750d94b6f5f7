//! Keeping the session's runtime state in step with the audio and visual
//! runtimes: what each adapter answer does to the session, and the managers
//! that ask the adapters and record their answers.
//!
//! The adapters are traits the application implements (SuperCollider,
//! the visual sidecar, test fakes). Each step that records an answer is a
//! function of the session and that answer; the managers only sequence them.
use vstd::prelude::*;
use crate::compiler::{
    channel_sum, compile_session_to_topology, enabled_buses, CompiledTopology, TopologyCompileError,
};
use crate::domain::{
    AudioRuntimeHealth, AudioRuntimeLifecycle, AudioRuntimeState, GraphEditCommand, MacroTarget,
    RuntimeConnectionState, RuntimeKind, RuntimeStatusRef, SessionDocument, VisualRuntimeHealth,
    VisualRuntimeLifecycle, VisualRuntimeState,
};
use crate::session_store::SessionStore;
use crate::domain::Node;
use crate::visual_compile::{compile_session_to_visual_scene, node_visible, visible_nodes, CompiledVisualScene, VisualParameterUpdate};

verus! {

// ---------------------------------------------------------------------------
// Runtime status entries
// ---------------------------------------------------------------------------

/// `i` is the first status entry of runtime `kind`.
pub open spec fn first_runtime(s: Seq<RuntimeStatusRef>, kind: RuntimeKind, i: int) -> bool {
    &&& 0 <= i < s.len()
    &&& s[i].runtime == kind
    &&& forall|j: int| 0 <= j < i ==> (#[trigger] s[j]).runtime != kind
}

/// The status entries with the first entry of runtime `kind`, if any, set
/// to `status` and `error`.
pub open spec fn with_runtime_status(
    s: Seq<RuntimeStatusRef>,
    kind: RuntimeKind,
    status: RuntimeConnectionState,
    error: Option<String>,
) -> Seq<RuntimeStatusRef> {
    if exists|i: int| first_runtime(s, kind, i) {
        let i = choose|i: int| first_runtime(s, kind, i);
        s.update(i, RuntimeStatusRef { status, last_error: error, ..s[i] })
    } else {
        s
    }
}

/// Sets the first status entry of runtime `kind`.
pub fn set_runtime_status(
    session: &mut SessionDocument,
    kind: RuntimeKind,
    status: RuntimeConnectionState,
    error: Option<String>,
)
    ensures
        *final(session) == (SessionDocument { runtime_status: final(session).runtime_status, ..*old(session) }),
        final(session).runtime_status@ == with_runtime_status(old(session).runtime_status@, kind, status, error),
{
    let mut i: usize = 0;
    while i < session.runtime_status.len()
        invariant
            i <= session.runtime_status@.len(),
            *session == *old(session),
            forall|j: int| 0 <= j < i ==> (#[trigger] session.runtime_status@[j]).runtime != kind,
        decreases session.runtime_status.len() - i,
    {
        if session.runtime_status[i].runtime == kind {
            proof {
                let s = old(session).runtime_status@;
                assert(first_runtime(s, kind, i as int));
                let c = choose|c: int| first_runtime(s, kind, c);
                if c < i {
                    assert(s[c].runtime != kind);
                } else if i < c {
                    assert(s[i as int].runtime != kind);
                }
            }
            let entry = &session.runtime_status[i];
            let updated = RuntimeStatusRef {
                id: entry.id.clone(),
                runtime: entry.runtime,
                status,
                target_id: match &entry.target_id {
                    Some(t) => Some(t.clone()),
                    None => None,
                },
                last_error: error,
            };
            session.runtime_status.set(i, updated);
            return;
        }
        i = i + 1;
    }
    proof {
        let s = old(session).runtime_status@;
        if exists|c: int| first_runtime(s, kind, c) {
            let c = choose|c: int| first_runtime(s, kind, c);
            assert(s[c].runtime == kind);
        }
    }
}

fn clone_opt(o: &Option<String>) -> (r: Option<String>)
    ensures
        r == *o,
{
    match o {
        Some(s) => Some(s.clone()),
        None => None,
    }
}

fn joined(a: &str, b: &str) -> (r: String)
    ensures
        r@ == a@ + b@,
{
    let mut s = a.to_owned();
    s.append(b);
    s
}

// ---------------------------------------------------------------------------
// Audio runtime
// ---------------------------------------------------------------------------

/// What the audio adapter reports.
#[derive(Debug, PartialEq)]
pub enum RuntimeAdapterStatus {
    Booted { sample_rate_hz: u32, block_size: u32 },
    Ready { active_patch_id: String },
    Stopped,
    Panicked,
    Failed { message: String, active_patch_id: Option<String> },
}

/// What an audio engine answers.
pub type AdapterAnswer = Result<RuntimeAdapterStatus, String>;

/// A call made to an audio engine and the engine's answer, as plain values.
pub enum AdapterCall {
    Start(AdapterAnswer),
    /// The topology handed to the engine.
    LoadTopology(CompiledTopology, AdapterAnswer),
    /// Node id, parameter id, value (`f64` bit pattern).
    SetParameterValue(Seq<char>, Seq<char>, u64, AdapterAnswer),
    Stop(AdapterAnswer),
    Panic(AdapterAnswer),
}

/// An audio engine the manager drives.
///
/// An engine that keeps a log of the calls made to it says so through
/// `logs_calls`, and `call_log` is that log: each call is appended to it
/// with the engine's answer. An engine that keeps none (one that talks to a
/// server) leaves both at their defaults, and nothing is claimed of it.
pub trait AudioRuntimeAdapter {
    open spec fn logs_calls() -> bool {
        false
    }

    open spec fn call_log(&self) -> Seq<AdapterCall> {
        Seq::empty()
    }

    fn start(&mut self) -> (r: Result<RuntimeAdapterStatus, String>)
        ensures
            Self::logs_calls() ==> final(self).call_log() == old(self).call_log().push(AdapterCall::Start(r)),
    ;

    fn load_topology(&mut self, topology: &CompiledTopology) -> (r: Result<RuntimeAdapterStatus, String>)
        ensures
            Self::logs_calls() ==> final(self).call_log() == old(self).call_log().push(
                AdapterCall::LoadTopology(*topology, r),
            ),
    ;

    /// `value` is an `f64` bit pattern.
    fn set_parameter_value(&mut self, node_id: &str, parameter_id: &str, value: u64) -> (r: Result<
        RuntimeAdapterStatus,
        String,
    >)
        ensures
            Self::logs_calls() ==> final(self).call_log() == old(self).call_log().push(
                AdapterCall::SetParameterValue(node_id@, parameter_id@, value, r),
            ),
    ;

    fn stop(&mut self) -> (r: Result<RuntimeAdapterStatus, String>)
        ensures
            Self::logs_calls() ==> final(self).call_log() == old(self).call_log().push(AdapterCall::Stop(r)),
    ;

    fn panic(&mut self) -> (r: Result<RuntimeAdapterStatus, String>)
        ensures
            Self::logs_calls() ==> final(self).call_log() == old(self).call_log().push(AdapterCall::Panic(r)),
    ;
}

/// An engine that only records the calls made to it, for checking the
/// manager's traffic: it boots at 48 kHz with 64-sample blocks, reports
/// its patch ready on every load or parameter change, and stops or panics
/// when asked.
pub struct RecordingAudioAdapter {
    log: Ghost<Seq<AdapterCall>>,
    calls: Vec<String>,
    patch_id: String,
}

impl RecordingAudioAdapter {
    pub closed spec fn recorded(&self) -> Seq<AdapterCall> {
        self.log@
    }

    /// The names of the calls made so far, in order.
    pub closed spec fn names(&self) -> Seq<String> {
        self.calls@
    }

    /// The patch the engine reports as ready.
    pub closed spec fn reported_patch(&self) -> Seq<char> {
        self.patch_id@
    }

    /// An engine that has recorded nothing and reports `patch_id` as its
    /// patch.
    pub fn new(patch_id: String) -> (a: Self)
        ensures
            a.recorded() == Seq::<AdapterCall>::empty(),
            a.names() == Seq::<String>::empty(),
            a.reported_patch() == patch_id@,
    {
        RecordingAudioAdapter { log: Ghost(Seq::empty()), calls: Vec::new(), patch_id }
    }

    /// The calls made so far, in order, each by name: `start`,
    /// `load_topology`, `set_parameter_value`, `stop`, `panic`.
    pub fn call_names(&self) -> (r: &Vec<String>)
        ensures
            r@ == self.names(),
    {
        &self.calls
    }

    fn record(&mut self, name: &str, Ghost(c): Ghost<AdapterCall>)
        ensures
            final(self).recorded() == old(self).recorded().push(c),
            final(self).names().len() == old(self).names().len() + 1,
            final(self).reported_patch() == old(self).reported_patch(),
    {
        let ghost l = self.log@.push(c);
        self.calls.push(name.to_owned());
        self.log = Ghost(l);
    }
}

impl AudioRuntimeAdapter for RecordingAudioAdapter {
    open spec fn logs_calls() -> bool {
        true
    }

    open spec fn call_log(&self) -> Seq<AdapterCall> {
        self.recorded()
    }

    fn start(&mut self) -> (r: Result<RuntimeAdapterStatus, String>)
        ensures
            r == Ok::<RuntimeAdapterStatus, String>(RuntimeAdapterStatus::Booted { sample_rate_hz: 48_000, block_size: 64 }),
    {
        let r = Ok(RuntimeAdapterStatus::Booted { sample_rate_hz: 48_000, block_size: 64 });
        self.record("start", Ghost(AdapterCall::Start(r)));
        r
    }

    fn load_topology(&mut self, topology: &CompiledTopology) -> (r: Result<RuntimeAdapterStatus, String>)
        ensures
            r matches Ok(RuntimeAdapterStatus::Ready { active_patch_id }) && active_patch_id@ == old(self).reported_patch(),
    {
        let r = Ok(RuntimeAdapterStatus::Ready { active_patch_id: self.patch_id.clone() });
        self.record("load_topology", Ghost(AdapterCall::LoadTopology(*topology, r)));
        r
    }

    fn set_parameter_value(&mut self, node_id: &str, parameter_id: &str, value: u64) -> (r: Result<
        RuntimeAdapterStatus,
        String,
    >)
        ensures
            r matches Ok(RuntimeAdapterStatus::Ready { active_patch_id }) && active_patch_id@ == old(self).reported_patch(),
    {
        let r = Ok(RuntimeAdapterStatus::Ready { active_patch_id: self.patch_id.clone() });
        self.record("set_parameter_value", Ghost(AdapterCall::SetParameterValue(node_id@, parameter_id@, value, r)));
        r
    }

    fn stop(&mut self) -> (r: Result<RuntimeAdapterStatus, String>)
        ensures
            r == Ok::<RuntimeAdapterStatus, String>(RuntimeAdapterStatus::Stopped),
    {
        let r = Ok(RuntimeAdapterStatus::Stopped);
        self.record("stop", Ghost(AdapterCall::Stop(r)));
        r
    }

    fn panic(&mut self) -> (r: Result<RuntimeAdapterStatus, String>)
        ensures
            r == Ok::<RuntimeAdapterStatus, String>(RuntimeAdapterStatus::Panicked),
    {
        let r = Ok(RuntimeAdapterStatus::Panicked);
        self.record("panic", Ghost(AdapterCall::Panic(r)));
        r
    }
}

#[derive(Debug)]
pub enum AudioRuntimeManagerError {
    Compile(TopologyCompileError),
    Adapter(String),
}

/// Only the audio runtime state and the audio status entry differ.
pub open spec fn audio_changed(s: SessionDocument, t: SessionDocument, status: RuntimeConnectionState) -> bool {
    &&& t == (SessionDocument { audio_runtime: t.audio_runtime, runtime_status: t.runtime_status, ..s })
    &&& t.runtime_status@ == with_runtime_status(s.runtime_status@, RuntimeKind::Audio, status, t.audio_runtime.last_error)
}

/// Starting: booting, health unknown, no error, connecting.
pub open spec fn audio_connecting(s: SessionDocument, t: SessionDocument) -> bool {
    &&& audio_changed(s, t, RuntimeConnectionState::Connecting)
    &&& t.audio_runtime == (AudioRuntimeState {
        lifecycle: AudioRuntimeLifecycle::Booting,
        health: AudioRuntimeHealth::Unknown,
        last_error: None,
        ..s.audio_runtime
    })
}

/// Failed with `health`, the error `msg` and the active patch `patch`.
pub open spec fn audio_failed(
    s: SessionDocument,
    t: SessionDocument,
    health: AudioRuntimeHealth,
    msg: Seq<char>,
    patch: Option<String>,
) -> bool {
    &&& audio_changed(s, t, RuntimeConnectionState::Error)
    &&& t.audio_runtime == (AudioRuntimeState {
        lifecycle: AudioRuntimeLifecycle::Failed,
        health,
        active_patch_id: patch,
        last_error: t.audio_runtime.last_error,
        ..s.audio_runtime
    })
    &&& t.audio_runtime.last_error is Some
    &&& t.audio_runtime.last_error->Some_0@ == msg
}

/// Ready and healthy with patch `patch` active.
pub open spec fn audio_ready(s: SessionDocument, t: SessionDocument, patch: String) -> bool {
    &&& audio_changed(s, t, RuntimeConnectionState::Ready)
    &&& t.audio_runtime == (AudioRuntimeState {
        lifecycle: AudioRuntimeLifecycle::Ready,
        health: AudioRuntimeHealth::Healthy,
        active_patch_id: Some(patch),
        last_error: None,
        ..s.audio_runtime
    })
}

fn set_audio_state(session: &mut SessionDocument, a: AudioRuntimeState, status: RuntimeConnectionState)
    ensures
        audio_changed(*old(session), *final(session), status),
        final(session).audio_runtime == a,
{
    let err = clone_opt(&a.last_error);
    session.audio_runtime = a;
    set_runtime_status(session, RuntimeKind::Audio, status, err);
}

/// Marks the audio runtime as starting.
pub fn set_runtime_connecting(session: &mut SessionDocument)
    ensures
        audio_connecting(*old(session), *final(session)),
{
    let a = AudioRuntimeState {
        lifecycle: AudioRuntimeLifecycle::Booting,
        health: AudioRuntimeHealth::Unknown,
        sample_rate_hz: session.audio_runtime.sample_rate_hz,
        block_size: session.audio_runtime.block_size,
        active_patch_id: clone_opt(&session.audio_runtime.active_patch_id),
        last_error: None,
        panic_recovery_count: session.audio_runtime.panic_recovery_count,
    };
    set_audio_state(session, a, RuntimeConnectionState::Connecting);
}

/// Marks the audio runtime as failed.
pub fn mark_runtime_failed(
    session: &mut SessionDocument,
    health: AudioRuntimeHealth,
    message: String,
    active_patch_id: Option<String>,
)
    ensures
        audio_failed(*old(session), *final(session), health, message@, active_patch_id),
{
    let a = AudioRuntimeState {
        lifecycle: AudioRuntimeLifecycle::Failed,
        health,
        sample_rate_hz: session.audio_runtime.sample_rate_hz,
        block_size: session.audio_runtime.block_size,
        active_patch_id,
        last_error: Some(message),
        panic_recovery_count: session.audio_runtime.panic_recovery_count,
    };
    set_audio_state(session, a, RuntimeConnectionState::Error);
}

/// Marks the audio runtime as ready with a patch.
pub fn mark_runtime_ready(session: &mut SessionDocument, active_patch_id: String)
    ensures
        audio_ready(*old(session), *final(session), active_patch_id),
{
    let a = AudioRuntimeState {
        lifecycle: AudioRuntimeLifecycle::Ready,
        health: AudioRuntimeHealth::Healthy,
        sample_rate_hz: session.audio_runtime.sample_rate_hz,
        block_size: session.audio_runtime.block_size,
        active_patch_id: Some(active_patch_id),
        last_error: None,
        panic_recovery_count: session.audio_runtime.panic_recovery_count,
    };
    set_audio_state(session, a, RuntimeConnectionState::Ready);
}

/// The session `t` after the adapter answered `status` to `start`.
pub open spec fn boot_step(s: SessionDocument, status: Result<RuntimeAdapterStatus, String>, t: SessionDocument) -> bool {
        match status {
            Ok(RuntimeAdapterStatus::Booted { sample_rate_hz, block_size }) => t == (SessionDocument {
                audio_runtime: AudioRuntimeState {
                    sample_rate_hz: Some(sample_rate_hz),
                    block_size: Some(block_size),
                    ..s.audio_runtime
                },
                ..s
            }),
            Ok(RuntimeAdapterStatus::Failed { message, active_patch_id }) => audio_failed(
                s,
                t,
                AudioRuntimeHealth::Degraded,
                message@,
                active_patch_id,
            ),
            Ok(_) => audio_failed(
                s,
                t,
                AudioRuntimeHealth::Degraded,
                "unexpected runtime boot status"@,
                None,
            ),
            Err(m) => audio_failed(
                s,
                t,
                AudioRuntimeHealth::Degraded,
                "Audio runtime app state error while starting adapter: "@ + m@,
                s.audio_runtime.active_patch_id,
            ),
        }
}

/// What the adapter's answer to `start` does: a boot records the sample
/// rate and block size (and returns `true`); anything else fails the
/// runtime.
pub fn apply_boot_status(session: &mut SessionDocument, status: Result<RuntimeAdapterStatus, String>) -> (booted: bool)
    ensures
        booted <==> status matches Ok(RuntimeAdapterStatus::Booted { .. }),
        boot_step(*old(session), status, *final(session)),
{
    match status {
        Ok(RuntimeAdapterStatus::Booted { sample_rate_hz, block_size }) => {
            session.audio_runtime.sample_rate_hz = Some(sample_rate_hz);
            session.audio_runtime.block_size = Some(block_size);
            true
        },
        Ok(RuntimeAdapterStatus::Failed { message, active_patch_id }) => {
            mark_runtime_failed(session, AudioRuntimeHealth::Degraded, message, active_patch_id);
            false
        },
        Ok(_) => {
            mark_runtime_failed(session, AudioRuntimeHealth::Degraded, "unexpected runtime boot status".to_owned(), None);
            false
        },
        Err(m) => {
            let patch = clone_opt(&session.audio_runtime.active_patch_id);
            let msg = joined("Audio runtime app state error while starting adapter: ", m.as_str());
            mark_runtime_failed(session, AudioRuntimeHealth::Degraded, msg, patch);
            false
        },
    }
}

/// The session `t` after the adapter answered `status` where `Ready` is
/// expected: ready with the reported patch; a failure, or an adapter error
/// (its text after `error_prefix`), fails the runtime; any other answer
/// fails it with `unexpected`.
pub open spec fn ready_step(
    s: SessionDocument,
    status: Result<RuntimeAdapterStatus, String>,
    error_prefix: Seq<char>,
    unexpected: Seq<char>,
    t: SessionDocument,
) -> bool {
        match status {
            Ok(RuntimeAdapterStatus::Ready { active_patch_id }) => audio_ready(
                s,
                t,
                active_patch_id,
            ),
            Ok(RuntimeAdapterStatus::Failed { message, active_patch_id }) => audio_failed(
                s,
                t,
                AudioRuntimeHealth::Degraded,
                message@,
                active_patch_id,
            ),
            Ok(_) => audio_failed(
                s,
                t,
                AudioRuntimeHealth::Degraded,
                unexpected,
                s.audio_runtime.active_patch_id,
            ),
            Err(m) => audio_failed(
                s,
                t,
                AudioRuntimeHealth::Degraded,
                error_prefix + m@,
                s.audio_runtime.active_patch_id,
            ),
        }
}

/// Records an answer where `Ready` is expected.
pub fn apply_ready_status(
    session: &mut SessionDocument,
    status: Result<RuntimeAdapterStatus, String>,
    error_prefix: &str,
    unexpected: &str,
)
    ensures
        ready_step(*old(session), status, error_prefix@, unexpected@, *final(session)),
{
    match status {
        Ok(RuntimeAdapterStatus::Ready { active_patch_id }) => {
            mark_runtime_ready(session, active_patch_id);
        },
        Ok(RuntimeAdapterStatus::Failed { message, active_patch_id }) => {
            mark_runtime_failed(session, AudioRuntimeHealth::Degraded, message, active_patch_id);
        },
        Ok(_) => {
            let patch = clone_opt(&session.audio_runtime.active_patch_id);
            mark_runtime_failed(session, AudioRuntimeHealth::Degraded, unexpected.to_owned(), patch);
        },
        Err(m) => {
            let patch = clone_opt(&session.audio_runtime.active_patch_id);
            let msg = joined(error_prefix, m.as_str());
            mark_runtime_failed(session, AudioRuntimeHealth::Degraded, msg, patch);
        },
    }
}

/// Stopped: idle, health unknown, no patch, rate or block size; the error
/// is the reported failure, if any.
pub fn apply_stop_status(session: &mut SessionDocument, status: RuntimeAdapterStatus)
    ensures
        audio_changed(*old(session), *final(session), RuntimeConnectionState::Disconnected),
        final(session).audio_runtime == (AudioRuntimeState {
            lifecycle: AudioRuntimeLifecycle::Idle,
            health: AudioRuntimeHealth::Unknown,
            active_patch_id: None,
            sample_rate_hz: None,
            block_size: None,
            last_error: match status {
                RuntimeAdapterStatus::Failed { message, .. } => Some(message),
                _ => None,
            },
            ..old(session).audio_runtime
        }),
{
    let error = match status {
        RuntimeAdapterStatus::Failed { message, .. } => Some(message),
        _ => None,
    };
    let a = AudioRuntimeState {
        lifecycle: AudioRuntimeLifecycle::Idle,
        health: AudioRuntimeHealth::Unknown,
        sample_rate_hz: None,
        block_size: None,
        active_patch_id: None,
        last_error: error,
        panic_recovery_count: session.audio_runtime.panic_recovery_count,
    };
    set_audio_state(session, a, RuntimeConnectionState::Disconnected);
}

/// The text recorded after a panic, by what the adapter answered.
pub open spec fn panic_text(result: Result<RuntimeAdapterStatus, String>) -> Seq<char> {
    match result {
        Ok(RuntimeAdapterStatus::Failed { message, .. }) =>
            "Panic recovery completed, but audio runtime reported: "@ + message@,
        Err(m) => "Panic recovery completed after adapter error: "@ + m@,
        _ =>
            "Panic recovery completed: stopped scsynth, cleared the active patch, and returned audio to a restartable idle state."@,
    }
}

/// After a panic: idle, recovered from panic, no patch, rate or block size,
/// one more recovery counted, and the recovery text as the error.
pub fn apply_panic_result(session: &mut SessionDocument, result: Result<RuntimeAdapterStatus, String>)
    requires
        old(session).audio_runtime.panic_recovery_count < u32::MAX,
    ensures
        audio_changed(*old(session), *final(session), RuntimeConnectionState::Disconnected),
        final(session).audio_runtime == (AudioRuntimeState {
            lifecycle: AudioRuntimeLifecycle::Idle,
            health: AudioRuntimeHealth::PanicRecovered,
            active_patch_id: None,
            sample_rate_hz: None,
            block_size: None,
            last_error: final(session).audio_runtime.last_error,
            panic_recovery_count: (old(session).audio_runtime.panic_recovery_count + 1) as u32,
        }),
        final(session).audio_runtime.last_error is Some,
        final(session).audio_runtime.last_error->Some_0@ == panic_text(result),
{
    let text = match &result {
        Ok(RuntimeAdapterStatus::Failed { message, .. }) => joined(
            "Panic recovery completed, but audio runtime reported: ",
            message.as_str(),
        ),
        Err(m) => joined("Panic recovery completed after adapter error: ", m.as_str()),
        _ =>
            "Panic recovery completed: stopped scsynth, cleared the active patch, and returned audio to a restartable idle state.".to_owned(),
    };
    let a = AudioRuntimeState {
        lifecycle: AudioRuntimeLifecycle::Idle,
        health: AudioRuntimeHealth::PanicRecovered,
        sample_rate_hz: None,
        block_size: None,
        active_patch_id: None,
        last_error: Some(text),
        panic_recovery_count: session.audio_runtime.panic_recovery_count + 1,
    };
    set_audio_state(session, a, RuntimeConnectionState::Disconnected);
}


// ---------------------------------------------------------------------------
// The audio runtime manager
// ---------------------------------------------------------------------------

/// The store keeps its hardware state and learn state.
pub open spec fn store_rest_kept(a: SessionStore, b: SessionStore) -> bool {
    &&& b.settings() == a.settings()
    &&& b.status() == a.status()
    &&& b.learn() == a.learn()
}

/// The session after the adapter booted with these numbers.
pub open spec fn with_boot(c: SessionDocument, sample_rate_hz: u32, block_size: u32) -> SessionDocument {
    SessionDocument {
        audio_runtime: AudioRuntimeState {
            sample_rate_hz: Some(sample_rate_hz),
            block_size: Some(block_size),
            ..c.audio_runtime
        },
        ..c
    }
}

/// The adapter answered `b` to `start` and, once booted, `l` to loading
/// the topology.
pub open spec fn boot_then_load(
    c: SessionDocument,
    b: Result<RuntimeAdapterStatus, String>,
    l: Result<RuntimeAdapterStatus, String>,
    t: SessionDocument,
) -> bool {
    match b {
        Ok(RuntimeAdapterStatus::Booted { sample_rate_hz, block_size }) => ready_step(
            with_boot(c, sample_rate_hz, block_size),
            l,
            "Audio runtime app state error while applying topology: "@,
            "unexpected runtime topology load status"@,
            t,
        ),
        _ => boot_step(c, b, t),
    }
}

/// A compile failure recorded with its text after `prefix`.
pub open spec fn compile_failed(c: SessionDocument, t: SessionDocument, prefix: Seq<char>) -> bool {
    if crate::compiler::reference_error(c) is Some {
        audio_failed(
            c,
            t,
            AudioRuntimeHealth::Degraded,
            prefix + crate::compiler::compile_error_text(crate::compiler::reference_error(c)->Some_0),
            c.audio_runtime.active_patch_id,
        )
    } else {
        crate::compiler::launch_blocked(c) && audio_failed(
            c,
            t,
            AudioRuntimeHealth::Degraded,
            prefix + crate::compiler::compile_error_text(crate::compiler::TopologyErrorView::CyclicGraph),
            c.audio_runtime.active_patch_id,
        )
    }
}

/// The engine's call log grew from `before` to `after` by `calls`, for an
/// engine that logs its calls.
pub open spec fn calls_made<A: AudioRuntimeAdapter>(before: A, after: A, calls: Seq<AdapterCall>) -> bool {
    A::logs_calls() ==> after.call_log() =~= before.call_log() + calls
}

/// The calls starting makes once the topology `topo` is compiled: `start`,
/// answered `b`, then, only when the engine booted, loading `topo`,
/// answered `l`.
pub open spec fn start_calls(topo: CompiledTopology, b: AdapterAnswer, l: AdapterAnswer) -> Seq<AdapterCall> {
    match b {
        Ok(RuntimeAdapterStatus::Booted { .. }) => seq![AdapterCall::Start(b), AdapterCall::LoadTopology(topo, l)],
        _ => seq![AdapterCall::Start(b)],
    }
}

/// Starting the audio runtime took session `s` to `t` and the engine from
/// `a0` to `a1`: the runtime is marked connecting; then either compiling
/// fails, which is recorded and leaves the engine untouched, or the
/// compiled topology `topo` goes to the engine, whose answers `b` (to
/// starting) and `l` (to loading, asked only after a boot) the session
/// records.
pub open spec fn audio_start_outcome<A: AudioRuntimeAdapter>(s: SessionDocument, t: SessionDocument, a0: A, a1: A) -> bool {
    exists|c: SessionDocument|
        audio_connecting(s, c) && {
            ||| compile_failed(c, t, "failed to compile audio topology: "@) && a1 == a0
            ||| exists|topo: CompiledTopology, b: AdapterAnswer, l: AdapterAnswer|
                {
                    &&& crate::compiler::reference_error(c) is None
                    &&& crate::compiler::is_topology_of(topo, c)
                    &&& boot_then_load(c, b, l, t)
                    &&& calls_made(a0, a1, start_calls(topo, b, l))
                }
        }
}

/// Reapplying the topology to a running engine took `s` to `t` and the
/// engine from `a0` to `a1`: a compile failure is recorded and leaves the
/// engine untouched; otherwise the compiled topology is loaded and the
/// engine's answer `l` recorded.
pub open spec fn reapply_outcome<A: AudioRuntimeAdapter>(s: SessionDocument, t: SessionDocument, a0: A, a1: A) -> bool {
    ||| compile_failed(s, t, "failed to compile live audio topology reapply: "@) && a1 == a0
    ||| exists|topo: CompiledTopology, l: AdapterAnswer|
        {
            &&& crate::compiler::reference_error(s) is None
            &&& crate::compiler::is_topology_of(topo, s)
            &&& ready_step(s, l, Seq::empty(), "unexpected live topology reapply status"@, t)
            &&& calls_made(a0, a1, seq![AdapterCall::LoadTopology(topo, l)])
        }
}

/// A live parameter update took `s` to `t` and the engine from `a0` to
/// `a1`: the value went to the engine and its answer `l` was recorded.
pub open spec fn live_parameter_outcome<A: AudioRuntimeAdapter>(
    s: SessionDocument,
    t: SessionDocument,
    a0: A,
    a1: A,
    node_id: Seq<char>,
    parameter_id: Seq<char>,
    value: u64,
) -> bool {
    exists|l: AdapterAnswer|
        ready_step(s, l, Seq::empty(), "unexpected live parameter update status"@, t) && calls_made(
            a0,
            a1,
            seq![AdapterCall::SetParameterValue(node_id, parameter_id, value, l)],
        )
}

/// The live updates a macro sends for its audio targets, in target order,
/// each setting value `v`: (node id, parameter id, value).
pub open spec fn macro_audio_sets(targets: Seq<MacroTarget>, v: u64) -> Seq<(Seq<char>, Seq<char>, u64)>
    decreases targets.len(),
{
    if targets.len() == 0 {
        Seq::empty()
    } else {
        let rest = macro_audio_sets(targets.drop_last(), v);
        match targets.last() {
            MacroTarget::AudioParameter { node_id, parameter_id } => rest.push((node_id@, parameter_id@, v)),
            MacroTarget::VisualParameter { .. } => rest,
        }
    }
}

/// `calls` are parameter updates, one per entry of `sets`, in order.
pub open spec fn sets_in_order(calls: Seq<AdapterCall>, sets: Seq<(Seq<char>, Seq<char>, u64)>) -> bool {
    &&& calls.len() == sets.len()
    &&& forall|k: int|
        0 <= k < calls.len() ==> (#[trigger] calls[k] matches AdapterCall::SetParameterValue(n, p, v, _) && (n, p, v)
            == sets[k])
}

/// Stopping: the engine was asked to stop and answered `answer`. An error
/// is reported and changes nothing; any status stops the runtime (idle,
/// health unknown, no patch, rate or block size), a failure's message
/// becoming the recorded error.
pub open spec fn audio_stop_step(
    s: SessionDocument,
    answer: AdapterAnswer,
    t: SessionDocument,
    r: Result<SessionDocument, AudioRuntimeManagerError>,
) -> bool {
    match answer {
        Err(m) => t == s && (r matches Err(AudioRuntimeManagerError::Adapter(e)) && e == m),
        Ok(status) => {
            &&& r matches Ok(d) && d.same(&t)
            &&& audio_changed(s, t, RuntimeConnectionState::Disconnected)
            &&& t.audio_runtime == (AudioRuntimeState {
                lifecycle: AudioRuntimeLifecycle::Idle,
                health: AudioRuntimeHealth::Unknown,
                active_patch_id: None,
                sample_rate_hz: None,
                block_size: None,
                last_error: match status {
                    RuntimeAdapterStatus::Failed { message, .. } => Some(message),
                    _ => None,
                },
                ..s.audio_runtime
            })
        },
    }
}

/// Sends audio commands to an engine and records its answers in the session.
pub struct AudioRuntimeManager<A> {
    adapter: A,
}

impl<A: AudioRuntimeAdapter> AudioRuntimeManager<A> {
    /// The adapter the manager drives.
    pub closed spec fn spec_adapter(&self) -> A {
        self.adapter
    }

    /// A manager driving `adapter`.
    pub fn new_for_tests(adapter: A) -> (m: Self)
        ensures
            m.spec_adapter() == adapter,
    {
        AudioRuntimeManager { adapter }
    }

    /// The adapter the manager drives.
    pub fn adapter(&self) -> (r: &A)
        ensures
            *r == self.spec_adapter(),
    {
        &self.adapter
    }

    /// Starts the engine: marks the runtime connecting, compiles the
    /// topology, boots the engine and loads the topology, recording every
    /// failure in the session. Returns the resulting session.
    pub fn start(&mut self, store: &mut SessionStore) -> (r: Result<SessionDocument, AudioRuntimeManagerError>)
        requires
            channel_sum(enabled_buses(old(store).session().buses@)) <= u32::MAX,
        ensures
            store_rest_kept(*old(store), *final(store)),
            r matches Ok(d) && d.same(&final(store).session()),
            audio_start_outcome(
                old(store).session(),
                final(store).session(),
                old(self).spec_adapter(),
                final(self).spec_adapter(),
            ),
    {
        set_runtime_connecting(store.current_mut());
        let ghost c = store.session();
        let ghost a0 = self.spec_adapter();
        let compiled = compile_session_to_topology(store.current_ref());
        match compiled {
            Err(e) => {
                let text = e.message();
                let msg = joined("failed to compile audio topology: ", text.as_str());
                let patch = clone_opt(&store.current_ref().audio_runtime.active_patch_id);
                mark_runtime_failed(store.current_mut(), AudioRuntimeHealth::Degraded, msg, patch);
                Ok(store.current())
            },
            Ok(topology) => {
                let b = self.adapter.start();
                let ghost gb = b;
                let booted = apply_boot_status(store.current_mut(), b);
                if !booted {
                    assert(boot_then_load(c, gb, gb, store.session()));
                    assert(calls_made(a0, self.spec_adapter(), start_calls(topology, gb, gb)));
                    return Ok(store.current());
                }
                let l = self.adapter.load_topology(&topology);
                let ghost gl = l;
                apply_ready_status(
                    store.current_mut(),
                    l,
                    "Audio runtime app state error while applying topology: ",
                    "unexpected runtime topology load status",
                );
                assert(boot_then_load(c, gb, gl, store.session()));
                assert(calls_made(a0, self.spec_adapter(), start_calls(topology, gb, gl)));
                Ok(store.current())
            },
        }
    }

    fn reapply_live_topology(&mut self, store: &mut SessionStore) -> (r: Result<SessionDocument, AudioRuntimeManagerError>)
        requires
            channel_sum(enabled_buses(old(store).session().buses@)) <= u32::MAX,
        ensures
            store_rest_kept(*old(store), *final(store)),
            r matches Ok(d) && d.same(&final(store).session()),
            reapply_outcome(old(store).session(), final(store).session(), old(self).spec_adapter(), final(self).spec_adapter()),
    {
        let compiled = compile_session_to_topology(store.current_ref());
        match compiled {
            Err(e) => {
                let text = e.message();
                let msg = joined("failed to compile live audio topology reapply: ", text.as_str());
                let patch = clone_opt(&store.current_ref().audio_runtime.active_patch_id);
                mark_runtime_failed(store.current_mut(), AudioRuntimeHealth::Degraded, msg, patch);
                Ok(store.current())
            },
            Ok(topology) => {
                let ghost a0 = self.spec_adapter();
                let l = self.adapter.load_topology(&topology);
                let ghost gl = l;
                apply_ready_status(store.current_mut(), l, "", "unexpected live topology reapply status");
                assert(ready_step(old(store).session(), gl, Seq::empty(), "unexpected live topology reapply status"@, store.session())) by {
                    reveal_strlit("");
                }
                assert(calls_made(a0, self.spec_adapter(), seq![AdapterCall::LoadTopology(topology, gl)]));
                Ok(store.current())
            },
        }
    }

    fn set_live_parameter(
        &mut self,
        store: &mut SessionStore,
        node_id: &str,
        parameter_id: &str,
        value: u64,
    ) -> (r: Result<SessionDocument, AudioRuntimeManagerError>)
        ensures
            store_rest_kept(*old(store), *final(store)),
            r matches Ok(d) && d.same(&final(store).session()),
            live_parameter_outcome(
                old(store).session(),
                final(store).session(),
                old(self).spec_adapter(),
                final(self).spec_adapter(),
                node_id@,
                parameter_id@,
                value,
            ),
    {
        let ghost a0 = self.spec_adapter();
        let l = self.adapter.set_parameter_value(node_id, parameter_id, value);
        let ghost gl = l;
        apply_ready_status(store.current_mut(), l, "", "unexpected live parameter update status");
        assert(ready_step(old(store).session(), gl, Seq::empty(), "unexpected live parameter update status"@, store.session())) by {
            reveal_strlit("");
        }
        assert(calls_made(a0, self.spec_adapter(), seq![AdapterCall::SetParameterValue(node_id@, parameter_id@, value, gl)]));
        Ok(store.current())
    }

    /// Follows a graph edit on a ready engine: a parameter change is sent
    /// live, a structural change reapplies the whole topology. Nothing
    /// happens unless the runtime is ready.
    pub fn reconcile_graph_edit(&mut self, store: &mut SessionStore, command: &GraphEditCommand) -> (r: Result<
        SessionDocument,
        AudioRuntimeManagerError,
    >)
        requires
            channel_sum(enabled_buses(old(store).session().buses@)) <= u32::MAX,
        ensures
            store_rest_kept(*old(store), *final(store)),
            r matches Ok(d) && d.same(&final(store).session()),
            old(store).session().audio_runtime.lifecycle != AudioRuntimeLifecycle::Ready ==> final(store).session()
                == old(store).session() && final(self).spec_adapter() == old(self).spec_adapter(),
            old(store).session().audio_runtime.lifecycle == AudioRuntimeLifecycle::Ready ==> match *command {
                GraphEditCommand::SetParameterValue { node_id, parameter_id, value } => live_parameter_outcome(
                    old(store).session(),
                    final(store).session(),
                    old(self).spec_adapter(),
                    final(self).spec_adapter(),
                    node_id@,
                    parameter_id@,
                    value,
                ),
                _ => reapply_outcome(
                    old(store).session(),
                    final(store).session(),
                    old(self).spec_adapter(),
                    final(self).spec_adapter(),
                ),
            },
    {
        if store.current_ref().audio_runtime.lifecycle != AudioRuntimeLifecycle::Ready {
            return Ok(store.current());
        }
        match command {
            GraphEditCommand::SetParameterValue { node_id, parameter_id, value } =>
                self.set_live_parameter(store, node_id.as_str(), parameter_id.as_str(), *value),
            _ => self.reapply_live_topology(store),
        }
    }

    /// Reapplies the topology when the engine is ready.
    pub fn reload_topology_if_ready(&mut self, store: &mut SessionStore) -> (r: Result<
        SessionDocument,
        AudioRuntimeManagerError,
    >)
        requires
            channel_sum(enabled_buses(old(store).session().buses@)) <= u32::MAX,
        ensures
            store_rest_kept(*old(store), *final(store)),
            r matches Ok(d) && d.same(&final(store).session()),
            old(store).session().audio_runtime.lifecycle != AudioRuntimeLifecycle::Ready ==> final(store).session()
                == old(store).session() && final(self).spec_adapter() == old(self).spec_adapter(),
            old(store).session().audio_runtime.lifecycle == AudioRuntimeLifecycle::Ready ==> reapply_outcome(
                old(store).session(),
                final(store).session(),
                old(self).spec_adapter(),
                final(self).spec_adapter(),
            ),
    {
        if store.current_ref().audio_runtime.lifecycle != AudioRuntimeLifecycle::Ready {
            return Ok(store.current());
        }
        self.reapply_live_topology(store)
    }

    /// Stops the engine; an adapter error leaves the session as it was.
    pub fn stop(&mut self, store: &mut SessionStore) -> (r: Result<SessionDocument, AudioRuntimeManagerError>)
        ensures
            store_rest_kept(*old(store), *final(store)),
            exists|answer: AdapterAnswer|
                audio_stop_step(old(store).session(), answer, final(store).session(), r) && calls_made(
                    old(self).spec_adapter(),
                    final(self).spec_adapter(),
                    seq![AdapterCall::Stop(answer)],
                ),
    {
        let ghost a0 = self.spec_adapter();
        let answer = self.adapter.stop();
        let ghost ga = answer;
        let status = match answer {
            Ok(s) => s,
            Err(m) => {
                let r = Err(AudioRuntimeManagerError::Adapter(m));
                assert(audio_stop_step(old(store).session(), ga, store.session(), r));
                assert(calls_made(a0, self.spec_adapter(), seq![AdapterCall::Stop(ga)]));
                return r;
            },
        };
        apply_stop_status(store.current_mut(), status);
        let doc = store.current();
        assert(audio_stop_step(old(store).session(), ga, store.session(), Ok(doc)));
        assert(calls_made(a0, self.spec_adapter(), seq![AdapterCall::Stop(ga)]));
        Ok(doc)
    }

    /// Panic: stops everything and records the recovery.
    pub fn panic(&mut self, store: &mut SessionStore) -> (r: Result<SessionDocument, AudioRuntimeManagerError>)
        requires
            old(store).session().audio_runtime.panic_recovery_count < u32::MAX,
        ensures
            store_rest_kept(*old(store), *final(store)),
            r matches Ok(d) && d.same(&final(store).session()),
            audio_changed(old(store).session(), final(store).session(), RuntimeConnectionState::Disconnected),
            final(store).session().audio_runtime.lifecycle == AudioRuntimeLifecycle::Idle,
            final(store).session().audio_runtime.health == AudioRuntimeHealth::PanicRecovered,
            final(store).session().audio_runtime.panic_recovery_count == old(store).session().audio_runtime.panic_recovery_count + 1,
            final(store).session().audio_runtime.last_error is Some,
            final(store).session().audio_runtime.active_patch_id is None,
            final(store).session().audio_runtime.sample_rate_hz is None,
            final(store).session().audio_runtime.block_size is None,
            exists|p: AdapterAnswer|
                final(store).session().audio_runtime.last_error->Some_0@ == #[trigger] panic_text(p) && calls_made(
                    old(self).spec_adapter(),
                    final(self).spec_adapter(),
                    seq![AdapterCall::Panic(p)],
                ),
    {
        let ghost a0 = self.spec_adapter();
        let p = self.adapter.panic();
        let ghost gp = p;
        apply_panic_result(store.current_mut(), p);
        assert(store.session().audio_runtime.last_error->Some_0@ == panic_text(gp));
        assert(calls_made(a0, self.spec_adapter(), seq![AdapterCall::Panic(gp)]));
        Ok(store.current())
    }

    /// Sends a macro's new value to its audio targets on a ready engine
    /// (`scale(start, end, t)` computes the value the macro's range takes
    /// at `t`). Nothing happens unless the runtime is ready and the macro
    /// exists; otherwise only the audio runtime state and its status entry
    /// change.
    pub fn reconcile_macro_value<S: Fn(u64, u64, u64) -> u64>(
        &mut self,
        store: &mut SessionStore,
        macro_id: &String,
        value: u64,
        scale: &S,
    ) -> (r: Result<SessionDocument, AudioRuntimeManagerError>)
        requires
            forall|a: u64, b: u64, c: u64| scale.requires((a, b, c)),
        ensures
            store_rest_kept(*old(store), *final(store)),
            r matches Ok(d) && d.same(&final(store).session()),
            old(store).session().audio_runtime.lifecycle != AudioRuntimeLifecycle::Ready || !crate::lookup::has_id(
                old(store).session().macros@,
                macro_id@,
            ) ==> final(store).session() == old(store).session() && final(self).spec_adapter()
                == old(self).spec_adapter(),
            old(store).session().audio_runtime.lifecycle == AudioRuntimeLifecycle::Ready && crate::lookup::has_id(
                old(store).session().macros@,
                macro_id@,
            ) ==> {
                let m = crate::lookup::find_id(old(store).session().macros@, macro_id@);
                exists|v: u64, calls: Seq<AdapterCall>|
                    scale.ensures((m.range_start, m.range_end, crate::float_bits::spec_clamp(value, 0, crate::macros::UNIT_MAX)), v)
                        && calls_made(old(self).spec_adapter(), final(self).spec_adapter(), calls)
                        && sets_in_order(calls, macro_audio_sets(m.targets@, v))
            },
            audio_only_changed(old(store).session(), final(store).session()),
    {
        if store.current_ref().audio_runtime.lifecycle != AudioRuntimeLifecycle::Ready {
            return Ok(store.current());
        }
        let i = match crate::lookup::find_by_id(&store.current_ref().macros, macro_id) {
            Some(i) => i,
            None => {
                return Ok(store.current());
            },
        };
        proof {
            crate::macros::lemma_unit_range();
        }
        let m = store.current_ref().macros[i].clone();
        let t = crate::float_bits::f64_clamp(value, 0, crate::macros::UNIT_MAX);
        let v = scale(m.range_start, m.range_end, t);
        let ghost s0 = store.session();
        let ghost a0 = self.spec_adapter();
        let ghost mut calls: Seq<AdapterCall> = Seq::empty();
        let mut k: usize = 0;
        assert(m.targets@.take(0) =~= Seq::<MacroTarget>::empty());
        while k < m.targets.len()
            invariant
                k <= m.targets@.len(),
                calls_made(a0, self.spec_adapter(), calls),
                sets_in_order(calls, macro_audio_sets(m.targets@.take(k as int), v)),
                store_rest_kept(*old(store), *store),
                store.session().macros@ == s0.macros@,
                audio_only_changed(s0, store.session()),
                s0 == old(store).session(),
            decreases m.targets.len() - k,
        {
            assert(m.targets@.take(k as int + 1).drop_last() =~= m.targets@.take(k as int));
            assert(m.targets@.take(k as int + 1).last() == m.targets@[k as int]);
            match &m.targets[k] {
                MacroTarget::AudioParameter { node_id, parameter_id } => {
                    let ghost before = store.session();
                    let ghost a1 = self.spec_adapter();
                    let _ = self.set_live_parameter(store, node_id.as_str(), parameter_id.as_str(), v);
                    proof {
                        let l = choose|l: AdapterAnswer|
                            ready_step(before, l, Seq::empty(), "unexpected live parameter update status"@, store.session())
                                && calls_made(
                                a1,
                                self.spec_adapter(),
                                seq![AdapterCall::SetParameterValue(node_id@, parameter_id@, v, l)],
                            );
                        lemma_ready_step_audio_only(before, l, Seq::empty(), "unexpected live parameter update status"@, store.session());
                        let old_calls = calls;
                        calls = calls.push(AdapterCall::SetParameterValue(node_id@, parameter_id@, v, l));
                        assert(sets_in_order(calls, macro_audio_sets(m.targets@.take(k as int + 1), v))) by {
                            assert forall|q: int| 0 <= q < calls.len() implies (#[trigger] calls[q] matches AdapterCall::SetParameterValue(n, p, w, _)
                                && (n, p, w) == macro_audio_sets(m.targets@.take(k as int + 1), v)[q]) by {
                                if q < old_calls.len() {
                                    assert(calls[q] == old_calls[q]);
                                }
                            }
                        }
                    }
                },
                MacroTarget::VisualParameter { .. } => {},
            }
            k = k + 1;
        }
        assert(m.targets@.take(k as int) =~= m.targets@);
        proof {
            let fm = crate::lookup::find_id(s0.macros@, macro_id@);
            assert(fm == s0.macros@[i as int]);
            assert(m.targets@ == fm.targets@);
            assert(scale.ensures((fm.range_start, fm.range_end, crate::float_bits::spec_clamp(value, 0, crate::macros::UNIT_MAX)), v));
        }
        Ok(store.current())
    }
}

/// Only the audio runtime state and the status of the audio entries differ.
pub open spec fn audio_only_changed(s: SessionDocument, t: SessionDocument) -> bool {
    &&& t == (SessionDocument { audio_runtime: t.audio_runtime, runtime_status: t.runtime_status, ..s })
    &&& t.runtime_status@.len() == s.runtime_status@.len()
    &&& forall|i: int|
        0 <= i < s.runtime_status@.len() ==> {
            &&& (#[trigger] t.runtime_status@[i]) == (RuntimeStatusRef {
                status: t.runtime_status@[i].status,
                last_error: t.runtime_status@[i].last_error,
                ..s.runtime_status@[i]
            })
            &&& s.runtime_status@[i].runtime != RuntimeKind::Audio ==> t.runtime_status@[i] == s.runtime_status@[i]
        }
}

proof fn lemma_audio_changed_only(s: SessionDocument, t: SessionDocument, st: RuntimeConnectionState)
    requires
        audio_changed(s, t, st),
    ensures
        audio_only_changed(s, t),
{
    let rs = s.runtime_status@;
    if exists|i: int| first_runtime(rs, RuntimeKind::Audio, i) {
        let i = choose|i: int| first_runtime(rs, RuntimeKind::Audio, i);
        assert(t.runtime_status@ == rs.update(i, RuntimeStatusRef { status: st, last_error: t.audio_runtime.last_error, ..rs[i] }));
    }
}

proof fn lemma_ready_step_audio_only(
    s: SessionDocument,
    l: Result<RuntimeAdapterStatus, String>,
    p: Seq<char>,
    u: Seq<char>,
    t: SessionDocument,
)
    requires
        ready_step(s, l, p, u, t),
    ensures
        audio_only_changed(s, t),
{
    match l {
        Ok(RuntimeAdapterStatus::Ready { .. }) => lemma_audio_changed_only(s, t, RuntimeConnectionState::Ready),
        _ => lemma_audio_changed_only(s, t, RuntimeConnectionState::Error),
    }
}


// ---------------------------------------------------------------------------
// Visual runtime
// ---------------------------------------------------------------------------

/// What the visual adapter reports.
#[derive(Debug, PartialEq)]
pub enum VisualAdapterStatus {
    Booted { renderer: String },
    SceneLoaded { scene_id: String, rendering: bool },
    Stopped,
    Panicked,
    Failed { message: String },
}

/// What a visual renderer answers.
pub type VisualAnswer = Result<VisualAdapterStatus, String>;

/// A call made to a visual renderer and the renderer's answer, as plain
/// values.
pub enum VisualCall {
    Start(VisualAnswer),
    /// The scene handed to the renderer.
    LoadScene(CompiledVisualScene, VisualAnswer),
    UpdateParameters(Seq<VisualParameterUpdate>, Result<(), String>),
    Stop(VisualAnswer),
    Panic(VisualAnswer),
}

/// A visual renderer the manager drives.
///
/// A renderer that keeps a log of the calls made to it says so through
/// `logs_calls`, and `call_log` is that log: each call is appended to it.
/// A renderer that keeps none (a sidecar process) leaves both at their
/// defaults, and nothing is claimed of it.
pub trait VisualRuntimeAdapter {
    open spec fn logs_calls() -> bool {
        false
    }

    open spec fn call_log(&self) -> Seq<VisualCall> {
        Seq::empty()
    }

    fn start(&mut self) -> (r: Result<VisualAdapterStatus, String>)
        ensures
            Self::logs_calls() ==> final(self).call_log() == old(self).call_log().push(VisualCall::Start(r)),
    ;

    fn load_scene(&mut self, scene: &CompiledVisualScene) -> (r: Result<VisualAdapterStatus, String>)
        ensures
            Self::logs_calls() ==> final(self).call_log() == old(self).call_log().push(
                VisualCall::LoadScene(*scene, r),
            ),
    ;

    fn update_parameters(&mut self, params: &Vec<VisualParameterUpdate>) -> (r: Result<(), String>)
        ensures
            Self::logs_calls() ==> final(self).call_log() == old(self).call_log().push(
                VisualCall::UpdateParameters(params@, r),
            ),
    ;

    fn stop(&mut self) -> (r: Result<VisualAdapterStatus, String>)
        ensures
            Self::logs_calls() ==> final(self).call_log() == old(self).call_log().push(VisualCall::Stop(r)),
    ;

    fn panic(&mut self) -> (r: Result<VisualAdapterStatus, String>)
        ensures
            Self::logs_calls() ==> final(self).call_log() == old(self).call_log().push(VisualCall::Panic(r)),
    ;
}

/// A renderer that only records the calls made to it, for checking the
/// manager's traffic: it boots as `"recording"`, reports each scene loaded
/// (not rendering), accepts every parameter batch, and stops or panics
/// when asked.
pub struct RecordingVisualAdapter {
    log: Ghost<Seq<VisualCall>>,
    calls: Vec<String>,
}

impl RecordingVisualAdapter {
    pub closed spec fn recorded(&self) -> Seq<VisualCall> {
        self.log@
    }

    /// A renderer that has recorded nothing.
    pub fn new() -> (a: Self)
        ensures
            a.recorded() == Seq::<VisualCall>::empty(),
            a.names() == Seq::<String>::empty(),
    {
        RecordingVisualAdapter { log: Ghost(Seq::empty()), calls: Vec::new() }
    }

    /// The names of the calls made so far, in order.
    pub closed spec fn names(&self) -> Seq<String> {
        self.calls@
    }

    /// The calls made so far, in order, each by name: `start`, `load` and
    /// the scene id, `update`, `stop`, `panic`.
    pub fn call_names(&self) -> (r: &Vec<String>)
        ensures
            r@ == self.names(),
    {
        &self.calls
    }

    fn record(&mut self, name: String, Ghost(c): Ghost<VisualCall>)
        ensures
            final(self).recorded() == old(self).recorded().push(c),
            final(self).names() == old(self).names().push(name),
    {
        let ghost l = self.log@.push(c);
        self.calls.push(name);
        self.log = Ghost(l);
    }
}

impl VisualRuntimeAdapter for RecordingVisualAdapter {
    open spec fn logs_calls() -> bool {
        true
    }

    open spec fn call_log(&self) -> Seq<VisualCall> {
        self.recorded()
    }

    fn start(&mut self) -> (r: Result<VisualAdapterStatus, String>)
        ensures
            r matches Ok(VisualAdapterStatus::Booted { renderer }) && renderer@ == "recording"@,
    {
        let r = Ok(VisualAdapterStatus::Booted { renderer: "recording".to_owned() });
        self.record("start".to_owned(), Ghost(VisualCall::Start(r)));
        r
    }

    fn load_scene(&mut self, scene: &CompiledVisualScene) -> (r: Result<VisualAdapterStatus, String>)
        ensures
            r matches Ok(VisualAdapterStatus::SceneLoaded { scene_id, rendering }) && scene_id@ == scene.scene_id@
                && !rendering,
    {
        let mut name = "load ".to_owned();
        name.append(scene.scene_id.as_str());
        let r = Ok(VisualAdapterStatus::SceneLoaded { scene_id: scene.scene_id.clone(), rendering: false });
        self.record(name, Ghost(VisualCall::LoadScene(*scene, r)));
        r
    }

    fn update_parameters(&mut self, params: &Vec<VisualParameterUpdate>) -> (r: Result<(), String>)
        ensures
            r is Ok,
    {
        let r = Ok(());
        self.record("update".to_owned(), Ghost(VisualCall::UpdateParameters(params@, r)));
        r
    }

    fn stop(&mut self) -> (r: Result<VisualAdapterStatus, String>)
        ensures
            r == Ok::<VisualAdapterStatus, String>(VisualAdapterStatus::Stopped),
    {
        let r = Ok(VisualAdapterStatus::Stopped);
        self.record("stop".to_owned(), Ghost(VisualCall::Stop(r)));
        r
    }

    fn panic(&mut self) -> (r: Result<VisualAdapterStatus, String>)
        ensures
            r == Ok::<VisualAdapterStatus, String>(VisualAdapterStatus::Panicked),
    {
        let r = Ok(VisualAdapterStatus::Panicked);
        self.record("panic".to_owned(), Ghost(VisualCall::Panic(r)));
        r
    }
}

#[derive(Debug)]
pub enum VisualRuntimeManagerError {
    Adapter(String),
}

/// Only the visual runtime state and the visual status entry differ.
pub open spec fn visual_changed(s: SessionDocument, t: SessionDocument, status: RuntimeConnectionState) -> bool {
    &&& t == (SessionDocument { visual_runtime: t.visual_runtime, runtime_status: t.runtime_status, ..s })
    &&& t.runtime_status@ == with_runtime_status(s.runtime_status@, RuntimeKind::Visual, status, t.visual_runtime.last_error)
}

pub open spec fn visual_connecting(s: SessionDocument, t: SessionDocument) -> bool {
    &&& visual_changed(s, t, RuntimeConnectionState::Connecting)
    &&& t.visual_runtime == (VisualRuntimeState {
        lifecycle: VisualRuntimeLifecycle::Starting,
        health: VisualRuntimeHealth::Unknown,
        last_error: None,
        ..s.visual_runtime
    })
}

pub open spec fn visual_failed(s: SessionDocument, t: SessionDocument, health: VisualRuntimeHealth, msg: Seq<char>) -> bool {
    &&& visual_changed(s, t, RuntimeConnectionState::Error)
    &&& t.visual_runtime == (VisualRuntimeState {
        lifecycle: VisualRuntimeLifecycle::Failed,
        health,
        last_error: t.visual_runtime.last_error,
        ..s.visual_runtime
    })
    &&& t.visual_runtime.last_error is Some
    &&& t.visual_runtime.last_error->Some_0@ == msg
}

pub open spec fn visual_loaded(s: SessionDocument, t: SessionDocument, scene_id: String) -> bool {
    &&& visual_changed(s, t, RuntimeConnectionState::Ready)
    &&& t.visual_runtime == (VisualRuntimeState {
        lifecycle: VisualRuntimeLifecycle::Ready,
        health: VisualRuntimeHealth::Healthy,
        active_scene_id: Some(scene_id),
        last_error: None,
        ..s.visual_runtime
    })
}

fn set_visual_state(session: &mut SessionDocument, v: VisualRuntimeState, status: RuntimeConnectionState)
    ensures
        visual_changed(*old(session), *final(session), status),
        final(session).visual_runtime == v,
{
    let err = clone_opt(&v.last_error);
    session.visual_runtime = v;
    set_runtime_status(session, RuntimeKind::Visual, status, err);
}

fn visual_with(
    v: &VisualRuntimeState,
    lifecycle: VisualRuntimeLifecycle,
    health: VisualRuntimeHealth,
    last_error: Option<String>,
) -> (r: VisualRuntimeState)
    ensures
        r == (VisualRuntimeState { lifecycle, health, last_error, ..*v }),
{
    VisualRuntimeState {
        lifecycle,
        health,
        renderer: clone_opt(&v.renderer),
        active_scene_id: clone_opt(&v.active_scene_id),
        fps: v.fps,
        last_error,
    }
}

/// Marks the visual runtime as starting.
pub fn set_visual_connecting(session: &mut SessionDocument)
    ensures
        visual_connecting(*old(session), *final(session)),
{
    let v = visual_with(&session.visual_runtime, VisualRuntimeLifecycle::Starting, VisualRuntimeHealth::Unknown, None);
    set_visual_state(session, v, RuntimeConnectionState::Connecting);
}

/// Marks the visual runtime as failed.
pub fn mark_visual_failed(session: &mut SessionDocument, health: VisualRuntimeHealth, message: String)
    ensures
        visual_failed(*old(session), *final(session), health, message@),
{
    let v = visual_with(&session.visual_runtime, VisualRuntimeLifecycle::Failed, health, Some(message));
    set_visual_state(session, v, RuntimeConnectionState::Error);
}

fn mark_scene_loaded(session: &mut SessionDocument, scene_id: String)
    ensures
        visual_loaded(*old(session), *final(session), scene_id),
{
    let mut v = visual_with(&session.visual_runtime, VisualRuntimeLifecycle::Ready, VisualRuntimeHealth::Healthy, None);
    v.active_scene_id = Some(scene_id);
    set_visual_state(session, v, RuntimeConnectionState::Ready);
}

/// The session `t` after the renderer answered `status` to `start`.
pub open spec fn visual_boot_step(s: SessionDocument, status: Result<VisualAdapterStatus, String>, t: SessionDocument) -> bool {
    match status {
        Ok(VisualAdapterStatus::Booted { renderer }) => t == (SessionDocument {
            visual_runtime: VisualRuntimeState { renderer: Some(renderer), ..s.visual_runtime },
            ..s
        }),
        Ok(VisualAdapterStatus::Failed { message }) => visual_failed(s, t, VisualRuntimeHealth::Degraded, message@),
        Ok(_) => visual_failed(s, t, VisualRuntimeHealth::Degraded, "unexpected visual runtime boot status"@),
        Err(m) => visual_failed(s, t, VisualRuntimeHealth::Degraded, m@),
    }
}

/// Records the renderer's answer to `start`; `true` when it booted.
pub fn apply_visual_boot_status(session: &mut SessionDocument, status: Result<VisualAdapterStatus, String>) -> (booted: bool)
    ensures
        booted <==> status matches Ok(VisualAdapterStatus::Booted { .. }),
        visual_boot_step(*old(session), status, *final(session)),
{
    match status {
        Ok(VisualAdapterStatus::Booted { renderer }) => {
            session.visual_runtime.renderer = Some(renderer);
            true
        },
        Ok(VisualAdapterStatus::Failed { message }) => {
            mark_visual_failed(session, VisualRuntimeHealth::Degraded, message);
            false
        },
        Ok(_) => {
            mark_visual_failed(session, VisualRuntimeHealth::Degraded, "unexpected visual runtime boot status".to_owned());
            false
        },
        Err(m) => {
            mark_visual_failed(session, VisualRuntimeHealth::Degraded, m);
            false
        },
    }
}

/// The session `t` after the renderer answered `status` to loading a scene.
pub open spec fn scene_step(s: SessionDocument, status: Result<VisualAdapterStatus, String>, unexpected: Seq<char>, t: SessionDocument) -> bool {
    match status {
        Ok(VisualAdapterStatus::SceneLoaded { scene_id, .. }) => visual_loaded(s, t, scene_id),
        Ok(VisualAdapterStatus::Failed { message }) => visual_failed(s, t, VisualRuntimeHealth::Degraded, message@),
        Ok(_) => visual_failed(s, t, VisualRuntimeHealth::Degraded, unexpected),
        Err(m) => visual_failed(s, t, VisualRuntimeHealth::Degraded, m@),
    }
}

/// Records the renderer's answer to loading a scene.
pub fn apply_scene_status(session: &mut SessionDocument, status: Result<VisualAdapterStatus, String>, unexpected: &str)
    ensures
        scene_step(*old(session), status, unexpected@, *final(session)),
{
    match status {
        Ok(VisualAdapterStatus::SceneLoaded { scene_id, .. }) => mark_scene_loaded(session, scene_id),
        Ok(VisualAdapterStatus::Failed { message }) => mark_visual_failed(session, VisualRuntimeHealth::Degraded, message),
        Ok(_) => mark_visual_failed(session, VisualRuntimeHealth::Degraded, unexpected.to_owned()),
        Err(m) => mark_visual_failed(session, VisualRuntimeHealth::Degraded, m),
    }
}

/// Stopped or panicked: idle, health unknown, no frame rate or renderer;
/// `error` as the error.
pub fn apply_visual_stopped(session: &mut SessionDocument, error: Option<String>)
    ensures
        visual_changed(*old(session), *final(session), RuntimeConnectionState::Disconnected),
        final(session).visual_runtime == (VisualRuntimeState {
            lifecycle: VisualRuntimeLifecycle::Idle,
            health: VisualRuntimeHealth::Unknown,
            fps: None,
            renderer: None,
            last_error: error,
            ..old(session).visual_runtime
        }),
{
    let mut v = visual_with(&session.visual_runtime, VisualRuntimeLifecycle::Idle, VisualRuntimeHealth::Unknown, error);
    v.fps = None;
    v.renderer = None;
    set_visual_state(session, v, RuntimeConnectionState::Disconnected);
}

/// What the renderer's answer `answer` to a stop makes of the session `s`:
/// an adapter error is reported and changes nothing; any status stops the
/// runtime (idle, health unknown, no frame rate or renderer), a failure's
/// message becoming the recorded error and any other status clearing it.
pub open spec fn visual_stop_step(
    s: SessionDocument,
    answer: Result<VisualAdapterStatus, String>,
    t: SessionDocument,
    r: Result<SessionDocument, VisualRuntimeManagerError>,
) -> bool {
    match answer {
        Err(m) => t == s && (r matches Err(VisualRuntimeManagerError::Adapter(e)) && e == m),
        Ok(status) => {
            &&& r matches Ok(d) && d.same(&t)
            &&& visual_changed(s, t, RuntimeConnectionState::Disconnected)
            &&& t.visual_runtime == (VisualRuntimeState {
                lifecycle: VisualRuntimeLifecycle::Idle,
                health: VisualRuntimeHealth::Unknown,
                fps: None,
                renderer: None,
                last_error: match status {
                    VisualAdapterStatus::Failed { message } => Some(message),
                    _ => None,
                },
                ..s.visual_runtime
            })
        },
    }
}

/// Records the renderer's answer to a stop.
pub fn apply_visual_stop_answer(
    store: &mut SessionStore,
    answer: Result<VisualAdapterStatus, String>,
) -> (r: Result<SessionDocument, VisualRuntimeManagerError>)
    ensures
        store_rest_kept(*old(store), *final(store)),
        visual_stop_step(old(store).session(), answer, final(store).session(), r),
{
    let status = match answer {
        Ok(s) => s,
        Err(m) => {
            return Err(VisualRuntimeManagerError::Adapter(m));
        },
    };
    let error = match status {
        VisualAdapterStatus::Failed { message } => Some(message),
        _ => None,
    };
    apply_visual_stopped(store.current_mut(), error);
    Ok(store.current())
}

/// The renderer is up: ready or rendering.
pub open spec fn visual_ready(s: SessionDocument) -> bool {
    s.visual_runtime.lifecycle == VisualRuntimeLifecycle::Ready || s.visual_runtime.lifecycle
        == VisualRuntimeLifecycle::Rendering
}

pub fn visual_runtime_is_ready(session: &SessionDocument) -> (r: bool)
    ensures
        r == visual_ready(*session),
{
    session.visual_runtime.lifecycle == VisualRuntimeLifecycle::Ready || session.visual_runtime.lifecycle
        == VisualRuntimeLifecycle::Rendering
}

/// Some node drawn in the compiled scene has identifier `id`.
pub open spec fn element_shown(session: SessionDocument, id: Seq<char>) -> bool {
    exists|k: int|
        0 <= k < session.nodes@.len() && node_visible(session, #[trigger] session.nodes@[k]) && session.nodes@[k].id@
            == id
}

/// The updates aimed at elements of the compiled scene, in order.
pub open spec fn scene_updates(session: SessionDocument, u: Seq<VisualParameterUpdate>) -> Seq<VisualParameterUpdate>
    decreases u.len(),
{
    if u.len() == 0 {
        u
    } else if element_shown(session, u.last().element_id@) {
        scene_updates(session, u.drop_last()).push(u.last())
    } else {
        scene_updates(session, u.drop_last())
    }
}

fn shows_element(session: &SessionDocument, id: &String) -> (r: bool)
    ensures
        r == element_shown(*session, id@),
{
    let active: Option<usize> = match &session.visual_runtime.active_scene_id {
        Some(sid) => crate::lookup::find_by_id(&session.scenes, sid),
        None => None,
    };
    let mut i: usize = 0;
    while i < session.nodes.len()
        invariant
            i <= session.nodes@.len(),
            match crate::visual_compile::active_scene(*session) {
                Some(k) => active is Some && active->Some_0 as int == k && 0 <= k < session.scenes@.len(),
                None => active is None,
            },
            forall|q: int|
                0 <= q < i ==> !(node_visible(*session, #[trigger] session.nodes@[q]) && session.nodes@[q].id@ == id@),
        decreases session.nodes.len() - i,
    {
        let n = &session.nodes[i];
        let visible = match active {
            Some(si) => {
                assert(si as int == crate::visual_compile::active_scene(*session)->Some_0);
                crate::lookup::contains_string(&session.scenes[si].active_node_ids, &n.id)
            },
            None => n.enabled,
        };
        assert(visible == node_visible(*session, *n));
        if visible && n.id == *id {
            return true;
        }
        i = i + 1;
    }
    false
}

/// Keeps the updates aimed at elements of the compiled scene.
pub fn updates_for_active_visual_scene(session: &SessionDocument, updates: Vec<VisualParameterUpdate>) -> (r: Vec<VisualParameterUpdate>)
    ensures
        r@ == scene_updates(*session, updates@),
{
    let ghost u = updates@;
    let mut updates = updates;
    let mut out: Vec<VisualParameterUpdate> = Vec::new();
    let mut k: usize = 0;
    let total = updates.len();
    while updates.len() > 0
        invariant
            total == u.len(),
            k + updates@.len() == u.len(),
            updates@ == u.skip(k as int),
            out@ == scene_updates(*session, u.take(k as int)),
        decreases updates.len(),
    {
        let x = updates.remove(0);
        assert(u.take(k as int + 1).drop_last() =~= u.take(k as int));
        assert(u.take(k as int + 1).last() == x);
        if shows_element(session, &x.element_id) {
            out.push(x);
        }
        assert(updates@ =~= u.skip(k as int + 1));
        k = k + 1;
    }
    assert(u.take(k as int) =~= u);
    out
}


/// The session `t` after the renderer answered `res` to parameter updates.
pub open spec fn params_step(s: SessionDocument, res: Result<(), String>, t: SessionDocument) -> bool {
    match res {
        Ok(()) => visual_changed(s, t, RuntimeConnectionState::Ready) && t.visual_runtime == (VisualRuntimeState {
            health: VisualRuntimeHealth::Healthy,
            last_error: None,
            ..s.visual_runtime
        }),
        Err(m) => visual_failed(s, t, VisualRuntimeHealth::Degraded, m@),
    }
}

/// Records the renderer's answer to parameter updates.
pub fn apply_params_result(session: &mut SessionDocument, res: Result<(), String>)
    ensures
        params_step(*old(session), res, *final(session)),
{
    match res {
        Ok(()) => {
            let v = visual_with(
                &session.visual_runtime,
                session.visual_runtime.lifecycle,
                VisualRuntimeHealth::Healthy,
                None,
            );
            set_visual_state(session, v, RuntimeConnectionState::Ready);
        },
        Err(m) => mark_visual_failed(session, VisualRuntimeHealth::Degraded, m),
    }
}

/// The session after the renderer booted with `renderer`.
pub open spec fn with_renderer(c: SessionDocument, renderer: String) -> SessionDocument {
    SessionDocument { visual_runtime: VisualRuntimeState { renderer: Some(renderer), ..c.visual_runtime }, ..c }
}

/// The renderer answered `b` to `start` and, once booted, `l` to loading
/// the scene.
pub open spec fn visual_boot_then_load(
    c: SessionDocument,
    b: Result<VisualAdapterStatus, String>,
    l: Result<VisualAdapterStatus, String>,
    t: SessionDocument,
) -> bool {
    match b {
        Ok(VisualAdapterStatus::Booted { renderer }) => scene_step(
            with_renderer(c, renderer),
            l,
            "unexpected visual scene load status"@,
            t,
        ),
        _ => visual_boot_step(c, b, t),
    }
}

/// The renderer's call log grew from `before` to `after` by `calls`, for a
/// renderer that logs its calls.
pub open spec fn visual_calls_made<A: VisualRuntimeAdapter>(before: A, after: A, calls: Seq<VisualCall>) -> bool {
    A::logs_calls() ==> after.call_log() =~= before.call_log() + calls
}

/// Pushing `updates` took session `s` to `t` and the renderer from `a0` to
/// `a1`: when none is aimed at the active scene, nothing happens;
/// otherwise those aimed at it go to the renderer as one batch and its
/// answer `res` is recorded.
pub open spec fn push_outcome<A: VisualRuntimeAdapter>(
    s: SessionDocument,
    updates: Seq<VisualParameterUpdate>,
    t: SessionDocument,
    a0: A,
    a1: A,
) -> bool {
    if scene_updates(s, updates).len() == 0 {
        t == s && a1 == a0
    } else {
        exists|res: Result<(), String>|
            params_step(s, res, t) && visual_calls_made(
                a0,
                a1,
                seq![VisualCall::UpdateParameters(scene_updates(s, updates), res)],
            )
    }
}

/// The calls starting makes with the compiled scene `scene`: `start`,
/// answered `b`, then, only when the renderer booted, loading `scene`,
/// answered `l`.
pub open spec fn visual_start_calls(scene: CompiledVisualScene, b: VisualAnswer, l: VisualAnswer) -> Seq<VisualCall> {
    match b {
        Ok(VisualAdapterStatus::Booted { .. }) => seq![VisualCall::Start(b), VisualCall::LoadScene(scene, l)],
        _ => seq![VisualCall::Start(b)],
    }
}

/// Starting the renderer took `s` to `t` and the renderer from `a0` to
/// `a1`: the runtime is marked connecting, the scene compiled from `s` is
/// loaded once the renderer booted, and the answers are recorded.
pub open spec fn visual_start_outcome<A: VisualRuntimeAdapter, S: Fn(u64, u64, u64) -> u64>(
    s: SessionDocument,
    t: SessionDocument,
    a0: A,
    a1: A,
    scale: S,
) -> bool {
    exists|c: SessionDocument, scene: CompiledVisualScene, b: VisualAnswer, l: VisualAnswer|
        {
            &&& visual_connecting(s, c)
            &&& crate::visual_compile::is_visual_scene_of(scene, s, scale)
            &&& visual_boot_then_load(c, b, l, t)
            &&& visual_calls_made(a0, a1, visual_start_calls(scene, b, l))
        }
}

/// Reloading the scene took `s` to `t` and the renderer from `a0` to `a1`:
/// the scene compiled from `s` went to the renderer and its answer `l` was
/// recorded.
pub open spec fn scene_reload_outcome<A: VisualRuntimeAdapter, S: Fn(u64, u64, u64) -> u64>(
    s: SessionDocument,
    t: SessionDocument,
    a0: A,
    a1: A,
    scale: S,
) -> bool {
    exists|scene: CompiledVisualScene, l: VisualAnswer|
        {
            &&& crate::visual_compile::is_visual_scene_of(scene, s, scale)
            &&& scene_step(s, l, "unexpected visual scene reload status"@, t)
            &&& visual_calls_made(a0, a1, seq![VisualCall::LoadScene(scene, l)])
        }
}

/// The error a panic records from the renderer's answer: a failure's
/// message, or the adapter's error.
pub open spec fn visual_panic_error(p: VisualAnswer) -> Option<String> {
    match p {
        Ok(VisualAdapterStatus::Failed { message }) => Some(message),
        Err(m) => Some(m),
        _ => None,
    }
}

/// Drives a visual renderer and records its answers in the session;
/// `scale(start, end, t)` computes the value a macro's range takes at `t`.
pub struct VisualRuntimeManager<A> {
    adapter: A,
}

impl<A: VisualRuntimeAdapter> VisualRuntimeManager<A> {
    /// The adapter the manager drives.
    pub closed spec fn spec_adapter(&self) -> A {
        self.adapter
    }

    /// A manager driving `adapter`.
    pub fn new_for_tests(adapter: A) -> (m: Self)
        ensures
            m.spec_adapter() == adapter,
    {
        VisualRuntimeManager { adapter }
    }

    /// The adapter the manager drives.
    pub fn adapter(&self) -> (r: &A)
        ensures
            *r == self.spec_adapter(),
    {
        &self.adapter
    }

    /// Starts the renderer and loads the compiled scene.
    pub fn start<S: Fn(u64, u64, u64) -> u64>(&mut self, store: &mut SessionStore, scale: &S) -> (r: Result<
        SessionDocument,
        VisualRuntimeManagerError,
    >)
        requires
            forall|a: u64, b: u64, c: u64| scale.requires((a, b, c)),
        ensures
            store_rest_kept(*old(store), *final(store)),
            r matches Ok(d) && d.same(&final(store).session()),
            visual_start_outcome(
                old(store).session(),
                final(store).session(),
                old(self).spec_adapter(),
                final(self).spec_adapter(),
                *scale,
            ),
    {
        let ghost s0 = store.session();
        let ghost a0 = self.spec_adapter();
        let scene = compile_session_to_visual_scene(store.current_ref(), scale);
        set_visual_connecting(store.current_mut());
        let ghost c = store.session();
        let b = self.adapter.start();
        let ghost gb = b;
        if !apply_visual_boot_status(store.current_mut(), b) {
            assert(visual_boot_then_load(c, gb, gb, store.session()));
            assert(visual_calls_made(a0, self.spec_adapter(), visual_start_calls(scene, gb, gb)));
            return Ok(store.current());
        }
        let l = self.adapter.load_scene(&scene);
        let ghost gl = l;
        apply_scene_status(store.current_mut(), l, "unexpected visual scene load status");
        assert(visual_boot_then_load(c, gb, gl, store.session()));
        assert(visual_calls_made(a0, self.spec_adapter(), visual_start_calls(scene, gb, gl)));
        Ok(store.current())
    }

    /// Stops the renderer; an adapter error leaves the session as it was.
    pub fn stop(&mut self, store: &mut SessionStore) -> (r: Result<SessionDocument, VisualRuntimeManagerError>)
        ensures
            store_rest_kept(*old(store), *final(store)),
            exists|answer: VisualAnswer|
                visual_stop_step(old(store).session(), answer, final(store).session(), r) && visual_calls_made(
                    old(self).spec_adapter(),
                    final(self).spec_adapter(),
                    seq![VisualCall::Stop(answer)],
                ),
    {
        let ghost a0 = self.spec_adapter();
        let answer = self.adapter.stop();
        let ghost ga = answer;
        let r = apply_visual_stop_answer(store, answer);
        assert(visual_calls_made(a0, self.spec_adapter(), seq![VisualCall::Stop(ga)]));
        r
    }

    /// Panic: stops the renderer whatever it answers; a failure or an
    /// adapter error becomes the recorded error.
    pub fn panic(&mut self, store: &mut SessionStore) -> (r: Result<SessionDocument, VisualRuntimeManagerError>)
        ensures
            store_rest_kept(*old(store), *final(store)),
            r matches Ok(d) && d.same(&final(store).session()),
            visual_changed(old(store).session(), final(store).session(), RuntimeConnectionState::Disconnected),
            exists|p: VisualAnswer|
                final(store).session().visual_runtime == (VisualRuntimeState {
                    lifecycle: VisualRuntimeLifecycle::Idle,
                    health: VisualRuntimeHealth::Unknown,
                    fps: None,
                    renderer: None,
                    last_error: visual_panic_error(p),
                    ..old(store).session().visual_runtime
                }) && visual_calls_made(old(self).spec_adapter(), final(self).spec_adapter(), seq![VisualCall::Panic(p)]),
    {
        let ghost a0 = self.spec_adapter();
        let p = self.adapter.panic();
        let ghost gp = p;
        let error = match p {
            Ok(VisualAdapterStatus::Failed { message }) => Some(message),
            Err(m) => Some(m),
            _ => None,
        };
        apply_visual_stopped(store.current_mut(), error);
        assert(visual_calls_made(a0, self.spec_adapter(), seq![VisualCall::Panic(gp)]));
        Ok(store.current())
    }

    /// Recompiles and reloads the scene on a ready renderer.
    pub fn reload_scene<S: Fn(u64, u64, u64) -> u64>(&mut self, store: &mut SessionStore, scale: &S) -> (r: Result<
        SessionDocument,
        VisualRuntimeManagerError,
    >)
        requires
            forall|a: u64, b: u64, c: u64| scale.requires((a, b, c)),
        ensures
            store_rest_kept(*old(store), *final(store)),
            r matches Ok(d) && d.same(&final(store).session()),
            !visual_ready(old(store).session()) ==> final(store).session() == old(store).session() && final(self).spec_adapter() == old(self).spec_adapter(),
            visual_ready(old(store).session()) ==> scene_reload_outcome(
                old(store).session(),
                final(store).session(),
                old(self).spec_adapter(),
                final(self).spec_adapter(),
                *scale,
            ),
    {
        if !visual_runtime_is_ready(store.current_ref()) {
            return Ok(store.current());
        }
        let ghost a0 = self.spec_adapter();
        let scene = compile_session_to_visual_scene(store.current_ref(), scale);
        let l = self.adapter.load_scene(&scene);
        let ghost gl = l;
        apply_scene_status(store.current_mut(), l, "unexpected visual scene reload status");
        assert(scene_step(old(store).session(), gl, "unexpected visual scene reload status"@, store.session()));
        assert(visual_calls_made(a0, self.spec_adapter(), seq![VisualCall::LoadScene(scene, gl)]));
        Ok(store.current())
    }

    fn update_parameters(&mut self, store: &mut SessionStore, updates: Vec<VisualParameterUpdate>) -> (r: Result<
        SessionDocument,
        VisualRuntimeManagerError,
    >)
        ensures
            store_rest_kept(*old(store), *final(store)),
            r matches Ok(d) && d.same(&final(store).session()),
            push_outcome(old(store).session(), updates@, final(store).session(), old(self).spec_adapter(), final(self).spec_adapter()),
    {
        let ghost a0 = self.spec_adapter();
        let updates = updates_for_active_visual_scene(store.current_ref(), updates);
        if updates.len() == 0 {
            return Ok(store.current());
        }
        let res = self.adapter.update_parameters(&updates);
        let ghost gr = res;
        apply_params_result(store.current_mut(), res);
        assert(params_step(old(store).session(), gr, store.session()));
        assert(visual_calls_made(a0, self.spec_adapter(), seq![VisualCall::UpdateParameters(updates@, gr)]));
        Ok(store.current())
    }

    /// Follows a graph edit on a ready renderer: a parameter change is sent
    /// as an update to the node's element, a structural change reloads the
    /// scene.
    pub fn reconcile_graph_edit<S: Fn(u64, u64, u64) -> u64>(
        &mut self,
        store: &mut SessionStore,
        command: &GraphEditCommand,
        scale: &S,
    ) -> (r: Result<SessionDocument, VisualRuntimeManagerError>)
        requires
            forall|a: u64, b: u64, c: u64| scale.requires((a, b, c)),
        ensures
            store_rest_kept(*old(store), *final(store)),
            r matches Ok(d) && d.same(&final(store).session()),
            !visual_ready(old(store).session()) ==> final(store).session() == old(store).session() && final(self).spec_adapter() == old(self).spec_adapter(),
            visual_ready(old(store).session()) ==> match *command {
                GraphEditCommand::SetParameterValue { node_id, parameter_id, value } => push_outcome(
                    old(store).session(),
                    seq![VisualParameterUpdate { element_id: node_id, parameter_id, value }],
                    final(store).session(),
                    old(self).spec_adapter(),
                    final(self).spec_adapter(),
                ),
                _ => scene_reload_outcome(
                    old(store).session(),
                    final(store).session(),
                    old(self).spec_adapter(),
                    final(self).spec_adapter(),
                    *scale,
                ),
            },
    {
        if !visual_runtime_is_ready(store.current_ref()) {
            return Ok(store.current());
        }
        match command {
            GraphEditCommand::SetParameterValue { node_id, parameter_id, value } => {
                let u = vec![VisualParameterUpdate { element_id: node_id.clone(), parameter_id: parameter_id.clone(), value: *value }];
                assert(u@ =~= seq![VisualParameterUpdate { element_id: *node_id, parameter_id: *parameter_id, value: *value }]);
                self.update_parameters(store, u)
            },
            _ => self.reload_scene(store, scale),
        }
    }

    /// Sends a macro's new value to its visual targets on a ready renderer.
    pub fn reconcile_macro_value<S: Fn(u64, u64, u64) -> u64>(
        &mut self,
        store: &mut SessionStore,
        macro_id: &String,
        value: u64,
        scale: &S,
    ) -> (r: Result<SessionDocument, VisualRuntimeManagerError>)
        requires
            forall|a: u64, b: u64, c: u64| scale.requires((a, b, c)),
        ensures
            store_rest_kept(*old(store), *final(store)),
            r matches Ok(d) && d.same(&final(store).session()),
            !visual_ready(old(store).session()) ==> final(store).session() == old(store).session() && final(self).spec_adapter() == old(self).spec_adapter(),
            visual_ready(old(store).session()) ==> exists|u: Seq<VisualParameterUpdate>|
                push_outcome(old(store).session(), u, final(store).session(), old(self).spec_adapter(), final(self).spec_adapter()),
    {
        if !visual_runtime_is_ready(store.current_ref()) {
            return Ok(store.current());
        }
        let updates = crate::visual_compile::visual_updates_for_macro_value(store.current_ref(), macro_id, value, scale);
        let ghost gu = updates@;
        let r = self.update_parameters(store, updates);
        assert(push_outcome(old(store).session(), gu, store.session(), old(self).spec_adapter(), self.spec_adapter()));
        r
    }
}

} // verus!

//! The app/visual-runtime protocol and the minimal visual runtime that
//! answers it without a GPU: handshake, scene loading, parameter batches,
//! ping and shutdown.
//!
//! Real-valued fields hold IEEE-754 bit patterns: `f32::to_bits` for the
//! `u32` fields (colours, positions, scale, frame rates) and `f64::to_bits`
//! for the `u64` parameter values.
use vstd::prelude::*;
use vstd::string::StringExecFns;
use crate::text::{decimal_string, spec_decimal};

verus! {

pub const VISUAL_PROTOCOL_VERSION: u32 = 1;

pub const DEFAULT_READY_TIMEOUT_MS: u64 = 3000;

#[derive(Debug, PartialEq)]
pub struct VisualHandshake {
    pub app_name: String,
    pub app_version: String,
    pub session_id: String,
    pub capabilities: Vec<String>,
}

#[derive(Debug, PartialEq)]
pub struct VisualReady {
    pub renderer: String,
    pub sidecar_version: String,
    pub capabilities: Vec<String>,
}

#[derive(Debug, PartialEq)]
pub struct VisualSceneParameter {
    pub parameter_id: String,
    pub value: u64,
}

#[derive(Debug, PartialEq)]
pub struct VisualSceneElement {
    pub element_id: String,
    pub element_type: String,
    pub position: [u32; 2],
    pub scale: u32,
    pub parameters: Vec<VisualSceneParameter>,
}

#[derive(Debug, PartialEq)]
pub struct VisualSceneSnapshot {
    pub scene_id: String,
    pub background_color: [u32; 4],
    pub elements: Vec<VisualSceneElement>,
}

#[derive(Debug, PartialEq)]
pub struct VisualSceneLoad {
    pub scene: VisualSceneSnapshot,
}

#[derive(Debug, PartialEq)]
pub struct VisualSceneLoaded {
    pub scene_id: String,
}

#[derive(Debug, PartialEq)]
pub struct VisualParameterPatch {
    pub element_id: String,
    pub parameter_id: String,
    pub value: u64,
}

#[derive(Debug, PartialEq)]
pub struct VisualParameterUpdateBatch {
    pub updates: Vec<VisualParameterPatch>,
}

#[derive(Clone, Copy, Debug, PartialEq, Eq, Structural)]
pub struct VisualParameterBatchApplied {
    pub applied_count: u32,
}

#[derive(Clone, Copy, Debug, PartialEq, Eq, Structural)]
pub enum VisualRuntimeEventLevel {
    Info,
    Warning,
    Error,
}

#[derive(Debug, PartialEq)]
pub struct VisualRuntimeEvent {
    pub level: VisualRuntimeEventLevel,
    pub message: String,
    pub scene_id: Option<String>,
}

#[derive(Debug, PartialEq)]
pub struct VisualTelemetry {
    pub scene_id: Option<String>,
    pub fps: u32,
    pub frame_time_ms: Option<u32>,
}

#[derive(Clone, Copy, Debug, PartialEq, Eq, Structural)]
pub enum VisualProtocolErrorCode {
    ProtocolMismatch,
    InvalidMessage,
    SceneRejected,
    ParameterRejected,
    RendererUnavailable,
    InternalError,
}

#[derive(Debug, PartialEq)]
pub struct VisualProtocolError {
    pub code: VisualProtocolErrorCode,
    pub message: String,
    pub recoverable: Option<bool>,
}

#[derive(Clone, Copy, Debug, PartialEq, Eq, Structural)]
pub struct VisualPing {
    pub sent_at_unix_ms: u64,
}

#[derive(Clone, Copy, Debug, PartialEq, Eq, Structural)]
pub struct VisualPong {
    pub sent_at_unix_ms: u64,
}

#[derive(Clone, Copy, Debug, PartialEq, Eq, Structural)]
pub enum VisualShutdownMode {
    Graceful,
    Panic,
}

#[derive(Debug, PartialEq)]
pub struct VisualShutdown {
    pub mode: VisualShutdownMode,
    pub reason: Option<String>,
}

#[derive(Clone, Copy, Debug, PartialEq, Eq, Structural)]
pub struct VisualShutdownComplete {
    pub mode: VisualShutdownMode,
}

#[derive(Debug, PartialEq)]
pub enum AppToVisualPayload {
    Handshake(VisualHandshake),
    LoadScene(VisualSceneLoad),
    UpdateParameters(VisualParameterUpdateBatch),
    Ping(VisualPing),
    Shutdown(VisualShutdown),
}

#[derive(Debug, PartialEq)]
pub struct AppToVisualMessage {
    pub protocol_version: u32,
    pub sequence_id: u64,
    pub payload: AppToVisualPayload,
}

impl AppToVisualMessage {
    /// A message of the current protocol version.
    pub fn new(sequence_id: u64, payload: AppToVisualPayload) -> (m: Self)
        ensures
            m == (AppToVisualMessage { protocol_version: VISUAL_PROTOCOL_VERSION, sequence_id, payload }),
    {
        AppToVisualMessage { protocol_version: VISUAL_PROTOCOL_VERSION, sequence_id, payload }
    }
}

#[derive(Debug, PartialEq)]
pub enum VisualToAppPayload {
    Ready(VisualReady),
    SceneLoaded(VisualSceneLoaded),
    ParameterBatchApplied(VisualParameterBatchApplied),
    RuntimeEvent(VisualRuntimeEvent),
    Telemetry(VisualTelemetry),
    Error(VisualProtocolError),
    Pong(VisualPong),
    ShutdownComplete(VisualShutdownComplete),
}

#[derive(Debug, PartialEq)]
pub struct VisualToAppMessage {
    pub protocol_version: u32,
    pub sequence_id: Option<u64>,
    pub payload: VisualToAppPayload,
}

impl VisualToAppMessage {
    /// The answer to the request with `sequence_id`.
    pub fn response(sequence_id: u64, payload: VisualToAppPayload) -> (m: Self)
        ensures
            m == (VisualToAppMessage {
                protocol_version: VISUAL_PROTOCOL_VERSION,
                sequence_id: Some(sequence_id),
                payload,
            }),
    {
        VisualToAppMessage { protocol_version: VISUAL_PROTOCOL_VERSION, sequence_id: Some(sequence_id), payload }
    }

    /// A message the runtime sends on its own.
    pub fn event(payload: VisualToAppPayload) -> (m: Self)
        ensures
            m == (VisualToAppMessage { protocol_version: VISUAL_PROTOCOL_VERSION, sequence_id: None, payload }),
    {
        VisualToAppMessage { protocol_version: VISUAL_PROTOCOL_VERSION, sequence_id: None, payload }
    }
}

/// The error answer to a message that could not be read (a response when
/// its sequence id is known, else an event).
pub fn error_response(sequence_id: Option<u64>, message: String) -> (m: VisualToAppMessage)
    ensures
        m.protocol_version == VISUAL_PROTOCOL_VERSION,
        m.sequence_id == sequence_id,
        m.payload == VisualToAppPayload::Error(
            VisualProtocolError {
                code: VisualProtocolErrorCode::InvalidMessage,
                message,
                recoverable: Some(true),
            },
        ),
{
    let payload = VisualToAppPayload::Error(
        VisualProtocolError { code: VisualProtocolErrorCode::InvalidMessage, message, recoverable: Some(true) },
    );
    match sequence_id {
        Some(id) => VisualToAppMessage::response(id, payload),
        None => VisualToAppMessage::event(payload),
    }
}

// ---------------------------------------------------------------------------
// The minimal runtime
// ---------------------------------------------------------------------------

/// The renderer name the minimal runtime reports.
pub open spec fn sidecar_renderer() -> Seq<char> {
    "scrysynth-minimal-visual"@
}

/// The version the minimal runtime reports.
pub open spec fn sidecar_version() -> Seq<char> {
    "0.1.0"@
}

/// One known scene parameter and its current value.
pub struct ParameterSlot {
    pub element_id: String,
    pub parameter_id: String,
    pub value: u64,
}

/// A parameter is named by its element and its own id.
pub type ParameterKey = (Seq<char>, Seq<char>);

pub open spec fn slot_key(s: ParameterSlot) -> ParameterKey {
    (s.element_id@, s.parameter_id@)
}

/// No two slots share a key.
pub open spec fn keys_unique(slots: Seq<ParameterSlot>) -> bool {
    forall|i: int, j: int|
        0 <= i < j < slots.len() ==> slot_key(#[trigger] slots[i]) != slot_key(#[trigger] slots[j])
}

/// The slots as a map from key to value.
pub open spec fn slots_map(slots: Seq<ParameterSlot>) -> Map<ParameterKey, u64> {
    Map::new(
        |k: ParameterKey| exists|i: int| 0 <= i < slots.len() && slot_key(#[trigger] slots[i]) == k,
        |k: ParameterKey|
            slots[choose|i: int| 0 <= i < slots.len() && slot_key(#[trigger] slots[i]) == k].value,
    )
}

/// The minimal visual runtime: the loaded scene, the current value of each
/// scene parameter, and whether shutdown was asked for.
pub struct MinimalVisualRuntime {
    scene: Option<VisualSceneSnapshot>,
    parameters: Vec<ParameterSlot>,
    shutdown_requested: bool,
}

/// The parameter values a scene loads with: each element's parameters in
/// order, a later one winning over an earlier one with the same key.
pub open spec fn scene_values(elements: Seq<VisualSceneElement>) -> Map<ParameterKey, u64>
    decreases elements.len(),
{
    if elements.len() == 0 {
        Map::empty()
    } else {
        element_values(scene_values(elements.drop_last()), elements.last(), elements.last().parameters@.len() as int)
    }
}

/// `m` after inserting the first `n` parameters of element `e`.
pub open spec fn element_values(m: Map<ParameterKey, u64>, e: VisualSceneElement, n: int) -> Map<
    ParameterKey,
    u64,
>
    decreases n,
{
    if n <= 0 {
        m
    } else {
        let p = e.parameters@[n - 1];
        element_values(m, e, n - 1).insert((e.element_id@, p.parameter_id@), p.value)
    }
}

/// `m` after a batch of updates, and how many were applied: an update
/// applies only to a parameter the loaded scene has.
pub open spec fn apply_updates(m: Map<ParameterKey, u64>, updates: Seq<VisualParameterPatch>) -> (
    Map<ParameterKey, u64>,
    nat,
)
    decreases updates.len(),
{
    if updates.len() == 0 {
        (m, 0)
    } else {
        let (prev, n) = apply_updates(m, updates.drop_last());
        let u = updates.last();
        let k = (u.element_id@, u.parameter_id@);
        if prev.contains_key(k) {
            (prev.insert(k, u.value), n + 1)
        } else {
            (prev, n)
        }
    }
}

impl MinimalVisualRuntime {
    pub closed spec fn inv(&self) -> bool {
        keys_unique(self.parameters@)
    }

    /// The current parameter values.
    pub closed spec fn values(&self) -> Map<ParameterKey, u64> {
        slots_map(self.parameters@)
    }

    /// The id of the loaded scene, if any.
    pub closed spec fn scene_id(&self) -> Option<Seq<char>> {
        match self.scene {
            Some(s) => Some(s.scene_id@),
            None => None,
        }
    }

    /// Whether shutdown was asked for.
    pub closed spec fn stopping(&self) -> bool {
        self.shutdown_requested
    }

    /// A runtime with no scene.
    pub fn new() -> (r: Self)
        ensures
            r.inv(),
            r.values() == Map::<ParameterKey, u64>::empty(),
            r.scene_id() is None,
            !r.stopping(),
    {
        let r = MinimalVisualRuntime { scene: None, parameters: Vec::new(), shutdown_requested: false };
        assert(r.values() =~= Map::<ParameterKey, u64>::empty());
        r
    }

    /// Whether the runtime was asked to shut down.
    pub fn should_shutdown(&self) -> (r: bool)
        ensures
            r == self.stopping(),
    {
        self.shutdown_requested
    }

    /// The id of the loaded scene, if any.
    pub fn loaded_scene_id(&self) -> (r: Option<String>)
        ensures
            match r {
                Some(id) => self.scene_id() == Some(id@),
                None => self.scene_id() is None,
            },
    {
        match &self.scene {
            Some(scene) => Some(scene.scene_id.clone()),
            None => None,
        }
    }

    /// Drops the loaded scene and its parameter values.
    pub fn clear_scene(&mut self)
        ensures
            final(self).inv(),
            final(self).values() == Map::<ParameterKey, u64>::empty(),
            final(self).scene_id() is None,
            final(self).stopping() == old(self).stopping(),
    {
        self.scene = None;
        self.parameters = Vec::new();
        assert(self.values() =~= Map::<ParameterKey, u64>::empty());
    }

    fn find_slot(&self, element_id: &String, parameter_id: &String) -> (r: Option<usize>)
        requires
            self.inv(),
        ensures
            match r {
                Some(i) => i < self.parameters@.len() && slot_key(self.parameters@[i as int]) == (
                    element_id@,
                    parameter_id@,
                ),
                None => !self.values().contains_key((element_id@, parameter_id@)),
            },
    {
        let mut i: usize = 0;
        while i < self.parameters.len()
            invariant
                i <= self.parameters@.len(),
                forall|j: int|
                    0 <= j < i ==> slot_key(#[trigger] self.parameters@[j]) != (element_id@, parameter_id@),
            decreases self.parameters.len() - i,
        {
            let s = &self.parameters[i];
            if s.element_id.eq(element_id) && s.parameter_id.eq(parameter_id) {
                return Some(i);
            }
            i = i + 1;
        }
        None
    }

    /// The current value of a parameter, if the loaded scene has it.
    pub fn parameter_value(&self, element_id: &String, parameter_id: &String) -> (r: Option<u64>)
        requires
            self.inv(),
        ensures
            match r {
                Some(v) => self.values().contains_key((element_id@, parameter_id@)) && self.values()[(
                    element_id@,
                    parameter_id@,
                )] == v,
                None => !self.values().contains_key((element_id@, parameter_id@)),
            },
    {
        match self.find_slot(element_id, parameter_id) {
            Some(i) => {
                proof {
                    let k = (element_id@, parameter_id@);
                    let c = choose|j: int|
                        0 <= j < self.parameters@.len() && slot_key(#[trigger] self.parameters@[j]) == k;
                    assert(c == i as int) by {
                        if c != i as int {
                            if c < i as int {
                                assert(slot_key(self.parameters@[c]) != slot_key(self.parameters@[i as int]));
                            } else {
                                assert(slot_key(self.parameters@[i as int]) != slot_key(self.parameters@[c]));
                            }
                        }
                    }
                }
                Some(self.parameters[i].value)
            },
            None => None,
        }
    }

    /// Sets a parameter's value, adding it when it is not there yet.
    fn insert_value(&mut self, element_id: &String, parameter_id: &String, value: u64)
        requires
            old(self).inv(),
        ensures
            final(self).inv(),
            final(self).values() == old(self).values().insert((element_id@, parameter_id@), value),
            final(self).scene == old(self).scene,
            final(self).shutdown_requested == old(self).shutdown_requested,
    {
        let ghost k = (element_id@, parameter_id@);
        let ghost old_slots = self.parameters@;
        match self.find_slot(element_id, parameter_id) {
            Some(i) => {
                self.parameters[i].value = value;
                proof {
                    let ns = self.parameters@;
                    assert(forall|j: int| 0 <= j < ns.len() ==> slot_key(#[trigger] ns[j]) == slot_key(old_slots[j]));
                    assert forall|q: ParameterKey| #[trigger] slots_map(ns).contains_key(q) == old(self).values().insert(k, value).contains_key(q) by {
                        if q == k {
                            assert(slot_key(ns[i as int]) == q);
                        } else if old(self).values().contains_key(q) {
                            let c = choose|j: int| 0 <= j < old_slots.len() && slot_key(#[trigger] old_slots[j]) == q;
                            assert(slot_key(ns[c]) == q);
                        }
                    }
                    assert forall|q: ParameterKey| #[trigger] slots_map(ns).contains_key(q) implies slots_map(ns)[q]
                        == old(self).values().insert(k, value)[q] by {
                        let c = choose|j: int| 0 <= j < ns.len() && slot_key(#[trigger] ns[j]) == q;
                        if q == k {
                            if c != i as int {
                                if c < i as int {
                                    assert(slot_key(old_slots[c]) != slot_key(old_slots[i as int]));
                                } else {
                                    assert(slot_key(old_slots[i as int]) != slot_key(old_slots[c]));
                                }
                            }
                        } else {
                            let d = choose|j: int| 0 <= j < old_slots.len() && slot_key(#[trigger] old_slots[j]) == q;
                            assert(c == d) by {
                                if c != d {
                                    if c < d {
                                        assert(slot_key(old_slots[c]) != slot_key(old_slots[d]));
                                    } else {
                                        assert(slot_key(old_slots[d]) != slot_key(old_slots[c]));
                                    }
                                }
                            }
                        }
                    }
                    assert(slots_map(ns) =~= old(self).values().insert(k, value));
                }
            },
            None => {
                self.parameters.push(
                    ParameterSlot {
                        element_id: element_id.clone(),
                        parameter_id: parameter_id.clone(),
                        value,
                    },
                );
                proof {
                    let ns = self.parameters@;
                    let n = old_slots.len();
                    assert(slot_key(ns[n as int]) == k);
                    assert forall|j: int| 0 <= j < n implies slot_key(#[trigger] ns[j]) != k by {
                        if slot_key(ns[j]) == k {
                            assert(slot_key(old_slots[j]) == k);
                        }
                    }
                    assert forall|q: ParameterKey| #[trigger] slots_map(ns).contains_key(q) == old(self).values().insert(k, value).contains_key(q) by {
                        if q != k && old(self).values().contains_key(q) {
                            let c = choose|j: int| 0 <= j < old_slots.len() && slot_key(#[trigger] old_slots[j]) == q;
                            assert(slot_key(ns[c]) == q);
                        }
                        if q != k && slots_map(ns).contains_key(q) {
                            let c = choose|j: int| 0 <= j < ns.len() && slot_key(#[trigger] ns[j]) == q;
                            assert(c < n);
                            assert(slot_key(old_slots[c]) == q);
                        }
                    }
                    assert forall|q: ParameterKey| #[trigger] slots_map(ns).contains_key(q) implies slots_map(ns)[q]
                        == old(self).values().insert(k, value)[q] by {
                        let c = choose|j: int| 0 <= j < ns.len() && slot_key(#[trigger] ns[j]) == q;
                        if q == k {
                            assert(c == n);
                        } else {
                            assert(c < n);
                            let d = choose|j: int| 0 <= j < old_slots.len() && slot_key(#[trigger] old_slots[j]) == q;
                            assert(c == d) by {
                                if c != d {
                                    if c < d {
                                        assert(slot_key(old_slots[c]) != slot_key(old_slots[d]));
                                    } else {
                                        assert(slot_key(old_slots[d]) != slot_key(old_slots[c]));
                                    }
                                }
                            }
                        }
                    }
                    assert(slots_map(ns) =~= old(self).values().insert(k, value));
                }
            },
        }
    }
}

/// The text of a protocol-version mismatch.
pub open spec fn mismatch_text(version: u32) -> Seq<char> {
    "unsupported visual protocol version "@ + spec_decimal(version as nat) + "; expected "@
        + spec_decimal(VISUAL_PROTOCOL_VERSION as nat)
}

/// The capabilities the minimal runtime announces.
pub open spec fn minimal_capabilities() -> Seq<Seq<char>> {
    seq!["scene_load"@, "parameter_batch"@, "shutdown"@]
}

/// The runtime's state other than its parameter values is unchanged.
pub open spec fn same_scene_and_stop(a: MinimalVisualRuntime, b: MinimalVisualRuntime) -> bool {
    a.scene_id() == b.scene_id() && a.stopping() == b.stopping()
}

impl MinimalVisualRuntime {
    /// Answers one message from the app.
    pub fn handle_message(&mut self, message: AppToVisualMessage) -> (out: Vec<VisualToAppMessage>)
        requires
            old(self).inv(),
            message.protocol_version == VISUAL_PROTOCOL_VERSION ==> (message.payload matches AppToVisualPayload::UpdateParameters(
                batch,
            ) ==> batch.updates@.len() <= u32::MAX),
        ensures
            final(self).inv(),
            message.protocol_version != VISUAL_PROTOCOL_VERSION ==> {
                &&& out@.len() == 1
                &&& out@[0].protocol_version == VISUAL_PROTOCOL_VERSION
                &&& out@[0].sequence_id == Some(message.sequence_id)
                &&& match out@[0].payload {
                    VisualToAppPayload::Error(e) => e.code == VisualProtocolErrorCode::ProtocolMismatch
                        && e.message@ == mismatch_text(message.protocol_version) && e.recoverable == Some(
                        false,
                    ),
                    _ => false,
                }
                &&& final(self).values() == old(self).values()
                &&& same_scene_and_stop(*old(self), *final(self))
            },
            message.protocol_version == VISUAL_PROTOCOL_VERSION ==> {
                &&& forall|k: int|
                    0 <= k < out@.len() ==> (#[trigger] out@[k]).protocol_version == VISUAL_PROTOCOL_VERSION
                &&& out@.len() >= 1
                &&& out@[0].sequence_id == Some(message.sequence_id)
                &&& match message.payload {
                    AppToVisualPayload::Handshake(_) => {
                        &&& out@.len() == 2
                        &&& match out@[0].payload {
                            VisualToAppPayload::Ready(r) => r.renderer@ == sidecar_renderer()
                                && r.sidecar_version@ == sidecar_version() && r.capabilities@.map_values(
                                |c: String| c@,
                            ) == minimal_capabilities(),
                            _ => false,
                        }
                        &&& out@[1].sequence_id is None
                        &&& match out@[1].payload {
                            VisualToAppPayload::RuntimeEvent(e) => e.level == VisualRuntimeEventLevel::Info
                                && e.message@ == "minimal visual runtime ready"@ && match e.scene_id {
                                Some(id) => old(self).scene_id() == Some(id@),
                                None => old(self).scene_id() is None,
                            },
                            _ => false,
                        }
                        &&& final(self).values() == old(self).values()
                        &&& same_scene_and_stop(*old(self), *final(self))
                    },
                    AppToVisualPayload::LoadScene(load) => {
                        &&& out@.len() == 1
                        &&& out@[0].payload == VisualToAppPayload::SceneLoaded(
                            VisualSceneLoaded { scene_id: load.scene.scene_id },
                        )
                        &&& final(self).values() == scene_values(load.scene.elements@)
                        &&& final(self).scene_id() == Some(load.scene.scene_id@)
                        &&& final(self).stopping() == old(self).stopping()
                    },
                    AppToVisualPayload::UpdateParameters(batch) => {
                        let (m, n) = apply_updates(old(self).values(), batch.updates@);
                        &&& out@.len() == 1
                        &&& out@[0].payload == VisualToAppPayload::ParameterBatchApplied(
                            VisualParameterBatchApplied { applied_count: n as u32 },
                        )
                        &&& final(self).values() == m
                        &&& same_scene_and_stop(*old(self), *final(self))
                    },
                    AppToVisualPayload::Ping(ping) => {
                        &&& out@.len() == 1
                        &&& out@[0].payload == VisualToAppPayload::Pong(
                            VisualPong { sent_at_unix_ms: ping.sent_at_unix_ms },
                        )
                        &&& final(self).values() == old(self).values()
                        &&& same_scene_and_stop(*old(self), *final(self))
                    },
                    AppToVisualPayload::Shutdown(shutdown) => {
                        &&& out@.len() == 1
                        &&& out@[0].payload == VisualToAppPayload::ShutdownComplete(
                            VisualShutdownComplete { mode: shutdown.mode },
                        )
                        &&& final(self).stopping()
                        &&& final(self).values() == old(self).values()
                        &&& final(self).scene_id() == old(self).scene_id()
                    },
                }
            },
    {
        let mut out: Vec<VisualToAppMessage> = Vec::new();
        if message.protocol_version != VISUAL_PROTOCOL_VERSION {
            let mut text = "unsupported visual protocol version ".to_owned();
            let v = decimal_string(message.protocol_version as usize);
            text.append(v.as_str());
            text.append("; expected ");
            let e = decimal_string(VISUAL_PROTOCOL_VERSION as usize);
            text.append(e.as_str());
            out.push(
                VisualToAppMessage::response(
                    message.sequence_id,
                    VisualToAppPayload::Error(
                        VisualProtocolError {
                            code: VisualProtocolErrorCode::ProtocolMismatch,
                            message: text,
                            recoverable: Some(false),
                        },
                    ),
                ),
            );
            return out;
        }
        let seq_id = message.sequence_id;
        match message.payload {
            AppToVisualPayload::Handshake(_) => {
                let mut caps: Vec<String> = Vec::new();
                caps.push("scene_load".to_owned());
                caps.push("parameter_batch".to_owned());
                caps.push("shutdown".to_owned());
                assert(caps@.map_values(|c: String| c@) =~= minimal_capabilities());
                out.push(
                    VisualToAppMessage::response(
                        seq_id,
                        VisualToAppPayload::Ready(
                            VisualReady {
                                renderer: "scrysynth-minimal-visual".to_owned(),
                                sidecar_version: "0.1.0".to_owned(),
                                capabilities: caps,
                            },
                        ),
                    ),
                );
                let scene_id = match &self.scene {
                    Some(scene) => Some(scene.scene_id.clone()),
                    None => None,
                };
                out.push(
                    VisualToAppMessage::event(
                        VisualToAppPayload::RuntimeEvent(
                            VisualRuntimeEvent {
                                level: VisualRuntimeEventLevel::Info,
                                message: "minimal visual runtime ready".to_owned(),
                                scene_id,
                            },
                        ),
                    ),
                );
            },
            AppToVisualPayload::LoadScene(load) => {
                self.parameters = Vec::new();
                assert(self.values() =~= Map::<ParameterKey, u64>::empty());
                let elements = &load.scene.elements;
                let mut i: usize = 0;
                assert(elements@.take(0) =~= Seq::<VisualSceneElement>::empty());
                while i < elements.len()
                    invariant
                        i <= elements@.len(),
                        self.inv(),
                        self.values() == scene_values(elements@.take(i as int)),
                        self.scene == old(self).scene,
                        self.shutdown_requested == old(self).shutdown_requested,
                    decreases elements.len() - i,
                {
                    let e = &elements[i];
                    let ghost before = self.values();
                    let mut j: usize = 0;
                    while j < e.parameters.len()
                        invariant
                            j <= e.parameters@.len(),
                            self.inv(),
                            self.values() == element_values(before, *e, j as int),
                            self.scene == old(self).scene,
                            self.shutdown_requested == old(self).shutdown_requested,
                        decreases e.parameters.len() - j,
                    {
                        let p = &e.parameters[j];
                        self.insert_value(&e.element_id, &p.parameter_id, p.value);
                        j = j + 1;
                    }
                    assert(elements@.take(i as int + 1).drop_last() =~= elements@.take(i as int));
                    i = i + 1;
                }
                assert(elements@.take(i as int) =~= elements@);
                let scene_id = load.scene.scene_id.clone();
                self.scene = Some(load.scene);
                out.push(
                    VisualToAppMessage::response(
                        seq_id,
                        VisualToAppPayload::SceneLoaded(VisualSceneLoaded { scene_id }),
                    ),
                );
            },
            AppToVisualPayload::UpdateParameters(batch) => {
                let ghost start = self.values();
                let mut applied_count: u32 = 0;
                let updates = &batch.updates;
                let mut i: usize = 0;
                assert(updates@.take(0) =~= Seq::<VisualParameterPatch>::empty());
                while i < updates.len()
                    invariant
                        i <= updates@.len(),
                        updates@.len() <= u32::MAX,
                        self.inv(),
                        apply_updates(start, updates@.take(i as int)) == (self.values(), applied_count as nat),
                        applied_count <= i,
                        self.scene == old(self).scene,
                        self.shutdown_requested == old(self).shutdown_requested,
                    decreases updates.len() - i,
                {
                    let u = &updates[i];
                    assert(updates@.take(i as int + 1).drop_last() =~= updates@.take(i as int));
                    assert(updates@.take(i as int + 1).last() == *u);
                    match self.find_slot(&u.element_id, &u.parameter_id) {
                        Some(k) => {
                            assert(self.values().contains_key((u.element_id@, u.parameter_id@))) by {
                                assert(slot_key(self.parameters@[k as int]) == (u.element_id@, u.parameter_id@));
                            }
                            self.insert_value(&u.element_id, &u.parameter_id, u.value);
                            applied_count = applied_count + 1;
                        },
                        None => {},
                    }
                    i = i + 1;
                }
                assert(updates@.take(i as int) =~= updates@);
                out.push(
                    VisualToAppMessage::response(
                        seq_id,
                        VisualToAppPayload::ParameterBatchApplied(VisualParameterBatchApplied { applied_count }),
                    ),
                );
            },
            AppToVisualPayload::Ping(ping) => {
                out.push(
                    VisualToAppMessage::response(
                        seq_id,
                        VisualToAppPayload::Pong(VisualPong { sent_at_unix_ms: ping.sent_at_unix_ms }),
                    ),
                );
            },
            AppToVisualPayload::Shutdown(shutdown) => {
                self.shutdown_requested = true;
                out.push(
                    VisualToAppMessage::response(
                        seq_id,
                        VisualToAppPayload::ShutdownComplete(VisualShutdownComplete { mode: shutdown.mode }),
                    ),
                );
            },
        }
        out
    }
}

} // verus!

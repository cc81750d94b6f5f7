//! The canonical session document and the typed commands that edit it.
//!
//! Every real-valued field (parameter values and ranges, macro values, tempo)
//! holds the IEEE-754 bit pattern of the value (`f64::to_bits`, or
//! `f32::to_bits` for the `u32` fields); see `float_bits` for how the library
//! compares them.
use vstd::prelude::*;

verus! {

/// The schema version written into new sessions.
pub const CURRENT_SCHEMA_VERSION: u32 = 2;

/// A fresh random identifier: a version-4 UUID in lowercase hyphenated form.
///
/// Wraps `uuid::Uuid::new_v4()` and its `Display` (`to_string`). The uuid
/// crate formats every UUID as 36 characters: five groups of lowercase hex
/// digits separated by `-` at positions 8, 13, 18 and 23, and `new_v4` sets
/// the version digit (position 14) to `4`. Which digits come out is left
/// open: they are random.
#[verifier::external_body]
pub fn new_id() -> (id: String)
    ensures
        is_uuid_v4_text(id@),
{
    uuid::Uuid::new_v4().to_string()
}

pub open spec fn is_lower_hex(c: char) -> bool {
    ('0' <= c && c <= '9') || ('a' <= c && c <= 'f')
}

/// The shape of a lowercase hyphenated version-4 UUID.
pub open spec fn is_uuid_v4_text(s: Seq<char>) -> bool {
    &&& s.len() == 36
    &&& forall|i: int|
        0 <= i < 36 ==> if i == 8 || i == 13 || i == 18 || i == 23 {
            #[trigger] s[i] == '-'
        } else {
            is_lower_hex(s[i])
        }
    &&& s[14] == '4'
}

#[derive(Debug, PartialEq)]
pub struct SessionDocument {
    pub schema_version: u32,
    pub session_id: String,
    pub title: String,
    pub created_at: String,
    pub updated_at: String,
    pub transport: TransportState,
    pub nodes: Vec<Node>,
    pub routes: Vec<Route>,
    pub buses: Vec<Bus>,
    pub macros: Vec<MacroDefinition>,
    pub scenes: Vec<SceneDefinition>,
    pub variations: Vec<VariationDefinition>,
    pub ownership_rules: Vec<OwnershipRule>,
    pub runtime_status: Vec<RuntimeStatusRef>,
    pub audio_runtime: AudioRuntimeState,
    pub visual_runtime: VisualRuntimeState,
    pub agent_runtime: AgentRuntimeState,
    pub agent_frozen: bool,
    pub pending_actions: Vec<PendingAction>,
    pub action_history: Vec<ActionHistoryEntry>,
    pub hardware_bindings: Vec<HardwareBinding>,
}

impl SessionDocument {
    /// Field by field equal, collections compared by their contents.
    pub open spec fn same(&self, other: &Self) -> bool {
        &&& self.schema_version == other.schema_version
        &&& self.session_id == other.session_id
        &&& self.title == other.title
        &&& self.created_at == other.created_at
        &&& self.updated_at == other.updated_at
        &&& self.transport == other.transport
        &&& Node::same_seq(self.nodes@, other.nodes@)
        &&& self.routes@ == other.routes@
        &&& self.buses@ == other.buses@
        &&& MacroDefinition::same_seq(self.macros@, other.macros@)
        &&& SceneDefinition::same_seq(self.scenes@, other.scenes@)
        &&& VariationDefinition::same_seq(self.variations@, other.variations@)
        &&& self.ownership_rules@ == other.ownership_rules@
        &&& self.runtime_status@ == other.runtime_status@
        &&& self.audio_runtime == other.audio_runtime
        &&& self.visual_runtime == other.visual_runtime
        &&& self.agent_runtime == other.agent_runtime
        &&& self.agent_frozen == other.agent_frozen
        &&& PendingAction::same_seq(self.pending_actions@, other.pending_actions@)
        &&& ActionHistoryEntry::same_seq(self.action_history@, other.action_history@)
        &&& self.hardware_bindings@ == other.hardware_bindings@
    }

    pub open spec fn same_seq(a: Seq<SessionDocument>, b: Seq<SessionDocument>) -> bool {
        a.len() == b.len() && forall|i: int| 0 <= i < a.len() ==> (#[trigger] a[i]).same(&b[i])
    }

    pub fn clone_seq(v: &Vec<SessionDocument>) -> (r: Vec<SessionDocument>)
        ensures
            SessionDocument::same_seq(r@, v@),
    {
        let mut r: Vec<SessionDocument> = Vec::new();
        let mut i: usize = 0;
        while i < v.len()
            invariant
                i <= v.len(),
                r@.len() == i,
                forall|j: int| 0 <= j < i ==> (#[trigger] r@[j]).same(&v@[j]),
            decreases v.len() - i,
        {
            r.push(v[i].clone());
            i = i + 1;
        }
        r
    }
}

impl Clone for SessionDocument {
    fn clone(&self) -> (r: Self)
        ensures
            r.same(self),
    {
        SessionDocument {
            schema_version: self.schema_version,
            session_id: self.session_id.clone(),
            title: self.title.clone(),
            created_at: self.created_at.clone(),
            updated_at: self.updated_at.clone(),
            transport: self.transport,
            nodes: Node::clone_seq(&self.nodes),
            routes: self.routes.clone(),
            buses: self.buses.clone(),
            macros: MacroDefinition::clone_seq(&self.macros),
            scenes: SceneDefinition::clone_seq(&self.scenes),
            variations: VariationDefinition::clone_seq(&self.variations),
            ownership_rules: self.ownership_rules.clone(),
            runtime_status: self.runtime_status.clone(),
            audio_runtime: self.audio_runtime.clone(),
            visual_runtime: self.visual_runtime.clone(),
            agent_runtime: self.agent_runtime,
            agent_frozen: self.agent_frozen,
            pending_actions: PendingAction::clone_seq(&self.pending_actions),
            action_history: ActionHistoryEntry::clone_seq(&self.action_history),
            hardware_bindings: self.hardware_bindings.clone(),
        }
    }
}


/// Transport: `tempo_bpm` and `position_beats` are `f32` bit patterns.
#[derive(Clone, Copy, Debug, PartialEq, Eq)]
pub struct TransportState {
    pub tempo_bpm: u32,
    pub is_playing: bool,
    pub position_beats: u32,
}

/// `f32` bit pattern of 120.0.
pub const DEFAULT_TEMPO_BPM_BITS: u32 = 0x42f0_0000u32;

impl Default for TransportState {
    fn default() -> (t: Self)
        ensures
            t.tempo_bpm == DEFAULT_TEMPO_BPM_BITS,
            !t.is_playing,
            t.position_beats == 0,
    {
        TransportState { tempo_bpm: DEFAULT_TEMPO_BPM_BITS, is_playing: false, position_beats: 0 }
    }
}

#[derive(Debug, PartialEq)]
pub struct Node {
    pub id: String,
    pub node_type: NodeType,
    /// Catalog identity (`"oscillator"`, `"filter"`, ...).
    pub node_type_id: String,
    pub ports: Vec<Port>,
    pub parameters: Vec<ParameterValue>,
    pub runtime_target: Option<String>,
    pub scene_membership: Vec<String>,
    pub ownership: OwnershipAssignment,
    pub enabled: bool,
    pub audio_primitive: Option<AudioPrimitive>,
    pub bypassed: Option<bool>,
    pub output_kind: Option<OutputKind>,
    pub channel_count: Option<u32>,
}

impl Node {
    /// Field by field equal, collections compared by their contents.
    pub open spec fn same(&self, other: &Self) -> bool {
        &&& self.id == other.id
        &&& self.node_type == other.node_type
        &&& self.node_type_id == other.node_type_id
        &&& self.ports@ == other.ports@
        &&& self.parameters@ == other.parameters@
        &&& self.runtime_target == other.runtime_target
        &&& self.scene_membership@ == other.scene_membership@
        &&& self.ownership == other.ownership
        &&& self.enabled == other.enabled
        &&& self.audio_primitive == other.audio_primitive
        &&& self.bypassed == other.bypassed
        &&& self.output_kind == other.output_kind
        &&& self.channel_count == other.channel_count
    }

    pub open spec fn same_seq(a: Seq<Node>, b: Seq<Node>) -> bool {
        a.len() == b.len() && forall|i: int| 0 <= i < a.len() ==> (#[trigger] a[i]).same(&b[i])
    }

    pub fn clone_seq(v: &Vec<Node>) -> (r: Vec<Node>)
        ensures
            Node::same_seq(r@, v@),
    {
        let mut r: Vec<Node> = Vec::new();
        let mut i: usize = 0;
        while i < v.len()
            invariant
                i <= v.len(),
                r@.len() == i,
                forall|j: int| 0 <= j < i ==> (#[trigger] r@[j]).same(&v@[j]),
            decreases v.len() - i,
        {
            r.push(v[i].clone());
            i = i + 1;
        }
        r
    }
}

impl Clone for Node {
    fn clone(&self) -> (r: Self)
        ensures
            r.same(self),
    {
        Node {
            id: self.id.clone(),
            node_type: self.node_type,
            node_type_id: self.node_type_id.clone(),
            ports: self.ports.clone(),
            parameters: self.parameters.clone(),
            runtime_target: self.runtime_target.clone(),
            scene_membership: self.scene_membership.clone(),
            ownership: self.ownership,
            enabled: self.enabled,
            audio_primitive: self.audio_primitive.clone(),
            bypassed: self.bypassed,
            output_kind: self.output_kind,
            channel_count: self.channel_count,
        }
    }
}


#[derive(Clone, Copy, Debug, PartialEq, Eq, Structural)]
pub enum NodeType {
    Source,
    Effect,
    Mixer,
    Output,
}

#[derive(Debug, PartialEq)]
pub struct Port {
    pub id: String,
    pub name: String,
    pub direction: PortDirection,
    pub signal_type: SignalType,
}

impl Clone for Port {
    fn clone(&self) -> (r: Self)
        ensures
            r == *self,
    {
        Port {
            id: self.id.clone(),
            name: self.name.clone(),
            direction: self.direction,
            signal_type: self.signal_type,
        }
    }
}


#[derive(Clone, Copy, Debug, PartialEq, Eq, Structural)]
pub enum PortDirection {
    Input,
    Output,
}

#[derive(Clone, Copy, Debug, PartialEq, Eq, Structural)]
pub enum SignalType {
    Audio,
    Control,
}

/// A node parameter; `value`, `default_value`, `min_value` and `max_value`
/// are `f64` bit patterns.
#[derive(Debug, PartialEq)]
pub struct ParameterValue {
    pub id: String,
    pub name: String,
    pub value: u64,
    pub default_value: u64,
    pub min_value: u64,
    pub max_value: u64,
    pub unit: String,
}

impl Clone for ParameterValue {
    fn clone(&self) -> (r: Self)
        ensures
            r == *self,
    {
        ParameterValue {
            id: self.id.clone(),
            name: self.name.clone(),
            value: self.value,
            default_value: self.default_value,
            min_value: self.min_value,
            max_value: self.max_value,
            unit: self.unit.clone(),
        }
    }
}


#[derive(Debug, PartialEq)]
pub struct Route {
    pub id: String,
    pub source_node_id: String,
    pub source_port_id: String,
    pub target_node_id: String,
    pub target_port_id: String,
    pub bus_id: Option<String>,
}

impl Clone for Route {
    fn clone(&self) -> (r: Self)
        ensures
            r == *self,
    {
        Route {
            id: self.id.clone(),
            source_node_id: self.source_node_id.clone(),
            source_port_id: self.source_port_id.clone(),
            target_node_id: self.target_node_id.clone(),
            target_port_id: self.target_port_id.clone(),
            bus_id: self.bus_id.clone(),
        }
    }
}


#[derive(Debug, PartialEq)]
pub struct Bus {
    pub id: String,
    pub name: String,
    pub channels: u32,
    pub bus_type: AudioBusType,
    pub is_enabled: bool,
}

impl Clone for Bus {
    fn clone(&self) -> (r: Self)
        ensures
            r == *self,
    {
        Bus {
            id: self.id.clone(),
            name: self.name.clone(),
            channels: self.channels,
            bus_type: self.bus_type,
            is_enabled: self.is_enabled,
        }
    }
}


#[derive(Clone, Copy, Debug, PartialEq, Eq, Structural)]
pub enum AudioBusType {
    Main,
    Cue,
    Auxiliary,
}

#[derive(Clone, Copy, Debug, PartialEq, Eq, Structural)]
pub enum OutputKind {
    Main,
    Cue,
}

#[derive(Debug, PartialEq)]
pub enum AudioPrimitive {
    Source(AudioSourceNode),
    Effect(AudioEffectNode),
    Mixer(AudioMixerNode),
    Output(AudioOutputNode),
}

impl Clone for AudioPrimitive {
    fn clone(&self) -> (r: Self)
        ensures
            r == *self,
    {
        match self {
            AudioPrimitive::Source(x) => AudioPrimitive::Source(x.clone()),
            AudioPrimitive::Effect(x) => AudioPrimitive::Effect(x.clone()),
            AudioPrimitive::Mixer(x) => AudioPrimitive::Mixer(x.clone()),
            AudioPrimitive::Output(x) => AudioPrimitive::Output(x.clone()),
        }
    }
}


#[derive(Debug, PartialEq)]
pub struct AudioSourceNode {
    pub source_type: AudioSourceType,
    pub channel_mode: ChannelMode,
    pub bus_target_id: Option<String>,
}

impl Clone for AudioSourceNode {
    fn clone(&self) -> (r: Self)
        ensures
            r == *self,
    {
        AudioSourceNode {
            source_type: self.source_type,
            channel_mode: self.channel_mode,
            bus_target_id: self.bus_target_id.clone(),
        }
    }
}


#[derive(Debug, PartialEq)]
pub struct AudioEffectNode {
    pub effect_type: AudioEffectType,
    pub bypassed: bool,
    pub bus_target_id: Option<String>,
}

impl Clone for AudioEffectNode {
    fn clone(&self) -> (r: Self)
        ensures
            r == *self,
    {
        AudioEffectNode {
            effect_type: self.effect_type,
            bypassed: self.bypassed,
            bus_target_id: self.bus_target_id.clone(),
        }
    }
}


#[derive(Debug, PartialEq)]
pub struct AudioMixerNode {
    pub channel_mode: ChannelMode,
    pub bus_target_id: Option<String>,
}

impl Clone for AudioMixerNode {
    fn clone(&self) -> (r: Self)
        ensures
            r == *self,
    {
        AudioMixerNode {
            channel_mode: self.channel_mode,
            bus_target_id: self.bus_target_id.clone(),
        }
    }
}


#[derive(Debug, PartialEq)]
pub struct AudioOutputNode {
    pub output_type: AudioOutputType,
    pub channels: u32,
    pub bus_target_id: Option<String>,
}

impl Clone for AudioOutputNode {
    fn clone(&self) -> (r: Self)
        ensures
            r == *self,
    {
        AudioOutputNode {
            output_type: self.output_type,
            channels: self.channels,
            bus_target_id: self.bus_target_id.clone(),
        }
    }
}


#[derive(Clone, Copy, Debug, PartialEq, Eq, Structural)]
pub enum AudioSourceType {
    Oscillator,
    Noise,
}

#[derive(Clone, Copy, Debug, PartialEq, Eq, Structural)]
pub enum AudioEffectType {
    LowPassFilter,
    Delay,
    Reverb,
}

#[derive(Clone, Copy, Debug, PartialEq, Eq, Structural)]
pub enum AudioOutputType {
    Master,
    Cue,
}

#[derive(Clone, Copy, Debug, PartialEq, Eq, Structural)]
pub enum ChannelMode {
    Mono,
    Stereo,
}

/// A macro maps one normalised control onto its targets between
/// `range_start` and `range_end` (`f64` bit patterns).
#[derive(Debug, PartialEq)]
pub struct MacroDefinition {
    pub id: String,
    pub name: String,
    pub target_parameter_ids: Vec<String>,
    pub range_start: u64,
    pub range_end: u64,
    pub targets: Vec<MacroTarget>,
}

impl MacroDefinition {
    /// Field by field equal, collections compared by their contents.
    pub open spec fn same(&self, other: &Self) -> bool {
        &&& self.id == other.id
        &&& self.name == other.name
        &&& self.target_parameter_ids@ == other.target_parameter_ids@
        &&& self.range_start == other.range_start
        &&& self.range_end == other.range_end
        &&& self.targets@ == other.targets@
    }

    pub open spec fn same_seq(a: Seq<MacroDefinition>, b: Seq<MacroDefinition>) -> bool {
        a.len() == b.len() && forall|i: int| 0 <= i < a.len() ==> (#[trigger] a[i]).same(&b[i])
    }

    pub fn clone_seq(v: &Vec<MacroDefinition>) -> (r: Vec<MacroDefinition>)
        ensures
            MacroDefinition::same_seq(r@, v@),
    {
        let mut r: Vec<MacroDefinition> = Vec::new();
        let mut i: usize = 0;
        while i < v.len()
            invariant
                i <= v.len(),
                r@.len() == i,
                forall|j: int| 0 <= j < i ==> (#[trigger] r@[j]).same(&v@[j]),
            decreases v.len() - i,
        {
            r.push(v[i].clone());
            i = i + 1;
        }
        r
    }
}

impl Clone for MacroDefinition {
    fn clone(&self) -> (r: Self)
        ensures
            r.same(self),
    {
        MacroDefinition {
            id: self.id.clone(),
            name: self.name.clone(),
            target_parameter_ids: self.target_parameter_ids.clone(),
            range_start: self.range_start,
            range_end: self.range_end,
            targets: self.targets.clone(),
        }
    }
}


#[derive(Debug, PartialEq)]
pub enum MacroTarget {
    AudioParameter { node_id: String, parameter_id: String },
    VisualParameter { element_id: String, parameter_id: String },
}

impl Clone for MacroTarget {
    fn clone(&self) -> (r: Self)
        ensures
            r == *self,
    {
        match self {
            MacroTarget::AudioParameter { node_id, parameter_id } => MacroTarget::AudioParameter { node_id: node_id.clone(), parameter_id: parameter_id.clone() },
            MacroTarget::VisualParameter { element_id, parameter_id } => MacroTarget::VisualParameter { element_id: element_id.clone(), parameter_id: parameter_id.clone() },
        }
    }
}


#[derive(Debug, PartialEq)]
pub struct SceneDefinition {
    pub id: String,
    pub name: String,
    pub active_node_ids: Vec<String>,
    pub macro_overrides: Vec<MacroOverride>,
}

impl SceneDefinition {
    /// Field by field equal, collections compared by their contents.
    pub open spec fn same(&self, other: &Self) -> bool {
        &&& self.id == other.id
        &&& self.name == other.name
        &&& self.active_node_ids@ == other.active_node_ids@
        &&& self.macro_overrides@ == other.macro_overrides@
    }

    pub open spec fn same_seq(a: Seq<SceneDefinition>, b: Seq<SceneDefinition>) -> bool {
        a.len() == b.len() && forall|i: int| 0 <= i < a.len() ==> (#[trigger] a[i]).same(&b[i])
    }

    pub fn clone_seq(v: &Vec<SceneDefinition>) -> (r: Vec<SceneDefinition>)
        ensures
            SceneDefinition::same_seq(r@, v@),
    {
        let mut r: Vec<SceneDefinition> = Vec::new();
        let mut i: usize = 0;
        while i < v.len()
            invariant
                i <= v.len(),
                r@.len() == i,
                forall|j: int| 0 <= j < i ==> (#[trigger] r@[j]).same(&v@[j]),
            decreases v.len() - i,
        {
            r.push(v[i].clone());
            i = i + 1;
        }
        r
    }
}

impl Clone for SceneDefinition {
    fn clone(&self) -> (r: Self)
        ensures
            r.same(self),
    {
        SceneDefinition {
            id: self.id.clone(),
            name: self.name.clone(),
            active_node_ids: self.active_node_ids.clone(),
            macro_overrides: self.macro_overrides.clone(),
        }
    }
}


/// `value` is an `f64` bit pattern.
#[derive(Debug, PartialEq)]
pub struct MacroOverride {
    pub macro_id: String,
    pub value: u64,
}

impl Clone for MacroOverride {
    fn clone(&self) -> (r: Self)
        ensures
            r == *self,
    {
        MacroOverride {
            macro_id: self.macro_id.clone(),
            value: self.value,
        }
    }
}


#[derive(Debug, PartialEq)]
pub struct VariationDefinition {
    pub id: String,
    pub name: String,
    pub scene_id: String,
    pub parameter_overrides: Vec<ParameterOverride>,
}

impl VariationDefinition {
    /// Field by field equal, collections compared by their contents.
    pub open spec fn same(&self, other: &Self) -> bool {
        &&& self.id == other.id
        &&& self.name == other.name
        &&& self.scene_id == other.scene_id
        &&& self.parameter_overrides@ == other.parameter_overrides@
    }

    pub open spec fn same_seq(a: Seq<VariationDefinition>, b: Seq<VariationDefinition>) -> bool {
        a.len() == b.len() && forall|i: int| 0 <= i < a.len() ==> (#[trigger] a[i]).same(&b[i])
    }

    pub fn clone_seq(v: &Vec<VariationDefinition>) -> (r: Vec<VariationDefinition>)
        ensures
            VariationDefinition::same_seq(r@, v@),
    {
        let mut r: Vec<VariationDefinition> = Vec::new();
        let mut i: usize = 0;
        while i < v.len()
            invariant
                i <= v.len(),
                r@.len() == i,
                forall|j: int| 0 <= j < i ==> (#[trigger] r@[j]).same(&v@[j]),
            decreases v.len() - i,
        {
            r.push(v[i].clone());
            i = i + 1;
        }
        r
    }
}

impl Clone for VariationDefinition {
    fn clone(&self) -> (r: Self)
        ensures
            r.same(self),
    {
        VariationDefinition {
            id: self.id.clone(),
            name: self.name.clone(),
            scene_id: self.scene_id.clone(),
            parameter_overrides: self.parameter_overrides.clone(),
        }
    }
}


/// `value` is an `f64` bit pattern.
#[derive(Debug, PartialEq)]
pub struct ParameterOverride {
    pub parameter_id: String,
    pub value: u64,
}

impl Clone for ParameterOverride {
    fn clone(&self) -> (r: Self)
        ensures
            r == *self,
    {
        ParameterOverride {
            parameter_id: self.parameter_id.clone(),
            value: self.value,
        }
    }
}


#[derive(Debug, PartialEq)]
pub struct OwnershipRule {
    pub id: String,
    pub scope: String,
    pub controller: ControllerKind,
    pub can_override: bool,
}

impl Clone for OwnershipRule {
    fn clone(&self) -> (r: Self)
        ensures
            r == *self,
    {
        OwnershipRule {
            id: self.id.clone(),
            scope: self.scope.clone(),
            controller: self.controller,
            can_override: self.can_override,
        }
    }
}


#[derive(Clone, Copy, Debug, PartialEq, Eq, Structural)]
pub enum ControllerKind {
    User,
    Agent,
    Shared,
}

#[derive(Clone, Copy, Debug, PartialEq, Eq, Structural)]
pub struct OwnershipAssignment {
    pub controller: ControllerKind,
    pub is_locked: bool,
}

#[derive(Debug, PartialEq)]
pub struct RuntimeStatusRef {
    pub id: String,
    pub runtime: RuntimeKind,
    pub status: RuntimeConnectionState,
    pub target_id: Option<String>,
    pub last_error: Option<String>,
}

impl Clone for RuntimeStatusRef {
    fn clone(&self) -> (r: Self)
        ensures
            r == *self,
    {
        RuntimeStatusRef {
            id: self.id.clone(),
            runtime: self.runtime,
            status: self.status,
            target_id: self.target_id.clone(),
            last_error: self.last_error.clone(),
        }
    }
}


#[derive(Clone, Copy, Debug, PartialEq, Eq, Structural)]
pub enum RuntimeKind {
    Audio,
    Visual,
    Agent,
}

#[derive(Clone, Copy, Debug, PartialEq, Eq, Structural)]
pub enum RuntimeConnectionState {
    Disconnected,
    Connecting,
    Ready,
    Error,
}

#[derive(Debug, PartialEq)]
pub struct AudioRuntimeState {
    pub lifecycle: AudioRuntimeLifecycle,
    pub health: AudioRuntimeHealth,
    pub sample_rate_hz: Option<u32>,
    pub block_size: Option<u32>,
    pub active_patch_id: Option<String>,
    pub last_error: Option<String>,
    pub panic_recovery_count: u32,
}

impl Clone for AudioRuntimeState {
    fn clone(&self) -> (r: Self)
        ensures
            r == *self,
    {
        AudioRuntimeState {
            lifecycle: self.lifecycle,
            health: self.health,
            sample_rate_hz: self.sample_rate_hz,
            block_size: self.block_size,
            active_patch_id: self.active_patch_id.clone(),
            last_error: self.last_error.clone(),
            panic_recovery_count: self.panic_recovery_count,
        }
    }
}


#[derive(Clone, Copy, Debug, PartialEq, Eq, Structural)]
pub enum AudioRuntimeLifecycle {
    Idle,
    Booting,
    Ready,
    Failed,
}

#[derive(Clone, Copy, Debug, PartialEq, Eq, Structural)]
pub enum AudioRuntimeHealth {
    Unknown,
    Healthy,
    Degraded,
    PanicRecovered,
}

/// Visual runtime state; `fps` is an `f32` bit pattern.
#[derive(Debug, PartialEq)]
pub struct VisualRuntimeState {
    pub lifecycle: VisualRuntimeLifecycle,
    pub health: VisualRuntimeHealth,
    pub renderer: Option<String>,
    pub active_scene_id: Option<String>,
    pub fps: Option<u32>,
    pub last_error: Option<String>,
}

impl Clone for VisualRuntimeState {
    fn clone(&self) -> (r: Self)
        ensures
            r == *self,
    {
        VisualRuntimeState {
            lifecycle: self.lifecycle,
            health: self.health,
            renderer: self.renderer.clone(),
            active_scene_id: self.active_scene_id.clone(),
            fps: self.fps,
            last_error: self.last_error.clone(),
        }
    }
}


#[derive(Clone, Copy, Debug, PartialEq, Eq, Structural)]
pub enum VisualRuntimeLifecycle {
    Idle,
    Starting,
    Ready,
    Rendering,
    Failed,
}

#[derive(Clone, Copy, Debug, PartialEq, Eq, Structural)]
pub enum VisualRuntimeHealth {
    Unknown,
    Healthy,
    Degraded,
}

#[derive(Clone, Copy, Debug, PartialEq, Eq, Structural)]
pub struct AgentRuntimeState {
    pub is_available: bool,
    pub pending_action_count: u32,
    pub is_frozen: bool,
}

#[derive(Debug, PartialEq)]
pub struct ActorRef {
    pub actor_id: String,
    pub correlation_id: String,
}

impl Clone for ActorRef {
    fn clone(&self) -> (r: Self)
        ensures
            r == *self,
    {
        ActorRef {
            actor_id: self.actor_id.clone(),
            correlation_id: self.correlation_id.clone(),
        }
    }
}


#[derive(Clone, Copy, Debug, PartialEq, Eq, Structural)]
pub enum RiskTier {
    Low,
    Medium,
    High,
}

#[derive(Clone, Copy, Debug, PartialEq, Eq, Structural)]
pub enum PendingActionStatus {
    Pending,
    Approved,
    Rejected,
}

#[derive(Debug, PartialEq)]
pub struct PendingAction {
    pub id: String,
    pub correlation_id: String,
    pub command: TypedCommand,
    pub risk_tier: RiskTier,
    pub created_at: String,
    pub status: PendingActionStatus,
}

impl PendingAction {
    /// Field by field equal, collections compared by their contents.
    pub open spec fn same(&self, other: &Self) -> bool {
        &&& self.id == other.id
        &&& self.correlation_id == other.correlation_id
        &&& self.command.same(&other.command)
        &&& self.risk_tier == other.risk_tier
        &&& self.created_at == other.created_at
        &&& self.status == other.status
    }

    pub open spec fn same_seq(a: Seq<PendingAction>, b: Seq<PendingAction>) -> bool {
        a.len() == b.len() && forall|i: int| 0 <= i < a.len() ==> (#[trigger] a[i]).same(&b[i])
    }

    pub fn clone_seq(v: &Vec<PendingAction>) -> (r: Vec<PendingAction>)
        ensures
            PendingAction::same_seq(r@, v@),
    {
        let mut r: Vec<PendingAction> = Vec::new();
        let mut i: usize = 0;
        while i < v.len()
            invariant
                i <= v.len(),
                r@.len() == i,
                forall|j: int| 0 <= j < i ==> (#[trigger] r@[j]).same(&v@[j]),
            decreases v.len() - i,
        {
            r.push(v[i].clone());
            i = i + 1;
        }
        r
    }
}

impl Clone for PendingAction {
    fn clone(&self) -> (r: Self)
        ensures
            r.same(self),
    {
        PendingAction {
            id: self.id.clone(),
            correlation_id: self.correlation_id.clone(),
            command: self.command.clone(),
            risk_tier: self.risk_tier,
            created_at: self.created_at.clone(),
            status: self.status,
        }
    }
}


#[derive(Debug, PartialEq)]
pub struct DiffSummary {
    pub description: String,
    pub affected_node_ids: Vec<String>,
    pub before_snippet: String,
    pub after_snippet: String,
}

impl DiffSummary {
    /// Field by field equal, collections compared by their contents.
    pub open spec fn same(&self, other: &Self) -> bool {
        &&& self.description == other.description
        &&& self.affected_node_ids@ == other.affected_node_ids@
        &&& self.before_snippet == other.before_snippet
        &&& self.after_snippet == other.after_snippet
    }

    pub open spec fn same_seq(a: Seq<DiffSummary>, b: Seq<DiffSummary>) -> bool {
        a.len() == b.len() && forall|i: int| 0 <= i < a.len() ==> (#[trigger] a[i]).same(&b[i])
    }

    pub fn clone_seq(v: &Vec<DiffSummary>) -> (r: Vec<DiffSummary>)
        ensures
            DiffSummary::same_seq(r@, v@),
    {
        let mut r: Vec<DiffSummary> = Vec::new();
        let mut i: usize = 0;
        while i < v.len()
            invariant
                i <= v.len(),
                r@.len() == i,
                forall|j: int| 0 <= j < i ==> (#[trigger] r@[j]).same(&v@[j]),
            decreases v.len() - i,
        {
            r.push(v[i].clone());
            i = i + 1;
        }
        r
    }
}

impl Clone for DiffSummary {
    fn clone(&self) -> (r: Self)
        ensures
            r.same(self),
    {
        DiffSummary {
            description: self.description.clone(),
            affected_node_ids: self.affected_node_ids.clone(),
            before_snippet: self.before_snippet.clone(),
            after_snippet: self.after_snippet.clone(),
        }
    }
}


#[derive(Debug, PartialEq)]
pub struct ActionHistoryEntry {
    pub id: String,
    pub timestamp: String,
    pub actor: ActorRef,
    pub command: TypedCommand,
    pub diff: DiffSummary,
}

impl ActionHistoryEntry {
    /// Field by field equal, collections compared by their contents.
    pub open spec fn same(&self, other: &Self) -> bool {
        &&& self.id == other.id
        &&& self.timestamp == other.timestamp
        &&& self.actor == other.actor
        &&& self.command.same(&other.command)
        &&& self.diff.same(&other.diff)
    }

    pub open spec fn same_seq(a: Seq<ActionHistoryEntry>, b: Seq<ActionHistoryEntry>) -> bool {
        a.len() == b.len() && forall|i: int| 0 <= i < a.len() ==> (#[trigger] a[i]).same(&b[i])
    }

    pub fn clone_seq(v: &Vec<ActionHistoryEntry>) -> (r: Vec<ActionHistoryEntry>)
        ensures
            ActionHistoryEntry::same_seq(r@, v@),
    {
        let mut r: Vec<ActionHistoryEntry> = Vec::new();
        let mut i: usize = 0;
        while i < v.len()
            invariant
                i <= v.len(),
                r@.len() == i,
                forall|j: int| 0 <= j < i ==> (#[trigger] r@[j]).same(&v@[j]),
            decreases v.len() - i,
        {
            r.push(v[i].clone());
            i = i + 1;
        }
        r
    }
}

impl Clone for ActionHistoryEntry {
    fn clone(&self) -> (r: Self)
        ensures
            r.same(self),
    {
        ActionHistoryEntry {
            id: self.id.clone(),
            timestamp: self.timestamp.clone(),
            actor: self.actor.clone(),
            command: self.command.clone(),
            diff: self.diff.clone(),
        }
    }
}


/// A parsed request; `confidence` is an `f64` bit pattern.
#[derive(Debug, PartialEq)]
pub struct AgentIntent {
    pub raw_input: String,
    pub parsed_commands: Vec<TypedCommand>,
    pub confidence: u64,
}

impl AgentIntent {
    /// Field by field equal, collections compared by their contents.
    pub open spec fn same(&self, other: &Self) -> bool {
        &&& self.raw_input == other.raw_input
        &&& TypedCommand::same_seq(self.parsed_commands@, other.parsed_commands@)
        &&& self.confidence == other.confidence
    }

    pub open spec fn same_seq(a: Seq<AgentIntent>, b: Seq<AgentIntent>) -> bool {
        a.len() == b.len() && forall|i: int| 0 <= i < a.len() ==> (#[trigger] a[i]).same(&b[i])
    }

    pub fn clone_seq(v: &Vec<AgentIntent>) -> (r: Vec<AgentIntent>)
        ensures
            AgentIntent::same_seq(r@, v@),
    {
        let mut r: Vec<AgentIntent> = Vec::new();
        let mut i: usize = 0;
        while i < v.len()
            invariant
                i <= v.len(),
                r@.len() == i,
                forall|j: int| 0 <= j < i ==> (#[trigger] r@[j]).same(&v@[j]),
            decreases v.len() - i,
        {
            r.push(v[i].clone());
            i = i + 1;
        }
        r
    }
}

impl Clone for AgentIntent {
    fn clone(&self) -> (r: Self)
        ensures
            r.same(self),
    {
        AgentIntent {
            raw_input: self.raw_input.clone(),
            parsed_commands: TypedCommand::clone_seq(&self.parsed_commands),
            confidence: self.confidence,
        }
    }
}


#[derive(Debug, PartialEq)]
pub enum TypedCommand {
    GraphEdit(GraphEditCommand),
    Performance(PerformanceCommand),
}

impl TypedCommand {
    /// Same variant with the same contents, collections compared by their contents.
    pub open spec fn same(&self, other: &Self) -> bool {
        match (self, other) {
            (TypedCommand::GraphEdit(a), TypedCommand::GraphEdit(b)) => a.same(&b),
            (TypedCommand::Performance(a), TypedCommand::Performance(b)) => a == b,
            _ => false,
        }
    }

    pub open spec fn same_seq(a: Seq<TypedCommand>, b: Seq<TypedCommand>) -> bool {
        a.len() == b.len() && forall|i: int| 0 <= i < a.len() ==> (#[trigger] a[i]).same(&b[i])
    }

    pub fn clone_seq(v: &Vec<TypedCommand>) -> (r: Vec<TypedCommand>)
        ensures
            TypedCommand::same_seq(r@, v@),
    {
        let mut r: Vec<TypedCommand> = Vec::new();
        let mut i: usize = 0;
        while i < v.len()
            invariant
                i <= v.len(),
                r@.len() == i,
                forall|j: int| 0 <= j < i ==> (#[trigger] r@[j]).same(&v@[j]),
            decreases v.len() - i,
        {
            r.push(v[i].clone());
            i = i + 1;
        }
        r
    }
}

impl Clone for TypedCommand {
    fn clone(&self) -> (r: Self)
        ensures
            r.same(self),
    {
        match self {
            TypedCommand::GraphEdit(x) => TypedCommand::GraphEdit(x.clone()),
            TypedCommand::Performance(x) => TypedCommand::Performance(x.clone()),
        }
    }
}


/// Graph edits; the `value` of `SetParameterValue` is an `f64` bit pattern.
#[derive(Debug, PartialEq)]
pub enum GraphEditCommand {
    AddNode { node: Node },
    RemoveNode { node_id: String },
    SetNodeEnabled { node_id: String, enabled: bool },
    SetParameterValue { node_id: String, parameter_id: String, value: u64 },
    AddRoute { route: Route },
    RemoveRoute { route_id: String },
    AssignNodeToBus { node_id: String, bus_id: String },
    ClearNodeBusAssignment { node_id: String },
}

impl GraphEditCommand {
    /// Same variant with the same contents, collections compared by their contents.
    pub open spec fn same(&self, other: &Self) -> bool {
        match (self, other) {
            (GraphEditCommand::AddNode { node: a_node }, GraphEditCommand::AddNode { node: b_node }) => a_node.same(&b_node),
            (GraphEditCommand::RemoveNode { node_id: a_node_id }, GraphEditCommand::RemoveNode { node_id: b_node_id }) => a_node_id == b_node_id,
            (GraphEditCommand::SetNodeEnabled { node_id: a_node_id, enabled: a_enabled }, GraphEditCommand::SetNodeEnabled { node_id: b_node_id, enabled: b_enabled }) => a_node_id == b_node_id && a_enabled == b_enabled,
            (GraphEditCommand::SetParameterValue { node_id: a_node_id, parameter_id: a_parameter_id, value: a_value }, GraphEditCommand::SetParameterValue { node_id: b_node_id, parameter_id: b_parameter_id, value: b_value }) => a_node_id == b_node_id && a_parameter_id == b_parameter_id && a_value == b_value,
            (GraphEditCommand::AddRoute { route: a_route }, GraphEditCommand::AddRoute { route: b_route }) => a_route == b_route,
            (GraphEditCommand::RemoveRoute { route_id: a_route_id }, GraphEditCommand::RemoveRoute { route_id: b_route_id }) => a_route_id == b_route_id,
            (GraphEditCommand::AssignNodeToBus { node_id: a_node_id, bus_id: a_bus_id }, GraphEditCommand::AssignNodeToBus { node_id: b_node_id, bus_id: b_bus_id }) => a_node_id == b_node_id && a_bus_id == b_bus_id,
            (GraphEditCommand::ClearNodeBusAssignment { node_id: a_node_id }, GraphEditCommand::ClearNodeBusAssignment { node_id: b_node_id }) => a_node_id == b_node_id,
            _ => false,
        }
    }

    pub open spec fn same_seq(a: Seq<GraphEditCommand>, b: Seq<GraphEditCommand>) -> bool {
        a.len() == b.len() && forall|i: int| 0 <= i < a.len() ==> (#[trigger] a[i]).same(&b[i])
    }

    pub fn clone_seq(v: &Vec<GraphEditCommand>) -> (r: Vec<GraphEditCommand>)
        ensures
            GraphEditCommand::same_seq(r@, v@),
    {
        let mut r: Vec<GraphEditCommand> = Vec::new();
        let mut i: usize = 0;
        while i < v.len()
            invariant
                i <= v.len(),
                r@.len() == i,
                forall|j: int| 0 <= j < i ==> (#[trigger] r@[j]).same(&v@[j]),
            decreases v.len() - i,
        {
            r.push(v[i].clone());
            i = i + 1;
        }
        r
    }
}

impl Clone for GraphEditCommand {
    fn clone(&self) -> (r: Self)
        ensures
            r.same(self),
    {
        match self {
            GraphEditCommand::AddNode { node } => GraphEditCommand::AddNode { node: node.clone() },
            GraphEditCommand::RemoveNode { node_id } => GraphEditCommand::RemoveNode { node_id: node_id.clone() },
            GraphEditCommand::SetNodeEnabled { node_id, enabled } => GraphEditCommand::SetNodeEnabled { node_id: node_id.clone(), enabled: *enabled },
            GraphEditCommand::SetParameterValue { node_id, parameter_id, value } => GraphEditCommand::SetParameterValue { node_id: node_id.clone(), parameter_id: parameter_id.clone(), value: *value },
            GraphEditCommand::AddRoute { route } => GraphEditCommand::AddRoute { route: route.clone() },
            GraphEditCommand::RemoveRoute { route_id } => GraphEditCommand::RemoveRoute { route_id: route_id.clone() },
            GraphEditCommand::AssignNodeToBus { node_id, bus_id } => GraphEditCommand::AssignNodeToBus { node_id: node_id.clone(), bus_id: bus_id.clone() },
            GraphEditCommand::ClearNodeBusAssignment { node_id } => GraphEditCommand::ClearNodeBusAssignment { node_id: node_id.clone() },
        }
    }
}


#[derive(Debug, PartialEq)]
pub enum PerformanceCommand {
    RecallScene { scene_id: String },
    SaveVariation { name: String, scene_id: String },
    RestoreVariation { variation_id: String },
}

impl Clone for PerformanceCommand {
    fn clone(&self) -> (r: Self)
        ensures
            r == *self,
    {
        match self {
            PerformanceCommand::RecallScene { scene_id } => PerformanceCommand::RecallScene { scene_id: scene_id.clone() },
            PerformanceCommand::SaveVariation { name, scene_id } => PerformanceCommand::SaveVariation { name: name.clone(), scene_id: scene_id.clone() },
            PerformanceCommand::RestoreVariation { variation_id } => PerformanceCommand::RestoreVariation { variation_id: variation_id.clone() },
        }
    }
}


/// Macro commands; the real-valued fields are `f64` bit patterns.
#[derive(Debug, PartialEq)]
pub enum MacroCommand {
    CreateMacro { definition: MacroDefinition },
    UpdateMacro {
        macro_id: String,
        name: Option<String>,
        targets: Option<Vec<MacroTarget>>,
        range_start: Option<u64>,
        range_end: Option<u64>,
    },
    RemoveMacro { macro_id: String },
    SetMacroValue { macro_id: String, value: u64 },
}

impl MacroCommand {
    /// Same variant with the same contents, collections compared by their contents.
    pub open spec fn same(&self, other: &Self) -> bool {
        match (self, other) {
            (MacroCommand::CreateMacro { definition: a_definition }, MacroCommand::CreateMacro { definition: b_definition }) => a_definition.same(&b_definition),
            (MacroCommand::UpdateMacro { macro_id: a_macro_id, name: a_name, targets: a_targets, range_start: a_range_start, range_end: a_range_end }, MacroCommand::UpdateMacro { macro_id: b_macro_id, name: b_name, targets: b_targets, range_start: b_range_start, range_end: b_range_end }) => a_macro_id == b_macro_id && a_name == b_name && (match (a_targets, b_targets) { (Some(x), Some(y)) => x@ == y@, (None, None) => true, _ => false }) && a_range_start == b_range_start && a_range_end == b_range_end,
            (MacroCommand::RemoveMacro { macro_id: a_macro_id }, MacroCommand::RemoveMacro { macro_id: b_macro_id }) => a_macro_id == b_macro_id,
            (MacroCommand::SetMacroValue { macro_id: a_macro_id, value: a_value }, MacroCommand::SetMacroValue { macro_id: b_macro_id, value: b_value }) => a_macro_id == b_macro_id && a_value == b_value,
            _ => false,
        }
    }

    pub open spec fn same_seq(a: Seq<MacroCommand>, b: Seq<MacroCommand>) -> bool {
        a.len() == b.len() && forall|i: int| 0 <= i < a.len() ==> (#[trigger] a[i]).same(&b[i])
    }

    pub fn clone_seq(v: &Vec<MacroCommand>) -> (r: Vec<MacroCommand>)
        ensures
            MacroCommand::same_seq(r@, v@),
    {
        let mut r: Vec<MacroCommand> = Vec::new();
        let mut i: usize = 0;
        while i < v.len()
            invariant
                i <= v.len(),
                r@.len() == i,
                forall|j: int| 0 <= j < i ==> (#[trigger] r@[j]).same(&v@[j]),
            decreases v.len() - i,
        {
            r.push(v[i].clone());
            i = i + 1;
        }
        r
    }
}

impl Clone for MacroCommand {
    fn clone(&self) -> (r: Self)
        ensures
            r.same(self),
    {
        match self {
            MacroCommand::CreateMacro { definition } => MacroCommand::CreateMacro { definition: definition.clone() },
            MacroCommand::UpdateMacro { macro_id, name, targets, range_start, range_end } => MacroCommand::UpdateMacro { macro_id: macro_id.clone(), name: name.clone(), targets: targets.clone(), range_start: *range_start, range_end: *range_end },
            MacroCommand::RemoveMacro { macro_id } => MacroCommand::RemoveMacro { macro_id: macro_id.clone() },
            MacroCommand::SetMacroValue { macro_id, value } => MacroCommand::SetMacroValue { macro_id: macro_id.clone(), value: *value },
        }
    }
}


#[derive(Debug, PartialEq)]
pub enum HardwareSource {
    MidiCc { channel: u8, controller: u8 },
    MidiNote { channel: u8, note: u8 },
    MidiPitchBend { channel: u8 },
    OscAddress { address: String },
}

impl Clone for HardwareSource {
    fn clone(&self) -> (r: Self)
        ensures
            r == *self,
    {
        match self {
            HardwareSource::MidiCc { channel, controller } => HardwareSource::MidiCc { channel: *channel, controller: *controller },
            HardwareSource::MidiNote { channel, note } => HardwareSource::MidiNote { channel: *channel, note: *note },
            HardwareSource::MidiPitchBend { channel } => HardwareSource::MidiPitchBend { channel: *channel },
            HardwareSource::OscAddress { address } => HardwareSource::OscAddress { address: address.clone() },
        }
    }
}


#[derive(Debug, PartialEq)]
pub enum BindingTarget {
    Macro { macro_id: String },
    SceneRecall { scene_id: String },
    TransportPlay,
    TransportStop,
    TransportPanic,
}

impl Clone for BindingTarget {
    fn clone(&self) -> (r: Self)
        ensures
            r == *self,
    {
        match self {
            BindingTarget::Macro { macro_id } => BindingTarget::Macro { macro_id: macro_id.clone() },
            BindingTarget::SceneRecall { scene_id } => BindingTarget::SceneRecall { scene_id: scene_id.clone() },
            BindingTarget::TransportPlay => BindingTarget::TransportPlay,
            BindingTarget::TransportStop => BindingTarget::TransportStop,
            BindingTarget::TransportPanic => BindingTarget::TransportPanic,
        }
    }
}


/// Linear map from an input range to an output range (`f64` bit patterns).
#[derive(Clone, Copy, Debug, PartialEq, Eq)]
pub struct ValueTransform {
    pub input_min: u64,
    pub input_max: u64,
    pub output_min: u64,
    pub output_max: u64,
}

#[derive(Debug, PartialEq)]
pub struct HardwareBinding {
    pub id: String,
    pub source: HardwareSource,
    pub target: BindingTarget,
    pub transform: ValueTransform,
}

impl Clone for HardwareBinding {
    fn clone(&self) -> (r: Self)
        ensures
            r == *self,
    {
        HardwareBinding {
            id: self.id.clone(),
            source: self.source.clone(),
            target: self.target.clone(),
            transform: self.transform,
        }
    }
}


#[derive(Debug, PartialEq)]
pub struct MidiRuntimeSettings {
    pub selected_input_id: Option<String>,
}

impl Clone for MidiRuntimeSettings {
    fn clone(&self) -> (r: Self)
        ensures
            r == *self,
    {
        MidiRuntimeSettings {
            selected_input_id: self.selected_input_id.clone(),
        }
    }
}


#[derive(Debug, PartialEq)]
pub struct OscRuntimeSettings {
    pub bind_host: String,
    pub listen_port: u16,
    pub auto_start: bool,
}

impl Clone for OscRuntimeSettings {
    fn clone(&self) -> (r: Self)
        ensures
            r == *self,
    {
        OscRuntimeSettings {
            bind_host: self.bind_host.clone(),
            listen_port: self.listen_port,
            auto_start: self.auto_start,
        }
    }
}


#[derive(Debug, PartialEq)]
pub struct HardwareRuntimeSettings {
    pub midi: MidiRuntimeSettings,
    pub osc: OscRuntimeSettings,
}

impl Clone for HardwareRuntimeSettings {
    fn clone(&self) -> (r: Self)
        ensures
            r == *self,
    {
        HardwareRuntimeSettings {
            midi: self.midi.clone(),
            osc: self.osc.clone(),
        }
    }
}


#[derive(Clone, Copy, Debug, PartialEq, Eq, Structural)]
pub enum HardwareListenerLifecycle {
    Stopped,
    Starting,
    Listening,
    Restarting,
    Unavailable,
    Error,
}

#[derive(Clone, Copy, Debug, PartialEq, Eq, Structural)]
pub enum HardwareLearnLifecycle {
    Idle,
    Learning,
    Captured,
}

#[derive(Clone, Copy, Debug, PartialEq, Eq, Structural)]
pub enum HardwareRuntimeDiagnosticCode {
    NoMidiPorts,
    MidiEnumerationFailed,
    InvalidMidiPortSelection,
    OscPortInUse,
    OscBindFailed,
    ListenerRestarted,
    ListenerStopped,
}

#[derive(Debug, PartialEq)]
pub struct HardwareRuntimeDiagnostic {
    pub code: HardwareRuntimeDiagnosticCode,
    pub message: String,
    pub recoverable: bool,
    pub detail: Option<String>,
}

impl Clone for HardwareRuntimeDiagnostic {
    fn clone(&self) -> (r: Self)
        ensures
            r == *self,
    {
        HardwareRuntimeDiagnostic {
            code: self.code,
            message: self.message.clone(),
            recoverable: self.recoverable,
            detail: self.detail.clone(),
        }
    }
}


#[derive(Debug, PartialEq)]
pub struct MidiRuntimeStatus {
    pub lifecycle: HardwareListenerLifecycle,
    pub selected_input_id: Option<String>,
    pub selected_display_name: Option<String>,
    pub available_input_count: Option<u32>,
    pub last_error: Option<String>,
}

impl Clone for MidiRuntimeStatus {
    fn clone(&self) -> (r: Self)
        ensures
            r == *self,
    {
        MidiRuntimeStatus {
            lifecycle: self.lifecycle,
            selected_input_id: self.selected_input_id.clone(),
            selected_display_name: self.selected_display_name.clone(),
            available_input_count: self.available_input_count,
            last_error: self.last_error.clone(),
        }
    }
}


#[derive(Debug, PartialEq)]
pub struct OscRuntimeStatus {
    pub lifecycle: HardwareListenerLifecycle,
    pub bind_host: String,
    pub listen_port: u16,
    pub last_error: Option<String>,
}

impl Clone for OscRuntimeStatus {
    fn clone(&self) -> (r: Self)
        ensures
            r == *self,
    {
        OscRuntimeStatus {
            lifecycle: self.lifecycle,
            bind_host: self.bind_host.clone(),
            listen_port: self.listen_port,
            last_error: self.last_error.clone(),
        }
    }
}


#[derive(Debug, PartialEq)]
pub struct HardwareLearnStatus {
    pub lifecycle: HardwareLearnLifecycle,
    pub target: Option<BindingTarget>,
    pub source: Option<HardwareSource>,
}

impl Clone for HardwareLearnStatus {
    fn clone(&self) -> (r: Self)
        ensures
            r == *self,
    {
        HardwareLearnStatus {
            lifecycle: self.lifecycle,
            target: self.target.clone(),
            source: self.source.clone(),
        }
    }
}


#[derive(Debug, PartialEq)]
pub struct HardwareRuntimeStatus {
    pub midi: MidiRuntimeStatus,
    pub osc: OscRuntimeStatus,
    pub learn: HardwareLearnStatus,
    pub diagnostics: Vec<HardwareRuntimeDiagnostic>,
}

impl HardwareRuntimeStatus {
    /// Field by field equal, collections compared by their contents.
    pub open spec fn same(&self, other: &Self) -> bool {
        &&& self.midi == other.midi
        &&& self.osc == other.osc
        &&& self.learn == other.learn
        &&& self.diagnostics@ == other.diagnostics@
    }

    pub open spec fn same_seq(a: Seq<HardwareRuntimeStatus>, b: Seq<HardwareRuntimeStatus>) -> bool {
        a.len() == b.len() && forall|i: int| 0 <= i < a.len() ==> (#[trigger] a[i]).same(&b[i])
    }

    pub fn clone_seq(v: &Vec<HardwareRuntimeStatus>) -> (r: Vec<HardwareRuntimeStatus>)
        ensures
            HardwareRuntimeStatus::same_seq(r@, v@),
    {
        let mut r: Vec<HardwareRuntimeStatus> = Vec::new();
        let mut i: usize = 0;
        while i < v.len()
            invariant
                i <= v.len(),
                r@.len() == i,
                forall|j: int| 0 <= j < i ==> (#[trigger] r@[j]).same(&v@[j]),
            decreases v.len() - i,
        {
            r.push(v[i].clone());
            i = i + 1;
        }
        r
    }
}

impl Clone for HardwareRuntimeStatus {
    fn clone(&self) -> (r: Self)
        ensures
            r.same(self),
    {
        HardwareRuntimeStatus {
            midi: self.midi.clone(),
            osc: self.osc.clone(),
            learn: self.learn.clone(),
            diagnostics: self.diagnostics.clone(),
        }
    }
}


#[derive(Debug, PartialEq)]
pub struct MidiInputPort {
    pub id: String,
    pub display_name: String,
    pub is_selected: bool,
}

impl Clone for MidiInputPort {
    fn clone(&self) -> (r: Self)
        ensures
            r == *self,
    {
        MidiInputPort {
            id: self.id.clone(),
            display_name: self.display_name.clone(),
            is_selected: self.is_selected,
        }
    }
}


} // verus!

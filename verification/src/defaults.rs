//! Fresh values: the empty session, the runtime states a session starts
//! with, the default hardware settings, and the seeded session a new store
//! opens with.
use vstd::prelude::*;
use crate::domain::{
    is_uuid_v4_text, new_id, AgentRuntimeState, AudioBusType, AudioOutputNode, AudioOutputType,
    AudioPrimitive, AudioRuntimeHealth, AudioRuntimeLifecycle, AudioRuntimeState, AudioSourceNode,
    AudioSourceType, Bus, ChannelMode, ControllerKind, HardwareLearnLifecycle, HardwareLearnStatus,
    HardwareListenerLifecycle, HardwareRuntimeSettings, HardwareRuntimeStatus, MacroDefinition,
    MacroOverride, MidiRuntimeSettings, MidiRuntimeStatus, Node, NodeType, OscRuntimeSettings,
    OscRuntimeStatus, OwnershipAssignment, OwnershipRule, ParameterOverride, ParameterValue, Port,
    PortDirection, Route, RuntimeConnectionState, RuntimeKind, RuntimeStatusRef, SceneDefinition,
    SessionDocument, SignalType, TransportState, VariationDefinition, VisualRuntimeHealth,
    VisualRuntimeLifecycle, VisualRuntimeState, CURRENT_SCHEMA_VERSION,
};
use crate::hardware::HardwareLearnState;
use crate::session_store::SessionStore;

verus! {

/// The audio runtime before it is started.
pub fn idle_audio_runtime() -> (r: AudioRuntimeState)
    ensures
        r == (AudioRuntimeState {
            lifecycle: AudioRuntimeLifecycle::Idle,
            health: AudioRuntimeHealth::Unknown,
            sample_rate_hz: None,
            block_size: None,
            active_patch_id: None,
            last_error: None,
            panic_recovery_count: 0,
        }),
{
    AudioRuntimeState {
        lifecycle: AudioRuntimeLifecycle::Idle,
        health: AudioRuntimeHealth::Unknown,
        sample_rate_hz: None,
        block_size: None,
        active_patch_id: None,
        last_error: None,
        panic_recovery_count: 0,
    }
}

/// The visual runtime before it is started.
pub fn idle_visual_runtime() -> (r: VisualRuntimeState)
    ensures
        r == (VisualRuntimeState {
            lifecycle: VisualRuntimeLifecycle::Idle,
            health: VisualRuntimeHealth::Unknown,
            renderer: None,
            active_scene_id: None,
            fps: None,
            last_error: None,
        }),
{
    VisualRuntimeState {
        lifecycle: VisualRuntimeLifecycle::Idle,
        health: VisualRuntimeHealth::Unknown,
        renderer: None,
        active_scene_id: None,
        fps: None,
        last_error: None,
    }
}

/// The created/updated stamp of a new session.
pub open spec fn initial_timestamp() -> Seq<char> {
    "2026-04-11T00:00:00Z"@
}

/// `s` is an empty session: current schema, fresh id, untitled, default
/// transport, no content, idle runtimes, an available unfrozen agent.
pub open spec fn is_empty_session(s: SessionDocument) -> bool {
    &&& s.schema_version == CURRENT_SCHEMA_VERSION
    &&& is_uuid_v4_text(s.session_id@)
    &&& s.title@ == "Untitled Session"@
    &&& s.created_at@ == initial_timestamp()
    &&& s.updated_at@ == initial_timestamp()
    &&& s.transport.tempo_bpm == crate::domain::DEFAULT_TEMPO_BPM_BITS
    &&& !s.transport.is_playing
    &&& s.transport.position_beats == 0
    &&& s.nodes@.len() == 0
    &&& s.routes@.len() == 0
    &&& s.buses@.len() == 0
    &&& s.macros@.len() == 0
    &&& s.scenes@.len() == 0
    &&& s.variations@.len() == 0
    &&& s.ownership_rules@.len() == 0
    &&& s.runtime_status@.len() == 0
    &&& s.audio_runtime.lifecycle == AudioRuntimeLifecycle::Idle
    &&& s.audio_runtime.health == AudioRuntimeHealth::Unknown
    &&& s.visual_runtime.lifecycle == VisualRuntimeLifecycle::Idle
    &&& s.agent_runtime == (AgentRuntimeState {
        is_available: true,
        pending_action_count: 0,
        is_frozen: false,
    })
    &&& !s.agent_frozen
    &&& s.pending_actions@.len() == 0
    &&& s.action_history@.len() == 0
    &&& s.hardware_bindings@.len() == 0
}

impl Default for SessionDocument {
    fn default() -> (s: Self)
        ensures
            is_empty_session(s),
    {
        SessionDocument {
            schema_version: CURRENT_SCHEMA_VERSION,
            session_id: new_id(),
            title: "Untitled Session".to_owned(),
            created_at: "2026-04-11T00:00:00Z".to_owned(),
            updated_at: "2026-04-11T00:00:00Z".to_owned(),
            transport: TransportState::default(),
            nodes: Vec::new(),
            routes: Vec::new(),
            buses: Vec::new(),
            macros: Vec::new(),
            scenes: Vec::new(),
            variations: Vec::new(),
            ownership_rules: Vec::new(),
            runtime_status: Vec::new(),
            audio_runtime: idle_audio_runtime(),
            visual_runtime: idle_visual_runtime(),
            agent_runtime: AgentRuntimeState {
                is_available: true,
                pending_action_count: 0,
                is_frozen: false,
            },
            agent_frozen: false,
            pending_actions: Vec::new(),
            action_history: Vec::new(),
            hardware_bindings: Vec::new(),
        }
    }
}

/// The hardware settings a store starts with: no MIDI input selected, OSC
/// on 127.0.0.1:9000, not started automatically.
pub fn default_hardware_settings() -> (r: HardwareRuntimeSettings)
    ensures
        r.midi.selected_input_id is None,
        r.osc.bind_host@ == "127.0.0.1"@,
        r.osc.listen_port == 9000,
        !r.osc.auto_start,
{
    HardwareRuntimeSettings {
        midi: MidiRuntimeSettings { selected_input_id: None },
        osc: OscRuntimeSettings { bind_host: "127.0.0.1".to_owned(), listen_port: 9000, auto_start: false },
    }
}

/// The hardware status a store starts with: both listeners stopped, learn
/// idle, no diagnostics.
pub fn default_hardware_status(settings: &HardwareRuntimeSettings) -> (r: HardwareRuntimeStatus)
    ensures
        r.midi.lifecycle == HardwareListenerLifecycle::Stopped,
        r.midi.selected_input_id == settings.midi.selected_input_id,
        r.midi.selected_display_name is None,
        r.midi.available_input_count is None,
        r.midi.last_error is None,
        r.osc.lifecycle == HardwareListenerLifecycle::Stopped,
        r.osc.bind_host == settings.osc.bind_host,
        r.osc.listen_port == settings.osc.listen_port,
        r.osc.last_error is None,
        r.learn == (HardwareLearnStatus {
            lifecycle: HardwareLearnLifecycle::Idle,
            target: None,
            source: None,
        }),
        r.diagnostics@.len() == 0,
{
    HardwareRuntimeStatus {
        midi: MidiRuntimeStatus {
            lifecycle: HardwareListenerLifecycle::Stopped,
            selected_input_id: settings.midi.selected_input_id.clone(),
            selected_display_name: None,
            available_input_count: None,
            last_error: None,
        },
        osc: OscRuntimeStatus {
            lifecycle: HardwareListenerLifecycle::Stopped,
            bind_host: settings.osc.bind_host.clone(),
            listen_port: settings.osc.listen_port,
            last_error: None,
        },
        learn: HardwareLearnStatus { lifecycle: HardwareLearnLifecycle::Idle, target: None, source: None },
        diagnostics: Vec::new(),
    }
}

/// `f64` bit patterns used by the seeded session.
pub const F64_POINT_EIGHT: u64 = 0x3fe9_9999_9999_999au64;

pub const F64_POINT_SIXTY_FIVE: u64 = 0x3fe4_cccc_cccc_cccdu64;

pub const F64_POINT_FIFTY_FIVE: u64 = 0x3fe1_9999_9999_999au64;

/// `s` is the seeded session: a source node (level 0.8 in 0..1) routed from
/// its `main_out` to the `master_in` of a user-owned master output through
/// the master bus, an `energy` macro on the level, an `intro` scene that
/// activates the master and sets the macro to 0.65, an `intro-alt`
/// variation with the level at 0.55, one shared ownership rule, and one
/// disconnected status per runtime; every id is a fresh UUID.
pub open spec fn is_seeded_session(s: SessionDocument) -> bool {
    let source = s.nodes@[0];
    let master = s.nodes@[1];
    let route = s.routes@[0];
    let bus = s.buses@[0];
    let m = s.macros@[0];
    let scene = s.scenes@[0];
    let variation = s.variations@[0];
    let param = source.parameters@[0];
    &&& s.title@ == "Default Scrysynth Session"@
    &&& s.nodes@.len() == 2
    &&& s.routes@.len() == 1
    &&& s.buses@.len() == 1
    &&& s.macros@.len() == 1
    &&& s.scenes@.len() == 1
    &&& s.variations@.len() == 1
    &&& s.ownership_rules@.len() == 1
    &&& s.runtime_status@.len() == 3
    &&& source.node_type == NodeType::Source
    &&& source.ports@.len() == 1
    &&& source.ports@[0].name@ == "main_out"@
    &&& source.ports@[0].direction == PortDirection::Output
    &&& source.ports@[0].signal_type == SignalType::Audio
    &&& source.parameters@.len() == 1
    &&& param.name@ == "level"@
    &&& param.value == F64_POINT_EIGHT
    &&& param.default_value == F64_POINT_EIGHT
    &&& param.min_value == 0
    &&& param.max_value == crate::hardware::F64_ONE
    &&& source.ownership == (OwnershipAssignment { controller: ControllerKind::Shared, is_locked: false })
    &&& source.enabled
    &&& source.audio_primitive == Some(
        AudioPrimitive::Source(
            AudioSourceNode {
                source_type: AudioSourceType::Oscillator,
                channel_mode: ChannelMode::Mono,
                bus_target_id: Some(bus.id),
            },
        ),
    )
    &&& master.node_type == NodeType::Output
    &&& master.ports@.len() == 1
    &&& master.ports@[0].name@ == "master_in"@
    &&& master.ports@[0].direction == PortDirection::Input
    &&& master.ports@[0].signal_type == SignalType::Audio
    &&& master.parameters@.len() == 0
    &&& master.ownership == (OwnershipAssignment { controller: ControllerKind::User, is_locked: false })
    &&& master.enabled
    &&& master.audio_primitive == Some(
        AudioPrimitive::Output(
            AudioOutputNode {
                output_type: AudioOutputType::Master,
                channels: 2,
                bus_target_id: Some(bus.id),
            },
        ),
    )
    &&& route.source_node_id == source.id
    &&& route.source_port_id == source.ports@[0].id
    &&& route.target_node_id == master.id
    &&& route.target_port_id == master.ports@[0].id
    &&& route.bus_id == Some(bus.id)
    &&& bus.name@ == "master_bus"@
    &&& bus.channels == 2
    &&& bus.bus_type == AudioBusType::Main
    &&& bus.is_enabled
    &&& m.name@ == "energy"@
    &&& m.target_parameter_ids@ == seq![param.id]
    &&& m.range_start == 0
    &&& m.range_end == crate::hardware::F64_ONE
    &&& m.targets@.len() == 0
    &&& scene.name@ == "intro"@
    &&& scene.active_node_ids@ == seq![master.id]
    &&& scene.macro_overrides@ == seq![MacroOverride { macro_id: m.id, value: F64_POINT_SIXTY_FIVE }]
    &&& variation.name@ == "intro-alt"@
    &&& variation.scene_id == scene.id
    &&& variation.parameter_overrides@ == seq![
        ParameterOverride { parameter_id: param.id, value: F64_POINT_FIFTY_FIVE },
    ]
    &&& source.scene_membership@ == seq![scene.id]
    &&& master.scene_membership@ == seq![scene.id]
    &&& s.ownership_rules@[0].scope@ == "graph:master"@
    &&& s.ownership_rules@[0].controller == ControllerKind::Shared
    &&& s.ownership_rules@[0].can_override
    &&& s.runtime_status@[0].runtime == RuntimeKind::Audio
    &&& s.runtime_status@[1].runtime == RuntimeKind::Visual
    &&& s.runtime_status@[2].runtime == RuntimeKind::Agent
    &&& forall|k: int|
        0 <= k < 3 ==> (#[trigger] s.runtime_status@[k]).status == RuntimeConnectionState::Disconnected
    &&& is_uuid_v4_text(source.id@) && is_uuid_v4_text(master.id@) && is_uuid_v4_text(bus.id@)
    &&& is_uuid_v4_text(scene.id@) && is_uuid_v4_text(m.id@) && is_uuid_v4_text(param.id@)
}

/// The session a new store opens with.
pub fn build_default_session() -> (s: SessionDocument)
    ensures
        is_seeded_session(s),
        s.agent_runtime.is_available,
        !s.agent_frozen,
        s.pending_actions@.len() == 0,
        s.action_history@.len() == 0,
        s.hardware_bindings@.len() == 0,
{
    let scene_id = new_id();
    let source_node_id = new_id();
    let source_out_port_id = new_id();
    let master_node_id = new_id();
    let master_in_port_id = new_id();
    let bus_id = new_id();
    let parameter_id = new_id();
    let macro_id = new_id();
    let mut source_ports: Vec<Port> = Vec::new();
    source_ports.push(
        Port {
            id: source_out_port_id.clone(),
            name: "main_out".to_owned(),
            direction: PortDirection::Output,
            signal_type: SignalType::Audio,
        },
    );
    let mut source_params: Vec<ParameterValue> = Vec::new();
    source_params.push(
        ParameterValue {
            id: parameter_id.clone(),
            name: "level".to_owned(),
            value: F64_POINT_EIGHT,
            default_value: F64_POINT_EIGHT,
            min_value: 0,
            max_value: crate::hardware::F64_ONE,
            unit: "linear".to_owned(),
        },
    );
    let mut source_scenes: Vec<String> = Vec::new();
    source_scenes.push(scene_id.clone());
    let mut master_ports: Vec<Port> = Vec::new();
    master_ports.push(
        Port {
            id: master_in_port_id.clone(),
            name: "master_in".to_owned(),
            direction: PortDirection::Input,
            signal_type: SignalType::Audio,
        },
    );
    let mut master_scenes: Vec<String> = Vec::new();
    master_scenes.push(scene_id.clone());
    let mut nodes: Vec<Node> = Vec::new();
    nodes.push(
        Node {
            id: source_node_id.clone(),
            node_type: NodeType::Source,
            node_type_id: "oscillator".to_owned(),
            ports: source_ports,
            parameters: source_params,
            runtime_target: Some("audio/source/default".to_owned()),
            scene_membership: source_scenes,
            ownership: OwnershipAssignment { controller: ControllerKind::Shared, is_locked: false },
            enabled: true,
            audio_primitive: Some(
                AudioPrimitive::Source(
                    AudioSourceNode {
                        source_type: AudioSourceType::Oscillator,
                        channel_mode: ChannelMode::Mono,
                        bus_target_id: Some(bus_id.clone()),
                    },
                ),
            ),
            bypassed: None,
            output_kind: None,
            channel_count: None,
        },
    );
    nodes.push(
        Node {
            id: master_node_id.clone(),
            node_type: NodeType::Output,
            node_type_id: "output".to_owned(),
            ports: master_ports,
            parameters: Vec::new(),
            runtime_target: Some("audio/output/master".to_owned()),
            scene_membership: master_scenes,
            ownership: OwnershipAssignment { controller: ControllerKind::User, is_locked: false },
            enabled: true,
            audio_primitive: Some(
                AudioPrimitive::Output(
                    AudioOutputNode {
                        output_type: AudioOutputType::Master,
                        channels: 2,
                        bus_target_id: Some(bus_id.clone()),
                    },
                ),
            ),
            bypassed: None,
            output_kind: None,
            channel_count: None,
        },
    );
    let mut routes: Vec<Route> = Vec::new();
    routes.push(
        Route {
            id: new_id(),
            source_node_id,
            source_port_id: source_out_port_id,
            target_node_id: master_node_id.clone(),
            target_port_id: master_in_port_id,
            bus_id: Some(bus_id.clone()),
        },
    );
    let mut buses: Vec<Bus> = Vec::new();
    buses.push(
        Bus {
            id: bus_id,
            name: "master_bus".to_owned(),
            channels: 2,
            bus_type: AudioBusType::Main,
            is_enabled: true,
        },
    );
    let mut macro_targets: Vec<String> = Vec::new();
    macro_targets.push(parameter_id.clone());
    let mut macros: Vec<MacroDefinition> = Vec::new();
    macros.push(
        MacroDefinition {
            id: macro_id.clone(),
            name: "energy".to_owned(),
            target_parameter_ids: macro_targets,
            range_start: 0,
            range_end: crate::hardware::F64_ONE,
            targets: Vec::new(),
        },
    );
    let mut active: Vec<String> = Vec::new();
    active.push(master_node_id);
    let mut overrides: Vec<MacroOverride> = Vec::new();
    overrides.push(MacroOverride { macro_id, value: F64_POINT_SIXTY_FIVE });
    let mut scenes: Vec<SceneDefinition> = Vec::new();
    scenes.push(
        SceneDefinition {
            id: scene_id.clone(),
            name: "intro".to_owned(),
            active_node_ids: active,
            macro_overrides: overrides,
        },
    );
    let mut param_overrides: Vec<ParameterOverride> = Vec::new();
    param_overrides.push(ParameterOverride { parameter_id, value: F64_POINT_FIFTY_FIVE });
    let mut variations: Vec<VariationDefinition> = Vec::new();
    variations.push(
        VariationDefinition {
            id: new_id(),
            name: "intro-alt".to_owned(),
            scene_id,
            parameter_overrides: param_overrides,
        },
    );
    let mut rules: Vec<OwnershipRule> = Vec::new();
    rules.push(
        OwnershipRule {
            id: new_id(),
            scope: "graph:master".to_owned(),
            controller: ControllerKind::Shared,
            can_override: true,
        },
    );
    let mut statuses: Vec<RuntimeStatusRef> = Vec::new();
    statuses.push(
        RuntimeStatusRef {
            id: new_id(),
            runtime: RuntimeKind::Audio,
            status: RuntimeConnectionState::Disconnected,
            target_id: Some("audio-runtime".to_owned()),
            last_error: None,
        },
    );
    statuses.push(
        RuntimeStatusRef {
            id: new_id(),
            runtime: RuntimeKind::Visual,
            status: RuntimeConnectionState::Disconnected,
            target_id: Some("visual-runtime".to_owned()),
            last_error: None,
        },
    );
    statuses.push(
        RuntimeStatusRef {
            id: new_id(),
            runtime: RuntimeKind::Agent,
            status: RuntimeConnectionState::Disconnected,
            target_id: Some("agent-runtime".to_owned()),
            last_error: None,
        },
    );
    let base = SessionDocument::default();
    let s = SessionDocument {
        title: "Default Scrysynth Session".to_owned(),
        audio_runtime: idle_audio_runtime(),
        nodes,
        routes,
        buses,
        macros,
        scenes,
        variations,
        ownership_rules: rules,
        runtime_status: statuses,
        ..base
    };
    assert(s.runtime_status@[0].runtime == RuntimeKind::Audio);
    s
}

impl SessionStore {
    /// A store over the seeded session, with the default hardware settings
    /// and learn idle.
    pub fn new_default() -> (s: Self)
        ensures
            is_seeded_session(s.session()),
            s.session().agent_runtime.is_available,
            !s.session().agent_frozen,
            s.session().pending_actions@.len() == 0,
            s.learn() == HardwareLearnState::Idle,
            s.settings().midi.selected_input_id is None,
            s.status().diagnostics@.len() == 0,
    {
        let settings = default_hardware_settings();
        let status = default_hardware_status(&settings);
        SessionStore::from_parts(build_default_session(), settings, status)
    }
}

} // verus!

use scrysynth::compiler::{compile_session_to_topology, TopologyCompileError};
use scrysynth::domain::{
    ControllerKind, Node, NodeType, OwnershipAssignment, Port, PortDirection, Route,
    SessionDocument, SignalType,
};
use scrysynth::session_store::SessionStore;
use scrysynth::synthdefs::{plan_for_load, plan_sc_resources, topology_fingerprint, ScResourcePlanError};
use scrysynth::visual_compile::compile_session_to_visual_scene;

fn scale(start: u64, end: u64, t: u64) -> u64 {
    let (a, b, x) = (f64::from_bits(start), f64::from_bits(end), f64::from_bits(t));
    (a + (b - a) * x).to_bits()
}

fn port(id: &str, direction: PortDirection) -> Port {
    Port { id: id.to_string(), name: id.to_string(), direction, signal_type: SignalType::Audio }
}

fn node(id: &str, type_id: &str, target: &str, ports: Vec<Port>) -> Node {
    Node {
        id: id.to_string(),
        node_type: NodeType::Effect,
        node_type_id: type_id.to_string(),
        ports,
        parameters: vec![],
        runtime_target: Some(target.to_string()),
        scene_membership: vec![],
        ownership: OwnershipAssignment { controller: ControllerKind::Shared, is_locked: false },
        enabled: true,
        audio_primitive: None,
        bypassed: None,
        output_kind: None,
        channel_count: None,
    }
}

fn route(id: &str, from: &str, from_port: &str, to: &str, to_port: &str) -> Route {
    Route {
        id: id.to_string(),
        source_node_id: from.to_string(),
        source_port_id: from_port.to_string(),
        target_node_id: to.to_string(),
        target_port_id: to_port.to_string(),
        bus_id: None,
    }
}

fn chain_session() -> SessionDocument {
    let mut s = SessionDocument::default();
    s.nodes = vec![
        node("c-out", "output", "audio/output/master", vec![port("c-in", PortDirection::Input)]),
        node(
            "b-filter",
            "filter",
            "audio/effect/filter",
            vec![port("b-in", PortDirection::Input), port("b-out", PortDirection::Output)],
        ),
        node("a-osc", "oscillator", "audio/source/oscillator", vec![port("a-out", PortDirection::Output)]),
    ];
    s.routes = vec![
        route("r2", "b-filter", "b-out", "c-out", "c-in"),
        route("r1", "a-osc", "a-out", "b-filter", "b-in"),
    ];
    s
}

#[test]
fn launch_order_follows_routes() {
    let topology = compile_session_to_topology(&chain_session()).expect("chain compiles");
    let order: Vec<&str> = topology.node_launch_order.iter().map(|n| n.node_id.as_str()).collect();
    assert_eq!(order, vec!["a-osc", "b-filter", "c-out"]);
    assert_eq!(topology.group_order.len(), 1);
    assert_eq!(topology.group_order[0].group_id, "group-main-signal");
}

#[test]
fn cyclic_graph_is_refused() {
    let mut s = chain_session();
    s.nodes[2].ports.push(port("a-in", PortDirection::Input));
    s.nodes[0].ports.push(port("c-out-port", PortDirection::Output));
    s.routes.push(route("r3", "c-out", "c-out-port", "a-osc", "a-in"));
    let error = compile_session_to_topology(&s).expect_err("cycle refused");
    assert_eq!(error, TopologyCompileError::CyclicGraph);
    assert_eq!(
        error.message(),
        "canonical audio graph contains a cycle or unresolved dependency"
    );
}

#[test]
fn missing_node_type_id_is_refused() {
    let mut s = chain_session();
    s.nodes[1].node_type_id = "  ".to_string();
    let error = compile_session_to_topology(&s).expect_err("blank type id refused");
    assert_eq!(error, TopologyCompileError::MissingNodeTypeId { node_id: "b-filter".to_string() });
}

#[test]
fn default_session_plans_groups_then_consecutive_synths() {
    let store = SessionStore::new_default();
    let topology = compile_session_to_topology(&store.current()).expect("default compiles");
    let plan = plan_sc_resources(&topology).expect("default plans");
    assert_eq!(plan.groups.len(), 1);
    assert_eq!(plan.groups[0].node_id, 1000);
    assert_eq!(plan.synths.len(), topology.node_launch_order.len());
    for (k, synth) in plan.synths.iter().enumerate() {
        assert_eq!(synth.node_id, 2000 + k as i32);
        assert_eq!(synth.node_key, topology.node_launch_order[k].node_id);
    }
    let fingerprint = topology_fingerprint(&topology);
    assert_eq!(plan.patch_id, format!("patch-v2-{fingerprint}"));
    assert_eq!(fingerprint.len(), 16);
    assert!(fingerprint.chars().all(|c| c.is_ascii_hexdigit() && !c.is_ascii_uppercase()));
    assert_eq!(fingerprint, topology_fingerprint(&topology));
}

#[test]
fn unknown_catalog_entry_fails_planning() {
    let mut s = SessionDocument::default();
    s.nodes = vec![node("x", "warp-drive", "audio/effect/warp", vec![])];
    let topology = compile_session_to_topology(&s).expect("compiles");
    let error = plan_sc_resources(&topology).expect_err("unknown entry");
    assert_eq!(error, ScResourcePlanError::UnknownCatalogEntry { node_type_id: "warp-drive".to_string() });
}

#[test]
fn visual_scene_lists_visible_nodes() {
    let store = SessionStore::new_default();
    let session = store.current();
    let scene = compile_session_to_visual_scene(&session, &scale);
    assert!(scene.elements.len() <= session.nodes.len());
    for (k, element) in scene.elements.iter().enumerate() {
        assert_eq!(element.slot, k);
        assert!(session.nodes.iter().any(|n| n.id == element.element_id));
    }
}

#[test]
fn visual_scene_background_is_opaque_black() {
    let store = SessionStore::new_default();
    let scene = compile_session_to_visual_scene(&store.current(), &scale);
    assert_eq!(scene.background_color, [0.0f32.to_bits(), 0.0f32.to_bits(), 0.0f32.to_bits(), 1.0f32.to_bits()]);
}

use scrysynth::domain::{AudioBusType, AudioPrimitive, AudioSourceNode, AudioSourceType, Bus, ChannelMode};
use scrysynth::synthdefs::{ScArgValue, ScResourcePlan};

fn control_port(id: &str, direction: PortDirection) -> Port {
    Port { id: id.to_string(), name: id.to_string(), direction, signal_type: SignalType::Control }
}

fn int_arg(plan: &ScResourcePlan, node: &str, name: &str) -> Option<i64> {
    let synth = plan.synths.iter().find(|s| s.node_key == node)?;
    synth.args.iter().find(|a| a.name == name).and_then(|a| match a.value {
        ScArgValue::Int(v) => Some(v),
        ScArgValue::Real(_) => None,
    })
}

#[test]
fn one_control_bus_per_modulation_source() {
    let mut s = SessionDocument::default();
    s.buses = vec![Bus {
        id: "bus-main".to_string(),
        name: "main".to_string(),
        channels: 2,
        bus_type: AudioBusType::Main,
        is_enabled: true,
    }];
    let mut osc = |id: &str| {
        let mut n = node(
            id,
            "oscillator",
            "audio/source/oscillator",
            vec![port("main_out", PortDirection::Output), control_port("level_cv", PortDirection::Input)],
        );
        n.node_type = NodeType::Source;
        n.audio_primitive = Some(AudioPrimitive::Source(AudioSourceNode {
            source_type: AudioSourceType::Oscillator,
            channel_mode: ChannelMode::Mono,
            bus_target_id: Some("bus-main".to_string()),
        }));
        n
    };
    let osc1 = osc("osc-1");
    let osc2 = osc("osc-2");
    let lfo = node("lfo-1", "lfo", "audio/modulator/lfo", vec![control_port("lfo_out", PortDirection::Output)]);
    s.nodes = vec![osc1, osc2, lfo];
    s.routes = vec![
        route("m1", "lfo-1", "lfo_out", "osc-1", "level_cv"),
        route("m2", "lfo-1", "lfo_out", "osc-2", "level_cv"),
    ];
    let topology = compile_session_to_topology(&s).expect("modulated graph compiles");
    assert_eq!(topology.cv_routes.len(), 2);
    let plan = plan_sc_resources(&topology).expect("modulated graph plans");
    let source_bus = int_arg(&plan, "lfo-1", "out_cv_bus").expect("lfo writes a control bus");
    assert_eq!(int_arg(&plan, "osc-1", "level_cv_bus"), Some(source_bus));
    assert_eq!(int_arg(&plan, "osc-2", "level_cv_bus"), Some(source_bus));
    assert!(source_bus >= 1024);
}

#[test]
fn unrouted_nodes_launch_by_category_then_id() {
    let mut s = chain_session();
    s.routes = vec![];
    s.nodes.push(node("a-out", "output", "audio/output/master", vec![port("d-in", PortDirection::Input)]));
    let topology = compile_session_to_topology(&s).expect("unrouted nodes compile");
    let order: Vec<&str> = topology.node_launch_order.iter().map(|n| n.node_id.as_str()).collect();
    assert_eq!(order, vec!["a-osc", "b-filter", "a-out", "c-out"]);
}

#[test]
fn load_planning_failure_names_the_planning_error() {
    let mut s = SessionDocument::default();
    s.nodes = vec![node("x", "warp-drive", "audio/effect/warp", vec![])];
    let topology = compile_session_to_topology(&s).expect("compiles");
    let message = plan_for_load(&topology).expect_err("unknown entry");
    assert_eq!(
        message,
        "Topology apply failure before contacting scsynth: node references unknown catalog entry `warp-drive`"
    );
    let session = SessionStore::new_default().current();
    let topology = compile_session_to_topology(&session).expect("default session compiles");
    assert_eq!(plan_for_load(&topology), Ok(plan_sc_resources(&topology).expect("default session plans")));
}

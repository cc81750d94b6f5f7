use scrysynth::domain::{
    AudioBusType, AudioOutputNode, AudioOutputType, AudioPrimitive, AudioSourceNode,
    AudioSourceType, Bus, ChannelMode, ControllerKind, MacroDefinition, MacroOverride, Node,
    NodeType, OwnershipAssignment, ParameterOverride, ParameterValue, PerformanceCommand, Port,
    PortDirection, Route, SceneDefinition, SessionDocument, SignalType, VariationDefinition,
};
use scrysynth::performance::{apply_performance_command, PerformanceCommandError};
use scrysynth::session_store::SessionStore;

fn bits(v: f64) -> u64 {
    v.to_bits()
}

fn scale(start: u64, end: u64, t: u64) -> u64 {
    let (a, b, x) = (f64::from_bits(start), f64::from_bits(end), f64::from_bits(t));
    (a + (b - a) * x).to_bits()
}

fn node(id: &str, node_type: NodeType, type_id: &str) -> Node {
    Node {
        id: id.to_string(),
        node_type,
        node_type_id: type_id.to_string(),
        ports: vec![],
        parameters: vec![],
        runtime_target: None,
        scene_membership: vec![],
        ownership: OwnershipAssignment { controller: ControllerKind::Shared, is_locked: false },
        enabled: true,
        audio_primitive: None,
        bypassed: None,
        output_kind: None,
        channel_count: None,
    }
}

fn test_session() -> SessionDocument {
    let mut source = node("node-source", NodeType::Source, "oscillator");
    source.ports = vec![Port {
        id: "port-source-out".to_string(),
        name: "main_out".to_string(),
        direction: PortDirection::Output,
        signal_type: SignalType::Audio,
    }];
    source.parameters = vec![ParameterValue {
        id: "param-level".to_string(),
        name: "level".to_string(),
        value: bits(0.8),
        default_value: bits(0.8),
        min_value: bits(0.0),
        max_value: bits(1.0),
        unit: "linear".to_string(),
    }];
    source.runtime_target = Some("audio/source/oscillator".to_string());
    source.scene_membership = vec!["scene-a".to_string()];
    source.audio_primitive = Some(AudioPrimitive::Source(AudioSourceNode {
        source_type: AudioSourceType::Oscillator,
        channel_mode: ChannelMode::Mono,
        bus_target_id: Some("bus-main".to_string()),
    }));
    let mut output = node("node-output", NodeType::Output, "output");
    output.ports = vec![Port {
        id: "port-output-in".to_string(),
        name: "master_in".to_string(),
        direction: PortDirection::Input,
        signal_type: SignalType::Audio,
    }];
    output.runtime_target = Some("audio/output/master".to_string());
    output.scene_membership = vec!["scene-a".to_string(), "scene-b".to_string()];
    output.ownership = OwnershipAssignment { controller: ControllerKind::User, is_locked: false };
    output.audio_primitive = Some(AudioPrimitive::Output(AudioOutputNode {
        output_type: AudioOutputType::Master,
        channels: 2,
        bus_target_id: Some("bus-main".to_string()),
    }));

    let mut s = SessionDocument::default();
    s.title = "Performance Test".to_string();
    s.nodes = vec![source, output];
    s.routes = vec![Route {
        id: "route-1".to_string(),
        source_node_id: "node-source".to_string(),
        source_port_id: "port-source-out".to_string(),
        target_node_id: "node-output".to_string(),
        target_port_id: "port-output-in".to_string(),
        bus_id: Some("bus-main".to_string()),
    }];
    s.buses = vec![Bus {
        id: "bus-main".to_string(),
        name: "main".to_string(),
        channels: 2,
        bus_type: AudioBusType::Main,
        is_enabled: true,
    }];
    s.macros = vec![MacroDefinition {
        id: "macro-energy".to_string(),
        name: "energy".to_string(),
        target_parameter_ids: vec!["param-level".to_string()],
        range_start: bits(0.0),
        range_end: bits(1.0),
        targets: vec![],
    }];
    s.scenes = vec![
        SceneDefinition {
            id: "scene-a".to_string(),
            name: "Scene A".to_string(),
            active_node_ids: vec!["node-source".to_string(), "node-output".to_string()],
            macro_overrides: vec![MacroOverride {
                macro_id: "macro-energy".to_string(),
                value: bits(0.5),
            }],
        },
        SceneDefinition {
            id: "scene-b".to_string(),
            name: "Scene B".to_string(),
            active_node_ids: vec!["node-output".to_string()],
            macro_overrides: vec![],
        },
    ];
    s.variations = vec![];
    s
}

fn perform(store: &mut SessionStore, command: PerformanceCommand) -> Result<SessionDocument, PerformanceCommandError> {
    apply_performance_command(store, command, &scale)
}

#[test]
fn recall_scene_enables_scene_nodes_and_disables_others() {
    let mut store = SessionStore::new_default();
    store.replace_current(test_session());
    let updated = perform(&mut store, PerformanceCommand::RecallScene { scene_id: "scene-b".to_string() })
        .expect("recall succeeds");
    assert!(!updated.nodes.iter().any(|n| n.id == "node-source" && n.enabled));
    assert!(updated.nodes.iter().any(|n| n.id == "node-output" && n.enabled));
}

#[test]
fn recall_scene_applies_macro_overrides() {
    let mut store = SessionStore::new_default();
    store.replace_current(test_session());
    let updated = perform(&mut store, PerformanceCommand::RecallScene { scene_id: "scene-a".to_string() })
        .expect("recall succeeds");
    let source = updated.nodes.iter().find(|n| n.id == "node-source").unwrap();
    assert_eq!(f64::from_bits(source.parameters[0].value), 0.5);
}

#[test]
fn recall_scene_rejects_missing_scene() {
    let mut store = SessionStore::new_default();
    store.replace_current(test_session());
    let original = store.current();
    let result = perform(&mut store, PerformanceCommand::RecallScene { scene_id: "nonexistent".to_string() });
    assert!(result.is_err());
    assert_eq!(store.current().nodes, original.nodes);
    assert_eq!(
        result.unwrap_err().message(),
        "scene 'nonexistent' was not found"
    );
}

#[test]
fn save_variation_snapshots_current_parameters() {
    let mut store = SessionStore::new_default();
    store.replace_current(test_session());
    let updated = perform(
        &mut store,
        PerformanceCommand::SaveVariation { name: "soft".to_string(), scene_id: "scene-a".to_string() },
    )
    .expect("save succeeds");
    assert_eq!(updated.variations.len(), 1);
    let variation = &updated.variations[0];
    assert_eq!(variation.name, "soft");
    assert_eq!(variation.scene_id, "scene-a");
    assert!(variation
        .parameter_overrides
        .iter()
        .any(|p| p.parameter_id == "param-level" && f64::from_bits(p.value) == 0.8));
}

#[test]
fn save_variation_rejects_missing_scene() {
    let mut store = SessionStore::new_default();
    store.replace_current(test_session());
    let result = perform(
        &mut store,
        PerformanceCommand::SaveVariation { name: "ghost".to_string(), scene_id: "nonexistent".to_string() },
    );
    assert!(result.is_err());
}

#[test]
fn restore_variation_applies_parameter_overrides() {
    let mut store = SessionStore::new_default();
    let mut session = test_session();
    session.variations.push(VariationDefinition {
        id: "var-quiet".to_string(),
        name: "quiet".to_string(),
        scene_id: "scene-a".to_string(),
        parameter_overrides: vec![ParameterOverride {
            parameter_id: "param-level".to_string(),
            value: bits(0.3),
        }],
    });
    store.replace_current(session);
    let updated = perform(
        &mut store,
        PerformanceCommand::RestoreVariation { variation_id: "var-quiet".to_string() },
    )
    .expect("restore succeeds");
    let source = updated.nodes.iter().find(|n| n.id == "node-source").unwrap();
    assert_eq!(f64::from_bits(source.parameters[0].value), 0.3);
}

#[test]
fn restore_variation_rejects_missing_variation() {
    let mut store = SessionStore::new_default();
    store.replace_current(test_session());
    let original = store.current();
    let result = perform(
        &mut store,
        PerformanceCommand::RestoreVariation { variation_id: "nonexistent".to_string() },
    );
    assert!(result.is_err());
    let current = store.current();
    for (cn, on) in current.nodes.iter().zip(original.nodes.iter()) {
        assert_eq!(cn.parameters, on.parameters);
    }
}

#[test]
fn recall_and_variation_round_trip() {
    let mut store = SessionStore::new_default();
    store.replace_current(test_session());
    perform(&mut store, PerformanceCommand::RecallScene { scene_id: "scene-a".to_string() })
        .expect("recall scene-a");
    let with_variation = perform(
        &mut store,
        PerformanceCommand::SaveVariation { name: "baseline".to_string(), scene_id: "scene-a".to_string() },
    )
    .expect("save variation");
    let variation_id = with_variation.variations[0].id.clone();
    perform(
        &mut store,
        PerformanceCommand::RestoreVariation { variation_id: "nonexistent".to_string() },
    )
    .unwrap_err();
    perform(&mut store, PerformanceCommand::RecallScene { scene_id: "scene-b".to_string() })
        .expect("recall scene-b");
    let after_b = store.current();
    assert!(!after_b.nodes.iter().any(|n| n.id == "node-source" && n.enabled));
    perform(&mut store, PerformanceCommand::RecallScene { scene_id: "scene-a".to_string() })
        .expect("recall scene-a again");
    let restored = perform(&mut store, PerformanceCommand::RestoreVariation { variation_id })
        .expect("restore variation");
    let source = restored.nodes.iter().find(|n| n.id == "node-source").unwrap();
    assert_eq!(f64::from_bits(source.parameters[0].value), 0.5);
}

#[test]
fn restore_after_later_changes_gives_back_saved_value() {
    let mut store = SessionStore::new_default();
    store.replace_current(test_session());
    let saved = perform(
        &mut store,
        PerformanceCommand::SaveVariation { name: "soft".to_string(), scene_id: "scene-a".to_string() },
    )
    .expect("save succeeds");
    let variation_id = saved.variations[0].id.clone();
    let mut changed = store.current();
    changed.nodes[0].parameters[0].value = bits(0.2);
    store.replace_current(changed);
    let restored = perform(&mut store, PerformanceCommand::RestoreVariation { variation_id })
        .expect("restore succeeds");
    assert_eq!(restored.nodes[0].parameters[0].value, bits(0.8));
}

#[test]
fn restore_after_structural_changes_gives_back_saved_value_by_id() {
    let mut store = SessionStore::new_default();
    store.replace_current(test_session());
    let saved = perform(
        &mut store,
        PerformanceCommand::SaveVariation { name: "soft".to_string(), scene_id: "scene-a".to_string() },
    )
    .expect("save succeeds");
    let variation_id = saved.variations[0].id.clone();
    let mut changed = store.current();
    let mut moved = changed.nodes.remove(0);
    moved.parameters[0].value = bits(0.2);
    moved.parameters.insert(
        0,
        ParameterValue {
            id: "param-tone".to_string(),
            name: "tone".to_string(),
            value: bits(0.4),
            default_value: bits(0.5),
            min_value: bits(0.0),
            max_value: bits(1.0),
            unit: "linear".to_string(),
        },
    );
    changed.nodes.push(moved);
    store.replace_current(changed);
    let restored = perform(&mut store, PerformanceCommand::RestoreVariation { variation_id })
        .expect("restore succeeds");
    let source = restored.nodes.iter().find(|n| n.id == "node-source").unwrap();
    assert_eq!(source.parameters[0].id, "param-tone");
    assert_eq!(source.parameters[0].value, bits(0.4));
    assert_eq!(source.parameters[1].id, "param-level");
    assert_eq!(source.parameters[1].value, bits(0.8));
}

use scrysynth::domain::{
    AudioBusType, AudioPrimitive, AudioSourceNode, AudioSourceType, Bus, ChannelMode,
    ControllerKind, MacroCommand, MacroDefinition, MacroOverride, MacroTarget, Node, NodeType,
    OwnershipAssignment, ParameterValue, Port, PortDirection, Route, SceneDefinition,
    SessionDocument, SignalType,
};
use scrysynth::macros::{apply_macro_command, MacroCommandError};
use scrysynth::session_store::SessionStore;

fn scale(start: u64, end: u64, t: u64) -> u64 {
    let (a, b, x) = (f64::from_bits(start), f64::from_bits(end), f64::from_bits(t));
    (a + (b - a) * x).to_bits()
}

fn bits(v: f64) -> u64 {
    v.to_bits()
}

fn test_session() -> SessionDocument {
    let mut s = SessionDocument::default();
    s.title = "Macro Test".to_string();
    s.nodes = vec![Node {
        id: "node-src".to_string(),
        node_type: NodeType::Source,
        node_type_id: "oscillator".to_string(),
        ports: vec![Port {
            id: "port-src-out".to_string(),
            name: "main_out".to_string(),
            direction: PortDirection::Output,
            signal_type: SignalType::Audio,
        }],
        parameters: vec![ParameterValue {
            id: "param-freq".to_string(),
            name: "frequency".to_string(),
            value: bits(440.0),
            default_value: bits(440.0),
            min_value: bits(20.0),
            max_value: bits(20000.0),
            unit: "hz".to_string(),
        }],
        runtime_target: Some("audio/source/oscillator".to_string()),
        scene_membership: vec![],
        ownership: OwnershipAssignment { controller: ControllerKind::Shared, is_locked: false },
        enabled: true,
        audio_primitive: Some(AudioPrimitive::Source(AudioSourceNode {
            source_type: AudioSourceType::Oscillator,
            channel_mode: ChannelMode::Mono,
            bus_target_id: None,
        })),
        bypassed: None,
        output_kind: None,
        channel_count: None,
    }];
    s.routes = vec![Route {
        id: "route-1".to_string(),
        source_node_id: "node-src".to_string(),
        source_port_id: "port-src-out".to_string(),
        target_node_id: "node-out".to_string(),
        target_port_id: "port-out-in".to_string(),
        bus_id: None,
    }];
    s.buses = vec![Bus {
        id: "bus-main".to_string(),
        name: "main".to_string(),
        channels: 2,
        bus_type: AudioBusType::Main,
        is_enabled: true,
    }];
    s.scenes = vec![SceneDefinition {
        id: "scene-a".to_string(),
        name: "Scene A".to_string(),
        active_node_ids: vec!["node-src".to_string()],
        macro_overrides: vec![],
    }];
    s
}

fn definition(id: &str, name: &str, start: f64, end: f64, targets: Vec<MacroTarget>) -> MacroDefinition {
    MacroDefinition {
        id: id.to_string(),
        name: name.to_string(),
        target_parameter_ids: vec![],
        range_start: bits(start),
        range_end: bits(end),
        targets,
    }
}

fn freq_of(session: &SessionDocument) -> f64 {
    let p = session.nodes[0].parameters.iter().find(|p| p.id == "param-freq").unwrap();
    f64::from_bits(p.value)
}

#[test]
fn create_macro_adds_to_session() {
    let mut store = SessionStore::new_default();
    store.replace_current(test_session());
    let updated = apply_macro_command(
        &mut store,
        MacroCommand::CreateMacro {
            definition: definition(
                "macro-1",
                "test",
                0.0,
                1.0,
                vec![MacroTarget::AudioParameter {
                    node_id: "node-src".to_string(),
                    parameter_id: "param-freq".to_string(),
                }],
            ),
        },
        &scale,
    )
    .expect("create succeeds");
    assert_eq!(updated.macros.len(), 1);
    assert_eq!(updated.macros[0].name, "test");
}

#[test]
fn create_macro_rejects_duplicate_id() {
    let mut store = SessionStore::new_default();
    let mut session = test_session();
    session.macros.push(definition("macro-1", "existing", 0.0, 1.0, vec![]));
    store.replace_current(session);
    let result = apply_macro_command(
        &mut store,
        MacroCommand::CreateMacro { definition: definition("macro-1", "dup", 0.0, 1.0, vec![]) },
        &scale,
    );
    assert!(matches!(result, Err(MacroCommandError::DuplicateMacro { .. })));
}

#[test]
fn update_macro_changes_fields() {
    let mut store = SessionStore::new_default();
    let mut session = test_session();
    session.macros.push(definition("macro-1", "old", 0.0, 1.0, vec![]));
    store.replace_current(session);
    let updated = apply_macro_command(
        &mut store,
        MacroCommand::UpdateMacro {
            macro_id: "macro-1".to_string(),
            name: Some("new".to_string()),
            targets: None,
            range_start: Some(bits(0.2)),
            range_end: Some(bits(0.8)),
        },
        &scale,
    )
    .expect("update succeeds");
    let m = &updated.macros[0];
    assert_eq!(m.name, "new");
    assert!((f64::from_bits(m.range_start) - 0.2).abs() < f64::EPSILON);
    assert!((f64::from_bits(m.range_end) - 0.8).abs() < f64::EPSILON);
}

#[test]
fn remove_macro_cleans_scene_overrides() {
    let mut store = SessionStore::new_default();
    let mut session = test_session();
    session.macros.push(definition("macro-1", "to-remove", 0.0, 1.0, vec![]));
    session.scenes[0]
        .macro_overrides
        .push(MacroOverride { macro_id: "macro-1".to_string(), value: bits(0.5) });
    store.replace_current(session);
    let updated = apply_macro_command(
        &mut store,
        MacroCommand::RemoveMacro { macro_id: "macro-1".to_string() },
        &scale,
    )
    .expect("remove succeeds");
    assert!(updated.macros.is_empty());
    assert!(updated.scenes[0].macro_overrides.is_empty());
}

#[test]
fn set_macro_value_applies_to_audio_target() {
    let mut store = SessionStore::new_default();
    let mut session = test_session();
    session.macros.push(definition(
        "macro-1",
        "freq-ctrl",
        100.0,
        1000.0,
        vec![MacroTarget::AudioParameter {
            node_id: "node-src".to_string(),
            parameter_id: "param-freq".to_string(),
        }],
    ));
    store.replace_current(session);
    let updated = apply_macro_command(
        &mut store,
        MacroCommand::SetMacroValue { macro_id: "macro-1".to_string(), value: bits(0.5) },
        &scale,
    )
    .expect("set value succeeds");
    assert!((freq_of(&updated) - 550.0).abs() < 0.01);
}

#[test]
fn set_macro_value_backward_compat_flat_ids() {
    let mut store = SessionStore::new_default();
    let mut session = test_session();
    let mut legacy = definition("macro-old", "legacy", 200.0, 800.0, vec![]);
    legacy.target_parameter_ids = vec!["param-freq".to_string()];
    session.macros.push(legacy);
    store.replace_current(session);
    let updated = apply_macro_command(
        &mut store,
        MacroCommand::SetMacroValue { macro_id: "macro-old".to_string(), value: bits(1.0) },
        &scale,
    )
    .expect("set value succeeds");
    assert!((freq_of(&updated) - 800.0).abs() < 0.01);
}

#[test]
fn set_macro_value_with_multiple_targets() {
    let mut store = SessionStore::new_default();
    let mut session = test_session();
    session.macros.push(definition(
        "macro-multi",
        "multi",
        20.0,
        20000.0,
        vec![
            MacroTarget::AudioParameter {
                node_id: "node-src".to_string(),
                parameter_id: "param-freq".to_string(),
            },
            MacroTarget::VisualParameter {
                element_id: "element-1".to_string(),
                parameter_id: "param-color".to_string(),
            },
        ],
    ));
    store.replace_current(session);
    let updated = apply_macro_command(
        &mut store,
        MacroCommand::SetMacroValue { macro_id: "macro-multi".to_string(), value: bits(0.5) },
        &scale,
    )
    .expect("set value succeeds");
    let expected = 20.0 + (0.5 * (20000.0 - 20.0));
    assert!((freq_of(&updated) - expected).abs() < 0.01);
}

#[test]
fn set_macro_value_clamps_to_parameter_range() {
    let mut store = SessionStore::new_default();
    let mut session = test_session();
    session.macros.push(definition(
        "macro-1",
        "too-far",
        0.0,
        50000.0,
        vec![MacroTarget::AudioParameter {
            node_id: "node-src".to_string(),
            parameter_id: "param-freq".to_string(),
        }],
    ));
    store.replace_current(session);
    let updated = apply_macro_command(
        &mut store,
        MacroCommand::SetMacroValue { macro_id: "macro-1".to_string(), value: bits(1.0) },
        &scale,
    )
    .expect("set value succeeds");
    assert_eq!(freq_of(&updated), 20000.0);
}

#[test]
fn set_macro_value_on_missing_parameter_leaves_session_unchanged() {
    let mut store = SessionStore::new_default();
    let mut session = test_session();
    session.macros.push(definition(
        "macro-1",
        "dangling",
        0.0,
        1.0,
        vec![MacroTarget::AudioParameter {
            node_id: "node-src".to_string(),
            parameter_id: "param-missing".to_string(),
        }],
    ));
    store.replace_current(session);
    let before = store.current();
    let result = apply_macro_command(
        &mut store,
        MacroCommand::SetMacroValue { macro_id: "macro-1".to_string(), value: bits(0.5) },
        &scale,
    );
    assert_eq!(
        result,
        Err(MacroCommandError::ParameterOutOfRange {
            node_id: "node-src".to_string(),
            parameter_id: "param-missing".to_string(),
        })
    );
    assert_eq!(store.current(), before);
}

#[test]
fn missing_macro_is_reported() {
    let mut store = SessionStore::new_default();
    store.replace_current(test_session());
    let result = apply_macro_command(
        &mut store,
        MacroCommand::RemoveMacro { macro_id: "nope".to_string() },
        &scale,
    );
    assert_eq!(result, Err(MacroCommandError::MissingMacro { macro_id: "nope".to_string() }));
}

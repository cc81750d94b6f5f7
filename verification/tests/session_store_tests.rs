use scrysynth::domain::{
    new_id, BindingTarget, ControllerKind, HardwareBinding, HardwareLearnLifecycle,
    HardwareRuntimeDiagnosticCode, HardwareSource, Node, NodeType, OwnershipAssignment,
    ParameterValue, Port, PortDirection, SessionDocument, SignalType, ValueTransform,
};
use scrysynth::hardware::{default_midi_transform, learn_event, midi_event_to_source, start_learn, MidiLearnEvent, LearnOutcome};
use scrysynth::session_store::SessionStore;
use scrysynth::hardware_listeners::needs_midi_port_list;

#[test]
fn session_store_create_default_session_returns_seeded_graph() {
    let store = SessionStore::new_default();
    let session = store.current();
    assert!(!session.nodes.is_empty());
    assert!(!session.routes.is_empty());
    assert!(!session.buses.is_empty());
    assert!(!session.macros.is_empty());
    assert!(!session.scenes.is_empty());
    assert!(!session.variations.is_empty());
    assert!(!session.ownership_rules.is_empty());
    assert!(!session.runtime_status.is_empty());
}

#[test]
fn session_store_get_current_session_returns_same_session_after_replace() {
    let mut store = SessionStore::new_default();
    let mut replacement = SessionDocument::default();
    replacement.title = "Replacement Session".to_string();
    store.replace_current(replacement.clone());
    assert_eq!(store.current(), replacement);
}

#[test]
fn invalid_midi_port_selection_returns_diagnostic_without_enumerating() {
    let mut store = SessionStore::new_default();
    let mut settings = store.hardware_runtime_settings();
    settings.midi.selected_input_id = Some("not-a-midi-port".to_string());
    assert!(!needs_midi_port_list(&settings));
    let err = store
        .update_hardware_runtime_settings(settings, None)
        .expect_err("invalid stable port id should fail");
    assert!(err.contains("Selected MIDI input is not available"));
    let status = store.hardware_runtime_status();
    assert_eq!(status.diagnostics.len(), 1);
    assert_eq!(status.diagnostics[0].code, HardwareRuntimeDiagnosticCode::InvalidMidiPortSelection);
}

#[test]
fn app_level_store_path_captures_midi_learn_event() {
    let mut store = SessionStore::new_default();
    start_learn(&mut store, BindingTarget::TransportPlay);
    let event = MidiLearnEvent::MidiCc { channel: 0, controller: 7, value: 127 };
    let binding = match learn_event(&mut store, midi_event_to_source(&event), default_midi_transform()) {
        LearnOutcome::Bound(b) => b,
        other => panic!("learn should capture a binding through SessionStore, got {other:?}"),
    };
    assert_eq!(binding.target, BindingTarget::TransportPlay);
    assert_eq!(store.current().hardware_bindings.len(), 1);
    assert!(matches!(store.hardware_runtime_status().learn.lifecycle, HardwareLearnLifecycle::Captured));
}

#[test]
fn changing_invalid_midi_port_preserves_existing_bindings() {
    let mut store = SessionStore::new_default();
    store.current_mut().hardware_bindings.push(HardwareBinding {
        id: "hb-1".to_string(),
        source: HardwareSource::MidiCc { channel: 0, controller: 7 },
        target: BindingTarget::TransportPlay,
        transform: ValueTransform { input_min: 0, input_max: 0, output_min: 0, output_max: 0 },
    });
    let mut settings = store.hardware_runtime_settings();
    settings.midi.selected_input_id = Some("not-a-midi-port".to_string());
    let _ = store.update_hardware_runtime_settings(settings, None);
    assert_eq!(store.current().hardware_bindings.len(), 1);
    assert_eq!(store.current().hardware_bindings[0].id, "hb-1");
}

#[test]
fn session_document_node_exposes_required_fields() {
    let node = Node {
        id: new_id(),
        node_type: NodeType::Source,
        node_type_id: "oscillator".to_string(),
        ports: vec![Port {
            id: new_id(),
            name: "out".to_string(),
            direction: PortDirection::Output,
            signal_type: SignalType::Audio,
        }],
        parameters: vec![ParameterValue {
            id: new_id(),
            name: "gain".to_string(),
            value: 0.75f64.to_bits(),
            default_value: 0.75f64.to_bits(),
            min_value: 0.0f64.to_bits(),
            max_value: 1.0f64.to_bits(),
            unit: "linear".to_string(),
        }],
        runtime_target: Some("audio:source".to_string()),
        scene_membership: vec![new_id()],
        ownership: OwnershipAssignment { controller: ControllerKind::Shared, is_locked: false },
        enabled: true,
        audio_primitive: None,
        bypassed: None,
        output_kind: None,
        channel_count: None,
    };
    assert!(!node.id.is_empty());
    assert_eq!(node.id.len(), 36);
    assert_eq!(node.node_type, NodeType::Source);
    assert_eq!(node.ports.len(), 1);
    assert_eq!(node.parameters.len(), 1);
    assert_eq!(node.runtime_target.as_deref(), Some("audio:source"));
    assert_eq!(node.scene_membership.len(), 1);
    assert_eq!(node.ownership.controller, ControllerKind::Shared);
}

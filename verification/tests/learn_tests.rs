use scrysynth::domain::{
    AudioBusType, AudioPrimitive, AudioSourceNode, AudioSourceType, BindingTarget, Bus,
    ChannelMode, ControllerKind, HardwareBinding, HardwareSource, MacroDefinition, MacroTarget,
    Node, NodeType, OwnershipAssignment, ParameterValue, Port, PortDirection, SceneDefinition,
    SessionDocument, SignalType, ValueTransform,
};
use scrysynth::hardware::{
    default_midi_transform, learn_event, midi_event_to_source, start_learn, stop_learn,
    HardwareLearnState, LearnOutcome, MidiLearnEvent,
};
use scrysynth::live_input::route_live_event;
use scrysynth::session_store::SessionStore;

fn bits(v: f64) -> u64 {
    v.to_bits()
}

fn scale(start: u64, end: u64, t: u64) -> u64 {
    let (a, b, x) = (f64::from_bits(start), f64::from_bits(end), f64::from_bits(t));
    (a + (b - a) * x).to_bits()
}

fn scale_value(raw: u64, t: ValueTransform) -> u64 {
    let raw = f64::from_bits(raw);
    let (imin, imax) = (f64::from_bits(t.input_min), f64::from_bits(t.input_max));
    let (omin, omax) = (f64::from_bits(t.output_min), f64::from_bits(t.output_max));
    if (imax - imin).abs() < f64::EPSILON {
        return t.output_min;
    }
    let normalized = ((raw - imin) / (imax - imin)).clamp(0.0, 1.0);
    (omin + normalized * (omax - omin)).to_bits()
}

fn test_session() -> SessionDocument {
    let mut s = SessionDocument::default();
    s.title = "Hardware Test".to_string();
    s.nodes = vec![Node {
        id: "node-src".to_string(),
        node_type: NodeType::Source,
        node_type_id: "oscillator".to_string(),
        ports: vec![Port {
            id: "port-out".to_string(),
            name: "out".to_string(),
            direction: PortDirection::Output,
            signal_type: SignalType::Audio,
        }],
        parameters: vec![ParameterValue {
            id: "param-gain".to_string(),
            name: "gain".to_string(),
            value: bits(0.5),
            default_value: bits(0.5),
            min_value: bits(0.0),
            max_value: bits(1.0),
            unit: "linear".to_string(),
        }],
        runtime_target: None,
        scene_membership: vec![],
        ownership: OwnershipAssignment { controller: ControllerKind::Shared, is_locked: false },
        enabled: true,
        audio_primitive: Some(AudioPrimitive::Source(AudioSourceNode {
            source_type: AudioSourceType::Oscillator,
            channel_mode: ChannelMode::Mono,
            bus_target_id: None,
        })),
        bypassed: None,
        output_kind: None,
        channel_count: None,
    }];
    s.buses = vec![Bus {
        id: "bus-1".to_string(),
        name: "main".to_string(),
        channels: 2,
        bus_type: AudioBusType::Main,
        is_enabled: true,
    }];
    s.macros = vec![MacroDefinition {
        id: "macro-energy".to_string(),
        name: "energy".to_string(),
        target_parameter_ids: vec![],
        range_start: bits(0.0),
        range_end: bits(1.0),
        targets: vec![MacroTarget::AudioParameter {
            node_id: "node-src".to_string(),
            parameter_id: "param-gain".to_string(),
        }],
    }];
    s.scenes = vec![SceneDefinition {
        id: "scene-a".to_string(),
        name: "intro".to_string(),
        active_node_ids: vec!["node-src".to_string()],
        macro_overrides: vec![],
    }];
    s
}

#[test]
fn learn_state_transitions_idle_to_learning() {
    let mut store = SessionStore::new_default();
    start_learn(&mut store, BindingTarget::Macro { macro_id: "m1".to_string() });
    assert!(matches!(store.learn_mut(), HardwareLearnState::Learning { .. }));
}

#[test]
fn learn_state_stop_returns_to_idle() {
    let mut store = SessionStore::new_default();
    start_learn(&mut store, BindingTarget::Macro { macro_id: "m1".to_string() });
    stop_learn(&mut store);
    assert_eq!(*store.learn_mut(), HardwareLearnState::Idle);
}

#[test]
fn learn_captures_midi_event_and_creates_binding() {
    let mut store = SessionStore::new_default();
    store.replace_current(test_session());
    start_learn(&mut store, BindingTarget::Macro { macro_id: "macro-energy".to_string() });
    let event = MidiLearnEvent::MidiCc { channel: 1, controller: 7, value: 100 };
    let outcome = learn_event(&mut store, midi_event_to_source(&event), default_midi_transform());
    assert!(matches!(outcome, LearnOutcome::Bound(_)));
    let session = store.current();
    assert_eq!(session.hardware_bindings.len(), 1);
    assert_eq!(
        session.hardware_bindings[0].source,
        HardwareSource::MidiCc { channel: 1, controller: 7 }
    );
    assert!(matches!(store.learn_mut(), HardwareLearnState::Captured { .. }));
    // Once captured, further events are dropped.
    let again = learn_event(&mut store, midi_event_to_source(&event), default_midi_transform());
    assert_eq!(again, LearnOutcome::Ignored);
    assert_eq!(store.current().hardware_bindings.len(), 1);
}

#[test]
fn idle_learn_routes_events_live() {
    let mut store = SessionStore::new_default();
    let event = MidiLearnEvent::MidiNote { channel: 2, note: 60, velocity: 90 };
    let outcome = learn_event(&mut store, midi_event_to_source(&event), default_midi_transform());
    assert_eq!(outcome, LearnOutcome::RouteLive);
}

#[test]
fn live_routing_applies_binding_to_macro() {
    let mut session = test_session();
    session.hardware_bindings.push(HardwareBinding {
        id: "hb-1".to_string(),
        source: HardwareSource::MidiCc { channel: 0, controller: 7 },
        target: BindingTarget::Macro { macro_id: "macro-energy".to_string() },
        transform: ValueTransform {
            input_min: bits(0.0),
            input_max: bits(127.0),
            output_min: bits(0.0),
            output_max: bits(1.0),
        },
    });
    let source = HardwareSource::MidiCc { channel: 0, controller: 7 };
    route_live_event(&mut session, &source, bits(63.0), &scale_value, &scale);
    let gain = session.nodes[0].parameters.iter().find(|p| p.id == "param-gain").unwrap();
    let expected = 63.0 / 127.0;
    assert!((f64::from_bits(gain.value) - expected).abs() < 0.01);
}

#[test]
fn live_routing_ignores_other_sources() {
    let mut session = test_session();
    session.hardware_bindings.push(HardwareBinding {
        id: "hb-1".to_string(),
        source: HardwareSource::MidiCc { channel: 0, controller: 7 },
        target: BindingTarget::Macro { macro_id: "macro-energy".to_string() },
        transform: default_midi_transform(),
    });
    let before = session.nodes[0].parameters[0].value;
    let other = HardwareSource::MidiCc { channel: 0, controller: 8 };
    route_live_event(&mut session, &other, bits(127.0), &scale_value, &scale);
    assert_eq!(session.nodes[0].parameters[0].value, before);
}

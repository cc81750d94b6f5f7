use scrysynth::catalog::{catalog, find_catalog_entry, NodeCategory};
use scrysynth::domain::PortDirection;
use scrysynth::synthdefs::ScResourcePlanError;

#[test]
fn catalog_entries_have_unique_ids() {
    let entries = catalog();
    let mut ids: Vec<&str> = entries.iter().map(|entry| entry.id).collect();
    ids.sort_unstable();
    let duplicates: Vec<&str> = ids
        .windows(2)
        .filter(|window| window[0] == window[1])
        .map(|window| window[0])
        .collect();
    assert!(duplicates.is_empty(), "duplicate catalog ids: {duplicates:?}");
}

#[test]
fn find_catalog_entry_returns_entry_for_known_id() {
    let entry = find_catalog_entry("oscillator").expect("oscillator is cataloged");
    assert_eq!(entry.id, "oscillator");
    assert_eq!(entry.category, NodeCategory::Source);
}

#[test]
fn find_catalog_entry_errors_for_unknown_id() {
    let error = find_catalog_entry("definitely-not-a-node").expect_err("unknown id errors");
    assert!(matches!(
        error,
        ScResourcePlanError::UnknownCatalogEntry { node_type_id } if node_type_id == "definitely-not-a-node"
    ));
}

#[test]
fn continuous_parameters_declare_a_cv_port() {
    for entry in catalog() {
        for param in &entry.parameters {
            if param.exposes_cv_port {
                let cv_port_id = param
                    .cv_port_id
                    .expect("exposes_cv_port params must name a cv_port_id");
                assert!(
                    entry.ports.iter().any(|port| port.id == cv_port_id),
                    "entry `{}` param `{}` declares cv_port_id `{cv_port_id}` not in its ports",
                    entry.id,
                    param.id,
                );
                assert!(
                    entry
                        .ports
                        .iter()
                        .find(|port| port.id == cv_port_id)
                        .is_some_and(|port| port.direction == PortDirection::Input),
                    "cv port `{cv_port_id}` on entry `{}` must be an input",
                    entry.id,
                );
            }
        }
    }
}

#[test]
fn step_sequencer_has_no_synthdef() {
    let entry = find_catalog_entry("step_sequencer").expect("sequencer cataloged");
    assert_eq!(entry.category, NodeCategory::Sequencer);
    assert!(entry.synthdef_name.is_empty());
    assert!(entry.synthdef_resource.is_empty());
}

#[test]
fn category_ranks_follow_launch_order() {
    assert_eq!(NodeCategory::Source.rank(), 0);
    assert_eq!(NodeCategory::Modulator.rank(), 1);
    assert_eq!(NodeCategory::Effect.rank(), 2);
    assert_eq!(NodeCategory::Utility.rank(), 3);
    assert_eq!(NodeCategory::Sequencer.rank(), 4);
    assert_eq!(NodeCategory::Mixer.rank(), 5);
    assert_eq!(NodeCategory::Output.rank(), 6);
}

#[test]
fn resolve_sc_arg_accepts_ids_and_aliases() {
    let filter = find_catalog_entry("filter").unwrap();
    assert_eq!(filter.resolve_sc_arg("cutoff"), Some("cutoff_hz"));
    assert_eq!(filter.resolve_sc_arg("cutoffHz"), Some("cutoff_hz"));
    assert_eq!(filter.resolve_sc_arg("rq"), Some("resonance"));
    assert_eq!(filter.resolve_sc_arg("nope"), None);
}

#[test]
fn cv_port_for_param_finds_the_sibling_input() {
    let osc = find_catalog_entry("oscillator").unwrap();
    let port = osc.cv_port_for_param("frequency").expect("frequency has a cv port");
    assert_eq!(port.id, "frequency_cv");
    assert_eq!(port.direction, PortDirection::Input);
    assert!(osc.cv_port_for_param("wave_shape").is_none());
    assert!(osc.cv_port_for_param("missing").is_none());
}

#[test]
fn catalog_default_values_are_bit_patterns() {
    let osc = find_catalog_entry("oscillator").unwrap();
    let frequency = &osc.parameters[0];
    assert_eq!(f64::from_bits(frequency.default_value), 220.0);
    assert_eq!(f64::from_bits(frequency.min_value), 20.0);
    assert_eq!(f64::from_bits(frequency.max_value), 20000.0);
}

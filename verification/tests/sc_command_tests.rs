use scrysynth::sc_commands::{free_commands, group_new, live_parameter_command, synth_new, OscArg};
use scrysynth::synthdefs::{ScArgValue, ScControlPlan, ScGroupPlan, ScResourcePlan, ScSynthArg, ScSynthPlan};

fn test_resource_plan() -> ScResourcePlan {
    ScResourcePlan {
        patch_id: "patch-test".to_string(),
        synthdefs: Vec::new(),
        groups: vec![ScGroupPlan { group_key: "group-main-signal".to_string(), node_id: 1000 }],
        synths: vec![
            ScSynthPlan {
                node_key: "node-source".to_string(),
                node_id: 2000,
                synthdef_name: "scrysynth_v1_source_oscillator",
                group_key: "group-main-signal".to_string(),
                group_node_id: 1000,
                args: vec![
                    ScSynthArg { name: "out_bus".to_string(), value: ScArgValue::Int(2) },
                    ScSynthArg {
                        name: "frequency".to_string(),
                        value: ScArgValue::Real(220.0f64.to_bits()),
                    },
                ],
            },
            ScSynthPlan {
                node_key: "node-output".to_string(),
                node_id: 2001,
                synthdef_name: "scrysynth_v1_output",
                group_key: "group-main-signal".to_string(),
                group_node_id: 1000,
                args: vec![ScSynthArg { name: "in_bus".to_string(), value: ScArgValue::Int(2) }],
            },
        ],
        controls: Vec::new(),
    }
}

#[test]
fn send_live_parameter_sends_n_set_to_adapter_owned_synth() {
    let mut plan = test_resource_plan();
    plan.controls = vec![ScControlPlan {
        control_key: "node-source:param-level".to_string(),
        synth_node_id: 2000,
        parameter_name: "level".to_string(),
    }];
    let (command, active_patch_id) =
        live_parameter_command(&Some(plan), "node-source", "param-level", 0.42f64.to_bits())
            .expect("live parameter sends");
    assert_eq!(active_patch_id, "patch-test");
    assert_eq!(command.address, "/n_set");
    assert_eq!(command.args[0], OscArg::Int(2000));
    assert_eq!(command.args[1], OscArg::Str("level".to_string()));
    match command.args[2] {
        OscArg::Value(ScArgValue::Real(v)) => {
            assert!(((f64::from_bits(v) as f32) - 0.42).abs() < 0.000_001, "float value")
        }
        ref other => panic!("unexpected argument {other:?}"),
    }
}

#[test]
fn send_live_parameter_fails_when_control_is_not_in_active_patch() {
    let error = live_parameter_command(&Some(test_resource_plan()), "node-source", "missing-param", 0.42f64.to_bits())
        .expect_err("missing control fails");
    assert!(error.contains("no SuperCollider control"));
}

#[test]
fn live_parameter_without_active_patch_is_an_app_state_error() {
    let error = live_parameter_command(&None, "node-source", "param-level", 0).unwrap_err();
    assert!(error.contains("no active SuperCollider patch"));
}

#[test]
fn resource_commands_create_groups_then_synths_and_free_newest_first() {
    let plan = test_resource_plan();
    let g = group_new(&plan.groups[0]);
    assert_eq!(g.address, "/g_new");
    assert_eq!(g.args, vec![OscArg::Int(1000), OscArg::Int(1), OscArg::Int(0)]);
    let s = synth_new(&plan.synths[0]);
    assert_eq!(s.address, "/s_new");
    assert_eq!(s.args[0], OscArg::Str("scrysynth_v1_source_oscillator".to_string()));
    assert_eq!(s.args[1], OscArg::Int(2000));
    assert_eq!(s.args[3], OscArg::Int(1000));
    let frees = free_commands(&plan, 2, 1);
    let ids: Vec<i32> = frees
        .iter()
        .map(|c| match c.args[0] {
            OscArg::Int(i) => i,
            _ => panic!("expected a node id"),
        })
        .collect();
    assert_eq!(ids, vec![2001, 2000, 1000]);
    assert!(frees.iter().all(|c| c.address == "/n_free"));
}

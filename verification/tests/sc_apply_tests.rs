use scrysynth::sc_apply::{
    resource_apply_begin, resource_apply_step, sync_failure, ResourceApplyAction, ResourceApplyEvent,
    ResourceApplyState, StepFailure,
};
use scrysynth::sc_commands::OscArg;
use scrysynth::synthdefs::{ScArgValue, ScGroupPlan, ScResourcePlan, ScSynthArg, ScSynthPlan, SynthDefResource};

fn plan_with(group: i32, synths: [i32; 2]) -> ScResourcePlan {
    ScResourcePlan {
        patch_id: "patch-test".to_string(),
        synthdefs: Vec::new(),
        groups: vec![ScGroupPlan { group_key: "group-main-signal".to_string(), node_id: group }],
        synths: vec![
            ScSynthPlan {
                node_key: "node-source".to_string(),
                node_id: synths[0],
                synthdef_name: "scrysynth_v1_source_oscillator",
                group_key: "group-main-signal".to_string(),
                group_node_id: group,
                args: vec![ScSynthArg { name: "out_bus".to_string(), value: ScArgValue::Int(2) }],
            },
            ScSynthPlan {
                node_key: "node-output".to_string(),
                node_id: synths[1],
                synthdef_name: "scrysynth_v1_output",
                group_key: "group-main-signal".to_string(),
                group_node_id: group,
                args: vec![ScSynthArg { name: "in_bus".to_string(), value: ScArgValue::Int(2) }],
            },
        ],
        controls: Vec::new(),
    }
}

/// A step as (address or stage, first integer argument).
fn describe(action: &ResourceApplyAction) -> (String, Option<i32>) {
    match action {
        ResourceApplyAction::Send(c) => {
            let first_int = c.args.iter().find_map(|a| match a {
                OscArg::Int(i) => Some(*i),
                _ => None,
            });
            (c.address.clone(), first_int)
        }
        ResourceApplyAction::LoadSynthDef(i) => ("load".to_string(), Some(*i as i32)),
        ResourceApplyAction::Sync(stage) => (format!("sync {stage}"), None),
        ResourceApplyAction::Finish => ("finish".to_string(), None),
        ResourceApplyAction::Abort { .. } => ("abort".to_string(), None),
    }
}

/// Runs the steps, answering `Done` until step `fail_at` (if any), which fails with `failure`.
fn run(
    prev: &Option<ScResourcePlan>,
    plan: &ScResourcePlan,
    fail_at: Option<(usize, StepFailure)>,
) -> (Vec<(String, Option<i32>)>, ResourceApplyAction) {
    let (mut state, mut action): (ResourceApplyState, ResourceApplyAction) = resource_apply_begin(prev, plan, true);
    let mut steps = Vec::new();
    let mut fail_at = fail_at;
    loop {
        match action {
            ResourceApplyAction::Finish | ResourceApplyAction::Abort { .. } => return (steps, action),
            _ => {}
        }
        steps.push(describe(&action));
        let event = match fail_at.take() {
            Some((k, f)) if k == state.position => ResourceApplyEvent::Failed(f),
            other => {
                fail_at = other;
                ResourceApplyEvent::Done
            }
        };
        let (next_state, next_action) = resource_apply_step(prev, plan, &state, event);
        state = next_state;
        action = next_action;
    }
}

fn step(name: &str, id: Option<i32>) -> (String, Option<i32>) {
    (name.to_string(), id)
}

#[test]
fn resource_apply_sends_groups_then_synths_in_plan_order() {
    let plan = plan_with(1000, [2000, 2001]);
    let (steps, end) = run(&None, &plan, None);
    assert_eq!(
        steps,
        vec![
            step("sync topology load synthdefs", None),
            step("/g_new", Some(1000)),
            step("sync topology load groups", None),
            step("/s_new", Some(2000)),
            step("/s_new", Some(2001)),
            step("sync topology load synths", None),
        ]
    );
    assert_eq!(end, ResourceApplyAction::Finish);
}

#[test]
fn resource_apply_frees_created_nodes_when_final_sync_fails() {
    let plan = plan_with(1000, [2000, 2001]);
    let failure = StepFailure::Unsynced("Runtime server error during topology load synths: timed out".to_string());
    let (steps, end) = run(&None, &plan, Some((5, failure)));
    assert_eq!(steps.len(), 6);
    match end {
        ResourceApplyAction::Abort { cleanup, message, keeps_previous } => {
            assert!(message.contains("topology load synths"));
            assert!(!keeps_previous);
            let ids: Vec<OscArg> = cleanup.iter().map(|c| {
                assert_eq!(c.address, "/n_free");
                c.args[0].clone_arg()
            }).collect();
            assert_eq!(ids, vec![OscArg::Int(2001), OscArg::Int(2000), OscArg::Int(1000)]);
        }
        other => panic!("expected an abort, got {other:?}"),
    }
}

#[test]
fn resource_apply_keeps_previous_patch_when_unload_fails() {
    let previous = plan_with(1000, [2000, 2001]);
    let next = plan_with(1100, [2100, 2101]);
    let failure = StepFailure::Unsynced("Runtime server error during topology unload previous patch: timed out".to_string());
    let (steps, end) = run(&Some(previous), &next, Some((3, failure)));
    assert_eq!(
        steps,
        vec![
            step("/n_free", Some(2001)),
            step("/n_free", Some(2000)),
            step("/n_free", Some(1000)),
            step("sync topology unload previous patch", None),
        ]
    );
    match end {
        ResourceApplyAction::Abort { cleanup, message, keeps_previous } => {
            assert!(message.contains("topology unload previous patch"));
            assert!(keeps_previous);
            assert!(cleanup.is_empty());
        }
        other => panic!("expected an abort, got {other:?}"),
    }
}

#[test]
fn resource_apply_reports_failed_group_and_frees_earlier_groups() {
    let mut plan = plan_with(1000, [2000, 2001]);
    plan.groups.push(ScGroupPlan { group_key: "group-fx".to_string(), node_id: 1001 });
    let (_, end) = run(&None, &plan, Some((2, StepFailure::Unsent("OSC IO error: refused".to_string()))));
    match end {
        ResourceApplyAction::Abort { cleanup, message, keeps_previous } => {
            assert_eq!(
                message,
                "Topology apply failure: failed to create SuperCollider group `group-fx`: OSC IO error: refused"
            );
            assert!(!keeps_previous);
            assert_eq!(cleanup.len(), 1);
            assert_eq!(cleanup[0].args[0], OscArg::Int(1000));
        }
        other => panic!("expected an abort, got {other:?}"),
    }
}

#[test]
fn resource_apply_loads_synthdefs_first_and_reports_unreadable_files() {
    let mut plan = plan_with(1000, [2000, 2001]);
    plan.synthdefs = vec![SynthDefResource { name: "scrysynth_v1_output", relative_path: "synthdefs/out.scsyndef" }];
    let (steps, end) = run(&None, &plan, Some((0, StepFailure::Unreadable("No such file".to_string()))));
    assert_eq!(steps, vec![step("load", Some(0))]);
    match end {
        ResourceApplyAction::Abort { cleanup, message, keeps_previous } => {
            assert_eq!(
                message,
                "SynthDef load failure: failed to read bundled SynthDef resource `synthdefs/out.scsyndef`: No such file. Reinstall Scrysynth or regenerate checked-in synthdefs before starting audio."
            );
            assert!(cleanup.is_empty());
            assert!(!keeps_previous);
        }
        other => panic!("expected an abort, got {other:?}"),
    }
}

trait CloneArg {
    fn clone_arg(&self) -> OscArg;
}

impl CloneArg for OscArg {
    fn clone_arg(&self) -> OscArg {
        match self {
            OscArg::Int(i) => OscArg::Int(*i),
            OscArg::Str(s) => OscArg::Str(s.clone()),
            OscArg::Value(v) => OscArg::Value(*v),
        }
    }
}

#[test]
fn resource_apply_without_connection_reports_it_and_keeps_previous_patch() {
    let previous = Some(plan_with(1000, [2000, 2001]));
    let plan = plan_with(1001, [2002, 2003]);
    let (_, action) = resource_apply_begin(&previous, &plan, false);
    assert_eq!(
        action,
        ResourceApplyAction::Abort {
            cleanup: Vec::new(),
            message: "topology cleanup: OSC client is not connected".to_string(),
            keeps_previous: true,
        }
    );
    let (_, action) = resource_apply_begin(&None, &plan, false);
    assert_eq!(
        action,
        ResourceApplyAction::Abort {
            cleanup: Vec::new(),
            message: "Audio runtime app state error during topology apply: OSC client is not connected.".to_string(),
            keeps_previous: false,
        }
    );
}

#[test]
fn sync_failure_names_the_stage_and_the_failed_message() {
    assert_eq!(
        sync_failure("boot", true, "OSC IO error: refused"),
        "Runtime server error during boot: failed to send /status to scsynth: OSC IO error: refused"
    );
    assert_eq!(
        sync_failure("topology load groups", false, "/sync 3 timed out after 2s"),
        "Runtime server error during topology load groups: scsynth did not confirm OSC /sync: /sync 3 timed out after 2s"
    );
}

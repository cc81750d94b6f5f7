use scrysynth::agent::{
    AgentRejection, ProposalRejection,
    apply_agent_command, apply_planner_proposal, approve_pending_action,
    plan_and_apply_agent_request, reclaim_ownership, reject_pending_action, toggle_agent_freeze,
    AgentBlock, AgentCommandError,
};
use scrysynth::domain::{
    new_id, PendingActionStatus, ActorRef, AgentIntent, ControllerKind, GraphEditCommand, Node, NodeType,
    OwnershipAssignment, ParameterValue, PerformanceCommand, Port, PortDirection, SceneDefinition,
    SessionDocument, SignalType, TypedCommand,
};
use scrysynth::intent::{
    parse_agent_intent, CONFIDENCE_COMMAND, CONFIDENCE_PARAMETER,
};
use scrysynth::planner::{PlannerProposal, PlannerProviderError};
use scrysynth::session_store::{OwnershipGateReason, SessionStore};

fn parse_number(w: &String) -> Option<u64> {
    w.parse::<f64>().ok().map(f64::to_bits)
}

fn render(v: u64) -> String {
    f64::from_bits(v).to_string()
}

fn scale(start: u64, end: u64, t: u64) -> u64 {
    let (a, b, x) = (f64::from_bits(start), f64::from_bits(end), f64::from_bits(t));
    (a + (b - a) * x).to_bits()
}

fn param(id: &str, name: &str, value: f64, min: f64, max: f64, unit: &str) -> ParameterValue {
    ParameterValue {
        id: id.to_string(),
        name: name.to_string(),
        value: value.to_bits(),
        default_value: value.to_bits(),
        min_value: min.to_bits(),
        max_value: max.to_bits(),
        unit: unit.to_string(),
    }
}

fn node(
    id: &str,
    node_type: NodeType,
    ports: Vec<Port>,
    parameters: Vec<ParameterValue>,
    controller: ControllerKind,
    is_locked: bool,
) -> Node {
    Node {
        id: id.to_string(),
        node_type,
        node_type_id: "oscillator".to_string(),
        ports,
        parameters,
        runtime_target: None,
        scene_membership: vec![],
        ownership: OwnershipAssignment { controller, is_locked },
        enabled: true,
        audio_primitive: None,
        bypassed: None,
        output_kind: None,
        channel_count: None,
    }
}

fn test_session_with_nodes() -> SessionDocument {
    let mut s = SessionDocument::default();
    s.nodes = vec![
        node(
            "node-1",
            NodeType::Source,
            vec![Port {
                id: "port-1-out".to_string(),
                name: "out".to_string(),
                direction: PortDirection::Output,
                signal_type: SignalType::Audio,
            }],
            vec![param("param-freq", "frequency", 440.0, 20.0, 20000.0, "hz")],
            ControllerKind::Shared,
            false,
        ),
        node("node-2", NodeType::Output, vec![], vec![], ControllerKind::User, false),
        node(
            "node-3",
            NodeType::Source,
            vec![],
            vec![param("param-lvl", "level", 0.5, 0.0, 1.0, "linear")],
            ControllerKind::Agent,
            false,
        ),
        node("node-locked", NodeType::Source, vec![], vec![], ControllerKind::Shared, true),
    ];
    s.scenes = vec![SceneDefinition {
        id: "scene-intro".to_string(),
        name: "intro".to_string(),
        active_node_ids: vec!["node-1".to_string()],
        macro_overrides: vec![],
    }];
    s
}

fn agent() -> ActorRef {
    ActorRef { actor_id: "agent".to_string(), correlation_id: new_id() }
}

#[test]
fn parse_add_oscillator() {
    let session = test_session_with_nodes();
    let intent = parse_agent_intent("add oscillator", &session, &parse_number);
    assert!(!intent.parsed_commands.is_empty());
    assert!(f64::from_bits(intent.confidence) > 0.0);
    match &intent.parsed_commands[0] {
        TypedCommand::GraphEdit(GraphEditCommand::AddNode { node }) => {
            assert_eq!(node.node_type, NodeType::Source);
        }
        _ => panic!("expected AddNode command"),
    }
}

#[test]
fn parse_add_noise() {
    let session = test_session_with_nodes();
    let intent = parse_agent_intent("add noise", &session, &parse_number);
    assert!(!intent.parsed_commands.is_empty());
}

#[test]
fn parse_remove_node() {
    let session = test_session_with_nodes();
    let intent = parse_agent_intent("remove node-1", &session, &parse_number);
    assert!(!intent.parsed_commands.is_empty());
    match &intent.parsed_commands[0] {
        TypedCommand::GraphEdit(GraphEditCommand::RemoveNode { node_id }) => {
            assert_eq!(node_id, "node-1");
        }
        _ => panic!("expected RemoveNode command"),
    }
}

#[test]
fn parse_set_parameter() {
    let session = test_session_with_nodes();
    let intent = parse_agent_intent("set frequency to 880 on node-1", &session, &parse_number);
    assert!(!intent.parsed_commands.is_empty());
    match &intent.parsed_commands[0] {
        TypedCommand::GraphEdit(GraphEditCommand::SetParameterValue { node_id, value, .. }) => {
            assert_eq!(node_id, "node-1");
            assert_eq!(f64::from_bits(*value), 880.0);
        }
        _ => panic!("expected SetParameterValue command"),
    }
}

#[test]
fn parse_recall_scene() {
    let session = test_session_with_nodes();
    let intent = parse_agent_intent("recall scene intro", &session, &parse_number);
    assert!(!intent.parsed_commands.is_empty());
    match &intent.parsed_commands[0] {
        TypedCommand::Performance(PerformanceCommand::RecallScene { scene_id }) => {
            assert_eq!(scene_id, "scene-intro");
        }
        _ => panic!("expected RecallScene command"),
    }
}

#[test]
fn parse_unrecognized_input() {
    let session = test_session_with_nodes();
    let intent = parse_agent_intent("hello what is the weather", &session, &parse_number);
    assert!(intent.parsed_commands.is_empty());
    assert_eq!(f64::from_bits(intent.confidence), 0.0);
}

#[test]
fn parse_set_parameter_takes_first_parameter_and_scores_lower() {
    let session = test_session_with_nodes();
    let intent = parse_agent_intent("Set level = 0.25 on NODE-3", &session, &parse_number);
    assert_eq!(intent.parsed_commands.len(), 1);
    match &intent.parsed_commands[0] {
        TypedCommand::GraphEdit(GraphEditCommand::SetParameterValue {
            node_id,
            parameter_id,
            value,
        }) => {
            assert_eq!(node_id, "node-3");
            assert_eq!(parameter_id, "param-lvl");
            assert_eq!(f64::from_bits(*value), 0.25);
        }
        _ => panic!("expected SetParameterValue command"),
    }
    assert_eq!(intent.confidence, CONFIDENCE_PARAMETER);
    assert_eq!(intent.raw_input, "Set level = 0.25 on NODE-3");
}

#[test]
fn parse_added_source_is_agent_owned_with_fresh_ids() {
    let session = test_session_with_nodes();
    let intent = parse_agent_intent("please ADD an Osc", &session, &parse_number);
    assert_eq!(intent.confidence, CONFIDENCE_COMMAND);
    match &intent.parsed_commands[0] {
        TypedCommand::GraphEdit(GraphEditCommand::AddNode { node }) => {
            assert_eq!(node.id.len(), 36);
            assert_eq!(node.node_type_id, "oscillator");
            assert_eq!(node.ownership.controller, ControllerKind::Agent);
            assert!(!node.ownership.is_locked);
            assert_eq!(node.ports.len(), 1);
            assert_eq!(node.ports[0].name, "main_out");
            assert_eq!(node.parameters[0].name, "level");
            assert_eq!(f64::from_bits(node.parameters[0].value), 0.8);
            assert_ne!(node.id, node.ports[0].id);
        }
        _ => panic!("expected AddNode command"),
    }
}

#[test]
fn parse_save_variation_uses_quoted_name_and_named_scene() {
    let mut session = test_session_with_nodes();
    session.scenes.push(SceneDefinition {
        id: "scene-outro".to_string(),
        name: "Outro".to_string(),
        active_node_ids: vec![],
        macro_overrides: vec![],
    });
    let intent =
        parse_agent_intent("save variation \"calm\" for scene outro", &session, &parse_number);
    assert_eq!(intent.parsed_commands.len(), 1);
    match &intent.parsed_commands[0] {
        TypedCommand::Performance(PerformanceCommand::SaveVariation { name, scene_id }) => {
            assert_eq!(name, "calm");
            assert_eq!(scene_id, "scene-outro");
        }
        _ => panic!("expected SaveVariation command"),
    }
    let intent = parse_agent_intent("save variation now", &session, &parse_number);
    match &intent.parsed_commands[0] {
        TypedCommand::Performance(PerformanceCommand::SaveVariation { name, scene_id }) => {
            assert_eq!(name, "agent-variation");
            assert_eq!(scene_id, "scene-intro");
        }
        _ => panic!("expected SaveVariation command"),
    }
}

#[test]
fn parse_restore_variation_needs_a_variation() {
    let session = test_session_with_nodes();
    let intent = parse_agent_intent("restore variation", &session, &parse_number);
    assert!(intent.parsed_commands.is_empty());
}

#[test]
fn ownership_gate_allows_user_always() {
    let store = SessionStore::new_default();
    let actor = ActorRef { actor_id: "user".to_string(), correlation_id: new_id() };
    let cmd = TypedCommand::GraphEdit(GraphEditCommand::RemoveNode {
        node_id: "anything".to_string(),
    });
    assert!(store.check_ownership(&actor, &cmd).is_ok());
}

#[test]
fn ownership_gate_rejects_agent_when_frozen() {
    let mut store = SessionStore::new_default();
    store.current_mut().agent_frozen = true;
    let cmd = TypedCommand::GraphEdit(GraphEditCommand::RemoveNode {
        node_id: "anything".to_string(),
    });
    let result = store.check_ownership(&agent(), &cmd);
    assert!(result.is_err());
    let errors = result.unwrap_err();
    assert_eq!(errors[0].reason, OwnershipGateReason::AgentFrozen);
}

#[test]
fn ownership_gate_rejects_agent_on_user_owned_node() {
    let mut store = SessionStore::new_default();
    store.replace_current(test_session_with_nodes());
    let cmd = TypedCommand::GraphEdit(GraphEditCommand::SetParameterValue {
        node_id: "node-2".to_string(),
        parameter_id: "any".to_string(),
        value: 1.0f64.to_bits(),
    });
    let result = store.check_ownership(&agent(), &cmd);
    assert!(result.is_err());
}

#[test]
fn ownership_gate_allows_agent_on_shared_node() {
    let mut store = SessionStore::new_default();
    store.replace_current(test_session_with_nodes());
    let cmd = TypedCommand::GraphEdit(GraphEditCommand::SetParameterValue {
        node_id: "node-1".to_string(),
        parameter_id: "param-freq".to_string(),
        value: 880.0f64.to_bits(),
    });
    assert!(store.check_ownership(&agent(), &cmd).is_ok());
}

#[test]
fn ownership_gate_rejects_on_locked_node() {
    let mut store = SessionStore::new_default();
    store.replace_current(test_session_with_nodes());
    let cmd = TypedCommand::GraphEdit(GraphEditCommand::SetParameterValue {
        node_id: "node-locked".to_string(),
        parameter_id: "any".to_string(),
        value: 1.0f64.to_bits(),
    });
    let result = store.check_ownership(&agent(), &cmd);
    assert!(result.is_err());
    assert_eq!(result.unwrap_err()[0].reason, OwnershipGateReason::LockedNode);
}

#[test]
fn apply_agent_command_respects_ownership() {
    let mut store = SessionStore::new_default();
    store.replace_current(test_session_with_nodes());
    let intent = AgentIntent {
        raw_input: "set frequency to 880 on node-1".to_string(),
        parsed_commands: vec![TypedCommand::GraphEdit(GraphEditCommand::SetParameterValue {
            node_id: "node-1".to_string(),
            parameter_id: "param-freq".to_string(),
            value: 880.0f64.to_bits(),
        })],
        confidence: 0.9f64.to_bits(),
    };
    let result = apply_agent_command(&mut store, agent(), intent, &render, &scale).unwrap();
    assert_eq!(result.applied.len(), 1);
    assert!(result.rejected.is_empty());
}

#[test]
fn apply_agent_command_rejects_user_owned() {
    let mut store = SessionStore::new_default();
    store.replace_current(test_session_with_nodes());
    let intent = AgentIntent {
        raw_input: "remove node-2".to_string(),
        parsed_commands: vec![TypedCommand::GraphEdit(GraphEditCommand::RemoveNode {
            node_id: "node-2".to_string(),
        })],
        confidence: 0.9f64.to_bits(),
    };
    let result = apply_agent_command(&mut store, agent(), intent, &render, &scale).unwrap();
    assert!(result.applied.is_empty());
    assert_eq!(result.rejected.len(), 1);
}

#[test]
fn apply_planner_proposal_records_provider() {
    let mut store = SessionStore::new_default();
    store.replace_current(test_session_with_nodes());
    let proposal = PlannerProposal {
        raw_input: "set".to_string(),
        commands: vec![TypedCommand::GraphEdit(GraphEditCommand::SetParameterValue {
            node_id: "node-1".to_string(),
            parameter_id: "param-freq".to_string(),
            value: 660.0f64.to_bits(),
        })],
        confidence: 0.5f64.to_bits(),
        provider_id: "local-parser".to_string(),
    };
    let result = apply_planner_proposal(&mut store, agent(), proposal, &render, &scale).unwrap();
    assert_eq!(result.planner_provider_id.as_deref(), Some("local-parser"));
    assert_eq!(result.applied.len(), 1);
    assert_eq!(store.current().nodes[0].parameters[0].value, 660.0f64.to_bits());
}

#[test]
fn plan_and_apply_reports_planner_failure_without_change() {
    let mut store = SessionStore::new_default();
    store.replace_current(test_session_with_nodes());
    let before = store.current();
    let failure = PlannerProviderError::Unavailable {
        provider_id: "remote".to_string(),
        reason: "provider is not available".to_string(),
    };
    let result =
        plan_and_apply_agent_request(&mut store, agent(), Err(failure.clone_for_test()), &render, &scale);
    assert!(matches!(result, Err(AgentCommandError::Planner(_))));
    assert_eq!(store.current(), before);
}

trait CloneForTest {
    fn clone_for_test(&self) -> Self;
}

impl CloneForTest for PlannerProviderError {
    fn clone_for_test(&self) -> Self {
        match self {
            PlannerProviderError::Unavailable { provider_id, reason } => {
                PlannerProviderError::Unavailable {
                    provider_id: provider_id.clone(),
                    reason: reason.clone(),
                }
            }
            PlannerProviderError::ProviderFailed { provider_id, detail } => {
                PlannerProviderError::ProviderFailed {
                    provider_id: provider_id.clone(),
                    detail: detail.clone(),
                }
            }
            PlannerProviderError::InvalidOutput { provider_id, detail } => {
                PlannerProviderError::InvalidOutput {
                    provider_id: provider_id.clone(),
                    detail: detail.clone(),
                }
            }
        }
    }
}

#[test]
fn toggle_agent_freeze_flips_flag() {
    let mut store = SessionStore::new_default();
    assert!(!store.current().agent_frozen);
    let session = toggle_agent_freeze(&mut store).unwrap();
    assert!(session.agent_frozen);
    let session = toggle_agent_freeze(&mut store).unwrap();
    assert!(!session.agent_frozen);
}

#[test]
fn reclaim_ownership_transfers_agent_nodes_to_user() {
    let mut store = SessionStore::new_default();
    store.replace_current(test_session_with_nodes());
    let session = reclaim_ownership(&mut store, None, None).unwrap();
    for node in &session.nodes {
        assert_ne!(node.ownership.controller, ControllerKind::Agent);
    }
}

#[test]
fn reclaim_ownership_specific_nodes_with_controller() {
    let mut store = SessionStore::new_default();
    store.replace_current(test_session_with_nodes());
    let session = reclaim_ownership(
        &mut store,
        Some(vec!["node-1".to_string()]),
        Some(ControllerKind::Agent),
    )
    .unwrap();
    let node1 = session.nodes.iter().find(|n| n.id == "node-1").unwrap();
    assert_eq!(node1.ownership.controller, ControllerKind::Agent);
}

fn queue_agent_removal(store: &mut SessionStore) -> String {
    let intent = AgentIntent {
        raw_input: "remove node-3".to_string(),
        parsed_commands: vec![TypedCommand::GraphEdit(GraphEditCommand::RemoveNode {
            node_id: "node-3".to_string(),
        })],
        confidence: 0.9f64.to_bits(),
    };
    let result = apply_agent_command(store, agent(), intent, &render, &scale).unwrap();
    assert!(result.applied.is_empty());
    assert_eq!(result.pending.len(), 1);
    result.pending[0].id.clone()
}

fn unavailable(result: Result<SessionDocument, AgentCommandError>, id: &str) -> bool {
    match result {
        Err(AgentCommandError::OwnershipBlocked(AgentBlock::PendingActionUnavailable {
            pending_action_id,
        })) => pending_action_id == id,
        _ => false,
    }
}

#[test]
fn rejected_action_cannot_be_decided_again() {
    let mut store = SessionStore::new_default();
    store.replace_current(test_session_with_nodes());
    let id = queue_agent_removal(&mut store);
    let session = reject_pending_action(&mut store, &id, &render).unwrap();
    assert_eq!(session.pending_actions[0].status, PendingActionStatus::Rejected);
    assert_eq!(session.nodes.len(), 4);
    assert!(unavailable(reject_pending_action(&mut store, &id, &render), &id));
    assert!(unavailable(approve_pending_action(&mut store, &id, &render, &scale), &id));
}

#[test]
fn approved_action_runs_once_and_leaves_the_queue() {
    let mut store = SessionStore::new_default();
    store.replace_current(test_session_with_nodes());
    let id = queue_agent_removal(&mut store);
    let session = approve_pending_action(&mut store, &id, &render, &scale).unwrap();
    assert_eq!(session.pending_actions[0].status, PendingActionStatus::Approved);
    assert_eq!(session.nodes.len(), 3);
    assert!(store.current().pending_actions.is_empty());
    assert!(!session.nodes.iter().any(|n| n.id == "node-3"));
    assert!(unavailable(approve_pending_action(&mut store, &id, &render, &scale), &id));
    assert!(unavailable(reject_pending_action(&mut store, &id, &render), &id));
}

#[test]
fn deciding_an_unknown_action_is_refused_without_change() {
    let mut store = SessionStore::new_default();
    store.replace_current(test_session_with_nodes());
    let before = store.current();
    let id = "missing".to_string();
    assert!(unavailable(reject_pending_action(&mut store, &id, &render), "missing"));
    assert_eq!(store.current(), before);
}

#[test]
fn unavailable_pending_action_is_described() {
    let block = AgentBlock::PendingActionUnavailable { pending_action_id: "pa-1".to_string() };
    assert_eq!(block.message(&render), "pending action 'pa-1' not found or already resolved");
}

#[test]
fn agent_add_with_inverted_or_nan_range_is_rejected() {
    for (min, max) in [(1.0f64, 0.0f64), (f64::NAN, 1.0)] {
        let mut store = SessionStore::new_default();
        store.replace_current(test_session_with_nodes());
        let new_node = node(
            "node-new",
            NodeType::Source,
            vec![],
            vec![param("param-x", "x", 0.5, min, max, "linear")],
            ControllerKind::Agent,
            false,
        );
        let intent = AgentIntent {
            raw_input: "add".to_string(),
            parsed_commands: vec![TypedCommand::GraphEdit(GraphEditCommand::AddNode { node: new_node })],
            confidence: 0.9f64.to_bits(),
        };
        let result = apply_agent_command(&mut store, agent(), intent, &render, &scale).unwrap();
        assert!(result.applied.is_empty());
        assert_eq!(result.rejected.len(), 1);
        match &result.rejected[0].1 {
            AgentRejection::Proposal(e) => {
                assert_eq!(
                    *e,
                    ProposalRejection::InvalidParameterRange {
                        node_id: "node-new".to_string(),
                        parameter_id: "param-x".to_string()
                    }
                );
                assert_eq!(e.message(&render), "parameter 'param-x' on node 'node-new' has an invalid range");
            }
            _ => panic!("expected a proposal rejection"),
        }
        assert_eq!(store.current().nodes.len(), 4);
    }
}

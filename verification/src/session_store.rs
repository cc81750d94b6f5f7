//! The session store: the one current session document, the ownership gate
//! that decides which commands an actor may run, and the bounded action log.
use vstd::prelude::*;
use vstd::string::StringExecFns;
use crate::domain::{
    new_id, ActionHistoryEntry, ActorRef, AgentRuntimeState, ControllerKind, DiffSummary,
    GraphEditCommand, HardwareBinding, HardwareLearnLifecycle, HardwareLearnStatus,
    HardwareRuntimeSettings, HardwareRuntimeStatus, MidiRuntimeStatus, Node, OscRuntimeStatus,
    NodeType, PerformanceCommand, SessionDocument, TypedCommand,
};
use crate::hardware::HardwareLearnState;
use crate::lookup::{find_by_id, find_id, first_id, has_id, HasId};

verus! {

/// Why the ownership gate refused a command.
#[derive(Clone, Copy, Debug, PartialEq, Eq, Structural)]
pub enum OwnershipGateReason {
    AgentFrozen,
    LockedNode,
    AgentBlockedByUserOwnership,
}

/// One refusal of the ownership gate, for one node (empty when the whole
/// agent is frozen).
#[derive(Debug, PartialEq)]
pub struct OwnershipGateError {
    pub node_id: String,
    pub reason: OwnershipGateReason,
}

impl Clone for OwnershipGateError {
    fn clone(&self) -> (r: Self)
        ensures
            r == *self,
    {
        OwnershipGateError { node_id: self.node_id.clone(), reason: self.reason }
    }
}

impl OwnershipGateError {
    /// The text shown for this refusal.
    pub open spec fn spec_message(&self) -> Seq<char> {
        match self.reason {
            OwnershipGateReason::AgentFrozen => "agent is frozen"@,
            OwnershipGateReason::LockedNode => "node '"@ + self.node_id@ + "' is locked"@,
            OwnershipGateReason::AgentBlockedByUserOwnership => "node '"@ + self.node_id@
                + "' is user-owned"@,
        }
    }

    /// The text shown for this refusal.
    pub fn message(&self) -> (r: String)
        ensures
            r@ == self.spec_message(),
    {
        match self.reason {
            OwnershipGateReason::AgentFrozen => "agent is frozen".to_owned(),
            OwnershipGateReason::LockedNode => {
                let mut s = "node '".to_owned();
                s.append(self.node_id.as_str());
                s.append("' is locked");
                s
            },
            OwnershipGateReason::AgentBlockedByUserOwnership => {
                let mut s = "node '".to_owned();
                s.append(self.node_id.as_str());
                s.append("' is user-owned");
                s
            },
        }
    }
}

/// The actor id that stands for the human user.
pub open spec fn is_user_actor(actor: ActorRef) -> bool {
    actor.actor_id@ == "user"@
}

/// Whether `actor` is the human user.
pub fn actor_is_user(actor: &ActorRef) -> (r: bool)
    ensures
        r == is_user_actor(*actor),
{
    let user = "user".to_owned();
    actor.actor_id.eq(&user)
}

/// The node ids a command touches, as the ownership gate checks them.
pub open spec fn target_node_ids(command: TypedCommand) -> Seq<String> {
    match command {
        TypedCommand::GraphEdit(g) => match g {
            GraphEditCommand::AddNode { .. } => seq![],
            GraphEditCommand::RemoveNode { node_id } => seq![node_id],
            GraphEditCommand::SetNodeEnabled { node_id, .. } => seq![node_id],
            GraphEditCommand::SetParameterValue { node_id, .. } => seq![node_id],
            GraphEditCommand::AddRoute { route } => seq![route.source_node_id, route.target_node_id],
            GraphEditCommand::RemoveRoute { .. } => seq![],
            GraphEditCommand::AssignNodeToBus { node_id, .. } => seq![node_id],
            GraphEditCommand::ClearNodeBusAssignment { node_id } => seq![node_id],
        },
        TypedCommand::Performance(_) => seq![],
    }
}

/// The node ids a command touches.
pub fn extract_target_node_ids(command: &TypedCommand) -> (r: Vec<String>)
    ensures
        r@ == target_node_ids(*command),
{
    let mut v: Vec<String> = Vec::new();
    match command {
        TypedCommand::GraphEdit(g) => match g {
            GraphEditCommand::AddNode { .. } => {},
            GraphEditCommand::RemoveNode { node_id } => v.push(node_id.clone()),
            GraphEditCommand::SetNodeEnabled { node_id, .. } => v.push(node_id.clone()),
            GraphEditCommand::SetParameterValue { node_id, .. } => v.push(node_id.clone()),
            GraphEditCommand::AddRoute { route } => {
                v.push(route.source_node_id.clone());
                v.push(route.target_node_id.clone());
            },
            GraphEditCommand::RemoveRoute { .. } => {},
            GraphEditCommand::AssignNodeToBus { node_id, .. } => v.push(node_id.clone()),
            GraphEditCommand::ClearNodeBusAssignment { node_id } => v.push(node_id.clone()),
        },
        TypedCommand::Performance(_) => {},
    }
    assert(v@ =~= target_node_ids(*command));
    v
}

/// An ownership refusal as plain values: the node id's text and the reason.
pub open spec fn gate_view(e: OwnershipGateError) -> (Seq<char>, OwnershipGateReason) {
    (e.node_id@, e.reason)
}

/// The ownership verdict on one targeted node for an agent: a locked node is
/// refused, then a user-owned one; nodes that do not exist pass.
pub open spec fn node_gate(nodes: Seq<Node>, id: Seq<char>) -> Option<OwnershipGateReason> {
    if !has_id(nodes, id) {
        None
    } else {
        let n = find_id(nodes, id);
        if n.ownership.is_locked {
            Some(OwnershipGateReason::LockedNode)
        } else if n.ownership.controller == ControllerKind::User {
            Some(OwnershipGateReason::AgentBlockedByUserOwnership)
        } else {
            None
        }
    }
}

/// The refusals for the targeted ids, in order.
pub open spec fn gate_errors(nodes: Seq<Node>, ids: Seq<String>) -> Seq<(Seq<char>, OwnershipGateReason)>
    decreases ids.len(),
{
    if ids.len() == 0 {
        seq![]
    } else {
        let rest = gate_errors(nodes, ids.drop_last());
        match node_gate(nodes, ids.last()@) {
            Some(reason) => rest.push((ids.last()@, reason)),
            None => rest,
        }
    }
}

/// Every refusal of the ownership gate for `actor` running `command` on
/// `session`: none for the user; one for a frozen agent, with an empty node
/// id; otherwise one per refusing targeted node.
pub open spec fn ownership_refusals(session: SessionDocument, actor: ActorRef, command: TypedCommand) -> Seq<
    (Seq<char>, OwnershipGateReason),
> {
    if is_user_actor(actor) {
        seq![]
    } else if session.agent_frozen {
        seq![(Seq::<char>::empty(), OwnershipGateReason::AgentFrozen)]
    } else {
        gate_errors(session.nodes@, target_node_ids(command))
    }
}

/// An agent may change node `id` of `nodes`: there is no such node, or it
/// is neither locked nor owned by the user.
pub open spec fn agent_may_change(nodes: Seq<Node>, id: Seq<char>) -> bool {
    has_id(nodes, id) ==> !find_id(nodes, id).ownership.is_locked && find_id(nodes, id).ownership.controller
        != ControllerKind::User
}

proof fn lemma_gate_errors_empty(nodes: Seq<Node>, ids: Seq<String>)
    ensures
        gate_errors(nodes, ids).len() == 0 <==> forall|k: int|
            0 <= k < ids.len() ==> agent_may_change(nodes, (#[trigger] ids[k])@),
    decreases ids.len(),
{
    if ids.len() > 0 {
        lemma_gate_errors_empty(nodes, ids.drop_last());
        let rest = gate_errors(nodes, ids.drop_last());
        assert(node_gate(nodes, ids.last()@) is None <==> agent_may_change(nodes, ids.last()@));
        if gate_errors(nodes, ids).len() == 0 {
            assert forall|k: int| 0 <= k < ids.len() implies agent_may_change(nodes, (#[trigger] ids[k])@) by {
                if k < ids.len() - 1 {
                    assert(ids.drop_last()[k] == ids[k]);
                }
            }
        } else if forall|k: int| 0 <= k < ids.len() ==> agent_may_change(nodes, (#[trigger] ids[k])@) {
            assert forall|k: int| 0 <= k < ids.drop_last().len() implies agent_may_change(
                nodes,
                (#[trigger] ids.drop_last()[k])@,
            ) by {
                assert(ids.drop_last()[k] == ids[k]);
            }
            assert(agent_may_change(nodes, ids[ids.len() - 1]@));
        }
    }
}

/// The ownership gate lets an agent through only when it is not frozen
/// and may change every node the command touches: both ends of a new
/// route, the node a node edit names. It lets it through whenever that
/// holds.
pub proof fn lemma_gate_passes_agent(session: SessionDocument, actor: ActorRef, command: TypedCommand)
    requires
        !is_user_actor(actor),
    ensures
        ownership_refusals(session, actor, command).len() == 0 <==> {
            &&& !session.agent_frozen
            &&& match command {
                TypedCommand::GraphEdit(g) => match g {
                    GraphEditCommand::AddRoute { route } => agent_may_change(session.nodes@, route.source_node_id@)
                        && agent_may_change(session.nodes@, route.target_node_id@),
                    GraphEditCommand::RemoveNode { node_id } => agent_may_change(session.nodes@, node_id@),
                    GraphEditCommand::SetNodeEnabled { node_id, .. } => agent_may_change(session.nodes@, node_id@),
                    GraphEditCommand::SetParameterValue { node_id, .. } => agent_may_change(session.nodes@, node_id@),
                    GraphEditCommand::AssignNodeToBus { node_id, .. } => agent_may_change(session.nodes@, node_id@),
                    GraphEditCommand::ClearNodeBusAssignment { node_id } => agent_may_change(session.nodes@, node_id@),
                    GraphEditCommand::AddNode { .. } | GraphEditCommand::RemoveRoute { .. } => true,
                },
                TypedCommand::Performance(_) => true,
            }
        },
{
    let ids = target_node_ids(command);
    lemma_gate_errors_empty(session.nodes@, ids);
    match command {
        TypedCommand::GraphEdit(GraphEditCommand::AddRoute { route }) => {
            assert(ids[0] == route.source_node_id && ids[1] == route.target_node_id);
        },
        _ => {},
    }
}

/// The ownership gate never refuses the user.
pub proof fn lemma_gate_passes_user(session: SessionDocument, actor: ActorRef, command: TypedCommand)
    requires
        is_user_actor(actor),
    ensures
        ownership_refusals(session, actor, command).len() == 0,
{
}

/// The size the action log is kept to.
pub const ACTION_HISTORY_LIMIT: usize = 200;

/// The timestamp written on log entries and pending actions.
pub open spec fn action_timestamp() -> Seq<char> {
    "2026-04-12T00:00:00Z"@
}

/// The lowercase name of a node type, as the diff text shows it.
pub open spec fn node_type_word(t: NodeType) -> Seq<char> {
    match t {
        NodeType::Source => "source"@,
        NodeType::Effect => "effect"@,
        NodeType::Mixer => "mixer"@,
        NodeType::Output => "output"@,
    }
}

fn node_type_text(t: NodeType) -> (r: String)
    ensures
        r@ == node_type_word(t),
{
    match t {
        NodeType::Source => "source".to_owned(),
        NodeType::Effect => "effect".to_owned(),
        NodeType::Mixer => "mixer".to_owned(),
        NodeType::Output => "output".to_owned(),
    }
}

/// The nodes a logged command names as affected.
pub open spec fn diff_affected_ids(command: TypedCommand) -> Seq<String> {
    match command {
        TypedCommand::GraphEdit(g) => match g {
            GraphEditCommand::AddNode { node } => seq![node.id],
            GraphEditCommand::RemoveRoute { .. } => seq![],
            _ => target_node_ids(command),
        },
        TypedCommand::Performance(_) => seq![],
    }
}

/// The log text of a command; `value_text` is how the parameter value of a
/// `SetParameterValue` is written (unused by the other commands).
pub open spec fn diff_text(command: TypedCommand, value_text: Seq<char>) -> Seq<char> {
    match command {
        TypedCommand::GraphEdit(g) => match g {
            GraphEditCommand::AddNode { node } => "Added "@ + node_type_word(node.node_type)
                + " node"@,
            GraphEditCommand::RemoveNode { node_id } => "Removed node "@ + node_id@,
            GraphEditCommand::SetNodeEnabled { node_id, enabled } => "Set node "@ + node_id@ + " "@
                + if enabled {
                "enabled"@
            } else {
                "disabled"@
            },
            GraphEditCommand::SetParameterValue { node_id, parameter_id, .. } => "Set parameter "@
                + parameter_id@ + " to "@ + value_text + " on "@ + node_id@,
            GraphEditCommand::AddRoute { route } => "Added route from "@ + route.source_node_id@
                + " to "@ + route.target_node_id@,
            GraphEditCommand::RemoveRoute { route_id } => "Removed route "@ + route_id@,
            GraphEditCommand::AssignNodeToBus { node_id, bus_id } => "Assigned node "@ + node_id@
                + " to bus "@ + bus_id@,
            GraphEditCommand::ClearNodeBusAssignment { node_id } => "Cleared bus assignment for node "@
                + node_id@,
        },
        TypedCommand::Performance(p) => match p {
            PerformanceCommand::RecallScene { scene_id } => "Recalled scene "@ + scene_id@,
            PerformanceCommand::SaveVariation { name, .. } => "Saved variation '"@ + name@ + "'"@,
            PerformanceCommand::RestoreVariation { variation_id } => "Restored variation "@
                + variation_id@,
        },
    }
}

/// The value a command logs, if it carries one (`f64` bits).
pub open spec fn logged_value(command: TypedCommand) -> u64 {
    match command {
        TypedCommand::GraphEdit(GraphEditCommand::SetParameterValue { value, .. }) => value,
        _ => 0,
    }
}

/// `d` is the diff summary of `command`, where `render` writes parameter
/// values and `description`, when given, replaces the text.
pub open spec fn is_diff_summary<R: Fn(u64) -> String>(
    d: DiffSummary,
    command: TypedCommand,
    render: R,
    description: Option<String>,
) -> bool {
    &&& d.affected_node_ids@ == diff_affected_ids(command)
    &&& d.before_snippet@ == Seq::<char>::empty()
    &&& d.after_snippet@ == Seq::<char>::empty()
    &&& match description {
        Some(text) => d.description == text,
        None => exists|t: String|
            render.ensures((logged_value(command),), t) && d.description@ == diff_text(command, t@),
    }
}

/// The diff summary logged for `command`; `render_value` writes the value
/// of a `SetParameterValue` (`f64` bits) as text.
pub fn generate_diff_summary<R: Fn(u64) -> String>(
    command: &TypedCommand,
    render_value: &R,
    description: Option<String>,
) -> (d: DiffSummary)
    requires
        forall|v: u64| render_value.requires((v,)),
    ensures
        is_diff_summary(d, *command, *render_value, description),
{
    let affected = match command {
        TypedCommand::GraphEdit(GraphEditCommand::AddNode { node }) => {
            let mut v: Vec<String> = Vec::new();
            v.push(node.id.clone());
            v
        },
        TypedCommand::GraphEdit(GraphEditCommand::RemoveRoute { .. }) => Vec::new(),
        _ => extract_target_node_ids(command),
    };
    assert(affected@ =~= diff_affected_ids(*command));
    let text = match description {
        Some(text) => text,
        None => {
            let value: u64 = match command {
                TypedCommand::GraphEdit(GraphEditCommand::SetParameterValue { value, .. }) => *value,
                _ => 0,
            };
            let t = render_value(value);
            let d = describe_command(command, &t);
            assert(render_value.ensures((logged_value(*command),), t));
            d
        },
    };
    DiffSummary {
        description: text,
        affected_node_ids: affected,
        before_snippet: String::new(),
        after_snippet: String::new(),
    }
}

/// The log text of `command`, with `value_text` for a parameter value.
pub fn describe_command(command: &TypedCommand, value_text: &String) -> (r: String)
    ensures
        r@ == diff_text(*command, value_text@),
{
    match command {
        TypedCommand::GraphEdit(g) => match g {
            GraphEditCommand::AddNode { node } => {
                let mut s = "Added ".to_owned();
                let w = node_type_text(node.node_type);
                s.append(w.as_str());
                s.append(" node");
                s
            },
            GraphEditCommand::RemoveNode { node_id } => {
                let mut s = "Removed node ".to_owned();
                s.append(node_id.as_str());
                s
            },
            GraphEditCommand::SetNodeEnabled { node_id, enabled } => {
                let mut s = "Set node ".to_owned();
                s.append(node_id.as_str());
                s.append(" ");
                if *enabled {
                    s.append("enabled");
                } else {
                    s.append("disabled");
                }
                s
            },
            GraphEditCommand::SetParameterValue { node_id, parameter_id, .. } => {
                let mut s = "Set parameter ".to_owned();
                s.append(parameter_id.as_str());
                s.append(" to ");
                s.append(value_text.as_str());
                s.append(" on ");
                s.append(node_id.as_str());
                s
            },
            GraphEditCommand::AddRoute { route } => {
                let mut s = "Added route from ".to_owned();
                s.append(route.source_node_id.as_str());
                s.append(" to ");
                s.append(route.target_node_id.as_str());
                s
            },
            GraphEditCommand::RemoveRoute { route_id } => {
                let mut s = "Removed route ".to_owned();
                s.append(route_id.as_str());
                s
            },
            GraphEditCommand::AssignNodeToBus { node_id, bus_id } => {
                let mut s = "Assigned node ".to_owned();
                s.append(node_id.as_str());
                s.append(" to bus ");
                s.append(bus_id.as_str());
                s
            },
            GraphEditCommand::ClearNodeBusAssignment { node_id } => {
                let mut s = "Cleared bus assignment for node ".to_owned();
                s.append(node_id.as_str());
                s
            },
        },
        TypedCommand::Performance(p) => match p {
            PerformanceCommand::RecallScene { scene_id } => {
                let mut s = "Recalled scene ".to_owned();
                s.append(scene_id.as_str());
                s
            },
            PerformanceCommand::SaveVariation { name, .. } => {
                let mut s = "Saved variation '".to_owned();
                s.append(name.as_str());
                s.append("'");
                s
            },
            PerformanceCommand::RestoreVariation { variation_id } => {
                let mut s = "Restored variation ".to_owned();
                s.append(variation_id.as_str());
                s
            },
        },
    }
}

/// `e` is the log entry of `actor` running `command`: a fresh id, the fixed
/// timestamp, the actor, a copy of the command and its diff summary.
pub open spec fn is_log_entry<R: Fn(u64) -> String>(
    e: ActionHistoryEntry,
    actor: ActorRef,
    command: TypedCommand,
    render: R,
    description: Option<String>,
) -> bool {
    &&& crate::domain::is_uuid_v4_text(e.id@)
    &&& e.timestamp@ == action_timestamp()
    &&& e.actor == actor
    &&& e.command.same(&command)
    &&& is_diff_summary(e.diff, command, render, description)
}

/// `h` is `old` with one entry appended and then only the most recent
/// `ACTION_HISTORY_LIMIT` kept; the appended entry satisfies `entry_ok`.
pub open spec fn appended_and_capped(
    old: Seq<ActionHistoryEntry>,
    h: Seq<ActionHistoryEntry>,
) -> bool {
    let n = old.len() + 1;
    let dropped = if n > ACTION_HISTORY_LIMIT {
        n - ACTION_HISTORY_LIMIT
    } else {
        0
    };
    &&& h.len() == n - dropped
    &&& forall|i: int| 0 <= i < h.len() - 1 ==> #[trigger] h[i] == old[i + dropped]
}

/// How the learn state is reported.
pub open spec fn learn_status(state: HardwareLearnState) -> HardwareLearnStatus {
    match state {
        HardwareLearnState::Idle => HardwareLearnStatus {
            lifecycle: HardwareLearnLifecycle::Idle,
            target: None,
            source: None,
        },
        HardwareLearnState::Learning { target } => HardwareLearnStatus {
            lifecycle: HardwareLearnLifecycle::Learning,
            target: Some(target),
            source: None,
        },
        HardwareLearnState::Captured { source, target } => HardwareLearnStatus {
            lifecycle: HardwareLearnLifecycle::Captured,
            target: Some(target),
            source: Some(source),
        },
    }
}

/// The session store: the current document and the hardware state kept
/// beside it.
pub struct SessionStore {
    current: SessionDocument,
    hardware_settings: HardwareRuntimeSettings,
    hardware_status: HardwareRuntimeStatus,
    learn_state: HardwareLearnState,
}

impl SessionStore {
    /// The current session.
    pub closed spec fn session(&self) -> SessionDocument {
        self.current
    }

    /// The hardware settings in force.
    pub closed spec fn settings(&self) -> HardwareRuntimeSettings {
        self.hardware_settings
    }

    /// The hardware status last recorded.
    pub closed spec fn status(&self) -> HardwareRuntimeStatus {
        self.hardware_status
    }

    /// The MIDI/OSC learn state.
    pub closed spec fn learn(&self) -> HardwareLearnState {
        self.learn_state
    }

    /// A store over `session`, with the given hardware state.
    pub fn from_parts(
        session: SessionDocument,
        settings: HardwareRuntimeSettings,
        status: HardwareRuntimeStatus,
    ) -> (s: Self)
        ensures
            s.session() == session,
            s.settings() == settings,
            s.status() == status,
            s.learn() == HardwareLearnState::Idle,
    {
        SessionStore {
            current: session,
            hardware_settings: settings,
            hardware_status: status,
            learn_state: HardwareLearnState::Idle,
        }
    }

    /// A copy of the current session.
    pub fn current(&self) -> (r: SessionDocument)
        ensures
            r.same(&self.session()),
    {
        self.current.clone()
    }

    /// The current session, to read.
    pub fn current_ref(&self) -> (r: &SessionDocument)
        ensures
            *r == self.session(),
    {
        &self.current
    }

    /// Replaces the current session.
    pub fn replace_current(&mut self, session: SessionDocument)
        ensures
            final(self).session() == session,
            final(self).settings() == old(self).settings(),
            final(self).status() == old(self).status(),
            final(self).learn() == old(self).learn(),
    {
        self.current = session;
    }

    /// The current session, to be edited in place; nothing else changes.
    pub fn current_mut(&mut self) -> (r: &mut SessionDocument)
        ensures
            *r == old(self).session(),
            final(self).session() == *final(r),
            final(self).settings() == old(self).settings(),
            final(self).status() == old(self).status(),
            final(self).learn() == old(self).learn(),
    {
        &mut self.current
    }

    /// The learn state, to be changed in place; nothing else changes.
    pub fn learn_mut(&mut self) -> (r: &mut HardwareLearnState)
        ensures
            *r == old(self).learn(),
            final(self).learn() == *final(r),
            final(self).session() == old(self).session(),
            final(self).settings() == old(self).settings(),
            final(self).status() == old(self).status(),
    {
        &mut self.learn_state
    }

    /// The hardware settings and status, to be changed in place; nothing
    /// else changes.
    pub fn hardware_mut(&mut self) -> (r: (&mut HardwareRuntimeSettings, &mut HardwareRuntimeStatus))
        ensures
            *r.0 == old(self).settings(),
            *r.1 == old(self).status(),
            final(self).settings() == *final(r.0),
            final(self).status() == *final(r.1),
            final(self).session() == old(self).session(),
            final(self).learn() == old(self).learn(),
    {
        (&mut self.hardware_settings, &mut self.hardware_status)
    }

    /// The hardware status as reported: the recorded status, with the learn
    /// state and the MIDI selection and OSC binding of the settings in force.
    pub fn hardware_runtime_status(&self) -> (r: HardwareRuntimeStatus)
        ensures
            r.diagnostics@ == self.status().diagnostics@,
            r.midi == (MidiRuntimeStatus {
                selected_input_id: self.settings().midi.selected_input_id,
                ..self.status().midi
            }),
            r.osc == (OscRuntimeStatus {
                bind_host: self.settings().osc.bind_host,
                listen_port: self.settings().osc.listen_port,
                ..self.status().osc
            }),
            r.learn == learn_status(self.learn()),
    {
        let mut status = self.hardware_status.clone();
        status.learn = match &self.learn_state {
            HardwareLearnState::Idle => HardwareLearnStatus {
                lifecycle: HardwareLearnLifecycle::Idle,
                target: None,
                source: None,
            },
            HardwareLearnState::Learning { target } => HardwareLearnStatus {
                lifecycle: HardwareLearnLifecycle::Learning,
                target: Some(target.clone()),
                source: None,
            },
            HardwareLearnState::Captured { source, target } => HardwareLearnStatus {
                lifecycle: HardwareLearnLifecycle::Captured,
                target: Some(target.clone()),
                source: Some(source.clone()),
            },
        };
        status.midi.selected_input_id = self.hardware_settings.midi.selected_input_id.clone();
        status.osc.bind_host = self.hardware_settings.osc.bind_host.clone();
        status.osc.listen_port = self.hardware_settings.osc.listen_port;
        status
    }

    /// A copy of the hardware settings.
    pub fn hardware_runtime_settings(&self) -> (r: HardwareRuntimeSettings)
        ensures
            r == self.settings(),
    {
        self.hardware_settings.clone()
    }

    /// The agent's runtime summary: always available, with the number of
    /// pending actions and the freeze flag.
    pub fn derive_agent_runtime_state(&self) -> (r: AgentRuntimeState)
        requires
            self.session().pending_actions@.len() <= u32::MAX,
        ensures
            r.is_available,
            r.pending_action_count == self.session().pending_actions@.len(),
            r.is_frozen == self.session().agent_frozen,
    {
        AgentRuntimeState {
            is_available: true,
            pending_action_count: self.current.pending_actions.len() as u32,
            is_frozen: self.current.agent_frozen,
        }
    }

    /// Removes the hardware binding with id `binding_id`; says whether one
    /// was there.
    pub fn remove_hardware_binding(&mut self, binding_id: &String) -> (r: bool)
        ensures
            r == has_id(old(self).session().hardware_bindings@, binding_id@),
            r ==> final(self).session() == (SessionDocument {
                hardware_bindings: final(self).session().hardware_bindings,
                ..old(self).session()
            }) && final(self).session().hardware_bindings@ == old(
                self,
            ).session().hardware_bindings@.remove(
                first_id(old(self).session().hardware_bindings@, binding_id@),
            ),
            !r ==> final(self).session() == old(self).session(),
            final(self).settings() == old(self).settings(),
            final(self).status() == old(self).status(),
            final(self).learn() == old(self).learn(),
    {
        match find_by_id(&self.current.hardware_bindings, binding_id) {
            Some(i) => {
                self.current.hardware_bindings.remove(i);
                true
            },
            None => false,
        }
    }

    /// Appends the log entry of `actor` running `command` to the action
    /// history, keeping only the most recent `ACTION_HISTORY_LIMIT` entries;
    /// nothing else changes. `description`, when given, replaces the text.
    pub fn log_action<R: Fn(u64) -> String>(
        &mut self,
        actor: &ActorRef,
        command: &TypedCommand,
        render_value: &R,
        description: Option<String>,
    )
        requires
            forall|v: u64| render_value.requires((v,)),
        ensures
            final(self).session() == (SessionDocument {
                action_history: final(self).session().action_history,
                ..old(self).session()
            }),
            appended_and_capped(
                old(self).session().action_history@,
                final(self).session().action_history@,
            ),
            is_log_entry(
                final(self).session().action_history@.last(),
                *actor,
                *command,
                *render_value,
                description,
            ),
            final(self).settings() == old(self).settings(),
            final(self).status() == old(self).status(),
            final(self).learn() == old(self).learn(),
    {
        let diff = generate_diff_summary(command, render_value, description);
        let entry = ActionHistoryEntry {
            id: new_id(),
            timestamp: "2026-04-12T00:00:00Z".to_owned(),
            actor: actor.clone(),
            command: command.clone(),
            diff,
        };
        let ghost old_h = self.current.action_history@;
        self.current.action_history.push(entry);
        let ghost full = self.current.action_history@;
        let ghost dropped: int = if full.len() > ACTION_HISTORY_LIMIT {
            full.len() - ACTION_HISTORY_LIMIT
        } else {
            0
        };
        let mut k: usize = 0;
        assert(full.len() == self.current.action_history.len());
        while self.current.action_history.len() > ACTION_HISTORY_LIMIT
            invariant
                full.len() == old_h.len() + 1,
                full.len() <= usize::MAX,
                dropped == (if full.len() > ACTION_HISTORY_LIMIT { full.len() - ACTION_HISTORY_LIMIT } else { 0 }),
                k <= dropped,
                self.current.action_history@ == full.skip(k as int),
                self.current == (SessionDocument {
                    action_history: self.current.action_history,
                    ..old(self).current
                }),
                self.hardware_settings == old(self).hardware_settings,
                self.hardware_status == old(self).hardware_status,
                self.learn_state == old(self).learn_state,
            decreases self.current.action_history.len(),
        {
            self.current.action_history.remove(0);
            k = k + 1;
            assert(self.current.action_history@ =~= full.skip(k as int));
        }
        assert(k == dropped);
    }

    /// The ownership gate: whether `actor` may run `command` on the current
    /// session, and if not, every refusal.
    pub fn check_ownership(&self, actor: &ActorRef, command: &TypedCommand) -> (r: Result<
        (),
        Vec<OwnershipGateError>,
    >)
        ensures
            match r {
                Ok(()) => ownership_refusals(self.session(), *actor, *command).len() == 0,
                Err(es) => es@.map_values(|e: OwnershipGateError| gate_view(e)) == ownership_refusals(
                    self.session(),
                    *actor,
                    *command,
                ) && es@.len() > 0,
            },
    {
        if actor_is_user(actor) {
            return Ok(());
        }
        if self.current.agent_frozen {
            let mut v: Vec<OwnershipGateError> = Vec::new();
            v.push(OwnershipGateError { node_id: String::new(), reason: OwnershipGateReason::AgentFrozen });
            assert(v@.map_values(|e: OwnershipGateError| gate_view(e)) =~= seq![(Seq::<char>::empty(), OwnershipGateReason::AgentFrozen)]);
            return Err(v);
        }
        let ids = extract_target_node_ids(command);
        let mut errors: Vec<OwnershipGateError> = Vec::new();
        let mut i: usize = 0;
        while i < ids.len()
            invariant
                i <= ids@.len(),
                errors@.map_values(|e: OwnershipGateError| gate_view(e)) == gate_errors(
                    self.current.nodes@,
                    ids@.take(i as int),
                ),
            decreases ids.len() - i,
        {
            let id = &ids[i];
            assert(ids@.take(i as int + 1).drop_last() =~= ids@.take(i as int));
            match find_by_id(&self.current.nodes, id) {
                Some(k) => {
                    let node = &self.current.nodes[k];
                    if node.ownership.is_locked {
                        errors.push(OwnershipGateError { node_id: id.clone(), reason: OwnershipGateReason::LockedNode });
                    } else if node.ownership.controller == ControllerKind::User {
                        errors.push(
                            OwnershipGateError {
                                node_id: id.clone(),
                                reason: OwnershipGateReason::AgentBlockedByUserOwnership,
                            },
                        );
                    }
                },
                None => {},
            }
            i = i + 1;
            assert(errors@.map_values(|e: OwnershipGateError| gate_view(e)) =~= gate_errors(
                self.current.nodes@,
                ids@.take(i as int),
            ));
        }
        assert(ids@.take(ids@.len() as int) =~= ids@);
        if errors.len() == 0 {
            Ok(())
        } else {
            Err(errors)
        }
    }
}

} // verus!

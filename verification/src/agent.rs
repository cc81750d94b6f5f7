//! The agent command path: risk tiers, validation of proposed commands
//! against the session, and the ownership check that applies, queues or rejects each
//! command of an agent's intent.
use vstd::prelude::*;
use crate::domain::{
    is_uuid_v4_text, new_id, ActorRef, AgentIntent, ControllerKind, GraphEditCommand, Node,
    OwnershipAssignment, ParameterOverride, ParameterValue, PendingAction, PendingActionStatus,
    PerformanceCommand, RiskTier, Route, SessionDocument, TypedCommand,
};
use crate::float_bits::{f64_is_nan, f64_lt, spec_le, spec_lt};
use crate::text::{joined3, joined5};
use crate::graph_edit::{
    apply_graph_edit, graph_edit_error, graph_edit_outcome, graph_edit_post, id_differs,
    replaces_node, retain_other_ids, route_check, validate_route, graph_edit_error_text, renders_bounds,
    GraphEditError,
};
use crate::lookup::{
    contains_id, contains_text, find_by_id, find_id, first_id, has_id, lemma_first_id_exists, HasId,
};
use crate::ordering::lemma_sorted_elements;
use crate::params::{
    bounds_ordered, lemma_ordered_writable, lemma_values_keep_bounds, node_bounds_ordered,
    same_but_values,
};
use crate::performance::{
    apply_performance_command, enabled_by, overrides_writable, performance_defined,
    performance_outcome, recall_defined, recall_post, restore_post, save_post,
    PerformanceCommandError,
};
use crate::planner::{PlannerProposal, PlannerProviderError};
use crate::session_store::{
    action_timestamp, actor_is_user, appended_and_capped, gate_view, is_log_entry, is_user_actor,
    ownership_refusals, OwnershipGateError, SessionStore,
};

verus! {

/// The risk tier of a command: removals and clearing a bus assignment are
/// high risk, structural additions and scene recalls medium, value changes
/// and variations low.
pub open spec fn risk_of(command: TypedCommand) -> RiskTier {
    match command {
        TypedCommand::GraphEdit(g) => match g {
            GraphEditCommand::SetParameterValue { .. } => RiskTier::Low,
            GraphEditCommand::AddNode { .. } => RiskTier::Medium,
            GraphEditCommand::SetNodeEnabled { .. } => RiskTier::Medium,
            GraphEditCommand::AddRoute { .. } => RiskTier::Medium,
            GraphEditCommand::AssignNodeToBus { .. } => RiskTier::Medium,
            GraphEditCommand::RemoveNode { .. } => RiskTier::High,
            GraphEditCommand::RemoveRoute { .. } => RiskTier::High,
            GraphEditCommand::ClearNodeBusAssignment { .. } => RiskTier::High,
        },
        TypedCommand::Performance(p) => match p {
            PerformanceCommand::RestoreVariation { .. } => RiskTier::Low,
            PerformanceCommand::SaveVariation { .. } => RiskTier::Low,
            PerformanceCommand::RecallScene { .. } => RiskTier::Medium,
        },
    }
}

/// The risk tier of a command.
pub fn classify_risk(command: &TypedCommand) -> (r: RiskTier)
    ensures
        r == risk_of(*command),
{
    match command {
        TypedCommand::GraphEdit(GraphEditCommand::SetParameterValue { .. }) => RiskTier::Low,
        TypedCommand::Performance(PerformanceCommand::RestoreVariation { .. }) => RiskTier::Low,
        TypedCommand::GraphEdit(GraphEditCommand::AddNode { .. }) => RiskTier::Medium,
        TypedCommand::GraphEdit(GraphEditCommand::SetNodeEnabled { .. }) => RiskTier::Medium,
        TypedCommand::Performance(PerformanceCommand::RecallScene { .. }) => RiskTier::Medium,
        TypedCommand::GraphEdit(GraphEditCommand::AddRoute { .. }) => RiskTier::Medium,
        TypedCommand::Performance(PerformanceCommand::SaveVariation { .. }) => RiskTier::Low,
        TypedCommand::GraphEdit(GraphEditCommand::RemoveNode { .. }) => RiskTier::High,
        TypedCommand::GraphEdit(GraphEditCommand::RemoveRoute { .. }) => RiskTier::High,
        TypedCommand::GraphEdit(GraphEditCommand::ClearNodeBusAssignment { .. }) => RiskTier::High,
        TypedCommand::GraphEdit(GraphEditCommand::AssignNodeToBus { .. }) => RiskTier::Medium,
    }
}

/// A graph edit that destroys part of the session: removing a node or a
/// route, or clearing a node's bus assignment.
pub open spec fn is_destructive_edit(command: TypedCommand) -> bool {
    ||| command matches TypedCommand::GraphEdit(GraphEditCommand::RemoveNode { .. })
    ||| command matches TypedCommand::GraphEdit(GraphEditCommand::RemoveRoute { .. })
    ||| command matches TypedCommand::GraphEdit(GraphEditCommand::ClearNodeBusAssignment { .. })
}

/// A command is high risk exactly when it is destructive; structural
/// additions, enabling or disabling a node, bus assignments and scene
/// recalls are medium risk; parameter values and variations are low risk.
pub proof fn lemma_destructive_is_high_risk(command: TypedCommand)
    ensures
        risk_of(command) == RiskTier::High <==> is_destructive_edit(command),
        command matches TypedCommand::GraphEdit(GraphEditCommand::SetParameterValue { .. }) ==> risk_of(command)
            == RiskTier::Low,
        command matches TypedCommand::Performance(PerformanceCommand::RestoreVariation { .. }) ==> risk_of(command)
            == RiskTier::Low,
        command matches TypedCommand::Performance(PerformanceCommand::SaveVariation { .. }) ==> risk_of(command)
            == RiskTier::Low,
        risk_of(command) == RiskTier::Medium <==> {
            ||| command matches TypedCommand::GraphEdit(GraphEditCommand::AddNode { .. })
            ||| command matches TypedCommand::GraphEdit(GraphEditCommand::AddRoute { .. })
            ||| command matches TypedCommand::GraphEdit(GraphEditCommand::SetNodeEnabled { .. })
            ||| command matches TypedCommand::GraphEdit(GraphEditCommand::AssignNodeToBus { .. })
            ||| command matches TypedCommand::Performance(PerformanceCommand::RecallScene { .. })
        },
{
}

/// Why a proposed command does not fit the session.
#[derive(Debug, PartialEq)]
pub enum ProposalRejection {
    DuplicateNode { node_id: String },
    InvalidParameterRange { node_id: String, parameter_id: String },
    /// `min` and `max` are `f64` bit patterns.
    ParameterOutOfRange { node_id: String, parameter_id: String, min: u64, max: u64 },
    MissingNode { node_id: String },
    MissingParameter { node_id: String, parameter_id: String },
    InvalidRoute { error: GraphEditError },
    MissingRoute { route_id: String },
    MissingAudioPrimitive { node_id: String },
    MissingBus { bus_id: String },
    MissingScene { scene_id: String },
    MissingVariation { variation_id: String },
    VariationOutOfRange { node_id: String, parameter_id: String },
}

/// The text of a proposal rejection; `lo` and `hi` are the written bounds
/// of an out-of-range value.
pub open spec fn proposal_text(e: ProposalRejection, lo: Seq<char>, hi: Seq<char>) -> Seq<char> {
    match e {
        ProposalRejection::DuplicateNode { node_id } => "node '"@ + node_id@ + "' already exists"@,
        ProposalRejection::InvalidParameterRange { node_id, parameter_id } => "parameter '"@ + parameter_id@
            + "' on node '"@ + node_id@ + "' has an invalid range"@,
        ProposalRejection::ParameterOutOfRange { node_id, parameter_id, .. } => "parameter '"@ + parameter_id@
            + "' on node '"@ + node_id@ + "' must be between "@ + lo + " and "@ + hi,
        ProposalRejection::MissingNode { node_id } => "node '"@ + node_id@ + "' was not found"@,
        ProposalRejection::MissingParameter { node_id, parameter_id } => "parameter '"@ + parameter_id@
            + "' was not found on node '"@ + node_id@ + "'"@,
        ProposalRejection::InvalidRoute { error } => graph_edit_error_text(error, lo, hi),
        ProposalRejection::MissingRoute { route_id } => "route '"@ + route_id@ + "' was not found"@,
        ProposalRejection::MissingAudioPrimitive { node_id } => "node '"@ + node_id@
            + "' does not support bus assignment"@,
        ProposalRejection::MissingBus { bus_id } => "bus '"@ + bus_id@ + "' was not found"@,
        ProposalRejection::MissingScene { scene_id } => "scene '"@ + scene_id@ + "' was not found"@,
        ProposalRejection::MissingVariation { variation_id } => "variation '"@ + variation_id@
            + "' was not found"@,
        ProposalRejection::VariationOutOfRange { node_id, parameter_id } => "parameter '"@ + parameter_id@
            + "' is out of range on node '"@ + node_id@ + "'"@,
    }
}

/// `lo` and `hi` are what `render` writes for the bounds of an out-of-range
/// rejection (and anything for another rejection).
pub open spec fn proposal_renders_bounds<R: Fn(u64) -> String>(
    e: ProposalRejection,
    render: R,
    lo: String,
    hi: String,
) -> bool {
    match e {
        ProposalRejection::ParameterOutOfRange { min, max, .. } => render.ensures((min,), lo)
            && render.ensures((max,), hi),
        ProposalRejection::InvalidRoute { error } => renders_bounds(error, render, lo, hi),
        _ => true,
    }
}

impl ProposalRejection {
    /// The text shown for this rejection; `render` writes a bound.
    pub fn message<R: Fn(u64) -> String>(&self, render: &R) -> (r: String)
        requires
            forall|v: u64| render.requires((v,)),
        ensures
            exists|lo: String, hi: String|
                proposal_renders_bounds(*self, *render, lo, hi) && r@ == proposal_text(*self, lo@, hi@),
    {
        let r = match self {
            ProposalRejection::DuplicateNode { node_id } => joined3("node '", node_id.as_str(), "' already exists"),
            ProposalRejection::InvalidParameterRange { node_id, parameter_id } => joined5(
                "parameter '",
                parameter_id.as_str(),
                "' on node '",
                node_id.as_str(),
                "' has an invalid range",
            ),
            ProposalRejection::ParameterOutOfRange { node_id, parameter_id, min, max } => {
                let lo = render(*min);
                let hi = render(*max);
                let mut s = joined5(
                    "parameter '",
                    parameter_id.as_str(),
                    "' on node '",
                    node_id.as_str(),
                    "' must be between ",
                );
                s.append(lo.as_str());
                s.append(" and ");
                s.append(hi.as_str());
                assert(proposal_renders_bounds(*self, *render, lo, hi));
                assert(s@ == proposal_text(*self, lo@, hi@));
                return s;
            },
            ProposalRejection::MissingNode { node_id } => joined3("node '", node_id.as_str(), "' was not found"),
            ProposalRejection::MissingParameter { node_id, parameter_id } => joined5(
                "parameter '",
                parameter_id.as_str(),
                "' was not found on node '",
                node_id.as_str(),
                "'",
            ),
            ProposalRejection::InvalidRoute { error } => {
                let s = error.message(render);
                proof {
                    let (lo, hi) = choose|lo: String, hi: String|
                        renders_bounds(*error, *render, lo, hi) && s@ == graph_edit_error_text(*error, lo@, hi@);
                    assert(proposal_renders_bounds(*self, *render, lo, hi));
                }
                return s;
            },
            ProposalRejection::MissingRoute { route_id } => joined3("route '", route_id.as_str(), "' was not found"),
            ProposalRejection::MissingAudioPrimitive { node_id } => joined3(
                "node '",
                node_id.as_str(),
                "' does not support bus assignment",
            ),
            ProposalRejection::MissingBus { bus_id } => joined3("bus '", bus_id.as_str(), "' was not found"),
            ProposalRejection::MissingScene { scene_id } => joined3("scene '", scene_id.as_str(), "' was not found"),
            ProposalRejection::MissingVariation { variation_id } => joined3(
                "variation '",
                variation_id.as_str(),
                "' was not found",
            ),
            ProposalRejection::VariationOutOfRange { node_id, parameter_id } => joined5(
                "parameter '",
                parameter_id.as_str(),
                "' is out of range on node '",
                node_id.as_str(),
                "'",
            ),
        };
        assert(proposal_renders_bounds(*self, *render, r, r));
        assert(r@ == proposal_text(*self, r@, r@));
        r
    }
}

/// `v` lies outside the parameter's bounds.
pub open spec fn outside(p: ParameterValue, v: u64) -> bool {
    spec_lt(v, p.min_value) || spec_lt(p.max_value, v)
}

/// The first parameter of a new node whose bounds are not in order (the
/// minimum above the maximum, or either one NaN) or exclude its value, with
/// which of the two it is.
pub open spec fn add_node_check(params: Seq<ParameterValue>, node_id: String) -> Option<ProposalRejection>
    decreases params.len(),
{
    if params.len() == 0 {
        None
    } else {
        match add_node_check(params.drop_last(), node_id) {
            Some(e) => Some(e),
            None => {
                let p = params.last();
                if !spec_le(p.min_value, p.max_value) {
                    Some(ProposalRejection::InvalidParameterRange { node_id, parameter_id: p.id })
                } else if outside(p, p.value) {
                    Some(
                        ProposalRejection::ParameterOutOfRange {
                            node_id,
                            parameter_id: p.id,
                            min: p.min_value,
                            max: p.max_value,
                        },
                    )
                } else {
                    None
                }
            },
        }
    }
}

/// The first node (its id) and the first parameter on it whose id is `pid`,
/// searching the nodes in order.
pub open spec fn first_param_hit(nodes: Seq<Node>, pid: Seq<char>) -> Option<(String, ParameterValue)>
    decreases nodes.len(),
{
    if nodes.len() == 0 {
        None
    } else if has_id(nodes[0].parameters@, pid) {
        Some((nodes[0].id, find_id(nodes[0].parameters@, pid)))
    } else {
        first_param_hit(nodes.drop_first(), pid)
    }
}

/// The first override of a variation whose value falls outside the bounds
/// of the first parameter with its id.
pub open spec fn variation_check(nodes: Seq<Node>, overrides: Seq<ParameterOverride>) -> Option<
    ProposalRejection,
>
    decreases overrides.len(),
{
    if overrides.len() == 0 {
        None
    } else {
        match variation_check(nodes, overrides.drop_last()) {
            Some(e) => Some(e),
            None => {
                let o = overrides.last();
                match first_param_hit(nodes, o.parameter_id@) {
                    Some((node_id, p)) => if outside(p, o.value) {
                        Some(ProposalRejection::VariationOutOfRange { node_id, parameter_id: p.id })
                    } else {
                        None
                    },
                    None => None,
                }
            },
        }
    }
}

/// Whether a proposed command fits the session, and if not, why.
pub open spec fn proposal_check(s: SessionDocument, command: TypedCommand) -> Option<ProposalRejection> {
    match command {
        TypedCommand::GraphEdit(g) => match g {
            GraphEditCommand::AddNode { node } => if has_id(s.nodes@, node.id@) {
                Some(ProposalRejection::DuplicateNode { node_id: node.id })
            } else {
                add_node_check(node.parameters@, node.id)
            },
            GraphEditCommand::RemoveNode { node_id } => if has_id(s.nodes@, node_id@) {
                None
            } else {
                Some(ProposalRejection::MissingNode { node_id })
            },
            GraphEditCommand::SetNodeEnabled { node_id, .. } => if has_id(s.nodes@, node_id@) {
                None
            } else {
                Some(ProposalRejection::MissingNode { node_id })
            },
            GraphEditCommand::SetParameterValue { node_id, parameter_id, value } => if !has_id(
                s.nodes@,
                node_id@,
            ) {
                Some(ProposalRejection::MissingNode { node_id })
            } else {
                let n = find_id(s.nodes@, node_id@);
                if !has_id(n.parameters@, parameter_id@) {
                    Some(ProposalRejection::MissingParameter { node_id, parameter_id })
                } else {
                    let p = find_id(n.parameters@, parameter_id@);
                    if outside(p, value) {
                        Some(
                            ProposalRejection::ParameterOutOfRange {
                                node_id,
                                parameter_id,
                                min: p.min_value,
                                max: p.max_value,
                            },
                        )
                    } else {
                        None
                    }
                }
            },
            GraphEditCommand::AddRoute { route } => match route_check(s, route) {
                Err(e) => Some(ProposalRejection::InvalidRoute { error: e }),
                Ok(_) => match route.bus_id {
                    Some(b) => if has_id(s.buses@, b@) {
                        None
                    } else {
                        Some(ProposalRejection::MissingBus { bus_id: b })
                    },
                    None => None,
                },
            },
            GraphEditCommand::RemoveRoute { route_id } => if has_id(s.routes@, route_id@) {
                None
            } else {
                Some(ProposalRejection::MissingRoute { route_id })
            },
            GraphEditCommand::AssignNodeToBus { node_id, bus_id } => if !has_id(s.nodes@, node_id@) {
                Some(ProposalRejection::MissingNode { node_id })
            } else if find_id(s.nodes@, node_id@).audio_primitive is None {
                Some(ProposalRejection::MissingAudioPrimitive { node_id })
            } else if !has_id(s.buses@, bus_id@) {
                Some(ProposalRejection::MissingBus { bus_id })
            } else {
                None
            },
            GraphEditCommand::ClearNodeBusAssignment { node_id } => if !has_id(s.nodes@, node_id@) {
                Some(ProposalRejection::MissingNode { node_id })
            } else if find_id(s.nodes@, node_id@).audio_primitive is None {
                Some(ProposalRejection::MissingAudioPrimitive { node_id })
            } else {
                None
            },
        },
        TypedCommand::Performance(p) => match p {
            PerformanceCommand::RecallScene { scene_id } => if has_id(s.scenes@, scene_id@) {
                None
            } else {
                Some(ProposalRejection::MissingScene { scene_id })
            },
            PerformanceCommand::SaveVariation { scene_id, .. } => if has_id(s.scenes@, scene_id@) {
                None
            } else {
                Some(ProposalRejection::MissingScene { scene_id })
            },
            PerformanceCommand::RestoreVariation { variation_id } => if !has_id(
                s.variations@,
                variation_id@,
            ) {
                Some(ProposalRejection::MissingVariation { variation_id })
            } else {
                variation_check(s.nodes@, find_id(s.variations@, variation_id@).parameter_overrides@)
            },
        },
    }
}

fn check_new_node(node: &Node) -> (r: Option<ProposalRejection>)
    ensures
        r == add_node_check(node.parameters@, node.id),
{
    let params = &node.parameters;
    let mut j: usize = 0;
    while j < params.len()
        invariant
            j <= params@.len(),
            params@ == node.parameters@,
            add_node_check(params@.take(j as int), node.id) is None,
        decreases params.len() - j,
    {
        assert(params@.take(j as int + 1).drop_last() =~= params@.take(j as int));
        let p = &params[j];
        assert(params@.take(j as int + 1).last() == *p);
        if f64_is_nan(p.min_value) || f64_is_nan(p.max_value) || f64_lt(p.max_value, p.min_value) {
            proof {
                lemma_add_node_check_extends(params@, node.id, j as int + 1);
            }
            return Some(
                ProposalRejection::InvalidParameterRange {
                    node_id: node.id.clone(),
                    parameter_id: p.id.clone(),
                },
            );
        }
        if f64_lt(p.value, p.min_value) || f64_lt(p.max_value, p.value) {
            proof {
                lemma_add_node_check_extends(params@, node.id, j as int + 1);
            }
            return Some(
                ProposalRejection::ParameterOutOfRange {
                    node_id: node.id.clone(),
                    parameter_id: p.id.clone(),
                    min: p.min_value,
                    max: p.max_value,
                },
            );
        }
        j = j + 1;
    }
    assert(params@.take(j as int) =~= params@);
    None
}

/// A new node that passes the check has every bound in order.
proof fn lemma_add_node_check_orders(params: Seq<ParameterValue>, node_id: String)
    requires
        add_node_check(params, node_id) is None,
    ensures
        forall|j: int| 0 <= j < params.len() ==> spec_le((#[trigger] params[j]).min_value, params[j].max_value),
    decreases params.len(),
{
    if params.len() > 0 {
        lemma_add_node_check_orders(params.drop_last(), node_id);
        assert forall|j: int| 0 <= j < params.len() implies spec_le((#[trigger] params[j]).min_value, params[j].max_value) by {
            if j < params.len() - 1 {
                assert(params[j] == params.drop_last()[j]);
            }
        }
    }
}

proof fn lemma_add_node_check_extends(params: Seq<ParameterValue>, node_id: String, n: int)
    requires
        0 <= n <= params.len(),
        add_node_check(params.take(n), node_id) is Some,
    ensures
        add_node_check(params, node_id) == add_node_check(params.take(n), node_id),
    decreases params.len() - n,
{
    if n < params.len() {
        assert(params.take(n + 1).drop_last() =~= params.take(n));
        lemma_add_node_check_extends(params, node_id, n + 1);
    } else {
        assert(params.take(n) =~= params);
    }
}

fn find_param_hit(nodes: &Vec<Node>, pid: &String) -> (r: Option<(usize, usize)>)
    ensures
        match r {
            Some((i, j)) => i < nodes@.len() && j < nodes@[i as int].parameters@.len()
                && first_param_hit(nodes@, pid@) == Some(
                (nodes@[i as int].id, nodes@[i as int].parameters@[j as int]),
            ),
            None => first_param_hit(nodes@, pid@) is None,
        },
{
    let mut i: usize = 0;
    assert(nodes@.skip(0) =~= nodes@);
    while i < nodes.len()
        invariant
            i <= nodes@.len(),
            first_param_hit(nodes@, pid@) == first_param_hit(nodes@.skip(i as int), pid@),
        decreases nodes.len() - i,
    {
        assert(nodes@.skip(i as int)[0] == nodes@[i as int]);
        match find_by_id(&nodes[i].parameters, pid) {
            Some(j) => {
                return Some((i, j));
            },
            None => {},
        }
        assert(nodes@.skip(i as int).drop_first() =~= nodes@.skip(i as int + 1));
        i = i + 1;
    }
    None
}

fn check_variation(nodes: &Vec<Node>, overrides: &Vec<ParameterOverride>) -> (r: Option<
    ProposalRejection,
>)
    ensures
        r == variation_check(nodes@, overrides@),
{
    let mut k: usize = 0;
    while k < overrides.len()
        invariant
            k <= overrides@.len(),
            variation_check(nodes@, overrides@.take(k as int)) is None,
        decreases overrides.len() - k,
    {
        assert(overrides@.take(k as int + 1).drop_last() =~= overrides@.take(k as int));
        let o = &overrides[k];
        assert(overrides@.take(k as int + 1).last() == *o);
        match find_param_hit(nodes, &o.parameter_id) {
            Some((i, j)) => {
                let p = &nodes[i].parameters[j];
                if f64_lt(o.value, p.min_value) || f64_lt(p.max_value, o.value) {
                    proof {
                        lemma_variation_check_extends(nodes@, overrides@, k as int + 1);
                    }
                    return Some(
                        ProposalRejection::VariationOutOfRange {
                            node_id: nodes[i].id.clone(),
                            parameter_id: p.id.clone(),
                        },
                    );
                }
            },
            None => {},
        }
        k = k + 1;
    }
    assert(overrides@.take(k as int) =~= overrides@);
    None
}

proof fn lemma_variation_check_extends(nodes: Seq<Node>, overrides: Seq<ParameterOverride>, n: int)
    requires
        0 <= n <= overrides.len(),
        variation_check(nodes, overrides.take(n)) is Some,
    ensures
        variation_check(nodes, overrides) == variation_check(nodes, overrides.take(n)),
    decreases overrides.len() - n,
{
    if n < overrides.len() {
        assert(overrides.take(n + 1).drop_last() =~= overrides.take(n));
        lemma_variation_check_extends(nodes, overrides, n + 1);
    } else {
        assert(overrides.take(n) =~= overrides);
    }
}

fn require_node(s: &SessionDocument, node_id: &String) -> (r: Result<usize, ProposalRejection>)
    ensures
        match r {
            Ok(i) => has_id(s.nodes@, node_id@) && i < s.nodes@.len() && s.nodes@[i as int] == find_id(
                s.nodes@,
                node_id@,
            ),
            Err(e) => !has_id(s.nodes@, node_id@) && e == ProposalRejection::MissingNode {
                node_id: *node_id,
            },
        },
{
    match find_by_id(&s.nodes, node_id) {
        Some(i) => Ok(i),
        None => Err(ProposalRejection::MissingNode { node_id: node_id.clone() }),
    }
}

/// Checks a proposed command against the session; on success returns its
/// risk tier.
pub fn validate_proposed_command(session: &SessionDocument, command: &TypedCommand) -> (r: Result<
    RiskTier,
    ProposalRejection,
>)
    ensures
        match proposal_check(*session, *command) {
            Some(e) => r == Err::<RiskTier, ProposalRejection>(e),
            None => r == Ok::<RiskTier, ProposalRejection>(risk_of(*command)),
        },
{
    let checked: Option<ProposalRejection> = match command {
        TypedCommand::GraphEdit(g) => match g {
            GraphEditCommand::AddNode { node } => {
                if contains_id(&session.nodes, &node.id) {
                    Some(ProposalRejection::DuplicateNode { node_id: node.id.clone() })
                } else {
                    check_new_node(node)
                }
            },
            GraphEditCommand::RemoveNode { node_id } => match require_node(session, node_id) {
                Ok(_) => None,
                Err(e) => Some(e),
            },
            GraphEditCommand::SetNodeEnabled { node_id, .. } => match require_node(session, node_id) {
                Ok(_) => None,
                Err(e) => Some(e),
            },
            GraphEditCommand::SetParameterValue { node_id, parameter_id, value } => {
                match require_node(session, node_id) {
                    Err(e) => Some(e),
                    Ok(i) => {
                        let n = &session.nodes[i];
                        match find_by_id(&n.parameters, parameter_id) {
                            None => Some(
                                ProposalRejection::MissingParameter {
                                    node_id: node_id.clone(),
                                    parameter_id: parameter_id.clone(),
                                },
                            ),
                            Some(j) => {
                                let p = &n.parameters[j];
                                if f64_lt(*value, p.min_value) || f64_lt(p.max_value, *value) {
                                    Some(
                                        ProposalRejection::ParameterOutOfRange {
                                            node_id: node_id.clone(),
                                            parameter_id: parameter_id.clone(),
                                            min: p.min_value,
                                            max: p.max_value,
                                        },
                                    )
                                } else {
                                    None
                                }
                            },
                        }
                    },
                }
            },
            GraphEditCommand::AddRoute { route } => match validate_route(session, route) {
                Err(e) => Some(ProposalRejection::InvalidRoute { error: e }),
                Ok(()) => match &route.bus_id {
                    Some(b) => if contains_id(&session.buses, b) {
                        None
                    } else {
                        Some(ProposalRejection::MissingBus { bus_id: b.clone() })
                    },
                    None => None,
                },
            },
            GraphEditCommand::RemoveRoute { route_id } => if contains_id(&session.routes, route_id) {
                None
            } else {
                Some(ProposalRejection::MissingRoute { route_id: route_id.clone() })
            },
            GraphEditCommand::AssignNodeToBus { node_id, bus_id } => {
                match require_node(session, node_id) {
                    Err(e) => Some(e),
                    Ok(i) => if session.nodes[i].audio_primitive.is_none() {
                        Some(ProposalRejection::MissingAudioPrimitive { node_id: node_id.clone() })
                    } else if !contains_id(&session.buses, bus_id) {
                        Some(ProposalRejection::MissingBus { bus_id: bus_id.clone() })
                    } else {
                        None
                    },
                }
            },
            GraphEditCommand::ClearNodeBusAssignment { node_id } => {
                match require_node(session, node_id) {
                    Err(e) => Some(e),
                    Ok(i) => if session.nodes[i].audio_primitive.is_none() {
                        Some(ProposalRejection::MissingAudioPrimitive { node_id: node_id.clone() })
                    } else {
                        None
                    },
                }
            },
        },
        TypedCommand::Performance(p) => match p {
            PerformanceCommand::RecallScene { scene_id } => if contains_id(&session.scenes, scene_id) {
                None
            } else {
                Some(ProposalRejection::MissingScene { scene_id: scene_id.clone() })
            },
            PerformanceCommand::SaveVariation { scene_id, .. } => if contains_id(
                &session.scenes,
                scene_id,
            ) {
                None
            } else {
                Some(ProposalRejection::MissingScene { scene_id: scene_id.clone() })
            },
            PerformanceCommand::RestoreVariation { variation_id } => {
                match find_by_id(&session.variations, variation_id) {
                    None => Some(
                        ProposalRejection::MissingVariation { variation_id: variation_id.clone() },
                    ),
                    Some(vi) => check_variation(
                        &session.nodes,
                        &session.variations[vi].parameter_overrides,
                    ),
                }
            },
        },
    };
    match checked {
        Some(e) => Err(e),
        None => Ok(classify_risk(command)),
    }
}

// ---------------------------------------------------------------------------
// Applying an agent's intent
// ---------------------------------------------------------------------------

/// Why a command of an intent was not applied.
#[derive(Debug, PartialEq)]
pub enum AgentRejection {
    Proposal(ProposalRejection),
    Ownership(Vec<OwnershipGateError>),
    GraphEdit(GraphEditError),
    Performance(PerformanceCommandError),
}

/// What the agent path refused outright.
#[derive(Debug, PartialEq)]
pub enum AgentBlock {
    /// No pending action with this id is waiting.
    PendingActionUnavailable { pending_action_id: String },
    /// The pending action no longer fits the session.
    Proposal(ProposalRejection),
}

/// The text of a refusal: a missing or decided pending action, or the text
/// of the rejection of a proposal that no longer fits.
pub open spec fn agent_block_text(b: AgentBlock, lo: Seq<char>, hi: Seq<char>) -> Seq<char> {
    match b {
        AgentBlock::PendingActionUnavailable { pending_action_id } => "pending action '"@
            + pending_action_id@ + "' not found or already resolved"@,
        AgentBlock::Proposal(e) => proposal_text(e, lo, hi),
    }
}

/// `lo` and `hi` are what `render` writes for the bounds named in the
/// refusal, if any.
pub open spec fn block_renders_bounds<R: Fn(u64) -> String>(b: AgentBlock, render: R, lo: String, hi: String) -> bool {
    match b {
        AgentBlock::Proposal(e) => proposal_renders_bounds(e, render, lo, hi),
        _ => true,
    }
}

impl AgentBlock {
    /// The text shown for this refusal; `render` writes a bound.
    pub fn message<R: Fn(u64) -> String>(&self, render: &R) -> (r: String)
        requires
            forall|v: u64| render.requires((v,)),
        ensures
            exists|lo: String, hi: String|
                #![trigger block_renders_bounds(*self, *render, lo, hi)]
                block_renders_bounds(*self, *render, lo, hi) && r@ == agent_block_text(*self, lo@, hi@),
    {
        match self {
            AgentBlock::PendingActionUnavailable { pending_action_id } => {
                let r = joined3("pending action '", pending_action_id.as_str(), "' not found or already resolved");
                assert(block_renders_bounds(*self, *render, r, r) && r@ == agent_block_text(*self, r@, r@));
                r
            },
            AgentBlock::Proposal(e) => {
                let r = e.message(render);
                proof {
                    let (lo, hi) = choose|lo: String, hi: String|
                        proposal_renders_bounds(*e, *render, lo, hi) && r@ == proposal_text(*e, lo@, hi@);
                    assert(block_renders_bounds(*self, *render, lo, hi) && r@ == agent_block_text(*self, lo@, hi@));
                }
                r
            },
        }
    }
}

#[derive(Debug, PartialEq)]
pub enum AgentCommandError {
    OwnershipBlocked(AgentBlock),
    GraphEdit(GraphEditError),
    PerformanceCommand(PerformanceCommandError),
    Planner(PlannerProviderError),
    NoSession,
}

/// The outcome of an intent: the commands applied, those rejected with
/// their reason, and the high-risk ones queued for approval, each in the
/// intent's order.
pub struct AgentCommandResult {
    pub applied: Vec<TypedCommand>,
    pub rejected: Vec<(TypedCommand, AgentRejection)>,
    pub pending: Vec<PendingAction>,
    pub intent: AgentIntent,
    pub planner_provider_id: Option<String>,
}

/// A graph edit keeps every bound well ordered when the node it adds, if
/// any, has well-ordered bounds.
proof fn lemma_graph_edit_keeps_bounds(s: SessionDocument, t: SessionDocument, g: GraphEditCommand)
    requires
        bounds_ordered(s.nodes@),
        graph_edit_error(s, g) is None,
        graph_edit_post(s, t, g),
        g matches GraphEditCommand::AddNode { node } ==> node_bounds_ordered(node),
    ensures
        bounds_ordered(t.nodes@),
{
    match g {
        GraphEditCommand::AddNode { node } => {
            lemma_sorted_elements(s.nodes@.push(node));
            assert forall|i: int| 0 <= i < t.nodes@.len() implies node_bounds_ordered(
                #[trigger] t.nodes@[i],
            ) by {
                assert(t.nodes@.contains(t.nodes@[i]));
                assert(s.nodes@.push(node).contains(t.nodes@[i]));
                let k = choose|k: int| 0 <= k < s.nodes@.push(node).len() && s.nodes@.push(node)[k] == t.nodes@[i];
                if k < s.nodes@.len() {
                    assert(node_bounds_ordered(s.nodes@[k]));
                }
            }
        },
        GraphEditCommand::RemoveNode { node_id } => {
            assert forall|i: int| 0 <= i < t.nodes@.len() implies node_bounds_ordered(
                #[trigger] t.nodes@[i],
            ) by {
                assert(t.nodes@.contains(t.nodes@[i]));
                s.nodes@.lemma_filter_contains_rev(id_differs::<Node>(node_id@), t.nodes@[i]);
                let k = choose|k: int| 0 <= k < s.nodes@.len() && s.nodes@[k] == t.nodes@[i];
                assert(node_bounds_ordered(s.nodes@[k]));
            }
        },
        GraphEditCommand::SetParameterValue { node_id, parameter_id, value } => {
            lemma_first_id_exists(s.nodes@, node_id@);
            let i = first_id(s.nodes@, node_id@);
            lemma_first_id_exists(s.nodes@[i].parameters@, parameter_id@);
            let n = s.nodes@[i];
            let m = t.nodes@[i];
            assert(node_bounds_ordered(n));
            assert forall|j: int| 0 <= j < m.parameters@.len() implies spec_le_bounds(
                #[trigger] m.parameters@[j],
            ) by {
                let jj = first_id(n.parameters@, parameter_id@);
                if j == jj {
                    assert(m.parameters@[j] == ParameterValue { value, ..n.parameters@[j] });
                } else {
                    assert(m.parameters@[j] == n.parameters@[j]);
                }
            }
            assert forall|k: int| 0 <= k < t.nodes@.len() implies node_bounds_ordered(
                #[trigger] t.nodes@[k],
            ) by {
                if k != i {
                    assert(t.nodes@[k] == s.nodes@[k]);
                } else {
                    assert forall|j: int| 0 <= j < m.parameters@.len() implies crate::float_bits::spec_le(
                        (#[trigger] m.parameters@[j]).min_value,
                        m.parameters@[j].max_value,
                    ) by {
                        assert(spec_le_bounds(m.parameters@[j]));
                    }
                }
            }
        },
        GraphEditCommand::SetNodeEnabled { node_id, .. } => {
            lemma_first_id_exists(s.nodes@, node_id@);
            assert forall|k: int| 0 <= k < t.nodes@.len() implies node_bounds_ordered(
                #[trigger] t.nodes@[k],
            ) by {
                assert(node_bounds_ordered(s.nodes@[k]));
            }
        },
        GraphEditCommand::AssignNodeToBus { node_id, .. } => {
            lemma_first_id_exists(s.nodes@, node_id@);
            assert forall|k: int| 0 <= k < t.nodes@.len() implies node_bounds_ordered(
                #[trigger] t.nodes@[k],
            ) by {
                assert(node_bounds_ordered(s.nodes@[k]));
            }
        },
        GraphEditCommand::ClearNodeBusAssignment { node_id } => {
            lemma_first_id_exists(s.nodes@, node_id@);
            assert forall|k: int| 0 <= k < t.nodes@.len() implies node_bounds_ordered(
                #[trigger] t.nodes@[k],
            ) by {
                assert(node_bounds_ordered(s.nodes@[k]));
            }
        },
        _ => {},
    }
}

/// The parameter's bounds are well ordered.
pub open spec fn spec_le_bounds(p: ParameterValue) -> bool {
    crate::float_bits::spec_le(p.min_value, p.max_value)
}

/// A performance command keeps every bound well ordered.
proof fn lemma_performance_keeps_bounds<S: Fn(u64, u64, u64) -> u64>(
    s: SessionDocument,
    t: SessionDocument,
    p: PerformanceCommand,
    scale: S,
    r: Result<(), PerformanceCommandError>,
)
    requires
        bounds_ordered(s.nodes@),
        performance_outcome(s, t, p, scale, r),
    ensures
        bounds_ordered(t.nodes@),
{
    if r is Ok {
        match p {
            PerformanceCommand::RecallScene { scene_id } => {
                let scene = find_id(s.scenes@, scene_id@);
                let (mid, sc) = choose|mid: Seq<Node>, sc: Seq<u64>|
                    {
                        &&& crate::performance::scaled_by(scale, scene.macro_overrides@, s.macros@, sc)
                        &&& same_but_values(s.nodes@, mid)
                        &&& crate::params::values_of(mid) == crate::performance::scene_writes(
                            s.nodes@,
                            crate::params::values_of(s.nodes@),
                            scene.macro_overrides@,
                            s.macros@,
                            sc,
                        )
                        &&& enabled_by(mid, t.nodes@, scene.active_node_ids@)
                    };
                lemma_values_keep_bounds(s.nodes@, mid);
                assert forall|i: int| 0 <= i < t.nodes@.len() implies node_bounds_ordered(
                    #[trigger] t.nodes@[i],
                ) by {
                    assert(node_bounds_ordered(mid[i]));
                }
            },
            PerformanceCommand::RestoreVariation { .. } => {
                lemma_values_keep_bounds(s.nodes@, t.nodes@);
            },
            PerformanceCommand::SaveVariation { .. } => {},
        }
    }
}

/// With well-ordered bounds every performance command is defined.
proof fn lemma_ordered_performance_defined(s: SessionDocument, p: PerformanceCommand)
    requires
        bounds_ordered(s.nodes@),
    ensures
        performance_defined(s, p),
{
    match p {
        PerformanceCommand::RecallScene { scene_id } => {
            if has_id(s.scenes@, scene_id@) {
                let ovs = find_id(s.scenes@, scene_id@).macro_overrides@;
                assert forall|k: int|
                    0 <= k < ovs.len() && has_id(s.macros@, (#[trigger] ovs[k]).macro_id@)
                        implies crate::params::macro_writable(
                    s.nodes@,
                    find_id(s.macros@, ovs[k].macro_id@),
                ) by {
                    lemma_ordered_writable(s.nodes@, find_id(s.macros@, ovs[k].macro_id@));
                }
            }
        },
        _ => {},
    }
}

/// `pa` is the pending action that queues `command` for `actor`: a fresh
/// id, the actor's correlation id, a copy of the command, high risk, the
/// fixed timestamp, waiting.
pub open spec fn is_queued_action(pa: PendingAction, actor: ActorRef, command: TypedCommand) -> bool {
    &&& is_uuid_v4_text(pa.id@)
    &&& pa.correlation_id == actor.correlation_id
    &&& pa.command.same(&command)
    &&& pa.risk_tier == RiskTier::High
    &&& pa.created_at@ == action_timestamp()
    &&& pa.status == PendingActionStatus::Pending
}

/// `t` is `s` with one log entry for `actor` running `command`.
pub open spec fn logged<R: Fn(u64) -> String>(
    s: SessionDocument,
    t: SessionDocument,
    actor: ActorRef,
    command: TypedCommand,
    render: R,
    description: Option<String>,
) -> bool {
    &&& t == (SessionDocument { action_history: t.action_history, ..s })
    &&& appended_and_capped(s.action_history@, t.action_history@)
    &&& is_log_entry(t.action_history@.last(), actor, command, render, description)
}

/// The effect of applying a typed command on behalf of `actor`: the
/// command's own change followed by one log entry, or its error with the
/// session untouched.
pub open spec fn typed_outcome<R: Fn(u64) -> String, S: Fn(u64, u64, u64) -> u64>(
    s: SessionDocument,
    t: SessionDocument,
    actor: ActorRef,
    command: TypedCommand,
    render: R,
    scale: S,
    r: Result<(), AgentRejection>,
) -> bool {
    match command {
        TypedCommand::GraphEdit(g) => match graph_edit_error(s, g) {
            Some(e) => r == Err::<(), AgentRejection>(AgentRejection::GraphEdit(e)) && t == s,
            None => r is Ok && exists|mid: SessionDocument|
                graph_edit_post(s, mid, g) && logged(mid, t, actor, command, render, None),
        },
        TypedCommand::Performance(p) => exists|mid: SessionDocument, pr: Result<(), PerformanceCommandError>|
            {
                &&& performance_outcome(s, mid, p, scale, pr)
                &&& match pr {
                    Err(e) => r == Err::<(), AgentRejection>(AgentRejection::Performance(e)) && t == s,
                    Ok(_) => r is Ok && logged(mid, t, actor, command, render, None),
                }
            },
    }
}

/// What the agent path does with one command of an intent on session `s`:
/// rejects it when it does not fit the session or the ownership gate
/// refuses it; queues it when it is high risk and the actor is not the
/// user; otherwise applies it (and logs it) or rejects it with the error
/// the edit ended with.
pub open spec fn agent_step<R: Fn(u64) -> String, S: Fn(u64, u64, u64) -> u64>(
    s: SessionDocument,
    t: SessionDocument,
    actor: ActorRef,
    command: TypedCommand,
    render: R,
    scale: S,
    applied: Option<TypedCommand>,
    rejected: Option<(TypedCommand, AgentRejection)>,
    queued: Option<PendingAction>,
) -> bool {
    match proposal_check(s, command) {
        Some(e) => {
            &&& t == s
            &&& applied is None
            &&& queued is None
            &&& rejected_as(rejected, command, AgentRejection::Proposal(e))
        },
        None => {
            let refusals = ownership_refusals(s, actor, command);
            if refusals.len() > 0 {
                &&& t == s
                &&& applied is None
                &&& queued is None
                &&& match rejected {
                    Some((c, AgentRejection::Ownership(es))) => {
                        &&& c.same(&command)
                        &&& es@.map_values(|e: OwnershipGateError| gate_view(e)) == refusals
                    },
                    _ => false,
                }
            } else if risk_of(command) == RiskTier::High && !is_user_actor(actor) {
                &&& applied is None
                &&& rejected is None
                &&& match queued {
                    Some(pa) => {
                        &&& is_queued_action(pa, actor, command)
                        &&& t == (SessionDocument { pending_actions: t.pending_actions, ..s })
                        &&& t.pending_actions@.len() == s.pending_actions@.len() + 1
                        &&& t.pending_actions@.drop_last() == s.pending_actions@
                        &&& t.pending_actions@.last().same(&pa)
                    },
                    None => false,
                }
            } else {
                &&& queued is None
                &&& exists|r: Result<(), AgentRejection>|
                    {
                        &&& typed_outcome(s, t, actor, command, render, scale, r)
                        &&& match r {
                            Ok(_) => rejected is None && applied_as(applied, command),
                            Err(reason) => applied is None && rejected_as(rejected, command, reason),
                        }
                    }
            }
        },
    }
}

/// The command was applied: a copy of it is reported.
pub open spec fn applied_as(applied: Option<TypedCommand>, command: TypedCommand) -> bool {
    match applied {
        Some(c) => c.same(&command),
        None => false,
    }
}

/// The command was rejected: a copy of it is reported with `reason`.
pub open spec fn rejected_as(
    rejected: Option<(TypedCommand, AgentRejection)>,
    command: TypedCommand,
    reason: AgentRejection,
) -> bool {
    match rejected {
        Some((c, why)) => c.same(&command) && why == reason,
        None => false,
    }
}

/// The result with its success value dropped.
pub open spec fn unit_result<T, E>(r: Result<T, E>) -> Result<(), E> {
    match r {
        Ok(_) => Ok(()),
        Err(e) => Err(e),
    }
}

/// Log entries do not tell a command from a copy of it.
proof fn lemma_log_entry_copy<R: Fn(u64) -> String>(
    e: crate::domain::ActionHistoryEntry,
    actor: ActorRef,
    c1: TypedCommand,
    c2: TypedCommand,
    render: R,
)
    requires
        c1.same(&c2),
        is_log_entry(e, actor, c1, render, None),
    ensures
        is_log_entry(e, actor, c2, render, None),
{
    assert(crate::session_store::diff_affected_ids(c1) == crate::session_store::diff_affected_ids(c2));
    assert(crate::session_store::logged_value(c1) == crate::session_store::logged_value(c2));
    assert(forall|t: Seq<char>| crate::session_store::diff_text(c1, t) == crate::session_store::diff_text(c2, t));
}

/// Applies a typed command for `actor` and logs it when it succeeds; hands
/// back a copy of the command.
fn apply_typed_command<R: Fn(u64) -> String, S: Fn(u64, u64, u64) -> u64>(
    store: &mut SessionStore,
    command: TypedCommand,
    actor: &ActorRef,
    render: &R,
    scale: &S,
) -> (r: (TypedCommand, Result<SessionDocument, AgentRejection>))
    requires
        forall|v: u64| render.requires((v,)),
        forall|a: u64, b: u64, c: u64| scale.requires((a, b, c)),
        bounds_ordered(old(store).session().nodes@),
        command matches TypedCommand::GraphEdit(GraphEditCommand::AddNode { node })
            ==> node_bounds_ordered(node),
    ensures
        r.0.same(&command),
        typed_outcome(
            old(store).session(),
            final(store).session(),
            *actor,
            command,
            *render,
            *scale,
            unit_result(r.1),
        ),
        r.1 matches Ok(doc) ==> doc.same(
            &(SessionDocument {
                action_history: old(store).session().action_history,
                ..final(store).session()
            }),
        ),
        bounds_ordered(final(store).session().nodes@),
        final(store).settings() == old(store).settings(),
        final(store).status() == old(store).status(),
        final(store).learn() == old(store).learn(),
{
    let ghost s0 = store.session();
    let ghost original = command;
    let copy = command.clone();
    match command {
        TypedCommand::GraphEdit(g) => {
            let ghost gg = g;
            let r = apply_graph_edit(store, g);
            let ghost mid = store.session();
            match r {
                Ok(doc) => {
                    proof {
                        lemma_graph_edit_keeps_bounds(s0, mid, gg);
                    }
                    store.log_action(actor, &copy, render, None);
                    proof {
                        lemma_log_entry_copy(
                            store.session().action_history@.last(),
                            *actor,
                            copy,
                            original,
                            *render,
                        );
                    }
                    assert(graph_edit_post(s0, mid, gg) && logged(
                        mid,
                        store.session(),
                        *actor,
                        original,
                        *render,
                        None,
                    ));
                    (copy, Ok(doc))
                },
                Err(e) => (copy, Err(AgentRejection::GraphEdit(e))),
            }
        },
        TypedCommand::Performance(p) => {
            let ghost pp = p;
            proof {
                lemma_ordered_performance_defined(s0, pp);
            }
            let r = apply_performance_command(store, p, scale);
            let ghost mid = store.session();
            let ghost pr: Result<(), PerformanceCommandError> = unit_result(r);
            proof {
                lemma_performance_keeps_bounds(s0, mid, pp, *scale, pr);
            }
            match r {
                Ok(doc) => {
                    store.log_action(actor, &copy, render, None);
                    proof {
                        lemma_log_entry_copy(
                            store.session().action_history@.last(),
                            *actor,
                            copy,
                            original,
                            *render,
                        );
                    }
                    assert(performance_outcome(s0, mid, pp, *scale, pr) && logged(
                        mid,
                        store.session(),
                        *actor,
                        original,
                        *render,
                        None,
                    ));
                    (copy, Ok(doc))
                },
                Err(e) => {
                    assert(performance_outcome(s0, mid, pp, *scale, pr));
                    (copy, Err(AgentRejection::Performance(e)))
                },
            }
        },
    }
}

/// Runs one command of an intent for `actor`.
fn apply_agent_step<R: Fn(u64) -> String, S: Fn(u64, u64, u64) -> u64>(
    store: &mut SessionStore,
    actor: &ActorRef,
    command: TypedCommand,
    render: &R,
    scale: &S,
) -> (r: (Option<TypedCommand>, Option<(TypedCommand, AgentRejection)>, Option<PendingAction>))
    requires
        forall|v: u64| render.requires((v,)),
        forall|a: u64, b: u64, c: u64| scale.requires((a, b, c)),
        bounds_ordered(old(store).session().nodes@),
        old(store).session().pending_actions@.len() < usize::MAX,
    ensures
        agent_step(
            old(store).session(),
            final(store).session(),
            *actor,
            command,
            *render,
            *scale,
            r.0,
            r.1,
            r.2,
        ),
        bounds_ordered(final(store).session().nodes@),
        final(store).settings() == old(store).settings(),
        final(store).status() == old(store).status(),
        final(store).learn() == old(store).learn(),
{
    match validate_proposed_command(store.current_ref(), &command) {
        Err(e) => {
            return (None, Some((command, AgentRejection::Proposal(e))), None);
        },
        Ok(_) => {},
    }
    proof {
        let gc = command;
        if let TypedCommand::GraphEdit(GraphEditCommand::AddNode { node }) = gc {
            lemma_add_node_check_orders(node.parameters@, node.id);
        }
    }
    match store.check_ownership(actor, &command) {
        Err(errors) => {
            return (None, Some((command, AgentRejection::Ownership(errors))), None);
        },
        Ok(()) => {},
    }
    let risk = classify_risk(&command);
    if risk == RiskTier::High && !actor_is_user(actor) {
        let pa = PendingAction {
            id: new_id(),
            correlation_id: actor.correlation_id.clone(),
            command: command.clone(),
            risk_tier: RiskTier::High,
            created_at: "2026-04-12T00:00:00Z".to_owned(),
            status: PendingActionStatus::Pending,
        };
        let copy = pa.clone();
        let ghost s0 = store.session();
        let session = store.current_mut();
        session.pending_actions.push(copy);
        assert(store.session().pending_actions@.drop_last() =~= s0.pending_actions@);
        assert(is_queued_action(pa, *actor, command));
        return (None, None, Some(pa));
    }
    let (copy, result) = apply_typed_command(store, command, actor, render, scale);
    match result {
        Ok(_) => (Some(copy), None, None),
        Err(e) => (None, Some((copy, e)), None),
    }
}

/// The present values, in order.
pub open spec fn present<T>(opts: Seq<Option<T>>) -> Seq<T>
    decreases opts.len(),
{
    if opts.len() == 0 {
        seq![]
    } else {
        let rest = present(opts.drop_last());
        match opts.last() {
            Some(x) => rest.push(x),
            None => rest,
        }
    }
}

/// `res` records running `commands` one after the other from session
/// `first` to session `last`: each step is `agent_step` on a copy of the
/// command, and the applied, rejected and queued commands are reported in
/// order.
pub open spec fn agent_run<R: Fn(u64) -> String, S: Fn(u64, u64, u64) -> u64>(
    first: SessionDocument,
    last: SessionDocument,
    actor: ActorRef,
    commands: Seq<TypedCommand>,
    render: R,
    scale: S,
    applied: Seq<TypedCommand>,
    rejected: Seq<(TypedCommand, AgentRejection)>,
    queued: Seq<PendingAction>,
) -> bool {
    exists|
        states: Seq<SessionDocument>,
        copies: Seq<TypedCommand>,
        apps: Seq<Option<TypedCommand>>,
        rejs: Seq<Option<(TypedCommand, AgentRejection)>>,
        ques: Seq<Option<PendingAction>>,
    |
        {
            &&& states.len() == commands.len() + 1
            &&& copies.len() == commands.len()
            &&& apps.len() == commands.len()
            &&& rejs.len() == commands.len()
            &&& ques.len() == commands.len()
            &&& states[0] == first
            &&& states.last() == last
            &&& forall|k: int|
                0 <= k < commands.len() ==> {
                    &&& (#[trigger] copies[k]).same(&commands[k])
                    &&& agent_step(
                        states[k],
                        states[k + 1],
                        actor,
                        copies[k],
                        render,
                        scale,
                        apps[k],
                        rejs[k],
                        ques[k],
                    )
                }
            &&& applied == present(apps)
            &&& rejected == present(rejs)
            &&& queued == present(ques)
        }
}

/// Runs every command of an agent's intent through the agent path, in
/// order, and reports what became of each. `render_value` writes parameter
/// values for the log; `scale(start, end, t)` is the value a macro ranging
/// from `start` to `end` takes at `t`.
pub fn apply_agent_command<R: Fn(u64) -> String, S: Fn(u64, u64, u64) -> u64>(
    store: &mut SessionStore,
    actor: ActorRef,
    intent: AgentIntent,
    render_value: &R,
    scale: &S,
) -> (r: Result<AgentCommandResult, AgentCommandError>)
    requires
        forall|v: u64| render_value.requires((v,)),
        forall|a: u64, b: u64, c: u64| scale.requires((a, b, c)),
        bounds_ordered(old(store).session().nodes@),
        old(store).session().pending_actions@.len() + intent.parsed_commands@.len() < usize::MAX,
    ensures
        r matches Ok(res) && res.intent == intent && res.planner_provider_id is None && agent_run(
            old(store).session(),
            final(store).session(),
            actor,
            intent.parsed_commands@,
            *render_value,
            *scale,
            res.applied@,
            res.rejected@,
            res.pending@,
        ),
        bounds_ordered(final(store).session().nodes@),
        final(store).settings() == old(store).settings(),
        final(store).status() == old(store).status(),
        final(store).learn() == old(store).learn(),
{
    let mut applied: Vec<TypedCommand> = Vec::new();
    let mut rejected: Vec<(TypedCommand, AgentRejection)> = Vec::new();
    let mut pending: Vec<PendingAction> = Vec::new();
    let ghost first = store.session();
    let ghost mut states: Seq<SessionDocument> = seq![first];
    let ghost mut copies: Seq<TypedCommand> = seq![];
    let ghost mut apps: Seq<Option<TypedCommand>> = seq![];
    let ghost mut rejs: Seq<Option<(TypedCommand, AgentRejection)>> = seq![];
    let ghost mut ques: Seq<Option<PendingAction>> = seq![];
    let commands = &intent.parsed_commands;
    let mut k: usize = 0;
    while k < commands.len()
        invariant
            k <= commands@.len(),
            forall|v: u64| render_value.requires((v,)),
            forall|a: u64, b: u64, c: u64| scale.requires((a, b, c)),
            bounds_ordered(store.session().nodes@),
            store.session().pending_actions@.len() <= first.pending_actions@.len() + k,
            first.pending_actions@.len() + commands@.len() < usize::MAX,
            store.settings() == old(store).settings(),
            store.status() == old(store).status(),
            store.learn() == old(store).learn(),
            states.len() == k + 1,
            copies.len() == k,
            apps.len() == k,
            rejs.len() == k,
            ques.len() == k,
            states[0] == first,
            states.last() == store.session(),
            forall|j: int|
                0 <= j < k ==> {
                    &&& (#[trigger] copies[j]).same(&commands@[j])
                    &&& agent_step(
                        states[j],
                        states[j + 1],
                        actor,
                        copies[j],
                        *render_value,
                        *scale,
                        apps[j],
                        rejs[j],
                        ques[j],
                    )
                },
            applied@ == present(apps),
            rejected@ == present(rejs),
            pending@ == present(ques),
        decreases commands.len() - k,
    {
        let command = commands[k].clone();
        let ghost before = store.session();
        let ghost c = command;
        let (a, rj, q) = apply_agent_step(store, &actor, command, render_value, scale);
        proof {
            let old_apps = apps;
            let old_rejs = rejs;
            let old_ques = ques;
            states = states.push(store.session());
            copies = copies.push(c);
            apps = apps.push(a);
            rejs = rejs.push(rj);
            ques = ques.push(q);
            assert(apps.drop_last() =~= old_apps);
            assert(rejs.drop_last() =~= old_rejs);
            assert(ques.drop_last() =~= old_ques);
        }
        match a {
            Some(x) => applied.push(x),
            None => {},
        }
        match rj {
            Some(x) => rejected.push(x),
            None => {},
        }
        match q {
            Some(x) => pending.push(x),
            None => {},
        }
        k = k + 1;
    }
    let ghost last = store.session();
    assert(agent_run(
        first,
        last,
        actor,
        intent.parsed_commands@,
        *render_value,
        *scale,
        applied@,
        rejected@,
        pending@,
    ));
    Ok(AgentCommandResult { applied, rejected, pending, intent, planner_provider_id: None })
}

/// Runs a planner's proposal through the agent path, as the intent it
/// carries, and records which provider proposed it.
pub fn apply_planner_proposal<R: Fn(u64) -> String, S: Fn(u64, u64, u64) -> u64>(
    store: &mut SessionStore,
    actor: ActorRef,
    proposal: PlannerProposal,
    render_value: &R,
    scale: &S,
) -> (r: Result<AgentCommandResult, AgentCommandError>)
    requires
        forall|v: u64| render_value.requires((v,)),
        forall|a: u64, b: u64, c: u64| scale.requires((a, b, c)),
        bounds_ordered(old(store).session().nodes@),
        old(store).session().pending_actions@.len() + proposal.commands@.len() < usize::MAX,
    ensures
        r matches Ok(res) && res.planner_provider_id == Some(proposal.provider_id) && res.intent
            == (AgentIntent {
            raw_input: proposal.raw_input,
            parsed_commands: proposal.commands,
            confidence: proposal.confidence,
        }) && agent_run(
            old(store).session(),
            final(store).session(),
            actor,
            proposal.commands@,
            *render_value,
            *scale,
            res.applied@,
            res.rejected@,
            res.pending@,
        ),
        bounds_ordered(final(store).session().nodes@),
        final(store).settings() == old(store).settings(),
        final(store).status() == old(store).status(),
        final(store).learn() == old(store).learn(),
{
    let provider_id = proposal.provider_id.clone();
    let mut result = match apply_agent_command(store, actor, proposal.into_intent(), render_value, scale) {
        Ok(x) => x,
        Err(e) => {
            return Err(e);
        },
    };
    result.planner_provider_id = Some(provider_id);
    Ok(result)
}

/// Applies what a planner made of a request: its failure becomes the
/// agent's error with the session untouched; its proposal is run through
/// the agent path (see `apply_planner_proposal`).
pub fn plan_and_apply_agent_request<R: Fn(u64) -> String, S: Fn(u64, u64, u64) -> u64>(
    store: &mut SessionStore,
    actor: ActorRef,
    planned: Result<PlannerProposal, PlannerProviderError>,
    render_value: &R,
    scale: &S,
) -> (r: Result<AgentCommandResult, AgentCommandError>)
    requires
        forall|v: u64| render_value.requires((v,)),
        forall|a: u64, b: u64, c: u64| scale.requires((a, b, c)),
        bounds_ordered(old(store).session().nodes@),
        planned matches Ok(p) ==> old(store).session().pending_actions@.len() + p.commands@.len()
            < usize::MAX,
    ensures
        match planned {
            Err(e) => r == Err::<AgentCommandResult, AgentCommandError>(
                AgentCommandError::Planner(e),
            ) && *final(store) == *old(store),
            Ok(proposal) => r matches Ok(res) && res.planner_provider_id == Some(
                proposal.provider_id,
            ) && res.intent == (AgentIntent {
                raw_input: proposal.raw_input,
                parsed_commands: proposal.commands,
                confidence: proposal.confidence,
            }) && agent_run(
                old(store).session(),
                final(store).session(),
                actor,
                proposal.commands@,
                *render_value,
                *scale,
                res.applied@,
                res.rejected@,
                res.pending@,
            ),
        },
        bounds_ordered(final(store).session().nodes@),
        final(store).settings() == old(store).settings(),
        final(store).status() == old(store).status(),
        final(store).learn() == old(store).learn(),
{
    match planned {
        Err(e) => Err(AgentCommandError::Planner(e)),
        Ok(proposal) => apply_planner_proposal(store, actor, proposal, render_value, scale),
    }
}

// ---------------------------------------------------------------------------
// Freeze, ownership reclaim, pending actions
// ---------------------------------------------------------------------------

/// Flips the agent freeze flag of the current session.
pub fn toggle_agent_freeze(store: &mut SessionStore) -> (r: Result<SessionDocument, String>)
    ensures
        final(store).session() == (SessionDocument {
            agent_frozen: !old(store).session().agent_frozen,
            ..old(store).session()
        }),
        r matches Ok(doc) && doc.same(&final(store).session()),
        final(store).settings() == old(store).settings(),
        final(store).status() == old(store).status(),
        final(store).learn() == old(store).learn(),
{
    let session = store.current_mut();
    session.agent_frozen = !session.agent_frozen;
    Ok(store.current())
}

/// Freezing twice leaves the session as it was.
pub proof fn lemma_freeze_twice(s: SessionDocument)
    ensures
        (SessionDocument {
            agent_frozen: !(SessionDocument { agent_frozen: !s.agent_frozen, ..s }).agent_frozen,
            ..(SessionDocument { agent_frozen: !s.agent_frozen, ..s })
        }) == s,
{
}

/// The controller a node has after a reclaim: the listed nodes (or, with
/// no list, the agent-owned ones) pass to `target`.
pub open spec fn reclaimed_controller(
    n: Node,
    ids: Option<Seq<String>>,
    target: ControllerKind,
) -> ControllerKind {
    match ids {
        Some(list) => if contains_text(list, n.id@) {
            target
        } else {
            n.ownership.controller
        },
        None => if n.ownership.controller == ControllerKind::Agent {
            target
        } else {
            n.ownership.controller
        },
    }
}

/// The contents of an optional list.
pub open spec fn opt_view(o: Option<Vec<String>>) -> Option<Seq<String>> {
    match o {
        Some(v) => Some(v@),
        None => None,
    }
}

/// `b` is `a` with each node's controller reclaimed.
pub open spec fn reclaimed(a: Seq<Node>, b: Seq<Node>, ids: Option<Seq<String>>, target: ControllerKind) -> bool {
    &&& a.len() == b.len()
    &&& forall|i: int|
        0 <= i < a.len() ==> #[trigger] b[i] == (Node {
            ownership: OwnershipAssignment {
                controller: reclaimed_controller(a[i], ids, target),
                ..a[i].ownership
            },
            ..a[i]
        })
}

/// Hands nodes back to a controller: the listed nodes, or with no list
/// every agent-owned node, pass to `target_controller` (the user when not
/// given).
pub fn reclaim_ownership(
    store: &mut SessionStore,
    node_ids: Option<Vec<String>>,
    target_controller: Option<ControllerKind>,
) -> (r: Result<SessionDocument, String>)
    ensures
        final(store).session() == (SessionDocument {
            nodes: final(store).session().nodes,
            ..old(store).session()
        }),
        reclaimed(
            old(store).session().nodes@,
            final(store).session().nodes@,
            opt_view(node_ids),
            match target_controller {
                Some(c) => c,
                None => ControllerKind::User,
            },
        ),
        r matches Ok(doc) && doc.same(&final(store).session()),
        final(store).settings() == old(store).settings(),
        final(store).status() == old(store).status(),
        final(store).learn() == old(store).learn(),
{
    let target = match target_controller {
        Some(c) => c,
        None => ControllerKind::User,
    };
    let ghost ids = opt_view(node_ids);
    let session = store.current_mut();
    let ghost orig = session.nodes@;
    let ghost s0 = *session;
    let mut i: usize = 0;
    while i < session.nodes.len()
        invariant
            i <= session.nodes@.len(),
            *session == (SessionDocument { nodes: session.nodes, ..s0 }),
            session.nodes@.len() == orig.len(),
            ids == opt_view(node_ids),
            forall|j: int|
                0 <= j < i ==> #[trigger] session.nodes@[j] == (Node {
                    ownership: OwnershipAssignment {
                        controller: reclaimed_controller(orig[j], ids, target),
                        ..orig[j].ownership
                    },
                    ..orig[j]
                }),
            forall|j: int| i <= j < session.nodes@.len() ==> #[trigger] session.nodes@[j] == orig[j],
        decreases session.nodes.len() - i,
    {
        let change = match &node_ids {
            Some(list) => crate::lookup::contains_string(list, &session.nodes[i].id),
            None => session.nodes[i].ownership.controller == ControllerKind::Agent,
        };
        if change {
            session.nodes[i].ownership.controller = target;
        }
        i = i + 1;
    }
    Ok(store.current())
}

/// With no list and the user as target, no node is left agent-owned.
pub proof fn lemma_reclaim_clears_agent(a: Seq<Node>, b: Seq<Node>)
    requires
        reclaimed(a, b, None, ControllerKind::User),
    ensures
        forall|i: int| 0 <= i < b.len() ==> (#[trigger] b[i]).ownership.controller != ControllerKind::Agent,
{
    assert forall|i: int| 0 <= i < b.len() implies (#[trigger] b[i]).ownership.controller
        != ControllerKind::Agent by {
        assert(b[i] == Node {
            ownership: OwnershipAssignment {
                controller: reclaimed_controller(a[i], None, ControllerKind::User),
                ..a[i].ownership
            },
            ..a[i]
        });
    }
}

/// The action waits for a decision and has id `id`.
pub open spec fn is_waiting(pa: PendingAction, id: Seq<char>) -> bool {
    pa.id@ == id && pa.status == PendingActionStatus::Pending
}

/// `i` is the first waiting action with id `id`.
pub open spec fn is_first_waiting(pas: Seq<PendingAction>, id: Seq<char>, i: int) -> bool {
    &&& 0 <= i < pas.len()
    &&& is_waiting(pas[i], id)
    &&& forall|k: int| 0 <= k < i ==> !is_waiting(#[trigger] pas[k], id)
}

/// Some action with id `id` waits.
pub open spec fn has_waiting(pas: Seq<PendingAction>, id: Seq<char>) -> bool {
    exists|i: int| 0 <= i < pas.len() && is_waiting(#[trigger] pas[i], id)
}

fn find_waiting(pas: &Vec<PendingAction>, id: &String) -> (r: Option<usize>)
    ensures
        match r {
            Some(i) => is_first_waiting(pas@, id@, i as int),
            None => !has_waiting(pas@, id@),
        },
{
    let mut i: usize = 0;
    while i < pas.len()
        invariant
            i <= pas@.len(),
            forall|k: int| 0 <= k < i ==> !is_waiting(#[trigger] pas@[k], id@),
        decreases pas.len() - i,
    {
        if pas[i].id.eq(id) && pas[i].status == PendingActionStatus::Pending {
            return Some(i);
        }
        i = i + 1;
    }
    None
}

/// The text logged when a pending action is decided.
pub open spec fn decision_text(verb: Seq<char>, id: Seq<char>) -> Seq<char> {
    verb + " pending action "@ + id
}

fn decision_description(approved: bool, id: &String) -> (r: String)
    ensures
        r@ == decision_text(if approved { "Approved"@ } else { "Rejected"@ }, id@),
{
    let mut s = if approved {
        "Approved".to_owned()
    } else {
        "Rejected".to_owned()
    };
    s.append(" pending action ");
    s.append(id.as_str());
    s
}

/// The user, acting under the given correlation id.
pub open spec fn user_actor(a: ActorRef, correlation_id: String) -> bool {
    is_user_actor(a) && a.correlation_id == correlation_id
}

fn user_with(correlation_id: &String) -> (r: ActorRef)
    ensures
        user_actor(r, *correlation_id),
{
    ActorRef { actor_id: "user".to_owned(), correlation_id: correlation_id.clone() }
}

/// What rejecting the waiting action with id `id` does from `s`: the
/// first such action is marked rejected and the decision is logged as the
/// user who queued it.
pub open spec fn reject_post<R: Fn(u64) -> String>(
    s: SessionDocument,
    t: SessionDocument,
    id: Seq<char>,
    render: R,
    r: Result<SessionDocument, AgentCommandError>,
) -> bool {
    exists|i: int, mid: SessionDocument, actor: ActorRef|
        {
            &&& is_first_waiting(s.pending_actions@, id, i)
            &&& mid == (SessionDocument { pending_actions: mid.pending_actions, ..s })
            &&& mid.pending_actions@ == s.pending_actions@.update(
                i,
                PendingAction { status: PendingActionStatus::Rejected, ..s.pending_actions@[i] },
            )
            &&& user_actor(actor, s.pending_actions@[i].correlation_id)
            &&& exists|text: String|
                text@ == decision_text("Rejected"@, id) && logged(
                    mid,
                    t,
                    actor,
                    s.pending_actions@[i].command,
                    render,
                    Some(text),
                )
            &&& r matches Ok(doc) && doc.same(&t)
        }
}

/// Rejects the first waiting action with id `pending_action_id`: marks it
/// rejected and logs the decision as the user.
pub fn reject_pending_action<R: Fn(u64) -> String>(
    store: &mut SessionStore,
    pending_action_id: &String,
    render_value: &R,
) -> (r: Result<SessionDocument, AgentCommandError>)
    requires
        forall|v: u64| render_value.requires((v,)),
    ensures
        !has_waiting(old(store).session().pending_actions@, pending_action_id@) ==> r == Err::<
            SessionDocument,
            AgentCommandError,
        >(
            AgentCommandError::OwnershipBlocked(
                AgentBlock::PendingActionUnavailable { pending_action_id: *pending_action_id },
            ),
        ) && final(store).session() == old(store).session(),
        has_waiting(old(store).session().pending_actions@, pending_action_id@) ==> reject_post(
            old(store).session(),
            final(store).session(),
            pending_action_id@,
            *render_value,
            r,
        ),
        final(store).settings() == old(store).settings(),
        final(store).status() == old(store).status(),
        final(store).learn() == old(store).learn(),
{
    let idx = match find_waiting(&store.current_ref().pending_actions, pending_action_id) {
        Some(i) => i,
        None => {
            return Err(
                AgentCommandError::OwnershipBlocked(
                    AgentBlock::PendingActionUnavailable {
                        pending_action_id: pending_action_id.clone(),
                    },
                ),
            );
        },
    };
    let ghost s = store.session();
    let command = store.current_ref().pending_actions[idx].command.clone();
    let actor = user_with(&store.current_ref().pending_actions[idx].correlation_id);
    let session = store.current_mut();
    session.pending_actions[idx].status = PendingActionStatus::Rejected;
    let ghost mid = store.session();
    assert(mid.pending_actions@ =~= s.pending_actions@.update(
        idx as int,
        PendingAction { status: PendingActionStatus::Rejected, ..s.pending_actions@[idx as int] },
    ));
    let text = decision_description(false, pending_action_id);
    let ghost gtext = text;
    store.log_action(&actor, &command, render_value, Some(text));
    proof {
        lemma_log_entry_copy_described(
            store.session().action_history@.last(),
            actor,
            command,
            s.pending_actions@[idx as int].command,
            *render_value,
            Some(gtext),
        );
        let t = store.session();
        assert(is_first_waiting(s.pending_actions@, pending_action_id@, idx as int));
        assert(user_actor(actor, s.pending_actions@[idx as int].correlation_id));
        assert(gtext@ == decision_text("Rejected"@, pending_action_id@) && logged(
            mid,
            t,
            actor,
            s.pending_actions@[idx as int].command,
            *render_value,
            Some(gtext),
        ));
    }
    let doc = store.current();
    proof {
        let t = store.session();
        assert(mid == (SessionDocument { pending_actions: mid.pending_actions, ..s }));
        assert(doc.same(&t));
        assert(reject_post(
            s,
            t,
            pending_action_id@,
            *render_value,
            Ok::<SessionDocument, AgentCommandError>(doc),
        ));
    }
    Ok(doc)
}

/// Log entries do not tell a command from a copy of it.
proof fn lemma_log_entry_copy_described<R: Fn(u64) -> String>(
    e: crate::domain::ActionHistoryEntry,
    actor: ActorRef,
    c1: TypedCommand,
    c2: TypedCommand,
    render: R,
    description: Option<String>,
)
    requires
        c1.same(&c2),
        is_log_entry(e, actor, c1, render, description),
    ensures
        is_log_entry(e, actor, c2, render, description),
{
    assert(crate::session_store::diff_affected_ids(c1) == crate::session_store::diff_affected_ids(c2));
    assert(crate::session_store::logged_value(c1) == crate::session_store::logged_value(c2));
    assert(forall|t: Seq<char>| crate::session_store::diff_text(c1, t) == crate::session_store::diff_text(c2, t));
}

/// The error the agent path reports for a failed typed command.
pub open spec fn command_error(reason: AgentRejection) -> AgentCommandError {
    match reason {
        AgentRejection::GraphEdit(e) => AgentCommandError::GraphEdit(e),
        AgentRejection::Performance(e) => AgentCommandError::PerformanceCommand(e),
        AgentRejection::Proposal(e) => AgentCommandError::OwnershipBlocked(AgentBlock::Proposal(e)),
        AgentRejection::Ownership(_) => AgentCommandError::NoSession,
    }
}

/// What approving the waiting action `i` (with id `id`) does from `s`:
/// the first action with that id is marked approved, its command is run
/// as the user; on success every action with that id is dropped and the
/// decision is logged.
pub open spec fn approve_post<R: Fn(u64) -> String, S: Fn(u64, u64, u64) -> u64>(
    s: SessionDocument,
    t: SessionDocument,
    id: Seq<char>,
    i: int,
    render: R,
    scale: S,
    r: Result<SessionDocument, AgentCommandError>,
) -> bool {
    let pa = s.pending_actions@[i];
    let j = first_id(s.pending_actions@, id);
    exists|s1: SessionDocument, s2: SessionDocument, c: TypedCommand, actor: ActorRef, tr: Result<(), AgentRejection>|
        {
            &&& s1 == (SessionDocument { pending_actions: s1.pending_actions, ..s })
            &&& s1.pending_actions@ == s.pending_actions@.update(
                j,
                PendingAction { status: PendingActionStatus::Approved, ..s.pending_actions@[j] },
            )
            &&& user_actor(actor, pa.correlation_id)
            &&& c.same(&pa.command)
            &&& typed_outcome(s1, s2, actor, c, render, scale, tr)
            &&& match tr {
                Err(reason) => t == s2 && r == Err::<SessionDocument, AgentCommandError>(
                    command_error(reason),
                ),
                Ok(_) => {
                    &&& r matches Ok(doc) && doc.same(
                        &(SessionDocument { action_history: s1.action_history, ..s2 }),
                    )
                    &&& exists|s3: SessionDocument, text: String|
                        {
                            &&& s3 == (SessionDocument { pending_actions: s3.pending_actions, ..s2 })
                            &&& s3.pending_actions@ == s2.pending_actions@.filter(
                                id_differs::<PendingAction>(id),
                            )
                            &&& text@ == decision_text("Approved"@, id)
                            &&& logged(s3, t, actor, pa.command, render, Some(text))
                        }
                },
            }
        }
}

/// Approves the first waiting action with id `pending_action_id`: checks
/// it still fits the session, marks it approved, runs its command as the
/// user, then drops it and logs the decision.
pub fn approve_pending_action<R: Fn(u64) -> String, S: Fn(u64, u64, u64) -> u64>(
    store: &mut SessionStore,
    pending_action_id: &String,
    render_value: &R,
    scale: &S,
) -> (r: Result<SessionDocument, AgentCommandError>)
    requires
        forall|v: u64| render_value.requires((v,)),
        forall|a: u64, b: u64, c: u64| scale.requires((a, b, c)),
        bounds_ordered(old(store).session().nodes@),
    ensures
        !has_waiting(old(store).session().pending_actions@, pending_action_id@) ==> r == Err::<
            SessionDocument,
            AgentCommandError,
        >(
            AgentCommandError::OwnershipBlocked(
                AgentBlock::PendingActionUnavailable { pending_action_id: *pending_action_id },
            ),
        ) && final(store).session() == old(store).session(),
        has_waiting(old(store).session().pending_actions@, pending_action_id@) ==> {
            let s = old(store).session();
            exists|i: int|
                {
                    &&& is_first_waiting(s.pending_actions@, pending_action_id@, i)
                    &&& match proposal_check(s, s.pending_actions@[i].command) {
                        Some(e) => r == Err::<SessionDocument, AgentCommandError>(
                            AgentCommandError::OwnershipBlocked(AgentBlock::Proposal(e)),
                        ) && final(store).session() == s,
                        None => approve_post(
                            s,
                            final(store).session(),
                            pending_action_id@,
                            i,
                            *render_value,
                            *scale,
                            r,
                        ),
                    }
                }
        },
        final(store).settings() == old(store).settings(),
        final(store).status() == old(store).status(),
        final(store).learn() == old(store).learn(),
{
    let idx = match find_waiting(&store.current_ref().pending_actions, pending_action_id) {
        Some(i) => i,
        None => {
            return Err(
                AgentCommandError::OwnershipBlocked(
                    AgentBlock::PendingActionUnavailable {
                        pending_action_id: pending_action_id.clone(),
                    },
                ),
            );
        },
    };
    let ghost s = store.session();
    let ghost pa = s.pending_actions@[idx as int];
    match validate_proposed_command(store.current_ref(), &store.current_ref().pending_actions[idx].command) {
        Err(e) => {
            assert(is_first_waiting(s.pending_actions@, pending_action_id@, idx as int));
            return Err(AgentCommandError::OwnershipBlocked(AgentBlock::Proposal(e)));
        },
        Ok(_) => {},
    }
    let command = store.current_ref().pending_actions[idx].command.clone();
    let actor = user_with(&store.current_ref().pending_actions[idx].correlation_id);
    let j = match find_by_id(&store.current_ref().pending_actions, pending_action_id) {
        Some(j) => j,
        None => idx,
    };
    proof {
        assert(has_id(s.pending_actions@, pending_action_id@)) by {
            assert(s.pending_actions@[idx as int].id_view() == pending_action_id@);
        }
    }
    let session = store.current_mut();
    session.pending_actions[j].status = PendingActionStatus::Approved;
    let ghost s1 = store.session();
    assert(s1.pending_actions@ =~= s.pending_actions@.update(
        j as int,
        PendingAction { status: PendingActionStatus::Approved, ..s.pending_actions@[j as int] },
    ));
    proof {
        assert(s1.nodes == s.nodes);
        assert(command matches TypedCommand::GraphEdit(GraphEditCommand::AddNode { node })
            ==> node_bounds_ordered(node)) by {
            if let TypedCommand::GraphEdit(GraphEditCommand::AddNode { node }) = pa.command {
                lemma_add_node_check_orders(node.parameters@, node.id);
            }
            assert(pa.command matches TypedCommand::GraphEdit(GraphEditCommand::AddNode { node })
                ==> node_bounds_ordered(node));
        }
    }
    let ghost gc = command;
    let (copy, result) = apply_typed_command(store, command, &actor, render_value, scale);
    let ghost s2 = store.session();
    let ghost tr = unit_result(result);
    match result {
        Err(reason) => {
            let e = match reason {
                AgentRejection::GraphEdit(e) => AgentCommandError::GraphEdit(e),
                AgentRejection::Performance(e) => AgentCommandError::PerformanceCommand(e),
                AgentRejection::Proposal(e) => AgentCommandError::OwnershipBlocked(
                    AgentBlock::Proposal(e),
                ),
                AgentRejection::Ownership(_) => AgentCommandError::NoSession,
            };
            let ghost ge = e;
            proof {
                assert(is_first_waiting(s.pending_actions@, pending_action_id@, idx as int));
                assert(typed_outcome(s1, s2, actor, gc, *render_value, *scale, tr));
                assert(j as int == first_id(s.pending_actions@, pending_action_id@));
                assert(approve_post(
                    s,
                    store.session(),
                    pending_action_id@,
                    idx as int,
                    *render_value,
                    *scale,
                    Err::<SessionDocument, AgentCommandError>(ge),
                ));
            }
            Err(e)
        },
        Ok(doc) => {
            let session = store.current_mut();
            let mut pas: Vec<PendingAction> = Vec::new();
            std::mem::swap(&mut pas, &mut session.pending_actions);
            session.pending_actions = retain_other_ids(pas, pending_action_id);
            let ghost s3 = store.session();
            let text = decision_description(true, pending_action_id);
            let ghost gtext = text;
            store.log_action(&actor, &copy, render_value, Some(text));
            proof {
                lemma_log_entry_copy_described(
                    store.session().action_history@.last(),
                    actor,
                    copy,
                    pa.command,
                    *render_value,
                    Some(gtext),
                );
                let t = store.session();
                assert(is_first_waiting(s.pending_actions@, pending_action_id@, idx as int));
                assert(typed_outcome(s1, s2, actor, gc, *render_value, *scale, tr));
                assert(s3 == (SessionDocument { pending_actions: s3.pending_actions, ..s2 }));
                assert(gtext@ == decision_text("Approved"@, pending_action_id@) && logged(
                    s3,
                    t,
                    actor,
                    pa.command,
                    *render_value,
                    Some(gtext),
                ));
                assert(j as int == first_id(s.pending_actions@, pending_action_id@));
            }
            let ghost gdoc = doc;
            proof {
                assert(approve_post(
                    s,
                    store.session(),
                    pending_action_id@,
                    idx as int,
                    *render_value,
                    *scale,
                    Ok::<SessionDocument, AgentCommandError>(gdoc),
                ));
            }
            Ok(doc)
        },
    }
}

/// No two waiting actions share the id `id`.
pub open spec fn waits_at_most_once(pas: Seq<PendingAction>, id: Seq<char>) -> bool {
    forall|i: int, k: int|
        0 <= i < pas.len() && 0 <= k < pas.len() && is_waiting(#[trigger] pas[i], id)
            && is_waiting(#[trigger] pas[k], id) ==> i == k
}

/// A rejection decides its action once and for all: where no other
/// waiting action shares the id, nothing with that id waits afterwards,
/// so a second approval or rejection is refused as unavailable.
pub proof fn lemma_reject_decides_once<R: Fn(u64) -> String>(
    s: SessionDocument,
    t: SessionDocument,
    id: Seq<char>,
    render: R,
    r: Result<SessionDocument, AgentCommandError>,
)
    requires
        waits_at_most_once(s.pending_actions@, id),
        reject_post(s, t, id, render, r),
    ensures
        !has_waiting(t.pending_actions@, id),
{
    let (i, mid, actor) = choose|i: int, mid: SessionDocument, actor: ActorRef|
        {
            &&& is_first_waiting(s.pending_actions@, id, i)
            &&& mid == (SessionDocument { pending_actions: mid.pending_actions, ..s })
            &&& mid.pending_actions@ == s.pending_actions@.update(
                i,
                PendingAction { status: PendingActionStatus::Rejected, ..s.pending_actions@[i] },
            )
            &&& user_actor(actor, s.pending_actions@[i].correlation_id)
            &&& exists|text: String|
                text@ == decision_text("Rejected"@, id) && logged(
                    mid,
                    t,
                    actor,
                    s.pending_actions@[i].command,
                    render,
                    Some(text),
                )
            &&& r matches Ok(doc) && doc.same(&t)
        };
    let text = choose|text: String|
        text@ == decision_text("Rejected"@, id) && logged(
            mid,
            t,
            actor,
            s.pending_actions@[i].command,
            render,
            Some(text),
        );
    assert(t.pending_actions == mid.pending_actions);
    assert forall|k: int| 0 <= k < t.pending_actions@.len() implies !is_waiting(
        #[trigger] t.pending_actions@[k],
        id,
    ) by {
        if k != i && is_waiting(t.pending_actions@[k], id) {
            assert(is_waiting(s.pending_actions@[k], id));
            assert(is_waiting(s.pending_actions@[i], id));
        }
    }
}

/// An approval whose command ran leaves no action with that id behind,
/// waiting or decided: a second decision on it is refused as unavailable.
pub proof fn lemma_approve_clears<R: Fn(u64) -> String, S: Fn(u64, u64, u64) -> u64>(
    s: SessionDocument,
    t: SessionDocument,
    id: Seq<char>,
    i: int,
    render: R,
    scale: S,
    r: Result<SessionDocument, AgentCommandError>,
)
    requires
        approve_post(s, t, id, i, render, scale, r),
        r is Ok,
    ensures
        !has_id(t.pending_actions@, id),
        !has_waiting(t.pending_actions@, id),
{
    let pa = s.pending_actions@[i];
    let j = first_id(s.pending_actions@, id);
    let (s1, s2, c, actor, tr) = choose|
        s1: SessionDocument,
        s2: SessionDocument,
        c: TypedCommand,
        actor: ActorRef,
        tr: Result<(), AgentRejection>,
    |
        {
            &&& s1 == (SessionDocument { pending_actions: s1.pending_actions, ..s })
            &&& s1.pending_actions@ == s.pending_actions@.update(
                j,
                PendingAction { status: PendingActionStatus::Approved, ..s.pending_actions@[j] },
            )
            &&& user_actor(actor, pa.correlation_id)
            &&& c.same(&pa.command)
            &&& typed_outcome(s1, s2, actor, c, render, scale, tr)
            &&& match tr {
                Err(reason) => t == s2 && r == Err::<SessionDocument, AgentCommandError>(
                    command_error(reason),
                ),
                Ok(_) => {
                    &&& r matches Ok(doc) && doc.same(
                        &(SessionDocument { action_history: s1.action_history, ..s2 }),
                    )
                    &&& exists|s3: SessionDocument, text: String|
                        {
                            &&& s3 == (SessionDocument { pending_actions: s3.pending_actions, ..s2 })
                            &&& s3.pending_actions@ == s2.pending_actions@.filter(
                                id_differs::<PendingAction>(id),
                            )
                            &&& text@ == decision_text("Approved"@, id)
                            &&& logged(s3, t, actor, pa.command, render, Some(text))
                        }
                },
            }
        };
    let (s3, text) = choose|s3: SessionDocument, text: String|
        {
            &&& s3 == (SessionDocument { pending_actions: s3.pending_actions, ..s2 })
            &&& s3.pending_actions@ == s2.pending_actions@.filter(id_differs::<PendingAction>(id))
            &&& text@ == decision_text("Approved"@, id)
            &&& logged(s3, t, actor, pa.command, render, Some(text))
        };
    assert(t.pending_actions == s3.pending_actions);
    assert forall|k: int| 0 <= k < t.pending_actions@.len() implies (
    #[trigger] t.pending_actions@[k]).id_view() != id by {
        s2.pending_actions@.lemma_filter_pred(id_differs::<PendingAction>(id), k);
    }
}


/// Exactly one of the three holds.
pub open spec fn one_of(x: bool, y: bool, z: bool) -> bool {
    (x && !y && !z) || (!x && y && !z) || (!x && !y && z)
}

/// One step of the agent path reports its command exactly once, and queues
/// it only when it is high risk and the actor is not the user.
/// One command on the agent path is queued for approval exactly when it
/// fits the session, the ownership gate lets it through, it is high risk
/// and the actor is not the user; what is queued is that command, waiting,
/// under the actor's correlation id, and a queued command is neither
/// applied nor rejected.
pub proof fn lemma_agent_step_queues<R: Fn(u64) -> String, S: Fn(u64, u64, u64) -> u64>(
    s: SessionDocument,
    t: SessionDocument,
    actor: ActorRef,
    command: TypedCommand,
    render: R,
    scale: S,
    applied: Option<TypedCommand>,
    rejected: Option<(TypedCommand, AgentRejection)>,
    queued: Option<PendingAction>,
)
    requires
        agent_step(s, t, actor, command, render, scale, applied, rejected, queued),
    ensures
        queued is Some <==> (proposal_check(s, command) is None && ownership_refusals(s, actor, command).len() == 0
            && risk_of(command) == RiskTier::High && !is_user_actor(actor)),
        queued matches Some(pa) ==> is_queued_action(pa, actor, command) && applied is None && rejected is None,
{
    lemma_step_reports_once(s, t, actor, command, render, scale, applied, rejected, queued);
}

/// An agent never applies a destructive edit itself: such a command on the
/// agent path is queued for the user's approval or rejected, and the
/// session's graph is left as it was.
pub proof fn lemma_agent_destructive_edit_waits<R: Fn(u64) -> String, S: Fn(u64, u64, u64) -> u64>(
    s: SessionDocument,
    t: SessionDocument,
    actor: ActorRef,
    command: TypedCommand,
    render: R,
    scale: S,
    applied: Option<TypedCommand>,
    rejected: Option<(TypedCommand, AgentRejection)>,
    queued: Option<PendingAction>,
)
    requires
        agent_step(s, t, actor, command, render, scale, applied, rejected, queued),
        !is_user_actor(actor),
        is_destructive_edit(command),
    ensures
        applied is None,
        t.nodes == s.nodes,
        t.routes == s.routes,
{
    lemma_destructive_is_high_risk(command);
}

proof fn lemma_step_reports_once<R: Fn(u64) -> String, S: Fn(u64, u64, u64) -> u64>(
    s: SessionDocument,
    t: SessionDocument,
    actor: ActorRef,
    command: TypedCommand,
    render: R,
    scale: S,
    applied: Option<TypedCommand>,
    rejected: Option<(TypedCommand, AgentRejection)>,
    queued: Option<PendingAction>,
)
    requires
        agent_step(s, t, actor, command, render, scale, applied, rejected, queued),
    ensures
        one_of(applied is Some, rejected is Some, queued is Some),
        queued matches Some(pa) ==> pa.risk_tier == RiskTier::High && pa.status == PendingActionStatus::Pending
            && pa.correlation_id == actor.correlation_id && risk_of(command) == RiskTier::High && !is_user_actor(actor),
{
    if proposal_check(s, command) is None && ownership_refusals(s, actor, command).len() == 0 && !(risk_of(command)
        == RiskTier::High && !is_user_actor(actor)) {
        let r = choose|r: Result<(), AgentRejection>|
            {
                &&& typed_outcome(s, t, actor, command, render, scale, r)
                &&& match r {
                    Ok(_) => rejected is None && applied_as(applied, command),
                    Err(reason) => applied is None && rejected_as(rejected, command, reason),
                }
            };
    }
}

proof fn lemma_present_counts<A, B, C>(a: Seq<Option<A>>, b: Seq<Option<B>>, c: Seq<Option<C>>)
    requires
        a.len() == b.len(),
        b.len() == c.len(),
        forall|k: int| 0 <= k < a.len() ==> one_of(#[trigger] a[k] is Some, b[k] is Some, c[k] is Some),
    ensures
        present(a).len() + present(b).len() + present(c).len() == a.len(),
    decreases a.len(),
{
    if a.len() > 0 {
        lemma_present_counts(a.drop_last(), b.drop_last(), c.drop_last());
        assert(one_of(a[a.len() - 1] is Some, b[a.len() - 1] is Some, c[a.len() - 1] is Some));
    }
}

proof fn lemma_present_from<T>(opts: Seq<Option<T>>, j: int)
    requires
        0 <= j < present(opts).len(),
    ensures
        exists|k: int| 0 <= k < opts.len() && opts[k] == Some(present(opts)[j]),
    decreases opts.len(),
{
    let rest = present(opts.drop_last());
    if j < rest.len() {
        lemma_present_from(opts.drop_last(), j);
        let k = choose|k: int| 0 <= k < opts.drop_last().len() && opts.drop_last()[k] == Some(rest[j]);
        assert(opts[k] == Some(present(opts)[j]));
    } else {
        assert(opts[opts.len() - 1] == Some(present(opts)[j]));
    }
}

/// The agent path accounts for every command of an intent exactly once:
/// the applied, rejected and queued commands together number as many as
/// the commands. A queued action is high risk, waiting, and was proposed by
/// an actor other than the user.
pub proof fn lemma_agent_run_accounts<R: Fn(u64) -> String, S: Fn(u64, u64, u64) -> u64>(
    first: SessionDocument,
    last: SessionDocument,
    actor: ActorRef,
    commands: Seq<TypedCommand>,
    render: R,
    scale: S,
    applied: Seq<TypedCommand>,
    rejected: Seq<(TypedCommand, AgentRejection)>,
    queued: Seq<PendingAction>,
)
    requires
        agent_run(first, last, actor, commands, render, scale, applied, rejected, queued),
    ensures
        applied.len() + rejected.len() + queued.len() == commands.len(),
        queued.len() > 0 ==> !is_user_actor(actor),
        forall|j: int|
            0 <= j < queued.len() ==> (#[trigger] queued[j]).risk_tier == RiskTier::High && queued[j].status
                == PendingActionStatus::Pending && queued[j].correlation_id == actor.correlation_id,
{
    let (states, copies, apps, rejs, ques) = choose|
        states: Seq<SessionDocument>,
        copies: Seq<TypedCommand>,
        apps: Seq<Option<TypedCommand>>,
        rejs: Seq<Option<(TypedCommand, AgentRejection)>>,
        ques: Seq<Option<PendingAction>>,
    |
        {
            &&& states.len() == commands.len() + 1
            &&& copies.len() == commands.len()
            &&& apps.len() == commands.len()
            &&& rejs.len() == commands.len()
            &&& ques.len() == commands.len()
            &&& states[0] == first
            &&& states.last() == last
            &&& forall|k: int|
                0 <= k < commands.len() ==> {
                    &&& (#[trigger] copies[k]).same(&commands[k])
                    &&& agent_step(
                        states[k],
                        states[k + 1],
                        actor,
                        copies[k],
                        render,
                        scale,
                        apps[k],
                        rejs[k],
                        ques[k],
                    )
                }
            &&& applied == present(apps)
            &&& rejected == present(rejs)
            &&& queued == present(ques)
        };
    assert forall|k: int| 0 <= k < apps.len() implies one_of(#[trigger] apps[k] is Some, rejs[k] is Some, ques[k] is Some)
        && (ques[k] matches Some(pa) ==> pa.risk_tier == RiskTier::High && pa.status == PendingActionStatus::Pending
        && pa.correlation_id == actor.correlation_id && !is_user_actor(actor)) by {
        assert(copies[k].same(&commands[k]));
        lemma_step_reports_once(states[k], states[k + 1], actor, copies[k], render, scale, apps[k], rejs[k], ques[k]);
    }
    lemma_present_counts(apps, rejs, ques);
    assert forall|j: int| 0 <= j < queued.len() implies (#[trigger] queued[j]).risk_tier == RiskTier::High
        && queued[j].status == PendingActionStatus::Pending && queued[j].correlation_id == actor.correlation_id
        && !is_user_actor(actor) by {
        lemma_present_from(ques, j);
        let k = choose|k: int| 0 <= k < ques.len() && ques[k] == Some(present(ques)[j]);
        assert(one_of(apps[k] is Some, rejs[k] is Some, ques[k] is Some));
    }
    if queued.len() > 0 {
        assert(queued[0].risk_tier == RiskTier::High);
    }
}

} // verus!

//! The planner boundary: the bounded context packet a planner sees, and
//! the errors a planner provider can end with.
use vstd::prelude::*;
use vstd::string::StringExecFns;
use crate::domain::{
    ActionHistoryEntry, AgentIntent, AudioRuntimeState, Bus, ControllerKind, MacroDefinition, Node,
    OwnershipRule, PendingAction, Route, RuntimeStatusRef, SceneDefinition, SessionDocument,
    TypedCommand, VariationDefinition, VisualRuntimeState,
};
use crate::intent::{
    expected_commands, intent_confidence, is_parsed, matched, parse_intent_against,
    parser_deterministic,
};

verus! {

/// How a planner provider failed.
#[derive(Debug, PartialEq)]
pub enum PlannerProviderError {
    Unavailable { provider_id: String, reason: String },
    ProviderFailed { provider_id: String, detail: String },
    InvalidOutput { provider_id: String, detail: String },
}

impl Clone for PlannerProviderError {
    fn clone(&self) -> (r: Self)
        ensures
            r == *self,
    {
        match self {
            PlannerProviderError::Unavailable { provider_id, reason } => PlannerProviderError::Unavailable {
                provider_id: provider_id.clone(),
                reason: reason.clone(),
            },
            PlannerProviderError::ProviderFailed { provider_id, detail } =>
                PlannerProviderError::ProviderFailed {
                    provider_id: provider_id.clone(),
                    detail: detail.clone(),
                },
            PlannerProviderError::InvalidOutput { provider_id, detail } =>
                PlannerProviderError::InvalidOutput {
                    provider_id: provider_id.clone(),
                    detail: detail.clone(),
                },
        }
    }
}

pub const DEFAULT_CONTEXT_NODE_LIMIT: usize = 48;

pub const DEFAULT_CONTEXT_ROUTE_LIMIT: usize = 96;

pub const DEFAULT_CONTEXT_BUS_LIMIT: usize = 32;

pub const DEFAULT_CONTEXT_MACRO_LIMIT: usize = 32;

pub const DEFAULT_CONTEXT_SCENE_LIMIT: usize = 24;

pub const DEFAULT_CONTEXT_OWNERSHIP_RULE_LIMIT: usize = 32;

pub const DEFAULT_CONTEXT_PENDING_ACTION_LIMIT: usize = 16;

pub const DEFAULT_CONTEXT_HISTORY_LIMIT: usize = 12;

pub const MAX_PROVIDER_ERROR_DETAIL_CHARS: usize = 512;

/// How much of each collection a planner is shown.
#[derive(Clone, Copy, Debug, PartialEq, Eq, Structural)]
pub struct SessionContextBounds {
    pub max_nodes: usize,
    pub max_routes: usize,
    pub max_buses: usize,
    pub max_macros: usize,
    pub max_scenes: usize,
    pub max_ownership_rules: usize,
    pub max_pending_actions: usize,
    pub max_history_entries: usize,
}

impl Default for SessionContextBounds {
    fn default() -> (b: Self)
        ensures
            b == (SessionContextBounds {
                max_nodes: DEFAULT_CONTEXT_NODE_LIMIT,
                max_routes: DEFAULT_CONTEXT_ROUTE_LIMIT,
                max_buses: DEFAULT_CONTEXT_BUS_LIMIT,
                max_macros: DEFAULT_CONTEXT_MACRO_LIMIT,
                max_scenes: DEFAULT_CONTEXT_SCENE_LIMIT,
                max_ownership_rules: DEFAULT_CONTEXT_OWNERSHIP_RULE_LIMIT,
                max_pending_actions: DEFAULT_CONTEXT_PENDING_ACTION_LIMIT,
                max_history_entries: DEFAULT_CONTEXT_HISTORY_LIMIT,
            }),
    {
        SessionContextBounds {
            max_nodes: DEFAULT_CONTEXT_NODE_LIMIT,
            max_routes: DEFAULT_CONTEXT_ROUTE_LIMIT,
            max_buses: DEFAULT_CONTEXT_BUS_LIMIT,
            max_macros: DEFAULT_CONTEXT_MACRO_LIMIT,
            max_scenes: DEFAULT_CONTEXT_SCENE_LIMIT,
            max_ownership_rules: DEFAULT_CONTEXT_OWNERSHIP_RULE_LIMIT,
            max_pending_actions: DEFAULT_CONTEXT_PENDING_ACTION_LIMIT,
            max_history_entries: DEFAULT_CONTEXT_HISTORY_LIMIT,
        }
    }
}

/// The smaller of two counts.
pub open spec fn min_len(a: nat, b: usize) -> nat {
    if a <= b {
        a
    } else {
        b as nat
    }
}

/// `r` holds copies of the first `limit` items (all of them if fewer).
pub open spec fn copies_first<T: Clone>(items: Seq<T>, r: Seq<T>, limit: usize) -> bool {
    &&& r.len() == min_len(items.len(), limit)
    &&& forall|i: int| 0 <= i < r.len() ==> cloned::<T>(items[i], #[trigger] r[i])
}

/// `r` holds copies of the last `limit` items (all of them if fewer), in
/// order.
pub open spec fn copies_last<T: Clone>(items: Seq<T>, r: Seq<T>, limit: usize) -> bool {
    let n = min_len(items.len(), limit);
    &&& r.len() == n
    &&& forall|i: int| 0 <= i < r.len() ==> cloned::<T>(items[items.len() - n + i], #[trigger] r[i])
}

/// Copies of the first `limit` items.
pub fn take_bounded<T: Clone>(items: &Vec<T>, limit: usize) -> (r: Vec<T>)
    ensures
        copies_first(items@, r@, limit),
{
    let n = if items.len() <= limit {
        items.len()
    } else {
        limit
    };
    let mut r: Vec<T> = Vec::new();
    let mut i: usize = 0;
    while i < n
        invariant
            n <= items@.len(),
            n == min_len(items@.len(), limit),
            i <= n,
            r@.len() == i,
            forall|k: int| 0 <= k < i ==> cloned::<T>(items@[k], #[trigger] r@[k]),
        decreases n - i,
    {
        r.push(items[i].clone());
        i = i + 1;
    }
    r
}

/// Copies of the last `limit` items, in order.
pub fn take_recent_bounded<T: Clone>(items: &Vec<T>, limit: usize) -> (r: Vec<T>)
    ensures
        copies_last(items@, r@, limit),
{
    let n = if items.len() <= limit {
        items.len()
    } else {
        limit
    };
    let start = items.len() - n;
    let mut r: Vec<T> = Vec::new();
    let mut i: usize = 0;
    while i < n
        invariant
            n <= items@.len(),
            n == min_len(items@.len(), limit),
            start == items@.len() - n,
            items@.len() == items.len(),
            i <= n,
            r@.len() == i,
            forall|k: int| 0 <= k < i ==> cloned::<T>(items@[start + k], #[trigger] r@[k]),
        decreases n - i,
    {
        r.push(items[start + i].clone());
        i = i + 1;
    }
    r
}

/// The graph a planner sees.
pub struct GraphContext {
    pub nodes: Vec<Node>,
    pub routes: Vec<Route>,
    pub buses: Vec<Bus>,
}

/// Ownership as a planner sees it.
pub struct OwnershipContext {
    pub rules: Vec<OwnershipRule>,
    pub locked_node_ids: Vec<String>,
    pub user_owned_node_ids: Vec<String>,
    pub agent_owned_node_ids: Vec<String>,
}

/// Runtime health as a planner sees it.
pub struct RuntimeHealthContext {
    pub audio: AudioRuntimeState,
    pub visual: VisualRuntimeState,
    pub runtime_status: Vec<RuntimeStatusRef>,
    pub agent_available: bool,
    pub agent_frozen: bool,
}

/// One logged action as a planner sees it.
#[derive(Debug, PartialEq)]
pub struct ActionHistorySummary {
    pub id: String,
    pub timestamp: String,
    pub actor_id: String,
    pub description: String,
    pub affected_node_ids: Vec<String>,
}

/// The recent history a planner sees.
pub struct HistoryContext {
    pub summaries: Vec<ActionHistorySummary>,
}

/// How many items of each collection there were and how many were shown.
#[derive(Clone, Copy, Debug, PartialEq, Eq, Structural)]
pub struct ContextTruncation {
    pub total_nodes: usize,
    pub included_nodes: usize,
    pub total_routes: usize,
    pub included_routes: usize,
    pub total_buses: usize,
    pub included_buses: usize,
    pub total_macros: usize,
    pub included_macros: usize,
    pub total_scenes: usize,
    pub included_scenes: usize,
    pub total_ownership_rules: usize,
    pub included_ownership_rules: usize,
    pub total_pending_actions: usize,
    pub included_pending_actions: usize,
    pub total_history_entries: usize,
    pub included_history_entries: usize,
}

/// The bounded view of a session handed to a planner.
pub struct SessionContextPacket {
    pub session_id: String,
    pub title: String,
    pub graph: GraphContext,
    pub scenes: Vec<SceneDefinition>,
    pub macros: Vec<MacroDefinition>,
    pub ownership: OwnershipContext,
    pub pending_actions: Vec<PendingAction>,
    pub runtime_health: RuntimeHealthContext,
    pub history: HistoryContext,
    pub truncation: ContextTruncation,
}

/// The summary of a log entry: its id, time, actor and diff.
pub open spec fn summarizes(s: ActionHistorySummary, e: ActionHistoryEntry) -> bool {
    &&& s.id == e.id
    &&& s.timestamp == e.timestamp
    &&& s.actor_id == e.actor.actor_id
    &&& s.description == e.diff.description
    &&& s.affected_node_ids@ == e.diff.affected_node_ids@
}

impl ActionHistorySummary {
    /// The summary of a log entry.
    pub fn from_entry(entry: &ActionHistoryEntry) -> (s: Self)
        ensures
            summarizes(s, *entry),
    {
        ActionHistorySummary {
            id: entry.id.clone(),
            timestamp: entry.timestamp.clone(),
            actor_id: entry.actor.actor_id.clone(),
            description: entry.diff.description.clone(),
            affected_node_ids: entry.diff.affected_node_ids.clone(),
        }
    }
}

/// The ids of the nodes a predicate selects, in order.
pub open spec fn ids_where(nodes: Seq<Node>, pred: spec_fn(Node) -> bool) -> Seq<String> {
    nodes.filter(pred).map_values(|n: Node| n.id)
}

pub open spec fn is_locked_node() -> spec_fn(Node) -> bool {
    |n: Node| n.ownership.is_locked
}

pub open spec fn owned_by(c: ControllerKind) -> spec_fn(Node) -> bool {
    |n: Node| n.ownership.controller == c
}

fn collect_ids(nodes: &Vec<Node>, kind: u8) -> (r: Vec<String>)
    requires
        kind < 3,
    ensures
        r@ == ids_where(
            nodes@,
            if kind == 0 {
                is_locked_node()
            } else if kind == 1 {
                owned_by(ControllerKind::User)
            } else {
                owned_by(ControllerKind::Agent)
            },
        ),
{
    let ghost pred = if kind == 0 {
        is_locked_node()
    } else if kind == 1 {
        owned_by(ControllerKind::User)
    } else {
        owned_by(ControllerKind::Agent)
    };
    let mut r: Vec<String> = Vec::new();
    let mut i: usize = 0;
    assert(nodes@.take(0).filter(pred) =~= Seq::<Node>::empty());
    while i < nodes.len()
        invariant
            i <= nodes@.len(),
            pred == (if kind == 0 {
                is_locked_node()
            } else if kind == 1 {
                owned_by(ControllerKind::User)
            } else {
                owned_by(ControllerKind::Agent)
            }),
            r@ == nodes@.take(i as int).filter(pred).map_values(|n: Node| n.id),
        decreases nodes.len() - i,
    {
        let n = &nodes[i];
        let keep = if kind == 0 {
            n.ownership.is_locked
        } else if kind == 1 {
            n.ownership.controller == ControllerKind::User
        } else {
            n.ownership.controller == ControllerKind::Agent
        };
        proof {
            assert(nodes@.take(i as int + 1) =~= nodes@.take(i as int).push(*n));
            nodes@.take(i as int).lemma_filter_push(*n, pred);
        }
        if keep {
            r.push(n.id.clone());
        }
        i = i + 1;
        assert(r@ =~= nodes@.take(i as int).filter(pred).map_values(|n: Node| n.id));
    }
    assert(nodes@.take(i as int) =~= nodes@);
    r
}

/// `p` is the context packet of `s` under `bounds`: the first nodes,
/// routes, buses, macros, scenes and ownership rules, the most recent
/// pending actions and history entries, each up to its bound; the ids of
/// locked, user-owned and agent-owned nodes over the whole graph; runtime
/// health; and the counts before and after bounding.
pub open spec fn is_context_packet(p: SessionContextPacket, s: SessionDocument, bounds: SessionContextBounds) -> bool {
    let n = min_len(s.action_history@.len(), bounds.max_history_entries);
    &&& p.session_id == s.session_id
    &&& p.title == s.title
    &&& copies_first(s.nodes@, p.graph.nodes@, bounds.max_nodes)
    &&& copies_first(s.routes@, p.graph.routes@, bounds.max_routes)
    &&& copies_first(s.buses@, p.graph.buses@, bounds.max_buses)
    &&& copies_first(s.macros@, p.macros@, bounds.max_macros)
    &&& copies_first(s.scenes@, p.scenes@, bounds.max_scenes)
    &&& copies_first(s.ownership_rules@, p.ownership.rules@, bounds.max_ownership_rules)
    &&& copies_last(s.pending_actions@, p.pending_actions@, bounds.max_pending_actions)
    &&& p.history.summaries@.len() == n
    &&& forall|i: int|
        0 <= i < n ==> summarizes(
            #[trigger] p.history.summaries@[i],
            s.action_history@[s.action_history@.len() - n + i],
        )
    &&& p.ownership.locked_node_ids@ == ids_where(s.nodes@, is_locked_node())
    &&& p.ownership.user_owned_node_ids@ == ids_where(s.nodes@, owned_by(ControllerKind::User))
    &&& p.ownership.agent_owned_node_ids@ == ids_where(s.nodes@, owned_by(ControllerKind::Agent))
    &&& p.runtime_health.audio == s.audio_runtime
    &&& p.runtime_health.visual == s.visual_runtime
    &&& p.runtime_health.runtime_status@ == s.runtime_status@
    &&& p.runtime_health.agent_available == s.agent_runtime.is_available
    &&& p.runtime_health.agent_frozen == (s.agent_frozen || s.agent_runtime.is_frozen)
    &&& p.truncation == (ContextTruncation {
        total_nodes: s.nodes@.len() as usize,
        included_nodes: min_len(s.nodes@.len(), bounds.max_nodes) as usize,
        total_routes: s.routes@.len() as usize,
        included_routes: min_len(s.routes@.len(), bounds.max_routes) as usize,
        total_buses: s.buses@.len() as usize,
        included_buses: min_len(s.buses@.len(), bounds.max_buses) as usize,
        total_macros: s.macros@.len() as usize,
        included_macros: min_len(s.macros@.len(), bounds.max_macros) as usize,
        total_scenes: s.scenes@.len() as usize,
        included_scenes: min_len(s.scenes@.len(), bounds.max_scenes) as usize,
        total_ownership_rules: s.ownership_rules@.len() as usize,
        included_ownership_rules: min_len(s.ownership_rules@.len(), bounds.max_ownership_rules) as usize,
        total_pending_actions: s.pending_actions@.len() as usize,
        included_pending_actions: min_len(s.pending_actions@.len(), bounds.max_pending_actions) as usize,
        total_history_entries: s.action_history@.len() as usize,
        included_history_entries: n as usize,
    })
}

fn bounded(len: usize, limit: usize) -> (r: usize)
    ensures
        r == min_len(len as nat, limit),
{
    if len <= limit {
        len
    } else {
        limit
    }
}

/// The bounded context packet a planner is shown for `session`.
pub fn derive_session_context_packet(session: &SessionDocument, bounds: SessionContextBounds) -> (p:
    SessionContextPacket)
    ensures
        is_context_packet(p, *session, bounds),
{
    let nodes = take_bounded(&session.nodes, bounds.max_nodes);
    let routes = take_bounded(&session.routes, bounds.max_routes);
    let buses = take_bounded(&session.buses, bounds.max_buses);
    let macros = take_bounded(&session.macros, bounds.max_macros);
    let scenes = take_bounded(&session.scenes, bounds.max_scenes);
    let rules = take_bounded(&session.ownership_rules, bounds.max_ownership_rules);
    let pending = take_recent_bounded(&session.pending_actions, bounds.max_pending_actions);
    let h = &session.action_history;
    let n = bounded(h.len(), bounds.max_history_entries);
    let start = h.len() - n;
    let mut summaries: Vec<ActionHistorySummary> = Vec::new();
    let mut i: usize = 0;
    while i < n
        invariant
            n == min_len(h@.len(), bounds.max_history_entries),
            n <= h@.len(),
            start == h@.len() - n,
            h@.len() == h.len(),
            i <= n,
            summaries@.len() == i,
            forall|k: int| 0 <= k < i ==> summarizes(#[trigger] summaries@[k], h@[start + k]),
        decreases n - i,
    {
        summaries.push(ActionHistorySummary::from_entry(&h[start + i]));
        i = i + 1;
    }
    let truncation = ContextTruncation {
        total_nodes: session.nodes.len(),
        included_nodes: bounded(session.nodes.len(), bounds.max_nodes),
        total_routes: session.routes.len(),
        included_routes: bounded(session.routes.len(), bounds.max_routes),
        total_buses: session.buses.len(),
        included_buses: bounded(session.buses.len(), bounds.max_buses),
        total_macros: session.macros.len(),
        included_macros: bounded(session.macros.len(), bounds.max_macros),
        total_scenes: session.scenes.len(),
        included_scenes: bounded(session.scenes.len(), bounds.max_scenes),
        total_ownership_rules: session.ownership_rules.len(),
        included_ownership_rules: bounded(session.ownership_rules.len(), bounds.max_ownership_rules),
        total_pending_actions: session.pending_actions.len(),
        included_pending_actions: bounded(session.pending_actions.len(), bounds.max_pending_actions),
        total_history_entries: h.len(),
        included_history_entries: n,
    };
    SessionContextPacket {
        session_id: session.session_id.clone(),
        title: session.title.clone(),
        graph: GraphContext { nodes, routes, buses },
        scenes,
        macros,
        ownership: OwnershipContext {
            rules,
            locked_node_ids: collect_ids(&session.nodes, 0),
            user_owned_node_ids: collect_ids(&session.nodes, 1),
            agent_owned_node_ids: collect_ids(&session.nodes, 2),
        },
        pending_actions: pending,
        runtime_health: RuntimeHealthContext {
            audio: session.audio_runtime.clone(),
            visual: session.visual_runtime.clone(),
            runtime_status: session.runtime_status.clone(),
            agent_available: session.agent_runtime.is_available,
            agent_frozen: session.agent_frozen || session.agent_runtime.is_frozen,
        },
        history: HistoryContext { summaries },
        truncation,
    }
}

/// A plan proposed by a planner provider; `confidence` is an `f64` bit
/// pattern.
pub struct PlannerProposal {
    pub raw_input: String,
    pub commands: Vec<TypedCommand>,
    pub confidence: u64,
    pub provider_id: String,
}

impl PlannerProposal {
    /// The proposal as an agent intent.
    pub fn into_intent(self) -> (r: AgentIntent)
        ensures
            r == (AgentIntent {
                raw_input: self.raw_input,
                parsed_commands: self.commands,
                confidence: self.confidence,
            }),
    {
        AgentIntent { raw_input: self.raw_input, parsed_commands: self.commands, confidence: self.confidence }
    }
}

/// The built-in planner provider that parses requests locally.
pub struct ParserPlannerProvider {
    provider_id: String,
    available: bool,
}

impl ParserPlannerProvider {
    pub closed spec fn spec_provider_id(&self) -> Seq<char> {
        self.provider_id@
    }

    pub closed spec fn spec_available(&self) -> bool {
        self.available
    }

    /// The local parser, available, under the id `local-parser`.
    pub fn new() -> (p: Self)
        ensures
            p.spec_provider_id() == "local-parser"@,
            p.spec_available(),
    {
        ParserPlannerProvider { provider_id: "local-parser".to_owned(), available: true }
    }

    /// A provider under `provider_id` that is not available.
    pub fn unavailable(provider_id: String) -> (p: Self)
        ensures
            p.spec_provider_id() == provider_id@,
            !p.spec_available(),
    {
        ParserPlannerProvider { provider_id, available: false }
    }

    /// The provider's id.
    pub fn provider_id(&self) -> (r: &String)
        ensures
            r@ == self.spec_provider_id(),
    {
        &self.provider_id
    }

    /// Whether the provider can plan.
    pub fn is_available(&self) -> (r: bool)
        ensures
            r == self.spec_available(),
    {
        self.available
    }
}

/// Whether a planner may be asked on this session, and if not, why: the
/// session's agent runtime must be available, then the provider.
pub open spec fn planner_gate(
    s: SessionDocument,
    provider_id: Seq<char>,
    provider_available: bool,
) -> Option<Seq<char>> {
    if !s.agent_runtime.is_available {
        Some("session agent runtime is unavailable"@)
    } else if !provider_available {
        Some("provider is not available"@)
    } else {
        None
    }
}

/// Checks that a planner may be asked; on refusal the error names the
/// provider and the reason.
pub fn check_planner_available(
    session: &SessionDocument,
    provider_id: &String,
    provider_available: bool,
) -> (r: Result<(), PlannerProviderError>)
    ensures
        match planner_gate(*session, provider_id@, provider_available) {
            Some(reason) => r matches Err(PlannerProviderError::Unavailable { provider_id: p, reason: m })
                && p == *provider_id && m@ == reason,
            None => r is Ok,
        },
{
    if !session.agent_runtime.is_available {
        return Err(
            PlannerProviderError::Unavailable {
                provider_id: provider_id.clone(),
                reason: "session agent runtime is unavailable".to_owned(),
            },
        );
    }
    if !provider_available {
        return Err(
            PlannerProviderError::Unavailable {
                provider_id: provider_id.clone(),
                reason: "provider is not available".to_owned(),
            },
        );
    }
    Ok(())
}

/// The first `MAX_PROVIDER_ERROR_DETAIL_CHARS` characters of an error text.
pub fn trim_error_detail(detail: &str) -> (r: String)
    ensures
        r@ == detail@.take(min_len(detail@.len(), MAX_PROVIDER_ERROR_DETAIL_CHARS) as int),
{
    let cs = crate::text::chars_of(detail);
    let n = bounded(cs.len(), MAX_PROVIDER_ERROR_DETAIL_CHARS);
    let mut kept: Vec<char> = Vec::new();
    let mut i: usize = 0;
    while i < n
        invariant
            cs@ == detail@,
            n == min_len(detail@.len(), MAX_PROVIDER_ERROR_DETAIL_CHARS),
            n <= cs@.len(),
            i <= n,
            kept@ == detail@.take(i as int),
        decreases n - i,
    {
        kept.push(cs[i]);
        i = i + 1;
        assert(kept@ =~= detail@.take(i as int));
    }
    crate::text::string_from_chars(&kept)
}

/// A planner's proposal read from its JSON output: the parsed fields, or
/// the parse error text, which is trimmed into an invalid-output error.
pub fn proposal_from_json(
    provider_id: &String,
    fallback_raw_input: &String,
    parsed: Result<(Option<String>, Vec<TypedCommand>, u64), String>,
) -> (r: Result<PlannerProposal, PlannerProviderError>)
    ensures
        match parsed {
            Ok((raw, commands, confidence)) => r matches Ok(p) && p.commands == commands && p.confidence
                == confidence && p.provider_id == *provider_id && p.raw_input == (match raw {
                Some(x) => x,
                None => *fallback_raw_input,
            }),
            Err(e) => r matches Err(PlannerProviderError::InvalidOutput { provider_id: p, detail: d })
                && p == *provider_id && d@ == e@.take(
                min_len(e@.len(), MAX_PROVIDER_ERROR_DETAIL_CHARS) as int,
            ),
        },
{
    match parsed {
        Ok((raw, commands, confidence)) => Ok(
            PlannerProposal {
                raw_input: match raw {
                    Some(x) => x,
                    None => fallback_raw_input.clone(),
                },
                commands,
                confidence,
                provider_id: provider_id.clone(),
            },
        ),
        Err(e) => Err(
            PlannerProviderError::InvalidOutput {
                provider_id: provider_id.clone(),
                detail: trim_error_detail(e.as_str()),
            },
        ),
    }
}


/// What a planner provider is asked: the request text and the context.
pub struct PlannerRequest {
    pub raw_input: String,
    pub context: SessionContextPacket,
}

/// What a planner provider answers: a typed proposal, or JSON text to be
/// read as one.
pub enum PlannerProviderOutput {
    Typed(PlannerProposal),
    Json(String),
}

/// Checks that the planner may be asked and builds its request: the text
/// and the bounded context of the session.
pub fn prepare_planner_request(
    session: &SessionDocument,
    raw_input: &str,
    provider_id: &String,
    provider_available: bool,
    bounds: SessionContextBounds,
) -> (r: Result<PlannerRequest, PlannerProviderError>)
    ensures
        match planner_gate(*session, provider_id@, provider_available) {
            Some(reason) => r matches Err(PlannerProviderError::Unavailable { provider_id: p, reason: m })
                && p == *provider_id && m@ == reason,
            None => r matches Ok(req) && req.raw_input@ == raw_input@ && is_context_packet(
                req.context,
                *session,
                bounds,
            ),
        },
{
    match check_planner_available(session, provider_id, provider_available) {
        Err(e) => Err(e),
        Ok(()) => {
            let context = derive_session_context_packet(session, bounds);
            Ok(PlannerRequest { raw_input: raw_input.to_owned(), context })
        },
    }
}

impl ParserPlannerProvider {
    /// Plans by reading the request text against the context's nodes and
    /// scenes (a context carries no variations); the proposal is typed and
    /// carries this provider's id. `parse_number` reads a number.
    pub fn plan<P: Fn(&String) -> Option<u64>>(
        &self,
        request: &PlannerRequest,
        parse_number: &P,
    ) -> (r: Result<PlannerProviderOutput, PlannerProviderError>)
        requires
            forall|s: &String| parse_number.requires((s,)),
            parser_deterministic(*parse_number),
        ensures
            r matches Ok(PlannerProviderOutput::Typed(p)) && p.provider_id@ == self.spec_provider_id()
                && p.raw_input@ == request.raw_input@ && p.confidence == intent_confidence(
                expected_commands(
                    request.raw_input@,
                    request.context.graph.nodes@,
                    request.context.scenes@,
                    Seq::empty(),
                    *parse_number,
                ),
            ) && p.commands@.len() == matched(
                expected_commands(
                    request.raw_input@,
                    request.context.graph.nodes@,
                    request.context.scenes@,
                    Seq::empty(),
                    *parse_number,
                ),
            ).len() && forall|k: int|
                0 <= k < p.commands@.len() ==> is_parsed(
                    #[trigger] p.commands@[k],
                    matched(
                        expected_commands(
                            request.raw_input@,
                            request.context.graph.nodes@,
                            request.context.scenes@,
                            Seq::empty(),
                            *parse_number,
                        ),
                    )[k],
                ),
    {
        let no_variations: Vec<VariationDefinition> = Vec::new();
        let intent = parse_intent_against(
            request.raw_input.as_str(),
            &request.context.graph.nodes,
            &request.context.scenes,
            &no_variations,
            parse_number,
        );
        assert(no_variations@ =~= Seq::<VariationDefinition>::empty());
        Ok(
            PlannerProviderOutput::Typed(
                PlannerProposal {
                    raw_input: intent.raw_input,
                    commands: intent.parsed_commands,
                    confidence: intent.confidence,
                    provider_id: self.provider_id.clone(),
                },
            ),
        )
    }
}

} // verus!

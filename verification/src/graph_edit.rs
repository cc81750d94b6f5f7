//! Bounded edits of the canonical audio graph: nodes, routes and bus
//! assignments, with route validation that keeps the graph acyclic.
use vstd::prelude::*;
use crate::domain::{
    AudioEffectNode, AudioMixerNode, AudioOutputNode, AudioPrimitive, AudioSourceNode,
    GraphEditCommand, Node, ParameterValue, Port, PortDirection, Route, SessionDocument,
};
use crate::float_bits::{f64_lt, spec_lt};
use crate::lookup::{
    contains_id, contains_string, contains_text, find_by_id, find_id, first_id, has_id, HasId,
};
use crate::ordering::{seq_le, sort_by_key, sorted_by_key, str_le, SortKey};
use crate::session_store::SessionStore;
use crate::text::{joined3, joined5};

verus! {

#[derive(Debug, PartialEq)]
pub enum GraphEditError {
    DuplicateNode { node_id: String },
    MissingNode { node_id: String },
    DuplicateRoute { route_id: String },
    MissingRoute { route_id: String },
    MissingPort { node_id: String, port_id: String },
    InvalidRouteDirection { route_id: String },
    InvalidSignalType { route_id: String },
    UnsupportedCycle { route_id: String },
    MissingParameter { node_id: String, parameter_id: String },
    /// `min` and `max` are `f64` bit patterns.
    ParameterOutOfRange { node_id: String, parameter_id: String, min: u64, max: u64 },
    MissingBus { bus_id: String },
    MissingAudioPrimitive { node_id: String },
}

/// The text of a graph edit error; `lo` and `hi` are the written bounds of
/// an out-of-range value.
pub open spec fn graph_edit_error_text(e: GraphEditError, lo: Seq<char>, hi: Seq<char>) -> Seq<char> {
    match e {
        GraphEditError::DuplicateNode { node_id } => "node '"@ + node_id@ + "' already exists"@,
        GraphEditError::MissingNode { node_id } => "node '"@ + node_id@ + "' was not found"@,
        GraphEditError::DuplicateRoute { route_id } => "route '"@ + route_id@ + "' already exists"@,
        GraphEditError::MissingRoute { route_id } => "route '"@ + route_id@ + "' was not found"@,
        GraphEditError::MissingPort { node_id, port_id } => "port '"@ + port_id@ + "' was not found on node '"@
            + node_id@ + "'"@,
        GraphEditError::InvalidRouteDirection { route_id } => "route '"@ + route_id@
            + "' has invalid port direction"@,
        GraphEditError::InvalidSignalType { route_id } => "route '"@ + route_id@
            + "' has mismatched signal types"@,
        GraphEditError::UnsupportedCycle { route_id } => "route '"@ + route_id@
            + "' creates an unsupported cycle"@,
        GraphEditError::MissingParameter { node_id, parameter_id } => "parameter '"@ + parameter_id@
            + "' was not found on node '"@ + node_id@ + "'"@,
        GraphEditError::ParameterOutOfRange { node_id, parameter_id, .. } => "parameter '"@ + parameter_id@
            + "' on node '"@ + node_id@ + "' must be between "@ + lo + " and "@ + hi,
        GraphEditError::MissingBus { bus_id } => "bus '"@ + bus_id@ + "' was not found"@,
        GraphEditError::MissingAudioPrimitive { node_id } => "node '"@ + node_id@
            + "' does not support bus assignment"@,
    }
}

/// `lo` and `hi` are what `render` writes for the bounds of an out-of-range
/// error (and anything for another error).
pub open spec fn renders_bounds<R: Fn(u64) -> String>(e: GraphEditError, render: R, lo: String, hi: String) -> bool {
    match e {
        GraphEditError::ParameterOutOfRange { min, max, .. } => render.ensures((min,), lo) && render.ensures(
            (max,),
            hi,
        ),
        _ => true,
    }
}

impl GraphEditError {
    /// The text shown for this error; `render` writes a bound.
    pub fn message<R: Fn(u64) -> String>(&self, render: &R) -> (r: String)
        requires
            forall|v: u64| render.requires((v,)),
        ensures
            exists|lo: String, hi: String|
                renders_bounds(*self, *render, lo, hi) && r@ == graph_edit_error_text(*self, lo@, hi@),
    {
        let r = match self {
            GraphEditError::DuplicateNode { node_id } => joined3("node '", node_id.as_str(), "' already exists"),
            GraphEditError::MissingNode { node_id } => joined3("node '", node_id.as_str(), "' was not found"),
            GraphEditError::DuplicateRoute { route_id } => joined3("route '", route_id.as_str(), "' already exists"),
            GraphEditError::MissingRoute { route_id } => joined3("route '", route_id.as_str(), "' was not found"),
            GraphEditError::MissingPort { node_id, port_id } => joined5(
                "port '",
                port_id.as_str(),
                "' was not found on node '",
                node_id.as_str(),
                "'",
            ),
            GraphEditError::InvalidRouteDirection { route_id } => joined3(
                "route '",
                route_id.as_str(),
                "' has invalid port direction",
            ),
            GraphEditError::InvalidSignalType { route_id } => joined3(
                "route '",
                route_id.as_str(),
                "' has mismatched signal types",
            ),
            GraphEditError::UnsupportedCycle { route_id } => joined3(
                "route '",
                route_id.as_str(),
                "' creates an unsupported cycle",
            ),
            GraphEditError::MissingParameter { node_id, parameter_id } => joined5(
                "parameter '",
                parameter_id.as_str(),
                "' was not found on node '",
                node_id.as_str(),
                "'",
            ),
            GraphEditError::ParameterOutOfRange { node_id, parameter_id, min, max } => {
                let lo = render(*min);
                let hi = render(*max);
                let mut s = joined5(
                    "parameter '",
                    parameter_id.as_str(),
                    "' on node '",
                    node_id.as_str(),
                    "' must be between ",
                );
                s.append(lo.as_str());
                s.append(" and ");
                s.append(hi.as_str());
                assert(renders_bounds(*self, *render, lo, hi));
                assert(s@ == graph_edit_error_text(*self, lo@, hi@));
                return s;
            },
            GraphEditError::MissingBus { bus_id } => joined3("bus '", bus_id.as_str(), "' was not found"),
            GraphEditError::MissingAudioPrimitive { node_id } => joined3(
                "node '",
                node_id.as_str(),
                "' does not support bus assignment",
            ),
        };
        assert(renders_bounds(*self, *render, r, r));
        assert(r@ == graph_edit_error_text(*self, r@, r@));
        r
    }
}

impl Clone for GraphEditError {
    fn clone(&self) -> (r: Self)
        ensures
            r == *self,
    {
        match self {
            GraphEditError::DuplicateNode { node_id } => GraphEditError::DuplicateNode {
                node_id: node_id.clone(),
            },
            GraphEditError::MissingNode { node_id } => GraphEditError::MissingNode {
                node_id: node_id.clone(),
            },
            GraphEditError::DuplicateRoute { route_id } => GraphEditError::DuplicateRoute {
                route_id: route_id.clone(),
            },
            GraphEditError::MissingRoute { route_id } => GraphEditError::MissingRoute {
                route_id: route_id.clone(),
            },
            GraphEditError::MissingPort { node_id, port_id } => GraphEditError::MissingPort {
                node_id: node_id.clone(),
                port_id: port_id.clone(),
            },
            GraphEditError::InvalidRouteDirection { route_id } =>
                GraphEditError::InvalidRouteDirection { route_id: route_id.clone() },
            GraphEditError::InvalidSignalType { route_id } => GraphEditError::InvalidSignalType {
                route_id: route_id.clone(),
            },
            GraphEditError::UnsupportedCycle { route_id } => GraphEditError::UnsupportedCycle {
                route_id: route_id.clone(),
            },
            GraphEditError::MissingParameter { node_id, parameter_id } =>
                GraphEditError::MissingParameter {
                    node_id: node_id.clone(),
                    parameter_id: parameter_id.clone(),
                },
            GraphEditError::ParameterOutOfRange { node_id, parameter_id, min, max } =>
                GraphEditError::ParameterOutOfRange {
                    node_id: node_id.clone(),
                    parameter_id: parameter_id.clone(),
                    min: *min,
                    max: *max,
                },
            GraphEditError::MissingBus { bus_id } => GraphEditError::MissingBus {
                bus_id: bus_id.clone(),
            },
            GraphEditError::MissingAudioPrimitive { node_id } =>
                GraphEditError::MissingAudioPrimitive { node_id: node_id.clone() },
        }
    }
}

// ---------------------------------------------------------------------------
// Reachability over routes
// ---------------------------------------------------------------------------

/// `b` can be reached from `a` by following at most `n` routes from source to
/// target (every node reaches itself).
pub open spec fn reach_within(routes: Seq<Route>, a: Seq<char>, b: Seq<char>, n: nat) -> bool
    decreases n,
{
    a == b || (n > 0 && exists|i: int|
        0 <= i < routes.len() && (#[trigger] routes[i]).source_node_id@ == a && reach_within(
            routes,
            routes[i].target_node_id@,
            b,
            (n - 1) as nat,
        ))
}

/// `b` can be reached from `a` by following routes from source to target.
pub open spec fn reachable(routes: Seq<Route>, a: Seq<char>, b: Seq<char>) -> bool {
    exists|n: nat| reach_within(routes, a, b, n)
}

proof fn lemma_reach_extend(routes: Seq<Route>, a: Seq<char>, s: Seq<char>, n: nat, i: int)
    requires
        reach_within(routes, a, s, n),
        0 <= i < routes.len(),
        routes[i].source_node_id@ == s,
    ensures
        reach_within(routes, a, routes[i].target_node_id@, n + 1),
    decreases n,
{
    let t = routes[i].target_node_id@;
    if a == s {
        assert(reach_within(routes, t, t, n));
        assert(routes[i].source_node_id@ == a);
    } else {
        let k = choose|k: int|
            0 <= k < routes.len() && (#[trigger] routes[k]).source_node_id@ == a && reach_within(
                routes,
                routes[k].target_node_id@,
                s,
                (n - 1) as nat,
            );
        lemma_reach_extend(routes, routes[k].target_node_id@, s, (n - 1) as nat, i);
        assert(reach_within(routes, routes[k].target_node_id@, t, n));
    }
}

/// The strings in `reached` are closed under following routes.
pub open spec fn closed_under_routes(routes: Seq<Route>, reached: Seq<String>) -> bool {
    forall|i: int|
        0 <= i < routes.len() && contains_text(reached, (#[trigger] routes[i]).source_node_id@)
            ==> contains_text(reached, routes[i].target_node_id@)
}

proof fn lemma_closed_contains_reach(
    routes: Seq<Route>,
    reached: Seq<String>,
    a: Seq<char>,
    b: Seq<char>,
    n: nat,
)
    requires
        closed_under_routes(routes, reached),
        contains_text(reached, a),
        reach_within(routes, a, b, n),
    ensures
        contains_text(reached, b),
    decreases n,
{
    if a != b {
        let k = choose|k: int|
            0 <= k < routes.len() && (#[trigger] routes[k]).source_node_id@ == a && reach_within(
                routes,
                routes[k].target_node_id@,
                b,
                (n - 1) as nat,
            );
        assert(contains_text(reached, routes[k].target_node_id@));
        lemma_closed_contains_reach(routes, reached, routes[k].target_node_id@, b, (n - 1) as nat);
    }
}

/// Whether `target` can be reached from `start` by following routes.
pub fn path_exists(routes: &Vec<Route>, start: &String, target: &String) -> (r: bool)
    ensures
        r == reachable(routes@, start@, target@),
{
    let mut reached: Vec<String> = Vec::new();
    reached.push(start.clone());
    assert(reach_within(routes@, start@, start@, 0));
    assert(reached@[0]@ == start@);
    let mut remaining: Vec<usize> = Vec::new();
    let mut i: usize = 0;
    while i < routes.len()
        invariant
            i <= routes.len(),
            remaining@.len() == i,
            forall|j: int| 0 <= j < i ==> remaining@[j] == j,
        decreases routes.len() - i,
    {
        remaining.push(i);
        i = i + 1;
    }
    assert forall|r: int| 0 <= r < routes@.len() implies #[trigger] remaining@.contains(r as usize) by {
        assert(remaining@[r] == r as usize);
    }
    assert(routes@.len() == routes.len());
    loop
        invariant
            routes@.len() <= usize::MAX,
            contains_text(reached@, start@),
            forall|j: int|
                0 <= j < reached@.len() ==> reachable(routes@, start@, (#[trigger] reached@[j])@),
            forall|k: int| 0 <= k < remaining@.len() ==> (#[trigger] remaining@[k]) < routes@.len(),
            forall|r: int|
                0 <= r < routes@.len() && !remaining@.contains(r as usize) ==> contains_text(
                    reached@,
                    (#[trigger] routes@[r]).target_node_id@,
                ),
        ensures
            contains_text(reached@, start@),
            forall|j: int|
                0 <= j < reached@.len() ==> reachable(routes@, start@, (#[trigger] reached@[j])@),
            closed_under_routes(routes@, reached@),
        decreases remaining@.len(),
    {
        let mut k: usize = 0;
        let mut found = false;
        while k < remaining.len() && !found
            invariant
                k <= remaining@.len(),
                forall|k2: int| 0 <= k2 < remaining@.len() ==> (#[trigger] remaining@[k2]) < routes@.len(),
                !found ==> forall|k2: int|
                    0 <= k2 < k ==> !contains_text(
                        reached@,
                        routes@[#[trigger] remaining@[k2] as int].source_node_id@,
                    ),
                found ==> k < remaining@.len() && contains_text(
                    reached@,
                    routes@[remaining@[k as int] as int].source_node_id@,
                ),
            decreases remaining@.len() - k + (if found { 0int } else { 1int }),
        {
            let ri = remaining[k];
            if contains_string(&reached, &routes[ri].source_node_id) {
                found = true;
            } else {
                k = k + 1;
            }
        }
        if !found {
            assert forall|r: int|
                0 <= r < routes@.len() && contains_text(
                    reached@,
                    (#[trigger] routes@[r]).source_node_id@,
                ) implies contains_text(reached@, routes@[r].target_node_id@) by {
                if remaining@.contains(r as usize) {
                    let k2 = choose|k2: int| 0 <= k2 < remaining@.len() && remaining@[k2] == r as usize;
                    assert(!contains_text(reached@, routes@[remaining@[k2] as int].source_node_id@));
                    assert(routes@[remaining@[k2] as int] == routes@[r]);
                    assert(false);
                }
            }
            break;
        }
        let ghost old_remaining = remaining@;
        let ghost old_reached = reached@;
        let ri = remaining.swap_remove(k);
        let ghost src = routes@[ri as int].source_node_id@;
        proof {
            let j = choose|j: int| 0 <= j < old_reached.len() && (#[trigger] old_reached[j])@ == src;
            assert(reachable(routes@, start@, old_reached[j]@));
            let n = choose|n: nat| reach_within(routes@, start@, src, n);
            lemma_reach_extend(routes@, start@, src, n, ri as int);
        }
        if !contains_string(&reached, &routes[ri].target_node_id) {
            reached.push(routes[ri].target_node_id.clone());
            assert(reached@[reached@.len() - 1]@ == routes@[ri as int].target_node_id@);
        }
        assert(contains_text(reached@, routes@[ri as int].target_node_id@));
        assert forall|j: int| 0 <= j < old_reached.len() implies (#[trigger] reached@[j]) == old_reached[j] by {}
        assert forall|r: int|
            0 <= r < routes@.len() && !remaining@.contains(r as usize) implies contains_text(
                reached@,
                (#[trigger] routes@[r]).target_node_id@,
            ) by {
            if r != ri as int {
                if old_remaining.contains(r as usize) {
                    let k3 = choose|k3: int| 0 <= k3 < old_remaining.len() && old_remaining[k3] == r as usize;
                    if k3 == k as int {
                        assert(false);
                    } else if k3 == old_remaining.len() - 1 {
                        assert(remaining@[k as int] == r as usize);
                        assert(remaining@.contains(r as usize));
                        assert(false);
                    } else {
                        assert(remaining@[k3] == r as usize);
                        assert(remaining@.contains(r as usize));
                        assert(false);
                    }
                }
                assert(contains_text(old_reached, routes@[r].target_node_id@));
                let w = choose|w: int| 0 <= w < old_reached.len() && (#[trigger] old_reached[w])@ == routes@[r].target_node_id@;
                assert(reached@[w]@ == routes@[r].target_node_id@);
            }
        }
        assert forall|k2: int| 0 <= k2 < remaining@.len() implies (#[trigger] remaining@[k2]) < routes@.len() by {
            if k2 == k as int {
                assert(remaining@[k2] == old_remaining[old_remaining.len() - 1]);
            } else {
                assert(remaining@[k2] == old_remaining[k2]);
            }
        }
        proof {
            let w0 = choose|w: int| 0 <= w < old_reached.len() && (#[trigger] old_reached[w])@ == start@;
            assert(reached@[w0]@ == start@);
        }
    }
    let r = contains_string(&reached, target);
    proof {
        if r {
            let j = choose|j: int| 0 <= j < reached@.len() && (#[trigger] reached@[j])@ == target@;
            assert(reachable(routes@, start@, reached@[j]@));
        } else {
            if reachable(routes@, start@, target@) {
                let n = choose|n: nat| reach_within(routes@, start@, target@, n);
                lemma_closed_contains_reach(routes@, reached@, start@, target@, n);
            }
        }
    }
    r
}


// ---------------------------------------------------------------------------
// Route validation
// ---------------------------------------------------------------------------

/// The outcome of validating `route` against `session`, check by check in
/// the order the editor applies them.
pub open spec fn route_check(session: SessionDocument, route: Route) -> Result<(), GraphEditError> {
    let nodes = session.nodes@;
    if !has_id(nodes, route.source_node_id@) {
        Err(GraphEditError::MissingNode { node_id: route.source_node_id })
    } else if !has_id(nodes, route.target_node_id@) {
        Err(GraphEditError::MissingNode { node_id: route.target_node_id })
    } else {
        let source = find_id(nodes, route.source_node_id@);
        let target = find_id(nodes, route.target_node_id@);
        if !has_id(source.ports@, route.source_port_id@) {
            Err(GraphEditError::MissingPort { node_id: source.id, port_id: route.source_port_id })
        } else if !has_id(target.ports@, route.target_port_id@) {
            Err(GraphEditError::MissingPort { node_id: target.id, port_id: route.target_port_id })
        } else {
            let source_port = find_id(source.ports@, route.source_port_id@);
            let target_port = find_id(target.ports@, route.target_port_id@);
            if source_port.direction != PortDirection::Output || target_port.direction
                != PortDirection::Input {
                Err(GraphEditError::InvalidRouteDirection { route_id: route.id })
            } else if source_port.signal_type != target_port.signal_type {
                Err(GraphEditError::InvalidSignalType { route_id: route.id })
            } else if route.source_node_id@ == route.target_node_id@ || reachable(
                session.routes@,
                route.target_node_id@,
                route.source_node_id@,
            ) {
                Err(GraphEditError::UnsupportedCycle { route_id: route.id })
            } else {
                Ok(())
            }
        }
    }
}

/// The endpoints of `route` in `session`: both nodes exist with the named
/// ports, the source port is an output, the target port an input, and
/// both carry the same kind of signal.
pub open spec fn endpoints_match(session: SessionDocument, route: Route) -> bool {
    let nodes = session.nodes@;
    &&& has_id(nodes, route.source_node_id@)
    &&& has_id(nodes, route.target_node_id@)
    &&& has_id(find_id(nodes, route.source_node_id@).ports@, route.source_port_id@)
    &&& has_id(find_id(nodes, route.target_node_id@).ports@, route.target_port_id@)
    &&& {
        let out = find_id(find_id(nodes, route.source_node_id@).ports@, route.source_port_id@);
        let inp = find_id(find_id(nodes, route.target_node_id@).ports@, route.target_port_id@);
        &&& out.direction == PortDirection::Output
        &&& inp.direction == PortDirection::Input
        &&& out.signal_type == inp.signal_type
    }
}

/// A route passes validation only when it joins an output to an input of
/// the same signal type on two existing, distinct nodes and closes no
/// cycle; a route whose two ports, otherwise in order, carry different
/// kinds of signal is refused for that; and adding a route goes through
/// only under the same conditions.
pub proof fn lemma_valid_route_matches_signals(session: SessionDocument, route: Route)
    ensures
        route_check(session, route) is Ok ==> {
            &&& endpoints_match(session, route)
            &&& route.source_node_id@ != route.target_node_id@
            &&& !reachable(session.routes@, route.target_node_id@, route.source_node_id@)
        },
        graph_edit_error(session, GraphEditCommand::AddRoute { route }) is None ==> {
            &&& !has_id(session.routes@, route.id@)
            &&& endpoints_match(session, route)
            &&& route.source_node_id@ != route.target_node_id@
            &&& !reachable(session.routes@, route.target_node_id@, route.source_node_id@)
        },
        ({
            let nodes = session.nodes@;
            has_id(nodes, route.source_node_id@) && has_id(nodes, route.target_node_id@) && has_id(
                find_id(nodes, route.source_node_id@).ports@,
                route.source_port_id@,
            ) && has_id(find_id(nodes, route.target_node_id@).ports@, route.target_port_id@) && find_id(
                find_id(nodes, route.source_node_id@).ports@,
                route.source_port_id@,
            ).direction == PortDirection::Output && find_id(
                find_id(nodes, route.target_node_id@).ports@,
                route.target_port_id@,
            ).direction == PortDirection::Input && find_id(
                find_id(nodes, route.source_node_id@).ports@,
                route.source_port_id@,
            ).signal_type != find_id(find_id(nodes, route.target_node_id@).ports@, route.target_port_id@).signal_type
        }) ==> route_check(session, route) == Err::<(), GraphEditError>(
            GraphEditError::InvalidSignalType { route_id: route.id },
        ),
{
}

/// Checks that `route` joins an output port to an input port of the same
/// signal type on two existing nodes without closing a cycle.
pub fn validate_route(session: &SessionDocument, route: &Route) -> (r: Result<(), GraphEditError>)
    ensures
        r == route_check(*session, *route),
{
    let si = match find_by_id(&session.nodes, &route.source_node_id) {
        Some(i) => i,
        None => {
            return Err(GraphEditError::MissingNode { node_id: route.source_node_id.clone() });
        },
    };
    let ti = match find_by_id(&session.nodes, &route.target_node_id) {
        Some(i) => i,
        None => {
            return Err(GraphEditError::MissingNode { node_id: route.target_node_id.clone() });
        },
    };
    let source = &session.nodes[si];
    let target = &session.nodes[ti];
    let spi = match find_by_id(&source.ports, &route.source_port_id) {
        Some(i) => i,
        None => {
            return Err(
                GraphEditError::MissingPort {
                    node_id: source.id.clone(),
                    port_id: route.source_port_id.clone(),
                },
            );
        },
    };
    let tpi = match find_by_id(&target.ports, &route.target_port_id) {
        Some(i) => i,
        None => {
            return Err(
                GraphEditError::MissingPort {
                    node_id: target.id.clone(),
                    port_id: route.target_port_id.clone(),
                },
            );
        },
    };
    let source_port = &source.ports[spi];
    let target_port = &target.ports[tpi];
    if source_port.direction != PortDirection::Output || target_port.direction
        != PortDirection::Input {
        return Err(GraphEditError::InvalidRouteDirection { route_id: route.id.clone() });
    }
    if source_port.signal_type != target_port.signal_type {
        return Err(GraphEditError::InvalidSignalType { route_id: route.id.clone() });
    }
    if route.source_node_id.eq(&route.target_node_id) || path_exists(
        &session.routes,
        &route.target_node_id,
        &route.source_node_id,
    ) {
        return Err(GraphEditError::UnsupportedCycle { route_id: route.id.clone() });
    }
    Ok(())
}


// ---------------------------------------------------------------------------
// Edits
// ---------------------------------------------------------------------------

impl SortKey for Node {
    open spec fn key_le(&self, other: &Self) -> bool {
        seq_le(self.id@, other.id@)
    }

    fn le(&self, other: &Self) -> (r: bool) {
        str_le(self.id.as_str(), other.id.as_str())
    }
}

impl SortKey for Route {
    open spec fn key_le(&self, other: &Self) -> bool {
        seq_le(self.id@, other.id@)
    }

    fn le(&self, other: &Self) -> (r: bool) {
        str_le(self.id.as_str(), other.id.as_str())
    }
}

/// Records whose identifier differs from `id`.
pub open spec fn id_differs<T: HasId>(id: Seq<char>) -> spec_fn(T) -> bool {
    |x: T| x.id_view() != id
}

/// Routes that neither start nor end at node `node_id`.
pub open spec fn route_avoids(node_id: Seq<char>) -> spec_fn(Route) -> bool {
    |r: Route| r.source_node_id@ != node_id && r.target_node_id@ != node_id
}

/// Keeps the records whose identifier differs from `id` (`retain`).
pub fn retain_other_ids<T: HasId>(v: Vec<T>, id: &String) -> (r: Vec<T>)
    ensures
        r@ == v@.filter(id_differs::<T>(id@)),
{
    let ghost orig = v@;
    assert(orig.len() == v.len());
    let mut rest = v;
    let mut out: Vec<T> = Vec::new();
    let mut k: usize = 0;
    assert(orig.take(0).filter(id_differs::<T>(id@)) =~= Seq::<T>::empty());
    assert(orig.skip(0) =~= orig);
    while rest.len() > 0
        invariant
            k + rest@.len() == orig.len(),
            orig.len() <= usize::MAX,
            rest@ == orig.skip(k as int),
            out@ == orig.take(k as int).filter(id_differs::<T>(id@)),
        decreases rest.len(),
    {
        let x = rest.remove(0);
        proof {
            assert(orig.take(k as int + 1) =~= orig.take(k as int).push(x));
            orig.take(k as int).lemma_filter_push(x, id_differs::<T>(id@));
        }
        if !x.id_ref().eq(id) {
            out.push(x);
        }
        k = k + 1;
        assert(rest@ =~= orig.skip(k as int));
    }
    assert(orig.take(k as int) =~= orig);
    out
}

/// Keeps the routes that neither start nor end at `node_id`.
pub fn retain_routes_avoiding(v: Vec<Route>, node_id: &String) -> (r: Vec<Route>)
    ensures
        r@ == v@.filter(route_avoids(node_id@)),
{
    let ghost orig = v@;
    assert(orig.len() == v.len());
    let mut rest = v;
    let mut out: Vec<Route> = Vec::new();
    let mut k: usize = 0;
    assert(orig.take(0).filter(route_avoids(node_id@)) =~= Seq::<Route>::empty());
    assert(orig.skip(0) =~= orig);
    while rest.len() > 0
        invariant
            k + rest@.len() == orig.len(),
            orig.len() <= usize::MAX,
            rest@ == orig.skip(k as int),
            out@ == orig.take(k as int).filter(route_avoids(node_id@)),
        decreases rest.len(),
    {
        let x = rest.remove(0);
        proof {
            assert(orig.take(k as int + 1) =~= orig.take(k as int).push(x));
            orig.take(k as int).lemma_filter_push(x, route_avoids(node_id@));
        }
        if !x.source_node_id.eq(node_id) && !x.target_node_id.eq(node_id) {
            out.push(x);
        }
        k = k + 1;
        assert(rest@ =~= orig.skip(k as int));
    }
    assert(orig.take(k as int) =~= orig);
    out
}

/// The primitive with its bus target replaced.
pub open spec fn with_bus_target(p: AudioPrimitive, bus: Option<String>) -> AudioPrimitive {
    match p {
        AudioPrimitive::Source(n) => AudioPrimitive::Source(AudioSourceNode { bus_target_id: bus, ..n }),
        AudioPrimitive::Effect(n) => AudioPrimitive::Effect(AudioEffectNode { bus_target_id: bus, ..n }),
        AudioPrimitive::Mixer(n) => AudioPrimitive::Mixer(AudioMixerNode { bus_target_id: bus, ..n }),
        AudioPrimitive::Output(n) => AudioPrimitive::Output(AudioOutputNode { bus_target_id: bus, ..n }),
    }
}

fn set_bus_target(p: AudioPrimitive, bus: Option<String>) -> (r: AudioPrimitive)
    ensures
        r == with_bus_target(p, bus),
{
    match p {
        AudioPrimitive::Source(n) => AudioPrimitive::Source(AudioSourceNode { bus_target_id: bus, ..n }),
        AudioPrimitive::Effect(n) => AudioPrimitive::Effect(AudioEffectNode { bus_target_id: bus, ..n }),
        AudioPrimitive::Mixer(n) => AudioPrimitive::Mixer(AudioMixerNode { bus_target_id: bus, ..n }),
        AudioPrimitive::Output(n) => AudioPrimitive::Output(AudioOutputNode { bus_target_id: bus, ..n }),
    }
}

/// The error a graph edit ends with, if any (the session is then unchanged).
pub open spec fn graph_edit_error(s: SessionDocument, cmd: GraphEditCommand) -> Option<GraphEditError> {
    match cmd {
        GraphEditCommand::AddNode { node } => if has_id(s.nodes@, node.id@) {
            Some(GraphEditError::DuplicateNode { node_id: node.id })
        } else {
            None
        },
        GraphEditCommand::RemoveNode { node_id } => if !has_id(s.nodes@, node_id@) {
            Some(GraphEditError::MissingNode { node_id })
        } else {
            None
        },
        GraphEditCommand::SetNodeEnabled { node_id, enabled } => if !has_id(s.nodes@, node_id@) {
            Some(GraphEditError::MissingNode { node_id })
        } else {
            None
        },
        GraphEditCommand::SetParameterValue { node_id, parameter_id, value } => if !has_id(
            s.nodes@,
            node_id@,
        ) {
            Some(GraphEditError::MissingNode { node_id })
        } else {
            let node = find_id(s.nodes@, node_id@);
            if !has_id(node.parameters@, parameter_id@) {
                Some(GraphEditError::MissingParameter { node_id, parameter_id })
            } else {
                let p = find_id(node.parameters@, parameter_id@);
                if spec_lt(value, p.min_value) || spec_lt(p.max_value, value) {
                    Some(
                        GraphEditError::ParameterOutOfRange {
                            node_id,
                            parameter_id,
                            min: p.min_value,
                            max: p.max_value,
                        },
                    )
                } else {
                    None
                }
            }
        },
        GraphEditCommand::AddRoute { route } => if has_id(s.routes@, route.id@) {
            Some(GraphEditError::DuplicateRoute { route_id: route.id })
        } else {
            match route_check(s, route) {
                Err(e) => Some(e),
                Ok(_) => None,
            }
        },
        GraphEditCommand::RemoveRoute { route_id } => if !has_id(s.routes@, route_id@) {
            Some(GraphEditError::MissingRoute { route_id })
        } else {
            None
        },
        GraphEditCommand::AssignNodeToBus { node_id, bus_id } => if !has_id(s.buses@, bus_id@) {
            Some(GraphEditError::MissingBus { bus_id })
        } else if !has_id(s.nodes@, node_id@) {
            Some(GraphEditError::MissingNode { node_id })
        } else if find_id(s.nodes@, node_id@).audio_primitive is None {
            Some(GraphEditError::MissingAudioPrimitive { node_id })
        } else {
            None
        },
        GraphEditCommand::ClearNodeBusAssignment { node_id } => if !has_id(s.nodes@, node_id@) {
            Some(GraphEditError::MissingNode { node_id })
        } else if find_id(s.nodes@, node_id@).audio_primitive is None {
            Some(GraphEditError::MissingAudioPrimitive { node_id })
        } else {
            None
        },
    }
}

/// `b` is `a` with the node at position `i` replaced by `n` (and nothing
/// else changed).
pub open spec fn replaces_node(a: Seq<Node>, b: Seq<Node>, i: int, n: Node) -> bool {
    b == a.update(i, n)
}

/// The session a successful graph edit leaves: only `nodes` and `routes`
/// change, as each command describes.
pub open spec fn graph_edit_post(s: SessionDocument, t: SessionDocument, cmd: GraphEditCommand) -> bool {
    &&& t == SessionDocument { nodes: t.nodes, routes: t.routes, ..s }
    &&& match cmd {
        GraphEditCommand::AddNode { node } => {
            &&& t.nodes@ == sorted_by_key(s.nodes@.push(node))
            &&& t.routes@ == s.routes@
        },
        GraphEditCommand::RemoveNode { node_id } => {
            &&& t.nodes@ == s.nodes@.filter(id_differs::<Node>(node_id@))
            &&& t.routes@ == s.routes@.filter(route_avoids(node_id@))
        },
        GraphEditCommand::SetNodeEnabled { node_id, enabled } => {
            let i = first_id(s.nodes@, node_id@);
            &&& replaces_node(s.nodes@, t.nodes@, i, Node { enabled, ..s.nodes@[i] })
            &&& t.routes@ == s.routes@
        },
        GraphEditCommand::SetParameterValue { node_id, parameter_id, value } => {
            let i = first_id(s.nodes@, node_id@);
            let n = s.nodes@[i];
            let j = first_id(n.parameters@, parameter_id@);
            let m = t.nodes@[i];
            &&& replaces_node(s.nodes@, t.nodes@, i, m)
            &&& m == Node { parameters: m.parameters, ..n }
            &&& m.parameters@ == n.parameters@.update(
                j,
                ParameterValue { value, ..n.parameters@[j] },
            )
            &&& t.routes@ == s.routes@
        },
        GraphEditCommand::AddRoute { route } => {
            &&& t.nodes@ == s.nodes@
            &&& t.routes@ == sorted_by_key(s.routes@.push(route))
        },
        GraphEditCommand::RemoveRoute { route_id } => {
            &&& t.nodes@ == s.nodes@
            &&& t.routes@ == s.routes@.filter(id_differs::<Route>(route_id@))
        },
        GraphEditCommand::AssignNodeToBus { node_id, bus_id } => {
            let i = first_id(s.nodes@, node_id@);
            let n = s.nodes@[i];
            &&& replaces_node(
                s.nodes@,
                t.nodes@,
                i,
                Node {
                    audio_primitive: Some(with_bus_target(n.audio_primitive->0, Some(bus_id))),
                    ..n
                },
            )
            &&& t.routes@ == s.routes@
        },
        GraphEditCommand::ClearNodeBusAssignment { node_id } => {
            let i = first_id(s.nodes@, node_id@);
            let n = s.nodes@[i];
            &&& replaces_node(
                s.nodes@,
                t.nodes@,
                i,
                Node { audio_primitive: Some(with_bus_target(n.audio_primitive->0, None)), ..n },
            )
            &&& t.routes@ == s.routes@
        },
    }
}

/// What a graph edit promises: on failure the error `graph_edit_error` names
/// and the session untouched, on success the change `graph_edit_post` names.
pub open spec fn graph_edit_outcome(
    s: SessionDocument,
    t: SessionDocument,
    cmd: GraphEditCommand,
    r: Result<(), GraphEditError>,
) -> bool {
    match graph_edit_error(s, cmd) {
        Some(e) => r == Err::<(), GraphEditError>(e) && t == s,
        None => r is Ok && graph_edit_post(s, t, cmd),
    }
}

fn add_node(session: &mut SessionDocument, node: Node) -> (r: Result<(), GraphEditError>)
    ensures
        graph_edit_outcome(*old(session), *final(session), GraphEditCommand::AddNode { node }, r),
{
    if contains_id(&session.nodes, &node.id) {
        return Err(GraphEditError::DuplicateNode { node_id: node.id.clone() });
    }
    let mut nodes: Vec<Node> = Vec::new();
    std::mem::swap(&mut nodes, &mut session.nodes);
    nodes.push(node);
    session.nodes = sort_by_key(nodes);
    Ok(())
}

fn remove_node(session: &mut SessionDocument, node_id: String) -> (r: Result<(), GraphEditError>)
    ensures
        graph_edit_outcome(*old(session), *final(session), GraphEditCommand::RemoveNode { node_id }, r),
{
    if !contains_id(&session.nodes, &node_id) {
        return Err(GraphEditError::MissingNode { node_id: node_id });
    }
    let mut nodes: Vec<Node> = Vec::new();
    std::mem::swap(&mut nodes, &mut session.nodes);
    session.nodes = retain_other_ids(nodes, &node_id);
    let mut routes: Vec<Route> = Vec::new();
    std::mem::swap(&mut routes, &mut session.routes);
    session.routes = retain_routes_avoiding(routes, &node_id);
    Ok(())
}

fn set_node_enabled(session: &mut SessionDocument, node_id: String, enabled: bool) -> (r: Result<
    (),
    GraphEditError,
>)
    ensures
        graph_edit_outcome(
            *old(session),
            *final(session),
            GraphEditCommand::SetNodeEnabled { node_id, enabled },
            r,
        ),
{
    match find_by_id(&session.nodes, &node_id) {
        None => Err(GraphEditError::MissingNode { node_id: node_id }),
        Some(i) => {
            let mut nodes: Vec<Node> = Vec::new();
            std::mem::swap(&mut nodes, &mut session.nodes);
            nodes[i].enabled = enabled;
            session.nodes = nodes;
            Ok(())
        },
    }
}

fn set_parameter_value(
    session: &mut SessionDocument,
    node_id: String,
    parameter_id: String,
    value: u64,
) -> (r: Result<(), GraphEditError>)
    ensures
        graph_edit_outcome(
            *old(session),
            *final(session),
            GraphEditCommand::SetParameterValue { node_id, parameter_id, value },
            r,
        ),
{
    let i = match find_by_id(&session.nodes, &node_id) {
        None => {
            return Err(GraphEditError::MissingNode { node_id: node_id });
        },
        Some(i) => i,
    };
    let j = match find_by_id(&session.nodes[i].parameters, &parameter_id) {
        None => {
            return Err(GraphEditError::MissingParameter { node_id: node_id, parameter_id: parameter_id });
        },
        Some(j) => j,
    };
    let min = session.nodes[i].parameters[j].min_value;
    let max = session.nodes[i].parameters[j].max_value;
    if f64_lt(value, min) || f64_lt(max, value) {
        return Err(
            GraphEditError::ParameterOutOfRange {
                node_id: node_id,
                parameter_id: parameter_id,
                min,
                max,
            },
        );
    }
    let ghost n = session.nodes@[i as int];
    let mut nodes: Vec<Node> = Vec::new();
    std::mem::swap(&mut nodes, &mut session.nodes);
    let ghost orig = nodes@;
    let mut params: Vec<ParameterValue> = Vec::new();
    std::mem::swap(&mut params, &mut nodes[i].parameters);
    let ghost orig_params = params@;
    params[j].value = value;
    assert(params@ =~= orig_params.update(j as int, ParameterValue { value, ..orig_params[j as int] }));
    nodes[i].parameters = params;
    assert(nodes@[i as int] == Node { parameters: nodes@[i as int].parameters, ..n });
    assert(nodes@ =~= orig.update(i as int, nodes@[i as int]));
    session.nodes = nodes;
    Ok(())
}

fn add_route(session: &mut SessionDocument, route: Route) -> (r: Result<(), GraphEditError>)
    ensures
        graph_edit_outcome(*old(session), *final(session), GraphEditCommand::AddRoute { route }, r),
{
    if contains_id(&session.routes, &route.id) {
        return Err(GraphEditError::DuplicateRoute { route_id: route.id.clone() });
    }
    match validate_route(session, &route) {
        Err(e) => {
            return Err(e);
        },
        Ok(()) => {},
    }
    let mut routes: Vec<Route> = Vec::new();
    std::mem::swap(&mut routes, &mut session.routes);
    routes.push(route);
    session.routes = sort_by_key(routes);
    Ok(())
}

fn remove_route(session: &mut SessionDocument, route_id: String) -> (r: Result<(), GraphEditError>)
    ensures
        graph_edit_outcome(*old(session), *final(session), GraphEditCommand::RemoveRoute { route_id }, r),
{
    if !contains_id(&session.routes, &route_id) {
        return Err(GraphEditError::MissingRoute { route_id: route_id });
    }
    let mut routes: Vec<Route> = Vec::new();
    std::mem::swap(&mut routes, &mut session.routes);
    session.routes = retain_other_ids(routes, &route_id);
    Ok(())
}

fn set_node_bus(session: &mut SessionDocument, node_id: String, bus: Option<String>) -> (r: Result<
    (),
    GraphEditError,
>)
    ensures
        !has_id(old(session).nodes@, node_id@) ==> r == Err::<(), GraphEditError>(
            GraphEditError::MissingNode { node_id },
        ) && *final(session) == *old(session),
        has_id(old(session).nodes@, node_id@) && find_id(old(session).nodes@, node_id@).audio_primitive is None
            ==> r == Err::<(), GraphEditError>(GraphEditError::MissingAudioPrimitive { node_id })
            && *final(session) == *old(session),
        has_id(old(session).nodes@, node_id@) && find_id(old(session).nodes@, node_id@).audio_primitive is Some
            ==> r is Ok && {
            let s = *old(session);
            let t = *final(session);
            let i = first_id(s.nodes@, node_id@);
            let n = s.nodes@[i];
            &&& t == SessionDocument { nodes: t.nodes, ..s }
            &&& replaces_node(
                s.nodes@,
                t.nodes@,
                i,
                Node { audio_primitive: Some(with_bus_target(n.audio_primitive->0, bus)), ..n },
            )
        },
{
    let i = match find_by_id(&session.nodes, &node_id) {
        None => {
            return Err(GraphEditError::MissingNode { node_id: node_id });
        },
        Some(i) => i,
    };
    if session.nodes[i].audio_primitive.is_none() {
        return Err(GraphEditError::MissingAudioPrimitive { node_id: node_id });
    }
    let ghost n = session.nodes@[i as int];
    let mut nodes: Vec<Node> = Vec::new();
    std::mem::swap(&mut nodes, &mut session.nodes);
    let ghost orig = nodes@;
    let p = nodes[i].audio_primitive.take();
    match p {
        Some(p) => {
            nodes[i].audio_primitive = Some(set_bus_target(p, bus));
        },
        None => {},
    }
    assert(nodes@[i as int] == Node { audio_primitive: Some(with_bus_target(n.audio_primitive->0, bus)), ..n });
    assert(nodes@ =~= orig.update(i as int, nodes@[i as int]));
    session.nodes = nodes;
    Ok(())
}

fn assign_node_to_bus(session: &mut SessionDocument, node_id: String, bus_id: String) -> (r: Result<
    (),
    GraphEditError,
>)
    ensures
        graph_edit_outcome(
            *old(session),
            *final(session),
            GraphEditCommand::AssignNodeToBus { node_id, bus_id },
            r,
        ),
{
    if !contains_id(&session.buses, &bus_id) {
        return Err(GraphEditError::MissingBus { bus_id: bus_id });
    }
    set_node_bus(session, node_id, Some(bus_id))
}

fn clear_node_bus_assignment(session: &mut SessionDocument, node_id: String) -> (r: Result<
    (),
    GraphEditError,
>)
    ensures
        graph_edit_outcome(
            *old(session),
            *final(session),
            GraphEditCommand::ClearNodeBusAssignment { node_id },
            r,
        ),
{
    set_node_bus(session, node_id, None)
}

/// Applies one bounded graph edit to `session`. On success the session is
/// changed as `graph_edit_post` states; on failure it is left as it was.
pub fn apply_graph_edit_to_session(session: &mut SessionDocument, command: GraphEditCommand) -> (r:
    Result<(), GraphEditError>)
    ensures
        graph_edit_outcome(*old(session), *final(session), command, r),
{
    match command {
        GraphEditCommand::AddNode { node } => add_node(session, node),
        GraphEditCommand::RemoveNode { node_id } => remove_node(session, node_id),
        GraphEditCommand::SetNodeEnabled { node_id, enabled } => set_node_enabled(
            session,
            node_id,
            enabled,
        ),
        GraphEditCommand::SetParameterValue { node_id, parameter_id, value } => set_parameter_value(
            session,
            node_id,
            parameter_id,
            value,
        ),
        GraphEditCommand::AddRoute { route } => add_route(session, route),
        GraphEditCommand::RemoveRoute { route_id } => remove_route(session, route_id),
        GraphEditCommand::AssignNodeToBus { node_id, bus_id } => assign_node_to_bus(
            session,
            node_id,
            bus_id,
        ),
        GraphEditCommand::ClearNodeBusAssignment { node_id } => clear_node_bus_assignment(
            session,
            node_id,
        ),
    }
}

/// Applies one graph edit to the store's current session, all or nothing,
/// and returns the session it leaves.
pub fn apply_graph_edit(store: &mut SessionStore, command: GraphEditCommand) -> (r: Result<
    SessionDocument,
    GraphEditError,
>)
    ensures
        graph_edit_outcome(
            old(store).session(),
            final(store).session(),
            command,
            match r {
                Ok(_) => Ok(()),
                Err(e) => Err(e),
            },
        ),
        r matches Ok(doc) ==> doc.same(&final(store).session()),
        final(store).settings() == old(store).settings(),
        final(store).status() == old(store).status(),
        final(store).learn() == old(store).learn(),
{
    let result = apply_graph_edit_to_session(store.current_mut(), command);
    match result {
        Ok(()) => Ok(store.current()),
        Err(e) => Err(e),
    }
}

} // verus!

//! Compiling the canonical session graph into an audio topology: the enabled
//! buses with their channel offsets, the enabled nodes in a deterministic
//! topological launch order, and the direct modulation (CV) routes.
use vstd::prelude::*;
use crate::catalog::{catalog_view, entry_exists, find_catalog_entry, is_first_entry};
use crate::domain::{
    AudioBusType, AudioPrimitive, Bus, Node, OutputKind, ParameterValue, Port, Route,
    SessionDocument, SignalType,
};
use crate::hardware::{blank, is_blank};
use crate::lookup::{find_by_id, find_id, has_id};
use crate::ordering::{
    lemma_seq_le_antisymmetric, lemma_seq_le_reflexive, lemma_seq_le_total,
    lemma_seq_le_transitive, insert_sorted, seq_le, seq_lt, sort_by_key, sorted_by_key, str_le,
    SortKey,
};

verus! {

/// The audio topology compiled from a session.
#[derive(Debug, PartialEq)]
pub struct CompiledTopology {
    pub buses: Vec<CompiledBus>,
    pub group_order: Vec<CompiledGroup>,
    pub node_launch_order: Vec<CompiledNodeLaunch>,
    /// Direct port-to-port modulation routes (no audio bus).
    pub cv_routes: Vec<CompiledCvRoute>,
}

/// A modulation route compiled for CV-bus allocation.
#[derive(Debug, PartialEq)]
pub struct CompiledCvRoute {
    pub route_id: String,
    pub source_node_id: String,
    pub source_port_id: String,
    pub target_node_id: String,
    pub target_port_id: String,
    pub signal_type: SignalType,
}

#[derive(Debug, PartialEq)]
pub struct CompiledBus {
    pub bus_id: String,
    pub index: u32,
    pub channels: u32,
    pub bus_type: AudioBusType,
}

#[derive(Debug, PartialEq)]
pub struct CompiledGroup {
    pub group_id: String,
    pub node_ids: Vec<String>,
}

/// A node's catalog identity plus the per-node configuration the catalog
/// does not own (bypass, output routing, channel count).
#[derive(Debug, PartialEq)]
pub struct CompiledNodeLaunch {
    pub node_id: String,
    pub node_type_id: String,
    pub runtime_target: String,
    pub bypassed: bool,
    pub output_kind: Option<OutputKind>,
    pub channel_count: u32,
    pub group_id: String,
    pub input_bus_ids: Vec<String>,
    pub output_bus_id: Option<String>,
    pub parameters: Vec<CompiledParameter>,
}

/// A parameter value at launch; `value` is an `f64` bit pattern.
#[derive(Debug, PartialEq)]
pub struct CompiledParameter {
    pub parameter_id: String,
    pub name: String,
    pub value: u64,
}

#[derive(Debug, PartialEq)]
pub enum TopologyCompileError {
    MissingNodeTypeId { node_id: String },
    MissingRuntimeTarget { node_id: String },
    UnknownBusReference { node_id: String, bus_id: String },
    UnknownRouteBus { route_id: String, bus_id: String },
    UnknownNodeReference { route_id: String, node_id: String },
    UnknownPortReference { route_id: String, node_id: String, port_id: String },
    DisabledNodeRoute { route_id: String, node_id: String },
    /// `source_type` and `target_type` are `"audio"` or `"control"`.
    PortSignalTypeMismatch { route_id: String, source_type: String, target_type: String },
    CyclicGraph,
}

/// A compile error as plain values.
pub enum TopologyErrorView {
    MissingNodeTypeId { node_id: Seq<char> },
    MissingRuntimeTarget { node_id: Seq<char> },
    UnknownBusReference { node_id: Seq<char>, bus_id: Seq<char> },
    UnknownRouteBus { route_id: Seq<char>, bus_id: Seq<char> },
    UnknownNodeReference { route_id: Seq<char>, node_id: Seq<char> },
    UnknownPortReference { route_id: Seq<char>, node_id: Seq<char>, port_id: Seq<char> },
    DisabledNodeRoute { route_id: Seq<char>, node_id: Seq<char> },
    PortSignalTypeMismatch { route_id: Seq<char>, source_type: Seq<char>, target_type: Seq<char> },
    CyclicGraph,
}

impl View for TopologyCompileError {
    type V = TopologyErrorView;

    open spec fn view(&self) -> TopologyErrorView {
        match *self {
            TopologyCompileError::MissingNodeTypeId { node_id } =>
                TopologyErrorView::MissingNodeTypeId { node_id: node_id@ },
            TopologyCompileError::MissingRuntimeTarget { node_id } =>
                TopologyErrorView::MissingRuntimeTarget { node_id: node_id@ },
            TopologyCompileError::UnknownBusReference { node_id, bus_id } =>
                TopologyErrorView::UnknownBusReference { node_id: node_id@, bus_id: bus_id@ },
            TopologyCompileError::UnknownRouteBus { route_id, bus_id } =>
                TopologyErrorView::UnknownRouteBus { route_id: route_id@, bus_id: bus_id@ },
            TopologyCompileError::UnknownNodeReference { route_id, node_id } =>
                TopologyErrorView::UnknownNodeReference { route_id: route_id@, node_id: node_id@ },
            TopologyCompileError::UnknownPortReference { route_id, node_id, port_id } =>
                TopologyErrorView::UnknownPortReference {
                    route_id: route_id@,
                    node_id: node_id@,
                    port_id: port_id@,
                },
            TopologyCompileError::DisabledNodeRoute { route_id, node_id } =>
                TopologyErrorView::DisabledNodeRoute { route_id: route_id@, node_id: node_id@ },
            TopologyCompileError::PortSignalTypeMismatch { route_id, source_type, target_type } =>
                TopologyErrorView::PortSignalTypeMismatch {
                    route_id: route_id@,
                    source_type: source_type@,
                    target_type: target_type@,
                },
            TopologyCompileError::CyclicGraph => TopologyErrorView::CyclicGraph,
        }
    }
}

fn concat(parts: &[&str]) -> (r: String)
    ensures
        r@ == concat_spec(parts@.map_values(|p: &str| p@)),
{
    let mut s = String::new();
    let mut i: usize = 0;
    while i < parts.len()
        invariant
            i <= parts@.len(),
            s@ == concat_spec(parts@.map_values(|p: &str| p@).take(i as int)),
        decreases parts.len() - i,
    {
        assert(parts@.map_values(|p: &str| p@).take(i as int + 1).drop_last()
            =~= parts@.map_values(|p: &str| p@).take(i as int));
        s.append(parts[i]);
        i = i + 1;
    }
    assert(parts@.map_values(|p: &str| p@).take(i as int) =~= parts@.map_values(|p: &str| p@));
    s
}

/// The pieces joined in order.
pub open spec fn concat_spec(parts: Seq<Seq<char>>) -> Seq<char>
    decreases parts.len(),
{
    if parts.len() == 0 {
        Seq::empty()
    } else {
        concat_spec(parts.drop_last()) + parts.last()
    }
}

/// The text shown for a compile error.
pub open spec fn compile_error_text(e: TopologyErrorView) -> Seq<char> {
    match e {
        TopologyErrorView::MissingNodeTypeId { node_id } => "node `"@ + node_id
            + "` is missing a node_type_id"@,
        TopologyErrorView::MissingRuntimeTarget { node_id } => "node `"@ + node_id
            + "` is missing a runtime target"@,
        TopologyErrorView::UnknownBusReference { node_id, bus_id } => "node `"@ + node_id
            + "` references unknown bus `"@ + bus_id + "`"@,
        TopologyErrorView::UnknownRouteBus { route_id, bus_id } => "route `"@ + route_id
            + "` references unknown bus `"@ + bus_id + "`"@,
        TopologyErrorView::UnknownNodeReference { route_id, node_id } => "route `"@
            + route_id + "` references unknown node `"@ + node_id + "`"@,
        TopologyErrorView::UnknownPortReference { route_id, node_id, port_id } =>
            "route `"@ + route_id + "` references unknown port `"@ + port_id
            + "` on node `"@ + node_id + "`"@,
        TopologyErrorView::DisabledNodeRoute { route_id, node_id } => "route `"@
            + route_id + "` connects disabled node `"@ + node_id + "`"@,
        TopologyErrorView::PortSignalTypeMismatch { route_id, source_type, target_type } =>
            "route `"@ + route_id + "` has a port signal-type mismatch: source `"@
            + source_type + "` vs target `"@ + target_type + "`"@,
        TopologyErrorView::CyclicGraph =>
            "canonical audio graph contains a cycle or unresolved dependency"@,
    }
}

impl TopologyCompileError {
    /// The text shown for this error.
    pub fn message(&self) -> (r: String)
        ensures
            r@ == compile_error_text(self@),
    {
        let r = match self {
            TopologyCompileError::MissingNodeTypeId { node_id } =>
                concat(&["node `", node_id.as_str(), "` is missing a node_type_id"]),
            TopologyCompileError::MissingRuntimeTarget { node_id } =>
                concat(&["node `", node_id.as_str(), "` is missing a runtime target"]),
            TopologyCompileError::UnknownBusReference { node_id, bus_id } =>
                concat(&["node `", node_id.as_str(), "` references unknown bus `", bus_id.as_str(), "`"]),
            TopologyCompileError::UnknownRouteBus { route_id, bus_id } =>
                concat(&["route `", route_id.as_str(), "` references unknown bus `", bus_id.as_str(), "`"]),
            TopologyCompileError::UnknownNodeReference { route_id, node_id } =>
                concat(&["route `", route_id.as_str(), "` references unknown node `", node_id.as_str(), "`"]),
            TopologyCompileError::UnknownPortReference { route_id, node_id, port_id } =>
                concat(&["route `", route_id.as_str(), "` references unknown port `", port_id.as_str(),
                    "` on node `", node_id.as_str(), "`"]),
            TopologyCompileError::DisabledNodeRoute { route_id, node_id } =>
                concat(&["route `", route_id.as_str(), "` connects disabled node `", node_id.as_str(), "`"]),
            TopologyCompileError::PortSignalTypeMismatch { route_id, source_type, target_type } =>
                concat(&["route `", route_id.as_str(), "` has a port signal-type mismatch: source `",
                    source_type.as_str(), "` vs target `", target_type.as_str(), "`"]),
            TopologyCompileError::CyclicGraph =>
                concat(&["canonical audio graph contains a cycle or unresolved dependency"]),
        };
        proof {
            reveal_with_fuel(concat_spec, 8);
        }
        r
    }
}

// ---------------------------------------------------------------------------
// Buses
// ---------------------------------------------------------------------------

/// Main buses first, then cue, then auxiliary.
pub open spec fn bus_rank(t: AudioBusType) -> u8 {
    match t {
        AudioBusType::Main => 0,
        AudioBusType::Cue => 1,
        AudioBusType::Auxiliary => 2,
    }
}

fn bus_type_rank(t: AudioBusType) -> (r: u8)
    ensures
        r == bus_rank(t),
{
    match t {
        AudioBusType::Main => 0,
        AudioBusType::Cue => 1,
        AudioBusType::Auxiliary => 2,
    }
}

/// Buses are laid out by kind rank, then by id.
impl SortKey for Bus {
    open spec fn key_le(&self, other: &Self) -> bool {
        bus_rank(self.bus_type) < bus_rank(other.bus_type) || (bus_rank(self.bus_type) == bus_rank(
            other.bus_type,
        ) && seq_le(self.id@, other.id@))
    }

    fn le(&self, other: &Self) -> (r: bool) {
        let a = bus_type_rank(self.bus_type);
        let b = bus_type_rank(other.bus_type);
        a < b || (a == b && str_le(self.id.as_str(), other.id.as_str()))
    }
}

/// The enabled buses, in session order.
pub open spec fn enabled_buses(s: Seq<Bus>) -> Seq<Bus>
    decreases s.len(),
{
    if s.len() == 0 {
        s
    } else if s.last().is_enabled {
        enabled_buses(s.drop_last()).push(s.last())
    } else {
        enabled_buses(s.drop_last())
    }
}

/// The enabled buses in layout order.
pub open spec fn bus_order(s: Seq<Bus>) -> Seq<Bus> {
    sorted_by_key(enabled_buses(s))
}

/// Total channel count.
pub open spec fn channel_sum(s: Seq<Bus>) -> int
    decreases s.len(),
{
    if s.len() == 0 {
        0
    } else {
        channel_sum(s.drop_last()) + s.last().channels
    }
}

/// `r` lays out `order` back to back: each bus starts where the channels
/// of the buses before it end.
pub open spec fn is_bus_layout(r: Seq<CompiledBus>, order: Seq<Bus>) -> bool {
    &&& r.len() == order.len()
    &&& forall|i: int|
        0 <= i < r.len() ==> {
            &&& (#[trigger] r[i]).bus_id@ == order[i].id@
            &&& r[i].index == channel_sum(order.take(i))
            &&& r[i].channels == order[i].channels
            &&& r[i].bus_type == order[i].bus_type
        }
}

proof fn lemma_channel_sum_insert(s: Seq<Bus>, x: Bus)
    ensures
        channel_sum(insert_sorted(s, x)) == channel_sum(s) + x.channels,
    decreases s.len(),
{
    if s.len() > 0 && !s.last().key_le(&x) {
        lemma_channel_sum_insert(s.drop_last(), x);
        assert(insert_sorted(s, x).drop_last() =~= insert_sorted(s.drop_last(), x));
    } else if s.len() > 0 {
        assert(s.push(x).drop_last() =~= s);
    } else {
        assert(seq![x].drop_last() =~= s);
    }
}

proof fn lemma_channel_sum_sorted(s: Seq<Bus>)
    ensures
        channel_sum(sorted_by_key(s)) == channel_sum(s),
    decreases s.len(),
{
    if s.len() > 0 {
        lemma_channel_sum_sorted(s.drop_last());
        lemma_channel_sum_insert(sorted_by_key(s.drop_last()), s.last());
    }
}

proof fn lemma_channel_sum_prefix(s: Seq<Bus>, i: int)
    requires
        0 <= i <= s.len(),
    ensures
        channel_sum(s.take(i)) <= channel_sum(s),
    decreases s.len() - i,
{
    if i < s.len() {
        lemma_channel_sum_prefix(s, i + 1);
        assert(s.take(i + 1).drop_last() =~= s.take(i));
    } else {
        assert(s.take(i) =~= s);
    }
}

/// Lays out the enabled buses: main, cue, then auxiliary, each kind by id,
/// with running channel offsets.
fn compile_buses(buses: &Vec<Bus>) -> (r: Vec<CompiledBus>)
    requires
        channel_sum(enabled_buses(buses@)) <= u32::MAX,
    ensures
        is_bus_layout(r@, bus_order(buses@)),
{
    let mut enabled: Vec<Bus> = Vec::new();
    let mut i: usize = 0;
    while i < buses.len()
        invariant
            i <= buses@.len(),
            enabled@ == enabled_buses(buses@.take(i as int)),
        decreases buses.len() - i,
    {
        assert(buses@.take(i as int + 1).drop_last() =~= buses@.take(i as int));
        if buses[i].is_enabled {
            enabled.push(buses[i].clone());
        }
        i = i + 1;
    }
    assert(buses@.take(i as int) =~= buses@);
    let ghost total = channel_sum(enabled@);
    let ordered = sort_by_key(enabled);
    proof {
        lemma_channel_sum_sorted(enabled_buses(buses@));
    }
    let mut out: Vec<CompiledBus> = Vec::new();
    let mut next: u32 = 0;
    let mut k: usize = 0;
    while k < ordered.len()
        invariant
            k <= ordered@.len(),
            ordered@ == bus_order(buses@),
            channel_sum(ordered@) <= u32::MAX,
            next == channel_sum(ordered@.take(k as int)),
            out@.len() == k,
            forall|j: int|
                0 <= j < k ==> {
                    &&& (#[trigger] out@[j]).bus_id@ == ordered@[j].id@
                    &&& out@[j].index == channel_sum(ordered@.take(j))
                    &&& out@[j].channels == ordered@[j].channels
                    &&& out@[j].bus_type == ordered@[j].bus_type
                },
        decreases ordered.len() - k,
    {
        proof {
            assert(ordered@.take(k as int + 1).drop_last() =~= ordered@.take(k as int));
            lemma_channel_sum_prefix(ordered@, k as int + 1);
        }
        let b = &ordered[k];
        out.push(CompiledBus { bus_id: b.id.clone(), index: next, channels: b.channels, bus_type: b.bus_type });
        next = next + b.channels;
        k = k + 1;
    }
    out
}


// ---------------------------------------------------------------------------
// Enabled nodes
// ---------------------------------------------------------------------------

/// The bus a node sends its audio to: its audio primitive's bus target.
pub open spec fn node_bus_target(n: Node) -> Option<String> {
    match n.audio_primitive {
        Some(AudioPrimitive::Source(x)) => x.bus_target_id,
        Some(AudioPrimitive::Effect(x)) => x.bus_target_id,
        Some(AudioPrimitive::Mixer(x)) => x.bus_target_id,
        Some(AudioPrimitive::Output(x)) => x.bus_target_id,
        None => None,
    }
}

fn clone_opt_string(o: &Option<String>) -> (r: Option<String>)
    ensures
        r == *o,
{
    match o {
        Some(s) => Some(s.clone()),
        None => None,
    }
}

fn node_bus_target_id(n: &Node) -> (r: Option<String>)
    ensures
        r == node_bus_target(*n),
{
    match &n.audio_primitive {
        Some(AudioPrimitive::Source(x)) => clone_opt_string(&x.bus_target_id),
        Some(AudioPrimitive::Effect(x)) => clone_opt_string(&x.bus_target_id),
        Some(AudioPrimitive::Mixer(x)) => clone_opt_string(&x.bus_target_id),
        Some(AudioPrimitive::Output(x)) => clone_opt_string(&x.bus_target_id),
        None => None,
    }
}

/// No runtime target, or an empty one.
pub open spec fn runtime_target_missing(t: Option<String>) -> bool {
    match t {
        Some(s) => s@.len() == 0,
        None => true,
    }
}

/// What is wrong with an enabled node, if anything: a blank node type id,
/// then a missing runtime target. Disabled nodes are not compiled.
pub open spec fn node_error(n: Node) -> Option<TopologyErrorView> {
    if !n.enabled {
        None
    } else if is_blank(n.node_type_id@) {
        Some(TopologyErrorView::MissingNodeTypeId { node_id: n.id@ })
    } else if runtime_target_missing(n.runtime_target) {
        Some(TopologyErrorView::MissingRuntimeTarget { node_id: n.id@ })
    } else {
        None
    }
}

/// The error of the first node, in session order, that has one.
pub open spec fn first_node_error(s: Seq<Node>) -> Option<TopologyErrorView>
    decreases s.len(),
{
    if s.len() == 0 {
        None
    } else if node_error(s[0]) is Some {
        node_error(s[0])
    } else {
        first_node_error(s.drop_first())
    }
}

/// The enabled nodes by id; of two enabled nodes with one id, the later wins.
pub open spec fn enabled_node_map(s: Seq<Node>) -> Map<Seq<char>, Node>
    decreases s.len(),
{
    if s.len() == 0 {
        Map::empty()
    } else if s.last().enabled {
        enabled_node_map(s.drop_last()).insert(s.last().id@, s.last())
    } else {
        enabled_node_map(s.drop_last())
    }
}

/// `kept` lists positions in `nodes`, one per key of `m`, each holding the
/// node `m` maps its id to.
pub open spec fn indexes_map(nodes: Seq<Node>, kept: Seq<usize>, m: Map<Seq<char>, Node>) -> bool {
    &&& forall|j: int|
        0 <= j < kept.len() ==> {
            &&& (#[trigger] kept[j]) < nodes.len()
            &&& m.dom().contains(nodes[kept[j] as int].id@)
            &&& m[nodes[kept[j] as int].id@] == nodes[kept[j] as int]
        }
    &&& forall|j: int, k: int|
        0 <= j < k < kept.len() ==> nodes[#[trigger] kept[j] as int].id@ != nodes[#[trigger] kept[k] as int].id@
    &&& forall|id: Seq<char>|
        #[trigger] m.dom().contains(id) ==> exists|j: int|
            0 <= j < kept.len() && nodes[#[trigger] kept[j] as int].id@ == id
}

proof fn lemma_node_map_key(s: Seq<Node>, id: Seq<char>)
    requires
        enabled_node_map(s).dom().contains(id),
    ensures
        enabled_node_map(s)[id].id@ == id,
        enabled_node_map(s)[id].enabled,
        exists|k: int| 0 <= k < s.len() && s[k] == enabled_node_map(s)[id],
    decreases s.len(),
{
    if s.len() > 0 {
        if s.last().enabled && s.last().id@ == id {
            assert(s[s.len() - 1] == s.last());
        } else {
            lemma_node_map_key(s.drop_last(), id);
            let k = choose|k: int| 0 <= k < s.drop_last().len() && s.drop_last()[k] == enabled_node_map(s.drop_last())[id];
            assert(s[k] == s.drop_last()[k]);
        }
    }
}

/// Positions of the enabled nodes, one per id (the later of two enabled
/// nodes with one id wins), or the error of the first enabled node whose
/// type id is blank or whose runtime target is missing.
fn enabled_audio_nodes(nodes: &Vec<Node>) -> (r: Result<Vec<usize>, TopologyCompileError>)
    ensures
        match r {
            Ok(kept) => first_node_error(nodes@) is None && indexes_map(nodes@, kept@, enabled_node_map(nodes@)),
            Err(e) => first_node_error(nodes@) == Some(e@),
        },
{
    let mut kept: Vec<usize> = Vec::new();
    let mut i: usize = 0;
    assert(nodes@.skip(0) =~= nodes@);
    while i < nodes.len()
        invariant
            i <= nodes@.len(),
            first_node_error(nodes@) == first_node_error(nodes@.skip(i as int)),
            indexes_map(nodes@, kept@, enabled_node_map(nodes@.take(i as int))),
            forall|j: int| 0 <= j < kept.len() ==> #[trigger] kept@[j] < i,
        decreases nodes.len() - i,
    {
        let ghost before = enabled_node_map(nodes@.take(i as int));
        assert(nodes@.take(i as int + 1).drop_last() =~= nodes@.take(i as int));
        assert(nodes@.take(i as int + 1).last() == nodes@[i as int]);
        assert(nodes@.skip(i as int)[0] == nodes@[i as int]);
        assert(nodes@.skip(i as int).drop_first() =~= nodes@.skip(i as int + 1));
        let n = &nodes[i];
        if n.enabled {
            if blank(n.node_type_id.as_str()) {
                return Err(TopologyCompileError::MissingNodeTypeId { node_id: n.id.clone() });
            }
            let missing = match &n.runtime_target {
                Some(t) => t.as_str().is_empty(),
                None => true,
            };
            if missing {
                return Err(TopologyCompileError::MissingRuntimeTarget { node_id: n.id.clone() });
            }
            let ghost after = before.insert(n.id@, *n);
            let ghost old_kept = kept@;
            let mut j: usize = 0;
            while j < kept.len() && nodes[kept[j]].id != n.id
                invariant
                    i < nodes@.len(),
                    n == nodes@[i as int],
                    kept@ == old_kept,
                    j <= kept@.len(),
                    forall|q: int| 0 <= q < j ==> nodes@[#[trigger] kept@[q] as int].id@ != nodes@[i as int].id@,
                    forall|q: int| 0 <= q < kept.len() ==> #[trigger] kept@[q] < nodes@.len(),
                decreases kept.len() - j,
            {
                j = j + 1;
            }
            if j < kept.len() {
                kept.set(j, i);
                assert forall|q: int| 0 <= q < kept.len() implies {
                    &&& (#[trigger] kept@[q]) < nodes@.len()
                    &&& after.dom().contains(nodes@[kept@[q] as int].id@)
                    &&& after[nodes@[kept@[q] as int].id@] == nodes@[kept@[q] as int]
                } by {
                    if q != j {
                        assert(kept@[q] == old_kept[q]);
                        assert(nodes@[old_kept[q] as int].id@ != nodes@[i as int].id@);
                    }
                }
                assert forall|a: int, b: int| 0 <= a < b < kept.len() implies nodes@[#[trigger] kept@[a] as int].id@
                    != nodes@[#[trigger] kept@[b] as int].id@ by {
                    if a != j && b != j {
                        assert(kept@[a] == old_kept[a] && kept@[b] == old_kept[b]);
                    } else if a == j {
                        assert(kept@[b] == old_kept[b]);
                        assert(nodes@[old_kept[a] as int].id@ != nodes@[old_kept[b] as int].id@);
                    } else {
                        assert(kept@[a] == old_kept[a]);
                        assert(nodes@[old_kept[a] as int].id@ != nodes@[old_kept[b] as int].id@);
                    }
                }
                assert forall|id: Seq<char>| #[trigger] after.dom().contains(id) implies exists|q: int|
                    0 <= q < kept.len() && nodes@[#[trigger] kept@[q] as int].id@ == id by {
                    if id != nodes@[i as int].id@ {
                        let q = choose|q: int| 0 <= q < old_kept.len() && nodes@[#[trigger] old_kept[q] as int].id@ == id;
                        assert(kept@[q] == old_kept[q]);
                    } else {
                        assert(kept@[j as int] == i);
                    }
                }
            } else {
                kept.push(i);
                assert forall|q: int| 0 <= q < kept.len() implies {
                    &&& (#[trigger] kept@[q]) < nodes@.len()
                    &&& after.dom().contains(nodes@[kept@[q] as int].id@)
                    &&& after[nodes@[kept@[q] as int].id@] == nodes@[kept@[q] as int]
                } by {
                    if q < old_kept.len() {
                        assert(kept@[q] == old_kept[q]);
                    }
                }
                assert forall|a: int, b: int| 0 <= a < b < kept.len() implies nodes@[#[trigger] kept@[a] as int].id@
                    != nodes@[#[trigger] kept@[b] as int].id@ by {
                    assert(kept@[a] == old_kept[a]);
                    if b < old_kept.len() {
                        assert(kept@[b] == old_kept[b]);
                    }
                }
                assert forall|id: Seq<char>| #[trigger] after.dom().contains(id) implies exists|q: int|
                    0 <= q < kept.len() && nodes@[#[trigger] kept@[q] as int].id@ == id by {
                    if id != nodes@[i as int].id@ {
                        let q = choose|q: int| 0 <= q < old_kept.len() && nodes@[#[trigger] old_kept[q] as int].id@ == id;
                        assert(kept@[q] == old_kept[q]);
                    } else {
                        assert(kept@[old_kept.len() as int] == i);
                    }
                }
            }
            assert(enabled_node_map(nodes@.take(i as int + 1)) == after);
        }
        i = i + 1;
    }
    assert(nodes@.take(i as int) =~= nodes@);
    assert(nodes@.skip(i as int).len() == 0);
    Ok(kept)
}

/// Where `id` sits among the kept nodes, if it is a key of the node map.
fn find_kept(nodes: &Vec<Node>, kept: &Vec<usize>, id: &String) -> (r: Option<usize>)
    requires
        indexes_map(nodes@, kept@, enabled_node_map(nodes@)),
    ensures
        match r {
            Some(j) => j < kept@.len() && nodes@[kept@[j as int] as int].id@ == id@,
            None => !enabled_node_map(nodes@).dom().contains(id@),
        },
{
    let mut j: usize = 0;
    while j < kept.len()
        invariant
            j <= kept@.len(),
            indexes_map(nodes@, kept@, enabled_node_map(nodes@)),
            forall|q: int| 0 <= q < j ==> nodes@[#[trigger] kept@[q] as int].id@ != id@,
        decreases kept.len() - j,
    {
        assert(kept@[j as int] < nodes@.len());
        if nodes[kept[j]].id == *id {
            return Some(j);
        }
        j = j + 1;
    }
    None
}


// ---------------------------------------------------------------------------
// Validation of bus and route references
// ---------------------------------------------------------------------------

/// Some enabled bus has identifier `id`.
pub open spec fn enabled_bus_id(buses: Seq<Bus>, id: Seq<char>) -> bool {
    exists|k: int| 0 <= k < buses.len() && (#[trigger] buses[k]).is_enabled && buses[k].id@ == id
}

fn has_enabled_bus(buses: &Vec<Bus>, id: &String) -> (r: bool)
    ensures
        r == enabled_bus_id(buses@, id@),
{
    let mut k: usize = 0;
    while k < buses.len()
        invariant
            k <= buses@.len(),
            forall|q: int| 0 <= q < k ==> !((#[trigger] buses@[q]).is_enabled && buses@[q].id@ == id@),
        decreases buses.len() - k,
    {
        if buses[k].is_enabled && buses[k].id == *id {
            return true;
        }
        k = k + 1;
    }
    false
}

/// The node mapped to `id` sends its audio to a bus that is not an enabled
/// bus of the session.
pub open spec fn bad_bus_ref(m: Map<Seq<char>, Node>, buses: Seq<Bus>, id: Seq<char>) -> bool {
    &&& m.dom().contains(id)
    &&& match node_bus_target(m[id]) {
        Some(b) => !enabled_bus_id(buses, b@),
        None => false,
    }
}

/// The error for the node with the least id, in string order, whose bus
/// target is unknown.
pub open spec fn bus_ref_error(m: Map<Seq<char>, Node>, buses: Seq<Bus>) -> Option<TopologyErrorView> {
    if exists|id: Seq<char>| bad_bus_ref(m, buses, id) {
        let id = choose|id: Seq<char>|
            bad_bus_ref(m, buses, id) && forall|o: Seq<char>| #[trigger] bad_bus_ref(m, buses, o) ==> seq_le(id, o);
        Some(TopologyErrorView::UnknownBusReference {
            node_id: id,
            bus_id: node_bus_target(m[id])->Some_0@,
        })
    } else {
        None
    }
}

fn validate_node_bus_references(nodes: &Vec<Node>, kept: &Vec<usize>, buses: &Vec<Bus>) -> (r: Result<(), TopologyCompileError>)
    requires
        indexes_map(nodes@, kept@, enabled_node_map(nodes@)),
    ensures
        match r {
            Ok(()) => bus_ref_error(enabled_node_map(nodes@), buses@) is None,
            Err(e) => bus_ref_error(enabled_node_map(nodes@), buses@) == Some(e@),
        },
{
    let ghost m = enabled_node_map(nodes@);
    let mut best: Option<usize> = None;
    let mut best_bus: String = String::new();
    let mut j: usize = 0;
    while j < kept.len()
        invariant
            j <= kept@.len(),
            m == enabled_node_map(nodes@),
            indexes_map(nodes@, kept@, m),
            match best {
                Some(b) => b < kept@.len() && bad_bus_ref(m, buses@, nodes@[kept@[b as int] as int].id@)
                    && node_bus_target(nodes@[kept@[b as int] as int]) == Some(best_bus)
                    && forall|q: int| 0 <= q < j && bad_bus_ref(m, buses@, nodes@[#[trigger] kept@[q] as int].id@)
                        ==> seq_le(nodes@[kept@[b as int] as int].id@, nodes@[kept@[q] as int].id@),
                None => forall|q: int| 0 <= q < j ==> !bad_bus_ref(m, buses@, nodes@[#[trigger] kept@[q] as int].id@),
            },
        decreases kept.len() - j,
    {
        let n = &nodes[kept[j]];
        let ghost nid = n.id@;
        assert(m[nid] == *n);
        match node_bus_target_id(n) {
            Some(target) => {
                if !has_enabled_bus(buses, &target) {
                    assert(bad_bus_ref(m, buses@, nid));
                    let replace = match best {
                        Some(b) => !str_le(nodes[kept[b]].id.as_str(), n.id.as_str()),
                        None => true,
                    };
                    if replace {
                        proof {
                            if let Some(b) = best {
                                let bid = nodes@[kept@[b as int] as int].id@;
                                lemma_seq_le_total(bid, nid);
                                assert forall|q: int| 0 <= q < j + 1 && bad_bus_ref(m, buses@, nodes@[#[trigger] kept@[q] as int].id@)
                                    implies seq_le(nid, nodes@[kept@[q] as int].id@) by {
                                    if q < j {
                                        lemma_seq_le_transitive(nid, bid, nodes@[kept@[q] as int].id@);
                                    } else {
                                        lemma_seq_le_reflexive(nid);
                                    }
                                }
                            } else {
                                lemma_seq_le_reflexive(nid);
                            }
                        }
                        best = Some(j);
                        best_bus = target;
                    }
                }
            },
            None => {},
        }
        j = j + 1;
    }
    match best {
        Some(b) => {
            let ghost bid = nodes@[kept@[b as int] as int].id@;
            proof {
                assert forall|o: Seq<char>| #[trigger] bad_bus_ref(m, buses@, o) implies seq_le(bid, o) by {
                    let q = choose|q: int| 0 <= q < kept@.len() && nodes@[#[trigger] kept@[q] as int].id@ == o;
                }
                let id = choose|id: Seq<char>|
                    bad_bus_ref(m, buses@, id) && forall|o: Seq<char>| #[trigger] bad_bus_ref(m, buses@, o) ==> seq_le(id, o);
                assert(seq_le(id, bid) && seq_le(bid, id));
                lemma_seq_le_antisymmetric(id, bid);
            }
            Err(TopologyCompileError::UnknownBusReference { node_id: nodes[kept[b]].id.clone(), bus_id: best_bus })
        },
        None => {
            proof {
                assert forall|o: Seq<char>| !bad_bus_ref(m, buses@, o) by {
                    if bad_bus_ref(m, buses@, o) {
                        let q = choose|q: int| 0 <= q < kept@.len() && nodes@[#[trigger] kept@[q] as int].id@ == o;
                    }
                }
            }
            Ok(())
        },
    }
}

/// The first port of `ports` with identifier `id`, if any.
pub open spec fn port_of(ports: Seq<Port>, id: Seq<char>) -> Option<Port> {
    if has_id(ports, id) {
        Some(find_id(ports, id))
    } else {
        None
    }
}

/// How a signal type is named in error messages.
pub open spec fn signal_name(t: SignalType) -> Seq<char> {
    match t {
        SignalType::Audio => "audio"@,
        SignalType::Control => "control"@,
    }
}

fn signal_type_name(t: SignalType) -> (r: String)
    ensures
        r@ == signal_name(t),
{
    match t {
        SignalType::Audio => "audio".to_owned(),
        SignalType::Control => "control".to_owned(),
    }
}

/// A route names node `id`, which is not compiled: disabled if some node of
/// the session with that id is disabled, unknown otherwise.
pub open spec fn missing_node_error(nodes: Seq<Node>, route: Route, id: Seq<char>) -> TopologyErrorView {
    if exists|k: int| 0 <= k < nodes.len() && (#[trigger] nodes[k]).id@ == id && !nodes[k].enabled {
        TopologyErrorView::DisabledNodeRoute { route_id: route.id@, node_id: id }
    } else {
        TopologyErrorView::UnknownNodeReference { route_id: route.id@, node_id: id }
    }
}

/// What is wrong with a route, checked in this order: an unknown bus, an
/// uncompiled source node, an uncompiled target node, an unknown source
/// port, an unknown target port, ports of different signal types.
pub open spec fn route_error(nodes: Seq<Node>, buses: Seq<Bus>, route: Route) -> Option<TopologyErrorView> {
    let m = enabled_node_map(nodes);
    let src = route.source_node_id@;
    let tgt = route.target_node_id@;
    if route.bus_id is Some && !enabled_bus_id(buses, route.bus_id->Some_0@) {
        Some(TopologyErrorView::UnknownRouteBus { route_id: route.id@, bus_id: route.bus_id->Some_0@ })
    } else if !m.dom().contains(src) {
        Some(missing_node_error(nodes, route, src))
    } else if !m.dom().contains(tgt) {
        Some(missing_node_error(nodes, route, tgt))
    } else if port_of(m[src].ports@, route.source_port_id@) is None {
        Some(TopologyErrorView::UnknownPortReference {
            route_id: route.id@,
            node_id: src,
            port_id: route.source_port_id@,
        })
    } else if port_of(m[tgt].ports@, route.target_port_id@) is None {
        Some(TopologyErrorView::UnknownPortReference {
            route_id: route.id@,
            node_id: tgt,
            port_id: route.target_port_id@,
        })
    } else {
        let a = port_of(m[src].ports@, route.source_port_id@)->Some_0.signal_type;
        let b = port_of(m[tgt].ports@, route.target_port_id@)->Some_0.signal_type;
        if a != b {
            Some(TopologyErrorView::PortSignalTypeMismatch {
                route_id: route.id@,
                source_type: signal_name(a),
                target_type: signal_name(b),
            })
        } else {
            None
        }
    }
}

/// The error of the first route, in session order, that has one.
pub open spec fn first_route_error(nodes: Seq<Node>, buses: Seq<Bus>, routes: Seq<Route>) -> Option<TopologyErrorView>
    decreases routes.len(),
{
    if routes.len() == 0 {
        None
    } else if route_error(nodes, buses, routes[0]) is Some {
        route_error(nodes, buses, routes[0])
    } else {
        first_route_error(nodes, buses, routes.drop_first())
    }
}

fn missing_node(nodes: &Vec<Node>, route: &Route, id: &String) -> (e: TopologyCompileError)
    ensures
        e@ == missing_node_error(nodes@, *route, id@),
{
    let mut k: usize = 0;
    while k < nodes.len()
        invariant
            k <= nodes@.len(),
            forall|q: int| 0 <= q < k ==> !((#[trigger] nodes@[q]).id@ == id@ && !nodes@[q].enabled),
        decreases nodes.len() - k,
    {
        if nodes[k].id == *id && !nodes[k].enabled {
            return TopologyCompileError::DisabledNodeRoute { route_id: route.id.clone(), node_id: id.clone() };
        }
        k = k + 1;
    }
    TopologyCompileError::UnknownNodeReference { route_id: route.id.clone(), node_id: id.clone() }
}

fn check_route(nodes: &Vec<Node>, kept: &Vec<usize>, buses: &Vec<Bus>, route: &Route) -> (r: Result<(), TopologyCompileError>)
    requires
        indexes_map(nodes@, kept@, enabled_node_map(nodes@)),
    ensures
        match r {
            Ok(()) => route_error(nodes@, buses@, *route) is None,
            Err(e) => route_error(nodes@, buses@, *route) == Some(e@),
        },
{
    let ghost m = enabled_node_map(nodes@);
    if let Some(bus_id) = &route.bus_id {
        if !has_enabled_bus(buses, bus_id) {
            return Err(TopologyCompileError::UnknownRouteBus { route_id: route.id.clone(), bus_id: bus_id.clone() });
        }
    }
    let sj = match find_kept(nodes, kept, &route.source_node_id) {
        Some(j) => j,
        None => {
            return Err(missing_node(nodes, route, &route.source_node_id));
        },
    };
    let tj = match find_kept(nodes, kept, &route.target_node_id) {
        Some(j) => j,
        None => {
            return Err(missing_node(nodes, route, &route.target_node_id));
        },
    };
    let source = &nodes[kept[sj]];
    let target = &nodes[kept[tj]];
    assert(m[route.source_node_id@] == *source);
    assert(m[route.target_node_id@] == *target);
    let sp = match find_by_id(&source.ports, &route.source_port_id) {
        Some(p) => p,
        None => {
            return Err(TopologyCompileError::UnknownPortReference {
                route_id: route.id.clone(),
                node_id: source.id.clone(),
                port_id: route.source_port_id.clone(),
            });
        },
    };
    let tp = match find_by_id(&target.ports, &route.target_port_id) {
        Some(p) => p,
        None => {
            return Err(TopologyCompileError::UnknownPortReference {
                route_id: route.id.clone(),
                node_id: target.id.clone(),
                port_id: route.target_port_id.clone(),
            });
        },
    };
    let a = source.ports[sp].signal_type;
    let b = target.ports[tp].signal_type;
    if a != b {
        return Err(TopologyCompileError::PortSignalTypeMismatch {
            route_id: route.id.clone(),
            source_type: signal_type_name(a),
            target_type: signal_type_name(b),
        });
    }
    Ok(())
}

fn validate_routes(nodes: &Vec<Node>, kept: &Vec<usize>, buses: &Vec<Bus>, routes: &Vec<Route>) -> (r: Result<(), TopologyCompileError>)
    requires
        indexes_map(nodes@, kept@, enabled_node_map(nodes@)),
    ensures
        match r {
            Ok(()) => first_route_error(nodes@, buses@, routes@) is None,
            Err(e) => first_route_error(nodes@, buses@, routes@) == Some(e@),
        },
{
    let mut i: usize = 0;
    assert(routes@.skip(0) =~= routes@);
    while i < routes.len()
        invariant
            i <= routes@.len(),
            indexes_map(nodes@, kept@, enabled_node_map(nodes@)),
            first_route_error(nodes@, buses@, routes@) == first_route_error(nodes@, buses@, routes@.skip(i as int)),
        decreases routes.len() - i,
    {
        assert(routes@.skip(i as int)[0] == routes@[i as int]);
        assert(routes@.skip(i as int).drop_first() =~= routes@.skip(i as int + 1));
        check_route(nodes, kept, buses, &routes[i])?;
        i = i + 1;
    }
    assert(routes@.skip(i as int).len() == 0);
    Ok(())
}


// ---------------------------------------------------------------------------
// Launch order
// ---------------------------------------------------------------------------

/// The catalog entry the node's type resolves to exists.
pub open spec fn has_first_entry(id: Seq<char>) -> bool {
    exists|k: int| is_first_entry(catalog_view(), id, k)
}

/// Launch rank of a node: its catalog category's rank, or 255 for a type
/// the catalog does not know (those sort last).
pub open spec fn node_rank(n: Node) -> int {
    if has_first_entry(n.node_type_id@) {
        catalog_view()[choose|k: int| is_first_entry(catalog_view(), n.node_type_id@, k)].category.spec_rank() as int
    } else {
        255
    }
}

/// Launch order key: rank, then id.
pub open spec fn node_key_le(a: Node, b: Node) -> bool {
    node_rank(a) < node_rank(b) || (node_rank(a) == node_rank(b) && seq_le(a.id@, b.id@))
}

fn node_rank_of(n: &Node) -> (r: u8)
    ensures
        r as int == node_rank(*n),
{
    match find_catalog_entry(n.node_type_id.as_str()) {
        Ok(e) => {
            proof {
                let id = n.node_type_id@;
                let k = choose|k: int| is_first_entry(catalog_view(), id, k) && e@ == catalog_view()[k];
                let k2 = choose|k: int| is_first_entry(catalog_view(), id, k);
                if k < k2 {
                    assert(catalog_view()[k].id != id);
                } else if k2 < k {
                    assert(catalog_view()[k2].id != id);
                }
            }
            e.category.rank()
        },
        Err(_) => {
            proof {
                if has_first_entry(n.node_type_id@) {
                    let k = choose|k: int| is_first_entry(catalog_view(), n.node_type_id@, k);
                    assert(catalog_view()[k].id == n.node_type_id@);
                }
            }
            255
        },
    }
}

proof fn lemma_node_key_total(a: Node, b: Node)
    ensures
        node_key_le(a, b) || node_key_le(b, a),
{
    lemma_seq_le_total(a.id@, b.id@);
}

proof fn lemma_node_key_transitive(a: Node, b: Node, c: Node)
    requires
        node_key_le(a, b),
        node_key_le(b, c),
    ensures
        node_key_le(a, c),
{
    if node_rank(a) == node_rank(b) && node_rank(b) == node_rank(c) {
        lemma_seq_le_transitive(a.id@, b.id@, c.id@);
    }
}

proof fn lemma_node_key_reflexive(a: Node)
    ensures
        node_key_le(a, a),
{
    lemma_seq_le_reflexive(a.id@);
}

/// The route joins two compiled nodes.
pub open spec fn in_graph(m: Map<Seq<char>, Node>, r: Route) -> bool {
    m.dom().contains(r.source_node_id@) && m.dom().contains(r.target_node_id@)
}

/// After the nodes `done` have launched, `v` may launch: it is a compiled
/// node not yet launched, and every route into it comes from a launched node.
pub open spec fn is_ready(m: Map<Seq<char>, Node>, routes: Seq<Route>, done: Seq<Seq<char>>, v: Seq<char>) -> bool {
    &&& m.dom().contains(v)
    &&& !done.contains(v)
    &&& forall|k: int|
        0 <= k < routes.len() && in_graph(m, #[trigger] routes[k]) && routes[k].target_node_id@ == v
            ==> done.contains(routes[k].source_node_id@)
}

/// Each node of `p` is, among the nodes ready after those before it, the
/// least by launch key.
pub open spec fn is_greedy_order(m: Map<Seq<char>, Node>, routes: Seq<Route>, p: Seq<Seq<char>>) -> bool {
    forall|i: int|
        0 <= i < p.len() ==> {
            &&& is_ready(m, routes, p.take(i), #[trigger] p[i])
            &&& forall|w: Seq<char>| #[trigger] is_ready(m, routes, p.take(i), w) ==> node_key_le(m[p[i]], m[w])
        }
}

/// No node is ready after `p`.
pub open spec fn is_stuck(m: Map<Seq<char>, Node>, routes: Seq<Route>, p: Seq<Seq<char>>) -> bool {
    forall|w: Seq<char>| !is_ready(m, routes, p, w)
}

/// The ids of the nodes at the given positions.
pub open spec fn ids_at(nodes: Seq<Node>, order: Seq<usize>) -> Seq<Seq<char>> {
    order.map_values(|k: usize| nodes[k as int].id@)
}

spec fn count_true(s: Seq<bool>) -> nat
    decreases s.len(),
{
    if s.len() == 0 {
        0
    } else {
        count_true(s.drop_last()) + if s.last() {
            1nat
        } else {
            0nat
        }
    }
}

proof fn lemma_count_true_none(s: Seq<bool>)
    requires
        forall|q: int| 0 <= q < s.len() ==> !(#[trigger] s[q]),
    ensures
        count_true(s) == 0,
    decreases s.len(),
{
    if s.len() > 0 {
        lemma_count_true_none(s.drop_last());
    }
}

proof fn lemma_count_true_le(s: Seq<bool>)
    ensures
        count_true(s) <= s.len(),
    decreases s.len(),
{
    if s.len() > 0 {
        lemma_count_true_le(s.drop_last());
    }
}

proof fn lemma_count_true_mark(s: Seq<bool>, j: int)
    requires
        0 <= j < s.len(),
        !s[j],
    ensures
        count_true(s.update(j, true)) == count_true(s) + 1,
    decreases s.len(),
{
    if j == s.len() - 1 {
        assert(s.update(j, true).drop_last() =~= s.drop_last());
    } else {
        lemma_count_true_mark(s.drop_last(), j);
        assert(s.update(j, true).drop_last() =~= s.drop_last().update(j, true));
    }
}

/// `done` marks exactly the kept positions whose node is in `p`.
pub open spec fn done_marks(nodes: Seq<Node>, kept: Seq<usize>, done: Seq<bool>, p: Seq<Seq<char>>) -> bool {
    &&& done.len() == kept.len()
    &&& forall|q: int| 0 <= q < kept.len() ==> (#[trigger] done[q] <==> p.contains(nodes[kept[q] as int].id@))
}

fn ready_at(
    nodes: &Vec<Node>,
    kept: &Vec<usize>,
    routes: &Vec<Route>,
    done: &Vec<bool>,
    j: usize,
    Ghost(p): Ghost<Seq<Seq<char>>>,
) -> (r: bool)
    requires
        indexes_map(nodes@, kept@, enabled_node_map(nodes@)),
        j < kept@.len(),
        done_marks(nodes@, kept@, done@, p),
    ensures
        r == is_ready(enabled_node_map(nodes@), routes@, p, nodes@[kept@[j as int] as int].id@),
{
    let ghost m = enabled_node_map(nodes@);
    assert(kept@[j as int] < nodes@.len());
    if done[j] {
        return false;
    }
    let id = &nodes[kept[j]].id;
    let mut k: usize = 0;
    while k < routes.len()
        invariant
            k <= routes@.len(),
            indexes_map(nodes@, kept@, m),
            m == enabled_node_map(nodes@),
            done_marks(nodes@, kept@, done@, p),
            m.dom().contains(id@),
            j < kept@.len(),
            kept@[j as int] < nodes@.len(),
            id@ == nodes@[kept@[j as int] as int].id@,
            !p.contains(id@),
            forall|q: int|
                0 <= q < k && in_graph(m, #[trigger] routes@[q]) && routes@[q].target_node_id@ == id@
                    ==> p.contains(routes@[q].source_node_id@),
        decreases routes.len() - k,
    {
        let r = &routes[k];
        if r.target_node_id == *id {
            match find_kept(nodes, kept, &r.source_node_id) {
                Some(sj) => {
                    assert(kept@[sj as int] < nodes@.len());
                    if !done[sj] {
                        assert(in_graph(m, routes@[k as int]));
                        assert(!done@[sj as int]);
                        assert(!p.contains(routes@[k as int].source_node_id@));

                        return false;
                    }
                },
                None => {},
            }
        }
        k = k + 1;
    }
    true
}

proof fn lemma_greedy_push(m: Map<Seq<char>, Node>, routes: Seq<Route>, p: Seq<Seq<char>>, v: Seq<char>)
    requires
        is_greedy_order(m, routes, p),
        is_ready(m, routes, p, v),
        forall|w: Seq<char>| #[trigger] is_ready(m, routes, p, w) ==> node_key_le(m[v], m[w]),
    ensures
        is_greedy_order(m, routes, p.push(v)),
{
    let q = p.push(v);
    assert forall|i: int| 0 <= i < q.len() implies {
        &&& is_ready(m, routes, q.take(i), #[trigger] q[i])
        &&& forall|w: Seq<char>| #[trigger] is_ready(m, routes, q.take(i), w) ==> node_key_le(m[q[i]], m[w])
    } by {
        if i < p.len() {
            assert(q.take(i) =~= p.take(i));
            assert(q[i] == p[i]);
        } else {
            assert(q.take(i) =~= p);
        }
    }
}

/// Launch order: Kahn's algorithm that always launches the least ready node
/// by launch key (rank, then id); routes count once per route.
fn topo_sort_nodes(nodes: &Vec<Node>, kept: &Vec<usize>, routes: &Vec<Route>) -> (r: Result<Vec<usize>, TopologyCompileError>)
    requires
        indexes_map(nodes@, kept@, enabled_node_map(nodes@)),
    ensures
        match r {
            Ok(order) => {
                &&& forall|i: int| 0 <= i < order@.len() ==> (#[trigger] order@[i]) < nodes@.len()
                    && enabled_node_map(nodes@)[nodes@[order@[i] as int].id@] == nodes@[order@[i] as int]
                &&& is_greedy_order(enabled_node_map(nodes@), routes@, ids_at(nodes@, order@))
                &&& forall|v: Seq<char>| #[trigger] enabled_node_map(nodes@).dom().contains(v)
                    ==> ids_at(nodes@, order@).contains(v)
            },
            Err(e) => e is CyclicGraph && exists|p: Seq<Seq<char>>| {
                &&& is_greedy_order(enabled_node_map(nodes@), routes@, p)
                &&& is_stuck(enabled_node_map(nodes@), routes@, p)
                &&& exists|v: Seq<char>| enabled_node_map(nodes@).dom().contains(v) && !p.contains(v)
            },
        },
{
    let ghost m = enabled_node_map(nodes@);
    let mut ranks: Vec<u8> = Vec::new();
    let mut done: Vec<bool> = Vec::new();
    let mut j: usize = 0;
    while j < kept.len()
        invariant
            j <= kept@.len(),
            indexes_map(nodes@, kept@, m),
            ranks@.len() == j,
            done@.len() == j,
            forall|q: int| 0 <= q < j ==> !(#[trigger] done@[q]),
            forall|q: int| 0 <= q < j ==> (#[trigger] ranks@[q]) as int == node_rank(nodes@[kept@[q] as int]),
        decreases kept.len() - j,
    {
        ranks.push(node_rank_of(&nodes[kept[j]]));
        done.push(false);
        j = j + 1;
    }
    proof {
        lemma_count_true_none(done@);
    }
    let mut order: Vec<usize> = Vec::new();
    let ghost mut p: Seq<Seq<char>> = Seq::empty();
    loop
        invariant
            indexes_map(nodes@, kept@, m),
            m == enabled_node_map(nodes@),
            ranks@.len() == kept@.len(),
            forall|q: int| 0 <= q < kept@.len() ==> (#[trigger] ranks@[q]) as int == node_rank(nodes@[kept@[q] as int]),
            done_marks(nodes@, kept@, done@, p),
            count_true(done@) == order@.len(),
            p == ids_at(nodes@, order@),
            is_greedy_order(m, routes@, p),
            forall|i: int| 0 <= i < order@.len() ==> (#[trigger] order@[i]) < nodes@.len()
                && m[nodes@[order@[i] as int].id@] == nodes@[order@[i] as int],
        ensures
            indexes_map(nodes@, kept@, m),
            done_marks(nodes@, kept@, done@, p),
            p == ids_at(nodes@, order@),
            is_greedy_order(m, routes@, p),
            is_stuck(m, routes@, p),
            forall|i: int| 0 <= i < order@.len() ==> (#[trigger] order@[i]) < nodes@.len()
                && m[nodes@[order@[i] as int].id@] == nodes@[order@[i] as int],
        decreases kept@.len() - order@.len(),
    {
        proof {
            lemma_count_true_le(done@);
        }
        let mut best: Option<usize> = None;
        let mut j: usize = 0;
        while j < kept.len()
            invariant
                j <= kept@.len(),
                indexes_map(nodes@, kept@, m),
                m == enabled_node_map(nodes@),
                ranks@.len() == kept@.len(),
                forall|q: int| 0 <= q < kept@.len() ==> (#[trigger] ranks@[q]) as int == node_rank(nodes@[kept@[q] as int]),
                done_marks(nodes@, kept@, done@, p),
                match best {
                    Some(b) => b < kept@.len() && is_ready(m, routes@, p, nodes@[kept@[b as int] as int].id@)
                        && forall|q: int| 0 <= q < j && is_ready(m, routes@, p, nodes@[#[trigger] kept@[q] as int].id@)
                            ==> node_key_le(nodes@[kept@[b as int] as int], nodes@[kept@[q] as int]),
                    None => forall|q: int| 0 <= q < j ==> !is_ready(m, routes@, p, nodes@[#[trigger] kept@[q] as int].id@),
                },
            decreases kept.len() - j,
        {
            if ready_at(nodes, kept, routes, &done, j, Ghost(p)) {
                let replace = match best {
                    Some(b) => {
                        let ra = ranks[b];
                        let rb = ranks[j];
                        !(ra < rb || (ra == rb && str_le(nodes[kept[b]].id.as_str(), nodes[kept[j]].id.as_str())))
                    },
                    None => true,
                };
                if replace {
                    proof {
                        let c = nodes@[kept@[j as int] as int];
                        lemma_node_key_reflexive(c);
                        if let Some(b) = best {
                            let bn = nodes@[kept@[b as int] as int];
                            lemma_node_key_total(bn, c);
                            assert forall|q: int| 0 <= q < j && is_ready(m, routes@, p, nodes@[#[trigger] kept@[q] as int].id@)
                                implies node_key_le(c, nodes@[kept@[q] as int]) by {
                                lemma_node_key_transitive(c, bn, nodes@[kept@[q] as int]);
                            }
                        }
                    }
                    best = Some(j);
                }
            }
            j = j + 1;
        }
        match best {
            None => {
                proof {
                    assert forall|w: Seq<char>| !is_ready(m, routes@, p, w) by {
                        if is_ready(m, routes@, p, w) {
                            let q = choose|q: int| 0 <= q < kept@.len() && nodes@[#[trigger] kept@[q] as int].id@ == w;
                        }
                    }
                }
                break;
            },
            Some(b) => {
                let ghost v = nodes@[kept@[b as int] as int].id@;
                proof {
                    assert forall|w: Seq<char>| #[trigger] is_ready(m, routes@, p, w) implies node_key_le(m[v], m[w]) by {
                        let q = choose|q: int| 0 <= q < kept@.len() && nodes@[#[trigger] kept@[q] as int].id@ == w;
                    }
                    lemma_greedy_push(m, routes@, p, v);
                    assert(!done@[b as int]);
                    lemma_count_true_mark(done@, b as int);
                }
                let ghost old_done = done@;
                done.set(b, true);
                order.push(kept[b]);
                proof {
                    lemma_count_true_le(done@);
                    let np = p.push(v);
                    assert forall|q: int| 0 <= q < kept@.len() implies (#[trigger] done@[q] <==> np.contains(nodes@[kept@[q] as int].id@)) by {
                        let x = nodes@[kept@[q] as int].id@;
                        if q == b {
                            assert(np[p.len() as int] == v);
                        } else {
                            assert(done@[q] == old_done[q]);
                            assert(x != v);
                            if np.contains(x) {
                                let t = choose|t: int| 0 <= t < np.len() && np[t] == x;
                                assert(t < p.len());
                                assert(p[t] == x);
                            }
                            if p.contains(x) {
                                let t = choose|t: int| 0 <= t < p.len() && p[t] == x;
                                assert(np[t] == x);
                            }
                        }
                    }
                    assert(ids_at(nodes@, order@) =~= np);
                    p = np;
                }
            },
        }
    }
    let mut j: usize = 0;
    while j < kept.len()
        invariant
            j <= kept@.len(),
            indexes_map(nodes@, kept@, m),
            m == enabled_node_map(nodes@),
            is_greedy_order(m, routes@, p),
            is_stuck(m, routes@, p),
            done_marks(nodes@, kept@, done@, p),
            forall|q: int| 0 <= q < j ==> #[trigger] done@[q],
        decreases kept.len() - j,
    {
        if !done[j] {
            proof {
                assert(kept@[j as int] < nodes@.len());
                let v = nodes@[kept@[j as int] as int].id@;
                assert(m.dom().contains(v) && !p.contains(v));
            }
            return Err(TopologyCompileError::CyclicGraph);
        }
        j = j + 1;
    }
    proof {
        assert forall|v: Seq<char>| #[trigger] m.dom().contains(v) implies p.contains(v) by {
            let q = choose|q: int| 0 <= q < kept@.len() && nodes@[#[trigger] kept@[q] as int].id@ == v;
            assert(done@[q]);
        }
    }
    Ok(order)
}


// ---------------------------------------------------------------------------
// Node launches
// ---------------------------------------------------------------------------

/// Some route into node `node_id` carries audio on bus `b`.
pub open spec fn incoming_bus(routes: Seq<Route>, node_id: Seq<char>, b: Seq<char>) -> bool {
    exists|k: int|
        0 <= k < routes.len() && (#[trigger] routes[k]).target_node_id@ == node_id && routes[k].bus_id
            is Some && routes[k].bus_id->Some_0@ == b
}

/// Strictly increasing in string order (so without repeats).
pub open spec fn strictly_sorted(s: Seq<String>) -> bool {
    forall|i: int, j: int| 0 <= i < j < s.len() ==> seq_lt(#[trigger] s[i]@, #[trigger] s[j]@)
}

/// `s` lists, sorted and once each, the buses routed into `node_id`.
pub open spec fn is_incoming_bus_list(s: Seq<String>, routes: Seq<Route>, node_id: Seq<char>) -> bool {
    &&& strictly_sorted(s)
    &&& forall|i: int| 0 <= i < s.len() ==> incoming_bus(routes, node_id, #[trigger] s[i]@)
    &&& forall|b: Seq<char>| #[trigger] incoming_bus(routes, node_id, b) ==> exists|i: int| 0 <= i < s.len() && s[i]@ == b
}

fn contains_str(v: &Vec<String>, x: &String) -> (r: bool)
    ensures
        r == exists|i: int| 0 <= i < v@.len() && (#[trigger] v@[i])@ == x@,
{
    let mut i: usize = 0;
    while i < v.len()
        invariant
            i <= v@.len(),
            forall|j: int| 0 <= j < i ==> (#[trigger] v@[j])@ != x@,
        decreases v.len() - i,
    {
        if v[i] == *x {
            return true;
        }
        i = i + 1;
    }
    false
}

/// The buses routed into `node_id`, sorted, each once.
fn incoming_bus_ids(routes: &Vec<Route>, node_id: &String) -> (r: Vec<String>)
    ensures
        is_incoming_bus_list(r@, routes@, node_id@),
{
    let mut out: Vec<String> = Vec::new();
    let mut k: usize = 0;
    while k < routes.len()
        invariant
            k <= routes@.len(),
            strictly_sorted(out@),
            forall|i: int| 0 <= i < out@.len() ==> incoming_bus(routes@, node_id@, #[trigger] out@[i]@),
            forall|q: int|
                0 <= q < k && (#[trigger] routes@[q]).target_node_id@ == node_id@ && routes@[q].bus_id is Some
                    ==> exists|i: int| 0 <= i < out@.len() && out@[i]@ == routes@[q].bus_id->Some_0@,
        decreases routes.len() - k,
    {
        let r = &routes[k];
        if r.target_node_id == *node_id {
            if let Some(b) = &r.bus_id {
                assert(incoming_bus(routes@, node_id@, b@)) by {
                    assert(routes@[k as int].bus_id->Some_0@ == b@);
                }
                if !contains_str(&out, b) {
                    let mut pos: usize = 0;
                    while pos < out.len() && str_le(out[pos].as_str(), b.as_str())
                        invariant
                            pos <= out@.len(),
                            forall|i: int| 0 <= i < pos ==> seq_le((#[trigger] out@[i])@, b@),
                        decreases out.len() - pos,
                    {
                        pos = pos + 1;
                    }
                    let ghost old_out = out@;
                    out.insert(pos, b.clone());
                    proof {
                        assert(out@ =~= old_out.take(pos as int).push(*b) + old_out.skip(pos as int));
                        assert forall|i: int| 0 <= i < old_out.len() implies (#[trigger] old_out[i])@ != b@ by {}
                        assert forall|i: int, j: int| 0 <= i < j < out@.len() implies seq_lt(#[trigger] out@[i]@, #[trigger] out@[j]@) by {
                            if j < pos {
                                assert(out@[i] == old_out[i] && out@[j] == old_out[j]);
                            } else if j == pos {
                                assert(out@[i] == old_out[i]);
                                assert(out@[j]@ == b@);
                                if seq_le(b@, old_out[i]@) {
                                    lemma_seq_le_antisymmetric(b@, old_out[i]@);
                                }
                            } else if i > pos {
                                assert(out@[i] == old_out[i - 1] && out@[j] == old_out[j - 1]);
                            } else if i == pos {
                                assert(out@[j] == old_out[j - 1]);
                                assert(!seq_le(old_out[pos as int]@, b@));
                                lemma_seq_le_total(old_out[pos as int]@, b@);
                                if pos as int == j - 1 {
                                } else {
                                    assert(seq_lt(old_out[pos as int]@, old_out[j - 1]@));
                                    if seq_le(old_out[j - 1]@, b@) {
                                        lemma_seq_le_transitive(old_out[j - 1]@, b@, old_out[pos as int]@);
                                    }
                                }
                            } else {
                                assert(out@[i] == old_out[i]);
                                assert(out@[j] == old_out[j - 1]);
                                if i == j - 1 {
                                } else {
                                }
                            }
                        }
                        assert forall|i: int| 0 <= i < out@.len() implies incoming_bus(routes@, node_id@, #[trigger] out@[i]@) by {
                            if i < pos {
                                assert(out@[i] == old_out[i]);
                            } else if i > pos {
                                assert(out@[i] == old_out[i - 1]);
                            }
                        }
                        assert forall|q: int|
                            0 <= q < k + 1 && (#[trigger] routes@[q]).target_node_id@ == node_id@ && routes@[q].bus_id is Some
                                implies exists|i: int| 0 <= i < out@.len() && out@[i]@ == routes@[q].bus_id->Some_0@ by {
                            if q < k {
                                let i = choose|i: int| 0 <= i < old_out.len() && old_out[i]@ == routes@[q].bus_id->Some_0@;
                                if i < pos {
                                    assert(out@[i] == old_out[i]);
                                } else {
                                    assert(out@[i + 1] == old_out[i]);
                                }
                            } else {
                                assert(out@[pos as int]@ == b@);
                            }
                        }
                    }
                }
            }
        }
        k = k + 1;
    }
    proof {
        assert forall|b: Seq<char>| #[trigger] incoming_bus(routes@, node_id@, b) implies exists|i: int|
            0 <= i < out@.len() && out@[i]@ == b by {
            let q = choose|q: int|
                0 <= q < routes@.len() && (#[trigger] routes@[q]).target_node_id@ == node_id@ && routes@[q].bus_id
                    is Some && routes@[q].bus_id->Some_0@ == b;
        }
    }
    out
}

/// The launch group every node is placed in.
pub open spec fn main_group_id() -> Seq<char> {
    "group-main-signal"@
}

/// `l` launches node `n`: its identity, runtime target (empty when
/// missing), bypass (off when unset), output kind, channel count (2 when
/// unset), group, the buses routed into it, its own bus target and its
/// parameter values.
pub open spec fn is_launch_of(l: CompiledNodeLaunch, n: Node, routes: Seq<Route>) -> bool {
    &&& l.node_id@ == n.id@
    &&& l.node_type_id@ == n.node_type_id@
    &&& l.runtime_target@ == match n.runtime_target {
        Some(t) => t@,
        None => Seq::empty(),
    }
    &&& l.bypassed == match n.bypassed {
        Some(b) => b,
        None => false,
    }
    &&& l.output_kind == n.output_kind
    &&& l.channel_count == match n.channel_count {
        Some(c) => c,
        None => 2u32,
    }
    &&& l.group_id@ == main_group_id()
    &&& is_incoming_bus_list(l.input_bus_ids@, routes, n.id@)
    &&& l.output_bus_id == node_bus_target(n)
    &&& l.parameters@.len() == n.parameters@.len()
    &&& forall|i: int|
        0 <= i < l.parameters@.len() ==> {
            &&& (#[trigger] l.parameters@[i]).parameter_id@ == n.parameters@[i].id@
            &&& l.parameters@[i].name@ == n.parameters@[i].name@
            &&& l.parameters@[i].value == n.parameters@[i].value
        }
}

fn compile_node_launch(node: &Node, routes: &Vec<Route>) -> (l: CompiledNodeLaunch)
    ensures
        is_launch_of(l, *node, routes@),
{
    let mut parameters: Vec<CompiledParameter> = Vec::new();
    let mut i: usize = 0;
    while i < node.parameters.len()
        invariant
            i <= node.parameters@.len(),
            parameters@.len() == i,
            forall|j: int|
                0 <= j < i ==> {
                    &&& (#[trigger] parameters@[j]).parameter_id@ == node.parameters@[j].id@
                    &&& parameters@[j].name@ == node.parameters@[j].name@
                    &&& parameters@[j].value == node.parameters@[j].value
                },
        decreases node.parameters.len() - i,
    {
        let p = &node.parameters[i];
        parameters.push(CompiledParameter { parameter_id: p.id.clone(), name: p.name.clone(), value: p.value });
        i = i + 1;
    }
    CompiledNodeLaunch {
        node_id: node.id.clone(),
        node_type_id: node.node_type_id.clone(),
        runtime_target: match &node.runtime_target {
            Some(t) => t.clone(),
            None => String::new(),
        },
        bypassed: match node.bypassed {
            Some(b) => b,
            None => false,
        },
        output_kind: node.output_kind,
        channel_count: match node.channel_count {
            Some(c) => c,
            None => 2,
        },
        group_id: "group-main-signal".to_owned(),
        input_bus_ids: incoming_bus_ids(routes, &node.id),
        output_bus_id: node_bus_target_id(node),
        parameters,
    }
}

// ---------------------------------------------------------------------------
// Modulation routes
// ---------------------------------------------------------------------------

/// The direct (bus-less) routes into a compiled node's known port, each
/// with the signal type of that target port, in session order.
pub open spec fn cv_routes_spec(nodes: Seq<Node>, routes: Seq<Route>) -> Seq<(Route, SignalType)>
    decreases routes.len(),
{
    if routes.len() == 0 {
        Seq::empty()
    } else {
        let rest = cv_routes_spec(nodes, routes.drop_last());
        let r = routes.last();
        let m = enabled_node_map(nodes);
        if r.bus_id is None && m.dom().contains(r.target_node_id@) && port_of(
            m[r.target_node_id@].ports@,
            r.target_port_id@,
        ) is Some {
            rest.push((r, port_of(m[r.target_node_id@].ports@, r.target_port_id@)->Some_0.signal_type))
        } else {
            rest
        }
    }
}

/// `c` compiles route `r` carrying signal type `t`.
pub open spec fn is_cv_route(c: CompiledCvRoute, r: Route, t: SignalType) -> bool {
    &&& c.route_id@ == r.id@
    &&& c.source_node_id@ == r.source_node_id@
    &&& c.source_port_id@ == r.source_port_id@
    &&& c.target_node_id@ == r.target_node_id@
    &&& c.target_port_id@ == r.target_port_id@
    &&& c.signal_type == t
}

pub open spec fn is_cv_route_list(c: Seq<CompiledCvRoute>, spec: Seq<(Route, SignalType)>) -> bool {
    &&& c.len() == spec.len()
    &&& forall|i: int| 0 <= i < c.len() ==> is_cv_route(#[trigger] c[i], spec[i].0, spec[i].1)
}

fn compile_cv_routes(nodes: &Vec<Node>, kept: &Vec<usize>, routes: &Vec<Route>) -> (r: Vec<CompiledCvRoute>)
    requires
        indexes_map(nodes@, kept@, enabled_node_map(nodes@)),
    ensures
        is_cv_route_list(r@, cv_routes_spec(nodes@, routes@)),
{
    let ghost m = enabled_node_map(nodes@);
    let mut out: Vec<CompiledCvRoute> = Vec::new();
    let mut k: usize = 0;
    while k < routes.len()
        invariant
            k <= routes@.len(),
            indexes_map(nodes@, kept@, m),
            m == enabled_node_map(nodes@),
            is_cv_route_list(out@, cv_routes_spec(nodes@, routes@.take(k as int))),
        decreases routes.len() - k,
    {
        assert(routes@.take(k as int + 1).drop_last() =~= routes@.take(k as int));
        assert(routes@.take(k as int + 1).last() == routes@[k as int]);
        let r = &routes[k];
        if r.bus_id.is_none() {
            match find_kept(nodes, kept, &r.target_node_id) {
                Some(tj) => {
                    assert(kept@[tj as int] < nodes@.len());
                    let target = &nodes[kept[tj]];
                    assert(m[r.target_node_id@] == *target);
                    match find_by_id(&target.ports, &r.target_port_id) {
                        Some(pi) => {
                            out.push(CompiledCvRoute {
                                route_id: r.id.clone(),
                                source_node_id: r.source_node_id.clone(),
                                source_port_id: r.source_port_id.clone(),
                                target_node_id: r.target_node_id.clone(),
                                target_port_id: r.target_port_id.clone(),
                                signal_type: target.ports[pi].signal_type,
                            });
                        },
                        None => {},
                    }
                },
                None => {},
            }
        }
        k = k + 1;
    }
    assert(routes@.take(k as int) =~= routes@);
    out
}


// ---------------------------------------------------------------------------
// The whole compilation
// ---------------------------------------------------------------------------

/// `t` is the topology of `session`: its bus layout, one group holding the
/// compiled nodes in greedy launch order (every compiled node once), a
/// launch per node in that order, and the modulation routes.
pub open spec fn is_topology_of(t: CompiledTopology, session: SessionDocument) -> bool {
    let m = enabled_node_map(session.nodes@);
    let routes = session.routes@;
    &&& is_bus_layout(t.buses@, bus_order(session.buses@))
    &&& t.group_order@.len() == 1
    &&& t.group_order@[0].group_id@ == main_group_id()
    &&& {
        let p = t.group_order@[0].node_ids@.map_values(|x: String| x@);
        &&& is_greedy_order(m, routes, p)
        &&& forall|v: Seq<char>| #[trigger] m.dom().contains(v) ==> p.contains(v)
        &&& t.node_launch_order@.len() == p.len()
        &&& forall|i: int| 0 <= i < p.len() ==> is_launch_of(#[trigger] t.node_launch_order@[i], m[p[i]], routes)
    }
    &&& is_cv_route_list(t.cv_routes@, cv_routes_spec(session.nodes@, routes))
}

/// No launch order exists: launching greedily gets stuck with some compiled
/// node never ready.
pub open spec fn launch_blocked(session: SessionDocument) -> bool {
    let m = enabled_node_map(session.nodes@);
    exists|p: Seq<Seq<char>>| {
        &&& is_greedy_order(m, session.routes@, p)
        &&& is_stuck(m, session.routes@, p)
        &&& exists|v: Seq<char>| m.dom().contains(v) && !p.contains(v)
    }
}

/// The error compilation stops at, checked in this order: the nodes, the
/// nodes' bus targets, the routes; `None` when all pass.
pub open spec fn reference_error(session: SessionDocument) -> Option<TopologyErrorView> {
    let nodes = session.nodes@;
    if first_node_error(nodes) is Some {
        first_node_error(nodes)
    } else if bus_ref_error(enabled_node_map(nodes), session.buses@) is Some {
        bus_ref_error(enabled_node_map(nodes), session.buses@)
    } else {
        first_route_error(nodes, session.buses@, session.routes@)
    }
}

/// Compiles the session's audio graph: fails with the first reference
/// error, or with `CyclicGraph` when the routes admit no launch order;
/// otherwise returns the bus layout, the launch order and the modulation
/// routes.
pub fn compile_session_to_topology(session: &SessionDocument) -> (r: Result<CompiledTopology, TopologyCompileError>)
    requires
        channel_sum(enabled_buses(session.buses@)) <= u32::MAX,
    ensures
        match reference_error(*session) {
            Some(e) => r matches Err(x) && x@ == e,
            None => match r {
                Ok(t) => is_topology_of(t, *session),
                Err(x) => x is CyclicGraph && launch_blocked(*session),
            },
        },
{
    let buses = compile_buses(&session.buses);
    let kept = enabled_audio_nodes(&session.nodes)?;
    validate_node_bus_references(&session.nodes, &kept, &session.buses)?;
    validate_routes(&session.nodes, &kept, &session.buses, &session.routes)?;
    let order = match topo_sort_nodes(&session.nodes, &kept, &session.routes) {
        Ok(o) => o,
        Err(e) => {
            return Err(e);
        },
    };
    let ghost m = enabled_node_map(session.nodes@);
    let mut node_ids: Vec<String> = Vec::new();
    let mut launches: Vec<CompiledNodeLaunch> = Vec::new();
    let mut i: usize = 0;
    while i < order.len()
        invariant
            i <= order@.len(),
            m == enabled_node_map(session.nodes@),
            forall|q: int| 0 <= q < order@.len() ==> (#[trigger] order@[q]) < session.nodes@.len()
                && m[session.nodes@[order@[q] as int].id@] == session.nodes@[order@[q] as int],
            node_ids@.len() == i,
            launches@.len() == i,
            forall|q: int| 0 <= q < i ==> (#[trigger] node_ids@[q])@ == session.nodes@[order@[q] as int].id@,
            forall|q: int| 0 <= q < i ==> is_launch_of(#[trigger] launches@[q], session.nodes@[order@[q] as int], session.routes@),
        decreases order.len() - i,
    {
        let n = &session.nodes[order[i]];
        node_ids.push(n.id.clone());
        launches.push(compile_node_launch(n, &session.routes));
        i = i + 1;
    }
    let cv_routes = compile_cv_routes(&session.nodes, &kept, &session.routes);
    let ghost p = node_ids@.map_values(|x: String| x@);
    assert(p =~= ids_at(session.nodes@, order@));
    let groups = vec![CompiledGroup { group_id: "group-main-signal".to_owned(), node_ids }];
    let t = CompiledTopology { buses, group_order: groups, node_launch_order: launches, cv_routes };
    proof {
        assert(t.group_order@[0].node_ids@.map_values(|x: String| x@) =~= p);
        assert forall|q: int| 0 <= q < p.len() implies is_launch_of(#[trigger] t.node_launch_order@[q], m[p[q]], session.routes@) by {
            assert(p[q] == session.nodes@[order@[q] as int].id@);
        }
    }
    Ok(t)
}


/// A greedy launch order is a topological order: no node launches twice,
/// and the source of every route between compiled nodes launches before its
/// target.
pub proof fn lemma_launch_order_respects_routes(
    m: Map<Seq<char>, Node>,
    routes: Seq<Route>,
    p: Seq<Seq<char>>,
    k: int,
    j: int,
)
    requires
        is_greedy_order(m, routes, p),
        0 <= k < routes.len(),
        in_graph(m, routes[k]),
        0 <= j < p.len(),
        p[j] == routes[k].target_node_id@,
    ensures
        exists|i: int| 0 <= i < j && p[i] == routes[k].source_node_id@,
        forall|a: int, b: int| 0 <= a < b < p.len() ==> p[a] != p[b],
{
    assert(is_ready(m, routes, p.take(j), p[j]));
    assert(p.take(j).contains(routes[k].source_node_id@));
    let i = choose|i: int| 0 <= i < p.take(j).len() && p.take(j)[i] == routes[k].source_node_id@;
    assert(p[i] == routes[k].source_node_id@);
    assert forall|a: int, b: int| 0 <= a < b < p.len() implies p[a] != p[b] by {
        assert(is_ready(m, routes, p.take(b), p[b]));
        assert(p.take(b)[a] == p[a]);
    }
}


/// In a compiled topology every route between compiled nodes has its
/// source launched before its target.
pub proof fn lemma_topology_launches_sources_first(t: CompiledTopology, session: SessionDocument, k: int)
    requires
        is_topology_of(t, session),
        0 <= k < session.routes@.len(),
        in_graph(enabled_node_map(session.nodes@), session.routes@[k]),
    ensures
        exists|i: int, j: int|
            0 <= i < j < t.node_launch_order@.len()
                && t.group_order@[0].node_ids@[i]@ == session.routes@[k].source_node_id@
                && t.group_order@[0].node_ids@[j]@ == session.routes@[k].target_node_id@,
{
    let m = enabled_node_map(session.nodes@);
    let p = t.group_order@[0].node_ids@.map_values(|x: String| x@);
    let target = session.routes@[k].target_node_id@;
    assert(m.dom().contains(target));
    assert(p.contains(target));
    let j = choose|j: int| 0 <= j < p.len() && p[j] == target;
    lemma_launch_order_respects_routes(m, session.routes@, p, k, j);
    let i = choose|i: int| 0 <= i < j && p[i] == session.routes@[k].source_node_id@;
    assert(t.group_order@[0].node_ids@[i]@ == p[i]);
    assert(t.group_order@[0].node_ids@[j]@ == p[j]);
}

/// With no route between compiled nodes, a compiled topology launches its
/// nodes in ascending launch key: by catalog category rank (255 for a type
/// the catalog does not know), then by id.
pub proof fn lemma_unrouted_launch_ascending(t: CompiledTopology, session: SessionDocument, i: int, j: int)
    requires
        is_topology_of(t, session),
        forall|k: int|
            0 <= k < session.routes@.len() ==> !in_graph(enabled_node_map(session.nodes@), #[trigger] session.routes@[k]),
        0 <= i < j < t.node_launch_order@.len(),
    ensures
        node_key_le(
            enabled_node_map(session.nodes@)[t.group_order@[0].node_ids@[i]@],
            enabled_node_map(session.nodes@)[t.group_order@[0].node_ids@[j]@],
        ),
{
    let m = enabled_node_map(session.nodes@);
    let routes = session.routes@;
    let p = t.group_order@[0].node_ids@.map_values(|x: String| x@);
    assert(is_ready(m, routes, p.take(j), p[j]));
    assert(is_ready(m, routes, p.take(i), p[i]));
    assert(!p.take(i).contains(p[j])) by {
        if p.take(i).contains(p[j]) {
            let q = choose|q: int| 0 <= q < p.take(i).len() && p.take(i)[q] == p[j];
            assert(p.take(j)[q] == p[j]);
        }
    }
    assert(is_ready(m, routes, p.take(i), p[j]));
    assert(t.group_order@[0].node_ids@[i]@ == p[i]);
    assert(t.group_order@[0].node_ids@[j]@ == p[j]);
}

} // verus!

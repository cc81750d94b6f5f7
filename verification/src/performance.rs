//! Performance commands: recalling a scene, saving the current parameter
//! values of a scene as a variation, and restoring a variation.
use vstd::prelude::*;
use crate::domain::{
    new_id, is_uuid_v4_text, MacroDefinition, MacroOverride, Node, ParameterOverride,
    ParameterValue, PerformanceCommand, SceneDefinition, SessionDocument, VariationDefinition,
};
use crate::float_bits::{f64_lt, spec_lt};
use crate::lookup::{contains_string, contains_text, find_by_id, find_id, has_id, HasId};
use crate::ordering::{seq_le, seq_lt, sort_by_key, sorted_by_key, str_le, SortKey};
use crate::params::{
    apply_macro_targets, grid_fits, lemma_macro_writes_fits, lemma_macro_writes_shape,
    lemma_same_but_values_trans, lemma_set_all_shape, lemma_values_fit, macro_writable,
    macro_writes, same_but_values, set_all, set_all_matching, values_of,
};
use crate::session_store::SessionStore;

verus! {

#[derive(Debug, PartialEq)]
pub enum PerformanceCommandError {
    MissingScene { scene_id: String },
    MissingVariation { variation_id: String },
    ParameterOutOfRange { node_id: String, parameter_id: String },
}

impl PerformanceCommandError {
    /// The text shown for this error.
    pub fn message(&self) -> (r: String)
        ensures
            r@ == match *self {
                PerformanceCommandError::MissingScene { scene_id } => "scene '"@ + scene_id@
                    + "' was not found"@,
                PerformanceCommandError::MissingVariation { variation_id } => "variation '"@
                    + variation_id@ + "' was not found"@,
                PerformanceCommandError::ParameterOutOfRange { node_id, parameter_id } =>
                    "parameter '"@ + parameter_id@ + "' is out of range on node '"@ + node_id@ + "'"@,
            },
    {
        match self {
            PerformanceCommandError::MissingScene { scene_id } => {
                let mut s = "scene '".to_owned();
                s.append(scene_id.as_str());
                s.append("' was not found");
                s
            },
            PerformanceCommandError::MissingVariation { variation_id } => {
                let mut s = "variation '".to_owned();
                s.append(variation_id.as_str());
                s.append("' was not found");
                s
            },
            PerformanceCommandError::ParameterOutOfRange { node_id, parameter_id } => {
                let mut s = "parameter '".to_owned();
                s.append(parameter_id.as_str());
                s.append("' is out of range on node '");
                s.append(node_id.as_str());
                s.append("'");
                s
            },
        }
    }
}

// ---------------------------------------------------------------------------
// Scene recall
// ---------------------------------------------------------------------------

/// The value grid after the macro overrides of a scene, in order; `sc[k]`
/// is the scaled value of override `k`. Overrides of unknown macros do
/// nothing.
pub open spec fn scene_writes(
    nodes: Seq<Node>,
    vals: Seq<Seq<u64>>,
    overrides: Seq<MacroOverride>,
    macros: Seq<MacroDefinition>,
    sc: Seq<u64>,
) -> Seq<Seq<u64>>
    decreases overrides.len(),
{
    if overrides.len() == 0 {
        vals
    } else {
        let k = overrides.len() - 1;
        let prev = scene_writes(nodes, vals, overrides.drop_last(), macros, sc);
        if has_id(macros, overrides[k].macro_id@) {
            macro_writes(nodes, prev, find_id(macros, overrides[k].macro_id@), sc[k])
        } else {
            prev
        }
    }
}

proof fn lemma_scene_writes_fits(
    nodes: Seq<Node>,
    vals: Seq<Seq<u64>>,
    overrides: Seq<MacroOverride>,
    macros: Seq<MacroDefinition>,
    sc: Seq<u64>,
)
    requires
        grid_fits(nodes, vals),
    ensures
        grid_fits(nodes, scene_writes(nodes, vals, overrides, macros, sc)),
    decreases overrides.len(),
{
    if overrides.len() > 0 {
        let k = overrides.len() - 1;
        lemma_scene_writes_fits(nodes, vals, overrides.drop_last(), macros, sc);
        if has_id(macros, overrides[k].macro_id@) {
            lemma_macro_writes_fits(
                nodes,
                scene_writes(nodes, vals, overrides.drop_last(), macros, sc),
                find_id(macros, overrides[k].macro_id@),
                sc[k],
            );
        }
    }
}

/// `sc[k]` is what `scale` returned for override `k` of a known macro:
/// the macro's range and the override's value.
pub open spec fn scaled_by<S: Fn(u64, u64, u64) -> u64>(
    scale: S,
    overrides: Seq<MacroOverride>,
    macros: Seq<MacroDefinition>,
    sc: Seq<u64>,
) -> bool {
    &&& sc.len() == overrides.len()
    &&& forall|k: int|
        0 <= k < overrides.len() && has_id(macros, (#[trigger] overrides[k]).macro_id@) ==> {
            let m = find_id(macros, overrides[k].macro_id@);
            scale.ensures((m.range_start, m.range_end, overrides[k].value), sc[k])
        }
}

/// Every parameter the overrides write has well-ordered bounds (clamping
/// into them is defined).
pub open spec fn overrides_writable(
    nodes: Seq<Node>,
    overrides: Seq<MacroOverride>,
    macros: Seq<MacroDefinition>,
) -> bool {
    forall|k: int|
        0 <= k < overrides.len() && has_id(macros, (#[trigger] overrides[k]).macro_id@)
            ==> macro_writable(nodes, find_id(macros, overrides[k].macro_id@))
}

/// `b` is `a` with each node enabled exactly when its id is listed.
pub open spec fn enabled_by(a: Seq<Node>, b: Seq<Node>, active: Seq<String>) -> bool {
    &&& a.len() == b.len()
    &&& forall|i: int|
        0 <= i < a.len() ==> #[trigger] b[i] == (Node { enabled: contains_text(active, a[i].id@), ..a[i] })
}

/// What recalling scene `scene_id` does to `s`: each node is enabled exactly
/// when the scene lists it, and the scene's macro overrides write their
/// scaled values (clamped) to their targets.
pub open spec fn recall_post<S: Fn(u64, u64, u64) -> u64>(
    s: SessionDocument,
    t: SessionDocument,
    scene_id: Seq<char>,
    scale: S,
) -> bool {
    let scene = find_id(s.scenes@, scene_id);
    &&& t == (SessionDocument { nodes: t.nodes, ..s })
    &&& exists|mid: Seq<Node>, sc: Seq<u64>|
        {
            &&& scaled_by(scale, scene.macro_overrides@, s.macros@, sc)
            &&& same_but_values(s.nodes@, mid)
            &&& values_of(mid) == scene_writes(
                s.nodes@,
                values_of(s.nodes@),
                scene.macro_overrides@,
                s.macros@,
                sc,
            )
            &&& enabled_by(mid, t.nodes@, scene.active_node_ids@)
        }
}

/// Whether recalling `scene_id` is defined: the scene's overrides only
/// write parameters with well-ordered bounds.
pub open spec fn recall_defined(s: SessionDocument, scene_id: Seq<char>) -> bool {
    has_id(s.scenes@, scene_id) ==> overrides_writable(
        s.nodes@,
        find_id(s.scenes@, scene_id).macro_overrides@,
        s.macros@,
    )
}

/// Recalls a scene: enables exactly its nodes and applies its macro
/// overrides; `scale(start, end, t)` is the value a macro ranging from
/// `start` to `end` takes at `t` (`f64` bits).
pub fn recall_scene<S: Fn(u64, u64, u64) -> u64>(
    session: &mut SessionDocument,
    scene_id: &String,
    scale: &S,
) -> (r: Result<(), PerformanceCommandError>)
    requires
        forall|a: u64, b: u64, c: u64| scale.requires((a, b, c)),
        recall_defined(*old(session), scene_id@),
    ensures
        !has_id(old(session).scenes@, scene_id@) ==> r == Err::<(), PerformanceCommandError>(
            PerformanceCommandError::MissingScene { scene_id: *scene_id },
        ) && *final(session) == *old(session),
        has_id(old(session).scenes@, scene_id@) ==> r is Ok && recall_post(
            *old(session),
            *final(session),
            scene_id@,
            *scale,
        ),
{
    let si = match find_by_id(&session.scenes, scene_id) {
        Some(i) => i,
        None => {
            return Err(PerformanceCommandError::MissingScene { scene_id: scene_id.clone() });
        },
    };
    let ghost s0 = *session;
    let ghost scene = s0.scenes@[si as int];
    let overrides = &session.scenes[si].macro_overrides;
    let mut nodes: Vec<Node> = Vec::new();
    std::mem::swap(&mut nodes, &mut session.nodes);
    let ghost orig = nodes@;
    let ghost mut sc: Seq<u64> = Seq::empty();
    proof {
        assert forall|i: int| 0 <= i < orig.len() implies #[trigger] orig[i] == (Node {
            parameters: orig[i].parameters,
            ..orig[i]
        }) by {}
        assert(values_of(orig) == scene_writes(orig, values_of(orig), overrides@.take(0), s0.macros@, sc));
    }
    let mut k: usize = 0;
    while k < overrides.len()
        invariant
            k <= overrides@.len(),
            overrides@ == scene.macro_overrides@,
            session.macros@ == s0.macros@,
            overrides_writable(orig, overrides@, s0.macros@),
            sc.len() == k,
            scaled_by(*scale, overrides@.take(k as int), s0.macros@, sc),
            forall|a: u64, b: u64, c: u64| scale.requires((a, b, c)),
            same_but_values(orig, nodes@),
            values_of(nodes@) == scene_writes(orig, values_of(orig), overrides@.take(k as int), s0.macros@, sc),
        decreases overrides.len() - k,
    {
        let o = &overrides[k];
        let ghost pre = overrides@.take(k as int);
        assert(overrides@.take(k as int + 1).drop_last() =~= pre);
        match find_by_id(&session.macros, &o.macro_id) {
            Some(mi) => {
                let m = &session.macros[mi];
                let v = scale(m.range_start, m.range_end, o.value);
                let ghost before = nodes@;
                proof {
                    lemma_scene_writes_fits(orig, values_of(orig), pre, s0.macros@, sc);
                    lemma_macro_writes_shape(orig, before, scene_writes(orig, values_of(orig), pre, s0.macros@, sc), *m, v);
                    assert(macro_writable(orig, *m));
                }
                apply_macro_targets(&mut nodes, m, v);
                proof {
                    crate::params::lemma_same_but_values_trans(orig, before, nodes@);
                    let old_sc = sc;
                    sc = sc.push(v);
                    lemma_scene_writes_prefix(orig, values_of(orig), pre, s0.macros@, old_sc, sc);
                    let w = overrides@.take(k as int + 1);
                    assert(w.drop_last() =~= pre);
                    assert(w[k as int] == *o);
                    assert(find_id(s0.macros@, o.macro_id@) == *m);
                    assert(scene_writes(orig, values_of(orig), w, s0.macros@, sc) == macro_writes(
                        orig,
                        scene_writes(orig, values_of(orig), pre, s0.macros@, sc),
                        *m,
                        v,
                    ));
                }
            },
            None => {
                proof {
                    let old_sc = sc;
                    sc = sc.push(0u64);
                    lemma_scene_writes_prefix(orig, values_of(orig), pre, s0.macros@, old_sc, sc);
                    let w = overrides@.take(k as int + 1);
                    assert(w.drop_last() =~= pre);
                    assert(w[k as int] == *o);
                }
            },
        }
        assert forall|j: int|
            0 <= j < k + 1 && has_id(s0.macros@, (#[trigger] overrides@.take(k as int + 1)[j]).macro_id@)
                implies {
            let m = find_id(s0.macros@, overrides@.take(k as int + 1)[j].macro_id@);
            scale.ensures((m.range_start, m.range_end, overrides@.take(k as int + 1)[j].value), sc[j])
        } by {
            if j < k {
                assert(overrides@.take(k as int + 1)[j] == pre[j]);
            }
        }
        k = k + 1;
    }
    assert(overrides@.take(k as int) =~= overrides@);
    let ghost mid = nodes@;
    let active = &session.scenes[si].active_node_ids;
    let mut i: usize = 0;
    while i < nodes.len()
        invariant
            i <= nodes@.len(),
            nodes@.len() == mid.len(),
            active@ == scene.active_node_ids@,
            forall|j: int|
                0 <= j < i ==> #[trigger] nodes@[j] == (Node {
                    enabled: contains_text(active@, mid[j].id@),
                    ..mid[j]
                }),
            forall|j: int| i <= j < nodes@.len() ==> #[trigger] nodes@[j] == mid[j],
        decreases nodes.len() - i,
    {
        let e = contains_string(active, &nodes[i].id);
        nodes[i].enabled = e;
        i = i + 1;
    }
    session.nodes = nodes;
    assert(enabled_by(mid, session.nodes@, scene.active_node_ids@));
    assert(scene == find_id(s0.scenes@, scene_id@));
    Ok(())
}

proof fn lemma_scene_writes_prefix(
    nodes: Seq<Node>,
    vals: Seq<Seq<u64>>,
    overrides: Seq<MacroOverride>,
    macros: Seq<MacroDefinition>,
    sc1: Seq<u64>,
    sc2: Seq<u64>,
)
    requires
        sc1.len() >= overrides.len(),
        sc2.len() >= overrides.len(),
        forall|k: int| 0 <= k < overrides.len() ==> sc1[k] == sc2[k],
    ensures
        scene_writes(nodes, vals, overrides, macros, sc1) == scene_writes(nodes, vals, overrides, macros, sc2),
    decreases overrides.len(),
{
    if overrides.len() > 0 {
        lemma_scene_writes_prefix(nodes, vals, overrides.drop_last(), macros, sc1, sc2);
    }
}

// ---------------------------------------------------------------------------
// Variation restore
// ---------------------------------------------------------------------------

/// `v` lies outside the parameter's bounds.
pub open spec fn out_of_range(p: ParameterValue, v: u64) -> bool {
    spec_lt(v, p.min_value) || spec_lt(p.max_value, v)
}

/// Node `n` has a parameter `pid` whose bounds exclude `v`.
pub open spec fn node_violates(n: Node, pid: Seq<char>, v: u64) -> bool {
    exists|j: int|
        0 <= j < n.parameters@.len() && (#[trigger] n.parameters@[j]).id@ == pid && out_of_range(
            n.parameters@[j],
            v,
        )
}

/// `i` is the first node that has a parameter `pid` excluding `v`.
pub open spec fn is_first_violator(nodes: Seq<Node>, pid: Seq<char>, v: u64, i: int) -> bool {
    &&& 0 <= i < nodes.len()
    &&& node_violates(nodes[i], pid, v)
    &&& forall|k: int| 0 <= k < i ==> !node_violates(#[trigger] nodes[k], pid, v)
}

/// The first node (its id) on which restoring override `o` would leave a
/// parameter out of its bounds.
pub open spec fn override_violation(nodes: Seq<Node>, o: ParameterOverride) -> Option<Seq<char>> {
    if exists|i: int| 0 <= i < nodes.len() && node_violates(#[trigger] nodes[i], o.parameter_id@, o.value) {
        Some(nodes[choose|i: int| is_first_violator(nodes, o.parameter_id@, o.value, i)].id@)
    } else {
        None
    }
}

/// The first out-of-bounds write of a variation, as (node id, parameter id),
/// taking the overrides in order.
pub open spec fn first_violation(nodes: Seq<Node>, overrides: Seq<ParameterOverride>) -> Option<
    (Seq<char>, Seq<char>),
>
    decreases overrides.len(),
{
    if overrides.len() == 0 {
        None
    } else {
        match first_violation(nodes, overrides.drop_last()) {
            Some(x) => Some(x),
            None => match override_violation(nodes, overrides.last()) {
                Some(node_id) => Some((node_id, overrides.last().parameter_id@)),
                None => None,
            },
        }
    }
}

/// The value grid after writing each override's value to every parameter
/// with its id, in order.
pub open spec fn variation_writes(
    nodes: Seq<Node>,
    vals: Seq<Seq<u64>>,
    overrides: Seq<ParameterOverride>,
) -> Seq<Seq<u64>>
    decreases overrides.len(),
{
    if overrides.len() == 0 {
        vals
    } else {
        set_all(
            nodes,
            variation_writes(nodes, vals, overrides.drop_last()),
            overrides.last().parameter_id@,
            overrides.last().value,
        )
    }
}

proof fn lemma_variation_writes_fits(nodes: Seq<Node>, vals: Seq<Seq<u64>>, overrides: Seq<ParameterOverride>)
    requires
        grid_fits(nodes, vals),
    ensures
        grid_fits(nodes, variation_writes(nodes, vals, overrides)),
    decreases overrides.len(),
{
    if overrides.len() > 0 {
        lemma_variation_writes_fits(nodes, vals, overrides.drop_last());
        lemma_set_all_shape(
            nodes,
            nodes,
            variation_writes(nodes, vals, overrides.drop_last()),
            overrides.last().parameter_id@,
            overrides.last().value,
        );
    }
}

fn node_violation(n: &Node, pid: &String, v: u64) -> (r: bool)
    ensures
        r == node_violates(*n, pid@, v),
{
    let mut j: usize = 0;
    while j < n.parameters.len()
        invariant
            j <= n.parameters@.len(),
            forall|k: int|
                0 <= k < j ==> !((#[trigger] n.parameters@[k]).id@ == pid@ && out_of_range(
                    n.parameters@[k],
                    v,
                )),
        decreases n.parameters.len() - j,
    {
        let p = &n.parameters[j];
        if p.id.eq(pid) && (f64_lt(v, p.min_value) || f64_lt(p.max_value, v)) {
            return true;
        }
        j = j + 1;
    }
    false
}

fn first_violator(nodes: &Vec<Node>, pid: &String, v: u64) -> (r: Option<usize>)
    ensures
        match r {
            Some(i) => is_first_violator(nodes@, pid@, v, i as int),
            None => !exists|i: int| 0 <= i < nodes@.len() && node_violates(#[trigger] nodes@[i], pid@, v),
        },
{
    let mut i: usize = 0;
    while i < nodes.len()
        invariant
            i <= nodes@.len(),
            forall|k: int| 0 <= k < i ==> !node_violates(#[trigger] nodes@[k], pid@, v),
        decreases nodes.len() - i,
    {
        if node_violation(&nodes[i], pid, v) {
            return Some(i);
        }
        i = i + 1;
    }
    None
}

proof fn lemma_first_violator_unique(nodes: Seq<Node>, pid: Seq<char>, v: u64, i: int)
    requires
        is_first_violator(nodes, pid, v, i),
    ensures
        (choose|k: int| is_first_violator(nodes, pid, v, k)) == i,
{
    let k = choose|k: int| is_first_violator(nodes, pid, v, k);
    assert(is_first_violator(nodes, pid, v, k));
    if k < i {
        assert(!node_violates(nodes[k], pid, v));
    } else if i < k {
        assert(!node_violates(nodes[i], pid, v));
    }
}

/// What restoring variation `variation_id` does to `s` when no write falls
/// out of bounds: every override's value is written to every parameter with
/// its id, in order; nothing else changes.
pub open spec fn restore_post(s: SessionDocument, t: SessionDocument, variation_id: Seq<char>) -> bool {
    let var = find_id(s.variations@, variation_id);
    &&& t == (SessionDocument { nodes: t.nodes, ..s })
    &&& same_but_values(s.nodes@, t.nodes@)
    &&& values_of(t.nodes@) == variation_writes(
        s.nodes@,
        values_of(s.nodes@),
        var.parameter_overrides@,
    )
}

/// Restores a variation: writes its parameter values, all or nothing.
pub fn restore_variation(session: &mut SessionDocument, variation_id: &String) -> (r: Result<
    (),
    PerformanceCommandError,
>)
    ensures
        !has_id(old(session).variations@, variation_id@) ==> r == Err::<(), PerformanceCommandError>(
            PerformanceCommandError::MissingVariation { variation_id: *variation_id },
        ),
        has_id(old(session).variations@, variation_id@) ==> match first_violation(
            old(session).nodes@,
            find_id(old(session).variations@, variation_id@).parameter_overrides@,
        ) {
            Some((node_id, parameter_id)) => r matches Err(
                PerformanceCommandError::ParameterOutOfRange { node_id: n, parameter_id: p },
            ) && n@ == node_id && p@ == parameter_id,
            None => r is Ok && restore_post(*old(session), *final(session), variation_id@),
        },
        r is Err ==> *final(session) == *old(session),
{
    let vi = match find_by_id(&session.variations, variation_id) {
        Some(i) => i,
        None => {
            return Err(
                PerformanceCommandError::MissingVariation { variation_id: variation_id.clone() },
            );
        },
    };
    let ghost s0 = *session;
    assert(find_id(s0.variations@, variation_id@) == s0.variations@[vi as int]);
    let overrides = &session.variations[vi].parameter_overrides;
    let mut k: usize = 0;
    while k < overrides.len()
        invariant
            k <= overrides@.len(),
            *session == s0,
            has_id(s0.variations@, variation_id@),
            overrides@ == find_id(s0.variations@, variation_id@).parameter_overrides@,
            first_violation(session.nodes@, overrides@.take(k as int)) is None,
        decreases overrides.len() - k,
    {
        let o = &overrides[k];
        assert(overrides@.take(k as int + 1).drop_last() =~= overrides@.take(k as int));
        assert(overrides@.take(k as int + 1).last() == *o);
        match first_violator(&session.nodes, &o.parameter_id, o.value) {
            Some(i) => {
                proof {
                    lemma_first_violator_unique(session.nodes@, o.parameter_id@, o.value, i as int);
                    let pre = overrides@.take(k as int);
                    let w = overrides@.take(k as int + 1);
                    assert(override_violation(session.nodes@, *o) == Some(session.nodes@[i as int].id@));
                    assert(first_violation(session.nodes@, w) == Some((session.nodes@[i as int].id@, o.parameter_id@)));
                    lemma_first_violation_extends(session.nodes@, overrides@, k as int + 1);
                }
                return Err(
                    PerformanceCommandError::ParameterOutOfRange {
                        node_id: session.nodes[i].id.clone(),
                        parameter_id: o.parameter_id.clone(),
                    },
                );
            },
            None => {},
        }
        k = k + 1;
    }
    assert(overrides@.take(k as int) =~= overrides@);
    let ghost ovs = overrides@;
    let overrides = session.variations[vi].parameter_overrides.clone();
    let mut nodes: Vec<Node> = Vec::new();
    std::mem::swap(&mut nodes, &mut session.nodes);
    let ghost orig = nodes@;
    proof {
        assert forall|i: int| 0 <= i < orig.len() implies #[trigger] orig[i] == (Node {
            parameters: orig[i].parameters,
            ..orig[i]
        }) by {}
        lemma_values_fit(orig);
    }
    let mut k: usize = 0;
    while k < overrides.len()
        invariant
            k <= overrides@.len(),
            overrides@ == ovs,
            grid_fits(orig, values_of(orig)),
            same_but_values(orig, nodes@),
            values_of(nodes@) == variation_writes(orig, values_of(orig), ovs.take(k as int)),
        decreases overrides.len() - k,
    {
        let ghost before = nodes@;
        assert(ovs.take(k as int + 1).drop_last() =~= ovs.take(k as int));
        proof {
            lemma_variation_writes_fits(orig, values_of(orig), ovs.take(k as int));
            lemma_set_all_shape(
                orig,
                before,
                variation_writes(orig, values_of(orig), ovs.take(k as int)),
                ovs[k as int].parameter_id@,
                ovs[k as int].value,
            );
        }
        set_all_matching(&mut nodes, &overrides[k].parameter_id, overrides[k].value);
        proof {
            lemma_same_but_values_trans(orig, before, nodes@);
        }
        k = k + 1;
    }
    assert(ovs.take(k as int) =~= ovs);
    session.nodes = nodes;
    Ok(())
}

proof fn lemma_first_violation_extends(nodes: Seq<Node>, overrides: Seq<ParameterOverride>, n: int)
    requires
        0 <= n <= overrides.len(),
        first_violation(nodes, overrides.take(n)) is Some,
    ensures
        first_violation(nodes, overrides) == first_violation(nodes, overrides.take(n)),
    decreases overrides.len() - n,
{
    if n < overrides.len() {
        assert(overrides.take(n + 1).drop_last() =~= overrides.take(n));
        lemma_first_violation_extends(nodes, overrides, n + 1);
    } else {
        assert(overrides.take(n) =~= overrides);
    }
}

// ---------------------------------------------------------------------------
// Variation save
// ---------------------------------------------------------------------------

impl SortKey for ParameterOverride {
    open spec fn key_le(&self, other: &Self) -> bool {
        seq_le(self.parameter_id@, other.parameter_id@)
    }

    fn le(&self, other: &Self) -> (r: bool) {
        str_le(self.parameter_id.as_str(), other.parameter_id.as_str())
    }
}

impl SortKey for VariationDefinition {
    /// Ordered by scene id, then by name.
    open spec fn key_le(&self, other: &Self) -> bool {
        seq_lt(self.scene_id@, other.scene_id@) || (self.scene_id@ == other.scene_id@ && seq_le(
            self.name@,
            other.name@,
        ))
    }

    fn le(&self, other: &Self) -> (r: bool) {
        !str_le(other.scene_id.as_str(), self.scene_id.as_str()) || (self.scene_id.eq(
            &other.scene_id,
        ) && str_le(self.name.as_str(), other.name.as_str()))
    }
}

/// The override that pins parameter `p` to its current value.
pub open spec fn pin(p: ParameterValue) -> ParameterOverride {
    ParameterOverride { parameter_id: p.id, value: p.value }
}

/// The current values of the parameters of the listed nodes (the first
/// node with each id), in list order.
pub open spec fn snapshot(nodes: Seq<Node>, active: Seq<String>) -> Seq<ParameterOverride>
    decreases active.len(),
{
    if active.len() == 0 {
        seq![]
    } else {
        let prev = snapshot(nodes, active.drop_last());
        if has_id(nodes, active.last()@) {
            prev + find_id(nodes, active.last()@).parameters@.map_values(|p: ParameterValue| pin(p))
        } else {
            prev
        }
    }
}

/// What saving a variation named `name` for scene `scene_id` does to `s`:
/// one new variation, with a fresh id, holding the sorted snapshot of the
/// scene's nodes, is added, and the variations are kept sorted by scene and
/// name.
pub open spec fn save_post(s: SessionDocument, t: SessionDocument, name: Seq<char>, scene_id: Seq<char>) -> bool {
    let scene = find_id(s.scenes@, scene_id);
    &&& t == (SessionDocument { variations: t.variations, ..s })
    &&& exists|var: VariationDefinition|
        {
            &&& is_uuid_v4_text(var.id@)
            &&& var.name@ == name
            &&& var.scene_id@ == scene_id
            &&& var.parameter_overrides@ == sorted_by_key(snapshot(s.nodes@, scene.active_node_ids@))
            &&& t.variations@ == sorted_by_key(s.variations@.push(var))
        }
}

/// Saves the current values of a scene's nodes as a new variation.
pub fn save_variation(session: &mut SessionDocument, name: &String, scene_id: &String) -> (r: Result<
    (),
    PerformanceCommandError,
>)
    ensures
        !has_id(old(session).scenes@, scene_id@) ==> r == Err::<(), PerformanceCommandError>(
            PerformanceCommandError::MissingScene { scene_id: *scene_id },
        ) && *final(session) == *old(session),
        has_id(old(session).scenes@, scene_id@) ==> r is Ok && save_post(
            *old(session),
            *final(session),
            name@,
            scene_id@,
        ),
{
    let si = match find_by_id(&session.scenes, scene_id) {
        Some(i) => i,
        None => {
            return Err(PerformanceCommandError::MissingScene { scene_id: scene_id.clone() });
        },
    };
    let ghost s0 = *session;
    let active = &session.scenes[si].active_node_ids;
    let mut collected: Vec<ParameterOverride> = Vec::new();
    let mut k: usize = 0;
    while k < active.len()
        invariant
            k <= active@.len(),
            collected@ == snapshot(session.nodes@, active@.take(k as int)),
        decreases active.len() - k,
    {
        assert(active@.take(k as int + 1).drop_last() =~= active@.take(k as int));
        let ghost prev = collected@;
        match find_by_id(&session.nodes, &active[k]) {
            Some(ni) => {
                let params = &session.nodes[ni].parameters;
                let mut j: usize = 0;
                while j < params.len()
                    invariant
                        j <= params@.len(),
                        collected@ == prev + params@.take(j as int).map_values(|p: ParameterValue| pin(p)),
                    decreases params.len() - j,
                {
                    collected.push(
                        ParameterOverride { parameter_id: params[j].id.clone(), value: params[j].value },
                    );
                    assert(params@.take(j as int + 1).map_values(|p: ParameterValue| pin(p)) =~= params@.take(
                        j as int,
                    ).map_values(|p: ParameterValue| pin(p)).push(pin(params@[j as int])));
                    j = j + 1;
                    assert(collected@ =~= prev + params@.take(j as int).map_values(|p: ParameterValue| pin(p)));
                }
                assert(params@.take(j as int) =~= params@);
            },
            None => {},
        }
        k = k + 1;
    }
    assert(active@.take(k as int) =~= active@);
    let sorted = sort_by_key(collected);
    let variation = VariationDefinition {
        id: new_id(),
        name: name.clone(),
        scene_id: scene_id.clone(),
        parameter_overrides: sorted,
    };
    let ghost var = variation;
    let mut vars: Vec<VariationDefinition> = Vec::new();
    std::mem::swap(&mut vars, &mut session.variations);
    vars.push(variation);
    session.variations = sort_by_key(vars);
    assert(find_id(s0.scenes@, scene_id@) == s0.scenes@[si as int]);
    Ok(())
}

// ---------------------------------------------------------------------------
// Dispatch
// ---------------------------------------------------------------------------

/// What a performance command promises: its error, with the session left
/// as it was, or its change.
pub open spec fn performance_outcome<S: Fn(u64, u64, u64) -> u64>(
    s: SessionDocument,
    t: SessionDocument,
    command: PerformanceCommand,
    scale: S,
    r: Result<(), PerformanceCommandError>,
) -> bool {
    &&& r is Err ==> t == s
    &&& match command {
        PerformanceCommand::RecallScene { scene_id } => if !has_id(s.scenes@, scene_id@) {
            r == Err::<(), PerformanceCommandError>(PerformanceCommandError::MissingScene { scene_id })
        } else {
            r is Ok && recall_post(s, t, scene_id@, scale)
        },
        PerformanceCommand::SaveVariation { name, scene_id } => if !has_id(s.scenes@, scene_id@) {
            r == Err::<(), PerformanceCommandError>(PerformanceCommandError::MissingScene { scene_id })
        } else {
            r is Ok && save_post(s, t, name@, scene_id@)
        },
        PerformanceCommand::RestoreVariation { variation_id } => if !has_id(
            s.variations@,
            variation_id@,
        ) {
            r == Err::<(), PerformanceCommandError>(
                PerformanceCommandError::MissingVariation { variation_id },
            )
        } else {
            match first_violation(
                s.nodes@,
                find_id(s.variations@, variation_id@).parameter_overrides@,
            ) {
                Some((node_id, parameter_id)) => r matches Err(
                    PerformanceCommandError::ParameterOutOfRange { node_id: n, parameter_id: p },
                ) && n@ == node_id && p@ == parameter_id,
                None => r is Ok && restore_post(s, t, variation_id@),
            }
        },
    }
}

/// Whether a performance command is defined on `s` (a recalled scene only
/// writes parameters with well-ordered bounds).
pub open spec fn performance_defined(s: SessionDocument, command: PerformanceCommand) -> bool {
    match command {
        PerformanceCommand::RecallScene { scene_id } => recall_defined(s, scene_id@),
        _ => true,
    }
}

/// Applies a performance command to a session, all or nothing.
pub fn apply_performance_to_session<S: Fn(u64, u64, u64) -> u64>(
    session: &mut SessionDocument,
    command: PerformanceCommand,
    scale: &S,
) -> (r: Result<(), PerformanceCommandError>)
    requires
        forall|a: u64, b: u64, c: u64| scale.requires((a, b, c)),
        performance_defined(*old(session), command),
    ensures
        performance_outcome(*old(session), *final(session), command, *scale, r),
{
    match command {
        PerformanceCommand::RecallScene { scene_id } => recall_scene(session, &scene_id, scale),
        PerformanceCommand::SaveVariation { name, scene_id } => save_variation(
            session,
            &name,
            &scene_id,
        ),
        PerformanceCommand::RestoreVariation { variation_id } => restore_variation(
            session,
            &variation_id,
        ),
    }
}

/// Applies a performance command to the store's current session, all or
/// nothing, and returns the session it leaves. `scale(start, end, t)` is
/// the value a macro ranging from `start` to `end` takes at `t`.
pub fn apply_performance_command<S: Fn(u64, u64, u64) -> u64>(
    store: &mut SessionStore,
    command: PerformanceCommand,
    scale: &S,
) -> (r: Result<SessionDocument, PerformanceCommandError>)
    requires
        forall|a: u64, b: u64, c: u64| scale.requires((a, b, c)),
        performance_defined(old(store).session(), command),
    ensures
        performance_outcome(
            old(store).session(),
            final(store).session(),
            command,
            *scale,
            match r {
                Ok(_) => Ok(()),
                Err(e) => Err(e),
            },
        ),
        r matches Ok(doc) ==> doc.same(&final(store).session()),
        final(store).settings() == old(store).settings(),
        final(store).status() == old(store).status(),
        final(store).learn() == old(store).learn(),
{
    let result = apply_performance_to_session(store.current_mut(), command, scale);
    match result {
        Ok(()) => Ok(store.current()),
        Err(e) => Err(e),
    }
}

// ---------------------------------------------------------------------------
// Saving then restoring a variation
// ---------------------------------------------------------------------------

/// No two parameters of the session, on the same node or on different
/// nodes, share an id.
pub open spec fn parameter_ids_unique(nodes: Seq<Node>) -> bool {
    forall|i1: int, j1: int, i2: int, j2: int|
        0 <= i1 < nodes.len() && 0 <= i2 < nodes.len() && 0 <= j1 < nodes[i1].parameters@.len() && 0
            <= j2 < nodes[i2].parameters@.len() && (#[trigger] nodes[i1].parameters@[j1]).id@ == (
        #[trigger] nodes[i2].parameters@[j2]).id@ ==> i1 == i2 && j1 == j2
}

/// Every parameter holds a value inside its bounds.
pub open spec fn values_in_bounds(nodes: Seq<Node>) -> bool {
    forall|i: int, j: int|
        0 <= i < nodes.len() && 0 <= j < nodes[i].parameters@.len() ==> !out_of_range(
            #[trigger] nodes[i].parameters@[j],
            nodes[i].parameters@[j].value,
        )
}

/// `o` records the current value of some parameter of the session.
pub open spec fn records_current(nodes: Seq<Node>, o: ParameterOverride) -> bool {
    exists|i: int, j: int|
        0 <= i < nodes.len() && 0 <= j < nodes[i].parameters@.len() && o == pin(
            #[trigger] nodes[i].parameters@[j],
        )
}

proof fn lemma_snapshot_records(nodes: Seq<Node>, active: Seq<String>)
    ensures
        forall|o: ParameterOverride| #[trigger] snapshot(nodes, active).contains(o) ==> records_current(nodes, o),
    decreases active.len(),
{
    if active.len() > 0 {
        lemma_snapshot_records(nodes, active.drop_last());
        let prev = snapshot(nodes, active.drop_last());
        if has_id(nodes, active.last()@) {
            crate::lookup::lemma_first_id_exists(nodes, active.last()@);
            let i = crate::lookup::first_id(nodes, active.last()@);
            let ps = nodes[i].parameters@;
            let pins = ps.map_values(|p: ParameterValue| pin(p));
            assert forall|o: ParameterOverride| #[trigger] (prev + pins).contains(o) implies records_current(
                nodes,
                o,
            ) by {
                let k = choose|k: int| 0 <= k < (prev + pins).len() && (prev + pins)[k] == o;
                if k < prev.len() {
                    assert(prev[k] == o);
                    assert(prev.contains(o));
                } else {
                    let j = k - prev.len();
                    assert(pins[j] == pin(ps[j]));
                    assert(o == pin(nodes[i].parameters@[j]));
                }
            }
        }
    }
}

proof fn lemma_set_current_keeps(nodes: Seq<Node>, o: ParameterOverride)
    requires
        parameter_ids_unique(nodes),
        records_current(nodes, o),
    ensures
        set_all(nodes, values_of(nodes), o.parameter_id@, o.value) == values_of(nodes),
{
    let (i0, j0) = choose|i: int, j: int|
        0 <= i < nodes.len() && 0 <= j < nodes[i].parameters@.len() && o == pin(
            #[trigger] nodes[i].parameters@[j],
        );
    let vals = values_of(nodes);
    let w = set_all(nodes, vals, o.parameter_id@, o.value);
    assert forall|i: int| 0 <= i < vals.len() implies #[trigger] w[i] == vals[i] by {
        assert forall|j: int| 0 <= j < vals[i].len() implies w[i][j] == vals[i][j] by {
            if nodes[i].parameters@[j].id@ == o.parameter_id@ {
                assert(nodes[i0].parameters@[j0].id@ == nodes[i].parameters@[j].id@);
                assert(i == i0 && j == j0);
            }
        }
        assert(w[i] =~= vals[i]);
    }
    assert(w =~= vals);
}

proof fn lemma_current_writes_keep(nodes: Seq<Node>, overrides: Seq<ParameterOverride>)
    requires
        parameter_ids_unique(nodes),
        forall|k: int| 0 <= k < overrides.len() ==> records_current(nodes, #[trigger] overrides[k]),
    ensures
        variation_writes(nodes, values_of(nodes), overrides) == values_of(nodes),
    decreases overrides.len(),
{
    if overrides.len() > 0 {
        lemma_current_writes_keep(nodes, overrides.drop_last());
        assert(records_current(nodes, overrides[overrides.len() - 1]));
        lemma_set_current_keeps(nodes, overrides.last());
    }
}

proof fn lemma_current_writes_fit(nodes: Seq<Node>, overrides: Seq<ParameterOverride>)
    requires
        parameter_ids_unique(nodes),
        values_in_bounds(nodes),
        forall|k: int| 0 <= k < overrides.len() ==> records_current(nodes, #[trigger] overrides[k]),
    ensures
        first_violation(nodes, overrides) is None,
    decreases overrides.len(),
{
    if overrides.len() > 0 {
        lemma_current_writes_fit(nodes, overrides.drop_last());
        let o = overrides.last();
        assert(records_current(nodes, overrides[overrides.len() - 1]));
        let (i0, j0) = choose|i: int, j: int|
            0 <= i < nodes.len() && 0 <= j < nodes[i].parameters@.len() && o == pin(
                #[trigger] nodes[i].parameters@[j],
            );
        assert forall|i: int| 0 <= i < nodes.len() implies !node_violates(
            #[trigger] nodes[i],
            o.parameter_id@,
            o.value,
        ) by {
            if node_violates(nodes[i], o.parameter_id@, o.value) {
                let j = choose|j: int|
                    0 <= j < nodes[i].parameters@.len() && (#[trigger] nodes[i].parameters@[j]).id@
                        == o.parameter_id@ && out_of_range(nodes[i].parameters@[j], o.value);
                assert(nodes[i0].parameters@[j0].id@ == nodes[i].parameters@[j].id@);
                assert(!out_of_range(nodes[i0].parameters@[j0], nodes[i0].parameters@[j0].value));
            }
        }
        assert(override_violation(nodes, o) is None);
    }
}

/// Restoring the variation that a save has just made brings every node
/// back exactly as it was saved, and the restore succeeds, when no two
/// parameters share an id and every value lies within its bounds.
/// `var_id` is the id of the new variation (one that no earlier variation
/// had); `u` is the session after restoring it.
pub proof fn lemma_restore_after_save(
    s: SessionDocument,
    t: SessionDocument,
    u: SessionDocument,
    name: Seq<char>,
    scene_id: Seq<char>,
    var_id: Seq<char>,
)
    requires
        save_post(s, t, name, scene_id),
        !has_id(s.variations@, var_id),
        has_id(t.variations@, var_id),
        parameter_ids_unique(s.nodes@),
        values_in_bounds(s.nodes@),
        restore_post(t, u, var_id),
    ensures
        first_violation(t.nodes@, find_id(t.variations@, var_id).parameter_overrides@) is None,
        same_but_values(s.nodes@, u.nodes@),
        values_of(u.nodes@) == values_of(s.nodes@),
{
    let scene = find_id(s.scenes@, scene_id);
    let var = choose|var: VariationDefinition|
        {
            &&& is_uuid_v4_text(var.id@)
            &&& var.name@ == name
            &&& var.scene_id@ == scene_id
            &&& var.parameter_overrides@ == sorted_by_key(snapshot(s.nodes@, scene.active_node_ids@))
            &&& t.variations@ == sorted_by_key(s.variations@.push(var))
        };
    crate::lookup::lemma_first_id_exists(t.variations@, var_id);
    let found = find_id(t.variations@, var_id);
    crate::ordering::lemma_sorted_elements(s.variations@.push(var));
    let k = crate::lookup::first_id(t.variations@, var_id);
    assert(t.variations@.contains(found)) by {
        assert(t.variations@[k] == found);
    }
    assert(s.variations@.push(var).contains(found));
    assert(found == var) by {
        let m = choose|m: int| 0 <= m < s.variations@.push(var).len() && s.variations@.push(var)[m] == found;
        if m < s.variations@.len() {
            assert(s.variations@[m].id_view() == var_id);
        }
    }
    let snap = snapshot(s.nodes@, scene.active_node_ids@);
    lemma_snapshot_records(s.nodes@, scene.active_node_ids@);
    crate::ordering::lemma_sorted_elements(snap);
    let overrides = var.parameter_overrides@;
    assert forall|q: int| 0 <= q < overrides.len() implies records_current(s.nodes@, #[trigger] overrides[q]) by {
        assert(sorted_by_key(snap).contains(overrides[q]));
        assert(snap.contains(overrides[q]));
    }
    assert(t.nodes == s.nodes);
    lemma_current_writes_keep(s.nodes@, overrides);
    lemma_current_writes_fit(s.nodes@, overrides);
}


/// Some override of `overrides` pins parameter `j` of node `i` of `nodes`
/// at its value there.
pub open spec fn pins_parameter(nodes: Seq<Node>, overrides: Seq<ParameterOverride>, i: int, j: int) -> bool {
    exists|q: int| 0 <= q < overrides.len() && #[trigger] overrides[q] == pin(nodes[i].parameters@[j])
}

/// Writing overrides that each pin a parameter of `a` into any session `b`
/// that differs from `a` only in its values gives every pinned parameter
/// its value in `a` and leaves every other one as it is in `b`.
pub proof fn lemma_pinned_writes(a: Seq<Node>, b: Seq<Node>, overrides: Seq<ParameterOverride>)
    requires
        same_but_values(a, b),
        parameter_ids_unique(a),
        forall|q: int| 0 <= q < overrides.len() ==> records_current(a, #[trigger] overrides[q]),
    ensures
        ({
            let w = variation_writes(b, values_of(b), overrides);
            &&& w.len() == b.len()
            &&& forall|i: int| 0 <= i < b.len() ==> (#[trigger] w[i]).len() == b[i].parameters@.len()
            &&& forall|i: int, j: int|
                0 <= i < b.len() && 0 <= j < b[i].parameters@.len() ==> #[trigger] w[i][j] == if pins_parameter(
                    a,
                    overrides,
                    i,
                    j,
                ) {
                    a[i].parameters@[j].value
                } else {
                    b[i].parameters@[j].value
                }
        }),
    decreases overrides.len(),
{
    let w = variation_writes(b, values_of(b), overrides);
    if overrides.len() == 0 {
        assert forall|i: int, j: int| 0 <= i < b.len() && 0 <= j < b[i].parameters@.len() implies !pins_parameter(
            a,
            overrides,
            i,
            j,
        ) by {}
    } else {
        let rest = overrides.drop_last();
        let o = overrides.last();
        lemma_pinned_writes(a, b, rest);
        let w0 = variation_writes(b, values_of(b), rest);
        assert(records_current(a, overrides[overrides.len() - 1]));
        let (i0, j0) = choose|i: int, j: int|
            0 <= i < a.len() && 0 <= j < a[i].parameters@.len() && o == pin(#[trigger] a[i].parameters@[j]);
        assert forall|i: int, j: int| 0 <= i < b.len() && 0 <= j < b[i].parameters@.len() implies #[trigger] w[i][j]
            == if pins_parameter(a, overrides, i, j) {
            a[i].parameters@[j].value
        } else {
            b[i].parameters@[j].value
        } by {
            assert(b[i].parameters@[j].id == a[i].parameters@[j].id);
            if b[i].parameters@[j].id@ == o.parameter_id@ {
                assert(a[i0].parameters@[j0].id@ == a[i].parameters@[j].id@);
                assert(i == i0 && j == j0);
                assert(overrides[overrides.len() - 1] == pin(a[i].parameters@[j]));
                assert(pins_parameter(a, overrides, i, j));
            } else {
                assert(w[i][j] == w0[i][j]);
                if pins_parameter(a, rest, i, j) {
                    let q = choose|q: int| 0 <= q < rest.len() && #[trigger] rest[q] == pin(a[i].parameters@[j]);
                    assert(overrides[q] == rest[q]);
                    assert(pins_parameter(a, overrides, i, j));
                }
                if pins_parameter(a, overrides, i, j) {
                    let q = choose|q: int| 0 <= q < overrides.len() && #[trigger] overrides[q] == pin(
                        a[i].parameters@[j],
                    );
                    assert(q < rest.len());
                    assert(rest[q] == overrides[q]);
                    assert(pins_parameter(a, rest, i, j));
                }
            }
        }
    }
}

/// Restoring a saved variation gives back every value it recorded,
/// whatever values changed after the save: `t` is any session holding the
/// variation whose nodes differ from those saved only in their values, and
/// `u` the session after restoring it. The restore succeeds, every
/// parameter the variation recorded gets its saved value, and every other
/// keeps its value in `t`. This holds when no two parameters share an id
/// and every saved value lies within its bounds.
pub proof fn lemma_restore_returns_saved_values(
    s: SessionDocument,
    saved: SessionDocument,
    t: SessionDocument,
    u: SessionDocument,
    name: Seq<char>,
    scene_id: Seq<char>,
    var_id: Seq<char>,
)
    requires
        save_post(s, saved, name, scene_id),
        !has_id(s.variations@, var_id),
        has_id(saved.variations@, var_id),
        parameter_ids_unique(s.nodes@),
        values_in_bounds(s.nodes@),
        same_but_values(s.nodes@, t.nodes@),
        t.variations == saved.variations,
        restore_post(t, u, var_id),
    ensures
        first_violation(t.nodes@, find_id(t.variations@, var_id).parameter_overrides@) is None,
        same_but_values(t.nodes@, u.nodes@),
        forall|i: int, j: int|
            0 <= i < u.nodes@.len() && 0 <= j < u.nodes@[i].parameters@.len() ==> (#[trigger] u.nodes@[i].parameters@[j]).value
                == if pins_parameter(s.nodes@, find_id(t.variations@, var_id).parameter_overrides@, i, j) {
                s.nodes@[i].parameters@[j].value
            } else {
                t.nodes@[i].parameters@[j].value
            },
{
    lemma_saved_records(s, saved, name, scene_id, var_id);
    let overrides = find_id(saved.variations@, var_id).parameter_overrides@;
    lemma_pinned_writes(s.nodes@, t.nodes@, overrides);
    lemma_pinned_fit(s.nodes@, t.nodes@, overrides);
    let w = variation_writes(t.nodes@, values_of(t.nodes@), overrides);
    assert forall|i: int, j: int|
        0 <= i < u.nodes@.len() && 0 <= j < u.nodes@[i].parameters@.len() implies (#[trigger] u.nodes@[i].parameters@[j]).value
            == if pins_parameter(s.nodes@, overrides, i, j) {
            s.nodes@[i].parameters@[j].value
        } else {
            t.nodes@[i].parameters@[j].value
        } by {
        assert(values_of(u.nodes@)[i][j] == u.nodes@[i].parameters@[j].value);
        assert(w[i][j] == values_of(u.nodes@)[i][j]);
    }
}

/// Some of `overrides` is for the parameter with id `id`.
pub open spec fn records_id(overrides: Seq<ParameterOverride>, id: Seq<char>) -> bool {
    exists|q: int| 0 <= q < overrides.len() && (#[trigger] overrides[q]).parameter_id@ == id
}

/// The overrides of the variation `var_id` that saving took `s` to
/// `saved` each record a value `s` held.
proof fn lemma_saved_records(
    s: SessionDocument,
    saved: SessionDocument,
    name: Seq<char>,
    scene_id: Seq<char>,
    var_id: Seq<char>,
)
    requires
        save_post(s, saved, name, scene_id),
        !has_id(s.variations@, var_id),
        has_id(saved.variations@, var_id),
    ensures
        forall|q: int|
            0 <= q < find_id(saved.variations@, var_id).parameter_overrides@.len() ==> records_current(
                s.nodes@,
                #[trigger] find_id(saved.variations@, var_id).parameter_overrides@[q],
            ),
{
    let scene = find_id(s.scenes@, scene_id);
    let var = choose|var: VariationDefinition|
        {
            &&& is_uuid_v4_text(var.id@)
            &&& var.name@ == name
            &&& var.scene_id@ == scene_id
            &&& var.parameter_overrides@ == sorted_by_key(snapshot(s.nodes@, scene.active_node_ids@))
            &&& saved.variations@ == sorted_by_key(s.variations@.push(var))
        };
    crate::lookup::lemma_first_id_exists(saved.variations@, var_id);
    let found = find_id(saved.variations@, var_id);
    crate::ordering::lemma_sorted_elements(s.variations@.push(var));
    let k = crate::lookup::first_id(saved.variations@, var_id);
    assert(saved.variations@.contains(found)) by {
        assert(saved.variations@[k] == found);
    }
    assert(s.variations@.push(var).contains(found));
    assert(found == var) by {
        let m = choose|m: int| 0 <= m < s.variations@.push(var).len() && s.variations@.push(var)[m] == found;
        if m < s.variations@.len() {
            assert(s.variations@[m].id_view() == var_id);
        }
    }
    let snap = snapshot(s.nodes@, scene.active_node_ids@);
    lemma_snapshot_records(s.nodes@, scene.active_node_ids@);
    crate::ordering::lemma_sorted_elements(snap);
    let overrides = var.parameter_overrides@;
    assert forall|q: int| 0 <= q < overrides.len() implies records_current(s.nodes@, #[trigger] overrides[q]) by {
        assert(sorted_by_key(snap).contains(overrides[q]));
        assert(snap.contains(overrides[q]));
    }
}

/// Writing overrides that each record a value of `a`, where no two
/// parameters share an id, into any nodes `b`: a parameter of `b` whose id
/// some override names gets the value of the parameter of `a` with that
/// id, and every other keeps its value.
pub proof fn lemma_recorded_writes(a: Seq<Node>, b: Seq<Node>, overrides: Seq<ParameterOverride>)
    requires
        parameter_ids_unique(a),
        forall|q: int| 0 <= q < overrides.len() ==> records_current(a, #[trigger] overrides[q]),
    ensures
        grid_fits(b, variation_writes(b, values_of(b), overrides)),
        forall|i: int, j: int|
            0 <= i < b.len() && 0 <= j < b[i].parameters@.len() && !records_id(overrides, b[i].parameters@[j].id@)
                ==> #[trigger] variation_writes(b, values_of(b), overrides)[i][j] == b[i].parameters@[j].value,
        forall|i: int, j: int, i2: int, j2: int|
            #![trigger variation_writes(b, values_of(b), overrides)[i][j], a[i2].parameters@[j2]]
            0 <= i < b.len() && 0 <= j < b[i].parameters@.len() && 0 <= i2 < a.len() && 0 <= j2
                < a[i2].parameters@.len() && records_id(overrides, b[i].parameters@[j].id@)
                && a[i2].parameters@[j2].id@ == b[i].parameters@[j].id@ ==> variation_writes(b, values_of(b), overrides)[i][j]
                == a[i2].parameters@[j2].value,
    decreases overrides.len(),
{
    lemma_values_fit(b);
    lemma_variation_writes_fits(b, values_of(b), overrides);
    if overrides.len() > 0 {
        let rest = overrides.drop_last();
        let o = overrides.last();
        lemma_recorded_writes(a, b, rest);
        lemma_variation_writes_fits(b, values_of(b), rest);
        let w0 = variation_writes(b, values_of(b), rest);
        let w = variation_writes(b, values_of(b), overrides);
        assert(w == set_all(b, w0, o.parameter_id@, o.value));
        assert(records_current(a, overrides[overrides.len() - 1]));
        let (i0, j0) = choose|i: int, j: int|
            0 <= i < a.len() && 0 <= j < a[i].parameters@.len() && o == pin(#[trigger] a[i].parameters@[j]);
        assert forall|i: int, j: int|
            0 <= i < b.len() && 0 <= j < b[i].parameters@.len() && !records_id(overrides, b[i].parameters@[j].id@)
                implies #[trigger] w[i][j] == b[i].parameters@[j].value by {
            if b[i].parameters@[j].id@ == o.parameter_id@ {
                assert(overrides[overrides.len() - 1].parameter_id@ == b[i].parameters@[j].id@);
            } else {
                if records_id(rest, b[i].parameters@[j].id@) {
                    let q = choose|q: int| 0 <= q < rest.len() && (#[trigger] rest[q]).parameter_id@
                        == b[i].parameters@[j].id@;
                    assert(overrides[q] == rest[q]);
                }
            }
        }
        assert forall|i: int, j: int, i2: int, j2: int|
            #![trigger w[i][j], a[i2].parameters@[j2]]
            0 <= i < b.len() && 0 <= j < b[i].parameters@.len() && 0 <= i2 < a.len() && 0 <= j2
                < a[i2].parameters@.len() && records_id(overrides, b[i].parameters@[j].id@)
                && a[i2].parameters@[j2].id@ == b[i].parameters@[j].id@ implies w[i][j]
            == a[i2].parameters@[j2].value by {
            if b[i].parameters@[j].id@ == o.parameter_id@ {
                assert(a[i0].parameters@[j0].id@ == a[i2].parameters@[j2].id@);
                assert(i0 == i2 && j0 == j2);
            } else {
                let q = choose|q: int| 0 <= q < overrides.len() && (#[trigger] overrides[q]).parameter_id@
                    == b[i].parameters@[j].id@;
                assert(q < rest.len());
                assert(rest[q] == overrides[q]);
                assert(records_id(rest, b[i].parameters@[j].id@));
                assert(w[i][j] == w0[i][j]);
            }
        }
    }
}

/// Restoring a saved variation gives back, by parameter id, every value
/// it recorded, however the session changed after the save: `t` is any
/// session holding the variation, with nodes and parameters added,
/// removed or reordered, and `u` the session after a restore of it that
/// went through. Every parameter of `t` whose id the variation recorded
/// gets the value the parameter with that id had at the save; every other
/// keeps its value in `t`; nothing else changes. This holds when no two
/// parameters shared an id at the save.
pub proof fn lemma_restore_by_id(
    s: SessionDocument,
    saved: SessionDocument,
    t: SessionDocument,
    u: SessionDocument,
    name: Seq<char>,
    scene_id: Seq<char>,
    var_id: Seq<char>,
)
    requires
        save_post(s, saved, name, scene_id),
        !has_id(s.variations@, var_id),
        has_id(saved.variations@, var_id),
        parameter_ids_unique(s.nodes@),
        find_id(t.variations@, var_id) == find_id(saved.variations@, var_id),
        restore_post(t, u, var_id),
    ensures
        u == (SessionDocument { nodes: u.nodes, ..t }),
        same_but_values(t.nodes@, u.nodes@),
        forall|i: int, j: int|
            0 <= i < u.nodes@.len() && 0 <= j < u.nodes@[i].parameters@.len() && !records_id(
                find_id(t.variations@, var_id).parameter_overrides@,
                t.nodes@[i].parameters@[j].id@,
            ) ==> (#[trigger] u.nodes@[i].parameters@[j]).value == t.nodes@[i].parameters@[j].value,
        forall|i: int, j: int, i2: int, j2: int|
            #![trigger u.nodes@[i].parameters@[j], s.nodes@[i2].parameters@[j2]]
            0 <= i < u.nodes@.len() && 0 <= j < u.nodes@[i].parameters@.len() && 0 <= i2 < s.nodes@.len() && 0
                <= j2 < s.nodes@[i2].parameters@.len() && records_id(
                find_id(t.variations@, var_id).parameter_overrides@,
                t.nodes@[i].parameters@[j].id@,
            ) && s.nodes@[i2].parameters@[j2].id@ == t.nodes@[i].parameters@[j].id@ ==> u.nodes@[i].parameters@[j].value
                == s.nodes@[i2].parameters@[j2].value,
{
    lemma_saved_records(s, saved, name, scene_id, var_id);
    let overrides = find_id(t.variations@, var_id).parameter_overrides@;
    lemma_recorded_writes(s.nodes@, t.nodes@, overrides);
    let w = variation_writes(t.nodes@, values_of(t.nodes@), overrides);
    assert forall|i: int, j: int|
        0 <= i < u.nodes@.len() && 0 <= j < u.nodes@[i].parameters@.len() implies (#[trigger] u.nodes@[i].parameters@[j]).value
            == w[i][j] by {
        assert(values_of(u.nodes@)[i][j] == u.nodes@[i].parameters@[j].value);
    }
}

/// Overrides that pin values of `a` within their bounds fit any session
/// that differs from `a` only in its values.
proof fn lemma_pinned_fit(a: Seq<Node>, b: Seq<Node>, overrides: Seq<ParameterOverride>)
    requires
        same_but_values(a, b),
        parameter_ids_unique(a),
        values_in_bounds(a),
        forall|q: int| 0 <= q < overrides.len() ==> records_current(a, #[trigger] overrides[q]),
    ensures
        first_violation(b, overrides) is None,
    decreases overrides.len(),
{
    if overrides.len() > 0 {
        lemma_pinned_fit(a, b, overrides.drop_last());
        let o = overrides.last();
        assert(records_current(a, overrides[overrides.len() - 1]));
        let (i0, j0) = choose|i: int, j: int|
            0 <= i < a.len() && 0 <= j < a[i].parameters@.len() && o == pin(#[trigger] a[i].parameters@[j]);
        assert forall|i: int| 0 <= i < b.len() implies !node_violates(#[trigger] b[i], o.parameter_id@, o.value) by {
            if node_violates(b[i], o.parameter_id@, o.value) {
                let j = choose|j: int|
                    0 <= j < b[i].parameters@.len() && (#[trigger] b[i].parameters@[j]).id@ == o.parameter_id@
                        && out_of_range(b[i].parameters@[j], o.value);
                assert(b[i].parameters@[j].id == a[i].parameters@[j].id);
                assert(a[i0].parameters@[j0].id@ == a[i].parameters@[j].id@);
                assert(!out_of_range(a[i0].parameters@[j0], a[i0].parameters@[j0].value));
            }
        }
        assert(override_violation(b, o) is None);
    }
}

} // verus!

//! Compiling the session into the visual scene: the elements drawn for the
//! visible nodes, and the visual parameter updates macros produce.
//!
//! Real values are `f64` bit patterns. Scaling a macro value into its range is
//! floating-point arithmetic and is left to the caller's `scale(start, end, t)`
//! (which returns `start + t * (end - start)`); the library clamps `t` into
//! `[0, 1]` first. Element placement is given as a slot: the element in slot
//! `k` is drawn at `(2k, 0)` at unit scale. The scene's background is
//! opaque black.
use vstd::prelude::*;
use crate::catalog::find_catalog_entry;
use crate::compiler::has_first_entry;
use crate::domain::{MacroOverride, MacroTarget, Node, SessionDocument};
use crate::float_bits::{f64_clamp, spec_clamp};
use crate::lookup::{contains_string, contains_text, find_by_id, find_id, first_id, has_id};
use crate::macros::UNIT_MAX;
use crate::synthdefs::entry_of;

verus! {

#[derive(Debug, PartialEq)]
pub struct CompiledVisualScene {
    pub scene_id: String,
    /// Red, green, blue and alpha as `f32` bit patterns.
    pub background_color: [u32; 4],
    pub elements: Vec<CompiledVisualElement>,
}

/// `f32` bit pattern of 1.0.
pub const F32_ONE_BITS: u32 = 0x3f80_0000;

/// Opaque black: red, green and blue at 0.0, alpha at 1.0.
pub open spec fn opaque_black() -> Seq<u32> {
    seq![0u32, 0u32, 0u32, F32_ONE_BITS]
}

#[derive(Debug, PartialEq)]
pub struct CompiledVisualElement {
    pub element_id: String,
    pub element_type: String,
    /// Layout slot: drawn at `(2 * slot, 0)`.
    pub slot: usize,
    /// Parameter id and value (`f64` bit pattern).
    pub parameters: Vec<(String, u64)>,
}

#[derive(Debug, PartialEq)]
pub struct VisualParameterUpdate {
    pub element_id: String,
    pub parameter_id: String,
    /// `f64` bit pattern.
    pub value: u64,
}

impl View for VisualParameterUpdate {
    type V = (Seq<char>, Seq<char>, u64);

    open spec fn view(&self) -> (Seq<char>, Seq<char>, u64) {
        (self.element_id@, self.parameter_id@, self.value)
    }
}

pub open spec fn updates_view(v: Seq<VisualParameterUpdate>) -> Seq<(Seq<char>, Seq<char>, u64)> {
    v.map_values(|u: VisualParameterUpdate| u@)
}

pub open spec fn params_view(v: Seq<(String, u64)>) -> Seq<(Seq<char>, u64)> {
    v.map_values(|p: (String, u64)| (p.0@, p.1))
}

/// The visual targets of a macro, each set to `v`, in target order.
pub open spec fn visual_targets(ts: Seq<MacroTarget>, v: u64) -> Seq<(Seq<char>, Seq<char>, u64)>
    decreases ts.len(),
{
    if ts.len() == 0 {
        Seq::empty()
    } else {
        let rest = visual_targets(ts.drop_last(), v);
        match ts.last() {
            MacroTarget::VisualParameter { element_id, parameter_id } => rest.push((element_id@, parameter_id@, v)),
            MacroTarget::AudioParameter { .. } => rest,
        }
    }
}

fn targets_to_updates(ts: &Vec<MacroTarget>, v: u64, out: &mut Vec<VisualParameterUpdate>)
    ensures
        updates_view(final(out)@) == updates_view(old(out)@) + visual_targets(ts@, v),
{
    let ghost o0 = updates_view(out@);
    let mut k: usize = 0;
    while k < ts.len()
        invariant
            k <= ts@.len(),
            updates_view(out@) =~= o0 + visual_targets(ts@.take(k as int), v),
        decreases ts.len() - k,
    {
        assert(ts@.take(k as int + 1).drop_last() =~= ts@.take(k as int));
        assert(ts@.take(k as int + 1).last() == ts@[k as int]);
        let ghost before = updates_view(out@);
        match &ts[k] {
            MacroTarget::VisualParameter { element_id, parameter_id } => {
                proof {
                    assert(ts@.take(k as int + 1).last() == MacroTarget::VisualParameter { element_id: *element_id, parameter_id: *parameter_id });
                }
                out.push(VisualParameterUpdate { element_id: element_id.clone(), parameter_id: parameter_id.clone(), value: v });
                assert(updates_view(out@) =~= before.push((element_id@, parameter_id@, v)));
            },
            MacroTarget::AudioParameter { .. } => {},
        }
        k = k + 1;
    }
    assert(ts@.take(k as int) =~= ts@);
}

fn push_macro_updates<S: Fn(u64, u64, u64) -> u64>(
    session: &SessionDocument,
    macro_id: &String,
    value: u64,
    scale: &S,
    out: &mut Vec<VisualParameterUpdate>,
) -> (v: Ghost<u64>)
    requires
        forall|a: u64, b: u64, c: u64| scale.requires((a, b, c)),
    ensures
        has_id(session.macros@, macro_id@) ==> {
            let m = find_id(session.macros@, macro_id@);
            scale.ensures((m.range_start, m.range_end, spec_clamp(value, 0, UNIT_MAX)), v@)
        },
        updates_view(final(out)@) == updates_view(old(out)@) + if has_id(session.macros@, macro_id@) {
            visual_targets(find_id(session.macros@, macro_id@).targets@, v@)
        } else {
            Seq::empty()
        },
{
    match find_by_id(&session.macros, macro_id) {
        None => {
            assert(updates_view(out@) =~= updates_view(old(out)@) + Seq::empty());
            Ghost(0u64)
        },
        Some(i) => {
            let m = &session.macros[i];
            proof {
                crate::macros::lemma_unit_range();
            }
            let t = f64_clamp(value, 0, UNIT_MAX);
            let v = scale(m.range_start, m.range_end, t);
            targets_to_updates(&m.targets, v, out);
            Ghost(v)
        },
    }
}

/// The visual parameter updates of setting macro `macro_id` to `value`:
/// none for an unknown macro; otherwise each visual target of the macro set
/// to the macro's range scaled at `value` clamped into `[0, 1]`.
pub fn visual_updates_for_macro_value<S: Fn(u64, u64, u64) -> u64>(
    session: &SessionDocument,
    macro_id: &String,
    value: u64,
    scale: &S,
) -> (r: Vec<VisualParameterUpdate>)
    requires
        forall|a: u64, b: u64, c: u64| scale.requires((a, b, c)),
    ensures
        !has_id(session.macros@, macro_id@) ==> r@.len() == 0,
        has_id(session.macros@, macro_id@) ==> {
            let m = find_id(session.macros@, macro_id@);
            exists|v: u64|
                scale.ensures((m.range_start, m.range_end, spec_clamp(value, 0, UNIT_MAX)), v) && updates_view(r@)
                    == visual_targets(m.targets@, v)
        },
{
    let mut out: Vec<VisualParameterUpdate> = Vec::new();
    let gv = push_macro_updates(session, macro_id, value, scale, &mut out);
    proof {
        let v = gv@;
        if has_id(session.macros@, macro_id@) {
            assert(updates_view(out@) =~= visual_targets(find_id(session.macros@, macro_id@).targets@, v));
        } else {
            assert(updates_view(out@) =~= Seq::<(Seq<char>, Seq<char>, u64)>::empty());
        }
    }
    out
}

// ---------------------------------------------------------------------------
// The scene
// ---------------------------------------------------------------------------

/// The scene the visual runtime reports active, when the session has it.
pub open spec fn active_scene(session: SessionDocument) -> Option<int> {
    match session.visual_runtime.active_scene_id {
        Some(id) => if has_id(session.scenes@, id@) {
            Some(first_id(session.scenes@, id@))
        } else {
            None
        },
        None => None,
    }
}

/// The compiled scene's id: the active scene's, else the first scene's,
/// else empty.
pub open spec fn scene_id_of(session: SessionDocument) -> Seq<char> {
    match active_scene(session) {
        Some(i) => session.scenes@[i].id@,
        None => if session.scenes@.len() > 0 {
            session.scenes@[0].id@
        } else {
            Seq::empty()
        },
    }
}

/// With an active scene, the nodes it lists are drawn; without one, the
/// enabled nodes.
pub open spec fn node_visible(session: SessionDocument, n: Node) -> bool {
    match active_scene(session) {
        Some(i) => contains_text(session.scenes@[i].active_node_ids@, n.id@),
        None => n.enabled,
    }
}

pub open spec fn visible_nodes(session: SessionDocument, nodes: Seq<Node>) -> Seq<Node>
    decreases nodes.len(),
{
    if nodes.len() == 0 {
        nodes
    } else if node_visible(session, nodes.last()) {
        visible_nodes(session, nodes.drop_last()).push(nodes.last())
    } else {
        visible_nodes(session, nodes.drop_last())
    }
}

/// The macro overrides of the active scene.
pub open spec fn active_overrides(session: SessionDocument) -> Seq<MacroOverride> {
    match active_scene(session) {
        Some(i) => session.scenes@[i].macro_overrides@,
        None => Seq::empty(),
    }
}

/// The updates of the overrides, in order; `sv[k]` is the scaled value of
/// override `k`. Overrides of unknown macros give none.
pub open spec fn override_updates(session: SessionDocument, ov: Seq<MacroOverride>, sv: Seq<u64>) -> Seq<
    (Seq<char>, Seq<char>, u64),
>
    decreases ov.len(),
{
    if ov.len() == 0 {
        Seq::empty()
    } else {
        let k = ov.len() - 1;
        override_updates(session, ov.drop_last(), sv) + if has_id(session.macros@, ov[k].macro_id@) {
            visual_targets(find_id(session.macros@, ov[k].macro_id@).targets@, sv[k])
        } else {
            Seq::empty()
        }
    }
}

/// `sv[k]` is what `scale` gives for override `k` of a known macro.
pub open spec fn scaled_overrides<S: Fn(u64, u64, u64) -> u64>(
    session: SessionDocument,
    ov: Seq<MacroOverride>,
    sv: Seq<u64>,
    scale: S,
) -> bool {
    &&& sv.len() == ov.len()
    &&& forall|k: int|
        0 <= k < ov.len() && has_id(session.macros@, (#[trigger] ov[k]).macro_id@) ==> {
            let m = find_id(session.macros@, ov[k].macro_id@);
            scale.ensures((m.range_start, m.range_end, spec_clamp(ov[k].value, 0, UNIT_MAX)), sv[k])
        }
}

/// `i` is the first parameter with id `id`.
pub open spec fn is_first_param(p: Seq<(Seq<char>, u64)>, id: Seq<char>, i: int) -> bool {
    &&& 0 <= i < p.len()
    &&& p[i].0 == id
    &&& forall|j: int| 0 <= j < i ==> (#[trigger] p[j]).0 != id
}

/// The node's parameters with the updates for element `element` applied in
/// order: an update overwrites the first parameter with its id, or is added.
pub open spec fn merge_params(p: Seq<(Seq<char>, u64)>, updates: Seq<(Seq<char>, Seq<char>, u64)>, element: Seq<char>) -> Seq<
    (Seq<char>, u64),
>
    decreases updates.len(),
{
    if updates.len() == 0 {
        p
    } else {
        let q = merge_params(p, updates.drop_last(), element);
        let u = updates.last();
        if u.0 != element {
            q
        } else if exists|i: int| is_first_param(q, u.1, i) {
            q.update(choose|i: int| is_first_param(q, u.1, i), (u.1, u.2))
        } else {
            q.push((u.1, u.2))
        }
    }
}

/// The node's parameters: id and value.
pub open spec fn node_params(n: Node) -> Seq<(Seq<char>, u64)> {
    n.parameters@.map_values(|p: crate::domain::ParameterValue| (p.id@, p.value))
}

/// The shape drawn for a node: its catalog entry's, or a box.
pub open spec fn shape_of(n: Node) -> Seq<char> {
    if has_first_entry(n.node_type_id@) {
        entry_of(n.node_type_id@).visual_shape
    } else {
        "box"@
    }
}

/// `e` draws node `n` in slot `slot`.
pub open spec fn is_element_of(e: CompiledVisualElement, n: Node, slot: int, updates: Seq<(Seq<char>, Seq<char>, u64)>) -> bool {
    &&& e.element_id@ == n.id@
    &&& e.element_type@ == shape_of(n)
    &&& e.slot == slot
    &&& params_view(e.parameters@) == merge_params(node_params(n), updates, n.id@)
}

fn find_param(p: &Vec<(String, u64)>, id: &String) -> (r: Option<usize>)
    ensures
        match r {
            Some(i) => is_first_param(params_view(p@), id@, i as int),
            None => !exists|i: int| is_first_param(params_view(p@), id@, i),
        },
{
    let mut i: usize = 0;
    while i < p.len()
        invariant
            i <= p@.len(),
            forall|j: int| 0 <= j < i ==> (#[trigger] params_view(p@)[j]).0 != id@,
        decreases p.len() - i,
    {
        if p[i].0 == *id {
            return Some(i);
        }
        i = i + 1;
    }
    proof {
        if exists|i: int| is_first_param(params_view(p@), id@, i) {
            let k = choose|i: int| is_first_param(params_view(p@), id@, i);
            assert(params_view(p@)[k].0 == id@);
        }
    }
    None
}

fn merged_parameters(n: &Node, updates: &Vec<VisualParameterUpdate>) -> (r: Vec<(String, u64)>)
    ensures
        params_view(r@) == merge_params(node_params(*n), updates_view(updates@), n.id@),
{
    let mut p: Vec<(String, u64)> = Vec::new();
    let mut i: usize = 0;
    while i < n.parameters.len()
        invariant
            i <= n.parameters@.len(),
            params_view(p@) =~= node_params(*n).take(i as int),
        decreases n.parameters.len() - i,
    {
        let ghost before = params_view(p@);
        p.push((n.parameters[i].id.clone(), n.parameters[i].value));
        assert(params_view(p@) =~= before.push((n.parameters@[i as int].id@, n.parameters@[i as int].value)));
        i = i + 1;
    }
    assert(node_params(*n).take(i as int) =~= node_params(*n));
    let ghost uv = updates_view(updates@);
    let mut k: usize = 0;
    while k < updates.len()
        invariant
            k <= updates@.len(),
            uv == updates_view(updates@),
            params_view(p@) == merge_params(node_params(*n), uv.take(k as int), n.id@),
        decreases updates.len() - k,
    {
        let u = &updates[k];
        let ghost q = params_view(p@);
        assert(uv.take(k as int + 1).drop_last() =~= uv.take(k as int));
        assert(uv.take(k as int + 1).last() == u@);
        if u.element_id == n.id {
            match find_param(&p, &u.parameter_id) {
                Some(j) => {
                    proof {
                        let c = choose|i: int| is_first_param(q, u.parameter_id@, i);
                        if c < j {
                            assert(q[c].0 != u.parameter_id@);
                        } else if j < c {
                            assert(q[j as int].0 != u.parameter_id@);
                        }
                    }
                    p.set(j, (u.parameter_id.clone(), u.value));
                    assert(params_view(p@) =~= q.update(j as int, (u.parameter_id@, u.value)));
                },
                None => {
                    p.push((u.parameter_id.clone(), u.value));
                    assert(params_view(p@) =~= q.push((u.parameter_id@, u.value)));
                },
            }
        }
        k = k + 1;
    }
    assert(uv.take(k as int) =~= uv);
    p
}

fn visual_shape_of(n: &Node) -> (r: String)
    ensures
        r@ == shape_of(*n),
{
    match find_catalog_entry(n.node_type_id.as_str()) {
        Ok(e) => {
            proof {
                let id = n.node_type_id@;
                let k = choose|k: int| crate::catalog::is_first_entry(crate::catalog::catalog_view(), id, k) && e@ == crate::catalog::catalog_view()[k];
                let k2 = choose|k: int| crate::catalog::is_first_entry(crate::catalog::catalog_view(), id, k);
                if k < k2 {
                    assert(crate::catalog::catalog_view()[k].id != id);
                } else if k2 < k {
                    assert(crate::catalog::catalog_view()[k2].id != id);
                }
            }
            e.visual_shape.to_owned()
        },
        Err(_) => {
            proof {
                if has_first_entry(n.node_type_id@) {
                    let k = choose|k: int| crate::catalog::is_first_entry(crate::catalog::catalog_view(), n.node_type_id@, k);
                    assert(crate::catalog::catalog_view()[k].id == n.node_type_id@);
                }
            }
            "box".to_owned()
        },
    }
}

/// `r` is the visual scene of `session`: the scene id, an opaque black
/// background, and one element per visible node, in order, carrying the
/// values the active scene's macro overrides give it (each override's
/// value scaled by `scale`).
pub open spec fn is_visual_scene_of<S: Fn(u64, u64, u64) -> u64>(r: CompiledVisualScene, session: SessionDocument, scale: S) -> bool {
    &&& r.scene_id@ == scene_id_of(session)
    &&& r.background_color@ == opaque_black()
    &&& exists|sv: Seq<u64>|
        scaled_overrides(session, active_overrides(session), sv, scale) && {
            let vis = visible_nodes(session, session.nodes@);
            let ups = override_updates(session, active_overrides(session), sv);
            &&& r.elements@.len() == vis.len()
            &&& forall|i: int| 0 <= i < vis.len() ==> is_element_of(#[trigger] r.elements@[i], vis[i], i, ups)
        }
}

/// Compiles the session into the visual scene: the scene id, and one element
/// per visible node in session order, with the active scene's macro
/// overrides applied to its parameters.
pub fn compile_session_to_visual_scene<S: Fn(u64, u64, u64) -> u64>(session: &SessionDocument, scale: &S) -> (r:
    CompiledVisualScene)
    requires
        forall|a: u64, b: u64, c: u64| scale.requires((a, b, c)),
    ensures
        is_visual_scene_of(r, *session, *scale),
{
    let active: Option<usize> = match &session.visual_runtime.active_scene_id {
        Some(id) => find_by_id(&session.scenes, id),
        None => None,
    };
    assert(match active_scene(*session) {
        Some(k) => active is Some && active->Some_0 as int == k && 0 <= k < session.scenes@.len(),
        None => active is None,
    });
    let scene_id = match active {
        Some(i) => session.scenes[i].id.clone(),
        None => if session.scenes.len() > 0 {
            session.scenes[0].id.clone()
        } else {
            String::new()
        },
    };
    let mut updates: Vec<VisualParameterUpdate> = Vec::new();
    let ghost ov = active_overrides(*session);
    let ghost mut sv: Seq<u64> = Seq::empty();
    match active {
        Some(si) => {
            let overrides = &session.scenes[si].macro_overrides;
            assert(overrides@ == ov);
            let mut k: usize = 0;
            while k < overrides.len()
                invariant
                    k <= overrides@.len(),
                    overrides@ == ov,
                    forall|a: u64, b: u64, c: u64| scale.requires((a, b, c)),
                    scaled_overrides(*session, ov.take(k as int), sv, *scale),
                    updates_view(updates@) == override_updates(*session, ov.take(k as int), sv),
                decreases overrides.len() - k,
            {
                let o = &overrides[k];
                let ghost before = updates_view(updates@);
                let gv = push_macro_updates(session, &o.macro_id, o.value, scale, &mut updates);
                let ghost val: u64 = gv@;
                proof {
                    let t = ov.take(k as int + 1);
                    assert(t.drop_last() =~= ov.take(k as int));
                    assert(t[k as int] == *o);
                    let nsv = sv.push(val);
                    assert(override_updates(*session, ov.take(k as int), nsv) == override_updates(*session, ov.take(k as int), sv)) by {
                        lemma_override_updates_prefix(*session, ov.take(k as int), sv, nsv);
                    }
                    assert(updates_view(updates@) =~= override_updates(*session, t, nsv));
                    assert forall|q: int| 0 <= q < t.len() && has_id(session.macros@, (#[trigger] t[q]).macro_id@) implies {
                        let m = find_id(session.macros@, t[q].macro_id@);
                        scale.ensures((m.range_start, m.range_end, spec_clamp(t[q].value, 0, UNIT_MAX)), nsv[q])
                    } by {
                        if q < k {
                            assert(ov.take(k as int)[q] == t[q]);
                        }
                    }
                    sv = nsv;
                }
                k = k + 1;
            }
            assert(ov.take(k as int) =~= ov);
        },
        None => {
            assert(ov.len() == 0);
        },
    }
    let ghost ups = override_updates(*session, ov, sv);
    let mut elements: Vec<CompiledVisualElement> = Vec::new();
    let mut i: usize = 0;
    while i < session.nodes.len()
        invariant
            i <= session.nodes@.len(),
            match active_scene(*session) {
                Some(k) => active is Some && active->Some_0 as int == k && 0 <= k < session.scenes@.len(),
                None => active is None,
            },
            updates_view(updates@) == ups,
            elements@.len() == visible_nodes(*session, session.nodes@.take(i as int)).len(),
            forall|q: int|
                0 <= q < elements@.len() ==> is_element_of(
                    #[trigger] elements@[q],
                    visible_nodes(*session, session.nodes@.take(i as int))[q],
                    q,
                    ups,
                ),
        decreases session.nodes.len() - i,
    {
        let n = &session.nodes[i];
        let ghost before = visible_nodes(*session, session.nodes@.take(i as int));
        assert(session.nodes@.take(i as int + 1).drop_last() =~= session.nodes@.take(i as int));
        assert(session.nodes@.take(i as int + 1).last() == *n);
        let visible = match active {
            Some(si) => {
                assert(si as int == active_scene(*session)->Some_0);
                contains_string(&session.scenes[si].active_node_ids, &n.id)
            },
            None => n.enabled,
        };
        assert(visible == node_visible(*session, *n));
        if visible {
            let slot = elements.len();
            elements.push(CompiledVisualElement {
                element_id: n.id.clone(),
                element_type: visual_shape_of(n),
                slot,
                parameters: merged_parameters(n, &updates),
            });
            assert forall|q: int| 0 <= q < elements@.len() implies is_element_of(
                #[trigger] elements@[q],
                visible_nodes(*session, session.nodes@.take(i as int + 1))[q],
                q,
                ups,
            ) by {
                if q < before.len() {
                    assert(visible_nodes(*session, session.nodes@.take(i as int + 1))[q] == before[q]);
                }
            }
        }
        i = i + 1;
    }
    assert(session.nodes@.take(i as int) =~= session.nodes@);
    assert(scaled_overrides(*session, active_overrides(*session), sv, *scale));
    let background_color: [u32; 4] = [0, 0, 0, F32_ONE_BITS];
    assert(background_color@ =~= opaque_black());
    CompiledVisualScene { scene_id, background_color, elements }
}

proof fn lemma_override_updates_prefix(session: SessionDocument, ov: Seq<MacroOverride>, a: Seq<u64>, b: Seq<u64>)
    requires
        a.len() >= ov.len(),
        b.len() >= ov.len(),
        forall|k: int| 0 <= k < ov.len() ==> a[k] == b[k],
    ensures
        override_updates(session, ov, a) == override_updates(session, ov, b),
    decreases ov.len(),
{
    if ov.len() > 0 {
        lemma_override_updates_prefix(session, ov.drop_last(), a, b);
    }
}

} // verus!

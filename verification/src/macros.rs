//! Macro commands: creating, updating and removing macros, and setting a
//! macro's value, which writes the scaled value to its targets.
use vstd::prelude::*;
use crate::domain::{
    MacroCommand, MacroDefinition, MacroOverride, MacroTarget, Node, ParameterValue,
    SceneDefinition, SessionDocument,
};
use crate::float_bits::{f64_clamp, spec_clamp, spec_le};
use crate::graph_edit::id_differs;
use crate::lookup::{contains_id, find_by_id, find_id, first_id, has_id, HasId};
use crate::ordering::{seq_le, sort_by_key, sorted_by_key, str_le, SortKey};
use crate::params::{
    apply_macro_targets, bounds_ordered, grid_fits, lemma_ordered_writable, macro_writes,
    node_bounds_ordered, same_but_values, values_of,
};
use crate::session_store::SessionStore;

verus! {

#[derive(Debug, PartialEq)]
pub enum MacroCommandError {
    DuplicateMacro { macro_id: String },
    MissingMacro { macro_id: String },
    ParameterOutOfRange { node_id: String, parameter_id: String },
    VisualRuntimeReconcile { message: String },
    AudioRuntimeReconcile { message: String },
}

impl SortKey for MacroDefinition {
    open spec fn key_le(&self, other: &Self) -> bool {
        seq_le(self.id@, other.id@)
    }

    fn le(&self, other: &Self) -> (r: bool) {
        str_le(self.id.as_str(), other.id.as_str())
    }
}

// ---------------------------------------------------------------------------
// Writing a value to one audio parameter
// ---------------------------------------------------------------------------

/// The target's node exists but has no such parameter.
pub open spec fn target_missing(nodes: Seq<Node>, node_id: Seq<char>, pid: Seq<char>) -> bool {
    has_id(nodes, node_id) && !has_id(find_id(nodes, node_id).parameters@, pid)
}

/// The value grid after writing `v`, clamped, to the first parameter `pid`
/// of the first node `node_id` (nothing when either is missing).
pub open spec fn first_write(
    nodes: Seq<Node>,
    vals: Seq<Seq<u64>>,
    node_id: Seq<char>,
    pid: Seq<char>,
    v: u64,
) -> Seq<Seq<u64>> {
    if has_id(nodes, node_id) && has_id(find_id(nodes, node_id).parameters@, pid) {
        let i = first_id(nodes, node_id);
        let j = first_id(nodes[i].parameters@, pid);
        let p = nodes[i].parameters@[j];
        vals.update(i, vals[i].update(j, spec_clamp(v, p.min_value, p.max_value)))
    } else {
        vals
    }
}

/// Writes `v`, clamped into its bounds, to the first parameter `pid` of the
/// first node `node_id`; a node without that parameter is an error.
pub fn apply_audio_parameter(nodes: &mut Vec<Node>, node_id: &String, parameter_id: &String, v: u64) -> (r:
    Result<(), MacroCommandError>)
    requires
        bounds_ordered(old(nodes)@),
    ensures
        target_missing(old(nodes)@, node_id@, parameter_id@) ==> r == Err::<(), MacroCommandError>(
            MacroCommandError::ParameterOutOfRange { node_id: *node_id, parameter_id: *parameter_id },
        ) && final(nodes)@ == old(nodes)@,
        !target_missing(old(nodes)@, node_id@, parameter_id@) ==> r is Ok,
        r is Ok ==> same_but_values(old(nodes)@, final(nodes)@) && values_of(final(nodes)@) == first_write(
            old(nodes)@,
            values_of(old(nodes)@),
            node_id@,
            parameter_id@,
            v,
        ),
{
    let ghost orig = nodes@;
    proof {
        assert forall|i: int| 0 <= i < orig.len() implies #[trigger] orig[i] == (Node {
            parameters: orig[i].parameters,
            ..orig[i]
        }) by {}
    }
    let i = match find_by_id(nodes, node_id) {
        Some(i) => i,
        None => {
            assert(values_of(orig) == first_write(orig, values_of(orig), node_id@, parameter_id@, v));
            return Ok(());
        },
    };
    let j = match find_by_id(&nodes[i].parameters, parameter_id) {
        Some(j) => j,
        None => {
            return Err(
                MacroCommandError::ParameterOutOfRange {
                    node_id: node_id.clone(),
                    parameter_id: parameter_id.clone(),
                },
            );
        },
    };
    assert(node_bounds_ordered(orig[i as int]));
    let min = nodes[i].parameters[j].min_value;
    let max = nodes[i].parameters[j].max_value;
    let c = f64_clamp(v, min, max);
    let mut params: Vec<ParameterValue> = Vec::new();
    std::mem::swap(&mut params, &mut nodes[i].parameters);
    let ghost op = params@;
    params[j].value = c;
    nodes[i].parameters = params;
    proof {
        let ii = i as int;
        let jj = j as int;
        assert(nodes@ =~= orig.update(ii, nodes@[ii]));
        assert(nodes@[ii].parameters@ =~= op.update(jj, ParameterValue { value: c, ..op[jj] }));
        assert(values_of(nodes@)[ii] =~= values_of(orig)[ii].update(jj, c));
        assert(values_of(nodes@) =~= values_of(orig).update(ii, values_of(orig)[ii].update(jj, c)));
    }
    Ok(())
}

// ---------------------------------------------------------------------------
// Setting a macro's value
// ---------------------------------------------------------------------------

/// The first audio target whose node lacks the parameter, as (node id,
/// parameter id).
pub open spec fn targets_error(nodes: Seq<Node>, targets: Seq<MacroTarget>) -> Option<(String, String)>
    decreases targets.len(),
{
    if targets.len() == 0 {
        None
    } else {
        match targets_error(nodes, targets.drop_last()) {
            Some(e) => Some(e),
            None => match targets.last() {
                MacroTarget::AudioParameter { node_id, parameter_id } => if target_missing(
                    nodes,
                    node_id@,
                    parameter_id@,
                ) {
                    Some((node_id, parameter_id))
                } else {
                    None
                },
                MacroTarget::VisualParameter { .. } => None,
            },
        }
    }
}

/// The value grid after each audio target gets `v` (first node, first
/// parameter, clamped), in order.
pub open spec fn targets_first_writes(
    nodes: Seq<Node>,
    vals: Seq<Seq<u64>>,
    targets: Seq<MacroTarget>,
    v: u64,
) -> Seq<Seq<u64>>
    decreases targets.len(),
{
    if targets.len() == 0 {
        vals
    } else {
        let prev = targets_first_writes(nodes, vals, targets.drop_last(), v);
        match targets.last() {
            MacroTarget::AudioParameter { node_id, parameter_id } => first_write(
                nodes,
                prev,
                node_id@,
                parameter_id@,
                v,
            ),
            MacroTarget::VisualParameter { .. } => prev,
        }
    }
}

/// `f64` bit pattern of 1.0.
pub const UNIT_MAX: u64 = 0x3ff0_0000_0000_0000u64;

/// 0.0 and 1.0 are ordered numbers.
pub proof fn lemma_unit_range()
    ensures
        spec_le(0, UNIT_MAX),
        !crate::float_bits::is_nan(0),
        !crate::float_bits::is_nan(UNIT_MAX),
{
    assert(0u64 & 0x7fff_ffff_ffff_ffffu64 == 0u64) by (bit_vector);
    assert(0x3ff0_0000_0000_0000u64 & 0x7fff_ffff_ffff_ffffu64 == 0x3ff0_0000_0000_0000u64) by (bit_vector);
    assert(0u64 & 0x8000_0000_0000_0000u64 == 0u64) by (bit_vector);
    assert(0x3ff0_0000_0000_0000u64 & 0x8000_0000_0000_0000u64 == 0u64) by (bit_vector);
}

/// The value grid after macro `m` is set, its value already scaled to `v`:
/// explicit targets write to the first matching parameter, flat parameter
/// ids write to every matching parameter.
pub open spec fn set_value_writes(nodes: Seq<Node>, m: MacroDefinition, v: u64) -> Seq<Seq<u64>> {
    if m.targets@.len() > 0 {
        targets_first_writes(nodes, values_of(nodes), m.targets@, v)
    } else {
        macro_writes(nodes, values_of(nodes), m, v)
    }
}

pub proof fn lemma_first_write_shape(
    a: Seq<Node>,
    b: Seq<Node>,
    vals: Seq<Seq<u64>>,
    node_id: Seq<char>,
    pid: Seq<char>,
    v: u64,
)
    requires
        same_but_values(a, b),
    ensures
        first_write(a, vals, node_id, pid, v) == first_write(b, vals, node_id, pid, v),
        target_missing(a, node_id, pid) == target_missing(b, node_id, pid),
        bounds_ordered(a) ==> bounds_ordered(b),
{
    assert forall|i: int| 0 <= i < a.len() implies #[trigger] b[i].id_view() == a[i].id_view() by {
        assert(b[i] == Node { parameters: b[i].parameters, ..a[i] });
    }
    assert(forall|i: int| 0 <= i < a.len() ==> #[trigger] b[i].id_view() == a[i].id_view());
    assert(has_id(a, node_id) == has_id(b, node_id)) by {
        if has_id(a, node_id) {
            let k = choose|k: int| 0 <= k < a.len() && (#[trigger] a[k]).id_view() == node_id;
            assert(b[k].id_view() == node_id);
        }
        if has_id(b, node_id) {
            let k = choose|k: int| 0 <= k < b.len() && (#[trigger] b[k]).id_view() == node_id;
            assert(a[k].id_view() == node_id);
        }
    }
    if has_id(a, node_id) {
        crate::lookup::lemma_first_id_exists(a, node_id);
        let i = first_id(a, node_id);
        crate::lookup::lemma_first_id_unique(b, node_id, i);
        assert(b[i] == Node { parameters: b[i].parameters, ..a[i] });
        let pa = a[i].parameters@;
        let pb = b[i].parameters@;
        assert forall|j: int| 0 <= j < pa.len() implies #[trigger] pb[j].id_view() == pa[j].id_view()
            && pb[j].min_value == pa[j].min_value && pb[j].max_value == pa[j].max_value by {
            assert(pb[j] == ParameterValue { value: pb[j].value, ..pa[j] });
        }
        assert(has_id(pa, pid) == has_id(pb, pid)) by {
            if has_id(pa, pid) {
                let k = choose|k: int| 0 <= k < pa.len() && (#[trigger] pa[k]).id_view() == pid;
                assert(pb[k].id_view() == pid);
            }
            if has_id(pb, pid) {
                let k = choose|k: int| 0 <= k < pb.len() && (#[trigger] pb[k]).id_view() == pid;
                assert(pa[k].id_view() == pid);
            }
        }
        if has_id(pa, pid) {
            crate::lookup::lemma_first_id_exists(pa, pid);
            let j = first_id(pa, pid);
            crate::lookup::lemma_first_id_unique(pb, pid, j);
        }
    }
    if bounds_ordered(a) {
        crate::params::lemma_values_keep_bounds(a, b);
    }
}

proof fn lemma_targets_error_shape(a: Seq<Node>, b: Seq<Node>, targets: Seq<MacroTarget>)
    requires
        same_but_values(a, b),
    ensures
        targets_error(a, targets) == targets_error(b, targets),
    decreases targets.len(),
{
    if targets.len() > 0 {
        lemma_targets_error_shape(a, b, targets.drop_last());
        match targets.last() {
            MacroTarget::AudioParameter { node_id, parameter_id } => {
                lemma_first_write_shape(a, b, values_of(a), node_id@, parameter_id@, 0);
            },
            _ => {},
        }
    }
}

proof fn lemma_targets_error_extends(nodes: Seq<Node>, targets: Seq<MacroTarget>, n: int)
    requires
        0 <= n <= targets.len(),
        targets_error(nodes, targets.take(n)) is Some,
    ensures
        targets_error(nodes, targets) == targets_error(nodes, targets.take(n)),
    decreases targets.len() - n,
{
    if n < targets.len() {
        assert(targets.take(n + 1).drop_last() =~= targets.take(n));
        lemma_targets_error_extends(nodes, targets, n + 1);
    } else {
        assert(targets.take(n) =~= targets);
    }
}

fn check_targets(nodes: &Vec<Node>, targets: &Vec<MacroTarget>) -> (r: Option<(String, String)>)
    ensures
        r == targets_error(nodes@, targets@),
{
    let mut k: usize = 0;
    while k < targets.len()
        invariant
            k <= targets@.len(),
            targets_error(nodes@, targets@.take(k as int)) is None,
        decreases targets.len() - k,
    {
        assert(targets@.take(k as int + 1).drop_last() =~= targets@.take(k as int));
        assert(targets@.take(k as int + 1).last() == targets@[k as int]);
        match &targets[k] {
            MacroTarget::AudioParameter { node_id, parameter_id } => {
                match find_by_id(nodes, node_id) {
                    Some(i) => {
                        if !contains_id(&nodes[i].parameters, parameter_id) {
                            proof {
                                lemma_targets_error_extends(nodes@, targets@, k as int + 1);
                            }
                            return Some((node_id.clone(), parameter_id.clone()));
                        }
                    },
                    None => {},
                }
            },
            MacroTarget::VisualParameter { .. } => {},
        }
        k = k + 1;
    }
    assert(targets@.take(k as int) =~= targets@);
    None
}

/// Writes the (scaled) value `v` of macro `m` to its targets.
fn write_macro_value(nodes: &mut Vec<Node>, m: &MacroDefinition, v: u64) -> (r: Result<
    (),
    MacroCommandError,
>)
    requires
        bounds_ordered(old(nodes)@),
        m.targets@.len() > 0 ==> targets_error(old(nodes)@, m.targets@) is None,
    ensures
        r is Ok,
        same_but_values(old(nodes)@, final(nodes)@),
        values_of(final(nodes)@) == set_value_writes(old(nodes)@, *m, v),
        bounds_ordered(final(nodes)@),
{
    let ghost orig = nodes@;
    proof {
        assert forall|i: int| 0 <= i < orig.len() implies #[trigger] orig[i] == (Node {
            parameters: orig[i].parameters,
            ..orig[i]
        }) by {}
    }
    if m.targets.len() > 0 {
        let mut k: usize = 0;
        while k < m.targets.len()
            invariant
                k <= m.targets@.len(),
                m.targets@.len() > 0,
                bounds_ordered(orig),
                same_but_values(orig, nodes@),
                bounds_ordered(nodes@),
                targets_error(orig, m.targets@.take(k as int)) is None,
                targets_error(orig, m.targets@) is None,
                values_of(nodes@) == targets_first_writes(orig, values_of(orig), m.targets@.take(k as int), v),
            decreases m.targets.len() - k,
        {
            assert(m.targets@.take(k as int + 1).drop_last() =~= m.targets@.take(k as int));
            assert(m.targets@.take(k as int + 1).last() == m.targets@[k as int]);
            let ghost before = nodes@;
            match &m.targets[k] {
                MacroTarget::AudioParameter { node_id, parameter_id } => {
                    proof {
                        lemma_first_write_shape(orig, before, values_of(before), node_id@, parameter_id@, v);
                    }
                    match apply_audio_parameter(nodes, node_id, parameter_id, v) {
                        Err(e) => {
                            proof {
                                assert(target_missing(orig, node_id@, parameter_id@));
                                assert(targets_error(orig, m.targets@.take(k as int + 1)) == Some(
                                    (*node_id, *parameter_id),
                                ));
                                lemma_targets_error_extends(orig, m.targets@, k as int + 1);
                                assert(false);
                            }
                            return Err(e);
                        },
                        Ok(()) => {},
                    }
                    proof {
                        crate::params::lemma_same_but_values_trans(orig, before, nodes@);
                        lemma_first_write_shape(orig, before, values_of(before), node_id@, parameter_id@, v);
                        crate::params::lemma_values_keep_bounds(orig, nodes@);
                    }
                },
                MacroTarget::VisualParameter { .. } => {},
            }
            k = k + 1;
        }
        assert(m.targets@.take(k as int) =~= m.targets@);
        Ok(())
    } else {
        proof {
            lemma_ordered_writable(orig, *m);
        }
        apply_macro_targets(nodes, m, v);
        proof {
            crate::params::lemma_values_keep_bounds(orig, nodes@);
        }
        Ok(())
    }
}

// ---------------------------------------------------------------------------
// Commands
// ---------------------------------------------------------------------------

/// What a macro command does to a session; `scale(start, end, t)` is the
/// value a macro ranging from `start` to `end` takes at `t`.
pub open spec fn macro_outcome<S: Fn(u64, u64, u64) -> u64>(
    s: SessionDocument,
    t: SessionDocument,
    command: MacroCommand,
    scale: S,
    r: Result<(), MacroCommandError>,
) -> bool {
    &&& r is Err ==> t == s
    &&& match command {
        MacroCommand::CreateMacro { definition } => if has_id(s.macros@, definition.id@) {
            r == Err::<(), MacroCommandError>(MacroCommandError::DuplicateMacro { macro_id: definition.id })
        } else {
            &&& r is Ok
            &&& t == (SessionDocument { macros: t.macros, ..s })
            &&& t.macros@ == sorted_by_key(s.macros@.push(definition))
        },
        MacroCommand::UpdateMacro { macro_id, name, targets, range_start, range_end } => if !has_id(
            s.macros@,
            macro_id@,
        ) {
            r == Err::<(), MacroCommandError>(MacroCommandError::MissingMacro { macro_id })
        } else {
            let i = first_id(s.macros@, macro_id@);
            let m = s.macros@[i];
            &&& r is Ok
            &&& t == (SessionDocument { macros: t.macros, ..s })
            &&& t.macros@.len() == s.macros@.len()
            &&& forall|k: int| 0 <= k < s.macros@.len() && k != i ==> #[trigger] t.macros@[k] == s.macros@[k]
            &&& t.macros@[i].id == m.id
            &&& t.macros@[i].target_parameter_ids == m.target_parameter_ids
            &&& t.macros@[i].name == (match name {
                Some(n) => n,
                None => m.name,
            })
            &&& (match targets {
                Some(ts) => t.macros@[i].targets == ts,
                None => t.macros@[i].targets == m.targets,
            })
            &&& t.macros@[i].range_start == (match range_start {
                Some(x) => x,
                None => m.range_start,
            })
            &&& t.macros@[i].range_end == (match range_end {
                Some(x) => x,
                None => m.range_end,
            })
        },
        MacroCommand::RemoveMacro { macro_id } => if !has_id(s.macros@, macro_id@) {
            r == Err::<(), MacroCommandError>(MacroCommandError::MissingMacro { macro_id })
        } else {
            &&& r is Ok
            &&& t == (SessionDocument { macros: t.macros, scenes: t.scenes, ..s })
            &&& t.macros@ == s.macros@.remove(first_id(s.macros@, macro_id@))
            &&& t.scenes@.len() == s.scenes@.len()
            &&& forall|k: int|
                0 <= k < s.scenes@.len() ==> {
                    &&& #[trigger] t.scenes@[k] == (SceneDefinition {
                        macro_overrides: t.scenes@[k].macro_overrides,
                        ..s.scenes@[k]
                    })
                    &&& t.scenes@[k].macro_overrides@ == s.scenes@[k].macro_overrides@.filter(
                        override_of_other(macro_id@),
                    )
                }
        },
        MacroCommand::SetMacroValue { macro_id, value } => if !has_id(s.macros@, macro_id@) {
            r == Err::<(), MacroCommandError>(MacroCommandError::MissingMacro { macro_id })
        } else {
            let m = find_id(s.macros@, macro_id@);
            if m.targets@.len() > 0 && targets_error(s.nodes@, m.targets@) is Some {
                match targets_error(s.nodes@, m.targets@) {
                    Some((n, p)) => r == Err::<(), MacroCommandError>(
                        MacroCommandError::ParameterOutOfRange { node_id: n, parameter_id: p },
                    ),
                    None => false,
                }
            } else {
                &&& r is Ok
                &&& t == (SessionDocument { nodes: t.nodes, ..s })
                &&& same_but_values(s.nodes@, t.nodes@)
                &&& exists|v: u64|
                    scale.ensures(
                        (m.range_start, m.range_end, spec_clamp(value, 0, UNIT_MAX)),
                        v,
                    ) && values_of(t.nodes@) == set_value_writes(s.nodes@, m, v)
            }
        },
    }
}

/// Overrides that belong to another macro than `macro_id`.
pub open spec fn override_of_other(macro_id: Seq<char>) -> spec_fn(MacroOverride) -> bool {
    |o: MacroOverride| o.macro_id@ != macro_id
}

fn retain_other_overrides(v: Vec<MacroOverride>, macro_id: &String) -> (r: Vec<MacroOverride>)
    ensures
        r@ == v@.filter(override_of_other(macro_id@)),
{
    let ghost orig = v@;
    assert(orig.len() == v.len());
    let mut rest = v;
    let mut out: Vec<MacroOverride> = Vec::new();
    let mut k: usize = 0;
    assert(orig.take(0).filter(override_of_other(macro_id@)) =~= Seq::<MacroOverride>::empty());
    assert(orig.skip(0) =~= orig);
    while rest.len() > 0
        invariant
            k + rest@.len() == orig.len(),
            orig.len() <= usize::MAX,
            rest@ == orig.skip(k as int),
            out@ == orig.take(k as int).filter(override_of_other(macro_id@)),
        decreases rest.len(),
    {
        let x = rest.remove(0);
        proof {
            assert(orig.take(k as int + 1) =~= orig.take(k as int).push(x));
            orig.take(k as int).lemma_filter_push(x, override_of_other(macro_id@));
        }
        if !x.macro_id.eq(macro_id) {
            out.push(x);
        }
        k = k + 1;
        assert(rest@ =~= orig.skip(k as int));
    }
    assert(orig.take(k as int) =~= orig);
    out
}

/// Applies a macro command to a session, all or nothing.
pub fn apply_macro_to_session<S: Fn(u64, u64, u64) -> u64>(
    session: &mut SessionDocument,
    command: MacroCommand,
    scale: &S,
) -> (r: Result<(), MacroCommandError>)
    requires
        forall|a: u64, b: u64, c: u64| scale.requires((a, b, c)),
        bounds_ordered(old(session).nodes@),
    ensures
        macro_outcome(*old(session), *final(session), command, *scale, r),
{
    match command {
        MacroCommand::CreateMacro { definition } => {
            if contains_id(&session.macros, &definition.id) {
                return Err(MacroCommandError::DuplicateMacro { macro_id: definition.id.clone() });
            }
            let mut macros: Vec<MacroDefinition> = Vec::new();
            std::mem::swap(&mut macros, &mut session.macros);
            macros.push(definition);
            session.macros = sort_by_key(macros);
            Ok(())
        },
        MacroCommand::UpdateMacro { macro_id, name, targets, range_start, range_end } => {
            let i = match find_by_id(&session.macros, &macro_id) {
                Some(i) => i,
                None => {
                    return Err(MacroCommandError::MissingMacro { macro_id });
                },
            };
            let ghost s0 = *session;
            let mut macros: Vec<MacroDefinition> = Vec::new();
            std::mem::swap(&mut macros, &mut session.macros);
            match name {
                Some(n) => {
                    macros[i].name = n;
                },
                None => {},
            }
            match targets {
                Some(t) => {
                    macros[i].targets = t;
                },
                None => {},
            }
            match range_start {
                Some(x) => {
                    macros[i].range_start = x;
                },
                None => {},
            }
            match range_end {
                Some(x) => {
                    macros[i].range_end = x;
                },
                None => {},
            }
            session.macros = macros;
            Ok(())
        },
        MacroCommand::RemoveMacro { macro_id } => {
            let i = match find_by_id(&session.macros, &macro_id) {
                Some(i) => i,
                None => {
                    return Err(MacroCommandError::MissingMacro { macro_id });
                },
            };
            session.macros.remove(i);
            let ghost s1 = *session;
            let mut scenes: Vec<SceneDefinition> = Vec::new();
            std::mem::swap(&mut scenes, &mut session.scenes);
            let ghost orig = scenes@;
            let mut k: usize = 0;
            while k < scenes.len()
                invariant
                    k <= scenes@.len(),
                    scenes@.len() == orig.len(),
                    forall|j: int|
                        0 <= j < k ==> {
                            &&& #[trigger] scenes@[j] == (SceneDefinition {
                                macro_overrides: scenes@[j].macro_overrides,
                                ..orig[j]
                            })
                            &&& scenes@[j].macro_overrides@ == orig[j].macro_overrides@.filter(
                                override_of_other(macro_id@),
                            )
                        },
                    forall|j: int| k <= j < scenes@.len() ==> #[trigger] scenes@[j] == orig[j],
                decreases scenes.len() - k,
            {
                let mut ovs: Vec<MacroOverride> = Vec::new();
                std::mem::swap(&mut ovs, &mut scenes[k].macro_overrides);
                scenes[k].macro_overrides = retain_other_overrides(ovs, &macro_id);
                k = k + 1;
            }
            session.scenes = scenes;
            Ok(())
        },
        MacroCommand::SetMacroValue { macro_id, value } => {
            let i = match find_by_id(&session.macros, &macro_id) {
                Some(i) => i,
                None => {
                    return Err(MacroCommandError::MissingMacro { macro_id });
                },
            };
            let ghost s0 = *session;
            if session.macros[i].targets.len() > 0 {
                match check_targets(&session.nodes, &session.macros[i].targets) {
                    Some((n, p)) => {
                        return Err(MacroCommandError::ParameterOutOfRange { node_id: n, parameter_id: p });
                    },
                    None => {},
                }
            }
            proof {
                lemma_unit_range();
            }
            let t = f64_clamp(value, 0, UNIT_MAX);
            let m = &session.macros[i];
            let v = scale(m.range_start, m.range_end, t);
            let mut nodes: Vec<Node> = Vec::new();
            std::mem::swap(&mut nodes, &mut session.nodes);
            let result = write_macro_value(&mut nodes, &session.macros[i], v);
            session.nodes = nodes;
            assert(scale.ensures((m.range_start, m.range_end, spec_clamp(value, 0, UNIT_MAX)), v));
            result
        },
    }
}

/// Applies a macro command to the store's current session, all or nothing,
/// and returns the session it leaves.
pub fn apply_macro_command<S: Fn(u64, u64, u64) -> u64>(
    store: &mut SessionStore,
    command: MacroCommand,
    scale: &S,
) -> (r: Result<SessionDocument, MacroCommandError>)
    requires
        forall|a: u64, b: u64, c: u64| scale.requires((a, b, c)),
        bounds_ordered(old(store).session().nodes@),
    ensures
        macro_outcome(
            old(store).session(),
            final(store).session(),
            command,
            *scale,
            match r {
                Ok(_) => Ok(()),
                Err(e) => Err(e),
            },
        ),
        r matches Ok(doc) ==> doc.same(&final(store).session()),
        final(store).settings() == old(store).settings(),
        final(store).status() == old(store).status(),
        final(store).learn() == old(store).learn(),
{
    let result = apply_macro_to_session(store.current_mut(), command, scale);
    match result {
        Ok(()) => Ok(store.current()),
        Err(e) => Err(e),
    }
}

} // verus!

//! Writing parameter values across the node list: the value grid of the
//! graph, and the clamped writes that macros, scenes and variations make.
use vstd::prelude::*;
use crate::domain::{MacroDefinition, MacroTarget, Node, ParameterValue};
use crate::float_bits::{f64_clamp, spec_clamp, spec_le};

verus! {

/// The parameter values of every node, node by node.
pub open spec fn values_of(nodes: Seq<Node>) -> Seq<Seq<u64>> {
    nodes.map_values(|n: Node| n.parameters@.map_values(|p: ParameterValue| p.value))
}

/// `b` is `a` with at most the parameter values changed.
pub open spec fn same_but_values(a: Seq<Node>, b: Seq<Node>) -> bool {
    &&& a.len() == b.len()
    &&& forall|i: int|
        0 <= i < a.len() ==> {
            &&& #[trigger] b[i] == Node { parameters: b[i].parameters, ..a[i] }
            &&& b[i].parameters@.len() == a[i].parameters@.len()
            &&& forall|j: int|
                0 <= j < a[i].parameters@.len() ==> #[trigger] b[i].parameters@[j] == ParameterValue {
                    value: b[i].parameters@[j].value,
                    ..a[i].parameters@[j]
                }
        }
}

/// Node `n` is selected by the node filter (`None` selects every node).
pub open spec fn node_selected(n: Node, node_id: Option<Seq<char>>) -> bool {
    match node_id {
        Some(id) => n.id@ == id,
        None => true,
    }
}

/// Every parameter `pid` of a selected node has well-ordered bounds, so
/// clamping into them is defined.
pub open spec fn writable(nodes: Seq<Node>, node_id: Option<Seq<char>>, pid: Seq<char>) -> bool {
    forall|i: int, j: int|
        0 <= i < nodes.len() && node_selected(nodes[i], node_id) && 0 <= j
            < nodes[i].parameters@.len() && (#[trigger] nodes[i].parameters@[j]).id@ == pid ==> spec_le(
            nodes[i].parameters@[j].min_value,
            nodes[i].parameters@[j].max_value,
        )
}

/// The value grid after writing `v`, clamped into each parameter's bounds,
/// to every parameter `pid` of every selected node.
pub open spec fn clamp_all(
    nodes: Seq<Node>,
    vals: Seq<Seq<u64>>,
    node_id: Option<Seq<char>>,
    pid: Seq<char>,
    v: u64,
) -> Seq<Seq<u64>> {
    Seq::new(
        vals.len(),
        |i: int|
            Seq::new(
                vals[i].len(),
                |j: int|
                    if node_selected(nodes[i], node_id) && nodes[i].parameters@[j].id@ == pid {
                        spec_clamp(
                            v,
                            nodes[i].parameters@[j].min_value,
                            nodes[i].parameters@[j].max_value,
                        )
                    } else {
                        vals[i][j]
                    },
            ),
    )
}

pub proof fn lemma_same_but_values_trans(a: Seq<Node>, b: Seq<Node>, c: Seq<Node>)
    requires
        same_but_values(a, b),
        same_but_values(b, c),
    ensures
        same_but_values(a, c),
{
    assert forall|i: int| 0 <= i < a.len() implies {
        &&& #[trigger] c[i] == Node { parameters: c[i].parameters, ..a[i] }
        &&& c[i].parameters@.len() == a[i].parameters@.len()
        &&& forall|j: int|
            0 <= j < a[i].parameters@.len() ==> #[trigger] c[i].parameters@[j] == ParameterValue {
                value: c[i].parameters@[j].value,
                ..a[i].parameters@[j]
            }
    } by {
        assert(b[i] == Node { parameters: b[i].parameters, ..a[i] });
        assert(c[i] == Node { parameters: c[i].parameters, ..b[i] });
        assert forall|j: int| 0 <= j < a[i].parameters@.len() implies #[trigger] c[i].parameters@[j]
            == ParameterValue { value: c[i].parameters@[j].value, ..a[i].parameters@[j] } by {
            assert(b[i].parameters@[j] == ParameterValue {
                value: b[i].parameters@[j].value,
                ..a[i].parameters@[j]
            });
            assert(c[i].parameters@[j] == ParameterValue {
                value: c[i].parameters@[j].value,
                ..b[i].parameters@[j]
            });
        }
    }
}

/// Writes `v`, clamped, to every parameter `pid` of every selected node.
pub fn clamp_all_matching(nodes: &mut Vec<Node>, node_id: Option<&String>, pid: &String, v: u64)
    requires
        writable(old(nodes)@, match node_id { Some(s) => Some(s@), None => None }, pid@),
    ensures
        same_but_values(old(nodes)@, final(nodes)@),
        values_of(final(nodes)@) == clamp_all(
            old(nodes)@,
            values_of(old(nodes)@),
            match node_id { Some(s) => Some(s@), None => None },
            pid@,
            v,
        ),
{
    let ghost sel = match node_id { Some(s) => Some(s@), None => None };
    let ghost orig = nodes@;
    let ghost target = clamp_all(orig, values_of(orig), sel, pid@, v);
    let mut i: usize = 0;
    while i < nodes.len()
        invariant
            i <= nodes@.len(),
            sel == match node_id { Some(s) => Some(s@), None => None },
            writable(orig, sel, pid@),
            same_but_values(orig, nodes@),
            target == clamp_all(orig, values_of(orig), sel, pid@, v),
            forall|k: int| 0 <= k < i ==> #[trigger] values_of(nodes@)[k] == target[k],
            forall|k: int| i <= k < nodes@.len() ==> #[trigger] values_of(nodes@)[k] == values_of(orig)[k],
        decreases nodes.len() - i,
    {
        let selected = match node_id {
            Some(id) => nodes[i].id.eq(id),
            None => true,
        };
        assert(selected == node_selected(orig[i as int], sel));
        if selected {
            let ghost before = nodes@;
            let mut params: Vec<ParameterValue> = Vec::new();
            std::mem::swap(&mut params, &mut nodes[i].parameters);
            let ghost orig_params = params@;
            let mut j: usize = 0;
            while j < params.len()
                invariant
                    j <= params@.len(),
                    params@.len() == orig_params.len(),
                    forall|k: int|
                        0 <= k < params@.len() ==> #[trigger] params@[k] == (ParameterValue {
                            value: params@[k].value,
                            ..orig_params[k]
                        }),
                    forall|k: int|
                        0 <= k < j ==> (#[trigger] params@[k]).value == (if orig_params[k].id@ == pid@ {
                            spec_clamp(v, orig_params[k].min_value, orig_params[k].max_value)
                        } else {
                            orig_params[k].value
                        }),
                    forall|k: int| j <= k < params@.len() ==> (#[trigger] params@[k]).value == orig_params[k].value,
                    forall|k: int|
                        0 <= k < orig_params.len() && (#[trigger] orig_params[k]).id@ == pid@ ==> spec_le(
                            orig_params[k].min_value,
                            orig_params[k].max_value,
                        ),
                decreases params.len() - j,
            {
                if params[j].id.eq(pid) {
                    let c = f64_clamp(v, params[j].min_value, params[j].max_value);
                    params[j].value = c;
                }
                j = j + 1;
            }
            nodes[i].parameters = params;
            assert(nodes@ =~= before.update(i as int, nodes@[i as int]));
            proof {
                let ii = i as int;
                assert(orig_params == before[ii].parameters@);
                assert(values_of(before)[ii] == values_of(orig)[ii]);
                assert forall|k: int| 0 <= k < orig_params.len() implies #[trigger] values_of(
                    nodes@,
                )[ii][k] == target[ii][k] by {
                    assert(orig_params[k] == ParameterValue {
                        value: orig_params[k].value,
                        ..orig[ii].parameters@[k]
                    });
                    assert(values_of(before)[ii][k] == orig_params[k].value);
                    assert(values_of(orig)[ii][k] == orig[ii].parameters@[k].value);
                }
                assert(values_of(nodes@)[ii].len() == target[ii].len());
            }
            assert(values_of(nodes@)[i as int] =~= target[i as int]);
            assert forall|k: int| 0 <= k < nodes@.len() && k != i implies #[trigger] values_of(nodes@)[k]
                == values_of(before)[k] by {}
        } else {
            assert(values_of(nodes@)[i as int] =~= target[i as int]);
        }
        i = i + 1;
    }
    assert(values_of(nodes@) =~= target);
}

/// Clamped writes read only the ids and bounds of the nodes, which a change
/// of values keeps.
pub proof fn lemma_clamp_all_shape(
    a: Seq<Node>,
    b: Seq<Node>,
    vals: Seq<Seq<u64>>,
    node_id: Option<Seq<char>>,
    pid: Seq<char>,
    v: u64,
)
    requires
        same_but_values(a, b),
        vals.len() == a.len(),
        forall|i: int| 0 <= i < a.len() ==> (#[trigger] vals[i]).len() == a[i].parameters@.len(),
    ensures
        clamp_all(a, vals, node_id, pid, v) == clamp_all(b, vals, node_id, pid, v),
        writable(a, node_id, pid) ==> writable(b, node_id, pid),
{
    assert forall|i: int| 0 <= i < vals.len() implies #[trigger] clamp_all(a, vals, node_id, pid, v)[i]
        =~= clamp_all(b, vals, node_id, pid, v)[i] by {
        assert(b[i] == Node { parameters: b[i].parameters, ..a[i] });
        assert forall|j: int| 0 <= j < vals[i].len() implies #[trigger] b[i].parameters@[j]
            == ParameterValue { value: b[i].parameters@[j].value, ..a[i].parameters@[j] } by {}
    }
    assert(clamp_all(a, vals, node_id, pid, v) =~= clamp_all(b, vals, node_id, pid, v));
    if writable(a, node_id, pid) {
        assert forall|i: int, j: int|
            0 <= i < b.len() && node_selected(b[i], node_id) && 0 <= j < b[i].parameters@.len()
                && (#[trigger] b[i].parameters@[j]).id@ == pid implies spec_le(
            b[i].parameters@[j].min_value,
            b[i].parameters@[j].max_value,
        ) by {
            assert(b[i] == Node { parameters: b[i].parameters, ..a[i] });
            assert(b[i].parameters@[j] == ParameterValue {
                value: b[i].parameters@[j].value,
                ..a[i].parameters@[j]
            });
            assert(a[i].parameters@[j].id@ == pid);
        }
    }
}

/// The value grid has one row per node and one entry per parameter.
pub open spec fn grid_fits(nodes: Seq<Node>, vals: Seq<Seq<u64>>) -> bool {
    &&& vals.len() == nodes.len()
    &&& forall|i: int| 0 <= i < nodes.len() ==> (#[trigger] vals[i]).len() == nodes[i].parameters@.len()
}

pub proof fn lemma_values_fit(nodes: Seq<Node>)
    ensures
        grid_fits(nodes, values_of(nodes)),
{
}

/// Writes of the audio targets among `targets`, in order.
pub open spec fn target_writes(nodes: Seq<Node>, vals: Seq<Seq<u64>>, targets: Seq<MacroTarget>, v: u64) -> Seq<
    Seq<u64>,
>
    decreases targets.len(),
{
    if targets.len() == 0 {
        vals
    } else {
        let prev = target_writes(nodes, vals, targets.drop_last(), v);
        match targets.last() {
            MacroTarget::AudioParameter { node_id, parameter_id } => clamp_all(
                nodes,
                prev,
                Some(node_id@),
                parameter_id@,
                v,
            ),
            MacroTarget::VisualParameter { .. } => prev,
        }
    }
}

/// Writes to every parameter named in `ids`, in order, on any node.
pub open spec fn id_writes(nodes: Seq<Node>, vals: Seq<Seq<u64>>, ids: Seq<String>, v: u64) -> Seq<Seq<u64>>
    decreases ids.len(),
{
    if ids.len() == 0 {
        vals
    } else {
        clamp_all(nodes, id_writes(nodes, vals, ids.drop_last(), v), None, ids.last()@, v)
    }
}

/// The value grid after a macro sends the (already scaled) value `v` to its
/// targets: the explicit targets when it has any, else its flat parameter
/// id list.
pub open spec fn macro_writes(nodes: Seq<Node>, vals: Seq<Seq<u64>>, m: MacroDefinition, v: u64) -> Seq<Seq<u64>> {
    if m.targets@.len() > 0 {
        target_writes(nodes, vals, m.targets@, v)
    } else {
        id_writes(nodes, vals, m.target_parameter_ids@, v)
    }
}

/// Every parameter a macro writes has well-ordered bounds.
pub open spec fn macro_writable(nodes: Seq<Node>, m: MacroDefinition) -> bool {
    if m.targets@.len() > 0 {
        forall|k: int|
            0 <= k < m.targets@.len() ==> match #[trigger] m.targets@[k] {
                MacroTarget::AudioParameter { node_id, parameter_id } => writable(
                    nodes,
                    Some(node_id@),
                    parameter_id@,
                ),
                MacroTarget::VisualParameter { .. } => true,
            }
    } else {
        forall|k: int|
            0 <= k < m.target_parameter_ids@.len() ==> writable(
                nodes,
                None,
                (#[trigger] m.target_parameter_ids@[k])@,
            )
    }
}

proof fn lemma_target_writes_fits(nodes: Seq<Node>, vals: Seq<Seq<u64>>, targets: Seq<MacroTarget>, v: u64)
    requires
        grid_fits(nodes, vals),
    ensures
        grid_fits(nodes, target_writes(nodes, vals, targets, v)),
    decreases targets.len(),
{
    if targets.len() > 0 {
        lemma_target_writes_fits(nodes, vals, targets.drop_last(), v);
    }
}

proof fn lemma_id_writes_fits(nodes: Seq<Node>, vals: Seq<Seq<u64>>, ids: Seq<String>, v: u64)
    requires
        grid_fits(nodes, vals),
    ensures
        grid_fits(nodes, id_writes(nodes, vals, ids, v)),
    decreases ids.len(),
{
    if ids.len() > 0 {
        lemma_id_writes_fits(nodes, vals, ids.drop_last(), v);
    }
}

pub proof fn lemma_macro_writes_fits(nodes: Seq<Node>, vals: Seq<Seq<u64>>, m: MacroDefinition, v: u64)
    requires
        grid_fits(nodes, vals),
    ensures
        grid_fits(nodes, macro_writes(nodes, vals, m, v)),
{
    lemma_target_writes_fits(nodes, vals, m.targets@, v);
    lemma_id_writes_fits(nodes, vals, m.target_parameter_ids@, v);
}

/// Sends the scaled value `v` of macro `m` to its audio targets.
pub fn apply_macro_targets(nodes: &mut Vec<Node>, m: &MacroDefinition, v: u64)
    requires
        macro_writable(old(nodes)@, *m),
    ensures
        same_but_values(old(nodes)@, final(nodes)@),
        values_of(final(nodes)@) == macro_writes(old(nodes)@, values_of(old(nodes)@), *m, v),
{
    let ghost orig = nodes@;
    proof {
        assert forall|i: int| 0 <= i < orig.len() implies #[trigger] orig[i] == Node {
            parameters: orig[i].parameters,
            ..orig[i]
        } by {}
    }
    if m.targets.len() > 0 {
        let mut k: usize = 0;
        while k < m.targets.len()
            invariant
                k <= m.targets@.len(),
                m.targets@.len() > 0,
                macro_writable(orig, *m),
                same_but_values(orig, nodes@),
                values_of(nodes@) == target_writes(orig, values_of(orig), m.targets@.take(k as int), v),
            decreases m.targets.len() - k,
        {
            assert(m.targets@.take(k as int + 1).drop_last() =~= m.targets@.take(k as int));
            let ghost before = nodes@;
            proof {
                lemma_target_writes_fits(orig, values_of(orig), m.targets@.take(k as int), v);
            }
            match &m.targets[k] {
                MacroTarget::AudioParameter { node_id, parameter_id } => {
                    proof {
                        assert(writable(orig, Some(node_id@), parameter_id@));
                        lemma_clamp_all_shape(orig, before, values_of(before), Some(node_id@), parameter_id@, v);
                    }
                    clamp_all_matching(nodes, Some(node_id), parameter_id, v);
                    proof {
                        lemma_same_but_values_trans(orig, before, nodes@);
                    }
                },
                MacroTarget::VisualParameter { .. } => {},
            }
            k = k + 1;
        }
        assert(m.targets@.take(k as int) =~= m.targets@);
    } else {
        let mut k: usize = 0;
        while k < m.target_parameter_ids.len()
            invariant
                k <= m.target_parameter_ids@.len(),
                m.targets@.len() == 0,
                macro_writable(orig, *m),
                same_but_values(orig, nodes@),
                values_of(nodes@) == id_writes(orig, values_of(orig), m.target_parameter_ids@.take(k as int), v),
            decreases m.target_parameter_ids.len() - k,
        {
            assert(m.target_parameter_ids@.take(k as int + 1).drop_last() =~= m.target_parameter_ids@.take(k as int));
            let ghost before = nodes@;
            proof {
                lemma_id_writes_fits(orig, values_of(orig), m.target_parameter_ids@.take(k as int), v);
                let pid = m.target_parameter_ids@[k as int]@;
                assert(writable(orig, None, pid));
                lemma_clamp_all_shape(orig, before, values_of(before), None, pid, v);
            }
            clamp_all_matching(nodes, None, &m.target_parameter_ids[k], v);
            proof {
                lemma_same_but_values_trans(orig, before, nodes@);
            }
            k = k + 1;
        }
        assert(m.target_parameter_ids@.take(k as int) =~= m.target_parameter_ids@);
    }
}

proof fn lemma_target_writes_shape(
    a: Seq<Node>,
    b: Seq<Node>,
    vals: Seq<Seq<u64>>,
    targets: Seq<MacroTarget>,
    v: u64,
)
    requires
        same_but_values(a, b),
        grid_fits(a, vals),
    ensures
        target_writes(a, vals, targets, v) == target_writes(b, vals, targets, v),
    decreases targets.len(),
{
    if targets.len() > 0 {
        lemma_target_writes_shape(a, b, vals, targets.drop_last(), v);
        lemma_target_writes_fits(a, vals, targets.drop_last(), v);
        let prev = target_writes(a, vals, targets.drop_last(), v);
        match targets.last() {
            MacroTarget::AudioParameter { node_id, parameter_id } => {
                lemma_clamp_all_shape(a, b, prev, Some(node_id@), parameter_id@, v);
            },
            MacroTarget::VisualParameter { .. } => {},
        }
    }
}

proof fn lemma_id_writes_shape(a: Seq<Node>, b: Seq<Node>, vals: Seq<Seq<u64>>, ids: Seq<String>, v: u64)
    requires
        same_but_values(a, b),
        grid_fits(a, vals),
    ensures
        id_writes(a, vals, ids, v) == id_writes(b, vals, ids, v),
    decreases ids.len(),
{
    if ids.len() > 0 {
        lemma_id_writes_shape(a, b, vals, ids.drop_last(), v);
        lemma_id_writes_fits(a, vals, ids.drop_last(), v);
        lemma_clamp_all_shape(a, b, id_writes(a, vals, ids.drop_last(), v), None, ids.last()@, v);
    }
}

/// A macro's writes, and whether they are defined, read only the ids and
/// bounds of the nodes, which a change of values keeps.
pub proof fn lemma_macro_writes_shape(a: Seq<Node>, b: Seq<Node>, vals: Seq<Seq<u64>>, m: MacroDefinition, v: u64)
    requires
        same_but_values(a, b),
        grid_fits(a, vals),
    ensures
        macro_writes(a, vals, m, v) == macro_writes(b, vals, m, v),
        macro_writable(a, m) ==> macro_writable(b, m),
{
    lemma_target_writes_shape(a, b, vals, m.targets@, v);
    lemma_id_writes_shape(a, b, vals, m.target_parameter_ids@, v);
    if macro_writable(a, m) {
        if m.targets@.len() > 0 {
            assert forall|k: int| 0 <= k < m.targets@.len() implies match #[trigger] m.targets@[k] {
                MacroTarget::AudioParameter { node_id, parameter_id } => writable(
                    b,
                    Some(node_id@),
                    parameter_id@,
                ),
                MacroTarget::VisualParameter { .. } => true,
            } by {
                match m.targets@[k] {
                    MacroTarget::AudioParameter { node_id, parameter_id } => {
                        lemma_clamp_all_shape(a, b, vals, Some(node_id@), parameter_id@, v);
                    },
                    MacroTarget::VisualParameter { .. } => {},
                }
            }
        } else {
            assert forall|k: int| 0 <= k < m.target_parameter_ids@.len() implies writable(
                b,
                None,
                (#[trigger] m.target_parameter_ids@[k])@,
            ) by {
                lemma_clamp_all_shape(a, b, vals, None, m.target_parameter_ids@[k]@, v);
            }
        }
    }
}

/// The value grid after writing `v` (unclamped) to every parameter `pid`.
pub open spec fn set_all(nodes: Seq<Node>, vals: Seq<Seq<u64>>, pid: Seq<char>, v: u64) -> Seq<Seq<u64>> {
    Seq::new(
        vals.len(),
        |i: int|
            Seq::new(
                vals[i].len(),
                |j: int|
                    if nodes[i].parameters@[j].id@ == pid {
                        v
                    } else {
                        vals[i][j]
                    },
            ),
    )
}

pub proof fn lemma_set_all_shape(a: Seq<Node>, b: Seq<Node>, vals: Seq<Seq<u64>>, pid: Seq<char>, v: u64)
    requires
        same_but_values(a, b),
        grid_fits(a, vals),
    ensures
        set_all(a, vals, pid, v) == set_all(b, vals, pid, v),
        grid_fits(a, set_all(a, vals, pid, v)),
{
    assert forall|i: int| 0 <= i < vals.len() implies #[trigger] set_all(a, vals, pid, v)[i]
        =~= set_all(b, vals, pid, v)[i] by {
        assert(b[i] == Node { parameters: b[i].parameters, ..a[i] });
        assert forall|j: int| 0 <= j < vals[i].len() implies #[trigger] b[i].parameters@[j]
            == ParameterValue { value: b[i].parameters@[j].value, ..a[i].parameters@[j] } by {}
    }
    assert(set_all(a, vals, pid, v) =~= set_all(b, vals, pid, v));
}

/// Writes `v` to every parameter `pid` of every node.
pub fn set_all_matching(nodes: &mut Vec<Node>, pid: &String, v: u64)
    ensures
        same_but_values(old(nodes)@, final(nodes)@),
        values_of(final(nodes)@) == set_all(old(nodes)@, values_of(old(nodes)@), pid@, v),
{
    let ghost orig = nodes@;
    let ghost target = set_all(orig, values_of(orig), pid@, v);
    proof {
        assert forall|i: int| 0 <= i < orig.len() implies #[trigger] orig[i] == (Node {
            parameters: orig[i].parameters,
            ..orig[i]
        }) by {}
    }
    let mut i: usize = 0;
    while i < nodes.len()
        invariant
            i <= nodes@.len(),
            same_but_values(orig, nodes@),
            target == set_all(orig, values_of(orig), pid@, v),
            forall|k: int| 0 <= k < i ==> #[trigger] values_of(nodes@)[k] == target[k],
            forall|k: int| i <= k < nodes@.len() ==> #[trigger] values_of(nodes@)[k] == values_of(orig)[k],
        decreases nodes.len() - i,
    {
        let ghost before = nodes@;
        let mut params: Vec<ParameterValue> = Vec::new();
        std::mem::swap(&mut params, &mut nodes[i].parameters);
        let ghost orig_params = params@;
        let mut j: usize = 0;
        while j < params.len()
            invariant
                j <= params@.len(),
                params@.len() == orig_params.len(),
                forall|k: int|
                    0 <= k < params@.len() ==> #[trigger] params@[k] == (ParameterValue {
                        value: params@[k].value,
                        ..orig_params[k]
                    }),
                forall|k: int|
                    0 <= k < j ==> (#[trigger] params@[k]).value == (if orig_params[k].id@ == pid@ {
                        v
                    } else {
                        orig_params[k].value
                    }),
                forall|k: int| j <= k < params@.len() ==> (#[trigger] params@[k]).value == orig_params[k].value,
            decreases params.len() - j,
        {
            if params[j].id.eq(pid) {
                params[j].value = v;
            }
            j = j + 1;
        }
        nodes[i].parameters = params;
        assert(nodes@ =~= before.update(i as int, nodes@[i as int]));
        proof {
            let ii = i as int;
            assert(orig_params == before[ii].parameters@);
            assert(values_of(before)[ii] == values_of(orig)[ii]);
            assert forall|k: int| 0 <= k < orig_params.len() implies #[trigger] values_of(nodes@)[ii][k]
                == target[ii][k] by {
                assert(orig_params[k] == ParameterValue {
                    value: orig_params[k].value,
                    ..orig[ii].parameters@[k]
                });
                assert(values_of(before)[ii][k] == orig_params[k].value);
                assert(values_of(orig)[ii][k] == orig[ii].parameters@[k].value);
            }
            assert(values_of(nodes@)[ii].len() == target[ii].len());
        }
        assert(values_of(nodes@)[i as int] =~= target[i as int]);
        assert forall|k: int| 0 <= k < nodes@.len() && k != i implies #[trigger] values_of(nodes@)[k]
            == values_of(before)[k] by {}
        i = i + 1;
    }
    assert(values_of(nodes@) =~= target);
}

/// Every parameter of the node has well-ordered bounds.
pub open spec fn node_bounds_ordered(n: Node) -> bool {
    forall|j: int|
        0 <= j < n.parameters@.len() ==> spec_le(
            (#[trigger] n.parameters@[j]).min_value,
            n.parameters@[j].max_value,
        )
}

/// Every parameter of every node has well-ordered bounds.
pub open spec fn bounds_ordered(nodes: Seq<Node>) -> bool {
    forall|i: int| 0 <= i < nodes.len() ==> node_bounds_ordered(#[trigger] nodes[i])
}

/// With well-ordered bounds everywhere, every macro can write.
pub proof fn lemma_ordered_writable(nodes: Seq<Node>, m: MacroDefinition)
    requires
        bounds_ordered(nodes),
    ensures
        macro_writable(nodes, m),
{
    assert forall|node_id: Option<Seq<char>>, pid: Seq<char>| #[trigger] writable(nodes, node_id, pid) by {
        assert forall|i: int, j: int|
            0 <= i < nodes.len() && node_selected(nodes[i], node_id) && 0 <= j
                < nodes[i].parameters@.len() && (#[trigger] nodes[i].parameters@[j]).id@ == pid implies spec_le(
            nodes[i].parameters@[j].min_value,
            nodes[i].parameters@[j].max_value,
        ) by {
            assert(node_bounds_ordered(nodes[i]));
        }
    }
}

/// Changing values keeps the bounds.
pub proof fn lemma_values_keep_bounds(a: Seq<Node>, b: Seq<Node>)
    requires
        bounds_ordered(a),
        same_but_values(a, b),
    ensures
        bounds_ordered(b),
{
    assert forall|i: int| 0 <= i < b.len() implies node_bounds_ordered(#[trigger] b[i]) by {
        assert(node_bounds_ordered(a[i]));
        assert(b[i] == Node { parameters: b[i].parameters, ..a[i] });
        assert forall|j: int| 0 <= j < b[i].parameters@.len() implies spec_le(
            (#[trigger] b[i].parameters@[j]).min_value,
            b[i].parameters@[j].max_value,
        ) by {
            assert(b[i].parameters@[j] == ParameterValue {
                value: b[i].parameters@[j].value,
                ..a[i].parameters@[j]
            });
        }
    }
}

} // verus!

//! The SuperCollider server commands that realise a resource plan: creating
//! its groups and synths, freeing what was created (newest first), and
//! setting a live control. Sending them, and reading SynthDef files, is the
//! caller's I/O.
use vstd::prelude::*;
use crate::synthdefs::{ScArgValue, ScControlPlan, ScGroupPlan, ScResourcePlan, ScSynthArg, ScSynthPlan};

verus! {

/// One OSC argument. A `Value` is sent as the nearest `f32`.
#[derive(Debug, PartialEq)]
pub enum OscArg {
    Int(i32),
    Str(String),
    Value(ScArgValue),
}

/// An OSC message to the server.
#[derive(Debug, PartialEq)]
pub struct OscCommand {
    pub address: String,
    pub args: Vec<OscArg>,
}

/// An OSC argument as plain values.
pub enum OscArgView {
    Int(i32),
    Str(Seq<char>),
    Value(ScArgValue),
}

impl View for OscArg {
    type V = OscArgView;

    open spec fn view(&self) -> OscArgView {
        match *self {
            OscArg::Int(i) => OscArgView::Int(i),
            OscArg::Str(s) => OscArgView::Str(s@),
            OscArg::Value(v) => OscArgView::Value(v),
        }
    }
}

pub open spec fn args_view(v: Seq<OscArg>) -> Seq<OscArgView> {
    v.map_values(|a: OscArg| a@)
}

/// A synth's arguments as OSC: each name followed by its value.
pub open spec fn synth_args_osc(args: Seq<ScSynthArg>) -> Seq<OscArgView>
    decreases args.len(),
{
    if args.len() == 0 {
        Seq::empty()
    } else {
        synth_args_osc(args.drop_last()) + seq![OscArgView::Str(args.last().name@), OscArgView::Value(args.last().value)]
    }
}

fn push_synth_args(out: &mut Vec<OscArg>, args: &Vec<ScSynthArg>)
    ensures
        args_view(final(out)@) == args_view(old(out)@) + synth_args_osc(args@),
{
    let ghost o0 = args_view(out@);
    let mut i: usize = 0;
    while i < args.len()
        invariant
            i <= args@.len(),
            args_view(out@) == o0 + synth_args_osc(args@.take(i as int)),
        decreases args.len() - i,
    {
        assert(args@.take(i as int + 1).drop_last() =~= args@.take(i as int));
        let ghost before = args_view(out@);
        out.push(OscArg::Str(args[i].name.clone()));
        out.push(OscArg::Value(args[i].value));
        assert(args_view(out@) =~= before + seq![OscArgView::Str(args@[i as int].name@), OscArgView::Value(args@[i as int].value)]);
        assert(o0 + synth_args_osc(args@.take(i as int + 1)) =~= before + seq![OscArgView::Str(args@[i as int].name@), OscArgView::Value(args@[i as int].value)]);
        i = i + 1;
    }
    assert(args@.take(i as int) =~= args@);
}

/// The arguments of a synth, flattened to name/value pairs.
pub fn synth_args_to_osc(args: &Vec<ScSynthArg>) -> (r: Vec<OscArg>)
    ensures
        args_view(r@) == synth_args_osc(args@),
{
    let mut out: Vec<OscArg> = Vec::new();
    push_synth_args(&mut out, args);
    assert(args_view(out@) =~= synth_args_osc(args@));
    out
}

/// `c` is the message to `address` with these arguments.
pub open spec fn is_command(c: OscCommand, address: Seq<char>, args: Seq<OscArgView>) -> bool {
    c.address@ == address && args_view(c.args@) == args
}

/// Creating a group: `/g_new` with its node id, added to the head of the
/// root group.
pub fn group_new(g: &ScGroupPlan) -> (c: OscCommand)
    ensures
        is_command(c, "/g_new"@, seq![OscArgView::Int(g.node_id), OscArgView::Int(1), OscArgView::Int(0)]),
{
    let args = vec![OscArg::Int(g.node_id), OscArg::Int(1), OscArg::Int(0)];
    assert(args_view(args@) =~= seq![OscArgView::Int(g.node_id), OscArgView::Int(1), OscArgView::Int(0)]);
    OscCommand { address: "/g_new".to_owned(), args }
}

/// Creating a synth: `/s_new` with its SynthDef, node id, added to the tail
/// of its group, then its arguments.
pub fn synth_new(s: &ScSynthPlan) -> (c: OscCommand)
    ensures
        is_command(
            c,
            "/s_new"@,
            seq![
                OscArgView::Str(s.synthdef_name@),
                OscArgView::Int(s.node_id),
                OscArgView::Int(1),
                OscArgView::Int(s.group_node_id)
            ] + synth_args_osc(s.args@),
        ),
{
    let mut args = vec![
        OscArg::Str(s.synthdef_name.to_owned()),
        OscArg::Int(s.node_id),
        OscArg::Int(1),
        OscArg::Int(s.group_node_id),
    ];
    let ghost head = args_view(args@);
    push_synth_args(&mut args, &s.args);
    assert(head =~= seq![
        OscArgView::Str(s.synthdef_name@),
        OscArgView::Int(s.node_id),
        OscArgView::Int(1),
        OscArgView::Int(s.group_node_id)
    ]);
    OscCommand { address: "/s_new".to_owned(), args }
}

/// Freeing what a plan created: the first `synth_count` synths, newest
/// first, then the first `group_count` groups, newest first; one `/n_free`
/// each.
pub open spec fn free_ids(plan: ScResourcePlan, synth_count: int, group_count: int) -> Seq<i32> {
    Seq::new(synth_count as nat, |i: int| plan.synths@[synth_count - 1 - i].node_id) + Seq::new(
        group_count as nat,
        |i: int| plan.groups@[group_count - 1 - i].node_id,
    )
}

pub fn free_commands(plan: &ScResourcePlan, synth_count: usize, group_count: usize) -> (r: Vec<OscCommand>)
    requires
        synth_count <= plan.synths@.len(),
        group_count <= plan.groups@.len(),
    ensures
        r@.len() == synth_count + group_count,
        forall|i: int|
            0 <= i < r@.len() ==> is_command(
                #[trigger] r@[i],
                "/n_free"@,
                seq![OscArgView::Int(free_ids(*plan, synth_count as int, group_count as int)[i])],
            ),
{
    let ghost ids = free_ids(*plan, synth_count as int, group_count as int);
    let mut out: Vec<OscCommand> = Vec::new();
    let mut k: usize = synth_count;
    while k > 0
        invariant
            k <= synth_count,
            synth_count <= plan.synths@.len(),
            ids == free_ids(*plan, synth_count as int, group_count as int),
            out@.len() == synth_count - k,
            forall|i: int| 0 <= i < out@.len() ==> is_command(#[trigger] out@[i], "/n_free"@, seq![OscArgView::Int(ids[i])]),
        decreases k,
    {
        k = k - 1;
        let args = vec![OscArg::Int(plan.synths[k].node_id)];
        assert(args_view(args@) =~= seq![OscArgView::Int(ids[out@.len() as int])]);
        out.push(OscCommand { address: "/n_free".to_owned(), args });
    }
    let mut k: usize = group_count;
    while k > 0
        invariant
            k <= group_count,
            group_count <= plan.groups@.len(),
            ids == free_ids(*plan, synth_count as int, group_count as int),
            out@.len() == synth_count + (group_count - k),
            forall|i: int| 0 <= i < out@.len() ==> is_command(#[trigger] out@[i], "/n_free"@, seq![OscArgView::Int(ids[i])]),
        decreases k,
    {
        k = k - 1;
        let args = vec![OscArg::Int(plan.groups[k].node_id)];
        assert(args_view(args@) =~= seq![OscArgView::Int(ids[out@.len() as int])]);
        out.push(OscCommand { address: "/n_free".to_owned(), args });
    }
    out
}

/// `i` is the first control with key `key`.
pub open spec fn is_first_control(controls: Seq<ScControlPlan>, key: Seq<char>, i: int) -> bool {
    &&& 0 <= i < controls.len()
    &&& controls[i].control_key@ == key
    &&& forall|j: int| 0 <= j < i ==> (#[trigger] controls[j]).control_key@ != key
}

/// The key of a live control: `<node id>:<parameter id>`.
pub open spec fn control_key(node_id: Seq<char>, parameter_id: Seq<char>) -> Seq<char> {
    node_id + ":"@ + parameter_id
}

/// The live update of a parameter of the active patch: `/n_set` on the
/// control's synth with its SuperCollider name and the value; with the
/// active patch's id. No active patch, or no such control, is an error.
pub fn live_parameter_command(active: &Option<ScResourcePlan>, node_id: &str, parameter_id: &str, value: u64) -> (r:
    Result<(OscCommand, String), String>)
    ensures
        match *active {
            None => r matches Err(e) && e@
                == "Audio runtime app state error during live parameter update: no active SuperCollider patch is registered."@,
            Some(p) => {
                let key = control_key(node_id@, parameter_id@);
                if exists|i: int| is_first_control(p.controls@, key, i) {
                    let c = p.controls@[choose|i: int| is_first_control(p.controls@, key, i)];
                    r matches Ok((cmd, patch)) && patch@ == p.patch_id@ && is_command(
                        cmd,
                        "/n_set"@,
                        seq![
                            OscArgView::Int(c.synth_node_id),
                            OscArgView::Str(c.parameter_name@),
                            OscArgView::Value(ScArgValue::Real(value))
                        ],
                    )
                } else {
                    r matches Err(e) && e@ == "Topology apply failure during live parameter update: no SuperCollider control exists for node `"@
                        + node_id@ + "` parameter `"@ + parameter_id@ + "` in the active patch."@
                }
            },
        },
{
    let p = match active {
        None => {
            return Err(
                "Audio runtime app state error during live parameter update: no active SuperCollider patch is registered.".to_owned(),
            );
        },
        Some(p) => p,
    };
    let mut key = node_id.to_owned();
    key.append(":");
    key.append(parameter_id);
    let mut i: usize = 0;
    while i < p.controls.len()
        invariant
            i <= p.controls@.len(),
            *active == Some(*p),
            key@ == control_key(node_id@, parameter_id@),
            forall|j: int| 0 <= j < i ==> (#[trigger] p.controls@[j]).control_key@ != key@,
        decreases p.controls.len() - i,
    {
        if p.controls[i].control_key == key {
            proof {
                assert(is_first_control(p.controls@, key@, i as int));
                let c = choose|c: int| is_first_control(p.controls@, key@, c);
                if c < i {
                    assert(p.controls@[c].control_key@ != key@);
                } else if i < c {
                    assert(p.controls@[i as int].control_key@ != key@);
                }
            }
            let c = &p.controls[i];
            let args = vec![OscArg::Int(c.synth_node_id), OscArg::Str(c.parameter_name.clone()), OscArg::Value(ScArgValue::Real(value))];
            assert(args_view(args@) =~= seq![
                OscArgView::Int(c.synth_node_id),
                OscArgView::Str(c.parameter_name@),
                OscArgView::Value(ScArgValue::Real(value))
            ]);
            return Ok((OscCommand { address: "/n_set".to_owned(), args }, p.patch_id.clone()));
        }
        i = i + 1;
    }
    proof {
        if exists|c: int| is_first_control(p.controls@, key@, c) {
            let c = choose|c: int| is_first_control(p.controls@, key@, c);
            assert(p.controls@[c].control_key@ == key@);
        }
    }
    let mut e = "Topology apply failure during live parameter update: no SuperCollider control exists for node `".to_owned();
    e.append(node_id);
    e.append("` parameter `");
    e.append(parameter_id);
    e.append("` in the active patch.");
    Err(e)
}

/// The refusal to start when no `scsynth` executable can be found.
pub fn missing_scsynth_message() -> (r: String)
    ensures
        r@ == "scsynth not found. Install SuperCollider, put `scsynth` on PATH, or set SCRYSYNTH_SCSYNTH_PATH to the full executable path. On macOS Scrysynth also checks the bundle fallback `/Applications/SuperCollider.app/Contents/Resources/scsynth`."@,
{
    "scsynth not found. Install SuperCollider, put `scsynth` on PATH, or set SCRYSYNTH_SCSYNTH_PATH to the full executable path. On macOS Scrysynth also checks the bundle fallback `/Applications/SuperCollider.app/Contents/Resources/scsynth`.".to_owned()
}

} // verus!

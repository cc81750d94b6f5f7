//! Applying a resource plan to the SuperCollider server, as a sequence of
//! steps the caller performs one at a time: free the previous patch (newest
//! synth first, then its groups) and sync; send each SynthDef and sync;
//! create each group and sync; create each synth and sync.
//!
//! The caller performs a step (sending a message, reading and sending a
//! SynthDef file, or syncing) and reports whether it went through. On a
//! failure the steps stop: what was created of the new plan is freed,
//! newest synth first and then the groups, and the failure is reported. A
//! failure while the previous patch is being unloaded keeps that patch.
use vstd::prelude::*;
use crate::sc_commands::{
    free_commands, free_ids, group_new, is_command, synth_args_osc, synth_new, OscArg, OscArgView,
    OscCommand, args_view,
};
use crate::synthdefs::ScResourcePlan;
use crate::text::{joined4, joined5};

verus! {

/// A step of applying a plan, as plain values.
pub enum ApplyStepView {
    /// Send a message to this address with these arguments.
    Send(Seq<char>, Seq<OscArgView>),
    /// Read the plan's SynthDef with this index and send it with `/d_recv`.
    LoadSynthDef(int),
    /// Send `/status`, then `/sync`, and wait for the server's `/synced`;
    /// the text names the stage in error messages.
    Sync(Seq<char>),
}

/// How many steps unloading the previous patch takes: one `/n_free` per
/// synth and group, then a sync; none without a previous patch.
pub open spec fn unload_len(prev: Option<ScResourcePlan>) -> int {
    match prev {
        Some(p) => (p.synths@.len() + p.groups@.len() + 1) as int,
        None => 0,
    }
}

/// The position of the first group creation.
pub open spec fn groups_start(prev: Option<ScResourcePlan>, plan: ScResourcePlan) -> int {
    unload_len(prev) + plan.synthdefs@.len() + 1
}

/// The position of the first synth creation.
pub open spec fn synths_start(prev: Option<ScResourcePlan>, plan: ScResourcePlan) -> int {
    groups_start(prev, plan) + plan.groups@.len() + 1
}

/// The number of steps.
pub open spec fn apply_len(prev: Option<ScResourcePlan>, plan: ScResourcePlan) -> int {
    synths_start(prev, plan) + plan.synths@.len() + 1
}

/// The `/n_free` that frees node `id`.
pub open spec fn free_view(id: i32) -> ApplyStepView {
    ApplyStepView::Send("/n_free"@, seq![OscArgView::Int(id)])
}

/// The step at position `k`.
pub open spec fn apply_step_at(prev: Option<ScResourcePlan>, plan: ScResourcePlan, k: int) -> ApplyStepView {
    let u = unload_len(prev);
    let g0 = groups_start(prev, plan);
    let s0 = synths_start(prev, plan);
    if k < u - 1 {
        let p = prev->Some_0;
        free_view(free_ids(p, p.synths@.len() as int, p.groups@.len() as int)[k])
    } else if k == u - 1 {
        ApplyStepView::Sync("topology unload previous patch"@)
    } else if k < g0 - 1 {
        ApplyStepView::LoadSynthDef(k - u)
    } else if k == g0 - 1 {
        ApplyStepView::Sync("topology load synthdefs"@)
    } else if k < s0 - 1 {
        let g = plan.groups@[k - g0];
        ApplyStepView::Send("/g_new"@, seq![OscArgView::Int(g.node_id), OscArgView::Int(1), OscArgView::Int(0)])
    } else if k == s0 - 1 {
        ApplyStepView::Sync("topology load groups"@)
    } else if k < apply_len(prev, plan) - 1 {
        let s = plan.synths@[k - s0];
        ApplyStepView::Send(
            "/s_new"@,
            seq![
                OscArgView::Str(s.synthdef_name@),
                OscArgView::Int(s.node_id),
                OscArgView::Int(1),
                OscArgView::Int(s.group_node_id)
            ] + synth_args_osc(s.args@),
        )
    } else {
        ApplyStepView::Sync("topology load synths"@)
    }
}

/// Why a step did not go through. Each carries the text of the cause:
/// the file error, the OSC error, or the whole message of a failed sync.
#[derive(Debug, PartialEq)]
pub enum StepFailure {
    /// A SynthDef file could not be read.
    Unreadable(String),
    /// A message could not be sent.
    Unsent(String),
    /// A sync failed; the text is its full message.
    Unsynced(String),
}

/// Where the steps stand: the step at `position` is under way.
#[derive(Debug, PartialEq, Eq, Structural)]
pub struct ResourceApplyState {
    pub position: usize,
}

/// What became of the step under way.
#[derive(Debug, PartialEq)]
pub enum ResourceApplyEvent {
    Done,
    Failed(StepFailure),
}

/// What to do next.
#[derive(Debug, PartialEq)]
pub enum ResourceApplyAction {
    Send(OscCommand),
    LoadSynthDef(usize),
    Sync(String),
    /// Every step went through.
    Finish,
    /// Stop: send `cleanup` (stopping at the first that fails, whose
    /// failure is not reported), then report `message`. `keeps_previous`
    /// says whether the previous patch is still loaded.
    Abort { cleanup: Vec<OscCommand>, message: String, keeps_previous: bool },
}

/// `a` is the step `v`.
pub open spec fn is_step(a: ResourceApplyAction, v: ApplyStepView) -> bool {
    match v {
        ApplyStepView::Send(address, args) => a matches ResourceApplyAction::Send(c) && is_command(c, address, args),
        ApplyStepView::LoadSynthDef(i) => a matches ResourceApplyAction::LoadSynthDef(j) && j == i,
        ApplyStepView::Sync(stage) => a matches ResourceApplyAction::Sync(s) && s@ == stage,
    }
}

/// A failure at step `k` fits the step: a sync fails as a sync, a SynthDef
/// load as an unreadable file or an unsent message, a message as unsent.
pub open spec fn failure_fits(prev: Option<ScResourcePlan>, plan: ScResourcePlan, k: int, f: StepFailure) -> bool {
    match apply_step_at(prev, plan, k) {
        ApplyStepView::Sync(_) => f is Unsynced,
        ApplyStepView::LoadSynthDef(_) => f is Unreadable || f is Unsent,
        ApplyStepView::Send(_, _) => f is Unsent,
    }
}

pub open spec fn failure_cause(f: StepFailure) -> Seq<char> {
    match f {
        StepFailure::Unreadable(e) => e@,
        StepFailure::Unsent(e) => e@,
        StepFailure::Unsynced(e) => e@,
    }
}

/// The synths (first) and groups (second) of the new plan created before
/// step `k`: those whose creation step comes before `k`, counted only once
/// their stage has started.
pub open spec fn created_before(prev: Option<ScResourcePlan>, plan: ScResourcePlan, k: int) -> (int, int) {
    let g0 = groups_start(prev, plan);
    let s0 = synths_start(prev, plan);
    if k < g0 {
        (0, 0)
    } else if k < s0 {
        (0, k - g0)
    } else {
        (k - s0, plan.groups@.len() as int)
    }
}

/// The message reported for failure `f` at step `k`.
pub open spec fn failure_text(prev: Option<ScResourcePlan>, plan: ScResourcePlan, k: int, f: StepFailure) -> Seq<char> {
    let u = unload_len(prev);
    let g0 = groups_start(prev, plan);
    let s0 = synths_start(prev, plan);
    let e = failure_cause(f);
    if f is Unsynced {
        e
    } else if k < u - 1 {
        let p = prev->Some_0;
        let ps = p.synths@.len() as int;
        if k < ps {
            "topology cleanup: failed to free synth for node "@ + p.synths@[ps - 1 - k].node_key@ + ": "@ + e
        } else {
            "topology cleanup: failed to free group "@ + p.groups@[p.groups@.len() - 1 - (k - ps)].group_key@
                + ": "@ + e
        }
    } else if k < g0 - 1 {
        let d = plan.synthdefs@[k - u];
        if f is Unreadable {
            "SynthDef load failure: failed to read bundled SynthDef resource `"@ + d.relative_path@ + "`: "@ + e
                + ". Reinstall Scrysynth or regenerate checked-in synthdefs before starting audio."@
        } else {
            "SynthDef load failure: failed to send SynthDef `"@ + d.name@ + "` to scsynth with /d_recv: "@ + e
        }
    } else if k < s0 - 1 {
        "Topology apply failure: failed to create SuperCollider group `"@ + plan.groups@[k - g0].group_key@
            + "`: "@ + e
    } else {
        "Topology apply failure: failed to create SuperCollider synth for node `"@ + plan.synths@[k - s0].node_key@
            + "`: "@ + e
    }
}

/// `a` aborts after failure `f` at step `k`: it frees what was created
/// before `k`, newest synth first and then the groups, reports the failure,
/// and keeps the previous patch exactly when the failure came while it was
/// being unloaded.
pub open spec fn aborts_as(prev: Option<ScResourcePlan>, plan: ScResourcePlan, k: int, f: StepFailure, a: ResourceApplyAction) -> bool {
    let (cs, cg) = created_before(prev, plan, k);
    match a {
        ResourceApplyAction::Abort { cleanup, message, keeps_previous } => {
            &&& message@ == failure_text(prev, plan, k, f)
            &&& keeps_previous == (k < unload_len(prev))
            &&& cleanup@.len() == cs + cg
            &&& forall|i: int|
                0 <= i < cleanup@.len() ==> is_command(
                    #[trigger] cleanup@[i],
                    "/n_free"@,
                    seq![OscArgView::Int(free_ids(plan, cs, cg)[i])],
                )
        },
        _ => false,
    }
}

/// One step of the state machine: after the step at `state.position` went
/// through, the next step (or `Finish` after the last); after it failed,
/// the abort.
pub open spec fn resource_apply_spec(
    prev: Option<ScResourcePlan>,
    plan: ScResourcePlan,
    state: ResourceApplyState,
    event: ResourceApplyEvent,
    r: (ResourceApplyState, ResourceApplyAction),
) -> bool {
    let k = state.position as int;
    match event {
        ResourceApplyEvent::Done => if k + 1 < apply_len(prev, plan) {
            r.0.position == k + 1 && is_step(r.1, apply_step_at(prev, plan, k + 1))
        } else {
            r.0 == state && r.1 is Finish
        },
        ResourceApplyEvent::Failed(f) => r.0 == state && aborts_as(prev, plan, k, f, r.1),
    }
}

/// Why the sync of `stage` failed: `/status` could not be sent (`unsent`),
/// or `/sync` was not confirmed; `err` is the failure's own text.
pub open spec fn sync_failure_text(stage: Seq<char>, unsent: bool, err: Seq<char>) -> Seq<char> {
    "Runtime server error during "@ + stage + (if unsent {
        ": failed to send /status to scsynth: "@
    } else {
        ": scsynth did not confirm OSC /sync: "@
    }) + err
}

/// The message for a failed sync of `stage`.
pub fn sync_failure(stage: &str, unsent: bool, err: &str) -> (r: String)
    ensures
        r@ == sync_failure_text(stage@, unsent, err@),
{
    let middle = if unsent {
        ": failed to send /status to scsynth: "
    } else {
        ": scsynth did not confirm OSC /sync: "
    };
    joined4("Runtime server error during ", stage, middle, err)
}

/// `a` stops at once with `message` and nothing to clean up.
pub open spec fn aborts_plainly(a: ResourceApplyAction, message: Seq<char>, keeps_previous: bool) -> bool {
    match a {
        ResourceApplyAction::Abort { cleanup, message: m, keeps_previous: k } => cleanup@.len() == 0 && m@ == message
            && k == keeps_previous,
        _ => false,
    }
}

/// What applying a plan reports when no engine connection is open: the
/// previous patch cannot be freed, or, with none, the plan cannot be sent.
pub open spec fn not_connected_text(prev: Option<ScResourcePlan>) -> Seq<char> {
    match prev {
        Some(_) => "topology cleanup: OSC client is not connected"@,
        None => "Audio runtime app state error during topology apply: OSC client is not connected."@,
    }
}

/// The lengths of a plan, widened so that their sums cannot overflow.
fn bounds(prev: &Option<ScResourcePlan>, plan: &ScResourcePlan) -> (r: (u128, u128, u128, u128))
    ensures
        r.0 == unload_len(*prev),
        r.1 == groups_start(*prev, *plan),
        r.2 == synths_start(*prev, *plan),
        r.3 == apply_len(*prev, *plan),
{
    let u: u128 = match prev {
        Some(p) => p.synths.len() as u128 + p.groups.len() as u128 + 1,
        None => 0,
    };
    let g0 = u + plan.synthdefs.len() as u128 + 1;
    let s0 = g0 + plan.groups.len() as u128 + 1;
    let n = s0 + plan.synths.len() as u128 + 1;
    (u, g0, s0, n)
}

/// The step at position `k`.
pub fn apply_step(prev: &Option<ScResourcePlan>, plan: &ScResourcePlan, k: usize) -> (r: ResourceApplyAction)
    requires
        k < apply_len(*prev, *plan),
    ensures
        is_step(r, apply_step_at(*prev, *plan, k as int)),
{
    let (u, g0, s0, n) = bounds(prev, plan);
    let kk = k as u128;
    if kk + 1 < u {
        let p = match prev {
            Some(p) => p,
            None => {
                assert(false);
                return ResourceApplyAction::Finish;
            },
        };
        let ps = p.synths.len();
        let id = if k < ps {
            p.synths[ps - 1 - k].node_id
        } else {
            p.groups[p.groups.len() - 1 - (k - ps)].node_id
        };
        assert(id == free_ids(*p, p.synths@.len() as int, p.groups@.len() as int)[k as int]);
        let args = vec![OscArg::Int(id)];
        assert(args_view(args@) =~= seq![OscArgView::Int(id)]);
        ResourceApplyAction::Send(OscCommand { address: "/n_free".to_owned(), args })
    } else if kk + 1 == u {
        ResourceApplyAction::Sync("topology unload previous patch".to_owned())
    } else if kk + 1 < g0 {
        ResourceApplyAction::LoadSynthDef((kk - u) as usize)
    } else if kk + 1 == g0 {
        ResourceApplyAction::Sync("topology load synthdefs".to_owned())
    } else if kk + 1 < s0 {
        ResourceApplyAction::Send(group_new(&plan.groups[(kk - g0) as usize]))
    } else if kk + 1 == s0 {
        ResourceApplyAction::Sync("topology load groups".to_owned())
    } else if kk + 1 < n {
        ResourceApplyAction::Send(synth_new(&plan.synths[(kk - s0) as usize]))
    } else {
        ResourceApplyAction::Sync("topology load synths".to_owned())
    }
}

/// The message for failure `f` at step `k`.
fn failure_message(prev: &Option<ScResourcePlan>, plan: &ScResourcePlan, k: usize, f: &StepFailure) -> (r: String)
    requires
        k < apply_len(*prev, *plan),
        failure_fits(*prev, *plan, k as int, *f),
    ensures
        r@ == failure_text(*prev, *plan, k as int, *f),
{
    let (u, g0, s0, _n) = bounds(prev, plan);
    let kk = k as u128;
    let e = match f {
        StepFailure::Unreadable(e) => e,
        StepFailure::Unsent(e) => e,
        StepFailure::Unsynced(e) => {
            return e.clone();
        },
    };
    if kk + 1 < u {
        let p = match prev {
            Some(p) => p,
            None => {
                assert(false);
                return e.clone();
            },
        };
        let ps = p.synths.len();
        if k < ps {
            joined4(
                "topology cleanup: failed to free synth for node ",
                p.synths[ps - 1 - k].node_key.as_str(),
                ": ",
                e.as_str(),
            )
        } else {
            joined4(
                "topology cleanup: failed to free group ",
                p.groups[p.groups.len() - 1 - (k - ps)].group_key.as_str(),
                ": ",
                e.as_str(),
            )
        }
    } else if kk + 1 < g0 {
        let d = &plan.synthdefs[(kk - u) as usize];
        match f {
            StepFailure::Unreadable(_) => joined5(
                "SynthDef load failure: failed to read bundled SynthDef resource `",
                d.relative_path,
                "`: ",
                e.as_str(),
                ". Reinstall Scrysynth or regenerate checked-in synthdefs before starting audio.",
            ),
            _ => joined4(
                "SynthDef load failure: failed to send SynthDef `",
                d.name,
                "` to scsynth with /d_recv: ",
                e.as_str(),
            ),
        }
    } else if kk + 1 < s0 {
        joined4(
            "Topology apply failure: failed to create SuperCollider group `",
            plan.groups[(kk - g0) as usize].group_key.as_str(),
            "`: ",
            e.as_str(),
        )
    } else {
        joined4(
            "Topology apply failure: failed to create SuperCollider synth for node `",
            plan.synths[(kk - s0) as usize].node_key.as_str(),
            "`: ",
            e.as_str(),
        )
    }
}

/// The first step.
pub fn resource_apply_begin(prev: &Option<ScResourcePlan>, plan: &ScResourcePlan, connected: bool) -> (r: (
    ResourceApplyState,
    ResourceApplyAction,
))
    ensures
        r.0.position == 0,
        !connected ==> aborts_plainly(r.1, not_connected_text(*prev), prev.is_some()),
        connected && apply_len(*prev, *plan) > usize::MAX ==> aborts_plainly(
            r.1,
            "Topology apply failure: resource plan is too large"@,
            prev.is_some(),
        ),
        connected && apply_len(*prev, *plan) <= usize::MAX ==> is_step(r.1, apply_step_at(*prev, *plan, 0)),
{
    let start = ResourceApplyState { position: 0 };
    if !connected {
        let message = match prev {
            Some(_) => "topology cleanup: OSC client is not connected".to_owned(),
            None => "Audio runtime app state error during topology apply: OSC client is not connected.".to_owned(),
        };
        return (start, ResourceApplyAction::Abort { cleanup: Vec::new(), message, keeps_previous: prev.is_some() });
    }
    let (_u, _g0, _s0, n) = bounds(prev, plan);
    if n > usize::MAX as u128 {
        return (
            start,
            ResourceApplyAction::Abort {
                cleanup: Vec::new(),
                message: "Topology apply failure: resource plan is too large".to_owned(),
                keeps_previous: prev.is_some(),
            },
        );
    }
    (start, apply_step(prev, plan, 0))
}

/// Advances the steps after the step under way went through or failed.
pub fn resource_apply_step(
    prev: &Option<ScResourcePlan>,
    plan: &ScResourcePlan,
    state: &ResourceApplyState,
    event: ResourceApplyEvent,
) -> (r: (ResourceApplyState, ResourceApplyAction))
    requires
        apply_len(*prev, *plan) <= usize::MAX,
        state.position < apply_len(*prev, *plan),
        event matches ResourceApplyEvent::Failed(f) ==> failure_fits(*prev, *plan, state.position as int, f),
    ensures
        resource_apply_spec(*prev, *plan, *state, event, r),
{
    let (_u, g0, s0, n) = bounds(prev, plan);
    let k = state.position;
    match event {
        ResourceApplyEvent::Done => {
            if (k as u128) + 1 < n {
                let next = k + 1;
                (ResourceApplyState { position: next }, apply_step(prev, plan, next))
            } else {
                (ResourceApplyState { position: k }, ResourceApplyAction::Finish)
            }
        },
        ResourceApplyEvent::Failed(f) => {
            let message = failure_message(prev, plan, k, &f);
            let kk = k as u128;
            let (cs, cg): (usize, usize) = if kk < g0 {
                (0, 0)
            } else if kk < s0 {
                (0, (kk - g0) as usize)
            } else {
                ((kk - s0) as usize, plan.groups.len())
            };
            let cleanup = free_commands(plan, cs, cg);
            let keeps_previous = kk < _u;
            (ResourceApplyState { position: k }, ResourceApplyAction::Abort { cleanup, message, keeps_previous })
        },
    }
}

/// The step creating synth `i` comes before step `k`.
pub open spec fn creates_synth_before(prev: Option<ScResourcePlan>, plan: ScResourcePlan, i: int, k: int) -> bool {
    synths_start(prev, plan) + i < k
}

/// The step creating group `i` comes before step `k`.
pub open spec fn creates_group_before(prev: Option<ScResourcePlan>, plan: ScResourcePlan, i: int, k: int) -> bool {
    groups_start(prev, plan) + i < k
}

/// The cleanup after a failure at step `k` frees exactly the new synths and
/// groups whose creation step came before `k`: synth `i` is freed exactly
/// when its creation preceded the failure, and so is group `i`.
pub proof fn lemma_cleanup_frees_created(prev: Option<ScResourcePlan>, plan: ScResourcePlan, k: int)
    requires
        0 <= k < apply_len(prev, plan),
    ensures
        ({
            let (cs, cg) = created_before(prev, plan, k);
            &&& 0 <= cs <= plan.synths@.len()
            &&& 0 <= cg <= plan.groups@.len()
            &&& forall|i: int|
                0 <= i < plan.synths@.len() ==> (#[trigger] creates_synth_before(prev, plan, i, k) <==> i < cs)
            &&& forall|i: int|
                0 <= i < plan.groups@.len() ==> (#[trigger] creates_group_before(prev, plan, i, k) <==> i < cg)
        }),
{
}

} // verus!

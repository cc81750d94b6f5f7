//! Routing live hardware input to its bindings: every binding whose source
//! matches the event applies its target with the event's value.
//!
//! Values are `f64` bit patterns. The floating-point steps are the caller's:
//! `transform(raw, t)` maps a raw value through a binding's transform (the
//! linear map from its input range onto its output range, clamped, or the
//! output minimum for an empty input range), and `scale(start, end, v)`
//! computes `start + v * (end - start)`.
use vstd::prelude::*;
use crate::domain::{
    BindingTarget, HardwareBinding, HardwareSource, MacroDefinition, Node, SessionDocument,
    TransportState, ValueTransform,
};
use crate::lookup::{contains_string, contains_text, find_by_id, find_id, has_id};
use crate::macros::{apply_audio_parameter, lemma_first_write_shape, target_missing, targets_first_writes};
use crate::params::{bounds_ordered, lemma_same_but_values_trans, lemma_values_keep_bounds, same_but_values, values_of};
use crate::domain::MacroTarget;

verus! {

/// Two hardware sources are the same control.
pub open spec fn same_source(a: HardwareSource, b: HardwareSource) -> bool {
    match (a, b) {
        (HardwareSource::MidiCc { channel: c1, controller: n1 }, HardwareSource::MidiCc { channel: c2, controller: n2 }) =>
            c1 == c2 && n1 == n2,
        (HardwareSource::MidiNote { channel: c1, note: n1 }, HardwareSource::MidiNote { channel: c2, note: n2 }) =>
            c1 == c2 && n1 == n2,
        (HardwareSource::MidiPitchBend { channel: c1 }, HardwareSource::MidiPitchBend { channel: c2 }) => c1 == c2,
        (HardwareSource::OscAddress { address: a1 }, HardwareSource::OscAddress { address: a2 }) => a1@ == a2@,
        _ => false,
    }
}

pub fn sources_match(a: &HardwareSource, b: &HardwareSource) -> (r: bool)
    ensures
        r == same_source(*a, *b),
{
    match (a, b) {
        (HardwareSource::MidiCc { channel: c1, controller: n1 }, HardwareSource::MidiCc { channel: c2, controller: n2 }) =>
            *c1 == *c2 && *n1 == *n2,
        (HardwareSource::MidiNote { channel: c1, note: n1 }, HardwareSource::MidiNote { channel: c2, note: n2 }) =>
            *c1 == *c2 && *n1 == *n2,
        (HardwareSource::MidiPitchBend { channel: c1 }, HardwareSource::MidiPitchBend { channel: c2 }) => *c1 == *c2,
        (HardwareSource::OscAddress { address: a1 }, HardwareSource::OscAddress { address: a2 }) => *a1 == *a2,
        _ => false,
    }
}

/// What applying binding target `target` with value `value` does to `s`:
/// a macro writes its scaled value to its audio targets (a missing
/// parameter is skipped); a scene recall enables exactly the scene's nodes;
/// play starts the transport; stop and panic stop it. Unknown macros and
/// scenes change nothing.
pub open spec fn target_effect<S: Fn(u64, u64, u64) -> u64>(
    s: SessionDocument,
    target: BindingTarget,
    value: u64,
    scale: S,
    t: SessionDocument,
) -> bool {
    match target {
        BindingTarget::Macro { macro_id } => if has_id(s.macros@, macro_id@) {
            let m = find_id(s.macros@, macro_id@);
            exists|v: u64|
                scale.ensures((m.range_start, m.range_end, value), v) && t == (SessionDocument { nodes: t.nodes, ..s })
                    && same_but_values(s.nodes@, t.nodes@) && values_of(t.nodes@) == targets_first_writes(
                    s.nodes@,
                    values_of(s.nodes@),
                    m.targets@,
                    v,
                )
        } else {
            t == s
        },
        BindingTarget::SceneRecall { scene_id } => if has_id(s.scenes@, scene_id@) {
            let sc = find_id(s.scenes@, scene_id@);
            &&& t == (SessionDocument { nodes: t.nodes, ..s })
            &&& t.nodes@.len() == s.nodes@.len()
            &&& forall|i: int|
                0 <= i < s.nodes@.len() ==> #[trigger] t.nodes@[i] == (Node {
                    enabled: contains_text(sc.active_node_ids@, s.nodes@[i].id@),
                    ..s.nodes@[i]
                })
        } else {
            t == s
        },
        BindingTarget::TransportPlay => t == (SessionDocument {
            transport: TransportState { is_playing: true, ..s.transport },
            ..s
        }),
        BindingTarget::TransportStop | BindingTarget::TransportPanic => t == (SessionDocument {
            transport: TransportState { is_playing: false, ..s.transport },
            ..s
        }),
    }
}

fn write_audio_targets(nodes: &mut Vec<Node>, targets: &Vec<MacroTarget>, v: u64)
    requires
        bounds_ordered(old(nodes)@),
    ensures
        same_but_values(old(nodes)@, final(nodes)@),
        bounds_ordered(final(nodes)@),
        values_of(final(nodes)@) == targets_first_writes(old(nodes)@, values_of(old(nodes)@), targets@, v),
{
    let ghost orig = nodes@;
    proof {
        assert forall|i: int| 0 <= i < orig.len() implies #[trigger] orig[i] == (Node {
            parameters: orig[i].parameters,
            ..orig[i]
        }) by {}
    }
    let mut k: usize = 0;
    while k < targets.len()
        invariant
            k <= targets@.len(),
            bounds_ordered(orig),
            same_but_values(orig, nodes@),
            bounds_ordered(nodes@),
            values_of(nodes@) == targets_first_writes(orig, values_of(orig), targets@.take(k as int), v),
        decreases targets.len() - k,
    {
        assert(targets@.take(k as int + 1).drop_last() =~= targets@.take(k as int));
        assert(targets@.take(k as int + 1).last() == targets@[k as int]);
        let ghost before = nodes@;
        match &targets[k] {
            MacroTarget::AudioParameter { node_id, parameter_id } => {
                proof {
                    lemma_first_write_shape(orig, before, values_of(before), node_id@, parameter_id@, v);
                }
                let r = apply_audio_parameter(nodes, node_id, parameter_id, v);
                proof {
                    if r is Ok {
                        lemma_same_but_values_trans(orig, before, nodes@);
                        lemma_values_keep_bounds(before, nodes@);
                    }
                }
            },
            MacroTarget::VisualParameter { .. } => {},
        }
        k = k + 1;
    }
    assert(targets@.take(k as int) =~= targets@);
}

/// Applies one binding target with value `value`.
pub fn apply_binding_target<S: Fn(u64, u64, u64) -> u64>(
    session: &mut SessionDocument,
    target: &BindingTarget,
    value: u64,
    scale: &S,
)
    requires
        bounds_ordered(old(session).nodes@),
        forall|a: u64, b: u64, c: u64| scale.requires((a, b, c)),
    ensures
        target_effect(*old(session), *target, value, *scale, *final(session)),
        bounds_ordered(final(session).nodes@),
{
    match target {
        BindingTarget::Macro { macro_id } => {
            match find_by_id(&session.macros, macro_id) {
                Some(i) => {
                    let start = session.macros[i].range_start;
                    let end = session.macros[i].range_end;
                    let v = scale(start, end, value);
                    let targets = session.macros[i].targets.clone();
                    assert(targets@ == find_id(old(session).macros@, macro_id@).targets@);
                    write_audio_targets(&mut session.nodes, &targets, v);
                },
                None => {},
            }
        },
        BindingTarget::SceneRecall { scene_id } => {
            match find_by_id(&session.scenes, scene_id) {
                Some(si) => {
                    let ids = session.scenes[si].active_node_ids.clone();
                    assert(ids@ == find_id(old(session).scenes@, scene_id@).active_node_ids@);
                    let ghost orig = session.nodes@;
                    let mut i: usize = 0;
                    while i < session.nodes.len()
                        invariant
                            i <= session.nodes@.len(),
                            session.nodes@.len() == orig.len(),
                            *session == (SessionDocument { nodes: session.nodes, ..*old(session) }),
                            orig == old(session).nodes@,
                            forall|q: int|
                                0 <= q < i ==> #[trigger] session.nodes@[q] == (Node {
                                    enabled: contains_text(ids@, orig[q].id@),
                                    ..orig[q]
                                }),
                            forall|q: int| i <= q < orig.len() ==> #[trigger] session.nodes@[q] == orig[q],
                        decreases session.nodes.len() - i,
                    {
                        let on = contains_string(&ids, &session.nodes[i].id);
                        session.nodes[i].enabled = on;
                        i = i + 1;
                    }
                    proof {
                        assert forall|q: int| 0 <= q < session.nodes@.len() implies crate::params::node_bounds_ordered(
                            #[trigger] session.nodes@[q],
                        ) by {
                            assert(crate::params::node_bounds_ordered(orig[q]));
                        }
                    }
                },
                None => {},
            }
        },
        BindingTarget::TransportPlay => {
            session.transport.is_playing = true;
        },
        BindingTarget::TransportStop | BindingTarget::TransportPanic => {
            session.transport.is_playing = false;
        },
    }
}

/// What binding `b` does to `a` for a live event from `source`: when its
/// source is the event's, it applies its target with the raw value mapped
/// through its transform; otherwise nothing.
pub open spec fn binding_step<T: Fn(u64, ValueTransform) -> u64, S: Fn(u64, u64, u64) -> u64>(
    a: SessionDocument,
    b: HardwareBinding,
    source: HardwareSource,
    raw: u64,
    transform: T,
    scale: S,
    c: SessionDocument,
) -> bool {
    if same_source(b.source, source) {
        exists|v: u64| #![trigger target_effect(a, b.target, v, scale, c)]
            transform.ensures((raw, b.transform), v) && target_effect(a, b.target, v, scale, c)
    } else {
        c == a
    }
}

/// What routing a live event did: the bindings applied one after the
/// other, `trace[k]` being the session before binding `k`.
pub open spec fn route_effect<T: Fn(u64, ValueTransform) -> u64, S: Fn(u64, u64, u64) -> u64>(
    s: SessionDocument,
    bindings: Seq<HardwareBinding>,
    source: HardwareSource,
    raw: u64,
    transform: T,
    scale: S,
    t: SessionDocument,
) -> bool {
    exists|trace: Seq<SessionDocument>|
        #![trigger trace.len(), trace[0]]
        trace.len() == bindings.len() + 1 && trace[0] == s && trace[bindings.len() as int] == t && forall|k: int|
            0 <= k < bindings.len() ==> binding_step(#[trigger] trace[k], bindings[k], source, raw, transform, scale, trace[k + 1])
}

/// Routes a live value from `source` to every matching binding, in binding
/// order.
pub fn route_live_event<T: Fn(u64, ValueTransform) -> u64, S: Fn(u64, u64, u64) -> u64>(
    session: &mut SessionDocument,
    source: &HardwareSource,
    raw: u64,
    transform: &T,
    scale: &S,
)
    requires
        bounds_ordered(old(session).nodes@),
        forall|a: u64, b: ValueTransform| transform.requires((a, b)),
        forall|a: u64, b: u64, c: u64| scale.requires((a, b, c)),
    ensures
        route_effect(*old(session), old(session).hardware_bindings@, *source, raw, *transform, *scale, *final(session)),
        bounds_ordered(final(session).nodes@),
{
    let bindings = session.hardware_bindings.clone();
    let ghost bs = old(session).hardware_bindings@;
    assert(bindings@ == bs);
    let ghost mut trace: Seq<SessionDocument> = seq![*old(session)];
    let mut k: usize = 0;
    while k < bindings.len()
        invariant
            k <= bindings@.len(),
            bindings@ == bs,
            bounds_ordered(session.nodes@),
            forall|a: u64, b: ValueTransform| transform.requires((a, b)),
            forall|a: u64, b: u64, c: u64| scale.requires((a, b, c)),
            trace.len() == k + 1,
            trace[0] == *old(session),
            trace[k as int] == *session,
            forall|q: int| 0 <= q < k ==> binding_step(#[trigger] trace[q], bs[q], *source, raw, *transform, *scale, trace[q + 1]),
        decreases bindings.len() - k,
    {
        let ghost mid = *session;
        let b = &bindings[k];
        if sources_match(&b.source, source) {
            let v = transform(raw, b.transform);
            apply_binding_target(session, &b.target, v, scale);
            assert(target_effect(mid, b.target, v, *scale, *session));
        }
        proof {
            let nt = trace.push(*session);
            assert(binding_step(mid, bs[k as int], *source, raw, *transform, *scale, *session));
            assert forall|q: int| 0 <= q < k + 1 implies binding_step(#[trigger] nt[q], bs[q], *source, raw, *transform, *scale, nt[q + 1]) by {
                if q < k {
                    assert(nt[q] == trace[q] && nt[q + 1] == trace[q + 1]);
                }
            }
            trace = nt;
        }
        k = k + 1;
    }
    assert(trace.len() == bs.len() + 1 && trace[0] == *old(session));
}

} // verus!

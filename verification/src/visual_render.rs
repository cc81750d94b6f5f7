//! The rendering visual runtime's protocol side: how it answers the app,
//! which parameter values it keeps, and what it asks its renderer to do.
//!
//! It answers as the minimal runtime does, except that it announces itself
//! as a rendering runtime, and that a shutdown also drops the scene. Each
//! message yields a render action: rebuild the scene's sprites, restyle the
//! elements of the updates that applied, or clear everything and exit.
use vstd::prelude::*;
use crate::visual::{
    apply_updates, mismatch_text, scene_values, AppToVisualMessage, AppToVisualPayload,
    MinimalVisualRuntime, ParameterKey, VisualParameterBatchApplied, VisualParameterPatch,
    VisualPong, VisualProtocolErrorCode, VisualReady, VisualRuntimeEvent,
    VisualRuntimeEventLevel, VisualSceneLoaded, VisualShutdownComplete, VisualToAppMessage,
    VisualToAppPayload, VISUAL_PROTOCOL_VERSION,
};

verus! {

/// The renderer name the rendering runtime announces.
pub open spec fn rendering_renderer() -> Seq<char> {
    "scrysynth-bevy-visual"@
}

/// The capabilities the rendering runtime announces.
pub open spec fn rendering_capabilities() -> Seq<Seq<char>> {
    seq!["scene_load"@, "parameter_batch"@, "rendering_status"@, "shutdown"@]
}

/// What the renderer is to do after a message.
#[derive(Debug, PartialEq)]
pub enum RenderAction {
    /// Nothing to draw differently.
    Keep,
    /// Replace every sprite by those of the scene just loaded.
    RebuildScene,
    /// Restyle the elements named by these updates of the batch (their
    /// positions in it, in order).
    ApplyUpdates(Vec<usize>),
    /// Remove every sprite and end the process.
    ClearAndExit,
}

/// The positions of the updates that apply: those naming a parameter the
/// loaded scene has (updates never add parameters, so this is decided by
/// the values before the batch).
pub open spec fn applied_positions(m: Map<ParameterKey, u64>, updates: Seq<VisualParameterPatch>) -> Seq<
    usize,
>
    decreases updates.len(),
{
    if updates.len() == 0 {
        seq![]
    } else {
        let prev = applied_positions(m, updates.drop_last());
        let u = updates.last();
        if m.contains_key((u.element_id@, u.parameter_id@)) {
            prev.push((updates.len() - 1) as usize)
        } else {
            prev
        }
    }
}

/// The rendering runtime's protocol state.
pub struct RenderedSceneState {
    core: MinimalVisualRuntime,
}

impl RenderedSceneState {
    pub closed spec fn inv(&self) -> bool {
        self.core.inv()
    }

    /// The current parameter values.
    pub closed spec fn values(&self) -> Map<ParameterKey, u64> {
        self.core.values()
    }

    /// The id of the loaded scene, if any.
    pub closed spec fn scene_id(&self) -> Option<Seq<char>> {
        self.core.scene_id()
    }

    /// A runtime with no scene.
    pub fn new() -> (r: Self)
        ensures
            r.inv(),
            r.values() == Map::<ParameterKey, u64>::empty(),
            r.scene_id() is None,
    {
        RenderedSceneState { core: MinimalVisualRuntime::new() }
    }

    /// The current value of a parameter, if the loaded scene has it.
    pub fn parameter_value(&self, element_id: &String, parameter_id: &String) -> (r: Option<u64>)
        requires
            self.inv(),
        ensures
            match r {
                Some(v) => self.values().contains_key((element_id@, parameter_id@)) && self.values()[(
                    element_id@,
                    parameter_id@,
                )] == v,
                None => !self.values().contains_key((element_id@, parameter_id@)),
            },
    {
        self.core.parameter_value(element_id, parameter_id)
    }

    fn applied(&self, updates: &Vec<VisualParameterPatch>) -> (r: Vec<usize>)
        requires
            self.inv(),
        ensures
            r@ == applied_positions(self.values(), updates@),
    {
        let mut r: Vec<usize> = Vec::new();
        let mut i: usize = 0;
        while i < updates.len()
            invariant
                i <= updates@.len(),
                self.inv(),
                r@ == applied_positions(self.values(), updates@.take(i as int)),
            decreases updates.len() - i,
        {
            let u = &updates[i];
            assert(updates@.take(i as int + 1).drop_last() =~= updates@.take(i as int));
            assert(updates@.take(i as int + 1).last() == *u);
            if self.core.parameter_value(&u.element_id, &u.parameter_id).is_some() {
                r.push(i);
            }
            i = i + 1;
        }
        assert(updates@.take(i as int) =~= updates@);
        r
    }

    /// Answers one message from the app and says what to render.
    pub fn handle_protocol_message(&mut self, message: AppToVisualMessage) -> (r: (
        Vec<VisualToAppMessage>,
        RenderAction,
    ))
        requires
            old(self).inv(),
            message.protocol_version == VISUAL_PROTOCOL_VERSION ==> (message.payload matches AppToVisualPayload::UpdateParameters(
                batch,
            ) ==> batch.updates@.len() <= u32::MAX),
        ensures
            final(self).inv(),
            message.protocol_version != VISUAL_PROTOCOL_VERSION ==> {
                &&& r.0@.len() == 1
                &&& r.0@[0].protocol_version == VISUAL_PROTOCOL_VERSION
                &&& r.0@[0].sequence_id == Some(message.sequence_id)
                &&& match r.0@[0].payload {
                    VisualToAppPayload::Error(e) => e.code == VisualProtocolErrorCode::ProtocolMismatch
                        && e.message@ == mismatch_text(message.protocol_version) && e.recoverable == Some(
                        false,
                    ),
                    _ => false,
                }
                &&& r.1 == RenderAction::Keep
                &&& final(self).values() == old(self).values()
                &&& final(self).scene_id() == old(self).scene_id()
            },
            message.protocol_version == VISUAL_PROTOCOL_VERSION ==> {
                &&& forall|k: int|
                    0 <= k < r.0@.len() ==> (#[trigger] r.0@[k]).protocol_version
                        == VISUAL_PROTOCOL_VERSION
                &&& r.0@.len() >= 1
                &&& r.0@[0].sequence_id == Some(message.sequence_id)
                &&& match message.payload {
                    AppToVisualPayload::Handshake(_) => {
                        &&& r.0@.len() == 2
                        &&& match r.0@[0].payload {
                            VisualToAppPayload::Ready(ready) => ready.renderer@ == rendering_renderer()
                                && ready.sidecar_version@ == "0.1.0"@
                                && ready.capabilities@.map_values(|c: String| c@)
                                == rendering_capabilities(),
                            _ => false,
                        }
                        &&& r.0@[1].sequence_id is None
                        &&& match r.0@[1].payload {
                            VisualToAppPayload::RuntimeEvent(e) => e.level == VisualRuntimeEventLevel::Info
                                && e.message@ == "bevy visual runtime ready and rendering window active"@
                                && match e.scene_id {
                                Some(id) => old(self).scene_id() == Some(id@),
                                None => old(self).scene_id() is None,
                            },
                            _ => false,
                        }
                        &&& r.1 == RenderAction::Keep
                        &&& final(self).values() == old(self).values()
                        &&& final(self).scene_id() == old(self).scene_id()
                    },
                    AppToVisualPayload::LoadScene(load) => {
                        &&& r.0@.len() == 1
                        &&& r.0@[0].payload == VisualToAppPayload::SceneLoaded(
                            VisualSceneLoaded { scene_id: load.scene.scene_id },
                        )
                        &&& r.1 == RenderAction::RebuildScene
                        &&& final(self).values() == scene_values(load.scene.elements@)
                        &&& final(self).scene_id() == Some(load.scene.scene_id@)
                    },
                    AppToVisualPayload::UpdateParameters(batch) => {
                        let (m, n) = apply_updates(old(self).values(), batch.updates@);
                        &&& r.0@.len() == 1
                        &&& r.0@[0].payload == VisualToAppPayload::ParameterBatchApplied(
                            VisualParameterBatchApplied { applied_count: n as u32 },
                        )
                        &&& r.1 matches RenderAction::ApplyUpdates(ps) && ps@ == applied_positions(
                            old(self).values(),
                            batch.updates@,
                        )
                        &&& final(self).values() == m
                        &&& final(self).scene_id() == old(self).scene_id()
                    },
                    AppToVisualPayload::Ping(ping) => {
                        &&& r.0@.len() == 1
                        &&& r.0@[0].payload == VisualToAppPayload::Pong(
                            VisualPong { sent_at_unix_ms: ping.sent_at_unix_ms },
                        )
                        &&& r.1 == RenderAction::Keep
                        &&& final(self).values() == old(self).values()
                        &&& final(self).scene_id() == old(self).scene_id()
                    },
                    AppToVisualPayload::Shutdown(shutdown) => {
                        &&& r.0@.len() == 1
                        &&& r.0@[0].payload == VisualToAppPayload::ShutdownComplete(
                            VisualShutdownComplete { mode: shutdown.mode },
                        )
                        &&& r.1 == RenderAction::ClearAndExit
                        &&& final(self).values() == Map::<ParameterKey, u64>::empty()
                        &&& final(self).scene_id() is None
                    },
                }
            },
    {
        if message.protocol_version != VISUAL_PROTOCOL_VERSION {
            let out = self.core.handle_message(message);
            return (out, RenderAction::Keep);
        }
        match message.payload {
            AppToVisualPayload::Handshake(_) => {
                let mut caps: Vec<String> = Vec::new();
                caps.push("scene_load".to_owned());
                caps.push("parameter_batch".to_owned());
                caps.push("rendering_status".to_owned());
                caps.push("shutdown".to_owned());
                assert(caps@.map_values(|c: String| c@) =~= rendering_capabilities());
                let mut out: Vec<VisualToAppMessage> = Vec::new();
                out.push(
                    VisualToAppMessage::response(
                        message.sequence_id,
                        VisualToAppPayload::Ready(
                            VisualReady {
                                renderer: "scrysynth-bevy-visual".to_owned(),
                                sidecar_version: "0.1.0".to_owned(),
                                capabilities: caps,
                            },
                        ),
                    ),
                );
                let scene_id = self.core.loaded_scene_id();
                out.push(
                    VisualToAppMessage::event(
                        VisualToAppPayload::RuntimeEvent(
                            VisualRuntimeEvent {
                                level: VisualRuntimeEventLevel::Info,
                                message: "bevy visual runtime ready and rendering window active".to_owned(),
                                scene_id,
                            },
                        ),
                    ),
                );
                (out, RenderAction::Keep)
            },
            AppToVisualPayload::LoadScene(load) => {
                let m = AppToVisualMessage {
                    protocol_version: message.protocol_version,
                    sequence_id: message.sequence_id,
                    payload: AppToVisualPayload::LoadScene(load),
                };
                let out = self.core.handle_message(m);
                (out, RenderAction::RebuildScene)
            },
            AppToVisualPayload::UpdateParameters(batch) => {
                let positions = self.applied(&batch.updates);
                let m = AppToVisualMessage {
                    protocol_version: message.protocol_version,
                    sequence_id: message.sequence_id,
                    payload: AppToVisualPayload::UpdateParameters(batch),
                };
                let out = self.core.handle_message(m);
                (out, RenderAction::ApplyUpdates(positions))
            },
            AppToVisualPayload::Ping(ping) => {
                let m = AppToVisualMessage {
                    protocol_version: message.protocol_version,
                    sequence_id: message.sequence_id,
                    payload: AppToVisualPayload::Ping(ping),
                };
                let out = self.core.handle_message(m);
                (out, RenderAction::Keep)
            },
            AppToVisualPayload::Shutdown(shutdown) => {
                let m = AppToVisualMessage {
                    protocol_version: message.protocol_version,
                    sequence_id: message.sequence_id,
                    payload: AppToVisualPayload::Shutdown(shutdown),
                };
                let out = self.core.handle_message(m);
                self.core.clear_scene();
                (out, RenderAction::ClearAndExit)
            },
        }
    }
}

/// How a parameter restyles its element.
#[derive(Clone, Copy, Debug, PartialEq, Eq, Structural)]
pub enum ParameterStyle {
    /// Level-like parameters grow the sprite and make it more opaque.
    ScaleAndAlpha,
    /// Frequency-like parameters shift its colour.
    Hue,
    /// Any other parameter changes its opacity.
    Alpha,
}

/// The style a parameter id drives.
pub open spec fn spec_parameter_style(parameter_id: Seq<char>) -> ParameterStyle {
    if parameter_id == "gain"@ || parameter_id == "level"@ || parameter_id == "energy"@
        || parameter_id == "amount"@ {
        ParameterStyle::ScaleAndAlpha
    } else if parameter_id == "frequency"@ || parameter_id == "cutoff"@ || parameter_id == "rate"@ {
        ParameterStyle::Hue
    } else {
        ParameterStyle::Alpha
    }
}

fn text_is(a: &str, b: &str) -> (r: bool)
    ensures
        r == (a@ == b@),
{
    let x = crate::text::chars_of(a);
    let y = crate::text::chars_of(b);
    if x.len() != y.len() {
        return false;
    }
    let mut i: usize = 0;
    while i < x.len()
        invariant
            i <= x@.len(),
            x@ == a@,
            y@ == b@,
            x@.len() == y@.len(),
            forall|k: int| 0 <= k < i ==> x@[k] == y@[k],
        decreases x.len() - i,
    {
        if x[i] != y[i] {
            return false;
        }
        i = i + 1;
    }
    assert(x@ =~= y@);
    true
}

/// The style a parameter id drives.
pub fn parameter_style(parameter_id: &str) -> (r: ParameterStyle)
    ensures
        r == spec_parameter_style(parameter_id@),
{
    if text_is(parameter_id, "gain") || text_is(parameter_id, "level") || text_is(parameter_id, "energy")
        || text_is(parameter_id, "amount") {
        ParameterStyle::ScaleAndAlpha
    } else if text_is(parameter_id, "frequency") || text_is(parameter_id, "cutoff") || text_is(
        parameter_id,
        "rate",
    ) {
        ParameterStyle::Hue
    } else {
        ParameterStyle::Alpha
    }
}

/// The palette an element type is drawn with.
#[derive(Clone, Copy, Debug, PartialEq, Eq, Structural)]
pub enum ElementPalette {
    Sphere,
    Box,
    Ring,
    Plane,
    Neutral,
}

/// The palette of an element type; unknown types are drawn neutral.
pub open spec fn spec_element_palette(element_type: Seq<char>) -> ElementPalette {
    if element_type == "sphere"@ {
        ElementPalette::Sphere
    } else if element_type == "box"@ {
        ElementPalette::Box
    } else if element_type == "ring"@ {
        ElementPalette::Ring
    } else if element_type == "plane"@ {
        ElementPalette::Plane
    } else {
        ElementPalette::Neutral
    }
}

/// The palette of an element type.
pub fn element_palette(element_type: &str) -> (r: ElementPalette)
    ensures
        r == spec_element_palette(element_type@),
{
    if text_is(element_type, "sphere") {
        ElementPalette::Sphere
    } else if text_is(element_type, "box") {
        ElementPalette::Box
    } else if text_is(element_type, "ring") {
        ElementPalette::Ring
    } else if text_is(element_type, "plane") {
        ElementPalette::Plane
    } else {
        ElementPalette::Neutral
    }
}

} // verus!

//! The app side of the visual runtime process: what each acknowledgement
//! means for the adapter, and the texts of its failures.
//!
//! The adapter sends a message and waits for the reply with the same
//! sequence id; it hands that reply (or why none came) to these functions.
//! `describe` writes an unexpected payload as text (its `Debug` form).
use vstd::prelude::*;
use crate::runtime::VisualAdapterStatus;
use crate::visual::{VisualProtocolError, VisualProtocolErrorCode, VisualToAppPayload};

verus! {

/// The environment variable that names a visual runtime binary.
pub open spec fn override_env() -> Seq<char> {
    "SCRYSYNTH_BEVY_PATH"@
}

/// The name of an error code, as its `Debug` form writes it.
pub open spec fn code_name(c: VisualProtocolErrorCode) -> Seq<char> {
    match c {
        VisualProtocolErrorCode::ProtocolMismatch => "ProtocolMismatch"@,
        VisualProtocolErrorCode::InvalidMessage => "InvalidMessage"@,
        VisualProtocolErrorCode::SceneRejected => "SceneRejected"@,
        VisualProtocolErrorCode::ParameterRejected => "ParameterRejected"@,
        VisualProtocolErrorCode::RendererUnavailable => "RendererUnavailable"@,
        VisualProtocolErrorCode::InternalError => "InternalError"@,
    }
}

fn code_text(c: VisualProtocolErrorCode) -> (r: &'static str)
    ensures
        r@ == code_name(c),
{
    match c {
        VisualProtocolErrorCode::ProtocolMismatch => "ProtocolMismatch",
        VisualProtocolErrorCode::InvalidMessage => "InvalidMessage",
        VisualProtocolErrorCode::SceneRejected => "SceneRejected",
        VisualProtocolErrorCode::ParameterRejected => "ParameterRejected",
        VisualProtocolErrorCode::RendererUnavailable => "RendererUnavailable",
        VisualProtocolErrorCode::InternalError => "InternalError",
    }
}

/// A protocol error reported by the runtime, prefixed by what failed.
pub fn protocol_error_message(context: &str, error: &VisualProtocolError) -> (r: String)
    ensures
        r@ == context@ + ": "@ + code_name(error.code) + ": "@ + error.message@,
{
    let mut s = context.to_owned();
    s.append(": ");
    s.append(code_text(error.code));
    s.append(": ");
    s.append(error.message.as_str());
    s
}

/// The runtime binary is missing on a development path (`path` is where
/// it was looked for, when known).
pub fn missing_sidecar_message_dev(path: Option<&str>) -> (r: String)
    ensures
        r@ == match path {
            Some(p) => "visual runtime binary not found at "@ + p@
                + "; build scrysynth-visual or set the SCRYSYNTH_BEVY_PATH environment variable to a built binary."@,
            None =>
                "visual runtime binary not found; build scrysynth-visual or set the SCRYSYNTH_BEVY_PATH environment variable to a built binary."@,
        },
{
    match path {
        Some(p) => {
            let mut s = "visual runtime binary not found at ".to_owned();
            s.append(p);
            s.append(
                "; build scrysynth-visual or set the SCRYSYNTH_BEVY_PATH environment variable to a built binary.",
            );
            s
        },
        None =>
            "visual runtime binary not found; build scrysynth-visual or set the SCRYSYNTH_BEVY_PATH environment variable to a built binary.".to_owned(),
    }
}

/// The bundled runtime could not be launched (`detail` says why).
pub fn missing_sidecar_message_bundled(detail: &str) -> (r: String)
    ensures
        r@ == "The bundled visual sidecar (scrysynth-visual) could not be launched: "@ + detail@
            + ". Reinstall Scrysynth to restore it. (Developers running outside a packaged build can instead set SCRYSYNTH_BEVY_PATH to a built scrysynth-visual binary.)"@,
{
    let mut s = "The bundled visual sidecar (scrysynth-visual) could not be launched: ".to_owned();
    s.append(detail);
    s.append(
        ". Reinstall Scrysynth to restore it. (Developers running outside a packaged build can instead set SCRYSYNTH_BEVY_PATH to a built scrysynth-visual binary.)",
    );
    s
}

/// `describe` gives the text of a payload.
pub open spec fn describes<D: Fn(&VisualToAppPayload) -> String>(
    describe: D,
    p: VisualToAppPayload,
    text: Seq<char>,
) -> bool {
    exists|t: String| t@ == text && #[trigger] describe.ensures((&p,), t)
}

/// What a handshake reply means: the runtime is up under the renderer it
/// names; otherwise the handshake failed and the runtime is dropped (the
/// second component says whether to drop it).
pub fn handshake_outcome<D: Fn(&VisualToAppPayload) -> String>(
    reply: Result<VisualToAppPayload, String>,
    describe: &D,
) -> (r: (VisualAdapterStatus, bool))
    requires
        forall|p: &VisualToAppPayload| describe.requires((p,)),
    ensures
        match reply {
            Ok(VisualToAppPayload::Ready(ready)) => r == (
            VisualAdapterStatus::Booted { renderer: ready.renderer },
            false,
            ),
            Ok(VisualToAppPayload::Error(e)) => r.1 && (r.0 matches VisualAdapterStatus::Failed {
                message,
            } && message@ == "visual runtime handshake failed"@ + ": "@ + code_name(e.code) + ": "@
                + e.message@),
            Ok(p) => r.1 && (r.0 matches VisualAdapterStatus::Failed { message } && describes(
                *describe,
                p,
                message@.skip(53),
            ) && message@.take(53) == "visual runtime handshake returned unexpected payload "@),
            Err(m) => r == (VisualAdapterStatus::Failed { message: m }, true),
        },
{
    match reply {
        Ok(VisualToAppPayload::Ready(ready)) => (
            VisualAdapterStatus::Booted { renderer: ready.renderer },
            false,
        ),
        Ok(VisualToAppPayload::Error(e)) => (
            VisualAdapterStatus::Failed {
                message: protocol_error_message("visual runtime handshake failed", &e),
            },
            true,
        ),
        Ok(p) => {
            let text = describe(&p);
            let mut message = "visual runtime handshake returned unexpected payload ".to_owned();
            proof {
                reveal_strlit("visual runtime handshake returned unexpected payload ");
            }
            message.append(text.as_str());
            assert(message@.skip(53) =~= text@);
            (VisualAdapterStatus::Failed { message }, true)
        },
        Err(m) => (VisualAdapterStatus::Failed { message: m }, true),
    }
}

/// What a scene-load reply means: the scene is active (`rendering` says
/// whether the runtime draws); otherwise the load failed.
pub fn scene_load_outcome<D: Fn(&VisualToAppPayload) -> String>(
    reply: Result<VisualToAppPayload, String>,
    rendering: bool,
    describe: &D,
) -> (r: VisualAdapterStatus)
    requires
        forall|p: &VisualToAppPayload| describe.requires((p,)),
    ensures
        match reply {
            Ok(VisualToAppPayload::SceneLoaded(loaded)) => r == VisualAdapterStatus::SceneLoaded {
                scene_id: loaded.scene_id,
                rendering,
            },
            Ok(VisualToAppPayload::Error(e)) => r matches VisualAdapterStatus::Failed { message }
                && message@ == "visual scene load failed"@ + ": "@ + code_name(e.code) + ": "@
                + e.message@,
            Ok(p) => r matches VisualAdapterStatus::Failed { message } && describes(
                *describe,
                p,
                message@.skip(46),
            ) && message@.take(46) == "visual scene load returned unexpected payload "@,
            Err(m) => r == VisualAdapterStatus::Failed { message: m },
        },
{
    match reply {
        Ok(VisualToAppPayload::SceneLoaded(loaded)) => VisualAdapterStatus::SceneLoaded {
            scene_id: loaded.scene_id,
            rendering,
        },
        Ok(VisualToAppPayload::Error(e)) => VisualAdapterStatus::Failed {
            message: protocol_error_message("visual scene load failed", &e),
        },
        Ok(p) => {
            let text = describe(&p);
            let mut message = "visual scene load returned unexpected payload ".to_owned();
            proof {
                reveal_strlit("visual scene load returned unexpected payload ");
            }
            message.append(text.as_str());
            assert(message@.skip(46) =~= text@);
            VisualAdapterStatus::Failed { message }
        },
        Err(m) => VisualAdapterStatus::Failed { message: m },
    }
}

/// The refusal of a parameter update sent before any scene was loaded.
pub open spec fn no_scene_text() -> Seq<char> {
    "cannot update visual parameters before a scene has been loaded"@
}

/// Whether a parameter batch may be sent: only once a scene is loaded.
pub fn check_scene_loaded(active_scene_id: &Option<String>) -> (r: Result<(), String>)
    ensures
        active_scene_id is Some <==> r is Ok,
        r matches Err(m) ==> m@ == no_scene_text(),
{
    match active_scene_id {
        Some(_) => Ok(()),
        None => Err("cannot update visual parameters before a scene has been loaded".to_owned()),
    }
}

/// What a parameter-batch reply means: success only when every requested
/// patch was applied.
pub fn parameter_batch_outcome<D: Fn(&VisualToAppPayload) -> String>(
    requested: u32,
    reply: Result<VisualToAppPayload, String>,
    describe: &D,
) -> (r: Result<(), String>)
    requires
        forall|p: &VisualToAppPayload| describe.requires((p,)),
    ensures
        match reply {
            Ok(VisualToAppPayload::ParameterBatchApplied(applied)) => if applied.applied_count
                == requested {
                r is Ok
            } else {
                r matches Err(m) && m@ == "visual parameter update applied "@ + crate::text::spec_decimal(
                    applied.applied_count as nat,
                ) + " of "@ + crate::text::spec_decimal(requested as nat) + " requested patches"@
            },
            Ok(VisualToAppPayload::Error(e)) => r matches Err(m) && m@
                == "visual parameter update failed"@ + ": "@ + code_name(e.code) + ": "@ + e.message@,
            Ok(p) => r matches Err(m) && describes(*describe, p, m@.skip(52)) && m@.take(52)
                == "visual parameter update returned unexpected payload "@,
            Err(m) => r == Err::<(), String>(m),
        },
{
    match reply {
        Ok(VisualToAppPayload::ParameterBatchApplied(applied)) => {
            if applied.applied_count == requested {
                Ok(())
            } else {
                let mut m = "visual parameter update applied ".to_owned();
                let a = crate::text::decimal_string(applied.applied_count as usize);
                m.append(a.as_str());
                m.append(" of ");
                let q = crate::text::decimal_string(requested as usize);
                m.append(q.as_str());
                m.append(" requested patches");
                Err(m)
            }
        },
        Ok(VisualToAppPayload::Error(e)) => Err(
            protocol_error_message("visual parameter update failed", &e),
        ),
        Ok(p) => {
            let text = describe(&p);
            let mut m = "visual parameter update returned unexpected payload ".to_owned();
            proof {
                reveal_strlit("visual parameter update returned unexpected payload ");
            }
            m.append(text.as_str());
            assert(m@.skip(52) =~= text@);
            Err(m)
        },
        Err(m) => Err(m),
    }
}

} // verus!

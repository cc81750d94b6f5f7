use scrysynth::runtime::VisualAdapterStatus;
use scrysynth::sc_commands::missing_scsynth_message;
use scrysynth::visual::{
    VisualParameterBatchApplied, VisualPong, VisualProtocolError, VisualProtocolErrorCode,
    VisualReady, VisualSceneLoaded, VisualToAppPayload,
};
use scrysynth::visual_adapter::{
    check_scene_loaded, handshake_outcome, missing_sidecar_message_bundled,
    missing_sidecar_message_dev, parameter_batch_outcome, protocol_error_message,
    scene_load_outcome,
};

fn describe(p: &VisualToAppPayload) -> String {
    format!("{p:?}")
}

fn failure() -> VisualToAppPayload {
    VisualToAppPayload::Error(VisualProtocolError {
        code: VisualProtocolErrorCode::RendererUnavailable,
        message: "no renderer".to_string(),
        recoverable: Some(false),
    })
}

#[test]
fn adapter_reports_failure_acknowledgement() {
    let (status, clear) = handshake_outcome(Ok(failure()), &describe);
    assert!(clear);
    match status {
        VisualAdapterStatus::Failed { message } => {
            assert!(message.contains("visual runtime handshake failed"), "{message}");
            assert_eq!(message, "visual runtime handshake failed: RendererUnavailable: no renderer");
        }
        other => panic!("{other:?}"),
    }
}

#[test]
fn handshake_ready_boots_with_renderer() {
    let ready = VisualToAppPayload::Ready(VisualReady {
        renderer: "scrysynth-minimal-visual".to_string(),
        sidecar_version: "0.1.0".to_string(),
        capabilities: vec![],
    });
    let (status, clear) = handshake_outcome(Ok(ready), &describe);
    assert!(!clear);
    assert_eq!(status, VisualAdapterStatus::Booted { renderer: "scrysynth-minimal-visual".to_string() });
    let (status, clear) = handshake_outcome(Err("timed out waiting".to_string()), &describe);
    assert!(clear);
    assert_eq!(status, VisualAdapterStatus::Failed { message: "timed out waiting".to_string() });
}

#[test]
fn unexpected_payloads_are_described() {
    let pong = VisualToAppPayload::Pong(VisualPong { sent_at_unix_ms: 5 });
    match scene_load_outcome(Ok(pong), true, &describe) {
        VisualAdapterStatus::Failed { message } => {
            assert_eq!(message, "visual scene load returned unexpected payload Pong(VisualPong { sent_at_unix_ms: 5 })")
        }
        other => panic!("{other:?}"),
    }
}

#[test]
fn scene_load_reports_scene_and_rendering() {
    let loaded = VisualToAppPayload::SceneLoaded(VisualSceneLoaded { scene_id: "scene-1".to_string() });
    assert_eq!(
        scene_load_outcome(Ok(loaded), false, &describe),
        VisualAdapterStatus::SceneLoaded { scene_id: "scene-1".to_string(), rendering: false }
    );
}

#[test]
fn adapter_fails_parameter_update_without_loaded_scene() {
    let error = check_scene_loaded(&None).unwrap_err();
    assert!(error.contains("before a scene has been loaded"));
    assert_eq!(check_scene_loaded(&Some("scene-1".to_string())), Ok(()));
}

#[test]
fn adapter_rejects_unapplied_parameter_updates() {
    let reply = VisualToAppPayload::ParameterBatchApplied(VisualParameterBatchApplied { applied_count: 0 });
    let error = parameter_batch_outcome(1, Ok(reply), &describe).unwrap_err();
    assert!(error.contains("applied 0 of 1 requested patches"), "{error}");
    let reply = VisualToAppPayload::ParameterBatchApplied(VisualParameterBatchApplied { applied_count: 2 });
    assert_eq!(parameter_batch_outcome(2, Ok(reply), &describe), Ok(()));
    let error = parameter_batch_outcome(2, Ok(failure()), &describe).unwrap_err();
    assert_eq!(error, "visual parameter update failed: RendererUnavailable: no renderer");
}

#[test]
fn missing_runtime_messages_give_setup_guidance() {
    let dev = missing_sidecar_message_dev(Some("/opt/missing-scrysynth-visual-for-test"));
    assert!(dev.contains("visual runtime binary not found"));
    assert!(dev.contains("SCRYSYNTH_BEVY_PATH"));
    assert!(dev.contains("scrysynth-visual"));
    assert!(missing_sidecar_message_dev(None).starts_with("visual runtime binary not found;"));
    assert!(missing_sidecar_message_bundled("denied").contains("could not be launched: denied."));
    assert!(missing_scsynth_message().starts_with("scsynth not found."));
    let e = VisualProtocolError {
        code: VisualProtocolErrorCode::ProtocolMismatch,
        message: "v2".to_string(),
        recoverable: None,
    };
    assert_eq!(protocol_error_message("ctx", &e), "ctx: ProtocolMismatch: v2");
}

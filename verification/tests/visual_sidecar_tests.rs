use scrysynth::visual::{
    AppToVisualMessage, AppToVisualPayload, MinimalVisualRuntime, VisualHandshake,
    VisualParameterPatch, VisualParameterUpdateBatch, VisualSceneElement, VisualSceneLoad,
    VisualSceneParameter, VisualSceneSnapshot, VisualShutdown, VisualShutdownMode,
    VisualToAppPayload,
};

const SIDECAR_RENDERER: &str = "scrysynth-minimal-visual";

fn f32_bits(v: f32) -> u32 {
    v.to_bits()
}

#[test]
fn handshake_returns_ready_without_gpu() {
    let mut runtime = MinimalVisualRuntime::new();
    let responses = runtime.handle_message(AppToVisualMessage::new(
        1,
        AppToVisualPayload::Handshake(VisualHandshake {
            app_name: "scrysynth".to_string(),
            app_version: "0.1.0".to_string(),
            session_id: "session-1".to_string(),
            capabilities: vec![],
        }),
    ));
    assert!(matches!(
        responses.first().map(|response| &response.payload),
        Some(VisualToAppPayload::Ready(ready)) if ready.renderer == SIDECAR_RENDERER
    ));
}

#[test]
fn load_scene_and_update_parameters_are_stateful() {
    let mut runtime = MinimalVisualRuntime::new();
    let responses = runtime.handle_message(AppToVisualMessage::new(
        2,
        AppToVisualPayload::LoadScene(VisualSceneLoad {
            scene: VisualSceneSnapshot {
                scene_id: "scene-1".to_string(),
                background_color: [f32_bits(0.0), f32_bits(0.0), f32_bits(0.0), f32_bits(1.0)],
                elements: vec![VisualSceneElement {
                    element_id: "node-1".to_string(),
                    element_type: "sphere".to_string(),
                    position: [f32_bits(0.0), f32_bits(0.0)],
                    scale: f32_bits(1.0),
                    parameters: vec![VisualSceneParameter {
                        parameter_id: "gain".to_string(),
                        value: 0.25f64.to_bits(),
                    }],
                }],
            },
        }),
    ));
    assert!(matches!(
        responses.first().map(|response| &response.payload),
        Some(VisualToAppPayload::SceneLoaded(loaded)) if loaded.scene_id == "scene-1"
    ));
    assert_eq!(
        runtime.parameter_value(&"node-1".to_string(), &"gain".to_string()),
        Some(0.25f64.to_bits())
    );
    let responses = runtime.handle_message(AppToVisualMessage::new(
        3,
        AppToVisualPayload::UpdateParameters(VisualParameterUpdateBatch {
            updates: vec![VisualParameterPatch {
                element_id: "node-1".to_string(),
                parameter_id: "gain".to_string(),
                value: 0.75f64.to_bits(),
            }],
        }),
    ));
    assert_eq!(
        runtime.parameter_value(&"node-1".to_string(), &"gain".to_string()),
        Some(0.75f64.to_bits())
    );
    assert!(matches!(
        responses.first().map(|response| &response.payload),
        Some(VisualToAppPayload::ParameterBatchApplied(applied)) if applied.applied_count == 1
    ));
}

#[test]
fn shutdown_marks_runtime_done() {
    let mut runtime = MinimalVisualRuntime::new();
    let responses = runtime.handle_message(AppToVisualMessage::new(
        4,
        AppToVisualPayload::Shutdown(VisualShutdown {
            mode: VisualShutdownMode::Panic,
            reason: Some("test".to_string()),
        }),
    ));
    assert!(runtime.should_shutdown());
    assert!(matches!(
        responses.first().map(|response| &response.payload),
        Some(VisualToAppPayload::ShutdownComplete(done)) if done.mode == VisualShutdownMode::Panic
    ));
}

#[test]
fn unknown_parameter_updates_are_not_applied() {
    let mut runtime = MinimalVisualRuntime::new();
    let responses = runtime.handle_message(AppToVisualMessage::new(
        5,
        AppToVisualPayload::UpdateParameters(VisualParameterUpdateBatch {
            updates: vec![VisualParameterPatch {
                element_id: "node-9".to_string(),
                parameter_id: "glow".to_string(),
                value: 1.0f64.to_bits(),
            }],
        }),
    ));
    assert!(!responses.is_empty());
    assert_eq!(runtime.parameter_value(&"node-9".to_string(), &"glow".to_string()), None);
}

use scrysynth::visual_render::{
    element_palette, parameter_style, ElementPalette, ParameterStyle, RenderAction,
    RenderedSceneState,
};

fn one_element_scene(seq: u64) -> AppToVisualMessage {
    AppToVisualMessage::new(
        seq,
        AppToVisualPayload::LoadScene(VisualSceneLoad {
            scene: VisualSceneSnapshot {
                scene_id: "scene-1".to_string(),
                background_color: [0, 0, 0, f32_bits(1.0)],
                elements: vec![VisualSceneElement {
                    element_id: "node-1".to_string(),
                    element_type: "sphere".to_string(),
                    position: [0, 0],
                    scale: f32_bits(1.0),
                    parameters: vec![VisualSceneParameter {
                        parameter_id: "gain".to_string(),
                        value: 0.25f64.to_bits(),
                    }],
                }],
            },
        }),
    )
}

#[test]
fn rendering_runtime_announces_itself_and_rebuilds_on_load() {
    let mut state = RenderedSceneState::new();
    let (out, action) = state.handle_protocol_message(AppToVisualMessage::new(
        1,
        AppToVisualPayload::Handshake(VisualHandshake {
            app_name: "scrysynth".to_string(),
            app_version: "0.1.0".to_string(),
            session_id: "s".to_string(),
            capabilities: vec![],
        }),
    ));
    assert_eq!(action, RenderAction::Keep);
    assert_eq!(out.len(), 2);
    match &out[0].payload {
        VisualToAppPayload::Ready(ready) => {
            assert_eq!(ready.renderer, "scrysynth-bevy-visual");
            assert_eq!(ready.capabilities.len(), 4);
        }
        other => panic!("expected ready, got {other:?}"),
    }
    let (_, action) = state.handle_protocol_message(one_element_scene(2));
    assert_eq!(action, RenderAction::RebuildScene);
}

#[test]
fn rendering_runtime_restyles_only_applied_updates_and_clears_on_shutdown() {
    let mut state = RenderedSceneState::new();
    state.handle_protocol_message(one_element_scene(1));
    let (_, action) = state.handle_protocol_message(AppToVisualMessage::new(
        2,
        AppToVisualPayload::UpdateParameters(VisualParameterUpdateBatch {
            updates: vec![
                VisualParameterPatch {
                    element_id: "node-9".to_string(),
                    parameter_id: "gain".to_string(),
                    value: 0.5f64.to_bits(),
                },
                VisualParameterPatch {
                    element_id: "node-1".to_string(),
                    parameter_id: "gain".to_string(),
                    value: 0.5f64.to_bits(),
                },
            ],
        }),
    ));
    assert_eq!(action, RenderAction::ApplyUpdates(vec![1]));
    let (out, action) = state.handle_protocol_message(AppToVisualMessage::new(
        3,
        AppToVisualPayload::Shutdown(VisualShutdown { mode: VisualShutdownMode::Graceful, reason: None }),
    ));
    assert_eq!(action, RenderAction::ClearAndExit);
    assert_eq!(out.len(), 1);
    assert_eq!(state.parameter_value(&"node-1".to_string(), &"gain".to_string()), None);
}

#[test]
fn parameter_styles_and_palettes() {
    assert_eq!(parameter_style("level"), ParameterStyle::ScaleAndAlpha);
    assert_eq!(parameter_style("cutoff"), ParameterStyle::Hue);
    assert_eq!(parameter_style("glow"), ParameterStyle::Alpha);
    assert_eq!(element_palette("ring"), ElementPalette::Ring);
    assert_eq!(element_palette("torus"), ElementPalette::Neutral);
}

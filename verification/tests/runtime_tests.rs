use scrysynth::runtime::{RecordingVisualAdapter, VisualRuntimeManager};
use scrysynth::runtime::RecordingAudioAdapter;
use scrysynth::domain::{VisualRuntimeHealth, VisualRuntimeLifecycle};
use scrysynth::runtime::{apply_visual_stop_answer, VisualAdapterStatus, VisualRuntimeManagerError};
use scrysynth::compiler::CompiledTopology;
use scrysynth::domain::{
    AudioRuntimeHealth, AudioRuntimeLifecycle, GraphEditCommand, RuntimeConnectionState,
    RuntimeKind,
};
use scrysynth::runtime::{
    set_runtime_status, AudioRuntimeAdapter, AudioRuntimeManager, RuntimeAdapterStatus,
};
use scrysynth::session_store::SessionStore;

fn copy_status(s: &RuntimeAdapterStatus) -> RuntimeAdapterStatus {
    match s {
        RuntimeAdapterStatus::Booted { sample_rate_hz, block_size } => RuntimeAdapterStatus::Booted {
            sample_rate_hz: *sample_rate_hz,
            block_size: *block_size,
        },
        RuntimeAdapterStatus::Ready { active_patch_id } => RuntimeAdapterStatus::Ready {
            active_patch_id: active_patch_id.clone(),
        },
        RuntimeAdapterStatus::Stopped => RuntimeAdapterStatus::Stopped,
        RuntimeAdapterStatus::Panicked => RuntimeAdapterStatus::Panicked,
        RuntimeAdapterStatus::Failed { message, active_patch_id } => RuntimeAdapterStatus::Failed {
            message: message.clone(),
            active_patch_id: active_patch_id.clone(),
        },
    }
}

#[derive(Debug)]
struct FakeAdapter {
    parameter_status: RuntimeAdapterStatus,
    topology_status: RuntimeAdapterStatus,
    parameter_updates: Vec<(String, String, u64)>,
    topology_load_count: usize,
}

impl FakeAdapter {
    fn ready() -> Self {
        Self {
            parameter_status: RuntimeAdapterStatus::Ready { active_patch_id: "patch-live".to_string() },
            topology_status: RuntimeAdapterStatus::Ready {
                active_patch_id: "patch-reapplied".to_string(),
            },
            parameter_updates: Vec::new(),
            topology_load_count: 0,
        }
    }
}

impl AudioRuntimeAdapter for FakeAdapter {
    fn start(&mut self) -> Result<RuntimeAdapterStatus, String> {
        Ok(RuntimeAdapterStatus::Booted { sample_rate_hz: 48_000, block_size: 64 })
    }

    fn load_topology(&mut self, _topology: &CompiledTopology) -> Result<RuntimeAdapterStatus, String> {
        self.topology_load_count += 1;
        Ok(copy_status(&self.topology_status))
    }

    fn set_parameter_value(
        &mut self,
        node_id: &str,
        parameter_id: &str,
        value: u64,
    ) -> Result<RuntimeAdapterStatus, String> {
        self.parameter_updates.push((node_id.to_string(), parameter_id.to_string(), value));
        Ok(copy_status(&self.parameter_status))
    }

    fn stop(&mut self) -> Result<RuntimeAdapterStatus, String> {
        Ok(RuntimeAdapterStatus::Stopped)
    }

    fn panic(&mut self) -> Result<RuntimeAdapterStatus, String> {
        Ok(RuntimeAdapterStatus::Panicked)
    }
}

fn ready_store() -> SessionStore {
    let mut store = SessionStore::new_default();
    let session = store.current_mut();
    session.audio_runtime.lifecycle = AudioRuntimeLifecycle::Ready;
    session.audio_runtime.health = AudioRuntimeHealth::Healthy;
    session.audio_runtime.active_patch_id = Some("patch-live".to_string());
    set_runtime_status(session, RuntimeKind::Audio, RuntimeConnectionState::Ready, None);
    store
}

#[test]
fn live_parameter_update_sends_adapter_control_and_keeps_runtime_ready() {
    let mut store = ready_store();
    let node_id = store.current().nodes[0].id.clone();
    let parameter_id = store.current().nodes[0].parameters[0].id.clone();
    let mut manager = AudioRuntimeManager::new_for_tests(FakeAdapter::ready());
    let session = manager
        .reconcile_graph_edit(
            &mut store,
            &GraphEditCommand::SetParameterValue {
                node_id: node_id.clone(),
                parameter_id: parameter_id.clone(),
                value: 0.42f64.to_bits(),
            },
        )
        .expect("live update reconciles");
    assert_eq!(
        manager.adapter().parameter_updates,
        vec![(node_id, parameter_id, 0.42f64.to_bits())]
    );
    assert_eq!(session.audio_runtime.lifecycle, AudioRuntimeLifecycle::Ready);
    assert_eq!(session.audio_runtime.health, AudioRuntimeHealth::Healthy);
    assert_eq!(session.audio_runtime.active_patch_id, Some("patch-live".to_string()));
    assert_eq!(session.audio_runtime.last_error, None);
}

#[test]
fn live_parameter_failure_marks_runtime_degraded_with_error() {
    let mut store = ready_store();
    let node_id = store.current().nodes[0].id.clone();
    let parameter_id = store.current().nodes[0].parameters[0].id.clone();
    let mut adapter = FakeAdapter::ready();
    adapter.parameter_status = RuntimeAdapterStatus::Failed {
        message: "live parameter update: missing SC control".to_string(),
        active_patch_id: Some("patch-live".to_string()),
    };
    let mut manager = AudioRuntimeManager::new_for_tests(adapter);
    let session = manager
        .reconcile_graph_edit(
            &mut store,
            &GraphEditCommand::SetParameterValue { node_id, parameter_id, value: 0.21f64.to_bits() },
        )
        .expect("failure is reflected in session");
    assert_eq!(session.audio_runtime.lifecycle, AudioRuntimeLifecycle::Failed);
    assert_eq!(session.audio_runtime.health, AudioRuntimeHealth::Degraded);
    assert_eq!(
        session.audio_runtime.last_error,
        Some("live parameter update: missing SC control".to_string())
    );
}

#[test]
fn live_topology_edit_reapplies_full_topology() {
    let mut store = ready_store();
    let route_id = store.current().routes[0].id.clone();
    let mut manager = AudioRuntimeManager::new_for_tests(FakeAdapter::ready());
    let session = manager
        .reconcile_graph_edit(&mut store, &GraphEditCommand::RemoveRoute { route_id })
        .expect("topology reapply reconciles");
    assert_eq!(manager.adapter().topology_load_count, 1);
    assert_eq!(session.audio_runtime.active_patch_id, Some("patch-reapplied".to_string()));
}

#[test]
fn start_boots_and_loads_the_seeded_topology() {
    let mut store = SessionStore::new_default();
    let mut manager = AudioRuntimeManager::new_for_tests(FakeAdapter::ready());
    let session = manager.start(&mut store).expect("start succeeds");
    assert_eq!(manager.adapter().topology_load_count, 1);
    assert_eq!(session.audio_runtime.lifecycle, AudioRuntimeLifecycle::Ready);
    assert_eq!(session.audio_runtime.sample_rate_hz, Some(48_000));
    assert_eq!(session.audio_runtime.block_size, Some(64));
    assert_eq!(session.audio_runtime.active_patch_id, Some("patch-reapplied".to_string()));
}

#[test]
fn visual_stop_answer_records_failure_or_refuses_on_adapter_error() {
    let mut store = SessionStore::new_default();
    let before = store.current();
    let refused = apply_visual_stop_answer(&mut store, Err("socket closed".to_string()));
    assert!(matches!(refused, Err(VisualRuntimeManagerError::Adapter(ref m)) if m == "socket closed"));
    assert_eq!(store.current(), before);

    let session = apply_visual_stop_answer(
        &mut store,
        Ok(VisualAdapterStatus::Failed { message: "renderer hung".to_string() }),
    )
    .unwrap();
    assert_eq!(session.visual_runtime.lifecycle, VisualRuntimeLifecycle::Idle);
    assert_eq!(session.visual_runtime.health, VisualRuntimeHealth::Unknown);
    assert_eq!(session.visual_runtime.last_error.as_deref(), Some("renderer hung"));

    let session = apply_visual_stop_answer(&mut store, Ok(VisualAdapterStatus::Stopped)).unwrap();
    assert_eq!(session.visual_runtime.last_error, None);
    assert_eq!(session.visual_runtime.renderer, None);
}

#[test]
fn audio_start_boots_then_loads_and_stop_follows() {
    let mut store = SessionStore::new_default();
    let mut manager = AudioRuntimeManager::new_for_tests(RecordingAudioAdapter::new("patch-rec".to_string()));
    let session = manager.start(&mut store).expect("start returns the session");
    assert_eq!(session.audio_runtime.lifecycle, AudioRuntimeLifecycle::Ready);
    assert_eq!(session.audio_runtime.active_patch_id.as_deref(), Some("patch-rec"));
    manager.stop(&mut store).expect("stop returns the session");
    manager.panic(&mut store).expect("panic returns the session");
    assert_eq!(
        manager.adapter().call_names(),
        &vec!["start".to_string(), "load_topology".to_string(), "stop".to_string(), "panic".to_string()]
    );
}

#[test]
fn visual_start_boots_then_loads_the_compiled_scene() {
    let mut store = SessionStore::new_default();
    let scene_id = scrysynth::visual_compile::compile_session_to_visual_scene(&store.current(), &lerp).scene_id;
    let mut manager = VisualRuntimeManager::new_for_tests(RecordingVisualAdapter::new());
    manager.start(&mut store, &lerp).expect("start returns the session");
    manager.stop(&mut store).expect("stop returns the session");
    manager.panic(&mut store).expect("panic returns the session");
    let expected = vec!["start".to_string(), format!("load {scene_id}"), "stop".to_string(), "panic".to_string()];
    assert_eq!(manager.adapter().call_names(), &expected);
}

fn lerp(start: u64, end: u64, t: u64) -> u64 {
    let (a, b, x) = (f64::from_bits(start), f64::from_bits(end), f64::from_bits(t));
    (a + (b - a) * x).to_bits()
}

use serde_json::Value;
use tauri_plugin_overlay::error::Error;
use tauri_plugin_overlay::state::{Acquire, AttachStep, EngineCall, OverlayPluginState};
use tauri_plugin_overlay::{PanelOptions, Rect};

type State = OverlayPluginState<&'static str, u32>;

fn options(id: &str) -> PanelOptions {
    PanelOptions {
        id: id.to_string(),
        url: "/notifications.html".to_string(),
        bounds: Rect { x: 0, y: 110, w: 300, h: 100 },
        interactive: false,
        z_index: 0,
    }
}

fn built(pid_engine: u32) -> State {
    let mut s: State = OverlayPluginState::new("cfg", true);
    match s.begin_overlay() {
        Ok(Acquire::Build(cfg)) => assert_eq!(cfg, "cfg"),
        _ => panic!("expected a build"),
    }
    assert!(s.finish_overlay(Ok(pid_engine)).is_ok());
    s
}

#[test]
fn fresh_state_is_not_attached() {
    let s: State = OverlayPluginState::new("cfg", true);
    assert!(!s.is_attached());
    assert!(s.overlay().is_none());
    assert!(matches!(s.require_overlay(), Err(Error::NotAttached)));
}

#[test]
fn panel_operations_before_attach_fail_not_attached() {
    let s: State = OverlayPluginState::new("cfg", true);
    assert!(matches!(s.create_panel(options("notifications")), Err(Error::NotAttached)));
    assert!(matches!(s.close_panel("notifications".to_string()), Err(Error::NotAttached)));
    assert!(matches!(s.detach(), Err(Error::NotAttached)));
    assert!(matches!(s.ping_shell(), Err(Error::NotAttached)));
    assert!(matches!(
        s.set_panel_bounds("a".to_string(), Rect { x: 1, y: 2, w: 3, h: 4 }),
        Err(Error::NotAttached)
    ));
    assert!(matches!(s.set_panel_interactive("a".to_string(), true), Err(Error::NotAttached)));
    assert!(matches!(s.set_panel_z_index("a".to_string(), 3), Err(Error::NotAttached)));
    assert!(matches!(
        s.post_panel_message("a".to_string(), Value::String("hi".to_string())),
        Err(Error::NotAttached)
    ));
}

#[test]
fn first_acquire_hands_out_the_config_once() {
    let mut s: State = OverlayPluginState::new("cfg", true);
    assert!(!s.is_building());
    assert!(matches!(s.begin_overlay(), Ok(Acquire::Build("cfg"))));
    assert!(s.is_building());
    assert!(!s.is_attached());
    assert!(matches!(s.begin_overlay(), Err(Error::NotInitialized)));
    assert!(s.finish_overlay(Ok(5)).is_ok());
    assert!(!s.is_building());
}

#[test]
fn attached_status_answers_the_command() {
    let s: State = OverlayPluginState::new("cfg", true);
    assert!(matches!(s.attached_status(), Ok(false)));
    let s = built(2);
    assert!(matches!(s.attached_status(), Ok(true)));
}

#[test]
fn successful_build_attaches_and_is_reused() {
    let mut s = built(7);
    assert!(s.is_attached());
    assert_eq!(s.overlay(), Some(&7));
    assert!(matches!(s.require_overlay(), Ok(&7)));
    assert!(matches!(s.begin_overlay(), Ok(Acquire::Existing)));
    assert!(s.is_attached());
    assert!(matches!(s.attach(1234), Ok(AttachStep::Call(EngineCall::Attach(1234)))));
    assert!(matches!(s.detach(), Ok(EngineCall::Detach)));
    assert!(matches!(s.ping_shell(), Ok(EngineCall::PingShell)));
}

#[test]
fn planned_calls_carry_their_arguments() {
    let s = built(1);
    match s.create_panel(options("notifications")) {
        Ok(EngineCall::CreatePanel(o)) => {
            assert_eq!(o.id, "notifications");
            assert_eq!(o.url, "/notifications.html");
            assert_eq!(o.bounds, Rect { x: 0, y: 110, w: 300, h: 100 });
            assert!(!o.interactive);
            assert_eq!(o.z_index, 0);
        }
        _ => panic!("expected a create call"),
    }
    assert!(matches!(s.close_panel("p".to_string()), Ok(EngineCall::ClosePanel(id)) if id == "p"));
    assert!(matches!(
        s.set_panel_bounds("p".to_string(), Rect { x: 5, y: 6, w: 7, h: 8 }),
        Ok(EngineCall::SetPanelBounds(id, Rect { x: 5, y: 6, w: 7, h: 8 })) if id == "p"
    ));
    assert!(matches!(
        s.set_panel_interactive("p".to_string(), true),
        Ok(EngineCall::SetPanelInteractive(id, true)) if id == "p"
    ));
    assert!(matches!(
        s.set_panel_z_index("p".to_string(), -3),
        Ok(EngineCall::SetPanelZIndex(id, -3)) if id == "p"
    ));
    match s.post_panel_message("p".to_string(), Value::String("show".to_string())) {
        Ok(EngineCall::PostPanelMessage(id, payload)) => {
            assert_eq!(id, "p");
            assert_eq!(payload, Value::String("show".to_string()));
        }
        _ => panic!("expected a post call"),
    }
}

#[test]
fn failed_build_passes_error_and_leaves_plugin_uninitialized() {
    let mut s: State = OverlayPluginState::new("cfg", true);
    assert!(matches!(s.begin_overlay(), Ok(Acquire::Build(_))));
    let r = s.finish_overlay(Err(Error::Engine("no dll".to_string())));
    assert!(matches!(r, Err(Error::Engine(m)) if m == "no dll"));
    assert!(!s.is_building());
    assert!(!s.is_attached());
    assert!(matches!(s.begin_overlay(), Err(Error::NotInitialized)));
    assert!(matches!(s.begin_overlay(), Err(Error::NotInitialized)));
    assert!(matches!(s.ping_shell(), Err(Error::NotAttached)));
}

#[test]
fn unsupported_platform_refuses_everything() {
    let mut s: State = OverlayPluginState::new("cfg", false);
    assert!(!s.is_attached());
    assert!(s.overlay().is_none());
    assert!(matches!(s.begin_overlay(), Err(Error::Unsupported("overlay only supported on Windows"))));
    assert!(!s.is_building());
    assert!(matches!(s.attached_status(), Err(Error::Unsupported("overlay only supported on Windows"))));
    assert!(!s.is_attached());
    assert!(matches!(s.require_overlay(), Err(Error::Unsupported(_))));
    assert!(matches!(s.attach(1), Err(Error::Unsupported(_))));
    assert!(matches!(s.detach(), Err(Error::Unsupported(_))));
    assert!(matches!(s.create_panel(options("x")), Err(Error::Unsupported(_))));
    assert!(matches!(s.ping_shell(), Err(Error::Unsupported(_))));
}

#[test]
fn attach_on_fresh_state_builds_then_attaches() {
    let mut s: State = OverlayPluginState::new("cfg", true);
    assert!(matches!(s.attach(42), Ok(AttachStep::Build("cfg"))));
    assert!(!s.is_attached());
    assert!(matches!(s.finish_attach(Ok(9), 42), Ok(EngineCall::Attach(42))));
    assert!(s.is_attached());
    assert_eq!(s.overlay(), Some(&9));
    assert!(matches!(s.attach(43), Ok(AttachStep::Call(EngineCall::Attach(43)))));
}

#[test]
fn attach_with_failed_build_passes_error_then_not_initialized() {
    let mut s: State = OverlayPluginState::new("cfg", true);
    assert!(matches!(s.attach(42), Ok(AttachStep::Build(_))));
    let r = s.finish_attach(Err(Error::Engine("injection failed".to_string())), 42);
    assert!(matches!(r, Err(Error::Engine(m)) if m == "injection failed"));
    assert!(!s.is_attached());
    assert!(matches!(s.attach(42), Err(Error::NotInitialized)));
}

use serde_json::Value;
use tauri_plugin_overlay::builder::{Builder, PendingConfig};
use tauri_plugin_overlay::events::{channel_closed, pump_step, to_wire, EngineNotice, OverlayEvent, WireEvent};
use tauri_plugin_overlay::state::{BuildStep, OverlayConfig};

type Dir = Box<dyn Fn(&u32) -> String>;
type Size = Box<dyn Fn(&u32) -> (u32, u32)>;
type Layout = Box<dyn Fn(&u32) -> Option<i64>>;
type RouterRes = Box<dyn Fn(&u32) -> &'static str>;
type B = Builder<Dir, Size, Layout, RouterRes, &'static str>;

fn dir(prefix: &'static str) -> Dir {
    Box::new(move |app: &u32| format!("{}/{}", prefix, app))
}

#[test]
fn empty_builder_resolves_to_empty_config() {
    let b: B = Builder::new();
    let c: OverlayConfig<String, i64, &'static str> = b.resolve(&1);
    assert!(c.dll_dir.is_none());
    assert!(c.static_dir.is_none());
    assert!(c.user_data_folder.is_none());
    assert!(c.surface_size.is_none());
    assert!(c.surface_layout.is_none());
    assert!(c.extra_router.is_none());
    assert!(c.document_created_scripts.is_empty());
    assert!(c.build_plan().is_empty());
}

#[test]
fn default_builder_is_empty() {
    let b: B = Default::default();
    let c: OverlayConfig<String, i64, &'static str> = b.resolve(&1);
    assert!(c.dll_dir.is_none() && c.extra_router.is_none());
}

#[test]
fn resolvers_run_against_the_app() {
    let b: B = Builder::new()
        .with_dll_dir_resolver(dir("res/dlls"))
        .with_static_dir_resolver(dir("res/panels"))
        .with_user_data_folder_resolver(dir("data"))
        .with_surface_size_resolver(Box::new(|app: &u32| (1920u32 + *app, 1080u32)) as Size)
        .with_surface_layout_resolver(Box::new(|_app: &u32| Some(24i64)) as Layout);
    let c: OverlayConfig<String, i64, &'static str> = b.resolve(&7);
    assert_eq!(c.dll_dir.as_deref(), Some("res/dlls/7"));
    assert_eq!(c.static_dir.as_deref(), Some("res/panels/7"));
    assert_eq!(c.user_data_folder.as_deref(), Some("data/7"));
    assert_eq!(c.surface_size, Some((1927, 1080)));
    assert_eq!(c.surface_layout, Some(24));
}

#[test]
fn layout_resolver_giving_none_keeps_default() {
    let b: B = Builder::new().with_surface_layout_resolver(Box::new(|_app: &u32| None) as Layout);
    let c: OverlayConfig<String, i64, &'static str> = b.resolve(&0);
    assert!(c.surface_layout.is_none());
}

#[test]
fn last_resolver_wins() {
    let b: B = Builder::new()
        .with_dll_dir_resolver(dir("first"))
        .with_dll_dir_resolver(dir("second"));
    let c: OverlayConfig<String, i64, &'static str> = b.resolve(&1);
    assert_eq!(c.dll_dir.as_deref(), Some("second/1"));
}

#[test]
fn router_resolver_takes_precedence_over_router() {
    let b: B = Builder::new()
        .with_extra_router("static")
        .with_extra_router_resolver(Box::new(|_app: &u32| "resolved") as RouterRes);
    let c: OverlayConfig<String, i64, &'static str> = b.resolve(&1);
    assert_eq!(c.extra_router, Some("resolved"));

    let b: B = Builder::new().with_extra_router("static");
    let c: OverlayConfig<String, i64, &'static str> = b.resolve(&1);
    assert_eq!(c.extra_router, Some("static"));
}

#[test]
fn scripts_run_in_registration_order() {
    let b: B = Builder::new()
        .with_document_created_script("first()".to_string())
        .with_dll_dir_resolver(dir("d"))
        .with_document_created_script("second()".to_string());
    let c: OverlayConfig<String, i64, &'static str> = b.resolve(&3);
    assert_eq!(c.document_created_scripts, vec!["first()".to_string(), "second()".to_string()]);
    let plan = c.build_plan();
    assert_eq!(plan.len(), 3);
    assert!(matches!(&plan[0], BuildStep::DllDir(d) if d == "d/3"));
    assert!(matches!(&plan[1], BuildStep::DocumentCreatedScript(s) if s == "first()"));
    assert!(matches!(&plan[2], BuildStep::DocumentCreatedScript(s) if s == "second()"));
}

#[test]
fn build_plan_orders_every_option() {
    let c: OverlayConfig<&str, i64, &str> = OverlayConfig {
        dll_dir: Some("dlls"),
        static_dir: Some("panels"),
        user_data_folder: Some("data"),
        surface_size: Some((2560, 1440)),
        surface_layout: Some(9),
        extra_router: Some("router"),
        document_created_scripts: vec!["frame()".to_string()],
    };
    let plan = c.build_plan();
    assert_eq!(plan.len(), 7);
    assert!(matches!(plan[0], BuildStep::DllDir("dlls")));
    assert!(matches!(plan[1], BuildStep::StaticDir("panels")));
    assert!(matches!(plan[2], BuildStep::ExtraRouter("router")));
    assert!(matches!(plan[3], BuildStep::SurfaceSize(2560, 1440)));
    assert!(matches!(plan[4], BuildStep::UserDataFolder("data")));
    assert!(matches!(plan[5], BuildStep::SurfaceLayout(9)));
    assert!(matches!(&plan[6], BuildStep::DocumentCreatedScript(s) if s == "frame()"));
}

#[test]
fn pending_config_is_taken_once() {
    let mut p = PendingConfig::new(5u8);
    assert_eq!(p.take(), Ok(5));
    assert_eq!(p.take(), Err("plugin builder consumed twice".to_string()));
    assert_eq!(p.take(), Err("plugin builder consumed twice".to_string()));
}

#[test]
fn panel_events_keep_their_fields() {
    assert!(matches!(to_wire(OverlayEvent::ShellReady), WireEvent::ShellReady));
    assert!(matches!(
        to_wire(OverlayEvent::PanelLoaded { panel_id: "n".to_string() }),
        WireEvent::PanelLoaded { panel_id } if panel_id == "n"
    ));
    assert!(matches!(
        to_wire(OverlayEvent::PanelError { panel_id: "n".to_string(), error: "404".to_string() }),
        WireEvent::PanelError { panel_id, error } if panel_id == "n" && error == "404"
    ));
    match to_wire(OverlayEvent::PanelMessage {
        panel_id: "n".to_string(),
        payload: Value::Bool(true),
    }) {
        WireEvent::PanelMessage { panel_id, payload } => {
            assert_eq!(panel_id, "n");
            assert_eq!(payload, Value::Bool(true));
        }
        _ => panic!("expected a panel message"),
    }
    assert!(matches!(
        to_wire(OverlayEvent::PanelRequestClose { panel_id: "notifications".to_string() }),
        WireEvent::PanelRequestClose { panel_id } if panel_id == "notifications"
    ));
}

#[test]
fn engine_notices_are_terminal_only_on_detach() {
    let w = to_wire(OverlayEvent::Engine(EngineNotice {
        description: "Detached { reason: \"exit\" }".to_string(),
        detached: true,
    }));
    assert!(matches!(w, WireEvent::Engine { description, terminal: true } if description == "Detached { reason: \"exit\" }"));
    let w = to_wire(OverlayEvent::Engine(EngineNotice {
        description: "Attached".to_string(),
        detached: false,
    }));
    assert!(matches!(w, WireEvent::Engine { description, terminal: false } if description == "Attached"));
}

#[test]
fn closing_the_stream_sends_a_terminal_event_and_stops() {
    assert!(matches!(
        channel_closed(),
        WireEvent::Engine { description, terminal: true } if description == "event channel closed"
    ));
    let (w, more) = pump_step(None);
    assert!(!more);
    assert!(matches!(w, WireEvent::Engine { description, terminal: true } if description == "event channel closed"));
    let (w, more) = pump_step(Some(OverlayEvent::ShellReady));
    assert!(more);
    assert!(matches!(w, WireEvent::ShellReady));
}

#[test]
fn pumping_a_stream_emits_each_event_then_the_closing_one() {
    let mut received: Vec<Option<OverlayEvent>> = vec![
        Some(OverlayEvent::ShellReady),
        Some(OverlayEvent::PanelRequestClose { panel_id: "notifications".to_string() }),
        None,
    ]
    .into_iter()
    .rev()
    .collect();
    let mut emitted = Vec::new();
    while let Some(r) = received.pop() {
        let (w, more) = pump_step(r);
        emitted.push(w);
        if !more {
            break;
        }
    }
    assert_eq!(emitted.len(), 3);
    assert!(matches!(emitted[0], WireEvent::ShellReady));
    assert!(matches!(&emitted[1], WireEvent::PanelRequestClose { panel_id } if panel_id == "notifications"));
    assert!(matches!(&emitted[2], WireEvent::Engine { description, terminal: true } if description == "event channel closed"));
}

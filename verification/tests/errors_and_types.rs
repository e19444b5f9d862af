use tauri_plugin_overlay::commands::CreatePanelArgs;
use tauri_plugin_overlay::error::{Error, UNSUPPORTED_REASON};
use tauri_plugin_overlay::{PanelOptions, Rect, EVENT_NAME};

#[test]
fn error_messages() {
    assert_eq!(
        Error::NotInitialized.message(),
        "overlay plugin not initialized; call `overlay::init()` from your tauri::Builder"
    );
    assert_eq!(
        Error::AlreadyAttached.message(),
        "overlay is already attached; detach before reattaching"
    );
    assert_eq!(
        Error::NotAttached.message(),
        "overlay is not attached; call `overlay::attach(pid)` first"
    );
    assert_eq!(
        Error::Engine("injection failed".to_string()).message(),
        "overlay engine error: injection failed"
    );
    assert_eq!(
        Error::unsupported().message(),
        "overlay platform unsupported: overlay only supported on Windows"
    );
    assert_eq!(Error::Tauri("window closed".to_string()).message(), "window closed");
    assert_eq!(Error::Other("bad json".to_string()).message(), "bad json");
}

#[test]
fn unsupported_reason() {
    assert!(matches!(Error::unsupported(), Error::Unsupported(r) if r == UNSUPPORTED_REASON));
    assert_eq!(UNSUPPORTED_REASON, "overlay only supported on Windows");
}

#[test]
fn create_panel_args_become_panel_options() {
    let args = CreatePanelArgs {
        id: "notifications".to_string(),
        url: "/notifications.html".to_string(),
        bounds: Rect { x: 0, y: 110, w: 300, h: 100 },
        interactive: true,
        z_index: 4,
    };
    let opts: PanelOptions = args.into();
    assert_eq!(opts.id, "notifications");
    assert_eq!(opts.url, "/notifications.html");
    assert_eq!(opts.bounds, Rect { x: 0, y: 110, w: 300, h: 100 });
    assert!(opts.interactive);
    assert_eq!(opts.z_index, 4);
}

#[test]
fn event_name() {
    assert_eq!(EVENT_NAME, "plugin-overlay://event");
}

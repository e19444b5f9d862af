# tauri-plugin-overlay (verified core)

A Tauri 2 plugin that renders WebView2 panels into a running Windows game
through `overlay-engine`. The decisions of the plugin live in `src/` and are
proved with Verus; `app/` is the Tauri glue around them.

- `src/error.rs` — the error type and the message each error shows.
- `src/commands.rs` — the argument shape of `create_panel`.
- `src/builder.rs` — the plugin builder, the one-shot hand-over of its
  settings at setup, and their resolution against the running app.
- `src/state.rs` — the configuration, the plan of engine-builder settings,
  and the state machine that builds the engine once and checks every engine
  operation; laws about it are proof functions at the end of the file.
- `src/events.rs` — conversion of engine events into the wire shape.
- `app/` — the Tauri plugin: commands, async mutex, engine calls, event pump,
  serde shapes.

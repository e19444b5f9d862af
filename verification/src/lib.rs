//! Host-side core of an overlay plugin: panels rendered into a running
//! game through an overlay engine, driven by commands from a web front end.
//!
//! The crate holds the plugin's decisions as verified code: the panel
//! option types, the error type and its messages, the builder that gathers
//! configuration, the state machine that builds the engine once and checks
//! every panel operation on it, and the conversion of engine events into
//! the flat shape that the front end consumes.

use vstd::prelude::*;

pub mod builder;
pub mod commands;
pub mod error;
pub mod events;
pub mod state;

verus! {

/// Name of the host event on which [`events::WireEvent`]s are emitted to
/// the front end.
pub const EVENT_NAME: &'static str = "plugin-overlay://event";

/// Pixel-space rectangle on the composition surface.
#[derive(Debug, Clone, Copy, PartialEq, Eq)]
pub struct Rect {
    pub x: i32,
    pub y: i32,
    pub w: i32,
    pub h: i32,
}

/// Configuration of a panel to create.
#[derive(Debug, Clone)]
pub struct PanelOptions {
    pub id: String,
    pub url: String,
    pub bounds: Rect,
    pub interactive: bool,
    pub z_index: i32,
}

} // verus!

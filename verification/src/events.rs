//! Conversion of the engine's events into the flat shape that the front
//! end listens for.

use vstd::prelude::*;
use vstd::string::*;

verus! {

/// An engine-level notice, as plain values: its debug rendering, and
/// whether it reports that the engine detached from the game.
pub struct EngineNotice {
    pub description: String,
    pub detached: bool,
}

/// An event reported by the overlay engine.
pub enum OverlayEvent {
    /// The engine's shell page is up.
    ShellReady,
    PanelLoaded { panel_id: String },
    PanelError { panel_id: String, error: String },
    /// A panel posted a message to the host.
    PanelMessage { panel_id: String, payload: serde_json::Value },
    /// A panel asked to be closed.
    PanelRequestClose { panel_id: String },
    /// A notice about the engine itself.
    Engine(EngineNotice),
}

/// The event as the front end receives it: one discriminator, with engine
/// notices flattened to a description and whether they end the session.
pub enum WireEvent {
    ShellReady,
    PanelLoaded { panel_id: String },
    PanelError { panel_id: String, error: String },
    PanelMessage { panel_id: String, payload: serde_json::Value },
    PanelRequestClose { panel_id: String },
    Engine { description: String, terminal: bool },
}

/// The wire form of an engine event: panel events keep their fields, and an
/// engine notice is terminal exactly when it reports a detach.
pub open spec fn wire_of(event: OverlayEvent) -> WireEvent {
    match event {
        OverlayEvent::ShellReady => WireEvent::ShellReady,
        OverlayEvent::PanelLoaded { panel_id } => WireEvent::PanelLoaded { panel_id },
        OverlayEvent::PanelError { panel_id, error } => WireEvent::PanelError { panel_id, error },
        OverlayEvent::PanelMessage { panel_id, payload } => WireEvent::PanelMessage {
            panel_id,
            payload,
        },
        OverlayEvent::PanelRequestClose { panel_id } => WireEvent::PanelRequestClose { panel_id },
        OverlayEvent::Engine(notice) => WireEvent::Engine {
            description: notice.description,
            terminal: notice.detached,
        },
    }
}

/// The description of the event sent when the engine's event stream ends.
pub open spec fn channel_closed_description() -> Seq<char> {
    "event channel closed"@
}

/// Converts one engine event to its wire form.
pub fn to_wire(event: OverlayEvent) -> (w: WireEvent)
    ensures
        w == wire_of(event),
{
    match event {
        OverlayEvent::ShellReady => WireEvent::ShellReady,
        OverlayEvent::PanelLoaded { panel_id } => WireEvent::PanelLoaded { panel_id },
        OverlayEvent::PanelError { panel_id, error } => WireEvent::PanelError { panel_id, error },
        OverlayEvent::PanelMessage { panel_id, payload } => WireEvent::PanelMessage {
            panel_id,
            payload,
        },
        OverlayEvent::PanelRequestClose { panel_id } => WireEvent::PanelRequestClose { panel_id },
        OverlayEvent::Engine(notice) => WireEvent::Engine {
            description: notice.description,
            terminal: notice.detached,
        },
    }
}

/// The terminal event sent once the engine's event stream has ended.
pub fn channel_closed() -> (w: WireEvent)
    ensures
        w matches WireEvent::Engine { description, terminal } && terminal
            && description@ == channel_closed_description(),
{
    WireEvent::Engine { description: String::from_str("event channel closed"), terminal: true }
}

/// Whether emitting `w` and continuing as `more` say is the pump's answer
/// to `received`: the wire form of a received event and go on, or, once
/// the stream has ended, the terminal closing event and stop.
pub open spec fn pump_result(received: Option<OverlayEvent>, w: WireEvent, more: bool) -> bool {
    match received {
        Some(e) => w == wire_of(e) && more,
        None => w matches WireEvent::Engine { description, terminal } && terminal
            && description@ == channel_closed_description() && !more,
    }
}

/// One turn of the event pump: what to emit for what was received (`None`
/// once the stream has ended), and whether to keep receiving.
pub fn pump_step(received: Option<OverlayEvent>) -> (r: (WireEvent, bool))
    ensures
        pump_result(received, r.0, r.1),
{
    match received {
        Some(e) => (to_wire(e), true),
        None => (channel_closed(), false),
    }
}


/// Over a whole stream: when the engine delivers the events `events` and
/// then ends, pumping turn by turn emits one more event than it received:
/// the wire form of each received event in receive order, then the
/// terminal closing event; and it keeps receiving after every event and
/// stops after the closing one.
pub proof fn lemma_pump_over_stream(events: Seq<OverlayEvent>, emitted: Seq<WireEvent>, more: Seq<bool>)
    requires
        emitted.len() == events.len() + 1,
        more.len() == events.len() + 1,
        forall|i: int| 0 <= i < events.len() ==> pump_result(Some(events[i]), #[trigger] emitted[i], more[i]),
        pump_result(None, emitted[events.len() as int], more[events.len() as int]),
    ensures
        forall|i: int| 0 <= i < events.len() ==> #[trigger] emitted[i] == wire_of(events[i]) && more[i],
        emitted.last() matches WireEvent::Engine { description, terminal } && terminal
            && description@ == channel_closed_description(),
        !more.last(),
{
    assert forall|i: int| 0 <= i < events.len() implies #[trigger] emitted[i] == wire_of(events[i]) && more[i] by {
        assert(pump_result(Some(events[i]), emitted[i], more[i]));
    }
}

/// Whether a wire event ends the session for the front end.
pub open spec fn is_terminal(w: WireEvent) -> bool {
    w matches WireEvent::Engine { terminal, .. } && terminal
}

/// A converted engine event ends the session exactly when it is an engine
/// notice of a detach.
pub proof fn lemma_terminal_events(e: OverlayEvent)
    ensures
        is_terminal(wire_of(e)) <==> (e matches OverlayEvent::Engine(n) && n.detached),
{
}


/// Every event keeps its kind and its fields in place on the wire: a
/// panel's id stays its id, an error its error, a payload its payload, and
/// an engine notice keeps its description, with its detach flag becoming
/// whether it is terminal.
pub proof fn lemma_events_keep_kind_and_fields()
    ensures
        wire_of(OverlayEvent::ShellReady) == WireEvent::ShellReady,
        forall|p: String|
            #[trigger] wire_of(OverlayEvent::PanelLoaded { panel_id: p }) == (WireEvent::PanelLoaded {
                panel_id: p,
            }),
        forall|p: String, e: String|
            #[trigger] wire_of(OverlayEvent::PanelError { panel_id: p, error: e }) == (WireEvent::PanelError {
                panel_id: p,
                error: e,
            }),
        forall|p: String, v: serde_json::Value|
            #[trigger] wire_of(OverlayEvent::PanelMessage { panel_id: p, payload: v }) == (WireEvent::PanelMessage {
                panel_id: p,
                payload: v,
            }),
        forall|p: String|
            #[trigger] wire_of(OverlayEvent::PanelRequestClose { panel_id: p }) == (WireEvent::PanelRequestClose {
                panel_id: p,
            }),
        forall|d: String, t: bool|
            #[trigger] wire_of(OverlayEvent::Engine(EngineNotice { description: d, detached: t })) == (WireEvent::Engine {
                description: d,
                terminal: t,
            }),
{
}

} // verus!

//! The plugin's error type and the message that each error carries to the
//! front end.

use vstd::prelude::*;
use vstd::string::*;

verus! {

/// Errors returned by the plugin's commands.
#[derive(Debug)]
pub enum Error {
    /// The configuration captured at setup has already been used up.
    NotInitialized,
    /// An attach was requested while one is in place.
    AlreadyAttached,
    /// A panel operation was requested before the engine was started.
    NotAttached,
    /// The overlay engine failed; holds the engine's own message.
    Engine(String),
    /// The platform cannot host the overlay; holds the reason.
    Unsupported(&'static str),
    /// The host framework failed; holds its message.
    Tauri(String),
    /// Any other failure, with its message.
    Other(String),
}

/// The reason given on platforms that cannot host the overlay.
pub const UNSUPPORTED_REASON: &'static str = "overlay only supported on Windows";

/// The text that the front end receives for an error.
pub open spec fn error_message(e: Error) -> Seq<char> {
    match e {
        Error::NotInitialized =>
            "overlay plugin not initialized; call `overlay::init()` from your tauri::Builder"@,
        Error::AlreadyAttached => "overlay is already attached; detach before reattaching"@,
        Error::NotAttached => "overlay is not attached; call `overlay::attach(pid)` first"@,
        Error::Engine(msg) => "overlay engine error: "@ + msg@,
        Error::Unsupported(reason) => "overlay platform unsupported: "@ + reason@,
        Error::Tauri(msg) => msg@,
        Error::Other(msg) => msg@,
    }
}

impl Error {
    /// The error every operation gives on a platform without overlay support.
    pub fn unsupported() -> (e: Error)
        ensures
            e == Error::Unsupported(UNSUPPORTED_REASON),
    {
        Error::Unsupported(UNSUPPORTED_REASON)
    }

    /// The human-readable message of this error.
    pub fn message(&self) -> (s: String)
        ensures
            s@ == error_message(*self),
    {
        match self {
            Error::NotInitialized => String::from_str(
                "overlay plugin not initialized; call `overlay::init()` from your tauri::Builder",
            ),
            Error::AlreadyAttached => String::from_str(
                "overlay is already attached; detach before reattaching",
            ),
            Error::NotAttached => String::from_str(
                "overlay is not attached; call `overlay::attach(pid)` first",
            ),
            Error::Engine(msg) => String::from_str("overlay engine error: ").concat(msg.as_str()),
            Error::Unsupported(reason) => String::from_str("overlay platform unsupported: ").concat(
                reason,
            ),
            Error::Tauri(msg) => msg.clone(),
            Error::Other(msg) => msg.clone(),
        }
    }
}


/// Errors that carry a text show it: an engine failure ends with the
/// engine's message after a fixed prefix, an unsupported platform ends
/// with the reason, and a host or other failure shows its message as it
/// is; and the three errors without text show three different messages.
pub proof fn lemma_messages_carry_their_text(msg: String, reason: &'static str)
    ensures
        error_message(Error::Engine(msg)).len() == "overlay engine error: "@.len() + msg@.len(),
        error_message(Error::Engine(msg)).take("overlay engine error: "@.len() as int) == "overlay engine error: "@,
        error_message(Error::Engine(msg)).skip("overlay engine error: "@.len() as int) == msg@,
        error_message(Error::Unsupported(reason)).take("overlay platform unsupported: "@.len() as int)
            == "overlay platform unsupported: "@,
        error_message(Error::Unsupported(reason)).skip("overlay platform unsupported: "@.len() as int) == reason@,
        error_message(Error::Tauri(msg)) == msg@,
        error_message(Error::Other(msg)) == msg@,
        error_message(Error::NotInitialized) != error_message(Error::NotAttached),
        error_message(Error::NotInitialized) != error_message(Error::AlreadyAttached),
        error_message(Error::AlreadyAttached) != error_message(Error::NotAttached),
{
    let pe = "overlay engine error: "@;
    let pu = "overlay platform unsupported: "@;
    assert((pe + msg@).skip(pe.len() as int) =~= msg@);
    assert((pe + msg@).take(pe.len() as int) =~= pe);
    assert((pu + reason@).take(pu.len() as int) =~= pu);
    assert((pu + reason@).skip(pu.len() as int) =~= reason@);
    reveal_strlit("overlay plugin not initialized; call `overlay::init()` from your tauri::Builder");
    reveal_strlit("overlay is already attached; detach before reattaching");
    reveal_strlit("overlay is not attached; call `overlay::attach(pid)` first");
    assert(error_message(Error::NotInitialized).len() != error_message(Error::NotAttached).len());
    assert(error_message(Error::NotInitialized).len() != error_message(Error::AlreadyAttached).len());
    assert(error_message(Error::AlreadyAttached).len() != error_message(Error::NotAttached).len());
}

} // verus!

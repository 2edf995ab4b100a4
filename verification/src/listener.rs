//! The idle listener: what the device sends without being asked.
//!
//! Between commands the device may push output of its own. The listener wakes
//! at a fixed interval, or when it is signalled, drains what has arrived and
//! hands it to whoever observes the link. It decides under the same exclusive
//! access as an exchange, so it never takes bytes that answer a command; and it
//! reads only from a link whose handshake is done.

use crate::state::{AppState, LinkState};
use crate::transport::{decode_text, decodes};
use vstd::prelude::*;

verus! {

/// Time between two looks at an idle link, in milliseconds.
pub const IDLE_INTERVAL_MS: u64 = 1_000;

/// What the owner of the port reports back to the listener.
#[derive(Debug, PartialEq, Eq)]
pub enum ListenerEvent {
    /// The interval has passed, or the listener was signalled.
    Woken,
    /// A read that does not block brought these bytes; there may be none.
    Drained(Vec<u8>),
    /// The read failed.
    DrainFailed,
    /// The text has been handed to the observers.
    Published,
}

/// What the listener does next.
#[derive(Debug, PartialEq, Eq)]
pub enum ListenerStep {
    /// Sleep until this many milliseconds have passed or a signal comes.
    Sleep(u64),
    /// Read what has arrived on the link, without blocking.
    Drain,
    /// Hand this text to the observers.
    Publish(String),
}

/// Decides what the idle listener does next.
///
/// When it wakes it drains the link if the link is connected, and else sleeps
/// again. Bytes that a drain has brought are published as text, lossily decoded.
/// After that, and after a drain that brought nothing or failed, it sleeps.
pub fn listener_step<C>(state: &AppState<C>, event: ListenerEvent) -> (next: ListenerStep)
    ensures
        match event {
            ListenerEvent::Woken => if state.link() is Connected {
                next is Drain
            } else {
                next == ListenerStep::Sleep(IDLE_INTERVAL_MS)
            },
            ListenerEvent::Drained(bytes) => if bytes@.len() > 0 {
                next matches ListenerStep::Publish(text) && decodes(text@, bytes@)
            } else {
                next == ListenerStep::Sleep(IDLE_INTERVAL_MS)
            },
            ListenerEvent::DrainFailed => next == ListenerStep::Sleep(IDLE_INTERVAL_MS),
            ListenerEvent::Published => next == ListenerStep::Sleep(IDLE_INTERVAL_MS),
        },
{
    match event {
        ListenerEvent::Woken => match state.link_state() {
            LinkState::Connected => ListenerStep::Drain,
            _ => ListenerStep::Sleep(IDLE_INTERVAL_MS),
        },
        ListenerEvent::Drained(bytes) => {
            if bytes.len() > 0 {
                ListenerStep::Publish(decode_text(bytes.as_slice()))
            } else {
                ListenerStep::Sleep(IDLE_INTERVAL_MS)
            }
        },
        ListenerEvent::DrainFailed => ListenerStep::Sleep(IDLE_INTERVAL_MS),
        ListenerEvent::Published => ListenerStep::Sleep(IDLE_INTERVAL_MS),
    }
}

} // verus!

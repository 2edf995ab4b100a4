//! The state that all callers share: the connection, if there is one, and where
//! it stands between being opened and being closed.

use crate::error::RobotError;
use vstd::prelude::*;

verus! {

/// Time to let pass after a disconnect before the port counts as free, in milliseconds.
pub const DISCONNECT_GRACE_MS: u64 = 200;

/// What the caller is told when the connection has been closed.
pub const DISCONNECTED_MESSAGE: &'static str = "Successfully disconnected from the port.";

/// Where the link stands.
#[derive(Debug, Clone, Copy, PartialEq, Eq, Structural)]
pub enum LinkState {
    /// There is no connection.
    Disconnected,
    /// A connection is being made: the port is being opened, or it is open and the
    /// device has yet to answer the handshake.
    Connecting,
    /// The device has answered the handshake.
    Connected,
}

/// The shared state. `C` is the handle of an open port.
///
/// There is at most one handle at any time: storing one drops the one before.
/// A disconnected link has no handle and a connected one has one.
pub struct AppState<C> {
    serial_connection: Option<C>,
    link: LinkState,
}

impl<C> AppState<C> {
    /// A disconnected link has no handle, and a connected one has one.
    #[verifier::type_invariant]
    spec fn consistent(&self) -> bool {
        &&& self.link is Disconnected ==> self.serial_connection is None
        &&& self.link is Connected ==> self.serial_connection is Some
    }

    /// The handle that is stored, if any.
    pub closed spec fn handle(&self) -> Option<C> {
        self.serial_connection
    }

    /// Where the link stands.
    pub closed spec fn link(&self) -> LinkState {
        self.link
    }

    /// The state before any connection: disconnected.
    pub fn new() -> (state: Self)
        ensures
            state.link() is Disconnected,
            state.handle() is None,
    {
        AppState { serial_connection: None, link: LinkState::Disconnected }
    }

    /// Where the link stands.
    pub fn link_state(&self) -> (link: LinkState)
        ensures
            link == self.link(),
            link is Disconnected ==> self.handle() is None,
            link is Connected ==> self.handle() is Some,
    {
        proof {
            use_type_invariant(self);
        }
        self.link
    }

    /// The handle to talk through, if there is one.
    pub fn connection(&self) -> (handle: Option<&C>)
        ensures
            handle is Some <==> self.handle() is Some,
            handle matches Some(found) ==> *found == self.handle()->0,
    {
        self.serial_connection.as_ref()
    }

    /// Enters the making of a connection, from whatever state: a handle that was
    /// stored is dropped first.
    pub fn begin_connecting(&mut self)
        ensures
            final(self).link() is Connecting,
            final(self).handle() is None,
    {
        *self = AppState { serial_connection: None, link: LinkState::Connecting };
    }

    /// Stores the handle of a port that has just been opened, in place of any
    /// other. The link is then being connected: the handshake is still to come.
    pub fn set_connection(&mut self, connection: C)
        ensures
            final(self).link() is Connecting,
            final(self).handle() == Some(connection),
    {
        *self = AppState { serial_connection: Some(connection), link: LinkState::Connecting };
    }

    /// Marks the link as connected, if a handle is stored; else changes nothing.
    pub fn confirm_connection(&mut self)
        ensures
            final(self).handle() == old(self).handle(),
            final(self).link() == if old(self).handle() is Some {
                LinkState::Connected
            } else {
                old(self).link()
            },
    {
        if self.serial_connection.is_some() {
            self.link = LinkState::Connected;
        }
    }

    /// Drops the handle, if there is one, and leaves the link disconnected.
    pub fn clear_connection(&mut self)
        ensures
            final(self).link() is Disconnected,
            final(self).handle() is None,
    {
        *self = AppState::new();
    }

    /// Closes the connection. Without a handle there is nothing to close: that is
    /// an error, and the state stays as it was.
    pub fn disconnect(&mut self) -> (done: Result<(), RobotError>)
        ensures
            old(self).handle() is Some ==> done == Ok::<(), RobotError>(()) && final(self).link()
                is Disconnected && final(self).handle() is None,
            old(self).handle() is None ==> done == Err::<(), RobotError>(
                RobotError::NotConnected,
            ) && final(self).link() == old(self).link() && final(self).handle() is None,
    {
        if self.serial_connection.is_some() {
            *self = AppState::new();
            Ok(())
        } else {
            Err(RobotError::NotConnected)
        }
    }
}

} // verus!

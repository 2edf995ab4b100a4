//! Making a connection: open the port, shake hands, and try again on failure.
//!
//! [`ConnectSession`] decides what happens next. Whoever owns the serial ports
//! opens the port, runs the handshake as an exchange, sleeps between attempts,
//! and reports each outcome as a [`ConnectEvent`].

use crate::commands::{lemma_opcodes_plain, DEFAULT_TIMEOUT_MS};
use crate::constants::CommandCodes;
use crate::error::RobotError;
use crate::responses::{confirms_connection, is_connected_reply};
use crate::state::{AppState, LinkState};
use crate::text::is_plain;
use vstd::prelude::*;
use vstd::utf8::encode_utf8;

verus! {

/// Number of attempts that one connect request makes at most.
pub const MAX_CONNECT_ATTEMPTS: u32 = 3;

/// Time between one failed attempt and the next, in milliseconds.
pub const RETRY_DELAY_MS: u64 = 500;

/// How the port is opened.
#[derive(Debug, Clone, Copy, PartialEq, Eq)]
pub struct LinkSettings {
    /// Bits per second.
    pub baud_rate: u32,
    /// Data bits in a character.
    pub data_bits: u8,
    /// Whether a parity bit follows the data bits.
    pub parity: bool,
    /// Stop bits behind a character.
    pub stop_bits: u8,
    /// Time allowed for one read, in milliseconds.
    pub timeout_ms: u64,
}

/// The settings of the link: 115200 baud, eight data bits, no parity, one stop bit.
pub fn link_settings() -> (settings: LinkSettings)
    ensures
        settings == (LinkSettings {
            baud_rate: 115_200,
            data_bits: 8,
            parity: false,
            stop_bits: 1,
            timeout_ms: DEFAULT_TIMEOUT_MS,
        }),
{
    LinkSettings {
        baud_rate: 115_200,
        data_bits: 8,
        parity: false,
        stop_bits: 1,
        timeout_ms: DEFAULT_TIMEOUT_MS,
    }
}

/// What the caller is told when the connection stands.
pub open spec fn connected_text(port: Seq<char>) -> Seq<char> {
    "Successfully connected to port: "@ + port + "."@
}

/// What an attempt is waiting for.
#[derive(Debug, Clone, Copy, PartialEq, Eq, Structural)]
pub enum ConnectPhase {
    /// The port is being opened.
    Opening,
    /// The port is open and the handshake is under way.
    Handshaking,
    /// The attempt has failed and the next one is due after the delay.
    Waiting,
}

/// What the owner of the ports reports back. `C` is the handle of an open port.
pub enum ConnectEvent<C> {
    /// The port is open.
    Opened(C),
    /// The port could not be opened.
    OpenFailed,
    /// The handshake is over, with the device's reply or a failure.
    Replied(Result<String, RobotError>),
    /// The delay has passed.
    Waited,
}

/// A connect request that is under way.
///
/// The attempts are numbered from 1 and there are never more than
/// [`MAX_CONNECT_ATTEMPTS`]; a session that waits for the delay has an attempt left.
#[derive(Debug, PartialEq, Eq)]
pub struct ConnectSession {
    port: String,
    attempt: u32,
    phase: ConnectPhase,
}

/// What a connect request consists of.
pub ghost struct ConnectView {
    /// Name of the port.
    pub port: Seq<char>,
    /// Number of the attempt that is under way, from 1.
    pub attempt: nat,
    /// What the attempt is waiting for.
    pub phase: ConnectPhase,
}

/// What is to be done next for a connect request.
#[derive(Debug, PartialEq, Eq)]
pub enum ConnectStep {
    /// Open the port named in the session with these settings.
    Open(ConnectSession, LinkSettings),
    /// Exchange this command over the stored handle, with the default timeout.
    Handshake(ConnectSession, String),
    /// Let this many milliseconds pass.
    Wait(ConnectSession, u64),
    /// The request is over: the connection stands, or every attempt has failed.
    Done(Result<String, RobotError>),
}

/// Whether `next` is what follows a failed attempt of `session`: a delay before the
/// next attempt while attempts are left, and else the failure of the request.
pub open spec fn fails_into(session: ConnectView, next: ConnectStep) -> bool {
    if session.attempt < MAX_CONNECT_ATTEMPTS {
        next matches ConnectStep::Wait(waiting, millis) && millis == RETRY_DELAY_MS && waiting@
            == (ConnectView { phase: ConnectPhase::Waiting, ..session })
    } else {
        next matches ConnectStep::Done(Err(RobotError::ConnectionFailed { port, attempts }))
            && port@ == session.port && attempts == MAX_CONNECT_ATTEMPTS
    }
}

/// The link that a failed attempt of `session` leaves: still being connected while
/// attempts are left, and else disconnected.
pub open spec fn link_after_failure(session: ConnectView) -> LinkState {
    if session.attempt < MAX_CONNECT_ATTEMPTS {
        LinkState::Connecting
    } else {
        LinkState::Disconnected
    }
}

/// The session that `step` carries on with, if the request is not over.
pub open spec fn session_of(step: ConnectStep) -> Option<ConnectSession> {
    match step {
        ConnectStep::Open(session, _) => Some(session),
        ConnectStep::Handshake(session, _) => Some(session),
        ConnectStep::Wait(session, _) => Some(session),
        ConnectStep::Done(_) => None,
    }
}

/// A bound on the number of steps that a connect request still takes: three for
/// each attempt that has not begun, and what is left of the attempt under way.
pub open spec fn steps_left(session: ConnectView) -> int {
    3 * (MAX_CONNECT_ATTEMPTS - session.attempt) + match session.phase {
        ConnectPhase::Opening => 3int,
        ConnectPhase::Handshaking => 2int,
        ConnectPhase::Waiting => 1int,
    }
}

/// Whether `next` asks to open the port for attempt number `attempt`.
pub open spec fn opens(next: ConnectStep, port: Seq<char>, attempt: nat) -> bool {
    next matches ConnectStep::Open(session, settings) && session@ == (ConnectView {
        port,
        attempt,
        phase: ConnectPhase::Opening,
    }) && settings == (LinkSettings {
        baud_rate: 115_200,
        data_bits: 8,
        parity: false,
        stop_bits: 1,
        timeout_ms: DEFAULT_TIMEOUT_MS,
    })
}

impl ConnectSession {
    /// The attempts are counted from 1 up to the bound, and a delay is only waited
    /// for while an attempt is left.
    #[verifier::type_invariant]
    spec fn bounded(&self) -> bool {
        &&& 1 <= self.attempt <= MAX_CONNECT_ATTEMPTS
        &&& self.phase is Waiting ==> self.attempt < MAX_CONNECT_ATTEMPTS
    }

    /// What the request consists of.
    pub closed spec fn view(&self) -> ConnectView {
        ConnectView { port: self.port@, attempt: self.attempt as nat, phase: self.phase }
    }

    /// Name of the port.
    pub fn port(&self) -> (name: &str)
        ensures
            name@ == self@.port,
    {
        self.port.as_str()
    }

    /// Number of the attempt that is under way.
    pub fn attempt(&self) -> (number: u32)
        ensures
            number == self@.attempt,
            1 <= number <= MAX_CONNECT_ATTEMPTS,
    {
        proof {
            use_type_invariant(self);
        }
        self.attempt
    }

    /// What the attempt is waiting for.
    pub fn phase(&self) -> (phase: ConnectPhase)
        ensures
            phase == self@.phase,
    {
        self.phase
    }

    /// Begins a connect request: any handle that is stored is dropped, and the port
    /// is to be opened for the first attempt.
    pub fn begin<C>(state: &mut AppState<C>, port: &str) -> (first: ConnectStep)
        ensures
            final(state).link() is Connecting,
            final(state).handle() is None,
            opens(first, port@, 1),
    {
        state.begin_connecting();
        ConnectStep::Open(
            ConnectSession { port: String::from_str(port), attempt: 1, phase: ConnectPhase::Opening },
            link_settings(),
        )
    }

    /// Ends the attempt that is under way as failed.
    fn fail<C>(self, state: &mut AppState<C>) -> (next: ConnectStep)
        ensures
            fails_into(self@, next),
            final(state).handle() is None,
            final(state).link() == link_after_failure(self@),
    {
        proof {
            use_type_invariant(&self);
        }
        if self.attempt < MAX_CONNECT_ATTEMPTS {
            state.begin_connecting();
            ConnectStep::Wait(
                ConnectSession {
                    port: self.port,
                    attempt: self.attempt,
                    phase: ConnectPhase::Waiting,
                },
                RETRY_DELAY_MS,
            )
        } else {
            state.clear_connection();
            ConnectStep::Done(
                Err(RobotError::ConnectionFailed { port: self.port, attempts: self.attempt }),
            )
        }
    }

    /// Takes the connect request one step on.
    ///
    /// A port that has been opened is stored and the handshake is exchanged over it.
    /// The connection stands when the device's reply is its token and nothing else.
    /// Any other report ends the attempt: the handle is dropped, and the next attempt
    /// follows after the delay, as long as there have been fewer than three. After
    /// the third the request fails, with the port and the number of attempts. Once
    /// the delay has been asked for, whatever is reported starts the next attempt.
    /// Every step brings the end of the request nearer.
    pub fn step<C>(self, state: &mut AppState<C>, event: ConnectEvent<C>) -> (next: ConnectStep)
        ensures
            next matches ConnectStep::Handshake(_, command) ==> is_plain(command@),
            session_of(next) matches Some(session) ==> 0 < steps_left(session@) < steps_left(
                self@,
            ),
            match (self@.phase, event) {
                (ConnectPhase::Opening, ConnectEvent::Opened(handle)) => {
                    &&& next matches ConnectStep::Handshake(session, command) && command@
                        == CommandCodes::CHECK@ && session@ == (ConnectView {
                        phase: ConnectPhase::Handshaking,
                        ..self@
                    })
                    &&& final(state).handle() == Some(handle)
                    &&& final(state).link() is Connecting
                },
                (ConnectPhase::Handshaking, ConnectEvent::Replied(Ok(reply))) => if old(
                    state,
                ).handle() is Some && confirms_connection(encode_utf8(reply@)) {
                    &&& next matches ConnectStep::Done(Ok(message)) && message@ == connected_text(
                        self@.port,
                    )
                    &&& final(state).handle() == old(state).handle()
                    &&& final(state).link() is Connected
                } else {
                    &&& fails_into(self@, next)
                    &&& final(state).handle() is None
                    &&& final(state).link() == link_after_failure(self@)
                },
                (ConnectPhase::Waiting, _) => {
                    &&& opens(next, self@.port, self@.attempt + 1)
                    &&& final(state).handle() is None
                    &&& final(state).link() is Connecting
                },
                _ => {
                    &&& fails_into(self@, next)
                    &&& final(state).handle() is None
                    &&& final(state).link() == link_after_failure(self@)
                },
            },
    {
        proof {
            use_type_invariant(&self);
            lemma_opcodes_plain();
        }
        match self.phase {
            ConnectPhase::Opening => match event {
                ConnectEvent::Opened(handle) => {
                    state.set_connection(handle);
                    ConnectStep::Handshake(
                        ConnectSession {
                            port: self.port,
                            attempt: self.attempt,
                            phase: ConnectPhase::Handshaking,
                        },
                        String::from_str(CommandCodes::CHECK),
                    )
                },
                _ => self.fail(state),
            },
            ConnectPhase::Handshaking => match event {
                ConnectEvent::Replied(Ok(reply)) => {
                    if state.connection().is_some() && is_connected_reply(reply.as_str()) {
                        state.confirm_connection();
                        let mut message = String::from_str("Successfully connected to port: ");
                        message.append(self.port.as_str());
                        message.append(".");
                        ConnectStep::Done(Ok(message))
                    } else {
                        self.fail(state)
                    }
                },
                _ => self.fail(state),
            },
            ConnectPhase::Waiting => {
                state.begin_connecting();
                ConnectStep::Open(
                    ConnectSession {
                        port: self.port,
                        attempt: self.attempt + 1,
                        phase: ConnectPhase::Opening,
                    },
                    link_settings(),
                )
            },
        }
    }
}

} // verus!

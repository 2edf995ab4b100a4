//! One command and its response on the wire.
//!
//! The link is a strict request and response channel. A command is written
//! whole, with its terminator, and then bytes are read until what has arrived
//! ends with a terminator. The response is then either one of the device's
//! error codes or the text that is handed to the caller.
//!
//! [`Exchange`] decides what happens next; whoever owns the port writes and
//! reads, watches the clock, and reports each outcome as a [`LinkEvent`].

use crate::commands::DEFAULT_TIMEOUT_MS;
use crate::constants::{error_message_of, get_error_message};
use crate::error::RobotError;
use crate::text::{has_prefix, is_plain};
use vstd::prelude::*;
use vstd::string::StringSliceAdditionalSpecFns;
use vstd::utf8::{
    decode_utf8, decode_utf8_encode_utf8, encode_utf8, is_ascii_chars_encode_utf8, valid_utf8,
};

verus! {

/// The byte that ends every command and may end a response.
pub const TERMINATOR: u8 = '~' as u8;

/// The byte that may end a response in place of the terminator.
pub const LINE_END: u8 = '\n' as u8;

/// Number of bytes that one read may bring at most.
pub const READ_WINDOW: usize = 1024;

/// The time to wait for a response: what the caller asked for, or the default.
pub fn effective_timeout(requested: Option<u64>) -> (millis: u64)
    ensures
        millis == match requested {
            Some(asked) => asked,
            None => DEFAULT_TIMEOUT_MS,
        },
{
    match requested {
        Some(asked) => asked,
        None => DEFAULT_TIMEOUT_MS,
    }
}

/// The bytes that go over the wire for a command: its text and the terminator.
pub open spec fn framed(command: Seq<u8>) -> Seq<u8> {
    command.push(TERMINATOR)
}

/// Frames a command for the wire.
pub fn frame_command(command: &str) -> (frame: Vec<u8>)
    ensures
        frame@ == framed(command.spec_bytes()),
{
    let mut frame = command.as_bytes_vec();
    frame.push(TERMINATOR);
    frame
}

/// The frame of a plain command holds the command's characters as bytes and then the
/// terminator, which occurs nowhere else in it: where frames follow one another on
/// the wire, each terminator ends exactly one command.
pub proof fn law_frame_holds_one_terminator(command: Seq<char>)
    requires
        is_plain(command),
    ensures
        framed(encode_utf8(command)).len() == command.len() + 1,
        framed(encode_utf8(command)).last() == TERMINATOR,
        forall|i: int|
            0 <= i < command.len() ==> {
                &&& (#[trigger] framed(encode_utf8(command))[i]) == command[i] as u8
                &&& framed(encode_utf8(command))[i] != TERMINATOR
            },
{
    assert(vstd::utf8::is_ascii_chars(command));
    is_ascii_chars_encode_utf8(command);
}

/// Whether what has arrived is a whole response: it ends with a terminator or a line end.
pub open spec fn ends_response(received: Seq<u8>) -> bool {
    received.len() > 0 && (received.last() == TERMINATOR || received.last() == LINE_END)
}

/// Whether what has arrived is a whole response.
pub fn response_complete(received: &[u8]) -> (complete: bool)
    ensures
        complete == ends_response(received@),
{
    let n = received.len();
    n > 0 && (received[n - 1] == TERMINATOR || received[n - 1] == LINE_END)
}

/// The error code that a response begins with, if it begins with one.
pub open spec fn reported_error(response: Seq<u8>) -> Option<Seq<char>> {
    if encode_utf8("C001"@).is_prefix_of(response) {
        Some("C001"@)
    } else if encode_utf8("C002"@).is_prefix_of(response) {
        Some("C002"@)
    } else if encode_utf8("I001"@).is_prefix_of(response) {
        Some("I001"@)
    } else if encode_utf8("I002"@).is_prefix_of(response) {
        Some("I002"@)
    } else if encode_utf8("I003"@).is_prefix_of(response) {
        Some("I003"@)
    } else {
        None
    }
}

/// The text that lossy UTF-8 decoding makes of `bytes`: their characters, with the
/// replacement character in place of each stretch that is not UTF-8.
pub uninterp spec fn lossy_text(bytes: Seq<u8>) -> Seq<char>;

/// Decodes bytes with `String::from_utf8_lossy`. The result is not proved: it is
/// taken to be the text named [`lossy_text`], which for bytes that are valid UTF-8
/// is the text that they encode.
#[verifier::external_body]
fn decode_lossy(bytes: &[u8]) -> (text: String)
    ensures
        text@ == lossy_text(bytes@),
        valid_utf8(bytes@) ==> text@ == decode_utf8(bytes@),
{
    String::from_utf8_lossy(bytes).into_owned()
}

/// Whether `text` is what the bytes decode to: their lossy text, which holds the
/// very bytes again where they are valid UTF-8.
pub open spec fn decodes(text: Seq<char>, bytes: Seq<u8>) -> bool {
    text == lossy_text(bytes) && (valid_utf8(bytes) ==> encode_utf8(text) == bytes)
}

/// Decodes what the device has sent into text, replacing what is not UTF-8.
pub fn decode_text(bytes: &[u8]) -> (text: String)
    ensures
        decodes(text@, bytes@),
{
    proof {
        if valid_utf8(bytes@) {
            decode_utf8_encode_utf8(bytes@);
        }
    }
    decode_lossy(bytes)
}

/// Whether `outcome` is what a whole response amounts to: the device's error if the
/// response begins with an error code, and else its text, lossily decoded. The text
/// of a response that is valid UTF-8 holds the very bytes of the response.
pub open spec fn classifies(outcome: Result<String, RobotError>, response: Seq<u8>) -> bool {
    match reported_error(response) {
        Some(code) => outcome matches Err(RobotError::DeviceError { code: found, message })
            && found@ == code && error_message_of(code) == Some(message@),
        None => outcome matches Ok(text) && decodes(text@, response),
    }
}

/// The device error with the given code, if the device has such a code.
fn coded_error(code: &'static str) -> (failure: Option<RobotError>)
    ensures
        match error_message_of(code@) {
            Some(text) => failure matches Some(RobotError::DeviceError { code: found, message })
                && found@ == code@ && message@ == text,
            None => failure is None,
        },
{
    match get_error_message(code) {
        Some(message) => Some(RobotError::DeviceError { code, message }),
        None => None,
    }
}

/// The device error that a response reports, if it begins with an error code.
pub fn device_error_in(response: &[u8]) -> (failure: Option<RobotError>)
    ensures
        match reported_error(response@) {
            Some(code) => failure matches Some(RobotError::DeviceError { code: found, message })
                && found@ == code && error_message_of(code) == Some(message@),
            None => failure is None,
        },
{
    if has_prefix(response, "C001".as_bytes()) {
        coded_error("C001")
    } else if has_prefix(response, "C002".as_bytes()) {
        coded_error("C002")
    } else if has_prefix(response, "I001".as_bytes()) {
        coded_error("I001")
    } else if has_prefix(response, "I002".as_bytes()) {
        coded_error("I002")
    } else if has_prefix(response, "I003".as_bytes()) {
        coded_error("I003")
    } else {
        None
    }
}

/// Says what a whole response amounts to.
pub fn classify_response(response: &[u8]) -> (outcome: Result<String, RobotError>)
    ensures
        classifies(outcome, response@),
{
    match device_error_in(response) {
        Some(failure) => Err(failure),
        None => Ok(decode_text(response)),
    }
}

/// What the owner of the port reports back.
#[derive(Debug, PartialEq, Eq)]
pub enum LinkEvent {
    /// The frame was written and flushed.
    Written,
    /// Writing or flushing failed.
    WriteFailed,
    /// A read brought these bytes; there may be none.
    Received(Vec<u8>),
    /// A read failed.
    ReadFailed,
    /// The time allowed for the response is over.
    TimedOut,
}

/// An exchange that is under way.
#[derive(Debug, PartialEq, Eq)]
pub struct Exchange {
    /// Whether the frame has yet to be written.
    pub awaiting_write: bool,
    /// The bytes of the response that have arrived.
    pub received: Vec<u8>,
}

/// What is to be done next for an exchange.
#[derive(Debug, PartialEq, Eq)]
pub enum ExchangeStep {
    /// Write these bytes, all of them, and flush.
    Write(Exchange, Vec<u8>),
    /// Read what has arrived, at most [`READ_WINDOW`] bytes.
    Read(Exchange),
    /// The exchange is over, with the response's text or a failure.
    Done(Result<String, RobotError>),
}

impl Exchange {
    /// Begins the exchange of a command: its frame is to be written.
    pub fn begin(command: &str) -> (first: ExchangeStep)
        ensures
            first matches ExchangeStep::Write(exchange, frame) && frame@ == framed(
                command.spec_bytes(),
            ) && exchange.awaiting_write && exchange.received@ == Seq::<u8>::empty(),
    {
        ExchangeStep::Write(
            Exchange { awaiting_write: true, received: Vec::new() },
            frame_command(command),
        )
    }

    /// Takes the exchange one step on.
    ///
    /// Once the frame is written, reads follow until what has arrived is a whole
    /// response, which is then classified. A failed write, a failed read or the end
    /// of the allowed time ends the exchange with that failure, and nothing of a
    /// partial response is handed on. An event that does not answer what was asked
    /// for ends the exchange too: a report on reading while the write is awaited
    /// counts as a failed read, a report on writing after it as a failed write.
    /// Nothing is ever written a second time.
    pub fn step(self, event: LinkEvent) -> (next: ExchangeStep)
        ensures
            !(next is Write),
            match event {
                LinkEvent::Written => if self.awaiting_write {
                    next matches ExchangeStep::Read(exchange) && !exchange.awaiting_write
                        && exchange.received@ == self.received@
                } else {
                    next == ExchangeStep::Done(Err(RobotError::TransportWriteError))
                },
                LinkEvent::WriteFailed => next == ExchangeStep::Done(
                    Err(RobotError::TransportWriteError),
                ),
                LinkEvent::Received(bytes) => if self.awaiting_write {
                    next == ExchangeStep::Done(Err(RobotError::TransportReadError))
                } else if ends_response(self.received@ + bytes@) {
                    next matches ExchangeStep::Done(outcome) && classifies(
                        outcome,
                        self.received@ + bytes@,
                    )
                } else {
                    next matches ExchangeStep::Read(exchange) && !exchange.awaiting_write
                        && exchange.received@ == self.received@ + bytes@
                },
                LinkEvent::ReadFailed => next == ExchangeStep::Done(
                    Err(RobotError::TransportReadError),
                ),
                LinkEvent::TimedOut => next == ExchangeStep::Done(
                    Err(RobotError::ResponseTimeout),
                ),
            },
    {
        let awaiting_write = self.awaiting_write;
        let mut received = self.received;
        match event {
            LinkEvent::Written => {
                if awaiting_write {
                    ExchangeStep::Read(Exchange { awaiting_write: false, received })
                } else {
                    ExchangeStep::Done(Err(RobotError::TransportWriteError))
                }
            },
            LinkEvent::WriteFailed => ExchangeStep::Done(Err(RobotError::TransportWriteError)),
            LinkEvent::Received(bytes) => {
                if awaiting_write {
                    ExchangeStep::Done(Err(RobotError::TransportReadError))
                } else {
                    let mut bytes = bytes;
                    received.append(&mut bytes);
                    if response_complete(received.as_slice()) {
                        ExchangeStep::Done(classify_response(received.as_slice()))
                    } else {
                        ExchangeStep::Read(Exchange { awaiting_write: false, received })
                    }
                }
            },
            LinkEvent::ReadFailed => ExchangeStep::Done(Err(RobotError::TransportReadError)),
            LinkEvent::TimedOut => ExchangeStep::Done(Err(RobotError::ResponseTimeout)),
        }
    }
}

} // verus!

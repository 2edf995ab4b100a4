//! The failures that the link can report.

use crate::text::{decimal_text, push_decimal};
use vstd::prelude::*;

verus! {

/// Why an operation on the arm failed.
#[derive(Debug, PartialEq, Eq)]
pub enum RobotError {
    /// Writing or flushing the command failed.
    TransportWriteError,
    /// Reading the response failed, as when the port closes under a read.
    TransportReadError,
    /// No terminated response arrived in time; nothing of a partial one is kept.
    ResponseTimeout,
    /// The device answered with one of its error codes.
    DeviceError { code: &'static str, message: &'static str },
    /// Every attempt to open the port and shake hands failed.
    ConnectionFailed { port: String, attempts: u32 },
    /// There is no connection to use or to close.
    NotConnected,
    /// The joint id is outside the configured set.
    UnknownJoint { joint: i8 },
    /// The target angle lies outside the joint's travel.
    JointLimitExceeded { joint: i8 },
    /// The joint's position has not been reported since the connection was made.
    UnknownCurrentAngle { joint: i8 },
}

impl RobotError {
    /// The text shown to the caller for this failure.
    pub open spec fn message_text(&self) -> Seq<char> {
        match self {
            RobotError::TransportWriteError => "Failed to write to serial port"@,
            RobotError::TransportReadError => "Error reading from serial port"@,
            RobotError::ResponseTimeout => "Timeout while waiting for response"@,
            RobotError::DeviceError { code, message } => code@ + ": "@ + message@,
            RobotError::ConnectionFailed { port, attempts } => "Failed to connect to port: "@
                + port@ + " after "@ + decimal_text(*attempts as int) + " attempts."@,
            RobotError::NotConnected => "No active serial connection."@,
            RobotError::UnknownJoint { joint } => "Invalid Joint: "@ + decimal_text(*joint as int),
            RobotError::JointLimitExceeded { joint } => "Target angle exceeds joint limits for J"@
                + decimal_text(*joint as int),
            RobotError::UnknownCurrentAngle { joint } => "Current angle for J"@ + decimal_text(
                *joint as int,
            ) + " is unknown"@,
        }
    }

    /// Describes the failure in words.
    pub fn message(&self) -> (text: String)
        ensures
            text@ == self.message_text(),
    {
        match self {
            RobotError::TransportWriteError => String::from_str("Failed to write to serial port"),
            RobotError::TransportReadError => String::from_str("Error reading from serial port"),
            RobotError::ResponseTimeout => String::from_str("Timeout while waiting for response"),
            RobotError::DeviceError { code, message } => {
                let mut text = String::from_str(code);
                text.append(": ");
                text.append(message);
                text
            },
            RobotError::ConnectionFailed { port, attempts } => {
                let mut text = String::from_str("Failed to connect to port: ");
                text.append(port.as_str());
                text.append(" after ");
                push_decimal(&mut text, *attempts as i64);
                text.append(" attempts.");
                text
            },
            RobotError::NotConnected => String::from_str("No active serial connection."),
            RobotError::UnknownJoint { joint } => {
                let mut text = String::from_str("Invalid Joint: ");
                push_decimal(&mut text, *joint as i64);
                text
            },
            RobotError::JointLimitExceeded { joint } => {
                let mut text = String::from_str("Target angle exceeds joint limits for J");
                push_decimal(&mut text, *joint as i64);
                text
            },
            RobotError::UnknownCurrentAngle { joint } => {
                let mut text = String::from_str("Current angle for J");
                push_decimal(&mut text, *joint as i64);
                text.append(" is unknown");
                text
            },
        }
    }
}

} // verus!

//! Verified core of a serial-link driver for a six-joint stepper-motor arm.
//!
//! The crate holds everything about the link that can be decided from plain
//! values: the joint table and the conversion between step counts and joint
//! angles, the text of every command, the grammar of every response, and the
//! state machines that say what to do next while a command is exchanged, a
//! port is being connected or the arm is driven to a set of angles. Whoever
//! owns the serial port performs the actions these functions ask for and hands
//! back what happened.
//!
//! Angles, reduction ratios and step resolutions are fixed-point numbers in
//! thousandths: an angle of `57_600` is 57.6 degrees.

pub mod text;

pub mod error;
pub mod joint;
pub mod constants;
pub mod commands;
pub mod kinematics;
pub mod responses;
pub mod transport;
pub mod state;
pub mod connection;
pub mod drive;
pub mod listener;

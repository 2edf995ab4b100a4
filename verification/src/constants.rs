//! The vocabulary of the wire protocol and the per-joint constants.

use crate::joint::{joint_table, lookup_joint};
use crate::text::str_equal;
use vstd::prelude::*;

verus! {

/// The opcodes that begin a command.
pub struct CommandCodes;

impl CommandCodes {
    /// Move joints by a number of steps each.
    pub const MOVE: &'static str = "MOVE>";

    /// Ask the device whether it is there.
    pub const CHECK: &'static str = "CHECK>";

    /// Set the velocity.
    pub const SETVEL: &'static str = "SETVEL>";

    /// Set the acceleration.
    pub const SETACC: &'static str = "SETACC>";

    /// Switch a stepper on or off.
    pub const TOGGLE: &'static str = "TOGGLE>";

    /// Home joints.
    pub const CALIBRATE: &'static str = "CALIBRATE>";

    /// Ask which steppers are enabled.
    pub const STATE: &'static str = "STATE>";

    /// Ask for the step count of each joint.
    pub const STEPS: &'static str = "STEPS>";

    /// Ask for velocity and acceleration.
    pub const PARAMS: &'static str = "PARAMS>";
}

/// The markers that begin the device's acknowledgements.
pub struct ResponseCodes;

impl ResponseCodes {
    /// The answer to the handshake.
    pub const CONNECTED_RESPONSE: &'static str = "CONNECTED";

    /// Begins the acknowledgement of a homing run.
    pub const CALIBRATION_RESPONSE: &'static str = "[CALIBRATION];";

    /// Begins a report on which steppers are enabled.
    pub const STATE_RESPONSE: &'static str = "[STATE];";

    /// Begins a report on the step counts.
    pub const STEPS_RESPONSE: &'static str = "[STEPS];";

    /// Begins a report on velocity and acceleration.
    pub const PARAMS_RESPONSE: &'static str = "[PARAMS];";
}

/// Factor by which velocity and acceleration are scaled on the wire.
pub const PARAMETERS_MULTIPLIER: u8 = 10;

/// The device's error codes and what each of them means.
pub open spec fn error_message_of(code: Seq<char>) -> Option<Seq<char>> {
    if code == "C001"@ {
        Some("Command was not properly formatted"@)
    } else if code == "C002"@ {
        Some("Command not defined"@)
    } else if code == "I001"@ {
        Some("Invalid stepper"@)
    } else if code == "I002"@ {
        Some("Invalid stepper state"@)
    } else if code == "I003"@ {
        Some("Invalid limit switch conversion"@)
    } else {
        None
    }
}

/// The message that belongs to an error code of the device, if `code` is one.
pub fn get_error_message(code: &str) -> (message: Option<&'static str>)
    ensures
        match message {
            Some(text) => error_message_of(code@) == Some(text@),
            None => error_message_of(code@) is None,
        },
{
    if str_equal(code, "C001") {
        Some("Command was not properly formatted")
    } else if str_equal(code, "C002") {
        Some("Command not defined")
    } else if str_equal(code, "I001") {
        Some("Invalid stepper")
    } else if str_equal(code, "I002") {
        Some("Invalid stepper state")
    } else if str_equal(code, "I003") {
        Some("Invalid limit switch conversion")
    } else {
        None
    }
}

/// Gear ratio of a joint in thousandths, if the joint exists.
pub fn get_reduction_ratio(joint_id: u8) -> (ratio: Option<u32>)
    ensures
        ratio == match joint_table(joint_id as int) {
            Some(joint) => Some(joint.reduction_ratio),
            None => None,
        },
{
    if joint_id > 6 {
        return None;
    }
    match lookup_joint(joint_id as i8) {
        Ok(joint) => Some(joint.reduction_ratio),
        Err(_) => None,
    }
}

/// Upper end of a joint's travel in thousandths of a degree, if the joint exists.
pub fn get_max_angle(joint_id: u8) -> (angle: Option<u32>)
    ensures
        angle == match joint_table(joint_id as int) {
            Some(joint) => Some(joint.max_angle),
            None => None,
        },
{
    if joint_id > 6 {
        return None;
    }
    match lookup_joint(joint_id as i8) {
        Ok(joint) => Some(joint.max_angle),
        Err(_) => None,
    }
}

/// Step resolution of a joint's motor in thousandths of a degree, if the joint exists.
pub fn get_degrees_per_step(joint_id: u8) -> (resolution: Option<u32>)
    ensures
        resolution == match joint_table(joint_id as int) {
            Some(joint) => Some(joint.degrees_per_step),
            None => None,
        },
{
    if joint_id > 6 {
        return None;
    }
    match lookup_joint(joint_id as i8) {
        Ok(joint) => Some(joint.degrees_per_step),
        Err(_) => None,
    }
}

/// Whether commanded steps change sign for a joint, if the joint exists.
pub fn get_direction_inverted(joint_id: u8) -> (inverted: Option<bool>)
    ensures
        inverted == match joint_table(joint_id as int) {
            Some(joint) => Some(joint.direction_inverted),
            None => None,
        },
{
    if joint_id > 6 {
        return None;
    }
    match lookup_joint(joint_id as i8) {
        Ok(joint) => Some(joint.direction_inverted),
        Err(_) => None,
    }
}

/// The angle of each joint in thousandths of a degree, or nothing where it is unknown.
#[derive(Debug, Clone, Copy, PartialEq, Eq)]
pub struct SteppersAngles {
    pub j1: Option<i64>,
    pub j2: Option<i64>,
    pub j3: Option<i64>,
    pub j4: Option<i64>,
    pub j5: Option<i64>,
    pub j6: Option<i64>,
}

impl SteppersAngles {
    /// The six angles in the order of the joints.
    pub open spec fn view(&self) -> Seq<Option<i64>> {
        seq![self.j1, self.j2, self.j3, self.j4, self.j5, self.j6]
    }

    /// Names the six entries of a list of angles.
    pub fn from_array(angles: &[Option<i64>; 6]) -> (named: SteppersAngles)
        ensures
            named@ == angles@,
    {
        let named = SteppersAngles {
            j1: angles[0],
            j2: angles[1],
            j3: angles[2],
            j4: angles[3],
            j5: angles[4],
            j6: angles[5],
        };
        assert(named@ =~= angles@);
        named
    }
}

} // verus!

//! The joints of the arm and their mechanical constants.

use crate::error::RobotError;
use vstd::prelude::*;

verus! {

/// Number of joints of the arm; they are numbered from 1.
pub const JOINT_COUNT: usize = 6;

/// Number of thousandths in a whole.
pub const SCALE: u32 = 1_000;

/// Largest step resolution a joint may have: one full turn per step, in thousandths of a degree.
pub const MAX_DEGREES_PER_STEP: u32 = 360_000;

/// One rotational axis of the arm. The three quantities are in thousandths.
#[derive(Debug, Clone, Copy, PartialEq, Eq)]
pub struct Joint {
    /// Number of the joint, from 1 to 6.
    pub id: u8,
    /// Motor revolutions per joint revolution.
    pub reduction_ratio: u32,
    /// Degrees that the motor turns in one step.
    pub degrees_per_step: u32,
    /// Upper end of the joint's travel, in degrees; the lower end is its negative.
    pub max_angle: u32,
    /// Whether the home switch sits on the positive side, so that commanded steps change sign.
    pub direction_inverted: bool,
}

impl Joint {
    /// A joint is well formed when its id is one of the six, its gear ratio is not zero
    /// and one step turns the motor by more than nothing and at most a full turn.
    pub open spec fn wf(&self) -> bool {
        &&& 1 <= self.id <= JOINT_COUNT
        &&& self.reduction_ratio > 0
        &&& 0 < self.degrees_per_step <= MAX_DEGREES_PER_STEP
    }
}

/// The table of joints: what is configured for the joint numbered `id`.
pub open spec fn joint_table(id: int) -> Option<Joint> {
    if id == 1 {
        Some(
            Joint {
                id: 1,
                reduction_ratio: 6_250,
                degrees_per_step: 1_800,
                max_angle: 270_000,
                direction_inverted: false,
            },
        )
    } else if id == 2 {
        Some(
            Joint {
                id: 2,
                reduction_ratio: 5_000,
                degrees_per_step: 350,
                max_angle: 100_000,
                direction_inverted: false,
            },
        )
    } else if id == 3 {
        Some(
            Joint {
                id: 3,
                reduction_ratio: 6_250,
                degrees_per_step: 1_800,
                max_angle: 120_000,
                direction_inverted: true,
            },
        )
    } else if id == 4 {
        Some(
            Joint {
                id: 4,
                reduction_ratio: 3_750,
                degrees_per_step: 1_800,
                max_angle: 270_000,
                direction_inverted: true,
            },
        )
    } else if id == 5 {
        Some(
            Joint {
                id: 5,
                reduction_ratio: 2_000,
                degrees_per_step: 900,
                max_angle: 45_000,
                direction_inverted: false,
            },
        )
    } else if id == 6 {
        Some(
            Joint {
                id: 6,
                reduction_ratio: 1_000,
                degrees_per_step: 1_800,
                max_angle: 360_000,
                direction_inverted: false,
            },
        )
    } else {
        None
    }
}

/// Looks a joint up by its number.
pub fn lookup_joint(joint_id: i8) -> (found: Result<Joint, RobotError>)
    ensures
        match joint_table(joint_id as int) {
            Some(joint) => found == Ok::<Joint, RobotError>(joint),
            None => found == Err::<Joint, RobotError>(RobotError::UnknownJoint { joint: joint_id }),
        },
        found matches Ok(joint) ==> joint.wf() && joint.id == joint_id,
{
    match joint_id {
        1 => Ok(
            Joint {
                id: 1,
                reduction_ratio: 6_250,
                degrees_per_step: 1_800,
                max_angle: 270_000,
                direction_inverted: false,
            },
        ),
        2 => Ok(
            Joint {
                id: 2,
                reduction_ratio: 5_000,
                degrees_per_step: 350,
                max_angle: 100_000,
                direction_inverted: false,
            },
        ),
        3 => Ok(
            Joint {
                id: 3,
                reduction_ratio: 6_250,
                degrees_per_step: 1_800,
                max_angle: 120_000,
                direction_inverted: true,
            },
        ),
        4 => Ok(
            Joint {
                id: 4,
                reduction_ratio: 3_750,
                degrees_per_step: 1_800,
                max_angle: 270_000,
                direction_inverted: true,
            },
        ),
        5 => Ok(
            Joint {
                id: 5,
                reduction_ratio: 2_000,
                degrees_per_step: 900,
                max_angle: 45_000,
                direction_inverted: false,
            },
        ),
        6 => Ok(
            Joint {
                id: 6,
                reduction_ratio: 1_000,
                degrees_per_step: 1_800,
                max_angle: 360_000,
                direction_inverted: false,
            },
        ),
        _ => Err(RobotError::UnknownJoint { joint: joint_id }),
    }
}

} // verus!

use robert_core::constants::{
    get_degrees_per_step, get_direction_inverted, get_error_message, get_max_angle,
    get_reduction_ratio, CommandCodes, ResponseCodes, SteppersAngles, PARAMETERS_MULTIPLIER,
};
use robert_core::error::RobotError;
use robert_core::joint::{lookup_joint, Joint};

#[test]
fn command_codes_are_the_opcodes() {
    assert_eq!(CommandCodes::MOVE, "MOVE>");
    assert_eq!(CommandCodes::CHECK, "CHECK>");
    assert_eq!(CommandCodes::SETVEL, "SETVEL>");
    assert_eq!(CommandCodes::SETACC, "SETACC>");
    assert_eq!(CommandCodes::TOGGLE, "TOGGLE>");
    assert_eq!(CommandCodes::CALIBRATE, "CALIBRATE>");
    assert_eq!(CommandCodes::STATE, "STATE>");
    assert_eq!(CommandCodes::STEPS, "STEPS>");
    assert_eq!(CommandCodes::PARAMS, "PARAMS>");
}

#[test]
fn response_codes_are_the_markers() {
    assert_eq!(ResponseCodes::CONNECTED_RESPONSE, "CONNECTED");
    assert_eq!(ResponseCodes::CALIBRATION_RESPONSE, "[CALIBRATION];");
    assert_eq!(ResponseCodes::STATE_RESPONSE, "[STATE];");
    assert_eq!(ResponseCodes::STEPS_RESPONSE, "[STEPS];");
    assert_eq!(ResponseCodes::PARAMS_RESPONSE, "[PARAMS];");
    assert_eq!(PARAMETERS_MULTIPLIER, 10);
}

#[test]
fn error_messages_by_code() {
    assert_eq!(get_error_message("C001"), Some("Command was not properly formatted"));
    assert_eq!(get_error_message("C002"), Some("Command not defined"));
    assert_eq!(get_error_message("I001"), Some("Invalid stepper"));
    assert_eq!(get_error_message("I002"), Some("Invalid stepper state"));
    assert_eq!(get_error_message("I003"), Some("Invalid limit switch conversion"));
}

#[test]
fn error_message_of_unknown_code_is_none() {
    assert_eq!(get_error_message("I004"), None);
    assert_eq!(get_error_message("c001"), None);
    assert_eq!(get_error_message("C001 "), None);
    assert_eq!(get_error_message("C00"), None);
    assert_eq!(get_error_message(""), None);
    assert_eq!(get_error_message("é"), None);
}

#[test]
fn reduction_ratios_in_thousandths() {
    assert_eq!(get_reduction_ratio(1), Some(6_250));
    assert_eq!(get_reduction_ratio(2), Some(5_000));
    assert_eq!(get_reduction_ratio(3), Some(6_250));
    assert_eq!(get_reduction_ratio(4), Some(3_750));
    assert_eq!(get_reduction_ratio(5), Some(2_000));
    assert_eq!(get_reduction_ratio(6), Some(1_000));
    assert_eq!(get_reduction_ratio(0), None);
    assert_eq!(get_reduction_ratio(7), None);
    assert_eq!(get_reduction_ratio(255), None);
}

#[test]
fn max_angles_in_thousandths_of_a_degree() {
    assert_eq!(get_max_angle(1), Some(270_000));
    assert_eq!(get_max_angle(2), Some(100_000));
    assert_eq!(get_max_angle(3), Some(120_000));
    assert_eq!(get_max_angle(4), Some(270_000));
    assert_eq!(get_max_angle(5), Some(45_000));
    assert_eq!(get_max_angle(6), Some(360_000));
    assert_eq!(get_max_angle(0), None);
    assert_eq!(get_max_angle(7), None);
}

#[test]
fn degrees_per_step_in_thousandths_of_a_degree() {
    assert_eq!(get_degrees_per_step(1), Some(1_800));
    assert_eq!(get_degrees_per_step(2), Some(350));
    assert_eq!(get_degrees_per_step(3), Some(1_800));
    assert_eq!(get_degrees_per_step(4), Some(1_800));
    assert_eq!(get_degrees_per_step(5), Some(900));
    assert_eq!(get_degrees_per_step(6), Some(1_800));
    assert_eq!(get_degrees_per_step(0), None);
    assert_eq!(get_degrees_per_step(200), None);
}

#[test]
fn direction_inversion_by_joint() {
    assert_eq!(get_direction_inverted(1), Some(false));
    assert_eq!(get_direction_inverted(2), Some(false));
    assert_eq!(get_direction_inverted(3), Some(true));
    assert_eq!(get_direction_inverted(4), Some(true));
    assert_eq!(get_direction_inverted(5), Some(false));
    assert_eq!(get_direction_inverted(6), Some(false));
    assert_eq!(get_direction_inverted(9), None);
}

#[test]
fn lookup_joint_returns_the_table_row() {
    assert_eq!(
        lookup_joint(4),
        Ok(Joint {
            id: 4,
            reduction_ratio: 3_750,
            degrees_per_step: 1_800,
            max_angle: 270_000,
            direction_inverted: true,
        })
    );
}

#[test]
fn lookup_joint_fails_outside_the_configured_set() {
    assert_eq!(lookup_joint(0), Err(RobotError::UnknownJoint { joint: 0 }));
    assert_eq!(lookup_joint(7), Err(RobotError::UnknownJoint { joint: 7 }));
    assert_eq!(lookup_joint(-1), Err(RobotError::UnknownJoint { joint: -1 }));
    assert_eq!(lookup_joint(127), Err(RobotError::UnknownJoint { joint: 127 }));
}

#[test]
fn steppers_angles_names_the_six_entries() {
    let named = SteppersAngles::from_array(&[Some(1), None, Some(3), Some(-4), None, Some(6)]);
    assert_eq!(
        named,
        SteppersAngles { j1: Some(1), j2: None, j3: Some(3), j4: Some(-4), j5: None, j6: Some(6) }
    );
}

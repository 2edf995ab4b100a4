use robert_core::error::RobotError;

#[test]
fn messages_of_the_transport_failures() {
    assert_eq!(RobotError::TransportWriteError.message(), "Failed to write to serial port");
    assert_eq!(RobotError::TransportReadError.message(), "Error reading from serial port");
    assert_eq!(RobotError::ResponseTimeout.message(), "Timeout while waiting for response");
    assert_eq!(RobotError::NotConnected.message(), "No active serial connection.");
}

#[test]
fn message_of_a_device_error() {
    let failure = RobotError::DeviceError { code: "I001", message: "Invalid stepper" };
    assert_eq!(failure.message(), "I001: Invalid stepper");
}

#[test]
fn message_of_a_failed_connection() {
    let failure = RobotError::ConnectionFailed { port: "/dev/ttyUSB0".to_string(), attempts: 3 };
    assert_eq!(failure.message(), "Failed to connect to port: /dev/ttyUSB0 after 3 attempts.");
    let many = RobotError::ConnectionFailed { port: "COM3".to_string(), attempts: u32::MAX };
    assert_eq!(many.message(), "Failed to connect to port: COM3 after 4294967295 attempts.");
}

#[test]
fn messages_of_the_joint_failures() {
    assert_eq!(RobotError::UnknownJoint { joint: 7 }.message(), "Invalid Joint: 7");
    assert_eq!(RobotError::UnknownJoint { joint: -128 }.message(), "Invalid Joint: -128");
    assert_eq!(RobotError::UnknownJoint { joint: 0 }.message(), "Invalid Joint: 0");
    assert_eq!(
        RobotError::JointLimitExceeded { joint: 2 }.message(),
        "Target angle exceeds joint limits for J2"
    );
    assert_eq!(
        RobotError::UnknownCurrentAngle { joint: 5 }.message(),
        "Current angle for J5 is unknown"
    );
}

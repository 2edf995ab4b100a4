use robert_core::constants::SteppersAngles;
use robert_core::drive::{
    steps_to_angles, DrivePhase, DriveSession, DriveStep, DriveTurn, StepperSnapshot,
    NOTHING_TO_MOVE,
};
use robert_core::error::RobotError;
use robert_core::joint::lookup_joint;
use robert_core::kinematics::steps_to_angle;
use robert_core::transport::classify_response;

fn exchange(step: DriveStep) -> (DriveSession, String, u64) {
    match step {
        DriveStep::Exchange(session, command, millis) => (session, command, millis),
        other => panic!("expected an exchange, got {:?}", other),
    }
}

#[test]
fn steps_to_angles_converts_each_known_count() {
    assert_eq!(
        steps_to_angles(&[Some(200), None, Some(-100), Some(10), Some(2), Some(1)]),
        [Some(57_600), None, Some(-28_800), Some(4_800), Some(900), Some(1_800)]
    );
    assert_eq!(steps_to_angles(&[None; 6]), [None; 6]);
}

#[test]
fn steps_exchange_yields_angles() {
    let response = classify_response(b"[STEPS];J1_200;J2_UNKNOWN;~").unwrap();
    let mut snapshot = StepperSnapshot::new();
    let angles = snapshot.record_steps(&response);
    let joint_one = lookup_joint(1).unwrap();
    assert_eq!(angles, [Some(steps_to_angle(&joint_one, 200)), None, None, None, None, None]);
    assert_eq!(angles[0], Some(57_600));
    assert_eq!(snapshot.steps, [Some(200), None, None, None, None, None]);
    assert_eq!(snapshot.angles(), angles);
}

#[test]
fn new_snapshot_knows_nothing() {
    let snapshot = StepperSnapshot::new();
    assert_eq!(snapshot.enabled, [false; 6]);
    assert_eq!(snapshot.steps, [None; 6]);
    assert_eq!(snapshot.angles(), [None; 6]);
}

#[test]
fn record_states_keeps_the_steps() {
    let mut snapshot = StepperSnapshot::new();
    snapshot.record_steps("[STEPS];J1_5;~");
    let states = snapshot.record_states("[STATE];J1_ENABLED;J2_UNKNOWN;~");
    assert_eq!(states, [true, false, false, false, false, false]);
    assert_eq!(snapshot.enabled, states);
    assert_eq!(snapshot.steps, [Some(5), None, None, None, None, None]);
    snapshot.record_steps("[STEPS];J2_6;~");
    assert_eq!(snapshot.enabled, states);
    assert_eq!(snapshot.steps, [None, Some(6), None, None, None, None]);
}

#[test]
fn drive_begins_by_asking_for_the_steps() {
    let (session, command, millis) = exchange(DriveSession::begin(vec![(1, 57_600)]));
    assert_eq!(command, "STEPS>");
    assert_eq!(millis, 8_000);
    assert_eq!(session.phase, DrivePhase::Refreshing);
    assert_eq!(session.targets, vec![(1, 57_600)]);
}

#[test]
fn drive_moves_and_confirms() {
    let mut snapshot = StepperSnapshot::new();
    let (session, _, _) = exchange(DriveSession::begin(vec![(1, 57_600), (3, 28_800)]));
    let turn = session.step(&mut snapshot, Ok("[STEPS];J1_0;J2_UNKNOWN;J3_0;~".to_string()));
    assert_eq!(
        turn.report,
        Some(SteppersAngles { j1: Some(0), j2: None, j3: Some(0), j4: None, j5: None, j6: None })
    );
    assert_eq!(snapshot.steps, [Some(0), None, Some(0), None, None, None]);
    let (session, command, millis) = exchange(turn.next);
    assert_eq!(command, "MOVE>J1_200;J3_-100;");
    assert_eq!(millis, 20_000);
    assert_eq!(session.phase, DrivePhase::Moving);

    let turn = session.step(&mut snapshot, Ok("MOVED~".to_string()));
    assert_eq!(turn.report, None);
    assert_eq!(snapshot.steps, [Some(0), None, Some(0), None, None, None]);
    let (session, command, millis) = exchange(turn.next);
    assert_eq!(command, "STEPS>");
    assert_eq!(millis, 8_000);
    assert_eq!(session.phase, DrivePhase::Confirming);
    assert_eq!(session.reply, "MOVED~");

    let turn = session.step(&mut snapshot, Ok("[STEPS];J1_200;J2_UNKNOWN;J3_-100;~".to_string()));
    assert_eq!(
        turn,
        DriveTurn {
            next: DriveStep::Done(Ok(
                "Successfully sent move command. Response: MOVED~".to_string()
            )),
            report: Some(SteppersAngles {
                j1: Some(57_600),
                j2: None,
                j3: Some(-28_800),
                j4: None,
                j5: None,
                j6: None
            }),
        }
    );
    assert_eq!(snapshot.steps, [Some(200), None, Some(-100), None, None, None]);
}

#[test]
fn drive_without_targets_sends_no_move() {
    let mut snapshot = StepperSnapshot::new();
    let (session, _, _) = exchange(DriveSession::begin(vec![]));
    let turn = session.step(&mut snapshot, Ok("[STEPS];J1_5;~".to_string()));
    assert_eq!(turn.next, DriveStep::Done(Ok(NOTHING_TO_MOVE.to_string())));
    assert_eq!(
        turn.report,
        Some(SteppersAngles { j1: Some(1_440), j2: None, j3: None, j4: None, j5: None, j6: None })
    );
    assert_eq!(snapshot.steps, [Some(5), None, None, None, None, None]);
}

#[test]
fn drive_fails_on_the_first_request_that_cannot_be_met() {
    let mut snapshot = StepperSnapshot::new();
    let (session, _, _) = exchange(DriveSession::begin(vec![(1, 0), (2, 0)]));
    let turn = session.step(&mut snapshot, Ok("[STEPS];J1_0;J2_UNKNOWN;~".to_string()));
    assert_eq!(turn.next, DriveStep::Done(Err(RobotError::UnknownCurrentAngle { joint: 2 })));

    let (session, _, _) = exchange(DriveSession::begin(vec![(8, 0)]));
    let turn = session.step(&mut snapshot, Ok("[STEPS];J1_0;~".to_string()));
    assert_eq!(turn.next, DriveStep::Done(Err(RobotError::UnknownJoint { joint: 8 })));

    let (session, _, _) = exchange(DriveSession::begin(vec![(1, 270_001)]));
    let turn = session.step(&mut snapshot, Ok("[STEPS];J1_0;~".to_string()));
    assert_eq!(turn.next, DriveStep::Done(Err(RobotError::JointLimitExceeded { joint: 1 })));
}

#[test]
fn failed_move_leaves_the_snapshot_unmodified() {
    let mut snapshot = StepperSnapshot::new();
    snapshot.record_states("[STATE];J1_ENABLED;~");
    let (session, _, _) = exchange(DriveSession::begin(vec![(1, 28_800)]));
    let turn = session.step(&mut snapshot, Ok("[STEPS];J1_50;J2_60;~".to_string()));
    let (session, command, _) = exchange(turn.next);
    assert_eq!(command, "MOVE>J1_50;");
    let before = snapshot;

    let outcome = classify_response(b"I001~");
    assert_eq!(
        outcome,
        Err(RobotError::DeviceError { code: "I001", message: "Invalid stepper" })
    );
    let turn = session.step(&mut snapshot, outcome);
    assert_eq!(
        turn,
        DriveTurn {
            next: DriveStep::Done(Err(RobotError::DeviceError {
                code: "I001",
                message: "Invalid stepper"
            })),
            report: None,
        }
    );
    assert_eq!(snapshot, before);
    assert_eq!(snapshot.steps, [Some(50), Some(60), None, None, None, None]);
    assert_eq!(snapshot.angles()[0], Some(14_400));
}

#[test]
fn failed_refresh_ends_the_drive() {
    let mut snapshot = StepperSnapshot::new();
    snapshot.record_steps("[STEPS];J1_1;~");
    let before = snapshot;
    let (session, _, _) = exchange(DriveSession::begin(vec![(1, 0)]));
    let turn = session.step(&mut snapshot, Err(RobotError::ResponseTimeout));
    assert_eq!(turn.next, DriveStep::Done(Err(RobotError::ResponseTimeout)));
    assert_eq!(turn.report, None);
    assert_eq!(snapshot, before);
}

#[test]
fn failed_confirmation_ends_the_drive() {
    let mut snapshot = StepperSnapshot::new();
    let (session, _, _) = exchange(DriveSession::begin(vec![(6, 1_800)]));
    let turn = session.step(&mut snapshot, Ok("[STEPS];J6_0;~".to_string()));
    let (session, _, _) = exchange(turn.next);
    let turn = session.step(&mut snapshot, Ok("OK~".to_string()));
    let (session, _, _) = exchange(turn.next);
    let turn = session.step(&mut snapshot, Err(RobotError::TransportReadError));
    assert_eq!(turn.next, DriveStep::Done(Err(RobotError::TransportReadError)));
    assert_eq!(snapshot.steps, [None, None, None, None, None, Some(0)]);
}

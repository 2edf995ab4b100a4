//! Driving the arm to a set of joint angles.
//!
//! A move is relative to where the joints stand, so the step counts are asked
//! for first. The move command is composed from them and exchanged, and the
//! step counts are asked for once more, so that the snapshot shows where the
//! move has left the joints. [`DriveSession`] decides what is exchanged next;
//! whoever owns the port runs each exchange and reports how it ended.

use crate::commands::{
    lemma_opcodes_plain, success_message, success_text, MOVE_TIMEOUT_MS, STEPS_TIMEOUT_MS,
};
use crate::constants::{CommandCodes, SteppersAngles};
use crate::error::RobotError;
use crate::joint::{joint_table, lookup_joint};
use crate::kinematics::{compose_move_command, first_rejection, move_clauses, steps_to_angle};
use crate::responses::{
    parse_state_response, parse_steps_response, reported_states, reported_steps,
};
use crate::text::is_plain;
use vstd::prelude::*;
use vstd::utf8::encode_utf8;

verus! {

/// What the caller is told when there was no joint to move.
pub const NOTHING_TO_MOVE: &'static str = "No joints to move: nothing was sent.";

/// The angle of the joint with index `index` at the given step count, if the count is known.
pub open spec fn joint_angle(index: int, steps: Option<i32>) -> Option<i64> {
    match steps {
        Some(count) => Some(joint_table(index + 1)->0.angle_of_steps(count as int) as i64),
        None => None,
    }
}

/// The angle of each joint at the given step counts.
pub open spec fn angles_of(steps: Seq<Option<i32>>) -> Seq<Option<i64>> {
    Seq::new(6, |index: int| joint_angle(index, steps[index]))
}

/// Converts the step count of each joint to its angle.
pub fn steps_to_angles(steps: &[Option<i32>; 6]) -> (angles: [Option<i64>; 6])
    ensures
        angles@ == angles_of(steps@),
{
    let mut angles: [Option<i64>; 6] = [None; 6];
    let mut index: usize = 0;
    while index < 6
        invariant
            index <= 6,
            forall|k: int| 0 <= k < index ==> angles@[k] == joint_angle(k, steps@[k]),
        decreases 6 - index,
    {
        let angle = match steps[index] {
            Some(count) => match lookup_joint((index + 1) as i8) {
                Ok(joint) => Some(steps_to_angle(&joint, count)),
                Err(_) => None,
            },
            None => None,
        };
        angles[index] = angle;
        index += 1;
    }
    assert(angles@ =~= angles_of(steps@));
    angles
}

/// What is known of the steppers: which are enabled, and where each joint stands.
#[derive(Debug, Clone, Copy, PartialEq, Eq)]
pub struct StepperSnapshot {
    /// For each joint, whether its stepper is enabled.
    pub enabled: [bool; 6],
    /// For each joint its step count, or nothing where it is unknown.
    pub steps: [Option<i32>; 6],
}

impl StepperSnapshot {
    /// The snapshot before any report: no stepper enabled, no position known.
    pub fn new() -> (snapshot: StepperSnapshot)
        ensures
            snapshot.enabled@ == Seq::new(6, |i: int| false),
            snapshot.steps@ == Seq::new(6, |i: int| None::<i32>),
    {
        let snapshot = StepperSnapshot { enabled: [false; 6], steps: [None; 6] };
        assert(snapshot.enabled@ =~= Seq::new(6, |i: int| false));
        assert(snapshot.steps@ =~= Seq::new(6, |i: int| None::<i32>));
        snapshot
    }

    /// Takes the enabled flags from a state report and hands them out.
    pub fn record_states(&mut self, report: &str) -> (states: [bool; 6])
        ensures
            states@ == reported_states(encode_utf8(report@)),
            final(self).enabled == states,
            final(self).steps == old(self).steps,
    {
        let states = parse_state_response(report);
        self.enabled = states;
        states
    }

    /// Takes the step counts from a step report and hands out the joint angles.
    pub fn record_steps(&mut self, report: &str) -> (angles: [Option<i64>; 6])
        ensures
            final(self).steps@ == reported_steps(encode_utf8(report@)),
            final(self).enabled == old(self).enabled,
            angles@ == angles_of(final(self).steps@),
    {
        self.steps = parse_steps_response(report);
        steps_to_angles(&self.steps)
    }

    /// The angle of each joint, as far as its position is known.
    pub fn angles(&self) -> (angles: [Option<i64>; 6])
        ensures
            angles@ == angles_of(self.steps@),
    {
        steps_to_angles(&self.steps)
    }
}

/// Which exchange a drive is waiting for.
#[derive(Debug, Clone, Copy, PartialEq, Eq, Structural)]
pub enum DrivePhase {
    /// The step counts before the move.
    Refreshing,
    /// The move itself.
    Moving,
    /// The step counts after the move.
    Confirming,
}

/// A drive that is under way.
#[derive(Debug, PartialEq, Eq)]
pub struct DriveSession {
    /// The joints to move, each with its target angle in thousandths of a degree.
    pub targets: Vec<(i8, i64)>,
    /// Which exchange the drive is waiting for.
    pub phase: DrivePhase,
    /// The device's response to the move command, once it has come.
    pub reply: String,
}

/// What is to be done next for a drive.
#[derive(Debug, PartialEq, Eq)]
pub enum DriveStep {
    /// Exchange this command, allowing this many milliseconds for the response.
    Exchange(DriveSession, String, u64),
    /// The drive is over.
    Done(Result<String, RobotError>),
}

/// One step of a drive: what to do next, and the joint angles to publish if this
/// step has learned them anew.
#[derive(Debug, PartialEq, Eq)]
pub struct DriveTurn {
    pub next: DriveStep,
    pub report: Option<SteppersAngles>,
}

/// Whether `next` asks for the step counts, with `session` as the drive's new state.
pub open spec fn asks_for_steps(next: DriveStep, targets: Seq<(i8, i64)>, phase: DrivePhase, reply: Seq<char>) -> bool {
    next matches DriveStep::Exchange(session, command, millis) && command@ == CommandCodes::STEPS@
        && millis == STEPS_TIMEOUT_MS && session.targets@ == targets && session.phase == phase
        && session.reply@ == reply
}

impl DriveSession {
    /// Begins a drive to the given targets by asking where the joints stand.
    pub fn begin(targets: Vec<(i8, i64)>) -> (first: DriveStep)
        ensures
            asks_for_steps(first, targets@, DrivePhase::Refreshing, Seq::<char>::empty()),
            first matches DriveStep::Exchange(_, command, _) && is_plain(command@),
    {
        proof {
            lemma_opcodes_plain();
        }
        DriveStep::Exchange(
            DriveSession { targets, phase: DrivePhase::Refreshing, reply: String::new() },
            String::from_str(CommandCodes::STEPS),
            STEPS_TIMEOUT_MS,
        )
    }

    /// Takes the drive one step on, given how the exchange that was asked for ended.
    ///
    /// A failed exchange ends the drive with that failure and leaves the snapshot as
    /// it was. The report before the move goes into the snapshot; the move command
    /// is composed from it, and the first request that cannot be met ends the drive.
    /// With no joint to move nothing is sent and the drive is over. The device's
    /// response to the move is kept, and the report after the move goes into the
    /// snapshot before the caller is told of the response.
    pub fn step(self, snapshot: &mut StepperSnapshot, outcome: Result<String, RobotError>) -> (turn:
        DriveTurn)
        ensures
            turn.next matches DriveStep::Exchange(_, command, _) ==> is_plain(command@),
            match outcome {
                Err(failure) => {
                    &&& turn.next == DriveStep::Done(Err(failure))
                    &&& turn.report is None
                    &&& *final(snapshot) == *old(snapshot)
                },
                Ok(text) => match self.phase {
                    DrivePhase::Refreshing => {
                        let steps = reported_steps(encode_utf8(text@));
                        &&& final(snapshot).steps@ == steps
                        &&& final(snapshot).enabled == old(snapshot).enabled
                        &&& turn.report matches Some(angles) && angles@ == angles_of(steps)
                        &&& match first_rejection(angles_of(steps), self.targets@) {
                            Some(reason) => turn.next == DriveStep::Done(Err(reason)),
                            None => if self.targets@.len() == 0 {
                                turn.next matches DriveStep::Done(Ok(message)) && message@
                                    == NOTHING_TO_MOVE@
                            } else {
                                turn.next matches DriveStep::Exchange(session, command, millis)
                                    && command@ == CommandCodes::MOVE@ + move_clauses(
                                    angles_of(steps),
                                    self.targets@,
                                ) && millis == MOVE_TIMEOUT_MS && session.targets@
                                    == self.targets@ && session.phase is Moving && session.reply@
                                    == self.reply@
                            },
                        }
                    },
                    DrivePhase::Moving => {
                        &&& asks_for_steps(
                            turn.next,
                            self.targets@,
                            DrivePhase::Confirming,
                            text@,
                        )
                        &&& turn.report is None
                        &&& *final(snapshot) == *old(snapshot)
                    },
                    DrivePhase::Confirming => {
                        let steps = reported_steps(encode_utf8(text@));
                        &&& final(snapshot).steps@ == steps
                        &&& final(snapshot).enabled == old(snapshot).enabled
                        &&& turn.report matches Some(angles) && angles@ == angles_of(steps)
                        &&& turn.next matches DriveStep::Done(Ok(message)) && message@
                            == success_text("move"@, self.reply@)
                    },
                },
            },
    {
        proof {
            lemma_opcodes_plain();
        }
        let text = match outcome {
            Ok(text) => text,
            Err(failure) => {
                return DriveTurn { next: DriveStep::Done(Err(failure)), report: None };
            },
        };
        match self.phase {
            DrivePhase::Refreshing => {
                let angles = snapshot.record_steps(text.as_str());
                let report = Some(SteppersAngles::from_array(&angles));
                let next = match compose_move_command(&angles, self.targets.as_slice()) {
                    Err(reason) => DriveStep::Done(Err(reason)),
                    Ok(command) => {
                        if self.targets.len() == 0 {
                            DriveStep::Done(Ok(String::from_str(NOTHING_TO_MOVE)))
                        } else {
                            DriveStep::Exchange(
                                DriveSession {
                                    targets: self.targets,
                                    phase: DrivePhase::Moving,
                                    reply: self.reply,
                                },
                                command,
                                MOVE_TIMEOUT_MS,
                            )
                        }
                    },
                };
                DriveTurn { next, report }
            },
            DrivePhase::Moving => DriveTurn {
                next: DriveStep::Exchange(
                    DriveSession {
                        targets: self.targets,
                        phase: DrivePhase::Confirming,
                        reply: text,
                    },
                    String::from_str(CommandCodes::STEPS),
                    STEPS_TIMEOUT_MS,
                ),
                report: None,
            },
            DrivePhase::Confirming => {
                let angles = snapshot.record_steps(text.as_str());
                DriveTurn {
                    next: DriveStep::Done(Ok(success_message("move", self.reply.as_str()))),
                    report: Some(SteppersAngles::from_array(&angles)),
                }
            },
        }
    }
}

} // verus!

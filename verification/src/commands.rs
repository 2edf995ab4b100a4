//! The text of the commands that the device understands.
//!
//! A command is an opcode followed by its payload. The terminator is not part
//! of it: the transport appends it when the command is framed.

use crate::constants::{CommandCodes, PARAMETERS_MULTIPLIER};
use crate::error::RobotError;
use crate::joint::{joint_table, lookup_joint};
use crate::text::{
    decimal_text, is_plain, lemma_decimal_text_plain, lemma_plain_concat, push_decimal, str_equal,
};
use vstd::prelude::*;

verus! {

/// Time allowed for the response to a command that asks for no other, in milliseconds.
pub const DEFAULT_TIMEOUT_MS: u64 = 3_000;

/// Time allowed for the report of the step counts, in milliseconds.
pub const STEPS_TIMEOUT_MS: u64 = 8_000;

/// Time allowed for a move to a set of angles, in milliseconds.
pub const MOVE_TIMEOUT_MS: u64 = 20_000;

/// Time allowed for homing, in milliseconds.
pub const CALIBRATE_TIMEOUT_MS: u64 = 35_000;

/// The clause that gives joint `joint_id` the value `value`.
pub open spec fn joint_clause(joint_id: int, value: Seq<char>) -> Seq<char> {
    "J"@ + decimal_text(joint_id) + "_"@ + value + ";"@
}

/// The clause that names joint `joint_id` and nothing else.
pub open spec fn joint_name_clause(joint_id: int) -> Seq<char> {
    "J"@ + decimal_text(joint_id) + ";"@
}

/// The clauses that name each of `joints`, in their order.
pub open spec fn joint_name_clauses(joints: Seq<i8>) -> Seq<char>
    decreases joints.len(),
{
    if joints.len() == 0 {
        Seq::empty()
    } else {
        joint_name_clause(joints[0] as int) + joint_name_clauses(joints.drop_first())
    }
}

/// The word that switches a stepper on or off.
pub open spec fn switch_word(enabled: bool) -> Seq<char> {
    if enabled {
        "ON"@
    } else {
        "OFF"@
    }
}

/// Every opcode is plain text: it can stand in a command.
pub proof fn lemma_opcodes_plain()
    ensures
        is_plain(CommandCodes::MOVE@),
        is_plain(CommandCodes::CHECK@),
        is_plain(CommandCodes::SETVEL@),
        is_plain(CommandCodes::SETACC@),
        is_plain(CommandCodes::TOGGLE@),
        is_plain(CommandCodes::CALIBRATE@),
        is_plain(CommandCodes::STATE@),
        is_plain(CommandCodes::STEPS@),
        is_plain(CommandCodes::PARAMS@),
{
    reveal_strlit("MOVE>");
    reveal_strlit("CHECK>");
    reveal_strlit("SETVEL>");
    reveal_strlit("SETACC>");
    reveal_strlit("TOGGLE>");
    reveal_strlit("CALIBRATE>");
    reveal_strlit("STATE>");
    reveal_strlit("STEPS>");
    reveal_strlit("PARAMS>");
}

/// A clause that gives a joint a plain value is plain.
pub proof fn lemma_joint_clause_plain(joint_id: int, value: Seq<char>)
    requires
        is_plain(value),
    ensures
        is_plain(joint_clause(joint_id, value)),
{
    reveal_strlit("J");
    reveal_strlit("_");
    reveal_strlit(";");
    lemma_decimal_text_plain(joint_id);
    lemma_plain_concat("J"@, decimal_text(joint_id));
    lemma_plain_concat("J"@ + decimal_text(joint_id), "_"@);
    lemma_plain_concat("J"@ + decimal_text(joint_id) + "_"@, value);
    lemma_plain_concat("J"@ + decimal_text(joint_id) + "_"@ + value, ";"@);
}

/// A clause that names a joint is plain.
pub proof fn lemma_joint_name_clause_plain(joint_id: int)
    ensures
        is_plain(joint_name_clause(joint_id)),
{
    reveal_strlit("J");
    reveal_strlit(";");
    lemma_decimal_text_plain(joint_id);
    lemma_plain_concat("J"@, decimal_text(joint_id));
    lemma_plain_concat("J"@ + decimal_text(joint_id), ";"@);
}

/// What a word says of a switch: `ON` is on, `OFF` is off, and nothing else is a word for it.
pub open spec fn switch_of(word: Seq<char>) -> Option<bool> {
    if word == "ON"@ {
        Some(true)
    } else if word == "OFF"@ {
        Some(false)
    } else {
        None
    }
}

/// Reads the word for a switch.
pub fn switch_from_word(word: &str) -> (switch: Option<bool>)
    ensures
        switch == switch_of(word@),
{
    if str_equal(word, "ON") {
        Some(true)
    } else if str_equal(word, "OFF") {
        Some(false)
    } else {
        None
    }
}

/// Appends the clause that gives a joint a number of steps.
pub fn push_steps_clause(out: &mut String, joint_id: i8, steps: i64)
    ensures
        final(out)@ == old(out)@ + joint_clause(joint_id as int, decimal_text(steps as int)),
        is_plain(old(out)@) ==> is_plain(final(out)@),
{
    proof {
        lemma_decimal_text_plain(steps as int);
        lemma_joint_clause_plain(joint_id as int, decimal_text(steps as int));
        if is_plain(old(out)@) {
            lemma_plain_concat(
                old(out)@,
                joint_clause(joint_id as int, decimal_text(steps as int)),
            );
        }
    }
    out.append("J");
    push_decimal(out, joint_id as i64);
    out.append("_");
    push_decimal(out, steps);
    out.append(";");
    assert(out@ =~= old(out)@ + joint_clause(joint_id as int, decimal_text(steps as int)));
}

/// The command that sets the velocity: the value goes over the wire times ten.
pub fn velocity_command(velocity: i8) -> (command: String)
    ensures
        command@ == CommandCodes::SETVEL@ + decimal_text(velocity * PARAMETERS_MULTIPLIER),
        is_plain(command@),
{
    proof {
        lemma_opcodes_plain();
    }
    let mut command = String::from_str(CommandCodes::SETVEL);
    let factor: i64 = PARAMETERS_MULTIPLIER as i64;
    push_decimal(&mut command, (velocity as i64) * factor);
    command
}

/// The command that sets the acceleration: the value goes over the wire times ten.
pub fn acceleration_command(acceleration: i8) -> (command: String)
    ensures
        command@ == CommandCodes::SETACC@ + decimal_text(acceleration * PARAMETERS_MULTIPLIER),
        is_plain(command@),
{
    proof {
        lemma_opcodes_plain();
    }
    let mut command = String::from_str(CommandCodes::SETACC);
    let factor: i64 = PARAMETERS_MULTIPLIER as i64;
    push_decimal(&mut command, (acceleration as i64) * factor);
    command
}

/// The command that moves one joint by a number of steps, negated where the
/// joint's direction is inverted. A joint that does not exist is refused.
pub fn step_command(joint_id: i8, n_steps: i16) -> (command: Result<String, RobotError>)
    ensures
        match joint_table(joint_id as int) {
            Some(joint) => command matches Ok(text) && text@ == CommandCodes::MOVE@ + joint_clause(
                joint_id as int,
                decimal_text(joint.commanded(n_steps as int)),
            ),
            None => command == Err::<String, RobotError>(
                RobotError::UnknownJoint { joint: joint_id },
            ),
        },
        command matches Ok(text) ==> is_plain(text@),
{
    proof {
        lemma_opcodes_plain();
    }
    match lookup_joint(joint_id) {
        Ok(joint) => {
            let steps: i64 = if joint.direction_inverted {
                -(n_steps as i64)
            } else {
                n_steps as i64
            };
            let mut text = String::from_str(CommandCodes::MOVE);
            push_steps_clause(&mut text, joint_id, steps);
            Ok(text)
        },
        Err(e) => Err(e),
    }
}

/// The command that switches the stepper of one joint on or off.
pub fn toggle_command(joint_id: i8, enabled: bool) -> (command: String)
    ensures
        command@ == CommandCodes::TOGGLE@ + joint_clause(joint_id as int, switch_word(enabled)),
        is_plain(command@),
{
    proof {
        lemma_opcodes_plain();
        reveal_strlit("ON");
        reveal_strlit("OFF");
        lemma_joint_clause_plain(joint_id as int, switch_word(enabled));
        lemma_plain_concat(
            CommandCodes::TOGGLE@,
            joint_clause(joint_id as int, switch_word(enabled)),
        );
    }
    let mut command = String::from_str(CommandCodes::TOGGLE);
    command.append("J");
    push_decimal(&mut command, joint_id as i64);
    command.append("_");
    if enabled {
        command.append("ON");
    } else {
        command.append("OFF");
    }
    command.append(";");
    assert(command@ =~= CommandCodes::TOGGLE@ + joint_clause(
        joint_id as int,
        switch_word(enabled),
    ));
    command
}

/// The command that homes the given joints, in their order.
pub fn calibrate_command(joints: &[i8]) -> (command: String)
    ensures
        command@ == CommandCodes::CALIBRATE@ + joint_name_clauses(joints@),
        is_plain(command@),
{
    proof {
        lemma_opcodes_plain();
    }
    let mut command = String::from_str(CommandCodes::CALIBRATE);
    let mut i: usize = 0;
    assert(joints@.skip(0) =~= joints@);
    while i < joints.len()
        invariant
            i <= joints.len(),
            is_plain(command@),
            command@ + joint_name_clauses(joints@.skip(i as int)) == CommandCodes::CALIBRATE@
                + joint_name_clauses(joints@),
        decreases joints.len() - i,
    {
        let ghost before = command@;
        command.append("J");
        push_decimal(&mut command, joints[i] as i64);
        command.append(";");
        proof {
            let rest = joints@.skip(i as int);
            assert(rest.drop_first() =~= joints@.skip(i + 1));
            assert(rest[0] == joints@[i as int]);
            assert(command@ =~= before + joint_name_clause(joints@[i as int] as int));
            lemma_joint_name_clause_plain(joints@[i as int] as int);
            lemma_plain_concat(before, joint_name_clause(joints@[i as int] as int));
            assert(command@ + joint_name_clauses(joints@.skip(i + 1)) =~= before
                + joint_name_clauses(rest));
        }
        i += 1;
    }
    assert(command@ + joint_name_clauses(joints@.skip(i as int)) =~= command@);
    command
}

/// What the caller is told when the device has answered a command.
pub open spec fn success_text(operation: Seq<char>, response: Seq<char>) -> Seq<char> {
    "Successfully sent "@ + operation + " command. Response: "@ + response
}

/// Words the device's response to the command named `operation` for the caller.
pub fn success_message(operation: &str, response: &str) -> (message: String)
    ensures
        message@ == success_text(operation@, response@),
{
    let mut message = String::from_str("Successfully sent ");
    message.append(operation);
    message.append(" command. Response: ");
    message.append(response);
    message
}

} // verus!

//! Conversion between step counts and joint angles.
//!
//! Angles are whole thousandths of a degree. One step turns a joint by
//! `degrees_per_step / reduction_ratio` degrees, a quotient that is rounded to
//! the nearest whole number, halves away from zero, wherever it is used.

use crate::commands::{joint_clause, lemma_opcodes_plain, push_steps_clause};
use crate::constants::CommandCodes;
use crate::error::RobotError;
use crate::joint::{joint_table, lookup_joint, Joint, SCALE};
use crate::text::{decimal_text, is_plain};
use vstd::arithmetic::div_mod::{lemma_div_is_ordered, lemma_fundamental_div_mod_converse};
use vstd::arithmetic::div_mod::{lemma_div_nonincreasing, lemma_fundamental_div_mod};
use vstd::prelude::*;

verus! {

/// The quotient `n / d` rounded to the nearest integer, halves away from zero.
pub open spec fn round_half_away(n: int, d: int) -> int
    recommends
        d > 0,
{
    if n >= 0 {
        (2 * n + d) / (2 * d)
    } else {
        -((2 * (-n) + d) / (2 * d))
    }
}

/// The nearest value that a signed 32-bit step count can hold.
pub open spec fn saturate_steps(n: int) -> int {
    if n > i32::MAX {
        i32::MAX as int
    } else if n < i32::MIN {
        i32::MIN as int
    } else {
        n
    }
}

impl Joint {
    /// The angle that `steps` steps turn this joint by.
    pub open spec fn angle_of_steps(&self, steps: int) -> int {
        round_half_away(steps * (self.degrees_per_step * SCALE), self.reduction_ratio as int)
    }

    /// An angular distance as the motor must travel it: negated where the direction is inverted.
    pub open spec fn commanded(&self, distance: int) -> int {
        if self.direction_inverted {
            -distance
        } else {
            distance
        }
    }

    /// The number of steps from `current` to `target`, before it is fitted into 32 bits.
    pub open spec fn exact_steps_between(&self, current: int, target: int) -> int {
        round_half_away(
            self.commanded(target - current) * self.reduction_ratio,
            self.degrees_per_step * SCALE,
        )
    }

    /// The number of steps that take this joint from `current` to `target`.
    pub open spec fn steps_between(&self, current: int, target: int) -> int {
        saturate_steps(self.exact_steps_between(current, target))
    }

    /// Whether an angle lies within the joint's travel, which reaches as far below zero as above.
    pub open spec fn within_limits(&self, angle: int) -> bool {
        -self.max_angle <= angle <= self.max_angle
    }
}

/// The rounded quotient is within half a unit of the exact one.
pub proof fn lemma_round_half_away_bounds(n: int, d: int)
    requires
        d > 0,
    ensures
        -d <= 2 * n - 2 * (round_half_away(n, d) * d) <= d,
        n >= 0 ==> round_half_away(n, d) >= 0,
        n <= 0 ==> round_half_away(n, d) <= 0,
{
    let m = if n >= 0 {
        n
    } else {
        -n
    };
    let q = (2 * m + d) / (2 * d);
    lemma_fundamental_div_mod(2 * m + d, 2 * d);
    assert(2 * m + d == (2 * d) * q + (2 * m + d) % (2 * d));
    assert((2 * d) * q == 2 * (q * d)) by (nonlinear_arith);
    assert(q >= 0) by (nonlinear_arith)
        requires
            d > 0,
            2 * (q * d) + 2 * d > d,
    ;
    if n < 0 {
        assert((-q) * d == -(q * d)) by (nonlinear_arith);
    }
    if n == 0 {
        assert(q <= 0) by (nonlinear_arith)
            requires
                d > 0,
                2 * (q * d) <= d,
        ;
    }
}

/// An integer closer than half a unit to the exact quotient is the rounded quotient.
pub proof fn lemma_round_half_away_unique(n: int, d: int, r: int)
    requires
        d > 0,
        -d < 2 * n - 2 * (r * d) < d,
    ensures
        round_half_away(n, d) == r,
{
    if n >= 0 {
        assert((2 * d) * r == 2 * (r * d)) by (nonlinear_arith);
        lemma_fundamental_div_mod_converse(2 * n + d, 2 * d, r, 2 * n + d - 2 * (r * d));
    } else {
        assert((2 * d) * (-r) == -(2 * (r * d))) by (nonlinear_arith);
        lemma_fundamental_div_mod_converse(2 * (-n) + d, 2 * d, -r, 2 * (-n) + d + 2 * (r * d));
    }
}

/// A whole multiple of the divisor is divided exactly.
pub proof fn lemma_round_half_away_multiple(k: int, d: int)
    requires
        d > 0,
    ensures
        round_half_away(k * d, d) == k,
{
    assert(2 * (k * d) - 2 * (k * d) == 0);
    lemma_round_half_away_unique(k * d, d, k);
}

/// Rounding keeps the order of the numerators.
pub proof fn lemma_round_half_away_monotonic(a: int, b: int, d: int)
    requires
        d > 0,
        a <= b,
    ensures
        round_half_away(a, d) <= round_half_away(b, d),
{
    if a >= 0 {
        lemma_div_is_ordered(2 * a + d, 2 * b + d, 2 * d);
    } else if b < 0 {
        lemma_div_is_ordered(2 * (-b) + d, 2 * (-a) + d, 2 * d);
    } else {
        lemma_round_half_away_bounds(a, d);
        lemma_round_half_away_bounds(b, d);
    }
}

/// Rounding commutes with negation.
pub proof fn lemma_round_half_away_odd(n: int, d: int)
    requires
        d > 0,
    ensures
        round_half_away(-n, d) == -round_half_away(n, d),
{
    if n == 0 {
        assert(round_half_away(0, d) == 0) by {
            lemma_round_half_away_multiple(0, d);
            assert(0 * d == 0);
        }
    }
}

/// Divides and rounds to the nearest integer, halves away from zero.
fn rounded_quotient(n: i128, d: u64) -> (q: i128)
    requires
        d > 0,
        -0x1_0000_0000_0000_0000_0000_0000 <= n <= 0x1_0000_0000_0000_0000_0000_0000,
    ensures
        q == round_half_away(n as int, d as int),
{
    let magnitude: u128 = if n < 0 {
        (-n) as u128
    } else {
        n as u128
    };
    let doubled: u128 = 2 * magnitude + (d as u128);
    proof {
        lemma_div_nonincreasing(doubled as int, 2 * d);
    }
    let quotient: u128 = doubled / (2 * (d as u128));
    if n < 0 {
        -(quotient as i128)
    } else {
        quotient as i128
    }
}

/// The angle, in thousandths of a degree, that `steps` steps turn the joint by.
pub fn steps_to_angle(joint: &Joint, steps: i32) -> (angle: i64)
    requires
        joint.wf(),
    ensures
        angle == joint.angle_of_steps(steps as int),
{
    let scale: i128 = SCALE as i128;
    let per_step: i128 = (joint.degrees_per_step as i128) * scale;
    assert(-0x8000_0000 * 360_000_000 <= steps * per_step <= 0x8000_0000 * 360_000_000)
        by (nonlinear_arith)
        requires
            -0x8000_0000 <= steps <= 0x8000_0000,
            0 <= per_step <= 360_000_000,
    ;
    let n: i128 = (steps as i128) * per_step;
    let q = rounded_quotient(n, joint.reduction_ratio as u64);
    proof {
        let d = joint.reduction_ratio as int;
        lemma_round_half_away_bounds(n as int, d);
        assert(-0x8000_0000 * 360_000_000 <= q <= 0x8000_0000 * 360_000_000) by (nonlinear_arith)
            requires
                d >= 1,
                -d <= 2 * n - 2 * (q * d) <= d,
                n >= 0 ==> q >= 0,
                n <= 0 ==> q <= 0,
                -0x8000_0000 * 360_000_000 <= n <= 0x8000_0000 * 360_000_000,
        ;
    }
    q as i64
}

/// The signed number of steps that take the joint from `current_angle` to `target_angle`.
///
/// The distance changes sign first where the joint's direction is inverted, is then
/// rounded, and a count that does not fit into 32 bits becomes the nearest that does.
pub fn angle_to_steps(joint: &Joint, current_angle: i64, target_angle: i64) -> (steps: i32)
    requires
        joint.wf(),
    ensures
        steps == joint.steps_between(current_angle as int, target_angle as int),
{
    let distance: i128 = (target_angle as i128) - (current_angle as i128);
    let commanded: i128 = if joint.direction_inverted {
        -distance
    } else {
        distance
    };
    let ratio: i128 = joint.reduction_ratio as i128;
    assert(-0x1_0000_0000_0000_0000 * 0x1_0000_0000 <= commanded * ratio
        <= 0x1_0000_0000_0000_0000 * 0x1_0000_0000) by (nonlinear_arith)
        requires
            -0x1_0000_0000_0000_0000 <= commanded <= 0x1_0000_0000_0000_0000,
            0 <= ratio <= 0x1_0000_0000,
    ;
    let scale: u64 = SCALE as u64;
    let q = rounded_quotient(commanded * ratio, (joint.degrees_per_step as u64) * scale);
    if q > i32::MAX as i128 {
        i32::MAX
    } else if q < i32::MIN as i128 {
        i32::MIN
    } else {
        q as i32
    }
}

/// Accepts a target angle within the joint's travel and rejects any other.
///
/// The travel reaches from the negative of the joint's maximum angle up to the
/// maximum itself, both ends included.
pub fn validate_target(joint: &Joint, target_angle: i64) -> (verdict: Result<(), RobotError>)
    requires
        joint.wf(),
    ensures
        joint.within_limits(target_angle as int) ==> verdict == Ok::<(), RobotError>(()),
        !joint.within_limits(target_angle as int) ==> verdict == Err::<(), RobotError>(
            RobotError::JointLimitExceeded { joint: joint.id as i8 },
        ),
{
    let limit: i64 = joint.max_angle as i64;
    if target_angle > limit || target_angle < -limit {
        Err(RobotError::JointLimitExceeded { joint: joint.id as i8 })
    } else {
        Ok(())
    }
}

/// Turning a joint by the angle of `steps` steps, from any angle, takes a number of
/// steps that turns it by exactly that angle again.
///
/// This holds of a joint whose direction is not inverted. Where it is inverted the
/// steps come out negated, so there it holds only of a turn by nothing.
pub proof fn law_round_trip(joint: Joint, start: int, steps: int)
    requires
        joint.wf(),
        i32::MIN <= steps <= i32::MAX,
        !joint.direction_inverted || joint.angle_of_steps(steps) == 0,
    ensures
        joint.angle_of_steps(joint.steps_between(start, start + joint.angle_of_steps(steps)))
            == joint.angle_of_steps(steps),
{
    let per_step = joint.degrees_per_step * SCALE;
    let ratio = joint.reduction_ratio as int;
    let angle = joint.angle_of_steps(steps);
    let exact = joint.exact_steps_between(start, start + angle);
    let back = joint.steps_between(start, start + angle);
    assert(start + angle - start == angle);
    if angle == 0 {
        assert(0 * ratio == 0 && 0 * per_step == 0 && -0 == 0);
        lemma_round_half_away_multiple(0, per_step);
        lemma_round_half_away_multiple(0, ratio);
    } else {
        assert(exact == round_half_away(angle * ratio, per_step));
        lemma_round_half_away_bounds(steps * per_step, ratio);
        lemma_round_half_away_bounds(angle * ratio, per_step);
        if per_step > ratio {
            lemma_round_half_away_unique(angle * ratio, per_step, steps);
        } else if per_step == ratio {
            lemma_round_half_away_multiple(steps, ratio);
            lemma_round_half_away_multiple(angle, ratio);
        } else {
            lemma_round_half_away_unique(exact * per_step, ratio, angle);
            if exact > i32::MAX {
                assert(steps * per_step <= back * per_step <= exact * per_step)
                    by (nonlinear_arith)
                    requires
                        steps <= back <= exact,
                        per_step > 0,
                ;
                lemma_round_half_away_monotonic(steps * per_step, back * per_step, ratio);
                lemma_round_half_away_monotonic(back * per_step, exact * per_step, ratio);
            } else if exact < i32::MIN {
                assert(exact * per_step <= back * per_step <= steps * per_step)
                    by (nonlinear_arith)
                    requires
                        exact <= back <= steps,
                        per_step > 0,
                ;
                lemma_round_half_away_monotonic(exact * per_step, back * per_step, ratio);
                lemma_round_half_away_monotonic(back * per_step, steps * per_step, ratio);
            }
        }
    }
}

/// The steps between two angles cover the distance asked for to within half a step:
/// a move leaves the joint no further from its target than that, so that moves that
/// follow one another do not drift.
///
/// Both sides are scaled by the gear ratio, since the angle of one step need not be
/// a whole number: twice the distance and twice the steps differ by at most one step.
pub proof fn law_steps_within_half_a_step(joint: Joint, current: int, target: int)
    requires
        joint.wf(),
    ensures
        ({
            let one_step = joint.degrees_per_step * SCALE;
            let asked = joint.commanded(target - current) * joint.reduction_ratio;
            let covered = joint.exact_steps_between(current, target) * one_step;
            -one_step <= 2 * asked - 2 * covered <= one_step
        }),
{
    lemma_round_half_away_bounds(
        joint.commanded(target - current) * joint.reduction_ratio,
        joint.degrees_per_step * SCALE,
    );
}

/// A joint whose direction is inverted is commanded the negative of the steps that
/// the same joint without the inversion is commanded, as long as that count fits
/// into 32 bits with either sign.
pub proof fn law_inversion_negates(inverted: Joint, plain: Joint, current: int, target: int)
    requires
        inverted.wf(),
        inverted.direction_inverted,
        plain == (Joint { direction_inverted: false, ..inverted }),
        -i32::MAX <= plain.exact_steps_between(current, target) <= i32::MAX,
    ensures
        inverted.steps_between(current, target) == -plain.steps_between(current, target),
{
    let ratio = inverted.reduction_ratio as int;
    let distance = target - current;
    assert((-distance) * ratio == -(distance * ratio)) by (nonlinear_arith);
    lemma_round_half_away_odd(distance * ratio, inverted.degrees_per_step * SCALE);
}

/// Why joint `joint_id` cannot be sent to `target` from the angles in `current`, if it cannot.
///
/// The joint must exist, its current angle must be known, and the target must lie
/// within its travel; the first of these that fails is the reason.
pub open spec fn move_rejection(current: Seq<Option<i64>>, joint_id: i8, target: i64) -> Option<
    RobotError,
> {
    match joint_table(joint_id as int) {
        None => Some(RobotError::UnknownJoint { joint: joint_id }),
        Some(joint) => if current[joint_id - 1] is None {
            Some(RobotError::UnknownCurrentAngle { joint: joint_id })
        } else if !joint.within_limits(target as int) {
            Some(RobotError::JointLimitExceeded { joint: joint_id })
        } else {
            None
        },
    }
}

/// The reason against the first request of `targets` that cannot be met, if there is one.
pub open spec fn first_rejection(current: Seq<Option<i64>>, targets: Seq<(i8, i64)>) -> Option<
    RobotError,
>
    decreases targets.len(),
{
    if targets.len() == 0 {
        None
    } else {
        match move_rejection(current, targets[0].0, targets[0].1) {
            Some(reason) => Some(reason),
            None => first_rejection(current, targets.drop_first()),
        }
    }
}

/// The clause that takes joint `joint_id` from its current angle to `target`.
pub open spec fn move_clause(current: Seq<Option<i64>>, joint_id: i8, target: i64) -> Seq<char> {
    joint_clause(
        joint_id as int,
        decimal_text(
            joint_table(joint_id as int)->0.steps_between(
                current[joint_id - 1]->0 as int,
                target as int,
            ),
        ),
    )
}

/// One clause for each request of `targets`, in their order.
pub open spec fn move_clauses(current: Seq<Option<i64>>, targets: Seq<(i8, i64)>) -> Seq<char>
    decreases targets.len(),
{
    if targets.len() == 0 {
        Seq::empty()
    } else {
        move_clause(current, targets[0].0, targets[0].1) + move_clauses(
            current,
            targets.drop_first(),
        )
    }
}

/// The command that moves each requested joint from its current angle to its target.
///
/// The command holds one clause for each request, in the order of the requests. If any
/// request cannot be met there is no command at all: the failure of the first such
/// request is returned. With no request the command is the bare opcode.
pub fn compose_move_command(current_angles: &[Option<i64>; 6], target_angles: &[(i8, i64)]) -> (command:
    Result<String, RobotError>)
    ensures
        match first_rejection(current_angles@, target_angles@) {
            Some(reason) => command == Err::<String, RobotError>(reason),
            None => command matches Ok(text) && text@ == CommandCodes::MOVE@ + move_clauses(
                current_angles@,
                target_angles@,
            ),
        },
        target_angles@.len() == 0 ==> (command matches Ok(text) && text@ == CommandCodes::MOVE@),
        command matches Ok(text) ==> is_plain(text@),
{
    proof {
        lemma_opcodes_plain();
        if target_angles@.len() == 0 {
            assert(CommandCodes::MOVE@ + move_clauses(current_angles@, target_angles@)
                =~= CommandCodes::MOVE@);
        }
    }
    let mut text = String::from_str(CommandCodes::MOVE);
    let mut i: usize = 0;
    assert(target_angles@.skip(0) =~= target_angles@);
    while i < target_angles.len()
        invariant
            i <= target_angles.len(),
            is_plain(text@),
            first_rejection(current_angles@, target_angles@) == first_rejection(
                current_angles@,
                target_angles@.skip(i as int),
            ),
            text@ + move_clauses(current_angles@, target_angles@.skip(i as int))
                == CommandCodes::MOVE@ + move_clauses(current_angles@, target_angles@),
        decreases target_angles.len() - i,
    {
        let (joint_id, target) = target_angles[i];
        let ghost rest = target_angles@.skip(i as int);
        proof {
            assert(rest[0] == target_angles@[i as int]);
            assert(rest.drop_first() =~= target_angles@.skip(i + 1));
        }
        let joint = match lookup_joint(joint_id) {
            Ok(joint) => joint,
            Err(reason) => {
                return Err(reason);
            },
        };
        let current = match current_angles[(joint_id - 1) as usize] {
            Some(angle) => angle,
            None => {
                return Err(RobotError::UnknownCurrentAngle { joint: joint_id });
            },
        };
        match validate_target(&joint, target) {
            Ok(()) => {},
            Err(reason) => {
                return Err(reason);
            },
        }
        let ghost before = text@;
        push_steps_clause(&mut text, joint_id, angle_to_steps(&joint, current, target) as i64);
        proof {
            assert(text@ == before + move_clause(current_angles@, joint_id, target));
            assert(text@ + move_clauses(current_angles@, target_angles@.skip(i + 1)) =~= before
                + move_clauses(current_angles@, rest));
        }
        i += 1;
    }
    assert(text@ + move_clauses(current_angles@, target_angles@.skip(i as int)) =~= text@);
    Ok(text)
}

} // verus!

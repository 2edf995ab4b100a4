//! The grammar of the device's responses.
//!
//! A response is a list of fields separated by `;`. White space and terminators
//! at its end are no part of it, nor is white space around a field. A field that
//! reports on a joint begins with `J` and the joint's number; the first field is
//! the marker that says what kind of response this is. Fields that fit no
//! pattern are passed over, and of two fields on one joint the later one counts.

use crate::constants::ResponseCodes;
use crate::text::{
    bytes_equal, field_bounds, has_prefix, has_suffix, i32_value, is_digit, marks_fields,
    parse_i32, split_fields, strip_padding, stripped_of_padding, trim, trim_start, trimmed,
    trimmed_start,
};
use crate::transport::{device_error_in, reported_error};
use vstd::prelude::*;
use vstd::slice::slice_subrange;
use vstd::string::StringSliceAdditionalSpecFns;

verus! {

/// The byte that separates the fields of a response.
pub const FIELD_SEPARATOR: u8 = ';' as u8;

/// The fields of a response, each without the white space around it.
pub open spec fn response_fields(response: Seq<u8>) -> Seq<Seq<u8>> {
    split_fields(strip_padding(response), FIELD_SEPARATOR).map_values(|field: Seq<u8>| trim(field))
}

/// The joint that a field reports on: the digit behind the leading `J`, if it is
/// the number of a joint.
pub open spec fn reported_joint(field: Seq<u8>) -> Option<int> {
    if field.len() >= 2 && field[0] == 'J' as u8 && is_digit(field[1]) && 1 <= field[1] - '0' as u8
        <= 6 {
        Some(field[1] - '0' as u8)
    } else {
        None
    }
}

/// Whether a field of a state report says that its stepper is enabled.
pub open spec fn reports_enabled(field: Seq<u8>) -> bool {
    "ENABLED".spec_bytes().is_suffix_of(field)
}

/// The enabled flags after the given fields of a state report, all off at first.
pub open spec fn states_after(fields: Seq<Seq<u8>>) -> Seq<bool>
    decreases fields.len(),
{
    if fields.len() == 0 {
        Seq::new(6, |i: int| false)
    } else {
        let before = states_after(fields.drop_last());
        match reported_joint(fields.last()) {
            Some(joint) => before.update(joint - 1, reports_enabled(fields.last())),
            None => before,
        }
    }
}

/// For each joint, whether a state report says that its stepper is enabled.
pub open spec fn reported_states(response: Seq<u8>) -> Seq<bool> {
    states_after(response_fields(response))
}

/// What a field of a step report says of its joint's position: that it is unknown,
/// or the count behind `J`, the joint's digit and `_`. A field that says neither
/// gives nothing.
pub open spec fn reported_count(field: Seq<u8>) -> Option<Option<i32>> {
    if "UNKNOWN".spec_bytes().is_suffix_of(field) {
        Some(None)
    } else if field.len() >= 3 && field[2] == '_' as u8 {
        match i32_value(field.skip(3)) {
            Some(count) => Some(Some(count)),
            None => None,
        }
    } else {
        None
    }
}

/// The step counts after the given fields of a step report, all unknown at first.
pub open spec fn steps_after(fields: Seq<Seq<u8>>) -> Seq<Option<i32>>
    decreases fields.len(),
{
    if fields.len() == 0 {
        Seq::new(6, |i: int| None)
    } else {
        let before = steps_after(fields.drop_last());
        match reported_joint(fields.last()) {
            Some(joint) => match reported_count(fields.last()) {
                Some(count) => before.update(joint - 1, count),
                None => before,
            },
            None => before,
        }
    }
}

/// For each joint, the step count that a step report gives, if it gives one.
pub open spec fn reported_steps(response: Seq<u8>) -> Seq<Option<i32>> {
    steps_after(response_fields(response))
}

/// A parameter as the caller set it: the tenth of the number in `text`, fractions
/// dropped, and no less than 0 nor more than 255. Text that is no number gives 0.
pub open spec fn descaled(text: Seq<u8>) -> u8 {
    match i32_value(text) {
        Some(value) => if value <= 0 {
            0
        } else if value / 10 > 255 {
            255
        } else {
            (value / 10) as u8
        },
        None => 0,
    }
}

/// `data` without `prefix`, if it begins with it.
pub open spec fn after_prefix(data: Seq<u8>, prefix: Seq<u8>) -> Option<Seq<u8>> {
    if prefix.is_prefix_of(data) {
        Some(data.skip(prefix.len() as int))
    } else {
        None
    }
}

/// Velocity and acceleration after the given fields of a parameter report, both 0 at first.
pub open spec fn parameters_after(fields: Seq<Seq<u8>>) -> (u8, u8)
    decreases fields.len(),
{
    if fields.len() == 0 {
        (0, 0)
    } else {
        let before = parameters_after(fields.drop_last());
        match after_prefix(fields.last(), "VEL_".spec_bytes()) {
            Some(text) => (descaled(text), before.1),
            None => match after_prefix(fields.last(), "ACC_".spec_bytes()) {
                Some(text) => (before.0, descaled(text)),
                None => before,
            },
        }
    }
}

/// Velocity and acceleration as a parameter report gives them; nothing if the
/// response does not begin with the marker of such a report.
pub open spec fn reported_parameters(response: Seq<u8>) -> Option<(u8, u8)> {
    if ResponseCodes::PARAMS_RESPONSE.spec_bytes().is_prefix_of(response) {
        Some(parameters_after(response_fields(response)))
    } else {
        None
    }
}

/// What is left of a reply when the white space around it and the terminators
/// behind it are taken away.
pub open spec fn reply_token(response: Seq<u8>) -> Seq<u8> {
    trim_start(strip_padding(response))
}

/// Whether a reply to the handshake is the token that the device answers with.
pub open spec fn confirms_connection(response: Seq<u8>) -> bool {
    reply_token(response) == ResponseCodes::CONNECTED_RESPONSE.spec_bytes()
}

/// What kind of message a response is.
#[derive(Debug, Clone, Copy, PartialEq, Eq, Structural)]
pub enum ResponseKind {
    /// One of the device's error codes.
    DeviceError,
    /// The answer to the handshake.
    Connected,
    /// The acknowledgement of a homing run.
    Calibration,
    /// A report on which steppers are enabled.
    State,
    /// A report on the step counts.
    Steps,
    /// A report on velocity and acceleration.
    Params,
    /// Text of no known kind.
    Raw,
}

/// The kind of a response: an error if it begins with an error code, the answer to
/// the handshake if it is the device's token, else what its marker says, and raw
/// text if it begins with no marker.
pub open spec fn kind_of(response: Seq<u8>) -> ResponseKind {
    if reported_error(response) is Some {
        ResponseKind::DeviceError
    } else if confirms_connection(response) {
        ResponseKind::Connected
    } else if ResponseCodes::CALIBRATION_RESPONSE.spec_bytes().is_prefix_of(response) {
        ResponseKind::Calibration
    } else if ResponseCodes::STATE_RESPONSE.spec_bytes().is_prefix_of(response) {
        ResponseKind::State
    } else if ResponseCodes::STEPS_RESPONSE.spec_bytes().is_prefix_of(response) {
        ResponseKind::Steps
    } else if ResponseCodes::PARAMS_RESPONSE.spec_bytes().is_prefix_of(response) {
        ResponseKind::Params
    } else {
        ResponseKind::Raw
    }
}

/// The trimmed field that lies between `bounds` in `body`.
fn field_at<'a>(body: &'a [u8], bounds: &Vec<(usize, usize)>, k: usize) -> (field: &'a [u8])
    requires
        k < bounds@.len(),
        marks_fields(bounds@, body@, FIELD_SEPARATOR),
    ensures
        field@ == trim(split_fields(body@, FIELD_SEPARATOR)[k as int]),
{
    let (start, end) = bounds[k];
    trimmed(slice_subrange(body, start, end))
}

/// The index of the joint that a field reports on.
fn joint_index(field: &[u8]) -> (index: Option<usize>)
    ensures
        match reported_joint(field@) {
            Some(joint) => index == Some((joint - 1) as usize),
            None => index is None,
        },
{
    if field.len() >= 2 && field[0] == 'J' as u8 && '1' as u8 <= field[1] && field[1] <= '6' as u8 {
        Some((field[1] - '1' as u8) as usize)
    } else {
        None
    }
}

/// Reads a state report: for each joint, whether its stepper is enabled.
pub fn parse_state_response(response: &str) -> (states: [bool; 6])
    ensures
        states@ == reported_states(response.spec_bytes()),
{
    let body = stripped_of_padding(response.as_bytes());
    let bounds = field_bounds(body, FIELD_SEPARATOR);
    let ghost fields = response_fields(response.spec_bytes());
    let mut states: [bool; 6] = [false; 6];
    let mut k: usize = 0;
    assert(states@ =~= states_after(fields.take(0)));
    while k < bounds.len()
        invariant
            k <= bounds@.len(),
            body@ == strip_padding(response.spec_bytes()),
            fields == response_fields(response.spec_bytes()),
            marks_fields(bounds@, body@, FIELD_SEPARATOR),
            states@ == states_after(fields.take(k as int)),
        decreases bounds@.len() - k,
    {
        let field = field_at(body, &bounds, k);
        proof {
            assert(fields.take(k + 1).drop_last() =~= fields.take(k as int));
            assert(fields.take(k + 1).last() == field@);
        }
        match joint_index(field) {
            Some(index) => {
                states[index] = has_suffix(field, "ENABLED".as_bytes());
            },
            None => {},
        }
        k += 1;
    }
    assert(fields.take(k as int) =~= fields);
    states
}

/// What a field of a step report says of its joint's position.
fn field_count(field: &[u8]) -> (count: Option<Option<i32>>)
    ensures
        count == reported_count(field@),
{
    if has_suffix(field, "UNKNOWN".as_bytes()) {
        Some(None)
    } else if field.len() >= 3 && field[2] == '_' as u8 {
        assert(field@.skip(3) =~= field@.subrange(3, field@.len() as int));
        match parse_i32(slice_subrange(field, 3, field.len())) {
            Some(value) => Some(Some(value)),
            None => None,
        }
    } else {
        None
    }
}

/// Reads a step report: for each joint its step count, or nothing where the
/// device does not know it or does not report it.
pub fn parse_steps_response(response: &str) -> (steps: [Option<i32>; 6])
    ensures
        steps@ == reported_steps(response.spec_bytes()),
{
    let body = stripped_of_padding(response.as_bytes());
    let bounds = field_bounds(body, FIELD_SEPARATOR);
    let ghost fields = response_fields(response.spec_bytes());
    let mut steps: [Option<i32>; 6] = [None; 6];
    let mut k: usize = 0;
    assert(steps@ =~= steps_after(fields.take(0)));
    while k < bounds.len()
        invariant
            k <= bounds@.len(),
            body@ == strip_padding(response.spec_bytes()),
            fields == response_fields(response.spec_bytes()),
            marks_fields(bounds@, body@, FIELD_SEPARATOR),
            steps@ == steps_after(fields.take(k as int)),
        decreases bounds@.len() - k,
    {
        let field = field_at(body, &bounds, k);
        proof {
            assert(fields.take(k + 1).drop_last() =~= fields.take(k as int));
            assert(fields.take(k + 1).last() == field@);
        }
        match joint_index(field) {
            Some(index) => match field_count(field) {
                Some(count) => {
                    steps[index] = count;
                },
                None => {},
            },
            None => {},
        }
        k += 1;
    }
    assert(fields.take(k as int) =~= fields);
    steps
}

/// Reads the parameter that follows `prefix` in a field, if the field begins with it.
fn field_parameter(field: &[u8], prefix: &[u8]) -> (value: Option<u8>)
    ensures
        value == match after_prefix(field@, prefix@) {
            Some(text) => Some(descaled(text)),
            None => None,
        },
{
    if !has_prefix(field, prefix) {
        return None;
    }
    assert(field@.skip(prefix@.len() as int) =~= field@.subrange(
        prefix@.len() as int,
        field@.len() as int,
    ));
    match parse_i32(slice_subrange(field, prefix.len(), field.len())) {
        Some(value) => {
            if value <= 0 {
                Some(0)
            } else if value / 10 > 255 {
                Some(255)
            } else {
                Some((value / 10) as u8)
            }
        },
        None => Some(0),
    }
}

/// Reads a parameter report: velocity, then acceleration, as the caller set them.
/// A response that does not begin with the marker of such a report gives nothing.
pub fn parse_params_response(response: &str) -> (parameters: Option<[u8; 2]>)
    ensures
        match reported_parameters(response.spec_bytes()) {
            Some(expected) => parameters matches Some(found) && found@ == seq![
                expected.0,
                expected.1,
            ],
            None => parameters is None,
        },
{
    if !has_prefix(response.as_bytes(), ResponseCodes::PARAMS_RESPONSE.as_bytes()) {
        return None;
    }
    let body = stripped_of_padding(response.as_bytes());
    let bounds = field_bounds(body, FIELD_SEPARATOR);
    let ghost fields = response_fields(response.spec_bytes());
    let mut velocity: u8 = 0;
    let mut acceleration: u8 = 0;
    let mut k: usize = 0;
    while k < bounds.len()
        invariant
            k <= bounds@.len(),
            body@ == strip_padding(response.spec_bytes()),
            fields == response_fields(response.spec_bytes()),
            marks_fields(bounds@, body@, FIELD_SEPARATOR),
            (velocity, acceleration) == parameters_after(fields.take(k as int)),
        decreases bounds@.len() - k,
    {
        let field = field_at(body, &bounds, k);
        proof {
            assert(fields.take(k + 1).drop_last() =~= fields.take(k as int));
            assert(fields.take(k + 1).last() == field@);
        }
        match field_parameter(field, "VEL_".as_bytes()) {
            Some(value) => {
                velocity = value;
            },
            None => match field_parameter(field, "ACC_".as_bytes()) {
                Some(value) => {
                    acceleration = value;
                },
                None => {},
            },
        }
        k += 1;
    }
    assert(fields.take(k as int) =~= fields);
    let found: [u8; 2] = [velocity, acceleration];
    assert(found@ =~= seq![velocity, acceleration]);
    Some(found)
}

/// Whether a reply to the handshake confirms the connection: it must be the
/// device's token and nothing else, but for white space and terminators.
pub fn is_connected_reply(response: &str) -> (confirmed: bool)
    ensures
        confirmed == confirms_connection(response.spec_bytes()),
{
    let token = trimmed_start(stripped_of_padding(response.as_bytes()));
    bytes_equal(token, ResponseCodes::CONNECTED_RESPONSE.as_bytes())
}

/// Says what kind of message a response is.
pub fn response_kind(response: &str) -> (kind: ResponseKind)
    ensures
        kind == kind_of(response.spec_bytes()),
{
    let bytes = response.as_bytes();
    if device_error_in(bytes).is_some() {
        ResponseKind::DeviceError
    } else if is_connected_reply(response) {
        ResponseKind::Connected
    } else if has_prefix(bytes, ResponseCodes::CALIBRATION_RESPONSE.as_bytes()) {
        ResponseKind::Calibration
    } else if has_prefix(bytes, ResponseCodes::STATE_RESPONSE.as_bytes()) {
        ResponseKind::State
    } else if has_prefix(bytes, ResponseCodes::STEPS_RESPONSE.as_bytes()) {
        ResponseKind::Steps
    } else if has_prefix(bytes, ResponseCodes::PARAMS_RESPONSE.as_bytes()) {
        ResponseKind::Params
    } else {
        ResponseKind::Raw
    }
}

} // verus!

//! The command dispatcher: what a control request puts on the wire, and what
//! to make of the answer.
//!
//! A command is validated before anything is transmitted. A transaction that
//! times out is tried again, up to [`MAX_RETRIES`] times; sending the same
//! write again is harmless because a write only states the values the
//! registers are to hold. Every other failure is handed to the caller at once.

use vstd::prelude::*;
use crate::codec::{
    decode_response, decoded, encode_read, encode_write, read_request, to_unsigned, unsigned,
    word_bytes, write_request, Response, ResponseModel, REGISTER_TARGET_LOCATION,
    REGISTER_TORQUE_SWITCH, TELEMETRY_LEN, TELEMETRY_REGISTER,
};
use crate::error::CoreError;
use crate::poll::{outcome_view, Outcome};
use crate::telemetry::{valid_id, is_valid_id, ActuatorTelemetry, TorqueMode};

verus! {

/// How often a command that timed out is sent again.
pub const MAX_RETRIES: u8 = 2;

/// Length of the response that acknowledges a write.
pub const ACK_LEN: usize = 6;

/// Length of the response that carries a telemetry block.
pub const TELEMETRY_RESPONSE_LEN: usize = 37;

/// The kinds of command.
#[derive(Clone, Copy, Debug, PartialEq, Eq, Structural)]
pub enum CommandKind {
    /// A move to a position.
    Move,
    /// A change of the torque mode.
    Torque,
    /// A read of the telemetry block that bypasses the registry.
    LiveRead,
}

/// What a successful command brings back.
#[derive(Clone, Copy, Debug, PartialEq, Eq, Structural)]
pub enum Reply {
    /// The actuator has acknowledged the write.
    Acknowledged,
    /// The telemetry the actuator sent.
    Telemetry(ActuatorTelemetry),
}

/// What to do after an attempt.
#[derive(Clone, Copy, Debug, PartialEq, Eq)]
pub enum Verdict {
    /// Send the same request again.
    Retry,
    /// The command has ended with this result.
    Done(Result<Reply, CoreError>),
}

/// Whether `position`, `velocity` and `speed` fit their registers: the
/// position a signed 16-bit register, the other two unsigned 16-bit registers.
pub open spec fn in_range(position: i32, velocity: u32, speed: u32) -> bool {
    &&& -0x8000 <= position <= 0x7FFF
    &&& velocity <= 0xFFFF
    &&& speed <= 0xFFFF
}

/// The bytes a move writes: position, travel velocity and speed, each a
/// 16-bit register, low byte first.
pub open spec fn move_payload(position: i32, velocity: u32, speed: u32) -> Seq<u8> {
    word_bytes(unsigned(position as i16)) + word_bytes(velocity as u16) + word_bytes(speed as u16)
}

/// The request a move puts on the wire.
pub open spec fn move_request(id: u8, position: i32, velocity: u32, speed: u32) -> Seq<u8> {
    write_request(id, REGISTER_TARGET_LOCATION, move_payload(position, velocity, speed))
}

/// The request a change of torque mode puts on the wire.
pub open spec fn torque_request(id: u8, mode: TorqueMode) -> Seq<u8> {
    write_request(id, REGISTER_TORQUE_SWITCH, seq![mode.spec_register_value()])
}

/// The request a live read puts on the wire.
pub open spec fn live_read_request(id: u8) -> Seq<u8> {
    read_request(id, TELEMETRY_REGISTER, TELEMETRY_LEN as u8)
}

/// What the plan of a move is: the request, or the reason the move is
/// refused. The identifier is judged first.
pub open spec fn move_plan(id: u8, position: i32, velocity: u32, speed: u32) -> Result<
    Seq<u8>,
    CoreError,
> {
    if !valid_id(id) {
        Err(CoreError::InvalidId)
    } else if !in_range(position, velocity, speed) {
        Err(CoreError::OutOfRange)
    } else {
        Ok(move_request(id, position, velocity, speed))
    }
}

/// The number of response bytes a command of kind `kind` waits for.
pub open spec fn expected_len(kind: CommandKind) -> usize {
    match kind {
        CommandKind::LiveRead => TELEMETRY_RESPONSE_LEN,
        _ => ACK_LEN,
    }
}

/// What the response `bytes` means for a command of kind `kind` sent to
/// actuator `id`.
///
/// A live read succeeds with the telemetry where the response decodes to a
/// telemetry block sent by that actuator; a response that does not decode
/// fails with the decoding error, any other response is malformed. A write
/// succeeds where the response decodes to a frame without data sent by that
/// actuator; any other response means the channel did not deliver the
/// acknowledgement and fails with `IoError`.
pub open spec fn reply_of(kind: CommandKind, id: u8, bytes: Seq<u8>) -> Result<Reply, CoreError> {
    match kind {
        CommandKind::LiveRead => match decoded(bytes) {
            Ok(ResponseModel::Telemetry { id: from, status, telemetry }) => if from == id {
                Ok(Reply::Telemetry(telemetry))
            } else {
                Err(CoreError::MalformedFrame)
            },
            Ok(ResponseModel::Raw { .. }) => Err(CoreError::MalformedFrame),
            Err(e) => Err(e),
        },
        _ => match decoded(bytes) {
            Ok(ResponseModel::Raw { id: from, status, data }) => if from == id && data.len()
                == 0 {
                Ok(Reply::Acknowledged)
            } else {
                Err(CoreError::IoError)
            },
            _ => Err(CoreError::IoError),
        },
    }
}

/// What to do after an attempt of a command ended with `outcome` while
/// `retries_left` further attempts are allowed: a timeout is tried again
/// while attempts are left, everything else ends the command.
pub open spec fn verdict(kind: CommandKind, id: u8, retries_left: u8, outcome: Outcome) -> Verdict {
    match outcome {
        Ok(bytes) => Verdict::Done(reply_of(kind, id, bytes)),
        Err(CoreError::Timeout) => if retries_left > 0 {
            Verdict::Retry
        } else {
            Verdict::Done(Err(CoreError::Timeout))
        },
        Err(e) => Verdict::Done(Err(e)),
    }
}

/// The plan of a request as a mathematical value.
pub open spec fn plan_view(plan: Result<Vec<u8>, CoreError>) -> Result<Seq<u8>, CoreError> {
    match plan {
        Ok(frame) => Ok(frame@),
        Err(e) => Err(e),
    }
}

/// The two bytes of a 16-bit register, low byte first, appended to `out`.
fn push_word(out: &mut Vec<u8>, raw: u16)
    ensures
        final(out)@ == old(out)@ + word_bytes(raw),
{
    out.push((raw % 256) as u8);
    out.push((raw / 256) as u8);
}

/// Plans a move of actuator `id`: checks the identifier, then the values, and
/// builds the one write that sets position, travel velocity and speed.
///
/// Fails with `InvalidId` exactly when `id` is zero or beyond the population,
/// and with `OutOfRange` exactly when the identifier is valid and one of the
/// values does not fit its register.
pub fn plan_move(id: u8, position: i32, velocity: u32, speed: u32) -> (plan: Result<
    Vec<u8>,
    CoreError,
>)
    ensures
        plan_view(plan) == move_plan(id, position, velocity, speed),
{
    if !is_valid_id(id) {
        return Err(CoreError::InvalidId);
    }
    if position < -0x8000 || position > 0x7FFF || velocity > 0xFFFF || speed > 0xFFFF {
        return Err(CoreError::OutOfRange);
    }
    let mut payload: Vec<u8> = Vec::new();
    push_word(&mut payload, to_unsigned(position as i16));
    push_word(&mut payload, velocity as u16);
    push_word(&mut payload, speed as u16);
    encode_write(id, REGISTER_TARGET_LOCATION, payload.as_slice())
}

/// Plans a change of the torque mode of actuator `id`: the write of the
/// mode's byte to the torque switch. Fails with `InvalidId` exactly when `id`
/// is zero or beyond the population.
pub fn plan_torque(id: u8, mode: TorqueMode) -> (plan: Result<Vec<u8>, CoreError>)
    ensures
        !valid_id(id) ==> plan == Err::<Vec<u8>, CoreError>(CoreError::InvalidId),
        valid_id(id) ==> plan is Ok && plan->Ok_0@ == torque_request(id, mode),
{
    if !is_valid_id(id) {
        return Err(CoreError::InvalidId);
    }
    let mut payload: Vec<u8> = Vec::new();
    payload.push(mode.register_value());
    encode_write(id, REGISTER_TORQUE_SWITCH, payload.as_slice())
}

/// Plans a live read of actuator `id`: the read of its telemetry block. Fails
/// with `InvalidId` exactly when `id` is zero or beyond the population.
pub fn plan_live_read(id: u8) -> (plan: Result<Vec<u8>, CoreError>)
    ensures
        !valid_id(id) ==> plan == Err::<Vec<u8>, CoreError>(CoreError::InvalidId),
        valid_id(id) ==> plan is Ok && plan->Ok_0@ == live_read_request(id),
{
    encode_read(id, TELEMETRY_REGISTER, TELEMETRY_LEN as u8)
}

/// The number of response bytes a command of kind `kind` waits for.
pub fn response_length(kind: CommandKind) -> (n: usize)
    ensures
        n == expected_len(kind),
{
    match kind {
        CommandKind::LiveRead => TELEMETRY_RESPONSE_LEN,
        _ => ACK_LEN,
    }
}

/// Judges the response to a command of kind `kind` sent to actuator `id`.
pub fn read_reply(kind: CommandKind, id: u8, bytes: &[u8]) -> (r: Result<Reply, CoreError>)
    ensures
        r == reply_of(kind, id, bytes@),
{
    let response = decode_response(bytes);
    match kind {
        CommandKind::LiveRead => match response {
            Ok(Response::Telemetry { id: from, status, telemetry }) => {
                if from == id {
                    Ok(Reply::Telemetry(telemetry))
                } else {
                    Err(CoreError::MalformedFrame)
                }
            },
            Ok(Response::Raw(_)) => Err(CoreError::MalformedFrame),
            Err(e) => Err(e),
        },
        _ => match response {
            Ok(Response::Raw(raw)) => {
                if raw.id == id && raw.data.len() == 0 {
                    Ok(Reply::Acknowledged)
                } else {
                    Err(CoreError::IoError)
                }
            },
            _ => Err(CoreError::IoError),
        },
    }
}

/// Decides what follows an attempt of a command: another attempt after a
/// timeout while `retries_left` is not used up, the end of the command with
/// its result otherwise.
pub fn judge(kind: CommandKind, id: u8, retries_left: u8, outcome: &Result<Vec<u8>, CoreError>)
    -> (v: Verdict)
    ensures
        v == verdict(kind, id, retries_left, outcome_view(*outcome)),
{
    match outcome {
        Ok(bytes) => Verdict::Done(read_reply(kind, id, bytes.as_slice())),
        Err(CoreError::Timeout) => {
            if retries_left > 0 {
                Verdict::Retry
            } else {
                Verdict::Done(Err(CoreError::Timeout))
            }
        },
        Err(e) => Verdict::Done(Err(*e)),
    }
}

/// A command that keeps timing out is sent once and then again
/// [`MAX_RETRIES`] times, and no more: with no attempt left the timeout is
/// handed to the caller.
pub proof fn retries_are_bounded(kind: CommandKind, id: u8, retries_left: u8)
    ensures
        verdict(kind, id, retries_left, Err(CoreError::Timeout)) == Verdict::Retry
            <==> retries_left > 0,
        verdict(kind, id, 0, Err(CoreError::Timeout)) == Verdict::Done(Err(CoreError::Timeout)),
        verdict(kind, id, retries_left, Err(CoreError::IoError)) == Verdict::Done(
            Err(CoreError::IoError),
        ),
{
}

/// The request of a move depends on nothing but its arguments: asking for the
/// same move twice puts the same bytes on the wire twice.
pub proof fn same_move_same_request(id: u8, position: i32, velocity: u32, speed: u32)
    requires
        valid_id(id),
        in_range(position, velocity, speed),
    ensures
        move_plan(id, position, velocity, speed) == Ok::<Seq<u8>, CoreError>(
            move_request(id, position, velocity, speed),
        ),
        move_payload(position, velocity, speed).len() == 6,
{
}

} // verus!

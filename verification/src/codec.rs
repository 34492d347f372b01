//! The wire codec: request frames for the actuators' control table and the
//! decoding of their responses.
//!
//! An actuator exposes a control table of [`TABLE_LEN`] bytes. A register is
//! named by the table address of its first byte; multi-byte registers are
//! stored low byte first. A request may read or write several consecutive
//! registers at once.

use vstd::prelude::*;
use crate::error::CoreError;
use crate::frame::{assemble, frame, parse, parsed, Frame, FrameModel, FRAME_OVERHEAD, MAX_PARAMS};
use crate::signmag::{decode_load, decode_speed, load_of, speed_of};
use crate::telemetry::{valid_id, is_valid_id, ActuatorTelemetry, MAX_SERVOS};

verus! {

/// The identifier every actuator listens to.
pub const BROADCAST_ID: u8 = 0xFE;

/// Instruction code of a read request.
pub const INSTRUCTION_READ: u8 = 0x02;

/// Instruction code of a write request.
pub const INSTRUCTION_WRITE: u8 = 0x03;

/// Instruction code of a read request addressed to several actuators at once.
pub const INSTRUCTION_MULTI_READ: u8 = 0x82;

/// Size of an actuator's control table in bytes.
pub const TABLE_LEN: usize = 71;

/// Address of the torque switch register (one byte).
pub const REGISTER_TORQUE_SWITCH: u8 = 40;

/// Address of the commanded position (two bytes), followed by the commanded
/// travel velocity (two bytes) and the commanded speed (two bytes).
pub const REGISTER_TARGET_LOCATION: u8 = 42;

/// Address of the first register of the telemetry block.
pub const TELEMETRY_REGISTER: u8 = 40;

/// Length of the telemetry block in bytes.
pub const TELEMETRY_LEN: usize = 31;

/// Offset of the torque switch (one byte) within the telemetry block.
pub const AT_TORQUE_SWITCH: usize = 0;

/// Offset of the acceleration (one byte).
pub const AT_ACCELERATION: usize = 1;

/// Offset of the commanded position (two bytes).
pub const AT_TARGET_LOCATION: usize = 2;

/// Offset of the commanded speed (two bytes).
pub const AT_RUNNING_SPEED: usize = 6;

/// Offset of the torque limit (two bytes).
pub const AT_TORQUE_LIMIT: usize = 8;

/// Offset of the lock mark (one byte).
pub const AT_LOCK_MARK: usize = 15;

/// Offset of the measured position (two bytes).
pub const AT_CURRENT_LOCATION: usize = 16;

/// Offset of the measured speed (two bytes, sign-magnitude).
pub const AT_CURRENT_SPEED: usize = 18;

/// Offset of the measured load (two bytes, sign-magnitude).
pub const AT_CURRENT_LOAD: usize = 20;

/// Offset of the supply voltage (one byte).
pub const AT_CURRENT_VOLTAGE: usize = 22;

/// Offset of the temperature (one byte).
pub const AT_CURRENT_TEMPERATURE: usize = 23;

/// Offset of the asynchronous write flag (one byte).
pub const AT_ASYNC_WRITE_FLAG: usize = 24;

/// Offset of the status bits (one byte).
pub const AT_SERVO_STATUS: usize = 25;

/// Offset of the measured current (two bytes).
pub const AT_CURRENT_CURRENT: usize = 29;

/// The number of bytes a write may carry when it starts at `register`: the
/// bytes of the control table from that address to its end. An address beyond
/// the table has width zero.
pub open spec fn register_width(register: u8) -> nat {
    if register < TABLE_LEN {
        (TABLE_LEN - register) as nat
    } else {
        0
    }
}

/// The frame that asks actuator `id` for `length` bytes starting at `register`.
pub open spec fn read_request(id: u8, register: u8, length: u8) -> Seq<u8> {
    frame(id, INSTRUCTION_READ, seq![register, length])
}

/// The frame that writes `payload` into the table of actuator `id`, starting
/// at `register`.
pub open spec fn write_request(id: u8, register: u8, payload: Seq<u8>) -> Seq<u8> {
    frame(id, INSTRUCTION_WRITE, seq![register] + payload)
}

/// The identifiers from `first` to `last`, in ascending order.
pub open spec fn id_range(first: u8, last: u8) -> Seq<u8> {
    Seq::new((last - first + 1) as nat, |i: int| (first + i) as u8)
}

/// The single frame that asks every actuator from `first` to `last` for
/// `length` bytes starting at `register`.
pub open spec fn multi_read_request(first: u8, last: u8, register: u8, length: u8) -> Seq<u8> {
    frame(BROADCAST_ID, INSTRUCTION_MULTI_READ, seq![register, length] + id_range(first, last))
}

/// The requests of one poll of the whole population: one multi-read frame
/// where the channel supports it, one read frame per actuator in ascending
/// order of identifier where it does not.
pub open spec fn poll_plan(multi_read: bool) -> Seq<Seq<u8>> {
    if multi_read {
        seq![
            multi_read_request(1, MAX_SERVOS as u8, TELEMETRY_REGISTER, TELEMETRY_LEN as u8),
        ]
    } else {
        Seq::new(
            MAX_SERVOS as nat,
            |i: int| read_request((i + 1) as u8, TELEMETRY_REGISTER, TELEMETRY_LEN as u8),
        )
    }
}

/// The length of a response frame that carries `payload` bytes.
pub open spec fn response_len(payload: nat) -> nat {
    (payload + FRAME_OVERHEAD) as nat
}

/// The 16-bit register stored at `at`, low byte first.
pub open spec fn word(data: Seq<u8>, at: int) -> u16 {
    (data[at] as int + 256 * (data[at + 1] as int)) as u16
}

/// The two's complement number a 16-bit register holds.
pub open spec fn signed(raw: u16) -> i16 {
    if raw < 0x8000 {
        raw as i16
    } else {
        (raw - 0x1_0000) as i16
    }
}

/// The 16-bit register that holds `value` in two's complement.
pub open spec fn unsigned(value: i16) -> u16 {
    if value >= 0 {
        value as u16
    } else {
        (value + 0x1_0000) as u16
    }
}

/// The two bytes of a 16-bit register, low byte first.
pub open spec fn word_bytes(raw: u16) -> Seq<u8> {
    seq![(raw % 256) as u8, (raw / 256) as u8]
}

/// The telemetry a telemetry block holds. Speed and load are sign-magnitude
/// fields, the two positions are two's complement, every other field is read
/// as a plain unsigned number.
pub open spec fn telemetry_of(data: Seq<u8>) -> ActuatorTelemetry {
    ActuatorTelemetry {
        current_location: signed(word(data, AT_CURRENT_LOCATION as int)),
        target_location: signed(word(data, AT_TARGET_LOCATION as int)),
        current_speed: speed_of(word(data, AT_CURRENT_SPEED as int)),
        running_speed: word(data, AT_RUNNING_SPEED as int),
        current_load: load_of(word(data, AT_CURRENT_LOAD as int)),
        torque_switch: data[AT_TORQUE_SWITCH as int],
        torque_limit: word(data, AT_TORQUE_LIMIT as int),
        acceleration: data[AT_ACCELERATION as int] as u16,
        current_voltage: data[AT_CURRENT_VOLTAGE as int],
        current_temperature: data[AT_CURRENT_TEMPERATURE as int],
        current_current: word(data, AT_CURRENT_CURRENT as int),
        servo_status: data[AT_SERVO_STATUS as int] as u16,
        async_write_flag: data[AT_ASYNC_WRITE_FLAG as int],
        lock_mark: data[AT_LOCK_MARK as int],
    }
}

/// Registers as they came over the wire, not interpreted.
#[derive(Clone, Debug, PartialEq, Eq)]
pub struct RawRegisters {
    /// The actuator that answered.
    pub id: u8,
    /// Its status byte.
    pub status: u8,
    /// The register bytes, in table order.
    pub data: Vec<u8>,
}

/// A decoded response.
#[derive(Clone, Debug, PartialEq, Eq)]
pub enum Response {
    /// A response that carries a whole telemetry block.
    Telemetry { id: u8, status: u8, telemetry: ActuatorTelemetry },
    /// Any other response: the acknowledgement of a write (no data) or the
    /// bytes of other registers.
    Raw(RawRegisters),
}

/// A decoded response as a mathematical value.
pub enum ResponseModel {
    Telemetry { id: u8, status: u8, telemetry: ActuatorTelemetry },
    Raw { id: u8, status: u8, data: Seq<u8> },
}

impl View for Response {
    type V = ResponseModel;

    open spec fn view(&self) -> ResponseModel {
        match self {
            Response::Telemetry { id, status, telemetry } => ResponseModel::Telemetry {
                id: *id,
                status: *status,
                telemetry: *telemetry,
            },
            Response::Raw(raw) => ResponseModel::Raw {
                id: raw.id,
                status: raw.status,
                data: raw.data@,
            },
        }
    }
}

/// What a response frame means: telemetry where it carries exactly one
/// telemetry block, raw registers otherwise.
pub open spec fn interpret(f: FrameModel) -> ResponseModel {
    if f.params.len() == TELEMETRY_LEN {
        ResponseModel::Telemetry { id: f.id, status: f.code, telemetry: telemetry_of(f.params) }
    } else {
        ResponseModel::Raw { id: f.id, status: f.code, data: f.params }
    }
}

/// What decoding `bytes` yields: the meaning of the frame, or the reason the
/// bytes are no valid frame.
pub open spec fn decoded(bytes: Seq<u8>) -> Result<ResponseModel, CoreError> {
    match parsed(bytes) {
        Ok(f) => Ok(interpret(f)),
        Err(e) => Err(e),
    }
}

/// The outcome of a decode as a mathematical value.
pub open spec fn decode_outcome(r: Result<Response, CoreError>) -> Result<
    ResponseModel,
    CoreError,
> {
    match r {
        Ok(response) => Ok(response@),
        Err(e) => Err(e),
    }
}

/// The number of bytes a write may carry when it starts at `register`.
pub fn width_of(register: u8) -> (width: usize)
    ensures
        width == register_width(register),
{
    if (register as usize) < TABLE_LEN {
        TABLE_LEN - register as usize
    } else {
        0
    }
}

/// Builds the request that reads `length` bytes from actuator `id`, starting
/// at `register`. Fails with `InvalidId` exactly when `id` is zero or beyond
/// the population.
pub fn encode_read(id: u8, register: u8, length: u8) -> (r: Result<Vec<u8>, CoreError>)
    ensures
        !valid_id(id) ==> r == Err::<Vec<u8>, CoreError>(CoreError::InvalidId),
        valid_id(id) ==> r is Ok && r->Ok_0@ == read_request(id, register, length),
{
    if !is_valid_id(id) {
        return Err(CoreError::InvalidId);
    }
    let mut params: Vec<u8> = Vec::new();
    params.push(register);
    params.push(length);
    proof {
        assert(params@ =~= seq![register, length]);
    }
    assemble(id, INSTRUCTION_READ, params.as_slice())
}

/// Builds the request that writes `payload` into the table of actuator `id`,
/// starting at `register`. Fails with `PayloadTooLarge` exactly when the
/// payload is longer than the width of the register.
pub fn encode_write(id: u8, register: u8, payload: &[u8]) -> (r: Result<Vec<u8>, CoreError>)
    ensures
        payload@.len() > register_width(register) ==> r == Err::<Vec<u8>, CoreError>(
            CoreError::PayloadTooLarge,
        ),
        payload@.len() <= register_width(register) ==> r is Ok && r->Ok_0@ == write_request(
            id,
            register,
            payload@,
        ),
{
    if payload.len() > width_of(register) {
        return Err(CoreError::PayloadTooLarge);
    }
    let mut params: Vec<u8> = Vec::new();
    params.push(register);
    let mut i: usize = 0;
    while i < payload.len()
        invariant
            i <= payload@.len() <= TABLE_LEN,
            params@ == seq![register] + payload@.subrange(0, i as int),
        decreases payload@.len() - i,
    {
        params.push(payload[i]);
        i = i + 1;
    }
    proof {
        assert(payload@.subrange(0, payload@.len() as int) =~= payload@);
    }
    assemble(id, INSTRUCTION_WRITE, params.as_slice())
}

/// Builds the single request that reads `length` bytes starting at `register`
/// from every actuator from `first_id` to `last_id`. Fails with `InvalidId`
/// exactly when the range is empty or reaches outside the population.
pub fn encode_multi_read(first_id: u8, last_id: u8, register: u8, length: u8) -> (r: Result<
    Vec<u8>,
    CoreError,
>)
    ensures
        !(valid_id(first_id) && valid_id(last_id) && first_id <= last_id) ==> r == Err::<
            Vec<u8>,
            CoreError,
        >(CoreError::InvalidId),
        valid_id(first_id) && valid_id(last_id) && first_id <= last_id ==> r is Ok && r->Ok_0@
            == multi_read_request(first_id, last_id, register, length),
{
    if !is_valid_id(first_id) || !is_valid_id(last_id) || first_id > last_id {
        return Err(CoreError::InvalidId);
    }
    let mut params: Vec<u8> = Vec::new();
    params.push(register);
    params.push(length);
    let mut id: u8 = first_id;
    while id <= last_id
        invariant
            first_id <= id <= last_id + 1,
            last_id <= MAX_SERVOS,
            params@ == seq![register, length] + id_range(first_id, last_id).subrange(
                0,
                id - first_id,
            ),
        decreases last_id + 1 - id,
    {
        params.push(id);
        id = id + 1;
    }
    proof {
        let ids = id_range(first_id, last_id);
        assert(ids.subrange(0, ids.len() as int) =~= ids);
    }
    assemble(BROADCAST_ID, INSTRUCTION_MULTI_READ, params.as_slice())
}

/// Builds the requests of one poll of the whole population: one multi-read
/// frame where the channel supports it, else one read frame per actuator in
/// ascending order of identifier.
pub fn poll_requests(multi_read: bool) -> (plan: Vec<Vec<u8>>)
    ensures
        plan@.len() == poll_plan(multi_read).len(),
        forall|i: int| 0 <= i < plan@.len() ==> (#[trigger] plan@[i])@ == poll_plan(multi_read)[i],
{
    let mut plan: Vec<Vec<u8>> = Vec::new();
    if multi_read {
        plan.push(
            encode_multi_read(1, MAX_SERVOS as u8, TELEMETRY_REGISTER, TELEMETRY_LEN as u8).unwrap(),
        );
        return plan;
    }
    let mut id: u8 = 1;
    while id as usize <= MAX_SERVOS
        invariant
            1 <= id <= MAX_SERVOS + 1,
            plan@.len() == id - 1,
            forall|i: int|
                0 <= i < plan@.len() ==> (#[trigger] plan@[i])@ == read_request(
                    (i + 1) as u8,
                    TELEMETRY_REGISTER,
                    TELEMETRY_LEN as u8,
                ),
        decreases MAX_SERVOS + 1 - id,
    {
        plan.push(encode_read(id, TELEMETRY_REGISTER, TELEMETRY_LEN as u8).unwrap());
        id = id + 1;
    }
    plan
}

/// The 16-bit register stored at `at`, low byte first.
fn read_word(data: &[u8], at: usize) -> (w: u16)
    requires
        at + 1 < data@.len(),
    ensures
        w == word(data@, at as int),
{
    data[at] as u16 + 256 * (data[at + 1] as u16)
}

/// The two's complement number a 16-bit register holds.
pub fn to_signed(raw: u16) -> (value: i16)
    ensures
        value == signed(raw),
{
    if raw < 0x8000 {
        raw as i16
    } else {
        (raw as i32 - 0x1_0000) as i16
    }
}

/// The 16-bit register that holds `value` in two's complement.
pub fn to_unsigned(value: i16) -> (raw: u16)
    ensures
        raw == unsigned(value),
{
    if value >= 0 {
        value as u16
    } else {
        (value as i32 + 0x1_0000) as u16
    }
}

/// Decodes a telemetry block. Fails with `MalformedFrame` exactly when `data`
/// does not have the length of the block.
pub fn decode_telemetry(data: &[u8]) -> (r: Result<ActuatorTelemetry, CoreError>)
    ensures
        data@.len() != TELEMETRY_LEN ==> r == Err::<ActuatorTelemetry, CoreError>(
            CoreError::MalformedFrame,
        ),
        data@.len() == TELEMETRY_LEN ==> r == Ok::<ActuatorTelemetry, CoreError>(
            telemetry_of(data@),
        ),
{
    if data.len() != TELEMETRY_LEN {
        return Err(CoreError::MalformedFrame);
    }
    Ok(
        ActuatorTelemetry {
            current_location: to_signed(read_word(data, AT_CURRENT_LOCATION)),
            target_location: to_signed(read_word(data, AT_TARGET_LOCATION)),
            current_speed: decode_speed(read_word(data, AT_CURRENT_SPEED)),
            running_speed: read_word(data, AT_RUNNING_SPEED),
            current_load: decode_load(read_word(data, AT_CURRENT_LOAD)),
            torque_switch: data[AT_TORQUE_SWITCH],
            torque_limit: read_word(data, AT_TORQUE_LIMIT),
            acceleration: data[AT_ACCELERATION] as u16,
            current_voltage: data[AT_CURRENT_VOLTAGE],
            current_temperature: data[AT_CURRENT_TEMPERATURE],
            current_current: read_word(data, AT_CURRENT_CURRENT),
            servo_status: data[AT_SERVO_STATUS] as u16,
            async_write_flag: data[AT_ASYNC_WRITE_FLAG],
            lock_mark: data[AT_LOCK_MARK],
        },
    )
}

/// Decodes one response frame.
///
/// Bytes without the shape of a frame give `MalformedFrame`, a frame with a
/// wrong checksum byte gives `ChecksumMismatch`. A valid frame that carries
/// exactly one telemetry block is decoded into telemetry; any other valid
/// frame is handed out as raw registers.
pub fn decode_response(bytes: &[u8]) -> (r: Result<Response, CoreError>)
    ensures
        decode_outcome(r) == decoded(bytes@),
{
    match parse(bytes) {
        Err(e) => Err(e),
        Ok(f) => {
            let Frame { id, code, params } = f;
            if params.len() == TELEMETRY_LEN {
                match decode_telemetry(params.as_slice()) {
                    Ok(telemetry) => Ok(Response::Telemetry { id, status: code, telemetry }),
                    Err(e) => Err(e),
                }
            } else {
                Ok(Response::Raw(RawRegisters { id, status: code, data: params }))
            }
        },
    }
}

/// The response frame an actuator sends for `id`, `status` and `data` decodes
/// to exactly these: to telemetry where `data` is a telemetry block, to raw
/// registers otherwise.
pub proof fn decode_inverts_frame(id: u8, status: u8, data: Seq<u8>)
    requires
        data.len() <= MAX_PARAMS,
    ensures
        decoded(frame(id, status, data)) == Ok::<ResponseModel, CoreError>(
            interpret(FrameModel { id, code: status, params: data }),
        ),
        frame(id, status, data).len() == response_len(data.len()),
{
    crate::frame::parse_inverts_frame(id, status, data);
}

/// Reading a position register as two's complement and writing the result
/// back gives the register, and the other way round.
pub proof fn signed_round_trip(raw: u16, value: i16)
    ensures
        unsigned(signed(raw)) == raw,
        signed(unsigned(value)) == value,
{
}

/// A 16-bit register is recovered from its two bytes.
pub proof fn word_round_trip(raw: u16)
    ensures
        word(word_bytes(raw), 0) == raw,
{
}

} // verus!

//! A model of one actuator on the bus: its control table and how it answers
//! requests.
//!
//! The model states what the requests of this crate mean at the far end of
//! the wire. It also serves as the far end of a loopback channel.

use vstd::prelude::*;
use crate::codec::{
    register_width, width_of, AT_TORQUE_SWITCH, INSTRUCTION_READ, INSTRUCTION_WRITE,
    REGISTER_TARGET_LOCATION, REGISTER_TORQUE_SWITCH, TABLE_LEN, TELEMETRY_LEN,
    TELEMETRY_REGISTER,
};
use crate::dispatch::{
    in_range, live_read_request, move_payload, move_request, reply_of, torque_request,
    CommandKind, Reply,
};
use crate::error::CoreError;
use crate::frame::{assemble, frame, parse, parse_inverts_frame, parsed, Frame, FrameModel};
use crate::telemetry::TorqueMode;

verus! {

/// The status byte of a response that reports no fault.
pub const STATUS_OK: u8 = 0;

/// The table `table` after `payload` was written into it, starting at the
/// address `register`.
pub open spec fn written(table: Seq<u8>, register: int, payload: Seq<u8>) -> Seq<u8> {
    Seq::new(
        table.len(),
        |i: int|
            if register <= i < register + payload.len() {
                payload[i - register]
            } else {
                table[i]
            },
    )
}

/// An actuator as a mathematical value.
pub struct ActuatorModel {
    /// The identifier the actuator answers to.
    pub id: u8,
    /// Its control table.
    pub table: Seq<u8>,
}

/// Whether `f` is a write this crate could have built: a register address
/// followed by no more bytes than the register is wide.
pub open spec fn is_write(f: FrameModel) -> bool {
    &&& f.code == INSTRUCTION_WRITE
    &&& f.params.len() >= 1
    &&& f.params.len() - 1 <= register_width(f.params[0])
}

/// Whether `f` is a read that stays within the control table.
pub open spec fn is_read(f: FrameModel) -> bool {
    &&& f.code == INSTRUCTION_READ
    &&& f.params.len() == 2
    &&& f.params[0] + f.params[1] <= TABLE_LEN
}

impl ActuatorModel {
    /// An actuator has a control table of the full length.
    pub open spec fn wf(self) -> bool {
        self.table.len() == TABLE_LEN
    }

    /// Whether the actuator takes `request` as addressed to it and valid.
    pub open spec fn accepts(self, request: Seq<u8>) -> bool {
        parsed(request) matches Ok(f) && f.id == self.id && (is_write(f) || is_read(f))
    }

    /// The actuator after `request` arrived: a valid write addressed to it
    /// sets the bytes it names, anything else changes nothing.
    pub open spec fn after_request(self, request: Seq<u8>) -> ActuatorModel {
        match parsed(request) {
            Ok(f) => if f.id == self.id && is_write(f) {
                ActuatorModel {
                    table: written(self.table, f.params[0] as int, f.params.skip(1)),
                    ..self
                }
            } else {
                self
            },
            Err(_) => self,
        }
    }

    /// What the actuator answers to `request`: the bytes asked for by a valid
    /// read, an acknowledgement without data for a valid write, nothing for
    /// anything else.
    pub open spec fn response_to(self, request: Seq<u8>) -> Option<Seq<u8>> {
        match parsed(request) {
            Ok(f) => if f.id != self.id {
                None
            } else if is_write(f) {
                Some(frame(self.id, STATUS_OK, Seq::empty()))
            } else if is_read(f) {
                Some(
                    frame(
                        self.id,
                        STATUS_OK,
                        self.table.subrange(f.params[0] as int, f.params[0] + f.params[1]),
                    ),
                )
            } else {
                None
            },
            Err(_) => None,
        }
    }
}

/// A response as a mathematical value.
pub open spec fn response_view(response: Option<Vec<u8>>) -> Option<Seq<u8>> {
    match response {
        Some(bytes) => Some(bytes@),
        None => None,
    }
}

/// One actuator.
pub struct Actuator {
    id: u8,
    table: Vec<u8>,
}

impl View for Actuator {
    type V = ActuatorModel;

    closed spec fn view(&self) -> ActuatorModel {
        ActuatorModel { id: self.id, table: self.table@ }
    }
}

impl Actuator {
    /// The invariant of the actuator; see [`ActuatorModel::wf`].
    pub open spec fn wf(&self) -> bool {
        self@.wf()
    }

    /// An actuator that answers to `id`, with a control table of zeros.
    pub fn new(id: u8) -> (actuator: Actuator)
        ensures
            actuator.wf(),
            actuator@.id == id,
            forall|i: int| 0 <= i < TABLE_LEN ==> actuator@.table[i] == 0,
    {
        let mut table: Vec<u8> = Vec::new();
        let mut i: usize = 0;
        while i < TABLE_LEN
            invariant
                i <= TABLE_LEN,
                table@.len() == i,
                forall|k: int| 0 <= k < i ==> table@[k] == 0,
            decreases TABLE_LEN - i,
        {
            table.push(0);
            i = i + 1;
        }
        Actuator { id, table }
    }

    /// The byte of the control table at `register`, or `None` for an address
    /// beyond the table.
    pub fn register(&self, register: u8) -> (value: Option<u8>)
        requires
            self.wf(),
        ensures
            register < TABLE_LEN ==> value == Some(self@.table[register as int]),
            register >= TABLE_LEN ==> value is None,
    {
        if (register as usize) < TABLE_LEN {
            Some(self.table[register as usize])
        } else {
            None
        }
    }

    /// Sets the byte of the control table at `register`, as the actuator's own
    /// sensors do. Returns whether the address lies within the table; an
    /// address beyond it changes nothing.
    pub fn set_register(&mut self, register: u8, value: u8) -> (done: bool)
        requires
            old(self).wf(),
        ensures
            final(self).wf(),
            final(self)@.id == old(self)@.id,
            done == (register < TABLE_LEN),
            done ==> final(self)@.table == old(self)@.table.update(register as int, value),
            !done ==> final(self)@ == old(self)@,
    {
        if (register as usize) < TABLE_LEN {
            self.table[register as usize] = value;
            true
        } else {
            false
        }
    }

    /// Takes in a request and returns the answer, if the actuator gives one.
    pub fn handle(&mut self, request: &[u8]) -> (response: Option<Vec<u8>>)
        requires
            old(self).wf(),
        ensures
            final(self).wf(),
            final(self)@ == old(self)@.after_request(request@),
            response_view(response) == old(self)@.response_to(request@),
    {
        let f = match parse(request) {
            Ok(f) => f,
            Err(_) => {
                return None;
            },
        };
        if f.id != self.id {
            return None;
        }
        let Frame { id, code, params } = f;
        if code == INSTRUCTION_WRITE && params.len() >= 1 && params.len() - 1 <= width_of(
            params[0],
        ) {
            let register: usize = params[0] as usize;
            let count: usize = params.len() - 1;
            let ghost before = self.table@;
            let ghost payload = params@.skip(1);
            let mut k: usize = 0;
            while k < count
                invariant
                    k <= count,
                    count == payload.len(),
                    payload == params@.skip(1),
                    params@.len() == count + 1,
                    count == 0 || register + count <= TABLE_LEN,
                    self.table@.len() == TABLE_LEN,
                    before.len() == TABLE_LEN,
                    self.id == old(self).id,
                    self.table@ == written(before, register as int, payload.take(k as int)),
                decreases count - k,
            {
                self.table[register + k] = params[k + 1];
                k = k + 1;
            }
            proof {
                assert(payload.take(count as int) =~= payload);
            }
            let empty: Vec<u8> = Vec::new();
            Some(assemble(self.id, STATUS_OK, empty.as_slice()).unwrap())
        } else if code == INSTRUCTION_READ && params.len() == 2 && params[0] as usize
            + params[1] as usize <= TABLE_LEN {
            let start: usize = params[0] as usize;
            let end: usize = start + params[1] as usize;
            let mut data: Vec<u8> = Vec::new();
            let mut i: usize = start;
            while i < end
                invariant
                    start <= i <= end <= TABLE_LEN,
                    self.table@.len() == TABLE_LEN,
                    data@ == self.table@.subrange(start as int, i as int),
                decreases end - i,
            {
                data.push(self.table[i]);
                i = i + 1;
            }
            Some(assemble(self.id, STATUS_OK, data.as_slice()).unwrap())
        } else {
            None
        }
    }
}

/// Writing is idempotent: when the same request arrives a second time, the
/// control table is what it was after the first time.
pub proof fn repeated_request_changes_nothing(actuator: ActuatorModel, request: Seq<u8>)
    requires
        actuator.wf(),
    ensures
        actuator.after_request(request).wf(),
        actuator.after_request(request).after_request(request) == actuator.after_request(request),
{
    let once = actuator.after_request(request);
    let twice = once.after_request(request);
    assert(twice.table =~= once.table);
}

/// A move sets the commanded registers and nothing else: after the request of
/// a move arrived at the addressed actuator, the six bytes from the commanded
/// position on hold the position, the travel velocity and the speed, and every
/// other byte of the table is what it was. The same move issued twice leaves
/// the same registers as the move issued once.
pub proof fn move_sets_commanded_registers(
    actuator: ActuatorModel,
    position: i32,
    velocity: u32,
    speed: u32,
)
    requires
        actuator.wf(),
        in_range(position, velocity, speed),
    ensures
        actuator.after_request(move_request(actuator.id, position, velocity, speed)).table
            == written(
            actuator.table,
            REGISTER_TARGET_LOCATION as int,
            move_payload(position, velocity, speed),
        ),
        actuator.after_request(move_request(actuator.id, position, velocity, speed)).table.subrange(
            REGISTER_TARGET_LOCATION as int,
            REGISTER_TARGET_LOCATION + 6,
        ) == move_payload(position, velocity, speed),
        actuator.after_request(move_request(actuator.id, position, velocity, speed)).after_request(
            move_request(actuator.id, position, velocity, speed),
        ) == actuator.after_request(move_request(actuator.id, position, velocity, speed)),
        actuator.response_to(move_request(actuator.id, position, velocity, speed)) == Some(
            frame(actuator.id, STATUS_OK, Seq::empty()),
        ),
{
    let payload = move_payload(position, velocity, speed);
    let params = seq![REGISTER_TARGET_LOCATION] + payload;
    let request = move_request(actuator.id, position, velocity, speed);
    parse_inverts_frame(actuator.id, INSTRUCTION_WRITE, params);
    repeated_request_changes_nothing(actuator, request);
}

/// A live read sees an acknowledged write: once the change of the torque mode
/// has arrived at the actuator, the actuator acknowledges it, and the live
/// read that follows brings telemetry whose torque switch is the byte of the
/// requested mode.
pub proof fn live_read_sees_torque_write(actuator: ActuatorModel, mode: TorqueMode)
    requires
        actuator.wf(),
    ensures
        reply_of(
            CommandKind::Torque,
            actuator.id,
            actuator.response_to(torque_request(actuator.id, mode))->0,
        ) == Ok::<Reply, CoreError>(Reply::Acknowledged),
        actuator.after_request(torque_request(actuator.id, mode)).response_to(
            live_read_request(actuator.id),
        ) is Some,
        reply_of(
            CommandKind::LiveRead,
            actuator.id,
            actuator.after_request(torque_request(actuator.id, mode)).response_to(
                live_read_request(actuator.id),
            )->0,
        ) matches Ok(Reply::Telemetry(t)) && t.torque_switch == mode.spec_register_value(),
{
    let id = actuator.id;
    let write_params = seq![REGISTER_TORQUE_SWITCH] + seq![mode.spec_register_value()];
    parse_inverts_frame(id, INSTRUCTION_WRITE, write_params);
    parse_inverts_frame(id, STATUS_OK, Seq::empty());
    let after = actuator.after_request(torque_request(id, mode));
    let read_params = seq![TELEMETRY_REGISTER, TELEMETRY_LEN as u8];
    parse_inverts_frame(id, INSTRUCTION_READ, read_params);
    let block = after.table.subrange(
        TELEMETRY_REGISTER as int,
        TELEMETRY_REGISTER + TELEMETRY_LEN,
    );
    parse_inverts_frame(id, STATUS_OK, block);
}

} // verus!

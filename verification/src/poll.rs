//! The poll loop: the continuous sweep over the population.
//!
//! A cycle asks every actuator for its telemetry block, in ascending order of
//! identifier. A response that decodes to the telemetry of the actuator asked
//! replaces that actuator's registry entry. Anything else (a timeout, a
//! damaged frame, an answer from another actuator) leaves the entry as it is
//! and is counted as a failure; the sweep goes on with the next actuator.
//! After the last actuator the cycle is counted, whatever the failures.

use vstd::prelude::*;
use crate::codec::{
    decode_response, decoded, encode_read, read_request, Response, ResponseModel, TELEMETRY_LEN,
    TELEMETRY_REGISTER,
};
use crate::error::CoreError;
use crate::registry::{Registry, RegistryModel};
use crate::telemetry::{valid_id, ActuatorTelemetry, MAX_SERVOS};

verus! {

/// The states of the poll loop.
#[derive(Clone, Copy, Debug, PartialEq, Eq, Structural)]
pub enum PollPhase {
    /// Not started yet.
    Idle,
    /// Sweeping.
    Polling,
    /// Stopped on request.
    Stopped,
    /// Ended by the breakdown of the channel.
    Faulted,
}

/// The poll loop as a mathematical value.
pub struct PollModel {
    pub phase: PollPhase,
    /// The actuator whose turn it is.
    pub cursor: u8,
    /// The number of polls that brought no telemetry.
    pub failures: u64,
}

/// The outcome of one poll transaction: the response bytes, or the reason
/// there are none.
pub type Outcome = Result<Seq<u8>, CoreError>;

/// The outcome of a transaction as a mathematical value.
pub open spec fn outcome_view(outcome: Result<Vec<u8>, CoreError>) -> Outcome {
    match outcome {
        Ok(bytes) => Ok(bytes@),
        Err(e) => Err(e),
    }
}

/// The telemetry that the poll of actuator `id` brought, if it brought any:
/// the response must decode to a telemetry block sent by that very actuator.
pub open spec fn telemetry_from(id: u8, outcome: Outcome) -> Option<ActuatorTelemetry> {
    match outcome {
        Ok(bytes) => match decoded(bytes) {
            Ok(ResponseModel::Telemetry { id: from, status, telemetry }) => if from == id {
                Some(telemetry)
            } else {
                None
            },
            _ => None,
        },
        Err(_) => None,
    }
}

/// The actuator whose turn comes after `cursor`.
pub open spec fn next_cursor(cursor: u8) -> u8 {
    if cursor == MAX_SERVOS {
        1
    } else {
        (cursor + 1) as u8
    }
}

/// The registry after the poll of actuator `cursor` ended with `outcome`:
/// the entry is replaced where telemetry came, and the cycle is counted where
/// `cursor` is the last actuator.
pub open spec fn registry_after(registry: RegistryModel, cursor: u8, outcome: Outcome)
    -> RegistryModel {
    let polled = match telemetry_from(cursor, outcome) {
        Some(telemetry) => registry.updated(cursor, telemetry),
        None => registry,
    };
    if cursor == MAX_SERVOS {
        polled.cycle_completed()
    } else {
        polled
    }
}

/// The registry after the polls of the actuators from `cursor` on ended with
/// `outcomes`, one after the other.
pub open spec fn registry_after_all(registry: RegistryModel, cursor: u8, outcomes: Seq<Outcome>)
    -> RegistryModel
    decreases outcomes.len(),
{
    if outcomes.len() == 0 {
        registry
    } else {
        registry_after_all(
            registry_after(registry, cursor, outcomes[0]),
            next_cursor(cursor),
            outcomes.drop_first(),
        )
    }
}

impl PollModel {
    /// The cursor always names an actuator of the population.
    pub open spec fn wf(self) -> bool {
        valid_id(self.cursor)
    }

    /// The poll loop before it is started.
    pub open spec fn idle() -> PollModel {
        PollModel { phase: PollPhase::Idle, cursor: 1, failures: 0 }
    }

    /// The poll loop after the poll of the actuator at the cursor ended with
    /// `outcome`.
    pub open spec fn after_outcome(self, outcome: Outcome) -> PollModel {
        PollModel {
            cursor: next_cursor(self.cursor),
            failures: if telemetry_from(self.cursor, outcome) is None && self.failures
                < u64::MAX {
                (self.failures + 1) as u64
            } else {
                self.failures
            },
            ..self
        }
    }
}

/// The poll loop.
pub struct PollLoop {
    phase: PollPhase,
    cursor: u8,
    failures: u64,
}

impl View for PollLoop {
    type V = PollModel;

    closed spec fn view(&self) -> PollModel {
        PollModel { phase: self.phase, cursor: self.cursor, failures: self.failures }
    }
}

impl PollLoop {
    /// The invariant of the poll loop; see [`PollModel::wf`].
    pub open spec fn wf(&self) -> bool {
        self@.wf()
    }

    /// A poll loop that has not been started: idle, with the first actuator
    /// next.
    pub fn new() -> (poll: PollLoop)
        ensures
            poll.wf(),
            poll@ == PollModel::idle(),
    {
        PollLoop { phase: PollPhase::Idle, cursor: 1, failures: 0 }
    }

    /// The state of the loop.
    pub fn phase(&self) -> (phase: PollPhase)
        ensures
            phase == self@.phase,
    {
        self.phase
    }

    /// The actuator whose turn it is.
    pub fn cursor(&self) -> (cursor: u8)
        ensures
            cursor == self@.cursor,
    {
        self.cursor
    }

    /// The number of polls that brought no telemetry. The count stops at the
    /// largest number it can hold.
    pub fn failures(&self) -> (failures: u64)
        ensures
            failures == self@.failures,
    {
        self.failures
    }

    /// Starts the loop. Fails with `AlreadyRunning`, changing nothing, exactly
    /// when the loop is not idle.
    pub fn start(&mut self) -> (r: Result<(), CoreError>)
        ensures
            old(self)@.phase == PollPhase::Idle ==> r == Ok::<(), CoreError>(()) && final(self)@
                == (PollModel { phase: PollPhase::Polling, ..old(self)@ }),
            old(self)@.phase != PollPhase::Idle ==> r == Err::<(), CoreError>(
                CoreError::AlreadyRunning,
            ) && final(self)@ == old(self)@,
    {
        match self.phase {
            PollPhase::Idle => {
                self.phase = PollPhase::Polling;
                Ok(())
            },
            _ => Err(CoreError::AlreadyRunning),
        }
    }

    /// Stops a polling loop. A loop in any other state stays as it is.
    pub fn stop(&mut self)
        ensures
            old(self)@.phase == PollPhase::Polling ==> final(self)@ == (PollModel {
                phase: PollPhase::Stopped,
                ..old(self)@
            }),
            old(self)@.phase != PollPhase::Polling ==> final(self)@ == old(self)@,
    {
        match self.phase {
            PollPhase::Polling => {
                self.phase = PollPhase::Stopped;
            },
            _ => {},
        }
    }

    /// Ends the loop because the channel broke down. A loop that was stopped
    /// on request stays stopped.
    pub fn fault(&mut self)
        ensures
            old(self)@.phase != PollPhase::Stopped ==> final(self)@ == (PollModel {
                phase: PollPhase::Faulted,
                ..old(self)@
            }),
            old(self)@.phase == PollPhase::Stopped ==> final(self)@ == old(self)@,
    {
        match self.phase {
            PollPhase::Stopped => {},
            _ => {
                self.phase = PollPhase::Faulted;
            },
        }
    }

    /// The request that asks the actuator at the cursor for its telemetry
    /// block.
    pub fn request(&self) -> (frame: Vec<u8>)
        requires
            self.wf(),
        ensures
            frame@ == read_request(self@.cursor, TELEMETRY_REGISTER, TELEMETRY_LEN as u8),
    {
        encode_read(self.cursor, TELEMETRY_REGISTER, TELEMETRY_LEN as u8).unwrap()
    }

    /// Takes in the outcome of the poll of the actuator at the cursor, then
    /// moves the cursor on.
    ///
    /// Where the outcome is the telemetry of that actuator, its registry entry
    /// is replaced. Otherwise the entry stays and the failure is counted. No
    /// other entry is touched. After the last actuator the cycle is counted,
    /// exactly once, and the cursor returns to the first actuator.
    pub fn absorb(&mut self, registry: &mut Registry, outcome: &Result<Vec<u8>, CoreError>)
        requires
            old(self).wf(),
            old(registry).wf(),
            old(registry)@.sequence[old(self)@.cursor - 1] < u64::MAX,
            old(self)@.cursor == MAX_SERVOS ==> old(registry)@.task_run_count < u64::MAX,
        ensures
            final(self).wf(),
            final(registry).wf(),
            final(self)@ == old(self)@.after_outcome(outcome_view(*outcome)),
            final(registry)@ == registry_after(
                old(registry)@,
                old(self)@.cursor,
                outcome_view(*outcome),
            ),
    {
        let id: u8 = self.cursor;
        let mut fresh: Option<ActuatorTelemetry> = None;
        match outcome {
            Ok(bytes) => {
                match decode_response(bytes.as_slice()) {
                    Ok(Response::Telemetry { id: from, status, telemetry }) => {
                        if from == id {
                            fresh = Some(telemetry);
                        }
                    },
                    _ => {},
                }
            },
            Err(_) => {},
        }
        match fresh {
            Some(telemetry) => {
                let _ = registry.apply_update(id, telemetry);
            },
            None => {
                self.failures = self.failures.saturating_add(1);
            },
        }
        if id as usize == MAX_SERVOS {
            registry.complete_cycle();
            self.cursor = 1;
        } else {
            self.cursor = id + 1;
        }
    }
}

/// One poll touches one entry: whatever the poll of the actuator at the cursor
/// brings, the entry of every other actuator stays as it is, and a poll that
/// brings no telemetry leaves every entry as it is.
pub proof fn poll_touches_only_its_entry(
    registry: RegistryModel,
    cursor: u8,
    outcome: Outcome,
    other: u8,
)
    requires
        registry.wf(),
        valid_id(cursor),
        valid_id(other),
    ensures
        registry_after(registry, cursor, outcome).wf(),
        other != cursor ==> registry_after(registry, cursor, outcome).read(other) == registry.read(
            other,
        ),
        telemetry_from(cursor, outcome) is None ==> registry_after(
            registry,
            cursor,
            outcome,
        ).entries == registry.entries,
        telemetry_from(cursor, outcome) matches Some(telemetry) ==> registry_after(
            registry,
            cursor,
            outcome,
        ).read(cursor) == Ok::<ActuatorTelemetry, CoreError>(telemetry),
{
}

/// What one sweep does to the entry at `index`: the telemetry that the poll
/// of its actuator brought, or the entry as it was.
pub open spec fn swept_entry(registry: RegistryModel, outcomes: Seq<Outcome>, index: int)
    -> ActuatorTelemetry {
    match telemetry_from((index + 1) as u8, outcomes[index]) {
        Some(telemetry) => telemetry,
        None => registry.entries[index],
    }
}

/// The rest of a sweep, from the actuator at `cursor` to the last one: the
/// entries before the cursor stay, each entry from the cursor on is decided by
/// the outcome of its own poll alone, and the cycle is counted once.
proof fn rest_of_cycle(registry: RegistryModel, cursor: u8, outcomes: Seq<Outcome>)
    requires
        registry.wf(),
        valid_id(cursor),
        outcomes.len() == MAX_SERVOS - cursor + 1,
        registry.task_run_count < u64::MAX,
    ensures
        registry_after_all(registry, cursor, outcomes).wf(),
        registry_after_all(registry, cursor, outcomes).task_run_count == registry.task_run_count
            + 1,
        registry_after_all(registry, cursor, outcomes).stale == registry.stale,
        forall|i: int|
            0 <= i < cursor - 1 ==> #[trigger] registry_after_all(
                registry,
                cursor,
                outcomes,
            ).entries[i] == registry.entries[i],
        forall|i: int|
            cursor - 1 <= i < MAX_SERVOS ==> #[trigger] registry_after_all(
                registry,
                cursor,
                outcomes,
            ).entries[i] == match telemetry_from((i + 1) as u8, outcomes[i - (cursor - 1)]) {
                Some(telemetry) => telemetry,
                None => registry.entries[i],
            },
    decreases outcomes.len(),
{
    let first = registry_after(registry, cursor, outcomes[0]);
    let rest = outcomes.drop_first();
    let end = registry_after_all(registry, cursor, outcomes);
    assert(end == registry_after_all(first, next_cursor(cursor), rest));
    if cursor < MAX_SERVOS {
        rest_of_cycle(first, (cursor + 1) as u8, rest);
        assert forall|i: int| cursor - 1 <= i < MAX_SERVOS implies #[trigger] end.entries[i]
            == match telemetry_from((i + 1) as u8, outcomes[i - (cursor - 1)]) {
            Some(telemetry) => telemetry,
            None => registry.entries[i],
        } by {}
    }
}

/// One full poll cycle, whatever its failures.
///
/// Starting with the first actuator, let the polls of all actuators end with
/// `outcomes`, the outcome of actuator `id` at index `id - 1`. Then the
/// registry still holds one entry per actuator, the cycle count has gone up
/// by exactly one, and each entry is decided by the outcome of its own poll
/// alone: it holds the telemetry that poll brought, or, where the poll timed
/// out or failed otherwise, what it held before. A failed poll of one actuator
/// therefore changes nothing about the entry of any other.
pub proof fn full_cycle(registry: RegistryModel, outcomes: Seq<Outcome>)
    requires
        registry.wf(),
        registry.task_run_count < u64::MAX,
        outcomes.len() == MAX_SERVOS,
    ensures
        registry_after_all(registry, 1, outcomes).wf(),
        registry_after_all(registry, 1, outcomes).entries.len() == MAX_SERVOS,
        registry_after_all(registry, 1, outcomes).task_run_count == registry.task_run_count + 1,
        registry_after_all(registry, 1, outcomes).stale == registry.stale,
        forall|i: int|
            0 <= i < MAX_SERVOS ==> #[trigger] registry_after_all(registry, 1, outcomes).entries[i]
                == swept_entry(registry, outcomes, i),
{
    rest_of_cycle(registry, 1, outcomes);
}

/// Fault isolation: when the poll of actuator `failed` times out during a
/// cycle, the cycle is still counted, the entry of that actuator stays as it
/// was, and every other actuator whose poll brought telemetry has it in its
/// entry.
pub proof fn timeout_is_isolated(registry: RegistryModel, outcomes: Seq<Outcome>, failed: u8)
    requires
        registry.wf(),
        registry.task_run_count < u64::MAX,
        outcomes.len() == MAX_SERVOS,
        valid_id(failed),
        outcomes[failed - 1] == Err::<Seq<u8>, CoreError>(CoreError::Timeout),
    ensures
        registry_after_all(registry, 1, outcomes).task_run_count == registry.task_run_count + 1,
        registry_after_all(registry, 1, outcomes).entries[failed - 1] == registry.entries[failed
            - 1],
        forall|id: u8|
            valid_id(id) && id != failed && telemetry_from(id, outcomes[id - 1]) is Some
                ==> #[trigger] registry_after_all(registry, 1, outcomes).read(id) == Ok::<
                ActuatorTelemetry,
                CoreError,
            >(telemetry_from(id, outcomes[id - 1])->0),
{
    full_cycle(registry, outcomes);
}

} // verus!

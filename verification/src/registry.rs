//! The actuator registry: the latest telemetry of every actuator and the
//! count of completed poll cycles.
//!
//! The registry is a fixed table with one entry per actuator. An entry is
//! replaced as a whole, so a reader sees either the old or the new telemetry
//! of an actuator, never a mixture. Each entry carries a sequence number that
//! goes up by one with every replacement.

use vstd::prelude::*;
use crate::error::CoreError;
use crate::telemetry::{valid_id, is_valid_id, ActuatorTelemetry, PollSnapshot, MAX_SERVOS};

verus! {

/// The registry as a mathematical value.
pub struct RegistryModel {
    /// The telemetry of actuator `id` at index `id - 1`.
    pub entries: Seq<ActuatorTelemetry>,
    /// How often the entry of actuator `id` was replaced, at index `id - 1`.
    pub sequence: Seq<u64>,
    /// The number of completed poll cycles.
    pub task_run_count: u64,
    /// Whether the entries are no longer refreshed.
    pub stale: bool,
}

impl RegistryModel {
    /// A registry holds exactly one entry and one sequence number per
    /// actuator.
    pub open spec fn wf(self) -> bool {
        &&& self.entries.len() == MAX_SERVOS
        &&& self.sequence.len() == MAX_SERVOS
    }

    /// The registry before any actuator has answered.
    pub open spec fn empty() -> RegistryModel {
        RegistryModel {
            entries: Seq::new(MAX_SERVOS as nat, |i: int| ActuatorTelemetry::spec_zeroed()),
            sequence: Seq::new(MAX_SERVOS as nat, |i: int| 0u64),
            task_run_count: 0,
            stale: false,
        }
    }

    /// The registry after the entry of actuator `id` was replaced by
    /// `telemetry`.
    pub open spec fn updated(self, id: u8, telemetry: ActuatorTelemetry) -> RegistryModel {
        RegistryModel {
            entries: self.entries.update(id - 1, telemetry),
            sequence: self.sequence.update(id - 1, (self.sequence[id - 1] + 1) as u64),
            ..self
        }
    }

    /// The registry after one more poll cycle was completed.
    pub open spec fn cycle_completed(self) -> RegistryModel {
        RegistryModel { task_run_count: (self.task_run_count + 1) as u64, ..self }
    }

    /// What a reader is told about actuator `id`.
    pub open spec fn read(self, id: u8) -> Result<ActuatorTelemetry, CoreError> {
        if valid_id(id) {
            Ok(self.entries[id - 1])
        } else {
            Err(CoreError::InvalidId)
        }
    }
}

/// The table of the latest telemetry.
pub struct Registry {
    entries: Vec<ActuatorTelemetry>,
    sequence: Vec<u64>,
    task_run_count: u64,
    stale: bool,
}

impl View for Registry {
    type V = RegistryModel;

    closed spec fn view(&self) -> RegistryModel {
        RegistryModel {
            entries: self.entries@,
            sequence: self.sequence@,
            task_run_count: self.task_run_count,
            stale: self.stale,
        }
    }
}

impl Registry {
    /// The invariant of the registry: one entry and one sequence number per
    /// actuator.
    pub open spec fn wf(&self) -> bool {
        self@.wf()
    }

    /// A registry in which no actuator has answered yet: every entry is
    /// zero-valued, no cycle is counted.
    pub fn new() -> (registry: Registry)
        ensures
            registry.wf(),
            registry@ == RegistryModel::empty(),
    {
        let mut entries: Vec<ActuatorTelemetry> = Vec::new();
        let mut sequence: Vec<u64> = Vec::new();
        let mut i: usize = 0;
        while i < MAX_SERVOS
            invariant
                i <= MAX_SERVOS,
                entries@.len() == i,
                sequence@.len() == i,
                forall|k: int| 0 <= k < i ==> entries@[k] == ActuatorTelemetry::spec_zeroed(),
                forall|k: int| 0 <= k < i ==> sequence@[k] == 0,
            decreases MAX_SERVOS - i,
        {
            entries.push(ActuatorTelemetry::zeroed());
            sequence.push(0);
            i = i + 1;
        }
        let registry = Registry { entries, sequence, task_run_count: 0, stale: false };
        proof {
            assert(registry@.entries =~= RegistryModel::empty().entries);
            assert(registry@.sequence =~= RegistryModel::empty().sequence);
        }
        registry
    }

    /// Replaces the entry of actuator `id` by `telemetry` and advances its
    /// sequence number by one. Every other entry stays as it is. Fails with
    /// `InvalidId`, changing nothing, exactly when `id` is zero or beyond the
    /// population.
    pub fn apply_update(&mut self, id: u8, telemetry: ActuatorTelemetry) -> (r: Result<
        (),
        CoreError,
    >)
        requires
            old(self).wf(),
            valid_id(id) ==> old(self)@.sequence[id - 1] < u64::MAX,
        ensures
            final(self).wf(),
            !valid_id(id) ==> r == Err::<(), CoreError>(CoreError::InvalidId) && final(self)@
                == old(self)@,
            valid_id(id) ==> r == Ok::<(), CoreError>(()) && final(self)@ == old(self)@.updated(
                id,
                telemetry,
            ),
    {
        if !is_valid_id(id) {
            return Err(CoreError::InvalidId);
        }
        let index: usize = id as usize - 1;
        let next: u64 = self.sequence[index] + 1;
        self.entries[index] = telemetry;
        self.sequence[index] = next;
        Ok(())
    }

    /// A copy of all entries, the cycle count and the staleness flag. The copy
    /// has exactly one entry per actuator, the entry of actuator `id` at index
    /// `id - 1`.
    pub fn snapshot(&self) -> (snapshot: PollSnapshot)
        requires
            self.wf(),
        ensures
            snapshot.servo@ == self@.entries,
            snapshot.servo@.len() == MAX_SERVOS,
            snapshot.task_run_count == self@.task_run_count,
            snapshot.stale == self@.stale,
    {
        let mut servo: Vec<ActuatorTelemetry> = Vec::new();
        let mut i: usize = 0;
        while i < MAX_SERVOS
            invariant
                i <= MAX_SERVOS,
                self.entries@.len() == MAX_SERVOS,
                servo@ == self.entries@.subrange(0, i as int),
            decreases MAX_SERVOS - i,
        {
            servo.push(self.entries[i]);
            i = i + 1;
        }
        PollSnapshot { servo, task_run_count: self.task_run_count, stale: self.stale }
    }

    /// The latest telemetry of actuator `id`; zero-valued when the actuator
    /// has not answered yet. Fails with `InvalidId` exactly when `id` is zero
    /// or beyond the population.
    pub fn read_one(&self, id: u8) -> (r: Result<ActuatorTelemetry, CoreError>)
        requires
            self.wf(),
        ensures
            r == self@.read(id),
    {
        if !is_valid_id(id) {
            return Err(CoreError::InvalidId);
        }
        Ok(self.entries[id as usize - 1])
    }

    /// How often the entry of actuator `id` has been replaced. Fails with
    /// `InvalidId` exactly when `id` is zero or beyond the population.
    pub fn sequence_of(&self, id: u8) -> (r: Result<u64, CoreError>)
        requires
            self.wf(),
        ensures
            !valid_id(id) ==> r == Err::<u64, CoreError>(CoreError::InvalidId),
            valid_id(id) ==> r == Ok::<u64, CoreError>(self@.sequence[id - 1]),
    {
        if !is_valid_id(id) {
            return Err(CoreError::InvalidId);
        }
        Ok(self.sequence[id as usize - 1])
    }

    /// The number of completed poll cycles.
    pub fn task_run_count(&self) -> (count: u64)
        ensures
            count == self@.task_run_count,
    {
        self.task_run_count
    }

    /// Whether the entries are no longer refreshed.
    pub fn is_stale(&self) -> (stale: bool)
        ensures
            stale == self@.stale,
    {
        self.stale
    }

    /// Counts one more completed poll cycle. Nothing else changes.
    pub fn complete_cycle(&mut self)
        requires
            old(self).wf(),
            old(self)@.task_run_count < u64::MAX,
        ensures
            final(self).wf(),
            final(self)@ == old(self)@.cycle_completed(),
    {
        self.task_run_count = self.task_run_count + 1;
    }

    /// Marks the entries as no longer refreshed. The mark is never taken back.
    pub fn mark_stale(&mut self)
        requires
            old(self).wf(),
        ensures
            final(self).wf(),
            final(self)@ == (RegistryModel { stale: true, ..old(self)@ }),
    {
        self.stale = true;
    }
}

/// A snapshot and a single read agree: the entry a snapshot holds at index
/// `id - 1` is the telemetry that a read of actuator `id` returns.
pub proof fn snapshot_index_is_id(registry: RegistryModel, id: u8)
    requires
        registry.wf(),
        valid_id(id),
    ensures
        registry.read(id) == Ok::<ActuatorTelemetry, CoreError>(registry.entries[id - 1]),
        0 <= id - 1 < registry.entries.len(),
{
}

/// An update is seen by a read of the same actuator and by no read of another
/// one; it leaves the cycle count alone.
pub proof fn update_touches_one_entry(
    registry: RegistryModel,
    id: u8,
    telemetry: ActuatorTelemetry,
    other: u8,
)
    requires
        registry.wf(),
        valid_id(id),
    ensures
        registry.updated(id, telemetry).wf(),
        registry.updated(id, telemetry).read(id) == Ok::<ActuatorTelemetry, CoreError>(telemetry),
        other != id ==> registry.updated(id, telemetry).read(other) == registry.read(other),
        registry.updated(id, telemetry).task_run_count == registry.task_run_count,
{
}

} // verus!

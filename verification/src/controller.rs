//! The core: registry, poll loop, dispatcher and bus behind one interface.
//!
//! The core never touches the channel. Callers hand it commands; the driver
//! that owns the channel asks it what to transmit
//! ([`Core::next_transmission`]) and tells it what the channel did
//! ([`Core::handle_event`]). Poll transactions and commands share the one bus
//! queue, so a command issued in the middle of a poll cycle goes onto the wire
//! between two polls and never together with one.

use vstd::prelude::*;
use crate::codec::{read_request, TELEMETRY_LEN, TELEMETRY_REGISTER};
use crate::dispatch::{
    expected_len, judge, live_read_request, move_plan, plan_live_read, plan_move, plan_torque,
    plan_view, response_length, torque_request, verdict, CommandKind, Reply, Verdict,
    MAX_RETRIES, TELEMETRY_RESPONSE_LEN,
};
use crate::error::CoreError;
use crate::poll::{registry_after, Outcome, PollLoop, PollModel, PollPhase};
use crate::registry::{Registry, RegistryModel};
use crate::telemetry::{valid_id, ActuatorTelemetry, PollSnapshot, TorqueMode, MAX_SERVOS};
use crate::transport::{
    completion_view, Bus, BusModel, Completion, CompletionModel, Request, RequestModel,
    Transmission,
};

verus! {

/// How the channel is to be used.
#[derive(Clone, Copy, Debug, PartialEq, Eq, Structural)]
pub struct ChannelConfig {
    /// Line speed in bits per second.
    pub baud_rate: u32,
    /// How long a transaction waits for its response, in milliseconds.
    pub timeout_ms: u32,
}

impl ChannelConfig {
    /// A configuration can be used when its line speed and its timeout are
    /// not zero.
    pub open spec fn valid(self) -> bool {
        self.baud_rate > 0 && self.timeout_ms > 0
    }

    /// Whether the configuration can be used.
    pub fn is_valid(&self) -> (ok: bool)
        ensures
            ok == self.valid(),
    {
        self.baud_rate > 0 && self.timeout_ms > 0
    }
}

/// Who a bus transaction belongs to.
#[derive(Clone, Copy, Debug, PartialEq, Eq, Structural)]
pub enum Origin {
    /// The poll loop.
    Poll,
    /// A command: its handle, the actuator it addresses, its kind and the
    /// number of further attempts it is allowed.
    Command { handle: u64, id: u8, kind: CommandKind, retries_left: u8 },
}

/// What the channel did.
#[derive(Clone, Debug, PartialEq, Eq)]
pub enum ChannelEvent {
    /// Response bytes arrived.
    Received(Vec<u8>),
    /// Time passed without further bytes: so many milliseconds.
    Elapsed(u32),
    /// The running transaction failed; the channel can still be used.
    Failed,
    /// The channel broke down for good.
    Closed,
}

/// A channel event as a mathematical value.
pub enum EventModel {
    Received(Seq<u8>),
    Elapsed(u32),
    Failed,
    Closed,
}

impl View for ChannelEvent {
    type V = EventModel;

    open spec fn view(&self) -> EventModel {
        match self {
            ChannelEvent::Received(bytes) => EventModel::Received(bytes@),
            ChannelEvent::Elapsed(ms) => EventModel::Elapsed(*ms),
            ChannelEvent::Failed => EventModel::Failed,
            ChannelEvent::Closed => EventModel::Closed,
        }
    }
}

/// The end of a command: its handle and its result.
#[derive(Clone, Copy, Debug, PartialEq, Eq)]
pub struct Report {
    pub handle: u64,
    pub result: Result<Reply, CoreError>,
}

/// The reports for the commands among `held` when the channel breaks down:
/// each ends with `IoError`, in the order in which they were held.
pub open spec fn closed_reports(held: Seq<RequestModel<Origin>>) -> Seq<Report>
    decreases held.len(),
{
    if held.len() == 0 {
        Seq::empty()
    } else {
        let before = closed_reports(held.drop_last());
        match held.last().tag {
            Origin::Command { handle, id, kind, retries_left } => before.push(
                Report { handle, result: Err(CoreError::IoError) },
            ),
            Origin::Poll => before,
        }
    }
}

/// The core as a mathematical value.
pub struct CoreModel {
    pub config: ChannelConfig,
    pub registry: RegistryModel,
    pub poll: PollModel,
    pub bus: BusModel<Origin>,
    /// The handle the next command gets.
    pub next_handle: u64,
}

impl CoreModel {
    /// The invariant of the core.
    ///
    /// Its parts are well formed. While the loop is idle or polling the bus is
    /// open. The registry is marked stale exactly when the loop has faulted.
    /// No entry has been replaced more often than polls of its actuator have
    /// ended.
    pub open spec fn wf(self) -> bool {
        &&& self.config.valid()
        &&& self.registry.wf()
        &&& self.poll.wf()
        &&& self.bus.wf()
        &&& (self.bus.closed ==> self.poll.phase == PollPhase::Stopped || self.poll.phase
            == PollPhase::Faulted)
        &&& (self.registry.stale <==> self.poll.phase == PollPhase::Faulted)
        &&& forall|i: int|
            0 <= i < MAX_SERVOS ==> #[trigger] self.registry.sequence[i]
                <= self.registry.task_run_count + (if i < self.poll.cursor - 1 {
                1int
            } else {
                0int
            })
    }

    /// The core right after initialization.
    pub open spec fn initial(config: ChannelConfig) -> CoreModel {
        CoreModel {
            config,
            registry: RegistryModel::empty(),
            poll: PollModel::idle(),
            bus: BusModel::empty(),
            next_handle: 0,
        }
    }

    /// The transaction that polls the actuator at the cursor.
    pub open spec fn poll_request(self) -> RequestModel<Origin> {
        RequestModel {
            frame: read_request(self.poll.cursor, TELEMETRY_REGISTER, TELEMETRY_LEN as u8),
            expected_len: TELEMETRY_RESPONSE_LEN,
            timeout_ms: self.config.timeout_ms,
            tag: Origin::Poll,
        }
    }

    /// The core after polling was asked to start: an idle loop starts polling
    /// and submits the poll of the actuator at the cursor.
    pub open spec fn after_start(self) -> CoreModel {
        if self.poll.phase == PollPhase::Idle {
            CoreModel {
                poll: PollModel { phase: PollPhase::Polling, ..self.poll },
                bus: self.bus.after_submit(self.poll_request()),
                ..self
            }
        } else {
            self
        }
    }

    /// The core after polling was asked to stop.
    pub open spec fn after_stop(self) -> CoreModel {
        if self.poll.phase == PollPhase::Polling {
            CoreModel { poll: PollModel { phase: PollPhase::Stopped, ..self.poll }, ..self }
        } else {
            self
        }
    }

    /// The transaction of a new command.
    pub open spec fn command_request(self, frame: Seq<u8>, kind: CommandKind, id: u8)
        -> RequestModel<Origin> {
        RequestModel {
            frame,
            expected_len: expected_len(kind),
            timeout_ms: self.config.timeout_ms,
            tag: Origin::Command {
                handle: self.next_handle,
                id,
                kind,
                retries_left: MAX_RETRIES,
            },
        }
    }

    /// What a command with the plan `plan` returns: the error of a refused
    /// plan, `IoError` at once where the bus is closed, else its handle.
    pub open spec fn command_result(self, plan: Result<Seq<u8>, CoreError>) -> Result<
        u64,
        CoreError,
    > {
        match plan {
            Err(e) => Err(e),
            Ok(frame) => if self.bus.closed {
                Err(CoreError::IoError)
            } else {
                Ok(self.next_handle)
            },
        }
    }

    /// The core after a command with the plan `plan` was issued: an accepted
    /// command is submitted to the bus and takes the next handle; a refused
    /// one changes nothing. The registry is never touched.
    pub open spec fn after_command(
        self,
        plan: Result<Seq<u8>, CoreError>,
        kind: CommandKind,
        id: u8,
    ) -> CoreModel {
        match plan {
            Ok(frame) => if self.bus.closed {
                self
            } else {
                CoreModel {
                    bus: self.bus.after_submit(self.command_request(frame, kind, id)),
                    next_handle: (self.next_handle + 1) as u64,
                    ..self
                }
            },
            Err(e) => self,
        }
    }

    /// The core after the poll of the actuator at the cursor ended with
    /// `outcome`: the registry and the cursor move on, and a loop that is
    /// still polling submits the poll of the next actuator.
    pub open spec fn after_poll(self, outcome: Outcome) -> CoreModel {
        let polled = CoreModel {
            registry: registry_after(self.registry, self.poll.cursor, outcome),
            poll: self.poll.after_outcome(outcome),
            ..self
        };
        if polled.poll.phase == PollPhase::Polling {
            CoreModel { bus: polled.bus.after_submit(polled.poll_request()), ..polled }
        } else {
            polled
        }
    }

    /// The core after the transaction `done` ended. A poll is taken into the
    /// registry. A command that is to be tried again is submitted anew, behind
    /// all that wait, with one attempt less.
    pub open spec fn after_completion(self, done: CompletionModel<Origin>) -> CoreModel {
        match done.request.tag {
            Origin::Poll => self.after_poll(done.outcome),
            Origin::Command { handle, id, kind, retries_left } => match verdict(
                kind,
                id,
                retries_left,
                done.outcome,
            ) {
                Verdict::Retry => CoreModel {
                    bus: self.bus.after_submit(
                        RequestModel {
                            tag: Origin::Command {
                                handle,
                                id,
                                kind,
                                retries_left: (retries_left - 1) as u8,
                            },
                            ..done.request
                        },
                    ),
                    ..self
                },
                Verdict::Done(result) => self,
            },
        }
    }

    /// The report that the end of the transaction `done` gives rise to: none
    /// for a poll and for a command that is tried again, the result for a
    /// command that has ended.
    pub open spec fn completion_report(done: CompletionModel<Origin>) -> Option<Report> {
        match done.request.tag {
            Origin::Poll => None,
            Origin::Command { handle, id, kind, retries_left } => match verdict(
                kind,
                id,
                retries_left,
                done.outcome,
            ) {
                Verdict::Retry => None,
                Verdict::Done(result) => Some(Report { handle, result }),
            },
        }
    }

    /// The core with the bus replaced, after an optional completion.
    pub open spec fn settled(self, bus: BusModel<Origin>, done: Option<CompletionModel<Origin>>)
        -> CoreModel {
        let next = CoreModel { bus, ..self };
        match done {
            Some(c) => next.after_completion(c),
            None => next,
        }
    }

    /// The reports of an optional completion.
    pub open spec fn settled_reports(done: Option<CompletionModel<Origin>>) -> Seq<Report> {
        match done {
            Some(c) => match CoreModel::completion_report(c) {
                Some(report) => seq![report],
                None => Seq::empty(),
            },
            None => Seq::empty(),
        }
    }

    /// The core after the channel broke down: the bus is closed and emptied, a
    /// loop that was not stopped on request is faulted, and the registry of a
    /// faulted loop is marked stale.
    pub open spec fn after_breakdown(self) -> CoreModel {
        if self.poll.phase == PollPhase::Stopped {
            CoreModel { bus: self.bus.after_close(), ..self }
        } else {
            CoreModel {
                bus: self.bus.after_close(),
                poll: PollModel { phase: PollPhase::Faulted, ..self.poll },
                registry: RegistryModel { stale: true, ..self.registry },
                ..self
            }
        }
    }

    /// The core after the channel event `event`.
    pub open spec fn after_event(self, event: EventModel) -> CoreModel {
        match event {
            EventModel::Received(chunk) => self.settled(
                self.bus.after_receive(chunk),
                self.bus.receive_result(chunk),
            ),
            EventModel::Elapsed(ms) => self.settled(self.bus.after_tick(ms), self.bus.tick_result(ms)),
            EventModel::Failed => self.settled(self.bus.after_fail(), self.bus.fail_result()),
            EventModel::Closed => self.after_breakdown(),
        }
    }

    /// The commands that end with the channel event `event`, in order.
    pub open spec fn event_reports(self, event: EventModel) -> Seq<Report> {
        match event {
            EventModel::Received(chunk) => CoreModel::settled_reports(
                self.bus.receive_result(chunk),
            ),
            EventModel::Elapsed(ms) => CoreModel::settled_reports(self.bus.tick_result(ms)),
            EventModel::Failed => CoreModel::settled_reports(self.bus.fail_result()),
            EventModel::Closed => closed_reports(self.bus.held()),
        }
    }
}

/// The core.
pub struct Core {
    config: ChannelConfig,
    registry: Registry,
    poll: PollLoop,
    bus: Bus<Origin>,
    next_handle: u64,
}

impl View for Core {
    type V = CoreModel;

    closed spec fn view(&self) -> CoreModel {
        CoreModel {
            config: self.config,
            registry: self.registry@,
            poll: self.poll@,
            bus: self.bus@,
            next_handle: self.next_handle,
        }
    }
}

impl Core {
    /// The invariant of the core; see [`CoreModel::wf`].
    pub open spec fn wf(&self) -> bool {
        self@.wf()
    }

    /// Sets the core up for a channel that the driver has tried to open.
    ///
    /// Fails with `ConfigInvalid` exactly when the configuration cannot be
    /// used, and with `ChannelUnavailable` exactly when the configuration is
    /// valid but the channel could not be opened. Otherwise the core starts
    /// with zero-valued telemetry, an idle poll loop and an empty bus.
    pub fn initialize(config: ChannelConfig, channel_open: bool) -> (r: Result<Core, CoreError>)
        ensures
            !config.valid() ==> (r matches Err(e) && e == CoreError::ConfigInvalid),
            config.valid() && !channel_open ==> (r matches Err(e) && e
                == CoreError::ChannelUnavailable),
            config.valid() && channel_open ==> (r matches Ok(core) && core.wf() && core@
                == CoreModel::initial(config)),
    {
        if !config.is_valid() {
            return Err(CoreError::ConfigInvalid);
        }
        if !channel_open {
            return Err(CoreError::ChannelUnavailable);
        }
        Ok(
            Core {
                config,
                registry: Registry::new(),
                poll: PollLoop::new(),
                bus: Bus::new(),
                next_handle: 0,
            },
        )
    }

    /// The state of the poll loop.
    pub fn phase(&self) -> (phase: PollPhase)
        ensures
            phase == self@.poll.phase,
    {
        self.poll.phase()
    }

    /// The number of polls that brought no telemetry.
    pub fn poll_failures(&self) -> (failures: u64)
        ensures
            failures == self@.poll.failures,
    {
        self.poll.failures()
    }

    /// The number of completed poll cycles.
    pub fn task_run_count(&self) -> (count: u64)
        ensures
            count == self@.registry.task_run_count,
    {
        self.registry.task_run_count()
    }

    /// The handle the next command gets.
    pub fn next_handle(&self) -> (handle: u64)
        ensures
            handle == self@.next_handle,
    {
        self.next_handle
    }

    /// Whether a transaction is on the wire.
    pub fn is_busy(&self) -> (busy: bool)
        ensures
            busy == (self@.bus.active is Some),
    {
        self.bus.is_busy()
    }

    /// Whether the channel has broken down for good.
    pub fn is_closed(&self) -> (closed: bool)
        ensures
            closed == self@.bus.closed,
    {
        self.bus.is_closed()
    }

    /// Starts the poll loop. Fails with `AlreadyRunning`, changing nothing,
    /// exactly when the loop is not idle.
    pub fn start_polling(&mut self) -> (r: Result<(), CoreError>)
        requires
            old(self).wf(),
        ensures
            final(self).wf(),
            final(self)@ == old(self)@.after_start(),
            old(self)@.poll.phase == PollPhase::Idle ==> r == Ok::<(), CoreError>(()),
            old(self)@.poll.phase != PollPhase::Idle ==> r == Err::<(), CoreError>(
                CoreError::AlreadyRunning,
            ),
    {
        match self.poll.start() {
            Err(e) => Err(e),
            Ok(()) => {
                self.submit_poll();
                Ok(())
            },
        }
    }

    /// Stops the poll loop. A poll that is already submitted still runs to its
    /// end and is taken into the registry; no further poll is submitted.
    pub fn stop_polling(&mut self)
        requires
            old(self).wf(),
        ensures
            final(self).wf(),
            final(self)@ == old(self)@.after_stop(),
    {
        self.poll.stop();
    }

    /// A copy of the latest telemetry of the whole population, with the cycle
    /// count and the staleness flag: exactly one entry per actuator, the entry
    /// of actuator `id` at index `id - 1`.
    pub fn snapshot(&self) -> (snapshot: PollSnapshot)
        requires
            self.wf(),
        ensures
            snapshot.servo@ == self@.registry.entries,
            snapshot.servo@.len() == MAX_SERVOS,
            snapshot.task_run_count == self@.registry.task_run_count,
            snapshot.stale == self@.registry.stale,
    {
        self.registry.snapshot()
    }

    /// The latest telemetry of actuator `id` as the registry holds it. Fails
    /// with `InvalidId` exactly when `id` is zero or beyond the population.
    pub fn read_one(&self, id: u8) -> (r: Result<ActuatorTelemetry, CoreError>)
        requires
            self.wf(),
        ensures
            r == self@.registry.read(id),
    {
        self.registry.read_one(id)
    }

    /// Issues a move of actuator `id` to `position`, with the travel velocity
    /// `velocity` and the speed `speed`.
    ///
    /// Fails with `InvalidId` for an identifier outside the population, with
    /// `OutOfRange` for a value that does not fit its register, and with
    /// `IoError` when the channel has broken down; a failed call changes
    /// nothing. Otherwise the write is queued on the bus and the handle of the
    /// command is returned; its result arrives as a report with that handle.
    pub fn move_to(&mut self, id: u8, position: i32, velocity: u32, speed: u32) -> (r: Result<
        u64,
        CoreError,
    >)
        requires
            old(self).wf(),
            old(self)@.next_handle < u64::MAX,
        ensures
            final(self).wf(),
            r == old(self)@.command_result(move_plan(id, position, velocity, speed)),
            final(self)@ == old(self)@.after_command(
                move_plan(id, position, velocity, speed),
                CommandKind::Move,
                id,
            ),
    {
        let plan = plan_move(id, position, velocity, speed);
        self.issue(plan, CommandKind::Move, id)
    }

    /// Issues a change of the torque mode of actuator `id`.
    ///
    /// Fails with `InvalidId` for an identifier outside the population and
    /// with `IoError` when the channel has broken down; a failed call changes
    /// nothing. Otherwise the write is queued on the bus and the handle of the
    /// command is returned. The registry is not touched: the observed torque
    /// switch changes only when a later poll reads it.
    pub fn set_torque_mode(&mut self, id: u8, mode: TorqueMode) -> (r: Result<u64, CoreError>)
        requires
            old(self).wf(),
            old(self)@.next_handle < u64::MAX,
        ensures
            final(self).wf(),
            r == old(self)@.command_result(
                if valid_id(id) {
                    Ok(torque_request(id, mode))
                } else {
                    Err(CoreError::InvalidId)
                },
            ),
            final(self)@ == old(self)@.after_command(
                if valid_id(id) {
                    Ok(torque_request(id, mode))
                } else {
                    Err(CoreError::InvalidId)
                },
                CommandKind::Torque,
                id,
            ),
            final(self)@.registry == old(self)@.registry,
    {
        let plan = plan_torque(id, mode);
        self.issue(plan, CommandKind::Torque, id)
    }

    /// Issues a read of the telemetry of actuator `id` that bypasses the
    /// registry.
    ///
    /// Fails with `InvalidId` for an identifier outside the population and
    /// with `IoError` when the channel has broken down; a failed call changes
    /// nothing. Otherwise the read is queued on the bus and the handle of the
    /// command is returned; the telemetry arrives in the report with that
    /// handle and is not written to the registry.
    pub fn read_one_live(&mut self, id: u8) -> (r: Result<u64, CoreError>)
        requires
            old(self).wf(),
            old(self)@.next_handle < u64::MAX,
        ensures
            final(self).wf(),
            r == old(self)@.command_result(
                if valid_id(id) {
                    Ok(live_read_request(id))
                } else {
                    Err(CoreError::InvalidId)
                },
            ),
            final(self)@ == old(self)@.after_command(
                if valid_id(id) {
                    Ok(live_read_request(id))
                } else {
                    Err(CoreError::InvalidId)
                },
                CommandKind::LiveRead,
                id,
            ),
    {
        let plan = plan_live_read(id);
        self.issue(plan, CommandKind::LiveRead, id)
    }

    /// Tells the driver what to put on the wire next: the oldest waiting
    /// transaction. Returns `None`, changing nothing, while a transaction is
    /// on the wire or when nothing waits.
    pub fn next_transmission(&mut self) -> (next: Option<Transmission>)
        requires
            old(self).wf(),
        ensures
            final(self).wf(),
            final(self)@ == (CoreModel { bus: old(self)@.bus.after_begin(), ..old(self)@ }),
            next is Some <==> old(self)@.bus.can_begin(),
            next matches Some(t) ==> {
                &&& t.frame@ == old(self)@.bus.pending[0].frame
                &&& t.expected_len == old(self)@.bus.pending[0].expected_len
                &&& t.timeout_ms == old(self)@.bus.pending[0].timeout_ms
            },
    {
        self.bus.begin()
    }

    /// Takes in what the channel did and returns the commands that ended with
    /// it.
    ///
    /// Bytes and elapsed time are handed to the transaction on the wire. When
    /// that transaction ends, a poll is taken into the registry and the next
    /// poll is submitted; a command that timed out with attempts left is
    /// submitted again; any other command is reported. When the channel breaks
    /// down, every command the bus holds is reported with `IoError`, the poll
    /// loop is faulted and the registry is marked stale.
    pub fn handle_event(&mut self, event: ChannelEvent) -> (reports: Vec<Report>)
        requires
            old(self).wf(),
            old(self)@.registry.task_run_count < u64::MAX,
        ensures
            final(self).wf(),
            final(self)@ == old(self)@.after_event(event@),
            reports@ == old(self)@.event_reports(event@),
    {
        match event {
            ChannelEvent::Received(chunk) => {
                let done = self.bus.receive(chunk.as_slice());
                self.settle(done)
            },
            ChannelEvent::Elapsed(ms) => {
                let done = self.bus.tick(ms);
                self.settle(done)
            },
            ChannelEvent::Failed => {
                let done = self.bus.fail();
                self.settle(done)
            },
            ChannelEvent::Closed => self.break_down(),
        }
    }

    /// Submits the poll of the actuator at the cursor.
    fn submit_poll(&mut self)
        requires
            old(self)@.poll.wf(),
            old(self)@.bus.wf(),
        ensures
            final(self)@ == (CoreModel {
                bus: old(self)@.bus.after_submit(old(self)@.poll_request()),
                ..old(self)@
            }),
            final(self)@.bus.wf(),
    {
        let frame = self.poll.request();
        let _ = self.bus.transact(
            frame,
            TELEMETRY_RESPONSE_LEN,
            self.config.timeout_ms,
            Origin::Poll,
        );
    }

    /// Queues a planned command and hands out its handle.
    fn issue(&mut self, plan: Result<Vec<u8>, CoreError>, kind: CommandKind, id: u8) -> (r: Result<
        u64,
        CoreError,
    >)
        requires
            old(self).wf(),
            old(self)@.next_handle < u64::MAX,
        ensures
            final(self).wf(),
            r == old(self)@.command_result(plan_view(plan)),
            final(self)@ == old(self)@.after_command(plan_view(plan), kind, id),
            final(self)@.registry == old(self)@.registry,
    {
        match plan {
            Err(e) => Err(e),
            Ok(frame) => {
                if self.bus.is_closed() {
                    return Err(CoreError::IoError);
                }
                let handle: u64 = self.next_handle;
                let _ = self.bus.transact(
                    frame,
                    response_length(kind),
                    self.config.timeout_ms,
                    Origin::Command { handle, id, kind, retries_left: MAX_RETRIES },
                );
                self.next_handle = handle + 1;
                Ok(handle)
            },
        }
    }

    /// Takes in the end of a transaction, if there is one.
    fn settle(&mut self, done: Option<Completion<Origin>>) -> (reports: Vec<Report>)
        requires
            old(self).wf(),
            old(self)@.registry.task_run_count < u64::MAX,
            done is Some ==> !old(self)@.bus.closed,
        ensures
            final(self).wf(),
            final(self)@ == old(self)@.settled(old(self)@.bus, completion_view(done)),
            reports@ == CoreModel::settled_reports(completion_view(done)),
    {
        let mut reports: Vec<Report> = Vec::new();
        match done {
            None => {},
            Some(completion) => {
                let Completion { request, outcome } = completion;
                match request.tag {
                    Origin::Poll => {
                        self.poll.absorb(&mut self.registry, &outcome);
                        match self.poll.phase() {
                            PollPhase::Polling => {
                                self.submit_poll();
                            },
                            _ => {},
                        }
                    },
                    Origin::Command { handle, id, kind, retries_left } => {
                        match judge(kind, id, retries_left, &outcome) {
                            Verdict::Retry => {
                                let again = Request {
                                    frame: request.frame,
                                    expected_len: request.expected_len,
                                    timeout_ms: request.timeout_ms,
                                    tag: Origin::Command {
                                        handle,
                                        id,
                                        kind,
                                        retries_left: retries_left - 1,
                                    },
                                };
                                let _ = self.bus.submit(again);
                            },
                            Verdict::Done(result) => {
                                reports.push(Report { handle, result });
                            },
                        }
                    },
                }
            },
        }
        reports
    }

    /// Takes in the breakdown of the channel.
    fn break_down(&mut self) -> (reports: Vec<Report>)
        requires
            old(self).wf(),
        ensures
            final(self).wf(),
            final(self)@ == old(self)@.after_breakdown(),
            reports@ == closed_reports(old(self)@.bus.held()),
    {
        let flushed = self.bus.close();
        self.poll.fault();
        match self.poll.phase() {
            PollPhase::Faulted => {
                self.registry.mark_stale();
            },
            _ => {},
        }
        let ghost held = old(self)@.bus.held();
        let mut reports: Vec<Report> = Vec::new();
        let mut i: usize = 0;
        while i < flushed.len()
            invariant
                i <= flushed@.len(),
                flushed@.len() == held.len(),
                forall|k: int|
                    0 <= k < flushed@.len() ==> (#[trigger] flushed@[k])@ == (CompletionModel {
                        request: held[k],
                        outcome: Err(CoreError::IoError),
                    }),
                reports@ == closed_reports(held.take(i as int)),
            decreases flushed@.len() - i,
        {
            proof {
                assert(held.take(i + 1).drop_last() =~= held.take(i as int));
            }
            match flushed[i].request.tag {
                Origin::Command { handle, id, kind, retries_left } => {
                    reports.push(Report { handle, result: Err(CoreError::IoError) });
                },
                Origin::Poll => {},
            }
            i = i + 1;
        }
        proof {
            assert(held.take(held.len() as int) =~= held);
        }
        reports
    }
}

impl CoreModel {
    /// The core after the polls of the actuators from the cursor on ended
    /// with `outcomes`, one after the other.
    pub open spec fn after_polls(self, outcomes: Seq<Outcome>) -> CoreModel
        decreases outcomes.len(),
    {
        if outcomes.len() == 0 {
            self
        } else {
            self.after_poll(outcomes[0]).after_polls(outcomes.drop_first())
        }
    }
}

/// Mutual exclusion holds in every state of the core: whatever callers issue
/// and whatever the channel does, the core stays well formed, and a well-formed
/// core has at most one transaction on the wire.
pub proof fn core_stays_well_formed(
    core: CoreModel,
    event: EventModel,
    plan: Result<Seq<u8>, CoreError>,
    kind: CommandKind,
    id: u8,
)
    requires
        core.wf(),
        core.registry.task_run_count < u64::MAX,
    ensures
        core.bus.in_flight() <= 1,
        core.after_start().wf(),
        core.after_stop().wf(),
        core.after_command(plan, kind, id).wf(),
        (CoreModel { bus: core.bus.after_begin(), ..core }).wf(),
        core.after_event(event).wf(),
        core.after_event(event).bus.in_flight() <= 1,
{
    let request = core.poll_request();
    crate::transport::events_preserve_wf(core.bus, request, Seq::empty(), 0);
    match plan {
        Ok(frame) => {
            crate::transport::events_preserve_wf(
                core.bus,
                core.command_request(frame, kind, id),
                Seq::empty(),
                0,
            );
        },
        Err(_) => {},
    }
    match event {
        EventModel::Received(chunk) => {
            crate::transport::events_preserve_wf(core.bus, request, chunk, 0);
            settling_preserves_wf(
                core,
                core.bus.after_receive(chunk),
                core.bus.receive_result(chunk),
            );
        },
        EventModel::Elapsed(ms) => {
            crate::transport::events_preserve_wf(core.bus, request, Seq::empty(), ms);
            settling_preserves_wf(core, core.bus.after_tick(ms), core.bus.tick_result(ms));
        },
        EventModel::Failed => {
            settling_preserves_wf(core, core.bus.after_fail(), core.bus.fail_result());
        },
        EventModel::Closed => {},
    }
}

/// Taking in the end of a transaction keeps the core well formed.
proof fn settling_preserves_wf(
    core: CoreModel,
    bus: BusModel<Origin>,
    done: Option<CompletionModel<Origin>>,
)
    requires
        core.wf(),
        core.registry.task_run_count < u64::MAX,
        bus.wf(),
        bus.closed == core.bus.closed,
    ensures
        core.settled(bus, done).wf(),
{
    let next = CoreModel { bus, ..core };
    match done {
        None => {},
        Some(c) => {
            match c.request.tag {
                Origin::Poll => {
                    let polled = CoreModel {
                        registry: registry_after(next.registry, next.poll.cursor, c.outcome),
                        poll: next.poll.after_outcome(c.outcome),
                        ..next
                    };
                    crate::transport::events_preserve_wf(
                        bus,
                        polled.poll_request(),
                        Seq::empty(),
                        0,
                    );
                },
                Origin::Command { handle, id, kind, retries_left } => {
                    let again = RequestModel {
                        tag: Origin::Command {
                            handle,
                            id,
                            kind,
                            retries_left: (retries_left - 1) as u8,
                        },
                        ..c.request
                    };
                    crate::transport::events_preserve_wf(bus, again, Seq::empty(), 0);
                },
            }
        },
    }
}

/// Commands never write to the registry: neither issuing a command nor the
/// end of a command's transaction changes an entry, a sequence number, the
/// cycle count or the staleness flag. What a command changed at the actuator
/// shows in the registry only when a later poll reads it.
pub proof fn commands_leave_the_registry_alone(
    core: CoreModel,
    plan: Result<Seq<u8>, CoreError>,
    kind: CommandKind,
    id: u8,
    done: CompletionModel<Origin>,
)
    ensures
        core.after_command(plan, kind, id).registry == core.registry,
        core.after_command(plan, kind, id).poll == core.poll,
        done.request.tag is Command ==> core.after_completion(done).registry == core.registry,
        done.request.tag is Command ==> core.after_completion(done).poll == core.poll,
{
}

/// No command is dropped in silence: when the transaction of a command ends
/// while the channel is up, the command is either reported under its handle,
/// or it is queued once more, behind all that wait, with one attempt less.
pub proof fn command_is_retried_or_reported(core: CoreModel, done: CompletionModel<Origin>)
    requires
        core.wf(),
        !core.bus.closed,
        done.request.tag is Command,
    ensures
        CoreModel::completion_report(done) matches Some(report) ==> report.handle
            == done.request.tag->handle && core.after_completion(done) == core,
        CoreModel::completion_report(done) is None ==> {
            let queued = core.after_completion(done).bus.pending;
            &&& done.outcome == Err::<Seq<u8>, CoreError>(CoreError::Timeout)
            &&& done.request.tag->retries_left > 0
            &&& queued.len() == core.bus.pending.len() + 1
            &&& queued.last().frame == done.request.frame
            &&& queued.last().tag is Command
            &&& queued.last().tag->handle == done.request.tag->handle
            &&& queued.last().tag->retries_left + 1 == done.request.tag->retries_left
        },
{
}

/// The polls the core takes in drive the registry exactly as the poll loop
/// prescribes: after the polls from the cursor on ended with `outcomes`, the
/// registry is the one that these outcomes lead to, whatever commands were
/// served in between.
pub proof fn polls_drive_the_registry(core: CoreModel, outcomes: Seq<Outcome>)
    ensures
        core.after_polls(outcomes).registry == crate::poll::registry_after_all(
            core.registry,
            core.poll.cursor,
            outcomes,
        ),
    decreases outcomes.len(),
{
    if outcomes.len() > 0 {
        polls_drive_the_registry(core.after_poll(outcomes[0]), outcomes.drop_first());
    }
}

/// Snapshot completeness: after a started core has taken in one full cycle of
/// polls, beginning with the first actuator, the registry holds exactly one
/// entry per actuator and the entry at index `i` is the telemetry that the
/// poll of actuator `i + 1` brought, or what it held before where that poll
/// failed; the cycle is counted once.
pub proof fn one_cycle_fills_the_snapshot(core: CoreModel, outcomes: Seq<Outcome>)
    requires
        core.wf(),
        core.poll.cursor == 1,
        core.registry.task_run_count < u64::MAX,
        outcomes.len() == MAX_SERVOS,
    ensures
        core.after_polls(outcomes).registry.entries.len() == MAX_SERVOS,
        core.after_polls(outcomes).registry.task_run_count == core.registry.task_run_count + 1,
        forall|i: int|
            0 <= i < MAX_SERVOS ==> #[trigger] core.after_polls(outcomes).registry.entries[i]
                == crate::poll::swept_entry(core.registry, outcomes, i),
{
    polls_drive_the_registry(core, outcomes);
    crate::poll::full_cycle(core.registry, outcomes);
}

} // verus!

//! The bus transport: the order of all transactions on the one physical
//! channel.
//!
//! A transaction is a request frame and the response expected for it. The bus
//! accepts transactions from any number of callers, keeps them in the order
//! in which they were submitted and lets exactly one of them onto the wire at
//! a time. A caller hands a transaction in with [`Bus::transact`]. The driver
//! that owns the channel asks the bus what to transmit ([`Bus::begin`]) and
//! reports what the channel did ([`Bus::receive`],
//! [`Bus::tick`], [`Bus::fail`], [`Bus::close`]). The bus never retries: a
//! caller that wants another attempt submits again.

use vstd::prelude::*;
use vstd::slice::slice_to_vec;
use crate::error::CoreError;

verus! {

/// One transaction handed to the bus. `tag` is the caller's own note on the
/// transaction; the bus carries it along and hands it back on completion.
pub struct Request<T> {
    /// The request frame to transmit.
    pub frame: Vec<u8>,
    /// The number of response bytes to wait for.
    pub expected_len: usize,
    /// How long to wait for them, in milliseconds.
    pub timeout_ms: u32,
    /// The caller's note.
    pub tag: T,
}

/// A transaction handed to the bus, as a mathematical value.
pub struct RequestModel<T> {
    pub frame: Seq<u8>,
    pub expected_len: usize,
    pub timeout_ms: u32,
    pub tag: T,
}

impl<T> View for Request<T> {
    type V = RequestModel<T>;

    open spec fn view(&self) -> RequestModel<T> {
        RequestModel {
            frame: self.frame@,
            expected_len: self.expected_len,
            timeout_ms: self.timeout_ms,
            tag: self.tag,
        }
    }
}

/// The transactions of `requests` as mathematical values, in the same order.
pub open spec fn request_views<T>(requests: Seq<Request<T>>) -> Seq<RequestModel<T>> {
    Seq::new(requests.len(), |i: int| requests[i]@)
}

/// What the driver has to put on the wire next.
#[derive(Debug)]
pub struct Transmission {
    /// The request frame to transmit.
    pub frame: Vec<u8>,
    /// The number of response bytes to wait for.
    pub expected_len: usize,
    /// How long to wait for them, in milliseconds.
    pub timeout_ms: u32,
}

/// A transaction that has ended, with the response bytes or the reason it
/// failed.
pub struct Completion<T> {
    pub request: Request<T>,
    pub outcome: Result<Vec<u8>, CoreError>,
}

/// An ended transaction as a mathematical value.
pub struct CompletionModel<T> {
    pub request: RequestModel<T>,
    pub outcome: Result<Seq<u8>, CoreError>,
}

impl<T> View for Completion<T> {
    type V = CompletionModel<T>;

    open spec fn view(&self) -> CompletionModel<T> {
        CompletionModel {
            request: self.request@,
            outcome: match self.outcome {
                Ok(bytes) => Ok(bytes@),
                Err(e) => Err(e),
            },
        }
    }
}

/// An optional completion as a mathematical value.
pub open spec fn completion_view<T>(done: Option<Completion<T>>) -> Option<CompletionModel<T>> {
    match done {
        Some(c) => Some(c@),
        None => None,
    }
}

/// The transaction on the wire as a mathematical value.
pub struct ActiveModel<T> {
    pub request: RequestModel<T>,
    /// The response bytes that have arrived so far.
    pub received: Seq<u8>,
    /// The time waited so far, in milliseconds.
    pub elapsed_ms: nat,
}

/// The bus as a mathematical value: its present state and its history.
pub struct BusModel<T> {
    /// The transactions that wait, oldest first.
    pub pending: Seq<RequestModel<T>>,
    /// The transaction on the wire, if any.
    pub active: Option<ActiveModel<T>>,
    /// Whether the channel has broken down for good.
    pub closed: bool,
    /// Every transaction the bus has ever accepted, in the order of
    /// submission.
    pub accepted: Seq<RequestModel<T>>,
    /// How many transactions have been put on the wire.
    pub started: nat,
    /// How many of those have ended.
    pub finished: nat,
}

impl<T> BusModel<T> {
    /// The invariant of the bus.
    ///
    /// At most one transaction is on the wire: the started ones are all
    /// finished but possibly the last. Transactions go onto the wire in the
    /// order of submission: the one on the wire is the accepted one whose turn
    /// it is, and the waiting ones are exactly the accepted ones that follow.
    /// A closed bus holds nothing.
    pub open spec fn wf(self) -> bool {
        &&& self.finished <= self.started <= self.accepted.len()
        &&& self.started <= self.finished + 1
        &&& (self.active is Some <==> self.started == self.finished + 1)
        &&& (self.active matches Some(a) ==> a.request == self.accepted[self.started - 1]
            && a.received.len() <= a.request.expected_len)
        &&& (!self.closed ==> self.pending == self.accepted.skip(self.started as int))
        &&& (self.closed ==> self.pending.len() == 0 && self.active is None)
    }

    /// The number of transactions on the wire.
    pub open spec fn in_flight(self) -> nat {
        (self.started - self.finished) as nat
    }

    /// A bus that has seen nothing yet.
    pub open spec fn empty() -> BusModel<T> {
        BusModel {
            pending: Seq::empty(),
            active: None,
            closed: false,
            accepted: Seq::empty(),
            started: 0,
            finished: 0,
        }
    }

    /// The bus after `request` was submitted: appended behind all that wait,
    /// unless the bus is closed.
    pub open spec fn after_submit(self, request: RequestModel<T>) -> BusModel<T> {
        if self.closed {
            self
        } else {
            BusModel {
                pending: self.pending.push(request),
                accepted: self.accepted.push(request),
                ..self
            }
        }
    }

    /// Whether the next transaction may go onto the wire: the wire is free
    /// and a transaction waits.
    pub open spec fn can_begin(self) -> bool {
        self.active is None && self.pending.len() > 0
    }

    /// The bus after the oldest waiting transaction went onto the wire.
    pub open spec fn after_begin(self) -> BusModel<T> {
        if self.can_begin() {
            BusModel {
                pending: self.pending.drop_first(),
                active: Some(
                    ActiveModel { request: self.pending[0], received: Seq::empty(), elapsed_ms: 0 },
                ),
                started: self.started + 1,
                ..self
            }
        } else {
            self
        }
    }

    /// Whether the arrival of `chunk` completes the response on the wire.
    pub open spec fn completes(self, chunk: Seq<u8>) -> bool {
        self.active matches Some(a) && a.received.len() + chunk.len() >= a.request.expected_len
    }

    /// The bus after `chunk` arrived.
    pub open spec fn after_receive(self, chunk: Seq<u8>) -> BusModel<T> {
        match self.active {
            None => self,
            Some(a) => if self.completes(chunk) {
                BusModel { active: None, finished: self.finished + 1, ..self }
            } else {
                BusModel {
                    active: Some(ActiveModel { received: a.received + chunk, ..a }),
                    ..self
                }
            },
        }
    }

    /// The completion that the arrival of `chunk` brings about: the first
    /// expected bytes of all that arrived, once they are all there.
    pub open spec fn receive_result(self, chunk: Seq<u8>) -> Option<CompletionModel<T>> {
        match self.active {
            None => None,
            Some(a) => if self.completes(chunk) {
                Some(
                    CompletionModel {
                        request: a.request,
                        outcome: Ok((a.received + chunk).take(a.request.expected_len as int)),
                    },
                )
            } else {
                None
            },
        }
    }

    /// Whether the transaction on the wire has waited its whole timeout once
    /// `elapsed_ms` more milliseconds have passed.
    pub open spec fn expires(self, elapsed_ms: u32) -> bool {
        self.active matches Some(a) && a.elapsed_ms + elapsed_ms >= a.request.timeout_ms
    }

    /// The bus after `elapsed_ms` more milliseconds have passed.
    pub open spec fn after_tick(self, elapsed_ms: u32) -> BusModel<T> {
        match self.active {
            None => self,
            Some(a) => if self.expires(elapsed_ms) {
                BusModel { active: None, finished: self.finished + 1, ..self }
            } else {
                BusModel {
                    active: Some(
                        ActiveModel { elapsed_ms: (a.elapsed_ms + elapsed_ms) as nat, ..a },
                    ),
                    ..self
                }
            },
        }
    }

    /// The completion that the passing of `elapsed_ms` more milliseconds
    /// brings about.
    pub open spec fn tick_result(self, elapsed_ms: u32) -> Option<CompletionModel<T>> {
        match self.active {
            None => None,
            Some(a) => if self.expires(elapsed_ms) {
                Some(CompletionModel { request: a.request, outcome: Err(CoreError::Timeout) })
            } else {
                None
            },
        }
    }

    /// The bus after the channel failed during the transaction on the wire.
    pub open spec fn after_fail(self) -> BusModel<T> {
        match self.active {
            None => self,
            Some(a) => BusModel { active: None, finished: self.finished + 1, ..self },
        }
    }

    /// The completion that a failure of the channel brings about.
    pub open spec fn fail_result(self) -> Option<CompletionModel<T>> {
        match self.active {
            None => None,
            Some(a) => Some(
                CompletionModel { request: a.request, outcome: Err(CoreError::IoError) },
            ),
        }
    }

    /// The transactions the bus still holds, the one on the wire first, then
    /// the waiting ones in their order.
    pub open spec fn held(self) -> Seq<RequestModel<T>> {
        match self.active {
            None => self.pending,
            Some(a) => seq![a.request] + self.pending,
        }
    }

    /// The bus after the channel broke down for good.
    pub open spec fn after_close(self) -> BusModel<T> {
        BusModel {
            pending: Seq::empty(),
            active: None,
            closed: true,
            finished: self.started,
            ..self
        }
    }
}

/// The transaction on the wire.
struct Active<T> {
    request: Request<T>,
    received: Vec<u8>,
    elapsed_ms: u32,
}

/// The bus transport.
pub struct Bus<T> {
    pending: Vec<Request<T>>,
    active: Option<Active<T>>,
    closed: bool,
    accepted: Ghost<Seq<RequestModel<T>>>,
    started: Ghost<nat>,
    finished: Ghost<nat>,
}

impl<T> View for Bus<T> {
    type V = BusModel<T>;

    closed spec fn view(&self) -> BusModel<T> {
        BusModel {
            pending: request_views(self.pending@),
            active: match self.active {
                None => None,
                Some(a) => Some(
                    ActiveModel {
                        request: a.request@,
                        received: a.received@,
                        elapsed_ms: a.elapsed_ms as nat,
                    },
                ),
            },
            closed: self.closed,
            accepted: self.accepted@,
            started: self.started@,
            finished: self.finished@,
        }
    }
}

impl<T> Bus<T> {
    /// The invariant of the bus; see [`BusModel::wf`].
    pub open spec fn wf(&self) -> bool {
        self@.wf()
    }

    /// A bus that has seen nothing yet.
    pub fn new() -> (bus: Bus<T>)
        ensures
            bus.wf(),
            bus@ == BusModel::<T>::empty(),
    {
        let bus = Bus {
            pending: Vec::new(),
            active: None,
            closed: false,
            accepted: Ghost(Seq::empty()),
            started: Ghost(0),
            finished: Ghost(0),
        };
        proof {
            assert(bus@.pending =~= Seq::<RequestModel<T>>::empty());
            assert(bus@.pending =~= bus@.accepted.skip(0));
        }
        bus
    }

    /// Whether a transaction is on the wire.
    pub fn is_busy(&self) -> (busy: bool)
        ensures
            busy == (self@.active is Some),
    {
        self.active.is_some()
    }

    /// Whether the channel has broken down for good.
    pub fn is_closed(&self) -> (closed: bool)
        ensures
            closed == self@.closed,
    {
        self.closed
    }

    /// The number of transactions that wait.
    pub fn pending_len(&self) -> (n: usize)
        ensures
            n == self@.pending.len(),
    {
        self.pending.len()
    }

    /// Submits a transaction that is already made up, such as one that is
    /// to be tried again. It is placed behind every transaction that already
    /// waits. Fails with `IoError`, changing nothing, exactly when the bus is
    /// closed.
    pub fn submit(&mut self, request: Request<T>) -> (r: Result<(), CoreError>)
        requires
            old(self).wf(),
        ensures
            final(self).wf(),
            final(self)@ == old(self)@.after_submit(request@),
            old(self)@.closed ==> r == Err::<(), CoreError>(CoreError::IoError),
            !old(self)@.closed ==> r == Ok::<(), CoreError>(()),
    {
        if self.closed {
            return Err(CoreError::IoError);
        }
        let ghost model = request@;
        self.pending.push(request);
        self.accepted = Ghost(self.accepted@.push(model));
        proof {
            assert(self@.pending =~= old(self)@.pending.push(model));
            assert(self@.pending =~= self@.accepted.skip(self@.started as int));
        }
        Ok(())
    }

    /// Queues the transaction that sends `frame` and then waits up to
    /// `timeout_ms` milliseconds for `expected_len` response bytes. It is
    /// placed behind every transaction that already waits; its response, or
    /// `Timeout` or `IoError`, comes back as its completion. Fails with
    /// `IoError`, changing nothing, exactly when the bus is closed.
    pub fn transact(&mut self, frame: Vec<u8>, expected_len: usize, timeout_ms: u32, tag: T) -> (r:
        Result<(), CoreError>)
        requires
            old(self).wf(),
        ensures
            final(self).wf(),
            final(self)@ == old(self)@.after_submit(
                RequestModel { frame: frame@, expected_len, timeout_ms, tag },
            ),
            old(self)@.closed ==> r == Err::<(), CoreError>(CoreError::IoError),
            !old(self)@.closed ==> r == Ok::<(), CoreError>(()),
    {
        self.submit(Request { frame, expected_len, timeout_ms, tag })
    }

    /// Puts the oldest waiting transaction onto the wire and tells the driver
    /// what to transmit. Returns `None`, changing nothing, while another
    /// transaction is on the wire or when nothing waits.
    pub fn begin(&mut self) -> (next: Option<Transmission>)
        requires
            old(self).wf(),
        ensures
            final(self).wf(),
            final(self)@ == old(self)@.after_begin(),
            next is Some <==> old(self)@.can_begin(),
            next matches Some(t) ==> {
                &&& t.frame@ == old(self)@.pending[0].frame
                &&& t.expected_len == old(self)@.pending[0].expected_len
                &&& t.timeout_ms == old(self)@.pending[0].timeout_ms
            },
    {
        if self.active.is_some() || self.pending.len() == 0 {
            return None;
        }
        let request = self.pending.remove(0);
        let transmission = Transmission {
            frame: slice_to_vec(request.frame.as_slice()),
            expected_len: request.expected_len,
            timeout_ms: request.timeout_ms,
        };
        self.active = Some(Active { request, received: Vec::new(), elapsed_ms: 0 });
        self.started = Ghost(self.started@ + 1);
        proof {
            assert(self@.pending =~= old(self)@.pending.drop_first());
            assert(self@.pending =~= self@.accepted.skip(self@.started as int));
        }
        Some(transmission)
    }

    /// Takes in response bytes that arrived on the channel. Once as many bytes
    /// have arrived as the transaction on the wire expects, the transaction
    /// ends with exactly those bytes; bytes beyond them are dropped. Bytes
    /// that arrive while nothing is on the wire are dropped.
    pub fn receive(&mut self, chunk: &[u8]) -> (done: Option<Completion<T>>)
        requires
            old(self).wf(),
        ensures
            final(self).wf(),
            final(self)@ == old(self)@.after_receive(chunk@),
            completion_view(done) == old(self)@.receive_result(chunk@),
    {
        match self.active.take() {
            None => None,
            Some(active) => {
                let Active { request, received, elapsed_ms } = active;
                let mut received = received;
                let ghost before = received@;
                let mut i: usize = 0;
                while i < chunk.len() && received.len() < request.expected_len
                    invariant
                        i <= chunk@.len(),
                        received@ == before + chunk@.subrange(0, i as int),
                        received@.len() <= request.expected_len,
                    decreases chunk@.len() - i,
                {
                    received.push(chunk[i]);
                    i = i + 1;
                }
                proof {
                    assert(chunk@.subrange(0, chunk@.len() as int) =~= chunk@);
                }
                if received.len() >= request.expected_len {
                    proof {
                        assert(received@ =~= (before + chunk@).take(request.expected_len as int));
                    }
                    self.finished = Ghost(self.finished@ + 1);
                    Some(Completion { request, outcome: Ok(received) })
                } else {
                    self.active = Some(Active { request, received, elapsed_ms });
                    None
                }
            },
        }
    }

    /// Takes in the passing of `elapsed_ms` milliseconds. Once the transaction
    /// on the wire has waited its whole timeout, it ends with `Timeout`.
    pub fn tick(&mut self, elapsed_ms: u32) -> (done: Option<Completion<T>>)
        requires
            old(self).wf(),
        ensures
            final(self).wf(),
            final(self)@ == old(self)@.after_tick(elapsed_ms),
            completion_view(done) == old(self)@.tick_result(elapsed_ms),
    {
        match self.active.take() {
            None => None,
            Some(active) => {
                let Active { request, received, elapsed_ms: waited } = active;
                let total: u64 = waited as u64 + elapsed_ms as u64;
                if total >= request.timeout_ms as u64 {
                    self.finished = Ghost(self.finished@ + 1);
                    Some(Completion { request, outcome: Err(CoreError::Timeout) })
                } else {
                    self.active = Some(Active { request, received, elapsed_ms: total as u32 });
                    None
                }
            },
        }
    }

    /// Takes in a failure of the channel during the transaction on the wire:
    /// the transaction ends with `IoError`. The bus stays open.
    pub fn fail(&mut self) -> (done: Option<Completion<T>>)
        requires
            old(self).wf(),
        ensures
            final(self).wf(),
            final(self)@ == old(self)@.after_fail(),
            completion_view(done) == old(self)@.fail_result(),
    {
        match self.active.take() {
            None => None,
            Some(active) => {
                let Active { request, received, elapsed_ms } = active;
                self.finished = Ghost(self.finished@ + 1);
                Some(Completion { request, outcome: Err(CoreError::IoError) })
            },
        }
    }

    /// Takes in the breakdown of the channel. Every transaction the bus holds
    /// ends with `IoError`, the one on the wire first, then the waiting ones
    /// in their order. From now on the bus accepts nothing.
    pub fn close(&mut self) -> (flushed: Vec<Completion<T>>)
        requires
            old(self).wf(),
        ensures
            final(self).wf(),
            final(self)@ == old(self)@.after_close(),
            flushed@.len() == old(self)@.held().len(),
            forall|i: int|
                0 <= i < flushed@.len() ==> (#[trigger] flushed@[i])@ == (CompletionModel {
                    request: old(self)@.held()[i],
                    outcome: Err(CoreError::IoError),
                }),
    {
        let mut flushed: Vec<Completion<T>> = Vec::new();
        match self.active.take() {
            None => {},
            Some(active) => {
                let Active { request, received, elapsed_ms } = active;
                flushed.push(Completion { request, outcome: Err(CoreError::IoError) });
            },
        }
        let ghost held = old(self)@.held();
        while self.pending.len() > 0
            invariant
                held == old(self)@.held(),
                flushed@.len() + self.pending@.len() == held.len(),
                request_views(self.pending@) == held.skip(flushed@.len() as int),
                self.active is None,
                self.accepted == old(self).accepted,
                self.started == old(self).started,
                forall|i: int|
                    0 <= i < flushed@.len() ==> (#[trigger] flushed@[i])@ == (CompletionModel {
                        request: held[i],
                        outcome: Err(CoreError::IoError),
                    }),
            decreases self.pending@.len(),
        {
            let ghost before = self.pending@;
            let ghost done = flushed@.len() as int;
            let request = self.pending.remove(0);
            proof {
                assert(request@ == request_views(before)[0]);
                assert forall|j: int| 0 <= j < self.pending@.len() implies request_views(
                    self.pending@,
                )[j] == held.skip(done + 1)[j] by {
                    assert(request_views(before)[j + 1] == held.skip(done)[j + 1]);
                }
            }
            flushed.push(Completion { request, outcome: Err(CoreError::IoError) });
        }
        self.closed = true;
        self.finished = Ghost(self.started@);
        proof {
            assert(self@.pending =~= Seq::<RequestModel<T>>::empty());
        }
        flushed
    }
}

/// Mutual exclusion: a well-formed bus has at most one transaction on the
/// wire, and it has one exactly when it says so.
pub proof fn at_most_one_in_flight<T>(bus: BusModel<T>)
    requires
        bus.wf(),
    ensures
        bus.in_flight() <= 1,
        bus.in_flight() == 1 <==> bus.active is Some,
        bus.active is Some ==> !bus.can_begin() && bus.after_begin() == bus,
{
}

/// Every event keeps the bus well formed, so at most one transaction is on
/// the wire after any sequence of submissions, transmissions and channel
/// events.
pub proof fn events_preserve_wf<T>(
    bus: BusModel<T>,
    request: RequestModel<T>,
    chunk: Seq<u8>,
    ms: u32,
)
    requires
        bus.wf(),
    ensures
        bus.after_submit(request).wf(),
        bus.after_begin().wf(),
        bus.after_receive(chunk).wf(),
        bus.after_tick(ms).wf(),
        bus.after_fail().wf(),
        bus.after_close().wf(),
{
    assert(bus.after_submit(request).wf()) by {
        if !bus.closed {
            assert(bus.pending.push(request) =~= bus.accepted.push(request).skip(
                bus.started as int,
            ));
        }
    }
    assert(bus.after_begin().wf()) by {
        if bus.can_begin() {
            assert(bus.pending.drop_first() =~= bus.accepted.skip(bus.started as int + 1));
        }
    }
}

/// First come, first served: the transaction that goes onto the wire is the
/// one that was submitted before every other waiting one, namely the accepted
/// transaction at the position given by the number of transactions started so
/// far. A transaction submitted now goes onto the wire only after all that
/// wait now.
pub proof fn served_in_submission_order<T>(bus: BusModel<T>, request: RequestModel<T>)
    requires
        bus.wf(),
        bus.can_begin(),
    ensures
        bus.after_begin().active->0.request == bus.accepted[bus.started as int],
        bus.after_begin().started == bus.started + 1,
        !bus.closed ==> bus.after_submit(request).after_begin().active->0.request
            == bus.after_begin().active->0.request,
        !bus.closed ==> bus.after_submit(request).accepted.last() == request,
{
}

} // verus!

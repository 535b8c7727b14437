//! The bus session: request queue, buffer pool, the single transfer slot, the
//! completion semaphore and the deferred continuation, as one owned object.
//!
//! Each method is one event of the subsystem. The caller's context submits;
//! the worker task takes the next buffer, reports whether the hardware accepted
//! it, parks on the semaphore and, once woken, finishes the wait; the interrupt
//! handler reports completion; the event dispatcher fires and ends the
//! continuation. The driver around the library performs the hardware action
//! that each method's result asks for, and serialises the calls.
use vstd::prelude::*;

verus! {

/// Where the single transfer slot of the bus stands.
#[derive(Clone, Copy, Debug, PartialEq, Eq, Structural)]
pub enum Phase {
    /// No transfer outstanding; chip-select is high.
    Idle,
    /// A buffer was taken from the queue, chip-select is low and the hardware
    /// transfer has been started.
    Selected,
    /// The worker is parked on the completion semaphore.
    Awaiting,
    /// The completion interrupt has fired: chip-select is high again and the
    /// semaphore released; the worker has yet to release the buffer.
    Completed,
}

/// State of the deferred continuation armed by the interrupt handler.
#[derive(Clone, Copy, Debug, PartialEq, Eq, Structural)]
pub enum ContinuationState {
    Idle,
    Armed,
    Firing,
}

/// Why a submission was refused. A refused submission leaves the session as it was.
#[derive(Clone, Copy, Debug, PartialEq, Eq, Structural)]
pub enum SubmitError {
    /// The request queue holds as many buffers as it can.
    QueueFull,
    /// The buffer pool has too few bytes left for a copy of the data.
    AllocFailed,
}

/// How the worker's wait on the completion semaphore ended.
#[derive(Clone, Copy, Debug, PartialEq, Eq, Structural)]
pub enum WaitOutcome {
    /// The completion interrupt fired; the buffer went back to the pool.
    Completed,
    /// No completion came: chip-select must be forced high; the buffer went
    /// back to the pool and the transfer is counted as timed out.
    TimedOut,
    /// No transfer was in flight; nothing changed.
    NothingInFlight,
}

/// Total number of bytes held by a sequence of buffers.
pub open spec fn total_len(q: Seq<Seq<u8>>) -> nat
    decreases q.len(),
{
    if q.len() == 0 {
        0
    } else {
        total_len(q.drop_last()) + q.last().len()
    }
}

/// Removing the first buffer frees exactly its bytes.
pub proof fn lemma_total_len_drop_first(q: Seq<Seq<u8>>)
    requires
        q.len() > 0,
    ensures
        total_len(q) == q[0].len() + total_len(q.drop_first()),
    decreases q.len(),
{
    if q.len() == 1 {
        assert(q.drop_first().len() == 0);
        assert(q.drop_last().len() == 0);
        assert(total_len(q.drop_first()) == 0);
        assert(total_len(q.drop_last()) == 0);
        assert(q.last() == q[0]);
    } else {
        lemma_total_len_drop_first(q.drop_last());
        assert(q.drop_last()[0] == q[0]);
        assert(q.drop_last().drop_first() =~= q.drop_first().drop_last());
        assert(q.drop_first().last() == q.last());
    }
}

/// Abstract state of a bus session.
pub ghost struct SessionModel {
    /// Buffers waiting for the worker, oldest first.
    pub queue: Seq<Seq<u8>>,
    pub queue_capacity: nat,
    /// Bytes the buffer pool can hold in all.
    pub pool_capacity: nat,
    /// Bytes held by queued buffers and the one in flight.
    pub pool_used: nat,
    /// Length of the buffer in flight; zero when idle.
    pub in_flight_len: nat,
    pub phase: Phase,
    /// The chip-select line is driven low.
    pub chip_select_low: bool,
    /// Count of the completion semaphore.
    pub semaphore: nat,
    pub continuation: ContinuationState,
    /// Completed transfers since the session was made.
    pub transfers: u64,
    /// Length of the most recently started transfer.
    pub txlen: nat,
    /// Bytes moved by completed transfers.
    pub tx_rx_bytes: u64,
    /// Transfers whose wait ended without a completion.
    pub timeouts: u64,
    /// Transfers the hardware refused to start.
    pub failures: u64,
    /// Every buffer ever accepted by a submission, in order.
    pub accepted: Seq<Seq<u8>>,
    /// Every buffer ever started, in order.
    pub started: Seq<Seq<u8>>,
}

impl SessionModel {
    /// A session with an empty queue and pool, and the semaphore at zero.
    pub open spec fn initial(queue_capacity: nat, pool_capacity: nat) -> SessionModel {
        SessionModel {
            queue: Seq::empty(),
            queue_capacity,
            pool_capacity,
            pool_used: 0,
            in_flight_len: 0,
            phase: Phase::Idle,
            chip_select_low: false,
            semaphore: 0,
            continuation: ContinuationState::Idle,
            transfers: 0,
            txlen: 0,
            tx_rx_bytes: 0,
            timeouts: 0,
            failures: 0,
            accepted: Seq::empty(),
            started: Seq::empty(),
        }
    }

    /// The invariant that every reachable state keeps.
    pub open spec fn wf(self) -> bool {
        &&& self.queue.len() <= self.queue_capacity
        &&& self.pool_used <= self.pool_capacity
        &&& self.pool_used == total_len(self.queue) + self.in_flight_len
        // buffers start in the order they were accepted
        &&& self.accepted == self.started + self.queue
        &&& self.phase == Phase::Idle ==> self.in_flight_len == 0
        &&& self.phase != Phase::Idle ==> {
            &&& self.started.len() > 0
            &&& self.in_flight_len == self.started.last().len()
        }
        // chip-select is low exactly while a transfer is outstanding
        &&& self.chip_select_low <==> (self.phase == Phase::Selected || self.phase
            == Phase::Awaiting)
        &&& self.semaphore == (if self.phase == Phase::Completed {
            1nat
        } else {
            0nat
        })
    }

    pub open spec fn submit_result(self, b: Seq<u8>) -> Result<(), SubmitError> {
        if self.queue.len() >= self.queue_capacity {
            Err(SubmitError::QueueFull)
        } else if self.pool_used + b.len() > self.pool_capacity {
            Err(SubmitError::AllocFailed)
        } else {
            Ok(())
        }
    }

    pub open spec fn after_submit(self, b: Seq<u8>) -> SessionModel {
        if self.submit_result(b) is Ok {
            SessionModel {
                queue: self.queue.push(b),
                pool_used: self.pool_used + b.len(),
                accepted: self.accepted.push(b),
                ..self
            }
        } else {
            self
        }
    }

    /// The bus is idle and a buffer is waiting.
    pub open spec fn can_begin(self) -> bool {
        self.phase == Phase::Idle && self.queue.len() > 0
    }

    pub open spec fn after_begin(self) -> SessionModel {
        if self.can_begin() {
            SessionModel {
                queue: self.queue.drop_first(),
                phase: Phase::Selected,
                chip_select_low: true,
                in_flight_len: self.queue[0].len(),
                txlen: self.queue[0].len(),
                started: self.started.push(self.queue[0]),
                ..self
            }
        } else {
            self
        }
    }

    pub open spec fn after_start_failed(self) -> SessionModel {
        if self.phase == Phase::Selected {
            SessionModel {
                phase: Phase::Idle,
                chip_select_low: false,
                pool_used: (self.pool_used - self.in_flight_len) as nat,
                in_flight_len: 0,
                failures: self.failures.wrapping_add(1),
                ..self
            }
        } else {
            self
        }
    }

    pub open spec fn after_await(self) -> SessionModel {
        if self.phase == Phase::Selected {
            SessionModel { phase: Phase::Awaiting, ..self }
        } else {
            self
        }
    }

    /// A transfer is started and its completion not yet seen.
    pub open spec fn transfer_outstanding(self) -> bool {
        self.phase == Phase::Selected || self.phase == Phase::Awaiting
    }

    pub open spec fn after_completion(self) -> SessionModel {
        if self.transfer_outstanding() {
            SessionModel {
                phase: Phase::Completed,
                chip_select_low: false,
                continuation: ContinuationState::Armed,
                semaphore: self.semaphore + 1,
                transfers: self.transfers.wrapping_add(1),
                tx_rx_bytes: self.tx_rx_bytes.wrapping_add(self.in_flight_len as u64),
                ..self
            }
        } else {
            self
        }
    }

    pub open spec fn wait_outcome(self) -> WaitOutcome {
        if self.phase == Phase::Completed {
            WaitOutcome::Completed
        } else if self.transfer_outstanding() {
            WaitOutcome::TimedOut
        } else {
            WaitOutcome::NothingInFlight
        }
    }

    pub open spec fn after_finish(self) -> SessionModel {
        if self.phase == Phase::Completed {
            SessionModel {
                phase: Phase::Idle,
                semaphore: (self.semaphore - 1) as nat,
                pool_used: (self.pool_used - self.in_flight_len) as nat,
                in_flight_len: 0,
                ..self
            }
        } else if self.transfer_outstanding() {
            SessionModel {
                phase: Phase::Idle,
                chip_select_low: false,
                pool_used: (self.pool_used - self.in_flight_len) as nat,
                in_flight_len: 0,
                timeouts: self.timeouts.wrapping_add(1),
                ..self
            }
        } else {
            self
        }
    }

    pub open spec fn after_fire(self) -> SessionModel {
        if self.continuation == ContinuationState::Armed {
            SessionModel { continuation: ContinuationState::Firing, ..self }
        } else {
            self
        }
    }

    /// The worker should be woken: the bus is idle and a buffer is waiting.
    pub open spec fn wake_after_continuation(self) -> bool {
        self.continuation == ContinuationState::Firing && self.can_begin()
    }

    pub open spec fn after_continuation_end(self) -> SessionModel {
        if self.continuation == ContinuationState::Firing {
            SessionModel { continuation: ContinuationState::Idle, ..self }
        } else {
            self
        }
    }
}


/// One session per physical bus. See the module documentation for the roles
/// that call each method.
pub struct BusSession {
    queue: Vec<Vec<u8>>,
    queue_capacity: usize,
    pool_capacity: usize,
    pool_used: usize,
    in_flight_len: usize,
    phase: Phase,
    chip_select_low: bool,
    semaphore: u8,
    continuation: ContinuationState,
    transfers: u64,
    txlen: usize,
    tx_rx_bytes: u64,
    timeouts: u64,
    failures: u64,
    accepted: Ghost<Seq<Seq<u8>>>,
    started: Ghost<Seq<Seq<u8>>>,
}

impl View for BusSession {
    type V = SessionModel;

    closed spec fn view(&self) -> SessionModel {
        SessionModel {
            queue: self.queue@.map_values(|b: Vec<u8>| b@),
            queue_capacity: self.queue_capacity as nat,
            pool_capacity: self.pool_capacity as nat,
            pool_used: self.pool_used as nat,
            in_flight_len: self.in_flight_len as nat,
            phase: self.phase,
            chip_select_low: self.chip_select_low,
            semaphore: self.semaphore as nat,
            continuation: self.continuation,
            transfers: self.transfers,
            txlen: self.txlen as nat,
            tx_rx_bytes: self.tx_rx_bytes,
            timeouts: self.timeouts,
            failures: self.failures,
            accepted: self.accepted@,
            started: self.started@,
        }
    }
}

impl BusSession {
    /// A session whose queue holds at most `queue_capacity` buffers and whose
    /// pool holds at most `pool_capacity` bytes.
    pub fn new(queue_capacity: usize, pool_capacity: usize) -> (r: BusSession)
        ensures
            r@ == SessionModel::initial(queue_capacity as nat, pool_capacity as nat),
            r@.wf(),
    {
        let r = BusSession {
            queue: Vec::new(),
            queue_capacity,
            pool_capacity,
            pool_used: 0,
            in_flight_len: 0,
            phase: Phase::Idle,
            chip_select_low: false,
            semaphore: 0,
            continuation: ContinuationState::Idle,
            transfers: 0,
            txlen: 0,
            tx_rx_bytes: 0,
            timeouts: 0,
            failures: 0,
            accepted: Ghost(Seq::empty()),
            started: Ghost(Seq::empty()),
        };
        assert(r@.queue =~= Seq::<Seq<u8>>::empty());
        r
    }

    /// Number of buffers waiting in the queue.
    pub fn queued(&self) -> (r: usize)
        ensures
            r == self@.queue.len(),
    {
        self.queue.len()
    }

    /// Bytes of the pool in use.
    pub fn pool_used(&self) -> (r: usize)
        ensures
            r == self@.pool_used,
    {
        self.pool_used
    }

    pub fn phase(&self) -> (r: Phase)
        ensures
            r == self@.phase,
    {
        self.phase
    }

    /// Whether the chip-select line is driven low.
    pub fn chip_select_low(&self) -> (r: bool)
        ensures
            r == self@.chip_select_low,
    {
        self.chip_select_low
    }

    /// Count of the completion semaphore.
    pub fn semaphore_count(&self) -> (r: u8)
        ensures
            r == self@.semaphore,
    {
        self.semaphore
    }

    pub fn continuation(&self) -> (r: ContinuationState)
        ensures
            r == self@.continuation,
    {
        self.continuation
    }

    /// Completed transfers.
    pub fn transfers(&self) -> (r: u64)
        ensures
            r == self@.transfers,
    {
        self.transfers
    }

    /// Length of the most recently started transfer.
    pub fn txlen(&self) -> (r: usize)
        ensures
            r == self@.txlen,
    {
        self.txlen
    }

    /// Bytes moved by completed transfers.
    pub fn tx_rx_bytes(&self) -> (r: u64)
        ensures
            r == self@.tx_rx_bytes,
    {
        self.tx_rx_bytes
    }

    /// Transfers whose wait ended without a completion.
    pub fn timeouts(&self) -> (r: u64)
        ensures
            r == self@.timeouts,
    {
        self.timeouts
    }

    /// Transfers the hardware refused to start.
    pub fn failures(&self) -> (r: u64)
        ensures
            r == self@.failures,
    {
        self.failures
    }

    /// Worker: takes the oldest queued buffer when the bus is idle. On `Some`
    /// the caller drives chip-select low and starts the hardware transfer of
    /// the bytes returned; on `None` there is nothing to start.
    pub fn begin_transfer(&mut self) -> (r: Option<Vec<u8>>)
        requires
            old(self)@.wf(),
        ensures
            final(self)@.wf(),
            final(self)@ == old(self)@.after_begin(),
            match r {
                Some(b) => old(self)@.can_begin() && b@ == old(self)@.queue[0],
                None => !old(self)@.can_begin(),
            },
    {
        if self.phase != Phase::Idle || self.queue.len() == 0 {
            return None;
        }
        let ghost q0 = self@.queue;
        proof {
            lemma_total_len_drop_first(q0);
        }
        let b = self.queue.remove(0);
        assert(self@.queue =~= q0.drop_first());
        self.in_flight_len = b.len();
        self.txlen = b.len();
        self.phase = Phase::Selected;
        self.chip_select_low = true;
        self.started = Ghost(self.started@.push(b@));
        proof {
            assert(self@.accepted =~= self@.started + self@.queue);
        }
        Some(b)
    }

    /// Worker: the hardware refused to start the transfer just begun. The
    /// buffer goes back to the pool and the caller drives chip-select high.
    pub fn start_failed(&mut self)
        requires
            old(self)@.wf(),
        ensures
            final(self)@.wf(),
            final(self)@ == old(self)@.after_start_failed(),
    {
        if self.phase == Phase::Selected {
            self.phase = Phase::Idle;
            self.chip_select_low = false;
            self.pool_used = self.pool_used - self.in_flight_len;
            self.in_flight_len = 0;
            self.failures = self.failures.wrapping_add(1);
        }
    }

    /// Worker: about to park on the completion semaphore.
    pub fn await_completion(&mut self)
        requires
            old(self)@.wf(),
        ensures
            final(self)@.wf(),
            final(self)@ == old(self)@.after_await(),
    {
        if self.phase == Phase::Selected {
            self.phase = Phase::Awaiting;
        }
    }

    /// Interrupt handler: the hardware reports a finished transfer. Returns
    /// whether a transfer was outstanding; if so the caller drives chip-select
    /// high, arms the continuation with zero delay and releases the semaphore
    /// once. A completion with nothing outstanding changes nothing.
    pub fn on_completion(&mut self) -> (r: bool)
        requires
            old(self)@.wf(),
        ensures
            final(self)@.wf(),
            final(self)@ == old(self)@.after_completion(),
            r == old(self)@.transfer_outstanding(),
    {
        if self.phase == Phase::Selected || self.phase == Phase::Awaiting {
            self.phase = Phase::Completed;
            self.chip_select_low = false;
            self.continuation = ContinuationState::Armed;
            self.semaphore = self.semaphore + 1;
            self.transfers = self.transfers.wrapping_add(1);
            self.tx_rx_bytes = self.tx_rx_bytes.wrapping_add(self.in_flight_len as u64);
            true
        } else {
            false
        }
    }

    /// Worker: the wait on the semaphore has ended, by a release or by the
    /// timeout. Whether a completion was seen decides the outcome; either way
    /// the buffer in flight goes back to the pool.
    pub fn finish_wait(&mut self) -> (r: WaitOutcome)
        requires
            old(self)@.wf(),
        ensures
            final(self)@.wf(),
            final(self)@ == old(self)@.after_finish(),
            r == old(self)@.wait_outcome(),
    {
        if self.phase == Phase::Completed {
            self.phase = Phase::Idle;
            self.semaphore = self.semaphore - 1;
            self.pool_used = self.pool_used - self.in_flight_len;
            self.in_flight_len = 0;
            WaitOutcome::Completed
        } else if self.phase == Phase::Selected || self.phase == Phase::Awaiting {
            self.phase = Phase::Idle;
            self.chip_select_low = false;
            self.pool_used = self.pool_used - self.in_flight_len;
            self.in_flight_len = 0;
            self.timeouts = self.timeouts.wrapping_add(1);
            WaitOutcome::TimedOut
        } else {
            WaitOutcome::NothingInFlight
        }
    }

    /// Dispatcher: the continuation starts running. Returns whether it was armed.
    pub fn fire_continuation(&mut self) -> (r: bool)
        requires
            old(self)@.wf(),
        ensures
            final(self)@.wf(),
            final(self)@ == old(self)@.after_fire(),
            r == (old(self)@.continuation == ContinuationState::Armed),
    {
        if self.continuation == ContinuationState::Armed {
            self.continuation = ContinuationState::Firing;
            true
        } else {
            false
        }
    }

    /// Dispatcher: the continuation has run and goes back to idle. Returns
    /// whether the caller should wake the worker for a waiting buffer; the
    /// worker stays the only one to start transfers.
    pub fn end_continuation(&mut self) -> (r: bool)
        requires
            old(self)@.wf(),
        ensures
            final(self)@.wf(),
            final(self)@ == old(self)@.after_continuation_end(),
            r == old(self)@.wake_after_continuation(),
    {
        if self.continuation == ContinuationState::Firing {
            self.continuation = ContinuationState::Idle;
            self.phase == Phase::Idle && self.queue.len() > 0
        } else {
            false
        }
    }
}

/// Caller: copies `words` into a pooled buffer and queues it for the worker.
/// Returns at once; on `Ok` the caller posts the wake event to the worker.
pub fn spi_noblock_write(session: &mut BusSession, words: &[u8]) -> (r: Result<(), SubmitError>)
    requires
        old(session)@.wf(),
    ensures
        final(session)@.wf(),
        r == old(session)@.submit_result(words@),
        final(session)@ == old(session)@.after_submit(words@),
{
    if session.queue.len() >= session.queue_capacity {
        return Err(SubmitError::QueueFull);
    }
    if words.len() > session.pool_capacity - session.pool_used {
        return Err(SubmitError::AllocFailed);
    }
    let ghost q0 = session@.queue;
    let buf = vstd::slice::slice_to_vec(words);
    session.queue.push(buf);
    session.pool_used = session.pool_used + words.len();
    session.accepted = Ghost(session.accepted@.push(words@));
    proof {
        assert(session@.queue =~= q0.push(words@));
        assert(session@.queue.drop_last() =~= q0);
        assert(session@.accepted =~= session@.started + session@.queue);
    }
    Ok(())
}

} // verus!

//! Properties of the session that hold across several events.
use vstd::prelude::*;
use crate::session::{total_len, ContinuationState, Phase, SessionModel, SubmitError, WaitOutcome};

verus! {

/// Submits `bufs` one after another, oldest first.
pub open spec fn submit_all(m: SessionModel, bufs: Seq<Seq<u8>>) -> SessionModel
    decreases bufs.len(),
{
    if bufs.len() == 0 {
        m
    } else {
        submit_all(m, bufs.drop_last()).after_submit(bufs.last())
    }
}

/// One full transfer as the worker runs it when the completion interrupt
/// fires: take the next buffer, park, the interrupt reports, the wait ends.
pub open spec fn completed_cycle(m: SessionModel) -> SessionModel {
    m.after_begin().after_await().after_completion().after_finish()
}

/// `n` full transfers in a row.
pub open spec fn completed_cycles(m: SessionModel, n: nat) -> SessionModel
    decreases n,
{
    if n == 0 {
        m
    } else {
        completed_cycle(completed_cycles(m, (n - 1) as nat))
    }
}

/// Submitting buffers whose count fits the queue and whose bytes fit the pool
/// to a fresh session accepts every one of them and queues them in order.
pub proof fn lemma_submit_all(queue_capacity: nat, pool_capacity: nat, bufs: Seq<Seq<u8>>)
    requires
        bufs.len() <= queue_capacity,
        total_len(bufs) <= pool_capacity,
    ensures
        submit_all(SessionModel::initial(queue_capacity, pool_capacity), bufs) == (SessionModel {
            queue: bufs,
            pool_used: total_len(bufs),
            accepted: bufs,
            ..SessionModel::initial(queue_capacity, pool_capacity)
        }),
        forall|i: int|
            0 <= i < bufs.len() ==> (#[trigger] submit_all(
                SessionModel::initial(queue_capacity, pool_capacity),
                bufs.take(i),
            )).submit_result(bufs[i]) is Ok,
    decreases bufs.len(),
{
    let m0 = SessionModel::initial(queue_capacity, pool_capacity);
    if bufs.len() == 0 {
        assert(bufs =~= Seq::<Seq<u8>>::empty());
    } else {
        let init = bufs.drop_last();
        lemma_submit_all(queue_capacity, pool_capacity, init);
        assert(init.push(bufs.last()) =~= bufs);
        assert forall|i: int| 0 <= i < bufs.len() implies (#[trigger] submit_all(
            m0,
            bufs.take(i),
        )).submit_result(bufs[i]) is Ok by {
            if i < init.len() {
                assert(init.take(i) =~= bufs.take(i));
                assert(init[i] == bufs[i]);
            } else {
                assert(bufs.take(i) =~= init);
            }
        }
    }
}

/// Starting from an idle bus, `n` full transfers start the first `n` queued
/// buffers in queue order, count `n` completions and leave the semaphore as
/// it was.
pub proof fn lemma_completed_cycles(m: SessionModel, n: nat)
    requires
        m.phase == Phase::Idle,
        n <= m.queue.len(),
    ensures
        completed_cycles(m, n).phase == Phase::Idle,
        completed_cycles(m, n).started == m.started + m.queue.take(n as int),
        completed_cycles(m, n).queue == m.queue.skip(n as int),
        m.transfers as int + n <= u64::MAX ==> completed_cycles(m, n).transfers == m.transfers + n,
        completed_cycles(m, n).semaphore == m.semaphore,
    decreases n,
{
    if n == 0 {
        assert(m.queue.take(0) =~= Seq::<Seq<u8>>::empty());
        assert(m.started + Seq::<Seq<u8>>::empty() =~= m.started);
        assert(m.queue.skip(0) =~= m.queue);
    } else {
        let k = (n - 1) as nat;
        lemma_completed_cycles(m, k);
        let p = completed_cycles(m, k);
        assert(p.queue[0] == m.queue[k as int]);
        assert(p.queue.drop_first() =~= m.queue.skip(n as int));
        assert(m.started + m.queue.take(k as int) + seq![m.queue[k as int]] =~= m.started
            + m.queue.take(n as int));
        assert(p.started.push(p.queue[0]) =~= p.started + seq![p.queue[0]]);
    }
}

/// Buffers start in the order they were submitted: whatever sequence of events
/// led to a reachable state, the buffers started so far are the first ones
/// accepted, and the next to start is the oldest one still queued.
pub proof fn lemma_fifo_invariant(m: SessionModel)
    requires
        m.wf(),
    ensures
        m.started =~= m.accepted.take(m.started.len() as int),
        m.can_begin() ==> m.after_begin().started.last() == m.accepted[m.started.len() as int],
{
}

/// Submitting `bufs` to a fresh session, within the queue's and the pool's
/// capacity, then running one full transfer per buffer starts the buffers in
/// exactly the order they were submitted.
pub proof fn lemma_fifo_order(queue_capacity: nat, pool_capacity: nat, bufs: Seq<Seq<u8>>)
    requires
        bufs.len() <= queue_capacity,
        total_len(bufs) <= pool_capacity,
    ensures
        completed_cycles(
            submit_all(SessionModel::initial(queue_capacity, pool_capacity), bufs),
            bufs.len(),
        ).started == bufs,
        bufs.len() <= u64::MAX ==> completed_cycles(
            submit_all(SessionModel::initial(queue_capacity, pool_capacity), bufs),
            bufs.len(),
        ).transfers == bufs.len(),
{
    lemma_submit_all(queue_capacity, pool_capacity, bufs);
    let m = submit_all(SessionModel::initial(queue_capacity, pool_capacity), bufs);
    lemma_completed_cycles(m, bufs.len());
    assert(bufs.take(bufs.len() as int) =~= bufs);
    assert(Seq::<Seq<u8>>::empty() + bufs =~= bufs);
}

/// At most one transfer is outstanding: while the bus is not idle, asking
/// for the next buffer starts nothing.
pub proof fn lemma_single_transfer(m: SessionModel)
    requires
        m.wf(),
        m.phase != Phase::Idle,
    ensures
        !m.can_begin(),
        m.after_begin() == m,
{
}

/// Chip-select is low exactly while a started transfer awaits its completion;
/// starting a transfer drives it low, and a completion, a timeout or a refused
/// start drive it high.
pub proof fn lemma_chip_select(m: SessionModel)
    requires
        m.wf(),
    ensures
        m.chip_select_low <==> m.transfer_outstanding(),
        m.phase == Phase::Idle ==> !m.chip_select_low,
        m.can_begin() ==> m.after_begin().chip_select_low,
        m.transfer_outstanding() ==> !m.after_completion().chip_select_low,
        m.transfer_outstanding() ==> !m.after_finish().chip_select_low,
        !m.after_start_failed().chip_select_low || m.after_start_failed() == m,
{
}

/// One completion interrupt per started transfer: the completion counter rises
/// by one, the wait ends as completed and leaves the semaphore at zero, and the
/// continuation is armed.
pub proof fn lemma_completion_counts(m: SessionModel)
    requires
        m.wf(),
        m.can_begin(),
        m.transfers < u64::MAX,
    ensures
        m.after_begin().after_await().after_completion().semaphore == 1,
        m.after_begin().after_await().after_completion().continuation
            == ContinuationState::Armed,
        m.after_begin().after_await().after_completion().wait_outcome()
            == WaitOutcome::Completed,
        completed_cycle(m).transfers == m.transfers + 1,
        completed_cycle(m).semaphore == 0,
        completed_cycle(m).phase == Phase::Idle,
        completed_cycle(m).pool_used == m.pool_used - m.queue[0].len(),
{
    lemma_total_len_bound(m);
}

/// A started transfer whose completion never comes ends in a timeout that
/// frees its buffer and leaves the completion counter alone; the next queued
/// buffer, if any, then starts.
pub proof fn lemma_timeout_recovers(m: SessionModel)
    requires
        m.wf(),
        m.can_begin(),
    ensures
        m.after_begin().after_await().wait_outcome() == WaitOutcome::TimedOut,
        m.after_begin().after_await().after_finish().phase == Phase::Idle,
        !m.after_begin().after_await().after_finish().chip_select_low,
        m.after_begin().after_await().after_finish().semaphore == 0,
        m.after_begin().after_await().after_finish().pool_used == m.pool_used - m.queue[0].len(),
        m.after_begin().after_await().after_finish().transfers == m.transfers,
        m.after_begin().after_await().after_finish().timeouts == m.timeouts.wrapping_add(1),
        m.after_begin().after_await().after_finish().queue == m.queue.drop_first(),
        m.queue.len() > 1 ==> m.after_begin().after_await().after_finish().can_begin(),
        m.queue.len() > 1 ==> m.after_begin().after_await().after_finish().after_begin().started.last()
            == m.queue[1],
{
    lemma_total_len_bound(m);
}

/// The oldest queued buffer is part of what the pool holds.
proof fn lemma_total_len_bound(m: SessionModel)
    requires
        m.wf(),
        m.queue.len() > 0,
    ensures
        m.queue[0].len() <= m.pool_used,
{
    crate::session::lemma_total_len_drop_first(m.queue);
}

/// A submission to a full queue is refused with `QueueFull` and changes
/// nothing; once the worker has taken a buffer, a submission that the pool
/// has room for is accepted.
pub proof fn lemma_full_queue(m: SessionModel, b: Seq<u8>, later: Seq<u8>)
    requires
        m.wf(),
        m.queue.len() == m.queue_capacity,
    ensures
        m.submit_result(b) == Err::<(), SubmitError>(SubmitError::QueueFull),
        m.after_submit(b) == m,
        m.can_begin() && m.pool_used + later.len() <= m.pool_capacity
            ==> m.after_begin().submit_result(later) is Ok,
{
}

} // verus!

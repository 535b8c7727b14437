use mynewt_spi::session::{
    spi_noblock_write, BusSession, ContinuationState, Phase, SubmitError, WaitOutcome,
};

/// Runs one transfer the way the worker does when the interrupt fires.
fn run_completed(s: &mut BusSession) -> Vec<u8> {
    let b = s.begin_transfer().expect("a queued buffer");
    assert!(s.chip_select_low());
    s.await_completion();
    assert!(s.chip_select_low());
    assert!(s.on_completion());
    assert!(!s.chip_select_low());
    assert_eq!(s.semaphore_count(), 1);
    assert_eq!(s.finish_wait(), WaitOutcome::Completed);
    assert_eq!(s.semaphore_count(), 0);
    b
}

#[test]
fn two_buffers_transfer_in_order() {
    let mut s = BusSession::new(4, 16);
    assert_eq!(spi_noblock_write(&mut s, &[0x01, 0x02]), Ok(()));
    assert_eq!(spi_noblock_write(&mut s, &[0x03]), Ok(()));
    assert!(!s.chip_select_low());
    assert_eq!(run_completed(&mut s), vec![0x01, 0x02]);
    assert!(!s.chip_select_low());
    assert_eq!(run_completed(&mut s), vec![0x03]);
    assert!(!s.chip_select_low());
    assert_eq!(s.transfers(), 2);
    assert_eq!(s.tx_rx_bytes(), 3);
    assert_eq!(s.txlen(), 1);
    assert_eq!(s.pool_used(), 0);
    assert_eq!(s.queued(), 0);
    assert_eq!(s.begin_transfer(), None);
}

#[test]
fn many_buffers_start_in_submission_order() {
    let mut s = BusSession::new(8, 64);
    let bufs: Vec<Vec<u8>> = (0u8..6).map(|i| vec![i; (i as usize) + 1]).collect();
    for b in &bufs {
        assert_eq!(spi_noblock_write(&mut s, b), Ok(()));
    }
    for b in &bufs {
        assert_eq!(&run_completed(&mut s), b);
    }
    assert_eq!(s.transfers(), 6);
    assert_eq!(s.tx_rx_bytes(), 21);
}

#[test]
fn no_second_transfer_while_one_is_outstanding() {
    let mut s = BusSession::new(4, 16);
    spi_noblock_write(&mut s, &[1]).unwrap();
    spi_noblock_write(&mut s, &[2]).unwrap();
    assert_eq!(s.begin_transfer(), Some(vec![1]));
    assert_eq!(s.phase(), Phase::Selected);
    assert_eq!(s.begin_transfer(), None);
    s.await_completion();
    assert_eq!(s.phase(), Phase::Awaiting);
    assert_eq!(s.begin_transfer(), None);
    assert!(s.on_completion());
    assert_eq!(s.phase(), Phase::Completed);
    assert_eq!(s.begin_transfer(), None);
    assert_eq!(s.queued(), 1);
}

#[test]
fn chip_select_high_when_idle() {
    let mut s = BusSession::new(2, 8);
    assert_eq!(s.phase(), Phase::Idle);
    assert!(!s.chip_select_low());
    assert_eq!(s.begin_transfer(), None);
    assert!(!s.chip_select_low());
    spi_noblock_write(&mut s, &[9, 9]).unwrap();
    assert!(!s.chip_select_low());
}

#[test]
fn semaphore_back_to_zero_after_each_wake() {
    let mut s = BusSession::new(4, 16);
    for i in 0u8..3 {
        spi_noblock_write(&mut s, &[i]).unwrap();
    }
    for n in 1u64..4 {
        run_completed(&mut s);
        assert_eq!(s.transfers(), n);
        assert_eq!(s.semaphore_count(), 0);
    }
}

#[test]
fn completion_before_worker_parks() {
    let mut s = BusSession::new(2, 8);
    spi_noblock_write(&mut s, &[5]).unwrap();
    s.begin_transfer().unwrap();
    assert!(s.on_completion());
    s.await_completion();
    assert_eq!(s.phase(), Phase::Completed);
    assert_eq!(s.finish_wait(), WaitOutcome::Completed);
    assert_eq!(s.transfers(), 1);
}

#[test]
fn timeout_frees_buffer_and_next_proceeds() {
    let mut s = BusSession::new(4, 16);
    spi_noblock_write(&mut s, &[0xaa, 0xbb]).unwrap();
    spi_noblock_write(&mut s, &[0xcc]).unwrap();
    assert_eq!(s.pool_used(), 3);
    assert_eq!(s.begin_transfer(), Some(vec![0xaa, 0xbb]));
    s.await_completion();
    assert_eq!(s.finish_wait(), WaitOutcome::TimedOut);
    assert!(!s.chip_select_low());
    assert_eq!(s.pool_used(), 1);
    assert_eq!(s.timeouts(), 1);
    assert_eq!(s.transfers(), 0);
    assert_eq!(s.semaphore_count(), 0);
    assert_eq!(run_completed(&mut s), vec![0xcc]);
    assert_eq!(s.transfers(), 1);
    assert_eq!(s.pool_used(), 0);
}

#[test]
fn late_completion_after_timeout_is_ignored() {
    let mut s = BusSession::new(2, 8);
    spi_noblock_write(&mut s, &[1]).unwrap();
    s.begin_transfer().unwrap();
    s.await_completion();
    assert_eq!(s.finish_wait(), WaitOutcome::TimedOut);
    assert!(!s.on_completion());
    assert_eq!(s.semaphore_count(), 0);
    assert_eq!(s.transfers(), 0);
    assert_eq!(s.continuation(), ContinuationState::Idle);
    assert_eq!(s.finish_wait(), WaitOutcome::NothingInFlight);
}

#[test]
fn full_queue_refused_then_accepted_after_dequeue() {
    let mut s = BusSession::new(2, 16);
    spi_noblock_write(&mut s, &[1]).unwrap();
    spi_noblock_write(&mut s, &[2]).unwrap();
    assert_eq!(spi_noblock_write(&mut s, &[3]), Err(SubmitError::QueueFull));
    assert_eq!(s.queued(), 2);
    assert_eq!(s.pool_used(), 2);
    assert_eq!(s.begin_transfer(), Some(vec![1]));
    assert_eq!(spi_noblock_write(&mut s, &[3]), Ok(()));
    s.await_completion();
    s.on_completion();
    s.finish_wait();
    assert_eq!(run_completed(&mut s), vec![2]);
    assert_eq!(run_completed(&mut s), vec![3]);
}

#[test]
fn zero_capacity_queue_refuses() {
    let mut s = BusSession::new(0, 16);
    assert_eq!(spi_noblock_write(&mut s, &[]), Err(SubmitError::QueueFull));
}

#[test]
fn pool_exhausted_reports_alloc_failed() {
    let mut s = BusSession::new(4, 3);
    assert_eq!(spi_noblock_write(&mut s, &[1, 2]), Ok(()));
    assert_eq!(spi_noblock_write(&mut s, &[3, 4]), Err(SubmitError::AllocFailed));
    assert_eq!(s.queued(), 1);
    assert_eq!(s.pool_used(), 2);
    assert_eq!(spi_noblock_write(&mut s, &[3]), Ok(()));
    assert_eq!(s.pool_used(), 3);
    assert_eq!(spi_noblock_write(&mut s, &[]), Ok(()));
    assert_eq!(s.queued(), 3);
}

#[test]
fn pool_still_holds_buffer_in_flight() {
    let mut s = BusSession::new(1, 2);
    spi_noblock_write(&mut s, &[1, 2]).unwrap();
    s.begin_transfer().unwrap();
    assert_eq!(spi_noblock_write(&mut s, &[3]), Err(SubmitError::AllocFailed));
}

#[test]
fn refused_start_releases_buffer() {
    let mut s = BusSession::new(2, 8);
    spi_noblock_write(&mut s, &[7, 7, 7]).unwrap();
    s.begin_transfer().unwrap();
    s.start_failed();
    assert_eq!(s.phase(), Phase::Idle);
    assert!(!s.chip_select_low());
    assert_eq!(s.failures(), 1);
    assert_eq!(s.pool_used(), 0);
    assert_eq!(s.transfers(), 0);
}

#[test]
fn continuation_lifecycle() {
    let mut s = BusSession::new(4, 16);
    assert!(!s.fire_continuation());
    spi_noblock_write(&mut s, &[1]).unwrap();
    spi_noblock_write(&mut s, &[2]).unwrap();
    s.begin_transfer().unwrap();
    s.await_completion();
    assert!(s.on_completion());
    assert_eq!(s.continuation(), ContinuationState::Armed);
    assert_eq!(s.finish_wait(), WaitOutcome::Completed);
    assert!(s.fire_continuation());
    assert_eq!(s.continuation(), ContinuationState::Firing);
    assert!(s.end_continuation());
    assert_eq!(s.continuation(), ContinuationState::Idle);
    assert!(!s.end_continuation());
}

#[test]
fn continuation_with_nothing_pending_does_not_wake() {
    let mut s = BusSession::new(4, 16);
    spi_noblock_write(&mut s, &[1]).unwrap();
    run_completed(&mut s);
    assert!(s.fire_continuation());
    assert!(!s.end_continuation());
    assert_eq!(s.continuation(), ContinuationState::Idle);
}

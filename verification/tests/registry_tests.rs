use servo_bus::error::CoreError;
use servo_bus::frame::assemble;
use servo_bus::poll::{PollLoop, PollPhase};
use servo_bus::registry::Registry;
use servo_bus::signmag::SignMagnitude;
use servo_bus::telemetry::{ActuatorTelemetry, MAX_SERVOS};
use servo_bus::transport::{Bus, Request};

fn telemetry_with_location(location: i16) -> ActuatorTelemetry {
    let mut t = ActuatorTelemetry::zeroed();
    t.current_location = location;
    t.current_speed = SignMagnitude { negative: true, magnitude: 7 };
    t
}

fn block_with_location(location: u8) -> Vec<u8> {
    let mut block: Vec<u8> = vec![0; 31];
    block[16] = location;
    block
}

fn request(tag: u32, expected_len: usize, timeout_ms: u32) -> Request<u32> {
    Request { frame: vec![tag as u8, 0xAA], expected_len, timeout_ms, tag }
}

#[test]
fn new_registry_is_zero_valued() {
    let registry = Registry::new();
    let snapshot = registry.snapshot();
    assert_eq!(snapshot.servo.len(), MAX_SERVOS);
    assert_eq!(snapshot.task_run_count, 0);
    assert!(!snapshot.stale);
    for entry in snapshot.servo.iter() {
        assert_eq!(*entry, ActuatorTelemetry::zeroed());
    }
    assert_eq!(registry.read_one(1), Ok(ActuatorTelemetry::zeroed()));
    assert_eq!(registry.sequence_of(1), Ok(0));
}

#[test]
fn read_one_rejects_ids_outside_the_population() {
    let registry = Registry::new();
    assert_eq!(registry.read_one(0), Err(CoreError::InvalidId));
    assert_eq!(registry.read_one(MAX_SERVOS as u8 + 1), Err(CoreError::InvalidId));
    assert_eq!(registry.read_one(255), Err(CoreError::InvalidId));
    assert!(registry.read_one(MAX_SERVOS as u8).is_ok());
}

#[test]
fn update_replaces_one_entry() {
    let mut registry = Registry::new();
    assert_eq!(registry.apply_update(3, telemetry_with_location(300)), Ok(()));
    assert_eq!(registry.read_one(3), Ok(telemetry_with_location(300)));
    assert_eq!(registry.read_one(2), Ok(ActuatorTelemetry::zeroed()));
    assert_eq!(registry.read_one(4), Ok(ActuatorTelemetry::zeroed()));
    assert_eq!(registry.task_run_count(), 0);
}

#[test]
fn update_rejects_ids_outside_the_population() {
    let mut registry = Registry::new();
    assert_eq!(registry.apply_update(0, telemetry_with_location(1)), Err(CoreError::InvalidId));
    assert_eq!(registry.apply_update(17, telemetry_with_location(1)), Err(CoreError::InvalidId));
    for entry in registry.snapshot().servo.iter() {
        assert_eq!(*entry, ActuatorTelemetry::zeroed());
    }
}

#[test]
fn update_advances_the_sequence_number_of_its_entry() {
    let mut registry = Registry::new();
    registry.apply_update(5, telemetry_with_location(1)).unwrap();
    registry.apply_update(5, telemetry_with_location(2)).unwrap();
    registry.apply_update(6, telemetry_with_location(3)).unwrap();
    assert_eq!(registry.sequence_of(5), Ok(2));
    assert_eq!(registry.sequence_of(6), Ok(1));
    assert_eq!(registry.sequence_of(7), Ok(0));
    assert_eq!(registry.sequence_of(0), Err(CoreError::InvalidId));
    assert_eq!(registry.sequence_of(17), Err(CoreError::InvalidId));
}

#[test]
fn snapshot_index_is_id_minus_one() {
    let mut registry = Registry::new();
    let mut id: u8 = 1;
    while id as usize <= MAX_SERVOS {
        registry.apply_update(id, telemetry_with_location(id as i16 * 10)).unwrap();
        id += 1;
    }
    let snapshot = registry.snapshot();
    assert_eq!(snapshot.servo.len(), MAX_SERVOS);
    let mut i: usize = 0;
    while i < MAX_SERVOS {
        assert_eq!(snapshot.servo[i].current_location, (i as i16 + 1) * 10);
        assert_eq!(Ok(snapshot.servo[i]), registry.read_one(i as u8 + 1));
        i += 1;
    }
}

#[test]
fn snapshot_is_a_copy() {
    let mut registry = Registry::new();
    let before = registry.snapshot();
    registry.apply_update(1, telemetry_with_location(9)).unwrap();
    assert_eq!(before.servo[0], ActuatorTelemetry::zeroed());
    assert_eq!(registry.snapshot().servo[0], telemetry_with_location(9));
}

#[test]
fn cycle_count_and_stale_flag() {
    let mut registry = Registry::new();
    registry.complete_cycle();
    registry.complete_cycle();
    assert_eq!(registry.task_run_count(), 2);
    assert!(!registry.is_stale());
    registry.mark_stale();
    assert!(registry.is_stale());
    let snapshot = registry.snapshot();
    assert_eq!(snapshot.task_run_count, 2);
    assert!(snapshot.stale);
}

#[test]
fn poll_loop_states() {
    let mut poll = PollLoop::new();
    assert_eq!(poll.phase(), PollPhase::Idle);
    assert_eq!(poll.cursor(), 1);
    assert_eq!(poll.start(), Ok(()));
    assert_eq!(poll.phase(), PollPhase::Polling);
    assert_eq!(poll.start(), Err(CoreError::AlreadyRunning));
    poll.stop();
    assert_eq!(poll.phase(), PollPhase::Stopped);
    assert_eq!(poll.start(), Err(CoreError::AlreadyRunning));
    poll.fault();
    assert_eq!(poll.phase(), PollPhase::Stopped);
}

#[test]
fn poll_loop_stop_before_start_changes_nothing() {
    let mut poll = PollLoop::new();
    poll.stop();
    assert_eq!(poll.phase(), PollPhase::Idle);
    assert_eq!(poll.start(), Ok(()));
}

#[test]
fn poll_loop_fault_is_final() {
    let mut poll = PollLoop::new();
    poll.start().unwrap();
    poll.fault();
    assert_eq!(poll.phase(), PollPhase::Faulted);
    poll.stop();
    assert_eq!(poll.phase(), PollPhase::Faulted);
    assert_eq!(poll.start(), Err(CoreError::AlreadyRunning));
}

#[test]
fn poll_request_reads_the_telemetry_block_of_the_cursor() {
    let poll = PollLoop::new();
    assert_eq!(poll.request(), vec![0xFF, 0xFF, 0x01, 0x04, 0x02, 0x28, 0x1F, 0xB1]);
}

#[test]
fn absorb_takes_telemetry_of_the_polled_actuator() {
    let mut poll = PollLoop::new();
    let mut registry = Registry::new();
    let response = assemble(1, 0, &block_with_location(42)).unwrap();
    poll.absorb(&mut registry, &Ok(response));
    assert_eq!(registry.read_one(1).unwrap().current_location, 42);
    assert_eq!(registry.sequence_of(1), Ok(1));
    assert_eq!(poll.cursor(), 2);
    assert_eq!(poll.failures(), 0);
    assert_eq!(registry.task_run_count(), 0);
}

#[test]
fn absorb_skips_an_answer_from_another_actuator() {
    let mut poll = PollLoop::new();
    let mut registry = Registry::new();
    let response = assemble(2, 0, &block_with_location(42)).unwrap();
    poll.absorb(&mut registry, &Ok(response));
    assert_eq!(registry.read_one(1), Ok(ActuatorTelemetry::zeroed()));
    assert_eq!(registry.read_one(2), Ok(ActuatorTelemetry::zeroed()));
    assert_eq!(poll.cursor(), 2);
    assert_eq!(poll.failures(), 1);
}

#[test]
fn absorb_skips_failures_and_damaged_frames() {
    let mut poll = PollLoop::new();
    let mut registry = Registry::new();
    poll.absorb(&mut registry, &Err(CoreError::Timeout));
    let mut damaged = assemble(2, 0, &block_with_location(42)).unwrap();
    damaged[36] ^= 0xFF;
    poll.absorb(&mut registry, &Ok(damaged));
    poll.absorb(&mut registry, &Ok(vec![1, 2, 3]));
    poll.absorb(&mut registry, &Ok(assemble(4, 0, &[]).unwrap()));
    poll.absorb(&mut registry, &Err(CoreError::IoError));
    assert_eq!(poll.cursor(), 6);
    assert_eq!(poll.failures(), 5);
    for entry in registry.snapshot().servo.iter() {
        assert_eq!(*entry, ActuatorTelemetry::zeroed());
    }
}

#[test]
fn cycle_with_one_timeout_updates_all_others_and_counts_once() {
    let mut poll = PollLoop::new();
    let mut registry = Registry::new();
    registry.apply_update(7, telemetry_with_location(-7)).unwrap();
    let mut id: u8 = 1;
    while id as usize <= MAX_SERVOS {
        assert_eq!(registry.task_run_count(), 0);
        if id == 7 {
            poll.absorb(&mut registry, &Err(CoreError::Timeout));
        } else {
            poll.absorb(&mut registry, &Ok(assemble(id, 0, &block_with_location(id)).unwrap()));
        }
        id += 1;
    }
    assert_eq!(registry.task_run_count(), 1);
    assert_eq!(poll.cursor(), 1);
    assert_eq!(poll.failures(), 1);
    let snapshot = registry.snapshot();
    let mut i: usize = 0;
    while i < MAX_SERVOS {
        if i == 6 {
            assert_eq!(snapshot.servo[i], telemetry_with_location(-7));
        } else {
            assert_eq!(snapshot.servo[i].current_location, i as i16 + 1);
        }
        i += 1;
    }
}

#[test]
fn cycle_of_failures_still_counts() {
    let mut poll = PollLoop::new();
    let mut registry = Registry::new();
    let mut round: usize = 0;
    while round < 2 * MAX_SERVOS {
        poll.absorb(&mut registry, &Err(CoreError::Timeout));
        round += 1;
    }
    assert_eq!(registry.task_run_count(), 2);
    assert_eq!(poll.failures(), 32);
}

#[test]
fn bus_serves_in_submission_order() {
    let mut bus: Bus<u32> = Bus::new();
    assert_eq!(bus.submit(request(1, 0, 10)), Ok(()));
    assert_eq!(bus.submit(request(2, 0, 10)), Ok(()));
    assert_eq!(bus.submit(request(3, 0, 10)), Ok(()));
    assert_eq!(bus.pending_len(), 3);
    let mut order: Vec<u32> = Vec::new();
    while let Some(t) = bus.begin() {
        assert_eq!(t.frame[1], 0xAA);
        let done = bus.receive(&[]).unwrap();
        assert_eq!(done.request.frame, t.frame);
        order.push(done.request.tag);
    }
    assert_eq!(order, vec![1, 2, 3]);
    assert_eq!(bus.pending_len(), 0);
}

#[test]
fn bus_puts_one_transaction_on_the_wire_at_a_time() {
    let mut bus: Bus<u32> = Bus::new();
    assert!(bus.begin().is_none());
    bus.submit(request(1, 2, 10)).unwrap();
    bus.submit(request(2, 2, 10)).unwrap();
    assert!(!bus.is_busy());
    let first = bus.begin().unwrap();
    assert_eq!(first.frame, vec![1, 0xAA]);
    assert_eq!(first.expected_len, 2);
    assert_eq!(first.timeout_ms, 10);
    assert!(bus.is_busy());
    assert!(bus.begin().is_none());
    bus.submit(request(3, 2, 10)).unwrap();
    assert!(bus.begin().is_none());
    assert_eq!(bus.pending_len(), 2);
    assert!(bus.receive(&[1]).is_none());
    assert!(bus.begin().is_none());
    let done = bus.receive(&[2]).unwrap();
    assert_eq!(done.request.tag, 1);
    assert!(!bus.is_busy());
    assert_eq!(bus.begin().unwrap().frame, vec![2, 0xAA]);
}

#[test]
fn bus_gathers_the_expected_bytes() {
    let mut bus: Bus<u32> = Bus::new();
    bus.submit(request(1, 5, 10)).unwrap();
    bus.begin().unwrap();
    assert!(bus.receive(&[1, 2]).is_none());
    assert!(bus.receive(&[]).is_none());
    assert!(bus.receive(&[3]).is_none());
    let done = bus.receive(&[4, 5, 6, 7]).unwrap();
    assert_eq!(done.outcome, Ok(vec![1, 2, 3, 4, 5]));
    assert_eq!(done.request.tag, 1);
}

#[test]
fn bus_drops_bytes_that_nobody_waits_for() {
    let mut bus: Bus<u32> = Bus::new();
    assert!(bus.receive(&[1, 2, 3]).is_none());
    bus.submit(request(1, 1, 10)).unwrap();
    assert!(bus.receive(&[1, 2, 3]).is_none());
    bus.begin().unwrap();
    assert_eq!(bus.receive(&[9]).unwrap().outcome, Ok(vec![9]));
}

#[test]
fn bus_times_out_after_the_whole_timeout() {
    let mut bus: Bus<u32> = Bus::new();
    bus.submit(request(1, 4, 10)).unwrap();
    bus.begin().unwrap();
    assert!(bus.tick(4).is_none());
    assert!(bus.receive(&[1, 2]).is_none());
    assert!(bus.tick(5).is_none());
    let done = bus.tick(1).unwrap();
    assert_eq!(done.outcome, Err(CoreError::Timeout));
    assert_eq!(done.request.tag, 1);
    assert!(!bus.is_busy());
    assert!(bus.tick(100).is_none());
}

#[test]
fn bus_timeout_does_not_overflow() {
    let mut bus: Bus<u32> = Bus::new();
    bus.submit(request(1, 4, u32::MAX)).unwrap();
    bus.begin().unwrap();
    assert!(bus.tick(u32::MAX - 1).is_none());
    assert_eq!(bus.tick(u32::MAX).unwrap().outcome, Err(CoreError::Timeout));
}

#[test]
fn bus_failure_ends_the_transaction_and_keeps_the_bus_open() {
    let mut bus: Bus<u32> = Bus::new();
    assert!(bus.fail().is_none());
    bus.submit(request(1, 4, 10)).unwrap();
    bus.submit(request(2, 4, 10)).unwrap();
    bus.begin().unwrap();
    let done = bus.fail().unwrap();
    assert_eq!(done.outcome, Err(CoreError::IoError));
    assert_eq!(done.request.tag, 1);
    assert!(!bus.is_closed());
    assert_eq!(bus.begin().unwrap().frame, vec![2, 0xAA]);
}

#[test]
fn bus_close_fails_everything_in_order() {
    let mut bus: Bus<u32> = Bus::new();
    bus.submit(request(1, 4, 10)).unwrap();
    bus.submit(request(2, 4, 10)).unwrap();
    bus.submit(request(3, 4, 10)).unwrap();
    bus.begin().unwrap();
    let flushed = bus.close();
    assert_eq!(flushed.len(), 3);
    assert_eq!(flushed[0].request.tag, 1);
    assert_eq!(flushed[1].request.tag, 2);
    assert_eq!(flushed[2].request.tag, 3);
    for done in flushed.iter() {
        assert_eq!(done.outcome, Err(CoreError::IoError));
    }
    assert!(bus.is_closed());
    assert!(!bus.is_busy());
    assert_eq!(bus.pending_len(), 0);
}

#[test]
fn closed_bus_accepts_nothing() {
    let mut bus: Bus<u32> = Bus::new();
    assert_eq!(bus.close().len(), 0);
    assert_eq!(bus.submit(request(1, 4, 10)), Err(CoreError::IoError));
    assert_eq!(bus.pending_len(), 0);
    assert!(bus.begin().is_none());
    assert_eq!(bus.close().len(), 0);
}

#[test]
fn transact_queues_behind_what_waits() {
    let mut bus: Bus<u32> = Bus::new();
    bus.submit(request(1, 0, 10)).unwrap();
    assert_eq!(bus.transact(vec![9, 9], 3, 25, 2), Ok(()));
    assert_eq!(bus.pending_len(), 2);
    assert_eq!(bus.begin().unwrap().frame, vec![1, 0xAA]);
    bus.receive(&[]).unwrap();
    let second = bus.begin().unwrap();
    assert_eq!(second.frame, vec![9, 9]);
    assert_eq!(second.expected_len, 3);
    assert_eq!(second.timeout_ms, 25);
    let done = bus.tick(25).unwrap();
    assert_eq!(done.request.tag, 2);
    assert_eq!(done.outcome, Err(CoreError::Timeout));
    bus.close();
    assert_eq!(bus.transact(vec![9, 9], 3, 25, 3), Err(CoreError::IoError));
}

use multi_node::codec::{encode_continue, encode_done, SyncMessage, SyncMessageStart};
use multi_node::coordinator::{CoordAction, CoordEvent, CoordPhase, Coordinator, POLL_INTERVAL_MS};
use multi_node::protocol::{on_connect, on_done_bytes, BarrierError, ConnectOutcome, ConnectStep, RETRY_DELAY_MS};
use multi_node::tally::RoundTally;
use multi_node::worker::{WorkerAction, WorkerAgent, WorkerEvent, WorkerPhase};

fn done() -> Vec<u8> {
    encode_done(SyncMessage { is_done: true })
}

/// Runs one broadcast from a check that found the tally complete; returns the
/// workers that received a Continue, in order, with their budgets.
fn broadcast(c: &mut Coordinator, first: CoordAction) -> Vec<(u64, u64)> {
    let mut sent = Vec::new();
    let mut a = first;
    loop {
        match a {
            CoordAction::SendContinue { worker, budget } => {
                sent.push((worker, budget));
                a = c.on_event(CoordEvent::Sent);
            }
            CoordAction::Reconnect(w) => {
                assert_eq!(Some(&w), sent.last().map(|p| &p.0));
                a = c.on_event(CoordEvent::Reconnected);
            }
            CoordAction::CheckTally => return sent,
            other => panic!("unexpected action {:?}", other),
        }
    }
}

#[test]
fn scenario_three_workers_budget_100() {
    let mut tally = RoundTally::new(3);
    let (mut c, first) = Coordinator::new(3, 100, None);
    assert_eq!(first, CoordAction::CheckTally);
    for _round in 0..3 {
        for _w in 0..3 {
            assert_eq!(c.check_tally(&mut tally), CoordAction::Wait(POLL_INTERVAL_MS));
            assert_eq!(c.on_event(CoordEvent::Waited(POLL_INTERVAL_MS)), CoordAction::CheckTally);
            assert_eq!(on_done_bytes(&mut tally, &done()), Ok(()));
        }
        assert_eq!(tally.get_count(), 3);
        let a = c.check_tally(&mut tally);
        assert_eq!(tally.get_count(), 0);
        assert_eq!(a, CoordAction::SendContinue { worker: 0, budget: 100 });
        assert_eq!(broadcast(&mut c, a), vec![(0, 100), (1, 100), (2, 100)]);
        assert_eq!(c.phase, CoordPhase::Polling);
    }
}

#[test]
fn scenario_worker_round_sleeps_budget() {
    let (mut w, a) = WorkerAgent::new();
    assert_eq!(a, WorkerAction::SendDone);
    for _round in 0..2 {
        assert_eq!(w.on_event(WorkerEvent::DoneSent), WorkerAction::AcceptContinue);
        let bytes = encode_continue(SyncMessageStart { budget: 100 });
        assert_eq!(w.on_event(WorkerEvent::ContinueRead(bytes)), WorkerAction::Sleep(100));
        assert_eq!(w.on_event(WorkerEvent::Slept), WorkerAction::Reconnect);
        assert_eq!(w.on_event(WorkerEvent::Reconnected), WorkerAction::SendDone);
    }
}

#[test]
fn worker_stops_on_short_continue() {
    let (mut w, _) = WorkerAgent::new();
    w.on_event(WorkerEvent::DoneSent);
    let a = w.on_event(WorkerEvent::ContinueRead(vec![1, 2]));
    assert_eq!(a, WorkerAction::Stop(BarrierError::MalformedRecord));
    assert_eq!(w.phase, WorkerPhase::Stopped);
}

#[test]
fn worker_never_sends_done_twice_without_sleep() {
    let (mut w, _) = WorkerAgent::new();
    w.on_event(WorkerEvent::DoneSent);
    let a = w.on_event(WorkerEvent::DoneSent);
    assert_eq!(a, WorkerAction::Stop(BarrierError::ConnectionError));
}

#[test]
fn scenario_coordinator_retries_until_endpoint_bound() {
    assert_eq!(on_connect(ConnectOutcome::NotFound), ConnectStep::RetryAfter(2000));
    assert_eq!(RETRY_DELAY_MS, 2000);
    assert_eq!(on_connect(ConnectOutcome::NotFound), ConnectStep::RetryAfter(RETRY_DELAY_MS));
    assert_eq!(on_connect(ConnectOutcome::Connected), ConnectStep::Proceed);
}

#[test]
fn other_connect_failure_is_fatal() {
    assert_eq!(on_connect(ConnectOutcome::Failed), ConnectStep::Fatal(BarrierError::ConnectionError));
}

#[test]
fn scenario_missing_worker_times_out() {
    let mut tally = RoundTally::new(2);
    let (mut c, _) = Coordinator::new(2, 100, Some(50));
    assert_eq!(on_done_bytes(&mut tally, &done()), Ok(()));
    let mut a = c.check_tally(&mut tally);
    let mut checks: u64 = 0;
    while let CoordAction::Wait(ms) = a {
        a = c.on_event(CoordEvent::Waited(ms));
        assert_eq!(a, CoordAction::CheckTally);
        a = c.check_tally(&mut tally);
        checks += 1;
        assert!(checks < 1000);
    }
    assert_eq!(a, CoordAction::Stop(BarrierError::WorkerTimeout));
    assert_eq!(c.phase, CoordPhase::Failed);
    assert_eq!(tally.get_count(), 1);
}

#[test]
fn without_deadline_incomplete_round_keeps_waiting() {
    let mut tally = RoundTally::new(2);
    let (mut c, _) = Coordinator::new(2, 100, None);
    assert_eq!(on_done_bytes(&mut tally, &done()), Ok(()));
    for _ in 0..100 {
        assert_eq!(c.check_tally(&mut tally), CoordAction::Wait(POLL_INTERVAL_MS));
        assert_eq!(c.on_event(CoordEvent::Waited(1_000_000)), CoordAction::CheckTally);
    }
    assert_eq!(c.phase, CoordPhase::Polling);
}

#[test]
fn scenario_short_done_is_discarded() {
    let mut tally = RoundTally::new(2);
    assert_eq!(on_done_bytes(&mut tally, &[]), Err(BarrierError::MalformedRecord));
    assert_eq!(tally.get_count(), 0);
    assert_eq!(on_done_bytes(&mut tally, &[7]), Err(BarrierError::MalformedRecord));
    assert_eq!(tally.get_count(), 0);
    assert_eq!(on_done_bytes(&mut tally, &done()), Ok(()));
    assert_eq!(tally.get_count(), 1);
}

#[test]
fn done_on_full_tally_is_refused() {
    let mut tally = RoundTally::new(1);
    assert_eq!(on_done_bytes(&mut tally, &done()), Ok(()));
    assert_eq!(on_done_bytes(&mut tally, &done()), Err(BarrierError::TallyFull));
    assert_eq!(tally.get_count(), 1);
}

#[test]
fn failed_send_stops_coordinator() {
    let mut tally = RoundTally::new(1);
    let (mut c, _) = Coordinator::new(1, 5, None);
    on_done_bytes(&mut tally, &done()).unwrap();
    assert_eq!(c.check_tally(&mut tally), CoordAction::SendContinue { worker: 0, budget: 5 });
    assert_eq!(c.on_event(CoordEvent::Failed), CoordAction::Stop(BarrierError::ConnectionError));
}

#[test]
fn stopped_worker_stays_stopped() {
    let (mut w, _) = WorkerAgent::new();
    assert_eq!(w.on_event(WorkerEvent::Slept), WorkerAction::Stop(BarrierError::ConnectionError));
    assert_eq!(w.on_event(WorkerEvent::DoneSent), WorkerAction::Stop(BarrierError::ConnectionError));
    assert_eq!(w.on_event(WorkerEvent::Reconnected), WorkerAction::Stop(BarrierError::ConnectionError));
    assert_eq!(w.phase, WorkerPhase::Stopped);
}

#[test]
fn deadline_counts_from_the_start_of_each_round() {
    let mut tally = RoundTally::new(1);
    let (mut c, _) = Coordinator::new(1, 10, Some(30));
    assert_eq!(c.check_tally(&mut tally), CoordAction::Wait(POLL_INTERVAL_MS));
    assert_eq!(c.on_event(CoordEvent::Waited(20)), CoordAction::CheckTally);
    assert_eq!(c.waited_ms, 20);
    on_done_bytes(&mut tally, &done()).unwrap();
    let a = c.check_tally(&mut tally);
    assert_eq!(broadcast(&mut c, a), vec![(0, 10)]);
    assert_eq!(c.waited_ms, 0);
    assert_eq!(c.check_tally(&mut tally), CoordAction::Wait(POLL_INTERVAL_MS));
    assert_eq!(c.on_event(CoordEvent::Waited(20)), CoordAction::CheckTally);
    assert_eq!(c.check_tally(&mut tally), CoordAction::Wait(POLL_INTERVAL_MS));
    assert_eq!(c.on_event(CoordEvent::Waited(20)), CoordAction::CheckTally);
    assert_eq!(c.check_tally(&mut tally), CoordAction::Stop(BarrierError::WorkerTimeout));
}

#[test]
fn waited_time_saturates() {
    let (mut c, _) = Coordinator::new(1, 10, None);
    let mut tally = RoundTally::new(1);
    c.check_tally(&mut tally);
    c.on_event(CoordEvent::Waited(u64::MAX));
    c.check_tally(&mut tally);
    c.on_event(CoordEvent::Waited(5));
    assert_eq!(c.waited_ms, u64::MAX);
}

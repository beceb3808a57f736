use mqtt_bench::connection::iteration_budget;
use mqtt_bench::session::{Effects, Event, Session, StressState};

fn drive(s: &mut Session, events: &[Event]) -> Vec<Effects> {
    events.iter().map(|e| s.step(*e)).collect()
}

#[test]
fn end_to_end_twelve_cycles() {
    let budget = iteration_budget(60, 5000).unwrap();
    assert_eq!(budget, 12);
    let (mut s, start) = Session::start(budget);
    assert!(start.running_tasks_inc && start.ongoing_inc && !start.exited_tasks_inc);
    let mut exited = 0;
    let mut established: i64 = 0;
    let mut published = 0;
    let fx = s.step(Event::Connack { accepted: true });
    assert!(fx.established_inc && fx.ongoing_dec);
    established += 1;
    for cycle in 0..12 {
        let tick = s.step(Event::Tick);
        assert!(tick.enqueue_publish, "cycle {}", cycle);
        assert_eq!(s.state, StressState::Publishing);
        let ack = s.step(Event::Puback);
        assert!(ack.publish_packets_inc);
        published += 1;
        if ack.exited_tasks_inc {
            exited += 1;
        }
        if ack.established_dec {
            established -= 1;
        }
    }
    assert!(s.finished);
    assert_eq!(published, 12);
    assert_eq!(s.acked, 12);
    assert_eq!(exited, 1);
    assert_eq!(established, 0);
    let after = s.step(Event::Tick);
    assert_eq!(after, Effects::none());
}

#[test]
fn zero_budget_ends_at_once() {
    let budget = iteration_budget(1, 5000).unwrap();
    assert_eq!(budget, 0);
    let (mut s, fx) = Session::start(budget);
    assert!(s.finished);
    assert!(fx.exited_tasks_inc && fx.close && !fx.ongoing_inc);
    let later = s.step(Event::Connack { accepted: true });
    assert_eq!(later, Effects::none());
    assert_eq!(s.attempted, 0);
}

#[test]
fn tick_while_unacknowledged_counts_timeout() {
    let (mut s, _) = Session::start(5);
    let early = s.step(Event::Tick);
    assert!(early.timeout_pubacks_inc && !early.enqueue_publish);
    s.step(Event::Connack { accepted: true });
    let first = s.step(Event::Tick);
    assert!(first.enqueue_publish && !first.timeout_pubacks_inc);
    assert_eq!(s.state, StressState::Publishing);
    let second = s.step(Event::Tick);
    assert!(second.timeout_pubacks_inc && !second.enqueue_publish);
    assert_eq!(s.attempted, 1);
    s.step(Event::Puback);
    let third = s.step(Event::Tick);
    assert!(third.enqueue_publish && !third.timeout_pubacks_inc);
    assert_eq!(s.attempted, 2);
}

#[test]
fn puback_out_of_sequence_is_counted_invalid() {
    let (mut s, _) = Session::start(5);
    s.step(Event::Connack { accepted: true });
    let fx = s.step(Event::Puback);
    assert!(fx.invalid_pubacks_inc && !fx.publish_packets_inc);
    assert_eq!(s.state, StressState::Published);
    assert!(!s.finished);
    assert_eq!(s.acked, 0);
}

#[test]
fn rejected_connack_ends_session() {
    let (mut s, _) = Session::start(5);
    let fx = s.step(Event::Connack { accepted: false });
    assert!(s.finished);
    assert!(fx.exited_tasks_inc && fx.close && fx.ongoing_dec && !fx.established_dec);
}

#[test]
fn malformed_data_ends_session_and_releases_gauge() {
    let (mut s, _) = Session::start(5);
    s.step(Event::Connack { accepted: true });
    s.step(Event::Tick);
    let fx = s.step(Event::Malformed);
    assert!(s.finished);
    assert!(fx.exited_tasks_inc && fx.close && fx.established_dec && !fx.ongoing_dec);
}

#[test]
fn pingresp_changes_nothing() {
    let (mut s, _) = Session::start(5);
    s.step(Event::Connack { accepted: true });
    let before = s;
    assert_eq!(s.step(Event::Pingresp), Effects::none());
    assert_eq!(s, before);
}

#[test]
fn states_follow_the_graph() {
    let (mut s, _) = Session::start(3);
    let events = [
        Event::Tick,
        Event::Connack { accepted: true },
        Event::Tick,
        Event::Puback,
        Event::Pingresp,
        Event::Puback,
        Event::Tick,
        Event::Puback,
    ];
    let mut states = vec![s.state];
    for e in events.iter() {
        s.step(*e);
        states.push(s.state);
    }
    for w in states.windows(2) {
        assert!(!(w[0] == StressState::Publishing && w[1] == StressState::Connecting));
        assert!(!(w[0] == StressState::Published && w[1] == StressState::Connecting));
    }
    assert_eq!(s.acked, 2);
}

#[test]
fn budget_formula_and_bad_think_time() {
    assert_eq!(iteration_budget(60, 10000).unwrap(), 6);
    assert_eq!(iteration_budget(7, 3000).unwrap(), 2);
    assert_eq!(iteration_budget(-5, 1000).unwrap(), 0);
    assert!(iteration_budget(60, 0).is_err());
    assert!(iteration_budget(60, -1).is_err());
    assert_eq!(iteration_budget(i32::MAX, 1).unwrap(), i32::MAX as u64 * 1000);
}

#[test]
fn publish_count_never_exceeds_budget() {
    let (mut s, _) = Session::start(2);
    s.step(Event::Connack { accepted: true });
    let mut enqueued = 0;
    for _ in 0..10 {
        let fx = drive(&mut s, &[Event::Tick, Event::Puback]);
        enqueued += fx.iter().filter(|f| f.enqueue_publish).count();
    }
    assert_eq!(enqueued, 2);
    assert!(s.finished);
}

use mqtt_bench::registry::{gauge_decrement, MetricRegistry, TaskStatus};
use mqtt_bench::session::{Event, Session};

fn value(reg: &MetricRegistry, name: &str) -> u64 {
    let snap = reg.update(&vec![]);
    snap.values.iter().find(|(n, _)| n == name).map(|(_, v)| *v).unwrap()
}

#[test]
fn status_labels() {
    assert_eq!(TaskStatus::Run.to_label(), "Run");
    assert_eq!(TaskStatus::Stop.to_label(), "Stop");
}

#[test]
fn gauge_decrement_stops_at_zero() {
    assert_eq!(gauge_decrement(0), None);
    assert_eq!(gauge_decrement(5), Some(4));
}

#[test]
fn counters_count() {
    let reg = MetricRegistry::new("task-demo".to_string());
    reg.publish_packets_inc();
    reg.publish_packets_inc();
    reg.exited_tasks_inc();
    assert_eq!(value(&reg, "publish_packets"), 2);
    assert_eq!(value(&reg, "exited_tasks"), 1);
    assert_eq!(value(&reg, "invalid_pubacks"), 0);
}

#[test]
fn gauges_never_go_negative() {
    let reg = MetricRegistry::new("t".to_string());
    reg.established_connection_decr();
    assert_eq!(value(&reg, "established_connection"), 0);
    reg.established_connection_inc();
    reg.established_connection_inc();
    reg.established_connection_decr();
    assert_eq!(value(&reg, "established_connection"), 1);
    reg.ongoing_connection_inc();
    reg.task_stopped();
    assert_eq!(value(&reg, "established_connection"), 0);
    assert_eq!(value(&reg, "ongoing_connection"), 0);
}

#[test]
fn snapshot_labels_and_names() {
    let reg = MetricRegistry::new("task-demo".to_string());
    let snap = reg.update(&vec![("host".to_string(), "h1".to_string())]);
    assert_eq!(
        snap.labels,
        vec![
            ("host".to_string(), "h1".to_string()),
            ("task_name".to_string(), "task-demo".to_string()),
            ("task_status".to_string(), "Stop".to_string()),
        ]
    );
    reg.start_task();
    let snap = reg.update(&vec![]);
    assert_eq!(snap.labels[1], ("task_status".to_string(), "Run".to_string()));
    let names: Vec<&str> = snap.values.iter().map(|(n, _)| n.as_str()).collect();
    assert_eq!(
        names,
        vec![
            "running_tasks",
            "exited_tasks",
            "invalid_pubacks",
            "timeout_pubacks",
            "publish_packets",
            "established_connection",
            "ongoing_connection"
        ]
    );
    assert_eq!(reg.task_name(), "task-demo");
}

#[test]
fn applied_session_effects_balance_gauges() {
    let reg = MetricRegistry::new("t".to_string());
    let (mut s, fx) = Session::start(1);
    reg.apply(&fx);
    assert_eq!(value(&reg, "ongoing_connection"), 1);
    for e in [Event::Connack { accepted: true }, Event::Tick, Event::Puback] {
        let fx = s.step(e);
        reg.apply(&fx);
    }
    assert_eq!(value(&reg, "running_tasks"), 1);
    assert_eq!(value(&reg, "exited_tasks"), 1);
    assert_eq!(value(&reg, "publish_packets"), 1);
    assert_eq!(value(&reg, "established_connection"), 0);
    assert_eq!(value(&reg, "ongoing_connection"), 0);
}

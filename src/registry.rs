//! Process-wide counters and gauges, updated concurrently by every session.
//! Their values change under other sessions' feet, so no statement here
//! speaks of them; what is verified is which updates each event causes
//! (see `session`) and how a snapshot is labelled.

use vstd::prelude::*;
use atomic_counter::AtomicCounter;
use crate::context::{clone_pairs, pairs_view};
use crate::session::Effects;
use std::sync::atomic::{AtomicU32, Ordering};
use std::sync::Mutex;

verus! {

/// Whether the test is running.
#[derive(PartialEq, Eq, Structural, Clone, Copy, Debug)]
pub enum TaskStatus {
    Run,
    Stop,
}

pub open spec fn status_label(s: TaskStatus) -> Seq<char> {
    match s {
        TaskStatus::Run => "Run"@,
        TaskStatus::Stop => "Stop"@,
    }
}

impl TaskStatus {
    /// The label value of the status.
    pub fn to_label(&self) -> (r: String)
        ensures
            r@ == status_label(*self),
    {
        match self {
            TaskStatus::Run => String::from_str("Run"),
            TaskStatus::Stop => String::from_str("Stop"),
        }
    }
}

#[verifier::external_type_specification]
#[verifier::external_body]
pub struct ExRelaxedCounter(atomic_counter::RelaxedCounter);

pub assume_specification[ atomic_counter::RelaxedCounter::new ](initial_count: usize) -> atomic_counter::RelaxedCounter;

/// Relies on atomic_counter's `RelaxedCounter::inc`, a relaxed atomic add.
#[verifier::external_body]
fn counter_inc(c: &atomic_counter::RelaxedCounter) {
    c.inc();
}

/// Relies on atomic_counter's `RelaxedCounter::get`, a relaxed atomic load.
#[verifier::external_body]
fn counter_get(c: &atomic_counter::RelaxedCounter) -> usize {
    c.get()
}

#[verifier::external_type_specification]
#[verifier::external_body]
#[verifier::reject_recursive_types(T)]
pub struct ExMutex<T: ?Sized>(Mutex<T>);

pub assume_specification<T>[ Mutex::<T>::new ](t: T) -> Mutex<T>;

/// Relies on `Mutex::lock`: writes the status under the lock; a lock that
/// another thread poisoned is used as it is.
#[verifier::external_body]
fn store_status(m: &Mutex<TaskStatus>, s: TaskStatus) {
    *m.lock().unwrap_or_else(std::sync::PoisonError::into_inner) = s;
}

/// Relies on `Mutex::lock`: reads the status under the lock; a lock that
/// another thread poisoned is used as it is.
#[verifier::external_body]
fn load_status(m: &Mutex<TaskStatus>) -> TaskStatus {
    *m.lock().unwrap_or_else(std::sync::PoisonError::into_inner)
}

/// Relies on `AtomicU32::fetch_update`: applies `gauge_decrement` atomically,
/// leaving the gauge as it is where that gives `None`.
#[verifier::external_body]
fn gauge_fetch_decrement(g: &AtomicU32) {
    let _ = g.fetch_update(Ordering::Relaxed, Ordering::Relaxed, gauge_decrement);
}

/// A gauge one lower, or `None` at zero: gauges never go below zero.
pub fn gauge_decrement(v: u32) -> (r: Option<u32>)
    ensures
        v == 0 ==> r is None,
        v > 0 ==> r == Some((v - 1) as u32),
{
    if v == 0 {
        None
    } else {
        Some(v - 1)
    }
}

/// Names of the exported values, in export order.
pub open spec fn metric_names() -> Seq<Seq<char>> {
    seq![
        "running_tasks"@,
        "exited_tasks"@,
        "invalid_pubacks"@,
        "timeout_pubacks"@,
        "publish_packets"@,
        "established_connection"@,
        "ongoing_connection"@,
    ]
}

/// A labelled set of values, ready for a metrics sink.
pub struct Snapshot {
    pub labels: Vec<(String, String)>,
    pub values: Vec<(String, u64)>,
}

/// The shared counters and gauges of a test run.
pub struct MetricRegistry {
    running_tasks: atomic_counter::RelaxedCounter,
    exited_tasks: atomic_counter::RelaxedCounter,
    invalid_pubacks: atomic_counter::RelaxedCounter,
    timeout_pubacks: atomic_counter::RelaxedCounter,
    publish_packets: atomic_counter::RelaxedCounter,
    established_connection: AtomicU32,
    ongoing_connection: AtomicU32,
    task_name: String,
    task_status: Mutex<TaskStatus>,
}

impl MetricRegistry {
    /// The name of the task whose run this registry counts.
    pub closed spec fn name(&self) -> Seq<char> {
        self.task_name@
    }

    pub fn task_name(&self) -> (r: &String)
        ensures
            r@ == self.name(),
    {
        &self.task_name
    }

    /// A registry with every value at zero and the task stopped.
    pub fn new(task_name: String) -> (r: MetricRegistry)
        ensures
            r.name() == task_name@,
    {
        MetricRegistry {
            running_tasks: atomic_counter::RelaxedCounter::new(0),
            exited_tasks: atomic_counter::RelaxedCounter::new(0),
            invalid_pubacks: atomic_counter::RelaxedCounter::new(0),
            timeout_pubacks: atomic_counter::RelaxedCounter::new(0),
            publish_packets: atomic_counter::RelaxedCounter::new(0),
            established_connection: AtomicU32::new(0),
            ongoing_connection: AtomicU32::new(0),
            task_name,
            task_status: Mutex::new(TaskStatus::Stop),
        }
    }

    pub fn start_task(&self) {
        store_status(&self.task_status, TaskStatus::Run);
    }

    /// Marks the run stopped and resets both connection gauges.
    pub fn task_stopped(&self) {
        store_status(&self.task_status, TaskStatus::Stop);
        self.established_connection_reset();
        self.ongoing_connection_reset();
    }

    pub fn task_status(&self) -> TaskStatus {
        load_status(&self.task_status)
    }

    pub fn running_tasks_inc(&self) {
        counter_inc(&self.running_tasks);
    }

    pub fn exited_tasks_inc(&self) {
        counter_inc(&self.exited_tasks);
    }

    pub fn invalid_pubacks_inc(&self) {
        counter_inc(&self.invalid_pubacks);
    }

    pub fn timeout_pubacks_inc(&self) {
        counter_inc(&self.timeout_pubacks);
    }

    pub fn publish_packets_inc(&self) {
        counter_inc(&self.publish_packets);
    }

    pub fn ongoing_connection_inc(&self) {
        self.ongoing_connection.fetch_add(1, Ordering::Relaxed);
    }

    /// Lowers the gauge by one, stopping at zero.
    pub fn ongoing_connection_decr(&self) {
        gauge_fetch_decrement(&self.ongoing_connection);
    }

    pub fn ongoing_connection_reset(&self) {
        self.ongoing_connection.store(0, Ordering::Relaxed);
    }

    pub fn established_connection_inc(&self) {
        self.established_connection.fetch_add(1, Ordering::Relaxed);
    }

    /// Lowers the gauge by one, stopping at zero.
    pub fn established_connection_decr(&self) {
        gauge_fetch_decrement(&self.established_connection);
    }

    pub fn established_connection_reset(&self) {
        self.established_connection.store(0, Ordering::Relaxed);
    }

    /// Carries out the counter and gauge updates of one session step.
    pub fn apply(&self, fx: &Effects) {
        if fx.running_tasks_inc {
            self.running_tasks_inc();
        }
        if fx.exited_tasks_inc {
            self.exited_tasks_inc();
        }
        if fx.invalid_pubacks_inc {
            self.invalid_pubacks_inc();
        }
        if fx.timeout_pubacks_inc {
            self.timeout_pubacks_inc();
        }
        if fx.publish_packets_inc {
            self.publish_packets_inc();
        }
        if fx.established_inc {
            self.established_connection_inc();
        }
        if fx.established_dec {
            self.established_connection_decr();
        }
        if fx.ongoing_inc {
            self.ongoing_connection_inc();
        }
        if fx.ongoing_dec {
            self.ongoing_connection_decr();
        }
    }

    /// The labels of a snapshot: `labels`, then `task_name` and `task_status`.
    pub fn export_labels(&self, labels: &Vec<(String, String)>) -> (r: Vec<(String, String)>)
        ensures
            pairs_view(r@).len() == labels@.len() + 2,
            pairs_view(r@).subrange(0, labels@.len() as int) == pairs_view(labels@),
            pairs_view(r@)[labels@.len() as int] == ("task_name"@, self.name()),
            pairs_view(r@)[labels@.len() as int + 1].0 == "task_status"@,
            exists|s: TaskStatus| pairs_view(r@)[labels@.len() as int + 1].1 == status_label(s),
    {
        let mut out = clone_pairs(labels);
        let n = labels.len();
        let status = self.task_status();
        out.push((String::from_str("task_name"), self.task_name.clone()));
        out.push((String::from_str("task_status"), status.to_label()));
        proof {
            let p = pairs_view(out@);
            assert(p.subrange(0, n as int) =~= pairs_view(labels@));
            assert(p[n + 1].1 == status_label(status));
        }
        out
    }

    /// Every counter and gauge with its current value, labelled as
    /// `export_labels` says.
    pub fn update(&self, labels: &Vec<(String, String)>) -> (r: Snapshot)
        ensures
            r.values@.len() == metric_names().len(),
            forall|i: int| 0 <= i < r.values@.len() ==> (#[trigger] r.values@[i]).0@ == metric_names()[i],
            pairs_view(r.labels@).len() == labels@.len() + 2,
            pairs_view(r.labels@).subrange(0, labels@.len() as int) == pairs_view(labels@),
            pairs_view(r.labels@)[labels@.len() as int] == ("task_name"@, self.name()),
            pairs_view(r.labels@)[labels@.len() as int + 1].0 == "task_status"@,
            exists|s: TaskStatus| pairs_view(r.labels@)[labels@.len() as int + 1].1 == status_label(s),
    {
        let new_labels = self.export_labels(labels);
        let mut values: Vec<(String, u64)> = Vec::new();
        values.push((String::from_str("running_tasks"), counter_get(&self.running_tasks) as u64));
        values.push((String::from_str("exited_tasks"), counter_get(&self.exited_tasks) as u64));
        values.push((String::from_str("invalid_pubacks"), counter_get(&self.invalid_pubacks) as u64));
        values.push((String::from_str("timeout_pubacks"), counter_get(&self.timeout_pubacks) as u64));
        values.push((String::from_str("publish_packets"), counter_get(&self.publish_packets) as u64));
        values.push(
            (
                String::from_str("established_connection"),
                self.established_connection.load(Ordering::Relaxed) as u64,
            ),
        );
        values.push(
            (String::from_str("ongoing_connection"), self.ongoing_connection.load(Ordering::Relaxed) as u64),
        );
        Snapshot { labels: new_labels, values }
    }
}

} // verus!

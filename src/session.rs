//! The per-device protocol engine. The session owns no socket: the caller
//! feeds it events (timer ticks, delivered publishes, parsed packets) and
//! carries out the effects each step returns.

use vstd::prelude::*;

verus! {

/// Protocol state of a session.
#[derive(PartialEq, Eq, Structural, Clone, Copy, Debug)]
pub enum StressState {
    Connecting,
    Published,
    Publishing,
}

/// What happened to a session.
#[derive(PartialEq, Eq, Structural, Clone, Copy, Debug)]
pub enum Event {
    /// The cadence timer fired.
    Tick,
    /// A CONNACK arrived; `accepted` tells whether its code accepts the connection.
    Connack { accepted: bool },
    /// A PUBACK arrived.
    Puback,
    /// A PINGRESP arrived.
    Pingresp,
    /// Some other well-formed packet arrived.
    OtherPacket,
    /// Inbound data could not be parsed.
    Malformed,
    /// The connection failed while writing or reading.
    ConnectionLost,
}

/// What the caller must do after a step: counter and gauge updates, whether
/// to hand the session's PUBLISH to the outbound path, which writes it at
/// once, whether to close the connection.
#[derive(PartialEq, Eq, Structural, Clone, Copy, Debug)]
pub struct Effects {
    pub running_tasks_inc: bool,
    pub exited_tasks_inc: bool,
    pub invalid_pubacks_inc: bool,
    pub timeout_pubacks_inc: bool,
    pub publish_packets_inc: bool,
    pub established_inc: bool,
    pub established_dec: bool,
    pub ongoing_inc: bool,
    pub ongoing_dec: bool,
    pub enqueue_publish: bool,
    pub close: bool,
}

/// Progress of one session.
#[derive(PartialEq, Eq, Structural, Clone, Copy, Debug)]
pub struct Session {
    pub state: StressState,
    /// Acknowledged publishes after which the session ends.
    pub budget: u64,
    /// Publishes handed to the outbound path so far.
    pub attempted: u64,
    /// Publishes acknowledged so far.
    pub acked: u64,
    /// The session has ended; later events change nothing.
    pub finished: bool,
}

/// Nothing to do.
pub open spec fn no_effects() -> Effects {
    Effects {
        running_tasks_inc: false,
        exited_tasks_inc: false,
        invalid_pubacks_inc: false,
        timeout_pubacks_inc: false,
        publish_packets_inc: false,
        established_inc: false,
        established_dec: false,
        ongoing_inc: false,
        ongoing_dec: false,
        enqueue_publish: false,
        close: false,
    }
}

impl Effects {
    pub fn none() -> (r: Effects)
        ensures
            r == no_effects(),
    {
        Effects {
            running_tasks_inc: false,
            exited_tasks_inc: false,
            invalid_pubacks_inc: false,
            timeout_pubacks_inc: false,
            publish_packets_inc: false,
            established_inc: false,
            established_dec: false,
            ongoing_inc: false,
            ongoing_dec: false,
            enqueue_publish: false,
            close: false,
        }
    }
}

/// The counters of a session agree with its state, and it never hands out more
/// publishes than its budget.
pub open spec fn session_wf(s: Session) -> bool {
    &&& !s.finished ==> s.attempted == s.acked + (if s.state == StressState::Publishing { 1int } else { 0int })
    &&& s.acked <= s.attempted <= s.budget
    &&& s.acked == s.budget ==> s.finished
}

/// The session as it is right after its connection was opened.
pub open spec fn initial_session(budget: u64) -> (Session, Effects) {
    let s = Session {
        state: StressState::Connecting,
        budget,
        attempted: 0,
        acked: 0,
        finished: budget == 0,
    };
    if budget == 0 {
        (s, Effects { running_tasks_inc: true, exited_tasks_inc: true, close: true, ..no_effects() })
    } else {
        (s, Effects { running_tasks_inc: true, ongoing_inc: true, ..no_effects() })
    }
}

/// Ends the session: close the connection, count the exit, and take back the
/// gauge that the session's state holds.
pub open spec fn fail(s: Session) -> (Session, Effects) {
    (
        Session { finished: true, ..s },
        Effects {
            exited_tasks_inc: true,
            close: true,
            ongoing_dec: s.state == StressState::Connecting,
            established_dec: s.state != StressState::Connecting,
            ..no_effects()
        },
    )
}

/// One step of a session.
pub open spec fn next(s: Session, e: Event) -> (Session, Effects) {
    if s.finished {
        (s, no_effects())
    } else {
        match e {
            Event::Tick => {
                if s.state == StressState::Published {
                    (
                        Session {
                            state: StressState::Publishing,
                            attempted: (s.attempted + 1) as u64,
                            ..s
                        },
                        Effects { enqueue_publish: true, ..no_effects() },
                    )
                } else {
                    (s, Effects { timeout_pubacks_inc: true, ..no_effects() })
                }
            },
            Event::Connack { accepted } => {
                if s.state == StressState::Connecting && accepted {
                    (
                        Session { state: StressState::Published, ..s },
                        Effects { established_inc: true, ongoing_dec: true, ..no_effects() },
                    )
                } else {
                    fail(s)
                }
            },
            Event::Puback => {
                if s.state == StressState::Publishing {
                    let acked = (s.acked + 1) as u64;
                    if acked == s.budget {
                        (
                            Session { state: StressState::Published, acked, finished: true, ..s },
                            Effects {
                                publish_packets_inc: true,
                                exited_tasks_inc: true,
                                established_dec: true,
                                close: true,
                                ..no_effects()
                            },
                        )
                    } else {
                        (
                            Session { state: StressState::Published, acked, ..s },
                            Effects { publish_packets_inc: true, ..no_effects() },
                        )
                    }
                } else {
                    (s, Effects { invalid_pubacks_inc: true, ..no_effects() })
                }
            },
            Event::Pingresp => (s, no_effects()),
            Event::OtherPacket => (s, no_effects()),
            Event::Malformed => fail(s),
            Event::ConnectionLost => fail(s),
        }
    }
}

/// The edges of the protocol state graph: a state may stay as it is,
/// `Connecting` may become `Published`, and `Published` and `Publishing`
/// alternate.
pub open spec fn valid_edge(a: StressState, b: StressState) -> bool {
    ||| a == b
    ||| a == StressState::Connecting && b == StressState::Published
    ||| a == StressState::Published && b == StressState::Publishing
    ||| a == StressState::Publishing && b == StressState::Published
}

/// The session after all of `events`, in order.
pub open spec fn run(s: Session, events: Seq<Event>) -> Session
    decreases events.len(),
{
    if events.len() == 0 {
        s
    } else {
        run(next(s, events[0]).0, events.drop_first())
    }
}

/// The states a session passes through while taking `events`, starting
/// with its present state.
pub open spec fn trace(s: Session, events: Seq<Event>) -> Seq<StressState>
    decreases events.len(),
{
    if events.len() == 0 {
        seq![s.state]
    } else {
        seq![s.state] + trace(next(s, events[0]).0, events.drop_first())
    }
}

/// Gauge share of a session in `ongoing_connection`: one while it waits for
/// its CONNACK.
pub open spec fn ongoing_held(s: Session) -> int {
    if !s.finished && s.state == StressState::Connecting { 1 } else { 0 }
}

/// Gauge share of a session in `established_connection`: one while it runs
/// on an accepted connection.
pub open spec fn established_held(s: Session) -> int {
    if !s.finished && s.state != StressState::Connecting { 1 } else { 0 }
}

/// Net change of a gauge from one increment flag and one decrement flag.
pub open spec fn delta(inc: bool, dec: bool) -> int {
    (if inc { 1int } else { 0int }) - (if dec { 1int } else { 0int })
}

/// A step keeps a session well formed, and never changes its budget.
pub proof fn lemma_step_wf(s: Session, e: Event)
    requires
        session_wf(s),
    ensures
        session_wf(next(s, e).0),
        next(s, e).0.budget == s.budget,
        s.finished ==> next(s, e).0.finished,
{
}

/// Every step follows an edge of the state graph; in particular `Publishing`
/// never goes back to `Connecting`.
pub proof fn lemma_step_edge(s: Session, e: Event)
    requires
        session_wf(s),
    ensures
        valid_edge(s.state, next(s, e).0.state),
        !(s.state == StressState::Publishing && next(s, e).0.state == StressState::Connecting),
{
}

/// Whatever the events, the states a session passes through form a path
/// in the state graph {Connecting, Published, Publishing}.
pub proof fn lemma_state_path(s: Session, events: Seq<Event>)
    requires
        session_wf(s),
    ensures
        trace(s, events).len() == events.len() + 1,
        trace(s, events)[0] == s.state,
        forall|i: int|
            0 <= i < events.len() ==> valid_edge(
                #[trigger] trace(s, events)[i],
                trace(s, events)[i + 1],
            ),
    decreases events.len(),
{
    if events.len() > 0 {
        let s1 = next(s, events[0]).0;
        let rest = events.drop_first();
        lemma_step_wf(s, events[0]);
        lemma_step_edge(s, events[0]);
        lemma_state_path(s1, rest);
        let t = trace(s, events);
        let t1 = trace(s1, rest);
        assert(t == seq![s.state] + t1);
        assert forall|i: int| 0 <= i < events.len() implies valid_edge(
            #[trigger] t[i],
            t[i + 1],
        ) by {
            if i > 0 {
                assert(t[i] == t1[i - 1]);
                assert(t[i + 1] == t1[i]);
            }
        }
    }
}

/// `publish_packets` grows by one exactly on a PUBACK that arrives while
/// `Publishing`; `invalid_pubacks` grows by one exactly on a PUBACK that
/// arrives in any other state. Both grow by at most one per event.
pub proof fn lemma_puback_counting(s: Session, e: Event)
    requires
        session_wf(s),
        !s.finished,
    ensures
        next(s, e).1.publish_packets_inc <==> (e == Event::Puback && s.state
            == StressState::Publishing),
        next(s, e).1.invalid_pubacks_inc <==> (e == Event::Puback && s.state
            != StressState::Publishing),
        next(s, e).1.publish_packets_inc ==> next(s, e).0.acked == s.acked + 1,
        !next(s, e).1.publish_packets_inc ==> next(s, e).0.acked == s.acked,
{
}

/// Number of steps of a run whose effects satisfy `f`.
pub open spec fn count_effects(s: Session, events: Seq<Event>, f: spec_fn(Effects) -> bool) -> nat
    decreases events.len(),
{
    if events.len() == 0 {
        0
    } else {
        (if f(next(s, events[0]).1) { 1nat } else { 0nat }) + count_effects(
            next(s, events[0]).0,
            events.drop_first(),
            f,
        )
    }
}

/// Number of PUBACKs a live session receives during a run while in a state
/// that satisfies `p`.
pub open spec fn count_pubacks(s: Session, events: Seq<Event>, p: spec_fn(StressState) -> bool) -> nat
    decreases events.len(),
{
    if events.len() == 0 {
        0
    } else {
        (if !s.finished && events[0] == Event::Puback && p(s.state) { 1nat } else { 0nat })
            + count_pubacks(next(s, events[0]).0, events.drop_first(), p)
    }
}

/// Over any run, `publish_packets` is incremented exactly as many times as a
/// PUBACK arrives while `Publishing`, and `invalid_pubacks` exactly as many
/// times as one arrives in another state.
pub proof fn lemma_puback_counting_run(s: Session, events: Seq<Event>)
    requires
        session_wf(s),
    ensures
        count_effects(s, events, |fx: Effects| fx.publish_packets_inc) == count_pubacks(
            s,
            events,
            |st: StressState| st == StressState::Publishing,
        ),
        count_effects(s, events, |fx: Effects| fx.invalid_pubacks_inc) == count_pubacks(
            s,
            events,
            |st: StressState| st != StressState::Publishing,
        ),
    decreases events.len(),
{
    if events.len() > 0 {
        lemma_step_wf(s, events[0]);
        if !s.finished {
            lemma_puback_counting(s, events[0]);
        }
        lemma_puback_counting_run(next(s, events[0]).0, events.drop_first());
    }
}


/// A cadence tick hands out a PUBLISH exactly when it finds the session
/// `Published`, and counts a timeout exactly when it does not; at most one
/// publish is ever unacknowledged.
pub proof fn lemma_tick_cadence(s: Session)
    requires
        session_wf(s),
        !s.finished,
    ensures
        next(s, Event::Tick).1.enqueue_publish <==> s.state == StressState::Published,
        next(s, Event::Tick).1.timeout_pubacks_inc <==> s.state != StressState::Published,
        next(s, Event::Tick).1.enqueue_publish ==> next(s, Event::Tick).0.state
            == StressState::Publishing,
        s.attempted - s.acked <= 1,
        next(s, Event::Tick).0.attempted - next(s, Event::Tick).0.acked <= 1,
{
}

/// A session never hands out more publishes than its budget, whatever it is fed.
pub proof fn lemma_run_within_budget(s: Session, events: Seq<Event>)
    requires
        session_wf(s),
    ensures
        session_wf(run(s, events)),
        run(s, events).budget == s.budget,
        run(s, events).attempted <= s.budget,
    decreases events.len(),
{
    if events.len() > 0 {
        lemma_step_wf(s, events[0]);
        lemma_run_within_budget(next(s, events[0]).0, events.drop_first());
    }
}

/// Once a session has as many acknowledged publishes as its budget it has
/// ended, and no later event makes it publish again or change at all.
pub proof fn lemma_no_publish_after_budget(s: Session, events: Seq<Event>)
    requires
        session_wf(s),
        s.acked == s.budget,
    ensures
        s.finished,
        run(s, events) == s,
        forall|i: int| 0 <= i < events.len() ==> !(#[trigger] next(s, events[i])).1.enqueue_publish,
    decreases events.len(),
{
    if events.len() > 0 {
        lemma_no_publish_after_budget(s, events.drop_first());
    }
}

/// A session counts its exit, and closes its connection, in exactly the step
/// in which it ends; an ended session stays ended.
pub proof fn lemma_exit_once(s: Session, e: Event)
    requires
        session_wf(s),
    ensures
        next(s, e).1.exited_tasks_inc <==> (!s.finished && next(s, e).0.finished),
        next(s, e).1.close <==> next(s, e).1.exited_tasks_inc,
        s.finished ==> next(s, e).0.finished,
{
}

/// Each step changes the two connection gauges by exactly the change in the
/// share the session holds in them, so a gauge is only decremented for a
/// prior increment and never goes below zero on account of a session.
pub proof fn lemma_gauge_balance(s: Session, e: Event)
    requires
        session_wf(s),
    ensures
        ongoing_held(next(s, e).0) - ongoing_held(s) == delta(
            next(s, e).1.ongoing_inc,
            next(s, e).1.ongoing_dec,
        ),
        established_held(next(s, e).0) - established_held(s) == delta(
            next(s, e).1.established_inc,
            next(s, e).1.established_dec,
        ),
{
}

/// A new session holds in each gauge exactly what its start added.
pub proof fn lemma_start_balance(budget: u64)
    ensures
        ongoing_held(initial_session(budget).0) == delta(
            initial_session(budget).1.ongoing_inc,
            initial_session(budget).1.ongoing_dec,
        ),
        established_held(initial_session(budget).0) == 0,
        initial_session(budget).1.exited_tasks_inc <==> initial_session(budget).0.finished,
{
}

impl Session {
    /// A session with `budget` acknowledged publishes to go, once its
    /// connection is open. With a zero budget it ends at once.
    pub fn start(budget: u64) -> (r: (Session, Effects))
        ensures
            r == initial_session(budget),
            session_wf(r.0),
    {
        let s = Session {
            state: StressState::Connecting,
            budget,
            attempted: 0,
            acked: 0,
            finished: budget == 0,
        };
        let mut fx = Effects::none();
        fx.running_tasks_inc = true;
        if budget == 0 {
            fx.exited_tasks_inc = true;
            fx.close = true;
        } else {
            fx.ongoing_inc = true;
        }
        (s, fx)
    }

    fn fail(&mut self) -> (r: Effects)
        requires
            session_wf(*old(self)),
            !old(self).finished,
        ensures
            (*final(self), r) == fail(*old(self)),
    {
        let mut fx = Effects::none();
        fx.exited_tasks_inc = true;
        fx.close = true;
        if self.state == StressState::Connecting {
            fx.ongoing_dec = true;
        } else {
            fx.established_dec = true;
        }
        self.finished = true;
        fx
    }

    /// Applies `e` and returns what the caller must do.
    pub fn step(&mut self, e: Event) -> (r: Effects)
        requires
            session_wf(*old(self)),
        ensures
            (*final(self), r) == next(*old(self), e),
            session_wf(*final(self)),
    {
        if self.finished {
            return Effects::none();
        }
        let mut fx = Effects::none();
        match e {
            Event::Tick => {
                if self.state == StressState::Published {
                    self.state = StressState::Publishing;
                    self.attempted = self.attempted + 1;
                    fx.enqueue_publish = true;
                } else {
                    fx.timeout_pubacks_inc = true;
                }
            },
            Event::Connack { accepted } => {
                if self.state == StressState::Connecting && accepted {
                    self.state = StressState::Published;
                    fx.established_inc = true;
                    fx.ongoing_dec = true;
                } else {
                    fx = self.fail();
                }
            },
            Event::Puback => {
                if self.state == StressState::Publishing {
                    self.acked = self.acked + 1;
                    self.state = StressState::Published;
                    fx.publish_packets_inc = true;
                    if self.acked == self.budget {
                        self.finished = true;
                        fx.exited_tasks_inc = true;
                        fx.established_dec = true;
                        fx.close = true;
                    }
                } else {
                    fx.invalid_pubacks_inc = true;
                }
            },
            Event::Pingresp => {},
            Event::OtherPacket => {},
            Event::Malformed => {
                fx = self.fail();
            },
            Event::ConnectionLost => {
                fx = self.fail();
            },
        }
        fx
    }
}

} // verus!

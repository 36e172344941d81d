//! The connection loop as a state machine: from its state and an event to its
//! next state and the action to perform. The caller performs the actions
//! (sleeping, fetching and parsing the URL, connecting, running a session) and
//! reports what came of them as the next event.
use vstd::prelude::*;
use crate::endpoint::{AttemptError, ConnectPlan};
use crate::timings::{
    ClientTimings, PreviousAttempt, elapsed_nanos, reconnect_delay, spec_elapsed_nanos,
    spec_reconnect_delay,
};

verus! {

/// Where the connection loop stands.
#[derive(PartialEq, Eq, Structural, Clone, Copy, Debug)]
pub enum LoopPhase {
    /// At the top of the loop: the next event says whether the client still works.
    Idle,
    /// Waiting for the URL to be fetched, parsed and planned.
    Preparing,
    /// Waiting for the connection and handshake to finish.
    Connecting,
    /// A connection established at `since` (microseconds) is in use.
    Connected { since: i64 },
    /// The client was stopped; the loop is over.
    Stopped,
}

/// What happened since the last action.
pub enum LoopEvent {
    /// The loop is at its top; `working` is whether the client has not been stopped.
    Poll { working: bool },
    /// The URL was fetched and an attempt planned from it, or refused.
    Planned(Result<ConnectPlan, AttemptError>),
    /// Connecting finished: at the given time (microseconds) or, with `None`, in failure.
    ConnectFinished { connected_at: Option<i64> },
    /// The session on the established connection ended at `now` (microseconds).
    SessionEnded { now: i64 },
}

/// What the caller is to do next.
pub enum LoopAction {
    /// Leave the loop.
    Stop,
    /// Wait `delay_nanos`, then fetch the URL and plan an attempt.
    Prepare { delay_nanos: u128 },
    /// Connect as `plan` says; the connection gets `connection_id`.
    Connect { connection_id: i64, plan: ConnectPlan },
    /// Report the failed attempt and go back to the top of the loop.
    RetryLater { error: AttemptError },
    /// Announce the connection and run its session until it ends; with
    /// `ping`, run the heartbeat loop beside it.
    StartSession { connection_id: i64, ping: bool },
    /// Announce that the connection is gone and go back to the top of the loop.
    SessionClosed { connection_id: i64 },
    /// The event does not fit where the loop stands; nothing changes.
    Ignore,
}

/// The state of the connection loop.
pub struct ConnectionLoop {
    /// The client's timeouts.
    pub timings: ClientTimings,
    /// Where the loop stands.
    pub phase: LoopPhase,
    /// How the previous attempt ended.
    pub previous: PreviousAttempt,
    /// The id of the latest connection attempt; 0 before the first one.
    pub connection_id: i64,
    /// Whether a heartbeat message was given, so that every session pings.
    pub ping_enabled: bool,
}

impl ConnectionLoop {
    /// A loop that has not made any attempt yet.
    pub open spec fn spec_new(timings: ClientTimings, ping_enabled: bool) -> ConnectionLoop {
        ConnectionLoop {
            timings,
            phase: LoopPhase::Idle,
            previous: PreviousAttempt::NoneYet,
            connection_id: 0,
            ping_enabled,
        }
    }

    /// Creates a loop that has not made any attempt yet; `ping_enabled` says
    /// whether a heartbeat message was given.
    pub fn new(timings: ClientTimings, ping_enabled: bool) -> (res: Self)
        ensures
            res == Self::spec_new(timings, ping_enabled),
    {
        ConnectionLoop {
            timings,
            phase: LoopPhase::Idle,
            previous: PreviousAttempt::NoneYet,
            connection_id: 0,
            ping_enabled,
        }
    }

    /// The event can be handled: a planned attempt needs a fresh connection id.
    pub open spec fn can_step(self, event: LoopEvent) -> bool {
        (self.phase == LoopPhase::Preparing && event matches LoopEvent::Planned(Ok(_)))
            ==> self.connection_id < i64::MAX
    }

    /// The next state and the action, for a state and an event.
    pub open spec fn spec_step(self, event: LoopEvent) -> (ConnectionLoop, LoopAction) {
        match self.phase {
            LoopPhase::Stopped => (self, LoopAction::Stop),
            LoopPhase::Idle => match event {
                LoopEvent::Poll { working } => {
                    if working {
                        (
                            ConnectionLoop { phase: LoopPhase::Preparing, ..self },
                            LoopAction::Prepare {
                                delay_nanos: spec_reconnect_delay(self.previous, self.timings),
                            },
                        )
                    } else {
                        (ConnectionLoop { phase: LoopPhase::Stopped, ..self }, LoopAction::Stop)
                    }
                },
                _ => (self, LoopAction::Ignore),
            },
            LoopPhase::Preparing => match event {
                LoopEvent::Planned(Err(error)) => (
                    ConnectionLoop {
                        phase: LoopPhase::Idle,
                        previous: PreviousAttempt::Failed,
                        ..self
                    },
                    LoopAction::RetryLater { error },
                ),
                LoopEvent::Planned(Ok(plan)) => (
                    ConnectionLoop {
                        phase: LoopPhase::Connecting,
                        connection_id: (self.connection_id + 1) as i64,
                        ..self
                    },
                    LoopAction::Connect { connection_id: (self.connection_id + 1) as i64, plan },
                ),
                _ => (self, LoopAction::Ignore),
            },
            LoopPhase::Connecting => match event {
                LoopEvent::ConnectFinished { connected_at } => match connected_at {
                    None => (
                        ConnectionLoop {
                            phase: LoopPhase::Idle,
                            previous: PreviousAttempt::Failed,
                            ..self
                        },
                        LoopAction::RetryLater { error: AttemptError::ConnectFailed },
                    ),
                    Some(at) => (
                        ConnectionLoop { phase: LoopPhase::Connected { since: at }, ..self },
                        LoopAction::StartSession { connection_id: self.connection_id, ping: self.ping_enabled },
                    ),
                },
                _ => (self, LoopAction::Ignore),
            },
            LoopPhase::Connected { since } => match event {
                LoopEvent::SessionEnded { now } => (
                    ConnectionLoop {
                        phase: LoopPhase::Idle,
                        previous: PreviousAttempt::Disconnected {
                            lived_nanos: spec_elapsed_nanos(since, now),
                        },
                        ..self
                    },
                    LoopAction::SessionClosed { connection_id: self.connection_id },
                ),
                _ => (self, LoopAction::Ignore),
            },
        }
    }

    /// Handles an event: moves to the next state and returns the action to perform.
    pub fn step(&mut self, event: LoopEvent) -> (res: LoopAction)
        requires
            old(self).can_step(event),
        ensures
            (*final(self), res) == old(self).spec_step(event),
    {
        match self.phase {
            LoopPhase::Stopped => LoopAction::Stop,
            LoopPhase::Idle => match event {
                LoopEvent::Poll { working } => {
                    if working {
                        self.phase = LoopPhase::Preparing;
                        LoopAction::Prepare {
                            delay_nanos: reconnect_delay(self.previous, &self.timings),
                        }
                    } else {
                        self.phase = LoopPhase::Stopped;
                        LoopAction::Stop
                    }
                },
                _ => LoopAction::Ignore,
            },
            LoopPhase::Preparing => match event {
                LoopEvent::Planned(Err(error)) => {
                    self.phase = LoopPhase::Idle;
                    self.previous = PreviousAttempt::Failed;
                    LoopAction::RetryLater { error }
                },
                LoopEvent::Planned(Ok(plan)) => {
                    self.phase = LoopPhase::Connecting;
                    self.connection_id = self.connection_id + 1;
                    LoopAction::Connect { connection_id: self.connection_id, plan }
                },
                _ => LoopAction::Ignore,
            },
            LoopPhase::Connecting => match event {
                LoopEvent::ConnectFinished { connected_at } => match connected_at {
                    None => {
                        self.phase = LoopPhase::Idle;
                        self.previous = PreviousAttempt::Failed;
                        LoopAction::RetryLater { error: AttemptError::ConnectFailed }
                    },
                    Some(at) => {
                        self.phase = LoopPhase::Connected { since: at };
                        LoopAction::StartSession { connection_id: self.connection_id, ping: self.ping_enabled }
                    },
                },
                _ => LoopAction::Ignore,
            },
            LoopPhase::Connected { since } => match event {
                LoopEvent::SessionEnded { now } => {
                    self.phase = LoopPhase::Idle;
                    self.previous = PreviousAttempt::Disconnected {
                        lived_nanos: elapsed_nanos(since, now),
                    };
                    LoopAction::SessionClosed { connection_id: self.connection_id }
                },
                _ => LoopAction::Ignore,
            },
        }
    }
}

/// The first connection attempt after start is made at once: a fresh loop that
/// is told the client works asks to prepare an attempt with no delay.
pub proof fn law_first_attempt_is_immediate(timings: ClientTimings, ping_enabled: bool)
    ensures
        ConnectionLoop::spec_new(timings, ping_enabled).spec_step(LoopEvent::Poll { working: true }).1
            == (LoopAction::Prepare { delay_nanos: 0 }),
{
}

/// Every failed attempt (a URL that does not parse, lacks a scheme or names a
/// Unix socket, or a failed connect or handshake) is reported, and the next
/// attempt waits exactly `reconnect_timeout`.
pub proof fn law_failed_attempt_waits_reconnect_timeout(s: ConnectionLoop, event: LoopEvent)
    requires
        (s.phase == LoopPhase::Preparing && event matches LoopEvent::Planned(Err(_)))
            || (s.phase == LoopPhase::Connecting && event == (LoopEvent::ConnectFinished {
                connected_at: None,
            })),
    ensures
        s.spec_step(event).1 is RetryLater,
        s.spec_step(event).0.spec_step(LoopEvent::Poll { working: true }).1
            == (LoopAction::Prepare { delay_nanos: s.timings.reconnect_timeout }),
{
}

/// When an established connection drops, the next attempt is made at once if
/// the connection lived at least `reconnect_delay_skip_threshold`, and after
/// `reconnect_timeout` otherwise.
pub proof fn law_dropped_connection_delay(s: ConnectionLoop, since: i64, now: i64)
    requires
        s.phase == (LoopPhase::Connected { since }),
    ensures
        s.spec_step(LoopEvent::SessionEnded { now }).1
            == (LoopAction::SessionClosed { connection_id: s.connection_id }),
        s.spec_step(LoopEvent::SessionEnded { now }).0.spec_step(
            LoopEvent::Poll { working: true },
        ).1 == (LoopAction::Prepare {
            delay_nanos: if spec_elapsed_nanos(since, now) >= s.timings.reconnect_delay_skip_threshold {
                0
            } else {
                s.timings.reconnect_timeout
            },
        }),
{
}

/// A stopped client leaves the loop at its next top, and once stopped the loop
/// stays stopped whatever happens.
pub proof fn law_stop_is_final(s: ConnectionLoop, event: LoopEvent)
    ensures
        s.phase == LoopPhase::Idle ==> s.spec_step(LoopEvent::Poll { working: false }) == (
        ConnectionLoop { phase: LoopPhase::Stopped, ..s }, LoopAction::Stop),
        s.phase == LoopPhase::Stopped ==> s.spec_step(event) == (s, LoopAction::Stop),
{
}

/// Every attempt gets a new connection id, one more than the previous one;
/// the session runs under the id of its attempt; ids never decrease, and the
/// timings never change.
pub proof fn law_connection_ids(s: ConnectionLoop, event: LoopEvent)
    requires
        s.can_step(event),
    ensures
        s.spec_step(event).0.timings == s.timings,
        s.spec_step(event).0.connection_id == s.connection_id || s.spec_step(event).0.connection_id
            == s.connection_id + 1,
        s.spec_step(event).1 matches LoopAction::Connect { connection_id, .. } ==> connection_id
            == s.connection_id + 1 && s.spec_step(event).0.connection_id == connection_id,
        s.spec_step(event).1 matches LoopAction::StartSession { connection_id, ping } ==> connection_id
            == s.connection_id && ping == s.ping_enabled,
        s.spec_step(event).0.ping_enabled == s.ping_enabled,
{
}

/// An attempt is only ever made right after the client was seen working: a
/// `Connect` action comes only from the phase that a working `Poll` enters.
pub proof fn law_connect_follows_working_poll(s: ConnectionLoop, event: LoopEvent)
    ensures
        s.spec_step(event).1 is Connect ==> s.phase == LoopPhase::Preparing,
        s.spec_step(event).0.phase == LoopPhase::Preparing ==> (s.phase == LoopPhase::Preparing
            || (s.phase == LoopPhase::Idle && event == (LoopEvent::Poll { working: true }))),
{
}

/// The heartbeat runs beside every session exactly when a heartbeat message
/// was given when the loop was made.
pub proof fn law_every_session_pings_iff_enabled(timings: ClientTimings, ping_enabled: bool, events: Seq<LoopEvent>)
    requires
        can_run(ConnectionLoop::spec_new(timings, ping_enabled), events),
    ensures
        forall|i: int|
            0 <= i < spec_run(ConnectionLoop::spec_new(timings, ping_enabled), events).1.len()
                ==> (#[trigger] spec_run(ConnectionLoop::spec_new(timings, ping_enabled), events).1[i]
                matches LoopAction::StartSession { ping, .. } ==> ping == ping_enabled),
{
    lemma_run_keeps_ping(ConnectionLoop::spec_new(timings, ping_enabled), events);
}

/// Over a run, every session is started with the loop's own ping setting.
pub proof fn lemma_run_keeps_ping(s: ConnectionLoop, events: Seq<LoopEvent>)
    requires
        can_run(s, events),
    ensures
        forall|i: int|
            0 <= i < spec_run(s, events).1.len() ==> (#[trigger] spec_run(s, events).1[i]
                matches LoopAction::StartSession { ping, .. } ==> ping == s.ping_enabled),
    decreases events.len(),
{
    if events.len() > 0 {
        let (next, action) = s.spec_step(events[0]);
        law_connection_ids(s, events[0]);
        lemma_run_keeps_ping(next, events.drop_first());
        let actions = spec_run(next, events.drop_first()).1;
        assert forall|i: int| 0 <= i < spec_run(s, events).1.len() implies (#[trigger] spec_run(s, events).1[i]
            matches LoopAction::StartSession { ping, .. } ==> ping == s.ping_enabled) by {
            if i > 0 {
                assert(spec_run(s, events).1[i] == actions[i - 1]);
            }
        }
    }
}

/// Runs the loop through a sequence of events: the final state and the actions,
/// in order.
pub open spec fn spec_run(s: ConnectionLoop, events: Seq<LoopEvent>) -> (ConnectionLoop, Seq<LoopAction>)
    decreases events.len(),
{
    if events.len() == 0 {
        (s, Seq::empty())
    } else {
        let (next, action) = s.spec_step(events[0]);
        let (last, actions) = spec_run(next, events.drop_first());
        (last, seq![action] + actions)
    }
}

/// Every event of the sequence can be handled where it arrives.
pub open spec fn can_run(s: ConnectionLoop, events: Seq<LoopEvent>) -> bool
    decreases events.len(),
{
    events.len() == 0 || (s.can_step(events[0]) && can_run(s.spec_step(events[0]).0, events.drop_first()))
}

/// The number of connection attempts among the actions.
pub open spec fn count_connects(actions: Seq<LoopAction>) -> nat
    decreases actions.len(),
{
    if actions.len() == 0 {
        0
    } else {
        (if actions[0] is Connect { 1nat } else { 0nat }) + count_connects(actions.drop_first())
    }
}

/// Over any run of the loop, the connection id grows by exactly the number of
/// attempts made, so the attempts are numbered one after the other and no two
/// share an id; the timings stay as they were.
pub proof fn law_ids_count_attempts(s: ConnectionLoop, events: Seq<LoopEvent>)
    requires
        can_run(s, events),
    ensures
        spec_run(s, events).0.connection_id == s.connection_id + count_connects(spec_run(s, events).1),
        spec_run(s, events).0.timings == s.timings,
    decreases events.len(),
{
    if events.len() > 0 {
        let (next, action) = s.spec_step(events[0]);
        law_connection_ids(s, events[0]);
        law_ids_count_attempts(next, events.drop_first());
        let actions = spec_run(next, events.drop_first()).1;
        assert((seq![action] + actions).drop_first() =~= actions);
        assert((seq![action] + actions)[0] == action);
        if action is Connect {
            assert(s.spec_step(events[0]).0.connection_id == s.connection_id + 1);
        } else {
            assert(s.spec_step(events[0]).0.connection_id == s.connection_id) by {
                match s.phase {
                    LoopPhase::Preparing => {
                        assert(!(events[0] matches LoopEvent::Planned(Ok(_))));
                    },
                    _ => {},
                }
            }
        }
    }
}

/// No attempt ever waits longer than `reconnect_timeout`.
pub proof fn law_delay_is_bounded(s: ConnectionLoop, event: LoopEvent)
    ensures
        s.spec_step(event).1 matches LoopAction::Prepare { delay_nanos } ==> delay_nanos == 0
            || delay_nanos == s.timings.reconnect_timeout,
{
}

/// A fresh loop holds exactly what it was made with: the given timings and
/// ping setting, at the top of the loop, with no attempt made and id 0.
pub proof fn law_new_loop_holds_its_inputs(timings: ClientTimings, ping_enabled: bool)
    ensures
        ConnectionLoop::spec_new(timings, ping_enabled).timings == timings,
        ConnectionLoop::spec_new(timings, ping_enabled).ping_enabled == ping_enabled,
        ConnectionLoop::spec_new(timings, ping_enabled).phase == LoopPhase::Idle,
        ConnectionLoop::spec_new(timings, ping_enabled).previous == PreviousAttempt::NoneYet,
        ConnectionLoop::spec_new(timings, ping_enabled).connection_id == 0,
{
}

/// A planned attempt is passed on unchanged: the `Connect` action carries the
/// very plan it was given (its transport, target and headers) under the next
/// connection id, and the loop waits for the connect.
pub proof fn law_connect_carries_the_plan(s: ConnectionLoop, plan: ConnectPlan)
    requires
        s.phase == LoopPhase::Preparing,
        s.connection_id < i64::MAX,
    ensures
        s.spec_step(LoopEvent::Planned(Ok(plan))).1 == (LoopAction::Connect {
            connection_id: (s.connection_id + 1) as i64,
            plan,
        }),
        s.spec_step(LoopEvent::Planned(Ok(plan))).0 == (ConnectionLoop {
            phase: LoopPhase::Connecting,
            connection_id: (s.connection_id + 1) as i64,
            ..s
        }),
{
}

/// A refused plan is reported with its own reason.
pub proof fn law_refused_plan_keeps_its_reason(s: ConnectionLoop, error: AttemptError)
    requires
        s.phase == LoopPhase::Preparing,
    ensures
        s.spec_step(LoopEvent::Planned(Err(error))).1 == (LoopAction::RetryLater { error }),
        s.spec_step(LoopEvent::Planned(Err(error))).0.previous == PreviousAttempt::Failed,
        s.spec_step(LoopEvent::Planned(Err(error))).0.phase == LoopPhase::Idle,
{
}

/// A successful connect starts a session under the attempt's id, with the
/// loop's ping setting, remembering when the connection was made.
pub proof fn law_connected_starts_session(s: ConnectionLoop, at: i64)
    requires
        s.phase == LoopPhase::Connecting,
    ensures
        s.spec_step(LoopEvent::ConnectFinished { connected_at: Some(at) }).1 == (LoopAction::StartSession {
            connection_id: s.connection_id,
            ping: s.ping_enabled,
        }),
        s.spec_step(LoopEvent::ConnectFinished { connected_at: Some(at) }).0.phase == (LoopPhase::Connected {
            since: at,
        }),
{
}

/// The configured threshold decides after a whole session of a fresh loop:
/// a connection made at `since` and dropped at `now` is followed by an
/// attempt at once when it lived (in nanoseconds, never less than zero) at
/// least the given `reconnect_delay_skip_threshold`, and after the given
/// `reconnect_timeout` otherwise.
pub proof fn law_session_of_fresh_loop_uses_given_threshold(
    timings: ClientTimings,
    ping_enabled: bool,
    plan: ConnectPlan,
    since: i64,
    now: i64,
)
    ensures
        ({
            let s0 = ConnectionLoop::spec_new(timings, ping_enabled);
            let s1 = s0.spec_step(LoopEvent::Poll { working: true }).0;
            let s2 = s1.spec_step(LoopEvent::Planned(Ok(plan))).0;
            let s3 = s2.spec_step(LoopEvent::ConnectFinished { connected_at: Some(since) }).0;
            let s4 = s3.spec_step(LoopEvent::SessionEnded { now }).0;
            let lived: int = if now > since { 1000 * (now - since) } else { 0 };
            s4.spec_step(LoopEvent::Poll { working: true }).1 == (LoopAction::Prepare {
                delay_nanos: if lived >= timings.reconnect_delay_skip_threshold {
                    0
                } else {
                    timings.reconnect_timeout
                },
            })
        }),
{
}

/// A failed connect is reported as such and leaves the loop at its top with a
/// failed attempt behind it.
pub proof fn law_failed_connect_is_reported(s: ConnectionLoop)
    requires
        s.phase == LoopPhase::Connecting,
    ensures
        s.spec_step(LoopEvent::ConnectFinished { connected_at: None }) == (
        ConnectionLoop { phase: LoopPhase::Idle, previous: PreviousAttempt::Failed, ..s },
        LoopAction::RetryLater { error: AttemptError::ConnectFailed }),
{
}

/// An event that does not fit where the loop stands changes nothing and is
/// ignored (a stopped loop answers `Stop` to everything).
pub proof fn law_mismatched_events_are_ignored(s: ConnectionLoop, event: LoopEvent)
    requires
        s.phase != LoopPhase::Stopped,
        s.phase == LoopPhase::Idle ==> !(event is Poll),
        s.phase == LoopPhase::Preparing ==> !(event is Planned),
        s.phase == LoopPhase::Connecting ==> !(event is ConnectFinished),
        s.phase is Connected ==> !(event is SessionEnded),
    ensures
        s.spec_step(event) == (s, LoopAction::Ignore),
{
}

} // verus!

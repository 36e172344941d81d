//! The decisions of the ping loop, which sends the heartbeat message and drops
//! a connection from which nothing was read for too long.
use vstd::prelude::*;
use crate::timings::{ClientTimings, elapsed_nanos, spec_elapsed_nanos};

verus! {

/// What happened since the ping loop's last action.
#[derive(PartialEq, Eq, Structural, Clone, Copy, Debug)]
pub enum PingEvent {
    /// The loop is at its top: whether the connection is still usable.
    Check { connected: bool },
    /// The loop woke up at `now`; a frame was last read at `last_read_time`
    /// (both in microseconds).
    Woke { now: i64, last_read_time: i64 },
}

/// What the ping loop is to do next.
#[derive(PartialEq, Eq, Structural, Clone, Copy, Debug)]
pub enum PingAction {
    /// Sleep this many nanoseconds.
    Sleep { nanos: u128 },
    /// Send the heartbeat message, then go back to the top of the loop.
    SendPing,
    /// Leave the loop, disconnecting the transport and the connection.
    Finish,
}

/// The ping loop's next action after an event.
pub open spec fn spec_ping_step(timings: ClientTimings, event: PingEvent) -> PingAction {
    match event {
        PingEvent::Check { connected } => {
            if connected {
                PingAction::Sleep { nanos: timings.ping_interval }
            } else {
                PingAction::Finish
            }
        },
        PingEvent::Woke { now, last_read_time } => {
            if spec_elapsed_nanos(last_read_time, now) > timings.disconnect_timeout {
                PingAction::Finish
            } else {
                PingAction::SendPing
            }
        },
    }
}

/// The ping loop's next action after an event: on a usable connection it
/// sleeps the ping interval; on waking it drops the connection when more than
/// the disconnect timeout passed since the last read, and pings otherwise.
pub fn ping_step(timings: &ClientTimings, event: PingEvent) -> (res: PingAction)
    ensures
        res == spec_ping_step(*timings, event),
{
    match event {
        PingEvent::Check { connected } => {
            if connected {
                PingAction::Sleep { nanos: timings.ping_interval }
            } else {
                PingAction::Finish
            }
        },
        PingEvent::Woke { now, last_read_time } => {
            if elapsed_nanos(last_read_time, now) > timings.disconnect_timeout {
                PingAction::Finish
            } else {
                PingAction::SendPing
            }
        },
    }
}

/// A connection from which no frame (pongs included) was read for longer than
/// the disconnect timeout is dropped, and one read from more recently is
/// pinged; a read "in the future" (clock going back) counts as just now.
pub proof fn law_silent_connection_is_dropped(timings: ClientTimings, now: i64, last_read_time: i64)
    ensures
        (spec_ping_step(timings, PingEvent::Woke { now, last_read_time }) == PingAction::Finish) <==> (
        1000 * (now - last_read_time) > timings.disconnect_timeout),
        now <= last_read_time ==> spec_ping_step(timings, PingEvent::Woke { now, last_read_time })
            == PingAction::SendPing,
{
}

/// On a usable connection the ping loop sleeps exactly the configured ping
/// interval; on a connection that is gone it finishes.
pub proof fn law_ping_sleeps_the_interval(timings: ClientTimings)
    ensures
        spec_ping_step(timings, PingEvent::Check { connected: true }) == (PingAction::Sleep {
            nanos: timings.ping_interval,
        }),
        spec_ping_step(timings, PingEvent::Check { connected: false }) == PingAction::Finish,
{
}

} // verus!

//! The client's timeouts and the delay it waits before each connection attempt.
use vstd::prelude::*;

verus! {

/// The timeouts of a client, each in nanoseconds (a `Duration` converts to
/// and from this without loss).
pub struct ClientTimings {
    /// Wait after a failed attempt, or after a short-lived connection, before reconnecting.
    pub reconnect_timeout: u128,
    /// How often the heartbeat message is sent.
    pub ping_interval: u128,
    /// A connection from which nothing was read for longer than this is dropped.
    pub disconnect_timeout: u128,
    /// The longest a send may take.
    pub send_timeout: u128,
    /// A connection that lived at least this long is reconnected without delay.
    pub reconnect_delay_skip_threshold: u128,
}

impl Clone for ClientTimings {
    fn clone(&self) -> (res: Self)
        ensures
            res == *self,
    {
        ClientTimings { ..*self }
    }
}

impl Copy for ClientTimings {
}

impl ClientTimings {
    /// The defaults: 3 s reconnect timeout, 3 s ping interval, 9 s disconnect
    /// timeout, 30 s send timeout, 10 s reconnect-delay skip threshold.
    pub open spec fn spec_default() -> ClientTimings {
        ClientTimings {
            reconnect_timeout: 3_000_000_000,
            ping_interval: 3_000_000_000,
            disconnect_timeout: 9_000_000_000,
            send_timeout: 30_000_000_000,
            reconnect_delay_skip_threshold: 10_000_000_000,
        }
    }

    /// The timings a client starts with.
    pub fn new() -> (res: Self)
        ensures
            res == Self::spec_default(),
    {
        ClientTimings {
            reconnect_timeout: 3_000_000_000,
            ping_interval: 3_000_000_000,
            disconnect_timeout: 9_000_000_000,
            send_timeout: 30_000_000_000,
            reconnect_delay_skip_threshold: 10_000_000_000,
        }
    }

    /// Sets the wait after a failed attempt or a short-lived connection.
    pub fn with_reconnect_timeout(self, nanos: u128) -> (res: Self)
        ensures
            res == (ClientTimings { reconnect_timeout: nanos, ..self }),
    {
        ClientTimings { reconnect_timeout: nanos, ..self }
    }

    /// Sets how often the heartbeat message is sent.
    pub fn with_ping_interval(self, nanos: u128) -> (res: Self)
        ensures
            res == (ClientTimings { ping_interval: nanos, ..self }),
    {
        ClientTimings { ping_interval: nanos, ..self }
    }

    /// Sets how long a connection may stay silent before it is dropped.
    pub fn with_disconnect_timeout(self, nanos: u128) -> (res: Self)
        ensures
            res == (ClientTimings { disconnect_timeout: nanos, ..self }),
    {
        ClientTimings { disconnect_timeout: nanos, ..self }
    }

    /// Sets the longest a send may take.
    pub fn with_send_timeout(self, nanos: u128) -> (res: Self)
        ensures
            res == (ClientTimings { send_timeout: nanos, ..self }),
    {
        ClientTimings { send_timeout: nanos, ..self }
    }

    /// Sets how long a connection must have lived for its drop to be reconnected
    /// without delay.
    pub fn with_reconnect_delay_skip_threshold(self, nanos: u128) -> (res: Self)
        ensures
            res == (ClientTimings { reconnect_delay_skip_threshold: nanos, ..self }),
    {
        ClientTimings { reconnect_delay_skip_threshold: nanos, ..self }
    }
}

/// How the previous connection attempt ended.
#[derive(PartialEq, Eq, Structural, Clone, Copy, Debug)]
pub enum PreviousAttempt {
    /// No attempt was made yet.
    NoneYet,
    /// The attempt failed before a connection was established.
    Failed,
    /// A connection was established and dropped after living this many nanoseconds.
    Disconnected { lived_nanos: u128 },
}

/// The delay before the next connection attempt: none before the first one;
/// `reconnect_timeout` after a failed attempt; after a dropped connection, none
/// when it lived at least `reconnect_delay_skip_threshold`, else `reconnect_timeout`.
pub open spec fn spec_reconnect_delay(previous: PreviousAttempt, timings: ClientTimings) -> u128 {
    match previous {
        PreviousAttempt::NoneYet => 0,
        PreviousAttempt::Failed => timings.reconnect_timeout,
        PreviousAttempt::Disconnected { lived_nanos } => {
            if lived_nanos >= timings.reconnect_delay_skip_threshold {
                0
            } else {
                timings.reconnect_timeout
            }
        },
    }
}

/// The delay, in nanoseconds, before the next connection attempt.
pub fn reconnect_delay(previous: PreviousAttempt, timings: &ClientTimings) -> (res: u128)
    ensures
        res == spec_reconnect_delay(previous, *timings),
{
    match previous {
        PreviousAttempt::NoneYet => 0,
        PreviousAttempt::Failed => timings.reconnect_timeout,
        PreviousAttempt::Disconnected { lived_nanos } => {
            if lived_nanos >= timings.reconnect_delay_skip_threshold {
                0
            } else {
                timings.reconnect_timeout
            }
        },
    }
}

/// The microseconds from `since` to `now`, or zero when `now` is not later.
pub open spec fn spec_elapsed_micros(since: i64, now: i64) -> u64 {
    if now > since {
        (now - since) as u64
    } else {
        0
    }
}

/// The microseconds from `since` to `now`, or zero when `now` is not later.
pub fn elapsed_micros(since: i64, now: i64) -> (res: u64)
    ensures
        res == spec_elapsed_micros(since, now),
        res as int == if now > since { now - since } else { 0 },
{
    if now > since {
        let d: i128 = (now as i128) - (since as i128);
        d as u64
    } else {
        0
    }
}

/// The nanoseconds from `since` to `now` (both in microseconds), or zero when
/// `now` is not later.
pub open spec fn spec_elapsed_nanos(since: i64, now: i64) -> u128 {
    (spec_elapsed_micros(since, now) * 1000) as u128
}

/// The nanoseconds from `since` to `now` (both in microseconds), or zero when
/// `now` is not later.
pub fn elapsed_nanos(since: i64, now: i64) -> (res: u128)
    ensures
        res == spec_elapsed_nanos(since, now),
        res as int == 1000 * (if now > since { now - since } else { 0 }),
{
    let micros = elapsed_micros(since, now);
    (micros as u128) * 1000
}

/// The reconnect policy in terms of the given timings: no wait before the first
/// attempt; `reconnect_timeout` after a failure; after a dropped connection,
/// none when it lived at least `reconnect_delay_skip_threshold`, else
/// `reconnect_timeout`.
pub proof fn law_reconnect_policy(timings: ClientTimings, lived_nanos: u128)
    ensures
        spec_reconnect_delay(PreviousAttempt::NoneYet, timings) == 0,
        spec_reconnect_delay(PreviousAttempt::Failed, timings) == timings.reconnect_timeout,
        lived_nanos >= timings.reconnect_delay_skip_threshold ==> spec_reconnect_delay(
            PreviousAttempt::Disconnected { lived_nanos },
            timings,
        ) == 0,
        lived_nanos < timings.reconnect_delay_skip_threshold ==> spec_reconnect_delay(
            PreviousAttempt::Disconnected { lived_nanos },
            timings,
        ) == timings.reconnect_timeout,
{
}

/// Elapsed time is the difference of the instants when it is positive, and
/// zero otherwise; in nanoseconds it is a thousand times that.
pub proof fn law_elapsed(since: i64, now: i64)
    ensures
        now > since ==> spec_elapsed_micros(since, now) == now - since,
        now <= since ==> spec_elapsed_micros(since, now) == 0,
        spec_elapsed_nanos(since, now) == 1000 * spec_elapsed_micros(since, now),
{
}

} // verus!

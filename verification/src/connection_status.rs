//! Whether a connection is still usable and when something was last read from it.
use vstd::prelude::*;

verus! {

/// How a send ended.
#[derive(PartialEq, Eq, Structural, Clone, Copy, Debug)]
pub enum SendOutcome {
    /// The message was sent.
    Sent,
    /// The send did not finish within the send timeout.
    TimedOut,
    /// The transport reported an error.
    Failed,
}

impl SendOutcome {
    /// Whether the message was sent.
    pub fn is_sent(&self) -> (res: bool)
        ensures
            res == (*self == SendOutcome::Sent),
    {
        match self {
            SendOutcome::Sent => true,
            _ => false,
        }
    }
}

/// The state of one connection: connected or not, and the time (microseconds)
/// at which a frame was last read from it.
pub struct ConnectionStatus {
    connected: bool,
    last_read_time: i64,
}

impl ConnectionStatus {
    /// The connection is still usable.
    pub closed spec fn spec_connected(self) -> bool {
        self.connected
    }

    /// When a frame was last read (or the connection was made), in microseconds.
    pub closed spec fn spec_last_read_time(self) -> i64 {
        self.last_read_time
    }

    /// The status of a connection just established at `now`.
    pub closed spec fn spec_new(now: i64) -> ConnectionStatus {
        ConnectionStatus { connected: true, last_read_time: now }
    }

    /// The status after a frame was read at `now`.
    pub closed spec fn spec_after_read(self, now: i64) -> ConnectionStatus {
        ConnectionStatus { last_read_time: now, ..self }
    }

    /// The status after the connection was marked gone.
    pub closed spec fn spec_after_disconnect(self) -> ConnectionStatus {
        ConnectionStatus { connected: false, ..self }
    }

    /// A connection just established at `now`.
    pub fn new(now: i64) -> (res: Self)
        ensures
            res == Self::spec_new(now),
            res.spec_connected(),
            res.spec_last_read_time() == now,
    {
        ConnectionStatus { connected: true, last_read_time: now }
    }

    /// Whether the connection is still usable.
    pub fn is_connected(&self) -> (res: bool)
        ensures
            res == self.spec_connected(),
    {
        self.connected
    }

    /// Records that a frame was read at `now`.
    pub fn update_last_read_time(&mut self, now: i64)
        ensures
            *final(self) == old(self).spec_after_read(now),
            final(self).spec_last_read_time() == now,
            final(self).spec_connected() == old(self).spec_connected(),
    {
        self.last_read_time = now;
    }

    /// When a frame was last read (or the connection was made), in microseconds.
    pub fn get_last_read_time(&self) -> (res: i64)
        ensures
            res == self.spec_last_read_time(),
    {
        self.last_read_time
    }

    /// Marks the connection as gone; returns whether it was still connected,
    /// that is, whether its transport is still to be closed.
    pub fn mark_disconnected(&mut self) -> (was_connected: bool)
        ensures
            *final(self) == old(self).spec_after_disconnect(),
            was_connected == old(self).spec_connected(),
            !final(self).spec_connected(),
            final(self).spec_last_read_time() == old(self).spec_last_read_time(),
    {
        let was_connected = self.connected;
        self.connected = false;
        was_connected
    }

    /// Whether, after a send that ended so, the connection is still usable and
    /// further messages of a batch are to be sent. When it is not (the send did
    /// not go through), the connection is to be disconnected.
    pub fn send_keeps_connection(&self, outcome: SendOutcome) -> (keep_sending: bool)
        ensures
            keep_sending == (self.spec_connected() && outcome == SendOutcome::Sent),
    {
        self.connected && outcome.is_sent()
    }
}

/// A connection that is gone stays gone: no operation on its status makes it
/// usable again.
pub proof fn law_disconnection_is_final(s: ConnectionStatus, now: i64, outcome: SendOutcome)
    requires
        !s.spec_connected(),
    ensures
        !s.spec_after_read(now).spec_connected(),
        !s.spec_after_disconnect().spec_connected(),
        !(s.spec_connected() && outcome == SendOutcome::Sent),
{
}

/// The transport is closed at most once: marking a connection gone reports it
/// as still to be closed only the first time.
pub proof fn law_close_at_most_once(s: ConnectionStatus, now: i64)
    ensures
        !s.spec_after_disconnect().spec_connected(),
        !s.spec_after_disconnect().spec_after_read(now).spec_connected(),
        !s.spec_after_disconnect().spec_after_disconnect().spec_connected(),
{
}

/// Recording a read changes only the time of the last read, and marking the
/// connection gone changes only whether it is usable.
pub proof fn law_status_fields_independent(s: ConnectionStatus, now: i64)
    ensures
        s.spec_after_read(now).spec_connected() == s.spec_connected(),
        s.spec_after_read(now).spec_last_read_time() == now,
        s.spec_after_disconnect().spec_last_read_time() == s.spec_last_read_time(),
        ConnectionStatus::spec_new(now).spec_connected(),
        ConnectionStatus::spec_new(now).spec_last_read_time() == now,
{
}

} // verus!

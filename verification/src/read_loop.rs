//! The decisions of the read loop, which hands every frame read from a
//! connection to the callback until the connection is gone.
use vstd::prelude::*;
use crate::timings::ClientTimings;

verus! {

/// How reading the next frame ended.
#[derive(PartialEq, Eq, Structural, Clone, Copy, Debug)]
pub enum ReadOutcome {
    /// Nothing arrived within the disconnect timeout.
    TimedOut,
    /// The stream ended.
    StreamEnded,
    /// A frame arrived.
    Message,
    /// The stream reported an error.
    Failed,
}

/// What happened since the read loop's last action.
#[derive(PartialEq, Eq, Structural, Clone, Copy, Debug)]
pub enum ReadLoopEvent {
    /// The loop is at its top: whether the connection is still usable and
    /// whether the client still works.
    Check { connected: bool, working: bool },
    /// Reading the next frame ended so.
    Read(ReadOutcome),
    /// The callback handled the frame; `panicked` says whether it panicked.
    Dispatched { panicked: bool },
}

/// What the read loop is to do next.
#[derive(PartialEq, Eq, Structural, Clone, Copy, Debug)]
pub enum ReadLoopAction {
    /// Leave the loop.
    Exit,
    /// Disconnect the connection, then leave the loop.
    DisconnectAndExit,
    /// Read the next frame, waiting at most `timeout_nanos` nanoseconds.
    ReadNext { timeout_nanos: u128 },
    /// Record the time of the read, then hand the frame to the callback.
    RecordAndDispatch,
    /// Disconnect the connection, then go back to the top of the loop.
    DisconnectAndCheck,
    /// Go back to the top of the loop.
    Check,
}

/// The read loop's next action after an event.
pub open spec fn spec_read_loop_step(timings: ClientTimings, event: ReadLoopEvent) -> ReadLoopAction {
    match event {
        ReadLoopEvent::Check { connected, working } => {
            if !connected {
                ReadLoopAction::Exit
            } else if !working {
                ReadLoopAction::DisconnectAndExit
            } else {
                ReadLoopAction::ReadNext { timeout_nanos: timings.disconnect_timeout }
            }
        },
        ReadLoopEvent::Read(outcome) => match outcome {
            ReadOutcome::TimedOut => ReadLoopAction::DisconnectAndExit,
            ReadOutcome::StreamEnded => ReadLoopAction::DisconnectAndExit,
            ReadOutcome::Message => ReadLoopAction::RecordAndDispatch,
            ReadOutcome::Failed => ReadLoopAction::DisconnectAndCheck,
        },
        ReadLoopEvent::Dispatched { panicked } => {
            if panicked {
                ReadLoopAction::DisconnectAndExit
            } else {
                ReadLoopAction::Check
            }
        },
    }
}

/// The read loop's next action after an event: a connection that is gone ends
/// the loop; a read waits at most the disconnect timeout; a stopped client, a read timeout, the end of the stream or a
/// panicking callback disconnect and end it; a read error disconnects and
/// goes back to the top; a frame is recorded and handed to the callback.
pub fn read_loop_step(timings: &ClientTimings, event: ReadLoopEvent) -> (res: ReadLoopAction)
    ensures
        res == spec_read_loop_step(*timings, event),
{
    match event {
        ReadLoopEvent::Check { connected, working } => {
            if !connected {
                ReadLoopAction::Exit
            } else if !working {
                ReadLoopAction::DisconnectAndExit
            } else {
                ReadLoopAction::ReadNext { timeout_nanos: timings.disconnect_timeout }
            }
        },
        ReadLoopEvent::Read(outcome) => match outcome {
            ReadOutcome::TimedOut => ReadLoopAction::DisconnectAndExit,
            ReadOutcome::StreamEnded => ReadLoopAction::DisconnectAndExit,
            ReadOutcome::Message => ReadLoopAction::RecordAndDispatch,
            ReadOutcome::Failed => ReadLoopAction::DisconnectAndCheck,
        },
        ReadLoopEvent::Dispatched { panicked } => {
            if panicked {
                ReadLoopAction::DisconnectAndExit
            } else {
                ReadLoopAction::Check
            }
        },
    }
}

/// The loop never leaves a usable connection behind: it leaves without
/// disconnecting only when the connection is already gone, and every read
/// that brings no frame (timeout, end of stream, error) disconnects.
pub proof fn law_read_loop_never_leaves_connection_open(timings: ClientTimings, event: ReadLoopEvent)
    ensures
        spec_read_loop_step(timings, event) == ReadLoopAction::Exit ==> event matches ReadLoopEvent::Check {
            connected: false,
            ..
        },
        event matches ReadLoopEvent::Read(o) && o != ReadOutcome::Message ==> (spec_read_loop_step(timings, event)
            == ReadLoopAction::DisconnectAndExit || spec_read_loop_step(timings, event)
            == ReadLoopAction::DisconnectAndCheck),
{
}

/// A stopped client's open connection is disconnected at the loop's next
/// check, and no read ever waits longer than the disconnect timeout; so once
/// the client is stopped, an open connection is dropped within that timeout
/// plus one callback.
pub proof fn law_read_loop_stop_is_bounded(timings: ClientTimings, event: ReadLoopEvent)
    ensures
        spec_read_loop_step(timings, ReadLoopEvent::Check { connected: true, working: false })
            == ReadLoopAction::DisconnectAndExit,
        spec_read_loop_step(timings, event) matches ReadLoopAction::ReadNext { timeout_nanos }
            ==> timeout_nanos == timings.disconnect_timeout,
        spec_read_loop_step(timings, ReadLoopEvent::Read(ReadOutcome::TimedOut))
            == ReadLoopAction::DisconnectAndExit,
{
}

/// Only a frame that arrived is handed to the callback, and its arrival is
/// recorded first; the next read happens only on a usable connection of a
/// working client.
pub proof fn law_read_loop_dispatches_only_frames(timings: ClientTimings, event: ReadLoopEvent)
    ensures
        spec_read_loop_step(timings, event) == ReadLoopAction::RecordAndDispatch <==> event == ReadLoopEvent::Read(
            ReadOutcome::Message,
        ),
        spec_read_loop_step(timings, event) is ReadNext <==> event == (ReadLoopEvent::Check {
            connected: true,
            working: true,
        }),
{
}

/// The top of the read loop: a connection that is gone ends the loop whatever
/// the client's working flag; a usable connection of a stopped client is
/// disconnected and the loop ends; otherwise the next read waits exactly the
/// configured disconnect timeout.
pub proof fn law_read_loop_check(timings: ClientTimings, working: bool)
    ensures
        spec_read_loop_step(timings, ReadLoopEvent::Check { connected: false, working }) == ReadLoopAction::Exit,
        spec_read_loop_step(timings, ReadLoopEvent::Check { connected: true, working: false })
            == ReadLoopAction::DisconnectAndExit,
        spec_read_loop_step(timings, ReadLoopEvent::Check { connected: true, working: true })
            == (ReadLoopAction::ReadNext { timeout_nanos: timings.disconnect_timeout }),
        spec_read_loop_step(timings, ReadLoopEvent::Read(ReadOutcome::Failed))
            == ReadLoopAction::DisconnectAndCheck,
        spec_read_loop_step(timings, ReadLoopEvent::Read(ReadOutcome::StreamEnded))
            == ReadLoopAction::DisconnectAndExit,
        spec_read_loop_step(timings, ReadLoopEvent::Dispatched { panicked: false }) == ReadLoopAction::Check,
        spec_read_loop_step(timings, ReadLoopEvent::Dispatched { panicked: true })
            == ReadLoopAction::DisconnectAndExit,
{
}

} // verus!

use my_web_socket_client::connection_status::{ConnectionStatus, SendOutcome};
use my_web_socket_client::key::{generate_websocket_key_bytes, key_bytes_from_draw};
use my_web_socket_client::ping::{ping_step, PingAction, PingEvent};
use my_web_socket_client::read_loop::{read_loop_step, ReadLoopAction, ReadLoopEvent, ReadOutcome};
use my_web_socket_client::timings::ClientTimings;

#[test]
fn read_loop_decisions() {
    let t = ClientTimings::new();
    assert_eq!(read_loop_step(&t, ReadLoopEvent::Check { connected: false, working: true }), ReadLoopAction::Exit);
    assert_eq!(read_loop_step(&t, ReadLoopEvent::Check { connected: true, working: false }), ReadLoopAction::DisconnectAndExit);
    assert_eq!(read_loop_step(&t, ReadLoopEvent::Check { connected: true, working: true }), ReadLoopAction::ReadNext { timeout_nanos: 9_000_000_000 });
    assert_eq!(read_loop_step(&t, ReadLoopEvent::Read(ReadOutcome::TimedOut)), ReadLoopAction::DisconnectAndExit);
    assert_eq!(read_loop_step(&t, ReadLoopEvent::Read(ReadOutcome::StreamEnded)), ReadLoopAction::DisconnectAndExit);
    assert_eq!(read_loop_step(&t, ReadLoopEvent::Read(ReadOutcome::Message)), ReadLoopAction::RecordAndDispatch);
    assert_eq!(read_loop_step(&t, ReadLoopEvent::Read(ReadOutcome::Failed)), ReadLoopAction::DisconnectAndCheck);
    assert_eq!(read_loop_step(&t, ReadLoopEvent::Dispatched { panicked: true }), ReadLoopAction::DisconnectAndExit);
    assert_eq!(read_loop_step(&t, ReadLoopEvent::Dispatched { panicked: false }), ReadLoopAction::Check);
}

#[test]
fn ping_loop_decisions() {
    let t = ClientTimings::new();
    assert_eq!(ping_step(&t, PingEvent::Check { connected: true }), PingAction::Sleep { nanos: 3_000_000_000 });
    assert_eq!(ping_step(&t, PingEvent::Check { connected: false }), PingAction::Finish);
    assert_eq!(ping_step(&t, PingEvent::Woke { now: 9_000_000, last_read_time: 0 }), PingAction::SendPing);
    assert_eq!(ping_step(&t, PingEvent::Woke { now: 9_000_001, last_read_time: 0 }), PingAction::Finish);
    assert_eq!(ping_step(&t, PingEvent::Woke { now: 0, last_read_time: 100 }), PingAction::SendPing);
}

#[test]
fn connection_status_lifecycle() {
    let mut s = ConnectionStatus::new(100);
    assert!(s.is_connected());
    assert_eq!(s.get_last_read_time(), 100);
    s.update_last_read_time(250);
    assert_eq!(s.get_last_read_time(), 250);
    assert!(s.send_keeps_connection(SendOutcome::Sent));
    assert!(!s.send_keeps_connection(SendOutcome::TimedOut));
    assert!(s.is_connected());
    assert!(s.mark_disconnected());
    assert!(!s.is_connected());
    assert!(!s.send_keeps_connection(SendOutcome::Sent));
    s.update_last_read_time(300);
    assert!(!s.is_connected());
    assert!(!s.mark_disconnected());
    assert_eq!(s.get_last_read_time(), 300);
}

#[test]
fn disconnect_reports_whether_transport_is_open() {
    let mut s = ConnectionStatus::new(0);
    assert!(s.mark_disconnected());
    assert!(!s.mark_disconnected());
    assert!(!s.is_connected());
}

#[test]
fn failed_send_calls_for_disconnect() {
    let s = ConnectionStatus::new(0);
    assert!(!s.send_keeps_connection(SendOutcome::Failed));
    assert!(s.is_connected());
    assert!(SendOutcome::Sent.is_sent());
    assert!(!SendOutcome::Failed.is_sent());
}

#[test]
fn key_bytes_are_sixteen_random_bytes() {
    let a = generate_websocket_key_bytes();
    let b = generate_websocket_key_bytes();
    assert_eq!(a.len(), 16);
    assert_eq!(b.len(), 16);
    assert_ne!(a, b);
}

#[test]
fn key_bytes_copy_the_draw() {
    let draw: [u8; 16] = [0, 1, 2, 3, 4, 5, 6, 7, 8, 9, 10, 11, 12, 13, 14, 255];
    assert_eq!(key_bytes_from_draw(draw), draw.to_vec());
}

#[test]
fn ping_compares_in_nanoseconds() {
    let t = ClientTimings::new().with_disconnect_timeout(1_500);
    assert_eq!(ping_step(&t, PingEvent::Woke { now: 1, last_read_time: 0 }), PingAction::SendPing);
    assert_eq!(ping_step(&t, PingEvent::Woke { now: 2, last_read_time: 0 }), PingAction::Finish);
}

#[test]
fn read_waits_the_configured_disconnect_timeout() {
    let t = ClientTimings::new().with_disconnect_timeout(30_000_000_000);
    assert_eq!(
        read_loop_step(&t, ReadLoopEvent::Check { connected: true, working: true }),
        ReadLoopAction::ReadNext { timeout_nanos: 30_000_000_000 }
    );
}

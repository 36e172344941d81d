use my_web_socket_client::connection_loop::{ConnectionLoop, LoopAction, LoopEvent, LoopPhase};
use my_web_socket_client::endpoint::{plan_connection, AttemptError, RemoteEndpointParts, Scheme};
use my_web_socket_client::timings::ClientTimings;

fn ok_plan() -> LoopEvent {
    LoopEvent::Planned(plan_connection(
        Some(RemoteEndpointParts {
            scheme: Some(Scheme::Wss),
            host_port: "h:443".to_string(),
            http_path_and_query: None,
        }),
        "key",
    ))
}

fn prepare_delay(a: LoopAction) -> u128 {
    match a {
        LoopAction::Prepare { delay_nanos } => delay_nanos,
        _ => panic!("expected Prepare"),
    }
}

#[test]
fn first_attempt_is_immediate() {
    let mut lp = ConnectionLoop::new(ClientTimings::new(), true);
    assert_eq!(prepare_delay(lp.step(LoopEvent::Poll { working: true })), 0);
    assert_eq!(lp.phase, LoopPhase::Preparing);
}

#[test]
fn invalid_url_is_retried_after_reconnect_timeout() {
    let mut lp = ConnectionLoop::new(ClientTimings::new(), true);
    lp.step(LoopEvent::Poll { working: true });
    let a = lp.step(LoopEvent::Planned(Err(AttemptError::InvalidUrl)));
    assert!(matches!(a, LoopAction::RetryLater { error: AttemptError::InvalidUrl }));
    assert_eq!(prepare_delay(lp.step(LoopEvent::Poll { working: true })), 3_000_000_000);
}

#[test]
fn connect_failure_is_retried_after_reconnect_timeout() {
    let mut lp = ConnectionLoop::new(ClientTimings::new().with_reconnect_timeout(7), false);
    lp.step(LoopEvent::Poll { working: true });
    match lp.step(ok_plan()) {
        LoopAction::Connect { connection_id, plan } => {
            assert_eq!(connection_id, 1);
            assert!(plan.tls);
        }
        _ => panic!("expected Connect"),
    }
    let a = lp.step(LoopEvent::ConnectFinished { connected_at: None });
    assert!(matches!(a, LoopAction::RetryLater { error: AttemptError::ConnectFailed }));
    assert_eq!(prepare_delay(lp.step(LoopEvent::Poll { working: true })), 7);
}

fn run_session(lp: &mut ConnectionLoop, since: i64, until: i64) -> i64 {
    lp.step(LoopEvent::Poll { working: true });
    let id = match lp.step(ok_plan()) {
        LoopAction::Connect { connection_id, .. } => connection_id,
        _ => panic!("expected Connect"),
    };
    assert!(matches!(
        lp.step(LoopEvent::ConnectFinished { connected_at: Some(since) }),
        LoopAction::StartSession { connection_id, ping: true } if connection_id == id
    ));
    assert!(matches!(
        lp.step(LoopEvent::SessionEnded { now: until }),
        LoopAction::SessionClosed { connection_id } if connection_id == id
    ));
    id
}

#[test]
fn long_lived_connection_reconnects_immediately() {
    let mut lp = ConnectionLoop::new(ClientTimings::new(), true);
    run_session(&mut lp, 1_000, 1_000 + 10_000_000);
    assert_eq!(prepare_delay(lp.step(LoopEvent::Poll { working: true })), 0);
}

#[test]
fn short_lived_connection_waits() {
    let mut lp = ConnectionLoop::new(ClientTimings::new(), true);
    run_session(&mut lp, 1_000, 1_000 + 9_999_999);
    assert_eq!(prepare_delay(lp.step(LoopEvent::Poll { working: true })), 3_000_000_000);
}

#[test]
fn connection_ids_count_attempts() {
    let mut lp = ConnectionLoop::new(ClientTimings::new(), true);
    assert_eq!(run_session(&mut lp, 0, 20_000_000), 1);
    lp.step(LoopEvent::Poll { working: true });
    lp.step(LoopEvent::Planned(Err(AttemptError::MissingScheme)));
    assert_eq!(run_session(&mut lp, 0, 1), 2);
    assert_eq!(lp.connection_id, 2);
}

#[test]
fn stop_ends_the_loop_for_good() {
    let mut lp = ConnectionLoop::new(ClientTimings::new(), true);
    assert!(matches!(lp.step(LoopEvent::Poll { working: false }), LoopAction::Stop));
    assert_eq!(lp.phase, LoopPhase::Stopped);
    assert!(matches!(lp.step(LoopEvent::Poll { working: true }), LoopAction::Stop));
    assert!(matches!(lp.step(ok_plan()), LoopAction::Stop));
}

#[test]
fn out_of_order_event_is_ignored() {
    let mut lp = ConnectionLoop::new(ClientTimings::new(), true);
    assert!(matches!(lp.step(LoopEvent::SessionEnded { now: 5 }), LoopAction::Ignore));
    assert_eq!(lp.phase, LoopPhase::Idle);
    assert_eq!(lp.connection_id, 0);
}

#[test]
fn sessions_ping_only_when_enabled() {
    let mut lp = ConnectionLoop::new(ClientTimings::new(), false);
    lp.step(LoopEvent::Poll { working: true });
    lp.step(ok_plan());
    assert!(matches!(
        lp.step(LoopEvent::ConnectFinished { connected_at: Some(0) }),
        LoopAction::StartSession { connection_id: 1, ping: false }
    ));
}

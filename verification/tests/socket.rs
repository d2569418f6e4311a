use relay_client::error::RelayError;
use relay_client::lifecycle::ConnectionLifecycle;
use relay_client::message::{RelayEvent, RelayMessage};
use relay_client::socket::{
    after_write, check_trusted_roots, dial_failure, dial_result, next_relay_outbound, read_inbound,
    write_result, InboundAction, InboundPoll, OutboundTurn, QueuePoll, WriteAction,
    HEARTBEAT_PERIOD_SECS, RELAY_INBOUND_IDLE_TIMEOUT_SECS, RELAY_MAX_MESSAGE_BYTES,
    RELAY_WRITE_TIMEOUT_SECS,
};
use relay_client::text::decimal_string;
use tokio::sync::mpsc;

fn poll(commands: &mut mpsc::Receiver<RelayMessage>) -> QueuePoll {
    match commands.try_recv() {
        Ok(message) => QueuePoll::Command { message },
        Err(mpsc::error::TryRecvError::Empty) => QueuePoll::Pending,
        Err(mpsc::error::TryRecvError::Disconnected) => QueuePoll::Closed,
    }
}

fn next(heartbeat_due: bool, commands: &mut mpsc::Receiver<RelayMessage>) -> OutboundTurn {
    match next_relay_outbound(heartbeat_due, None) {
        OutboundTurn::AskQueue => next_relay_outbound(heartbeat_due, Some(poll(commands))),
        turn => turn,
    }
}

#[test]
fn heartbeat_deadline_is_not_starved_by_queued_commands() {
    let (tx, mut commands) = mpsc::channel(2);
    for id in ["first", "second"] {
        tx.try_send(RelayMessage::AuthConnect {
            token: id.into(),
            device_name: "test-device".into(),
            device_kind: "desktop".into(),
        })
        .unwrap();
    }
    assert!(
        matches!(
            next(true, &mut commands),
            OutboundTurn::Send { message: RelayMessage::Heartbeat }
        ),
        "a due heartbeat must progress even while the command queue is full"
    );
    for expected in ["first", "second"] {
        assert!(matches!(
            next(false, &mut commands),
            OutboundTurn::Send { message: RelayMessage::AuthConnect { token, .. } }
                if token == expected
        ));
    }
    assert!(matches!(
        next(false, &mut commands),
        OutboundTurn::Wait
    ));
    drop(tx);
    assert!(matches!(
        next(false, &mut commands),
        OutboundTurn::Finish
    ));
}

#[test]
fn a_command_that_was_taken_is_sent_even_if_a_heartbeat_became_due() {
    let offered = QueuePoll::Command { message: RelayMessage::auth_connect("t", "n") };
    assert!(matches!(
        next_relay_outbound(true, Some(offered)),
        OutboundTurn::Send { message: RelayMessage::AuthConnect { token, .. } } if token == "t"
    ));
}

#[test]
fn stalled_writes_are_bounded() {
    let error = write_result(None).unwrap_err();
    assert_eq!(error.message(), "Relay WebSocket write timed out");
    assert_eq!(write_result(Some(Ok(()))), Ok(()));
    let failure = RelayError::Transport { reason: "broken pipe".to_string() };
    assert_eq!(failure.message(), "broken pipe");
    assert_eq!(write_result(Some(Err(failure.clone()))), Err(failure));
}

#[test]
fn a_failed_or_late_write_gives_the_socket_up() {
    let failure = RelayError::Transport { reason: "broken pipe".to_string() };
    assert_eq!(after_write(&write_result(Some(Ok(())))), WriteAction::Continue);
    assert_eq!(after_write(&write_result(Some(Err(failure)))), WriteAction::Stop);
    assert_eq!(after_write(&write_result(None)), WriteAction::Stop);
}

#[test]
fn dial_timeout_bounds_a_pending_connection_attempt() {
    let result = dial_result::<()>("wss://relay.example.invalid/ws", None);
    let error = result.expect_err("pending dial must be bounded by the connection timeout");
    assert_eq!(
        error.message(),
        "dial wss://relay.example.invalid/ws: connection timed out after 15 seconds"
    );
}

#[test]
fn dial_timeout_preserves_connection_errors() {
    let result = dial_result::<()>(
        "wss://relay.example.invalid/ws",
        Some(Err(RelayError::Transport { reason: "dial failed before timeout".to_string() })),
    );
    assert_eq!(
        result.expect_err("dial error must be returned").message(),
        "dial failed before timeout"
    );
    assert_eq!(dial_result("ws://h/ws", Some(Ok(7))), Ok(7));
    assert_eq!(dial_failure("ws://h/ws", "refused").message(), "dial ws://h/ws: refused");
}

#[test]
fn inbound_idle_timeout_detects_a_half_open_socket() {
    let owner = ConnectionLifecycle::new();
    assert!(
        matches!(read_inbound(&owner, 0, InboundPoll::TimedOut), InboundAction::Stop),
        "an idle relay stream must time out"
    );
    assert_eq!(RELAY_INBOUND_IDLE_TIMEOUT_SECS, 75);
    assert!(RELAY_INBOUND_IDLE_TIMEOUT_SECS > 2 * HEARTBEAT_PERIOD_SECS);
    assert_eq!(RELAY_WRITE_TIMEOUT_SECS, 15);
    assert_eq!(RELAY_MAX_MESSAGE_BYTES, 67_108_864);
}

#[test]
fn read_half_delivers_skips_and_stops() {
    let owner = ConnectionLifecycle::new();
    for end in [InboundPoll::Ended, InboundPoll::Failed, InboundPoll::Close] {
        assert!(matches!(read_inbound(&owner, 0, end), InboundAction::Stop));
    }
    for skipped in [
        InboundPoll::Other,
        InboundPoll::Text { message: None },
        InboundPoll::Text { message: Some(RelayMessage::HeartbeatAck) },
    ] {
        assert!(matches!(read_inbound(&owner, 0, skipped), InboundAction::Continue));
    }
    let error = || InboundPoll::Text {
        message: Some(RelayMessage::Error { message: "m".into() }),
    };
    assert!(matches!(
        read_inbound(&owner, 0, error()),
        InboundAction::Deliver { event: RelayEvent::Error { message } } if message == "m"
    ));
    assert!(matches!(read_inbound(&owner, 1, error()), InboundAction::Continue));
}

#[test]
fn a_connector_needs_trusted_roots() {
    assert_eq!(check_trusted_roots(1), Ok(()));
    assert_eq!(
        check_trusted_roots(0).unwrap_err().message(),
        "No trusted Windows root certificates available for relay connection"
    );
}

#[test]
fn error_texts_are_fixed() {
    for (error, text) in [
        (RelayError::ConnectCancelled, "Relay connection attempt cancelled"),
        (RelayError::ConnectSuperseded, "Relay connection attempt superseded"),
        (RelayError::InvalidTarget, "Invalid relay target device id"),
        (RelayError::InvalidScheme, "Invalid relay WebSocket scheme"),
        (RelayError::InvalidHttpScheme, "Invalid relay HTTP scheme"),
        (RelayError::InvalidEndpoint, "Invalid relay WebSocket endpoint"),
        (RelayError::InvalidPath, "Invalid relay WebSocket path"),
        (RelayError::InvalidUrl { reason: "empty host".to_string() }, "empty host"),
    ] {
        assert_eq!(error.message(), text);
    }
    assert_eq!(decimal_string(0), "0");
    assert_eq!(decimal_string(9), "9");
    assert_eq!(decimal_string(10), "10");
    assert_eq!(decimal_string(u64::MAX), "18446744073709551615");
}

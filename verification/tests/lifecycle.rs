use relay_client::client::{
    device_message_result, ConnectStart, DeviceMessageStep, RelayClient,
};
use relay_client::error::RelayError;
use relay_client::lifecycle::{ConnectionState, ReconnectCtx};
use relay_client::message::{DevicePresenceEntry, RelayEvent, RelayMessage};
use relay_client::queue::{CommandQueue, QueueReply};
use relay_client::supervisor::{
    Phase, ReadyReport, Supervisor, SupervisorAction, SupervisorEvent, SupervisorStep,
};
use tokio::sync::mpsc;

fn connecting(url: &str) -> (RelayClient, Supervisor) {
    let mut client = RelayClient::new();
    let start = client.connect(url);
    assert!(start.retired.is_none());
    assert_eq!(client.connection_state(), ConnectionState::Connecting);
    (client, start.supervisor)
}

fn step(client: &mut RelayClient, run: &mut Supervisor, event: SupervisorEvent) -> SupervisorStep {
    run.step(&mut client.lifecycle, event)
}

fn commands_of(step: SupervisorStep) -> mpsc::Receiver<RelayMessage> {
    match step.action {
        SupervisorAction::Serve { commands } => commands,
        other => panic!("expected to serve, got {other:?}"),
    }
}

fn connected(url: &str) -> (RelayClient, Supervisor, mpsc::Receiver<RelayMessage>) {
    let (mut client, mut run) = connecting(url);
    let opened = step(&mut client, &mut run, SupervisorEvent::Opened);
    assert!(matches!(opened.event, Some(RelayEvent::Connected)));
    assert_eq!(opened.ready, Some(ReadyReport::Connected));
    let generation = run.generation;
    assert_eq!(client.connect_result(generation, Some(Ok(()))), Ok(()));
    (client, run, commands_of(opened))
}

fn pause_of(step: &SupervisorStep) -> u64 {
    assert!(step.event.is_none());
    assert!(step.ready.is_none());
    match step.action {
        SupervisorAction::Sleep { secs } => secs,
        _ => panic!("expected a pause, got {step:?}"),
    }
}

fn is_silent_stop(step: &SupervisorStep) -> bool {
    step.event.is_none() && step.ready.is_none() && matches!(step.action, SupervisorAction::Stop)
}

#[test]
fn device_payload_uses_authenticated_http_and_reports_rejection() {
    let (mut client, _run, _commands) = connected("ws://127.0.0.1:3000/ws");
    client.connect_authenticated("fixture-token", "Desktop").unwrap();
    let payload = "a".repeat(256 * 1024);
    let request = match client.send_device_message("controller", "correlation", &payload, "nonce") {
        DeviceMessageStep::Post { request } => request,
        other => panic!("expected a request, got {other:?}"),
    };
    assert_eq!(request.endpoint, "http://127.0.0.1:3000/api/devices/controller/messages");
    assert_eq!(request.token, "fixture-token");
    match request.message {
        RelayMessage::DeviceMessage { target_device_id, correlation_id, encrypted_data, nonce } => {
            assert_eq!(target_device_id, "controller");
            assert_eq!(correlation_id, "correlation");
            assert_eq!(encrypted_data.len(), 256 * 1024);
            assert_eq!(nonce, "nonce");
        }
        other => panic!("expected a device message, got {other:?}"),
    }
    assert_eq!(device_message_result(204), Ok(()));
    let error = device_message_result(503).unwrap_err();
    assert!(error.message().contains("503"));
    assert_eq!(
        error.message(),
        "Relay device message rejected (HTTP 503 Service Unavailable)"
    );
    assert_eq!(
        device_message_result(200).unwrap_err().message(),
        "Relay device message rejected (HTTP 200 OK)"
    );
    assert_eq!(
        device_message_result(999).unwrap_err().message(),
        "Relay device message rejected (HTTP 999 <unknown status code>)"
    );
}

#[test]
fn device_messages_need_the_account_of_the_connection() {
    let refused = |client: &RelayClient| match client.send_device_message("d", "c", "e", "n") {
        DeviceMessageStep::Refuse { error } => error,
        other => panic!("expected a refusal, got {other:?}"),
    };
    let (mut client, _run, _commands) = connected("ws://h/wrong");
    assert_eq!(refused(&client), RelayError::NotAuthenticated);
    client.connect_authenticated("token", "Desktop").unwrap();
    assert_eq!(refused(&client), RelayError::InvalidPath);
    client.connect("ws://h/ws");
    assert_eq!(refused(&client), RelayError::NotAuthenticated);
    client.disconnect();
    assert_eq!(refused(&client), RelayError::NotAuthenticated);
    assert_eq!(
        RelayError::NotAuthenticated.message(),
        "Authenticated relay connection is unavailable"
    );
}

#[test]
fn failed_initial_dial_returns_to_disconnected() {
    let (mut client, mut run) = connecting("invalid://relay");
    let failed = step(&mut client, &mut run, SupervisorEvent::DialFailed);
    assert!(matches!(failed.event, Some(RelayEvent::Disconnected)));
    assert_eq!(failed.ready, Some(ReadyReport::DialFailed));
    assert!(matches!(failed.action, SupervisorAction::Stop));
    let error = RelayError::Transport { reason: "unsupported scheme".to_string() };
    assert_eq!(
        client.connect_result(run.generation, Some(Err(error.clone()))),
        Err(error)
    );
    assert_eq!(client.connection_state(), ConnectionState::Disconnected);
    assert_eq!(client.send(RelayMessage::Heartbeat), Err(RelayError::NotConnected));
    assert!(client.lifecycle.reconnect_ctx.is_none());
}

#[test]
fn disconnect_hands_back_the_task_and_drops_the_queue() {
    let runtime = tokio::runtime::Builder::new_current_thread().build().unwrap();
    let (mut client, _run, mut commands) = connected("ws://h/ws");
    client.adopt_task(runtime.spawn(std::future::pending()));
    let id = client.lifecycle.task.as_ref().unwrap().id();
    let end = client.disconnect();
    assert!(matches!(end.event, RelayEvent::Disconnected));
    assert_eq!(end.retired.unwrap().id(), id);
    assert!(client.lifecycle.task.is_none());
    assert_eq!(client.connection_state(), ConnectionState::Disconnected);
    assert_eq!(commands.try_recv().unwrap_err(), mpsc::error::TryRecvError::Disconnected);
}

#[test]
fn dropping_client_hands_back_its_task() {
    let runtime = tokio::runtime::Builder::new_current_thread().build().unwrap();
    let (mut client, _run, _commands) = connected("ws://h/ws");
    client.adopt_task(runtime.spawn(std::future::pending()));
    assert!(client.release().is_some());
    assert!(client.release().is_none());
    assert_eq!(client.connection_state(), ConnectionState::Disconnected);
}

#[test]
fn disconnect_during_backoff_does_not_reconnect() {
    let (mut client, mut run, _commands) = connected("ws://h/ws");
    let lost = step(&mut client, &mut run, SupervisorEvent::SocketClosed);
    assert_eq!(pause_of(&lost), 2);
    assert_eq!(client.connection_state(), ConnectionState::Reconnecting);
    client.disconnect();
    let elapsed = step(&mut client, &mut run, SupervisorEvent::BackoffElapsed);
    assert!(is_silent_stop(&elapsed), "a disconnected owner must not dial again");
    assert_eq!(client.connection_state(), ConnectionState::Disconnected);
}

#[test]
fn disconnect_cancels_an_in_progress_handshake() {
    let (mut client, mut run) = connecting("ws://h/ws");
    let generation = run.generation;
    client.disconnect();
    let late = step(&mut client, &mut run, SupervisorEvent::Opened);
    assert!(is_silent_stop(&late));
    assert_eq!(run.phase, Phase::Stopped);
    assert_eq!(client.connect_result(generation, None), Err(RelayError::ConnectCancelled));
    assert_eq!(
        client.connect_result(generation, Some(Ok(()))),
        Err(RelayError::ConnectSuperseded)
    );
    assert_eq!(client.connection_state(), ConnectionState::Disconnected);
}

#[test]
fn late_failure_of_a_superseded_dial_is_reported_and_changes_nothing() {
    let (mut client, mut old) = connecting("ws://old/ws");
    let mut new = client.connect("ws://new/ws").supervisor;
    let failed = step(&mut client, &mut old, SupervisorEvent::DialFailed);
    assert!(failed.event.is_none());
    assert_eq!(failed.ready, Some(ReadyReport::DialFailed));
    assert_eq!(client.connection_state(), ConnectionState::Connecting);
    let opened = step(&mut client, &mut new, SupervisorEvent::Opened);
    assert!(matches!(opened.event, Some(RelayEvent::Connected)));
}

#[test]
fn replacement_connection_retires_the_old_socket_and_preserves_the_new_one() {
    let runtime = tokio::runtime::Builder::new_current_thread().build().unwrap();
    let (mut client, mut old, mut old_commands) = connected("ws://old/ws");
    client.adopt_task(runtime.spawn(std::future::pending()));
    let ConnectStart { retired, supervisor: mut new } = client.connect("ws://new/ws");
    assert!(retired.is_some());
    assert!(client.lifecycle.task.is_none());
    assert_eq!(
        old_commands.try_recv().unwrap_err(),
        mpsc::error::TryRecvError::Disconnected
    );
    let opened = step(&mut client, &mut new, SupervisorEvent::Opened);
    let mut commands = commands_of(opened);
    let closed = step(&mut client, &mut old, SupervisorEvent::SocketClosed);
    assert!(is_silent_stop(&closed));
    client.send(RelayMessage::Heartbeat).unwrap();
    assert!(matches!(commands.try_recv().unwrap(), RelayMessage::Heartbeat));
    assert_eq!(client.connection_state(), ConnectionState::Connected);
}

#[test]
fn reconnect_authenticates_account_before_new_commands() {
    let (mut client, mut run, mut commands) = connected("ws://h/ws");
    client.connect_authenticated("test-token", "test-device").unwrap();
    assert!(matches!(
        commands.try_recv().unwrap(),
        RelayMessage::AuthConnect { token, device_name, device_kind }
            if token == "test-token" && device_name == "test-device" && device_kind == "desktop"
    ));
    step(&mut client, &mut run, SupervisorEvent::SocketClosed);
    assert_eq!(client.send(RelayMessage::Heartbeat), Err(RelayError::NotConnected));
    let elapsed = step(&mut client, &mut run, SupervisorEvent::BackoffElapsed);
    assert_eq!(client.send(RelayMessage::Heartbeat), Err(RelayError::NotConnected));
    let (ws_url, auth) = match elapsed.action {
        SupervisorAction::Redial { ws_url, auth } => (ws_url, auth),
        other => panic!("expected a dial, got {other:?}"),
    };
    assert_eq!(ws_url, "ws://h/ws");
    assert!(
        matches!(auth, Some(RelayMessage::AuthConnect { token, device_name, .. })
        if token == "test-token" && device_name == "test-device")
    );
    let opened = step(&mut client, &mut run, SupervisorEvent::Opened);
    assert!(matches!(opened.event, Some(RelayEvent::Reconnected)));
    assert!(opened.ready.is_none());
    assert_eq!(client.send(RelayMessage::Heartbeat), Ok(()));
}

#[test]
fn a_supervisor_awaits_what_it_asked_for() {
    let awaited = |phase: Phase| {
        [
            SupervisorEvent::Opened,
            SupervisorEvent::DialFailed,
            SupervisorEvent::SocketClosed,
            SupervisorEvent::BackoffElapsed,
        ]
        .map(|event| phase.is_awaiting(event))
    };
    let (mut client, mut run) = connecting("ws://h/ws");
    assert_eq!(awaited(run.phase), [true, true, false, false]);
    step(&mut client, &mut run, SupervisorEvent::Opened);
    assert_eq!(awaited(run.phase), [false, false, true, false]);
    step(&mut client, &mut run, SupervisorEvent::SocketClosed);
    assert_eq!(awaited(run.phase), [false, false, false, true]);
    step(&mut client, &mut run, SupervisorEvent::BackoffElapsed);
    assert_eq!(awaited(run.phase), [true, true, false, false]);
    client.disconnect();
    step(&mut client, &mut run, SupervisorEvent::Opened);
    assert_eq!(awaited(run.phase), [false, false, false, false]);
}

#[test]
fn reconnect_without_an_account_has_nothing_to_write() {
    let (mut client, mut run, _commands) = connected("ws://h/ws");
    step(&mut client, &mut run, SupervisorEvent::SocketClosed);
    let elapsed = step(&mut client, &mut run, SupervisorEvent::BackoffElapsed);
    assert!(matches!(elapsed.action, SupervisorAction::Redial { auth: None, .. }));
}

#[test]
fn backoff_doubles_to_thirty_seconds_and_starts_over() {
    let (mut client, mut run, _commands) = connected("ws://h/ws");
    for _ in 0..2 {
        let lost = step(&mut client, &mut run, SupervisorEvent::SocketClosed);
        assert_eq!(pause_of(&lost), 2);
        for expected in [4, 8, 16, 30, 30, 30] {
            step(&mut client, &mut run, SupervisorEvent::BackoffElapsed);
            let failed = step(&mut client, &mut run, SupervisorEvent::DialFailed);
            assert_eq!(pause_of(&failed), expected);
        }
        step(&mut client, &mut run, SupervisorEvent::BackoffElapsed);
        step(&mut client, &mut run, SupervisorEvent::Opened);
    }
}

#[test]
fn full_outbound_queue_rejects_without_leaking_the_payload() {
    let mut client = RelayClient::new();
    let (queue, mut rx) = CommandQueue::with_capacity(1);
    client.lifecycle.state = ConnectionState::Connected;
    client.lifecycle.cmd_tx = Some(queue);
    client.lifecycle.reconnect_ctx = Some(ReconnectCtx {
        ws_url: String::new(),
        token: "accepted-token".into(),
        device_name: String::new(),
    });
    client.send(RelayMessage::Heartbeat).unwrap();
    let error = client
        .send(RelayMessage::AuthConnect {
            token: "must-not-appear-in-error".into(),
            device_name: "device".into(),
            device_kind: "desktop".into(),
        })
        .unwrap_err();
    assert_eq!(
        error.message(),
        "Relay send queue is full; request was not queued"
    );
    assert!(client.connect_authenticated("rejected-token", "device").is_err());
    let ctx = client.lifecycle.reconnect_ctx.as_ref().unwrap();
    assert_eq!(ctx.token, "accepted-token");
    assert!(matches!(rx.try_recv(), Ok(RelayMessage::Heartbeat)));
    assert_eq!(rx.try_recv().unwrap_err(), mpsc::error::TryRecvError::Empty);
}

#[test]
fn an_open_queue_takes_nothing_unless_the_state_is_connected() {
    let mut client = RelayClient::new();
    let (queue, mut rx) = CommandQueue::with_capacity(1);
    client.lifecycle.generation = 1;
    client.lifecycle.state = ConnectionState::Reconnecting;
    client.lifecycle.cmd_tx = Some(queue);
    let error = client.lifecycle.enqueue(RelayMessage::Heartbeat).unwrap_err();
    assert_eq!(error.message(), "Relay transport is not connected");
    assert!(client.connect_authenticated("token", "device").is_err());
    assert_eq!(rx.try_recv().unwrap_err(), mpsc::error::TryRecvError::Empty);
    client.lifecycle.state = ConnectionState::Connected;
    client.lifecycle.enqueue(RelayMessage::Heartbeat).unwrap();
    assert!(matches!(rx.try_recv(), Ok(RelayMessage::Heartbeat)));
    assert_eq!(rx.try_recv().unwrap_err(), mpsc::error::TryRecvError::Empty);
}

#[test]
fn a_reopened_socket_starts_with_an_empty_queue() {
    let (mut client, mut run, mut old_commands) = connected("ws://h/ws");
    client.send(RelayMessage::HeartbeatAck).unwrap();
    step(&mut client, &mut run, SupervisorEvent::SocketClosed);
    step(&mut client, &mut run, SupervisorEvent::BackoffElapsed);
    let mut commands = commands_of(step(&mut client, &mut run, SupervisorEvent::Opened));
    assert_eq!(commands.try_recv().unwrap_err(), mpsc::error::TryRecvError::Empty);
    client.send(RelayMessage::Heartbeat).unwrap();
    assert!(matches!(commands.try_recv(), Ok(RelayMessage::Heartbeat)));
    assert!(matches!(old_commands.try_recv(), Ok(RelayMessage::HeartbeatAck)));
    assert_eq!(old_commands.try_recv().unwrap_err(), mpsc::error::TryRecvError::Disconnected);
}

#[test]
fn device_messages_put_nothing_on_the_command_queue() {
    let (mut client, _run, mut commands) = connected("ws://h/ws");
    client.connect_authenticated("token", "Desktop").unwrap();
    assert!(matches!(commands.try_recv(), Ok(RelayMessage::AuthConnect { .. })));
    assert!(matches!(
        client.send_device_message("d", "c", "e", "n"),
        DeviceMessageStep::Post { .. }
    ));
    assert_eq!(commands.try_recv().unwrap_err(), mpsc::error::TryRecvError::Empty);
}

#[test]
fn the_queue_of_a_connection_holds_sixty_four_commands() {
    let (mut client, _run, mut commands) = connected("ws://h/ws");
    for _ in 0..64 {
        client.send(RelayMessage::Heartbeat).unwrap();
    }
    assert_eq!(client.send(RelayMessage::Heartbeat), Err(RelayError::QueueFull));
    commands.try_recv().unwrap();
    client.send(RelayMessage::Heartbeat).unwrap();
    assert_eq!(client.send(RelayMessage::Heartbeat), Err(RelayError::QueueFull));
    drop(commands);
    let error = client.send(RelayMessage::Heartbeat).unwrap_err();
    assert_eq!(error, RelayError::QueueClosed);
    assert_eq!(error.message(), "Relay connection is closed");
    assert_eq!(QueueReply::Queued.into_result(), Ok(()));
}

#[test]
fn a_client_that_never_connected_refuses_commands() {
    let mut client = RelayClient::new();
    assert_eq!(client.connection_state(), ConnectionState::Disconnected);
    let error = client.send(RelayMessage::Heartbeat).unwrap_err();
    assert_eq!(error.message(), "Relay transport is not connected");
    assert_eq!(
        client.connect_authenticated("token", "device"),
        Err(RelayError::NotConnected)
    );
    assert!(client.lifecycle.reconnect_ctx.is_none());
}

#[test]
fn inbound_messages_become_the_events_they_stand_for() {
    let (client, run, _commands) = connected("ws://h/ws");
    let event = |msg: RelayMessage| client.lifecycle.dispatch(run.generation, msg);
    assert!(matches!(
        event(RelayMessage::Error { message: "m".into() }),
        Some(RelayEvent::Error { message }) if message == "m"
    ));
    assert!(matches!(
        event(RelayMessage::AuthOk { user_id: "u".into(), device_id: "d".into() }),
        Some(RelayEvent::AuthOk { user_id, device_id }) if user_id == "u" && device_id == "d"
    ));
    assert!(matches!(
        event(RelayMessage::AuthError { message: "m".into() }),
        Some(RelayEvent::AuthError { message }) if message == "m"
    ));
    assert!(matches!(
        event(RelayMessage::IncomingDeviceMessage {
            source_device_id: "s".into(),
            correlation_id: "c".into(),
            encrypted_data: "e".into(),
            nonce: "n".into(),
        }),
        Some(RelayEvent::DeviceMessageReceived {
            source_device_id,
            correlation_id,
            encrypted_data,
            nonce,
        }) if source_device_id == "s" && correlation_id == "c" && encrypted_data == "e"
            && nonce == "n"
    ));
    let devices = vec![DevicePresenceEntry { device_id: "d".into(), device_name: "Desk".into() }];
    assert!(matches!(
        event(RelayMessage::DevicePresence { devices }),
        Some(RelayEvent::DevicePresence { devices })
            if devices.len() == 1 && devices[0].device_id == "d" && devices[0].device_name == "Desk"
    ));
    assert!(event(RelayMessage::HeartbeatAck).is_none());
    assert!(event(RelayMessage::Heartbeat).is_none());
    assert!(event(RelayMessage::auth_connect("t", "n")).is_none());
    assert!(client
        .lifecycle
        .dispatch(run.generation + 1, RelayMessage::Error { message: "m".into() })
        .is_none());
}

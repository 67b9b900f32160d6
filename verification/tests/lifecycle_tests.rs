use mqtt_session::decode::DecodeOutcome;
use mqtt_session::lifecycle::{
    orchestrator_connect_options, send_request, state_text_of, subscribe_request,
    ConnectionState, LifecycleOrchestrator, SessionEvent,
};
use mqtt_session::message::MqttMessage;
use mqtt_session::qos::QoS;

#[test]
fn happy_path_state_sequence() {
    // Connect succeeds, subscribe succeeds: exactly Connecting, Subscribing,
    // Running.
    let mut seen: Vec<String> = Vec::new();
    let (mut orch, first) = LifecycleOrchestrator::new();
    seen.push(first);

    let step = orch.handle_event(SessionEvent::ConnectSucceeded);
    let request = step.subscribe.expect("connect success must issue the subscription");
    assert_eq!(request.filter, "command/inbox/#");
    assert_eq!(request.qos, QoS::QoS0);
    assert_eq!(request.timeout_secs, 5);
    seen.push(step.notify.expect("transition must be surfaced"));

    let step = orch.handle_event(SessionEvent::SubscribeSucceeded);
    assert!(step.subscribe.is_none());
    seen.push(step.notify.expect("transition must be surfaced"));

    assert_eq!(seen, vec!["Connecting", "Subscribing", "Running"]);
    assert_eq!(orch.state, ConnectionState::Running);
}

#[test]
fn connect_failure_state_sequence() {
    // Connect fails with "bad credentials": exactly Connecting then the
    // failure text, and no subscribe is ever attempted.
    let mut seen: Vec<String> = Vec::new();
    let (mut orch, first) = LifecycleOrchestrator::new();
    seen.push(first);

    let step = orch.handle_event(SessionEvent::ConnectFailed("bad credentials".to_string()));
    assert!(step.subscribe.is_none());
    seen.push(step.notify.expect("transition must be surfaced"));

    assert_eq!(seen, vec!["Connecting", "Failed to connect: bad credentials"]);
    assert_eq!(
        orch.state,
        ConnectionState::Disconnected("Failed to connect: bad credentials".to_string())
    );
}

#[test]
fn subscribe_failure_disconnects_with_prefixed_reason() {
    let (mut orch, _) = LifecycleOrchestrator::new();
    orch.handle_event(SessionEvent::ConnectSucceeded);
    let step = orch.handle_event(SessionEvent::SubscribeFailed("denied".to_string()));
    assert_eq!(step.notify.as_deref(), Some("Failed to subscribe: denied"));
    assert_eq!(
        orch.state,
        ConnectionState::Disconnected("Failed to subscribe: denied".to_string())
    );
}

#[test]
fn connection_lost_while_running_disconnects() {
    let (mut orch, _) = LifecycleOrchestrator::new();
    orch.handle_event(SessionEvent::ConnectSucceeded);
    orch.handle_event(SessionEvent::SubscribeSucceeded);
    assert_eq!(orch.state, ConnectionState::Running);

    let step = orch.handle_event(SessionEvent::ConnectionLost("network down".to_string()));
    assert_eq!(step.notify.as_deref(), Some("Disconnected: network down"));
    assert_eq!(
        orch.state,
        ConnectionState::Disconnected("Disconnected: network down".to_string())
    );
}

#[test]
fn connection_lost_applies_in_every_state() {
    for mk in [
        ConnectionState::Connecting,
        ConnectionState::Subscribing,
        ConnectionState::Running,
        ConnectionState::Disconnected("Disconnected: earlier".to_string()),
        ConnectionState::Stopped,
    ] {
        let (mut orch, _) = LifecycleOrchestrator::new();
        orch.state = mk;
        let step = orch.handle_event(SessionEvent::ConnectionLost("gone".to_string()));
        assert_eq!(step.notify.as_deref(), Some("Disconnected: gone"));
        assert_eq!(
            orch.state,
            ConnectionState::Disconnected("Disconnected: gone".to_string())
        );
    }
}

#[test]
fn stale_completion_changes_nothing() {
    let (mut orch, _) = LifecycleOrchestrator::new();
    orch.handle_event(SessionEvent::ConnectSucceeded);
    orch.handle_event(SessionEvent::SubscribeSucceeded);

    // A second connect completion answers no outstanding request.
    let step = orch.handle_event(SessionEvent::ConnectSucceeded);
    assert!(step.notify.is_none());
    assert!(step.subscribe.is_none());
    assert_eq!(orch.state, ConnectionState::Running);

    let step = orch.handle_event(SessionEvent::SubscribeFailed("late".to_string()));
    assert!(step.notify.is_none());
    assert_eq!(orch.state, ConnectionState::Running);
}

#[test]
fn shutdown_disconnects_exactly_once_when_connected() {
    let (mut orch, _) = LifecycleOrchestrator::new();
    orch.handle_event(SessionEvent::ConnectSucceeded);

    let (notify, disconnect) = orch.shutdown(true);
    assert_eq!(notify.as_deref(), Some("Stopped"));
    assert!(disconnect);
    assert_eq!(orch.state, ConnectionState::Stopped);

    // A second teardown must not issue a second disconnect.
    let (notify, disconnect) = orch.shutdown(true);
    assert!(notify.is_none());
    assert!(!disconnect);
}

#[test]
fn shutdown_without_connection_issues_no_disconnect() {
    let (mut orch, _) = LifecycleOrchestrator::new();
    let (notify, disconnect) = orch.shutdown(false);
    assert_eq!(notify.as_deref(), Some("Stopped"));
    assert!(!disconnect);
}

#[test]
fn handle_message_decodes_command_topic() {
    let (orch, _) = LifecycleOrchestrator::new();
    let msg = MqttMessage {
        topic: "command/inbox//abc".to_string(),
        payload: b"{\"kind\":\"ping\"}".to_vec(),
    };
    match orch.handle_message(&msg) {
        DecodeOutcome::Forwarded(c) => assert_eq!(c.kind, "ping"),
        other => panic!("expected a forwarded command, got {:?}", other),
    }
}

#[test]
fn handle_message_ignores_other_topics() {
    let (orch, _) = LifecycleOrchestrator::new();
    let msg = MqttMessage {
        topic: "telemetry/data".to_string(),
        payload: b"{\"kind\":\"ping\"}".to_vec(),
    };
    assert_eq!(orch.handle_message(&msg), DecodeOutcome::Ignored);
}

#[test]
fn send_request_uses_fixed_publish_policy() {
    let request = send_request("21.5".to_string());
    assert_eq!(request.topic, "sensor");
    assert_eq!(request.qos, QoS::QoS1);
    assert!(!request.retained);
    assert_eq!(request.payload, b"21.5".to_vec());
}

#[test]
fn orchestrator_connect_options_fixed_policy() {
    let options = orchestrator_connect_options("user".to_string(), "pass".to_string());
    assert_eq!(options.username.as_deref(), Some("user"));
    assert_eq!(options.password.as_deref(), Some("pass"));
    assert!(options.clean_session);
    assert!(options.reconnect);
    assert_eq!(options.keep_alive_interval_secs, Some(2));
    assert_eq!(options.timeout_secs, Some(5));
}

#[test]
fn state_text_of_every_state() {
    assert_eq!(state_text_of(&ConnectionState::Connecting), "Connecting");
    assert_eq!(state_text_of(&ConnectionState::Subscribing), "Subscribing");
    assert_eq!(state_text_of(&ConnectionState::Running), "Running");
    assert_eq!(
        state_text_of(&ConnectionState::Disconnected("Disconnected: x".to_string())),
        "Disconnected: x"
    );
    assert_eq!(state_text_of(&ConnectionState::Stopped), "Stopped");
}

#[test]
fn subscribe_request_is_fixed() {
    let request = subscribe_request();
    assert_eq!(request.filter, "command/inbox/#");
    assert_eq!(request.qos, QoS::QoS0);
    assert_eq!(request.timeout_secs, 5);
}

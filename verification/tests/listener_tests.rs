use finance::repository::db_listener::{
    heartbeat_statement, listen_command, listener_step, ListenerAction, ListenerEvent,
    ListenerState, NoopNotificationHandler, NotificationHandler, HEARTBEAT_INTERVAL_SECS,
};

#[test]
fn connect_then_subscribe_then_listen() {
    let (state, action) = listener_step(ListenerState::Connecting, ListenerEvent::ConnectSucceeded);
    assert_eq!(state, ListenerState::Subscribing);
    assert_eq!(action, ListenerAction::IssueSubscribe);

    let (state, action) = listener_step(state, ListenerEvent::SubscribeSucceeded);
    assert_eq!(state, ListenerState::Listening);
    assert_eq!(action, ListenerAction::Continue);
}

#[test]
fn connect_failure_is_terminal() {
    let (state, action) = listener_step(ListenerState::Connecting, ListenerEvent::ConnectFailed);
    assert_eq!(state, ListenerState::Failed);
    assert_eq!(action, ListenerAction::ReportFailure);
}

#[test]
fn subscribe_failure_is_terminal() {
    let (state, action) = listener_step(ListenerState::Subscribing, ListenerEvent::SubscribeFailed);
    assert_eq!(state, ListenerState::Failed);
    assert_eq!(action, ListenerAction::ReportFailure);
}

#[test]
fn notification_is_delivered_unchanged() {
    let event = ListenerEvent::NotificationReceived("accounts".to_string(), "id=4".to_string());
    let (state, action) = listener_step(ListenerState::Listening, event);
    assert_eq!(state, ListenerState::Listening);
    assert_eq!(
        action,
        ListenerAction::DeliverNotification("accounts".to_string(), "id=4".to_string())
    );
}

#[test]
fn other_messages_are_ignored() {
    let (state, action) = listener_step(ListenerState::Listening, ListenerEvent::OtherMessageReceived);
    assert_eq!(state, ListenerState::Listening);
    assert_eq!(action, ListenerAction::Continue);
}

#[test]
fn stream_end_is_reported_not_swallowed() {
    let (state, action) = listener_step(ListenerState::Listening, ListenerEvent::StreamEnded);
    assert_eq!(state, ListenerState::Failed);
    assert_eq!(action, ListenerAction::ReportFailure);
}

#[test]
fn heartbeat_cycle_and_failure() {
    let (state, action) = listener_step(ListenerState::Listening, ListenerEvent::HeartbeatDue);
    assert_eq!(state, ListenerState::Listening);
    assert_eq!(action, ListenerAction::SendHeartbeat);

    let (state, action) = listener_step(state, ListenerEvent::HeartbeatSucceeded);
    assert_eq!(state, ListenerState::Listening);
    assert_eq!(action, ListenerAction::Continue);

    let (state, action) = listener_step(state, ListenerEvent::HeartbeatFailed);
    assert_eq!(state, ListenerState::Failed);
    assert_eq!(action, ListenerAction::ReportFailure);
}

#[test]
fn out_of_place_events_change_nothing() {
    let (state, action) = listener_step(ListenerState::Connecting, ListenerEvent::HeartbeatDue);
    assert_eq!(state, ListenerState::Connecting);
    assert_eq!(action, ListenerAction::Continue);

    let (state, action) = listener_step(ListenerState::Failed, ListenerEvent::ConnectSucceeded);
    assert_eq!(state, ListenerState::Failed);
    assert_eq!(action, ListenerAction::Continue);
}

#[test]
fn listener_helpers() {
    assert_eq!(HEARTBEAT_INTERVAL_SECS, 10);
    assert_eq!(heartbeat_statement(), "SELECT 1");
    assert_eq!(listen_command("todo"), "LISTEN todo");
}

#[test]
fn default_handler_is_a_no_op() {
    let handler = NoopNotificationHandler;
    handler.on_notification_received("accounts", "payload");
}

use vstd::prelude::*;
use vstd::string::StringExecFns;

verus! {

/// The capability a collaborator registers to receive change
/// notifications; the listener's pump invokes it once per notification.
/// It must not block significantly: it runs on the pump path.
pub trait NotificationHandler {
    fn on_notification_received(&self, channel: &str, message: &str);
}

/// The default handler: deliberately a no-op. The invocation seam exists
/// so cache-invalidation logic can be attached later without touching
/// the listener's connection management; which policy to attach (full
/// invalidation or targeted refresh) is an open extension point.
pub struct NoopNotificationHandler;

impl NotificationHandler for NoopNotificationHandler {
    fn on_notification_received(&self, _channel: &str, _message: &str) {
    }
}

/// Where the change listener stands in its lifecycle.
#[derive(Debug, Clone, Copy, PartialEq, Eq, Structural)]
pub enum ListenerState {
    /// Opening the dedicated connection.
    Connecting,
    /// Issuing the subscribe command for the named channel.
    Subscribing,
    /// Pumping inbound messages while the heartbeat keeps the
    /// connection alive.
    Listening,
    /// Terminally failed. No retry or reconnect is attempted; the
    /// failure is reported rather than swallowed, so it stays
    /// monitorable.
    Failed,
}

/// What the listening connection just produced.
#[derive(Debug, PartialEq, Eq)]
pub enum ListenerEvent {
    ConnectSucceeded,
    ConnectFailed,
    SubscribeSucceeded,
    SubscribeFailed,
    /// An application-level notification: channel name and payload.
    NotificationReceived(String, String),
    /// A protocol message that is not a notification.
    OtherMessageReceived,
    /// The inbound message stream ended or errored.
    StreamEnded,
    HeartbeatDue,
    HeartbeatSucceeded,
    HeartbeatFailed,
}

/// What the connection runner must do next.
#[derive(Debug, PartialEq, Eq)]
pub enum ListenerAction {
    /// Send the subscribe command for the channel.
    IssueSubscribe,
    /// Invoke the registered handler with the channel name and payload,
    /// both passed through unchanged.
    DeliverNotification(String, String),
    /// Issue the trivial keep-alive statement.
    SendHeartbeat,
    /// Report the terminal failure; the listener is over.
    ReportFailure,
    /// Nothing to do beyond awaiting the next event.
    Continue,
}

/// The listener's transition table. Connect and subscribe failures,
/// heartbeat failures and the end of the message stream are all
/// terminal: the listener performs no retry, backoff or reconnect. A
/// notification in the listening state is delivered to the handler with
/// its channel and payload unchanged; every other message is ignored.
/// An event that cannot arise in the current state changes nothing.
pub open spec fn spec_listener_step(state: ListenerState, event: ListenerEvent) -> (
    ListenerState,
    ListenerAction,
) {
    match (state, event) {
        (ListenerState::Connecting, ListenerEvent::ConnectSucceeded) => (
            ListenerState::Subscribing,
            ListenerAction::IssueSubscribe,
        ),
        (ListenerState::Connecting, ListenerEvent::ConnectFailed) => (
            ListenerState::Failed,
            ListenerAction::ReportFailure,
        ),
        (ListenerState::Subscribing, ListenerEvent::SubscribeSucceeded) => (
            ListenerState::Listening,
            ListenerAction::Continue,
        ),
        (ListenerState::Subscribing, ListenerEvent::SubscribeFailed) => (
            ListenerState::Failed,
            ListenerAction::ReportFailure,
        ),
        (ListenerState::Listening, ListenerEvent::NotificationReceived(channel, payload)) => (
            ListenerState::Listening,
            ListenerAction::DeliverNotification(channel, payload),
        ),
        (ListenerState::Listening, ListenerEvent::OtherMessageReceived) => (
            ListenerState::Listening,
            ListenerAction::Continue,
        ),
        (ListenerState::Listening, ListenerEvent::StreamEnded) => (
            ListenerState::Failed,
            ListenerAction::ReportFailure,
        ),
        (ListenerState::Listening, ListenerEvent::HeartbeatDue) => (
            ListenerState::Listening,
            ListenerAction::SendHeartbeat,
        ),
        (ListenerState::Listening, ListenerEvent::HeartbeatSucceeded) => (
            ListenerState::Listening,
            ListenerAction::Continue,
        ),
        (ListenerState::Listening, ListenerEvent::HeartbeatFailed) => (
            ListenerState::Failed,
            ListenerAction::ReportFailure,
        ),
        (s, _) => (s, ListenerAction::Continue),
    }
}

/// Executes one step of the transition table.
pub fn listener_step(state: ListenerState, event: ListenerEvent) -> (r: (
    ListenerState,
    ListenerAction,
))
    ensures
        r == spec_listener_step(state, event),
{
    match (state, event) {
        (ListenerState::Connecting, ListenerEvent::ConnectSucceeded) => (
            ListenerState::Subscribing,
            ListenerAction::IssueSubscribe,
        ),
        (ListenerState::Connecting, ListenerEvent::ConnectFailed) => (
            ListenerState::Failed,
            ListenerAction::ReportFailure,
        ),
        (ListenerState::Subscribing, ListenerEvent::SubscribeSucceeded) => (
            ListenerState::Listening,
            ListenerAction::Continue,
        ),
        (ListenerState::Subscribing, ListenerEvent::SubscribeFailed) => (
            ListenerState::Failed,
            ListenerAction::ReportFailure,
        ),
        (ListenerState::Listening, ListenerEvent::NotificationReceived(channel, payload)) => (
            ListenerState::Listening,
            ListenerAction::DeliverNotification(channel, payload),
        ),
        (ListenerState::Listening, ListenerEvent::OtherMessageReceived) => (
            ListenerState::Listening,
            ListenerAction::Continue,
        ),
        (ListenerState::Listening, ListenerEvent::StreamEnded) => (
            ListenerState::Failed,
            ListenerAction::ReportFailure,
        ),
        (ListenerState::Listening, ListenerEvent::HeartbeatDue) => (
            ListenerState::Listening,
            ListenerAction::SendHeartbeat,
        ),
        (ListenerState::Listening, ListenerEvent::HeartbeatSucceeded) => (
            ListenerState::Listening,
            ListenerAction::Continue,
        ),
        (ListenerState::Listening, ListenerEvent::HeartbeatFailed) => (
            ListenerState::Failed,
            ListenerAction::ReportFailure,
        ),
        (s, _) => (s, ListenerAction::Continue),
    }
}

/// The cadence of the keep-alive probe, in seconds.
pub const HEARTBEAT_INTERVAL_SECS: u64 = 10;

/// The trivial keep-alive statement the heartbeat issues over the
/// listening connection.
pub fn heartbeat_statement() -> (r: String)
    ensures
        r@ == "SELECT 1"@,
{
    "SELECT 1".to_owned()
}

/// The subscribe command for a named notification channel.
pub fn listen_command(channel: &str) -> (r: String)
    ensures
        r@ == "LISTEN "@ + channel@,
{
    let mut command = "LISTEN ".to_owned();
    command.append(channel);
    command
}

} // verus!

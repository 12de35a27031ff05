use solana_buyer::websocket::{
    logs_subscription_request, ConnectionState, Initialized, LinkAction, LinkError, LinkEvent,
    WebSocket, WebSocketConfig,
};

fn ready(retries: u8) -> WebSocket<Initialized> {
    let config = WebSocketConfig { num_retries: retries, url: "wss://example.invalid".to_string() };
    let mut ws = WebSocket::create_new_logs_subscription(config, "7YttLkHDoNj9wyDur5pM1ejNaAvT9X4eqaYcHQqtj2G5");
    assert_eq!(ws.state(), ConnectionState::Connecting);
    assert_eq!(ws.on_connect_event(LinkEvent::Connected), LinkAction::Subscribe);
    assert_eq!(ws.on_connect_event(LinkEvent::SubscribeAcked), LinkAction::ReadNext);
    assert!(ws.is_ready());
    WebSocket::from_uninitialized(ws)
}

#[test]
fn subscription_request_text() {
    assert_eq!(
        logs_subscription_request("7YttLkHDoNj9wyDur5pM1ejNaAvT9X4eqaYcHQqtj2G5"),
        "{\"jsonrpc\":\"2.0\",\"id\":1,\"method\":\"logsSubscribe\",\"params\":[{\"mentions\":[\"7YttLkHDoNj9wyDur5pM1ejNaAvT9X4eqaYcHQqtj2G5\"]},{\"commitment\":\"confirmed\"}]}"
    );
}

#[test]
fn read_error_when_failures_reach_budget() {
    let mut ws = ready(5);
    assert_eq!(ws.retries_left(), 5);
    assert_eq!(ws.read(LinkEvent::TransportLost), LinkAction::Connect);
    assert_eq!(ws.read(LinkEvent::Connected), LinkAction::Subscribe);
    assert_eq!(ws.read(LinkEvent::SubscribeAcked), LinkAction::ReadNext);
    assert_eq!(ws.read(LinkEvent::MessageMalformed), LinkAction::ReadNext);
    assert_eq!(ws.read(LinkEvent::TransportLost), LinkAction::Connect);
    assert_eq!(ws.read(LinkEvent::ConnectFailed), LinkAction::Connect);
    assert_eq!(ws.retries_left(), 1);
    assert_eq!(ws.read(LinkEvent::ConnectFailed), LinkAction::Fail(LinkError::ReadError));
    assert_eq!(ws.retries_left(), 0);
    assert_eq!(ws.state(), ConnectionState::Failed);
    assert_eq!(ws.read(LinkEvent::MessageParsed), LinkAction::Fail(LinkError::ReadError));
}

#[test]
fn success_restores_the_budget() {
    let mut ws = ready(3);
    assert_eq!(ws.read(LinkEvent::MessageMalformed), LinkAction::ReadNext);
    assert_eq!(ws.read(LinkEvent::MessageMalformed), LinkAction::ReadNext);
    assert_eq!(ws.retries_left(), 1);
    assert_eq!(ws.read(LinkEvent::MessageParsed), LinkAction::Deliver);
    assert_eq!(ws.retries_left(), 3);
    assert_eq!(ws.read(LinkEvent::MessageParsed), LinkAction::Deliver);
    assert_eq!(ws.retries_left(), 3);
    assert_eq!(ws.read(LinkEvent::MessageMalformed), LinkAction::ReadNext);
    assert_eq!(ws.read(LinkEvent::MessageMalformed), LinkAction::ReadNext);
    assert_eq!(ws.read(LinkEvent::MessageMalformed), LinkAction::Fail(LinkError::ReadError));
}

#[test]
fn connect_error_when_first_connection_runs_out() {
    let config = WebSocketConfig { num_retries: 2, url: "wss://example.invalid".to_string() };
    let mut ws = WebSocket::create_new_logs_subscription(config, "x");
    assert_eq!(ws.on_connect_event(LinkEvent::ConnectFailed), LinkAction::Connect);
    assert_eq!(ws.on_connect_event(LinkEvent::Connected), LinkAction::Subscribe);
    assert_eq!(ws.on_connect_event(LinkEvent::SubscribeFailed), LinkAction::Fail(LinkError::ConnectError));
    assert!(!ws.is_ready());
}

#[test]
fn single_retry_budget_fails_on_first_failure() {
    let mut ws = ready(1);
    assert_eq!(ws.read(LinkEvent::TransportLost), LinkAction::Fail(LinkError::ReadError));
}

#[test]
fn subscription_request_escapes_the_mention() {
    assert_eq!(
        logs_subscription_request("a\"b\\c\n\u{1f}é"),
        "{\"jsonrpc\":\"2.0\",\"id\":1,\"method\":\"logsSubscribe\",\"params\":[{\"mentions\":[\"a\\\"b\\\\c\\u000a\\u001fé\"]},{\"commitment\":\"confirmed\"}]}"
    );
    let parsed: serde_json::Value =
        serde_json::from_str(&logs_subscription_request("x\"y\\z\t")).expect("valid JSON");
    assert_eq!(parsed["params"][0]["mentions"][0], "x\"y\\z\t");
}

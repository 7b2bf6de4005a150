use serde_json::Value;
use terrafusion_core::clock::Timestamp;
use terrafusion_core::mcp::client::{MCPClient, RequestError, REQUEST_TIMEOUT_SECS};
use terrafusion_core::mcp::protocol::{MCPMessage, MCPResponseMessage, ResponseStatus};

fn text(s: &str) -> String {
    s.to_string()
}

fn message(id: &str, content_type: &str) -> MCPMessage {
    MCPMessage::with_identity(
        text(id),
        Timestamp::new(1, 0),
        text("caller"),
        text("worker"),
        text(content_type),
        Value::Null,
    )
}

fn response_to(id: &str) -> MCPResponseMessage {
    MCPResponseMessage {
        in_response_to: text(id),
        status: ResponseStatus::Success,
        message: message("reply", "result"),
        error: None,
    }
}

#[test]
fn the_deadline_is_thirty_seconds() {
    assert_eq!(REQUEST_TIMEOUT_SECS, 30);
}

#[test]
fn new_client_awaits_nothing() {
    let client = MCPClient::new(text("c-1"));
    assert_eq!(client.client_id(), "c-1");
    assert!(!client.is_pending(&text("req-1")));
    assert!(!client.is_pending(&text("")));
}

#[test]
fn request_is_recorded_and_handed_back_unchanged() {
    let mut client = MCPClient::new(text("c-1"));
    let outgoing = client.send_request(message("req-1", "question"));
    assert_eq!(outgoing.message_id, "req-1");
    assert_eq!(outgoing.recipient, "worker");
    assert!(client.is_pending(&text("req-1")));
    assert!(!client.is_pending(&text("req-2")));
    client.send_request(message("req-1", "question"));
    assert!(client.is_pending(&text("req-1")));
    assert!(client.handle_response(response_to("req-1")).is_some());
    assert!(!client.is_pending(&text("req-1")));
}

#[test]
fn matching_response_is_returned_exactly_once() {
    let mut client = MCPClient::new(text("c-1"));
    client.send_request(message("req-1", "question"));
    let matched = client.handle_response(response_to("req-1"));
    let matched = matched.expect("the response matches the pending request");
    assert_eq!(matched.in_response_to, "req-1");
    assert_eq!(matched.message.message_id, "reply");
    assert!(!client.is_pending(&text("req-1")));
    let outcome = client.complete_request(&text("req-1"), Some(matched));
    assert_eq!(outcome.map(|r| r.in_response_to), Ok(text("req-1")));
    assert!(client.handle_response(response_to("req-1")).is_none());
    assert!(!client.is_pending(&text("req-1")));
}

#[test]
fn timeout_removes_the_request_and_a_late_response_is_dropped() {
    let mut client = MCPClient::new(text("c-1"));
    client.send_request(message("req-1", "question"));
    client.send_request(message("req-2", "question"));
    let outcome = client.complete_request(&text("req-1"), None);
    assert_eq!(outcome.err(), Some(RequestError::Timeout));
    assert!(!client.is_pending(&text("req-1")));
    assert!(client.is_pending(&text("req-2")));
    assert!(client.handle_response(response_to("req-1")).is_none());
    assert!(client.is_pending(&text("req-2")));
}

#[test]
fn response_to_an_unknown_request_is_dropped() {
    let mut client = MCPClient::new(text("c-1"));
    client.send_request(message("req-1", "question"));
    assert!(client.handle_response(response_to("other")).is_none());
    assert!(client.is_pending(&text("req-1")));
}

#[test]
fn incoming_messages_are_told_apart_by_their_content_type() {
    let mut client = MCPClient::new(text("c-1"));
    client.send_request(message("req-1", "question"));
    let plain = message("in-1", "notice");
    assert!(client.process_incoming(&plain, Some(response_to("req-1"))).is_none());
    assert!(client.is_pending(&text("req-1")));
    let announced = message("in-2", "response");
    assert!(client.process_incoming(&announced, None).is_none());
    assert!(client.is_pending(&text("req-1")));
    let matched = client.process_incoming(&announced, Some(response_to("req-1")));
    assert_eq!(matched.map(|r| r.in_response_to), Some(text("req-1")));
    assert!(!client.is_pending(&text("req-1")));
    assert!(client.process_incoming(&announced, Some(response_to("req-1"))).is_none());
}

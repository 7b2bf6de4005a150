use serde_json::Value;
use terrafusion_core::agents::base::{
    create_error_response, create_success_response, error_response_with, success_response_with,
    AgentHealth, HealthStatus, DEFAULT_AGENT_VERSION,
};
use terrafusion_core::clock::Timestamp;
use terrafusion_core::mcp::protocol::{MCPMessage, MessagePriority, ResponseStatus};

fn text(s: &str) -> String {
    s.to_string()
}

fn request() -> MCPMessage {
    MCPMessage::with_identity(
        text("req-1"),
        Timestamp::new(1, 0),
        text("caller"),
        text("worker"),
        text("question"),
        Value::Null,
    )
    .with_priority(MessagePriority::High)
    .with_expiry(Timestamp::new(9, 9))
}

#[test]
fn health_reports_carry_their_status_and_message() {
    let healthy = AgentHealth::healthy("all good");
    assert_eq!(healthy.status, HealthStatus::Healthy);
    assert_eq!(healthy.message, "all good");
    assert!(healthy.metrics.is_empty());
    assert!(healthy.last_activity.secs > 1_600_000_000);
    let warning = AgentHealth::warning("slow");
    assert_eq!(warning.status, HealthStatus::Warning);
    assert_eq!(warning.message, "slow");
    let critical = AgentHealth::critical("down");
    assert_eq!(critical.status, HealthStatus::Critical);
    assert_eq!(critical.message, "down");
    let unknown = AgentHealth::with_status(HealthStatus::Unknown, "?", Timestamp::new(3, 4));
    assert_eq!(unknown.status, HealthStatus::Unknown);
    assert_eq!(unknown.last_activity, Timestamp { secs: 3, nanos: 4 });
    assert!(unknown.metrics.is_empty());
}

#[test]
fn success_response_is_addressed_back_to_the_sender() {
    let original = request();
    let response = success_response_with(
        "worker",
        &original,
        "answer",
        Value::Bool(true),
        text("reply-1"),
        Timestamp::new(2, 0),
        text("2024-01-01T00:00:00+00:00"),
    );
    assert_eq!(response.in_response_to, "req-1");
    assert_eq!(response.status, ResponseStatus::Success);
    assert_eq!(response.error, None);
    let reply = &response.message;
    assert_eq!(reply.message_id, "reply-1");
    assert_eq!(reply.timestamp, Timestamp { secs: 2, nanos: 0 });
    assert_eq!(reply.sender, "worker");
    assert_eq!(reply.recipient, "caller");
    assert_eq!(reply.content_type, "answer");
    assert_eq!(reply.content, Value::Bool(true));
    assert_eq!(reply.priority, MessagePriority::High);
    assert_eq!(reply.expires_at, None);
    assert_eq!(reply.metadata.get(&text("agent_version")), Some(text("1.0.0")));
    assert_eq!(
        reply.metadata.get(&text("processed_at")),
        Some(text("2024-01-01T00:00:00+00:00"))
    );
    assert_eq!(reply.metadata.get(&text("other")), None);
    assert_eq!(DEFAULT_AGENT_VERSION, "1.0.0");
}

#[test]
fn success_response_is_stamped_by_the_clock() {
    let original = request();
    let response = create_success_response("worker", &original, "answer", Value::Null);
    assert_eq!(response.in_response_to, "req-1");
    assert_eq!(response.status, ResponseStatus::Success);
    assert_eq!(response.message.recipient, "caller");
    assert_eq!(response.message.message_id.len(), 36);
    assert_ne!(response.message.message_id, original.message_id);
    assert!(response.message.timestamp.secs > 1_600_000_000);
    let processed_at = response
        .message
        .metadata
        .get(&text("processed_at"))
        .expect("the processing time is recorded");
    assert!(processed_at.contains('T'));
    assert!(processed_at.len() >= 20);
    assert_eq!(response.message.metadata.get(&text("agent_version")), Some(text("1.0.0")));
}

#[test]
fn error_response_names_the_failure() {
    let original = request();
    let response =
        error_response_with("worker", &original, "bad input", text("reply-2"), Timestamp::new(3, 0));
    assert_eq!(response.in_response_to, "req-1");
    assert_eq!(response.status, ResponseStatus::Error);
    assert_eq!(response.error, Some(text("bad input")));
    let reply = &response.message;
    assert_eq!(reply.message_id, "reply-2");
    assert_eq!(reply.sender, "worker");
    assert_eq!(reply.recipient, "caller");
    assert_eq!(reply.content_type, "error");
    assert_eq!(reply.priority, MessagePriority::High);
    assert_eq!(reply.expires_at, None);
    assert!(reply.metadata.insertions().is_empty());
    let mut expected = serde_json::Map::new();
    expected.insert(text("error"), Value::String(text("bad input")));
    assert_eq!(reply.content, Value::Object(expected));
}

#[test]
fn error_response_gets_a_fresh_id() {
    let original = request();
    let first = create_error_response("worker", &original, "bad input");
    let second = create_error_response("worker", &original, "bad input");
    assert_ne!(first.message.message_id, second.message.message_id);
    assert_eq!(first.status, ResponseStatus::Error);
    assert_eq!(first.error, Some(text("bad input")));
    assert_eq!(first.message.content_type, "error");
    assert_eq!(first.message.content.get("error"), Some(&Value::String(text("bad input"))));
}

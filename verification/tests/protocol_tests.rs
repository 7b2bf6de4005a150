use serde_json::Value;
use terrafusion_core::clock::Timestamp;
use terrafusion_core::mcp::protocol::{MCPMessage, MCPResponseMessage, MessagePriority, ResponseStatus};
use terrafusion_core::text_map::TextMap;

fn text(s: &str) -> String {
    s.to_string()
}

fn sample(id: &str, recipient: &str) -> MCPMessage {
    MCPMessage::with_identity(
        text(id),
        Timestamp::new(1_700_000_000, 5),
        text("alice"),
        text(recipient),
        text("greeting"),
        Value::String(text("hello")),
    )
}

#[test]
fn new_message_has_defaults() {
    let m = MCPMessage::new(text("alice"), text("bob"), text("greeting"), Value::Bool(true));
    assert_eq!(m.sender, "alice");
    assert_eq!(m.recipient, "bob");
    assert_eq!(m.content_type, "greeting");
    assert_eq!(m.content, Value::Bool(true));
    assert_eq!(m.priority, MessagePriority::Normal);
    assert_eq!(m.expires_at, None);
    assert!(m.metadata.insertions().is_empty());
    assert!(!m.is_expired());
}

#[test]
fn new_message_id_is_a_hyphenated_uuid() {
    let m = MCPMessage::new(text("a"), text("b"), text("t"), Value::Null);
    assert_eq!(m.message_id.len(), 36);
    assert_eq!(m.message_id.matches('-').count(), 4);
}

#[test]
fn new_messages_have_different_ids() {
    let first = MCPMessage::new(text("a"), text("b"), text("t"), Value::Null);
    let second = MCPMessage::new(text("a"), text("b"), text("t"), Value::Null);
    let third = MCPMessage::new(text("a"), text("b"), text("t"), Value::Null);
    assert_ne!(first.message_id, second.message_id);
    assert_ne!(first.message_id, third.message_id);
    assert_ne!(second.message_id, third.message_id);
}

#[test]
fn new_message_is_stamped_with_the_clock() {
    let m = MCPMessage::new(text("a"), text("b"), text("t"), Value::Null);
    assert!(m.timestamp.secs > 1_600_000_000);
    assert!(m.timestamp.nanos < 2_000_000_000);
}

#[test]
fn with_identity_keeps_what_it_is_given() {
    let m = sample("m-1", "bob");
    assert_eq!(m.message_id, "m-1");
    assert_eq!(m.timestamp, Timestamp { secs: 1_700_000_000, nanos: 5 });
    assert_eq!(m.sender, "alice");
    assert_eq!(m.recipient, "bob");
    assert_eq!(m.content_type, "greeting");
    assert_eq!(m.content, Value::String(text("hello")));
    assert_eq!(m.priority, MessagePriority::Normal);
    assert_eq!(m.expires_at, None);
}

#[test]
fn default_priority_is_normal() {
    assert_eq!(MessagePriority::default(), MessagePriority::Normal);
}

#[test]
fn builders_change_one_field_each() {
    let m = sample("m-1", "bob")
        .with_priority(MessagePriority::Critical)
        .with_expiry(Timestamp::new(10, 0))
        .add_metadata(text("trace"), text("abc"));
    assert_eq!(m.priority, MessagePriority::Critical);
    assert_eq!(m.expires_at, Some(Timestamp { secs: 10, nanos: 0 }));
    assert_eq!(m.metadata.get(&text("trace")), Some(text("abc")));
    assert_eq!(m.message_id, "m-1");
    assert_eq!(m.sender, "alice");
    assert_eq!(m.recipient, "bob");
    assert_eq!(m.content, Value::String(text("hello")));
}

#[test]
fn text_map_keeps_the_latest_value_of_a_key() {
    let mut meta = TextMap::new();
    assert_eq!(meta.get(&text("k")), None);
    meta.insert(text("k"), text("one"));
    meta.insert(text("other"), text("x"));
    meta.insert(text("k"), text("two"));
    assert_eq!(meta.get(&text("k")), Some(text("two")));
    assert_eq!(meta.get(&text("other")), Some(text("x")));
    assert_eq!(meta.get(&text("missing")), None);
    let copy = meta.duplicate();
    assert_eq!(copy.get(&text("k")), Some(text("two")));
    assert_eq!(copy.get(&text("other")), Some(text("x")));
}

#[test]
fn text_map_insertions_replay_to_the_same_map() {
    let mut meta = TextMap::new();
    meta.insert(text("a"), text("1"));
    meta.insert(text("a"), text("2"));
    let mut replayed = std::collections::HashMap::new();
    for entry in meta.insertions() {
        replayed.insert(entry.key.clone(), entry.value.clone());
    }
    assert_eq!(replayed.len(), 1);
    assert_eq!(replayed.get("a"), Some(&text("2")));
}

#[test]
fn expiry_is_strict() {
    let m = sample("m-1", "bob").with_expiry(Timestamp::new(100, 500));
    assert!(!m.is_expired_at(Timestamp::new(99, 999_999_999)));
    assert!(!m.is_expired_at(Timestamp::new(100, 499)));
    assert!(!m.is_expired_at(Timestamp::new(100, 500)));
    assert!(m.is_expired_at(Timestamp::new(100, 501)));
    assert!(m.is_expired_at(Timestamp::new(101, 0)));
}

#[test]
fn message_without_expiry_never_expires() {
    let m = sample("m-1", "bob");
    assert!(!m.is_expired_at(Timestamp::new(i64::MAX, u32::MAX)));
    assert!(!m.is_expired());
}

#[test]
fn expiry_is_held_against_the_clock() {
    let past = sample("m-1", "bob").with_expiry(Timestamp::new(0, 0));
    assert!(past.is_expired());
    let future = sample("m-2", "bob").with_expiry(Timestamp::new(i64::MAX, 0));
    assert!(!future.is_expired());
}

#[test]
fn timestamps_compare_by_seconds_then_nanoseconds() {
    let a = Timestamp::new(5, 10);
    assert!(Timestamp::new(6, 0).later_than(&a));
    assert!(Timestamp::new(5, 11).later_than(&a));
    assert!(!Timestamp::new(5, 10).later_than(&a));
    assert!(!Timestamp::new(4, 999).later_than(&a));
    assert!(Timestamp::new(-1, 0).later_than(&Timestamp::new(-2, 999_999_999)));
}

#[test]
fn duplicate_is_equal_in_every_field() {
    let m = sample("m-1", "bob")
        .with_priority(MessagePriority::High)
        .with_expiry(Timestamp::new(7, 7))
        .add_metadata(text("k"), text("v"));
    let copy = m.duplicate();
    assert_eq!(copy.message_id, m.message_id);
    assert_eq!(copy.timestamp, m.timestamp);
    assert_eq!(copy.sender, m.sender);
    assert_eq!(copy.recipient, m.recipient);
    assert_eq!(copy.content_type, m.content_type);
    assert_eq!(copy.content, m.content);
    assert_eq!(copy.priority, m.priority);
    assert_eq!(copy.expires_at, m.expires_at);
    assert_eq!(copy.metadata.get(&text("k")), Some(text("v")));
}

#[test]
fn readdressing_changes_the_recipient_only() {
    let m = sample("m-1", "").add_metadata(text("k"), text("v"));
    let copy = m.readdressed_to(text("carol"));
    assert_eq!(copy.recipient, "carol");
    assert_eq!(copy.message_id, "m-1");
    assert_eq!(copy.sender, "alice");
    assert_eq!(copy.content_type, "greeting");
    assert_eq!(copy.content, Value::String(text("hello")));
    assert_eq!(copy.metadata.get(&text("k")), Some(text("v")));
    assert_eq!(m.recipient, "");
}

#[test]
fn response_carries_its_correlation_id() {
    let request = sample("req-1", "worker");
    let response = MCPResponseMessage {
        in_response_to: request.message_id.clone(),
        status: ResponseStatus::Pending,
        message: sample("reply-1", "alice"),
        error: None,
    };
    assert_eq!(response.in_response_to, "req-1");
    assert_eq!(response.status, ResponseStatus::Pending);
    assert_ne!(ResponseStatus::Timeout, ResponseStatus::Success);
}

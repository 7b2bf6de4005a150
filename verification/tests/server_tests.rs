use serde_json::Value;
use terrafusion_core::clock::Timestamp;
use terrafusion_core::mcp::protocol::MCPMessage;
use terrafusion_core::mcp::server::{MCPServer, RouteStep, RouterError, ServerStats};

fn text(s: &str) -> String {
    s.to_string()
}

fn message(id: &str, recipient: &str) -> MCPMessage {
    MCPMessage::with_identity(
        text(id),
        Timestamp::new(1_000, 0),
        text("sender"),
        text(recipient),
        text("work"),
        Value::String(text(id)),
    )
}

const NOW: Timestamp = Timestamp { secs: 2_000, nanos: 0 };

#[test]
fn new_server_is_empty() {
    let server = MCPServer::new("hub");
    assert_eq!(server.server_id(), "hub");
    assert_eq!(
        server.get_stats(),
        ServerStats { messages_sent: 0, messages_received: 0, active_clients: 0, errors: 0 }
    );
    assert_eq!(ServerStats::default(), server.get_stats());
    assert!(server.get_message_history(None).is_empty());
    assert_eq!(server.awaiting_deliveries(), 0);
    assert_eq!(server.channel_of("anyone"), None);
}

#[test]
fn registration_counts_active_clients() {
    let mut server = MCPServer::new("hub");
    server.register_client(text("a"), 1);
    assert_eq!(server.get_stats().active_clients, 1);
    server.register_client(text("b"), 2);
    assert_eq!(server.get_stats().active_clients, 2);
    assert_eq!(server.channel_of("a"), Some(1));
    assert_eq!(server.channel_of("b"), Some(2));
    server.unregister_client("a");
    assert_eq!(server.get_stats().active_clients, 1);
    assert_eq!(server.channel_of("a"), None);
    server.unregister_client("never-there");
    assert_eq!(server.get_stats().active_clients, 1);
}

#[test]
fn registering_twice_replaces_the_channel() {
    let mut server = MCPServer::new("hub");
    server.register_client(text("a"), 1);
    server.register_client(text("a"), 9);
    assert_eq!(server.get_stats().active_clients, 1);
    assert_eq!(server.channel_of("a"), Some(9));
}

#[test]
fn route_forwards_one_copy_to_a_registered_recipient() {
    let mut server = MCPServer::new("hub");
    server.register_client(text("a"), 41);
    match server.route_message_at(message("m-1", "a"), NOW) {
        RouteStep::Forward(delivery) => {
            assert_eq!(delivery.channel, 41);
            assert_eq!(delivery.message.message_id, "m-1");
            assert_eq!(delivery.message.recipient, "a");
            assert_eq!(delivery.message.content, Value::String(text("m-1")));
        }
        other => panic!("expected a forward, got {:?}", other),
    }
    assert_eq!(server.awaiting_deliveries(), 1);
    assert_eq!(server.get_stats().messages_sent, 0);
    assert_eq!(server.record_delivery(true), Ok(()));
    assert_eq!(server.awaiting_deliveries(), 0);
    assert_eq!(server.get_stats().messages_sent, 1);
    assert_eq!(server.get_stats().errors, 0);
    assert_eq!(server.get_message_history(None).len(), 1);
}

#[test]
fn routes_to_one_recipient_keep_their_order() {
    let mut server = MCPServer::new("hub");
    server.register_client(text("a"), 7);
    let mut forwarded = Vec::new();
    for id in ["m-1", "m-2", "m-3"] {
        if let RouteStep::Forward(delivery) = server.route_message_at(message(id, "a"), NOW) {
            assert_eq!(delivery.channel, 7);
            forwarded.push(delivery.message.message_id);
        }
    }
    assert_eq!(forwarded, vec![text("m-1"), text("m-2"), text("m-3")]);
    let logged: Vec<String> =
        server.get_message_history(None).into_iter().map(|m| m.message_id).collect();
    assert_eq!(logged, vec![text("m-1"), text("m-2"), text("m-3")]);
}

#[test]
fn closed_channel_is_counted_and_handed_to_the_caller() {
    let mut server = MCPServer::new("hub");
    server.register_client(text("a"), 1);
    assert!(matches!(server.route_message_at(message("m-1", "a"), NOW), RouteStep::Forward(_)));
    assert_eq!(server.record_delivery(false), Err(RouterError::SendFailure));
    assert_eq!(server.get_stats().errors, 1);
    assert_eq!(server.get_stats().messages_sent, 0);
    assert_eq!(server.awaiting_deliveries(), 0);
}

#[test]
fn unknown_recipient_counts_one_error_and_raises_nothing() {
    let mut server = MCPServer::new("hub");
    server.register_client(text("a"), 1);
    let step = server.route_message_at(message("m-1", "nobody"), NOW);
    assert!(matches!(step, RouteStep::UnknownRecipient));
    assert_eq!(
        server.get_stats(),
        ServerStats { messages_sent: 0, messages_received: 0, active_clients: 1, errors: 1 }
    );
    assert_eq!(server.awaiting_deliveries(), 0);
    assert_eq!(server.get_message_history(None).len(), 1);
    let step = server.route_message_at(message("m-2", "nobody"), NOW);
    assert!(matches!(step, RouteStep::UnknownRecipient));
    assert_eq!(server.get_stats().errors, 2);
}

#[test]
fn expired_message_is_dropped_without_a_trace() {
    let mut server = MCPServer::new("hub");
    server.register_client(text("a"), 1);
    let expired = message("m-1", "a").with_expiry(Timestamp::new(1_999, 999_999_999));
    assert!(matches!(server.route_message_at(expired, NOW), RouteStep::Expired));
    assert_eq!(
        server.get_stats(),
        ServerStats { messages_sent: 0, messages_received: 0, active_clients: 1, errors: 0 }
    );
    assert!(server.get_message_history(None).is_empty());
    assert_eq!(server.awaiting_deliveries(), 0);
    let alive = message("m-2", "a").with_expiry(NOW);
    assert!(matches!(server.route_message_at(alive, NOW), RouteStep::Forward(_)));
}

#[test]
fn expired_message_to_unknown_recipient_is_no_error() {
    let mut server = MCPServer::new("hub");
    let expired = message("m-1", "nobody").with_expiry(Timestamp::new(0, 0));
    assert!(matches!(server.route_message_at(expired, NOW), RouteStep::Expired));
    assert_eq!(server.get_stats().errors, 0);
}

#[test]
fn route_by_the_clock_drops_what_expired_long_ago() {
    let mut server = MCPServer::new("hub");
    server.register_client(text("a"), 1);
    let expired = message("m-1", "a").with_expiry(Timestamp::new(0, 0));
    assert!(matches!(server.route_message(expired), RouteStep::Expired));
    let alive = message("m-2", "a").with_expiry(Timestamp::new(i64::MAX, 0));
    assert!(matches!(server.route_message(alive), RouteStep::Forward(_)));
    assert!(matches!(server.route_message(message("m-3", "a")), RouteStep::Forward(_)));
    assert_eq!(server.get_message_history(None).len(), 2);
}

#[test]
fn broadcast_reaches_every_client_with_its_own_copy() {
    let mut server = MCPServer::new("hub");
    server.register_client(text("A"), 1);
    server.register_client(text("B"), 2);
    let m = message("M", "");
    let mut planned = server.broadcast_message_at(m, NOW);
    planned.sort_by(|x, y| x.message.recipient.cmp(&y.message.recipient));
    assert_eq!(planned.len(), 2);
    assert_eq!(planned[0].message.recipient, "A");
    assert_eq!(planned[0].channel, 1);
    assert_eq!(planned[1].message.recipient, "B");
    assert_eq!(planned[1].channel, 2);
    for delivery in &planned {
        assert_eq!(delivery.message.message_id, "M");
        assert_eq!(delivery.message.sender, "sender");
        assert_eq!(delivery.message.content_type, "work");
        assert_eq!(delivery.message.content, Value::String(text("M")));
    }
    assert!(server.get_message_history(None).is_empty());
    assert_eq!(server.get_stats().messages_sent, 0);
    assert_eq!(server.get_stats().errors, 0);
}

#[test]
fn broadcast_without_clients_plans_nothing() {
    let server = MCPServer::new("hub");
    assert!(server.broadcast_message_at(message("M", ""), NOW).is_empty());
    assert!(server.broadcast_message(message("M", "")).is_empty());
}

#[test]
fn broadcast_of_an_expired_message_plans_nothing() {
    let mut server = MCPServer::new("hub");
    server.register_client(text("A"), 1);
    let expired = message("M", "").with_expiry(Timestamp::new(1, 0));
    assert!(server.broadcast_message_at(expired, NOW).is_empty());
    let expired = message("M", "").with_expiry(Timestamp::new(1, 0));
    assert!(server.broadcast_message(expired).is_empty());
    assert_eq!(server.broadcast_message(message("M", "")).len(), 1);
}

#[test]
fn history_with_a_limit_is_latest_first() {
    let mut server = MCPServer::new("hub");
    for id in ["m-1", "m-2", "m-3", "m-4"] {
        server.route_message_at(message(id, "nobody"), NOW);
    }
    let ids = |list: Vec<MCPMessage>| -> Vec<String> {
        list.into_iter().map(|m| m.message_id).collect()
    };
    assert_eq!(ids(server.get_message_history(Some(2))), vec![text("m-4"), text("m-3")]);
    assert_eq!(ids(server.get_message_history(Some(0))), Vec::<String>::new());
    assert_eq!(
        ids(server.get_message_history(Some(10))),
        vec![text("m-4"), text("m-3"), text("m-2"), text("m-1")]
    );
    assert_eq!(
        ids(server.get_message_history(None)),
        vec![text("m-1"), text("m-2"), text("m-3"), text("m-4")]
    );
}

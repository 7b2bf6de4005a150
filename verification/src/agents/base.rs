//! The capability interface that every agent implements, the health report
//! of an agent, and the two standard replies.

use crate::clock::{current_time, current_time_rfc3339, Timestamp};
use crate::mcp::protocol::{
    fresh_message_id, MCPMessage, MCPResponseMessage, MessageView, ResponseStatus, ResponseView,
};
use vstd::prelude::*;

verus! {

/// The version that an agent reports unless it says otherwise.
pub const DEFAULT_AGENT_VERSION: &'static str = "1.0.0";

/// The views of a list of strings, in order.
pub open spec fn string_views(list: Seq<String>) -> Seq<Seq<char>> {
    Seq::new(list.len(), |i: int| list[i]@)
}

/// A failure inside one of an agent's lifecycle hooks.
#[derive(Clone, Debug)]
pub struct AgentError {
    pub message: String,
}

/// What an agent offers to the swarm. An agent owns its state; the swarm
/// calls `handle` on it for one message at a time.
pub trait Agent {
    /// Whether `id` may be this agent's name. Each agent says this of
    /// itself; an agent that says nothing may go by any name.
    open spec fn is_named(&self, id: Seq<char>) -> bool {
        true
    }

    /// Whether `capabilities` may be what this agent offers. Each agent says
    /// this of itself; an agent that says nothing may offer anything.
    open spec fn offers(&self, capabilities: Seq<Seq<char>>) -> bool {
        true
    }

    /// Whether this agent may report `status` with `message`. Each agent
    /// says this of itself; an agent that says nothing may report anything.
    open spec fn reports(&self, status: HealthStatus, message: Seq<char>) -> bool {
        true
    }

    /// The name under which the agent is registered and addressed.
    fn id(&self) -> (id: &str)
        ensures
            self.is_named(id@),
    ;

    /// The content types that the agent says it can handle.
    fn capabilities(&self) -> (list: Vec<String>)
        ensures
            self.offers(string_views(list@)),
    ;

    /// The agent's version. An agent that does not say otherwise reports the
    /// default version.
    fn version(&self) -> (version: &str)
        default_ensures
            version@ == DEFAULT_AGENT_VERSION@,
    {
        DEFAULT_AGENT_VERSION
    }

    /// What `handle` may do: asked `msg`, this agent may give `response` and
    /// be `after` afterwards. Each agent says this of itself; an agent that
    /// says nothing may give any response and become anything.
    open spec fn answers(&self, msg: MessageView, response: ResponseView, after: &Self) -> bool {
        true
    }

    /// Answers one message, as `answers` says.
    fn handle(&mut self, msg: MCPMessage) -> (response: MCPResponseMessage)
        ensures
            old(self).answers(msg@, response@, &*final(self)),
    ;

    /// Whether `initialize` may fail on this agent as it stands. Each agent
    /// says this of itself; an agent that says nothing may fail.
    open spec fn initialize_can_fail(&self) -> bool {
        true
    }

    /// Whether `shutdown` may fail on this agent as it stands. Each agent
    /// says this of itself; an agent that says nothing may fail.
    open spec fn shutdown_can_fail(&self) -> bool {
        true
    }

    /// Prepares the agent for work; it fails only where
    /// `initialize_can_fail` allows. An agent that does not say otherwise
    /// has nothing to prepare: it succeeds and stays as it is.
    fn initialize(&mut self) -> (outcome: Result<(), AgentError>)
        ensures
            outcome is Err ==> old(self).initialize_can_fail(),
        default_ensures
            outcome is Ok,
            &*final(self) == &*old(self),
    {
        Ok(())
    }

    /// Winds the agent down; it fails only where `shutdown_can_fail`
    /// allows. An agent that does not say otherwise has nothing to wind
    /// down: it succeeds and stays as it is.
    fn shutdown(&mut self) -> (outcome: Result<(), AgentError>)
        ensures
            outcome is Err ==> old(self).shutdown_can_fail(),
        default_ensures
            outcome is Ok,
            &*final(self) == &*old(self),
    {
        Ok(())
    }

    /// The agent's own report of how it is doing.
    fn health_check(&self) -> (health: AgentHealth)
        ensures
            self.reports(health.status, health.message@),
    ;
}

#[derive(Clone, Copy, Debug, PartialEq, Eq, Structural)]
pub enum HealthStatus {
    Healthy,
    Warning,
    Critical,
    Unknown,
}

/// One named measurement of a health report. The value is a double-precision
/// number, held by its IEEE 754 bit pattern.
#[derive(Clone, Debug)]
pub struct HealthMetric {
    pub name: String,
    pub value_bits: u64,
}

#[derive(Clone, Debug)]
pub struct AgentHealth {
    pub status: HealthStatus,
    pub message: String,
    pub last_activity: Timestamp,
    pub metrics: Vec<HealthMetric>,
}

impl AgentHealth {
    /// A report without measurements.
    pub fn with_status(status: HealthStatus, message: &str, last_activity: Timestamp) -> (health: AgentHealth)
        ensures
            health.status == status,
            health.message@ == message@,
            health.last_activity == last_activity,
            health.metrics@.len() == 0,
    {
        AgentHealth { status, message: message.to_owned(), last_activity, metrics: Vec::new() }
    }

    /// A healthy report as of now, without measurements.
    pub fn healthy(message: &str) -> (health: AgentHealth)
        ensures
            health.status == HealthStatus::Healthy,
            health.message@ == message@,
            health.metrics@.len() == 0,
    {
        AgentHealth::with_status(HealthStatus::Healthy, message, current_time())
    }

    /// A warning as of now, without measurements.
    pub fn warning(message: &str) -> (health: AgentHealth)
        ensures
            health.status == HealthStatus::Warning,
            health.message@ == message@,
            health.metrics@.len() == 0,
    {
        AgentHealth::with_status(HealthStatus::Warning, message, current_time())
    }

    /// A critical report as of now, without measurements.
    pub fn critical(message: &str) -> (health: AgentHealth)
        ensures
            health.status == HealthStatus::Critical,
            health.message@ == message@,
            health.metrics@.len() == 0,
    {
        AgentHealth::with_status(HealthStatus::Critical, message, current_time())
    }
}

/// The JSON object with the one member `key`, whose value is the string
/// `text`.
pub uninterp spec fn single_member_object(key: Seq<char>, text: Seq<char>) -> serde_json::Value;

/// Builds a JSON object with `serde_json::Map::new` and `Map::insert`: its
/// one member is `key`, with the string `text` as its value.
#[verifier::external_body]
fn json_single_member(key: &str, text: &str) -> (document: serde_json::Value)
    ensures
        document == single_member_object(key@, text@),
{
    let mut object = serde_json::Map::new();
    object.insert(key.to_string(), serde_json::Value::String(text.to_string()));
    serde_json::Value::Object(object)
}

/// The metadata of a successful reply.
pub open spec fn success_metadata(processed_at: Seq<char>) -> Map<Seq<char>, Seq<char>> {
    Map::<Seq<char>, Seq<char>>::empty().insert("agent_version"@, "1.0.0"@).insert(
        "processed_at"@,
        processed_at,
    )
}

/// The successful reply of `agent_id` to `request`: addressed to the
/// request's sender, of the request's priority, without expiry.
pub open spec fn success_reply(
    agent_id: Seq<char>,
    request: MessageView,
    content_type: Seq<char>,
    content: serde_json::Value,
    reply_id: Seq<char>,
    now: Timestamp,
    processed_at: Seq<char>,
) -> ResponseView {
    ResponseView {
        in_response_to: request.message_id,
        status: ResponseStatus::Success,
        message: MessageView {
            message_id: reply_id,
            timestamp: now,
            sender: agent_id,
            recipient: request.sender,
            content_type: content_type,
            content: content,
            metadata: success_metadata(processed_at),
            priority: request.priority,
            expires_at: None,
        },
        error: None,
    }
}

/// The reply with which `agent_id` reports the failure `error` to the sender
/// of `request`.
pub open spec fn error_reply(
    agent_id: Seq<char>,
    request: MessageView,
    error: Seq<char>,
    reply_id: Seq<char>,
    now: Timestamp,
) -> ResponseView {
    ResponseView {
        in_response_to: request.message_id,
        status: ResponseStatus::Error,
        message: MessageView {
            message_id: reply_id,
            timestamp: now,
            sender: agent_id,
            recipient: request.sender,
            content_type: "error"@,
            content: single_member_object("error"@, error),
            metadata: Map::empty(),
            priority: request.priority,
            expires_at: None,
        },
        error: Some(error),
    }
}

/// The successful reply to `original_msg`, with a fresh id and stamped with
/// the current time. Apart from the id, the timestamp and the text of the
/// processing time, every field is fixed by the arguments.
pub fn create_success_response(
    agent_id: &str,
    original_msg: &MCPMessage,
    content_type: &str,
    content: serde_json::Value,
) -> (response: MCPResponseMessage)
    ensures
        response@ == success_reply(
            agent_id@,
            original_msg@,
            content_type@,
            content,
            response@.message.message_id,
            response@.message.timestamp,
            response@.message.metadata["processed_at"@],
        ),
        response@.consistent(),
{
    let reply_id = fresh_message_id();
    let now = current_time();
    let processed_at = current_time_rfc3339();
    let response = success_response_with(agent_id, original_msg, content_type, content, reply_id, now, processed_at);
    proof {
        assert(success_metadata(processed_at@)["processed_at"@] == processed_at@);
    }
    response
}

/// The successful reply to `original_msg` with the given id, timestamp and
/// text of the processing time.
pub fn success_response_with(
    agent_id: &str,
    original_msg: &MCPMessage,
    content_type: &str,
    content: serde_json::Value,
    reply_id: String,
    now: Timestamp,
    processed_at: String,
) -> (response: MCPResponseMessage)
    ensures
        response@ == success_reply(
            agent_id@,
            original_msg@,
            content_type@,
            content,
            reply_id@,
            now,
            processed_at@,
        ),
        response@.consistent(),
{
    let reply = MCPMessage::with_identity(
        reply_id,
        now,
        agent_id.to_owned(),
        original_msg.sender.clone(),
        content_type.to_owned(),
        content,
    ).with_priority(original_msg.priority).add_metadata(
        "agent_version".to_owned(),
        DEFAULT_AGENT_VERSION.to_owned(),
    ).add_metadata("processed_at".to_owned(), processed_at);
    MCPResponseMessage {
        in_response_to: original_msg.message_id.clone(),
        status: ResponseStatus::Success,
        message: reply,
        error: None,
    }
}

/// The reply that reports the failure `error` to the sender of
/// `original_msg`, with a fresh id and stamped with the current time. Apart
/// from the id and the timestamp, every field is fixed by the arguments.
pub fn create_error_response(agent_id: &str, original_msg: &MCPMessage, error: &str) -> (response:
    MCPResponseMessage)
    ensures
        response@ == error_reply(
            agent_id@,
            original_msg@,
            error@,
            response@.message.message_id,
            response@.message.timestamp,
        ),
        response@.consistent(),
{
    let reply_id = fresh_message_id();
    let now = current_time();
    error_response_with(agent_id, original_msg, error, reply_id, now)
}

/// The reply that reports the failure `error` to the sender of
/// `original_msg`, with the given id and timestamp.
pub fn error_response_with(
    agent_id: &str,
    original_msg: &MCPMessage,
    error: &str,
    reply_id: String,
    now: Timestamp,
) -> (response: MCPResponseMessage)
    ensures
        response@ == error_reply(agent_id@, original_msg@, error@, reply_id@, now),
        response@.consistent(),
{
    let reply = MCPMessage::with_identity(
        reply_id,
        now,
        agent_id.to_owned(),
        original_msg.sender.clone(),
        "error".to_owned(),
        json_single_member("error", error),
    ).with_priority(original_msg.priority);
    MCPResponseMessage {
        in_response_to: original_msg.message_id.clone(),
        status: ResponseStatus::Error,
        message: reply,
        error: Some(error.to_owned()),
    }
}

/// A reply built with an id other than the request's id keeps that id: the
/// request's id stands in `in_response_to` and nowhere else in the reply's
/// envelope. This holds of the successful reply and of the error reply.
pub proof fn reply_has_its_own_id(
    agent_id: Seq<char>,
    request: MessageView,
    content_type: Seq<char>,
    content: serde_json::Value,
    error: Seq<char>,
    reply_id: Seq<char>,
    now: Timestamp,
    processed_at: Seq<char>,
)
    requires
        reply_id != request.message_id,
    ensures
        success_reply(agent_id, request, content_type, content, reply_id, now, processed_at).message.message_id
            != request.message_id,
        success_reply(agent_id, request, content_type, content, reply_id, now, processed_at).in_response_to
            == request.message_id,
        error_reply(agent_id, request, error, reply_id, now).message.message_id != request.message_id,
        error_reply(agent_id, request, error, reply_id, now).in_response_to == request.message_id,
{
}

} // verus!

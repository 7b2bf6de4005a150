//! The message envelope and its response.

use crate::clock::{current_time, Timestamp};
use crate::text_map::TextMap;
use vstd::prelude::*;

verus! {

/// `serde_json::Value`, the opaque payload of a message. The core carries it
/// and never looks inside.
#[verifier::external_type_specification]
#[verifier::external_body]
pub struct ExJsonValue(serde_json::Value);

/// `serde_json::Value::clone`: the copy is the same JSON document as the
/// value it was made from.
pub assume_specification[ <serde_json::Value as Clone>::clone ](content: &serde_json::Value) -> (copy:
    serde_json::Value)
    ensures
        copy == *content,
;

/// Draws a random version-4 UUID with `uuid::Uuid::new_v4` and renders it in
/// its hyphenated form. Nothing is claimed of the text: it is random.
#[verifier::external_body]
pub(crate) fn fresh_message_id() -> (id: String) {
    uuid::Uuid::new_v4().to_string()
}

#[derive(Clone, Copy, Debug, PartialEq, Eq, Structural)]
pub enum MessagePriority {
    Low,
    Normal,
    High,
    Critical,
}

impl Default for MessagePriority {
    fn default() -> (p: MessagePriority)
        ensures
            p == MessagePriority::Normal,
    {
        MessagePriority::Normal
    }
}

#[derive(Clone, Copy, Debug, PartialEq, Eq, Structural)]
pub enum ResponseStatus {
    Success,
    Error,
    Pending,
    Timeout,
}

/// What a message holds, as mathematical values.
pub struct MessageView {
    pub message_id: Seq<char>,
    pub timestamp: Timestamp,
    pub sender: Seq<char>,
    pub recipient: Seq<char>,
    pub content_type: Seq<char>,
    pub content: serde_json::Value,
    pub metadata: Map<Seq<char>, Seq<char>>,
    pub priority: MessagePriority,
    pub expires_at: Option<Timestamp>,
}

impl MessageView {
    /// The message has an expiry and `now` lies after it.
    pub open spec fn expired_at(self, now: Timestamp) -> bool {
        self.expires_at matches Some(deadline) && now.is_after(deadline)
    }

    /// The same message addressed to `recipient`.
    pub open spec fn readdressed(self, recipient: Seq<char>) -> MessageView {
        MessageView { recipient, ..self }
    }
}

/// The addressed, timestamped unit of communication between agents.
#[derive(Clone, Debug)]
pub struct MCPMessage {
    pub message_id: String,
    pub timestamp: Timestamp,
    pub sender: String,
    pub recipient: String,
    pub content_type: String,
    pub content: serde_json::Value,
    pub metadata: TextMap,
    pub priority: MessagePriority,
    pub expires_at: Option<Timestamp>,
}

impl View for MCPMessage {
    type V = MessageView;

    open spec fn view(&self) -> MessageView {
        MessageView {
            message_id: self.message_id@,
            timestamp: self.timestamp,
            sender: self.sender@,
            recipient: self.recipient@,
            content_type: self.content_type@,
            content: self.content,
            metadata: self.metadata@,
            priority: self.priority,
            expires_at: self.expires_at,
        }
    }
}

impl MCPMessage {
    /// A message with a fresh random id, stamped with the current time, of
    /// normal priority, without metadata and without expiry.
    pub fn new(sender: String, recipient: String, content_type: String, content: serde_json::Value) -> (m: MCPMessage)
        ensures
            m@ == (MessageView {
                message_id: m@.message_id,
                timestamp: m@.timestamp,
                sender: sender@,
                recipient: recipient@,
                content_type: content_type@,
                content: content,
                metadata: Map::<Seq<char>, Seq<char>>::empty(),
                priority: MessagePriority::Normal,
                expires_at: None::<Timestamp>,
            }),
    {
        let message_id = fresh_message_id();
        let timestamp = current_time();
        MCPMessage::with_identity(message_id, timestamp, sender, recipient, content_type, content)
    }

    /// The message that `new` builds once its id and its timestamp are drawn.
    pub fn with_identity(
        message_id: String,
        timestamp: Timestamp,
        sender: String,
        recipient: String,
        content_type: String,
        content: serde_json::Value,
    ) -> (m: MCPMessage)
        ensures
            m@ == (MessageView {
                message_id: message_id@,
                timestamp: timestamp,
                sender: sender@,
                recipient: recipient@,
                content_type: content_type@,
                content: content,
                metadata: Map::<Seq<char>, Seq<char>>::empty(),
                priority: MessagePriority::Normal,
                expires_at: None::<Timestamp>,
            }),
    {
        MCPMessage {
            message_id,
            timestamp,
            sender,
            recipient,
            content_type,
            content,
            metadata: TextMap::new(),
            priority: MessagePriority::default(),
            expires_at: None,
        }
    }

    pub fn with_priority(self, priority: MessagePriority) -> (m: MCPMessage)
        ensures
            m@ == (MessageView { priority: priority, ..self@ }),
    {
        let mut m = self;
        m.priority = priority;
        m
    }

    pub fn with_expiry(self, expires_at: Timestamp) -> (m: MCPMessage)
        ensures
            m@ == (MessageView { expires_at: Some(expires_at), ..self@ }),
    {
        let mut m = self;
        m.expires_at = Some(expires_at);
        m
    }

    pub fn add_metadata(self, key: String, value: String) -> (m: MCPMessage)
        ensures
            m@ == (MessageView { metadata: self@.metadata.insert(key@, value@), ..self@ }),
    {
        let mut m = self;
        m.metadata.insert(key, value);
        m
    }

    /// Whether the expiry, if there is one, has passed on the system clock.
    /// A message without expiry never expires.
    pub fn is_expired(&self) -> (expired: bool)
        ensures
            expired ==> self@.expires_at is Some,
    {
        let now = current_time();
        self.is_expired_at(now)
    }

    /// Whether the message has an expiry that lies before `now`.
    pub fn is_expired_at(&self, now: Timestamp) -> (expired: bool)
        ensures
            expired == self@.expired_at(now),
    {
        match self.expires_at {
            Some(deadline) => now.later_than(&deadline),
            None => false,
        }
    }

    /// A copy that holds the same values in every field.
    pub fn duplicate(&self) -> (copy: MCPMessage)
        ensures
            copy@ == self@,
    {
        MCPMessage {
            message_id: self.message_id.clone(),
            timestamp: self.timestamp,
            sender: self.sender.clone(),
            recipient: self.recipient.clone(),
            content_type: self.content_type.clone(),
            content: self.content.clone(),
            metadata: self.metadata.duplicate(),
            priority: self.priority,
            expires_at: self.expires_at,
        }
    }

    /// A copy addressed to `recipient`; every other field is kept.
    pub fn readdressed_to(&self, recipient: String) -> (copy: MCPMessage)
        ensures
            copy@ == self@.readdressed(recipient@),
    {
        let mut copy = self.duplicate();
        copy.recipient = recipient;
        copy
    }
}

/// What a response holds, as mathematical values.
pub struct ResponseView {
    pub in_response_to: Seq<char>,
    pub status: ResponseStatus,
    pub message: MessageView,
    pub error: Option<Seq<char>>,
}

/// The answer to one earlier message, which `in_response_to` names by its id.
#[derive(Clone, Debug)]
pub struct MCPResponseMessage {
    pub in_response_to: String,
    pub status: ResponseStatus,
    pub message: MCPMessage,
    pub error: Option<String>,
}

impl View for MCPResponseMessage {
    type V = ResponseView;

    open spec fn view(&self) -> ResponseView {
        ResponseView {
            in_response_to: self.in_response_to@,
            status: self.status,
            message: self.message@,
            error: match self.error {
                Some(text) => Some(text@),
                None => None,
            },
        }
    }
}

impl ResponseView {
    /// An error text is carried exactly by the responses of status `Error`.
    pub open spec fn consistent(self) -> bool {
        self.error is Some <==> self.status == ResponseStatus::Error
    }
}

} // verus!

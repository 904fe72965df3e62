//! Messages between agents.

use vstd::prelude::*;
use vstd::string::*;
use crate::support::{new_uuid_string, utc_now_millis};

verus! {

/// Kind of message.
#[derive(Debug, Clone, Copy, PartialEq, Eq, Structural)]
pub enum MessageType {
    /// One-way; no response expected.
    Send,
    /// A response is expected.
    Request,
    /// Answers a request.
    Response,
    /// To all subscribers of a topic.
    Broadcast,
}

/// A message between agents.
#[derive(Debug, Clone)]
pub struct AgentMessage {
    /// Message id, for correlation.
    pub id: String,
    pub msg_type: MessageType,
    /// Sender's id.
    pub from: String,
    /// Recipient's id; none for a broadcast.
    pub to: Option<String>,
    /// Topic, for a broadcast.
    pub topic: Option<String>,
    /// Payload.
    pub content: serde_json::Value,
    /// The request this message belongs to.
    pub request_id: Option<String>,
    /// Creation time, milliseconds since the Unix epoch.
    pub timestamp: i64,
}

/// The text of an optional string.
pub open spec fn opt_text(s: Option<String>) -> Option<Seq<char>> {
    match s {
        Some(x) => Some(x@),
        None => None,
    }
}

impl AgentMessage {
    /// A one-way message with a fresh id.
    pub fn new(from: &str, to: &str, content: serde_json::Value) -> (m: AgentMessage)
        ensures
            m.msg_type == MessageType::Send,
            m.from@ == from@,
            opt_text(m.to) == Some(to@),
            m.topic is None,
            m.content == content,
            m.request_id is None,
            m.id@.len() == 36,
    {
        AgentMessage {
            id: new_uuid_string(),
            msg_type: MessageType::Send,
            from: String::from_str(from),
            to: Some(String::from_str(to)),
            topic: None,
            content,
            request_id: None,
            timestamp: utc_now_millis(),
        }
    }

    /// A request; its request id is its own id.
    pub fn request(from: &str, to: &str, content: serde_json::Value) -> (m: AgentMessage)
        ensures
            m.msg_type == MessageType::Request,
            m.from@ == from@,
            opt_text(m.to) == Some(to@),
            m.topic is None,
            m.content == content,
            opt_text(m.request_id) == Some(m.id@),
            m.id@.len() == 36,
    {
        let id = new_uuid_string();
        let rid = id.clone();
        AgentMessage {
            id,
            msg_type: MessageType::Request,
            from: String::from_str(from),
            to: Some(String::from_str(to)),
            topic: None,
            content,
            request_id: Some(rid),
            timestamp: utc_now_millis(),
        }
    }

    /// A response to the request `request_id`.
    pub fn response(from: &str, to: &str, content: serde_json::Value, request_id: &str) -> (m: AgentMessage)
        ensures
            m.msg_type == MessageType::Response,
            m.from@ == from@,
            opt_text(m.to) == Some(to@),
            m.topic is None,
            m.content == content,
            opt_text(m.request_id) == Some(request_id@),
            m.id@.len() == 36,
    {
        AgentMessage {
            id: new_uuid_string(),
            msg_type: MessageType::Response,
            from: String::from_str(from),
            to: Some(String::from_str(to)),
            topic: None,
            content,
            request_id: Some(String::from_str(request_id)),
            timestamp: utc_now_millis(),
        }
    }

    /// A message to every subscriber of a topic.
    pub fn broadcast(from: &str, topic: &str, content: serde_json::Value) -> (m: AgentMessage)
        ensures
            m.msg_type == MessageType::Broadcast,
            m.from@ == from@,
            m.to is None,
            opt_text(m.topic) == Some(topic@),
            m.content == content,
            m.request_id is None,
            m.id@.len() == 36,
    {
        AgentMessage {
            id: new_uuid_string(),
            msg_type: MessageType::Broadcast,
            from: String::from_str(from),
            to: None,
            topic: Some(String::from_str(topic)),
            content,
            request_id: None,
            timestamp: utc_now_millis(),
        }
    }

    /// The message turned into a request, with the id its response will
    /// carry: its request id, or else its own id.
    pub fn into_request(self) -> (r: (AgentMessage, String))
        ensures
            r.0 == (AgentMessage { msg_type: MessageType::Request, ..self }),
            r.1@ == (match self.request_id { Some(x) => x@, None => self.id@ }),
    {
        let rid = match &self.request_id {
            Some(x) => x.clone(),
            None => self.id.clone(),
        };
        (AgentMessage { msg_type: MessageType::Request, ..self }, rid)
    }
}

} // verus!

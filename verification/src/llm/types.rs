//! Messages exchanged with a language model.

use vstd::prelude::*;
use vstd::string::*;

verus! {

/// Role of a message in a conversation.
#[derive(Debug, Clone, Copy, PartialEq, Eq, Structural)]
pub enum MessageRole {
    /// Instructions for the model.
    System,
    /// A user's turn.
    User,
    /// The model's turn.
    Assistant,
}

/// A message in a conversation.
#[derive(Debug, Clone)]
pub struct Message {
    pub role: MessageRole,
    pub content: String,
}

impl Message {
    pub fn new(role: MessageRole, content: &str) -> (m: Message)
        ensures
            m.role == role,
            m.content@ == content@,
    {
        Message { role, content: String::from_str(content) }
    }

    pub fn system(content: &str) -> (m: Message)
        ensures
            m.role == MessageRole::System,
            m.content@ == content@,
    {
        Self::new(MessageRole::System, content)
    }

    pub fn user(content: &str) -> (m: Message)
        ensures
            m.role == MessageRole::User,
            m.content@ == content@,
    {
        Self::new(MessageRole::User, content)
    }

    pub fn assistant(content: &str) -> (m: Message)
        ensures
            m.role == MessageRole::Assistant,
            m.content@ == content@,
    {
        Self::new(MessageRole::Assistant, content)
    }

    /// A copy of the message.
    pub fn duplicate(&self) -> (m: Message)
        ensures
            m.role == self.role,
            m.content@ == self.content@,
    {
        Message { role: self.role, content: self.content.clone() }
    }
}

/// Token counts reported for one exchange.
#[derive(Debug, Clone, Copy, PartialEq, Eq, Structural)]
pub struct TokenUsage {
    pub prompt_tokens: u32,
    pub completion_tokens: u32,
    pub total_tokens: u32,
}

/// A complete reply of a model.
#[derive(Debug, Clone)]
pub struct Response {
    pub content: String,
    pub model: String,
    pub usage: Option<TokenUsage>,
    pub finish_reason: Option<String>,
}

/// A piece of a streamed reply.
#[derive(Debug, Clone)]
pub struct StreamChunk {
    pub content: String,
    pub model: Option<String>,
    pub finish_reason: Option<String>,
}

impl StreamChunk {
    pub fn new(content: &str) -> (c: StreamChunk)
        ensures
            c.content@ == content@,
            c.model is None,
            c.finish_reason is None,
    {
        StreamChunk { content: String::from_str(content), model: None, finish_reason: None }
    }

    /// A chunk is the last one exactly when it carries a finish reason.
    pub fn is_final(&self) -> (b: bool)
        ensures
            b == self.finish_reason is Some,
    {
        self.finish_reason.is_some()
    }
}

} // verus!

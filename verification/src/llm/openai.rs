//! The OpenAI chat provider: its configuration, the request it sends, and how
//! replies and streamed events become responses and chunks.

use vstd::prelude::*;
use vstd::string::*;
use std::time::Duration;
use crate::comms::message::opt_text;
use crate::llm::error::LLMError;
use crate::llm::provider::{WireMessage, carries, wire_message, new_client, text_or_empty, copy_or_empty, copy_opt};
use crate::llm::types::{Message, Response, StreamChunk, TokenUsage};
use crate::support::{duration_from_secs, nanos_of, text_eq};

verus! {

/// The address that chat completions are posted to.
pub fn chat_url() -> (u: &'static str)
    ensures
        u@ == "https://api.openai.com/v1/chat/completions"@,
{
    "https://api.openai.com/v1/chat/completions"
}

/// A chat completion request.
#[derive(Debug)]
pub struct OpenAIRequest {
    pub model: String,
    pub messages: Vec<WireMessage>,
    pub stream: bool,
    pub tools: Option<Vec<serde_json::Value>>,
    pub tool_choice: Option<String>,
}

/// One choice of a reply, or of a streamed event: the text (the message's
/// content, or the delta's) and the finish reason.
#[derive(Debug, Clone)]
pub struct OpenAIChoice {
    pub content: Option<String>,
    pub finish_reason: Option<String>,
}

/// A chat completion reply.
#[derive(Debug, Clone)]
pub struct OpenAIReply {
    pub model: String,
    pub choices: Vec<OpenAIChoice>,
    pub usage: Option<TokenUsage>,
}

/// A streamed event's payload.
#[derive(Debug, Clone)]
pub struct OpenAIStreamData {
    pub model: String,
    pub choices: Vec<OpenAIChoice>,
}

/// The OpenAI API provider.
pub struct OpenAIProvider {
    client: reqwest::Client,
    api_key: String,
    model: String,
    timeout: Duration,
}

impl OpenAIProvider {
    /// The API key.
    pub closed spec fn key(&self) -> Seq<char> {
        self.api_key@
    }

    /// The model.
    pub closed spec fn model_name(&self) -> Seq<char> {
        self.model@
    }

    /// The request timeout.
    pub closed spec fn timeout_value(&self) -> Duration {
        self.timeout
    }

    /// A provider with the given key and model, and a timeout of 60 seconds.
    /// An empty key is refused; so is a platform where no HTTP client can be built.
    pub fn new(api_key: &str, model: &str) -> (r: Result<OpenAIProvider, LLMError>)
        ensures
            api_key@.len() == 0 ==> (r matches Err(LLMError::ConfigError(m)) && m@ == "OpenAI API key cannot be empty"@),
            api_key@.len() > 0 ==> (r is Ok || r matches Err(LLMError::HttpError(_))),
            r matches Ok(p) ==> p.key() == api_key@ && p.model_name() == model@ && nanos_of(p.timeout_value()) == 60_000_000_000,
    {
        if api_key.unicode_len() == 0 {
            return Err(LLMError::config_error("OpenAI API key cannot be empty"));
        }
        match new_client() {
            Ok(client) => Ok(OpenAIProvider {
                client,
                api_key: String::from_str(api_key),
                model: String::from_str(model),
                timeout: duration_from_secs(60),
            }),
            Err(e) => Err(LLMError::HttpError(e)),
        }
    }

    /// The same provider with another request timeout.
    pub fn with_timeout(self, timeout: Duration) -> (p: OpenAIProvider)
        ensures
            p.key() == self.key(),
            p.model_name() == self.model_name(),
            p.timeout_value() == timeout,
            p.http_client() == self.http_client(),
    {
        OpenAIProvider { timeout, ..self }
    }

    /// The request timeout.
    pub fn timeout(&self) -> (d: Duration)
        ensures
            d == self.timeout_value(),
    {
        self.timeout
    }

    /// The HTTP client that requests are sent with.
    pub closed spec fn http_client(&self) -> reqwest::Client {
        self.client
    }

    /// The HTTP client.
    pub fn client(&self) -> (c: &reqwest::Client)
        ensures
            *c == self.http_client(),
    {
        &self.client
    }

    /// The API key.
    pub fn api_key(&self) -> (k: &str)
        ensures
            k@ == self.key(),
    {
        self.api_key.as_str()
    }

    /// The model.
    pub fn model(&self) -> (m: &str)
        ensures
            m@ == self.model_name(),
    {
        self.model.as_str()
    }

    /// The provider's name, `openai`.
    pub fn name(&self) -> (n: &str)
        ensures
            n@ == "openai"@,
    {
        "openai"
    }

    /// The `Authorization` header's value.
    pub fn authorization(&self) -> (h: String)
        ensures
            h@ == "Bearer "@ + self.key(),
    {
        String::from_str("Bearer ").concat(self.api_key.as_str())
    }

    /// The messages in the API's form, in order: each role by its name.
    pub fn format_messages(&self, messages: &[Message]) -> (w: Vec<WireMessage>)
        ensures
            w@.len() == messages@.len(),
            forall|i: int| 0 <= i < messages@.len() ==> #[trigger] carries(w@[i], messages@[i]),
    {
        let mut out: Vec<WireMessage> = Vec::new();
        let mut i: usize = 0;
        while i < messages.len()
            invariant
                i <= messages@.len(),
                out@.len() == i,
                forall|j: int| 0 <= j < i ==> #[trigger] carries(out@[j], messages@[j]),
            decreases messages@.len() - i,
        {
            out.push(wire_message(&messages[i]));
            i = i + 1;
        }
        out
    }

    /// The request for `messages`: streamed or not, and with tools, which the
    /// model then chooses among itself (`auto`).
    pub fn request(&self, messages: &[Message], stream: bool, tools: Option<Vec<serde_json::Value>>) -> (r: OpenAIRequest)
        ensures
            r.model@ == self.model_name(),
            r.messages@.len() == messages@.len(),
            forall|i: int| 0 <= i < messages@.len() ==> #[trigger] carries(r.messages@[i], messages@[i]),
            r.stream == stream,
            r.tools == tools,
            tools is Some ==> (r.tool_choice matches Some(c) && c@ == "auto"@),
            tools is None ==> r.tool_choice is None,
    {
        let tool_choice = match &tools {
            Some(_) => Some(String::from_str("auto")),
            None => None,
        };
        OpenAIRequest {
            model: self.model.clone(),
            messages: self.format_messages(messages),
            stream,
            tools,
            tool_choice,
        }
    }

    /// The response that a reply gives: the first choice's text (empty where
    /// it has none) and finish reason, the reply's model and usage. A reply
    /// without choices is a parse error.
    pub fn reply_response(reply: &OpenAIReply) -> (r: Result<Response, LLMError>)
        ensures
            reply.choices@.len() == 0 ==> (r matches Err(LLMError::ParseError(m)) && m@ == "No choices in response"@),
            reply.choices@.len() > 0 ==> (r matches Ok(resp)
                && resp.content@ == text_or_empty(reply.choices@[0].content)
                && resp.model@ == reply.model@
                && resp.usage == reply.usage
                && opt_text(resp.finish_reason) == opt_text(reply.choices@[0].finish_reason)),
    {
        if reply.choices.len() == 0 {
            return Err(LLMError::parse_error("No choices in response"));
        }
        let choice = &reply.choices[0];
        Ok(Response {
            content: copy_or_empty(&choice.content),
            model: reply.model.clone(),
            usage: reply.usage,
            finish_reason: copy_opt(&choice.finish_reason),
        })
    }

    /// Whether a streamed event's data is the end marker `[DONE]`.
    pub fn is_done_event(data: &str) -> (b: bool)
        ensures
            b == (data@ == "[DONE]"@),
    {
        text_eq(data, "[DONE]")
    }

    /// The chunk that the end marker gives: no text, finish reason `stop`.
    pub fn done_chunk() -> (c: StreamChunk)
        ensures
            c.content@.len() == 0,
            c.model is None,
            c.finish_reason matches Some(f) && f@ == "stop"@,
    {
        StreamChunk { content: String::new(), model: None, finish_reason: Some(String::from_str("stop")) }
    }

    /// The chunk that a streamed event's payload gives: the first choice's
    /// text (empty where it has none) and finish reason, with the model. A
    /// payload without choices is a parse error.
    pub fn stream_chunk(data: &OpenAIStreamData) -> (r: Result<StreamChunk, LLMError>)
        ensures
            data.choices@.len() == 0 ==> (r matches Err(LLMError::ParseError(m)) && m@ == "No choices in stream chunk"@),
            data.choices@.len() > 0 ==> (r matches Ok(c)
                && c.content@ == text_or_empty(data.choices@[0].content)
                && (c.model matches Some(md) && md@ == data.model@)
                && opt_text(c.finish_reason) == opt_text(data.choices@[0].finish_reason)),
    {
        if data.choices.len() == 0 {
            return Err(LLMError::parse_error("No choices in stream chunk"));
        }
        let choice = &data.choices[0];
        Ok(StreamChunk {
            content: copy_or_empty(&choice.content),
            model: Some(data.model.clone()),
            finish_reason: copy_opt(&choice.finish_reason),
        })
    }
}

} // verus!

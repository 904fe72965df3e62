//! The Anthropic provider: its configuration, the request it sends,
//! and how replies and streamed events become responses and chunks.

use vstd::prelude::*;
use vstd::string::*;
use std::time::Duration;
use crate::llm::conversation::{first_system, system_position};
use crate::llm::error::LLMError;
use crate::llm::provider::{WireMessage, carries, wire_message, new_client, text_or_empty, copy_or_empty};
use crate::llm::types::{Message, MessageRole, Response, StreamChunk, TokenUsage};
use crate::support::{duration_from_secs, nanos_of, text_eq};

verus! {

/// The address that messages are posted to.
pub fn messages_url() -> (u: &'static str)
    ensures
        u@ == "https://api.anthropic.com/v1/messages"@,
{
    "https://api.anthropic.com/v1/messages"
}

/// The API version sent with each request.
pub fn api_version() -> (v: &'static str)
    ensures
        v@ == "2023-06-01"@,
{
    "2023-06-01"
}

/// The bound on reply tokens sent with each request, which the API requires.
pub open spec fn spec_max_tokens() -> u32 {
    4096
}

/// A messages request.
#[derive(Debug)]
pub struct AnthropicRequest {
    pub model: String,
    pub messages: Vec<WireMessage>,
    pub system: Option<String>,
    pub max_tokens: u32,
    pub stream: bool,
}

/// A reply: its model, the texts of its content blocks, why it stopped, and
/// the tokens it counted.
#[derive(Debug, Clone)]
pub struct AnthropicReply {
    pub model: String,
    pub content: Vec<String>,
    pub stop_reason: String,
    pub input_tokens: u32,
    pub output_tokens: u32,
}

/// The kinds of streamed events that a provider acts on.
#[derive(Debug, Clone, Copy, PartialEq, Eq, Structural)]
pub enum AnthropicEventKind {
    /// `content_block_delta`: a piece of text.
    ContentBlockDelta,
    /// `message_stop`: the end of the reply.
    MessageStop,
    /// Anything else, passed over.
    Other,
}

/// The messages that are not system messages, in order.
pub open spec fn non_system(ms: Seq<Message>) -> Seq<Message>
    decreases ms.len(),
{
    if ms.len() == 0 {
        Seq::empty()
    } else if ms.last().role == MessageRole::System {
        non_system(ms.drop_last())
    } else {
        non_system(ms.drop_last()).push(ms.last())
    }
}

/// The messages a request carries besides the system text are exactly the
/// non-system messages, every one of them, in their order.
pub proof fn lemma_non_system_keeps_every_other_message(ms: Seq<Message>)
    ensures
        non_system(ms) == ms.filter(|m: Message| m.role != MessageRole::System),
    decreases ms.len(),
{
    reveal_with_fuel(Seq::<_>::filter, 1);
    if ms.len() > 0 {
        lemma_non_system_keeps_every_other_message(ms.drop_last());
        assert(ms.filter(|m: Message| m.role != MessageRole::System) =~= if ms.last().role == MessageRole::System {
            ms.drop_last().filter(|m: Message| m.role != MessageRole::System)
        } else {
            ms.drop_last().filter(|m: Message| m.role != MessageRole::System).push(ms.last())
        });
    }
}

/// The system text that a request carries: that of the first system message.
pub open spec fn system_text(ms: Seq<Message>) -> Option<Seq<char>> {
    match first_system(ms) {
        Some(i) => Some(ms[i].content@),
        None => None,
    }
}

/// The Anthropic API provider.
pub struct AnthropicProvider {
    client: reqwest::Client,
    api_key: String,
    model: String,
    timeout: Duration,
}

impl AnthropicProvider {
    /// The API key.
    pub closed spec fn key(&self) -> Seq<char> {
        self.api_key@
    }

    /// The model.
    pub closed spec fn model_name(&self) -> Seq<char> {
        self.model@
    }

    /// The request timeout.
    pub closed spec fn timeout_value(&self) -> Duration {
        self.timeout
    }

    /// A provider with the given key and model, and a timeout of 60 seconds.
    /// An empty key is refused; so is a platform where no HTTP client can be built.
    pub fn new(api_key: &str, model: &str) -> (r: Result<AnthropicProvider, LLMError>)
        ensures
            api_key@.len() == 0 ==> (r matches Err(LLMError::ConfigError(m)) && m@ == "Anthropic API key cannot be empty"@),
            api_key@.len() > 0 ==> (r is Ok || r matches Err(LLMError::HttpError(_))),
            r matches Ok(p) ==> p.key() == api_key@ && p.model_name() == model@ && nanos_of(p.timeout_value()) == 60_000_000_000,
    {
        if api_key.unicode_len() == 0 {
            return Err(LLMError::config_error("Anthropic API key cannot be empty"));
        }
        match new_client() {
            Ok(client) => Ok(AnthropicProvider {
                client,
                api_key: String::from_str(api_key),
                model: String::from_str(model),
                timeout: duration_from_secs(60),
            }),
            Err(e) => Err(LLMError::HttpError(e)),
        }
    }

    /// The same provider with another request timeout.
    pub fn with_timeout(self, timeout: Duration) -> (p: AnthropicProvider)
        ensures
            p.key() == self.key(),
            p.model_name() == self.model_name(),
            p.timeout_value() == timeout,
            p.http_client() == self.http_client(),
    {
        AnthropicProvider { timeout, ..self }
    }

    /// The request timeout.
    pub fn timeout(&self) -> (d: Duration)
        ensures
            d == self.timeout_value(),
    {
        self.timeout
    }

    /// The HTTP client that requests are sent with.
    pub closed spec fn http_client(&self) -> reqwest::Client {
        self.client
    }

    /// The HTTP client.
    pub fn client(&self) -> (c: &reqwest::Client)
        ensures
            *c == self.http_client(),
    {
        &self.client
    }

    /// The API key, sent as the `x-api-key` header.
    pub fn api_key(&self) -> (k: &str)
        ensures
            k@ == self.key(),
    {
        self.api_key.as_str()
    }

    /// The model.
    pub fn model(&self) -> (m: &str)
        ensures
            m@ == self.model_name(),
    {
        self.model.as_str()
    }

    /// The provider's name, `anthropic`.
    pub fn name(&self) -> (n: &str)
        ensures
            n@ == "anthropic"@,
    {
        "anthropic"
    }

    /// The messages in the API's form: the API takes the system text apart,
    /// so the first system message's text is returned beside the other
    /// messages, which keep their order; further system messages are dropped.
    pub fn format_messages(&self, messages: &[Message]) -> (r: (Option<String>, Vec<WireMessage>))
        ensures
            crate::comms::message::opt_text(r.0) == system_text(messages@),
            r.1@.len() == non_system(messages@).len(),
            forall|i: int| 0 <= i < r.1@.len() ==> #[trigger] carries(r.1@[i], non_system(messages@)[i]),
    {
        let system = match system_position(messages) {
            Some(k) => Some(messages[k].content.clone()),
            None => None,
        };
        let mut out: Vec<WireMessage> = Vec::new();
        let mut i: usize = 0;
        while i < messages.len()
            invariant
                i <= messages@.len(),
                out@.len() == non_system(messages@.subrange(0, i as int)).len(),
                forall|j: int| 0 <= j < out@.len() ==> #[trigger] carries(out@[j], non_system(messages@.subrange(0, i as int))[j]),
            decreases messages@.len() - i,
        {
            let ghost before = messages@.subrange(0, i as int);
            let ghost after = messages@.subrange(0, i + 1);
            assert(after.drop_last() =~= before);
            if messages[i].role != MessageRole::System {
                out.push(wire_message(&messages[i]));
            }
            i = i + 1;
        }
        assert(messages@.subrange(0, messages@.len() as int) =~= messages@);
        (system, out)
    }

    /// The request for `messages`, streamed or not, with the reply bound of
    /// 4096 tokens.
    pub fn request(&self, messages: &[Message], stream: bool) -> (r: AnthropicRequest)
        ensures
            r.model@ == self.model_name(),
            crate::comms::message::opt_text(r.system) == system_text(messages@),
            r.messages@.len() == non_system(messages@).len(),
            forall|i: int| 0 <= i < r.messages@.len() ==> #[trigger] carries(r.messages@[i], non_system(messages@)[i]),
            r.max_tokens == spec_max_tokens(),
            r.stream == stream,
    {
        let (system, formatted) = self.format_messages(messages);
        AnthropicRequest { model: self.model.clone(), messages: formatted, system, max_tokens: 4096, stream }
    }

    /// The response that a reply gives: the first content block's text, the
    /// model, the token counts with their sum, and the stop reason. A reply
    /// without content is a parse error.
    pub fn reply_response(reply: &AnthropicReply) -> (r: Result<Response, LLMError>)
        requires
            reply.content@.len() > 0 ==> reply.input_tokens + reply.output_tokens <= u32::MAX,
        ensures
            reply.content@.len() == 0 ==> (r matches Err(LLMError::ParseError(m)) && m@ == "No content in response"@),
            reply.content@.len() > 0 ==> (r matches Ok(resp)
                && resp.content@ == reply.content@[0]@
                && resp.model@ == reply.model@
                && resp.usage == Some(TokenUsage {
                    prompt_tokens: reply.input_tokens,
                    completion_tokens: reply.output_tokens,
                    total_tokens: (reply.input_tokens + reply.output_tokens) as u32,
                })
                && (resp.finish_reason matches Some(f) && f@ == reply.stop_reason@)),
    {
        if reply.content.len() == 0 {
            return Err(LLMError::parse_error("No content in response"));
        }
        Ok(Response {
            content: reply.content[0].clone(),
            model: reply.model.clone(),
            usage: Some(TokenUsage {
                prompt_tokens: reply.input_tokens,
                completion_tokens: reply.output_tokens,
                total_tokens: reply.input_tokens + reply.output_tokens,
            }),
            finish_reason: Some(reply.stop_reason.clone()),
        })
    }

    /// The kind of a streamed event, by its name.
    pub fn event_kind(event: &str) -> (k: AnthropicEventKind)
        ensures
            event@ == "content_block_delta"@ ==> k == AnthropicEventKind::ContentBlockDelta,
            event@ == "message_stop"@ ==> k == AnthropicEventKind::MessageStop,
            event@ != "content_block_delta"@ && event@ != "message_stop"@ ==> k == AnthropicEventKind::Other,
    {
        proof {
            reveal_strlit("content_block_delta");
            reveal_strlit("message_stop");
            assert("content_block_delta"@[0] != "message_stop"@[0]);
        }
        if text_eq(event, "content_block_delta") {
            AnthropicEventKind::ContentBlockDelta
        } else if text_eq(event, "message_stop") {
            AnthropicEventKind::MessageStop
        } else {
            AnthropicEventKind::Other
        }
    }

    /// The chunk that a parsed `content_block_delta` event gives: where the
    /// event has a delta, its text (empty where it has none); else no chunk.
    pub fn delta_chunk(delta: &Option<Option<String>>) -> (c: Option<StreamChunk>)
        ensures
            delta is None ==> c is None,
            delta matches Some(t) ==> (c matches Some(ch)
                && ch.content@ == text_or_empty(*t)
                && ch.model is None
                && ch.finish_reason is None),
    {
        match delta {
            Some(t) => Some(StreamChunk { content: copy_or_empty(t), model: None, finish_reason: None }),
            None => None,
        }
    }

    /// The chunk that `message_stop` gives: no text, finish reason `end_turn`.
    pub fn stop_chunk() -> (c: StreamChunk)
        ensures
            c.content@.len() == 0,
            c.model is None,
            c.finish_reason matches Some(f) && f@ == "end_turn"@,
    {
        StreamChunk { content: String::new(), model: None, finish_reason: Some(String::from_str("end_turn")) }
    }
}

/// What goes into a request's message list holds no system message, and is
/// no longer than the conversation it comes from.
pub proof fn lemma_non_system_has_no_system(ms: Seq<Message>)
    ensures
        non_system(ms).len() <= ms.len(),
        forall|i: int| 0 <= i < non_system(ms).len() ==> #[trigger] non_system(ms)[i].role != MessageRole::System,
    decreases ms.len(),
{
    if ms.len() > 0 {
        lemma_non_system_has_no_system(ms.drop_last());
    }
}

} // verus!

use std::time::Duration;

use agent_framework::llm::anthropic::{AnthropicEventKind, AnthropicProvider, AnthropicReply};
use agent_framework::llm::conversation::{estimate_message_tokens, estimate_tokens, Conversation};
use agent_framework::llm::error::LLMError;
use agent_framework::llm::openai::{OpenAIChoice, OpenAIProvider, OpenAIReply, OpenAIStreamData};
use agent_framework::llm::provider::{classify_status, parse_u64, status_display, status_failure, stream_status_error, AttemptFailure, StatusClass};
use agent_framework::llm::types::{Message, MessageRole, StreamChunk, TokenUsage};
use agent_framework::llm::{create_provider, Provider};

#[test]
fn test_conversation_creation() {
    let conv = Conversation::new();
    assert!(conv.is_empty());
    assert_eq!(conv.len(), 0);
    assert!(!conv.id.is_empty());
}

#[test]
fn test_conversation_builder() {
    let conv = Conversation::builder().system("You are helpful").user("Hello").assistant("Hi there!").build();
    assert_eq!(conv.len(), 3);
    assert_eq!(conv.messages()[0].role, MessageRole::System);
    assert_eq!(conv.messages()[1].role, MessageRole::User);
    assert_eq!(conv.messages()[2].role, MessageRole::Assistant);
}

#[test]
fn test_add_messages() {
    let mut conv = Conversation::new();
    conv.add_system("System");
    conv.add_user("User");
    conv.add_assistant("Assistant");
    assert_eq!(conv.len(), 3);
}

#[test]
fn test_system_message() {
    let conv = Conversation::builder().user("Hello").system("Be helpful").user("World").build();
    assert!(conv.system_message().is_some());
    assert_eq!(conv.system_message().unwrap().content, "Be helpful");
}

#[test]
fn test_token_estimation() {
    let message = Message::user("Hello, world!");
    let tokens = estimate_message_tokens(&message);
    assert!(tokens > 0);
    assert!(tokens < 20);
}

#[test]
fn token_estimates_are_exact() {
    // 13 characters: 13 / 4 = 3, plus 4 for the role.
    assert_eq!(estimate_message_tokens(&Message::user("Hello, world!")), 7);
    assert_eq!(estimate_tokens("abcdefgh"), 2);
    assert_eq!(estimate_tokens(""), 0);
    assert_eq!(estimate_tokens("héllo"), 1);
}

#[test]
fn test_conversation_token_estimation() {
    let conv = Conversation::builder().system("You are a helpful assistant").user("Tell me a short joke").build();
    let tokens = conv.estimate_tokens();
    assert!(tokens > 0);
    // 27 / 4 + 4 = 10 and 20 / 4 + 4 = 9.
    assert_eq!(tokens, 19);
}

#[test]
fn test_truncate_to_tokens() {
    let mut conv = Conversation::builder()
        .system("This is a system message with some content")
        .user("This is the first user message with quite a bit of text to make it longer")
        .assistant("This is the first assistant response with lots of content")
        .user("This is the second user message also with extra text")
        .assistant("This is the second assistant response with more content")
        .user("This is the third user message with additional text")
        .build();
    let len_before = conv.len();

    conv.truncate_to_tokens(30);
    assert!(conv.len() <= len_before);
    assert!(conv.estimate_tokens() <= 35);
    assert!(conv.system_message().is_some());
}

#[test]
fn truncation_keeps_recent_messages_in_order() {
    let mut conv = Conversation::builder()
        .system("sys")
        .user("aaaaaaaaaaaaaaaaaaaaaaaaaaaaaaaaaaaaaaaa")
        .assistant("bbbb")
        .user("cccc")
        .build();
    // Tokens: system 4, first user 14, then 5 and 5.
    conv.truncate_to_tokens(14);
    let contents: Vec<&str> = conv.messages().iter().map(|m| m.content.as_str()).collect();
    assert_eq!(contents, vec!["sys", "bbbb", "cccc"]);

    let mut untouched = Conversation::builder().user("x").build();
    untouched.truncate_to_tokens(1000);
    assert_eq!(untouched.len(), 1);
}

#[test]
fn test_conversation_clear() {
    let mut conv = Conversation::builder().user("Hello").build();
    assert!(!conv.is_empty());
    conv.clear();
    assert!(conv.is_empty());
}

#[test]
fn test_conversation_summary() {
    let conv = Conversation::builder().system("System").user("Hello").build();
    let summary = conv.summary();
    assert_eq!(summary.message_count, 2);
    assert!(summary.has_system_message);
    assert!(summary.estimated_tokens > 0);
}

#[test]
fn test_last_and_first_message() {
    let conv = Conversation::builder().system("First").user("Middle").assistant("Last").build();
    assert_eq!(conv.first_message().unwrap().content, "First");
    assert_eq!(conv.last_message().unwrap().content, "Last");
}

#[test]
fn conversation_with_id_and_messages_mut() {
    let mut conv = Conversation::builder().id("test-123").system("System").user("Hello").build();
    assert_eq!(conv.id, "test-123");
    conv.messages_mut().push(Message::assistant("Hi"));
    assert_eq!(conv.len(), 3);
    assert_eq!(conv.last_message().unwrap().role, MessageRole::Assistant);
    let empty = Conversation::with_id("x");
    assert!(empty.first_message().is_none());
    assert!(empty.system_message().is_none());
}

#[test]
fn types_test_message_creation() {
    let msg = Message::user("Hello");
    assert_eq!(msg.role, MessageRole::User);
    assert_eq!(msg.content, "Hello");
}

#[test]
fn test_message_helpers() {
    let system = Message::system("You are helpful");
    assert_eq!(system.role, MessageRole::System);
    let user = Message::user("Hello");
    assert_eq!(user.role, MessageRole::User);
    let assistant = Message::assistant("Hi there");
    assert_eq!(assistant.role, MessageRole::Assistant);
}

#[test]
fn test_stream_chunk() {
    let mut chunk = StreamChunk::new("Hello");
    assert_eq!(chunk.content, "Hello");
    assert!(!chunk.is_final());
    chunk.finish_reason = Some("stop".to_string());
    assert!(chunk.is_final());
}

#[test]
fn llm_error_test_error_creation() {
    let err = LLMError::api_error("test error");
    assert!(matches!(err, LLMError::ApiError(ref m) if m == "test error"));
}

#[test]
fn test_is_retryable() {
    assert!(LLMError::Timeout.is_retryable());
    assert!(LLMError::RateLimitExceeded(None).is_retryable());
    assert!(!LLMError::ConfigError("test".to_string()).is_retryable());
    assert!(!LLMError::parse_error("x").is_retryable());
}

#[test]
fn test_create_provider_openai() {
    let result = create_provider("openai", "test-key", "gpt-4");
    assert!(result.is_ok());
}

#[test]
fn test_create_provider_anthropic() {
    let result = create_provider("anthropic", "test-key", "opus-4-5");
    assert!(result.is_ok());
}

#[test]
fn test_create_provider_unknown() {
    let result = create_provider("unknown", "test-key", "model");
    assert!(result.is_err());
    if let Err(LLMError::UnsupportedProvider(name)) = result {
        assert_eq!(name, "unknown");
    } else {
        panic!("expected UnsupportedProvider");
    }
}

#[test]
fn create_provider_ignores_case_and_checks_the_key() {
    match create_provider("OpenAI", "k", "gpt-4") {
        Ok(Provider::OpenAI(p)) => assert_eq!(p.model(), "gpt-4"),
        _ => panic!("expected an OpenAI provider"),
    }
    match create_provider("ANTHROPIC", "", "m") {
        Err(LLMError::ConfigError(m)) => assert_eq!(m, "Anthropic API key cannot be empty"),
        _ => panic!("expected a configuration error"),
    }
}

#[test]
fn openai_test_provider_creation() {
    let provider = OpenAIProvider::new("test-key", "gpt-4");
    assert!(provider.is_ok());
    let provider = provider.unwrap();
    assert_eq!(provider.model(), "gpt-4");
    assert_eq!(provider.name(), "openai");
    assert_eq!(provider.timeout(), Duration::from_secs(60));
    assert_eq!(provider.authorization(), "Bearer test-key");
}

#[test]
fn openai_test_empty_api_key() {
    let provider = OpenAIProvider::new("", "gpt-4");
    assert!(provider.is_err());
}

#[test]
fn openai_test_message_formatting() {
    let provider = OpenAIProvider::new("test-key", "gpt-4").unwrap();
    let messages = vec![Message::system("You are helpful"), Message::user("Hello")];
    let formatted = provider.format_messages(&messages);
    assert_eq!(formatted.len(), 2);
    assert_eq!(formatted[0].role, "system");
    assert_eq!(formatted[1].role, "user");
}

#[test]
fn openai_test_with_timeout() {
    let provider = OpenAIProvider::new("test-key", "gpt-4").unwrap().with_timeout(Duration::from_secs(30));
    assert_eq!(provider.timeout(), Duration::from_secs(30));
}

#[test]
fn openai_request_reply_and_stream() {
    let provider = OpenAIProvider::new("k", "gpt-4").unwrap();
    let msgs = vec![Message::user("hi")];
    let req = provider.request(&msgs, false, Some(vec![serde_json::from_str("{}").unwrap()]));
    assert_eq!(req.model, "gpt-4");
    assert_eq!(req.tool_choice.as_deref(), Some("auto"));
    assert!(!req.stream);
    let plain = provider.request(&msgs, true, None);
    assert!(plain.tool_choice.is_none());
    assert!(plain.stream);

    let reply = OpenAIReply {
        model: "gpt-4-0613".to_string(),
        choices: vec![OpenAIChoice { content: None, finish_reason: Some("stop".to_string()) }],
        usage: Some(TokenUsage { prompt_tokens: 1, completion_tokens: 2, total_tokens: 3 }),
    };
    let resp = OpenAIProvider::reply_response(&reply).unwrap();
    assert_eq!(resp.content, "");
    assert_eq!(resp.model, "gpt-4-0613");
    assert_eq!(resp.finish_reason.as_deref(), Some("stop"));
    assert_eq!(resp.usage.unwrap().total_tokens, 3);

    let empty = OpenAIReply { model: "m".to_string(), choices: vec![], usage: None };
    match OpenAIProvider::reply_response(&empty) {
        Err(LLMError::ParseError(m)) => assert_eq!(m, "No choices in response"),
        _ => panic!("expected a parse error"),
    }

    assert!(OpenAIProvider::is_done_event("[DONE]"));
    assert!(!OpenAIProvider::is_done_event("[DONE] "));
    let done = OpenAIProvider::done_chunk();
    assert!(done.is_final());
    assert_eq!(done.finish_reason.as_deref(), Some("stop"));

    let data = OpenAIStreamData {
        model: "m".to_string(),
        choices: vec![OpenAIChoice { content: Some("Hel".to_string()), finish_reason: None }],
    };
    let chunk = OpenAIProvider::stream_chunk(&data).unwrap();
    assert_eq!(chunk.content, "Hel");
    assert_eq!(chunk.model.as_deref(), Some("m"));
    let none = OpenAIStreamData { model: "m".to_string(), choices: vec![] };
    match OpenAIProvider::stream_chunk(&none) {
        Err(LLMError::ParseError(m)) => assert_eq!(m, "No choices in stream chunk"),
        _ => panic!("expected a parse error"),
    }
}

#[test]
fn anthropic_test_provider_creation() {
    let provider = AnthropicProvider::new("test-key", "sonnet-4-5");
    assert!(provider.is_ok());
    let provider = provider.unwrap();
    assert_eq!(provider.model(), "sonnet-4-5");
    assert_eq!(provider.name(), "anthropic");
}

#[test]
fn anthropic_test_empty_api_key() {
    let provider = AnthropicProvider::new("", "sonnet-4-5");
    assert!(provider.is_err());
}

#[test]
fn anthropic_test_message_formatting() {
    let provider = AnthropicProvider::new("test-key", "sonnet-4-5").unwrap();
    let messages = vec![Message::system("You are helpful"), Message::user("Hello"), Message::assistant("Hi")];
    let (system, formatted) = provider.format_messages(&messages);
    assert_eq!(system, Some("You are helpful".to_string()));
    assert_eq!(formatted.len(), 2);
    assert_eq!(formatted[0].role, "user");
    assert_eq!(formatted[1].role, "assistant");
}

#[test]
fn anthropic_test_with_timeout() {
    let provider = AnthropicProvider::new("test-key", "sonnet-4-5").unwrap().with_timeout(Duration::from_secs(30));
    assert_eq!(provider.timeout(), Duration::from_secs(30));
}

#[test]
fn anthropic_takes_the_first_system_text_and_drops_the_others() {
    let provider = AnthropicProvider::new("k", "c").unwrap();
    let messages = vec![Message::user("u1"), Message::system("s1"), Message::system("s2"), Message::assistant("a1")];
    let req = provider.request(&messages, true);
    assert_eq!(req.system.as_deref(), Some("s1"));
    assert_eq!(req.messages.len(), 2);
    assert_eq!(req.messages[0].content, "u1");
    assert_eq!(req.messages[1].content, "a1");
    assert_eq!(req.max_tokens, 4096);
    assert!(req.stream);
    let (none, _) = provider.format_messages(&[Message::user("x")]);
    assert!(none.is_none());
}

#[test]
fn anthropic_reply_and_events() {
    let reply = AnthropicReply {
        model: "sonnet".to_string(),
        content: vec!["Hello".to_string()],
        stop_reason: "end_turn".to_string(),
        input_tokens: 10,
        output_tokens: 5,
    };
    let resp = AnthropicProvider::reply_response(&reply).unwrap();
    assert_eq!(resp.content, "Hello");
    let usage = resp.usage.unwrap();
    assert_eq!((usage.prompt_tokens, usage.completion_tokens, usage.total_tokens), (10, 5, 15));
    assert_eq!(resp.finish_reason.as_deref(), Some("end_turn"));
    let empty = AnthropicReply { content: vec![], ..reply };
    match AnthropicProvider::reply_response(&empty) {
        Err(LLMError::ParseError(m)) => assert_eq!(m, "No content in response"),
        _ => panic!("expected a parse error"),
    }

    assert_eq!(AnthropicProvider::event_kind("content_block_delta"), AnthropicEventKind::ContentBlockDelta);
    assert_eq!(AnthropicProvider::event_kind("message_stop"), AnthropicEventKind::MessageStop);
    assert_eq!(AnthropicProvider::event_kind("ping"), AnthropicEventKind::Other);
    assert_eq!(AnthropicProvider::delta_chunk(&Some(Some("tok".to_string()))).unwrap().content, "tok");
    assert_eq!(AnthropicProvider::delta_chunk(&Some(None)).unwrap().content, "");
    assert!(AnthropicProvider::delta_chunk(&None).is_none());
    assert_eq!(AnthropicProvider::stop_chunk().finish_reason.as_deref(), Some("end_turn"));
}

#[test]
fn retry_after_parsing() {
    assert_eq!(parse_u64("120"), Some(120));
    assert_eq!(parse_u64("+7"), Some(7));
    assert_eq!(parse_u64("007"), Some(7));
    assert_eq!(parse_u64("18446744073709551615"), Some(u64::MAX));
    assert_eq!(parse_u64("18446744073709551616"), None);
    assert_eq!(parse_u64(""), None);
    assert_eq!(parse_u64("+"), None);
    assert_eq!(parse_u64("-1"), None);
    assert_eq!(parse_u64("1.5"), None);
    assert_eq!(parse_u64(" 1"), None);
    for s in ["0", "42", "+9", "x", "99999999999999999999"] {
        assert_eq!(parse_u64(s), s.parse::<u64>().ok());
    }
}

#[test]
fn status_classes_and_failures() {
    assert_eq!(classify_status(429), StatusClass::TooManyRequests);
    assert_eq!(classify_status(503), StatusClass::ServerError);
    assert_eq!(classify_status(404), StatusClass::ClientError);
    assert_eq!(classify_status(200), StatusClass::Readable);
    assert_eq!(classify_status(302), StatusClass::Readable);
    assert_eq!(status_display(404), "404 Not Found");
    assert_eq!(status_display(299), "299 <unknown status code>");

    match status_failure(429, Some("30"), "") {
        Some(AttemptFailure::Transient { err: LLMError::RateLimitExceeded(Some(30)), retry_after_secs: Some(30) }) => {}
        _ => panic!("expected a transient rate limit"),
    }
    match status_failure(429, Some("soon"), "") {
        Some(AttemptFailure::Transient { err: LLMError::RateLimitExceeded(None), retry_after_secs: None }) => {}
        _ => panic!("expected a transient rate limit"),
    }
    match status_failure(502, None, "bad gateway") {
        Some(AttemptFailure::Transient { err: LLMError::ApiError(m), retry_after_secs: None }) => assert_eq!(m, "Server error: bad gateway"),
        _ => panic!("expected a transient server error"),
    }
    match status_failure(401, None, "no key") {
        Some(AttemptFailure::Permanent(LLMError::ApiError(m))) => assert_eq!(m, "Client error (401 Unauthorized): no key"),
        _ => panic!("expected a permanent client error"),
    }
    assert!(status_failure(200, None, "").is_none());

    assert!(stream_status_error(204, "").is_none());
    match stream_status_error(500, "boom") {
        Some(LLMError::ApiError(m)) => assert_eq!(m, "API error (500 Internal Server Error): boom"),
        _ => panic!("expected an API error"),
    }
}

#[test]
fn decimal_text_parses_back() {
    for n in [0u64, 7, 10, 429, 65_535, u64::MAX] {
        let text = agent_framework::support::decimal_string(n);
        assert_eq!(text, n.to_string());
        assert_eq!(parse_u64(&text), Some(n));
    }
}

#[test]
fn empty_anthropic_reply_is_a_parse_error_even_with_huge_counts() {
    let reply = AnthropicReply {
        model: "m".to_string(),
        content: vec![],
        stop_reason: "end_turn".to_string(),
        input_tokens: u32::MAX,
        output_tokens: 1,
    };
    assert!(matches!(AnthropicProvider::reply_response(&reply), Err(LLMError::ParseError(_))));
}

fn transport_error() -> reqwest::Error {
    reqwest::Client::builder().build().unwrap().get("not a url").build().unwrap_err()
}

#[test]
fn a_send_timeout_is_retried_as_a_timeout() {
    match agent_framework::llm::provider::send_failure(true, transport_error()) {
        AttemptFailure::Transient { err: LLMError::Timeout, retry_after_secs: None } => {}
        other => panic!("expected a retryable timeout, got {:?}", other),
    }
    match agent_framework::llm::provider::send_failure(false, transport_error()) {
        AttemptFailure::Transient { err: LLMError::HttpError(_), retry_after_secs: None } => {}
        other => panic!("expected a retryable transport failure, got {:?}", other),
    }
}

#[test]
fn new_conversation_has_null_metadata() {
    let conv = Conversation::with_id("c-1");
    assert_eq!(conv.metadata, serde_json::Value::Null);
    assert_eq!(conv.created_at, conv.updated_at);
}

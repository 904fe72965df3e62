//! Language-model messages, conversations and provider decisions.

pub mod types;
pub mod conversation;
pub mod error;
pub mod provider;
pub mod openai;
pub mod anthropic;

use vstd::prelude::*;
use vstd::string::*;
use crate::llm::anthropic::AnthropicProvider;
use crate::llm::error::LLMError;
use crate::llm::openai::OpenAIProvider;
use crate::support::{lowercase_of, text_eq, to_lowercase};

verus! {

/// A configured provider of one of the supported kinds.
pub enum Provider {
    OpenAI(OpenAIProvider),
    Anthropic(AnthropicProvider),
}

/// What choosing a provider by the lowercase name `lowered` gives.
pub open spec fn provider_choice_ok(r: Result<Provider, LLMError>, provider_name: Seq<char>, lowered: Seq<char>, api_key: Seq<char>, model: Seq<char>) -> bool {
    if lowered == "openai"@ {
        if api_key.len() == 0 {
            r matches Err(LLMError::ConfigError(m)) && m@ == "OpenAI API key cannot be empty"@
        } else {
            (r matches Ok(Provider::OpenAI(p)) && p.key() == api_key && p.model_name() == model)
                || r matches Err(LLMError::HttpError(_))
        }
    } else if lowered == "anthropic"@ {
        if api_key.len() == 0 {
            r matches Err(LLMError::ConfigError(m)) && m@ == "Anthropic API key cannot be empty"@
        } else {
            (r matches Ok(Provider::Anthropic(p)) && p.key() == api_key && p.model_name() == model)
                || r matches Err(LLMError::HttpError(_))
        }
    } else {
        r matches Err(LLMError::UnsupportedProvider(n)) && n@ == provider_name
    }
}

/// The provider that the name `provider_name`, already lowercased as
/// `lowered`, stands for, made with the key and model: `openai` or
/// `anthropic`; any other name is unsupported.
pub fn provider_for(provider_name: &str, lowered: &str, api_key: &str, model: &str) -> (r: Result<Provider, LLMError>)
    ensures
        provider_choice_ok(r, provider_name@, lowered@, api_key@, model@),
{
    if text_eq(lowered, "openai") {
        match OpenAIProvider::new(api_key, model) {
            Ok(p) => Ok(Provider::OpenAI(p)),
            Err(e) => Err(e),
        }
    } else if text_eq(lowered, "anthropic") {
        match AnthropicProvider::new(api_key, model) {
            Ok(p) => Ok(Provider::Anthropic(p)),
            Err(e) => Err(e),
        }
    } else {
        Err(LLMError::UnsupportedProvider(String::from_str(provider_name)))
    }
}

/// The provider named `provider_name`, in any letter case, made with the key
/// and model.
pub fn create_provider(provider_name: &str, api_key: &str, model: &str) -> (r: Result<Provider, LLMError>)
    ensures
        provider_choice_ok(r, provider_name@, lowercase_of(provider_name@), api_key@, model@),
{
    let lowered = to_lowercase(provider_name);
    provider_for(provider_name, lowered.as_str(), api_key, model)
}

} // verus!

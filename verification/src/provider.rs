//! What the application knows of a language-model provider.

use vstd::prelude::*;

verus! {

/// The kinds of provider that the application can talk to.
#[derive(Debug, Clone, Copy, PartialEq, Eq, Structural)]
pub enum ProviderKind {
    OpenAI,
    Anthropic,
    Ollama,
    OpenAICompatible,
}

/// The settings of one provider. The API key is kept in the system keyring
/// and not here.
#[derive(Debug, Clone, PartialEq, Eq)]
pub struct ProviderConfig {
    pub kind: ProviderKind,
    pub name: String,
    pub base_url: String,
    pub model: String,
    pub has_api_key: bool,
}

/// One message of a conversation.
#[derive(Debug, Clone, PartialEq, Eq)]
pub struct ChatMessage {
    pub role: String,
    pub content: String,
}

/// One piece of a streamed completion.
#[derive(Debug, Clone, PartialEq, Eq)]
pub struct CompletionChunk {
    pub content: String,
    pub done: bool,
}

} // verus!

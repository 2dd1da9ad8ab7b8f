//! LLM provider abstraction and the Chutes provider configuration.

use crate::schemas::LLMSchema;
use vstd::prelude::*;

verus! {

/// Capabilities an LLM provider may offer, as a small bit set.
#[derive(Debug, Clone, Copy, PartialEq, Eq, Structural)]
pub struct LLMProviderCapabilities {
    /// The raw capability bits.
    pub bits: u32,
}

impl LLMProviderCapabilities {
    /// No capabilities.
    pub fn empty() -> (r: Self)
        ensures
            r.bits == 0,
    {
        LLMProviderCapabilities { bits: 0 }
    }

    /// The capability to handle tools.
    pub fn tools() -> (r: Self)
        ensures
            r.bits == 1,
    {
        LLMProviderCapabilities { bits: 1 }
    }

    /// Whether every capability of `other` is present in `self`.
    pub fn contains(&self, other: Self) -> (r: bool)
        ensures
            r == (self.bits & other.bits == other.bits),
    {
        self.bits & other.bits == other.bits
    }
}

/// A configured LLM provider: a name, a capability set and the wire
/// dialect it speaks.
pub trait LLMProvider {
    /// The name of the provider.
    fn name(&self) -> &str;

    /// The capabilities of the provider.
    fn capabilities(&self) -> &LLMProviderCapabilities;

    /// Replace the capability set.
    fn set_capabilities(&mut self, capabilities: LLMProviderCapabilities);

    /// The wire dialect this provider speaks.
    fn schema(&self) -> &LLMSchema;

    /// Replace the wire dialect.
    fn set_schema(&mut self, schema: LLMSchema);
}

/// Configuration of the Chutes LLM service.
#[derive(Debug)]
pub struct ChutesLLMProvider {
    /// Always "Chutes".
    pub name: String,
    /// What the provider can do.
    pub capabilities: LLMProviderCapabilities,
    /// The wire dialect spoken.
    pub schema: LLMSchema,
    /// The URL endpoint of the service.
    pub endpoint: String,
    /// The API key; set once at initialization.
    pub api_key: String,
}

impl ChutesLLMProvider {
    /// A Chutes provider for the given credentials: named "Chutes", able
    /// to handle tools, speaking the Chutes dialect.
    pub fn new(api_key: String, endpoint: String) -> (r: Self)
        ensures
            r.name@ == "Chutes"@,
            r.capabilities.bits == 1,
            r.schema == LLMSchema::Chutes,
            r.api_key == api_key,
            r.endpoint == endpoint,
    {
        ChutesLLMProvider {
            name: String::from_str("Chutes"),
            capabilities: LLMProviderCapabilities::tools(),
            schema: LLMSchema::Chutes,
            api_key,
            endpoint,
        }
    }
}

impl LLMProvider for ChutesLLMProvider {
    /// The provider's name.
    fn name(&self) -> &str {
        self.name.as_str()
    }

    /// The provider's capabilities.
    fn capabilities(&self) -> &LLMProviderCapabilities {
        &self.capabilities
    }

    /// Replace the capability set.
    fn set_capabilities(&mut self, capabilities: LLMProviderCapabilities) {
        self.capabilities = capabilities;
    }

    /// The wire dialect spoken.
    fn schema(&self) -> &LLMSchema {
        &self.schema
    }

    /// Replace the wire dialect.
    fn set_schema(&mut self, schema: LLMSchema) {
        self.schema = schema;
    }
}

/// An agent bound to one LLM provider.
pub struct ChatAgent<P: LLMProvider> {
    /// The name of the agent.
    pub name: String,
    /// The LLM provider this agent talks through.
    pub llm_provider: P,
}

impl<P: LLMProvider> ChatAgent<P> {
    /// Create a new agent with the given name and provider; both are
    /// stored as given.
    pub fn new(name: String, llm_provider: P) -> (r: Self)
        ensures
            r.name == name,
            r.llm_provider == llm_provider,
    {
        ChatAgent { name, llm_provider }
    }

    /// The name of the agent.
    pub fn name(&self) -> (r: &str)
        ensures
            r@ == self.name@,
    {
        self.name.as_str()
    }

    /// The provider this agent talks through.
    pub fn llm_provider(&self) -> (r: &P)
        ensures
            *r == self.llm_provider,
    {
        &self.llm_provider
    }

    /// Replace the provider, leaving the name unchanged.
    pub fn set_llm_provider(&mut self, provider: P)
        ensures
            final(self).name == old(self).name,
            final(self).llm_provider == provider,
    {
        self.llm_provider = provider;
    }
}

} // verus!

//! Wire-format record definitions for chat-completion APIs, one module
//! per dialect, plus the dialect selector and the dialect-neutral role.

pub mod chutes;
pub mod openai;
pub mod standard;

use vstd::prelude::*;

verus! {

/// The supported LLM wire dialects.
#[derive(Debug, Clone, PartialEq, Eq, Structural)]
pub enum LLMSchema {
    /// The Chutes dialect.
    Chutes,
}

/// Dialect-neutral message role.
#[derive(Debug, Clone, Copy, PartialEq, Eq, Structural)]
pub enum Role {
    /// The end user.
    User,
    /// The assistant.
    Assistant,
    /// The system prompt.
    System,
    /// An external tool.
    Tool,
}

} // verus!

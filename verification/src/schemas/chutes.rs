//! Record definitions of the Chutes chat-completion wire dialect.

use vstd::prelude::*;

verus! {

/// A message in the Chutes chat format, which strictly requires a role
/// and a content string.
#[derive(Debug, Clone)]
pub struct ChutesMessage {
    /// The role, usually `user` or `assistant`; kept a string for
    /// flexible roles.
    pub role: String,
    /// The message text.
    pub content: String,
}

/// Stop sequences: one or several.
#[derive(Debug, Clone)]
pub enum StopSequence {
    /// A single stop sequence.
    Single(String),
    /// Several stop sequences.
    Array(Vec<String>),
}

} // verus!

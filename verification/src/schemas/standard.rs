//! Record definitions of the portable chat-completion wire dialect
//! understood by most open-source serving backends.

use vstd::prelude::*;

verus! {

/// A message in the portable chat format.
#[derive(Debug, Clone)]
pub struct StandardMessage {
    /// The role of the message.
    pub role: StandardRole,
    /// The content; kept a plain string, since array-based content is
    /// not portable.
    pub content: Option<String>,
    /// The author name, where the dialect allows one.
    pub name: Option<String>,
    /// Tool calls made by an assistant message.
    pub tool_calls: Vec<StandardToolCall>,
    /// For tool-role messages, the ID of the tool call being answered.
    pub tool_call_id: Option<String>,
}

/// The role of a message in the portable chat format.
#[derive(Debug, Clone, Copy, PartialEq, Eq, Structural)]
pub enum StandardRole {
    /// Sets context for the conversation.
    System,
    /// The end user.
    User,
    /// The assistant.
    Assistant,
    /// An external tool.
    Tool,
}

/// Controls tool selection.
#[derive(Debug, Clone)]
pub enum StandardToolChoice {
    /// One of `auto`, `none` or `required`.
    Simple(String),
    /// Forces a specific function.
    Specific(StandardToolChoiceSpecific),
}

/// A forced tool choice.
#[derive(Debug, Clone)]
pub struct StandardToolChoiceSpecific {
    /// The tool kind, currently `function`.
    pub kind: String,
    /// Which function to call.
    pub function: ToolFuncName,
}

/// The function a forced tool choice names.
#[derive(Debug, Clone)]
pub struct ToolFuncName {
    /// The function name.
    pub name: String,
}

/// A tool call made by the assistant.
#[derive(Debug, Clone)]
pub struct StandardToolCall {
    /// The unique identifier of the call.
    pub id: String,
    /// The tool kind.
    pub kind: String,
    /// The function being called.
    pub function: StandardFunctionCall,
}

/// A function invocation inside a tool call.
#[derive(Debug, Clone)]
pub struct StandardFunctionCall {
    /// The function name.
    pub name: String,
    /// The arguments as a JSON string.
    pub arguments: String,
}

/// Stop sequences: one or several.
#[derive(Debug, Clone)]
pub enum StopSequence {
    /// A single stop sequence.
    Single(String),
    /// Several stop sequences.
    Array(Vec<String>),
}

/// Requested response format; only the portable variants.
#[derive(Debug, Clone, Copy, PartialEq, Eq, Structural)]
pub enum StandardResponseFormat {
    /// Free text; safe everywhere.
    Text,
    /// A JSON object, supported by the common backends.
    JsonObject,
}

} // verus!

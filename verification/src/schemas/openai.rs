//! Record definitions of the OpenAI chat-completion wire dialect.

use crate::schemas::Role;
use vstd::prelude::*;

verus! {

/// A referenced image.
#[derive(Debug, Clone)]
pub struct ImageUrl {
    /// Where the image lives.
    pub url: String,
    /// Requested detail level: `auto`, `low` or `high`.
    pub detail: Option<String>,
}

/// Embedded audio input.
#[derive(Debug, Clone)]
pub struct InputAudio {
    /// Base64-encoded audio bytes.
    pub data: String,
    /// Audio container: `wav` or `mp3`.
    pub format: String,
}

/// One part of a multimodal message.
#[derive(Debug, Clone)]
pub enum ContentPart {
    /// Plain text.
    Text {
        /// The text itself.
        text: String,
    },
    /// An image reference.
    ImageUrl {
        /// The referenced image.
        image_url: ImageUrl,
    },
    /// An audio clip.
    InputAudio {
        /// The embedded audio.
        input_audio: InputAudio,
    },
}

/// Message content: plain text or multimodal parts.
#[derive(Debug, Clone)]
pub enum Content {
    /// The standard text-only case.
    Text(String),
    /// The multimodal case.
    Parts(Vec<ContentPart>),
}

/// The role of a message in the OpenAI chat format.
#[derive(Debug, Clone, Copy, PartialEq, Eq, Structural)]
pub enum OpenAIRole {
    /// Sets context for the conversation.
    System,
    /// The developer role introduced by the reasoning models.
    Developer,
    /// The end user.
    User,
    /// The assistant.
    Assistant,
    /// An external tool or function.
    Tool,
    /// The deprecated function role.
    Function,
}

impl From<Role> for OpenAIRole {
    /// Map the dialect-neutral role onto the OpenAI role.
    fn from(role: Role) -> (r: OpenAIRole) {
        match role {
            Role::User => OpenAIRole::User,
            Role::Assistant => OpenAIRole::Assistant,
            Role::System => OpenAIRole::System,
            Role::Tool => OpenAIRole::Tool,
        }
    }
}

impl vstd::std_specs::convert::FromSpecImpl<Role> for OpenAIRole {
    open spec fn obeys_from_spec() -> bool {
        true
    }

    open spec fn from_spec(role: Role) -> OpenAIRole {
        match role {
            Role::User => OpenAIRole::User,
            Role::Assistant => OpenAIRole::Assistant,
            Role::System => OpenAIRole::System,
            Role::Tool => OpenAIRole::Tool,
        }
    }
}

impl From<OpenAIRole> for Role {
    /// Map the OpenAI role back onto the dialect-neutral role; the
    /// developer and function roles fold into system and tool.
    fn from(role: OpenAIRole) -> (r: Role) {
        match role {
            OpenAIRole::User => Role::User,
            OpenAIRole::Assistant => Role::Assistant,
            OpenAIRole::System => Role::System,
            OpenAIRole::Developer => Role::System,
            OpenAIRole::Tool => Role::Tool,
            OpenAIRole::Function => Role::Tool,
        }
    }
}

impl vstd::std_specs::convert::FromSpecImpl<OpenAIRole> for Role {
    open spec fn obeys_from_spec() -> bool {
        true
    }

    open spec fn from_spec(role: OpenAIRole) -> Role {
        match role {
            OpenAIRole::User => Role::User,
            OpenAIRole::Assistant => Role::Assistant,
            OpenAIRole::System => Role::System,
            OpenAIRole::Developer => Role::System,
            OpenAIRole::Tool => Role::Tool,
            OpenAIRole::Function => Role::Tool,
        }
    }
}

/// A message in the OpenAI chat format.
#[derive(Debug, Clone)]
pub struct OpenAIMessage {
    /// The role of the message.
    pub role: OpenAIRole,
    /// The content; absent on assistant messages that only carry tool
    /// calls.
    pub content: Option<Content>,
    /// The author name, where the dialect allows one.
    pub name: Option<String>,
    /// Tool calls made by an assistant message.
    pub tool_calls: Vec<ToolCallWire>,
    /// For tool-role messages, the ID of the tool call being answered.
    pub tool_call_id: Option<String>,
    /// The assistant's refusal text, if it refused.
    pub refusal: Option<String>,
}

/// Controls tool selection.
#[derive(Debug, Clone)]
pub enum ToolChoice {
    /// One of `none`, `auto` or `required`.
    Simple(String),
    /// Forces a specific function.
    Specific(ToolChoiceSpecific),
}

/// A forced tool choice.
#[derive(Debug, Clone)]
pub struct ToolChoiceSpecific {
    /// The tool kind, currently always `function`.
    pub kind: String,
    /// Which function to call.
    pub function: ToolChoiceFunction,
}

/// The function a forced tool choice names.
#[derive(Debug, Clone)]
pub struct ToolChoiceFunction {
    /// The function name.
    pub name: String,
}

/// A tool call made by the assistant.
#[derive(Debug, Clone)]
pub struct ToolCallWire {
    /// The unique identifier of the call.
    pub id: String,
    /// The tool kind, usually `function`.
    pub kind: String,
    /// The function being called.
    pub function: FunctionWire,
}

/// A function invocation inside a tool call.
#[derive(Debug, Clone)]
pub struct FunctionWire {
    /// The function name.
    pub name: String,
    /// The arguments as a JSON string.
    pub arguments: String,
}

/// Stop sequences: one or several.
#[derive(Debug, Clone)]
pub enum Stop {
    /// A single stop sequence.
    Single(String),
    /// Several stop sequences.
    Array(Vec<String>),
}

/// Options for streaming responses.
#[derive(Debug, Clone)]
pub struct StreamOptions {
    /// Whether to include usage figures in the stream.
    pub include_usage: bool,
}

/// Audio output configuration.
#[derive(Debug, Clone)]
pub struct AudioConfig {
    /// The voice, such as `alloy` or `echo`.
    pub voice: String,
    /// The container, such as `wav` or `mp3`.
    pub format: String,
}

/// Predicted output content, used to speed up generation when parts of
/// the answer are known in advance.
#[derive(Debug, Clone)]
pub struct PredictionContent {
    /// The prediction kind, currently `content`.
    pub kind: String,
    /// The predicted content.
    pub content: Content,
}

} // verus!

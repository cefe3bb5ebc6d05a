//! The neutral model of the agent loop: what goes to an endpoint, what comes
//! back, and what can go wrong.

use vstd::prelude::*;

use crate::json::{Json, JsonView};
use crate::text;

verus! {

/// Connection parameters for one OpenAI-compatible endpoint.
#[derive(Debug, PartialEq, Default)]
pub struct LocalEndpointConfig {
    /// Base URL of the endpoint. A URL already ending in `/chat/completions` is used as it is.
    pub base_url: String,
    pub api_key: String,
    /// Model name as the provider knows it.
    pub model_slug: String,
}

#[verifier::ext_equal]
pub struct LocalEndpointConfigView {
    pub base_url: Seq<char>,
    pub api_key: Seq<char>,
    pub model_slug: Seq<char>,
}

impl DeepView for LocalEndpointConfig {
    type V = LocalEndpointConfigView;

    open spec fn deep_view(&self) -> LocalEndpointConfigView {
        LocalEndpointConfigView {
            base_url: self.base_url@,
            api_key: self.api_key@,
            model_slug: self.model_slug@,
        }
    }
}

impl Clone for LocalEndpointConfig {
    fn clone(&self) -> (copy: Self)
        ensures
            copy.deep_view() == self.deep_view(),
    {
        LocalEndpointConfig {
            base_url: self.base_url.clone(),
            api_key: self.api_key.clone(),
            model_slug: self.model_slug.clone(),
        }
    }
}

/// A completed tool call requested by the model.
#[derive(Debug, PartialEq, Default)]
pub struct ToolCallRequest {
    /// Id issued by the provider, which the result of the call is sent back under.
    pub id: String,
    pub name: String,
    pub arguments: Json,
}

#[verifier::ext_equal]
pub struct ToolCallRequestView {
    pub id: Seq<char>,
    pub name: Seq<char>,
    pub arguments: JsonView,
}

impl DeepView for ToolCallRequest {
    type V = ToolCallRequestView;

    open spec fn deep_view(&self) -> ToolCallRequestView {
        ToolCallRequestView {
            id: self.id@,
            name: self.name@,
            arguments: self.arguments.deep_view(),
        }
    }
}

impl Clone for ToolCallRequest {
    fn clone(&self) -> (copy: Self)
        ensures
            copy.deep_view() == self.deep_view(),
    {
        ToolCallRequest {
            id: self.id.clone(),
            name: self.name.clone(),
            arguments: self.arguments.clone(),
        }
    }
}

/// One entry of the transcript, in provider-neutral form.
#[derive(Debug, PartialEq)]
pub enum ChatMessage {
    System(String),
    User(String),
    Assistant { text: String, tool_calls: Vec<ToolCallRequest> },
    Tool { tool_call_id: String, content: String },
}

#[verifier::ext_equal]
pub enum ChatMessageView {
    System(Seq<char>),
    User(Seq<char>),
    Assistant { text: Seq<char>, tool_calls: Seq<ToolCallRequestView> },
    Tool { tool_call_id: Seq<char>, content: Seq<char> },
}

impl DeepView for ChatMessage {
    type V = ChatMessageView;

    open spec fn deep_view(&self) -> ChatMessageView {
        match self {
            ChatMessage::System(value) => ChatMessageView::System(value@),
            ChatMessage::User(value) => ChatMessageView::User(value@),
            ChatMessage::Assistant { text, tool_calls } => ChatMessageView::Assistant {
                text: text@,
                tool_calls: tool_calls.deep_view(),
            },
            ChatMessage::Tool { tool_call_id, content } => ChatMessageView::Tool {
                tool_call_id: tool_call_id@,
                content: content@,
            },
        }
    }
}

impl Clone for ChatMessage {
    fn clone(&self) -> (copy: Self)
        ensures
            copy.deep_view() == self.deep_view(),
    {
        match self {
            ChatMessage::System(value) => ChatMessage::System(value.clone()),
            ChatMessage::User(value) => ChatMessage::User(value.clone()),
            ChatMessage::Assistant { text, tool_calls } => {
                let copied = tool_calls.clone();
                assert(copied.deep_view() =~= tool_calls.deep_view());
                ChatMessage::Assistant { text: text.clone(), tool_calls: copied }
            },
            ChatMessage::Tool { tool_call_id, content } => ChatMessage::Tool {
                tool_call_id: tool_call_id.clone(),
                content: content.clone(),
            },
        }
    }
}

/// A tool exposed to the model, with a JSON schema for its parameters.
#[derive(Debug, PartialEq, Default)]
pub struct ToolDefinition {
    pub name: String,
    pub description: String,
    pub parameters: Json,
}

#[verifier::ext_equal]
pub struct ToolDefinitionView {
    pub name: Seq<char>,
    pub description: Seq<char>,
    pub parameters: JsonView,
}

impl DeepView for ToolDefinition {
    type V = ToolDefinitionView;

    open spec fn deep_view(&self) -> ToolDefinitionView {
        ToolDefinitionView {
            name: self.name@,
            description: self.description@,
            parameters: self.parameters.deep_view(),
        }
    }
}

impl Clone for ToolDefinition {
    fn clone(&self) -> (copy: Self)
        ensures
            copy.deep_view() == self.deep_view(),
    {
        ToolDefinition {
            name: self.name.clone(),
            description: self.description.clone(),
            parameters: self.parameters.clone(),
        }
    }
}

/// Events produced by a single agent turn, in stream order.
#[derive(Debug, PartialEq)]
pub enum AgentEvent {
    TextDelta(String),
    ReasoningDelta(String),
    /// Emitted once a streamed tool call is fully accumulated.
    ToolCall(ToolCallRequest),
    Usage { input_tokens: u64, output_tokens: u64 },
    /// Always the final event of a successful turn.
    Done,
}

#[verifier::ext_equal]
pub enum AgentEventView {
    TextDelta(Seq<char>),
    ReasoningDelta(Seq<char>),
    ToolCall(ToolCallRequestView),
    Usage { input_tokens: u64, output_tokens: u64 },
    Done,
}

impl DeepView for AgentEvent {
    type V = AgentEventView;

    open spec fn deep_view(&self) -> AgentEventView {
        match self {
            AgentEvent::TextDelta(value) => AgentEventView::TextDelta(value@),
            AgentEvent::ReasoningDelta(value) => AgentEventView::ReasoningDelta(value@),
            AgentEvent::ToolCall(value) => AgentEventView::ToolCall(value.deep_view()),
            AgentEvent::Usage { input_tokens, output_tokens } => AgentEventView::Usage {
                input_tokens: *input_tokens,
                output_tokens: *output_tokens,
            },
            AgentEvent::Done => AgentEventView::Done,
        }
    }
}

impl Clone for AgentEvent {
    fn clone(&self) -> (copy: Self)
        ensures
            copy.deep_view() == self.deep_view(),
    {
        match self {
            AgentEvent::TextDelta(value) => AgentEvent::TextDelta(value.clone()),
            AgentEvent::ReasoningDelta(value) => AgentEvent::ReasoningDelta(value.clone()),
            AgentEvent::ToolCall(value) => AgentEvent::ToolCall(value.clone()),
            AgentEvent::Usage { input_tokens, output_tokens } => AgentEvent::Usage {
                input_tokens: *input_tokens,
                output_tokens: *output_tokens,
            },
            AgentEvent::Done => AgentEvent::Done,
        }
    }
}

/// Why a turn failed.
#[derive(Debug, PartialEq)]
pub enum LocalAgentError {
    /// The endpoint rejected the credentials.
    InvalidApiKey { model_slug: String },
    /// The request exceeded the model's context window.
    ContextWindowExceeded { message: String },
    /// Any other status that is not a success.
    ErrorStatus { status: u16, body: String },
    /// Network failure, disconnects in the middle of a stream among them.
    Transport(String),
    /// The endpoint returned something that could not be parsed.
    Parse(String),
    Unimplemented(&'static str),
}

#[verifier::ext_equal]
pub enum LocalAgentErrorView {
    InvalidApiKey { model_slug: Seq<char> },
    ContextWindowExceeded { message: Seq<char> },
    ErrorStatus { status: u16, body: Seq<char> },
    Transport(Seq<char>),
    Parse(Seq<char>),
    Unimplemented(Seq<char>),
}

impl DeepView for LocalAgentError {
    type V = LocalAgentErrorView;

    open spec fn deep_view(&self) -> LocalAgentErrorView {
        match self {
            LocalAgentError::InvalidApiKey { model_slug } => LocalAgentErrorView::InvalidApiKey {
                model_slug: model_slug@,
            },
            LocalAgentError::ContextWindowExceeded { message } => LocalAgentErrorView::ContextWindowExceeded {
                message: message@,
            },
            LocalAgentError::ErrorStatus { status, body } => LocalAgentErrorView::ErrorStatus {
                status: *status,
                body: body@,
            },
            LocalAgentError::Transport(value) => LocalAgentErrorView::Transport(value@),
            LocalAgentError::Parse(value) => LocalAgentErrorView::Parse(value@),
            LocalAgentError::Unimplemented(value) => LocalAgentErrorView::Unimplemented(value@),
        }
    }
}

impl Clone for LocalAgentError {
    fn clone(&self) -> (copy: Self)
        ensures
            copy.deep_view() == self.deep_view(),
    {
        match self {
            LocalAgentError::InvalidApiKey { model_slug } => LocalAgentError::InvalidApiKey {
                model_slug: model_slug.clone(),
            },
            LocalAgentError::ContextWindowExceeded { message } => LocalAgentError::ContextWindowExceeded {
                message: message.clone(),
            },
            LocalAgentError::ErrorStatus { status, body } => LocalAgentError::ErrorStatus {
                status: *status,
                body: body.clone(),
            },
            LocalAgentError::Transport(value) => LocalAgentError::Transport(value.clone()),
            LocalAgentError::Parse(value) => LocalAgentError::Parse(value.clone()),
            LocalAgentError::Unimplemented(value) => LocalAgentError::Unimplemented(*value),
        }
    }
}

/// Why a request or a tool call cannot be served by the local loop.
#[derive(Debug, PartialEq)]
pub enum AdapterError {
    UnsupportedInput(&'static str),
    UnknownTool(String),
    BadToolArguments { tool: String, message: String },
}

#[verifier::ext_equal]
pub enum AdapterErrorView {
    UnsupportedInput(Seq<char>),
    UnknownTool(Seq<char>),
    BadToolArguments { tool: Seq<char>, message: Seq<char> },
}

impl DeepView for AdapterError {
    type V = AdapterErrorView;

    open spec fn deep_view(&self) -> AdapterErrorView {
        match self {
            AdapterError::UnsupportedInput(value) => AdapterErrorView::UnsupportedInput(value@),
            AdapterError::UnknownTool(value) => AdapterErrorView::UnknownTool(value@),
            AdapterError::BadToolArguments { tool, message } => AdapterErrorView::BadToolArguments {
                tool: tool@,
                message: message@,
            },
        }
    }
}

impl Clone for AdapterError {
    fn clone(&self) -> (copy: Self)
        ensures
            copy.deep_view() == self.deep_view(),
    {
        match self {
            AdapterError::UnsupportedInput(value) => AdapterError::UnsupportedInput(*value),
            AdapterError::UnknownTool(value) => AdapterError::UnknownTool(value.clone()),
            AdapterError::BadToolArguments { tool, message } => AdapterError::BadToolArguments {
                tool: tool.clone(),
                message: message.clone(),
            },
        }
    }
}

/// The message that a [`LocalAgentError`] shows.
pub open spec fn agent_error_text(error: LocalAgentErrorView) -> Seq<char> {
    match error {
        LocalAgentErrorView::InvalidApiKey { model_slug } => "invalid API key for "@ + model_slug,
        LocalAgentErrorView::ContextWindowExceeded { message } => "context window exceeded: "@
            + message,
        LocalAgentErrorView::ErrorStatus { status, body } => "endpoint returned "@ + text::decimal(
            status as int,
        ) + ": "@ + body,
        LocalAgentErrorView::Transport(message) => "transport error: "@ + message,
        LocalAgentErrorView::Parse(message) => "malformed response: "@ + message,
        LocalAgentErrorView::Unimplemented(message) => "not implemented: "@ + message,
    }
}

impl LocalAgentError {
    /// The message that the error shows.
    pub fn message(&self) -> (message: String)
        ensures
            message@ == agent_error_text(self.deep_view()),
    {
        match self {
            LocalAgentError::InvalidApiKey { model_slug } => {
                let mut message = "invalid API key for ".to_string();
                message.append(model_slug.as_str());
                message
            },
            LocalAgentError::ContextWindowExceeded { message: detail } => {
                let mut message = "context window exceeded: ".to_string();
                message.append(detail.as_str());
                message
            },
            LocalAgentError::ErrorStatus { status, body } => {
                let mut message = "endpoint returned ".to_string();
                message.append(text::unsigned_text(*status as u64).as_str());
                message.append(": ");
                message.append(body.as_str());
                message
            },
            LocalAgentError::Transport(detail) => {
                let mut message = "transport error: ".to_string();
                message.append(detail.as_str());
                message
            },
            LocalAgentError::Parse(detail) => {
                let mut message = "malformed response: ".to_string();
                message.append(detail.as_str());
                message
            },
            LocalAgentError::Unimplemented(detail) => {
                let mut message = "not implemented: ".to_string();
                message.append(detail);
                message
            },
        }
    }
}

/// The message that an [`AdapterError`] shows.
pub open spec fn adapter_error_text(error: AdapterErrorView) -> Seq<char> {
    match error {
        AdapterErrorView::UnsupportedInput(reason) => "unsupported input for local agent loop: "@
            + reason,
        AdapterErrorView::UnknownTool(name) => "unknown tool call from model: "@ + name,
        AdapterErrorView::BadToolArguments { tool, message } => "malformed tool arguments for "@
            + tool + ": "@ + message,
    }
}

impl AdapterError {
    /// The message that the error shows.
    pub fn message(&self) -> (message: String)
        ensures
            message@ == adapter_error_text(self.deep_view()),
    {
        match self {
            AdapterError::UnsupportedInput(reason) => {
                let mut message = "unsupported input for local agent loop: ".to_string();
                message.append(reason);
                message
            },
            AdapterError::UnknownTool(name) => {
                let mut message = "unknown tool call from model: ".to_string();
                message.append(name.as_str());
                message
            },
            AdapterError::BadToolArguments { tool, message: detail } => {
                let mut message = "malformed tool arguments for ".to_string();
                message.append(tool.as_str());
                message.append(": ");
                message.append(detail.as_str());
                message
            },
        }
    }
}

} // verus!

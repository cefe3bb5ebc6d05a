//! The wire format of streaming chat completions: what is sent to an endpoint,
//! and how the chunks that come back are folded into events.

use vstd::prelude::*;

use crate::fragments;
use crate::json;
use crate::json::{Json, JsonView};
use crate::keys;
use crate::model::{
    AgentEvent, AgentEventView, ChatMessage, ChatMessageView, LocalAgentError, LocalAgentErrorView,
    LocalEndpointConfig, LocalEndpointConfigView, ToolCallRequest, ToolCallRequestView,
    ToolDefinition, ToolDefinitionView,
};
use crate::text;

verus! {

/// What a stream is to carry besides the completion.
#[derive(Debug, PartialEq, Default)]
pub struct StreamOptions {
    pub include_usage: bool,
}

#[verifier::ext_equal]
pub struct StreamOptionsView {
    pub include_usage: bool,
}

impl DeepView for StreamOptions {
    type V = StreamOptionsView;

    open spec fn deep_view(&self) -> StreamOptionsView {
        StreamOptionsView {
            include_usage: self.include_usage,
        }
    }
}

impl Clone for StreamOptions {
    fn clone(&self) -> (copy: Self)
        ensures
            copy.deep_view() == self.deep_view(),
    {
        StreamOptions {
            include_usage: self.include_usage,
        }
    }
}

/// The function that a tool call calls.
#[derive(Debug, PartialEq, Default)]
pub struct OutgoingFunctionCall {
    pub name: String,
    /// The arguments as JSON text, which is what the wire format has.
    pub arguments: String,
}

#[verifier::ext_equal]
pub struct OutgoingFunctionCallView {
    pub name: Seq<char>,
    pub arguments: Seq<char>,
}

impl DeepView for OutgoingFunctionCall {
    type V = OutgoingFunctionCallView;

    open spec fn deep_view(&self) -> OutgoingFunctionCallView {
        OutgoingFunctionCallView {
            name: self.name@,
            arguments: self.arguments@,
        }
    }
}

impl Clone for OutgoingFunctionCall {
    fn clone(&self) -> (copy: Self)
        ensures
            copy.deep_view() == self.deep_view(),
    {
        OutgoingFunctionCall {
            name: self.name.clone(),
            arguments: self.arguments.clone(),
        }
    }
}

/// A tool call that the model made before.
#[derive(Debug, PartialEq, Default)]
pub struct OutgoingToolCall {
    pub id: String,
    pub kind: &'static str,
    pub function: OutgoingFunctionCall,
}

#[verifier::ext_equal]
pub struct OutgoingToolCallView {
    pub id: Seq<char>,
    pub kind: Seq<char>,
    pub function: OutgoingFunctionCallView,
}

impl DeepView for OutgoingToolCall {
    type V = OutgoingToolCallView;

    open spec fn deep_view(&self) -> OutgoingToolCallView {
        OutgoingToolCallView {
            id: self.id@,
            kind: self.kind@,
            function: self.function.deep_view(),
        }
    }
}

impl Clone for OutgoingToolCall {
    fn clone(&self) -> (copy: Self)
        ensures
            copy.deep_view() == self.deep_view(),
    {
        OutgoingToolCall {
            id: self.id.clone(),
            kind: self.kind,
            function: self.function.clone(),
        }
    }
}

/// A message of the transcript.
#[derive(Debug, PartialEq, Default)]
pub struct OutgoingMessage {
    pub role: &'static str,
    pub content: Option<String>,
    pub tool_calls: Vec<OutgoingToolCall>,
    pub tool_call_id: Option<String>,
}

#[verifier::ext_equal]
pub struct OutgoingMessageView {
    pub role: Seq<char>,
    pub content: Option<Seq<char>>,
    pub tool_calls: Seq<OutgoingToolCallView>,
    pub tool_call_id: Option<Seq<char>>,
}

impl DeepView for OutgoingMessage {
    type V = OutgoingMessageView;

    open spec fn deep_view(&self) -> OutgoingMessageView {
        OutgoingMessageView {
            role: self.role@,
            content: self.content.deep_view(),
            tool_calls: self.tool_calls.deep_view(),
            tool_call_id: self.tool_call_id.deep_view(),
        }
    }
}

impl Clone for OutgoingMessage {
    fn clone(&self) -> (copy: Self)
        ensures
            copy.deep_view() == self.deep_view(),
    {
        let copy = OutgoingMessage {
            role: self.role,
            content: self.content.clone(),
            tool_calls: self.tool_calls.clone(),
            tool_call_id: self.tool_call_id.clone(),
        };
        assert(copy.tool_calls.deep_view() =~= self.tool_calls.deep_view());
        copy
    }
}

/// A function that the model may call.
#[derive(Debug, PartialEq, Default)]
pub struct OutgoingFunctionDef {
    pub name: String,
    pub description: String,
    pub parameters: Json,
}

#[verifier::ext_equal]
pub struct OutgoingFunctionDefView {
    pub name: Seq<char>,
    pub description: Seq<char>,
    pub parameters: JsonView,
}

impl DeepView for OutgoingFunctionDef {
    type V = OutgoingFunctionDefView;

    open spec fn deep_view(&self) -> OutgoingFunctionDefView {
        OutgoingFunctionDefView {
            name: self.name@,
            description: self.description@,
            parameters: self.parameters.deep_view(),
        }
    }
}

impl Clone for OutgoingFunctionDef {
    fn clone(&self) -> (copy: Self)
        ensures
            copy.deep_view() == self.deep_view(),
    {
        OutgoingFunctionDef {
            name: self.name.clone(),
            description: self.description.clone(),
            parameters: self.parameters.clone(),
        }
    }
}

/// A tool that the model may call.
#[derive(Debug, PartialEq, Default)]
pub struct OutgoingTool {
    pub kind: &'static str,
    pub function: OutgoingFunctionDef,
}

#[verifier::ext_equal]
pub struct OutgoingToolView {
    pub kind: Seq<char>,
    pub function: OutgoingFunctionDefView,
}

impl DeepView for OutgoingTool {
    type V = OutgoingToolView;

    open spec fn deep_view(&self) -> OutgoingToolView {
        OutgoingToolView {
            kind: self.kind@,
            function: self.function.deep_view(),
        }
    }
}

impl Clone for OutgoingTool {
    fn clone(&self) -> (copy: Self)
        ensures
            copy.deep_view() == self.deep_view(),
    {
        OutgoingTool {
            kind: self.kind,
            function: self.function.clone(),
        }
    }
}

/// The body of a request for a completion.
#[derive(Debug, PartialEq, Default)]
pub struct ChatRequest {
    pub model: String,
    pub messages: Vec<OutgoingMessage>,
    pub stream: bool,
    pub stream_options: StreamOptions,
    pub tools: Vec<OutgoingTool>,
}

#[verifier::ext_equal]
pub struct ChatRequestView {
    pub model: Seq<char>,
    pub messages: Seq<OutgoingMessageView>,
    pub stream: bool,
    pub stream_options: StreamOptionsView,
    pub tools: Seq<OutgoingToolView>,
}

impl DeepView for ChatRequest {
    type V = ChatRequestView;

    open spec fn deep_view(&self) -> ChatRequestView {
        ChatRequestView {
            model: self.model@,
            messages: self.messages.deep_view(),
            stream: self.stream,
            stream_options: self.stream_options.deep_view(),
            tools: self.tools.deep_view(),
        }
    }
}

impl Clone for ChatRequest {
    fn clone(&self) -> (copy: Self)
        ensures
            copy.deep_view() == self.deep_view(),
    {
        let copy = ChatRequest {
            model: self.model.clone(),
            messages: self.messages.clone(),
            stream: self.stream,
            stream_options: self.stream_options.clone(),
            tools: self.tools.clone(),
        };
        assert(copy.messages.deep_view() =~= self.messages.deep_view());
        assert(copy.tools.deep_view() =~= self.tools.deep_view());
        copy
    }
}

/// A fragment of the function that a tool call calls.
#[derive(Debug, PartialEq, Default)]
pub struct FunctionDelta {
    pub name: Option<String>,
    pub arguments: Option<String>,
}

#[verifier::ext_equal]
pub struct FunctionDeltaView {
    pub name: Option<Seq<char>>,
    pub arguments: Option<Seq<char>>,
}

impl DeepView for FunctionDelta {
    type V = FunctionDeltaView;

    open spec fn deep_view(&self) -> FunctionDeltaView {
        FunctionDeltaView {
            name: self.name.deep_view(),
            arguments: self.arguments.deep_view(),
        }
    }
}

impl Clone for FunctionDelta {
    fn clone(&self) -> (copy: Self)
        ensures
            copy.deep_view() == self.deep_view(),
    {
        FunctionDelta {
            name: self.name.clone(),
            arguments: self.arguments.clone(),
        }
    }
}

/// A fragment of a tool call.
#[derive(Debug, PartialEq, Default)]
pub struct ToolCallDelta {
    pub index: u32,
    pub id: Option<String>,
    pub function: Option<FunctionDelta>,
}

#[verifier::ext_equal]
pub struct ToolCallDeltaView {
    pub index: u32,
    pub id: Option<Seq<char>>,
    pub function: Option<FunctionDeltaView>,
}

impl DeepView for ToolCallDelta {
    type V = ToolCallDeltaView;

    open spec fn deep_view(&self) -> ToolCallDeltaView {
        ToolCallDeltaView {
            index: self.index,
            id: self.id.deep_view(),
            function: self.function.deep_view(),
        }
    }
}

impl Clone for ToolCallDelta {
    fn clone(&self) -> (copy: Self)
        ensures
            copy.deep_view() == self.deep_view(),
    {
        ToolCallDelta {
            index: self.index,
            id: self.id.clone(),
            function: self.function.clone(),
        }
    }
}

/// What a chunk adds to a choice.
#[derive(Debug, PartialEq, Default)]
pub struct ChunkDelta {
    pub content: Option<String>,
    pub reasoning_content: Option<String>,
    pub reasoning: Option<String>,
    pub reasoning_text: Option<String>,
    pub tool_calls: Vec<ToolCallDelta>,
}

#[verifier::ext_equal]
pub struct ChunkDeltaView {
    pub content: Option<Seq<char>>,
    pub reasoning_content: Option<Seq<char>>,
    pub reasoning: Option<Seq<char>>,
    pub reasoning_text: Option<Seq<char>>,
    pub tool_calls: Seq<ToolCallDeltaView>,
}

impl DeepView for ChunkDelta {
    type V = ChunkDeltaView;

    open spec fn deep_view(&self) -> ChunkDeltaView {
        ChunkDeltaView {
            content: self.content.deep_view(),
            reasoning_content: self.reasoning_content.deep_view(),
            reasoning: self.reasoning.deep_view(),
            reasoning_text: self.reasoning_text.deep_view(),
            tool_calls: self.tool_calls.deep_view(),
        }
    }
}

impl Clone for ChunkDelta {
    fn clone(&self) -> (copy: Self)
        ensures
            copy.deep_view() == self.deep_view(),
    {
        let copy = ChunkDelta {
            content: self.content.clone(),
            reasoning_content: self.reasoning_content.clone(),
            reasoning: self.reasoning.clone(),
            reasoning_text: self.reasoning_text.clone(),
            tool_calls: self.tool_calls.clone(),
        };
        assert(copy.tool_calls.deep_view() =~= self.tool_calls.deep_view());
        copy
    }
}

/// One choice of a chunk.
#[derive(Debug, PartialEq, Default)]
pub struct ChunkChoice {
    pub delta: ChunkDelta,
    pub finish_reason: Option<String>,
}

#[verifier::ext_equal]
pub struct ChunkChoiceView {
    pub delta: ChunkDeltaView,
    pub finish_reason: Option<Seq<char>>,
}

impl DeepView for ChunkChoice {
    type V = ChunkChoiceView;

    open spec fn deep_view(&self) -> ChunkChoiceView {
        ChunkChoiceView {
            delta: self.delta.deep_view(),
            finish_reason: self.finish_reason.deep_view(),
        }
    }
}

impl Clone for ChunkChoice {
    fn clone(&self) -> (copy: Self)
        ensures
            copy.deep_view() == self.deep_view(),
    {
        ChunkChoice {
            delta: self.delta.clone(),
            finish_reason: self.finish_reason.clone(),
        }
    }
}

/// The tokens that a completion used.
#[derive(Debug, PartialEq, Default)]
pub struct ChunkUsage {
    pub prompt_tokens: u64,
    pub completion_tokens: u64,
}

#[verifier::ext_equal]
pub struct ChunkUsageView {
    pub prompt_tokens: u64,
    pub completion_tokens: u64,
}

impl DeepView for ChunkUsage {
    type V = ChunkUsageView;

    open spec fn deep_view(&self) -> ChunkUsageView {
        ChunkUsageView {
            prompt_tokens: self.prompt_tokens,
            completion_tokens: self.completion_tokens,
        }
    }
}

impl Clone for ChunkUsage {
    fn clone(&self) -> (copy: Self)
        ensures
            copy.deep_view() == self.deep_view(),
    {
        ChunkUsage {
            prompt_tokens: self.prompt_tokens,
            completion_tokens: self.completion_tokens,
        }
    }
}

/// One chunk of a streamed completion.
#[derive(Debug, PartialEq, Default)]
pub struct ChunkResponse {
    pub choices: Vec<ChunkChoice>,
    pub usage: Option<ChunkUsage>,
}

#[verifier::ext_equal]
pub struct ChunkResponseView {
    pub choices: Seq<ChunkChoiceView>,
    pub usage: Option<ChunkUsageView>,
}

impl DeepView for ChunkResponse {
    type V = ChunkResponseView;

    open spec fn deep_view(&self) -> ChunkResponseView {
        ChunkResponseView {
            choices: self.choices.deep_view(),
            usage: self.usage.deep_view(),
        }
    }
}

impl Clone for ChunkResponse {
    fn clone(&self) -> (copy: Self)
        ensures
            copy.deep_view() == self.deep_view(),
    {
        let copy = ChunkResponse {
            choices: self.choices.clone(),
            usage: self.usage.clone(),
        };
        assert(copy.choices.deep_view() =~= self.choices.deep_view());
        copy
    }
}

/// A tool call whose fragments are still coming in.
#[derive(Debug, PartialEq, Default)]
pub struct PartialToolCall {
    pub index: u32,
    pub id: String,
    pub name: String,
    pub arguments: String,
}

#[verifier::ext_equal]
pub struct PartialToolCallView {
    pub index: u32,
    pub id: Seq<char>,
    pub name: Seq<char>,
    pub arguments: Seq<char>,
}

impl DeepView for PartialToolCall {
    type V = PartialToolCallView;

    open spec fn deep_view(&self) -> PartialToolCallView {
        PartialToolCallView {
            index: self.index,
            id: self.id@,
            name: self.name@,
            arguments: self.arguments@,
        }
    }
}

impl Clone for PartialToolCall {
    fn clone(&self) -> (copy: Self)
        ensures
            copy.deep_view() == self.deep_view(),
    {
        PartialToolCall {
            index: self.index,
            id: self.id.clone(),
            name: self.name.clone(),
            arguments: self.arguments.clone(),
        }
    }
}

/// Folds streamed chunks into events.
#[derive(Debug, PartialEq, Default)]
pub struct StreamAccumulator {
    /// In the order of their indices, no index twice, as [`indexed`] has it.
    pub pending_tool_calls: Vec<PartialToolCall>,
    pub finish_reason_seen: bool,
}

#[verifier::ext_equal]
pub struct StreamAccumulatorView {
    pub pending_tool_calls: Seq<PartialToolCallView>,
    pub finish_reason_seen: bool,
}

impl DeepView for StreamAccumulator {
    type V = StreamAccumulatorView;

    open spec fn deep_view(&self) -> StreamAccumulatorView {
        StreamAccumulatorView {
            pending_tool_calls: self.pending_tool_calls.deep_view(),
            finish_reason_seen: self.finish_reason_seen,
        }
    }
}

impl Clone for StreamAccumulator {
    fn clone(&self) -> (copy: Self)
        ensures
            copy.deep_view() == self.deep_view(),
    {
        let copy = StreamAccumulator {
            pending_tool_calls: self.pending_tool_calls.clone(),
            finish_reason_seen: self.finish_reason_seen,
        };
        assert(copy.pending_tool_calls.deep_view() =~= self.pending_tool_calls.deep_view());
        copy
    }
}

/// A failure of the event source that chunks come from.
#[derive(Debug, PartialEq)]
pub enum SourceFailure {
    InvalidStatusCode { status: u16, body: String },
    InvalidContentType { content_type: String, body: String },
    Transport(String),
    Utf8(String),
    Parser(String),
    InvalidLastEventId(String),
    StreamEnded,
}

#[verifier::ext_equal]
pub enum SourceFailureView {
    InvalidStatusCode { status: u16, body: Seq<char> },
    InvalidContentType { content_type: Seq<char>, body: Seq<char> },
    Transport(Seq<char>),
    Utf8(Seq<char>),
    Parser(Seq<char>),
    InvalidLastEventId(Seq<char>),
    StreamEnded,
}

impl DeepView for SourceFailure {
    type V = SourceFailureView;

    open spec fn deep_view(&self) -> SourceFailureView {
        match self {
            SourceFailure::InvalidStatusCode { status, body } => SourceFailureView::InvalidStatusCode {
                status: *status,
                body: body@,
            },
            SourceFailure::InvalidContentType { content_type, body } => SourceFailureView::InvalidContentType {
                content_type: content_type@,
                body: body@,
            },
            SourceFailure::Transport(value) => SourceFailureView::Transport(value@),
            SourceFailure::Utf8(value) => SourceFailureView::Utf8(value@),
            SourceFailure::Parser(value) => SourceFailureView::Parser(value@),
            SourceFailure::InvalidLastEventId(value) => SourceFailureView::InvalidLastEventId(
                value@,
            ),
            SourceFailure::StreamEnded => SourceFailureView::StreamEnded,
        }
    }
}

impl Clone for SourceFailure {
    fn clone(&self) -> (copy: Self)
        ensures
            copy.deep_view() == self.deep_view(),
    {
        match self {
            SourceFailure::InvalidStatusCode { status, body } => SourceFailure::InvalidStatusCode {
                status: *status,
                body: body.clone(),
            },
            SourceFailure::InvalidContentType { content_type, body } => SourceFailure::InvalidContentType {
                content_type: content_type.clone(),
                body: body.clone(),
            },
            SourceFailure::Transport(value) => SourceFailure::Transport(value.clone()),
            SourceFailure::Utf8(value) => SourceFailure::Utf8(value.clone()),
            SourceFailure::Parser(value) => SourceFailure::Parser(value.clone()),
            SourceFailure::InvalidLastEventId(value) => SourceFailure::InvalidLastEventId(
                value.clone(),
            ),
            SourceFailure::StreamEnded => SourceFailure::StreamEnded,
        }
    }
}

/// Where completions are requested below an endpoint's base URL.
pub const COMPLETIONS_PATH: &'static str = "/chat/completions";

/// The URL for completions of an endpoint.
pub open spec fn completions_url(base_url: Seq<char>) -> Seq<char> {
    let trimmed = text::trim_end_mark(base_url, '/');
    if text::ends_with(trimmed, COMPLETIONS_PATH@) {
        trimmed
    } else {
        trimmed + COMPLETIONS_PATH@
    }
}

/// The URL for completions of an endpoint. Users configure either a base URL or the full URL; a
/// URL that already ends in `/chat/completions` is used as it is.
pub fn endpoint_url(base_url: &str) -> (url: String)
    ensures
        url@ == completions_url(base_url@),
{
    let mut trimmed = text::trimmed_end_mark(base_url, '/');
    if !text::text_ends_with(trimmed.as_str(), COMPLETIONS_PATH) {
        trimmed.append(COMPLETIONS_PATH);
    }
    trimmed
}

/// The URL for completions always ends in the path for completions, and is its own URL for
/// completions.
pub proof fn completions_url_is_settled(base_url: Seq<char>)
    ensures
        text::ends_with(completions_url(base_url), COMPLETIONS_PATH@),
        completions_url(completions_url(base_url)) == completions_url(base_url),
{
    reveal_strlit("/chat/completions");
    let path = COMPLETIONS_PATH@;
    let trimmed = text::trim_end_mark(base_url, '/');
    let url = completions_url(base_url);
    if !text::ends_with(trimmed, path) {
        assert((trimmed + path).subrange(trimmed.len() as int, url.len() as int) =~= path);
    }
    assert(path[16] == 's');
    assert(url.subrange(url.len() - path.len(), url.len() as int)[16] == 's');
    assert(url.last() == 's');
    assert(text::trim_end_mark(url, '/') == url);
}

/// A message as the wire format has it.
pub open spec fn outgoing(message: ChatMessageView) -> OutgoingMessageView {
    match message {
        ChatMessageView::System(content) => OutgoingMessageView {
            role: "system"@,
            content: Some(content),
            tool_calls: Seq::empty(),
            tool_call_id: None,
        },
        ChatMessageView::User(content) => OutgoingMessageView {
            role: "user"@,
            content: Some(content),
            tool_calls: Seq::empty(),
            tool_call_id: None,
        },
        ChatMessageView::Assistant { text: content, tool_calls } => OutgoingMessageView {
            role: "assistant"@,
            content: if content.len() == 0 {
                None
            } else {
                Some(content)
            },
            tool_calls: tool_calls.map_values(|call: ToolCallRequestView| outgoing_call(call)),
            tool_call_id: None,
        },
        ChatMessageView::Tool { tool_call_id, content } => OutgoingMessageView {
            role: "tool"@,
            content: Some(content),
            tool_calls: Seq::empty(),
            tool_call_id: Some(tool_call_id),
        },
    }
}

/// A tool call as the wire format has it, given its arguments as text.
pub open spec fn outgoing_call_with(
    call: ToolCallRequestView,
    arguments: Seq<char>,
) -> OutgoingToolCallView {
    OutgoingToolCallView {
        id: call.id,
        kind: "function"@,
        function: OutgoingFunctionCallView { name: call.name, arguments },
    }
}

/// A tool call as the wire format has it, with its arguments printed.
pub open spec fn outgoing_call(call: ToolCallRequestView) -> OutgoingToolCallView {
    outgoing_call_with(call, json::printed_json(call.arguments))
}

/// A tool call as the wire format has it, given its arguments as text.
pub fn make_outgoing_call(call: &ToolCallRequest, arguments: String) -> (result: OutgoingToolCall)
    ensures
        result.deep_view() == outgoing_call_with(call.deep_view(), arguments@),
{
    OutgoingToolCall {
        id: call.id.clone(),
        kind: "function",
        function: OutgoingFunctionCall { name: call.name.clone(), arguments },
    }
}

/// A tool as the wire format has it.
pub open spec fn outgoing_tool(tool: ToolDefinitionView) -> OutgoingToolView {
    OutgoingToolView {
        kind: "function"@,
        function: OutgoingFunctionDefView {
            name: tool.name,
            description: tool.description,
            parameters: tool.parameters,
        },
    }
}

/// The request for one turn.
pub open spec fn request_for(
    transcript: Seq<ChatMessageView>,
    tools: Seq<ToolDefinitionView>,
    config: LocalEndpointConfigView,
) -> ChatRequestView {
    ChatRequestView {
        model: config.model_slug,
        messages: transcript.map_values(|message: ChatMessageView| outgoing(message)),
        stream: true,
        stream_options: StreamOptionsView { include_usage: true },
        tools: tools.map_values(|tool: ToolDefinitionView| outgoing_tool(tool)),
    }
}

fn plain_message(role: &'static str, content: String, tool_call_id: Option<String>) -> (message:
    OutgoingMessage)
    ensures
        message.deep_view() == (OutgoingMessageView {
            role: role@,
            content: Some(content@),
            tool_calls: Seq::empty(),
            tool_call_id: tool_call_id.deep_view(),
        }),
{
    let tool_calls: Vec<OutgoingToolCall> = Vec::new();
    assert(tool_calls.deep_view() =~= Seq::empty());
    OutgoingMessage { role, content: Some(content), tool_calls, tool_call_id }
}

fn make_outgoing(message: &ChatMessage) -> (result: OutgoingMessage)
    ensures
        result.deep_view() == outgoing(message.deep_view()),
{
    match message {
        ChatMessage::System(content) => plain_message("system", content.clone(), None),
        ChatMessage::User(content) => plain_message("user", content.clone(), None),
        ChatMessage::Assistant { text: content, tool_calls } => {
            let mut calls: Vec<OutgoingToolCall> = Vec::new();
            for i in 0..tool_calls.len()
                invariant
                    calls@.len() == i,
                    forall|k: int|
                        0 <= k < i ==> (#[trigger] calls@[k]).deep_view() == outgoing_call(
                            tool_calls@[k].deep_view(),
                        ),
            {
                let arguments = json::print_json(&tool_calls[i].arguments);
                calls.push(make_outgoing_call(&tool_calls[i], arguments));
            }
            assert(calls.deep_view() =~= tool_calls.deep_view().map_values(
                |call: ToolCallRequestView| outgoing_call(call),
            ));
            OutgoingMessage {
                role: "assistant",
                content: if text::is_empty_text(content.as_str()) {
                    None
                } else {
                    Some(content.clone())
                },
                tool_calls: calls,
                tool_call_id: None,
            }
        },
        ChatMessage::Tool { tool_call_id, content } => plain_message(
            "tool",
            content.clone(),
            Some(tool_call_id.clone()),
        ),
    }
}

/// Builds the request for one turn.
pub fn build_request(
    transcript: &[ChatMessage],
    tools: &[ToolDefinition],
    config: &LocalEndpointConfig,
) -> (request: ChatRequest)
    ensures
        request.deep_view() == request_for(
            transcript.deep_view(),
            tools.deep_view(),
            config.deep_view(),
        ),
{
    let mut messages: Vec<OutgoingMessage> = Vec::new();
    for i in 0..transcript.len()
        invariant
            messages@.len() == i,
            forall|k: int|
                0 <= k < i ==> (#[trigger] messages@[k]).deep_view() == outgoing(
                    transcript@[k].deep_view(),
                ),
    {
        messages.push(make_outgoing(&transcript[i]));
    }
    assert(messages.deep_view() =~= transcript.deep_view().map_values(
        |message: ChatMessageView| outgoing(message),
    ));
    let mut outgoing_tools: Vec<OutgoingTool> = Vec::new();
    for i in 0..tools.len()
        invariant
            outgoing_tools@.len() == i,
            forall|k: int|
                0 <= k < i ==> (#[trigger] outgoing_tools@[k]).deep_view() == outgoing_tool(
                    tools@[k].deep_view(),
                ),
    {
        outgoing_tools.push(
            OutgoingTool {
                kind: "function",
                function: OutgoingFunctionDef {
                    name: tools[i].name.clone(),
                    description: tools[i].description.clone(),
                    parameters: tools[i].parameters.clone(),
                },
            },
        );
    }
    assert(outgoing_tools.deep_view() =~= tools.deep_view().map_values(
        |tool: ToolDefinitionView| outgoing_tool(tool),
    ));
    ChatRequest {
        model: config.model_slug.clone(),
        messages,
        stream: true,
        stream_options: StreamOptions { include_usage: true },
        tools: outgoing_tools,
    }
}

/// A text, where there is one and it is not empty.
pub open spec fn filled(value: Option<Seq<char>>) -> Option<Seq<char>> {
    match value {
        Some(content) => if content.len() == 0 {
            None
        } else {
            Some(content)
        },
        None => None,
    }
}

/// The reasoning that a delta carries. Servers name it differently, and some of them fill several
/// fields with the same text; the first that is not empty counts.
pub open spec fn reasoning_in(delta: ChunkDeltaView) -> Option<Seq<char>> {
    match filled(delta.reasoning_content) {
        Some(content) => Some(content),
        None => match filled(delta.reasoning) {
            Some(content) => Some(content),
            None => filled(delta.reasoning_text),
        },
    }
}

impl ChunkDelta {
    /// The reasoning that the delta carries.
    pub fn reasoning_delta(&self) -> (reasoning: Option<&str>)
        ensures
            match reasoning {
                Some(content) => reasoning_in(self.deep_view()) == Some(content@),
                None => reasoning_in(self.deep_view()) is None,
            },
    {
        if let Some(content) = &self.reasoning_content {
            if !text::is_empty_text(content.as_str()) {
                return Some(content.as_str());
            }
        }
        if let Some(content) = &self.reasoning {
            if !text::is_empty_text(content.as_str()) {
                return Some(content.as_str());
            }
        }
        if let Some(content) = &self.reasoning_text {
            if !text::is_empty_text(content.as_str()) {
                return Some(content.as_str());
            }
        }
        None
    }
}

/// A tool call of which nothing came in yet.
pub open spec fn blank_call(index: u32) -> PartialToolCallView {
    PartialToolCallView { index, id: Seq::empty(), name: Seq::empty(), arguments: Seq::empty() }
}

/// A tool call with one more fragment: a later id or name takes the place of an earlier one, and
/// arguments are run together.
pub open spec fn merged(partial: PartialToolCallView, delta: ToolCallDeltaView) -> PartialToolCallView {
    PartialToolCallView {
        index: partial.index,
        id: match filled(delta.id) {
            Some(id) => id,
            None => partial.id,
        },
        name: match delta.function {
            Some(function) => match filled(function.name) {
                Some(name) => name,
                None => partial.name,
            },
            None => partial.name,
        },
        arguments: match delta.function {
            Some(function) => match function.arguments {
                Some(arguments) => partial.arguments + arguments,
                None => partial.arguments,
            },
            None => partial.arguments,
        },
    }
}

/// The first position from `from` on whose call does not come before `index`.
pub open spec fn call_slot(pending: Seq<PartialToolCallView>, index: u32, from: nat) -> nat
    decreases pending.len() - from,
{
    if from >= pending.len() {
        pending.len()
    } else if pending[from as int].index < index {
        call_slot(pending, index, from + 1)
    } else {
        from
    }
}

/// The pending calls with one more fragment.
pub open spec fn with_fragment(
    pending: Seq<PartialToolCallView>,
    delta: ToolCallDeltaView,
) -> Seq<PartialToolCallView> {
    let at = call_slot(pending, delta.index, 0) as int;
    if at < pending.len() && pending[at].index == delta.index {
        pending.update(at, merged(pending[at], delta))
    } else {
        pending.insert(at, merged(blank_call(delta.index), delta))
    }
}

/// The pending calls with the first `count` of a run of fragments.
pub open spec fn with_fragments(
    pending: Seq<PartialToolCallView>,
    deltas: Seq<ToolCallDeltaView>,
    count: nat,
) -> Seq<PartialToolCallView>
    decreases count,
{
    if count == 0 {
        pending
    } else {
        with_fragment(with_fragments(pending, deltas, (count - 1) as nat), deltas[count - 1])
    }
}

/// The pending calls are in the order of their indices, and no index occurs twice.
pub open spec fn indexed(pending: Seq<PartialToolCallView>) -> bool {
    forall|i: int, j: int|
        0 <= i < j < pending.len() ==> (#[trigger] pending[i]).index < (#[trigger] pending[j]).index
}

/// Whether a tool call came without arguments to read.
pub open spec fn without_arguments(partial: PartialToolCallView) -> bool {
    text::trim(partial.arguments).len() == 0
}

/// The event for a tool call, given what its arguments were read as, or why they cannot be read.
pub open spec fn call_with(
    partial: PartialToolCallView,
    read: Result<JsonView, Seq<char>>,
) -> Result<AgentEventView, LocalAgentErrorView> {
    match read {
        Ok(arguments) => Ok(call_event(partial, arguments)),
        Err(message) => Err(malformed_arguments(partial.name, message)),
    }
}

/// The event for a tool call that is complete, or why its arguments cannot be read. A call without
/// arguments has none to read.
pub open spec fn completed(partial: PartialToolCallView) -> Result<
    AgentEventView,
    LocalAgentErrorView,
> {
    if without_arguments(partial) {
        Ok(call_event(partial, JsonView::Object(Seq::empty())))
    } else {
        call_with(partial, json::parsed_json(partial.arguments))
    }
}

pub open spec fn call_event(partial: PartialToolCallView, arguments: JsonView) -> AgentEventView {
    AgentEventView::ToolCall(
        ToolCallRequestView { id: partial.id, name: partial.name, arguments },
    )
}

pub open spec fn malformed_arguments(name: Seq<char>, message: Seq<char>) -> LocalAgentErrorView {
    LocalAgentErrorView::Parse(
        "tool call "@ + name + " has malformed arguments: "@ + message,
    )
}

/// The events for the first `count` pending calls, in order. The first fault counts.
pub open spec fn completed_calls(pending: Seq<PartialToolCallView>, count: nat) -> Result<
    Seq<AgentEventView>,
    LocalAgentErrorView,
>
    decreases count,
{
    if count == 0 {
        Ok(Seq::empty())
    } else {
        match completed_calls(pending, (count - 1) as nat) {
            Ok(events) => match completed(pending[count - 1]) {
                Ok(event) => Ok(events.push(event)),
                Err(error) => Err(error),
            },
            Err(error) => Err(error),
        }
    }
}

/// The events for all pending calls.
pub open spec fn flushed(pending: Seq<PartialToolCallView>) -> Result<
    Seq<AgentEventView>,
    LocalAgentErrorView,
> {
    completed_calls(pending, pending.len())
}

/// An accumulator, and what it has put out for a chunk so far.
#[verifier::ext_equal]
pub struct Ingested {
    pub accumulator: StreamAccumulatorView,
    pub outcome: Result<Seq<AgentEventView>, LocalAgentErrorView>,
}

/// The events of a choice that are put out at once: its reasoning, then its text.
pub open spec fn immediate(delta: ChunkDeltaView) -> Seq<AgentEventView> {
    let reasoning = match reasoning_in(delta) {
        Some(content) => seq![AgentEventView::ReasoningDelta(content)],
        None => Seq::empty(),
    };
    match filled(delta.content) {
        Some(content) => reasoning.push(AgentEventView::TextDelta(content)),
        None => reasoning,
    }
}

/// After one choice. Tool calls are put out together once the choice is finished.
pub open spec fn after_choice(
    accumulator: StreamAccumulatorView,
    events: Seq<AgentEventView>,
    choice: ChunkChoiceView,
) -> Ingested {
    let pending = with_fragments(
        accumulator.pending_tool_calls,
        choice.delta.tool_calls,
        choice.delta.tool_calls.len(),
    );
    let so_far = events + immediate(choice.delta);
    if choice.finish_reason is Some {
        Ingested {
            accumulator: StreamAccumulatorView {
                pending_tool_calls: Seq::empty(),
                finish_reason_seen: true,
            },
            outcome: match flushed(pending) {
                Ok(calls) => Ok(so_far + calls),
                Err(error) => Err(error),
            },
        }
    } else {
        Ingested {
            accumulator: StreamAccumulatorView {
                pending_tool_calls: pending,
                finish_reason_seen: accumulator.finish_reason_seen,
            },
            outcome: Ok(so_far),
        }
    }
}

/// After the first `count` choices of a chunk. A fault is the end of it.
pub open spec fn after_choices(
    accumulator: StreamAccumulatorView,
    choices: Seq<ChunkChoiceView>,
    count: nat,
) -> Ingested
    decreases count,
{
    if count == 0 {
        Ingested { accumulator, outcome: Ok(Seq::empty()) }
    } else {
        let before = after_choices(accumulator, choices, (count - 1) as nat);
        match before.outcome {
            Ok(events) => after_choice(before.accumulator, events, choices[count - 1]),
            Err(_) => before,
        }
    }
}

/// After a chunk: its choices, then the usage that it reports.
pub open spec fn after_chunk(accumulator: StreamAccumulatorView, chunk: ChunkResponseView) -> Ingested {
    let chosen = after_choices(accumulator, chunk.choices, chunk.choices.len());
    match (chosen.outcome, chunk.usage) {
        (Ok(events), Some(usage)) => Ingested {
            accumulator: chosen.accumulator,
            outcome: Ok(
                events.push(
                    AgentEventView::Usage {
                        input_tokens: usage.prompt_tokens,
                        output_tokens: usage.completion_tokens,
                    },
                ),
            ),
        },
        _ => chosen,
    }
}

/// What an ingestion came to, over views.
pub open spec fn events_view(outcome: Result<Vec<AgentEvent>, LocalAgentError>) -> Result<
    Seq<AgentEventView>,
    LocalAgentErrorView,
> {
    match outcome {
        Ok(events) => Ok(events.deep_view()),
        Err(error) => Err(error.deep_view()),
    }
}

fn is_text(value: &str) -> (result: bool)
    ensures
        result == (text::trim(value@).len() > 0),
{
    !text::is_empty_text(text::trimmed(value).as_str())
}

/// What became of a tool call, over views.
pub open spec fn call_view(outcome: Result<AgentEvent, LocalAgentError>) -> Result<
    AgentEventView,
    LocalAgentErrorView,
> {
    match outcome {
        Ok(event) => Ok(event.deep_view()),
        Err(error) => Err(error.deep_view()),
    }
}

/// The event for a tool call, given what its arguments were read as.
pub fn complete_call_with(partial: PartialToolCall, read: Result<Json, String>) -> (outcome: Result<
    AgentEvent,
    LocalAgentError,
>)
    ensures
        call_view(outcome) == call_with(
            partial.deep_view(),
            match read {
                Ok(arguments) => Ok(arguments.deep_view()),
                Err(message) => Err(message@),
            },
        ),
{
    match read {
        Ok(arguments) => Ok(
            AgentEvent::ToolCall(
                ToolCallRequest { id: partial.id, name: partial.name, arguments },
            ),
        ),
        Err(message) => {
            let mut full = "tool call ".to_string();
            full.append(partial.name.as_str());
            full.append(" has malformed arguments: ");
            full.append(message.as_str());
            Err(LocalAgentError::Parse(full))
        },
    }
}

fn complete_call(partial: PartialToolCall) -> (outcome: Result<AgentEvent, LocalAgentError>)
    ensures
        call_view(outcome) == completed(partial.deep_view()),
        outcome matches Ok(event) ==> keys::keyed_event(event.deep_view()),
{
    if is_text(partial.arguments.as_str()) {
        let read = json::parse_json(partial.arguments.as_str());
        complete_call_with(partial, read)
    } else {
        let empty = json::json_object(Vec::new());
        assert(empty.deep_view()->Object_0 =~= Seq::empty());
        complete_call_with(partial, Ok(empty))
    }
}

proof fn completed_fault_stays(pending: Seq<PartialToolCallView>, from: nat, to: nat)
    requires
        from <= to <= pending.len(),
        completed_calls(pending, from) is Err,
    ensures
        completed_calls(pending, to) == completed_calls(pending, from),
    decreases to,
{
    if from < to {
        completed_fault_stays(pending, from, (to - 1) as nat);
    }
}

fn push_event(events: &mut Vec<AgentEvent>, event: AgentEvent)
    ensures
        final(events).deep_view() == old(events).deep_view().push(event.deep_view()),
{
    let ghost before = events.deep_view();
    events.push(event);
    assert(events.deep_view() =~= before.push(event.deep_view()));
}

fn merge(partial: &mut PartialToolCall, delta: ToolCallDelta)
    ensures
        final(partial).deep_view() == merged(old(partial).deep_view(), delta.deep_view()),
{
    if let Some(id) = delta.id {
        if !text::is_empty_text(id.as_str()) {
            partial.id = id;
        }
    }
    if let Some(function) = delta.function {
        if let Some(name) = function.name {
            if !text::is_empty_text(name.as_str()) {
                partial.name = name;
            }
        }
        if let Some(arguments) = function.arguments {
            partial.arguments.append(arguments.as_str());
        }
    }
}

impl StreamAccumulator {
    /// Nothing came in yet.
    pub fn new() -> (accumulator: Self)
        ensures
            accumulator.deep_view() == (StreamAccumulatorView {
                pending_tool_calls: Seq::empty(),
                finish_reason_seen: false,
            }),
            indexed(accumulator.deep_view().pending_tool_calls),
    {
        let accumulator = StreamAccumulator {
            pending_tool_calls: Vec::new(),
            finish_reason_seen: false,
        };
        assert(accumulator.pending_tool_calls.deep_view() =~= Seq::empty());
        accumulator
    }

    fn add_fragment(&mut self, delta: ToolCallDelta)
        ensures
            final(self).deep_view() == (StreamAccumulatorView {
                pending_tool_calls: with_fragment(
                    old(self).deep_view().pending_tool_calls,
                    delta.deep_view(),
                ),
                finish_reason_seen: old(self).finish_reason_seen,
            }),
    {
        let ghost before = self.pending_tool_calls.deep_view();
        let ghost view = delta.deep_view();
        let mut at: usize = 0;
        while at < self.pending_tool_calls.len() && self.pending_tool_calls[at].index < delta.index
            invariant
                at <= self.pending_tool_calls.len(),
                self.pending_tool_calls.deep_view() == before,
                self.finish_reason_seen == old(self).finish_reason_seen,
                call_slot(before, delta.index, at as nat) == call_slot(before, delta.index, 0),
            decreases self.pending_tool_calls.len() - at,
        {
            assert(before[at as int] == self.pending_tool_calls@[at as int].deep_view());
            at += 1;
        }
        if at < self.pending_tool_calls.len() {
            assert(before[at as int] == self.pending_tool_calls@[at as int].deep_view());
        }
        if at < self.pending_tool_calls.len() && self.pending_tool_calls[at].index == delta.index {
            let mut partial = self.pending_tool_calls.remove(at);
            assert(self.pending_tool_calls.deep_view() =~= before.remove(at as int));
            merge(&mut partial, delta);
            let ghost after = partial.deep_view();
            self.pending_tool_calls.insert(at, partial);
            assert(self.pending_tool_calls.deep_view() =~= before.update(at as int, after));
        } else {
            let mut partial = PartialToolCall {
                index: delta.index,
                id: String::new(),
                name: String::new(),
                arguments: String::new(),
            };
            assert(partial.deep_view() =~= blank_call(delta.index));
            merge(&mut partial, delta);
            let ghost after = partial.deep_view();
            self.pending_tool_calls.insert(at, partial);
            assert(self.pending_tool_calls.deep_view() =~= before.insert(at as int, after));
        }
    }

    /// Puts out all pending tool calls, in the order of their indices.
    pub fn flush_tool_calls(&mut self) -> (outcome: Result<Vec<AgentEvent>, LocalAgentError>)
        ensures
            events_view(outcome) == flushed(old(self).deep_view().pending_tool_calls),
            final(self).deep_view() == (StreamAccumulatorView {
                pending_tool_calls: Seq::empty(),
                finish_reason_seen: old(self).finish_reason_seen,
            }),
            indexed(final(self).deep_view().pending_tool_calls),
            outcome matches Ok(events) ==> keys::keyed_events(events.deep_view()),
    {
        let mut pending: Vec<PartialToolCall> = Vec::new();
        std::mem::swap(&mut pending, &mut self.pending_tool_calls);
        assert(self.pending_tool_calls.deep_view() =~= Seq::empty());
        let mut events: Vec<AgentEvent> = Vec::new();
        assert(events.deep_view() =~= Seq::empty());
        let ghost calls = pending.deep_view();
        for i in 0..pending.len()
            invariant
                calls == pending.deep_view(),
                calls == old(self).deep_view().pending_tool_calls,
                self.pending_tool_calls.deep_view() == Seq::<PartialToolCallView>::empty(),
                self.finish_reason_seen == old(self).finish_reason_seen,
                completed_calls(calls, i as nat) == Ok::<Seq<AgentEventView>, LocalAgentErrorView>(
                    events.deep_view(),
                ),
                keys::keyed_events(events.deep_view()),
        {
            assert(calls[i as int] == pending@[i as int].deep_view());
            match complete_call(pending[i].clone()) {
                Ok(event) => {
                    push_event(&mut events, event);
                },
                Err(error) => {
                    proof {
                        completed_fault_stays(calls, (i + 1) as nat, calls.len());
                    }
                    return Err(error);
                },
            }
        }
        Ok(events)
    }

    fn ingest_choice(&mut self, choice: ChunkChoice, events: Vec<AgentEvent>) -> (outcome: Result<
        Vec<AgentEvent>,
        LocalAgentError,
    >)
        ensures
            (Ingested { accumulator: final(self).deep_view(), outcome: events_view(outcome) })
                == after_choice(old(self).deep_view(), events.deep_view(), choice.deep_view()),
            keys::keyed_events(events.deep_view()) ==> (outcome matches Ok(more)
                ==> keys::keyed_events(more.deep_view())),
    {
        let ghost before = events.deep_view();
        let ghost view = choice.delta.deep_view();
        let mut events = events;
        if let Some(reasoning) = choice.delta.reasoning_delta() {
            push_event(&mut events, AgentEvent::ReasoningDelta(reasoning.to_string()));
        }
        if let Some(content) = &choice.delta.content {
            if !text::is_empty_text(content.as_str()) {
                push_event(&mut events, AgentEvent::TextDelta(content.clone()));
            }
        }
        assert(events.deep_view() =~= before + immediate(view));
        let deltas = &choice.delta.tool_calls;
        for i in 0..deltas.len()
            invariant
                self.deep_view().pending_tool_calls == with_fragments(
                    old(self).deep_view().pending_tool_calls,
                    deltas.deep_view(),
                    i as nat,
                ),
                self.finish_reason_seen == old(self).finish_reason_seen,
        {
            assert(deltas.deep_view()[i as int] == deltas@[i as int].deep_view());
            self.add_fragment(deltas[i].clone());
        }
        if choice.finish_reason.is_some() {
            self.finish_reason_seen = true;
            match self.flush_tool_calls() {
                Ok(calls) => {
                    let ghost so_far = events.deep_view();
                    for i in 0..calls.len()
                        invariant
                            events.deep_view() == so_far + calls.deep_view().take(i as int),
                    {
                        push_event(&mut events, calls[i].clone());
                        assert(events.deep_view() =~= so_far + calls.deep_view().take(i + 1));
                    }
                    assert(events.deep_view() =~= so_far + calls.deep_view());
                },
                Err(error) => {
                    return Err(error);
                },
            }
        }
        Ok(events)
    }

    /// Folds a chunk into events. Text and reasoning pass through at once; tool calls gather their
    /// fragments and are put out once their choice is finished.
    pub fn ingest(&mut self, chunk: ChunkResponse) -> (outcome: Result<
        Vec<AgentEvent>,
        LocalAgentError,
    >)
        ensures
            (Ingested { accumulator: final(self).deep_view(), outcome: events_view(outcome) })
                == after_chunk(old(self).deep_view(), chunk.deep_view()),
            indexed(old(self).deep_view().pending_tool_calls) ==> indexed(
                final(self).deep_view().pending_tool_calls,
            ),
            outcome matches Ok(events) ==> keys::keyed_events(events.deep_view()),
    {
        let ghost start = self.deep_view();
        proof {
            if indexed(start.pending_tool_calls) {
                fragments::chunk_keeps_order(start, chunk.deep_view());
            }
        }
        let mut events: Vec<AgentEvent> = Vec::new();
        assert(events.deep_view() =~= Seq::empty());
        let ghost choices = chunk.choices.deep_view();
        for i in 0..chunk.choices.len()
            invariant
                choices == chunk.choices.deep_view(),
                choices == chunk.deep_view().choices,
                start == old(self).deep_view(),
                after_choices(start, choices, i as nat) == (Ingested {
                    accumulator: self.deep_view(),
                    outcome: Ok(events.deep_view()),
                }),
                keys::keyed_events(events.deep_view()),
        {
            assert(choices[i as int] == chunk.choices@[i as int].deep_view());
            match self.ingest_choice(chunk.choices[i].clone(), events) {
                Ok(more) => {
                    events = more;
                },
                Err(error) => {
                    proof {
                        choices_fault_stays(start, choices, (i + 1) as nat, choices.len());
                    }
                    return Err(error);
                },
            }
        }
        if let Some(usage) = chunk.usage {
            push_event(
                &mut events,
                AgentEvent::Usage {
                    input_tokens: usage.prompt_tokens,
                    output_tokens: usage.completion_tokens,
                },
            );
        }
        Ok(events)
    }

    /// Whether the model reported that it finished; a stream that ends without that was cut off.
    pub fn finished(&self) -> (result: bool)
        ensures
            result == self.deep_view().finish_reason_seen,
    {
        self.finish_reason_seen
    }
}

proof fn choices_fault_stays(
    accumulator: StreamAccumulatorView,
    choices: Seq<ChunkChoiceView>,
    from: nat,
    to: nat,
)
    requires
        from <= to <= choices.len(),
        after_choices(accumulator, choices, from).outcome is Err,
    ensures
        after_choices(accumulator, choices, to) == after_choices(accumulator, choices, from),
    decreases to,
{
    if from < to {
        choices_fault_stays(accumulator, choices, from, (to - 1) as nat);
    }
}

/// The error for a chunk that cannot be read.
pub open spec fn malformed_chunk(message: Seq<char>, data: Seq<char>) -> LocalAgentErrorView {
    LocalAgentErrorView::Parse("malformed chunk: "@ + message + ": "@ + data)
}

/// The error for a chunk that cannot be read.
pub fn chunk_error(message: &str, data: &str) -> (error: LocalAgentError)
    ensures
        error.deep_view() == malformed_chunk(message@, data@),
{
    let mut full = "malformed chunk: ".to_string();
    full.append(message);
    full.append(": ");
    full.append(data);
    LocalAgentError::Parse(full)
}

/// What an endpoint's complaint about the context window is known by.
pub open spec fn overflow_markers() -> Seq<Seq<char>> {
    seq![
        "context_length_exceeded"@,
        "maximum context length"@,
        "context window"@,
        "too many tokens"@,
        "prompt is too long"@,
    ]
}

/// Whether the body of a response complains about the context window, whatever the case of its
/// letters.
pub open spec fn tells_overflow(body: Seq<char>) -> bool {
    exists|i: int|
        0 <= i < overflow_markers().len() && text::occurs_in(
            text::lower_ascii(body),
            #[trigger] overflow_markers()[i],
        )
}

/// Whether the body of a response complains about the context window.
pub fn looks_like_context_overflow(body: &str) -> (result: bool)
    ensures
        result == tells_overflow(body@),
{
    let lowered = text::lowered_ascii(body);
    let markers: Vec<&'static str> = vec![
        "context_length_exceeded",
        "maximum context length",
        "context window",
        "too many tokens",
        "prompt is too long",
    ];
    let ghost names = overflow_markers();
    assert(names[0] == markers@[0]@ && names[1] == markers@[1]@ && names[2] == markers@[2]@
        && names[3] == markers@[3]@ && names[4] == markers@[4]@);
    for i in 0..markers.len()
        invariant
            markers@.len() == names.len(),
            names == overflow_markers(),
            lowered@ == text::lower_ascii(body@),
            forall|k: int| 0 <= k < names.len() ==> #[trigger] names[k] == markers@[k]@,
            forall|k: int| 0 <= k < i ==> !text::occurs_in(lowered@, #[trigger] names[k]),
    {
        if text::text_contains(lowered.as_str(), markers[i]) {
            assert(text::occurs_in(lowered@, names[i as int]));
            return true;
        }
    }
    false
}

/// Capital letters make no difference to whether a body complains about the context window.
pub proof fn overflow_ignores_case(body: Seq<char>, other: Seq<char>)
    requires
        text::lower_ascii(body) == text::lower_ascii(other),
    ensures
        tells_overflow(body) == tells_overflow(other),
{
}

/// The error for a failure of the event source. Rejected credentials and an exceeded context
/// window are told apart from other statuses.
pub open spec fn source_error(
    failure: SourceFailureView,
    model_slug: Seq<char>,
) -> LocalAgentErrorView {
    match failure {
        SourceFailureView::InvalidStatusCode { status, body } => if status == 401 || status == 403 {
            LocalAgentErrorView::InvalidApiKey { model_slug }
        } else if status == 400 && tells_overflow(body) {
            LocalAgentErrorView::ContextWindowExceeded { message: body }
        } else {
            LocalAgentErrorView::ErrorStatus { status, body }
        },
        SourceFailureView::InvalidContentType { content_type, body } => LocalAgentErrorView::Parse(
            "endpoint did not return an event stream (content-type "@ + content_type + "): "@
                + body,
        ),
        SourceFailureView::Transport(message) => LocalAgentErrorView::Transport(message),
        SourceFailureView::Utf8(message) => LocalAgentErrorView::Parse(message),
        SourceFailureView::Parser(message) => LocalAgentErrorView::Parse(message),
        SourceFailureView::InvalidLastEventId(id) => LocalAgentErrorView::Parse(
            "invalid last-event-id: "@ + id,
        ),
        SourceFailureView::StreamEnded => LocalAgentErrorView::Transport(
            "stream ended before completion"@,
        ),
    }
}

/// The error for a failure of the event source.
pub fn map_event_source_error(failure: SourceFailure, config: &LocalEndpointConfig) -> (error:
    LocalAgentError)
    ensures
        error.deep_view() == source_error(failure.deep_view(), config.model_slug@),
{
    match failure {
        SourceFailure::InvalidStatusCode { status, body } => {
            if status == 401 || status == 403 {
                LocalAgentError::InvalidApiKey { model_slug: config.model_slug.clone() }
            } else if status == 400 && looks_like_context_overflow(body.as_str()) {
                LocalAgentError::ContextWindowExceeded { message: body }
            } else {
                LocalAgentError::ErrorStatus { status, body }
            }
        },
        SourceFailure::InvalidContentType { content_type, body } => {
            let mut message =
                "endpoint did not return an event stream (content-type ".to_string();
            message.append(content_type.as_str());
            message.append("): ");
            message.append(body.as_str());
            LocalAgentError::Parse(message)
        },
        SourceFailure::Transport(message) => LocalAgentError::Transport(message),
        SourceFailure::Utf8(message) => LocalAgentError::Parse(message),
        SourceFailure::Parser(message) => LocalAgentError::Parse(message),
        SourceFailure::InvalidLastEventId(id) => {
            let mut message = "invalid last-event-id: ".to_string();
            message.append(id.as_str());
            LocalAgentError::Parse(message)
        },
        SourceFailure::StreamEnded => LocalAgentError::Transport(
            "stream ended before completion".to_string(),
        ),
    }
}

} // verus!

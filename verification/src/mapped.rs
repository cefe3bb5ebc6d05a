//! Laws of the response stream: what a client is told to do for each event of a turn, and when.

use vstd::prelude::*;

use crate::api::context;
use crate::api::message::{MessageContentView, MessageView};
use crate::api::response::{
    ActionView, AiApiErrorView, EventView, FinishReasonView, ResponseEventKindView,
    StreamFinishedView,
};
use crate::events;
use crate::events::{EngineEventView, EventMapperView};
use crate::model;
use crate::model::{AdapterErrorView, AgentEventView, LocalAgentErrorView};
use crate::plan::TurnPlanView;
use crate::registry;
use crate::text;

verus! {

/// Whether an item tells the client to do one thing.
pub open spec fn tells(item: EventView, action: ActionView) -> bool {
    item matches Ok(response) && (response.kind matches Some(
        ResponseEventKindView::ClientActions(carried),
    ) && carried.actions.len() == 1 && carried.actions[0].action == Some(action))
}

/// Whether a message holds nothing besides its ids and its content.
pub open spec fn holds_nothing_else(message: MessageView) -> bool {
    message.request_id.len() == 0 && message.timestamp is None && message.server_message_data.len()
        == 0 && message.citations.len() == 0 && message.fetched_memories.len() == 0
}

/// Whether a message is one of a task, under an id, with a content.
pub open spec fn is_message(
    message: MessageView,
    id: Seq<char>,
    task_id: Seq<char>,
    content: MessageContentView,
) -> bool {
    message.id == id && message.task_id == task_id && message.message == Some(content)
        && holds_nothing_else(message)
}

/// Whether an item tells the client to add one message to a task.
pub open spec fn adds(
    item: EventView,
    id: Seq<char>,
    task_id: Seq<char>,
    content: MessageContentView,
) -> bool {
    exists|action: ActionView| #[trigger]
        tells(item, action) && (action matches ActionView::AddMessagesToTask(add) && add.task_id
            == task_id && add.messages.len() == 1 && is_message(
            add.messages[0],
            id,
            task_id,
            content,
        ))
}

/// Whether a content is text that the agent put out.
pub open spec fn puts_out(content: MessageContentView, shown: Seq<char>) -> bool {
    content matches MessageContentView::AgentOutput(output) && output.text == shown
}

/// Whether an item tells the client to append text to the message with an id.
pub open spec fn appends(
    item: EventView,
    id: Seq<char>,
    task_id: Seq<char>,
    shown: Seq<char>,
) -> bool {
    exists|action: ActionView| #[trigger]
        tells(item, action) && (action matches ActionView::AppendToMessageContent(append)
            && append.task_id == task_id && (append.message matches Some(message) && message.id
            == id && message.task_id == task_id && holds_nothing_else(message) && (
        message.message matches Some(content) && puts_out(content, shown))) && (
        append.mask matches Some(mask) && mask.paths == seq!["agent_output.text"@]))
}

/// Whether an item is the end of the stream, for a reason and with the tokens that were used, which
/// are left out where none were.
pub open spec fn finishes(
    item: EventView,
    mapper: EventMapperView,
    reason: FinishReasonView,
) -> bool {
    item matches Ok(response) && (response.kind matches Some(
        ResponseEventKindView::Finished(finished),
    ) && finished.reason == Some(reason) && finished.rest == context::nothing() && reports_usage(
        finished,
        mapper,
    ))
}

/// Whether the end of a stream reports the tokens that were used, by the model that used them. A
/// report goes to 32 bits: a count beyond that is off by a multiple of what they hold.
pub open spec fn reports_usage(finished: StreamFinishedView, mapper: EventMapperView) -> bool {
    if mapper.input_tokens == 0 && mapper.output_tokens == 0 {
        finished.token_usage.len() == 0
    } else {
        &&& finished.token_usage.len() == 1
        &&& finished.token_usage[0].model_id == mapper.config_key
        &&& finished.token_usage[0].rest == context::nothing()
        &&& mapper.input_tokens <= u32::MAX ==> finished.token_usage[0].total_input
            == mapper.input_tokens
        &&& mapper.output_tokens <= u32::MAX ==> finished.token_usage[0].output
            == mapper.output_tokens
        &&& (mapper.input_tokens - finished.token_usage[0].total_input) % 0x1_0000_0000 == 0
        &&& (mapper.output_tokens - finished.token_usage[0].output) % 0x1_0000_0000 == 0
    }
}

/// Whether a text begins with one thing, ends with another, and has nothing between.
pub open spec fn reads_as(shown: Seq<char>, begin: Seq<char>, end: Seq<char>) -> bool {
    shown.len() == begin.len() + end.len() && text::starts_with(shown, begin) && text::ends_with(
        shown,
        end,
    )
}

proof fn two_read(begin: Seq<char>, end: Seq<char>)
    ensures
        reads_as(begin + end, begin, end),
{
    let shown = begin + end;
    assert(shown.subrange(0, begin.len() as int) =~= begin);
    assert(shown.subrange(shown.len() - end.len(), shown.len() as int) =~= end);
}

/// The text of an error of the adapter says what kind it is, and then what it is about.
pub proof fn adapter_errors_are_told(error: AdapterErrorView)
    ensures
        ({
            let shown = model::adapter_error_text(error);
            match error {
                AdapterErrorView::UnsupportedInput(reason) => reads_as(
                    shown,
                    "unsupported input for local agent loop: "@,
                    reason,
                ),
                AdapterErrorView::UnknownTool(name) => reads_as(
                    shown,
                    "unknown tool call from model: "@,
                    name,
                ),
                AdapterErrorView::BadToolArguments { tool, message } => reads_as(
                    shown,
                    "malformed tool arguments for "@ + tool + ": "@,
                    message,
                ),
            }
        }),
{
    match error {
        AdapterErrorView::UnsupportedInput(reason) => {
            two_read("unsupported input for local agent loop: "@, reason);
        },
        AdapterErrorView::UnknownTool(name) => {
            two_read("unknown tool call from model: "@, name);
        },
        AdapterErrorView::BadToolArguments { tool, message } => {
            two_read("malformed tool arguments for "@ + tool + ": "@, message);
        },
    }
}

/// The text of an error of the engine says what kind it is, and then what it is about.
pub proof fn agent_errors_are_told(error: LocalAgentErrorView)
    ensures
        ({
            let shown = model::agent_error_text(error);
            match error {
                LocalAgentErrorView::InvalidApiKey { model_slug } => reads_as(
                    shown,
                    "invalid API key for "@,
                    model_slug,
                ),
                LocalAgentErrorView::ContextWindowExceeded { message } => reads_as(
                    shown,
                    "context window exceeded: "@,
                    message,
                ),
                LocalAgentErrorView::ErrorStatus { status, body } => reads_as(
                    shown,
                    "endpoint returned "@ + text::decimal(status as int) + ": "@,
                    body,
                ),
                LocalAgentErrorView::Transport(message) => reads_as(
                    shown,
                    "transport error: "@,
                    message,
                ),
                LocalAgentErrorView::Parse(message) => reads_as(
                    shown,
                    "malformed response: "@,
                    message,
                ),
                LocalAgentErrorView::Unimplemented(message) => reads_as(
                    shown,
                    "not implemented: "@,
                    message,
                ),
            }
        }),
{
    match error {
        LocalAgentErrorView::InvalidApiKey { model_slug } => {
            two_read("invalid API key for "@, model_slug);
        },
        LocalAgentErrorView::ContextWindowExceeded { message } => {
            two_read("context window exceeded: "@, message);
        },
        LocalAgentErrorView::ErrorStatus { status, body } => {
            two_read("endpoint returned "@ + text::decimal(status as int) + ": "@, body);
        },
        LocalAgentErrorView::Transport(message) => {
            two_read("transport error: "@, message);
        },
        LocalAgentErrorView::Parse(message) => {
            two_read("malformed response: "@, message);
        },
        LocalAgentErrorView::Unimplemented(message) => {
            two_read("not implemented: "@, message);
        },
    }
}

/// Whether an item fails the stream with what an error of the engine was: an error status with its
/// code and body, a code that is none being a server error, and anything else as it is.
pub open spec fn fails_with(item: EventView, error: LocalAgentErrorView) -> bool {
    match error {
        LocalAgentErrorView::ErrorStatus { status, body } => item matches Err(
            AiApiErrorView::ErrorStatus { status: code, body: told },
        ) && told == body && (100 <= status <= 999 ==> code == status) && (!(100 <= status <= 999)
            ==> code == 500),
        _ => item matches Err(AiApiErrorView::Stream { stream_type, source }) && stream_type
            == "local agent loop"@ && source == error,
    }
}

/// What the client is told for each event: the first piece of text as a new message, every further
/// one as an addition to it, a tool call as a message of its own that holds the logged call, and
/// nothing for reasoning and usage. `Done` commits the turn and ends the stream; a tool call that
/// cannot be taken and every error roll the turn back first, and say why.
pub proof fn events_are_told(mapper: EventMapperView, event: EngineEventView, id: Seq<char>)
    ensures
        ({
            let items = events::items_for(mapper, event, id);
            let task = mapper.root_task_id;
            match event {
                Ok(AgentEventView::TextDelta(delta)) => items.len() == 1 && match
                    mapper.streaming_message_id {
                    None => exists|content: MessageContentView| #[trigger]
                        adds(items[0], id, task, content) && puts_out(content, delta),
                    Some(current) => appends(items[0], current, task, delta),
                },
                Ok(AgentEventView::ReasoningDelta(_)) => items.len() == 0,
                Ok(AgentEventView::Usage { .. }) => items.len() == 0,
                Ok(AgentEventView::ToolCall(call)) => match registry::logged_call(
                    mapper.registry,
                    call,
                ) {
                    Ok(logged) => items.len() == 1 && adds(
                        items[0],
                        id,
                        task,
                        MessageContentView::ToolCall(logged),
                    ),
                    Err(error) => items.len() == 2 && tells(
                        items[0],
                        ActionView::RollbackTransaction,
                    ) && finishes(
                        items[1],
                        mapper,
                        FinishReasonView::InternalError {
                            message: model::adapter_error_text(error),
                        },
                    ),
                },
                Ok(AgentEventView::Done) => items.len() == 2 && tells(
                    items[0],
                    ActionView::CommitTransaction,
                ) && finishes(items[1], mapper, FinishReasonView::Done),
                Err(error) => items.len() == 2 && tells(items[0], ActionView::RollbackTransaction)
                    && match error {
                    LocalAgentErrorView::InvalidApiKey { model_slug } => exists|
                        reason: FinishReasonView,
                    | #[trigger]
                        finishes(items[1], mapper, reason) && (
                        reason matches FinishReasonView::InvalidApiKey { provider, model_name }
                            && provider is Unknown && model_name == model_slug),
                    LocalAgentErrorView::ContextWindowExceeded { .. } => finishes(
                        items[1],
                        mapper,
                        FinishReasonView::ContextWindowExceeded,
                    ),
                    _ => fails_with(items[1], error),
                },
            }
        }),
{
    let items = events::items_for(mapper, event, id);
    let task = mapper.root_task_id;
    match event {
        Ok(AgentEventView::TextDelta(delta)) => {
            let action = items[0]->Ok_0.kind->0->ClientActions_0.actions[0].action->0;
            assert(tells(items[0], action));
            if mapper.streaming_message_id is None {
                assert(adds(items[0], id, task, events::output_of(delta)));
            }
        },
        Ok(AgentEventView::ToolCall(call)) => {
            let action = items[0]->Ok_0.kind->0->ClientActions_0.actions[0].action->0;
            assert(tells(items[0], action));
        },
        Err(LocalAgentErrorView::InvalidApiKey { model_slug }) => {
            let reason = items[1]->Ok_0.kind->0->Finished_0.reason->0;
            assert(finishes(items[1], mapper, reason));
        },
        _ => {},
    }
}

/// What the mapping remembers from event to event: the message that text goes to, until a tool call
/// comes, the tokens that were used, and everything else as it was.
pub proof fn mapping_remembers(mapper: EventMapperView, event: EngineEventView, id: Seq<char>)
    requires
        events::countable(mapper, event),
    ensures
        ({
            let after = events::after_event(mapper, event, id);
            &&& after.root_task_id == mapper.root_task_id && after.config_key == mapper.config_key
                && after.registry == mapper.registry && after.conversation_id
                == mapper.conversation_id && after.request_id == mapper.request_id
            &&& match event {
                Ok(AgentEventView::TextDelta(_)) => after.streaming_message_id == (
                if mapper.streaming_message_id is Some {
                    mapper.streaming_message_id
                } else {
                    Some(id)
                }),
                Ok(AgentEventView::ToolCall(_)) => after.streaming_message_id is None,
                _ => after.streaming_message_id == mapper.streaming_message_id,
            }
            &&& match event {
                Ok(AgentEventView::Usage { input_tokens, output_tokens }) => after.input_tokens
                    == mapper.input_tokens + input_tokens && after.output_tokens
                    == mapper.output_tokens + output_tokens,
                _ => after.input_tokens == mapper.input_tokens && after.output_tokens
                    == mapper.output_tokens,
            }
        }),
{
}

/// What the client is told before the first event: which conversation and request this is, to begin
/// a transaction, to create the task where the turn is the first, and to add the input of the turn
/// and the model that answers it to the task. The mapping of a plan starts with no text, no tokens,
/// and the plan's ids, tools and echoes.
pub proof fn opening_is_told(plan: TurnPlanView, id: Seq<char>)
    ensures
        ({
            let mapper = events::mapper_of(plan);
            let items = events::opening(mapper, id);
            let last = items.len() - 1;
            &&& mapper.registry == plan.tools && mapper.streaming_message_id is None
                && mapper.input_tokens == 0 && mapper.output_tokens == 0 && mapper.config_key
                == plan.config_key && mapper.root_task_id == plan.root_task_id
            &&& items.len() == (if plan.is_first_turn {
                4nat
            } else {
                3nat
            })
            &&& items[0] matches Ok(response) && (response.kind matches Some(
                ResponseEventKindView::Init(init),
            ) && init.conversation_id == plan.conversation_id && init.request_id == plan.request_id)
            &&& tells(items[1], ActionView::BeginTransaction)
            &&& plan.is_first_turn ==> exists|action: ActionView| #[trigger]
                tells(items[2], action) && (action matches ActionView::CreateTask(create) && (
                create.task matches Some(task) && task.id == plan.root_task_id
                    && task.messages.len() == 0 && task.description.len() == 0
                    && task.dependencies is None && task.summary.len() == 0
                    && task.server_data.len() == 0))
            &&& exists|action: ActionView| #[trigger]
                tells(items[last], action) && (action matches ActionView::AddMessagesToTask(add)
                    && add.task_id == plan.root_task_id && add.messages.len()
                    == plan.input_echo_messages.len() + 1 && plan.input_echo_messages.is_prefix_of(
                    add.messages,
                ) && (add.messages.last().message matches Some(MessageContentView::ModelUsed(used))
                    && used.model_id == plan.config_key && used.rest == context::nothing())
                    && holds_nothing_else(add.messages.last()) && add.messages.last().id == id
                    && add.messages.last().task_id == plan.root_task_id)
        }),
{
    let mapper = events::mapper_of(plan);
    let items = events::opening(mapper, id);
    let last = items.len() - 1;
    let action = items[last]->Ok_0.kind->0->ClientActions_0.actions[0].action->0;
    assert(tells(items[last], action));
    if plan.is_first_turn {
        let create = items[2]->Ok_0.kind->0->ClientActions_0.actions[0].action->0;
        assert(tells(items[2], create));
    }
}

} // verus!

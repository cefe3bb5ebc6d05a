//! From the engine's events to the items of the response stream.

use vstd::prelude::*;

use crate::api::context;
use crate::api::context::Opaque;
use crate::api::message::{
    AgentOutput, AgentOutputView, Message, MessageContent, MessageContentView, MessageView,
    ModelUsed, ModelUsedView, Task, TaskView,
};
use crate::api::response;
use crate::api::response::{
    Action, ActionView, AddMessagesToTask, AddMessagesToTaskView, AiApiError, AiApiErrorView,
    AppendToMessageContent, AppendToMessageContentView, ClientAction, ClientActionView,
    ClientActions, ClientActionsView, CreateTask, CreateTaskView, Event, EventView, FieldMask,
    FieldMaskView, FinishReason, FinishReasonView, LlmProvider, LlmProviderView, ResponseEvent,
    ResponseEventKind, ResponseEventKindView, ResponseEventView, StreamFinished,
    StreamFinishedView, StreamInit, StreamInitView, TokenUsage, TokenUsageView,
};
use crate::ids;
use crate::model;
use crate::model::{
    AgentEvent, AgentEventView, LocalAgentError, LocalAgentErrorView, ToolCallRequestView,
};
use crate::plan;
use crate::plan::{TurnPlan, TurnPlanView};
use crate::registry;
use crate::registry::{ToolRegistry, ToolRegistryView};

verus! {

/// What the mapping of a turn's events carries from one event to the next.
#[derive(Debug, PartialEq, Default)]
pub struct EventMapper {
    pub conversation_id: String,
    pub request_id: String,
    pub root_task_id: String,
    pub is_first_turn: bool,
    pub config_key: String,
    pub echo_messages: Vec<Message>,
    pub registry: ToolRegistry,
    /// Id of the output message that text is being appended to.
    pub streaming_message_id: Option<String>,
    pub input_tokens: u64,
    pub output_tokens: u64,
}

#[verifier::ext_equal]
pub struct EventMapperView {
    pub conversation_id: Seq<char>,
    pub request_id: Seq<char>,
    pub root_task_id: Seq<char>,
    pub is_first_turn: bool,
    pub config_key: Seq<char>,
    pub echo_messages: Seq<MessageView>,
    pub registry: ToolRegistryView,
    pub streaming_message_id: Option<Seq<char>>,
    pub input_tokens: u64,
    pub output_tokens: u64,
}

impl DeepView for EventMapper {
    type V = EventMapperView;

    open spec fn deep_view(&self) -> EventMapperView {
        EventMapperView {
            conversation_id: self.conversation_id@,
            request_id: self.request_id@,
            root_task_id: self.root_task_id@,
            is_first_turn: self.is_first_turn,
            config_key: self.config_key@,
            echo_messages: self.echo_messages.deep_view(),
            registry: self.registry.deep_view(),
            streaming_message_id: self.streaming_message_id.deep_view(),
            input_tokens: self.input_tokens,
            output_tokens: self.output_tokens,
        }
    }
}

impl Clone for EventMapper {
    fn clone(&self) -> (copy: Self)
        ensures
            copy.deep_view() == self.deep_view(),
    {
        let copy = EventMapper {
            conversation_id: self.conversation_id.clone(),
            request_id: self.request_id.clone(),
            root_task_id: self.root_task_id.clone(),
            is_first_turn: self.is_first_turn,
            config_key: self.config_key.clone(),
            echo_messages: self.echo_messages.clone(),
            registry: self.registry.clone(),
            streaming_message_id: self.streaming_message_id.clone(),
            input_tokens: self.input_tokens,
            output_tokens: self.output_tokens,
        };
        assert(copy.echo_messages.deep_view() =~= self.echo_messages.deep_view());
        copy
    }
}

/// The field that streamed text is appended to.
pub const AGENT_OUTPUT_TEXT_MASK: &'static str = "agent_output.text";

/// What the engine hands over, over views.
pub type EngineEventView = Result<AgentEventView, LocalAgentErrorView>;

pub open spec fn engine_event_view(event: Result<AgentEvent, LocalAgentError>) -> EngineEventView {
    match event {
        Ok(event) => Ok(event.deep_view()),
        Err(error) => Err(error.deep_view()),
    }
}

/// An item that carries actions for the client.
pub open spec fn carried(actions: Seq<ActionView>) -> EventView {
    Ok(
        ResponseEventView {
            kind: Some(
                ResponseEventKindView::ClientActions(
                    ClientActionsView {
                        actions: actions.map_values(
                            |action: ActionView| ClientActionView { action: Some(action) },
                        ),
                    },
                ),
            ),
        },
    )
}

/// An item that carries one action for the client.
pub open spec fn client_event(action: ActionView) -> EventView {
    carried(seq![action])
}

/// An item that carries actions for the client.
pub fn client_actions(actions: Vec<Action>) -> (event: Event)
    ensures
        response::event_view(event) == carried(actions.deep_view()),
{
    let mut wrapped: Vec<ClientAction> = Vec::new();
    for i in 0..actions.len()
        invariant
            wrapped@.len() == i,
            forall|k: int|
                0 <= k < i ==> (#[trigger] wrapped@[k]).deep_view() == (ClientActionView {
                    action: Some(actions@[k].deep_view()),
                }),
    {
        wrapped.push(ClientAction { action: Some(actions[i].clone()) });
    }
    assert(wrapped.deep_view() =~= actions.deep_view().map_values(
        |action: ActionView| ClientActionView { action: Some(action) },
    ));
    Ok(
        ResponseEvent {
            kind: Some(ResponseEventKind::ClientActions(ClientActions { actions: wrapped })),
        },
    )
}

fn client_action(action: Action) -> (event: Event)
    ensures
        response::event_view(event) == client_event(action.deep_view()),
{
    let ghost view = action.deep_view();
    let actions: Vec<Action> = vec![action];
    assert(actions.deep_view() =~= seq![view]);
    client_actions(actions)
}

/// The item that adds messages to a task.
pub open spec fn added(task_id: Seq<char>, messages: Seq<MessageView>) -> EventView {
    client_event(ActionView::AddMessagesToTask(AddMessagesToTaskView { task_id, messages }))
}

/// The item that appends to the text of a message.
pub open spec fn appended(task_id: Seq<char>, id: Seq<char>, delta: Seq<char>) -> EventView {
    client_event(
        ActionView::AppendToMessageContent(
            AppendToMessageContentView {
                task_id,
                message: Some(plan::task_message(id, task_id, output_of(delta))),
                mask: Some(FieldMaskView { paths: seq![AGENT_OUTPUT_TEXT_MASK@] }),
            },
        ),
    )
}

pub open spec fn output_of(content: Seq<char>) -> MessageContentView {
    MessageContentView::AgentOutput(AgentOutputView { text: content })
}

pub open spec fn committed() -> EventView {
    client_event(ActionView::CommitTransaction)
}

pub open spec fn rolled_back() -> EventView {
    client_event(ActionView::RollbackTransaction)
}

/// A count of tokens as far as the report of it goes: its low 32 bits.
pub open spec fn reported(tokens: u64) -> u32 {
    (tokens as int % 0x1_0000_0000) as u32
}

/// The item that ends a stream, with the tokens that were used.
pub open spec fn finish(mapper: EventMapperView, reason: FinishReasonView) -> EventView {
    Ok(
        ResponseEventView {
            kind: Some(
                ResponseEventKindView::Finished(
                    StreamFinishedView {
                        token_usage: if mapper.input_tokens > 0 || mapper.output_tokens > 0 {
                            seq![
                                TokenUsageView {
                                    model_id: mapper.config_key,
                                    total_input: reported(mapper.input_tokens),
                                    output: reported(mapper.output_tokens),
                                    rest: context::nothing(),
                                },
                            ]
                        } else {
                            Seq::empty()
                        },
                        reason: Some(reason),
                        rest: context::nothing(),
                    },
                ),
            ),
        },
    )
}

/// The items that give up a turn.
pub open spec fn gave_up(mapper: EventMapperView, reason: FinishReasonView) -> Seq<EventView> {
    seq![rolled_back(), finish(mapper, reason)]
}

/// A status code that stands for an error status; one that is none becomes a server error.
pub open spec fn status_of(status: u16) -> u16 {
    if 100 <= status <= 999 {
        status
    } else {
        500
    }
}

/// The failure of the stream for a failure of the engine.
pub open spec fn stream_error(error: LocalAgentErrorView) -> AiApiErrorView {
    match error {
        LocalAgentErrorView::ErrorStatus { status, body } => AiApiErrorView::ErrorStatus {
            status: status_of(status),
            body,
        },
        other => AiApiErrorView::Stream { stream_type: "local agent loop"@, source: other },
    }
}

/// Reads a status code with `http::StatusCode::from_u16`, which takes the three-digit ones and no
/// other, and gives its number back.
#[verifier::external_body]
fn read_status(status: u16) -> (code: Option<u16>)
    ensures
        code == (if 100 <= status <= 999 {
            Some(status)
        } else {
            None
        }),
{
    http::StatusCode::from_u16(status).ok().map(|code| code.as_u16())
}

/// The failure of the stream for a failure of the engine.
pub fn map_engine_error(error: LocalAgentError) -> (mapped: AiApiError)
    ensures
        mapped.deep_view() == stream_error(error.deep_view()),
{
    match error {
        LocalAgentError::ErrorStatus { status, body } => AiApiError::ErrorStatus {
            status: match read_status(status) {
                Some(code) => code,
                None => 500,
            },
            body,
        },
        other => AiApiError::Stream { stream_type: "local agent loop".to_string(), source: other },
    }
}

/// The mapper of a plan, before its first event.
pub open spec fn mapper_of(plan: TurnPlanView) -> EventMapperView {
    EventMapperView {
        conversation_id: plan.conversation_id,
        request_id: plan.request_id,
        root_task_id: plan.root_task_id,
        is_first_turn: plan.is_first_turn,
        config_key: plan.config_key,
        echo_messages: plan.input_echo_messages,
        registry: plan.tools,
        streaming_message_id: None,
        input_tokens: 0,
        output_tokens: 0,
    }
}

/// The message that tells which model was used.
pub open spec fn model_message(mapper: EventMapperView, id: Seq<char>) -> MessageView {
    plan::task_message(
        id,
        mapper.root_task_id,
        MessageContentView::ModelUsed(
            ModelUsedView { model_id: mapper.config_key, rest: context::nothing() },
        ),
    )
}

/// A task under an id, with nothing in it.
pub open spec fn empty_task(id: Seq<char>) -> TaskView {
    TaskView {
        id,
        description: Seq::empty(),
        dependencies: None,
        messages: Seq::empty(),
        summary: Seq::empty(),
        server_data: Seq::empty(),
    }
}

/// The items that come before the first event of the engine, the model's message being under
/// `id`.
pub open spec fn opening(mapper: EventMapperView, id: Seq<char>) -> Seq<EventView> {
    let start = seq![
        Ok::<ResponseEventView, AiApiErrorView>(
            ResponseEventView {
                kind: Some(
                    ResponseEventKindView::Init(
                        StreamInitView {
                            conversation_id: mapper.conversation_id,
                            request_id: mapper.request_id,
                            run_id: Seq::empty(),
                        },
                    ),
                ),
            },
        ),
        client_event(ActionView::BeginTransaction),
    ];
    let created = if mapper.is_first_turn {
        start.push(
            client_event(
                ActionView::CreateTask(
                    CreateTaskView { task: Some(empty_task(mapper.root_task_id)) },
                ),
            ),
        )
    } else {
        start
    };
    created.push(
        added(mapper.root_task_id, mapper.echo_messages.push(model_message(mapper, id))),
    )
}

/// The mapper after its opening.
pub open spec fn after_opening(mapper: EventMapperView) -> EventMapperView {
    EventMapperView { echo_messages: Seq::empty(), ..mapper }
}

/// The mapper after one event of the engine, a message that the event makes being under `id`.
pub open spec fn after_event(
    mapper: EventMapperView,
    event: EngineEventView,
    id: Seq<char>,
) -> EventMapperView {
    match event {
        Ok(AgentEventView::TextDelta(_)) => EventMapperView {
            streaming_message_id: match mapper.streaming_message_id {
                Some(current) => Some(current),
                None => Some(id),
            },
            ..mapper
        },
        Ok(AgentEventView::ToolCall(_)) => EventMapperView { streaming_message_id: None, ..mapper },
        Ok(AgentEventView::Usage { input_tokens, output_tokens }) => EventMapperView {
            input_tokens: (mapper.input_tokens + input_tokens) as u64,
            output_tokens: (mapper.output_tokens + output_tokens) as u64,
            ..mapper
        },
        _ => mapper,
    }
}

/// The items for one event of the engine, a message that the event makes being under `id`.
pub open spec fn items_for(
    mapper: EventMapperView,
    event: EngineEventView,
    id: Seq<char>,
) -> Seq<EventView> {
    match event {
        Ok(AgentEventView::TextDelta(delta)) => match mapper.streaming_message_id {
            Some(current) => seq![appended(mapper.root_task_id, current, delta)],
            None => seq![
                added(
                    mapper.root_task_id,
                    seq![plan::task_message(id, mapper.root_task_id, output_of(delta))],
                ),
            ],
        },
        Ok(AgentEventView::ReasoningDelta(_)) => Seq::empty(),
        Ok(AgentEventView::ToolCall(call)) => match registry::logged_call(mapper.registry, call) {
            Ok(logged) => seq![
                added(
                    mapper.root_task_id,
                    seq![
                        plan::task_message(
                            id,
                            mapper.root_task_id,
                            MessageContentView::ToolCall(logged),
                        ),
                    ],
                ),
            ],
            Err(error) => gave_up(
                mapper,
                FinishReasonView::InternalError { message: model::adapter_error_text(error) },
            ),
        },
        Ok(AgentEventView::Usage { .. }) => Seq::empty(),
        Ok(AgentEventView::Done) => seq![committed(), finish(mapper, FinishReasonView::Done)],
        Err(LocalAgentErrorView::InvalidApiKey { model_slug }) => gave_up(
            mapper,
            FinishReasonView::InvalidApiKey {
                provider: LlmProviderView::Unknown,
                model_name: model_slug,
            },
        ),
        Err(LocalAgentErrorView::ContextWindowExceeded { .. }) => gave_up(
            mapper,
            FinishReasonView::ContextWindowExceeded,
        ),
        Err(error) => seq![rolled_back(), Err(stream_error(error))],
    }
}

/// Whether the mapper can count the tokens of an event.
pub open spec fn countable(mapper: EventMapperView, event: EngineEventView) -> bool {
    event matches Ok(AgentEventView::Usage { input_tokens, output_tokens }) ==> mapper.input_tokens
        + input_tokens <= u64::MAX && mapper.output_tokens + output_tokens <= u64::MAX
}

fn report(tokens: u64) -> (low: u32)
    ensures
        low == reported(tokens),
{
    assert((tokens as u32) as u64 == tokens % 0x1_0000_0000) by (bit_vector);
    #[verifier::truncate]
    (tokens as u32)
}

fn one(event: Event) -> (events: Vec<Event>)
    ensures
        response::event_views(events@) == seq![response::event_view(event)],
{
    let events: Vec<Event> = vec![event];
    assert(response::event_views(events@) =~= seq![response::event_view(event)]);
    events
}

fn two(first: Event, second: Event) -> (events: Vec<Event>)
    ensures
        response::event_views(events@) == seq![
            response::event_view(first),
            response::event_view(second),
        ],
{
    let events: Vec<Event> = vec![first, second];
    assert(response::event_views(events@) =~= seq![
        response::event_view(first),
        response::event_view(second),
    ]);
    events
}

fn none() -> (events: Vec<Event>)
    ensures
        response::event_views(events@) == Seq::<EventView>::empty(),
{
    let events: Vec<Event> = Vec::new();
    assert(response::event_views(events@) =~= Seq::<EventView>::empty());
    events
}

impl EventMapper {
    /// The mapper of a plan.
    pub fn new(plan: &TurnPlan) -> (mapper: Self)
        ensures
            mapper.deep_view() == mapper_of(plan.deep_view()),
    {
        let echo_messages = plan.input_echo_messages.clone();
        assert(echo_messages.deep_view() =~= plan.input_echo_messages.deep_view());
        EventMapper {
            conversation_id: plan.conversation_id.clone(),
            request_id: plan.request_id.clone(),
            root_task_id: plan.root_task_id.clone(),
            is_first_turn: plan.is_first_turn,
            config_key: plan.config_key.clone(),
            echo_messages,
            registry: plan.tools.clone(),
            streaming_message_id: None,
            input_tokens: 0,
            output_tokens: 0,
        }
    }

    /// The items that come before the first event of the engine, the model's message being under
    /// a given id.
    pub fn initial_events_with_id(&mut self, id: String) -> (events: Vec<Event>)
        ensures
            response::event_views(events@) == opening(old(self).deep_view(), id@),
            final(self).deep_view() == after_opening(old(self).deep_view()),
    {
        let ghost start = self.deep_view();
        let init = StreamInit {
            conversation_id: self.conversation_id.clone(),
            request_id: self.request_id.clone(),
            run_id: String::new(),
        };
        assert(init.run_id@ =~= Seq::empty());
        let mut events = two(
            Ok(ResponseEvent { kind: Some(ResponseEventKind::Init(init)) }),
            client_action(Action::BeginTransaction),
        );
        if self.is_first_turn {
            let ghost before = response::event_views(events@);
            let task = Task {
                id: self.root_task_id.clone(),
                description: String::new(),
                dependencies: None,
                messages: Vec::new(),
                summary: String::new(),
                server_data: String::new(),
            };
            assert(task.messages.deep_view() =~= Seq::empty());
            assert(task.deep_view() =~= empty_task(start.root_task_id));
            let created = client_action(Action::CreateTask(CreateTask { task: Some(task) }));
            events.push(created);
            assert(response::event_views(events@) =~= before.push(response::event_view(created)));
        }
        let mut messages: Vec<Message> = Vec::new();
        std::mem::swap(&mut messages, &mut self.echo_messages);
        assert(self.echo_messages.deep_view() =~= Seq::empty());
        let ghost echoes = messages.deep_view();
        let used = plan::message_with_id(
            id,
            self.root_task_id.as_str(),
            MessageContent::ModelUsed(
                ModelUsed { model_id: self.config_key.clone(), rest: Opaque::nothing() },
            ),
        );
        messages.push(used);
        assert(messages.deep_view() =~= echoes.push(used.deep_view()));
        let ghost before = response::event_views(events@);
        let last = self.add_messages(messages);
        events.push(last);
        assert(response::event_views(events@) =~= before.push(response::event_view(last)));
        events
    }

    /// The items that come before the first event of the engine: the start of the stream and of
    /// its transaction, the task on the first turn of a conversation, and the echoed input with
    /// the model that is used.
    pub fn initial_events(&mut self) -> (events: Vec<Event>)
        ensures
            exists|id: Seq<char>|
                ids::is_uuid(id) && response::event_views(events@) == #[trigger] opening(
                    old(self).deep_view(),
                    id,
                ),
            final(self).deep_view() == after_opening(old(self).deep_view()),
    {
        let id = ids::new_id();
        let ghost view = id@;
        let events = self.initial_events_with_id(id);
        assert(ids::is_uuid(view) && response::event_views(events@) == opening(
            old(self).deep_view(),
            view,
        ));
        events
    }

    /// Maps one event of the engine, a message that the event makes being under a given id.
    pub fn on_event_with_id(
        &mut self,
        event: Result<AgentEvent, LocalAgentError>,
        id: String,
    ) -> (events: Vec<Event>)
        requires
            countable(old(self).deep_view(), engine_event_view(event)),
        ensures
            response::event_views(events@) == items_for(
                old(self).deep_view(),
                engine_event_view(event),
                id@,
            ),
            final(self).deep_view() == after_event(
                old(self).deep_view(),
                engine_event_view(event),
                id@,
            ),
    {
        match event {
            Ok(AgentEvent::TextDelta(delta)) => match self.streaming_message_id.clone() {
                Some(current) => one(self.append_to_message(current, delta)),
                None => {
                    let message = plan::message_with_id(
                        id.clone(),
                        self.root_task_id.as_str(),
                        MessageContent::AgentOutput(AgentOutput { text: delta }),
                    );
                    self.streaming_message_id = Some(id);
                    one(self.add_message(message))
                },
            },
            Ok(AgentEvent::ReasoningDelta(_)) => none(),
            Ok(AgentEvent::ToolCall(call)) => {
                // Any text after this belongs to a new output message.
                self.streaming_message_id = None;
                match self.registry.to_proto_tool_call(&call) {
                    Ok(logged) => {
                        let message = plan::message_with_id(
                            id,
                            self.root_task_id.as_str(),
                            MessageContent::ToolCall(logged),
                        );
                        one(self.add_message(message))
                    },
                    Err(error) => self.finish_with_rollback(
                        FinishReason::InternalError { message: error.message() },
                    ),
                }
            },
            Ok(AgentEvent::Usage { input_tokens, output_tokens }) => {
                self.input_tokens = self.input_tokens + input_tokens;
                self.output_tokens = self.output_tokens + output_tokens;
                none()
            },
            Ok(AgentEvent::Done) => two(
                client_action(Action::CommitTransaction),
                self.finished(FinishReason::Done),
            ),
            Err(LocalAgentError::InvalidApiKey { model_slug }) => self.finish_with_rollback(
                FinishReason::InvalidApiKey {
                    provider: LlmProvider::Unknown,
                    model_name: model_slug,
                },
            ),
            Err(LocalAgentError::ContextWindowExceeded { .. }) => self.finish_with_rollback(
                FinishReason::ContextWindowExceeded,
            ),
            Err(error) => {
                // Transport-level failures surface as failures of the stream, which the host may
                // retry.
                two(client_action(Action::RollbackTransaction), Err(map_engine_error(error)))
            },
        }
    }

    /// Maps one event of the engine. Text is added as a message and then appended to, completed
    /// tool calls are added as messages, the end of the turn commits the transaction, and errors
    /// roll it back.
    pub fn on_event(&mut self, event: Result<AgentEvent, LocalAgentError>) -> (events: Vec<Event>)
        requires
            countable(old(self).deep_view(), engine_event_view(event)),
        ensures
            exists|id: Seq<char>|
                ids::is_uuid(id) && response::event_views(events@) == #[trigger] items_for(
                    old(self).deep_view(),
                    engine_event_view(event),
                    id,
                ) && final(self).deep_view() == after_event(
                    old(self).deep_view(),
                    engine_event_view(event),
                    id,
                ),
    {
        let id = ids::new_id();
        let ghost view = id@;
        let ghost handed = engine_event_view(event);
        let events = self.on_event_with_id(event, id);
        assert(ids::is_uuid(view) && response::event_views(events@) == items_for(
            old(self).deep_view(),
            handed,
            view,
        ));
        events
    }

    fn append_to_message(&self, id: String, delta: String) -> (event: Event)
        ensures
            response::event_view(event) == appended(self.root_task_id@, id@, delta@),
    {
        let message = plan::message_with_id(
            id,
            self.root_task_id.as_str(),
            MessageContent::AgentOutput(AgentOutput { text: delta }),
        );
        let paths: Vec<String> = vec![AGENT_OUTPUT_TEXT_MASK.to_string()];
        assert(paths.deep_view() =~= seq![AGENT_OUTPUT_TEXT_MASK@]);
        client_action(
            Action::AppendToMessageContent(
                AppendToMessageContent {
                    task_id: self.root_task_id.clone(),
                    message: Some(message),
                    mask: Some(FieldMask { paths }),
                },
            ),
        )
    }

    fn add_message(&self, message: Message) -> (event: Event)
        ensures
            response::event_view(event) == added(self.root_task_id@, seq![message.deep_view()]),
    {
        let ghost view = message.deep_view();
        let messages: Vec<Message> = vec![message];
        assert(messages.deep_view() =~= seq![view]);
        self.add_messages(messages)
    }

    /// The item that adds messages to the task of the turn.
    pub fn add_messages(&self, messages: Vec<Message>) -> (event: Event)
        ensures
            response::event_view(event) == added(self.root_task_id@, messages.deep_view()),
    {
        client_action(
            Action::AddMessagesToTask(
                AddMessagesToTask { task_id: self.root_task_id.clone(), messages },
            ),
        )
    }

    /// The items that give up the turn.
    pub fn finish_with_rollback(&self, reason: FinishReason) -> (events: Vec<Event>)
        ensures
            response::event_views(events@) == gave_up(self.deep_view(), reason.deep_view()),
    {
        two(client_action(Action::RollbackTransaction), self.finished(reason))
    }

    /// The item that ends the stream, with the tokens that were used.
    pub fn finished(&self, reason: FinishReason) -> (event: Event)
        ensures
            response::event_view(event) == finish(self.deep_view(), reason.deep_view()),
    {
        let mut token_usage: Vec<TokenUsage> = Vec::new();
        if self.input_tokens > 0 || self.output_tokens > 0 {
            token_usage.push(
                TokenUsage {
                    model_id: self.config_key.clone(),
                    total_input: report(self.input_tokens),
                    output: report(self.output_tokens),
                    rest: Opaque::nothing(),
                },
            );
        }
        let finished = StreamFinished {
            token_usage,
            reason: Some(reason),
            rest: Opaque::nothing(),
        };
        let event: Event = Ok(
            ResponseEvent { kind: Some(ResponseEventKind::Finished(finished)) },
        );
        assert(response::event_view(event)->Ok_0.kind->0->Finished_0.token_usage =~= finish(
            self.deep_view(),
            reason.deep_view(),
        )->Ok_0.kind->0->Finished_0.token_usage);
        event
    }
}

/// Whether an item ends the stream.
pub open spec fn terminal(event: EventView) -> bool {
    match event {
        Ok(response) => response.kind matches Some(ResponseEventKindView::Finished(_)),
        Err(_) => true,
    }
}

/// Whether an event of the engine ends the turn.
pub open spec fn ends_turn(mapper: EventMapperView, event: EngineEventView) -> bool {
    match event {
        Ok(AgentEventView::Done) => true,
        Ok(AgentEventView::ToolCall(call)) => registry::logged_call(mapper.registry, call) is Err,
        Ok(_) => false,
        Err(_) => true,
    }
}

/// The transaction of a turn is committed when the model is done, and only then. Whatever else
/// ends a turn rolls it back. The end of the stream comes after that, and nothing after it.
pub proof fn turn_ends_in_commit_or_rollback(
    mapper: EventMapperView,
    event: EngineEventView,
    id: Seq<char>,
)
    ensures
        ({
            let items = items_for(mapper, event, id);
            if ends_turn(mapper, event) {
                items.len() == 2 && terminal(items[1]) && !terminal(items[0]) && (items[0]
                    == committed() <==> event == Ok::<AgentEventView, LocalAgentErrorView>(
                    AgentEventView::Done,
                )) && (items[0] != committed() ==> items[0] == rolled_back())
            } else {
                forall|i: int|
                    0 <= i < items.len() ==> !terminal(#[trigger] items[i]) && items[i]
                        != committed() && items[i] != rolled_back()
            }
        }),
{
    let items = items_for(mapper, event, id);
    assert(committed() != rolled_back()) by {
        distinct_actions(ActionView::CommitTransaction, ActionView::RollbackTransaction);
    }
    if !ends_turn(mapper, event) && items.len() > 0 {
        let action = items[0]->Ok_0.kind->0->ClientActions_0.actions[0].action->0;
        assert(items[0] == client_event(action));
        distinct_actions(action, ActionView::CommitTransaction);
        distinct_actions(action, ActionView::RollbackTransaction);
    }
}

proof fn distinct_actions(left: ActionView, right: ActionView)
    requires
        left != right,
    ensures
        client_event(left) != client_event(right),
{
    let left_actions = client_event(left)->Ok_0.kind->0->ClientActions_0.actions;
    let right_actions = client_event(right)->Ok_0.kind->0->ClientActions_0.actions;
    assert(left_actions[0].action == Some(left));
    assert(right_actions[0].action == Some(right));
}

/// A stream opens with its start and the start of its transaction. The task is created on the
/// first turn of a conversation and on no other, and the input is echoed before anything else.
pub proof fn opening_is_in_order(mapper: EventMapperView, id: Seq<char>)
    ensures
        ({
            let items = opening(mapper, id);
            &&& items[0] matches Ok(response) && response.kind matches Some(
                ResponseEventKindView::Init(init),
            ) && init.conversation_id == mapper.conversation_id
            &&& items[1] == client_event(ActionView::BeginTransaction)
            &&& items.last() == added(
                mapper.root_task_id,
                mapper.echo_messages.push(model_message(mapper, id)),
            )
            &&& items.len() == (if mapper.is_first_turn {
                4int
            } else {
                3
            })
            &&& mapper.is_first_turn ==> items[2] == client_event(
                ActionView::CreateTask(
                    CreateTaskView { task: Some(empty_task(mapper.root_task_id)) },
                ),
            )
        }),
{
}

/// The mapper after the first `count` of a run of engine events, the messages that they make being
/// under the given ids.
pub open spec fn after_events(
    mapper: EventMapperView,
    events: Seq<EngineEventView>,
    ids: Seq<Seq<char>>,
    count: nat,
) -> EventMapperView
    decreases count,
{
    if count == 0 {
        mapper
    } else {
        after_event(
            after_events(mapper, events, ids, (count - 1) as nat),
            events[count - 1],
            ids[count - 1],
        )
    }
}

/// The items for the first `count` of a run of engine events.
pub open spec fn items_for_all(
    mapper: EventMapperView,
    events: Seq<EngineEventView>,
    ids: Seq<Seq<char>>,
    count: nat,
) -> Seq<EventView>
    decreases count,
{
    if count == 0 {
        Seq::empty()
    } else {
        items_for_all(mapper, events, ids, (count - 1) as nat) + items_for(
            after_events(mapper, events, ids, (count - 1) as nat),
            events[count - 1],
            ids[count - 1],
        )
    }
}

proof fn registry_is_kept(
    mapper: EventMapperView,
    events: Seq<EngineEventView>,
    ids: Seq<Seq<char>>,
    count: nat,
)
    ensures
        after_events(mapper, events, ids, count).registry == mapper.registry,
    decreases count,
{
    if count > 0 {
        registry_is_kept(mapper, events, ids, (count - 1) as nat);
    }
}

/// Whether an item neither ends the stream nor settles its transaction.
pub open spec fn quiet(item: EventView) -> bool {
    !terminal(item) && item != committed() && item != rolled_back()
}

proof fn items_are_quiet(
    mapper: EventMapperView,
    events: Seq<EngineEventView>,
    ids: Seq<Seq<char>>,
    count: nat,
)
    requires
        forall|i: int| 0 <= i < count ==> !ends_turn(mapper, #[trigger] events[i]),
    ensures
        forall|i: int|
            0 <= i < items_for_all(mapper, events, ids, count).len() ==> quiet(
                #[trigger] items_for_all(mapper, events, ids, count)[i],
            ),
    decreases count,
{
    if count > 0 {
        let less = (count - 1) as nat;
        items_are_quiet(mapper, events, ids, less);
        registry_is_kept(mapper, events, ids, less);
        let current = after_events(mapper, events, ids, less);
        let more = items_for(current, events[count - 1], ids[count - 1]);
        assert(!ends_turn(current, events[count - 1]));
        turn_ends_in_commit_or_rollback(current, events[count - 1], ids[count - 1]);
        let before = items_for_all(mapper, events, ids, less);
        let items = items_for_all(mapper, events, ids, count);
        assert forall|i: int| 0 <= i < items.len() implies quiet(#[trigger] items[i]) by {
            if i < before.len() {
                assert(items[i] == before[i]);
            } else {
                assert(items[i] == more[i - before.len()]);
            }
        }
    }
}

/// The items of a turn settle its transaction once and end the stream once, in that order and as
/// the last two of them: with a commit where the model was done, and with a rollback where not.
pub proof fn stream_ends_once(
    mapper: EventMapperView,
    events: Seq<EngineEventView>,
    ids: Seq<Seq<char>>,
)
    requires
        events.len() > 0,
        forall|i: int| 0 <= i < events.len() - 1 ==> !ends_turn(mapper, #[trigger] events[i]),
        ends_turn(mapper, events.last()),
    ensures
        ({
            let items = items_for_all(mapper, events, ids, events.len());
            let done = events.last() == Ok::<AgentEventView, LocalAgentErrorView>(
                AgentEventView::Done,
            );
            &&& items.len() >= 2
            &&& terminal(items.last())
            &&& items[items.len() - 2] == (if done {
                committed()
            } else {
                rolled_back()
            })
            &&& forall|i: int| 0 <= i < items.len() - 2 ==> quiet(#[trigger] items[i])
        }),
{
    let less = (events.len() - 1) as nat;
    items_are_quiet(mapper, events, ids, less);
    registry_is_kept(mapper, events, ids, less);
    let current = after_events(mapper, events, ids, less);
    turn_ends_in_commit_or_rollback(current, events.last(), ids[less as int]);
    let before = items_for_all(mapper, events, ids, less);
    let items = items_for_all(mapper, events, ids, events.len());
    let more = items_for(current, events.last(), ids[less as int]);
    assert(items =~= before + more);
    assert forall|i: int| 0 <= i < items.len() - 2 implies quiet(#[trigger] items[i]) by {
        assert(items[i] == before[i]);
    }
}

/// The tokens that the first `count` of a run of events report as read and as written.
pub open spec fn tokens_in(events: Seq<EngineEventView>, count: nat) -> (int, int)
    decreases count,
{
    if count == 0 {
        (0, 0)
    } else {
        let before = tokens_in(events, (count - 1) as nat);
        match events[count - 1] {
            Ok(AgentEventView::Usage { input_tokens, output_tokens }) => (
                before.0 + input_tokens,
                before.1 + output_tokens,
            ),
            _ => before,
        }
    }
}

/// The usage that a stream reports is the sum of all that the engine reported.
pub proof fn usage_is_summed(
    mapper: EventMapperView,
    events: Seq<EngineEventView>,
    ids: Seq<Seq<char>>,
    count: nat,
)
    requires
        count <= events.len(),
        mapper.input_tokens + tokens_in(events, events.len()).0 <= u64::MAX,
        mapper.output_tokens + tokens_in(events, events.len()).1 <= u64::MAX,
    ensures
        after_events(mapper, events, ids, count).input_tokens == mapper.input_tokens + tokens_in(
            events,
            count,
        ).0,
        after_events(mapper, events, ids, count).output_tokens == mapper.output_tokens + tokens_in(
            events,
            count,
        ).1,
        count < events.len() ==> countable(
            after_events(mapper, events, ids, count),
            events[count as int],
        ),
    decreases count,
{
    if count > 0 {
        usage_is_summed(mapper, events, ids, (count - 1) as nat);
    }
    tokens_grow(events, count, events.len());
    if count < events.len() {
        tokens_grow(events, count + 1, events.len());
    }
}

proof fn tokens_grow(events: Seq<EngineEventView>, from: nat, to: nat)
    requires
        from <= to <= events.len(),
    ensures
        0 <= tokens_in(events, from).0 <= tokens_in(events, to).0,
        0 <= tokens_in(events, from).1 <= tokens_in(events, to).1,
    decreases to,
{
    if from < to {
        tokens_grow(events, from, (to - 1) as nat);
    } else if from > 0 {
        tokens_grow(events, (from - 1) as nat, (to - 1) as nat);
    }
}

/// The text that a client shows for the message `id` after the first `count` items: an added
/// message brings its text, and an append to it brings more.
pub open spec fn shown_text(items: Seq<EventView>, id: Seq<char>, count: nat) -> Seq<char>
    decreases count,
{
    if count == 0 {
        Seq::empty()
    } else {
        let before = shown_text(items, id, (count - 1) as nat);
        match items[count - 1] {
            Ok(response) => match response.kind {
                Some(ResponseEventKindView::ClientActions(carried)) => match carried.actions[0].action {
                    Some(ActionView::AddMessagesToTask(add)) => if add.messages[0].id == id {
                        output_text(add.messages[0])
                    } else {
                        before
                    },
                    Some(ActionView::AppendToMessageContent(append)) => if append.message->0.id
                        == id {
                        before + output_text(append.message->0)
                    } else {
                        before
                    },
                    _ => before,
                },
                _ => before,
            },
            Err(_) => before,
        }
    }
}

/// The text of a message that the agent put out.
pub open spec fn output_text(message: MessageView) -> Seq<char> {
    match message.message {
        Some(MessageContentView::AgentOutput(output)) => output.text,
        _ => Seq::empty(),
    }
}

/// Whether an event comes while the model streams an answer: a piece of its text or of its
/// reasoning, or a count of tokens.
pub open spec fn streams(event: EngineEventView) -> bool {
    match event {
        Ok(AgentEventView::TextDelta(_)) => true,
        Ok(AgentEventView::ReasoningDelta(_)) => true,
        Ok(AgentEventView::Usage { .. }) => true,
        _ => false,
    }
}

/// The text in the first `count` of a run of events, one piece after the other.
pub open spec fn streamed_text(events: Seq<EngineEventView>, count: nat) -> Seq<char>
    decreases count,
{
    if count == 0 {
        Seq::empty()
    } else {
        let before = streamed_text(events, (count - 1) as nat);
        match events[count - 1] {
            Ok(AgentEventView::TextDelta(delta)) => before + delta,
            _ => before,
        }
    }
}

/// The number of pieces of text in the first `count` of a run of events.
pub open spec fn texts_in(events: Seq<EngineEventView>, count: nat) -> nat
    decreases count,
{
    if count == 0 {
        0
    } else {
        let before = texts_in(events, (count - 1) as nat);
        match events[count - 1] {
            Ok(AgentEventView::TextDelta(_)) => before + 1,
            _ => before,
        }
    }
}

/// The place of the first piece of text in the first `count` of a run of events.
pub open spec fn first_text(events: Seq<EngineEventView>, count: nat) -> Option<int>
    decreases count,
{
    if count == 0 {
        None
    } else {
        match (first_text(events, (count - 1) as nat), events[count - 1]) {
            (Some(at), _) => Some(at),
            (None, Ok(AgentEventView::TextDelta(_))) => Some(count - 1),
            _ => None,
        }
    }
}

/// Text that the model streams in pieces is shown as one message that holds all of it, whatever
/// reasoning and token counts come in between: the first piece creates the message, every further
/// piece is appended to that same message, and nothing else gives an item.
pub proof fn deltas_make_one_message(
    mapper: EventMapperView,
    events: Seq<EngineEventView>,
    ids: Seq<Seq<char>>,
    count: nat,
)
    requires
        mapper.streaming_message_id is None,
        count <= events.len(),
        forall|i: int| 0 <= i < count ==> streams(#[trigger] events[i]),
    ensures
        after_events(mapper, events, ids, count).root_task_id == mapper.root_task_id,
        items_for_all(mapper, events, ids, count).len() == texts_in(events, count),
        match first_text(events, count) {
            Some(at) => 0 <= at < count && texts_in(events, count) > 0 && after_events(
                mapper,
                events,
                ids,
                count,
            ).streaming_message_id == Some(ids[at]) && shown_text(
                items_for_all(mapper, events, ids, count),
                ids[at],
                texts_in(events, count),
            ) == streamed_text(events, count),
            None => texts_in(events, count) == 0 && after_events(
                mapper,
                events,
                ids,
                count,
            ).streaming_message_id is None,
        },
        count < events.len() && streams(events[count as int]) ==> items_for(
            after_events(mapper, events, ids, count),
            events[count as int],
            ids[count as int],
        ) == (match events[count as int] {
            Ok(AgentEventView::TextDelta(delta)) => match first_text(events, count) {
                Some(at) => seq![appended(mapper.root_task_id, ids[at], delta)],
                None => seq![
                    added(
                        mapper.root_task_id,
                        seq![
                            plan::task_message(
                                ids[count as int],
                                mapper.root_task_id,
                                output_of(delta),
                            ),
                        ],
                    ),
                ],
            },
            _ => Seq::empty(),
        }),
    decreases count,
{
    let items = items_for_all(mapper, events, ids, count);
    if count > 0 {
        let less = (count - 1) as nat;
        deltas_make_one_message(mapper, events, ids, less);
        let before = items_for_all(mapper, events, ids, less);
        let current = after_events(mapper, events, ids, less);
        let more = items_for(current, events[less as int], ids[less as int]);
        assert(items =~= before + more);
        assert(streams(events[less as int]));
        match events[less as int] {
            Ok(AgentEventView::TextDelta(delta)) => {
                assert(items =~= before.push(more[0]));
                let at = first_text(events, count)->0;
                shown_prefix(before, more, ids[at], before.len());
                assert(items[before.len() as int] == more[0]);
                if first_text(events, less) is None {
                    no_text_yet(events, less);
                    assert(streamed_text(events, count) =~= delta);
                }
            },
            _ => {
                assert(items =~= before);
            },
        }
    }
}

proof fn no_text_yet(events: Seq<EngineEventView>, count: nat)
    requires
        first_text(events, count) is None,
    ensures
        streamed_text(events, count) == Seq::<char>::empty(),
    decreases count,
{
    if count > 0 {
        no_text_yet(events, (count - 1) as nat);
    }
}

proof fn shown_prefix(items: Seq<EventView>, more: Seq<EventView>, id: Seq<char>, count: nat)
    requires
        count <= items.len(),
    ensures
        shown_text(items + more, id, count) == shown_text(items, id, count),
    decreases count,
{
    if count > 0 {
        shown_prefix(items, more, id, (count - 1) as nat);
        assert((items + more)[count - 1] == items[count - 1]);
    }
}

/// Once the model calls a tool, the text that comes next is added as a message of its own, under
/// the id that was drawn for it, and nothing but that text is shown under that id. The text that was
/// streamed before stays what it was, unless a later message was drawn the same id.
pub proof fn text_after_call_is_apart(
    mapper: EventMapperView,
    events: Seq<EngineEventView>,
    ids: Seq<Seq<char>>,
    count: nat,
)
    requires
        mapper.streaming_message_id is None,
        count + 2 <= events.len(),
        forall|i: int| 0 <= i < count ==> streams(#[trigger] events[i]),
        first_text(events, count) is Some,
        events[count as int] matches Ok(AgentEventView::ToolCall(_)),
        events[count as int + 1] matches Ok(AgentEventView::TextDelta(_)),
    ensures
        ({
            let delta = events[count as int + 1]->Ok_0->TextDelta_0;
            let items = items_for_all(mapper, events, ids, count + 2);
            &&& items.last() == added(
                mapper.root_task_id,
                seq![plan::task_message(ids[count as int + 1], mapper.root_task_id, output_of(delta))],
            )
            &&& shown_text(items, ids[count as int + 1], items.len()) == delta
            &&& ids[first_text(events, count)->0] != ids[count as int]
                && ids[first_text(events, count)->0] != ids[count as int + 1] ==> shown_text(
                items,
                ids[first_text(events, count)->0],
                items.len(),
            ) == streamed_text(events, count)
        }),
{
    deltas_make_one_message(mapper, events, ids, count);
    let id = ids[first_text(events, count)->0];
    let delta = events[count as int + 1]->Ok_0->TextDelta_0;
    let current = after_events(mapper, events, ids, count);
    let called = after_events(mapper, events, ids, count + 1);
    assert(called == after_event(current, events[count as int], ids[count as int]));
    let before = items_for_all(mapper, events, ids, count);
    let call = items_for(current, events[count as int], ids[count as int]);
    let until = items_for_all(mapper, events, ids, count + 1);
    assert(until =~= before + call);
    shown_prefix(before, call, id, before.len());
    assert(id != ids[count as int] ==> shown_text(until, id, until.len()) == streamed_text(
        events,
        count,
    )) by {
        assert forall|i: int| before.len() <= i < until.len() implies #[trigger] until[i] == call[
        i - before.len()] by {}
        reveal_with_fuel(shown_text, 3);
    }
    let last = items_for(called, events[count as int + 1], ids[count as int + 1]);
    let items = items_for_all(mapper, events, ids, count + 2);
    assert(items =~= until + last);
    shown_prefix(until, last, id, until.len());
    assert(items[until.len() as int] == last[0]);
}

/// Text after a tool call belongs to a message of its own.
pub proof fn tool_call_ends_message(
    mapper: EventMapperView,
    call: ToolCallRequestView,
    delta: Seq<char>,
    call_id: Seq<char>,
    text_id: Seq<char>,
)
    ensures
        ({
            let called = after_event(mapper, Ok(AgentEventView::ToolCall(call)), call_id);
            items_for(called, Ok(AgentEventView::TextDelta(delta)), text_id) == seq![
                added(
                    mapper.root_task_id,
                    seq![plan::task_message(text_id, mapper.root_task_id, output_of(delta))],
                ),
            ]
        }),
{
}

} // verus!

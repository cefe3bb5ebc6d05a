//! What a turn streams back to the client.

use vstd::prelude::*;

use crate::api::context::{Opaque, OpaqueView};
use crate::api::message::{Message, MessageView, Task, TaskView};
use crate::model::{AdapterError, AdapterErrorView, LocalAgentError, LocalAgentErrorView};

verus! {

/// The start of a stream.
#[derive(Debug, PartialEq, Default)]
pub struct StreamInit {
    pub conversation_id: String,
    pub request_id: String,
    pub run_id: String,
}

#[verifier::ext_equal]
pub struct StreamInitView {
    pub conversation_id: Seq<char>,
    pub request_id: Seq<char>,
    pub run_id: Seq<char>,
}

impl DeepView for StreamInit {
    type V = StreamInitView;

    open spec fn deep_view(&self) -> StreamInitView {
        StreamInitView {
            conversation_id: self.conversation_id@,
            request_id: self.request_id@,
            run_id: self.run_id@,
        }
    }
}

impl Clone for StreamInit {
    fn clone(&self) -> (copy: Self)
        ensures
            copy.deep_view() == self.deep_view(),
    {
        StreamInit {
            conversation_id: self.conversation_id.clone(),
            request_id: self.request_id.clone(),
            run_id: self.run_id.clone(),
        }
    }
}

/// The tokens that a model used.
#[derive(Debug, PartialEq, Default)]
pub struct TokenUsage {
    pub model_id: String,
    pub total_input: u32,
    pub output: u32,
    pub rest: Opaque,
}

#[verifier::ext_equal]
pub struct TokenUsageView {
    pub model_id: Seq<char>,
    pub total_input: u32,
    pub output: u32,
    pub rest: OpaqueView,
}

impl DeepView for TokenUsage {
    type V = TokenUsageView;

    open spec fn deep_view(&self) -> TokenUsageView {
        TokenUsageView {
            model_id: self.model_id@,
            total_input: self.total_input,
            output: self.output,
            rest: self.rest.deep_view(),
        }
    }
}

impl Clone for TokenUsage {
    fn clone(&self) -> (copy: Self)
        ensures
            copy.deep_view() == self.deep_view(),
    {
        TokenUsage {
            model_id: self.model_id.clone(),
            total_input: self.total_input,
            output: self.output,
            rest: self.rest.clone(),
        }
    }
}

/// Who provides a model.
#[derive(Debug, PartialEq)]
pub enum LlmProvider {
    Unknown,
}

#[verifier::ext_equal]
pub enum LlmProviderView {
    Unknown,
}

impl DeepView for LlmProvider {
    type V = LlmProviderView;

    open spec fn deep_view(&self) -> LlmProviderView {
        match self {
            LlmProvider::Unknown => LlmProviderView::Unknown,
        }
    }
}

impl Clone for LlmProvider {
    fn clone(&self) -> (copy: Self)
        ensures
            copy.deep_view() == self.deep_view(),
    {
        match self {
            LlmProvider::Unknown => LlmProvider::Unknown,
        }
    }
}

/// Why a stream came to its end.
#[derive(Debug, PartialEq)]
pub enum FinishReason {
    Done,
    InternalError { message: String },
    InvalidApiKey { provider: LlmProvider, model_name: String },
    ContextWindowExceeded,
}

#[verifier::ext_equal]
pub enum FinishReasonView {
    Done,
    InternalError { message: Seq<char> },
    InvalidApiKey { provider: LlmProviderView, model_name: Seq<char> },
    ContextWindowExceeded,
}

impl DeepView for FinishReason {
    type V = FinishReasonView;

    open spec fn deep_view(&self) -> FinishReasonView {
        match self {
            FinishReason::Done => FinishReasonView::Done,
            FinishReason::InternalError { message } => FinishReasonView::InternalError {
                message: message@,
            },
            FinishReason::InvalidApiKey { provider, model_name } => FinishReasonView::InvalidApiKey {
                provider: provider.deep_view(),
                model_name: model_name@,
            },
            FinishReason::ContextWindowExceeded => FinishReasonView::ContextWindowExceeded,
        }
    }
}

impl Clone for FinishReason {
    fn clone(&self) -> (copy: Self)
        ensures
            copy.deep_view() == self.deep_view(),
    {
        match self {
            FinishReason::Done => FinishReason::Done,
            FinishReason::InternalError { message } => FinishReason::InternalError {
                message: message.clone(),
            },
            FinishReason::InvalidApiKey { provider, model_name } => FinishReason::InvalidApiKey {
                provider: provider.clone(),
                model_name: model_name.clone(),
            },
            FinishReason::ContextWindowExceeded => FinishReason::ContextWindowExceeded,
        }
    }
}

/// The end of a stream.
#[derive(Debug, PartialEq, Default)]
pub struct StreamFinished {
    pub token_usage: Vec<TokenUsage>,
    pub reason: Option<FinishReason>,
    pub rest: Opaque,
}

#[verifier::ext_equal]
pub struct StreamFinishedView {
    pub token_usage: Seq<TokenUsageView>,
    pub reason: Option<FinishReasonView>,
    pub rest: OpaqueView,
}

impl DeepView for StreamFinished {
    type V = StreamFinishedView;

    open spec fn deep_view(&self) -> StreamFinishedView {
        StreamFinishedView {
            token_usage: self.token_usage.deep_view(),
            reason: self.reason.deep_view(),
            rest: self.rest.deep_view(),
        }
    }
}

impl Clone for StreamFinished {
    fn clone(&self) -> (copy: Self)
        ensures
            copy.deep_view() == self.deep_view(),
    {
        let copy = StreamFinished {
            token_usage: self.token_usage.clone(),
            reason: self.reason.clone(),
            rest: self.rest.clone(),
        };
        assert(copy.token_usage.deep_view() =~= self.token_usage.deep_view());
        copy
    }
}

/// The fields that an update touches, by their paths.
#[derive(Debug, PartialEq, Default)]
pub struct FieldMask {
    pub paths: Vec<String>,
}

#[verifier::ext_equal]
pub struct FieldMaskView {
    pub paths: Seq<Seq<char>>,
}

impl DeepView for FieldMask {
    type V = FieldMaskView;

    open spec fn deep_view(&self) -> FieldMaskView {
        FieldMaskView {
            paths: self.paths.deep_view(),
        }
    }
}

impl Clone for FieldMask {
    fn clone(&self) -> (copy: Self)
        ensures
            copy.deep_view() == self.deep_view(),
    {
        let copy = FieldMask {
            paths: self.paths.clone(),
        };
        assert(copy.paths.deep_view() =~= self.paths.deep_view());
        copy
    }
}

/// Creates a task.
#[derive(Debug, PartialEq, Default)]
pub struct CreateTask {
    pub task: Option<Task>,
}

#[verifier::ext_equal]
pub struct CreateTaskView {
    pub task: Option<TaskView>,
}

impl DeepView for CreateTask {
    type V = CreateTaskView;

    open spec fn deep_view(&self) -> CreateTaskView {
        CreateTaskView {
            task: self.task.deep_view(),
        }
    }
}

impl Clone for CreateTask {
    fn clone(&self) -> (copy: Self)
        ensures
            copy.deep_view() == self.deep_view(),
    {
        CreateTask {
            task: self.task.clone(),
        }
    }
}

/// Adds messages to a task.
#[derive(Debug, PartialEq, Default)]
pub struct AddMessagesToTask {
    pub task_id: String,
    pub messages: Vec<Message>,
}

#[verifier::ext_equal]
pub struct AddMessagesToTaskView {
    pub task_id: Seq<char>,
    pub messages: Seq<MessageView>,
}

impl DeepView for AddMessagesToTask {
    type V = AddMessagesToTaskView;

    open spec fn deep_view(&self) -> AddMessagesToTaskView {
        AddMessagesToTaskView {
            task_id: self.task_id@,
            messages: self.messages.deep_view(),
        }
    }
}

impl Clone for AddMessagesToTask {
    fn clone(&self) -> (copy: Self)
        ensures
            copy.deep_view() == self.deep_view(),
    {
        let copy = AddMessagesToTask {
            task_id: self.task_id.clone(),
            messages: self.messages.clone(),
        };
        assert(copy.messages.deep_view() =~= self.messages.deep_view());
        copy
    }
}

/// Appends to fields of a message.
#[derive(Debug, PartialEq, Default)]
pub struct AppendToMessageContent {
    pub task_id: String,
    pub message: Option<Message>,
    pub mask: Option<FieldMask>,
}

#[verifier::ext_equal]
pub struct AppendToMessageContentView {
    pub task_id: Seq<char>,
    pub message: Option<MessageView>,
    pub mask: Option<FieldMaskView>,
}

impl DeepView for AppendToMessageContent {
    type V = AppendToMessageContentView;

    open spec fn deep_view(&self) -> AppendToMessageContentView {
        AppendToMessageContentView {
            task_id: self.task_id@,
            message: self.message.deep_view(),
            mask: self.mask.deep_view(),
        }
    }
}

impl Clone for AppendToMessageContent {
    fn clone(&self) -> (copy: Self)
        ensures
            copy.deep_view() == self.deep_view(),
    {
        AppendToMessageContent {
            task_id: self.task_id.clone(),
            message: self.message.clone(),
            mask: self.mask.clone(),
        }
    }
}

/// What the client is to do.
#[derive(Debug, PartialEq)]
pub enum Action {
    BeginTransaction,
    CommitTransaction,
    RollbackTransaction,
    CreateTask(CreateTask),
    AddMessagesToTask(AddMessagesToTask),
    AppendToMessageContent(AppendToMessageContent),
}

#[verifier::ext_equal]
pub enum ActionView {
    BeginTransaction,
    CommitTransaction,
    RollbackTransaction,
    CreateTask(CreateTaskView),
    AddMessagesToTask(AddMessagesToTaskView),
    AppendToMessageContent(AppendToMessageContentView),
}

impl DeepView for Action {
    type V = ActionView;

    open spec fn deep_view(&self) -> ActionView {
        match self {
            Action::BeginTransaction => ActionView::BeginTransaction,
            Action::CommitTransaction => ActionView::CommitTransaction,
            Action::RollbackTransaction => ActionView::RollbackTransaction,
            Action::CreateTask(value) => ActionView::CreateTask(value.deep_view()),
            Action::AddMessagesToTask(value) => ActionView::AddMessagesToTask(value.deep_view()),
            Action::AppendToMessageContent(value) => ActionView::AppendToMessageContent(
                value.deep_view(),
            ),
        }
    }
}

impl Clone for Action {
    fn clone(&self) -> (copy: Self)
        ensures
            copy.deep_view() == self.deep_view(),
    {
        match self {
            Action::BeginTransaction => Action::BeginTransaction,
            Action::CommitTransaction => Action::CommitTransaction,
            Action::RollbackTransaction => Action::RollbackTransaction,
            Action::CreateTask(value) => Action::CreateTask(value.clone()),
            Action::AddMessagesToTask(value) => Action::AddMessagesToTask(value.clone()),
            Action::AppendToMessageContent(value) => Action::AppendToMessageContent(value.clone()),
        }
    }
}

/// An action for the client.
#[derive(Debug, PartialEq, Default)]
pub struct ClientAction {
    pub action: Option<Action>,
}

#[verifier::ext_equal]
pub struct ClientActionView {
    pub action: Option<ActionView>,
}

impl DeepView for ClientAction {
    type V = ClientActionView;

    open spec fn deep_view(&self) -> ClientActionView {
        ClientActionView {
            action: self.action.deep_view(),
        }
    }
}

impl Clone for ClientAction {
    fn clone(&self) -> (copy: Self)
        ensures
            copy.deep_view() == self.deep_view(),
    {
        ClientAction {
            action: self.action.clone(),
        }
    }
}

/// Actions for the client, in order.
#[derive(Debug, PartialEq, Default)]
pub struct ClientActions {
    pub actions: Vec<ClientAction>,
}

#[verifier::ext_equal]
pub struct ClientActionsView {
    pub actions: Seq<ClientActionView>,
}

impl DeepView for ClientActions {
    type V = ClientActionsView;

    open spec fn deep_view(&self) -> ClientActionsView {
        ClientActionsView {
            actions: self.actions.deep_view(),
        }
    }
}

impl Clone for ClientActions {
    fn clone(&self) -> (copy: Self)
        ensures
            copy.deep_view() == self.deep_view(),
    {
        let copy = ClientActions {
            actions: self.actions.clone(),
        };
        assert(copy.actions.deep_view() =~= self.actions.deep_view());
        copy
    }
}

/// The kinds of items that a stream carries.
#[derive(Debug, PartialEq)]
pub enum ResponseEventKind {
    Init(StreamInit),
    ClientActions(ClientActions),
    Finished(StreamFinished),
}

#[verifier::ext_equal]
pub enum ResponseEventKindView {
    Init(StreamInitView),
    ClientActions(ClientActionsView),
    Finished(StreamFinishedView),
}

impl DeepView for ResponseEventKind {
    type V = ResponseEventKindView;

    open spec fn deep_view(&self) -> ResponseEventKindView {
        match self {
            ResponseEventKind::Init(value) => ResponseEventKindView::Init(value.deep_view()),
            ResponseEventKind::ClientActions(value) => ResponseEventKindView::ClientActions(
                value.deep_view(),
            ),
            ResponseEventKind::Finished(value) => ResponseEventKindView::Finished(
                value.deep_view(),
            ),
        }
    }
}

impl Clone for ResponseEventKind {
    fn clone(&self) -> (copy: Self)
        ensures
            copy.deep_view() == self.deep_view(),
    {
        match self {
            ResponseEventKind::Init(value) => ResponseEventKind::Init(value.clone()),
            ResponseEventKind::ClientActions(value) => ResponseEventKind::ClientActions(
                value.clone(),
            ),
            ResponseEventKind::Finished(value) => ResponseEventKind::Finished(value.clone()),
        }
    }
}

/// An item of the response stream.
#[derive(Debug, PartialEq, Default)]
pub struct ResponseEvent {
    pub kind: Option<ResponseEventKind>,
}

#[verifier::ext_equal]
pub struct ResponseEventView {
    pub kind: Option<ResponseEventKindView>,
}

impl DeepView for ResponseEvent {
    type V = ResponseEventView;

    open spec fn deep_view(&self) -> ResponseEventView {
        ResponseEventView {
            kind: self.kind.deep_view(),
        }
    }
}

impl Clone for ResponseEvent {
    fn clone(&self) -> (copy: Self)
        ensures
            copy.deep_view() == self.deep_view(),
    {
        ResponseEvent {
            kind: self.kind.clone(),
        }
    }
}

/// A failure of the stream itself.
#[derive(Debug, PartialEq)]
pub enum AiApiError {
    ErrorStatus { status: u16, body: String },
    Stream { stream_type: String, source: LocalAgentError },
    Other(AdapterError),
}

#[verifier::ext_equal]
pub enum AiApiErrorView {
    ErrorStatus { status: u16, body: Seq<char> },
    Stream { stream_type: Seq<char>, source: LocalAgentErrorView },
    Other(AdapterErrorView),
}

impl DeepView for AiApiError {
    type V = AiApiErrorView;

    open spec fn deep_view(&self) -> AiApiErrorView {
        match self {
            AiApiError::ErrorStatus { status, body } => AiApiErrorView::ErrorStatus {
                status: *status,
                body: body@,
            },
            AiApiError::Stream { stream_type, source } => AiApiErrorView::Stream {
                stream_type: stream_type@,
                source: source.deep_view(),
            },
            AiApiError::Other(value) => AiApiErrorView::Other(value.deep_view()),
        }
    }
}

impl Clone for AiApiError {
    fn clone(&self) -> (copy: Self)
        ensures
            copy.deep_view() == self.deep_view(),
    {
        match self {
            AiApiError::ErrorStatus { status, body } => AiApiError::ErrorStatus {
                status: *status,
                body: body.clone(),
            },
            AiApiError::Stream { stream_type, source } => AiApiError::Stream {
                stream_type: stream_type.clone(),
                source: source.clone(),
            },
            AiApiError::Other(value) => AiApiError::Other(value.clone()),
        }
    }
}

/// One item of the response stream.
pub type Event = Result<ResponseEvent, AiApiError>;

pub type EventView = Result<ResponseEventView, AiApiErrorView>;

/// What an item of the response stream says.
pub open spec fn event_view(event: Event) -> EventView {
    match event {
        Ok(response) => Ok(response.deep_view()),
        Err(error) => Err(error.deep_view()),
    }
}

/// What a run of items says, in order.
pub open spec fn event_views(events: Seq<Event>) -> Seq<EventView> {
    events.map_values(|event: Event| event_view(event))
}

} // verus!

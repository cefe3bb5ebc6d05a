//! The task tree: tasks and the messages that they log.

use vstd::prelude::*;

use crate::api::context::{
    AnyFileContent, AnyFileContentView, ExecutedShellCommand, ExecutedShellCommandView,
    InputContext, InputContextView, Opaque, OpaqueView, Timestamp, TimestampView,
};
use crate::api::result::{ToolCallResult, ToolCallResultView};
use crate::api::tool::{ToolCall, ToolCallView};

verus! {

/// What the user asked, in the message log.
#[derive(Debug, PartialEq, Default)]
pub struct UserQuery {
    pub query: String,
    pub context: Option<InputContext>,
    pub referenced_attachments: Opaque,
    pub mode: Option<Opaque>,
    pub intended_agent: i32,
}

#[verifier::ext_equal]
pub struct UserQueryView {
    pub query: Seq<char>,
    pub context: Option<InputContextView>,
    pub referenced_attachments: OpaqueView,
    pub mode: Option<OpaqueView>,
    pub intended_agent: i32,
}

impl DeepView for UserQuery {
    type V = UserQueryView;

    open spec fn deep_view(&self) -> UserQueryView {
        UserQueryView {
            query: self.query@,
            context: self.context.deep_view(),
            referenced_attachments: self.referenced_attachments.deep_view(),
            mode: self.mode.deep_view(),
            intended_agent: self.intended_agent,
        }
    }
}

impl Clone for UserQuery {
    fn clone(&self) -> (copy: Self)
        ensures
            copy.deep_view() == self.deep_view(),
    {
        UserQuery {
            query: self.query.clone(),
            context: self.context.clone(),
            referenced_attachments: self.referenced_attachments.clone(),
            mode: self.mode.clone(),
            intended_agent: self.intended_agent,
        }
    }
}

/// What the agent said.
#[derive(Debug, PartialEq, Default)]
pub struct AgentOutput {
    pub text: String,
}

#[verifier::ext_equal]
pub struct AgentOutputView {
    pub text: Seq<char>,
}

impl DeepView for AgentOutput {
    type V = AgentOutputView;

    open spec fn deep_view(&self) -> AgentOutputView {
        AgentOutputView {
            text: self.text@,
        }
    }
}

impl Clone for AgentOutput {
    fn clone(&self) -> (copy: Self)
        ensures
            copy.deep_view() == self.deep_view(),
    {
        AgentOutput {
            text: self.text.clone(),
        }
    }
}

/// Which model a turn used.
#[derive(Debug, PartialEq, Default)]
pub struct ModelUsed {
    pub model_id: String,
    pub rest: Opaque,
}

#[verifier::ext_equal]
pub struct ModelUsedView {
    pub model_id: Seq<char>,
    pub rest: OpaqueView,
}

impl DeepView for ModelUsed {
    type V = ModelUsedView;

    open spec fn deep_view(&self) -> ModelUsedView {
        ModelUsedView {
            model_id: self.model_id@,
            rest: self.rest.deep_view(),
        }
    }
}

impl Clone for ModelUsed {
    fn clone(&self) -> (copy: Self)
        ensures
            copy.deep_view() == self.deep_view(),
    {
        ModelUsed {
            model_id: self.model_id.clone(),
            rest: self.rest.clone(),
        }
    }
}

/// What led to a passive suggestion.
#[derive(Debug, PartialEq)]
pub enum PassiveSuggestionTrigger {
    ExecutedShellCommand(ExecutedShellCommand),
    AgentResponseCompleted(Opaque),
}

#[verifier::ext_equal]
pub enum PassiveSuggestionTriggerView {
    ExecutedShellCommand(ExecutedShellCommandView),
    AgentResponseCompleted(OpaqueView),
}

impl DeepView for PassiveSuggestionTrigger {
    type V = PassiveSuggestionTriggerView;

    open spec fn deep_view(&self) -> PassiveSuggestionTriggerView {
        match self {
            PassiveSuggestionTrigger::ExecutedShellCommand(value) => PassiveSuggestionTriggerView::ExecutedShellCommand(
                value.deep_view(),
            ),
            PassiveSuggestionTrigger::AgentResponseCompleted(value) => PassiveSuggestionTriggerView::AgentResponseCompleted(
                value.deep_view(),
            ),
        }
    }
}

impl Clone for PassiveSuggestionTrigger {
    fn clone(&self) -> (copy: Self)
        ensures
            copy.deep_view() == self.deep_view(),
    {
        match self {
            PassiveSuggestionTrigger::ExecutedShellCommand(value) => PassiveSuggestionTrigger::ExecutedShellCommand(
                value.clone(),
            ),
            PassiveSuggestionTrigger::AgentResponseCompleted(value) => PassiveSuggestionTrigger::AgentResponseCompleted(
                value.clone(),
            ),
        }
    }
}

/// A prompt that was suggested.
#[derive(Debug, PartialEq, Default)]
pub struct SuggestedPrompt {
    pub prompt: String,
}

#[verifier::ext_equal]
pub struct SuggestedPromptView {
    pub prompt: Seq<char>,
}

impl DeepView for SuggestedPrompt {
    type V = SuggestedPromptView;

    open spec fn deep_view(&self) -> SuggestedPromptView {
        SuggestedPromptView {
            prompt: self.prompt@,
        }
    }
}

impl Clone for SuggestedPrompt {
    fn clone(&self) -> (copy: Self)
        ensures
            copy.deep_view() == self.deep_view(),
    {
        SuggestedPrompt {
            prompt: self.prompt.clone(),
        }
    }
}

/// What was suggested.
#[derive(Debug, PartialEq)]
pub enum PassiveSuggestion {
    Prompt(SuggestedPrompt),
    Other(Opaque),
}

#[verifier::ext_equal]
pub enum PassiveSuggestionView {
    Prompt(SuggestedPromptView),
    Other(OpaqueView),
}

impl DeepView for PassiveSuggestion {
    type V = PassiveSuggestionView;

    open spec fn deep_view(&self) -> PassiveSuggestionView {
        match self {
            PassiveSuggestion::Prompt(value) => PassiveSuggestionView::Prompt(value.deep_view()),
            PassiveSuggestion::Other(value) => PassiveSuggestionView::Other(value.deep_view()),
        }
    }
}

impl Clone for PassiveSuggestion {
    fn clone(&self) -> (copy: Self)
        ensures
            copy.deep_view() == self.deep_view(),
    {
        match self {
            PassiveSuggestion::Prompt(value) => PassiveSuggestion::Prompt(value.clone()),
            PassiveSuggestion::Other(value) => PassiveSuggestion::Other(value.clone()),
        }
    }
}

/// A passive suggestion and what led to it.
#[derive(Debug, PartialEq, Default)]
pub struct PassiveSuggestionResultType {
    pub trigger: Option<PassiveSuggestionTrigger>,
    pub suggestion: Option<PassiveSuggestion>,
}

#[verifier::ext_equal]
pub struct PassiveSuggestionResultTypeView {
    pub trigger: Option<PassiveSuggestionTriggerView>,
    pub suggestion: Option<PassiveSuggestionView>,
}

impl DeepView for PassiveSuggestionResultType {
    type V = PassiveSuggestionResultTypeView;

    open spec fn deep_view(&self) -> PassiveSuggestionResultTypeView {
        PassiveSuggestionResultTypeView {
            trigger: self.trigger.deep_view(),
            suggestion: self.suggestion.deep_view(),
        }
    }
}

impl Clone for PassiveSuggestionResultType {
    fn clone(&self) -> (copy: Self)
        ensures
            copy.deep_view() == self.deep_view(),
    {
        PassiveSuggestionResultType {
            trigger: self.trigger.clone(),
            suggestion: self.suggestion.clone(),
        }
    }
}

/// A command that asked for a passive suggestion, in the message log.
#[derive(Debug, PartialEq, Default)]
pub struct LoggedShellCommand {
    pub executed_shell_command: Option<ExecutedShellCommand>,
    pub relevant_files: Vec<AnyFileContent>,
}

#[verifier::ext_equal]
pub struct LoggedShellCommandView {
    pub executed_shell_command: Option<ExecutedShellCommandView>,
    pub relevant_files: Seq<AnyFileContentView>,
}

impl DeepView for LoggedShellCommand {
    type V = LoggedShellCommandView;

    open spec fn deep_view(&self) -> LoggedShellCommandView {
        LoggedShellCommandView {
            executed_shell_command: self.executed_shell_command.deep_view(),
            relevant_files: self.relevant_files.deep_view(),
        }
    }
}

impl Clone for LoggedShellCommand {
    fn clone(&self) -> (copy: Self)
        ensures
            copy.deep_view() == self.deep_view(),
    {
        let copy = LoggedShellCommand {
            executed_shell_command: self.executed_shell_command.clone(),
            relevant_files: self.relevant_files.clone(),
        };
        assert(copy.relevant_files.deep_view() =~= self.relevant_files.deep_view());
        copy
    }
}

/// What asked for a passive suggestion, in the message log.
#[derive(Debug, PartialEq)]
pub enum LoggedTrigger {
    ShellCommandCompleted(LoggedShellCommand),
    AgentResponseCompleted,
    FilesChanged,
    CommandRun,
}

#[verifier::ext_equal]
pub enum LoggedTriggerView {
    ShellCommandCompleted(LoggedShellCommandView),
    AgentResponseCompleted,
    FilesChanged,
    CommandRun,
}

impl DeepView for LoggedTrigger {
    type V = LoggedTriggerView;

    open spec fn deep_view(&self) -> LoggedTriggerView {
        match self {
            LoggedTrigger::ShellCommandCompleted(value) => LoggedTriggerView::ShellCommandCompleted(
                value.deep_view(),
            ),
            LoggedTrigger::AgentResponseCompleted => LoggedTriggerView::AgentResponseCompleted,
            LoggedTrigger::FilesChanged => LoggedTriggerView::FilesChanged,
            LoggedTrigger::CommandRun => LoggedTriggerView::CommandRun,
        }
    }
}

impl Clone for LoggedTrigger {
    fn clone(&self) -> (copy: Self)
        ensures
            copy.deep_view() == self.deep_view(),
    {
        match self {
            LoggedTrigger::ShellCommandCompleted(value) => LoggedTrigger::ShellCommandCompleted(
                value.clone(),
            ),
            LoggedTrigger::AgentResponseCompleted => LoggedTrigger::AgentResponseCompleted,
            LoggedTrigger::FilesChanged => LoggedTrigger::FilesChanged,
            LoggedTrigger::CommandRun => LoggedTrigger::CommandRun,
        }
    }
}

/// A request for a passive suggestion, in the message log.
#[derive(Debug, PartialEq, Default)]
pub struct LoggedPassiveSuggestions {
    pub attachments: Vec<Opaque>,
    pub trigger: Option<LoggedTrigger>,
}

#[verifier::ext_equal]
pub struct LoggedPassiveSuggestionsView {
    pub attachments: Seq<OpaqueView>,
    pub trigger: Option<LoggedTriggerView>,
}

impl DeepView for LoggedPassiveSuggestions {
    type V = LoggedPassiveSuggestionsView;

    open spec fn deep_view(&self) -> LoggedPassiveSuggestionsView {
        LoggedPassiveSuggestionsView {
            attachments: self.attachments.deep_view(),
            trigger: self.trigger.deep_view(),
        }
    }
}

impl Clone for LoggedPassiveSuggestions {
    fn clone(&self) -> (copy: Self)
        ensures
            copy.deep_view() == self.deep_view(),
    {
        let copy = LoggedPassiveSuggestions {
            attachments: self.attachments.clone(),
            trigger: self.trigger.clone(),
        };
        assert(copy.attachments.deep_view() =~= self.attachments.deep_view());
        copy
    }
}

/// What the system asked.
#[derive(Debug, PartialEq)]
pub enum SystemQueryKind {
    GeneratePassiveSuggestions(LoggedPassiveSuggestions),
    Other(Opaque),
}

#[verifier::ext_equal]
pub enum SystemQueryKindView {
    GeneratePassiveSuggestions(LoggedPassiveSuggestionsView),
    Other(OpaqueView),
}

impl DeepView for SystemQueryKind {
    type V = SystemQueryKindView;

    open spec fn deep_view(&self) -> SystemQueryKindView {
        match self {
            SystemQueryKind::GeneratePassiveSuggestions(value) => SystemQueryKindView::GeneratePassiveSuggestions(
                value.deep_view(),
            ),
            SystemQueryKind::Other(value) => SystemQueryKindView::Other(value.deep_view()),
        }
    }
}

impl Clone for SystemQueryKind {
    fn clone(&self) -> (copy: Self)
        ensures
            copy.deep_view() == self.deep_view(),
    {
        match self {
            SystemQueryKind::GeneratePassiveSuggestions(value) => SystemQueryKind::GeneratePassiveSuggestions(
                value.clone(),
            ),
            SystemQueryKind::Other(value) => SystemQueryKind::Other(value.clone()),
        }
    }
}

/// A question of the system, in the message log.
#[derive(Debug, PartialEq, Default)]
pub struct SystemQuery {
    pub context: Option<InputContext>,
    pub kind: Option<SystemQueryKind>,
}

#[verifier::ext_equal]
pub struct SystemQueryView {
    pub context: Option<InputContextView>,
    pub kind: Option<SystemQueryKindView>,
}

impl DeepView for SystemQuery {
    type V = SystemQueryView;

    open spec fn deep_view(&self) -> SystemQueryView {
        SystemQueryView {
            context: self.context.deep_view(),
            kind: self.kind.deep_view(),
        }
    }
}

impl Clone for SystemQuery {
    fn clone(&self) -> (copy: Self)
        ensures
            copy.deep_view() == self.deep_view(),
    {
        SystemQuery {
            context: self.context.clone(),
            kind: self.kind.clone(),
        }
    }
}

/// The content of a message.
#[derive(Debug, PartialEq)]
pub enum MessageContent {
    UserQuery(UserQuery),
    AgentOutput(AgentOutput),
    ToolCall(ToolCall),
    ToolCallResult(ToolCallResult),
    SystemQuery(SystemQuery),
    ModelUsed(ModelUsed),
    PassiveSuggestionResult(PassiveSuggestionResultType),
    /// Reasoning, todos, server events and whatever else a log can hold.
    Other(Opaque),
}

#[verifier::ext_equal]
pub enum MessageContentView {
    UserQuery(UserQueryView),
    AgentOutput(AgentOutputView),
    ToolCall(ToolCallView),
    ToolCallResult(ToolCallResultView),
    SystemQuery(SystemQueryView),
    ModelUsed(ModelUsedView),
    PassiveSuggestionResult(PassiveSuggestionResultTypeView),
    Other(OpaqueView),
}

impl DeepView for MessageContent {
    type V = MessageContentView;

    open spec fn deep_view(&self) -> MessageContentView {
        match self {
            MessageContent::UserQuery(value) => MessageContentView::UserQuery(value.deep_view()),
            MessageContent::AgentOutput(value) => MessageContentView::AgentOutput(
                value.deep_view(),
            ),
            MessageContent::ToolCall(value) => MessageContentView::ToolCall(value.deep_view()),
            MessageContent::ToolCallResult(value) => MessageContentView::ToolCallResult(
                value.deep_view(),
            ),
            MessageContent::SystemQuery(value) => MessageContentView::SystemQuery(
                value.deep_view(),
            ),
            MessageContent::ModelUsed(value) => MessageContentView::ModelUsed(value.deep_view()),
            MessageContent::PassiveSuggestionResult(value) => MessageContentView::PassiveSuggestionResult(
                value.deep_view(),
            ),
            MessageContent::Other(value) => MessageContentView::Other(value.deep_view()),
        }
    }
}

impl Clone for MessageContent {
    fn clone(&self) -> (copy: Self)
        ensures
            copy.deep_view() == self.deep_view(),
    {
        match self {
            MessageContent::UserQuery(value) => MessageContent::UserQuery(value.clone()),
            MessageContent::AgentOutput(value) => MessageContent::AgentOutput(value.clone()),
            MessageContent::ToolCall(value) => MessageContent::ToolCall(value.clone()),
            MessageContent::ToolCallResult(value) => MessageContent::ToolCallResult(value.clone()),
            MessageContent::SystemQuery(value) => MessageContent::SystemQuery(value.clone()),
            MessageContent::ModelUsed(value) => MessageContent::ModelUsed(value.clone()),
            MessageContent::PassiveSuggestionResult(value) => MessageContent::PassiveSuggestionResult(
                value.clone(),
            ),
            MessageContent::Other(value) => MessageContent::Other(value.clone()),
        }
    }
}

/// A message of a task.
#[derive(Debug, PartialEq, Default)]
pub struct Message {
    pub id: String,
    pub task_id: String,
    pub request_id: String,
    pub timestamp: Option<Timestamp>,
    pub server_message_data: String,
    pub citations: Vec<Opaque>,
    pub fetched_memories: Vec<Opaque>,
    pub message: Option<MessageContent>,
}

#[verifier::ext_equal]
pub struct MessageView {
    pub id: Seq<char>,
    pub task_id: Seq<char>,
    pub request_id: Seq<char>,
    pub timestamp: Option<TimestampView>,
    pub server_message_data: Seq<char>,
    pub citations: Seq<OpaqueView>,
    pub fetched_memories: Seq<OpaqueView>,
    pub message: Option<MessageContentView>,
}

impl DeepView for Message {
    type V = MessageView;

    open spec fn deep_view(&self) -> MessageView {
        MessageView {
            id: self.id@,
            task_id: self.task_id@,
            request_id: self.request_id@,
            timestamp: self.timestamp.deep_view(),
            server_message_data: self.server_message_data@,
            citations: self.citations.deep_view(),
            fetched_memories: self.fetched_memories.deep_view(),
            message: self.message.deep_view(),
        }
    }
}

impl Clone for Message {
    fn clone(&self) -> (copy: Self)
        ensures
            copy.deep_view() == self.deep_view(),
    {
        let copy = Message {
            id: self.id.clone(),
            task_id: self.task_id.clone(),
            request_id: self.request_id.clone(),
            timestamp: self.timestamp.clone(),
            server_message_data: self.server_message_data.clone(),
            citations: self.citations.clone(),
            fetched_memories: self.fetched_memories.clone(),
            message: self.message.clone(),
        };
        assert(copy.citations.deep_view() =~= self.citations.deep_view());
        assert(copy.fetched_memories.deep_view() =~= self.fetched_memories.deep_view());
        copy
    }
}

/// A task and its log.
#[derive(Debug, PartialEq, Default)]
pub struct Task {
    pub id: String,
    pub description: String,
    pub dependencies: Option<Opaque>,
    pub messages: Vec<Message>,
    pub summary: String,
    pub server_data: String,
}

#[verifier::ext_equal]
pub struct TaskView {
    pub id: Seq<char>,
    pub description: Seq<char>,
    pub dependencies: Option<OpaqueView>,
    pub messages: Seq<MessageView>,
    pub summary: Seq<char>,
    pub server_data: Seq<char>,
}

impl DeepView for Task {
    type V = TaskView;

    open spec fn deep_view(&self) -> TaskView {
        TaskView {
            id: self.id@,
            description: self.description@,
            dependencies: self.dependencies.deep_view(),
            messages: self.messages.deep_view(),
            summary: self.summary@,
            server_data: self.server_data@,
        }
    }
}

impl Clone for Task {
    fn clone(&self) -> (copy: Self)
        ensures
            copy.deep_view() == self.deep_view(),
    {
        let copy = Task {
            id: self.id.clone(),
            description: self.description.clone(),
            dependencies: self.dependencies.clone(),
            messages: self.messages.clone(),
            summary: self.summary.clone(),
            server_data: self.server_data.clone(),
        };
        assert(copy.messages.deep_view() =~= self.messages.deep_view());
        copy
    }
}

} // verus!

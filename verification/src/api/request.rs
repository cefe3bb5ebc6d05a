//! A request to the agent.

use vstd::prelude::*;

use crate::api::context::{
    AnyFileContent, AnyFileContentView, ExecutedShellCommand, ExecutedShellCommandView,
    InputContext, InputContextView, Opaque, OpaqueView,
};
use crate::api::message::{
    PassiveSuggestionResultType, PassiveSuggestionResultTypeView, Task, TaskView,
};
use crate::api::result::{InputToolCallResult, InputToolCallResultView};
use crate::api::value::{Struct, StructView};

verus! {

/// The tasks that a request comes with.
#[derive(Debug, PartialEq, Default)]
pub struct TaskContext {
    pub tasks: Vec<Task>,
}

#[verifier::ext_equal]
pub struct TaskContextView {
    pub tasks: Seq<TaskView>,
}

impl DeepView for TaskContext {
    type V = TaskContextView;

    open spec fn deep_view(&self) -> TaskContextView {
        TaskContextView {
            tasks: self.tasks.deep_view(),
        }
    }
}

impl Clone for TaskContext {
    fn clone(&self) -> (copy: Self)
        ensures
            copy.deep_view() == self.deep_view(),
    {
        let copy = TaskContext {
            tasks: self.tasks.clone(),
        };
        assert(copy.tasks.deep_view() =~= self.tasks.deep_view());
        copy
    }
}

/// What the user asks.
#[derive(Debug, PartialEq, Default)]
pub struct UserQueryInput {
    pub query: String,
    pub referenced_attachments: Opaque,
    pub mode: Option<Opaque>,
    pub intended_agent: i32,
}

#[verifier::ext_equal]
pub struct UserQueryInputView {
    pub query: Seq<char>,
    pub referenced_attachments: OpaqueView,
    pub mode: Option<OpaqueView>,
    pub intended_agent: i32,
}

impl DeepView for UserQueryInput {
    type V = UserQueryInputView;

    open spec fn deep_view(&self) -> UserQueryInputView {
        UserQueryInputView {
            query: self.query@,
            referenced_attachments: self.referenced_attachments.deep_view(),
            mode: self.mode.deep_view(),
            intended_agent: self.intended_agent,
        }
    }
}

impl Clone for UserQueryInput {
    fn clone(&self) -> (copy: Self)
        ensures
            copy.deep_view() == self.deep_view(),
    {
        UserQueryInput {
            query: self.query.clone(),
            referenced_attachments: self.referenced_attachments.clone(),
            mode: self.mode.clone(),
            intended_agent: self.intended_agent,
        }
    }
}

/// A passive suggestion that the user accepted.
#[derive(Debug, PartialEq, Default)]
pub struct PassiveSuggestionResultInput {
    pub result: Option<PassiveSuggestionResultType>,
}

#[verifier::ext_equal]
pub struct PassiveSuggestionResultInputView {
    pub result: Option<PassiveSuggestionResultTypeView>,
}

impl DeepView for PassiveSuggestionResultInput {
    type V = PassiveSuggestionResultInputView;

    open spec fn deep_view(&self) -> PassiveSuggestionResultInputView {
        PassiveSuggestionResultInputView {
            result: self.result.deep_view(),
        }
    }
}

impl Clone for PassiveSuggestionResultInput {
    fn clone(&self) -> (copy: Self)
        ensures
            copy.deep_view() == self.deep_view(),
    {
        PassiveSuggestionResultInput {
            result: self.result.clone(),
        }
    }
}

/// One input of a turn.
#[derive(Debug, PartialEq)]
pub enum UserInputKind {
    UserQuery(UserQueryInput),
    ToolCallResult(InputToolCallResult),
    PassiveSuggestionResult(PassiveSuggestionResultInput),
    Other(Opaque),
}

#[verifier::ext_equal]
pub enum UserInputKindView {
    UserQuery(UserQueryInputView),
    ToolCallResult(InputToolCallResultView),
    PassiveSuggestionResult(PassiveSuggestionResultInputView),
    Other(OpaqueView),
}

impl DeepView for UserInputKind {
    type V = UserInputKindView;

    open spec fn deep_view(&self) -> UserInputKindView {
        match self {
            UserInputKind::UserQuery(value) => UserInputKindView::UserQuery(value.deep_view()),
            UserInputKind::ToolCallResult(value) => UserInputKindView::ToolCallResult(
                value.deep_view(),
            ),
            UserInputKind::PassiveSuggestionResult(value) => UserInputKindView::PassiveSuggestionResult(
                value.deep_view(),
            ),
            UserInputKind::Other(value) => UserInputKindView::Other(value.deep_view()),
        }
    }
}

impl Clone for UserInputKind {
    fn clone(&self) -> (copy: Self)
        ensures
            copy.deep_view() == self.deep_view(),
    {
        match self {
            UserInputKind::UserQuery(value) => UserInputKind::UserQuery(value.clone()),
            UserInputKind::ToolCallResult(value) => UserInputKind::ToolCallResult(value.clone()),
            UserInputKind::PassiveSuggestionResult(value) => UserInputKind::PassiveSuggestionResult(
                value.clone(),
            ),
            UserInputKind::Other(value) => UserInputKind::Other(value.clone()),
        }
    }
}

/// One input of a turn, where it is known.
#[derive(Debug, PartialEq, Default)]
pub struct UserInput {
    pub input: Option<UserInputKind>,
}

#[verifier::ext_equal]
pub struct UserInputView {
    pub input: Option<UserInputKindView>,
}

impl DeepView for UserInput {
    type V = UserInputView;

    open spec fn deep_view(&self) -> UserInputView {
        UserInputView {
            input: self.input.deep_view(),
        }
    }
}

impl Clone for UserInput {
    fn clone(&self) -> (copy: Self)
        ensures
            copy.deep_view() == self.deep_view(),
    {
        UserInput {
            input: self.input.clone(),
        }
    }
}

/// The inputs of a turn.
#[derive(Debug, PartialEq, Default)]
pub struct UserInputs {
    pub inputs: Vec<UserInput>,
}

#[verifier::ext_equal]
pub struct UserInputsView {
    pub inputs: Seq<UserInputView>,
}

impl DeepView for UserInputs {
    type V = UserInputsView;

    open spec fn deep_view(&self) -> UserInputsView {
        UserInputsView {
            inputs: self.inputs.deep_view(),
        }
    }
}

impl Clone for UserInputs {
    fn clone(&self) -> (copy: Self)
        ensures
            copy.deep_view() == self.deep_view(),
    {
        let copy = UserInputs {
            inputs: self.inputs.clone(),
        };
        assert(copy.inputs.deep_view() =~= self.inputs.deep_view());
        copy
    }
}

/// A command that asks for a passive suggestion.
#[derive(Debug, PartialEq, Default)]
pub struct CompletedShellCommand {
    pub executed_shell_command: Option<ExecutedShellCommand>,
    pub relevant_files: Vec<AnyFileContent>,
}

#[verifier::ext_equal]
pub struct CompletedShellCommandView {
    pub executed_shell_command: Option<ExecutedShellCommandView>,
    pub relevant_files: Seq<AnyFileContentView>,
}

impl DeepView for CompletedShellCommand {
    type V = CompletedShellCommandView;

    open spec fn deep_view(&self) -> CompletedShellCommandView {
        CompletedShellCommandView {
            executed_shell_command: self.executed_shell_command.deep_view(),
            relevant_files: self.relevant_files.deep_view(),
        }
    }
}

impl Clone for CompletedShellCommand {
    fn clone(&self) -> (copy: Self)
        ensures
            copy.deep_view() == self.deep_view(),
    {
        let copy = CompletedShellCommand {
            executed_shell_command: self.executed_shell_command.clone(),
            relevant_files: self.relevant_files.clone(),
        };
        assert(copy.relevant_files.deep_view() =~= self.relevant_files.deep_view());
        copy
    }
}

/// What asks for a passive suggestion.
#[derive(Debug, PartialEq)]
pub enum Trigger {
    ShellCommandCompleted(CompletedShellCommand),
    AgentResponseCompleted(Opaque),
    /// No longer sent by anyone.
    FilesChanged,
    /// No longer sent by anyone.
    CommandRun,
}

#[verifier::ext_equal]
pub enum TriggerView {
    ShellCommandCompleted(CompletedShellCommandView),
    AgentResponseCompleted(OpaqueView),
    FilesChanged,
    CommandRun,
}

impl DeepView for Trigger {
    type V = TriggerView;

    open spec fn deep_view(&self) -> TriggerView {
        match self {
            Trigger::ShellCommandCompleted(value) => TriggerView::ShellCommandCompleted(
                value.deep_view(),
            ),
            Trigger::AgentResponseCompleted(value) => TriggerView::AgentResponseCompleted(
                value.deep_view(),
            ),
            Trigger::FilesChanged => TriggerView::FilesChanged,
            Trigger::CommandRun => TriggerView::CommandRun,
        }
    }
}

impl Clone for Trigger {
    fn clone(&self) -> (copy: Self)
        ensures
            copy.deep_view() == self.deep_view(),
    {
        match self {
            Trigger::ShellCommandCompleted(value) => Trigger::ShellCommandCompleted(value.clone()),
            Trigger::AgentResponseCompleted(value) => Trigger::AgentResponseCompleted(
                value.clone(),
            ),
            Trigger::FilesChanged => Trigger::FilesChanged,
            Trigger::CommandRun => Trigger::CommandRun,
        }
    }
}

/// A request for a passive suggestion.
#[derive(Debug, PartialEq, Default)]
pub struct GeneratePassiveSuggestions {
    pub attachments: Vec<Opaque>,
    pub trigger: Option<Trigger>,
}

#[verifier::ext_equal]
pub struct GeneratePassiveSuggestionsView {
    pub attachments: Seq<OpaqueView>,
    pub trigger: Option<TriggerView>,
}

impl DeepView for GeneratePassiveSuggestions {
    type V = GeneratePassiveSuggestionsView;

    open spec fn deep_view(&self) -> GeneratePassiveSuggestionsView {
        GeneratePassiveSuggestionsView {
            attachments: self.attachments.deep_view(),
            trigger: self.trigger.deep_view(),
        }
    }
}

impl Clone for GeneratePassiveSuggestions {
    fn clone(&self) -> (copy: Self)
        ensures
            copy.deep_view() == self.deep_view(),
    {
        let copy = GeneratePassiveSuggestions {
            attachments: self.attachments.clone(),
            trigger: self.trigger.clone(),
        };
        assert(copy.attachments.deep_view() =~= self.attachments.deep_view());
        copy
    }
}

/// The kinds of input that a request may have.
#[derive(Debug, PartialEq)]
pub enum InputKind {
    UserInputs(UserInputs),
    GeneratePassiveSuggestions(GeneratePassiveSuggestions),
    CodeReview(Opaque),
    Other(Opaque),
}

#[verifier::ext_equal]
pub enum InputKindView {
    UserInputs(UserInputsView),
    GeneratePassiveSuggestions(GeneratePassiveSuggestionsView),
    CodeReview(OpaqueView),
    Other(OpaqueView),
}

impl DeepView for InputKind {
    type V = InputKindView;

    open spec fn deep_view(&self) -> InputKindView {
        match self {
            InputKind::UserInputs(value) => InputKindView::UserInputs(value.deep_view()),
            InputKind::GeneratePassiveSuggestions(value) => InputKindView::GeneratePassiveSuggestions(
                value.deep_view(),
            ),
            InputKind::CodeReview(value) => InputKindView::CodeReview(value.deep_view()),
            InputKind::Other(value) => InputKindView::Other(value.deep_view()),
        }
    }
}

impl Clone for InputKind {
    fn clone(&self) -> (copy: Self)
        ensures
            copy.deep_view() == self.deep_view(),
    {
        match self {
            InputKind::UserInputs(value) => InputKind::UserInputs(value.clone()),
            InputKind::GeneratePassiveSuggestions(value) => InputKind::GeneratePassiveSuggestions(
                value.clone(),
            ),
            InputKind::CodeReview(value) => InputKind::CodeReview(value.clone()),
            InputKind::Other(value) => InputKind::Other(value.clone()),
        }
    }
}

/// The input of a request, and the environment that it was made in.
#[derive(Debug, PartialEq, Default)]
pub struct Input {
    pub context: Option<InputContext>,
    pub kind: Option<InputKind>,
}

#[verifier::ext_equal]
pub struct InputView {
    pub context: Option<InputContextView>,
    pub kind: Option<InputKindView>,
}

impl DeepView for Input {
    type V = InputView;

    open spec fn deep_view(&self) -> InputView {
        InputView {
            context: self.context.deep_view(),
            kind: self.kind.deep_view(),
        }
    }
}

impl Clone for Input {
    fn clone(&self) -> (copy: Self)
        ensures
            copy.deep_view() == self.deep_view(),
    {
        Input {
            context: self.context.clone(),
            kind: self.kind.clone(),
        }
    }
}

/// The model that a request selects.
#[derive(Debug, PartialEq, Default)]
pub struct ModelConfig {
    pub base: String,
    pub rest: Opaque,
}

#[verifier::ext_equal]
pub struct ModelConfigView {
    pub base: Seq<char>,
    pub rest: OpaqueView,
}

impl DeepView for ModelConfig {
    type V = ModelConfigView;

    open spec fn deep_view(&self) -> ModelConfigView {
        ModelConfigView {
            base: self.base@,
            rest: self.rest.deep_view(),
        }
    }
}

impl Clone for ModelConfig {
    fn clone(&self) -> (copy: Self)
        ensures
            copy.deep_view() == self.deep_view(),
    {
        ModelConfig {
            base: self.base.clone(),
            rest: self.rest.clone(),
        }
    }
}

/// A model of a custom endpoint.
#[derive(Debug, PartialEq, Default)]
pub struct CustomModel {
    pub slug: String,
    pub config_key: String,
}

#[verifier::ext_equal]
pub struct CustomModelView {
    pub slug: Seq<char>,
    pub config_key: Seq<char>,
}

impl DeepView for CustomModel {
    type V = CustomModelView;

    open spec fn deep_view(&self) -> CustomModelView {
        CustomModelView {
            slug: self.slug@,
            config_key: self.config_key@,
        }
    }
}

impl Clone for CustomModel {
    fn clone(&self) -> (copy: Self)
        ensures
            copy.deep_view() == self.deep_view(),
    {
        CustomModel {
            slug: self.slug.clone(),
            config_key: self.config_key.clone(),
        }
    }
}

/// A custom endpoint and its models.
#[derive(Debug, PartialEq, Default)]
pub struct CustomModelProvider {
    pub base_url: String,
    pub api_key: String,
    pub models: Vec<CustomModel>,
}

#[verifier::ext_equal]
pub struct CustomModelProviderView {
    pub base_url: Seq<char>,
    pub api_key: Seq<char>,
    pub models: Seq<CustomModelView>,
}

impl DeepView for CustomModelProvider {
    type V = CustomModelProviderView;

    open spec fn deep_view(&self) -> CustomModelProviderView {
        CustomModelProviderView {
            base_url: self.base_url@,
            api_key: self.api_key@,
            models: self.models.deep_view(),
        }
    }
}

impl Clone for CustomModelProvider {
    fn clone(&self) -> (copy: Self)
        ensures
            copy.deep_view() == self.deep_view(),
    {
        let copy = CustomModelProvider {
            base_url: self.base_url.clone(),
            api_key: self.api_key.clone(),
            models: self.models.clone(),
        };
        assert(copy.models.deep_view() =~= self.models.deep_view());
        copy
    }
}

/// The custom endpoints of the user.
#[derive(Debug, PartialEq, Default)]
pub struct CustomModelProviders {
    pub providers: Vec<CustomModelProvider>,
}

#[verifier::ext_equal]
pub struct CustomModelProvidersView {
    pub providers: Seq<CustomModelProviderView>,
}

impl DeepView for CustomModelProviders {
    type V = CustomModelProvidersView;

    open spec fn deep_view(&self) -> CustomModelProvidersView {
        CustomModelProvidersView {
            providers: self.providers.deep_view(),
        }
    }
}

impl Clone for CustomModelProviders {
    fn clone(&self) -> (copy: Self)
        ensures
            copy.deep_view() == self.deep_view(),
    {
        let copy = CustomModelProviders {
            providers: self.providers.clone(),
        };
        assert(copy.providers.deep_view() =~= self.providers.deep_view());
        copy
    }
}

/// The settings of a request.
#[derive(Debug, PartialEq, Default)]
pub struct Settings {
    pub model_config: Option<ModelConfig>,
    pub custom_model_providers: Option<CustomModelProviders>,
    pub rest: Opaque,
}

#[verifier::ext_equal]
pub struct SettingsView {
    pub model_config: Option<ModelConfigView>,
    pub custom_model_providers: Option<CustomModelProvidersView>,
    pub rest: OpaqueView,
}

impl DeepView for Settings {
    type V = SettingsView;

    open spec fn deep_view(&self) -> SettingsView {
        SettingsView {
            model_config: self.model_config.deep_view(),
            custom_model_providers: self.custom_model_providers.deep_view(),
            rest: self.rest.deep_view(),
        }
    }
}

impl Clone for Settings {
    fn clone(&self) -> (copy: Self)
        ensures
            copy.deep_view() == self.deep_view(),
    {
        Settings {
            model_config: self.model_config.clone(),
            custom_model_providers: self.custom_model_providers.clone(),
            rest: self.rest.clone(),
        }
    }
}

/// What a request belongs to.
#[derive(Debug, PartialEq, Default)]
pub struct Metadata {
    pub conversation_id: String,
    pub rest: Opaque,
}

#[verifier::ext_equal]
pub struct MetadataView {
    pub conversation_id: Seq<char>,
    pub rest: OpaqueView,
}

impl DeepView for Metadata {
    type V = MetadataView;

    open spec fn deep_view(&self) -> MetadataView {
        MetadataView {
            conversation_id: self.conversation_id@,
            rest: self.rest.deep_view(),
        }
    }
}

impl Clone for Metadata {
    fn clone(&self) -> (copy: Self)
        ensures
            copy.deep_view() == self.deep_view(),
    {
        Metadata {
            conversation_id: self.conversation_id.clone(),
            rest: self.rest.clone(),
        }
    }
}

/// A tool of an MCP server.
#[derive(Debug, PartialEq, Default)]
pub struct McpTool {
    pub name: String,
    pub description: String,
    pub input_schema: Option<Struct>,
}

#[verifier::ext_equal]
pub struct McpToolView {
    pub name: Seq<char>,
    pub description: Seq<char>,
    pub input_schema: Option<StructView>,
}

impl DeepView for McpTool {
    type V = McpToolView;

    open spec fn deep_view(&self) -> McpToolView {
        McpToolView {
            name: self.name@,
            description: self.description@,
            input_schema: self.input_schema.deep_view(),
        }
    }
}

impl Clone for McpTool {
    fn clone(&self) -> (copy: Self)
        ensures
            copy.deep_view() == self.deep_view(),
    {
        McpTool {
            name: self.name.clone(),
            description: self.description.clone(),
            input_schema: self.input_schema.clone(),
        }
    }
}

/// An MCP server and its tools.
#[derive(Debug, PartialEq, Default)]
pub struct McpServer {
    pub name: String,
    pub description: String,
    pub id: String,
    pub tools: Vec<McpTool>,
    pub rest: Opaque,
}

#[verifier::ext_equal]
pub struct McpServerView {
    pub name: Seq<char>,
    pub description: Seq<char>,
    pub id: Seq<char>,
    pub tools: Seq<McpToolView>,
    pub rest: OpaqueView,
}

impl DeepView for McpServer {
    type V = McpServerView;

    open spec fn deep_view(&self) -> McpServerView {
        McpServerView {
            name: self.name@,
            description: self.description@,
            id: self.id@,
            tools: self.tools.deep_view(),
            rest: self.rest.deep_view(),
        }
    }
}

impl Clone for McpServer {
    fn clone(&self) -> (copy: Self)
        ensures
            copy.deep_view() == self.deep_view(),
    {
        let copy = McpServer {
            name: self.name.clone(),
            description: self.description.clone(),
            id: self.id.clone(),
            tools: self.tools.clone(),
            rest: self.rest.clone(),
        };
        assert(copy.tools.deep_view() =~= self.tools.deep_view());
        copy
    }
}

/// The MCP servers that a request may use.
#[derive(Debug, PartialEq, Default)]
pub struct McpContext {
    pub servers: Vec<McpServer>,
    pub rest: Opaque,
}

#[verifier::ext_equal]
pub struct McpContextView {
    pub servers: Seq<McpServerView>,
    pub rest: OpaqueView,
}

impl DeepView for McpContext {
    type V = McpContextView;

    open spec fn deep_view(&self) -> McpContextView {
        McpContextView {
            servers: self.servers.deep_view(),
            rest: self.rest.deep_view(),
        }
    }
}

impl Clone for McpContext {
    fn clone(&self) -> (copy: Self)
        ensures
            copy.deep_view() == self.deep_view(),
    {
        let copy = McpContext {
            servers: self.servers.clone(),
            rest: self.rest.clone(),
        };
        assert(copy.servers.deep_view() =~= self.servers.deep_view());
        copy
    }
}

/// A request to the agent.
#[derive(Debug, PartialEq, Default)]
pub struct Request {
    pub task_context: Option<TaskContext>,
    pub input: Option<Input>,
    pub settings: Option<Settings>,
    pub metadata: Option<Metadata>,
    pub mcp_context: Option<McpContext>,
    pub rest: Opaque,
}

#[verifier::ext_equal]
pub struct RequestView {
    pub task_context: Option<TaskContextView>,
    pub input: Option<InputView>,
    pub settings: Option<SettingsView>,
    pub metadata: Option<MetadataView>,
    pub mcp_context: Option<McpContextView>,
    pub rest: OpaqueView,
}

impl DeepView for Request {
    type V = RequestView;

    open spec fn deep_view(&self) -> RequestView {
        RequestView {
            task_context: self.task_context.deep_view(),
            input: self.input.deep_view(),
            settings: self.settings.deep_view(),
            metadata: self.metadata.deep_view(),
            mcp_context: self.mcp_context.deep_view(),
            rest: self.rest.deep_view(),
        }
    }
}

impl Clone for Request {
    fn clone(&self) -> (copy: Self)
        ensures
            copy.deep_view() == self.deep_view(),
    {
        Request {
            task_context: self.task_context.clone(),
            input: self.input.clone(),
            settings: self.settings.clone(),
            metadata: self.metadata.clone(),
            mcp_context: self.mcp_context.clone(),
            rest: self.rest.clone(),
        }
    }
}

} // verus!

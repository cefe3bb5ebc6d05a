//! What one request asks of the model: the transcript rebuilt from the task tree
//! and the request's input, the tools of the turn, and the turn's identity.

use vstd::prelude::*;

use crate::api::context;
use crate::api::context::{
    AnyFileContentKind, AnyFileContentKindView, AnyFileContentView, FileContentView, GitRepository,
    GitRepositoryView, InputContext, InputContextView, Opaque, OperatingSystem, ProjectRules,
    ProjectRulesView, Timestamp,
};
use crate::api::message::{
    LoggedPassiveSuggestions, LoggedPassiveSuggestionsView, LoggedShellCommand,
    LoggedShellCommandView, LoggedTrigger, LoggedTriggerView, Message, MessageContent,
    MessageContentView, MessageView, PassiveSuggestion, PassiveSuggestionResultType,
    PassiveSuggestionResultTypeView, PassiveSuggestionTrigger, PassiveSuggestionTriggerView,
    PassiveSuggestionView, SystemQuery, SystemQueryKind, SystemQueryKindView, SystemQueryView,
    Task, TaskView, UserQuery, UserQueryView,
};
use crate::api::request::{
    CompletedShellCommand, CompletedShellCommandView, GeneratePassiveSuggestions,
    GeneratePassiveSuggestionsView, InputKind, InputKindView, Request, RequestView, Trigger,
    TriggerView, UserInput, UserInputKind, UserInputKindView, UserInputView,
};
use crate::api::result::{
    InputToolCallResult, InputToolCallResultView, InputToolResult, InputToolResultView,
    ToolCallResult, ToolCallResultView, ToolResult, ToolResultView,
};
use crate::ids;
use crate::json;
use crate::json::JsonView;
use crate::model::{
    AdapterError, AdapterErrorView, ChatMessage, ChatMessageView, ToolCallRequest,
    ToolCallRequestView,
};
use crate::prompt;
use crate::prompt::{EnvironmentInfo, EnvironmentInfoView};
use crate::registry;
use crate::registry::{ToolRegistry, ToolRegistryView};
use crate::render;
use crate::route;
use crate::route::{LocalRoute, LocalRouteView};
use crate::text;

verus! {

/// Which conversation and task a turn belongs to, and whether the task tree already exists.
#[derive(Debug, PartialEq, Default)]
pub struct TurnIdentity {
    pub conversation_id: String,
    pub root_task_id: String,
    pub is_first_turn: bool,
}

#[verifier::ext_equal]
pub struct TurnIdentityView {
    pub conversation_id: Seq<char>,
    pub root_task_id: Seq<char>,
    pub is_first_turn: bool,
}

impl DeepView for TurnIdentity {
    type V = TurnIdentityView;

    open spec fn deep_view(&self) -> TurnIdentityView {
        TurnIdentityView {
            conversation_id: self.conversation_id@,
            root_task_id: self.root_task_id@,
            is_first_turn: self.is_first_turn,
        }
    }
}

impl Clone for TurnIdentity {
    fn clone(&self) -> (copy: Self)
        ensures
            copy.deep_view() == self.deep_view(),
    {
        TurnIdentity {
            conversation_id: self.conversation_id.clone(),
            root_task_id: self.root_task_id.clone(),
            is_first_turn: self.is_first_turn,
        }
    }
}

/// Everything that the loop needs to know of one request.
#[derive(Debug, PartialEq, Default)]
pub struct TurnPlan {
    pub transcript: Vec<ChatMessage>,
    pub tools: ToolRegistry,
    pub conversation_id: String,
    pub request_id: String,
    pub root_task_id: String,
    pub is_first_turn: bool,
    /// Input messages to echo into the task tree, so that the next turn's transcript has them.
    pub input_echo_messages: Vec<Message>,
    pub config_key: String,
}

#[verifier::ext_equal]
pub struct TurnPlanView {
    pub transcript: Seq<ChatMessageView>,
    pub tools: ToolRegistryView,
    pub conversation_id: Seq<char>,
    pub request_id: Seq<char>,
    pub root_task_id: Seq<char>,
    pub is_first_turn: bool,
    pub input_echo_messages: Seq<MessageView>,
    pub config_key: Seq<char>,
}

impl DeepView for TurnPlan {
    type V = TurnPlanView;

    open spec fn deep_view(&self) -> TurnPlanView {
        TurnPlanView {
            transcript: self.transcript.deep_view(),
            tools: self.tools.deep_view(),
            conversation_id: self.conversation_id@,
            request_id: self.request_id@,
            root_task_id: self.root_task_id@,
            is_first_turn: self.is_first_turn,
            input_echo_messages: self.input_echo_messages.deep_view(),
            config_key: self.config_key@,
        }
    }
}

impl Clone for TurnPlan {
    fn clone(&self) -> (copy: Self)
        ensures
            copy.deep_view() == self.deep_view(),
    {
        let copy = TurnPlan {
            transcript: self.transcript.clone(),
            tools: self.tools.clone(),
            conversation_id: self.conversation_id.clone(),
            request_id: self.request_id.clone(),
            root_task_id: self.root_task_id.clone(),
            is_first_turn: self.is_first_turn,
            input_echo_messages: self.input_echo_messages.clone(),
            config_key: self.config_key.clone(),
        };
        assert(copy.transcript.deep_view() =~= self.transcript.deep_view());
        assert(copy.input_echo_messages.deep_view() =~= self.input_echo_messages.deep_view());
        copy
    }
}

/// The notation of a point in time by the `Display` of `prost_types::Timestamp`.
pub uninterp spec fn timestamp_text(seconds: i64, nanos: i32) -> Seq<char>;

/// Prints a point in time with the `Display` of `prost_types::Timestamp`, which gives the same
/// text for the same time.
#[verifier::external_body]
fn print_timestamp(time: &Timestamp) -> (shown: String)
    ensures
        shown@ == timestamp_text(time.seconds, time.nanos),
{
    prost_types::Timestamp { seconds: time.seconds, nanos: time.nanos }.to_string()
}

/// A text, where it is not empty.
pub open spec fn non_empty(value: Seq<char>) -> Option<Seq<char>> {
    if value.len() == 0 {
        None
    } else {
        Some(value)
    }
}

fn kept(value: String) -> (result: Option<String>)
    ensures
        result.deep_view() == non_empty(value@),
{
    if text::is_empty_text(value.as_str()) {
        None
    } else {
        Some(value)
    }
}

/// The name of a git repository, with its owner where that is known.
pub open spec fn repository_name(repository: GitRepositoryView) -> Seq<char> {
    if repository.owner.len() == 0 {
        repository.name
    } else {
        repository.owner + "/"@ + repository.name
    }
}

/// The contents of the first `count` rule files that are not empty.
pub open spec fn file_contents(files: Seq<FileContentView>, count: nat) -> Seq<Seq<char>>
    decreases count,
{
    if count == 0 {
        Seq::empty()
    } else {
        let before = file_contents(files, (count - 1) as nat);
        if files[count - 1].content.len() == 0 {
            before
        } else {
            before.push(files[count - 1].content)
        }
    }
}

/// The contents of the rule files of the first `count` rule sets.
pub open spec fn rule_contents(rules: Seq<ProjectRulesView>, count: nat) -> Seq<Seq<char>>
    decreases count,
{
    if count == 0 {
        Seq::empty()
    } else {
        rule_contents(rules, (count - 1) as nat) + file_contents(
            rules[count - 1].active_rule_files,
            rules[count - 1].active_rule_files.len(),
        )
    }
}

/// What nothing is known of.
pub open spec fn unknown_environment() -> EnvironmentInfoView {
    EnvironmentInfoView {
        pwd: None,
        home: None,
        shell: None,
        operating_system: None,
        git_branch: None,
        git_repository: None,
        current_time: None,
        project_rules: Seq::empty(),
    }
}

/// What a context tells of the environment, given the time in its notation.
pub open spec fn environment_at(
    context: InputContextView,
    current_time: Option<Seq<char>>,
) -> EnvironmentInfoView {
    EnvironmentInfoView {
        pwd: match context.directory {
            Some(directory) => non_empty(directory.pwd),
            None => None,
        },
        home: match context.directory {
            Some(directory) => non_empty(directory.home),
            None => None,
        },
        shell: match context.shell {
            Some(shell) => non_empty(shell.name),
            None => None,
        },
        operating_system: match context.operating_system {
            Some(system) => non_empty(text::trim(system.platform + " "@ + system.distribution)),
            None => None,
        },
        git_branch: match context.git {
            Some(git) => non_empty(git.branch),
            None => None,
        },
        git_repository: match context.git {
            Some(git) => match git.repository {
                Some(repository) => Some(repository_name(repository)),
                None => None,
            },
            None => None,
        },
        current_time,
        project_rules: rule_contents(context.project_rules, context.project_rules.len()),
    }
}

/// What the context of a request tells of the environment.
pub open spec fn environment_of(context: Option<InputContextView>) -> EnvironmentInfoView {
    match context {
        None => unknown_environment(),
        Some(context) => environment_at(
            context,
            match context.current_time {
                Some(time) => Some(timestamp_text(time.seconds, time.nanos)),
                None => None,
            },
        ),
    }
}

fn collect_rules(rules: &Vec<ProjectRules>) -> (contents: Vec<String>)
    ensures
        contents.deep_view() == rule_contents(rules.deep_view(), rules@.len()),
{
    let mut contents: Vec<String> = Vec::new();
    assert(contents.deep_view() =~= Seq::empty());
    for i in 0..rules.len()
        invariant
            contents.deep_view() == rule_contents(rules.deep_view(), i as nat),
    {
        assert(rules.deep_view()[i as int] == rules@[i as int].deep_view());
        let files = &rules[i].active_rule_files;
        let ghost before = contents.deep_view();
        assert(before + file_contents(files.deep_view(), 0) =~= before);
        for k in 0..files.len()
            invariant
                contents.deep_view() == before + file_contents(files.deep_view(), k as nat),
        {
            assert(files.deep_view()[k as int] == files@[k as int].deep_view());
            let ghost so_far = contents.deep_view();
            if !text::is_empty_text(files[k].content.as_str()) {
                contents.push(files[k].content.clone());
                assert(contents.deep_view() =~= so_far.push(files@[k as int].content@));
            }
            assert(contents.deep_view() =~= before + file_contents(
                files.deep_view(),
                (k + 1) as nat,
            ));
        }
    }
    contents
}

fn shown_system(system: &OperatingSystem) -> (shown: String)
    ensures
        shown@ == text::trim(system.platform@ + " "@ + system.distribution@),
{
    let mut full = system.platform.clone();
    full.append(" ");
    full.append(system.distribution.as_str());
    text::trimmed(full.as_str())
}

fn shown_repository(repository: &GitRepository) -> (shown: String)
    ensures
        shown@ == repository_name(repository.deep_view()),
{
    if text::is_empty_text(repository.owner.as_str()) {
        repository.name.clone()
    } else {
        let mut shown = repository.owner.clone();
        shown.append("/");
        shown.append(repository.name.as_str());
        shown
    }
}

/// What a context tells of the environment, given the time in its notation.
pub fn environment_with_time(context: &InputContext, current_time: Option<String>) -> (environment:
    EnvironmentInfo)
    ensures
        environment.deep_view() == environment_at(context.deep_view(), current_time.deep_view()),
{
    EnvironmentInfo {
        pwd: match &context.directory {
            Some(directory) => kept(directory.pwd.clone()),
            None => None,
        },
        home: match &context.directory {
            Some(directory) => kept(directory.home.clone()),
            None => None,
        },
        shell: match &context.shell {
            Some(shell) => kept(shell.name.clone()),
            None => None,
        },
        operating_system: match &context.operating_system {
            Some(system) => kept(shown_system(system)),
            None => None,
        },
        git_branch: match &context.git {
            Some(git) => kept(git.branch.clone()),
            None => None,
        },
        git_repository: match &context.git {
            Some(git) => match &git.repository {
                Some(repository) => Some(shown_repository(repository)),
                None => None,
            },
            None => None,
        },
        current_time,
        project_rules: collect_rules(&context.project_rules),
    }
}

/// What the context of a request tells of the environment.
pub fn environment_from_context(context: Option<&InputContext>) -> (environment: EnvironmentInfo)
    ensures
        environment.deep_view() == environment_of(
            match context {
                Some(context) => Some(context.deep_view()),
                None => None,
            },
        ),
{
    match context {
        None => {
            let environment = EnvironmentInfo {
                pwd: None,
                home: None,
                shell: None,
                operating_system: None,
                git_branch: None,
                git_repository: None,
                current_time: None,
                project_rules: Vec::new(),
            };
            assert(environment.project_rules.deep_view() =~= Seq::empty());
            environment
        },
        Some(context) => {
            let current_time = match &context.current_time {
                Some(time) => Some(print_timestamp(time)),
                None => None,
            };
            environment_with_time(context, current_time)
        },
    }
}

/// A fresh message of a task.
pub open spec fn task_message(
    id: Seq<char>,
    task_id: Seq<char>,
    content: MessageContentView,
) -> MessageView {
    MessageView {
        id,
        task_id,
        request_id: Seq::empty(),
        timestamp: None,
        server_message_data: Seq::empty(),
        citations: Seq::empty(),
        fetched_memories: Seq::empty(),
        message: Some(content),
    }
}

/// Whether a message is a fresh one of a task, under an id of its own.
pub open spec fn fresh_message(
    message: MessageView,
    task_id: Seq<char>,
    content: MessageContentView,
) -> bool {
    ids::is_uuid(message.id) && message == task_message(message.id, task_id, content)
}

/// A message of a task under a given id.
pub fn message_with_id(id: String, task_id: &str, content: MessageContent) -> (message: Message)
    ensures
        message.deep_view() == task_message(id@, task_id@, content.deep_view()),
{
    let message = Message {
        id,
        task_id: task_id.to_string(),
        request_id: String::new(),
        timestamp: None,
        server_message_data: String::new(),
        citations: Vec::new(),
        fetched_memories: Vec::new(),
        message: Some(content),
    };
    assert(message.citations.deep_view() =~= Seq::empty());
    assert(message.fetched_memories.deep_view() =~= Seq::empty());
    assert(message.request_id@ =~= Seq::empty());
    assert(message.server_message_data@ =~= Seq::empty());
    message
}

/// A message of a task under a fresh id.
pub fn new_task_message(task_id: &str, content: MessageContent) -> (message: Message)
    ensures
        fresh_message(message.deep_view(), task_id@, content.deep_view()),
{
    message_with_id(ids::new_id(), task_id, content)
}

/// The tasks that a request comes with.
pub open spec fn tasks_of(request: RequestView) -> Seq<TaskView> {
    match request.task_context {
        Some(context) => context.tasks,
        None => Seq::empty(),
    }
}

/// The tasks that a request comes with, where it has a task context.
pub fn request_tasks(request: &Request) -> (tasks: Option<&Vec<Task>>)
    ensures
        match tasks {
            Some(tasks) => tasks.deep_view() == tasks_of(request.deep_view()),
            None => tasks_of(request.deep_view()) == Seq::<TaskView>::empty(),
        },
{
    match &request.task_context {
        Some(context) => Some(&context.tasks),
        None => None,
    }
}

/// The conversation that a request belongs to, where it names one.
pub open spec fn named_conversation(request: RequestView) -> Option<Seq<char>> {
    match request.metadata {
        Some(metadata) => non_empty(metadata.conversation_id),
        None => None,
    }
}

/// The identity of a turn, given the ids to take where the request names none.
pub open spec fn identity_of(
    request: RequestView,
    fresh_task: Seq<char>,
    fresh_conversation: Seq<char>,
) -> TurnIdentityView {
    TurnIdentityView {
        conversation_id: match named_conversation(request) {
            Some(conversation_id) => conversation_id,
            None => fresh_conversation,
        },
        root_task_id: if tasks_of(request).len() == 0 {
            fresh_task
        } else {
            tasks_of(request)[0].id
        },
        is_first_turn: tasks_of(request).len() == 0,
    }
}

/// Whether an identity is one that a turn of the request may have: its ids are those that the
/// request names, or fresh ones where it names none.
pub open spec fn identifies(request: RequestView, identity: TurnIdentityView) -> bool {
    &&& identity == identity_of(request, identity.root_task_id, identity.conversation_id)
    &&& tasks_of(request).len() == 0 ==> ids::is_uuid(identity.root_task_id)
    &&& named_conversation(request) is None ==> ids::is_uuid(identity.conversation_id)
}

/// The identity of a turn, given the ids to take where the request names none.
pub fn identity_with_ids(
    request: &Request,
    fresh_task: String,
    fresh_conversation: String,
) -> (identity: TurnIdentity)
    ensures
        identity.deep_view() == identity_of(
            request.deep_view(),
            fresh_task@,
            fresh_conversation@,
        ),
{
    let conversation_id = match &request.metadata {
        Some(metadata) => if text::is_empty_text(metadata.conversation_id.as_str()) {
            fresh_conversation
        } else {
            metadata.conversation_id.clone()
        },
        None => fresh_conversation,
    };
    match request_tasks(request) {
        Some(tasks) => if tasks.len() > 0 {
            assert(tasks.deep_view()[0] == tasks@[0].deep_view());
            TurnIdentity { conversation_id, root_task_id: tasks[0].id.clone(), is_first_turn: false }
        } else {
            TurnIdentity { conversation_id, root_task_id: fresh_task, is_first_turn: true }
        },
        None => TurnIdentity { conversation_id, root_task_id: fresh_task, is_first_turn: true },
    }
}

/// Which conversation and task a turn belongs to. Ids that the request does not name are minted,
/// as UUIDs, which is what clients read conversation ids as.
pub fn turn_identity(request: &Request) -> (identity: TurnIdentity)
    ensures
        identifies(request.deep_view(), identity.deep_view()),
{
    let fresh_task = ids::new_id();
    let fresh_conversation = ids::new_id();
    identity_with_ids(request, fresh_task, fresh_conversation)
}

/// The logged form of a tool result that comes in with a request, where the local loop issues the
/// tool.
pub open spec fn logged_result(result: Option<InputToolResultView>) -> Option<ToolResultView> {
    match result {
        Some(InputToolResultView::RunShellCommand(result)) => Some(
            ToolResultView::RunShellCommand(result),
        ),
        Some(InputToolResultView::ReadFiles(result)) => Some(ToolResultView::ReadFiles(result)),
        Some(InputToolResultView::ApplyFileDiffs(result)) => Some(
            ToolResultView::ApplyFileDiffs(result),
        ),
        Some(InputToolResultView::Grep(result)) => Some(ToolResultView::Grep(result)),
        Some(InputToolResultView::FileGlob(result)) => Some(ToolResultView::FileGlob(result)),
        Some(InputToolResultView::FileGlobV2(result)) => Some(ToolResultView::FileGlobV2(result)),
        Some(InputToolResultView::ReadMcpResource(result)) => Some(
            ToolResultView::ReadMcpResource(result),
        ),
        Some(InputToolResultView::CallMcpTool(result)) => Some(ToolResultView::CallMcpTool(result)),
        _ => None,
    }
}

/// The logged form of a tool result that comes in with a request.
pub fn convert_input_tool_result(result: &Option<InputToolResult>) -> (logged: Option<ToolResult>)
    ensures
        logged.deep_view() == logged_result(result.deep_view()),
{
    match result {
        Some(InputToolResult::RunShellCommand(result)) => Some(
            ToolResult::RunShellCommand(result.clone()),
        ),
        Some(InputToolResult::ReadFiles(result)) => Some(ToolResult::ReadFiles(result.clone())),
        Some(InputToolResult::ApplyFileDiffs(result)) => Some(
            ToolResult::ApplyFileDiffs(result.clone()),
        ),
        Some(InputToolResult::Grep(result)) => Some(ToolResult::Grep(result.clone())),
        Some(InputToolResult::FileGlob(result)) => Some(ToolResult::FileGlob(result.clone())),
        Some(InputToolResult::FileGlobV2(result)) => Some(ToolResult::FileGlobV2(result.clone())),
        Some(InputToolResult::ReadMcpResource(result)) => Some(
            ToolResult::ReadMcpResource(result.clone()),
        ),
        Some(InputToolResult::CallMcpTool(result)) => Some(ToolResult::CallMcpTool(result.clone())),
        _ => None,
    }
}

/// The message-log form of a result that comes in with a request.
pub open spec fn logged_call_result(input: InputToolCallResultView) -> ToolCallResultView {
    ToolCallResultView {
        tool_call_id: input.tool_call_id,
        context: None,
        result: logged_result(input.result),
    }
}

/// The note on the command or the response that led to an accepted suggestion.
pub open spec fn trigger_note(trigger: PassiveSuggestionTriggerView) -> Seq<char> {
    match trigger {
        PassiveSuggestionTriggerView::ExecutedShellCommand(command) =>
            "Context: this request follows a passive suggestion.\n\
             Triggered by shell command: "@
            + command.command + "\nExit code: "@ + text::decimal(command.exit_code as int)
            + "\nOutput:\n"@ + command.output,
        PassiveSuggestionTriggerView::AgentResponseCompleted(_) =>
            "Context: this request follows a passive suggestion.\n\
             Triggered after the agent completed its previous response."@,
    }
}

/// Renders what led to an accepted passive suggestion into a short note, which is context for
/// this one turn. There is none where there was no trigger.
pub fn render_passive_suggestion_trigger(result: &PassiveSuggestionResultType) -> (note: Option<
    String,
>)
    ensures
        note.deep_view() == (match result.deep_view().trigger {
            Some(trigger) => Some(trigger_note(trigger)),
            None => None,
        }),
{
    match &result.trigger {
        Some(PassiveSuggestionTrigger::ExecutedShellCommand(command)) => {
            let mut note =
                "Context: this request follows a passive suggestion.\n\
             Triggered by shell command: ".to_string();
            note.append(command.command.as_str());
            note.append("\nExit code: ");
            note.append(text::signed_text(command.exit_code).as_str());
            note.append("\nOutput:\n");
            note.append(command.output.as_str());
            Some(note)
        },
        Some(PassiveSuggestionTrigger::AgentResponseCompleted(_)) => Some(
            "Context: this request follows a passive suggestion.\n\
             Triggered after the agent completed its previous response.".to_string(),
        ),
        None => None,
    }
}

/// The message-log form of a trigger.
pub open spec fn logged_trigger(trigger: TriggerView) -> LoggedTriggerView {
    match trigger {
        TriggerView::ShellCommandCompleted(completed) => LoggedTriggerView::ShellCommandCompleted(
            LoggedShellCommandView {
                executed_shell_command: completed.executed_shell_command,
                relevant_files: completed.relevant_files,
            },
        ),
        TriggerView::AgentResponseCompleted(_) => LoggedTriggerView::AgentResponseCompleted,
        TriggerView::FilesChanged => LoggedTriggerView::FilesChanged,
        TriggerView::CommandRun => LoggedTriggerView::CommandRun,
    }
}

/// Turns a request's trigger into its message-log form.
pub fn message_trigger_from_request(trigger: &Trigger) -> (logged: LoggedTrigger)
    ensures
        logged.deep_view() == logged_trigger(trigger.deep_view()),
{
    match trigger {
        Trigger::ShellCommandCompleted(completed) => {
            let files = completed.relevant_files.clone();
            assert(files.deep_view() =~= completed.relevant_files.deep_view());
            LoggedTrigger::ShellCommandCompleted(
                LoggedShellCommand {
                    executed_shell_command: completed.executed_shell_command.clone(),
                    relevant_files: files,
                },
            )
        },
        Trigger::AgentResponseCompleted(_) => LoggedTrigger::AgentResponseCompleted,
        Trigger::FilesChanged => LoggedTrigger::FilesChanged,
        Trigger::CommandRun => LoggedTrigger::CommandRun,
    }
}

/// A transcript in the making, and the ids of the tool calls that it defines.
#[verifier::ext_equal]
pub struct History {
    pub transcript: Seq<ChatMessageView>,
    pub known: Seq<Seq<char>>,
}

/// A transcript with one more message.
pub open spec fn said(history: History, message: ChatMessageView) -> History {
    History { transcript: history.transcript.push(message), known: history.known }
}

/// The messages of a transcript with one more tool call. Calls and text of one reply stay in one
/// message.
pub open spec fn with_call(
    transcript: Seq<ChatMessageView>,
    request: ToolCallRequestView,
) -> Seq<ChatMessageView> {
    if transcript.len() > 0 && transcript.last() is Assistant {
        transcript.drop_last().push(
            ChatMessageView::Assistant {
                text: transcript.last()->text,
                tool_calls: transcript.last()->tool_calls.push(request),
            },
        )
    } else {
        transcript.push(
            ChatMessageView::Assistant { text: Seq::empty(), tool_calls: seq![request] },
        )
    }
}

/// A transcript with one more tool call.
pub open spec fn called(history: History, request: ToolCallRequestView) -> History {
    History {
        transcript: with_call(history.transcript, request),
        known: history.known.push(request.id),
    }
}

/// The transcript after one message of the log. What the local loop does not understand is
/// skipped, and so are the results of calls that the transcript does not define.
pub open spec fn after_message(
    history: History,
    tools: ToolRegistryView,
    message: MessageView,
) -> History {
    match message.message {
        Some(MessageContentView::UserQuery(query)) => said(
            history,
            ChatMessageView::User(query.query),
        ),
        Some(MessageContentView::AgentOutput(output)) => if output.text.len() == 0 {
            history
        } else {
            said(
                history,
                ChatMessageView::Assistant { text: output.text, tool_calls: Seq::empty() },
            )
        },
        Some(MessageContentView::ToolCall(call)) => match registry::replayed_call(tools, call) {
            Some(request) => called(history, request),
            None => history,
        },
        Some(MessageContentView::ToolCallResult(result)) => if history.known.contains(
            result.tool_call_id,
        ) {
            said(
                history,
                ChatMessageView::Tool {
                    tool_call_id: result.tool_call_id,
                    content: render::result_text(result),
                },
            )
        } else {
            history
        },
        _ => history,
    }
}

/// The transcript after the first `count` messages of a log.
pub open spec fn after_messages(
    history: History,
    tools: ToolRegistryView,
    messages: Seq<MessageView>,
    count: nat,
) -> History
    decreases count,
{
    if count == 0 {
        history
    } else {
        after_message(
            after_messages(history, tools, messages, (count - 1) as nat),
            tools,
            messages[count - 1],
        )
    }
}

/// The transcript after the logs of the first `count` tasks.
pub open spec fn after_tasks(
    history: History,
    tools: ToolRegistryView,
    tasks: Seq<TaskView>,
    count: nat,
) -> History
    decreases count,
{
    if count == 0 {
        history
    } else {
        after_messages(
            after_tasks(history, tools, tasks, (count - 1) as nat),
            tools,
            tasks[count - 1].messages,
            tasks[count - 1].messages.len(),
        )
    }
}

/// The transcript that a system prompt opens.
pub open spec fn opened(prompt: Seq<char>) -> History {
    History { transcript: seq![ChatMessageView::System(prompt)], known: Seq::empty() }
}

fn new_call_message(request: ToolCallRequest) -> (message: ChatMessage)
    ensures
        message.deep_view() == (ChatMessageView::Assistant {
            text: Seq::empty(),
            tool_calls: seq![request.deep_view()],
        }),
{
    let ghost view = request.deep_view();
    let tool_calls: Vec<ToolCallRequest> = vec![request];
    assert(tool_calls.deep_view() =~= seq![view]);
    ChatMessage::Assistant { text: String::new(), tool_calls }
}

fn push_message(transcript: &mut Vec<ChatMessage>, message: ChatMessage)
    ensures
        final(transcript).deep_view() == old(transcript).deep_view().push(message.deep_view()),
{
    let ghost before = transcript.deep_view();
    transcript.push(message);
    assert(transcript.deep_view() =~= before.push(message.deep_view()));
}

fn push_call(transcript: &mut Vec<ChatMessage>, request: ToolCallRequest)
    ensures
        final(transcript).deep_view() == with_call(
            old(transcript).deep_view(),
            request.deep_view(),
        ),
{
    let ghost before = transcript.deep_view();
    let ghost view = request.deep_view();
    match transcript.pop() {
        Some(ChatMessage::Assistant { text, mut tool_calls }) => {
            assert(transcript.deep_view() =~= before.drop_last());
            let ghost calls = tool_calls.deep_view();
            tool_calls.push(request);
            assert(tool_calls.deep_view() =~= calls.push(view));
            push_message(transcript, ChatMessage::Assistant { text, tool_calls });
        },
        Some(other) => {
            push_message(transcript, other);
            assert(transcript.deep_view() =~= before);
            push_message(transcript, new_call_message(request));
        },
        None => {
            assert(transcript.deep_view() =~= before);
            push_message(transcript, new_call_message(request));
        },
    }
}

fn push_id(known: &mut Vec<String>, id: String)
    ensures
        final(known).deep_view() == old(known).deep_view().push(id@),
{
    let ghost before = known.deep_view();
    known.push(id);
    assert(known.deep_view() =~= before.push(id@));
}

/// Appends one message of the log to the transcript.
pub fn append_history_message(
    transcript: &mut Vec<ChatMessage>,
    known_call_ids: &mut Vec<String>,
    message: &Message,
    tools: &ToolRegistry,
)
    ensures
        (History {
            transcript: final(transcript).deep_view(),
            known: final(known_call_ids).deep_view(),
        }) == after_message(
            (History {
                transcript: old(transcript).deep_view(),
                known: old(known_call_ids).deep_view(),
            }),
            tools.deep_view(),
            message.deep_view(),
        ),
{
    match &message.message {
        Some(MessageContent::UserQuery(query)) => {
            push_message(transcript, ChatMessage::User(query.query.clone()));
        },
        Some(MessageContent::AgentOutput(output)) => {
            if !text::is_empty_text(output.text.as_str()) {
                let tool_calls: Vec<ToolCallRequest> = Vec::new();
                assert(tool_calls.deep_view() =~= Seq::empty());
                push_message(
                    transcript,
                    ChatMessage::Assistant { text: output.text.clone(), tool_calls },
                );
            }
        },
        Some(MessageContent::ToolCall(call)) => {
            if let Some(request) = tools.to_request_tool_call(call) {
                push_id(known_call_ids, request.id.clone());
                push_call(transcript, request);
            }
        },
        Some(MessageContent::ToolCallResult(result)) => {
            if text::holds_text(known_call_ids, result.tool_call_id.as_str()) {
                push_message(
                    transcript,
                    ChatMessage::Tool {
                        tool_call_id: result.tool_call_id.clone(),
                        content: render::render_tool_result_text(result),
                    },
                );
            }
        },
        _ => {},
    }
}

/// Opens a transcript with a system prompt and replays the logs of a request's tasks.
fn replay_tasks(
    prompt: String,
    tasks: Option<&Vec<Task>>,
    tools: &ToolRegistry,
) -> (replayed: (Vec<ChatMessage>, Vec<String>))
    ensures
        (History { transcript: replayed.0.deep_view(), known: replayed.1.deep_view() })
            == (match tasks {
            Some(tasks) => after_tasks(
                opened(prompt@),
                tools.deep_view(),
                tasks.deep_view(),
                tasks@.len(),
            ),
            None => opened(prompt@),
        }),
{
    let ghost start = opened(prompt@);
    let mut transcript: Vec<ChatMessage> = vec![ChatMessage::System(prompt)];
    let mut known: Vec<String> = Vec::new();
    assert(transcript.deep_view() =~= start.transcript);
    assert(known.deep_view() =~= start.known);
    if let Some(tasks) = tasks {
        for i in 0..tasks.len()
            invariant
                (History { transcript: transcript.deep_view(), known: known.deep_view() })
                    == after_tasks(start, tools.deep_view(), tasks.deep_view(), i as nat),
        {
            let ghost before = after_tasks(start, tools.deep_view(), tasks.deep_view(), i as nat);
            assert(tasks.deep_view()[i as int] == tasks@[i as int].deep_view());
            let messages = &tasks[i].messages;
            for k in 0..messages.len()
                invariant
                    (History { transcript: transcript.deep_view(), known: known.deep_view() })
                        == after_messages(
                        before,
                        tools.deep_view(),
                        messages.deep_view(),
                        k as nat,
                    ),
            {
                assert(messages.deep_view()[k as int] == messages@[k as int].deep_view());
                append_history_message(&mut transcript, &mut known, &messages[k], tools);
            }
        }
    }
    (transcript, known)
}

/// The call that stands in for one that the log lacks, so that its result has a call to answer.
pub open spec fn stand_in_call(id: Seq<char>) -> ToolCallRequestView {
    ToolCallRequestView { id, name: "tool"@, arguments: JsonView::Object(Seq::empty()) }
}

/// The transcript after a tool result that comes in with a request.
pub open spec fn after_result(history: History, input: InputToolCallResultView) -> History {
    let defined = if history.known.contains(input.tool_call_id) {
        history
    } else {
        History {
            transcript: history.transcript.push(
                ChatMessageView::Assistant {
                    text: Seq::empty(),
                    tool_calls: seq![stand_in_call(input.tool_call_id)],
                },
            ),
            known: history.known.push(input.tool_call_id),
        }
    };
    said(
        defined,
        ChatMessageView::Tool {
            tool_call_id: input.tool_call_id,
            content: render::result_text(logged_call_result(input)),
        },
    )
}

/// The transcript after an accepted passive suggestion: a note on what led to it, then the
/// suggested prompt as the user's query.
pub open spec fn after_suggestion(
    history: History,
    result: PassiveSuggestionResultTypeView,
) -> History {
    let noted = match result.trigger {
        Some(trigger) => said(history, ChatMessageView::User(trigger_note(trigger))),
        None => history,
    };
    match result.suggestion {
        Some(PassiveSuggestionView::Prompt(prompt)) => said(
            noted,
            ChatMessageView::User(prompt.prompt),
        ),
        _ => noted,
    }
}

/// The transcript after one input of a turn.
pub open spec fn after_input(history: History, input: UserInputView) -> History {
    match input.input {
        Some(UserInputKindView::UserQuery(query)) => said(
            history,
            ChatMessageView::User(query.query),
        ),
        Some(UserInputKindView::ToolCallResult(result)) => after_result(history, result),
        Some(UserInputKindView::PassiveSuggestionResult(accepted)) => match accepted.result {
            Some(result) => after_suggestion(history, result),
            None => history,
        },
        _ => history,
    }
}

/// The transcript after the first `count` inputs of a turn.
pub open spec fn after_inputs(history: History, inputs: Seq<UserInputView>, count: nat) -> History
    decreases count,
{
    if count == 0 {
        history
    } else {
        after_input(
            after_inputs(history, inputs, (count - 1) as nat),
            inputs[count - 1],
        )
    }
}

/// What the log keeps of one input of a turn, so that the next turn sees it.
pub open spec fn echo_of(input: UserInputView, context: Option<InputContextView>) -> Option<
    MessageContentView,
> {
    match input.input {
        Some(UserInputKindView::UserQuery(query)) => Some(
            MessageContentView::UserQuery(
                UserQueryView {
                    query: query.query,
                    context,
                    referenced_attachments: query.referenced_attachments,
                    mode: query.mode,
                    intended_agent: query.intended_agent,
                },
            ),
        ),
        Some(UserInputKindView::ToolCallResult(result)) => Some(
            MessageContentView::ToolCallResult(logged_call_result(result)),
        ),
        Some(UserInputKindView::PassiveSuggestionResult(accepted)) => match accepted.result {
            Some(result) => match result.suggestion {
                Some(PassiveSuggestionView::Prompt(prompt)) => Some(
                    MessageContentView::UserQuery(
                        UserQueryView {
                            query: prompt.prompt,
                            context,
                            referenced_attachments: context::nothing(),
                            mode: None,
                            intended_agent: 0,
                        },
                    ),
                ),
                _ => None,
            },
            None => None,
        },
        _ => None,
    }
}

/// What the log keeps of the first `count` inputs of a turn.
pub open spec fn echoes_of(
    inputs: Seq<UserInputView>,
    context: Option<InputContextView>,
    count: nat,
) -> Seq<MessageContentView>
    decreases count,
{
    if count == 0 {
        Seq::empty()
    } else {
        let before = echoes_of(inputs, context, (count - 1) as nat);
        match echo_of(inputs[count - 1], context) {
            Some(content) => before.push(content),
            None => before,
        }
    }
}

/// Whether messages are fresh ones of a task with the given contents, in order.
pub open spec fn fresh_messages(
    messages: Seq<MessageView>,
    task_id: Seq<char>,
    contents: Seq<MessageContentView>,
) -> bool {
    messages.len() == contents.len() && forall|i: int|
        0 <= i < messages.len() ==> fresh_message(#[trigger] messages[i], task_id, contents[i])
}

fn push_echo(
    echoes: &mut Vec<Message>,
    task_id: &str,
    content: MessageContent,
    Ghost(contents): Ghost<Seq<MessageContentView>>,
)
    requires
        fresh_messages(old(echoes).deep_view(), task_id@, contents),
    ensures
        fresh_messages(final(echoes).deep_view(), task_id@, contents.push(content.deep_view())),
{
    let ghost before = echoes.deep_view();
    let ghost view = content.deep_view();
    let message = new_task_message(task_id, content);
    echoes.push(message);
    assert(echoes.deep_view() =~= before.push(message.deep_view()));
}

fn push_result(
    transcript: &mut Vec<ChatMessage>,
    known: &mut Vec<String>,
    input: &InputToolCallResult,
)
    ensures
        (History { transcript: final(transcript).deep_view(), known: final(known).deep_view() })
            == after_result(
            (History { transcript: old(transcript).deep_view(), known: old(known).deep_view() }),
            input.deep_view(),
        ),
{
    // OpenAI-compatible servers reject a tool message without a preceding tool call.
    if !text::holds_text(known, input.tool_call_id.as_str()) {
        let arguments = json::json_object(Vec::new());
        assert(arguments.deep_view()->Object_0 =~= Seq::empty());
        let call = ToolCallRequest {
            id: input.tool_call_id.clone(),
            name: "tool".to_string(),
            arguments,
        };
        push_message(transcript, new_call_message(call));
        push_id(known, input.tool_call_id.clone());
    }
    push_message(
        transcript,
        ChatMessage::Tool {
            tool_call_id: input.tool_call_id.clone(),
            content: render::render_tool_result_text(&log_result(input)),
        },
    );
}

fn log_result(input: &InputToolCallResult) -> (logged: ToolCallResult)
    ensures
        logged.deep_view() == logged_call_result(input.deep_view()),
{
    ToolCallResult {
        tool_call_id: input.tool_call_id.clone(),
        context: None,
        result: convert_input_tool_result(&input.result),
    }
}

fn push_suggestion(transcript: &mut Vec<ChatMessage>, result: &PassiveSuggestionResultType)
    ensures
        forall|known: Seq<Seq<char>>|
            (#[trigger] after_suggestion(
                (History { transcript: old(transcript).deep_view(), known }),
                result.deep_view(),
            )) == (History { transcript: final(transcript).deep_view(), known }),
{
    if let Some(note) = render_passive_suggestion_trigger(result) {
        push_message(transcript, ChatMessage::User(note));
    }
    if let Some(PassiveSuggestion::Prompt(prompt)) = &result.suggestion {
        push_message(transcript, ChatMessage::User(prompt.prompt.clone()));
    }
}

/// The content that the log keeps of one input, where it keeps any.
fn make_echo(input: &UserInput, context: &Option<InputContext>) -> (echo: Option<MessageContent>)
    ensures
        echo.deep_view() == echo_of(input.deep_view(), context.deep_view()),
{
    match &input.input {
        Some(UserInputKind::UserQuery(query)) => Some(
            MessageContent::UserQuery(
                UserQuery {
                    query: query.query.clone(),
                    context: context.clone(),
                    referenced_attachments: query.referenced_attachments.clone(),
                    mode: query.mode.clone(),
                    intended_agent: query.intended_agent,
                },
            ),
        ),
        Some(UserInputKind::ToolCallResult(result)) => Some(
            MessageContent::ToolCallResult(log_result(result)),
        ),
        Some(UserInputKind::PassiveSuggestionResult(accepted)) => match &accepted.result {
            Some(result) => match &result.suggestion {
                Some(PassiveSuggestion::Prompt(prompt)) => Some(
                    MessageContent::UserQuery(
                        UserQuery {
                            query: prompt.prompt.clone(),
                            context: context.clone(),
                            referenced_attachments: Opaque::nothing(),
                            mode: None,
                            intended_agent: 0,
                        },
                    ),
                ),
                _ => None,
            },
            None => None,
        },
        _ => None,
    }
}

/// Appends one input of a turn to the transcript.
fn push_input(transcript: &mut Vec<ChatMessage>, known: &mut Vec<String>, input: &UserInput)
    ensures
        (History { transcript: final(transcript).deep_view(), known: final(known).deep_view() })
            == after_input(
            (History { transcript: old(transcript).deep_view(), known: old(known).deep_view() }),
            input.deep_view(),
        ),
{
    match &input.input {
        Some(UserInputKind::UserQuery(query)) => {
            push_message(transcript, ChatMessage::User(query.query.clone()));
        },
        Some(UserInputKind::ToolCallResult(result)) => {
            push_result(transcript, known, result);
        },
        Some(UserInputKind::PassiveSuggestionResult(accepted)) => {
            if let Some(result) = &accepted.result {
                push_suggestion(transcript, result);
            }
        },
        _ => {},
    }
}

pub open spec fn unsupported_input(reason: Seq<char>) -> AdapterErrorView {
    AdapterErrorView::UnsupportedInput(reason)
}

/// Whether a plan is one of the given identity, tools, transcript and echoes.
pub open spec fn plans(
    request: RequestView,
    route: LocalRouteView,
    plan: TurnPlanView,
    tools: ToolRegistryView,
    transcript: Seq<ChatMessageView>,
    echoes: Seq<MessageContentView>,
) -> bool {
    &&& plan.transcript == transcript
    &&& plan.tools == tools
    &&& identifies(
        request,
        TurnIdentityView {
            conversation_id: plan.conversation_id,
            root_task_id: plan.root_task_id,
            is_first_turn: plan.is_first_turn,
        },
    )
    &&& ids::is_uuid(plan.request_id)
    &&& fresh_messages(plan.input_echo_messages, plan.root_task_id, echoes)
    &&& plan.config_key == route.config_key
}

/// The tools of an agent turn.
pub open spec fn agent_tools(request: RequestView) -> ToolRegistryView {
    registry::agent_registry(request.mcp_context)
}

/// What an agent turn knows before its input: the system prompt, and the replayed logs.
pub open spec fn agent_history(request: RequestView, context: Option<InputContextView>) -> History {
    after_tasks(
        opened(prompt::prompt_text(prompt::STATIC_INSTRUCTIONS@, environment_of(context))),
        agent_tools(request),
        tasks_of(request),
        tasks_of(request).len(),
    )
}

/// The transcript of an agent turn.
pub open spec fn agent_transcript(
    request: RequestView,
    context: Option<InputContextView>,
    inputs: Seq<UserInputView>,
) -> Seq<ChatMessageView> {
    after_inputs(agent_history(request, context), inputs, inputs.len()).transcript
}

/// Whether the local loop understands all inputs of a turn.
pub open spec fn all_understood(inputs: Seq<UserInputView>) -> bool {
    forall|i: int| 0 <= i < inputs.len() ==> route::understood(#[trigger] inputs[i])
}

/// What a planning came to, over views.
pub open spec fn planning(planned: Result<TurnPlan, AdapterError>) -> Result<
    TurnPlanView,
    AdapterErrorView,
> {
    match planned {
        Ok(plan) => Ok(plan.deep_view()),
        Err(error) => Err(error.deep_view()),
    }
}

/// Whether an outcome is right for an agent turn: a plan where all inputs are understood, and an
/// error otherwise.
pub open spec fn plans_agent_turn(
    request: RequestView,
    context: Option<InputContextView>,
    inputs: Seq<UserInputView>,
    route: LocalRouteView,
    planned: Result<TurnPlanView, AdapterErrorView>,
) -> bool {
    match planned {
        Ok(plan) => all_understood(inputs) && plans(
            request,
            route,
            plan,
            agent_tools(request),
            agent_transcript(request, context, inputs),
            echoes_of(inputs, context, inputs.len()),
        ),
        Err(error) => !all_understood(inputs) && error == unsupported_input(
            "only user queries, tool call results, and passive suggestion results are supported"@,
        ),
    }
}

/// Plans a regular agent-loop turn driven by user queries and tool results.
pub fn plan_agent_turn(
    request: &Request,
    context: &Option<InputContext>,
    inputs: &Vec<UserInput>,
    route: &LocalRoute,
) -> (planned: Result<TurnPlan, AdapterError>)
    ensures
        plans_agent_turn(
            request.deep_view(),
            context.deep_view(),
            inputs.deep_view(),
            route.deep_view(),
            planning(planned),
        ),
{
    let identity = turn_identity(request);
    let tools = ToolRegistry::new(request.mcp_context.as_ref());
    let environment = environment_from_context(context.as_ref());
    let (mut transcript, mut known) = replay_tasks(
        prompt::build_system_prompt(&environment),
        request_tasks(request),
        &tools,
    );
    let ghost start = agent_history(request.deep_view(), context.deep_view());
    assert(transcript.deep_view() == start.transcript && known.deep_view() == start.known);
    let mut echoes: Vec<Message> = Vec::new();
    for i in 0..inputs.len()
        invariant
            forall|k: int| 0 <= k < i ==> route::understood(#[trigger] inputs.deep_view()[k]),
            (History { transcript: transcript.deep_view(), known: known.deep_view() })
                == after_inputs(start, inputs.deep_view(), i as nat),
            fresh_messages(
                echoes.deep_view(),
                identity.root_task_id@,
                echoes_of(inputs.deep_view(), context.deep_view(), i as nat),
            ),
    {
        assert(inputs.deep_view()[i as int] == inputs@[i as int].deep_view());
        if !route::is_understood(&inputs[i]) {
            return Err(
                AdapterError::UnsupportedInput(
                    "only user queries, tool call results, and passive suggestion results are supported",
                ),
            );
        }
        push_input(&mut transcript, &mut known, &inputs[i]);
        if let Some(content) = make_echo(&inputs[i], context) {
            push_echo(
                &mut echoes,
                identity.root_task_id.as_str(),
                content,
                Ghost(echoes_of(inputs.deep_view(), context.deep_view(), i as nat)),
            );
        }
    }
    Ok(
        TurnPlan {
            transcript,
            tools,
            conversation_id: identity.conversation_id,
            request_id: ids::new_id(),
            root_task_id: identity.root_task_id,
            is_first_turn: identity.is_first_turn,
            input_echo_messages: echoes,
            config_key: route.config_key.clone(),
        },
    )
}

/// The texts of the first `count` relevant files that are texts.
pub open spec fn relevant_texts(files: Seq<AnyFileContentView>, count: nat) -> Seq<char>
    decreases count,
{
    if count == 0 {
        Seq::empty()
    } else {
        let before = relevant_texts(files, (count - 1) as nat);
        match files[count - 1].content {
            Some(AnyFileContentKindView::TextContent(file)) => before + "\n=== "@ + file.file_path
                + " ===\n"@ + file.content + "\n"@,
            _ => before,
        }
    }
}

/// The instruction after a shell command.
pub open spec fn shell_instruction(completed: CompletedShellCommandView) -> Seq<char> {
    "The user just ran a shell command in their terminal. If a useful follow-up \
     exists, propose it via the `suggest_prompt` tool.\n"@
        + (match completed.executed_shell_command {
        Some(command) => "\nCommand: "@ + command.command + "\nExit code: "@ + text::decimal(
            command.exit_code as int,
        ) + "\nOutput:\n"@ + command.output + "\n"@,
        None => Seq::empty(),
    }) + relevant_texts(completed.relevant_files, completed.relevant_files.len())
}

/// The instruction that asks for a suggestion after what happened, where the trigger is one that
/// is still in use.
pub open spec fn instruction_for(trigger: TriggerView) -> Option<Seq<char>> {
    match trigger {
        TriggerView::ShellCommandCompleted(completed) => Some(shell_instruction(completed)),
        TriggerView::AgentResponseCompleted(_) => Some(
            "The agent just completed the response above. If a useful follow-up prompt \
             exists for this conversation, propose it via the `suggest_prompt` tool."@,
        ),
        _ => None,
    }
}

fn make_shell_instruction(completed: &CompletedShellCommand) -> (instruction: String)
    ensures
        instruction@ == shell_instruction(completed.deep_view()),
{
    let mut command_part = String::new();
    if let Some(command) = &completed.executed_shell_command {
        command_part = "\nCommand: ".to_string();
        command_part.append(command.command.as_str());
        command_part.append("\nExit code: ");
        command_part.append(text::signed_text(command.exit_code).as_str());
        command_part.append("\nOutput:\n");
        command_part.append(command.output.as_str());
        command_part.append("\n");
    }
    let mut file_part = String::new();
    for i in 0..completed.relevant_files.len()
        invariant
            file_part@ == relevant_texts(completed.relevant_files.deep_view(), i as nat),
    {
        assert(completed.relevant_files.deep_view()[i as int]
            == completed.relevant_files@[i as int].deep_view());
        if let Some(AnyFileContentKind::TextContent(file)) = &completed.relevant_files[i].content {
            file_part.append("\n=== ");
            file_part.append(file.file_path.as_str());
            file_part.append(" ===\n");
            file_part.append(file.content.as_str());
            file_part.append("\n");
        }
    }
    let mut instruction =
        "The user just ran a shell command in their terminal. If a useful follow-up \
         exists, propose it via the `suggest_prompt` tool.\n".to_string();
    instruction.append(command_part.as_str());
    instruction.append(file_part.as_str());
    instruction
}

fn make_instruction(trigger: &Trigger) -> (instruction: Option<String>)
    ensures
        instruction.deep_view() == instruction_for(trigger.deep_view()),
{
    match trigger {
        Trigger::ShellCommandCompleted(completed) => Some(make_shell_instruction(completed)),
        Trigger::AgentResponseCompleted(_) => Some(
            "The agent just completed the response above. If a useful follow-up prompt \
             exists for this conversation, propose it via the `suggest_prompt` tool.".to_string(),
        ),
        _ => None,
    }
}

/// What a passive suggestion turn knows before its instruction.
pub open spec fn suggestion_history(
    request: RequestView,
    context: Option<InputContextView>,
) -> History {
    after_tasks(
        opened(prompt::prompt_text(prompt::SUGGESTION_INSTRUCTIONS@, environment_of(context))),
        registry::suggestion_registry(),
        tasks_of(request),
        tasks_of(request).len(),
    )
}

/// What the log keeps of a request for a passive suggestion.
pub open spec fn suggestion_echo(
    context: Option<InputContextView>,
    attachments: Seq<context::OpaqueView>,
    trigger: TriggerView,
) -> MessageContentView {
    MessageContentView::SystemQuery(
        SystemQueryView {
            context,
            kind: Some(
                SystemQueryKindView::GeneratePassiveSuggestions(
                    LoggedPassiveSuggestionsView {
                        attachments,
                        trigger: Some(logged_trigger(trigger)),
                    },
                ),
            ),
        },
    )
}

/// Whether an outcome is right for a passive suggestion turn: a plan where the request has a
/// trigger that is still in use, and an error otherwise.
pub open spec fn plans_suggestion_turn(
    request: RequestView,
    context: Option<InputContextView>,
    generate: GeneratePassiveSuggestionsView,
    route: LocalRouteView,
    planned: Result<TurnPlanView, AdapterErrorView>,
) -> bool {
    match generate.trigger {
        None => planned == Err::<TurnPlanView, AdapterErrorView>(
            unsupported_input("passive suggestion request has no trigger"@),
        ),
        Some(trigger) => match instruction_for(trigger) {
            None => planned == Err::<TurnPlanView, AdapterErrorView>(
                unsupported_input("deprecated passive suggestion trigger"@),
            ),
            Some(instruction) => planned matches Ok(plan) && plans(
                request,
                route,
                plan,
                registry::suggestion_registry(),
                suggestion_history(request, context).transcript.push(
                    ChatMessageView::User(instruction),
                ),
                seq![suggestion_echo(context, generate.attachments, trigger)],
            ),
        },
    }
}

/// Plans a passive prompt suggestion turn: a one-shot, read-only request whose only tool is
/// `suggest_prompt`. The conversation so far is replayed for context, then the trigger is
/// rendered as the final user instruction.
pub fn plan_suggestion_turn(
    request: &Request,
    context: &Option<InputContext>,
    generate: &GeneratePassiveSuggestions,
    route: &LocalRoute,
) -> (planned: Result<TurnPlan, AdapterError>)
    ensures
        plans_suggestion_turn(
            request.deep_view(),
            context.deep_view(),
            generate.deep_view(),
            route.deep_view(),
            planning(planned),
        ),
{
    let trigger = match &generate.trigger {
        Some(trigger) => trigger,
        None => {
            return Err(
                AdapterError::UnsupportedInput(
                    "passive suggestion request has no trigger",
                ),
            );
        },
    };
    let instruction = match make_instruction(trigger) {
        Some(instruction) => instruction,
        None => {
            return Err(
                AdapterError::UnsupportedInput("deprecated passive suggestion trigger"),
            );
        },
    };
    let identity = turn_identity(request);
    let tools = ToolRegistry::for_passive_suggestions();
    let environment = environment_from_context(context.as_ref());
    let (mut transcript, _known) = replay_tasks(
        prompt::build_suggestion_system_prompt(&environment),
        request_tasks(request),
        &tools,
    );
    push_message(&mut transcript, ChatMessage::User(instruction));
    let attachments = generate.attachments.clone();
    assert(attachments.deep_view() =~= generate.attachments.deep_view());
    let content = MessageContent::SystemQuery(
        SystemQuery {
            context: context.clone(),
            kind: Some(
                SystemQueryKind::GeneratePassiveSuggestions(
                    LoggedPassiveSuggestions {
                        attachments,
                        trigger: Some(message_trigger_from_request(trigger)),
                    },
                ),
            ),
        },
    );
    let mut echoes: Vec<Message> = Vec::new();
    let ghost echo = content.deep_view();
    push_echo(&mut echoes, identity.root_task_id.as_str(), content, Ghost(Seq::empty()));
    assert(Seq::<MessageContentView>::empty().push(echo) =~= seq![echo]);
    Ok(
        TurnPlan {
            transcript,
            tools,
            conversation_id: identity.conversation_id,
            request_id: ids::new_id(),
            root_task_id: identity.root_task_id,
            is_first_turn: identity.is_first_turn,
            input_echo_messages: echoes,
            config_key: route.config_key.clone(),
        },
    )
}

/// Whether an outcome is right for a request.
pub open spec fn plans_turn(
    request: RequestView,
    route: LocalRouteView,
    planned: Result<TurnPlanView, AdapterErrorView>,
) -> bool {
    match request.input {
        None => planned == Err::<TurnPlanView, AdapterErrorView>(
            unsupported_input("request has no input"@),
        ),
        Some(input) => match input.kind {
            Some(InputKindView::UserInputs(turn)) => plans_agent_turn(
                request,
                input.context,
                turn.inputs,
                route,
                planned,
            ),
            Some(InputKindView::GeneratePassiveSuggestions(generate)) => plans_suggestion_turn(
                request,
                input.context,
                generate,
                route,
                planned,
            ),
            Some(_) => planned == Err::<TurnPlanView, AdapterErrorView>(
                unsupported_input("system-driven inputs are served by the server path"@),
            ),
            None => planned == Err::<TurnPlanView, AdapterErrorView>(
                unsupported_input("input has no type"@),
            ),
        },
    }
}

/// Derives the [`TurnPlan`] from a request.
pub fn plan_turn(request: &Request, route: &LocalRoute) -> (planned: Result<TurnPlan, AdapterError>)
    ensures
        plans_turn(request.deep_view(), route.deep_view(), planning(planned)),
{
    match &request.input {
        None => Err(AdapterError::UnsupportedInput("request has no input")),
        Some(input) => match &input.kind {
            Some(InputKind::UserInputs(turn)) => plan_agent_turn(
                request,
                &input.context,
                &turn.inputs,
                route,
            ),
            Some(InputKind::GeneratePassiveSuggestions(generate)) => plan_suggestion_turn(
                request,
                &input.context,
                generate,
                route,
            ),
            Some(_) => Err(
                AdapterError::UnsupportedInput(
                    "system-driven inputs are served by the server path",
                ),
            ),
            None => Err(AdapterError::UnsupportedInput("input has no type")),
        },
    }
}

} // verus!

//! Turns from end to end: the environment, what the next turn sees of this one,
//! and how a stream ends.

use local_agent::api::context::{
    AnyFileContent, AnyFileContentKind, Directory, ExecutedShellCommand, FileContent, Git,
    GitRepository, InputContext, Opaque, OperatingSystem, ProjectRules, Shell, Timestamp,
};
use local_agent::api::message::{
    AgentOutput, Message, MessageContent, PassiveSuggestion, PassiveSuggestionResultType,
    PassiveSuggestionTrigger, SuggestedPrompt, Task, UserQuery,
};
use local_agent::api::request::{
    CompletedShellCommand, GeneratePassiveSuggestions, Input, InputKind,
    PassiveSuggestionResultInput, Request, TaskContext, Trigger, UserInput, UserInputKind,
    UserInputs, UserQueryInput,
};
use local_agent::api::response::{
    Action, AiApiError, Event, FinishReason, ResponseEventKind,
};
use local_agent::api::result::{InputToolCallResult, InputToolResult, RunShellCommandResult};
use local_agent::api::tool::{RunShellCommand, Tool, ToolCall};
use local_agent::events::EventMapper;
use local_agent::json::Json;
use local_agent::plan::{environment_from_context, environment_with_time, plan_turn, TurnPlan};
use local_agent::route::LocalRoute;
use local_agent::{AdapterError, AgentEvent, ChatMessage, LocalAgentError, ToolCallRequest};

fn route() -> LocalRoute {
    LocalRoute { config_key: "cfg".to_string(), ..Default::default() }
}

fn request(tasks: Vec<Task>, kind: Option<InputKind>) -> Request {
    Request {
        task_context: Some(TaskContext { tasks }),
        input: Some(Input { context: None, kind }),
        ..Default::default()
    }
}

fn inputs(kinds: Vec<UserInputKind>) -> Option<InputKind> {
    Some(InputKind::UserInputs(UserInputs {
        inputs: kinds.into_iter().map(|kind| UserInput { input: Some(kind) }).collect(),
    }))
}

fn query(content: &str) -> UserInputKind {
    UserInputKind::UserQuery(UserQueryInput { query: content.to_string(), ..Default::default() })
}

fn result_for(id: &str) -> UserInputKind {
    UserInputKind::ToolCallResult(InputToolCallResult {
        tool_call_id: id.to_string(),
        result: Some(InputToolResult::RunShellCommand(RunShellCommandResult {
            output: "out".to_string(),
            ..Default::default()
        })),
    })
}

fn logged(content: MessageContent) -> Message {
    Message { message: Some(content), ..Default::default() }
}

fn logged_shell_call(id: &str) -> Message {
    logged(MessageContent::ToolCall(ToolCall {
        tool_call_id: id.to_string(),
        tool: Some(Tool::RunShellCommand(RunShellCommand {
            command: "ls".to_string(),
            ..Default::default()
        })),
    }))
}

fn task(messages: Vec<Message>) -> Task {
    Task { id: "task".to_string(), messages, ..Default::default() }
}

fn plan(request: &Request) -> TurnPlan {
    plan_turn(request, &route()).expect("plan")
}

#[test]
fn the_environment_is_taken_from_the_context() {
    let context = InputContext {
        directory: Some(Directory { pwd: "/p".to_string(), home: String::new() }),
        shell: Some(Shell { name: "zsh".to_string() }),
        operating_system: Some(OperatingSystem {
            platform: "linux".to_string(),
            distribution: String::new(),
        }),
        git: Some(Git {
            branch: String::new(),
            repository: Some(GitRepository { owner: "o".to_string(), name: "n".to_string() }),
        }),
        current_time: Some(Timestamp { seconds: 0, nanos: 500_000_000 }),
        project_rules: vec![
            ProjectRules {
                active_rule_files: vec![
                    FileContent { content: "one".to_string(), ..Default::default() },
                    FileContent::default(),
                ],
            },
            ProjectRules::default(),
            ProjectRules {
                active_rule_files: vec![FileContent {
                    content: "two".to_string(),
                    ..Default::default()
                }],
            },
        ],
        rest: Opaque::default(),
    };
    let environment = environment_from_context(Some(&context));
    assert_eq!(environment.pwd.as_deref(), Some("/p"));
    assert_eq!(environment.home, None);
    assert_eq!(environment.shell.as_deref(), Some("zsh"));
    assert_eq!(environment.operating_system.as_deref(), Some("linux"));
    assert_eq!(environment.git_branch, None);
    assert_eq!(environment.git_repository.as_deref(), Some("o/n"));
    assert_eq!(environment.current_time.as_deref(), Some("1970-01-01T00:00:00.500Z"));
    assert_eq!(environment.project_rules, vec!["one".to_string(), "two".to_string()]);
}

#[test]
fn nothing_is_known_without_a_context() {
    assert_eq!(environment_from_context(None), Default::default());
    let blank = InputContext {
        operating_system: Some(OperatingSystem::default()),
        git: Some(Git {
            branch: "main".to_string(),
            repository: Some(GitRepository { owner: String::new(), name: "n".to_string() }),
        }),
        ..Default::default()
    };
    let environment = environment_from_context(Some(&blank));
    assert_eq!(environment.operating_system, None);
    assert_eq!(environment.git_branch.as_deref(), Some("main"));
    assert_eq!(environment.git_repository.as_deref(), Some("n"));
}

#[test]
fn requests_that_cannot_be_planned_are_refused_with_the_reason() {
    let reason = |request: &Request| match plan_turn(request, &route()) {
        Err(AdapterError::UnsupportedInput(reason)) => reason,
        other => panic!("expected a refusal, got {other:?}"),
    };
    assert_eq!(reason(&Request::default()), "request has no input");
    assert_eq!(reason(&request(vec![], None)), "input has no type");
    assert_eq!(
        reason(&request(vec![], Some(InputKind::Other(Opaque::default())))),
        "system-driven inputs are served by the server path"
    );
    assert_eq!(
        reason(&request(vec![], inputs(vec![query("q"), UserInputKind::Other(Opaque::default())]))),
        "only user queries, tool call results, and passive suggestion results are supported"
    );
    let generate = |trigger| {
        Some(InputKind::GeneratePassiveSuggestions(GeneratePassiveSuggestions {
            attachments: vec![],
            trigger,
        }))
    };
    assert_eq!(
        reason(&request(vec![], generate(None))),
        "passive suggestion request has no trigger"
    );
    for trigger in [Trigger::FilesChanged, Trigger::CommandRun] {
        assert_eq!(
            reason(&request(vec![], generate(Some(trigger)))),
            "deprecated passive suggestion trigger"
        );
    }
}

#[test]
fn a_result_without_its_call_gets_a_call_to_answer() {
    let plan = plan(&request(vec![], inputs(vec![result_for("lost"), result_for("lost")])));
    assert_eq!(
        &plan.transcript[1..],
        &[
            ChatMessage::Assistant {
                text: String::new(),
                tool_calls: vec![ToolCallRequest {
                    id: "lost".to_string(),
                    name: "tool".to_string(),
                    arguments: Json::Object(vec![]),
                }],
            },
            ChatMessage::Tool {
                tool_call_id: "lost".to_string(),
                content: "Exit code: 0\n\nOutput:\nout".to_string(),
            },
            ChatMessage::Tool {
                tool_call_id: "lost".to_string(),
                content: "Exit code: 0\n\nOutput:\nout".to_string(),
            },
        ]
    );
}

#[test]
fn unsupported_calls_are_skipped_together_with_their_results() {
    let history = vec![
        logged(MessageContent::ToolCall(ToolCall {
            tool_call_id: "x".to_string(),
            tool: Some(Tool::Other(Opaque::default())),
        })),
        logged(MessageContent::ToolCallResult(Default::default())),
        logged(MessageContent::AgentOutput(AgentOutput::default())),
        logged(MessageContent::Other(Opaque::default())),
        Message::default(),
    ];
    let plan = plan(&request(vec![task(history)], inputs(vec![query("q")])));
    assert_eq!(&plan.transcript[1..], &[ChatMessage::User("q".to_string())]);
}

#[test]
fn text_and_parallel_calls_of_one_reply_share_a_message() {
    let history = vec![
        logged(MessageContent::AgentOutput(AgentOutput { text: "look".to_string() })),
        logged_shell_call("1"),
        logged_shell_call("2"),
    ];
    let plan = plan(&request(vec![task(history)], inputs(vec![result_for("2"), result_for("1")])));
    let ChatMessage::Assistant { text, tool_calls } = &plan.transcript[1] else {
        panic!("expected the reply, got {:?}", plan.transcript[1]);
    };
    assert_eq!(text, "look");
    let ids: Vec<&str> = tool_calls.iter().map(|call| call.id.as_str()).collect();
    assert_eq!(ids, vec!["1", "2"]);
    assert_eq!(plan.transcript.len(), 4);
}

#[test]
fn the_next_turn_sees_what_this_one_said() {
    let history = vec![logged_shell_call("1")];
    let first = plan(&request(
        vec![task(history.clone())],
        inputs(vec![result_for("1"), query("and now?")]),
    ));
    let mut log = history;
    log.extend(first.input_echo_messages.clone());
    let second = plan(&request(vec![task(log)], inputs(vec![])));
    assert_eq!(second.transcript, first.transcript);
}

#[test]
fn a_note_on_a_trigger_is_for_one_turn_only() {
    let accepted = UserInputKind::PassiveSuggestionResult(PassiveSuggestionResultInput {
        result: Some(PassiveSuggestionResultType {
            trigger: Some(PassiveSuggestionTrigger::ExecutedShellCommand(ExecutedShellCommand {
                command: "make".to_string(),
                output: "failed".to_string(),
                exit_code: 2,
                ..Default::default()
            })),
            suggestion: Some(PassiveSuggestion::Prompt(SuggestedPrompt {
                prompt: "fix it".to_string(),
            })),
        }),
    });
    let first = plan(&request(vec![], inputs(vec![accepted])));
    assert_eq!(
        first.transcript[1],
        ChatMessage::User(
            "Context: this request follows a passive suggestion.\n\
             Triggered by shell command: make\nExit code: 2\nOutput:\nfailed"
                .to_string()
        )
    );
    assert_eq!(first.transcript[2], ChatMessage::User("fix it".to_string()));
    let second =
        plan(&request(vec![task(first.input_echo_messages)], inputs(vec![query("done?")])));
    assert_eq!(
        &second.transcript[1..],
        &[ChatMessage::User("fix it".to_string()), ChatMessage::User("done?".to_string())]
    );
}

#[test]
fn a_shell_trigger_tells_of_the_relevant_text_files() {
    let file = |content| AnyFileContent { content };
    let kind = InputKind::GeneratePassiveSuggestions(GeneratePassiveSuggestions {
        attachments: vec![],
        trigger: Some(Trigger::ShellCommandCompleted(CompletedShellCommand {
            executed_shell_command: None,
            relevant_files: vec![
                file(None),
                file(Some(AnyFileContentKind::TextContent(FileContent {
                    file_path: "a.rs".to_string(),
                    content: "fn a() {}".to_string(),
                    line_range: None,
                }))),
                file(Some(AnyFileContentKind::BinaryContent(Default::default()))),
            ],
        })),
    });
    let plan = plan(&request(vec![], Some(kind)));
    assert_eq!(
        plan.transcript.last(),
        Some(&ChatMessage::User(
            "The user just ran a shell command in their terminal. If a useful follow-up \
             exists, propose it via the `suggest_prompt` tool.\n\n=== a.rs ===\nfn a() {}\n"
                .to_string()
        ))
    );
}

fn mapper() -> EventMapper {
    EventMapper::new(&plan(&request(vec![], inputs(vec![query("q")]))))
}

fn is_action(event: &Event, action: &Action) -> bool {
    match event {
        Ok(response) => match &response.kind {
            Some(ResponseEventKind::ClientActions(actions)) => {
                actions.actions.len() == 1 && actions.actions[0].action.as_ref() == Some(action)
            }
            _ => false,
        },
        Err(_) => false,
    }
}

fn reason_of(event: &Event) -> Option<FinishReason> {
    match event {
        Ok(response) => match &response.kind {
            Some(ResponseEventKind::Finished(finished)) => finished.reason.clone(),
            _ => None,
        },
        Err(_) => None,
    }
}

#[test]
fn a_call_that_cannot_be_logged_rolls_the_turn_back() {
    let mut mapper = mapper();
    let events = mapper.on_event(Ok(AgentEvent::ToolCall(ToolCallRequest {
        id: "c".to_string(),
        name: "nope".to_string(),
        arguments: Json::Null,
    })));
    assert_eq!(events.len(), 2);
    assert!(is_action(&events[0], &Action::RollbackTransaction));
    assert_eq!(
        reason_of(&events[1]),
        Some(FinishReason::InternalError {
            message: "unknown tool call from model: nope".to_string()
        })
    );
}

#[test]
fn error_statuses_keep_their_code_where_it_is_one() {
    let status = |status: u16| {
        let mut events = mapper().on_event(Err(LocalAgentError::ErrorStatus {
            status,
            body: "b".to_string(),
        }));
        assert!(is_action(&events[0], &Action::RollbackTransaction));
        match events.remove(1) {
            Err(AiApiError::ErrorStatus { status, body }) => {
                assert_eq!(body, "b");
                status
            }
            other => panic!("expected an error status, got {other:?}"),
        }
    };
    assert_eq!(status(429), 429);
    assert_eq!(status(100), 100);
    assert_eq!(status(999), 999);
    assert_eq!(status(99), 500);
    assert_eq!(status(1000), 500);
}

#[test]
fn other_failures_are_failures_of_the_stream() {
    let mut events = mapper().on_event(Err(LocalAgentError::Parse("p".to_string())));
    assert_eq!(
        events.remove(1),
        Err(AiApiError::Stream {
            stream_type: "local agent loop".to_string(),
            source: LocalAgentError::Parse("p".to_string()),
        })
    );
}

#[test]
fn usage_is_summed_and_reported_in_its_low_bits() {
    let mut mapper = mapper();
    let usage = |input_tokens, output_tokens| {
        Ok(AgentEvent::Usage { input_tokens, output_tokens })
    };
    assert!(mapper.on_event(usage(5, 0)).is_empty());
    assert!(mapper.on_event(usage(0x1_0000_0002, 3)).is_empty());
    let events = mapper.on_event(Ok(AgentEvent::Done));
    assert!(is_action(&events[0], &Action::CommitTransaction));
    let Ok(last) = &events[1] else {
        panic!("expected the end of the stream");
    };
    let Some(ResponseEventKind::Finished(finished)) = &last.kind else {
        panic!("expected the end of the stream");
    };
    assert_eq!(finished.token_usage[0].total_input, 7);
    assert_eq!(finished.token_usage[0].output, 3);
}

#[test]
fn no_usage_is_reported_where_none_came_in() {
    let events = mapper().on_event(Ok(AgentEvent::Done));
    let Ok(last) = &events[1] else {
        panic!("expected the end of the stream");
    };
    let Some(ResponseEventKind::Finished(finished)) = &last.kind else {
        panic!("expected the end of the stream");
    };
    assert!(finished.token_usage.is_empty());
}

#[test]
fn text_after_a_tool_call_begins_a_new_message() {
    let mut mapper = mapper();
    let first = mapper.on_event_with_id(Ok(AgentEvent::TextDelta("a".to_string())), "m1".to_string());
    mapper.on_event_with_id(
        Ok(AgentEvent::ToolCall(ToolCallRequest {
            id: "c".to_string(),
            name: "grep".to_string(),
            arguments: Json::Object(vec![("queries".to_string(), Json::Array(vec![]))]),
        })),
        "m2".to_string(),
    );
    assert!(mapper.on_event(Ok(AgentEvent::ReasoningDelta("r".to_string()))).is_empty());
    let second =
        mapper.on_event_with_id(Ok(AgentEvent::TextDelta("b".to_string())), "m3".to_string());
    let id_of = |events: &Vec<Event>| match &events[0] {
        Ok(response) => match &response.kind {
            Some(ResponseEventKind::ClientActions(actions)) => match &actions.actions[0].action {
                Some(Action::AddMessagesToTask(add)) => add.messages[0].id.clone(),
                other => panic!("expected a new message, got {other:?}"),
            },
            other => panic!("expected an action, got {other:?}"),
        },
        Err(error) => panic!("expected an action, got {error:?}"),
    };
    assert_eq!(id_of(&first), "m1");
    assert_eq!(id_of(&second), "m3");
}

#[test]
fn queries_are_echoed_with_all_they_carry() {
    let kind = inputs(vec![UserInputKind::UserQuery(UserQueryInput {
        query: "q".to_string(),
        referenced_attachments: Opaque { bytes: vec![1] },
        mode: Some(Opaque { bytes: vec![2] }),
        intended_agent: 3,
    })]);
    let mut asked = request(vec![], kind);
    let context = InputContext {
        shell: Some(Shell { name: "fish".to_string() }),
        ..Default::default()
    };
    if let Some(input) = asked.input.as_mut() {
        input.context = Some(context.clone());
    }
    let plan = plan(&asked);
    assert_eq!(
        plan.input_echo_messages[0].message,
        Some(MessageContent::UserQuery(UserQuery {
            query: "q".to_string(),
            context: Some(context),
            referenced_attachments: Opaque { bytes: vec![1] },
            mode: Some(Opaque { bytes: vec![2] }),
            intended_agent: 3,
        }))
    );
    assert_eq!(plan.input_echo_messages[0].task_id, plan.root_task_id);
}

#[test]
fn the_time_is_taken_as_it_is_written() {
    let environment =
        environment_with_time(&InputContext::default(), Some("half past two".to_string()));
    assert_eq!(environment.current_time.as_deref(), Some("half past two"));
    assert_eq!(environment.pwd, None);
}

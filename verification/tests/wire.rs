//! The wire format: requests, streamed chunks, and what ends a turn.

use local_agent::engine::{collect_reply, ParsedChunk, SourceItem, Turn};
use local_agent::json::Json;
use local_agent::openai::{
    build_request, complete_call_with, endpoint_url, looks_like_context_overflow,
    make_outgoing_call, ChunkChoice, ChunkDelta, ChunkResponse, ChunkUsage, FunctionDelta,
    OutgoingMessage, PartialToolCall, SourceFailure, ToolCallDelta,
};
use local_agent::{
    build_suggestion_system_prompt, build_system_prompt, AdapterError, AgentEvent, ChatMessage,
    EnvironmentInfo, LocalAgentError, LocalEndpointConfig, ToolCallRequest, ToolDefinition,
};

fn config() -> LocalEndpointConfig {
    LocalEndpointConfig {
        base_url: "http://127.0.0.1:1234".to_string(),
        api_key: "test-key".to_string(),
        model_slug: "test-model".to_string(),
    }
}

fn text(value: &str) -> Json {
    Json::Text(value.to_string())
}

fn object(entries: Vec<(&str, Json)>) -> Json {
    Json::Object(entries.into_iter().map(|(key, value)| (key.to_string(), value)).collect())
}

fn shell_tool() -> ToolDefinition {
    ToolDefinition {
        name: "run_shell_command".to_string(),
        description: "Run a shell command".to_string(),
        parameters: object(vec![
            ("properties", object(vec![("command", object(vec![("type", text("string"))]))])),
            ("required", Json::Array(vec![text("command")])),
            ("type", text("object")),
        ]),
    }
}

fn string_at(value: &serde_json::Value, key: &str) -> Option<String> {
    value[key].as_str().map(str::to_string)
}

fn function_delta(value: &serde_json::Value) -> Option<FunctionDelta> {
    if value.is_object() {
        Some(FunctionDelta {
            name: string_at(value, "name"),
            arguments: string_at(value, "arguments"),
        })
    } else {
        None
    }
}

fn items(value: &serde_json::Value) -> Vec<serde_json::Value> {
    value.as_array().cloned().unwrap_or_default()
}

fn chunk_delta(value: &serde_json::Value) -> ChunkDelta {
    ChunkDelta {
        content: string_at(value, "content"),
        reasoning_content: string_at(value, "reasoning_content"),
        reasoning: string_at(value, "reasoning"),
        reasoning_text: string_at(value, "reasoning_text"),
        tool_calls: items(&value["tool_calls"])
            .iter()
            .map(|call| ToolCallDelta {
                index: call["index"].as_u64().unwrap_or_default() as u32,
                id: string_at(call, "id"),
                function: function_delta(&call["function"]),
            })
            .collect(),
    }
}

fn message(data: &str) -> SourceItem {
    let parsed = match serde_json::from_str::<serde_json::Value>(data) {
        Ok(value) => ParsedChunk::Chunk(ChunkResponse {
            choices: items(&value["choices"])
                .iter()
                .map(|choice| ChunkChoice {
                    delta: chunk_delta(&choice["delta"]),
                    finish_reason: string_at(choice, "finish_reason"),
                })
                .collect(),
            usage: value["usage"].as_object().map(|usage| ChunkUsage {
                prompt_tokens: usage["prompt_tokens"].as_u64().unwrap_or_default(),
                completion_tokens: usage["completion_tokens"].as_u64().unwrap_or_default(),
            }),
        }),
        Err(err) => ParsedChunk::Malformed(err.to_string()),
    };
    SourceItem::Message { data: data.to_string(), parsed }
}

fn delta(delta: &str, finish_reason: Option<&str>) -> SourceItem {
    let reason = match finish_reason {
        Some(reason) => format!("\"{reason}\""),
        None => "null".to_string(),
    };
    message(&format!(
        "{{\"id\":\"chatcmpl-1\",\"choices\":[{{\"index\":0,\"delta\":{delta},\"finish_reason\":{reason}}}]}}"
    ))
}

fn run(items: Vec<SourceItem>) -> Vec<Result<AgentEvent, LocalAgentError>> {
    let mut turn = Turn::new(config());
    let mut results = Vec::new();
    for item in items {
        let step = turn.on_item(item);
        results.extend(step.events.into_iter().map(Ok));
        if let Some(error) = step.error {
            results.push(Err(error));
        }
        if step.over {
            return results;
        }
    }
    panic!("the turn must come to its end");
}

fn done() -> SourceItem {
    message("[DONE]")
}

fn expect_ok(results: Vec<Result<AgentEvent, LocalAgentError>>) -> Vec<AgentEvent> {
    results.into_iter().map(|r| r.expect("expected only Ok events")).collect()
}

fn call(id: &str, command: &str) -> AgentEvent {
    AgentEvent::ToolCall(ToolCallRequest {
        id: id.to_string(),
        name: "run_shell_command".to_string(),
        arguments: object(vec![("command", text(command))]),
    })
}

fn reply_of(results: Vec<Result<AgentEvent, LocalAgentError>>) -> Result<String, LocalAgentError> {
    let mut reply = String::new();
    for result in results {
        if collect_reply(&mut reply, result)? {
            break;
        }
    }
    Ok(reply)
}

#[test]
fn complete_text_collects_the_full_reply() {
    let results = run(vec![
        SourceItem::Open,
        delta(r#"{"role":"assistant","content":"git "}"#, None),
        delta(r#"{"content":"status"}"#, None),
        delta("{}", Some("stop")),
        done(),
    ]);

    assert_eq!(reply_of(results).expect("completion should succeed"), "git status");
}

#[test]
fn complete_text_propagates_errors() {
    let results = run(vec![SourceItem::Failed(SourceFailure::InvalidStatusCode {
        status: 401,
        body: r#"{"error":{"message":"bad key"}}"#.to_string(),
    })]);

    assert!(
        reply_of(results).is_err(),
        "a 401 must surface as an error, not empty text"
    );
}

#[test]
fn streams_text_deltas_then_usage_and_done() {
    let results = run(vec![
        SourceItem::Open,
        delta(r#"{"role":"assistant","content":"Hel"}"#, None),
        delta(r#"{"content":"lo"}"#, None),
        delta("{}", Some("stop")),
        message(r#"{"choices":[],"usage":{"prompt_tokens":42,"completion_tokens":7,"total_tokens":49}}"#),
        done(),
    ]);

    assert_eq!(
        expect_ok(results),
        vec![
            AgentEvent::TextDelta("Hel".to_string()),
            AgentEvent::TextDelta("lo".to_string()),
            AgentEvent::Usage { input_tokens: 42, output_tokens: 7 },
            AgentEvent::Done,
        ]
    );
}

#[test]
fn accumulates_tool_call_arguments_fragmented_across_chunks() {
    let results = run(vec![
        delta(
            r#"{"role":"assistant","tool_calls":[{"index":0,"id":"call_abc","type":"function","function":{"name":"run_shell_command","arguments":""}}]}"#,
            None,
        ),
        delta(r#"{"tool_calls":[{"index":0,"function":{"arguments":"{\"comm"}}]}"#, None),
        delta(r#"{"tool_calls":[{"index":0,"function":{"arguments":"and\":\"ls -la\"}"}}]}"#, None),
        delta("{}", Some("tool_calls")),
        done(),
    ]);

    assert_eq!(expect_ok(results), vec![call("call_abc", "ls -la"), AgentEvent::Done]);
}

#[test]
fn emits_parallel_tool_calls_in_index_order() {
    let results = run(vec![
        delta(
            r#"{"role":"assistant","tool_calls":[{"index":0,"id":"call_one","type":"function","function":{"name":"run_shell_command","arguments":"{\"command\":\"pwd\"}"}}]}"#,
            None,
        ),
        delta(
            r#"{"tool_calls":[{"index":1,"id":"call_two","type":"function","function":{"name":"run_shell_command","arguments":"{\"comm"}}]}"#,
            None,
        ),
        delta(r#"{"tool_calls":[{"index":1,"function":{"arguments":"and\":\"ls\"}"}}]}"#, None),
        delta("{}", Some("tool_calls")),
        done(),
    ]);

    assert_eq!(
        expect_ok(results),
        vec![call("call_one", "pwd"), call("call_two", "ls"), AgentEvent::Done]
    );
}

#[test]
fn interleaved_fragments_come_out_in_index_order() {
    let results = run(vec![
        delta(
            r#"{"tool_calls":[{"index":1,"id":"b","function":{"name":"run_shell_command","arguments":"{\"command\":"}}]}"#,
            None,
        ),
        delta(
            r#"{"tool_calls":[{"index":0,"id":"a","function":{"name":"run_shell_command","arguments":"{\"command\":\"x"}}]}"#,
            None,
        ),
        delta(r#"{"tool_calls":[{"index":1,"function":{"arguments":"\"y\"}"}},{"index":0,"id":"","function":{"name":"","arguments":"\"}"}}]}"#, None),
        delta("{}", Some("tool_calls")),
        done(),
    ]);

    assert_eq!(expect_ok(results), vec![call("a", "x"), call("b", "y"), AgentEvent::Done]);
}

#[test]
fn emits_text_before_tool_calls_when_model_streams_both() {
    let results = run(vec![
        delta(r#"{"role":"assistant","content":"Let me check."}"#, None),
        delta(
            r#"{"tool_calls":[{"index":0,"id":"call_abc","type":"function","function":{"name":"run_shell_command","arguments":"{\"command\":\"ls\"}"}}]}"#,
            None,
        ),
        delta("{}", Some("tool_calls")),
        done(),
    ]);

    assert_eq!(
        expect_ok(results),
        vec![
            AgentEvent::TextDelta("Let me check.".to_string()),
            call("call_abc", "ls"),
            AgentEvent::Done,
        ]
    );
}

#[test]
fn emits_reasoning_deltas_from_reasoning_content_field() {
    let results = run(vec![
        delta(r#"{"role":"assistant","reasoning_content":"thinking..."}"#, None),
        delta(r#"{"content":"answer"}"#, None),
        delta("{}", Some("stop")),
        done(),
    ]);

    assert_eq!(
        expect_ok(results),
        vec![
            AgentEvent::ReasoningDelta("thinking...".to_string()),
            AgentEvent::TextDelta("answer".to_string()),
            AgentEvent::Done,
        ]
    );
}

#[test]
fn the_first_reasoning_field_that_is_filled_counts() {
    let mut delta = ChunkDelta {
        reasoning_content: Some(String::new()),
        reasoning: Some("b".to_string()),
        reasoning_text: Some("c".to_string()),
        ..Default::default()
    };
    assert_eq!(delta.reasoning_delta(), Some("b"));
    delta.reasoning = None;
    assert_eq!(delta.reasoning_delta(), Some("c"));
    delta.reasoning_content = Some("a".to_string());
    assert_eq!(delta.reasoning_delta(), Some("a"));
    assert_eq!(ChunkDelta::default().reasoning_delta(), None);
}

#[test]
fn sends_chat_completions_request_with_expected_shape() {
    let transcript = vec![
        ChatMessage::System("You are a coding agent.".to_string()),
        ChatMessage::User("hi".to_string()),
        ChatMessage::Assistant {
            text: String::new(),
            tool_calls: vec![ToolCallRequest {
                id: "call_prev".to_string(),
                name: "run_shell_command".to_string(),
                arguments: object(vec![("command", text("ls"))]),
            }],
        },
        ChatMessage::Tool {
            tool_call_id: "call_prev".to_string(),
            content: "file.txt".to_string(),
        },
    ];

    let request = build_request(&transcript, &[shell_tool()], &config());

    assert_eq!(request.model, "test-model");
    assert!(request.stream);
    assert!(request.stream_options.include_usage);
    assert_eq!(request.messages.len(), 4);
    assert_eq!(
        request.messages[0],
        OutgoingMessage {
            role: "system",
            content: Some("You are a coding agent.".to_string()),
            tool_calls: vec![],
            tool_call_id: None,
        }
    );
    assert_eq!(request.messages[1].role, "user");
    assert_eq!(request.messages[1].content.as_deref(), Some("hi"));
    let assistant = &request.messages[2];
    assert_eq!(assistant.role, "assistant");
    assert_eq!(assistant.content, None);
    assert_eq!(assistant.tool_calls[0].id, "call_prev");
    assert_eq!(assistant.tool_calls[0].kind, "function");
    assert_eq!(assistant.tool_calls[0].function.name, "run_shell_command");
    assert_eq!(assistant.tool_calls[0].function.arguments, r#"{"command":"ls"}"#);
    let tool = &request.messages[3];
    assert_eq!(tool.role, "tool");
    assert_eq!(tool.tool_call_id.as_deref(), Some("call_prev"));
    assert_eq!(tool.content.as_deref(), Some("file.txt"));
    assert_eq!(request.tools[0].kind, "function");
    assert_eq!(request.tools[0].function.name, "run_shell_command");
    assert_eq!(request.tools[0].function.description, "Run a shell command");

    let events =
        expect_ok(run(vec![delta(r#"{"content":"ok"}"#, Some("stop")), message("[DONE]")]));
    assert_eq!(events, vec![AgentEvent::TextDelta("ok".to_string()), AgentEvent::Done]);
}

#[test]
fn arguments_are_read_in_the_order_of_their_keys() {
    let call = r#"{"tool_calls":[{"index":0,"id":"c","function":{"name":"f","arguments":"{\"b\":\"1\",\"a\":{\"z\":null,\"y\":true},\"b\":\"2\"}"}}]}"#;
    let events = expect_ok(run(vec![delta(call, Some("tool_calls")), message("[DONE]")]));
    assert_eq!(
        events,
        vec![
            AgentEvent::ToolCall(ToolCallRequest {
                id: "c".to_string(),
                name: "f".to_string(),
                arguments: object(vec![
                    ("a", object(vec![("y", Json::Bool(true)), ("z", Json::Null)])),
                    ("b", text("2")),
                ]),
            }),
            AgentEvent::Done,
        ]
    );
}

#[test]
fn base_url_already_ending_in_chat_completions_is_used_as_is() {
    let url = "http://127.0.0.1:1234/chat/completions";
    assert_eq!(endpoint_url(url), url);
    assert_eq!(endpoint_url("http://127.0.0.1:1234"), url);
    assert_eq!(endpoint_url("http://127.0.0.1:1234//"), url);
    assert_eq!(endpoint_url(&format!("{url}/")), url);
    assert_eq!(endpoint_url(""), "/chat/completions");

    let events =
        expect_ok(run(vec![delta(r#"{"content":"ok"}"#, Some("stop")), message("[DONE]")]));
    assert_eq!(events, vec![AgentEvent::TextDelta("ok".to_string()), AgentEvent::Done]);
}

fn failed(failure: SourceFailure) -> LocalAgentError {
    let mut results = run(vec![SourceItem::Failed(failure)]);
    assert_eq!(results.len(), 1);
    results.remove(0).expect_err("a failure of the source is an error")
}

#[test]
fn maps_401_to_invalid_api_key() {
    for status in [401, 403] {
        let error = failed(SourceFailure::InvalidStatusCode {
            status,
            body: r#"{"error":{"message":"Incorrect API key provided"}}"#.to_string(),
        });
        assert!(
            matches!(
                &error,
                LocalAgentError::InvalidApiKey { model_slug } if model_slug == "test-model"
            ),
            "expected InvalidApiKey, got {error:?}"
        );
        assert_eq!(error.message(), "invalid API key for test-model");
    }
}

#[test]
fn maps_context_overflow_400_to_context_window_exceeded() {
    let error = failed(SourceFailure::InvalidStatusCode {
        status: 400,
        body: r#"{"error":{"message":"This model's maximum context length is 8192 tokens.","code":"context_length_exceeded"}}"#.to_string(),
    });
    assert!(
        matches!(&error, LocalAgentError::ContextWindowExceeded { .. }),
        "expected ContextWindowExceeded, got {error:?}"
    );
}

#[test]
fn other_bad_requests_stay_error_statuses() {
    let error = failed(SourceFailure::InvalidStatusCode {
        status: 400,
        body: "no such parameter".to_string(),
    });
    assert_eq!(
        error,
        LocalAgentError::ErrorStatus { status: 400, body: "no such parameter".to_string() }
    );
    assert_eq!(error.message(), "endpoint returned 400: no such parameter");
}

#[test]
fn maps_server_errors_to_error_status() {
    let error = failed(SourceFailure::InvalidStatusCode {
        status: 503,
        body: "upstream unavailable".to_string(),
    });
    assert!(
        matches!(&error, LocalAgentError::ErrorStatus { status: 503, .. }),
        "expected ErrorStatus(503), got {error:?}"
    );
}

#[test]
fn other_failures_of_the_source_keep_their_message() {
    assert_eq!(
        failed(SourceFailure::InvalidContentType {
            content_type: "\"text/html\"".to_string(),
            body: "<html>".to_string(),
        }),
        LocalAgentError::Parse(
            "endpoint did not return an event stream (content-type \"text/html\"): <html>"
                .to_string()
        )
    );
    assert_eq!(
        failed(SourceFailure::Transport("reset".to_string())),
        LocalAgentError::Transport("reset".to_string())
    );
    assert_eq!(
        failed(SourceFailure::Utf8("bad byte".to_string())),
        LocalAgentError::Parse("bad byte".to_string())
    );
    assert_eq!(
        failed(SourceFailure::Parser("bad frame".to_string())),
        LocalAgentError::Parse("bad frame".to_string())
    );
    assert_eq!(
        failed(SourceFailure::InvalidLastEventId("7".to_string())),
        LocalAgentError::Parse("invalid last-event-id: 7".to_string())
    );
}

#[test]
fn stream_ending_without_finish_reason_is_a_transport_error() {
    let results = run(vec![
        delta(r#"{"content":"partial"}"#, None),
        SourceItem::Failed(SourceFailure::StreamEnded),
    ]);

    assert_eq!(
        results[0].as_ref().expect("first event should be the delta"),
        &AgentEvent::TextDelta("partial".to_string())
    );
    assert!(
        matches!(results.last(), Some(Err(LocalAgentError::Transport(_)))),
        "expected trailing Transport error, got {:?}",
        results.last()
    );
    assert!(
        !results.iter().any(|r| matches!(r, Ok(AgentEvent::Done))),
        "an interrupted stream must not report Done"
    );
}

#[test]
fn a_source_that_closes_after_the_model_finished_is_a_normal_end() {
    for end in [SourceItem::Closed, SourceItem::Failed(SourceFailure::StreamEnded)] {
        let results = run(vec![delta(r#"{"content":"ok"}"#, Some("stop")), end]);
        assert_eq!(
            expect_ok(results),
            vec![AgentEvent::TextDelta("ok".to_string()), AgentEvent::Done]
        );
    }
}

#[test]
fn the_end_marker_may_have_white_space_around_it() {
    let results = run(vec![message(" [DONE]\n")]);
    assert_eq!(expect_ok(results), vec![AgentEvent::Done]);
}

#[test]
fn the_end_marker_flushes_calls_without_a_finish_reason() {
    let results = run(vec![
        delta(
            r#"{"tool_calls":[{"index":0,"id":"c","function":{"name":"run_shell_command","arguments":"  "}}]}"#,
            None,
        ),
        done(),
    ]);
    assert_eq!(
        expect_ok(results),
        vec![
            AgentEvent::ToolCall(ToolCallRequest {
                id: "c".to_string(),
                name: "run_shell_command".to_string(),
                arguments: object(vec![]),
            }),
            AgentEvent::Done,
        ]
    );
}

#[test]
fn malformed_arguments_fail_the_turn() {
    let results = run(vec![
        delta(
            r#"{"tool_calls":[{"index":0,"id":"c","function":{"name":"grep","arguments":"{"}}]}"#,
            Some("tool_calls"),
        ),
    ]);
    assert_eq!(
        results,
        vec![Err(LocalAgentError::Parse(
            "tool call grep has malformed arguments: EOF while parsing an object at line 1 column 1"
                .to_string()
        ))]
    );
}

#[test]
fn arguments_are_read_in_all_their_kinds() {
    let results = run(vec![
        delta(
            r#"{"tool_calls":[{"index":0,"id":"c","function":{"name":"x","arguments":"{\"b\":[null,true,-3,1.5],\"a\":{\"n\":7}}"}}]}"#,
            Some("tool_calls"),
        ),
        done(),
    ]);
    let events = expect_ok(results);
    let AgentEvent::ToolCall(request) = &events[0] else {
        panic!("expected a tool call, got {:?}", events[0]);
    };
    let printed = build_request(
        &[ChatMessage::Assistant { text: "t".to_string(), tool_calls: vec![request.clone()] }],
        &[],
        &config(),
    );
    assert_eq!(
        printed.messages[0].tool_calls[0].function.arguments,
        r#"{"a":{"n":7},"b":[null,true,-3,1.5]}"#
    );
    assert_eq!(printed.messages[0].content.as_deref(), Some("t"));
}

#[test]
fn malformed_chunks_fail_the_turn() {
    let results = run(vec![message("{oops")]);
    assert_eq!(
        results,
        vec![Err(LocalAgentError::Parse(
            "malformed chunk: key must be a string at line 1 column 2: {oops".to_string()
        ))]
    );
}

#[test]
fn context_overflow_is_recognised_in_any_case() {
    assert!(looks_like_context_overflow("Maximum Context LENGTH is 10"));
    assert!(looks_like_context_overflow("xx prompt is too long"));
    assert!(looks_like_context_overflow("TOO MANY TOKENS"));
    assert!(looks_like_context_overflow("the context window"));
    assert!(!looks_like_context_overflow("context  window"));
    assert!(!looks_like_context_overflow(""));
}

#[test]
fn build_suggestion_system_prompt_pushes_a_single_actionable_suggestion() {
    let env = EnvironmentInfo {
        pwd: Some("/home/user/project".to_string()),
        ..Default::default()
    };

    let prompt = build_suggestion_system_prompt(&env);

    // Still environment-aware.
    assert!(prompt.contains("/home/user/project"));
    // Uses the suggestion tool.
    assert!(prompt.contains("suggest_prompt"));
    // Pushes a terse, runnable suggestion rather than an open-ended one.
    assert!(
        prompt.contains("actionable"),
        "suggestion prompt should ask for an actionable suggestion:\n{prompt}"
    );
    // Discourages the agent from over-working the accepted suggestion.
    assert!(
        prompt.to_lowercase().contains("do not"),
        "suggestion prompt should discourage extra work:\n{prompt}"
    );
}

#[test]
fn build_system_prompt_includes_environment_details() {
    let env = EnvironmentInfo {
        pwd: Some("/home/user/project".to_string()),
        operating_system: Some("linux".to_string()),
        shell: Some("zsh".to_string()),
        git_branch: Some("feature/x".to_string()),
        project_rules: vec!["Always run tests before committing.".to_string()],
        ..Default::default()
    };

    let prompt = build_system_prompt(&env);

    for needle in [
        "/home/user/project",
        "linux",
        "zsh",
        "feature/x",
        "Always run tests before committing.",
    ] {
        assert!(prompt.contains(needle), "prompt is missing {needle:?}:\n{prompt}");
    }
    assert!(prompt.ends_with(
        "- Working directory: /home/user/project\n- Shell: zsh\n- Operating system: linux\n\
         - Git branch: feature/x\n\n## Project rules\n\nThe user has configured the following \
         rules for this project. Follow them:\n\nAlways run tests before committing.\n"
    ));
}

#[test]
fn a_call_is_completed_with_what_its_arguments_were_read_as() {
    let partial = PartialToolCall {
        index: 0,
        id: "c".to_string(),
        name: "grep".to_string(),
        arguments: "[1]".to_string(),
    };
    assert_eq!(
        complete_call_with(partial.clone(), Ok(Json::Null)),
        Ok(AgentEvent::ToolCall(ToolCallRequest {
            id: "c".to_string(),
            name: "grep".to_string(),
            arguments: Json::Null,
        }))
    );
    assert_eq!(
        complete_call_with(partial, Err("no".to_string())),
        Err(LocalAgentError::Parse("tool call grep has malformed arguments: no".to_string()))
    );
}

#[test]
fn a_call_goes_out_with_its_arguments_as_text() {
    let request = ToolCallRequest {
        id: "c".to_string(),
        name: "grep".to_string(),
        arguments: Json::Null,
    };
    let outgoing = make_outgoing_call(&request, "{}".to_string());
    assert_eq!(outgoing.id, "c");
    assert_eq!(outgoing.kind, "function");
    assert_eq!(outgoing.function.name, "grep");
    assert_eq!(outgoing.function.arguments, "{}");
}

#[test]
fn errors_show_their_message() {
    assert_eq!(
        LocalAgentError::ContextWindowExceeded { message: "m".to_string() }.message(),
        "context window exceeded: m"
    );
    assert_eq!(LocalAgentError::Transport("t".to_string()).message(), "transport error: t");
    assert_eq!(LocalAgentError::Parse("p".to_string()).message(), "malformed response: p");
    assert_eq!(LocalAgentError::Unimplemented("u").message(), "not implemented: u");
    assert_eq!(
        AdapterError::UnsupportedInput("r").message(),
        "unsupported input for local agent loop: r"
    );
}

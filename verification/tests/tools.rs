//! The reading of tool arguments, the replay of logged calls, and the rendering
//! of results.

use local_agent::api::context::{
    AnyFileContent, AnyFileContentKind, BinaryFileContent, Dump, FileContent, FileContentLineRange,
    Opaque,
};
use local_agent::api::request::{McpContext, McpServer, McpTool};
use local_agent::api::result::{
    AnyFilesSuccess, ApplyFileDiffsOutcome, ApplyFileDiffsResult, ApplyFileDiffsSuccess,
    CallMcpToolContent, CallMcpToolEntry, CallMcpToolOutcome, CallMcpToolResult,
    CallMcpToolSuccess, CallMcpToolText, DeletedFile, FileGlobOutcome, FileGlobResult,
    FileGlobSuccess, FileGlobV2Match, FileGlobV2Outcome, FileGlobV2Result, FileGlobV2Success,
    GrepFileMatch, GrepLineMatch, GrepOutcome, GrepResult, GrepSuccess, McpBinaryContent,
    McpContentType, McpResourceContent, McpTextContent, ReadFilesOutcome, ReadFilesResult,
    ReadMcpResourceOutcome, ReadMcpResourceResult, ReadMcpResourceSuccess, ResultError,
    RunShellCommandOutcome, RunShellCommandResult, TextFilesSuccess, ToolCallResult, ToolResult,
    UpdatedFile,
};
use local_agent::api::tool::{
    ApplyFileDiffs, CallMcpTool, DeleteFile, DisplayMode, FileDiff, FileGlob, FileGlobV2, Grep,
    NewFile, PromptChip, ReadFile, ReadFiles, ReadMcpResource, RunShellCommand, SuggestPrompt,
    Tool, ToolCall, WaitUntilCompleteValue,
};
use local_agent::api::value::{ProtoValue, Struct};
use local_agent::json::{Json, JsonNumber};
use local_agent::registry::{mangle_mcp_tool_name, ToolRegistry};
use local_agent::render::render_tool_result_text;
use local_agent::structs::{json_value_to_prost, prost_value_to_json};
use local_agent::{AdapterError, ToolCallRequest};

fn text(value: &str) -> Json {
    Json::Text(value.to_string())
}

fn number(value: u64) -> Json {
    Json::Number(JsonNumber::PosInt(value))
}

fn object(entries: Vec<(&str, Json)>) -> Json {
    Json::Object(entries.into_iter().map(|(key, value)| (key.to_string(), value)).collect())
}

fn registry() -> ToolRegistry {
    ToolRegistry::new(None)
}

fn call(name: &str, arguments: Json) -> ToolCallRequest {
    ToolCallRequest { id: "c".to_string(), name: name.to_string(), arguments }
}

fn fault(name: &str, arguments: Json) -> String {
    match registry().to_proto_tool_call(&call(name, arguments)) {
        Err(AdapterError::BadToolArguments { tool, message }) => {
            assert_eq!(tool, name);
            message
        }
        other => panic!("expected malformed arguments, got {other:?}"),
    }
}

#[test]
fn faults_in_arguments_are_told_as_the_parser_tells_them() {
    assert_eq!(fault("run_shell_command", object(vec![])), "missing field `command`");
    assert_eq!(
        fault("run_shell_command", object(vec![("command", number(1))])),
        "invalid type: integer `1`, expected a string"
    );
    assert_eq!(
        fault(
            "run_shell_command",
            object(vec![("command", text("ls")), ("is_risky", text("no"))])
        ),
        "invalid type: string \"no\", expected a boolean"
    );
    assert_eq!(
        fault("run_shell_command", text("ls")),
        "invalid type: string \"ls\", expected struct RunShellCommandArgs"
    );
    assert_eq!(
        fault("run_shell_command", Json::Null),
        "invalid type: null, expected struct RunShellCommandArgs"
    );
    assert_eq!(
        fault("run_shell_command", Json::Array(vec![])),
        "invalid length 0, expected struct RunShellCommandArgs with 3 elements"
    );
    assert_eq!(
        fault("read_files", Json::Array(vec![])),
        "invalid length 0, expected struct ReadFilesArgs with 1 element"
    );
    assert_eq!(
        fault("grep", Json::Array(vec![Json::Array(vec![]), text(""), text("")])),
        "invalid length 3, expected fewer elements in array"
    );
    assert_eq!(
        fault("grep", object(vec![("queries", text("x"))])),
        "invalid type: string \"x\", expected a sequence"
    );
    assert_eq!(
        fault("grep", object(vec![("queries", Json::Array(vec![text("a"), Json::Null]))])),
        "invalid type: null, expected a string"
    );
    assert_eq!(
        fault("grep", object(vec![("queries", Json::Array(vec![])), ("queries", text(""))])),
        "duplicate field `queries`"
    );
}

fn ranged(start: Json, end: Json) -> Json {
    object(vec![(
        "files",
        Json::Array(vec![object(vec![
            ("line_ranges", Json::Array(vec![object(vec![("end", end), ("start", start)])])),
            ("path", text("a.rs")),
        ])]),
    )])
}

#[test]
fn line_numbers_must_fit_their_type() {
    assert_eq!(
        fault("read_files", ranged(number(1), number(4294967296))),
        "invalid value: integer `4294967296`, expected u32"
    );
    assert_eq!(
        fault("read_files", ranged(Json::Number(JsonNumber::NegInt(-1)), number(2))),
        "invalid value: integer `-1`, expected u32"
    );
    assert_eq!(
        fault("read_files", ranged(number(1), Json::Number(JsonNumber::Float("1.5".to_string())))),
        "invalid type: floating point `1.5`, expected u32"
    );
    let read = registry()
        .to_proto_tool_call(&call("read_files", ranged(number(3), number(4294967295))))
        .expect("mapping");
    assert_eq!(
        read.tool,
        Some(Tool::ReadFiles(ReadFiles {
            files: vec![ReadFile {
                name: "a.rs".to_string(),
                line_ranges: vec![FileContentLineRange { start: 3, end: 4294967295 }],
            }],
        }))
    );
}

#[test]
fn unknown_entries_are_ignored_and_arrays_stand_for_fields_in_order() {
    let by_name = registry()
        .to_proto_tool_call(&call(
            "grep",
            object(vec![
                ("other", Json::Null),
                ("path", text("src")),
                ("queries", Json::Array(vec![text("fn")])),
            ]),
        ))
        .expect("mapping");
    let by_position = registry()
        .to_proto_tool_call(&call(
            "grep",
            Json::Array(vec![Json::Array(vec![text("fn")]), text("src")]),
        ))
        .expect("mapping");
    let expected =
        Tool::Grep(Grep { queries: vec!["fn".to_string()], path: "src".to_string() });
    assert_eq!(by_name.tool, Some(expected.clone()));
    assert_eq!(by_position.tool, Some(expected));
}

#[test]
fn unknown_tools_are_named_in_the_error() {
    let error = registry().to_proto_tool_call(&call("nope", Json::Null)).expect_err("unknown");
    assert_eq!(error, AdapterError::UnknownTool("nope".to_string()));
    assert_eq!(error.message(), "unknown tool call from model: nope");
}

fn issued_tools() -> Vec<Tool> {
    vec![
        Tool::RunShellCommand(RunShellCommand {
            command: "ls".to_string(),
            is_read_only: true,
            is_risky: false,
            wait_until_complete_value: Some(WaitUntilCompleteValue::WaitUntilComplete(true)),
            ..Default::default()
        }),
        Tool::ReadFiles(ReadFiles {
            files: vec![
                ReadFile {
                    name: "a".to_string(),
                    line_ranges: vec![
                        FileContentLineRange { start: 1, end: 2 },
                        FileContentLineRange { start: 5, end: 9 },
                    ],
                },
                ReadFile { name: "b".to_string(), line_ranges: vec![] },
            ],
        }),
        Tool::ApplyFileDiffs(ApplyFileDiffs {
            summary: "s".to_string(),
            diffs: vec![FileDiff {
                file_path: "f".to_string(),
                search: "x".to_string(),
                replace: "y".to_string(),
            }],
            new_files: vec![NewFile {
                file_path: "n".to_string(),
                content: "c".to_string(),
                allow_overwrite: false,
            }],
            deleted_files: vec![DeleteFile { file_path: "d".to_string() }],
            ..Default::default()
        }),
        Tool::Grep(Grep { queries: vec!["q".to_string(), "r".to_string()], path: String::new() }),
        Tool::FileGlobV2(FileGlobV2 {
            patterns: vec!["*.rs".to_string()],
            search_dir: "src".to_string(),
            ..Default::default()
        }),
        Tool::ReadMcpResource(ReadMcpResource {
            uri: "u".to_string(),
            server_id: "s".to_string(),
        }),
        Tool::SuggestPrompt(SuggestPrompt {
            is_trigger_irrelevant: true,
            display_mode: Some(DisplayMode::PromptChip(PromptChip {
                prompt: "p".to_string(),
                label: "l".to_string(),
            })),
        }),
    ]
}

#[test]
fn replayed_calls_ask_for_the_logged_tool() {
    for tool in issued_tools() {
        let logged = ToolCall { tool_call_id: "id-7".to_string(), tool: Some(tool) };
        let replayed = registry().to_request_tool_call(&logged).expect("replay");
        assert_eq!(replayed.id, "id-7");
        assert_eq!(registry().to_proto_tool_call(&replayed), Ok(logged));
    }
}

#[test]
fn replay_tells_of_overwriting() {
    let logged = ToolCall {
        tool_call_id: "c1".to_string(),
        tool: Some(Tool::ApplyFileDiffs(ApplyFileDiffs {
            summary: "s".to_string(),
            new_files: vec![NewFile {
                file_path: "a.txt".to_string(),
                content: "x".to_string(),
                allow_overwrite: true,
            }],
            ..Default::default()
        })),
    };
    let replayed = registry().to_request_tool_call(&logged).expect("replay");
    assert_eq!(replayed.id, "c1");
    assert_eq!(replayed.name, "edit_files");
    assert_eq!(
        replayed.arguments.get("new_files"),
        Some(&Json::Array(vec![object(vec![
            ("allow_overwrite", Json::Bool(true)),
            ("content", text("x")),
            ("file_path", text("a.txt")),
        ])]))
    );
    assert_eq!(registry().to_proto_tool_call(&replayed), Ok(logged));
}

#[test]
fn tools_that_the_loop_cannot_express_are_not_replayed() {
    for tool in [
        None,
        Some(Tool::Other(Opaque::default())),
        Some(Tool::SuggestPrompt(SuggestPrompt::default())),
    ] {
        let logged = ToolCall { tool_call_id: "id".to_string(), tool };
        assert_eq!(registry().to_request_tool_call(&logged), None);
    }
    let superseded = ToolCall {
        tool_call_id: "id".to_string(),
        tool: Some(Tool::FileGlob(FileGlob {
            patterns: vec!["*".to_string()],
            path: "p".to_string(),
        })),
    };
    let replayed = registry().to_request_tool_call(&superseded).expect("replay");
    assert_eq!(replayed.name, "file_glob");
    assert_eq!(replayed.arguments.get("search_dir"), Some(&text("p")));
}

#[test]
fn mcp_tool_names_are_mangled() {
    assert_eq!(mangle_mcp_tool_name("My Server!", "do.it"), "mcp__My_Server___do_it");
    let long = mangle_mcp_tool_name(&"s".repeat(80), "t");
    assert_eq!(long.len(), 64);
    assert_eq!(mangle_mcp_tool_name("é", "ü"), "mcp______");
}

fn server(name: &str, id: &str, tools: Vec<(&str, &str)>) -> McpServer {
    McpServer {
        name: name.to_string(),
        id: id.to_string(),
        tools: tools
            .into_iter()
            .map(|(name, description)| McpTool {
                name: name.to_string(),
                description: description.to_string(),
                input_schema: None,
            })
            .collect(),
        ..Default::default()
    }
}

#[test]
fn mcp_tools_are_announced_in_the_order_of_their_names() {
    let context = McpContext {
        servers: vec![
            server("b", "1", vec![("z", "first"), ("y", "second")]),
            server("a", "2", vec![("x", "third")]),
            server("b", "3", vec![("y", "replaced")]),
        ],
        ..Default::default()
    };
    let registry = ToolRegistry::new(Some(&context));
    let announced = registry.definitions();
    let mcp: Vec<(String, String)> =
        announced[6..].iter().map(|d| (d.name.clone(), d.description.clone())).collect();
    assert_eq!(
        mcp,
        vec![
            ("mcp__a__x".to_string(), "third".to_string()),
            ("mcp__b__y".to_string(), "replaced".to_string()),
            ("mcp__b__z".to_string(), "first".to_string()),
        ]
    );
    assert_eq!(announced[6].parameters, object(vec![("type", text("object"))]));

    let bad = registry.to_proto_tool_call(&call("mcp__a__x", Json::Null)).expect_err("not an object");
    assert_eq!(
        bad.message(),
        "malformed tool arguments for mcp__a__x: MCP tool arguments must be a JSON object"
    );

    let logged = registry
        .to_proto_tool_call(&call("mcp__b__y", object(vec![("n", number(2))])))
        .expect("mapping");
    assert_eq!(
        logged.tool,
        Some(Tool::CallMcpTool(CallMcpTool {
            name: "y".to_string(),
            args: Some(Struct {
                fields: vec![("n".to_string(), ProtoValue::Number("2.0".to_string()))],
            }),
            server_id: "3".to_string(),
        }))
    );
    let replayed = registry.to_request_tool_call(&logged).expect("replay");
    assert_eq!(replayed.name, "mcp__b__y");
    assert_eq!(registry.to_proto_tool_call(&replayed), Ok(logged.clone()));
    // The server is gone: the name is made up again from what the log holds.
    let without = ToolRegistry::new(None).to_request_tool_call(&logged).expect("replay");
    assert_eq!(without.name, "mcp__3__y");
}

#[test]
fn json_comes_back_from_the_schemaless_form_with_doubles() {
    let json = object(vec![
        ("a", Json::Array(vec![Json::Null, Json::Bool(true), number(3)])),
        ("b", Json::Number(JsonNumber::NegInt(-4))),
        ("c", Json::Number(JsonNumber::Float("0.25".to_string()))),
        ("d", text("t")),
    ]);
    let back = prost_value_to_json(&json_value_to_prost(&json));
    assert_eq!(
        back,
        object(vec![
            (
                "a",
                Json::Array(vec![
                    Json::Null,
                    Json::Bool(true),
                    Json::Number(JsonNumber::Float("3.0".to_string())),
                ])
            ),
            ("b", Json::Number(JsonNumber::Float("-4.0".to_string()))),
            ("c", Json::Number(JsonNumber::Float("0.25".to_string()))),
            ("d", text("t")),
        ])
    );
    assert_eq!(prost_value_to_json(&ProtoValue::Unset), Json::Null);
    assert_eq!(prost_value_to_json(&ProtoValue::NonFinite), Json::Null);
}

#[test]
fn doubles_come_back_as_they_were() {
    let double = |text: &str| Json::Number(JsonNumber::Float(text.to_string()));
    let json = object(vec![
        ("a", Json::Array(vec![double("0.5"), Json::Null, double("-0.0"), double("1e+300")])),
        ("b", object(vec![("c", double("0.1")), ("d", double("5e-324"))])),
        ("e", double("100.0")),
        ("f", Json::Bool(true)),
    ]);
    assert_eq!(prost_value_to_json(&json_value_to_prost(&json)), json);

    // An integer comes back as a double, and from then on unchanged.
    let once = prost_value_to_json(&json_value_to_prost(&number(7)));
    assert_eq!(once, double("7.0"));
    assert_eq!(prost_value_to_json(&json_value_to_prost(&once)), once);
    let large = Json::Number(JsonNumber::PosInt(u64::MAX));
    let once = json_value_to_prost(&large);
    assert_eq!(json_value_to_prost(&prost_value_to_json(&once)), once);
}

fn shown(result: ToolResult) -> String {
    render_tool_result_text(&ToolCallResult {
        tool_call_id: "c".to_string(),
        context: None,
        result: Some(result),
    })
}

fn failure(message: &str) -> ResultError {
    ResultError { message: message.to_string() }
}

#[test]
fn shell_results_are_rendered() {
    assert_eq!(
        shown(ToolResult::RunShellCommand(RunShellCommandResult {
            result: None,
            exit_code: -1,
            output: "old".to_string(),
            ..Default::default()
        })),
        "Exit code: -1\n\nOutput:\nold"
    );
    assert_eq!(
        shown(ToolResult::RunShellCommand(RunShellCommandResult {
            result: Some(RunShellCommandOutcome::PermissionDenied(Opaque::default())),
            ..Default::default()
        })),
        "The user denied permission to run this command."
    );
    assert_eq!(
        shown(ToolResult::RunShellCommand(RunShellCommandResult {
            result: Some(RunShellCommandOutcome::LongRunningCommandSnapshot(Dump {
                text: "Snapshot".to_string(),
            })),
            ..Default::default()
        })),
        "The command is still running. Latest output snapshot:\nSnapshot"
    );
}

#[test]
fn file_results_are_rendered() {
    let file = FileContent {
        file_path: "a".to_string(),
        content: "x".to_string(),
        line_range: Some(FileContentLineRange { start: 10, end: 20 }),
    };
    let whole = FileContent { line_range: None, ..file.clone() };
    assert_eq!(
        shown(ToolResult::ReadFiles(ReadFilesResult {
            result: Some(ReadFilesOutcome::TextFilesSuccess(TextFilesSuccess {
                files: vec![file, whole.clone()],
            })),
        })),
        "=== a (lines 10-20) ===\nx\n\n=== a ===\nx"
    );
    assert_eq!(
        shown(ToolResult::ReadFiles(ReadFilesResult {
            result: Some(ReadFilesOutcome::AnyFilesSuccess(AnyFilesSuccess {
                files: vec![
                    AnyFileContent { content: Some(AnyFileContentKind::TextContent(whole)) },
                    AnyFileContent {
                        content: Some(AnyFileContentKind::BinaryContent(BinaryFileContent {
                            file_path: "b".to_string(),
                            data: vec![0; 12],
                        })),
                    },
                    AnyFileContent { content: None },
                ],
            })),
        })),
        "=== a ===\nx\n\n=== b ===\n(binary file, 12 bytes)\n\n(empty file entry)"
    );
    assert_eq!(shown(ToolResult::ReadFiles(ReadFilesResult { result: None })), "(no result)");
}

#[test]
fn edit_results_are_rendered() {
    assert_eq!(
        shown(ToolResult::ApplyFileDiffs(ApplyFileDiffsResult {
            result: Some(ApplyFileDiffsOutcome::Success(ApplyFileDiffsSuccess {
                updated_files_v2: vec![
                    UpdatedFile { file: None, ..Default::default() },
                    UpdatedFile {
                        file: Some(FileContent {
                            file_path: "u".to_string(),
                            ..Default::default()
                        }),
                        ..Default::default()
                    },
                ],
                deleted_files: vec![DeletedFile { file_path: "d".to_string() }],
                ..Default::default()
            })),
        })),
        "Edits applied successfully.\nUpdated: u\nDeleted: d"
    );
    assert_eq!(
        shown(ToolResult::ApplyFileDiffs(ApplyFileDiffsResult {
            result: Some(ApplyFileDiffsOutcome::Error(failure("no match"))),
        })),
        "Error: no match"
    );
    assert_eq!(
        shown(ToolResult::ApplyFileDiffs(ApplyFileDiffsResult { result: None })),
        "(no result)"
    );
}

#[test]
fn search_results_are_rendered() {
    assert_eq!(
        shown(ToolResult::Grep(GrepResult {
            result: Some(GrepOutcome::Success(GrepSuccess {
                matched_files: vec![
                    GrepFileMatch {
                        file_path: "a".to_string(),
                        matched_lines: vec![
                            GrepLineMatch { line_number: 1 },
                            GrepLineMatch { line_number: 120 },
                        ],
                    },
                    GrepFileMatch { file_path: "b".to_string(), matched_lines: vec![] },
                ],
            })),
        })),
        "a: lines 1, 120\nb: lines "
    );
    assert_eq!(
        shown(ToolResult::Grep(GrepResult {
            result: Some(GrepOutcome::Success(GrepSuccess::default())),
        })),
        "No matches found."
    );
    assert_eq!(
        shown(ToolResult::FileGlob(FileGlobResult {
            result: Some(FileGlobOutcome::Success(FileGlobSuccess {
                matched_files: "a\nb".to_string(),
            })),
        })),
        "a\nb"
    );
    assert_eq!(
        shown(ToolResult::FileGlob(FileGlobResult {
            result: Some(FileGlobOutcome::Success(FileGlobSuccess::default())),
        })),
        "No matches found."
    );
    let matched = |paths: Vec<&str>, warnings: &str| {
        shown(ToolResult::FileGlobV2(FileGlobV2Result {
            result: Some(FileGlobV2Outcome::Success(FileGlobV2Success {
                matched_files: paths
                    .into_iter()
                    .map(|path| FileGlobV2Match { file_path: path.to_string() })
                    .collect(),
                warnings: warnings.to_string(),
            })),
        }))
    };
    assert_eq!(matched(vec!["a", "b"], ""), "a\nb");
    assert_eq!(matched(vec![], ""), "No matches found.");
    assert_eq!(matched(vec![], "slow"), "No matches found.\n\nWarnings:\nslow");
}

#[test]
fn mcp_results_are_rendered() {
    let content = |content_type| McpResourceContent { uri: "u".to_string(), content_type };
    assert_eq!(
        shown(ToolResult::ReadMcpResource(ReadMcpResourceResult {
            result: Some(ReadMcpResourceOutcome::Success(ReadMcpResourceSuccess {
                contents: vec![
                    content(Some(McpContentType::Text(McpTextContent {
                        content: "t".to_string(),
                    }))),
                    content(Some(McpContentType::Binary(McpBinaryContent {
                        data: vec![1, 2],
                        mime_type: "image/png".to_string(),
                    }))),
                    content(None),
                ],
            })),
        })),
        "=== u ===\nt\n\n=== u ===\n(binary content, 2 bytes, image/png)\n\n=== u ===\n(empty)"
    );
    assert_eq!(
        shown(ToolResult::CallMcpTool(CallMcpToolResult {
            result: Some(CallMcpToolOutcome::Success(CallMcpToolSuccess {
                results: vec![
                    CallMcpToolEntry {
                        result: Some(CallMcpToolContent::Text(CallMcpToolText {
                            text: "hi".to_string(),
                        })),
                    },
                    CallMcpToolEntry {
                        result: Some(CallMcpToolContent::Other(Dump {
                            text: "Image".to_string(),
                        })),
                    },
                    CallMcpToolEntry { result: None },
                ],
            })),
        })),
        "hi\n(non-text MCP content: Image)\n(empty MCP content)"
    );
}

#[test]
fn results_of_no_tool_are_rendered() {
    assert_eq!(render_tool_result_text(&ToolCallResult::default()), "(no result)");
    assert_eq!(shown(ToolResult::Cancel), "The user canceled this tool call.");
    assert_eq!(shown(ToolResult::Other(Dump { text: "Todo".to_string() })), "Todo");
}

#[test]
fn entries_may_come_in_any_order() {
    let forward = object(vec![("command", text("ls")), ("is_read_only", Json::Bool(true))]);
    let backward = object(vec![("is_read_only", Json::Bool(true)), ("command", text("ls"))]);
    assert_eq!(
        registry().to_proto_tool_call(&call("run_shell_command", forward)),
        registry().to_proto_tool_call(&call("run_shell_command", backward)),
    );
}

#[test]
fn every_announced_tool_is_known() {
    let context = McpContext {
        servers: vec![server("a", "1", vec![("x", "d")])],
        ..Default::default()
    };
    for registry in
        [ToolRegistry::new(Some(&context)), ToolRegistry::for_passive_suggestions()]
    {
        for definition in registry.definitions() {
            let outcome = registry.to_proto_tool_call(&call(&definition.name, Json::Null));
            assert!(matches!(outcome, Err(AdapterError::BadToolArguments { .. })));
        }
    }
}

#[test]
fn announced_tools_have_different_names() {
    // Two servers whose tools mangle to one name, and one named like a built-in tool.
    let context = McpContext {
        servers: vec![
            server("a b", "1", vec![("x", "d"), ("grep", "d")]),
            server("a_b", "2", vec![("x", "d")]),
        ],
        ..Default::default()
    };
    let names: Vec<String> =
        ToolRegistry::new(Some(&context)).definitions().into_iter().map(|d| d.name).collect();
    assert_eq!(names.len(), 8);
    for i in 0..names.len() {
        for j in 0..i {
            assert_ne!(names[i], names[j]);
        }
    }
}

fn has_keys_in_order(json: &Json) -> bool {
    match json {
        Json::Array(items) => items.iter().all(has_keys_in_order),
        Json::Object(entries) => {
            entries.windows(2).all(|pair| pair[0].0 < pair[1].0)
                && entries.iter().all(|(_, value)| has_keys_in_order(value))
        }
        _ => true,
    }
}

#[test]
fn objects_have_their_keys_in_order() {
    let context = McpContext {
        servers: vec![server("a", "1", vec![("x", "d")])],
        ..Default::default()
    };
    for registry in
        [ToolRegistry::new(Some(&context)), ToolRegistry::for_passive_suggestions()]
    {
        for definition in registry.definitions() {
            assert!(has_keys_in_order(&definition.parameters), "{}", definition.name);
        }
    }
    for tool in issued_tools() {
        let logged = ToolCall { tool_call_id: "id".to_string(), tool: Some(tool) };
        let replayed = registry().to_request_tool_call(&logged).expect("replay");
        assert!(has_keys_in_order(&replayed.arguments), "{}", replayed.name);
    }
    let nested = object(vec![("a", object(vec![("b", Json::Null), ("c", Json::Null)]))]);
    assert!(has_keys_in_order(&prost_value_to_json(&json_value_to_prost(&nested))));
}

#[test]
fn required_properties_of_the_schemas_are_listed() {
    let required: Vec<(String, Option<Json>)> = registry()
        .definitions()
        .into_iter()
        .map(|d| (d.name, d.parameters.get("required").cloned()))
        .collect();
    let names = |list: &[&str]| Some(Json::Array(list.iter().map(|name| text(name)).collect()));
    assert_eq!(
        required,
        vec![
            ("run_shell_command".to_string(), names(&["command"])),
            ("read_files".to_string(), names(&["files"])),
            ("edit_files".to_string(), names(&["summary"])),
            ("grep".to_string(), names(&["queries"])),
            ("file_glob".to_string(), names(&["patterns"])),
            ("read_mcp_resource".to_string(), names(&["uri"])),
        ]
    );
}

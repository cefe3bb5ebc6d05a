//! The builtin tools as the model is told of them.

use vstd::prelude::*;

use crate::json;
use crate::json::{Json, JsonView};
use crate::keys;
use crate::model::{ToolDefinition, ToolDefinitionView};

verus! {

pub const RUN_SHELL_COMMAND: &'static str = "run_shell_command";

pub const READ_FILES: &'static str = "read_files";

pub const EDIT_FILES: &'static str = "edit_files";

pub const GREP: &'static str = "grep";

pub const FILE_GLOB: &'static str = "file_glob";

pub const READ_MCP_RESOURCE: &'static str = "read_mcp_resource";

pub const SUGGEST_PROMPT: &'static str = "suggest_prompt";

pub const RUN_SHELL_COMMAND_TEXT: &'static str =
    "Executes a shell command in the user's terminal and returns its output and exit \
     code. The command runs to completion before the result is returned; there is no \
     interactive input.";

pub const READ_FILES_TEXT: &'static str =
    "Reads the contents of one or more files, optionally restricted to specific line \
     ranges.";

pub const EDIT_FILES_TEXT: &'static str =
    "Edits files via exact search/replace blocks, creates new files, and deletes files. \
     Each diff's `search` must match the file contents exactly (including whitespace) and \
     is replaced by `replace`.";

pub const GREP_TEXT: &'static str =
    "Searches file contents for the given regular expressions and returns matching files \
     and line numbers.";

pub const FILE_GLOB_TEXT: &'static str =
    "Finds files whose names match the given glob patterns (supports ?, * and []).";

pub const READ_MCP_RESOURCE_TEXT: &'static str =
    "Reads an MCP resource identified by its URI.";

pub const SUGGEST_PROMPT_TEXT: &'static str =
    "Proposes one follow-up prompt the user could send to the AI agent. Call at most \
     once, and only when a genuinely useful, concrete follow-up exists for the provided \
     context.";

/// The schema of a value of a type.
pub open spec fn typed(kind: Seq<char>) -> JsonView {
    JsonView::Object(seq![("type"@, JsonView::Text(kind))])
}

/// The schema of a value of a type, with a description.
pub open spec fn described(kind: Seq<char>, description: Seq<char>) -> JsonView {
    JsonView::Object(
        seq![("description"@, JsonView::Text(description)), ("type"@, JsonView::Text(kind))],
    )
}

/// The schema of a list.
pub open spec fn list_of(items: JsonView) -> JsonView {
    JsonView::Object(seq![("items"@, items), ("type"@, JsonView::Text("array"@))])
}

/// The schema of a list, with a description.
pub open spec fn described_list(items: JsonView, description: Seq<char>) -> JsonView {
    JsonView::Object(
        seq![
            ("description"@, JsonView::Text(description)),
            ("items"@, items),
            ("type"@, JsonView::Text("array"@)),
        ],
    )
}

/// The schema of an object with named properties, some of which it must have.
pub open spec fn record(
    properties: Seq<(Seq<char>, JsonView)>,
    required: Seq<Seq<char>>,
) -> JsonView {
    JsonView::Object(
        seq![
            ("properties"@, JsonView::Object(properties)),
            ("required"@, JsonView::Array(required.map_values(|name: Seq<char>| JsonView::Text(name)))),
            ("type"@, JsonView::Text("object"@)),
        ],
    )
}

fn make_typed(kind: &str) -> (schema: Json)
    ensures
        schema.deep_view() == typed(kind@),
{
    let schema = json::json_object(vec![("type".to_string(), json::json_text(kind))]);
    assert(schema.deep_view()->Object_0 =~= typed(kind@)->Object_0);
    schema
}

fn make_described(kind: &str, description: &str) -> (schema: Json)
    ensures
        schema.deep_view() == described(kind@, description@),
{
    let schema = json::json_object(
        vec![
            ("description".to_string(), json::json_text(description)),
            ("type".to_string(), json::json_text(kind)),
        ],
    );
    assert(schema.deep_view()->Object_0 =~= described(kind@, description@)->Object_0);
    schema
}

fn make_list_of(items: Json) -> (schema: Json)
    ensures
        schema.deep_view() == list_of(items.deep_view()),
{
    let schema = json::json_object(
        vec![("items".to_string(), items), ("type".to_string(), json::json_text("array"))],
    );
    assert(schema.deep_view()->Object_0 =~= list_of(items.deep_view())->Object_0);
    schema
}

fn make_described_list(items: Json, description: &str) -> (schema: Json)
    ensures
        schema.deep_view() == described_list(items.deep_view(), description@),
{
    let schema = json::json_object(
        vec![
            ("description".to_string(), json::json_text(description)),
            ("items".to_string(), items),
            ("type".to_string(), json::json_text("array")),
        ],
    );
    assert(schema.deep_view()->Object_0 =~= described_list(
        items.deep_view(),
        description@,
    )->Object_0);
    schema
}

fn make_record(properties: Vec<(String, Json)>, required: Vec<String>) -> (schema: Json)
    ensures
        schema.deep_view() == record(properties.deep_view(), required.deep_view()),
{
    let mut names: Vec<Json> = Vec::new();
    for i in 0..required.len()
        invariant
            names@.len() == i,
            forall|k: int|
                0 <= k < i ==> (#[trigger] names@[k]).deep_view() == JsonView::Text(required@[k]@),
    {
        names.push(json::json_text(required[i].as_str()));
    }
    assert(names.deep_view() =~= required.deep_view().map_values(
        |name: Seq<char>| JsonView::Text(name),
    ));
    let schema = json::json_object(
        vec![
            ("properties".to_string(), json::json_object(properties)),
            ("required".to_string(), json::json_array(names)),
            ("type".to_string(), json::json_text("object")),
        ],
    );
    assert(schema.deep_view()->Object_0 =~= record(
        properties.deep_view(),
        required.deep_view(),
    )->Object_0);
    schema
}

/// The schema of the arguments of `run_shell_command`.
pub open spec fn run_shell_command_schema() -> JsonView {
    record(
        seq![
            (
                "command"@,
                described(
                    "string"@,
                    "The exact shell command to execute."@,
                ),
            ),
            (
                "is_read_only"@,
                described(
                    "boolean"@,
                    "True if the command only reads state and has no side effects."@,
                ),
            ),
            (
                "is_risky"@,
                described(
                    "boolean"@,
                    "True if the command could have destructive or hard-to-reverse effects."@,
                ),
            ),
        ],
        seq!["command"@],
    )
}

fn make_run_shell_command_schema() -> (schema: Json)
    ensures
        schema.deep_view() == run_shell_command_schema(),
{
    let properties: Vec<(String, Json)> = vec![
        ("command".to_string(), make_described(
            "string",
            "The exact shell command to execute.",
        )),
        ("is_read_only".to_string(), make_described(
            "boolean",
            "True if the command only reads state and has no side effects.",
        )),
        ("is_risky".to_string(), make_described(
            "boolean",
            "True if the command could have destructive or hard-to-reverse effects.",
        )),
    ];
    let required: Vec<String> = vec!["command".to_string()];
    assert(properties.deep_view() =~= run_shell_command_schema()->Object_0[0].1->Object_0);
    assert(required.deep_view() =~= seq!["command"@]);
    make_record(properties, required)
}

/// How `run_shell_command` is announced.
pub open spec fn run_shell_command_announced() -> ToolDefinitionView {
    ToolDefinitionView {
        name: RUN_SHELL_COMMAND@,
        description: RUN_SHELL_COMMAND_TEXT@,
        parameters: run_shell_command_schema(),
    }
}

fn run_shell_command_definition() -> (definition: ToolDefinition)
    ensures
        definition.deep_view() == run_shell_command_announced(),
{
    ToolDefinition {
        name: RUN_SHELL_COMMAND.to_string(),
        description: RUN_SHELL_COMMAND_TEXT.to_string(),
        parameters: make_run_shell_command_schema(),
    }
}

/// The schema of a range of lines.
pub open spec fn line_range_schema() -> JsonView {
    record(
        seq![
            (
                "end"@,
                described(
                    "integer"@,
                    "Last line, 1-based, inclusive."@,
                ),
            ),
            (
                "start"@,
                described(
                    "integer"@,
                    "First line, 1-based, inclusive."@,
                ),
            ),
        ],
        seq!["start"@, "end"@],
    )
}

fn make_line_range_schema() -> (schema: Json)
    ensures
        schema.deep_view() == line_range_schema(),
{
    let properties: Vec<(String, Json)> = vec![
        ("end".to_string(), make_described(
            "integer",
            "Last line, 1-based, inclusive.",
        )),
        ("start".to_string(), make_described(
            "integer",
            "First line, 1-based, inclusive.",
        )),
    ];
    let required: Vec<String> = vec!["start".to_string(), "end".to_string()];
    assert(properties.deep_view() =~= line_range_schema()->Object_0[0].1->Object_0);
    assert(required.deep_view() =~= seq!["start"@, "end"@]);
    make_record(properties, required)
}

/// The schema of a file to read.
pub open spec fn file_schema() -> JsonView {
    record(
        seq![
            ("line_ranges"@, list_of(line_range_schema())),
            (
                "path"@,
                described(
                    "string"@,
                    "Path to the file."@,
                ),
            ),
        ],
        seq!["path"@],
    )
}

fn make_file_schema() -> (schema: Json)
    ensures
        schema.deep_view() == file_schema(),
{
    let properties: Vec<(String, Json)> = vec![
        ("line_ranges".to_string(), make_list_of(make_line_range_schema())),
        ("path".to_string(), make_described(
            "string",
            "Path to the file.",
        )),
    ];
    let required: Vec<String> = vec!["path".to_string()];
    assert(properties.deep_view() =~= file_schema()->Object_0[0].1->Object_0);
    assert(required.deep_view() =~= seq!["path"@]);
    make_record(properties, required)
}

/// The schema of the arguments of `read_files`.
pub open spec fn read_files_schema() -> JsonView {
    record(
        seq![
            ("files"@, list_of(file_schema())),
        ],
        seq!["files"@],
    )
}

fn make_read_files_schema() -> (schema: Json)
    ensures
        schema.deep_view() == read_files_schema(),
{
    let properties: Vec<(String, Json)> = vec![
        ("files".to_string(), make_list_of(make_file_schema())),
    ];
    let required: Vec<String> = vec!["files".to_string()];
    assert(properties.deep_view() =~= read_files_schema()->Object_0[0].1->Object_0);
    assert(required.deep_view() =~= seq!["files"@]);
    make_record(properties, required)
}

/// How `read_files` is announced.
pub open spec fn read_files_announced() -> ToolDefinitionView {
    ToolDefinitionView {
        name: READ_FILES@,
        description: READ_FILES_TEXT@,
        parameters: read_files_schema(),
    }
}

fn read_files_definition() -> (definition: ToolDefinition)
    ensures
        definition.deep_view() == read_files_announced(),
{
    ToolDefinition {
        name: READ_FILES.to_string(),
        description: READ_FILES_TEXT.to_string(),
        parameters: make_read_files_schema(),
    }
}

/// The schema of one replacement in a file.
pub open spec fn diff_schema() -> JsonView {
    record(
        seq![
            ("file_path"@, typed("string"@)),
            (
                "replace"@,
                described(
                    "string"@,
                    "Text to replace it with."@,
                ),
            ),
            (
                "search"@,
                described(
                    "string"@,
                    "Exact text to find in the file."@,
                ),
            ),
        ],
        seq!["file_path"@, "search"@, "replace"@],
    )
}

fn make_diff_schema() -> (schema: Json)
    ensures
        schema.deep_view() == diff_schema(),
{
    let properties: Vec<(String, Json)> = vec![
        ("file_path".to_string(), make_typed("string")),
        ("replace".to_string(), make_described(
            "string",
            "Text to replace it with.",
        )),
        ("search".to_string(), make_described(
            "string",
            "Exact text to find in the file.",
        )),
    ];
    let required: Vec<String> = vec!["file_path".to_string(), "search".to_string(), "replace".to_string()];
    assert(properties.deep_view() =~= diff_schema()->Object_0[0].1->Object_0);
    assert(required.deep_view() =~= seq!["file_path"@, "search"@, "replace"@]);
    make_record(properties, required)
}

/// The schema of a file to create.
pub open spec fn new_file_schema() -> JsonView {
    record(
        seq![
            ("allow_overwrite"@, typed("boolean"@)),
            ("content"@, typed("string"@)),
            ("file_path"@, typed("string"@)),
        ],
        seq!["file_path"@, "content"@],
    )
}

fn make_new_file_schema() -> (schema: Json)
    ensures
        schema.deep_view() == new_file_schema(),
{
    let properties: Vec<(String, Json)> = vec![
        ("allow_overwrite".to_string(), make_typed("boolean")),
        ("content".to_string(), make_typed("string")),
        ("file_path".to_string(), make_typed("string")),
    ];
    let required: Vec<String> = vec!["file_path".to_string(), "content".to_string()];
    assert(properties.deep_view() =~= new_file_schema()->Object_0[0].1->Object_0);
    assert(required.deep_view() =~= seq!["file_path"@, "content"@]);
    make_record(properties, required)
}

/// The schema of the arguments of `edit_files`.
pub open spec fn edit_files_schema() -> JsonView {
    record(
        seq![
            ("deleted_files"@, described_list(typed("string"@), "Paths of files to delete."@)),
            ("diffs"@, list_of(diff_schema())),
            ("new_files"@, list_of(new_file_schema())),
            (
                "summary"@,
                described(
                    "string"@,
                    "A short human-readable summary of the change."@,
                ),
            ),
        ],
        seq!["summary"@],
    )
}

fn make_edit_files_schema() -> (schema: Json)
    ensures
        schema.deep_view() == edit_files_schema(),
{
    let properties: Vec<(String, Json)> = vec![
        ("deleted_files".to_string(), make_described_list(make_typed("string"), "Paths of files to delete.")),
        ("diffs".to_string(), make_list_of(make_diff_schema())),
        ("new_files".to_string(), make_list_of(make_new_file_schema())),
        ("summary".to_string(), make_described(
            "string",
            "A short human-readable summary of the change.",
        )),
    ];
    let required: Vec<String> = vec!["summary".to_string()];
    assert(properties.deep_view() =~= edit_files_schema()->Object_0[0].1->Object_0);
    assert(required.deep_view() =~= seq!["summary"@]);
    make_record(properties, required)
}

/// How `edit_files` is announced.
pub open spec fn edit_files_announced() -> ToolDefinitionView {
    ToolDefinitionView {
        name: EDIT_FILES@,
        description: EDIT_FILES_TEXT@,
        parameters: edit_files_schema(),
    }
}

fn edit_files_definition() -> (definition: ToolDefinition)
    ensures
        definition.deep_view() == edit_files_announced(),
{
    ToolDefinition {
        name: EDIT_FILES.to_string(),
        description: EDIT_FILES_TEXT.to_string(),
        parameters: make_edit_files_schema(),
    }
}

/// The schema of the arguments of `grep`.
pub open spec fn grep_schema() -> JsonView {
    record(
        seq![
            (
                "path"@,
                described(
                    "string"@,
                    "Directory or file to search in. Defaults to the working directory."@,
                ),
            ),
            ("queries"@, described_list(typed("string"@), "Regular expressions to search for."@)),
        ],
        seq!["queries"@],
    )
}

fn make_grep_schema() -> (schema: Json)
    ensures
        schema.deep_view() == grep_schema(),
{
    let properties: Vec<(String, Json)> = vec![
        ("path".to_string(), make_described(
            "string",
            "Directory or file to search in. Defaults to the working directory.",
        )),
        ("queries".to_string(), make_described_list(make_typed("string"), "Regular expressions to search for.")),
    ];
    let required: Vec<String> = vec!["queries".to_string()];
    assert(properties.deep_view() =~= grep_schema()->Object_0[0].1->Object_0);
    assert(required.deep_view() =~= seq!["queries"@]);
    make_record(properties, required)
}

/// How `grep` is announced.
pub open spec fn grep_announced() -> ToolDefinitionView {
    ToolDefinitionView {
        name: GREP@,
        description: GREP_TEXT@,
        parameters: grep_schema(),
    }
}

fn grep_definition() -> (definition: ToolDefinition)
    ensures
        definition.deep_view() == grep_announced(),
{
    ToolDefinition {
        name: GREP.to_string(),
        description: GREP_TEXT.to_string(),
        parameters: make_grep_schema(),
    }
}

/// The schema of the arguments of `file_glob`.
pub open spec fn file_glob_schema() -> JsonView {
    record(
        seq![
            ("patterns"@, described_list(typed("string"@), "Glob patterns to match file names against."@)),
            (
                "search_dir"@,
                described(
                    "string"@,
                    "Directory to search in. Defaults to the working directory."@,
                ),
            ),
        ],
        seq!["patterns"@],
    )
}

fn make_file_glob_schema() -> (schema: Json)
    ensures
        schema.deep_view() == file_glob_schema(),
{
    let properties: Vec<(String, Json)> = vec![
        ("patterns".to_string(), make_described_list(make_typed("string"), "Glob patterns to match file names against.")),
        ("search_dir".to_string(), make_described(
            "string",
            "Directory to search in. Defaults to the working directory.",
        )),
    ];
    let required: Vec<String> = vec!["patterns".to_string()];
    assert(properties.deep_view() =~= file_glob_schema()->Object_0[0].1->Object_0);
    assert(required.deep_view() =~= seq!["patterns"@]);
    make_record(properties, required)
}

/// How `file_glob` is announced.
pub open spec fn file_glob_announced() -> ToolDefinitionView {
    ToolDefinitionView {
        name: FILE_GLOB@,
        description: FILE_GLOB_TEXT@,
        parameters: file_glob_schema(),
    }
}

fn file_glob_definition() -> (definition: ToolDefinition)
    ensures
        definition.deep_view() == file_glob_announced(),
{
    ToolDefinition {
        name: FILE_GLOB.to_string(),
        description: FILE_GLOB_TEXT.to_string(),
        parameters: make_file_glob_schema(),
    }
}

/// The schema of the arguments of `read_mcp_resource`.
pub open spec fn read_mcp_resource_schema() -> JsonView {
    record(
        seq![
            (
                "server_id"@,
                described(
                    "string"@,
                    "Identifier of the MCP server providing the resource."@,
                ),
            ),
            (
                "uri"@,
                described(
                    "string"@,
                    "URI of the resource to read."@,
                ),
            ),
        ],
        seq!["uri"@],
    )
}

fn make_read_mcp_resource_schema() -> (schema: Json)
    ensures
        schema.deep_view() == read_mcp_resource_schema(),
{
    let properties: Vec<(String, Json)> = vec![
        ("server_id".to_string(), make_described(
            "string",
            "Identifier of the MCP server providing the resource.",
        )),
        ("uri".to_string(), make_described(
            "string",
            "URI of the resource to read.",
        )),
    ];
    let required: Vec<String> = vec!["uri".to_string()];
    assert(properties.deep_view() =~= read_mcp_resource_schema()->Object_0[0].1->Object_0);
    assert(required.deep_view() =~= seq!["uri"@]);
    make_record(properties, required)
}

/// How `read_mcp_resource` is announced.
pub open spec fn read_mcp_resource_announced() -> ToolDefinitionView {
    ToolDefinitionView {
        name: READ_MCP_RESOURCE@,
        description: READ_MCP_RESOURCE_TEXT@,
        parameters: read_mcp_resource_schema(),
    }
}

fn read_mcp_resource_definition() -> (definition: ToolDefinition)
    ensures
        definition.deep_view() == read_mcp_resource_announced(),
{
    ToolDefinition {
        name: READ_MCP_RESOURCE.to_string(),
        description: READ_MCP_RESOURCE_TEXT.to_string(),
        parameters: make_read_mcp_resource_schema(),
    }
}

/// The schema of the arguments of `suggest_prompt`.
pub open spec fn suggest_prompt_schema() -> JsonView {
    record(
        seq![
            (
                "is_trigger_irrelevant"@,
                described(
                    "boolean"@,
                    "True if the suggestion is useful but unrelated to the event that triggered it."@,
                ),
            ),
            (
                "label"@,
                described(
                    "string"@,
                    "Optional short display label; omit to display the prompt itself."@,
                ),
            ),
            (
                "prompt"@,
                described(
                    "string"@,
                    "The full prompt to send to the agent if the user accepts the suggestion."@,
                ),
            ),
        ],
        seq!["prompt"@],
    )
}

fn make_suggest_prompt_schema() -> (schema: Json)
    ensures
        schema.deep_view() == suggest_prompt_schema(),
{
    let properties: Vec<(String, Json)> = vec![
        ("is_trigger_irrelevant".to_string(), make_described(
            "boolean",
            "True if the suggestion is useful but unrelated to the event that triggered it.",
        )),
        ("label".to_string(), make_described(
            "string",
            "Optional short display label; omit to display the prompt itself.",
        )),
        ("prompt".to_string(), make_described(
            "string",
            "The full prompt to send to the agent if the user accepts the suggestion.",
        )),
    ];
    let required: Vec<String> = vec!["prompt".to_string()];
    assert(properties.deep_view() =~= suggest_prompt_schema()->Object_0[0].1->Object_0);
    assert(required.deep_view() =~= seq!["prompt"@]);
    make_record(properties, required)
}

/// How `suggest_prompt` is announced.
pub open spec fn suggest_prompt_announced() -> ToolDefinitionView {
    ToolDefinitionView {
        name: SUGGEST_PROMPT@,
        description: SUGGEST_PROMPT_TEXT@,
        parameters: suggest_prompt_schema(),
    }
}

/// The one tool of a passive suggestion turn.
pub fn suggest_prompt_definition() -> (definition: ToolDefinition)
    ensures
        definition.deep_view() == suggest_prompt_announced(),
        json::keyed(definition.deep_view().parameters),
{
    proof {
        keys::builtins_are_keyed();
    }
    ToolDefinition {
        name: SUGGEST_PROMPT.to_string(),
        description: SUGGEST_PROMPT_TEXT.to_string(),
        parameters: make_suggest_prompt_schema(),
    }
}

/// How the builtin tools of an agent turn are announced, in order.
pub open spec fn builtins_announced() -> Seq<ToolDefinitionView> {
    seq![
        run_shell_command_announced(),
        read_files_announced(),
        edit_files_announced(),
        grep_announced(),
        file_glob_announced(),
        read_mcp_resource_announced(),
    ]
}

/// The builtin tools of an agent turn.
pub fn builtin_definitions() -> (definitions: Vec<ToolDefinition>)
    ensures
        definitions.deep_view() == builtins_announced(),
        keys::keyed_definitions(definitions.deep_view()),
{
    proof {
        keys::builtins_are_keyed();
    }
    let definitions: Vec<ToolDefinition> = vec![
        run_shell_command_definition(),
        read_files_definition(),
        edit_files_definition(),
        grep_definition(),
        file_glob_definition(),
        read_mcp_resource_definition(),
    ];
    assert(definitions.deep_view() =~= builtins_announced());
    definitions
}

} // verus!

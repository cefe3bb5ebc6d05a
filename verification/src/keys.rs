//! The order of keys: every object that the library builds has its entries in the order of their
//! keys, and no key twice.

use vstd::prelude::*;

use crate::api::context::FileContentLineRangeView;
use crate::api::request::{McpContextView, McpServerView};
use crate::api::tool::{
    ApplyFileDiffsView, DeleteFileView, DisplayModeView, FileDiffView, GrepView, NewFileView, PromptChipView,
    ReadFileView, ReadFilesView, ReadMcpResourceView, RunShellCommandView, ToolCallView, ToolView,
};
use crate::calls;
use crate::definitions;
use crate::json;
use crate::json::JsonView;
use crate::model::{AgentEventView, ToolDefinitionView};
use crate::registry;
use crate::registry::{McpEntryView, ToolRegistryView};
use crate::structs;
use crate::text;

verus! {

/// Whether the schemas of a request's MCP tools have their keys in order.
pub open spec fn keyed_context(mcp: McpContextView) -> bool {
    forall|i: int| 0 <= i < mcp.servers.len() ==> keyed_server(#[trigger] mcp.servers[i])
}

/// Whether the schemas of a server's tools have their keys in order.
pub open spec fn keyed_server(server: McpServerView) -> bool {
    forall|i: int|
        0 <= i < server.tools.len() ==> ((#[trigger] server.tools[i]).input_schema matches Some(
            schema,
        ) ==> structs::keyed_struct(schema))
}

/// Whether the schemas of the MCP tools have their keys in order.
pub open spec fn keyed_entries(entries: Seq<McpEntryView>) -> bool {
    forall|i: int|
        0 <= i < entries.len() ==> json::keyed((#[trigger] entries[i]).binding.parameters)
}

/// Whether the schemas of announced tools have their keys in order.
pub open spec fn keyed_definitions(definitions: Seq<ToolDefinitionView>) -> bool {
    forall|i: int|
        0 <= i < definitions.len() ==> json::keyed((#[trigger] definitions[i]).parameters)
}

/// Whether the arguments of a logged call of an MCP tool have their keys in order. Those of the
/// other tools are no objects.
pub open spec fn keyed_call(call: ToolCallView) -> bool {
    call.tool matches Some(ToolView::CallMcpTool(tool)) ==> (tool.args matches Some(arguments)
        ==> structs::keyed_struct(arguments))
}

/// Whether the arguments of a tool call among events have their keys in order.
pub open spec fn keyed_events(events: Seq<AgentEventView>) -> bool {
    forall|i: int| 0 <= i < events.len() ==> keyed_event(#[trigger] events[i])
}

/// Whether an event, where it is a tool call, has arguments with their keys in order.
pub open spec fn keyed_event(event: AgentEventView) -> bool {
    event matches AgentEventView::ToolCall(call) ==> json::keyed(call.arguments)
}

proof fn pair_is_keyed(entries: Seq<(Seq<char>, JsonView)>)
    requires
        entries.len() == 2,
        text::below(entries[0].0, entries[1].0),
        json::keyed(entries[0].1),
        json::keyed(entries[1].1),
    ensures
        json::keyed(JsonView::Object(entries)),
{
}

proof fn triple_is_keyed(entries: Seq<(Seq<char>, JsonView)>)
    requires
        entries.len() == 3,
        text::below(entries[0].0, entries[1].0),
        text::below(entries[1].0, entries[2].0),
        json::keyed(entries[0].1),
        json::keyed(entries[1].1),
        json::keyed(entries[2].1),
    ensures
        json::keyed(JsonView::Object(entries)),
{
    text::text_order(entries[0].0, entries[1].0, entries[2].0);
}

proof fn quadruple_is_keyed(entries: Seq<(Seq<char>, JsonView)>)
    requires
        entries.len() == 4,
        text::below(entries[0].0, entries[1].0),
        text::below(entries[1].0, entries[2].0),
        text::below(entries[2].0, entries[3].0),
        json::keyed(entries[0].1),
        json::keyed(entries[1].1),
        json::keyed(entries[2].1),
        json::keyed(entries[3].1),
    ensures
        json::keyed(JsonView::Object(entries)),
{
    text::text_order(entries[0].0, entries[1].0, entries[2].0);
    text::text_order(entries[0].0, entries[2].0, entries[3].0);
    text::text_order(entries[1].0, entries[2].0, entries[3].0);
}

proof fn texts_keyed(texts: Seq<Seq<char>>)
    ensures
        json::keyed(calls::text_list(texts)),
{
    let items = calls::text_list(texts)->Array_0;
    assert forall|i: int| 0 <= i < items.len() implies json::keyed(#[trigger] items[i]) by {
        assert(items[i] == JsonView::Text(texts[i]));
    }
}

proof fn shell_args_keyed(shell: RunShellCommandView)
    ensures
        json::keyed(calls::shell_args(shell)),
{
    reveal_strlit("command");
    reveal_strlit("is_read_only");
    reveal_strlit("is_risky");
    text::below_by("command"@, "is_read_only"@, 0);
    text::below_by("is_read_only"@, "is_risky"@, 4);
    triple_is_keyed(calls::shell_args(shell)->Object_0);
}

proof fn line_range_args_keyed(range: FileContentLineRangeView)
    ensures
        json::keyed(calls::line_range_args(range)),
{
    reveal_strlit("end");
    reveal_strlit("start");
    text::below_by("end"@, "start"@, 0);
    pair_is_keyed(calls::line_range_args(range)->Object_0);
}

proof fn read_file_args_keyed(file: ReadFileView)
    ensures
        json::keyed(calls::read_file_args(file)),
{
    let ranges = file.line_ranges.map_values(
        |range: FileContentLineRangeView| calls::line_range_args(range),
    );
    assert forall|i: int| 0 <= i < ranges.len() implies json::keyed(#[trigger] ranges[i]) by {
        line_range_args_keyed(file.line_ranges[i]);
    }
    assert(json::keyed(JsonView::Array(ranges)));
    reveal_strlit("line_ranges");
    reveal_strlit("path");
    text::below_by("line_ranges"@, "path"@, 0);
    pair_is_keyed(calls::read_file_args(file)->Object_0);
}

proof fn read_files_args_keyed(read: ReadFilesView)
    ensures
        json::keyed(calls::read_files_args(read)),
{
    let files = read.files.map_values(|file: ReadFileView| calls::read_file_args(file));
    assert forall|i: int| 0 <= i < files.len() implies json::keyed(#[trigger] files[i]) by {
        read_file_args_keyed(read.files[i]);
    }
    assert(json::keyed(JsonView::Array(files)));
    assert(calls::read_files_args(read)->Object_0.len() == 1);
}

proof fn diff_args_keyed(diff: FileDiffView)
    ensures
        json::keyed(calls::diff_args(diff)),
{
    reveal_strlit("file_path");
    reveal_strlit("replace");
    reveal_strlit("search");
    text::below_by("file_path"@, "replace"@, 0);
    text::below_by("replace"@, "search"@, 0);
    triple_is_keyed(calls::diff_args(diff)->Object_0);
}

proof fn new_file_args_keyed(file: NewFileView)
    ensures
        json::keyed(calls::new_file_args(file)),
{
    reveal_strlit("allow_overwrite");
    reveal_strlit("content");
    reveal_strlit("file_path");
    text::below_by("allow_overwrite"@, "content"@, 0);
    text::below_by("content"@, "file_path"@, 0);
    triple_is_keyed(calls::new_file_args(file)->Object_0);
}

proof fn edits_args_keyed(edits: ApplyFileDiffsView)
    ensures
        json::keyed(calls::edits_args(edits)),
{
    let diffs = edits.diffs.map_values(|diff: FileDiffView| calls::diff_args(diff));
    assert forall|i: int| 0 <= i < diffs.len() implies json::keyed(#[trigger] diffs[i]) by {
        diff_args_keyed(edits.diffs[i]);
    }
    assert(json::keyed(JsonView::Array(diffs)));
    let files = edits.new_files.map_values(|file: NewFileView| calls::new_file_args(file));
    assert forall|i: int| 0 <= i < files.len() implies json::keyed(#[trigger] files[i]) by {
        new_file_args_keyed(edits.new_files[i]);
    }
    assert(json::keyed(JsonView::Array(files)));
    texts_keyed(edits.deleted_files.map_values(|file: DeleteFileView| file.file_path));
    reveal_strlit("deleted_files");
    reveal_strlit("diffs");
    reveal_strlit("new_files");
    reveal_strlit("summary");
    text::below_by("deleted_files"@, "diffs"@, 1);
    text::below_by("diffs"@, "new_files"@, 0);
    text::below_by("new_files"@, "summary"@, 0);
    quadruple_is_keyed(calls::edits_args(edits)->Object_0);
}

proof fn grep_args_keyed(grep: GrepView)
    ensures
        json::keyed(calls::grep_args(grep)),
{
    texts_keyed(grep.queries);
    reveal_strlit("path");
    reveal_strlit("queries");
    text::below_by("path"@, "queries"@, 0);
    pair_is_keyed(calls::grep_args(grep)->Object_0);
}

proof fn glob_args_keyed(patterns: Seq<Seq<char>>, search_dir: Seq<char>)
    ensures
        json::keyed(calls::glob_args(patterns, search_dir)),
{
    texts_keyed(patterns);
    reveal_strlit("patterns");
    reveal_strlit("search_dir");
    text::below_by("patterns"@, "search_dir"@, 0);
    pair_is_keyed(calls::glob_args(patterns, search_dir)->Object_0);
}

proof fn resource_args_keyed(read: ReadMcpResourceView)
    ensures
        json::keyed(calls::resource_args(read)),
{
    reveal_strlit("server_id");
    reveal_strlit("uri");
    text::below_by("server_id"@, "uri"@, 0);
    pair_is_keyed(calls::resource_args(read)->Object_0);
}

proof fn suggestion_args_keyed(irrelevant: bool, chip: PromptChipView)
    ensures
        json::keyed(calls::suggestion_args(irrelevant, chip)),
{
    reveal_strlit("is_trigger_irrelevant");
    reveal_strlit("label");
    reveal_strlit("prompt");
    text::below_by("is_trigger_irrelevant"@, "label"@, 0);
    text::below_by("label"@, "prompt"@, 0);
    triple_is_keyed(calls::suggestion_args(irrelevant, chip)->Object_0);
}

/// The arguments with which a logged call is replayed have their keys in order. Those of an MCP
/// tool have where the logged ones have.
pub proof fn replayed_arguments_are_keyed(registry: ToolRegistryView, call: ToolCallView)
    requires
        keyed_call(call),
    ensures
        registry::replayed_call(registry, call) matches Some(request) ==> json::keyed(
            request.arguments,
        ),
{
    match call.tool {
        Some(ToolView::RunShellCommand(shell)) => {
            shell_args_keyed(shell);
        },
        Some(ToolView::ReadFiles(read)) => {
            read_files_args_keyed(read);
        },
        Some(ToolView::ApplyFileDiffs(edits)) => {
            edits_args_keyed(edits);
        },
        Some(ToolView::Grep(grep)) => {
            grep_args_keyed(grep);
        },
        Some(ToolView::FileGlob(glob)) => {
            glob_args_keyed(glob.patterns, glob.path);
        },
        Some(ToolView::FileGlobV2(glob)) => {
            glob_args_keyed(glob.patterns, glob.search_dir);
        },
        Some(ToolView::ReadMcpResource(read)) => {
            resource_args_keyed(read);
        },
        Some(ToolView::SuggestPrompt(suggest)) => {
            if let Some(DisplayModeView::PromptChip(chip)) = suggest.display_mode {
                suggestion_args_keyed(suggest.is_trigger_irrelevant, chip);
            }
        },
        Some(ToolView::CallMcpTool(tool)) => {
            if tool.args is Some {
                structs::struct_keeps_keys(tool.args->0);
            }
        },
        _ => {},
    }
}

proof fn typed_keyed(kind: Seq<char>)
    ensures
        json::keyed(definitions::typed(kind)),
{
    assert(json::keyed(JsonView::Text(kind)));
}

proof fn described_keyed()
    ensures
        forall|kind: Seq<char>, description: Seq<char>|
            json::keyed(#[trigger] definitions::described(kind, description)),
{
    reveal_strlit("description");
    reveal_strlit("type");
    text::below_by("description"@, "type"@, 0);
    assert forall|kind: Seq<char>, description: Seq<char>| json::keyed(
        #[trigger] definitions::described(kind, description),
    ) by {
        pair_is_keyed(definitions::described(kind, description)->Object_0);
    }
}

proof fn list_keyed(items: JsonView)
    requires
        json::keyed(items),
    ensures
        json::keyed(definitions::list_of(items)),
{
    reveal_strlit("items");
    reveal_strlit("type");
    text::below_by("items"@, "type"@, 0);
    pair_is_keyed(definitions::list_of(items)->Object_0);
}

proof fn described_list_keyed(items: JsonView)
    requires
        json::keyed(items),
    ensures
        forall|description: Seq<char>|
            json::keyed(#[trigger] definitions::described_list(items, description)),
{
    reveal_strlit("description");
    reveal_strlit("items");
    reveal_strlit("type");
    text::below_by("description"@, "items"@, 0);
    text::below_by("items"@, "type"@, 0);
    assert forall|description: Seq<char>| json::keyed(
        #[trigger] definitions::described_list(items, description),
    ) by {
        triple_is_keyed(definitions::described_list(items, description)->Object_0);
    }
}

proof fn record_keyed(properties: Seq<(Seq<char>, JsonView)>, required: Seq<Seq<char>>)
    requires
        json::keyed(JsonView::Object(properties)),
    ensures
        json::keyed(definitions::record(properties, required)),
{
    texts_keyed(required);
    reveal_strlit("properties");
    reveal_strlit("required");
    reveal_strlit("type");
    text::below_by("properties"@, "required"@, 0);
    text::below_by("required"@, "type"@, 0);
    triple_is_keyed(definitions::record(properties, required)->Object_0);
}

proof fn run_shell_command_schema_keyed()
    ensures
        json::keyed(definitions::run_shell_command_schema()),
{
    described_keyed();
    let properties = definitions::run_shell_command_schema()->Object_0[0].1->Object_0;
    reveal_strlit("command");
    reveal_strlit("is_read_only");
    reveal_strlit("is_risky");
    text::below_by("command"@, "is_read_only"@, 0);
    text::below_by("is_read_only"@, "is_risky"@, 4);
    triple_is_keyed(properties);
    record_keyed(properties, seq!["command"@]);
}

proof fn line_range_schema_keyed()
    ensures
        json::keyed(definitions::line_range_schema()),
{
    described_keyed();
    let properties = definitions::line_range_schema()->Object_0[0].1->Object_0;
    reveal_strlit("end");
    reveal_strlit("start");
    text::below_by("end"@, "start"@, 0);
    pair_is_keyed(properties);
    record_keyed(properties, seq!["start"@, "end"@]);
}

proof fn file_schema_keyed()
    ensures
        json::keyed(definitions::file_schema()),
{
    described_keyed();
    line_range_schema_keyed();
    list_keyed(definitions::line_range_schema());
    let properties = definitions::file_schema()->Object_0[0].1->Object_0;
    reveal_strlit("line_ranges");
    reveal_strlit("path");
    text::below_by("line_ranges"@, "path"@, 0);
    pair_is_keyed(properties);
    record_keyed(properties, seq!["path"@]);
}

proof fn read_files_schema_keyed()
    ensures
        json::keyed(definitions::read_files_schema()),
{
    file_schema_keyed();
    list_keyed(definitions::file_schema());
    let properties = definitions::read_files_schema()->Object_0[0].1->Object_0;
    record_keyed(properties, seq!["files"@]);
}

proof fn diff_schema_keyed()
    ensures
        json::keyed(definitions::diff_schema()),
{
    described_keyed();
    typed_keyed("string"@);
    let properties = definitions::diff_schema()->Object_0[0].1->Object_0;
    reveal_strlit("file_path");
    reveal_strlit("replace");
    reveal_strlit("search");
    text::below_by("file_path"@, "replace"@, 0);
    text::below_by("replace"@, "search"@, 0);
    triple_is_keyed(properties);
    record_keyed(properties, seq!["file_path"@, "search"@, "replace"@]);
}

proof fn new_file_schema_keyed()
    ensures
        json::keyed(definitions::new_file_schema()),
{
    typed_keyed("boolean"@);
    typed_keyed("string"@);
    let properties = definitions::new_file_schema()->Object_0[0].1->Object_0;
    reveal_strlit("allow_overwrite");
    reveal_strlit("content");
    reveal_strlit("file_path");
    text::below_by("allow_overwrite"@, "content"@, 0);
    text::below_by("content"@, "file_path"@, 0);
    triple_is_keyed(properties);
    record_keyed(properties, seq!["file_path"@, "content"@]);
}

proof fn edit_files_schema_keyed()
    ensures
        json::keyed(definitions::edit_files_schema()),
{
    described_keyed();
    diff_schema_keyed();
    list_keyed(definitions::diff_schema());
    new_file_schema_keyed();
    list_keyed(definitions::new_file_schema());
    typed_keyed("string"@);
    described_list_keyed(definitions::typed("string"@));
    let properties = definitions::edit_files_schema()->Object_0[0].1->Object_0;
    reveal_strlit("deleted_files");
    reveal_strlit("diffs");
    reveal_strlit("new_files");
    reveal_strlit("summary");
    text::below_by("deleted_files"@, "diffs"@, 1);
    text::below_by("diffs"@, "new_files"@, 0);
    text::below_by("new_files"@, "summary"@, 0);
    quadruple_is_keyed(properties);
    record_keyed(properties, seq!["summary"@]);
}

proof fn grep_schema_keyed()
    ensures
        json::keyed(definitions::grep_schema()),
{
    described_keyed();
    typed_keyed("string"@);
    described_list_keyed(definitions::typed("string"@));
    let properties = definitions::grep_schema()->Object_0[0].1->Object_0;
    reveal_strlit("path");
    reveal_strlit("queries");
    text::below_by("path"@, "queries"@, 0);
    pair_is_keyed(properties);
    record_keyed(properties, seq!["queries"@]);
}

proof fn file_glob_schema_keyed()
    ensures
        json::keyed(definitions::file_glob_schema()),
{
    described_keyed();
    typed_keyed("string"@);
    described_list_keyed(definitions::typed("string"@));
    let properties = definitions::file_glob_schema()->Object_0[0].1->Object_0;
    reveal_strlit("patterns");
    reveal_strlit("search_dir");
    text::below_by("patterns"@, "search_dir"@, 0);
    pair_is_keyed(properties);
    record_keyed(properties, seq!["patterns"@]);
}

proof fn read_mcp_resource_schema_keyed()
    ensures
        json::keyed(definitions::read_mcp_resource_schema()),
{
    described_keyed();
    let properties = definitions::read_mcp_resource_schema()->Object_0[0].1->Object_0;
    reveal_strlit("server_id");
    reveal_strlit("uri");
    text::below_by("server_id"@, "uri"@, 0);
    pair_is_keyed(properties);
    record_keyed(properties, seq!["uri"@]);
}

proof fn suggest_prompt_schema_keyed()
    ensures
        json::keyed(definitions::suggest_prompt_schema()),
{
    described_keyed();
    let properties = definitions::suggest_prompt_schema()->Object_0[0].1->Object_0;
    reveal_strlit("is_trigger_irrelevant");
    reveal_strlit("label");
    reveal_strlit("prompt");
    text::below_by("is_trigger_irrelevant"@, "label"@, 0);
    text::below_by("label"@, "prompt"@, 0);
    triple_is_keyed(properties);
    record_keyed(properties, seq!["prompt"@]);
}

/// The schemas of the builtin tools have their keys in order.
pub proof fn builtins_are_keyed()
    ensures
        keyed_definitions(definitions::builtins_announced()),
        json::keyed(definitions::suggest_prompt_announced().parameters),
{
    run_shell_command_schema_keyed();
    read_files_schema_keyed();
    edit_files_schema_keyed();
    grep_schema_keyed();
    file_glob_schema_keyed();
    read_mcp_resource_schema_keyed();
    suggest_prompt_schema_keyed();
}

/// The schemas that a turn announces have their keys in order, where those of its MCP tools have.
pub proof fn announced_is_keyed(registry: ToolRegistryView)
    requires
        keyed_entries(registry.mcp_tools),
    ensures
        keyed_definitions(registry::announced(registry)),
{
    builtins_are_keyed();
    let all = registry::announced(registry);
    let builtins = definitions::builtins_announced();
    assert forall|i: int| 0 <= i < all.len() implies json::keyed(
        (#[trigger] all[i]).parameters,
    ) by {
        if !registry.suggestion_only {
            if i < builtins.len() {
                assert(all[i] == builtins[i]);
            } else {
                assert(all[i].parameters == registry.mcp_tools[i
                    - builtins.len()].binding.parameters);
            }
        }
    }
}

proof fn tools_are_keyed(entries: Seq<McpEntryView>, server: McpServerView, count: nat)
    requires
        count <= server.tools.len(),
        keyed_entries(entries),
        keyed_server(server),
    ensures
        keyed_entries(registry::with_tools(entries, server, count)),
    decreases count,
{
    if count > 0 {
        tools_are_keyed(entries, server, (count - 1) as nat);
        let before = registry::with_tools(entries, server, (count - 1) as nat);
        let entry = registry::entry_for(server, server.tools[count - 1]);
        if let Some(schema) = server.tools[count - 1].input_schema {
            structs::struct_keeps_keys(schema);
        } else {
            assert(json::keyed(JsonView::Text("object"@)));
        }
        registry::slot_is_first(before, entry.name, 0);
        let after = registry::bound(before, entry);
        let at = registry::slot(before, entry.name, 0) as int;
        assert forall|i: int| 0 <= i < after.len() implies json::keyed(
            (#[trigger] after[i]).binding.parameters,
        ) by {
            if i < at {
                assert(after[i] == before[i]);
            } else if i == at {
                assert(after[i] == entry);
            } else if after.len() == before.len() {
                assert(after[i] == before[i]);
            } else {
                assert(after[i] == before[i - 1]);
            }
        }
    }
}

/// The schemas of a request's MCP tools keep their keys in order.
pub proof fn servers_are_keyed(servers: Seq<McpServerView>, count: nat)
    requires
        count <= servers.len(),
        forall|i: int| 0 <= i < servers.len() ==> keyed_server(#[trigger] servers[i]),
    ensures
        keyed_entries(registry::with_servers(servers, count)),
    decreases count,
{
    if count > 0 {
        servers_are_keyed(servers, (count - 1) as nat);
        tools_are_keyed(
            registry::with_servers(servers, (count - 1) as nat),
            servers[count - 1],
            servers[count - 1].tools.len(),
        );
    }
}

} // verus!

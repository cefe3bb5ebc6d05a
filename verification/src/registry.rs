//! The tools that a turn offers to the model: the builtin ones, and those of the
//! MCP servers of the request under names that a model can call them by.

use vstd::prelude::*;

use crate::api::context;
use crate::api::context::Opaque;
use crate::api::request::{
    McpContext, McpContextView, McpServer, McpServerView, McpTool, McpToolView,
};
use crate::api::tool::{
    CallMcpTool, CallMcpToolView, DisplayMode, DisplayModeView, Tool, ToolCall, ToolCallView,
    ToolView,
};
use crate::args;
use crate::args::Record;
use crate::calls;
use crate::definitions;
use crate::json;
use crate::json::{Json, JsonView};
use crate::keys;
use crate::model::{
    AdapterError, AdapterErrorView, ToolCallRequest, ToolCallRequestView, ToolDefinition,
    ToolDefinitionView,
};
use crate::structs;
use crate::text;

verus! {

/// What an MCP tool's name stands for.
#[derive(Debug, PartialEq, Default)]
pub struct McpToolBinding {
    pub server_id: String,
    pub tool_name: String,
    pub description: String,
    pub parameters: Json,
}

#[verifier::ext_equal]
pub struct McpToolBindingView {
    pub server_id: Seq<char>,
    pub tool_name: Seq<char>,
    pub description: Seq<char>,
    pub parameters: JsonView,
}

impl DeepView for McpToolBinding {
    type V = McpToolBindingView;

    open spec fn deep_view(&self) -> McpToolBindingView {
        McpToolBindingView {
            server_id: self.server_id@,
            tool_name: self.tool_name@,
            description: self.description@,
            parameters: self.parameters.deep_view(),
        }
    }
}

impl Clone for McpToolBinding {
    fn clone(&self) -> (copy: Self)
        ensures
            copy.deep_view() == self.deep_view(),
    {
        McpToolBinding {
            server_id: self.server_id.clone(),
            tool_name: self.tool_name.clone(),
            description: self.description.clone(),
            parameters: self.parameters.clone(),
        }
    }
}

/// An MCP tool under the name that the model calls it by.
#[derive(Debug, PartialEq, Default)]
pub struct McpEntry {
    pub name: String,
    pub binding: McpToolBinding,
}

#[verifier::ext_equal]
pub struct McpEntryView {
    pub name: Seq<char>,
    pub binding: McpToolBindingView,
}

impl DeepView for McpEntry {
    type V = McpEntryView;

    open spec fn deep_view(&self) -> McpEntryView {
        McpEntryView {
            name: self.name@,
            binding: self.binding.deep_view(),
        }
    }
}

impl Clone for McpEntry {
    fn clone(&self) -> (copy: Self)
        ensures
            copy.deep_view() == self.deep_view(),
    {
        McpEntry {
            name: self.name.clone(),
            binding: self.binding.clone(),
        }
    }
}

/// The tools of one turn.
#[derive(Debug, PartialEq, Default)]
pub struct ToolRegistry {
    /// In the order of their names, no name twice, as [`in_order`] has it.
    pub mcp_tools: Vec<McpEntry>,
    /// Whether the turn offers the suggestion tool and no other.
    pub suggestion_only: bool,
}

#[verifier::ext_equal]
pub struct ToolRegistryView {
    pub mcp_tools: Seq<McpEntryView>,
    pub suggestion_only: bool,
}

impl DeepView for ToolRegistry {
    type V = ToolRegistryView;

    open spec fn deep_view(&self) -> ToolRegistryView {
        ToolRegistryView {
            mcp_tools: self.mcp_tools.deep_view(),
            suggestion_only: self.suggestion_only,
        }
    }
}

impl Clone for ToolRegistry {
    fn clone(&self) -> (copy: Self)
        ensures
            copy.deep_view() == self.deep_view(),
    {
        let copy = ToolRegistry {
            mcp_tools: self.mcp_tools.clone(),
            suggestion_only: self.suggestion_only,
        };
        assert(copy.mcp_tools.deep_view() =~= self.mcp_tools.deep_view());
        copy
    }
}

/// Whether a character may stand in a tool name.
pub open spec fn name_char(c: char) -> bool {
    ||| 'a' <= c <= 'z'
    ||| 'A' <= c <= 'Z'
    ||| '0' <= c <= '9'
    ||| c == '_'
    ||| c == '-'
}

/// A character, or `_` where it may not stand in a tool name.
pub open spec fn sanitized_char(c: char) -> char {
    if name_char(c) {
        c
    } else {
        '_'
    }
}

/// A text with `_` for each character that may not stand in a tool name.
pub open spec fn sanitized(value: Seq<char>) -> Seq<char> {
    value.map_values(|c: char| sanitized_char(c))
}

/// The longest name that a tool may have.
pub const NAME_LIMIT: usize = 64;

/// The tool name for an MCP server and one of its tools.
pub open spec fn mangled(server: Seq<char>, tool: Seq<char>) -> Seq<char> {
    let name = "mcp__"@ + sanitized(server) + "__"@ + sanitized(tool);
    if name.len() > NAME_LIMIT {
        name.take(NAME_LIMIT as int)
    } else {
        name
    }
}

fn sanitize(value: &str) -> (result: String)
    ensures
        result@ == sanitized(value@),
{
    let chars = text::chars_of(value);
    let mut result = String::new();
    for i in 0..chars.len()
        invariant
            chars@ == value@,
            result@.len() == i,
            forall|k: int| 0 <= k < i ==> #[trigger] result@[k] == sanitized_char(value@[k]),
    {
        let c: char = chars[i];
        if ('a' <= c && c <= 'z') || ('A' <= c && c <= 'Z') || ('0' <= c && c <= '9') || c == '_'
            || c == '-' {
            result.push(c);
        } else {
            result.push('_');
        }
    }
    assert(result@ =~= sanitized(value@));
    result
}

/// The tool name for an MCP server and one of its tools: of the characters that
/// OpenAI-compatible servers accept, and no longer than they accept.
pub fn mangle_mcp_tool_name(server: &str, tool: &str) -> (name: String)
    ensures
        name@ == mangled(server@, tool@),
{
    let mut name = "mcp__".to_string();
    name.append(sanitize(server).as_str());
    name.append("__");
    name.append(sanitize(tool).as_str());
    let chars = text::chars_of(name.as_str());
    if chars.len() > NAME_LIMIT {
        text::text_of(&chars, 0, NAME_LIMIT)
    } else {
        name
    }
}

/// A mangled name keeps within the limit and the accepted characters.
pub proof fn mangled_name_is_accepted(server: Seq<char>, tool: Seq<char>)
    ensures
        mangled(server, tool).len() <= NAME_LIMIT,
        text::starts_with(mangled(server, tool), "mcp__"@),
        forall|i: int|
            0 <= i < mangled(server, tool).len() ==> name_char(#[trigger] mangled(server, tool)[i]),
{
    reveal_strlit("mcp__");
    reveal_strlit("__");
    let name = "mcp__"@ + sanitized(server) + "__"@ + sanitized(tool);
    assert(name.len() >= 5);
    assert forall|i: int| 0 <= i < name.len() implies name_char(#[trigger] name[i]) by {
        let s = sanitized(server).len() as int;
        if i < 5 {
        } else if i < 5 + s {
            assert(name[i] == sanitized(server)[i - 5]);
        } else if i < 7 + s {
        } else {
            assert(name[i] == sanitized(tool)[i - 7 - s]);
        }
    }
    assert(mangled(server, tool).subrange(0, 5) =~= "mcp__"@);
}

/// The first position from `from` on that does not come before `name`.
pub open spec fn slot(entries: Seq<McpEntryView>, name: Seq<char>, from: nat) -> nat
    decreases entries.len() - from,
{
    if from >= entries.len() {
        entries.len()
    } else if text::below(entries[from as int].name, name) {
        slot(entries, name, from + 1)
    } else {
        from
    }
}

/// The entries with `entry` in its place. It replaces the one of its name.
pub open spec fn bound(entries: Seq<McpEntryView>, entry: McpEntryView) -> Seq<McpEntryView> {
    let at = slot(entries, entry.name, 0) as int;
    if at < entries.len() && entries[at].name == entry.name {
        entries.update(at, entry)
    } else {
        entries.insert(at, entry)
    }
}

/// The entries are in the order of their names, and no name occurs twice.
pub open spec fn in_order(entries: Seq<McpEntryView>) -> bool {
    forall|i: int, j: int|
        0 <= i < j < entries.len() ==> text::below(
            (#[trigger] entries[i]).name,
            (#[trigger] entries[j]).name,
        )
}

/// The position of the entry named `name` among the first `count`.
pub open spec fn entry_index(entries: Seq<McpEntryView>, name: Seq<char>, count: nat) -> Option<int>
    decreases count,
{
    if count == 0 {
        None
    } else {
        match entry_index(entries, name, (count - 1) as nat) {
            Some(at) => Some(at),
            None => if entries[count - 1].name == name {
                Some(count - 1)
            } else {
                None
            },
        }
    }
}

/// The position of the first entry among the first `count` that stands for a server's tool.
pub open spec fn owner_index(
    entries: Seq<McpEntryView>,
    server_id: Seq<char>,
    tool_name: Seq<char>,
    count: nat,
) -> Option<int>
    decreases count,
{
    if count == 0 {
        None
    } else {
        match owner_index(entries, server_id, tool_name, (count - 1) as nat) {
            Some(at) => Some(at),
            None => if entries[count - 1].binding.server_id == server_id && entries[count
                - 1].binding.tool_name == tool_name {
                Some(count - 1)
            } else {
                None
            },
        }
    }
}

/// The schema of a tool that names none of its own.
pub open spec fn any_object() -> JsonView {
    JsonView::Object(seq![("type"@, JsonView::Text("object"@))])
}

/// The entry for a tool of an MCP server.
pub open spec fn entry_for(server: McpServerView, tool: McpToolView) -> McpEntryView {
    McpEntryView {
        name: mangled(server.name, tool.name),
        binding: McpToolBindingView {
            server_id: server.id,
            tool_name: tool.name,
            description: tool.description,
            parameters: match tool.input_schema {
                Some(schema) => structs::object_of(schema),
                None => any_object(),
            },
        },
    }
}

/// The entries after the first `count` tools of a server were bound.
pub open spec fn with_tools(
    entries: Seq<McpEntryView>,
    server: McpServerView,
    count: nat,
) -> Seq<McpEntryView>
    decreases count,
{
    if count == 0 {
        entries
    } else {
        bound(
            with_tools(entries, server, (count - 1) as nat),
            entry_for(server, server.tools[count - 1]),
        )
    }
}

/// The entries for all tools of the first `count` servers.
pub open spec fn with_servers(servers: Seq<McpServerView>, count: nat) -> Seq<McpEntryView>
    decreases count,
{
    if count == 0 {
        Seq::empty()
    } else {
        with_tools(
            with_servers(servers, (count - 1) as nat),
            servers[count - 1],
            servers[count - 1].tools.len(),
        )
    }
}

/// The registry of an agent turn.
pub open spec fn agent_registry(mcp_context: Option<McpContextView>) -> ToolRegistryView {
    ToolRegistryView {
        mcp_tools: match mcp_context {
            Some(mcp) => with_servers(mcp.servers, mcp.servers.len()),
            None => Seq::empty(),
        },
        suggestion_only: false,
    }
}

/// The registry of a passive suggestion turn.
pub open spec fn suggestion_registry() -> ToolRegistryView {
    ToolRegistryView { mcp_tools: Seq::empty(), suggestion_only: true }
}

/// How an MCP tool is announced.
pub open spec fn mcp_announced(entry: McpEntryView) -> ToolDefinitionView {
    ToolDefinitionView {
        name: entry.name,
        description: entry.binding.description,
        parameters: entry.binding.parameters,
    }
}

/// The tools that a registry announces to the model: the one suggestion tool, or the
/// builtin tools followed by the MCP tools in the order of their names.
pub open spec fn announced(registry: ToolRegistryView) -> Seq<ToolDefinitionView> {
    if registry.suggestion_only {
        seq![definitions::suggest_prompt_announced()]
    } else {
        definitions::builtins_announced() + registry.mcp_tools.map_values(
            |entry: McpEntryView| mcp_announced(entry),
        )
    }
}

/// The record that a builtin tool reads its arguments as.
pub open spec fn builtin_record(name: Seq<char>) -> Option<Record> {
    if name == definitions::RUN_SHELL_COMMAND@ {
        Some(Record::RunShellCommandArgs)
    } else if name == definitions::READ_FILES@ {
        Some(Record::ReadFilesArgs)
    } else if name == definitions::EDIT_FILES@ {
        Some(Record::EditFilesArgs)
    } else if name == definitions::GREP@ {
        Some(Record::GrepArgs)
    } else if name == definitions::FILE_GLOB@ {
        Some(Record::FileGlobArgs)
    } else if name == definitions::READ_MCP_RESOURCE@ {
        Some(Record::ReadMcpResourceArgs)
    } else if name == definitions::SUGGEST_PROMPT@ {
        Some(Record::SuggestPromptArgs)
    } else {
        None
    }
}

/// The tool that the arguments of a builtin tool ask for, once they are read.
pub open spec fn builtin_tool(record: Record, row: JsonView) -> ToolView {
    match record {
        Record::RunShellCommandArgs => ToolView::RunShellCommand(calls::shell_of(row)),
        Record::ReadFilesArgs => ToolView::ReadFiles(calls::read_files_of(row)),
        Record::EditFilesArgs => ToolView::ApplyFileDiffs(calls::edits_of(row)),
        Record::GrepArgs => ToolView::Grep(calls::grep_of(row)),
        Record::FileGlobArgs => ToolView::FileGlobV2(calls::glob_of(row)),
        Record::ReadMcpResourceArgs => ToolView::ReadMcpResource(calls::resource_of(row)),
        Record::SuggestPromptArgs => ToolView::SuggestPrompt(calls::suggestion_of(row)),
        _ => ToolView::Other(context::nothing()),
    }
}

pub open spec fn bad_arguments(tool: Seq<char>, message: Seq<char>) -> AdapterErrorView {
    AdapterErrorView::BadToolArguments { tool, message }
}

/// The tool that a model's call asks for, or why it asks for none.
pub open spec fn requested_tool(
    registry: ToolRegistryView,
    name: Seq<char>,
    arguments: JsonView,
) -> Result<ToolView, AdapterErrorView> {
    match builtin_record(name) {
        Some(record) => match args::read_record(record, arguments) {
            Ok(row) => Ok(builtin_tool(record, row)),
            Err(message) => Err(bad_arguments(name, message)),
        },
        None => match entry_index(registry.mcp_tools, name, registry.mcp_tools.len()) {
            Some(at) => match arguments {
                JsonView::Object(entries) => Ok(
                    ToolView::CallMcpTool(
                        CallMcpToolView {
                            name: registry.mcp_tools[at].binding.tool_name,
                            args: Some(structs::struct_of(entries)),
                            server_id: registry.mcp_tools[at].binding.server_id,
                        },
                    ),
                ),
                _ => Err(bad_arguments(name, "MCP tool arguments must be a JSON object"@)),
            },
            None => Err(AdapterErrorView::UnknownTool(name)),
        },
    }
}

/// The logged form of a model's call, or why it has none.
pub open spec fn logged_call(registry: ToolRegistryView, call: ToolCallRequestView) -> Result<
    ToolCallView,
    AdapterErrorView,
> {
    match requested_tool(registry, call.name, call.arguments) {
        Ok(tool) => Ok(ToolCallView { tool_call_id: call.id, tool: Some(tool) }),
        Err(error) => Err(error),
    }
}

/// The name and the arguments with which a model would ask for a logged tool, where the
/// local loop can express it.
pub open spec fn replayed_tool(registry: ToolRegistryView, tool: ToolView) -> Option<
    (Seq<char>, JsonView),
> {
    match tool {
        ToolView::RunShellCommand(shell) => Some(
            (definitions::RUN_SHELL_COMMAND@, calls::shell_args(shell)),
        ),
        ToolView::ReadFiles(read) => Some((definitions::READ_FILES@, calls::read_files_args(read))),
        ToolView::ApplyFileDiffs(edits) => Some((definitions::EDIT_FILES@, calls::edits_args(edits))),
        ToolView::Grep(grep) => Some((definitions::GREP@, calls::grep_args(grep))),
        ToolView::FileGlob(glob) => Some(
            (definitions::FILE_GLOB@, calls::glob_args(glob.patterns, glob.path)),
        ),
        ToolView::FileGlobV2(glob) => Some(
            (definitions::FILE_GLOB@, calls::glob_args(glob.patterns, glob.search_dir)),
        ),
        ToolView::ReadMcpResource(read) => Some(
            (definitions::READ_MCP_RESOURCE@, calls::resource_args(read)),
        ),
        ToolView::SuggestPrompt(suggest) => match suggest.display_mode {
            Some(DisplayModeView::PromptChip(chip)) => Some(
                (
                    definitions::SUGGEST_PROMPT@,
                    calls::suggestion_args(suggest.is_trigger_irrelevant, chip),
                ),
            ),
            _ => None,
        },
        ToolView::CallMcpTool(call) => Some(
            (
                match owner_index(
                    registry.mcp_tools,
                    call.server_id,
                    call.name,
                    registry.mcp_tools.len(),
                ) {
                    Some(at) => registry.mcp_tools[at].name,
                    None => mangled(call.server_id, call.name),
                },
                match call.args {
                    Some(arguments) => structs::object_of(arguments),
                    None => JsonView::Object(Seq::empty()),
                },
            ),
        ),
        ToolView::Other(_) => None,
    }
}

/// Whether a logged call of an MCP tool holds arguments that JSON has a form for. A call of another
/// tool has no such arguments to hold.
pub open spec fn arguments_settled(call: ToolCallView) -> bool {
    call.tool matches Some(ToolView::CallMcpTool(tool)) ==> (tool.args matches Some(arguments)
        && structs::settled_struct(arguments))
}

/// The call with which a model would ask for a logged tool call, where the local loop can
/// express it.
pub open spec fn replayed_call(registry: ToolRegistryView, call: ToolCallView) -> Option<
    ToolCallRequestView,
> {
    match call.tool {
        Some(tool) => match replayed_tool(registry, tool) {
            Some((name, arguments)) => Some(
                ToolCallRequestView { id: call.tool_call_id, name, arguments },
            ),
            None => None,
        },
        None => None,
    }
}

/// The slot of a name is the first position whose entry does not come before it.
pub proof fn slot_is_first(entries: Seq<McpEntryView>, name: Seq<char>, from: nat)
    requires
        from <= entries.len(),
    ensures
        from <= slot(entries, name, from) <= entries.len(),
        forall|k: int|
            from <= k < slot(entries, name, from) ==> text::below(
                (#[trigger] entries[k]).name,
                name,
            ),
        slot(entries, name, from) < entries.len() ==> !text::below(
            entries[slot(entries, name, from) as int].name,
            name,
        ),
    decreases entries.len() - from,
{
    if from < entries.len() && text::below(entries[from as int].name, name) {
        slot_is_first(entries, name, from + 1);
    }
}

/// Binding a tool keeps the entries in order.
pub proof fn bound_keeps_order(entries: Seq<McpEntryView>, entry: McpEntryView)
    requires
        in_order(entries),
    ensures
        in_order(bound(entries, entry)),
{
    slot_is_first(entries, entry.name, 0);
    let at = slot(entries, entry.name, 0) as int;
    let result = bound(entries, entry);
    if at < entries.len() && entries[at].name == entry.name {
        assert forall|i: int, j: int| 0 <= i < j < result.len() implies text::below(
            (#[trigger] result[i]).name,
            (#[trigger] result[j]).name,
        ) by {
            assert(entries[i].name == result[i].name);
            assert(entries[j].name == result[j].name);
        }
    } else {
        assert forall|i: int, j: int| 0 <= i < j < result.len() implies text::below(
            (#[trigger] result[i]).name,
            (#[trigger] result[j]).name,
        ) by {
            let left = if i < at {
                i
            } else {
                i - 1
            };
            let right = if j < at {
                j
            } else {
                j - 1
            };
            if i == at {
                assert(result[j] == entries[right]);
                text::text_order(entry.name, entries[at].name, entries[right].name);
                if right > at {
                    assert(text::below(entries[at].name, entries[right].name));
                }
            } else if j == at {
                assert(result[i] == entries[left]);
            } else {
                assert(result[i] == entries[left]);
                assert(result[j] == entries[right]);
            }
        }
    }
}

/// A name leads to the first entry that has it, and to none where no entry has it.
pub proof fn entry_index_is_first(entries: Seq<McpEntryView>, name: Seq<char>, count: nat)
    requires
        count <= entries.len(),
    ensures
        match entry_index(entries, name, count) {
            Some(at) => 0 <= at < count && entries[at].name == name && forall|k: int|
                0 <= k < at ==> (#[trigger] entries[k]).name != name,
            None => forall|k: int| 0 <= k < count ==> (#[trigger] entries[k]).name != name,
        },
    decreases count,
{
    if count > 0 {
        entry_index_is_first(entries, name, (count - 1) as nat);
    }
}

/// A name that was just bound leads to what it was bound to, and every other name leads
/// where it led before.
pub proof fn bound_name_is_found(
    entries: Seq<McpEntryView>,
    entry: McpEntryView,
    name: Seq<char>,
)
    requires
        in_order(entries),
    ensures
        ({
            let after = bound(entries, entry);
            let found = entry_index(after, name, after.len());
            let before = entry_index(entries, name, entries.len());
            if name == entry.name {
                found is Some && after[found->0] == entry
            } else {
                (found is Some <==> before is Some) && (found is Some ==> after[found->0]
                    == entries[before->0])
            }
        }),
{
    let after = bound(entries, entry);
    let at = slot(entries, entry.name, 0) as int;
    slot_is_first(entries, entry.name, 0);
    bound_keeps_order(entries, entry);
    entry_index_is_first(after, name, after.len());
    entry_index_is_first(entries, name, entries.len());
    let found = entry_index(after, name, after.len());
    let before = entry_index(entries, name, entries.len());
    assert(after[at] == entry);
    if name == entry.name {
        assert(found is Some);
        if found->0 != at {
            text::text_order(name, name, name);
            assert(false);
        }
    } else if at < entries.len() && entries[at].name == entry.name {
        assert(forall|k: int| 0 <= k < entries.len() ==> after[k].name == entries[k].name);
        if found is Some {
            assert(entries[found->0].name == name);
        }
        if before is Some {
            assert(after[before->0].name == name);
        }
        if found is Some && before is Some && found->0 != before->0 {
            assert(false);
        }
    } else {
        if before is Some {
            let moved = if before->0 < at {
                before->0
            } else {
                before->0 + 1
            };
            assert(after[moved] == entries[before->0]);
        }
        if found is Some {
            let origin = if found->0 < at {
                found->0
            } else {
                found->0 - 1
            };
            assert(entries[origin] == after[found->0]);
            if before is Some {
                text::text_order(name, name, name);
            }
        }
    }
}

proof fn tools_keep_order(entries: Seq<McpEntryView>, server: McpServerView, count: nat)
    requires
        in_order(entries),
    ensures
        in_order(with_tools(entries, server, count)),
    decreases count,
{
    if count > 0 {
        tools_keep_order(entries, server, (count - 1) as nat);
        bound_keeps_order(
            with_tools(entries, server, (count - 1) as nat),
            entry_for(server, server.tools[count - 1]),
        );
    }
}

/// The MCP tools of any request come in the order of their names, no name twice.
pub proof fn servers_are_in_order(servers: Seq<McpServerView>, count: nat)
    ensures
        in_order(with_servers(servers, count)),
    decreases count,
{
    if count > 0 {
        servers_are_in_order(servers, (count - 1) as nat);
        tools_keep_order(
            with_servers(servers, (count - 1) as nat),
            servers[count - 1],
            servers[count - 1].tools.len(),
        );
    }
}

/// Puts an entry in its place. It replaces the one of its name.
fn bind(entries: &mut Vec<McpEntry>, entry: McpEntry)
    ensures
        final(entries).deep_view() == bound(old(entries).deep_view(), entry.deep_view()),
{
    let ghost before = entries.deep_view();
    let mut at: usize = 0;
    while at < entries.len() && text::is_below(entries[at].name.as_str(), entry.name.as_str())
        invariant
            at <= entries.len(),
            entries.deep_view() == before,
            slot(before, entry.name@, at as nat) == slot(before, entry.name@, 0),
        decreases entries.len() - at,
    {
        assert(before[at as int] == entries@[at as int].deep_view());
        at += 1;
    }
    if at < entries.len() {
        assert(before[at as int] == entries@[at as int].deep_view());
    }
    if at < entries.len() && text::same_text(entries[at].name.as_str(), entry.name.as_str()) {
        let ghost view = entry.deep_view();
        entries.set(at, entry);
        assert(entries.deep_view() =~= before.update(at as int, view));
    } else {
        let ghost view = entry.deep_view();
        entries.insert(at, entry);
        assert(entries.deep_view() =~= before.insert(at as int, view));
    }
}

fn make_entry(server: &McpServer, tool: &McpTool) -> (entry: McpEntry)
    ensures
        entry.deep_view() == entry_for(server.deep_view(), tool.deep_view()),
{
    let parameters = match &tool.input_schema {
        Some(schema) => structs::prost_struct_to_json(schema),
        None => {
            let schema = json::json_object(vec![("type".to_string(), json::json_text("object"))]);
            assert(schema.deep_view()->Object_0 =~= any_object()->Object_0);
            schema
        },
    };
    McpEntry {
        name: mangle_mcp_tool_name(server.name.as_str(), tool.name.as_str()),
        binding: McpToolBinding {
            server_id: server.id.clone(),
            tool_name: tool.name.clone(),
            description: tool.description.clone(),
            parameters,
        },
    }
}

impl ToolRegistry {
    /// The registry of an agent turn: the builtin tools and the tools of the MCP servers. Where
    /// two tools come to one name, the later one has it.
    pub fn new(mcp_context: Option<&McpContext>) -> (registry: Self)
        ensures
            registry.deep_view() == agent_registry(
                match mcp_context {
                    Some(mcp) => Some(mcp.deep_view()),
                    None => None,
                },
            ),
            in_order(registry.deep_view().mcp_tools),
            (mcp_context matches Some(mcp) ==> keys::keyed_context(mcp.deep_view()))
                ==> keys::keyed_entries(registry.deep_view().mcp_tools),
    {
        let mut mcp_tools: Vec<McpEntry> = Vec::new();
        assert(mcp_tools.deep_view() =~= Seq::empty());
        if let Some(mcp) = mcp_context {
            let ghost servers = mcp.deep_view().servers;
            for i in 0..mcp.servers.len()
                invariant
                    servers == mcp.servers.deep_view(),
                    mcp_tools.deep_view() == with_servers(servers, i as nat),
            {
                let server = &mcp.servers[i];
                assert(servers[i as int] == server.deep_view());
                let ghost before = mcp_tools.deep_view();
                for k in 0..server.tools.len()
                    invariant
                        mcp_tools.deep_view() == with_tools(before, server.deep_view(), k as nat),
                {
                    assert(server.deep_view().tools[k as int] == server.tools@[k as int].deep_view());
                    bind(&mut mcp_tools, make_entry(server, &server.tools[k]));
                }
            }
            proof {
                servers_are_in_order(servers, servers.len());
                if keys::keyed_context(mcp.deep_view()) {
                    keys::servers_are_keyed(servers, servers.len());
                }
            }
        }
        ToolRegistry { mcp_tools, suggestion_only: false }
    }

    /// The registry of a passive suggestion turn, which is one-shot and read-only: the model
    /// gets only the `suggest_prompt` tool.
    pub fn for_passive_suggestions() -> (registry: Self)
        ensures
            registry.deep_view() == suggestion_registry(),
            in_order(registry.deep_view().mcp_tools),
            keys::keyed_entries(registry.deep_view().mcp_tools),
    {
        let registry = ToolRegistry { mcp_tools: Vec::new(), suggestion_only: true };
        assert(registry.mcp_tools.deep_view() =~= Seq::empty());
        registry
    }

    /// The tools as the model is told of them.
    pub fn definitions(&self) -> (result: Vec<ToolDefinition>)
        ensures
            result.deep_view() == announced(self.deep_view()),
            keys::keyed_entries(self.deep_view().mcp_tools) ==> keys::keyed_definitions(
                result.deep_view(),
            ),
    {
        proof {
            if keys::keyed_entries(self.deep_view().mcp_tools) {
                keys::announced_is_keyed(self.deep_view());
            }
        }
        if self.suggestion_only {
            let result = vec![definitions::suggest_prompt_definition()];
            assert(result.deep_view() =~= announced(self.deep_view()));
            return result;
        }
        let mut result = definitions::builtin_definitions();
        let ghost builtins = result.deep_view();
        for i in 0..self.mcp_tools.len()
            invariant
                result@.len() == builtins.len() + i,
                forall|k: int|
                    0 <= k < builtins.len() ==> (#[trigger] result@[k]).deep_view() == builtins[k],
                forall|k: int|
                    builtins.len() <= k < builtins.len() + i ==> (
                    #[trigger] result@[k]).deep_view() == mcp_announced(
                        self.mcp_tools@[k - builtins.len()].deep_view(),
                    ),
        {
            let entry = &self.mcp_tools[i];
            result.push(
                ToolDefinition {
                    name: entry.name.clone(),
                    description: entry.binding.description.clone(),
                    parameters: entry.binding.parameters.clone(),
                },
            );
        }
        assert(result.deep_view() =~= announced(self.deep_view()));
        result
    }

    fn find_entry(&self, name: &str) -> (found: Option<usize>)
        ensures
            match found {
                Some(at) => at < self.mcp_tools@.len() && entry_index(
                    self.deep_view().mcp_tools,
                    name@,
                    self.mcp_tools@.len(),
                ) == Some(at as int),
                None => entry_index(self.deep_view().mcp_tools, name@, self.mcp_tools@.len()) is None,
            },
    {
        let mut found: Option<usize> = None;
        for i in 0..self.mcp_tools.len()
            invariant
                match found {
                    Some(at) => at < i && entry_index(self.deep_view().mcp_tools, name@, i as nat)
                        == Some(at as int),
                    None => entry_index(self.deep_view().mcp_tools, name@, i as nat) is None,
                },
        {
            assert(self.deep_view().mcp_tools[i as int] == self.mcp_tools@[i as int].deep_view());
            if found.is_none() && text::same_text(self.mcp_tools[i].name.as_str(), name) {
                found = Some(i);
            }
        }
        found
    }

    fn find_owner(&self, server_id: &str, tool_name: &str) -> (found: Option<usize>)
        ensures
            match found {
                Some(at) => at < self.mcp_tools@.len() && owner_index(
                    self.deep_view().mcp_tools,
                    server_id@,
                    tool_name@,
                    self.mcp_tools@.len(),
                ) == Some(at as int),
                None => owner_index(
                    self.deep_view().mcp_tools,
                    server_id@,
                    tool_name@,
                    self.mcp_tools@.len(),
                ) is None,
            },
    {
        let mut found: Option<usize> = None;
        for i in 0..self.mcp_tools.len()
            invariant
                match found {
                    Some(at) => at < i && owner_index(
                        self.deep_view().mcp_tools,
                        server_id@,
                        tool_name@,
                        i as nat,
                    ) == Some(at as int),
                    None => owner_index(
                        self.deep_view().mcp_tools,
                        server_id@,
                        tool_name@,
                        i as nat,
                    ) is None,
                },
        {
            assert(self.deep_view().mcp_tools[i as int] == self.mcp_tools@[i as int].deep_view());
            let binding = &self.mcp_tools[i].binding;
            if found.is_none() && text::same_text(binding.server_id.as_str(), server_id)
                && text::same_text(binding.tool_name.as_str(), tool_name) {
                found = Some(i);
            }
        }
        found
    }

    /// Turns a model's call into the form that the task tree keeps. The id of the call stays
    /// what it is.
    pub fn to_proto_tool_call(&self, call: &ToolCallRequest) -> (result: Result<
        ToolCall,
        AdapterError,
    >)
        ensures
            match result {
                Ok(logged) => logged_call(self.deep_view(), call.deep_view()) == Ok::<
                    ToolCallView,
                    AdapterErrorView,
                >(logged.deep_view()) && arguments_settled(logged.deep_view()) && (json::keyed(
                    call.deep_view().arguments,
                ) ==> keys::keyed_call(logged.deep_view())),
                Err(error) => logged_call(self.deep_view(), call.deep_view()) == Err::<
                    ToolCallView,
                    AdapterErrorView,
                >(error.deep_view()),
            },
    {
        let tool = match builtin_record_of(call.name.as_str()) {
            Some(record) => match args::decode_record(record, &call.arguments) {
                Ok(row) => builtin_tool_from(record, &row),
                Err(message) => {
                    return Err(
                        AdapterError::BadToolArguments { tool: call.name.clone(), message },
                    );
                },
            },
            None => match self.find_entry(call.name.as_str()) {
                Some(at) => {
                    assert(self.deep_view().mcp_tools[at as int]
                        == self.mcp_tools@[at as int].deep_view());
                    match &call.arguments {
                        Json::Object(entries) => {
                            assert(call.arguments.deep_view()->Object_0 =~= entries.deep_view());
                            Tool::CallMcpTool(
                                CallMcpTool {
                                    name: self.mcp_tools[at].binding.tool_name.clone(),
                                    args: Some(structs::json_map_to_prost_struct(entries)),
                                    server_id: self.mcp_tools[at].binding.server_id.clone(),
                                },
                            )
                        },
                        _ => {
                            return Err(
                                AdapterError::BadToolArguments {
                                    tool: call.name.clone(),
                                    message: "MCP tool arguments must be a JSON object".to_string(),
                                },
                            );
                        },
                    }
                },
                None => {
                    return Err(AdapterError::UnknownTool(call.name.clone()));
                },
            },
        };
        Ok(ToolCall { tool_call_id: call.id.clone(), tool: Some(tool) })
    }

    /// The reverse of [`Self::to_proto_tool_call`], with which the transcript is rebuilt from
    /// logged calls. There is none for a tool that the local loop cannot express.
    pub fn to_request_tool_call(&self, tool_call: &ToolCall) -> (result: Option<ToolCallRequest>)
        ensures
            result.deep_view() == replayed_call(self.deep_view(), tool_call.deep_view()),
            keys::keyed_call(tool_call.deep_view()) ==> (result matches Some(request)
                ==> json::keyed(request.deep_view().arguments)),
    {
        proof {
            if keys::keyed_call(tool_call.deep_view()) {
                keys::replayed_arguments_are_keyed(self.deep_view(), tool_call.deep_view());
            }
        }
        let (name, arguments) = match &tool_call.tool {
            None => {
                return None;
            },
            Some(Tool::RunShellCommand(shell)) => (
                definitions::RUN_SHELL_COMMAND.to_string(),
                calls::args_for_shell(shell),
            ),
            Some(Tool::ReadFiles(read)) => (
                definitions::READ_FILES.to_string(),
                calls::args_for_read_files(read),
            ),
            Some(Tool::ApplyFileDiffs(edits)) => (
                definitions::EDIT_FILES.to_string(),
                calls::args_for_edits(edits),
            ),
            Some(Tool::Grep(grep)) => (definitions::GREP.to_string(), calls::args_for_grep(grep)),
            Some(Tool::FileGlob(glob)) => (
                definitions::FILE_GLOB.to_string(),
                calls::args_for_glob(&glob.patterns, &glob.path),
            ),
            Some(Tool::FileGlobV2(glob)) => (
                definitions::FILE_GLOB.to_string(),
                calls::args_for_glob(&glob.patterns, &glob.search_dir),
            ),
            Some(Tool::ReadMcpResource(read)) => (
                definitions::READ_MCP_RESOURCE.to_string(),
                calls::args_for_resource(read),
            ),
            Some(Tool::SuggestPrompt(suggest)) => match &suggest.display_mode {
                Some(DisplayMode::PromptChip(chip)) => (
                    definitions::SUGGEST_PROMPT.to_string(),
                    calls::args_for_suggestion(suggest.is_trigger_irrelevant, chip),
                ),
                _ => {
                    return None;
                },
            },
            Some(Tool::CallMcpTool(call)) => {
                let name = match self.find_owner(call.server_id.as_str(), call.name.as_str()) {
                    Some(at) => {
                        assert(self.deep_view().mcp_tools[at as int]
                            == self.mcp_tools@[at as int].deep_view());
                        self.mcp_tools[at].name.clone()
                    },
                    None => mangle_mcp_tool_name(call.server_id.as_str(), call.name.as_str()),
                };
                let arguments = match &call.args {
                    Some(arguments) => structs::prost_struct_to_json(arguments),
                    None => {
                        let empty = json::json_object(Vec::new());
                        assert(empty.deep_view()->Object_0 =~= Seq::empty());
                        empty
                    },
                };
                (name, arguments)
            },
            Some(Tool::Other(_)) => {
                return None;
            },
        };
        Some(ToolCallRequest { id: tool_call.tool_call_id.clone(), name, arguments })
    }
}

fn builtin_record_of(name: &str) -> (record: Option<Record>)
    ensures
        record == builtin_record(name@),
{
    if text::same_text(name, definitions::RUN_SHELL_COMMAND) {
        Some(Record::RunShellCommandArgs)
    } else if text::same_text(name, definitions::READ_FILES) {
        Some(Record::ReadFilesArgs)
    } else if text::same_text(name, definitions::EDIT_FILES) {
        Some(Record::EditFilesArgs)
    } else if text::same_text(name, definitions::GREP) {
        Some(Record::GrepArgs)
    } else if text::same_text(name, definitions::FILE_GLOB) {
        Some(Record::FileGlobArgs)
    } else if text::same_text(name, definitions::READ_MCP_RESOURCE) {
        Some(Record::ReadMcpResourceArgs)
    } else if text::same_text(name, definitions::SUGGEST_PROMPT) {
        Some(Record::SuggestPromptArgs)
    } else {
        None
    }
}

fn builtin_tool_from(record: Record, row: &Json) -> (tool: Tool)
    ensures
        tool.deep_view() == builtin_tool(record, row.deep_view()),
{
    match record {
        Record::RunShellCommandArgs => Tool::RunShellCommand(calls::shell_from(row)),
        Record::ReadFilesArgs => Tool::ReadFiles(calls::read_files_from(row)),
        Record::EditFilesArgs => Tool::ApplyFileDiffs(calls::edits_from(row)),
        Record::GrepArgs => Tool::Grep(calls::grep_from(row)),
        Record::FileGlobArgs => Tool::FileGlobV2(calls::glob_from(row)),
        Record::ReadMcpResourceArgs => Tool::ReadMcpResource(calls::resource_from(row)),
        Record::SuggestPromptArgs => Tool::SuggestPrompt(calls::suggestion_from(row)),
        _ => Tool::Other(Opaque::nothing()),
    }
}

} // verus!

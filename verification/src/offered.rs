//! Laws of the tools that a turn offers: where a call of an MCP tool goes, which tools a request
//! brings along, and what the model is told of the builtin ones.

use vstd::prelude::*;

use crate::api::request::{McpContextView, McpServerView, McpToolView};
use crate::api::tool::{ToolCallView, ToolView};
use crate::args;
use crate::args::{FieldKind, FieldView, Record};
use crate::definitions;
use crate::json::JsonView;
use crate::model::{AdapterErrorView, ToolCallRequestView};
use crate::registry;
use crate::registry::{McpEntryView, ToolRegistryView};
use crate::replay;
use crate::structs;

verus! {

/// Whether a name is that of a builtin tool.
pub open spec fn builtin(name: Seq<char>) -> bool {
    name == "run_shell_command"@ || name == "read_files"@ || name == "edit_files"@ || name
        == "grep"@ || name == "file_glob"@ || name == "read_mcp_resource"@ || name
        == "suggest_prompt"@
}

/// Whether an entry of the registry has a name.
pub open spec fn bears(entries: Seq<McpEntryView>, name: Seq<char>) -> bool {
    exists|i: int| 0 <= i < entries.len() && (#[trigger] entries[i]).name == name
}

/// A call of a tool that is not builtin goes to the server and the tool that stand in the registry
/// under its name, under its own id and with its own arguments. It is refused where the arguments
/// are no object, and unknown where no tool has the name.
pub proof fn mcp_call_goes_to_its_server(registry: ToolRegistryView, request: ToolCallRequestView)
    requires
        !builtin(request.name),
    ensures
        match registry::logged_call(registry, request) {
            Ok(call) => call.tool_call_id == request.id && request.arguments is Object && (
            call.tool matches Some(ToolView::CallMcpTool(tool)) && (exists|i: int|
                0 <= i < registry.mcp_tools.len() && (#[trigger] registry.mcp_tools[i]).name
                    == request.name && registry.mcp_tools[i].binding.server_id == tool.server_id
                    && registry.mcp_tools[i].binding.tool_name == tool.name) && (
            tool.args matches Some(arguments) && structs::mirrors_entries(
                request.arguments->Object_0,
                arguments.fields,
            ))),
            Err(AdapterErrorView::BadToolArguments { tool, message }) => tool == request.name
                && message == "MCP tool arguments must be a JSON object"@ && !(
            request.arguments is Object) && bears(registry.mcp_tools, request.name),
            Err(AdapterErrorView::UnknownTool(name)) => name == request.name && !bears(
                registry.mcp_tools,
                request.name,
            ),
            Err(_) => false,
        },
{
    let entries = registry.mcp_tools;
    registry::entry_index_is_first(entries, request.name, entries.len());
    if let Some(at) = registry::entry_index(entries, request.name, entries.len()) {
        assert(entries[at].name == request.name);
    }
    if let JsonView::Object(arguments) = request.arguments {
        structs::struct_mirrors_object(arguments);
    }
}

/// A logged call of an MCP tool is told to the model again under its own id and with its own
/// arguments, by a name that the registry has for that tool of that server. Where it has none, the
/// name is made up of the server and the tool.
pub proof fn replayed_mcp_call_tells_the_logged_tool(registry: ToolRegistryView, call: ToolCallView)
    requires
        call.tool matches Some(tool) && tool is CallMcpTool,
    ensures
        ({
            let tool = call.tool->0->CallMcpTool_0;
            registry::replayed_call(registry, call) matches Some(request) && request.id
                == call.tool_call_id && (request.arguments matches JsonView::Object(entries)
                && match tool.args {
                Some(arguments) => structs::reflects_fields(arguments.fields, entries),
                None => entries.len() == 0,
            }) && ((exists|i: int|
                0 <= i < registry.mcp_tools.len() && (#[trigger] registry.mcp_tools[i]).name
                    == request.name && registry.mcp_tools[i].binding.server_id == tool.server_id
                    && registry.mcp_tools[i].binding.tool_name == tool.name) || (request.name
                == registry::mangled(tool.server_id, tool.name) && forall|i: int|
                0 <= i < registry.mcp_tools.len() ==> !((
                #[trigger] registry.mcp_tools[i]).binding.server_id == tool.server_id
                    && registry.mcp_tools[i].binding.tool_name == tool.name)))
        }),
{
    let tool = call.tool->0->CallMcpTool_0;
    let entries = registry.mcp_tools;
    replay::owner_index_is_owner(entries, tool.server_id, tool.name, entries.len());
    if let Some(arguments) = tool.args {
        structs::object_reflects_struct(arguments);
    }
    if let Some(at) = registry::owner_index(entries, tool.server_id, tool.name, entries.len()) {
        assert(entries[at].binding.tool_name == tool.name);
    }
}

/// Whether a character is kept in a tool name, or replaced by `_`.
pub open spec fn kept_char(c: char, kept: char) -> bool {
    if 'a' <= c <= 'z' || 'A' <= c <= 'Z' || '0' <= c <= '9' || c == '_' || c == '-' {
        kept == c
    } else {
        kept == '_'
    }
}

/// A mangled name spells `mcp__`, the server, `__` and the tool, character by character, with `_`
/// for what may not stand in a name, and is cut off after 64 characters.
pub proof fn mangled_name_spells_server_and_tool(server: Seq<char>, tool: Seq<char>)
    ensures
        ({
            let name = registry::mangled(server, tool);
            let full = 7 + server.len() + tool.len();
            &&& name.len() == (if full < 64 {
                full as nat
            } else {
                64
            })
            &&& forall|i: int|
                0 <= i < name.len() ==> if i < 5 {
                    #[trigger] name[i] == "mcp__"@[i]
                } else if i < 5 + server.len() {
                    kept_char(server[i - 5], name[i])
                } else if i < 7 + server.len() {
                    name[i] == '_'
                } else {
                    kept_char(tool[i - 7 - server.len()], name[i])
                }
        }),
{
    reveal_strlit("mcp__");
    reveal_strlit("__");
    let name = "mcp__"@ + registry::sanitized(server) + "__"@ + registry::sanitized(tool);
    assert(name.len() == 7 + server.len() + tool.len());
    let s = server.len() as int;
    assert forall|i: int| 0 <= i < name.len() implies if i < 5 {
        #[trigger] name[i] == "mcp__"@[i]
    } else if i < 5 + server.len() {
        kept_char(server[i - 5], name[i])
    } else if i < 7 + server.len() {
        name[i] == '_'
    } else {
        kept_char(tool[i - 7 - server.len()], name[i])
    } by {
        if i < 5 {
        } else if i < 5 + s {
            assert(name[i] == registry::sanitized(server)[i - 5]);
        } else if i < 7 + s {
            assert(name[i] == "__"@[i - 5 - s]);
        } else {
            assert(name[i] == registry::sanitized(tool)[i - 7 - s]);
        }
    }
}

/// Whether an entry of the registry stands for a tool of a server, by its mangled name.
pub open spec fn stands_for(entry: McpEntryView, server: McpServerView, tool: McpToolView) -> bool {
    &&& entry.name == registry::mangled(server.name, tool.name)
    &&& entry.binding.server_id == server.id
    &&& entry.binding.tool_name == tool.name
    &&& entry.binding.description == tool.description
    &&& entry.binding.parameters matches JsonView::Object(entries) && match tool.input_schema {
        Some(schema) => structs::reflects_fields(schema.fields, entries),
        None => entries == seq![("type"@, JsonView::Text("object"@))],
    }
}

/// Whether the tool at `j` of the server at `i` is among the first tools: those of the servers
/// before `servers`, and the first `tools` of that one.
pub open spec fn among(i: int, j: int, servers: int, tools: int) -> bool {
    i < servers || (i == servers && j < tools)
}

/// Whether entries are those of the tools that were bound so far: every entry stands for the last
/// tool that comes to its name, and every tool has an entry under its name.
pub open spec fn binds_tools(
    entries: Seq<McpEntryView>,
    all: Seq<McpServerView>,
    servers: int,
    tools: int,
) -> bool {
    &&& forall|e: int|
        0 <= e < entries.len() ==> comes_from(#[trigger] entries[e], all, servers, tools)
    &&& forall|i: int, j: int|
        0 <= i < all.len() && 0 <= j < all[i].tools.len() && among(i, j, servers, tools) ==> bears(
            entries,
            registry::mangled(all[i].name, (#[trigger] all[i].tools[j]).name),
        )
}

/// Whether an entry stands for one of the tools, the last that comes to its name.
pub open spec fn comes_from(
    entry: McpEntryView,
    all: Seq<McpServerView>,
    servers: int,
    tools: int,
) -> bool {
    exists|i: int, j: int| last_of_name(entry, all, servers, tools, i, j)
}

/// Whether an entry stands for the tool at `j` of the server at `i`, and no later one comes to the
/// same name.
pub open spec fn last_of_name(
    entry: McpEntryView,
    all: Seq<McpServerView>,
    servers: int,
    tools: int,
    i: int,
    j: int,
) -> bool {
    &&& 0 <= i < all.len() && 0 <= j < all[i].tools.len() && among(i, j, servers, tools)
    &&& stands_for(entry, all[i], all[i].tools[j])
    &&& forall|k: int, l: int|
        0 <= k < all.len() && 0 <= l < all[k].tools.len() && among(k, l, servers, tools) && (k > i
            || (k == i && l > j)) ==> registry::mangled(
            all[k].name,
            (#[trigger] all[k].tools[l]).name,
        ) != entry.name
}

proof fn entry_stands_for_tool(server: McpServerView, tool: McpToolView)
    ensures
        stands_for(registry::entry_for(server, tool), server, tool),
{
    if let Some(schema) = tool.input_schema {
        structs::object_reflects_struct(schema);
    }
}

proof fn one_more_tool(entries: Seq<McpEntryView>, all: Seq<McpServerView>, at: int, count: int)
    requires
        0 <= at < all.len(),
        0 <= count < all[at].tools.len(),
        registry::in_order(entries),
        binds_tools(entries, all, at, count),
    ensures
        binds_tools(
            registry::bound(entries, registry::entry_for(all[at], all[at].tools[count])),
            all,
            at,
            count + 1,
        ),
{
    let entry = registry::entry_for(all[at], all[at].tools[count]);
    let after = registry::bound(entries, entry);
    let slot = registry::slot(entries, entry.name, 0) as int;
    registry::slot_is_first(entries, entry.name, 0);
    registry::bound_keeps_order(entries, entry);
    entry_stands_for_tool(all[at], all[at].tools[count]);
    assert(after[slot] == entry);
    let next = count + 1;
    assert forall|e: int| 0 <= e < after.len() implies comes_from(
        #[trigger] after[e],
        all,
        at,
        next,
    ) by {
        if e == slot {
            assert(last_of_name(entry, all, at, count + 1, at, count));
        } else {
            let before = if after.len() == entries.len() || e < slot {
                e
            } else {
                e - 1
            };
            assert(after[e] == entries[before]);
            if after[e].name == entry.name {
                crate::text::text_order(entry.name, entry.name, entry.name);
                assert(false);
            }
            let (i, j) = choose|i: int, j: int|
                last_of_name(entries[before], all, at, count, i, j);
            assert(last_of_name(after[e], all, at, count + 1, i, j)) by {
                assert forall|k: int, l: int|
                    0 <= k < all.len() && 0 <= l < all[k].tools.len() && among(
                        k,
                        l,
                        at,
                        count + 1,
                    ) && (k > i || (k == i && l > j)) implies registry::mangled(
                    all[k].name,
                    (#[trigger] all[k].tools[l]).name,
                ) != after[e].name by {
                    if k == at && l == count {
                        assert(entry.name == registry::mangled(all[k].name, all[k].tools[l].name));
                    }
                }
            }
        }
    }
    assert forall|i: int, j: int|
        0 <= i < all.len() && 0 <= j < all[i].tools.len() && among(
            i,
            j,
            at,
            count + 1,
        ) implies bears(
        after,
        registry::mangled(all[i].name, (#[trigger] all[i].tools[j]).name),
    ) by {
        let name = registry::mangled(all[i].name, all[i].tools[j].name);
        if name == entry.name {
            assert(after[slot].name == name);
        } else {
            assert(bears(entries, name));
            let e = choose|e: int| 0 <= e < entries.len() && (#[trigger] entries[e]).name == name;
            let moved = if after.len() == entries.len() || e < slot {
                e
            } else {
                e + 1
            };
            assert(after[moved] == entries[e]);
            assert(after[moved].name == name);
        }
    }
}

proof fn tools_are_bound(
    entries: Seq<McpEntryView>,
    all: Seq<McpServerView>,
    at: int,
    count: nat,
)
    requires
        0 <= at < all.len(),
        count <= all[at].tools.len(),
        registry::in_order(entries),
        binds_tools(entries, all, at, 0),
    ensures
        binds_tools(registry::with_tools(entries, all[at], count), all, at, count as int),
        registry::in_order(registry::with_tools(entries, all[at], count)),
    decreases count,
{
    if count > 0 {
        tools_are_bound(entries, all, at, (count - 1) as nat);
        let before = registry::with_tools(entries, all[at], (count - 1) as nat);
        one_more_tool(before, all, at, count - 1);
        registry::bound_keeps_order(
            before,
            registry::entry_for(all[at], all[at].tools[count - 1]),
        );
    }
}

/// The MCP tools of a request are all there: each tool of each server has an entry under its name,
/// and each entry stands for the last tool that comes to its name, with the server's id and the
/// tool's own name, description and schema.
pub proof fn request_brings_its_tools(all: Seq<McpServerView>, count: nat)
    requires
        count <= all.len(),
    ensures
        binds_tools(registry::with_servers(all, count), all, count as int, 0),
    decreases count,
{
    if count > 0 {
        let less = (count - 1) as nat;
        request_brings_its_tools(all, less);
        registry::servers_are_in_order(all, less);
        let before = registry::with_servers(all, less);
        let width = all[less as int].tools.len();
        tools_are_bound(before, all, less as int, width);
        let after = registry::with_servers(all, count);
        let next = count as int;
        assert forall|e: int| 0 <= e < after.len() implies comes_from(
            #[trigger] after[e],
            all,
            next,
            0,
        ) by {
            let (i, j) = choose|i: int, j: int|
                last_of_name(after[e], all, less as int, width as int, i, j);
            assert(last_of_name(after[e], all, count as int, 0, i, j)) by {
                assert forall|k: int, l: int|
                    0 <= k < all.len() && 0 <= l < all[k].tools.len() && among(
                        k,
                        l,
                        count as int,
                        0,
                    ) && (k > i || (k == i && l > j)) implies registry::mangled(
                    all[k].name,
                    (#[trigger] all[k].tools[l]).name,
                ) != after[e].name by {
                    assert(among(k, l, less as int, width as int));
                }
            }
        }
        assert forall|i: int, j: int|
            0 <= i < all.len() && 0 <= j < all[i].tools.len() && among(
                i,
                j,
                count as int,
                0,
            ) implies bears(
            after,
            registry::mangled(all[i].name, (#[trigger] all[i].tools[j]).name),
        ) by {
            assert(among(i, j, less as int, width as int));
        }
    }
}

/// The registry of an agent turn is that of the MCP servers of its request, and of nothing else; that
/// of a passive suggestion turn has no MCP tools.
pub proof fn turn_knows_its_servers(mcp_context: Option<McpContextView>)
    ensures
        ({
            let registry = registry::agent_registry(mcp_context);
            !registry.suggestion_only && match mcp_context {
                Some(mcp) => binds_tools(
                    registry.mcp_tools,
                    mcp.servers,
                    mcp.servers.len() as int,
                    0,
                ),
                None => registry.mcp_tools.len() == 0,
            }
        }),
        registry::suggestion_registry().suggestion_only,
        registry::suggestion_registry().mcp_tools.len() == 0,
{
    if let Some(mcp) = mcp_context {
        request_brings_its_tools(mcp.servers, mcp.servers.len());
    }
}

/// What a turn offers: an agent turn the six builtin tools and then the MCP tools, one by one; a
/// suggestion turn nothing but `suggest_prompt`.
pub proof fn turn_offers_its_tools(registry: ToolRegistryView)
    ensures
        ({
            let all = registry::announced(registry);
            if registry.suggestion_only {
                all.len() == 1 && all[0].name == "suggest_prompt"@ && all[0].description
                    == definitions::SUGGEST_PROMPT_TEXT@
            } else {
                &&& all.len() == 6 + registry.mcp_tools.len()
                &&& all[0].name == "run_shell_command"@ && all[1].name == "read_files"@
                &&& all[2].name == "edit_files"@ && all[3].name == "grep"@
                &&& all[4].name == "file_glob"@ && all[5].name == "read_mcp_resource"@
                &&& all[0].description == definitions::RUN_SHELL_COMMAND_TEXT@
                &&& all[1].description == definitions::READ_FILES_TEXT@
                &&& all[2].description == definitions::EDIT_FILES_TEXT@
                &&& all[3].description == definitions::GREP_TEXT@
                &&& all[4].description == definitions::FILE_GLOB_TEXT@
                &&& all[5].description == definitions::READ_MCP_RESOURCE_TEXT@
                &&& forall|i: int|
                    0 <= i < registry.mcp_tools.len() ==> (#[trigger] registry.mcp_tools[i]).name
                        == all[6 + i].name && registry.mcp_tools[i].binding.description == all[6
                        + i].description && registry.mcp_tools[i].binding.parameters == all[6
                        + i].parameters
            }
        }),
{
}

/// The JSON type that a field of a kind is written in.
pub open spec fn type_of(kind: FieldKind) -> Seq<char> {
    match kind {
        FieldKind::Text => "string"@,
        FieldKind::Flag => "boolean"@,
        FieldKind::Count => "integer"@,
        FieldKind::Texts => "array"@,
        FieldKind::Records(_) => "array"@,
    }
}

/// Whether an object holds a value under a key.
pub open spec fn holds(json: JsonView, key: Seq<char>, value: JsonView) -> bool {
    json matches JsonView::Object(entries) && entries.contains((key, value))
}

/// Whether a schema describes a record: it is that of an object, it has a property of the right
/// type for each field and none besides, it requires what the record requires, and the items of
/// its lists are texts, or are described in turn.
pub open spec fn describes(schema: JsonView, record: Record, depth: nat) -> bool
    decreases depth, 1nat,
{
    let fields = args::record_fields(record);
    &&& holds(schema, "type"@, JsonView::Text("object"@))
    &&& exists|properties: Seq<(Seq<char>, JsonView)>|
        #![trigger holds(schema, "properties"@, JsonView::Object(properties))]
        holds(schema, "properties"@, JsonView::Object(properties)) && properties.len()
            == fields.len() && field_properties(fields, properties, depth)
    &&& exists|names: Seq<JsonView>|
        #![trigger holds(schema, "required"@, JsonView::Array(names))]
        holds(schema, "required"@, JsonView::Array(names)) && forall|k: int|
            0 <= k < fields.len() && (#[trigger] fields[k]).required ==> names.contains(
                JsonView::Text(fields[k].name),
            )
}

/// Whether the properties of a schema are those of the fields, in their types.
pub open spec fn field_properties(
    fields: Seq<FieldView>,
    properties: Seq<(Seq<char>, JsonView)>,
    depth: nat,
) -> bool
    decreases depth, 0nat,
{
    forall|k: int|
        0 <= k < fields.len() ==> exists|property: JsonView|
            #![trigger properties.contains((fields[k].name, property))]
            described_field(#[trigger] fields[k], properties, property) && (
            fields[k].kind is Texts ==> holds_typed_items(property)) && (
            fields[k].kind matches FieldKind::Records(inner) ==> depth > 0
                && holds_described_items(property, inner, (depth - 1) as nat))
}

/// Whether the properties of a schema give a field its type.
pub open spec fn described_field(
    field: FieldView,
    properties: Seq<(Seq<char>, JsonView)>,
    property: JsonView,
) -> bool {
    properties.contains((field.name, property)) && holds(
        property,
        "type"@,
        JsonView::Text(type_of(field.kind)),
    )
}

/// Whether a property is a list of texts.
pub open spec fn holds_typed_items(property: JsonView) -> bool {
    exists|items: JsonView| #[trigger]
        holds(property, "items"@, items) && holds(items, "type"@, JsonView::Text("string"@))
}

/// Whether a property is a list of records.
pub open spec fn holds_described_items(property: JsonView, record: Record, depth: nat) -> bool
    decreases depth, 2nat,
{
    exists|items: JsonView| #[trigger]
        holds(property, "items"@, items) && describes(items, record, depth)
}

proof fn schemas_hold()
    ensures
        forall|kind: Seq<char>| #[trigger]
            holds(definitions::typed(kind), "type"@, JsonView::Text(kind)),
        forall|kind: Seq<char>, text: Seq<char>|
            holds(#[trigger] definitions::described(kind, text), "type"@, JsonView::Text(kind)),
        forall|items: JsonView|
            holds(#[trigger] definitions::list_of(items), "items"@, items) && holds(
                definitions::list_of(items),
                "type"@,
                JsonView::Text("array"@),
            ),
        forall|items: JsonView, text: Seq<char>|
            holds(#[trigger] definitions::described_list(items, text), "items"@, items) && holds(
                definitions::described_list(items, text),
                "type"@,
                JsonView::Text("array"@),
            ),
{
    assert forall|kind: Seq<char>| #[trigger]
        holds(definitions::typed(kind), "type"@, JsonView::Text(kind)) by {
        assert(definitions::typed(kind)->Object_0[0] == ("type"@, JsonView::Text(kind)));
    }
    assert forall|kind: Seq<char>, text: Seq<char>|
        holds(#[trigger] definitions::described(kind, text), "type"@, JsonView::Text(kind)) by {
        assert(definitions::described(kind, text)->Object_0[1] == ("type"@, JsonView::Text(kind)));
    }
    assert forall|items: JsonView|
        holds(#[trigger] definitions::list_of(items), "items"@, items) && holds(
            definitions::list_of(items),
            "type"@,
            JsonView::Text("array"@),
        ) by {
        let entries = definitions::list_of(items)->Object_0;
        assert(entries[0] == ("items"@, items));
        assert(entries[1] == ("type"@, JsonView::Text("array"@)));
    }
    assert forall|items: JsonView, text: Seq<char>|
        holds(#[trigger] definitions::described_list(items, text), "items"@, items) && holds(
            definitions::described_list(items, text),
            "type"@,
            JsonView::Text("array"@),
        ) by {
        let entries = definitions::described_list(items, text)->Object_0;
        assert(entries[1] == ("items"@, items));
        assert(entries[2] == ("type"@, JsonView::Text("array"@)));
    }
}

proof fn record_holds(properties: Seq<(Seq<char>, JsonView)>, required: Seq<Seq<char>>)
    ensures
        ({
            let schema = definitions::record(properties, required);
            let names = required.map_values(|name: Seq<char>| JsonView::Text(name));
            &&& holds(schema, "type"@, JsonView::Text("object"@))
            &&& holds(schema, "properties"@, JsonView::Object(properties))
            &&& holds(schema, "required"@, JsonView::Array(names))
            &&& forall|k: int|
                0 <= k < required.len() ==> names.contains(JsonView::Text(#[trigger] required[k]))
        }),
{
    let entries = definitions::record(properties, required)->Object_0;
    let names = required.map_values(|name: Seq<char>| JsonView::Text(name));
    assert(entries[0] == ("properties"@, JsonView::Object(properties)));
    assert(entries[1] == ("required"@, JsonView::Array(names)));
    assert(entries[2] == ("type"@, JsonView::Text("object"@)));
    assert forall|k: int| 0 <= k < required.len() implies names.contains(
        JsonView::Text(#[trigger] required[k]),
    ) by {
        assert(names[k] == JsonView::Text(required[k]));
    }
}

proof fn run_shell_command_schema_describes()
    ensures
        describes(definitions::run_shell_command_schema(), Record::RunShellCommandArgs, 0),
{
    schemas_hold();
    let fields = args::record_fields(Record::RunShellCommandArgs);
    let schema = definitions::run_shell_command_schema();
    let properties = schema->Object_0[0].1->Object_0;
    let required: Seq<Seq<char>> = seq!["command"@];
    record_holds(properties, required);
    assert(properties[0].0 == fields[0].name);
    assert(properties.contains((fields[0].name, properties[0].1)));
    assert(described_field(fields[0], properties, properties[0].1));
    assert(required[0] == fields[0].name);
    assert(properties[1].0 == fields[1].name);
    assert(properties.contains((fields[1].name, properties[1].1)));
    assert(described_field(fields[1], properties, properties[1].1));
    assert(properties[2].0 == fields[2].name);
    assert(properties.contains((fields[2].name, properties[2].1)));
    assert(described_field(fields[2], properties, properties[2].1));
    assert(field_properties(fields, properties, 0));
}

proof fn line_range_schema_describes()
    ensures
        describes(definitions::line_range_schema(), Record::LineRangeArg, 0),
{
    schemas_hold();
    let fields = args::record_fields(Record::LineRangeArg);
    let schema = definitions::line_range_schema();
    let properties = schema->Object_0[0].1->Object_0;
    let required: Seq<Seq<char>> = seq!["start"@, "end"@];
    record_holds(properties, required);
    assert(properties[1].0 == fields[0].name);
    assert(properties.contains((fields[0].name, properties[1].1)));
    assert(described_field(fields[0], properties, properties[1].1));
    assert(required[0] == fields[0].name);
    assert(properties[0].0 == fields[1].name);
    assert(properties.contains((fields[1].name, properties[0].1)));
    assert(described_field(fields[1], properties, properties[0].1));
    assert(required[1] == fields[1].name);
    assert(field_properties(fields, properties, 0));
}

proof fn file_schema_describes()
    ensures
        describes(definitions::file_schema(), Record::ReadFileArg, 1),
{
    line_range_schema_describes();
    schemas_hold();
    let fields = args::record_fields(Record::ReadFileArg);
    let schema = definitions::file_schema();
    let properties = schema->Object_0[0].1->Object_0;
    let required: Seq<Seq<char>> = seq!["path"@];
    record_holds(properties, required);
    assert(properties[1].0 == fields[0].name);
    assert(properties.contains((fields[0].name, properties[1].1)));
    assert(described_field(fields[0], properties, properties[1].1));
    assert(required[0] == fields[0].name);
    assert(properties[0].0 == fields[1].name);
    assert(properties.contains((fields[1].name, properties[0].1)));
    assert(described_field(fields[1], properties, properties[0].1));
    assert(holds_described_items(properties[0].1, Record::LineRangeArg, 0)) by {
        assert(holds(properties[0].1, "items"@, definitions::line_range_schema()));
    }
    assert(field_properties(fields, properties, 1));
}

proof fn read_files_schema_describes()
    ensures
        describes(definitions::read_files_schema(), Record::ReadFilesArgs, 2),
{
    file_schema_describes();
    schemas_hold();
    let fields = args::record_fields(Record::ReadFilesArgs);
    let schema = definitions::read_files_schema();
    let properties = schema->Object_0[0].1->Object_0;
    let required: Seq<Seq<char>> = seq!["files"@];
    record_holds(properties, required);
    assert(properties[0].0 == fields[0].name);
    assert(properties.contains((fields[0].name, properties[0].1)));
    assert(described_field(fields[0], properties, properties[0].1));
    assert(holds_described_items(properties[0].1, Record::ReadFileArg, 1)) by {
        assert(holds(properties[0].1, "items"@, definitions::file_schema()));
    }
    assert(required[0] == fields[0].name);
    assert(field_properties(fields, properties, 2));
}

proof fn diff_schema_describes()
    ensures
        describes(definitions::diff_schema(), Record::FileDiffArg, 0),
{
    schemas_hold();
    let fields = args::record_fields(Record::FileDiffArg);
    let schema = definitions::diff_schema();
    let properties = schema->Object_0[0].1->Object_0;
    let required: Seq<Seq<char>> = seq!["file_path"@, "search"@, "replace"@];
    record_holds(properties, required);
    assert(properties[0].0 == fields[0].name);
    assert(properties.contains((fields[0].name, properties[0].1)));
    assert(described_field(fields[0], properties, properties[0].1));
    assert(required[0] == fields[0].name);
    assert(properties[2].0 == fields[1].name);
    assert(properties.contains((fields[1].name, properties[2].1)));
    assert(described_field(fields[1], properties, properties[2].1));
    assert(required[1] == fields[1].name);
    assert(properties[1].0 == fields[2].name);
    assert(properties.contains((fields[2].name, properties[1].1)));
    assert(described_field(fields[2], properties, properties[1].1));
    assert(required[2] == fields[2].name);
    assert(field_properties(fields, properties, 0));
}

proof fn new_file_schema_describes()
    ensures
        describes(definitions::new_file_schema(), Record::NewFileArg, 0),
{
    schemas_hold();
    let fields = args::record_fields(Record::NewFileArg);
    let schema = definitions::new_file_schema();
    let properties = schema->Object_0[0].1->Object_0;
    let required: Seq<Seq<char>> = seq!["file_path"@, "content"@];
    record_holds(properties, required);
    assert(properties[2].0 == fields[0].name);
    assert(properties.contains((fields[0].name, properties[2].1)));
    assert(described_field(fields[0], properties, properties[2].1));
    assert(required[0] == fields[0].name);
    assert(properties[1].0 == fields[1].name);
    assert(properties.contains((fields[1].name, properties[1].1)));
    assert(described_field(fields[1], properties, properties[1].1));
    assert(properties[0].0 == fields[2].name);
    assert(properties.contains((fields[2].name, properties[0].1)));
    assert(described_field(fields[2], properties, properties[0].1));
    assert(field_properties(fields, properties, 0));
}

proof fn edit_files_schema_describes()
    ensures
        describes(definitions::edit_files_schema(), Record::EditFilesArgs, 1),
{
    diff_schema_describes();
    new_file_schema_describes();
    schemas_hold();
    let fields = args::record_fields(Record::EditFilesArgs);
    let schema = definitions::edit_files_schema();
    let properties = schema->Object_0[0].1->Object_0;
    let required: Seq<Seq<char>> = seq!["summary"@];
    record_holds(properties, required);
    assert(properties[3].0 == fields[0].name);
    assert(properties.contains((fields[0].name, properties[3].1)));
    assert(described_field(fields[0], properties, properties[3].1));
    assert(properties[1].0 == fields[1].name);
    assert(properties.contains((fields[1].name, properties[1].1)));
    assert(described_field(fields[1], properties, properties[1].1));
    assert(holds_described_items(properties[1].1, Record::FileDiffArg, 0)) by {
        assert(holds(properties[1].1, "items"@, definitions::diff_schema()));
    }
    assert(properties[2].0 == fields[2].name);
    assert(properties.contains((fields[2].name, properties[2].1)));
    assert(described_field(fields[2], properties, properties[2].1));
    assert(holds_described_items(properties[2].1, Record::NewFileArg, 0)) by {
        assert(holds(properties[2].1, "items"@, definitions::new_file_schema()));
    }
    assert(properties[0].0 == fields[3].name);
    assert(properties.contains((fields[3].name, properties[0].1)));
    assert(described_field(fields[3], properties, properties[0].1));
    assert(holds_typed_items(properties[0].1)) by {
        assert(holds(properties[0].1, "items"@, definitions::typed("string"@)));
    }
    assert(field_properties(fields, properties, 1));
}

proof fn grep_schema_describes()
    ensures
        describes(definitions::grep_schema(), Record::GrepArgs, 0),
{
    schemas_hold();
    let fields = args::record_fields(Record::GrepArgs);
    let schema = definitions::grep_schema();
    let properties = schema->Object_0[0].1->Object_0;
    let required: Seq<Seq<char>> = seq!["queries"@];
    record_holds(properties, required);
    assert(properties[1].0 == fields[0].name);
    assert(properties.contains((fields[0].name, properties[1].1)));
    assert(described_field(fields[0], properties, properties[1].1));
    assert(holds_typed_items(properties[1].1)) by {
        assert(holds(properties[1].1, "items"@, definitions::typed("string"@)));
    }
    assert(required[0] == fields[0].name);
    assert(properties[0].0 == fields[1].name);
    assert(properties.contains((fields[1].name, properties[0].1)));
    assert(described_field(fields[1], properties, properties[0].1));
    assert(field_properties(fields, properties, 0));
}

proof fn file_glob_schema_describes()
    ensures
        describes(definitions::file_glob_schema(), Record::FileGlobArgs, 0),
{
    schemas_hold();
    let fields = args::record_fields(Record::FileGlobArgs);
    let schema = definitions::file_glob_schema();
    let properties = schema->Object_0[0].1->Object_0;
    let required: Seq<Seq<char>> = seq!["patterns"@];
    record_holds(properties, required);
    assert(properties[0].0 == fields[0].name);
    assert(properties.contains((fields[0].name, properties[0].1)));
    assert(described_field(fields[0], properties, properties[0].1));
    assert(holds_typed_items(properties[0].1)) by {
        assert(holds(properties[0].1, "items"@, definitions::typed("string"@)));
    }
    assert(required[0] == fields[0].name);
    assert(properties[1].0 == fields[1].name);
    assert(properties.contains((fields[1].name, properties[1].1)));
    assert(described_field(fields[1], properties, properties[1].1));
    assert(field_properties(fields, properties, 0));
}

proof fn read_mcp_resource_schema_describes()
    ensures
        describes(definitions::read_mcp_resource_schema(), Record::ReadMcpResourceArgs, 0),
{
    schemas_hold();
    let fields = args::record_fields(Record::ReadMcpResourceArgs);
    let schema = definitions::read_mcp_resource_schema();
    let properties = schema->Object_0[0].1->Object_0;
    let required: Seq<Seq<char>> = seq!["uri"@];
    record_holds(properties, required);
    assert(properties[1].0 == fields[0].name);
    assert(properties.contains((fields[0].name, properties[1].1)));
    assert(described_field(fields[0], properties, properties[1].1));
    assert(required[0] == fields[0].name);
    assert(properties[0].0 == fields[1].name);
    assert(properties.contains((fields[1].name, properties[0].1)));
    assert(described_field(fields[1], properties, properties[0].1));
    assert(field_properties(fields, properties, 0));
}

proof fn suggest_prompt_schema_describes()
    ensures
        describes(definitions::suggest_prompt_schema(), Record::SuggestPromptArgs, 0),
{
    schemas_hold();
    let fields = args::record_fields(Record::SuggestPromptArgs);
    let schema = definitions::suggest_prompt_schema();
    let properties = schema->Object_0[0].1->Object_0;
    let required: Seq<Seq<char>> = seq!["prompt"@];
    record_holds(properties, required);
    assert(properties[2].0 == fields[0].name);
    assert(properties.contains((fields[0].name, properties[2].1)));
    assert(described_field(fields[0], properties, properties[2].1));
    assert(required[0] == fields[0].name);
    assert(properties[1].0 == fields[1].name);
    assert(properties.contains((fields[1].name, properties[1].1)));
    assert(described_field(fields[1], properties, properties[1].1));
    assert(properties[0].0 == fields[2].name);
    assert(properties.contains((fields[2].name, properties[0].1)));
    assert(described_field(fields[2], properties, properties[0].1));
    assert(field_properties(fields, properties, 0));
}

/// The model is told of each builtin tool's arguments as they are read: by the same keys, in the
/// types that the reader takes, and with every key that the reader must have among the required
/// ones.
pub proof fn announced_schemas_describe_arguments(registry: ToolRegistryView)
    ensures
        ({
            let all = registry::announced(registry);
            if registry.suggestion_only {
                describes(all[0].parameters, Record::SuggestPromptArgs, 0)
            } else {
                &&& describes(all[0].parameters, Record::RunShellCommandArgs, 0)
                &&& describes(all[1].parameters, Record::ReadFilesArgs, 2)
                &&& describes(all[2].parameters, Record::EditFilesArgs, 1)
                &&& describes(all[3].parameters, Record::GrepArgs, 0)
                &&& describes(all[4].parameters, Record::FileGlobArgs, 0)
                &&& describes(all[5].parameters, Record::ReadMcpResourceArgs, 0)
            }
        }),
{
    run_shell_command_schema_describes();
    read_files_schema_describes();
    edit_files_schema_describes();
    grep_schema_describes();
    file_glob_schema_describes();
    read_mcp_resource_schema_describes();
    suggest_prompt_schema_describes();
}

/// Whether a schema has a property with a description.
pub open spec fn explains(schema: JsonView, key: Seq<char>, words: Seq<char>) -> bool {
    exists|properties: Seq<(Seq<char>, JsonView)>, property: JsonView|
        #![trigger
            holds(schema, "properties"@, JsonView::Object(properties)),
            properties.contains((key, property))
        ]
        holds(schema, "properties"@, JsonView::Object(properties)) && properties.contains(
            (key, property),
        ) && holds(property, "description"@, JsonView::Text(words))
}

/// Whether a schema has a property that is a list of what another schema describes.
pub open spec fn lists_items(schema: JsonView, key: Seq<char>, items: JsonView) -> bool {
    exists|properties: Seq<(Seq<char>, JsonView)>, property: JsonView|
        #![trigger
            holds(schema, "properties"@, JsonView::Object(properties)),
            properties.contains((key, property))
        ]
        holds(schema, "properties"@, JsonView::Object(properties)) && properties.contains(
            (key, property),
        ) && holds(property, "items"@, items)
}

/// Whether a schema requires the given properties and no other.
pub open spec fn requires_just(schema: JsonView, keys: Seq<Seq<char>>) -> bool {
    exists|names: Seq<JsonView>|
        #![trigger holds(schema, "required"@, JsonView::Array(names))]
        holds(schema, "required"@, JsonView::Array(names)) && names.len() == keys.len() && forall|
            i: int,
        |
            0 <= i < keys.len() ==> names[i] == JsonView::Text(#[trigger] keys[i])
}

proof fn record_requires(properties: Seq<(Seq<char>, JsonView)>, required: Seq<Seq<char>>)
    ensures
        requires_just(definitions::record(properties, required), required),
{
    let schema = definitions::record(properties, required);
    let names = required.map_values(|name: Seq<char>| JsonView::Text(name));
    assert(schema->Object_0[1] == ("required"@, JsonView::Array(names)));
    assert(holds(schema, "required"@, JsonView::Array(names)));
}

proof fn property_explains(
    properties: Seq<(Seq<char>, JsonView)>,
    required: Seq<Seq<char>>,
    at: int,
    words: Seq<char>,
)
    requires
        0 <= at < properties.len(),
        properties[at].1 is Object,
        properties[at].1->Object_0.len() > 0,
        properties[at].1->Object_0[0] == ("description"@, JsonView::Text(words)),
    ensures
        explains(definitions::record(properties, required), properties[at].0, words),
{
    let schema = definitions::record(properties, required);
    assert(schema->Object_0[0] == ("properties"@, JsonView::Object(properties)));
    assert(holds(schema, "properties"@, JsonView::Object(properties)));
    assert(properties.contains((properties[at].0, properties[at].1)));
    assert(holds(properties[at].1, "description"@, JsonView::Text(words)));
}

proof fn property_lists(
    properties: Seq<(Seq<char>, JsonView)>,
    required: Seq<Seq<char>>,
    at: int,
    items: JsonView,
)
    requires
        0 <= at < properties.len(),
        properties[at].1 == definitions::list_of(items),
    ensures
        lists_items(definitions::record(properties, required), properties[at].0, items),
{
    let schema = definitions::record(properties, required);
    assert(schema->Object_0[0] == ("properties"@, JsonView::Object(properties)));
    assert(holds(schema, "properties"@, JsonView::Object(properties)));
    assert(properties.contains((properties[at].0, properties[at].1)));
    assert(properties[at].1->Object_0[0] == ("items"@, items));
    assert(holds(properties[at].1, "items"@, items));
}

proof fn run_shell_command_schema_explains()
    ensures
        explains(
            definitions::run_shell_command_schema(),
            "command"@,
            "The exact shell command to execute."@,
        ),
        explains(
            definitions::run_shell_command_schema(),
            "is_read_only"@,
            "True if the command only reads state and has no side effects."@,
        ),
        explains(
            definitions::run_shell_command_schema(),
            "is_risky"@,
            "True if the command could have destructive or hard-to-reverse effects."@,
        ),
        requires_just(definitions::run_shell_command_schema(), seq!["command"@]),
{
    let properties = definitions::run_shell_command_schema()->Object_0[0].1->Object_0;
    let required = seq!["command"@];
    assert(definitions::run_shell_command_schema() == definitions::record(properties, required));
    record_requires(properties, required);
    assert(properties[0].0 == "command"@);
    property_explains(properties, required, 0, "The exact shell command to execute."@);
    assert(properties[1].0 == "is_read_only"@);
    property_explains(properties, required, 1, "True if the command only reads state and has no side effects."@);
    assert(properties[2].0 == "is_risky"@);
    property_explains(properties, required, 2, "True if the command could have destructive or hard-to-reverse effects."@);
}

proof fn line_range_schema_explains()
    ensures
        explains(
            definitions::line_range_schema(),
            "end"@,
            "Last line, 1-based, inclusive."@,
        ),
        explains(
            definitions::line_range_schema(),
            "start"@,
            "First line, 1-based, inclusive."@,
        ),
        requires_just(definitions::line_range_schema(), seq!["start"@, "end"@]),
{
    let properties = definitions::line_range_schema()->Object_0[0].1->Object_0;
    let required = seq!["start"@, "end"@];
    assert(definitions::line_range_schema() == definitions::record(properties, required));
    record_requires(properties, required);
    assert(properties[0].0 == "end"@);
    property_explains(properties, required, 0, "Last line, 1-based, inclusive."@);
    assert(properties[1].0 == "start"@);
    property_explains(properties, required, 1, "First line, 1-based, inclusive."@);
}

proof fn file_schema_explains()
    ensures
        lists_items(definitions::file_schema(), "line_ranges"@, definitions::line_range_schema()),
        explains(
            definitions::file_schema(),
            "path"@,
            "Path to the file."@,
        ),
        requires_just(definitions::file_schema(), seq!["path"@]),
{
    let properties = definitions::file_schema()->Object_0[0].1->Object_0;
    let required = seq!["path"@];
    assert(definitions::file_schema() == definitions::record(properties, required));
    record_requires(properties, required);
    assert(properties[0].0 == "line_ranges"@);
    property_lists(properties, required, 0, definitions::line_range_schema());
    assert(properties[1].0 == "path"@);
    property_explains(properties, required, 1, "Path to the file."@);
}

proof fn read_files_schema_explains()
    ensures
        lists_items(definitions::read_files_schema(), "files"@, definitions::file_schema()),
        requires_just(definitions::read_files_schema(), seq!["files"@]),
{
    let properties = definitions::read_files_schema()->Object_0[0].1->Object_0;
    let required = seq!["files"@];
    assert(definitions::read_files_schema() == definitions::record(properties, required));
    record_requires(properties, required);
    assert(properties[0].0 == "files"@);
    property_lists(properties, required, 0, definitions::file_schema());
}

proof fn diff_schema_explains()
    ensures
        explains(
            definitions::diff_schema(),
            "replace"@,
            "Text to replace it with."@,
        ),
        explains(
            definitions::diff_schema(),
            "search"@,
            "Exact text to find in the file."@,
        ),
        requires_just(definitions::diff_schema(), seq!["file_path"@, "search"@, "replace"@]),
{
    let properties = definitions::diff_schema()->Object_0[0].1->Object_0;
    let required = seq!["file_path"@, "search"@, "replace"@];
    assert(definitions::diff_schema() == definitions::record(properties, required));
    record_requires(properties, required);
    assert(properties[1].0 == "replace"@);
    property_explains(properties, required, 1, "Text to replace it with."@);
    assert(properties[2].0 == "search"@);
    property_explains(properties, required, 2, "Exact text to find in the file."@);
}

proof fn new_file_schema_explains()
    ensures
        requires_just(definitions::new_file_schema(), seq!["file_path"@, "content"@]),
{
    let properties = definitions::new_file_schema()->Object_0[0].1->Object_0;
    let required = seq!["file_path"@, "content"@];
    assert(definitions::new_file_schema() == definitions::record(properties, required));
    record_requires(properties, required);
}

proof fn edit_files_schema_explains()
    ensures
        explains(
            definitions::edit_files_schema(),
            "deleted_files"@,
            "Paths of files to delete."@,
        ),
        lists_items(definitions::edit_files_schema(), "diffs"@, definitions::diff_schema()),
        lists_items(definitions::edit_files_schema(), "new_files"@, definitions::new_file_schema()),
        explains(
            definitions::edit_files_schema(),
            "summary"@,
            "A short human-readable summary of the change."@,
        ),
        requires_just(definitions::edit_files_schema(), seq!["summary"@]),
{
    let properties = definitions::edit_files_schema()->Object_0[0].1->Object_0;
    let required = seq!["summary"@];
    assert(definitions::edit_files_schema() == definitions::record(properties, required));
    record_requires(properties, required);
    assert(properties[0].0 == "deleted_files"@);
    property_explains(properties, required, 0, "Paths of files to delete."@);
    assert(properties[1].0 == "diffs"@);
    property_lists(properties, required, 1, definitions::diff_schema());
    assert(properties[2].0 == "new_files"@);
    property_lists(properties, required, 2, definitions::new_file_schema());
    assert(properties[3].0 == "summary"@);
    property_explains(properties, required, 3, "A short human-readable summary of the change."@);
}

proof fn grep_schema_explains()
    ensures
        explains(
            definitions::grep_schema(),
            "path"@,
            "Directory or file to search in. Defaults to the working directory."@,
        ),
        explains(
            definitions::grep_schema(),
            "queries"@,
            "Regular expressions to search for."@,
        ),
        requires_just(definitions::grep_schema(), seq!["queries"@]),
{
    let properties = definitions::grep_schema()->Object_0[0].1->Object_0;
    let required = seq!["queries"@];
    assert(definitions::grep_schema() == definitions::record(properties, required));
    record_requires(properties, required);
    assert(properties[0].0 == "path"@);
    property_explains(properties, required, 0, "Directory or file to search in. Defaults to the working directory."@);
    assert(properties[1].0 == "queries"@);
    property_explains(properties, required, 1, "Regular expressions to search for."@);
}

proof fn file_glob_schema_explains()
    ensures
        explains(
            definitions::file_glob_schema(),
            "patterns"@,
            "Glob patterns to match file names against."@,
        ),
        explains(
            definitions::file_glob_schema(),
            "search_dir"@,
            "Directory to search in. Defaults to the working directory."@,
        ),
        requires_just(definitions::file_glob_schema(), seq!["patterns"@]),
{
    let properties = definitions::file_glob_schema()->Object_0[0].1->Object_0;
    let required = seq!["patterns"@];
    assert(definitions::file_glob_schema() == definitions::record(properties, required));
    record_requires(properties, required);
    assert(properties[0].0 == "patterns"@);
    property_explains(properties, required, 0, "Glob patterns to match file names against."@);
    assert(properties[1].0 == "search_dir"@);
    property_explains(properties, required, 1, "Directory to search in. Defaults to the working directory."@);
}

proof fn read_mcp_resource_schema_explains()
    ensures
        explains(
            definitions::read_mcp_resource_schema(),
            "server_id"@,
            "Identifier of the MCP server providing the resource."@,
        ),
        explains(
            definitions::read_mcp_resource_schema(),
            "uri"@,
            "URI of the resource to read."@,
        ),
        requires_just(definitions::read_mcp_resource_schema(), seq!["uri"@]),
{
    let properties = definitions::read_mcp_resource_schema()->Object_0[0].1->Object_0;
    let required = seq!["uri"@];
    assert(definitions::read_mcp_resource_schema() == definitions::record(properties, required));
    record_requires(properties, required);
    assert(properties[0].0 == "server_id"@);
    property_explains(properties, required, 0, "Identifier of the MCP server providing the resource."@);
    assert(properties[1].0 == "uri"@);
    property_explains(properties, required, 1, "URI of the resource to read."@);
}

proof fn suggest_prompt_schema_explains()
    ensures
        explains(
            definitions::suggest_prompt_schema(),
            "is_trigger_irrelevant"@,
            "True if the suggestion is useful but unrelated to the event that triggered it."@,
        ),
        explains(
            definitions::suggest_prompt_schema(),
            "label"@,
            "Optional short display label; omit to display the prompt itself."@,
        ),
        explains(
            definitions::suggest_prompt_schema(),
            "prompt"@,
            "The full prompt to send to the agent if the user accepts the suggestion."@,
        ),
        requires_just(definitions::suggest_prompt_schema(), seq!["prompt"@]),
{
    let properties = definitions::suggest_prompt_schema()->Object_0[0].1->Object_0;
    let required = seq!["prompt"@];
    assert(definitions::suggest_prompt_schema() == definitions::record(properties, required));
    record_requires(properties, required);
    assert(properties[0].0 == "is_trigger_irrelevant"@);
    property_explains(properties, required, 0, "True if the suggestion is useful but unrelated to the event that triggered it."@);
    assert(properties[1].0 == "label"@);
    property_explains(properties, required, 1, "Optional short display label; omit to display the prompt itself."@);
    assert(properties[2].0 == "prompt"@);
    property_explains(properties, required, 2, "The full prompt to send to the agent if the user accepts the suggestion."@);
}

/// The model is told in words what each argument is for, which arguments it must give, and what the
/// lists among them hold.
pub proof fn arguments_are_explained()
    ensures
        explains(
            definitions::run_shell_command_schema(),
            "command"@,
            "The exact shell command to execute."@,
        ),
        explains(
            definitions::run_shell_command_schema(),
            "is_read_only"@,
            "True if the command only reads state and has no side effects."@,
        ),
        explains(
            definitions::run_shell_command_schema(),
            "is_risky"@,
            "True if the command could have destructive or hard-to-reverse effects."@,
        ),
        requires_just(definitions::run_shell_command_schema(), seq!["command"@]),
        explains(
            definitions::line_range_schema(),
            "end"@,
            "Last line, 1-based, inclusive."@,
        ),
        explains(
            definitions::line_range_schema(),
            "start"@,
            "First line, 1-based, inclusive."@,
        ),
        requires_just(definitions::line_range_schema(), seq!["start"@, "end"@]),
        lists_items(definitions::file_schema(), "line_ranges"@, definitions::line_range_schema()),
        explains(
            definitions::file_schema(),
            "path"@,
            "Path to the file."@,
        ),
        requires_just(definitions::file_schema(), seq!["path"@]),
        lists_items(definitions::read_files_schema(), "files"@, definitions::file_schema()),
        requires_just(definitions::read_files_schema(), seq!["files"@]),
        explains(
            definitions::diff_schema(),
            "replace"@,
            "Text to replace it with."@,
        ),
        explains(
            definitions::diff_schema(),
            "search"@,
            "Exact text to find in the file."@,
        ),
        requires_just(definitions::diff_schema(), seq!["file_path"@, "search"@, "replace"@]),
        requires_just(definitions::new_file_schema(), seq!["file_path"@, "content"@]),
        explains(
            definitions::edit_files_schema(),
            "deleted_files"@,
            "Paths of files to delete."@,
        ),
        lists_items(definitions::edit_files_schema(), "diffs"@, definitions::diff_schema()),
        lists_items(definitions::edit_files_schema(), "new_files"@, definitions::new_file_schema()),
        explains(
            definitions::edit_files_schema(),
            "summary"@,
            "A short human-readable summary of the change."@,
        ),
        requires_just(definitions::edit_files_schema(), seq!["summary"@]),
        explains(
            definitions::grep_schema(),
            "path"@,
            "Directory or file to search in. Defaults to the working directory."@,
        ),
        explains(
            definitions::grep_schema(),
            "queries"@,
            "Regular expressions to search for."@,
        ),
        requires_just(definitions::grep_schema(), seq!["queries"@]),
        explains(
            definitions::file_glob_schema(),
            "patterns"@,
            "Glob patterns to match file names against."@,
        ),
        explains(
            definitions::file_glob_schema(),
            "search_dir"@,
            "Directory to search in. Defaults to the working directory."@,
        ),
        requires_just(definitions::file_glob_schema(), seq!["patterns"@]),
        explains(
            definitions::read_mcp_resource_schema(),
            "server_id"@,
            "Identifier of the MCP server providing the resource."@,
        ),
        explains(
            definitions::read_mcp_resource_schema(),
            "uri"@,
            "URI of the resource to read."@,
        ),
        requires_just(definitions::read_mcp_resource_schema(), seq!["uri"@]),
        explains(
            definitions::suggest_prompt_schema(),
            "is_trigger_irrelevant"@,
            "True if the suggestion is useful but unrelated to the event that triggered it."@,
        ),
        explains(
            definitions::suggest_prompt_schema(),
            "label"@,
            "Optional short display label; omit to display the prompt itself."@,
        ),
        explains(
            definitions::suggest_prompt_schema(),
            "prompt"@,
            "The full prompt to send to the agent if the user accepts the suggestion."@,
        ),
        requires_just(definitions::suggest_prompt_schema(), seq!["prompt"@]),
{
    run_shell_command_schema_explains();
    line_range_schema_explains();
    file_schema_explains();
    read_files_schema_explains();
    diff_schema_explains();
    new_file_schema_explains();
    edit_files_schema_explains();
    grep_schema_explains();
    file_glob_schema_explains();
    read_mcp_resource_schema_explains();
    suggest_prompt_schema_explains();
}

/// The schemas that say so are the ones that are announced.
pub proof fn explained_schemas_are_announced(registry: ToolRegistryView)
    ensures
        ({
            let all = registry::announced(registry);
            if registry.suggestion_only {
                all[0].parameters == definitions::suggest_prompt_schema()
            } else {
                &&& all[0].parameters == definitions::run_shell_command_schema()
                &&& all[1].parameters == definitions::read_files_schema()
                &&& all[2].parameters == definitions::edit_files_schema()
                &&& all[3].parameters == definitions::grep_schema()
                &&& all[4].parameters == definitions::file_glob_schema()
                &&& all[5].parameters == definitions::read_mcp_resource_schema()
            }
        }),
{
}

} // verus!

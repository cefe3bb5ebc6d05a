//! Laws of the arguments that a model writes: what a logged call holds is what stands under each
//! key, and a call is taken exactly where every key holds what its tool asks for.

use vstd::prelude::*;

use crate::api::context;
use crate::api::context::FileContentLineRangeView;
use crate::api::tool::{
    ApplyFileDiffsView, DisplayModeView, FileDiffView, FileGlobV2View, GrepView, NewFileView,
    ReadFileView, ReadFilesView, ReadMcpResourceView, RunShellCommandView, ToolCallView,
    ToolView, WaitUntilCompleteValueView,
};
use crate::args;
use crate::args::{FieldKind, Record};
use crate::calls;
use crate::json;
use crate::json::{JsonNumberView, JsonView};
use crate::model::{AdapterErrorView, ToolCallRequestView};
use crate::registry;
use crate::registry::ToolRegistryView;
use crate::replay;
use crate::text;

verus! {

/// Whether arguments hold a value for a field: under its key in an object, or at its place in an
/// array.
pub open spec fn writes(json: JsonView, key: Seq<char>, at: int, value: JsonView) -> bool {
    match json {
        JsonView::Object(entries) => entries.contains((key, value)),
        JsonView::Array(items) => 0 <= at < items.len() && items[at] == value,
        _ => false,
    }
}

/// Whether arguments leave a field out.
pub open spec fn omits(json: JsonView, key: Seq<char>, at: int) -> bool {
    match json {
        JsonView::Object(entries) => forall|i: int|
            0 <= i < entries.len() ==> (#[trigger] entries[i]).0 != key,
        JsonView::Array(items) => items.len() <= at,
        _ => false,
    }
}

/// Whether arguments hold no field twice: none of the keys comes twice in an object, and an array
/// has no more items than there are fields.
pub open spec fn once(json: JsonView, keys: Seq<Seq<char>>) -> bool {
    match json {
        JsonView::Object(entries) => forall|i: int, j: int|
            0 <= i < j < entries.len() && (#[trigger] entries[i]).0 == (#[trigger] entries[j]).0
                ==> !keys.contains(entries[i].0),
        JsonView::Array(items) => items.len() <= keys.len(),
        _ => false,
    }
}

/// Whether a field holds a text, which is empty where the field is left out.
pub open spec fn says(json: JsonView, key: Seq<char>, at: int, content: Seq<char>) -> bool {
    writes(json, key, at, JsonView::Text(content)) || (omits(json, key, at) && content.len() == 0)
}

/// Whether a field holds a flag, which is down where the field is left out.
pub open spec fn flags(json: JsonView, key: Seq<char>, at: int, flag: bool) -> bool {
    writes(json, key, at, JsonView::Bool(flag)) || (omits(json, key, at) && !flag)
}

/// Whether a field holds an integer.
pub open spec fn counts(json: JsonView, key: Seq<char>, at: int, count: u32) -> bool {
    writes(json, key, at, JsonView::Number(JsonNumberView::PosInt(count as u64))) || writes(
        json,
        key,
        at,
        JsonView::Number(JsonNumberView::NegInt(count as i64)),
    )
}

/// Whether a field holds a list of texts.
pub open spec fn lists(json: JsonView, key: Seq<char>, at: int, texts: Seq<Seq<char>>) -> bool {
    exists|items: Seq<JsonView>|
        #![trigger writes(json, key, at, JsonView::Array(items))]
        writes(json, key, at, JsonView::Array(items)) && items.len() == texts.len() && forall|i: int|
            0 <= i < items.len() ==> #[trigger] items[i] == JsonView::Text(texts[i])
}

/// Whether arguments ask for a shell command.
pub open spec fn asks_shell(json: JsonView, shell: RunShellCommandView) -> bool {
    &&& once(json, seq!["command"@, "is_read_only"@, "is_risky"@])
    &&& writes(json, "command"@, 0, JsonView::Text(shell.command))
    &&& flags(json, "is_read_only"@, 1, shell.is_read_only)
    &&& flags(json, "is_risky"@, 2, shell.is_risky)
}

/// Whether a value gives a range of lines.
pub open spec fn asks_range(json: JsonView, range: FileContentLineRangeView) -> bool {
    &&& once(json, seq!["start"@, "end"@])
    &&& counts(json, "start"@, 0, range.start)
    &&& counts(json, "end"@, 1, range.end)
}

/// Whether a value gives a file to read, and the ranges of lines to read of it.
pub open spec fn asks_file(json: JsonView, file: ReadFileView) -> bool {
    &&& once(json, seq!["path"@, "line_ranges"@])
    &&& writes(json, "path"@, 0, JsonView::Text(file.name))
    &&& (omits(json, "line_ranges"@, 1) && file.line_ranges.len() == 0) || exists|
        items: Seq<JsonView>,
    |
        #![trigger writes(json, "line_ranges"@, 1, JsonView::Array(items))]
        writes(json, "line_ranges"@, 1, JsonView::Array(items)) && items.len()
            == file.line_ranges.len() && forall|i: int|
            0 <= i < items.len() ==> asks_range(#[trigger] items[i], file.line_ranges[i])
}

/// Whether arguments ask for files to be read.
pub open spec fn asks_files(json: JsonView, read: ReadFilesView) -> bool {
    &&& once(json, seq!["files"@])
    &&& exists|items: Seq<JsonView>|
        #![trigger writes(json, "files"@, 0, JsonView::Array(items))]
        writes(json, "files"@, 0, JsonView::Array(items)) && items.len() == read.files.len()
            && forall|i: int|
            0 <= i < items.len() ==> asks_file(#[trigger] items[i], read.files[i])
}

/// Whether a value gives one replacement in a file.
pub open spec fn asks_diff(json: JsonView, diff: FileDiffView) -> bool {
    &&& once(json, seq!["file_path"@, "search"@, "replace"@])
    &&& writes(json, "file_path"@, 0, JsonView::Text(diff.file_path))
    &&& writes(json, "search"@, 1, JsonView::Text(diff.search))
    &&& writes(json, "replace"@, 2, JsonView::Text(diff.replace))
}

/// Whether a value gives a file to create.
pub open spec fn asks_new_file(json: JsonView, file: NewFileView) -> bool {
    &&& once(json, seq!["file_path"@, "content"@, "allow_overwrite"@])
    &&& writes(json, "file_path"@, 0, JsonView::Text(file.file_path))
    &&& says(json, "content"@, 1, file.content)
    &&& flags(json, "allow_overwrite"@, 2, file.allow_overwrite)
}

/// Whether arguments ask for edits.
pub open spec fn asks_edits(json: JsonView, edits: ApplyFileDiffsView) -> bool {
    &&& once(json, seq!["summary"@, "diffs"@, "new_files"@, "deleted_files"@])
    &&& says(json, "summary"@, 0, edits.summary)
    &&& (omits(json, "diffs"@, 1) && edits.diffs.len() == 0) || exists|items: Seq<JsonView>|
        #![trigger writes(json, "diffs"@, 1, JsonView::Array(items))]
        writes(json, "diffs"@, 1, JsonView::Array(items)) && items.len() == edits.diffs.len()
            && forall|i: int|
            0 <= i < items.len() ==> asks_diff(#[trigger] items[i], edits.diffs[i])
    &&& (omits(json, "new_files"@, 2) && edits.new_files.len() == 0) || exists|
        items: Seq<JsonView>,
    |
        #![trigger writes(json, "new_files"@, 2, JsonView::Array(items))]
        writes(json, "new_files"@, 2, JsonView::Array(items)) && items.len()
            == edits.new_files.len() && forall|i: int|
            0 <= i < items.len() ==> asks_new_file(#[trigger] items[i], edits.new_files[i])
    &&& (omits(json, "deleted_files"@, 3) && edits.deleted_files.len() == 0) || exists|
        items: Seq<JsonView>,
    |
        #![trigger writes(json, "deleted_files"@, 3, JsonView::Array(items))]
        writes(json, "deleted_files"@, 3, JsonView::Array(items)) && items.len()
            == edits.deleted_files.len() && forall|i: int|
            0 <= i < items.len() ==> #[trigger] items[i] == JsonView::Text(
                edits.deleted_files[i].file_path,
            )
}

/// Whether arguments ask for a search of contents.
pub open spec fn asks_grep(json: JsonView, grep: GrepView) -> bool {
    &&& once(json, seq!["queries"@, "path"@])
    &&& lists(json, "queries"@, 0, grep.queries)
    &&& says(json, "path"@, 1, grep.path)
}

/// Whether arguments ask for a search of file names.
pub open spec fn asks_glob(
    json: JsonView,
    patterns: Seq<Seq<char>>,
    search_dir: Seq<char>,
) -> bool {
    &&& once(json, seq!["patterns"@, "search_dir"@])
    &&& lists(json, "patterns"@, 0, patterns)
    &&& says(json, "search_dir"@, 1, search_dir)
}

/// Whether arguments ask for an MCP resource.
pub open spec fn asks_resource(json: JsonView, read: ReadMcpResourceView) -> bool {
    &&& once(json, seq!["uri"@, "server_id"@])
    &&& writes(json, "uri"@, 0, JsonView::Text(read.uri))
    &&& says(json, "server_id"@, 1, read.server_id)
}

/// Whether arguments make a suggestion.
pub open spec fn asks_prompt(
    json: JsonView,
    prompt: Seq<char>,
    label: Seq<char>,
    irrelevant: bool,
) -> bool {
    &&& once(json, seq!["prompt"@, "label"@, "is_trigger_irrelevant"@])
    &&& writes(json, "prompt"@, 0, JsonView::Text(prompt))
    &&& says(json, "label"@, 1, label)
    &&& flags(json, "is_trigger_irrelevant"@, 2, irrelevant)
}

spec fn names(record: Record) -> Seq<Seq<char>> {
    Seq::new(args::record_fields(record).len(), |k: int| args::record_fields(record)[k].name)
}

/// Whether the field at `k` of a record is read as a value.
spec fn field_reads(record: Record, json: JsonView, k: int, value: JsonView) -> bool {
    let field = args::record_fields(record)[k];
    (omits(json, field.name, k) && !field.required && value == args::empty_value(field.kind))
        || exists|raw: JsonView|
        #![trigger writes(json, field.name, k, raw)]
        writes(json, field.name, k, raw) && args::read_value(field.kind, raw) == Ok::<
            JsonView,
            Seq<char>,
        >(value)
}

/// Whether a record is read as a row of values.
spec fn reads(record: Record, json: JsonView, row: Seq<JsonView>) -> bool {
    &&& row.len() == args::record_fields(record).len()
    &&& once(json, names(record))
    &&& forall|k: int| 0 <= k < row.len() ==> #[trigger] field_reads(record, json, k, row[k])
}

proof fn index_finds(record: Record, key: Seq<char>, count: nat)
    requires
        count <= args::record_fields(record).len(),
    ensures
        match args::field_index(args::record_fields(record), key, count) {
            Some(at) => 0 <= at < count && args::record_fields(record)[at].name == key,
            None => forall|k: int|
                0 <= k < count ==> (#[trigger] args::record_fields(record)[k]).name != key,
        },
    decreases count,
{
    if count > 0 {
        index_finds(record, key, (count - 1) as nat);
    }
}

/// Whether the first `count` entries of an object are all readable, and hold no field twice.
spec fn fine(record: Record, entries: Seq<(Seq<char>, JsonView)>, count: nat) -> bool {
    let fields = args::record_fields(record);
    &&& forall|i: int, k: int|
        0 <= i < count && 0 <= k < fields.len() && (#[trigger] entries[i]).0 == (
        #[trigger] fields[k]).name ==> args::read_value(fields[k].kind, entries[i].1) is Ok
    &&& forall|i: int, j: int|
        0 <= i < j < count && (#[trigger] entries[i]).0 == (#[trigger] entries[j]).0 ==> !names(
            record,
        ).contains(entries[i].0)
}

/// What the slots hold after the first `count` entries.
spec fn slots_hold(
    record: Record,
    entries: Seq<(Seq<char>, JsonView)>,
    count: nat,
    slots: Seq<Option<JsonView>>,
) -> bool {
    let fields = args::record_fields(record);
    &&& slots.len() == fields.len()
    &&& forall|k: int|
        #![trigger slots[k]]
        0 <= k < fields.len() ==> match slots[k] {
            Some(value) => exists|i: int|
                0 <= i < count && (#[trigger] entries[i]).0 == fields[k].name && args::read_value(
                    fields[k].kind,
                    entries[i].1,
                ) == Ok::<JsonView, Seq<char>>(value),
            None => forall|i: int|
                0 <= i < count ==> (#[trigger] entries[i]).0 != fields[k].name,
        }
}

proof fn entries_fill_slots(record: Record, entries: Seq<(Seq<char>, JsonView)>, count: nat)
    requires
        count <= entries.len(),
    ensures
        match args::read_entries(record, entries, count) {
            Ok(slots) => fine(record, entries, count) && slots_hold(record, entries, count, slots),
            Err(_) => !fine(record, entries, count),
        },
    decreases count,
{
    let fields = args::record_fields(record);
    if count > 0 {
        let less = (count - 1) as nat;
        entries_fill_slots(record, entries, less);
        replay::field_names_differ(record);
        let key = entries[count - 1].0;
        index_finds(record, key, fields.len());
        assert(forall|k: int| 0 <= k < fields.len() ==> names(record)[k] == fields[k].name);
        if fine(record, entries, count) {
            assert(fine(record, entries, less));
        }
        match args::read_entries(record, entries, less) {
            Ok(slots) => {
                match args::field_index(fields, key, fields.len()) {
                    Some(at) => {
                        assert(names(record)[at] == key);
                        assert(names(record).contains(key));
                        if slots[at] is Some {
                            let i = choose|i: int|
                                0 <= i < less && (#[trigger] entries[i]).0 == fields[at].name
                                    && args::read_value(fields[at].kind, entries[i].1) == Ok::<
                                    JsonView,
                                    Seq<char>,
                                >(slots[at]->0);
                            assert(entries[i].0 == entries[count - 1].0);
                            assert(!fine(record, entries, count));
                        } else {
                            match args::read_value(fields[at].kind, entries[count - 1].1) {
                                Ok(value) => {
                                    let after = slots.update(at, Some(value));
                                    assert forall|k: int| #![trigger after[k]]
                                        0 <= k < fields.len() implies match after[k] {
                                        Some(value) => exists|i: int|
                                            0 <= i < count && (#[trigger] entries[i]).0
                                                == fields[k].name && args::read_value(
                                                fields[k].kind,
                                                entries[i].1,
                                            ) == Ok::<JsonView, Seq<char>>(value),
                                        None => forall|i: int|
                                            0 <= i < count ==> (#[trigger] entries[i]).0
                                                != fields[k].name,
                                    } by {
                                        if k == at {
                                            assert(entries[count - 1].0 == fields[k].name);
                                        } else {
                                            assert(after[k] == slots[k]);
                                            if let Some(held) = slots[k] {
                                                let i = choose|i: int|
                                                    0 <= i < less && (#[trigger] entries[i]).0
                                                        == fields[k].name && args::read_value(
                                                        fields[k].kind,
                                                        entries[i].1,
                                                    ) == Ok::<JsonView, Seq<char>>(held);
                                                assert(entries[i].0 == fields[k].name);
                                            } else {
                                                assert(fields[k].name != fields[at].name);
                                            }
                                        }
                                    }
                                    assert(slots_hold(record, entries, count, after));
                                    assert forall|i: int, k: int|
                                        0 <= i < count && 0 <= k < fields.len() && (
                                        #[trigger] entries[i]).0 == (#[trigger] fields[k]).name implies
                                        args::read_value(fields[k].kind, entries[i].1) is Ok by {
                                        if i == count - 1 {
                                            assert(k == at);
                                        }
                                    }
                                    assert(fine(record, entries, count));
                                },
                                Err(_) => {
                                    assert(entries[count - 1].0 == fields[at].name);
                                    assert(!fine(record, entries, count));
                                },
                            }
                        }
                    },
                    None => {
                        if names(record).contains(key) {
                            let k = names(record).index_of(key);
                            assert(fields[k].name == key);
                        }
                        assert forall|k: int| #![trigger slots[k]]
                            0 <= k < fields.len() implies match slots[k] {
                            Some(value) => exists|i: int|
                                0 <= i < count && (#[trigger] entries[i]).0 == fields[k].name
                                    && args::read_value(fields[k].kind, entries[i].1) == Ok::<
                                    JsonView,
                                    Seq<char>,
                                >(value),
                            None => forall|i: int|
                                0 <= i < count ==> (#[trigger] entries[i]).0 != fields[k].name,
                        } by {
                            if let Some(held) = slots[k] {
                                let i = choose|i: int|
                                    0 <= i < less && (#[trigger] entries[i]).0 == fields[k].name
                                        && args::read_value(fields[k].kind, entries[i].1) == Ok::<
                                        JsonView,
                                        Seq<char>,
                                    >(held);
                                assert(entries[i].0 == fields[k].name);
                            } else {
                                assert(fields[k].name != key);
                            }
                        }
                        assert(slots_hold(record, entries, count, slots));
                        assert(fine(record, entries, count));
                    },
                }
            },
            Err(_) => {},
        }
    }
}

proof fn slots_settle(record: Record, slots: Seq<Option<JsonView>>, count: nat)
    requires
        count <= args::record_fields(record).len(),
        slots.len() == args::record_fields(record).len(),
    ensures
        match args::settle(args::record_fields(record), slots, count) {
            Ok(values) => values.len() == count && forall|k: int|
                #![trigger values[k]]
                0 <= k < count ==> match slots[k] {
                    Some(value) => values[k] == value,
                    None => !args::record_fields(record)[k].required && values[k]
                        == args::empty_value(args::record_fields(record)[k].kind),
                },
            Err(_) => exists|k: int|
                0 <= k < count && (#[trigger] slots[k]) is None && args::record_fields(
                    record,
                )[k].required,
        },
    decreases count,
{
    if count > 0 {
        slots_settle(record, slots, (count - 1) as nat);
        if args::settle(args::record_fields(record), slots, (count - 1) as nat) is Ok
            && slots[count - 1] is None && args::record_fields(record)[count - 1].required {
            assert(slots[count - 1] is None);
        }
    }
}

proof fn positions_read(record: Record, items: Seq<JsonView>, count: nat)
    requires
        count <= args::record_fields(record).len(),
    ensures
        match args::read_positions(record, items, count) {
            Ok(values) => values.len() == count && forall|k: int|
                #![trigger values[k]]
                0 <= k < count ==> if k < items.len() {
                    args::read_value(args::record_fields(record)[k].kind, items[k]) == Ok::<
                        JsonView,
                        Seq<char>,
                    >(values[k])
                } else {
                    !args::record_fields(record)[k].required && values[k] == args::empty_value(
                        args::record_fields(record)[k].kind,
                    )
                },
            Err(_) => exists|k: int|
                #![trigger args::record_fields(record)[k]]
                0 <= k < count && if k < items.len() {
                    args::read_value(args::record_fields(record)[k].kind, items[k]) is Err
                } else {
                    args::record_fields(record)[k].required
                },
        },
    decreases count,
{
    if count > 0 {
        positions_read(record, items, (count - 1) as nat);
        let field = args::record_fields(record)[count - 1];
        assert(field == args::record_fields(record)[count - 1]);
    }
}

/// A field is read as one value only.
proof fn field_reads_one(record: Record, json: JsonView, k: int, left: JsonView, right: JsonView)
    requires
        0 <= k < args::record_fields(record).len(),
        once(json, names(record)),
        field_reads(record, json, k, left),
        field_reads(record, json, k, right),
    ensures
        left == right,
{
    let field = args::record_fields(record)[k];
    assert(names(record)[k] == field.name);
    assert(names(record).contains(field.name));
    if let JsonView::Object(entries) = json {
        if omits(json, field.name, k) {
            assert forall|raw: JsonView| !writes(json, field.name, k, raw) by {
                if entries.contains((field.name, raw)) {
                    let i = entries.index_of((field.name, raw));
                    assert(entries[i].0 == field.name);
                }
            }
        } else {
            let a = choose|raw: JsonView|
                #![trigger writes(json, field.name, k, raw)]
                writes(json, field.name, k, raw) && args::read_value(field.kind, raw) == Ok::<
                    JsonView,
                    Seq<char>,
                >(left);
            let b = choose|raw: JsonView|
                #![trigger writes(json, field.name, k, raw)]
                writes(json, field.name, k, raw) && args::read_value(field.kind, raw) == Ok::<
                    JsonView,
                    Seq<char>,
                >(right);
            let i = entries.index_of((field.name, a));
            let j = entries.index_of((field.name, b));
            if i != j {
                assert(entries[i].0 == entries[j].0);
            }
        }
    }
}

/// A record is read exactly as the values that stand for its fields.
proof fn record_reads(record: Record, json: JsonView)
    ensures
        match args::read_record(record, json) {
            Ok(read) => read is Array && reads(record, json, read->Array_0),
            Err(_) => forall|row: Seq<JsonView>| !#[trigger] reads(record, json, row),
        },
        forall|row: Seq<JsonView>| #[trigger]
            reads(record, json, row) ==> args::read_record(record, json) == Ok::<
                JsonView,
                Seq<char>,
            >(JsonView::Array(row)),
{
    let fields = args::record_fields(record);
    assert(names(record).len() == fields.len());
    assert(forall|k: int| 0 <= k < fields.len() ==> names(record)[k] == fields[k].name);
    match json {
        JsonView::Object(entries) => {
            entries_fill_slots(record, entries, entries.len());
            match args::read_entries(record, entries, entries.len()) {
                Ok(slots) => {
                    slots_settle(record, slots, fields.len());
                    match args::settle(fields, slots, fields.len()) {
                        Ok(values) => {
                            assert forall|k: int| 0 <= k < values.len() implies #[trigger] field_reads(
                                record,
                                json,
                                k,
                                values[k],
                            ) by {
                                if let Some(value) = slots[k] {
                                    let i = choose|i: int|
                                        0 <= i < entries.len() && (#[trigger] entries[i]).0
                                            == fields[k].name && args::read_value(
                                            fields[k].kind,
                                            entries[i].1,
                                        ) == Ok::<JsonView, Seq<char>>(value);
                                    assert(entries[i] == (fields[k].name, entries[i].1));
                                    assert(entries.contains((fields[k].name, entries[i].1)));
                                    assert(writes(json, fields[k].name, k, entries[i].1));
                                }
                            }
                            assert(reads(record, json, values));
                        },
                        Err(_) => {
                            let k = choose|k: int|
                                0 <= k < fields.len() && (#[trigger] slots[k]) is None
                                    && fields[k].required;
                            assert forall|row: Seq<JsonView>| !#[trigger] reads(
                                record,
                                json,
                                row,
                            ) by {
                                if reads(record, json, row) {
                                    assert(field_reads(record, json, k, row[k]));
                                    let raw = choose|raw: JsonView|
                                        #![trigger writes(json, fields[k].name, k, raw)]
                                        writes(json, fields[k].name, k, raw) && args::read_value(
                                            fields[k].kind,
                                            raw,
                                        ) == Ok::<JsonView, Seq<char>>(row[k]);
                                    let i = entries.index_of((fields[k].name, raw));
                                    assert(entries[i].0 == fields[k].name);
                                }
                            }
                        },
                    }
                },
                Err(_) => {
                    assert forall|row: Seq<JsonView>| !#[trigger] reads(record, json, row) by {
                        if reads(record, json, row) {
                            assert forall|i: int, k: int|
                                0 <= i < entries.len() && 0 <= k < fields.len() && (
                                #[trigger] entries[i]).0 == (#[trigger] fields[k]).name implies
                                args::read_value(fields[k].kind, entries[i].1) is Ok by {
                                assert(field_reads(record, json, k, row[k]));
                                let raw = choose|raw: JsonView|
                                    #![trigger writes(json, fields[k].name, k, raw)]
                                    writes(json, fields[k].name, k, raw) && args::read_value(
                                        fields[k].kind,
                                        raw,
                                    ) == Ok::<JsonView, Seq<char>>(row[k]);
                                let j = entries.index_of((fields[k].name, raw));
                                assert(names(record).contains(fields[k].name)) by {
                                    assert(names(record)[k] == fields[k].name);
                                }
                                if i != j {
                                    assert(entries[i].0 == entries[j].0);
                                }
                            }
                            assert(fine(record, entries, entries.len()));
                        }
                    }
                },
            }
        },
        JsonView::Array(items) => {
            positions_read(record, items, fields.len());
            match args::read_positions(record, items, fields.len()) {
                Ok(values) => {
                    assert forall|k: int| 0 <= k < values.len() implies #[trigger] field_reads(
                        record,
                        json,
                        k,
                        values[k],
                    ) by {
                        if k < items.len() {
                            assert(writes(json, fields[k].name, k, items[k]));
                        }
                    }
                    if items.len() <= fields.len() {
                        assert(reads(record, json, values));
                    }
                },
                Err(_) => {
                    let k = choose|k: int|
                        #![trigger args::record_fields(record)[k]]
                        0 <= k < fields.len() && if k < items.len() {
                            args::read_value(args::record_fields(record)[k].kind, items[k]) is Err
                        } else {
                            args::record_fields(record)[k].required
                        };
                    assert forall|row: Seq<JsonView>| !#[trigger] reads(record, json, row) by {
                        if reads(record, json, row) {
                            assert(field_reads(record, json, k, row[k]));
                        }
                    }
                },
            }
        },
        _ => {},
    }
    assert forall|row: Seq<JsonView>| #[trigger]
        reads(record, json, row) implies args::read_record(record, json) == Ok::<
        JsonView,
        Seq<char>,
    >(JsonView::Array(row)) by {
        let read = args::read_record(record, json)->Ok_0->Array_0;
        assert forall|k: int| 0 <= k < row.len() implies row[k] == read[k] by {
            assert(field_reads(record, json, k, row[k]));
            assert(field_reads(record, json, k, read[k]));
            field_reads_one(record, json, k, row[k], read[k]);
        }
        assert(row =~= read);
    }
}

proof fn items_read(record: Option<Record>, items: Seq<JsonView>, count: nat)
    requires
        count <= items.len(),
    ensures
        match args::read_items(record, items, count) {
            Ok(read) => read is Array && read->Array_0.len() == count && forall|i: int|
                #![trigger items[i]]
                #![trigger read->Array_0[i]]
                0 <= i < count ==> item_reads(record, items[i]) == Ok::<JsonView, Seq<char>>(
                    read->Array_0[i],
                ),
            Err(_) => exists|i: int| 0 <= i < count && item_reads(record, #[trigger] items[i]) is Err,
        },
    decreases count,
{
    if count > 0 {
        items_read(record, items, (count - 1) as nat);
        if args::read_items(record, items, (count - 1) as nat) is Ok && item_reads(
            record,
            items[count - 1],
        ) is Err {
            assert(item_reads(record, items[count - 1]) is Err);
        }
    }
}

spec fn item_reads(record: Option<Record>, item: JsonView) -> Result<JsonView, Seq<char>> {
    match record {
        Some(record) => args::read_record(record, item),
        None => args::read_value(FieldKind::Text, item),
    }
}

/// What the field at `k` of a record says where it is read, by the kind of the field.
proof fn field_tells(record: Record, json: JsonView, k: int, value: JsonView)
    requires
        0 <= k < args::record_fields(record).len(),
        field_reads(record, json, k, value),
    ensures
        ({
            let field = args::record_fields(record)[k];
            match field.kind {
                FieldKind::Text => value is Text && says(json, field.name, k, value->Text_0) && (
                field.required ==> writes(json, field.name, k, value)),
                FieldKind::Flag => value is Bool && flags(json, field.name, k, value->Bool_0),
                FieldKind::Count => field.required ==> json::count_of(value) is Some && counts(
                    json,
                    field.name,
                    k,
                    json::count_of(value)->0,
                ),
                FieldKind::Texts => value is Array && (omits(json, field.name, k)
                    && !field.required && value->Array_0.len() == 0 || writes(
                    json,
                    field.name,
                    k,
                    value,
                ) && forall|i: int|
                    0 <= i < value->Array_0.len() ==> (#[trigger] value->Array_0[i]) is Text),
                FieldKind::Records(inner) => value is Array && (omits(json, field.name, k)
                    && !field.required && value->Array_0.len() == 0 || exists|items: Seq<JsonView>|
                    #![trigger writes(json, field.name, k, JsonView::Array(items))]
                    writes(json, field.name, k, JsonView::Array(items)) && items.len()
                        == value->Array_0.len() && forall|i: int|
                        0 <= i < items.len() ==> args::read_record(inner, #[trigger] items[i])
                            == Ok::<JsonView, Seq<char>>(value->Array_0[i])),
            }
        }),
{
    let field = args::record_fields(record)[k];
    if !(omits(json, field.name, k) && !field.required && value == args::empty_value(field.kind)) {
        let raw = choose|raw: JsonView|
            #![trigger writes(json, field.name, k, raw)]
            writes(json, field.name, k, raw) && args::read_value(field.kind, raw) == Ok::<
                JsonView,
                Seq<char>,
            >(value);
        match field.kind {
            FieldKind::Texts => {
                let items = raw->Array_0;
                items_read(None, items, items.len());
                assert(value->Array_0 =~= items) by {
                    assert forall|i: int| 0 <= i < items.len() implies value->Array_0[i]
                        == items[i] by {
                        assert(item_reads(None, items[i]) == Ok::<JsonView, Seq<char>>(
                            value->Array_0[i],
                        ));
                    }
                }
                assert forall|i: int| 0 <= i < items.len() implies (
                #[trigger] value->Array_0[i]) is Text by {
                    assert(item_reads(None, items[i]) is Ok);
                }
            },
            FieldKind::Records(inner) => {
                let items = raw->Array_0;
                items_read(Some(inner), items, items.len());
                assert forall|i: int| 0 <= i < items.len() implies args::read_record(
                    inner,
                    #[trigger] items[i],
                ) == Ok::<JsonView, Seq<char>>(value->Array_0[i]) by {
                    assert(item_reads(Some(inner), items[i]) == Ok::<JsonView, Seq<char>>(
                        value->Array_0[i],
                    ));
                }
                assert(writes(json, field.name, k, JsonView::Array(items)));
            },
            FieldKind::Count => {
                let number = raw->Number_0;
                let count = json::count_of(raw)->0;
                if let JsonNumberView::NegInt(n) = number {
                    assert(n == count as i64);
                }
            },
            _ => {},
        }
    }
}

/// A field that says a value is read as it.
proof fn text_reads(record: Record, json: JsonView, k: int, content: Seq<char>)
    requires
        0 <= k < args::record_fields(record).len(),
        args::record_fields(record)[k].kind == FieldKind::Text,
        if args::record_fields(record)[k].required {
            writes(json, args::record_fields(record)[k].name, k, JsonView::Text(content))
        } else {
            says(json, args::record_fields(record)[k].name, k, content)
        },
    ensures
        field_reads(record, json, k, JsonView::Text(content)),
{
    let field = args::record_fields(record)[k];
    let value = JsonView::Text(content);
    if writes(json, field.name, k, value) {
        assert(args::read_value(field.kind, value) == Ok::<JsonView, Seq<char>>(value));
    } else {
        assert(content =~= Seq::empty());
    }
}

proof fn flag_reads(record: Record, json: JsonView, k: int, flag: bool)
    requires
        0 <= k < args::record_fields(record).len(),
        args::record_fields(record)[k].kind == FieldKind::Flag,
        !args::record_fields(record)[k].required,
        flags(json, args::record_fields(record)[k].name, k, flag),
    ensures
        field_reads(record, json, k, JsonView::Bool(flag)),
{
    let field = args::record_fields(record)[k];
    let value = JsonView::Bool(flag);
    if writes(json, field.name, k, value) {
        assert(args::read_value(field.kind, value) == Ok::<JsonView, Seq<char>>(value));
    }
}

proof fn count_reads(record: Record, json: JsonView, k: int, count: u32)
    requires
        0 <= k < args::record_fields(record).len(),
        args::record_fields(record)[k].kind == FieldKind::Count,
        counts(json, args::record_fields(record)[k].name, k, count),
    ensures
        field_reads(record, json, k, JsonView::Number(JsonNumberView::PosInt(count as u64))),
{
    let field = args::record_fields(record)[k];
    let plain = JsonView::Number(JsonNumberView::PosInt(count as u64));
    let signed = JsonView::Number(JsonNumberView::NegInt(count as i64));
    assert(args::read_value(field.kind, plain) == Ok::<JsonView, Seq<char>>(plain));
    assert(args::read_value(field.kind, signed) == Ok::<JsonView, Seq<char>>(plain));
    if writes(json, field.name, k, plain) {
    } else {
        assert(writes(json, field.name, k, signed));
    }
}

proof fn texts_read(record: Record, json: JsonView, k: int, items: Seq<JsonView>)
    requires
        0 <= k < args::record_fields(record).len(),
        args::record_fields(record)[k].kind == FieldKind::Texts,
        writes(json, args::record_fields(record)[k].name, k, JsonView::Array(items)),
        forall|i: int| 0 <= i < items.len() ==> (#[trigger] items[i]) is Text,
    ensures
        exists|value: JsonView| #[trigger] field_reads(record, json, k, value),
{
    items_read(None, items, items.len());
    let field = args::record_fields(record)[k];
    let read = args::read_items(None, items, items.len());
    if read is Err {
        let i = choose|i: int| 0 <= i < items.len() && item_reads(None, #[trigger] items[i]) is Err;
        assert(items[i] is Text);
    }
    assert(args::read_value(field.kind, JsonView::Array(items)) == read);
    assert(field_reads(record, json, k, read->Ok_0));
}

proof fn records_read(record: Record, json: JsonView, k: int, inner: Record, items: Seq<JsonView>)
    requires
        0 <= k < args::record_fields(record).len(),
        args::record_fields(record)[k].kind == FieldKind::Records(inner),
        writes(json, args::record_fields(record)[k].name, k, JsonView::Array(items)),
        forall|i: int|
            0 <= i < items.len() ==> args::read_record(inner, #[trigger] items[i]) is Ok,
    ensures
        exists|value: JsonView| #[trigger] field_reads(record, json, k, value),
{
    items_read(Some(inner), items, items.len());
    let field = args::record_fields(record)[k];
    let read = args::read_items(Some(inner), items, items.len());
    if read is Err {
        let i = choose|i: int|
            0 <= i < items.len() && item_reads(Some(inner), #[trigger] items[i]) is Err;
        assert(args::read_record(inner, items[i]) is Ok);
    }
    assert(args::read_value(field.kind, JsonView::Array(items)) == read);
    assert(field_reads(record, json, k, read->Ok_0));
}

proof fn empty_list_reads(record: Record, json: JsonView, k: int)
    requires
        0 <= k < args::record_fields(record).len(),
        !args::record_fields(record)[k].required,
        omits(json, args::record_fields(record)[k].name, k),
    ensures
        exists|value: JsonView| #[trigger] field_reads(record, json, k, value),
{
    let field = args::record_fields(record)[k];
    assert(field_reads(record, json, k, args::empty_value(field.kind)));
}

/// A record is read where each of its fields is.
proof fn fields_read(record: Record, json: JsonView)
    requires
        once(json, names(record)),
        forall|k: int|
            #![trigger args::record_fields(record)[k]]
            0 <= k < args::record_fields(record).len() ==> exists|value: JsonView| #[trigger]
                field_reads(record, json, k, value),
    ensures
        args::read_record(record, json) is Ok,
{
    let fields = args::record_fields(record);
    let row = Seq::new(
        fields.len(),
        |k: int| choose|value: JsonView| #[trigger] field_reads(record, json, k, value),
    );
    assert forall|k: int| 0 <= k < row.len() implies #[trigger] field_reads(
        record,
        json,
        k,
        row[k],
    ) by {
        let field = args::record_fields(record)[k];
    }
    record_reads(record, json);
    assert(reads(record, json, row));
}

proof fn shell_reads(json: JsonView)
    ensures
        args::read_record(Record::RunShellCommandArgs, json) matches Ok(row) ==> asks_shell(
            json,
            calls::shell_of(row),
        ),
        forall|shell: RunShellCommandView| #[trigger]
            asks_shell(json, shell) ==> args::read_record(
                Record::RunShellCommandArgs,
                json,
            ) is Ok,
{
    let record = Record::RunShellCommandArgs;
    record_reads(record, json);
    assert(names(record) =~= seq!["command"@, "is_read_only"@, "is_risky"@]);
    if let Ok(row) = args::read_record(record, json) {
        field_tells(record, json, 0, row->Array_0[0]);
        field_tells(record, json, 1, row->Array_0[1]);
        field_tells(record, json, 2, row->Array_0[2]);
    }
    assert forall|shell: RunShellCommandView| #[trigger] asks_shell(json, shell) implies
        args::read_record(record, json) is Ok by {
        text_reads(record, json, 0, shell.command);
        flag_reads(record, json, 1, shell.is_read_only);
        flag_reads(record, json, 2, shell.is_risky);
        fields_read(record, json);
    }
}

proof fn range_reads(json: JsonView)
    ensures
        args::read_record(Record::LineRangeArg, json) matches Ok(row) ==> asks_range(
            json,
            calls::line_range_of(row),
        ),
        forall|range: FileContentLineRangeView| #[trigger]
            asks_range(json, range) ==> args::read_record(Record::LineRangeArg, json) is Ok,
{
    let record = Record::LineRangeArg;
    record_reads(record, json);
    assert(names(record) =~= seq!["start"@, "end"@]);
    if let Ok(row) = args::read_record(record, json) {
        field_tells(record, json, 0, row->Array_0[0]);
        field_tells(record, json, 1, row->Array_0[1]);
    }
    assert forall|range: FileContentLineRangeView| #[trigger] asks_range(json, range) implies
        args::read_record(record, json) is Ok by {
        count_reads(record, json, 0, range.start);
        count_reads(record, json, 1, range.end);
        fields_read(record, json);
    }
}

proof fn file_reads(json: JsonView)
    ensures
        args::read_record(Record::ReadFileArg, json) matches Ok(row) ==> asks_file(
            json,
            calls::read_file_of(row),
        ),
        forall|file: ReadFileView| #[trigger]
            asks_file(json, file) ==> args::read_record(Record::ReadFileArg, json) is Ok,
{
    let record = Record::ReadFileArg;
    record_reads(record, json);
    assert(names(record) =~= seq!["path"@, "line_ranges"@]);
    if let Ok(row) = args::read_record(record, json) {
        field_tells(record, json, 0, row->Array_0[0]);
        field_tells(record, json, 1, row->Array_0[1]);
        let file = calls::read_file_of(row);
        let rows = row->Array_0[1]->Array_0;
        assert(file.line_ranges.len() == rows.len());
        if !(omits(json, "line_ranges"@, 1) && rows.len() == 0) {
            let items = choose|items: Seq<JsonView>|
                #![trigger writes(json, "line_ranges"@, 1, JsonView::Array(items))]
                writes(json, "line_ranges"@, 1, JsonView::Array(items)) && items.len()
                    == rows.len() && forall|i: int|
                    0 <= i < items.len() ==> args::read_record(
                        Record::LineRangeArg,
                        #[trigger] items[i],
                    ) == Ok::<JsonView, Seq<char>>(rows[i]);
            assert forall|i: int| 0 <= i < items.len() implies asks_range(
                #[trigger] items[i],
                file.line_ranges[i],
            ) by {
                range_reads(items[i]);
                assert(file.line_ranges[i] == calls::line_range_of(rows[i]));
            }
        }
    }
    assert forall|file: ReadFileView| #[trigger] asks_file(json, file) implies args::read_record(
        record,
        json,
    ) is Ok by {
        text_reads(record, json, 0, file.name);
        if omits(json, "line_ranges"@, 1) && file.line_ranges.len() == 0 {
            empty_list_reads(record, json, 1);
        } else {
            let items = choose|items: Seq<JsonView>|
                #![trigger writes(json, "line_ranges"@, 1, JsonView::Array(items))]
                writes(json, "line_ranges"@, 1, JsonView::Array(items)) && items.len()
                    == file.line_ranges.len() && forall|i: int|
                    0 <= i < items.len() ==> asks_range(#[trigger] items[i], file.line_ranges[i]);
            assert forall|i: int| 0 <= i < items.len() implies args::read_record(
                Record::LineRangeArg,
                #[trigger] items[i],
            ) is Ok by {
                range_reads(items[i]);
            }
            records_read(record, json, 1, Record::LineRangeArg, items);
        }
        fields_read(record, json);
    }
}

proof fn files_read(json: JsonView)
    ensures
        args::read_record(Record::ReadFilesArgs, json) matches Ok(row) ==> asks_files(
            json,
            calls::read_files_of(row),
        ),
        forall|read: ReadFilesView| #[trigger]
            asks_files(json, read) ==> args::read_record(Record::ReadFilesArgs, json) is Ok,
{
    let record = Record::ReadFilesArgs;
    record_reads(record, json);
    assert(names(record) =~= seq!["files"@]);
    if let Ok(row) = args::read_record(record, json) {
        field_tells(record, json, 0, row->Array_0[0]);
        let read = calls::read_files_of(row);
        let rows = row->Array_0[0]->Array_0;
        let items = choose|items: Seq<JsonView>|
            #![trigger writes(json, "files"@, 0, JsonView::Array(items))]
            writes(json, "files"@, 0, JsonView::Array(items)) && items.len() == rows.len()
                && forall|i: int|
                0 <= i < items.len() ==> args::read_record(Record::ReadFileArg, #[trigger] items[i])
                    == Ok::<JsonView, Seq<char>>(rows[i]);
        assert forall|i: int| 0 <= i < items.len() implies asks_file(
            #[trigger] items[i],
            read.files[i],
        ) by {
            file_reads(items[i]);
            assert(read.files[i] == calls::read_file_of(rows[i]));
        }
    }
    assert forall|read: ReadFilesView| #[trigger] asks_files(json, read) implies args::read_record(
        record,
        json,
    ) is Ok by {
        let items = choose|items: Seq<JsonView>|
            #![trigger writes(json, "files"@, 0, JsonView::Array(items))]
            writes(json, "files"@, 0, JsonView::Array(items)) && items.len() == read.files.len()
                && forall|i: int|
                0 <= i < items.len() ==> asks_file(#[trigger] items[i], read.files[i]);
        assert forall|i: int| 0 <= i < items.len() implies args::read_record(
            Record::ReadFileArg,
            #[trigger] items[i],
        ) is Ok by {
            file_reads(items[i]);
        }
        records_read(record, json, 0, Record::ReadFileArg, items);
        fields_read(record, json);
    }
}

proof fn diff_reads(json: JsonView)
    ensures
        args::read_record(Record::FileDiffArg, json) matches Ok(row) ==> asks_diff(
            json,
            calls::diff_of(row),
        ),
        forall|diff: FileDiffView| #[trigger]
            asks_diff(json, diff) ==> args::read_record(Record::FileDiffArg, json) is Ok,
{
    let record = Record::FileDiffArg;
    record_reads(record, json);
    assert(names(record) =~= seq!["file_path"@, "search"@, "replace"@]);
    if let Ok(row) = args::read_record(record, json) {
        field_tells(record, json, 0, row->Array_0[0]);
        field_tells(record, json, 1, row->Array_0[1]);
        field_tells(record, json, 2, row->Array_0[2]);
    }
    assert forall|diff: FileDiffView| #[trigger] asks_diff(json, diff) implies args::read_record(
        record,
        json,
    ) is Ok by {
        text_reads(record, json, 0, diff.file_path);
        text_reads(record, json, 1, diff.search);
        text_reads(record, json, 2, diff.replace);
        fields_read(record, json);
    }
}

proof fn new_file_reads(json: JsonView)
    ensures
        args::read_record(Record::NewFileArg, json) matches Ok(row) ==> asks_new_file(
            json,
            calls::new_file_of(row),
        ),
        forall|file: NewFileView| #[trigger]
            asks_new_file(json, file) ==> args::read_record(Record::NewFileArg, json) is Ok,
{
    let record = Record::NewFileArg;
    record_reads(record, json);
    assert(names(record) =~= seq!["file_path"@, "content"@, "allow_overwrite"@]);
    if let Ok(row) = args::read_record(record, json) {
        field_tells(record, json, 0, row->Array_0[0]);
        field_tells(record, json, 1, row->Array_0[1]);
        field_tells(record, json, 2, row->Array_0[2]);
    }
    assert forall|file: NewFileView| #[trigger] asks_new_file(json, file) implies args::read_record(
        record,
        json,
    ) is Ok by {
        text_reads(record, json, 0, file.file_path);
        text_reads(record, json, 1, file.content);
        flag_reads(record, json, 2, file.allow_overwrite);
        fields_read(record, json);
    }
}

proof fn edits_read(json: JsonView)
    ensures
        args::read_record(Record::EditFilesArgs, json) matches Ok(row) ==> asks_edits(
            json,
            calls::edits_of(row),
        ),
        forall|edits: ApplyFileDiffsView| #[trigger]
            asks_edits(json, edits) ==> args::read_record(Record::EditFilesArgs, json) is Ok,
{
    let record = Record::EditFilesArgs;
    record_reads(record, json);
    assert(names(record) =~= seq!["summary"@, "diffs"@, "new_files"@, "deleted_files"@]);
    if let Ok(row) = args::read_record(record, json) {
        field_tells(record, json, 0, row->Array_0[0]);
        field_tells(record, json, 1, row->Array_0[1]);
        field_tells(record, json, 2, row->Array_0[2]);
        field_tells(record, json, 3, row->Array_0[3]);
        let edits = calls::edits_of(row);
        let diffs = row->Array_0[1]->Array_0;
        if !(omits(json, "diffs"@, 1) && diffs.len() == 0) {
            let items = choose|items: Seq<JsonView>|
                #![trigger writes(json, "diffs"@, 1, JsonView::Array(items))]
                writes(json, "diffs"@, 1, JsonView::Array(items)) && items.len() == diffs.len()
                    && forall|i: int|
                    0 <= i < items.len() ==> args::read_record(
                        Record::FileDiffArg,
                        #[trigger] items[i],
                    ) == Ok::<JsonView, Seq<char>>(diffs[i]);
            assert forall|i: int| 0 <= i < items.len() implies asks_diff(
                #[trigger] items[i],
                edits.diffs[i],
            ) by {
                diff_reads(items[i]);
                assert(edits.diffs[i] == calls::diff_of(diffs[i]));
            }
        }
        let files = row->Array_0[2]->Array_0;
        if !(omits(json, "new_files"@, 2) && files.len() == 0) {
            let items = choose|items: Seq<JsonView>|
                #![trigger writes(json, "new_files"@, 2, JsonView::Array(items))]
                writes(json, "new_files"@, 2, JsonView::Array(items)) && items.len() == files.len()
                    && forall|i: int|
                    0 <= i < items.len() ==> args::read_record(
                        Record::NewFileArg,
                        #[trigger] items[i],
                    ) == Ok::<JsonView, Seq<char>>(files[i]);
            assert forall|i: int| 0 <= i < items.len() implies asks_new_file(
                #[trigger] items[i],
                edits.new_files[i],
            ) by {
                new_file_reads(items[i]);
                assert(edits.new_files[i] == calls::new_file_of(files[i]));
            }
        }
        let paths = row->Array_0[3]->Array_0;
        assert(edits.deleted_files.len() == paths.len());
        if !(omits(json, "deleted_files"@, 3) && paths.len() == 0) {
            assert(writes(json, "deleted_files"@, 3, JsonView::Array(paths)));
            assert forall|i: int| 0 <= i < paths.len() implies #[trigger] paths[i]
                == JsonView::Text(edits.deleted_files[i].file_path) by {
                assert(args::texts_at(row, 3)[i] == args::text_in(paths[i]));
            }
        }
    }
    assert forall|edits: ApplyFileDiffsView| #[trigger] asks_edits(json, edits) implies
        args::read_record(record, json) is Ok by {
        text_reads(record, json, 0, edits.summary);
        if omits(json, "diffs"@, 1) && edits.diffs.len() == 0 {
            empty_list_reads(record, json, 1);
        } else {
            let items = choose|items: Seq<JsonView>|
                #![trigger writes(json, "diffs"@, 1, JsonView::Array(items))]
                writes(json, "diffs"@, 1, JsonView::Array(items)) && items.len()
                    == edits.diffs.len() && forall|i: int|
                    0 <= i < items.len() ==> asks_diff(#[trigger] items[i], edits.diffs[i]);
            assert forall|i: int| 0 <= i < items.len() implies args::read_record(
                Record::FileDiffArg,
                #[trigger] items[i],
            ) is Ok by {
                diff_reads(items[i]);
            }
            records_read(record, json, 1, Record::FileDiffArg, items);
        }
        if omits(json, "new_files"@, 2) && edits.new_files.len() == 0 {
            empty_list_reads(record, json, 2);
        } else {
            let items = choose|items: Seq<JsonView>|
                #![trigger writes(json, "new_files"@, 2, JsonView::Array(items))]
                writes(json, "new_files"@, 2, JsonView::Array(items)) && items.len()
                    == edits.new_files.len() && forall|i: int|
                    0 <= i < items.len() ==> asks_new_file(#[trigger] items[i], edits.new_files[i]);
            assert forall|i: int| 0 <= i < items.len() implies args::read_record(
                Record::NewFileArg,
                #[trigger] items[i],
            ) is Ok by {
                new_file_reads(items[i]);
            }
            records_read(record, json, 2, Record::NewFileArg, items);
        }
        if omits(json, "deleted_files"@, 3) && edits.deleted_files.len() == 0 {
            empty_list_reads(record, json, 3);
        } else {
            let items = choose|items: Seq<JsonView>|
                #![trigger writes(json, "deleted_files"@, 3, JsonView::Array(items))]
                writes(json, "deleted_files"@, 3, JsonView::Array(items)) && items.len()
                    == edits.deleted_files.len() && forall|i: int|
                    0 <= i < items.len() ==> #[trigger] items[i] == JsonView::Text(
                        edits.deleted_files[i].file_path,
                    );
            texts_read(record, json, 3, items);
        }
        fields_read(record, json);
    }
}

proof fn texts_then_text_read(record: Record, json: JsonView, list: Seq<char>, place: Seq<char>)
    requires
        args::record_fields(record).len() == 2,
        args::record_fields(record)[0] == args::required(list, FieldKind::Texts),
        args::record_fields(record)[1] == args::optional(place, FieldKind::Text),
    ensures
        args::read_record(record, json) matches Ok(row) ==> once(json, seq![list, place]) && lists(
            json,
            list,
            0,
            args::texts_at(row, 0),
        ) && says(json, place, 1, args::text_at(row, 1)),
        forall|texts: Seq<Seq<char>>, content: Seq<char>|
            once(json, seq![list, place]) && #[trigger] lists(json, list, 0, texts)
                && #[trigger] says(json, place, 1, content) ==> args::read_record(record, json) is Ok,
{
    record_reads(record, json);
    assert(names(record) =~= seq![list, place]);
    if let Ok(row) = args::read_record(record, json) {
        field_tells(record, json, 0, row->Array_0[0]);
        field_tells(record, json, 1, row->Array_0[1]);
        let items = row->Array_0[0]->Array_0;
        assert(writes(json, list, 0, JsonView::Array(items)));
        assert forall|i: int| 0 <= i < items.len() implies #[trigger] items[i] == JsonView::Text(
            args::texts_at(row, 0)[i],
        ) by {
            assert(args::texts_at(row, 0)[i] == args::text_in(items[i]));
        }
    }
    assert forall|texts: Seq<Seq<char>>, content: Seq<char>|
        once(json, seq![list, place]) && #[trigger] lists(json, list, 0, texts) && #[trigger] says(
            json,
            place,
            1,
            content,
        ) implies args::read_record(record, json) is Ok by {
        let items = choose|items: Seq<JsonView>|
            #![trigger writes(json, list, 0, JsonView::Array(items))]
            writes(json, list, 0, JsonView::Array(items)) && items.len() == texts.len()
                && forall|i: int|
                0 <= i < items.len() ==> #[trigger] items[i] == JsonView::Text(texts[i]);
        texts_read(record, json, 0, items);
        text_reads(record, json, 1, content);
        fields_read(record, json);
    }
}

proof fn resource_reads(json: JsonView)
    ensures
        args::read_record(Record::ReadMcpResourceArgs, json) matches Ok(row) ==> asks_resource(
            json,
            calls::resource_of(row),
        ),
        forall|read: ReadMcpResourceView| #[trigger]
            asks_resource(json, read) ==> args::read_record(
                Record::ReadMcpResourceArgs,
                json,
            ) is Ok,
{
    let record = Record::ReadMcpResourceArgs;
    record_reads(record, json);
    assert(names(record) =~= seq!["uri"@, "server_id"@]);
    if let Ok(row) = args::read_record(record, json) {
        field_tells(record, json, 0, row->Array_0[0]);
        field_tells(record, json, 1, row->Array_0[1]);
    }
    assert forall|read: ReadMcpResourceView| #[trigger] asks_resource(json, read) implies
        args::read_record(record, json) is Ok by {
        text_reads(record, json, 0, read.uri);
        text_reads(record, json, 1, read.server_id);
        fields_read(record, json);
    }
}

proof fn prompt_reads(json: JsonView)
    ensures
        args::read_record(Record::SuggestPromptArgs, json) matches Ok(row) ==> (
        calls::suggestion_of(row).display_mode matches Some(DisplayModeView::PromptChip(chip))
            && asks_prompt(
            json,
            chip.prompt,
            chip.label,
            calls::suggestion_of(row).is_trigger_irrelevant,
        )),
        forall|prompt: Seq<char>, label: Seq<char>, irrelevant: bool| #[trigger]
            asks_prompt(json, prompt, label, irrelevant) ==> args::read_record(
                Record::SuggestPromptArgs,
                json,
            ) is Ok,
{
    let record = Record::SuggestPromptArgs;
    record_reads(record, json);
    assert(names(record) =~= seq!["prompt"@, "label"@, "is_trigger_irrelevant"@]);
    if let Ok(row) = args::read_record(record, json) {
        field_tells(record, json, 0, row->Array_0[0]);
        field_tells(record, json, 1, row->Array_0[1]);
        field_tells(record, json, 2, row->Array_0[2]);
    }
    assert forall|prompt: Seq<char>, label: Seq<char>, irrelevant: bool| #[trigger]
        asks_prompt(json, prompt, label, irrelevant) implies args::read_record(
        record,
        json,
    ) is Ok by {
        text_reads(record, json, 0, prompt);
        text_reads(record, json, 1, label);
        flag_reads(record, json, 2, irrelevant);
        fields_read(record, json);
    }
}

/// Whether a logged tool is what a call of a builtin tool by name asks for.
pub open spec fn asks_tool(name: Seq<char>, json: JsonView, tool: ToolView) -> bool {
    match tool {
        ToolView::RunShellCommand(shell) => name == "run_shell_command"@ && asks_shell(json, shell)
            && shell.wait_until_complete_value == Some(
            WaitUntilCompleteValueView::WaitUntilComplete(true),
        ) && shell.rest.bytes.len() == 0,
        ToolView::ReadFiles(read) => name == "read_files"@ && asks_files(json, read),
        ToolView::ApplyFileDiffs(edits) => name == "edit_files"@ && asks_edits(json, edits)
            && edits.rest.bytes.len() == 0,
        ToolView::Grep(grep) => name == "grep"@ && asks_grep(json, grep),
        ToolView::FileGlobV2(glob) => name == "file_glob"@ && asks_glob(
            json,
            glob.patterns,
            glob.search_dir,
        ) && glob.rest.bytes.len() == 0,
        ToolView::ReadMcpResource(read) => name == "read_mcp_resource"@ && asks_resource(json, read),
        ToolView::SuggestPrompt(suggest) => name == "suggest_prompt"@ && (
        suggest.display_mode matches Some(DisplayModeView::PromptChip(chip)) && asks_prompt(
            json,
            chip.prompt,
            chip.label,
            suggest.is_trigger_irrelevant,
        )),
        _ => false,
    }
}

/// A call of a builtin tool is logged under its own id, and the logged tool holds for each of its
/// fields what the arguments hold under the field's key, or the empty value where they leave the
/// key out. Every call whose arguments ask for a tool in this way is logged; every other call is
/// refused for its arguments.
pub proof fn logged_tool_is_the_one_asked_for(
    registry: ToolRegistryView,
    request: ToolCallRequestView,
)
    requires
        request.name == "run_shell_command"@ || request.name == "read_files"@ || request.name
            == "edit_files"@ || request.name == "grep"@ || request.name == "file_glob"@
            || request.name == "read_mcp_resource"@ || request.name == "suggest_prompt"@,
    ensures
        match registry::logged_call(registry, request) {
            Ok(call) => call.tool_call_id == request.id && (call.tool matches Some(tool)
                && asks_tool(request.name, request.arguments, tool)),
            Err(error) => (error matches AdapterErrorView::BadToolArguments { tool, .. } && tool
                == request.name) && forall|tool: ToolView|
                !#[trigger] asks_tool(request.name, request.arguments, tool),
        },
{
    let json = request.arguments;
    replay::builtin_names_differ();
    shell_reads(json);
    files_read(json);
    edits_read(json);
    texts_then_text_read(Record::GrepArgs, json, "queries"@, "path"@);
    texts_then_text_read(Record::FileGlobArgs, json, "patterns"@, "search_dir"@);
    resource_reads(json);
    prompt_reads(json);
}

/// Whether a call by name and arguments asks for a logged builtin tool, as far as a call can tell
/// of it.
pub open spec fn tells_tool(name: Seq<char>, json: JsonView, tool: ToolView) -> bool {
    match tool {
        ToolView::RunShellCommand(shell) => name == "run_shell_command"@ && asks_shell(json, shell),
        ToolView::ReadFiles(read) => name == "read_files"@ && asks_files(json, read),
        ToolView::ApplyFileDiffs(edits) => name == "edit_files"@ && asks_edits(json, edits),
        ToolView::Grep(grep) => name == "grep"@ && asks_grep(json, grep),
        ToolView::FileGlob(glob) => name == "file_glob"@ && asks_glob(
            json,
            glob.patterns,
            glob.path,
        ),
        ToolView::FileGlobV2(glob) => name == "file_glob"@ && asks_glob(
            json,
            glob.patterns,
            glob.search_dir,
        ),
        ToolView::ReadMcpResource(read) => name == "read_mcp_resource"@ && asks_resource(json, read),
        ToolView::SuggestPrompt(suggest) => name == "suggest_prompt"@ && (
        suggest.display_mode matches Some(DisplayModeView::PromptChip(chip)) && asks_prompt(
            json,
            chip.prompt,
            chip.label,
            suggest.is_trigger_irrelevant,
        )),
        _ => false,
    }
}

/// A logged call of a builtin tool is told to the model again under its own id and by the tool's
/// name, with arguments that hold each field of the logged tool under the field's key. Only a
/// suggestion without a chip is not told.
pub proof fn replayed_call_tells_the_logged_tool(registry: ToolRegistryView, call: ToolCallView)
    requires
        call.tool matches Some(tool) && !(tool is CallMcpTool) && !(tool is Other),
    ensures
        match registry::replayed_call(registry, call) {
            Some(request) => request.id == call.tool_call_id && tells_tool(
                request.name,
                request.arguments,
                call.tool->0,
            ),
            None => call.tool->0 matches ToolView::SuggestPrompt(suggest) && !(
            suggest.display_mode matches Some(DisplayModeView::PromptChip(_))),
        },
{
    let tool = call.tool->0;
    let plain = match tool {
        ToolView::RunShellCommand(shell) => ToolView::RunShellCommand(
            RunShellCommandView {
                wait_until_complete_value: Some(
                    WaitUntilCompleteValueView::WaitUntilComplete(true),
                ),
                rest: context::nothing(),
                ..shell
            },
        ),
        ToolView::ApplyFileDiffs(edits) => ToolView::ApplyFileDiffs(
            ApplyFileDiffsView { rest: context::nothing(), ..edits },
        ),
        ToolView::FileGlob(glob) => ToolView::FileGlobV2(
            FileGlobV2View {
                patterns: glob.patterns,
                search_dir: glob.path,
                rest: context::nothing(),
            },
        ),
        ToolView::FileGlobV2(glob) => ToolView::FileGlobV2(
            FileGlobV2View { rest: context::nothing(), ..glob },
        ),
        other => other,
    };
    let plain_call = ToolCallView { tool_call_id: call.tool_call_id, tool: Some(plain) };
    if replay::issued(plain) {
        replay::replayed_call_is_the_logged_call(registry, plain_call);
        let request = registry::replayed_call(registry, plain_call)->0;
        assert(registry::replayed_call(registry, call) == Some(request));
        replay::builtin_names_differ();
        logged_tool_is_the_one_asked_for(registry, request);
        assert(registry::logged_call(registry, request) == Ok::<ToolCallView, AdapterErrorView>(
            plain_call,
        ));
        assert(asks_tool(request.name, request.arguments, plain));
    }
}

/// Whether an object has a key.
pub open spec fn has_key(entries: Seq<(Seq<char>, JsonView)>, key: Seq<char>) -> bool {
    exists|i: int| 0 <= i < entries.len() && (#[trigger] entries[i]).0 == key
}

/// Whether a value is an object with as many entries as there are keys, and each of the keys.
pub open spec fn spells_out(json: JsonView, keys: Seq<Seq<char>>) -> bool {
    json matches JsonView::Object(entries) && entries.len() == keys.len() && forall|k: int|
        0 <= k < keys.len() ==> has_key(entries, #[trigger] keys[k])
}

/// Whether every item of the list under a key spells out its own keys.
pub open spec fn items_spell_out(
    json: JsonView,
    key: Seq<char>,
    keys: Seq<Seq<char>>,
) -> bool {
    json matches JsonView::Object(entries) && exists|at: int|
        0 <= at < entries.len() && (#[trigger] entries[at]).0 == key && (
        entries[at].1 matches JsonView::Array(items) && forall|i: int|
            0 <= i < items.len() ==> spells_out(#[trigger] items[i], keys))
}

/// The arguments of a call that is told again leave nothing out: they are an object with every key
/// of the tool, and so are the files, the replacements and the new files in them.
pub proof fn replayed_arguments_are_spelled_out(registry: ToolRegistryView, call: ToolCallView)
    requires
        call.tool is Some,
    ensures
        registry::replayed_call(registry, call) matches Some(request) ==> match call.tool->0 {
            ToolView::RunShellCommand(_) => spells_out(
                request.arguments,
                seq!["command"@, "is_read_only"@, "is_risky"@],
            ),
            ToolView::ReadFiles(_) => spells_out(request.arguments, seq!["files"@])
                && items_spell_out(request.arguments, "files"@, seq!["path"@, "line_ranges"@]),
            ToolView::ApplyFileDiffs(_) => spells_out(
                request.arguments,
                seq!["summary"@, "diffs"@, "new_files"@, "deleted_files"@],
            ) && items_spell_out(
                request.arguments,
                "diffs"@,
                seq!["file_path"@, "search"@, "replace"@],
            ) && items_spell_out(
                request.arguments,
                "new_files"@,
                seq!["file_path"@, "content"@, "allow_overwrite"@],
            ),
            ToolView::Grep(_) => spells_out(request.arguments, seq!["queries"@, "path"@]),
            ToolView::FileGlob(_) => spells_out(
                request.arguments,
                seq!["patterns"@, "search_dir"@],
            ),
            ToolView::FileGlobV2(_) => spells_out(
                request.arguments,
                seq!["patterns"@, "search_dir"@],
            ),
            ToolView::ReadMcpResource(_) => spells_out(
                request.arguments,
                seq!["uri"@, "server_id"@],
            ),
            ToolView::SuggestPrompt(_) => spells_out(
                request.arguments,
                seq!["prompt"@, "label"@, "is_trigger_irrelevant"@],
            ),
            _ => true,
        },
{
    if let Some(request) = registry::replayed_call(registry, call) {
        let json = request.arguments;
        match call.tool->0 {
            ToolView::RunShellCommand(_) => {
                let entries = json->Object_0;
                assert(entries[0].0 == "command"@);
                assert(entries[1].0 == "is_read_only"@);
                assert(entries[2].0 == "is_risky"@);
            },
            ToolView::ReadFiles(read) => {
                let entries = json->Object_0;
                assert(entries[0].0 == "files"@);
                let items = entries[0].1->Array_0;
                assert forall|i: int| 0 <= i < items.len() implies spells_out(
                    #[trigger] items[i],
                    seq!["path"@, "line_ranges"@],
                ) by {
                    let fields = items[i]->Object_0;
                    assert(items[i] == calls::read_file_args(read.files[i]));
                    assert(fields[0].0 == "line_ranges"@);
                    assert(fields[1].0 == "path"@);
                }
            },
            ToolView::ApplyFileDiffs(edits) => {
                let entries = json->Object_0;
                assert(entries[0].0 == "deleted_files"@);
                assert(entries[1].0 == "diffs"@);
                assert(entries[2].0 == "new_files"@);
                assert(entries[3].0 == "summary"@);
                let diffs = entries[1].1->Array_0;
                assert forall|i: int| 0 <= i < diffs.len() implies spells_out(
                    #[trigger] diffs[i],
                    seq!["file_path"@, "search"@, "replace"@],
                ) by {
                    let fields = diffs[i]->Object_0;
                    assert(diffs[i] == calls::diff_args(edits.diffs[i]));
                    assert(fields[0].0 == "file_path"@);
                    assert(fields[1].0 == "replace"@);
                    assert(fields[2].0 == "search"@);
                }
                let files = entries[2].1->Array_0;
                assert forall|i: int| 0 <= i < files.len() implies spells_out(
                    #[trigger] files[i],
                    seq!["file_path"@, "content"@, "allow_overwrite"@],
                ) by {
                    let fields = files[i]->Object_0;
                    assert(files[i] == calls::new_file_args(edits.new_files[i]));
                    assert(fields[0].0 == "allow_overwrite"@);
                    assert(fields[1].0 == "content"@);
                    assert(fields[2].0 == "file_path"@);
                }
            },
            ToolView::Grep(_) => {
                let entries = json->Object_0;
                assert(entries[0].0 == "path"@);
                assert(entries[1].0 == "queries"@);
            },
            ToolView::FileGlob(_) | ToolView::FileGlobV2(_) => {
                let entries = json->Object_0;
                assert(entries[0].0 == "patterns"@);
                assert(entries[1].0 == "search_dir"@);
            },
            ToolView::ReadMcpResource(_) => {
                let entries = json->Object_0;
                assert(entries[0].0 == "server_id"@);
                assert(entries[1].0 == "uri"@);
            },
            ToolView::SuggestPrompt(_) => {
                let entries = json->Object_0;
                assert(entries[0].0 == "is_trigger_irrelevant"@);
                assert(entries[1].0 == "label"@);
                assert(entries[2].0 == "prompt"@);
            },
            _ => {},
        }
    }
}

/// Whether a key comes twice in an object.
pub open spec fn comes_twice(entries: Seq<(Seq<char>, JsonView)>, key: Seq<char>) -> bool {
    exists|i: int, j: int|
        0 <= i < j < entries.len() && (#[trigger] entries[i]).0 == key && (
        #[trigger] entries[j]).0 == key
}

/// Whether a message says why an object is not read as a record: a field with a value that is not
/// read, for the reason that the value itself is refused for, or a field that comes twice, by its
/// name.
pub open spec fn blames_entry(
    record: Record,
    entries: Seq<(Seq<char>, JsonView)>,
    message: Seq<char>,
) -> bool {
    let fields = args::record_fields(record);
    ||| exists|i: int, k: int|
        0 <= i < entries.len() && 0 <= k < fields.len() && (#[trigger] entries[i]).0 == (
        #[trigger] fields[k]).name && args::read_value(fields[k].kind, entries[i].1) == Err::<
            JsonView,
            Seq<char>,
        >(message)
    ||| exists|k: int|
        0 <= k < fields.len() && comes_twice(entries, (#[trigger] fields[k]).name) && message
            == "duplicate field `"@ + fields[k].name + "`"@
}

/// Whether a message says that a required field of a record is left out, by its name.
pub open spec fn blames_absence(
    record: Record,
    entries: Seq<(Seq<char>, JsonView)>,
    message: Seq<char>,
) -> bool {
    exists|k: int|
        0 <= k < args::record_fields(record).len() && (#[trigger] args::record_fields(
            record,
        )[k]).required && !has_key(entries, args::record_fields(record)[k].name) && message
            == "missing field `"@ + args::record_fields(record)[k].name + "`"@
}

/// Whether a message says why an array is not read as a record: an item that is not read, for the
/// reason that it is refused for itself, or its length.
pub open spec fn blames_items(record: Record, items: Seq<JsonView>, message: Seq<char>) -> bool {
    let fields = args::record_fields(record);
    let named = "struct "@ + args::record_name(record);
    ||| exists|k: int|
        0 <= k < fields.len() && k < items.len() && args::read_value(
            (#[trigger] fields[k]).kind,
            items[k],
        ) == Err::<JsonView, Seq<char>>(message)
    ||| exists|k: int|
        items.len() <= k < fields.len() && (#[trigger] fields[k]).required && message
            == "invalid length "@ + text::decimal(k) + ", expected "@ + (if fields.len() == 1 {
            named + " with 1 element"@
        } else {
            named + " with "@ + text::decimal(fields.len() as int) + " elements"@
        })
    ||| items.len() > fields.len() && message == "invalid length "@ + text::decimal(
        items.len() as int,
    ) + ", expected "@ + "fewer elements in array"@
}

proof fn entry_is_blamed(record: Record, entries: Seq<(Seq<char>, JsonView)>, count: nat)
    requires
        count <= entries.len(),
    ensures
        args::read_entries(record, entries, count) matches Err(message) ==> blames_entry(
            record,
            entries,
            message,
        ),
    decreases count,
{
    let fields = args::record_fields(record);
    if count > 0 {
        let less = (count - 1) as nat;
        entry_is_blamed(record, entries, less);
        entries_fill_slots(record, entries, less);
        index_finds(record, entries[count - 1].0, fields.len());
        if let Ok(slots) = args::read_entries(record, entries, less) {
            if let Some(at) = args::field_index(fields, entries[count - 1].0, fields.len()) {
                assert(entries[count - 1].0 == fields[at].name);
                if slots[at] is Some {
                    let i = choose|i: int|
                        0 <= i < less && (#[trigger] entries[i]).0 == fields[at].name
                            && args::read_value(fields[at].kind, entries[i].1) == Ok::<
                            JsonView,
                            Seq<char>,
                        >(slots[at]->0);
                    assert(entries[i].0 == entries[count - 1].0);
                    assert(comes_twice(entries, fields[at].name));
                }
            }
        }
    }
}

proof fn absence_is_blamed(record: Record, slots: Seq<Option<JsonView>>, count: nat)
    requires
        count <= args::record_fields(record).len(),
    ensures
        args::settle(args::record_fields(record), slots, count) matches Err(message) ==> exists|
            k: int,
        |
            0 <= k < count && (#[trigger] slots[k]) is None && args::record_fields(
                record,
            )[k].required && message == "missing field `"@ + args::record_fields(record)[k].name
                + "`"@,
    decreases count,
{
    if count > 0 {
        absence_is_blamed(record, slots, (count - 1) as nat);
        assert(slots[count - 1] == slots[count - 1]);
    }
}

proof fn items_are_blamed(record: Record, items: Seq<JsonView>, count: nat)
    requires
        count <= args::record_fields(record).len(),
    ensures
        args::read_positions(record, items, count) matches Err(message) ==> blames_items(
            record,
            items,
            message,
        ),
    decreases count,
{
    if count > 0 {
        items_are_blamed(record, items, (count - 1) as nat);
        let field = args::record_fields(record)[count - 1];
        assert(field == args::record_fields(record)[count - 1]);
    }
}

/// Arguments that are refused are refused for what is wrong with them, and the message says so: by
/// the field that is missing or comes twice, by the length of an array, or in the words for a value
/// that is of the wrong type.
pub proof fn refusals_say_why(record: Record, json: JsonView)
    ensures
        args::read_record(record, json) matches Err(message) ==> match json {
            JsonView::Object(entries) => blames_entry(record, entries, message) || blames_absence(
                record,
                entries,
                message,
            ),
            JsonView::Array(items) => blames_items(record, items, message),
            _ => message == json::type_refusal(json, "struct "@ + args::record_name(record)),
        },
{
    let fields = args::record_fields(record);
    match json {
        JsonView::Object(entries) => {
            entry_is_blamed(record, entries, entries.len());
            entries_fill_slots(record, entries, entries.len());
            if let Ok(slots) = args::read_entries(record, entries, entries.len()) {
                absence_is_blamed(record, slots, fields.len());
                if let Err(message) = args::settle(fields, slots, fields.len()) {
                    let k = choose|k: int|
                        0 <= k < fields.len() && (#[trigger] slots[k]) is None && fields[k].required
                            && message == "missing field `"@ + fields[k].name + "`"@;
                    assert(slots[k] is None);
                    assert(!has_key(entries, fields[k].name));
                }
            }
        },
        JsonView::Array(items) => {
            items_are_blamed(record, items, fields.len());
        },
        _ => {},
    }
}

/// A value is refused for a field where it is not what the field holds, in the words for its type.
pub proof fn values_are_refused_by_type(json: JsonView)
    ensures
        !(json is Text) ==> args::read_value(FieldKind::Text, json) == Err::<JsonView, Seq<char>>(
            json::type_refusal(json, "a string"@),
        ),
        !(json is Bool) ==> args::read_value(FieldKind::Flag, json) == Err::<JsonView, Seq<char>>(
            json::type_refusal(json, "a boolean"@),
        ),
        !(json is Array) ==> args::read_value(FieldKind::Texts, json) == Err::<JsonView, Seq<char>>(
            json::type_refusal(json, "a sequence"@),
        ),
        args::read_value(FieldKind::Count, json) matches Err(message) ==> message
            == json::count_refusal(json),
        forall|record: Record|
            !(json is Array) ==> #[trigger] args::read_value(FieldKind::Records(record), json)
                == Err::<JsonView, Seq<char>>(json::type_refusal(json, "a sequence"@)),
{
}

/// A call of a builtin tool that is refused is refused with what is wrong with its arguments.
pub proof fn refused_call_says_why(
    registry: ToolRegistryView,
    request: ToolCallRequestView,
    record: Record,
)
    requires
        (request.name == "run_shell_command"@ && record is RunShellCommandArgs) || (request.name
            == "read_files"@ && record is ReadFilesArgs) || (request.name == "edit_files"@
            && record is EditFilesArgs) || (request.name == "grep"@ && record is GrepArgs) || (
        request.name == "file_glob"@ && record is FileGlobArgs) || (request.name
            == "read_mcp_resource"@ && record is ReadMcpResourceArgs) || (request.name
            == "suggest_prompt"@ && record is SuggestPromptArgs),
    ensures
        registry::logged_call(registry, request) matches Err(error) ==> (
        error matches AdapterErrorView::BadToolArguments { tool, message } && tool == request.name
            && args::read_record(record, request.arguments) == Err::<JsonView, Seq<char>>(message)),
{
    replay::builtin_names_differ();
}

} // verus!

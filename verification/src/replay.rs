//! Laws of tool calls: what the log keeps of a call is what the model asked
//! for, and what is replayed out of the log asks for the same again.

use vstd::prelude::*;

use crate::api::context;
use crate::api::context::FileContentLineRangeView;
use crate::api::request::McpServerView;
use crate::api::tool::{
    ApplyFileDiffsView, CallMcpToolView, DeleteFileView, DisplayModeView, FileDiffView, GrepView,
    NewFileView, PromptChipView, ReadFileView, ReadFilesView, ReadMcpResourceView,
    RunShellCommandView, ToolCallView, ToolView, WaitUntilCompleteValueView,
};
use crate::args;
use crate::args::{FieldKind, Record};
use crate::calls;
use crate::definitions;
use crate::json::JsonView;
use crate::model::{AdapterErrorView, ToolCallRequestView};
use crate::registry;
use crate::registry::{McpEntryView, ToolRegistryView};
use crate::structs;
use crate::text;

verus! {

proof fn records_read(record: Record, items: Seq<JsonView>, rows: Seq<JsonView>, count: nat)
    requires
        items.len() == rows.len(),
        count <= items.len(),
        forall|i: int|
            0 <= i < items.len() ==> args::read_record(record, #[trigger] items[i]) == Ok::<
                JsonView,
                Seq<char>,
            >(rows[i]),
    ensures
        args::read_items(Some(record), items, count) == Ok::<JsonView, Seq<char>>(
            JsonView::Array(rows.take(count as int)),
        ),
    decreases count,
{
    if count == 0 {
        assert(rows.take(0) =~= Seq::empty());
    } else {
        records_read(record, items, rows, (count - 1) as nat);
        assert(rows.take(count as int) =~= rows.take(count - 1).push(rows[count - 1]));
    }
}

proof fn texts_read(texts: Seq<Seq<char>>, count: nat)
    requires
        count <= texts.len(),
    ensures
        args::read_items(None, calls::text_list(texts)->Array_0, count) == Ok::<
            JsonView,
            Seq<char>,
        >(JsonView::Array(calls::text_list(texts)->Array_0.take(count as int))),
    decreases count,
{
    let items = calls::text_list(texts)->Array_0;
    if count == 0 {
        assert(items.take(0) =~= Seq::empty());
    } else {
        texts_read(texts, (count - 1) as nat);
        assert(items[count - 1] == JsonView::Text(texts[count - 1]));
        assert(args::read_value(FieldKind::Text, items[count - 1]) == Ok::<JsonView, Seq<char>>(
            items[count - 1],
        ));
        assert(items.take(count as int) =~= items.take(count - 1).push(items[count - 1]));
    }
}

proof fn text_list_reads(texts: Seq<Seq<char>>)
    ensures
        args::read_value(FieldKind::Texts, calls::text_list(texts)) == Ok::<JsonView, Seq<char>>(
            calls::text_list(texts),
        ),
        args::list_in(calls::text_list(texts)).map_values(|item: JsonView| args::text_in(item))
            == texts,
{
    let items = calls::text_list(texts)->Array_0;
    texts_read(texts, texts.len());
    assert(items.take(texts.len() as int) =~= items);
    assert(items.map_values(|item: JsonView| args::text_in(item)) =~= texts);
}

proof fn record_list_reads(record: Record, items: Seq<JsonView>, rows: Seq<JsonView>)
    requires
        items.len() == rows.len(),
        forall|i: int|
            0 <= i < items.len() ==> args::read_record(record, #[trigger] items[i]) == Ok::<
                JsonView,
                Seq<char>,
            >(rows[i]),
    ensures
        args::read_value(FieldKind::Records(record), JsonView::Array(items)) == Ok::<
            JsonView,
            Seq<char>,
        >(JsonView::Array(rows)),
{
    records_read(record, items, rows, items.len());
    assert(rows.take(items.len() as int) =~= rows);
}

/// No two fields of a record have one name.
pub open spec fn names_differ(record: Record) -> bool {
    forall|i: int, j: int|
        0 <= i < j < args::record_fields(record).len() ==> (#[trigger] args::record_fields(
            record,
        )[i]).name != (#[trigger] args::record_fields(record)[j]).name
}

/// The fields of every record have names of their own.
pub proof fn field_names_differ(record: Record)
    ensures
        names_differ(record),
{
    reveal_strlit("command");
    reveal_strlit("is_read_only");
    reveal_strlit("is_risky");
    reveal_strlit("path");
    reveal_strlit("line_ranges");
    reveal_strlit("start");
    reveal_strlit("end");
    reveal_strlit("summary");
    reveal_strlit("diffs");
    reveal_strlit("new_files");
    reveal_strlit("deleted_files");
    reveal_strlit("file_path");
    reveal_strlit("search");
    reveal_strlit("replace");
    reveal_strlit("content");
    reveal_strlit("allow_overwrite");
    reveal_strlit("queries");
    reveal_strlit("patterns");
    reveal_strlit("search_dir");
    reveal_strlit("prompt");
    reveal_strlit("label");
    reveal_strlit("is_trigger_irrelevant");
    reveal_strlit("uri");
    reveal_strlit("server_id");
    let fields = args::record_fields(record);
    assert forall|i: int, j: int| 0 <= i < j < fields.len() implies (#[trigger] fields[i]).name != (
    #[trigger] fields[j]).name by {
        assert(fields[i].name.len() != fields[j].name.len());
    }
}

proof fn own_index(record: Record, at: int, count: nat)
    requires
        count <= args::record_fields(record).len(),
        0 <= at < args::record_fields(record).len(),
    ensures
        args::field_index(
            args::record_fields(record),
            args::record_fields(record)[at].name,
            count,
        ) == (if at < count {
            Some(at)
        } else {
            None
        }),
    decreases count,
{
    field_names_differ(record);
    if count > 0 {
        own_index(record, at, (count - 1) as nat);
    }
}

/// The slots after the first `count` entries, the entry at `i` being for the field at
/// `places[i]`.
spec fn slots_after(places: Seq<int>, row: Seq<JsonView>, count: nat) -> Seq<Option<JsonView>>
    decreases count,
{
    if count == 0 {
        Seq::new(row.len(), |i: int| None)
    } else {
        slots_after(places, row, (count - 1) as nat).update(
            places[count - 1],
            Some(row[places[count - 1]]),
        )
    }
}

proof fn slots_filled(places: Seq<int>, row: Seq<JsonView>, count: nat)
    requires
        count <= places.len(),
        forall|i: int| 0 <= i < places.len() ==> 0 <= #[trigger] places[i] < row.len(),
    ensures
        slots_after(places, row, count).len() == row.len(),
        forall|k: int|
            #![trigger slots_after(places, row, count)[k]]
            0 <= k < row.len() ==> slots_after(places, row, count)[k] == (if places.take(
                count as int,
            ).contains(k) {
                Some(row[k])
            } else {
                None
            }),
    decreases count,
{
    if count > 0 {
        slots_filled(places, row, (count - 1) as nat);
        let now = places.take(count as int);
        let before = places.take(count - 1);
        assert(now =~= before.push(places[count - 1]));
        assert forall|k: int| now.contains(k) <==> before.contains(k) || k == places[count - 1] by {
            if before.contains(k) {
                let i = before.index_of(k);
                assert(now[i] == k);
            }
            assert(now[count - 1] == places[count - 1]);
        }
    }
}

proof fn entries_read(
    record: Record,
    entries: Seq<(Seq<char>, JsonView)>,
    places: Seq<int>,
    row: Seq<JsonView>,
    count: nat,
)
    requires
        writes_row(record, entries, places, row),
        count <= entries.len(),
    ensures
        args::read_entries(record, entries, count) == Ok::<Seq<Option<JsonView>>, Seq<char>>(
            slots_after(places, row, count),
        ),
    decreases count,
{
    if count == 0 {
        assert(slots_after(places, row, 0) =~= Seq::new(
            args::record_fields(record).len(),
            |i: int| None,
        ));
    } else {
        entries_read(record, entries, places, row, (count - 1) as nat);
        let at = places[count - 1];
        own_index(record, at, args::record_fields(record).len());
        slots_filled(places, row, (count - 1) as nat);
        let before = places.take(count - 1);
        if before.contains(at) {
            let i = before.index_of(at);
            assert(places[i] == places[count - 1]);
        }
    }
}

proof fn slots_settle(
    record: Record,
    slots: Seq<Option<JsonView>>,
    row: Seq<JsonView>,
    count: nat,
)
    requires
        slots.len() == row.len(),
        row.len() == args::record_fields(record).len(),
        count <= row.len(),
        forall|k: int|
            0 <= k < row.len() ==> #[trigger] slots[k] == Some(row[k]) || (slots[k] is None
                && !args::record_fields(record)[k].required && row[k] == args::empty_value(
                args::record_fields(record)[k].kind,
            )),
    ensures
        args::settle(args::record_fields(record), slots, count) == Ok::<Seq<JsonView>, Seq<char>>(
            row.take(count as int),
        ),
    decreases count,
{
    if count == 0 {
        assert(row.take(0) =~= Seq::empty());
    } else {
        slots_settle(record, slots, row, (count - 1) as nat);
        assert(slots[count - 1] == Some(row[count - 1]) || slots[count - 1] is None);
        assert(row.take(count as int) =~= row.take(count - 1).push(row[count - 1]));
    }
}

/// Whether the entries of an object write the values `row` of a record's fields: the entry at
/// `i` the one at `places[i]`, and the fields that no entry is for have their empty values.
pub open spec fn writes_row(
    record: Record,
    entries: Seq<(Seq<char>, JsonView)>,
    places: Seq<int>,
    row: Seq<JsonView>,
) -> bool {
    let fields = args::record_fields(record);
    &&& entries.len() == places.len()
    &&& row.len() == fields.len()
    &&& forall|i: int|
        0 <= i < places.len() ==> 0 <= #[trigger] places[i] < fields.len() && entries[i].0
            == fields[places[i]].name && args::read_value(fields[places[i]].kind, entries[i].1)
            == Ok::<JsonView, Seq<char>>(row[places[i]])
    &&& forall|i: int, j: int|
        0 <= i < j < places.len() ==> #[trigger] places[i] != #[trigger] places[j]
    &&& forall|k: int|
        0 <= k < fields.len() ==> places.contains(k) || (!(#[trigger] fields[k]).required && row[k]
            == args::empty_value(fields[k].kind))
}

/// A record that is written as an object reads as the values of its entries, in whatever order
/// they come, and as the empty values of the optional fields that it leaves out.
pub proof fn object_reads(
    record: Record,
    entries: Seq<(Seq<char>, JsonView)>,
    places: Seq<int>,
    row: Seq<JsonView>,
)
    requires
        writes_row(record, entries, places, row),
    ensures
        args::read_record(record, JsonView::Object(entries)) == Ok::<JsonView, Seq<char>>(
            JsonView::Array(row),
        ),
{
    let fields = args::record_fields(record);
    entries_read(record, entries, places, row, entries.len());
    slots_filled(places, row, entries.len());
    let slots = slots_after(places, row, entries.len());
    assert(places.take(entries.len() as int) =~= places);
    assert forall|k: int| 0 <= k < row.len() implies #[trigger] slots[k] == Some(row[k]) || (
    slots[k] is None && !fields[k].required && row[k] == args::empty_value(fields[k].kind)) by {
        assert(places.contains(k) || !fields[k].required);
    }
    slots_settle(record, slots, row, row.len());
    assert(row.take(row.len() as int) =~= row);
}

proof fn shell_args_read(shell: RunShellCommandView)
    ensures
        args::read_record(Record::RunShellCommandArgs, calls::shell_args(shell)) == Ok::<
            JsonView,
            Seq<char>,
        >(shell_row(shell)),
{
    let places = seq![0int, 1, 2];
    assert(places[0] == 0 && places[1] == 1 && places[2] == 2);
    object_reads(
        Record::RunShellCommandArgs,
        calls::shell_args(shell)->Object_0,
        places,
        shell_row(shell)->Array_0,
    );
}

spec fn shell_row(shell: RunShellCommandView) -> JsonView {
    JsonView::Array(
        seq![
            JsonView::Text(shell.command),
            JsonView::Bool(shell.is_read_only),
            JsonView::Bool(shell.is_risky),
        ],
    )
}

spec fn line_range_row(range: FileContentLineRangeView) -> JsonView {
    JsonView::Array(seq![calls::count_value(range.start), calls::count_value(range.end)])
}

proof fn line_range_args_read(range: FileContentLineRangeView)
    ensures
        args::read_record(Record::LineRangeArg, calls::line_range_args(range)) == Ok::<
            JsonView,
            Seq<char>,
        >(line_range_row(range)),
        calls::line_range_of(line_range_row(range)) == range,
{
    let places = seq![1int, 0];
    assert(places[0] == 1 && places[1] == 0);
    object_reads(
        Record::LineRangeArg,
        calls::line_range_args(range)->Object_0,
        places,
        line_range_row(range)->Array_0,
    );
}

spec fn read_file_row(file: ReadFileView) -> JsonView {
    JsonView::Array(
        seq![
            JsonView::Text(file.name),
            JsonView::Array(
                file.line_ranges.map_values(|range: FileContentLineRangeView| line_range_row(range)),
            ),
        ],
    )
}

proof fn read_file_args_read(file: ReadFileView)
    ensures
        args::read_record(Record::ReadFileArg, calls::read_file_args(file)) == Ok::<
            JsonView,
            Seq<char>,
        >(read_file_row(file)),
        calls::read_file_of(read_file_row(file)) == file,
{
    let items = file.line_ranges.map_values(
        |range: FileContentLineRangeView| calls::line_range_args(range),
    );
    let rows = file.line_ranges.map_values(
        |range: FileContentLineRangeView| line_range_row(range),
    );
    assert forall|i: int| 0 <= i < items.len() implies args::read_record(
        Record::LineRangeArg,
        #[trigger] items[i],
    ) == Ok::<JsonView, Seq<char>>(rows[i]) by {
        line_range_args_read(file.line_ranges[i]);
    }
    record_list_reads(Record::LineRangeArg, items, rows);
    let places = seq![1int, 0];
    assert(places[0] == 1 && places[1] == 0);
    object_reads(
        Record::ReadFileArg,
        calls::read_file_args(file)->Object_0,
        places,
        read_file_row(file)->Array_0,
    );
    let back = calls::read_file_of(read_file_row(file));
    assert forall|i: int| 0 <= i < rows.len() implies calls::line_range_of(#[trigger] rows[i])
        == file.line_ranges[i] by {
        line_range_args_read(file.line_ranges[i]);
    }
    assert(back.line_ranges =~= file.line_ranges);
}

spec fn read_files_row(read: ReadFilesView) -> JsonView {
    JsonView::Array(
        seq![JsonView::Array(read.files.map_values(|file: ReadFileView| read_file_row(file)))],
    )
}

proof fn read_files_args_read(read: ReadFilesView)
    ensures
        args::read_record(Record::ReadFilesArgs, calls::read_files_args(read)) == Ok::<
            JsonView,
            Seq<char>,
        >(read_files_row(read)),
        calls::read_files_of(read_files_row(read)) == read,
{
    let items = read.files.map_values(|file: ReadFileView| calls::read_file_args(file));
    let rows = read.files.map_values(|file: ReadFileView| read_file_row(file));
    assert forall|i: int| 0 <= i < items.len() implies args::read_record(
        Record::ReadFileArg,
        #[trigger] items[i],
    ) == Ok::<JsonView, Seq<char>>(rows[i]) by {
        read_file_args_read(read.files[i]);
    }
    record_list_reads(Record::ReadFileArg, items, rows);
    let places = seq![0int];
    assert(places[0] == 0);
    object_reads(
        Record::ReadFilesArgs,
        calls::read_files_args(read)->Object_0,
        places,
        read_files_row(read)->Array_0,
    );
    assert forall|i: int| 0 <= i < rows.len() implies calls::read_file_of(#[trigger] rows[i])
        == read.files[i] by {
        read_file_args_read(read.files[i]);
    }
    assert(calls::read_files_of(read_files_row(read)).files =~= read.files);
}

spec fn diff_row(diff: FileDiffView) -> JsonView {
    JsonView::Array(
        seq![
            JsonView::Text(diff.file_path),
            JsonView::Text(diff.search),
            JsonView::Text(diff.replace),
        ],
    )
}

proof fn diff_args_read(diff: FileDiffView)
    ensures
        args::read_record(Record::FileDiffArg, calls::diff_args(diff)) == Ok::<JsonView, Seq<char>>(
            diff_row(diff),
        ),
        calls::diff_of(diff_row(diff)) == diff,
{
    let places = seq![0int, 2, 1];
    assert(places[0] == 0 && places[1] == 2 && places[2] == 1);
    object_reads(
        Record::FileDiffArg,
        calls::diff_args(diff)->Object_0,
        places,
        diff_row(diff)->Array_0,
    );
}

spec fn new_file_row(file: NewFileView) -> JsonView {
    JsonView::Array(
        seq![
            JsonView::Text(file.file_path),
            JsonView::Text(file.content),
            JsonView::Bool(file.allow_overwrite),
        ],
    )
}

proof fn new_file_args_read(file: NewFileView)
    ensures
        args::read_record(Record::NewFileArg, calls::new_file_args(file)) == Ok::<
            JsonView,
            Seq<char>,
        >(new_file_row(file)),
        calls::new_file_of(new_file_row(file)) == file,
{
    let places = seq![2int, 1, 0];
    assert(places[0] == 2 && places[1] == 1 && places[2] == 0);
    object_reads(
        Record::NewFileArg,
        calls::new_file_args(file)->Object_0,
        places,
        new_file_row(file)->Array_0,
    );
}

spec fn edits_row(edits: ApplyFileDiffsView) -> JsonView {
    JsonView::Array(
        seq![
            JsonView::Text(edits.summary),
            JsonView::Array(edits.diffs.map_values(|diff: FileDiffView| diff_row(diff))),
            JsonView::Array(edits.new_files.map_values(|file: NewFileView| new_file_row(file))),
            calls::text_list(edits.deleted_files.map_values(|file: DeleteFileView| file.file_path)),
        ],
    )
}

proof fn edits_args_read(edits: ApplyFileDiffsView)
    ensures
        args::read_record(Record::EditFilesArgs, calls::edits_args(edits)) == Ok::<
            JsonView,
            Seq<char>,
        >(edits_row(edits)),
        issued(ToolView::ApplyFileDiffs(edits)) ==> calls::edits_of(edits_row(edits)) == edits,
{
    let diffs = edits.diffs.map_values(|diff: FileDiffView| calls::diff_args(diff));
    let diff_rows = edits.diffs.map_values(|diff: FileDiffView| diff_row(diff));
    assert forall|i: int| 0 <= i < diffs.len() implies args::read_record(
        Record::FileDiffArg,
        #[trigger] diffs[i],
    ) == Ok::<JsonView, Seq<char>>(diff_rows[i]) by {
        diff_args_read(edits.diffs[i]);
    }
    record_list_reads(Record::FileDiffArg, diffs, diff_rows);
    let files = edits.new_files.map_values(|file: NewFileView| calls::new_file_args(file));
    let file_rows = edits.new_files.map_values(|file: NewFileView| new_file_row(file));
    assert forall|i: int| 0 <= i < files.len() implies args::read_record(
        Record::NewFileArg,
        #[trigger] files[i],
    ) == Ok::<JsonView, Seq<char>>(file_rows[i]) by {
        new_file_args_read(edits.new_files[i]);
    }
    record_list_reads(Record::NewFileArg, files, file_rows);
    let paths = edits.deleted_files.map_values(|file: DeleteFileView| file.file_path);
    text_list_reads(paths);
    let places = seq![3int, 1, 2, 0];
    assert(places[0] == 3 && places[1] == 1 && places[2] == 2 && places[3] == 0);
    object_reads(
        Record::EditFilesArgs,
        calls::edits_args(edits)->Object_0,
        places,
        edits_row(edits)->Array_0,
    );
    if issued(ToolView::ApplyFileDiffs(edits)) {
        let back = calls::edits_of(edits_row(edits));
        assert forall|i: int| 0 <= i < diff_rows.len() implies calls::diff_of(
            #[trigger] diff_rows[i],
        ) == edits.diffs[i] by {
            diff_args_read(edits.diffs[i]);
        }
        assert(back.diffs =~= edits.diffs);
        assert forall|i: int| 0 <= i < file_rows.len() implies calls::new_file_of(
            #[trigger] file_rows[i],
        ) == edits.new_files[i] by {
            new_file_args_read(edits.new_files[i]);
        }
        assert(back.new_files =~= edits.new_files);
        assert(args::texts_at(edits_row(edits), 3) == paths);
        assert(back.deleted_files =~= edits.deleted_files);
    }
}

spec fn grep_row(grep: GrepView) -> JsonView {
    JsonView::Array(seq![calls::text_list(grep.queries), JsonView::Text(grep.path)])
}

proof fn grep_args_read(grep: GrepView)
    ensures
        args::read_record(Record::GrepArgs, calls::grep_args(grep)) == Ok::<JsonView, Seq<char>>(
            grep_row(grep),
        ),
        calls::grep_of(grep_row(grep)) == grep,
{
    text_list_reads(grep.queries);
    let places = seq![1int, 0];
    assert(places[0] == 1 && places[1] == 0);
    object_reads(
        Record::GrepArgs,
        calls::grep_args(grep)->Object_0,
        places,
        grep_row(grep)->Array_0,
    );
}

spec fn glob_row(patterns: Seq<Seq<char>>, search_dir: Seq<char>) -> JsonView {
    JsonView::Array(seq![calls::text_list(patterns), JsonView::Text(search_dir)])
}

proof fn glob_args_read(patterns: Seq<Seq<char>>, search_dir: Seq<char>)
    ensures
        args::read_record(Record::FileGlobArgs, calls::glob_args(patterns, search_dir)) == Ok::<
            JsonView,
            Seq<char>,
        >(glob_row(patterns, search_dir)),
        calls::glob_of(glob_row(patterns, search_dir)).patterns == patterns,
        calls::glob_of(glob_row(patterns, search_dir)).search_dir == search_dir,
{
    text_list_reads(patterns);
    let places = seq![0int, 1];
    assert(places[0] == 0 && places[1] == 1);
    object_reads(
        Record::FileGlobArgs,
        calls::glob_args(patterns, search_dir)->Object_0,
        places,
        glob_row(patterns, search_dir)->Array_0,
    );
}

spec fn resource_row(read: ReadMcpResourceView) -> JsonView {
    JsonView::Array(seq![JsonView::Text(read.uri), JsonView::Text(read.server_id)])
}

proof fn resource_args_read(read: ReadMcpResourceView)
    ensures
        args::read_record(Record::ReadMcpResourceArgs, calls::resource_args(read)) == Ok::<
            JsonView,
            Seq<char>,
        >(resource_row(read)),
        calls::resource_of(resource_row(read)) == read,
{
    let places = seq![1int, 0];
    assert(places[0] == 1 && places[1] == 0);
    object_reads(
        Record::ReadMcpResourceArgs,
        calls::resource_args(read)->Object_0,
        places,
        resource_row(read)->Array_0,
    );
}

spec fn suggestion_row(irrelevant: bool, chip: PromptChipView) -> JsonView {
    JsonView::Array(
        seq![JsonView::Text(chip.prompt), JsonView::Text(chip.label), JsonView::Bool(irrelevant)],
    )
}

proof fn suggestion_args_read(irrelevant: bool, chip: PromptChipView)
    ensures
        args::read_record(Record::SuggestPromptArgs, calls::suggestion_args(irrelevant, chip))
            == Ok::<JsonView, Seq<char>>(suggestion_row(irrelevant, chip)),
        calls::suggestion_of(suggestion_row(irrelevant, chip)).is_trigger_irrelevant == irrelevant,
        calls::suggestion_of(suggestion_row(irrelevant, chip)).display_mode == Some(
            DisplayModeView::PromptChip(chip),
        ),
{
    let places = seq![2int, 1, 0];
    assert(places[0] == 2 && places[1] == 1 && places[2] == 0);
    object_reads(
        Record::SuggestPromptArgs,
        calls::suggestion_args(irrelevant, chip)->Object_0,
        places,
        suggestion_row(irrelevant, chip)->Array_0,
    );
}

/// Whether a builtin tool is in the form that a model's call is logged in, and loses nothing when
/// it is written out as arguments again.
pub open spec fn issued(tool: ToolView) -> bool {
    match tool {
        ToolView::RunShellCommand(shell) => shell.wait_until_complete_value == Some(
            WaitUntilCompleteValueView::WaitUntilComplete(true),
        ) && shell.rest == context::nothing(),
        ToolView::ReadFiles(_) => true,
        ToolView::ApplyFileDiffs(edits) => edits.rest == context::nothing(),
        ToolView::Grep(_) => true,
        ToolView::FileGlobV2(glob) => glob.rest == context::nothing(),
        ToolView::ReadMcpResource(_) => true,
        ToolView::SuggestPrompt(suggest) => suggest.display_mode matches Some(
            DisplayModeView::PromptChip(_),
        ),
        _ => false,
    }
}

pub(crate) proof fn builtin_names_differ()
    ensures
        registry::builtin_record(definitions::RUN_SHELL_COMMAND@) == Some(
            Record::RunShellCommandArgs,
        ),
        registry::builtin_record(definitions::READ_FILES@) == Some(Record::ReadFilesArgs),
        registry::builtin_record(definitions::EDIT_FILES@) == Some(Record::EditFilesArgs),
        registry::builtin_record(definitions::GREP@) == Some(Record::GrepArgs),
        registry::builtin_record(definitions::FILE_GLOB@) == Some(Record::FileGlobArgs),
        registry::builtin_record(definitions::READ_MCP_RESOURCE@) == Some(
            Record::ReadMcpResourceArgs,
        ),
        registry::builtin_record(definitions::SUGGEST_PROMPT@) == Some(Record::SuggestPromptArgs),
        definitions::RUN_SHELL_COMMAND@[0] == 'r',
        definitions::READ_FILES@[0] == 'r',
        definitions::EDIT_FILES@[0] == 'e',
        definitions::GREP@[0] == 'g',
        definitions::FILE_GLOB@[0] == 'f',
        definitions::READ_MCP_RESOURCE@[0] == 'r',
        definitions::SUGGEST_PROMPT@[0] == 's',
{
    reveal_strlit("run_shell_command");
    reveal_strlit("read_files");
    reveal_strlit("edit_files");
    reveal_strlit("grep");
    reveal_strlit("file_glob");
    reveal_strlit("read_mcp_resource");
    reveal_strlit("suggest_prompt");
    assert(definitions::RUN_SHELL_COMMAND@.len() == 17);
    assert(definitions::READ_FILES@.len() == 10);
    assert(definitions::EDIT_FILES@.len() == 10);
    assert(definitions::EDIT_FILES@[0] == 'e');
    assert(definitions::GREP@.len() == 4);
    assert(definitions::FILE_GLOB@.len() == 9);
    assert(definitions::READ_MCP_RESOURCE@.len() == 17);
    assert(definitions::READ_MCP_RESOURCE@[1] == 'e');
    assert(definitions::RUN_SHELL_COMMAND@[1] == 'u');
    assert(definitions::SUGGEST_PROMPT@.len() == 14);
}

/// A builtin tool call that is replayed out of the log under any registry asks for the very call
/// that was logged, under the same id.
pub proof fn replayed_call_is_the_logged_call(registry: ToolRegistryView, call: ToolCallView)
    requires
        call.tool is Some,
        issued(call.tool->0),
    ensures
        registry::replayed_call(registry, call) matches Some(request) && request.id
            == call.tool_call_id && registry::logged_call(registry, request) == Ok::<
            ToolCallView,
            AdapterErrorView,
        >(call),
{
    builtin_names_differ();
    match call.tool->0 {
        ToolView::RunShellCommand(shell) => {
            shell_args_read(shell);
        },
        ToolView::ReadFiles(read) => {
            read_files_args_read(read);
        },
        ToolView::ApplyFileDiffs(edits) => {
            edits_args_read(edits);
        },
        ToolView::Grep(grep) => {
            grep_args_read(grep);
        },
        ToolView::FileGlobV2(glob) => {
            glob_args_read(glob.patterns, glob.search_dir);
        },
        ToolView::ReadMcpResource(read) => {
            resource_args_read(read);
        },
        ToolView::SuggestPrompt(suggest) => {
            suggestion_args_read(
                suggest.is_trigger_irrelevant,
                suggest.display_mode->0->PromptChip_0,
            );
        },
        _ => {},
    }
}

/// A model's call of a builtin tool is logged under the id that the provider gave it, in a form
/// that can be replayed without loss.
pub proof fn logged_call_is_issued(
    registry: ToolRegistryView,
    request: ToolCallRequestView,
    call: ToolCallView,
)
    requires
        registry::builtin_record(request.name) is Some,
        registry::logged_call(registry, request) == Ok::<ToolCallView, AdapterErrorView>(call),
    ensures
        call.tool_call_id == request.id,
        call.tool is Some,
        issued(call.tool->0),
{
}

/// Whether every entry has a name of the form that MCP tools have.
pub open spec fn named_for_mcp(entries: Seq<McpEntryView>) -> bool {
    forall|i: int|
        0 <= i < entries.len() ==> text::starts_with((#[trigger] entries[i]).name, "mcp__"@)
}

proof fn tools_are_named_for_mcp(
    entries: Seq<McpEntryView>,
    server: McpServerView,
    count: nat,
)
    requires
        named_for_mcp(entries),
    ensures
        named_for_mcp(registry::with_tools(entries, server, count)),
    decreases count,
{
    if count > 0 {
        tools_are_named_for_mcp(entries, server, (count - 1) as nat);
        let before = registry::with_tools(entries, server, (count - 1) as nat);
        let entry = registry::entry_for(server, server.tools[count - 1]);
        registry::mangled_name_is_accepted(server.name, server.tools[count - 1].name);
        let after = registry::bound(before, entry);
        registry::slot_is_first(before, entry.name, 0);
        let at = registry::slot(before, entry.name, 0) as int;
        assert forall|i: int| 0 <= i < after.len() implies text::starts_with(
            (#[trigger] after[i]).name,
            "mcp__"@,
        ) by {
            if i != at {
                let origin = if after.len() == before.len() || i < at {
                    i
                } else {
                    i - 1
                };
                assert(after[i] == before[origin]);
            }
        }
    }
}

/// The MCP tools of any request have names of the form that MCP tools have, so that none of them
/// takes the place of a builtin tool.
pub proof fn servers_are_named_for_mcp(
    servers: Seq<McpServerView>,
    count: nat,
)
    ensures
        named_for_mcp(registry::with_servers(servers, count)),
        forall|i: int|
            0 <= i < registry::with_servers(servers, count).len() ==> registry::builtin_record(
                (#[trigger] registry::with_servers(servers, count)[i]).name,
            ) is None,
    decreases count,
{
    if count > 0 {
        servers_are_named_for_mcp(servers, (count - 1) as nat);
        tools_are_named_for_mcp(
            registry::with_servers(servers, (count - 1) as nat),
            servers[count - 1],
            servers[count - 1].tools.len(),
        );
    }
    let entries = registry::with_servers(servers, count);
    assert forall|i: int| 0 <= i < entries.len() implies registry::builtin_record(
        (#[trigger] entries[i]).name,
    ) is None by {
        not_builtin(entries[i].name);
    }
}

proof fn not_builtin(name: Seq<char>)
    requires
        text::starts_with(name, "mcp__"@),
    ensures
        registry::builtin_record(name) is None,
{
    reveal_strlit("mcp__");
    builtin_names_differ();
    assert(name.subrange(0, 5)[0] == 'm');
    assert(name[0] == 'm');
}

pub(crate) proof fn owner_index_is_owner(
    entries: Seq<McpEntryView>,
    server_id: Seq<char>,
    tool_name: Seq<char>,
    count: nat,
)
    requires
        count <= entries.len(),
    ensures
        match registry::owner_index(entries, server_id, tool_name, count) {
            Some(at) => 0 <= at < count && entries[at].binding.server_id == server_id
                && entries[at].binding.tool_name == tool_name,
            None => forall|k: int|
                0 <= k < count ==> (#[trigger] entries[k]).binding.server_id != server_id
                    || entries[k].binding.tool_name != tool_name,
        },
    decreases count,
{
    if count > 0 {
        owner_index_is_owner(entries, server_id, tool_name, (count - 1) as nat);
    }
}

/// A call of an MCP tool that is replayed out of the log goes to the server and the tool that it
/// went to before, as long as the request still offers that tool. Its arguments are what the
/// schemaless form made of them: the very ones that were logged, where JSON has a form for those.
pub proof fn replayed_mcp_call_is_the_logged_call(registry: ToolRegistryView, call: ToolCallView)
    requires
        registry::in_order(registry.mcp_tools),
        named_for_mcp(registry.mcp_tools),
        call.tool matches Some(ToolView::CallMcpTool(tool)) && tool.args is Some && exists|i: int|
            0 <= i < registry.mcp_tools.len() && (#[trigger] registry.mcp_tools[i]).binding.server_id
                == tool.server_id && registry.mcp_tools[i].binding.tool_name == tool.name,
    ensures
        ({
            let tool = call.tool->0->CallMcpTool_0;
            registry::replayed_call(registry, call) matches Some(request) && request.id
                == call.tool_call_id && registry::logged_call(registry, request) == Ok::<
                ToolCallView,
                AdapterErrorView,
            >(
                ToolCallView {
                    tool_call_id: call.tool_call_id,
                    tool: Some(
                        ToolView::CallMcpTool(
                            CallMcpToolView {
                                name: tool.name,
                                args: Some(
                                    structs::struct_of(structs::object_of(tool.args->0)->Object_0),
                                ),
                                server_id: tool.server_id,
                            },
                        ),
                    ),
                },
            )
        }),
        registry::arguments_settled(call) ==> registry::logged_call(
            registry,
            registry::replayed_call(registry, call)->0,
        ) == Ok::<ToolCallView, AdapterErrorView>(call),
{
    let tool = call.tool->0->CallMcpTool_0;
    structs::struct_round_trip(tool.args->0);
    let entries = registry.mcp_tools;
    owner_index_is_owner(entries, tool.server_id, tool.name, entries.len());
    let at = registry::owner_index(entries, tool.server_id, tool.name, entries.len())->0;
    not_builtin(entries[at].name);
    registry::entry_index_is_first(entries, entries[at].name, entries.len());
    let found = registry::entry_index(entries, entries[at].name, entries.len())->0;
    if found != at {
        text::text_order(entries[at].name, entries[found].name, entries[at].name);
    }
}

/// Every call that was logged can be replayed in any later turn, under the id that its result will
/// come back with.
pub proof fn logged_call_is_replayable(
    registry: ToolRegistryView,
    request: ToolCallRequestView,
    call: ToolCallView,
    later: ToolRegistryView,
)
    requires
        registry::logged_call(registry, request) == Ok::<ToolCallView, AdapterErrorView>(call),
    ensures
        registry::replayed_call(later, call) matches Some(replayed) && replayed.id == request.id,
{
}

/// Every tool that a turn announces to the model is one that the model can call: a call of it is
/// never answered with an unknown tool.
pub proof fn announced_tools_are_known(
    registry: ToolRegistryView,
    at: int,
    arguments: JsonView,
)
    requires
        0 <= at < registry::announced(registry).len(),
    ensures
        !(registry::requested_tool(
            registry,
            registry::announced(registry)[at].name,
            arguments,
        ) matches Err(AdapterErrorView::UnknownTool(_))),
{
    builtin_names_differ();
    let name = registry::announced(registry)[at].name;
    let builtins = definitions::builtins_announced();
    if !registry.suggestion_only && at >= builtins.len() {
        assert(name == registry.mcp_tools[at - builtins.len()].name);
        registry::entry_index_is_first(registry.mcp_tools, name, registry.mcp_tools.len());
    } else if !registry.suggestion_only {
        assert(registry::announced(registry)[at] == builtins[at]);
    }
}

/// No two tools that a turn announces have one name.
pub proof fn announced_names_differ(registry: ToolRegistryView, i: int, j: int)
    requires
        registry::in_order(registry.mcp_tools),
        named_for_mcp(registry.mcp_tools),
        0 <= i < j < registry::announced(registry).len(),
    ensures
        registry::announced(registry)[i].name != registry::announced(registry)[j].name,
{
    builtin_names_differ();
    let all = registry::announced(registry);
    let builtins = definitions::builtins_announced();
    if !registry.suggestion_only {
        if i < builtins.len() {
            assert(all[i] == builtins[i]);
            assert(registry::builtin_record(all[i].name) is Some);
        }
        if j < builtins.len() {
            assert(all[j] == builtins[j]);
            assert(registry::builtin_record(all[i].name) != registry::builtin_record(all[j].name));
        } else {
            let right = registry.mcp_tools[j - builtins.len()];
            assert(all[j].name == right.name);
            not_builtin(right.name);
            if i >= builtins.len() {
                let left = registry.mcp_tools[i - builtins.len()];
                assert(all[i].name == left.name);
                text::text_order(left.name, right.name, left.name);
            }
        }
    }
}

} // verus!

//! The builtin tool calls, from the arguments that a model writes to the form
//! that the task tree keeps, and back.

use vstd::prelude::*;

use crate::api::context;
use crate::api::context::{FileContentLineRange, FileContentLineRangeView, Opaque};
use crate::api::tool::{
    ApplyFileDiffs, ApplyFileDiffsView, DeleteFile, DeleteFileView, DisplayMode, DisplayModeView,
    FileDiff, FileDiffView, FileGlobV2, FileGlobV2View, Grep, GrepView, NewFile, NewFileView,
    PromptChip, PromptChipView, ReadFile, ReadFileView, ReadFiles, ReadFilesView, ReadMcpResource,
    ReadMcpResourceView, RunShellCommand, RunShellCommandView, SuggestPrompt, SuggestPromptView,
    WaitUntilCompleteValue, WaitUntilCompleteValueView,
};
use crate::args;
use crate::json;
use crate::json::{Json, JsonNumber, JsonNumberView, JsonView};

verus! {

/// The shell command that the arguments of `run_shell_command` ask for. It always runs to
/// completion before its result comes back.
pub open spec fn shell_of(row: JsonView) -> RunShellCommandView {
    RunShellCommandView {
        command: args::text_at(row, 0),
        is_read_only: args::flag_at(row, 1),
        is_risky: args::flag_at(row, 2),
        wait_until_complete_value: Some(WaitUntilCompleteValueView::WaitUntilComplete(true)),
        rest: context::nothing(),
    }
}

pub open spec fn line_range_of(row: JsonView) -> FileContentLineRangeView {
    FileContentLineRangeView { start: args::count_at(row, 0), end: args::count_at(row, 1) }
}

pub open spec fn read_file_of(row: JsonView) -> ReadFileView {
    ReadFileView {
        name: args::text_at(row, 0),
        line_ranges: args::list_at(row, 1).map_values(|range: JsonView| line_range_of(range)),
    }
}

/// The files that the arguments of `read_files` ask for.
pub open spec fn read_files_of(row: JsonView) -> ReadFilesView {
    ReadFilesView {
        files: args::list_at(row, 0).map_values(|file: JsonView| read_file_of(file)),
    }
}

pub open spec fn diff_of(row: JsonView) -> FileDiffView {
    FileDiffView {
        file_path: args::text_at(row, 0),
        search: args::text_at(row, 1),
        replace: args::text_at(row, 2),
    }
}

pub open spec fn new_file_of(row: JsonView) -> NewFileView {
    NewFileView {
        file_path: args::text_at(row, 0),
        content: args::text_at(row, 1),
        allow_overwrite: args::flag_at(row, 2),
    }
}

pub open spec fn delete_file_of(file_path: Seq<char>) -> DeleteFileView {
    DeleteFileView { file_path }
}

/// The edits that the arguments of `edit_files` ask for.
pub open spec fn edits_of(row: JsonView) -> ApplyFileDiffsView {
    ApplyFileDiffsView {
        summary: args::text_at(row, 0),
        diffs: args::list_at(row, 1).map_values(|diff: JsonView| diff_of(diff)),
        new_files: args::list_at(row, 2).map_values(|file: JsonView| new_file_of(file)),
        deleted_files: args::texts_at(row, 3).map_values(
            |file_path: Seq<char>| delete_file_of(file_path),
        ),
        rest: context::nothing(),
    }
}

/// The search that the arguments of `grep` ask for.
pub open spec fn grep_of(row: JsonView) -> GrepView {
    GrepView { queries: args::texts_at(row, 0), path: args::text_at(row, 1) }
}

/// The search that the arguments of `file_glob` ask for.
pub open spec fn glob_of(row: JsonView) -> FileGlobV2View {
    FileGlobV2View {
        patterns: args::texts_at(row, 0),
        search_dir: args::text_at(row, 1),
        rest: context::nothing(),
    }
}

/// The resource that the arguments of `read_mcp_resource` ask for.
pub open spec fn resource_of(row: JsonView) -> ReadMcpResourceView {
    ReadMcpResourceView { uri: args::text_at(row, 0), server_id: args::text_at(row, 1) }
}

/// The suggestion that the arguments of `suggest_prompt` make.
pub open spec fn suggestion_of(row: JsonView) -> SuggestPromptView {
    SuggestPromptView {
        is_trigger_irrelevant: args::flag_at(row, 2),
        display_mode: Some(
            DisplayModeView::PromptChip(
                PromptChipView { prompt: args::text_at(row, 0), label: args::text_at(row, 1) },
            ),
        ),
    }
}

pub fn shell_from(row: &Json) -> (shell: RunShellCommand)
    ensures
        shell.deep_view() == shell_of(row.deep_view()),
{
    RunShellCommand {
        command: args::get_text(row, 0),
        is_read_only: args::get_flag(row, 1),
        is_risky: args::get_flag(row, 2),
        wait_until_complete_value: Some(WaitUntilCompleteValue::WaitUntilComplete(true)),
        rest: Opaque::nothing(),
    }
}

fn read_file_from(row: &Json) -> (file: ReadFile)
    ensures
        file.deep_view() == read_file_of(row.deep_view()),
{
    let rows = args::get_list(row, 1);
    let mut line_ranges: Vec<FileContentLineRange> = Vec::new();
    for i in 0..rows.len()
        invariant
            line_ranges@.len() == i,
            forall|k: int|
                0 <= k < i ==> (#[trigger] line_ranges@[k]).deep_view() == line_range_of(
                    rows@[k].deep_view(),
                ),
    {
        line_ranges.push(
            FileContentLineRange {
                start: args::get_count(&rows[i], 0),
                end: args::get_count(&rows[i], 1),
            },
        );
    }
    let file = ReadFile { name: args::get_text(row, 0), line_ranges };
    assert(file.line_ranges.deep_view() =~= read_file_of(row.deep_view()).line_ranges);
    file
}

pub fn read_files_from(row: &Json) -> (read: ReadFiles)
    ensures
        read.deep_view() == read_files_of(row.deep_view()),
{
    let rows = args::get_list(row, 0);
    let mut files: Vec<ReadFile> = Vec::new();
    for i in 0..rows.len()
        invariant
            files@.len() == i,
            forall|k: int|
                0 <= k < i ==> (#[trigger] files@[k]).deep_view() == read_file_of(
                    rows@[k].deep_view(),
                ),
    {
        files.push(read_file_from(&rows[i]));
    }
    let read = ReadFiles { files };
    assert(read.files.deep_view() =~= read_files_of(row.deep_view()).files);
    read
}

fn diffs_from(row: &Json, at: usize) -> (diffs: Vec<FileDiff>)
    ensures
        diffs.deep_view() == args::list_at(row.deep_view(), at as int).map_values(
            |diff: JsonView| diff_of(diff),
        ),
{
    let rows = args::get_list(row, at);
    let mut diffs: Vec<FileDiff> = Vec::new();
    for i in 0..rows.len()
        invariant
            diffs@.len() == i,
            forall|k: int|
                0 <= k < i ==> (#[trigger] diffs@[k]).deep_view() == diff_of(rows@[k].deep_view()),
    {
        diffs.push(
            FileDiff {
                file_path: args::get_text(&rows[i], 0),
                search: args::get_text(&rows[i], 1),
                replace: args::get_text(&rows[i], 2),
            },
        );
    }
    assert(diffs.deep_view() =~= args::list_at(row.deep_view(), at as int).map_values(
        |diff: JsonView| diff_of(diff),
    ));
    diffs
}

fn new_files_from(row: &Json, at: usize) -> (files: Vec<NewFile>)
    ensures
        files.deep_view() == args::list_at(row.deep_view(), at as int).map_values(
            |file: JsonView| new_file_of(file),
        ),
{
    let rows = args::get_list(row, at);
    let mut files: Vec<NewFile> = Vec::new();
    for i in 0..rows.len()
        invariant
            files@.len() == i,
            forall|k: int|
                0 <= k < i ==> (#[trigger] files@[k]).deep_view() == new_file_of(
                    rows@[k].deep_view(),
                ),
    {
        files.push(
            NewFile {
                file_path: args::get_text(&rows[i], 0),
                content: args::get_text(&rows[i], 1),
                allow_overwrite: args::get_flag(&rows[i], 2),
            },
        );
    }
    assert(files.deep_view() =~= args::list_at(row.deep_view(), at as int).map_values(
        |file: JsonView| new_file_of(file),
    ));
    files
}

fn deleted_files_from(row: &Json, at: usize) -> (files: Vec<DeleteFile>)
    ensures
        files.deep_view() == args::texts_at(row.deep_view(), at as int).map_values(
            |file_path: Seq<char>| delete_file_of(file_path),
        ),
{
    let paths = args::get_texts(row, at);
    let mut files: Vec<DeleteFile> = Vec::new();
    for i in 0..paths.len()
        invariant
            files@.len() == i,
            forall|k: int|
                0 <= k < i ==> (#[trigger] files@[k]).deep_view() == delete_file_of(paths@[k]@),
    {
        files.push(DeleteFile { file_path: paths[i].clone() });
    }
    assert(files.deep_view() =~= args::texts_at(row.deep_view(), at as int).map_values(
        |file_path: Seq<char>| delete_file_of(file_path),
    ));
    files
}

pub fn edits_from(row: &Json) -> (edits: ApplyFileDiffs)
    ensures
        edits.deep_view() == edits_of(row.deep_view()),
{
    ApplyFileDiffs {
        summary: args::get_text(row, 0),
        diffs: diffs_from(row, 1),
        new_files: new_files_from(row, 2),
        deleted_files: deleted_files_from(row, 3),
        rest: Opaque::nothing(),
    }
}

pub fn grep_from(row: &Json) -> (grep: Grep)
    ensures
        grep.deep_view() == grep_of(row.deep_view()),
{
    Grep { queries: args::get_texts(row, 0), path: args::get_text(row, 1) }
}

pub fn glob_from(row: &Json) -> (glob: FileGlobV2)
    ensures
        glob.deep_view() == glob_of(row.deep_view()),
{
    FileGlobV2 {
        patterns: args::get_texts(row, 0),
        search_dir: args::get_text(row, 1),
        rest: Opaque::nothing(),
    }
}

pub fn resource_from(row: &Json) -> (read: ReadMcpResource)
    ensures
        read.deep_view() == resource_of(row.deep_view()),
{
    ReadMcpResource { uri: args::get_text(row, 0), server_id: args::get_text(row, 1) }
}

pub fn suggestion_from(row: &Json) -> (suggestion: SuggestPrompt)
    ensures
        suggestion.deep_view() == suggestion_of(row.deep_view()),
{
    SuggestPrompt {
        is_trigger_irrelevant: args::get_flag(row, 2),
        display_mode: Some(
            DisplayMode::PromptChip(
                PromptChip { prompt: args::get_text(row, 0), label: args::get_text(row, 1) },
            ),
        ),
    }
}

/// The list of the given texts.
pub open spec fn text_list(texts: Seq<Seq<char>>) -> JsonView {
    JsonView::Array(texts.map_values(|content: Seq<char>| JsonView::Text(content)))
}

/// An unsigned integer.
pub open spec fn count_value(count: u32) -> JsonView {
    JsonView::Number(JsonNumberView::PosInt(count as u64))
}

/// The arguments of `run_shell_command` for a shell command.
pub open spec fn shell_args(shell: RunShellCommandView) -> JsonView {
    JsonView::Object(
        seq![
            ("command"@, JsonView::Text(shell.command)),
            ("is_read_only"@, JsonView::Bool(shell.is_read_only)),
            ("is_risky"@, JsonView::Bool(shell.is_risky)),
        ],
    )
}

pub open spec fn line_range_args(range: FileContentLineRangeView) -> JsonView {
    JsonView::Object(
        seq![("end"@, count_value(range.end)), ("start"@, count_value(range.start))],
    )
}

pub open spec fn read_file_args(file: ReadFileView) -> JsonView {
    JsonView::Object(
        seq![
            (
                "line_ranges"@,
                JsonView::Array(
                    file.line_ranges.map_values(
                        |range: FileContentLineRangeView| line_range_args(range),
                    ),
                ),
            ),
            ("path"@, JsonView::Text(file.name)),
        ],
    )
}

/// The arguments of `read_files` for files to read.
pub open spec fn read_files_args(read: ReadFilesView) -> JsonView {
    JsonView::Object(
        seq![
            (
                "files"@,
                JsonView::Array(read.files.map_values(|file: ReadFileView| read_file_args(file))),
            ),
        ],
    )
}

pub open spec fn diff_args(diff: FileDiffView) -> JsonView {
    JsonView::Object(
        seq![
            ("file_path"@, JsonView::Text(diff.file_path)),
            ("replace"@, JsonView::Text(diff.replace)),
            ("search"@, JsonView::Text(diff.search)),
        ],
    )
}

pub open spec fn new_file_args(file: NewFileView) -> JsonView {
    JsonView::Object(
        seq![
            ("allow_overwrite"@, JsonView::Bool(file.allow_overwrite)),
            ("content"@, JsonView::Text(file.content)),
            ("file_path"@, JsonView::Text(file.file_path)),
        ],
    )
}

/// The arguments of `edit_files` for edits.
pub open spec fn edits_args(edits: ApplyFileDiffsView) -> JsonView {
    JsonView::Object(
        seq![
            (
                "deleted_files"@,
                text_list(edits.deleted_files.map_values(|file: DeleteFileView| file.file_path)),
            ),
            (
                "diffs"@,
                JsonView::Array(edits.diffs.map_values(|diff: FileDiffView| diff_args(diff))),
            ),
            (
                "new_files"@,
                JsonView::Array(edits.new_files.map_values(|file: NewFileView| new_file_args(file))),
            ),
            ("summary"@, JsonView::Text(edits.summary)),
        ],
    )
}

/// The arguments of `grep` for a search.
pub open spec fn grep_args(grep: GrepView) -> JsonView {
    JsonView::Object(
        seq![("path"@, JsonView::Text(grep.path)), ("queries"@, text_list(grep.queries))],
    )
}

/// The arguments of `file_glob` for a search.
pub open spec fn glob_args(patterns: Seq<Seq<char>>, search_dir: Seq<char>) -> JsonView {
    JsonView::Object(
        seq![("patterns"@, text_list(patterns)), ("search_dir"@, JsonView::Text(search_dir))],
    )
}

/// The arguments of `read_mcp_resource` for a resource.
pub open spec fn resource_args(read: ReadMcpResourceView) -> JsonView {
    JsonView::Object(
        seq![
            ("server_id"@, JsonView::Text(read.server_id)),
            ("uri"@, JsonView::Text(read.uri)),
        ],
    )
}

/// The arguments of `suggest_prompt` for a suggestion.
pub open spec fn suggestion_args(irrelevant: bool, chip: PromptChipView) -> JsonView {
    JsonView::Object(
        seq![
            ("is_trigger_irrelevant"@, JsonView::Bool(irrelevant)),
            ("label"@, JsonView::Text(chip.label)),
            ("prompt"@, JsonView::Text(chip.prompt)),
        ],
    )
}

fn make_text_list(texts: &Vec<String>) -> (list: Json)
    ensures
        list.deep_view() == text_list(texts.deep_view()),
{
    let mut items: Vec<Json> = Vec::new();
    for i in 0..texts.len()
        invariant
            items@.len() == i,
            forall|k: int|
                0 <= k < i ==> (#[trigger] items@[k]).deep_view() == JsonView::Text(texts@[k]@),
    {
        items.push(Json::Text(texts[i].clone()));
    }
    let list = json::json_array(items);
    assert(list.deep_view()->Array_0 =~= text_list(texts.deep_view())->Array_0);
    list
}

pub fn args_for_shell(shell: &RunShellCommand) -> (arguments: Json)
    ensures
        arguments.deep_view() == shell_args(shell.deep_view()),
{
    let arguments = json::json_object(
        vec![
            ("command".to_string(), Json::Text(shell.command.clone())),
            ("is_read_only".to_string(), Json::Bool(shell.is_read_only)),
            ("is_risky".to_string(), Json::Bool(shell.is_risky)),
        ],
    );
    assert(arguments.deep_view()->Object_0 =~= shell_args(shell.deep_view())->Object_0);
    arguments
}

fn args_for_line_range(range: &FileContentLineRange) -> (arguments: Json)
    ensures
        arguments.deep_view() == line_range_args(range.deep_view()),
{
    let arguments = json::json_object(
        vec![
            ("end".to_string(), Json::Number(JsonNumber::PosInt(range.end as u64))),
            ("start".to_string(), Json::Number(JsonNumber::PosInt(range.start as u64))),
        ],
    );
    assert(arguments.deep_view()->Object_0 =~= line_range_args(range.deep_view())->Object_0);
    arguments
}

fn args_for_read_file(file: &ReadFile) -> (arguments: Json)
    ensures
        arguments.deep_view() == read_file_args(file.deep_view()),
{
    let mut ranges: Vec<Json> = Vec::new();
    for i in 0..file.line_ranges.len()
        invariant
            ranges@.len() == i,
            forall|k: int|
                0 <= k < i ==> (#[trigger] ranges@[k]).deep_view() == line_range_args(
                    file.line_ranges@[k].deep_view(),
                ),
    {
        ranges.push(args_for_line_range(&file.line_ranges[i]));
    }
    assert(ranges.deep_view() =~= file.deep_view().line_ranges.map_values(
        |range: FileContentLineRangeView| line_range_args(range),
    ));
    let arguments = json::json_object(
        vec![
            ("line_ranges".to_string(), json::json_array(ranges)),
            ("path".to_string(), Json::Text(file.name.clone())),
        ],
    );
    assert(arguments.deep_view()->Object_0 =~= read_file_args(file.deep_view())->Object_0);
    arguments
}

pub fn args_for_read_files(read: &ReadFiles) -> (arguments: Json)
    ensures
        arguments.deep_view() == read_files_args(read.deep_view()),
{
    let mut files: Vec<Json> = Vec::new();
    for i in 0..read.files.len()
        invariant
            files@.len() == i,
            forall|k: int|
                0 <= k < i ==> (#[trigger] files@[k]).deep_view() == read_file_args(
                    read.files@[k].deep_view(),
                ),
    {
        files.push(args_for_read_file(&read.files[i]));
    }
    assert(files.deep_view() =~= read.deep_view().files.map_values(
        |file: ReadFileView| read_file_args(file),
    ));
    let arguments = json::json_object(vec![("files".to_string(), json::json_array(files))]);
    assert(arguments.deep_view()->Object_0 =~= read_files_args(read.deep_view())->Object_0);
    arguments
}

fn args_for_diff(diff: &FileDiff) -> (arguments: Json)
    ensures
        arguments.deep_view() == diff_args(diff.deep_view()),
{
    let arguments = json::json_object(
        vec![
            ("file_path".to_string(), Json::Text(diff.file_path.clone())),
            ("replace".to_string(), Json::Text(diff.replace.clone())),
            ("search".to_string(), Json::Text(diff.search.clone())),
        ],
    );
    assert(arguments.deep_view()->Object_0 =~= diff_args(diff.deep_view())->Object_0);
    arguments
}

fn args_for_new_file(file: &NewFile) -> (arguments: Json)
    ensures
        arguments.deep_view() == new_file_args(file.deep_view()),
{
    let arguments = json::json_object(
        vec![
            ("allow_overwrite".to_string(), Json::Bool(file.allow_overwrite)),
            ("content".to_string(), Json::Text(file.content.clone())),
            ("file_path".to_string(), Json::Text(file.file_path.clone())),
        ],
    );
    assert(arguments.deep_view()->Object_0 =~= new_file_args(file.deep_view())->Object_0);
    arguments
}

pub fn args_for_edits(edits: &ApplyFileDiffs) -> (arguments: Json)
    ensures
        arguments.deep_view() == edits_args(edits.deep_view()),
{
    let mut deleted: Vec<String> = Vec::new();
    for i in 0..edits.deleted_files.len()
        invariant
            deleted@.len() == i,
            forall|k: int|
                0 <= k < i ==> (#[trigger] deleted@[k])@ == edits.deleted_files@[k].file_path@,
    {
        deleted.push(edits.deleted_files[i].file_path.clone());
    }
    assert(deleted.deep_view() =~= edits.deep_view().deleted_files.map_values(
        |file: DeleteFileView| file.file_path,
    ));
    let mut diffs: Vec<Json> = Vec::new();
    for i in 0..edits.diffs.len()
        invariant
            diffs@.len() == i,
            forall|k: int|
                0 <= k < i ==> (#[trigger] diffs@[k]).deep_view() == diff_args(
                    edits.diffs@[k].deep_view(),
                ),
    {
        diffs.push(args_for_diff(&edits.diffs[i]));
    }
    assert(diffs.deep_view() =~= edits.deep_view().diffs.map_values(
        |diff: FileDiffView| diff_args(diff),
    ));
    let mut new_files: Vec<Json> = Vec::new();
    for i in 0..edits.new_files.len()
        invariant
            new_files@.len() == i,
            forall|k: int|
                0 <= k < i ==> (#[trigger] new_files@[k]).deep_view() == new_file_args(
                    edits.new_files@[k].deep_view(),
                ),
    {
        new_files.push(args_for_new_file(&edits.new_files[i]));
    }
    assert(new_files.deep_view() =~= edits.deep_view().new_files.map_values(
        |file: NewFileView| new_file_args(file),
    ));
    let arguments = json::json_object(
        vec![
            ("deleted_files".to_string(), make_text_list(&deleted)),
            ("diffs".to_string(), json::json_array(diffs)),
            ("new_files".to_string(), json::json_array(new_files)),
            ("summary".to_string(), Json::Text(edits.summary.clone())),
        ],
    );
    assert(arguments.deep_view()->Object_0 =~= edits_args(edits.deep_view())->Object_0);
    arguments
}

pub fn args_for_grep(grep: &Grep) -> (arguments: Json)
    ensures
        arguments.deep_view() == grep_args(grep.deep_view()),
{
    let arguments = json::json_object(
        vec![
            ("path".to_string(), Json::Text(grep.path.clone())),
            ("queries".to_string(), make_text_list(&grep.queries)),
        ],
    );
    assert(arguments.deep_view()->Object_0 =~= grep_args(grep.deep_view())->Object_0);
    arguments
}

pub fn args_for_glob(patterns: &Vec<String>, search_dir: &String) -> (arguments: Json)
    ensures
        arguments.deep_view() == glob_args(patterns.deep_view(), search_dir@),
{
    let arguments = json::json_object(
        vec![
            ("patterns".to_string(), make_text_list(patterns)),
            ("search_dir".to_string(), Json::Text(search_dir.clone())),
        ],
    );
    assert(arguments.deep_view()->Object_0 =~= glob_args(
        patterns.deep_view(),
        search_dir@,
    )->Object_0);
    arguments
}

pub fn args_for_resource(read: &ReadMcpResource) -> (arguments: Json)
    ensures
        arguments.deep_view() == resource_args(read.deep_view()),
{
    let arguments = json::json_object(
        vec![
            ("server_id".to_string(), Json::Text(read.server_id.clone())),
            ("uri".to_string(), Json::Text(read.uri.clone())),
        ],
    );
    assert(arguments.deep_view()->Object_0 =~= resource_args(read.deep_view())->Object_0);
    arguments
}

pub fn args_for_suggestion(irrelevant: bool, chip: &PromptChip) -> (arguments: Json)
    ensures
        arguments.deep_view() == suggestion_args(irrelevant, chip.deep_view()),
{
    let arguments = json::json_object(
        vec![
            ("is_trigger_irrelevant".to_string(), Json::Bool(irrelevant)),
            ("label".to_string(), Json::Text(chip.label.clone())),
            ("prompt".to_string(), Json::Text(chip.prompt.clone())),
        ],
    );
    assert(arguments.deep_view()->Object_0 =~= suggestion_args(
        irrelevant,
        chip.deep_view(),
    )->Object_0);
    arguments
}

} // verus!

//! Laws of tool results: what the model reads of each kind of result, part by part.

use vstd::prelude::*;

use crate::api::context::{
    AnyFileContentKindView, AnyFileContentView, FileContentLineRangeView, FileContentView,
};
use crate::api::result::{
    ApplyFileDiffsOutcomeView, CallMcpToolContentView, CallMcpToolEntryView,
    CallMcpToolOutcomeView, DeletedFileView, FileGlobOutcomeView, FileGlobV2MatchView,
    FileGlobV2OutcomeView, FileGlobV2SuccessView, GrepFileMatchView, GrepLineMatchView,
    GrepOutcomeView, McpContentTypeView, McpResourceContentView, ReadFilesOutcomeView,
    ReadMcpResourceOutcomeView, RunShellCommandOutcomeView, ToolCallResultView, ToolResultView,
    UpdatedFileView,
};
use crate::render;
use crate::text;

verus! {

/// The paths of the updated files that are there, in order.
pub open spec fn updated_paths(files: Seq<UpdatedFileView>) -> Seq<Seq<char>>
    decreases files.len(),
{
    if files.len() == 0 {
        Seq::empty()
    } else {
        (match files[0].file {
            Some(file) => seq![file.file_path],
            None => Seq::empty(),
        }) + updated_paths(files.drop_first())
    }
}

proof fn updated_lines_are_paths(files: Seq<UpdatedFileView>, count: nat)
    requires
        count <= files.len(),
    ensures
        ({
            let lines = render::updated_lines(files, count);
            let paths = updated_paths(files.take(count as int));
            lines.len() == paths.len() && forall|i: int|
                0 <= i < lines.len() ==> #[trigger] lines[i] == "Updated: "@ + paths[i]
        }),
    decreases count,
{
    if count > 0 {
        updated_lines_are_paths(files, (count - 1) as nat);
        let now = files.take(count as int);
        let last = files[count - 1];
        assert(now =~= files.take(count - 1).push(last));
        updated_paths_grow(files.take(count - 1), last);
    } else {
        assert(files.take(0) =~= Seq::empty());
    }
}

proof fn updated_paths_grow(files: Seq<UpdatedFileView>, last: UpdatedFileView)
    ensures
        updated_paths(files.push(last)) == updated_paths(files) + (match last.file {
            Some(file) => seq![file.file_path],
            None => Seq::empty(),
        }),
    decreases files.len(),
{
    let end = match last.file {
        Some(file) => seq![file.file_path],
        None => Seq::<Seq<char>>::empty(),
    };
    if files.len() == 0 {
        let rest = files.push(last).drop_first();
        assert(rest =~= Seq::empty());
        assert(updated_paths(rest) =~= Seq::empty());
        assert(updated_paths(files.push(last)) =~= end);
        assert(updated_paths(files) + end =~= end);
    } else {
        assert(files.push(last).drop_first() =~= files.drop_first().push(last));
        updated_paths_grow(files.drop_first(), last);
        assert(updated_paths(files.push(last)) =~= updated_paths(files) + end);
    }
}

/// Of edits that were applied the model reads a line for each updated file that is there, in
/// order, then one for each deleted file, in order, after a line that says so.
pub proof fn applied_edits_are_shown(result: ToolCallResultView)
    requires
        result.result matches Some(ToolResultView::ApplyFileDiffs(apply)) && apply.result is Some
            && apply.result->0 is Success,
    ensures
        ({
            let success = result.result->0->ApplyFileDiffs_0.result->0->Success_0;
            let paths = updated_paths(success.updated_files_v2);
            exists|lines: Seq<Seq<char>>|
                text::laid_out(render::result_text(result), lines, "\n"@) && lines.len() == 1
                    + paths.len() + success.deleted_files.len() && lines[0]
                    == "Edits applied successfully."@ && (forall|i: int|
                    0 <= i < paths.len() ==> lines[1 + i] == "Updated: "@ + #[trigger] paths[i])
                    && (forall|i: int|
                    0 <= i < success.deleted_files.len() ==> lines[1 + paths.len() + i]
                        == "Deleted: "@ + (#[trigger] success.deleted_files[i]).file_path)
        }),
{
    let success = result.result->0->ApplyFileDiffs_0.result->0->Success_0;
    let files = success.updated_files_v2;
    let paths = updated_paths(files);
    let updated = render::updated_lines(files, files.len());
    let deleted = success.deleted_files.map_values(
        |file: DeletedFileView| "Deleted: "@ + file.file_path,
    );
    let lines = seq!["Edits applied successfully."@] + updated + deleted;
    updated_lines_are_paths(files, files.len());
    assert(files.take(files.len() as int) =~= files);
    text::join_lays_out(lines, "\n"@);
    assert forall|i: int| 0 <= i < paths.len() implies lines[1 + i] == "Updated: "@
        + #[trigger] paths[i] by {
        assert(lines[1 + i] == updated[i]);
    }
    assert forall|i: int| 0 <= i < success.deleted_files.len() implies lines[1 + paths.len() + i]
        == "Deleted: "@ + (#[trigger] success.deleted_files[i]).file_path by {
        assert(lines[1 + paths.len() + i] == deleted[i]);
    }
    assert(text::laid_out(render::result_text(result), lines, "\n"@));
}

/// How a range of lines is shown behind a path.
pub open spec fn shown_range(range: Option<FileContentLineRangeView>) -> Seq<char> {
    match range {
        Some(range) => " (lines "@ + text::decimal(range.start as int) + "-"@ + text::decimal(
            range.end as int,
        ) + ")"@,
        None => Seq::empty(),
    }
}

/// Whether a part of a result shows a text file: a head line with its path and its range of lines,
/// and all of its content.
pub open spec fn shows_file(part: Seq<char>, file: FileContentView) -> bool {
    part == "=== "@ + (file.file_path + shown_range(file.line_range)) + " ===\n"@ + file.content
}

proof fn file_is_shown(file: FileContentView)
    ensures
        shows_file(render::file_text(file), file),
{
    reveal_strlit(") ===\n");
    reveal_strlit(")");
    reveal_strlit(" ===\n");
    assert(") ===\n"@ =~= ")"@ + " ===\n"@);
    match file.line_range {
        Some(range) => {
            let numbers = text::decimal(range.start as int) + "-"@ + text::decimal(
                range.end as int,
            );
            assert(render::file_text(file) =~= "=== "@ + (file.file_path + shown_range(
                file.line_range,
            )) + " ===\n"@ + file.content);
        },
        None => {
            assert(file.file_path + shown_range(None) =~= file.file_path);
        },
    }
}

/// Of text files that were read the model reads all, in order: each with its path and its whole
/// content.
pub proof fn text_files_are_shown(result: ToolCallResultView)
    requires
        result.result matches Some(ToolResultView::ReadFiles(read)) && read.result is Some
            && read.result->0 is TextFilesSuccess,
    ensures
        ({
            let files = result.result->0->ReadFiles_0.result->0->TextFilesSuccess_0.files;
            &&& exists|parts: Seq<Seq<char>>|
                text::laid_out(render::result_text(result), parts, "\n\n"@) && parts.len()
                    == files.len() && forall|i: int|
                    0 <= i < files.len() ==> shows_file(parts[i], #[trigger] files[i])
            &&& forall|i: int|
                0 <= i < files.len() ==> text::occurs_in(
                    render::result_text(result),
                    (#[trigger] files[i]).content,
                ) && text::occurs_in(render::result_text(result), files[i].file_path)
        }),
{
    let files = result.result->0->ReadFiles_0.result->0->TextFilesSuccess_0.files;
    let parts = files.map_values(|file: FileContentView| render::file_text(file));
    let whole = render::result_text(result);
    text::join_lays_out(parts, "\n\n"@);
    assert forall|i: int| 0 <= i < files.len() implies shows_file(
        parts[i],
        #[trigger] files[i],
    ) by {
        file_is_shown(files[i]);
    }
    assert forall|i: int| 0 <= i < files.len() implies text::occurs_in(
        whole,
        (#[trigger] files[i]).content,
    ) && text::occurs_in(whole, files[i].file_path) by {
        let file = files[i];
        assert(shows_file(parts[i], file));
        text::part_is_laid_out(whole, parts, "\n\n"@, i);
        let head = "=== "@ + (file.file_path + shown_range(file.line_range)) + " ===\n"@;
        text::part_of_middle(head, file.content, Seq::empty());
        assert(head + file.content + Seq::empty() =~= parts[i]);
        text::part_of_part(whole, parts[i], file.content);
        let tail = shown_range(file.line_range) + " ===\n"@ + file.content;
        text::part_of_middle("=== "@, file.file_path, tail);
        assert("=== "@ + file.file_path + tail =~= parts[i]);
        text::part_of_part(whole, parts[i], file.file_path);
    }
    assert(text::laid_out(whole, parts, "\n\n"@));
}

/// Whether a part of a result shows a file of either kind: a text with all of its content, and
/// anything else by its size.
pub open spec fn shows_any_file(part: Seq<char>, file: AnyFileContentView) -> bool {
    match file.content {
        Some(AnyFileContentKindView::TextContent(content)) => shows_file(part, content),
        Some(AnyFileContentKindView::BinaryContent(content)) => part == "=== "@ + content.file_path
            + " ===\n(binary file, "@ + text::decimal(content.data.len() as int) + " bytes)"@,
        None => part == "(empty file entry)"@,
    }
}

/// Of files of either kind that were read the model reads all, in order.
pub proof fn any_files_are_shown(result: ToolCallResultView)
    requires
        result.result matches Some(ToolResultView::ReadFiles(read)) && read.result is Some
            && read.result->0 is AnyFilesSuccess,
    ensures
        ({
            let files = result.result->0->ReadFiles_0.result->0->AnyFilesSuccess_0.files;
            exists|parts: Seq<Seq<char>>|
                text::laid_out(render::result_text(result), parts, "\n\n"@) && parts.len()
                    == files.len() && forall|i: int|
                    0 <= i < files.len() ==> shows_any_file(parts[i], #[trigger] files[i])
        }),
{
    let files = result.result->0->ReadFiles_0.result->0->AnyFilesSuccess_0.files;
    let parts = files.map_values(|file: AnyFileContentView| render::any_file_text(file));
    text::join_lays_out(parts, "\n\n"@);
    assert forall|i: int| 0 <= i < files.len() implies shows_any_file(
        parts[i],
        #[trigger] files[i],
    ) by {
        if let Some(AnyFileContentKindView::TextContent(content)) = files[i].content {
            file_is_shown(content);
        }
    }
    assert(text::laid_out(render::result_text(result), parts, "\n\n"@));
}

/// Whether a line shows the matches in a file: its path and the numbers of all matched lines.
pub open spec fn shows_matches(line: Seq<char>, file: GrepFileMatchView) -> bool {
    exists|numbers: Seq<Seq<char>>, listed: Seq<char>|
        #![trigger text::laid_out(listed, numbers, ", "@)]
        line == file.file_path + ": lines "@ + listed && text::laid_out(listed, numbers, ", "@)
            && numbers.len() == file.matched_lines.len() && forall|i: int|
            0 <= i < numbers.len() ==> #[trigger] numbers[i] == text::decimal(
                file.matched_lines[i].line_number as int,
            )
}

/// Of a search of contents the model reads a line for each file with matches, in order, or that
/// there are none.
pub proof fn matches_are_shown(result: ToolCallResultView)
    requires
        result.result matches Some(ToolResultView::Grep(grep)) && grep.result is Some
            && grep.result->0 is Success,
    ensures
        ({
            let files = result.result->0->Grep_0.result->0->Success_0.matched_files;
            if files.len() == 0 {
                render::result_text(result) == "No matches found."@
            } else {
                exists|lines: Seq<Seq<char>>|
                    text::laid_out(render::result_text(result), lines, "\n"@) && lines.len()
                        == files.len() && forall|i: int|
                        0 <= i < files.len() ==> shows_matches(lines[i], #[trigger] files[i])
            }
        }),
{
    let files = result.result->0->Grep_0.result->0->Success_0.matched_files;
    let lines = files.map_values(|file: GrepFileMatchView| render::grep_file_text(file));
    text::join_lays_out(lines, "\n"@);
    assert forall|i: int| 0 <= i < files.len() implies shows_matches(
        lines[i],
        #[trigger] files[i],
    ) by {
        let numbers = files[i].matched_lines.map_values(
            |line: GrepLineMatchView| text::decimal(line.line_number as int),
        );
        text::join_lays_out(numbers, ", "@);
        assert(text::laid_out(text::join(numbers, ", "@), numbers, ", "@));
    }
    if files.len() > 0 {
        assert(text::laid_out(render::result_text(result), lines, "\n"@));
    }
}

/// The names that a search of file names found.
pub open spec fn found_names(success: FileGlobV2SuccessView) -> Seq<Seq<char>> {
    Seq::new(success.matched_files.len(), |i: int| success.matched_files[i].file_path)
}

/// Whether a text shows what was found, or that nothing was, and then the warnings, where there
/// are any.
pub open spec fn shows_found(shown: Seq<char>, found: Seq<char>, warnings: Seq<char>) -> bool {
    let names = if found.len() == 0 {
        "No matches found."@
    } else {
        found
    };
    if warnings.len() == 0 {
        shown == names
    } else {
        shown == names + "\n\nWarnings:\n"@ + warnings
    }
}

/// Of a search of file names the model reads each name on a line of its own, in order, or that
/// there are none, and then the warnings, where there are any.
pub proof fn names_are_shown(result: ToolCallResultView)
    requires
        result.result matches Some(ToolResultView::FileGlobV2(glob)) && glob.result is Some
            && glob.result->0 is Success,
    ensures
        ({
            let success = result.result->0->FileGlobV2_0.result->0->Success_0;
            exists|listed: Seq<char>| #[trigger]
                text::laid_out(listed, found_names(success), "\n"@) && shows_found(
                    render::result_text(result),
                    listed,
                    success.warnings,
                )
        }),
{
    let success = result.result->0->FileGlobV2_0.result->0->Success_0;
    let names = found_names(success);
    assert(names =~= success.matched_files.map_values(|file: FileGlobV2MatchView| file.file_path));
    text::join_lays_out(names, "\n"@);
    assert(text::laid_out(text::join(names, "\n"@), names, "\n"@));
}

/// Whether a part of a result shows an MCP resource: a text with all of its content, and anything
/// else by its size and type.
pub open spec fn shows_resource(part: Seq<char>, content: McpResourceContentView) -> bool {
    match content.content_type {
        Some(McpContentTypeView::Text(body)) => part == "=== "@ + content.uri + " ===\n"@
            + body.content,
        Some(McpContentTypeView::Binary(body)) => part == "=== "@ + content.uri
            + " ===\n(binary content, "@ + text::decimal(body.data.len() as int) + " bytes, "@
            + body.mime_type + ")"@,
        None => part == "=== "@ + content.uri + " ===\n(empty)"@,
    }
}

/// Of MCP resources the model reads all, in order.
pub proof fn resources_are_shown(result: ToolCallResultView)
    requires
        result.result matches Some(ToolResultView::ReadMcpResource(read)) && read.result is Some
            && read.result->0 is Success,
    ensures
        ({
            let contents = result.result->0->ReadMcpResource_0.result->0->Success_0.contents;
            exists|parts: Seq<Seq<char>>|
                text::laid_out(render::result_text(result), parts, "\n\n"@) && parts.len()
                    == contents.len() && forall|i: int|
                    0 <= i < contents.len() ==> shows_resource(parts[i], #[trigger] contents[i])
        }),
{
    let contents = result.result->0->ReadMcpResource_0.result->0->Success_0.contents;
    let parts = contents.map_values(
        |content: McpResourceContentView| render::resource_text(content),
    );
    text::join_lays_out(parts, "\n\n"@);
    assert(text::laid_out(render::result_text(result), parts, "\n\n"@));
}

/// Of an MCP tool's result the model reads all entries, in order: texts as they are.
pub proof fn mcp_entries_are_shown(result: ToolCallResultView)
    requires
        result.result matches Some(ToolResultView::CallMcpTool(call)) && call.result is Some
            && call.result->0 is Success,
    ensures
        ({
            let entries = result.result->0->CallMcpTool_0.result->0->Success_0.results;
            exists|parts: Seq<Seq<char>>|
                text::laid_out(render::result_text(result), parts, "\n"@) && parts.len()
                    == entries.len() && forall|i: int|
                    0 <= i < entries.len() ==> match (#[trigger] entries[i]).result {
                        Some(CallMcpToolContentView::Text(content)) => parts[i] == content.text,
                        Some(CallMcpToolContentView::Other(other)) => parts[i]
                            == "(non-text MCP content: "@ + other.text + ")"@,
                        None => parts[i] == "(empty MCP content)"@,
                    }
        }),
{
    let entries = result.result->0->CallMcpTool_0.result->0->Success_0.results;
    let parts = entries.map_values(|entry: CallMcpToolEntryView| render::mcp_entry_text(entry));
    text::join_lays_out(parts, "\n"@);
    assert(text::laid_out(render::result_text(result), parts, "\n"@));
}

/// Of a shell command the model reads the exit code and the whole output once it is finished, also
/// where the result has them in its older fields; the latest output while it runs; and that it was
/// denied.
pub proof fn shell_result_is_shown(result: ToolCallResultView)
    requires
        result.result matches Some(ToolResultView::RunShellCommand(_)),
    ensures
        ({
            let shell = result.result->0->RunShellCommand_0;
            let shown = render::result_text(result);
            match shell.result {
                Some(RunShellCommandOutcomeView::CommandFinished(finished)) => text::laid_out(
                    shown,
                    seq!["Exit code: "@ + text::decimal(finished.exit_code as int), finished.output],
                    "\n\nOutput:\n"@,
                ),
                Some(RunShellCommandOutcomeView::LongRunningCommandSnapshot(snapshot)) =>
                    text::laid_out(
                    shown,
                    seq!["The command is still running. Latest output snapshot:"@, snapshot.text],
                    "\n"@,
                ),
                Some(RunShellCommandOutcomeView::PermissionDenied(_)) => shown
                    == "The user denied permission to run this command."@,
                None => text::laid_out(
                    shown,
                    seq!["Exit code: "@ + text::decimal(shell.exit_code as int), shell.output],
                    "\n\nOutput:\n"@,
                ),
            }
        }),
{
    let shell = result.result->0->RunShellCommand_0;
    match shell.result {
        Some(RunShellCommandOutcomeView::CommandFinished(finished)) => {
            two_parts(
                "Exit code: "@ + text::decimal(finished.exit_code as int),
                "\n\nOutput:\n"@,
                finished.output,
            );
        },
        Some(RunShellCommandOutcomeView::LongRunningCommandSnapshot(snapshot)) => {
            reveal_strlit("The command is still running. Latest output snapshot:\n");
            reveal_strlit("The command is still running. Latest output snapshot:");
            reveal_strlit("\n");
            assert("The command is still running. Latest output snapshot:\n"@
                =~= "The command is still running. Latest output snapshot:"@ + "\n"@);
            two_parts(
                "The command is still running. Latest output snapshot:"@,
                "\n"@,
                snapshot.text,
            );
        },
        Some(RunShellCommandOutcomeView::PermissionDenied(_)) => {},
        None => {
            two_parts(
                "Exit code: "@ + text::decimal(shell.exit_code as int),
                "\n\nOutput:\n"@,
                shell.output,
            );
        },
    }
}

proof fn two_parts(first: Seq<char>, separator: Seq<char>, second: Seq<char>)
    ensures
        text::laid_out(first + separator + second, seq![first, second], separator),
{
    let parts = seq![first, second];
    text::join_lays_out(parts, separator);
    reveal_with_fuel(text::join_first, 3);
    assert(text::join(parts, separator) == first + separator + second);
}

/// The message of an error, of whichever tool.
pub open spec fn error_in(result: ToolResultView) -> Option<Seq<char>> {
    match result {
        ToolResultView::ReadFiles(read) => match read.result {
            Some(ReadFilesOutcomeView::Error(error)) => Some(error.message),
            _ => None,
        },
        ToolResultView::ApplyFileDiffs(apply) => match apply.result {
            Some(ApplyFileDiffsOutcomeView::Error(error)) => Some(error.message),
            _ => None,
        },
        ToolResultView::Grep(grep) => match grep.result {
            Some(GrepOutcomeView::Error(error)) => Some(error.message),
            _ => None,
        },
        ToolResultView::FileGlob(glob) => match glob.result {
            Some(FileGlobOutcomeView::Error(error)) => Some(error.message),
            _ => None,
        },
        ToolResultView::FileGlobV2(glob) => match glob.result {
            Some(FileGlobV2OutcomeView::Error(error)) => Some(error.message),
            _ => None,
        },
        ToolResultView::ReadMcpResource(read) => match read.result {
            Some(ReadMcpResourceOutcomeView::Error(error)) => Some(error.message),
            _ => None,
        },
        ToolResultView::CallMcpTool(call) => match call.result {
            Some(CallMcpToolOutcomeView::Error(error)) => Some(error.message),
            _ => None,
        },
        _ => None,
    }
}

/// Of an error the model reads that it is one, and its whole message, whichever tool it comes from.
pub proof fn every_error_is_shown(result: ToolCallResultView)
    requires
        result.result is Some,
        error_in(result.result->0) is Some,
    ensures
        render::result_text(result) == "Error: "@ + error_in(result.result->0)->0,
{
}

/// What is left: the older search of file names is shown as it is, or as having found nothing; a
/// result that is not there is shown as such; and so is a call that the user canceled.
pub proof fn plain_results_are_shown(result: ToolCallResultView)
    ensures
        result.result is None ==> render::result_text(result) == "(no result)"@,
        result.result matches Some(ToolResultView::Cancel) ==> render::result_text(result)
            == "The user canceled this tool call."@,
        result.result matches Some(ToolResultView::Other(other)) ==> render::result_text(result)
            == other.text,
        result.result matches Some(ToolResultView::FileGlob(glob)) ==> match glob.result {
            Some(FileGlobOutcomeView::Success(success)) => render::result_text(result) == (
            if success.matched_files.len() == 0 {
                "No matches found."@
            } else {
                success.matched_files
            }),
            Some(FileGlobOutcomeView::Error(_)) => true,
            None => render::result_text(result) == "(no result)"@,
        },
        result.result matches Some(ToolResultView::ReadFiles(read)) && read.result is None
            ==> render::result_text(result) == "(no result)"@,
        result.result matches Some(ToolResultView::ApplyFileDiffs(apply)) && apply.result is None
            ==> render::result_text(result) == "(no result)"@,
        result.result matches Some(ToolResultView::Grep(grep)) && grep.result is None
            ==> render::result_text(result) == "(no result)"@,
        result.result matches Some(ToolResultView::FileGlobV2(glob)) && glob.result is None
            ==> render::result_text(result) == "(no result)"@,
        result.result matches Some(ToolResultView::ReadMcpResource(read)) && read.result is None
            ==> render::result_text(result) == "(no result)"@,
        result.result matches Some(ToolResultView::CallMcpTool(call)) && call.result is None
            ==> render::result_text(result) == "(no result)"@,
{
}

} // verus!

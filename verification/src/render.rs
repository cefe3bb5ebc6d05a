//! Tool results as the plain text that the model reads.

use vstd::prelude::*;

use crate::api::context::{
    AnyFileContent, AnyFileContentKind, AnyFileContentKindView, AnyFileContentView, FileContent,
    FileContentView,
};
use crate::api::result::{
    ApplyFileDiffsOutcome, ApplyFileDiffsOutcomeView, ApplyFileDiffsSuccess,
    ApplyFileDiffsSuccessView, CallMcpToolContent, CallMcpToolContentView, CallMcpToolEntry,
    CallMcpToolEntryView, CallMcpToolOutcome, CallMcpToolOutcomeView, DeletedFileView,
    FileGlobOutcome, FileGlobOutcomeView, FileGlobV2MatchView, FileGlobV2Outcome,
    FileGlobV2OutcomeView, FileGlobV2Success, FileGlobV2SuccessView, GrepFileMatch,
    GrepFileMatchView, GrepLineMatchView, GrepOutcome, GrepOutcomeView, McpContentType,
    McpContentTypeView, McpResourceContent, McpResourceContentView, ReadFilesOutcome,
    ReadFilesOutcomeView, ReadMcpResourceOutcome, ReadMcpResourceOutcomeView,
    RunShellCommandOutcome, RunShellCommandOutcomeView, RunShellCommandResult,
    RunShellCommandResultView, ToolCallResult, ToolCallResultView, ToolResult, ToolResultView,
    UpdatedFileView,
};
use crate::text;

verus! {

/// What stands for a result that is absent.
pub open spec fn no_result() -> Seq<char> {
    "(no result)"@
}

/// How an error is shown.
pub open spec fn error_line(message: Seq<char>) -> Seq<char> {
    "Error: "@ + message
}

fn make_error_line(message: &str) -> (line: String)
    ensures
        line@ == error_line(message@),
{
    let mut line = "Error: ".to_string();
    line.append(message);
    line
}

/// How the end of a command is shown.
pub open spec fn finished_command(exit_code: i32, output: Seq<char>) -> Seq<char> {
    "Exit code: "@ + text::decimal(exit_code as int) + "\n\nOutput:\n"@ + output
}

fn make_finished_command(exit_code: i32, output: &str) -> (shown: String)
    ensures
        shown@ == finished_command(exit_code, output@),
{
    let mut shown = "Exit code: ".to_string();
    shown.append(text::signed_text(exit_code).as_str());
    shown.append("\n\nOutput:\n");
    shown.append(output);
    shown
}

/// How the result of a shell command is shown.
pub open spec fn shell_text(shell: RunShellCommandResultView) -> Seq<char> {
    match shell.result {
        Some(RunShellCommandOutcomeView::CommandFinished(finished)) => finished_command(
            finished.exit_code,
            finished.output,
        ),
        Some(RunShellCommandOutcomeView::PermissionDenied(_)) =>
            "The user denied permission to run this command."@,
        Some(RunShellCommandOutcomeView::LongRunningCommandSnapshot(snapshot)) =>
            "The command is still running. Latest output snapshot:\n"@ + snapshot.text,
        None => finished_command(shell.exit_code, shell.output),
    }
}

/// Renders the result of a shell command.
pub fn render_shell_result(shell: &RunShellCommandResult) -> (shown: String)
    ensures
        shown@ == shell_text(shell.deep_view()),
{
    match &shell.result {
        Some(RunShellCommandOutcome::CommandFinished(finished)) => make_finished_command(
            finished.exit_code,
            finished.output.as_str(),
        ),
        Some(RunShellCommandOutcome::PermissionDenied(_)) =>
            "The user denied permission to run this command.".to_string(),
        Some(RunShellCommandOutcome::LongRunningCommandSnapshot(snapshot)) => {
            let mut shown = "The command is still running. Latest output snapshot:\n".to_string();
            shown.append(snapshot.text.as_str());
            shown
        },
        None => make_finished_command(shell.exit_code, shell.output.as_str()),
    }
}

/// How the content of a file is shown.
pub open spec fn file_text(file: FileContentView) -> Seq<char> {
    match file.line_range {
        Some(range) => "=== "@ + file.file_path + " (lines "@ + text::decimal(range.start as int)
            + "-"@ + text::decimal(range.end as int) + ") ===\n"@ + file.content,
        None => "=== "@ + file.file_path + " ===\n"@ + file.content,
    }
}

/// Renders the content of a file.
pub fn render_file_content(content: &FileContent) -> (shown: String)
    ensures
        shown@ == file_text(content.deep_view()),
{
    let mut shown = "=== ".to_string();
    shown.append(content.file_path.as_str());
    match &content.line_range {
        Some(range) => {
            shown.append(" (lines ");
            shown.append(text::unsigned_text(range.start as u64).as_str());
            shown.append("-");
            shown.append(text::unsigned_text(range.end as u64).as_str());
            shown.append(") ===\n");
        },
        None => {
            shown.append(" ===\n");
        },
    }
    shown.append(content.content.as_str());
    shown
}

/// How a file of either kind is shown.
pub open spec fn any_file_text(file: AnyFileContentView) -> Seq<char> {
    match file.content {
        Some(AnyFileContentKindView::TextContent(content)) => file_text(content),
        Some(AnyFileContentKindView::BinaryContent(content)) => "=== "@ + content.file_path
            + " ===\n(binary file, "@ + text::decimal(content.data.len() as int) + " bytes)"@,
        None => "(empty file entry)"@,
    }
}

fn render_any_file(file: &AnyFileContent) -> (shown: String)
    ensures
        shown@ == any_file_text(file.deep_view()),
{
    match &file.content {
        Some(AnyFileContentKind::TextContent(content)) => render_file_content(content),
        Some(AnyFileContentKind::BinaryContent(content)) => {
            let mut shown = "=== ".to_string();
            shown.append(content.file_path.as_str());
            shown.append(" ===\n(binary file, ");
            shown.append(text::unsigned_text(content.data.len() as u64).as_str());
            shown.append(" bytes)");
            shown
        },
        None => "(empty file entry)".to_string(),
    }
}

/// How the files of a `read_files` call are shown.
pub open spec fn read_files_text(outcome: Option<ReadFilesOutcomeView>) -> Seq<char> {
    match outcome {
        Some(ReadFilesOutcomeView::TextFilesSuccess(success)) => text::join(
            success.files.map_values(|file: FileContentView| file_text(file)),
            "\n\n"@,
        ),
        Some(ReadFilesOutcomeView::AnyFilesSuccess(success)) => text::join(
            success.files.map_values(|file: AnyFileContentView| any_file_text(file)),
            "\n\n"@,
        ),
        Some(ReadFilesOutcomeView::Error(error)) => error_line(error.message),
        None => no_result(),
    }
}

fn render_read_files(outcome: &Option<ReadFilesOutcome>) -> (shown: String)
    ensures
        shown@ == read_files_text(outcome.deep_view()),
{
    match outcome {
        Some(ReadFilesOutcome::TextFilesSuccess(success)) => {
            let mut parts: Vec<String> = Vec::new();
            for i in 0..success.files.len()
                invariant
                    parts@.len() == i,
                    forall|k: int|
                        0 <= k < i ==> (#[trigger] parts@[k])@ == file_text(
                            success.files@[k].deep_view(),
                        ),
            {
                parts.push(render_file_content(&success.files[i]));
            }
            assert(parts.deep_view() =~= success.files.deep_view().map_values(
                |file: FileContentView| file_text(file),
            ));
            text::joined(&parts, "\n\n")
        },
        Some(ReadFilesOutcome::AnyFilesSuccess(success)) => {
            let mut parts: Vec<String> = Vec::new();
            for i in 0..success.files.len()
                invariant
                    parts@.len() == i,
                    forall|k: int|
                        0 <= k < i ==> (#[trigger] parts@[k])@ == any_file_text(
                            success.files@[k].deep_view(),
                        ),
            {
                parts.push(render_any_file(&success.files[i]));
            }
            assert(parts.deep_view() =~= success.files.deep_view().map_values(
                |file: AnyFileContentView| any_file_text(file),
            ));
            text::joined(&parts, "\n\n")
        },
        Some(ReadFilesOutcome::Error(error)) => make_error_line(error.message.as_str()),
        None => "(no result)".to_string(),
    }
}

/// The lines for the first `count` updated files, one for each that is there.
pub open spec fn updated_lines(files: Seq<UpdatedFileView>, count: nat) -> Seq<Seq<char>>
    decreases count,
{
    if count == 0 {
        Seq::empty()
    } else {
        let before = updated_lines(files, (count - 1) as nat);
        match files[count - 1].file {
            Some(file) => before.push("Updated: "@ + file.file_path),
            None => before,
        }
    }
}

/// How the edits that were applied are shown.
pub open spec fn applied_text(success: ApplyFileDiffsSuccessView) -> Seq<char> {
    text::join(
        seq!["Edits applied successfully."@] + updated_lines(
            success.updated_files_v2,
            success.updated_files_v2.len(),
        ) + success.deleted_files.map_values(
            |file: DeletedFileView| "Deleted: "@ + file.file_path,
        ),
        "\n"@,
    )
}

fn render_applied(success: &ApplyFileDiffsSuccess) -> (shown: String)
    ensures
        shown@ == applied_text(success.deep_view()),
{
    let mut lines: Vec<String> = vec!["Edits applied successfully.".to_string()];
    assert(lines.deep_view() =~= seq!["Edits applied successfully."@] + updated_lines(
        success.deep_view().updated_files_v2,
        0,
    ));
    for i in 0..success.updated_files_v2.len()
        invariant
            lines.deep_view() == seq!["Edits applied successfully."@] + updated_lines(
                success.deep_view().updated_files_v2,
                i as nat,
            ),
    {
        let ghost before = lines.deep_view();
        assert(success.deep_view().updated_files_v2[i as int]
            == success.updated_files_v2@[i as int].deep_view());
        if let Some(file) = &success.updated_files_v2[i].file {
            let mut line = "Updated: ".to_string();
            line.append(file.file_path.as_str());
            lines.push(line);
            assert(lines.deep_view() =~= before.push("Updated: "@ + file.file_path@));
        }
        assert(lines.deep_view() =~= seq!["Edits applied successfully."@] + updated_lines(
            success.deep_view().updated_files_v2,
            (i + 1) as nat,
        ));
    }
    let ghost updated = lines.deep_view();
    for i in 0..success.deleted_files.len()
        invariant
            lines.deep_view() == updated + success.deep_view().deleted_files.map_values(
                |file: DeletedFileView| "Deleted: "@ + file.file_path,
            ).take(i as int),
    {
        let ghost before = lines.deep_view();
        let ghost deleted = success.deep_view().deleted_files.map_values(
            |file: DeletedFileView| "Deleted: "@ + file.file_path,
        );
        let mut line = "Deleted: ".to_string();
        line.append(success.deleted_files[i].file_path.as_str());
        lines.push(line);
        assert(lines.deep_view() =~= before.push(deleted[i as int]));
        assert(deleted.take(i + 1) =~= deleted.take(i as int).push(deleted[i as int]));
    }
    assert(lines.deep_view() =~= seq!["Edits applied successfully."@] + updated_lines(
        success.deep_view().updated_files_v2,
        success.deep_view().updated_files_v2.len(),
    ) + success.deep_view().deleted_files.map_values(
        |file: DeletedFileView| "Deleted: "@ + file.file_path,
    ));
    text::joined(&lines, "\n")
}

/// How the outcome of an `edit_files` call is shown.
pub open spec fn edits_text(outcome: Option<ApplyFileDiffsOutcomeView>) -> Seq<char> {
    match outcome {
        Some(ApplyFileDiffsOutcomeView::Success(success)) => applied_text(success),
        Some(ApplyFileDiffsOutcomeView::Error(error)) => error_line(error.message),
        None => no_result(),
    }
}

/// What stands for a search that found nothing.
pub open spec fn no_matches() -> Seq<char> {
    "No matches found."@
}

/// How the matches in a file are shown.
pub open spec fn grep_file_text(file: GrepFileMatchView) -> Seq<char> {
    file.file_path + ": lines "@ + text::join(
        file.matched_lines.map_values(
            |line: GrepLineMatchView| text::decimal(line.line_number as int),
        ),
        ", "@,
    )
}

fn render_grep_file(file: &GrepFileMatch) -> (shown: String)
    ensures
        shown@ == grep_file_text(file.deep_view()),
{
    let mut numbers: Vec<String> = Vec::new();
    for i in 0..file.matched_lines.len()
        invariant
            numbers@.len() == i,
            forall|k: int|
                0 <= k < i ==> (#[trigger] numbers@[k])@ == text::decimal(
                    file.matched_lines@[k].line_number as int,
                ),
    {
        numbers.push(text::unsigned_text(file.matched_lines[i].line_number as u64));
    }
    assert(numbers.deep_view() =~= file.deep_view().matched_lines.map_values(
        |line: GrepLineMatchView| text::decimal(line.line_number as int),
    ));
    let mut shown = file.file_path.clone();
    shown.append(": lines ");
    shown.append(text::joined(&numbers, ", ").as_str());
    shown
}

/// How the outcome of a `grep` call is shown.
pub open spec fn grep_text(outcome: Option<GrepOutcomeView>) -> Seq<char> {
    match outcome {
        Some(GrepOutcomeView::Success(success)) => if success.matched_files.len() == 0 {
            no_matches()
        } else {
            text::join(
                success.matched_files.map_values(|file: GrepFileMatchView| grep_file_text(file)),
                "\n"@,
            )
        },
        Some(GrepOutcomeView::Error(error)) => error_line(error.message),
        None => no_result(),
    }
}

fn render_grep(outcome: &Option<GrepOutcome>) -> (shown: String)
    ensures
        shown@ == grep_text(outcome.deep_view()),
{
    match outcome {
        Some(GrepOutcome::Success(success)) => {
            if success.matched_files.len() == 0 {
                return "No matches found.".to_string();
            }
            let mut parts: Vec<String> = Vec::new();
            for i in 0..success.matched_files.len()
                invariant
                    parts@.len() == i,
                    forall|k: int|
                        0 <= k < i ==> (#[trigger] parts@[k])@ == grep_file_text(
                            success.matched_files@[k].deep_view(),
                        ),
            {
                parts.push(render_grep_file(&success.matched_files[i]));
            }
            assert(parts.deep_view() =~= success.matched_files.deep_view().map_values(
                |file: GrepFileMatchView| grep_file_text(file),
            ));
            text::joined(&parts, "\n")
        },
        Some(GrepOutcome::Error(error)) => make_error_line(error.message.as_str()),
        None => "(no result)".to_string(),
    }
}

/// How the outcome of a search by the superseded file search is shown.
pub open spec fn glob_text(outcome: Option<FileGlobOutcomeView>) -> Seq<char> {
    match outcome {
        Some(FileGlobOutcomeView::Success(success)) => if success.matched_files.len() == 0 {
            no_matches()
        } else {
            success.matched_files
        },
        Some(FileGlobOutcomeView::Error(error)) => error_line(error.message),
        None => no_result(),
    }
}

fn render_glob(outcome: &Option<FileGlobOutcome>) -> (shown: String)
    ensures
        shown@ == glob_text(outcome.deep_view()),
{
    match outcome {
        Some(FileGlobOutcome::Success(success)) => if text::is_empty_text(
            success.matched_files.as_str(),
        ) {
            "No matches found.".to_string()
        } else {
            success.matched_files.clone()
        },
        Some(FileGlobOutcome::Error(error)) => make_error_line(error.message.as_str()),
        None => "(no result)".to_string(),
    }
}

/// How the matches of a `file_glob` call are shown.
pub open spec fn matched_text(success: FileGlobV2SuccessView) -> Seq<char> {
    let names = text::join(
        success.matched_files.map_values(|file: FileGlobV2MatchView| file.file_path),
        "\n"@,
    );
    let found = if names.len() == 0 {
        no_matches()
    } else {
        names
    };
    if success.warnings.len() == 0 {
        found
    } else {
        found + "\n\nWarnings:\n"@ + success.warnings
    }
}

fn render_matched(success: &FileGlobV2Success) -> (shown: String)
    ensures
        shown@ == matched_text(success.deep_view()),
{
    let mut names: Vec<String> = Vec::new();
    for i in 0..success.matched_files.len()
        invariant
            names@.len() == i,
            forall|k: int|
                0 <= k < i ==> (#[trigger] names@[k])@ == success.matched_files@[k].file_path@,
    {
        names.push(success.matched_files[i].file_path.clone());
    }
    assert(names.deep_view() =~= success.matched_files.deep_view().map_values(
        |file: FileGlobV2MatchView| file.file_path,
    ));
    let mut shown = text::joined(&names, "\n");
    if text::is_empty_text(shown.as_str()) {
        shown = "No matches found.".to_string();
    }
    if !text::is_empty_text(success.warnings.as_str()) {
        shown.append("\n\nWarnings:\n");
        shown.append(success.warnings.as_str());
    }
    shown
}

/// How the outcome of a `file_glob` call is shown.
pub open spec fn glob_v2_text(outcome: Option<FileGlobV2OutcomeView>) -> Seq<char> {
    match outcome {
        Some(FileGlobV2OutcomeView::Success(success)) => matched_text(success),
        Some(FileGlobV2OutcomeView::Error(error)) => error_line(error.message),
        None => no_result(),
    }
}

/// How the content of an MCP resource is shown.
pub open spec fn resource_text(content: McpResourceContentView) -> Seq<char> {
    match content.content_type {
        Some(McpContentTypeView::Text(body)) => "=== "@ + content.uri + " ===\n"@ + body.content,
        Some(McpContentTypeView::Binary(body)) => "=== "@ + content.uri
            + " ===\n(binary content, "@ + text::decimal(body.data.len() as int) + " bytes, "@
            + body.mime_type + ")"@,
        None => "=== "@ + content.uri + " ===\n(empty)"@,
    }
}

fn render_resource(content: &McpResourceContent) -> (shown: String)
    ensures
        shown@ == resource_text(content.deep_view()),
{
    let mut shown = "=== ".to_string();
    shown.append(content.uri.as_str());
    match &content.content_type {
        Some(McpContentType::Text(body)) => {
            shown.append(" ===\n");
            shown.append(body.content.as_str());
        },
        Some(McpContentType::Binary(body)) => {
            shown.append(" ===\n(binary content, ");
            shown.append(text::unsigned_text(body.data.len() as u64).as_str());
            shown.append(" bytes, ");
            shown.append(body.mime_type.as_str());
            shown.append(")");
        },
        None => {
            shown.append(" ===\n(empty)");
        },
    }
    shown
}

/// How the outcome of a `read_mcp_resource` call is shown.
pub open spec fn resources_text(outcome: Option<ReadMcpResourceOutcomeView>) -> Seq<char> {
    match outcome {
        Some(ReadMcpResourceOutcomeView::Success(success)) => text::join(
            success.contents.map_values(|content: McpResourceContentView| resource_text(content)),
            "\n\n"@,
        ),
        Some(ReadMcpResourceOutcomeView::Error(error)) => error_line(error.message),
        None => no_result(),
    }
}

fn render_resources(outcome: &Option<ReadMcpResourceOutcome>) -> (shown: String)
    ensures
        shown@ == resources_text(outcome.deep_view()),
{
    match outcome {
        Some(ReadMcpResourceOutcome::Success(success)) => {
            let mut parts: Vec<String> = Vec::new();
            for i in 0..success.contents.len()
                invariant
                    parts@.len() == i,
                    forall|k: int|
                        0 <= k < i ==> (#[trigger] parts@[k])@ == resource_text(
                            success.contents@[k].deep_view(),
                        ),
            {
                parts.push(render_resource(&success.contents[i]));
            }
            assert(parts.deep_view() =~= success.contents.deep_view().map_values(
                |content: McpResourceContentView| resource_text(content),
            ));
            text::joined(&parts, "\n\n")
        },
        Some(ReadMcpResourceOutcome::Error(error)) => make_error_line(error.message.as_str()),
        None => "(no result)".to_string(),
    }
}

/// How one entry of an MCP tool's result is shown.
pub open spec fn mcp_entry_text(entry: CallMcpToolEntryView) -> Seq<char> {
    match entry.result {
        Some(CallMcpToolContentView::Text(content)) => content.text,
        Some(CallMcpToolContentView::Other(other)) => "(non-text MCP content: "@ + other.text
            + ")"@,
        None => "(empty MCP content)"@,
    }
}

fn render_mcp_entry(entry: &CallMcpToolEntry) -> (shown: String)
    ensures
        shown@ == mcp_entry_text(entry.deep_view()),
{
    match &entry.result {
        Some(CallMcpToolContent::Text(content)) => content.text.clone(),
        Some(CallMcpToolContent::Other(other)) => {
            let mut shown = "(non-text MCP content: ".to_string();
            shown.append(other.text.as_str());
            shown.append(")");
            shown
        },
        None => "(empty MCP content)".to_string(),
    }
}

/// How the outcome of an MCP tool's call is shown.
pub open spec fn mcp_text(outcome: Option<CallMcpToolOutcomeView>) -> Seq<char> {
    match outcome {
        Some(CallMcpToolOutcomeView::Success(success)) => text::join(
            success.results.map_values(|entry: CallMcpToolEntryView| mcp_entry_text(entry)),
            "\n"@,
        ),
        Some(CallMcpToolOutcomeView::Error(error)) => error_line(error.message),
        None => no_result(),
    }
}

fn render_mcp(outcome: &Option<CallMcpToolOutcome>) -> (shown: String)
    ensures
        shown@ == mcp_text(outcome.deep_view()),
{
    match outcome {
        Some(CallMcpToolOutcome::Success(success)) => {
            let mut parts: Vec<String> = Vec::new();
            for i in 0..success.results.len()
                invariant
                    parts@.len() == i,
                    forall|k: int|
                        0 <= k < i ==> (#[trigger] parts@[k])@ == mcp_entry_text(
                            success.results@[k].deep_view(),
                        ),
            {
                parts.push(render_mcp_entry(&success.results[i]));
            }
            assert(parts.deep_view() =~= success.results.deep_view().map_values(
                |entry: CallMcpToolEntryView| mcp_entry_text(entry),
            ));
            text::joined(&parts, "\n")
        },
        Some(CallMcpToolOutcome::Error(error)) => make_error_line(error.message.as_str()),
        None => "(no result)".to_string(),
    }
}

/// The plain text of a tool call's result.
pub open spec fn result_text(result: ToolCallResultView) -> Seq<char> {
    match result.result {
        None => no_result(),
        Some(ToolResultView::RunShellCommand(shell)) => shell_text(shell),
        Some(ToolResultView::ReadFiles(read)) => read_files_text(read.result),
        Some(ToolResultView::ApplyFileDiffs(apply)) => edits_text(apply.result),
        Some(ToolResultView::Grep(grep)) => grep_text(grep.result),
        Some(ToolResultView::FileGlob(glob)) => glob_text(glob.result),
        Some(ToolResultView::FileGlobV2(glob)) => glob_v2_text(glob.result),
        Some(ToolResultView::ReadMcpResource(read)) => resources_text(read.result),
        Some(ToolResultView::CallMcpTool(call)) => mcp_text(call.result),
        Some(ToolResultView::Cancel) => "The user canceled this tool call."@,
        Some(ToolResultView::Other(other)) => other.text,
    }
}

/// Renders a tool call's result into the content of a tool message.
pub fn render_tool_result_text(result: &ToolCallResult) -> (shown: String)
    ensures
        shown@ == result_text(result.deep_view()),
{
    match &result.result {
        None => "(no result)".to_string(),
        Some(ToolResult::RunShellCommand(shell)) => render_shell_result(shell),
        Some(ToolResult::ReadFiles(read)) => render_read_files(&read.result),
        Some(ToolResult::ApplyFileDiffs(apply)) => match &apply.result {
            Some(ApplyFileDiffsOutcome::Success(success)) => render_applied(success),
            Some(ApplyFileDiffsOutcome::Error(error)) => make_error_line(error.message.as_str()),
            None => "(no result)".to_string(),
        },
        Some(ToolResult::Grep(grep)) => render_grep(&grep.result),
        Some(ToolResult::FileGlob(glob)) => render_glob(&glob.result),
        Some(ToolResult::FileGlobV2(glob)) => match &glob.result {
            Some(FileGlobV2Outcome::Success(success)) => render_matched(success),
            Some(FileGlobV2Outcome::Error(error)) => make_error_line(error.message.as_str()),
            None => "(no result)".to_string(),
        },
        Some(ToolResult::ReadMcpResource(read)) => render_resources(&read.result),
        Some(ToolResult::CallMcpTool(call)) => render_mcp(&call.result),
        Some(ToolResult::Cancel) => "The user canceled this tool call.".to_string(),
        Some(ToolResult::Other(other)) => other.text.clone(),
    }
}

/// The model reads the output of a finished command, and its exit code, in full.
pub proof fn finished_command_is_shown(exit_code: i32, output: Seq<char>)
    ensures
        text::ends_with(finished_command(exit_code, output), output),
        text::occurs_in(
            finished_command(exit_code, output),
            "Exit code: "@ + text::decimal(exit_code as int),
        ),
{
    let head = "Exit code: "@ + text::decimal(exit_code as int);
    let shown = finished_command(exit_code, output);
    assert(shown.subrange(shown.len() - output.len(), shown.len() as int) =~= output);
    text::part_of_middle(Seq::empty(), head, "\n\nOutput:\n"@ + output);
    assert(Seq::<char>::empty() + head + ("\n\nOutput:\n"@ + output) =~= shown);
}

/// The model reads the message of an error in full.
pub proof fn error_is_shown(message: Seq<char>)
    ensures
        text::ends_with(error_line(message), message),
{
    let shown = error_line(message);
    assert(shown.subrange(shown.len() - message.len(), shown.len() as int) =~= message);
}

} // verus!

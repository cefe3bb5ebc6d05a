//! Tool calls as the task tree keeps them.

use vstd::prelude::*;

use crate::api::context::{FileContentLineRange, FileContentLineRangeView, Opaque, OpaqueView};
use crate::api::value::{Struct, StructView};

verus! {

/// Whether a command is waited for.
#[derive(Debug, PartialEq)]
pub enum WaitUntilCompleteValue {
    WaitUntilComplete(bool),
}

#[verifier::ext_equal]
pub enum WaitUntilCompleteValueView {
    WaitUntilComplete(bool),
}

impl DeepView for WaitUntilCompleteValue {
    type V = WaitUntilCompleteValueView;

    open spec fn deep_view(&self) -> WaitUntilCompleteValueView {
        match self {
            WaitUntilCompleteValue::WaitUntilComplete(value) => WaitUntilCompleteValueView::WaitUntilComplete(
                *value,
            ),
        }
    }
}

impl Clone for WaitUntilCompleteValue {
    fn clone(&self) -> (copy: Self)
        ensures
            copy.deep_view() == self.deep_view(),
    {
        match self {
            WaitUntilCompleteValue::WaitUntilComplete(value) => WaitUntilCompleteValue::WaitUntilComplete(
                *value,
            ),
        }
    }
}

/// Runs a command in the terminal.
#[derive(Debug, PartialEq, Default)]
pub struct RunShellCommand {
    pub command: String,
    pub is_read_only: bool,
    pub is_risky: bool,
    pub wait_until_complete_value: Option<WaitUntilCompleteValue>,
    pub rest: Opaque,
}

#[verifier::ext_equal]
pub struct RunShellCommandView {
    pub command: Seq<char>,
    pub is_read_only: bool,
    pub is_risky: bool,
    pub wait_until_complete_value: Option<WaitUntilCompleteValueView>,
    pub rest: OpaqueView,
}

impl DeepView for RunShellCommand {
    type V = RunShellCommandView;

    open spec fn deep_view(&self) -> RunShellCommandView {
        RunShellCommandView {
            command: self.command@,
            is_read_only: self.is_read_only,
            is_risky: self.is_risky,
            wait_until_complete_value: self.wait_until_complete_value.deep_view(),
            rest: self.rest.deep_view(),
        }
    }
}

impl Clone for RunShellCommand {
    fn clone(&self) -> (copy: Self)
        ensures
            copy.deep_view() == self.deep_view(),
    {
        RunShellCommand {
            command: self.command.clone(),
            is_read_only: self.is_read_only,
            is_risky: self.is_risky,
            wait_until_complete_value: self.wait_until_complete_value.clone(),
            rest: self.rest.clone(),
        }
    }
}

/// A file to read, whole or in ranges of lines.
#[derive(Debug, PartialEq, Default)]
pub struct ReadFile {
    pub name: String,
    pub line_ranges: Vec<FileContentLineRange>,
}

#[verifier::ext_equal]
pub struct ReadFileView {
    pub name: Seq<char>,
    pub line_ranges: Seq<FileContentLineRangeView>,
}

impl DeepView for ReadFile {
    type V = ReadFileView;

    open spec fn deep_view(&self) -> ReadFileView {
        ReadFileView {
            name: self.name@,
            line_ranges: self.line_ranges.deep_view(),
        }
    }
}

impl Clone for ReadFile {
    fn clone(&self) -> (copy: Self)
        ensures
            copy.deep_view() == self.deep_view(),
    {
        let copy = ReadFile {
            name: self.name.clone(),
            line_ranges: self.line_ranges.clone(),
        };
        assert(copy.line_ranges.deep_view() =~= self.line_ranges.deep_view());
        copy
    }
}

/// Reads files.
#[derive(Debug, PartialEq, Default)]
pub struct ReadFiles {
    pub files: Vec<ReadFile>,
}

#[verifier::ext_equal]
pub struct ReadFilesView {
    pub files: Seq<ReadFileView>,
}

impl DeepView for ReadFiles {
    type V = ReadFilesView;

    open spec fn deep_view(&self) -> ReadFilesView {
        ReadFilesView {
            files: self.files.deep_view(),
        }
    }
}

impl Clone for ReadFiles {
    fn clone(&self) -> (copy: Self)
        ensures
            copy.deep_view() == self.deep_view(),
    {
        let copy = ReadFiles {
            files: self.files.clone(),
        };
        assert(copy.files.deep_view() =~= self.files.deep_view());
        copy
    }
}

/// Replaces one text in a file by another.
#[derive(Debug, PartialEq, Default)]
pub struct FileDiff {
    pub file_path: String,
    pub search: String,
    pub replace: String,
}

#[verifier::ext_equal]
pub struct FileDiffView {
    pub file_path: Seq<char>,
    pub search: Seq<char>,
    pub replace: Seq<char>,
}

impl DeepView for FileDiff {
    type V = FileDiffView;

    open spec fn deep_view(&self) -> FileDiffView {
        FileDiffView {
            file_path: self.file_path@,
            search: self.search@,
            replace: self.replace@,
        }
    }
}

impl Clone for FileDiff {
    fn clone(&self) -> (copy: Self)
        ensures
            copy.deep_view() == self.deep_view(),
    {
        FileDiff {
            file_path: self.file_path.clone(),
            search: self.search.clone(),
            replace: self.replace.clone(),
        }
    }
}

/// Creates a file.
#[derive(Debug, PartialEq, Default)]
pub struct NewFile {
    pub file_path: String,
    pub content: String,
    pub allow_overwrite: bool,
}

#[verifier::ext_equal]
pub struct NewFileView {
    pub file_path: Seq<char>,
    pub content: Seq<char>,
    pub allow_overwrite: bool,
}

impl DeepView for NewFile {
    type V = NewFileView;

    open spec fn deep_view(&self) -> NewFileView {
        NewFileView {
            file_path: self.file_path@,
            content: self.content@,
            allow_overwrite: self.allow_overwrite,
        }
    }
}

impl Clone for NewFile {
    fn clone(&self) -> (copy: Self)
        ensures
            copy.deep_view() == self.deep_view(),
    {
        NewFile {
            file_path: self.file_path.clone(),
            content: self.content.clone(),
            allow_overwrite: self.allow_overwrite,
        }
    }
}

/// Deletes a file.
#[derive(Debug, PartialEq, Default)]
pub struct DeleteFile {
    pub file_path: String,
}

#[verifier::ext_equal]
pub struct DeleteFileView {
    pub file_path: Seq<char>,
}

impl DeepView for DeleteFile {
    type V = DeleteFileView;

    open spec fn deep_view(&self) -> DeleteFileView {
        DeleteFileView {
            file_path: self.file_path@,
        }
    }
}

impl Clone for DeleteFile {
    fn clone(&self) -> (copy: Self)
        ensures
            copy.deep_view() == self.deep_view(),
    {
        DeleteFile {
            file_path: self.file_path.clone(),
        }
    }
}

/// Edits, creates and deletes files.
#[derive(Debug, PartialEq, Default)]
pub struct ApplyFileDiffs {
    pub summary: String,
    pub diffs: Vec<FileDiff>,
    pub new_files: Vec<NewFile>,
    pub deleted_files: Vec<DeleteFile>,
    pub rest: Opaque,
}

#[verifier::ext_equal]
pub struct ApplyFileDiffsView {
    pub summary: Seq<char>,
    pub diffs: Seq<FileDiffView>,
    pub new_files: Seq<NewFileView>,
    pub deleted_files: Seq<DeleteFileView>,
    pub rest: OpaqueView,
}

impl DeepView for ApplyFileDiffs {
    type V = ApplyFileDiffsView;

    open spec fn deep_view(&self) -> ApplyFileDiffsView {
        ApplyFileDiffsView {
            summary: self.summary@,
            diffs: self.diffs.deep_view(),
            new_files: self.new_files.deep_view(),
            deleted_files: self.deleted_files.deep_view(),
            rest: self.rest.deep_view(),
        }
    }
}

impl Clone for ApplyFileDiffs {
    fn clone(&self) -> (copy: Self)
        ensures
            copy.deep_view() == self.deep_view(),
    {
        let copy = ApplyFileDiffs {
            summary: self.summary.clone(),
            diffs: self.diffs.clone(),
            new_files: self.new_files.clone(),
            deleted_files: self.deleted_files.clone(),
            rest: self.rest.clone(),
        };
        assert(copy.diffs.deep_view() =~= self.diffs.deep_view());
        assert(copy.new_files.deep_view() =~= self.new_files.deep_view());
        assert(copy.deleted_files.deep_view() =~= self.deleted_files.deep_view());
        copy
    }
}

/// Searches file contents.
#[derive(Debug, PartialEq, Default)]
pub struct Grep {
    pub queries: Vec<String>,
    pub path: String,
}

#[verifier::ext_equal]
pub struct GrepView {
    pub queries: Seq<Seq<char>>,
    pub path: Seq<char>,
}

impl DeepView for Grep {
    type V = GrepView;

    open spec fn deep_view(&self) -> GrepView {
        GrepView {
            queries: self.queries.deep_view(),
            path: self.path@,
        }
    }
}

impl Clone for Grep {
    fn clone(&self) -> (copy: Self)
        ensures
            copy.deep_view() == self.deep_view(),
    {
        let copy = Grep {
            queries: self.queries.clone(),
            path: self.path.clone(),
        };
        assert(copy.queries.deep_view() =~= self.queries.deep_view());
        copy
    }
}

/// The superseded form of [`FileGlobV2`].
#[derive(Debug, PartialEq, Default)]
pub struct FileGlob {
    pub patterns: Vec<String>,
    pub path: String,
}

#[verifier::ext_equal]
pub struct FileGlobView {
    pub patterns: Seq<Seq<char>>,
    pub path: Seq<char>,
}

impl DeepView for FileGlob {
    type V = FileGlobView;

    open spec fn deep_view(&self) -> FileGlobView {
        FileGlobView {
            patterns: self.patterns.deep_view(),
            path: self.path@,
        }
    }
}

impl Clone for FileGlob {
    fn clone(&self) -> (copy: Self)
        ensures
            copy.deep_view() == self.deep_view(),
    {
        let copy = FileGlob {
            patterns: self.patterns.clone(),
            path: self.path.clone(),
        };
        assert(copy.patterns.deep_view() =~= self.patterns.deep_view());
        copy
    }
}

/// Searches file names.
#[derive(Debug, PartialEq, Default)]
pub struct FileGlobV2 {
    pub patterns: Vec<String>,
    pub search_dir: String,
    pub rest: Opaque,
}

#[verifier::ext_equal]
pub struct FileGlobV2View {
    pub patterns: Seq<Seq<char>>,
    pub search_dir: Seq<char>,
    pub rest: OpaqueView,
}

impl DeepView for FileGlobV2 {
    type V = FileGlobV2View;

    open spec fn deep_view(&self) -> FileGlobV2View {
        FileGlobV2View {
            patterns: self.patterns.deep_view(),
            search_dir: self.search_dir@,
            rest: self.rest.deep_view(),
        }
    }
}

impl Clone for FileGlobV2 {
    fn clone(&self) -> (copy: Self)
        ensures
            copy.deep_view() == self.deep_view(),
    {
        let copy = FileGlobV2 {
            patterns: self.patterns.clone(),
            search_dir: self.search_dir.clone(),
            rest: self.rest.clone(),
        };
        assert(copy.patterns.deep_view() =~= self.patterns.deep_view());
        copy
    }
}

/// Reads a resource of an MCP server.
#[derive(Debug, PartialEq, Default)]
pub struct ReadMcpResource {
    pub uri: String,
    pub server_id: String,
}

#[verifier::ext_equal]
pub struct ReadMcpResourceView {
    pub uri: Seq<char>,
    pub server_id: Seq<char>,
}

impl DeepView for ReadMcpResource {
    type V = ReadMcpResourceView;

    open spec fn deep_view(&self) -> ReadMcpResourceView {
        ReadMcpResourceView {
            uri: self.uri@,
            server_id: self.server_id@,
        }
    }
}

impl Clone for ReadMcpResource {
    fn clone(&self) -> (copy: Self)
        ensures
            copy.deep_view() == self.deep_view(),
    {
        ReadMcpResource {
            uri: self.uri.clone(),
            server_id: self.server_id.clone(),
        }
    }
}

/// A suggested prompt, and the label that it is shown under.
#[derive(Debug, PartialEq, Default)]
pub struct PromptChip {
    pub prompt: String,
    pub label: String,
}

#[verifier::ext_equal]
pub struct PromptChipView {
    pub prompt: Seq<char>,
    pub label: Seq<char>,
}

impl DeepView for PromptChip {
    type V = PromptChipView;

    open spec fn deep_view(&self) -> PromptChipView {
        PromptChipView {
            prompt: self.prompt@,
            label: self.label@,
        }
    }
}

impl Clone for PromptChip {
    fn clone(&self) -> (copy: Self)
        ensures
            copy.deep_view() == self.deep_view(),
    {
        PromptChip {
            prompt: self.prompt.clone(),
            label: self.label.clone(),
        }
    }
}

/// How a suggested prompt is shown.
#[derive(Debug, PartialEq)]
pub enum DisplayMode {
    PromptChip(PromptChip),
    Other(Opaque),
}

#[verifier::ext_equal]
pub enum DisplayModeView {
    PromptChip(PromptChipView),
    Other(OpaqueView),
}

impl DeepView for DisplayMode {
    type V = DisplayModeView;

    open spec fn deep_view(&self) -> DisplayModeView {
        match self {
            DisplayMode::PromptChip(value) => DisplayModeView::PromptChip(value.deep_view()),
            DisplayMode::Other(value) => DisplayModeView::Other(value.deep_view()),
        }
    }
}

impl Clone for DisplayMode {
    fn clone(&self) -> (copy: Self)
        ensures
            copy.deep_view() == self.deep_view(),
    {
        match self {
            DisplayMode::PromptChip(value) => DisplayMode::PromptChip(value.clone()),
            DisplayMode::Other(value) => DisplayMode::Other(value.clone()),
        }
    }
}

/// Suggests a prompt to the user.
#[derive(Debug, PartialEq, Default)]
pub struct SuggestPrompt {
    pub is_trigger_irrelevant: bool,
    pub display_mode: Option<DisplayMode>,
}

#[verifier::ext_equal]
pub struct SuggestPromptView {
    pub is_trigger_irrelevant: bool,
    pub display_mode: Option<DisplayModeView>,
}

impl DeepView for SuggestPrompt {
    type V = SuggestPromptView;

    open spec fn deep_view(&self) -> SuggestPromptView {
        SuggestPromptView {
            is_trigger_irrelevant: self.is_trigger_irrelevant,
            display_mode: self.display_mode.deep_view(),
        }
    }
}

impl Clone for SuggestPrompt {
    fn clone(&self) -> (copy: Self)
        ensures
            copy.deep_view() == self.deep_view(),
    {
        SuggestPrompt {
            is_trigger_irrelevant: self.is_trigger_irrelevant,
            display_mode: self.display_mode.clone(),
        }
    }
}

/// Calls a tool of an MCP server.
#[derive(Debug, PartialEq, Default)]
pub struct CallMcpTool {
    pub name: String,
    pub args: Option<Struct>,
    pub server_id: String,
}

#[verifier::ext_equal]
pub struct CallMcpToolView {
    pub name: Seq<char>,
    pub args: Option<StructView>,
    pub server_id: Seq<char>,
}

impl DeepView for CallMcpTool {
    type V = CallMcpToolView;

    open spec fn deep_view(&self) -> CallMcpToolView {
        CallMcpToolView {
            name: self.name@,
            args: self.args.deep_view(),
            server_id: self.server_id@,
        }
    }
}

impl Clone for CallMcpTool {
    fn clone(&self) -> (copy: Self)
        ensures
            copy.deep_view() == self.deep_view(),
    {
        CallMcpTool {
            name: self.name.clone(),
            args: self.args.clone(),
            server_id: self.server_id.clone(),
        }
    }
}

/// A tool, with what it is asked to do.
#[derive(Debug, PartialEq)]
pub enum Tool {
    RunShellCommand(RunShellCommand),
    ReadFiles(ReadFiles),
    ApplyFileDiffs(ApplyFileDiffs),
    Grep(Grep),
    FileGlob(FileGlob),
    FileGlobV2(FileGlobV2),
    ReadMcpResource(ReadMcpResource),
    SuggestPrompt(SuggestPrompt),
    CallMcpTool(CallMcpTool),
    /// A tool that the local loop never issues.
    Other(Opaque),
}

#[verifier::ext_equal]
pub enum ToolView {
    RunShellCommand(RunShellCommandView),
    ReadFiles(ReadFilesView),
    ApplyFileDiffs(ApplyFileDiffsView),
    Grep(GrepView),
    FileGlob(FileGlobView),
    FileGlobV2(FileGlobV2View),
    ReadMcpResource(ReadMcpResourceView),
    SuggestPrompt(SuggestPromptView),
    CallMcpTool(CallMcpToolView),
    Other(OpaqueView),
}

impl DeepView for Tool {
    type V = ToolView;

    open spec fn deep_view(&self) -> ToolView {
        match self {
            Tool::RunShellCommand(value) => ToolView::RunShellCommand(value.deep_view()),
            Tool::ReadFiles(value) => ToolView::ReadFiles(value.deep_view()),
            Tool::ApplyFileDiffs(value) => ToolView::ApplyFileDiffs(value.deep_view()),
            Tool::Grep(value) => ToolView::Grep(value.deep_view()),
            Tool::FileGlob(value) => ToolView::FileGlob(value.deep_view()),
            Tool::FileGlobV2(value) => ToolView::FileGlobV2(value.deep_view()),
            Tool::ReadMcpResource(value) => ToolView::ReadMcpResource(value.deep_view()),
            Tool::SuggestPrompt(value) => ToolView::SuggestPrompt(value.deep_view()),
            Tool::CallMcpTool(value) => ToolView::CallMcpTool(value.deep_view()),
            Tool::Other(value) => ToolView::Other(value.deep_view()),
        }
    }
}

impl Clone for Tool {
    fn clone(&self) -> (copy: Self)
        ensures
            copy.deep_view() == self.deep_view(),
    {
        match self {
            Tool::RunShellCommand(value) => Tool::RunShellCommand(value.clone()),
            Tool::ReadFiles(value) => Tool::ReadFiles(value.clone()),
            Tool::ApplyFileDiffs(value) => Tool::ApplyFileDiffs(value.clone()),
            Tool::Grep(value) => Tool::Grep(value.clone()),
            Tool::FileGlob(value) => Tool::FileGlob(value.clone()),
            Tool::FileGlobV2(value) => Tool::FileGlobV2(value.clone()),
            Tool::ReadMcpResource(value) => Tool::ReadMcpResource(value.clone()),
            Tool::SuggestPrompt(value) => Tool::SuggestPrompt(value.clone()),
            Tool::CallMcpTool(value) => Tool::CallMcpTool(value.clone()),
            Tool::Other(value) => Tool::Other(value.clone()),
        }
    }
}

/// A tool call in the message log.
#[derive(Debug, PartialEq, Default)]
pub struct ToolCall {
    pub tool_call_id: String,
    pub tool: Option<Tool>,
}

#[verifier::ext_equal]
pub struct ToolCallView {
    pub tool_call_id: Seq<char>,
    pub tool: Option<ToolView>,
}

impl DeepView for ToolCall {
    type V = ToolCallView;

    open spec fn deep_view(&self) -> ToolCallView {
        ToolCallView {
            tool_call_id: self.tool_call_id@,
            tool: self.tool.deep_view(),
        }
    }
}

impl Clone for ToolCall {
    fn clone(&self) -> (copy: Self)
        ensures
            copy.deep_view() == self.deep_view(),
    {
        ToolCall {
            tool_call_id: self.tool_call_id.clone(),
            tool: self.tool.clone(),
        }
    }
}

} // verus!

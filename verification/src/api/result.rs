//! Results of tool calls.

use vstd::prelude::*;

use crate::api::context::{
    AnyFileContent, AnyFileContentView, Dump, DumpView, FileContent, FileContentView, InputContext,
    InputContextView, Opaque, OpaqueView,
};

verus! {

/// Why a tool call failed.
#[derive(Debug, PartialEq, Default)]
pub struct ResultError {
    pub message: String,
}

#[verifier::ext_equal]
pub struct ResultErrorView {
    pub message: Seq<char>,
}

impl DeepView for ResultError {
    type V = ResultErrorView;

    open spec fn deep_view(&self) -> ResultErrorView {
        ResultErrorView {
            message: self.message@,
        }
    }
}

impl Clone for ResultError {
    fn clone(&self) -> (copy: Self)
        ensures
            copy.deep_view() == self.deep_view(),
    {
        ResultError {
            message: self.message.clone(),
        }
    }
}

/// A command that ran to its end.
#[derive(Debug, PartialEq, Default)]
pub struct ShellCommandFinished {
    pub output: String,
    pub exit_code: i32,
    pub rest: Opaque,
}

#[verifier::ext_equal]
pub struct ShellCommandFinishedView {
    pub output: Seq<char>,
    pub exit_code: i32,
    pub rest: OpaqueView,
}

impl DeepView for ShellCommandFinished {
    type V = ShellCommandFinishedView;

    open spec fn deep_view(&self) -> ShellCommandFinishedView {
        ShellCommandFinishedView {
            output: self.output@,
            exit_code: self.exit_code,
            rest: self.rest.deep_view(),
        }
    }
}

impl Clone for ShellCommandFinished {
    fn clone(&self) -> (copy: Self)
        ensures
            copy.deep_view() == self.deep_view(),
    {
        ShellCommandFinished {
            output: self.output.clone(),
            exit_code: self.exit_code,
            rest: self.rest.clone(),
        }
    }
}

/// What came of running a command.
#[derive(Debug, PartialEq)]
pub enum RunShellCommandOutcome {
    CommandFinished(ShellCommandFinished),
    PermissionDenied(Opaque),
    LongRunningCommandSnapshot(Dump),
}

#[verifier::ext_equal]
pub enum RunShellCommandOutcomeView {
    CommandFinished(ShellCommandFinishedView),
    PermissionDenied(OpaqueView),
    LongRunningCommandSnapshot(DumpView),
}

impl DeepView for RunShellCommandOutcome {
    type V = RunShellCommandOutcomeView;

    open spec fn deep_view(&self) -> RunShellCommandOutcomeView {
        match self {
            RunShellCommandOutcome::CommandFinished(value) => RunShellCommandOutcomeView::CommandFinished(
                value.deep_view(),
            ),
            RunShellCommandOutcome::PermissionDenied(value) => RunShellCommandOutcomeView::PermissionDenied(
                value.deep_view(),
            ),
            RunShellCommandOutcome::LongRunningCommandSnapshot(value) => RunShellCommandOutcomeView::LongRunningCommandSnapshot(
                value.deep_view(),
            ),
        }
    }
}

impl Clone for RunShellCommandOutcome {
    fn clone(&self) -> (copy: Self)
        ensures
            copy.deep_view() == self.deep_view(),
    {
        match self {
            RunShellCommandOutcome::CommandFinished(value) => RunShellCommandOutcome::CommandFinished(
                value.clone(),
            ),
            RunShellCommandOutcome::PermissionDenied(value) => RunShellCommandOutcome::PermissionDenied(
                value.clone(),
            ),
            RunShellCommandOutcome::LongRunningCommandSnapshot(value) => RunShellCommandOutcome::LongRunningCommandSnapshot(
                value.clone(),
            ),
        }
    }
}

/// The result of running a command.
#[derive(Debug, PartialEq, Default)]
pub struct RunShellCommandResult {
    pub result: Option<RunShellCommandOutcome>,
    /// Superseded by `result`; read only where that is absent.
    pub exit_code: i32,
    /// Superseded by `result`; read only where that is absent.
    pub output: String,
    pub rest: Opaque,
}

#[verifier::ext_equal]
pub struct RunShellCommandResultView {
    pub result: Option<RunShellCommandOutcomeView>,
    pub exit_code: i32,
    pub output: Seq<char>,
    pub rest: OpaqueView,
}

impl DeepView for RunShellCommandResult {
    type V = RunShellCommandResultView;

    open spec fn deep_view(&self) -> RunShellCommandResultView {
        RunShellCommandResultView {
            result: self.result.deep_view(),
            exit_code: self.exit_code,
            output: self.output@,
            rest: self.rest.deep_view(),
        }
    }
}

impl Clone for RunShellCommandResult {
    fn clone(&self) -> (copy: Self)
        ensures
            copy.deep_view() == self.deep_view(),
    {
        RunShellCommandResult {
            result: self.result.clone(),
            exit_code: self.exit_code,
            output: self.output.clone(),
            rest: self.rest.clone(),
        }
    }
}

/// Text files that were read.
#[derive(Debug, PartialEq, Default)]
pub struct TextFilesSuccess {
    pub files: Vec<FileContent>,
}

#[verifier::ext_equal]
pub struct TextFilesSuccessView {
    pub files: Seq<FileContentView>,
}

impl DeepView for TextFilesSuccess {
    type V = TextFilesSuccessView;

    open spec fn deep_view(&self) -> TextFilesSuccessView {
        TextFilesSuccessView {
            files: self.files.deep_view(),
        }
    }
}

impl Clone for TextFilesSuccess {
    fn clone(&self) -> (copy: Self)
        ensures
            copy.deep_view() == self.deep_view(),
    {
        let copy = TextFilesSuccess {
            files: self.files.clone(),
        };
        assert(copy.files.deep_view() =~= self.files.deep_view());
        copy
    }
}

/// Files of either kind that were read.
#[derive(Debug, PartialEq, Default)]
pub struct AnyFilesSuccess {
    pub files: Vec<AnyFileContent>,
}

#[verifier::ext_equal]
pub struct AnyFilesSuccessView {
    pub files: Seq<AnyFileContentView>,
}

impl DeepView for AnyFilesSuccess {
    type V = AnyFilesSuccessView;

    open spec fn deep_view(&self) -> AnyFilesSuccessView {
        AnyFilesSuccessView {
            files: self.files.deep_view(),
        }
    }
}

impl Clone for AnyFilesSuccess {
    fn clone(&self) -> (copy: Self)
        ensures
            copy.deep_view() == self.deep_view(),
    {
        let copy = AnyFilesSuccess {
            files: self.files.clone(),
        };
        assert(copy.files.deep_view() =~= self.files.deep_view());
        copy
    }
}

/// What came of reading files.
#[derive(Debug, PartialEq)]
pub enum ReadFilesOutcome {
    TextFilesSuccess(TextFilesSuccess),
    AnyFilesSuccess(AnyFilesSuccess),
    Error(ResultError),
}

#[verifier::ext_equal]
pub enum ReadFilesOutcomeView {
    TextFilesSuccess(TextFilesSuccessView),
    AnyFilesSuccess(AnyFilesSuccessView),
    Error(ResultErrorView),
}

impl DeepView for ReadFilesOutcome {
    type V = ReadFilesOutcomeView;

    open spec fn deep_view(&self) -> ReadFilesOutcomeView {
        match self {
            ReadFilesOutcome::TextFilesSuccess(value) => ReadFilesOutcomeView::TextFilesSuccess(
                value.deep_view(),
            ),
            ReadFilesOutcome::AnyFilesSuccess(value) => ReadFilesOutcomeView::AnyFilesSuccess(
                value.deep_view(),
            ),
            ReadFilesOutcome::Error(value) => ReadFilesOutcomeView::Error(value.deep_view()),
        }
    }
}

impl Clone for ReadFilesOutcome {
    fn clone(&self) -> (copy: Self)
        ensures
            copy.deep_view() == self.deep_view(),
    {
        match self {
            ReadFilesOutcome::TextFilesSuccess(value) => ReadFilesOutcome::TextFilesSuccess(
                value.clone(),
            ),
            ReadFilesOutcome::AnyFilesSuccess(value) => ReadFilesOutcome::AnyFilesSuccess(
                value.clone(),
            ),
            ReadFilesOutcome::Error(value) => ReadFilesOutcome::Error(value.clone()),
        }
    }
}

/// The result of reading files.
#[derive(Debug, PartialEq, Default)]
pub struct ReadFilesResult {
    pub result: Option<ReadFilesOutcome>,
}

#[verifier::ext_equal]
pub struct ReadFilesResultView {
    pub result: Option<ReadFilesOutcomeView>,
}

impl DeepView for ReadFilesResult {
    type V = ReadFilesResultView;

    open spec fn deep_view(&self) -> ReadFilesResultView {
        ReadFilesResultView {
            result: self.result.deep_view(),
        }
    }
}

impl Clone for ReadFilesResult {
    fn clone(&self) -> (copy: Self)
        ensures
            copy.deep_view() == self.deep_view(),
    {
        ReadFilesResult {
            result: self.result.clone(),
        }
    }
}

/// A file that was edited or created.
#[derive(Debug, PartialEq, Default)]
pub struct UpdatedFile {
    pub file: Option<FileContent>,
    pub rest: Opaque,
}

#[verifier::ext_equal]
pub struct UpdatedFileView {
    pub file: Option<FileContentView>,
    pub rest: OpaqueView,
}

impl DeepView for UpdatedFile {
    type V = UpdatedFileView;

    open spec fn deep_view(&self) -> UpdatedFileView {
        UpdatedFileView {
            file: self.file.deep_view(),
            rest: self.rest.deep_view(),
        }
    }
}

impl Clone for UpdatedFile {
    fn clone(&self) -> (copy: Self)
        ensures
            copy.deep_view() == self.deep_view(),
    {
        UpdatedFile {
            file: self.file.clone(),
            rest: self.rest.clone(),
        }
    }
}

/// A file that was deleted.
#[derive(Debug, PartialEq, Default)]
pub struct DeletedFile {
    pub file_path: String,
}

#[verifier::ext_equal]
pub struct DeletedFileView {
    pub file_path: Seq<char>,
}

impl DeepView for DeletedFile {
    type V = DeletedFileView;

    open spec fn deep_view(&self) -> DeletedFileView {
        DeletedFileView {
            file_path: self.file_path@,
        }
    }
}

impl Clone for DeletedFile {
    fn clone(&self) -> (copy: Self)
        ensures
            copy.deep_view() == self.deep_view(),
    {
        DeletedFile {
            file_path: self.file_path.clone(),
        }
    }
}

/// Edits that were applied.
#[derive(Debug, PartialEq, Default)]
pub struct ApplyFileDiffsSuccess {
    pub updated_files_v2: Vec<UpdatedFile>,
    pub deleted_files: Vec<DeletedFile>,
    pub rest: Opaque,
}

#[verifier::ext_equal]
pub struct ApplyFileDiffsSuccessView {
    pub updated_files_v2: Seq<UpdatedFileView>,
    pub deleted_files: Seq<DeletedFileView>,
    pub rest: OpaqueView,
}

impl DeepView for ApplyFileDiffsSuccess {
    type V = ApplyFileDiffsSuccessView;

    open spec fn deep_view(&self) -> ApplyFileDiffsSuccessView {
        ApplyFileDiffsSuccessView {
            updated_files_v2: self.updated_files_v2.deep_view(),
            deleted_files: self.deleted_files.deep_view(),
            rest: self.rest.deep_view(),
        }
    }
}

impl Clone for ApplyFileDiffsSuccess {
    fn clone(&self) -> (copy: Self)
        ensures
            copy.deep_view() == self.deep_view(),
    {
        let copy = ApplyFileDiffsSuccess {
            updated_files_v2: self.updated_files_v2.clone(),
            deleted_files: self.deleted_files.clone(),
            rest: self.rest.clone(),
        };
        assert(copy.updated_files_v2.deep_view() =~= self.updated_files_v2.deep_view());
        assert(copy.deleted_files.deep_view() =~= self.deleted_files.deep_view());
        copy
    }
}

/// What came of editing files.
#[derive(Debug, PartialEq)]
pub enum ApplyFileDiffsOutcome {
    Success(ApplyFileDiffsSuccess),
    Error(ResultError),
}

#[verifier::ext_equal]
pub enum ApplyFileDiffsOutcomeView {
    Success(ApplyFileDiffsSuccessView),
    Error(ResultErrorView),
}

impl DeepView for ApplyFileDiffsOutcome {
    type V = ApplyFileDiffsOutcomeView;

    open spec fn deep_view(&self) -> ApplyFileDiffsOutcomeView {
        match self {
            ApplyFileDiffsOutcome::Success(value) => ApplyFileDiffsOutcomeView::Success(
                value.deep_view(),
            ),
            ApplyFileDiffsOutcome::Error(value) => ApplyFileDiffsOutcomeView::Error(
                value.deep_view(),
            ),
        }
    }
}

impl Clone for ApplyFileDiffsOutcome {
    fn clone(&self) -> (copy: Self)
        ensures
            copy.deep_view() == self.deep_view(),
    {
        match self {
            ApplyFileDiffsOutcome::Success(value) => ApplyFileDiffsOutcome::Success(value.clone()),
            ApplyFileDiffsOutcome::Error(value) => ApplyFileDiffsOutcome::Error(value.clone()),
        }
    }
}

/// The result of editing files.
#[derive(Debug, PartialEq, Default)]
pub struct ApplyFileDiffsResult {
    pub result: Option<ApplyFileDiffsOutcome>,
}

#[verifier::ext_equal]
pub struct ApplyFileDiffsResultView {
    pub result: Option<ApplyFileDiffsOutcomeView>,
}

impl DeepView for ApplyFileDiffsResult {
    type V = ApplyFileDiffsResultView;

    open spec fn deep_view(&self) -> ApplyFileDiffsResultView {
        ApplyFileDiffsResultView {
            result: self.result.deep_view(),
        }
    }
}

impl Clone for ApplyFileDiffsResult {
    fn clone(&self) -> (copy: Self)
        ensures
            copy.deep_view() == self.deep_view(),
    {
        ApplyFileDiffsResult {
            result: self.result.clone(),
        }
    }
}

/// A line that matched.
#[derive(Debug, PartialEq, Default)]
pub struct GrepLineMatch {
    pub line_number: u32,
}

#[verifier::ext_equal]
pub struct GrepLineMatchView {
    pub line_number: u32,
}

impl DeepView for GrepLineMatch {
    type V = GrepLineMatchView;

    open spec fn deep_view(&self) -> GrepLineMatchView {
        GrepLineMatchView {
            line_number: self.line_number,
        }
    }
}

impl Clone for GrepLineMatch {
    fn clone(&self) -> (copy: Self)
        ensures
            copy.deep_view() == self.deep_view(),
    {
        GrepLineMatch {
            line_number: self.line_number,
        }
    }
}

/// A file with lines that matched.
#[derive(Debug, PartialEq, Default)]
pub struct GrepFileMatch {
    pub file_path: String,
    pub matched_lines: Vec<GrepLineMatch>,
}

#[verifier::ext_equal]
pub struct GrepFileMatchView {
    pub file_path: Seq<char>,
    pub matched_lines: Seq<GrepLineMatchView>,
}

impl DeepView for GrepFileMatch {
    type V = GrepFileMatchView;

    open spec fn deep_view(&self) -> GrepFileMatchView {
        GrepFileMatchView {
            file_path: self.file_path@,
            matched_lines: self.matched_lines.deep_view(),
        }
    }
}

impl Clone for GrepFileMatch {
    fn clone(&self) -> (copy: Self)
        ensures
            copy.deep_view() == self.deep_view(),
    {
        let copy = GrepFileMatch {
            file_path: self.file_path.clone(),
            matched_lines: self.matched_lines.clone(),
        };
        assert(copy.matched_lines.deep_view() =~= self.matched_lines.deep_view());
        copy
    }
}

/// The files with matches.
#[derive(Debug, PartialEq, Default)]
pub struct GrepSuccess {
    pub matched_files: Vec<GrepFileMatch>,
}

#[verifier::ext_equal]
pub struct GrepSuccessView {
    pub matched_files: Seq<GrepFileMatchView>,
}

impl DeepView for GrepSuccess {
    type V = GrepSuccessView;

    open spec fn deep_view(&self) -> GrepSuccessView {
        GrepSuccessView {
            matched_files: self.matched_files.deep_view(),
        }
    }
}

impl Clone for GrepSuccess {
    fn clone(&self) -> (copy: Self)
        ensures
            copy.deep_view() == self.deep_view(),
    {
        let copy = GrepSuccess {
            matched_files: self.matched_files.clone(),
        };
        assert(copy.matched_files.deep_view() =~= self.matched_files.deep_view());
        copy
    }
}

/// What came of a search of file contents.
#[derive(Debug, PartialEq)]
pub enum GrepOutcome {
    Success(GrepSuccess),
    Error(ResultError),
}

#[verifier::ext_equal]
pub enum GrepOutcomeView {
    Success(GrepSuccessView),
    Error(ResultErrorView),
}

impl DeepView for GrepOutcome {
    type V = GrepOutcomeView;

    open spec fn deep_view(&self) -> GrepOutcomeView {
        match self {
            GrepOutcome::Success(value) => GrepOutcomeView::Success(value.deep_view()),
            GrepOutcome::Error(value) => GrepOutcomeView::Error(value.deep_view()),
        }
    }
}

impl Clone for GrepOutcome {
    fn clone(&self) -> (copy: Self)
        ensures
            copy.deep_view() == self.deep_view(),
    {
        match self {
            GrepOutcome::Success(value) => GrepOutcome::Success(value.clone()),
            GrepOutcome::Error(value) => GrepOutcome::Error(value.clone()),
        }
    }
}

/// The result of a search of file contents.
#[derive(Debug, PartialEq, Default)]
pub struct GrepResult {
    pub result: Option<GrepOutcome>,
}

#[verifier::ext_equal]
pub struct GrepResultView {
    pub result: Option<GrepOutcomeView>,
}

impl DeepView for GrepResult {
    type V = GrepResultView;

    open spec fn deep_view(&self) -> GrepResultView {
        GrepResultView {
            result: self.result.deep_view(),
        }
    }
}

impl Clone for GrepResult {
    fn clone(&self) -> (copy: Self)
        ensures
            copy.deep_view() == self.deep_view(),
    {
        GrepResult {
            result: self.result.clone(),
        }
    }
}

/// The files that the superseded search found.
#[derive(Debug, PartialEq, Default)]
pub struct FileGlobSuccess {
    /// The matches as one text.
    pub matched_files: String,
}

#[verifier::ext_equal]
pub struct FileGlobSuccessView {
    pub matched_files: Seq<char>,
}

impl DeepView for FileGlobSuccess {
    type V = FileGlobSuccessView;

    open spec fn deep_view(&self) -> FileGlobSuccessView {
        FileGlobSuccessView {
            matched_files: self.matched_files@,
        }
    }
}

impl Clone for FileGlobSuccess {
    fn clone(&self) -> (copy: Self)
        ensures
            copy.deep_view() == self.deep_view(),
    {
        FileGlobSuccess {
            matched_files: self.matched_files.clone(),
        }
    }
}

/// What came of the superseded search of file names.
#[derive(Debug, PartialEq)]
pub enum FileGlobOutcome {
    Success(FileGlobSuccess),
    Error(ResultError),
}

#[verifier::ext_equal]
pub enum FileGlobOutcomeView {
    Success(FileGlobSuccessView),
    Error(ResultErrorView),
}

impl DeepView for FileGlobOutcome {
    type V = FileGlobOutcomeView;

    open spec fn deep_view(&self) -> FileGlobOutcomeView {
        match self {
            FileGlobOutcome::Success(value) => FileGlobOutcomeView::Success(value.deep_view()),
            FileGlobOutcome::Error(value) => FileGlobOutcomeView::Error(value.deep_view()),
        }
    }
}

impl Clone for FileGlobOutcome {
    fn clone(&self) -> (copy: Self)
        ensures
            copy.deep_view() == self.deep_view(),
    {
        match self {
            FileGlobOutcome::Success(value) => FileGlobOutcome::Success(value.clone()),
            FileGlobOutcome::Error(value) => FileGlobOutcome::Error(value.clone()),
        }
    }
}

/// The superseded form of [`FileGlobV2Result`].
#[derive(Debug, PartialEq, Default)]
pub struct FileGlobResult {
    pub result: Option<FileGlobOutcome>,
}

#[verifier::ext_equal]
pub struct FileGlobResultView {
    pub result: Option<FileGlobOutcomeView>,
}

impl DeepView for FileGlobResult {
    type V = FileGlobResultView;

    open spec fn deep_view(&self) -> FileGlobResultView {
        FileGlobResultView {
            result: self.result.deep_view(),
        }
    }
}

impl Clone for FileGlobResult {
    fn clone(&self) -> (copy: Self)
        ensures
            copy.deep_view() == self.deep_view(),
    {
        FileGlobResult {
            result: self.result.clone(),
        }
    }
}

/// A file that was found.
#[derive(Debug, PartialEq, Default)]
pub struct FileGlobV2Match {
    pub file_path: String,
}

#[verifier::ext_equal]
pub struct FileGlobV2MatchView {
    pub file_path: Seq<char>,
}

impl DeepView for FileGlobV2Match {
    type V = FileGlobV2MatchView;

    open spec fn deep_view(&self) -> FileGlobV2MatchView {
        FileGlobV2MatchView {
            file_path: self.file_path@,
        }
    }
}

impl Clone for FileGlobV2Match {
    fn clone(&self) -> (copy: Self)
        ensures
            copy.deep_view() == self.deep_view(),
    {
        FileGlobV2Match {
            file_path: self.file_path.clone(),
        }
    }
}

/// The files that were found.
#[derive(Debug, PartialEq, Default)]
pub struct FileGlobV2Success {
    pub matched_files: Vec<FileGlobV2Match>,
    pub warnings: String,
}

#[verifier::ext_equal]
pub struct FileGlobV2SuccessView {
    pub matched_files: Seq<FileGlobV2MatchView>,
    pub warnings: Seq<char>,
}

impl DeepView for FileGlobV2Success {
    type V = FileGlobV2SuccessView;

    open spec fn deep_view(&self) -> FileGlobV2SuccessView {
        FileGlobV2SuccessView {
            matched_files: self.matched_files.deep_view(),
            warnings: self.warnings@,
        }
    }
}

impl Clone for FileGlobV2Success {
    fn clone(&self) -> (copy: Self)
        ensures
            copy.deep_view() == self.deep_view(),
    {
        let copy = FileGlobV2Success {
            matched_files: self.matched_files.clone(),
            warnings: self.warnings.clone(),
        };
        assert(copy.matched_files.deep_view() =~= self.matched_files.deep_view());
        copy
    }
}

/// What came of a search of file names.
#[derive(Debug, PartialEq)]
pub enum FileGlobV2Outcome {
    Success(FileGlobV2Success),
    Error(ResultError),
}

#[verifier::ext_equal]
pub enum FileGlobV2OutcomeView {
    Success(FileGlobV2SuccessView),
    Error(ResultErrorView),
}

impl DeepView for FileGlobV2Outcome {
    type V = FileGlobV2OutcomeView;

    open spec fn deep_view(&self) -> FileGlobV2OutcomeView {
        match self {
            FileGlobV2Outcome::Success(value) => FileGlobV2OutcomeView::Success(value.deep_view()),
            FileGlobV2Outcome::Error(value) => FileGlobV2OutcomeView::Error(value.deep_view()),
        }
    }
}

impl Clone for FileGlobV2Outcome {
    fn clone(&self) -> (copy: Self)
        ensures
            copy.deep_view() == self.deep_view(),
    {
        match self {
            FileGlobV2Outcome::Success(value) => FileGlobV2Outcome::Success(value.clone()),
            FileGlobV2Outcome::Error(value) => FileGlobV2Outcome::Error(value.clone()),
        }
    }
}

/// The result of a search of file names.
#[derive(Debug, PartialEq, Default)]
pub struct FileGlobV2Result {
    pub result: Option<FileGlobV2Outcome>,
}

#[verifier::ext_equal]
pub struct FileGlobV2ResultView {
    pub result: Option<FileGlobV2OutcomeView>,
}

impl DeepView for FileGlobV2Result {
    type V = FileGlobV2ResultView;

    open spec fn deep_view(&self) -> FileGlobV2ResultView {
        FileGlobV2ResultView {
            result: self.result.deep_view(),
        }
    }
}

impl Clone for FileGlobV2Result {
    fn clone(&self) -> (copy: Self)
        ensures
            copy.deep_view() == self.deep_view(),
    {
        FileGlobV2Result {
            result: self.result.clone(),
        }
    }
}

/// A resource that is text.
#[derive(Debug, PartialEq, Default)]
pub struct McpTextContent {
    pub content: String,
}

#[verifier::ext_equal]
pub struct McpTextContentView {
    pub content: Seq<char>,
}

impl DeepView for McpTextContent {
    type V = McpTextContentView;

    open spec fn deep_view(&self) -> McpTextContentView {
        McpTextContentView {
            content: self.content@,
        }
    }
}

impl Clone for McpTextContent {
    fn clone(&self) -> (copy: Self)
        ensures
            copy.deep_view() == self.deep_view(),
    {
        McpTextContent {
            content: self.content.clone(),
        }
    }
}

/// A resource that is no text.
#[derive(Debug, PartialEq, Default)]
pub struct McpBinaryContent {
    pub data: Vec<u8>,
    pub mime_type: String,
}

#[verifier::ext_equal]
pub struct McpBinaryContentView {
    pub data: Seq<u8>,
    pub mime_type: Seq<char>,
}

impl DeepView for McpBinaryContent {
    type V = McpBinaryContentView;

    open spec fn deep_view(&self) -> McpBinaryContentView {
        McpBinaryContentView {
            data: self.data.deep_view(),
            mime_type: self.mime_type@,
        }
    }
}

impl Clone for McpBinaryContent {
    fn clone(&self) -> (copy: Self)
        ensures
            copy.deep_view() == self.deep_view(),
    {
        let copy = McpBinaryContent {
            data: self.data.clone(),
            mime_type: self.mime_type.clone(),
        };
        assert(copy.data.deep_view() =~= self.data.deep_view());
        copy
    }
}

/// The content of a resource of either kind.
#[derive(Debug, PartialEq)]
pub enum McpContentType {
    Text(McpTextContent),
    Binary(McpBinaryContent),
}

#[verifier::ext_equal]
pub enum McpContentTypeView {
    Text(McpTextContentView),
    Binary(McpBinaryContentView),
}

impl DeepView for McpContentType {
    type V = McpContentTypeView;

    open spec fn deep_view(&self) -> McpContentTypeView {
        match self {
            McpContentType::Text(value) => McpContentTypeView::Text(value.deep_view()),
            McpContentType::Binary(value) => McpContentTypeView::Binary(value.deep_view()),
        }
    }
}

impl Clone for McpContentType {
    fn clone(&self) -> (copy: Self)
        ensures
            copy.deep_view() == self.deep_view(),
    {
        match self {
            McpContentType::Text(value) => McpContentType::Text(value.clone()),
            McpContentType::Binary(value) => McpContentType::Binary(value.clone()),
        }
    }
}

/// A resource that was read.
#[derive(Debug, PartialEq, Default)]
pub struct McpResourceContent {
    pub uri: String,
    pub content_type: Option<McpContentType>,
}

#[verifier::ext_equal]
pub struct McpResourceContentView {
    pub uri: Seq<char>,
    pub content_type: Option<McpContentTypeView>,
}

impl DeepView for McpResourceContent {
    type V = McpResourceContentView;

    open spec fn deep_view(&self) -> McpResourceContentView {
        McpResourceContentView {
            uri: self.uri@,
            content_type: self.content_type.deep_view(),
        }
    }
}

impl Clone for McpResourceContent {
    fn clone(&self) -> (copy: Self)
        ensures
            copy.deep_view() == self.deep_view(),
    {
        McpResourceContent {
            uri: self.uri.clone(),
            content_type: self.content_type.clone(),
        }
    }
}

/// The resources that were read.
#[derive(Debug, PartialEq, Default)]
pub struct ReadMcpResourceSuccess {
    pub contents: Vec<McpResourceContent>,
}

#[verifier::ext_equal]
pub struct ReadMcpResourceSuccessView {
    pub contents: Seq<McpResourceContentView>,
}

impl DeepView for ReadMcpResourceSuccess {
    type V = ReadMcpResourceSuccessView;

    open spec fn deep_view(&self) -> ReadMcpResourceSuccessView {
        ReadMcpResourceSuccessView {
            contents: self.contents.deep_view(),
        }
    }
}

impl Clone for ReadMcpResourceSuccess {
    fn clone(&self) -> (copy: Self)
        ensures
            copy.deep_view() == self.deep_view(),
    {
        let copy = ReadMcpResourceSuccess {
            contents: self.contents.clone(),
        };
        assert(copy.contents.deep_view() =~= self.contents.deep_view());
        copy
    }
}

/// What came of reading a resource.
#[derive(Debug, PartialEq)]
pub enum ReadMcpResourceOutcome {
    Success(ReadMcpResourceSuccess),
    Error(ResultError),
}

#[verifier::ext_equal]
pub enum ReadMcpResourceOutcomeView {
    Success(ReadMcpResourceSuccessView),
    Error(ResultErrorView),
}

impl DeepView for ReadMcpResourceOutcome {
    type V = ReadMcpResourceOutcomeView;

    open spec fn deep_view(&self) -> ReadMcpResourceOutcomeView {
        match self {
            ReadMcpResourceOutcome::Success(value) => ReadMcpResourceOutcomeView::Success(
                value.deep_view(),
            ),
            ReadMcpResourceOutcome::Error(value) => ReadMcpResourceOutcomeView::Error(
                value.deep_view(),
            ),
        }
    }
}

impl Clone for ReadMcpResourceOutcome {
    fn clone(&self) -> (copy: Self)
        ensures
            copy.deep_view() == self.deep_view(),
    {
        match self {
            ReadMcpResourceOutcome::Success(value) => ReadMcpResourceOutcome::Success(
                value.clone(),
            ),
            ReadMcpResourceOutcome::Error(value) => ReadMcpResourceOutcome::Error(value.clone()),
        }
    }
}

/// The result of reading a resource.
#[derive(Debug, PartialEq, Default)]
pub struct ReadMcpResourceResult {
    pub result: Option<ReadMcpResourceOutcome>,
}

#[verifier::ext_equal]
pub struct ReadMcpResourceResultView {
    pub result: Option<ReadMcpResourceOutcomeView>,
}

impl DeepView for ReadMcpResourceResult {
    type V = ReadMcpResourceResultView;

    open spec fn deep_view(&self) -> ReadMcpResourceResultView {
        ReadMcpResourceResultView {
            result: self.result.deep_view(),
        }
    }
}

impl Clone for ReadMcpResourceResult {
    fn clone(&self) -> (copy: Self)
        ensures
            copy.deep_view() == self.deep_view(),
    {
        ReadMcpResourceResult {
            result: self.result.clone(),
        }
    }
}

/// A text that an MCP tool gave back.
#[derive(Debug, PartialEq, Default)]
pub struct CallMcpToolText {
    pub text: String,
}

#[verifier::ext_equal]
pub struct CallMcpToolTextView {
    pub text: Seq<char>,
}

impl DeepView for CallMcpToolText {
    type V = CallMcpToolTextView;

    open spec fn deep_view(&self) -> CallMcpToolTextView {
        CallMcpToolTextView {
            text: self.text@,
        }
    }
}

impl Clone for CallMcpToolText {
    fn clone(&self) -> (copy: Self)
        ensures
            copy.deep_view() == self.deep_view(),
    {
        CallMcpToolText {
            text: self.text.clone(),
        }
    }
}

/// One thing that an MCP tool gave back.
#[derive(Debug, PartialEq)]
pub enum CallMcpToolContent {
    Text(CallMcpToolText),
    Other(Dump),
}

#[verifier::ext_equal]
pub enum CallMcpToolContentView {
    Text(CallMcpToolTextView),
    Other(DumpView),
}

impl DeepView for CallMcpToolContent {
    type V = CallMcpToolContentView;

    open spec fn deep_view(&self) -> CallMcpToolContentView {
        match self {
            CallMcpToolContent::Text(value) => CallMcpToolContentView::Text(value.deep_view()),
            CallMcpToolContent::Other(value) => CallMcpToolContentView::Other(value.deep_view()),
        }
    }
}

impl Clone for CallMcpToolContent {
    fn clone(&self) -> (copy: Self)
        ensures
            copy.deep_view() == self.deep_view(),
    {
        match self {
            CallMcpToolContent::Text(value) => CallMcpToolContent::Text(value.clone()),
            CallMcpToolContent::Other(value) => CallMcpToolContent::Other(value.clone()),
        }
    }
}

/// One entry of what an MCP tool gave back.
#[derive(Debug, PartialEq, Default)]
pub struct CallMcpToolEntry {
    pub result: Option<CallMcpToolContent>,
}

#[verifier::ext_equal]
pub struct CallMcpToolEntryView {
    pub result: Option<CallMcpToolContentView>,
}

impl DeepView for CallMcpToolEntry {
    type V = CallMcpToolEntryView;

    open spec fn deep_view(&self) -> CallMcpToolEntryView {
        CallMcpToolEntryView {
            result: self.result.deep_view(),
        }
    }
}

impl Clone for CallMcpToolEntry {
    fn clone(&self) -> (copy: Self)
        ensures
            copy.deep_view() == self.deep_view(),
    {
        CallMcpToolEntry {
            result: self.result.clone(),
        }
    }
}

/// All that an MCP tool gave back.
#[derive(Debug, PartialEq, Default)]
pub struct CallMcpToolSuccess {
    pub results: Vec<CallMcpToolEntry>,
}

#[verifier::ext_equal]
pub struct CallMcpToolSuccessView {
    pub results: Seq<CallMcpToolEntryView>,
}

impl DeepView for CallMcpToolSuccess {
    type V = CallMcpToolSuccessView;

    open spec fn deep_view(&self) -> CallMcpToolSuccessView {
        CallMcpToolSuccessView {
            results: self.results.deep_view(),
        }
    }
}

impl Clone for CallMcpToolSuccess {
    fn clone(&self) -> (copy: Self)
        ensures
            copy.deep_view() == self.deep_view(),
    {
        let copy = CallMcpToolSuccess {
            results: self.results.clone(),
        };
        assert(copy.results.deep_view() =~= self.results.deep_view());
        copy
    }
}

/// What came of calling an MCP tool.
#[derive(Debug, PartialEq)]
pub enum CallMcpToolOutcome {
    Success(CallMcpToolSuccess),
    Error(ResultError),
}

#[verifier::ext_equal]
pub enum CallMcpToolOutcomeView {
    Success(CallMcpToolSuccessView),
    Error(ResultErrorView),
}

impl DeepView for CallMcpToolOutcome {
    type V = CallMcpToolOutcomeView;

    open spec fn deep_view(&self) -> CallMcpToolOutcomeView {
        match self {
            CallMcpToolOutcome::Success(value) => CallMcpToolOutcomeView::Success(
                value.deep_view(),
            ),
            CallMcpToolOutcome::Error(value) => CallMcpToolOutcomeView::Error(value.deep_view()),
        }
    }
}

impl Clone for CallMcpToolOutcome {
    fn clone(&self) -> (copy: Self)
        ensures
            copy.deep_view() == self.deep_view(),
    {
        match self {
            CallMcpToolOutcome::Success(value) => CallMcpToolOutcome::Success(value.clone()),
            CallMcpToolOutcome::Error(value) => CallMcpToolOutcome::Error(value.clone()),
        }
    }
}

/// The result of calling an MCP tool.
#[derive(Debug, PartialEq, Default)]
pub struct CallMcpToolResult {
    pub result: Option<CallMcpToolOutcome>,
}

#[verifier::ext_equal]
pub struct CallMcpToolResultView {
    pub result: Option<CallMcpToolOutcomeView>,
}

impl DeepView for CallMcpToolResult {
    type V = CallMcpToolResultView;

    open spec fn deep_view(&self) -> CallMcpToolResultView {
        CallMcpToolResultView {
            result: self.result.deep_view(),
        }
    }
}

impl Clone for CallMcpToolResult {
    fn clone(&self) -> (copy: Self)
        ensures
            copy.deep_view() == self.deep_view(),
    {
        CallMcpToolResult {
            result: self.result.clone(),
        }
    }
}

/// A tool call's result in the message log.
#[derive(Debug, PartialEq)]
pub enum ToolResult {
    RunShellCommand(RunShellCommandResult),
    ReadFiles(ReadFilesResult),
    ApplyFileDiffs(ApplyFileDiffsResult),
    Grep(GrepResult),
    FileGlob(FileGlobResult),
    FileGlobV2(FileGlobV2Result),
    ReadMcpResource(ReadMcpResourceResult),
    CallMcpTool(CallMcpToolResult),
    /// The user canceled the call.
    Cancel,
    /// The result of a tool that the local loop never issues.
    Other(Dump),
}

#[verifier::ext_equal]
pub enum ToolResultView {
    RunShellCommand(RunShellCommandResultView),
    ReadFiles(ReadFilesResultView),
    ApplyFileDiffs(ApplyFileDiffsResultView),
    Grep(GrepResultView),
    FileGlob(FileGlobResultView),
    FileGlobV2(FileGlobV2ResultView),
    ReadMcpResource(ReadMcpResourceResultView),
    CallMcpTool(CallMcpToolResultView),
    Cancel,
    Other(DumpView),
}

impl DeepView for ToolResult {
    type V = ToolResultView;

    open spec fn deep_view(&self) -> ToolResultView {
        match self {
            ToolResult::RunShellCommand(value) => ToolResultView::RunShellCommand(
                value.deep_view(),
            ),
            ToolResult::ReadFiles(value) => ToolResultView::ReadFiles(value.deep_view()),
            ToolResult::ApplyFileDiffs(value) => ToolResultView::ApplyFileDiffs(value.deep_view()),
            ToolResult::Grep(value) => ToolResultView::Grep(value.deep_view()),
            ToolResult::FileGlob(value) => ToolResultView::FileGlob(value.deep_view()),
            ToolResult::FileGlobV2(value) => ToolResultView::FileGlobV2(value.deep_view()),
            ToolResult::ReadMcpResource(value) => ToolResultView::ReadMcpResource(
                value.deep_view(),
            ),
            ToolResult::CallMcpTool(value) => ToolResultView::CallMcpTool(value.deep_view()),
            ToolResult::Cancel => ToolResultView::Cancel,
            ToolResult::Other(value) => ToolResultView::Other(value.deep_view()),
        }
    }
}

impl Clone for ToolResult {
    fn clone(&self) -> (copy: Self)
        ensures
            copy.deep_view() == self.deep_view(),
    {
        match self {
            ToolResult::RunShellCommand(value) => ToolResult::RunShellCommand(value.clone()),
            ToolResult::ReadFiles(value) => ToolResult::ReadFiles(value.clone()),
            ToolResult::ApplyFileDiffs(value) => ToolResult::ApplyFileDiffs(value.clone()),
            ToolResult::Grep(value) => ToolResult::Grep(value.clone()),
            ToolResult::FileGlob(value) => ToolResult::FileGlob(value.clone()),
            ToolResult::FileGlobV2(value) => ToolResult::FileGlobV2(value.clone()),
            ToolResult::ReadMcpResource(value) => ToolResult::ReadMcpResource(value.clone()),
            ToolResult::CallMcpTool(value) => ToolResult::CallMcpTool(value.clone()),
            ToolResult::Cancel => ToolResult::Cancel,
            ToolResult::Other(value) => ToolResult::Other(value.clone()),
        }
    }
}

/// A tool call's result as it comes in with a request.
#[derive(Debug, PartialEq)]
pub enum InputToolResult {
    RunShellCommand(RunShellCommandResult),
    ReadFiles(ReadFilesResult),
    ApplyFileDiffs(ApplyFileDiffsResult),
    Grep(GrepResult),
    FileGlob(FileGlobResult),
    FileGlobV2(FileGlobV2Result),
    ReadMcpResource(ReadMcpResourceResult),
    CallMcpTool(CallMcpToolResult),
    /// The result of a tool that the local loop never issues.
    Other(Dump),
}

#[verifier::ext_equal]
pub enum InputToolResultView {
    RunShellCommand(RunShellCommandResultView),
    ReadFiles(ReadFilesResultView),
    ApplyFileDiffs(ApplyFileDiffsResultView),
    Grep(GrepResultView),
    FileGlob(FileGlobResultView),
    FileGlobV2(FileGlobV2ResultView),
    ReadMcpResource(ReadMcpResourceResultView),
    CallMcpTool(CallMcpToolResultView),
    Other(DumpView),
}

impl DeepView for InputToolResult {
    type V = InputToolResultView;

    open spec fn deep_view(&self) -> InputToolResultView {
        match self {
            InputToolResult::RunShellCommand(value) => InputToolResultView::RunShellCommand(
                value.deep_view(),
            ),
            InputToolResult::ReadFiles(value) => InputToolResultView::ReadFiles(value.deep_view()),
            InputToolResult::ApplyFileDiffs(value) => InputToolResultView::ApplyFileDiffs(
                value.deep_view(),
            ),
            InputToolResult::Grep(value) => InputToolResultView::Grep(value.deep_view()),
            InputToolResult::FileGlob(value) => InputToolResultView::FileGlob(value.deep_view()),
            InputToolResult::FileGlobV2(value) => InputToolResultView::FileGlobV2(
                value.deep_view(),
            ),
            InputToolResult::ReadMcpResource(value) => InputToolResultView::ReadMcpResource(
                value.deep_view(),
            ),
            InputToolResult::CallMcpTool(value) => InputToolResultView::CallMcpTool(
                value.deep_view(),
            ),
            InputToolResult::Other(value) => InputToolResultView::Other(value.deep_view()),
        }
    }
}

impl Clone for InputToolResult {
    fn clone(&self) -> (copy: Self)
        ensures
            copy.deep_view() == self.deep_view(),
    {
        match self {
            InputToolResult::RunShellCommand(value) => InputToolResult::RunShellCommand(
                value.clone(),
            ),
            InputToolResult::ReadFiles(value) => InputToolResult::ReadFiles(value.clone()),
            InputToolResult::ApplyFileDiffs(value) => InputToolResult::ApplyFileDiffs(
                value.clone(),
            ),
            InputToolResult::Grep(value) => InputToolResult::Grep(value.clone()),
            InputToolResult::FileGlob(value) => InputToolResult::FileGlob(value.clone()),
            InputToolResult::FileGlobV2(value) => InputToolResult::FileGlobV2(value.clone()),
            InputToolResult::ReadMcpResource(value) => InputToolResult::ReadMcpResource(
                value.clone(),
            ),
            InputToolResult::CallMcpTool(value) => InputToolResult::CallMcpTool(value.clone()),
            InputToolResult::Other(value) => InputToolResult::Other(value.clone()),
        }
    }
}

/// The result of a tool call in the message log.
#[derive(Debug, PartialEq, Default)]
pub struct ToolCallResult {
    pub tool_call_id: String,
    pub context: Option<InputContext>,
    pub result: Option<ToolResult>,
}

#[verifier::ext_equal]
pub struct ToolCallResultView {
    pub tool_call_id: Seq<char>,
    pub context: Option<InputContextView>,
    pub result: Option<ToolResultView>,
}

impl DeepView for ToolCallResult {
    type V = ToolCallResultView;

    open spec fn deep_view(&self) -> ToolCallResultView {
        ToolCallResultView {
            tool_call_id: self.tool_call_id@,
            context: self.context.deep_view(),
            result: self.result.deep_view(),
        }
    }
}

impl Clone for ToolCallResult {
    fn clone(&self) -> (copy: Self)
        ensures
            copy.deep_view() == self.deep_view(),
    {
        ToolCallResult {
            tool_call_id: self.tool_call_id.clone(),
            context: self.context.clone(),
            result: self.result.clone(),
        }
    }
}

/// The result of a tool call as it comes in with a request.
#[derive(Debug, PartialEq, Default)]
pub struct InputToolCallResult {
    pub tool_call_id: String,
    pub result: Option<InputToolResult>,
}

#[verifier::ext_equal]
pub struct InputToolCallResultView {
    pub tool_call_id: Seq<char>,
    pub result: Option<InputToolResultView>,
}

impl DeepView for InputToolCallResult {
    type V = InputToolCallResultView;

    open spec fn deep_view(&self) -> InputToolCallResultView {
        InputToolCallResultView {
            tool_call_id: self.tool_call_id@,
            result: self.result.deep_view(),
        }
    }
}

impl Clone for InputToolCallResult {
    fn clone(&self) -> (copy: Self)
        ensures
            copy.deep_view() == self.deep_view(),
    {
        InputToolCallResult {
            tool_call_id: self.tool_call_id.clone(),
            result: self.result.clone(),
        }
    }
}

} // verus!

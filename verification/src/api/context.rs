//! What the user's machine looks like when a request is made, and the pieces of
//! files and commands that messages carry.

use vstd::prelude::*;


verus! {

/// Fields of a message that the loop hands on without reading them, in their encoded form.
#[derive(Debug, PartialEq, Default)]
pub struct Opaque {
    pub bytes: Vec<u8>,
}

#[verifier::ext_equal]
pub struct OpaqueView {
    pub bytes: Seq<u8>,
}

impl DeepView for Opaque {
    type V = OpaqueView;

    open spec fn deep_view(&self) -> OpaqueView {
        OpaqueView {
            bytes: self.bytes.deep_view(),
        }
    }
}

impl Clone for Opaque {
    fn clone(&self) -> (copy: Self)
        ensures
            copy.deep_view() == self.deep_view(),
    {
        let copy = Opaque {
            bytes: self.bytes.clone(),
        };
        assert(copy.bytes.deep_view() =~= self.bytes.deep_view());
        copy
    }
}

/// A value that the loop only shows, by its printed form.
#[derive(Debug, PartialEq, Default)]
pub struct Dump {
    pub text: String,
}

#[verifier::ext_equal]
pub struct DumpView {
    pub text: Seq<char>,
}

impl DeepView for Dump {
    type V = DumpView;

    open spec fn deep_view(&self) -> DumpView {
        DumpView {
            text: self.text@,
        }
    }
}

impl Clone for Dump {
    fn clone(&self) -> (copy: Self)
        ensures
            copy.deep_view() == self.deep_view(),
    {
        Dump {
            text: self.text.clone(),
        }
    }
}

/// A point in time, as seconds since the epoch and nanoseconds on top.
#[derive(Debug, PartialEq, Default)]
pub struct Timestamp {
    pub seconds: i64,
    pub nanos: i32,
}

#[verifier::ext_equal]
pub struct TimestampView {
    pub seconds: i64,
    pub nanos: i32,
}

impl DeepView for Timestamp {
    type V = TimestampView;

    open spec fn deep_view(&self) -> TimestampView {
        TimestampView {
            seconds: self.seconds,
            nanos: self.nanos,
        }
    }
}

impl Clone for Timestamp {
    fn clone(&self) -> (copy: Self)
        ensures
            copy.deep_view() == self.deep_view(),
    {
        Timestamp {
            seconds: self.seconds,
            nanos: self.nanos,
        }
    }
}

/// The directories that a request was made in.
#[derive(Debug, PartialEq, Default)]
pub struct Directory {
    pub pwd: String,
    pub home: String,
}

#[verifier::ext_equal]
pub struct DirectoryView {
    pub pwd: Seq<char>,
    pub home: Seq<char>,
}

impl DeepView for Directory {
    type V = DirectoryView;

    open spec fn deep_view(&self) -> DirectoryView {
        DirectoryView {
            pwd: self.pwd@,
            home: self.home@,
        }
    }
}

impl Clone for Directory {
    fn clone(&self) -> (copy: Self)
        ensures
            copy.deep_view() == self.deep_view(),
    {
        Directory {
            pwd: self.pwd.clone(),
            home: self.home.clone(),
        }
    }
}

/// The user's shell.
#[derive(Debug, PartialEq, Default)]
pub struct Shell {
    pub name: String,
}

#[verifier::ext_equal]
pub struct ShellView {
    pub name: Seq<char>,
}

impl DeepView for Shell {
    type V = ShellView;

    open spec fn deep_view(&self) -> ShellView {
        ShellView {
            name: self.name@,
        }
    }
}

impl Clone for Shell {
    fn clone(&self) -> (copy: Self)
        ensures
            copy.deep_view() == self.deep_view(),
    {
        Shell {
            name: self.name.clone(),
        }
    }
}

/// The user's operating system.
#[derive(Debug, PartialEq, Default)]
pub struct OperatingSystem {
    pub platform: String,
    pub distribution: String,
}

#[verifier::ext_equal]
pub struct OperatingSystemView {
    pub platform: Seq<char>,
    pub distribution: Seq<char>,
}

impl DeepView for OperatingSystem {
    type V = OperatingSystemView;

    open spec fn deep_view(&self) -> OperatingSystemView {
        OperatingSystemView {
            platform: self.platform@,
            distribution: self.distribution@,
        }
    }
}

impl Clone for OperatingSystem {
    fn clone(&self) -> (copy: Self)
        ensures
            copy.deep_view() == self.deep_view(),
    {
        OperatingSystem {
            platform: self.platform.clone(),
            distribution: self.distribution.clone(),
        }
    }
}

/// A git repository.
#[derive(Debug, PartialEq, Default)]
pub struct GitRepository {
    pub owner: String,
    pub name: String,
}

#[verifier::ext_equal]
pub struct GitRepositoryView {
    pub owner: Seq<char>,
    pub name: Seq<char>,
}

impl DeepView for GitRepository {
    type V = GitRepositoryView;

    open spec fn deep_view(&self) -> GitRepositoryView {
        GitRepositoryView {
            owner: self.owner@,
            name: self.name@,
        }
    }
}

impl Clone for GitRepository {
    fn clone(&self) -> (copy: Self)
        ensures
            copy.deep_view() == self.deep_view(),
    {
        GitRepository {
            owner: self.owner.clone(),
            name: self.name.clone(),
        }
    }
}

/// What is checked out.
#[derive(Debug, PartialEq, Default)]
pub struct Git {
    pub branch: String,
    pub repository: Option<GitRepository>,
}

#[verifier::ext_equal]
pub struct GitView {
    pub branch: Seq<char>,
    pub repository: Option<GitRepositoryView>,
}

impl DeepView for Git {
    type V = GitView;

    open spec fn deep_view(&self) -> GitView {
        GitView {
            branch: self.branch@,
            repository: self.repository.deep_view(),
        }
    }
}

impl Clone for Git {
    fn clone(&self) -> (copy: Self)
        ensures
            copy.deep_view() == self.deep_view(),
    {
        Git {
            branch: self.branch.clone(),
            repository: self.repository.clone(),
        }
    }
}

/// A range of lines, 1-based and inclusive.
#[derive(Debug, PartialEq, Default)]
pub struct FileContentLineRange {
    pub start: u32,
    pub end: u32,
}

#[verifier::ext_equal]
pub struct FileContentLineRangeView {
    pub start: u32,
    pub end: u32,
}

impl DeepView for FileContentLineRange {
    type V = FileContentLineRangeView;

    open spec fn deep_view(&self) -> FileContentLineRangeView {
        FileContentLineRangeView {
            start: self.start,
            end: self.end,
        }
    }
}

impl Clone for FileContentLineRange {
    fn clone(&self) -> (copy: Self)
        ensures
            copy.deep_view() == self.deep_view(),
    {
        FileContentLineRange {
            start: self.start,
            end: self.end,
        }
    }
}

/// A text file, or a range of its lines.
#[derive(Debug, PartialEq, Default)]
pub struct FileContent {
    pub file_path: String,
    pub content: String,
    pub line_range: Option<FileContentLineRange>,
}

#[verifier::ext_equal]
pub struct FileContentView {
    pub file_path: Seq<char>,
    pub content: Seq<char>,
    pub line_range: Option<FileContentLineRangeView>,
}

impl DeepView for FileContent {
    type V = FileContentView;

    open spec fn deep_view(&self) -> FileContentView {
        FileContentView {
            file_path: self.file_path@,
            content: self.content@,
            line_range: self.line_range.deep_view(),
        }
    }
}

impl Clone for FileContent {
    fn clone(&self) -> (copy: Self)
        ensures
            copy.deep_view() == self.deep_view(),
    {
        FileContent {
            file_path: self.file_path.clone(),
            content: self.content.clone(),
            line_range: self.line_range.clone(),
        }
    }
}

/// A file that is no text.
#[derive(Debug, PartialEq, Default)]
pub struct BinaryFileContent {
    pub file_path: String,
    pub data: Vec<u8>,
}

#[verifier::ext_equal]
pub struct BinaryFileContentView {
    pub file_path: Seq<char>,
    pub data: Seq<u8>,
}

impl DeepView for BinaryFileContent {
    type V = BinaryFileContentView;

    open spec fn deep_view(&self) -> BinaryFileContentView {
        BinaryFileContentView {
            file_path: self.file_path@,
            data: self.data.deep_view(),
        }
    }
}

impl Clone for BinaryFileContent {
    fn clone(&self) -> (copy: Self)
        ensures
            copy.deep_view() == self.deep_view(),
    {
        let copy = BinaryFileContent {
            file_path: self.file_path.clone(),
            data: self.data.clone(),
        };
        assert(copy.data.deep_view() =~= self.data.deep_view());
        copy
    }
}

/// The content of a file of either kind.
#[derive(Debug, PartialEq)]
pub enum AnyFileContentKind {
    TextContent(FileContent),
    BinaryContent(BinaryFileContent),
}

#[verifier::ext_equal]
pub enum AnyFileContentKindView {
    TextContent(FileContentView),
    BinaryContent(BinaryFileContentView),
}

impl DeepView for AnyFileContentKind {
    type V = AnyFileContentKindView;

    open spec fn deep_view(&self) -> AnyFileContentKindView {
        match self {
            AnyFileContentKind::TextContent(value) => AnyFileContentKindView::TextContent(
                value.deep_view(),
            ),
            AnyFileContentKind::BinaryContent(value) => AnyFileContentKindView::BinaryContent(
                value.deep_view(),
            ),
        }
    }
}

impl Clone for AnyFileContentKind {
    fn clone(&self) -> (copy: Self)
        ensures
            copy.deep_view() == self.deep_view(),
    {
        match self {
            AnyFileContentKind::TextContent(value) => AnyFileContentKind::TextContent(
                value.clone(),
            ),
            AnyFileContentKind::BinaryContent(value) => AnyFileContentKind::BinaryContent(
                value.clone(),
            ),
        }
    }
}

/// A file of either kind.
#[derive(Debug, PartialEq, Default)]
pub struct AnyFileContent {
    pub content: Option<AnyFileContentKind>,
}

#[verifier::ext_equal]
pub struct AnyFileContentView {
    pub content: Option<AnyFileContentKindView>,
}

impl DeepView for AnyFileContent {
    type V = AnyFileContentView;

    open spec fn deep_view(&self) -> AnyFileContentView {
        AnyFileContentView {
            content: self.content.deep_view(),
        }
    }
}

impl Clone for AnyFileContent {
    fn clone(&self) -> (copy: Self)
        ensures
            copy.deep_view() == self.deep_view(),
    {
        AnyFileContent {
            content: self.content.clone(),
        }
    }
}

/// The rule files that hold for a project.
#[derive(Debug, PartialEq, Default)]
pub struct ProjectRules {
    pub active_rule_files: Vec<FileContent>,
}

#[verifier::ext_equal]
pub struct ProjectRulesView {
    pub active_rule_files: Seq<FileContentView>,
}

impl DeepView for ProjectRules {
    type V = ProjectRulesView;

    open spec fn deep_view(&self) -> ProjectRulesView {
        ProjectRulesView {
            active_rule_files: self.active_rule_files.deep_view(),
        }
    }
}

impl Clone for ProjectRules {
    fn clone(&self) -> (copy: Self)
        ensures
            copy.deep_view() == self.deep_view(),
    {
        let copy = ProjectRules {
            active_rule_files: self.active_rule_files.clone(),
        };
        assert(copy.active_rule_files.deep_view() =~= self.active_rule_files.deep_view());
        copy
    }
}

/// The environment that a request was made in.
#[derive(Debug, PartialEq, Default)]
pub struct InputContext {
    pub directory: Option<Directory>,
    pub shell: Option<Shell>,
    pub operating_system: Option<OperatingSystem>,
    pub git: Option<Git>,
    pub current_time: Option<Timestamp>,
    pub project_rules: Vec<ProjectRules>,
    pub rest: Opaque,
}

#[verifier::ext_equal]
pub struct InputContextView {
    pub directory: Option<DirectoryView>,
    pub shell: Option<ShellView>,
    pub operating_system: Option<OperatingSystemView>,
    pub git: Option<GitView>,
    pub current_time: Option<TimestampView>,
    pub project_rules: Seq<ProjectRulesView>,
    pub rest: OpaqueView,
}

impl DeepView for InputContext {
    type V = InputContextView;

    open spec fn deep_view(&self) -> InputContextView {
        InputContextView {
            directory: self.directory.deep_view(),
            shell: self.shell.deep_view(),
            operating_system: self.operating_system.deep_view(),
            git: self.git.deep_view(),
            current_time: self.current_time.deep_view(),
            project_rules: self.project_rules.deep_view(),
            rest: self.rest.deep_view(),
        }
    }
}

impl Clone for InputContext {
    fn clone(&self) -> (copy: Self)
        ensures
            copy.deep_view() == self.deep_view(),
    {
        let copy = InputContext {
            directory: self.directory.clone(),
            shell: self.shell.clone(),
            operating_system: self.operating_system.clone(),
            git: self.git.clone(),
            current_time: self.current_time.clone(),
            project_rules: self.project_rules.clone(),
            rest: self.rest.clone(),
        };
        assert(copy.project_rules.deep_view() =~= self.project_rules.deep_view());
        copy
    }
}

/// A command that ran in the terminal, and what came of it.
#[derive(Debug, PartialEq, Default)]
pub struct ExecutedShellCommand {
    pub command: String,
    pub output: String,
    pub exit_code: i32,
    pub rest: Opaque,
}

#[verifier::ext_equal]
pub struct ExecutedShellCommandView {
    pub command: Seq<char>,
    pub output: Seq<char>,
    pub exit_code: i32,
    pub rest: OpaqueView,
}

impl DeepView for ExecutedShellCommand {
    type V = ExecutedShellCommandView;

    open spec fn deep_view(&self) -> ExecutedShellCommandView {
        ExecutedShellCommandView {
            command: self.command@,
            output: self.output@,
            exit_code: self.exit_code,
            rest: self.rest.deep_view(),
        }
    }
}

impl Clone for ExecutedShellCommand {
    fn clone(&self) -> (copy: Self)
        ensures
            copy.deep_view() == self.deep_view(),
    {
        ExecutedShellCommand {
            command: self.command.clone(),
            output: self.output.clone(),
            exit_code: self.exit_code,
            rest: self.rest.clone(),
        }
    }
}

/// No fields at all.
pub open spec fn nothing() -> OpaqueView {
    OpaqueView { bytes: Seq::empty() }
}

impl Opaque {
    /// No fields at all.
    pub fn nothing() -> (empty: Self)
        ensures
            empty.deep_view() == nothing(),
    {
        let empty = Opaque { bytes: Vec::new() };
        assert(empty.bytes.deep_view() =~= Seq::empty());
        empty
    }
}

} // verus!

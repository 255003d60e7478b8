//! The course of one build or format request, as a protocol between this
//! library and the driver that owns the file system and the processes.
//!
//! A request that passes validation gets a workspace of its own. The driver
//! creates it, runs the toolchain on it, reads the formatted files back where
//! that is asked for, and removes it; after each step it reports, and is told
//! what comes next. The reply is released only once the workspace is gone.

use crate::code::{BuildResult, BuildResultView, BuildType, Code, CodeView};
use crate::errors::{ApiError, ApiErrorView};
use crate::sandboxed::{SandboxOutcome, SandboxResult, SandboxResultView};
use crate::text::texts_view;
use crate::toolchain::{
    network_or_default, Network, ToolchainConfig, ToolchainConfigView, CACHE_WARMUP_TIMEOUT,
    DEFAULT_FORMAT_TIMEOUT, DEFAULT_TIMEOUT, FORMATTER_BINARY, PRETTIER_DEFAULT_CONFIG,
};
use crate::workspace::{
    files_view, paths_view, read_back_mismatch_message, style_file, style_path, Folder,
    WorkspaceFile, WorkspaceFileView, WorkspacePath, WorkspacePathView, STYLE_FILE,
};
use vstd::prelude::*;
use vstd::string::*;

verus! {

/// What a run that the deadline cut short reports in place of its error
/// output.
pub const TIMEOUT_MESSAGE: &'static str =
    "Request has timed out. Please try again with a smaller project.";

/// One argument of an invocation: a literal text, or a place in the
/// workspace, which the driver replaces by its path.
#[derive(Debug, PartialEq, Eq)]
pub enum Argument {
    Text(String),
    Dir(Folder),
    File(WorkspacePath),
}

/// The model of [`Argument`]: the same value, with texts and lists as sequences.
pub enum ArgumentView {
    Text(Seq<char>),
    Dir(Folder),
    File(WorkspacePathView),
}

impl View for Argument {
    type V = ArgumentView;

    open spec fn view(&self) -> ArgumentView {
        match self {
            Argument::Text(t) => ArgumentView::Text(t@),
            Argument::Dir(folder) => ArgumentView::Dir(*folder),
            Argument::File(path) => ArgumentView::File(path@),
        }
    }
}

/// A list of arguments, each by its view.
pub open spec fn arguments_view(args: Seq<Argument>) -> Seq<ArgumentView> {
    Seq::new(args.len(), |i: int| args[i]@)
}

/// A program to run on a workspace, its arguments in order, and the
/// seconds it is given.
#[derive(Debug, PartialEq, Eq)]
pub struct SandboxInvocation {
    pub program: String,
    pub args: Vec<Argument>,
    pub timeout_secs: u64,
}

/// The model of [`SandboxInvocation`]: the same value, with texts and lists as sequences.
pub struct SandboxInvocationView {
    pub program: Seq<char>,
    pub args: Seq<ArgumentView>,
    pub timeout_secs: u64,
}

impl View for SandboxInvocation {
    type V = SandboxInvocationView;

    open spec fn view(&self) -> SandboxInvocationView {
        SandboxInvocationView {
            program: self.program@,
            args: arguments_view(self.args@),
            timeout_secs: self.timeout_secs,
        }
    }
}

/// The toolchain subcommand for a build type.
pub open spec fn subcommand(build_type: BuildType) -> Seq<char> {
    match build_type {
        BuildType::Build => "build"@,
        BuildType::Test => "test"@,
    }
}

/// The seconds granted to a toolchain run.
pub open spec fn build_timeout(timeout: Option<u64>) -> u64 {
    match timeout {
        Some(secs) => secs,
        None => DEFAULT_TIMEOUT,
    }
}

/// The toolchain run for a build request: the binary of the network, the
/// subcommand of the build type on the project directory, without fetching
/// dependencies anew.
pub open spec fn build_invocation(
    build_type: BuildType,
    timeout: Option<u64>,
    network: Option<Network>,
    config: ToolchainConfigView,
) -> SandboxInvocationView {
    SandboxInvocationView {
        program: config.binary_name(network_or_default(network)),
        args: seq![
            ArgumentView::Text("move"@),
            ArgumentView::Text(subcommand(build_type)),
            ArgumentView::Text("--path"@),
            ArgumentView::Dir(Folder::Project),
            ArgumentView::Text("--skip-fetch-latest-git-deps"@),
        ],
        timeout_secs: build_timeout(timeout),
    }
}

/// The formatter run: rewrite the sources in place, under the style
/// configuration written into the workspace.
pub open spec fn format_invocation() -> SandboxInvocationView {
    SandboxInvocationView {
        program: FORMATTER_BINARY@,
        args: seq![
            ArgumentView::Text("--config"@),
            ArgumentView::File(style_path()),
            ArgumentView::Text("--write"@),
            ArgumentView::Dir(Folder::Sources),
        ],
        timeout_secs: DEFAULT_FORMAT_TIMEOUT,
    }
}

/// What a request ends with.
#[derive(Debug, PartialEq, Eq)]
pub enum Reply {
    /// The output of the toolchain.
    Built(BuildResult),
    /// The submission as the formatter left it.
    Formatted(Code),
    /// The request failed.
    Failed(ApiError),
}

/// The model of [`Reply`]: the same value, with texts and lists as sequences.
pub enum ReplyView {
    Built(BuildResultView),
    Formatted(CodeView),
    Failed(ApiErrorView),
}

impl View for Reply {
    type V = ReplyView;

    open spec fn view(&self) -> ReplyView {
        match self {
            Reply::Built(result) => ReplyView::Built(result@),
            Reply::Formatted(code) => ReplyView::Formatted(code@),
            Reply::Failed(error) => ReplyView::Failed(error@),
        }
    }
}

/// The reply to a build request, given how the toolchain run ended. Output
/// of a completed run is passed on as it is. A run cut short by the deadline
/// is no failure: its error output is replaced by a fixed message. A
/// toolchain that could not be started is a failure of the service.
pub open spec fn build_reply(result: SandboxResultView) -> ReplyView {
    match result.outcome() {
        SandboxOutcome::Completed => ReplyView::Built(
            BuildResultView { stdout: result.stdout, stderr: result.stderr },
        ),
        SandboxOutcome::TimedOut => ReplyView::Built(
            BuildResultView { stdout: result.stdout, stderr: TIMEOUT_MESSAGE@ },
        ),
        SandboxOutcome::SpawnFailed => ReplyView::Failed(
            ApiErrorView::InternalServerError(result.error->0),
        ),
    }
}

/// The reply to a format request, given the texts read back: the
/// submission with these texts in it, provided there is one text for each of
/// its files.
pub open spec fn format_reply(code: CodeView, contents: Seq<Seq<char>>) -> ReplyView {
    if contents.len() == code.number_of_files() {
        ReplyView::Formatted(code.with_contents(contents))
    } else {
        ReplyView::Failed(
            ApiErrorView::InternalServerError(read_back_mismatch_message()),
        )
    }
}

/// The two kinds of request that need a workspace.
#[derive(Debug, Clone, Copy, PartialEq, Eq, Structural)]
pub enum JobKind {
    Build,
    Format,
}

/// Where a request stands.
#[derive(Debug, PartialEq, Eq)]
pub enum Session {
    /// The driver was told to create the workspace.
    Materializing { code: Code, kind: JobKind, invocation: SandboxInvocation },
    /// The driver was told to run the program.
    Running { code: Code, kind: JobKind },
    /// The driver was told to read the formatted files back.
    Collecting { code: Code },
    /// The driver was told to remove the workspace; the reply waits.
    Removing { reply: Reply },
    /// The reply was handed out, or the request was turned away at once.
    Finished,
}

/// The model of [`Session`]: the same value, with texts and lists as sequences.
pub enum SessionView {
    Materializing { code: CodeView, kind: JobKind, invocation: SandboxInvocationView },
    Running { code: CodeView, kind: JobKind },
    Collecting { code: CodeView },
    Removing { reply: ReplyView },
    Finished,
}

impl View for Session {
    type V = SessionView;

    open spec fn view(&self) -> SessionView {
        match self {
            Session::Materializing { code, kind, invocation } => SessionView::Materializing {
                code: code@,
                kind: *kind,
                invocation: invocation@,
            },
            Session::Running { code, kind } => SessionView::Running { code: code@, kind: *kind },
            Session::Collecting { code } => SessionView::Collecting { code: code@ },
            Session::Removing { reply } => SessionView::Removing { reply: reply@ },
            Session::Finished => SessionView::Finished,
        }
    }
}

/// What the driver reports.
#[derive(Debug, PartialEq, Eq)]
pub enum Event {
    /// The workspace stands, with every file of the layout written.
    Materialized,
    /// The program was run; this is what the run amounts to.
    SandboxReturned(SandboxResult),
    /// The files were read back; their texts, in the order asked for.
    Collected { contents: Vec<String> },
    /// The workspace is gone.
    Removed,
    /// The step could not be carried out.
    Failed { message: String },
}

/// The model of [`Event`]: the same value, with texts and lists as sequences.
pub enum EventView {
    Materialized,
    SandboxReturned(SandboxResultView),
    Collected { contents: Seq<Seq<char>> },
    Removed,
    Failed { message: Seq<char> },
}

impl View for Event {
    type V = EventView;

    open spec fn view(&self) -> EventView {
        match self {
            Event::Materialized => EventView::Materialized,
            Event::SandboxReturned(result) => EventView::SandboxReturned(result@),
            Event::Collected { contents } => EventView::Collected {
                contents: texts_view(contents@),
            },
            Event::Removed => EventView::Removed,
            Event::Failed { message } => EventView::Failed { message: message@ },
        }
    }
}

/// What the driver is to do next.
#[derive(Debug, PartialEq, Eq)]
pub enum Action {
    /// Create a fresh workspace, with its project, sources and tests
    /// directories, and write these files into it.
    Materialize { files: Vec<WorkspaceFile> },
    /// Run this program under the sandbox.
    Run(SandboxInvocation),
    /// Read these files back.
    Collect { paths: Vec<WorkspacePath> },
    /// Remove the workspace and all that is in it.
    Remove,
    /// Answer the request.
    Finish(Reply),
    /// The report does not fit the state of the request; nothing changes.
    Ignore,
}

/// The model of [`Action`]: the same value, with texts and lists as sequences.
pub enum ActionView {
    Materialize { files: Seq<WorkspaceFileView> },
    Run(SandboxInvocationView),
    Collect { paths: Seq<WorkspacePathView> },
    Remove,
    Finish(ReplyView),
    Ignore,
}

impl View for Action {
    type V = ActionView;

    open spec fn view(&self) -> ActionView {
        match self {
            Action::Materialize { files } => ActionView::Materialize { files: files_view(files@) },
            Action::Run(invocation) => ActionView::Run(invocation@),
            Action::Collect { paths } => ActionView::Collect { paths: paths_view(paths@) },
            Action::Remove => ActionView::Remove,
            Action::Finish(reply) => ActionView::Finish(reply@),
            Action::Ignore => ActionView::Ignore,
        }
    }
}

/// The state and the first action of a request for `code`: a submission
/// that fails validation is answered at once; any other gets a workspace
/// with `files` in it, on which `invocation` will run.
pub open spec fn begin(
    code: CodeView,
    kind: JobKind,
    files: Seq<WorkspaceFileView>,
    invocation: SandboxInvocationView,
) -> (SessionView, ActionView) {
    match code.validation_error() {
        Some(message) => (
            SessionView::Finished,
            ActionView::Finish(ReplyView::Failed(ApiErrorView::BadRequest(message))),
        ),
        None => (
            SessionView::Materializing { code, kind, invocation },
            ActionView::Materialize { files },
        ),
    }
}

/// The state and the first action of a build request.
pub open spec fn begin_build(
    code: CodeView,
    build_type: BuildType,
    timeout: Option<u64>,
    network: Option<Network>,
    config: ToolchainConfigView,
) -> (SessionView, ActionView) {
    begin(
        code,
        JobKind::Build,
        code.project_files(),
        build_invocation(build_type, timeout, network, config),
    )
}

/// The state and the first action of a format request.
pub open spec fn begin_format(code: CodeView) -> (SessionView, ActionView) {
    begin(code, JobKind::Format, code.project_files().push(style_file()), format_invocation())
}

/// The failure of a step, as a reply.
pub open spec fn failure(message: Seq<char>) -> ReplyView {
    ReplyView::Failed(ApiErrorView::InternalServerError(message))
}

impl SessionView {
    /// The state after `event`, and what the driver is told.
    ///
    /// A failed step leads to the removal of the workspace and then to an
    /// error reply. The toolchain's result decides the reply to a build. The
    /// formatter's result decides nothing: however its run ended, the files
    /// are read back and returned as they are found, formatted or not.
    pub open spec fn step(self, event: EventView) -> (SessionView, ActionView) {
        match (self, event) {
            (SessionView::Materializing { code, kind, invocation }, EventView::Materialized) => (
                SessionView::Running { code, kind },
                ActionView::Run(invocation),
            ),
            (SessionView::Materializing { .. }, EventView::Failed { message }) => (
                SessionView::Removing { reply: failure(message) },
                ActionView::Remove,
            ),
            (SessionView::Running { code, kind }, EventView::SandboxReturned(result)) => match kind {
                JobKind::Build => (
                    SessionView::Removing { reply: build_reply(result) },
                    ActionView::Remove,
                ),
                JobKind::Format => (
                    SessionView::Collecting { code },
                    ActionView::Collect { paths: code.formatted_paths() },
                ),
            },
            (SessionView::Running { .. }, EventView::Failed { message }) => (
                SessionView::Removing { reply: failure(message) },
                ActionView::Remove,
            ),
            (SessionView::Collecting { code }, EventView::Collected { contents }) => (
                SessionView::Removing { reply: format_reply(code, contents) },
                ActionView::Remove,
            ),
            (SessionView::Collecting { .. }, EventView::Failed { message }) => (
                SessionView::Removing { reply: failure(message) },
                ActionView::Remove,
            ),
            (SessionView::Removing { reply }, EventView::Removed) => (
                SessionView::Finished,
                ActionView::Finish(reply),
            ),
            (SessionView::Removing { reply }, EventView::Failed { .. }) => (
                SessionView::Finished,
                ActionView::Finish(reply),
            ),
            _ => (self, ActionView::Ignore),
        }
    }

    /// What holds of every state that a request can reach: work is done
    /// for accepted submissions only.
    pub open spec fn reachable(self) -> bool {
        match self {
            SessionView::Materializing { code, .. } => code.accepted(),
            SessionView::Running { code, .. } => code.accepted(),
            SessionView::Collecting { code } => code.accepted(),
            SessionView::Removing { .. } => true,
            SessionView::Finished => true,
        }
    }
}

/// Makes the reply to a build request of the result of the toolchain run.
pub fn build_reply_of(result: SandboxResult) -> (reply: Reply)
    ensures
        reply@ == build_reply(result@),
{
    if result.timed_out {
        Reply::Built(
            BuildResult { stdout: result.stdout, stderr: String::from_str(TIMEOUT_MESSAGE) },
        )
    } else {
        match result.error {
            Some(message) => Reply::Failed(ApiError::InternalServerError(message)),
            None => Reply::Built(BuildResult { stdout: result.stdout, stderr: result.stderr }),
        }
    }
}

/// Makes the reply to a format request of the texts read back.
pub fn format_reply_of(code: &Code, contents: &Vec<String>) -> (reply: Reply)
    ensures
        reply@ == format_reply(code@, texts_view(contents@)),
{
    match code.read_formatted_files(contents) {
        Ok(formatted) => Reply::Formatted(formatted),
        Err(error) => Reply::Failed(error),
    }
}

/// Makes an error reply of the message of a failed step.
fn failure_of(message: String) -> (reply: Reply)
    ensures
        reply@ == failure(message@),
{
    Reply::Failed(ApiError::InternalServerError(message))
}

/// Validates the submission and, if it passes, asks for its workspace.
fn begin_with(code: Code, kind: JobKind, files: Vec<WorkspaceFile>, invocation: SandboxInvocation) -> (begun: (
    Session,
    Action,
))
    ensures
        (begun.0@, begun.1@) == begin(code@, kind, files_view(files@), invocation@),
{
    match code.validate_file_names() {
        Err(error) => (Session::Finished, Action::Finish(Reply::Failed(error))),
        Ok(()) => (Session::Materializing { code, kind, invocation }, Action::Materialize { files }),
    }
}

/// A literal argument.
fn text_argument(text: &str) -> (arg: Argument)
    ensures
        arg@ == ArgumentView::Text(text@),
{
    Argument::Text(String::from_str(text))
}

impl Code {
    /// Begins a build or test of this submission with the toolchain of
    /// `network`, Mainnet where none is named, under a deadline of `timeout`
    /// seconds, the default where none is given.
    pub fn build(
        self,
        build_type: BuildType,
        timeout: Option<u64>,
        network: Option<Network>,
        config: &ToolchainConfig,
    ) -> (begun: (Session, Action))
        ensures
            (begun.0@, begun.1@) == begin_build(self@, build_type, timeout, network, config@),
    {
        let program = match network {
            Some(n) => n.binary_name(config),
            None => Network::Mainnet.binary_name(config),
        };
        let verb = match build_type {
            BuildType::Build => "build",
            BuildType::Test => "test",
        };
        let mut args: Vec<Argument> = Vec::new();
        args.push(text_argument("move"));
        args.push(text_argument(verb));
        args.push(text_argument("--path"));
        args.push(Argument::Dir(Folder::Project));
        args.push(text_argument("--skip-fetch-latest-git-deps"));
        let timeout_secs = match timeout {
            Some(secs) => secs,
            None => DEFAULT_TIMEOUT,
        };
        let invocation = SandboxInvocation { program, args, timeout_secs };
        assert(invocation@.args =~= build_invocation(build_type, timeout, network, config@).args);
        let files = self.project_files();
        begin_with(self, JobKind::Build, files, invocation)
    }

    /// Begins a formatting of this submission.
    pub fn format(self) -> (begun: (Session, Action))
        ensures
            (begun.0@, begun.1@) == begin_format(self@),
    {
        let mut args: Vec<Argument> = Vec::new();
        args.push(text_argument("--config"));
        args.push(
            Argument::File(
                WorkspacePath { folder: Folder::Root, file_name: String::from_str(STYLE_FILE) },
            ),
        );
        args.push(text_argument("--write"));
        args.push(Argument::Dir(Folder::Sources));
        let invocation = SandboxInvocation {
            program: String::from_str(FORMATTER_BINARY),
            args,
            timeout_secs: DEFAULT_FORMAT_TIMEOUT,
        };
        assert(invocation@.args =~= format_invocation().args);
        let mut files = self.project_files();
        let ghost project = files_view(files@);
        let style = WorkspaceFile {
            path: WorkspacePath { folder: Folder::Root, file_name: String::from_str(STYLE_FILE) },
            content: String::from_str(PRETTIER_DEFAULT_CONFIG),
        };
        files.push(style);
        assert(files_view(files@) =~= project.push(style_file()));
        begin_with(self, JobKind::Format, files, invocation)
    }
}

impl Session {
    /// Takes the driver's report and says what comes next.
    pub fn step(self, event: Event) -> (next: (Session, Action))
        ensures
            (next.0@, next.1@) == self@.step(event@),
    {
        match self {
            Session::Materializing { code, kind, invocation } => match event {
                Event::Materialized => (Session::Running { code, kind }, Action::Run(invocation)),
                Event::Failed { message } => (
                    Session::Removing { reply: failure_of(message) },
                    Action::Remove,
                ),
                _ => (Session::Materializing { code, kind, invocation }, Action::Ignore),
            },
            Session::Running { code, kind } => match event {
                Event::SandboxReturned(result) => match kind {
                    JobKind::Build => (
                        Session::Removing { reply: build_reply_of(result) },
                        Action::Remove,
                    ),
                    JobKind::Format => {
                        let paths = code.formatted_paths();
                        (Session::Collecting { code }, Action::Collect { paths })
                    },
                },
                Event::Failed { message } => (
                    Session::Removing { reply: failure_of(message) },
                    Action::Remove,
                ),
                _ => (Session::Running { code, kind }, Action::Ignore),
            },
            Session::Collecting { code } => match event {
                Event::Collected { contents } => (
                    Session::Removing { reply: format_reply_of(&code, &contents) },
                    Action::Remove,
                ),
                Event::Failed { message } => (
                    Session::Removing { reply: failure_of(message) },
                    Action::Remove,
                ),
                _ => (Session::Collecting { code }, Action::Ignore),
            },
            Session::Removing { reply } => match event {
                Event::Removed => (Session::Finished, Action::Finish(reply)),
                Event::Failed { message } => (Session::Finished, Action::Finish(reply)),
                _ => (Session::Removing { reply }, Action::Ignore),
            },
            Session::Finished => (Session::Finished, Action::Ignore),
        }
    }
}

/// Begins the run that fills the toolchain's dependency cache before the
/// service takes requests: a test of an empty package, given plenty of
/// time.
pub fn test_and_cache_sui_git_deps(config: &ToolchainConfig) -> (begun: (Session, Action))
    ensures
        (begun.0@, begun.1@) == begin_build(
            CodeView { sources: seq![], tests: seq![], name: "test"@ },
            BuildType::Test,
            Some(CACHE_WARMUP_TIMEOUT),
            None,
            config@,
        ),
{
    let code = Code { sources: Vec::new(), tests: Vec::new(), name: String::from_str("test") };
    assert(code@.sources =~= seq![]);
    assert(code@.tests =~= seq![]);
    code.build(BuildType::Test, Some(CACHE_WARMUP_TIMEOUT), None, config)
}

/// A request to build or test a submission, as it comes in.
#[derive(Debug, PartialEq, Eq)]
pub struct BuildRequest {
    pub code: Code,
    pub build_type: BuildType,
    pub network: Option<Network>,
}

impl BuildRequest {
    /// Begins the build that is asked for, under the default deadline.
    pub fn begin(self, config: &ToolchainConfig) -> (begun: (Session, Action))
        ensures
            (begun.0@, begun.1@) == begin_build(
                self.code@,
                self.build_type,
                None,
                self.network,
                config@,
            ),
    {
        self.code.build(self.build_type, None, self.network, config)
    }
}

} // verus!

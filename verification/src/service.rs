//! The build service: the stages of a build, how a build fails, and the
//! service that lays a build out and starts its machine. The machine decides,
//! step by step, what the build does next; the application performs each
//! action (a file write, a shell command, a message) and hands the outcome
//! back.

use vstd::prelude::*;

use crate::builder::{KernelBuildConfig, KernelBuildConfigView, PackageFormat};
use crate::infra::{
    filesystem_error_message, filesystem_failure_text, io_error_text, spawn_failure_message,
    spawn_failure_text, FileSystem, FileSystemError, ProcessError, ProcessExecutor,
};
use crate::paths::{build_paths, settled_dir, BuildPaths};
use crate::properties::lemma_program_within_root;
use crate::program::{build_program, build_program_for, lemma_program_bounds, package_search_dir};
use crate::run::{
    advance, initial_run, paths_within, run_wf, ActionView, BuildAction, BuildRun, BuildRunView,
    RunPhase,
};

verus! {

/// The stages of a build, in the order in which they run.
#[derive(Debug, Clone, Copy, PartialEq, Eq, Structural)]
pub enum BuildStage {
    PrepareWorkspace,
    ValidateToolchain,
    EnsureSource,
    ConfigureKernel,
    CompileKernel,
    PackageOutput,
    Finalize,
}

impl BuildStage {
    /// The line announcing the stage.
    pub open spec fn label_text(self) -> Seq<char> {
        match self {
            BuildStage::PrepareWorkspace => "Preparing build workspace...\n"@,
            BuildStage::ValidateToolchain => "Validating toolchain and system requirements...\n"@,
            BuildStage::EnsureSource => "Acquiring kernel source tree...\n"@,
            BuildStage::ConfigureKernel => "Configuring kernel profile...\n"@,
            BuildStage::CompileKernel => "Compiling kernel and modules...\n"@,
            BuildStage::PackageOutput => "Packaging build output...\n"@,
            BuildStage::Finalize => "Finalizing build output...\n"@,
        }
    }

    /// The line announcing the stage.
    pub fn label(self) -> (s: &'static str)
        ensures
            s@ == self.label_text(),
    {
        match self {
            BuildStage::PrepareWorkspace => "Preparing build workspace...\n",
            BuildStage::ValidateToolchain => "Validating toolchain and system requirements...\n",
            BuildStage::EnsureSource => "Acquiring kernel source tree...\n",
            BuildStage::ConfigureKernel => "Configuring kernel profile...\n",
            BuildStage::CompileKernel => "Compiling kernel and modules...\n",
            BuildStage::PackageOutput => "Packaging build output...\n",
            BuildStage::Finalize => "Finalizing build output...\n",
        }
    }
}

/// Why a build failed.
#[derive(Debug)]
pub enum BuildError {
    Process(ProcessError),
    Filesystem(FileSystemError),
    CommandFailed(String),
    MissingArtifact(String),
}

/// The abstract content of a [`BuildError`].
pub enum BuildErrorView {
    Process(ProcessError),
    Filesystem(FileSystemError),
    CommandFailed(Seq<char>),
    MissingArtifact(Seq<char>),
}

impl View for BuildError {
    type V = BuildErrorView;

    open spec fn view(&self) -> BuildErrorView {
        match self {
            BuildError::Process(e) => BuildErrorView::Process(*e),
            BuildError::Filesystem(e) => BuildErrorView::Filesystem(*e),
            BuildError::CommandFailed(m) => BuildErrorView::CommandFailed(m@),
            BuildError::MissingArtifact(m) => BuildErrorView::MissingArtifact(m@),
        }
    }
}

/// The message of a build that failed because a command could not be
/// started, whose I/O error reads `io_text`.
pub open spec fn process_error_text(io_text: Seq<char>) -> Seq<char> {
    "Process error: "@ + spawn_failure_text(io_text)
}

/// The message of a build that failed on a file operation whose I/O error
/// reads `io_text`.
pub open spec fn filesystem_build_error_text(io_text: Seq<char>) -> Seq<char> {
    "Filesystem error: "@ + filesystem_failure_text(io_text)
}

/// The message of a build that failed because a command could not be
/// started: `Process error: ` and the spawn failure's message.
pub fn process_error_message(io_text: &str) -> (s: String)
    ensures
        s@ == process_error_text(io_text@),
{
    let mut s = String::from_str("Process error: ");
    let inner = spawn_failure_message(io_text);
    s.append(inner.as_str());
    s
}

/// The message of a build that failed on a file operation: `Filesystem
/// error: ` and the file operation's message.
pub fn filesystem_build_error_message(io_text: &str) -> (s: String)
    ensures
        s@ == filesystem_build_error_text(io_text@),
{
    let mut s = String::from_str("Filesystem error: ");
    let inner = filesystem_error_message(io_text);
    s.append(inner.as_str());
    s
}

impl BuildError {
    /// The error's message. For the process and file system failures it is
    /// [`process_error_message`] or [`filesystem_build_error_message`] of the
    /// I/O error's text.
    pub fn to_string(&self) -> (s: String)
        ensures
            match self {
                BuildError::Process(_) => exists|io_text: Seq<char>| s@ == process_error_text(io_text),
                BuildError::Filesystem(_) => exists|io_text: Seq<char>|
                    s@ == filesystem_build_error_text(io_text),
                BuildError::CommandFailed(m) => s@ == "Command failed: "@ + m@,
                BuildError::MissingArtifact(m) => s@ == "Missing artifact: "@ + m@,
            },
    {
        match self {
            BuildError::Process(ProcessError::Spawn(e)) => {
                let t = io_error_text(e);
                process_error_message(t.as_str())
            },
            BuildError::Filesystem(FileSystemError::Io(e)) => {
                let t = io_error_text(e);
                filesystem_build_error_message(t.as_str())
            },
            BuildError::CommandFailed(m) => {
                let mut s = String::from_str("Command failed: ");
                s.append(m.as_str());
                s
            },
            BuildError::MissingArtifact(m) => {
                let mut s = String::from_str("Missing artifact: ");
                s.append(m.as_str());
                s
            },
        }
    }
}

impl From<ProcessError> for BuildError {
    fn from(value: ProcessError) -> (e: Self) {
        BuildError::Process(value)
    }
}

impl vstd::std_specs::convert::FromSpecImpl<ProcessError> for BuildError {
    open spec fn obeys_from_spec() -> bool {
        true
    }

    open spec fn from_spec(v: ProcessError) -> Self {
        BuildError::Process(v)
    }
}

impl From<FileSystemError> for BuildError {
    fn from(value: FileSystemError) -> (e: Self) {
        BuildError::Filesystem(value)
    }
}

impl vstd::std_specs::convert::FromSpecImpl<FileSystemError> for BuildError {
    open spec fn obeys_from_spec() -> bool {
        true
    }

    open spec fn from_spec(v: FileSystemError) -> Self {
        BuildError::Filesystem(v)
    }
}

/// What the build machine runs a shell script with: `sh -lc <script>`.
pub open spec fn shell_invocation(script: Seq<char>) -> (Seq<char>, Seq<Seq<char>>) {
    ("sh"@, seq!["-lc"@, script])
}

/// The program and the arguments that run `script` in a login shell.
pub fn shell_command_line(script: &str) -> (r: (String, Vec<String>))
    ensures
        (r.0@, r.1@.map_values(|s: String| s@)) == shell_invocation(script@),
{
    let mut args: Vec<String> = Vec::new();
    args.push(String::from_str("-lc"));
    args.push(String::from_str(script));
    let r = (String::from_str("sh"), args);
    assert(r.1@.map_values(|s: String| s@) =~= seq!["-lc"@, script@]);
    r
}

/// Builds kernels: the command runner and file system a build uses, and the
/// directory it works in.
pub struct BuildService<P: ProcessExecutor, F: FileSystem> {
    process: P,
    filesystem: F,
    work_dir: String,
}

impl<P: ProcessExecutor + Default, F: FileSystem + Default> BuildService<P, F> {
    /// A service over the default runner and file system, working in
    /// `build-artifacts`.
    pub fn new() -> (s: Self)
        ensures
            s.work_dir_view() == "build-artifacts"@,
    {
        BuildService {
            process: P::default(),
            filesystem: F::default(),
            work_dir: String::from_str("build-artifacts"),
        }
    }
}

impl<P: ProcessExecutor, F: FileSystem> BuildService<P, F> {
    /// The directory the service builds in.
    pub closed spec fn work_dir_view(&self) -> Seq<char> {
        self.work_dir@
    }

    /// A service over the given runner and file system, working in
    /// `work_dir`.
    pub fn with_infra(process: P, filesystem: F, work_dir: &str) -> (s: Self)
        ensures
            s.work_dir_view() == work_dir@,
            s.process() == process,
            s.filesystem() == filesystem,
    {
        BuildService { process, filesystem, work_dir: String::from_str(work_dir) }
    }

    pub closed spec fn process(&self) -> P {
        self.process
    }

    pub closed spec fn filesystem(&self) -> F {
        self.filesystem
    }

    /// The runner of shell commands.
    pub fn process_executor(&self) -> (p: &P)
        ensures
            *p == self.process(),
    {
        &self.process
    }

    /// The file system the build writes to.
    pub fn file_system(&self) -> (f: &F)
        ensures
            *f == self.filesystem(),
    {
        &self.filesystem
    }

    /// The directory the service builds in.
    pub fn work_dir(&self) -> (w: &str)
        ensures
            w@ == self.work_dir_view(),
    {
        self.work_dir.as_str()
    }

    /// The layout of a build of `config` by this service.
    pub fn paths(&self, config: &KernelBuildConfig) -> (p: BuildPaths)
        ensures
            p@ == build_paths(self.work_dir_view(), config@),
    {
        BuildPaths::new(self.work_dir.as_str(), config)
    }

    /// What starting a build of `c` gives: the machine of the program
    /// [`build_program`] of the configuration laid out under the work
    /// directory, advanced to its first action.
    pub open spec fn build_start(&self, c: KernelBuildConfigView) -> (BuildRunView, ActionView) {
        advance(initial_run(build_program(c, build_paths(self.work_dir_view(), c))), 0)
    }

    /// Starts a build of `config`: returns the running build and its first
    /// action. Every file the program creates or writes lies under the work
    /// directory (and `lemma_step_within` shows that no step leaves it); a
    /// Debian build looks for its packages in the work directory where that
    /// directory needs no trimming.
    pub fn start_build(&self, config: &KernelBuildConfig) -> (res: (BuildRun, BuildAction))
        ensures
            run_wf(res.0@),
            (res.0@, res.1@) == self.build_start(config@),
            paths_within(res.0@.program, self.work_dir_view()),
            config@.package_format == PackageFormat::Debian && settled_dir(self.work_dir_view())
                ==> package_search_dir(build_paths(self.work_dir_view(), config@))
                == self.work_dir_view(),
    {
        let paths = BuildPaths::new(self.work_dir.as_str(), config);
        let program = build_program_for(config, &paths);
        proof {
            lemma_program_within_root(config@, paths@);
        }
        BuildRun::start(program)
    }
}

/// What a build does depends on its service only through the work
/// directory: two services that work in the same directory start the same
/// machine for every configuration, and every later step of that machine
/// (`BuildRun::resume`) depends only on the machine and the outcome handed
/// back. So a service made by `new` builds as one made by `with_infra` with
/// `build-artifacts` as its work directory, whatever runner and file system
/// either holds.
pub proof fn lemma_builds_depend_on_work_dir<P, F, Q, G>(
    s: BuildService<P, F>,
    t: BuildService<Q, G>,
    c: KernelBuildConfigView,
)
    where
        P: ProcessExecutor,
        F: FileSystem,
        Q: ProcessExecutor,
        G: FileSystem,
    requires
        s.work_dir_view() == t.work_dir_view(),
    ensures
        s.build_start(c) == t.build_start(c),
{
}

/// A build's first action creates its work directory.
pub proof fn lemma_build_starts_with_work_dir(c: KernelBuildConfigView, root: Seq<char>)
    ensures
        advance(initial_run(build_program(c, build_paths(root, c))), 0).1 == ActionView::CreateDir(
            root,
        ),
        advance(initial_run(build_program(c, build_paths(root, c))), 0).0.phase == RunPhase::Running,
{
    lemma_program_bounds(c, build_paths(root, c));
}

} // verus!

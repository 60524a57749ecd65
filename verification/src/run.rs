//! The build machine: it steps through a build program, issuing one action
//! at a time and deciding from each outcome what comes next.

use vstd::prelude::*;

use crate::commands::{host_kernel_line, host_kernel_line_text, source_fetch_command, source_fetch_command_text};
use crate::infra::{FileSystemError, ProcessError, ProcessOutput};
use crate::program::{EnvVar, Failure, FailureView, Instr, InstrView, instr_views};
use crate::service::{BuildError, BuildErrorView};
use crate::text::{is_prefix, sh_quoted, shell_quote, trim_text, trimmed};

verus! {

/// The message emitted when the user stops a build.
pub open spec fn stop_message() -> Seq<char> {
    "\n--- Build Stopped by User ---\n"@
}

/// What the application is asked to do next.
#[derive(Debug)]
pub enum BuildAction {
    /// Tell whether the user asked to stop (answer: `Cancelled`).
    CheckCancelled,
    /// Show a message to the user (answer: `Acknowledged`).
    Emit(String),
    /// Create a directory and its parents (answer: `FileSystemResult`).
    CreateDir(String),
    /// Write a text to a file (answer: `FileSystemResult`).
    WriteFile(String, String),
    /// Read an environment variable (answer: `EnvValue`).
    ReadEnv(String),
    /// Run a shell script, as `sh -lc <script>` (answer: `ShellResult`).
    RunShell(String),
    /// Wait a moment (answer: `Acknowledged`).
    Pause,
    /// The build is over, with this outcome.
    Finish(Result<(), BuildError>),
}

pub enum ActionView {
    CheckCancelled,
    Emit(Seq<char>),
    CreateDir(Seq<char>),
    WriteFile(Seq<char>, Seq<char>),
    ReadEnv(Seq<char>),
    RunShell(Seq<char>),
    Pause,
    Finish(Result<(), BuildErrorView>),
}

impl View for BuildAction {
    type V = ActionView;

    open spec fn view(&self) -> ActionView {
        match self {
            BuildAction::CheckCancelled => ActionView::CheckCancelled,
            BuildAction::Emit(t) => ActionView::Emit(t@),
            BuildAction::CreateDir(p) => ActionView::CreateDir(p@),
            BuildAction::WriteFile(p, t) => ActionView::WriteFile(p@, t@),
            BuildAction::ReadEnv(n) => ActionView::ReadEnv(n@),
            BuildAction::RunShell(c) => ActionView::RunShell(c@),
            BuildAction::Pause => ActionView::Pause,
            BuildAction::Finish(r) => ActionView::Finish(
                match r {
                    Ok(_) => Ok(()),
                    Err(e) => Err(e@),
                },
            ),
        }
    }
}

/// The outcome of an action, handed back to the machine.
#[derive(Debug)]
pub enum BuildEvent {
    /// A message was shown, or the pause is over.
    Acknowledged,
    /// Whether the user asked to stop.
    Cancelled(bool),
    /// How a directory creation or file write went.
    FileSystemResult(Result<(), FileSystemError>),
    /// The variable's value; `None` where it is unset or not text.
    EnvValue(Option<String>),
    /// How the shell script went.
    ShellResult(Result<ProcessOutput, ProcessError>),
}

/// Where a build stands.
#[derive(Debug, Clone, Copy, PartialEq, Eq, Structural)]
pub enum RunPhase {
    /// Waiting for the outcome of the current instruction's action.
    Running,
    /// The stop message was emitted; waiting for it to be shown.
    Stopping,
    /// The build is over.
    Finished,
}

/// The abstract state of a [`BuildRun`].
pub struct BuildRunView {
    pub program: Seq<InstrView>,
    pub pc: int,
    pub phase: RunPhase,
    pub repo: Seq<char>,
    pub reference: Seq<char>,
    pub last_stdout: Seq<char>,
}

/// A state is well formed when, while running, it waits at an instruction of
/// the program that has an action.
pub open spec fn run_wf(r: BuildRunView) -> bool {
    &&& 0 <= r.pc
    &&& r.phase == RunPhase::Running ==> {
        &&& r.pc < r.program.len()
        &&& !(r.program[r.pc] is RequireOutput)
    }
}

/// The action of an instruction, in state `r`. (An output check has no
/// action of its own: the machine never stops at one.)
pub open spec fn action_of(i: InstrView, r: BuildRunView) -> ActionView {
    match i {
        InstrView::CheckCancel => ActionView::CheckCancelled,
        InstrView::Emit(t) => ActionView::Emit(t),
        InstrView::EmitHostKernel => ActionView::Emit(host_kernel_line(trimmed(r.last_stdout))),
        InstrView::CreateDir(p) => ActionView::CreateDir(p),
        InstrView::WriteFile(p, t) => ActionView::WriteFile(p, t),
        InstrView::WriteOutput(p) => ActionView::WriteFile(p, r.last_stdout),
        InstrView::ReadEnv(v, _) => ActionView::ReadEnv(v.name_text()),
        InstrView::Shell(c, _) => ActionView::RunShell(c),
        InstrView::FetchSource(d) => ActionView::RunShell(
            source_fetch_command(d, sh_quoted(r.reference), sh_quoted(r.repo)),
        ),
        InstrView::RequireOutput(_) => ActionView::Pause,
        InstrView::Pause => ActionView::Pause,
    }
}

/// The state `r` when the build is over.
pub open spec fn finished(r: BuildRunView) -> BuildRunView {
    BuildRunView { phase: RunPhase::Finished, ..r }
}

/// Moves on to instruction `pc`: output checks are made on the way; the run
/// stops at the first instruction with an action, or finishes at the end of
/// the program.
pub open spec fn advance(r: BuildRunView, pc: int) -> (BuildRunView, ActionView)
    decreases r.program.len() - pc,
{
    if pc < 0 || pc >= r.program.len() {
        (finished(r), ActionView::Finish(Ok(())))
    } else {
        match r.program[pc] {
            InstrView::RequireOutput(m) => if trimmed(r.last_stdout).len() == 0 {
                (finished(r), ActionView::Finish(Err(BuildErrorView::MissingArtifact(m))))
            } else {
                advance(r, pc + 1)
            },
            i => (BuildRunView { phase: RunPhase::Running, pc: pc, ..r }, action_of(i, r)),
        }
    }
}

/// How a command that did not succeed is reported, at instruction `i`.
pub open spec fn failure_report(i: InstrView, stderr: Seq<char>) -> Seq<char> {
    match i {
        InstrView::Shell(_, FailureView::Message(m)) => m,
        _ => stderr,
    }
}

/// The state after an environment variable was read at instruction `i`.
pub open spec fn with_env(r: BuildRunView, i: InstrView, v: Option<String>) -> BuildRunView {
    match i {
        InstrView::ReadEnv(var, fallback) => {
            let value = match v {
                Some(s) => s@,
                None => fallback,
            };
            match var {
                EnvVar::KernelRepo => BuildRunView { repo: value, ..r },
                EnvVar::KernelRef => BuildRunView { reference: value, ..r },
            }
        },
        _ => r,
    }
}

/// Whether the machine, in state `r`, waits for an event of the kind of `e`.
pub open spec fn accepts_event(r: BuildRunView, e: BuildEvent) -> bool {
    match r.phase {
        RunPhase::Finished => false,
        RunPhase::Stopping => e is Acknowledged,
        RunPhase::Running => match r.program[r.pc] {
            InstrView::CheckCancel => e is Cancelled,
            InstrView::Emit(_) => e is Acknowledged,
            InstrView::EmitHostKernel => e is Acknowledged,
            InstrView::Pause => e is Acknowledged,
            InstrView::CreateDir(_) => e is FileSystemResult,
            InstrView::WriteFile(_, _) => e is FileSystemResult,
            InstrView::WriteOutput(_) => e is FileSystemResult,
            InstrView::ReadEnv(_, _) => e is EnvValue,
            InstrView::Shell(_, _) => e is ShellResult,
            InstrView::FetchSource(_) => e is ShellResult,
            InstrView::RequireOutput(_) => false,
        },
    }
}

/// The next state and action, from state `r` and the outcome `e` of the
/// current action: a stop request emits the stop message and then ends the
/// build successfully; a failed file operation, a command that could not be
/// started or that did not succeed ends the build with that failure;
/// anything else moves on to the next instruction.
pub open spec fn step(r: BuildRunView, e: BuildEvent) -> (BuildRunView, ActionView) {
    match r.phase {
        RunPhase::Finished => (r, ActionView::Finish(Ok(()))),
        RunPhase::Stopping => (finished(r), ActionView::Finish(Ok(()))),
        RunPhase::Running => {
            let i = r.program[r.pc];
            match e {
                BuildEvent::Cancelled(true) => (
                    BuildRunView { phase: RunPhase::Stopping, ..r },
                    ActionView::Emit(stop_message()),
                ),
                BuildEvent::FileSystemResult(Err(err)) => (
                    finished(r),
                    ActionView::Finish(Err(BuildErrorView::Filesystem(err))),
                ),
                BuildEvent::ShellResult(Err(err)) => (
                    finished(r),
                    ActionView::Finish(Err(BuildErrorView::Process(err))),
                ),
                BuildEvent::ShellResult(Ok(out)) => if !out.success {
                    (
                        finished(r),
                        ActionView::Finish(
                            Err(BuildErrorView::CommandFailed(failure_report(i, out.stderr@))),
                        ),
                    )
                } else {
                    advance(BuildRunView { last_stdout: out.stdout@, ..r }, r.pc + 1)
                },
                BuildEvent::EnvValue(v) => advance(with_env(r, i, v), r.pc + 1),
                _ => advance(r, r.pc + 1),
            }
        },
    }
}

/// The state a build starts from, before its first instruction.
pub open spec fn initial_run(program: Seq<InstrView>) -> BuildRunView {
    BuildRunView {
        program: program,
        pc: 0,
        phase: RunPhase::Running,
        repo: Seq::empty(),
        reference: Seq::empty(),
        last_stdout: Seq::empty(),
    }
}

/// A build in progress.
pub struct BuildRun {
    program: Vec<Instr>,
    pc: usize,
    phase: RunPhase,
    repo: String,
    reference: String,
    last_stdout: String,
}

impl View for BuildRun {
    type V = BuildRunView;

    closed spec fn view(&self) -> BuildRunView {
        BuildRunView {
            program: instr_views(self.program@),
            pc: self.pc as int,
            phase: self.phase,
            repo: self.repo@,
            reference: self.reference@,
            last_stdout: self.last_stdout@,
        }
    }
}

impl BuildRun {
    /// Starts running `program`: returns the run and its first action.
    pub fn start(program: Vec<Instr>) -> (res: (BuildRun, BuildAction))
        ensures
            run_wf(res.0@),
            (res.0@, res.1@) == advance(initial_run(instr_views(program@)), 0),
    {
        let mut run = BuildRun {
            program,
            pc: 0,
            phase: RunPhase::Running,
            repo: String::new(),
            reference: String::new(),
            last_stdout: String::new(),
        };
        assert(run@ == initial_run(instr_views(program@)));
        let action = run.advance_to(0);
        (run, action)
    }

    /// Where the build stands.
    pub fn phase(&self) -> (p: RunPhase)
        ensures
            p == self@.phase,
    {
        self.phase
    }

    /// Whether the build is over.
    pub fn is_finished(&self) -> (b: bool)
        ensures
            b == (self@.phase == RunPhase::Finished),
    {
        self.phase == RunPhase::Finished
    }

    /// Whether `event` is the kind of outcome the current action awaits.
    pub fn accepts(&self, event: &BuildEvent) -> (b: bool)
        requires
            run_wf(self@),
        ensures
            b == accepts_event(self@, *event),
    {
        match self.phase {
            RunPhase::Finished => false,
            RunPhase::Stopping => matches!(event, BuildEvent::Acknowledged),
            RunPhase::Running => match &self.program[self.pc] {
                Instr::CheckCancel => matches!(event, BuildEvent::Cancelled(_)),
                Instr::Emit(_) => matches!(event, BuildEvent::Acknowledged),
                Instr::EmitHostKernel => matches!(event, BuildEvent::Acknowledged),
                Instr::Pause => matches!(event, BuildEvent::Acknowledged),
                Instr::CreateDir(_) => matches!(event, BuildEvent::FileSystemResult(_)),
                Instr::WriteFile(_, _) => matches!(event, BuildEvent::FileSystemResult(_)),
                Instr::WriteOutput(_) => matches!(event, BuildEvent::FileSystemResult(_)),
                Instr::ReadEnv(_, _) => matches!(event, BuildEvent::EnvValue(_)),
                Instr::Shell(_, _) => matches!(event, BuildEvent::ShellResult(_)),
                Instr::FetchSource(_) => matches!(event, BuildEvent::ShellResult(_)),
                Instr::RequireOutput(_) => false,
            },
        }
    }

    /// The action of the instruction at `pc`.
    fn action_at(&self, pc: usize) -> (a: BuildAction)
        requires
            pc < self@.program.len(),
        ensures
            a@ == action_of(self@.program[pc as int], self@),
    {
        match &self.program[pc] {
            Instr::CheckCancel => BuildAction::CheckCancelled,
            Instr::Emit(t) => BuildAction::Emit(t.clone()),
            Instr::EmitHostKernel => {
                let release = trim_text(self.last_stdout.as_str());
                BuildAction::Emit(host_kernel_line_text(release.as_str()))
            },
            Instr::CreateDir(p) => BuildAction::CreateDir(p.clone()),
            Instr::WriteFile(p, t) => BuildAction::WriteFile(p.clone(), t.clone()),
            Instr::WriteOutput(p) => BuildAction::WriteFile(p.clone(), self.last_stdout.clone()),
            Instr::ReadEnv(v, _) => BuildAction::ReadEnv(String::from_str(v.name())),
            Instr::Shell(c, _) => BuildAction::RunShell(c.clone()),
            Instr::FetchSource(d) => {
                let reference = shell_quote(self.reference.as_str());
                let repo = shell_quote(self.repo.as_str());
                BuildAction::RunShell(
                    source_fetch_command_text(d.as_str(), reference.as_str(), repo.as_str()),
                )
            },
            Instr::RequireOutput(_) => BuildAction::Pause,
            Instr::Pause => BuildAction::Pause,
        }
    }

    /// Moves on to instruction `start` (see [`advance`]).
    fn advance_to(&mut self, start: usize) -> (a: BuildAction)
        requires
            start <= old(self)@.program.len(),
        ensures
            run_wf(final(self)@),
            (final(self)@, a@) == advance(old(self)@, start as int),
    {
        let mut pc = start;
        let n = self.program.len();
        while pc < n
            invariant
                n == self@.program.len(),
                start <= pc <= n,
                self@ == old(self)@,
                advance(old(self)@, start as int) == advance(old(self)@, pc as int),
            ensures
                pc <= n,
                self@ == old(self)@,
                advance(old(self)@, start as int) == advance(old(self)@, pc as int),
                pc >= n || !(self@.program[pc as int] is RequireOutput),
            decreases n - pc,
        {
            match &self.program[pc] {
                Instr::RequireOutput(m) => {
                    let out = trim_text(self.last_stdout.as_str());
                    if out.as_str().is_empty() {
                        let message = m.clone();
                        self.phase = RunPhase::Finished;
                        return BuildAction::Finish(Err(BuildError::MissingArtifact(message)));
                    }
                    pc = pc + 1;
                },
                _ => {
                    break;
                },
            }
        }
        if pc >= n {
            self.phase = RunPhase::Finished;
            BuildAction::Finish(Ok(()))
        } else {
            let a = self.action_at(pc);
            self.pc = pc;
            self.phase = RunPhase::Running;
            a
        }
    }

    /// Hands the outcome of the current action to the machine; returns the
    /// next action.
    pub fn resume(&mut self, event: BuildEvent) -> (a: BuildAction)
        requires
            run_wf(old(self)@),
            accepts_event(old(self)@, event),
        ensures
            run_wf(final(self)@),
            (final(self)@, a@) == step(old(self)@, event),
    {
        match self.phase {
            RunPhase::Finished => BuildAction::Finish(Ok(())),
            RunPhase::Stopping => {
                self.phase = RunPhase::Finished;
                BuildAction::Finish(Ok(()))
            },
            RunPhase::Running => {
                assert(instr_views(self.program@).len() == self.program@.len());
                let n = self.program.len();
                assert(self.pc < n);
                let next = self.pc + 1;
                match event {
                    BuildEvent::Cancelled(stop) => {
                        if stop {
                            self.phase = RunPhase::Stopping;
                            BuildAction::Emit(String::from_str("\n--- Build Stopped by User ---\n"))
                        } else {
                            self.advance_to(next)
                        }
                    },
                    BuildEvent::Acknowledged => self.advance_to(next),
                    BuildEvent::FileSystemResult(Ok(())) => self.advance_to(next),
                    BuildEvent::FileSystemResult(Err(err)) => {
                        self.phase = RunPhase::Finished;
                        BuildAction::Finish(Err(BuildError::Filesystem(err)))
                    },
                    BuildEvent::EnvValue(v) => {
                        let mut set_repo = false;
                        let mut set_reference = false;
                        let mut value = String::new();
                        match &self.program[self.pc] {
                            Instr::ReadEnv(var, fallback) => {
                                value = match v {
                                    Some(s) => s,
                                    None => fallback.clone(),
                                };
                                match var {
                                    EnvVar::KernelRepo => {
                                        set_repo = true;
                                    },
                                    EnvVar::KernelRef => {
                                        set_reference = true;
                                    },
                                }
                            },
                            _ => {},
                        }
                        if set_repo {
                            self.repo = value;
                        } else if set_reference {
                            self.reference = value;
                        }
                        self.advance_to(next)
                    },
                    BuildEvent::ShellResult(Err(err)) => {
                        self.phase = RunPhase::Finished;
                        BuildAction::Finish(Err(BuildError::Process(err)))
                    },
                    BuildEvent::ShellResult(Ok(out)) => {
                        if !out.success {
                            let message = match &self.program[self.pc] {
                                Instr::Shell(_, Failure::Message(m)) => m.clone(),
                                _ => out.stderr,
                            };
                            self.phase = RunPhase::Finished;
                            BuildAction::Finish(Err(BuildError::CommandFailed(message)))
                        } else {
                            self.last_stdout = out.stdout;
                            self.advance_to(next)
                        }
                    },
                }
            },
        }
    }
}

/// Moving on keeps the program, yields a well-formed state, and ends the
/// build exactly when its action is `Finish`.
pub proof fn lemma_advance_shape(r: BuildRunView, pc: int)
    requires
        0 <= pc,
    ensures
        advance(r, pc).0.program == r.program,
        run_wf(advance(r, pc).0) || r.pc < 0,
        (advance(r, pc).1 is Finish) <==> advance(r, pc).0.phase == RunPhase::Finished,
        advance(r, pc).0.phase != RunPhase::Stopping,
        advance(r, pc).0.phase == RunPhase::Running ==> advance(r, pc).0.pc >= pc,
        advance(r, pc).1 matches ActionView::Finish(Err(err)) ==> err is MissingArtifact,
    decreases r.program.len() - pc,
{
    if pc < r.program.len() {
        if r.program[pc] is RequireOutput {
            if trimmed(r.last_stdout).len() != 0 {
                lemma_advance_shape(r, pc + 1);
            }
        }
    }
}

/// Whether an outcome reports that the action went well: no stop request,
/// no failed file operation, and a command that started and succeeded.
pub open spec fn succeeded(e: BuildEvent) -> bool {
    match e {
        BuildEvent::Cancelled(stop) => !stop,
        BuildEvent::FileSystemResult(res) => res is Ok,
        BuildEvent::ShellResult(Ok(out)) => out.success,
        BuildEvent::ShellResult(Err(_)) => false,
        _ => true,
    }
}

/// Every step keeps the program and the state well formed, and the build is
/// over exactly when the step's action is `Finish`; a finished build waits
/// for nothing more.
pub proof fn lemma_step_shape(r: BuildRunView, e: BuildEvent)
    requires
        run_wf(r),
        accepts_event(r, e),
    ensures
        step(r, e).0.program == r.program,
        run_wf(step(r, e).0),
        (step(r, e).1 is Finish) <==> step(r, e).0.phase == RunPhase::Finished,
        step(r, e).0.phase == RunPhase::Finished ==> forall|e2: BuildEvent| !accepts_event(step(r, e).0, e2),
{
    if r.phase == RunPhase::Running {
        let i = r.program[r.pc];
        match e {
            BuildEvent::ShellResult(Ok(out)) => {
                if out.success {
                    lemma_advance_shape(BuildRunView { last_stdout: out.stdout@, ..r }, r.pc + 1);
                }
            },
            BuildEvent::EnvValue(v) => {
                lemma_advance_shape(with_env(r, i, v), r.pc + 1);
            },
            BuildEvent::Cancelled(stop) => {
                if !stop {
                    lemma_advance_shape(r, r.pc + 1);
                }
            },
            BuildEvent::FileSystemResult(res) => {
                if res is Ok {
                    lemma_advance_shape(r, r.pc + 1);
                }
            },
            BuildEvent::Acknowledged => {
                lemma_advance_shape(r, r.pc + 1);
            },
            _ => {},
        }
    }
}

/// A failed file operation ends the build with that failure.
pub proof fn lemma_file_failure_ends_build(r: BuildRunView, err: FileSystemError)
    requires
        run_wf(r),
        accepts_event(r, BuildEvent::FileSystemResult(Err(err))),
    ensures
        step(r, BuildEvent::FileSystemResult(Err(err))) == (
            finished(r),
            ActionView::Finish(Err(BuildErrorView::Filesystem(err))),
        ),
{
}

/// A command that could not be started ends the build with that failure.
pub proof fn lemma_spawn_failure_ends_build(r: BuildRunView, err: ProcessError)
    requires
        run_wf(r),
        accepts_event(r, BuildEvent::ShellResult(Err(err))),
    ensures
        step(r, BuildEvent::ShellResult(Err(err))) == (
            finished(r),
            ActionView::Finish(Err(BuildErrorView::Process(err))),
        ),
{
}

/// A command that ran without success ends the build, reported with its
/// standard error, or with the instruction's own message where it has one.
pub proof fn lemma_command_failure_ends_build(r: BuildRunView, out: ProcessOutput)
    requires
        run_wf(r),
        accepts_event(r, BuildEvent::ShellResult(Ok(out))),
        !out.success,
    ensures
        step(r, BuildEvent::ShellResult(Ok(out))) == (
            finished(r),
            ActionView::Finish(
                Err(BuildErrorView::CommandFailed(failure_report(r.program[r.pc], out.stderr@))),
            ),
        ),
        r.program[r.pc] matches InstrView::Shell(_, FailureView::Stderr) ==> failure_report(
            r.program[r.pc],
            out.stderr@,
        ) == out.stderr@,
{
}

/// A stop request emits the stop message; once it is shown, the build ends
/// successfully.
pub proof fn lemma_stop_request_ends_build(r: BuildRunView)
    requires
        run_wf(r),
        accepts_event(r, BuildEvent::Cancelled(true)),
    ensures
        step(r, BuildEvent::Cancelled(true)).1 == ActionView::Emit(stop_message()),
        step(r, BuildEvent::Cancelled(true)).0.phase == RunPhase::Stopping,
        run_wf(step(r, BuildEvent::Cancelled(true)).0),
        accepts_event(step(r, BuildEvent::Cancelled(true)).0, BuildEvent::Acknowledged),
        step(step(r, BuildEvent::Cancelled(true)).0, BuildEvent::Acknowledged).1 == ActionView::Finish(
            Ok(()),
        ),
{
}

/// An action that went well moves the build forward: it stays running at a
/// later instruction, or ends, successfully or for want of a package. It
/// moves on to the very next instruction and performs it unless that one is
/// an output check; after the last instruction the build ends successfully.
pub proof fn lemma_success_moves_on(r: BuildRunView, e: BuildEvent)
    requires
        run_wf(r),
        r.phase == RunPhase::Running,
        accepts_event(r, e),
        succeeded(e),
    ensures
        step(r, e).0.phase == RunPhase::Running ==> step(r, e).0.pc > r.pc,
        step(r, e).0.phase != RunPhase::Stopping,
        step(r, e).1 matches ActionView::Finish(Err(err)) ==> err is MissingArtifact,
        r.pc + 1 == r.program.len() ==> step(r, e) == (
            finished(step(r, e).0),
            ActionView::Finish(Ok(())),
        ),
        r.pc + 1 < r.program.len() && !(r.program[r.pc + 1] is RequireOutput) ==> {
            &&& step(r, e).0.phase == RunPhase::Running
            &&& step(r, e).0.pc == r.pc + 1
            &&& step(r, e).0.program == r.program
            &&& step(r, e).1 == action_of(r.program[r.pc + 1], step(r, e).0)
        },
{
    lemma_step_shape(r, e);
    let i = r.program[r.pc];
    match e {
        BuildEvent::ShellResult(Ok(out)) => {
            lemma_advance_shape(BuildRunView { last_stdout: out.stdout@, ..r }, r.pc + 1);
        },
        BuildEvent::EnvValue(v) => {
            lemma_advance_shape(with_env(r, i, v), r.pc + 1);
        },
        _ => {
            lemma_advance_shape(r, r.pc + 1);
        },
    }
}

/// Moving on stops at an instruction of the program and performs it, in the
/// state it started from; it changes nothing else.
pub proof fn lemma_advance_performs(r: BuildRunView, pc: int)
    requires
        0 <= pc,
    ensures
        advance(r, pc).0 == (BuildRunView {
            phase: advance(r, pc).0.phase,
            pc: advance(r, pc).0.pc,
            ..r
        }),
        advance(r, pc).0.phase == RunPhase::Running ==> {
            &&& 0 <= advance(r, pc).0.pc < r.program.len()
            &&& advance(r, pc).1 == action_of(r.program[advance(r, pc).0.pc], r)
        },
        advance(r, pc).0.phase != RunPhase::Running ==> advance(r, pc).1 is Finish,
    decreases r.program.len() - pc,
{
    lemma_advance_shape(r, pc);
    if pc < r.program.len() {
        if r.program[pc] is RequireOutput {
            if trimmed(r.last_stdout).len() != 0 {
                lemma_advance_performs(r, pc + 1);
            }
        }
    }
}

/// The file an action creates or writes, if it touches one.
pub open spec fn action_path(a: ActionView) -> Option<Seq<char>> {
    match a {
        ActionView::CreateDir(p) => Some(p),
        ActionView::WriteFile(p, _) => Some(p),
        _ => None,
    }
}

/// The file an instruction creates or writes, if it touches one.
pub open spec fn instr_path(i: InstrView) -> Option<Seq<char>> {
    match i {
        InstrView::CreateDir(p) => Some(p),
        InstrView::WriteFile(p, _) => Some(p),
        InstrView::WriteOutput(p) => Some(p),
        _ => None,
    }
}

/// Every file a program touches lies under `root`.
pub open spec fn paths_within(program: Seq<InstrView>, root: Seq<char>) -> bool {
    forall|i: int|
        0 <= i < program.len() ==> (#[trigger] instr_path(program[i]) matches Some(q) ==> is_prefix(
            root,
            q,
        ))
}

proof fn lemma_action_path_of(i: InstrView, r: BuildRunView)
    ensures
        action_path(action_of(i, r)) matches Some(q) ==> instr_path(i) == Some(q),
{
}

/// Moving on through a program whose files all lie under `root` touches
/// only files under `root`.
pub proof fn lemma_advance_within(r: BuildRunView, pc: int, root: Seq<char>)
    requires
        0 <= pc,
        paths_within(r.program, root),
    ensures
        action_path(advance(r, pc).1) matches Some(q) ==> is_prefix(root, q),
{
    lemma_advance_performs(r, pc);
    let (r1, a) = advance(r, pc);
    if r1.phase == RunPhase::Running {
        lemma_action_path_of(r.program[r1.pc], r);
        assert(instr_path(r.program[r1.pc]) matches Some(q) ==> is_prefix(root, q));
    }
}

/// A build whose program touches only files under `root` never creates or
/// writes anything elsewhere: no step does, and every step keeps the
/// program.
pub proof fn lemma_step_within(r: BuildRunView, e: BuildEvent, root: Seq<char>)
    requires
        run_wf(r),
        accepts_event(r, e),
        paths_within(r.program, root),
    ensures
        step(r, e).0.program == r.program,
        action_path(step(r, e).1) matches Some(q) ==> is_prefix(root, q),
{
    lemma_step_shape(r, e);
    if r.phase == RunPhase::Running {
        let i = r.program[r.pc];
        match e {
            BuildEvent::ShellResult(Ok(out)) => {
                if out.success {
                    lemma_advance_within(BuildRunView { last_stdout: out.stdout@, ..r }, r.pc + 1, root);
                }
            },
            BuildEvent::EnvValue(v) => {
                lemma_advance_within(with_env(r, i, v), r.pc + 1, root);
            },
            BuildEvent::Cancelled(stop) => {
                if !stop {
                    lemma_advance_within(r, r.pc + 1, root);
                }
            },
            BuildEvent::FileSystemResult(res) => {
                if res is Ok {
                    lemma_advance_within(r, r.pc + 1, root);
                }
            },
            BuildEvent::Acknowledged => {
                lemma_advance_within(r, r.pc + 1, root);
            },
            _ => {},
        }
    }
}

} // verus!

//! The program a build runs: the instructions of each stage, in order, as a
//! list the build machine steps through.

use vstd::prelude::*;

use crate::builder::{KernelBuildConfig, KernelBuildConfigView, PackageFormat};
use crate::commands::{
    archive_command, archive_command_text, artifact_line, artifact_line_text,
    compile_debian_command, compile_debian_command_text, compile_modules_command,
    compile_modules_command_text, configure_command, configure_command_text, cpu_count_expression,
    cpu_count_shell, kernel_config_commands, kernel_config_lines, locate_packages_command,
    locate_packages_command_text, manifest, manifest_line, manifest_line_text, manifest_text,
    missing_tool_message, missing_tool_message_text, snapshot_line, snapshot_line_text,
    tool_check_command, tool_check_command_text,
};
use crate::paths::{
    child_path, normal_child_of, parent_path, path_parent, settled_dir, BuildPaths, BuildPathsView,
};
use crate::service::BuildStage;
use crate::text::{debug_list, debug_list_text, decimal, decimal_string, join_strings, joined, sh_quoted, shell_quote};

verus! {

/// The repository the kernel source is cloned from unless the environment
/// names another.
pub open spec fn default_kernel_repo() -> Seq<char> {
    "https://git.kernel.org/pub/scm/linux/kernel/git/stable/linux.git"@
}

/// The message emitted when a build has completed.
pub open spec fn success_message() -> Seq<char> {
    "SUCCESS! Kernel build pipeline completed in Rust.\n"@
}

/// The text of the status file written at the end of a build.
pub open spec fn status_text() -> Seq<char> {
    "Build completed successfully.\n"@
}

/// The failure reported when no Debian package was produced.
pub open spec fn missing_package_message() -> Seq<char> {
    "Debian package was not generated by bindeb-pkg"@
}

/// The environment variables a build reads.
#[derive(Debug, Clone, Copy, PartialEq, Eq, Structural)]
pub enum EnvVar {
    /// `VINMOD_KERNEL_REPO`: the repository to clone.
    KernelRepo,
    /// `VINMOD_KERNEL_REF`: the tag or branch to check out.
    KernelRef,
}

impl EnvVar {
    pub open spec fn name_text(self) -> Seq<char> {
        match self {
            EnvVar::KernelRepo => "VINMOD_KERNEL_REPO"@,
            EnvVar::KernelRef => "VINMOD_KERNEL_REF"@,
        }
    }

    /// The variable's name in the environment.
    pub fn name(self) -> (s: &'static str)
        ensures
            s@ == self.name_text(),
    {
        match self {
            EnvVar::KernelRepo => "VINMOD_KERNEL_REPO",
            EnvVar::KernelRef => "VINMOD_KERNEL_REF",
        }
    }
}

/// How a command that ran but did not succeed is reported.
pub enum Failure {
    /// With what the command wrote to its standard error.
    Stderr,
    /// With a fixed message.
    Message(String),
}

pub enum FailureView {
    Stderr,
    Message(Seq<char>),
}

impl View for Failure {
    type V = FailureView;

    open spec fn view(&self) -> FailureView {
        match self {
            Failure::Stderr => FailureView::Stderr,
            Failure::Message(m) => FailureView::Message(m@),
        }
    }
}

/// One instruction of a build program.
pub enum Instr {
    /// Ask whether the user stopped the build.
    CheckCancel,
    /// Emit a message.
    Emit(String),
    /// Emit the host kernel line, from the output of the last command.
    EmitHostKernel,
    /// Create a directory and its parents.
    CreateDir(String),
    /// Write a text to a file.
    WriteFile(String, String),
    /// Write the output of the last command to a file.
    WriteOutput(String),
    /// Read an environment variable, with the value to use where it is unset.
    ReadEnv(EnvVar, String),
    /// Run a shell script; how a failure of it is reported.
    Shell(String, Failure),
    /// Run the script that fetches the source tree into the (quoted)
    /// directory, from the repository and reference read before.
    FetchSource(String),
    /// Fail with the message unless the last command printed something.
    RequireOutput(String),
    /// Wait a moment between stages.
    Pause,
}

pub enum InstrView {
    CheckCancel,
    Emit(Seq<char>),
    EmitHostKernel,
    CreateDir(Seq<char>),
    WriteFile(Seq<char>, Seq<char>),
    WriteOutput(Seq<char>),
    ReadEnv(EnvVar, Seq<char>),
    Shell(Seq<char>, FailureView),
    FetchSource(Seq<char>),
    RequireOutput(Seq<char>),
    Pause,
}

impl View for Instr {
    type V = InstrView;

    open spec fn view(&self) -> InstrView {
        match self {
            Instr::CheckCancel => InstrView::CheckCancel,
            Instr::Emit(t) => InstrView::Emit(t@),
            Instr::EmitHostKernel => InstrView::EmitHostKernel,
            Instr::CreateDir(p) => InstrView::CreateDir(p@),
            Instr::WriteFile(p, t) => InstrView::WriteFile(p@, t@),
            Instr::WriteOutput(p) => InstrView::WriteOutput(p@),
            Instr::ReadEnv(v, d) => InstrView::ReadEnv(*v, d@),
            Instr::Shell(c, f) => InstrView::Shell(c@, f@),
            Instr::FetchSource(d) => InstrView::FetchSource(d@),
            Instr::RequireOutput(m) => InstrView::RequireOutput(m@),
            Instr::Pause => InstrView::Pause,
        }
    }
}

/// The views of a list of instructions.
pub open spec fn instr_views(v: Seq<Instr>) -> Seq<InstrView> {
    v.map_values(|i: Instr| i@)
}

proof fn lemma_instr_views_add(a: Seq<Instr>, b: Seq<Instr>)
    ensures
        instr_views(a + b) == instr_views(a) + instr_views(b),
{
    assert(instr_views(a + b) =~= instr_views(a) + instr_views(b));
}

/// Appends the instructions of `block` to `program`.
fn push_block(program: &mut Vec<Instr>, block: Vec<Instr>)
    ensures
        instr_views(final(program)@) == instr_views(old(program)@) + instr_views(block@),
{
    let mut block = block;
    let ghost b = block@;
    program.append(&mut block);
    proof {
        lemma_instr_views_add(old(program)@, b);
    }
}

/// The instructions of a stage: a cancellation check, the stage's label, the
/// stage's own work, and a pause.
pub open spec fn stage_block(stage: BuildStage, work: Seq<InstrView>) -> Seq<InstrView> {
    seq![InstrView::CheckCancel, InstrView::Emit(stage.label_text())] + work + seq![InstrView::Pause]
}

fn stage_block_exec(stage: BuildStage, work: Vec<Instr>) -> (b: Vec<Instr>)
    ensures
        instr_views(b@) == stage_block(stage, instr_views(work@)),
{
    let mut b: Vec<Instr> = Vec::new();
    b.push(Instr::CheckCancel);
    b.push(Instr::Emit(String::from_str(stage.label())));
    let ghost head = b@;
    assert(instr_views(head) =~= seq![InstrView::CheckCancel, InstrView::Emit(stage.label_text())]);
    push_block(&mut b, work);
    let mut tail: Vec<Instr> = Vec::new();
    tail.push(Instr::Pause);
    assert(instr_views(tail@) =~= seq![InstrView::Pause]);
    push_block(&mut b, tail);
    b
}

/// The directories made ready before anything is fetched.
pub open spec fn prepare_work(p: BuildPathsView) -> Seq<InstrView> {
    seq![
        InstrView::CreateDir(p.bundle_dir),
        InstrView::CreateDir(p.package_root),
        InstrView::CreateDir(p.source_dir),
    ]
}

/// The tools a build needs, in the order they are checked.
pub open spec fn required_tools() -> Seq<Seq<char>> {
    seq!["git"@, "gcc"@, "make"@, "tar"@, "bc"@, "flex"@, "bison"@, "perl"@, "find"@]
}

/// The instruction that tests whether one tool is installed.
pub open spec fn tool_check(tool: Seq<char>) -> InstrView {
    InstrView::Shell(tool_check_command(tool), FailureView::Message(missing_tool_message(tool)))
}

/// One check per required tool, in order.
pub open spec fn toolchain_work() -> Seq<InstrView> {
    required_tools().map_values(|t: Seq<char>| tool_check(t))
}

/// Reading the source location from the environment, then fetching the tree.
pub open spec fn source_work(c: KernelBuildConfigView, p: BuildPathsView) -> Seq<InstrView> {
    seq![
        InstrView::ReadEnv(EnvVar::KernelRepo, default_kernel_repo()),
        InstrView::ReadEnv(EnvVar::KernelRef, "v"@ + c.kernel_version),
        InstrView::FetchSource(sh_quoted(p.source_dir)),
    ]
}

/// The kernel configuration lines as one text, a line each.
pub open spec fn config_fragment(c: KernelBuildConfigView) -> Seq<char> {
    joined(kernel_config_lines(c), "\n"@)
}

/// Writing the configuration fragment, then configuring the kernel with it.
pub open spec fn configure_work(c: KernelBuildConfigView, p: BuildPathsView) -> Seq<InstrView> {
    seq![
        InstrView::WriteFile(p.config_fragment_path, config_fragment(c)),
        InstrView::Shell(
            configure_command(sh_quoted(p.source_dir), config_fragment(c)),
            FailureView::Stderr,
        ),
    ]
}

/// The compile script for a package format.
pub open spec fn compile_script(c: KernelBuildConfigView, p: BuildPathsView) -> Seq<char> {
    match c.package_format {
        PackageFormat::Debian => compile_debian_command(sh_quoted(p.source_dir), cpu_count_expression()),
        _ => compile_modules_command(
            sh_quoted(p.source_dir),
            cpu_count_expression(),
            sh_quoted(p.package_root),
        ),
    }
}

pub open spec fn compile_work(c: KernelBuildConfigView, p: BuildPathsView) -> Seq<InstrView> {
    seq![InstrView::Shell(compile_script(c, p), FailureView::Stderr)]
}

/// Where Debian packages are looked for: the directory above the source
/// tree, or the work directory where the source tree has none.
pub open spec fn package_search_dir(p: BuildPathsView) -> Seq<char> {
    match path_parent(p.source_dir) {
        Some(d) => d,
        None => p.root,
    }
}

/// For a Debian build whose source tree is `linux-src` directly under a
/// work directory that needs no trimming, packages are looked for in the
/// work directory itself.
pub open spec fn searches_root(c: KernelBuildConfigView, p: BuildPathsView) -> bool {
    c.package_format == PackageFormat::Debian && settled_dir(p.root) && p.source_dir == child_path(
        p.root,
        "linux-src"@,
    ) ==> package_search_dir(p) == p.root
}

proof fn lemma_source_dir_child(root: Seq<char>)
    ensures
        normal_child_of(child_path(root, "linux-src"@), root),
{
    reveal_strlit("linux-src");
    let name = "linux-src"@;
    let p = child_path(root, name);
    assert(p.subrange(0, root.len() as int) =~= root);
    assert(p[root.len() as int] == '/');
    assert(p.subrange(root.len() + 1int, p.len() as int) =~= name);
    assert(name != seq!['.']);
    assert(name != seq!['.', '.']);
}

/// Packaging: for Debian, list the packages the compile made, require that
/// there are some and record the list as the artifact; otherwise archive the
/// build files.
pub open spec fn package_work(c: KernelBuildConfigView, p: BuildPathsView) -> Seq<InstrView> {
    match c.package_format {
        PackageFormat::Debian => seq![
            InstrView::Shell(
                locate_packages_command(sh_quoted(package_search_dir(p))),
                FailureView::Stderr,
            ),
            InstrView::RequireOutput(missing_package_message()),
            InstrView::WriteOutput(p.output_path),
        ],
        _ => seq![
            InstrView::Shell(
                archive_command(sh_quoted(p.output_path), sh_quoted(p.root)),
                FailureView::Stderr,
            ),
        ],
    }
}

pub open spec fn finalize_work(p: BuildPathsView) -> Seq<InstrView> {
    seq![InstrView::WriteFile(p.status_path, status_text())]
}

/// The manifest of a build.
pub open spec fn manifest_of(c: KernelBuildConfigView, p: BuildPathsView) -> Seq<char> {
    manifest(
        c.kernel_version,
        c.architecture,
        c.scheduler.text(),
        c.lto.text(),
        decimal(c.hz as nat),
        decimal(c.nr_cpus as nat),
        c.tick_type.text(),
        c.preemption.text(),
        c.package_format.text(),
        debug_list_text(c.system_optimizations),
        p.root,
        p.source_dir,
        p.output_path,
    )
}

/// Before the stages: the work directory and the manifest.
pub open spec fn opening(c: KernelBuildConfigView, p: BuildPathsView) -> Seq<InstrView> {
    seq![InstrView::CreateDir(p.root), InstrView::WriteFile(p.manifest_path, manifest_of(c, p))]
}

/// After the stages: the host kernel release and where everything went.
pub open spec fn closing(p: BuildPathsView) -> Seq<InstrView> {
    seq![
        InstrView::Shell("uname -r"@, FailureView::Stderr),
        InstrView::EmitHostKernel,
        InstrView::Emit(manifest_line(p.manifest_path)),
        InstrView::Emit(snapshot_line(p.snapshot_path)),
        InstrView::Emit(artifact_line(p.output_path)),
        InstrView::Emit(success_message()),
    ]
}

/// The stages of a build with the work of each, in order.
pub open spec fn stage_blocks(c: KernelBuildConfigView, p: BuildPathsView) -> Seq<Seq<InstrView>> {
    seq![
        stage_block(BuildStage::PrepareWorkspace, prepare_work(p)),
        stage_block(BuildStage::ValidateToolchain, toolchain_work()),
        stage_block(BuildStage::EnsureSource, source_work(c, p)),
        stage_block(BuildStage::ConfigureKernel, configure_work(c, p)),
        stage_block(BuildStage::CompileKernel, compile_work(c, p)),
        stage_block(BuildStage::PackageOutput, package_work(c, p)),
        stage_block(BuildStage::Finalize, finalize_work(p)),
    ]
}

/// The whole program of a build of `c` laid out as `p`.
pub open spec fn build_program(c: KernelBuildConfigView, p: BuildPathsView) -> Seq<InstrView> {
    let b = stage_blocks(c, p);
    opening(c, p) + b[0] + b[1] + b[2] + b[3] + b[4] + b[5] + b[6] + closing(p)
}

fn prepare_work_exec(p: &BuildPaths) -> (w: Vec<Instr>)
    ensures
        instr_views(w@) == prepare_work(p@),
{
    let mut w: Vec<Instr> = Vec::new();
    w.push(Instr::CreateDir(p.bundle_dir.clone()));
    w.push(Instr::CreateDir(p.package_root.clone()));
    w.push(Instr::CreateDir(p.source_dir.clone()));
    assert(instr_views(w@) =~= prepare_work(p@));
    w
}

fn tool_check_exec(tool: &str) -> (i: Instr)
    ensures
        i@ == tool_check(tool@),
{
    let command = tool_check_command_text(tool);
    let message = missing_tool_message_text(tool);
    Instr::Shell(command, Failure::Message(message))
}

fn toolchain_work_exec() -> (w: Vec<Instr>)
    ensures
        instr_views(w@) == toolchain_work(),
{
    let tools: [&str; 9] = ["git", "gcc", "make", "tar", "bc", "flex", "bison", "perl", "find"];
    proof {
        reveal_strlit("git");
    }
    assert(tools@.map_values(|t: &str| t@) =~= required_tools());
    let mut w: Vec<Instr> = Vec::new();
    let mut i: usize = 0;
    while i < 9
        invariant
            i <= 9,
            tools@.map_values(|t: &str| t@) == required_tools(),
            w@.len() == i,
            instr_views(w@) == toolchain_work().take(i as int),
        decreases 9 - i,
    {
        let tool = tools[i];
        assert(tool@ == required_tools()[i as int]);
        let c = tool_check_exec(tool);
        assert(required_tools().len() == 9);
        assert(toolchain_work()[i as int] == tool_check(tool@));
        let ghost before = w@;
        w.push(c);
        assert forall|j: int| 0 <= j < i + 1 implies instr_views(w@)[j] == toolchain_work().take(
            i + 1,
        )[j] by {
            if j < i {
                assert(w@[j] == before[j]);
                assert(instr_views(before)[j] == toolchain_work().take(i as int)[j]);
            } else {
                assert(w@[j] == c);
            }
        }
        assert(instr_views(w@) =~= toolchain_work().take(i + 1));
        i = i + 1;
    }
    assert(toolchain_work().take(9) =~= toolchain_work());
    w
}

fn source_work_exec(config: &KernelBuildConfig, p: &BuildPaths) -> (w: Vec<Instr>)
    ensures
        instr_views(w@) == source_work(config@, p@),
{
    let mut w: Vec<Instr> = Vec::new();
    w.push(
        Instr::ReadEnv(
            EnvVar::KernelRepo,
            String::from_str("https://git.kernel.org/pub/scm/linux/kernel/git/stable/linux.git"),
        ),
    );
    let mut reference = String::from_str("v");
    reference.append(config.kernel_version());
    w.push(Instr::ReadEnv(EnvVar::KernelRef, reference));
    w.push(Instr::FetchSource(shell_quote(p.source_dir.as_str())));
    assert(instr_views(w@) =~= source_work(config@, p@));
    w
}

/// The kernel configuration lines of `config` as one text, a line each.
pub fn config_fragment_text(config: &KernelBuildConfig) -> (s: String)
    ensures
        s@ == config_fragment(config@),
{
    let commands = kernel_config_commands(config);
    join_strings(commands.as_slice(), "\n")
}

fn configure_work_exec(config: &KernelBuildConfig, p: &BuildPaths) -> (w: Vec<Instr>)
    ensures
        instr_views(w@) == configure_work(config@, p@),
{
    let fragment = config_fragment_text(config);
    let source = shell_quote(p.source_dir.as_str());
    let command = configure_command_text(source.as_str(), fragment.as_str());
    let mut w: Vec<Instr> = Vec::new();
    w.push(Instr::WriteFile(p.config_fragment_path.clone(), fragment));
    w.push(Instr::Shell(command, Failure::Stderr));
    assert(instr_views(w@) =~= configure_work(config@, p@));
    w
}

fn compile_work_exec(config: &KernelBuildConfig, p: &BuildPaths) -> (w: Vec<Instr>)
    ensures
        instr_views(w@) == compile_work(config@, p@),
{
    let source = shell_quote(p.source_dir.as_str());
    let cpus = cpu_count_shell();
    let command = match config.package_format() {
        PackageFormat::Debian => compile_debian_command_text(source.as_str(), cpus.as_str()),
        _ => {
            let bundle = shell_quote(p.package_root.as_str());
            compile_modules_command_text(source.as_str(), cpus.as_str(), bundle.as_str())
        },
    };
    let mut w: Vec<Instr> = Vec::new();
    w.push(Instr::Shell(command, Failure::Stderr));
    assert(instr_views(w@) =~= compile_work(config@, p@));
    w
}

fn package_work_exec(config: &KernelBuildConfig, p: &BuildPaths) -> (w: Vec<Instr>)
    ensures
        instr_views(w@) == package_work(config@, p@),
        searches_root(config@, p@),
{
    let mut w: Vec<Instr> = Vec::new();
    match config.package_format() {
        PackageFormat::Debian => {
            let dir = match parent_path(p.source_dir.as_str()) {
                Some(d) => d,
                None => p.root.clone(),
            };
            proof {
                if settled_dir(p@.root) && p@.source_dir == child_path(p@.root, "linux-src"@) {
                    lemma_source_dir_child(p@.root);
                }
            }
            let quoted = shell_quote(dir.as_str());
            let command = locate_packages_command_text(quoted.as_str());
            w.push(Instr::Shell(command, Failure::Stderr));
            w.push(
                Instr::RequireOutput(
                    String::from_str("Debian package was not generated by bindeb-pkg"),
                ),
            );
            w.push(Instr::WriteOutput(p.output_path.clone()));
        },
        _ => {
            let archive = shell_quote(p.output_path.as_str());
            let root = shell_quote(p.root.as_str());
            let command = archive_command_text(archive.as_str(), root.as_str());
            w.push(Instr::Shell(command, Failure::Stderr));
        },
    }
    assert(instr_views(w@) =~= package_work(config@, p@));
    w
}

fn finalize_work_exec(p: &BuildPaths) -> (w: Vec<Instr>)
    ensures
        instr_views(w@) == finalize_work(p@),
{
    let mut w: Vec<Instr> = Vec::new();
    w.push(Instr::WriteFile(p.status_path.clone(), String::from_str("Build completed successfully.\n")));
    assert(instr_views(w@) =~= finalize_work(p@));
    w
}

/// The manifest of a build of `config` laid out as `p`.
pub fn manifest_for(config: &KernelBuildConfig, p: &BuildPaths) -> (s: String)
    ensures
        s@ == manifest_of(config@, p@),
{
    let scheduler = config.scheduler().to_string();
    let lto = config.lto().to_string();
    let hz = decimal_string(config.hz() as u64);
    let nr_cpus = decimal_string(config.nr_cpus() as u64);
    let tick_type = config.tick_type().to_string();
    let preemption = config.preemption().to_string();
    let package = config.package_format().to_string();
    let optimizations = debug_list(config.system_optimizations());
    manifest_text(
        config.kernel_version(),
        config.architecture(),
        scheduler.as_str(),
        lto.as_str(),
        hz.as_str(),
        nr_cpus.as_str(),
        tick_type.as_str(),
        preemption.as_str(),
        package.as_str(),
        optimizations.as_str(),
        p.root.as_str(),
        p.source_dir.as_str(),
        p.output_path.as_str(),
    )
}

fn opening_exec(config: &KernelBuildConfig, p: &BuildPaths) -> (w: Vec<Instr>)
    ensures
        instr_views(w@) == opening(config@, p@),
{
    let mut w: Vec<Instr> = Vec::new();
    w.push(Instr::CreateDir(p.root.clone()));
    w.push(Instr::WriteFile(p.manifest_path.clone(), manifest_for(config, p)));
    assert(instr_views(w@) =~= opening(config@, p@));
    w
}

fn closing_exec(p: &BuildPaths) -> (w: Vec<Instr>)
    ensures
        instr_views(w@) == closing(p@),
{
    let mut w: Vec<Instr> = Vec::new();
    w.push(Instr::Shell(String::from_str("uname -r"), Failure::Stderr));
    w.push(Instr::EmitHostKernel);
    w.push(Instr::Emit(manifest_line_text(p.manifest_path.as_str())));
    w.push(Instr::Emit(snapshot_line_text(p.snapshot_path.as_str())));
    w.push(Instr::Emit(artifact_line_text(p.output_path.as_str())));
    w.push(Instr::Emit(String::from_str("SUCCESS! Kernel build pipeline completed in Rust.\n")));
    assert(instr_views(w@) =~= closing(p@));
    w
}

/// The program of a build of `config` laid out as `p`.
pub fn build_program_for(config: &KernelBuildConfig, p: &BuildPaths) -> (program: Vec<Instr>)
    ensures
        instr_views(program@) == build_program(config@, p@),
        searches_root(config@, p@),
{
    let ghost b = stage_blocks(config@, p@);
    let mut program = opening_exec(config, p);
    push_block(&mut program, stage_block_exec(BuildStage::PrepareWorkspace, prepare_work_exec(p)));
    push_block(&mut program, stage_block_exec(BuildStage::ValidateToolchain, toolchain_work_exec()));
    push_block(&mut program, stage_block_exec(BuildStage::EnsureSource, source_work_exec(config, p)));
    push_block(&mut program, stage_block_exec(BuildStage::ConfigureKernel, configure_work_exec(config, p)));
    push_block(&mut program, stage_block_exec(BuildStage::CompileKernel, compile_work_exec(config, p)));
    push_block(&mut program, stage_block_exec(BuildStage::PackageOutput, package_work_exec(config, p)));
    push_block(&mut program, stage_block_exec(BuildStage::Finalize, finalize_work_exec(p)));
    push_block(&mut program, closing_exec(p));
    program
}

/// The stages in the order in which a build runs them.
pub open spec fn stage_order() -> Seq<BuildStage> {
    seq![
        BuildStage::PrepareWorkspace,
        BuildStage::ValidateToolchain,
        BuildStage::EnsureSource,
        BuildStage::ConfigureKernel,
        BuildStage::CompileKernel,
        BuildStage::PackageOutput,
        BuildStage::Finalize,
    ]
}

/// Where the `k`-th stage starts in the program.
pub open spec fn stage_offset(c: KernelBuildConfigView, p: BuildPathsView, k: int) -> int
    decreases k,
{
    if k <= 0 {
        opening(c, p).len() as int
    } else {
        stage_offset(c, p, k - 1) + stage_blocks(c, p)[k - 1].len()
    }
}

/// The program up to the end of the `k`-th stage block.
spec fn program_prefix(c: KernelBuildConfigView, p: BuildPathsView, k: int) -> Seq<InstrView>
    decreases k,
{
    if k <= 0 {
        opening(c, p)
    } else {
        program_prefix(c, p, k - 1) + stage_blocks(c, p)[k - 1]
    }
}

proof fn lemma_prefix_len(c: KernelBuildConfigView, p: BuildPathsView, k: int)
    requires
        0 <= k <= 7,
    ensures
        program_prefix(c, p, k).len() == stage_offset(c, p, k),
    decreases k,
{
    if k > 0 {
        lemma_prefix_len(c, p, k - 1);
    }
}

proof fn lemma_program_split(c: KernelBuildConfigView, p: BuildPathsView)
    ensures
        build_program(c, p) == program_prefix(c, p, 7) + closing(p),
{
    reveal_with_fuel(program_prefix, 8);
}

proof fn lemma_prefix_of_program(c: KernelBuildConfigView, p: BuildPathsView, k: int)
    requires
        0 <= k <= 7,
    ensures
        stage_offset(c, p, k) <= build_program(c, p).len(),
        build_program(c, p).subrange(0, stage_offset(c, p, k)) == program_prefix(c, p, k),
    decreases 7 - k,
{
    lemma_prefix_len(c, p, k);
    lemma_program_split(c, p);
    if k == 7 {
        assert(build_program(c, p).subrange(0, stage_offset(c, p, 7)) =~= program_prefix(c, p, 7));
    } else {
        lemma_prefix_of_program(c, p, k + 1);
        lemma_prefix_len(c, p, k + 1);
        lemma_offset_mono(c, p, k, k + 1);
        let whole = build_program(c, p);
        assert(whole.subrange(0, stage_offset(c, p, k)) =~= whole.subrange(
            0,
            stage_offset(c, p, k + 1),
        ).subrange(0, stage_offset(c, p, k)));
        assert(program_prefix(c, p, k + 1).subrange(0, stage_offset(c, p, k)) =~= program_prefix(
            c,
            p,
            k,
        ));
    }
}

proof fn lemma_offset_mono(c: KernelBuildConfigView, p: BuildPathsView, i: int, j: int)
    requires
        0 <= i <= j,
    ensures
        stage_offset(c, p, i) <= stage_offset(c, p, j),
    decreases j - i,
{
    if i < j {
        lemma_offset_mono(c, p, i, j - 1);
    }
}

proof fn lemma_block_shape(c: KernelBuildConfigView, p: BuildPathsView, k: int)
    requires
        0 <= k < 7,
    ensures
        stage_blocks(c, p)[k].len() >= 3,
        stage_blocks(c, p)[k][0] == InstrView::CheckCancel,
        stage_blocks(c, p)[k][1] == InstrView::Emit(stage_order()[k].label_text()),
        stage_blocks(c, p)[k].last() == InstrView::Pause,
{
    let blk = stage_blocks(c, p)[k];
    assert(blk == stage_block(stage_order()[k], stage_blocks_work(c, p)[k]));
}

/// Each stage's instructions stand, whole and in stage order, one after the
/// other in a build's program: every stage begins with a cancellation check
/// and its label and ends with a pause.
#[verifier::spinoff_prover]
pub proof fn lemma_stage_layout(c: KernelBuildConfigView, p: BuildPathsView, k: int)
    requires
        0 <= k < 7,
    ensures
        build_program(c, p).subrange(stage_offset(c, p, k), stage_offset(c, p, k + 1))
            == stage_blocks(c, p)[k],
        build_program(c, p)[stage_offset(c, p, k)] == InstrView::CheckCancel,
        build_program(c, p)[stage_offset(c, p, k) + 1] == InstrView::Emit(
            stage_order()[k].label_text(),
        ),
        build_program(c, p)[stage_offset(c, p, k + 1) - 1] == InstrView::Pause,
        stage_offset(c, p, k) + 3 <= stage_offset(c, p, k + 1) <= build_program(c, p).len(),
{
    let whole = build_program(c, p);
    let blk = stage_blocks(c, p)[k];
    let lo = stage_offset(c, p, k);
    let hi = stage_offset(c, p, k + 1);
    lemma_prefix_of_program(c, p, k + 1);
    lemma_prefix_len(c, p, k);
    lemma_block_shape(c, p, k);
    assert(hi == lo + blk.len());
    let pre = program_prefix(c, p, k + 1);
    assert(pre == program_prefix(c, p, k) + blk);
    assert(whole.subrange(0, hi) == pre);
    assert(pre.subrange(lo, hi) =~= blk);
    assert(whole.subrange(lo, hi) =~= pre.subrange(lo, hi));
    assert(whole[lo] == pre[lo]);
    assert(whole[lo + 1] == pre[lo + 1]);
    assert(whole[hi - 1] == pre[hi - 1]);
}

/// The work of each stage, in stage order.
pub open spec fn stage_blocks_work(c: KernelBuildConfigView, p: BuildPathsView) -> Seq<Seq<InstrView>> {
    seq![
        prepare_work(p),
        toolchain_work(),
        source_work(c, p),
        configure_work(c, p),
        compile_work(c, p),
        package_work(c, p),
        finalize_work(p),
    ]
}

/// A build first creates its work directory and writes the manifest, and
/// ends by reporting the host kernel, where its files went and its success.
pub proof fn lemma_program_bounds(c: KernelBuildConfigView, p: BuildPathsView)
    ensures
        build_program(c, p)[0] == InstrView::CreateDir(p.root),
        build_program(c, p)[1] == InstrView::WriteFile(p.manifest_path, manifest_of(c, p)),
        build_program(c, p).last() == InstrView::Emit(success_message()),
        build_program(c, p)[build_program(c, p).len() - 6] == InstrView::Shell(
            "uname -r"@,
            FailureView::Stderr,
        ),
{
    let b = stage_blocks(c, p);
    let whole = build_program(c, p);
    let mid = b[0] + b[1] + b[2] + b[3] + b[4] + b[5] + b[6];
    assert(whole =~= opening(c, p) + mid + closing(p));
}

/// The `j`-th instruction of the `k`-th stage's own work, and the
/// instruction after it: the next instruction of the work, or the stage's
/// closing pause.
pub proof fn lemma_stage_work_at(c: KernelBuildConfigView, p: BuildPathsView, k: int, j: int)
    requires
        0 <= k < 7,
        0 <= j < stage_blocks_work(c, p)[k].len(),
    ensures
        stage_offset(c, p, k) + 2 + j + 1 < build_program(c, p).len(),
        build_program(c, p)[stage_offset(c, p, k) + 2 + j] == stage_blocks_work(c, p)[k][j],
        build_program(c, p)[stage_offset(c, p, k) + 2 + j + 1] == if j + 1 < stage_blocks_work(
            c,
            p,
        )[k].len() {
            stage_blocks_work(c, p)[k][j + 1]
        } else {
            InstrView::Pause
        },
{
    lemma_stage_layout(c, p, k);
    let w = stage_blocks_work(c, p)[k];
    let blk = stage_blocks(c, p)[k];
    assert(blk == stage_block(stage_order()[k], w));
    let lo = stage_offset(c, p, k);
    let hi = stage_offset(c, p, k + 1);
    let whole = build_program(c, p);
    assert(blk.len() == w.len() + 3);
    lemma_offset_mono(c, p, 0, k);
    assert(0 <= lo);
    assert(whole.subrange(lo, hi) == blk);
    assert(hi - lo == blk.len());
    assert(hi <= whole.len());
    assert(whole.subrange(lo, hi)[2 + j] == whole[lo + 2 + j]);
    assert(whole.subrange(lo, hi)[2 + j + 1] == whole[lo + 2 + j + 1]);
    assert(blk[2 + j] == w[j]);
    if j + 1 < w.len() {
        assert(blk[2 + j + 1] == w[j + 1]);
    } else {
        assert(blk[2 + j + 1] == InstrView::Pause);
    }
}

} // verus!

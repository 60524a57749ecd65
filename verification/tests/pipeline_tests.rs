use vinmod_kernel::service::{filesystem_build_error_message, process_error_message};
use vinmod_kernel::infra::{filesystem_error_message, spawn_failure_message};
use vinmod_kernel::builder::{KernelBuildConfig, PackageFormat};
use vinmod_kernel::infra::{FileSystem, FileSystemError, ProcessError, ProcessExecutor, ProcessOutput};
use vinmod_kernel::run::{BuildAction, BuildEvent, BuildRun, RunPhase};
use vinmod_kernel::service::{shell_command_line, BuildError, BuildService, BuildStage};

#[derive(Default)]
struct NoProcess;

impl ProcessExecutor for NoProcess {
    fn run(&self, _program: &str, _args: &[&str]) -> Result<ProcessOutput, ProcessError> {
        Ok(ProcessOutput { success: true, stdout: String::new(), stderr: String::new() })
    }
}

#[derive(Default)]
struct NoFiles;

impl FileSystem for NoFiles {
    fn path_exists(&self, _path: &str) -> bool {
        false
    }
    fn remove_dir_all(&self, _path: &str) -> Result<(), FileSystemError> {
        Ok(())
    }
    fn create_dir_all(&self, _path: &str) -> Result<(), FileSystemError> {
        Ok(())
    }
    fn write_string(&self, _path: &str, _contents: &str) -> Result<(), FileSystemError> {
        Ok(())
    }
}

fn ok_output(stdout: &str) -> BuildEvent {
    BuildEvent::ShellResult(Ok(ProcessOutput {
        success: true,
        stdout: stdout.to_string(),
        stderr: String::new(),
    }))
}

fn describe(a: &BuildAction) -> String {
    match a {
        BuildAction::CheckCancelled => "check".to_string(),
        BuildAction::Emit(t) => format!("emit {}", t),
        BuildAction::CreateDir(p) => format!("mkdir {}", p),
        BuildAction::WriteFile(p, _) => format!("write {}", p),
        BuildAction::ReadEnv(n) => format!("env {}", n),
        BuildAction::RunShell(c) => format!("sh {}", c.trim()),
        BuildAction::Pause => "pause".to_string(),
        BuildAction::Finish(Ok(())) => "finish ok".to_string(),
        BuildAction::Finish(Err(e)) => format!("finish err {}", e.to_string()),
    }
}

/// Runs a build answering every action with success; `stdout` is what every
/// command prints. Returns the actions in order.
fn run_all(config: &KernelBuildConfig, stdout: &str) -> Vec<BuildAction> {
    let service: BuildService<NoProcess, NoFiles> = BuildService::with_infra(NoProcess, NoFiles, "w");
    let (mut run, mut action) = service.start_build(config);
    let mut actions = Vec::new();
    loop {
        let event = match &action {
            BuildAction::Finish(_) => {
                actions.push(action);
                return actions;
            },
            BuildAction::CheckCancelled => BuildEvent::Cancelled(false),
            BuildAction::Emit(_) | BuildAction::Pause => BuildEvent::Acknowledged,
            BuildAction::CreateDir(_) | BuildAction::WriteFile(_, _) => BuildEvent::FileSystemResult(Ok(())),
            BuildAction::ReadEnv(_) => BuildEvent::EnvValue(None),
            BuildAction::RunShell(_) => ok_output(stdout),
        };
        assert!(run.accepts(&event));
        actions.push(action);
        action = run.resume(event);
    }
}

#[test]
fn stage_labels() {
    assert_eq!(BuildStage::PrepareWorkspace.label(), "Preparing build workspace...\n");
    assert_eq!(BuildStage::ValidateToolchain.label(), "Validating toolchain and system requirements...\n");
    assert_eq!(BuildStage::EnsureSource.label(), "Acquiring kernel source tree...\n");
    assert_eq!(BuildStage::ConfigureKernel.label(), "Configuring kernel profile...\n");
    assert_eq!(BuildStage::CompileKernel.label(), "Compiling kernel and modules...\n");
    assert_eq!(BuildStage::PackageOutput.label(), "Packaging build output...\n");
    assert_eq!(BuildStage::Finalize.label(), "Finalizing build output...\n");
}

#[test]
fn service_defaults() {
    let s: BuildService<NoProcess, NoFiles> = BuildService::new();
    assert_eq!(s.work_dir(), "build-artifacts");
    let s: BuildService<NoProcess, NoFiles> = BuildService::with_infra(NoProcess, NoFiles, "/x");
    assert_eq!(s.work_dir(), "/x");
    let p = s.paths(&KernelBuildConfig::new(Some(1)));
    assert_eq!(p.source_dir, "/x/linux-src");
}

#[test]
fn shell_invocation() {
    let (program, args) = shell_command_line("uname -r");
    assert_eq!(program, "sh");
    assert_eq!(args, vec!["-lc".to_string(), "uname -r".to_string()]);
}

#[test]
fn successful_debian_build_runs_every_stage_in_order() {
    let config = KernelBuildConfig::new(Some(4));
    let actions = run_all(&config, "pkg.deb\n");
    let d: Vec<String> = actions.iter().map(describe).collect();
    assert_eq!(d[0], "mkdir w");
    assert_eq!(d[1], "write w/build-manifest.txt");
    assert_eq!(d[2], "check");
    assert_eq!(d[3], "emit Preparing build workspace...\n");
    assert_eq!(d[4], "mkdir w/bundle");
    assert_eq!(d[5], "mkdir w/bundle/vinmod-kernel-6.19.12-deb");
    assert_eq!(d[6], "mkdir w/linux-src");
    assert_eq!(d[7], "pause");
    assert_eq!(d[8], "check");
    assert_eq!(d[9], "emit Validating toolchain and system requirements...\n");
    assert_eq!(d[10], "sh command -v git >/dev/null 2>&1");
    assert_eq!(d[18], "sh command -v find >/dev/null 2>&1");
    assert_eq!(d[19], "pause");
    assert_eq!(d[20], "check");
    assert_eq!(d[21], "emit Acquiring kernel source tree...\n");
    assert_eq!(d[22], "env VINMOD_KERNEL_REPO");
    assert_eq!(d[23], "env VINMOD_KERNEL_REF");
    assert!(d[24].starts_with("sh set -e"));
    assert!(d[24].contains("--branch ''v6.19.12''"));
    assert!(d[24].contains("''https://git.kernel.org/pub/scm/linux/kernel/git/stable/linux.git''"));
    assert_eq!(d[25], "pause");
    assert_eq!(d[27], "emit Configuring kernel profile...\n");
    assert_eq!(d[28], "write w/kernel-profile.fragment");
    assert!(d[29].contains("make olddefconfig"));
    assert_eq!(d[30], "pause");
    assert_eq!(d[32], "emit Compiling kernel and modules...\n");
    assert!(d[33].contains("bindeb-pkg LOCALVERSION=-vinmod KDEB_PKGVERSION=1.0"));
    assert_eq!(d[34], "pause");
    assert_eq!(d[36], "emit Packaging build output...\n");
    assert!(d[37].contains("find ''w'' -maxdepth 1 -type f"));
    assert_eq!(d[38], "write w/vinmod-kernel-6.19.12-deb.deb");
    assert_eq!(d[39], "pause");
    assert_eq!(d[41], "emit Finalizing build output...\n");
    assert_eq!(d[42], "write w/BUILD_STATUS.txt");
    assert_eq!(d[43], "pause");
    assert_eq!(d[44], "sh uname -r");
    assert_eq!(d[45], "emit Host kernel: pkg.deb\n");
    assert_eq!(d[46], "emit Manifest written to: w/build-manifest.txt\n");
    assert_eq!(d[47], "emit Snapshot written to: w/system-snapshot.txt\n");
    assert_eq!(d[48], "emit Artifact generated at: w/vinmod-kernel-6.19.12-deb.deb\n");
    assert_eq!(d[49], "emit SUCCESS! Kernel build pipeline completed in Rust.\n");
    assert_eq!(d[50], "finish ok");
    assert_eq!(d.len(), 51);
    match &actions[38] {
        BuildAction::WriteFile(_, text) => assert_eq!(text, "pkg.deb\n"),
        _ => panic!("expected a write"),
    }
}

#[test]
fn manifest_and_fragment_contents() {
    let config = KernelBuildConfig::new(Some(4));
    let actions = run_all(&config, "x");
    match &actions[1] {
        BuildAction::WriteFile(_, text) => assert_eq!(
            text,
            "kernel_version=6.19.12\narchitecture=native\nscheduler=cachyos\nlto=thin\nhz=1000\nnr_cpus=8\ntick_type=nohz_idle\npreemption=preempt\npackage=deb\noptimizations=[\"O3\", \"tcp_bbr3\"]\nroot=w\nsource_dir=w/linux-src\noutput=w/vinmod-kernel-6.19.12-deb.deb\n"
        ),
        _ => panic!("expected the manifest"),
    }
    match &actions[28] {
        BuildAction::WriteFile(_, text) => {
            assert!(text.starts_with("scripts/config -d HZ_100"));
            assert!(text.ends_with("scripts/config --set-val NR_CPUS 8"));
            assert_eq!(text.lines().count(), 16);
        },
        _ => panic!("expected the fragment"),
    }
}

#[test]
fn successful_tarball_build_archives_the_files() {
    let config = KernelBuildConfig::new(Some(4)).with_package_format(PackageFormat::Tarball);
    let actions = run_all(&config, "6.1.0\n");
    let d: Vec<String> = actions.iter().map(describe).collect();
    assert!(d[33].contains("make modules_install INSTALL_MOD_PATH=''w/bundle/vinmod-kernel-6.19.12-tar.gz''"));
    assert!(d[37].starts_with("sh set -e\n                    tar -czf ''w/vinmod-kernel-6.19.12-tar.gz.tar.gz'' -C ''w''"));
    assert_eq!(d[38], "pause");
    assert_eq!(d[43], "sh uname -r");
    assert_eq!(d[44], "emit Host kernel: 6.1.0\n");
    assert_eq!(d.last().unwrap(), "finish ok");
    assert_eq!(d.len(), 50);
}

#[test]
fn empty_package_listing_fails_the_build() {
    let config = KernelBuildConfig::new(Some(4));
    let actions = run_all(&config, "  \n");
    let d: Vec<String> = actions.iter().map(describe).collect();
    assert_eq!(
        d.last().unwrap(),
        "finish err Missing artifact: Debian package was not generated by bindeb-pkg"
    );
    assert_eq!(d.len(), 39);
}

fn start(config: &KernelBuildConfig) -> (BuildRun, BuildAction) {
    let service: BuildService<NoProcess, NoFiles> = BuildService::with_infra(NoProcess, NoFiles, "w");
    service.start_build(config)
}

#[test]
fn stop_request_ends_the_build() {
    let (mut run, a) = start(&KernelBuildConfig::new(Some(1)));
    assert!(matches!(a, BuildAction::CreateDir(_)));
    let a = run.resume(BuildEvent::FileSystemResult(Ok(())));
    assert!(matches!(a, BuildAction::WriteFile(_, _)));
    let a = run.resume(BuildEvent::FileSystemResult(Ok(())));
    assert!(matches!(a, BuildAction::CheckCancelled));
    assert!(!run.accepts(&BuildEvent::Acknowledged));
    let a = run.resume(BuildEvent::Cancelled(true));
    assert_eq!(describe(&a), "emit \n--- Build Stopped by User ---\n");
    assert_eq!(run.phase(), RunPhase::Stopping);
    let a = run.resume(BuildEvent::Acknowledged);
    assert_eq!(describe(&a), "finish ok");
    assert!(run.is_finished());
    assert!(!run.accepts(&BuildEvent::Acknowledged));
}

#[test]
fn file_failure_ends_the_build() {
    let (mut run, _) = start(&KernelBuildConfig::new(Some(1)));
    let err = FileSystemError::Io(std::io::Error::new(std::io::ErrorKind::Other, "disk full"));
    let a = run.resume(BuildEvent::FileSystemResult(Err(err)));
    assert_eq!(describe(&a), "finish err Filesystem error: Filesystem error: disk full");
    assert!(run.is_finished());
}

#[test]
fn missing_tool_is_reported_by_name() {
    let (mut run, _) = start(&KernelBuildConfig::new(Some(1)));
    let mut a = run.resume(BuildEvent::FileSystemResult(Ok(())));
    for _ in 0..9 {
        let e = match &a {
            BuildAction::CheckCancelled => BuildEvent::Cancelled(false),
            BuildAction::Emit(_) | BuildAction::Pause => BuildEvent::Acknowledged,
            _ => BuildEvent::FileSystemResult(Ok(())),
        };
        a = run.resume(e);
    }
    assert_eq!(describe(&a), "sh command -v git >/dev/null 2>&1");
    let a = run.resume(BuildEvent::ShellResult(Ok(ProcessOutput {
        success: false,
        stdout: String::new(),
        stderr: "ignored".to_string(),
    })));
    assert_eq!(describe(&a), "finish err Command failed: Required tool not found: git");
}

#[test]
fn command_failure_reports_stderr() {
    let config = KernelBuildConfig::new(Some(1));
    let (mut run, mut a) = start(&config);
    loop {
        let e = match &a {
            BuildAction::CheckCancelled => BuildEvent::Cancelled(false),
            BuildAction::Emit(_) | BuildAction::Pause => BuildEvent::Acknowledged,
            BuildAction::CreateDir(_) | BuildAction::WriteFile(_, _) => BuildEvent::FileSystemResult(Ok(())),
            BuildAction::ReadEnv(n) if n == "VINMOD_KERNEL_REF" => BuildEvent::EnvValue(Some("it's".to_string())),
            BuildAction::ReadEnv(_) => BuildEvent::EnvValue(Some("/repo".to_string())),
            BuildAction::RunShell(c) if c.contains("git clone") => {
                assert!(c.contains("--branch ''it'\\''s'' ''/repo''"));
                BuildEvent::ShellResult(Ok(ProcessOutput {
                    success: false,
                    stdout: String::new(),
                    stderr: "clone failed".to_string(),
                }))
            },
            BuildAction::RunShell(_) => ok_output(""),
            BuildAction::Finish(_) => break,
        };
        a = run.resume(e);
    }
    assert_eq!(describe(&a), "finish err Command failed: clone failed");
}

#[test]
fn spawn_failure_ends_the_build() {
    let (mut run, mut a) = start(&KernelBuildConfig::new(Some(1)));
    while !matches!(a, BuildAction::RunShell(_)) {
        let e = match &a {
            BuildAction::CheckCancelled => BuildEvent::Cancelled(false),
            BuildAction::Emit(_) | BuildAction::Pause => BuildEvent::Acknowledged,
            _ => BuildEvent::FileSystemResult(Ok(())),
        };
        a = run.resume(e);
    }
    let err = ProcessError::Spawn(std::io::Error::new(std::io::ErrorKind::NotFound, "no sh"));
    let a = run.resume(BuildEvent::ShellResult(Err(err)));
    assert_eq!(describe(&a), "finish err Process error: Process spawn failed: no sh");
}

#[test]
fn build_error_messages() {
    assert_eq!(BuildError::CommandFailed("x".to_string()).to_string(), "Command failed: x");
    assert_eq!(BuildError::MissingArtifact("y".to_string()).to_string(), "Missing artifact: y");
    let e: BuildError = ProcessError::Spawn(std::io::Error::new(std::io::ErrorKind::Other, "z")).into();
    assert_eq!(e.to_string(), "Process error: Process spawn failed: z");
    let e: BuildError = FileSystemError::Io(std::io::Error::new(std::io::ErrorKind::Other, "q")).into();
    assert_eq!(e.to_string(), "Filesystem error: Filesystem error: q");
}

#[test]
fn error_messages_carry_the_io_text() {
    assert_eq!(spawn_failure_message("boom"), "Process spawn failed: boom");
    assert_eq!(filesystem_error_message("boom"), "Filesystem error: boom");
    assert_eq!(process_error_message("boom"), "Process error: Process spawn failed: boom");
    assert_eq!(filesystem_build_error_message("boom"), "Filesystem error: Filesystem error: boom");
    let io = || std::io::Error::new(std::io::ErrorKind::Other, "boom");
    assert_eq!(ProcessError::Spawn(io()).to_string(), "Process spawn failed: boom");
    assert_eq!(FileSystemError::Io(io()).to_string(), "Filesystem error: boom");
    assert_eq!(
        BuildError::Process(ProcessError::Spawn(io())).to_string(),
        "Process error: Process spawn failed: boom"
    );
    assert_eq!(
        BuildError::Filesystem(FileSystemError::Io(io())).to_string(),
        "Filesystem error: Filesystem error: boom"
    );
}

/// Runs a build on `service` answering every action with success; returns
/// the actions described.
fn run_on<P: ProcessExecutor, F: FileSystem>(
    service: &BuildService<P, F>,
    config: &KernelBuildConfig,
) -> Vec<String> {
    let (mut run, mut action) = service.start_build(config);
    let mut actions = Vec::new();
    loop {
        let event = match &action {
            BuildAction::Finish(_) => {
                actions.push(describe(&action));
                return actions;
            },
            BuildAction::CheckCancelled => BuildEvent::Cancelled(false),
            BuildAction::Emit(_) | BuildAction::Pause => BuildEvent::Acknowledged,
            BuildAction::CreateDir(_) | BuildAction::WriteFile(_, _) => BuildEvent::FileSystemResult(Ok(())),
            BuildAction::ReadEnv(_) => BuildEvent::EnvValue(None),
            BuildAction::RunShell(_) => ok_output("pkg.deb\n"),
        };
        actions.push(describe(&action));
        action = run.resume(event);
    }
}

#[test]
fn default_service_builds_as_one_in_build_artifacts() {
    let config = KernelBuildConfig::new(Some(4));
    let a: BuildService<NoProcess, NoFiles> = BuildService::new();
    let b: BuildService<NoProcess, NoFiles> =
        BuildService::with_infra(NoProcess, NoFiles, "build-artifacts");
    let da = run_on(&a, &config);
    let db = run_on(&b, &config);
    assert_eq!(da, db);
    assert_eq!(da[0], "mkdir build-artifacts");
    assert!(da[37].contains("find ''build-artifacts'' -maxdepth 1 -type f"));
}

#[test]
fn every_path_stays_under_the_work_dir_for_any_version() {
    let config = KernelBuildConfig::new(Some(4)).with_kernel_version("a\\b:c/d");
    let s: BuildService<NoProcess, NoFiles> = BuildService::with_infra(NoProcess, NoFiles, "/srv/w");
    let d = run_on(&s, &config);
    for line in &d {
        if let Some(path) = line.strip_prefix("mkdir ").or_else(|| line.strip_prefix("write ")) {
            assert!(path.starts_with("/srv/w/") || path == "/srv/w", "{}", path);
        }
    }
    assert!(d.contains(&"mkdir /srv/w/bundle/vinmod-kernel-a\\b:c-d-deb".to_string()));
    assert!(d.iter().any(|line| line.contains("find ''/srv/w'' -maxdepth 1 -type f")));
}

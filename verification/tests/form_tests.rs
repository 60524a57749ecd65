use vinmod_kernel::service::BuildStage;
use vinmod_kernel::builder::{CpuScheduler, LtoMode, PreemptionType, TickType};
use vinmod_kernel::form::{
    architecture_from_index, classify_console_message, heartbeat_line_text, heartbeat_status_text,
    hugepages_from_index, kernel_version_from_index, lto_from_index, preemption_from_index,
    progress_line_text, scheduler_from_index, selected_optimizations, spinner_frame,
    stage_label_from_key, status_line_text, status_stage_from_message, tick_rate_from_index,
    tick_type_from_index, config_from_selection, ConsoleMessage, FormSelection,
};
use vinmod_kernel::builder::{KernelBuildConfig, PackageFormat};

#[test]
fn list_positions() {
    assert_eq!(kernel_version_from_index(0), "6.19.12");
    assert_eq!(kernel_version_from_index(1), "7.x-mainline");
    assert_eq!(kernel_version_from_index(2), "custom");
    assert_eq!(kernel_version_from_index(9), "6.19.12");
    assert_eq!(architecture_from_index(0), "native");
    assert_eq!(architecture_from_index(4), "x86-64-v3");
    assert_eq!(architecture_from_index(6), "custom");
    assert_eq!(architecture_from_index(7), "native");
    assert_eq!(scheduler_from_index(2), CpuScheduler::Eevdf);
    assert_eq!(scheduler_from_index(5), CpuScheduler::CachyOsBore);
    assert_eq!(scheduler_from_index(7), CpuScheduler::CachyOsBore);
    assert_eq!(lto_from_index(3), LtoMode::NoLto);
    assert_eq!(lto_from_index(0), LtoMode::Thin);
    assert_eq!(tick_type_from_index(1), TickType::NoHzFull);
    assert_eq!(preemption_from_index(3), PreemptionType::PreemptNone);
    assert_eq!(tick_rate_from_index(0), 1000);
    assert_eq!(tick_rate_from_index(1), 750);
    assert_eq!(tick_rate_from_index(6), 100);
    assert_eq!(tick_rate_from_index(7), 1000);
    assert_eq!(hugepages_from_index(0), "madvise");
    assert_eq!(hugepages_from_index(1), "always");
    assert_eq!(hugepages_from_index(2), "none");
}

#[test]
fn optimisation_switches() {
    assert_eq!(selected_optimizations(true, false, true, true, false), vec!["O3", "performance_governor", "tcp_bbr3"]);
    assert_eq!(selected_optimizations(false, false, false, false, false), Vec::<String>::new());
    assert_eq!(
        selected_optimizations(true, true, true, true, true),
        vec!["O3", "Os", "performance_governor", "tcp_bbr3", "zfs"]
    );
}

#[test]
fn stage_names() {
    assert_eq!(status_stage_from_message("Preparing build workspace...\n"), Some("Preparing workspace"));
    assert_eq!(status_stage_from_message("  Finalizing build output...  "), Some("Finalizing"));
    assert_eq!(status_stage_from_message("something else"), None);
    assert_eq!(stage_label_from_key("compile-kernel"), "Compiling kernel");
    assert_eq!(stage_label_from_key("nope"), "Running");
}

#[test]
fn console_messages() {
    assert!(matches!(classify_console_message("__FINISHED__"), ConsoleMessage::Finished));
    assert!(matches!(classify_console_message("ERROR: bad\n"), ConsoleMessage::Error));
    match classify_console_message("__PROGRESS__|3|7|compile-kernel\n") {
        ConsoleMessage::Progress { current, total, stage } => {
            assert_eq!(current, Some(3));
            assert_eq!(total, Some(7));
            assert_eq!(stage, "Compiling kernel");
        },
        _ => panic!("expected progress"),
    }
    match classify_console_message("__PROGRESS__|x") {
        ConsoleMessage::Progress { current, total, stage } => {
            assert_eq!(current, None);
            assert_eq!(total, None);
            assert_eq!(stage, "Running");
        },
        _ => panic!("expected progress"),
    }
    match classify_console_message("Acquiring kernel source tree...\n") {
        ConsoleMessage::Log { stage } => assert_eq!(stage, Some("Acquiring source tree")),
        _ => panic!("expected log"),
    }
    match classify_console_message(" __FINISHED__") {
        ConsoleMessage::Log { stage } => assert_eq!(stage, None),
        _ => panic!("expected log"),
    }
}

#[test]
fn console_texts() {
    assert_eq!(status_line_text("Finalizing"), "Status: Finalizing");
    assert_eq!(progress_line_text(3, 7, "Compiling kernel"), "3/7 - Compiling kernel");
    assert_eq!(spinner_frame(0), "|");
    assert_eq!(spinner_frame(5), "/");
    assert_eq!(spinner_frame(10), "-");
    assert_eq!(spinner_frame(15), "\\");
    assert_eq!(spinner_frame(20), "|");
    assert_eq!(heartbeat_line_text(10), "- Build still running... elapsed: 10s\n");
    assert_eq!(heartbeat_status_text("Compiling kernel", 25), "Status: Compiling kernel (25s elapsed)");
}

#[test]
fn spinner_repeats_every_twenty_seconds() {
    for e in [0u64, 3, 7, 12, 19, 1000] {
        assert_eq!(spinner_frame(e), spinner_frame(e + 20));
    }
}

#[test]
fn every_stage_label_is_recognised() {
    let stages = [
        (BuildStage::PrepareWorkspace, "Preparing workspace"),
        (BuildStage::ValidateToolchain, "Validating toolchain"),
        (BuildStage::EnsureSource, "Acquiring source tree"),
        (BuildStage::ConfigureKernel, "Configuring kernel"),
        (BuildStage::CompileKernel, "Compiling kernel"),
        (BuildStage::PackageOutput, "Packaging output"),
        (BuildStage::Finalize, "Finalizing"),
    ];
    for (stage, name) in stages {
        assert_eq!(status_stage_from_message(stage.label()), Some(name));
    }
}

#[test]
fn form_selection_sets_every_option() {
    let selection = FormSelection {
        kernel_version: 1,
        architecture: 2,
        scheduler: 3,
        lto: 2,
        tick_rate: 4,
        nr_cpus: 0,
        tick_type: 1,
        preemption: 2,
        package_format: 3,
        o3: false,
        os: true,
        governor: true,
        bbr3: false,
        zfs: true,
    };
    let c = config_from_selection(KernelBuildConfig::new(Some(8)), &selection);
    assert_eq!(c.kernel_version(), kernel_version_from_index(1));
    assert_eq!(c.architecture(), architecture_from_index(2));
    assert_eq!(*c.scheduler(), scheduler_from_index(3));
    assert_eq!(*c.lto(), lto_from_index(2));
    assert_eq!(c.hz(), 300);
    assert_eq!(c.nr_cpus(), 1);
    assert_eq!(*c.tick_type(), tick_type_from_index(1));
    assert_eq!(*c.preemption(), preemption_from_index(2));
    assert_eq!(*c.package_format(), PackageFormat::Tarball);
    assert_eq!(
        c.system_optimizations(),
        &["Os".to_string(), "performance_governor".to_string(), "zfs".to_string()]
    );
    let d = config_from_selection(KernelBuildConfig::new(None), &selection);
    assert_eq!(d.nr_cpus(), 1);
    assert_eq!(d.kernel_version(), c.kernel_version());
}

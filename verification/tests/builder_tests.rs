use vinmod_kernel::builder::parallelism_fits_value;
use vinmod_kernel::builder::{
    CpuScheduler, KernelBuildConfig, LtoMode, PackageFormat, PreemptionType, TickType,
};
use vinmod_kernel::commands::{cpu_count_shell, kernel_config_commands};
use vinmod_kernel::paths::BuildPaths;

#[test]
fn default_config_values() {
    let c = KernelBuildConfig::new(Some(8));
    assert_eq!(c.kernel_version(), "6.19.12");
    assert_eq!(c.architecture(), "native");
    assert_eq!(*c.scheduler(), CpuScheduler::CachyOsBore);
    assert_eq!(*c.lto(), LtoMode::Thin);
    assert_eq!(c.hz(), 1000);
    assert_eq!(c.nr_cpus(), 16);
    assert_eq!(*c.tick_type(), TickType::NoHzIdle);
    assert_eq!(*c.preemption(), PreemptionType::Preempt);
    assert_eq!(*c.package_format(), PackageFormat::Debian);
    assert_eq!(c.system_optimizations(), &["O3".to_string(), "tcp_bbr3".to_string()]);
}

#[test]
fn default_cpu_count_without_parallelism() {
    let c = KernelBuildConfig::new(None);
    assert_eq!(c.nr_cpus(), 32);
}

#[test]
fn builder_sets_each_field() {
    let c = KernelBuildConfig::new(Some(2))
        .with_kernel_version("7.x-mainline")
        .with_architecture("zen4")
        .with_scheduler(CpuScheduler::Bmq)
        .with_lto(LtoMode::Full)
        .with_hz(300)
        .with_nr_cpus(12)
        .with_tick_type(TickType::Periodic)
        .with_preemption(PreemptionType::PreemptNone)
        .with_package_format(PackageFormat::Tarball)
        .with_system_optimizations(vec!["zfs".to_string()]);
    assert_eq!(c.kernel_version(), "7.x-mainline");
    assert_eq!(c.architecture(), "zen4");
    assert_eq!(*c.scheduler(), CpuScheduler::Bmq);
    assert_eq!(*c.lto(), LtoMode::Full);
    assert_eq!(c.hz(), 300);
    assert_eq!(c.nr_cpus(), 12);
    assert_eq!(*c.tick_type(), TickType::Periodic);
    assert_eq!(*c.preemption(), PreemptionType::PreemptNone);
    assert_eq!(*c.package_format(), PackageFormat::Tarball);
    assert_eq!(c.system_optimizations(), &["zfs".to_string()]);
}

#[test]
fn setting_one_field_keeps_the_others() {
    let c = KernelBuildConfig::new(Some(3)).with_hz(250);
    assert_eq!(c.hz(), 250);
    assert_eq!(c.nr_cpus(), 6);
    assert_eq!(c.kernel_version(), "6.19.12");
    assert_eq!(*c.scheduler(), CpuScheduler::CachyOsBore);
}

#[test]
fn zero_cpus_become_one() {
    let c = KernelBuildConfig::new(Some(4)).with_nr_cpus(0);
    assert_eq!(c.nr_cpus(), 1);
    let c = c.with_nr_cpus(1);
    assert_eq!(c.nr_cpus(), 1);
}

#[test]
fn package_format_from_index() {
    assert_eq!(PackageFormat::from_index(0), PackageFormat::Debian);
    assert_eq!(PackageFormat::from_index(1), PackageFormat::RedHat);
    assert_eq!(PackageFormat::from_index(2), PackageFormat::Arch);
    assert_eq!(PackageFormat::from_index(3), PackageFormat::Tarball);
    assert_eq!(PackageFormat::from_index(4), PackageFormat::Debian);
    assert_eq!(PackageFormat::from_index(u32::MAX), PackageFormat::Debian);
    assert_eq!(PackageFormat::from(2u32), PackageFormat::Arch);
}

#[test]
fn option_defaults() {
    assert_eq!(CpuScheduler::default(), CpuScheduler::CachyOsBore);
    assert_eq!(LtoMode::default(), LtoMode::Thin);
    assert_eq!(TickType::default(), TickType::NoHzIdle);
    assert_eq!(PreemptionType::default(), PreemptionType::Preempt);
    assert_eq!(PackageFormat::default(), PackageFormat::Debian);
}

#[test]
fn option_names() {
    assert_eq!(CpuScheduler::CachyOsBore.to_string(), "cachyos");
    assert_eq!(CpuScheduler::Bore.to_string(), "bore");
    assert_eq!(CpuScheduler::Eevdf.to_string(), "eevdf");
    assert_eq!(CpuScheduler::Bmq.to_string(), "bmq");
    assert_eq!(CpuScheduler::RealTime.to_string(), "rt");
    assert_eq!(LtoMode::Thin.to_string(), "thin");
    assert_eq!(LtoMode::ThinDist.to_string(), "thin-dist");
    assert_eq!(LtoMode::Full.to_string(), "full");
    assert_eq!(LtoMode::NoLto.to_string(), "none");
    assert_eq!(TickType::NoHzIdle.to_string(), "nohz_idle");
    assert_eq!(TickType::NoHzFull.to_string(), "nohz_full");
    assert_eq!(TickType::Periodic.to_string(), "periodic");
    assert_eq!(PreemptionType::Preempt.to_string(), "preempt");
    assert_eq!(PreemptionType::Voluntary.to_string(), "voluntary");
    assert_eq!(PreemptionType::PreemptDynamic.to_string(), "preempt_dynamic");
    assert_eq!(PreemptionType::PreemptNone.to_string(), "none");
    assert_eq!(PackageFormat::Debian.to_string(), "deb");
    assert_eq!(PackageFormat::RedHat.to_string(), "rpm");
    assert_eq!(PackageFormat::Arch.to_string(), "pkg.tar.zst");
    assert_eq!(PackageFormat::Tarball.to_string(), "tar.gz");
}

#[test]
fn kernel_config_lines_for_default_config() {
    let c = KernelBuildConfig::new(Some(8));
    let lines = kernel_config_commands(&c);
    assert_eq!(lines.len(), 16);
    assert_eq!(lines[0], "scripts/config -d HZ_100 -d HZ_250 -d HZ_300 -d HZ_500 -d HZ_600 -d HZ_750 -d HZ_1000");
    assert_eq!(lines[1], "scripts/config --set-val HZ 1000");
    assert_eq!(lines[3], "scripts/config -e NO_HZ_IDLE -e NO_HZ -e NO_HZ_COMMON");
    assert_eq!(lines[5], "scripts/config -e PREEMPT");
    assert_eq!(lines[13], "scripts/config -e SCHED_BORE");
    assert_eq!(lines[14], "scripts/config -d HUGETLB_PAGE -e TRANSPARENT_HUGEPAGE");
    assert_eq!(lines[15], "scripts/config --set-val NR_CPUS 16");
}

#[test]
fn kernel_config_lines_follow_choices() {
    let c = KernelBuildConfig::new(Some(1))
        .with_hz(750)
        .with_nr_cpus(1024)
        .with_tick_type(TickType::NoHzFull)
        .with_preemption(PreemptionType::PreemptDynamic)
        .with_scheduler(CpuScheduler::RealTime);
    let lines = kernel_config_commands(&c);
    assert_eq!(lines[1], "scripts/config --set-val HZ 750");
    assert_eq!(lines[3], "scripts/config -e NO_HZ_FULL_NODEF -e NO_HZ_FULL -e NO_HZ -e NO_HZ_COMMON -e CONTEXT_TRACKING");
    assert_eq!(lines[5], "scripts/config -e PREEMPT_DYNAMIC");
    assert_eq!(lines[13], "scripts/config -e PREEMPT_RT");
    assert_eq!(lines[15], "scripts/config --set-val NR_CPUS 1024");
    let c = c.with_scheduler(CpuScheduler::Eevdf).with_tick_type(TickType::Periodic);
    let lines = kernel_config_commands(&c);
    assert_eq!(lines[3], "scripts/config -e HZ_PERIODIC");
    assert_eq!(lines[13], "scripts/config -e SCHED_CORE");
}

#[test]
fn cpu_count_expression() {
    assert_eq!(
        cpu_count_shell(),
        "$(nproc --all 2>/dev/null || getconf _NPROCESSORS_ONLN 2>/dev/null || echo 1)"
    );
}

#[test]
fn build_paths_for_debian() {
    let c = KernelBuildConfig::new(Some(2));
    let p = BuildPaths::new("build-artifacts", &c);
    assert_eq!(p.root, "build-artifacts");
    assert_eq!(p.source_dir, "build-artifacts/linux-src");
    assert_eq!(p.bundle_dir, "build-artifacts/bundle");
    assert_eq!(p.package_root, "build-artifacts/bundle/vinmod-kernel-6.19.12-deb");
    assert_eq!(p.manifest_path, "build-artifacts/build-manifest.txt");
    assert_eq!(p.snapshot_path, "build-artifacts/system-snapshot.txt");
    assert_eq!(p.status_path, "build-artifacts/BUILD_STATUS.txt");
    assert_eq!(p.output_path, "build-artifacts/vinmod-kernel-6.19.12-deb.deb");
    assert_eq!(p.config_fragment_path, "build-artifacts/kernel-profile.fragment");
}

#[test]
fn build_paths_replace_slashes_in_version() {
    let c = KernelBuildConfig::new(Some(2))
        .with_kernel_version("feature/x")
        .with_package_format(PackageFormat::Arch);
    let p = BuildPaths::new("/tmp/w", &c);
    assert_eq!(p.package_root, "/tmp/w/bundle/vinmod-kernel-feature-x-pkg.tar.zst");
    assert_eq!(p.output_path, "/tmp/w/vinmod-kernel-feature-x-pkg.tar.zst.pkg.tar.gz");
    let c = c.with_package_format(PackageFormat::RedHat);
    let p = BuildPaths::new("/tmp/w", &c);
    assert_eq!(p.output_path, "/tmp/w/vinmod-kernel-feature-x-rpm.tar.gz");
    let c = c.with_package_format(PackageFormat::Tarball);
    let p = BuildPaths::new("/tmp/w", &c);
    assert_eq!(p.output_path, "/tmp/w/vinmod-kernel-feature-x-tar.gz.tar.gz");
}

#[test]
fn parallelism_bounds() {
    assert!(parallelism_fits_value(None));
    assert!(parallelism_fits_value(Some(1)));
    assert!(!parallelism_fits_value(Some(0)));
    assert!(!parallelism_fits_value(Some(0x8000_0000)));
    assert!(KernelBuildConfig::new(Some(1)).nr_cpus() >= 1);
}

#[test]
fn clone_keeps_every_option() {
    let c = KernelBuildConfig::new(Some(2))
        .with_kernel_version("7.x-mainline")
        .with_architecture("zen4")
        .with_scheduler(CpuScheduler::Eevdf)
        .with_lto(LtoMode::Full)
        .with_hz(300)
        .with_nr_cpus(0)
        .with_tick_type(TickType::NoHzFull)
        .with_preemption(PreemptionType::Voluntary)
        .with_package_format(PackageFormat::Arch)
        .with_system_optimizations(vec!["Os".to_string(), "zfs".to_string()]);
    let d = c.clone();
    assert_eq!(d.kernel_version(), "7.x-mainline");
    assert_eq!(d.architecture(), "zen4");
    assert_eq!(*d.scheduler(), CpuScheduler::Eevdf);
    assert_eq!(*d.lto(), LtoMode::Full);
    assert_eq!(d.hz(), 300);
    assert_eq!(d.nr_cpus(), 1);
    assert_eq!(*d.tick_type(), TickType::NoHzFull);
    assert_eq!(*d.preemption(), PreemptionType::Voluntary);
    assert_eq!(*d.package_format(), PackageFormat::Arch);
    assert_eq!(d.system_optimizations(), &["Os".to_string(), "zfs".to_string()]);
}

#[test]
fn layout_names_with_separators_stay_under_root() {
    let c = KernelBuildConfig::new(Some(2)).with_kernel_version("x:y\\z");
    let p = BuildPaths::new("/w", &c);
    assert_eq!(p.package_root, "/w/bundle/vinmod-kernel-x:y\\z-deb");
    assert_eq!(p.output_path, "/w/vinmod-kernel-x:y\\z-deb.deb");
    let p = BuildPaths::new("", &c);
    assert_eq!(p.source_dir, "linux-src");
    let p = BuildPaths::new("w/", &c);
    assert_eq!(p.source_dir, "w/linux-src");
}

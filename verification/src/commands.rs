//! The shell scripts and texts of a build: the kernel configuration lines,
//! the commands of each stage and the manifest.

use vstd::prelude::*;

use crate::builder::{CpuScheduler, KernelBuildConfig, KernelBuildConfigView, PreemptionType, TickType};
use crate::text::{decimal, decimal_string, lemma_decimal_parses_back, parsed_usize};

verus! {

/// The line that enables the chosen tick type.
pub open spec fn tick_line(t: TickType) -> Seq<char> {
    match t {
        TickType::NoHzIdle => "scripts/config -e NO_HZ_IDLE -e NO_HZ -e NO_HZ_COMMON"@,
        TickType::NoHzFull => "scripts/config -e NO_HZ_FULL_NODEF -e NO_HZ_FULL -e NO_HZ -e NO_HZ_COMMON -e CONTEXT_TRACKING"@,
        TickType::Periodic => "scripts/config -e HZ_PERIODIC"@,
    }
}

/// The line that enables the chosen preemption model.
pub open spec fn preemption_line(p: PreemptionType) -> Seq<char> {
    match p {
        PreemptionType::Preempt => "scripts/config -e PREEMPT"@,
        PreemptionType::Voluntary => "scripts/config -e PREEMPT_VOLUNTARY"@,
        PreemptionType::PreemptDynamic => "scripts/config -e PREEMPT_DYNAMIC"@,
        PreemptionType::PreemptNone => "scripts/config -e PREEMPT_NONE"@,
    }
}

/// The line that enables the chosen scheduler.
pub open spec fn scheduler_line(s: CpuScheduler) -> Seq<char> {
    match s {
        CpuScheduler::CachyOsBore => "scripts/config -e SCHED_BORE"@,
        CpuScheduler::Bore => "scripts/config -e SCHED_BORE"@,
        CpuScheduler::Eevdf => "scripts/config -e SCHED_CORE"@,
        CpuScheduler::Bmq => "scripts/config -e SCHED_BMQ"@,
        CpuScheduler::RealTime => "scripts/config -e PREEMPT_RT"@,
    }
}

/// The `scripts/config` lines that set up the kernel for configuration `c`:
/// each option group is first cleared, then set to the chosen value.
pub open spec fn kernel_config_lines(c: KernelBuildConfigView) -> Seq<Seq<char>> {
    seq![
        "scripts/config -d HZ_100 -d HZ_250 -d HZ_300 -d HZ_500 -d HZ_600 -d HZ_750 -d HZ_1000"@,
        "scripts/config --set-val HZ "@ + decimal(c.hz as nat),
        "scripts/config -d NO_HZ_IDLE -d NO_HZ_FULL -d NO_HZ_FULL_NODEF -d NO_HZ -d NO_HZ_COMMON -d CONTEXT_TRACKING"@,
        tick_line(c.tick_type),
        "scripts/config -d PREEMPT_NONE -d PREEMPT_VOLUNTARY -d PREEMPT -d PREEMPT_DYNAMIC -d PREEMPT_RT"@,
        preemption_line(c.preemption),
        "scripts/config -d TRANSPARENT_HUGEPAGE -d TRANSPARENT_HUGEPAGE_ALWAYS -d TRANSPARENT_HUGEPAGE_MADVISE -d TRANSPARENT_HUGEPAGE_NEVER"@,
        "scripts/config -e TRANSPARENT_HUGEPAGE -e TRANSPARENT_HUGEPAGE_MADVISE"@,
        "scripts/config -d CPU_FREQ_DEFAULT_GOV_POWERSAVE -d CPU_FREQ_DEFAULT_GOV_SCHEDUTIL -d CPU_FREQ_DEFAULT_GOV_USERSPACE -d CPU_FREQ_DEFAULT_GOV_ONDEMAND -d CPU_FREQ_DEFAULT_GOV_CONSERVATIVE -d CPU_FREQ_DEFAULT_GOV_PERFORMANCE"@,
        "scripts/config -e CPU_FREQ_GOV_PERFORMANCE -e CPU_FREQ_DEFAULT_GOV_PERFORMANCE"@,
        "scripts/config -d TCP_CONG_BBR -d TCP_CONG_BBR3 -d DEFAULT_RENO -d DEFAULT_CUBIC -d DEFAULT_BBR -d DEFAULT_BBR3"@,
        "scripts/config -e TCP_CONG_BBR -e TCP_CONG_BBR3 --set-str DEFAULT_TCP_CONG bbr3"@,
        "scripts/config -d SCHED_BORE -d SCHED_ALT -d SCHED_BMQ -d SCHED_CLASS_EXT -d SCHED_CORE"@,
        scheduler_line(c.scheduler),
        "scripts/config -d HUGETLB_PAGE -e TRANSPARENT_HUGEPAGE"@,
        "scripts/config --set-val NR_CPUS "@ + decimal(c.nr_cpus as nat),
    ]
}

/// The configuration lines hold, in order, the HZ group (cleared, then set
/// to the tick rate), the tick group, the preemption group, huge pages
/// (madvise), the performance CPU governor, BBR3 congestion control, the
/// scheduler group, and the CPU count; each group is cleared before its
/// option is set. Each chosen option enables the kernel option named after
/// it, and the HZ and NR_CPUS lines end in the decimal text of the chosen
/// values.
pub proof fn lemma_kernel_config_choices(c: KernelBuildConfigView)
    ensures
        kernel_config_lines(c).len() == 16,
        kernel_config_lines(c)[0] == "scripts/config -d HZ_100 -d HZ_250 -d HZ_300 -d HZ_500 -d HZ_600 -d HZ_750 -d HZ_1000"@,
        kernel_config_lines(c)[2] == "scripts/config -d NO_HZ_IDLE -d NO_HZ_FULL -d NO_HZ_FULL_NODEF -d NO_HZ -d NO_HZ_COMMON -d CONTEXT_TRACKING"@,
        kernel_config_lines(c)[4] == "scripts/config -d PREEMPT_NONE -d PREEMPT_VOLUNTARY -d PREEMPT -d PREEMPT_DYNAMIC -d PREEMPT_RT"@,
        kernel_config_lines(c)[6] == "scripts/config -d TRANSPARENT_HUGEPAGE -d TRANSPARENT_HUGEPAGE_ALWAYS -d TRANSPARENT_HUGEPAGE_MADVISE -d TRANSPARENT_HUGEPAGE_NEVER"@,
        kernel_config_lines(c)[7] == "scripts/config -e TRANSPARENT_HUGEPAGE -e TRANSPARENT_HUGEPAGE_MADVISE"@,
        kernel_config_lines(c)[8] == "scripts/config -d CPU_FREQ_DEFAULT_GOV_POWERSAVE -d CPU_FREQ_DEFAULT_GOV_SCHEDUTIL -d CPU_FREQ_DEFAULT_GOV_USERSPACE -d CPU_FREQ_DEFAULT_GOV_ONDEMAND -d CPU_FREQ_DEFAULT_GOV_CONSERVATIVE -d CPU_FREQ_DEFAULT_GOV_PERFORMANCE"@,
        kernel_config_lines(c)[9] == "scripts/config -e CPU_FREQ_GOV_PERFORMANCE -e CPU_FREQ_DEFAULT_GOV_PERFORMANCE"@,
        kernel_config_lines(c)[10] == "scripts/config -d TCP_CONG_BBR -d TCP_CONG_BBR3 -d DEFAULT_RENO -d DEFAULT_CUBIC -d DEFAULT_BBR -d DEFAULT_BBR3"@,
        kernel_config_lines(c)[11] == "scripts/config -e TCP_CONG_BBR -e TCP_CONG_BBR3 --set-str DEFAULT_TCP_CONG bbr3"@,
        kernel_config_lines(c)[12] == "scripts/config -d SCHED_BORE -d SCHED_ALT -d SCHED_BMQ -d SCHED_CLASS_EXT -d SCHED_CORE"@,
        kernel_config_lines(c)[14] == "scripts/config -d HUGETLB_PAGE -e TRANSPARENT_HUGEPAGE"@,
        c.tick_type == TickType::NoHzIdle ==> kernel_config_lines(c)[3]
            == "scripts/config -e NO_HZ_IDLE -e NO_HZ -e NO_HZ_COMMON"@,
        c.tick_type == TickType::NoHzFull ==> kernel_config_lines(c)[3]
            == "scripts/config -e NO_HZ_FULL_NODEF -e NO_HZ_FULL -e NO_HZ -e NO_HZ_COMMON -e CONTEXT_TRACKING"@,
        c.tick_type == TickType::Periodic ==> kernel_config_lines(c)[3]
            == "scripts/config -e HZ_PERIODIC"@,
        c.preemption == PreemptionType::Preempt ==> kernel_config_lines(c)[5]
            == "scripts/config -e PREEMPT"@,
        c.preemption == PreemptionType::Voluntary ==> kernel_config_lines(c)[5]
            == "scripts/config -e PREEMPT_VOLUNTARY"@,
        c.preemption == PreemptionType::PreemptDynamic ==> kernel_config_lines(c)[5]
            == "scripts/config -e PREEMPT_DYNAMIC"@,
        c.preemption == PreemptionType::PreemptNone ==> kernel_config_lines(c)[5]
            == "scripts/config -e PREEMPT_NONE"@,
        c.scheduler == CpuScheduler::CachyOsBore ==> kernel_config_lines(c)[13]
            == "scripts/config -e SCHED_BORE"@,
        c.scheduler == CpuScheduler::Bore ==> kernel_config_lines(c)[13]
            == "scripts/config -e SCHED_BORE"@,
        c.scheduler == CpuScheduler::Eevdf ==> kernel_config_lines(c)[13]
            == "scripts/config -e SCHED_CORE"@,
        c.scheduler == CpuScheduler::Bmq ==> kernel_config_lines(c)[13]
            == "scripts/config -e SCHED_BMQ"@,
        c.scheduler == CpuScheduler::RealTime ==> kernel_config_lines(c)[13]
            == "scripts/config -e PREEMPT_RT"@,
        exists|t: Seq<char>|
            kernel_config_lines(c)[1] == "scripts/config --set-val HZ "@ + t
                && #[trigger] parsed_usize(t) == Some(c.hz as usize),
        exists|t: Seq<char>|
            kernel_config_lines(c)[15] == "scripts/config --set-val NR_CPUS "@ + t
                && #[trigger] parsed_usize(t) == Some(c.nr_cpus as usize),
{
    lemma_decimal_parses_back(c.hz as usize);
    lemma_decimal_parses_back(c.nr_cpus as usize);
    assert(parsed_usize(decimal(c.hz as nat)) == Some(c.hz as usize));
    assert(parsed_usize(decimal(c.nr_cpus as nat)) == Some(c.nr_cpus as usize));
}

/// Different choices give different configuration lines: the tick line, the
/// preemption line, the HZ line and the NR_CPUS line each tell the chosen
/// value apart, and the scheduler line tells the schedulers apart but for
/// the two BORE variants, which enable the same option.
pub proof fn lemma_kernel_config_distinguishes(c1: KernelBuildConfigView, c2: KernelBuildConfigView)
    ensures
        kernel_config_lines(c1)[1] == kernel_config_lines(c2)[1] ==> c1.hz == c2.hz,
        kernel_config_lines(c1)[3] == kernel_config_lines(c2)[3] ==> c1.tick_type == c2.tick_type,
        kernel_config_lines(c1)[5] == kernel_config_lines(c2)[5] ==> c1.preemption == c2.preemption,
        kernel_config_lines(c1)[13] == kernel_config_lines(c2)[13] ==> c1.scheduler == c2.scheduler
            || (bore_family(c1.scheduler) && bore_family(c2.scheduler)),
        kernel_config_lines(c1)[15] == kernel_config_lines(c2)[15] ==> c1.nr_cpus == c2.nr_cpus,
{
    reveal_strlit("scripts/config -e NO_HZ_IDLE -e NO_HZ -e NO_HZ_COMMON");
    reveal_strlit("scripts/config -e NO_HZ_FULL_NODEF -e NO_HZ_FULL -e NO_HZ -e NO_HZ_COMMON -e CONTEXT_TRACKING");
    reveal_strlit("scripts/config -e HZ_PERIODIC");
    reveal_strlit("scripts/config -e PREEMPT");
    reveal_strlit("scripts/config -e PREEMPT_VOLUNTARY");
    reveal_strlit("scripts/config -e PREEMPT_DYNAMIC");
    reveal_strlit("scripts/config -e PREEMPT_NONE");
    reveal_strlit("scripts/config -e SCHED_BORE");
    reveal_strlit("scripts/config -e SCHED_CORE");
    reveal_strlit("scripts/config -e SCHED_BMQ");
    reveal_strlit("scripts/config -e PREEMPT_RT");
    assert("scripts/config -e NO_HZ_IDLE -e NO_HZ -e NO_HZ_COMMON"@.len() == 53);
    assert("scripts/config -e NO_HZ_FULL_NODEF -e NO_HZ_FULL -e NO_HZ -e NO_HZ_COMMON -e CONTEXT_TRACKING"@.len() == 93);
    assert("scripts/config -e HZ_PERIODIC"@.len() == 29);
    assert("scripts/config -e PREEMPT"@.len() == 25);
    assert("scripts/config -e PREEMPT_VOLUNTARY"@.len() == 35);
    assert("scripts/config -e PREEMPT_DYNAMIC"@.len() == 33);
    assert("scripts/config -e PREEMPT_NONE"@.len() == 30);
    assert("scripts/config -e SCHED_BMQ"@.len() == 27);
    assert("scripts/config -e SCHED_BORE"@.len() == 28);
    assert("scripts/config -e SCHED_BORE"@[24] != "scripts/config -e SCHED_CORE"@[24]);
    assert("scripts/config -e SCHED_BORE"@[18] != "scripts/config -e PREEMPT_RT"@[18]);
    assert("scripts/config -e SCHED_CORE"@[18] != "scripts/config -e PREEMPT_RT"@[18]);
    if kernel_config_lines(c1)[13] == kernel_config_lines(c2)[13] {
        assert(scheduler_line(c1.scheduler) == scheduler_line(c2.scheduler));
        assert(c1.scheduler == c2.scheduler || (bore_family(c1.scheduler) && bore_family(
            c2.scheduler,
        ))) by {
            assert(scheduler_line(c1.scheduler)[18] == scheduler_line(c2.scheduler)[18]);
            assert(scheduler_line(c1.scheduler)[24] == scheduler_line(c2.scheduler)[24]);
        }
    }
    let hz = "scripts/config --set-val HZ "@;
    let nr = "scripts/config --set-val NR_CPUS "@;
    let l1 = kernel_config_lines(c1);
    let l2 = kernel_config_lines(c2);
    if l1[1] == l2[1] {
        assert(decimal(c1.hz as nat) =~= l1[1].subrange(hz.len() as int, l1[1].len() as int));
        assert(decimal(c2.hz as nat) =~= l2[1].subrange(hz.len() as int, l2[1].len() as int));
        lemma_decimal_parses_back(c1.hz as usize);
        lemma_decimal_parses_back(c2.hz as usize);
    }
    if l1[15] == l2[15] {
        assert(decimal(c1.nr_cpus as nat) =~= l1[15].subrange(nr.len() as int, l1[15].len() as int));
        assert(decimal(c2.nr_cpus as nat) =~= l2[15].subrange(nr.len() as int, l2[15].len() as int));
        lemma_decimal_parses_back(c1.nr_cpus as usize);
        lemma_decimal_parses_back(c2.nr_cpus as usize);
    }
}

/// Whether a scheduler is one of the two BORE variants.
pub open spec fn bore_family(s: CpuScheduler) -> bool {
    s == CpuScheduler::CachyOsBore || s == CpuScheduler::Bore
}

/// The kernel configuration lines of `config`.
pub fn kernel_config_commands(config: &KernelBuildConfig) -> (commands: Vec<String>)
    ensures
        commands@.map_values(|s: String| s@) == kernel_config_lines(config@),
{
    let mut commands: Vec<String> = Vec::new();
    commands.push(String::from_str("scripts/config -d HZ_100 -d HZ_250 -d HZ_300 -d HZ_500 -d HZ_600 -d HZ_750 -d HZ_1000"));
    let mut hz = String::from_str("scripts/config --set-val HZ ");
    let hz_value = decimal_string(config.hz() as u64);
    hz.append(hz_value.as_str());
    commands.push(hz);
    commands.push(String::from_str("scripts/config -d NO_HZ_IDLE -d NO_HZ_FULL -d NO_HZ_FULL_NODEF -d NO_HZ -d NO_HZ_COMMON -d CONTEXT_TRACKING"));
    match config.tick_type() {
        TickType::NoHzIdle => commands.push(String::from_str("scripts/config -e NO_HZ_IDLE -e NO_HZ -e NO_HZ_COMMON")),
        TickType::NoHzFull => commands.push(String::from_str("scripts/config -e NO_HZ_FULL_NODEF -e NO_HZ_FULL -e NO_HZ -e NO_HZ_COMMON -e CONTEXT_TRACKING")),
        TickType::Periodic => commands.push(String::from_str("scripts/config -e HZ_PERIODIC")),
    }
    commands.push(String::from_str("scripts/config -d PREEMPT_NONE -d PREEMPT_VOLUNTARY -d PREEMPT -d PREEMPT_DYNAMIC -d PREEMPT_RT"));
    match config.preemption() {
        PreemptionType::Preempt => commands.push(String::from_str("scripts/config -e PREEMPT")),
        PreemptionType::Voluntary => commands.push(String::from_str("scripts/config -e PREEMPT_VOLUNTARY")),
        PreemptionType::PreemptDynamic => commands.push(String::from_str("scripts/config -e PREEMPT_DYNAMIC")),
        PreemptionType::PreemptNone => commands.push(String::from_str("scripts/config -e PREEMPT_NONE")),
    }
    commands.push(String::from_str("scripts/config -d TRANSPARENT_HUGEPAGE -d TRANSPARENT_HUGEPAGE_ALWAYS -d TRANSPARENT_HUGEPAGE_MADVISE -d TRANSPARENT_HUGEPAGE_NEVER"));
    commands.push(String::from_str("scripts/config -e TRANSPARENT_HUGEPAGE -e TRANSPARENT_HUGEPAGE_MADVISE"));
    commands.push(String::from_str("scripts/config -d CPU_FREQ_DEFAULT_GOV_POWERSAVE -d CPU_FREQ_DEFAULT_GOV_SCHEDUTIL -d CPU_FREQ_DEFAULT_GOV_USERSPACE -d CPU_FREQ_DEFAULT_GOV_ONDEMAND -d CPU_FREQ_DEFAULT_GOV_CONSERVATIVE -d CPU_FREQ_DEFAULT_GOV_PERFORMANCE"));
    commands.push(String::from_str("scripts/config -e CPU_FREQ_GOV_PERFORMANCE -e CPU_FREQ_DEFAULT_GOV_PERFORMANCE"));
    commands.push(String::from_str("scripts/config -d TCP_CONG_BBR -d TCP_CONG_BBR3 -d DEFAULT_RENO -d DEFAULT_CUBIC -d DEFAULT_BBR -d DEFAULT_BBR3"));
    commands.push(String::from_str("scripts/config -e TCP_CONG_BBR -e TCP_CONG_BBR3 --set-str DEFAULT_TCP_CONG bbr3"));
    commands.push(String::from_str("scripts/config -d SCHED_BORE -d SCHED_ALT -d SCHED_BMQ -d SCHED_CLASS_EXT -d SCHED_CORE"));
    match config.scheduler() {
        CpuScheduler::CachyOsBore => commands.push(String::from_str("scripts/config -e SCHED_BORE")),
        CpuScheduler::Bore => commands.push(String::from_str("scripts/config -e SCHED_BORE")),
        CpuScheduler::Eevdf => commands.push(String::from_str("scripts/config -e SCHED_CORE")),
        CpuScheduler::Bmq => commands.push(String::from_str("scripts/config -e SCHED_BMQ")),
        CpuScheduler::RealTime => commands.push(String::from_str("scripts/config -e PREEMPT_RT")),
    }
    commands.push(String::from_str("scripts/config -d HUGETLB_PAGE -e TRANSPARENT_HUGEPAGE"));
    let mut cpus = String::from_str("scripts/config --set-val NR_CPUS ");
    let cpus_value = decimal_string(config.nr_cpus() as u64);
    cpus.append(cpus_value.as_str());
    commands.push(cpus);
    assert(commands@.map_values(|s: String| s@) =~= kernel_config_lines(config@));
    commands
}

/// The shell expression that counts the machine's processors when the
/// build runs.
pub open spec fn cpu_count_expression() -> Seq<char> {
    "$(nproc --all 2>/dev/null || getconf _NPROCESSORS_ONLN 2>/dev/null || echo 1)"@
}

/// The shell expression that counts the machine's processors.
pub fn cpu_count_shell() -> (s: String)
    ensures
        s@ == cpu_count_expression(),
{
    String::from_str("$(nproc --all 2>/dev/null || getconf _NPROCESSORS_ONLN 2>/dev/null || echo 1)")
}

/// The script that fetches the kernel source tree into `source`, checking out `reference` of `repo`.
pub open spec fn source_fetch_command(source: Seq<char>, reference: Seq<char>, repo: Seq<char>) -> Seq<char> {
    "\n            set -e\n            if [ -d '"@ + source + "/.git' ]; then\n                cd '"@ + source + "'\n                git fetch --tags --depth 1 origin '"@ + reference + "' >/dev/null 2>&1 || true\n                git checkout -f '"@ + reference + "' >/dev/null 2>&1 || true\n            elif [ -f '"@ + source + "/Makefile' ]; then\n                true\n            else\n                git clone --depth 1 --branch '"@ + reference + "' '"@ + repo + "' '"@ + source + "' || git clone --depth 1 '"@ + repo + "' '"@ + source + "'\n            fi\n            "@
}

/// The script that fetches the kernel source tree into `source`, checking out `reference` of `repo`.
pub fn source_fetch_command_text(source: &str, reference: &str, repo: &str) -> (s: String)
    ensures
        s@ == source_fetch_command(source@, reference@, repo@),
{
    let mut s = String::from_str("\n            set -e\n            if [ -d '");
    s.append(source);
    s.append("/.git' ]; then\n                cd '");
    s.append(source);
    s.append("'\n                git fetch --tags --depth 1 origin '");
    s.append(reference);
    s.append("' >/dev/null 2>&1 || true\n                git checkout -f '");
    s.append(reference);
    s.append("' >/dev/null 2>&1 || true\n            elif [ -f '");
    s.append(source);
    s.append("/Makefile' ]; then\n                true\n            else\n                git clone --depth 1 --branch '");
    s.append(reference);
    s.append("' '");
    s.append(repo);
    s.append("' '");
    s.append(source);
    s.append("' || git clone --depth 1 '");
    s.append(repo);
    s.append("' '");
    s.append(source);
    s.append("'\n            fi\n            ");
    s
}

/// The script that configures the kernel in `source` with the configuration `commands`.
pub open spec fn configure_command(source: Seq<char>, commands: Seq<char>) -> Seq<char> {
    "\n            set -e\n            cd '"@ + source + "'\n            if [ ! -f .config ]; then\n                make defconfig\n            fi\n            "@ + commands + "\n            make olddefconfig\n            "@
}

/// The script that configures the kernel in `source` with the configuration `commands`.
pub fn configure_command_text(source: &str, commands: &str) -> (s: String)
    ensures
        s@ == configure_command(source@, commands@),
{
    let mut s = String::from_str("\n            set -e\n            cd '");
    s.append(source);
    s.append("'\n            if [ ! -f .config ]; then\n                make defconfig\n            fi\n            ");
    s.append(commands);
    s.append("\n            make olddefconfig\n            ");
    s
}

/// The script that compiles the kernel in `source` into Debian packages.
pub open spec fn compile_debian_command(source: Seq<char>, cpu_count: Seq<char>) -> Seq<char> {
    "\n                set -e\n                cd '"@ + source + "'\n                make -j"@ + cpu_count + " bindeb-pkg LOCALVERSION=-vinmod KDEB_PKGVERSION=1.0\n                "@
}

/// The script that compiles the kernel in `source` into Debian packages.
pub fn compile_debian_command_text(source: &str, cpu_count: &str) -> (s: String)
    ensures
        s@ == compile_debian_command(source@, cpu_count@),
{
    let mut s = String::from_str("\n                set -e\n                cd '");
    s.append(source);
    s.append("'\n                make -j");
    s.append(cpu_count);
    s.append(" bindeb-pkg LOCALVERSION=-vinmod KDEB_PKGVERSION=1.0\n                ");
    s
}

/// The script that compiles the kernel in `source` and installs its modules under `bundle`.
pub open spec fn compile_modules_command(source: Seq<char>, cpu_count: Seq<char>, bundle: Seq<char>) -> Seq<char> {
    "\n                set -e\n                cd '"@ + source + "'\n                make -j"@ + cpu_count + "\n                make modules_install INSTALL_MOD_PATH='"@ + bundle + "' >/dev/null 2>&1 || true\n                "@
}

/// The script that compiles the kernel in `source` and installs its modules under `bundle`.
pub fn compile_modules_command_text(source: &str, cpu_count: &str, bundle: &str) -> (s: String)
    ensures
        s@ == compile_modules_command(source@, cpu_count@, bundle@),
{
    let mut s = String::from_str("\n                set -e\n                cd '");
    s.append(source);
    s.append("'\n                make -j");
    s.append(cpu_count);
    s.append("\n                make modules_install INSTALL_MOD_PATH='");
    s.append(bundle);
    s.append("' >/dev/null 2>&1 || true\n                ");
    s
}

/// The script that lists the Debian package files in `parent`.
pub open spec fn locate_packages_command(parent: Seq<char>) -> Seq<char> {
    "\n                    set -e\n                    find '"@ + parent + "' -maxdepth 1 -type f \\( -name '*.deb' -o -name '*.dsc' -o -name '*.changes' \\) | sort\n                    "@
}

/// The script that lists the Debian package files in `parent`.
pub fn locate_packages_command_text(parent: &str) -> (s: String)
    ensures
        s@ == locate_packages_command(parent@),
{
    let mut s = String::from_str("\n                    set -e\n                    find '");
    s.append(parent);
    s.append("' -maxdepth 1 -type f \\( -name '*.deb' -o -name '*.dsc' -o -name '*.changes' \\) | sort\n                    ");
    s
}

/// The script that packs the build files under `root` into `archive`.
pub open spec fn archive_command(archive: Seq<char>, root: Seq<char>) -> Seq<char> {
    "\n                    set -e\n                    tar -czf '"@ + archive + "' -C '"@ + root + "' \\\n                        'build-manifest.txt' \\\n                        'system-snapshot.txt' \\\n                        'kernel-profile.fragment' \\\n                        'bundle'\n                    "@
}

/// The script that packs the build files under `root` into `archive`.
pub fn archive_command_text(archive: &str, root: &str) -> (s: String)
    ensures
        s@ == archive_command(archive@, root@),
{
    let mut s = String::from_str("\n                    set -e\n                    tar -czf '");
    s.append(archive);
    s.append("' -C '");
    s.append(root);
    s.append("' \\\n                        'build-manifest.txt' \\\n                        'system-snapshot.txt' \\\n                        'kernel-profile.fragment' \\\n                        'bundle'\n                    ");
    s
}

/// The command that checks that `tool` is installed.
pub open spec fn tool_check_command(tool: Seq<char>) -> Seq<char> {
    "command -v "@ + tool + " >/dev/null 2>&1"@
}

/// The command that checks that `tool` is installed.
pub fn tool_check_command_text(tool: &str) -> (s: String)
    ensures
        s@ == tool_check_command(tool@),
{
    let mut s = String::from_str("command -v ");
    s.append(tool);
    s.append(" >/dev/null 2>&1");
    s
}

/// The failure reported for a missing `tool`.
pub open spec fn missing_tool_message(tool: Seq<char>) -> Seq<char> {
    "Required tool not found: "@ + tool
}

/// The failure reported for a missing `tool`.
pub fn missing_tool_message_text(tool: &str) -> (s: String)
    ensures
        s@ == missing_tool_message(tool@),
{
    let mut s = String::from_str("Required tool not found: ");
    s.append(tool);
    s
}

/// The manifest of a build.
pub open spec fn manifest(kernel_version: Seq<char>, architecture: Seq<char>, scheduler: Seq<char>, lto: Seq<char>, hz: Seq<char>, nr_cpus: Seq<char>, tick_type: Seq<char>, preemption: Seq<char>, package: Seq<char>, optimizations: Seq<char>, root: Seq<char>, source_dir: Seq<char>, output: Seq<char>) -> Seq<char> {
    "kernel_version="@ + kernel_version + "\narchitecture="@ + architecture + "\nscheduler="@ + scheduler + "\nlto="@ + lto + "\nhz="@ + hz + "\nnr_cpus="@ + nr_cpus + "\ntick_type="@ + tick_type + "\npreemption="@ + preemption + "\npackage="@ + package + "\noptimizations="@ + optimizations + "\nroot="@ + root + "\nsource_dir="@ + source_dir + "\noutput="@ + output + "\n"@
}

/// The manifest of a build.
pub fn manifest_text(kernel_version: &str, architecture: &str, scheduler: &str, lto: &str, hz: &str, nr_cpus: &str, tick_type: &str, preemption: &str, package: &str, optimizations: &str, root: &str, source_dir: &str, output: &str) -> (s: String)
    ensures
        s@ == manifest(kernel_version@, architecture@, scheduler@, lto@, hz@, nr_cpus@, tick_type@, preemption@, package@, optimizations@, root@, source_dir@, output@),
{
    let mut s = String::from_str("kernel_version=");
    s.append(kernel_version);
    s.append("\narchitecture=");
    s.append(architecture);
    s.append("\nscheduler=");
    s.append(scheduler);
    s.append("\nlto=");
    s.append(lto);
    s.append("\nhz=");
    s.append(hz);
    s.append("\nnr_cpus=");
    s.append(nr_cpus);
    s.append("\ntick_type=");
    s.append(tick_type);
    s.append("\npreemption=");
    s.append(preemption);
    s.append("\npackage=");
    s.append(package);
    s.append("\noptimizations=");
    s.append(optimizations);
    s.append("\nroot=");
    s.append(root);
    s.append("\nsource_dir=");
    s.append(source_dir);
    s.append("\noutput=");
    s.append(output);
    s.append("\n");
    s
}

/// The line that reports the host kernel release.
pub open spec fn host_kernel_line(value: Seq<char>) -> Seq<char> {
    "Host kernel: "@ + value + "\n"@
}

/// The line that reports the host kernel release.
pub fn host_kernel_line_text(value: &str) -> (s: String)
    ensures
        s@ == host_kernel_line(value@),
{
    let mut s = String::from_str("Host kernel: ");
    s.append(value);
    s.append("\n");
    s
}

/// The line that reports where the manifest was written.
pub open spec fn manifest_line(value: Seq<char>) -> Seq<char> {
    "Manifest written to: "@ + value + "\n"@
}

/// The line that reports where the manifest was written.
pub fn manifest_line_text(value: &str) -> (s: String)
    ensures
        s@ == manifest_line(value@),
{
    let mut s = String::from_str("Manifest written to: ");
    s.append(value);
    s.append("\n");
    s
}

/// The line that reports where the snapshot was written.
pub open spec fn snapshot_line(value: Seq<char>) -> Seq<char> {
    "Snapshot written to: "@ + value + "\n"@
}

/// The line that reports where the snapshot was written.
pub fn snapshot_line_text(value: &str) -> (s: String)
    ensures
        s@ == snapshot_line(value@),
{
    let mut s = String::from_str("Snapshot written to: ");
    s.append(value);
    s.append("\n");
    s
}

/// The line that reports where the artifact was written.
pub open spec fn artifact_line(value: Seq<char>) -> Seq<char> {
    "Artifact generated at: "@ + value + "\n"@
}

/// The line that reports where the artifact was written.
pub fn artifact_line_text(value: &str) -> (s: String)
    ensures
        s@ == artifact_line(value@),
{
    let mut s = String::from_str("Artifact generated at: ");
    s.append(value);
    s.append("\n");
    s
}

} // verus!

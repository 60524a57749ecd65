//! What the build form decides from the user's choices and from the build's
//! messages: the option behind each list position, the optimisation flags,
//! and how a console message changes the status shown.

use vstd::prelude::*;

use crate::builder::{
    package_format_at, CpuScheduler, KernelBuildConfig, KernelBuildConfigView, LtoMode,
    PackageFormat, PreemptionType, TickType,
};
use crate::service::BuildStage;
use crate::text::{
    decimal, decimal_string, is_prefix, parse_usize, parsed_usize, same_text, split_on,
    split_parts, starts_with, trim_end, trim_start, trim_text, trimmed, is_white_space,
};

verus! {

pub open spec fn kernel_version_at(index: u32) -> Seq<char> {
    if index == 1 {
        "7.x-mainline"@
    } else if index == 2 {
        "custom"@
    } else {
        "6.19.12"@
    }
}

/// The kernel version behind a position of the version list.
pub fn kernel_version_from_index(index: u32) -> (v: &'static str)
    ensures
        v@ == kernel_version_at(index),
{
    match index {
        1 => "7.x-mainline",
        2 => "custom",
        _ => "6.19.12",
    }
}

pub open spec fn architecture_at(index: u32) -> Seq<char> {
    if index == 1 {
        "zen4"@
    } else if index == 2 {
        "zen3"@
    } else if index == 3 {
        "skylake"@
    } else if index == 4 {
        "x86-64-v3"@
    } else if index == 5 {
        "x86-64-v4"@
    } else if index == 6 {
        "custom"@
    } else {
        "native"@
    }
}

/// The CPU architecture behind a position of the architecture list.
pub fn architecture_from_index(index: u32) -> (v: &'static str)
    ensures
        v@ == architecture_at(index),
{
    match index {
        1 => "zen4",
        2 => "zen3",
        3 => "skylake",
        4 => "x86-64-v3",
        5 => "x86-64-v4",
        6 => "custom",
        _ => "native",
    }
}

pub open spec fn scheduler_at(index: u32) -> CpuScheduler {
    if index == 1 {
        CpuScheduler::Bore
    } else if index == 2 {
        CpuScheduler::Eevdf
    } else if index == 3 {
        CpuScheduler::Bmq
    } else if index == 4 {
        CpuScheduler::RealTime
    } else {
        CpuScheduler::CachyOsBore
    }
}

/// The scheduler behind a position of the scheduler list; the positions
/// past the fifth all give the default scheduler.
pub fn scheduler_from_index(index: u32) -> (s: CpuScheduler)
    ensures
        s == scheduler_at(index),
{
    match index {
        1 => CpuScheduler::Bore,
        2 => CpuScheduler::Eevdf,
        3 => CpuScheduler::Bmq,
        4 => CpuScheduler::RealTime,
        _ => CpuScheduler::CachyOsBore,
    }
}

pub open spec fn lto_at(index: u32) -> LtoMode {
    if index == 1 {
        LtoMode::ThinDist
    } else if index == 2 {
        LtoMode::Full
    } else if index == 3 {
        LtoMode::NoLto
    } else {
        LtoMode::Thin
    }
}

/// The LTO mode behind a position of the LTO list.
pub fn lto_from_index(index: u32) -> (m: LtoMode)
    ensures
        m == lto_at(index),
{
    match index {
        1 => LtoMode::ThinDist,
        2 => LtoMode::Full,
        3 => LtoMode::NoLto,
        _ => LtoMode::Thin,
    }
}

pub open spec fn tick_type_at(index: u32) -> TickType {
    if index == 1 {
        TickType::NoHzFull
    } else if index == 2 {
        TickType::Periodic
    } else {
        TickType::NoHzIdle
    }
}

/// The tick type behind a position of the tick type list.
pub fn tick_type_from_index(index: u32) -> (t: TickType)
    ensures
        t == tick_type_at(index),
{
    match index {
        1 => TickType::NoHzFull,
        2 => TickType::Periodic,
        _ => TickType::NoHzIdle,
    }
}

pub open spec fn preemption_at(index: u32) -> PreemptionType {
    if index == 1 {
        PreemptionType::Voluntary
    } else if index == 2 {
        PreemptionType::PreemptDynamic
    } else if index == 3 {
        PreemptionType::PreemptNone
    } else {
        PreemptionType::Preempt
    }
}

/// The preemption model behind a position of the preemption list.
pub fn preemption_from_index(index: u32) -> (p: PreemptionType)
    ensures
        p == preemption_at(index),
{
    match index {
        1 => PreemptionType::Voluntary,
        2 => PreemptionType::PreemptDynamic,
        3 => PreemptionType::PreemptNone,
        _ => PreemptionType::Preempt,
    }
}

pub open spec fn tick_rate_at(index: u32) -> u32 {
    if index == 1 {
        750
    } else if index == 2 {
        600
    } else if index == 3 {
        500
    } else if index == 4 {
        300
    } else if index == 5 {
        250
    } else if index == 6 {
        100
    } else {
        1000
    }
}

/// The tick rate, in Hz, behind a position of the tick rate list.
pub fn tick_rate_from_index(index: u32) -> (hz: u32)
    ensures
        hz == tick_rate_at(index),
{
    match index {
        1 => 750,
        2 => 600,
        3 => 500,
        4 => 300,
        5 => 250,
        6 => 100,
        _ => 1000,
    }
}

pub open spec fn hugepages_at(index: u32) -> Seq<char> {
    if index == 1 {
        "always"@
    } else if index == 2 {
        "none"@
    } else {
        "madvise"@
    }
}

/// The huge page profile behind a position of the huge pages list.
pub fn hugepages_from_index(index: u32) -> (v: &'static str)
    ensures
        v@ == hugepages_at(index),
{
    match index {
        1 => "always",
        2 => "none",
        _ => "madvise",
    }
}

/// The optimisation flags of the switches that are on, in switch order.
pub open spec fn optimizations_of(
    o3: bool,
    os: bool,
    governor: bool,
    bbr3: bool,
    zfs: bool,
) -> Seq<Seq<char>> {
    (if o3 { seq!["O3"@] } else { Seq::empty() })
        + (if os { seq!["Os"@] } else { Seq::empty() })
        + (if governor { seq!["performance_governor"@] } else { Seq::empty() })
        + (if bbr3 { seq!["tcp_bbr3"@] } else { Seq::empty() })
        + (if zfs { seq!["zfs"@] } else { Seq::empty() })
}

/// The optimisation flags chosen by the form's switches.
pub fn selected_optimizations(
    o3_enabled: bool,
    os_enabled: bool,
    governor_enabled: bool,
    bbr3_enabled: bool,
    zfs_enabled: bool,
) -> (items: Vec<String>)
    ensures
        items@.map_values(|s: String| s@) == optimizations_of(
            o3_enabled,
            os_enabled,
            governor_enabled,
            bbr3_enabled,
            zfs_enabled,
        ),
{
    let mut items: Vec<String> = Vec::new();
    if o3_enabled {
        items.push(String::from_str("O3"));
    }
    let ghost a = items@.map_values(|s: String| s@);
    assert(a =~= (if o3_enabled { seq!["O3"@] } else { Seq::<Seq<char>>::empty() }));
    if os_enabled {
        items.push(String::from_str("Os"));
    }
    let ghost b = items@.map_values(|s: String| s@);
    assert(b =~= a + (if os_enabled { seq!["Os"@] } else { Seq::<Seq<char>>::empty() }));
    if governor_enabled {
        items.push(String::from_str("performance_governor"));
    }
    let ghost c = items@.map_values(|s: String| s@);
    assert(c =~= b + (if governor_enabled { seq!["performance_governor"@] } else { Seq::<Seq<char>>::empty() }));
    if bbr3_enabled {
        items.push(String::from_str("tcp_bbr3"));
    }
    let ghost d = items@.map_values(|s: String| s@);
    assert(d =~= c + (if bbr3_enabled { seq!["tcp_bbr3"@] } else { Seq::<Seq<char>>::empty() }));
    if zfs_enabled {
        items.push(String::from_str("zfs"));
    }
    assert(items@.map_values(|s: String| s@) =~= d + (if zfs_enabled { seq!["zfs"@] } else { Seq::<Seq<char>>::empty() }));
    items
}

/// The kernel version list reads, from the top: 6.19.12, the 7.x mainline
/// series, a custom version; any position past the list gives 6.19.12.
pub proof fn lemma_kernel_version_positions(index: u32)
    ensures
        kernel_version_at(0) == "6.19.12"@,
        kernel_version_at(1) == "7.x-mainline"@,
        kernel_version_at(2) == "custom"@,
        index > 2 ==> kernel_version_at(index) == "6.19.12"@,
{
}

/// The architecture list reads, from the top: native, zen4, zen3, skylake,
/// x86-64-v3, x86-64-v4, custom; any position past the list gives native.
pub proof fn lemma_architecture_positions(index: u32)
    ensures
        architecture_at(0) == "native"@,
        architecture_at(1) == "zen4"@,
        architecture_at(2) == "zen3"@,
        architecture_at(3) == "skylake"@,
        architecture_at(4) == "x86-64-v3"@,
        architecture_at(5) == "x86-64-v4"@,
        architecture_at(6) == "custom"@,
        index > 6 ==> architecture_at(index) == "native"@,
{
}

/// The scheduler list reads, from the top: CachyOS BORE, BORE, EEVDF, BMQ,
/// real time; any position past the list gives CachyOS BORE.
pub proof fn lemma_scheduler_positions(index: u32)
    ensures
        scheduler_at(0) == CpuScheduler::CachyOsBore,
        scheduler_at(1) == CpuScheduler::Bore,
        scheduler_at(2) == CpuScheduler::Eevdf,
        scheduler_at(3) == CpuScheduler::Bmq,
        scheduler_at(4) == CpuScheduler::RealTime,
        index > 4 ==> scheduler_at(index) == CpuScheduler::CachyOsBore,
{
}

/// The LTO list reads, from the top: thin, thin-dist, full, none; any
/// position past the list gives thin.
pub proof fn lemma_lto_positions(index: u32)
    ensures
        lto_at(0) == LtoMode::Thin,
        lto_at(1) == LtoMode::ThinDist,
        lto_at(2) == LtoMode::Full,
        lto_at(3) == LtoMode::NoLto,
        index > 3 ==> lto_at(index) == LtoMode::Thin,
{
}

/// The tick rate list reads, from the top: 1000, 750, 600, 500, 300, 250
/// and 100 Hz; any position past the list gives 1000 Hz.
pub proof fn lemma_tick_rate_positions(index: u32)
    ensures
        tick_rate_at(0) == 1000,
        tick_rate_at(1) == 750,
        tick_rate_at(2) == 600,
        tick_rate_at(3) == 500,
        tick_rate_at(4) == 300,
        tick_rate_at(5) == 250,
        tick_rate_at(6) == 100,
        index > 6 ==> tick_rate_at(index) == 1000,
{
}

/// The tick type list reads, from the top: idle ticks off, full ticks off,
/// periodic; any position past the list gives idle ticks off.
pub proof fn lemma_tick_type_positions(index: u32)
    ensures
        tick_type_at(0) == TickType::NoHzIdle,
        tick_type_at(1) == TickType::NoHzFull,
        tick_type_at(2) == TickType::Periodic,
        index > 2 ==> tick_type_at(index) == TickType::NoHzIdle,
{
}

/// The preemption list reads, from the top: full preemption, voluntary,
/// dynamic, none; any position past the list gives full preemption.
pub proof fn lemma_preemption_positions(index: u32)
    ensures
        preemption_at(0) == PreemptionType::Preempt,
        preemption_at(1) == PreemptionType::Voluntary,
        preemption_at(2) == PreemptionType::PreemptDynamic,
        preemption_at(3) == PreemptionType::PreemptNone,
        index > 3 ==> preemption_at(index) == PreemptionType::Preempt,
{
}

/// The huge pages list reads, from the top: madvise, always, none; any
/// position past the list gives madvise.
pub proof fn lemma_hugepages_positions(index: u32)
    ensures
        hugepages_at(0) == "madvise"@,
        hugepages_at(1) == "always"@,
        hugepages_at(2) == "none"@,
        index > 2 ==> hugepages_at(index) == "madvise"@,
{
}

/// The package format list reads, from the top: Debian, Red Hat, Arch,
/// tarball; any position past the list gives Debian.
pub proof fn lemma_package_format_positions(index: u32)
    ensures
        package_format_at(0) == PackageFormat::Debian,
        package_format_at(1) == PackageFormat::RedHat,
        package_format_at(2) == PackageFormat::Arch,
        package_format_at(3) == PackageFormat::Tarball,
        index > 3 ==> package_format_at(index) == PackageFormat::Debian,
{
}

/// Each optimisation flag is chosen exactly when its switch is on, at most
/// once, and the flags keep the order O3, Os, performance governor, BBR3,
/// ZFS.
pub proof fn lemma_optimization_flags(o3: bool, os: bool, governor: bool, bbr3: bool, zfs: bool)
    ensures
        optimizations_of(o3, os, governor, bbr3, zfs).contains("O3"@) == o3,
        optimizations_of(o3, os, governor, bbr3, zfs).contains("Os"@) == os,
        optimizations_of(o3, os, governor, bbr3, zfs).contains("performance_governor"@) == governor,
        optimizations_of(o3, os, governor, bbr3, zfs).contains("tcp_bbr3"@) == bbr3,
        optimizations_of(o3, os, governor, bbr3, zfs).contains("zfs"@) == zfs,
        optimizations_of(o3, os, governor, bbr3, zfs).no_duplicates(),
        optimizations_of(true, true, true, true, true) == seq![
            "O3"@,
            "Os"@,
            "performance_governor"@,
            "tcp_bbr3"@,
            "zfs"@,
        ],
{
    reveal_strlit("O3");
    reveal_strlit("Os");
    reveal_strlit("performance_governor");
    reveal_strlit("tcp_bbr3");
    reveal_strlit("zfs");
    let names = seq!["O3"@, "Os"@, "performance_governor"@, "tcp_bbr3"@, "zfs"@];
    assert("O3"@[1] != "Os"@[1]);
    assert forall|i: int, j: int| 0 <= i < j < 5 implies names[i] != names[j] by {
        if i == 0 && j == 1 {
            assert(names[i][1] != names[j][1]);
        } else {
            assert(names[i].len() != names[j].len() || names[i][0] != names[j][0]);
        }
    }
    let r = optimizations_of(o3, os, governor, bbr3, zfs);
    let e = Seq::<Seq<char>>::empty();
    let a = if o3 { seq![names[0]] } else { e };
    let b = if os { seq![names[1]] } else { e };
    let c = if governor { seq![names[2]] } else { e };
    let d = if bbr3 { seq![names[3]] } else { e };
    let f = if zfs { seq![names[4]] } else { e };
    assert(r == a + b + c + d + f);
    let w = a + b + c + d + f;
    assert forall|k: int| 0 <= k < 5 implies w.contains(#[trigger] names[k]) == (if k == 0 {
        o3
    } else if k == 1 {
        os
    } else if k == 2 {
        governor
    } else if k == 3 {
        bbr3
    } else {
        zfs
    }) by {
        if w.contains(names[k]) {
            let m = choose|m: int| 0 <= m < w.len() && w[m] == names[k];
            assert(w[m] == names[k]);
        }
        let on = if k == 0 {
            o3
        } else if k == 1 {
            os
        } else if k == 2 {
            governor
        } else if k == 3 {
            bbr3
        } else {
            zfs
        };
        if on {
            let m = (if k >= 1 { a.len() } else { 0 }) + (if k >= 2 { b.len() } else { 0 }) + (if k
                >= 3 { c.len() } else { 0 }) + (if k >= 4 { d.len() } else { 0 });
            assert(w[m as int] == names[k]);
        }
    }
    assert(w.contains(names[0]) == o3);
    assert(w.contains(names[1]) == os);
    assert(w.contains(names[2]) == governor);
    assert(w.contains(names[3]) == bbr3);
    assert(w.contains(names[4]) == zfs);
    assert(optimizations_of(true, true, true, true, true) =~= names);
}

/// What the build form chose: the position picked in each list, the CPU
/// count and the five optimisation switches.
#[derive(Debug, Clone, Copy)]
pub struct FormSelection {
    pub kernel_version: u32,
    pub architecture: u32,
    pub scheduler: u32,
    pub lto: u32,
    pub tick_rate: u32,
    pub nr_cpus: u32,
    pub tick_type: u32,
    pub preemption: u32,
    pub package_format: u32,
    pub o3: bool,
    pub os: bool,
    pub governor: bool,
    pub bbr3: bool,
    pub zfs: bool,
}

/// The configuration a form selection describes. Every option comes from
/// the selection, so nothing of the configuration it starts from remains.
pub open spec fn selection_config(s: FormSelection) -> KernelBuildConfigView {
    KernelBuildConfigView {
        kernel_version: kernel_version_at(s.kernel_version),
        architecture: architecture_at(s.architecture),
        scheduler: scheduler_at(s.scheduler),
        lto: lto_at(s.lto),
        hz: tick_rate_at(s.tick_rate),
        nr_cpus: if s.nr_cpus == 0 { 1 } else { s.nr_cpus },
        tick_type: tick_type_at(s.tick_type),
        preemption: preemption_at(s.preemption),
        package_format: package_format_at(s.package_format),
        system_optimizations: optimizations_of(s.o3, s.os, s.governor, s.bbr3, s.zfs),
    }
}

/// Sets every option of `base` from the form's selection.
pub fn config_from_selection(base: KernelBuildConfig, s: &FormSelection) -> (c: KernelBuildConfig)
    ensures
        c@ == selection_config(*s),
{
    base.with_kernel_version(kernel_version_from_index(s.kernel_version))
        .with_architecture(architecture_from_index(s.architecture))
        .with_scheduler(scheduler_from_index(s.scheduler))
        .with_lto(lto_from_index(s.lto))
        .with_hz(tick_rate_from_index(s.tick_rate))
        .with_nr_cpus(s.nr_cpus)
        .with_tick_type(tick_type_from_index(s.tick_type))
        .with_preemption(preemption_from_index(s.preemption))
        .with_package_format(PackageFormat::from_index(s.package_format))
        .with_system_optimizations(selected_optimizations(s.o3, s.os, s.governor, s.bbr3, s.zfs))
}

/// The short stage name for a stage announcement (compared without the
/// surrounding white space).
pub open spec fn status_stage_of(message: Seq<char>) -> Option<Seq<char>> {
    let m = trimmed(message);
    if m == "Preparing build workspace..."@ {
        Some("Preparing workspace"@)
    } else if m == "Validating toolchain and system requirements..."@ {
        Some("Validating toolchain"@)
    } else if m == "Acquiring kernel source tree..."@ {
        Some("Acquiring source tree"@)
    } else if m == "Configuring kernel profile..."@ {
        Some("Configuring kernel"@)
    } else if m == "Compiling kernel and modules..."@ {
        Some("Compiling kernel"@)
    } else if m == "Packaging build output..."@ {
        Some("Packaging output"@)
    } else if m == "Finalizing build output..."@ {
        Some("Finalizing"@)
    } else {
        None
    }
}

/// The short stage name a console message announces, if it announces one.
pub fn status_stage_from_message(message: &str) -> (r: Option<&'static str>)
    ensures
        match r {
            Some(s) => status_stage_of(message@) == Some(s@),
            None => status_stage_of(message@) is None,
        },
{
    let t = trim_text(message);
    let m = t.as_str();
    if same_text(m, "Preparing build workspace...") {
        Some("Preparing workspace")
    } else if same_text(m, "Validating toolchain and system requirements...") {
        Some("Validating toolchain")
    } else if same_text(m, "Acquiring kernel source tree...") {
        Some("Acquiring source tree")
    } else if same_text(m, "Configuring kernel profile...") {
        Some("Configuring kernel")
    } else if same_text(m, "Compiling kernel and modules...") {
        Some("Compiling kernel")
    } else if same_text(m, "Packaging build output...") {
        Some("Packaging output")
    } else if same_text(m, "Finalizing build output...") {
        Some("Finalizing")
    } else {
        None
    }
}

/// The short stage name for a progress key.
pub open spec fn stage_label_of(key: Seq<char>) -> Seq<char> {
    if key == "prepare-workspace"@ {
        "Preparing workspace"@
    } else if key == "validate-toolchain"@ {
        "Validating toolchain"@
    } else if key == "ensure-source"@ {
        "Acquiring source tree"@
    } else if key == "configure-kernel"@ {
        "Configuring kernel"@
    } else if key == "compile-kernel"@ {
        "Compiling kernel"@
    } else if key == "package-output"@ {
        "Packaging output"@
    } else if key == "finalize"@ {
        "Finalizing"@
    } else {
        "Running"@
    }
}

/// The short stage name for a progress key; `Running` for an unknown key.
pub fn stage_label_from_key(key: &str) -> (s: &'static str)
    ensures
        s@ == stage_label_of(key@),
{
    if same_text(key, "prepare-workspace") {
        "Preparing workspace"
    } else if same_text(key, "validate-toolchain") {
        "Validating toolchain"
    } else if same_text(key, "ensure-source") {
        "Acquiring source tree"
    } else if same_text(key, "configure-kernel") {
        "Configuring kernel"
    } else if same_text(key, "compile-kernel") {
        "Compiling kernel"
    } else if same_text(key, "package-output") {
        "Packaging output"
    } else if same_text(key, "finalize") {
        "Finalizing"
    } else {
        "Running"
    }
}

/// What a message from a running build means for the console.
#[derive(Debug)]
pub enum ConsoleMessage {
    /// The build is over.
    Finished,
    /// The build failed.
    Error,
    /// A progress report: the position and count of the stages (where they
    /// could be read) and the stage's short name.
    Progress { current: Option<usize>, total: Option<usize>, stage: &'static str },
    /// Text for the console, and the short name of the stage it announces.
    Log { stage: Option<&'static str> },
}

pub enum ConsoleMessageView {
    Finished,
    Error,
    Progress { current: Option<usize>, total: Option<usize>, stage: Seq<char> },
    Log { stage: Option<Seq<char>> },
}

impl View for ConsoleMessage {
    type V = ConsoleMessageView;

    open spec fn view(&self) -> ConsoleMessageView {
        match self {
            ConsoleMessage::Finished => ConsoleMessageView::Finished,
            ConsoleMessage::Error => ConsoleMessageView::Error,
            ConsoleMessage::Progress { current, total, stage } => ConsoleMessageView::Progress {
                current: *current,
                total: *total,
                stage: stage@,
            },
            ConsoleMessage::Log { stage } => ConsoleMessageView::Log {
                stage: match stage {
                    Some(s) => Some(s@),
                    None => None,
                },
            },
        }
    }
}

/// The fields of a progress report `__PROGRESS__|<current>|<total>|<key>`,
/// read from the message without surrounding white space.
pub open spec fn progress_fields(text: Seq<char>) -> Seq<Seq<char>> {
    split_parts(trimmed(text), '|')
}

/// The meaning of a console message: the finish marker, an error report, a
/// progress report, or text to show.
pub open spec fn console_message_of(text: Seq<char>) -> ConsoleMessageView {
    if text == "__FINISHED__"@ {
        ConsoleMessageView::Finished
    } else if is_prefix("ERROR:"@, text) {
        ConsoleMessageView::Error
    } else if is_prefix("__PROGRESS__|"@, text) {
        let f = progress_fields(text);
        ConsoleMessageView::Progress {
            current: if f.len() > 1 { parsed_usize(f[1]) } else { None },
            total: if f.len() > 2 { parsed_usize(f[2]) } else { None },
            stage: stage_label_of(if f.len() > 3 { f[3] } else { "running"@ }),
        }
    } else {
        ConsoleMessageView::Log { stage: status_stage_of(text) }
    }
}

/// Reads a message of a running build.
pub fn classify_console_message(text: &str) -> (m: ConsoleMessage)
    ensures
        m@ == console_message_of(text@),
{
    if same_text(text, "__FINISHED__") {
        ConsoleMessage::Finished
    } else if starts_with(text, "ERROR:") {
        ConsoleMessage::Error
    } else if starts_with(text, "__PROGRESS__|") {
        let payload = trim_text(text);
        let fields = split_on(payload.as_str(), '|');
        let n = fields.len();
        let current = if n > 1 {
            parse_usize(fields[1].as_str())
        } else {
            None
        };
        let total = if n > 2 {
            parse_usize(fields[2].as_str())
        } else {
            None
        };
        let stage = if n > 3 {
            stage_label_from_key(fields[3].as_str())
        } else {
            stage_label_from_key("running")
        };
        ConsoleMessage::Progress { current, total, stage }
    } else {
        ConsoleMessage::Log { stage: status_stage_from_message(text) }
    }
}

/// The status line for a stage.
pub open spec fn status_line(stage: Seq<char>) -> Seq<char> {
    "Status: "@ + stage
}

/// The status line for a stage: `Status: <stage>`.
pub fn status_line_text(stage: &str) -> (s: String)
    ensures
        s@ == status_line(stage@),
{
    let mut s = String::from_str("Status: ");
    s.append(stage);
    s
}

/// The progress bar text: `<current>/<total> - <stage>`.
pub open spec fn progress_line(current: usize, total: usize, stage: Seq<char>) -> Seq<char> {
    decimal(current as nat) + "/"@ + decimal(total as nat) + " - "@ + stage
}

/// The progress bar text for a progress report.
pub fn progress_line_text(current: usize, total: usize, stage: &str) -> (s: String)
    ensures
        s@ == progress_line(current, total, stage@),
{
    let mut s = decimal_string(current as u64);
    s.append("/");
    let t = decimal_string(total as u64);
    s.append(t.as_str());
    s.append(" - ");
    s.append(stage);
    s
}

/// The spinner frame shown after `elapsed` seconds: it turns a quarter every
/// five seconds.
pub open spec fn spinner_at(elapsed: u64) -> Seq<char> {
    let k = (elapsed / 5) % 4;
    if k == 0 {
        "|"@
    } else if k == 1 {
        "/"@
    } else if k == 2 {
        "-"@
    } else {
        "\\"@
    }
}

/// The spinner frame for `elapsed` seconds.
pub fn spinner_frame(elapsed: u64) -> (s: &'static str)
    ensures
        s@ == spinner_at(elapsed),
{
    match (elapsed / 5) % 4 {
        0 => "|",
        1 => "/",
        2 => "-",
        _ => "\\",
    }
}

/// The console line written while a build runs.
pub open spec fn heartbeat_line(elapsed: u64) -> Seq<char> {
    spinner_at(elapsed) + " Build still running... elapsed: "@ + decimal(elapsed as nat) + "s\n"@
}

/// The console line written every few seconds while a build runs.
pub fn heartbeat_line_text(elapsed: u64) -> (s: String)
    ensures
        s@ == heartbeat_line(elapsed),
{
    let mut s = String::from_str(spinner_frame(elapsed));
    s.append(" Build still running... elapsed: ");
    let e = decimal_string(elapsed);
    s.append(e.as_str());
    s.append("s\n");
    s
}

/// The status line while a build runs.
pub open spec fn heartbeat_status(stage: Seq<char>, elapsed: u64) -> Seq<char> {
    "Status: "@ + stage + " ("@ + decimal(elapsed as nat) + "s elapsed)"@
}

/// The status line while a build runs: the stage and the time spent.
pub fn heartbeat_status_text(stage: &str, elapsed: u64) -> (s: String)
    ensures
        s@ == heartbeat_status(stage@, elapsed),
{
    let mut s = String::from_str("Status: ");
    s.append(stage);
    s.append(" (");
    let e = decimal_string(elapsed);
    s.append(e.as_str());
    s.append("s elapsed)");
    s
}

/// The spinner goes round every twenty seconds.
pub proof fn lemma_spinner_period(elapsed: u64)
    requires
        elapsed <= u64::MAX - 20,
    ensures
        spinner_at((elapsed + 20) as u64) == spinner_at(elapsed),
{
    assert(((elapsed + 20) as u64) / 5 == elapsed / 5 + 4);
    assert((elapsed / 5 + 4) % 4 == (elapsed / 5) % 4);
}

/// The short stage name the status line shows for each stage.
pub open spec fn stage_short_name(s: BuildStage) -> Seq<char> {
    match s {
        BuildStage::PrepareWorkspace => "Preparing workspace"@,
        BuildStage::ValidateToolchain => "Validating toolchain"@,
        BuildStage::EnsureSource => "Acquiring source tree"@,
        BuildStage::ConfigureKernel => "Configuring kernel"@,
        BuildStage::CompileKernel => "Compiling kernel"@,
        BuildStage::PackageOutput => "Packaging output"@,
        BuildStage::Finalize => "Finalizing"@,
    }
}

proof fn lemma_trim_line(t: Seq<char>)
    requires
        t.len() > 0,
        !is_white_space(t[0]),
        !is_white_space(t.last()),
    ensures
        trimmed(t + seq!['\n']) == t,
{
    let line = t + seq!['\n'];
    assert(line[0] == t[0]);
    assert(trim_start(line) == line);
    assert(line.last() == '\n');
    assert(line.drop_last() =~= t);
    assert(trim_end(line) == trim_end(t));
    assert(trim_end(t) == t);
}

/// Every stage announcement is recognised: the status line shows the
/// stage's short name for it.
pub proof fn lemma_stage_label_recognised(s: BuildStage)
    ensures
        status_stage_of(s.label_text()) == Some(stage_short_name(s)),
{
    let nl = seq!['\n'];
    match s {
        BuildStage::PrepareWorkspace => {
            reveal_strlit("Preparing build workspace...\n");
            reveal_strlit("Preparing build workspace...");
            let t = "Preparing build workspace..."@;
            assert(s.label_text() =~= t + nl);
            lemma_trim_line(t);
        },
        BuildStage::ValidateToolchain => {
            reveal_strlit("Validating toolchain and system requirements...\n");
            reveal_strlit("Validating toolchain and system requirements...");
            reveal_strlit("Preparing build workspace...");
            let t = "Validating toolchain and system requirements..."@;
            assert(s.label_text() =~= t + nl);
            lemma_trim_line(t);
            assert(t != "Preparing build workspace..."@);
        },
        BuildStage::EnsureSource => {
            reveal_strlit("Acquiring kernel source tree...\n");
            reveal_strlit("Acquiring kernel source tree...");
            reveal_strlit("Preparing build workspace...");
            reveal_strlit("Validating toolchain and system requirements...");
            let t = "Acquiring kernel source tree..."@;
            assert(s.label_text() =~= t + nl);
            lemma_trim_line(t);
            assert(t != "Preparing build workspace..."@);
            assert(t != "Validating toolchain and system requirements..."@);
        },
        BuildStage::ConfigureKernel => {
            reveal_strlit("Configuring kernel profile...\n");
            reveal_strlit("Configuring kernel profile...");
            reveal_strlit("Preparing build workspace...");
            reveal_strlit("Validating toolchain and system requirements...");
            reveal_strlit("Acquiring kernel source tree...");
            let t = "Configuring kernel profile..."@;
            assert(s.label_text() =~= t + nl);
            lemma_trim_line(t);
            assert(t != "Preparing build workspace..."@);
            assert(t != "Validating toolchain and system requirements..."@);
            assert(t != "Acquiring kernel source tree..."@);
        },
        BuildStage::CompileKernel => {
            reveal_strlit("Compiling kernel and modules...\n");
            reveal_strlit("Compiling kernel and modules...");
            reveal_strlit("Preparing build workspace...");
            reveal_strlit("Validating toolchain and system requirements...");
            reveal_strlit("Acquiring kernel source tree...");
            reveal_strlit("Configuring kernel profile...");
            let t = "Compiling kernel and modules..."@;
            assert(s.label_text() =~= t + nl);
            lemma_trim_line(t);
            assert(t != "Preparing build workspace..."@);
            assert(t != "Validating toolchain and system requirements..."@);
            assert(t != "Acquiring kernel source tree..."@);
            assert(t != "Configuring kernel profile..."@);
        },
        BuildStage::PackageOutput => {
            reveal_strlit("Packaging build output...\n");
            reveal_strlit("Packaging build output...");
            reveal_strlit("Preparing build workspace...");
            reveal_strlit("Validating toolchain and system requirements...");
            reveal_strlit("Acquiring kernel source tree...");
            reveal_strlit("Configuring kernel profile...");
            reveal_strlit("Compiling kernel and modules...");
            let t = "Packaging build output..."@;
            assert(s.label_text() =~= t + nl);
            lemma_trim_line(t);
            assert(t != "Preparing build workspace..."@);
            assert(t != "Validating toolchain and system requirements..."@);
            assert(t != "Acquiring kernel source tree..."@);
            assert(t != "Configuring kernel profile..."@);
            assert(t != "Compiling kernel and modules..."@);
        },
        BuildStage::Finalize => {
            reveal_strlit("Finalizing build output...\n");
            reveal_strlit("Finalizing build output...");
            reveal_strlit("Preparing build workspace...");
            reveal_strlit("Validating toolchain and system requirements...");
            reveal_strlit("Acquiring kernel source tree...");
            reveal_strlit("Configuring kernel profile...");
            reveal_strlit("Compiling kernel and modules...");
            reveal_strlit("Packaging build output...");
            let t = "Finalizing build output..."@;
            assert(s.label_text() =~= t + nl);
            lemma_trim_line(t);
            assert(t != "Preparing build workspace..."@);
            assert(t != "Validating toolchain and system requirements..."@);
            assert(t != "Acquiring kernel source tree..."@);
            assert(t != "Configuring kernel profile..."@);
            assert(t != "Compiling kernel and modules..."@);
            assert(t != "Packaging build output..."@);
        },
    }
}

} // verus!

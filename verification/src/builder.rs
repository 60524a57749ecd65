//! The kernel build configuration: the options a build is made with, and
//! the builder that sets them one at a time.

use vstd::prelude::*;

verus! {

/// The CPU scheduler patch set the kernel is built with.
#[derive(Debug, Clone, Copy, PartialEq, Eq, Structural)]
pub enum CpuScheduler {
    CachyOsBore,
    Bore,
    Eevdf,
    Bmq,
    RealTime,
}

impl CpuScheduler {
    /// The name under which the scheduler is shown and recorded.
    pub open spec fn text(self) -> Seq<char> {
        match self {
            CpuScheduler::CachyOsBore => "cachyos"@,
            CpuScheduler::Bore => "bore"@,
            CpuScheduler::Eevdf => "eevdf"@,
            CpuScheduler::Bmq => "bmq"@,
            CpuScheduler::RealTime => "rt"@,
        }
    }

    /// The scheduler's name, as shown in the manifest and the log.
    pub fn to_string(&self) -> (s: String)
        ensures
            s@ == self.text(),
    {
        match self {
            CpuScheduler::CachyOsBore => String::from_str("cachyos"),
            CpuScheduler::Bore => String::from_str("bore"),
            CpuScheduler::Eevdf => String::from_str("eevdf"),
            CpuScheduler::Bmq => String::from_str("bmq"),
            CpuScheduler::RealTime => String::from_str("rt"),
        }
    }
}

impl Default for CpuScheduler {
    fn default() -> (s: Self)
        ensures
            s == CpuScheduler::CachyOsBore,
    {
        CpuScheduler::CachyOsBore
    }
}

/// The link-time optimisation mode of the kernel build.
#[derive(Debug, Clone, Copy, PartialEq, Eq, Structural)]
pub enum LtoMode {
    Thin,
    ThinDist,
    Full,
    NoLto,
}

impl LtoMode {
    /// The name under which the mode is shown and recorded.
    pub open spec fn text(self) -> Seq<char> {
        match self {
            LtoMode::Thin => "thin"@,
            LtoMode::ThinDist => "thin-dist"@,
            LtoMode::Full => "full"@,
            LtoMode::NoLto => "none"@,
        }
    }

    /// The mode's name, as shown in the manifest and the log.
    pub fn to_string(&self) -> (s: String)
        ensures
            s@ == self.text(),
    {
        match self {
            LtoMode::Thin => String::from_str("thin"),
            LtoMode::ThinDist => String::from_str("thin-dist"),
            LtoMode::Full => String::from_str("full"),
            LtoMode::NoLto => String::from_str("none"),
        }
    }
}

impl Default for LtoMode {
    fn default() -> (s: Self)
        ensures
            s == LtoMode::Thin,
    {
        LtoMode::Thin
    }
}

/// How the kernel's timer tick behaves.
#[derive(Debug, Clone, Copy, PartialEq, Eq, Structural)]
pub enum TickType {
    NoHzIdle,
    NoHzFull,
    Periodic,
}

impl TickType {
    /// The name under which the tick type is shown and recorded.
    pub open spec fn text(self) -> Seq<char> {
        match self {
            TickType::NoHzIdle => "nohz_idle"@,
            TickType::NoHzFull => "nohz_full"@,
            TickType::Periodic => "periodic"@,
        }
    }

    /// The tick type's name, as shown in the manifest and the log.
    pub fn to_string(&self) -> (s: String)
        ensures
            s@ == self.text(),
    {
        match self {
            TickType::NoHzIdle => String::from_str("nohz_idle"),
            TickType::NoHzFull => String::from_str("nohz_full"),
            TickType::Periodic => String::from_str("periodic"),
        }
    }
}

impl Default for TickType {
    fn default() -> (s: Self)
        ensures
            s == TickType::NoHzIdle,
    {
        TickType::NoHzIdle
    }
}

/// The preemption model of the kernel.
#[derive(Debug, Clone, Copy, PartialEq, Eq, Structural)]
pub enum PreemptionType {
    Preempt,
    Voluntary,
    PreemptDynamic,
    PreemptNone,
}

impl PreemptionType {
    /// The name under which the preemption model is shown and recorded.
    pub open spec fn text(self) -> Seq<char> {
        match self {
            PreemptionType::Preempt => "preempt"@,
            PreemptionType::Voluntary => "voluntary"@,
            PreemptionType::PreemptDynamic => "preempt_dynamic"@,
            PreemptionType::PreemptNone => "none"@,
        }
    }

    /// The preemption model's name, as shown in the manifest and the log.
    pub fn to_string(&self) -> (s: String)
        ensures
            s@ == self.text(),
    {
        match self {
            PreemptionType::Preempt => String::from_str("preempt"),
            PreemptionType::Voluntary => String::from_str("voluntary"),
            PreemptionType::PreemptDynamic => String::from_str("preempt_dynamic"),
            PreemptionType::PreemptNone => String::from_str("none"),
        }
    }
}

impl Default for PreemptionType {
    fn default() -> (s: Self)
        ensures
            s == PreemptionType::Preempt,
    {
        PreemptionType::Preempt
    }
}

/// The kind of package the build produces.
#[derive(Debug, Clone, Copy, PartialEq, Eq, Structural)]
pub enum PackageFormat {
    Debian,
    RedHat,
    Arch,
    Tarball,
}

/// The package format at a position of the format list (`Debian` for any
/// position past the list).
pub open spec fn package_format_at(index: u32) -> PackageFormat {
    if index == 1 {
        PackageFormat::RedHat
    } else if index == 2 {
        PackageFormat::Arch
    } else if index == 3 {
        PackageFormat::Tarball
    } else {
        PackageFormat::Debian
    }
}

impl PackageFormat {
    /// The name under which the format is shown and recorded.
    pub open spec fn text(self) -> Seq<char> {
        match self {
            PackageFormat::Debian => "deb"@,
            PackageFormat::RedHat => "rpm"@,
            PackageFormat::Arch => "pkg.tar.zst"@,
            PackageFormat::Tarball => "tar.gz"@,
        }
    }

    /// The format's name, as shown in the manifest and in package names.
    pub fn to_string(&self) -> (s: String)
        ensures
            s@ == self.text(),
    {
        match self {
            PackageFormat::Debian => String::from_str("deb"),
            PackageFormat::RedHat => String::from_str("rpm"),
            PackageFormat::Arch => String::from_str("pkg.tar.zst"),
            PackageFormat::Tarball => String::from_str("tar.gz"),
        }
    }

    /// The format at a position of the format list: 1 is Red Hat, 2 Arch,
    /// 3 a tarball, and every other index Debian.
    pub fn from_index(index: u32) -> (f: Self)
        ensures
            f == package_format_at(index),
    {
        match index {
            1 => PackageFormat::RedHat,
            2 => PackageFormat::Arch,
            3 => PackageFormat::Tarball,
            _ => PackageFormat::Debian,
        }
    }
}

impl Default for PackageFormat {
    fn default() -> (s: Self)
        ensures
            s == PackageFormat::Debian,
    {
        PackageFormat::Debian
    }
}

impl From<u32> for PackageFormat {
    fn from(value: u32) -> (f: Self) {
        PackageFormat::from_index(value)
    }
}

impl vstd::std_specs::convert::FromSpecImpl<u32> for PackageFormat {
    open spec fn obeys_from_spec() -> bool {
        true
    }

    open spec fn from_spec(v: u32) -> Self {
        package_format_at(v)
    }
}

/// The abstract content of a [`KernelBuildConfig`].
pub struct KernelBuildConfigView {
    pub kernel_version: Seq<char>,
    pub architecture: Seq<char>,
    pub scheduler: CpuScheduler,
    pub lto: LtoMode,
    pub hz: u32,
    pub nr_cpus: u32,
    pub tick_type: TickType,
    pub preemption: PreemptionType,
    pub package_format: PackageFormat,
    pub system_optimizations: Seq<Seq<char>>,
}

/// The CPU count a fresh configuration starts with: twice the available
/// parallelism (taken modulo 2^32), or 32 where it is unknown.
pub open spec fn default_nr_cpus(available_parallelism: Option<usize>) -> u32 {
    match available_parallelism {
        Some(n) => ((n as u32) * 2) as u32,
        None => 32,
    }
}

/// The configuration a build starts from.
pub open spec fn default_config(available_parallelism: Option<usize>) -> KernelBuildConfigView {
    KernelBuildConfigView {
        kernel_version: "6.19.12"@,
        architecture: "native"@,
        scheduler: CpuScheduler::CachyOsBore,
        lto: LtoMode::Thin,
        hz: 1000,
        nr_cpus: default_nr_cpus(available_parallelism),
        tick_type: TickType::NoHzIdle,
        preemption: PreemptionType::Preempt,
        package_format: PackageFormat::Debian,
        system_optimizations: seq!["O3"@, "tcp_bbr3"@],
    }
}

/// The parallelism values for which a fresh configuration can be made: a
/// known parallelism is never 0 (the system reports it as a non-zero count),
/// and twice the value, taken modulo 2^32, must fit in a `u32`.
pub open spec fn parallelism_fits(available_parallelism: Option<usize>) -> bool {
    match available_parallelism {
        Some(n) => n != 0 && (n as u32) < 0x8000_0000,
        None => true,
    }
}

/// Whether a fresh configuration can be made for this parallelism (see
/// [`parallelism_fits`]).
pub fn parallelism_fits_value(available_parallelism: Option<usize>) -> (b: bool)
    ensures
        b == parallelism_fits(available_parallelism),
{
    match available_parallelism {
        Some(n) => n != 0 && (n as u32) < 0x8000_0000,
        None => true,
    }
}

/// The views of a list of strings.
pub open spec fn string_views(v: Seq<String>) -> Seq<Seq<char>> {
    v.map_values(|s: String| s@)
}

impl KernelBuildConfigView {
    pub open spec fn set_kernel_version(self, v: Seq<char>) -> Self {
        KernelBuildConfigView { kernel_version: v, ..self }
    }

    pub open spec fn set_architecture(self, v: Seq<char>) -> Self {
        KernelBuildConfigView { architecture: v, ..self }
    }

    pub open spec fn set_scheduler(self, v: CpuScheduler) -> Self {
        KernelBuildConfigView { scheduler: v, ..self }
    }

    pub open spec fn set_lto(self, v: LtoMode) -> Self {
        KernelBuildConfigView { lto: v, ..self }
    }

    pub open spec fn set_hz(self, v: u32) -> Self {
        KernelBuildConfigView { hz: v, ..self }
    }

    pub open spec fn set_nr_cpus(self, v: u32) -> Self {
        KernelBuildConfigView { nr_cpus: v, ..self }
    }

    pub open spec fn set_tick_type(self, v: TickType) -> Self {
        KernelBuildConfigView { tick_type: v, ..self }
    }

    pub open spec fn set_preemption(self, v: PreemptionType) -> Self {
        KernelBuildConfigView { preemption: v, ..self }
    }

    pub open spec fn set_package_format(self, v: PackageFormat) -> Self {
        KernelBuildConfigView { package_format: v, ..self }
    }

    pub open spec fn set_system_optimizations(self, v: Seq<Seq<char>>) -> Self {
        KernelBuildConfigView { system_optimizations: v, ..self }
    }
}

/// The options of one kernel build.
#[derive(Debug)]
pub struct KernelBuildConfig {
    kernel_version: String,
    architecture: String,
    scheduler: CpuScheduler,
    lto: LtoMode,
    hz: u32,
    nr_cpus: u32,
    tick_type: TickType,
    preemption: PreemptionType,
    package_format: PackageFormat,
    system_optimizations: Vec<String>,
}

impl View for KernelBuildConfig {
    type V = KernelBuildConfigView;

    closed spec fn view(&self) -> KernelBuildConfigView {
        KernelBuildConfigView {
            kernel_version: self.kernel_version@,
            architecture: self.architecture@,
            scheduler: self.scheduler,
            lto: self.lto,
            hz: self.hz,
            nr_cpus: self.nr_cpus,
            tick_type: self.tick_type,
            preemption: self.preemption,
            package_format: self.package_format,
            system_optimizations: string_views(self.system_optimizations@),
        }
    }
}

impl Clone for KernelBuildConfig {
    /// A copy with the same options.
    fn clone(&self) -> (c: Self)
        ensures
            c@ == self@,
    {
        let mut optimizations: Vec<String> = Vec::new();
        let mut i: usize = 0;
        while i < self.system_optimizations.len()
            invariant
                i <= self.system_optimizations.len(),
                optimizations.len() == i,
                forall|j: int| 0 <= j < i ==> #[trigger] optimizations@[j]@ == self.system_optimizations@[j]@,
            decreases self.system_optimizations.len() - i,
        {
            optimizations.push(self.system_optimizations[i].clone());
            i = i + 1;
        }
        assert(string_views(optimizations@) =~= string_views(self.system_optimizations@));
        KernelBuildConfig {
            kernel_version: self.kernel_version.clone(),
            architecture: self.architecture.clone(),
            scheduler: self.scheduler,
            lto: self.lto,
            hz: self.hz,
            nr_cpus: self.nr_cpus,
            tick_type: self.tick_type,
            preemption: self.preemption,
            package_format: self.package_format,
            system_optimizations: optimizations,
        }
    }
}

impl KernelBuildConfig {
    /// The default configuration, for a machine whose available parallelism
    /// is `available_parallelism` (`None` where it could not be found).
    pub fn new(available_parallelism: Option<usize>) -> (c: Self)
        requires
            parallelism_fits(available_parallelism),
        ensures
            c@ == default_config(available_parallelism),
    {
        let base: u32 = match available_parallelism {
            Some(n) => n as u32,
            None => 16,
        };
        let mut optimizations: Vec<String> = Vec::new();
        optimizations.push(String::from_str("O3"));
        optimizations.push(String::from_str("tcp_bbr3"));
        let c = KernelBuildConfig {
            kernel_version: String::from_str("6.19.12"),
            architecture: String::from_str("native"),
            scheduler: CpuScheduler::CachyOsBore,
            lto: LtoMode::Thin,
            hz: 1000,
            nr_cpus: base * 2,
            tick_type: TickType::NoHzIdle,
            preemption: PreemptionType::Preempt,
            package_format: PackageFormat::Debian,
            system_optimizations: optimizations,
        };
        assert(string_views(c.system_optimizations@) =~= seq!["O3"@, "tcp_bbr3"@]);
        c
    }

    pub fn with_kernel_version(self, kernel_version: &str) -> (c: Self)
        ensures
            c@ == self@.set_kernel_version(kernel_version@),
    {
        KernelBuildConfig { kernel_version: String::from_str(kernel_version), ..self }
    }

    pub fn with_architecture(self, architecture: &str) -> (c: Self)
        ensures
            c@ == self@.set_architecture(architecture@),
    {
        KernelBuildConfig { architecture: String::from_str(architecture), ..self }
    }

    pub fn with_scheduler(self, scheduler: CpuScheduler) -> (c: Self)
        ensures
            c@ == self@.set_scheduler(scheduler),
    {
        KernelBuildConfig { scheduler, ..self }
    }

    pub fn with_lto(self, lto: LtoMode) -> (c: Self)
        ensures
            c@ == self@.set_lto(lto),
    {
        KernelBuildConfig { lto, ..self }
    }

    pub fn with_hz(self, hz: u32) -> (c: Self)
        ensures
            c@ == self@.set_hz(hz),
    {
        KernelBuildConfig { hz, ..self }
    }

    /// Sets the CPU count; a count of 0 is raised to 1.
    pub fn with_nr_cpus(self, nr_cpus: u32) -> (c: Self)
        ensures
            c@ == self@.set_nr_cpus(if nr_cpus == 0 { 1 } else { nr_cpus }),
    {
        let n: u32 = if nr_cpus < 1 { 1 } else { nr_cpus };
        KernelBuildConfig { nr_cpus: n, ..self }
    }

    pub fn with_tick_type(self, tick_type: TickType) -> (c: Self)
        ensures
            c@ == self@.set_tick_type(tick_type),
    {
        KernelBuildConfig { tick_type, ..self }
    }

    pub fn with_preemption(self, preemption: PreemptionType) -> (c: Self)
        ensures
            c@ == self@.set_preemption(preemption),
    {
        KernelBuildConfig { preemption, ..self }
    }

    pub fn with_package_format(self, package_format: PackageFormat) -> (c: Self)
        ensures
            c@ == self@.set_package_format(package_format),
    {
        KernelBuildConfig { package_format, ..self }
    }

    pub fn with_system_optimizations(self, system_optimizations: Vec<String>) -> (c: Self)
        ensures
            c@ == self@.set_system_optimizations(string_views(system_optimizations@)),
    {
        KernelBuildConfig { system_optimizations, ..self }
    }

    pub fn kernel_version(&self) -> (v: &str)
        ensures
            v@ == self@.kernel_version,
    {
        self.kernel_version.as_str()
    }

    pub fn architecture(&self) -> (v: &str)
        ensures
            v@ == self@.architecture,
    {
        self.architecture.as_str()
    }

    pub fn scheduler(&self) -> (v: &CpuScheduler)
        ensures
            *v == self@.scheduler,
    {
        &self.scheduler
    }

    pub fn lto(&self) -> (v: &LtoMode)
        ensures
            *v == self@.lto,
    {
        &self.lto
    }

    pub fn hz(&self) -> (v: u32)
        ensures
            v == self@.hz,
    {
        self.hz
    }

    pub fn nr_cpus(&self) -> (v: u32)
        ensures
            v == self@.nr_cpus,
    {
        self.nr_cpus
    }

    pub fn tick_type(&self) -> (v: &TickType)
        ensures
            *v == self@.tick_type,
    {
        &self.tick_type
    }

    pub fn preemption(&self) -> (v: &PreemptionType)
        ensures
            *v == self@.preemption,
    {
        &self.preemption
    }

    pub fn package_format(&self) -> (v: &PackageFormat)
        ensures
            *v == self@.package_format,
    {
        &self.package_format
    }

    pub fn system_optimizations(&self) -> (v: &[String])
        ensures
            string_views(v@) == self@.system_optimizations,
    {
        self.system_optimizations.as_slice()
    }
}

/// A fresh configuration has a CPU count of at least 1, unless the machine's
/// parallelism is a multiple of 2^32 (whose count, taken modulo 2^32, is 0).
pub proof fn lemma_default_cpu_count_positive(available_parallelism: Option<usize>)
    requires
        parallelism_fits(available_parallelism),
        available_parallelism matches Some(n) ==> (n as u32) != 0,
    ensures
        default_config(available_parallelism).nr_cpus >= 1,
{
}

/// No setter brings the CPU count below 1: the CPU count setter raises 0 to
/// 1, and the other setters keep the count (as a clone keeps every option).
pub proof fn lemma_setters_keep_cpu_count(
    v: KernelBuildConfigView,
    kernel_version: Seq<char>,
    architecture: Seq<char>,
    scheduler: CpuScheduler,
    lto: LtoMode,
    hz: u32,
    nr_cpus: u32,
    tick_type: TickType,
    preemption: PreemptionType,
    package_format: PackageFormat,
    system_optimizations: Seq<Seq<char>>,
)
    requires
        v.nr_cpus >= 1,
    ensures
        v.set_kernel_version(kernel_version).nr_cpus >= 1,
        v.set_architecture(architecture).nr_cpus >= 1,
        v.set_scheduler(scheduler).nr_cpus >= 1,
        v.set_lto(lto).nr_cpus >= 1,
        v.set_hz(hz).nr_cpus >= 1,
        v.set_nr_cpus(if nr_cpus == 0 { 1 } else { nr_cpus }).nr_cpus >= 1,
        v.set_tick_type(tick_type).nr_cpus >= 1,
        v.set_preemption(preemption).nr_cpus >= 1,
        v.set_package_format(package_format).nr_cpus >= 1,
        v.set_system_optimizations(system_optimizations).nr_cpus >= 1,
{
}

} // verus!

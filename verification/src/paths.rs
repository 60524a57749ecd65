//! Where a build puts its files: the layout under the work directory.

use vstd::prelude::*;

use crate::builder::{KernelBuildConfig, KernelBuildConfigView, PackageFormat};
use crate::text::{is_prefix, replace_char, replaced};

verus! {

/// The path `PathBuf::join` makes of `base` and `part`.
pub uninterp spec fn path_joined(base: Seq<char>, part: Seq<char>) -> Seq<char>;

/// Whether `part` is a relative path: it does not start with `/`.
pub open spec fn relative_path(part: Seq<char>) -> bool {
    !(part.len() > 0 && part[0] == '/')
}

/// `base` and `part` with one `/` between them.
pub open spec fn child_path(base: Seq<char>, part: Seq<char>) -> Seq<char> {
    base + seq!['/'] + part
}

/// `r` is `base` extended by `part`, with at most one separator between them.
pub open spec fn extends_with(base: Seq<char>, part: Seq<char>, r: Seq<char>) -> bool {
    exists|sep: Seq<char>| sep.len() <= 1 && r == base + sep + part
}

/// Joins a path onto a base path (Unix paths: `/` separates components).
///
/// Calls `std::path::Path::join`, which adjoins `part` to `base` as
/// `PathBuf::push` does: an absolute `part` replaces `base`; a relative one
/// extends it, with a `/` put between the two where `base` is non-empty and
/// does not already end in one. The contract states these cases; the joined
/// text is otherwise left as a name of the two paths.
#[verifier::external_body]
pub(crate) fn join_path(base: &str, part: &str) -> (r: String)
    ensures
        r@ == path_joined(base@, part@),
        !relative_path(part@) ==> r@ == part@,
        relative_path(part@) ==> extends_with(base@, part@, r@),
        relative_path(part@) && base@.len() > 0 && base@.last() != '/' ==> r@ == child_path(
            base@,
            part@,
        ),
{
    std::path::Path::new(base).join(part).to_string_lossy().into_owned()
}

/// The path `Path::parent` gives for `p` (`None` for a root or an empty path).
pub uninterp spec fn path_parent(p: Seq<char>) -> Option<Seq<char>>;

/// A directory path that `Path::parent` gives back whole: it is non-empty
/// and ends neither in `/` nor in a `/.` component, the trailing parts that
/// the parent of a path drops.
pub open spec fn settled_dir(base: Seq<char>) -> bool {
    &&& base.len() > 0
    &&& base.last() != '/'
    &&& !(base.len() >= 2 && base[base.len() - 2] == '/' && base[base.len() - 1] == '.')
}

/// A normal path component: non-empty, without `/`, and neither `.` nor `..`.
pub open spec fn normal_component(part: Seq<char>) -> bool {
    &&& part.len() > 0
    &&& forall|i: int| 0 <= i < part.len() ==> #[trigger] part[i] != '/'
    &&& part != seq!['.']
    &&& part != seq!['.', '.']
}

/// `p` is `base`, a `/`, and a normal component.
pub open spec fn normal_child_of(p: Seq<char>, base: Seq<char>) -> bool {
    &&& p.len() > base.len() + 1
    &&& p.subrange(0, base.len() as int) == base
    &&& p[base.len() as int] == '/'
    &&& normal_component(p.subrange(base.len() + 1int, p.len() as int))
}

/// The directory that holds `p`, if it has one (Unix paths).
///
/// Calls `std::path::Path::parent`, which gives the path without its final
/// component. The contract states the case the library relies on: for a
/// directory `base` that needs no trimming, the parent of `base`, a `/` and
/// a normal component is `base`. Other results are left as a name of
/// the path.
#[verifier::external_body]
pub(crate) fn parent_path(p: &str) -> (r: Option<String>)
    ensures
        match r {
            Some(s) => path_parent(p@) == Some(s@),
            None => path_parent(p@) is None,
        },
        forall|base: Seq<char>|
            settled_dir(base) && #[trigger] normal_child_of(p@, base) ==> (r is Some
                && r.unwrap()@ == base),
{
    match std::path::Path::new(p).parent() {
        Some(q) => Some(q.to_string_lossy().into_owned()),
        None => None,
    }
}

/// The name of the package a configuration builds:
/// `vinmod-kernel-<version>-<format>`, with each `/` of the version made `-`.
pub open spec fn package_name(c: KernelBuildConfigView) -> Seq<char> {
    "vinmod-kernel-"@ + replaced(c.kernel_version, '/', "-"@) + "-"@ + c.package_format.text()
}

/// The file name extension of the artifact of each package format.
pub open spec fn artifact_extension(f: PackageFormat) -> Seq<char> {
    match f {
        PackageFormat::Debian => ".deb"@,
        PackageFormat::RedHat => ".tar.gz"@,
        PackageFormat::Arch => ".pkg.tar.gz"@,
        PackageFormat::Tarball => ".tar.gz"@,
    }
}

/// The abstract content of [`BuildPaths`].
pub struct BuildPathsView {
    pub root: Seq<char>,
    pub source_dir: Seq<char>,
    pub bundle_dir: Seq<char>,
    pub package_root: Seq<char>,
    pub manifest_path: Seq<char>,
    pub snapshot_path: Seq<char>,
    pub status_path: Seq<char>,
    pub output_path: Seq<char>,
    pub config_fragment_path: Seq<char>,
}

/// The layout of a build of configuration `c` under the work directory
/// `root`.
pub open spec fn build_paths(root: Seq<char>, c: KernelBuildConfigView) -> BuildPathsView {
    let bundle_dir = path_joined(root, "bundle"@);
    BuildPathsView {
        root: root,
        source_dir: path_joined(root, "linux-src"@),
        bundle_dir: bundle_dir,
        package_root: path_joined(bundle_dir, package_name(c)),
        manifest_path: path_joined(root, "build-manifest.txt"@),
        snapshot_path: path_joined(root, "system-snapshot.txt"@),
        status_path: path_joined(root, "BUILD_STATUS.txt"@),
        output_path: path_joined(root, package_name(c) + artifact_extension(c.package_format)),
        config_fragment_path: path_joined(root, "kernel-profile.fragment"@),
    }
}

/// The files and directories of one build.
#[derive(Debug, Clone)]
pub struct BuildPaths {
    pub root: String,
    pub source_dir: String,
    pub bundle_dir: String,
    pub package_root: String,
    pub manifest_path: String,
    pub snapshot_path: String,
    pub status_path: String,
    pub output_path: String,
    pub config_fragment_path: String,
}

impl View for BuildPaths {
    type V = BuildPathsView;

    open spec fn view(&self) -> BuildPathsView {
        BuildPathsView {
            root: self.root@,
            source_dir: self.source_dir@,
            bundle_dir: self.bundle_dir@,
            package_root: self.package_root@,
            manifest_path: self.manifest_path@,
            snapshot_path: self.snapshot_path@,
            status_path: self.status_path@,
            output_path: self.output_path@,
            config_fragment_path: self.config_fragment_path@,
        }
    }
}

/// Every file and directory of a layout lies under its work directory, and
/// the package root under the bundle directory.
pub open spec fn paths_under_root(p: BuildPathsView) -> bool {
    &&& is_prefix(p.root, p.source_dir)
    &&& is_prefix(p.root, p.bundle_dir)
    &&& is_prefix(p.bundle_dir, p.package_root)
    &&& is_prefix(p.root, p.package_root)
    &&& is_prefix(p.root, p.manifest_path)
    &&& is_prefix(p.root, p.snapshot_path)
    &&& is_prefix(p.root, p.status_path)
    &&& is_prefix(p.root, p.output_path)
    &&& is_prefix(p.root, p.config_fragment_path)
}

proof fn lemma_extends_prefix(base: Seq<char>, part: Seq<char>, r: Seq<char>)
    requires
        extends_with(base, part, r),
    ensures
        is_prefix(base, r),
{
    let sep = choose|sep: Seq<char>| sep.len() <= 1 && r == base + sep + part;
    assert(r.subrange(0, base.len() as int) =~= base);
}

proof fn lemma_prefix_trans(a: Seq<char>, b: Seq<char>, c: Seq<char>)
    requires
        is_prefix(a, b),
        is_prefix(b, c),
    ensures
        is_prefix(a, c),
{
    assert(c.subrange(0, a.len() as int) =~= b.subrange(0, a.len() as int));
}

/// The names a layout joins onto its directories are relative paths.
proof fn lemma_layout_names_relative(c: KernelBuildConfigView)
    ensures
        relative_path("linux-src"@),
        relative_path("bundle"@),
        relative_path("build-manifest.txt"@),
        relative_path("system-snapshot.txt"@),
        relative_path("BUILD_STATUS.txt"@),
        relative_path("kernel-profile.fragment"@),
        relative_path(package_name(c)),
        relative_path(package_name(c) + artifact_extension(c.package_format)),
{
    reveal_strlit("linux-src");
    reveal_strlit("bundle");
    reveal_strlit("build-manifest.txt");
    reveal_strlit("system-snapshot.txt");
    reveal_strlit("BUILD_STATUS.txt");
    reveal_strlit("kernel-profile.fragment");
    reveal_strlit("vinmod-kernel-");
    let n = package_name(c);
    let a = "vinmod-kernel-"@;
    assert(n[0] == a[0]);
    assert((n + artifact_extension(c.package_format))[0] == n[0]);
}

impl BuildPaths {
    /// Lays out a build of `config` under the directory `root`: every file
    /// and directory lies under `root`, and where `root` needs no trimming
    /// the source tree is `root/linux-src`.
    pub fn new(root: &str, config: &KernelBuildConfig) -> (p: BuildPaths)
        ensures
            p@ == build_paths(root@, config@),
            paths_under_root(p@),
            settled_dir(root@) ==> p@.source_dir == child_path(root@, "linux-src"@),
    {
        let source_dir = join_path(root, "linux-src");
        let bundle_dir = join_path(root, "bundle");
        let mut name = String::from_str("vinmod-kernel-");
        let version = replace_char(config.kernel_version(), '/', "-");
        name.append(version.as_str());
        name.append("-");
        let format = config.package_format().to_string();
        name.append(format.as_str());
        let package_root = join_path(bundle_dir.as_str(), name.as_str());
        let mut artifact = name.clone();
        match config.package_format() {
            PackageFormat::Debian => artifact.append(".deb"),
            PackageFormat::RedHat => artifact.append(".tar.gz"),
            PackageFormat::Arch => artifact.append(".pkg.tar.gz"),
            PackageFormat::Tarball => artifact.append(".tar.gz"),
        }
        let output_path = join_path(root, artifact.as_str());
        let manifest_path = join_path(root, "build-manifest.txt");
        let snapshot_path = join_path(root, "system-snapshot.txt");
        let status_path = join_path(root, "BUILD_STATUS.txt");
        let config_fragment_path = join_path(root, "kernel-profile.fragment");
        proof {
            lemma_layout_names_relative(config@);
            assert(name@ == package_name(config@));
            assert(artifact@ == package_name(config@) + artifact_extension(config@.package_format));
            lemma_extends_prefix(root@, "linux-src"@, source_dir@);
            lemma_extends_prefix(root@, "bundle"@, bundle_dir@);
            lemma_extends_prefix(bundle_dir@, name@, package_root@);
            lemma_prefix_trans(root@, bundle_dir@, package_root@);
            lemma_extends_prefix(root@, "build-manifest.txt"@, manifest_path@);
            lemma_extends_prefix(root@, "system-snapshot.txt"@, snapshot_path@);
            lemma_extends_prefix(root@, "BUILD_STATUS.txt"@, status_path@);
            lemma_extends_prefix(root@, artifact@, output_path@);
            lemma_extends_prefix(root@, "kernel-profile.fragment"@, config_fragment_path@);
        }
        BuildPaths {
            root: String::from_str(root),
            source_dir,
            bundle_dir,
            package_root,
            manifest_path,
            snapshot_path,
            status_path,
            output_path,
            config_fragment_path,
        }
    }
}

/// A package name holds no `/`, whatever the kernel version: it names one
/// file or directory, never a path.
pub proof fn lemma_package_name_has_no_slash(c: KernelBuildConfigView)
    ensures
        !package_name(c).contains('/'),
{
    reveal_strlit("vinmod-kernel-");
    reveal_strlit("-");
    reveal_strlit("deb");
    reveal_strlit("rpm");
    reveal_strlit("pkg.tar.zst");
    reveal_strlit("tar.gz");
    let dash = "-"@;
    assert(!dash.contains('/'));
    crate::text::lemma_replaced_removes(c.kernel_version, '/', dash);
    let a = "vinmod-kernel-"@;
    let b = replaced(c.kernel_version, '/', dash);
    let f = c.package_format.text();
    assert(!a.contains('/'));
    assert(!f.contains('/'));
    let whole = a + b + dash + f;
    assert forall|i: int| 0 <= i < whole.len() implies whole[i] != '/' by {
        if i < a.len() {
            assert(whole[i] == a[i]);
        } else if i < a.len() + b.len() {
            assert(whole[i] == b[i - a.len()]);
        } else if i < a.len() + b.len() + dash.len() {
            assert(whole[i] == dash[i - a.len() - b.len()]);
        } else {
            assert(whole[i] == f[i - a.len() - b.len() - dash.len()]);
        }
    }
}

/// A build's layout depends on its configuration only through the kernel
/// version and the package format.
pub proof fn lemma_layout_depends_on_version_and_format(
    root: Seq<char>,
    c1: KernelBuildConfigView,
    c2: KernelBuildConfigView,
)
    requires
        c1.kernel_version == c2.kernel_version,
        c1.package_format == c2.package_format,
    ensures
        build_paths(root, c1) == build_paths(root, c2),
{
}

} // verus!

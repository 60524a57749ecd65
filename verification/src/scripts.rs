//! What the build's shell scripts do, stated as the commands that occur in
//! them and the order in which they occur.

use vstd::prelude::*;

use crate::builder::{KernelBuildConfigView, PackageFormat};
use crate::commands::{
    archive_command, compile_debian_command, compile_modules_command, configure_command,
    cpu_count_expression, locate_packages_command, source_fetch_command,
};
use crate::paths::BuildPathsView;
use crate::program::compile_script;
use crate::text::sh_quoted;

verus! {

/// `t` occurs in `s` starting at position `i`.
pub open spec fn occurs_at(s: Seq<char>, i: int, t: Seq<char>) -> bool {
    &&& 0 <= i
    &&& i + t.len() <= s.len()
    &&& s.subrange(i, i + t.len()) == t
}

/// Each of `ts` occurs in `s` at the matching position of `pos`, one after
/// the other and without overlapping.
pub open spec fn occur_at_positions(s: Seq<char>, ts: Seq<Seq<char>>, pos: Seq<int>) -> bool {
    &&& pos.len() == ts.len()
    &&& forall|k: int| 0 <= k < ts.len() ==> occurs_at(s, #[trigger] pos[k], ts[k])
    &&& forall|j: int, k: int|
        0 <= j < k < ts.len() ==> #[trigger] pos[j] + ts[j].len() <= #[trigger] pos[k]
}

/// Each of `ts` occurs in `s`, in this order and without overlapping.
pub open spec fn occur_in_order(s: Seq<char>, ts: Seq<Seq<char>>) -> bool {
    exists|pos: Seq<int>| #[trigger] occur_at_positions(s, ts, pos)
}

/// Whether `s` is made of white space only (blanks and line breaks).
pub open spec fn blank(s: Seq<char>) -> bool {
    forall|i: int| 0 <= i < s.len() ==> #[trigger] s[i] == ' ' || s[i] == '\n'
}

proof fn lemma_occurs_between(s: Seq<char>, x: Seq<char>, t: Seq<char>, y: Seq<char>)
    requires
        s == x + t + y,
    ensures
        occurs_at(s, x.len() as int, t),
{
    assert(s.subrange(x.len() as int, (x.len() + t.len()) as int) =~= t);
}

/// The archive script packs, from the work directory, exactly the manifest,
/// the system snapshot, the configuration fragment and the bundle, in that
/// order: `tar -czf '<archive>'`, then `-C '<root>'`, then the four members,
/// the bundle last (nothing but white space follows it).
pub proof fn lemma_archive_members(archive: Seq<char>, root: Seq<char>)
    ensures
        occur_in_order(
            archive_command(archive, root),
            seq![
                "tar -czf '"@ + archive + "'"@,
                "-C '"@ + root + "'"@,
                "'build-manifest.txt'"@,
                "'system-snapshot.txt'"@,
                "'kernel-profile.fragment'"@,
                "'bundle'"@,
            ],
        ),
        exists|w: Seq<char>|
            blank(w) && #[trigger] archive_command(archive, root).subrange(
                archive_command(archive, root).len() - "'bundle'"@.len() - w.len(),
                archive_command(archive, root).len() as int,
            ) == "'bundle'"@ + w,
{
    let s = archive_command(archive, root);
    reveal_strlit("\n                    set -e\n                    tar -czf '");
    reveal_strlit("' -C '");
    reveal_strlit("' \\\n                        'build-manifest.txt' \\\n                        'system-snapshot.txt' \\\n                        'kernel-profile.fragment' \\\n                        'bundle'\n                    ");
    reveal_strlit("tar -czf '");
    reveal_strlit("'");
    reveal_strlit("-C '");
    reveal_strlit("'build-manifest.txt'");
    reveal_strlit("'system-snapshot.txt'");
    reveal_strlit("'kernel-profile.fragment'");
    reveal_strlit("'bundle'");
    reveal_strlit("\n                    set -e\n                    ");
    reveal_strlit(" ");
    reveal_strlit(" \\\n                        ");
    reveal_strlit("\n                    ");
    let head = "\n                    set -e\n                    "@;
    let t0 = "tar -czf '"@ + archive + "'"@;
    let t1 = "-C '"@ + root + "'"@;
    let gap = " \\\n                        "@;
    let m0 = "'build-manifest.txt'"@;
    let m1 = "'system-snapshot.txt'"@;
    let m2 = "'kernel-profile.fragment'"@;
    let m3 = "'bundle'"@;
    let tail = "\n                    "@;
    assert("\n                    set -e\n                    tar -czf '"@ =~= head + "tar -czf '"@);
    assert("' -C '"@ =~= "'"@ + " "@ + "-C '"@);
    assert("' \\\n                        'build-manifest.txt' \\\n                        'system-snapshot.txt' \\\n                        'kernel-profile.fragment' \\\n                        'bundle'\n                    "@
        =~= "'"@ + gap + m0 + gap + m1 + gap + m2 + gap + m3 + tail);
    let p0 = head.len() as int;
    let p1 = p0 + t0.len() + 1;
    let p2 = p1 + t1.len() + gap.len();
    let p3 = p2 + m0.len() + gap.len();
    let p4 = p3 + m1.len() + gap.len();
    let p5 = p4 + m2.len() + gap.len();
    assert(s =~= head + t0 + (" "@ + t1 + gap + m0 + gap + m1 + gap + m2 + gap + m3 + tail));
    lemma_occurs_between(s, head, t0, " "@ + t1 + gap + m0 + gap + m1 + gap + m2 + gap + m3 + tail);
    assert(s =~= (head + t0 + " "@) + t1 + (gap + m0 + gap + m1 + gap + m2 + gap + m3 + tail));
    lemma_occurs_between(s, head + t0 + " "@, t1, gap + m0 + gap + m1 + gap + m2 + gap + m3 + tail);
    assert(s =~= (head + t0 + " "@ + t1 + gap) + m0 + (gap + m1 + gap + m2 + gap + m3 + tail));
    lemma_occurs_between(s, head + t0 + " "@ + t1 + gap, m0, gap + m1 + gap + m2 + gap + m3 + tail);
    assert(s =~= (head + t0 + " "@ + t1 + gap + m0 + gap) + m1 + (gap + m2 + gap + m3 + tail));
    lemma_occurs_between(s, head + t0 + " "@ + t1 + gap + m0 + gap, m1, gap + m2 + gap + m3 + tail);
    assert(s =~= (head + t0 + " "@ + t1 + gap + m0 + gap + m1 + gap) + m2 + (gap + m3 + tail));
    lemma_occurs_between(s, head + t0 + " "@ + t1 + gap + m0 + gap + m1 + gap, m2, gap + m3 + tail);
    assert(s =~= (head + t0 + " "@ + t1 + gap + m0 + gap + m1 + gap + m2 + gap) + m3 + tail);
    lemma_occurs_between(s, head + t0 + " "@ + t1 + gap + m0 + gap + m1 + gap + m2 + gap, m3, tail);
    let ts = seq![t0, t1, m0, m1, m2, m3];
    let pos = seq![p0, p1, p2, p3, p4, p5];
    assert forall|k: int| 0 <= k < ts.len() implies occurs_at(s, #[trigger] pos[k], ts[k]) by {}
    assert(occur_at_positions(s, ts, pos));
    assert(blank(tail));
    assert(s.subrange(s.len() - m3.len() - tail.len(), s.len() as int) =~= m3 + tail);
}

proof fn lemma_occurs_across(x: Seq<char>, a: Seq<char>, m: Seq<char>, b: Seq<char>, y: Seq<char>)
    ensures
        occurs_at(x + a + m + (b + y), x.len() as int, a + m + b),
{
    let s = x + a + m + (b + y);
    assert(s.subrange(x.len() as int, (x.len() + (a + m + b).len()) as int) =~= a + m + b);
}

proof fn lemma_occurs_extend(x: Seq<char>, y: Seq<char>, i: int, t: Seq<char>)
    requires
        occurs_at(x, i, t),
    ensures
        occurs_at(x + y, i, t),
{
    assert((x + y).subrange(i, i + t.len()) =~= x.subrange(i, i + t.len()));
}

proof fn lemma_fetch_literals()
    ensures
        "\n            set -e\n            if [ -d '"@ == "\n            set -e\n            "@ + "if [ -d '"@,
        "/.git' ]; then\n                cd '"@ == "/.git' ]; then"@ + "\n                cd '"@,
        "'\n                git fetch --tags --depth 1 origin '"@ == "'\n                "@ + "git fetch --tags --depth 1 origin '"@,
        "' >/dev/null 2>&1 || true\n                git checkout -f '"@ == "'"@ + " >/dev/null 2>&1 || true\n                "@ + "git checkout -f '"@,
        "' >/dev/null 2>&1 || true\n            elif [ -f '"@ == "'"@ + " >/dev/null 2>&1 || true\n            "@ + "elif [ -f '"@,
        "/Makefile' ]; then\n                true\n            else\n                git clone --depth 1 --branch '"@
        == "/Makefile' ]; then"@ + "\n                true\n            else\n                "@ + "git clone --depth 1 --branch '"@,
        "' || git clone --depth 1 '"@ == "'"@ + " || git clone --depth 1 '"@,
{
    reveal_strlit("\n            set -e\n            if [ -d '");
    reveal_strlit("/.git' ]; then\n                cd '");
    reveal_strlit("'\n                git fetch --tags --depth 1 origin '");
    reveal_strlit("' >/dev/null 2>&1 || true\n                git checkout -f '");
    reveal_strlit("' >/dev/null 2>&1 || true\n            elif [ -f '");
    reveal_strlit("/Makefile' ]; then\n                true\n            else\n                git clone --depth 1 --branch '");
    reveal_strlit("' || git clone --depth 1 '");
    reveal_strlit("\n            set -e\n            ");
    reveal_strlit("if [ -d '");
    reveal_strlit("/.git' ]; then");
    reveal_strlit("\n                cd '");
    reveal_strlit("'\n                ");
    reveal_strlit("git fetch --tags --depth 1 origin '");
    reveal_strlit("'");
    reveal_strlit(" >/dev/null 2>&1 || true\n                ");
    reveal_strlit("git checkout -f '");
    reveal_strlit(" >/dev/null 2>&1 || true\n            ");
    reveal_strlit("elif [ -f '");
    reveal_strlit("/Makefile' ]; then");
    reveal_strlit("\n                true\n            else\n                ");
    reveal_strlit("git clone --depth 1 --branch '");
    reveal_strlit(" || git clone --depth 1 '");
    let h0 = "\n            set -e\n            "@;
    let x1 = "\n                cd '"@;
    let x2 = "'\n                "@;
    let x3 = " >/dev/null 2>&1 || true\n                "@;
    let x4 = " >/dev/null 2>&1 || true\n            "@;
    let x5 = "\n                true\n            else\n                "@;
    let x8 = " || git clone --depth 1 '"@;
    assert("\n            set -e\n            if [ -d '"@ =~= h0 + "if [ -d '"@);
    assert("/.git' ]; then\n                cd '"@ =~= "/.git' ]; then"@ + x1);
    assert("'\n                git fetch --tags --depth 1 origin '"@ =~= x2 + "git fetch --tags --depth 1 origin '"@);
    assert("' >/dev/null 2>&1 || true\n                git checkout -f '"@ =~= "'"@ + x3 + "git checkout -f '"@);
    assert("' >/dev/null 2>&1 || true\n            elif [ -f '"@ =~= "'"@ + x4 + "elif [ -f '"@);
    assert("/Makefile' ]; then\n                true\n            else\n                git clone --depth 1 --branch '"@
        =~= "/Makefile' ]; then"@ + x5 + "git clone --depth 1 --branch '"@);
    assert("' || git clone --depth 1 '"@ =~= "'"@ + x8);
}

/// In the branch taken when the source directory already holds a git
/// checkout, the fetch script fetches the reference and then checks it out,
/// both before the `elif` that starts the next branch; in the branch taken
/// when there is no source tree, it clones the reference into the source
/// directory. So every branch leaves the tree at the requested reference.
pub proof fn lemma_source_fetch_checks_out(source: Seq<char>, reference: Seq<char>, repo: Seq<char>)
    ensures
        occur_in_order(
            source_fetch_command(source, reference, repo),
            seq![
                "if [ -d '"@ + source + "/.git' ]; then"@,
                "git fetch --tags --depth 1 origin '"@ + reference + "'"@,
                "git checkout -f '"@ + reference + "'"@,
                "elif [ -f '"@ + source + "/Makefile' ]; then"@,
                "git clone --depth 1 --branch '"@ + reference + "' '"@ + repo + "' '"@ + source + "'"@,
            ],
        ),
{
    lemma_fetch_literals();
    let s = source_fetch_command(source, reference, repo);
    let l0 = "\n            set -e\n            if [ -d '"@;
    let l1 = "/.git' ]; then\n                cd '"@;
    let l2 = "'\n                git fetch --tags --depth 1 origin '"@;
    let l3 = "' >/dev/null 2>&1 || true\n                git checkout -f '"@;
    let l4 = "' >/dev/null 2>&1 || true\n            elif [ -f '"@;
    let l5 = "/Makefile' ]; then\n                true\n            else\n                git clone --depth 1 --branch '"@;
    let l6 = "' '"@;
    let l8 = "' || git clone --depth 1 '"@;
    let l10 = "'\n            fi\n            "@;
    let h0 = "\n            set -e\n            "@;
    let x1 = "\n                cd '"@;
    let x2 = "'\n                "@;
    let x3 = " >/dev/null 2>&1 || true\n                "@;
    let x4 = " >/dev/null 2>&1 || true\n            "@;
    let x5 = "\n                true\n            else\n                "@;
    let x8 = " || git clone --depth 1 '"@;
    let q = "'"@;
    let gi = "if [ -d '"@;
    let gt = "/.git' ]; then"@;
    let fi = "git fetch --tags --depth 1 origin '"@;
    let ci = "git checkout -f '"@;
    let ei = "elif [ -f '"@;
    let et = "/Makefile' ]; then"@;
    let ki = "git clone --depth 1 --branch '"@;
    let p2 = l0 + source + l1;
    let p4 = p2 + source + l2;
    let p6 = p4 + reference + l3;
    let p8 = p6 + reference + l4;
    let p10 = p8 + source + l5;
    let p16 = p10 + reference + l6 + repo + l6 + source;
    let p17 = p16 + l8;
    assert(s == p17 + repo + l6 + source + l10);
    let g = gi + source + gt;
    let f = fi + reference + q;
    let c = ci + reference + q;
    let e = ei + source + et;
    let k = ki + reference + l6 + repo + l6 + source + q;
    // the guard
    lemma_occurs_across(h0, gi, source, gt, x1);
    lemma_occurs_extend(p2, source, h0.len() as int, g);
    lemma_occurs_extend(p2 + source, l2, h0.len() as int, g);
    lemma_occurs_extend(p2 + source + l2, reference, h0.len() as int, g);
    lemma_occurs_extend(p2 + source + l2 + reference, l3, h0.len() as int, g);
    lemma_occurs_extend(p2 + source + l2 + reference + l3, reference, h0.len() as int, g);
    lemma_occurs_extend(p2 + source + l2 + reference + l3 + reference, l4, h0.len() as int, g);
    lemma_occurs_extend(p2 + source + l2 + reference + l3 + reference + l4, source, h0.len() as int, g);
    lemma_occurs_extend(p2 + source + l2 + reference + l3 + reference + l4 + source, l5, h0.len() as int, g);
    lemma_occurs_extend(p2 + source + l2 + reference + l3 + reference + l4 + source + l5, reference, h0.len() as int, g);
    lemma_occurs_extend(p2 + source + l2 + reference + l3 + reference + l4 + source + l5 + reference, l6, h0.len() as int, g);
    lemma_occurs_extend(p2 + source + l2 + reference + l3 + reference + l4 + source + l5 + reference + l6, repo, h0.len() as int, g);
    lemma_occurs_extend(p2 + source + l2 + reference + l3 + reference + l4 + source + l5 + reference + l6 + repo, l6, h0.len() as int, g);
    lemma_occurs_extend(p2 + source + l2 + reference + l3 + reference + l4 + source + l5 + reference + l6 + repo + l6, source, h0.len() as int, g);
    lemma_occurs_extend(p2 + source + l2 + reference + l3 + reference + l4 + source + l5 + reference + l6 + repo + l6 + source, l8, h0.len() as int, g);
    lemma_occurs_extend(p2 + source + l2 + reference + l3 + reference + l4 + source + l5 + reference + l6 + repo + l6 + source + l8, repo, h0.len() as int, g);
    lemma_occurs_extend(p2 + source + l2 + reference + l3 + reference + l4 + source + l5 + reference + l6 + repo + l6 + source + l8 + repo, l6, h0.len() as int, g);
    lemma_occurs_extend(p2 + source + l2 + reference + l3 + reference + l4 + source + l5 + reference + l6 + repo + l6 + source + l8 + repo + l6, source, h0.len() as int, g);
    lemma_occurs_extend(p2 + source + l2 + reference + l3 + reference + l4 + source + l5 + reference + l6 + repo + l6 + source + l8 + repo + l6 + source, l10, h0.len() as int, g);
    // the fetch
    let y2 = p2 + source + x2;
    assert(p4 =~= y2 + fi);
    lemma_occurs_across(y2, fi, reference, q, x3 + ci);
    assert(p4 + reference + l3 =~= y2 + fi + reference + (q + (x3 + ci)));
    lemma_occurs_extend(p4 + reference + l3, reference, y2.len() as int, f);
    lemma_occurs_extend(p4 + reference + l3 + reference, l4, y2.len() as int, f);
    lemma_occurs_extend(p4 + reference + l3 + reference + l4, source, y2.len() as int, f);
    lemma_occurs_extend(p4 + reference + l3 + reference + l4 + source, l5, y2.len() as int, f);
    lemma_occurs_extend(p4 + reference + l3 + reference + l4 + source + l5, reference, y2.len() as int, f);
    lemma_occurs_extend(p4 + reference + l3 + reference + l4 + source + l5 + reference, l6, y2.len() as int, f);
    lemma_occurs_extend(p4 + reference + l3 + reference + l4 + source + l5 + reference + l6, repo, y2.len() as int, f);
    lemma_occurs_extend(p4 + reference + l3 + reference + l4 + source + l5 + reference + l6 + repo, l6, y2.len() as int, f);
    lemma_occurs_extend(p4 + reference + l3 + reference + l4 + source + l5 + reference + l6 + repo + l6, source, y2.len() as int, f);
    lemma_occurs_extend(p4 + reference + l3 + reference + l4 + source + l5 + reference + l6 + repo + l6 + source, l8, y2.len() as int, f);
    lemma_occurs_extend(p4 + reference + l3 + reference + l4 + source + l5 + reference + l6 + repo + l6 + source + l8, repo, y2.len() as int, f);
    lemma_occurs_extend(p4 + reference + l3 + reference + l4 + source + l5 + reference + l6 + repo + l6 + source + l8 + repo, l6, y2.len() as int, f);
    lemma_occurs_extend(p4 + reference + l3 + reference + l4 + source + l5 + reference + l6 + repo + l6 + source + l8 + repo + l6, source, y2.len() as int, f);
    lemma_occurs_extend(p4 + reference + l3 + reference + l4 + source + l5 + reference + l6 + repo + l6 + source + l8 + repo + l6 + source, l10, y2.len() as int, f);
    // the checkout
    let y3 = p4 + reference + (q + x3);
    assert(p6 =~= y3 + ci);
    lemma_occurs_across(y3, ci, reference, q, x4 + ei);
    assert(p6 + reference + l4 =~= y3 + ci + reference + (q + (x4 + ei)));
    lemma_occurs_extend(p6 + reference + l4, source, y3.len() as int, c);
    lemma_occurs_extend(p6 + reference + l4 + source, l5, y3.len() as int, c);
    lemma_occurs_extend(p6 + reference + l4 + source + l5, reference, y3.len() as int, c);
    lemma_occurs_extend(p6 + reference + l4 + source + l5 + reference, l6, y3.len() as int, c);
    lemma_occurs_extend(p6 + reference + l4 + source + l5 + reference + l6, repo, y3.len() as int, c);
    lemma_occurs_extend(p6 + reference + l4 + source + l5 + reference + l6 + repo, l6, y3.len() as int, c);
    lemma_occurs_extend(p6 + reference + l4 + source + l5 + reference + l6 + repo + l6, source, y3.len() as int, c);
    lemma_occurs_extend(p6 + reference + l4 + source + l5 + reference + l6 + repo + l6 + source, l8, y3.len() as int, c);
    lemma_occurs_extend(p6 + reference + l4 + source + l5 + reference + l6 + repo + l6 + source + l8, repo, y3.len() as int, c);
    lemma_occurs_extend(p6 + reference + l4 + source + l5 + reference + l6 + repo + l6 + source + l8 + repo, l6, y3.len() as int, c);
    lemma_occurs_extend(p6 + reference + l4 + source + l5 + reference + l6 + repo + l6 + source + l8 + repo + l6, source, y3.len() as int, c);
    lemma_occurs_extend(p6 + reference + l4 + source + l5 + reference + l6 + repo + l6 + source + l8 + repo + l6 + source, l10, y3.len() as int, c);
    // the next branch
    let y4 = p6 + reference + (q + x4);
    assert(p8 =~= y4 + ei);
    lemma_occurs_across(y4, ei, source, et, x5 + ki);
    assert(p8 + source + l5 =~= y4 + ei + source + (et + (x5 + ki)));
    lemma_occurs_extend(p8 + source + l5, reference, y4.len() as int, e);
    lemma_occurs_extend(p8 + source + l5 + reference, l6, y4.len() as int, e);
    lemma_occurs_extend(p8 + source + l5 + reference + l6, repo, y4.len() as int, e);
    lemma_occurs_extend(p8 + source + l5 + reference + l6 + repo, l6, y4.len() as int, e);
    lemma_occurs_extend(p8 + source + l5 + reference + l6 + repo + l6, source, y4.len() as int, e);
    lemma_occurs_extend(p8 + source + l5 + reference + l6 + repo + l6 + source, l8, y4.len() as int, e);
    lemma_occurs_extend(p8 + source + l5 + reference + l6 + repo + l6 + source + l8, repo, y4.len() as int, e);
    lemma_occurs_extend(p8 + source + l5 + reference + l6 + repo + l6 + source + l8 + repo, l6, y4.len() as int, e);
    lemma_occurs_extend(p8 + source + l5 + reference + l6 + repo + l6 + source + l8 + repo + l6, source, y4.len() as int, e);
    lemma_occurs_extend(p8 + source + l5 + reference + l6 + repo + l6 + source + l8 + repo + l6 + source, l10, y4.len() as int, e);
    // the clone
    let y5 = p8 + source + (et + x5);
    assert(p10 =~= y5 + ki);
    let mid = reference + l6 + repo + l6 + source;
    lemma_occurs_across(y5, ki, mid, q, x8);
    assert(p17 =~= y5 + ki + mid + (q + x8));
    assert(ki + mid + q =~= k);
    lemma_occurs_extend(p17, repo, y5.len() as int, k);
    lemma_occurs_extend(p17 + repo, l6, y5.len() as int, k);
    lemma_occurs_extend(p17 + repo + l6, source, y5.len() as int, k);
    lemma_occurs_extend(p17 + repo + l6 + source, l10, y5.len() as int, k);
    let ts = seq![g, f, c, e, k];
    let pos = seq![h0.len() as int, y2.len() as int, y3.len() as int, y4.len() as int, y5.len() as int];
    assert forall|i: int| 0 <= i < ts.len() implies occurs_at(s, #[trigger] pos[i], ts[i]) by {}
    assert(occur_at_positions(s, ts, pos));
}

proof fn lemma_compile_literals()
    ensures
        "\n                set -e\n                cd '"@ == "\n                set -e\n                "@ + "cd '"@,
        "'\n                make -j"@ == "'"@ + "\n                "@ + "make -j"@,
        " bindeb-pkg LOCALVERSION=-vinmod KDEB_PKGVERSION=1.0\n                "@
            == " bindeb-pkg LOCALVERSION=-vinmod KDEB_PKGVERSION=1.0"@ + "\n                "@,
        "\n                make modules_install INSTALL_MOD_PATH='"@ == "\n                "@
            + "make modules_install INSTALL_MOD_PATH='"@,
        "' >/dev/null 2>&1 || true\n                "@ == "'"@ + " >/dev/null 2>&1 || true\n                "@,
{
    reveal_strlit("\n                set -e\n                cd '");
    reveal_strlit("\n                set -e\n                ");
    reveal_strlit("cd '");
    reveal_strlit("'\n                make -j");
    reveal_strlit("'");
    reveal_strlit("\n                ");
    reveal_strlit("make -j");
    reveal_strlit(" bindeb-pkg LOCALVERSION=-vinmod KDEB_PKGVERSION=1.0\n                ");
    reveal_strlit(" bindeb-pkg LOCALVERSION=-vinmod KDEB_PKGVERSION=1.0");
    reveal_strlit("\n                make modules_install INSTALL_MOD_PATH='");
    reveal_strlit("make modules_install INSTALL_MOD_PATH='");
    reveal_strlit("' >/dev/null 2>&1 || true\n                ");
    reveal_strlit(" >/dev/null 2>&1 || true\n                ");
    assert("\n                set -e\n                cd '"@ =~= "\n                set -e\n                "@ + "cd '"@);
    assert("'\n                make -j"@ =~= "'"@ + "\n                "@ + "make -j"@);
    assert(" bindeb-pkg LOCALVERSION=-vinmod KDEB_PKGVERSION=1.0\n                "@
        =~= " bindeb-pkg LOCALVERSION=-vinmod KDEB_PKGVERSION=1.0"@ + "\n                "@);
    assert("\n                make modules_install INSTALL_MOD_PATH='"@ =~= "\n                "@
        + "make modules_install INSTALL_MOD_PATH='"@);
    assert("' >/dev/null 2>&1 || true\n                "@ =~= "'"@ + " >/dev/null 2>&1 || true\n                "@);
}

/// The Debian compile script enters the source tree and then builds the
/// Debian packages there with `make -j<cpus> bindeb-pkg`.
pub proof fn lemma_compile_debian_steps(source: Seq<char>, cpu_count: Seq<char>)
    ensures
        occur_in_order(
            compile_debian_command(source, cpu_count),
            seq![
                "cd '"@ + source + "'"@,
                "make -j"@ + cpu_count + " bindeb-pkg LOCALVERSION=-vinmod KDEB_PKGVERSION=1.0"@,
            ],
        ),
{
    lemma_compile_literals();
    let s = compile_debian_command(source, cpu_count);
    let d0 = "\n                set -e\n                cd '"@;
    let d1 = "'\n                make -j"@;
    let d2 = " bindeb-pkg LOCALVERSION=-vinmod KDEB_PKGVERSION=1.0\n                "@;
    let h = "\n                set -e\n                "@;
    let nl = "\n                "@;
    let q = "'"@;
    let cd = "cd '"@;
    let mk = "make -j"@;
    let bd = " bindeb-pkg LOCALVERSION=-vinmod KDEB_PKGVERSION=1.0"@;
    assert(s == d0 + source + d1 + cpu_count + d2);
    lemma_occurs_across(h, cd, source, q, nl + mk);
    assert(d0 + source + d1 =~= h + cd + source + (q + (nl + mk)));
    lemma_occurs_extend(d0 + source + d1, cpu_count, h.len() as int, cd + source + q);
    lemma_occurs_extend(d0 + source + d1 + cpu_count, d2, h.len() as int, cd + source + q);
    let y = d0 + source + (q + nl);
    assert(d0 + source + d1 =~= y + mk);
    lemma_occurs_across(y, mk, cpu_count, bd, nl);
    let t0 = cd + source + q;
    let t1 = mk + cpu_count + bd;
    let ts = seq![t0, t1];
    let pos = seq![h.len() as int, y.len() as int];
    assert forall|i: int| 0 <= i < ts.len() implies occurs_at(s, #[trigger] pos[i], ts[i]) by {}
    assert(occur_at_positions(s, ts, pos));
}

/// The compile script of the other formats enters the source tree, builds
/// the kernel with `make -j<cpus>`, and then installs the modules under
/// `bundle` with `make modules_install INSTALL_MOD_PATH='<bundle>'`.
pub proof fn lemma_compile_modules_steps(source: Seq<char>, cpu_count: Seq<char>, bundle: Seq<char>)
    ensures
        occur_in_order(
            compile_modules_command(source, cpu_count, bundle),
            seq![
                "cd '"@ + source + "'"@,
                "make -j"@ + cpu_count,
                "make modules_install INSTALL_MOD_PATH='"@ + bundle + "'"@,
            ],
        ),
{
    lemma_compile_literals();
    let s = compile_modules_command(source, cpu_count, bundle);
    let d0 = "\n                set -e\n                cd '"@;
    let d1 = "'\n                make -j"@;
    let m2 = "\n                make modules_install INSTALL_MOD_PATH='"@;
    let m3 = "' >/dev/null 2>&1 || true\n                "@;
    let h = "\n                set -e\n                "@;
    let nl = "\n                "@;
    let q = "'"@;
    let cd = "cd '"@;
    let mk = "make -j"@;
    let mi = "make modules_install INSTALL_MOD_PATH='"@;
    let rest = " >/dev/null 2>&1 || true\n                "@;
    assert(s == d0 + source + d1 + cpu_count + m2 + bundle + m3);
    lemma_occurs_across(h, cd, source, q, nl + mk);
    assert(d0 + source + d1 =~= h + cd + source + (q + (nl + mk)));
    lemma_occurs_extend(d0 + source + d1, cpu_count, h.len() as int, cd + source + q);
    lemma_occurs_extend(d0 + source + d1 + cpu_count, m2, h.len() as int, cd + source + q);
    lemma_occurs_extend(d0 + source + d1 + cpu_count + m2, bundle, h.len() as int, cd + source + q);
    lemma_occurs_extend(d0 + source + d1 + cpu_count + m2 + bundle, m3, h.len() as int, cd + source + q);
    let y = d0 + source + (q + nl);
    assert(d0 + source + d1 =~= y + mk);
    lemma_occurs_across(y, mk, cpu_count, Seq::<char>::empty(), m2);
    assert(mk + cpu_count + Seq::<char>::empty() =~= mk + cpu_count);
    assert(y + mk + cpu_count + (Seq::<char>::empty() + m2) =~= d0 + source + d1 + cpu_count + m2);
    lemma_occurs_extend(d0 + source + d1 + cpu_count + m2, bundle, y.len() as int, mk + cpu_count);
    lemma_occurs_extend(d0 + source + d1 + cpu_count + m2 + bundle, m3, y.len() as int, mk + cpu_count);
    let z = d0 + source + d1 + cpu_count + nl;
    assert(d0 + source + d1 + cpu_count + m2 =~= z + mi);
    lemma_occurs_across(z, mi, bundle, q, rest);
    let t0 = cd + source + q;
    let t1 = mk + cpu_count;
    let t2 = mi + bundle + q;
    let ts = seq![t0, t1, t2];
    let pos = seq![h.len() as int, y.len() as int, z.len() as int];
    assert forall|i: int| 0 <= i < ts.len() implies occurs_at(s, #[trigger] pos[i], ts[i]) by {}
    assert(occur_at_positions(s, ts, pos));
}

/// A Debian build compiles with `bindeb-pkg`; every other format compiles
/// the kernel and installs its modules into the package root (the directory
/// the archive then packs, under the bundle).
pub proof fn lemma_compile_by_format(c: KernelBuildConfigView, p: BuildPathsView)
    ensures
        c.package_format == PackageFormat::Debian ==> occur_in_order(
            compile_script(c, p),
            seq![
                "cd '"@ + sh_quoted(p.source_dir) + "'"@,
                "make -j"@ + cpu_count_expression()
                    + " bindeb-pkg LOCALVERSION=-vinmod KDEB_PKGVERSION=1.0"@,
            ],
        ),
        c.package_format != PackageFormat::Debian ==> occur_in_order(
            compile_script(c, p),
            seq![
                "cd '"@ + sh_quoted(p.source_dir) + "'"@,
                "make -j"@ + cpu_count_expression(),
                "make modules_install INSTALL_MOD_PATH='"@ + sh_quoted(p.package_root) + "'"@,
            ],
        ),
{
    if c.package_format == PackageFormat::Debian {
        lemma_compile_debian_steps(sh_quoted(p.source_dir), cpu_count_expression());
    } else {
        lemma_compile_modules_steps(
            sh_quoted(p.source_dir),
            cpu_count_expression(),
            sh_quoted(p.package_root),
        );
    }
}

proof fn lemma_configure_literals()
    ensures
        "\n            set -e\n            cd '"@ == "\n            set -e\n            "@ + "cd '"@,
        "'\n            if [ ! -f .config ]; then\n                make defconfig\n            fi\n            "@
            == "'"@ + "\n            if [ ! -f .config ]; then\n                "@ + "make defconfig"@
            + "\n            fi\n            "@,
        "\n            make olddefconfig\n            "@ == "\n            "@ + "make olddefconfig"@
            + "\n            "@,
        "\n                    set -e\n                    find '"@ == "\n                    set -e\n                    "@
            + "find '"@,
        "' -maxdepth 1 -type f \\( -name '*.deb' -o -name '*.dsc' -o -name '*.changes' \\) | sort\n                    "@
            == "' -maxdepth 1 -type f"@ + " \\( "@ + "-name '*.deb'"@
            + " -o -name '*.dsc' -o -name '*.changes' \\) | sort\n                    "@,
{
    reveal_strlit("\n            set -e\n            cd '");
    reveal_strlit("\n            set -e\n            ");
    reveal_strlit("cd '");
    reveal_strlit("'\n            if [ ! -f .config ]; then\n                make defconfig\n            fi\n            ");
    reveal_strlit("'");
    reveal_strlit("\n            if [ ! -f .config ]; then\n                ");
    reveal_strlit("make defconfig");
    reveal_strlit("\n            fi\n            ");
    reveal_strlit("\n            make olddefconfig\n            ");
    reveal_strlit("\n            ");
    reveal_strlit("make olddefconfig");
    reveal_strlit("\n                    set -e\n                    find '");
    reveal_strlit("\n                    set -e\n                    ");
    reveal_strlit("find '");
    reveal_strlit("' -maxdepth 1 -type f \\( -name '*.deb' -o -name '*.dsc' -o -name '*.changes' \\) | sort\n                    ");
    reveal_strlit("' -maxdepth 1 -type f");
    reveal_strlit(" \\( ");
    reveal_strlit("-name '*.deb'");
    reveal_strlit(" -o -name '*.dsc' -o -name '*.changes' \\) | sort\n                    ");
    assert("\n            set -e\n            cd '"@ =~= "\n            set -e\n            "@ + "cd '"@);
    assert("'\n            if [ ! -f .config ]; then\n                make defconfig\n            fi\n            "@
        =~= "'"@ + "\n            if [ ! -f .config ]; then\n                "@ + "make defconfig"@
        + "\n            fi\n            "@);
    assert("\n            make olddefconfig\n            "@ =~= "\n            "@ + "make olddefconfig"@
        + "\n            "@);
    assert("\n                    set -e\n                    find '"@ =~= "\n                    set -e\n                    "@
        + "find '"@);
    assert("' -maxdepth 1 -type f \\( -name '*.deb' -o -name '*.dsc' -o -name '*.changes' \\) | sort\n                    "@
        =~= "' -maxdepth 1 -type f"@ + " \\( "@ + "-name '*.deb'"@
        + " -o -name '*.dsc' -o -name '*.changes' \\) | sort\n                    "@);
}

/// The configure script enters the source tree, makes a default
/// configuration where there is none (`make defconfig`), applies the
/// configuration lines, and then completes the configuration with
/// `make olddefconfig`.
pub proof fn lemma_configure_steps(source: Seq<char>, commands: Seq<char>)
    ensures
        occur_in_order(
            configure_command(source, commands),
            seq!["cd '"@ + source + "'"@, "make defconfig"@, commands, "make olddefconfig"@],
        ),
{
    lemma_configure_literals();
    let s = configure_command(source, commands);
    let c0 = "\n            set -e\n            cd '"@;
    let c1 = "'\n            if [ ! -f .config ]; then\n                make defconfig\n            fi\n            "@;
    let c2 = "\n            make olddefconfig\n            "@;
    let h = "\n            set -e\n            "@;
    let q = "'"@;
    let cd = "cd '"@;
    let a1 = "\n            if [ ! -f .config ]; then\n                "@;
    let md = "make defconfig"@;
    let b1 = "\n            fi\n            "@;
    let a2 = "\n            "@;
    let mo = "make olddefconfig"@;
    assert(s == c0 + source + c1 + commands + c2);
    lemma_occurs_across(h, cd, source, q, a1 + md + b1);
    assert(c0 + source + c1 =~= h + cd + source + (q + (a1 + md + b1)));
    lemma_occurs_extend(c0 + source + c1, commands, h.len() as int, cd + source + q);
    lemma_occurs_extend(c0 + source + c1 + commands, c2, h.len() as int, cd + source + q);
    let x1 = c0 + source + (q + a1);
    assert(s =~= x1 + md + (b1 + commands + c2));
    lemma_occurs_between(s, x1, md, b1 + commands + c2);
    let x2 = c0 + source + c1;
    lemma_occurs_between(s, x2, commands, c2);
    let x3 = c0 + source + c1 + commands + a2;
    assert(s =~= x3 + mo + a2);
    lemma_occurs_between(s, x3, mo, a2);
    let ts = seq![cd + source + q, md, commands, mo];
    let pos = seq![h.len() as int, x1.len() as int, x2.len() as int, x3.len() as int];
    assert forall|i: int| 0 <= i < ts.len() implies occurs_at(s, #[trigger] pos[i], ts[i]) by {}
    assert(occur_at_positions(s, ts, pos));
}

/// The package search lists the files directly in `parent`
/// (`find '<parent>' -maxdepth 1 -type f`) and looks for Debian packages
/// among them (`-name '*.deb'`).
pub proof fn lemma_locate_packages_steps(parent: Seq<char>)
    ensures
        occur_in_order(
            locate_packages_command(parent),
            seq!["find '"@ + parent + "' -maxdepth 1 -type f"@, "-name '*.deb'"@],
        ),
{
    lemma_configure_literals();
    let s = locate_packages_command(parent);
    let l0 = "\n                    set -e\n                    find '"@;
    let h = "\n                    set -e\n                    "@;
    let fd = "find '"@;
    let md = "' -maxdepth 1 -type f"@;
    let sp = " \\( "@;
    let deb = "-name '*.deb'"@;
    let rest = " -o -name '*.dsc' -o -name '*.changes' \\) | sort\n                    "@;
    assert(s =~= h + fd + parent + (md + (sp + deb + rest)));
    lemma_occurs_across(h, fd, parent, md, sp + deb + rest);
    let x = h + fd + parent + md + sp;
    assert(s =~= x + deb + rest);
    lemma_occurs_between(s, x, deb, rest);
    let ts = seq![fd + parent + md, deb];
    let pos = seq![h.len() as int, x.len() as int];
    assert forall|i: int| 0 <= i < ts.len() implies occurs_at(s, #[trigger] pos[i], ts[i]) by {}
    assert(occur_at_positions(s, ts, pos));
}

} // verus!

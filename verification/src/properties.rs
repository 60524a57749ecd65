//! Properties of whole builds: where a build writes, what it does first, and
//! how the prepare, toolchain and finalize stages go, step by step. Each
//! step of the build machine moves on as `run::step` says; the machine's own
//! laws (`run::lemma_step_within` among them) carry these over every step.

use vstd::prelude::*;

use crate::builder::KernelBuildConfigView;
use crate::commands::{missing_tool_message, tool_check_command};
use crate::infra::FileSystemError;
use crate::paths::{build_paths, paths_under_root, BuildPathsView};
use crate::program::{
    build_program, closing, finalize_work, lemma_program_bounds, lemma_stage_work_at, manifest_of,
    opening, prepare_work, required_tools, stage_block, stage_blocks, stage_blocks_work,
    stage_offset, stage_order, status_text, tool_check, toolchain_work, InstrView,
};
use crate::run::{
    accepts_event, action_of, advance, finished, initial_run, instr_path,
    lemma_command_failure_ends_build, lemma_file_failure_ends_build, lemma_spawn_failure_ends_build,
    lemma_success_moves_on, paths_within, run_wf, step, ActionView, BuildEvent, BuildRunView,
    RunPhase,
};
use crate::service::{BuildErrorView, BuildStage};
use crate::text::is_prefix;

verus! {

proof fn lemma_paths_within_concat(a: Seq<InstrView>, b: Seq<InstrView>, root: Seq<char>)
    requires
        paths_within(a, root),
        paths_within(b, root),
    ensures
        paths_within(a + b, root),
{
    assert forall|i: int| 0 <= i < (a + b).len() implies (#[trigger] instr_path((a + b)[i]) matches Some(
        q,
    ) ==> is_prefix(root, q)) by {
        if i < a.len() {
            assert((a + b)[i] == a[i]);
            assert(instr_path(a[i]) == instr_path((a + b)[i]));
        } else {
            assert((a + b)[i] == b[i - a.len()]);
            assert(instr_path(b[i - a.len()]) == instr_path((a + b)[i]));
        }
    }
}

proof fn lemma_block_within(stage: BuildStage, work: Seq<InstrView>, root: Seq<char>)
    requires
        paths_within(work, root),
    ensures
        paths_within(stage_block(stage, work), root),
{
    let head = seq![InstrView::CheckCancel, InstrView::Emit(stage.label_text())];
    let tail = seq![InstrView::Pause];
    assert(paths_within(head, root)) by {
        assert forall|i: int| 0 <= i < head.len() implies (#[trigger] instr_path(head[i]) matches Some(
            q,
        ) ==> is_prefix(root, q)) by {
            assert(instr_path(head[i]) is None);
        }
    }
    assert(paths_within(tail, root)) by {
        assert forall|i: int| 0 <= i < tail.len() implies (#[trigger] instr_path(tail[i]) matches Some(
            q,
        ) ==> is_prefix(root, q)) by {
            assert(instr_path(tail[i]) is None);
        }
    }
    lemma_paths_within_concat(head, work, root);
    lemma_paths_within_concat(head + work, tail, root);
}

proof fn lemma_prefix_refl(s: Seq<char>)
    ensures
        is_prefix(s, s),
{
    assert(s.subrange(0, s.len() as int) =~= s);
}

/// Every file and directory a build program creates or writes lies under
/// the work directory, when the layout does.
pub proof fn lemma_program_within_root(c: KernelBuildConfigView, p: BuildPathsView)
    requires
        paths_under_root(p),
    ensures
        paths_within(build_program(c, p), p.root),
{
    let root = p.root;
    lemma_prefix_refl(root);
    let w = stage_blocks_work(c, p);
    let b = stage_blocks(c, p);
    assert forall|k: int| 0 <= k < 7 implies paths_within(#[trigger] w[k], root) by {
        assert forall|i: int| 0 <= i < w[k].len() implies (#[trigger] instr_path(w[k][i]) matches Some(
            q,
        ) ==> is_prefix(root, q)) by {
            if k == 1 {
                assert(w[k] == toolchain_work());
                assert(w[k][i] == tool_check(required_tools()[i]));
            }
        }
    }
    assert forall|k: int| 0 <= k < 7 implies paths_within(#[trigger] b[k], root) by {
        assert(b[k] == stage_block(stage_order()[k], w[k]));
        lemma_block_within(stage_order()[k], w[k], root);
    }
    let o = opening(c, p);
    let cl = closing(p);
    assert(paths_within(o, root)) by {
        assert forall|i: int| 0 <= i < o.len() implies (#[trigger] instr_path(o[i]) matches Some(
            q,
        ) ==> is_prefix(root, q)) by {}
    }
    assert(paths_within(cl, root)) by {
        assert forall|i: int| 0 <= i < cl.len() implies (#[trigger] instr_path(cl[i]) matches Some(
            q,
        ) ==> is_prefix(root, q)) by {}
    }
    assert(b[0] == stage_blocks(c, p)[0]);
    lemma_paths_within_concat(o, b[0], root);
    lemma_paths_within_concat(o + b[0], b[1], root);
    lemma_paths_within_concat(o + b[0] + b[1], b[2], root);
    lemma_paths_within_concat(o + b[0] + b[1] + b[2], b[3], root);
    lemma_paths_within_concat(o + b[0] + b[1] + b[2] + b[3], b[4], root);
    lemma_paths_within_concat(o + b[0] + b[1] + b[2] + b[3] + b[4], b[5], root);
    lemma_paths_within_concat(o + b[0] + b[1] + b[2] + b[3] + b[4] + b[5], b[6], root);
    lemma_paths_within_concat(o + b[0] + b[1] + b[2] + b[3] + b[4] + b[5] + b[6], cl, root);
}

/// A build begins by creating its work directory; once that succeeds it
/// writes the manifest, before it emits anything, asks whether to stop or
/// runs any command; if it fails, the build ends with that failure.
pub proof fn lemma_build_opening(c: KernelBuildConfigView, root: Seq<char>, err: FileSystemError)
    ensures
        ({
            let p = build_paths(root, c);
            let (r0, a0) = advance(initial_run(build_program(c, p)), 0);
            &&& a0 == ActionView::CreateDir(root)
            &&& r0.phase == RunPhase::Running
            &&& r0.pc == 0
            &&& run_wf(r0)
            &&& accepts_event(r0, BuildEvent::FileSystemResult(Ok(())))
            &&& step(r0, BuildEvent::FileSystemResult(Ok(()))).0.phase == RunPhase::Running
            &&& step(r0, BuildEvent::FileSystemResult(Ok(()))).0.pc == 1
            &&& step(r0, BuildEvent::FileSystemResult(Ok(()))).1 == ActionView::WriteFile(
                p.manifest_path,
                manifest_of(c, p),
            )
            &&& step(r0, BuildEvent::FileSystemResult(Err(err))).1 == ActionView::Finish(
                Err(BuildErrorView::Filesystem(err)),
            )
        }),
{
    let p = build_paths(root, c);
    lemma_program_bounds(c, p);
    let prog = build_program(c, p);
    let (r0, a0) = advance(initial_run(prog), 0);
    assert(prog.len() > 2);
    lemma_success_moves_on(r0, BuildEvent::FileSystemResult(Ok(())));
}

/// The prepare stage creates the bundle directory, the package root and the
/// source directory, in that order: at its `j`-th step the build creates
/// the `j`-th of them; a failure ends the build with that failure; a success
/// moves on to the next directory, or to the stage's closing pause.
pub proof fn lemma_prepare_stage(
    c: KernelBuildConfigView,
    p: BuildPathsView,
    r: BuildRunView,
    j: int,
    err: FileSystemError,
)
    requires
        r.program == build_program(c, p),
        run_wf(r),
        r.phase == RunPhase::Running,
        0 <= j < 3,
        r.pc == stage_offset(c, p, 0) + 2 + j,
    ensures
        ({
            let dirs = seq![p.bundle_dir, p.package_root, p.source_dir];
            let ok = BuildEvent::FileSystemResult(Ok(()));
            let bad = BuildEvent::FileSystemResult(Err(err));
            &&& r.program[r.pc] == InstrView::CreateDir(dirs[j])
            &&& action_of(r.program[r.pc], r) == ActionView::CreateDir(dirs[j])
            &&& step(r, bad) == (finished(r), ActionView::Finish(Err(BuildErrorView::Filesystem(err))))
            &&& step(r, ok).0.phase == RunPhase::Running
            &&& step(r, ok).0.pc == r.pc + 1
            &&& step(r, ok).1 == if j + 1 < 3 {
                ActionView::CreateDir(dirs[j + 1])
            } else {
                ActionView::Pause
            }
        }),
{
    lemma_stage_work_at(c, p, 0, j);
    assert(stage_blocks_work(c, p)[0] == prepare_work(p));
    lemma_file_failure_ends_build(r, err);
    lemma_success_moves_on(r, BuildEvent::FileSystemResult(Ok(())));
}

/// The toolchain stage checks the nine required tools, one after another in
/// the order of [`required_tools`]: at its `j`-th step the build runs the
/// check of the `j`-th tool. A check that cannot start ends the build with
/// that failure; a tool that is missing ends it with `Required tool not
/// found: <tool>`; a tool that is there moves the build on to the next
/// check, or to the stage's closing pause after the last. The stage touches
/// no file.
pub proof fn lemma_toolchain_stage(
    c: KernelBuildConfigView,
    p: BuildPathsView,
    r: BuildRunView,
    j: int,
    e: BuildEvent,
)
    requires
        r.program == build_program(c, p),
        run_wf(r),
        r.phase == RunPhase::Running,
        0 <= j < 9,
        r.pc == stage_offset(c, p, 1) + 2 + j,
        accepts_event(r, e),
    ensures
        ({
            let tools = required_tools();
            &&& r.program[r.pc] == tool_check(tools[j])
            &&& action_of(r.program[r.pc], r) == ActionView::RunShell(tool_check_command(tools[j]))
            &&& e is ShellResult
            &&& e matches BuildEvent::ShellResult(Err(err)) ==> step(r, e) == (
                finished(r),
                ActionView::Finish(Err(BuildErrorView::Process(err))),
            )
            &&& e matches BuildEvent::ShellResult(Ok(out)) ==> (!out.success ==> step(r, e) == (
                finished(r),
                ActionView::Finish(
                    Err(BuildErrorView::CommandFailed(missing_tool_message(tools[j]))),
                ),
            ))
            &&& e matches BuildEvent::ShellResult(Ok(out)) ==> (out.success ==> {
                &&& step(r, e).0.phase == RunPhase::Running
                &&& step(r, e).0.pc == r.pc + 1
                &&& step(r, e).1 == if j + 1 < 9 {
                    ActionView::RunShell(tool_check_command(tools[j + 1]))
                } else {
                    ActionView::Pause
                }
            })
        }),
        forall|i: int| 0 <= i < 9 ==> instr_path(#[trigger] toolchain_work()[i]) is None,
{
    lemma_stage_work_at(c, p, 1, j);
    assert(stage_blocks_work(c, p)[1] == toolchain_work());
    assert(toolchain_work()[j] == tool_check(required_tools()[j]));
    if j + 1 < 9 {
        assert(toolchain_work()[j + 1] == tool_check(required_tools()[j + 1]));
    }
    assert forall|i: int| 0 <= i < 9 implies instr_path(#[trigger] toolchain_work()[i]) is None by {
        assert(toolchain_work()[i] == tool_check(required_tools()[i]));
    }
    match e {
        BuildEvent::ShellResult(Ok(out)) => {
            if out.success {
                lemma_success_moves_on(r, e);
            } else {
                lemma_command_failure_ends_build(r, out);
            }
        },
        BuildEvent::ShellResult(Err(err)) => {
            lemma_spawn_failure_ends_build(r, err);
        },
        _ => {},
    }
}

/// The finalize stage does exactly one thing: it writes the status file. A
/// failure of that write ends the build with it; a success moves on to the
/// stage's closing pause.
pub proof fn lemma_finalize_stage(
    c: KernelBuildConfigView,
    p: BuildPathsView,
    r: BuildRunView,
    err: FileSystemError,
)
    requires
        r.program == build_program(c, p),
        run_wf(r),
        r.phase == RunPhase::Running,
        r.pc == stage_offset(c, p, 6) + 2,
    ensures
        stage_blocks(c, p)[6] == seq![
            InstrView::CheckCancel,
            InstrView::Emit(BuildStage::Finalize.label_text()),
            InstrView::WriteFile(p.status_path, status_text()),
            InstrView::Pause,
        ],
        r.program[r.pc] == InstrView::WriteFile(p.status_path, status_text()),
        action_of(r.program[r.pc], r) == ActionView::WriteFile(p.status_path, status_text()),
        step(r, BuildEvent::FileSystemResult(Err(err))) == (
            finished(r),
            ActionView::Finish(Err(BuildErrorView::Filesystem(err))),
        ),
        step(r, BuildEvent::FileSystemResult(Ok(()))).0.phase == RunPhase::Running,
        step(r, BuildEvent::FileSystemResult(Ok(()))).0.pc == r.pc + 1,
        step(r, BuildEvent::FileSystemResult(Ok(()))).1 == ActionView::Pause,
{
    lemma_stage_work_at(c, p, 6, 0);
    assert(stage_blocks_work(c, p)[6] == finalize_work(p));
    assert(stage_blocks(c, p)[6] =~= seq![
        InstrView::CheckCancel,
        InstrView::Emit(BuildStage::Finalize.label_text()),
        InstrView::WriteFile(p.status_path, status_text()),
        InstrView::Pause,
    ]);
    lemma_file_failure_ends_build(r, err);
    lemma_success_moves_on(r, BuildEvent::FileSystemResult(Ok(())));
}

} // verus!

//! Answers never rewrite the past: what a build learns from a step changes
//! only the steps that come after it.

use crate::arch::{ArchView, Target, SCRATCH};
use crate::facts::FactsView;
use crate::libc_test::KEPT_TEST;
use crate::pipeline::{Goal, PipelineView};
use crate::step::{OutcomeView, StepView};
use crate::text::Text;
use vstd::prelude::*;

verus! {

/// No compilation of a test asks anything.
pub proof fn compilations_ask_nothing(arch: ArchView, names: Seq<Text>)
    ensures
        forall|j: int|
            0 <= j < arch.compile_all(names).len() ==> (#[trigger] arch.compile_all(names)[j])
                is Run,
    decreases names.len(),
{
    if names.len() > 0 {
        compilations_ask_nothing(arch, names.drop_last());
        let all = arch.compile_all(names);
        let head = arch.compile_all(names.drop_last());
        assert forall|j: int| 0 <= j < all.len() implies (#[trigger] all[j]) is Run by {
            if j < head.len() {
                assert(all[j] == head[j]);
            }
        }
    }
}

/// Two lists of steps agree up to and including position `at`.
pub open spec fn same_up_to(before: Seq<StepView>, after: Seq<StepView>, at: int) -> bool {
    &&& 0 <= at < before.len()
    &&& at < after.len()
    &&& after.take(at + 1) == before.take(at + 1)
}

proof fn same_on_the_left(
    a: Seq<StepView>,
    b: Seq<StepView>,
    a2: Seq<StepView>,
    b2: Seq<StepView>,
    at: int,
)
    requires
        same_up_to(a, a2, at),
    ensures
        same_up_to(a + b, a2 + b2, at),
{
    assert((a + b).take(at + 1) =~= a.take(at + 1));
    assert((a2 + b2).take(at + 1) =~= a2.take(at + 1));
}

proof fn same_on_the_right(a: Seq<StepView>, b: Seq<StepView>, b2: Seq<StepView>, at: int)
    requires
        same_up_to(b, b2, at - a.len()),
    ensures
        same_up_to(a + b, a + b2, at),
{
    assert((a + b).take(at + 1) =~= a + b.take(at - a.len() + 1));
    assert((a + b2).take(at + 1) =~= a + b2.take(at - a.len() + 1));
}

/// What an answer has changed is at most the base archive's being cached
/// and the names of the test sources.
spec fn only_build_facts_differ(facts: FactsView, learnt: FactsView) -> bool {
    learnt == (FactsView {
        archive_cached: learnt.archive_cached,
        sources: learnt.sources,
        ..facts
    })
}

proof fn fetch_keeps_the_past(arch: ArchView, facts: FactsView, at: int, outcome: OutcomeView)
    requires
        0 <= at < arch.fetch_archive(facts).len(),
        arch.fetch_archive(facts)[at].accepts(outcome),
    ensures
        same_up_to(
            arch.fetch_archive(facts),
            arch.fetch_archive(facts.learn(arch.fetch_archive(facts)[at], outcome)),
            at,
        ),
        facts.learn(arch.fetch_archive(facts)[at], outcome) == (FactsView {
            archive_cached: facts.learn(arch.fetch_archive(facts)[at], outcome).archive_cached,
            ..facts
        }),
{
    let before = arch.fetch_archive(facts);
    let learnt = facts.learn(before[at], outcome);
    let after = arch.fetch_archive(learnt);
    if at == 0 {
        assert(after.take(1) =~= before.take(1));
    } else {
        assert(learnt == facts);
    }
}

proof fn patch_keeps_the_past(arch: ArchView, facts: FactsView, at: int, outcome: OutcomeView)
    requires
        0 <= at < arch.patch(facts).len(),
        arch.patch(facts)[at].accepts(outcome),
    ensures
        same_up_to(
            arch.patch(facts),
            arch.patch(facts.learn(arch.patch(facts)[at], outcome)),
            at,
        ),
        facts.learn(arch.patch(facts)[at], outcome) == (FactsView {
            sources: facts.learn(arch.patch(facts)[at], outcome).sources,
            ..facts
        }),
{
    let before = arch.patch(facts);
    let learnt = facts.learn(before[at], outcome);
    let after = arch.patch(learnt);
    compilations_ask_nothing(arch, facts.sources);
    match arch.target {
        Target::Riscv64 => {
            assert(learnt == facts);
        },
        Target::X86_64 => {
            if at == 1 {
                assert(after.take(2) =~= before.take(2));
            } else {
                if at >= 2 {
                    assert(before[at] == arch.compile_all(facts.sources)[at - 2]);
                }
                assert(learnt == facts);
            }
        },
    }
}

proof fn rebuild_keeps_the_past(arch: ArchView, facts: FactsView, at: int, outcome: OutcomeView)
    requires
        0 <= at < arch.rebuild(facts).len(),
        arch.rebuild(facts)[at].accepts(outcome),
    ensures
        same_up_to(
            arch.rebuild(facts),
            arch.rebuild(facts.learn(arch.rebuild(facts)[at], outcome)),
            at,
        ),
        only_build_facts_differ(facts, facts.learn(arch.rebuild(facts)[at], outcome)),
{
    let clear = seq![StepView::ClearDir { path: arch.rootfs_dir() }];
    let unpack = seq![arch.unpack_into(arch.rootfs_dir(), arch.strip_components())];
    let fetch = arch.fetch_archive(facts);
    let before = arch.rebuild(facts);
    let step = before[at];
    let learnt = facts.learn(step, outcome);
    if at == 0 {
        assert(learnt == facts);
    } else if at < 1 + fetch.len() {
        assert(step == fetch[at - 1]);
        fetch_keeps_the_past(arch, facts, at - 1, outcome);
        same_on_the_right(clear, fetch, arch.fetch_archive(learnt), at);
        same_on_the_left(
            clear + fetch,
            unpack,
            clear + arch.fetch_archive(learnt),
            unpack,
            at,
        );
        same_on_the_left(
            clear + fetch + unpack,
            arch.patch(facts),
            clear + arch.fetch_archive(learnt) + unpack,
            arch.patch(learnt),
            at,
        );
    } else if at == 1 + fetch.len() {
        assert(learnt == facts);
    } else {
        let front = clear + fetch + unpack;
        assert(step == arch.patch(facts)[at - front.len()]);
        patch_keeps_the_past(arch, facts, at - front.len(), outcome);
        assert(arch.fetch_archive(learnt) == fetch);
        same_on_the_right(front, arch.patch(facts), arch.patch(learnt), at);
    }
}

proof fn rootfs_keeps_the_past(
    arch: ArchView,
    clear: bool,
    facts: FactsView,
    at: int,
    outcome: OutcomeView,
)
    requires
        0 <= at < arch.rootfs(clear, facts).len(),
        arch.rootfs(clear, facts)[at].accepts(outcome),
    ensures
        same_up_to(
            arch.rootfs(clear, facts),
            arch.rootfs(clear, facts.learn(arch.rootfs(clear, facts)[at], outcome)),
            at,
        ),
        facts.learn(arch.rootfs(clear, facts)[at], outcome) == (FactsView {
            rootfs_present: facts.learn(arch.rootfs(clear, facts)[at], outcome).rootfs_present,
            archive_cached: facts.learn(arch.rootfs(clear, facts)[at], outcome).archive_cached,
            sources: facts.learn(arch.rootfs(clear, facts)[at], outcome).sources,
            ..facts
        }),
        at > 0 ==> facts.learn(arch.rootfs(clear, facts)[at], outcome).rootfs_present
            == facts.rootfs_present,
{
    let ask = seq![StepView::ProbeDir { path: arch.rootfs_dir() }];
    let before = arch.rootfs(clear, facts);
    let step = before[at];
    let learnt = facts.learn(step, outcome);
    let after = arch.rootfs(clear, learnt);
    if at == 0 {
        assert(after.take(1) =~= before.take(1));
    } else {
        assert(step == arch.rebuild(facts)[at - 1]);
        rebuild_keeps_the_past(arch, facts, at - 1, outcome);
        same_on_the_right(ask, arch.rebuild(facts), arch.rebuild(learnt), at);
    }
}

proof fn provision_keeps_the_past(facts: FactsView, at: int, outcome: OutcomeView)
    requires
        0 <= at < facts.provision().len(),
        facts.provision()[at].accepts(outcome),
    ensures
        same_up_to(
            facts.provision(),
            facts.learn(facts.provision()[at], outcome).provision(),
            at,
        ),
        facts.learn(facts.provision()[at], outcome) == (FactsView {
            toolchain_cached: facts.learn(facts.provision()[at], outcome).toolchain_cached,
            search_path: facts.learn(facts.provision()[at], outcome).search_path,
            current_dir: facts.learn(facts.provision()[at], outcome).current_dir,
            ..facts
        }),
{
    let before = facts.provision();
    let learnt = facts.learn(before[at], outcome);
    let after = learnt.provision();
    if at == 0 {
        assert(after.take(1) =~= before.take(1));
    } else if at == before.len() - 1 {
        assert(learnt.toolchain_cached == facts.toolchain_cached);
        assert(after =~= before);
    } else {
        assert(learnt == facts);
    }
}

proof fn integrate_keeps_the_past(
    arch: ArchView,
    facts: FactsView,
    at: int,
    outcome: OutcomeView,
)
    requires
        0 <= at < arch.integrate(facts).len(),
        arch.integrate(facts)[at].accepts(outcome),
    ensures
        same_up_to(
            arch.integrate(facts),
            arch.integrate(facts.learn(arch.integrate(facts)[at], outcome)),
            at,
        ),
        facts.learn(arch.integrate(facts)[at], outcome) == (FactsView {
            toolchain_cached: facts.learn(arch.integrate(facts)[at], outcome).toolchain_cached,
            search_path: facts.learn(arch.integrate(facts)[at], outcome).search_path,
            current_dir: facts.learn(arch.integrate(facts)[at], outcome).current_dir,
            ..facts
        }),
{
    let before = arch.integrate(facts);
    let step = before[at];
    let learnt = facts.learn(step, outcome);
    match arch.target {
        Target::X86_64 => {
            assert(learnt == facts);
        },
        Target::Riscv64 => {
            let front = seq![StepView::Rename { from: arch.test_dir(), to: arch.test_backup() }]
                + arch.copy_suite();
            let tools = facts.provision();
            if at < 3 {
                assert(learnt == facts);
            } else if at < 3 + tools.len() {
                assert(step == tools[at - 3]);
                provision_keeps_the_past(facts, at - 3, outcome);
                same_on_the_right(front, tools, learnt.provision(), at);
                let rest = seq![
                    arch.cross_make(facts),
                    StepView::CopyFile {
                        from: arch.test_backup() + KEPT_TEST@,
                        to: arch.test_dir() + "/src"@ + KEPT_TEST@,
                    },
                    StepView::RemoveDir { path: arch.test_backup() },
                ];
                let rest2 = seq![
                    arch.cross_make(learnt),
                    StepView::CopyFile {
                        from: arch.test_backup() + KEPT_TEST@,
                        to: arch.test_dir() + "/src"@ + KEPT_TEST@,
                    },
                    StepView::RemoveDir { path: arch.test_backup() },
                ];
                same_on_the_left(front + tools, rest, front + learnt.provision(), rest2, at);
            } else {
                assert(learnt == facts);
            }
        },
    }
}

proof fn assemble_keeps_the_past(
    arch: ArchView,
    facts: FactsView,
    at: int,
    outcome: OutcomeView,
)
    requires
        0 <= at < arch.assemble(facts).len(),
        arch.assemble(facts)[at].accepts(outcome),
    ensures
        same_up_to(
            arch.assemble(facts),
            arch.assemble(facts.learn(arch.assemble(facts)[at], outcome)),
            at,
        ),
        facts.learn(arch.assemble(facts)[at], outcome) == (FactsView {
            archive_cached: facts.learn(arch.assemble(facts)[at], outcome).archive_cached,
            ..facts
        }),
        !facts.rootfs_present ==> facts.learn(arch.assemble(facts)[at], outcome) == facts,
{
    let before = arch.assemble(facts);
    let step = before[at];
    let learnt = facts.learn(step, outcome);
    match arch.target {
        Target::Riscv64 => {
            assert(learnt == facts);
        },
        Target::X86_64 => {
            if facts.rootfs_present && at < arch.fetch_archive(facts).len() {
                let fetch = arch.fetch_archive(facts);
                assert(step == fetch[at]);
                fetch_keeps_the_past(arch, facts, at, outcome);
                let rest = seq![
                    StepView::ClearDir { path: SCRATCH@ },
                    arch.unpack_into(SCRATCH@, 0),
                    StepView::CopyFile { from: arch.stock_linker(), to: arch.linker_file() },
                    arch.pack(),
                    arch.install_shim(),
                    arch.resize(),
                    StepView::RemoveDir { path: SCRATCH@ },
                ];
                same_on_the_left(fetch, rest, arch.fetch_archive(learnt), rest, at);
            } else {
                assert(learnt == facts);
            }
        },
    }
}

/// An answer never rewrites the past: when the step at `at` has ended well
/// and its answer is taken in, the steps up to and including it are what
/// they were, and only what comes after may have changed.
pub proof fn answers_keep_the_past(
    arch: ArchView,
    goal: Goal,
    facts: FactsView,
    at: int,
    outcome: OutcomeView,
)
    requires
        0 <= at < arch.script(goal, facts).len(),
        arch.script(goal, facts)[at].accepts(outcome),
    ensures
        same_up_to(
            arch.script(goal, facts),
            arch.script(goal, facts.learn(arch.script(goal, facts)[at], outcome)),
            at,
        ),
{
    let before = arch.script(goal, facts);
    let step = before[at];
    let learnt = facts.learn(step, outcome);
    match goal {
        Goal::Rootfs { clear } => {
            rootfs_keeps_the_past(arch, clear, facts, at, outcome);
        },
        Goal::LibcTest => {
            let root = arch.rootfs(false, facts);
            let suite = seq![ArchView::clone_suite()];
            if at < root.len() {
                assert(step == root[at]);
                rootfs_keeps_the_past(arch, false, facts, at, outcome);
                same_on_the_left(root, suite, arch.rootfs(false, learnt), suite, at);
                same_on_the_left(
                    root + suite,
                    arch.integrate(facts),
                    arch.rootfs(false, learnt) + suite,
                    arch.integrate(learnt),
                    at,
                );
            } else if at == root.len() {
                assert(learnt == facts);
            } else {
                let front = root + suite;
                assert(step == arch.integrate(facts)[at - front.len()]);
                integrate_keeps_the_past(arch, facts, at - front.len(), outcome);
                assert(arch.rootfs(false, learnt) == root);
                same_on_the_right(front, arch.integrate(facts), arch.integrate(learnt), at);
            }
        },
        Goal::Image => {
            let root = arch.rootfs(false, facts);
            if at < root.len() {
                assert(step == root[at]);
                rootfs_keeps_the_past(arch, false, facts, at, outcome);
                same_on_the_left(
                    root,
                    arch.assemble(facts),
                    arch.rootfs(false, learnt),
                    arch.assemble(learnt),
                    at,
                );
            } else {
                assert(step == arch.assemble(facts)[at - root.len()]);
                assemble_keeps_the_past(arch, facts, at - root.len(), outcome);
                assert(arch.rootfs(false, learnt) == root);
                same_on_the_right(root, arch.assemble(facts), arch.assemble(learnt), at);
            }
        },
    }
}

/// A build never runs ahead of its script: the steps counted as done are
/// steps of the script, before and after every report, and those done are
/// not changed by what the report teaches.
pub proof fn progress_stays_in_the_script(build: PipelineView, outcome: OutcomeView)
    requires
        build.done <= build.script().len(),
    ensures
        build.after(outcome).done <= build.after(outcome).script().len(),
        build.after(outcome).script().take(build.done as int) == build.script().take(
            build.done as int,
        ),
        build.after(outcome).done == build.done + 1 ==> build.after(outcome).script()[build.done as int]
            == build.script()[build.done as int],
{
    if build.failure is None && build.done < build.script().len() {
        let step = build.script()[build.done as int];
        if step.accepts(outcome) {
            answers_keep_the_past(build.arch, build.goal, build.facts, build.done as int, outcome);
            let before = build.script();
            let after = build.after(outcome).script();
            let at = build.done as int;
            assert(after.take(at) =~= after.take(at + 1).take(at));
            assert(before.take(at) =~= before.take(at + 1).take(at));
            assert(after[at] == after.take(at + 1)[at]);
            assert(before[at] == before.take(at + 1)[at]);
        }
    }
}

/// From its beginning a build stays inside its script, whatever is
/// reported to it.
pub proof fn every_build_stays_in_its_script(
    arch: ArchView,
    goal: Goal,
    outcomes: Seq<OutcomeView>,
)
    ensures
        PipelineView::start(arch, goal).run(outcomes).done <= PipelineView::start(arch, goal).run(
            outcomes,
        ).script().len(),
    decreases outcomes.len(),
{
    if outcomes.len() > 0 {
        every_build_stays_in_its_script(arch, goal, outcomes.drop_last());
        progress_stays_in_the_script(
            PipelineView::start(arch, goal).run(outcomes.drop_last()),
            outcomes.last(),
        );
    }
}

} // verus!

//! What holds of every build, whatever the surroundings.

use crate::arch::{ArchView, Target, SCRATCH, SHIM, TEST_SOURCES};
use crate::facts::FactsView;
use crate::fetch::PARTIAL;
use crate::pipeline::{ActionView, Goal, PipelineView};
use crate::stability::compilations_ask_nothing;
use crate::step::{status_text, FailureView, OutcomeView, StepView};
use crate::text::{is_c_source, stem, Text};
use crate::tool::ToolCallView;
use vstd::prelude::*;

verus! {

/// A root filesystem that is there is left alone: unless a rebuild is
/// forced, the build asks whether the directory exists and does nothing
/// else. It changes nothing on disk and starts no program.
pub proof fn cached_rootfs_is_left_alone(arch: ArchView, facts: FactsView)
    requires
        facts.rootfs_present,
    ensures
        arch.rootfs(false, facts) == seq![StepView::ProbeDir { path: arch.rootfs_dir() }],
        forall|i: int|
            0 <= i < arch.rootfs(false, facts).len() ==> (#[trigger] arch.rootfs(
                false,
                facts,
            )[i]).is_observation(),
        forall|i: int|
            0 <= i < arch.rootfs(false, facts).len() ==> (#[trigger] arch.rootfs(
                false,
                facts,
            )[i]).command() is None,
{
    assert(arch.rootfs(false, facts) =~= seq![StepView::ProbeDir { path: arch.rootfs_dir() }]);
}

/// A second build of a root filesystem that the first one found or made
/// ends at once: told that the directory is there, the pipeline is finished
/// after its one question.
pub proof fn second_build_ends_at_once(arch: ArchView)
    ensures
        PipelineView::start(arch, Goal::Rootfs { clear: false }).pending() == (ActionView::Perform {
            step: StepView::ProbeDir { path: arch.rootfs_dir() },
        }),
        PipelineView::start(arch, Goal::Rootfs { clear: false }).after(
            OutcomeView::Present { yes: true },
        ).pending() == ActionView::Finished,
{
    let begun = PipelineView::start(arch, Goal::Rootfs { clear: false });
    let script = begun.script();
    assert(script[0] == StepView::ProbeDir { path: arch.rootfs_dir() });
    let told = begun.after(OutcomeView::Present { yes: true });
    assert(told.facts.rootfs_present);
    assert(told.script() =~= seq![StepView::ProbeDir { path: arch.rootfs_dir() }]);
}

/// A root filesystem that is missing is built from nothing, and the build
/// begins by leaving an empty directory in its place.
pub proof fn missing_rootfs_is_built(arch: ArchView, clear: bool, facts: FactsView)
    requires
        !facts.rootfs_present,
    ensures
        arch.rootfs(clear, facts) == seq![StepView::ProbeDir { path: arch.rootfs_dir() }]
            + arch.rebuild(facts),
        arch.rootfs(clear, facts)[1] == (StepView::ClearDir { path: arch.rootfs_dir() }),
{
}

/// A root filesystem that has been built is found by the next build: the
/// build leaves an empty directory in its place first, and nothing after
/// that clears or removes a directory; the one thing that is moved is the
/// download of the base archive, into its cache.
pub proof fn built_rootfs_stays(arch: ArchView, facts: FactsView)
    ensures
        arch.rebuild(facts)[0] == (StepView::ClearDir { path: arch.rootfs_dir() }),
        forall|j: int|
            1 <= j < arch.rebuild(facts).len() ==> {
                let step = #[trigger] arch.rebuild(facts)[j];
                &&& !(step is ClearDir)
                &&& !(step is RemoveDir)
                &&& step is Rename ==> step == (StepView::Rename {
                    from: arch.archive_path() + PARTIAL@,
                    to: arch.archive_path(),
                })
            },
{
    let steps = arch.rebuild(facts);
    let fetched = arch.fetch_archive(facts);
    compilations_ask_nothing(arch, facts.sources);
    assert forall|j: int| 1 <= j < steps.len() implies {
        let step = #[trigger] steps[j];
        &&& !(step is ClearDir)
        &&& !(step is RemoveDir)
        &&& step is Rename ==> step == (StepView::Rename {
            from: arch.archive_path() + PARTIAL@,
            to: arch.archive_path(),
        })
    } by {
        if j < 1 + fetched.len() {
            assert(steps[j] == fetched[j - 1]);
        } else if j > 1 + fetched.len() {
            let patch = arch.patch(facts);
            assert(steps[j] == patch[j - 2 - fetched.len()]);
            if arch.target == Target::X86_64 && j - 2 - fetched.len() >= 2 {
                assert(patch[j - 2 - fetched.len()] == arch.compile_all(facts.sources)[j - 4
                    - fetched.len()]);
            }
        }
    }
}

/// A forced rebuild does not look at what is there: after its one question
/// it clears the directory and builds from nothing, whether or not the
/// directory was found.
pub proof fn forced_rebuild_is_complete(arch: ArchView, facts: FactsView)
    ensures
        arch.rootfs(true, facts) == seq![StepView::ProbeDir { path: arch.rootfs_dir() }]
            + arch.rebuild(facts),
        arch.rootfs(true, facts)[1] == (StepView::ClearDir { path: arch.rootfs_dir() }),
        arch.rootfs(true, facts) == arch.rootfs(
            true,
            FactsView { rootfs_present: !facts.rootfs_present, ..facts },
        ),
        arch.rootfs(true, facts) == arch.rootfs(
            false,
            FactsView { rootfs_present: false, ..facts },
        ),
{
    let other = FactsView { rootfs_present: !facts.rootfs_present, ..facts };
    assert(arch.rebuild(other) == arch.rebuild(facts));
    let absent = FactsView { rootfs_present: false, ..facts };
    assert(arch.rebuild(absent) == arch.rebuild(facts));
}

/// Every step that compiling the test sources takes is the compilation of a
/// C source among the names, and there is one for each of them.
pub proof fn compile_all_compiles_c_sources(arch: ArchView, names: Seq<Text>)
    ensures
        forall|j: int|
            0 <= j < arch.compile_all(names).len() ==> exists|i: int|
                0 <= i < names.len() && is_c_source(names[i]) && #[trigger] arch.compile_all(
                    names,
                )[j] == arch.compile(#[trigger] names[i]),
        forall|i: int|
            0 <= i < names.len() && is_c_source(#[trigger] names[i]) ==> arch.compile_all(
                names,
            ).contains(arch.compile(names[i])),
        arch.compile_all(names).len() <= names.len(),
    decreases names.len(),
{
    if names.len() > 0 {
        let head = names.drop_last();
        let all = arch.compile_all(names);
        compile_all_compiles_c_sources(arch, head);
        assert forall|j: int| 0 <= j < all.len() implies exists|i: int|
            0 <= i < names.len() && is_c_source(names[i]) && #[trigger] all[j] == arch.compile(
                #[trigger] names[i],
            ) by {
            if j < arch.compile_all(head).len() {
                let i = choose|i: int|
                    0 <= i < head.len() && is_c_source(head[i]) && #[trigger] arch.compile_all(
                        head,
                    )[j] == arch.compile(#[trigger] head[i]);
                assert(names[i] == head[i]);
            } else {
                assert(all[j] == arch.compile(names[names.len() - 1]));
            }
        }
        assert forall|i: int| 0 <= i < names.len() && is_c_source(
            #[trigger] names[i],
        ) implies all.contains(arch.compile(names[i])) by {
            if i < head.len() {
                assert(head[i] == names[i]);
                let j = choose|j: int|
                    0 <= j < arch.compile_all(head).len() && arch.compile_all(head)[j]
                        == arch.compile(head[i]);
                assert(all[j] == arch.compile(names[i]));
            } else {
                assert(all[all.len() - 1] == arch.compile(names[i]));
            }
        }
    }
}

/// A compiled test goes under `bin`, so it never lands on the dynamic
/// linker's file.
pub proof fn compiled_tests_spare_the_linker(arch: ArchView, name: Text)
    requires
        arch.target == Target::X86_64,
    ensures
        arch.compile(name)->call.args.len() == 4,
        arch.compile(name)->call.args[2] == arch.rootfs_dir() + "/bin/"@ + stem(name),
        arch.compile(name)->call.args[2] != arch.linker_file(),
{
    reveal_strlit("rootfs");
    reveal_strlit("/bin/");
    reveal_strlit("/lib/ld-musl-");
    let output = arch.rootfs_dir() + "/bin/"@ + stem(name);
    let linker = arch.linker_file();
    assert(output[7] == 'b');
    assert(linker[7] == 'l');
}

/// After a root filesystem build for x86_64 the dynamic linker is the shim:
/// the shim is copied over the linker's file once the base archive is
/// unpacked, and all that follows is the listing of the test sources and
/// the compilation of each C source among them.
pub proof fn x86_64_build_leaves_the_shim(arch: ArchView, facts: FactsView)
    requires
        arch.target == Target::X86_64,
    ensures
        ({
            let steps = arch.rebuild(facts);
            let at: int = (arch.fetch_archive(facts).len() + 2) as int;
            &&& at + 2 <= steps.len()
            &&& steps[at - 1] == arch.unpack_into(arch.rootfs_dir(), 0)
            &&& steps[at] == (StepView::CopyFile { from: SHIM@, to: arch.linker_file() })
            &&& steps[at + 1] == (StepView::ListDir { path: TEST_SOURCES@ })
            &&& forall|j: int|
                at + 1 < j < steps.len() ==> exists|i: int|
                    0 <= i < facts.sources.len() && is_c_source(facts.sources[i])
                        && #[trigger] steps[j] == arch.compile(#[trigger] facts.sources[i])
        }),
{
    let steps = arch.rebuild(facts);
    let at: int = (arch.fetch_archive(facts).len() + 2) as int;
    let tests = arch.compile_all(facts.sources);
    compile_all_compiles_c_sources(arch, facts.sources);
    assert forall|j: int| at + 1 < j < steps.len() implies exists|i: int|
        0 <= i < facts.sources.len() && is_c_source(facts.sources[i]) && #[trigger] steps[j]
            == arch.compile(#[trigger] facts.sources[i]) by {
        assert(steps[j] == tests[j - at - 2]);
    }
}

/// After a root filesystem build for riscv64 `ls` is a link to `busybox`:
/// making the link is the last step, right after the base archive is
/// unpacked with its top directory dropped.
pub proof fn riscv64_build_links_ls(arch: ArchView, facts: FactsView)
    requires
        arch.target == Target::Riscv64,
    ensures
        ({
            let steps = arch.rebuild(facts);
            &&& steps.len() >= 4
            &&& steps[steps.len() - 2] == arch.unpack_into(arch.rootfs_dir(), 1)
            &&& steps.last() == arch.link_ls()
            &&& arch.link_ls().command() == Some(
                ToolCallView {
                    program: "ln"@,
                    args: seq!["-s"@, "busybox"@, "riscv_rootfs/bin/ls"@],
                    envs: Seq::empty(),
                    dir: None,
                },
            )
        }),
{
    reveal_strlit("riscv_rootfs");
    reveal_strlit("/bin/ls");
    reveal_strlit("riscv_rootfs/bin/ls");
    assert("riscv_rootfs"@ + "/bin/ls"@ =~= "riscv_rootfs/bin/ls"@);
    assert(arch.link_ls()->call.args =~= seq!["-s"@, "busybox"@, "riscv_rootfs/bin/ls"@]);
}

/// An image is packed from the whole root filesystem directory into a file
/// of fixed capacity and grown by the fixed padding afterwards; nothing but
/// the return of the shim and the growing stands between the two.
pub proof fn image_is_packed_then_padded(arch: ArchView, facts: FactsView)
    ensures
        ({
            let steps = arch.assemble(facts);
            let pack = StepView::Pack {
                dir: arch.rootfs_dir(),
                image: arch.image_path(),
                capacity: 0x4000_0000,
            };
            let resize = StepView::Resize { image: arch.image_path(), padding: 5 };
            match arch.target {
                Target::Riscv64 => steps == seq![pack, resize],
                Target::X86_64 => {
                    &&& steps.len() >= 7
                    &&& steps[steps.len() - 4] == pack
                    &&& steps[steps.len() - 2] == resize
                },
            }
        }),
{
}

/// The x86_64 image holds the base system's own dynamic linker, and the
/// directory holds the shim again afterwards: the linker from the scratch
/// copy goes in right before packing, the shim right after.
pub proof fn x86_64_image_swaps_the_linker(arch: ArchView, facts: FactsView)
    requires
        arch.target == Target::X86_64,
    ensures
        ({
            let steps = arch.assemble(facts);
            let at: int = (steps.len() - 4) as int;
            &&& at >= 3
            &&& steps[at - 3] == (StepView::ClearDir { path: SCRATCH@ })
            &&& steps[at - 2] == arch.unpack_into(SCRATCH@, 0)
            &&& steps[at - 1] == (StepView::CopyFile {
                from: arch.stock_linker(),
                to: arch.linker_file(),
            })
            &&& steps[at] == arch.pack()
            &&& steps[at + 1] == (StepView::CopyFile { from: SHIM@, to: arch.linker_file() })
            &&& steps[at + 2] == arch.resize()
            &&& steps[at + 3] == (StepView::RemoveDir { path: SCRATCH@ })
        }),
{
}

/// A path that begins with another character than a directory's name does
/// not lie in that directory.
proof fn elsewhere(dir: Text, path: Text)
    requires
        dir.len() > 0,
        path.len() > 0,
        path[0] != dir[0],
    ensures
        !dir.is_prefix_of(path),
{
    if dir.is_prefix_of(path) {
        assert(path.subrange(0, dir.len() as int)[0] == path[0]);
    }
}

/// Making the image changes one file of the root filesystem and no other:
/// every step of it that changes anything in the root filesystem directory
/// is a copy onto the dynamic linker's file. Whatever else the directory
/// holds is packed as it is and is there afterwards.
pub proof fn image_changes_the_linker_only(arch: ArchView, facts: FactsView)
    ensures
        forall|j: int, k: int|
            0 <= j < arch.assemble(facts).len() && 0 <= k < arch.assemble(facts)[j].changed().len()
                && arch.rootfs_dir().is_prefix_of(#[trigger] arch.assemble(facts)[j].changed()[k])
                ==> arch.assemble(facts)[j] is CopyFile && arch.assemble(
                facts,
            )[j]->CopyFile_to == arch.linker_file(),
{
    reveal_strlit("rootfs");
    reveal_strlit("riscv_rootfs");
    reveal_strlit("/tmp/rootfs");
    reveal_strlit("prebuilt/linux/");
    reveal_strlit("zCore/");
    let dir = arch.rootfs_dir();
    let steps = arch.assemble(facts);
    assert(dir[0] == 'r');
    elsewhere(dir, SCRATCH@);
    elsewhere(dir, arch.image_path());
    elsewhere(dir, arch.archive_dir());
    elsewhere(dir, arch.archive_path());
    elsewhere(dir, arch.archive_path() + PARTIAL@);
    assert forall|j: int, k: int|
        0 <= j < steps.len() && 0 <= k < steps[j].changed().len() && dir.is_prefix_of(
            #[trigger] steps[j].changed()[k],
        ) implies steps[j] is CopyFile && steps[j]->CopyFile_to == arch.linker_file() by {
        match arch.target {
            Target::Riscv64 => {},
            Target::X86_64 => {
                if facts.rootfs_present {
                    let fetched = arch.fetch_archive(facts);
                    if j < fetched.len() {
                        assert(steps[j] == fetched[j]);
                    }
                }
            },
        }
    }
}

/// The step that ended a build badly is the one that was due, and it is
/// due no more.
pub proof fn the_failed_step_was_due(build: PipelineView, outcome: OutcomeView)
    requires
        build.pending() is Perform,
        !build.pending()->step.accepts(outcome),
    ensures
        build.after(outcome).failed_step() == Some(build.pending()->step),
{
}

/// A program that does not leave with status zero ends the build: the step
/// is not counted, nothing is learnt, and the failure is what is due. For a
/// plain run of a program the failure names the program, its arguments and
/// the status.
pub proof fn bad_exit_gives_up(build: PipelineView, status: Option<i32>)
    requires
        build.pending() is Perform,
        build.pending()->step.command() is Some,
        status != Some(0i32),
    ensures
        build.after(OutcomeView::Exit { status }).pending() is Abort,
        build.after(OutcomeView::Exit { status }).done == build.done,
        build.after(OutcomeView::Exit { status }).facts == build.facts,
        build.pending()->step matches StepView::Run { call } ==> build.after(
            OutcomeView::Exit { status },
        ).failure == Some(
            FailureView::ExternalTool { program: call.program, args: call.args, status },
        ),
        build.pending()->step is Extract ==> build.after(OutcomeView::Exit { status }).failure
            == Some(FailureView::Extraction),
        build.pending()->step is Resize ==> build.after(OutcomeView::Exit { status }).failure
            == Some(FailureView::ImagePack),
        build.after(OutcomeView::Exit { status }).status == status,
        build.after(OutcomeView::Exit { status }).failure_report() == Some(
            "FAILED: "@ + build.pending()->step.command()->0.command_line() + status_text(status),
        ),
{
}

/// A failure keeps the status that came with it, whatever kind of step it
/// ended: the user is told the kind, or the command line, and that status.
pub proof fn the_status_is_kept(build: PipelineView, outcome: OutcomeView)
    requires
        build.pending() is Perform,
        !build.pending()->step.accepts(outcome),
    ensures
        build.after(outcome).status == outcome.status(),
        build.after(outcome).failure_report() is Some,
        build.pending()->step.command() is None && outcome.status() is Some ==> build.after(
            outcome,
        ).failure_report() == Some(
            build.pending()->step.failure(outcome).message() + status_text(outcome.status()),
        ),
        build.pending()->step matches StepView::Run { call } ==> build.after(
            outcome,
        ).failure_report() == Some(build.pending()->step.failure(outcome).message()),
{
}

/// Any end of a step that is no good end of it ends the build, and the
/// failure is what is due from then on.
pub proof fn bad_end_gives_up(build: PipelineView, outcome: OutcomeView)
    requires
        build.pending() is Perform,
        !build.pending()->step.accepts(outcome),
    ensures
        build.after(outcome).pending() == (ActionView::Abort {
            failure: build.pending()->step.failure(outcome),
        }),
        build.after(outcome).done == build.done,
{
}

/// A build that has been given up stays so: whatever is reported to it, it
/// hands out no further step, counts none, and keeps its failure.
pub proof fn given_up_is_final(build: PipelineView, outcomes: Seq<OutcomeView>)
    requires
        build.failure is Some,
    ensures
        build.run(outcomes) == build,
        build.run(outcomes).pending() == (ActionView::Abort { failure: build.failure->0 }),
    decreases outcomes.len(),
{
    if outcomes.len() > 0 {
        given_up_is_final(build, outcomes.drop_last());
    }
}

/// A build that has reached its goal stays there: whatever is reported to
/// it, it hands out no further step and counts none.
pub proof fn finished_is_final(build: PipelineView, outcomes: Seq<OutcomeView>)
    requires
        build.pending() is Finished,
    ensures
        build.run(outcomes) == build,
    decreases outcomes.len(),
{
    if outcomes.len() > 0 {
        finished_is_final(build, outcomes.drop_last());
    }
}

/// Reports made one after another are taken in one after another.
pub proof fn run_in_two_parts(
    build: PipelineView,
    first: Seq<OutcomeView>,
    then: Seq<OutcomeView>,
)
    ensures
        build.run(first + then) == build.run(first).run(then),
    decreases then.len(),
{
    if then.len() == 0 {
        assert(first + then =~= first);
    } else {
        assert((first + then).drop_last() =~= first + then.drop_last());
        assert((first + then).last() == then.last());
        run_in_two_parts(build, first, then.drop_last());
    }
}

/// No step follows a failure: once a run of reports has ended in one,
/// nothing that is reported later moves the build on.
pub proof fn nothing_follows_a_failure(
    build: PipelineView,
    before: Seq<OutcomeView>,
    later: Seq<OutcomeView>,
)
    requires
        build.run(before).failure is Some,
    ensures
        build.run(before + later) == build.run(before),
        build.run(before + later).pending() is Abort,
        build.run(before + later).done == build.run(before).done,
{
    run_in_two_parts(build, before, later);
    given_up_is_final(build.run(before), later);
}

/// A run of reports never counts more steps than it has reports.
pub proof fn one_step_per_report(build: PipelineView, outcomes: Seq<OutcomeView>)
    ensures
        build.done <= build.run(outcomes).done <= build.done + outcomes.len(),
    decreases outcomes.len(),
{
    if outcomes.len() > 0 {
        one_step_per_report(build, outcomes.drop_last());
    }
}

} // verus!

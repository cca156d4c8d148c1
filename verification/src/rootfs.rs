//! Building the root filesystem: reuse it, or clear, fetch, unpack and patch.

use crate::arch::{Arch, ArchView, Target, SHIM, TEST_SOURCES};
use crate::facts::{Facts, FactsView};
use crate::fetch::{fetch, fetch_steps};
use crate::step::{append_steps, no_steps, push_step, Asset, Step, StepView};
use crate::text::{file_stem, has_c_extension, is_c_source, join, stem, Text};
use crate::tool::{ToolCall, ToolCallView};
use vstd::prelude::*;

verus! {

impl ArchView {
    /// Making sure that the base archive is in its cache.
    pub open spec fn fetch_archive(self, facts: FactsView) -> Seq<StepView> {
        fetch(
            Asset::BaseArchive,
            facts.archive_cached,
            self.archive_url(),
            self.archive_dir(),
            self.archive_path(),
        )
    }

    /// Unpacking the base archive into `dest`.
    pub open spec fn unpack_into(self, dest: Text, strip: usize) -> StepView {
        StepView::Extract { archive: self.archive_path(), dest, strip }
    }

    /// Linking `ls` to the one binary that stands for every tool.
    pub open spec fn link_ls(self) -> StepView {
        StepView::Run {
            call: ToolCallView::new("ln"@).arg("-s"@).arg("busybox"@).arg(
                self.rootfs_dir() + "/bin/ls"@,
            ),
        }
    }

    /// Putting the dynamic linker shim in the place of the base system's own.
    pub open spec fn install_shim(self) -> StepView {
        StepView::CopyFile { from: SHIM@, to: self.linker_file() }
    }

    /// Compiling one test source into the root filesystem, with the dynamic
    /// linker's path forced and the program named after the file's stem.
    pub open spec fn compile(self, name: Text) -> StepView {
        StepView::Run {
            call: ToolCallView::new("gcc"@).arg(TEST_SOURCES@ + "/"@ + name).arg("-o"@).arg(
                self.rootfs_dir() + "/bin/"@ + stem(name),
            ).arg("-Wl,--dynamic-linker="@ + self.dynamic_linker()),
        }
    }

    /// One compilation for each C source among `names`, in their order.
    pub open spec fn compile_all(self, names: Seq<Text>) -> Seq<StepView>
        decreases names.len(),
    {
        if names.len() == 0 {
            Seq::empty()
        } else if is_c_source(names.last()) {
            self.compile_all(names.drop_last()).push(self.compile(names.last()))
        } else {
            self.compile_all(names.drop_last())
        }
    }

    /// What is done to the unpacked base system.
    pub open spec fn patch(self, facts: FactsView) -> Seq<StepView> {
        match self.target {
            Target::Riscv64 => seq![self.link_ls()],
            Target::X86_64 => seq![
                self.install_shim(),
                StepView::ListDir { path: TEST_SOURCES@ },
            ] + self.compile_all(facts.sources),
        }
    }

    /// Building the root filesystem from nothing.
    pub open spec fn rebuild(self, facts: FactsView) -> Seq<StepView> {
        seq![StepView::ClearDir { path: self.rootfs_dir() }] + self.fetch_archive(facts) + seq![
            self.unpack_into(self.rootfs_dir(), self.strip_components()),
        ] + self.patch(facts)
    }

    /// The root filesystem build: ask whether the directory is there; where
    /// it is and no rebuild is forced, that is all, else build from nothing.
    pub open spec fn rootfs(self, clear: bool, facts: FactsView) -> Seq<StepView> {
        seq![StepView::ProbeDir { path: self.rootfs_dir() }] + (if facts.rootfs_present && !clear {
            Seq::empty()
        } else {
            self.rebuild(facts)
        })
    }
}

impl Arch {
    /// The steps that make sure the base archive is in its cache.
    pub fn fetch_archive(&self, facts: &Facts) -> (steps: Vec<Step>)
        ensures
            steps.deep_view() == self@.fetch_archive(facts@),
    {
        fetch_steps(
            Asset::BaseArchive,
            facts.archive_cached,
            self.archive_url(),
            self.archive_dir(),
            self.archive_path(),
        )
    }

    /// The step that unpacks the base archive into `dest`.
    pub fn unpack_into(&self, dest: &str, strip: usize) -> (step: Step)
        ensures
            step@ == self@.unpack_into(dest@, strip),
    {
        Step::Extract { archive: self.archive_path(), dest: String::from_str(dest), strip }
    }

    /// The step that links `ls`.
    pub fn link_ls(&self) -> (step: Step)
        ensures
            step@ == self@.link_ls(),
    {
        let link = join(self.rootfs_dir(), "/bin/ls");
        Step::Run { call: ToolCall::new("ln").arg("-s").arg("busybox").arg(link.as_str()) }
    }

    /// The step that installs the dynamic linker shim.
    pub fn install_shim(&self) -> (step: Step)
        ensures
            step@ == self@.install_shim(),
    {
        Step::CopyFile { from: String::from_str(SHIM), to: self.linker_file() }
    }

    /// The step that compiles the test source `name`.
    pub fn compile(&self, name: &str) -> (step: Step)
        ensures
            step@ == self@.compile(name@),
    {
        let mut source = join(TEST_SOURCES, "/");
        source.append(name);
        let mut output = join(self.rootfs_dir(), "/bin/");
        output.append(file_stem(name).as_str());
        let flag = join("-Wl,--dynamic-linker=", self.dynamic_linker().as_str());
        Step::Run {
            call: ToolCall::new("gcc").arg(source.as_str()).arg("-o").arg(output.as_str()).arg(
                flag.as_str(),
            ),
        }
    }

    /// One compilation for each C source among `names`, in their order.
    pub fn compile_all(&self, names: &Vec<String>) -> (steps: Vec<Step>)
        ensures
            steps.deep_view() == self@.compile_all(names.deep_view()),
    {
        let mut steps = no_steps();
        let mut i: usize = 0;
        while i < names.len()
            invariant
                i <= names.len(),
                steps.deep_view() == self@.compile_all(names.deep_view().take(i as int)),
            decreases names.len() - i,
        {
            let name = names[i].as_str();
            proof {
                let all = names.deep_view();
                assert(all.take(i + 1).drop_last() =~= all.take(i as int));
                assert(all.take(i + 1).last() == name@);
            }
            if has_c_extension(name) {
                push_step(&mut steps, self.compile(name));
            }
            i = i + 1;
        }
        assert(names.deep_view().take(i as int) =~= names.deep_view());
        steps
    }

    /// The steps that patch the unpacked base system.
    pub fn patch(&self, facts: &Facts) -> (steps: Vec<Step>)
        ensures
            steps.deep_view() == self@.patch(facts@),
    {
        let mut steps = no_steps();
        match self.target {
            Target::Riscv64 => {
                push_step(&mut steps, self.link_ls());
            },
            Target::X86_64 => {
                push_step(&mut steps, self.install_shim());
                push_step(&mut steps, Step::ListDir { path: String::from_str(TEST_SOURCES) });
                append_steps(&mut steps, self.compile_all(&facts.sources));
            },
        }
        steps
    }

    /// The steps that build the root filesystem from nothing.
    pub fn rebuild(&self, facts: &Facts) -> (steps: Vec<Step>)
        ensures
            steps.deep_view() == self@.rebuild(facts@),
    {
        let mut steps = no_steps();
        push_step(&mut steps, Step::ClearDir { path: String::from_str(self.rootfs_dir()) });
        append_steps(&mut steps, self.fetch_archive(facts));
        push_step(&mut steps, self.unpack_into(self.rootfs_dir(), self.strip_components()));
        append_steps(&mut steps, self.patch(facts));
        steps
    }

    /// The steps of a root filesystem build, as far as `facts` tell: with
    /// the directory there and `clear` unset, only the question is left.
    pub fn rootfs(&self, clear: bool, facts: &Facts) -> (steps: Vec<Step>)
        ensures
            steps.deep_view() == self@.rootfs(clear, facts@),
    {
        let mut steps = no_steps();
        push_step(&mut steps, Step::ProbeDir { path: String::from_str(self.rootfs_dir()) });
        if !facts.rootfs_present || clear {
            append_steps(&mut steps, self.rebuild(facts));
        }
        steps
    }
}

} // verus!

//! Packing the root filesystem into a disk image.

use crate::arch::{Arch, ArchView, Target, IMAGE_CAPACITY, IMAGE_PADDING, SCRATCH};
use crate::facts::{Facts, FactsView};
use crate::step::{append_steps, no_steps, push_step, Step, StepView};
use crate::text::{join, Text};
use vstd::prelude::*;

verus! {

impl ArchView {
    /// The base system's own dynamic linker, in the scratch copy.
    pub open spec fn stock_linker(self) -> Text {
        SCRATCH@ + self.dynamic_linker()
    }

    /// Packing the root filesystem into the image.
    pub open spec fn pack(self) -> StepView {
        StepView::Pack { dir: self.rootfs_dir(), image: self.image_path(), capacity: IMAGE_CAPACITY }
    }

    /// Growing the image by the fixed padding.
    pub open spec fn resize(self) -> StepView {
        StepView::Resize { image: self.image_path(), padding: IMAGE_PADDING }
    }

    /// Assembling the image from a root filesystem that is there.
    ///
    /// For x86_64 the image gets the base system's own dynamic linker: the
    /// base archive is unpacked a second time into a scratch directory and
    /// the linker copied over the shim from there. Once the image is packed
    /// the shim goes back into the directory, so the image and the
    /// directory differ in that one file and in nothing else. The scratch
    /// copy is removed at the end. The archive is asked for first unless
    /// this build has just made the root filesystem from it.
    pub open spec fn assemble(self, facts: FactsView) -> Seq<StepView> {
        match self.target {
            Target::Riscv64 => seq![self.pack(), self.resize()],
            Target::X86_64 => (if facts.rootfs_present {
                self.fetch_archive(facts)
            } else {
                Seq::empty()
            }) + seq![
                StepView::ClearDir { path: SCRATCH@ },
                self.unpack_into(SCRATCH@, 0),
                StepView::CopyFile { from: self.stock_linker(), to: self.linker_file() },
                self.pack(),
                self.install_shim(),
                self.resize(),
                StepView::RemoveDir { path: SCRATCH@ },
            ],
        }
    }

    /// The root filesystem, unless it is there; then the image.
    pub open spec fn image(self, facts: FactsView) -> Seq<StepView> {
        self.rootfs(false, facts) + self.assemble(facts)
    }
}

impl Arch {
    /// The base system's own dynamic linker, in the scratch copy.
    pub fn stock_linker(&self) -> (s: String)
        ensures
            s@ == self@.stock_linker(),
    {
        join(SCRATCH, self.dynamic_linker().as_str())
    }

    /// The step that packs the root filesystem into the image.
    pub fn pack(&self) -> (step: Step)
        ensures
            step@ == self@.pack(),
    {
        Step::Pack {
            dir: String::from_str(self.rootfs_dir()),
            image: self.image_path(),
            capacity: IMAGE_CAPACITY,
        }
    }

    /// The step that grows the image by the fixed padding.
    pub fn resize(&self) -> (step: Step)
        ensures
            step@ == self@.resize(),
    {
        Step::Resize { image: self.image_path(), padding: IMAGE_PADDING }
    }

    /// The steps that assemble the image from a root filesystem that is
    /// there.
    pub fn assemble(&self, facts: &Facts) -> (steps: Vec<Step>)
        ensures
            steps.deep_view() == self@.assemble(facts@),
    {
        let mut steps = no_steps();
        match self.target {
            Target::Riscv64 => {
                push_step(&mut steps, self.pack());
                push_step(&mut steps, self.resize());
            },
            Target::X86_64 => {
                if facts.rootfs_present {
                    append_steps(&mut steps, self.fetch_archive(facts));
                }
                push_step(&mut steps, Step::ClearDir { path: String::from_str(SCRATCH) });
                push_step(&mut steps, self.unpack_into(SCRATCH, 0));
                push_step(
                    &mut steps,
                    Step::CopyFile { from: self.stock_linker(), to: self.linker_file() },
                );
                push_step(&mut steps, self.pack());
                push_step(&mut steps, self.install_shim());
                push_step(&mut steps, self.resize());
                push_step(&mut steps, Step::RemoveDir { path: String::from_str(SCRATCH) });
            },
        }
        steps
    }

    /// The steps that make the disk image, as far as `facts` tell.
    pub fn image(&self, facts: &Facts) -> (steps: Vec<Step>)
        ensures
            steps.deep_view() == self@.image(facts@),
    {
        let mut steps = self.rootfs(false, facts);
        append_steps(&mut steps, self.assemble(facts));
        steps
    }
}

} // verus!

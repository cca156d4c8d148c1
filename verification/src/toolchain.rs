//! The cross toolchain for riscv64: where it comes from, where it goes, and
//! the search path that finds it.

use crate::facts::{Facts, FactsView};
use crate::fetch::{fetch, fetch_steps};
use crate::step::{push_step, Asset, Step, StepView};
use crate::text::{join, Text};
use vstd::prelude::*;

verus! {

/// The directory that downloads and clones are kept in.
pub const DOWNLOADS: &'static str = "ignored";

/// The toolchain's name: that of its archive and of the directory in it.
pub const TOOLCHAIN: &'static str = "riscv64-linux-musl-cross";

/// The site that publishes the toolchain.
pub const TOOLCHAIN_SITE: &'static str = "https://musl.cc/";

/// What the names of the toolchain's programs begin with.
pub const CROSS_PREFIX: &'static str = "riscv64-linux-musl-";

/// The directory that the toolchain is unpacked to.
pub open spec fn toolchain_dir() -> Text {
    DOWNLOADS@ + "/"@ + TOOLCHAIN@
}

/// The file that the toolchain's archive is kept in.
pub open spec fn toolchain_archive() -> Text {
    toolchain_dir() + ".tgz"@
}

/// Where the toolchain's archive is downloaded from.
pub open spec fn toolchain_url() -> Text {
    TOOLCHAIN_SITE@ + TOOLCHAIN@ + ".tgz"@
}

impl FactsView {
    /// Getting the toolchain ready: make sure its archive is there, throw
    /// away what was unpacked before, unpack afresh, and ask for the search
    /// path.
    pub open spec fn provision(self) -> Seq<StepView> {
        fetch(
            Asset::Toolchain,
            self.toolchain_cached,
            toolchain_url(),
            DOWNLOADS@,
            toolchain_archive(),
        ) + seq![
            StepView::RemoveDir { path: toolchain_dir() },
            StepView::Extract { archive: toolchain_archive(), dest: DOWNLOADS@, strip: 0 },
            StepView::ReadSearchPath,
        ]
    }

    /// The search path for a cross build: the one that is set, where one is,
    /// and behind it the toolchain's `bin` under the working directory.
    pub open spec fn cross_search_path(self) -> Text {
        (match self.search_path {
            Some(current) => current + ":"@,
            None => Seq::empty(),
        }) + self.current_dir + "/"@ + toolchain_dir() + "/bin"@
    }
}

/// The directory that the toolchain is unpacked to.
pub fn toolchain_dir_path() -> (s: String)
    ensures
        s@ == toolchain_dir(),
{
    let mut s = join(DOWNLOADS, "/");
    s.append(TOOLCHAIN);
    s
}

/// The file that the toolchain's archive is kept in.
pub fn toolchain_archive_path() -> (s: String)
    ensures
        s@ == toolchain_archive(),
{
    let mut s = toolchain_dir_path();
    s.append(".tgz");
    s
}

/// Where the toolchain's archive is downloaded from.
pub fn toolchain_download_url() -> (s: String)
    ensures
        s@ == toolchain_url(),
{
    let mut s = join(TOOLCHAIN_SITE, TOOLCHAIN);
    s.append(".tgz");
    s
}

impl Facts {
    /// The steps that get the toolchain ready.
    pub fn provision(&self) -> (steps: Vec<Step>)
        ensures
            steps.deep_view() == self@.provision(),
    {
        let mut steps = fetch_steps(
            Asset::Toolchain,
            self.toolchain_cached,
            toolchain_download_url(),
            String::from_str(DOWNLOADS),
            toolchain_archive_path(),
        );
        push_step(&mut steps, Step::RemoveDir { path: toolchain_dir_path() });
        push_step(
            &mut steps,
            Step::Extract {
                archive: toolchain_archive_path(),
                dest: String::from_str(DOWNLOADS),
                strip: 0,
            },
        );
        push_step(&mut steps, Step::ReadSearchPath);
        steps
    }

    /// The search path for a cross build.
    pub fn cross_search_path(&self) -> (s: String)
        ensures
            s@ == self@.cross_search_path(),
    {
        let mut s = match &self.search_path {
            Some(current) => {
                let mut head = current.clone();
                head.append(":");
                head
            },
            None => String::new(),
        };
        s.append(self.current_dir.as_str());
        s.append("/");
        s.append(toolchain_dir_path().as_str());
        s.append("/bin");
        s
    }
}

} // verus!

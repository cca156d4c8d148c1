//! What a build has found out about its surroundings.

use crate::step::{Asset, Outcome, OutcomeView, Step, StepView};
use crate::text::Text;
use vstd::prelude::*;

verus! {

/// What is known of the disk and the environment. Until a step has asked, a
/// fact stands at its default: nothing is there, nothing is set.
#[derive(Debug, PartialEq, Eq)]
pub struct Facts {
    /// The root filesystem directory exists.
    pub rootfs_present: bool,
    /// The base archive has been downloaded.
    pub archive_cached: bool,
    /// The cross toolchain's archive has been downloaded.
    pub toolchain_cached: bool,
    /// The names of the entries of the test source directory.
    pub sources: Vec<String>,
    /// The executable search path, where one is set.
    pub search_path: Option<String>,
    /// The working directory.
    pub current_dir: String,
}

/// [`Facts`] as the contracts see them.
pub struct FactsView {
    pub rootfs_present: bool,
    pub archive_cached: bool,
    pub toolchain_cached: bool,
    pub sources: Seq<Text>,
    pub search_path: Option<Text>,
    pub current_dir: Text,
}

impl DeepView for Facts {
    type V = FactsView;

    open spec fn deep_view(&self) -> FactsView {
        FactsView {
            rootfs_present: self.rootfs_present,
            archive_cached: self.archive_cached,
            toolchain_cached: self.toolchain_cached,
            sources: self.sources.deep_view(),
            search_path: self.search_path.deep_view(),
            current_dir: self.current_dir@,
        }
    }
}

impl View for Facts {
    type V = FactsView;

    open spec fn view(&self) -> FactsView {
        self.deep_view()
    }
}

impl FactsView {
    /// Nothing is known yet.
    pub open spec fn unknown() -> FactsView {
        FactsView {
            rootfs_present: false,
            archive_cached: false,
            toolchain_cached: false,
            sources: Seq::empty(),
            search_path: None,
            current_dir: Seq::empty(),
        }
    }

    /// The facts after `step` has ended with `outcome`: an answer replaces
    /// what was known of the thing asked about, and nothing else changes.
    pub open spec fn learn(self, step: StepView, outcome: OutcomeView) -> FactsView {
        match (step, outcome) {
            (StepView::ProbeDir { .. }, OutcomeView::Present { yes }) => FactsView {
                rootfs_present: yes,
                ..self
            },
            (
                StepView::ProbeFile { asset: Asset::BaseArchive, .. },
                OutcomeView::Present { yes },
            ) => FactsView { archive_cached: yes, ..self },
            (
                StepView::ProbeFile { asset: Asset::Toolchain, .. },
                OutcomeView::Present { yes },
            ) => FactsView { toolchain_cached: yes, ..self },
            (StepView::ListDir { .. }, OutcomeView::Listing { names }) => FactsView {
                sources: names,
                ..self
            },
            (StepView::ReadSearchPath, OutcomeView::SearchPath { current, dir }) => FactsView {
                search_path: current,
                current_dir: dir,
                ..self
            },
            _ => self,
        }
    }
}

impl Facts {
    /// Nothing is known yet.
    pub fn unknown() -> (facts: Facts)
        ensures
            facts@ == FactsView::unknown(),
    {
        let facts = Facts {
            rootfs_present: false,
            archive_cached: false,
            toolchain_cached: false,
            sources: Vec::new(),
            search_path: None,
            current_dir: String::new(),
        };
        assert(facts.sources.deep_view() =~= Seq::empty());
        facts
    }

    /// Takes in how `step` ended.
    pub fn learn(&mut self, step: &Step, outcome: Outcome)
        ensures
            final(self)@ == old(self)@.learn(step@, outcome@),
    {
        match step {
            Step::ProbeDir { .. } => match outcome {
                Outcome::Present { yes } => {
                    self.rootfs_present = yes;
                },
                _ => {},
            },
            Step::ProbeFile { asset, .. } => match outcome {
                Outcome::Present { yes } => match asset {
                    Asset::BaseArchive => {
                        self.archive_cached = yes;
                    },
                    Asset::Toolchain => {
                        self.toolchain_cached = yes;
                    },
                },
                _ => {},
            },
            Step::ListDir { .. } => match outcome {
                Outcome::Listing { names } => {
                    self.sources = names;
                },
                _ => {},
            },
            Step::ReadSearchPath => match outcome {
                Outcome::SearchPath { current, dir } => {
                    self.search_path = current;
                    self.current_dir = dir;
                },
                _ => {},
            },
            _ => {},
        }
    }
}

} // verus!

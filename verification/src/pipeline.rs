//! A build in progress: it hands out one step at a time, takes in how the
//! step ended, and gives up at the first that ends badly.

use crate::arch::{Arch, ArchView};
use crate::facts::{Facts, FactsView};
use crate::step::{
    status_string, status_text, Failure, FailureView, Outcome, OutcomeView, Step, StepView,
};
use crate::text::{join, Text};
use vstd::prelude::*;

verus! {

/// What a build is to produce.
#[derive(Debug, Clone, Copy, PartialEq, Eq, Structural)]
pub enum Goal {
    /// The root filesystem; with `clear`, built anew even if it is there.
    Rootfs { clear: bool },
    /// The root filesystem with the libc test suite in it.
    LibcTest,
    /// The disk image.
    Image,
}

impl ArchView {
    /// All the steps towards `goal`, in order, in surroundings of which
    /// `facts` hold.
    pub open spec fn script(self, goal: Goal, facts: FactsView) -> Seq<StepView> {
        match goal {
            Goal::Rootfs { clear } => self.rootfs(clear, facts),
            Goal::LibcTest => self.libc_test(facts),
            Goal::Image => self.image(facts),
        }
    }
}

impl Arch {
    /// All the steps towards `goal`, as far as `facts` tell.
    pub fn script(&self, goal: Goal, facts: &Facts) -> (steps: Vec<Step>)
        ensures
            steps.deep_view() == self@.script(goal, facts@),
    {
        match goal {
            Goal::Rootfs { clear } => self.rootfs(clear, facts),
            Goal::LibcTest => self.libc_test(facts),
            Goal::Image => self.image(facts),
        }
    }
}

/// What the caller is to do next.
#[derive(Debug, PartialEq, Eq)]
pub enum Action {
    /// Carry out the step and report how it ended.
    Perform { step: Step },
    /// Nothing: the goal is reached.
    Finished,
    /// Nothing: the build has been given up.
    Abort { failure: Failure },
}

/// An [`Action`] as the contracts see it.
pub enum ActionView {
    Perform { step: StepView },
    Finished,
    Abort { failure: FailureView },
}

impl DeepView for Action {
    type V = ActionView;

    open spec fn deep_view(&self) -> ActionView {
        match *self {
            Action::Perform { step } => ActionView::Perform { step: step@ },
            Action::Finished => ActionView::Finished,
            Action::Abort { failure } => ActionView::Abort { failure: failure@ },
        }
    }
}

impl View for Action {
    type V = ActionView;

    open spec fn view(&self) -> ActionView {
        self.deep_view()
    }
}

/// A build in progress.
#[derive(Debug)]
pub struct Pipeline {
    arch: Arch,
    goal: Goal,
    facts: Facts,
    done: usize,
    failure: Option<Failure>,
    status: Option<i32>,
}

/// A [`Pipeline`] as the contracts see it.
pub struct PipelineView {
    /// The architecture that is built for.
    pub arch: ArchView,
    /// What is to be produced.
    pub goal: Goal,
    /// What has been found out so far.
    pub facts: FactsView,
    /// How many steps have ended well.
    pub done: nat,
    /// Why the build was given up, if it was.
    pub failure: Option<FailureView>,
    /// The status that came with the report that ended the build, if one
    /// did.
    pub status: Option<i32>,
}

impl PipelineView {
    /// A build that has not begun.
    pub open spec fn start(arch: ArchView, goal: Goal) -> PipelineView {
        PipelineView {
            arch,
            goal,
            facts: FactsView::unknown(),
            done: 0,
            failure: None,
            status: None,
        }
    }

    /// All the steps of the build, as far as the facts tell.
    pub open spec fn script(self) -> Seq<StepView> {
        self.arch.script(self.goal, self.facts)
    }

    /// What is due: nothing more once the build has been given up, else the
    /// first step that has not ended yet, else nothing more.
    pub open spec fn pending(self) -> ActionView {
        match self.failure {
            Some(failure) => ActionView::Abort { failure },
            None => if self.done < self.script().len() {
                ActionView::Perform { step: self.script()[self.done as int] }
            } else {
                ActionView::Finished
            },
        }
    }

    /// The build after the step that was due has ended with `outcome`.
    ///
    /// A good end is taken in and the step counted. A bad end is kept as the
    /// failure, with the status that came with it. Where no step was due
    /// the report changes nothing.
    pub open spec fn after(self, outcome: OutcomeView) -> PipelineView {
        if self.failure is Some || self.done >= self.script().len() {
            self
        } else {
            let step = self.script()[self.done as int];
            if step.accepts(outcome) {
                PipelineView {
                    facts: self.facts.learn(step, outcome),
                    done: self.done + 1,
                    ..self
                }
            } else {
                PipelineView {
                    failure: Some(step.failure(outcome)),
                    status: outcome.status(),
                    ..self
                }
            }
        }
    }

    /// The step that ended badly, where the build has been given up.
    pub open spec fn failed_step(self) -> Option<StepView> {
        if self.failure is Some && self.done < self.script().len() {
            Some(self.script()[self.done as int])
        } else {
            None
        }
    }

    /// What to tell the user of a build that has been given up: the command
    /// line and the status where a program was run for the step that ended
    /// badly, else the kind of failure, and the status where one came with
    /// the report.
    pub open spec fn failure_report(self) -> Option<Text> {
        match self.failure {
            None => None,
            Some(failure) => {
                let call = match self.failed_step() {
                    Some(step) => step.command(),
                    None => None,
                };
                match call {
                    Some(call) => Some(
                        "FAILED: "@ + call.command_line() + status_text(self.status),
                    ),
                    None => Some(
                        failure.message() + (match self.status {
                            Some(code) => status_text(Some(code)),
                            None => Seq::empty(),
                        }),
                    ),
                }
            },
        }
    }

    /// The build after a run of reports, each for the step that was due.
    pub open spec fn run(self, outcomes: Seq<OutcomeView>) -> PipelineView
        decreases outcomes.len(),
    {
        if outcomes.len() == 0 {
            self
        } else {
            self.run(outcomes.drop_last()).after(outcomes.last())
        }
    }
}

impl View for Pipeline {
    type V = PipelineView;

    closed spec fn view(&self) -> PipelineView {
        PipelineView {
            arch: self.arch@,
            goal: self.goal,
            facts: self.facts@,
            done: self.done as nat,
            failure: self.failure.deep_view(),
            status: self.status,
        }
    }
}

impl Pipeline {
    /// A build for `arch` towards `goal` that has not begun.
    pub fn new(arch: Arch, goal: Goal) -> (pipeline: Pipeline)
        ensures
            pipeline@ == PipelineView::start(arch@, goal),
    {
        Pipeline { arch, goal, facts: Facts::unknown(), done: 0, failure: None, status: None }
    }

    /// What is due.
    pub fn pending(&self) -> (action: Action)
        ensures
            action@ == self@.pending(),
    {
        match &self.failure {
            Some(failure) => Action::Abort { failure: failure.duplicate() },
            None => {
                let mut script = self.arch.script(self.goal, &self.facts);
                if self.done < script.len() {
                    Action::Perform { step: script.swap_remove(self.done) }
                } else {
                    Action::Finished
                }
            },
        }
    }

    /// Takes in how the step that was due has ended, and says what is due
    /// now.
    pub fn advance(&mut self, outcome: Outcome) -> (action: Action)
        ensures
            final(self)@ == old(self)@.after(outcome@),
            action@ == final(self)@.pending(),
    {
        if self.failure.is_none() {
            let mut script = self.arch.script(self.goal, &self.facts);
            if self.done < script.len() {
                let step = script.swap_remove(self.done);
                if step.accepts(&outcome) {
                    self.facts.learn(&step, outcome);
                    self.done = self.done + 1;
                } else {
                    self.status = outcome.status();
                    self.failure = Some(step.failure(&outcome));
                }
            }
        }
        self.pending()
    }

    /// The step that ended badly, where the build has been given up.
    pub fn failed_step(&self) -> (step: Option<Step>)
        ensures
            step.deep_view() == self@.failed_step(),
    {
        if self.failure.is_some() {
            let mut script = self.arch.script(self.goal, &self.facts);
            if self.done < script.len() {
                return Some(script.swap_remove(self.done));
            }
        }
        None
    }

    /// The status that came with the report that ended the build, if one
    /// did.
    pub fn failed_status(&self) -> (status: Option<i32>)
        ensures
            status == self@.status,
    {
        self.status
    }

    /// What to tell the user of a build that has been given up.
    pub fn failure_report(&self) -> (text: Option<String>)
        ensures
            text.deep_view() == self@.failure_report(),
    {
        match &self.failure {
            None => None,
            Some(failure) => {
                let call = match self.failed_step() {
                    Some(step) => step.command(),
                    None => None,
                };
                match call {
                    Some(call) => {
                        let mut text = join("FAILED: ", call.command_line().as_str());
                        text.append(status_string(self.status).as_str());
                        Some(text)
                    },
                    None => {
                        let mut text = failure.message();
                        match self.status {
                            Some(code) => {
                                text.append(status_string(Some(code)).as_str());
                            },
                            None => {
                                assert(text@ + Seq::<char>::empty() =~= text@);
                            },
                        }
                        Some(text)
                    },
                }
            },
        }
    }

    /// The architecture that is built for.
    pub fn arch(&self) -> (arch: &Arch)
        ensures
            arch@ == self@.arch,
    {
        &self.arch
    }

    /// What is to be produced.
    pub fn goal(&self) -> (goal: Goal)
        ensures
            goal == self@.goal,
    {
        self.goal
    }

    /// Whether the build has been given up.
    pub fn has_failed(&self) -> (yes: bool)
        ensures
            yes == self@.failure is Some,
    {
        self.failure.is_some()
    }

    /// How many steps have ended well.
    pub fn steps_done(&self) -> (n: usize)
        ensures
            n == self@.done,
    {
        self.done
    }

    /// What has been found out so far.
    pub fn facts(&self) -> (facts: &Facts)
        ensures
            facts@ == self@.facts,
    {
        &self.facts
    }
}

} // verus!

//! The steps of a build, how each can end, and what a bad ending is called.

use crate::text::{decimal, format_decimal, format_signed, join, signed_decimal, Text};
use crate::tool::{copy_texts, spaced, spaced_string, ToolCall, ToolCallView};
use vstd::prelude::*;

verus! {

/// A file that is downloaded once and kept.
#[derive(Debug, Clone, Copy, PartialEq, Eq, Structural)]
pub enum Asset {
    BaseArchive,
    Toolchain,
}

/// One thing for the caller to do, or to find out.
#[derive(Debug, PartialEq, Eq)]
pub enum Step {
    /// Is there a directory at `path`?
    ProbeDir { path: String },
    /// Is there a file at `path`?
    ProbeFile { asset: Asset, path: String },
    /// Which entries does the directory at `path` hold?
    ListDir { path: String },
    /// What is the executable search path, and the working directory?
    ReadSearchPath,
    /// Leave an empty directory at `path`, whatever was there.
    ClearDir { path: String },
    /// Leave nothing at `path`.
    RemoveDir { path: String },
    /// Create the directory at `path` and those above it.
    CreateDirs { path: String },
    /// Download `url` into the file `dest`. Where a program does it, the
    /// status it left with is the report.
    Download { url: String, dest: String },
    /// Clone the repository `repo` into `dest`, unless it is there. Where a
    /// program does it, the status it left with is the report.
    CloneRepo { repo: String, dest: String },
    /// Unpack `archive` into the directory `dest`, dropping the first
    /// `strip` path components of every entry.
    Extract { archive: String, dest: String, strip: usize },
    /// Run a program and wait for it.
    Run { call: ToolCall },
    /// Copy one file over another.
    CopyFile { from: String, to: String },
    /// Copy a directory tree.
    CopyDir { from: String, to: String },
    /// Move a file or directory.
    Rename { from: String, to: String },
    /// Write `text` behind what the file at `path` holds.
    Append { path: String, text: String },
    /// Pack the tree under `dir` into a fresh image file of at most
    /// `capacity` bytes.
    Pack { dir: String, image: String, capacity: usize },
    /// Grow the image file by `padding` MiB.
    Resize { image: String, padding: usize },
}

/// A [`Step`] as the contracts see it.
pub enum StepView {
    ProbeDir { path: Text },
    ProbeFile { asset: Asset, path: Text },
    ListDir { path: Text },
    ReadSearchPath,
    ClearDir { path: Text },
    RemoveDir { path: Text },
    CreateDirs { path: Text },
    Download { url: Text, dest: Text },
    CloneRepo { repo: Text, dest: Text },
    Extract { archive: Text, dest: Text, strip: usize },
    Run { call: ToolCallView },
    CopyFile { from: Text, to: Text },
    CopyDir { from: Text, to: Text },
    Rename { from: Text, to: Text },
    Append { path: Text, text: Text },
    Pack { dir: Text, image: Text, capacity: usize },
    Resize { image: Text, padding: usize },
}

impl DeepView for Step {
    type V = StepView;

    open spec fn deep_view(&self) -> StepView {
        match *self {
            Step::ProbeDir { path } => StepView::ProbeDir { path: path@ },
            Step::ProbeFile { asset, path } => StepView::ProbeFile { asset, path: path@ },
            Step::ListDir { path } => StepView::ListDir { path: path@ },
            Step::ReadSearchPath => StepView::ReadSearchPath,
            Step::ClearDir { path } => StepView::ClearDir { path: path@ },
            Step::RemoveDir { path } => StepView::RemoveDir { path: path@ },
            Step::CreateDirs { path } => StepView::CreateDirs { path: path@ },
            Step::Download { url, dest } => StepView::Download { url: url@, dest: dest@ },
            Step::CloneRepo { repo, dest } => StepView::CloneRepo { repo: repo@, dest: dest@ },
            Step::Extract { archive, dest, strip } => StepView::Extract {
                archive: archive@,
                dest: dest@,
                strip,
            },
            Step::Run { call } => StepView::Run { call: call@ },
            Step::CopyFile { from, to } => StepView::CopyFile { from: from@, to: to@ },
            Step::CopyDir { from, to } => StepView::CopyDir { from: from@, to: to@ },
            Step::Rename { from, to } => StepView::Rename { from: from@, to: to@ },
            Step::Append { path, text } => StepView::Append { path: path@, text: text@ },
            Step::Pack { dir, image, capacity } => StepView::Pack {
                dir: dir@,
                image: image@,
                capacity,
            },
            Step::Resize { image, padding } => StepView::Resize { image: image@, padding },
        }
    }
}

impl View for Step {
    type V = StepView;

    open spec fn view(&self) -> StepView {
        self.deep_view()
    }
}

/// How a step ended.
#[derive(Debug, PartialEq, Eq)]
pub enum Outcome {
    /// The step was carried out.
    Done,
    /// The step could not be carried out.
    Failed,
    /// The program ran and left with `status`; `None` where it could not be
    /// started or left no status.
    Exit { status: Option<i32> },
    /// The answer to a probe.
    Present { yes: bool },
    /// The names of a directory's entries.
    Listing { names: Vec<String> },
    /// The executable search path, where one is set, and the working
    /// directory.
    SearchPath { current: Option<String>, dir: String },
}

/// An [`Outcome`] as the contracts see it.
pub enum OutcomeView {
    Done,
    Failed,
    Exit { status: Option<i32> },
    Present { yes: bool },
    Listing { names: Seq<Text> },
    SearchPath { current: Option<Text>, dir: Text },
}

impl DeepView for Outcome {
    type V = OutcomeView;

    open spec fn deep_view(&self) -> OutcomeView {
        match *self {
            Outcome::Done => OutcomeView::Done,
            Outcome::Failed => OutcomeView::Failed,
            Outcome::Exit { status } => OutcomeView::Exit { status },
            Outcome::Present { yes } => OutcomeView::Present { yes },
            Outcome::Listing { names } => OutcomeView::Listing { names: names.deep_view() },
            Outcome::SearchPath { current, dir } => OutcomeView::SearchPath {
                current: current.deep_view(),
                dir: dir@,
            },
        }
    }
}

impl View for Outcome {
    type V = OutcomeView;

    open spec fn view(&self) -> OutcomeView {
        self.deep_view()
    }
}

/// Why a build was given up.
#[derive(Debug, PartialEq, Eq)]
pub enum Failure {
    /// A download or a clone did not complete.
    Download,
    /// An archive could not be unpacked.
    Extraction,
    /// A program could not be started or did not leave with status zero.
    ExternalTool { program: String, args: Vec<String>, status: Option<i32> },
    /// The image could not be created, filled or grown.
    ImagePack,
    /// A file or directory could not be read, copied, moved or removed.
    FilesystemOperation,
}

/// A [`Failure`] as the contracts see it.
pub enum FailureView {
    Download,
    Extraction,
    ExternalTool { program: Text, args: Seq<Text>, status: Option<i32> },
    ImagePack,
    FilesystemOperation,
}

impl DeepView for Failure {
    type V = FailureView;

    open spec fn deep_view(&self) -> FailureView {
        match *self {
            Failure::Download => FailureView::Download,
            Failure::Extraction => FailureView::Extraction,
            Failure::ExternalTool { program, args, status } => FailureView::ExternalTool {
                program: program@,
                args: args.deep_view(),
                status,
            },
            Failure::ImagePack => FailureView::ImagePack,
            Failure::FilesystemOperation => FailureView::FilesystemOperation,
        }
    }
}

impl View for Failure {
    type V = FailureView;

    open spec fn view(&self) -> FailureView {
        self.deep_view()
    }
}

/// The words for the status that a program left with.
pub open spec fn status_text(status: Option<i32>) -> Text {
    match status {
        Some(code) => ": status "@ + signed_decimal(code as int),
        None => ": no status"@,
    }
}

/// Writes the words for the status that a program left with.
pub fn status_string(status: Option<i32>) -> (text: String)
    ensures
        text@ == status_text(status),
{
    match status {
        Some(code) => {
            let number = format_signed(code);
            join(": status ", number.as_str())
        },
        None => String::from_str(": no status"),
    }
}

impl FailureView {
    /// The words that tell the user what went wrong: for a program, its
    /// command line and the status it left with.
    pub open spec fn message(self) -> Text {
        match self {
            FailureView::Download => "FAILED: download"@,
            FailureView::Extraction => "FAILED: unpacking"@,
            FailureView::ExternalTool { program, args, status } => "FAILED: "@ + spaced(
                program,
                args,
            ) + status_text(status),
            FailureView::ImagePack => "FAILED: image"@,
            FailureView::FilesystemOperation => "FAILED: file operation"@,
        }
    }
}

impl OutcomeView {
    /// The status that a program left with, where this is the end of one.
    pub open spec fn status(self) -> Option<i32> {
        match self {
            OutcomeView::Exit { status } => status,
            _ => None,
        }
    }
}

impl StepView {
    /// Whether the step only looks: it changes nothing on disk and starts no
    /// program.
    pub open spec fn is_observation(self) -> bool {
        self is ProbeDir || self is ProbeFile || self is ListDir || self is ReadSearchPath
    }

    /// The files and directories that the step names as changed by it: what
    /// it creates, fills, empties, removes or moves. A question names none,
    /// and a plain run of a program names none of its own.
    pub open spec fn changed(self) -> Seq<Text> {
        match self {
            StepView::ClearDir { path } | StepView::RemoveDir { path } | StepView::CreateDirs {
                path,
            } | StepView::Append { path, .. } => seq![path],
            StepView::Download { dest, .. } | StepView::CloneRepo { dest, .. }
            | StepView::Extract { dest, .. } => seq![dest],
            StepView::CopyFile { to, .. } | StepView::CopyDir { to, .. } => seq![to],
            StepView::Rename { from, to } => seq![from, to],
            StepView::Pack { image, .. } | StepView::Resize { image, .. } => seq![image],
            _ => Seq::empty(),
        }
    }

    /// The command line of a step that is carried out by an outside program.
    pub open spec fn command(self) -> Option<ToolCallView> {
        match self {
            StepView::Extract { archive, dest, strip } => {
                let tar = ToolCallView::tar_xf(archive, Some(dest));
                if strip == 0 {
                    Some(tar)
                } else {
                    Some(tar.arg("--strip-components"@).arg(decimal(strip as nat)))
                }
            },
            StepView::Run { call } => Some(call),
            StepView::Resize { image, padding } => Some(
                ToolCallView::new("qemu-img"@).arg("resize"@).arg(image).arg(
                    "+"@ + decimal(padding as nat) + "M"@,
                ),
            ),
            _ => None,
        }
    }

    /// Whether `outcome` is a good end of the step. A program must leave
    /// with status zero, a question must get the answer it asks for, and
    /// anything else must be done. A download or a clone is good either
    /// way: done, or the work of a program that left with status zero.
    pub open spec fn accepts(self, outcome: OutcomeView) -> bool {
        match self {
            StepView::Extract { .. } | StepView::Run { .. } | StepView::Resize { .. } => outcome
                == (OutcomeView::Exit { status: Some(0i32) }),
            StepView::Download { .. } | StepView::CloneRepo { .. } => outcome is Done || outcome
                == (OutcomeView::Exit { status: Some(0i32) }),
            StepView::ProbeDir { .. } | StepView::ProbeFile { .. } => outcome is Present,
            StepView::ListDir { .. } => outcome is Listing,
            StepView::ReadSearchPath => outcome is SearchPath,
            _ => outcome is Done,
        }
    }

    /// What it is called when the step ends with `outcome` and that is no
    /// good end.
    pub open spec fn failure(self, outcome: OutcomeView) -> FailureView {
        match self {
            StepView::Download { .. } | StepView::CloneRepo { .. } => FailureView::Download,
            StepView::Extract { .. } => FailureView::Extraction,
            StepView::Run { call } => FailureView::ExternalTool {
                program: call.program,
                args: call.args,
                status: outcome.status(),
            },
            StepView::Pack { .. } | StepView::Resize { .. } => FailureView::ImagePack,
            _ => FailureView::FilesystemOperation,
        }
    }
}

impl Failure {
    /// The words that tell the user what went wrong.
    pub fn message(&self) -> (text: String)
        ensures
            text@ == self@.message(),
    {
        match self {
            Failure::Download => String::from_str("FAILED: download"),
            Failure::Extraction => String::from_str("FAILED: unpacking"),
            Failure::ExternalTool { program, args, status } => {
                let line = spaced_string(program.as_str(), args);
                let mut text = join("FAILED: ", line.as_str());
                text.append(status_string(*status).as_str());
                text
            },
            Failure::ImagePack => String::from_str("FAILED: image"),
            Failure::FilesystemOperation => String::from_str("FAILED: file operation"),
        }
    }

    /// A copy of this failure.
    pub fn duplicate(&self) -> (copy: Failure)
        ensures
            copy@ == self@,
    {
        match self {
            Failure::Download => Failure::Download,
            Failure::Extraction => Failure::Extraction,
            Failure::ExternalTool { program, args, status } => Failure::ExternalTool {
                program: program.clone(),
                args: copy_texts(args),
                status: *status,
            },
            Failure::ImagePack => Failure::ImagePack,
            Failure::FilesystemOperation => Failure::FilesystemOperation,
        }
    }
}

impl Outcome {
    /// The status that a program left with, where this is the end of one.
    pub fn status(&self) -> (status: Option<i32>)
        ensures
            status == self@.status(),
    {
        match self {
            Outcome::Exit { status } => *status,
            _ => None,
        }
    }
}

impl Step {
    /// Whether the step only looks.
    pub fn is_observation(&self) -> (yes: bool)
        ensures
            yes == self@.is_observation(),
    {
        match self {
            Step::ProbeDir { .. } | Step::ProbeFile { .. } | Step::ListDir { .. }
            | Step::ReadSearchPath => true,
            _ => false,
        }
    }

    /// The command line of a step that is carried out by an outside program.
    pub fn command(&self) -> (call: Option<ToolCall>)
        ensures
            call.deep_view() == self@.command(),
    {
        match self {
            Step::Extract { archive, dest, strip } => {
                let tar = ToolCall::tar_xf(archive.as_str(), Some(dest.as_str()));
                if *strip == 0 {
                    Some(tar)
                } else {
                    let count = format_decimal(*strip);
                    Some(tar.arg("--strip-components").arg(count.as_str()))
                }
            },
            Step::Run { call } => Some(call.duplicate()),
            Step::Resize { image, padding } => {
                let count = format_decimal(*padding);
                let mut grow = join("+", count.as_str());
                grow.append("M");
                Some(ToolCall::new("qemu-img").arg("resize").arg(image.as_str()).arg(grow.as_str()))
            },
            _ => None,
        }
    }

    /// Whether `outcome` is a good end of the step.
    pub fn accepts(&self, outcome: &Outcome) -> (yes: bool)
        ensures
            yes == self@.accepts(outcome@),
    {
        match self {
            Step::Extract { .. } | Step::Run { .. } | Step::Resize { .. } => match outcome {
                Outcome::Exit { status: Some(code) } => *code == 0,
                _ => false,
            },
            Step::Download { .. } | Step::CloneRepo { .. } => match outcome {
                Outcome::Done => true,
                Outcome::Exit { status: Some(code) } => *code == 0,
                _ => false,
            },
            Step::ProbeDir { .. } | Step::ProbeFile { .. } => match outcome {
                Outcome::Present { .. } => true,
                _ => false,
            },
            Step::ListDir { .. } => match outcome {
                Outcome::Listing { .. } => true,
                _ => false,
            },
            Step::ReadSearchPath => match outcome {
                Outcome::SearchPath { .. } => true,
                _ => false,
            },
            _ => match outcome {
                Outcome::Done => true,
                _ => false,
            },
        }
    }

    /// What it is called when the step ends with `outcome` and that is no
    /// good end.
    pub fn failure(self, outcome: &Outcome) -> (failure: Failure)
        ensures
            failure@ == self@.failure(outcome@),
    {
        match self {
            Step::Download { .. } | Step::CloneRepo { .. } => Failure::Download,
            Step::Extract { .. } => Failure::Extraction,
            Step::Run { call } => Failure::ExternalTool {
                program: call.program,
                args: call.args,
                status: outcome.status(),
            },
            Step::Pack { .. } | Step::Resize { .. } => Failure::ImagePack,
            _ => Failure::FilesystemOperation,
        }
    }
}

/// An empty list of steps.
pub fn no_steps() -> (list: Vec<Step>)
    ensures
        list.deep_view() == Seq::<StepView>::empty(),
{
    let list: Vec<Step> = Vec::new();
    assert(list.deep_view() =~= Seq::<StepView>::empty());
    list
}

/// Appends a list of steps to another.
pub fn append_steps(list: &mut Vec<Step>, more: Vec<Step>)
    ensures
        final(list).deep_view() == old(list).deep_view() + more.deep_view(),
{
    let ghost before = list.deep_view();
    let mut more = more;
    let ghost added = more.deep_view();
    list.append(&mut more);
    assert(list.deep_view() =~= before + added);
}

/// Appends a step to a list of steps.
pub fn push_step(list: &mut Vec<Step>, step: Step)
    ensures
        final(list).deep_view() == old(list).deep_view().push(step@),
{
    let ghost before = list.deep_view();
    list.push(step);
    assert(list.deep_view() =~= before.push(step@));
}

} // verus!

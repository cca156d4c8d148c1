//! Keeping a downloaded file: it is fetched once and found again later.

use crate::step::{no_steps, push_step, Asset, Step, StepView};
use crate::text::{join, Text};
use vstd::prelude::*;

verus! {

/// What the name of a download ends in while it is not complete.
pub const PARTIAL: &'static str = ".part";

/// Making sure that the file at `path` holds what `url` offers.
///
/// The first step asks whether the file is there. Where it is, nothing
/// follows. Where it is not, the directory `dir` is made for it, the
/// download goes into a file beside it, and that file is moved onto `path`
/// once it is complete: a file at `path` is never half written.
pub open spec fn fetch(
    asset: Asset,
    cached: bool,
    url: Text,
    dir: Text,
    path: Text,
) -> Seq<StepView> {
    seq![StepView::ProbeFile { asset, path }] + (if cached {
        Seq::empty()
    } else {
        seq![
            StepView::CreateDirs { path: dir },
            StepView::Download { url, dest: path + PARTIAL@ },
            StepView::Rename { from: path + PARTIAL@, to: path },
        ]
    })
}

/// A download never writes the file that is asked for: what it writes has a
/// longer name, and the next step moves that onto the file.
pub proof fn downloads_are_moved_into_place(
    asset: Asset,
    url: Text,
    dir: Text,
    path: Text,
    at: int,
)
    requires
        0 <= at < fetch(asset, false, url, dir, path).len(),
        fetch(asset, false, url, dir, path)[at] is Download,
    ensures
        fetch(asset, false, url, dir, path)[at]->Download_dest != path,
        at + 1 < fetch(asset, false, url, dir, path).len(),
        fetch(asset, false, url, dir, path)[at + 1] == (StepView::Rename {
            from: fetch(asset, false, url, dir, path)[at]->Download_dest,
            to: path,
        }),
        forall|i: int|
            0 <= i < fetch(asset, true, url, dir, path).len() ==> !(#[trigger] fetch(
                asset,
                true,
                url,
                dir,
                path,
            )[i] is Download),
{
    reveal_strlit(".part");
    assert((path + PARTIAL@).len() == path.len() + 5);
}

/// The steps that make sure the file at `path` holds what `url` offers.
pub fn fetch_steps(asset: Asset, cached: bool, url: String, dir: String, path: String) -> (steps:
    Vec<Step>)
    ensures
        steps.deep_view() == fetch(asset, cached, url@, dir@, path@),
{
    let mut steps = no_steps();
    if cached {
        push_step(&mut steps, Step::ProbeFile { asset, path });
    } else {
        let partial = join(path.as_str(), PARTIAL);
        push_step(&mut steps, Step::ProbeFile { asset, path: path.clone() });
        push_step(&mut steps, Step::CreateDirs { path: dir });
        push_step(&mut steps, Step::Download { url, dest: partial.clone() });
        push_step(&mut steps, Step::Rename { from: partial, to: path });
    }
    steps
}

} // verus!

//! Targets and the plan of a batch. A target is one URL plus an optional
//! destination path; planning a batch turns each target into one unit of
//! work, pairing the URL with its derived output path.

use vstd::prelude::*;
use crate::path::{spec_with_png, png_suffix, with_png_extension};

verus! {

/// One URL to visit, with an optional destination for its screenshot.
/// A target's URL is never empty; it is consumed by exactly one unit of work
/// and never mutated.
pub struct Target {
    pub url: String,
    pub destination: Option<String>,
}

/// One schedulable unit of work: visit `url`, persist the capture at `path`.
pub struct WorkUnit {
    pub url: String,
    pub path: String,
}

/// The output path of a target: its destination with the extension forced to
/// `.png` where a destination was given, and the URL string with `.png`
/// appended where none was.
pub open spec fn spec_output_path(url: Seq<char>, dest: Option<Seq<char>>) -> Seq<char> {
    match dest {
        Option::Some(d) => spec_with_png(d),
        Option::None => url + png_suffix(),
    }
}

impl Target {
    /// A target is well formed when its URL is non-empty.
    pub open spec fn wf(self) -> bool {
        self.url@.len() > 0
    }

    /// The destination as a sequence of characters, where one was given.
    pub open spec fn dest_view(self) -> Option<Seq<char>> {
        match self.destination {
            Option::Some(d) => Option::Some(d@),
            Option::None => Option::None,
        }
    }

    pub fn new(url: String, destination: Option<String>) -> (t: Target)
        requires
            url@.len() > 0,
        ensures
            t.wf(),
            t.url == url,
            t.destination == destination,
    {
        Target { url, destination }
    }

    /// Where this target's screenshot is persisted.
    pub fn output_path(&self) -> (r: String)
        ensures
            r@ == spec_output_path(self.url@, self.dest_view()),
    {
        match &self.destination {
            Option::Some(d) => with_png_extension(d.as_str()),
            Option::None => self.url.as_str().to_owned().concat(".png"),
        }
    }
}

/// Plans a batch: one unit of work per target, in the given order, each unit
/// carrying the target's URL and its derived output path.
pub fn plan(targets: &Vec<Target>) -> (units: Vec<WorkUnit>)
    ensures
        units@.len() == targets@.len(),
        forall|k: int|
            0 <= k < targets@.len() ==> {
                &&& (#[trigger] units@[k]).url@ == targets@[k].url@
                &&& units@[k].path@ == spec_output_path(
                    targets@[k].url@,
                    targets@[k].dest_view(),
                )
            },
{
    let mut units: Vec<WorkUnit> = Vec::new();
    let mut i: usize = 0;
    while i < targets.len()
        invariant
            i <= targets@.len(),
            units@.len() == i,
            forall|k: int|
                0 <= k < i ==> {
                    &&& (#[trigger] units@[k]).url@ == targets@[k].url@
                    &&& units@[k].path@ == spec_output_path(
                        targets@[k].url@,
                        targets@[k].dest_view(),
                    )
                },
        decreases targets@.len() - i,
    {
        let t = &targets[i];
        let path = t.output_path();
        let url = t.url.clone();
        units.push(WorkUnit { url, path });
        i = i + 1;
    }
    units
}

} // verus!

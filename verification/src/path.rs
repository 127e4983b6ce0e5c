//! Paths as recipes.
//!
//! A candidate location is described by a starting directory, a number of
//! parent levels to step up, and the segments to descend afterwards. Turning
//! such a recipe into a platform path is left to the caller; the library only
//! decides which recipe to try.

use vstd::prelude::*;

verus! {

/// Mathematical value of an optional string.
pub open spec fn text_view(text: Option<String>) -> Option<Seq<char>> {
    match text {
        Some(t) => Some(t@),
        None => None,
    }
}

/// One segment to descend into.
#[derive(Debug, Clone, PartialEq, Eq)]
pub enum Segment {
    /// A relative subpath given by name.
    Name(String),
    /// The final segment of the recipe's own base, read before stepping up.
    FinalNameOfBase,
}

/// Mathematical value of a [`Segment`].
pub enum SegmentModel {
    Name(Seq<char>),
    FinalNameOfBase,
}

impl View for Segment {
    type V = SegmentModel;

    open spec fn view(&self) -> SegmentModel {
        match self {
            Segment::Name(name) => SegmentModel::Name(name@),
            Segment::FinalNameOfBase => SegmentModel::FinalNameOfBase,
        }
    }
}

/// Mathematical value of a [`ProbePath`].
pub struct PathModel {
    pub base: Seq<char>,
    pub ascend: nat,
    pub descend: Seq<SegmentModel>,
}

impl PathModel {
    /// The path that is `levels` parents above `base`.
    pub open spec fn above(base: Seq<char>, levels: nat) -> PathModel {
        PathModel { base, ascend: levels, descend: Seq::empty() }
    }

    /// The path `base` itself.
    pub open spec fn root(base: Seq<char>) -> PathModel {
        PathModel::above(base, 0)
    }

    /// This path extended by one named segment.
    pub open spec fn push(self, name: Seq<char>) -> PathModel {
        PathModel { descend: self.descend.push(SegmentModel::Name(name)), ..self }
    }

    /// This path extended by the final segment of its base.
    pub open spec fn push_final_name(self) -> PathModel {
        PathModel { descend: self.descend.push(SegmentModel::FinalNameOfBase), ..self }
    }
}

/// A candidate location: start at `base`, step up `ascend` parent levels,
/// then descend through `descend` in order.
#[derive(Debug, Clone, PartialEq, Eq)]
pub struct ProbePath {
    pub base: String,
    pub ascend: usize,
    pub descend: Vec<Segment>,
}

impl View for ProbePath {
    type V = PathModel;

    open spec fn view(&self) -> PathModel {
        PathModel {
            base: self.base@,
            ascend: self.ascend as nat,
            descend: self.descend@.map_values(|s: Segment| s@),
        }
    }
}

impl ProbePath {
    /// The path that is `levels` parents above `base`.
    pub fn above(base: String, levels: usize) -> (path: ProbePath)
        ensures
            path@ == PathModel::above(base@, levels as nat),
    {
        let path = ProbePath { base, ascend: levels, descend: Vec::new() };
        proof {
            assert(path@.descend =~= Seq::empty());
        }
        path
    }

    /// The path `base` itself.
    pub fn root(base: String) -> (path: ProbePath)
        ensures
            path@ == PathModel::root(base@),
    {
        ProbePath::above(base, 0)
    }

    /// Extends the path by one named segment.
    pub fn push(self, name: &str) -> (path: ProbePath)
        ensures
            path@ == self@.push(name@),
    {
        let ProbePath { base, ascend, descend } = self;
        let mut descend = descend;
        let ghost before = descend@;
        let segment = Segment::Name(name.to_owned());
        descend.push(segment);
        let path = ProbePath { base, ascend, descend };
        proof {
            assert(path@.descend =~= self@.descend.push(SegmentModel::Name(name@)));
        }
        path
    }

    /// Extends the path by the final segment of its own base.
    pub fn push_final_name(self) -> (path: ProbePath)
        ensures
            path@ == self@.push_final_name(),
    {
        let ProbePath { base, ascend, descend } = self;
        let mut descend = descend;
        descend.push(Segment::FinalNameOfBase);
        let path = ProbePath { base, ascend, descend };
        proof {
            assert(path@.descend =~= self@.descend.push(SegmentModel::FinalNameOfBase));
        }
        path
    }
}

} // verus!

//! The ways in which a page count can be had, from the most to the least
//! trustworthy.

use vstd::prelude::*;

verus! {

/// How a page count was obtained. The order of the variants is the order in
/// which the strategies are tried.
#[derive(Clone, Copy, PartialEq, Eq, Structural, Debug)]
pub enum Strategy {
    /// The chain that the file format prescribes, from `startxref` to the
    /// `/Count` of the root Pages object.
    SpecFollowing,
    /// The greatest `/Count` found near an occurrence of `/Pages`.
    TypePagesProximity,
    /// The greatest `/Count` found anywhere in the file.
    GlobalMaxCount,
    /// As `TypePagesProximity`, with a larger window.
    ExpandedWindow,
    /// The greatest number behind a bare `Count`.
    CountWithoutSlash,
    /// The leaves of the page tree, counted by a parser of the whole document.
    FullParse,
}

impl Strategy {
    /// The pattern searches: they guess, and what they find is unverified.
    pub open spec fn is_heuristic(self) -> bool {
        self is TypePagesProximity || self is GlobalMaxCount || self is ExpandedWindow
            || self is CountWithoutSlash
    }

    /// The place of the strategy in the order of trial, from zero.
    pub open spec fn rank(self) -> int {
        match self {
            Strategy::SpecFollowing => 0,
            Strategy::TypePagesProximity => 1,
            Strategy::GlobalMaxCount => 2,
            Strategy::ExpandedWindow => 3,
            Strategy::CountWithoutSlash => 4,
            Strategy::FullParse => 5,
        }
    }

    /// Whether the strategy is one of the pattern searches.
    pub fn heuristic(self) -> (r: bool)
        ensures
            r == self.is_heuristic(),
    {
        match self {
            Strategy::TypePagesProximity => true,
            Strategy::GlobalMaxCount => true,
            Strategy::ExpandedWindow => true,
            Strategy::CountWithoutSlash => true,
            _ => false,
        }
    }
}

} // verus!

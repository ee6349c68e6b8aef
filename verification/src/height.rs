//! Heights of the counterparty chain: a revision number paired with a block
//! height within that revision, ordered lexicographically.

use vstd::prelude::*;

verus! {

/// A block height on the tracked chain. Revisions partition the chain's
/// history (a revision changes on a hard fork); within a revision blocks are
/// numbered consecutively. Heights compare lexicographically: first by
/// revision number, then by revision height.
#[derive(Clone, Copy, Debug, PartialEq, Eq, Structural)]
pub struct Height {
    pub revision_number: u64,
    pub revision_height: u64,
}

impl Height {
    /// Strict lexicographic order on heights.
    pub open spec fn spec_lt(self, other: Height) -> bool {
        self.revision_number < other.revision_number
            || (self.revision_number == other.revision_number
                && self.revision_height < other.revision_height)
    }

    /// Non-strict lexicographic order on heights.
    pub open spec fn spec_le(self, other: Height) -> bool {
        self.spec_lt(other) || self == other
    }

    pub fn new(revision_number: u64, revision_height: u64) -> (r: Height)
        ensures
            r == (Height { revision_number, revision_height }),
    {
        Height { revision_number, revision_height }
    }

    /// Whether `self` comes strictly before `other`.
    pub fn lt(&self, other: &Height) -> (r: bool)
        ensures
            r == self.spec_lt(*other),
    {
        self.revision_number < other.revision_number
            || (self.revision_number == other.revision_number
                && self.revision_height < other.revision_height)
    }

    /// Whether `self` comes before `other` or equals it.
    pub fn le(&self, other: &Height) -> (r: bool)
        ensures
            r == self.spec_le(*other),
    {
        self.revision_number < other.revision_number
            || (self.revision_number == other.revision_number
                && self.revision_height <= other.revision_height)
    }

    /// The later of the two heights.
    pub fn max(self, other: Height) -> (r: Height)
        ensures
            r == if self.spec_lt(other) { other } else { self },
    {
        if self.lt(&other) {
            other
        } else {
            self
        }
    }
}

} // verus!

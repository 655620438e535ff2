use vstd::prelude::*;

verus! {

/// A height on the remote chain: a revision number, bumped on each upgrade,
/// and a height within that revision.
#[derive(Clone, Copy, Debug, PartialEq, Eq, Structural)]
pub struct Height {
    pub revision_number: u64,
    pub revision_height: u64,
}

impl Height {
    /// The total order on heights: first by revision number, then by height.
    pub open spec fn lt(self, other: Height) -> bool {
        self.revision_number < other.revision_number || (self.revision_number
            == other.revision_number && self.revision_height < other.revision_height)
    }

    pub open spec fn le(self, other: Height) -> bool {
        self.lt(other) || self == other
    }

    pub fn new(revision_number: u64, revision_height: u64) -> (r: Height)
        ensures
            r.revision_number == revision_number,
            r.revision_height == revision_height,
    {
        Height { revision_number, revision_height }
    }

    /// Whether this height lies strictly below `other`.
    pub fn is_lower(&self, other: &Height) -> (r: bool)
        ensures
            r == self.lt(*other),
    {
        self.revision_number < other.revision_number || (self.revision_number
            == other.revision_number && self.revision_height < other.revision_height)
    }

    /// The lower of two heights.
    pub fn min(a: Height, b: Height) -> (r: Height)
        ensures
            r == (if b.lt(a) { b } else { a }),
    {
        if b.is_lower(&a) {
            b
        } else {
            a
        }
    }
}

} // verus!

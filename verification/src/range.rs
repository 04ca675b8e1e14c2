//! The ranges a view can be shrunk by.
//!
//! A shrink range carries a start bound (inclusive, or unbounded) and an end
//! bound (exclusive, or unbounded), expressed relative to the view's current
//! length. The four standard range forms with these bounds — `lo..hi`,
//! `lo..`, `..hi` and `..` — implement [`ShrinkRange`].

use vstd::prelude::*;

verus! {

/// Declares `core::ops::RangeFrom` so that it can stand in verified
/// signatures; its one public field `start` carries the inclusive start.
#[verifier::external_type_specification]
pub struct ExRangeFrom<Idx>(core::ops::RangeFrom<Idx>);

/// Declares `core::ops::RangeTo` so that it can stand in verified
/// signatures; its one public field `end` carries the exclusive end.
#[verifier::external_type_specification]
pub struct ExRangeTo<Idx>(core::ops::RangeTo<Idx>);

/// Declares `core::ops::RangeFull` so that it can stand in verified
/// signatures; it has no fields and leaves both bounds open.
#[verifier::external_type_specification]
pub struct ExRangeFull(core::ops::RangeFull);

/// A range that can select a sub-run of a view: a start bound that is
/// inclusive or unbounded, and an end bound that is exclusive or unbounded.
/// Unbounded ends resolve against the view's current length.
pub trait ShrinkRange {
    /// The inclusive start offset the range selects in a view whose current
    /// length is `len`.
    spec fn spec_start(&self, len: nat) -> int;

    /// The exclusive end offset the range selects in a view whose current
    /// length is `len`.
    spec fn spec_end(&self, len: nat) -> int;

    /// Resolve the two bounds against the current length `len`.
    fn bounds(&self, len: usize) -> (p: (usize, usize))
        ensures
            p.0 == self.spec_start(len as nat),
            p.1 == self.spec_end(len as nat),
    ;
}

impl ShrinkRange for core::ops::Range<usize> {
    open spec fn spec_start(&self, len: nat) -> int {
        self.start as int
    }

    open spec fn spec_end(&self, len: nat) -> int {
        self.end as int
    }

    fn bounds(&self, len: usize) -> (p: (usize, usize)) {
        (self.start, self.end)
    }
}

impl ShrinkRange for core::ops::RangeFrom<usize> {
    open spec fn spec_start(&self, len: nat) -> int {
        self.start as int
    }

    open spec fn spec_end(&self, len: nat) -> int {
        len as int
    }

    fn bounds(&self, len: usize) -> (p: (usize, usize)) {
        (self.start, len)
    }
}

impl ShrinkRange for core::ops::RangeTo<usize> {
    open spec fn spec_start(&self, len: nat) -> int {
        0
    }

    open spec fn spec_end(&self, len: nat) -> int {
        self.end as int
    }

    fn bounds(&self, len: usize) -> (p: (usize, usize)) {
        (0, self.end)
    }
}

impl ShrinkRange for core::ops::RangeFull {
    open spec fn spec_start(&self, len: nat) -> int {
        0
    }

    open spec fn spec_end(&self, len: nat) -> int {
        len as int
    }

    fn bounds(&self, len: usize) -> (p: (usize, usize)) {
        (0, len)
    }
}

} // verus!

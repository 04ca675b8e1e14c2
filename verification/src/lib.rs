//! Narrow a slice reference, or a string-slice reference, to a sub-range of
//! itself, in place.
//!
//! In most code a sub-slice is taken by indexing and re-borrowing. In some
//! contexts the borrow checker refuses that re-borrow, for example when a
//! mutable slice held by a closure is to be replaced by a part of itself. The
//! [`Shrink`] trait packages the usual workaround — take the reference out of
//! the binding, index the taken-out value, and write the result back — behind
//! two methods: a fallible one, [`Shrink::try_shrink`], and a panicking one,
//! [`Shrink::shrink`].
//!
//! A shrink never grows a view, never copies or moves the underlying
//! elements, and on failure leaves the binding exactly as it was.

use vstd::prelude::*;

pub mod laws;
pub mod range;

mod slices;
mod text;

verus! {

use crate::range::ShrinkRange;

/// The provided range cannot index the view it was applied to: an endpoint
/// lies beyond the current length, the start lies after the end, or — for
/// string slices — an endpoint falls inside a multi-byte character.
#[derive(Clone, Copy, PartialEq, Eq, Default, Debug, Structural)]
pub struct ShrinkError;

impl ShrinkError {
    /// A short account of the failure, fit for an error report.
    pub fn message(&self) -> (m: &'static str)
        ensures
            m@ == "cannot index slice by this range"@,
    {
        "cannot index slice by this range"
    }
}

/// Seals [`Shrink`]: the set of view kinds that can be shrunk is closed.
/// It holds exactly the shared and exclusive byte-run views (`&[T]` and
/// `&mut [T]`) and the shared and exclusive text views (`&str` and
/// `&mut str`).
pub trait Sealed {

}

/// Whether the resolved range `[lo, hi]` selects a valid sub-range of the
/// run `c` for views of kind `S`: both endpoints within `[0, len]`, in
/// order, and each an admissible endpoint. Shrinking succeeds exactly on
/// such ranges.
pub open spec fn range_ok<S: Shrink + ?Sized>(c: Seq<S::Elem>, lo: int, hi: int) -> bool {
    &&& 0 <= lo <= hi <= c.len()
    &&& S::cut_ok(c, lo)
    &&& S::cut_ok(c, hi)
}

/// The extension trait that narrows a view in place.
///
/// A view is a non-owning reference to a contiguous run of elements. Its
/// current denotation is the sequence [`Shrink::contents`]; for the slice
/// views these are the referenced elements, for the string-slice views the
/// bytes of the encoded text. Shrinking replaces the reference held in the
/// caller's binding with a reference to a sub-range of that run, selected
/// by a [`ShrinkRange`], without touching the underlying storage.
pub trait Shrink: Sealed {
    /// The kind of element the view's contents are made of.
    type Elem;

    /// The run of elements the view currently denotes.
    spec fn contents(&self) -> Seq<Self::Elem>;

    /// Whether `c` is a run that a view of this kind can denote. Every run
    /// of elements can stand behind a slice view; a text view only ever
    /// denotes validly encoded text.
    spec fn wf_contents(c: Seq<Self::Elem>) -> bool;

    /// Whether offset `i` into the run `c` may serve as an endpoint of a
    /// shrink. For slice views every offset may; for text views only the
    /// boundaries between encoded characters may.
    spec fn cut_ok(c: Seq<Self::Elem>, i: int) -> bool;

    /// The contents of an actual view are always well formed.
    proof fn contents_wf(&self)
        ensures
            Self::wf_contents(self.contents()),
    ;

    /// Both ends of a well-formed run are admissible endpoints, so the full
    /// range `[0, len]` is always valid.
    proof fn cut_at_ends(c: Seq<Self::Elem>)
        requires
            Self::wf_contents(c),
        ensures
            Self::cut_ok(c, 0),
            Self::cut_ok(c, c.len() as int),
    ;

    /// A valid sub-range of a well-formed run is itself well formed, so a
    /// shrunk view can be shrunk again.
    proof fn wf_subrange(c: Seq<Self::Elem>, lo: int, hi: int)
        requires
            Self::wf_contents(c),
            0 <= lo <= hi <= c.len(),
            Self::cut_ok(c, lo),
            Self::cut_ok(c, hi),
        ensures
            Self::wf_contents(c.subrange(lo, hi)),
    ;

    /// An admissible endpoint of a valid sub-range is, shifted by the
    /// sub-range's offset, an admissible endpoint of the whole run.
    proof fn cut_compose(c: Seq<Self::Elem>, lo: int, hi: int, i: int)
        requires
            Self::wf_contents(c),
            0 <= lo <= hi <= c.len(),
            Self::cut_ok(c, lo),
            Self::cut_ok(c, hi),
            0 <= i <= hi - lo,
            Self::cut_ok(c.subrange(lo, hi), i),
        ensures
            Self::cut_ok(c, lo + i),
    ;

    /// Shrink the view so that it refers to a sub-range of its old range.
    ///
    /// Succeeds exactly when the range, resolved against the current length,
    /// is a valid sub-range: both endpoints within `[0, len]`, in order, and
    /// — for string slices — on character boundaries. On success the view
    /// denotes precisely the selected sub-run; on failure it is left
    /// unchanged and [`ShrinkError`] is returned.
    #[must_use]
    fn try_shrink<R: ShrinkRange>(&mut self, range: R) -> (r: Result<(), ShrinkError>)
        ensures
            ({
                let lo = range.spec_start(old(self).contents().len());
                let hi = range.spec_end(old(self).contents().len());
                &&& (r is Ok <==> (0 <= lo <= hi <= old(self).contents().len()
                    && Self::cut_ok(old(self).contents(), lo) && Self::cut_ok(
                    old(self).contents(),
                    hi,
                )))
                &&& (r is Ok ==> final(self).contents() == old(self).contents().subrange(lo, hi))
                &&& (r is Err ==> final(self).contents() == old(self).contents())
            }),
    ;

    /// Shrink the view so that it refers to a sub-range of its old range.
    ///
    /// The range must be valid for the view, exactly as
    /// [`Shrink::try_shrink`] demands for success; on a range that violates
    /// that condition this method does not return and the process aborts.
    fn shrink<R: ShrinkRange>(&mut self, range: R)
        requires
            ({
                let lo = range.spec_start(old(self).contents().len());
                let hi = range.spec_end(old(self).contents().len());
                &&& 0 <= lo <= hi <= old(self).contents().len()
                &&& Self::cut_ok(old(self).contents(), lo)
                &&& Self::cut_ok(old(self).contents(), hi)
            }),
        ensures
            final(self).contents() == old(self).contents().subrange(
                range.spec_start(old(self).contents().len()),
                range.spec_end(old(self).contents().len()),
            ),
    {
        let r = self.try_shrink(range);
        match r {
            Ok(()) => (),
            Err(_) => vstd::pervasive::unreached(),
        }
    }
}

} // verus!

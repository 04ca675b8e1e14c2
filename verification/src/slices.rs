//! Shrinking for the two byte-run views, `&[T]` and `&mut [T]`.
//!
//! A shared slice reference can simply be copied and re-sliced. An exclusive
//! one cannot: computing a sub-slice from it needs the original binding to be
//! relinquished first, so the implementation swaps an empty stand-in into the
//! binding, re-slices the taken-out reference, and commits the result back —
//! restoring the original reference when the range turns out to be invalid.

use vstd::prelude::*;

verus! {

use crate::range::ShrinkRange;
use crate::{Sealed, Shrink, ShrinkError};

/// Relies on mutable slice indexing, `<[T]>::get_mut` with the range `i..j`:
/// for `i <= j <= s.len()` it returns `Some` of the sub-slice from `i` to
/// `j`, and writes through that sub-slice land in the corresponding
/// positions of `s`.
#[verifier::external_body]
fn slice_subrange_mut<'a, T>(s: &'a mut [T], i: usize, j: usize) -> (out: &'a mut [T])
    requires
        i <= j <= s@.len(),
    ensures
        out@ == old(s)@.subrange(i as int, j as int),
        final(s)@ == old(s)@.subrange(0, i as int) + final(out)@ + old(s)@.subrange(
            j as int,
            old(s)@.len() as int,
        ),
{
    s.get_mut(i..j).unwrap()
}

impl<'a, T> Sealed for &'a [T] {

}

impl<'a, T> Shrink for &'a [T] {
    type Elem = T;

    open spec fn contents(&self) -> Seq<T> {
        (*self)@
    }

    open spec fn wf_contents(c: Seq<T>) -> bool {
        true
    }

    open spec fn cut_ok(c: Seq<T>, i: int) -> bool {
        true
    }

    proof fn contents_wf(&self) {
    }

    proof fn cut_at_ends(c: Seq<T>) {
    }

    proof fn wf_subrange(c: Seq<T>, lo: int, hi: int) {
    }

    proof fn cut_compose(c: Seq<T>, lo: int, hi: int, i: int) {
    }

    fn try_shrink<R: ShrinkRange>(&mut self, range: R) -> (r: Result<(), ShrinkError>) {
        let (start, end) = range.bounds((*self).len());
        if start <= end && end <= (*self).len() {
            *self = vstd::slice::slice_subrange(*self, start, end);
            Ok(())
        } else {
            Err(ShrinkError)
        }
    }
}

impl<'a, T> Sealed for &'a mut [T] {

}

impl<'a, T> Shrink for &'a mut [T] {
    type Elem = T;

    open spec fn contents(&self) -> Seq<T> {
        (*self)@
    }

    open spec fn wf_contents(c: Seq<T>) -> bool {
        true
    }

    open spec fn cut_ok(c: Seq<T>, i: int) -> bool {
        true
    }

    proof fn contents_wf(&self) {
    }

    proof fn cut_at_ends(c: Seq<T>) {
    }

    proof fn wf_subrange(c: Seq<T>, lo: int, hi: int) {
    }

    proof fn cut_compose(c: Seq<T>, lo: int, hi: int, i: int) {
    }

    fn try_shrink<R: ShrinkRange>(&mut self, range: R) -> (r: Result<(), ShrinkError>) {
        let mut tmp: &'a mut [T] = &mut [];
        core::mem::swap(self, &mut tmp);
        let (start, end) = range.bounds(tmp.len());
        if start <= end && end <= tmp.len() {
            *self = slice_subrange_mut(tmp, start, end);
            Ok(())
        } else {
            *self = tmp;
            Err(ShrinkError)
        }
    }
}

} // verus!

//! Shrinking for the two text views, `&str` and `&mut str`.
//!
//! A text view denotes validly encoded text, so its contents are modelled as
//! the underlying bytes and a shrink endpoint is admissible only on a
//! boundary between encoded characters. The helper lemmas carry the
//! character-boundary facts across taking prefixes and sub-ranges.

use vstd::prelude::*;
use vstd::string::StringSliceAdditionalSpecFns;

verus! {

use vstd::utf8::is_char_boundary;
use vstd::utf8::valid_utf8;
use crate::range::ShrinkRange;
use crate::{Sealed, Shrink, ShrinkError};

/// A character boundary of a run that falls at or before a second boundary
/// is a character boundary of the prefix that the second one cuts off.
proof fn lemma_boundary_in_prefix(bytes: Seq<u8>, start: int, end: int)
    requires
        valid_utf8(bytes),
        0 <= start <= end <= bytes.len(),
        is_char_boundary(bytes, start),
        is_char_boundary(bytes, end),
    ensures
        is_char_boundary(bytes.subrange(0, end), start),
{
    let pre = bytes.subrange(0, end);
    vstd::utf8::valid_utf8_split(bytes, end);
    if start == end {
        vstd::utf8::is_char_boundary_start_end_of_seq(pre);
    } else {
        vstd::utf8::is_char_boundary_iff_not_is_continuation_byte(bytes, start);
        vstd::utf8::is_char_boundary_iff_not_is_continuation_byte(pre, start);
    }
}

/// The sub-range between two character boundaries of validly encoded text is
/// validly encoded text.
proof fn lemma_text_wf_subrange(c: Seq<u8>, lo: int, hi: int)
    requires
        valid_utf8(c),
        0 <= lo <= hi <= c.len(),
        is_char_boundary(c, lo),
        is_char_boundary(c, hi),
    ensures
        valid_utf8(c.subrange(lo, hi)),
{
    let pre = c.subrange(0, hi);
    vstd::utf8::valid_utf8_split(c, hi);
    lemma_boundary_in_prefix(c, lo, hi);
    vstd::utf8::valid_utf8_split(pre, lo);
    assert(pre.subrange(lo, pre.len() as int) =~= c.subrange(lo, hi));
}

/// A character boundary of the sub-range between two character boundaries
/// is, shifted by the sub-range's offset, a character boundary of the whole.
proof fn lemma_text_cut_compose(c: Seq<u8>, lo: int, hi: int, i: int)
    requires
        valid_utf8(c),
        0 <= lo <= hi <= c.len(),
        is_char_boundary(c, lo),
        is_char_boundary(c, hi),
        0 <= i <= hi - lo,
        is_char_boundary(c.subrange(lo, hi), i),
    ensures
        is_char_boundary(c, lo + i),
{
    if i > 0 && lo + i < hi {
        let sub = c.subrange(lo, hi);
        lemma_text_wf_subrange(c, lo, hi);
        vstd::utf8::is_char_boundary_iff_not_is_continuation_byte(sub, i);
        vstd::utf8::is_char_boundary_iff_not_is_continuation_byte(c, lo + i);
        assert(sub[i] == c[lo + i]);
    }
}

/// Relies on mutable string-slice indexing, `str::get_mut` with the range
/// `i..j`: for endpoints in order, within the byte length and on character
/// boundaries it returns `Some` of the sub-slice from byte `i` to byte `j`,
/// and writes through that sub-slice land in the corresponding bytes of `s`.
#[verifier::external_body]
fn str_subrange_mut<'a>(s: &'a mut str, i: usize, j: usize) -> (out: &'a mut str)
    requires
        i <= j <= s.spec_bytes().len(),
        is_char_boundary(s.spec_bytes(), i as int),
        is_char_boundary(s.spec_bytes(), j as int),
    ensures
        out.spec_bytes() == old(s).spec_bytes().subrange(i as int, j as int),
        final(s).spec_bytes() == old(s).spec_bytes().subrange(0, i as int)
            + final(out).spec_bytes() + old(s).spec_bytes().subrange(
            j as int,
            old(s).spec_bytes().len() as int,
        ),
{
    s.get_mut(i..j).unwrap()
}

/// Relies on `<&mut str as Default>::default`: it hands out an empty
/// exclusive string slice, used only as a stand-in while the caller's
/// reference is taken out of its binding.
#[verifier::external_body]
fn empty_mut_str<'a>() -> (out: &'a mut str) {
    core::default::Default::default()
}

impl<'a> Sealed for &'a str {

}

impl<'a> Shrink for &'a str {
    type Elem = u8;

    open spec fn contents(&self) -> Seq<u8> {
        (*self).spec_bytes()
    }

    open spec fn wf_contents(c: Seq<u8>) -> bool {
        valid_utf8(c)
    }

    open spec fn cut_ok(c: Seq<u8>, i: int) -> bool {
        is_char_boundary(c, i)
    }

    proof fn contents_wf(&self) {
        vstd::utf8::encode_utf8_valid_utf8((*self)@);
    }

    proof fn cut_at_ends(c: Seq<u8>) {
        vstd::utf8::is_char_boundary_start_end_of_seq(c);
    }

    proof fn wf_subrange(c: Seq<u8>, lo: int, hi: int) {
        lemma_text_wf_subrange(c, lo, hi);
    }

    proof fn cut_compose(c: Seq<u8>, lo: int, hi: int, i: int) {
        lemma_text_cut_compose(c, lo, hi, i);
    }

    fn try_shrink<R: ShrinkRange>(&mut self, range: R) -> (r: Result<(), ShrinkError>) {
        let nbytes = (*self).as_bytes().len();
        let (start, end) = range.bounds(nbytes);
        if start <= end && end <= nbytes && (*self).is_char_boundary(start)
            && (*self).is_char_boundary(end) {
            proof {
                vstd::utf8::encode_utf8_valid_utf8((*self)@);
                lemma_boundary_in_prefix((*self).spec_bytes(), start as int, end as int);
            }
            let (pre, _) = (*self).split_at(end);
            let (_, mid) = pre.split_at(start);
            proof {
                assert(mid.spec_bytes() =~= (*self).spec_bytes().subrange(
                    start as int,
                    end as int,
                ));
            }
            *self = mid;
            Ok(())
        } else {
            Err(ShrinkError)
        }
    }
}

impl<'a> Sealed for &'a mut str {

}

impl<'a> Shrink for &'a mut str {
    type Elem = u8;

    open spec fn contents(&self) -> Seq<u8> {
        (*self).spec_bytes()
    }

    open spec fn wf_contents(c: Seq<u8>) -> bool {
        valid_utf8(c)
    }

    open spec fn cut_ok(c: Seq<u8>, i: int) -> bool {
        is_char_boundary(c, i)
    }

    proof fn contents_wf(&self) {
        vstd::utf8::encode_utf8_valid_utf8((*self)@);
    }

    proof fn cut_at_ends(c: Seq<u8>) {
        vstd::utf8::is_char_boundary_start_end_of_seq(c);
    }

    proof fn wf_subrange(c: Seq<u8>, lo: int, hi: int) {
        lemma_text_wf_subrange(c, lo, hi);
    }

    proof fn cut_compose(c: Seq<u8>, lo: int, hi: int, i: int) {
        lemma_text_cut_compose(c, lo, hi, i);
    }

    fn try_shrink<R: ShrinkRange>(&mut self, range: R) -> (r: Result<(), ShrinkError>) {
        let mut tmp: &'a mut str = empty_mut_str();
        core::mem::swap(self, &mut tmp);
        let nbytes = tmp.as_bytes().len();
        let (start, end) = range.bounds(nbytes);
        if start <= end && end <= nbytes && tmp.is_char_boundary(start) && tmp.is_char_boundary(
            end,
        ) {
            *self = str_subrange_mut(tmp, start, end);
            Ok(())
        } else {
            *self = tmp;
            Err(ShrinkError)
        }
    }
}

} // verus!

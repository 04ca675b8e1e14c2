//! Laws that relate several shrink operations, proved once for every view
//! kind from the obligations of the [`Shrink`] trait.

use vstd::prelude::*;

verus! {

use vstd::string::StringSliceAdditionalSpecFns;
use crate::{range_ok, Shrink};

/// The byte contents of a text view determine its characters: the character
/// sequence a string slice denotes is the UTF-8 decoding of its bytes. The
/// byte-level shrink contracts therefore pin the resulting text as well.
pub proof fn lemma_text_bytes_pin_chars(s: &str)
    ensures
        s@ == vstd::utf8::decode_utf8(s.spec_bytes()),
{
    vstd::utf8::encode_utf8_decode_utf8(s@);
}

/// Law: the full range `[0, len]` is always a valid shrink range for a view,
/// and the sub-run it selects is the whole run — so a full-range shrink
/// succeeds and leaves the view unchanged.
pub proof fn lemma_full_range_shrink<S: Shrink>(v: &S)
    ensures
        range_ok::<S>(v.contents(), 0, v.contents().len() as int),
        v.contents().subrange(0, v.contents().len() as int) == v.contents(),
{
    v.contents_wf();
    S::cut_at_ends(v.contents());
    assert(v.contents().subrange(0, v.contents().len() as int) =~= v.contents());
}

/// Law: shrinking a view by `[lo1, hi1]` and then shrinking the result by
/// `[lo2, hi2]` gives the same contents as a single shrink of the original
/// by the composed range `[lo1 + lo2, lo1 + hi2]`; and whenever both steps
/// are valid in turn, the composed range is valid for the original view.
pub proof fn lemma_shrink_compose<S: Shrink>(v: &S, lo1: int, hi1: int, lo2: int, hi2: int)
    requires
        range_ok::<S>(v.contents(), lo1, hi1),
        range_ok::<S>(v.contents().subrange(lo1, hi1), lo2, hi2),
    ensures
        range_ok::<S>(v.contents(), lo1 + lo2, lo1 + hi2),
        v.contents().subrange(lo1, hi1).subrange(lo2, hi2) == v.contents().subrange(
            lo1 + lo2,
            lo1 + hi2,
        ),
{
    let c = v.contents();
    v.contents_wf();
    S::cut_compose(c, lo1, hi1, lo2);
    S::cut_compose(c, lo1, hi1, hi2);
    assert(c.subrange(lo1, hi1).subrange(lo2, hi2) =~= c.subrange(lo1 + lo2, lo1 + hi2));
}

} // verus!

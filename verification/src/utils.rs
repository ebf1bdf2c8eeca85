//! Where the amounts of a cash flow that are not zero begin and end.

use std::ops::Range;
use vstd::prelude::*;

use crate::models::Sign;

verus! {

/// `start..end` is the narrowest span of `signs` holding every amount that is
/// not zero, and `0..0` when every amount is zero.
pub open spec fn is_nonzero_span(signs: Seq<Sign>, start: int, end: int) -> bool {
    &&& 0 <= start <= end <= signs.len()
    &&& forall|i: int| 0 <= i < start ==> !(#[trigger] signs[i]).is_nonzero()
    &&& forall|i: int| end <= i < signs.len() ==> !(#[trigger] signs[i]).is_nonzero()
    &&& start < end ==> signs[start].is_nonzero() && signs[end - 1].is_nonzero()
    &&& start == end ==> start == 0
}

/// The span of a cash flow between its first and its last amount that is not
/// zero, `0..0` when there is none. Leading and trailing zeros carry no
/// information for a rate, and the rate functions drop them first.
pub fn non_zero_range(signs: &[Sign]) -> (range: Range<usize>)
    ensures
        is_nonzero_span(signs@, range.start as int, range.end as int),
{
    let n = signs.len();
    let mut first: usize = 0;
    while first < n && signs[first] == Sign::Zero
        invariant
            first <= n,
            n == signs@.len(),
            forall|i: int| 0 <= i < first ==> !(#[trigger] signs@[i]).is_nonzero(),
        decreases n - first,
    {
        first += 1;
    }
    if first == n {
        return 0..0;
    }
    let mut last: usize = n;
    while signs[last - 1] == Sign::Zero
        invariant
            first < last <= n,
            n == signs@.len(),
            signs@[first as int].is_nonzero(),
            forall|i: int| last <= i < n ==> !(#[trigger] signs@[i]).is_nonzero(),
        decreases last,
    {
        last -= 1;
    }
    first..last
}

/// Trimming is idempotent: the span of the amounts within a flow's span is
/// that whole stretch.
pub proof fn lemma_trimmed_flow_spans_itself(signs: Seq<Sign>, start: int, end: int)
    requires
        is_nonzero_span(signs, start, end),
    ensures
        is_nonzero_span(signs.subrange(start, end), 0, end - start),
{
}

} // verus!

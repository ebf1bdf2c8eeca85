//! The decisions of the canonical rate search: which flows it accepts, how
//! many times their amounts change sign, which search a flow needs, and how a
//! cell of the sweep is handled.

use vstd::prelude::*;

use crate::models::{has_inflow, has_outflow, validate, InvalidPaymentsError, Sign};
use crate::utils::is_nonzero_span;

verus! {

/// Every amount is a finite number.
pub open spec fn all_finite(signs: Seq<Sign>) -> bool {
    forall|i: int| 0 <= i < signs.len() ==> #[trigger] signs[i].is_finite()
}

/// Whether every amount is a number. A flow holding an infinity or a `NaN`
/// compares false against every bound of the search, so it would be
/// indistinguishable from one with no rate in the band.
pub fn validate_finite(signs: &[Sign]) -> (res: Result<(), InvalidPaymentsError>)
    ensures
        res is Ok <==> all_finite(signs@),
        res is Err ==> res == Err::<(), InvalidPaymentsError>(InvalidPaymentsError::NotFinite),
{
    let mut i: usize = 0;
    while i < signs.len()
        invariant
            i <= signs.len(),
            forall|j: int| 0 <= j < i ==> #[trigger] signs@[j].is_finite(),
        decreases signs.len() - i,
    {
        match signs[i] {
            Sign::Zero | Sign::Negative | Sign::Positive => {},
            _ => {
                assert(!signs@[i as int].is_finite());
                return Err(InvalidPaymentsError::NotFinite);
            },
        }
        i += 1;
    }
    Ok(())
}

/// Whether the last amount of `signs` that is not zero is below zero, or
/// `None` when every amount is zero. An amount that is not a number is not
/// zero and not below zero.
pub open spec fn last_nonzero_below(signs: Seq<Sign>) -> Option<bool>
    decreases signs.len(),
{
    if signs.len() == 0 {
        None
    } else if signs.last().is_nonzero() {
        Some(signs.last().is_below_zero())
    } else {
        last_nonzero_below(signs.drop_last())
    }
}

/// The number of amounts, not zero, whose side of zero differs from that of
/// the amount not zero before them.
pub open spec fn count_sign_changes(signs: Seq<Sign>) -> nat
    decreases signs.len(),
{
    if signs.len() == 0 {
        0
    } else {
        let before = count_sign_changes(signs.drop_last());
        if signs.last().is_nonzero() && (last_nonzero_below(signs.drop_last()) matches Some(was_below)
            && was_below != signs.last().is_below_zero()) {
            before + 1
        } else {
            before
        }
    }
}

proof fn lemma_count_sign_changes_bounded(signs: Seq<Sign>)
    ensures
        count_sign_changes(signs) <= signs.len(),
    decreases signs.len(),
{
    if signs.len() > 0 {
        lemma_count_sign_changes_bounded(signs.drop_last());
    }
}

/// Sign changes in the amounts, zeros skipped. By Descartes' rule of signs a
/// single change means exactly one positive root of the present value as a
/// polynomial, so there is nothing for a sweep to find.
pub fn sign_changes(signs: &[Sign]) -> (changes: usize)
    ensures
        changes == count_sign_changes(signs@),
{
    let mut changes: usize = 0;
    let mut previous: Option<bool> = None;
    let mut i: usize = 0;
    while i < signs.len()
        invariant
            i <= signs.len(),
            changes == count_sign_changes(signs@.take(i as int)),
            previous == last_nonzero_below(signs@.take(i as int)),
            changes <= i,
        decreases signs.len() - i,
    {
        proof {
            assert(signs@.take(i + 1).drop_last() =~= signs@.take(i as int));
            lemma_count_sign_changes_bounded(signs@.take(i as int));
        }
        let sign = signs[i];
        if sign != Sign::Zero {
            let below = match sign {
                Sign::Negative | Sign::NegativeInfinity => true,
                _ => false,
            };
            if let Some(was_below) = previous {
                if was_below != below {
                    changes += 1;
                }
            }
            previous = Some(below);
        }
        i += 1;
    }
    proof {
        assert(signs@.take(signs@.len() as int) =~= signs@);
    }
    changes
}

/// How deep a sweep cell may be split at turns of the slope.
pub const SPLIT_DEPTH: u32 = 3;

/// Steps of the sweep across the band.
pub const SWEEP_STEPS: u32 = 96;

/// The search a validated flow needs.
#[derive(Clone, Copy, Debug, PartialEq, Eq, Structural)]
pub enum CanonicalSearch {
    /// Every positive root of the present value lies past the highest rate
    /// reported: there is no rate in the band.
    OutOfBand,
    /// One sign change: one root at most, refined directly where the present
    /// value changes sign across the band.
    SingleCrossing,
    /// Several sign changes: a sweep across the band.
    Sweep,
}

/// The search a flow takes, by the spec below.
pub open spec fn spec_canonical_search(signs: Seq<Sign>, bound_inside_band: bool) -> Result<CanonicalSearch, InvalidPaymentsError> {
    if !all_finite(signs) {
        Err(InvalidPaymentsError::NotFinite)
    } else if !(has_outflow(signs) && has_inflow(signs)) {
        Err(InvalidPaymentsError::OneSign)
    } else if !bound_inside_band {
        Ok(CanonicalSearch::OutOfBand)
    } else if count_sign_changes(signs) == 1 {
        Ok(CanonicalSearch::SingleCrossing)
    } else {
        Ok(CanonicalSearch::Sweep)
    }
}

/// What the canonical rate search does with a flow whose zeros at either end
/// were dropped. A flow with an amount that is not a finite number is refused
/// first, then one without money going both ways. `bound_inside_band` is
/// whether the bound on its positive roots reaches into the band of rates
/// reported; if it does not there is no rate to report.
pub fn canonical_search(signs: &[Sign], bound_inside_band: bool) -> (res: Result<CanonicalSearch, InvalidPaymentsError>)
    ensures
        res == spec_canonical_search(signs@, bound_inside_band),
{
    validate_finite(signs)?;
    validate(signs)?;
    if !bound_inside_band {
        return Ok(CanonicalSearch::OutOfBand);
    }
    if sign_changes(signs) == 1 {
        Ok(CanonicalSearch::SingleCrossing)
    } else {
        Ok(CanonicalSearch::Sweep)
    }
}

/// What a cell of the sweep does.
#[derive(Clone, Copy, Debug, PartialEq, Eq, Structural)]
pub enum ScanStep {
    /// Split the cell where the slope turns and scan the half at the larger
    /// `x` (the smaller rate) first.
    SplitAtTurn,
    /// Nothing brackets a root in the cell.
    NoCrossing,
    /// The present value changes sign across the cell: refine the root.
    Refine,
}

/// What a sweep cell does. A cell whose slope turns is split there while
/// `depth` allows: on either side of a turn the present value is monotone, so
/// an even number of roots cannot hide in a piece. Otherwise a sign change of
/// the value across the cell brackets a root, and no sign change means none.
pub fn scan_step(depth: u32, slope_turns: bool, ends_same_side: bool) -> (step: ScanStep)
    ensures
        step == ScanStep::SplitAtTurn <==> depth > 0 && slope_turns,
        step == ScanStep::Refine <==> !(depth > 0 && slope_turns) && !ends_same_side,
        step == (if depth > 0 && slope_turns {
            ScanStep::SplitAtTurn
        } else if ends_same_side {
            ScanStep::NoCrossing
        } else {
            ScanStep::Refine
        }),
{
    if depth > 0 && slope_turns {
        ScanStep::SplitAtTurn
    } else if ends_same_side {
        ScanStep::NoCrossing
    } else {
        ScanStep::Refine
    }
}

/// A flow is swept only when its amounts change sign at least twice: a flow
/// that passes validation changes sign at least once, and one change is
/// refined directly.
pub proof fn lemma_sweep_needs_two_changes(signs: Seq<Sign>, bound_inside_band: bool)
    requires
        spec_canonical_search(signs, bound_inside_band) == Ok::<CanonicalSearch, InvalidPaymentsError>(CanonicalSearch::Sweep),
    ensures
        count_sign_changes(signs) >= 2,
{
    lemma_both_ways_changes_sign(signs);
}

/// A validated flow whose root bound reaches into the band is refined
/// directly exactly when its amounts change sign once, and swept exactly when
/// they change sign twice or more.
pub proof fn lemma_single_crossing_exactly_for_one_change(signs: Seq<Sign>, bound_inside_band: bool)
    requires
        all_finite(signs),
        has_outflow(signs),
        has_inflow(signs),
        bound_inside_band,
    ensures
        spec_canonical_search(signs, bound_inside_band) == Ok::<CanonicalSearch, InvalidPaymentsError>(
            CanonicalSearch::SingleCrossing) <==> count_sign_changes(signs) == 1,
        spec_canonical_search(signs, bound_inside_band) == Ok::<CanonicalSearch, InvalidPaymentsError>(
            CanonicalSearch::Sweep) <==> count_sign_changes(signs) >= 2,
{
    lemma_both_ways_changes_sign(signs);
}

/// A flow is refused as not finite exactly when some amount is infinite or not
/// a number, and as one-sided exactly when it is finite but money does not go
/// both ways; a valid flow has no rate in the band exactly when its root
/// bound does not reach into it.
pub proof fn lemma_canonical_refuses_exactly_invalid(signs: Seq<Sign>, bound_inside_band: bool)
    ensures
        spec_canonical_search(signs, bound_inside_band) == Err::<CanonicalSearch, InvalidPaymentsError>(
            InvalidPaymentsError::NotFinite) <==> !all_finite(signs),
        spec_canonical_search(signs, bound_inside_band) == Err::<CanonicalSearch, InvalidPaymentsError>(
            InvalidPaymentsError::OneSign) <==> all_finite(signs) && !(has_outflow(signs) && has_inflow(signs)),
        spec_canonical_search(signs, bound_inside_band) == Ok::<CanonicalSearch, InvalidPaymentsError>(
            CanonicalSearch::OutOfBand) <==> all_finite(signs) && has_outflow(signs) && has_inflow(signs)
            && !bound_inside_band,
        spec_canonical_search(signs, bound_inside_band) != Err::<CanonicalSearch, InvalidPaymentsError>(
            InvalidPaymentsError::NoRate),
{
}

/// With no change of sign, every amount not zero sits on the side of zero of
/// the last one.
proof fn lemma_no_change_keeps_one_side(signs: Seq<Sign>)
    requires
        count_sign_changes(signs) == 0,
    ensures
        forall|i: int|
            0 <= i < signs.len() && (#[trigger] signs[i]).is_nonzero() ==> last_nonzero_below(signs)
                == Some(signs[i].is_below_zero()),
    decreases signs.len(),
{
    if signs.len() > 0 {
        let init = signs.drop_last();
        lemma_no_change_keeps_one_side(init);
        assert forall|i: int|
            0 <= i < signs.len() && (#[trigger] signs[i]).is_nonzero() implies last_nonzero_below(signs)
                == Some(signs[i].is_below_zero()) by {
            if i < signs.len() - 1 {
                assert(init[i] == signs[i]);
            }
        }
    }
}

proof fn lemma_last_nonzero_is_an_amount(signs: Seq<Sign>)
    ensures
        last_nonzero_below(signs) matches Some(below) ==> exists|i: int|
            0 <= i < signs.len() && (#[trigger] signs[i]).is_nonzero() && signs[i].is_below_zero() == below,
    decreases signs.len(),
{
    if signs.len() > 0 && !signs.last().is_nonzero() {
        let init = signs.drop_last();
        lemma_last_nonzero_is_an_amount(init);
        if last_nonzero_below(init) is Some {
            let i = choose|i: int|
                0 <= i < init.len() && (#[trigger] init[i]).is_nonzero() && init[i].is_below_zero()
                    == last_nonzero_below(init)->0;
            assert(signs[i] == init[i]);
        }
    } else if signs.len() > 0 {
        assert(signs[signs.len() - 1].is_nonzero());
    }
}

/// The amounts change sign nowhere exactly when every amount that is not zero
/// lies on the same side of zero.
pub proof fn lemma_no_change_exactly_when_one_sided(signs: Seq<Sign>)
    ensures
        count_sign_changes(signs) == 0 <==> forall|i: int, j: int|
            0 <= i < signs.len() && 0 <= j < signs.len() && (#[trigger] signs[i]).is_nonzero()
                && (#[trigger] signs[j]).is_nonzero() ==> signs[i].is_below_zero() == signs[j].is_below_zero(),
    decreases signs.len(),
{
    let one_sided = forall|i: int, j: int|
        0 <= i < signs.len() && 0 <= j < signs.len() && (#[trigger] signs[i]).is_nonzero()
            && (#[trigger] signs[j]).is_nonzero() ==> signs[i].is_below_zero() == signs[j].is_below_zero();
    if count_sign_changes(signs) == 0 {
        lemma_no_change_keeps_one_side(signs);
    }
    if one_sided && signs.len() > 0 {
        let init = signs.drop_last();
        assert forall|i: int, j: int|
            0 <= i < init.len() && 0 <= j < init.len() && (#[trigger] init[i]).is_nonzero()
                && (#[trigger] init[j]).is_nonzero() implies init[i].is_below_zero() == init[j].is_below_zero() by {
            assert(init[i] == signs[i] && init[j] == signs[j]);
        }
        lemma_no_change_exactly_when_one_sided(init);
        lemma_last_nonzero_is_an_amount(init);
        if signs.last().is_nonzero() && last_nonzero_below(init) is Some {
            let i = choose|i: int|
                0 <= i < init.len() && (#[trigger] init[i]).is_nonzero() && init[i].is_below_zero()
                    == last_nonzero_below(init)->0;
            assert(signs[i] == init[i]);
            assert(signs[signs.len() - 1].is_nonzero());
        }
    }
}

/// A flow with money going both ways changes sign at least once: a flow that
/// passes `validate` has something for a rate search to find.
pub proof fn lemma_both_ways_changes_sign(signs: Seq<Sign>)
    requires
        has_outflow(signs),
        has_inflow(signs),
    ensures
        count_sign_changes(signs) >= 1,
{
    if count_sign_changes(signs) == 0 {
        lemma_no_change_keeps_one_side(signs);
        let i = choose|i: int| 0 <= i < signs.len() && #[trigger] signs[i].is_below_zero();
        let j = choose|j: int| 0 <= j < signs.len() && #[trigger] signs[j].is_above_zero();
        assert(signs[i].is_nonzero());
        assert(signs[j].is_nonzero());
    }
}

proof fn lemma_zeros_change_nothing(signs: Seq<Sign>)
    requires
        forall|i: int| 0 <= i < signs.len() ==> !(#[trigger] signs[i]).is_nonzero(),
    ensures
        count_sign_changes(signs) == 0,
        last_nonzero_below(signs) is None,
    decreases signs.len(),
{
    if signs.len() > 0 {
        let init = signs.drop_last();
        assert forall|i: int| 0 <= i < init.len() implies !(#[trigger] init[i]).is_nonzero() by {
            assert(init[i] == signs[i]);
        }
        lemma_zeros_change_nothing(init);
    }
}

proof fn lemma_trailing_zeros_change_nothing(signs: Seq<Sign>, end: int)
    requires
        0 <= end <= signs.len(),
        forall|i: int| end <= i < signs.len() ==> !(#[trigger] signs[i]).is_nonzero(),
    ensures
        count_sign_changes(signs.subrange(0, end)) == count_sign_changes(signs),
        last_nonzero_below(signs.subrange(0, end)) == last_nonzero_below(signs),
    decreases signs.len(),
{
    if end == signs.len() {
        assert(signs.subrange(0, end) =~= signs);
    } else {
        let init = signs.drop_last();
        assert forall|i: int| end <= i < init.len() implies !(#[trigger] init[i]).is_nonzero() by {
            assert(init[i] == signs[i]);
        }
        lemma_trailing_zeros_change_nothing(init, end);
        assert(init.subrange(0, end) =~= signs.subrange(0, end));
    }
}

proof fn lemma_leading_zeros_change_nothing(signs: Seq<Sign>, start: int)
    requires
        0 <= start <= signs.len(),
        forall|i: int| 0 <= i < start ==> !(#[trigger] signs[i]).is_nonzero(),
    ensures
        count_sign_changes(signs.subrange(start, signs.len() as int)) == count_sign_changes(signs),
        last_nonzero_below(signs.subrange(start, signs.len() as int)) == last_nonzero_below(signs),
    decreases signs.len(),
{
    let rest = signs.subrange(start, signs.len() as int);
    if start == signs.len() {
        lemma_zeros_change_nothing(signs);
        assert(rest.len() == 0);
    } else {
        let init = signs.drop_last();
        assert forall|i: int| 0 <= i < start implies !(#[trigger] init[i]).is_nonzero() by {
            assert(init[i] == signs[i]);
        }
        lemma_leading_zeros_change_nothing(init, start);
        assert(rest.drop_last() =~= init.subrange(start, init.len() as int));
        assert(rest.last() == signs.last());
    }
}

/// Dropping the leading and trailing zeros of a flow, as the rate functions
/// do first, leaves its number of sign changes as it was.
pub proof fn lemma_trimming_keeps_sign_changes(signs: Seq<Sign>, start: int, end: int)
    requires
        is_nonzero_span(signs, start, end),
    ensures
        count_sign_changes(signs.subrange(start, end)) == count_sign_changes(signs),
{
    lemma_trailing_zeros_change_nothing(signs, end);
    let head = signs.subrange(0, end);
    assert forall|i: int| 0 <= i < start implies !(#[trigger] head[i]).is_nonzero() by {
        assert(head[i] == signs[i]);
    }
    lemma_leading_zeros_change_nothing(head, start);
    assert(head.subrange(start, head.len() as int) =~= signs.subrange(start, end));
}

} // verus!
